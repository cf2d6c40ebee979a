//! Command routing and error normalization for a chat assistant.
//!
//! Inbound message text is classified against a closed command grammar,
//! routed to a handler, and every handler outcome is normalized into a
//! user-visible reply or an operator-visible log record.  The grammar,
//! the parser and the per-message dispatch state machine live here and
//! are verified; the platform transport around them does not.

pub mod dispatch;
pub mod grammar;
pub mod handlers;
pub mod parse;
pub mod service;

pub use grammar::Command;
pub use grammar::CommandInfo;
pub use grammar::ReminderArgs;
pub use service::RoyalnetService;
