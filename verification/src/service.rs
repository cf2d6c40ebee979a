//! The service abstraction: a long-running front end that feeds
//! inbound messages through the dispatch pipeline.

use vstd::prelude::*;

verus! {

/// A fatal, process-level failure of a service.  Per-message failures
/// never become one: the dispatch cycle contains them.
#[derive(Debug, Clone, PartialEq, Eq)]
pub struct ServiceError {
    pub message: String,
}

/// A long-running front end of the bot.  `run` consumes the service
/// and is not expected to return while the service is healthy; it
/// yields an error only on a fatal, process-level failure.
pub trait RoyalnetService {
    fn run(self) -> Result<(), ServiceError>;
}

} // verus!
