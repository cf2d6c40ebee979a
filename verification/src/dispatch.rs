//! The dispatcher's per-message state machine.
//!
//! Each inbound message runs one dispatch cycle: classify the text,
//! invoke the matched handler, and normalize whatever happened into
//! exactly one outward consequence.  A handler failure is reported
//! back to the conversation with a warning prefix; when even that
//! report cannot be sent, one compound log record is produced and the
//! cycle ends quietly.  The transport around the cycle performs the
//! actions; the decisions stand here.

use vstd::prelude::*;

use crate::grammar::Command;
use crate::parse::ArgumentError;
use crate::parse::ParseOutcome;
use crate::parse::SpecParseOutcome;
use crate::parse::parse_message;
use crate::parse::spec_parse;

verus! {

/// Identifies the destination conversation and the message replied to,
/// for the duration of one dispatch cycle.
#[derive(Debug, Clone, Copy, PartialEq, Eq, Structural)]
pub struct ConversationRef {
    pub chat_id: i64,
    pub message_id: i32,
}

/// One outbound reply: destination, text, and the message it threads
/// onto, when any.
#[derive(Debug, Clone, PartialEq, Eq)]
pub struct SendRequest {
    pub chat_id: i64,
    pub text: String,
    pub reply_to: Option<i32>,
}

/// What one handler invocation reported back.
#[derive(Debug, Clone, PartialEq, Eq)]
pub enum HandlerResult {
    Success,
    DomainError(String),
}

/// The compound record written for operators when a reply could not be
/// sent: the handler's own failure, when there was one, together with
/// the transport failure, attributed to the conversation and message.
#[derive(Debug, Clone, PartialEq, Eq)]
pub struct LogRecord {
    pub chat_id: i64,
    pub message_id: i32,
    pub primary: Option<String>,
    pub secondary: String,
}

/// Where one dispatch cycle stands between the outside steps it waits
/// on.
#[derive(Debug, Clone, PartialEq, Eq)]
pub enum DispatchState {
    /// The matched handler is running.
    AwaitingHandler { conv: ConversationRef },
    /// A handler failed; the warning reply is being sent.  `primary`
    /// is the handler's error message.
    AwaitingErrorReply { conv: ConversationRef, primary: String },
    /// The unknown-command notice is being sent.
    AwaitingNoticeOutcome { conv: ConversationRef },
    /// The cycle is over; nothing further may happen on its behalf.
    Done,
}

/// The single outside step the transport is asked to perform next.
#[derive(Debug, Clone, PartialEq, Eq)]
pub enum Action {
    /// Run the handler registered for this command.
    Invoke(Command),
    /// Send a reply.
    Send(SendRequest),
    /// Write one record for operators; nothing reaches the user.
    Log(LogRecord),
}

impl DispatchState {
    /// The cycle waits for the handler's result.
    pub open spec fn expects_handler(self) -> bool {
        match self {
            DispatchState::AwaitingHandler { .. } => true,
            _ => false,
        }
    }

    /// The cycle waits for the outcome of a send.
    pub open spec fn expects_send_outcome(self) -> bool {
        match self {
            DispatchState::AwaitingErrorReply { .. } => true,
            DispatchState::AwaitingNoticeOutcome { .. } => true,
            _ => false,
        }
    }
}

/// The fixed notice sent for a message that is not a command.
pub const UNKNOWN_COMMAND_NOTICE: &'static str = "⚠️ Comando sconosciuto.";

/// The warning marker put in front of every user-visible error.
pub open spec fn spec_warn_prefix() -> Seq<char> {
    "⚠️ "@
}

/// Formats a user-visible error notice: the warning marker followed by
/// the message.
pub fn error_notice(message: &str) -> (r: String)
    ensures
        r@ == spec_warn_prefix() + message@,
{
    let prefix = String::from_str("⚠️ ");
    prefix.concat(message)
}

/// The user-visible text for a recognized command whose argument was
/// rejected.
pub open spec fn spec_arg_error_text(command: Seq<char>, reason: ArgumentError) -> Seq<char> {
    match reason {
        ArgumentError::TooManyArguments => "Troppi argomenti per il comando /"@ + command + "."@,
        ArgumentError::MissingWait => "Specifica tra quanti secondi inviare il promemoria."@,
        ArgumentError::InvalidWait => "Il tempo di attesa deve essere un numero intero di secondi."@,
        ArgumentError::WaitTooLarge => "Il tempo di attesa richiesto è troppo grande."@,
    }
}

pub fn arg_error_text(command: &str, reason: ArgumentError) -> (r: String)
    ensures
        r@ == spec_arg_error_text(command@, reason),
{
    match reason {
        ArgumentError::TooManyArguments => {
            let head = String::from_str("Troppi argomenti per il comando /");
            head.concat(command).concat(".")
        },
        ArgumentError::MissingWait => "Specifica tra quanti secondi inviare il promemoria.".to_owned(),
        ArgumentError::InvalidWait => "Il tempo di attesa deve essere un numero intero di secondi.".to_owned(),
        ArgumentError::WaitTooLarge => "Il tempo di attesa richiesto è troppo grande.".to_owned(),
    }
}

/// What `route_outcome` and `begin_cycle` promise of their result,
/// given the classification of the message.
pub open spec fn routed_correctly(
    conv: ConversationRef,
    classified: SpecParseOutcome,
    r: (DispatchState, Action),
) -> bool {
    match classified {
        SpecParseOutcome::Parsed(c) => {
            &&& (match r.0 {
                DispatchState::AwaitingHandler { conv: c0 } => c0 == conv,
                _ => false,
            })
            &&& (match r.1 {
                Action::Invoke(cmd) => cmd@ == c,
                _ => false,
            })
        },
        SpecParseOutcome::BadArguments { command, reason } => {
            &&& (match r.0 {
                DispatchState::AwaitingErrorReply { conv: c0, primary } => c0 == conv
                    && primary@ == spec_arg_error_text(command, reason),
                _ => false,
            })
            &&& (match r.1 {
                Action::Send(req) => req.chat_id == conv.chat_id && req.text@ == spec_warn_prefix()
                    + spec_arg_error_text(command, reason) && req.reply_to == Some(
                    conv.message_id,
                ),
                _ => false,
            })
        },
        SpecParseOutcome::Unrecognized { .. } => {
            &&& (match r.0 {
                DispatchState::AwaitingNoticeOutcome { conv: c0 } => c0 == conv,
                _ => false,
            })
            &&& (match r.1 {
                Action::Send(req) => req.chat_id == conv.chat_id && req.text@
                    == UNKNOWN_COMMAND_NOTICE@ && req.reply_to == Some(conv.message_id),
                _ => false,
            })
        },
    }
}

/// Routes one classification: a command goes to its handler, a
/// malformed argument is reported like a handler error, and anything
/// unrecognized draws the fixed notice.  The dispatcher holds no
/// command-specific logic: the command travels in the action as is.
pub fn route_outcome(conv: ConversationRef, outcome: ParseOutcome) -> (r: (DispatchState, Action))
    ensures
        routed_correctly(conv, outcome@, r),
{
    match outcome {
        ParseOutcome::Parsed(c) => {
            (DispatchState::AwaitingHandler { conv }, Action::Invoke(c))
        },
        ParseOutcome::BadArguments { command, reason } => {
            let message = arg_error_text(command.as_str(), reason);
            let text = error_notice(message.as_str());
            (
                DispatchState::AwaitingErrorReply { conv, primary: message },
                Action::Send(
                    SendRequest {
                        chat_id: conv.chat_id,
                        text,
                        reply_to: Some(conv.message_id),
                    },
                ),
            )
        },
        ParseOutcome::Unrecognized { .. } => {
            (
                DispatchState::AwaitingNoticeOutcome { conv },
                Action::Send(
                    SendRequest {
                        chat_id: conv.chat_id,
                        text: UNKNOWN_COMMAND_NOTICE.to_owned(),
                        reply_to: Some(conv.message_id),
                    },
                ),
            )
        },
    }
}

/// Opens one dispatch cycle on an inbound message: classifies the text
/// and routes the classification.
pub fn begin_cycle(conv: ConversationRef, text: &str, bot_name: &str) -> (r: (
    DispatchState,
    Action,
))
    ensures
        routed_correctly(conv, spec_parse(text@, bot_name@), r),
{
    let outcome = parse_message(text, bot_name);
    route_outcome(conv, outcome)
}

/// Folds the handler's result into the cycle.  Success ends the cycle
/// with no further action.  A domain error turns into exactly one
/// outbound reply: the warning marker followed by the handler's
/// message, threaded onto the original message.
pub fn on_handler_result(state: DispatchState, result: HandlerResult) -> (r: (
    DispatchState,
    Option<Action>,
))
    requires
        state.expects_handler(),
    ensures
        (match (state, result) {
            (DispatchState::AwaitingHandler { conv }, HandlerResult::Success) => r.0
                == DispatchState::Done && r.1 is None,
            (DispatchState::AwaitingHandler { conv }, HandlerResult::DomainError(m)) => {
                &&& (match r.0 {
                    DispatchState::AwaitingErrorReply { conv: c2, primary } => c2 == conv
                        && primary@ == m@,
                    _ => false,
                })
                &&& (match r.1 {
                    Some(Action::Send(req)) => req.chat_id == conv.chat_id && req.text@
                        == spec_warn_prefix() + m@ && req.reply_to == Some(conv.message_id),
                    _ => false,
                })
            },
            _ => true,
        }),
{
    match state {
        DispatchState::AwaitingHandler { conv } => {
            match result {
                HandlerResult::Success => (DispatchState::Done, None),
                HandlerResult::DomainError(m) => {
                    let text = error_notice(m.as_str());
                    (
                        DispatchState::AwaitingErrorReply { conv, primary: m },
                        Some(
                            Action::Send(
                                SendRequest {
                                    chat_id: conv.chat_id,
                                    text,
                                    reply_to: Some(conv.message_id),
                                },
                            ),
                        ),
                    )
                },
            }
        },
        _ => (DispatchState::Done, None),
    }
}

/// Folds the outcome of a send into the cycle.  The cycle always ends
/// here, and no second send is ever attempted.  When the error reply
/// itself failed, exactly one compound record is produced, carrying
/// the handler's failure, the transport failure, and the conversation
/// and message identifiers; when the unknown-command notice failed,
/// the record carries the transport failure alone.
pub fn on_send_outcome(state: DispatchState, outcome: Result<(), String>) -> (r: (
    DispatchState,
    Option<Action>,
))
    requires
        state.expects_send_outcome(),
    ensures
        r.0 == DispatchState::Done,
        (match r.1 {
            Some(Action::Send(_)) => false,
            Some(Action::Invoke(_)) => false,
            _ => true,
        }),
        (match (state, outcome) {
            (_, Ok(())) => r.1 is None,
            (DispatchState::AwaitingErrorReply { conv, primary }, Err(e)) => (match r.1 {
                Some(Action::Log(rec)) => rec.chat_id == conv.chat_id && rec.message_id
                    == conv.message_id && (match rec.primary {
                    Some(p) => p@ == primary@,
                    None => false,
                }) && rec.secondary@ == e@,
                _ => false,
            }),
            (DispatchState::AwaitingNoticeOutcome { conv }, Err(e)) => (match r.1 {
                Some(Action::Log(rec)) => rec.chat_id == conv.chat_id && rec.message_id
                    == conv.message_id && rec.primary is None && rec.secondary@ == e@,
                _ => false,
            }),
            _ => true,
        }),
{
    match outcome {
        Ok(()) => (DispatchState::Done, None),
        Err(e) => {
            match state {
                DispatchState::AwaitingErrorReply { conv, primary } => {
                    (
                        DispatchState::Done,
                        Some(
                            Action::Log(
                                LogRecord {
                                    chat_id: conv.chat_id,
                                    message_id: conv.message_id,
                                    primary: Some(primary),
                                    secondary: e,
                                },
                            ),
                        ),
                    )
                },
                DispatchState::AwaitingNoticeOutcome { conv } => {
                    (
                        DispatchState::Done,
                        Some(
                            Action::Log(
                                LogRecord {
                                    chat_id: conv.chat_id,
                                    message_id: conv.message_id,
                                    primary: None,
                                    secondary: e,
                                },
                            ),
                        ),
                    )
                },
                _ => (DispatchState::Done, None),
            }
        },
    }
}

} // verus!

