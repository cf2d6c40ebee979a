use royalnet::Command;
use royalnet::dispatch::Action;
use royalnet::dispatch::ConversationRef;
use royalnet::dispatch::DispatchState;
use royalnet::dispatch::HandlerResult;
use royalnet::dispatch::LogRecord;
use royalnet::dispatch::SendRequest;
use royalnet::dispatch::UNKNOWN_COMMAND_NOTICE;
use royalnet::dispatch::begin_cycle;
use royalnet::dispatch::on_handler_result;
use royalnet::dispatch::on_send_outcome;
use royalnet::handlers::echo_reply;
use royalnet::handlers::help_all_text;
use royalnet::handlers::help_reply;

const BOT: &str = "royalnetbot";

fn conv() -> ConversationRef {
    ConversationRef { chat_id: -1001234, message_id: 777 }
}

#[test]
fn domain_error_reply_is_warn_prefix_plus_message() {
    let state = DispatchState::AwaitingHandler { conv: conv() };
    let (next, action) = on_handler_result(
        state,
        HandlerResult::DomainError("qualcosa è andato storto".to_string()),
    );
    assert_eq!(
        action,
        Some(Action::Send(SendRequest {
            chat_id: conv().chat_id,
            text: "⚠️ qualcosa è andato storto".to_string(),
            reply_to: Some(conv().message_id),
        }))
    );
    assert_eq!(
        next,
        DispatchState::AwaitingErrorReply {
            conv: conv(),
            primary: "qualcosa è andato storto".to_string(),
        }
    );
}

#[test]
fn handler_success_ends_the_cycle_silently() {
    let state = DispatchState::AwaitingHandler { conv: conv() };
    let (next, action) = on_handler_result(state, HandlerResult::Success);
    assert_eq!(next, DispatchState::Done);
    assert_eq!(action, None);
}

#[test]
fn failed_error_reply_yields_one_compound_log_and_no_second_send() {
    let state = DispatchState::AwaitingErrorReply {
        conv: conv(),
        primary: "errore di dominio".to_string(),
    };
    let (next, action) = on_send_outcome(state, Err("connessione caduta".to_string()));
    assert_eq!(next, DispatchState::Done);
    assert_eq!(
        action,
        Some(Action::Log(LogRecord {
            chat_id: conv().chat_id,
            message_id: conv().message_id,
            primary: Some("errore di dominio".to_string()),
            secondary: "connessione caduta".to_string(),
        }))
    );
}

#[test]
fn successful_error_reply_ends_the_cycle() {
    let state = DispatchState::AwaitingErrorReply { conv: conv(), primary: "e".to_string() };
    let (next, action) = on_send_outcome(state, Ok(()));
    assert_eq!(next, DispatchState::Done);
    assert_eq!(action, None);
}

#[test]
fn failed_notice_send_is_logged_without_a_primary_error() {
    let state = DispatchState::AwaitingNoticeOutcome { conv: conv() };
    let (next, action) = on_send_outcome(state, Err("timeout".to_string()));
    assert_eq!(next, DispatchState::Done);
    assert_eq!(
        action,
        Some(Action::Log(LogRecord {
            chat_id: conv().chat_id,
            message_id: conv().message_id,
            primary: None,
            secondary: "timeout".to_string(),
        }))
    );
}

#[test]
fn scenario_echo_end_to_end() {
    let (state, action) = begin_cycle(conv(), "/echo hello world", BOT);
    let command = match action {
        Action::Invoke(c) => c,
        other => panic!("expected a handler invocation, got {other:?}"),
    };
    assert_eq!(command, Command::Echo("hello world".to_string()));
    let text = match command {
        Command::Echo(t) => t,
        _ => unreachable!(),
    };
    let reply = echo_reply(&conv(), &text);
    assert_eq!(reply.text, "hello world");
    assert_eq!(reply.chat_id, conv().chat_id);
    let (done, after) = on_handler_result(state, HandlerResult::Success);
    assert_eq!(done, DispatchState::Done);
    assert_eq!(after, None);
}

#[test]
fn scenario_help_lists_all_commands() {
    let (_state, action) = begin_cycle(conv(), "/help", BOT);
    let command = match action {
        Action::Invoke(c) => c,
        other => panic!("expected a handler invocation, got {other:?}"),
    };
    assert_eq!(command, Command::Help("".to_string()));
    let reply = help_reply(&conv(), "").expect("listing all commands cannot fail");
    assert_eq!(reply.text, help_all_text());
    for name in ["/start", "/help", "/fortune", "/echo", "/whoami", "/answer", "/reminder"] {
        assert!(reply.text.contains(name), "help listing misses {name}");
    }
}

#[test]
fn scenario_help_for_unknown_command_is_a_domain_error() {
    let (state, action) = begin_cycle(conv(), "/help nonexistent", BOT);
    let command = match action {
        Action::Invoke(c) => c,
        other => panic!("expected a handler invocation, got {other:?}"),
    };
    assert_eq!(command, Command::Help("nonexistent".to_string()));
    let failure = help_reply(&conv(), "nonexistent").expect_err("unknown target must fail");
    assert_eq!(failure, "comando non trovato");
    let (_next, reply) = on_handler_result(state, HandlerResult::DomainError(failure));
    assert_eq!(
        reply,
        Some(Action::Send(SendRequest {
            chat_id: conv().chat_id,
            text: "⚠️ comando non trovato".to_string(),
            reply_to: Some(conv().message_id),
        }))
    );
}

#[test]
fn scenario_unrecognized_draws_the_fixed_notice() {
    let (state, action) = begin_cycle(conv(), "/bogus", BOT);
    assert_eq!(
        action,
        Action::Send(SendRequest {
            chat_id: conv().chat_id,
            text: UNKNOWN_COMMAND_NOTICE.to_string(),
            reply_to: Some(conv().message_id),
        })
    );
    assert_eq!(state, DispatchState::AwaitingNoticeOutcome { conv: conv() });
    let (done, after) = on_send_outcome(state, Ok(()));
    assert_eq!(done, DispatchState::Done);
    assert_eq!(after, None);
}

#[test]
fn scenario_double_failure_ends_in_one_compound_record() {
    let (state, action) = begin_cycle(conv(), "/help nonexistent", BOT);
    assert!(matches!(action, Action::Invoke(_)));
    let failure = help_reply(&conv(), "nonexistent").expect_err("unknown target must fail");
    let (state, reply) = on_handler_result(state, HandlerResult::DomainError(failure));
    assert!(matches!(reply, Some(Action::Send(_))));
    let (done, fallback) = on_send_outcome(state, Err("rete irraggiungibile".to_string()));
    assert_eq!(done, DispatchState::Done);
    assert_eq!(
        fallback,
        Some(Action::Log(LogRecord {
            chat_id: conv().chat_id,
            message_id: conv().message_id,
            primary: Some("comando non trovato".to_string()),
            secondary: "rete irraggiungibile".to_string(),
        }))
    );
}

#[test]
fn malformed_argument_is_reported_like_a_handler_error() {
    let (state, action) = begin_cycle(conv(), "/reminder soon tea", BOT);
    match action {
        Action::Send(req) => {
            assert_eq!(req.text, "⚠️ Il tempo di attesa deve essere un numero intero di secondi.");
            assert_eq!(req.chat_id, conv().chat_id);
            assert_eq!(req.reply_to, Some(conv().message_id));
        },
        other => panic!("expected an error reply, got {other:?}"),
    }
    assert!(matches!(state, DispatchState::AwaitingErrorReply { .. }));
}

#[test]
fn argument_error_for_a_no_argument_command_names_the_command() {
    let (_state, action) = begin_cycle(conv(), "/start now", BOT);
    match action {
        Action::Send(req) => {
            assert_eq!(req.text, "⚠️ Troppi argomenti per il comando /start.");
        },
        other => panic!("expected an error reply, got {other:?}"),
    }
}

#[test]
fn help_listing_lines_pair_each_name_with_its_description() {
    let listing = help_all_text();
    let lines: Vec<&str> = listing.split('\n').collect();
    assert_eq!(lines.len(), 7);
    assert_eq!(lines[0], "/start — Invia messaggio di introduzione.");
    assert_eq!(lines[3], "/echo — Ripeti il testo inviato.");
}
