use royalnet::Command;
use royalnet::ReminderArgs;
use royalnet::grammar::ANSWER_DESCRIPTION;
use royalnet::grammar::HELP_DESCRIPTION;
use royalnet::grammar::bot_commands;
use royalnet::grammar::describe;
use royalnet::parse::ArgumentError;
use royalnet::parse::ParseOutcome;
use royalnet::parse::parse_message;

const BOT: &str = "royalnetbot";

#[test]
fn plain_text_is_unrecognized() {
    let r = parse_message("hello there", BOT);
    assert_eq!(r, ParseOutcome::Unrecognized { text: "hello there".to_string() });
}

#[test]
fn empty_text_is_unrecognized() {
    let r = parse_message("", BOT);
    assert_eq!(r, ParseOutcome::Unrecognized { text: "".to_string() });
}

#[test]
fn unknown_command_is_unrecognized() {
    let r = parse_message("/bogus", BOT);
    assert_eq!(r, ParseOutcome::Unrecognized { text: "/bogus".to_string() });
}

#[test]
fn slash_alone_is_unrecognized() {
    let r = parse_message("/", BOT);
    assert_eq!(r, ParseOutcome::Unrecognized { text: "/".to_string() });
}

#[test]
fn echo_takes_exact_remainder() {
    let r = parse_message("/echo hello world", BOT);
    assert_eq!(r, ParseOutcome::Parsed(Command::Echo("hello world".to_string())));
}

#[test]
fn echo_without_remainder_takes_empty_string() {
    let r = parse_message("/echo", BOT);
    assert_eq!(r, ParseOutcome::Parsed(Command::Echo("".to_string())));
}

#[test]
fn echo_keeps_extra_spaces_verbatim() {
    let r = parse_message("/echo  padded  text ", BOT);
    assert_eq!(r, ParseOutcome::Parsed(Command::Echo(" padded  text ".to_string())));
}

#[test]
fn help_takes_exact_remainder() {
    let r = parse_message("/help echo", BOT);
    assert_eq!(r, ParseOutcome::Parsed(Command::Help("echo".to_string())));
}

#[test]
fn answer_takes_exact_remainder() {
    let r = parse_message("/answer is it so?", BOT);
    assert_eq!(r, ParseOutcome::Parsed(Command::Answer("is it so?".to_string())));
}

#[test]
fn parsing_is_idempotent() {
    let texts = ["/echo hi", "/help", "/bogus", "", "/reminder 5 x", "/start extra"];
    for t in texts {
        let first = parse_message(t, BOT);
        let second = parse_message(t, BOT);
        assert_eq!(first, second);
    }
}

#[test]
fn start_without_argument_parses() {
    let r = parse_message("/start", BOT);
    assert_eq!(r, ParseOutcome::Parsed(Command::Start));
}

#[test]
fn start_with_argument_is_a_distinct_parse_failure() {
    let r = parse_message("/start now", BOT);
    assert_eq!(
        r,
        ParseOutcome::BadArguments {
            command: "start".to_string(),
            reason: ArgumentError::TooManyArguments,
        }
    );
}

#[test]
fn fortune_and_whoami_parse_without_arguments() {
    assert_eq!(parse_message("/fortune", BOT), ParseOutcome::Parsed(Command::Fortune));
    assert_eq!(parse_message("/whoami", BOT), ParseOutcome::Parsed(Command::WhoAmI));
}

#[test]
fn mention_of_this_bot_is_stripped() {
    let r = parse_message("/echo@royalnetbot hi", BOT);
    assert_eq!(r, ParseOutcome::Parsed(Command::Echo("hi".to_string())));
}

#[test]
fn mention_of_another_bot_is_unrecognized() {
    let r = parse_message("/echo@otherbot hi", BOT);
    assert_eq!(r, ParseOutcome::Unrecognized { text: "/echo@otherbot hi".to_string() });
}

#[test]
fn reminder_parses_wait_and_text() {
    let r = parse_message("/reminder 90 check the oven", BOT);
    assert_eq!(
        r,
        ParseOutcome::Parsed(Command::Reminder(ReminderArgs {
            wait_seconds: 90,
            text: "check the oven".to_string(),
        }))
    );
}

#[test]
fn reminder_without_text_takes_empty_text() {
    let r = parse_message("/reminder 60", BOT);
    assert_eq!(
        r,
        ParseOutcome::Parsed(Command::Reminder(ReminderArgs {
            wait_seconds: 60,
            text: "".to_string(),
        }))
    );
}

#[test]
fn reminder_without_wait_is_rejected() {
    let r = parse_message("/reminder", BOT);
    assert_eq!(
        r,
        ParseOutcome::BadArguments {
            command: "reminder".to_string(),
            reason: ArgumentError::MissingWait,
        }
    );
}

#[test]
fn reminder_with_non_numeric_wait_is_rejected() {
    let r = parse_message("/reminder soon tea", BOT);
    assert_eq!(
        r,
        ParseOutcome::BadArguments {
            command: "reminder".to_string(),
            reason: ArgumentError::InvalidWait,
        }
    );
}

#[test]
fn reminder_wait_at_the_largest_value_parses() {
    let r = parse_message("/reminder 18446744073709551615 x", BOT);
    assert_eq!(
        r,
        ParseOutcome::Parsed(Command::Reminder(ReminderArgs {
            wait_seconds: u64::MAX,
            text: "x".to_string(),
        }))
    );
}

#[test]
fn reminder_wait_beyond_the_largest_value_is_rejected() {
    let r = parse_message("/reminder 18446744073709551616 x", BOT);
    assert_eq!(
        r,
        ParseOutcome::BadArguments {
            command: "reminder".to_string(),
            reason: ArgumentError::WaitTooLarge,
        }
    );
}

#[test]
fn describe_finds_each_command() {
    assert_eq!(describe("help"), Some(HELP_DESCRIPTION.to_string()));
    assert_eq!(describe("answer"), Some(ANSWER_DESCRIPTION.to_string()));
}

#[test]
fn describe_fails_outside_the_grammar() {
    assert_eq!(describe("bogus"), None);
    assert_eq!(describe(""), None);
}

#[test]
fn command_list_advertises_the_whole_grammar() {
    let commands = bot_commands();
    let names: Vec<&str> = commands.iter().map(|c| c.name.as_str()).collect();
    assert_eq!(
        names,
        vec!["start", "help", "fortune", "echo", "whoami", "answer", "reminder"]
    );
    for c in &commands {
        assert!(!c.description.is_empty());
    }
}
