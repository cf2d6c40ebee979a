//! The command grammar: the closed set of recognized commands, their
//! argument shapes, and their human-readable descriptions.
//!
//! The grammar is the leaf of the pipeline: the parser classifies text
//! against it, and the help command and the platform metadata
//! registration both enumerate it.

use vstd::prelude::*;

verus! {

/// Structured argument of the reminder command: a wait in whole
/// seconds followed by the text to send back once the wait elapses.
#[derive(Debug, Clone, PartialEq, Eq)]
pub struct ReminderArgs {
    pub wait_seconds: u64,
    pub text: String,
}

/// The closed set of recognized commands.  Exactly one variant is
/// selected per successfully parsed message; free-text arguments carry
/// the remainder of the message verbatim.
#[derive(Debug, Clone, PartialEq, Eq)]
pub enum Command {
    /// Sends the introduction message.
    Start,
    /// Without an argument lists every command; with one, describes it.
    Help(String),
    /// Sends today's horoscope.
    Fortune,
    /// Repeats the text that was sent.
    Echo(String),
    /// Tells which account the sender's chat account is linked to.
    WhoAmI,
    /// Answers a question.
    Answer(String),
    /// Reminds the chat of something that will happen in the future.
    Reminder(ReminderArgs),
}

/// Mathematical model of a command: payloads as character sequences.
pub enum SpecCommand {
    Start,
    Help(Seq<char>),
    Fortune,
    Echo(Seq<char>),
    WhoAmI,
    Answer(Seq<char>),
    Reminder { wait_seconds: u64, text: Seq<char> },
}

impl View for Command {
    type V = SpecCommand;

    open spec fn view(&self) -> SpecCommand {
        match self {
            Command::Start => SpecCommand::Start,
            Command::Help(target) => SpecCommand::Help(target@),
            Command::Fortune => SpecCommand::Fortune,
            Command::Echo(text) => SpecCommand::Echo(text@),
            Command::WhoAmI => SpecCommand::WhoAmI,
            Command::Answer(question) => SpecCommand::Answer(question@),
            Command::Reminder(args) => SpecCommand::Reminder {
                wait_seconds: args.wait_seconds,
                text: args.text@,
            },
        }
    }
}

pub const START_DESCRIPTION: &'static str = "Invia messaggio di introduzione.";

pub const HELP_DESCRIPTION: &'static str = "Visualizza l'elenco dei comandi disponibili, o mostra informazioni su uno specifico comando.";

pub const FORTUNE_DESCRIPTION: &'static str = "Mostra il tuo oroscopo di oggi.";

pub const ECHO_DESCRIPTION: &'static str = "Ripeti il testo inviato.";

pub const WHOAMI_DESCRIPTION: &'static str = "Controlla a che account RYG è associato il tuo account Telegram.";

pub const ANSWER_DESCRIPTION: &'static str = "Rispondi ad una domanda.";

pub const REMINDER_DESCRIPTION: &'static str = "Ricorda la chat di qualcosa che avverrà in futuro.";

/// One grammar entry as advertised to the platform and to help output.
#[derive(Debug, Clone, PartialEq, Eq)]
pub struct CommandInfo {
    pub name: String,
    pub description: String,
}

/// Mathematical model of a grammar entry.
pub struct SpecCommandInfo {
    pub name: Seq<char>,
    pub description: Seq<char>,
}

impl View for CommandInfo {
    type V = SpecCommandInfo;

    open spec fn view(&self) -> SpecCommandInfo {
        SpecCommandInfo { name: self.name@, description: self.description@ }
    }
}

/// The grammar, in the order commands are advertised and listed.
pub open spec fn spec_command_list() -> Seq<SpecCommandInfo> {
    seq![
        SpecCommandInfo { name: "start"@, description: START_DESCRIPTION@ },
        SpecCommandInfo { name: "help"@, description: HELP_DESCRIPTION@ },
        SpecCommandInfo { name: "fortune"@, description: FORTUNE_DESCRIPTION@ },
        SpecCommandInfo { name: "echo"@, description: ECHO_DESCRIPTION@ },
        SpecCommandInfo { name: "whoami"@, description: WHOAMI_DESCRIPTION@ },
        SpecCommandInfo { name: "answer"@, description: ANSWER_DESCRIPTION@ },
        SpecCommandInfo { name: "reminder"@, description: REMINDER_DESCRIPTION@ },
    ]
}

/// Description of the command called `name`, or `None` when `name` is
/// outside the grammar.
pub open spec fn spec_describe(name: Seq<char>) -> Option<Seq<char>> {
    if name == "start"@ {
        Some(START_DESCRIPTION@)
    } else if name == "help"@ {
        Some(HELP_DESCRIPTION@)
    } else if name == "fortune"@ {
        Some(FORTUNE_DESCRIPTION@)
    } else if name == "echo"@ {
        Some(ECHO_DESCRIPTION@)
    } else if name == "whoami"@ {
        Some(WHOAMI_DESCRIPTION@)
    } else if name == "answer"@ {
        Some(ANSWER_DESCRIPTION@)
    } else if name == "reminder"@ {
        Some(REMINDER_DESCRIPTION@)
    } else {
        None
    }
}

/// Character-wise string equality, stated over the views.
pub(crate) fn str_eq(a: &str, b: &str) -> (r: bool)
    ensures
        r == (a@ == b@),
{
    let sa = String::from_str(a);
    let sb = String::from_str(b);
    sa.eq(&sb)
}

/// Looks a single command's description up by name; yields `None`
/// exactly when the name is outside the grammar.
pub fn describe(name: &str) -> (r: Option<String>)
    ensures
        (match r {
            Some(d) => spec_describe(name@) == Some(d@),
            None => spec_describe(name@) is None,
        }),
{
    if str_eq(name, "start") {
        Some(START_DESCRIPTION.to_owned())
    } else if str_eq(name, "help") {
        Some(HELP_DESCRIPTION.to_owned())
    } else if str_eq(name, "fortune") {
        Some(FORTUNE_DESCRIPTION.to_owned())
    } else if str_eq(name, "echo") {
        Some(ECHO_DESCRIPTION.to_owned())
    } else if str_eq(name, "whoami") {
        Some(WHOAMI_DESCRIPTION.to_owned())
    } else if str_eq(name, "answer") {
        Some(ANSWER_DESCRIPTION.to_owned())
    } else if str_eq(name, "reminder") {
        Some(REMINDER_DESCRIPTION.to_owned())
    } else {
        None
    }
}

/// The full command list with descriptions, for metadata registration
/// and for the help command's "list all" branch.
pub fn bot_commands() -> (r: Vec<CommandInfo>)
    ensures
        r@.len() == spec_command_list().len(),
        forall|i: int| 0 <= i < r@.len() ==> (#[trigger] r@[i])@ == spec_command_list()[i],
{
    let mut commands: Vec<CommandInfo> = Vec::new();
    commands.push(CommandInfo { name: "start".to_owned(), description: START_DESCRIPTION.to_owned() });
    commands.push(CommandInfo { name: "help".to_owned(), description: HELP_DESCRIPTION.to_owned() });
    commands.push(CommandInfo { name: "fortune".to_owned(), description: FORTUNE_DESCRIPTION.to_owned() });
    commands.push(CommandInfo { name: "echo".to_owned(), description: ECHO_DESCRIPTION.to_owned() });
    commands.push(CommandInfo { name: "whoami".to_owned(), description: WHOAMI_DESCRIPTION.to_owned() });
    commands.push(CommandInfo { name: "answer".to_owned(), description: ANSWER_DESCRIPTION.to_owned() });
    commands.push(CommandInfo { name: "reminder".to_owned(), description: REMINDER_DESCRIPTION.to_owned() });
    commands
}

} // verus!
