//! The command parser: classifies one inbound text message against the
//! grammar.
//!
//! A message is a command when it starts with `/`; the command token
//! runs to the first space and may carry an `@botname` suffix, which is
//! stripped when it names this bot and makes the message someone
//! else's otherwise.  A free-text argument is the remainder of the
//! message after the token's separating space, verbatim.  A structured
//! argument is handed to its own sub-parser, whose failure is kept
//! distinct from "not a command".

use vstd::prelude::*;

use crate::grammar::Command;
use crate::grammar::ReminderArgs;
use crate::grammar::SpecCommand;
use crate::grammar::str_eq;

verus! {

/// Why a recognized command's argument was rejected.
#[derive(Debug, Clone, Copy, PartialEq, Eq, Structural)]
pub enum ArgumentError {
    /// The command takes no argument but text followed the token.
    TooManyArguments,
    /// The reminder command's wait was missing.
    MissingWait,
    /// The reminder command's wait was not a whole number of seconds.
    InvalidWait,
    /// The reminder command's wait does not fit the supported range.
    WaitTooLarge,
}

/// Classification of one inbound message: a command, a recognized
/// command whose argument was malformed, or not a command at all.
#[derive(Debug, Clone, PartialEq, Eq)]
pub enum ParseOutcome {
    Parsed(Command),
    BadArguments { command: String, reason: ArgumentError },
    Unrecognized { text: String },
}

/// Mathematical model of a classification.
pub enum SpecParseOutcome {
    Parsed(SpecCommand),
    BadArguments { command: Seq<char>, reason: ArgumentError },
    Unrecognized { text: Seq<char> },
}

impl View for ParseOutcome {
    type V = SpecParseOutcome;

    open spec fn view(&self) -> SpecParseOutcome {
        match self {
            ParseOutcome::Parsed(c) => SpecParseOutcome::Parsed(c@),
            ParseOutcome::BadArguments { command, reason } => SpecParseOutcome::BadArguments {
                command: command@,
                reason: *reason,
            },
            ParseOutcome::Unrecognized { text } => SpecParseOutcome::Unrecognized { text: text@ },
        }
    }
}

/// Index of the first occurrence of `c` in `t` at or after `from`, or
/// `t.len()` when there is none.
pub open spec fn spec_find_from(t: Seq<char>, c: char, from: int) -> int
    decreases t.len() - from,
{
    if from >= t.len() {
        t.len() as int
    } else if t[from] == c {
        from
    } else {
        spec_find_from(t, c, from + 1)
    }
}

pub proof fn lemma_find_from(t: Seq<char>, c: char, from: int)
    requires
        0 <= from <= t.len(),
    ensures
        from <= spec_find_from(t, c, from) <= t.len(),
        forall|j: int| from <= j < spec_find_from(t, c, from) ==> t[j] != c,
        spec_find_from(t, c, from) < t.len() ==> t[spec_find_from(t, c, from)] == c,
    decreases t.len() - from,
{
    if from < t.len() && t[from] != c {
        lemma_find_from(t, c, from + 1);
    }
}

/// End of the command token: the first space, or the end of the text.
pub open spec fn spec_token_end(t: Seq<char>) -> int {
    spec_find_from(t, ' ', 1)
}

/// First `@` after the leading slash, or the end of the text.
pub open spec fn spec_at_pos(t: Seq<char>) -> int {
    spec_find_from(t, '@', 1)
}

/// End of the command name: the `@` of a mention when one sits inside
/// the token, the token's end otherwise.
pub open spec fn spec_name_end(t: Seq<char>) -> int {
    if spec_at_pos(t) < spec_token_end(t) {
        spec_at_pos(t)
    } else {
        spec_token_end(t)
    }
}

/// The command name: what stands between the slash and the name's end.
pub open spec fn spec_name(t: Seq<char>) -> Seq<char> {
    t.subrange(1, spec_name_end(t))
}

/// The mentioned bot name, when the token carries an `@` suffix.
pub open spec fn spec_mention(t: Seq<char>) -> Option<Seq<char>> {
    if spec_at_pos(t) < spec_token_end(t) {
        Some(t.subrange(spec_at_pos(t) + 1, spec_token_end(t)))
    } else {
        None
    }
}

/// The free-text remainder: everything after the token's separating
/// space, verbatim; empty when nothing follows the token.
pub open spec fn spec_remainder(t: Seq<char>) -> Seq<char> {
    if spec_token_end(t) == t.len() {
        Seq::<char>::empty()
    } else {
        t.subrange(spec_token_end(t) + 1, t.len() as int)
    }
}

pub open spec fn spec_is_digit(c: char) -> bool {
    48 <= c as int && c as int <= 57
}

pub open spec fn spec_digit_val(c: char) -> int {
    c as int - 48
}

pub open spec fn spec_all_digits(s: Seq<char>) -> bool {
    forall|i: int| 0 <= i < s.len() ==> spec_is_digit(#[trigger] s[i])
}

/// Value of a digit string read in base ten.
pub open spec fn spec_digits_val(s: Seq<char>) -> int
    decreases s.len(),
{
    if s.len() == 0 {
        0
    } else {
        spec_digits_val(s.drop_last()) * 10 + spec_digit_val(s.last())
    }
}

pub proof fn lemma_digits_val_nonneg(s: Seq<char>)
    requires
        spec_all_digits(s),
    ensures
        spec_digits_val(s) >= 0,
    decreases s.len(),
{
    if s.len() > 0 {
        assert forall|i: int| 0 <= i < s.drop_last().len() implies spec_is_digit(
            #[trigger] s.drop_last()[i],
        ) by {
            assert(s.drop_last()[i] == s[i]);
        }
        lemma_digits_val_nonneg(s.drop_last());
        assert(spec_is_digit(s.last()));
    }
}

/// The value of a digit string bounds the value of each of its
/// prefixes.
pub proof fn lemma_digits_val_prefix(s: Seq<char>, k: int)
    requires
        spec_all_digits(s),
        0 <= k <= s.len(),
    ensures
        spec_digits_val(s.subrange(0, k)) <= spec_digits_val(s),
    decreases s.len(),
{
    if k == s.len() {
        assert(s.subrange(0, k) =~= s);
    } else {
        let shorter = s.drop_last();
        assert forall|i: int| 0 <= i < shorter.len() implies spec_is_digit(
            #[trigger] shorter[i],
        ) by {
            assert(shorter[i] == s[i]);
        }
        assert(s.subrange(0, k) =~= shorter.subrange(0, k));
        lemma_digits_val_prefix(shorter, k);
        lemma_digits_val_nonneg(shorter);
        assert(spec_digits_val(shorter) * 10 >= spec_digits_val(shorter));
        assert(spec_is_digit(s.last()));
    }
}

/// Sub-parser for the reminder command's argument: a wait in whole
/// seconds, then the reminder text after a single separating space.
pub open spec fn spec_parse_reminder(rest: Seq<char>) -> SpecParseOutcome {
    let ws = spec_find_from(rest, ' ', 0);
    let numtok = rest.subrange(0, ws);
    let body = if ws == rest.len() {
        Seq::<char>::empty()
    } else {
        rest.subrange(ws + 1, rest.len() as int)
    };
    if numtok.len() == 0 {
        SpecParseOutcome::BadArguments { command: "reminder"@, reason: ArgumentError::MissingWait }
    } else if !spec_all_digits(numtok) {
        SpecParseOutcome::BadArguments { command: "reminder"@, reason: ArgumentError::InvalidWait }
    } else if spec_digits_val(numtok) > u64::MAX {
        SpecParseOutcome::BadArguments { command: "reminder"@, reason: ArgumentError::WaitTooLarge }
    } else {
        SpecParseOutcome::Parsed(
            SpecCommand::Reminder {
                wait_seconds: spec_digits_val(numtok) as u64,
                text: body,
            },
        )
    }
}

/// A command that takes no argument: parsed when the remainder is
/// empty, rejected otherwise.
pub open spec fn spec_no_arg(c: SpecCommand, name: Seq<char>, rest: Seq<char>) -> SpecParseOutcome {
    if rest.len() == 0 {
        SpecParseOutcome::Parsed(c)
    } else {
        SpecParseOutcome::BadArguments { command: name, reason: ArgumentError::TooManyArguments }
    }
}

/// Matches a command name against the grammar and builds the outcome
/// from the remainder; `raw` is the whole message, kept by the
/// unrecognized marker.
pub open spec fn spec_match_command(name: Seq<char>, rest: Seq<char>, raw: Seq<char>) -> SpecParseOutcome {
    if name == "start"@ {
        spec_no_arg(SpecCommand::Start, name, rest)
    } else if name == "help"@ {
        SpecParseOutcome::Parsed(SpecCommand::Help(rest))
    } else if name == "fortune"@ {
        spec_no_arg(SpecCommand::Fortune, name, rest)
    } else if name == "echo"@ {
        SpecParseOutcome::Parsed(SpecCommand::Echo(rest))
    } else if name == "whoami"@ {
        spec_no_arg(SpecCommand::WhoAmI, name, rest)
    } else if name == "answer"@ {
        SpecParseOutcome::Parsed(SpecCommand::Answer(rest))
    } else if name == "reminder"@ {
        spec_parse_reminder(rest)
    } else {
        SpecParseOutcome::Unrecognized { text: raw }
    }
}

/// Classification of the text `t` received by the bot named `bot`:
/// the whole parsing rule, from the leading slash to the argument
/// shapes.
pub open spec fn spec_parse(t: Seq<char>, bot: Seq<char>) -> SpecParseOutcome {
    if t.len() == 0 || t[0] != '/' {
        SpecParseOutcome::Unrecognized { text: t }
    } else {
        match spec_mention(t) {
            Some(m) => if m != bot {
                SpecParseOutcome::Unrecognized { text: t }
            } else {
                spec_match_command(spec_name(t), spec_remainder(t), t)
            },
            None => spec_match_command(spec_name(t), spec_remainder(t), t),
        }
    }
}

/// Law: text that does not start with the command marker is never a
/// command — whatever the grammar holds, the parser yields the
/// unrecognized marker carrying the text.
pub proof fn lemma_no_marker_unrecognized(t: Seq<char>, bot: Seq<char>)
    requires
        t.len() == 0 || t[0] != '/',
    ensures
        spec_parse(t, bot) == (SpecParseOutcome::Unrecognized { text: t }),
{
}

/// Law: text whose command token names no command of the grammar is
/// unrecognized, whether or not it carries a mention.
pub proof fn lemma_unknown_name_unrecognized(t: Seq<char>, bot: Seq<char>)
    requires
        t.len() > 0,
        t[0] == '/',
        spec_name(t) != "start"@,
        spec_name(t) != "help"@,
        spec_name(t) != "fortune"@,
        spec_name(t) != "echo"@,
        spec_name(t) != "whoami"@,
        spec_name(t) != "answer"@,
        spec_name(t) != "reminder"@,
    ensures
        spec_parse(t, bot) == (SpecParseOutcome::Unrecognized { text: t }),
{
}

/// A message made of a slash, a command name free of spaces and
/// mention markers, the separating space, and an arbitrary remainder
/// splits exactly there: the parser sees that name and that remainder,
/// verbatim.
pub proof fn lemma_token_split(name: Seq<char>, rest: Seq<char>, bot: Seq<char>)
    requires
        name.len() > 0,
        forall|i: int| 0 <= i < name.len() ==> name[i] != ' ' && name[i] != '@',
    ensures
        spec_parse(seq!['/'] + name + seq![' '] + rest, bot) == spec_match_command(
            name,
            rest,
            seq!['/'] + name + seq![' '] + rest,
        ),
{
    let t = seq!['/'] + name + seq![' '] + rest;
    let k = 1 + name.len() as int;
    assert(t.len() == 2 + name.len() + rest.len());
    assert(t[0] == '/');
    assert(t[k] == ' ');
    assert forall|j: int| 1 <= j < k implies t[j] != ' ' && t[j] != '@' by {
        assert(t[j] == name[j - 1]);
    }
    lemma_find_from(t, ' ', 1);
    let te = spec_token_end(t);
    if te < k {
        assert(t[te] == ' ');
        assert(false);
    }
    if te > k {
        assert(t[k] != ' ');
        assert(false);
    }
    lemma_find_from(t, '@', 1);
    let ap = spec_at_pos(t);
    if ap < k {
        assert(t[ap] == '@');
        assert(false);
    }
    if ap == k {
        assert(t[ap] == '@');
        assert(false);
    }
    assert(spec_name(t) =~= name);
    assert(spec_remainder(t) =~= rest);
}

/// Law: a free-text argument is the exact remainder of the message
/// after the command token, spaces and all; here for the echo command.
pub proof fn lemma_echo_remainder_verbatim(rest: Seq<char>, bot: Seq<char>)
    ensures
        spec_parse("/echo "@ + rest, bot) == SpecParseOutcome::Parsed(SpecCommand::Echo(rest)),
{
    reveal_strlit("/echo ");
    reveal_strlit("echo");
    reveal_strlit("start");
    reveal_strlit("help");
    reveal_strlit("fortune");
    let name = "echo"@;
    assert forall|i: int| 0 <= i < name.len() implies name[i] != ' ' && name[i] != '@' by {
        assert(name[0] == 'e' && name[1] == 'c' && name[2] == 'h' && name[3] == 'o');
    }
    lemma_token_split(name, rest, bot);
    assert("/echo "@ =~= seq!['/'] + name + seq![' ']);
    assert("/echo "@ + rest == seq!['/'] + name + seq![' '] + rest);
    assert(name != "start"@);
    assert(name != "help"@) by {
        assert(name[0] == 'e' && "help"@[0] == 'h');
    }
    assert(name != "fortune"@);
}

/// Law: a free-text argument is the exact remainder of the message
/// after the command token; here for the help command.
pub proof fn lemma_help_remainder_verbatim(rest: Seq<char>, bot: Seq<char>)
    ensures
        spec_parse("/help "@ + rest, bot) == SpecParseOutcome::Parsed(SpecCommand::Help(rest)),
{
    reveal_strlit("/help ");
    reveal_strlit("help");
    reveal_strlit("start");
    let name = "help"@;
    assert forall|i: int| 0 <= i < name.len() implies name[i] != ' ' && name[i] != '@' by {
        assert(name[0] == 'h' && name[1] == 'e' && name[2] == 'l' && name[3] == 'p');
    }
    lemma_token_split(name, rest, bot);
    assert("/help "@ =~= seq!['/'] + name + seq![' ']);
    assert("/help "@ + rest == seq!['/'] + name + seq![' '] + rest);
    assert(name != "start"@);
}

/// Law: a free-text argument is the exact remainder of the message
/// after the command token; here for the answer command.
pub proof fn lemma_answer_remainder_verbatim(rest: Seq<char>, bot: Seq<char>)
    ensures
        spec_parse("/answer "@ + rest, bot) == SpecParseOutcome::Parsed(SpecCommand::Answer(rest)),
{
    reveal_strlit("/answer ");
    reveal_strlit("answer");
    reveal_strlit("start");
    reveal_strlit("help");
    reveal_strlit("fortune");
    reveal_strlit("echo");
    reveal_strlit("whoami");
    let name = "answer"@;
    assert forall|i: int| 0 <= i < name.len() implies name[i] != ' ' && name[i] != '@' by {
        assert(name[0] == 'a' && name[1] == 'n' && name[2] == 's' && name[3] == 'w' && name[4]
            == 'e' && name[5] == 'r');
    }
    lemma_token_split(name, rest, bot);
    assert("/answer "@ =~= seq!['/'] + name + seq![' ']);
    assert("/answer "@ + rest == seq!['/'] + name + seq![' '] + rest);
    assert(name != "start"@);
    assert(name != "help"@);
    assert(name != "fortune"@);
    assert(name != "echo"@);
    assert(name != "whoami"@) by {
        assert(name[0] == 'a' && "whoami"@[0] == 'w');
    }
}

/// Index of the first occurrence of `c` in `s` at or after `from`, or
/// the character length of `s` when there is none.
fn find_char_from(s: &str, c: char, from: usize) -> (r: usize)
    requires
        from as int <= s@.len(),
    ensures
        r as int == spec_find_from(s@, c, from as int),
{
    let n = s.unicode_len();
    let mut i: usize = from;
    while i < n
        invariant
            from <= i <= n,
            n as int == s@.len(),
            spec_find_from(s@, c, from as int) == spec_find_from(s@, c, i as int),
        decreases n - i,
    {
        let ch = s.get_char(i);
        if ch == c {
            proof {
                assert(spec_find_from(s@, c, i as int) == i as int);
            }
            return i;
        }
        proof {
            assert(spec_find_from(s@, c, i as int) == spec_find_from(s@, c, i as int + 1));
        }
        i = i + 1;
    }
    proof {
        assert(spec_find_from(s@, c, i as int) == s@.len());
    }
    n
}

/// Parses a command that takes no argument.
fn no_arg(cmd: Command, name: &str, rest: &str) -> (r: ParseOutcome)
    ensures
        r@ == spec_no_arg(cmd@, name@, rest@),
{
    if rest.unicode_len() == 0 {
        ParseOutcome::Parsed(cmd)
    } else {
        ParseOutcome::BadArguments { command: name.to_owned(), reason: ArgumentError::TooManyArguments }
    }
}

/// Parses the reminder command's argument.
fn parse_reminder(rest: &str) -> (r: ParseOutcome)
    ensures
        r@ == spec_parse_reminder(rest@),
{
    let n = rest.unicode_len();
    let ws = find_char_from(rest, ' ', 0);
    proof {
        lemma_find_from(rest@, ' ', 0);
    }
    let ghost numtok = rest@.subrange(0, ws as int);
    if ws == 0 {
        return ParseOutcome::BadArguments {
            command: "reminder".to_owned(),
            reason: ArgumentError::MissingWait,
        };
    }
    let mut i: usize = 0;
    while i < ws
        invariant
            0 < ws <= n,
            i <= ws,
            n as int == rest@.len(),
            ws as int == spec_find_from(rest@, ' ', 0),
            numtok == rest@.subrange(0, ws as int),
            forall|j: int| 0 <= j < i ==> spec_is_digit(#[trigger] numtok[j]),
        decreases ws - i,
    {
        let c = rest.get_char(i);
        let v = c as u32;
        if v < 48 || v > 57 {
            proof {
                assert(numtok[i as int] == rest@[i as int]);
                assert(!spec_is_digit(numtok[i as int]));
            }
            return ParseOutcome::BadArguments {
                command: "reminder".to_owned(),
                reason: ArgumentError::InvalidWait,
            };
        }
        i = i + 1;
    }
    proof {
        assert(spec_all_digits(numtok));
    }
    let mut acc: u64 = 0;
    let mut k: usize = 0;
    while k < ws
        invariant
            0 < ws <= n,
            k <= ws,
            n as int == rest@.len(),
            ws as int == spec_find_from(rest@, ' ', 0),
            numtok == rest@.subrange(0, ws as int),
            spec_all_digits(numtok),
            acc as int == spec_digits_val(numtok.subrange(0, k as int)),
        decreases ws - k,
    {
        let c = rest.get_char(k);
        let v = c as u32;
        proof {
            assert(numtok[k as int] == rest@[k as int]);
            assert(spec_is_digit(numtok[k as int]));
        }
        let d = (v - 48) as u64;
        let ghost prefix = numtok.subrange(0, k as int);
        let ghost extended = numtok.subrange(0, k as int + 1);
        proof {
            assert(extended.drop_last() =~= prefix);
            assert(extended.last() == numtok[k as int]);
            assert(spec_digits_val(extended) == spec_digits_val(prefix) * 10 + spec_digit_val(
                extended.last(),
            ));
            assert(spec_digit_val(extended.last()) == d as int);
        }
        let next = match acc.checked_mul(10) {
            Some(p) => p.checked_add(d),
            None => None,
        };
        match next {
            None => {
                proof {
                    assert(spec_digits_val(extended) > u64::MAX);
                    lemma_digits_val_prefix(numtok, k as int + 1);
                    assert(numtok.subrange(0, k as int + 1) == extended);
                    assert(spec_digits_val(numtok) > u64::MAX);
                }
                return ParseOutcome::BadArguments {
                    command: "reminder".to_owned(),
                    reason: ArgumentError::WaitTooLarge,
                };
            },
            Some(p) => {
                acc = p;
            },
        }
        k = k + 1;
    }
    proof {
        assert(numtok.subrange(0, ws as int) =~= numtok);
        assert(acc as int == spec_digits_val(numtok));
    }
    let text: String = if ws == n {
        String::new()
    } else {
        rest.substring_char(ws + 1, n).to_owned()
    };
    ParseOutcome::Parsed(Command::Reminder(ReminderArgs { wait_seconds: acc, text }))
}

/// Classifies one inbound message.  The result is a function of the
/// message text and the bot's own name alone, pinned to `spec_parse`:
/// parsing is pure, and parsing the same text twice yields identical
/// outcomes.
pub fn parse_message(text: &str, bot_name: &str) -> (r: ParseOutcome)
    ensures
        r@ == spec_parse(text@, bot_name@),
{
    let n = text.unicode_len();
    if n == 0 {
        return ParseOutcome::Unrecognized { text: text.to_owned() };
    }
    if text.get_char(0) != '/' {
        return ParseOutcome::Unrecognized { text: text.to_owned() };
    }
    let te = find_char_from(text, ' ', 1);
    let ap = find_char_from(text, '@', 1);
    proof {
        lemma_find_from(text@, ' ', 1);
        lemma_find_from(text@, '@', 1);
    }
    if ap < te {
        let mention = text.substring_char(ap + 1, te);
        if !str_eq(mention, bot_name) {
            return ParseOutcome::Unrecognized { text: text.to_owned() };
        }
    }
    let name_end = if ap < te {
        ap
    } else {
        te
    };
    let name = text.substring_char(1, name_end);
    let rest: String = if te == n {
        String::new()
    } else {
        text.substring_char(te + 1, n).to_owned()
    };
    if str_eq(name, "start") {
        no_arg(Command::Start, "start", rest.as_str())
    } else if str_eq(name, "help") {
        ParseOutcome::Parsed(Command::Help(rest))
    } else if str_eq(name, "fortune") {
        no_arg(Command::Fortune, "fortune", rest.as_str())
    } else if str_eq(name, "echo") {
        ParseOutcome::Parsed(Command::Echo(rest))
    } else if str_eq(name, "whoami") {
        no_arg(Command::WhoAmI, "whoami", rest.as_str())
    } else if str_eq(name, "answer") {
        ParseOutcome::Parsed(Command::Answer(rest))
    } else if str_eq(name, "reminder") {
        parse_reminder(rest.as_str())
    } else {
        ParseOutcome::Unrecognized { text: text.to_owned() }
    }
}

} // verus!

