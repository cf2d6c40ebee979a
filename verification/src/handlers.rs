//! The pure handlers: the command logic that is a function of the
//! grammar and the argument alone.
//!
//! The echo command repeats its argument; the help command either
//! enumerates the whole grammar or describes one command.  Handlers
//! that need the outside world (storage lookups, horoscopes) live with
//! the transport; these two are part of the pipeline itself.

use vstd::prelude::*;

use crate::dispatch::ConversationRef;
use crate::dispatch::SendRequest;
use crate::grammar::SpecCommandInfo;
use crate::grammar::bot_commands;
use crate::grammar::describe;
use crate::grammar::spec_command_list;
use crate::grammar::spec_describe;

verus! {

/// One line of the help listing: the command's name with its
/// description.
pub open spec fn spec_help_line(entry: SpecCommandInfo) -> Seq<char> {
    "/"@ + entry.name + " — "@ + entry.description
}

/// The help listing for `entries`: one line per entry, separated by
/// newlines.
pub open spec fn spec_help_lines(entries: Seq<SpecCommandInfo>) -> Seq<char>
    decreases entries.len(),
{
    if entries.len() == 0 {
        Seq::<char>::empty()
    } else if entries.len() == 1 {
        spec_help_line(entries[0])
    } else {
        spec_help_line(entries[0]) + "\n"@ + spec_help_lines(entries.drop_first())
    }
}

/// The full help listing: every command of the grammar, in order.
pub open spec fn spec_help_all() -> Seq<char> {
    spec_help_lines(spec_command_list())
}

proof fn lemma_help_lines_push(entries: Seq<SpecCommandInfo>, entry: SpecCommandInfo)
    ensures
        spec_help_lines(entries.push(entry)) == if entries.len() == 0 {
            spec_help_line(entry)
        } else {
            spec_help_lines(entries) + "\n"@ + spec_help_line(entry)
        },
    decreases entries.len(),
{
    let grown = entries.push(entry);
    if entries.len() == 0 {
        assert(grown.len() == 1);
        assert(grown[0] == entry);
    } else {
        assert(grown[0] == entries[0]);
        assert(grown.drop_first() =~= entries.drop_first().push(entry));
        lemma_help_lines_push(entries.drop_first(), entry);
        if entries.len() == 1 {
            assert(spec_help_lines(grown) == spec_help_line(entries[0]) + "\n"@ + spec_help_line(
                entry,
            ));
        } else {
            assert(spec_help_lines(grown) =~= spec_help_lines(entries) + "\n"@ + spec_help_line(
                entry,
            ));
        }
    }
}

/// Builds the full help listing.
pub fn help_all_text() -> (r: String)
    ensures
        r@ == spec_help_all(),
{
    let entries = bot_commands();
    let mut out = String::new();
    let mut i: usize = 0;
    while i < entries.len()
        invariant
            i <= entries@.len(),
            entries@.len() == spec_command_list().len(),
            forall|j: int| 0 <= j < entries@.len() ==> (#[trigger] entries@[j])@
                == spec_command_list()[j],
            out@ == spec_help_lines(spec_command_list().take(i as int)),
        decreases entries@.len() - i,
    {
        if i > 0 {
            out.append("\n");
        }
        out.append("/");
        out.append(entries[i].name.as_str());
        out.append(" — ");
        out.append(entries[i].description.as_str());
        proof {
            let done = spec_command_list().take(i as int);
            lemma_help_lines_push(done, spec_command_list()[i as int]);
            assert(done.push(spec_command_list()[i as int]) =~= spec_command_list().take(
                i as int + 1,
            ));
            assert(out@ =~= spec_help_lines(spec_command_list().take(i as int + 1)));
        }
        i = i + 1;
    }
    proof {
        assert(spec_command_list().take(spec_command_list().len() as int) =~= spec_command_list());
    }
    out
}

/// The echo handler's reply: the argument, verbatim, threaded onto the
/// original message.
pub fn echo_reply(conv: &ConversationRef, text: &str) -> (r: SendRequest)
    ensures
        r.chat_id == conv.chat_id,
        r.text@ == text@,
        r.reply_to == Some(conv.message_id),
{
    SendRequest { chat_id: conv.chat_id, text: text.to_owned(), reply_to: Some(conv.message_id) }
}

/// The help handler: with an empty target it lists every command; with
/// a target inside the grammar it replies with that command's
/// description; any other target is a domain error.
pub fn help_reply(conv: &ConversationRef, target: &str) -> (r: Result<SendRequest, String>)
    ensures
        target@.len() == 0 ==> (match r {
            Ok(req) => req.chat_id == conv.chat_id && req.text@ == spec_help_all() && req.reply_to
                == Some(conv.message_id),
            Err(_) => false,
        }),
        target@.len() > 0 ==> (match spec_describe(target@) {
            Some(d) => (match r {
                Ok(req) => req.chat_id == conv.chat_id && req.text@ == d && req.reply_to == Some(
                    conv.message_id,
                ),
                Err(_) => false,
            }),
            None => (match r {
                Err(m) => m@ == "comando non trovato"@,
                Ok(_) => false,
            }),
        }),
{
    if target.unicode_len() == 0 {
        Ok(
            SendRequest {
                chat_id: conv.chat_id,
                text: help_all_text(),
                reply_to: Some(conv.message_id),
            },
        )
    } else {
        match describe(target) {
            Some(d) => Ok(
                SendRequest { chat_id: conv.chat_id, text: d, reply_to: Some(conv.message_id) },
            ),
            None => Err(String::from_str("comando non trovato")),
        }
    }
}

} // verus!
