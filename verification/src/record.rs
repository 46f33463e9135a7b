//! Log records and the rule that composes their message.

use vstd::prelude::*;
use vstd::string::*;
use vstd::std_specs::cmp::PartialEqSpecImpl;
use crate::level::Level;

verus! {

/// What stands between a context label and the rendered value.
pub open spec fn separator() -> Seq<char> {
    seq![':', ' ']
}

/// The message for a value rendered as `text` under the label `ctx`: the text
/// alone where the label is empty, else the label, the separator and the text.
/// Nothing is trimmed or cut.
pub open spec fn message_text(ctx: Seq<char>, text: Seq<char>) -> Seq<char> {
    if ctx.len() == 0 {
        text
    } else {
        ctx + separator() + text
    }
}

/// The composed message holds the label, the separator and the rendering in
/// full and in that order, and nothing besides; with an empty label it is the
/// rendering itself.
pub proof fn lemma_message_text_shape(ctx: Seq<char>, text: Seq<char>)
    ensures
        ctx.len() == 0 ==> message_text(ctx, text) == text,
        ctx.len() > 0 ==> {
            let message = message_text(ctx, text);
            let label = ctx.len() as int;
            &&& message.len() == ctx.len() + 2 + text.len()
            &&& message.subrange(0, label) == ctx
            &&& message[label] == ':'
            &&& message[label + 1] == ' '
            &&& message.subrange(label + 2, message.len() as int) == text
        },
{
    if ctx.len() > 0 {
        let message = message_text(ctx, text);
        let label = ctx.len() as int;
        assert(message.subrange(0, label) =~= ctx);
        assert(message.subrange(label + 2, message.len() as int) =~= text);
    }
}

/// One log record: a message and the severity channel it goes to.
#[derive(Debug)]
pub struct Record {
    /// The channel that receives the message.
    pub level: Level,
    /// The message body.
    pub message: String,
}

/// A record as a mathematical value.
pub struct RecordView {
    /// The channel that receives the message.
    pub level: Level,
    /// The characters of the message body.
    pub message: Seq<char>,
}

impl View for Record {
    type V = RecordView;

    open spec fn view(&self) -> RecordView {
        RecordView { level: self.level, message: self.message@ }
    }
}

impl Record {
    /// Builds the record for a value that renders as `text`, labelled `ctx`,
    /// at severity `level`.
    pub fn compose(level: Level, ctx: &str, text: &str) -> (record: Record)
        ensures
            record@.level == level,
            record@.message == message_text(ctx@, text@),
    {
        if ctx.is_empty() {
            Record { level, message: String::from_str(text) }
        } else {
            let mut message = String::from_str(ctx);
            message.append(": ");
            message.append(text);
            proof {
                reveal_strlit(": ");
                assert(": "@ =~= separator());
            }
            Record { level, message }
        }
    }
}

impl Clone for Record {
    fn clone(&self) -> (copy: Record)
        ensures
            copy@ == self@,
    {
        Record { level: self.level, message: self.message.clone() }
    }
}

impl PartialEq for Record {
    fn eq(&self, other: &Record) -> (equal: bool) {
        self.level == other.level && self.message == other.message
    }
}

impl Eq for Record {
}

impl PartialEqSpecImpl for Record {
    open spec fn obeys_eq_spec() -> bool {
        true
    }

    open spec fn eq_spec(&self, other: &Record) -> bool {
        self@ == other@
    }
}

} // verus!
