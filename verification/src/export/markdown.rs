//! Conversations as Markdown.

use vstd::prelude::*;
use vstd::string::*;
use crate::chat::chat::Message;
use crate::text::{chars_of, text_eq};

verus! {

/// How a user message is written.
#[derive(Debug, Clone, Copy, PartialEq, Eq, Structural)]
pub enum UserMessageMode {
    /// As a second-level heading.
    Title,
    /// As a block quote.
    Quote,
}

/// What a number that names no mode is answered with.
pub const INVALID_VALUE: &'static str = "Invalid value";

/// The role of the messages that the user wrote.
pub const USER_ROLE: &'static str = "user";

/// The position of the line break at or after `from`, or the length of
/// the text where there is none.
pub open spec fn next_break(s: Seq<char>, from: int) -> int
    decreases s.len() - from,
{
    if from >= s.len() {
        s.len() as int
    } else if s[from] == '\n' {
        from
    } else {
        next_break(s, from + 1)
    }
}

/// Where the line that starts at `start` and breaks at `brk` ends: before
/// the break, and before a carriage return that stands right before it.
pub open spec fn line_end(s: Seq<char>, start: int, brk: int) -> int {
    if brk < s.len() && brk > start && s[brk - 1] == '\r' {
        brk - 1
    } else {
        brk
    }
}

/// One line as a line of a block quote.
pub open spec fn quote_line(line: Seq<char>) -> Seq<char> {
    if line.len() == 0 {
        seq!['>', '\n']
    } else {
        seq!['>', ' '] + line + seq!['\n']
    }
}

/// The lines of `s` from `start` on, each as a line of a block quote. A
/// line ends at a line feed, or at a carriage return followed by one; the
/// last line needs no ending.
pub open spec fn quote_from(s: Seq<char>, start: int) -> Seq<char>
    decreases s.len() - start,
    via quote_from_decreases
{
    if start < 0 || start >= s.len() {
        Seq::empty()
    } else {
        let brk = next_break(s, start);
        let line = quote_line(s.subrange(start, line_end(s, start, brk)));
        if brk < s.len() {
            line + quote_from(s, brk + 1)
        } else {
            line
        }
    }
}

#[via_fn]
proof fn quote_from_decreases(s: Seq<char>, start: int) {
    if 0 <= start < s.len() {
        lemma_next_break(s, start);
    }
}

/// A user message in the given mode.
pub open spec fn spec_format_user_message(text: Seq<char>, mode: UserMessageMode) -> Seq<char> {
    match mode {
        UserMessageMode::Title => seq!['#', '#', ' '] + text + seq!['\n'],
        UserMessageMode::Quote => quote_from(text, 0),
    }
}

/// The break found is at or after `from`, is a line feed where it lies
/// within the text, and no line feed comes before it.
pub proof fn lemma_next_break(s: Seq<char>, from: int)
    requires
        0 <= from <= s.len(),
    ensures
        from <= next_break(s, from) <= s.len(),
        next_break(s, from) < s.len() ==> s[next_break(s, from)] == '\n',
        forall|k: int| from <= k < next_break(s, from) ==> s[k] != '\n',
    decreases s.len() - from,
{
    if from < s.len() && s[from] != '\n' {
        lemma_next_break(s, from + 1);
    }
}

impl UserMessageMode {
    /// The mode that a number names: 1 the heading, 2 the block quote.
    pub fn try_from(value: usize) -> (r: Result<UserMessageMode, &'static str>)
        ensures
            value == 1 ==> r == Ok::<UserMessageMode, &'static str>(UserMessageMode::Title),
            value == 2 ==> r == Ok::<UserMessageMode, &'static str>(UserMessageMode::Quote),
            value != 1 && value != 2 ==> (r matches Err(e) && e@ == INVALID_VALUE@),
    {
        if value == 1 {
            Ok(UserMessageMode::Title)
        } else if value == 2 {
            Ok(UserMessageMode::Quote)
        } else {
            Err(INVALID_VALUE)
        }
    }
}

fn quote(text: &str) -> (out: String)
    ensures
        out@ == quote_from(text@, 0),
{
    let chars = chars_of(text);
    let mut out = String::new();
    let mut start: usize = 0;
    proof {
        reveal_strlit(">\n");
        reveal_strlit("> ");
        reveal_strlit("\n");
        assert(">\n"@ =~= seq!['>', '\n']);
        assert("> "@ =~= seq!['>', ' ']);
        assert("\n"@ =~= seq!['\n']);
        assert(out@ + quote_from(chars@, 0) =~= quote_from(chars@, 0));
    }
    while start < chars.len()
        invariant
            chars@ == text@,
            start <= chars.len(),
            ">\n"@ == seq!['>', '\n'],
            "> "@ == seq!['>', ' '],
            "\n"@ == seq!['\n'],
            out@ + quote_from(chars@, start as int) == quote_from(chars@, 0),
        decreases chars.len() - start,
    {
        let mut brk: usize = start;
        while brk < chars.len() && chars[brk] != '\n'
            invariant
                start <= brk <= chars.len(),
                next_break(chars@, brk as int) == next_break(chars@, start as int),
            decreases chars.len() - brk,
        {
            brk = brk + 1;
        }
        proof {
            lemma_next_break(chars@, start as int);
            assert(brk as int == next_break(chars@, start as int));
        }
        let end: usize = if brk < chars.len() && brk > start && chars[brk - 1] == '\r' {
            brk - 1
        } else {
            brk
        };
        let ghost line = chars@.subrange(start as int, end as int);
        let ghost before = out@;
        if end == start {
            out.append(">\n");
            assert(out@ =~= before + quote_line(line));
        } else {
            out.append("> ");
            out.append(text.substring_char(start, end));
            out.append("\n");
            assert(out@ =~= before + quote_line(line));
        }
        if brk < chars.len() {
            proof {
                assert(quote_from(chars@, start as int) == quote_line(line) + quote_from(
                    chars@,
                    brk + 1,
                ));
                assert(before + quote_line(line) + quote_from(chars@, brk + 1) =~= before + (
                quote_line(line) + quote_from(chars@, brk + 1)));
            }
            start = brk + 1;
        } else {
            proof {
                assert(quote_from(chars@, start as int) == quote_line(line));
                assert(quote_from(chars@, brk as int) =~= Seq::empty());
                assert(out@ + Seq::<char>::empty() =~= out@);
            }
            start = brk;
        }
    }
    proof {
        assert(quote_from(chars@, start as int) =~= Seq::empty());
        assert(out@ + Seq::<char>::empty() =~= out@);
    }
    out
}

/// Writes a user message in the given mode: as a heading, the text after
/// `## ` and a line feed after it; as a block quote, each line of the text
/// after `> `, an empty line as `>` alone.
pub fn format_user_message(text: &str, mode: UserMessageMode) -> (out: String)
    ensures
        out@ == spec_format_user_message(text@, mode),
{
    match mode {
        UserMessageMode::Title => {
            let mut out = String::from_str("## ");
            proof {
                reveal_strlit("## ");
                reveal_strlit("\n");
                assert("## "@ =~= seq!['#', '#', ' ']);
                assert("\n"@ =~= seq!['\n']);
            }
            out.append(text);
            out.append("\n");
            out
        },
        UserMessageMode::Quote => quote(text),
    }
}

/// What a message adds to an exported file: the first entry of a file
/// (`offset` zero) opens with the topic as a first-level heading; a later
/// entry is the user's message in the given mode after an empty line, or
/// anyone else's message as it is.
pub open spec fn spec_markdown_entry(
    mode: UserMessageMode,
    topic_name: Seq<char>,
    role: Seq<char>,
    content: Seq<char>,
    offset: u32,
) -> Seq<char> {
    if offset == 0 {
        seq!['#', ' '] + topic_name + seq!['\n', '\n'] + spec_format_user_message(content, mode)
            + seq!['\n']
    } else if role == USER_ROLE@ {
        seq!['\n'] + spec_format_user_message(content, mode) + seq!['\n']
    } else {
        content + seq!['\n']
    }
}

/// The text that exporting `message` appends to a file. A number that
/// names no mode is refused.
pub fn markdown_entry(mode: usize, topic_name: &str, message: &Message, offset: u32) -> (r: Result<
    String,
    &'static str,
>)
    ensures
        mode == 1 ==> (r matches Ok(text) && text@ == spec_markdown_entry(
            UserMessageMode::Title,
            topic_name@,
            message.role@,
            message.content@,
            offset,
        )),
        mode == 2 ==> (r matches Ok(text) && text@ == spec_markdown_entry(
            UserMessageMode::Quote,
            topic_name@,
            message.role@,
            message.content@,
            offset,
        )),
        mode != 1 && mode != 2 ==> (r matches Err(e) && e@ == INVALID_VALUE@),
{
    let user_message_mode = UserMessageMode::try_from(mode)?;
    proof {
        reveal_strlit("# ");
        reveal_strlit("\n\n");
        reveal_strlit("\n");
        assert("# "@ =~= seq!['#', ' ']);
        assert("\n\n"@ =~= seq!['\n', '\n']);
        assert("\n"@ =~= seq!['\n']);
    }
    if offset == 0 {
        let mut out = String::from_str("# ");
        out.append(topic_name);
        out.append("\n\n");
        out.append(format_user_message(message.content.as_str(), user_message_mode).as_str());
        out.append("\n");
        Ok(out)
    } else if text_eq(message.role.as_str(), USER_ROLE) {
        let mut out = String::from_str("\n");
        out.append(format_user_message(message.content.as_str(), user_message_mode).as_str());
        out.append("\n");
        Ok(out)
    } else {
        let mut out = message.content.clone();
        out.append("\n");
        Ok(out)
    }
}

} // verus!
