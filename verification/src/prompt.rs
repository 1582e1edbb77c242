//! Asking a yes/no question before doing something irreversible.
//!
//! Pure in its two streams: the answer arrives as a value and the question is written into a
//! transcript, so every row of the answer table is decided here and the terminal is the
//! caller's.
use vstd::prelude::*;
use crate::text::{is_space, texts, trim, trim_spec};

verus! {

/// What a destructive verb asks before it acts.
pub struct Question {
    /// The one-line question, without the `[y/N]` suffix.
    pub headline: String,
    /// What is about to be removed, one line each.
    pub scope: Vec<String>,
    /// What the verb will not touch, one line each.
    pub spared: Vec<String>,
}

/// Where the question is written: a stream that has gone away refuses every write.
pub struct Transcript {
    pub text: String,
    pub writable: bool,
}

/// What the answer stream held: a line, the end of the stream, or a read that failed.
pub enum Answer {
    Line(String),
    Closed,
    Unreadable,
}

/// Why a question could not be put or answered.
#[derive(Clone, Copy, Debug, PartialEq, Eq, Structural)]
pub enum PromptError {
    /// The question could not be written.
    Write,
    /// The answer could not be read.
    Read,
}

/// The lines of scope, each indented.
pub open spec fn scope_text(lines: Seq<Seq<char>>) -> Seq<char>
    decreases lines.len(),
{
    if lines.len() == 0 {
        Seq::empty()
    } else {
        scope_text(lines.drop_last()) + "  "@ + lines.last() + "\n"@
    }
}

/// The lines of what survives, each marked.
pub open spec fn spared_text(lines: Seq<Seq<char>>) -> Seq<char>
    decreases lines.len(),
{
    if lines.len() == 0 {
        Seq::empty()
    } else {
        spared_text(lines.drop_last()) + "  "@ + "kept:"@ + " "@ + lines.last() + "\n"@
    }
}

/// The whole question as written: its scope, what it spares, and the headline with the
/// capitalised default.
pub open spec fn question_text(q: Question) -> Seq<char> {
    scope_text(texts(q.scope@)) + spared_text(texts(q.spared@)) + q.headline@ + " "@ + "[y/N]"@ + " "@
}

/// `char::to_ascii_lowercase`.
pub open spec fn lower(c: char) -> char {
    if 'A' <= c <= 'Z' {
        ((c as u32) + 32) as char
    } else {
        c
    }
}

/// An answer that approves: `y` or `yes` in any case, surrounding whitespace ignored. A prefix
/// is not enough.
pub open spec fn approves(answer: Seq<char>) -> bool {
    let t = trim_spec(answer);
    ||| t.len() == 1 && lower(t[0]) == 'y'
    ||| t.len() == 3 && lower(t[0]) == 'y' && lower(t[1]) == 'e' && lower(t[2]) == 's'
}

fn lower_char(c: char) -> (l: char)
    ensures
        l == lower(c),
{
    if 'A' <= c && c <= 'Z' {
        let b = (c as u32) as u8;
        (b + 32) as char
    } else {
        c
    }
}

/// Whether an answer approves.
pub fn is_affirmative(answer: &str) -> (yes: bool)
    ensures
        yes == approves(answer@),
{
    let t = trim(answer);
    let n = t.unicode_len();
    if n == 1 {
        lower_char(t.get_char(0)) == 'y'
    } else if n == 3 {
        lower_char(t.get_char(0)) == 'y' && lower_char(t.get_char(1)) == 'e' && lower_char(t.get_char(2)) == 's'
    } else {
        false
    }
}

fn write(out: &mut Transcript, text: &str) -> (r: Result<(), PromptError>)
    ensures
        final(out).writable == old(out).writable,
        old(out).writable ==> r is Ok && final(out).text@ == old(out).text@ + text@,
        !old(out).writable ==> r == Err::<(), PromptError>(PromptError::Write) && final(out).text@ == old(out).text@,
{
    if !out.writable {
        return Err(PromptError::Write);
    }
    out.text.append(text);
    Ok(())
}

/// Asks `question` on `output` and reads the answer: a question that cannot be shown is never an
/// approval, a closed stream is nobody there to say yes, and only an explicit yes is a yes.
pub fn confirm(question: &Question, input: &Answer, output: &mut Transcript) -> (r: Result<bool, PromptError>)
    ensures
        final(output).writable == old(output).writable,
        !old(output).writable ==> r == Err::<bool, PromptError>(PromptError::Write),
        old(output).writable ==> match input {
            Answer::Unreadable => r == Err::<bool, PromptError>(PromptError::Read) && final(output).text@ == old(output).text@ + question_text(*question),
            Answer::Closed => r == Ok::<bool, PromptError>(false) && final(output).text@ == old(output).text@ + question_text(*question) + "\n"@,
            Answer::Line(line) => r == Ok::<bool, PromptError>(approves(line@)) && final(output).text@ == old(output).text@ + question_text(*question),
        },
{
    if !output.writable {
        return Err(PromptError::Write);
    }
    let ghost start = output.text@;
    let mut i: usize = 0;
    while i < question.scope.len()
        invariant
            i <= question.scope.len(),
            output.writable,
            output.text@ == start + scope_text(texts(question.scope@.subrange(0, i as int))),
        decreases question.scope.len() - i,
    {
        assert(texts(question.scope@.subrange(0, i + 1)).drop_last() =~= texts(question.scope@.subrange(0, i as int)));
        let _ = write(output, "  ");
        let _ = write(output, question.scope[i].as_str());
        let _ = write(output, "\n");
        i = i + 1;
    }
    assert(question.scope@.subrange(0, question.scope@.len() as int) =~= question.scope@);
    let ghost middle = output.text@;
    let mut j: usize = 0;
    while j < question.spared.len()
        invariant
            j <= question.spared.len(),
            output.writable,
            output.text@ == middle + spared_text(texts(question.spared@.subrange(0, j as int))),
        decreases question.spared.len() - j,
    {
        assert(texts(question.spared@.subrange(0, j + 1)).drop_last() =~= texts(question.spared@.subrange(0, j as int)));
        let _ = write(output, "  ");
        let _ = write(output, "kept:");
        let _ = write(output, " ");
        let _ = write(output, question.spared[j].as_str());
        let _ = write(output, "\n");
        j = j + 1;
    }
    assert(question.spared@.subrange(0, question.spared@.len() as int) =~= question.spared@);
    let _ = write(output, question.headline.as_str());
    let _ = write(output, " ");
    let _ = write(output, "[y/N]");
    let _ = write(output, " ");
    match input {
        Answer::Unreadable => Err(PromptError::Read),
        Answer::Closed => {
            let _ = write(output, "\n");
            Ok(false)
        },
        Answer::Line(line) => Ok(is_affirmative(line.as_str())),
    }
}

} // verus!
