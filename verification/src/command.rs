use vstd::prelude::*;
use crate::text::{chars_of, string_of, trim_chars, trimmed};

verus! {

/// What running an outside program came to.
pub enum CommandOutcome {
    /// The program could not be started; the text of the error.
    NotStarted(String),
    /// The program ran to its end.
    Exited {
        /// Whether the exit status reports success.
        success: bool,
        /// The exit status as text, such as `exit status: 1`.
        status: String,
        /// What the program wrote to standard output, decoded leniently as UTF-8.
        stdout: String,
        /// What the program wrote to standard error, decoded leniently as UTF-8.
        stderr: String,
    },
}

/// Every line break replaced by a space.
pub open spec fn newlines_to_spaces(s: Seq<char>) -> Seq<char> {
    s.map_values(|c: char| if c == '\n' { ' ' } else { c })
}

/// The text that stands for a program's error output: the trimmed standard error with
/// line breaks turned into spaces, or the exit status where standard error is blank.
pub open spec fn stderr_text(stderr: Seq<char>, status: Seq<char>) -> Seq<char> {
    if trimmed(stderr).len() == 0 {
        status
    } else {
        newlines_to_spaces(trimmed(stderr))
    }
}

/// Summarises a finished program's error output for a message: the trimmed standard
/// error on one line, or the exit status where standard error is blank.
pub fn command_stderr(stderr: &str, status: &str) -> (r: String)
    ensures
        r@ == stderr_text(stderr@, status@),
{
    let all = chars_of(stderr);
    let t = trim_chars(&all);
    if t.len() == 0 {
        return string_of(&chars_of(status));
    }
    let mut v: Vec<char> = Vec::new();
    let n = t.len();
    let mut i: usize = 0;
    while i < n
        invariant
            n == t.len(),
            i <= n,
            v@ == newlines_to_spaces(t@.take(i as int)),
        decreases n - i,
    {
        let c = t[i];
        v.push(if c == '\n' { ' ' } else { c });
        assert(v@ =~= newlines_to_spaces(t@.take(i as int + 1)));
        i = i + 1;
    }
    assert(t@.take(n as int) =~= t@);
    string_of(&v)
}

} // verus!

verus! {

/// Where standard error holds more than white space, the summary keeps it on one line:
/// it holds no line break.
pub proof fn lemma_stderr_text_one_line(stderr: Seq<char>, status: Seq<char>)
    requires
        trimmed(stderr).len() > 0,
    ensures
        !stderr_text(stderr, status).contains('\n'),
{
    let r = stderr_text(stderr, status);
    assert forall|i: int| 0 <= i < r.len() implies r[i] != '\n' by {}
}

} // verus!
