//! The stdin watcher: each line received for the task is written to the
//! process's stdin, ending with a newline.
use vstd::prelude::*;
use crate::text::chars_of;

verus! {

/// Whether `s` ends with a newline.
pub open spec fn ends_with_newline(s: Seq<char>) -> bool {
    s.len() > 0 && s.last() == '\n'
}

/// The text written to stdin for a received line: the line, with a newline
/// added unless it already ends with one.
pub open spec fn stdin_text(line: Seq<char>) -> Seq<char> {
    if ends_with_newline(line) {
        line
    } else {
        line.push('\n')
    }
}

/// What is written for a line always ends with a newline and starts with the
/// whole line; at most one character is added, and none when the line
/// already ends with a newline.
pub proof fn stdin_text_law(line: Seq<char>)
    ensures
        stdin_text(line).len() > 0 && stdin_text(line).last() == '\n',
        stdin_text(line).take(line.len() as int) == line,
        stdin_text(line).len() <= line.len() + 1,
        line.len() > 0 && line.last() == '\n' ==> stdin_text(line) == line,
{
    assert(stdin_text(line).take(line.len() as int) =~= line);
}

/// The text written to stdin for a received line: the line, with a newline
/// added unless it already ends with one.
pub fn stdin_line(line: String) -> (r: String)
    ensures
        r@ == stdin_text(line@),
{
    let chars = chars_of(line.as_str());
    let n = chars.len();
    if n > 0 && chars[n - 1] == '\n' {
        line
    } else {
        let mut l = line;
        l.append("\n");
        proof {
            reveal_strlit("\n");
        }
        assert(l@ =~= line@.push('\n'));
        l
    }
}

} // verus!
