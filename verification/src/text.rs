//! Views of the string-carrying values that cross the library's boundary.
//!
//! Contracts speak of strings as sequences of characters. These helpers lift
//! that view to optional strings and to lists of log lines.

use vstd::prelude::*;

verus! {

/// The characters of an optional string.
pub open spec fn text(s: Option<String>) -> Option<Seq<char>> {
    match s {
        Some(t) => Some(t@),
        None => None,
    }
}

/// The lines of a log, each as its characters, oldest first.
pub open spec fn lines(logs: Seq<String>) -> Seq<Seq<char>> {
    Seq::new(logs.len(), |i: int| logs[i]@)
}

/// Appends one line to a log.
pub fn push_line(logs: &mut Vec<String>, line: String)
    ensures
        final(logs)@ == old(logs)@.push(line),
        lines(final(logs)@) == lines(old(logs)@).push(line@),
{
    logs.push(line);
}

} // verus!
