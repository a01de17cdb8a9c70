//! Chat and web integrations that watch the hub: how they render what the
//! hub reports.
use vstd::prelude::*;

use crate::search::first_index;
use crate::text::{chars_of, chars_range, find_char, is_char, string_from_chars};

pub mod discord;
pub mod http;
pub mod telegram;

verus! {

/// Where the process id sits in an auth log process name such as
/// `su[1234]`: the positions of its first `[` and first `]`, when the
/// second comes at least two characters after the first and the character
/// before it is ASCII (the byte slicing of the process name is then
/// valid).
pub open spec fn pid_bounds(process: Seq<char>) -> Option<(int, int)> {
    match (first_index(process, is_char('[')), first_index(process, is_char(']'))) {
        (Some(i), Some(j)) => if i + 2 <= j && (process[j - 1] as u32) < 0x80 {
            Some((i, j))
        } else {
            None
        },
        _ => None,
    }
}

/// Whether a process id can be taken from `process`.
pub open spec fn pid_ok(process: Seq<char>) -> bool {
    pid_bounds(process) is Some
}

/// The process id shown for `process`: the text after its first `[` up to
/// the character before its first `]` (that character excluded).
pub open spec fn pid_text(process: Seq<char>) -> Seq<char> {
    let (i, j) = pid_bounds(process)->0;
    process.subrange(i + 1, j - 1)
}

/// Whether a process id can be taken from `process`.
pub fn has_pid(process: &str) -> (r: bool)
    ensures
        r == pid_ok(process@),
{
    let p = chars_of(process);
    match (find_char(&p, '['), find_char(&p, ']')) {
        (Some(i), Some(j)) => i < j && j - i >= 2 && (p[j - 1] as u32) < 0x80,
        _ => false,
    }
}

/// The process id shown for `process`.
pub fn pid_of(process: &str) -> (r: String)
    requires
        pid_ok(process@),
    ensures
        r@ == pid_text(process@),
{
    let p = chars_of(process);
    match (find_char(&p, '['), find_char(&p, ']')) {
        (Some(i), Some(j)) => string_from_chars(&chars_range(&p, i + 1, j - 1)),
        _ => String::new(),
    }
}

} // verus!
