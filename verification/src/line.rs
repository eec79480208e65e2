//! The text of one log line.

use crate::text::{decimal_string, decimal_text, push_decimal, push_right_aligned, right_aligned};
use vstd::prelude::*;

verus! {

/// The width of the field that holds the thread id.
pub const THREAD_ID_WIDTH: usize = 5;

/// A line in its fixed layout: the severity letter, the time stamp, the
/// thread id at the right edge of its field, the source file and line, a
/// closing bracket, and the message.
pub open spec fn line_text(
    letter: Seq<char>,
    stamp: Seq<char>,
    thread_id: nat,
    basename: Seq<char>,
    line: nat,
    message: Seq<char>,
) -> Seq<char> {
    letter + stamp + seq![' '] + right_aligned(decimal_text(thread_id), THREAD_ID_WIDTH as nat)
        + seq![' '] + basename + seq![':'] + decimal_text(line) + seq![']', ' '] + message
}

/// `basename:line`, the place of a record as a backtrace trigger names it.
pub open spec fn place_text(basename: Seq<char>, line: nat) -> Seq<char> {
    basename + seq![':'] + decimal_text(line)
}

/// Puts a line together from its parts.
pub fn assemble_line(
    letter: &str,
    stamp: &str,
    thread_id: u64,
    basename: &str,
    line: u32,
    message: &str,
) -> (r: String)
    ensures
        r@ == line_text(letter@, stamp@, thread_id as nat, basename@, line as nat, message@),
{
    proof {
        reveal_strlit(" ");
        reveal_strlit(":");
        reveal_strlit("] ");
    }
    let mut r = String::new();
    r.append(letter);
    r.append(stamp);
    r.append(" ");
    let id = decimal_string(thread_id);
    push_right_aligned(&mut r, id.as_str(), THREAD_ID_WIDTH);
    r.append(" ");
    r.append(basename);
    r.append(":");
    push_decimal(&mut r, line as u64);
    r.append("] ");
    r.append(message);
    assert(r@ =~= line_text(
        letter@,
        stamp@,
        thread_id as nat,
        basename@,
        line as nat,
        message@,
    ));
    r
}

/// `basename:line` of a record.
pub fn place(basename: &str, line: u32) -> (r: String)
    ensures
        r@ == place_text(basename@, line as nat),
{
    proof {
        reveal_strlit(":");
    }
    let mut r = String::new();
    r.append(basename);
    r.append(":");
    push_decimal(&mut r, line as u64);
    assert(r@ =~= place_text(basename@, line as nat));
    r
}

} // verus!
