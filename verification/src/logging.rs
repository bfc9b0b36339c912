//! The lines of the log.

use vstd::prelude::*;

use crate::text::{chars_of, extend, string_of};

verus! {

/// A line of the log: time, source and stream in brackets, then the text.
pub open spec fn log_line(
    timestamp: Seq<char>,
    name: Seq<char>,
    stream: Seq<char>,
    line: Seq<char>,
) -> Seq<char> {
    seq!['['] + timestamp + seq![']', ' ', '['] + name + seq![']', ' ', '['] + stream + seq![
        ']',
        ' ',
    ] + line
}

/// The line to write to the log for `line`, read from the stream `stream`
/// of the program `name` at the time `timestamp`.
pub fn format_log_line(timestamp: &str, name: &str, stream: &str, line: &str) -> (r: String)
    ensures
        r@ == log_line(timestamp@, name@, stream@, line@),
{
    let mut out: Vec<char> = Vec::new();
    out.push('[');
    extend(&mut out, chars_of(timestamp).as_slice());
    out.push(']');
    out.push(' ');
    out.push('[');
    extend(&mut out, chars_of(name).as_slice());
    out.push(']');
    out.push(' ');
    out.push('[');
    extend(&mut out, chars_of(stream).as_slice());
    out.push(']');
    out.push(' ');
    extend(&mut out, chars_of(line).as_slice());
    assert(out@ =~= log_line(timestamp@, name@, stream@, line@));
    string_of(out.as_slice())
}

} // verus!
