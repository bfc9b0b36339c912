//! The episode list of a series page.
//!
//! A series page assigns, inside a script, a bracketed list of
//! `[episode, id]` pairs. The list is read as text: it starts after the
//! assignment marker and ends before the next `;`.

use vstd::prelude::*;

use crate::error::ExtractionError;
use crate::number::{parse_decimal, parse_i32};
use crate::text::{chars_of, copy_range, find, find_from, lemma_find_from};

verus! {

/// The text that precedes the list.
pub const EPISODES_MARKER: &'static str = "episodes = ";

/// The character that ends the assignment.
pub open spec fn terminator() -> Seq<char> {
    seq![';']
}

/// What stands between two pairs of the list.
pub open spec fn pair_separator() -> Seq<char> {
    seq![']', ',', '[']
}

/// What stands between the fields of a pair.
pub open spec fn field_separator() -> Seq<char> {
    seq![',']
}

/// A square bracket, opening or closing.
pub open spec fn is_bracket(c: char) -> bool {
    c == '[' || c == ']'
}

/// The first index at or after `from` that holds no bracket.
pub open spec fn skip_brackets(s: Seq<char>, from: int) -> int
    decreases s.len() - from,
{
    if 0 <= from < s.len() && is_bracket(s[from]) {
        skip_brackets(s, from + 1)
    } else {
        from
    }
}

/// The least end `hi >= lo` such that no bracket stands directly before it,
/// coming down from `to`.
pub open spec fn drop_brackets(s: Seq<char>, lo: int, to: int) -> int
    decreases to,
{
    if 0 <= lo < to <= s.len() && is_bracket(s[to - 1]) {
        drop_brackets(s, lo, to - 1)
    } else {
        to
    }
}

/// `s` without the brackets at its start and at its end.
pub open spec fn trim_brackets(s: Seq<char>) -> Seq<char> {
    let lo = skip_brackets(s, 0);
    let hi = drop_brackets(s, lo, s.len() as int);
    s.subrange(lo, hi)
}

/// The pieces of `s` from index `from` on, cut at each occurrence of `sep`,
/// scanning left to right.
pub open spec fn split_from(s: Seq<char>, sep: Seq<char>, from: int) -> Seq<Seq<char>>
    decreases s.len() - from,
    via split_from_decreases
{
    match find_from(s, sep, from) {
        Some(i) => if 0 <= from && sep.len() > 0 {
            seq![s.subrange(from, i)] + split_from(s, sep, i + sep.len())
        } else {
            seq![s.subrange(from, s.len() as int)]
        },
        None => seq![s.subrange(from, s.len() as int)],
    }
}

#[via_fn]
proof fn split_from_decreases(s: Seq<char>, sep: Seq<char>, from: int) {
    if 0 <= from {
        lemma_find_from(s, sep, from);
    }
}

/// The first field of a pair: what stands before its first comma, or all of
/// it where it has none.
pub open spec fn first_field(pair: Seq<char>) -> Seq<char> {
    match find_from(pair, field_separator(), 0) {
        Some(i) => pair.take(i),
        None => pair,
    }
}

/// The episode numbers of the pairs, in order; a pair whose first field is
/// no `i32` gives none.
pub open spec fn episode_numbers(pairs: Seq<Seq<char>>) -> Seq<i32>
    decreases pairs.len(),
{
    if pairs.len() == 0 {
        seq![]
    } else {
        let rest = episode_numbers(pairs.drop_first());
        match parse_i32(first_field(pairs[0])) {
            Some(n) => seq![n] + rest,
            None => rest,
        }
    }
}

/// The episode numbers of a bracketed list of pairs.
pub open spec fn list_episodes(list: Seq<char>) -> Seq<i32> {
    episode_numbers(split_from(trim_brackets(list), pair_separator(), 0))
}

/// The episode numbers of a series page, in the order of the page:
/// `MissingMarker` where the assignment is not in it, `MalformedList` where
/// no `;` follows the assignment.
pub open spec fn page_episodes(page: Seq<char>) -> Result<Seq<i32>, ExtractionError> {
    match find_from(page, EPISODES_MARKER@, 0) {
        None => Err(ExtractionError::MissingMarker),
        Some(m) => {
            let start = m + EPISODES_MARKER@.len();
            match find_from(page, terminator(), start) {
                None => Err(ExtractionError::MalformedList),
                Some(end) => Ok(list_episodes(page.subrange(start, end))),
            }
        },
    }
}

/// The bounds of `s` without the brackets at its start and at its end.
fn trim_bounds(s: &[char]) -> (r: (usize, usize))
    ensures
        r.0 <= r.1 <= s.len(),
        r.0 == skip_brackets(s@, 0),
        r.1 == drop_brackets(s@, r.0 as int, s.len() as int),
{
    let mut lo: usize = 0;
    while lo < s.len() && (s[lo] == '[' || s[lo] == ']')
        invariant
            lo <= s.len(),
            skip_brackets(s@, 0) == skip_brackets(s@, lo as int),
        decreases s.len() - lo,
    {
        lo += 1;
    }
    let mut hi: usize = s.len();
    while lo < hi && (s[hi - 1] == '[' || s[hi - 1] == ']')
        invariant
            lo <= hi <= s.len(),
            drop_brackets(s@, lo as int, s.len() as int) == drop_brackets(s@, lo as int, hi as int),
        decreases hi,
    {
        hi -= 1;
    }
    (lo, hi)
}

/// Reads the first field of a pair as an episode number.
fn pair_episode(pair: &[char]) -> (r: Option<i32>)
    ensures
        r == parse_i32(first_field(pair@)),
{
    let comma: Vec<char> = vec![','];
    assert(comma@ =~= field_separator());
    match find(pair, comma.as_slice(), 0) {
        Some(i) => {
            proof {
                lemma_find_from(pair@, comma@, 0);
            }
            let field = copy_range(pair, 0, i);
            assert(field@ =~= pair@.take(i as int));
            parse_decimal(field.as_slice())
        },
        None => parse_decimal(pair),
    }
}

/// The episode numbers of a bracketed list of pairs, in the order of the
/// list. A pair whose first field is no `i32` is passed over.
pub fn parse_episode_list(list: &[char]) -> (r: Vec<i32>)
    ensures
        r@ == list_episodes(list@),
{
    let (lo, hi) = trim_bounds(list);
    let body = copy_range(list, lo, hi);
    assert(body@ == trim_brackets(list@));
    let sep: Vec<char> = vec![']', ',', '['];
    assert(sep@ =~= pair_separator());
    let mut out: Vec<i32> = Vec::new();
    let mut pos: usize = 0;
    loop
        invariant
            pos <= body.len(),
            body@ == trim_brackets(list@),
            sep@ == pair_separator(),
            out@ + episode_numbers(split_from(body@, sep@, pos as int)) == episode_numbers(
                split_from(body@, sep@, 0),
            ),
        decreases body.len() - pos,
    {
        let ghost pieces = split_from(body@, sep@, pos as int);
        let found = find(body.as_slice(), sep.as_slice(), pos);
        proof {
            lemma_find_from(body@, sep@, pos as int);
        }
        let end: usize = match found {
            Some(i) => i,
            None => body.len(),
        };
        let pair = copy_range(body.as_slice(), pos, end);
        assert(pieces[0] == pair@);
        let number = pair_episode(pair.as_slice());
        let ghost before = out@;
        if let Some(n) = number {
            out.push(n);
        }
        match found {
            Some(i) => {
                let ghost rest = split_from(body@, sep@, i + 3);
                assert(pieces.drop_first() =~= rest);
                assert(out@ + episode_numbers(rest) =~= before + episode_numbers(pieces));
                pos = i + 3;
            },
            None => {
                assert(pieces.drop_first() =~= Seq::<Seq<char>>::empty());
                assert(episode_numbers(pieces.drop_first()) =~= Seq::<i32>::empty());
                assert(out@ =~= before + episode_numbers(pieces));
                return out;
            },
        }
    }
}

/// The episode numbers of a series page, in the order of the page.
///
/// Fails with `MissingMarker` where the page holds no assignment of the list,
/// and with `MalformedList` where no `;` ends it. A pair that cannot be read
/// is passed over and does not fail the call.
pub fn parse_episodes(page: &str) -> (r: Result<Vec<i32>, ExtractionError>)
    ensures
        match r {
            Ok(v) => page_episodes(page@) == Ok::<Seq<i32>, ExtractionError>(v@),
            Err(e) => page_episodes(page@) == Err::<Seq<i32>, ExtractionError>(e),
        },
{
    let text = chars_of(page);
    let marker = chars_of(EPISODES_MARKER);
    let semicolon: Vec<char> = vec![';'];
    assert(semicolon@ =~= terminator());
    match find(text.as_slice(), marker.as_slice(), 0) {
        None => Err(ExtractionError::MissingMarker),
        Some(m) => {
            proof {
                lemma_find_from(text@, marker@, 0);
            }
            assert(m + marker.len() <= text.len());
            let start = m + marker.len();
            match find(text.as_slice(), semicolon.as_slice(), start) {
                None => Err(ExtractionError::MalformedList),
                Some(end) => {
                    proof {
                        lemma_find_from(text@, semicolon@, start as int);
                    }
                    let list = copy_range(text.as_slice(), start, end);
                    Ok(parse_episode_list(list.as_slice()))
                },
            }
        },
    }
}

/// Only the bounds of the list can fail a page: it yields episodes exactly
/// when it holds the marker and a `;` after it, however its pairs read.
pub proof fn lemma_only_the_bounds_fail(page: Seq<char>)
    ensures
        page_episodes(page) is Ok <==> (find_from(page, EPISODES_MARKER@, 0) matches Some(m)
            && find_from(page, terminator(), m + EPISODES_MARKER@.len()) is Some),
{
}

} // verus!
