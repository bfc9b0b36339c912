//! Providers, and the reading of a provider's embed code from an episode page.
//!
//! An episode page holds, as text, objects with a `server` field (the
//! provider's code) and a `code` field (a quoted string with backslash
//! escapes). The value is found by its two markers and read up to the quote
//! that ends it.

use vstd::prelude::*;

use crate::error::ExtractionError;
use crate::text::{chars_of, extend, find, find_from, lemma_find_from, string_of};

verus! {

/// What opens the `server` field, before the provider's code.
pub const SERVER_FIELD: &'static str = "\"server\":\"";

/// What opens the `code` field, before its value.
pub const CODE_FIELD: &'static str = "\"code\":\"";

/// One way of getting at the media of an episode.
#[derive(Debug, Clone, PartialEq, Eq)]
pub struct ProviderSpec {
    /// The short code by which the page names the provider.
    pub code: String,
    /// Whether the embed code is only a candidate, to be loaded in a browser
    /// whose traffic then gives the real address away.
    pub requires_intercept: bool,
    /// What the address of the genuine media response contains.
    pub intercept_target_marker: Option<String>,
}

/// A [`ProviderSpec`] as the contracts see it.
pub struct ProviderSpecView {
    pub code: Seq<char>,
    pub requires_intercept: bool,
    pub intercept_target_marker: Option<Seq<char>>,
}

impl View for ProviderSpec {
    type V = ProviderSpecView;

    open spec fn view(&self) -> ProviderSpecView {
        ProviderSpecView {
            code: self.code@,
            requires_intercept: self.requires_intercept,
            intercept_target_marker: match self.intercept_target_marker {
                Some(m) => Some(m@),
                None => None,
            },
        }
    }
}

impl ProviderSpec {
    /// A provider whose embed code is the link itself.
    pub fn direct(code: &str) -> (p: ProviderSpec)
        ensures
            p@ == (ProviderSpecView {
                code: code@,
                requires_intercept: false,
                intercept_target_marker: None,
            }),
    {
        ProviderSpec {
            code: string_of(chars_of(code).as_slice()),
            requires_intercept: false,
            intercept_target_marker: None,
        }
    }

    /// A provider whose embed code has to be loaded in a browser; the media
    /// response is the first whose address contains `marker`.
    pub fn intercepting(code: &str, marker: &str) -> (p: ProviderSpec)
        ensures
            p@ == (ProviderSpecView {
                code: code@,
                requires_intercept: true,
                intercept_target_marker: Some(marker@),
            }),
    {
        ProviderSpec {
            code: string_of(chars_of(code).as_slice()),
            requires_intercept: true,
            intercept_target_marker: Some(string_of(chars_of(marker).as_slice())),
        }
    }

    /// A copy of this provider.
    pub fn duplicate(&self) -> (p: ProviderSpec)
        ensures
            p@ == self@,
    {
        ProviderSpec {
            code: self.code.clone(),
            requires_intercept: self.requires_intercept,
            intercept_target_marker: match &self.intercept_target_marker {
                Some(m) => Some(m.clone()),
                None => None,
            },
        }
    }
}

/// The text by which a page names the provider `code`: `"server":"<code>"`.
pub open spec fn server_marker(code: Seq<char>) -> Seq<char> {
    SERVER_FIELD@ + code + seq!['"']
}

/// The value that starts at index `at` and runs up to the first quote that
/// no backslash escapes: each backslash is dropped and the character after
/// it kept as it is. `None` where the text ends before such a quote.
pub open spec fn quoted_value(s: Seq<char>, at: int) -> Option<Seq<char>>
    decreases s.len() - at,
{
    if at < 0 || at >= s.len() {
        None
    } else if s[at] == '"' {
        Some(Seq::<char>::empty())
    } else if s[at] == '\\' {
        if at + 1 < s.len() {
            match quoted_value(s, at + 2) {
                Some(rest) => Some(seq![s[at + 1]] + rest),
                None => None,
            }
        } else {
            None
        }
    } else {
        match quoted_value(s, at + 1) {
            Some(rest) => Some(seq![s[at]] + rest),
            None => None,
        }
    }
}

/// `rest` put after `head`, where there is a `rest`.
pub open spec fn prepend(head: Seq<char>, rest: Option<Seq<char>>) -> Option<Seq<char>> {
    match rest {
        Some(r) => Some(head + r),
        None => None,
    }
}

/// The embed code of provider `code` in an episode page: the value of the
/// first `code` field after the first naming of the provider.
/// `MissingMarker` where either is not found, `MissingField` where the value
/// has no end.
pub open spec fn provider_value(page: Seq<char>, code: Seq<char>) -> Result<
    Seq<char>,
    ExtractionError,
> {
    match find_from(page, server_marker(code), 0) {
        None => Err(ExtractionError::MissingMarker),
        Some(m) => match find_from(page, CODE_FIELD@, m + server_marker(code).len()) {
            None => Err(ExtractionError::MissingMarker),
            Some(c) => match quoted_value(page, c + CODE_FIELD@.len()) {
                Some(v) => Ok(v),
                None => Err(ExtractionError::MissingField),
            },
        },
    }
}

/// Reads the quoted value that starts at `at`.
pub fn read_quoted(s: &[char], at: usize) -> (r: Option<Vec<char>>)
    ensures
        match r {
            Some(v) => quoted_value(s@, at as int) == Some(v@),
            None => quoted_value(s@, at as int) is None,
        },
{
    let mut out: Vec<char> = Vec::new();
    let mut i: usize = at;
    assert(prepend(out@, quoted_value(s@, at as int)) =~= quoted_value(s@, at as int)) by {
        match quoted_value(s@, at as int) {
            Some(r) => assert(out@ + r =~= r),
            None => {},
        }
    }
    while i < s.len()
        invariant
            at <= i,
            quoted_value(s@, at as int) == prepend(out@, quoted_value(s@, i as int)),
        decreases s.len() - i,
    {
        let c = s[i];
        if c == '"' {
            assert(out@ + Seq::<char>::empty() =~= out@);
            return Some(out);
        }
        let ghost before = out@;
        if c == '\\' {
            if i + 1 >= s.len() {
                return None;
            }
            out.push(s[i + 1]);
            proof {
                match quoted_value(s@, i + 2) {
                    Some(r) => assert(before + (seq![s@[i + 1]] + r) =~= out@ + r),
                    None => {},
                }
            }
            i += 2;
        } else {
            out.push(c);
            proof {
                match quoted_value(s@, i + 1) {
                    Some(r) => assert(before + (seq![c] + r) =~= out@ + r),
                    None => {},
                }
            }
            i += 1;
        }
    }
    None
}

/// The embed code of provider `code` in an episode page.
pub fn extract_code(page: &[char], code: &[char]) -> (r: Result<Vec<char>, ExtractionError>)
    ensures
        match r {
            Ok(v) => provider_value(page@, code@) == Ok::<Seq<char>, ExtractionError>(v@),
            Err(e) => provider_value(page@, code@) == Err::<Seq<char>, ExtractionError>(e),
        },
{
    let mut marker = chars_of(SERVER_FIELD);
    extend(&mut marker, code);
    marker.push('"');
    assert(marker@ =~= server_marker(code@));
    let field = chars_of(CODE_FIELD);
    let total = page.len();
    match find(page, marker.as_slice(), 0) {
        None => Err(ExtractionError::MissingMarker),
        Some(m) => {
            proof {
                lemma_find_from(page@, marker@, 0);
            }
            assert(m + marker.len() <= total);
            match find(page, field.as_slice(), m + marker.len()) {
                None => Err(ExtractionError::MissingMarker),
                Some(c) => {
                    proof {
                        lemma_find_from(page@, field@, m + marker@.len());
                    }
                    assert(c + field.len() <= total);
                    match read_quoted(page, c + field.len()) {
                        Some(v) => Ok(v),
                        None => Err(ExtractionError::MissingField),
                    }
                },
            }
        },
    }
}

/// The embed code of provider `code` in an episode page, with its escapes
/// undone.
///
/// Fails with `MissingMarker` where the page does not name the provider or
/// no `code` field follows, and with `MissingField` where the value has no
/// closing quote.
pub fn extract_link(page: &str, code: &str) -> (r: Result<String, ExtractionError>)
    ensures
        match r {
            Ok(v) => provider_value(page@, code@) == Ok::<Seq<char>, ExtractionError>(v@),
            Err(e) => provider_value(page@, code@) == Err::<Seq<char>, ExtractionError>(e),
        },
{
    match extract_code(chars_of(page).as_slice(), chars_of(code).as_slice()) {
        Ok(v) => Ok(string_of(v.as_slice())),
        Err(e) => Err(e),
    }
}

} // verus!
