//! The addresses of the site: where to search, where a series and an episode
//! are, and how a scraped address is made absolute.

use vstd::prelude::*;

use crate::number::{decimal, push_decimal};
use crate::text::{chars_of, copy_range, extend, occurs_at, starts_with, string_of};

verus! {

/// Scheme and host of the site.
pub const ORIGIN: &'static str = "https://www3.animeflv.net";

/// Path and query key of the search page.
pub const SEARCH_PATH: &'static str = "/browse?q=";

/// The path under which every series lives; each reference begins with it.
pub const SERIES_PREFIX: &'static str = "/anime/";

/// The path under which the episodes of a series live.
pub const EPISODE_PREFIX: &'static str = "/ver/";

/// The address of the search page for `query`.
pub open spec fn search_address(query: Seq<char>) -> Seq<char> {
    ORIGIN@ + SEARCH_PATH@ + query
}

/// A character that may stand in the name of a series: a letter or digit
/// of ASCII, or one of `-`, `_`, `.`, `~` and `%`.
pub open spec fn is_name_char(c: char) -> bool {
    ||| 'a' <= c && c <= 'z'
    ||| 'A' <= c && c <= 'Z'
    ||| '0' <= c && c <= '9'
    ||| c == '-'
    ||| c == '_'
    ||| c == '.'
    ||| c == '~'
    ||| c == '%'
}

/// A reference is the path of a series: [`SERIES_PREFIX`], then a name of
/// one or more characters that can do no harm in an address.
pub open spec fn is_reference(path: Seq<char>) -> bool {
    &&& occurs_at(path, SERIES_PREFIX@, 0)
    &&& path.len() > SERIES_PREFIX@.len()
    &&& forall|i: int| SERIES_PREFIX@.len() <= i < path.len() ==> is_name_char(#[trigger] path[i])
}

/// The address of the series page at `reference`.
pub open spec fn series_address(reference: Seq<char>) -> Seq<char> {
    ORIGIN@ + reference
}

/// The path of an episode: the reference with its leading series segment
/// replaced by the episode segment, then `-` and the episode number. A path
/// that does not start with the series segment is kept whole.
pub open spec fn episode_path(reference: Seq<char>, episode: int) -> Seq<char> {
    let series = if occurs_at(reference, SERIES_PREFIX@, 0) {
        EPISODE_PREFIX@ + reference.skip(SERIES_PREFIX@.len() as int)
    } else {
        reference
    };
    series + seq!['-'] + decimal(episode)
}

/// The address of the page of one episode.
pub open spec fn episode_address(reference: Seq<char>, episode: int) -> Seq<char> {
    ORIGIN@ + episode_path(reference, episode)
}

/// An address with an `http` or `https` scheme.
pub open spec fn is_absolute(url: Seq<char>) -> bool {
    occurs_at(url, "http://"@, 0) || occurs_at(url, "https://"@, 0)
}

/// `url` as an absolute address: unchanged where it has a scheme, with
/// `https:` put before a host-relative `//host/path`, and below the site's
/// origin otherwise.
pub open spec fn absolute(url: Seq<char>) -> Seq<char> {
    if is_absolute(url) {
        url
    } else if occurs_at(url, "//"@, 0) {
        "https:"@ + url
    } else if occurs_at(url, "/"@, 0) {
        ORIGIN@ + url
    } else {
        ORIGIN@ + "/"@ + url
    }
}

/// Whatever was scraped, what [`absolute`] makes of it is absolute.
pub proof fn lemma_absolute_is_absolute(url: Seq<char>)
    ensures
        is_absolute(absolute(url)),
        is_absolute(url) ==> absolute(url) == url,
{
    reveal_strlit("https://www3.animeflv.net");
    reveal_strlit("https://");
    reveal_strlit("https:");
    reveal_strlit("//");
    reveal_strlit("/");
    let scheme = "https://"@;
    if is_absolute(url) {
    } else if occurs_at(url, "//"@, 0) {
        let r = "https:"@ + url;
        assert(url.subrange(0, 2) == "//"@);
        assert(url[0] == '/' && url[1] == '/') by {
            assert(url.subrange(0, 2)[0] == url[0]);
            assert(url.subrange(0, 2)[1] == url[1]);
        }
        assert(r.subrange(0, 8) =~= scheme);
    } else if occurs_at(url, "/"@, 0) {
        let r = ORIGIN@ + url;
        assert(r.subrange(0, 8) =~= scheme);
    } else {
        let r = ORIGIN@ + "/"@ + url;
        assert(r.subrange(0, 8) =~= scheme);
    }
}

/// The address of the search page for `query`.
pub fn search_url(query: &str) -> (url: String)
    ensures
        url@ == search_address(query@),
{
    let mut out = chars_of(ORIGIN);
    extend(&mut out, chars_of(SEARCH_PATH).as_slice());
    extend(&mut out, chars_of(query).as_slice());
    string_of(out.as_slice())
}

fn check_name_char(c: char) -> (r: bool)
    ensures
        r == is_name_char(c),
{
    ('a' <= c && c <= 'z') || ('A' <= c && c <= 'Z') || ('0' <= c && c <= '9') || c == '-'
        || c == '_' || c == '.' || c == '~' || c == '%'
}

/// Whether `path` is a reference.
pub fn check_reference(path: &str) -> (r: bool)
    ensures
        r == is_reference(path@),
{
    let text = chars_of(path);
    let prefix = chars_of(SERIES_PREFIX);
    if !starts_with(text.as_slice(), prefix.as_slice()) || text.len() == prefix.len() {
        return false;
    }
    let mut i: usize = prefix.len();
    while i < text.len()
        invariant
            prefix.len() <= i <= text.len(),
            text@ == path@,
            prefix@ == SERIES_PREFIX@,
            forall|k: int| prefix.len() <= k < i ==> is_name_char(#[trigger] text@[k]),
        decreases text.len() - i,
    {
        if !check_name_char(text[i]) {
            assert(!is_name_char(path@[i as int]));
            return false;
        }
        i += 1;
    }
    true
}

/// The address of the series page at `reference`.
pub fn series_url(reference: &str) -> (url: String)
    ensures
        url@ == series_address(reference@),
{
    let mut out = chars_of(ORIGIN);
    extend(&mut out, chars_of(reference).as_slice());
    string_of(out.as_slice())
}

/// The address of the page of episode `episode` of the series at `reference`.
pub fn episode_url(reference: &str, episode: i32) -> (url: String)
    ensures
        url@ == episode_address(reference@, episode as int),
{
    let path = chars_of(reference);
    let prefix = chars_of(SERIES_PREFIX);
    let mut out = chars_of(ORIGIN);
    let ghost origin = out@;
    if starts_with(path.as_slice(), prefix.as_slice()) {
        extend(&mut out, chars_of(EPISODE_PREFIX).as_slice());
        let rest = copy_range(path.as_slice(), prefix.len(), path.len());
        assert(rest@ =~= path@.skip(prefix@.len() as int));
        extend(&mut out, rest.as_slice());
    } else {
        extend(&mut out, path.as_slice());
    }
    out.push('-');
    push_decimal(&mut out, episode);
    assert(out@ =~= episode_address(reference@, episode as int));
    string_of(out.as_slice())
}

/// `url` as an absolute address.
pub fn absolute_url(url: &[char]) -> (r: Vec<char>)
    ensures
        r@ == absolute(url@),
        is_absolute(r@),
{
    proof {
        lemma_absolute_is_absolute(url@);
    }
    let http = chars_of("http://");
    let https = chars_of("https://");
    let slashes = chars_of("//");
    let slash = chars_of("/");
    if starts_with(url, http.as_slice()) || starts_with(url, https.as_slice()) {
        copy_range(url, 0, url.len())
    } else if starts_with(url, slashes.as_slice()) {
        let mut out = chars_of("https:");
        extend(&mut out, url);
        out
    } else if starts_with(url, slash.as_slice()) {
        let mut out = chars_of(ORIGIN);
        extend(&mut out, url);
        out
    } else {
        let mut out = chars_of(ORIGIN);
        extend(&mut out, slash.as_slice());
        extend(&mut out, url);
        out
    }
}

} // verus!
