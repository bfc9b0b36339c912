use ani_cli_es::error::{Error, ExtractionError, ProviderError};
use ani_cli_es::list::{contains_ignore_ascii_case, find_ignore_ascii_case, match_range};

#[test]
fn containment_without_regard_to_case() {
    assert!(contains_ignore_ascii_case("Shingeki no Kyojin", "KYO"));
    assert!(contains_ignore_ascii_case("Shingeki no Kyojin", "shingeki"));
    assert!(contains_ignore_ascii_case("Shingeki no Kyojin", "jin"));
    assert!(!contains_ignore_ascii_case("Shingeki no Kyojin", "kyojim"));
    assert!(!contains_ignore_ascii_case("abc", "abcd"));
    assert!(contains_ignore_ascii_case("abc", ""));
    assert!(contains_ignore_ascii_case("", ""));
    assert!(!contains_ignore_ascii_case("", "a"));
}

#[test]
fn only_ascii_letters_lose_their_case() {
    assert!(!contains_ignore_ascii_case("PokÉmon", "é"));
    assert!(contains_ignore_ascii_case("PokÉmon", "kÉM"));
    assert!(!contains_ignore_ascii_case("a[b", "a{b"));
    assert!(!contains_ignore_ascii_case("a@b", "a`b"));
}

#[test]
fn the_first_match_is_found() {
    assert_eq!(find_ignore_ascii_case("One Piece: one more", "ONE"), Some(0));
    assert_eq!(find_ignore_ascii_case("The One Piece: one more", "ONE"), Some(4));
    assert_eq!(find_ignore_ascii_case("aab", "AB"), Some(1));
    assert_eq!(find_ignore_ascii_case("abc", "c"), Some(2));
    assert_eq!(find_ignore_ascii_case("abc", "d"), None);
    assert_eq!(find_ignore_ascii_case("abc", ""), Some(0));
    assert_eq!(find_ignore_ascii_case("", ""), Some(0));
    assert_eq!(find_ignore_ascii_case("ñandú X", "x"), Some(8));
}

#[test]
fn the_range_of_a_match() {
    assert_eq!(match_range("Dragon Ball", "ball"), Some((7, 11)));
    assert_eq!(match_range("Dragon Ball", ""), Some((0, 0)));
    assert_eq!(match_range("Dragon Ball", "z"), None);
    assert_eq!(match_range("ñandú", "DÚ"), None);
    assert_eq!(match_range("ñandú", "dú"), Some((4, 7)));
}

#[test]
fn messages() {
    assert_eq!(Error::Network("dns".into()).message(), "network error: dns");
    assert_eq!(Error::HttpStatus(404).message(), "unexpected HTTP status 404");
    assert_eq!(Error::Extraction(ExtractionError::MissingMarker).message(), "marker not found");
    assert_eq!(Error::Extraction(ExtractionError::MissingField).message(), "field not found");
    assert_eq!(Error::Extraction(ExtractionError::MalformedList).message(), "end of list not found");
    assert_eq!(Error::IndexOutOfRange.message(), "invalid index");
    assert_eq!(Error::NoActiveSeries.message(), "no series selected");
    assert_eq!(Error::NoProviderSucceeded(None).message(), "no provider succeeded");
    assert_eq!(
        Error::NoProviderSucceeded(Some(ProviderError::TimedOut)).message(),
        "no provider succeeded: timed out"
    );
    assert_eq!(ProviderError::LaunchFailed.message(), "browser launch failed");
    assert_eq!(ProviderError::NavigationFailed.message(), "navigation failed");
    assert_eq!(ProviderError::Network("x".into()).message(), "network error: x");
    assert_eq!(ProviderError::HttpStatus(0).message(), "unexpected HTTP status 0");
    assert_eq!(
        ProviderError::Extraction(ExtractionError::MissingField).message(),
        "field not found"
    );
    assert_eq!(Error::HttpStatus(65535).duplicate(), Error::HttpStatus(65535));
}
