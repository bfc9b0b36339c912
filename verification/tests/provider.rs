use ani_cli_es::error::ExtractionError;
use ani_cli_es::provider::{extract_link, read_quoted, ProviderSpec};
use ani_cli_es::site::{absolute_url, episode_url};

fn chars(s: &str) -> Vec<char> {
    s.chars().collect()
}

fn text(v: Vec<char>) -> String {
    v.into_iter().collect()
}

#[test]
fn the_code_of_a_provider_is_unescaped() {
    let body = r#""server":"sw","code":"https:\/\/a.b\/x""#;
    assert_eq!(extract_link(body, "sw"), Ok("https://a.b/x".to_string()));
}

#[test]
fn the_code_of_the_named_provider_is_taken() {
    let body = r#"var videos = {"SUB":[{"server":"mega","title":"MEGA","code":"https:\/\/mega.nz\/embed"},{"server":"sw","title":"SW","allow_mobile":true,"code":"https:\/\/streamwish.to\/e\/abc"}]};"#;
    assert_eq!(extract_link(body, "sw"), Ok("https://streamwish.to/e/abc".to_string()));
    assert_eq!(extract_link(body, "mega"), Ok("https://mega.nz/embed".to_string()));
}

#[test]
fn a_page_that_does_not_name_the_provider() {
    let body = r#""server":"mega","code":"https:\/\/mega.nz\/embed""#;
    assert_eq!(extract_link(body, "sw"), Err(ExtractionError::MissingMarker));
    assert_eq!(extract_link(body, "meg"), Err(ExtractionError::MissingMarker));
    assert_eq!(extract_link("", "sw"), Err(ExtractionError::MissingMarker));
}

#[test]
fn a_provider_without_code_field() {
    assert_eq!(extract_link(r#""server":"sw","title":"SW"}"#, "sw"), Err(ExtractionError::MissingMarker));
    let before = r#""code":"x","server":"sw""#;
    assert_eq!(extract_link(before, "sw"), Err(ExtractionError::MissingMarker));
}

#[test]
fn a_code_without_end() {
    assert_eq!(extract_link(r#""server":"sw","code":"https:\/\/a.b"#, "sw"), Err(ExtractionError::MissingField));
    assert_eq!(extract_link(r#""server":"sw","code":"abc\"#, "sw"), Err(ExtractionError::MissingField));
    assert_eq!(extract_link(r#""server":"sw","code":""#, "sw"), Err(ExtractionError::MissingField));
}

#[test]
fn an_escaped_quote_does_not_end_the_code() {
    let body = r#""server":"sw","code":"a\"b\\c"rest"#;
    assert_eq!(extract_link(body, "sw"), Ok(r#"a"b\c"#.to_string()));
    assert_eq!(extract_link(r#""server":"sw","code":"""#, "sw"), Ok(String::new()));
}

#[test]
fn quoted_values() {
    assert_eq!(read_quoted(&chars(r#"abc"def"#), 0).map(text), Some("abc".to_string()));
    assert_eq!(read_quoted(&chars(r#"abc"def"#), 2).map(text), Some("c".to_string()));
    assert_eq!(read_quoted(&chars(r#"abc"def"#), 3).map(text), Some(String::new()));
    assert_eq!(read_quoted(&chars(r#"abc"def"#), 4).map(text), None);
    assert_eq!(read_quoted(&chars(r#"abc"#), 9).map(text), None);
    assert_eq!(read_quoted(&chars(r#"é\n""#), 0).map(text), Some("én".to_string()));
}

#[test]
fn providers() {
    let direct = ProviderSpec::direct("sw");
    assert_eq!(direct.code, "sw");
    assert!(!direct.requires_intercept);
    assert_eq!(direct.intercept_target_marker, None);
    let browser = ProviderSpec::intercepting("yu", "/hls/");
    assert_eq!(browser.code, "yu");
    assert!(browser.requires_intercept);
    assert_eq!(browser.intercept_target_marker, Some("/hls/".to_string()));
    assert_eq!(browser.duplicate(), browser);
}

#[test]
fn episode_addresses() {
    assert_eq!(episode_url("/anime/naruto", 5), "https://www3.animeflv.net/ver/naruto-5");
    assert_eq!(
        episode_url("/anime/anime-no-anime", 12),
        "https://www3.animeflv.net/ver/anime-no-anime-12"
    );
    assert_eq!(episode_url("/anime/x", -1), "https://www3.animeflv.net/ver/x--1");
    assert_eq!(episode_url("/anime/x", 0), "https://www3.animeflv.net/ver/x-0");
    assert_eq!(
        episode_url("/anime/x", i32::MIN),
        "https://www3.animeflv.net/ver/x--2147483648"
    );
    assert_eq!(episode_url("/other/x", 1), "https://www3.animeflv.net/other/x-1");
}

#[test]
fn absolute_addresses() {
    assert_eq!(text(absolute_url(&chars("https://a.b/x"))), "https://a.b/x");
    assert_eq!(text(absolute_url(&chars("http://a.b/x"))), "http://a.b/x");
    assert_eq!(text(absolute_url(&chars("//a.b/x"))), "https://a.b/x");
    assert_eq!(text(absolute_url(&chars("/embed/x"))), "https://www3.animeflv.net/embed/x");
    assert_eq!(text(absolute_url(&chars("embed/x"))), "https://www3.animeflv.net/embed/x");
    assert_eq!(text(absolute_url(&chars(""))), "https://www3.animeflv.net/");
}
