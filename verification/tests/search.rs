use ani_cli_es::animeflv::AnimeFlv;
use ani_cli_es::client::Client;
use ani_cli_es::error::{Error, ExtractionError};
use ani_cli_es::fetch::Fetched;
use ani_cli_es::search::{
    entries_from_blocks, parse_entries, parse_search_page, EntryBlock, SearchResultEntry,
};
use ani_cli_es::site::{search_url, series_url};

fn page(body: &str) -> Fetched {
    Fetched::Response { status: 200, body: body.to_string() }
}

fn result_page() -> String {
    let mut html = String::from("<html><body><ul class=\"ListAnimes\">");
    for (path, title) in [("naruto", "Naruto"), ("bleach-tv", "Bleach"), ("one-piece", "One Piece")]
    {
        html.push_str(&format!(
            "<li><article class=\"Anime\"><a href=\"/anime/{path}\"><div class=\"Image\"></div>\
             <h3 class=\"Title\">{title}</h3></a><div class=\"Description\"><p>text</p></div>\
             </article></li>"
        ));
    }
    html.push_str("</ul></body></html>");
    html
}

fn series_page() -> Fetched {
    page("<script>var anime_info = [1]; var episodes = [[2,20],[1,10]];</script>")
}

#[test]
fn search_returns_one_entry_per_block_in_document_order() {
    let entries = parse_search_page(&result_page()).unwrap();
    assert_eq!(
        entries,
        vec![
            SearchResultEntry { title: "Naruto".into(), reference: "/anime/naruto".into() },
            SearchResultEntry { title: "Bleach".into(), reference: "/anime/bleach-tv".into() },
            SearchResultEntry { title: "One Piece".into(), reference: "/anime/one-piece".into() },
        ]
    );
}

#[test]
fn search_of_a_page_without_blocks_is_empty() {
    assert_eq!(parse_search_page("<html><body><p>nothing</p></body></html>"), Ok(vec![]));
}

#[test]
fn search_fails_on_a_block_without_link() {
    let html = "<article><a href=\"/anime/a\"><h3>A</h3></a></article>\
                <article><h3>B</h3></article>";
    assert_eq!(parse_search_page(html), Err(ExtractionError::MissingField));
}

#[test]
fn search_fails_on_a_link_without_address() {
    let html = "<article><a><h3>A</h3></a></article>";
    assert_eq!(parse_search_page(html), Err(ExtractionError::MissingField));
}

#[test]
fn search_fails_on_a_block_without_heading() {
    let html = "<article><a href=\"/anime/a\">A</a></article>";
    assert_eq!(parse_search_page(html), Err(ExtractionError::MissingField));
}

#[test]
fn search_fails_on_a_heading_without_text() {
    let html = "<article><a href=\"/anime/a\"><h3></h3></a></article>";
    assert_eq!(parse_search_page(html), Err(ExtractionError::MissingField));
}

#[test]
fn search_fails_on_a_link_that_leaves_the_series_path() {
    let html = "<article><a href=\"https://elsewhere.example/x\"><h3>A</h3></a></article>";
    assert_eq!(parse_search_page(html), Err(ExtractionError::MissingField));
}

#[test]
fn search_takes_the_first_link_and_the_first_heading() {
    let html = "<article><a href=\"/anime/first\"><h3>One</h3></a>\
                <a href=\"/anime/second\"><h3>Two</h3></a></article>";
    assert_eq!(
        parse_search_page(html),
        Ok(vec![SearchResultEntry { title: "One".into(), reference: "/anime/first".into() }])
    );
}

#[test]
fn entries_with_other_selectors() {
    let html = "<div class=\"hit\"><span data-to=\"/anime/x\">go</span><h2>X</h2></div>";
    assert_eq!(
        parse_entries(html, "div.hit", "span", "data-to", "h2"),
        Ok(vec![SearchResultEntry { title: "X".into(), reference: "/anime/x".into() }])
    );
}

#[test]
fn entries_with_an_invalid_selector() {
    let html = "<article><a href=\"/anime/a\"><h3>A</h3></a></article>";
    assert_eq!(parse_entries(html, "[[", "a", "href", "h3"), Err(ExtractionError::MissingMarker));
    assert_eq!(parse_entries(html, "article", "a", "href", ">>"), Err(ExtractionError::MissingMarker));
}

#[test]
fn blocks_to_entries() {
    let good = EntryBlock {
        link: Some(Some("/anime/a".to_string())),
        heading: Some(Some("A".to_string())),
    };
    let no_link = EntryBlock { link: None, heading: Some(Some("B".to_string())) };
    let no_title = EntryBlock { link: Some(Some("/anime/c".to_string())), heading: Some(None) };
    assert_eq!(
        entries_from_blocks(&vec![good.clone()]),
        Ok(vec![SearchResultEntry { title: "A".into(), reference: "/anime/a".into() }])
    );
    assert_eq!(entries_from_blocks(&vec![]), Ok(vec![]));
    assert_eq!(
        entries_from_blocks(&vec![good.clone(), no_link]),
        Err(ExtractionError::MissingField)
    );
    assert_eq!(entries_from_blocks(&vec![no_title, good]), Err(ExtractionError::MissingField));
}

#[test]
fn select_succeeds_below_the_number_of_results_and_fails_at_it() {
    let mut flv = AnimeFlv::new();
    let entries = flv.search(&page(&result_page())).unwrap();
    assert_eq!(entries.len(), 3);
    assert_eq!(flv.result_count(), 3);
    for i in 0..3 {
        assert_eq!(flv.select(i, &series_page()), Ok(vec![2, 1]));
        assert_eq!(flv.session().unwrap().reference, entries[i].reference);
    }
    assert_eq!(flv.select(3, &series_page()), Err(Error::IndexOutOfRange));
    assert_eq!(flv.series_request(3), Err(Error::IndexOutOfRange));
    assert_eq!(
        flv.series_request(1),
        Ok("https://www3.animeflv.net/anime/bleach-tv".to_string())
    );
}

#[test]
fn select_out_of_range_changes_nothing() {
    let mut flv = AnimeFlv::new();
    flv.search(&page(&result_page())).unwrap();
    flv.select(0, &series_page()).unwrap();
    assert_eq!(flv.select(7, &series_page()), Err(Error::IndexOutOfRange));
    assert_eq!(flv.session().unwrap().reference, "/anime/naruto");
    assert_eq!(flv.session().unwrap().episode_numbers, vec![2, 1]);
}

#[test]
fn select_before_any_search_is_out_of_range() {
    let mut flv = AnimeFlv::new();
    assert_eq!(flv.select(0, &series_page()), Err(Error::IndexOutOfRange));
}

#[test]
fn a_failed_selection_leaves_no_series() {
    let mut flv = AnimeFlv::new();
    flv.search(&page(&result_page())).unwrap();
    flv.select(0, &series_page()).unwrap();
    assert_eq!(
        flv.select(1, &page("<html>no list here</html>")),
        Err(Error::Extraction(ExtractionError::MissingMarker))
    );
    assert!(flv.session().is_none());
}

#[test]
fn a_new_search_replaces_the_results_and_drops_the_series() {
    let mut flv = AnimeFlv::new();
    flv.search(&page(&result_page())).unwrap();
    flv.select(2, &series_page()).unwrap();
    let again = "<article><a href=\"/anime/other\"><h3>Other</h3></a></article>";
    assert_eq!(flv.search(&page(again)).unwrap().len(), 1);
    assert_eq!(flv.result_count(), 1);
    assert!(flv.session().is_none());
    assert_eq!(flv.select(1, &series_page()), Err(Error::IndexOutOfRange));
}

#[test]
fn a_malformed_result_page_leaves_no_results() {
    let mut flv = AnimeFlv::new();
    flv.search(&page(&result_page())).unwrap();
    assert_eq!(
        flv.search(&page("<article><h3>lonely</h3></article>")),
        Err(Error::Extraction(ExtractionError::MissingField))
    );
    assert_eq!(flv.result_count(), 0);
}

#[test]
fn a_search_that_gets_no_page_keeps_the_results() {
    let mut flv = AnimeFlv::new();
    flv.search(&page(&result_page())).unwrap();
    assert_eq!(
        flv.search(&Fetched::Failed { message: "connection refused".into() }),
        Err(Error::Network("connection refused".into()))
    );
    assert_eq!(
        flv.search(&Fetched::Response { status: 503, body: result_page() }),
        Err(Error::HttpStatus(503))
    );
    assert_eq!(flv.result_count(), 3);
}

#[test]
fn addresses_of_the_site() {
    assert_eq!(search_url("one piece"), "https://www3.animeflv.net/browse?q=one piece");
    assert_eq!(search_url(""), "https://www3.animeflv.net/browse?q=");
    assert_eq!(series_url("/anime/naruto"), "https://www3.animeflv.net/anime/naruto");
}

#[test]
fn a_client_gives_the_titles_and_the_episodes() {
    let mut flv = AnimeFlv::default();
    assert_eq!(
        Client::search_request(&flv, "bleach"),
        "https://www3.animeflv.net/browse?q=bleach"
    );
    assert_eq!(
        Client::get_animes(&mut flv, &page(&result_page())),
        Ok(vec!["Naruto".to_string(), "Bleach".to_string(), "One Piece".to_string()])
    );
    assert_eq!(
        Client::series_request(&flv, 2),
        Ok("https://www3.animeflv.net/anime/one-piece".to_string())
    );
    assert_eq!(Client::series_request(&flv, 3), Err(Error::IndexOutOfRange));
    assert_eq!(Client::select_anime(&mut flv, 2, &series_page()), Ok(vec![2, 1]));
    assert_eq!(Client::select_anime(&mut flv, 3, &series_page()), Err(Error::IndexOutOfRange));
    assert_eq!(flv.session().unwrap().reference, "/anime/one-piece");
}

#[test]
fn a_reference_is_a_series_path_with_a_harmless_name() {
    use_reference("/anime/naruto", true);
    use_reference("/anime/86-eighty-six_2.0~x%20y", true);
    use_reference("/anime/", false);
    use_reference("/anime", false);
    use_reference("/anime/a b", false);
    use_reference("/anime/a/b", false);
    use_reference("/anime/a?x=1", false);
    use_reference("/anime/a#top", false);
    use_reference("/anime/a\"b", false);
    use_reference("/anime/ñ", false);
    use_reference("/ver/naruto-1", false);
    use_reference("anime/naruto", false);
    use_reference("", false);
}

fn use_reference(href: &str, accepted: bool) {
    assert_eq!(ani_cli_es::site::check_reference(href), accepted, "{href:?}");
    let html = format!("<article><a href='{href}'><h3>T</h3></a></article>");
    let expected = if accepted {
        Ok(vec![SearchResultEntry { title: "T".into(), reference: href.into() }])
    } else {
        Err(ExtractionError::MissingField)
    };
    assert_eq!(parse_search_page(&html), expected, "{href:?}");
}
