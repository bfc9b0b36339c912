use ani_cli_es::animeflv::{AnimeFlv, Progress};
use ani_cli_es::client::Client;
use ani_cli_es::error::{Error, ExtractionError, ProviderError};
use ani_cli_es::fetch::Fetched;
use ani_cli_es::intercept::{SessionAction, SessionEvent};
use ani_cli_es::provider::ProviderSpec;
use ani_cli_es::resolver::{LinkResolver, ResolveAction, ResolveEvent, ResolvedLink};

const EPISODE_PAGE: &str = "https://www3.animeflv.net/ver/naruto-5";

fn page(body: &str) -> ResolveEvent {
    ResolveEvent::Page(Fetched::Response { status: 200, body: body.to_string() })
}

fn browser(e: SessionEvent) -> ResolveEvent {
    ResolveEvent::Browser(e)
}

fn fetch() -> ResolveAction {
    ResolveAction::Fetch(EPISODE_PAGE.to_string())
}

fn start(providers: Vec<ProviderSpec>) -> (LinkResolver, ResolveAction) {
    LinkResolver::start(EPISODE_PAGE.to_string(), providers, 10_000)
}

fn three() -> Vec<ProviderSpec> {
    vec![
        ProviderSpec::direct("a"),
        ProviderSpec::direct("b"),
        ProviderSpec::intercepting("c", "/hls/"),
    ]
}

const ONLY_B: &str = r#"[{"server":"b","code":"https:\/\/b.example\/e\/1"},{"server":"c","code":"https:\/\/c.example\/e\/1"}]"#;
const ONLY_C: &str = r#"[{"server":"c","code":"\/\/c.example\/e\/1"}]"#;

#[test]
fn the_first_provider_that_succeeds_ends_the_resolution() {
    let (r, first) = start(three());
    assert_eq!(first, fetch());
    assert_eq!(r.current(), 0);
    let (r, second) = r.handle(&page(ONLY_B));
    assert_eq!(second, fetch());
    assert_eq!(r.current(), 1);
    assert_eq!(r.failed(), 1);
    assert!(r.result().is_none());
    let (r, third) = r.handle(&page(ONLY_B));
    assert_eq!(third, ResolveAction::Finished);
    assert_eq!(
        r.result(),
        Some(Ok(ResolvedLink { url: "https://b.example/e/1".into(), provider: "b".into() }))
    );
    assert_eq!(r.current(), 1);
    assert_eq!(r.failed(), 1);
    let (r, after) = r.handle(&page(ONLY_C));
    assert_eq!(after, ResolveAction::Finished);
    let (r, after) = r.handle(&browser(SessionEvent::Start));
    assert_eq!(after, ResolveAction::Finished);
    assert_eq!(r.current(), 1);
    assert_eq!(
        r.result(),
        Some(Ok(ResolvedLink { url: "https://b.example/e/1".into(), provider: "b".into() }))
    );
}

#[test]
fn when_every_provider_fails_the_last_failure_is_reported() {
    let (r, _) = start(vec![ProviderSpec::direct("a"), ProviderSpec::direct("b")]);
    let (r, next) = r.handle(&page("nothing here"));
    assert_eq!(next, fetch());
    let (r, next) = r.handle(&ResolveEvent::Page(Fetched::Response {
        status: 404,
        body: ONLY_B.to_string(),
    }));
    assert_eq!(next, ResolveAction::Finished);
    assert_eq!(
        r.result(),
        Some(Err(Error::NoProviderSucceeded(Some(ProviderError::HttpStatus(404)))))
    );
    assert_eq!(r.failed(), 2);
    assert_eq!(r.current(), 1);
}

#[test]
fn without_providers_nothing_is_tried() {
    let (r, first) = start(vec![]);
    assert_eq!(first, ResolveAction::Finished);
    assert_eq!(r.result(), Some(Err(Error::NoProviderSucceeded(None))));
    let (r, again) = r.handle(&page(ONLY_B));
    assert_eq!(again, ResolveAction::Finished);
    assert_eq!(r.failed(), 0);
}

#[test]
fn each_kind_of_page_failure_is_the_providers() {
    let (r, _) = start(vec![
        ProviderSpec::direct("a"),
        ProviderSpec::direct("a"),
        ProviderSpec::direct("a"),
    ]);
    let (r, _) = r.handle(&ResolveEvent::Page(Fetched::Failed { message: "dns".into() }));
    let (r, _) = r.handle(&page(r#""server":"a","title":"A""#));
    let (r, _) = r.handle(&page(r#""server":"a","code":"https:\/\/a"#));
    assert_eq!(
        r.result(),
        Some(Err(Error::NoProviderSucceeded(Some(ProviderError::Extraction(
            ExtractionError::MissingField
        )))))
    );
    let (r, _) = start(vec![ProviderSpec::direct("a")]);
    let (r, _) = r.handle(&ResolveEvent::Page(Fetched::Failed { message: "dns".into() }));
    assert_eq!(
        r.result(),
        Some(Err(Error::NoProviderSucceeded(Some(ProviderError::Network("dns".into())))))
    );
    let (r, _) = start(vec![ProviderSpec::direct("a")]);
    let (r, _) = r.handle(&page("x"));
    assert_eq!(
        r.result(),
        Some(Err(Error::NoProviderSucceeded(Some(ProviderError::Extraction(
            ExtractionError::MissingMarker
        )))))
    );
}

#[test]
fn a_provider_that_needs_the_browser_gets_a_session() {
    let (r, _) = start(vec![ProviderSpec::intercepting("c", "/hls/"), ProviderSpec::direct("b")]);
    let (r, next) = r.handle(&page(ONLY_C));
    assert_eq!(next, ResolveAction::Browser(SessionAction::Launch));
    let (r, next) = r.handle(&page(ONLY_B));
    assert_eq!(next, ResolveAction::Ignored);
    let (r, next) = r.handle(&browser(SessionEvent::Launched));
    assert_eq!(next, ResolveAction::Browser(SessionAction::EnableCapture));
    let (r, next) = r.handle(&browser(SessionEvent::CaptureEnabled));
    assert_eq!(
        next,
        ResolveAction::Browser(SessionAction::Navigate("https://c.example/e/1".to_string()))
    );
    let (r, next) = r.handle(&browser(SessionEvent::Navigated));
    assert_eq!(next, ResolveAction::Browser(SessionAction::Wait { remaining_ms: 10_000 }));
    let (r, next) = r.handle(&browser(SessionEvent::Response {
        url: "https://c.example/player.css".into(),
        elapsed_ms: 40,
    }));
    assert_eq!(next, ResolveAction::Browser(SessionAction::Wait { remaining_ms: 9_960 }));
    let (r, next) = r.handle(&browser(SessionEvent::Response {
        url: "https://edge.example/hls/v.m3u8".into(),
        elapsed_ms: 50,
    }));
    assert_eq!(next, ResolveAction::Browser(SessionAction::Close));
    assert!(r.result().is_none());
    let (r, next) = r.handle(&browser(SessionEvent::Closed));
    assert_eq!(next, ResolveAction::Finished);
    assert_eq!(
        r.result(),
        Some(Ok(ResolvedLink { url: "https://edge.example/hls/v.m3u8".into(), provider: "c".into() }))
    );
    assert_eq!(r.failed(), 0);
}

fn failing_sessions() -> Vec<(Vec<SessionEvent>, ProviderError)> {
    vec![
        (vec![SessionEvent::LaunchError, SessionEvent::Closed], ProviderError::LaunchFailed),
        (
            vec![
                SessionEvent::Launched,
                SessionEvent::CaptureEnabled,
                SessionEvent::NavigationError,
                SessionEvent::Closed,
            ],
            ProviderError::NavigationFailed,
        ),
        (
            vec![
                SessionEvent::Launched,
                SessionEvent::CaptureEnabled,
                SessionEvent::Navigated,
                SessionEvent::Tick { elapsed_ms: 10_000 },
                SessionEvent::Closed,
            ],
            ProviderError::TimedOut,
        ),
    ]
}

#[test]
fn a_session_that_fails_makes_room_for_the_next_provider() {
    for (events, _) in failing_sessions() {
        let (r, _) = start(vec![ProviderSpec::intercepting("c", "/hls/"), ProviderSpec::direct("b")]);
        let mut last = r.handle(&page(ONLY_C));
        for e in events {
            assert!(matches!(last.1, ResolveAction::Browser(_)));
            last = last.0.handle(&browser(e));
        }
        assert_eq!(last.1, fetch());
        assert_eq!(last.0.current(), 1);
        assert_eq!(last.0.failed(), 1);
        let (r, end) = last.0.handle(&page(ONLY_B));
        assert_eq!(end, ResolveAction::Finished);
        assert_eq!(
            r.result(),
            Some(Ok(ResolvedLink { url: "https://b.example/e/1".into(), provider: "b".into() }))
        );
    }
}

#[test]
fn the_failure_of_the_last_session_fails_the_resolution() {
    for (events, failure) in failing_sessions() {
        let (r, _) = start(vec![ProviderSpec::direct("a"), ProviderSpec::intercepting("c", "/hls/")]);
        let (r, _) = r.handle(&page(ONLY_C));
        let mut last = r.handle(&page(ONLY_C));
        for e in events {
            last = last.0.handle(&browser(e));
        }
        assert_eq!(last.1, ResolveAction::Finished);
        assert_eq!(last.0.result(), Some(Err(Error::NoProviderSucceeded(Some(failure)))));
        assert_eq!(last.0.failed(), 2);
    }
}

#[test]
fn the_failure_of_the_session_is_the_one_reported() {
    let (r, _) = start(vec![ProviderSpec::direct("a"), ProviderSpec::intercepting("c", "/hls/")]);
    let (r, _) = r.handle(&page(ONLY_C));
    let mut last = r.handle(&page(ONLY_C));
    for e in [
        SessionEvent::Launched,
        SessionEvent::CaptureEnabled,
        SessionEvent::Navigated,
        SessionEvent::Response { url: "https://edge.example/hls/late".into(), elapsed_ms: 10_001 },
        SessionEvent::Closed,
    ] {
        last = last.0.handle(&browser(e));
    }
    assert_eq!(last.1, ResolveAction::Finished);
    assert_eq!(
        last.0.result(),
        Some(Err(Error::NoProviderSucceeded(Some(ProviderError::TimedOut))))
    );
    assert_eq!(last.0.failed(), 2);
}

#[test]
fn a_relative_code_is_made_absolute() {
    let (r, _) = start(vec![ProviderSpec::direct("sw")]);
    let (r, _) = r.handle(&page(r#""server":"sw","code":"\/embed\/9""#));
    assert_eq!(
        r.result(),
        Some(Ok(ResolvedLink {
            url: "https://www3.animeflv.net/embed/9".into(),
            provider: "sw".into()
        }))
    );
}

fn selected() -> AnimeFlv {
    let mut flv = AnimeFlv::new();
    let results = "<article><a href=\"/anime/naruto\"><h3>Naruto</h3></a></article>\
                   <article><a href=\"/anime/bleach\"><h3>Bleach</h3></a></article>";
    flv.search(&Fetched::Response { status: 200, body: results.into() }).unwrap();
    flv.select(0, &Fetched::Response { status: 200, body: "episodes = [[5,1]];".into() })
        .unwrap();
    flv
}

fn next(p: Progress) -> ResolveAction {
    match p {
        Progress::Next(a) => a,
        Progress::Done(r) => panic!("over: {r:?}"),
    }
}

fn done(p: Progress) -> Result<ResolvedLink, Error> {
    match p {
        Progress::Done(r) => r,
        Progress::Next(a) => panic!("not over: {a:?}"),
    }
}

#[test]
fn the_pipeline_resolves_the_link_of_an_episode() {
    let mut flv = selected();
    assert_eq!(next(flv.resolve(5, three())), fetch());
    assert_eq!(next(flv.resolve_step(&page(ONLY_B))), fetch());
    assert_eq!(
        done(flv.resolve_step(&page(ONLY_B))),
        Ok(ResolvedLink { url: "https://b.example/e/1".into(), provider: "b".into() })
    );
    assert_eq!(done(flv.resolve_step(&page(ONLY_B))), Err(Error::NoActiveSeries));
}

#[test]
fn the_pipeline_reports_the_exhaustion_of_the_providers() {
    let mut flv = selected();
    assert_eq!(next(flv.resolve(5, vec![ProviderSpec::direct("sw")])), fetch());
    assert_eq!(
        done(flv.resolve_step(&page("<html></html>"))),
        Err(Error::NoProviderSucceeded(Some(ProviderError::Extraction(
            ExtractionError::MissingMarker
        ))))
    );
    assert_eq!(done(flv.resolve(5, vec![])), Err(Error::NoProviderSucceeded(None)));
}

#[test]
fn the_pipeline_runs_the_browser_with_the_usual_time() {
    let mut flv = selected();
    flv.resolve(5, vec![ProviderSpec::intercepting("c", "/hls/")]);
    assert_eq!(next(flv.resolve_step(&page(ONLY_C))), ResolveAction::Browser(SessionAction::Launch));
    flv.resolve_step(&browser(SessionEvent::Launched));
    flv.resolve_step(&browser(SessionEvent::CaptureEnabled));
    assert_eq!(
        next(flv.resolve_step(&browser(SessionEvent::Navigated))),
        ResolveAction::Browser(SessionAction::Wait { remaining_ms: 10_000 })
    );
    let mut flv = selected();
    flv.resolve_within(5, vec![ProviderSpec::intercepting("c", "/hls/")], 250);
    flv.resolve_step(&page(ONLY_C));
    flv.resolve_step(&browser(SessionEvent::Launched));
    flv.resolve_step(&browser(SessionEvent::CaptureEnabled));
    assert_eq!(
        next(flv.resolve_step(&browser(SessionEvent::Navigated))),
        ResolveAction::Browser(SessionAction::Wait { remaining_ms: 250 })
    );
}

#[test]
fn no_link_without_a_series() {
    let mut flv = AnimeFlv::new();
    assert_eq!(done(flv.resolve(1, three())), Err(Error::NoActiveSeries));
    assert_eq!(done(flv.resolve_step(&page(ONLY_B))), Err(Error::NoActiveSeries));
}

#[test]
fn a_new_selection_ends_the_resolution_in_progress() {
    let mut flv = selected();
    assert_eq!(next(flv.resolve(5, three())), fetch());
    flv.select(1, &Fetched::Response { status: 200, body: "episodes = [[1,1]];".into() })
        .unwrap();
    assert_eq!(done(flv.resolve_step(&page(ONLY_B))), Err(Error::NoActiveSeries));
    assert_eq!(
        next(flv.resolve(1, three())),
        ResolveAction::Fetch("https://www3.animeflv.net/ver/bleach-1".to_string())
    );
}

#[test]
fn a_new_search_ends_the_resolution_in_progress() {
    let mut flv = selected();
    assert_eq!(next(flv.resolve(5, three())), fetch());
    flv.search(&Fetched::Response { status: 200, body: "<p>none</p>".into() }).unwrap();
    assert_eq!(done(flv.resolve_step(&page(ONLY_B))), Err(Error::NoActiveSeries));
    assert_eq!(done(flv.resolve(5, three())), Err(Error::NoActiveSeries));
}

#[test]
fn a_client_resolves_links() {
    let mut flv = selected();
    assert_eq!(next(Client::get_episode_link(&mut flv, 5, three())), fetch());
    assert_eq!(
        done(Client::resolve_step(&mut flv, &page(r#""server":"a","code":"x""#))),
        Ok(ResolvedLink { url: "https://www3.animeflv.net/x".into(), provider: "a".into() })
    );
    let mut fresh = AnimeFlv::new();
    assert_eq!(done(Client::get_episode_link(&mut fresh, 5, three())), Err(Error::NoActiveSeries));
}
