use ani_cli_es::frontend::{Frontend, Launch};
use ani_cli_es::input::Input;
use ani_cli_es::key::Key;
use ani_cli_es::layout::{popup_area, Area};
use ani_cli_es::list::{OptionsList, SEARCH_BUFFER_RESET_MS};
use ani_cli_es::logging::format_log_line;
use ani_cli_es::number::{push_decimal, push_natural};
use ani_cli_es::server::{Server, Servers};

fn typed(text: &str) -> Input {
    let mut input = Input::default();
    for c in text.chars() {
        input.handle_key_event(Key::Char(c));
    }
    input
}

fn list(options: &[&str]) -> OptionsList {
    let mut l = OptionsList::default();
    l.set_contents(options.iter().map(|s| s.to_string()).collect());
    l
}

#[test]
fn an_input_starts_empty_and_in_focus() {
    let input = Input::default();
    assert_eq!(input.content(), "");
    assert_eq!(input.cursor(), 0);
    assert!(input.is_focused());
    assert_eq!(input.render_content(), "_");
}

#[test]
fn characters_go_in_at_the_cursor() {
    let mut input = typed("nruto");
    assert_eq!(input.content(), "nruto");
    assert_eq!(input.cursor(), 5);
    for _ in 0..4 {
        input.handle_key_event(Key::Left);
    }
    input.handle_key_event(Key::Char('a'));
    assert_eq!(input.content(), "naruto");
    assert_eq!(input.cursor(), 2);
}

#[test]
fn the_cursor_stays_in_the_text() {
    let mut input = typed("ab");
    input.handle_key_event(Key::Right);
    assert_eq!(input.cursor(), 2);
    input.handle_key_event(Key::Left);
    input.handle_key_event(Key::Left);
    input.handle_key_event(Key::Left);
    assert_eq!(input.cursor(), 0);
    input.handle_key_event(Key::Backspace);
    assert_eq!(input.content(), "ab");
    input.handle_key_event(Key::Right);
    assert_eq!(input.cursor(), 1);
}

#[test]
fn backspace_takes_out_the_character_before_the_cursor() {
    let mut input = typed("abc");
    input.handle_key_event(Key::Left);
    input.handle_key_event(Key::Backspace);
    assert_eq!(input.content(), "ac");
    assert_eq!(input.cursor(), 1);
    input.handle_key_event(Key::Backspace);
    assert_eq!(input.content(), "c");
    assert_eq!(input.cursor(), 0);
}

#[test]
fn other_keys_leave_the_input_alone() {
    let mut input = typed("ab");
    for key in [Key::Up, Key::Down, Key::Tab, Key::BackTab, Key::Enter, Key::Esc, Key::Other] {
        input.handle_key_event(key);
    }
    assert_eq!(input.content(), "ab");
    assert_eq!(input.cursor(), 2);
}

#[test]
fn the_input_shows_its_cursor() {
    let mut input = typed("abc");
    assert_eq!(input.render_content(), "abc_");
    input.handle_key_event(Key::Left);
    assert_eq!(input.render_content(), "ab\x1b[4mc\x1b[0m\u{a0}");
    input.handle_key_event(Key::Left);
    input.handle_key_event(Key::Left);
    assert_eq!(input.render_content(), "\x1b[4ma\x1b[0mbc\u{a0}");
}

#[test]
fn focus_and_clear_of_the_input() {
    let mut input = typed("abc");
    input.defocus();
    assert!(!input.is_focused());
    assert_eq!(input.content(), "abc");
    input.clear();
    assert_eq!(input.content(), "");
    assert_eq!(input.cursor(), 0);
    assert!(!input.is_focused());
    input.focus();
    assert!(input.is_focused());
}

#[test]
fn a_list_starts_empty() {
    let l = OptionsList::default();
    assert_eq!(l.len(), 0);
    assert_eq!(l.current(), None);
    assert_eq!(l.current_value(), None);
    assert!(!l.is_focused());
    assert_eq!(l.line(0), None);
}

#[test]
fn new_options_select_the_first() {
    let mut l = list(&["a", "b", "c"]);
    assert_eq!(l.len(), 3);
    assert_eq!(l.current(), Some(0));
    assert_eq!(l.current_value(), Some("a"));
    assert_eq!(l.line(2), Some("c"));
    assert_eq!(l.line(3), None);
    l.handle_key_event(Key::Down, 0);
    assert_eq!(l.current(), Some(1));
    l.set_contents(vec!["x".to_string()]);
    assert_eq!(l.current(), Some(0));
    l.set_contents(vec![]);
    assert_eq!(l.current(), None);
}

#[test]
fn the_selection_stops_at_both_ends() {
    let mut l = list(&["a", "b", "c"]);
    l.handle_key_event(Key::Up, 0);
    assert_eq!(l.current(), Some(0));
    l.handle_key_event(Key::Down, 0);
    l.handle_key_event(Key::Down, 0);
    assert_eq!(l.current_value(), Some("c"));
    l.handle_key_event(Key::Down, 0);
    assert_eq!(l.current(), Some(2));
    l.handle_key_event(Key::Up, 0);
    assert_eq!(l.current(), Some(1));
}

#[test]
fn arrows_in_an_empty_list_select_nothing() {
    let mut l = OptionsList::default();
    l.handle_key_event(Key::Down, 0);
    assert_eq!(l.current(), None);
    l.handle_key_event(Key::Up, 0);
    assert_eq!(l.current(), None);
}

#[test]
fn typing_selects_the_first_option_that_contains_it() {
    let mut l = list(&["Naruto", "Boruto", "Bleach", "One Piece"]);
    l.handle_key_event(Key::Char('b'), 1_000);
    assert_eq!(l.current_value(), Some("Boruto"));
    assert_eq!(l.search_buffer(), "b");
    l.handle_key_event(Key::Char('L'), 100);
    assert_eq!(l.current_value(), Some("Bleach"));
    assert_eq!(l.search_buffer(), "bL");
    l.handle_key_event(Key::Char('z'), 100);
    assert_eq!(l.current_value(), Some("Bleach"));
    assert_eq!(l.search_buffer(), "bLz");
}

#[test]
fn what_was_typed_is_forgotten_after_a_pause() {
    assert_eq!(SEARCH_BUFFER_RESET_MS, 700);
    let mut l = list(&["Naruto", "Boruto", "One Piece"]);
    l.handle_key_event(Key::Char('b'), 0);
    l.handle_key_event(Key::Char('o'), 699);
    assert_eq!(l.search_buffer(), "bo");
    l.handle_key_event(Key::Char('o'), 700);
    assert_eq!(l.search_buffer(), "o");
    assert_eq!(l.current_value(), Some("Naruto"));
}

#[test]
fn moving_forgets_what_was_typed() {
    let mut l = list(&["Naruto", "Boruto"]);
    l.handle_key_event(Key::Char('b'), 0);
    l.handle_key_event(Key::Up, 0);
    assert_eq!(l.search_buffer(), "");
    assert_eq!(l.current(), Some(0));
    l.handle_key_event(Key::Char('o'), 0);
    l.handle_key_event(Key::Down, 0);
    assert_eq!(l.search_buffer(), "");
    l.handle_key_event(Key::Char('o'), 0);
    l.handle_key_event(Key::Enter, 0);
    assert_eq!(l.search_buffer(), "o");
    l.focus();
    assert!(l.is_focused());
    l.defocus();
    assert!(!l.is_focused());
}

#[test]
fn the_only_site_is_its_own_neighbour() {
    let mut s = Servers::default();
    assert_eq!(s.current_server, Server::AnimeFlv);
    assert_eq!(Server::default(), Server::AnimeFlv);
    assert!(!s.focus);
    assert_eq!(s.handle_key_event(Key::Right), Some(Server::AnimeFlv));
    assert_eq!(s.handle_key_event(Key::Left), Some(Server::AnimeFlv));
    assert_eq!(s.handle_key_event(Key::Enter), None);
    s.focus();
    assert!(s.focus);
    s.defocus();
    assert!(!s.focus);
    assert_eq!(Servers::generate_current_client(&Server::AnimeFlv).result_count(), 0);
}

#[test]
fn how_each_frontend_is_started() {
    let link = "https://a.b/x";
    assert_eq!(Frontend::DefaultBrowser.launch(link), Launch::Open { target: link.into() });
    assert_eq!(
        Frontend::Brave.launch(link),
        Launch::OpenWith { application: "brave".into(), target: link.into() }
    );
    assert_eq!(
        Frontend::Mpv.launch(link),
        Launch::Spawn {
            program: "mpv".into(),
            arguments: vec!["--really-quiet".into(), "--fullscreen".into(), link.into()],
        }
    );
}

#[test]
fn the_popup_is_half_the_area_and_in_its_middle() {
    let area = Area { x: 0, y: 0, width: 80, height: 24 };
    assert_eq!(popup_area(area), Area { x: 20, y: 6, width: 40, height: 12 });
    let odd = Area { x: 3, y: 5, width: 81, height: 25 };
    assert_eq!(popup_area(odd), Area { x: 23, y: 11, width: 40, height: 12 });
    let none = Area { x: 7, y: 9, width: 0, height: 1 };
    assert_eq!(popup_area(none), Area { x: 7, y: 9, width: 0, height: 0 });
    let whole = Area { x: 0, y: 0, width: u16::MAX, height: u16::MAX };
    assert_eq!(popup_area(whole), Area { x: 16384, y: 16384, width: 32767, height: 32767 });
}

#[test]
fn a_line_of_the_log() {
    assert_eq!(
        format_log_line("2024-05-01 10:00:00.123", "mpv", "stderr", "no such file\n"),
        "[2024-05-01 10:00:00.123] [mpv] [stderr] no such file\n"
    );
    assert_eq!(format_log_line("", "", "", ""), "[] [] [] ");
}

#[test]
fn decimal_writing() {
    for n in [0, 7, 10, 42, i32::MAX, -1, -10, i32::MIN] {
        let mut out = vec!['#'];
        push_decimal(&mut out, n);
        assert_eq!(out.into_iter().collect::<String>(), format!("#{n}"));
    }
    for n in [0u64, 9, 10, 1234567890123, u64::MAX] {
        let mut out = Vec::new();
        push_natural(&mut out, n);
        assert_eq!(out.into_iter().collect::<String>(), format!("{n}"));
    }
}
