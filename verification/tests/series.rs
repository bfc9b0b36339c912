use ani_cli_es::error::{Error, ExtractionError};
use ani_cli_es::number::parse_decimal;
use ani_cli_es::series::{parse_episode_list, parse_episodes};

fn chars(s: &str) -> Vec<char> {
    s.chars().collect()
}

#[test]
fn episodes_keep_the_order_of_the_page() {
    assert_eq!(parse_episodes("episodes = [[5,101],[4,100],[3,99]];"), Ok(vec![5, 4, 3]));
}

#[test]
fn episodes_are_not_sorted() {
    assert_eq!(parse_episodes("var episodes = [[2,7],[9,8],[1,9]];"), Ok(vec![2, 9, 1]));
}

#[test]
fn a_malformed_pair_is_skipped() {
    assert_eq!(parse_episodes("episodes = [[x,101],[4,100]];"), Ok(vec![4]));
}

#[test]
fn a_page_without_the_marker_is_not_found() {
    let r = parse_episodes("<html>var anime_info = [1,2];</html>");
    assert_eq!(r, Err(ExtractionError::MissingMarker));
    assert!(Error::Extraction(r.unwrap_err()).is_not_found());
}

#[test]
fn a_list_without_end_is_malformed() {
    assert_eq!(parse_episodes("var episodes = [[1,2],[3,4]]"), Err(ExtractionError::MalformedList));
    assert!(!Error::Extraction(ExtractionError::MalformedList).is_not_found());
}

#[test]
fn the_first_marker_and_the_first_terminator_bound_the_list() {
    let page = "a; var episodes = [[12,1]]; var episodes = [[13,1]];";
    assert_eq!(parse_episodes(page), Ok(vec![12]));
}

#[test]
fn an_empty_list_has_no_episodes() {
    assert_eq!(parse_episodes("episodes = [];"), Ok(vec![]));
    assert_eq!(parse_episodes("episodes = ;"), Ok(vec![]));
}

#[test]
fn episode_list_edge_cases() {
    assert_eq!(parse_episode_list(&chars("[[7,1]]")), vec![7]);
    assert_eq!(parse_episode_list(&chars("[[7]]")), vec![7]);
    assert_eq!(parse_episode_list(&chars("[[-3,1],[+4,2],[005,3]]")), vec![-3, 4, 5]);
    assert_eq!(parse_episode_list(&chars("[[ 3,1],[4 ,2],[5,3]]")), vec![5]);
    assert_eq!(parse_episode_list(&chars("[[1,2],[,3],[4,5]]")), vec![1, 4]);
    assert_eq!(parse_episode_list(&chars("[[2147483647,0],[2147483648,0],[-2147483648,0]]")),
        vec![2147483647, -2147483648]);
    assert_eq!(parse_episode_list(&chars("[[]]")), Vec::<i32>::new());
    assert_eq!(parse_episode_list(&chars("")), Vec::<i32>::new());
    assert_eq!(parse_episode_list(&chars("1,2],[3,4")), vec![1, 3]);
}

#[test]
fn decimal_reading() {
    assert_eq!(parse_decimal(&chars("0")), Some(0));
    assert_eq!(parse_decimal(&chars("42")), Some(42));
    assert_eq!(parse_decimal(&chars("-42")), Some(-42));
    assert_eq!(parse_decimal(&chars("+42")), Some(42));
    assert_eq!(parse_decimal(&chars("-0")), Some(0));
    assert_eq!(parse_decimal(&chars("")), None);
    assert_eq!(parse_decimal(&chars("-")), None);
    assert_eq!(parse_decimal(&chars("+")), None);
    assert_eq!(parse_decimal(&chars("4x")), None);
    assert_eq!(parse_decimal(&chars("--4")), None);
    assert_eq!(parse_decimal(&chars("99999999999999999999999")), None);
    assert_eq!(parse_decimal(&chars("00000000000000000000007")), Some(7));
    assert_eq!(parse_decimal(&chars("2147483647")), Some(i32::MAX));
    assert_eq!(parse_decimal(&chars("2147483648")), None);
    assert_eq!(parse_decimal(&chars("-2147483648")), Some(i32::MIN));
    assert_eq!(parse_decimal(&chars("-2147483649")), None);
}

#[test]
fn decimal_reading_agrees_with_the_standard_parser() {
    for text in ["7", "-7", "+7", "", " 7", "7 ", "1_000", "0x10", "٣", "12345678901", "-0012"] {
        assert_eq!(parse_decimal(&chars(text)), text.parse::<i32>().ok(), "{text:?}");
    }
}
