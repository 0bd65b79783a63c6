//! Positional association of batch-probe response lines with the requested
//! property expressions.

use itunes_interface::error::BridgeError;
use itunes_interface::response::{parse_response, split_into_lines};

#[test]
fn each_line_maps_to_the_expression_at_its_position() {
    let props = vec!["CurrentTrack.Name", "CurrentTrack.Artist"];
    let resp = parse_response("Song A\nArtist B\n", &props).unwrap();
    assert_eq!(resp.len(), 2);
    assert_eq!(resp.get("CurrentTrack.Name").unwrap(), "Song A");
    assert_eq!(resp.get("CurrentTrack.Artist").unwrap(), "Artist B");
    assert_eq!(resp.name_at(0), "CurrentTrack.Name");
    assert_eq!(resp.value_at(0), "Song A");
    assert_eq!(resp.name_at(1), "CurrentTrack.Artist");
    assert_eq!(resp.value_at(1), "Artist B");
}

#[test]
fn fewer_lines_than_expressions_fails_without_cross_wiring() {
    let props = vec!["CurrentTrack.Name", "CurrentTrack.Artist"];
    let r = parse_response("Song A\n", &props);
    assert!(matches!(r, Err(BridgeError::MisalignedResponse)));
}

#[test]
fn more_non_blank_lines_than_expressions_fails() {
    let props = vec!["CurrentTrack.Name"];
    let r = parse_response("Song A\nArtist B\n", &props);
    assert!(matches!(r, Err(BridgeError::MisalignedResponse)));
}

#[test]
fn empty_output_for_zero_expressions_is_zero_results() {
    let props: Vec<&str> = vec![];
    let resp = parse_response("", &props).unwrap();
    assert_eq!(resp.len(), 0);
    assert!(resp.get("anything").is_none());
}

#[test]
fn unknown_name_is_absent_from_the_mapping() {
    let props = vec!["CurrentTrack.Name"];
    let resp = parse_response("Song A\n", &props).unwrap();
    assert!(resp.get("CurrentTrack.Artist").is_none());
}

#[test]
fn trailing_blank_lines_beyond_the_expected_count_are_ignored() {
    let props = vec!["A", "B"];
    let resp = parse_response("one\ntwo\n\n\n", &props).unwrap();
    assert_eq!(resp.len(), 2);
    assert_eq!(resp.get("A").unwrap(), "one");
    assert_eq!(resp.get("B").unwrap(), "two");
}

#[test]
fn a_blank_line_within_the_expected_count_is_an_empty_value() {
    let props = vec!["A", "B"];
    let resp = parse_response("one\n\n", &props).unwrap();
    assert_eq!(resp.get("A").unwrap(), "one");
    assert_eq!(resp.get("B").unwrap(), "");
}

#[test]
fn carriage_returns_are_discarded_with_the_line_terminators() {
    let props = vec!["A", "B"];
    let resp = parse_response("one\r\ntwo\r\n", &props).unwrap();
    assert_eq!(resp.get("A").unwrap(), "one");
    assert_eq!(resp.get("B").unwrap(), "two");
}

#[test]
fn duplicate_names_resolve_to_the_first_position() {
    let props = vec!["A", "A"];
    let resp = parse_response("one\ntwo\n", &props).unwrap();
    assert_eq!(resp.get("A").unwrap(), "one");
    assert_eq!(resp.value_at(1), "two");
}

#[test]
fn split_discards_terminators_and_keeps_interior_blanks() {
    let lines = split_into_lines("a\n\nb");
    assert_eq!(lines, vec!["a".to_string(), "".to_string(), "b".to_string()]);
    assert_eq!(split_into_lines(""), Vec::<String>::new());
    assert_eq!(split_into_lines("\n"), vec!["".to_string()]);
    assert_eq!(split_into_lines("a\r\nb"), vec!["a".to_string(), "b".to_string()]);
}
