use hanteker_bridge::message::{get_messages, Severity, TextMessage};
use hanteker_bridge::command::{DevCommand, DevError};
use hanteker_bridge::scope::{ScopeGraph, DEFAULT_SAMPLES};
use hanteker_bridge::state::Note;
use hanteker_bridge::text::{decimal_string, parse_usize};
use hanteker_bridge::usize_formatter::{validate_usize, UsizeFormatter, UsizeValidationError};

#[test]
fn no_enabled_channel_lays_out_one() {
    assert_eq!(ScopeGraph::channel_count(false, false), 1);
    assert_eq!(ScopeGraph::channel_count(true, false), 1);
    assert_eq!(ScopeGraph::channel_count(false, true), 1);
    assert_eq!(ScopeGraph::channel_count(true, true), 2);
}

#[test]
fn drawn_channels_in_order() {
    assert_eq!(ScopeGraph::drawn_channels(true, true), vec![1, 2]);
    assert_eq!(ScopeGraph::drawn_channels(false, true), vec![2]);
    assert!(ScopeGraph::drawn_channels(false, false).is_empty());
}

#[test]
fn samples_and_sectors() {
    assert_eq!(ScopeGraph::samples_per_channel(0), DEFAULT_SAMPLES);
    assert_eq!(ScopeGraph::samples_per_channel(700), 700);
    assert_eq!(ScopeGraph::sector_count(2, 1024), Some(20));
    assert_eq!(ScopeGraph::sector_count(1, 99), Some(0));
    assert_eq!(ScopeGraph::sector_count(2, usize::MAX), None);
}

#[test]
fn trace_points() {
    let capture: Vec<u8> = vec![0, 1, 2, 3, 40, 50, 60, 70, 80];
    assert_eq!(ScopeGraph::trace(&capture, 1), vec![(1, 3 - 29), (2, 50 - 29), (3, 70 - 29)]);
    assert_eq!(ScopeGraph::trace(&capture, 2), vec![(1, 40 - 29), (2, 60 - 29), (3, 80 - 29)]);
    assert!(ScopeGraph::trace(&vec![1, 2, 3], 1).is_empty());
    assert!(ScopeGraph::trace(&Vec::new(), 2).is_empty());
    assert_eq!(ScopeGraph::trace(&vec![0, 0, 0, 0, 0], 2), vec![(1, -29)]);
}

#[test]
fn parse_like_from_str() {
    assert_eq!(parse_usize("0"), Some(0));
    assert_eq!(parse_usize("+42"), Some(42));
    assert_eq!(parse_usize("007"), Some(7));
    assert_eq!(parse_usize(""), None);
    assert_eq!(parse_usize("+"), None);
    assert_eq!(parse_usize("-1"), None);
    assert_eq!(parse_usize("12a"), None);
    assert_eq!(parse_usize(" 1"), None);
    let max = usize::MAX.to_string();
    assert_eq!(parse_usize(&max), Some(usize::MAX));
    assert_eq!(parse_usize(&format!("{}0", max)), None);
    for text in ["1", "+9", "-", "99999999999999999999999", "3x", "18446744073709551615"] {
        assert_eq!(parse_usize(text), text.parse::<usize>().ok());
    }
}

#[test]
fn decimal_text() {
    assert_eq!(decimal_string(0), "0");
    assert_eq!(decimal_string(1234), "1234");
    assert_eq!(decimal_string(usize::MAX), usize::MAX.to_string());
}

#[test]
fn bounds_are_checked_low_first() {
    assert_eq!(validate_usize(5, Some(6), Some(4)), Err(UsizeValidationError::MinViolation));
    assert_eq!(validate_usize(5, Some(5), Some(4)), Err(UsizeValidationError::MaxViolation));
    assert_eq!(validate_usize(5, None, None), Ok(()));
    assert_eq!(validate_usize(5, Some(5), Some(5)), Ok(()));
}

#[test]
fn formatter_values() {
    let f = UsizeFormatter { min: Some(2), max: Some(10) };
    assert_eq!(f.value("7"), Ok(7));
    assert_eq!(f.value("1"), Err(UsizeValidationError::MinViolation));
    assert_eq!(f.value("11"), Err(UsizeValidationError::MaxViolation));
    assert_eq!(f.value("x"), Err(UsizeValidationError::BadCharacter));
    assert_eq!(f.value(""), Err(UsizeValidationError::BadCharacter));
    assert_eq!(f.validate_partial_input(""), Ok(()));
    assert_eq!(f.validate_partial_input("1"), Err(UsizeValidationError::MinViolation));
    assert_eq!(f.validate_partial_input("4"), Ok(()));
    assert_eq!(f.format(10), "10");
    assert_eq!(UsizeValidationError::BadCharacter.message(), "bad character");
    assert_eq!(UsizeValidationError::MaxViolation.message(), "value too high");
}

#[test]
fn numbered_log_newest_first() {
    assert_eq!(get_messages(&Vec::new()), "");
    assert_eq!(get_messages(&vec!["connecting".to_string()]), "0: connecting");
    let lines = vec!["a".to_string(), "b".to_string(), "c".to_string()];
    assert_eq!(get_messages(&lines), "2: c\n1: b\n0: a");
    let many: Vec<String> = (0..12).map(|i| format!("m{}", i)).collect();
    assert!(get_messages(&many).starts_with("11: m11\n10: m10\n9: m9"));
}

#[test]
fn messages_and_severity() {
    let m = TextMessage::info("hello".to_string());
    assert_eq!(m.severity, Severity::INFO);
    assert_eq!(m.msg, "hello");
    let e = TextMessage::error("bad".to_string());
    assert_eq!(e.severity, Severity::ERROR);
    assert_eq!(Severity::ERROR.label(), "ERROR");
    assert_eq!(Severity::INFO.label(), "INFO");
    assert_eq!(Note::Failed(DevError::NotConnected).severity(), Severity::ERROR);
    assert_eq!(Note::Applied(DevCommand::Connect).severity(), Severity::INFO);
}

#[test]
fn formatted_text_reads_back() {
    let f = UsizeFormatter { min: Some(3), max: Some(5000) };
    for v in [3usize, 42, 4999, 5000] {
        assert_eq!(f.value(&f.format(v)), Ok(v));
    }
    assert_eq!(f.value(&f.format(2)), Err(UsizeValidationError::MinViolation));
    assert_eq!(f.value(&f.format(5001)), Err(UsizeValidationError::MaxViolation));
    let open = UsizeFormatter { min: None, max: None };
    assert_eq!(open.value(&open.format(usize::MAX)), Ok(usize::MAX));
    assert_eq!(open.value(&open.format(0)), Ok(0));
}
