use update_agent::codec::{drain, encode_entry, parse_line};
use update_agent::record::{check_message, check_timestamp, LogRecord};

fn rec(t: &str, m: &str) -> LogRecord {
    LogRecord { created_at: t.to_string(), message: m.to_string() }
}

#[test]
fn encode_entry_renders_one_terminated_line() {
    let line = encode_entry(&rec("2024-01-01 12:00:00 UTC", "service started"));
    assert_eq!(line, "2024-01-01 12:00:00 UTC: service started\n");
}

#[test]
fn round_trip_single_entry() {
    let r = rec("2024-01-01 12:00:00 UTC", "hello");
    let content = encode_entry(&r);
    let drained = drain(&content);
    assert_eq!(drained, vec![r]);
}

#[test]
fn round_trip_message_containing_delimiter() {
    let r = rec("2024-01-01 12:00:00 UTC", "error: disk full: retrying");
    let content = encode_entry(&r);
    let drained = drain(&content);
    assert_eq!(drained, vec![r]);
}

#[test]
fn round_trip_empty_message() {
    let r = rec("2024-01-01 12:00:00 UTC", "");
    let content = encode_entry(&r);
    let drained = drain(&content);
    assert_eq!(drained, vec![r]);
}

#[test]
fn drain_of_empty_content_is_empty() {
    assert_eq!(drain(""), vec![]);
}

#[test]
fn drain_preserves_insertion_order() {
    let a = rec("t1", "first");
    let b = rec("t2", "second");
    let c = rec("t3", "third");
    let mut content = String::new();
    content.push_str(&encode_entry(&a));
    content.push_str(&encode_entry(&b));
    content.push_str(&encode_entry(&c));
    assert_eq!(drain(&content), vec![a, b, c]);
}

#[test]
fn drain_skips_lines_without_delimiter() {
    let content = "garbage\nt1: kept\nalso-no-delimiter\n";
    assert_eq!(drain(content), vec![rec("t1", "kept")]);
}

#[test]
fn drain_parses_unterminated_final_line() {
    let content = "t1: kept";
    assert_eq!(drain(content), vec![rec("t1", "kept")]);
}

#[test]
fn parse_line_splits_at_first_delimiter() {
    let r = parse_line("a: b: c").unwrap();
    assert_eq!(r, rec("a", "b: c"));
}

#[test]
fn parse_line_without_delimiter_is_none() {
    assert!(parse_line("no delimiter here").is_none());
    assert!(parse_line("colon:without-space").is_none());
    assert!(parse_line("").is_none());
}

#[test]
fn parse_line_allows_empty_parts() {
    assert_eq!(parse_line("t1: ").unwrap(), rec("t1", ""));
    assert_eq!(parse_line(": m").unwrap(), rec("", "m"));
}

#[test]
fn check_timestamp_accepts_clock_formats() {
    assert!(check_timestamp("2024-01-01 12:00:00.123456 UTC"));
    assert!(check_timestamp("2024-01-01T12:00:00Z"));
}

#[test]
fn check_timestamp_rejects_delimiter_and_newline() {
    assert!(!check_timestamp("12: 00"));
    assert!(!check_timestamp("two\nlines"));
}

#[test]
fn check_message_rejects_only_newlines() {
    assert!(check_message("error: disk full"));
    assert!(!check_message("two\nlines"));
}
