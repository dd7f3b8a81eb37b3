use log_engine::record::{format_record, Record};
use log_engine::text::{active_file_name, rotated_file_name, to_lower, u64_to_decimal};

fn record(tags: &[&str], level: &str, message: &str) -> Record {
    Record {
        tags: tags.iter().map(|t| t.to_string()).collect(),
        level: level.to_string(),
        message: message.to_string(),
        timestamp: 0,
    }
}

#[test]
fn format_joins_tags_with_colons() {
    let r = record(&["auth", "info"], "info", "user joined");
    assert_eq!(format_record(&r), "auth:info: info -> user joined\n");
}

#[test]
fn format_single_tag() {
    let r = record(&["db"], "error", "connection lost");
    assert_eq!(format_record(&r), "db: error -> connection lost\n");
}

#[test]
fn format_three_tags() {
    let r = record(&["a", "b", "c"], "warning", "m");
    assert_eq!(format_record(&r), "a:b:c: warning -> m\n");
}

#[test]
fn format_empty_message() {
    let r = record(&["sys"], "info", "");
    assert_eq!(format_record(&r), "sys: info -> \n");
}

#[test]
fn format_is_deterministic() {
    let a = record(&["auth", "info"], "info", "user joined");
    let b = record(&["auth", "info"], "info", "user joined");
    assert_eq!(format_record(&a), format_record(&b));
    assert_eq!(format_record(&a), format_record(&a));
}

#[test]
fn duplicate_preserves_every_field() {
    let r = record(&["auth", "info"], "info", "user joined");
    let c = r.duplicate();
    assert_eq!(c.tags, r.tags);
    assert_eq!(c.level, r.level);
    assert_eq!(c.message, r.message);
    assert_eq!(c.timestamp, r.timestamp);
}

#[test]
fn to_lower_maps_ascii_only() {
    assert_eq!(to_lower("ERROR"), "error");
    assert_eq!(to_lower("MiXeD"), "mixed");
    assert_eq!(to_lower("already"), "already");
    assert_eq!(to_lower(""), "");
    assert_eq!(to_lower("A1!z"), "a1!z");
}

#[test]
fn decimal_rendering() {
    assert_eq!(u64_to_decimal(0), "0");
    assert_eq!(u64_to_decimal(7), "7");
    assert_eq!(u64_to_decimal(10), "10");
    assert_eq!(u64_to_decimal(1234567890), "1234567890");
    assert_eq!(u64_to_decimal(u64::MAX), "18446744073709551615");
}

#[test]
fn file_names() {
    assert_eq!(active_file_name("log"), "log.log");
    assert_eq!(rotated_file_name("log", 1), "log.1.log");
    assert_eq!(rotated_file_name("audit", 42), "audit.42.log");
}
