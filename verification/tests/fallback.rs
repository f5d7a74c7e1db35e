use serde_json::Value;
use welog_rs::ecs::insert_nested_if_absent;
use welog_rs::fallback::{
    build_fallback_bytes, drop_oldest_lines, fallback_line, plan_fallback, trim_oldest_lines,
    write_fallback, FallbackPlan, InvalidData, Trimmer, FALLBACK_MAX_BYTES,
};
use welog_rs::json::LogFields;

fn text(s: &str) -> Value {
    Value::String(s.to_string())
}

fn message(s: &str) -> LogFields {
    let mut fields = LogFields::new();
    fields.insert("message".to_string(), text(s));
    fields
}

fn written(mut file: Option<Vec<u8>>, line: &[u8], max: u64) -> Option<Vec<u8>> {
    write_fallback(&mut file, line, max).unwrap();
    file
}

#[test]
fn build_fallback_bytes_appends_newline_and_hook_error() {
    let bytes = build_fallback_bytes(&message("ok"), Some("boom"));

    let as_str = String::from_utf8(bytes.clone()).unwrap();
    assert!(as_str.ends_with('\n'));

    let parsed: Value = serde_json::from_slice(&bytes).unwrap();
    let obj = parsed.as_object().unwrap();
    assert_eq!(obj.get("message"), Some(&text("ok")));
    assert_eq!(obj.get("hook_error"), Some(&text("boom")));
}

#[test]
fn coverage_build_fallback_without_hook_error() {
    let fields = message("ok");
    let bytes = build_fallback_bytes(&fields, None);
    assert_eq!(bytes, b"{\"message\":\"ok\"}\n");
}

#[test]
fn coverage_touch_insert_nested_if_absent_empty() {
    let mut map = LogFields::new();
    insert_nested_if_absent(&mut map, &[], text("ignored"));
    assert!(map.is_empty());
}

#[test]
fn the_error_takes_the_place_of_a_field_of_its_name() {
    let mut fields = message("ok");
    fields.insert("hook_error".to_string(), text("mine"));
    let bytes = build_fallback_bytes(&fields, Some("boom"));
    let parsed: Value = serde_json::from_slice(&bytes).unwrap();
    assert_eq!(parsed["hook_error"], "boom");
    assert_eq!(fields["hook_error"], "mine");
}

#[test]
fn a_fallback_line_is_one_line() {
    let bytes = build_fallback_bytes(&message("two\nlines"), Some("bo\nom"));
    assert_eq!(bytes.iter().filter(|b| **b == b'\n').count(), 1);
    let parsed: Value = serde_json::from_slice(&bytes).unwrap();
    assert_eq!(parsed["message"], "two\nlines");
}

#[test]
fn mod_fallback_serialization_error_returns_empty_bytes() {
    assert!(fallback_line(None).is_empty());
}

#[test]
fn logger_fallback_fallback_serialization_error_returns_empty_bytes() {
    let bytes = fallback_line(None);
    assert!(bytes.is_empty());
    assert_eq!(written(None, &bytes, FALLBACK_MAX_BYTES), None);
}

#[test]
fn a_line_gets_one_line_feed() {
    assert_eq!(fallback_line(Some(b"{}".to_vec())), b"{}\n");
    assert_eq!(fallback_line(Some(b"{}\n".to_vec())), b"{}\n");
    assert_eq!(fallback_line(Some(Vec::new())), b"\n");
}

#[test]
fn trim_oldest_lines_removes_prefix_lines() {
    assert_eq!(trim_oldest_lines(b"line1\nline2\nline3\n", 7).unwrap(), b"line2\nline3\n");
}

#[test]
fn trimming_stops_at_the_line_that_suffices() {
    let content = b"line1\nline2\nline3\n";
    assert_eq!(trim_oldest_lines(content, 0).unwrap(), content);
    assert_eq!(trim_oldest_lines(content, 6).unwrap(), content);
    assert_eq!(trim_oldest_lines(content, 12).unwrap(), b"line2\nline3\n");
    assert_eq!(trim_oldest_lines(content, 13).unwrap(), b"line3\n");
    assert_eq!(trim_oldest_lines(content, 18).unwrap(), b"line3\n");
    assert_eq!(trim_oldest_lines(content, 19).unwrap(), b"");
    assert_eq!(trim_oldest_lines(b"", 5).unwrap(), b"");
    assert_eq!(trim_oldest_lines(b"a\nbc", 3).unwrap(), b"bc");
}

#[test]
fn making_room_drops_the_line_that_suffices_too() {
    let content = b"line1\nline2\nline3\n";
    assert_eq!(drop_oldest_lines(content, 0).unwrap(), content);
    assert_eq!(drop_oldest_lines(content, 1).unwrap(), b"line2\nline3\n");
    assert_eq!(drop_oldest_lines(content, 6).unwrap(), b"line2\nline3\n");
    assert_eq!(drop_oldest_lines(content, 7).unwrap(), b"line3\n");
    assert_eq!(drop_oldest_lines(content, 13).unwrap(), b"");
    assert_eq!(drop_oldest_lines(content, 100).unwrap(), b"");
    assert_eq!(drop_oldest_lines(b"", 5).unwrap(), b"");
    assert_eq!(drop_oldest_lines("caf\u{e9}\n\u{e9}".as_bytes(), 3).unwrap(), "\u{e9}".as_bytes());
}

#[test]
fn making_room_drops_one_line_more_than_trimming() {
    let content = b"one\n\nthree\nend";
    for free in 1..=content.len() as u64 {
        let trimmed = trim_oldest_lines(content, free).unwrap();
        let first = trimmed.iter().position(|b| *b == b'\n').map_or(trimmed.len(), |at| at + 1);
        assert_eq!(drop_oldest_lines(content, free).unwrap(), trimmed[first..]);
    }
}

#[test]
fn making_room_line_by_line_keeps_the_same() {
    let lines: [&[u8]; 4] = [b"one\n", b"\n", b"three\n", b"end"];
    for free in 0..20 {
        let mut trimmer = Trimmer::new(free);
        let mut kept = Vec::new();
        for line in lines {
            if trimmer.keep_line(line.len() as u64) {
                kept.extend_from_slice(line);
            }
        }
        assert_eq!(kept, drop_oldest_lines(&lines.concat(), free).unwrap());
    }
}

#[test]
fn write_fallback_persists_line() {
    let line = build_fallback_bytes(&message("ok"), Some("boom"));
    let file = written(Some(Vec::new()), &line, FALLBACK_MAX_BYTES).unwrap();

    let contents = String::from_utf8(file).unwrap();
    assert!(contents.contains("\"message\":\"ok\""));
    assert!(contents.contains("\"hook_error\":\"boom\""));
    assert!(contents.ends_with('\n'));
}

#[test]
fn write_fallback_creates_missing_file() {
    let line = build_fallback_bytes(&message("ok"), None);
    assert!(written(None, &line, FALLBACK_MAX_BYTES).is_some());
}

#[test]
fn write_fallback_skips_when_log_too_large() {
    let line = build_fallback_bytes(&message("this is big"), None);
    assert_eq!(written(None, &line, 10), None);
}

#[test]
fn write_fallback_trims_when_over_capacity() {
    let line = build_fallback_bytes(&message("ok"), None);
    let file = written(Some(b"line1\nline2\nline3\n".to_vec()), &line, 25).unwrap();

    let contents = String::from_utf8(file).unwrap();
    assert!(!contents.starts_with("line1"));
    assert_eq!(contents, "line3\n{\"message\":\"ok\"}\n");
}

#[test]
fn write_fallback_skips_when_serialization_fails() {
    assert_eq!(written(None, &fallback_line(None), FALLBACK_MAX_BYTES), None);
}

#[test]
fn fallback_trims_oldest_lines() {
    let mut content = Vec::new();
    for _ in 0..40 {
        content.extend_from_slice("a".repeat(30).as_bytes());
        content.push(b'\n');
    }
    let line = build_fallback_bytes(&message("new"), None);
    for (max, lines) in [(1258, 40), (1257, 39), (1227, 39), (1200, 38), (18, 0)] {
        let file = written(Some(content.clone()), &line, max).unwrap();
        assert_eq!(file.len() as u64, lines * 31 + 18);
        assert!(file.len() as u64 <= max);
        assert_eq!(file, [&content[(40 - lines as usize) * 31..], line.as_slice()].concat());
    }
}

#[test]
fn the_plan_says_how_much_to_free() {
    assert_eq!(plan_fallback(0, 5, 10), FallbackPlan::Skip);
    assert_eq!(plan_fallback(11, 0, 10), FallbackPlan::Skip);
    assert_eq!(plan_fallback(10, 0, 10), FallbackPlan::Append);
    assert_eq!(plan_fallback(4, 6, 10), FallbackPlan::Append);
    assert_eq!(plan_fallback(5, 6, 10), FallbackPlan::TrimThenAppend(1));
}

#[test]
fn the_file_holds_the_newest_lines_in_order() {
    let max = 100;
    let mut file = None;
    let mut all = Vec::new();
    for n in 0..50 {
        let line = build_fallback_bytes(&message(&"x".repeat(n)), None);
        file = written(file, &line, max);
        if line.len() as u64 <= max {
            all.extend_from_slice(&line);
        }
        let content = file.clone().unwrap();
        assert!(all.ends_with(&content));
        let start = all.len() - content.len();
        assert!(start == 0 || all[start - 1] == b'\n');
        assert!(content.len() as u64 <= max);
    }
}

#[test]
fn a_file_that_is_too_large_is_brought_back_to_its_limit() {
    let old = b"line1\nline2\nline3\n".to_vec();
    assert_eq!(written(Some(old.clone()), b"new\n", 10).unwrap(), b"line3\nnew\n");
    assert_eq!(written(Some(old.clone()), b"new\n", 9).unwrap(), b"new\n");
    assert_eq!(written(Some(old.clone()), b"new\n", 4).unwrap(), b"new\n");
    assert_eq!(written(Some(old.clone()), b"new\n", 3).unwrap(), old);
}

#[test]
fn content_that_is_not_text_is_an_error() {
    let content = b"ok\n\xff\n";
    for free in [0, 1, 4, 100] {
        assert_eq!(trim_oldest_lines(content, free), Err(InvalidData));
        assert_eq!(drop_oldest_lines(content, free), Err(InvalidData));
    }
    let mut file = Some(content.to_vec());
    assert_eq!(write_fallback(&mut file, b"new\n", 8), Err(InvalidData));
    assert_eq!(file.as_deref(), Some(content.as_slice()));
    assert_eq!(write_fallback(&mut file, b"new\n", 3), Ok(()));
    assert_eq!(file.as_deref(), Some(content.as_slice()));
    assert_eq!(write_fallback(&mut file, b"new\n", 9), Ok(()));
    assert_eq!(file.as_deref(), Some(b"ok\n\xff\nnew\n".as_slice()));
}
