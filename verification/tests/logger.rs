use chrono::{Duration as ChronoDuration, Local, SecondsFormat, TimeZone};
use serde_json::Value;
use welog_rs::clock::UtcInstant;
use welog_rs::ecs::{enrich_with_ecs, enrich_with_ecs_at, field_as_string, insert_nested_if_absent};
use welog_rs::elastic::ElasticReply;
use welog_rs::fallback::fallback_line;
use welog_rs::json::LogFields;
use welog_rs::logger::{finish_delivery, Logger};
use welog_rs::queue::{Drops, Notice, Offer};

const NOW: UtcInstant = UtcInstant { secs: 1_704_164_645, nanos: 7 };

fn text(s: &str) -> Value {
    Value::String(s.to_string())
}

fn logger() -> Logger {
    Logger::new_from_env(&[])
}

fn build_fields() -> LogFields {
    let mut fields = LogFields::new();
    let texts = [
        ("requestTimestamp", "2026-02-03T00:00:00Z"),
        ("responseTimestamp", "2026-02-03T00:00:01Z"),
        ("requestId", "req-1"),
        ("requestMethod", "GET"),
        ("requestContentType", "text/plain"),
        ("requestBodyString", "body"),
        ("requestProtocol", "HTTP/1.1"),
        ("requestUrl", "/"),
        ("requestHostName", "example.com"),
        ("requestIp", "203.0.113.5"),
        ("requestAgent", "agent"),
        ("responseBodyString", "ok"),
        ("responseUser", "user"),
    ];
    for (key, value) in texts {
        fields.insert(key.to_string(), text(value));
    }
    fields.insert("requestHeader".to_string(), Value::Object(LogFields::new()));
    fields.insert("responseStatus".to_string(), Value::Number(200.into()));
    fields.insert("responseHeader".to_string(), Value::Object(LogFields::new()));
    fields
}

#[test]
fn insert_nested_if_absent_handles_empty_and_non_object() {
    let mut map = LogFields::new();
    insert_nested_if_absent(&mut map, &[], text("ignored"));
    assert!(map.is_empty());

    map.insert("http".to_string(), text("oops"));
    insert_nested_if_absent(&mut map, &["http", "request"], text("ok"));
    assert!(map.get("http").unwrap().is_object());
    assert_eq!(map["http"]["request"], "ok");
}

#[test]
fn insert_nested_if_absent_keeps_what_is_there() {
    let mut map = LogFields::new();
    insert_nested_if_absent(&mut map, &["a", "b", "c"], text("first"));
    insert_nested_if_absent(&mut map, &["a", "b", "c"], text("second"));
    insert_nested_if_absent(&mut map, &["a", "b", "d"], text("third"));
    insert_nested_if_absent(&mut map, &["a"], text("fourth"));
    assert_eq!(map["a"]["b"]["c"], "first");
    assert_eq!(map["a"]["b"]["d"], "third");
    assert_eq!(map.len(), 1);
}

#[test]
fn log_sends_fields_through_channel() {
    let (sender, receiver) = std::sync::mpsc::sync_channel(1);
    let mut fields = LogFields::new();
    fields.insert("hello".to_string(), text("world"));

    sender.send(logger().log(fields).record).unwrap();

    let received = receiver.recv().expect("expected log to be sent");
    assert_eq!(received.get("hello"), Some(&text("world")));
    assert!(received.get("@timestamp").is_some());

    let ecs_version = received
        .get("ecs")
        .and_then(|v| v.as_object())
        .and_then(|obj| obj.get("version"))
        .and_then(|v| v.as_str());
    assert_eq!(ecs_version, Some("9.2.0"));

    let log_level = received
        .get("log")
        .and_then(|v| v.as_object())
        .and_then(|obj| obj.get("level"))
        .and_then(|v| v.as_str());
    assert_eq!(log_level, Some("info"));

    let event_dataset = received
        .get("event")
        .and_then(|v| v.as_object())
        .and_then(|obj| obj.get("dataset"))
        .and_then(|v| v.as_str());
    assert_eq!(event_dataset, Some("welog"));
}

#[test]
fn log_enriches_duration_and_labels() {
    let start = Local.with_ymd_and_hms(2024, 1, 1, 0, 0, 0).single().unwrap();
    let end = start + ChronoDuration::milliseconds(10);

    let mut fields = LogFields::new();
    fields.insert(
        "requestTimestamp".to_string(),
        text(&start.to_rfc3339_opts(SecondsFormat::Nanos, true)),
    );
    fields.insert(
        "responseTimestamp".to_string(),
        text(&end.to_rfc3339_opts(SecondsFormat::Nanos, true)),
    );
    fields.insert("requestId".to_string(), text("req-abc"));

    let received = logger().log(fields).record;
    assert_eq!(
        received
            .get("event")
            .and_then(|v| v.as_object())
            .and_then(|obj| obj.get("duration"))
            .and_then(|v| v.as_u64()),
        Some(10_000_000)
    );
    let labels = received.get("labels").and_then(|v| v.as_object()).unwrap();
    assert_eq!(labels.get("request_id"), Some(&text("req-abc")));
}

#[test]
fn log_skips_duration_when_request_timestamp_missing() {
    let end = Local.with_ymd_and_hms(2024, 1, 1, 0, 0, 1).single().unwrap();
    let mut fields = LogFields::new();
    fields.insert(
        "responseTimestamp".to_string(),
        text(&end.to_rfc3339_opts(SecondsFormat::Nanos, true)),
    );

    let received = logger().log(fields).record;
    let duration =
        received.get("event").and_then(|v| v.as_object()).and_then(|obj| obj.get("duration"));
    assert!(duration.is_none());
}

#[test]
fn logger_missing_request_timestamp_duration_branch() {
    let mut fields = LogFields::new();
    fields.insert("event".to_string(), text("test"));
    fields.insert("responseTimestamp".to_string(), text("2026-02-03T00:00:01Z"));

    let received = logger().log(fields).record;
    assert_eq!(received["event"]["end"], "2026-02-03T00:00:01.000000000Z");
    assert_eq!(received["event"].get("duration"), None);
}

#[test]
fn duration_negative_returns_none() {
    let mut fields = build_fields();
    fields.insert("requestTimestamp".to_string(), text("2026-02-03T00:00:01Z"));
    fields.insert("responseTimestamp".to_string(), text("2026-02-03T00:00:00Z"));

    let received = logger().log(fields).record;
    assert_eq!(received["event"].get("duration"), None);
}

#[test]
fn every_schema_field_is_exact() {
    let fields = enrich_with_ecs_at(build_fields(), NOW);
    assert_eq!(fields["@timestamp"], "2026-02-03T00:00:00.000000000Z");
    assert_eq!(fields["ecs"]["version"], "9.2.0");
    assert_eq!(fields["log"]["level"], "info");
    assert_eq!(fields["event"]["dataset"], "welog");
    assert_eq!(fields["event"]["module"], "welog_rs");
    assert_eq!(fields["event"]["start"], "2026-02-03T00:00:00.000000000Z");
    assert_eq!(fields["event"]["end"], "2026-02-03T00:00:01.000000000Z");
    assert_eq!(fields["event"]["duration"], 1_000_000_000u64);
    assert_eq!(fields["http"]["request"]["method"], "GET");
    assert_eq!(fields["http"]["request"]["mime_type"], "text/plain");
    assert_eq!(fields["http"]["request"]["body"]["content"], "body");
    assert_eq!(fields["http"]["request"]["headers"], Value::Object(LogFields::new()));
    assert_eq!(fields["http"]["request"]["id"], "req-1");
    assert_eq!(fields["http"]["version"], "HTTP/1.1");
    assert_eq!(fields["url"]["full"], "/");
    assert_eq!(fields["url"]["domain"], "example.com");
    assert_eq!(fields["client"]["ip"], "203.0.113.5");
    assert_eq!(fields["user_agent"]["original"], "agent");
    assert_eq!(fields["labels"]["request_id"], "req-1");
    assert_eq!(fields["http"]["response"]["status_code"], 200);
    assert_eq!(fields["http"]["response"]["body"]["content"], "ok");
    assert_eq!(fields["http"]["response"]["headers"], Value::Object(LogFields::new()));
    assert_eq!(fields["user"]["name"], "user");
}

#[test]
fn fields_without_a_start_begin_now() {
    let fields = enrich_with_ecs_at(LogFields::new(), NOW);
    assert_eq!(fields["@timestamp"], "2024-01-02T03:04:05.000000007Z");
    assert_eq!(fields["event"]["start"], "2024-01-02T03:04:05.000000007Z");
    assert_eq!(fields["event"].get("end"), None);
    assert_eq!(fields.get("http"), None);
    assert_eq!(fields.get("labels"), None);
    assert_eq!(fields.len(), 4);
}

#[test]
fn values_that_are_no_text_are_not_mapped() {
    let mut fields = LogFields::new();
    fields.insert("requestMethod".to_string(), Value::Number(1.into()));
    fields.insert("responseStatus".to_string(), text("200"));
    fields.insert("requestHeader".to_string(), text("none"));
    fields.insert("requestHostName".to_string(), text(""));
    fields.insert("requestIp".to_string(), text(""));
    fields.insert("requestTimestamp".to_string(), text("not a time"));
    assert_eq!(field_as_string(&fields, "requestMethod"), None);
    assert_eq!(field_as_string(&fields, "requestIp").as_deref(), Some(""));
    let enriched = enrich_with_ecs_at(fields, NOW);
    assert_eq!(enriched.get("http"), None);
    assert_eq!(enriched.get("url"), None);
    assert_eq!(enriched.get("client"), None);
    assert_eq!(enriched["@timestamp"], "2024-01-02T03:04:05.000000007Z");
}

#[test]
fn enrichment_keeps_the_callers_values() {
    let mut fields = build_fields();
    fields.insert("@timestamp".to_string(), text("mine"));
    let mut event = LogFields::new();
    event.insert("duration".to_string(), text("long"));
    fields.insert("event".to_string(), Value::Object(event));
    fields.insert("labels".to_string(), text("no object"));
    fields.insert("user".to_string(), text("no object"));
    fields.insert("custom".to_string(), text("kept"));
    let enriched = enrich_with_ecs_at(fields, NOW);
    assert_eq!(enriched["@timestamp"], "mine");
    assert_eq!(enriched["event"]["duration"], "long");
    assert_eq!(enriched["event"]["dataset"], "welog");
    assert_eq!(enriched["labels"], "no object");
    assert_eq!(enriched["user"]["name"], "user");
    assert_eq!(enriched["custom"], "kept");
}

#[test]
fn enriching_twice_changes_nothing() {
    let once = enrich_with_ecs_at(build_fields(), NOW);
    let twice = enrich_with_ecs(once.clone());
    assert_eq!(twice, once);
    let plain = enrich_with_ecs_at(LogFields::new(), NOW);
    assert_eq!(enrich_with_ecs(plain.clone()), plain);
}

#[test]
fn the_line_for_the_standard_output_is_the_record() {
    let entry = logger().log_at(build_fields(), NOW);
    let line = entry.line.expect("a line");
    assert!(!line.contains('\n'));
    assert_eq!(serde_json::from_str::<Value>(&line).unwrap(), Value::Object(entry.record));
}

#[test]
fn coverage_force_flags_smoke() {
    let logger = logger();
    assert!(logger.log(build_fields()).line.is_some());

    let mut drops = Drops::new();
    assert_eq!(drops.record(Offer::Disconnected), Notice::NoWorker);
    assert_eq!(drops.record(Offer::Full), Notice::Nothing);

    assert!(finish_delivery(&build_fields(), ElasticReply::Refused(500)).is_some());
    assert!(fallback_line(None).is_empty());
}
