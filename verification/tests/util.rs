use chrono::{Duration as ChronoDuration, Local, SecondsFormat, TimeZone};
use http::{HeaderMap, HeaderValue};
use serde_json::Value;
use welog_rs::clock::{Latency, Timestamp, UtcInstant};
use welog_rs::json::object_or_empty;
use welog_rs::model::{TargetRequest, TargetResponse};
use welog_rs::util::{build_target_log_fields, build_target_log_fields_at, header_to_map};

fn stamp(at: &chrono::DateTime<Local>) -> Timestamp {
    Timestamp {
        instant: UtcInstant { secs: at.timestamp(), nanos: at.timestamp_subsec_nanos() },
        offset: at.offset().local_minus_utc(),
    }
}

fn millis(n: u64) -> Latency {
    Latency { secs: n / 1000, nanos: (n % 1000) as u32 * 1_000_000 }
}

fn new_year() -> chrono::DateTime<Local> {
    Local.with_ymd_and_hms(2024, 1, 2, 3, 4, 5).single().unwrap()
}

fn request(method: &str, content_type: &str, body: &[u8], timestamp: Timestamp) -> TargetRequest {
    TargetRequest {
        url: "https://example.com/api".to_string(),
        method: method.to_string(),
        content_type: content_type.to_string(),
        header: Default::default(),
        body: body.to_vec(),
        timestamp,
    }
}

fn response(body: &[u8], status: u16, latency: Latency) -> TargetResponse {
    TargetResponse { header: Default::default(), body: body.to_vec(), status, latency }
}

fn text(s: &str) -> Value {
    Value::String(s.to_string())
}

#[test]
fn header_to_map_converts_values_to_strings() {
    let mut headers = HeaderMap::new();
    headers.insert("X-Test", HeaderValue::from_static("123"));
    headers.insert("Content-Type", HeaderValue::from_static("application/json"));

    let map = header_to_map(&headers);
    assert_eq!(map.get("x-test"), Some(&text("123")));
    assert_eq!(map.get("content-type"), Some(&text("application/json")));
}

#[test]
fn mod_header_to_map_converts_values_to_strings() {
    let mut headers = HeaderMap::new();
    headers.insert("x-test", "value".parse().unwrap());
    let map = header_to_map(&headers);
    assert_eq!(map.get("x-test"), Some(&text("value")));
}

#[test]
fn header_to_map_keeps_the_last_of_several_values() {
    let mut headers = HeaderMap::new();
    headers.insert("x-many", HeaderValue::from_static("first"));
    headers.append("x-many", HeaderValue::from_static("second"));
    headers.insert("x-one", HeaderValue::from_static("only"));

    let map = header_to_map(&headers);
    assert_eq!(map.get("x-many"), Some(&text("second")));
    assert_eq!(map.get("x-one"), Some(&text("only")));
    assert_eq!(map.len(), 2);
}

#[test]
fn header_to_map_empties_what_is_not_visible_ascii() {
    let mut headers = HeaderMap::new();
    headers.insert("x-bytes", HeaderValue::from_bytes(b"caf\xc3\xa9").unwrap());

    let map = header_to_map(&headers);
    assert_eq!(map.get("x-bytes"), Some(&text("")));
}

#[test]
fn build_target_log_fields_maps_request_and_response() {
    let timestamp = new_year();
    let req = request("POST", "application/json", br#"{"hello":"world"}"#, stamp(&timestamp));
    let res = response(br#"{"status":"ok"}"#, 200, millis(150));

    let fields = build_target_log_fields(&req, &res);

    assert_eq!(
        fields
            .get("targetRequestBody")
            .and_then(|v| v.as_object())
            .and_then(|o| o.get("hello"))
            .and_then(|v| v.as_str()),
        Some("world")
    );
    assert_eq!(fields.get("targetRequestBodyString"), Some(&text(r#"{"hello":"world"}"#)));
    assert_eq!(fields.get("targetResponseBodyString"), Some(&text(r#"{"status":"ok"}"#)));
    assert_eq!(
        fields.get("targetResponseStatus"),
        Some(&Value::Number(serde_json::Number::from(200)))
    );

    let expected_request_ts = timestamp.to_rfc3339_opts(SecondsFormat::Nanos, true);
    let expected_response_ts = (timestamp
        + ChronoDuration::from_std(std::time::Duration::from_millis(150)).unwrap())
    .to_rfc3339_opts(SecondsFormat::Nanos, true);

    assert_eq!(fields.get("targetRequestTimestamp"), Some(&text(&expected_request_ts)));
    assert_eq!(fields.get("targetResponseTimestamp"), Some(&text(&expected_response_ts)));
    assert_eq!(fields.get("targetResponseLatency"), Some(&text("150ms")));
}

#[test]
fn mod_build_target_log_fields_maps_request_and_response() {
    let mut req =
        request("POST", "application/json", br#"{"ping":"pong"}"#, stamp(&Local::now()));
    req.url = "https://example.com".to_string();
    let res = response(br#"{"ok":true}"#, 200, millis(12));

    let fields = build_target_log_fields(&req, &res);
    assert_eq!(fields.get("targetRequestMethod"), Some(&text("POST")));
    assert_eq!(fields.get("targetResponseStatus"), Some(&Value::Number(200.into())));
}

#[test]
fn build_target_log_fields_handles_large_latency() {
    let req = request("POST", "application/json", br#"{"hello":"world"}"#, stamp(&new_year()));
    let res = response(br#"{"status":"ok"}"#, 200, Latency { secs: u64::MAX, nanos: 0 });

    let fields = build_target_log_fields(&req, &res);
    let req_ts = fields.get("targetRequestTimestamp").and_then(|v| v.as_str());
    let resp_ts = fields.get("targetResponseTimestamp").and_then(|v| v.as_str());
    assert_eq!(req_ts, resp_ts);
}

#[test]
fn build_target_log_fields_handles_non_json_body() {
    let req = request("GET", "text/plain", b"not-json", stamp(&new_year()));
    let res = response(b"also-not-json", 404, millis(10));

    let fields = build_target_log_fields(&req, &res);

    let request_body_obj = fields.get("targetRequestBody").and_then(|v| v.as_object()).unwrap();
    let response_body_obj = fields.get("targetResponseBody").and_then(|v| v.as_object()).unwrap();
    assert!(request_body_obj.is_empty());
    assert!(response_body_obj.is_empty());
    assert_eq!(
        fields.get("targetResponseStatus"),
        Some(&Value::Number(serde_json::Number::from(404)))
    );
    assert_eq!(fields.get("targetRequestBodyString"), Some(&text("not-json")));
    assert_eq!(fields.get("targetResponseBodyString"), Some(&text("also-not-json")));
}

#[test]
fn build_target_log_fields_handles_invalid_json() {
    let mut req = request("GET", "application/json", br#"{invalid"#, stamp(&Local::now()));
    req.url = "https://example.com".to_string();
    let res = response(br#"{invalid"#, 200, millis(5));

    let fields = build_target_log_fields(&req, &res);
    assert_eq!(fields.get("targetRequestBody"), Some(&Value::Object(Default::default())));
    assert_eq!(fields.get("targetResponseBody"), Some(&Value::Object(Default::default())));
}

#[test]
fn build_target_log_fields_handles_latency_overflow() {
    let mut req = request("GET", "application/json", br#"{"ok":true}"#, stamp(&Local::now()));
    req.url = "https://example.com".to_string();
    let res = response(br#"{"ok":true}"#, 200, Latency { secs: u64::MAX, nanos: 0 });

    let fields = build_target_log_fields(&req, &res);
    assert_eq!(fields.get("targetRequestTimestamp"), fields.get("targetResponseTimestamp"));
    req.timestamp.offset = 20_700;
    let fields = build_target_log_fields(&req, &res);
    assert_eq!(fields.get("targetRequestTimestamp"), fields.get("targetResponseTimestamp"));
}

#[test]
fn the_times_of_a_call_are_read_back_and_lie_the_latency_apart() {
    let req = request("GET", "text/plain", b"", stamp(&new_year()));
    let latency = Latency { secs: 90_061, nanos: 1 };
    let fields = build_target_log_fields_at(&req, &response(b"", 200, latency), -18_000);

    let read = |name: &str| chrono::DateTime::parse_from_rfc3339(fields[name].as_str().unwrap());
    let sent = read("targetRequestTimestamp").unwrap();
    let received = read("targetResponseTimestamp").unwrap();
    assert_eq!(sent, new_year());
    assert_eq!((received - sent).num_nanoseconds(), Some(90_061_000_000_001));
}

#[test]
fn every_field_of_a_call_is_exact() {
    let at = Timestamp {
        instant: UtcInstant { secs: 1_704_164_645, nanos: 6 },
        offset: 7200,
    };
    let mut req = request("PUT", "text/plain", b"[1]", at);
    req.header.insert("accept".to_string(), text("*/*"));
    let mut res = response(b"\xff{}", 503, Latency { secs: 2, nanos: 500_000_000 });
    res.header.insert("etag".to_string(), text("abc"));

    let fields = build_target_log_fields_at(&req, &res, 3600);

    assert_eq!(fields.len(), 13);
    assert_eq!(fields["targetRequestBody"], Value::Object(Default::default()));
    assert_eq!(fields["targetRequestBodyString"], text("[1]"));
    assert_eq!(fields["targetRequestContentType"], text("text/plain"));
    assert_eq!(fields["targetRequestHeader"], Value::Object(req.header.clone()));
    assert_eq!(fields["targetRequestMethod"], text("PUT"));
    assert_eq!(
        fields["targetRequestTimestamp"],
        text("2024-01-02T05:04:05.000000006+02:00")
    );
    assert_eq!(fields["targetRequestURL"], text("https://example.com/api"));
    assert_eq!(fields["targetResponseBody"], Value::Object(Default::default()));
    assert_eq!(fields["targetResponseBodyString"], text("\u{fffd}{}"));
    assert_eq!(fields["targetResponseHeader"], Value::Object(res.header.clone()));
    assert_eq!(fields["targetResponseLatency"], text("2.5s"));
    assert_eq!(fields["targetResponseStatus"], Value::Number(503.into()));
    assert_eq!(
        fields["targetResponseTimestamp"],
        text("2024-01-02T04:04:07.500000006+01:00")
    );
}

#[test]
fn clones_of_calls_have_the_same_content() {
    let mut req = request("PUT", "text/plain", b"[1]", stamp(&new_year()));
    req.header.insert("accept".to_string(), text("*/*"));
    let copy = req.clone();
    assert_eq!(copy.url, req.url);
    assert_eq!(copy.header, req.header);
    assert_eq!(copy.body, req.body);
    assert_eq!(copy.timestamp, req.timestamp);
    let res = response(b"x", 204, millis(3));
    let copy = res.clone();
    assert_eq!(copy.status, 204);
    assert_eq!(copy.latency, millis(3));
}

#[test]
fn only_objects_are_read_from_bodies() {
    assert_eq!(object_or_empty(br#"{"a":1}"#).get("a"), Some(&Value::Number(1.into())));
    assert!(object_or_empty(b"[1,2]").is_empty());
    assert!(object_or_empty(b"").is_empty());
}

#[test]
fn numbers_beyond_the_machine_are_no_json() {
    assert!(object_or_empty(br#"{"a":1e400}"#).is_empty());
    let fields = object_or_empty(br#"{"a":18446744073709551615,"b":-1}"#);
    assert_eq!(fields["a"].as_u64(), Some(u64::MAX));
    assert_eq!(fields["b"].as_i64(), Some(-1));
}
