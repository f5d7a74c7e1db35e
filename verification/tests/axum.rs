use std::sync::Arc;

use chrono::{Duration as ChronoDuration, Local, SecondsFormat, TimeZone};
use http::{HeaderMap, HeaderName, HeaderValue};
use serde_json::Value;
use welog_rs::app::root_payload;
use welog_rs::axum_middleware::{
    accept_request, answer_request, choose_request_id, coverage_force_invalid_request_id,
    coverage_force_latency_overflow, extract_client_ip, header_to_string, log_axum, log_axum_at,
    log_axum_client, assign_request_id, version_to_string, AxumExchange, AxumOverrides,
    HttpVersion, WelogContext, WelogLayer,
};
use welog_rs::clock::{Latency, Timestamp, UtcInstant};
use welog_rs::headers::MAX_HEADER_NAMES;
use welog_rs::json::LogFields;
use welog_rs::logger::{LogEntry, Logger, Surroundings};
use welog_rs::model::{TargetRequest, TargetResponse};
use welog_rs::util::{build_target_log_fields, build_target_log_fields_at};

fn logger() -> Arc<Logger> {
    Arc::new(Logger::new_from_env(&[]))
}

fn context(request_id: &str) -> WelogContext {
    WelogContext::new(request_id.to_string(), logger())
}

fn stamp(at: &chrono::DateTime<Local>) -> Timestamp {
    Timestamp {
        instant: UtcInstant { secs: at.timestamp(), nanos: at.timestamp_subsec_nanos() },
        offset: at.offset().local_minus_utc(),
    }
}

fn millis(n: u64) -> Latency {
    Latency { secs: n / 1000, nanos: (n % 1000) as u32 * 1_000_000 }
}

fn june() -> chrono::DateTime<Local> {
    Local.with_ymd_and_hms(2024, 6, 3, 12, 0, 0).single().unwrap()
}

fn text(s: &str) -> Value {
    Value::String(s.to_string())
}

fn target(body: &[u8], latency: u64) -> (TargetRequest, TargetResponse) {
    let req = TargetRequest {
        url: "https://example.com/api".to_string(),
        method: "GET".to_string(),
        content_type: "application/json".to_string(),
        header: Default::default(),
        body: body.to_vec(),
        timestamp: stamp(&Local::now()),
    };
    let res = TargetResponse {
        header: Default::default(),
        body: br#"{"ok":true}"#.to_vec(),
        status: 200,
        latency: millis(latency),
    };
    (req, res)
}

fn plain<'a>(headers: &'a HeaderMap, body: &'a [u8], latency: Latency) -> AxumExchange<'a> {
    AxumExchange {
        request_time: stamp(&june()),
        latency,
        method: "POST",
        url: "http://example.com/demo",
        version: HttpVersion::Http11,
        request_headers: headers,
        request_body: body,
        response_headers: headers,
        response_body: body,
        status: 200,
        client_ip: "",
    }
}

#[test]
fn header_to_string_is_case_insensitive() {
    let mut headers = HeaderMap::new();
    headers.insert("User-Agent", HeaderValue::from_static("agent-1"));
    assert_eq!(header_to_string(&headers, "user-agent"), "agent-1".to_string());
    assert_eq!(header_to_string(&headers, "USER-agent"), "agent-1".to_string());
    assert_eq!(header_to_string(&headers, "missing"), "");
    assert_eq!(header_to_string(&headers, "user-agen"), "");
    assert_eq!(header_to_string(&headers, "user-agen\u{54}\u{301}"), "");
    assert_eq!(header_to_string(&headers, "user_agent"), "");
}

#[test]
fn extract_client_ip_prefers_known_headers() {
    let mut headers = HeaderMap::new();
    headers.insert("X-Forwarded-For", HeaderValue::from_static("203.0.113.10"));
    headers.insert("X-Real-IP", HeaderValue::from_static("203.0.113.11"));
    assert_eq!(extract_client_ip(&headers), "203.0.113.11".to_string());

    let empty = HeaderMap::new();
    assert_eq!(extract_client_ip(&empty), "");
}

#[test]
fn an_unreadable_address_is_passed_over() {
    let mut headers = HeaderMap::new();
    headers.insert("x-real-ip", HeaderValue::from_bytes(b"\xff").unwrap());
    headers.insert("x-client-ip", HeaderValue::from_static("203.0.113.12"));
    assert_eq!(extract_client_ip(&headers), "203.0.113.12");
    headers.insert("x-forwarded-for", HeaderValue::from_static(""));
    assert_eq!(extract_client_ip(&headers), "");
}

#[test]
fn axum_header_helpers_are_covered() {
    let headers = HeaderMap::new();
    assert_eq!(header_to_string(&headers, "x-missing"), "");
    assert_eq!(extract_client_ip(&headers), "");
}

#[test]
fn version_to_string_maps_http_versions() {
    assert_eq!(version_to_string(HttpVersion::Http09), "HTTP/0.9");
    assert_eq!(version_to_string(HttpVersion::Http2), "HTTP/2.0");
    assert_eq!(version_to_string(HttpVersion::Http10), "HTTP/1.0");
    assert_eq!(version_to_string(HttpVersion::Http3), "HTTP/3.0");
    assert_eq!(version_to_string(HttpVersion::Http11), "HTTP/1.1");
    assert_eq!(version_to_string(HttpVersion::Other), "HTTP");
}

#[test]
fn log_axum_client_pushes_target_logs() {
    let mut ctx = context("req-1");
    let (req, res) = target(br#"{"a":1}"#, 20);

    log_axum_client(&mut ctx, req.clone(), res.clone());

    assert_eq!(ctx.client_log.len(), 1);
    assert_eq!(ctx.client_log[0], build_target_log_fields(&req, &res));
}

#[test]
fn log_axum_client_skips_when_full() {
    let mut ctx = context("req-full");
    ctx.client_log = vec![LogFields::new(); 1000];
    let (req, res) = target(br#"{"a":1}"#, 20);

    log_axum_client(&mut ctx, req, res);

    assert_eq!(ctx.client_log.len(), 1000);
}

#[test]
fn axum_target_log_cap_is_covered() {
    let mut ctx = context("req-cap");
    let (mut req, res) = target(br#"{"ping":"pong"}"#, 5);

    for n in 0..=1000 {
        req.url = format!("https://example.com/{n}");
        log_axum_client(&mut ctx, req.clone(), res.clone());
    }

    assert_eq!(ctx.client_log.len(), 1000);
    assert_eq!(ctx.client_log[0]["targetRequestURL"], "https://example.com/0");
    assert_eq!(ctx.client_log[999]["targetRequestURL"], "https://example.com/999");
}

#[test]
fn welog_context_logger_returns_clone() {
    let logger = logger();
    let ctx = WelogContext::new("req-logger".to_string(), logger.clone());
    assert!(Arc::ptr_eq(&ctx.logger(), &logger));
    assert_eq!(ctx.request_id(), "req-logger");
}

#[test]
fn log_axum_builds_structured_fields() {
    let target_req = TargetRequest {
        url: "https://example.com/target".to_string(),
        method: "POST".to_string(),
        content_type: "application/json".to_string(),
        header: Default::default(),
        body: br#"{"ping":"pong"}"#.to_vec(),
        timestamp: stamp(&Local.with_ymd_and_hms(2024, 1, 1, 0, 0, 0).single().unwrap()),
    };
    let target_res = TargetResponse {
        header: Default::default(),
        body: br#"{"status":"ok"}"#.to_vec(),
        status: 201,
        latency: millis(50),
    };
    let mut ctx = context("req-123");
    ctx.client_log.push(build_target_log_fields(&target_req, &target_res));

    let mut request_headers = HeaderMap::new();
    request_headers.insert("user-agent", HeaderValue::from_static("demo-agent"));
    request_headers.insert("content-type", HeaderValue::from_static("application/json"));
    request_headers.insert("host", HeaderValue::from_static("example.com"));
    request_headers.insert("x-forwarded-for", HeaderValue::from_static("203.0.113.10"));
    request_headers
        .insert(HeaderName::from_static("x-request-id"), HeaderValue::from_static("req-123"));

    let mut response_headers = HeaderMap::new();
    response_headers.insert("etag", HeaderValue::from_static("abc123"));

    let request_time = june();
    let client_ip = extract_client_ip(&request_headers);
    let entry = log_axum(
        &mut ctx,
        &AxumOverrides::new(),
        &AxumExchange {
            request_time: stamp(&request_time),
            latency: millis(200),
            method: "POST",
            url: "http://example.com/demo?x=1",
            version: HttpVersion::Http11,
            request_headers: &request_headers,
            request_body: br#"{"hello":"world"}"#,
            response_headers: &response_headers,
            response_body: br#"{"ok":true}"#,
            status: 200,
            client_ip: &client_ip,
        },
    );
    let fields = entry.record;

    assert_eq!(fields.get("requestId"), Some(&text("req-123")));
    assert_eq!(fields.get("requestAgent"), Some(&text("demo-agent")));
    assert_eq!(fields.get("requestBodyString"), Some(&text(r#"{"hello":"world"}"#)));
    assert_eq!(fields.get("responseBodyString"), Some(&text(r#"{"ok":true}"#)));
    assert_eq!(fields.get("requestIp"), Some(&text("203.0.113.10")));
    assert_eq!(fields.get("requestUrl"), Some(&text("http://example.com/demo?x=1")));
    assert_eq!(
        fields.get("responseStatus"),
        Some(&Value::Number(serde_json::Number::from(200)))
    );
    assert_eq!(fields.get("target").and_then(|v| v.as_array()).map(|a| a.len()), Some(1));

    let expected_request_ts = request_time.to_rfc3339_opts(SecondsFormat::Nanos, true);
    let expected_response_ts = (request_time + ChronoDuration::milliseconds(200))
        .to_rfc3339_opts(SecondsFormat::Nanos, true);
    assert_eq!(fields.get("requestTimestamp"), Some(&text(&expected_request_ts)));
    assert_eq!(fields.get("responseTimestamp"), Some(&text(&expected_response_ts)));

    assert!(ctx.client_log.is_empty());
    let line = entry.line.expect("a line for the standard output");
    assert_eq!(serde_json::from_str::<Value>(&line).unwrap(), Value::Object(fields));
}

fn logged(ctx: &mut WelogContext, e: &AxumExchange<'_>) -> LogEntry {
    let at = Surroundings {
        user: "someone".to_string(),
        offset: 3600,
        now: UtcInstant { secs: 0, nanos: 0 },
    };
    log_axum_at(ctx, &AxumOverrides::new(), e, at)
}

#[test]
fn every_field_of_a_request_is_exact() {
    let mut headers = HeaderMap::new();
    headers.insert("host", HeaderValue::from_static("example.com"));
    headers.insert("content-type", HeaderValue::from_static("text/plain"));
    headers.insert("user-agent", HeaderValue::from_bytes(b"\x80").unwrap());
    let mut response_headers = HeaderMap::new();
    response_headers.insert("etag", HeaderValue::from_static("abc"));
    let mut ctx = context("id-1");
    let (req, res) = target(b"{}", 5);
    let call = build_target_log_fields_at(&req, &res, 0);
    ctx.client_log.push(call.clone());

    let fields = logged(
        &mut ctx,
        &AxumExchange {
            request_time: Timestamp {
                instant: UtcInstant { secs: 1_704_164_645, nanos: 6 },
                offset: 7200,
            },
            latency: Latency { secs: 1, nanos: 250_000_000 },
            method: "PATCH",
            url: "/path?q=1",
            version: HttpVersion::Http2,
            request_headers: &headers,
            request_body: br#"{"a":[1]}"#,
            response_headers: &response_headers,
            response_body: b"\xff",
            status: 418,
            client_ip: "192.0.2.1",
        },
    )
    .record;

    assert_eq!(fields["requestAgent"], "");
    assert_eq!(fields["requestBody"]["a"][0], 1);
    assert_eq!(fields["requestBodyString"], r#"{"a":[1]}"#);
    assert_eq!(fields["requestContentType"], "text/plain");
    assert_eq!(fields["requestHeader"]["host"], "example.com");
    assert_eq!(fields["requestHeader"]["user-agent"], "");
    assert_eq!(fields["requestHostName"], "example.com");
    assert_eq!(fields["requestId"], "id-1");
    assert_eq!(fields["requestIp"], "192.0.2.1");
    assert_eq!(fields["requestMethod"], "PATCH");
    assert_eq!(fields["requestProtocol"], "HTTP/2.0");
    assert_eq!(fields["requestTimestamp"], "2024-01-02T05:04:05.000000006+02:00");
    assert_eq!(fields["requestUrl"], "/path?q=1");
    assert_eq!(fields["responseBody"], Value::Object(Default::default()));
    assert_eq!(fields["responseBodyString"], "\u{fffd}");
    assert_eq!(fields["responseHeader"]["etag"], "abc");
    assert_eq!(fields["responseLatency"], "1.25s");
    assert_eq!(fields["responseStatus"], 418);
    assert_eq!(fields["responseTimestamp"], "2024-01-02T04:04:06.250000006+01:00");
    assert_eq!(fields["responseUser"], "someone");
    assert_eq!(fields["target"], Value::Array(vec![Value::Object(call)]));

    assert_eq!(fields["event"]["duration"], 1_250_000_000u64);
    assert_eq!(fields["event"]["start"], "2024-01-02T03:04:05.000000006Z");
    assert_eq!(fields["event"]["end"], "2024-01-02T03:04:06.250000006Z");
    assert_eq!(fields["labels"]["request_id"], "id-1");
    assert_eq!(fields["http"]["request"]["id"], "id-1");
    assert_eq!(fields["http"]["response"]["status_code"], 418);
    assert_eq!(fields["user"]["name"], "someone");
}

#[test]
fn log_axum_handles_non_json_bodies() {
    let mut ctx = context("req-non-json");
    let headers = HeaderMap::new();
    let mut e = plain(&headers, b"not-json", millis(5));
    e.response_body = b"also-not-json";

    let fields = log_axum(&mut ctx, &AxumOverrides::new(), &e).record;
    assert!(fields.get("requestBody").and_then(|v| v.as_object()).is_some());
    assert!(fields.get("responseBody").and_then(|v| v.as_object()).is_some());
    assert_eq!(fields["responseBodyString"], "also-not-json");
}

#[test]
fn log_axum_handles_large_latency() {
    let mut ctx = context("req-latency");
    let headers = HeaderMap::new();
    let e = plain(&headers, b"{}", Latency { secs: u64::MAX, nanos: 0 });

    let fields = log_axum(&mut ctx, &AxumOverrides::new(), &e).record;
    let request_ts = fields.get("requestTimestamp").and_then(|v| v.as_str());
    let response_ts = fields.get("responseTimestamp").and_then(|v| v.as_str());
    assert_eq!(request_ts, response_ts);
    assert_eq!(fields["event"]["duration"], 0);
}

#[test]
fn an_oversized_latency_shows_the_request_time_whatever_the_clock() {
    let headers = HeaderMap::new();
    let mut e = plain(&headers, b"{}", Latency { secs: u64::MAX, nanos: 0 });
    for offset in [-34_200, 0, 19_800] {
        e.request_time.offset = offset;
        let fields = log_axum(&mut context("id"), &AxumOverrides::new(), &e).record;
        assert_eq!(fields["requestTimestamp"], fields["responseTimestamp"]);
    }
}

#[test]
fn axum_latency_overflow_branch_is_covered() {
    let mut overrides = AxumOverrides::new();
    coverage_force_latency_overflow(&mut overrides, true);
    let mut ctx = context("req-overflow");
    let headers = HeaderMap::new();
    let e = plain(&headers, b"{}", millis(5));

    let fields = log_axum(&mut ctx, &overrides, &e).record;
    assert_eq!(fields["requestTimestamp"], fields["responseTimestamp"]);
    coverage_force_latency_overflow(&mut overrides, false);
    assert_eq!(overrides, AxumOverrides::new());
    let fields = log_axum(&mut ctx, &overrides, &e).record;
    assert_ne!(fields["requestTimestamp"], fields["responseTimestamp"]);
}

#[test]
fn welog_middleware_wraps_request_and_sets_request_id() {
    let service = WelogLayer.layer("inner service");
    assert_eq!(service.inner, "inner service");

    let mut headers = HeaderMap::new();
    headers.insert("content-type", HeaderValue::from_static("application/json"));
    let ctx = accept_request(&mut headers, &AxumOverrides::new(), logger()).expect("accepted");
    let carried = headers.get("x-request-id").and_then(|v| v.to_str().ok()).unwrap();
    assert!(!carried.is_empty());
    assert_eq!(carried, ctx.request_id());
    assert_eq!(headers.get("content-type").unwrap(), "application/json");

    let mut response = HeaderMap::new();
    assert!(answer_request(&mut response, &ctx));
    assert_eq!(response.get("x-request-id").unwrap(), ctx.request_id());
}

#[test]
fn welog_middleware_preserves_existing_request_id() {
    let mut headers = HeaderMap::new();
    headers.insert("x-request-id", HeaderValue::from_static("existing-id"));
    headers.append("x-request-id", HeaderValue::from_static("another"));

    let ctx = accept_request(&mut headers, &AxumOverrides::new(), logger()).expect("accepted");
    assert_eq!(ctx.request_id(), "existing-id");
    let carried: Vec<_> = headers.get_all("x-request-id").iter().collect();
    assert_eq!(carried, vec!["existing-id"]);
}

#[test]
fn an_empty_request_id_is_preserved() {
    let mut headers = HeaderMap::new();
    headers.insert("x-request-id", HeaderValue::from_static(""));
    assert_eq!(choose_request_id(&headers, &AxumOverrides::new()), "");
}

#[test]
fn an_unreadable_request_id_is_replaced() {
    let mut headers = HeaderMap::new();
    headers.insert("x-request-id", HeaderValue::from_bytes(b"\x80").unwrap());
    let ctx = accept_request(&mut headers, &AxumOverrides::new(), logger()).expect("accepted");
    assert_eq!(ctx.request_id().len(), 36);
    assert_eq!(headers.get("x-request-id").unwrap(), ctx.request_id());
}

#[test]
fn welog_middleware_handles_invalid_request_id() {
    let mut overrides = AxumOverrides::new();
    coverage_force_invalid_request_id(&mut overrides, true);
    let mut headers = HeaderMap::new();

    let ctx = accept_request(&mut headers, &overrides, logger()).expect("accepted");
    assert_eq!(headers.get("x-request-id").unwrap(), "invalid-request-id");
    assert_eq!(ctx.request_id(), "invalid\nrequest-id");
}

#[test]
fn axum_invalid_request_id_branch_is_covered() {
    let mut overrides = AxumOverrides::new();
    coverage_force_invalid_request_id(&mut overrides, true);
    assert_eq!(choose_request_id(&HeaderMap::new(), &overrides), "invalid\nrequest-id");
    coverage_force_invalid_request_id(&mut overrides, false);
    assert_eq!(choose_request_id(&HeaderMap::new(), &overrides).len(), 36);
}

#[test]
fn axum_middleware_header_value_error_falls_back() {
    let mut headers = HeaderMap::new();
    assert!(assign_request_id(&mut headers, "bad\rid"));
    assert_eq!(headers.get("x-request-id").unwrap(), "invalid-request-id");
    assert!(assign_request_id(&mut headers, "caf\u{e9}"));
    assert_eq!(headers.get("x-request-id").unwrap().as_bytes(), "caf\u{e9}".as_bytes());
}

#[test]
fn too_many_headers_stay_as_they_are() {
    let mut headers = HeaderMap::new();
    let mut n = 0;
    loop {
        let name = HeaderName::from_bytes(format!("x-{n}").as_bytes()).unwrap();
        if headers.try_insert(name, HeaderValue::from_static("v")).is_err() {
            break;
        }
        n += 1;
    }
    assert!(headers.len() > MAX_HEADER_NAMES);
    let full = headers.clone();
    assert!(!assign_request_id(&mut headers, "id"));
    assert!(accept_request(&mut headers, &AxumOverrides::new(), logger()).is_none());
    assert!(!answer_request(&mut headers, &context("id")));
    assert_eq!(headers, full);
}

#[test]
fn headers_with_room_take_an_identifier() {
    let mut headers = HeaderMap::new();
    for n in 0..MAX_HEADER_NAMES {
        let name = HeaderName::from_bytes(format!("x-{n}").as_bytes()).unwrap();
        headers.insert(name, HeaderValue::from_static("v"));
    }
    assert!(assign_request_id(&mut headers, "id"));
    assert_eq!(headers.len(), MAX_HEADER_NAMES + 1);
}

#[test]
fn many_values_of_one_name_leave_room_for_an_identifier() {
    let mut many = HeaderMap::new();
    for _ in 0..7000 {
        many.append("x-many", HeaderValue::from_static("v"));
    }
    let mut headers = many.clone();
    let ctx = accept_request(&mut headers, &AxumOverrides::new(), logger()).expect("accepted");
    assert_eq!(headers.get("x-request-id").unwrap(), ctx.request_id());
    assert_eq!(headers.len(), 7001);

    let mut headers = many.clone();
    assert!(answer_request(&mut headers, &context("id")));
    assert_eq!(headers.get("x-request-id").unwrap(), "id");
    assert_eq!(headers.get_all("x-many").iter().count(), 7000);
}

#[test]
fn generated_request_ids_are_random_uuids() {
    let first = choose_request_id(&HeaderMap::new(), &AxumOverrides::new());
    let second = choose_request_id(&HeaderMap::new(), &AxumOverrides::new());
    assert_ne!(first, second);
    for id in [first, second] {
        let parsed = uuid::Uuid::parse_str(&id).unwrap();
        assert_eq!(parsed.get_version_num(), 4);
        assert_eq!(parsed.to_string(), id);
    }
}

#[test]
fn axum_layer_sets_request_id_and_context() {
    let mut headers = HeaderMap::new();
    let ctx = accept_request(&mut headers, &AxumOverrides::new(), logger()).expect("accepted");
    let carried = headers.get("x-request-id").and_then(|v| v.to_str().ok());
    assert!(carried.is_some());
    assert_eq!(carried, Some(ctx.request_id()));
}

#[test]
fn axum_layer_logs_with_patched_username_and_target() {
    let mut headers = HeaderMap::new();
    let mut ctx = accept_request(&mut headers, &AxumOverrides::new(), logger()).expect("accepted");
    let (req, res) = target(br#"{"ping":"pong"}"#, 10);
    log_axum_client(&mut ctx, req, res);

    let e = plain(&headers, b"ok", millis(1));
    let at = Surroundings {
        user: "patched-user".to_string(),
        offset: 0,
        now: UtcInstant { secs: 0, nanos: 0 },
    };
    let fields = log_axum_at(&mut ctx, &AxumOverrides::new(), &e, at).record;
    assert_eq!(fields["responseUser"], "patched-user");
    assert_eq!(fields["target"].as_array().unwrap().len(), 1);
}

#[test]
fn axum_middleware_handles_body_errors_and_json() {
    let mut headers = HeaderMap::new();
    headers.insert("x-request-id", HeaderValue::from_static("req-123"));
    headers.insert("x-forwarded-for", HeaderValue::from_static("198.51.100.4"));
    headers.insert("host", HeaderValue::from_static("example.com"));
    headers.insert("user-agent", HeaderValue::from_bytes(b"\x80").expect("header value"));
    let logger = logger();
    let mut ctx =
        accept_request(&mut headers, &AxumOverrides::new(), logger.clone()).expect("accepted");
    assert!(Arc::ptr_eq(&ctx.logger(), &logger));

    let mut e = plain(&headers, b"", millis(1));
    e.response_body = br#"{"ok":true}"#;
    let fields = log_axum(&mut ctx, &AxumOverrides::new(), &e).record;
    assert_eq!(fields["requestBodyString"], "");
    assert_eq!(fields["requestAgent"], "");
    assert_eq!(fields["responseBody"]["ok"], true);
}

#[test]
fn axum_middleware_parses_request_and_response_json() {
    let mut headers = HeaderMap::new();
    headers.insert("x-request-id", HeaderValue::from_static("req-json"));
    headers.insert("host", HeaderValue::from_static("example.com"));
    let mut ctx = accept_request(&mut headers, &AxumOverrides::new(), logger()).expect("accepted");
    let mut e = plain(&headers, br#"{"req":true}"#, millis(1));
    e.response_body = br#"{"resp":true}"#;
    let fields = log_axum(&mut ctx, &AxumOverrides::new(), &e).record;
    assert_eq!(fields["requestBody"]["req"], true);
    assert_eq!(fields["responseBody"]["resp"], true);
    assert_eq!(fields["requestId"], "req-json");
}

#[test]
fn axum_middleware_handles_response_body_error() {
    let mut ctx = context("req-body");
    let headers = HeaderMap::new();
    let fields = log_axum(&mut ctx, &AxumOverrides::new(), &plain(&headers, b"", millis(1))).record;
    assert_eq!(fields["responseBodyString"], "");
    assert_eq!(fields["responseBody"], Value::Object(Default::default()));
}

#[test]
fn root_handler_executes_under_coverage() {
    let payload = root_payload(&context("req-root"));
    assert_eq!(payload["message"], "hello from welog_rs");
    assert_eq!(payload["request_id"], "req-root");
    assert_eq!(payload.as_object().unwrap().len(), 2);
}
