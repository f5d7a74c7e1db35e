use std::sync::Arc;

use chrono::Local;
use http::{HeaderMap, HeaderName, HeaderValue};
use serde::ser::Error as _;
use serde_json::Value;
use tonic::metadata::{MetadataMap, MetadataValue};
use welog_rs::clock::{Latency, Timestamp, UtcInstant};
use welog_rs::config::EnvVar;
use welog_rs::grpc::{
    answer_call, code_to_string, coverage_force_grpc_latency_overflow,
    coverage_force_invalid_header_key, coverage_force_invalid_request_id_key,
    coverage_force_metadata_to_str_error, describe_payload, ensure_context, fetch_request_id,
    finish_stream, finish_unary, grpc_method, log_grpc_client, log_grpc_stream, log_grpc_stream_at,
    log_grpc_unary, log_grpc_unary_at, peer_address, request_id_metadata_key,
    serialize_value_result, set_request_id, ContextChoice, GrpcCall, GrpcCode,
    GrpcContext, GrpcFailure, GrpcOverrides, GrpcRequestInfo, WelogGrpcInterceptor,
};
use welog_rs::headers::MAX_HEADER_NAMES;
use welog_rs::json::LogFields;
use welog_rs::logger::{Logger, Surroundings};
use welog_rs::metadata::metadata_to_map;
use welog_rs::model::{TargetRequest, TargetResponse};

fn logger() -> Arc<Logger> {
    let index = EnvVar { key: "ELASTIC_INDEX__".to_string(), value: "welog".to_string() };
    Arc::new(Logger::new_from_env(&[index]))
}

fn context(request_id: &str) -> GrpcContext {
    GrpcContext::new(request_id.to_string(), logger())
}

fn off() -> GrpcOverrides {
    GrpcOverrides::new()
}

fn now() -> Timestamp {
    let at = Local::now();
    Timestamp {
        instant: UtcInstant { secs: at.timestamp(), nanos: at.timestamp_subsec_nanos() },
        offset: at.offset().local_minus_utc(),
    }
}

fn millis(n: u64) -> Latency {
    Latency { secs: n / 1000, nanos: (n % 1000) as u32 * 1_000_000 }
}

fn text(s: &str) -> Value {
    Value::String(s.to_string())
}

fn object(key: &str, value: Value) -> Value {
    let mut map = LogFields::new();
    map.insert(key.to_string(), value);
    Value::Object(map)
}

fn target() -> (TargetRequest, TargetResponse) {
    let req = TargetRequest {
        url: "https://example.com".to_string(),
        method: "GET".to_string(),
        content_type: "application/json".to_string(),
        header: Default::default(),
        body: br#"{"ping":"pong"}"#.to_vec(),
        timestamp: now(),
    };
    let res = TargetResponse {
        header: Default::default(),
        body: br#"{"ok":true}"#.to_vec(),
        status: 200,
        latency: millis(10),
    };
    (req, res)
}

fn build_metadata() -> MetadataMap {
    let mut md = MetadataMap::new();
    md.insert("x-request-id", MetadataValue::from_static("req-123"));
    md.insert("x-foo", MetadataValue::from_static("bar"));
    let bin_value = MetadataValue::from_bytes(b"\x01\x02");
    md.insert_bin("trace-bin", bin_value.clone());
    md.append_bin("trace-bin", bin_value);
    md
}

fn carried(md: &MetadataMap) -> Option<&str> {
    md.get("x-request-id").and_then(|v| v.to_str().ok())
}

struct BadSerialize;

impl serde::Serialize for BadSerialize {
    fn serialize<S>(&self, _serializer: S) -> Result<S::Ok, S::Error>
    where
        S: serde::Serializer,
    {
        Err(serde::ser::Error::custom("nope"))
    }
}

fn info<'a>(
    method: &'a str,
    metadata: &'a MetadataMap,
    request: &'a (LogFields, String),
) -> GrpcRequestInfo<'a> {
    GrpcRequestInfo {
        method,
        metadata,
        peer: "",
        request_time: now(),
        request_body: &request.0,
        request_body_string: &request.1,
    }
}

fn call<'a>(metadata: &'a MetadataMap, body: &'a LogFields, latency: Latency) -> GrpcCall<'a> {
    GrpcCall {
        method: "/svc/method",
        metadata,
        peer: "127.0.0.1:1",
        code: GrpcCode::Success,
        error: None,
        request_time: now(),
        latency,
        request_body: body,
        request_body_string: "",
    }
}

#[test]
fn grpc_interceptor_injects_request_id_and_context() {
    let mut md = MetadataMap::new();
    md.insert("user-agent", MetadataValue::from_static("unit-test"));

    let ctx = WelogGrpcInterceptor
        .intercept(&mut md, &off(), logger())
        .expect("interceptor should succeed");

    assert!(!ctx.request_id().is_empty());
    assert_eq!(carried(&md).unwrap(), ctx.request_id());
    assert_eq!(md.get("user-agent").unwrap(), "unit-test");
}

#[test]
fn mod_grpc_interceptor_injects_request_id_and_context() {
    let mut md = MetadataMap::new();
    let ctx = WelogGrpcInterceptor.intercept(&mut md, &off(), logger());
    assert!(carried(&md).is_some());
    assert!(ctx.is_some());
}

#[test]
fn grpc_interceptor_uses_existing_request_id() {
    let mut md = MetadataMap::new();
    md.insert("x-request-id", MetadataValue::from_static("existing-id"));
    let ctx = WelogGrpcInterceptor.intercept(&mut md, &off(), logger()).expect("intercepted");
    assert_eq!(ctx.request_id(), "existing-id");
}

#[test]
fn grpc_interceptor_preserves_existing_request_id() {
    let mut md = MetadataMap::new();
    md.insert("x-request-id", MetadataValue::from_static("keep-me"));

    let ctx = WelogGrpcInterceptor.intercept(&mut md, &off(), logger()).expect("interceptor ok");

    assert_eq!(ctx.request_id(), "keep-me");
    assert_eq!(carried(&md), Some("keep-me"));
}

#[test]
fn grpc_interceptor_replaces_an_empty_request_id() {
    let mut md = MetadataMap::new();
    md.insert("x-request-id", MetadataValue::from_static(""));
    md.append("x-request-id", MetadataValue::from_static("second"));
    let ctx = WelogGrpcInterceptor.intercept(&mut md, &off(), logger()).expect("intercepted");
    assert_eq!(ctx.request_id().len(), 36);
    assert_eq!(md.get_all("x-request-id").iter().count(), 1);
    assert_eq!(carried(&md), Some(ctx.request_id()));
}

#[test]
fn grpc_context_methods_are_accessible() {
    let logger = logger();
    let mut md = MetadataMap::new();
    let ctx = WelogGrpcInterceptor.intercept(&mut md, &off(), logger.clone()).expect("ctx");
    assert!(!ctx.request_id().is_empty());
    assert!(Arc::ptr_eq(&ctx.logger(), &logger));
    assert!(ctx.client_log.is_empty());
}

#[test]
fn grpc_context_logger_returns_clone() {
    let logger = logger();
    let ctx = GrpcContext::new("grpc-logger".to_string(), logger.clone());
    assert!(Arc::ptr_eq(&ctx.logger(), &logger));
}

#[test]
fn grpc_set_request_id_ignores_invalid_value() {
    let mut md = MetadataMap::new();
    set_request_id(&mut md, "bad\nid", &off());
    assert!(md.get("x-request-id").is_none());
}

#[test]
fn grpc_set_request_id_invalid_is_covered() {
    let mut md = MetadataMap::new();
    assert!(set_request_id(&mut md, "invalid\nrequest-id", &off()));
    assert!(md.is_empty());
}

#[test]
fn grpc_request_id_metadata_key_falls_back_on_invalid_bytes() {
    let mut overrides = off();
    coverage_force_invalid_request_id_key(&mut overrides, true);
    let key = request_id_metadata_key(&overrides);
    coverage_force_invalid_request_id_key(&mut overrides, false);

    assert_eq!(key.as_str(), "x-request-id");
    assert_eq!(request_id_metadata_key(&overrides), "x-request-id");
}

#[test]
fn grpc_set_request_id_skips_invalid_header_key() {
    let mut md = MetadataMap::new();
    let mut overrides = off();
    coverage_force_invalid_header_key(&mut overrides, true);
    set_request_id(&mut md, "req-id", &overrides);
    coverage_force_invalid_header_key(&mut overrides, false);

    assert!(md.get("x-request-id").is_some());
    assert_eq!(md.len(), 1);
}

#[test]
fn grpc_invalid_metadata_key_branches_are_covered() {
    let mut overrides = off();
    coverage_force_invalid_request_id_key(&mut overrides, true);
    let mut md = MetadataMap::new();
    assert!(WelogGrpcInterceptor.intercept(&mut md, &overrides, logger()).is_some());
    assert!(carried(&md).is_some());
    coverage_force_invalid_request_id_key(&mut overrides, false);

    coverage_force_invalid_header_key(&mut overrides, true);
    let mut md = MetadataMap::new();
    assert!(WelogGrpcInterceptor.intercept(&mut md, &overrides, logger()).is_some());
    assert!(carried(&md).is_some());
    coverage_force_invalid_header_key(&mut overrides, false);
    assert_eq!(overrides, off());
}

#[test]
fn too_much_metadata_stays_as_it_is() {
    let mut headers = HeaderMap::new();
    let mut n = 0;
    loop {
        let name = HeaderName::from_bytes(format!("x-{n}").as_bytes()).unwrap();
        if headers.try_insert(name, HeaderValue::from_static("v")).is_err() {
            break;
        }
        n += 1;
    }
    assert!(headers.len() > MAX_HEADER_NAMES);
    let mut md = MetadataMap::from_headers(headers.clone());
    assert!(!set_request_id(&mut md, "id", &off()));
    assert!(WelogGrpcInterceptor.intercept(&mut md, &off(), logger()).is_none());
    assert!(!answer_call(&mut md, &context("id"), &off()));
    assert!(set_request_id(&mut md, "bad\nid", &off()));
    assert_eq!(md.into_headers(), headers);
}

#[test]
fn metadata_with_room_take_an_identifier() {
    let mut md = MetadataMap::new();
    for n in 0..MAX_HEADER_NAMES {
        let key = tonic::metadata::AsciiMetadataKey::from_bytes(format!("x-{n}").as_bytes());
        md.insert(key.unwrap(), MetadataValue::from_static("v"));
    }
    assert!(set_request_id(&mut md, "id", &off()));
    assert_eq!(md.len(), MAX_HEADER_NAMES + 1);
    assert_eq!(fetch_request_id(&md, &off()), "id");
}

#[test]
fn many_values_of_one_key_leave_room_for_an_identifier() {
    let mut many = MetadataMap::new();
    for _ in 0..7000 {
        many.append("x-many", MetadataValue::from_static("v"));
    }
    let mut md = many.clone();
    assert!(set_request_id(&mut md, "id", &off()));
    assert_eq!(md.len(), 7001);
    assert_eq!(carried(&md), Some("id"));

    let mut md = many.clone();
    let ctx = WelogGrpcInterceptor.intercept(&mut md, &off(), logger()).expect("intercepted");
    assert_eq!(carried(&md), Some(ctx.request_id()));

    let mut md = many.clone();
    assert!(answer_call(&mut md, &context("id"), &off()));
    assert_eq!(carried(&md), Some("id"));
    assert_eq!(md.get_all("x-many").iter().count(), 7000);
}

#[test]
fn an_identifier_that_was_set_is_fetched() {
    let mut md = MetadataMap::new();
    for id in ["id", "", " ~", "another id"] {
        assert!(set_request_id(&mut md, id, &off()));
        assert_eq!(fetch_request_id(&md, &off()), id);
        assert_eq!(md.len(), 1);
    }
}

#[test]
fn request_ids_that_are_not_visible_ascii_are_not_fetched() {
    let mut md = MetadataMap::new();
    assert_eq!(fetch_request_id(&md, &off()), "");
    set_request_id(&mut md, "caf\u{e9}", &off());
    assert!(md.get("x-request-id").is_some());
    assert_eq!(fetch_request_id(&md, &off()), "");
    set_request_id(&mut md, "plain", &off());
    assert_eq!(fetch_request_id(&md, &off()), "plain");
}

#[test]
fn ensure_context_creates_context_when_missing() {
    let mut md = MetadataMap::new();
    md.insert("x-request-id", MetadataValue::from_static("ctx-id"));

    match ensure_context::<&str>(None, &md, &off(), logger()) {
        ContextChoice::Fresh(ctx) => assert_eq!(ctx.request_id(), "ctx-id"),
        ContextChoice::Existing(_) => panic!("there was no context"),
    }
    match ensure_context(Some("mine"), &md, &off(), logger()) {
        ContextChoice::Existing(ctx) => assert_eq!(ctx, "mine"),
        ContextChoice::Fresh(_) => panic!("there was a context"),
    }
}

#[test]
fn grpc_serialize_value_handles_non_object() {
    let (fields, string_repr) = serialize_value_result(Ok(text("plain")));
    assert!(fields.is_empty());
    assert_eq!(string_repr, "\"plain\"");
}

#[test]
fn payloads_are_described() {
    let (fields, string_repr) = serialize_value_result(Ok(object("message", text("123"))));
    assert_eq!(fields["message"], "123");
    assert_eq!(string_repr, r#"{"message":"123"}"#);

    let error = serde_json::Error::custom("forced");
    let (fields, string_repr) = serialize_value_result(Err(error));
    assert!(fields.is_empty());
    assert!(string_repr.contains("forced"));

    let (fields, string_repr) = describe_payload(Err("why".to_string()));
    assert!(fields.is_empty());
    assert_eq!(string_repr, "why");
    let (_, string_repr) = describe_payload(Ok(Value::Array(vec![Value::Null, Value::Bool(true)])));
    assert_eq!(string_repr, "[null,true]");
}

#[test]
fn grpc_log_unary_handles_large_latency() {
    let md = MetadataMap::new();
    let body = LogFields::new();
    let fields = log_grpc_unary(
        &mut context("id"),
        &off(),
        &call(&md, &body, Latency { secs: u64::MAX, nanos: 0 }),
        LogFields::new(),
        String::new(),
    )
    .record;
    let request_ts = fields.get("requestTimestamp").and_then(|v| v.as_str());
    let response_ts = fields.get("responseTimestamp").and_then(|v| v.as_str());
    assert!(request_ts.is_some());
    assert_eq!(request_ts, response_ts);
}

#[test]
fn grpc_log_stream_handles_large_latency() {
    let md = MetadataMap::new();
    let body = LogFields::new();
    let fields = log_grpc_stream(
        &mut context("id"),
        &off(),
        &call(&md, &body, Latency { secs: u64::MAX, nanos: 0 }),
        true,
        true,
    )
    .record;
    let request_ts = fields.get("requestTimestamp").and_then(|v| v.as_str());
    let response_ts = fields.get("responseTimestamp").and_then(|v| v.as_str());
    assert!(request_ts.is_some());
    assert_eq!(request_ts, response_ts);
}

#[test]
fn grpc_latency_overflow_branches_are_covered() {
    let md = build_metadata();
    let request = serialize_value_result(Ok(object("hello", text("world"))));
    let mut overrides = off();
    coverage_force_grpc_latency_overflow(&mut overrides, true);
    let info = info("unknown", &md, &request);
    let mut ctx = context("id");
    let response = serialize_value_result(Ok(object("ok", Value::Bool(true))));
    let fields = finish_unary(&mut ctx, &overrides, &info, millis(5), Ok(response)).record;
    assert_eq!(fields["requestTimestamp"], fields["responseTimestamp"]);
    let fields = finish_stream(&mut ctx, &overrides, &info, millis(5), None, true, true).record;
    assert_eq!(fields["requestTimestamp"], fields["responseTimestamp"]);

    coverage_force_grpc_latency_overflow(&mut overrides, false);
    let fields = finish_stream(&mut ctx, &overrides, &info, millis(5), None, true, true).record;
    assert_ne!(fields["requestTimestamp"], fields["responseTimestamp"]);
}

#[test]
fn with_grpc_unary_logging_logs_payload_and_target() {
    let mut md = MetadataMap::new();
    md.insert("x-request-id", MetadataValue::from_static("grpc-test-id"));
    md.insert("user-agent", MetadataValue::from_static("unit-test"));
    let mut ctx = context("grpc-test-id");
    let (req, res) = target();
    log_grpc_client(&mut ctx, req, res);

    let mut response_md = MetadataMap::new();
    assert!(answer_call(&mut response_md, &ctx, &off()));
    assert_eq!(carried(&response_md), Some("grpc-test-id"));

    let request = serialize_value_result(Ok(object("message", text("hi"))));
    let response = serialize_value_result(Ok(object("message", text("hello hi"))));
    let method = grpc_method(Some(("test.Service", "Say")));
    let entry =
        finish_unary(&mut ctx, &off(), &info(&method, &md, &request), millis(3), Ok(response));
    let fields = entry.record;

    assert_eq!(fields.get("grpcMethod"), Some(&text("/test.Service/Say")));
    assert_eq!(fields.get("grpcStatusCode"), Some(&text("OK")));
    assert_eq!(fields.get("grpcError"), Some(&text("")));
    assert_eq!(fields.get("requestId"), Some(&text("grpc-test-id")));
    assert_eq!(fields["grpcResponse"]["message"], "hello hi");
    assert_eq!(fields["grpcResponseString"], r#"{"message":"hello hi"}"#);
    assert_eq!(fields["target"].as_array().unwrap().len(), 1);
    assert!(ctx.client_log.is_empty());
    assert!(entry.line.is_some());
}

#[test]
fn with_grpc_stream_logging_logs_flags() {
    let mut md = MetadataMap::new();
    md.insert("x-request-id", MetadataValue::from_static("stream-id"));
    let mut ctx = context("stream-id");
    let mut response_md = MetadataMap::new();
    assert!(answer_call(&mut response_md, &ctx, &off()));
    assert_eq!(carried(&response_md), Some("stream-id"));

    let request = serialize_value_result(Ok(object("message", text("hi"))));
    let method = grpc_method(Some(("test.Service", "Bidi")));
    let fields = finish_stream(
        &mut ctx,
        &off(),
        &info(&method, &md, &request),
        millis(3),
        None,
        true,
        true,
    )
    .record;

    assert_eq!(fields.get("grpcMethod"), Some(&text("/test.Service/Bidi")));
    assert_eq!(fields.get("grpcStatusCode"), Some(&text("OK")));
    assert_eq!(fields.get("grpcIsClientStream"), Some(&Value::Bool(true)));
    assert_eq!(fields.get("grpcIsServerStream"), Some(&Value::Bool(true)));
    assert_eq!(fields.get("grpcResponse"), None);
}

#[test]
fn log_grpc_client_skips_when_full() {
    let mut ctx = context("grpc-full");
    ctx.client_log = vec![LogFields::new(); 1000];
    let (req, res) = target();

    log_grpc_client(&mut ctx, req, res);

    assert_eq!(ctx.client_log.len(), 1000);
}

#[test]
fn grpc_target_log_cap_is_covered() {
    let mut ctx = context("grpc-cap");
    let (req, res) = target();
    for _ in 0..=1000 {
        log_grpc_client(&mut ctx, req.clone(), res.clone());
    }
    assert_eq!(ctx.client_log.len(), 1000);
}

#[test]
fn grpc_log_client_appends_target_log() {
    let mut md = MetadataMap::new();
    let mut ctx = WelogGrpcInterceptor.intercept(&mut md, &off(), logger()).expect("ctx");
    let (req, res) = target();
    log_grpc_client(&mut ctx, req, res);

    let metadata = build_metadata();
    let request = serialize_value_result(Ok(text("payload")));
    let fields = finish_unary(
        &mut ctx,
        &off(),
        &info("unknown", &metadata, &request),
        millis(1),
        Ok(serialize_value_result(Ok(text("payload")))),
    )
    .record;
    assert_eq!(fields["target"][0]["targetRequestURL"], "https://example.com");
    assert_eq!(fields["grpcRequestString"], "\"payload\"");
}

#[test]
fn with_grpc_unary_logging_logs_error() {
    let mut md = MetadataMap::new();
    md.insert("x-request-id", MetadataValue::from_static("grpc-error-id"));
    let request = serialize_value_result(Ok(object("message", text("oops"))));
    let method = grpc_method(Some(("test.Service", "Fail")));
    let failure = GrpcFailure { code: GrpcCode::Internal, message: "boom" };
    let fields = finish_unary(
        &mut context("grpc-error-id"),
        &off(),
        &info(&method, &md, &request),
        millis(2),
        Err(failure),
    )
    .record;
    assert_eq!(fields.get("grpcStatusCode"), Some(&text("INTERNAL")));
    assert_eq!(fields.get("grpcError"), Some(&text("boom")));
    assert_eq!(fields["grpcResponse"], Value::Object(Default::default()));
    assert_eq!(fields["grpcResponseString"], "");
}

#[test]
fn with_grpc_stream_logging_logs_error() {
    let md = build_metadata();
    let request = serialize_value_result(Ok(object("message", text("oops"))));
    let failure = GrpcFailure { code: GrpcCode::Internal, message: "boom" };
    let fields = finish_stream(
        &mut context("stream-error-id"),
        &off(),
        &info("/test.Service/StreamFail", &md, &request),
        millis(2),
        Some(failure),
        true,
        true,
    )
    .record;
    assert_eq!(fields.get("grpcStatusCode"), Some(&text("INTERNAL")));
    assert_eq!(fields.get("grpcError"), Some(&text("boom")));
}

#[test]
fn grpc_stream_logging_ok_and_err() {
    let md = build_metadata();
    let request = serialize_value_result(Ok(object("hello", text("world"))));
    let method = grpc_method(Some(("svc", "method")));
    let mut info = info(&method, &md, &request);
    let peer = peer_address(Some("127.0.0.1:5000".to_string()));
    info.peer = &peer;
    let ok =
        finish_stream(&mut context("a"), &off(), &info, millis(1), None, true, false).record;
    assert_eq!(ok["grpcPeer"], "127.0.0.1:5000");
    assert_eq!(ok["grpcIsServerStream"], false);

    let failure = GrpcFailure { code: GrpcCode::Internal, message: "boom" };
    let err =
        finish_stream(&mut context("b"), &off(), &info, millis(1), Some(failure), false, true)
            .record;
    assert_eq!(err["grpcError"], "boom");
    assert_eq!(err["grpcIsClientStream"], false);
}

#[test]
fn with_grpc_unary_logging_without_context_uses_unknown_method() {
    let mut md = MetadataMap::new();
    md.insert("x-request-id", MetadataValue::from_static("no-ctx"));
    let ctx = match ensure_context::<&str>(None, &md, &off(), logger()) {
        ContextChoice::Fresh(ctx) => ctx,
        ContextChoice::Existing(_) => panic!("there was no context"),
    };
    let mut ctx = ctx;
    let mut response_md = MetadataMap::new();
    answer_call(&mut response_md, &ctx, &off());
    assert_eq!(carried(&response_md), Some("no-ctx"));

    let request = serialize_value_result(Ok(object("message", text("123"))));
    let method = grpc_method(None);
    let fields = finish_unary(
        &mut ctx,
        &off(),
        &info(&method, &md, &request),
        millis(1),
        Ok((LogFields::new(), String::new())),
    )
    .record;
    assert_eq!(fields.get("grpcMethod"), Some(&text("unknown")));
    assert_eq!(fields.get("grpcRequestString"), Some(&text(r#"{"message":"123"}"#)));
}

#[test]
fn grpc_unary_logging_sets_response_request_id() {
    let md = MetadataMap::new();
    let ctx = match ensure_context::<&str>(None, &md, &off(), logger()) {
        ContextChoice::Fresh(ctx) => ctx,
        ContextChoice::Existing(_) => panic!("there was no context"),
    };
    let mut response_md = MetadataMap::new();
    assert!(answer_call(&mut response_md, &ctx, &off()));
    assert!(carried(&response_md).is_some());
}

#[test]
fn with_grpc_unary_logging_handles_bad_serialize() {
    let md = build_metadata();
    let request = serialize_value_result(serde_json::to_value(BadSerialize));
    let method = grpc_method(Some(("test.Service", "Bad")));
    let fields = finish_unary(
        &mut context("bad-ser"),
        &off(),
        &info(&method, &md, &request),
        millis(1),
        Ok(serialize_value_result(serde_json::to_value(BadSerialize))),
    )
    .record;
    assert_eq!(fields.get("grpcMethod"), Some(&text("/test.Service/Bad")));
    let request_string = fields.get("grpcRequestString").and_then(|v| v.as_str()).unwrap_or("");
    assert!(!request_string.is_empty());
}

#[test]
fn grpc_unary_logs_error_path_and_bad_serialize() {
    let md = build_metadata();
    let request = serialize_value_result(serde_json::to_value(BadSerialize));
    let failure = GrpcFailure { code: GrpcCode::Internal, message: "boom" };
    let fields = finish_unary(
        &mut context("id"),
        &off(),
        &info("unknown", &md, &request),
        millis(1),
        Err(failure),
    )
    .record;
    assert_eq!(fields["grpcError"], "boom");
    assert_eq!(fields["grpcRequest"], Value::Object(Default::default()));
}

#[test]
fn with_grpc_unary_logging_captures_binary_metadata() {
    let mut md = MetadataMap::new();
    md.insert("x-request-id", MetadataValue::from_static("meta-id"));
    md.insert_bin("trace-bin", MetadataValue::from_bytes(b"\x01\x02"));
    md.append("multi", MetadataValue::from_static("a"));
    md.append("multi", MetadataValue::from_static("b"));
    let request = serialize_value_result(Ok(object("message", text("meta"))));
    let fields = finish_unary(
        &mut context("meta-id"),
        &off(),
        &info("/test.Service/Meta", &md, &request),
        millis(1),
        Ok((LogFields::new(), String::new())),
    )
    .record;
    let meta = fields
        .get("grpcRequestMeta")
        .and_then(|v| v.as_object())
        .expect("metadata should be object");
    let trace = meta.get("trace-bin").and_then(|v| v.as_str()).unwrap();
    assert_eq!(trace, "QVFJ");
    let multi = meta.get("multi").and_then(|v| v.as_array()).unwrap();
    assert_eq!(multi.len(), 2);
    assert_eq!(multi, &vec![text("a"), text("b")]);
    assert_eq!(meta["x-request-id"], "meta-id");
    assert_eq!(meta.len(), 3);
}

#[test]
fn with_grpc_unary_logging_logs_peer_address() {
    let md = MetadataMap::new();
    let request = serialize_value_result(Ok(object("message", text("peer"))));
    let peer = peer_address(Some("127.0.0.1:12345".to_string()));
    let mut info = info("/test.Service/Peer", &md, &request);
    info.peer = &peer;
    let fields = finish_unary(
        &mut context("peer-id"),
        &off(),
        &info,
        millis(1),
        Ok((LogFields::new(), String::new())),
    )
    .record;
    assert_eq!(fields.get("grpcPeer"), Some(&text("127.0.0.1:12345")));
}

#[test]
fn grpc_metadata_helpers_are_covered() {
    let mut md = MetadataMap::new();
    md.insert("x-foo", MetadataValue::from_static("bar"));
    md.append("x-foo", MetadataValue::from_static("baz"));
    let bin = MetadataValue::from_bytes(b"\x01\x02");
    md.insert_bin("trace-bin", bin.clone());
    md.append_bin("trace-bin", bin);

    let map = metadata_to_map(&md, false);
    assert_eq!(map["x-foo"], Value::Array(vec![text("bar"), text("baz")]));
    assert_eq!(map["trace-bin"], Value::Array(vec![text("QVFJ"), text("QVFJ")]));

    let mut overrides = off();
    coverage_force_metadata_to_str_error(&mut overrides, true);
    let map = metadata_to_map(&md, overrides.metadata_to_str_error);
    assert_eq!(map["x-foo"], Value::Array(vec![text(""), text("")]));
    assert_eq!(map["trace-bin"], Value::Array(vec![text("QVFJ"), text("QVFJ")]));
    coverage_force_metadata_to_str_error(&mut overrides, false);
    assert_eq!(overrides, off());

    assert_eq!(grpc_method(None), "unknown");
    assert_eq!(grpc_method(Some(("svc", "method"))), "/svc/method");
    assert_eq!(peer_address(None), "");
}

#[test]
fn codes_are_named_as_tonic_names_them() {
    let codes = [
        GrpcCode::Success,
        GrpcCode::Cancelled,
        GrpcCode::Unknown,
        GrpcCode::InvalidArgument,
        GrpcCode::DeadlineExceeded,
        GrpcCode::NotFound,
        GrpcCode::AlreadyExists,
        GrpcCode::PermissionDenied,
        GrpcCode::ResourceExhausted,
        GrpcCode::FailedPrecondition,
        GrpcCode::Aborted,
        GrpcCode::OutOfRange,
        GrpcCode::Unimplemented,
        GrpcCode::Internal,
        GrpcCode::Unavailable,
        GrpcCode::DataLoss,
        GrpcCode::Unauthenticated,
    ];
    for (n, code) in codes.into_iter().enumerate() {
        let named = format!("{:?}", tonic::Code::from_i32(n as i32)).to_uppercase();
        assert_eq!(code_to_string(code), named);
    }
}

#[test]
fn every_field_of_a_call_to_the_service_is_exact() {
    let mut md = MetadataMap::new();
    md.insert("x-foo", MetadataValue::from_static("bar"));
    let body = match object("a", text("b")) {
        Value::Object(map) => map,
        _ => unreachable!(),
    };
    let call = GrpcCall {
        method: "/svc/Do",
        metadata: &md,
        peer: "192.0.2.1:9",
        code: GrpcCode::NotFound,
        error: Some("gone"),
        request_time: Timestamp {
            instant: UtcInstant { secs: 1_704_164_645, nanos: 6 },
            offset: 7200,
        },
        latency: Latency { secs: 1, nanos: 250_000_000 },
        request_body: &body,
        request_body_string: r#"{"a":"b"}"#,
    };
    let at = || Surroundings {
        user: "someone".to_string(),
        offset: 3600,
        now: UtcInstant { secs: 0, nanos: 0 },
    };
    let mut ctx = context("id-1");
    let unary =
        log_grpc_unary_at(&mut ctx, &off(), &call, body.clone(), "text".to_string(), at()).record;
    let stream = log_grpc_stream_at(&mut ctx, &off(), &call, true, false, at()).record;
    for fields in [&unary, &stream] {
        assert_eq!(fields["grpcMethod"], "/svc/Do");
        assert_eq!(fields["grpcRequest"]["a"], "b");
        assert_eq!(fields["grpcRequestString"], r#"{"a":"b"}"#);
        assert_eq!(fields["grpcRequestMeta"]["x-foo"], "bar");
        assert_eq!(fields["grpcPeer"], "192.0.2.1:9");
        assert_eq!(fields["grpcStatusCode"], "NOTFOUND");
        assert_eq!(fields["grpcError"], "gone");
        assert_eq!(fields["requestId"], "id-1");
        assert_eq!(fields["requestTimestamp"], "2024-01-02T05:04:05.000000006+02:00");
        assert_eq!(fields["responseTimestamp"], "2024-01-02T04:04:06.250000006+01:00");
        assert_eq!(fields["responseLatency"], "1.25s");
        assert_eq!(fields["responseUser"], "someone");
        assert_eq!(fields["target"], Value::Array(Vec::new()));
        assert_eq!(fields["event"]["duration"], 1_250_000_000u64);
        assert_eq!(fields["labels"]["request_id"], "id-1");
        assert_eq!(fields["http"]["request"]["id"], "id-1");
        assert_eq!(fields["user"]["name"], "someone");
    }
    assert_eq!(unary["grpcResponse"]["a"], "b");
    assert_eq!(unary["grpcResponseString"], "text");
    assert!(!unary.contains_key("grpcIsClientStream"));
    assert_eq!(stream["grpcIsClientStream"], true);
    assert_eq!(stream["grpcIsServerStream"], false);
    assert!(!stream.contains_key("grpcResponse"));
}
