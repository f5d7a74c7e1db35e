use serde_json::Value;
use welog_rs::clock::UtcInstant;
use welog_rs::config::EnvVar;
use welog_rs::elastic::{elastic_outcome, ElasticReply};
use welog_rs::fallback::{write_fallback, FALLBACK_MAX_BYTES};
use welog_rs::json::LogFields;
use welog_rs::logger::{finish_delivery, undelivered, Delivery, Logger};

fn logger(url: &str, index: &str, user: Option<&str>, password: Option<&str>) -> Logger {
    let mut env = Vec::new();
    let settings = [
        ("ELASTIC_URL__", Some(url)),
        ("ELASTIC_INDEX__", Some(index)),
        ("ELASTIC_USERNAME__", user),
        ("ELASTIC_PASSWORD__", password),
    ];
    for (key, value) in settings {
        if let Some(value) = value {
            env.push(EnvVar { key: key.to_string(), value: value.to_string() });
        }
    }
    Logger::new_from_env(&env)
}

fn example(user: Option<&str>, password: Option<&str>) -> Logger {
    logger("http://example.com", "welog", user, password)
}

fn fields() -> LogFields {
    let mut fields = LogFields::new();
    fields.insert("msg".to_string(), Value::String("hello".to_string()));
    fields
}

const NOW: UtcInstant = UtcInstant { secs: 1_704_164_645, nanos: 0 };

fn answered(status: u16) -> ElasticReply {
    match http::StatusCode::from_u16(status) {
        Ok(status) => ElasticReply::Answered(status.as_u16()),
        Err(err) => ElasticReply::Failed(err.to_string()),
    }
}

#[test]
fn send_to_elastic_returns_error_when_not_configured() {
    let err = Logger::new_from_env(&[])
        .elastic_request(&LogFields::new())
        .expect_err("expected missing config error");
    assert!(err.contains("ELASTIC_URL__"));
}

#[test]
fn send_to_elastic_returns_missing_config() {
    let err = logger("", "welog", None, None).elastic_request_at(&fields(), NOW).unwrap_err();
    assert_eq!(err, "ELASTIC_URL__ not configured");
}

#[test]
fn a_missing_index_is_an_error() {
    let err = logger("http://host", "", None, None).elastic_request_at(&fields(), NOW).unwrap_err();
    assert_eq!(err, "ELASTIC_INDEX__ not configured");
}

#[test]
fn send_to_elastic_succeeds_with_auth() {
    let request = example(Some("user"), Some("pass"))
        .elastic_request_at(&LogFields::new(), NOW)
        .expect("configured");
    assert_eq!(request.authorization.as_deref(), Some("Basic dXNlcjpwYXNz"));
    assert_eq!(request.url, "http://example.com/welog-2024-01-02/_doc");
    assert!(elastic_outcome(answered(201)).is_ok());
}

#[test]
fn send_to_elastic_without_auth_header() {
    let request = logger("http://127.0.0.1:9200", "welog", None, None)
        .elastic_request(&LogFields::new())
        .expect("configured");
    assert_eq!(request.authorization, None);
    assert!(elastic_outcome(ElasticReply::Answered(200)).is_ok());
    let half = example(Some("user"), None).elastic_request_at(&fields(), NOW).unwrap();
    assert_eq!(half.authorization, None);
}

#[test]
fn credentials_are_encoded_as_they_are() {
    for (user, password, header) in [
        ("", "", "Basic Og=="),
        ("user", "", "Basic dXNlcjo="),
        ("", "pass", "Basic OnBhc3M="),
        ("caf\u{e9}", "\u{fffd}>?", "Basic Y2Fmw6k677+9Pj8="),
    ] {
        let logger = example(Some(user), Some(password));
        let request = logger.elastic_request_at(&fields(), NOW).unwrap();
        assert_eq!(request.authorization.as_deref(), Some(header));
    }
}

#[test]
fn a_status_is_reported_with_its_digits() {
    for (code, error) in [(0, "0"), (7, "7"), (40, "40"), (503, "503"), (65_535, "65535")] {
        let err = elastic_outcome(ElasticReply::Refused(code)).unwrap_err();
        assert_eq!(err, format!("Elasticsearch HTTP error: {error}"));
    }
}

#[test]
fn send_to_elastic_returns_error_on_status_code() {
    assert!(example(None, None).elastic_request(&LogFields::new()).is_ok());
    let err = elastic_outcome(ElasticReply::Refused(500)).expect_err("expected status error");
    assert!(err.contains("HTTP error"));
    assert_eq!(err, "Elasticsearch HTTP error: 500");
}

#[test]
fn send_to_elastic_returns_error_on_redirect() {
    let err = elastic_outcome(answered(302)).expect_err("expected redirect error");
    assert!(err.contains("HTTP error"));
    assert_eq!(err, "Elasticsearch HTTP error: 302 Found");
}

#[test]
fn send_to_elastic_returns_error_on_request_failure() {
    let err = elastic_outcome(ElasticReply::Failed("io: broken pipe".to_string()))
        .expect_err("expected request error");
    assert!(err.contains("request error"));
    assert_eq!(err, "Elasticsearch request error: io: broken pipe");
}

#[test]
fn send_to_elastic_returns_error_when_behavior_missing() {
    let err = elastic_outcome(ElasticReply::Failed(String::new()))
        .expect_err("expected request error");
    assert!(err.contains("request error"));
}

#[test]
fn send_to_elastic_handles_invalid_test_status() {
    let err = elastic_outcome(answered(0)).expect_err("expected request error");
    assert!(err.contains("request error"));
}

#[test]
fn only_success_means_that_a_document_was_taken() {
    for status in [200, 201, 204, 299] {
        assert!(elastic_outcome(ElasticReply::Answered(status)).is_ok());
    }
    for status in [100, 199, 300, 304, 404, 500, 999] {
        assert!(elastic_outcome(ElasticReply::Answered(status)).is_err());
    }
}

#[test]
fn slashes_at_the_end_of_the_address_do_not_count() {
    let request = logger("http://host//", "idx", None, None)
        .elastic_request_at(&fields(), UtcInstant { secs: 86_399, nanos: 999_999_999 })
        .unwrap();
    assert_eq!(request.url, "http://host/idx-1970-01-01/_doc");
    assert_eq!(request.body, Value::Object(fields()));
    for (base, front) in [("http://caf\u{e9}/", "http://caf\u{e9}"), ("///", ""), ("/a", "/a")] {
        let request = logger(base, "idx", None, None).elastic_request_at(&fields(), NOW).unwrap();
        assert_eq!(request.url, format!("{front}/idx-2024-01-02/_doc"));
    }
}

fn build_fields(test_mode: &str) -> LogFields {
    let mut fields = LogFields::new();
    for (name, value) in [
        ("requestTimestamp", "2026-02-03T00:00:00Z"),
        ("responseTimestamp", "2026-02-03T00:00:01Z"),
        ("requestId", "req-1"),
        ("requestMethod", "GET"),
        ("test_mode", test_mode),
    ] {
        fields.insert(name.to_string(), Value::String(value.to_string()));
    }
    fields
}

fn posted(fields: &LogFields) -> LogFields {
    let logger = logger("http://127.0.0.1:9200", "welog", Some("user"), Some("pass"));
    let record = logger.log(fields.clone()).record;
    match logger.start_delivery(&record) {
        Delivery::Post(request) => {
            assert_eq!(request.authorization.as_deref(), Some("Basic dXNlcjpwYXNz"));
            assert_eq!(request.body, Value::Object(record.clone()));
            record
        }
        Delivery::Keep(_) => panic!("everything is configured"),
    }
}

fn kept(fields: &LogFields, reply: ElasticReply) -> Value {
    let line = finish_delivery(fields, reply).expect("kept");
    serde_json::from_slice(&line).unwrap()
}

#[test]
fn send_to_elastic_success() {
    let record = posted(&build_fields("success"));
    assert_eq!(finish_delivery(&record, ElasticReply::Answered(201)), None);
}

#[test]
fn send_to_elastic_status_error() {
    let record = posted(&build_fields("status"));
    let line = kept(&record, ElasticReply::Refused(500));
    assert_eq!(line["test_mode"], "status");
    assert_eq!(line["hook_error"], "Elasticsearch HTTP error: 500");
}

#[test]
fn send_to_elastic_io_error() {
    let record = posted(&build_fields("io"));
    let line = kept(&record, ElasticReply::Failed("io".to_string()));
    assert_eq!(line["test_mode"], "io");
    assert_eq!(line["hook_error"], "Elasticsearch request error: io");
}

#[test]
fn send_to_elastic_non_success_response() {
    let record = posted(&build_fields("non_success"));
    let line = kept(&record, ElasticReply::Answered(302));
    assert_eq!(line["test_mode"], "non_success");
    assert_eq!(line["hook_error"], "Elasticsearch HTTP error: 302 Found");
}

#[test]
fn a_record_is_kept_where_a_setting_is_missing_or_empty() {
    let names = ["ELASTIC_URL__", "ELASTIC_INDEX__", "ELASTIC_USERNAME__", "ELASTIC_PASSWORD__"];
    for (at, missing) in names.iter().enumerate() {
        for value in [None, Some("")] {
            let mut env = Vec::new();
            for name in names {
                let value = if name == *missing { value } else { Some("http://set") };
                if let Some(value) = value {
                    env.push(EnvVar { key: name.to_string(), value: value.to_string() });
                }
            }
            let logger = Logger::new_from_env(&env);
            match logger.start_delivery(&fields()) {
                Delivery::Keep(line) => {
                    let line: Value = serde_json::from_slice(&line).unwrap();
                    assert_eq!(line["msg"], "hello");
                    assert_eq!(line["hook_error"], format!("{missing} not configured"));
                }
                Delivery::Post(_) => panic!("{missing} is missing"),
            }
            assert_eq!(logger.elastic_request(&fields()).is_ok(), at >= 2);
        }
    }
    match logger("", "", None, None).start_delivery(&fields()) {
        Delivery::Keep(line) => {
            let line: Value = serde_json::from_slice(&line).unwrap();
            assert_eq!(line["hook_error"], "ELASTIC_URL__ not configured");
        }
        Delivery::Post(_) => panic!("nothing is configured"),
    }
}

#[test]
fn records_are_kept_in_order_where_a_setting_is_missing() {
    let logger = example(Some(""), Some(""));
    let mut file = None;
    for mode in ["one", "two", "three"] {
        match logger.start_delivery(&build_fields(mode)) {
            Delivery::Keep(line) => write_fallback(&mut file, &line, FALLBACK_MAX_BYTES).unwrap(),
            Delivery::Post(_) => panic!("the credentials are empty"),
        }
    }
    let content = String::from_utf8(file.unwrap()).unwrap();
    let modes: Vec<Value> = content
        .lines()
        .map(|line| serde_json::from_str::<Value>(line).unwrap()["test_mode"].clone())
        .collect();
    assert_eq!(modes, ["one", "two", "three"]);
}

#[test]
fn worker_loop_writes_fallback_on_error() {
    match Logger::new_from_env(&[]).start_delivery_at(&fields(), NOW) {
        Delivery::Keep(line) => {
            let contents = String::from_utf8(line).unwrap();
            assert!(contents.contains("\"msg\":\"hello\""));
            assert!(contents.contains("\"hook_error\":\"ELASTIC_URL__ not configured\""));
            assert!(contents.ends_with('\n'));
        }
        Delivery::Post(_) => panic!("nothing is configured"),
    }
}

#[test]
fn a_record_that_was_taken_is_not_kept() {
    assert_eq!(undelivered(&fields(), Ok(())), None);
    assert!(undelivered(&fields(), Err("boom".to_string())).is_some());
}
