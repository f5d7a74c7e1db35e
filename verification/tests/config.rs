use welog_rs::config::{find_var, EnvVar};
use welog_rs::logger::Logger;
use welog_rs::queue::DEFAULT_QUEUE_CAPACITY;
use welog_rs::{set_config, Config};

fn config(index: &str, url: &str, user: &str, password: &str) -> Config {
    Config {
        elastic_index: index.to_string(),
        elastic_url: url.to_string(),
        elastic_username: user.to_string(),
        elastic_password: password.to_string(),
    }
}

fn var(key: &str, value: &str) -> EnvVar {
    EnvVar { key: key.to_string(), value: value.to_string() }
}

#[test]
fn set_config_sets_env_vars() {
    let env = set_config(config("idx", "http://localhost:9200", "user1", "pass1"));

    assert_eq!(find_var(&env, "ELASTIC_INDEX__").unwrap(), "idx");
    assert_eq!(find_var(&env, "ELASTIC_URL__").unwrap(), "http://localhost:9200");
    assert_eq!(find_var(&env, "ELASTIC_USERNAME__").unwrap(), "user1");
    assert_eq!(find_var(&env, "ELASTIC_PASSWORD__").unwrap(), "pass1");
}

#[test]
fn set_config_updates_environment() {
    let mut env = vec![var("ELASTIC_URL__", "http://old"), var("HOME", "/root")];
    env.extend(set_config(config("idx", "http://example.com", "user", "pass")));

    assert_eq!(find_var(&env, "ELASTIC_INDEX__").as_deref(), Some("idx"));
    assert_eq!(find_var(&env, "ELASTIC_URL__").as_deref(), Some("http://example.com"));
    assert_eq!(find_var(&env, "ELASTIC_USERNAME__").as_deref(), Some("user"));
    assert_eq!(find_var(&env, "ELASTIC_PASSWORD__").as_deref(), Some("pass"));
    assert_eq!(find_var(&env, "HOME").as_deref(), Some("/root"));
    assert_eq!(find_var(&env, "PATH"), None);
}

#[test]
fn the_logger_is_made_with_the_configuration() {
    let logger = Logger::new_from_env(&set_config(config("idx", "http://host", "u", "p")));
    assert_eq!(logger.index_prefix.as_deref(), Some("idx"));
    assert_eq!(logger.elastic_url.as_deref(), Some("http://host"));
    assert_eq!(logger.username.as_deref(), Some("u"));
    assert_eq!(logger.password.as_deref(), Some("p"));
    assert_eq!(logger.fallback_path, "logs.txt");
    assert_eq!(logger.fallback_max_bytes, 1 << 30);
    assert_eq!(logger.queue_capacity, DEFAULT_QUEUE_CAPACITY);
}

#[test]
fn logger_queue_capacity_invalid_uses_default() {
    let logger = Logger::new_from_env(&[
        var("WELOG_QUEUE_CAPACITY__", "not-a-number"),
        var("ELASTIC_URL__", ""),
    ]);
    assert_eq!(logger.queue_capacity, DEFAULT_QUEUE_CAPACITY);
}

#[test]
fn logger_queue_capacity_zero_uses_default() {
    let logger =
        Logger::new_from_env(&[var("WELOG_QUEUE_CAPACITY__", "0"), var("ELASTIC_URL__", "")]);
    assert_eq!(logger.queue_capacity, DEFAULT_QUEUE_CAPACITY);
}

#[test]
fn queue_capacity_env_parsing_handles_invalid_and_zero() {
    for setting in [
        "bad",
        "0",
        "",
        "+",
        "-1",
        " 5",
        "1_000",
        "99999999999999999999999",
        "18446744073709551616",
        "1+",
        "++1",
        "\u{663}",
    ] {
        let logger = Logger::new_from_env(&[var("WELOG_QUEUE_CAPACITY__", setting)]);
        assert_eq!(logger.queue_capacity, DEFAULT_QUEUE_CAPACITY, "{setting}");
    }
    for (setting, capacity) in [
        ("1", 1),
        ("250", 250),
        ("+7", 7),
        ("007", 7),
        ("18446744073709551615", usize::MAX),
    ] {
        let logger = Logger::new_from_env(&[var("WELOG_QUEUE_CAPACITY__", setting)]);
        assert_eq!(logger.queue_capacity, capacity);
    }
}

#[test]
fn a_clone_of_a_logger_has_the_same_settings() {
    let logger = Logger::new_from_env(&set_config(config("idx", "http://host", "u", "p")));
    let copy = logger.clone();
    assert_eq!(copy.elastic_url, logger.elastic_url);
    assert_eq!(copy.index_prefix, logger.index_prefix);
    assert_eq!(copy.username, logger.username);
    assert_eq!(copy.password, logger.password);
    assert_eq!(copy.fallback_path, logger.fallback_path);
    assert_eq!(copy.fallback_max_bytes, logger.fallback_max_bytes);
    assert_eq!(copy.queue_capacity, logger.queue_capacity);
}
