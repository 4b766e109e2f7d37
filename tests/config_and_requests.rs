use std::collections::HashMap;

use loadgen::config::{validate_config, ConfigError, MAX_PARALLEL_REQUESTS, UPDATE_TIME};
use loadgen::request::{
    default_user_agent, is_error_status, is_redirect_status, parse_method, Method, RequestError,
    ResponseStats,
};

#[test]
fn zero_concurrency_is_rejected() {
    assert_eq!(validate_config(0, 2000), Err(ConfigError::ZeroConcurrency));
}

#[test]
fn concurrency_above_maximum_is_rejected() {
    assert_eq!(validate_config(5001, 2000), Err(ConfigError::ConcurrencyTooHigh));
    assert_eq!(validate_config(MAX_PARALLEL_REQUESTS, 2000), Ok(()));
}

#[test]
fn zero_duration_is_rejected() {
    assert_eq!(validate_config(5, 0), Err(ConfigError::ZeroDuration));
}

#[test]
fn duration_below_snapshot_interval_is_rejected() {
    assert_eq!(validate_config(5, 500), Err(ConfigError::DurationTooShort));
    assert_eq!(validate_config(5, 999), Err(ConfigError::DurationTooShort));
    assert_eq!(validate_config(5, UPDATE_TIME), Ok(()));
}

#[test]
fn valid_configuration_is_accepted() {
    assert_eq!(validate_config(5, 2000), Ok(()));
    assert_eq!(validate_config(1, 1000), Ok(()));
}

#[test]
fn supported_methods_parse() {
    assert_eq!(parse_method(&"GET".to_string()).ok(), Some(Method::Get));
    assert_eq!(parse_method(&"POST".to_string()).ok(), Some(Method::Post));
    assert_eq!(parse_method(&"PUT".to_string()).ok(), Some(Method::Put));
    assert_eq!(parse_method(&"DELETE".to_string()).ok(), Some(Method::Delete));
    assert_eq!(parse_method(&"PATCH".to_string()).ok(), Some(Method::Patch));
}

#[test]
fn unknown_method_is_rejected() {
    match parse_method(&"OPTIONS".to_string()) {
        Err(RequestError::InvalidMethod(name)) => assert_eq!(name, "OPTIONS"),
        _ => panic!("OPTIONS must be rejected"),
    }
    assert!(parse_method(&"get".to_string()).is_err());
    assert!(parse_method(&String::new()).is_err());
}

#[test]
fn status_classification_boundaries() {
    assert!(!is_redirect_status(299) && !is_error_status(299));
    assert!(is_redirect_status(300) && !is_error_status(300));
    assert!(is_redirect_status(399) && !is_error_status(399));
    assert!(!is_redirect_status(400) && is_error_status(400));
    assert!(is_error_status(500));
    assert!(!is_redirect_status(200) && !is_error_status(200));
}

#[test]
fn missing_length_and_type_fall_back() {
    let r = ResponseStats::from_parts(204, None, None, HashMap::new(), 12);
    assert_eq!(r.content_length, 0);
    assert_eq!(r.content_type, "");
    assert_eq!(r.status, 204);
    assert_eq!(r.duration, 12);
}

#[test]
fn reported_length_and_type_are_kept() {
    let mut headers = HashMap::new();
    headers.insert("content-type".to_string(), "text/plain".to_string());
    let r = ResponseStats::from_parts(200, Some(99), Some("text/plain".to_string()), headers.clone(), 3);
    assert_eq!(r.content_length, 99);
    assert_eq!(r.content_type, "text/plain");
    assert_eq!(r.headers, headers);
}

#[test]
fn user_agent_is_fixed() {
    let (name, value) = default_user_agent();
    assert_eq!(name, "user-agent");
    assert_eq!(value, "the-awesome-agent/007");
}
