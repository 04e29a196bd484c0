use openpond_sdk::{
    agent_url, agents_url, check_registration, check_response, decimal_text, default_headers,
    join, messages_since_url, messages_url, open_stream_at, register_url, status_is_success,
    stream_builder, stream_headers, stream_url, check_config, is_valid_header_value,
    message_id_or_empty, ConfigField, OpenPondConfig, OpenPondError, CONFLICT,
};

fn config(private_key: Option<&str>, api_key: Option<&str>) -> OpenPondConfig {
    OpenPondConfig {
        api_url: "https://api.example.com".to_string(),
        private_key: private_key.map(|s| s.to_string()),
        agent_name: Some("example-agent".to_string()),
        api_key: api_key.map(|s| s.to_string()),
    }
}

fn pairs(h: &[(String, String)]) -> Vec<(&str, &str)> {
    h.iter().map(|(a, b)| (a.as_str(), b.as_str())).collect()
}

#[test]
fn success_class_is_2xx() {
    assert!(status_is_success(200));
    assert!(status_is_success(204));
    assert!(status_is_success(299));
    assert!(!status_is_success(199));
    assert!(!status_is_success(300));
    assert!(!status_is_success(409));
    assert!(!status_is_success(500));
}

#[test]
fn response_error_carries_status_and_body() {
    assert!(check_response(201, String::new()).is_ok());
    match check_response(404, "not found".to_string()) {
        Err(OpenPondError::ApiError { status, message }) => {
            assert_eq!(status, 404);
            assert_eq!(message, "not found");
        }
        other => panic!("unexpected {:?}", other),
    }
}

#[test]
fn conflict_counts_as_registered() {
    assert_eq!(CONFLICT, 409);
    assert!(check_registration(409, "already registered".to_string()).is_ok());
    assert!(check_registration(200, String::new()).is_ok());
    assert!(check_response(409, String::new()).is_err());
    assert!(matches!(
        check_registration(500, "oops".to_string()),
        Err(OpenPondError::ApiError { status: 500, .. })
    ));
}

#[test]
fn decimal_text_renders_integers() {
    assert_eq!(decimal_text(0), "0");
    assert_eq!(decimal_text(7), "7");
    assert_eq!(decimal_text(250), "250");
    assert_eq!(decimal_text(1700000000123), "1700000000123");
    assert_eq!(decimal_text(-42), "-42");
    assert_eq!(decimal_text(i64::MAX), i64::MAX.to_string());
    assert_eq!(decimal_text(i64::MIN), i64::MIN.to_string());
}

#[test]
fn endpoints_follow_base_url() {
    let c = config(None, None);
    assert_eq!(join("ab", "cd"), "abcd");
    assert_eq!(register_url(&c), "https://api.example.com/agents/register");
    assert_eq!(messages_url(&c), "https://api.example.com/messages");
    assert_eq!(agents_url(&c), "https://api.example.com/agents");
    assert_eq!(agent_url(&c, "agent-7"), "https://api.example.com/agents/agent-7");
    assert_eq!(stream_url(&c), "https://api.example.com/messages/stream");
    assert_eq!(messages_since_url(&c, 0), "https://api.example.com/messages?since=0");
    assert_eq!(messages_since_url(&c, 250), "https://api.example.com/messages?since=250");
}

#[test]
fn default_headers_without_api_key() {
    let h = default_headers(&config(None, None));
    assert_eq!(pairs(&h), vec![("Content-Type", "application/json")]);
}

#[test]
fn default_headers_with_api_key() {
    let h = default_headers(&config(None, Some("k-123")));
    assert_eq!(
        pairs(&h),
        vec![("Content-Type", "application/json"), ("X-API-Key", "k-123")]
    );
}

#[test]
fn stream_headers_hosted_mode() {
    let h = stream_headers(&config(None, None), 99);
    assert_eq!(
        pairs(&h),
        vec![("Content-Type", "application/json"), ("Accept", "text/event-stream")]
    );
}

#[test]
fn stream_headers_owned_identity_with_api_key() {
    let h = stream_headers(&config(Some("agent-key"), Some("k-1")), 1700000000123);
    assert_eq!(
        pairs(&h),
        vec![
            ("Content-Type", "application/json"),
            ("Accept", "text/event-stream"),
            ("X-Agent-Id", "agent-key"),
            ("X-Timestamp", "1700000000123"),
            ("X-API-Key", "k-1"),
        ]
    );
}

#[test]
fn stream_builder_accepts_good_settings() {
    let h = stream_headers(&config(Some("agent-key"), Some("k-1")), 5);
    assert!(stream_builder("https://api.example.com/messages/stream", &h).is_ok());
    assert!(open_stream_at(&config(Some("agent-key"), None), 12).is_ok());
    assert!(open_stream_at(&config(None, Some("k")), 1700000000000).is_ok());
}

#[test]
fn stream_builder_refuses_bad_url() {
    let r = stream_builder("not a uri with spaces", &vec![]);
    assert!(matches!(r, Err(OpenPondError::SSEError)));
}

#[test]
fn stream_builder_refuses_bad_header() {
    let h = vec![("Bad Name".to_string(), "v".to_string())];
    let r = stream_builder("https://api.example.com/messages/stream", &h);
    assert!(matches!(r, Err(OpenPondError::SSEError)));
    let h = vec![("X-Ok".to_string(), "line\nbreak".to_string())];
    assert!(matches!(
        stream_builder("https://api.example.com/messages/stream", &h),
        Err(OpenPondError::SSEError)
    ));
}

#[test]
fn open_stream_refuses_bad_key_value() {
    let r = open_stream_at(&config(Some("bad\nkey"), None), 1);
    assert!(matches!(r, Err(OpenPondError::SSEError)));
}

#[test]
fn valid_config_passes() {
    assert!(check_config(&config(Some("agent-key"), Some("k-1"))).is_ok());
    assert!(check_config(&config(None, None)).is_ok());
}

#[test]
fn unparseable_base_url_is_a_configuration_error() {
    let mut c = config(None, None);
    c.api_url = "not a url".to_string();
    assert!(matches!(
        check_config(&c),
        Err(OpenPondError::ConfigurationError(ConfigField::ApiUrl))
    ));
}

#[test]
fn bad_api_key_is_a_configuration_error() {
    assert!(matches!(
        check_config(&config(None, Some("bad\nkey"))),
        Err(OpenPondError::ConfigurationError(ConfigField::ApiKey))
    ));
}

#[test]
fn bad_private_key_is_a_configuration_error() {
    assert!(matches!(
        check_config(&config(Some("del\u{7f}"), Some("fine"))),
        Err(OpenPondError::ConfigurationError(ConfigField::PrivateKey))
    ));
}

#[test]
fn header_value_validity() {
    assert!(is_valid_header_value(""));
    assert!(is_valid_header_value("abc 123\tx"));
    assert!(is_valid_header_value("caf\u{e9}"));
    assert!(!is_valid_header_value("a\rb"));
    assert!(!is_valid_header_value("\u{7f}"));
    assert!(!is_valid_header_value("\u{1f}"));
}

#[test]
fn missing_message_id_gives_empty_text() {
    assert_eq!(message_id_or_empty(Some("msg-1")), "msg-1");
    assert_eq!(message_id_or_empty(None), "");
}

#[test]
fn stream_builder_header_name_rules() {
    let url = "https://api.example.com/messages/stream";
    let one = |n: &str| vec![(n.to_string(), "v".to_string())];
    assert!(stream_builder(url, &one("X-Custom_Name.1~")).is_ok());
    assert!(stream_builder(url, &one("Quote\"Name")).is_ok());
    assert!(matches!(stream_builder(url, &one("")), Err(OpenPondError::SSEError)));
    assert!(matches!(stream_builder(url, &one("Paren(")), Err(OpenPondError::SSEError)));
    assert!(matches!(stream_builder(url, &one("Colon:")), Err(OpenPondError::SSEError)));
    assert!(matches!(stream_builder(url, &one("n\u{e9}")), Err(OpenPondError::SSEError)));
    let tab_value = vec![("X-Tab".to_string(), "a\tb".to_string())];
    assert!(stream_builder(url, &tab_value).is_ok());
}
