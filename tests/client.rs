use docker4ssh_configure::catalog::{
    AuthGetRequest, AuthPostRequest, ConfigGetRequest, ConfigPostBody, ConfigPostRequest,
    ErrorRequest, InfoRequest, PingRequest, PingResponse,
};
use docker4ssh_configure::config::{ConfigNetworkMode, ConfigRunLevel};
use docker4ssh_configure::parser::{parse_config_run_level, parse_network_mode};
use docker4ssh_configure::response::{APIError, APIResult, ClientError, MalformedPart, API};
use docker4ssh_configure::wire::{decimal_string, Method, Request};

fn api() -> API {
    API::new(String::from("127.0.0.1:42069"))
}

fn reply(status: &str, body: &str) -> String {
    format!("HTTP/1.0 {}\r\nContent-Length: {}\r\n\r\n{}", status, body.len(), body)
}

#[test]
fn decimal_renders_numbers() {
    assert_eq!(decimal_string(0), "0");
    assert_eq!(decimal_string(7), "7");
    assert_eq!(decimal_string(10), "10");
    assert_eq!(decimal_string(4096), "4096");
    assert_eq!(decimal_string(usize::MAX), usize::MAX.to_string());
}

#[test]
fn get_request_renders_exactly() {
    let r = Request::new(String::from("/ping"));
    assert_eq!(r.as_string(), "GET /ping HTTP/1.0\r\n\r\n\r\n\r\n");
    assert_eq!(PingRequest::new().as_string(), "GET /ping HTTP/1.0\r\n\r\n\r\n\r\n");
    assert_eq!(InfoRequest::new().as_string(), "GET /info HTTP/1.0\r\n\r\n\r\n\r\n");
    assert_eq!(ErrorRequest::new().as_string(), "GET /error HTTP/1.0\r\n\r\n\r\n\r\n");
    assert_eq!(ConfigGetRequest::new().as_string(), "GET /config HTTP/1.0\r\n\r\n\r\n\r\n");
    assert_eq!(AuthGetRequest::new().as_string(), "GET /auth HTTP/1.0\r\n\r\n\r\n\r\n");
}

#[test]
fn content_length_is_byte_length_of_body() {
    let mut r = Request::new(String::from("/x"));
    r.set_method(Method::POST);
    r.set_body(String::from("héllo"));
    assert_eq!(r.as_string(), "POST /x HTTP/1.0\r\nContent-Length: 6\r\n\r\nhéllo\r\n");
    r.set_body(String::from("{}"));
    assert_eq!(r.as_string(), "POST /x HTTP/1.0\r\nContent-Length: 2\r\n\r\n{}\r\n");
}

#[test]
fn set_header_replaces_same_name() {
    let mut r = Request::new(String::from("/p"));
    r.set_header("A", String::from("1"));
    r.set_header("B", String::from("2"));
    r.set_header("A", String::from("3"));
    r.set_path(String::from("/q"));
    assert_eq!(r.as_string(), "GET /q HTTP/1.0\r\nA: 3B: 2\r\n\r\n\r\n");
}

#[test]
fn network_mode_tags_round_trip() {
    let all = [
        ConfigNetworkMode::Off,
        ConfigNetworkMode::Full,
        ConfigNetworkMode::Host,
        ConfigNetworkMode::Docker,
        ConfigNetworkMode::NoNetwork,
    ];
    for (i, m) in all.iter().enumerate() {
        assert_eq!(m.tag() as usize, i + 1);
        assert_eq!(ConfigNetworkMode::from_tag(m.tag() as u64), Some(*m));
    }
    assert_eq!(ConfigNetworkMode::from_tag(0), None);
    assert_eq!(ConfigNetworkMode::from_tag(6), None);
}

#[test]
fn run_level_tags_round_trip() {
    let all = [ConfigRunLevel::User, ConfigRunLevel::Container, ConfigRunLevel::Forever];
    for (i, l) in all.iter().enumerate() {
        assert_eq!(l.tag() as usize, i + 1);
        assert_eq!(ConfigRunLevel::from_tag(l.tag() as u64), Some(*l));
    }
    assert_eq!(ConfigRunLevel::from_tag(0), None);
    assert_eq!(ConfigRunLevel::from_tag(4), None);
}

#[test]
fn network_mode_tokens() {
    assert_eq!(parse_network_mode("off"), Ok(ConfigNetworkMode::Off));
    assert_eq!(parse_network_mode("FULL"), Ok(ConfigNetworkMode::Full));
    assert_eq!(parse_network_mode("Host"), Ok(ConfigNetworkMode::Host));
    assert_eq!(parse_network_mode("4"), Ok(ConfigNetworkMode::Docker));
    assert_eq!(parse_network_mode("none"), Ok(ConfigNetworkMode::NoNetwork));
    assert_eq!(parse_network_mode("5"), Ok(ConfigNetworkMode::NoNetwork));
    assert_eq!(
        parse_network_mode("bridge"),
        Err(String::from("'bridge' is not a valid network mode. Choose from 'off', 'full', 'host', 'docker', 'none'"))
    );
    assert!(parse_network_mode("6").is_err());
}

#[test]
fn run_level_tokens() {
    assert_eq!(parse_config_run_level("user"), Ok(ConfigRunLevel::User));
    assert_eq!(parse_config_run_level("CONTAINER"), Ok(ConfigRunLevel::Container));
    assert_eq!(parse_config_run_level("3"), Ok(ConfigRunLevel::Forever));
    assert_eq!(
        parse_config_run_level("always"),
        Err(String::from("'always' is not a valid run level. Choose from: 'user', 'container', 'forever'"))
    );
}

#[test]
fn parses_well_formed_response() {
    let req = Request::new(String::from("/ping"));
    let r = APIResult::new(&req, "HTTP/1.0 200 OK\r\nContent-Length: 2\r\n\r\n{}\r\n").unwrap();
    assert_eq!(r.code(), 200);
    assert!(r.has_body());
    assert_eq!(r.body_text(), "{}\r\n");
    assert_eq!(r.body_text().trim_end(), "{}");
    assert_eq!(r.path(), "/ping");
}

#[test]
fn body_is_everything_after_first_blank_line() {
    let req = Request::new(String::from("/p"));
    let r = APIResult::new(&req, "HTTP/1.0 204 No Content\r\n\r\n").unwrap();
    assert_eq!(r.code(), 204);
    assert!(!r.has_body());
    let r = APIResult::new(&req, "HTTP/1.0 200 OK\r\n\r\na\r\n\r\nb").unwrap();
    assert_eq!(r.body_text(), "a\r\n\r\nb");
}

#[test]
fn missing_separator_is_malformed() {
    let req = Request::new(String::from("/ping"));
    let r = APIResult::new(&req, "HTTP/1.0 200 OK\r\nContent-Length: 2\r\n{}");
    assert!(matches!(r, Err(ClientError::MalformedResponse { part: MalformedPart::Separator })));
}

#[test]
fn short_or_bad_status_is_malformed() {
    let req = Request::new(String::from("/ping"));
    let r = APIResult::new(&req, "HTTP/1.0 2");
    assert!(matches!(r, Err(ClientError::MalformedResponse { part: MalformedPart::StatusCode })));
    let r = APIResult::new(&req, "HTTP/1.0 2x0 OK\r\n\r\n");
    assert!(matches!(r, Err(ClientError::MalformedResponse { part: MalformedPart::StatusCode })));
}

#[test]
fn error_status_with_message() {
    let raw = reply("404 Not Found", "{\"message\":\"not found\"}");
    let mut a = api();
    let r = a.request_with_err(&Request::new(String::from("/nope")), &raw);
    match r {
        Err(ClientError::ApiError { status_code, message }) => {
            assert_eq!(status_code, 404);
            assert_eq!(message, "not found");
        }
        _ => panic!("expected an api error"),
    }
}

#[test]
fn error_status_with_invalid_json() {
    let raw = reply("500 Internal Server Error", "oops");
    let r = InfoRequest::new().request(&mut api(), &raw);
    match r {
        Err(ClientError::ApiError { status_code, message }) => {
            assert_eq!(status_code, 500);
            assert!(message.starts_with("Failed to call '/info': could not deserialize response: "));
            assert!(message.contains("expected value"));
        }
        other => panic!("expected an api error, got {:?}", other),
    }
}

#[test]
fn error_status_with_empty_body() {
    let raw = reply("503 Unavailable", "");
    let r = ErrorRequest::new().request(&mut api(), &raw);
    match r {
        Err(ClientError::ApiError { status_code, message }) => {
            assert_eq!(status_code, 503);
            assert!(message.starts_with("Failed to call '/error': "));
            assert!(!message.contains("could not deserialize"));
        }
        other => panic!("expected an api error, got {:?}", other),
    }
}

#[test]
fn error_payload_reads_message() {
    assert_eq!(APIError::from_body("{\"message\":\"x\"}").unwrap().message, "x");
    assert_eq!(APIError::from_body("{}").err().unwrap(), "missing or invalid field `message`");
}

#[test]
fn ping_reads_timestamp() {
    let raw = reply("200 OK", "{\"received\":1700000000000000000}");
    let r = PingRequest::new().request(&mut api(), &raw).unwrap();
    assert_eq!(r.received, 1700000000000000000u128);
    assert_eq!(PingResponse::from_body("{\"received\":5}").unwrap().received, 5);
}

#[test]
fn ping_reads_timestamp_beyond_u64() {
    let big = u128::from(u64::MAX) * 1000 + 7;
    let raw = reply("200 OK", &format!("{{\"received\":{}}}", big));
    let r = PingRequest::new().request(&mut api(), &raw).unwrap();
    assert_eq!(r.received, big);
    assert_eq!(PingResponse::from_body(&format!("{{\"received\":{}}}", u128::MAX)).unwrap().received, u128::MAX);
    assert!(PingResponse::from_body("{\"received\":-1}").is_err());
    assert!(PingResponse::from_body("{\"received\":1.5}").is_err());
}

#[test]
fn strings_are_escaped_in_bodies() {
    let mut req = AuthPostRequest::new();
    req.body.user = Some(String::from("a\\b\n\u{1}"));
    assert_eq!(req.body.to_json(), "{\"user\":\"a\\\\b\\n\\u0001\"}");
}

#[test]
fn success_with_wrong_shape_is_diagnosed() {
    let raw = reply("200 OK", "{\"id\":1}");
    match InfoRequest::new().request(&mut api(), &raw) {
        Err(ClientError::DeserializationError { path, message }) => {
            assert_eq!(path, "/info");
            assert_eq!(
                message,
                "Failed to call '/info': could not deserialize response: missing or invalid field `container_id`"
            );
        }
        other => panic!("expected a diagnostic, got {:?}", other),
    }
    let raw = reply("200 OK", "{\"message\":\"busy\"}");
    match InfoRequest::new().request(&mut api(), &raw) {
        Err(ClientError::DeserializationError { message, .. }) => {
            assert_eq!(message, "Failed to call '/info': busy");
        }
        other => panic!("expected a diagnostic, got {:?}", other),
    }
}

#[test]
fn info_reads_container_id() {
    let raw = reply("200 OK", "{\"container_id\":\"abc123\"}");
    let r = InfoRequest::new().request(&mut api(), &raw).unwrap();
    assert_eq!(r.container_id, "abc123");
}

#[test]
fn config_get_reads_all_settings() {
    let body = "{\"network_mode\":3,\"configurable\":true,\"run_level\":2,\"startup_information\":false,\"exit_after\":\"sshd\",\"keep_on_exit\":true}";
    let r = ConfigGetRequest::new().request(&mut api(), &reply("200 OK", body)).unwrap();
    assert_eq!(r.network_mode, ConfigNetworkMode::Host);
    assert!(r.configurable);
    assert_eq!(r.run_level, ConfigRunLevel::Container);
    assert!(!r.startup_information);
    assert_eq!(r.exit_after, "sshd");
    assert!(r.keep_on_exit);
    let bad = body.replace("\"network_mode\":3", "\"network_mode\":9");
    match ConfigGetRequest::new().request(&mut api(), &reply("200 OK", &bad)) {
        Err(ClientError::DeserializationError { message, .. }) => {
            assert!(message.ends_with("missing or invalid field `network_mode`"));
        }
        other => panic!("expected a diagnostic, got {:?}", other.is_ok()),
    }
}

#[test]
fn auth_get_reads_user() {
    let raw = reply("200 OK", "{\"user\":\"root\",\"has_password\":false}");
    let r = AuthGetRequest::new().request(&mut api(), &raw).unwrap();
    assert_eq!(r.user, "root");
    assert!(!r.has_password);
}

#[test]
fn config_set_sends_only_keep_on_exit() {
    let mut req = ConfigPostRequest::new();
    req.body.keep_on_exit = Some(true);
    assert_eq!(req.body.to_json(), "{\"keep_on_exit\":true}");
    assert_eq!(
        req.as_string(),
        "POST /config HTTP/1.0\r\nContent-Length: 21\r\n\r\n{\"keep_on_exit\":true}\r\n"
    );
    assert!(req.reconnect_hint_wanted());
    assert!(req.request(&mut api(), &reply("200 OK", "")).is_ok());
}

#[test]
fn reconnect_hint_only_when_keep_on_exit_requested() {
    let mut req = ConfigPostRequest::new();
    assert!(!req.reconnect_hint_wanted());
    req.body.keep_on_exit = Some(false);
    assert!(!req.reconnect_hint_wanted());
    req.body.keep_on_exit = None;
    req.body.configurable = Some(true);
    assert!(!req.reconnect_hint_wanted());
}

#[test]
fn config_set_encodes_every_setting() {
    let body = ConfigPostBody {
        network_mode: Some(ConfigNetworkMode::Docker),
        configurable: Some(false),
        run_level: Some(ConfigRunLevel::Forever),
        startup_information: Some(true),
        exit_after: Some(String::from("a\"b")),
        keep_on_exit: None,
    };
    assert_eq!(
        body.to_json(),
        "{\"network_mode\":4,\"configurable\":false,\"run_level\":3,\"startup_information\":true,\"exit_after\":\"a\\\"b\"}"
    );
    let empty = ConfigPostBody {
        network_mode: None,
        configurable: None,
        run_level: None,
        startup_information: None,
        exit_after: None,
        keep_on_exit: None,
    };
    assert_eq!(empty.to_json(), "{}");
}

#[test]
fn auth_set_empty_password_removes_authentication() {
    let mut req = AuthPostRequest::new();
    req.body.password = Some(String::new());
    assert_eq!(req.body.to_json(), "{\"password\":\"\"}");
    assert_eq!(
        req.as_string(),
        "POST /auth HTTP/1.0\r\nContent-Length: 15\r\n\r\n{\"password\":\"\"}\r\n"
    );
    assert!(req.request(&mut api(), &reply("200 OK", "")).is_ok());
    assert!(req.removes_authentication());
}

#[test]
fn auth_set_user_and_password() {
    let mut req = AuthPostRequest::new();
    req.body.user = Some(String::from("bob"));
    req.body.password = Some(String::from("pw"));
    assert_eq!(req.body.to_json(), "{\"user\":\"bob\",\"password\":\"pw\"}");
    assert!(!req.removes_authentication());
    req.body.password = None;
    assert!(!req.removes_authentication());
}

#[test]
fn api_keeps_route() {
    let a = api();
    assert_eq!(a.route(), "127.0.0.1:42069");
}

#[test]
fn settings_have_names() {
    assert_eq!(ConfigNetworkMode::NoNetwork.name(), "None");
    assert_eq!(ConfigNetworkMode::Docker.name(), "Docker");
    assert_eq!(ConfigRunLevel::Forever.name(), "Forever");
}
