use native_sender::api::{
    api_endpoint, check_health, check_token_response, health_endpoint, status_is_success,
    token_call, token_endpoint, trim_end_slashes, ApiError, HealthResponse, TokenResponse,
};

#[test]
fn trims_every_trailing_slash() {
    assert_eq!(trim_end_slashes("http://localhost:4000///"), "http://localhost:4000");
    assert_eq!(trim_end_slashes("http://localhost:4000"), "http://localhost:4000");
    assert_eq!(trim_end_slashes("///"), "");
    assert_eq!(trim_end_slashes(""), "");
    assert_eq!(trim_end_slashes("a/b/"), "a/b");
}

#[test]
fn trimming_is_idempotent() {
    for s in ["x//", "/", "http://h/api/", "plain", "é/"] {
        let once = trim_end_slashes(s);
        assert_eq!(trim_end_slashes(once), once);
    }
}

#[test]
fn health_endpoint_appends_path() {
    assert_eq!(health_endpoint("http://localhost:4000"), "http://localhost:4000/health");
    assert_eq!(health_endpoint("http://localhost:4000/"), "http://localhost:4000/health");
    assert_eq!(health_endpoint("https://api.example.com/v1//"), "https://api.example.com/v1/health");
}

#[test]
fn token_endpoint_appends_path() {
    assert_eq!(token_endpoint("http://localhost:4000"), "http://localhost:4000/token");
    assert_eq!(token_endpoint("http://localhost:4000/"), "http://localhost:4000/token");
}

#[test]
fn endpoint_ignores_trailing_slash() {
    let base = "https://api.example.com";
    let with_slash = format!("{}/", base);
    assert_eq!(api_endpoint(base, "/token"), api_endpoint(&with_slash, "/token"));
}

#[test]
fn success_statuses_are_2xx() {
    assert!(status_is_success(200));
    assert!(status_is_success(204));
    assert!(status_is_success(299));
    assert!(!status_is_success(199));
    assert!(!status_is_success(300));
    assert!(!status_is_success(404));
    assert!(!status_is_success(500));
}

#[test]
fn token_call_carries_request() {
    let call = token_call("http://localhost:4000/", "my-room", "desktop-publisher", "native_sender");
    assert_eq!(call.endpoint, "http://localhost:4000/token");
    assert_eq!(call.body.room_name, "my-room");
    assert_eq!(call.body.identity, "desktop-publisher");
    assert_eq!(call.body.client_type, "native_sender");
}

#[test]
fn healthy_response_passes() {
    assert!(check_health(200, Some(HealthResponse { ok: true })).is_ok());
}

#[test]
fn health_status_error() {
    match check_health(503, Some(HealthResponse { ok: true })) {
        Err(ApiError::HealthStatus { status }) => assert_eq!(status, 503),
        other => panic!("unexpected {:?}", other),
    }
}

#[test]
fn health_parse_error() {
    assert!(matches!(check_health(200, None), Err(ApiError::HealthParseFailed)));
}

#[test]
fn health_not_ok_error() {
    assert!(matches!(
        check_health(200, Some(HealthResponse { ok: false })),
        Err(ApiError::HealthNotOk)
    ));
}

#[test]
fn token_response_accepted() {
    let payload = TokenResponse { token: "abc".to_string(), url: "wss://lk".to_string() };
    let r = check_token_response(200, String::new(), Some(payload)).unwrap();
    assert_eq!(r.token, "abc");
    assert_eq!(r.url, "wss://lk");
}

#[test]
fn token_status_error_keeps_body() {
    match check_token_response(401, "unauthorized".to_string(), None) {
        Err(ApiError::TokenStatus { status, body }) => {
            assert_eq!(status, 401);
            assert_eq!(body, "unauthorized");
        }
        other => panic!("unexpected {:?}", other),
    }
}

#[test]
fn token_parse_error() {
    assert!(matches!(
        check_token_response(200, String::new(), None),
        Err(ApiError::TokenParseFailed)
    ));
}
