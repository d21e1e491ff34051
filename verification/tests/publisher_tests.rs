use native_sender::api::TokenResponse;
use native_sender::publisher::{token_preview, token_size};

fn token(t: &str) -> TokenResponse {
    TokenResponse { token: t.to_string(), url: "wss://example.livekit.cloud".to_string() }
}

#[test]
fn preview_is_first_ten_bytes() {
    let t = token("eyJhbGciOiJIUzI1NiJ9.payload");
    assert_eq!(token_preview(&t), "eyJhbGciOi");
    assert_eq!(token_size(&t), 28);
}

#[test]
fn preview_of_short_token_is_whole_token() {
    let t = token("abc");
    assert_eq!(token_preview(&t), "abc");
    assert_eq!(token_size(&t), 3);
    let empty = token("");
    assert_eq!(token_preview(&empty), "");
}
