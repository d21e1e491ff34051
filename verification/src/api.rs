use vstd::prelude::*;

verus! {

/// The token issued by the API for joining a LiveKit room.
#[derive(Clone, Debug)]
pub struct TokenResponse {
    pub token: String,
    pub url: String,
}

/// The payload of the API health endpoint.
#[derive(Clone, Copy, Debug)]
pub struct HealthResponse {
    pub ok: bool,
}

/// `s` with every trailing `'/'` removed.
pub open spec fn trim_trailing_slashes(s: Seq<char>) -> Seq<char>
    decreases s.len(),
{
    if s.len() > 0 && s.last() == '/' {
        trim_trailing_slashes(s.drop_last())
    } else {
        s
    }
}

/// Removes every trailing `'/'` from `s`.
pub fn trim_end_slashes(s: &str) -> (r: &str)
    ensures
        r@ == trim_trailing_slashes(s@),
{
    let n: usize = s.unicode_len();
    let mut end: usize = n;
    assert(s@.subrange(0, n as int) =~= s@);
    while end > 0 && s.get_char(end - 1) == '/'
        invariant
            end <= n,
            n == s@.len(),
            trim_trailing_slashes(s@) == trim_trailing_slashes(s@.subrange(0, end as int)),
        decreases end,
    {
        assert(s@.subrange(0, end as int).drop_last() =~= s@.subrange(0, end - 1));
        end = end - 1;
    }
    s.substring_char(0, end)
}


/// What a call to the API can fail with.
#[derive(Clone, Debug)]
pub enum ApiError {
    /// The health endpoint answered with a status outside 200..=299.
    HealthStatus { status: u16 },
    /// The health response body was not a health payload.
    HealthParseFailed,
    /// The health endpoint answered `ok: false`.
    HealthNotOk,
    /// The token endpoint answered with a status outside 200..=299, and this body.
    TokenStatus { status: u16, body: String },
    /// The token response body was not a token payload.
    TokenParseFailed,
}

/// The body posted to the token endpoint.
#[derive(Clone, Debug)]
pub struct TokenRequest {
    pub room_name: String,
    pub identity: String,
    pub client_type: String,
}

/// Where a token request goes and what it carries.
#[derive(Clone, Debug)]
pub struct TokenCall {
    pub endpoint: String,
    pub body: TokenRequest,
}

/// The URL of `path` under the API base URL: the base without its trailing
/// slashes, then the path.
pub open spec fn endpoint_url(api_base_url: Seq<char>, path: Seq<char>) -> Seq<char> {
    trim_trailing_slashes(api_base_url) + path
}

/// An HTTP status code that counts as success.
pub open spec fn is_success_status(status: u16) -> bool {
    200 <= status <= 299
}

/// Builds the URL of `path` under the API base URL.
pub fn api_endpoint(api_base_url: &str, path: &str) -> (r: String)
    ensures
        r@ == endpoint_url(api_base_url@, path@),
{
    let trimmed = trim_end_slashes(api_base_url);
    String::from_str(trimmed).concat(path)
}

/// The URL of the health endpoint.
pub fn health_endpoint(api_base_url: &str) -> (r: String)
    ensures
        r@ == endpoint_url(api_base_url@, "/health"@),
{
    api_endpoint(api_base_url, "/health")
}

/// The URL of the token endpoint.
pub fn token_endpoint(api_base_url: &str) -> (r: String)
    ensures
        r@ == endpoint_url(api_base_url@, "/token"@),
{
    api_endpoint(api_base_url, "/token")
}

/// Whether an HTTP status code counts as success (200 through 299).
pub fn status_is_success(status: u16) -> (b: bool)
    ensures
        b == is_success_status(status),
        b == (200 <= status && status <= 299),
{
    200 <= status && status <= 299
}

/// The token request for a room, an identity and a client type.
pub fn token_call(api_base_url: &str, room_name: &str, identity: &str, client_type: &str) -> (r:
    TokenCall)
    ensures
        r.endpoint@ == endpoint_url(api_base_url@, "/token"@),
        r.body.room_name@ == room_name@,
        r.body.identity@ == identity@,
        r.body.client_type@ == client_type@,
{
    TokenCall {
        endpoint: token_endpoint(api_base_url),
        body: TokenRequest {
            room_name: String::from_str(room_name),
            identity: String::from_str(identity),
            client_type: String::from_str(client_type),
        },
    }
}

/// Judges the answer of the health endpoint. `payload` is the parsed body,
/// `None` where the body did not parse; it is not looked at when the status
/// is not a success.
pub fn check_health(status: u16, payload: Option<HealthResponse>) -> (r: Result<(), ApiError>)
    ensures
        !is_success_status(status) ==> r == Err::<(), ApiError>(ApiError::HealthStatus { status }),
        is_success_status(status) && payload is None ==> r == Err::<(), ApiError>(
            ApiError::HealthParseFailed,
        ),
        is_success_status(status) && payload is Some && !payload->0.ok ==> r == Err::<(), ApiError>(
            ApiError::HealthNotOk,
        ),
        r is Ok <==> (is_success_status(status) && payload is Some && payload->0.ok),
{
    if !status_is_success(status) {
        return Err(ApiError::HealthStatus { status });
    }
    match payload {
        None => Err(ApiError::HealthParseFailed),
        Some(p) => {
            if p.ok {
                Ok(())
            } else {
                Err(ApiError::HealthNotOk)
            }
        },
    }
}

/// Judges the answer of the token endpoint. `error_body` is the response
/// text, read only when the status is not a success; `payload` is the parsed
/// body, `None` where it did not parse.
pub fn check_token_response(status: u16, error_body: String, payload: Option<TokenResponse>) -> (r:
    Result<TokenResponse, ApiError>)
    ensures
        !is_success_status(status) ==> r == Err::<TokenResponse, ApiError>(
            ApiError::TokenStatus { status, body: error_body },
        ),
        is_success_status(status) && payload is None ==> r == Err::<TokenResponse, ApiError>(
            ApiError::TokenParseFailed,
        ),
        is_success_status(status) && payload is Some ==> r == Ok::<TokenResponse, ApiError>(
            payload->0,
        ),
{
    if !status_is_success(status) {
        return Err(ApiError::TokenStatus { status, body: error_body });
    }
    match payload {
        None => Err(ApiError::TokenParseFailed),
        Some(p) => Ok(p),
    }
}

/// Trimming trailing slashes twice is trimming them once.
pub proof fn law_trim_idempotent(s: Seq<char>)
    ensures
        trim_trailing_slashes(trim_trailing_slashes(s)) == trim_trailing_slashes(s),
    decreases s.len(),
{
    if s.len() > 0 && s.last() == '/' {
        law_trim_idempotent(s.drop_last());
    }
}

/// A trailing slash on the API base URL does not change any endpoint URL.
pub proof fn law_endpoint_ignores_trailing_slash(api_base_url: Seq<char>, path: Seq<char>)
    ensures
        endpoint_url(api_base_url.push('/'), path) == endpoint_url(api_base_url, path),
{
    assert(api_base_url.push('/').drop_last() =~= api_base_url);
}

/// An endpoint URL is the trimmed base followed by the path, and the trimmed
/// base never ends with a slash.
pub proof fn law_endpoint_shape(api_base_url: Seq<char>, path: Seq<char>)
    ensures
        endpoint_url(api_base_url, path).subrange(
            0,
            trim_trailing_slashes(api_base_url).len() as int,
        ) == trim_trailing_slashes(api_base_url),
        trim_trailing_slashes(api_base_url).len() > 0 ==> trim_trailing_slashes(
            api_base_url,
        ).last() != '/',
        trim_trailing_slashes(api_base_url).len() <= api_base_url.len(),
    decreases api_base_url.len(),
{
    let t = trim_trailing_slashes(api_base_url);
    assert((t + path).subrange(0, t.len() as int) =~= t);
    if api_base_url.len() > 0 && api_base_url.last() == '/' {
        law_endpoint_shape(api_base_url.drop_last(), path);
    }
}

/// Trimming keeps a prefix of the text and removes only slashes.
pub proof fn law_trim_removes_only_slashes(s: Seq<char>)
    ensures
        trim_trailing_slashes(s).len() <= s.len(),
        trim_trailing_slashes(s) == s.subrange(0, trim_trailing_slashes(s).len() as int),
        forall|i: int|
            trim_trailing_slashes(s).len() <= i < s.len() ==> #[trigger] s[i] == '/',
    decreases s.len(),
{
    if s.len() > 0 && s.last() == '/' {
        law_trim_removes_only_slashes(s.drop_last());
        let t = trim_trailing_slashes(s);
        assert(s.drop_last().subrange(0, t.len() as int) =~= s.subrange(0, t.len() as int));
        assert forall|i: int| t.len() <= i < s.len() implies #[trigger] s[i] == '/' by {
            if i < s.len() - 1 {
                assert(s.drop_last()[i] == s[i]);
            }
        }
    } else {
        assert(s.subrange(0, s.len() as int) =~= s);
    }
}

/// Every status from 200 through 299 counts as success, and no other.
pub proof fn law_success_is_exactly_2xx(status: u16)
    ensures
        is_success_status(status) <==> (200 <= status && status <= 299),
        status == 200 || status == 201 || status == 204 || status == 299 ==> is_success_status(status),
{
}

} // verus!
