//! The OAuth core: credential resolution, token-exchange requests and the
//! interpretation of the identity provider's replies.
//!
//! Network access stays outside the library. A caller resolves credentials
//! and builds a [`TokenRequest`] here, performs the HTTP call itself, and
//! hands the outcome back as an [`HttpReply`]; the functions here decide
//! what every outcome means.

use crate::env::{Env, EnvKey};
use crate::text::{dec_str, u16_to_string};
use base64::Engine as _;
use vstd::prelude::*;

verus! {

use vstd::string::StringSliceAdditionalSpecFns;
use vstd::utf8::encode_utf8;

/// An error of the OAuth flow.
#[derive(Debug)]
pub enum GoogleOauthError {
    /// A required environment variable is unset; carries the variable's name.
    MissingEnv(&'static str),
    /// The HTTP call itself failed; carries the transport's message.
    Network(String),
    /// The endpoint answered, but not with a usable success; carries the
    /// offending status or the decoder's message.
    InvalidResponse(String),
}

impl GoogleOauthError {
    /// The human-readable rendering of the error.
    pub open spec fn spec_message(&self) -> Seq<char> {
        match self {
            GoogleOauthError::MissingEnv(k) => "missing environment variable: "@ + k@,
            GoogleOauthError::Network(d) => "network error: "@ + d@,
            GoogleOauthError::InvalidResponse(d) => "invalid response: "@ + d@,
        }
    }

    /// Renders the error as the flat string handed to the UI boundary.
    pub fn message(&self) -> (s: String)
        ensures
            s@ == self.spec_message(),
    {
        match self {
            GoogleOauthError::MissingEnv(k) => {
                let mut s = "missing environment variable: ".to_owned();
                s.append(k);
                s
            },
            GoogleOauthError::Network(d) => {
                let mut s = "network error: ".to_owned();
                s.append(d.as_str());
                s
            },
            GoogleOauthError::InvalidResponse(d) => {
                let mut s = "invalid response: ".to_owned();
                s.append(d.as_str());
                s
            },
        }
    }
}

/// The unpadded URL-safe base64 encoding of a byte sequence, as the base64
/// crate's `URL_SAFE_NO_PAD` engine computes it.
pub uninterp spec fn b64url_of(bytes: Seq<u8>) -> Seq<char>;

/// What the base64 crate's `URL_SAFE_NO_PAD` engine decodes a string to:
/// the bytes, or `None` where the string is not valid unpadded URL-safe
/// base64.
pub uninterp spec fn b64url_decode_of(s: Seq<char>) -> Option<Seq<u8>>;

/// Relies on the base64 crate's `URL_SAFE_NO_PAD` engine: `encode` returns
/// the unpadded URL-safe base64 encoding of the input bytes, and `decode`
/// with the same engine recovers exactly those bytes from it. `encode`
/// panics only when four thirds of the input length overflows `usize`,
/// which the length bound rules out.
#[verifier::external_body]
fn b64url_encode(s: &str) -> (r: String)
    requires
        s.spec_bytes().len() <= usize::MAX / 4,
    ensures
        r@ == b64url_of(s.spec_bytes()),
        b64url_decode_of(r@) == Some(s.spec_bytes()),
{
    base64::engine::general_purpose::URL_SAFE_NO_PAD.encode(s)
}

/// Exact, case-sensitive lookup of a required key: the stored value, or a
/// missing-key error naming exactly the key that was asked for. An unset
/// key fails; an explicitly empty value is returned like any other.
pub fn read_env(env: &Env, key: EnvKey) -> (r: Result<String, GoogleOauthError>)
    ensures
        env.spec_get(key) matches Some(v) ==> r == Ok::<String, GoogleOauthError>(v),
        env.spec_get(key) is None ==> (r matches Err(e) && e matches GoogleOauthError::MissingEnv(
            k,
        ) && k@ == key.spec_name()),
{
    match env.get(key) {
        Some(v) => Ok(v),
        None => Err(GoogleOauthError::MissingEnv(key.name())),
    }
}

/// The client secret the resolver hands out: the explicit value when one is
/// configured, else the unpadded URL-safe base64 encoding of the
/// service-role secret's bytes.
pub open spec fn spec_client_secret(env: &Env) -> Seq<char>
    recommends
        env.google_client_secret is Some || env.supabase_service_role_key is Some,
{
    match env.google_client_secret {
        Some(s) => s@,
        None => b64url_of(encode_utf8(env.supabase_service_role_key->0@)),
    }
}

/// Resolves the OAuth client secret. When `GOOGLE_CLIENT_SECRET` is set its
/// value is returned unchanged; otherwise the service-role secret doubles
/// as client-secret material, re-encoded as unpadded URL-safe base64 —
/// decoding the result recovers the service-role secret's bytes exactly.
pub fn derive_client_secret(env: &Env) -> (r: Result<String, GoogleOauthError>)
    requires
        env.wf(),
    ensures
        env.google_client_secret matches Some(s) ==> r == Ok::<String, GoogleOauthError>(s),
        env.google_client_secret is None && env.supabase_service_role_key is Some ==> (r matches Ok(
            v,
        ) && v@ == b64url_of(encode_utf8(env.supabase_service_role_key->0@)) && b64url_decode_of(
            v@,
        ) == Some(encode_utf8(env.supabase_service_role_key->0@))),
        env.google_client_secret is None && env.supabase_service_role_key is None ==> (
        r matches Err(e) && e matches GoogleOauthError::MissingEnv(k) && k@
            == "SUPABASE_SERVICE_ROLE_KEY"@),
        r matches Ok(v) ==> v@ == spec_client_secret(env),
{
    if let Some(secret) = env.get(EnvKey::GoogleClientSecret) {
        return Ok(secret);
    }
    match read_env(env, EnvKey::SupabaseServiceRoleKey) {
        Ok(service_role) => {
            proof {
                assert(usize::MAX / 8 <= usize::MAX / 4) by (nonlinear_arith);
            }
            Ok(b64url_encode(service_role.as_str()))
        },
        Err(e) => Err(e),
    }
}

/// The flat missing-variable message shown at the UI boundary.
pub open spec fn missing_env_message(key: Seq<char>) -> Seq<char> {
    "missing environment variable: "@ + key
}

/// The token endpoint's reply, decoded. Only `access_token` is required;
/// the other fields default to absent.
#[derive(Debug)]
pub struct TokenResponse {
    pub access_token: String,
    pub refresh_token: Option<String>,
    pub expires_in: Option<i64>,
    pub scope: Option<String>,
    pub token_type: Option<String>,
}

/// One form-encoded request to the token endpoint. Exactly one of
/// `{code, code_verifier}` or `{refresh_token}` is populated, depending on
/// the grant type; the unused fields stay absent.
#[derive(Debug)]
pub struct TokenRequest {
    pub client_id: String,
    pub client_secret: String,
    pub redirect_uri: String,
    pub grant_type: String,
    pub code: Option<String>,
    pub code_verifier: Option<String>,
    pub refresh_token: Option<String>,
}

impl TokenRequest {
    /// The two request shapes never mix: a request carrying a refresh token
    /// carries neither a code nor a verifier.
    pub open spec fn grants_exclusive(&self) -> bool {
        !(self.refresh_token is Some && (self.code is Some || self.code_verifier is Some))
    }
}

/// Builds the authorization-code request: code and verifier populated,
/// refresh token absent.
pub fn authorization_code_request(
    client_id: String,
    client_secret: String,
    redirect_uri: String,
    code: String,
    code_verifier: String,
) -> (r: TokenRequest)
    ensures
        r.client_id == client_id,
        r.client_secret == client_secret,
        r.redirect_uri == redirect_uri,
        r.grant_type@ == "authorization_code"@,
        r.code == Some(code),
        r.code_verifier == Some(code_verifier),
        r.refresh_token is None,
        r.grants_exclusive(),
{
    TokenRequest {
        client_id,
        client_secret,
        redirect_uri,
        grant_type: "authorization_code".to_owned(),
        code: Some(code),
        code_verifier: Some(code_verifier),
        refresh_token: None,
    }
}

/// Builds the refresh request: refresh token populated, code and verifier
/// absent.
pub fn refresh_token_request(
    client_id: String,
    client_secret: String,
    redirect_uri: String,
    refresh_token: String,
) -> (r: TokenRequest)
    ensures
        r.client_id == client_id,
        r.client_secret == client_secret,
        r.redirect_uri == redirect_uri,
        r.grant_type@ == "refresh_token"@,
        r.code is None,
        r.code_verifier is None,
        r.refresh_token == Some(refresh_token),
        r.grants_exclusive(),
{
    TokenRequest {
        client_id,
        client_secret,
        redirect_uri,
        grant_type: "refresh_token".to_owned(),
        code: None,
        code_verifier: None,
        refresh_token: Some(refresh_token),
    }
}

/// The form fields of a request, in wire order: the four fixed fields,
/// then whichever optional fields are populated.
pub open spec fn spec_form_pairs(req: TokenRequest) -> Seq<(Seq<char>, Seq<char>)> {
    let base = seq![
        ("client_id"@, req.client_id@),
        ("client_secret"@, req.client_secret@),
        ("redirect_uri"@, req.redirect_uri@),
        ("grant_type"@, req.grant_type@),
    ];
    let with_code = if req.code is Some {
        base.push(("code"@, req.code->0@))
    } else {
        base
    };
    let with_verifier = if req.code_verifier is Some {
        with_code.push(("code_verifier"@, req.code_verifier->0@))
    } else {
        with_code
    };
    if req.refresh_token is Some {
        with_verifier.push(("refresh_token"@, req.refresh_token->0@))
    } else {
        with_verifier
    }
}

/// Lays the request out as key–value pairs for a form-encoded POST body,
/// absent optional fields skipped.
pub fn form_pairs(req: &TokenRequest) -> (r: Vec<(String, String)>)
    ensures
        r.deep_view() == spec_form_pairs(*req),
{
    let mut v: Vec<(String, String)> = Vec::new();
    v.push(("client_id".to_owned(), req.client_id.clone()));
    v.push(("client_secret".to_owned(), req.client_secret.clone()));
    v.push(("redirect_uri".to_owned(), req.redirect_uri.clone()));
    v.push(("grant_type".to_owned(), req.grant_type.clone()));
    if let Some(code) = &req.code {
        v.push(("code".to_owned(), code.clone()));
    }
    if let Some(verifier) = &req.code_verifier {
        v.push(("code_verifier".to_owned(), verifier.clone()));
    }
    if let Some(token) = &req.refresh_token {
        v.push(("refresh_token".to_owned(), token.clone()));
    }
    proof {
        assert(v.deep_view() =~~= spec_form_pairs(*req));
    }
    v
}

/// What came back from one HTTP call: either the transport failed with a
/// message, or the endpoint answered with a status and a decoded body (or
/// the decoder's message where the body did not fit).
#[derive(Debug)]
pub enum HttpReply<T> {
    Transport(String),
    Response(u16, Result<T, String>),
}

/// A 2xx status.
pub open spec fn is_success_status(status: u16) -> bool {
    200 <= status < 300
}

/// The message carried when the token endpoint answers with a bad status.
pub open spec fn token_status_message(status: u16) -> Seq<char> {
    "Google token endpoint returned status "@ + dec_str(status as nat)
}

/// The message carried when the userinfo endpoint answers with a bad
/// status.
pub open spec fn userinfo_status_message(status: u16) -> Seq<char> {
    "Google userinfo endpoint returned status "@ + dec_str(status as nat)
}

/// Decides what the token endpoint's reply means: a transport failure is a
/// network error, a non-2xx status an invalid response naming the numeric
/// status, an undecodable 2xx body an invalid response with the decoder's
/// message, and a decoded 2xx body the token response itself.
pub fn post_token_outcome(reply: HttpReply<TokenResponse>) -> (r: Result<
    TokenResponse,
    GoogleOauthError,
>)
    ensures
        reply matches HttpReply::Transport(d) ==> (r matches Err(e) && e
            matches GoogleOauthError::Network(m) && m == d),
        reply matches HttpReply::Response(status, body) ==> {
            &&& !is_success_status(status) ==> (r matches Err(e) && e
                matches GoogleOauthError::InvalidResponse(m) && m@ == token_status_message(status))
            &&& body matches Ok(t) ==> (is_success_status(status) ==> r == Ok::<
                TokenResponse,
                GoogleOauthError,
            >(t))
            &&& body matches Err(d) ==> (is_success_status(status) ==> (r matches Err(e) && e
                matches GoogleOauthError::InvalidResponse(m) && m == d))
        },
{
    match reply {
        HttpReply::Transport(detail) => Err(GoogleOauthError::Network(detail)),
        HttpReply::Response(status, body) => {
            if !(200 <= status && status < 300) {
                let digits = u16_to_string(status);
                let mut m = "Google token endpoint returned status ".to_owned();
                m.append(digits.as_str());
                Err(GoogleOauthError::InvalidResponse(m))
            } else {
                match body {
                    Ok(tokens) => Ok(tokens),
                    Err(detail) => Err(GoogleOauthError::InvalidResponse(detail)),
                }
            }
        },
    }
}

/// The userinfo endpoint's reply, decoded. Both fields may be absent.
#[derive(Debug)]
pub struct UserInfo {
    pub email: Option<String>,
    pub verified_email: Option<bool>,
}

/// Decides what the userinfo endpoint's reply means. A 401 is absorbed
/// into a successful "no email known" — an expired token must not abort
/// the flow — while every other bad status, a transport failure and an
/// undecodable body are errors. A decoded 2xx body yields its (possibly
/// absent) email.
pub fn lookup_email_outcome(reply: HttpReply<UserInfo>) -> (r: Result<
    Option<String>,
    GoogleOauthError,
>)
    ensures
        reply matches HttpReply::Transport(d) ==> (r matches Err(e) && e
            matches GoogleOauthError::Network(m) && m == d),
        reply matches HttpReply::Response(status, body) ==> {
            &&& status == 401 ==> r == Ok::<Option<String>, GoogleOauthError>(None)
            &&& status != 401 && !is_success_status(status) ==> (r matches Err(e) && e
                matches GoogleOauthError::InvalidResponse(m) && m@ == userinfo_status_message(
                status,
            ))
            &&& body matches Ok(u) ==> (is_success_status(status) ==> r == Ok::<
                Option<String>,
                GoogleOauthError,
            >(u.email))
            &&& body matches Err(d) ==> (is_success_status(status) ==> (r matches Err(e) && e
                matches GoogleOauthError::InvalidResponse(m) && m == d))
        },
{
    match reply {
        HttpReply::Transport(detail) => Err(GoogleOauthError::Network(detail)),
        HttpReply::Response(status, body) => {
            if status == 401 {
                return Ok(None);
            }
            if !(200 <= status && status < 300) {
                let digits = u16_to_string(status);
                let mut m = "Google userinfo endpoint returned status ".to_owned();
                m.append(digits.as_str());
                return Err(GoogleOauthError::InvalidResponse(m));
            }
            match body {
                Ok(info) => Ok(info.email),
                Err(detail) => Err(GoogleOauthError::InvalidResponse(detail)),
            }
        },
    }
}

/// What the generic allow-listed lookup returns for a plain required key:
/// the stored value, or the flat missing-variable message.
pub open spec fn spec_flat_read(env: &Env, key: EnvKey, r: Result<String, String>) -> bool {
    match env.spec_get(key) {
        Some(v) => r == Ok::<String, String>(v),
        None => r matches Err(m) && m@ == missing_env_message(key.spec_name()),
    }
}

/// What the generic lookup returns for `GOOGLE_CLIENT_SECRET`: the derived
/// secret, so the caller never learns whether the value was explicit or
/// derived.
pub open spec fn spec_flat_secret(env: &Env, r: Result<String, String>) -> bool {
    if env.google_client_secret is Some || env.supabase_service_role_key is Some {
        r matches Ok(v) && v@ == spec_client_secret(env)
    } else {
        r matches Err(m) && m@ == missing_env_message("SUPABASE_SERVICE_ROLE_KEY"@)
    }
}

/// The keys the generic lookup accepts. This set is an invariant: it must
/// never grow to expose arbitrary process environment.
pub open spec fn spec_allowed_key(key: Seq<char>) -> bool {
    ||| key == "GOOGLE_CLIENT_ID"@
    ||| key == "GOOGLE_CLIENT_SECRET"@
    ||| key == "GOOGLE_REDIRECT_URI"@
    ||| key == "CALENDAR_TOKEN_SECRET"@
}

/// The rejection message for a key outside the allow-list.
pub open spec fn not_allowed_message(key: Seq<char>) -> Seq<char> {
    "Environment variable '"@ + key + "' is not allowed"@
}

/// The allow-listed generic lookup: exactly four keys resolve, every other
/// key is rejected whether or not it is set. `GOOGLE_CLIENT_SECRET` goes
/// through the derivation path, not a raw lookup.
pub fn get_env_var(env: &Env, key: String) -> (r: Result<String, String>)
    requires
        env.wf(),
    ensures
        key@ == "GOOGLE_CLIENT_ID"@ ==> spec_flat_read(env, EnvKey::GoogleClientId, r),
        key@ == "GOOGLE_CLIENT_SECRET"@ ==> spec_flat_secret(env, r),
        key@ == "GOOGLE_REDIRECT_URI"@ ==> spec_flat_read(env, EnvKey::GoogleRedirectUri, r),
        key@ == "CALENDAR_TOKEN_SECRET"@ ==> spec_flat_read(env, EnvKey::CalendarTokenSecret, r),
        !spec_allowed_key(key@) ==> (r matches Err(m) && m@ == not_allowed_message(key@)),
{
    proof {
        reveal_strlit("GOOGLE_CLIENT_ID");
        reveal_strlit("GOOGLE_CLIENT_SECRET");
        reveal_strlit("GOOGLE_REDIRECT_URI");
        reveal_strlit("CALENDAR_TOKEN_SECRET");
        assert("GOOGLE_CLIENT_ID"@.len() == 16);
        assert("GOOGLE_CLIENT_SECRET"@.len() == 20);
        assert("GOOGLE_REDIRECT_URI"@.len() == 19);
        assert("CALENDAR_TOKEN_SECRET"@.len() == 21);
    }
    if key == "GOOGLE_CLIENT_ID".to_owned() {
        flatten_env_result(read_env(env, EnvKey::GoogleClientId))
    } else if key == "GOOGLE_CLIENT_SECRET".to_owned() {
        flatten_env_result(derive_client_secret(env))
    } else if key == "GOOGLE_REDIRECT_URI".to_owned() {
        flatten_env_result(read_env(env, EnvKey::GoogleRedirectUri))
    } else if key == "CALENDAR_TOKEN_SECRET".to_owned() {
        flatten_env_result(read_env(env, EnvKey::CalendarTokenSecret))
    } else {
        let mut m = "Environment variable '".to_owned();
        m.append(key.as_str());
        m.append("' is not allowed");
        Err(m)
    }
}

/// Flattens an internal error to the UI boundary's string form.
fn flatten_env_result(r: Result<String, GoogleOauthError>) -> (f: Result<String, String>)
    ensures
        r matches Ok(v) ==> f == Ok::<String, String>(v),
        r matches Err(e) ==> (f matches Err(m) && m@ == e.spec_message()),
{
    match r {
        Ok(v) => Ok(v),
        Err(e) => Err(e.message()),
    }
}

/// Step one of the exchange command: resolve the client id, the redirect
/// URI and the (possibly derived) client secret, and build the
/// authorization-code request. The first missing variable aborts the
/// command with its flat message.
pub fn prepare_exchange(env: &Env, code: String, code_verifier: String) -> (r: Result<
    TokenRequest,
    String,
>)
    requires
        env.wf(),
    ensures
        env.google_client_id is None ==> (r matches Err(m) && m@ == missing_env_message(
            "GOOGLE_CLIENT_ID"@,
        )),
        env.google_client_id is Some && env.google_redirect_uri is None ==> (r matches Err(m)
            && m@ == missing_env_message("GOOGLE_REDIRECT_URI"@)),
        env.google_client_id is Some && env.google_redirect_uri is Some
            && env.google_client_secret is None && env.supabase_service_role_key is None ==> (r
            matches Err(m) && m@ == missing_env_message("SUPABASE_SERVICE_ROLE_KEY"@)),
        env.google_client_id is Some && env.google_redirect_uri is Some && (
        env.google_client_secret is Some || env.supabase_service_role_key is Some) ==> (r
            matches Ok(req) && req.client_id@ == env.google_client_id->0@ && req.client_secret@
            == spec_client_secret(env) && req.redirect_uri@ == env.google_redirect_uri->0@
            && req.grant_type@ == "authorization_code"@ && req.code == Some(code)
            && req.code_verifier == Some(code_verifier) && req.refresh_token is None),
{
    let client_id = match flatten_env_result(read_env(env, EnvKey::GoogleClientId)) {
        Ok(v) => v,
        Err(m) => {
            return Err(m);
        },
    };
    let redirect_uri = match flatten_env_result(read_env(env, EnvKey::GoogleRedirectUri)) {
        Ok(v) => v,
        Err(m) => {
            return Err(m);
        },
    };
    let client_secret = match flatten_env_result(derive_client_secret(env)) {
        Ok(v) => v,
        Err(m) => {
            return Err(m);
        },
    };
    Ok(authorization_code_request(client_id, client_secret, redirect_uri, code, code_verifier))
}

/// Step one of the refresh command: resolve the client id and the client
/// secret and build the refresh request. No redirect URI is needed; an
/// empty string fills the slot the wire format still carries.
pub fn prepare_refresh(env: &Env, refresh_token: String) -> (r: Result<TokenRequest, String>)
    requires
        env.wf(),
    ensures
        env.google_client_id is None ==> (r matches Err(m) && m@ == missing_env_message(
            "GOOGLE_CLIENT_ID"@,
        )),
        env.google_client_id is Some && env.google_client_secret is None
            && env.supabase_service_role_key is None ==> (r matches Err(m) && m@
            == missing_env_message("SUPABASE_SERVICE_ROLE_KEY"@)),
        env.google_client_id is Some && (env.google_client_secret is Some
            || env.supabase_service_role_key is Some) ==> (r matches Ok(req) && req.client_id@
            == env.google_client_id->0@ && req.client_secret@ == spec_client_secret(env)
            && req.redirect_uri@ == Seq::<char>::empty() && req.grant_type@ == "refresh_token"@
            && req.code is None && req.code_verifier is None && req.refresh_token == Some(
            refresh_token,
        )),
{
    let client_id = match flatten_env_result(read_env(env, EnvKey::GoogleClientId)) {
        Ok(v) => v,
        Err(m) => {
            return Err(m);
        },
    };
    let client_secret = match flatten_env_result(derive_client_secret(env)) {
        Ok(v) => v,
        Err(m) => {
            return Err(m);
        },
    };
    proof {
        reveal_strlit("");
    }
    Ok(refresh_token_request(client_id, client_secret, "".to_owned(), refresh_token))
}

/// The token endpoint's reply, flattened for the UI boundary: the decoded
/// token response, or the rendered error of [`post_token_outcome`].
pub fn finish_token_exchange(reply: HttpReply<TokenResponse>) -> (r: Result<TokenResponse, String>)
    ensures
        reply matches HttpReply::Transport(d) ==> (r matches Err(m) && m@ == "network error: "@
            + d@),
        reply matches HttpReply::Response(status, body) ==> {
            &&& !is_success_status(status) ==> (r matches Err(m) && m@ == "invalid response: "@
                + token_status_message(status))
            &&& body matches Ok(t) ==> (is_success_status(status) ==> r == Ok::<
                TokenResponse,
                String,
            >(t))
            &&& body matches Err(d) ==> (is_success_status(status) ==> (r matches Err(m) && m@
                == "invalid response: "@ + d@))
        },
{
    match post_token_outcome(reply) {
        Ok(tokens) => Ok(tokens),
        Err(e) => Err(e.message()),
    }
}

/// Step two of the exchange command: pair the token response with what the
/// userinfo endpoint said about the user's email. A 401 yields the pair
/// with no email; every other failure aborts with its flat message.
pub fn finish_exchange(tokens: TokenResponse, reply: HttpReply<UserInfo>) -> (r: Result<
    (TokenResponse, Option<String>),
    String,
>)
    ensures
        reply matches HttpReply::Transport(d) ==> (r matches Err(m) && m@ == "network error: "@
            + d@),
        reply matches HttpReply::Response(status, body) ==> {
            &&& status == 401 ==> r == Ok::<(TokenResponse, Option<String>), String>(
                (tokens, None),
            )
            &&& status != 401 && !is_success_status(status) ==> (r matches Err(m) && m@
                == "invalid response: "@ + userinfo_status_message(status))
            &&& body matches Ok(u) ==> (is_success_status(status) ==> r == Ok::<
                (TokenResponse, Option<String>),
                String,
            >((tokens, u.email)))
            &&& body matches Err(d) ==> (is_success_status(status) ==> (r matches Err(m) && m@
                == "invalid response: "@ + d@))
        },
{
    match lookup_email_outcome(reply) {
        Ok(email) => Ok((tokens, email)),
        Err(e) => Err(e.message()),
    }
}

} // verus!
