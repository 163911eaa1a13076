use calendar_oauth::env::Env;
use calendar_oauth::google::{
    authorization_code_request, finish_exchange, finish_token_exchange, form_pairs,
    lookup_email_outcome, post_token_outcome, prepare_exchange, prepare_refresh,
    refresh_token_request, GoogleOauthError, HttpReply, TokenResponse, UserInfo,
};

fn empty_env() -> Env {
    Env {
        google_client_id: None,
        google_client_secret: None,
        google_redirect_uri: None,
        supabase_service_role_key: None,
        calendar_token_secret: None,
        supabase_url: None,
        vite_supabase_url: None,
    }
}

fn oauth_env() -> Env {
    let mut env = empty_env();
    env.google_client_id = Some("client-1".to_string());
    env.google_client_secret = Some("secret-1".to_string());
    env.google_redirect_uri = Some("https://app/cb".to_string());
    env
}

fn bare_token(access: &str) -> TokenResponse {
    TokenResponse {
        access_token: access.to_string(),
        refresh_token: None,
        expires_in: None,
        scope: None,
        token_type: None,
    }
}

#[test]
fn authorization_code_request_never_carries_refresh_token() {
    let req = authorization_code_request(
        "cid".to_string(),
        "sec".to_string(),
        "https://app/cb".to_string(),
        "code-1".to_string(),
        "ver-1".to_string(),
    );
    assert_eq!(req.grant_type, "authorization_code");
    assert_eq!(req.code.as_deref(), Some("code-1"));
    assert_eq!(req.code_verifier.as_deref(), Some("ver-1"));
    assert!(req.refresh_token.is_none());
}

#[test]
fn refresh_request_never_carries_code_or_verifier() {
    let req = refresh_token_request(
        "cid".to_string(),
        "sec".to_string(),
        String::new(),
        "refresh-1".to_string(),
    );
    assert_eq!(req.grant_type, "refresh_token");
    assert!(req.code.is_none());
    assert!(req.code_verifier.is_none());
    assert_eq!(req.refresh_token.as_deref(), Some("refresh-1"));
}

#[test]
fn form_pairs_skips_absent_fields() {
    let req = refresh_token_request(
        "cid".to_string(),
        "sec".to_string(),
        String::new(),
        "refresh-1".to_string(),
    );
    let pairs = form_pairs(&req);
    let keys: Vec<&str> = pairs.iter().map(|p| p.0.as_str()).collect();
    assert_eq!(
        keys,
        vec!["client_id", "client_secret", "redirect_uri", "grant_type", "refresh_token"]
    );
    assert_eq!(pairs[4].1, "refresh-1");
}

#[test]
fn form_pairs_orders_code_fields() {
    let req = authorization_code_request(
        "cid".to_string(),
        "sec".to_string(),
        "https://app/cb".to_string(),
        "code-1".to_string(),
        "ver-1".to_string(),
    );
    let pairs = form_pairs(&req);
    let keys: Vec<&str> = pairs.iter().map(|p| p.0.as_str()).collect();
    assert_eq!(
        keys,
        vec!["client_id", "client_secret", "redirect_uri", "grant_type", "code", "code_verifier"]
    );
    assert_eq!(pairs[0].1, "cid");
    assert_eq!(pairs[4].1, "code-1");
    assert_eq!(pairs[5].1, "ver-1");
}

#[test]
fn token_success_with_only_access_token() {
    let reply = HttpReply::Response(200, Ok(bare_token("abc")));
    let tokens = post_token_outcome(reply).unwrap();
    assert_eq!(tokens.access_token, "abc");
    assert!(tokens.refresh_token.is_none());
    assert!(tokens.expires_in.is_none());
    assert!(tokens.scope.is_none());
    assert!(tokens.token_type.is_none());
}

#[test]
fn token_bad_status_mentions_it() {
    let reply: HttpReply<TokenResponse> =
        HttpReply::Response(400, Err("body ignored on bad status".to_string()));
    match post_token_outcome(reply) {
        Err(GoogleOauthError::InvalidResponse(m)) => {
            assert_eq!(m, "Google token endpoint returned status 400");
        },
        _ => panic!("expected an invalid-response error"),
    }
    let reply: HttpReply<TokenResponse> =
        HttpReply::Response(400, Err("detail".to_string()));
    let err = finish_token_exchange(reply).unwrap_err();
    assert_eq!(err, "invalid response: Google token endpoint returned status 400");
}

#[test]
fn token_transport_failure_is_network_error() {
    let reply: HttpReply<TokenResponse> = HttpReply::Transport("connection reset".to_string());
    let err = finish_token_exchange(reply).unwrap_err();
    assert_eq!(err, "network error: connection reset");
}

#[test]
fn token_undecodable_success_body_is_invalid_response() {
    let reply: HttpReply<TokenResponse> =
        HttpReply::Response(200, Err("missing field access_token".to_string()));
    let err = finish_token_exchange(reply).unwrap_err();
    assert_eq!(err, "invalid response: missing field access_token");
}

#[test]
fn userinfo_unauthorized_yields_no_email_not_error() {
    let reply: HttpReply<UserInfo> = HttpReply::Response(401, Err("unused".to_string()));
    assert_eq!(lookup_email_outcome(reply).unwrap(), None);
}

#[test]
fn userinfo_success_yields_email() {
    let reply = HttpReply::Response(
        200,
        Ok(UserInfo { email: Some("a@b.com".to_string()), verified_email: Some(true) }),
    );
    assert_eq!(lookup_email_outcome(reply).unwrap(), Some("a@b.com".to_string()));
}

#[test]
fn userinfo_success_with_null_email_yields_none() {
    let reply = HttpReply::Response(200, Ok(UserInfo { email: None, verified_email: None }));
    assert_eq!(lookup_email_outcome(reply).unwrap(), None);
}

#[test]
fn userinfo_other_bad_status_is_error() {
    let reply: HttpReply<UserInfo> = HttpReply::Response(500, Err("unused".to_string()));
    match lookup_email_outcome(reply) {
        Err(GoogleOauthError::InvalidResponse(m)) => {
            assert_eq!(m, "Google userinfo endpoint returned status 500");
        },
        _ => panic!("expected an invalid-response error"),
    }
}

#[test]
fn prepare_exchange_fails_fast_on_missing_client_id() {
    let mut env = oauth_env();
    env.google_client_id = None;
    let err = prepare_exchange(&env, "c".to_string(), "v".to_string()).unwrap_err();
    assert_eq!(err, "missing environment variable: GOOGLE_CLIENT_ID");
}

#[test]
fn prepare_exchange_fails_on_missing_redirect_uri() {
    let mut env = oauth_env();
    env.google_redirect_uri = None;
    let err = prepare_exchange(&env, "c".to_string(), "v".to_string()).unwrap_err();
    assert_eq!(err, "missing environment variable: GOOGLE_REDIRECT_URI");
}

#[test]
fn prepare_refresh_builds_refresh_request_with_empty_redirect() {
    let env = oauth_env();
    let req = prepare_refresh(&env, "refresh-1".to_string()).unwrap();
    assert_eq!(req.client_id, "client-1");
    assert_eq!(req.client_secret, "secret-1");
    assert_eq!(req.redirect_uri, "");
    assert_eq!(req.grant_type, "refresh_token");
    assert!(req.code.is_none());
    assert!(req.code_verifier.is_none());
    assert_eq!(req.refresh_token.as_deref(), Some("refresh-1"));
}

#[test]
fn exchange_end_to_end_pairs_tokens_with_email() {
    let env = oauth_env();
    let req = prepare_exchange(&env, "code1".to_string(), "verifier1".to_string()).unwrap();
    assert_eq!(req.client_id, "client-1");
    assert_eq!(req.client_secret, "secret-1");
    assert_eq!(req.redirect_uri, "https://app/cb");
    assert_eq!(req.code.as_deref(), Some("code1"));
    assert_eq!(req.code_verifier.as_deref(), Some("verifier1"));
    assert!(req.refresh_token.is_none());

    let mut tokens_in = bare_token("at-1");
    tokens_in.refresh_token = Some("rt-1".to_string());
    let tokens = finish_token_exchange(HttpReply::Response(200, Ok(tokens_in))).unwrap();
    assert_eq!(tokens.access_token, "at-1");

    let userinfo = UserInfo { email: Some("a@b.com".to_string()), verified_email: Some(true) };
    let (tokens, email) =
        finish_exchange(tokens, HttpReply::Response(200, Ok(userinfo))).unwrap();
    assert_eq!(tokens.access_token, "at-1");
    assert_eq!(tokens.refresh_token.as_deref(), Some("rt-1"));
    assert_eq!(email, Some("a@b.com".to_string()));
}

#[test]
fn exchange_tolerates_unauthorized_userinfo() {
    let tokens = bare_token("at-2");
    let reply: HttpReply<UserInfo> = HttpReply::Response(401, Err("unused".to_string()));
    let (tokens, email) = finish_exchange(tokens, reply).unwrap();
    assert_eq!(tokens.access_token, "at-2");
    assert_eq!(email, None);
}
