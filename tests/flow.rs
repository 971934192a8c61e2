use home_auth::flow::{
    bearer_token, AuthServer, AuthorizationOutcome, AuthorizationRequest, Consent, FlowError, RefreshRequest,
    TokenRequest, TokenResponse,
};
use oxide_auth::primitives::scope::Scope;

const NOW: i64 = 1_700_000_000;
const REDIRECT: &str = "http://localhost:8000/clientside/endpoint";

fn scope(text: &str) -> Scope {
    text.parse::<Scope>().unwrap()
}

fn auth_request(client: &str, redirect: Option<&str>, state: Option<&str>) -> AuthorizationRequest {
    AuthorizationRequest {
        response_type: Some("code".to_string()),
        client_id: Some(client.to_string()),
        redirect_uri: redirect.map(|s| s.to_string()),
        scope: Some("default-scope".to_string()),
        state: state.map(|s| s.to_string()),
    }
}

fn approve(owner: &str) -> Consent {
    Consent::Answer { allowed: true, owner: Some(owner.to_string()) }
}

fn code_for(server: &mut AuthServer, owner: &str) -> String {
    match server.authorization_flow(&auth_request("LocalClient", Some(REDIRECT), None), approve(owner), NOW) {
        Ok(AuthorizationOutcome::Redirect { code, .. }) => code,
        _ => panic!("no code issued"),
    }
}

fn token_request(code: &str, redirect: &str) -> TokenRequest {
    TokenRequest {
        grant_type: Some("authorization_code".to_string()),
        code: Some(code.to_string()),
        redirect_uri: Some(redirect.to_string()),
        client_id: Some("LocalClient".to_string()),
    }
}

fn tokens_for(server: &mut AuthServer, owner: &str) -> TokenResponse {
    let code = code_for(server, owner);
    server.access_token_flow(&token_request(&code, REDIRECT), NOW + 10).unwrap()
}

fn refresh_request(token: &str, scope: Option<&str>) -> RefreshRequest {
    RefreshRequest {
        grant_type: Some("refresh_token".to_string()),
        refresh_token: Some(token.to_string()),
        scope: scope.map(|s| s.to_string()),
    }
}

#[test]
fn local_client_full_scenario() {
    let mut server = AuthServer::preconfigured();
    let req = auth_request("LocalClient", Some(REDIRECT), Some("st4te"));
    let (redirect_uri, code, state) = match server.authorization_flow(&req, approve("42"), NOW) {
        Ok(AuthorizationOutcome::Redirect { redirect_uri, code, state }) => (redirect_uri, code, state),
        _ => panic!("expected a redirect"),
    };
    assert_eq!(redirect_uri, REDIRECT);
    assert_eq!(state.as_deref(), Some("st4te"));
    let t = server.access_token_flow(&token_request(&code, REDIRECT), NOW + 5).unwrap();
    assert!(!t.access_token.is_empty());
    assert!(!t.refresh_token.is_empty());
    assert!(t.expires_in > 0);
    assert_eq!(t.expires_in, 595);
    let header = format!("Bearer {}", t.access_token);
    let g = server.resource_flow(Some(&header), &scope("default-scope"), NOW + 6).unwrap();
    assert_eq!(g.owner_id, "42");
    let garbage = server.resource_flow(Some("Bearer garbage"), &scope("default-scope"), NOW + 6);
    assert!(matches!(garbage, Err(FlowError::InvalidToken)));
    let empty = server.resource_flow(Some(""), &scope("default-scope"), NOW + 6);
    assert!(matches!(empty, Err(FlowError::InvalidToken)));
    let none = server.resource_flow(None, &scope("default-scope"), NOW + 6);
    assert!(matches!(none, Err(FlowError::InvalidToken)));
}

#[test]
fn unauthenticated_consent_is_denied() {
    let mut server = AuthServer::preconfigured();
    let req = auth_request("LocalClient", Some(REDIRECT), None);
    let r = server.authorization_flow(&req, Consent::Answer { allowed: true, owner: None }, NOW);
    assert!(matches!(r, Err(FlowError::ConsentDenied)));
}

#[test]
fn denied_consent_is_denied() {
    let mut server = AuthServer::preconfigured();
    let req = auth_request("LocalClient", Some(REDIRECT), None);
    let r = server.authorization_flow(&req, Consent::Answer { allowed: false, owner: Some("42".to_string()) }, NOW);
    assert!(matches!(r, Err(FlowError::ConsentDenied)));
}

#[test]
fn prompt_renders_consent_page() {
    let mut server = AuthServer::preconfigured();
    let req = auth_request("LocalClient", None, Some("xyz"));
    let page = match server.authorization_flow(&req, Consent::Prompt, NOW) {
        Ok(AuthorizationOutcome::ConsentPage(page)) => page,
        _ => panic!("expected a consent page"),
    };
    let query = "response_type=code&client_id=LocalClient&redirect_uri=http%3A%2F%2Flocalhost%3A8000%2Fclientside%2Fendpoint&state=xyz";
    let expected = format!(
        "<html>'LocalClient' (at {}) is requesting permission for 'default-scope'\n<form method=\"post\">\n    <input type=\"submit\" value=\"Accept\" formaction=\"/api/v1/authorize?{}&allow=true\">\n    <input type=\"submit\" value=\"Deny\" formaction=\"/api/v1/authorize?{}&deny=true\">\n</form>\n</html>",
        REDIRECT, query, query
    );
    assert_eq!(page, expected);
}

#[test]
fn unknown_client_and_redirect_mismatch() {
    let mut server = AuthServer::preconfigured();
    let r = server.authorization_flow(&auth_request("Other", Some(REDIRECT), None), approve("42"), NOW);
    assert!(matches!(r, Err(FlowError::UnknownClient)));
    let r = server.authorization_flow(&auth_request("LocalClient", Some("http://evil.example/"), None), approve("42"), NOW);
    assert!(matches!(r, Err(FlowError::RedirectMismatch)));
}

#[test]
fn malformed_authorization_requests() {
    let mut server = AuthServer::preconfigured();
    let mut req = auth_request("LocalClient", Some(REDIRECT), None);
    req.response_type = Some("token".to_string());
    assert!(matches!(server.authorization_flow(&req, approve("42"), NOW), Err(FlowError::InvalidRequest)));
    req.response_type = None;
    assert!(matches!(server.authorization_flow(&req, approve("42"), NOW), Err(FlowError::InvalidRequest)));
    let mut req = auth_request("LocalClient", Some(REDIRECT), None);
    req.client_id = None;
    assert!(matches!(server.authorization_flow(&req, approve("42"), NOW), Err(FlowError::InvalidRequest)));
}

#[test]
fn code_cannot_be_replayed() {
    let mut server = AuthServer::preconfigured();
    let code = code_for(&mut server, "42");
    assert!(server.access_token_flow(&token_request(&code, REDIRECT), NOW).is_ok());
    let again = server.access_token_flow(&token_request(&code, REDIRECT), NOW);
    assert!(matches!(again, Err(FlowError::InvalidOrExpiredCode)));
}

#[test]
fn code_bound_to_redirect_and_client() {
    let mut server = AuthServer::preconfigured();
    let code = code_for(&mut server, "42");
    let wrong = server.access_token_flow(&token_request(&code, "http://localhost:8000/other"), NOW);
    assert!(matches!(wrong, Err(FlowError::InvalidOrExpiredCode)));
    let consumed = server.access_token_flow(&token_request(&code, REDIRECT), NOW);
    assert!(matches!(consumed, Err(FlowError::InvalidOrExpiredCode)));
    let code = code_for(&mut server, "42");
    let mut req = token_request(&code, REDIRECT);
    req.client_id = Some("Other".to_string());
    assert!(matches!(server.access_token_flow(&req, NOW), Err(FlowError::InvalidOrExpiredCode)));
}

#[test]
fn expired_code_is_refused() {
    let mut server = AuthServer::preconfigured();
    let code = code_for(&mut server, "42");
    let late = server.access_token_flow(&token_request(&code, REDIRECT), NOW + 600);
    assert!(matches!(late, Err(FlowError::InvalidOrExpiredCode)));
}

#[test]
fn malformed_token_requests() {
    let mut server = AuthServer::preconfigured();
    let code = code_for(&mut server, "42");
    let mut req = token_request(&code, REDIRECT);
    req.grant_type = Some("refresh_token".to_string());
    assert!(matches!(server.access_token_flow(&req, NOW), Err(FlowError::InvalidRequest)));
    let mut req = token_request(&code, REDIRECT);
    req.redirect_uri = None;
    assert!(matches!(server.access_token_flow(&req, NOW), Err(FlowError::InvalidRequest)));
    assert!(server.access_token_flow(&token_request(&code, REDIRECT), NOW).is_ok());
}

#[test]
fn refresh_rotates_tokens() {
    let mut server = AuthServer::preconfigured();
    let first = tokens_for(&mut server, "42");
    let second = server.refresh_flow(&refresh_request(&first.refresh_token, None), NOW + 20).unwrap();
    assert_eq!(second.until, NOW + 20 + 3600);
    assert_eq!(second.expires_in, 3600);
    let old = format!("Bearer {}", first.access_token);
    assert!(matches!(server.resource_flow(Some(&old), &scope("default-scope"), NOW + 21), Err(FlowError::InvalidToken)));
    let new = format!("Bearer {}", second.access_token);
    assert_eq!(server.resource_flow(Some(&new), &scope("default-scope"), NOW + 21).unwrap().owner_id, "42");
    let again = server.refresh_flow(&refresh_request(&first.refresh_token, None), NOW + 22);
    assert!(matches!(again, Err(FlowError::InvalidOrExpiredRefreshToken)));
}

#[test]
fn refresh_scope_rules() {
    let mut server = AuthServer::preconfigured();
    let first = tokens_for(&mut server, "42");
    let broader = server.refresh_flow(&refresh_request(&first.refresh_token, Some("default-scope admin")), NOW + 20);
    assert!(matches!(broader, Err(FlowError::InsufficientScope)));
    let bad = server.refresh_flow(&refresh_request(&first.refresh_token, Some("bad\"scope")), NOW + 20);
    assert!(matches!(bad, Err(FlowError::InvalidRequest)));
    let same = server.refresh_flow(&refresh_request(&first.refresh_token, Some("default-scope")), NOW + 20).unwrap();
    let header = format!("Bearer {}", same.access_token);
    assert!(server.resource_flow(Some(&header), &scope("default-scope"), NOW + 21).is_ok());
}

#[test]
fn refresh_keeps_access_past_code_lifetime() {
    let mut server = AuthServer::preconfigured();
    let first = tokens_for(&mut server, "42");
    let t = first.until - 1;
    let second = server.refresh_flow(&refresh_request(&first.refresh_token, None), t).unwrap();
    assert_eq!(second.until, t + 3600);
    let header = format!("Bearer {}", second.access_token);
    let later = first.until + 100;
    assert_eq!(server.resource_flow(Some(&header), &scope("default-scope"), later).unwrap().owner_id, "42");
    let third = server.refresh_flow(&refresh_request(&second.refresh_token, None), later).unwrap();
    assert_eq!(third.until, later + 3600);
}

#[test]
fn refresh_after_expiry_is_refused() {
    let mut server = AuthServer::preconfigured();
    let first = tokens_for(&mut server, "42");
    let late = server.refresh_flow(&refresh_request(&first.refresh_token, None), first.until);
    assert!(matches!(late, Err(FlowError::InvalidOrExpiredRefreshToken)));
}

#[test]
fn malformed_refresh_requests() {
    let mut server = AuthServer::preconfigured();
    let first = tokens_for(&mut server, "42");
    let mut req = refresh_request(&first.refresh_token, None);
    req.grant_type = None;
    assert!(matches!(server.refresh_flow(&req, NOW), Err(FlowError::InvalidRequest)));
    let mut req = refresh_request(&first.refresh_token, None);
    req.refresh_token = None;
    assert!(matches!(server.refresh_flow(&req, NOW), Err(FlowError::InvalidRequest)));
    let unknown = server.refresh_flow(&refresh_request("unknown", None), NOW);
    assert!(matches!(unknown, Err(FlowError::InvalidOrExpiredRefreshToken)));
}

#[test]
fn resource_scope_and_expiry() {
    let mut server = AuthServer::preconfigured();
    let t = tokens_for(&mut server, "42");
    let header = format!("Bearer {}", t.access_token);
    let more = server.resource_flow(Some(&header), &scope("default-scope admin"), NOW + 20);
    assert!(matches!(more, Err(FlowError::InsufficientScope)));
    let expired = server.resource_flow(Some(&header), &scope("default-scope"), t.until);
    assert!(matches!(expired, Err(FlowError::InvalidToken)));
    let lower = format!("bearer {}", t.access_token);
    assert!(matches!(server.resource_flow(Some(&lower), &scope("default-scope"), NOW + 20), Err(FlowError::InvalidToken)));
}

#[test]
fn bearer_header_parsing() {
    assert_eq!(bearer_token("Bearer abc").as_deref(), Some("abc"));
    assert_eq!(bearer_token("Bearer "), None);
    assert_eq!(bearer_token("Basic abcdef"), None);
    assert_eq!(bearer_token("abc"), None);
}
