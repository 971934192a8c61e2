use home_auth::authorizer::{Authorizer, AuthorizerError};
use home_auth::grant::Grant;
use oxide_auth::primitives::generator::RandomGenerator;
use oxide_auth::primitives::scope::Scope;

fn grant(owner: &str) -> Grant {
    Grant {
        owner_id: owner.to_string(),
        client_id: "LocalClient".to_string(),
        redirect_uri: "http://localhost:8000/clientside/endpoint".to_string(),
        scope: "default-scope".parse::<Scope>().unwrap(),
        until: 1_700_000_600,
    }
}

#[test]
fn code_redeems_once() {
    let mut auth = Authorizer::new(RandomGenerator::new(16));
    let code = auth.issue(grant("42")).unwrap();
    assert!(!code.is_empty());
    let g = auth.redeem(&code).unwrap();
    assert_eq!(g.owner_id, "42");
    assert_eq!(g.client_id, "LocalClient");
    assert_eq!(g.until, 1_700_000_600);
    assert!(matches!(auth.redeem(&code), Err(AuthorizerError::NotFound)));
}

#[test]
fn codes_are_distinct() {
    let mut auth = Authorizer::new(RandomGenerator::new(16));
    let a = auth.issue(grant("1")).unwrap();
    let b = auth.issue(grant("2")).unwrap();
    assert_ne!(a, b);
    assert_eq!(auth.redeem(&b).unwrap().owner_id, "2");
    assert_eq!(auth.redeem(&a).unwrap().owner_id, "1");
}

#[test]
fn unknown_code_is_not_found() {
    let mut auth = Authorizer::new(RandomGenerator::new(16));
    assert!(matches!(auth.redeem("nope"), Err(AuthorizerError::NotFound)));
}

#[test]
fn issue_with_code_refuses_pending_or_empty_code() {
    let mut auth = Authorizer::new(RandomGenerator::new(16));
    assert_eq!(auth.issue_with_code(grant("1"), "c1".to_string()).unwrap(), "c1");
    assert!(matches!(auth.issue_with_code(grant("2"), "c1".to_string()), Err(AuthorizerError::Fatal)));
    assert!(matches!(auth.issue_with_code(grant("2"), String::new()), Err(AuthorizerError::Fatal)));
    assert_eq!(auth.redeem("c1").unwrap().owner_id, "1");
}
