use home_auth::grant::Grant;
use home_auth::issuer::{Issuer, IssuerError};
use oxide_auth::primitives::generator::RandomGenerator;
use oxide_auth::primitives::scope::Scope;
use std::collections::HashSet;

fn scope(text: &str) -> Scope {
    text.parse::<Scope>().unwrap()
}

fn grant(owner: &str, until: i64) -> Grant {
    Grant {
        owner_id: owner.to_string(),
        client_id: "LocalClient".to_string(),
        redirect_uri: "http://localhost:8000/clientside/endpoint".to_string(),
        scope: scope("default-scope"),
        until,
    }
}

const NOW: i64 = 1_700_000_000;

#[test]
fn issued_tokens_resolve_to_grant() {
    let mut issuer = Issuer::new(RandomGenerator::new(16));
    let t = issuer.issue_at(grant("42", NOW + 600), NOW).unwrap();
    assert_ne!(t.token, t.refresh);
    assert!(!t.token.is_empty());
    assert!(!t.refresh.is_empty());
    assert_eq!(t.until, NOW + 600);
    let by_access = issuer.recover_by_access(&t.token).unwrap();
    let by_refresh = issuer.recover_by_refresh(&t.refresh).unwrap();
    for g in [by_access, by_refresh] {
        assert_eq!(g.owner_id, "42");
        assert_eq!(g.client_id, "LocalClient");
        assert_eq!(g.redirect_uri, "http://localhost:8000/clientside/endpoint");
        assert!(g.scope == scope("default-scope"));
        assert_eq!(g.until, NOW + 600);
    }
    assert!(issuer.recover_by_access(&t.refresh).is_none());
    assert!(issuer.recover_by_refresh(&t.token).is_none());
}

#[test]
fn issue_reading_the_clock_applies_policy() {
    let mut issuer = Issuer::new(RandomGenerator::new(16));
    issuer.set_duration(Some(3600));
    let before = chrono::Utc::now().timestamp();
    let t = issuer.issue(grant("42", 5)).unwrap();
    let after = chrono::Utc::now().timestamp();
    assert!(t.until >= before + 3600 && t.until <= after + 3600);
    assert_eq!(issuer.recover_by_access(&t.token).unwrap().until, t.until);
}

#[test]
fn issue_without_policy_keeps_expiry() {
    let mut issuer = Issuer::new(RandomGenerator::new(16));
    let t = issuer.issue(grant("7", 1234)).unwrap();
    assert_eq!(t.until, 1234);
}

#[test]
fn duration_policy_sets_expiry() {
    let mut issuer = Issuer::new(RandomGenerator::new(16));
    issuer.set_duration(Some(3600));
    let mut g = grant("42", 5);
    issuer.apply_duration(&mut g, NOW);
    assert_eq!(g.until, NOW + 3600);
    let t = issuer.issue_at(grant("42", 5), NOW).unwrap();
    assert_eq!(t.until, NOW + 3600);
}

#[test]
fn duration_policy_saturates() {
    let mut issuer = Issuer::new(RandomGenerator::new(16));
    issuer.set_duration(Some(10));
    let mut g = grant("42", 5);
    issuer.apply_duration(&mut g, i64::MAX - 3);
    assert_eq!(g.until, i64::MAX);
    issuer.set_duration(Some(-10));
    let mut g = grant("42", 5);
    issuer.apply_duration(&mut g, i64::MIN + 3);
    assert_eq!(g.until, i64::MIN);
}

#[test]
fn refresh_invalidates_old_pair() {
    let mut issuer = Issuer::new(RandomGenerator::new(16));
    let first = issuer.issue_at(grant("42", NOW + 600), NOW).unwrap();
    let second = issuer.refresh_at(&first.refresh, grant("42", NOW + 900), NOW).unwrap();
    assert!(issuer.recover_by_access(&first.token).is_none());
    assert!(issuer.recover_by_refresh(&first.refresh).is_none());
    assert_eq!(issuer.recover_by_access(&second.token).unwrap().until, NOW + 900);
    assert_eq!(issuer.recover_by_refresh(&second.refresh).unwrap().owner_id, "42");
    let again = issuer.refresh_at(&first.refresh, grant("42", NOW + 900), NOW);
    assert!(matches!(again, Err(IssuerError::NotFound)));
    assert!(issuer.recover_by_access(&second.token).is_some());
}

#[test]
fn refresh_reading_the_clock() {
    let mut issuer = Issuer::new(RandomGenerator::new(16));
    let first = issuer.issue(grant("42", NOW)).unwrap();
    let second = issuer.refresh(&first.refresh, grant("43", NOW + 1)).unwrap();
    assert_eq!(second.until, NOW + 1);
    assert_eq!(issuer.recover_by_access(&second.token).unwrap().owner_id, "43");
    assert!(matches!(issuer.refresh(&first.refresh, grant("43", NOW)), Err(IssuerError::NotFound)));
}

#[test]
fn refresh_of_unknown_token_is_not_found() {
    let mut issuer = Issuer::new(RandomGenerator::new(16));
    let r = issuer.refresh_at("no-such-token", grant("42", NOW), NOW);
    assert!(matches!(r, Err(IssuerError::NotFound)));
}

#[test]
fn issue_with_rejects_colliding_tokens() {
    let mut issuer = Issuer::new(RandomGenerator::new(16));
    let t = issuer.issue_with(grant("1", NOW), NOW, "a1".to_string(), "r1".to_string()).unwrap();
    assert_eq!(t.token, "a1");
    assert_eq!(t.refresh, "r1");
    for (a, r) in [("a1", "r2"), ("a2", "r1"), ("r1", "r2"), ("a2", "a1"), ("a3", "a3"), ("", "r3"), ("a3", "")] {
        let res = issuer.issue_with(grant("2", NOW), NOW, a.to_string(), r.to_string());
        assert!(matches!(res, Err(IssuerError::Fatal)), "{} {}", a, r);
    }
    assert_eq!(issuer.recover_by_access("a1").unwrap().owner_id, "1");
    assert!(issuer.recover_by_access("a2").is_none());
}

#[test]
fn refresh_with_exact_tokens() {
    let mut issuer = Issuer::new(RandomGenerator::new(16));
    issuer.issue_with(grant("1", NOW), NOW, "a1".to_string(), "r1".to_string()).unwrap();
    let clash = issuer.refresh_with("r1", grant("1", NOW), NOW, "a1".to_string(), "r9".to_string());
    assert!(matches!(clash, Err(IssuerError::Fatal)));
    assert!(issuer.recover_by_access("a1").is_some());
    let t = issuer.refresh_with("r1", grant("2", NOW), NOW, "a2".to_string(), "r2".to_string()).unwrap();
    assert_eq!(t.token, "a2");
    assert!(issuer.recover_by_access("a1").is_none());
    assert_eq!(issuer.recover_by_refresh("r2").unwrap().owner_id, "2");
    let missing = issuer.refresh_with("r1", grant("3", NOW), NOW, "a3".to_string(), "r3".to_string());
    assert!(matches!(missing, Err(IssuerError::NotFound)));
}

#[test]
fn thousand_grants_give_distinct_tokens() {
    let mut issuer = Issuer::new(RandomGenerator::new(16));
    let mut access = HashSet::new();
    let mut refresh = HashSet::new();
    for i in 0..1000 {
        let t = issuer.issue_at(grant(&i.to_string(), NOW + 600), NOW).unwrap();
        access.insert(t.token);
        refresh.insert(t.refresh);
    }
    assert_eq!(access.len(), 1000);
    assert_eq!(refresh.len(), 1000);
    assert!(access.is_disjoint(&refresh));
}
