use osma::gate::{permits, resolve_identity, CapabilitySet, Identity};
use osma::token::mint;
use osma::types::Role;

#[test]
fn valid_token_resolves_to_authenticated() {
    let now: i64 = 1_700_000_000;
    let token = mint("alice", "user", now, "topsecret").expect("minting failed");
    match resolve_identity(Some(&token), "topsecret", now) {
        Identity::Authenticated { name, role } => {
            assert_eq!(name, "alice");
            assert_eq!(role, Role::User);
        }
        Identity::Anonymous => panic!("expected an authenticated identity"),
    }
}

#[test]
fn admin_token_resolves_to_admin_role() {
    let now: i64 = 1_700_000_000;
    let token = mint("root", "admin", now, "topsecret").expect("minting failed");
    match resolve_identity(Some(&token), "topsecret", now) {
        Identity::Authenticated { role, .. } => assert_eq!(role, Role::Admin),
        Identity::Anonymous => panic!("expected an authenticated identity"),
    }
}

#[test]
fn absent_token_resolves_to_anonymous() {
    assert!(matches!(
        resolve_identity(None, "topsecret", 0),
        Identity::Anonymous
    ));
}

#[test]
fn malformed_token_resolves_to_anonymous() {
    let junk = String::from("junk");
    assert!(matches!(
        resolve_identity(Some(&junk), "topsecret", 0),
        Identity::Anonymous
    ));
}

#[test]
fn expired_token_resolves_to_anonymous() {
    let now: i64 = 1_700_000_000;
    let token = mint("alice", "user", now, "topsecret").expect("minting failed");
    assert!(matches!(
        resolve_identity(Some(&token), "topsecret", now + 604800),
        Identity::Anonymous
    ));
}

#[test]
fn unknown_role_resolves_to_anonymous() {
    let now: i64 = 1_700_000_000;
    let token = mint("alice", "owner", now, "topsecret").expect("minting failed");
    assert!(matches!(
        resolve_identity(Some(&token), "topsecret", now),
        Identity::Anonymous
    ));
}

#[test]
fn any_account_permits_both_roles() {
    let caps = CapabilitySet::any_account();
    let user = Identity::Authenticated { name: String::from("u"), role: Role::User };
    let admin = Identity::Authenticated { name: String::from("a"), role: Role::Admin };
    assert!(permits(caps, &user));
    assert!(permits(caps, &admin));
}

#[test]
fn anonymous_is_never_permitted() {
    assert!(!permits(CapabilitySet::any_account(), &Identity::Anonymous));
}

#[test]
fn capability_set_is_checked_per_role() {
    let admin_only = CapabilitySet { user: false, admin: true };
    let user = Identity::Authenticated { name: String::from("u"), role: Role::User };
    let admin = Identity::Authenticated { name: String::from("a"), role: Role::Admin };
    assert!(!permits(admin_only, &user));
    assert!(permits(admin_only, &admin));
}
