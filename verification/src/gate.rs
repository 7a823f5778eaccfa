//! The authorization gate: resolves the identity a presented token proves,
//! without rejecting the request, and lets each operation enforce its own
//! required-capability set. An absent, malformed, mis-signed or expired
//! token — and one whose role names no known role — resolves to `Anonymous`;
//! the denial, if any, happens at the operation.
use crate::token::spec_verify;
use crate::token::verify;
use crate::types::Role;
use vstd::prelude::*;

verus! {

/// The identity a request carries into each operation.
#[derive(Debug)]
pub enum Identity {
    Authenticated { name: String, role: Role },
    Anonymous,
}

pub ghost enum IdentityView {
    Authenticated { name: Seq<char>, role: Role },
    Anonymous,
}

impl DeepView for Identity {
    type V = IdentityView;

    open spec fn deep_view(&self) -> IdentityView {
        match self {
            Identity::Authenticated { name, role } => IdentityView::Authenticated {
                name: name@,
                role: *role,
            },
            Identity::Anonymous => IdentityView::Anonymous,
        }
    }
}

/// The role a claim string names, if any.
pub open spec fn spec_role_of(s: Seq<char>) -> Option<Role> {
    if s == "user"@ {
        Some(Role::User)
    } else if s == "admin"@ {
        Some(Role::Admin)
    } else {
        None
    }
}

/// Parses a role name from a token claim.
pub fn role_of(s: &String) -> (r: Option<Role>)
    ensures
        r == spec_role_of(s@),
{
    if *s == Role::User.as_str().to_owned() {
        Some(Role::User)
    } else if *s == Role::Admin.as_str().to_owned() {
        Some(Role::Admin)
    } else {
        None
    }
}

/// The identity resolution applied to a presented token at time `now`.
pub open spec fn spec_resolve(
    token: Option<Seq<char>>,
    secret: Seq<char>,
    now: int,
) -> IdentityView {
    match token {
        Some(t) => match spec_verify(t, secret, now) {
            Some(c) => match spec_role_of(c.1) {
                Some(role) => IdentityView::Authenticated { name: c.0, role },
                None => IdentityView::Anonymous,
            },
            None => IdentityView::Anonymous,
        },
        None => IdentityView::Anonymous,
    }
}

/// Resolves the identity a presented bearer token proves. Never fails: a
/// request without a provable identity proceeds as `Anonymous`.
pub fn resolve_identity(token: Option<&String>, secret: &str, now: i64) -> (r: Identity)
    ensures
        r.deep_view() == spec_resolve(
            match token {
                Some(t) => Some(t@),
                None => None,
            },
            secret@,
            now as int,
        ),
{
    match token {
        Some(t) => match verify(t.as_str(), secret, now) {
            Some(claims) => match role_of(&claims.role) {
                Some(role) => Identity::Authenticated { name: claims.name, role },
                None => Identity::Anonymous,
            },
            None => Identity::Anonymous,
        },
        None => Identity::Anonymous,
    }
}

/// The set of roles an operation accepts.
#[derive(Clone, Copy, PartialEq, Eq, Structural, Debug)]
pub struct CapabilitySet {
    pub user: bool,
    pub admin: bool,
}

impl CapabilitySet {
    /// The capability set of every protected operation here: any
    /// authenticated account, whatever its role.
    pub fn any_account() -> (r: CapabilitySet)
        ensures
            r.user && r.admin,
    {
        CapabilitySet { user: true, admin: true }
    }
}

/// Whether an identity satisfies a required-capability set. `Anonymous`
/// satisfies none.
pub open spec fn spec_permits(caps: CapabilitySet, id: IdentityView) -> bool {
    match id {
        IdentityView::Authenticated { role, .. } => match role {
            Role::User => caps.user,
            Role::Admin => caps.admin,
        },
        IdentityView::Anonymous => false,
    }
}

/// The operation-level policy check: whether the resolved identity may
/// invoke an operation requiring `caps`.
pub fn permits(caps: CapabilitySet, id: &Identity) -> (r: bool)
    ensures
        r == spec_permits(caps, id.deep_view()),
{
    match id {
        Identity::Authenticated { role, .. } => match role {
            Role::User => caps.user,
            Role::Admin => caps.admin,
        },
        Identity::Anonymous => false,
    }
}

} // verus!
