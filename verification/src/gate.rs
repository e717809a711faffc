//! The authorization gate: the check that runs before a protected operation.
//!
//! It reads the token first. A request without a token that its issuer
//! accepts is turned away as unauthorized, and the operation must not run.
//! A request with a good token is then held against what the operation
//! requires; if it falls short it is turned away as forbidden. Only a request
//! that passes both gets the context, and only then may the operation run.
use crate::context::{AuthContext, AuthContextView};
use crate::error::{AuthError, ValidationIssue};
use crate::token::{read_token, TokenIssuer};
use vstd::prelude::*;

verus! {

/// What an operation requires of the caller.
#[derive(Clone, Copy, Debug, PartialEq, Eq, Structural)]
pub enum Requirement {
    /// A good token, nothing more.
    Authenticated,
    /// The caller must be a system administrator.
    AdminOnly,
    /// The caller's effective level must be this or lower: equally or more
    /// privileged. The level is all that counts: an administrator's level
    /// is 999 like that of an account without a role.
    Level(i32),
}

/// The operations on tenants.
#[derive(Clone, Copy, Debug, PartialEq, Eq, Structural)]
pub enum DomainRoute {
    /// List all tenants.
    All,
    /// Show one tenant.
    One,
    /// Create a tenant.
    Create,
    /// Change a tenant.
    Update,
}

impl DomainRoute {
    /// What the operation requires: listing, creating and changing tenants
    /// are for administrators, whatever tenant the caller is in; showing one
    /// needs a good token only.
    pub open spec fn required(self) -> Requirement {
        match self {
            DomainRoute::One => Requirement::Authenticated,
            _ => Requirement::AdminOnly,
        }
    }

    /// What the operation requires of the caller.
    pub fn requirement(&self) -> (r: Requirement)
        ensures
            r == self.required(),
    {
        match self {
            DomainRoute::One => Requirement::Authenticated,
            DomainRoute::All => Requirement::AdminOnly,
            DomainRoute::Create => Requirement::AdminOnly,
            DomainRoute::Update => Requirement::AdminOnly,
        }
    }
}

impl DomainRoute {
    /// Whether the operation takes a body, which must pass its field checks.
    pub open spec fn takes_body(self) -> bool {
        self is Create || self is Update
    }

    /// The verdict on a caller with `context` who asks for the operation;
    /// `body_valid` says whether the body, if the operation takes one,
    /// passed its field checks. What the caller may do is looked at first:
    /// a caller who may not is told so whatever the body holds.
    pub open spec fn permitted(self, context: AuthContextView, body_valid: bool) -> Result<
        (),
        AuthError,
    > {
        if !meets(context, self.required()) {
            Err(AuthError::Forbidden)
        } else if self.takes_body() && !body_valid {
            Err(AuthError::ValidationError(ValidationIssue::MalformedInput))
        } else {
            Ok(())
        }
    }

    /// Decides whether the operation may run for a caller with `context`;
    /// `body_valid` says whether the body, if the operation takes one,
    /// passed its field checks. After `Err` the operation must not run.
    pub fn permit(&self, context: &AuthContext, body_valid: bool) -> (r: Result<(), AuthError>)
        ensures
            r == self.permitted(context.deep_view(), body_valid),
    {
        match check(context, self.requirement()) {
            Err(error) => Err(error),
            Ok(_) => match self {
                DomainRoute::Create | DomainRoute::Update => {
                    if body_valid {
                        Ok(())
                    } else {
                        Err(AuthError::ValidationError(ValidationIssue::MalformedInput))
                    }
                },
                _ => Ok(()),
            },
        }
    }
}

/// Whether a context meets a requirement.
pub open spec fn meets(context: AuthContextView, requirement: Requirement) -> bool {
    match requirement {
        Requirement::Authenticated => true,
        Requirement::AdminOnly => context.is_admin,
        Requirement::Level(threshold) => context.effective_level <= threshold,
    }
}

/// The verdict on a request that presents `token`, or none, for
/// an operation with `requirement` at the instant `now`.
pub open spec fn gate_verdict(
    issuer: TokenIssuer,
    token: Option<Seq<char>>,
    now: u64,
    requirement: Requirement,
) -> Result<AuthContextView, AuthError> {
    match token {
        None => Err(AuthError::Unauthorized),
        Some(text) => match read_token(issuer.secret@, text, now) {
            Err(_) => Err(AuthError::Unauthorized),
            Ok(context) => if meets(context, requirement) {
                Ok(context)
            } else {
                Err(AuthError::Forbidden)
            },
        },
    }
}

/// The hard check for administrators: passes if and only if the context is
/// that of a system administrator.
pub fn require_admin(context: &AuthContext) -> (r: Result<(), AuthError>)
    ensures
        r == if context.is_admin {
            Ok::<(), AuthError>(())
        } else {
            Err::<(), AuthError>(AuthError::Forbidden)
        },
{
    if context.is_admin {
        Ok(())
    } else {
        Err(AuthError::Forbidden)
    }
}

/// The level check: passes if and only if the effective level is `threshold`
/// or lower.
pub fn require_level(context: &AuthContext, threshold: i32) -> (r: Result<(), AuthError>)
    ensures
        r == if context.effective_level <= threshold {
            Ok::<(), AuthError>(())
        } else {
            Err::<(), AuthError>(AuthError::Forbidden)
        },
{
    if context.effective_level <= threshold {
        Ok(())
    } else {
        Err(AuthError::Forbidden)
    }
}

/// Holds a context against a requirement.
pub fn check(context: &AuthContext, requirement: Requirement) -> (r: Result<(), AuthError>)
    ensures
        r == if meets(context.deep_view(), requirement) {
            Ok::<(), AuthError>(())
        } else {
            Err::<(), AuthError>(AuthError::Forbidden)
        },
{
    match requirement {
        Requirement::Authenticated => Ok(()),
        Requirement::AdminOnly => require_admin(context),
        Requirement::Level(threshold) => require_level(context, threshold),
    }
}

/// Reads the token of a request. Any token that the issuer does not accept
/// at `now`, and the lack of one, is `Unauthorized`.
pub fn authenticate(issuer: &TokenIssuer, token: Option<&str>, now: u64) -> (r: Result<
    AuthContext,
    AuthError,
>)
    ensures
        match r {
            Ok(context) => gate_verdict(
                *issuer,
                token.deep_view(),
                now,
                Requirement::Authenticated,
            ) == Ok::<AuthContextView, AuthError>(context.deep_view()),
            Err(error) => gate_verdict(
                *issuer,
                token.deep_view(),
                now,
                Requirement::Authenticated,
            ) == Err::<AuthContextView, AuthError>(error),
        },
{
    match token {
        None => Err(AuthError::Unauthorized),
        Some(text) => match issuer.parse(text, now) {
            Ok(context) => Ok(context),
            Err(_) => Err(AuthError::Unauthorized),
        },
    }
}

/// Guards an operation. `Ok` carries the context for the operation, which may run;
/// after `Err` it must not.
pub fn guard(
    issuer: &TokenIssuer,
    token: Option<&str>,
    now: u64,
    requirement: Requirement,
) -> (r: Result<AuthContext, AuthError>)
    ensures
        match r {
            Ok(context) => gate_verdict(*issuer, token.deep_view(), now, requirement) == Ok::<
                AuthContextView,
                AuthError,
            >(context.deep_view()),
            Err(error) => gate_verdict(*issuer, token.deep_view(), now, requirement) == Err::<
                AuthContextView,
                AuthError,
            >(error),
        },
{
    match authenticate(issuer, token, now) {
        Err(error) => Err(error),
        Ok(context) => match check(&context, requirement) {
            Ok(_) => Ok(context),
            Err(error) => Err(error),
        },
    }
}

/// A caller who is no administrator is refused every operation that is for
/// administrators, whatever tenant, level, roles or organizations the
/// token claims.
pub proof fn law_only_admins_pass_admin_gate(
    issuer: TokenIssuer,
    token: Option<Seq<char>>,
    now: u64,
)
    ensures
        gate_verdict(issuer, token, now, Requirement::AdminOnly) matches Ok(context)
            ==> context.is_admin,
        forall|route: DomainRoute|
            route != DomainRoute::One ==> (#[trigger] gate_verdict(
                issuer,
                token,
                now,
                route.required(),
            ) matches Ok(context) ==> context.is_admin),
{
}

} // verus!
