//! The errors of the flows, the token issuer and the authorization gate.
use vstd::prelude::*;

verus! {

/// Why an input was refused before anything else was looked at.
#[derive(Clone, Copy, Debug, PartialEq, Eq, Structural)]
pub enum ValidationIssue {
    /// A required field is empty.
    MalformedInput,
    /// A tenant must be selected and none was.
    DomainRequired,
}

/// Which referenced entity the store does not hold.
#[derive(Clone, Copy, Debug, PartialEq, Eq, Structural)]
pub enum Missing {
    Domain,
}

/// Which required configuration an existing entity lacks.
#[derive(Clone, Copy, Debug, PartialEq, Eq, Structural)]
pub enum Unmet {
    DomainHasNoDefaultRole,
}

/// Why a login attempt was turned away.
#[derive(Clone, Copy, Debug, PartialEq, Eq, Structural)]
pub enum AuthFailure {
    NoSuchUser,
    BadCredential,
    AccountDisabled,
}

/// What is wrong with a token, or with the request to mint one.
#[derive(Clone, Copy, Debug, PartialEq, Eq, Structural)]
pub enum TokenFault {
    /// The text does not have the layout of a token.
    Malformed,
    /// The signature is not the one the issuer computes for the payload.
    BadSignature,
    /// The expiration instant has been reached.
    Expired,
    /// The expiration instant cannot be represented.
    LifetimeOverflow,
    /// The signer returned an error.
    SignerFailed,
}

/// The kinds of failure. The variant is the stable, machine-readable kind;
/// [`AuthError::message`] gives the text for people.
#[derive(Clone, Copy, Debug, PartialEq, Eq, Structural)]
pub enum AuthError {
    ValidationError(ValidationIssue),
    ConflictError,
    NotFoundError(Missing),
    PreconditionError(Unmet),
    AuthenticationError(AuthFailure),
    TokenError(TokenFault),
    Forbidden,
    Unauthorized,
    PersistenceError,
}

impl AuthError {
    /// The text of [`AuthError::message`].
    pub open spec fn message_text(self) -> Seq<char> {
        match self {
            AuthError::ValidationError(ValidationIssue::MalformedInput) => "malformed input"@,
            AuthError::ValidationError(ValidationIssue::DomainRequired) => "domain required"@,
            AuthError::ConflictError => "user already exists"@,
            AuthError::NotFoundError(Missing::Domain) => "domain"@,
            AuthError::PreconditionError(Unmet::DomainHasNoDefaultRole) =>
                "domain has no default role"@,
            AuthError::AuthenticationError(AuthFailure::NoSuchUser) => "no such user"@,
            AuthError::AuthenticationError(AuthFailure::BadCredential) => "bad credential"@,
            AuthError::AuthenticationError(AuthFailure::AccountDisabled) => "account disabled"@,
            AuthError::TokenError(TokenFault::Malformed) => "malformed token"@,
            AuthError::TokenError(TokenFault::BadSignature) => "bad token signature"@,
            AuthError::TokenError(TokenFault::Expired) => "token expired"@,
            AuthError::TokenError(TokenFault::LifetimeOverflow) => "token lifetime overflow"@,
            AuthError::TokenError(TokenFault::SignerFailed) => "token signer failed"@,
            AuthError::Forbidden => "forbidden"@,
            AuthError::Unauthorized => "unauthorized"@,
            AuthError::PersistenceError => "store failure"@,
        }
    }

    /// A human-readable message for the error.
    pub fn message(&self) -> (text: &'static str)
        ensures
            text@ == self.message_text(),
    {
        match self {
            AuthError::ValidationError(ValidationIssue::MalformedInput) => "malformed input",
            AuthError::ValidationError(ValidationIssue::DomainRequired) => "domain required",
            AuthError::ConflictError => "user already exists",
            AuthError::NotFoundError(Missing::Domain) => "domain",
            AuthError::PreconditionError(Unmet::DomainHasNoDefaultRole) =>
                "domain has no default role",
            AuthError::AuthenticationError(AuthFailure::NoSuchUser) => "no such user",
            AuthError::AuthenticationError(AuthFailure::BadCredential) => "bad credential",
            AuthError::AuthenticationError(AuthFailure::AccountDisabled) => "account disabled",
            AuthError::TokenError(TokenFault::Malformed) => "malformed token",
            AuthError::TokenError(TokenFault::BadSignature) => "bad token signature",
            AuthError::TokenError(TokenFault::Expired) => "token expired",
            AuthError::TokenError(TokenFault::LifetimeOverflow) => "token lifetime overflow",
            AuthError::TokenError(TokenFault::SignerFailed) => "token signer failed",
            AuthError::Forbidden => "forbidden",
            AuthError::Unauthorized => "unauthorized",
            AuthError::PersistenceError => "store failure",
        }
    }
}

} // verus!
