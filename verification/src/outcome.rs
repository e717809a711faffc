//! What a flow hands back when it succeeds.
use crate::context::{AuthContext, AuthContextView};
use crate::error::AuthError;
use crate::model::{Domain, DomainView, Org, OrgView, Role, RoleView, User, UserView};
use crate::token::TokenIssuer;
use vstd::prelude::*;

verus! {

/// The result of a registration or a login: the token, the context that the
/// token carries, and the records that the context was computed from.
#[derive(Clone, Debug, PartialEq, Eq)]
pub struct AuthPayload {
    pub token: String,
    /// The context for which the token was minted.
    pub context: AuthContext,
    pub user: User,
    /// The selected tenant; none for a system administrator.
    pub domain: Option<Domain>,
    /// The roles held in the tenant, most privileged first.
    pub roles: Vec<Role>,
    /// The organizations joined in the tenant.
    pub orgs: Vec<Org>,
}

/// The model of an [`AuthPayload`].
pub struct AuthPayloadView {
    pub token: Seq<char>,
    pub context: AuthContextView,
    pub user: UserView,
    pub domain: Option<DomainView>,
    pub roles: Seq<RoleView>,
    pub orgs: Seq<OrgView>,
}

impl DeepView for AuthPayload {
    type V = AuthPayloadView;

    open spec fn deep_view(&self) -> AuthPayloadView {
        AuthPayloadView {
            token: self.token@,
            context: self.context.deep_view(),
            user: self.user.deep_view(),
            domain: self.domain.deep_view(),
            roles: self.roles.deep_view(),
            orgs: self.orgs.deep_view(),
        }
    }
}

/// What [`issue`] returns: the payload with the context and the token minted
/// for it at the instant `now`, or the token error that minting gave.
pub open spec fn issued(
    issuer: TokenIssuer,
    now: u64,
    context: AuthContextView,
    user: UserView,
    domain: Option<DomainView>,
    roles: Seq<RoleView>,
    orgs: Seq<OrgView>,
) -> Result<AuthPayloadView, AuthError> {
    match issuer.minted(context, now) {
        Ok(token) => Ok(AuthPayloadView { token, context, user, domain, roles, orgs }),
        Err(fault) => Err(AuthError::TokenError(fault)),
    }
}

/// Mints the token for `context` and puts the payload together. If minting
/// fails, the token error is the result and there is no payload.
pub fn issue(
    issuer: &TokenIssuer,
    now: u64,
    context: AuthContext,
    user: User,
    domain: Option<Domain>,
    roles: Vec<Role>,
    orgs: Vec<Org>,
) -> (r: Result<AuthPayload, AuthError>)
    ensures
        match r {
            Ok(payload) => issued(
                *issuer,
                now,
                context.deep_view(),
                user.deep_view(),
                domain.deep_view(),
                roles.deep_view(),
                orgs.deep_view(),
            ) == Ok::<AuthPayloadView, AuthError>(payload.deep_view()),
            Err(error) => issued(
                *issuer,
                now,
                context.deep_view(),
                user.deep_view(),
                domain.deep_view(),
                roles.deep_view(),
                orgs.deep_view(),
            ) == Err::<AuthPayloadView, AuthError>(error),
        },
{
    match issuer.mint(&context, now) {
        Ok(token) => Ok(AuthPayload { token, context, user, domain, roles, orgs }),
        Err(fault) => Err(AuthError::TokenError(fault)),
    }
}

} // verus!
