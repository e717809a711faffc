//! The login flow.
//!
//! The flow is a step function. The caller starts in [`LoginState::Start`]
//! with the event [`LoginEvent::Begin`], carries out the request that each
//! step returns, and hands the store's answer to the next step, until the
//! request is [`LoginAction::Stop`]. The state is then
//! [`LoginState::Done`] or [`LoginState::Failed`].
//!
//! A system administrator is recognised as soon as the login is recorded;
//! from there the flow goes straight to the token and asks the store nothing
//! about tenants, organizations or roles.
//!
//! For anyone else the flow resolves the selected tenant. It asks the store
//! for the organizations that the memberships name and for the roles that
//! the grants name, in that tenant, and of what the store returns it keeps
//! only what it asked for and what belongs to the tenant. The context names
//! those organizations and roles and no others. Which grants count is the
//! caller's choice: with [`GrantPolicy::CountAll`], the default, a grant
//! counts whether or not its `expire` instant has passed.
use crate::context::{
    admin_context, ascending, counted_grants, effective_level, is_admin, is_admin_user,
    lemma_sorted_ascending, GrantPolicy,
    lemma_sorted_from, org_ids, org_ids_in, org_ids_of, org_within, orgs_in_tenant, orgs_within,
    role_ids, role_ids_in, role_ids_of, role_within, roles_in_tenant, roles_within, sort_roles,
    sorted_by_level, tenant_context, AuthContext, NO_PRIVILEGE_LEVEL,
};
use crate::error::{AuthError, AuthFailure, Missing, TokenFault, ValidationIssue};
use crate::input::{LoginUser, LoginUserView};
use crate::model::{
    Domain, DomainView, Org, OrgView, Role, RoleView, User, UserOrg, UserOrgView, UserRole,
    UserRoleView, UserView,
};
use crate::outcome::{issue, issued, AuthPayload, AuthPayloadView};
use crate::text::clone_strings;
use crate::token::{law_token_round_trip, mintable, read_token, TokenIssuer};
use vstd::prelude::*;

verus! {

/// Where a login stands.
#[derive(Clone, Debug, PartialEq, Eq)]
pub enum LoginState {
    /// Nothing has happened yet.
    Start,
    /// The account is being looked up by its username.
    FindingUser { body: LoginUser, domain_id: Option<String> },
    /// The secret is being checked against the stored credential.
    VerifyingSecret { user: User, domain_id: Option<String> },
    /// The login is being recorded on the account.
    RecordingLogin { domain_id: Option<String> },
    /// The selected tenant is being looked up.
    FindingDomain { user: User, domain_id: String },
    /// The memberships of the account are being fetched.
    FindingMemberships { user: User, domain_id: String, domain: Domain },
    /// The organizations of the memberships are being fetched.
    FindingOrgs { user: User, domain_id: String, domain: Domain, org_ids: Vec<String> },
    /// The grants of the account are being fetched.
    FindingGrants { user: User, domain_id: String, domain: Domain, orgs: Vec<Org> },
    /// The roles of the grants are being fetched.
    FindingRoles {
        user: User,
        domain_id: String,
        domain: Domain,
        orgs: Vec<Org>,
        role_ids: Vec<String>,
    },
    /// The login succeeded.
    Done(AuthPayload),
    /// The login failed.
    Failed(AuthError),
}

/// The model of a [`LoginState`].
pub enum LoginStateView {
    Start,
    FindingUser { body: LoginUserView, domain_id: Option<Seq<char>> },
    VerifyingSecret { user: UserView, domain_id: Option<Seq<char>> },
    RecordingLogin { domain_id: Option<Seq<char>> },
    FindingDomain { user: UserView, domain_id: Seq<char> },
    FindingMemberships { user: UserView, domain_id: Seq<char>, domain: DomainView },
    FindingOrgs {
        user: UserView,
        domain_id: Seq<char>,
        domain: DomainView,
        org_ids: Seq<Seq<char>>,
    },
    FindingGrants { user: UserView, domain_id: Seq<char>, domain: DomainView, orgs: Seq<OrgView> },
    FindingRoles {
        user: UserView,
        domain_id: Seq<char>,
        domain: DomainView,
        orgs: Seq<OrgView>,
        role_ids: Seq<Seq<char>>,
    },
    Done(AuthPayloadView),
    Failed(AuthError),
}

impl DeepView for LoginState {
    type V = LoginStateView;

    open spec fn deep_view(&self) -> LoginStateView {
        match self {
            LoginState::Start => LoginStateView::Start,
            LoginState::FindingUser { body, domain_id } => LoginStateView::FindingUser {
                body: body.deep_view(),
                domain_id: domain_id.deep_view(),
            },
            LoginState::VerifyingSecret { user, domain_id } => LoginStateView::VerifyingSecret {
                user: user.deep_view(),
                domain_id: domain_id.deep_view(),
            },
            LoginState::RecordingLogin { domain_id } => LoginStateView::RecordingLogin {
                domain_id: domain_id.deep_view(),
            },
            LoginState::FindingDomain { user, domain_id } => LoginStateView::FindingDomain {
                user: user.deep_view(),
                domain_id: domain_id@,
            },
            LoginState::FindingMemberships {
                user,
                domain_id,
                domain,
            } => LoginStateView::FindingMemberships {
                user: user.deep_view(),
                domain_id: domain_id@,
                domain: domain.deep_view(),
            },
            LoginState::FindingOrgs {
                user,
                domain_id,
                domain,
                org_ids,
            } => LoginStateView::FindingOrgs {
                user: user.deep_view(),
                domain_id: domain_id@,
                domain: domain.deep_view(),
                org_ids: org_ids.deep_view(),
            },
            LoginState::FindingGrants {
                user,
                domain_id,
                domain,
                orgs,
            } => LoginStateView::FindingGrants {
                user: user.deep_view(),
                domain_id: domain_id@,
                domain: domain.deep_view(),
                orgs: orgs.deep_view(),
            },
            LoginState::FindingRoles {
                user,
                domain_id,
                domain,
                orgs,
                role_ids,
            } => LoginStateView::FindingRoles {
                user: user.deep_view(),
                domain_id: domain_id@,
                domain: domain.deep_view(),
                orgs: orgs.deep_view(),
                role_ids: role_ids.deep_view(),
            },
            LoginState::Done(payload) => LoginStateView::Done(payload.deep_view()),
            LoginState::Failed(error) => LoginStateView::Failed(*error),
        }
    }
}

/// What a login is told: the caller's input, then the store's answers. An
/// answer of `None` means that the store found nothing or failed.
#[derive(Clone, Debug, PartialEq, Eq)]
pub enum LoginEvent {
    /// The caller's input: the credentials and the tenant selector, if any.
    Begin { body: LoginUser, domain_id: Option<String> },
    /// The account with the username, if there is one.
    User(Option<User>),
    /// Whether the secret matches the stored credential.
    Secret(bool),
    /// The account after the login was recorded on it.
    Recorded(Option<User>),
    /// The selected tenant, if it exists.
    Domain(Option<Domain>),
    /// All memberships of the account.
    Memberships(Option<Vec<UserOrg>>),
    /// The organizations that the store found. The flow keeps those that it
    /// asked for and that belong to the tenant.
    Orgs(Option<Vec<Org>>),
    /// All grants of the account.
    Grants(Option<Vec<UserRole>>),
    /// The roles that the store found. The flow keeps those that it asked
    /// for and that belong to the tenant.
    Roles(Option<Vec<Role>>),
}

/// The model of a [`LoginEvent`].
pub enum LoginEventView {
    Begin { body: LoginUserView, domain_id: Option<Seq<char>> },
    User(Option<UserView>),
    Secret(bool),
    Recorded(Option<UserView>),
    Domain(Option<DomainView>),
    Memberships(Option<Seq<UserOrgView>>),
    Orgs(Option<Seq<OrgView>>),
    Grants(Option<Seq<UserRoleView>>),
    Roles(Option<Seq<RoleView>>),
}

impl DeepView for LoginEvent {
    type V = LoginEventView;

    open spec fn deep_view(&self) -> LoginEventView {
        match self {
            LoginEvent::Begin { body, domain_id } => LoginEventView::Begin {
                body: body.deep_view(),
                domain_id: domain_id.deep_view(),
            },
            LoginEvent::User(found) => LoginEventView::User(found.deep_view()),
            LoginEvent::Secret(matched) => LoginEventView::Secret(*matched),
            LoginEvent::Recorded(user) => LoginEventView::Recorded(user.deep_view()),
            LoginEvent::Domain(found) => LoginEventView::Domain(found.deep_view()),
            LoginEvent::Memberships(list) => LoginEventView::Memberships(list.deep_view()),
            LoginEvent::Orgs(list) => LoginEventView::Orgs(list.deep_view()),
            LoginEvent::Grants(list) => LoginEventView::Grants(list.deep_view()),
            LoginEvent::Roles(list) => LoginEventView::Roles(list.deep_view()),
        }
    }
}

/// What a login asks of its caller next.
#[derive(Clone, Debug, PartialEq, Eq)]
pub enum LoginAction {
    /// Look the account up by its username. Answer: [`LoginEvent::User`].
    FindUser { username: String },
    /// Check the secret against the stored credential. Answer:
    /// [`LoginEvent::Secret`].
    VerifySecret { secret: String, stored: String },
    /// Record the login on the account. Answer: [`LoginEvent::Recorded`].
    RecordLogin { user: User },
    /// Look the tenant up. Answer: [`LoginEvent::Domain`].
    FindDomain { id: String },
    /// Fetch all memberships of the account. Answer:
    /// [`LoginEvent::Memberships`].
    FindMemberships { user_id: String },
    /// Fetch the organizations with these ids that belong to the tenant.
    /// `ids` is never empty. Answer: [`LoginEvent::Orgs`].
    FindOrgs { ids: Vec<String>, domain_id: String },
    /// Fetch all grants of the account. Answer: [`LoginEvent::Grants`].
    FindGrants { user_id: String },
    /// Fetch the roles with these ids that belong to the tenant. `ids` is
    /// never empty. Answer: [`LoginEvent::Roles`].
    FindRoles { ids: Vec<String>, domain_id: String },
    /// Nothing: the flow is over.
    Stop,
}

/// The model of a [`LoginAction`].
pub enum LoginActionView {
    FindUser { username: Seq<char> },
    VerifySecret { secret: Seq<char>, stored: Seq<char> },
    RecordLogin { user: UserView },
    FindDomain { id: Seq<char> },
    FindMemberships { user_id: Seq<char> },
    FindOrgs { ids: Seq<Seq<char>>, domain_id: Seq<char> },
    FindGrants { user_id: Seq<char> },
    FindRoles { ids: Seq<Seq<char>>, domain_id: Seq<char> },
    Stop,
}

impl DeepView for LoginAction {
    type V = LoginActionView;

    open spec fn deep_view(&self) -> LoginActionView {
        match self {
            LoginAction::FindUser { username } => LoginActionView::FindUser {
                username: username@,
            },
            LoginAction::VerifySecret { secret, stored } => LoginActionView::VerifySecret {
                secret: secret@,
                stored: stored@,
            },
            LoginAction::RecordLogin { user } => LoginActionView::RecordLogin {
                user: user.deep_view(),
            },
            LoginAction::FindDomain { id } => LoginActionView::FindDomain { id: id@ },
            LoginAction::FindMemberships { user_id } => LoginActionView::FindMemberships {
                user_id: user_id@,
            },
            LoginAction::FindOrgs { ids, domain_id } => LoginActionView::FindOrgs {
                ids: ids.deep_view(),
                domain_id: domain_id@,
            },
            LoginAction::FindGrants { user_id } => LoginActionView::FindGrants {
                user_id: user_id@,
            },
            LoginAction::FindRoles { ids, domain_id } => LoginActionView::FindRoles {
                ids: ids.deep_view(),
                domain_id: domain_id@,
            },
            LoginAction::Stop => LoginActionView::Stop,
        }
    }
}

impl LoginActionView {
    /// Whether the request resolves tenants, organizations or roles.
    pub open spec fn resolves(self) -> bool {
        self is FindDomain || self is FindMemberships || self is FindOrgs || self is FindGrants
            || self is FindRoles
    }
}

impl LoginStateView {
    /// Whether the flow is over.
    pub open spec fn is_final(self) -> bool {
        self is Done || self is Failed
    }

    /// Whether the flow has not yet learnt whether the account is a system
    /// administrator.
    pub open spec fn before_resolving(self) -> bool {
        self is Start || self is FindingUser || self is VerifyingSecret || self is RecordingLogin
    }
}

/// Whether none of the requests resolves tenants, organizations or roles.
pub open spec fn no_resolving(actions: Seq<LoginActionView>) -> bool {
    forall|i: int| 0 <= i < actions.len() ==> !(#[trigger] actions[i]).resolves()
}

/// Whether every request for organizations or roles names at least one.
pub open spec fn no_empty_lookup(actions: Seq<LoginActionView>) -> bool {
    forall|i: int|
        0 <= i < actions.len() ==> match #[trigger] actions[i] {
            LoginActionView::FindOrgs { ids, .. } => ids.len() > 0,
            LoginActionView::FindRoles { ids, .. } => ids.len() > 0,
            _ => true,
        }
}

/// The step that ends a login in failure.
pub open spec fn login_failed(error: AuthError) -> (LoginStateView, LoginActionView) {
    (LoginStateView::Failed(error), LoginActionView::Stop)
}

/// The step that ends a login: with the payload if the token can be minted,
/// with the token error if not.
pub open spec fn login_finished(
    r: Result<AuthPayloadView, AuthError>,
) -> (LoginStateView, LoginActionView) {
    match r {
        Ok(payload) => (LoginStateView::Done(payload), LoginActionView::Stop),
        Err(error) => login_failed(error),
    }
}

/// One step of a login: the state and the request that follow from a state
/// and an event. `now` is the instant of the step in seconds since the
/// epoch; it is the instant at which the token, if any, is minted. `policy`
/// says which grants count.
pub open spec fn login_step(
    issuer: TokenIssuer,
    now: u64,
    policy: GrantPolicy,
    state: LoginStateView,
    event: LoginEventView,
) -> (LoginStateView, LoginActionView) {
    match (state, event) {
        (LoginStateView::Done(payload), _) => (state, LoginActionView::Stop),
        (LoginStateView::Failed(error), _) => (state, LoginActionView::Stop),
        (LoginStateView::Start, LoginEventView::Begin { body, domain_id }) => {
            if body.valid() {
                (
                    LoginStateView::FindingUser { body, domain_id },
                    LoginActionView::FindUser { username: body.username },
                )
            } else {
                login_failed(AuthError::ValidationError(ValidationIssue::MalformedInput))
            }
        },
        (LoginStateView::FindingUser { body, domain_id }, LoginEventView::User(found)) => {
            match found {
                Some(user) => (
                    LoginStateView::VerifyingSecret { user, domain_id },
                    LoginActionView::VerifySecret { secret: body.password, stored: user.password },
                ),
                None => login_failed(AuthError::AuthenticationError(AuthFailure::NoSuchUser)),
            }
        },
        (
            LoginStateView::VerifyingSecret { user, domain_id },
            LoginEventView::Secret(matched),
        ) => {
            if !matched {
                login_failed(AuthError::AuthenticationError(AuthFailure::BadCredential))
            } else if !user.is_actived {
                login_failed(AuthError::AuthenticationError(AuthFailure::AccountDisabled))
            } else {
                (
                    LoginStateView::RecordingLogin { domain_id },
                    LoginActionView::RecordLogin { user },
                )
            }
        },
        (LoginStateView::RecordingLogin { domain_id }, LoginEventView::Recorded(recorded)) => {
            match recorded {
                None => login_failed(AuthError::PersistenceError),
                Some(user) => if is_admin_user(user) {
                    login_finished(
                        issued(
                            issuer,
                            now,
                            admin_context(user, domain_id),
                            user,
                            None,
                            Seq::empty(),
                            Seq::empty(),
                        ),
                    )
                } else {
                    match domain_id {
                        None => login_failed(
                            AuthError::ValidationError(ValidationIssue::DomainRequired),
                        ),
                        Some(id) => (
                            LoginStateView::FindingDomain { user, domain_id: id },
                            LoginActionView::FindDomain { id },
                        ),
                    }
                },
            }
        },
        (LoginStateView::FindingDomain { user, domain_id }, LoginEventView::Domain(found)) => {
            match found {
                None => login_failed(AuthError::NotFoundError(Missing::Domain)),
                Some(domain) => (
                    LoginStateView::FindingMemberships { user, domain_id, domain },
                    LoginActionView::FindMemberships { user_id: user.id },
                ),
            }
        },
        (
            LoginStateView::FindingMemberships { user, domain_id, domain },
            LoginEventView::Memberships(answer),
        ) => {
            match answer {
                None => login_failed(AuthError::PersistenceError),
                Some(memberships) => {
                    let org_ids = org_ids_of(memberships);
                    if org_ids.len() == 0 {
                        (
                            LoginStateView::FindingGrants {
                                user,
                                domain_id,
                                domain,
                                orgs: Seq::empty(),
                            },
                            LoginActionView::FindGrants { user_id: user.id },
                        )
                    } else {
                        (
                            LoginStateView::FindingOrgs { user, domain_id, domain, org_ids },
                            LoginActionView::FindOrgs { ids: org_ids, domain_id },
                        )
                    }
                },
            }
        },
        (
            LoginStateView::FindingOrgs { user, domain_id, domain, org_ids },
            LoginEventView::Orgs(answer),
        ) => {
            match answer {
                None => login_failed(AuthError::PersistenceError),
                Some(found) => (
                    LoginStateView::FindingGrants {
                        user,
                        domain_id,
                        domain,
                        orgs: orgs_within(found, org_ids, domain_id),
                    },
                    LoginActionView::FindGrants { user_id: user.id },
                ),
            }
        },
        (
            LoginStateView::FindingGrants { user, domain_id, domain, orgs },
            LoginEventView::Grants(answer),
        ) => {
            match answer {
                None => login_failed(AuthError::PersistenceError),
                Some(grants) => {
                    let role_ids = role_ids_of(counted_grants(grants, policy));
                    if role_ids.len() == 0 {
                        login_finished(
                            issued(
                                issuer,
                                now,
                                tenant_context(user, domain_id, orgs, Seq::empty()),
                                user,
                                Some(domain),
                                Seq::empty(),
                                orgs,
                            ),
                        )
                    } else {
                        (
                            LoginStateView::FindingRoles {
                                user,
                                domain_id,
                                domain,
                                orgs,
                                role_ids,
                            },
                            LoginActionView::FindRoles { ids: role_ids, domain_id },
                        )
                    }
                },
            }
        },
        (
            LoginStateView::FindingRoles { user, domain_id, domain, orgs, role_ids },
            LoginEventView::Roles(answer),
        ) => {
            match answer {
                None => login_failed(AuthError::PersistenceError),
                Some(found) => {
                    let sorted = sorted_by_level(roles_within(found, role_ids, domain_id));
                    login_finished(
                        issued(
                            issuer,
                            now,
                            tenant_context(user, domain_id, orgs, sorted),
                            user,
                            Some(domain),
                            sorted,
                            orgs,
                        ),
                    )
                },
            }
        },
        _ => login_failed(AuthError::PersistenceError),
    }
}

fn failed(error: AuthError) -> (r: (LoginState, LoginAction))
    ensures
        (r.0.deep_view(), r.1.deep_view()) == login_failed(error),
{
    (LoginState::Failed(error), LoginAction::Stop)
}

fn finished(r: Result<AuthPayload, AuthError>) -> (step: (LoginState, LoginAction))
    ensures
        (step.0.deep_view(), step.1.deep_view()) == login_finished(
            match r {
                Ok(payload) => Ok(payload.deep_view()),
                Err(error) => Err(error),
            },
        ),
{
    match r {
        Ok(payload) => (LoginState::Done(payload), LoginAction::Stop),
        Err(error) => failed(error),
    }
}

/// One step of a login. See [`login_step`] for what each state does with
/// each event. In short: the input is checked; the account is looked up; the
/// secret is checked, then the active flag; the login is recorded; a system
/// administrator gets a token at once; anyone else needs a tenant, whose
/// organizations and roles are then resolved, the roles sorted by level
/// with the most privileged first, and the token minted for the resulting
/// context, whose effective level is that of the first role, or 999 if
/// there is none. A missing answer ends the
/// flow with the error of the step that asked. An event that does not
/// answer the pending request ends it with a persistence error; a flow that
/// is over stays as it is.
pub fn login(
    issuer: &TokenIssuer,
    now: u64,
    policy: GrantPolicy,
    state: LoginState,
    event: LoginEvent,
) -> (step: (LoginState, LoginAction))
    ensures
        (step.0.deep_view(), step.1.deep_view()) == login_step(
            *issuer,
            now, policy,
            state.deep_view(),
            event.deep_view(),
        ),
{
    match (state, event) {
        (LoginState::Done(payload), _) => (LoginState::Done(payload), LoginAction::Stop),
        (LoginState::Failed(error), _) => (LoginState::Failed(error), LoginAction::Stop),
        (LoginState::Start, LoginEvent::Begin { body, domain_id }) => {
            match body.validate() {
                Ok(_) => {
                    let username = body.username.clone();
                    (LoginState::FindingUser { body, domain_id }, LoginAction::FindUser { username })
                },
                Err(error) => failed(error),
            }
        },
        (LoginState::FindingUser { body, domain_id }, LoginEvent::User(found)) => {
            match found {
                Some(user) => {
                    let stored = user.password.clone();
                    (
                        LoginState::VerifyingSecret { user, domain_id },
                        LoginAction::VerifySecret { secret: body.password, stored },
                    )
                },
                None => failed(AuthError::AuthenticationError(AuthFailure::NoSuchUser)),
            }
        },
        (LoginState::VerifyingSecret { user, domain_id }, LoginEvent::Secret(matched)) => {
            if !matched {
                failed(AuthError::AuthenticationError(AuthFailure::BadCredential))
            } else if !user.is_actived {
                failed(AuthError::AuthenticationError(AuthFailure::AccountDisabled))
            } else {
                (LoginState::RecordingLogin { domain_id }, LoginAction::RecordLogin { user })
            }
        },
        (LoginState::RecordingLogin { domain_id }, LoginEvent::Recorded(recorded)) => {
            match recorded {
                None => failed(AuthError::PersistenceError),
                Some(user) => {
                    if is_admin(&user) {
                        let context = AuthContext {
                            user_id: user.id.clone(),
                            username: user.username.clone(),
                            domain_id,
                            org_ids: Vec::new(),
                            role_ids: Vec::new(),
                            effective_level: NO_PRIVILEGE_LEVEL,
                            is_admin: true,
                        };
                        let roles: Vec<Role> = Vec::new();
                        let orgs: Vec<Org> = Vec::new();
                        proof {
                            assert(context.org_ids.deep_view() =~= Seq::<Seq<char>>::empty());
                            assert(context.role_ids.deep_view() =~= Seq::<Seq<char>>::empty());
                            assert(roles.deep_view() =~= Seq::<RoleView>::empty());
                            assert(orgs.deep_view() =~= Seq::<OrgView>::empty());
                        }
                        finished(issue(issuer, now, context, user, None, roles, orgs))
                    } else {
                        match domain_id {
                            None => failed(
                                AuthError::ValidationError(ValidationIssue::DomainRequired),
                            ),
                            Some(id) => {
                                let domain_id = id.clone();
                                (
                                    LoginState::FindingDomain { user, domain_id },
                                    LoginAction::FindDomain { id },
                                )
                            },
                        }
                    }
                },
            }
        },
        (LoginState::FindingDomain { user, domain_id }, LoginEvent::Domain(found)) => {
            match found {
                None => failed(AuthError::NotFoundError(Missing::Domain)),
                Some(domain) => {
                    let user_id = user.id.clone();
                    (
                        LoginState::FindingMemberships { user, domain_id, domain },
                        LoginAction::FindMemberships { user_id },
                    )
                },
            }
        },
        (
            LoginState::FindingMemberships { user, domain_id, domain },
            LoginEvent::Memberships(answer),
        ) => {
            match answer {
                None => failed(AuthError::PersistenceError),
                Some(memberships) => {
                    let org_ids = org_ids(&memberships);
                    if org_ids.len() == 0 {
                        let user_id = user.id.clone();
                        let orgs: Vec<Org> = Vec::new();
                        proof {
                            assert(orgs.deep_view() =~= Seq::<OrgView>::empty());
                        }
                        (
                            LoginState::FindingGrants { user, domain_id, domain, orgs },
                            LoginAction::FindGrants { user_id },
                        )
                    } else {
                        let ids = clone_strings(&org_ids);
                        let tenant = domain_id.clone();
                        (
                            LoginState::FindingOrgs { user, domain_id, domain, org_ids },
                            LoginAction::FindOrgs { ids, domain_id: tenant },
                        )
                    }
                },
            }
        },
        (LoginState::FindingOrgs { user, domain_id, domain, org_ids }, LoginEvent::Orgs(answer)) => {
            match answer {
                None => failed(AuthError::PersistenceError),
                Some(found) => {
                    let user_id = user.id.clone();
                    let orgs = orgs_in_tenant(found, &org_ids, &domain_id);
                    (
                        LoginState::FindingGrants { user, domain_id, domain, orgs },
                        LoginAction::FindGrants { user_id },
                    )
                },
            }
        },
        (LoginState::FindingGrants { user, domain_id, domain, orgs }, LoginEvent::Grants(answer)) => {
            match answer {
                None => failed(AuthError::PersistenceError),
                Some(grants) => {
                    let role_ids = role_ids(&grants, policy);
                    if role_ids.len() == 0 {
                        let roles: Vec<Role> = Vec::new();
                        proof {
                            assert(roles.deep_view() =~= Seq::<RoleView>::empty());
                        }
                        let context = AuthContext {
                            user_id: user.id.clone(),
                            username: user.username.clone(),
                            domain_id: Some(domain_id),
                            org_ids: org_ids_in(&orgs),
                            role_ids: role_ids_in(&roles),
                            effective_level: effective_level(&roles),
                            is_admin: false,
                        };
                        finished(issue(issuer, now, context, user, Some(domain), roles, orgs))
                    } else {
                        let ids = clone_strings(&role_ids);
                        let tenant = domain_id.clone();
                        (
                            LoginState::FindingRoles { user, domain_id, domain, orgs, role_ids },
                            LoginAction::FindRoles { ids, domain_id: tenant },
                        )
                    }
                },
            }
        },
        (
            LoginState::FindingRoles { user, domain_id, domain, orgs, role_ids },
            LoginEvent::Roles(answer),
        ) => {
            match answer {
                None => failed(AuthError::PersistenceError),
                Some(found) => {
                    let sorted = sort_roles(roles_in_tenant(found, &role_ids, &domain_id));
                    let context = AuthContext {
                        user_id: user.id.clone(),
                        username: user.username.clone(),
                        domain_id: Some(domain_id),
                        org_ids: org_ids_in(&orgs),
                        role_ids: role_ids_in(&sorted),
                        effective_level: effective_level(&sorted),
                        is_admin: false,
                    };
                    finished(issue(issuer, now, context, user, Some(domain), sorted, orgs))
                },
            }
        },
        _ => failed(AuthError::PersistenceError),
    }
}

/// The state reached and the requests made, in order, when a flow in `state`
/// is told `events` one after the other, each step at the instant `now`.
pub open spec fn login_run_from(
    issuer: TokenIssuer,
    now: u64,
    policy: GrantPolicy,
    state: LoginStateView,
    events: Seq<LoginEventView>,
) -> (LoginStateView, Seq<LoginActionView>)
    decreases events.len(),
{
    if events.len() == 0 {
        (state, Seq::empty())
    } else {
        let before = login_run_from(issuer, now, policy, state, events.drop_last());
        let step = login_step(issuer, now, policy, before.0, events.last());
        (step.0, before.1.push(step.1))
    }
}

/// The state reached and the requests made when a login is told `events`
/// from its start.
pub open spec fn login_run(
    issuer: TokenIssuer,
    now: u64,
    policy: GrantPolicy,
    events: Seq<LoginEventView>,
) -> (
    LoginStateView,
    Seq<LoginActionView>,
) {
    login_run_from(issuer, now, policy, LoginStateView::Start, events)
}

/// A run over two runs of events is the first run followed by the second.
proof fn lemma_login_run_append(
    issuer: TokenIssuer,
    now: u64,
    policy: GrantPolicy,
    state: LoginStateView,
    first: Seq<LoginEventView>,
    second: Seq<LoginEventView>,
)
    ensures
        login_run_from(issuer, now, policy, state, first + second) == ({
            let head = login_run_from(issuer, now, policy, state, first);
            let tail = login_run_from(issuer, now, policy, head.0, second);
            (tail.0, head.1 + tail.1)
        }),
    decreases second.len(),
{
    let head = login_run_from(issuer, now, policy, state, first);
    if second.len() == 0 {
        assert(first + second =~= first);
        assert(head.1 + Seq::<LoginActionView>::empty() =~= head.1);
    } else {
        lemma_login_run_append(issuer, now, policy, state, first, second.drop_last());
        assert((first + second).drop_last() =~= first + second.drop_last());
        assert((first + second).last() == second.last());
        let tail = login_run_from(issuer, now, policy, head.0, second.drop_last());
        let step = login_step(issuer, now, policy, tail.0, second.last());
        assert((head.1 + tail.1).push(step.1) =~= head.1 + tail.1.push(step.1));
    }
}

/// A flow that is over stays as it is and asks for nothing more.
proof fn lemma_login_over(
    issuer: TokenIssuer,
    now: u64,
    policy: GrantPolicy,
    state: LoginStateView,
    events: Seq<LoginEventView>,
)
    requires
        state.is_final(),
    ensures
        login_run_from(issuer, now, policy, state, events).0 == state,
        no_resolving(login_run_from(issuer, now, policy, state, events).1),
    decreases events.len(),
{
    if events.len() > 0 {
        lemma_login_over(issuer, now, policy, state, events.drop_last());
    }
}

/// Until a login has learnt who the account is, it has asked nothing about
/// tenants, organizations or roles.
proof fn lemma_login_unresolved(
    issuer: TokenIssuer,
    now: u64,
    policy: GrantPolicy,
    events: Seq<LoginEventView>,
)
    ensures
        login_run(issuer, now, policy, events).0.before_resolving() ==> no_resolving(
            login_run(issuer, now, policy, events).1,
        ),
    decreases events.len(),
{
    if events.len() > 0 {
        lemma_login_unresolved(issuer, now, policy, events.drop_last());
    }
}

/// The login of a system administrator resolves nothing. Whatever the flow
/// was told before the login was recorded and whatever it is told
/// afterwards, none of its requests, from the first to the last, asks about
/// tenants, organizations or roles; and it ends with a payload whose context
/// says administrator, carries the level of no restriction, and names no
/// organization and no role. The one other end is that the token's
/// expiration instant cannot be represented.
pub proof fn law_admin_login_resolves_nothing(
    issuer: TokenIssuer,
    now: u64,
    policy: GrantPolicy,
    before: Seq<LoginEventView>,
    user: UserView,
    after: Seq<LoginEventView>,
)
    requires
        login_run(issuer, now, policy, before).0 is RecordingLogin,
        is_admin_user(user),
    ensures
        no_resolving(
            login_run(issuer, now, policy, before.push(LoginEventView::Recorded(Some(user))) + after).1,
        ),
        match login_run(
            issuer,
            now, policy,
            before.push(LoginEventView::Recorded(Some(user))) + after,
        ).0 {
            LoginStateView::Done(payload) => {
                &&& payload.context.is_admin
                &&& payload.context.effective_level == NO_PRIVILEGE_LEVEL
                &&& payload.context.org_ids == Seq::<Seq<char>>::empty()
                &&& payload.context.role_ids == Seq::<Seq<char>>::empty()
                &&& payload.context.user_id == user.id
                &&& payload.context.username == user.username
                &&& payload.context.domain_id == login_run(
                    issuer,
                    now, policy,
                    before,
                ).0->RecordingLogin_domain_id
                &&& payload.user == user
                &&& payload.domain is None
                &&& payload.roles == Seq::<RoleView>::empty()
                &&& payload.orgs == Seq::<OrgView>::empty()
                &&& issuer.minted(payload.context, now) == Ok::<Seq<char>, TokenFault>(
                    payload.token,
                )
            },
            LoginStateView::Failed(error) => {
                &&& error == AuthError::TokenError(TokenFault::LifetimeOverflow)
                &&& issuer.expiry(now) > u64::MAX
            },
            _ => false,
        },
{
    let event = LoginEventView::Recorded(Some(user));
    let head = login_run(issuer, now, policy, before.push(event));
    lemma_login_unresolved(issuer, now, policy, before);
    assert(before.push(event).drop_last() =~= before);
    lemma_login_run_append(issuer, now, policy, LoginStateView::Start, before.push(event), after);
    lemma_login_over(issuer, now, policy, head.0, after);
}

/// Whether the payload is that of a login at `now`: the token was minted
/// for the context; the context names the account; an administrator's
/// context is the administrator context and comes with no tenant, role or
/// organization; anyone else's context is inside a tenant and names the
/// organizations and the roles of the payload and no others, all of which
/// belong to that tenant, the roles are in ascending order of level, and the
/// effective level is the level of the first role, or that of no privilege
/// where there is no role.
pub open spec fn logged_in(issuer: TokenIssuer, now: u64, payload: AuthPayloadView) -> bool {
    &&& issuer.minted(payload.context, now) == Ok::<Seq<char>, TokenFault>(payload.token)
    &&& payload.context.user_id == payload.user.id
    &&& payload.context.username == payload.user.username
    &&& payload.context.is_admin == is_admin_user(payload.user)
    &&& payload.context.is_admin ==> {
        &&& payload.context == admin_context(payload.user, payload.context.domain_id)
        &&& payload.domain is None
        &&& payload.roles.len() == 0
        &&& payload.orgs.len() == 0
    }
    &&& !payload.context.is_admin ==> {
        &&& payload.domain is Some
        &&& payload.context.domain_id is Some
        &&& payload.context == tenant_context(
            payload.user,
            payload.context.domain_id->0,
            payload.orgs,
            payload.roles,
        )
        &&& ascending(payload.roles)
        &&& forall|i: int|
            0 <= i < payload.roles.len() ==> (#[trigger] payload.roles[i]).domain_id
                == payload.context.domain_id->0
        &&& forall|i: int|
            0 <= i < payload.orgs.len() ==> (#[trigger] payload.orgs[i]).domain_id
                == payload.context.domain_id->0
    }
}

/// Whether every organization belongs to the tenant.
pub open spec fn orgs_of_tenant(orgs: Seq<OrgView>, domain_id: Seq<char>) -> bool {
    forall|i: int| 0 <= i < orgs.len() ==> (#[trigger] orgs[i]).domain_id == domain_id
}

/// What holds of every state that a login reaches: only an account that is
/// no administrator gets as far as the tenant, the organizations kept belong
/// to the tenant, and a payload has the shape [`logged_in`].
pub open spec fn login_state_sound(issuer: TokenIssuer, now: u64, state: LoginStateView) -> bool {
    match state {
        LoginStateView::FindingDomain { user, .. } => !is_admin_user(user),
        LoginStateView::FindingMemberships { user, .. } => !is_admin_user(user),
        LoginStateView::FindingOrgs { user, .. } => !is_admin_user(user),
        LoginStateView::FindingGrants { user, domain_id, orgs, .. } => !is_admin_user(user)
            && orgs_of_tenant(orgs, domain_id),
        LoginStateView::FindingRoles { user, domain_id, orgs, .. } => !is_admin_user(user)
            && orgs_of_tenant(orgs, domain_id),
        LoginStateView::Done(payload) => logged_in(issuer, now, payload),
        _ => true,
    }
}

/// Every login that succeeds, whatever it was told on the way, hands back a
/// payload of the shape [`logged_in`].
pub proof fn law_login_payload(
    issuer: TokenIssuer,
    now: u64,
    policy: GrantPolicy,
    events: Seq<LoginEventView>,
)
    ensures
        login_state_sound(issuer, now, login_run(issuer, now, policy, events).0),
        login_run(issuer, now, policy, events).0 matches LoginStateView::Done(payload) ==> logged_in(
            issuer,
            now,
            payload,
        ),
    decreases events.len(),
{
    if events.len() > 0 {
        law_login_payload(issuer, now, policy, events.drop_last());
        let before = login_run(issuer, now, policy, events.drop_last()).0;
        match (before, events.last()) {
            (
                LoginStateView::FindingOrgs { domain_id, org_ids, .. },
                LoginEventView::Orgs(Some(found)),
            ) => {
                let kept = orgs_within(found, org_ids, domain_id);
                assert forall|i: int| 0 <= i < kept.len() implies (#[trigger] kept[i]).domain_id
                    == domain_id by {
                    found.lemma_filter_pred(|org: OrgView| org_within(org, org_ids, domain_id), i);
                }
            },
            (
                LoginStateView::FindingRoles { domain_id, role_ids, .. },
                LoginEventView::Roles(Some(found)),
            ) => {
                let kept = roles_within(found, role_ids, domain_id);
                let sorted = sorted_by_level(kept);
                lemma_sorted_ascending(kept);
                assert forall|i: int| 0 <= i < sorted.len() implies (#[trigger] sorted[i]).domain_id
                    == domain_id by {
                    lemma_sorted_from(kept, i);
                    let k = choose|k: int| 0 <= k < kept.len() && kept[k] == sorted[i];
                    found.lemma_filter_pred(
                        |role: RoleView| role_within(role, role_ids, domain_id),
                        k,
                    );
                }
            },
            _ => {},
        }
    }
}

/// The token of a login that succeeded, read by its issuer before it
/// expires, gives the context of the payload.
pub proof fn law_login_token(
    issuer: TokenIssuer,
    now: u64,
    policy: GrantPolicy,
    events: Seq<LoginEventView>,
    read_at: u64,
)
    requires
        login_run(issuer, now, policy, events).0 is Done,
        mintable(login_run(issuer, now, policy, events).0->Done_0.context, issuer.expiry(now) as u64),
        read_at < issuer.expiry(now),
    ensures
        ({
            let payload = login_run(issuer, now, policy, events).0->Done_0;
            read_token(issuer.secret@, payload.token, read_at) == Ok::<
                crate::context::AuthContextView,
                TokenFault,
            >(payload.context)
        }),
{
    let payload = login_run(issuer, now, policy, events).0->Done_0;
    law_login_payload(issuer, now, policy, events);
    law_token_round_trip(issuer, payload.context, now, read_at);
}

/// A login of an account that is no administrator and that holds no role in
/// the selected tenant yields the level of no privilege, 999.
pub proof fn law_no_role_is_no_privilege(
    issuer: TokenIssuer,
    now: u64,
    policy: GrantPolicy,
    events: Seq<LoginEventView>,
)
    ensures
        login_run(issuer, now, policy, events).0 matches LoginStateView::Done(payload) ==> (
        !payload.context.is_admin && payload.roles.len() == 0
            ==> payload.context.effective_level == 999),
{
    law_login_payload(issuer, now, policy, events);
}

/// A login never asks the store for the organizations or the roles of an
/// empty list of ids: where there is nothing to look up, it goes on without
/// asking.
pub proof fn law_no_empty_lookup(
    issuer: TokenIssuer,
    now: u64,
    policy: GrantPolicy,
    events: Seq<LoginEventView>,
)
    ensures
        no_empty_lookup(login_run(issuer, now, policy, events).1),
    decreases events.len(),
{
    if events.len() > 0 {
        law_no_empty_lookup(issuer, now, policy, events.drop_last());
    }
}

} // verus!
