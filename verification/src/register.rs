//! The registration flow.
//!
//! The flow is a step function, driven like [`crate::login`]: the caller
//! starts in [`RegisterState::Start`] with the event
//! [`RegisterEvent::Begin`], carries out the request that each step returns,
//! and hands the store's answer to the next step, until the request is
//! [`RegisterAction::Stop`].
//!
//! The flow writes twice, in this order: it creates the account, then it
//! grants the tenant's default role to it. Nothing is written before the
//! input, the username, the tenant and its default role have all been
//! checked. The steps are not one transaction: when a later step fails, what
//! an earlier step wrote stays, and the flow asks for no undoing.
use crate::context::AuthContext;
use crate::context::AuthContextView;
use crate::error::{AuthError, Missing, Unmet, ValidationIssue};
use crate::input::{NewUser, NewUserView};
use crate::model::{
    Domain, DomainView, Org, OrgView, Role, RoleView, Timestamp, User, UserRole, UserRoleView,
    UserView,
};
use crate::stamp::local_now;
use crate::outcome::{issue, issued, AuthPayload, AuthPayloadView};
use crate::error::TokenFault;
use crate::token::{law_token_round_trip, mintable, read_token, TokenIssuer};
use vstd::prelude::*;

verus! {

/// Where a registration stands.
#[derive(Clone, Debug, PartialEq, Eq)]
pub enum RegisterState {
    /// Nothing has happened yet.
    Start,
    /// The store is being asked whether the username is taken.
    CheckingUsername { body: NewUser, domain_id: Option<String> },
    /// The selected tenant is being looked up.
    FindingDomain { body: NewUser },
    /// The tenant's default role is being looked up.
    FindingRole { body: NewUser, domain: Domain },
    /// The account is being created.
    CreatingUser { domain: Domain, role: Role },
    /// The default role is being granted to the new account.
    GrantingRole { user: User, domain: Domain, role: Role },
    /// The registration succeeded.
    Done(AuthPayload),
    /// The registration failed.
    Failed(AuthError),
}

/// The model of a [`RegisterState`].
pub enum RegisterStateView {
    Start,
    CheckingUsername { body: NewUserView, domain_id: Option<Seq<char>> },
    FindingDomain { body: NewUserView },
    FindingRole { body: NewUserView, domain: DomainView },
    CreatingUser { domain: DomainView, role: RoleView },
    GrantingRole { user: UserView, domain: DomainView, role: RoleView },
    Done(AuthPayloadView),
    Failed(AuthError),
}

impl DeepView for RegisterState {
    type V = RegisterStateView;

    open spec fn deep_view(&self) -> RegisterStateView {
        match self {
            RegisterState::Start => RegisterStateView::Start,
            RegisterState::CheckingUsername {
                body,
                domain_id,
            } => RegisterStateView::CheckingUsername {
                body: body.deep_view(),
                domain_id: domain_id.deep_view(),
            },
            RegisterState::FindingDomain { body } => RegisterStateView::FindingDomain {
                body: body.deep_view(),
            },
            RegisterState::FindingRole { body, domain } => RegisterStateView::FindingRole {
                body: body.deep_view(),
                domain: domain.deep_view(),
            },
            RegisterState::CreatingUser { domain, role } => RegisterStateView::CreatingUser {
                domain: domain.deep_view(),
                role: role.deep_view(),
            },
            RegisterState::GrantingRole { user, domain, role } => RegisterStateView::GrantingRole {
                user: user.deep_view(),
                domain: domain.deep_view(),
                role: role.deep_view(),
            },
            RegisterState::Done(payload) => RegisterStateView::Done(payload.deep_view()),
            RegisterState::Failed(error) => RegisterStateView::Failed(*error),
        }
    }
}

/// How the store answered the request to create an account.
#[derive(Clone, Debug, PartialEq, Eq)]
pub enum Insertion {
    /// The account was created; this is its record.
    Stored(User),
    /// The username was taken after all; nothing was written.
    Duplicate,
    /// The store failed.
    Failed,
}

/// The model of an [`Insertion`].
pub enum InsertionView {
    Stored(UserView),
    Duplicate,
    Failed,
}

impl DeepView for Insertion {
    type V = InsertionView;

    open spec fn deep_view(&self) -> InsertionView {
        match self {
            Insertion::Stored(user) => InsertionView::Stored(user.deep_view()),
            Insertion::Duplicate => InsertionView::Duplicate,
            Insertion::Failed => InsertionView::Failed,
        }
    }
}

/// What a registration is told: the caller's input, then the store's
/// answers.
#[derive(Clone, Debug, PartialEq, Eq)]
pub enum RegisterEvent {
    /// The caller's input: the account fields and the tenant selector.
    Begin { body: NewUser, domain_id: Option<String> },
    /// Whether an account with the username exists.
    Username { taken: bool },
    /// The selected tenant, if it exists.
    Domain(Option<Domain>),
    /// The tenant's default role, if the store still has it.
    Role(Option<Role>),
    /// The outcome of creating the account.
    Created(Insertion),
    /// Whether the grant was stored.
    Granted(bool),
}

/// The model of a [`RegisterEvent`].
pub enum RegisterEventView {
    Begin { body: NewUserView, domain_id: Option<Seq<char>> },
    Username { taken: bool },
    Domain(Option<DomainView>),
    Role(Option<RoleView>),
    Created(InsertionView),
    Granted(bool),
}

impl DeepView for RegisterEvent {
    type V = RegisterEventView;

    open spec fn deep_view(&self) -> RegisterEventView {
        match self {
            RegisterEvent::Begin { body, domain_id } => RegisterEventView::Begin {
                body: body.deep_view(),
                domain_id: domain_id.deep_view(),
            },
            RegisterEvent::Username { taken } => RegisterEventView::Username { taken: *taken },
            RegisterEvent::Domain(found) => RegisterEventView::Domain(found.deep_view()),
            RegisterEvent::Role(found) => RegisterEventView::Role(found.deep_view()),
            RegisterEvent::Created(outcome) => RegisterEventView::Created(outcome.deep_view()),
            RegisterEvent::Granted(stored) => RegisterEventView::Granted(*stored),
        }
    }
}

/// What a registration asks of its caller next.
#[derive(Clone, Debug, PartialEq, Eq)]
pub enum RegisterAction {
    /// Say whether an account with the username exists. Answer:
    /// [`RegisterEvent::Username`].
    CheckUsername { username: String },
    /// Look the tenant up. Answer: [`RegisterEvent::Domain`].
    FindDomain { id: String },
    /// Look the role up. Answer: [`RegisterEvent::Role`].
    FindRole { id: String },
    /// Hash the secret and create the account. Answer:
    /// [`RegisterEvent::Created`].
    CreateUser { body: NewUser },
    /// Grant the role to the account. Answer: [`RegisterEvent::Granted`].
    GrantRole { user_id: String, role_id: String },
    /// Nothing: the flow is over.
    Stop,
}

/// The model of a [`RegisterAction`].
pub enum RegisterActionView {
    CheckUsername { username: Seq<char> },
    FindDomain { id: Seq<char> },
    FindRole { id: Seq<char> },
    CreateUser { body: NewUserView },
    GrantRole { user_id: Seq<char>, role_id: Seq<char> },
    Stop,
}

impl DeepView for RegisterAction {
    type V = RegisterActionView;

    open spec fn deep_view(&self) -> RegisterActionView {
        match self {
            RegisterAction::CheckUsername { username } => RegisterActionView::CheckUsername {
                username: username@,
            },
            RegisterAction::FindDomain { id } => RegisterActionView::FindDomain { id: id@ },
            RegisterAction::FindRole { id } => RegisterActionView::FindRole { id: id@ },
            RegisterAction::CreateUser { body } => RegisterActionView::CreateUser {
                body: body.deep_view(),
            },
            RegisterAction::GrantRole { user_id, role_id } => RegisterActionView::GrantRole {
                user_id: user_id@,
                role_id: role_id@,
            },
            RegisterAction::Stop => RegisterActionView::Stop,
        }
    }
}

impl RegisterActionView {
    /// Whether the request changes the store.
    pub open spec fn writes(self) -> bool {
        self is CreateUser || self is GrantRole
    }
}

impl RegisterStateView {
    /// Whether the flow is over.
    pub open spec fn is_final(self) -> bool {
        self is Done || self is Failed
    }

    /// Whether the flow is still checking: it has not yet asked for the
    /// account to be created.
    pub open spec fn before_writing(self) -> bool {
        self is Start || self is CheckingUsername || self is FindingDomain || self is FindingRole
    }
}

/// Whether none of the requests changes the store.
pub open spec fn no_writes(actions: Seq<RegisterActionView>) -> bool {
    forall|i: int| 0 <= i < actions.len() ==> !(#[trigger] actions[i]).writes()
}

/// The instant at which a grant that does not expire is said to expire: the
/// last one that can be written.
pub open spec fn never() -> Timestamp {
    Timestamp { millis: i64::MAX }
}

impl UserRole {
    /// The grant of `role_id` to `user_id`, made at `at`, that does not
    /// expire.
    pub open spec fn lasting(user_id: Seq<char>, role_id: Seq<char>, at: Timestamp) -> UserRoleView {
        UserRoleView { user_id, role_id, expire: never(), created_at: at }
    }

    /// The row to store for the grant of a role to a user at registration:
    /// made at the current local time, it does not expire.
    pub fn grant(user_id: String, role_id: String) -> (row: UserRole)
        ensures
            row.deep_view() == UserRole::lasting(user_id@, role_id@, row.created_at),
    {
        UserRole {
            user_id,
            role_id,
            expire: Timestamp { millis: i64::MAX },
            created_at: local_now(),
        }
    }
}

/// The context of a newly registered account: it is in the tenant it
/// registered in, belongs to no organization, and holds the tenant's default
/// role and nothing else.
pub open spec fn registration_context(
    user: UserView,
    domain: DomainView,
    role: RoleView,
) -> AuthContextView {
    AuthContextView {
        user_id: user.id,
        username: user.username,
        domain_id: Some(domain.id),
        org_ids: Seq::empty(),
        role_ids: seq![role.id],
        effective_level: role.level,
        is_admin: false,
    }
}

/// The step that ends a registration in failure.
pub open spec fn register_failed(error: AuthError) -> (RegisterStateView, RegisterActionView) {
    (RegisterStateView::Failed(error), RegisterActionView::Stop)
}

/// The step that ends a registration: with the payload if the token can be
/// minted, with the token error if not.
pub open spec fn register_finished(
    r: Result<AuthPayloadView, AuthError>,
) -> (RegisterStateView, RegisterActionView) {
    match r {
        Ok(payload) => (RegisterStateView::Done(payload), RegisterActionView::Stop),
        Err(error) => register_failed(error),
    }
}

/// One step of a registration: the state and the request that follow from a
/// state and an event. `now` is the instant of the step in seconds since the
/// epoch; it is the instant at which the token, if any, is minted.
pub open spec fn register_step(
    issuer: TokenIssuer,
    now: u64,
    state: RegisterStateView,
    event: RegisterEventView,
) -> (RegisterStateView, RegisterActionView) {
    match (state, event) {
        (RegisterStateView::Done(payload), _) => (state, RegisterActionView::Stop),
        (RegisterStateView::Failed(error), _) => (state, RegisterActionView::Stop),
        (RegisterStateView::Start, RegisterEventView::Begin { body, domain_id }) => {
            if body.valid() {
                (
                    RegisterStateView::CheckingUsername { body, domain_id },
                    RegisterActionView::CheckUsername { username: body.username },
                )
            } else {
                register_failed(AuthError::ValidationError(ValidationIssue::MalformedInput))
            }
        },
        (
            RegisterStateView::CheckingUsername { body, domain_id },
            RegisterEventView::Username { taken },
        ) => {
            if taken {
                register_failed(AuthError::ConflictError)
            } else {
                match domain_id {
                    None => register_failed(
                        AuthError::ValidationError(ValidationIssue::DomainRequired),
                    ),
                    Some(id) => (
                        RegisterStateView::FindingDomain { body },
                        RegisterActionView::FindDomain { id },
                    ),
                }
            }
        },
        (RegisterStateView::FindingDomain { body }, RegisterEventView::Domain(found)) => {
            match found {
                None => register_failed(AuthError::NotFoundError(Missing::Domain)),
                Some(domain) => match domain.default_role_id {
                    None => register_failed(
                        AuthError::PreconditionError(Unmet::DomainHasNoDefaultRole),
                    ),
                    Some(role_id) => (
                        RegisterStateView::FindingRole { body, domain },
                        RegisterActionView::FindRole { id: role_id },
                    ),
                },
            }
        },
        (RegisterStateView::FindingRole { body, domain }, RegisterEventView::Role(found)) => {
            match found {
                None => register_failed(AuthError::PersistenceError),
                Some(role) => (
                    RegisterStateView::CreatingUser { domain, role },
                    RegisterActionView::CreateUser { body },
                ),
            }
        },
        (RegisterStateView::CreatingUser { domain, role }, RegisterEventView::Created(outcome)) => {
            match outcome {
                InsertionView::Stored(user) => (
                    RegisterStateView::GrantingRole { user, domain, role },
                    RegisterActionView::GrantRole { user_id: user.id, role_id: role.id },
                ),
                InsertionView::Duplicate => register_failed(AuthError::ConflictError),
                InsertionView::Failed => register_failed(AuthError::PersistenceError),
            }
        },
        (
            RegisterStateView::GrantingRole { user, domain, role },
            RegisterEventView::Granted(stored),
        ) => {
            if stored {
                register_finished(
                    issued(
                        issuer,
                        now,
                        registration_context(user, domain, role),
                        user,
                        Some(domain),
                        seq![role],
                        Seq::empty(),
                    ),
                )
            } else {
                register_failed(AuthError::PersistenceError)
            }
        },
        _ => register_failed(AuthError::PersistenceError),
    }
}

fn failed(error: AuthError) -> (r: (RegisterState, RegisterAction))
    ensures
        (r.0.deep_view(), r.1.deep_view()) == register_failed(error),
{
    (RegisterState::Failed(error), RegisterAction::Stop)
}

fn finished(r: Result<AuthPayload, AuthError>) -> (step: (RegisterState, RegisterAction))
    ensures
        (step.0.deep_view(), step.1.deep_view()) == register_finished(
            match r {
                Ok(payload) => Ok(payload.deep_view()),
                Err(error) => Err(error),
            },
        ),
{
    match r {
        Ok(payload) => (RegisterState::Done(payload), RegisterAction::Stop),
        Err(error) => failed(error),
    }
}

/// One step of a registration. See [`register_step`] for what each state
/// does with each event. In short: the input is checked; a taken username
/// is a conflict; the tenant must be selected, must exist and must have a
/// default role, which must still be there; then the account is created and
/// the role granted to it; then the token is minted for a context that holds
/// exactly that role and no organization. An event that does not answer the
/// pending request ends the flow with a persistence error; a flow that is
/// over stays as it is.
pub fn register(
    issuer: &TokenIssuer,
    now: u64,
    state: RegisterState,
    event: RegisterEvent,
) -> (step: (RegisterState, RegisterAction))
    ensures
        (step.0.deep_view(), step.1.deep_view()) == register_step(
            *issuer,
            now,
            state.deep_view(),
            event.deep_view(),
        ),
{
    match (state, event) {
        (RegisterState::Done(payload), _) => (RegisterState::Done(payload), RegisterAction::Stop),
        (RegisterState::Failed(error), _) => (RegisterState::Failed(error), RegisterAction::Stop),
        (RegisterState::Start, RegisterEvent::Begin { body, domain_id }) => {
            match body.validate() {
                Ok(_) => {
                    let username = body.username.clone();
                    (
                        RegisterState::CheckingUsername { body, domain_id },
                        RegisterAction::CheckUsername { username },
                    )
                },
                Err(error) => failed(error),
            }
        },
        (RegisterState::CheckingUsername { body, domain_id }, RegisterEvent::Username { taken }) => {
            if taken {
                failed(AuthError::ConflictError)
            } else {
                match domain_id {
                    None => failed(AuthError::ValidationError(ValidationIssue::DomainRequired)),
                    Some(id) => (
                        RegisterState::FindingDomain { body },
                        RegisterAction::FindDomain { id },
                    ),
                }
            }
        },
        (RegisterState::FindingDomain { body }, RegisterEvent::Domain(found)) => {
            match found {
                None => failed(AuthError::NotFoundError(Missing::Domain)),
                Some(domain) => {
                    match &domain.default_role_id {
                        None => failed(AuthError::PreconditionError(Unmet::DomainHasNoDefaultRole)),
                        Some(role_id) => {
                            let id = role_id.clone();
                            (
                                RegisterState::FindingRole { body, domain },
                                RegisterAction::FindRole { id },
                            )
                        },
                    }
                },
            }
        },
        (RegisterState::FindingRole { body, domain }, RegisterEvent::Role(found)) => {
            match found {
                None => failed(AuthError::PersistenceError),
                Some(role) => (
                    RegisterState::CreatingUser { domain, role },
                    RegisterAction::CreateUser { body },
                ),
            }
        },
        (RegisterState::CreatingUser { domain, role }, RegisterEvent::Created(outcome)) => {
            match outcome {
                Insertion::Stored(user) => {
                    let user_id = user.id.clone();
                    let role_id = role.id.clone();
                    (
                        RegisterState::GrantingRole { user, domain, role },
                        RegisterAction::GrantRole { user_id, role_id },
                    )
                },
                Insertion::Duplicate => failed(AuthError::ConflictError),
                Insertion::Failed => failed(AuthError::PersistenceError),
            }
        },
        (RegisterState::GrantingRole { user, domain, role }, RegisterEvent::Granted(stored)) => {
            if stored {
                let mut role_ids: Vec<String> = Vec::new();
                role_ids.push(role.id.clone());
                let context = AuthContext {
                    user_id: user.id.clone(),
                    username: user.username.clone(),
                    domain_id: Some(domain.id.clone()),
                    org_ids: Vec::new(),
                    role_ids,
                    effective_level: role.level,
                    is_admin: false,
                };
                let ghost granted = role.deep_view();
                let mut roles: Vec<Role> = Vec::new();
                roles.push(role);
                let orgs: Vec<Org> = Vec::new();
                proof {
                    assert(context.org_ids.deep_view() =~= Seq::<Seq<char>>::empty());
                    assert(context.role_ids.deep_view() =~= seq![granted.id]);
                    assert(roles.deep_view() =~= seq![granted]);
                    assert(orgs.deep_view() =~= Seq::<OrgView>::empty());
                }
                finished(issue(issuer, now, context, user, Some(domain), roles, orgs))
            } else {
                failed(AuthError::PersistenceError)
            }
        },
        _ => failed(AuthError::PersistenceError),
    }
}

/// The state reached and the requests made, in order, when a flow in `state`
/// is told `events` one after the other, each step at the instant `now`.
pub open spec fn register_run_from(
    issuer: TokenIssuer,
    now: u64,
    state: RegisterStateView,
    events: Seq<RegisterEventView>,
) -> (RegisterStateView, Seq<RegisterActionView>)
    decreases events.len(),
{
    if events.len() == 0 {
        (state, Seq::empty())
    } else {
        let before = register_run_from(issuer, now, state, events.drop_last());
        let step = register_step(issuer, now, before.0, events.last());
        (step.0, before.1.push(step.1))
    }
}

/// The state reached and the requests made when a registration is told
/// `events` from its start.
pub open spec fn register_run(
    issuer: TokenIssuer,
    now: u64,
    events: Seq<RegisterEventView>,
) -> (RegisterStateView, Seq<RegisterActionView>) {
    register_run_from(issuer, now, RegisterStateView::Start, events)
}

/// A run over two runs of events is the first run followed by the second.
proof fn lemma_register_run_append(
    issuer: TokenIssuer,
    now: u64,
    state: RegisterStateView,
    first: Seq<RegisterEventView>,
    second: Seq<RegisterEventView>,
)
    ensures
        register_run_from(issuer, now, state, first + second) == ({
            let head = register_run_from(issuer, now, state, first);
            let tail = register_run_from(issuer, now, head.0, second);
            (tail.0, head.1 + tail.1)
        }),
    decreases second.len(),
{
    let head = register_run_from(issuer, now, state, first);
    if second.len() == 0 {
        assert(first + second =~= first);
        assert(head.1 + Seq::<RegisterActionView>::empty() =~= head.1);
    } else {
        lemma_register_run_append(issuer, now, state, first, second.drop_last());
        assert((first + second).drop_last() =~= first + second.drop_last());
        assert((first + second).last() == second.last());
        let tail = register_run_from(issuer, now, head.0, second.drop_last());
        let step = register_step(issuer, now, tail.0, second.last());
        assert((head.1 + tail.1).push(step.1) =~= head.1 + tail.1.push(step.1));
    }
}

/// A flow that is over stays as it is and asks for nothing more.
proof fn lemma_register_over(
    issuer: TokenIssuer,
    now: u64,
    state: RegisterStateView,
    events: Seq<RegisterEventView>,
)
    requires
        state.is_final(),
    ensures
        register_run_from(issuer, now, state, events).0 == state,
        no_writes(register_run_from(issuer, now, state, events).1),
    decreases events.len(),
{
    if events.len() > 0 {
        lemma_register_over(issuer, now, state, events.drop_last());
    }
}

/// While a registration is still checking, it has asked for no write.
proof fn lemma_register_quiet(issuer: TokenIssuer, now: u64, events: Seq<RegisterEventView>)
    ensures
        register_run(issuer, now, events).0.before_writing() ==> no_writes(
            register_run(issuer, now, events).1,
        ),
    decreases events.len(),
{
    if events.len() > 0 {
        lemma_register_quiet(issuer, now, events.drop_last());
    }
}

/// What follows when a registration that has asked for no write ends at its
/// next event: the whole run asks for no write and stays at that end.
proof fn lemma_register_refused(
    issuer: TokenIssuer,
    now: u64,
    before: Seq<RegisterEventView>,
    event: RegisterEventView,
    after: Seq<RegisterEventView>,
    error: AuthError,
)
    requires
        register_run(issuer, now, before).0.before_writing(),
        register_step(issuer, now, register_run(issuer, now, before).0, event)
            == register_failed(error),
    ensures
        register_run(issuer, now, before.push(event) + after).0 == RegisterStateView::Failed(
            error,
        ),
        no_writes(register_run(issuer, now, before.push(event) + after).1),
{
    let start = RegisterStateView::Start;
    let head = register_run(issuer, now, before.push(event));
    lemma_register_quiet(issuer, now, before);
    assert(before.push(event).drop_last() =~= before);
    lemma_register_run_append(issuer, now, start, before.push(event), after);
    lemma_register_over(issuer, now, head.0, after);
}

/// Registering a username that is taken fails as a conflict and leaves the
/// store as it was: whatever the flow was told before the store said so and
/// whatever it is told afterwards, it ends in `ConflictError` and none of
/// its requests, from the first to the last, is a write.
pub proof fn law_taken_username_is_conflict(
    issuer: TokenIssuer,
    now: u64,
    before: Seq<RegisterEventView>,
    after: Seq<RegisterEventView>,
)
    requires
        register_run(issuer, now, before).0 is CheckingUsername,
    ensures
        register_run(
            issuer,
            now,
            before.push(RegisterEventView::Username { taken: true }) + after,
        ).0 == RegisterStateView::Failed(AuthError::ConflictError),
        no_writes(
            register_run(
                issuer,
                now,
                before.push(RegisterEventView::Username { taken: true }) + after,
            ).1,
        ),
{
    lemma_register_refused(
        issuer,
        now,
        before,
        RegisterEventView::Username { taken: true },
        after,
        AuthError::ConflictError,
    );
}

/// Registering in a tenant that has no default role fails on an unmet
/// precondition and creates no account: whatever the flow was told before
/// the store returned the tenant and whatever it is told afterwards, it ends
/// in `PreconditionError` and none of its requests is a write.
pub proof fn law_no_default_role_is_refused(
    issuer: TokenIssuer,
    now: u64,
    before: Seq<RegisterEventView>,
    domain: DomainView,
    after: Seq<RegisterEventView>,
)
    requires
        register_run(issuer, now, before).0 is FindingDomain,
        domain.default_role_id is None,
    ensures
        register_run(
            issuer,
            now,
            before.push(RegisterEventView::Domain(Some(domain))) + after,
        ).0 == RegisterStateView::Failed(
            AuthError::PreconditionError(Unmet::DomainHasNoDefaultRole),
        ),
        no_writes(
            register_run(
                issuer,
                now,
                before.push(RegisterEventView::Domain(Some(domain))) + after,
            ).1,
        ),
{
    lemma_register_refused(
        issuer,
        now,
        before,
        RegisterEventView::Domain(Some(domain)),
        after,
        AuthError::PreconditionError(Unmet::DomainHasNoDefaultRole),
    );
}

/// Whether the payload is that of a registration: the account is in the
/// tenant returned, holds exactly the one role returned and no organization,
/// and the token was minted at `now` for the context that says so.
pub open spec fn registered(issuer: TokenIssuer, now: u64, payload: AuthPayloadView) -> bool {
    &&& payload.domain is Some
    &&& payload.roles.len() == 1
    &&& payload.orgs.len() == 0
    &&& payload.context == registration_context(
        payload.user,
        payload.domain->0,
        payload.roles[0],
    )
    &&& issuer.minted(payload.context, now) == Ok::<Seq<char>, TokenFault>(payload.token)
}

/// Every registration that succeeds, whatever it was told on the way, hands
/// back a token for a context whose role list is exactly the one role
/// granted and whose organization list is empty.
pub proof fn law_registered_payload(
    issuer: TokenIssuer,
    now: u64,
    events: Seq<RegisterEventView>,
)
    ensures
        register_run(issuer, now, events).0 matches RegisterStateView::Done(payload)
            ==> registered(issuer, now, payload) && payload.context.role_ids == seq![
            payload.roles[0].id,
        ] && payload.context.org_ids == Seq::<Seq<char>>::empty(),
    decreases events.len(),
{
    if events.len() > 0 {
        law_registered_payload(issuer, now, events.drop_last());
    }
}

/// The token of a registration that succeeded, read by its issuer before it
/// expires, gives a context whose role list is exactly the role granted and
/// whose organization list is empty.
pub proof fn law_registered_token(
    issuer: TokenIssuer,
    now: u64,
    events: Seq<RegisterEventView>,
    read_at: u64,
)
    requires
        register_run(issuer, now, events).0 is Done,
        mintable(
            register_run(issuer, now, events).0->Done_0.context,
            issuer.expiry(now) as u64,
        ),
        read_at < issuer.expiry(now),
    ensures
        ({
            let payload = register_run(issuer, now, events).0->Done_0;
            &&& read_token(issuer.secret@, payload.token, read_at) matches Ok(context)
            &&& context.role_ids == seq![payload.roles[0].id]
            &&& context.org_ids == Seq::<Seq<char>>::empty()
        }),
{
    let payload = register_run(issuer, now, events).0->Done_0;
    law_registered_payload(issuer, now, events);
    law_token_round_trip(issuer, payload.context, now, read_at);
}

/// A registration with valid input in a tenant that has a default role, to
/// which the store answers every request with success, asks in turn for the
/// username check, the tenant, the tenant's default role, the new account
/// and the grant, and ends with the payload for the account, the tenant and
/// that role.
pub proof fn law_registration_succeeds(
    issuer: TokenIssuer,
    now: u64,
    body: NewUserView,
    domain_id: Seq<char>,
    domain: DomainView,
    role: RoleView,
    user: UserView,
)
    requires
        body.valid(),
        domain.default_role_id is Some,
        issuer.expiry(now) <= u64::MAX,
    ensures
        ({
            let run = register_run(
                issuer,
                now,
                seq![
                    RegisterEventView::Begin { body, domain_id: Some(domain_id) },
                    RegisterEventView::Username { taken: false },
                    RegisterEventView::Domain(Some(domain)),
                    RegisterEventView::Role(Some(role)),
                    RegisterEventView::Created(InsertionView::Stored(user)),
                    RegisterEventView::Granted(true),
                ],
            );
            &&& run.1 == seq![
                RegisterActionView::CheckUsername { username: body.username },
                RegisterActionView::FindDomain { id: domain_id },
                RegisterActionView::FindRole { id: domain.default_role_id->0 },
                RegisterActionView::CreateUser { body },
                RegisterActionView::GrantRole { user_id: user.id, role_id: role.id },
                RegisterActionView::Stop,
            ]
            &&& run.0 matches RegisterStateView::Done(payload)
            &&& payload.user == user
            &&& payload.domain == Some(domain)
            &&& payload.roles == seq![role]
            &&& registered(issuer, now, payload)
        }),
{
    let e1 = RegisterEventView::Begin { body, domain_id: Some(domain_id) };
    let e2 = RegisterEventView::Username { taken: false };
    let e3 = RegisterEventView::Domain(Some(domain));
    let e4 = RegisterEventView::Role(Some(role));
    let e5 = RegisterEventView::Created(InsertionView::Stored(user));
    let e6 = RegisterEventView::Granted(true);
    let t0 = Seq::<RegisterEventView>::empty();
    let t1 = t0.push(e1);
    let t2 = t1.push(e2);
    let t3 = t2.push(e3);
    let t4 = t3.push(e4);
    let t5 = t4.push(e5);
    let t6 = t5.push(e6);
    assert(t1.drop_last() =~= t0);
    assert(t2.drop_last() =~= t1);
    assert(t3.drop_last() =~= t2);
    assert(t4.drop_last() =~= t3);
    assert(t5.drop_last() =~= t4);
    assert(t6.drop_last() =~= t5);
    let r0 = register_run(issuer, now, t0);
    assert(r0 == (RegisterStateView::Start, Seq::<RegisterActionView>::empty()));
    let r1 = register_run(issuer, now, t1);
    let r2 = register_run(issuer, now, t2);
    let r3 = register_run(issuer, now, t3);
    let r4 = register_run(issuer, now, t4);
    let r5 = register_run(issuer, now, t5);
    let r6 = register_run(issuer, now, t6);
    assert(r1 == (register_step(issuer, now, r0.0, e1).0, r0.1.push(
        register_step(issuer, now, r0.0, e1).1,
    )));
    assert(r1.0 == RegisterStateView::CheckingUsername { body, domain_id: Some(domain_id) });
    assert(r2.0 == RegisterStateView::FindingDomain { body });
    assert(r3.0 == RegisterStateView::FindingRole { body, domain });
    assert(r4.0 == RegisterStateView::CreatingUser { domain, role });
    assert(r5.0 == RegisterStateView::GrantingRole { user, domain, role });
    assert(r6.0 is Done);
    assert(t6 =~= seq![e1, e2, e3, e4, e5, e6]);
    assert(r6.1 =~= seq![
        RegisterActionView::CheckUsername { username: body.username },
        RegisterActionView::FindDomain { id: domain_id },
        RegisterActionView::FindRole { id: domain.default_role_id->0 },
        RegisterActionView::CreateUser { body },
        RegisterActionView::GrantRole { user_id: user.id, role_id: role.id },
        RegisterActionView::Stop,
    ]);
}

} // verus!
