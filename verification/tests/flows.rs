use tenant_auth::{
    login, register, AuthContext, AuthError, AuthFailure, AuthPayload, Domain, GrantPolicy, Insertion,
    LoginAction, LoginEvent, LoginState, LoginUser, Missing, NewUser, Org, RegisterAction,
    RegisterEvent, RegisterState, Role, Timestamp, TokenFault, TokenIssuer, Unmet, User, UserOrg,
    UserRole, ValidationIssue,
};

struct Store {
    users: Vec<User>,
    domains: Vec<Domain>,
    roles: Vec<Role>,
    orgs: Vec<Org>,
    user_orgs: Vec<UserOrg>,
    user_roles: Vec<UserRole>,
    fail_grant: bool,
    fail_record: bool,
    duplicate_on_insert: bool,
}

fn hash(secret: &str) -> String {
    format!("hashed:{}", secret)
}

fn role(id: &str, level: i32, domain_id: &str) -> Role {
    Role {
        id: id.to_string(),
        name: format!("role {}", id),
        value: id.to_lowercase(),
        level,
        domain_id: domain_id.to_string(),
    }
}

fn org(id: &str, domain_id: &str) -> Org {
    Org { id: id.to_string(), name: format!("org {}", id), description: None, domain_id: domain_id.to_string() }
}

fn account(id: &str, username: &str, secret: &str, sys_role: Option<&str>, active: bool) -> User {
    User {
        id: id.to_string(),
        username: username.to_string(),
        password: hash(secret),
        email: None,
        avatar: None,
        memo: None,
        sys_role: sys_role.map(|tag| tag.to_string()),
        is_actived: active,
        last_logined_at: Timestamp { millis: 0 },
        created_at: Timestamp { millis: 0 },
    }
}

fn member(user_id: &str, org_id: &str) -> UserOrg {
    UserOrg { user_id: user_id.to_string(), org_id: org_id.to_string() }
}

fn grant(user_id: &str, role_id: &str) -> UserRole {
    UserRole {
        user_id: user_id.to_string(),
        role_id: role_id.to_string(),
        expire: Timestamp { millis: 0 },
        created_at: Timestamp { millis: 0 },
    }
}

fn store() -> Store {
    Store {
        users: vec![
            account("u-bob", "bob", "hunter2", Some("user"), true),
            account("u-root", "root", "toor", Some("admin"), true),
            account("u-eve", "eve", "apple", Some("user"), false),
            account("u-dan", "dan", "dan", None, true),
        ],
        domains: vec![
            Domain { id: "D1".to_string(), name: "one".to_string(), default_role_id: Some("R1".to_string()) },
            Domain { id: "D2".to_string(), name: "two".to_string(), default_role_id: None },
            Domain { id: "D3".to_string(), name: "three".to_string(), default_role_id: Some("gone".to_string()) },
        ],
        roles: vec![
            role("R1", 10, "D1"),
            role("R5", 5, "D1"),
            role("R2", 2, "D1"),
            role("R8", 8, "D1"),
            role("X1", 1, "D2"),
        ],
        orgs: vec![org("O1", "D1"), org("O2", "D2"), org("O3", "D1")],
        user_orgs: vec![member("u-bob", "O1"), member("u-bob", "O2"), member("u-bob", "O3")],
        user_roles: vec![
            grant("u-bob", "R5"),
            grant("u-bob", "X1"),
            grant("u-bob", "R2"),
            grant("u-bob", "R8"),
        ],
        fail_grant: false,
        fail_record: false,
        duplicate_on_insert: false,
    }
}

fn issuer() -> TokenIssuer {
    TokenIssuer::new(b"flow secret".to_vec(), 3600)
}

fn new_user(username: &str, secret: &str) -> NewUser {
    NewUser {
        username: username.to_string(),
        password: secret.to_string(),
        email: Some(format!("{}@example.org", username)),
        avatar: None,
        memo: None,
    }
}

fn answer_register(store: &mut Store, action: RegisterAction) -> RegisterEvent {
    match action {
        RegisterAction::CheckUsername { username } => {
            RegisterEvent::Username { taken: store.users.iter().any(|u| u.username == username) }
        }
        RegisterAction::FindDomain { id } => {
            RegisterEvent::Domain(store.domains.iter().find(|d| d.id == id).cloned())
        }
        RegisterAction::FindRole { id } => {
            RegisterEvent::Role(store.roles.iter().find(|r| r.id == id).cloned())
        }
        RegisterAction::CreateUser { body } => {
            if store.duplicate_on_insert {
                return RegisterEvent::Created(Insertion::Duplicate);
            }
            let user = User {
                id: format!("u-{}", body.username),
                username: body.username.clone(),
                password: hash(&body.password),
                email: body.email.clone(),
                avatar: body.avatar.clone(),
                memo: body.memo.clone(),
                sys_role: Some("user".to_string()),
                is_actived: true,
                last_logined_at: Timestamp { millis: 5 },
                created_at: Timestamp { millis: 5 },
            };
            store.users.push(user.clone());
            RegisterEvent::Created(Insertion::Stored(user))
        }
        RegisterAction::GrantRole { user_id, role_id } => {
            if store.fail_grant {
                return RegisterEvent::Granted(false);
            }
            store.user_roles.push(grant(&user_id, &role_id));
            RegisterEvent::Granted(true)
        }
        RegisterAction::Stop => unreachable!(),
    }
}

fn run_register(
    store: &mut Store,
    issuer: &TokenIssuer,
    now: u64,
    body: NewUser,
    domain_id: Option<&str>,
) -> (RegisterState, Vec<RegisterAction>) {
    let mut asked = vec![];
    let begin = RegisterEvent::Begin { body, domain_id: domain_id.map(|d| d.to_string()) };
    let (mut state, mut action) = register(issuer, now, RegisterState::Start, begin);
    loop {
        asked.push(action.clone());
        if action == RegisterAction::Stop {
            return (state, asked);
        }
        let event = answer_register(store, action);
        let step = register(issuer, now, state, event);
        state = step.0;
        action = step.1;
    }
}

fn answer_login(store: &mut Store, action: LoginAction) -> LoginEvent {
    match action {
        LoginAction::FindUser { username } => {
            LoginEvent::User(store.users.iter().find(|u| u.username == username).cloned())
        }
        LoginAction::VerifySecret { secret, stored } => LoginEvent::Secret(hash(&secret) == stored),
        LoginAction::RecordLogin { user } => {
            if store.fail_record {
                return LoginEvent::Recorded(None);
            }
            let mut updated = user;
            updated.last_logined_at = Timestamp { millis: 77 };
            for u in store.users.iter_mut() {
                if u.id == updated.id {
                    *u = updated.clone();
                }
            }
            LoginEvent::Recorded(Some(updated))
        }
        LoginAction::FindDomain { id } => {
            LoginEvent::Domain(store.domains.iter().find(|d| d.id == id).cloned())
        }
        LoginAction::FindMemberships { user_id } => LoginEvent::Memberships(Some(
            store.user_orgs.iter().filter(|m| m.user_id == user_id).cloned().collect(),
        )),
        LoginAction::FindOrgs { ids, domain_id } => LoginEvent::Orgs(Some(
            store
                .orgs
                .iter()
                .filter(|o| ids.contains(&o.id) && o.domain_id == domain_id)
                .cloned()
                .collect(),
        )),
        LoginAction::FindGrants { user_id } => LoginEvent::Grants(Some(
            store.user_roles.iter().filter(|g| g.user_id == user_id).cloned().collect(),
        )),
        LoginAction::FindRoles { ids, domain_id } => LoginEvent::Roles(Some(
            store
                .roles
                .iter()
                .filter(|r| ids.contains(&r.id) && r.domain_id == domain_id)
                .cloned()
                .collect(),
        )),
        LoginAction::Stop => unreachable!(),
    }
}

fn run_login(
    store: &mut Store,
    issuer: &TokenIssuer,
    now: u64,
    username: &str,
    secret: &str,
    domain_id: Option<&str>,
) -> (LoginState, Vec<LoginAction>) {
    let mut asked = vec![];
    let body = LoginUser { username: username.to_string(), password: secret.to_string() };
    let begin = LoginEvent::Begin { body, domain_id: domain_id.map(|d| d.to_string()) };
    let (mut state, mut action) = login(issuer, now, GrantPolicy::CountAll, LoginState::Start, begin);
    loop {
        asked.push(action.clone());
        if action == LoginAction::Stop {
            return (state, asked);
        }
        let event = answer_login(store, action);
        let step = login(issuer, now, GrantPolicy::CountAll, state, event);
        state = step.0;
        action = step.1;
    }
}

fn done_register(state: RegisterState) -> AuthPayload {
    match state {
        RegisterState::Done(payload) => payload,
        other => panic!("registration did not succeed: {:?}", other),
    }
}

fn done_login(state: LoginState) -> AuthPayload {
    match state {
        LoginState::Done(payload) => payload,
        other => panic!("login did not succeed: {:?}", other),
    }
}

fn ids(list: &[&str]) -> Vec<String> {
    list.iter().map(|id| id.to_string()).collect()
}

fn resolves(action: &LoginAction) -> bool {
    matches!(
        action,
        LoginAction::FindDomain { .. }
            | LoginAction::FindMemberships { .. }
            | LoginAction::FindOrgs { .. }
            | LoginAction::FindGrants { .. }
            | LoginAction::FindRoles { .. }
    )
}

#[test]
fn register_alice_in_domain_with_default_role() {
    let mut store = store();
    let issuer = issuer();
    let (state, asked) = run_register(&mut store, &issuer, 1000, new_user("alice", "p@ss"), Some("D1"));
    let payload = done_register(state);
    assert_eq!(payload.roles, vec![role("R1", 10, "D1")]);
    assert_eq!(payload.orgs, vec![]);
    assert_eq!(payload.domain, Some(store.domains[0].clone()));
    assert_eq!(payload.user.username, "alice");
    let decoded = issuer.parse(&payload.token, 1000).unwrap();
    assert_eq!(decoded.domain_id, Some("D1".to_string()));
    assert_eq!(decoded.role_ids, ids(&["R1"]));
    assert_eq!(decoded.effective_level, 10);
    assert!(!decoded.is_admin);
    assert_eq!(decoded.org_ids, Vec::<String>::new());
    assert_eq!(decoded.user_id, "u-alice");
    assert_eq!(decoded.username, "alice");
    assert_eq!(decoded, payload.context);
    assert_eq!(
        asked,
        vec![
            RegisterAction::CheckUsername { username: "alice".to_string() },
            RegisterAction::FindDomain { id: "D1".to_string() },
            RegisterAction::FindRole { id: "R1".to_string() },
            RegisterAction::CreateUser { body: new_user("alice", "p@ss") },
            RegisterAction::GrantRole { user_id: "u-alice".to_string(), role_id: "R1".to_string() },
            RegisterAction::Stop,
        ]
    );
}

#[test]
fn register_writes_one_account_and_one_grant() {
    let mut store = store();
    let (state, _) = run_register(&mut store, &issuer(), 1000, new_user("alice", "p@ss"), Some("D1"));
    let payload = done_register(state);
    assert_eq!(store.users.len(), 5);
    assert_eq!(store.users[4], payload.user);
    assert_eq!(store.users[4].password, "hashed:p@ss");
    assert_eq!(store.user_roles.len(), 5);
    assert_eq!(store.user_roles[4], grant("u-alice", "R1"));
}

#[test]
fn register_token_holds_no_secret() {
    let mut store = store();
    let (state, _) = run_register(&mut store, &issuer(), 1000, new_user("alice", "p@ss"), Some("D1"));
    let payload = done_register(state);
    assert!(!payload.token.contains("p@ss"));
    assert!(!payload.token.contains("hashed"));
}

#[test]
fn register_in_domain_without_default_role_fails() {
    let mut store = store();
    let (state, asked) = run_register(&mut store, &issuer(), 1000, new_user("alice", "p@ss"), Some("D2"));
    assert_eq!(
        state,
        RegisterState::Failed(AuthError::PreconditionError(Unmet::DomainHasNoDefaultRole))
    );
    assert_eq!(store.users.len(), 4);
    assert_eq!(store.user_roles.len(), 4);
    assert_eq!(
        asked,
        vec![
            RegisterAction::CheckUsername { username: "alice".to_string() },
            RegisterAction::FindDomain { id: "D2".to_string() },
            RegisterAction::Stop,
        ]
    );
}

#[test]
fn register_duplicate_username_fails() {
    let mut store = store();
    let (state, asked) = run_register(&mut store, &issuer(), 1000, new_user("bob", "other"), Some("D1"));
    assert_eq!(state, RegisterState::Failed(AuthError::ConflictError));
    assert_eq!(store.users.len(), 4);
    assert_eq!(store.users[0], account("u-bob", "bob", "hunter2", Some("user"), true));
    assert_eq!(store.user_roles.len(), 4);
    assert_eq!(
        asked,
        vec![RegisterAction::CheckUsername { username: "bob".to_string() }, RegisterAction::Stop]
    );
}

#[test]
fn register_duplicate_username_comes_before_the_domain() {
    let mut store = store();
    let (state, _) = run_register(&mut store, &issuer(), 1000, new_user("bob", "other"), None);
    assert_eq!(state, RegisterState::Failed(AuthError::ConflictError));
    let (state, _) = run_register(&mut store, &issuer(), 1000, new_user("bob", "other"), Some("D2"));
    assert_eq!(state, RegisterState::Failed(AuthError::ConflictError));
}

#[test]
fn register_with_unknown_domain_fails() {
    let mut store = store();
    let (state, _) = run_register(&mut store, &issuer(), 1000, new_user("alice", "p@ss"), Some("D9"));
    assert_eq!(state, RegisterState::Failed(AuthError::NotFoundError(Missing::Domain)));
    assert_eq!(store.users.len(), 4);
}

#[test]
fn register_without_domain_fails() {
    let mut store = store();
    let (state, _) = run_register(&mut store, &issuer(), 1000, new_user("alice", "p@ss"), None);
    assert_eq!(
        state,
        RegisterState::Failed(AuthError::ValidationError(ValidationIssue::DomainRequired))
    );
    assert_eq!(store.users.len(), 4);
}

#[test]
fn register_with_empty_field_fails_before_any_request() {
    let mut store = store();
    let (state, asked) = run_register(&mut store, &issuer(), 1000, new_user("", "p@ss"), Some("D1"));
    assert_eq!(
        state,
        RegisterState::Failed(AuthError::ValidationError(ValidationIssue::MalformedInput))
    );
    assert_eq!(asked, vec![RegisterAction::Stop]);
    let (state, asked) = run_register(&mut store, &issuer(), 1000, new_user("bob", ""), Some("D1"));
    assert_eq!(
        state,
        RegisterState::Failed(AuthError::ValidationError(ValidationIssue::MalformedInput))
    );
    assert_eq!(asked, vec![RegisterAction::Stop]);
    assert_eq!(store.users.len(), 4);
}

#[test]
fn register_with_vanished_role_fails() {
    let mut store = store();
    let (state, _) = run_register(&mut store, &issuer(), 1000, new_user("alice", "p@ss"), Some("D3"));
    assert_eq!(state, RegisterState::Failed(AuthError::PersistenceError));
    assert_eq!(store.users.len(), 4);
}

#[test]
fn register_duplicate_at_insert_is_conflict() {
    let mut store = store();
    store.duplicate_on_insert = true;
    let (state, _) = run_register(&mut store, &issuer(), 1000, new_user("alice", "p@ss"), Some("D1"));
    assert_eq!(state, RegisterState::Failed(AuthError::ConflictError));
    assert_eq!(store.users.len(), 4);
    assert_eq!(store.user_roles.len(), 4);
}

#[test]
fn register_failed_grant_keeps_the_account() {
    let mut store = store();
    store.fail_grant = true;
    let (state, asked) = run_register(&mut store, &issuer(), 1000, new_user("alice", "p@ss"), Some("D1"));
    assert_eq!(state, RegisterState::Failed(AuthError::PersistenceError));
    assert_eq!(store.users.len(), 5);
    assert_eq!(asked.len(), 6);
}

#[test]
fn register_failed_mint_keeps_what_was_written() {
    let mut store = store();
    let issuer = TokenIssuer::new(b"flow secret".to_vec(), 1);
    let (state, asked) = run_register(&mut store, &issuer, u64::MAX, new_user("alice", "p@ss"), Some("D1"));
    assert_eq!(
        state,
        RegisterState::Failed(AuthError::TokenError(TokenFault::LifetimeOverflow))
    );
    assert_eq!(store.users.len(), 5);
    assert_eq!(store.user_roles.len(), 5);
    assert_eq!(asked[5], RegisterAction::Stop);
}

#[test]
fn register_then_login() {
    let mut store = store();
    let issuer = issuer();
    let (state, _) = run_register(&mut store, &issuer, 1000, new_user("alice", "p@ss"), Some("D1"));
    let registered = done_register(state);
    let (state, _) = run_login(&mut store, &issuer, 2000, "alice", "p@ss", Some("D1"));
    let logged = done_login(state);
    assert_eq!(logged.context, registered.context);
    assert_eq!(logged.roles, registered.roles);
    assert_ne!(logged.token, registered.token);
}

#[test]
fn login_with_wrong_secret_fails() {
    let mut store = store();
    let issuer = issuer();
    run_register(&mut store, &issuer, 1000, new_user("alice", "p@ss"), Some("D1"));
    let (state, asked) = run_login(&mut store, &issuer, 2000, "alice", "wrong", Some("D1"));
    assert_eq!(
        state,
        LoginState::Failed(AuthError::AuthenticationError(AuthFailure::BadCredential))
    );
    assert_eq!(
        asked,
        vec![
            LoginAction::FindUser { username: "alice".to_string() },
            LoginAction::VerifySecret { secret: "wrong".to_string(), stored: "hashed:p@ss".to_string() },
            LoginAction::Stop,
        ]
    );
    assert_eq!(store.users[4].last_logined_at, Timestamp { millis: 5 });
}

#[test]
fn login_of_unknown_user_fails() {
    let mut store = store();
    let (state, asked) = run_login(&mut store, &issuer(), 2000, "nobody", "x", Some("D1"));
    assert_eq!(
        state,
        LoginState::Failed(AuthError::AuthenticationError(AuthFailure::NoSuchUser))
    );
    assert_eq!(asked.len(), 2);
}

#[test]
fn login_of_disabled_account_fails() {
    let mut store = store();
    let (state, _) = run_login(&mut store, &issuer(), 2000, "eve", "apple", Some("D1"));
    assert_eq!(
        state,
        LoginState::Failed(AuthError::AuthenticationError(AuthFailure::AccountDisabled))
    );
    let (state, _) = run_login(&mut store, &issuer(), 2000, "eve", "pear", Some("D1"));
    assert_eq!(
        state,
        LoginState::Failed(AuthError::AuthenticationError(AuthFailure::BadCredential))
    );
}

#[test]
fn login_with_empty_field_fails_before_any_request() {
    let mut store = store();
    let (state, asked) = run_login(&mut store, &issuer(), 2000, "", "x", Some("D1"));
    assert_eq!(
        state,
        LoginState::Failed(AuthError::ValidationError(ValidationIssue::MalformedInput))
    );
    assert_eq!(asked, vec![LoginAction::Stop]);
    let (state, _) = run_login(&mut store, &issuer(), 2000, "bob", "", Some("D1"));
    assert_eq!(
        state,
        LoginState::Failed(AuthError::ValidationError(ValidationIssue::MalformedInput))
    );
}

#[test]
fn login_sorts_roles_by_level() {
    let mut store = store();
    let issuer = issuer();
    let (state, asked) = run_login(&mut store, &issuer, 2000, "bob", "hunter2", Some("D1"));
    let payload = done_login(state);
    let levels: Vec<i32> = payload.roles.iter().map(|r| r.level).collect();
    assert_eq!(levels, vec![2, 5, 8]);
    assert_eq!(payload.roles, vec![role("R2", 2, "D1"), role("R5", 5, "D1"), role("R8", 8, "D1")]);
    assert_eq!(payload.context.effective_level, 2);
    assert_eq!(issuer.parse(&payload.token, 2000).unwrap().effective_level, 2);
    assert_eq!(payload.context.role_ids, ids(&["R2", "R5", "R8"]));
    assert_eq!(payload.context.org_ids, ids(&["O1", "O3"]));
    assert_eq!(payload.orgs, vec![org("O1", "D1"), org("O3", "D1")]);
    assert_eq!(payload.domain, Some(store.domains[0].clone()));
    assert_eq!(payload.context.domain_id, Some("D1".to_string()));
    assert!(!payload.context.is_admin);
    assert_eq!(payload.user.last_logined_at, Timestamp { millis: 77 });
    assert_eq!(
        asked,
        vec![
            LoginAction::FindUser { username: "bob".to_string() },
            LoginAction::VerifySecret { secret: "hunter2".to_string(), stored: "hashed:hunter2".to_string() },
            LoginAction::RecordLogin { user: account("u-bob", "bob", "hunter2", Some("user"), true) },
            LoginAction::FindDomain { id: "D1".to_string() },
            LoginAction::FindMemberships { user_id: "u-bob".to_string() },
            LoginAction::FindOrgs { ids: ids(&["O1", "O2", "O3"]), domain_id: "D1".to_string() },
            LoginAction::FindGrants { user_id: "u-bob".to_string() },
            LoginAction::FindRoles { ids: ids(&["R5", "X1", "R2", "R8"]), domain_id: "D1".to_string() },
            LoginAction::Stop,
        ]
    );
}

#[test]
fn login_in_another_tenant_sees_that_tenant_only() {
    let mut store = store();
    let (state, _) = run_login(&mut store, &issuer(), 2000, "bob", "hunter2", Some("D2"));
    let payload = done_login(state);
    assert_eq!(payload.roles, vec![role("X1", 1, "D2")]);
    assert_eq!(payload.orgs, vec![org("O2", "D2")]);
    assert_eq!(payload.context.effective_level, 1);
    assert_eq!(payload.context.role_ids, ids(&["X1"]));
    assert_eq!(payload.context.org_ids, ids(&["O2"]));
}

#[test]
fn login_without_grants_has_no_privilege() {
    let mut store = store();
    let issuer = issuer();
    let (state, asked) = run_login(&mut store, &issuer, 2000, "dan", "dan", Some("D1"));
    let payload = done_login(state);
    assert_eq!(payload.context.effective_level, 999);
    assert_eq!(payload.roles, vec![]);
    assert_eq!(payload.orgs, vec![]);
    assert_eq!(payload.context.role_ids, Vec::<String>::new());
    assert_eq!(payload.context.org_ids, Vec::<String>::new());
    assert_eq!(issuer.parse(&payload.token, 2000).unwrap().effective_level, 999);
    assert_eq!(
        asked,
        vec![
            LoginAction::FindUser { username: "dan".to_string() },
            LoginAction::VerifySecret { secret: "dan".to_string(), stored: "hashed:dan".to_string() },
            LoginAction::RecordLogin { user: account("u-dan", "dan", "dan", None, true) },
            LoginAction::FindDomain { id: "D1".to_string() },
            LoginAction::FindMemberships { user_id: "u-dan".to_string() },
            LoginAction::FindGrants { user_id: "u-dan".to_string() },
            LoginAction::Stop,
        ]
    );
}

#[test]
fn login_with_grants_in_other_tenants_only_has_no_privilege() {
    let mut store = store();
    let (state, asked) = run_login(&mut store, &issuer(), 2000, "bob", "hunter2", Some("D3"));
    let payload = done_login(state);
    assert_eq!(payload.context.effective_level, 999);
    assert_eq!(payload.roles, vec![]);
    assert_eq!(payload.orgs, vec![]);
    assert_eq!(payload.context.role_ids, Vec::<String>::new());
    assert_eq!(payload.context.org_ids, Vec::<String>::new());
    assert!(asked.iter().any(|a| matches!(a, LoginAction::FindRoles { .. })));
}

#[test]
fn login_of_admin_resolves_nothing() {
    let mut store = store();
    store.user_orgs.push(member("u-root", "O1"));
    store.user_roles.push(grant("u-root", "R2"));
    let issuer = issuer();
    let (state, asked) = run_login(&mut store, &issuer, 2000, "root", "toor", None);
    let payload = done_login(state);
    assert_eq!(
        payload.context,
        AuthContext {
            user_id: "u-root".to_string(),
            username: "root".to_string(),
            domain_id: None,
            org_ids: vec![],
            role_ids: vec![],
            effective_level: 999,
            is_admin: true,
        }
    );
    assert_eq!(payload.domain, None);
    assert_eq!(payload.roles, vec![]);
    assert_eq!(payload.orgs, vec![]);
    assert_eq!(issuer.parse(&payload.token, 2000), Ok(payload.context.clone()));
    assert!(!asked.iter().any(resolves));
    assert_eq!(asked.len(), 4);
}

#[test]
fn login_of_admin_passes_the_tenant_selector_through() {
    let mut store = store();
    let (state, asked) = run_login(&mut store, &issuer(), 2000, "root", "toor", Some("no such tenant"));
    let payload = done_login(state);
    assert_eq!(payload.context.domain_id, Some("no such tenant".to_string()));
    assert!(payload.context.is_admin);
    assert_eq!(payload.context.effective_level, 999);
    assert_eq!(payload.domain, None);
    assert!(!asked.iter().any(resolves));
}

#[test]
fn login_of_non_admin_needs_a_tenant() {
    let mut store = store();
    let (state, asked) = run_login(&mut store, &issuer(), 2000, "bob", "hunter2", None);
    assert_eq!(
        state,
        LoginState::Failed(AuthError::ValidationError(ValidationIssue::DomainRequired))
    );
    assert!(!asked.iter().any(resolves));
    let (state, _) = run_login(&mut store, &issuer(), 2000, "bob", "hunter2", Some("D9"));
    assert_eq!(state, LoginState::Failed(AuthError::NotFoundError(Missing::Domain)));
}

#[test]
fn login_fails_when_recording_fails() {
    let mut store = store();
    store.fail_record = true;
    let (state, asked) = run_login(&mut store, &issuer(), 2000, "root", "toor", None);
    assert_eq!(state, LoginState::Failed(AuthError::PersistenceError));
    assert_eq!(asked.len(), 4);
}

#[test]
fn login_fails_when_a_listing_fails() {
    let issuer = issuer();
    let bob = account("u-bob", "bob", "hunter2", Some("user"), true);
    let domain = Domain { id: "D1".to_string(), name: "one".to_string(), default_role_id: None };
    let waiting = LoginState::FindingMemberships { user: bob.clone(), domain_id: "D1".to_string(), domain: domain.clone() };
    assert_eq!(
        login(&issuer, 0, GrantPolicy::CountAll, waiting, LoginEvent::Memberships(None)),
        (LoginState::Failed(AuthError::PersistenceError), LoginAction::Stop)
    );
    let waiting = LoginState::FindingOrgs { user: bob.clone(), domain_id: "D1".to_string(), domain: domain.clone(), org_ids: ids(&["O1"]) };
    assert_eq!(
        login(&issuer, 0, GrantPolicy::CountAll, waiting, LoginEvent::Orgs(None)),
        (LoginState::Failed(AuthError::PersistenceError), LoginAction::Stop)
    );
    let waiting = LoginState::FindingGrants { user: bob.clone(), domain_id: "D1".to_string(), domain: domain.clone(), orgs: vec![] };
    assert_eq!(
        login(&issuer, 0, GrantPolicy::CountAll, waiting, LoginEvent::Grants(None)),
        (LoginState::Failed(AuthError::PersistenceError), LoginAction::Stop)
    );
    let waiting = LoginState::FindingRoles { user: bob, domain_id: "D1".to_string(), domain, orgs: vec![], role_ids: ids(&["R1"]) };
    assert_eq!(
        login(&issuer, 0, GrantPolicy::CountAll, waiting, LoginEvent::Roles(None)),
        (LoginState::Failed(AuthError::PersistenceError), LoginAction::Stop)
    );
}

#[test]
fn login_keeps_only_what_it_asked_for_in_the_tenant() {
    let issuer = issuer();
    let bob = account("u-bob", "bob", "hunter2", Some("user"), true);
    let domain = Domain { id: "D1".to_string(), name: "one".to_string(), default_role_id: None };
    let waiting = LoginState::FindingOrgs {
        user: bob.clone(),
        domain_id: "D1".to_string(),
        domain: domain.clone(),
        org_ids: ids(&["O1", "O2", "O3"]),
    };
    let answer = LoginEvent::Orgs(Some(vec![
        org("O3", "D1"),
        org("O2", "D2"),
        org("O9", "D1"),
        org("O1", "D1"),
    ]));
    let (state, action) = login(&issuer, 0, GrantPolicy::CountAll, waiting, answer);
    assert_eq!(
        state,
        LoginState::FindingGrants {
            user: bob.clone(),
            domain_id: "D1".to_string(),
            domain: domain.clone(),
            orgs: vec![org("O3", "D1"), org("O1", "D1")],
        }
    );
    assert_eq!(action, LoginAction::FindGrants { user_id: "u-bob".to_string() });
    let (state, action) = login(&issuer, 0, GrantPolicy::CountAll, state, LoginEvent::Grants(Some(vec![grant("u-bob", "R5"), grant("u-bob", "R2")])));
    assert_eq!(action, LoginAction::FindRoles { ids: ids(&["R5", "R2"]), domain_id: "D1".to_string() });
    let answer = LoginEvent::Roles(Some(vec![
        role("R5", 5, "D1"),
        role("R1", 0, "D1"),
        role("R2", 2, "D2"),
        role("R2", 2, "D1"),
    ]));
    let (state, action) = login(&issuer, 0, GrantPolicy::CountAll, state, answer);
    assert_eq!(action, LoginAction::Stop);
    let payload = done_login(state);
    assert_eq!(payload.roles, vec![role("R2", 2, "D1"), role("R5", 5, "D1")]);
    assert_eq!(payload.context.role_ids, ids(&["R2", "R5"]));
    assert_eq!(payload.context.org_ids, ids(&["O3", "O1"]));
    assert_eq!(payload.context.effective_level, 2);
}

#[test]
fn login_counts_expired_grants_unless_told_otherwise() {
    let issuer = issuer();
    let bob = account("u-bob", "bob", "hunter2", Some("user"), true);
    let domain = Domain { id: "D1".to_string(), name: "one".to_string(), default_role_id: None };
    let waiting = || LoginState::FindingGrants {
        user: bob.clone(),
        domain_id: "D1".to_string(),
        domain: domain.clone(),
        orgs: vec![],
    };
    let lapsing = |role_id: &str, expire: i64| UserRole {
        user_id: "u-bob".to_string(),
        role_id: role_id.to_string(),
        expire: Timestamp { millis: expire },
        created_at: Timestamp { millis: 0 },
    };
    let grants = || LoginEvent::Grants(Some(vec![lapsing("R5", 99), lapsing("R2", 100), lapsing("R8", 101)]));
    let (_, action) = login(&issuer, 0, GrantPolicy::CountAll, waiting(), grants());
    assert_eq!(action, LoginAction::FindRoles { ids: ids(&["R5", "R2", "R8"]), domain_id: "D1".to_string() });
    let (_, action) = login(&issuer, 0, GrantPolicy::default(), waiting(), grants());
    assert_eq!(action, LoginAction::FindRoles { ids: ids(&["R5", "R2", "R8"]), domain_id: "D1".to_string() });
    let skip = GrantPolicy::SkipExpired { at: Timestamp { millis: 100 } };
    let (state, action) = login(&issuer, 0, skip, waiting(), grants());
    assert_eq!(action, LoginAction::FindRoles { ids: ids(&["R2", "R8"]), domain_id: "D1".to_string() });
    let answer = LoginEvent::Roles(Some(vec![role("R5", 5, "D1"), role("R8", 8, "D1"), role("R2", 2, "D1")]));
    let (state, _) = login(&issuer, 0, skip, state, answer);
    let payload = done_login(state);
    assert_eq!(payload.context.role_ids, ids(&["R2", "R8"]));
    assert_eq!(payload.context.effective_level, 2);
    let late = GrantPolicy::SkipExpired { at: Timestamp { millis: 102 } };
    let (state, action) = login(&issuer, 0, late, waiting(), grants());
    assert_eq!(action, LoginAction::Stop);
    let payload = done_login(state);
    assert_eq!(payload.context.effective_level, 999);
    assert_eq!(payload.roles, vec![]);
}

#[test]
fn login_mint_failure_is_a_token_error() {
    let mut store = store();
    let issuer = TokenIssuer::new(b"flow secret".to_vec(), u64::MAX);
    let (state, _) = run_login(&mut store, &issuer, 1, "root", "toor", None);
    assert_eq!(state, LoginState::Failed(AuthError::TokenError(TokenFault::LifetimeOverflow)));
    let (state, _) = run_login(&mut store, &issuer, 0, "root", "toor", None);
    assert!(matches!(state, LoginState::Done(_)));
}

#[test]
fn event_that_answers_nothing_ends_the_flow() {
    let issuer = issuer();
    assert_eq!(
        login(&issuer, 0, GrantPolicy::CountAll, LoginState::Start, LoginEvent::Secret(true)),
        (LoginState::Failed(AuthError::PersistenceError), LoginAction::Stop)
    );
    assert_eq!(
        register(&issuer, 0, RegisterState::Start, RegisterEvent::Granted(true)),
        (RegisterState::Failed(AuthError::PersistenceError), RegisterAction::Stop)
    );
    let waiting = RegisterState::FindingDomain { body: new_user("alice", "p@ss") };
    assert_eq!(
        register(&issuer, 0, waiting, RegisterEvent::Username { taken: false }),
        (RegisterState::Failed(AuthError::PersistenceError), RegisterAction::Stop)
    );
}

#[test]
fn finished_flow_stays_as_it_is() {
    let mut store = store();
    let issuer = issuer();
    let (state, _) = run_login(&mut store, &issuer, 2000, "root", "toor", None);
    let again = login(&issuer, 3000, GrantPolicy::CountAll, state.clone(), LoginEvent::Secret(false));
    assert_eq!(again, (state, LoginAction::Stop));
    let failed = LoginState::Failed(AuthError::ConflictError);
    assert_eq!(
        login(&issuer, 0, GrantPolicy::CountAll, failed.clone(), LoginEvent::Domain(None)),
        (failed, LoginAction::Stop)
    );
    let (state, _) = run_register(&mut store, &issuer, 1000, new_user("alice", "p@ss"), Some("D1"));
    let again = register(&issuer, 3000, state.clone(), RegisterEvent::Granted(true));
    assert_eq!(again, (state, RegisterAction::Stop));
    assert_eq!(store.users.len(), 5);
}
