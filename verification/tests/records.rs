use tenant_auth::{
    AuthError, AuthFailure, Condition, LoginUser, Missing, NewOrg, NewUser, Org, OrgDao, Query,
    Role, RoleDao, Statement, Timestamp, TokenFault, Unmet, UpdateOrg, User, UserDao, UserRole,
    ValidationIssue,
};

fn user_dao(active: Option<bool>) -> UserDao {
    UserDao {
        id: "u1".to_string(),
        username: "alice".to_string(),
        password: "hash".to_string(),
        email: Some("a@example.org".to_string()),
        avatar: None,
        memo: Some("memo".to_string()),
        sys_role: Some("user".to_string()),
        is_actived: active,
        last_logined_at: Timestamp { millis: 1 },
        created_at: Timestamp { millis: 2 },
    }
}

fn org_dao() -> OrgDao {
    OrgDao {
        id: "o1".to_string(),
        name: "old".to_string(),
        description: Some("was".to_string()),
        domain_id: "D1".to_string(),
        is_deleted: Some(0),
        created_by: Some("u1".to_string()),
        updated_by: Some("u2".to_string()),
        created_at: Timestamp { millis: 10 },
        updated_at: Timestamp { millis: 20 },
    }
}

fn new_org(name: &str) -> NewOrg {
    NewOrg {
        name: name.to_string(),
        description: Some("about".to_string()),
        domain_id: "D1".to_string(),
        created_by: Some("u1".to_string()),
    }
}

fn malformed() -> Result<(), AuthError> {
    Err(AuthError::ValidationError(ValidationIssue::MalformedInput))
}

#[test]
fn user_comes_from_its_row() {
    let user = User::from(user_dao(Some(true)));
    assert_eq!(
        user,
        User {
            id: "u1".to_string(),
            username: "alice".to_string(),
            password: "hash".to_string(),
            email: Some("a@example.org".to_string()),
            avatar: None,
            memo: Some("memo".to_string()),
            sys_role: Some("user".to_string()),
            is_actived: true,
            last_logined_at: Timestamp { millis: 1 },
            created_at: Timestamp { millis: 2 },
        }
    );
    assert!(!User::from(user_dao(Some(false))).is_actived);
}

#[test]
fn org_comes_from_its_row() {
    assert_eq!(
        Org::from(org_dao()),
        Org {
            id: "o1".to_string(),
            name: "old".to_string(),
            description: Some("was".to_string()),
            domain_id: "D1".to_string(),
        }
    );
}

#[test]
fn role_comes_from_a_stored_row() {
    let row = RoleDao {
        id: Some("R1".to_string()),
        name: "member".to_string(),
        description: None,
        value: "member".to_string(),
        level: 10,
        domain_id: "D1".to_string(),
        is_deleted: Some(0),
        created_at: Timestamp { millis: 0 },
        updated_at: Timestamp { millis: 0 },
        created_by: None,
        updated_by: None,
    };
    let mut fresh = row.clone();
    fresh.id = None;
    assert_eq!(
        Role::from(row),
        Some(Role {
            id: "R1".to_string(),
            name: "member".to_string(),
            value: "member".to_string(),
            level: 10,
            domain_id: "D1".to_string(),
        })
    );
    assert_eq!(Role::from(fresh), None);
}

#[test]
fn new_org_name_has_one_to_hundred_characters() {
    assert_eq!(new_org("").validate(), malformed());
    assert_eq!(new_org("a").validate(), Ok(()));
    assert_eq!(new_org(&"a".repeat(100)).validate(), Ok(()));
    assert_eq!(new_org(&"a".repeat(101)).validate(), malformed());
    assert_eq!(new_org(&"語".repeat(100)).validate(), Ok(()));
    assert_eq!(new_org(&"語".repeat(101)).validate(), malformed());
}

#[test]
fn update_org_checks_name_and_value() {
    let update = |name: &str, value: &str| UpdateOrg {
        name: name.to_string(),
        description: None,
        value: value.to_string(),
        updated_by: None,
    };
    assert_eq!(update("n", "v").validate(), Ok(()));
    assert_eq!(update("", "v").validate(), malformed());
    assert_eq!(update("n", "").validate(), malformed());
    assert_eq!(update(&"n".repeat(100), &"v".repeat(200)).validate(), Ok(()));
    assert_eq!(update(&"n".repeat(101), "v").validate(), malformed());
    assert_eq!(update("n", &"v".repeat(201)).validate(), malformed());
}

#[test]
fn credentials_must_not_be_empty() {
    let new_user = |username: &str, password: &str| NewUser {
        username: username.to_string(),
        password: password.to_string(),
        email: None,
        avatar: None,
        memo: None,
    };
    assert_eq!(new_user("alice", "p@ss").validate(), Ok(()));
    assert_eq!(new_user("", "p@ss").validate(), malformed());
    assert_eq!(new_user("alice", "").validate(), malformed());
    assert_eq!(new_user(&"a".repeat(1000), "p").validate(), Ok(()));
    let login = |username: &str, password: &str| LoginUser {
        username: username.to_string(),
        password: password.to_string(),
    };
    assert_eq!(login("alice", "p@ss").validate(), Ok(()));
    assert_eq!(login("", "p@ss").validate(), malformed());
    assert_eq!(login("alice", "").validate(), malformed());
}

#[test]
fn new_org_record_is_the_row_to_store() {
    let row = new_org("acme").record(
        "o9".to_string(),
        Timestamp { millis: 100 },
        Timestamp { millis: 200 },
    );
    assert_eq!(
        row,
        OrgDao {
            id: "o9".to_string(),
            name: "acme".to_string(),
            description: Some("about".to_string()),
            domain_id: "D1".to_string(),
            is_deleted: Some(0),
            created_by: Some("u1".to_string()),
            updated_by: None,
            created_at: Timestamp { millis: 100 },
            updated_at: Timestamp { millis: 200 },
        }
    );
}

#[test]
fn new_org_create_picks_an_id_and_the_time() {
    let first = new_org("acme").create();
    let second = new_org("acme").create();
    assert_eq!(first.id.len(), 36);
    assert_eq!(first.id.chars().filter(|c| *c == '-').count(), 4);
    assert_ne!(first.id, second.id);
    assert!(first.created_at.millis > 1_600_000_000_000);
    assert!(first.updated_at.millis >= first.created_at.millis);
    assert_eq!(
        first,
        new_org("acme").record(first.id.clone(), first.created_at, first.updated_at)
    );
}

#[test]
fn new_user_row_holds_the_hash_and_not_the_secret() {
    let body = NewUser {
        username: "alice".to_string(),
        password: "p@ss".to_string(),
        email: Some("a@example.org".to_string()),
        avatar: None,
        memo: Some("hi".to_string()),
    };
    let row = body.record("u1".to_string(), "the hash".to_string(), Timestamp { millis: 7 });
    assert_eq!(
        row,
        UserDao {
            id: "u1".to_string(),
            username: "alice".to_string(),
            password: "the hash".to_string(),
            email: Some("a@example.org".to_string()),
            avatar: None,
            memo: Some("hi".to_string()),
            sys_role: None,
            is_actived: Some(true),
            last_logined_at: Timestamp { millis: 7 },
            created_at: Timestamp { millis: 7 },
        }
    );
    let first = body.create("the hash".to_string());
    let second = body.create("the hash".to_string());
    assert_eq!(first.id.len(), 36);
    assert_ne!(first.id, second.id);
    assert!(first.created_at.millis > 1_600_000_000_000);
    assert_eq!(first, body.record(first.id.clone(), "the hash".to_string(), first.created_at));
    assert!(User::from(first).is_actived);
}

#[test]
fn registration_grant_does_not_expire() {
    let row = UserRole::grant("u1".to_string(), "R1".to_string());
    assert_eq!(row.user_id, "u1");
    assert_eq!(row.role_id, "R1");
    assert_eq!(row.expire, Timestamp { millis: i64::MAX });
    assert!(row.created_at.millis > 1_600_000_000_000);
}

#[test]
fn update_org_replaces_name_and_description_only() {
    let update = UpdateOrg {
        name: "new".to_string(),
        description: None,
        value: "ignored".to_string(),
        updated_by: Some("u3".to_string()),
    };
    let mut expected = org_dao();
    expected.name = "new".to_string();
    expected.description = None;
    assert_eq!(update.save(org_dao()), expected);
}

#[test]
fn role_queries() {
    let by_ids = RoleDao::find_by_ids(vec!["R1".to_string(), "R2".to_string()], Some("D1".to_string()));
    assert_eq!(
        by_ids,
        Query {
            conditions: vec![
                Condition::OneOf { column: "id".to_string(), values: vec!["R1".to_string(), "R2".to_string()] },
                Condition::Equals { column: "domain_id".to_string(), value: "D1".to_string() },
            ],
            order_by: None,
            limit: None,
        }
    );
    assert_eq!(
        RoleDao::find_by_ids(vec![], None),
        Query {
            conditions: vec![Condition::OneOf { column: "id".to_string(), values: vec![] }],
            order_by: None,
            limit: None,
        }
    );
    assert_eq!(RoleDao::find_all(None), Query { conditions: vec![], order_by: None, limit: None });
    assert_eq!(
        RoleDao::find_all(Some("D2".to_string())),
        Query {
            conditions: vec![Condition::Equals { column: "domain_id".to_string(), value: "D2".to_string() }],
            order_by: None,
            limit: None,
        }
    );
}

#[test]
fn user_query_takes_the_first_by_id() {
    let w = Query::all().equals("username", "alice".to_string());
    assert_eq!(
        UserDao::find_one(w),
        Query {
            conditions: vec![Condition::Equals { column: "username".to_string(), value: "alice".to_string() }],
            order_by: Some("id".to_string()),
            limit: Some(1),
        }
    );
}

#[test]
fn grant_queries() {
    let equals = |column: &str, value: &str| Condition::Equals {
        column: column.to_string(),
        value: value.to_string(),
    };
    assert_eq!(
        UserRole::find_by_id("u1", "R1").conditions,
        vec![equals("user_id", "u1"), equals("role_id", "R1")]
    );
    assert_eq!(UserRole::find_by_user("u1").conditions, vec![equals("user_id", "u1")]);
    assert_eq!(UserRole::find_by_role("R1").conditions, vec![equals("role_id", "R1")]);
    assert_eq!(UserRole::find_by_role("R1").limit, None);
    assert_eq!(
        Query::all().one_of("id", vec!["a".to_string()]).in_domain(None).conditions,
        vec![Condition::OneOf { column: "id".to_string(), values: vec!["a".to_string()] }]
    );
}

#[test]
fn query_is_written_as_a_select_statement() {
    let by_ids = RoleDao::find_by_ids(
        vec!["R1".to_string(), "R2".to_string(), "R'3".to_string()],
        Some("D1".to_string()),
    );
    assert_eq!(
        by_ids.select("roles"),
        Statement {
            sql: "select * from roles where id in (?, ?, ?) and domain_id = ?".to_string(),
            args: vec!["R1".to_string(), "R2".to_string(), "R'3".to_string(), "D1".to_string()],
        }
    );
    assert_eq!(
        Query::all().select("users"),
        Statement { sql: "select * from users".to_string(), args: vec![] }
    );
    assert_eq!(
        RoleDao::find_by_ids(vec![], None).select("roles"),
        Statement { sql: "select * from roles where 1 = 0".to_string(), args: vec![] }
    );
    assert_eq!(
        RoleDao::find_by_ids(vec!["R1".to_string()], None).select("roles"),
        Statement { sql: "select * from roles where id in (?)".to_string(), args: vec!["R1".to_string()] }
    );
    assert_eq!(
        UserDao::find_one(Query::all().equals("username", "alice".to_string())).select("users"),
        Statement {
            sql: "select * from users where username = ? order by id asc limit 1".to_string(),
            args: vec!["alice".to_string()],
        }
    );
    assert_eq!(
        UserRole::find_by_id("u1", "R1").select("user_has_roles"),
        Statement {
            sql: "select * from user_has_roles where user_id = ? and role_id = ?".to_string(),
            args: vec!["u1".to_string(), "R1".to_string()],
        }
    );
    let limited = Query { conditions: vec![], order_by: None, limit: Some(18446744073709551615) };
    assert_eq!(limited.select("t").sql, "select * from t limit 18446744073709551615");
    let limited = Query { conditions: vec![], order_by: Some("name".to_string()), limit: Some(0) };
    assert_eq!(limited.select("t").sql, "select * from t order by name asc limit 0");
    let limited = Query { conditions: vec![], order_by: None, limit: Some(1050) };
    assert_eq!(limited.select("t").sql, "select * from t limit 1050");
}

#[test]
fn errors_have_messages() {
    assert_eq!(AuthError::NotFoundError(Missing::Domain).message(), "domain");
    assert_eq!(
        AuthError::PreconditionError(Unmet::DomainHasNoDefaultRole).message(),
        "domain has no default role"
    );
    assert_eq!(AuthError::AuthenticationError(AuthFailure::NoSuchUser).message(), "no such user");
    assert_eq!(AuthError::AuthenticationError(AuthFailure::BadCredential).message(), "bad credential");
    assert_eq!(
        AuthError::AuthenticationError(AuthFailure::AccountDisabled).message(),
        "account disabled"
    );
    assert_eq!(
        AuthError::ValidationError(ValidationIssue::DomainRequired).message(),
        "domain required"
    );
    assert_eq!(AuthError::ValidationError(ValidationIssue::MalformedInput).message(), "malformed input");
    assert_eq!(AuthError::ConflictError.message(), "user already exists");
    assert_eq!(AuthError::TokenError(TokenFault::Expired).message(), "token expired");
    assert_eq!(AuthError::TokenError(TokenFault::BadSignature).message(), "bad token signature");
    assert_eq!(AuthError::TokenError(TokenFault::Malformed).message(), "malformed token");
    assert_eq!(AuthError::Forbidden.message(), "forbidden");
    assert_eq!(AuthError::Unauthorized.message(), "unauthorized");
    assert_eq!(AuthError::PersistenceError.message(), "store failure");
    assert_eq!(
        AuthError::TokenError(TokenFault::LifetimeOverflow).message(),
        "token lifetime overflow"
    );
    assert_eq!(AuthError::TokenError(TokenFault::SignerFailed).message(), "token signer failed");
}
