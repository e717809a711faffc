use tenant_auth::context::{contains_id, org_ids_in, orgs_in_tenant, role_ids_in, roles_in_tenant};
use tenant_auth::{
    effective_level, is_admin, org_ids, role_ids, sort_roles, GrantPolicy, Org, Role, Timestamp,
    User, UserOrg, UserRole, NO_PRIVILEGE_LEVEL,
};

fn role(id: &str, level: i32) -> Role {
    Role {
        id: id.to_string(),
        name: format!("role {}", id),
        value: id.to_lowercase(),
        level,
        domain_id: "D1".to_string(),
    }
}

fn user(sys_role: Option<&str>) -> User {
    User {
        id: "u1".to_string(),
        username: "alice".to_string(),
        password: "hash".to_string(),
        email: None,
        avatar: None,
        memo: None,
        sys_role: sys_role.map(|tag| tag.to_string()),
        is_actived: true,
        last_logined_at: Timestamp { millis: 0 },
        created_at: Timestamp { millis: 0 },
    }
}

fn ids(roles: &Vec<Role>) -> Vec<String> {
    roles.iter().map(|r| r.id.clone()).collect()
}

#[test]
fn roles_sort_ascending_by_level() {
    let sorted = sort_roles(vec![role("a", 5), role("b", 2), role("c", 8)]);
    assert_eq!(sorted, vec![role("b", 2), role("a", 5), role("c", 8)]);
    assert_eq!(effective_level(&sorted), 2);
}

#[test]
fn roles_of_equal_level_keep_their_order() {
    let sorted = sort_roles(vec![
        role("a", 3),
        role("b", 1),
        role("c", 3),
        role("d", 1),
        role("e", 3),
        role("f", 2),
    ]);
    assert_eq!(ids(&sorted), vec!["b", "d", "f", "a", "c", "e"]);
}

#[test]
fn sorting_handles_edge_lists() {
    assert_eq!(sort_roles(vec![]), vec![]);
    assert_eq!(sort_roles(vec![role("a", 7)]), vec![role("a", 7)]);
    let sorted = sort_roles(vec![role("a", i32::MAX), role("b", i32::MIN), role("c", 0), role("d", -1)]);
    assert_eq!(ids(&sorted), vec!["b", "d", "c", "a"]);
    let again = sort_roles(sorted.clone());
    assert_eq!(again, sorted);
    let reversed = sort_roles(vec![role("a", 4), role("b", 3), role("c", 2), role("d", 1)]);
    assert_eq!(ids(&reversed), vec!["d", "c", "b", "a"]);
}

#[test]
fn effective_level_is_first_level_or_sentinel() {
    assert_eq!(NO_PRIVILEGE_LEVEL, 999);
    assert_eq!(effective_level(&vec![]), 999);
    assert_eq!(effective_level(&vec![role("a", 1000)]), 1000);
    assert_eq!(effective_level(&vec![role("a", -3), role("b", 4)]), -3);
}

#[test]
fn ids_follow_memberships_and_grants() {
    let memberships = vec![
        UserOrg { user_id: "u1".to_string(), org_id: "o2".to_string() },
        UserOrg { user_id: "u1".to_string(), org_id: "o1".to_string() },
        UserOrg { user_id: "u1".to_string(), org_id: "o2".to_string() },
    ];
    assert_eq!(org_ids(&memberships), vec!["o2", "o1", "o2"]);
    assert_eq!(org_ids(&vec![]), Vec::<String>::new());
    let grants = vec![
        UserRole {
            user_id: "u1".to_string(),
            role_id: "r9".to_string(),
            expire: Timestamp { millis: -1 },
            created_at: Timestamp { millis: 0 },
        },
        UserRole {
            user_id: "u1".to_string(),
            role_id: "r1".to_string(),
            expire: Timestamp { millis: i64::MAX },
            created_at: Timestamp { millis: 0 },
        },
    ];
    assert_eq!(role_ids(&grants, GrantPolicy::CountAll), vec!["r9", "r1"]);
    assert_eq!(role_ids(&vec![], GrantPolicy::CountAll), Vec::<String>::new());
    let today = GrantPolicy::SkipExpired { at: Timestamp { millis: 0 } };
    assert_eq!(role_ids(&grants, today), vec!["r1"]);
    let long_ago = GrantPolicy::SkipExpired { at: Timestamp { millis: -1 } };
    assert_eq!(role_ids(&grants, long_ago), vec!["r9", "r1"]);
    assert!(long_ago.includes(&grants[0]));
    assert!(!today.includes(&grants[0]));
    assert_eq!(GrantPolicy::default(), GrantPolicy::CountAll);
}

#[test]
fn administrator_is_the_admin_tag_exactly() {
    assert!(is_admin(&user(Some("admin"))));
    assert!(!is_admin(&user(Some("Admin"))));
    assert!(!is_admin(&user(Some("admin "))));
    assert!(!is_admin(&user(Some(""))));
    assert!(!is_admin(&user(Some("user"))));
    assert!(!is_admin(&user(None)));
}

#[test]
fn only_records_asked_for_in_the_tenant_are_kept() {
    let asked = vec!["a".to_string(), "b".to_string(), "c".to_string()];
    let tenant = "D1".to_string();
    let mut foreign = role("b", 1);
    foreign.domain_id = "D2".to_string();
    let kept = roles_in_tenant(vec![role("c", 3), foreign, role("x", 0), role("a", 1)], &asked, &tenant);
    assert_eq!(kept, vec![role("c", 3), role("a", 1)]);
    assert_eq!(role_ids_in(&kept), vec!["c", "a"]);
    assert_eq!(roles_in_tenant(vec![role("a", 1)], &vec![], &tenant), vec![]);
    assert_eq!(roles_in_tenant(vec![], &asked, &tenant), vec![]);
    let org = |id: &str, domain_id: &str| Org {
        id: id.to_string(),
        name: id.to_uppercase(),
        description: None,
        domain_id: domain_id.to_string(),
    };
    let kept = orgs_in_tenant(
        vec![org("a", "D1"), org("b", "D2"), org("d", "D1"), org("c", "D1")],
        &asked,
        &tenant,
    );
    assert_eq!(kept, vec![org("a", "D1"), org("c", "D1")]);
    assert_eq!(org_ids_in(&kept), vec!["a", "c"]);
    assert!(contains_id(&asked, &"b".to_string()));
    assert!(!contains_id(&asked, &"B".to_string()));
    assert!(!contains_id(&vec![], &"a".to_string()));
}
