//! The authentication context: who a principal is inside a tenant.
use crate::model::{
    Org, OrgView, Role, RoleView, Timestamp, User, UserOrg, UserOrgView, UserRole, UserRoleView,
    UserView,
};
use vstd::prelude::*;
use vstd::string::*;

verus! {

/// The privilege level of a principal that holds no role in the tenant, and
/// of a system administrator, whom no level restricts.
pub const NO_PRIVILEGE_LEVEL: i32 = 999;

/// The system role tag that marks a system administrator.
pub open spec fn admin_tag() -> Seq<char> {
    "admin"@
}

/// What an authentication event established. It is computed anew by every
/// registration and login, travels inside the token, and is stored nowhere.
#[derive(Clone, Debug, PartialEq, Eq)]
pub struct AuthContext {
    pub user_id: String,
    pub username: String,
    pub domain_id: Option<String>,
    pub org_ids: Vec<String>,
    pub role_ids: Vec<String>,
    /// The level of the most privileged role held; lower is more privileged.
    pub effective_level: i32,
    pub is_admin: bool,
}

/// The model of an [`AuthContext`].
pub struct AuthContextView {
    pub user_id: Seq<char>,
    pub username: Seq<char>,
    pub domain_id: Option<Seq<char>>,
    pub org_ids: Seq<Seq<char>>,
    pub role_ids: Seq<Seq<char>>,
    pub effective_level: i32,
    pub is_admin: bool,
}

impl DeepView for AuthContext {
    type V = AuthContextView;

    open spec fn deep_view(&self) -> AuthContextView {
        AuthContextView {
            user_id: self.user_id@,
            username: self.username@,
            domain_id: self.domain_id.deep_view(),
            org_ids: self.org_ids.deep_view(),
            role_ids: self.role_ids.deep_view(),
            effective_level: self.effective_level,
            is_admin: self.is_admin,
        }
    }
}

/// Whether the account is a system administrator.
pub open spec fn is_admin_user(user: UserView) -> bool {
    user.sys_role == Some(admin_tag())
}

/// The organizations that the memberships name, in the order of the
/// memberships.
pub open spec fn org_ids_of(memberships: Seq<UserOrgView>) -> Seq<Seq<char>> {
    Seq::new(memberships.len(), |i: int| memberships[i].org_id)
}

/// The roles that the grants name, in the order of the grants.
pub open spec fn role_ids_of(grants: Seq<UserRoleView>) -> Seq<Seq<char>> {
    Seq::new(grants.len(), |i: int| grants[i].role_id)
}

/// Which grants count when the roles of an account are resolved.
#[derive(Clone, Copy, Debug, PartialEq, Eq, Structural)]
pub enum GrantPolicy {
    /// Every grant counts, whether or not its `expire` instant has passed.
    CountAll,
    /// A grant counts unless its `expire` instant has passed at `at`, that
    /// is, lies before `at`.
    SkipExpired { at: Timestamp },
}

impl GrantPolicy {
    /// Whether the grant counts.
    pub open spec fn counts(self, grant: UserRoleView) -> bool {
        match self {
            GrantPolicy::CountAll => true,
            GrantPolicy::SkipExpired { at } => grant.expire.millis >= at.millis,
        }
    }

    /// Whether the grant counts.
    pub fn includes(&self, grant: &UserRole) -> (counted: bool)
        ensures
            counted == self.counts(grant.deep_view()),
    {
        match self {
            GrantPolicy::CountAll => true,
            GrantPolicy::SkipExpired { at } => grant.expire.millis >= at.millis,
        }
    }
}

impl Default for GrantPolicy {
    /// Every grant counts.
    fn default() -> (policy: GrantPolicy)
        ensures
            policy == GrantPolicy::CountAll,
    {
        GrantPolicy::CountAll
    }
}

/// The grants that count, in the order in which they came.
pub open spec fn counted_grants(grants: Seq<UserRoleView>, policy: GrantPolicy) -> Seq<
    UserRoleView,
> {
    grants.filter(|grant: UserRoleView| policy.counts(grant))
}

/// Whether the organization was asked for and belongs to the tenant.
pub open spec fn org_within(org: OrgView, ids: Seq<Seq<char>>, domain_id: Seq<char>) -> bool {
    ids.contains(org.id) && org.domain_id == domain_id
}

/// Whether the role was asked for and belongs to the tenant.
pub open spec fn role_within(role: RoleView, ids: Seq<Seq<char>>, domain_id: Seq<char>) -> bool {
    ids.contains(role.id) && role.domain_id == domain_id
}

/// Of the organizations that the store returned, those that were asked for
/// and belong to the tenant, in the order in which they came.
pub open spec fn orgs_within(
    found: Seq<OrgView>,
    ids: Seq<Seq<char>>,
    domain_id: Seq<char>,
) -> Seq<OrgView> {
    found.filter(|org: OrgView| org_within(org, ids, domain_id))
}

/// Of the roles that the store returned, those that were asked for and
/// belong to the tenant, in the order in which they came.
pub open spec fn roles_within(
    found: Seq<RoleView>,
    ids: Seq<Seq<char>>,
    domain_id: Seq<char>,
) -> Seq<RoleView> {
    found.filter(|role: RoleView| role_within(role, ids, domain_id))
}

/// The ids of the organizations, in their order.
pub open spec fn ids_of_orgs(orgs: Seq<OrgView>) -> Seq<Seq<char>> {
    Seq::new(orgs.len(), |i: int| orgs[i].id)
}

/// The ids of the roles, in their order.
pub open spec fn ids_of_roles(roles: Seq<RoleView>) -> Seq<Seq<char>> {
    Seq::new(roles.len(), |i: int| roles[i].id)
}

/// `sorted` with `role` put behind the last role that it does not outrank:
/// behind every role of a lower or the same level.
pub open spec fn insert_by_level(sorted: Seq<RoleView>, role: RoleView) -> Seq<RoleView>
    decreases sorted.len(),
{
    if sorted.len() == 0 {
        seq![role]
    } else if sorted.last().level <= role.level {
        sorted.push(role)
    } else {
        insert_by_level(sorted.drop_last(), role).push(sorted.last())
    }
}

/// The roles in ascending order of level, most privileged first; roles of
/// the same level stay in the order in which they came.
pub open spec fn sorted_by_level(roles: Seq<RoleView>) -> Seq<RoleView>
    decreases roles.len(),
{
    if roles.len() == 0 {
        Seq::empty()
    } else {
        insert_by_level(sorted_by_level(roles.drop_last()), roles.last())
    }
}

/// Whether the levels never fall from one role to the next.
pub open spec fn ascending(roles: Seq<RoleView>) -> bool {
    forall|i: int, j: int| 0 <= i <= j < roles.len() ==> roles[i].level <= roles[j].level
}

/// The roles of one level, in the order in which they stand.
pub open spec fn of_level(roles: Seq<RoleView>, level: i32) -> Seq<RoleView> {
    roles.filter(|r: RoleView| r.level == level)
}

/// The level of the first role of a list in ascending order, and
/// [`NO_PRIVILEGE_LEVEL`] for the empty list.
pub open spec fn first_level(sorted: Seq<RoleView>) -> i32 {
    if sorted.len() == 0 {
        NO_PRIVILEGE_LEVEL
    } else {
        sorted[0].level
    }
}

/// The context of a system administrator: no tenant is resolved, the tenant
/// selector is passed through as it was supplied.
pub open spec fn admin_context(user: UserView, domain_id: Option<Seq<char>>) -> AuthContextView {
    AuthContextView {
        user_id: user.id,
        username: user.username,
        domain_id,
        org_ids: Seq::empty(),
        role_ids: Seq::empty(),
        effective_level: NO_PRIVILEGE_LEVEL,
        is_admin: true,
    }
}

/// The context of an account inside the tenant `domain_id`, from the
/// organizations it has joined there and the roles it holds there, the roles
/// in ascending order of level.
pub open spec fn tenant_context(
    user: UserView,
    domain_id: Seq<char>,
    orgs: Seq<OrgView>,
    roles: Seq<RoleView>,
) -> AuthContextView {
    AuthContextView {
        user_id: user.id,
        username: user.username,
        domain_id: Some(domain_id),
        org_ids: ids_of_orgs(orgs),
        role_ids: ids_of_roles(roles),
        effective_level: first_level(roles),
        is_admin: false,
    }
}

/// Where `role` goes: behind `sorted[pos - 1]`, which it does not outrank,
/// and before everything from `pos` on, all of which it outranks.
proof fn lemma_insert_position(sorted: Seq<RoleView>, role: RoleView, pos: int)
    requires
        0 <= pos <= sorted.len(),
        pos > 0 ==> sorted[pos - 1].level <= role.level,
        forall|k: int| pos <= k < sorted.len() ==> sorted[k].level > role.level,
    ensures
        insert_by_level(sorted, role) == sorted.insert(pos, role),
    decreases sorted.len() - pos,
{
    if sorted.len() == 0 {
        assert(sorted.insert(pos, role) =~= seq![role]);
    } else if pos == sorted.len() {
        assert(sorted.insert(pos, role) =~= sorted.push(role));
    } else {
        lemma_insert_position(sorted.drop_last(), role, pos);
        assert(sorted.insert(pos, role) =~= sorted.drop_last().insert(pos, role).push(
            sorted.last(),
        ));
    }
}

/// Inserting keeps an ascending list ascending.
proof fn lemma_insert_ascending(sorted: Seq<RoleView>, role: RoleView)
    requires
        ascending(sorted),
    ensures
        ascending(insert_by_level(sorted, role)),
        insert_by_level(sorted, role).len() == sorted.len() + 1,
        forall|i: int|
            0 <= i < sorted.len() + 1 ==> (#[trigger] insert_by_level(sorted, role)[i]) == role
                || exists|k: int| 0 <= k < sorted.len() && sorted[k] == insert_by_level(sorted, role)[i],
    decreases sorted.len(),
{
    let out = insert_by_level(sorted, role);
    if sorted.len() == 0 {
    } else if sorted.last().level <= role.level {
        assert forall|i: int| 0 <= i < sorted.len() + 1 implies (#[trigger] out[i]) == role
            || exists|k: int| 0 <= k < sorted.len() && sorted[k] == out[i] by {
            if i < sorted.len() {
                assert(sorted[i] == out[i]);
            }
        }
    } else {
        let front = sorted.drop_last();
        assert(ascending(front));
        lemma_insert_ascending(front, role);
        let inner = insert_by_level(front, role);
        assert forall|i: int| 0 <= i < sorted.len() + 1 implies (#[trigger] out[i]) == role
            || exists|k: int| 0 <= k < sorted.len() && sorted[k] == out[i] by {
            if i < inner.len() {
                assert(out[i] == inner[i]);
                if inner[i] != role {
                    let k = choose|k: int| 0 <= k < front.len() && front[k] == inner[i];
                    assert(sorted[k] == out[i]);
                }
            } else {
                assert(sorted[sorted.len() - 1] == out[i]);
            }
        }
        assert forall|i: int, j: int| 0 <= i <= j < out.len() implies out[i].level
            <= out[j].level by {
            if j < inner.len() {
                assert(out[i] == inner[i] && out[j] == inner[j]);
            } else if i < inner.len() {
                assert(out[i] == inner[i]);
                if inner[i] != role {
                    let k = choose|k: int| 0 <= k < front.len() && front[k] == inner[i];
                    assert(sorted[k].level <= sorted[sorted.len() - 1].level);
                }
            }
        }
    }
}

/// Inserting adds the role at the end of the roles of its own level and
/// leaves the roles of every other level as they were.
proof fn lemma_insert_of_level(sorted: Seq<RoleView>, role: RoleView, level: i32)
    ensures
        of_level(insert_by_level(sorted, role), level) == if role.level == level {
            of_level(sorted, level).push(role)
        } else {
            of_level(sorted, level)
        },
    decreases sorted.len(),
{
    let pred = |r: RoleView| r.level == level;
    reveal(Seq::filter);
    if sorted.len() == 0 {
        assert(seq![role].drop_last() =~= Seq::<RoleView>::empty());
        assert(of_level(sorted, level) =~= Seq::<RoleView>::empty());
    } else if sorted.last().level <= role.level {
        assert(sorted.push(role).drop_last() =~= sorted);
    } else {
        let front = sorted.drop_last();
        lemma_insert_of_level(front, role, level);
        let inner = insert_by_level(front, role);
        assert(inner.push(sorted.last()).drop_last() =~= inner);
    }
}

/// The sorted list is in ascending order of level and has as many roles as
/// the list it was made from.
pub proof fn lemma_sorted_ascending(roles: Seq<RoleView>)
    ensures
        ascending(sorted_by_level(roles)),
        sorted_by_level(roles).len() == roles.len(),
    decreases roles.len(),
{
    if roles.len() > 0 {
        lemma_sorted_ascending(roles.drop_last());
        lemma_insert_ascending(sorted_by_level(roles.drop_last()), roles.last());
    }
}

/// Sorting is stable and neither adds nor drops a role: for every level, the
/// roles of that level are the same, in the same order, before and after.
pub proof fn lemma_sorted_keeps_levels(roles: Seq<RoleView>, level: i32)
    ensures
        of_level(sorted_by_level(roles), level) == of_level(roles, level),
    decreases roles.len(),
{
    reveal(Seq::filter);
    if roles.len() == 0 {
    } else {
        lemma_sorted_keeps_levels(roles.drop_last(), level);
        lemma_insert_of_level(sorted_by_level(roles.drop_last()), roles.last(), level);
    }
}

/// Every role of the sorted list is a role of the list it was made from.
pub proof fn lemma_sorted_from(roles: Seq<RoleView>, i: int)
    requires
        0 <= i < roles.len(),
    ensures
        sorted_by_level(roles).len() == roles.len(),
        roles.contains(sorted_by_level(roles)[i]),
{
    let sorted = sorted_by_level(roles);
    lemma_sorted_ascending(roles);
    let level = sorted[i].level;
    let pred = |r: RoleView| r.level == level;
    lemma_sorted_keeps_levels(roles, level);
    sorted.lemma_filter_contains(pred, i);
    roles.lemma_filter_contains_rev(pred, sorted[i]);
}

/// The effective level of an account that holds roles is the least of their
/// levels, that of its most privileged role: no role of the list has a lower
/// level than the first of the sorted list, and some role has that level.
pub proof fn law_effective_level_is_least(roles: Seq<RoleView>)
    requires
        roles.len() > 0,
    ensures
        forall|i: int| 0 <= i < roles.len() ==> first_level(sorted_by_level(roles)) <= (
        #[trigger] roles[i]).level,
        exists|i: int| 0 <= i < roles.len() && (#[trigger] roles[i]).level == first_level(
            sorted_by_level(roles),
        ),
{
    let sorted = sorted_by_level(roles);
    lemma_sorted_ascending(roles);
    let least = sorted[0].level;
    assert forall|i: int| 0 <= i < roles.len() implies least <= (#[trigger] roles[i]).level by {
        let level = roles[i].level;
        let pred = |r: RoleView| r.level == level;
        lemma_sorted_keeps_levels(roles, level);
        roles.lemma_filter_contains(pred, i);
        let same = of_level(roles, level);
        assert(same.contains(roles[i]));
        assert(of_level(sorted, level).contains(roles[i]));
        sorted.lemma_filter_contains_rev(pred, roles[i]);
        assert(sorted.contains(roles[i]));
        let k = choose|k: int| 0 <= k < sorted.len() && sorted[k] == roles[i];
        assert(sorted[0].level <= sorted[k].level);
    }
    let pred = |r: RoleView| r.level == least;
    lemma_sorted_keeps_levels(roles, least);
    sorted.lemma_filter_contains(pred, 0);
    assert(of_level(roles, least).contains(sorted[0]));
    roles.lemma_filter_contains_rev(pred, sorted[0]);
    assert(roles.contains(sorted[0]));
    let k = choose|k: int| 0 <= k < roles.len() && roles[k] == sorted[0];
    assert(roles[k].level == least);
}

/// Whether the account is a system administrator: whether its system role
/// tag is `"admin"`.
pub fn is_admin(user: &User) -> (admin: bool)
    ensures
        admin == is_admin_user(user.deep_view()),
{
    match &user.sys_role {
        Some(tag) => {
            let admin = String::from_str("admin");
            *tag == admin
        },
        None => false,
    }
}

/// The organizations that the memberships name, in the order of the
/// memberships.
pub fn org_ids(memberships: &Vec<UserOrg>) -> (ids: Vec<String>)
    ensures
        ids.deep_view() == org_ids_of(memberships.deep_view()),
{
    let mut ids: Vec<String> = Vec::new();
    let mut i: usize = 0;
    while i < memberships.len()
        invariant
            i <= memberships.len(),
            ids.len() == i,
            forall|k: int| 0 <= k < i ==> ids@[k]@ == memberships@[k].org_id@,
        decreases memberships.len() - i,
    {
        ids.push(memberships[i].org_id.clone());
        i += 1;
    }
    assert(ids.deep_view() =~= org_ids_of(memberships.deep_view()));
    ids
}

/// The roles that the grants that count name, in the order of the grants.
pub fn role_ids(grants: &Vec<UserRole>, policy: GrantPolicy) -> (ids: Vec<String>)
    ensures
        ids.deep_view() == role_ids_of(counted_grants(grants.deep_view(), policy)),
{
    let ghost all = grants.deep_view();
    let ghost pred = |grant: UserRoleView| policy.counts(grant);
    let mut ids: Vec<String> = Vec::new();
    let mut i: usize = 0;
    proof {
        reveal(Seq::filter);
        assert(all.take(0) =~= Seq::<UserRoleView>::empty());
        assert(ids.deep_view() =~= role_ids_of(all.take(0).filter(pred)));
    }
    while i < grants.len()
        invariant
            i <= grants.len(),
            all == grants.deep_view(),
            pred == |grant: UserRoleView| policy.counts(grant),
            ids.deep_view() == role_ids_of(all.take(i as int).filter(pred)),
        decreases grants.len() - i,
    {
        let ghost before = ids.deep_view();
        let ghost kept = all.take(i as int).filter(pred);
        proof {
            reveal(Seq::filter);
            assert(all[i as int] == grants@[i as int].deep_view());
            assert(all.take(i + 1).drop_last() =~= all.take(i as int));
            assert(all.take(i + 1).last() == all[i as int]);
        }
        if policy.includes(&grants[i]) {
            ids.push(grants[i].role_id.clone());
            proof {
                assert(ids.deep_view() =~= before.push(all[i as int].role_id));
                assert(role_ids_of(kept.push(all[i as int])) =~= role_ids_of(kept).push(
                    all[i as int].role_id,
                ));
            }
        }
        i += 1;
    }
    assert(all.take(all.len() as int) =~= all);
    ids
}

/// Sorts the roles in ascending order of level, most privileged first. The
/// sort is stable: roles of the same level stay in the order in which they
/// came, and every role of the list is in the result once.
pub fn sort_roles(roles: Vec<Role>) -> (sorted: Vec<Role>)
    ensures
        sorted.deep_view() == sorted_by_level(roles.deep_view()),
        ascending(sorted.deep_view()),
        sorted.len() == roles.len(),
        forall|level: i32| of_level(sorted.deep_view(), level) == of_level(roles.deep_view(), level),
{
    let ghost all = roles.deep_view();
    let mut rest = roles;
    let mut sorted: Vec<Role> = Vec::new();
    let ghost mut done: int = 0;
    while rest.len() > 0
        invariant
            0 <= done <= all.len(),
            rest.deep_view() == all.skip(done),
            sorted.deep_view() == sorted_by_level(all.take(done)),
        decreases rest.len(),
    {
        let ghost before = sorted.deep_view();
        let ghost rest_before = rest.deep_view();
        let ghost rows_before = rest@;
        let role = rest.remove(0);
        proof {
            assert(rest_before.len() == all.len() - done);
            assert(role.deep_view() == rest_before[0]);
            assert forall|k: int| 0 <= k < rest@.len() implies rest.deep_view()[k] == all.skip(
                done + 1,
            )[k] by {
                assert(rest@[k] == rows_before[k + 1]);
                assert(rest_before[k + 1] == rows_before[k + 1].deep_view());
                assert(all.skip(done)[k + 1] == all[done + 1 + k]);
            }
            assert(rest.deep_view() =~= all.skip(done + 1));
            assert(all.take(done + 1).drop_last() =~= all.take(done));
            assert(all.take(done + 1).last() == role.deep_view());
        }
        let mut pos: usize = sorted.len();
        while pos > 0 && sorted[pos - 1].level > role.level
            invariant
                pos <= sorted.len(),
                before == sorted.deep_view(),
                forall|k: int| pos <= k < sorted.len() ==> before[k].level > role.level,
            decreases pos,
        {
            pos -= 1;
        }
        proof {
            lemma_insert_position(before, role.deep_view(), pos as int);
        }
        let ghost inserted = role.deep_view();
        sorted.insert(pos, role);
        proof {
            assert(sorted.deep_view() =~= before.insert(pos as int, inserted));
            done = done + 1;
        }
    }
    proof {
        assert(all.take(done) =~= all);
        lemma_sorted_ascending(all);
        assert forall|level: i32|
            of_level(sorted.deep_view(), level) == of_level(roles.deep_view(), level) by {
            lemma_sorted_keeps_levels(all, level);
        }
    }
    sorted
}

/// The effective privilege level for roles in ascending order of level: the
/// level of the first, or [`NO_PRIVILEGE_LEVEL`] if there is none.
pub fn effective_level(sorted: &Vec<Role>) -> (level: i32)
    ensures
        level == first_level(sorted.deep_view()),
{
    if sorted.len() > 0 {
        sorted[0].level
    } else {
        NO_PRIVILEGE_LEVEL
    }
}

/// Whether `id` is one of `ids`.
pub fn contains_id(ids: &Vec<String>, id: &String) -> (found: bool)
    ensures
        found == ids.deep_view().contains(id@),
{
    let mut i: usize = 0;
    while i < ids.len()
        invariant
            i <= ids.len(),
            forall|k: int| 0 <= k < i ==> ids@[k]@ != id@,
        decreases ids.len() - i,
    {
        if ids[i] == *id {
            assert(ids.deep_view()[i as int] == id@);
            return true;
        }
        i += 1;
    }
    assert forall|k: int| 0 <= k < ids.deep_view().len() implies ids.deep_view()[k] != id@ by {
        assert(ids.deep_view()[k] == ids@[k]@);
    }
    false
}

/// Of the organizations that the store returned, keeps those that were
/// asked for and belong to the tenant.
pub fn orgs_in_tenant(found: Vec<Org>, ids: &Vec<String>, domain_id: &String) -> (kept: Vec<Org>)
    ensures
        kept.deep_view() == orgs_within(found.deep_view(), ids.deep_view(), domain_id@),
{
    let ghost all = found.deep_view();
    let ghost pred = |org: OrgView| org_within(org, ids.deep_view(), domain_id@);
    let mut kept: Vec<Org> = Vec::new();
    proof {
        reveal(Seq::filter);
        assert(all.take(0) =~= Seq::<OrgView>::empty());
        assert(kept.deep_view() =~= all.take(0).filter(pred));
    }
    for org in it: found
        invariant
            all == found.deep_view(),
            it.seq() == found@,
            pred == |org: OrgView| org_within(org, ids.deep_view(), domain_id@),
            kept.deep_view() == all.take(it.index() as int).filter(pred),
    {
        let ghost before = kept.deep_view();
        let ghost view = org.deep_view();
        proof {
            reveal(Seq::filter);
            assert(all[it.index() as int] == view);
            assert(all.take(it.index() + 1).drop_last() =~= all.take(it.index() as int));
            assert(all.take(it.index() + 1).last() == view);
        }
        if contains_id(ids, &org.id) && org.domain_id == *domain_id {
            kept.push(org);
            assert(kept.deep_view() =~= before.push(view));
        }
    }
    assert(all.take(all.len() as int) =~= all);
    kept
}

/// Of the roles that the store returned, keeps those that were asked for and
/// belong to the tenant.
pub fn roles_in_tenant(found: Vec<Role>, ids: &Vec<String>, domain_id: &String) -> (kept: Vec<Role>)
    ensures
        kept.deep_view() == roles_within(found.deep_view(), ids.deep_view(), domain_id@),
{
    let ghost all = found.deep_view();
    let ghost pred = |role: RoleView| role_within(role, ids.deep_view(), domain_id@);
    let mut kept: Vec<Role> = Vec::new();
    proof {
        reveal(Seq::filter);
        assert(all.take(0) =~= Seq::<RoleView>::empty());
        assert(kept.deep_view() =~= all.take(0).filter(pred));
    }
    for role in it: found
        invariant
            all == found.deep_view(),
            it.seq() == found@,
            pred == |role: RoleView| role_within(role, ids.deep_view(), domain_id@),
            kept.deep_view() == all.take(it.index() as int).filter(pred),
    {
        let ghost before = kept.deep_view();
        let ghost view = role.deep_view();
        proof {
            reveal(Seq::filter);
            assert(all[it.index() as int] == view);
            assert(all.take(it.index() + 1).drop_last() =~= all.take(it.index() as int));
            assert(all.take(it.index() + 1).last() == view);
        }
        if contains_id(ids, &role.id) && role.domain_id == *domain_id {
            kept.push(role);
            assert(kept.deep_view() =~= before.push(view));
        }
    }
    assert(all.take(all.len() as int) =~= all);
    kept
}

/// The ids of the organizations, in their order.
pub fn org_ids_in(orgs: &Vec<Org>) -> (ids: Vec<String>)
    ensures
        ids.deep_view() == ids_of_orgs(orgs.deep_view()),
{
    let mut ids: Vec<String> = Vec::new();
    let mut i: usize = 0;
    while i < orgs.len()
        invariant
            i <= orgs.len(),
            ids.len() == i,
            forall|k: int| 0 <= k < i ==> ids@[k]@ == orgs@[k].id@,
        decreases orgs.len() - i,
    {
        ids.push(orgs[i].id.clone());
        i += 1;
    }
    assert(ids.deep_view() =~= ids_of_orgs(orgs.deep_view()));
    ids
}

/// The ids of the roles, in their order.
pub fn role_ids_in(roles: &Vec<Role>) -> (ids: Vec<String>)
    ensures
        ids.deep_view() == ids_of_roles(roles.deep_view()),
{
    let mut ids: Vec<String> = Vec::new();
    let mut i: usize = 0;
    while i < roles.len()
        invariant
            i <= roles.len(),
            ids.len() == i,
            forall|k: int| 0 <= k < i ==> ids@[k]@ == roles@[k].id@,
        decreases roles.len() - i,
    {
        ids.push(roles[i].id.clone());
        i += 1;
    }
    assert(ids.deep_view() =~= ids_of_roles(roles.deep_view()));
    ids
}

} // verus!
