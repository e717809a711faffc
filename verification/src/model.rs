//! The records of the account store and their mathematical models.
//!
//! Every record type has a model, reached by `deep_view()`, in which each
//! string is the sequence of its characters. Contracts speak of the models.
use vstd::prelude::*;

verus! {

/// An instant without a time zone, as milliseconds since 1970-01-01T00:00:00.
#[derive(Clone, Copy, Debug, PartialEq, Eq, Structural)]
pub struct Timestamp {
    pub millis: i64,
}

impl DeepView for Timestamp {
    type V = Timestamp;

    open spec fn deep_view(&self) -> Timestamp {
        *self
    }
}

/// An account.
#[derive(Clone, Debug, PartialEq, Eq)]
pub struct User {
    pub id: String,
    pub username: String,
    /// The stored credential hash, never the secret itself.
    pub password: String,
    pub email: Option<String>,
    pub avatar: Option<String>,
    pub memo: Option<String>,
    /// The system-level role tag; `"admin"` marks a system administrator.
    pub sys_role: Option<String>,
    pub is_actived: bool,
    pub last_logined_at: Timestamp,
    pub created_at: Timestamp,
}

/// The model of a [`User`].
pub struct UserView {
    pub id: Seq<char>,
    pub username: Seq<char>,
    pub password: Seq<char>,
    pub email: Option<Seq<char>>,
    pub avatar: Option<Seq<char>>,
    pub memo: Option<Seq<char>>,
    pub sys_role: Option<Seq<char>>,
    pub is_actived: bool,
    pub last_logined_at: Timestamp,
    pub created_at: Timestamp,
}

impl DeepView for User {
    type V = UserView;

    open spec fn deep_view(&self) -> UserView {
        UserView {
            id: self.id@,
            username: self.username@,
            password: self.password@,
            email: self.email.deep_view(),
            avatar: self.avatar.deep_view(),
            memo: self.memo.deep_view(),
            sys_role: self.sys_role.deep_view(),
            is_actived: self.is_actived,
            last_logined_at: self.last_logined_at,
            created_at: self.created_at,
        }
    }
}

/// The row of the `users` table.
#[derive(Clone, Debug, PartialEq, Eq)]
pub struct UserDao {
    pub id: String,
    pub username: String,
    pub password: String,
    pub email: Option<String>,
    pub avatar: Option<String>,
    pub memo: Option<String>,
    pub sys_role: Option<String>,
    pub is_actived: Option<bool>,
    pub last_logined_at: Timestamp,
    pub created_at: Timestamp,
}

/// The model of a [`UserDao`].
pub struct UserDaoView {
    pub id: Seq<char>,
    pub username: Seq<char>,
    pub password: Seq<char>,
    pub email: Option<Seq<char>>,
    pub avatar: Option<Seq<char>>,
    pub memo: Option<Seq<char>>,
    pub sys_role: Option<Seq<char>>,
    pub is_actived: Option<bool>,
    pub last_logined_at: Timestamp,
    pub created_at: Timestamp,
}

impl DeepView for UserDao {
    type V = UserDaoView;

    open spec fn deep_view(&self) -> UserDaoView {
        UserDaoView {
            id: self.id@,
            username: self.username@,
            password: self.password@,
            email: self.email.deep_view(),
            avatar: self.avatar.deep_view(),
            memo: self.memo.deep_view(),
            sys_role: self.sys_role.deep_view(),
            is_actived: self.is_actived,
            last_logined_at: self.last_logined_at,
            created_at: self.created_at,
        }
    }
}

impl UserDaoView {
    /// The account that a row with a known active flag stands for.
    pub open spec fn account(self) -> UserView
        recommends
            self.is_actived is Some,
    {
        UserView {
            id: self.id,
            username: self.username,
            password: self.password,
            email: self.email,
            avatar: self.avatar,
            memo: self.memo,
            sys_role: self.sys_role,
            is_actived: self.is_actived->0,
            last_logined_at: self.last_logined_at,
            created_at: self.created_at,
        }
    }
}

impl User {
    /// Turns a row into an account. The row must carry its active flag.
    pub fn from(dao: UserDao) -> (user: User)
        requires
            dao.is_actived is Some,
        ensures
            user.deep_view() == dao.deep_view().account(),
    {
        let active = match dao.is_actived {
            Some(flag) => flag,
            None => false,
        };
        User {
            id: dao.id,
            username: dao.username,
            password: dao.password,
            email: dao.email,
            avatar: dao.avatar,
            memo: dao.memo,
            sys_role: dao.sys_role,
            is_actived: active,
            last_logined_at: dao.last_logined_at,
            created_at: dao.created_at,
        }
    }
}

/// A tenant.
#[derive(Clone, Debug, PartialEq, Eq)]
pub struct Domain {
    pub id: String,
    pub name: String,
    /// The role granted to every account that registers in this tenant.
    pub default_role_id: Option<String>,
}

/// The model of a [`Domain`].
pub struct DomainView {
    pub id: Seq<char>,
    pub name: Seq<char>,
    pub default_role_id: Option<Seq<char>>,
}

impl DeepView for Domain {
    type V = DomainView;

    open spec fn deep_view(&self) -> DomainView {
        DomainView {
            id: self.id@,
            name: self.name@,
            default_role_id: self.default_role_id.deep_view(),
        }
    }
}

/// An organization; it belongs to one tenant.
#[derive(Clone, Debug, PartialEq, Eq)]
pub struct Org {
    pub id: String,
    pub name: String,
    pub description: Option<String>,
    pub domain_id: String,
}

/// The model of an [`Org`].
pub struct OrgView {
    pub id: Seq<char>,
    pub name: Seq<char>,
    pub description: Option<Seq<char>>,
    pub domain_id: Seq<char>,
}

impl DeepView for Org {
    type V = OrgView;

    open spec fn deep_view(&self) -> OrgView {
        OrgView {
            id: self.id@,
            name: self.name@,
            description: self.description.deep_view(),
            domain_id: self.domain_id@,
        }
    }
}

/// The row of the `orgs` table.
#[derive(Clone, Debug, PartialEq, Eq)]
pub struct OrgDao {
    pub id: String,
    pub name: String,
    pub description: Option<String>,
    pub domain_id: String,
    pub is_deleted: Option<i32>,
    pub created_by: Option<String>,
    pub updated_by: Option<String>,
    pub created_at: Timestamp,
    pub updated_at: Timestamp,
}

/// The model of an [`OrgDao`].
pub struct OrgDaoView {
    pub id: Seq<char>,
    pub name: Seq<char>,
    pub description: Option<Seq<char>>,
    pub domain_id: Seq<char>,
    pub is_deleted: Option<i32>,
    pub created_by: Option<Seq<char>>,
    pub updated_by: Option<Seq<char>>,
    pub created_at: Timestamp,
    pub updated_at: Timestamp,
}

impl DeepView for OrgDao {
    type V = OrgDaoView;

    open spec fn deep_view(&self) -> OrgDaoView {
        OrgDaoView {
            id: self.id@,
            name: self.name@,
            description: self.description.deep_view(),
            domain_id: self.domain_id@,
            is_deleted: self.is_deleted,
            created_by: self.created_by.deep_view(),
            updated_by: self.updated_by.deep_view(),
            created_at: self.created_at,
            updated_at: self.updated_at,
        }
    }
}

impl OrgDaoView {
    /// The organization that a row stands for.
    pub open spec fn org(self) -> OrgView {
        OrgView {
            id: self.id,
            name: self.name,
            description: self.description,
            domain_id: self.domain_id,
        }
    }
}

impl Org {
    /// Turns a row into an organization.
    pub fn from(dao: OrgDao) -> (org: Org)
        ensures
            org.deep_view() == dao.deep_view().org(),
    {
        Org { id: dao.id, name: dao.name, description: dao.description, domain_id: dao.domain_id }
    }
}

/// A role; it belongs to one tenant. A lower `level` is a higher privilege.
#[derive(Clone, Debug, PartialEq, Eq)]
pub struct Role {
    pub id: String,
    pub name: String,
    /// The symbolic key of the role.
    pub value: String,
    pub level: i32,
    pub domain_id: String,
}

/// The model of a [`Role`].
pub struct RoleView {
    pub id: Seq<char>,
    pub name: Seq<char>,
    pub value: Seq<char>,
    pub level: i32,
    pub domain_id: Seq<char>,
}

impl DeepView for Role {
    type V = RoleView;

    open spec fn deep_view(&self) -> RoleView {
        RoleView {
            id: self.id@,
            name: self.name@,
            value: self.value@,
            level: self.level,
            domain_id: self.domain_id@,
        }
    }
}

/// The row of the `roles` table. A row that was never stored has no `id`.
#[derive(Clone, Debug, PartialEq, Eq)]
pub struct RoleDao {
    pub id: Option<String>,
    pub name: String,
    pub description: Option<String>,
    pub value: String,
    pub level: i32,
    pub domain_id: String,
    pub is_deleted: Option<i32>,
    pub created_at: Timestamp,
    pub updated_at: Timestamp,
    pub created_by: Option<String>,
    pub updated_by: Option<String>,
}

/// The model of a [`RoleDao`].
pub struct RoleDaoView {
    pub id: Option<Seq<char>>,
    pub name: Seq<char>,
    pub description: Option<Seq<char>>,
    pub value: Seq<char>,
    pub level: i32,
    pub domain_id: Seq<char>,
    pub is_deleted: Option<i32>,
    pub created_at: Timestamp,
    pub updated_at: Timestamp,
    pub created_by: Option<Seq<char>>,
    pub updated_by: Option<Seq<char>>,
}

impl DeepView for RoleDao {
    type V = RoleDaoView;

    open spec fn deep_view(&self) -> RoleDaoView {
        RoleDaoView {
            id: self.id.deep_view(),
            name: self.name@,
            description: self.description.deep_view(),
            value: self.value@,
            level: self.level,
            domain_id: self.domain_id@,
            is_deleted: self.is_deleted,
            created_at: self.created_at,
            updated_at: self.updated_at,
            created_by: self.created_by.deep_view(),
            updated_by: self.updated_by.deep_view(),
        }
    }
}

impl RoleDaoView {
    /// The role that a stored row stands for.
    pub open spec fn role(self) -> RoleView
        recommends
            self.id is Some,
    {
        RoleView {
            id: self.id->0,
            name: self.name,
            value: self.value,
            level: self.level,
            domain_id: self.domain_id,
        }
    }
}

impl Role {
    /// Turns a stored row into a role; a row without an `id` stands for none.
    pub fn from(dao: RoleDao) -> (role: Option<Role>)
        ensures
            role.deep_view() == if dao.id is Some {
                Some(dao.deep_view().role())
            } else {
                None
            },
    {
        match dao.id {
            Some(id) => Some(
                Role {
                    id,
                    name: dao.name,
                    value: dao.value,
                    level: dao.level,
                    domain_id: dao.domain_id,
                },
            ),
            None => None,
        }
    }
}

/// The membership of a user in an organization.
#[derive(Clone, Debug, PartialEq, Eq)]
pub struct UserOrg {
    pub user_id: String,
    pub org_id: String,
}

/// The model of a [`UserOrg`].
pub struct UserOrgView {
    pub user_id: Seq<char>,
    pub org_id: Seq<char>,
}

impl DeepView for UserOrg {
    type V = UserOrgView;

    open spec fn deep_view(&self) -> UserOrgView {
        UserOrgView { user_id: self.user_id@, org_id: self.org_id@ }
    }
}

/// The grant of a role to a user.
#[derive(Clone, Debug, PartialEq, Eq)]
pub struct UserRole {
    pub user_id: String,
    pub role_id: String,
    pub expire: Timestamp,
    pub created_at: Timestamp,
}

/// The model of a [`UserRole`].
pub struct UserRoleView {
    pub user_id: Seq<char>,
    pub role_id: Seq<char>,
    pub expire: Timestamp,
    pub created_at: Timestamp,
}

impl DeepView for UserRole {
    type V = UserRoleView;

    open spec fn deep_view(&self) -> UserRoleView {
        UserRoleView {
            user_id: self.user_id@,
            role_id: self.role_id@,
            expire: self.expire,
            created_at: self.created_at,
        }
    }
}

} // verus!
