//! Creating and changing organizations: what is checked, and which row is
//! written.
use crate::error::AuthError;
use crate::model::{OrgDao, OrgDaoView, Timestamp};
use crate::stamp::{fresh_id, local_now};
use crate::text::clone_optional;
use crate::validate::{length_in_range, length_ok, verdict};
use vstd::prelude::*;

verus! {

/// The fields of an organization to be created.
#[derive(Clone, Debug, PartialEq, Eq)]
pub struct NewOrg {
    pub name: String,
    pub description: Option<String>,
    pub domain_id: String,
    pub created_by: Option<String>,
}

/// The model of a [`NewOrg`].
pub struct NewOrgView {
    pub name: Seq<char>,
    pub description: Option<Seq<char>>,
    pub domain_id: Seq<char>,
    pub created_by: Option<Seq<char>>,
}

impl DeepView for NewOrg {
    type V = NewOrgView;

    open spec fn deep_view(&self) -> NewOrgView {
        NewOrgView {
            name: self.name@,
            description: self.description.deep_view(),
            domain_id: self.domain_id@,
            created_by: self.created_by.deep_view(),
        }
    }
}

impl NewOrgView {
    /// Whether the fields are acceptable: the name has 1 to 100 characters.
    pub open spec fn valid(self) -> bool {
        length_ok(self.name, 1, Some(100u64))
    }

    /// The row for the organization under `id`, created at `created_at` and
    /// last changed at `updated_at`: not deleted, and changed by nobody yet.
    pub open spec fn record(
        self,
        id: Seq<char>,
        created_at: Timestamp,
        updated_at: Timestamp,
    ) -> OrgDaoView {
        OrgDaoView {
            id,
            name: self.name,
            description: self.description,
            domain_id: self.domain_id,
            is_deleted: Some(0i32),
            created_by: self.created_by,
            updated_by: None,
            created_at,
            updated_at,
        }
    }
}

impl NewOrg {
    /// Checks the fields: the name must have 1 to 100 characters.
    pub fn validate(&self) -> (r: Result<(), AuthError>)
        ensures
            r is Ok <==> self.deep_view().valid(),
            r is Err ==> r == Err::<(), AuthError>(
                AuthError::ValidationError(crate::error::ValidationIssue::MalformedInput),
            ),
    {
        verdict(length_in_range(self.name.as_str(), 1, Some(100)))
    }

    /// The row for the organization under the identifier and the instants
    /// given.
    pub fn record(&self, id: String, created_at: Timestamp, updated_at: Timestamp) -> (dao: OrgDao)
        ensures
            dao.deep_view() == self.deep_view().record(id@, created_at, updated_at),
    {
        OrgDao {
            id,
            name: self.name.clone(),
            description: clone_optional(&self.description),
            domain_id: self.domain_id.clone(),
            is_deleted: Some(0),
            created_by: clone_optional(&self.created_by),
            updated_by: None,
            created_at,
            updated_at,
        }
    }

    /// The row to store for the organization: [`NewOrg::record`] under a
    /// new random identifier, with the current local time as the instants
    /// of creation and of the last change.
    pub fn create(&self) -> (dao: OrgDao)
        ensures
            dao.deep_view() == self.deep_view().record(dao.id@, dao.created_at, dao.updated_at),
    {
        let id = fresh_id();
        let created_at = local_now();
        let updated_at = local_now();
        self.record(id, created_at, updated_at)
    }
}

/// The fields of a change to an organization.
#[derive(Clone, Debug, PartialEq, Eq)]
pub struct UpdateOrg {
    pub name: String,
    pub description: Option<String>,
    pub value: String,
    pub updated_by: Option<String>,
}

/// The model of an [`UpdateOrg`].
pub struct UpdateOrgView {
    pub name: Seq<char>,
    pub description: Option<Seq<char>>,
    pub value: Seq<char>,
    pub updated_by: Option<Seq<char>>,
}

impl DeepView for UpdateOrg {
    type V = UpdateOrgView;

    open spec fn deep_view(&self) -> UpdateOrgView {
        UpdateOrgView {
            name: self.name@,
            description: self.description.deep_view(),
            value: self.value@,
            updated_by: self.updated_by.deep_view(),
        }
    }
}

impl UpdateOrgView {
    /// Whether the fields are acceptable: the name has 1 to 100 characters
    /// and the value 1 to 200.
    pub open spec fn valid(self) -> bool {
        length_ok(self.name, 1, Some(100u64)) && length_ok(self.value, 1, Some(200u64))
    }

    /// The row `dao` after the change: its name and its description are
    /// replaced, everything else stays.
    pub open spec fn applied(self, dao: OrgDaoView) -> OrgDaoView {
        OrgDaoView { name: self.name, description: self.description, ..dao }
    }
}

impl UpdateOrg {
    /// Checks the fields: the name must have 1 to 100 characters and the
    /// value 1 to 200.
    pub fn validate(&self) -> (r: Result<(), AuthError>)
        ensures
            r is Ok <==> self.deep_view().valid(),
            r is Err ==> r == Err::<(), AuthError>(
                AuthError::ValidationError(crate::error::ValidationIssue::MalformedInput),
            ),
    {
        let passed = length_in_range(self.name.as_str(), 1, Some(100)) && length_in_range(
            self.value.as_str(),
            1,
            Some(200),
        );
        verdict(passed)
    }

    /// The row to write back for the organization whose stored row is `dao`.
    pub fn save(&self, dao: OrgDao) -> (changed: OrgDao)
        ensures
            changed.deep_view() == self.deep_view().applied(dao.deep_view()),
    {
        OrgDao {
            id: dao.id,
            name: self.name.clone(),
            description: clone_optional(&self.description),
            domain_id: dao.domain_id,
            is_deleted: dao.is_deleted,
            created_by: dao.created_by,
            updated_by: dao.updated_by,
            created_at: dao.created_at,
            updated_at: dao.updated_at,
        }
    }
}

} // verus!
