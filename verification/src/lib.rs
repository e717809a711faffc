//! Multi-tenant identity and access control.
//!
//! The crate authenticates users, resolves the organizations and roles that
//! apply to a user inside a selected tenant, issues a signed token that
//! carries the resolved context, and decides at the request boundary whether
//! a token lets an operation through.
//!
//! The account store is not part of the crate. The two flows, [`register`]
//! and [`login`], are written as step functions: each call takes the current
//! state and the store's answer to the last request, and returns the next
//! state together with the next request to the store.
use vstd::prelude::*;

pub mod codec;
pub mod context;
pub mod error;
pub mod gate;
pub mod input;
pub mod login;
pub mod model;
pub mod org;
pub mod outcome;
pub mod query;
pub mod register;
mod stamp;
pub mod text;
pub mod token;
pub mod validate;

pub use context::{
    effective_level, is_admin, org_ids, role_ids, sort_roles, AuthContext, GrantPolicy,
    NO_PRIVILEGE_LEVEL,
};
pub use error::{AuthError, AuthFailure, Missing, TokenFault, Unmet, ValidationIssue};
pub use gate::{authenticate, check, guard, require_admin, require_level, DomainRoute, Requirement};
pub use input::{LoginUser, NewUser};
pub use login::{login, LoginAction, LoginEvent, LoginState};
pub use model::{
    Domain, Org, OrgDao, Role, RoleDao, Timestamp, User, UserDao, UserOrg, UserRole,
};
pub use org::{NewOrg, UpdateOrg};
pub use outcome::{issue, AuthPayload};
pub use query::{Condition, Query, Statement};
pub use register::{register, Insertion, RegisterAction, RegisterEvent, RegisterState};
pub use token::{accept, decode_claims, encode_claims, seal, unseal, TokenIssuer};
