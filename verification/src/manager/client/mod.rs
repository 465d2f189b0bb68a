//! What the service takes from the identity service.

use crate::pb::shared::organization::OrgRole;
use crate::text::str_eq;
use vstd::prelude::*;

verus! {

/// An organisation member as the identity service lists it.
#[derive(Debug, Clone)]
pub struct OrgUserInfo {
    pub user_id: String,
    pub display_name: String,
    pub email: String,
    pub avatar: String,
}

/// Whether the gateway marked the caller a super admin.
pub fn is_super_admin_from_type(user_type: Option<&str>) -> (r: bool)
    ensures
        r == (user_type matches Some(t) && t@ == "super_admin"@),
{
    match user_type {
        Some(t) => str_eq(t, "super_admin"),
        None => false,
    }
}

/// The organisation role of a wire number; unknown numbers are no role.
pub fn org_role_from_code(code: i32) -> (r: OrgRole)
    ensures
        r == match OrgRole::spec_from_code(code) {
            Some(x) => x,
            None => OrgRole::OrNone,
        },
{
    match OrgRole::from_code(code) {
        Some(x) => x,
        None => OrgRole::OrNone,
    }
}

} // verus!
