//! Organization roles from the identity service.

use vstd::prelude::*;

verus! {

/// Role of a user in an organization.
#[derive(Clone, Copy, Debug, PartialEq, Eq, Structural)]
pub enum OrgRole {
    OrNone,
    OrOwner,
    OrAdmin,
    OrMember,
}

impl OrgRole {
    /// Wire number of the variant.
    pub open spec fn spec_code(self) -> i32 {
        match self {
            OrgRole::OrNone => 0,
            OrgRole::OrOwner => 1,
            OrgRole::OrAdmin => 2,
            OrgRole::OrMember => 3,
        }
    }

    /// The variant with wire number `c`, if any.
    pub open spec fn spec_from_code(c: i32) -> Option<OrgRole> {
        if c == 0 {
            Some(OrgRole::OrNone)
        } else if c == 1 {
            Some(OrgRole::OrOwner)
        } else if c == 2 {
            Some(OrgRole::OrAdmin)
        } else if c == 3 {
            Some(OrgRole::OrMember)
        } else {
            None
        }
    }

    pub fn code(self) -> (r: i32)
        ensures
            r == self.spec_code(),
    {
        match self {
            OrgRole::OrNone => 0,
            OrgRole::OrOwner => 1,
            OrgRole::OrAdmin => 2,
            OrgRole::OrMember => 3,
        }
    }

    pub fn from_code(c: i32) -> (r: Option<OrgRole>)
        ensures
            r == Self::spec_from_code(c),
    {
        if c == 0 {
            Some(OrgRole::OrNone)
        } else if c == 1 {
            Some(OrgRole::OrOwner)
        } else if c == 2 {
            Some(OrgRole::OrAdmin)
        } else if c == 3 {
            Some(OrgRole::OrMember)
        } else {
            None
        }
    }
}
} // verus!
