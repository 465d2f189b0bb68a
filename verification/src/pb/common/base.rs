//! Common record header.

use vstd::prelude::*;

verus! {

/// Identity and audit fields shared by stored records.
#[derive(Clone, Debug)]
pub struct Base {
    pub id: String,
    pub created_at: i64,
    pub updated_at: i64,
    pub deleted_at: i64,
    pub created_by: String,
    pub updated_by: String,
    pub owner_id: String,
    pub status: i32,
}

} // verus!
