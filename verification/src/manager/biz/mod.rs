//! Budget business rules: who may do what on a budget, how a listing is
//! paged, how a member row is enriched, and when an envelope is exceeded.
//!
//! Fetching rows and calling the identity service happen around these
//! functions; each takes what was fetched and decides.

pub mod portfolio;

use crate::converters::{
    budget_role_to_db, budget_type_from_db, budget_type_to_db, map_budget_member,
    spec_budget_role_from_db, spec_budget_role_to_db, spec_budget_type_from_db,
    spec_budget_type_to_db, text_or, DbBudgetMember, DbTemplate,
};
use crate::manager::client::OrgUserInfo;
use crate::manager::repository::fx_rates::div_trunc;
use crate::pb::service::budget::{
    BudgetMember, BudgetRole, BudgetTemplate, BudgetType, EnvelopeLimit, ListBudgetParams, PageMeta,
};
use crate::pb::shared::organization::OrgRole;
use crate::status::{is_status, Code, Status};
use crate::text::{opt_text, str_eq, string_or_empty};
use vstd::prelude::*;

verus! {

// ---------------------------------------------------------------------------
// Role authority
// ---------------------------------------------------------------------------

/// What resolving a caller's role on a budget needs next.
#[derive(Debug, Clone, Copy, PartialEq, Eq, Structural)]
pub enum RoleQuery {
    /// The caller's explicit member row.
    MemberRole,
    /// Whether the budget is private.
    IsPrivate,
    /// The budget's organisation.
    OrgId,
    /// The caller's role in the budget's organisation.
    OrgRole,
}

/// A step of role resolution: decided, or in need of a fact.
#[derive(Debug, Clone, Copy, PartialEq, Eq, Structural)]
pub enum RoleProgress {
    Decided(BudgetRole),
    Needs(RoleQuery),
}

pub open spec fn spec_is_super_admin(user_type: Option<Seq<char>>) -> bool {
    user_type == Some("super_admin"@)
}

/// Step 0: a super admin has full access (owner); anyone else needs the
/// member row.
pub fn resolve_role_start(user_type: Option<&str>) -> (r: RoleProgress)
    ensures
        r == if spec_is_super_admin(
            match user_type {
                Some(t) => Some(t@),
                None => None,
            },
        ) {
            RoleProgress::Decided(BudgetRole::Owner)
        } else {
            RoleProgress::Needs(RoleQuery::MemberRole)
        },
{
    if crate::manager::client::is_super_admin_from_type(user_type) {
        RoleProgress::Decided(BudgetRole::Owner)
    } else {
        RoleProgress::Needs(RoleQuery::MemberRole)
    }
}

/// Step 1: an explicit member row decides; without one, privacy is next.
pub fn resolve_role_on_member(member_role: Option<BudgetRole>) -> (r: RoleProgress)
    ensures
        r == match member_role {
            Some(role) => RoleProgress::Decided(role),
            None => RoleProgress::Needs(RoleQuery::IsPrivate),
        },
{
    match member_role {
        Some(role) => RoleProgress::Decided(role),
        None => RoleProgress::Needs(RoleQuery::IsPrivate),
    }
}

/// Step 2: a private budget denies anyone without a member row; otherwise
/// the budget's organisation is next.
pub fn resolve_role_on_privacy(is_private: bool) -> (r: RoleProgress)
    ensures
        r == if is_private {
            RoleProgress::Decided(BudgetRole::Unspecified)
        } else {
            RoleProgress::Needs(RoleQuery::OrgId)
        },
{
    if is_private {
        RoleProgress::Decided(BudgetRole::Unspecified)
    } else {
        RoleProgress::Needs(RoleQuery::OrgId)
    }
}

/// Step 3a: a budget without an organisation is not found; with one, the
/// caller's role in it is next.
pub fn resolve_role_on_org_id(org_id: Option<&str>) -> (r: Result<RoleProgress, Status>)
    ensures
        org_id is None ==> (r matches Err(s) && is_status(s, Code::NotFound, "Budget not found"@)),
        org_id is Some ==> r == Ok::<RoleProgress, Status>(RoleProgress::Needs(RoleQuery::OrgRole)),
{
    match org_id {
        Some(_) => Ok(RoleProgress::Needs(RoleQuery::OrgRole)),
        None => Err(Status::not_found("Budget not found")),
    }
}

pub open spec fn spec_role_from_org(org_role: OrgRole) -> BudgetRole {
    match org_role {
        OrgRole::OrOwner => BudgetRole::Owner,
        OrgRole::OrAdmin => BudgetRole::Manager,
        _ => BudgetRole::Unspecified,
    }
}

/// Step 3b: organisation owners own, organisation admins manage, anyone
/// else has no role.
pub fn resolve_role_on_org(org_role: OrgRole) -> (r: BudgetRole)
    ensures
        r == spec_role_from_org(org_role),
{
    match org_role {
        OrgRole::OrOwner => BudgetRole::Owner,
        OrgRole::OrAdmin => BudgetRole::Manager,
        _ => BudgetRole::Unspecified,
    }
}

/// The role of a caller on a budget, from what the steps consult: a super
/// admin owns; an explicit member row decides; a private budget denies; a
/// budget without an organisation is not found (`None`); otherwise the
/// organisation role maps.
pub open spec fn spec_resolve_role(
    super_admin: bool,
    member_role: Option<BudgetRole>,
    is_private: bool,
    has_org: bool,
    org_role: OrgRole,
) -> Option<BudgetRole> {
    if super_admin {
        Some(BudgetRole::Owner)
    } else if member_role is Some {
        member_role
    } else if is_private {
        Some(BudgetRole::Unspecified)
    } else if !has_org {
        None
    } else {
        Some(spec_role_from_org(org_role))
    }
}

/// The role of a caller on a budget, given everything the steps may
/// consult; `org_id` is the budget's organisation, if it has one. Later
/// facts only matter when earlier steps do not decide. A budget that is
/// reached without an organisation is not found.
pub fn resolve_role(
    user_type: Option<&str>,
    member_role: Option<BudgetRole>,
    is_private: bool,
    org_id: Option<&str>,
    org_role: OrgRole,
) -> (r: Result<BudgetRole, Status>)
    ensures
        match spec_resolve_role(
            spec_is_super_admin(
                match user_type {
                    Some(t) => Some(t@),
                    None => None,
                },
            ),
            member_role,
            is_private,
            org_id is Some,
            org_role,
        ) {
            Some(role) => r == Ok::<BudgetRole, Status>(role),
            None => r matches Err(s) && is_status(s, Code::NotFound, "Budget not found"@),
        },
{
    match resolve_role_start(user_type) {
        RoleProgress::Decided(r) => Ok(r),
        RoleProgress::Needs(_) => match resolve_role_on_member(member_role) {
            RoleProgress::Decided(r) => Ok(r),
            RoleProgress::Needs(_) => match resolve_role_on_privacy(is_private) {
                RoleProgress::Decided(r) => Ok(r),
                RoleProgress::Needs(_) => match resolve_role_on_org_id(org_id) {
                    Ok(_) => Ok(resolve_role_on_org(org_role)),
                    Err(e) => Err(e),
                },
            },
        },
    }
}

/// A super admin owns every budget, whatever the other facts say.
pub proof fn lemma_super_admin_owns(
    member_role: Option<BudgetRole>,
    is_private: bool,
    has_org: bool,
    org_role: OrgRole,
)
    ensures
        spec_resolve_role(true, member_role, is_private, has_org, org_role) == Some(BudgetRole::Owner),
{
}

/// An explicit member row decides for anyone but a super admin, whatever
/// the budget's privacy and the organisation role.
pub proof fn lemma_member_row_decides(
    role: BudgetRole,
    p1: bool,
    h1: bool,
    o1: OrgRole,
    p2: bool,
    h2: bool,
    o2: OrgRole,
)
    ensures
        spec_resolve_role(false, Some(role), p1, h1, o1) == Some(role),
        spec_resolve_role(false, Some(role), p1, h1, o1) == spec_resolve_role(
            false,
            Some(role),
            p2,
            h2,
            o2,
        ),
{
}

/// Without a member row, a private budget is closed to everyone but a
/// super admin, organisation owners included.
pub proof fn lemma_private_budget_denies(has_org: bool, org_role: OrgRole)
    ensures
        spec_resolve_role(false, None, true, has_org, org_role) == Some(BudgetRole::Unspecified),
{
}

/// Without a member row, a public budget that has no organisation is not
/// found, whatever the caller's organisation role.
pub proof fn lemma_budget_without_org_not_found(org_role: OrgRole)
    ensures
        spec_resolve_role(false, None, false, false, org_role) is None,
{
}

/// Without a member row, a public budget of an organisation gives its
/// organisation's owners ownership and its admins management, and no
/// access to anyone else (plain members and those without an
/// organisation role included).
pub proof fn lemma_org_role_fallback(org_role: OrgRole)
    ensures
        org_role == OrgRole::OrOwner ==> spec_resolve_role(false, None, false, true, org_role) == Some(
            BudgetRole::Owner,
        ),
        org_role == OrgRole::OrAdmin ==> spec_resolve_role(false, None, false, true, org_role) == Some(
            BudgetRole::Manager,
        ),
        org_role != OrgRole::OrOwner && org_role != OrgRole::OrAdmin ==> spec_resolve_role(
            false,
            None,
            false,
            true,
            org_role,
        ) == Some(BudgetRole::Unspecified),
        spec_role_satisfies(
            spec_resolve_role(false, None, false, true, org_role).unwrap(),
            BudgetRole::Viewer,
        ) <==> (org_role == OrgRole::OrOwner || org_role == OrgRole::OrAdmin),
{
}

/// The rank of a role: unspecified below viewer below contributor below
/// manager below owner.
pub open spec fn role_rank(r: BudgetRole) -> int {
    match r {
        BudgetRole::Unspecified => 0,
        BudgetRole::Viewer => 1,
        BudgetRole::Contributor => 2,
        BudgetRole::Manager => 3,
        BudgetRole::Owner => 4,
    }
}

pub open spec fn spec_role_satisfies(role: BudgetRole, min_role: BudgetRole) -> bool {
    match min_role {
        BudgetRole::Viewer => role != BudgetRole::Unspecified,
        BudgetRole::Contributor => role == BudgetRole::Owner || role == BudgetRole::Manager || role
            == BudgetRole::Contributor,
        BudgetRole::Manager => role == BudgetRole::Owner || role == BudgetRole::Manager,
        BudgetRole::Owner => role == BudgetRole::Owner,
        BudgetRole::Unspecified => true,
    }
}

/// The roles form the ladder viewer < contributor < manager < owner, with
/// no role below them all: an owner meets every minimum, no role meets a
/// minimum above it, and each meets every minimum below it.
pub proof fn lemma_role_ladder(a: BudgetRole, b: BudgetRole, c: BudgetRole)
    ensures
        spec_role_satisfies(BudgetRole::Owner, a),
        spec_role_satisfies(a, BudgetRole::Unspecified),
        spec_role_satisfies(BudgetRole::Unspecified, a) <==> a == BudgetRole::Unspecified,
        spec_role_satisfies(BudgetRole::Manager, BudgetRole::Contributor),
        spec_role_satisfies(BudgetRole::Contributor, BudgetRole::Viewer),
        !spec_role_satisfies(BudgetRole::Viewer, BudgetRole::Contributor),
        !spec_role_satisfies(BudgetRole::Contributor, BudgetRole::Manager),
        !spec_role_satisfies(BudgetRole::Manager, BudgetRole::Owner),
        spec_role_satisfies(a, a),
        spec_role_satisfies(a, b) && spec_role_satisfies(b, c) ==> spec_role_satisfies(a, c),
        spec_role_satisfies(a, b) && spec_role_satisfies(b, a) ==> a == b,
        spec_role_satisfies(a, b) || spec_role_satisfies(b, a),
{
}

/// Whether `role` is at least `min_role`.
pub fn role_satisfies(role: BudgetRole, min_role: BudgetRole) -> (r: bool)
    ensures
        r == spec_role_satisfies(role, min_role),
{
    match min_role {
        BudgetRole::Viewer => role != BudgetRole::Unspecified,
        BudgetRole::Contributor => role == BudgetRole::Owner || role == BudgetRole::Manager || role
            == BudgetRole::Contributor,
        BudgetRole::Manager => role == BudgetRole::Owner || role == BudgetRole::Manager,
        BudgetRole::Owner => role == BudgetRole::Owner,
        BudgetRole::Unspecified => true,
    }
}

/// A role satisfies a minimum exactly when it ranks at least as high: the
/// roles form a ladder.
pub proof fn lemma_role_satisfies_is_rank(role: BudgetRole, min_role: BudgetRole)
    ensures
        spec_role_satisfies(role, min_role) == (role_rank(role) >= role_rank(min_role)),
{
}

/// The name of a role as the refusal message writes it.
pub open spec fn spec_role_name(r: BudgetRole) -> Seq<char> {
    match r {
        BudgetRole::Unspecified => "Unspecified"@,
        BudgetRole::Owner => "Owner"@,
        BudgetRole::Manager => "Manager"@,
        BudgetRole::Contributor => "Contributor"@,
        BudgetRole::Viewer => "Viewer"@,
    }
}

fn role_name(r: BudgetRole) -> (s: &'static str)
    ensures
        s@ == spec_role_name(r),
{
    match r {
        BudgetRole::Unspecified => "Unspecified",
        BudgetRole::Owner => "Owner",
        BudgetRole::Manager => "Manager",
        BudgetRole::Contributor => "Contributor",
        BudgetRole::Viewer => "Viewer",
    }
}

/// Allows a caller whose role is at least `min_role`; refuses anyone else
/// with "Requires {role} role or higher".
pub fn assert_min_role(role: BudgetRole, min_role: BudgetRole) -> (r: Result<(), Status>)
    ensures
        spec_role_satisfies(role, min_role) ==> r is Ok,
        !spec_role_satisfies(role, min_role) ==> (r matches Err(s) && is_status(
            s,
            Code::PermissionDenied,
            "Requires "@ + spec_role_name(min_role) + " role or higher"@,
        )),
{
    if role_satisfies(role, min_role) {
        return Ok(());
    }
    let msg = String::from_str("Requires ").concat(role_name(min_role)).concat(" role or higher");
    Err(Status { code: Code::PermissionDenied, message: msg })
}

/// Allows any caller with a role; refuses anyone without.
pub fn assert_member(role: BudgetRole) -> (r: Result<(), Status>)
    ensures
        role != BudgetRole::Unspecified ==> r is Ok,
        role == BudgetRole::Unspecified ==> (r matches Err(s) && is_status(
            s,
            Code::PermissionDenied,
            "Not a member of this budget"@,
        )),
{
    if role == BudgetRole::Unspecified {
        return Err(Status::permission_denied("Not a member of this budget"));
    }
    Ok(())
}

/// The role and whether it makes the caller a member.
pub fn check_role(role: BudgetRole) -> (r: (BudgetRole, bool))
    ensures
        r == (role, role != BudgetRole::Unspecified),
{
    (role, role != BudgetRole::Unspecified)
}

/// The stored text of the caller's role when reading a budget; empty for
/// no role.
pub fn role_label(role: BudgetRole) -> (r: &'static str)
    ensures
        role != BudgetRole::Unspecified ==> r@ == spec_budget_role_to_db(role),
        role == BudgetRole::Unspecified ==> r@ == Seq::<char>::empty(),
{
    proof {
        reveal_strlit("");
    }
    match role {
        BudgetRole::Owner => "owner",
        BudgetRole::Manager => "manager",
        BudgetRole::Contributor => "contributor",
        BudgetRole::Viewer => "viewer",
        BudgetRole::Unspecified => "",
    }
}

// ---------------------------------------------------------------------------
// Members
// ---------------------------------------------------------------------------

/// A member may be added with any role but owner: ownership is transferred,
/// not assigned.
pub fn check_add_member_role(role: BudgetRole) -> (r: Result<(), Status>)
    ensures
        role != BudgetRole::Owner ==> r is Ok,
        role == BudgetRole::Owner ==> (r matches Err(s) && is_status(
            s,
            Code::InvalidArgument,
            "Cannot directly assign Owner role; use transfer ownership"@,
        )),
{
    if role == BudgetRole::Owner {
        return Err(Status::invalid_argument("Cannot directly assign Owner role; use transfer ownership"));
    }
    Ok(())
}

/// A member's role may be changed to any role but owner.
pub fn check_update_member_role(role: BudgetRole) -> (r: Result<(), Status>)
    ensures
        role != BudgetRole::Owner ==> r is Ok,
        role == BudgetRole::Owner ==> (r matches Err(s) && is_status(
            s,
            Code::InvalidArgument,
            "Cannot assign Owner role directly"@,
        )),
{
    if role == BudgetRole::Owner {
        return Err(Status::invalid_argument("Cannot assign Owner role directly"));
    }
    Ok(())
}

/// Any member but the owner may be removed.
pub fn check_remove_member(target_role: Option<BudgetRole>) -> (r: Result<(), Status>)
    ensures
        target_role != Some(BudgetRole::Owner) ==> r is Ok,
        target_role == Some(BudgetRole::Owner) ==> (r matches Err(s) && is_status(
            s,
            Code::PermissionDenied,
            "Cannot remove the budget owner"@,
        )),
{
    if target_role == Some(BudgetRole::Owner) {
        return Err(Status::permission_denied("Cannot remove the budget owner"));
    }
    Ok(())
}

/// The organisation member with id `user_id` among `users`: the last one
/// listed, as a map built from the list keeps it; members without an id
/// are never found.
pub open spec fn spec_find_org_user(users: Seq<OrgUserInfo>, user_id: Seq<char>) -> Option<int>
    decreases users.len(),
{
    if users.len() == 0 {
        None
    } else if users.last().user_id@.len() > 0 && users.last().user_id@ == user_id {
        Some(users.len() - 1)
    } else {
        spec_find_org_user(users.drop_last(), user_id)
    }
}

/// Index of the organisation member with id `user_id`.
pub fn find_org_user(users: &[OrgUserInfo], user_id: &str) -> (r: Option<usize>)
    ensures
        match r {
            Some(i) => spec_find_org_user(users@, user_id@) == Some(i as int),
            None => spec_find_org_user(users@, user_id@) is None,
        },
{
    let mut i: usize = users.len();
    proof {
        assert(users@.take(users@.len() as int) =~= users@);
    }
    while i > 0
        invariant
            i <= users@.len(),
            spec_find_org_user(users@, user_id@) == spec_find_org_user(users@.take(i as int), user_id@),
        decreases i,
    {
        proof {
            assert(users@.take(i as int).drop_last() =~= users@.take(i as int - 1));
            assert(users@.take(i as int).last() == users@[i as int - 1]);
        }
        let u = &users[i - 1];
        if u.user_id.as_str().unicode_len() > 0 && str_eq(u.user_id.as_str(), user_id) {
            return Some(i - 1);
        }
        i = i - 1;
    }
    None
}

/// `m` is the member row `db` as a wire message, with the non-empty fields
/// of the organisation profile `enriched` in place of the row's.
pub open spec fn member_enriched_as(m: BudgetMember, db: DbBudgetMember, enriched: Option<OrgUserInfo>) -> bool {
    &&& m.budget_id == db.budget_id
    &&& m.user_id == db.user_id
    &&& m.role == spec_budget_role_from_db(db.role@).spec_code()
    &&& m.email@ == match enriched {
        Some(u) => if u.email@.len() > 0 {
            u.email@
        } else {
            text_or(db.email, db.user_id@)
        },
        None => text_or(db.email, db.user_id@),
    }
    &&& m.display_name@ == match enriched {
        Some(u) => if u.display_name@.len() > 0 {
            u.display_name@
        } else {
            text_or(db.display_name, db.user_id@)
        },
        None => text_or(db.display_name, db.user_id@),
    }
    &&& m.avatar@ == match enriched {
        Some(u) => if u.avatar@.len() > 0 {
            u.avatar@
        } else {
            opt_text(db.avatar)
        },
        None => opt_text(db.avatar),
    }
}

/// A member row as a wire message, with the profile that the identity
/// service lists for the member: its non-empty display name, email and
/// avatar take the place of the row's (the member database cannot join
/// the users table); without it, or for an empty profile field, the row's
/// value stands, and a member without any falls back to the user id.
pub fn map_budget_member_with(db: DbBudgetMember, enriched: Option<&OrgUserInfo>) -> (r: BudgetMember)
    ensures
        member_enriched_as(r, db, match enriched {
            Some(u) => Some(*u),
            None => None,
        }),
{
    let mut m = map_budget_member(db);
    match enriched {
        Some(u) => {
            if u.email.as_str().unicode_len() > 0 {
                m.email = u.email.clone();
            }
            if u.display_name.as_str().unicode_len() > 0 {
                m.display_name = u.display_name.clone();
            }
            if u.avatar.as_str().unicode_len() > 0 {
                m.avatar = u.avatar.clone();
            }
        },
        None => {},
    }
    m
}

fn copy_opt_text(o: &Option<String>) -> (r: Option<String>)
    ensures
        r == *o,
{
    match o {
        Some(t) => Some(t.clone()),
        None => None,
    }
}

fn copy_member_row(m: &DbBudgetMember) -> (r: DbBudgetMember)
    ensures
        r == *m,
{
    DbBudgetMember {
        budget_id: m.budget_id.clone(),
        user_id: m.user_id.clone(),
        role: m.role.clone(),
        display_name: copy_opt_text(&m.display_name),
        email: copy_opt_text(&m.email),
        avatar: copy_opt_text(&m.avatar),
    }
}

proof fn lemma_find_org_user_in_bounds(users: Seq<OrgUserInfo>, user_id: Seq<char>)
    ensures
        spec_find_org_user(users, user_id) matches Some(i) ==> 0 <= i < users.len(),
    decreases users.len(),
{
    if users.len() > 0 {
        lemma_find_org_user_in_bounds(users.drop_last(), user_id);
    }
}

/// The organisation profile found for `user_id` among `users`.
pub open spec fn profile_of(users: Seq<OrgUserInfo>, user_id: Seq<char>) -> Option<OrgUserInfo> {
    match spec_find_org_user(users, user_id) {
        Some(i) => Some(users[i]),
        None => None,
    }
}

/// The member rows of a budget as wire messages, each enriched with the
/// organisation profile of its user; a failed profile lookup is an empty
/// `org_users`, which leaves the rows as stored.
pub fn enrich_members(rows: Vec<DbBudgetMember>, org_users: &[OrgUserInfo]) -> (r: Vec<BudgetMember>)
    ensures
        r@.len() == rows@.len(),
        forall|i: int|
            0 <= i < rows@.len() ==> member_enriched_as(
                #[trigger] r@[i],
                rows@[i],
                profile_of(org_users@, rows@[i].user_id@),
            ),
{
    let mut out: Vec<BudgetMember> = Vec::new();
    let mut i: usize = 0;
    while i < rows.len()
        invariant
            i <= rows@.len(),
            out@.len() == i,
            forall|k: int|
                0 <= k < i ==> member_enriched_as(
                    #[trigger] out@[k],
                    rows@[k],
                    profile_of(org_users@, rows@[k].user_id@),
                ),
        decreases rows@.len() - i,
    {
        let row = copy_member_row(&rows[i]);
        let found = find_org_user(org_users, row.user_id.as_str());
        proof {
            lemma_find_org_user_in_bounds(org_users@, row.user_id@);
        }
        let m = match found {
            Some(j) => map_budget_member_with(row, Some(&org_users[j])),
            None => map_budget_member_with(row, None),
        };
        out.push(m);
        i = i + 1;
    }
    out
}

// ---------------------------------------------------------------------------
// Listing
// ---------------------------------------------------------------------------

/// A budget listing as the repository runs it: filters reduced to stored
/// text, empty filters dropped, the page bounded.
#[derive(Debug, Clone)]
pub struct BudgetListQuery {
    pub q: Option<String>,
    pub budget_type: Option<&'static str>,
    pub role: Option<&'static str>,
    pub sort_by: Option<String>,
    pub sort_dir: Option<String>,
    pub page: i32,
    pub page_size: i32,
}

/// A text filter that is present and not empty.
pub open spec fn spec_non_empty(o: Option<String>) -> Option<Seq<char>> {
    match o {
        Some(s) => if s@.len() > 0 {
            Some(s@)
        } else {
            None
        },
        None => None,
    }
}

fn non_empty(o: Option<String>) -> (r: Option<String>)
    ensures
        match r {
            Some(s) => spec_non_empty(o) == Some(s@),
            None => spec_non_empty(o) is None,
        },
{
    match o {
        Some(s) => if s.as_str().unicode_len() > 0 {
            Some(s)
        } else {
            None
        },
        None => None,
    }
}

/// The stored text of a budget type filter: a known, specified type.
pub open spec fn spec_type_filter(t: Option<i32>) -> Option<Seq<char>> {
    match t {
        Some(v) => if v != 0 {
            match BudgetType::spec_from_code(v) {
                Some(bt) => if bt != BudgetType::Unspecified {
                    Some(spec_budget_type_to_db(bt))
                } else {
                    None
                },
                None => None,
            }
        } else {
            None
        },
        None => None,
    }
}

/// The stored text of a role filter: a known, specified role.
pub open spec fn spec_role_filter(r: Option<i32>) -> Option<Seq<char>> {
    match r {
        Some(v) => if v != 0 {
            match BudgetRole::spec_from_code(v) {
                Some(br) => if br != BudgetRole::Unspecified {
                    Some(spec_budget_role_to_db(br))
                } else {
                    None
                },
                None => None,
            }
        } else {
            None
        },
        None => None,
    }
}

/// The page asked for: 1 when missing, never below 1.
pub open spec fn spec_page(page: Option<i32>) -> int {
    let p = match page {
        Some(v) => v as int,
        None => 1,
    };
    if p < 1 {
        1
    } else {
        p
    }
}

/// The page size asked for: 20 when missing, within 1 to 100.
pub open spec fn spec_page_size(page_size: Option<i32>) -> int {
    let p = match page_size {
        Some(v) => v as int,
        None => 20,
    };
    if p < 1 {
        1
    } else if p > 100 {
        100
    } else {
        p
    }
}

/// A search or sort text is kept exactly when it is given and not empty.
pub proof fn lemma_listing_texts(t: Option<String>)
    ensures
        (t matches Some(x) && x@.len() > 0) ==> spec_non_empty(t) == Some(t.unwrap()@),
        !(t matches Some(x) && x@.len() > 0) ==> spec_non_empty(t) is None,
{
}

/// A type or role filter of code 0 (or none) filters nothing.
pub proof fn lemma_listing_unset_filters(v: Option<i32>)
    ensures
        (v is None || v == Some(0i32)) ==> spec_type_filter(v) is None && spec_role_filter(v) is None,
{
}

/// A listing shows the page that was asked for when it is at least 1, and
/// the first page when none or a smaller one was asked for; a page size
/// from 1 to 100 is kept, a larger one is cut to 100, a smaller one raised
/// to 1, and a missing one is 20.
pub proof fn lemma_listing_paging(v: i32)
    ensures
        v >= 1 ==> spec_page(Some(v)) == v,
        v < 1 ==> spec_page(Some(v)) == 1,
        spec_page(None) == 1,
        1 <= v <= 100 ==> spec_page_size(Some(v)) == v,
        v > 100 ==> spec_page_size(Some(v)) == 100,
        v < 1 ==> spec_page_size(Some(v)) == 1,
        spec_page_size(None) == 20,
{
}

/// Reduces listing parameters to the query the repository runs: empty
/// search and sort texts are dropped, type and role filters are kept only
/// for a known, specified value (as stored text), the page is at least 1
/// and the page size within 1 to 100 (20 by default).
pub fn budget_list_query(params: ListBudgetParams) -> (r: BudgetListQuery)
    ensures
        match r.q {
            Some(s) => spec_non_empty(params.q) == Some(s@),
            None => spec_non_empty(params.q) is None,
        },
        match r.budget_type {
            Some(s) => spec_type_filter(params.budget_type) == Some(s@),
            None => spec_type_filter(params.budget_type) is None,
        },
        match r.role {
            Some(s) => spec_role_filter(params.role) == Some(s@),
            None => spec_role_filter(params.role) is None,
        },
        match r.sort_by {
            Some(s) => spec_non_empty(params.sort_by) == Some(s@),
            None => spec_non_empty(params.sort_by) is None,
        },
        match r.sort_dir {
            Some(s) => spec_non_empty(params.sort_dir) == Some(s@),
            None => spec_non_empty(params.sort_dir) is None,
        },
        r.page == spec_page(params.page),
        r.page_size == spec_page_size(params.page_size),
{
    let page: i32 = match params.page {
        Some(v) => if v < 1 {
            1
        } else {
            v
        },
        None => 1,
    };
    let page_size: i32 = match params.page_size {
        Some(v) => if v < 1 {
            1
        } else if v > 100 {
            100
        } else {
            v
        },
        None => 20,
    };
    let budget_type = match params.budget_type {
        Some(v) => if v != 0 {
            match BudgetType::from_code(v) {
                Some(bt) => if bt != BudgetType::Unspecified {
                    Some(budget_type_to_db(bt))
                } else {
                    None
                },
                None => None,
            }
        } else {
            None
        },
        None => None,
    };
    let role = match params.role {
        Some(v) => if v != 0 {
            match BudgetRole::from_code(v) {
                Some(br) => if br != BudgetRole::Unspecified {
                    Some(budget_role_to_db(br))
                } else {
                    None
                },
                None => None,
            }
        } else {
            None
        },
        None => None,
    };
    BudgetListQuery {
        q: non_empty(params.q),
        budget_type,
        role,
        sort_by: non_empty(params.sort_by),
        sort_dir: non_empty(params.sort_dir),
        page,
        page_size,
    }
}

/// The pages that `total` rows fill at `page_size` rows a page (none for
/// no rows), as a wire number.
pub open spec fn spec_total_pages(total: i64, page_size: i32) -> int {
    if total == 0 {
        0
    } else {
        div_trunc(total + page_size - 1, page_size as int)
    }
}

/// The paging block of a listing.
pub fn page_meta(page: i32, page_size: i32, total: i64) -> (r: PageMeta)
    requires
        1 <= page_size <= 100,
        total + page_size <= i64::MAX,
    ensures
        r.page == page,
        r.page_size == page_size,
        r.total_pages == spec_total_pages(total, page_size) as i32,
        r.total_rows == total,
        total > 0 && spec_total_pages(total, page_size) <= i32::MAX ==> (r.total_pages - 1)
            * page_size < total <= r.total_pages * page_size,
{
    let total_pages: i32 = if total == 0 {
        0
    } else {
        let n = crate::manager::repository::fx_rates::div_toward_zero(
            total + page_size as i64 - 1,
            page_size as i64,
        );
        proof {
            let d = page_size as int;
            let x = total + d - 1;
            if x >= 0 {
                vstd::arithmetic::div_mod::lemma_fundamental_div_mod(x, d);
                vstd::arithmetic::div_mod::lemma_mod_bound(x, d);
                let q = x / d;
                assert((q - 1) * d < total <= q * d) by (nonlinear_arith)
                    requires
                        x == d * q + x % d,
                        0 <= x % d < d,
                        x == total + d - 1,
                ;
            }
        }
        #[verifier::truncate]
        (n as i32)
    };
    PageMeta { page, page_size, total_pages, total_rows: total }
}

// ---------------------------------------------------------------------------
// Envelope
// ---------------------------------------------------------------------------

/// A budget's envelope: the limit is exceeded once a positive limit is
/// reached by the month's spend.
pub fn build_envelope(budget_id: &str, monthly_limit: i64, current_spend: i64) -> (r: EnvelopeLimit)
    ensures
        r.budget_id@ == budget_id@,
        r.monthly_limit == monthly_limit,
        r.current_spend == current_spend,
        r.limit_exceeded == (monthly_limit > 0 && current_spend >= monthly_limit),
{
    EnvelopeLimit {
        budget_id: String::from_str(budget_id),
        monthly_limit,
        current_spend,
        limit_exceeded: monthly_limit > 0 && current_spend >= monthly_limit,
    }
}

/// Whether a year is a leap year in the Gregorian calendar.
pub open spec fn is_leap_year(year: int) -> bool {
    year % 4 == 0 && (year % 100 != 0 || year % 400 == 0)
}

pub open spec fn spec_days_in_month(year: int, month: int) -> int {
    if month == 1 || month == 3 || month == 5 || month == 7 || month == 8 || month == 10 || month
        == 12 {
        31
    } else if month == 4 || month == 6 || month == 9 || month == 11 {
        30
    } else if month == 2 {
        if is_leap_year(year) {
            29
        } else {
            28
        }
    } else {
        30
    }
}

/// Days in a month of a year; 30 for a month number out of range.
pub fn days_in_month(year: i32, month: i32) -> (r: i32)
    ensures
        r == spec_days_in_month(year as int, month as int),
        28 <= r <= 31,
{
    if month == 1 || month == 3 || month == 5 || month == 7 || month == 8 || month == 10 || month
        == 12 {
        31
    } else if month == 4 || month == 6 || month == 9 || month == 11 {
        30
    } else if month == 2 {
        if year % 4 == 0 && (year % 100 != 0 || year % 400 == 0) {
            29
        } else {
            28
        }
    } else {
        30
    }
}

// ---------------------------------------------------------------------------
// Templates and legacy price snapshots
// ---------------------------------------------------------------------------

/// A template row as a wire message.
pub fn map_template(t: DbTemplate) -> (r: BudgetTemplate)
    ensures
        r.id == t.id,
        r.name == t.name,
        r.description@ == opt_text(t.description),
        r.budget_type == spec_budget_type_from_db(t.budget_type@).spec_code(),
{
    let bt = budget_type_from_db(t.budget_type.as_str());
    BudgetTemplate {
        id: t.id,
        name: t.name,
        description: string_or_empty(t.description),
        budget_type: bt.code(),
    }
}

/// How many price snapshots a listing returns: between 1 and 365.
pub fn snapshot_limit(limit: i32) -> (r: i32)
    ensures
        r == if limit < 1 {
            1
        } else if limit > 365 {
            365
        } else {
            limit as int
        },
{
    if limit < 1 {
        1
    } else if limit > 365 {
        365
    } else {
        limit
    }
}

/// The date a snapshot is recorded for: the given one, or today's when
/// none is given.
pub fn snapshot_date_or_today(snapshot_date: &str, today: &str) -> (r: String)
    ensures
        snapshot_date@.len() > 0 ==> r@ == snapshot_date@,
        snapshot_date@.len() == 0 ==> r@ == today@,
{
    if snapshot_date.unicode_len() == 0 {
        String::from_str(today)
    } else {
        String::from_str(snapshot_date)
    }
}

} // verus!
