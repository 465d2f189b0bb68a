use budget::converters::DbBudgetMember;
use budget::manager::biz::{
    assert_member, assert_min_role, budget_list_query, build_envelope, check_add_member_role,
    check_remove_member, check_role, check_update_member_role, days_in_month, find_org_user,
    map_budget_member_with, page_meta, resolve_role, resolve_role_on_member, resolve_role_on_org,
    resolve_role_on_org_id, resolve_role_on_privacy, resolve_role_start, role_label, role_satisfies, snapshot_date_or_today,
    snapshot_limit, RoleProgress, RoleQuery,
};
use budget::manager::client::{is_super_admin_from_type, OrgUserInfo};
use budget::pb::service::budget::{BudgetRole, BudgetType, ListBudgetParams};
use budget::pb::shared::organization::OrgRole;
use budget::status::Code;

#[test]
fn resolve_role_grants_owner_for_super_admin() {
    let role = resolve_role(Some("super_admin"), None, true, None, OrgRole::OrNone).unwrap();
    assert!(matches!(role, BudgetRole::Owner), "got {:?}", role);
}

#[test]
fn resolve_role_does_not_grant_owner_for_normal_user() {
    let role = resolve_role(Some("normal"), None, false, Some("org"), OrgRole::OrMember).unwrap();
    assert!(!matches!(role, BudgetRole::Owner), "got {:?}", role);
}

#[test]
fn resolve_role_steps() {
    assert_eq!(resolve_role_start(Some("super_admin")), RoleProgress::Decided(BudgetRole::Owner));
    assert_eq!(resolve_role_start(None), RoleProgress::Needs(RoleQuery::MemberRole));
    assert_eq!(resolve_role_on_member(Some(BudgetRole::Viewer)), RoleProgress::Decided(BudgetRole::Viewer));
    assert_eq!(resolve_role_on_member(None), RoleProgress::Needs(RoleQuery::IsPrivate));
    assert_eq!(resolve_role_on_privacy(true), RoleProgress::Decided(BudgetRole::Unspecified));
    assert_eq!(resolve_role_on_privacy(false), RoleProgress::Needs(RoleQuery::OrgId));
    assert_eq!(resolve_role_on_org_id(Some("o1")).unwrap(), RoleProgress::Needs(RoleQuery::OrgRole));
    let e = resolve_role_on_org_id(None).unwrap_err();
    assert_eq!(e.code, Code::NotFound);
    assert_eq!(e.message, "Budget not found");
    assert_eq!(resolve_role_on_org(OrgRole::OrOwner), BudgetRole::Owner);
    assert_eq!(resolve_role_on_org(OrgRole::OrAdmin), BudgetRole::Manager);
    assert_eq!(resolve_role_on_org(OrgRole::OrMember), BudgetRole::Unspecified);
    assert_eq!(resolve_role(None, Some(BudgetRole::Contributor), true, None, OrgRole::OrOwner).unwrap(), BudgetRole::Contributor);
    assert_eq!(resolve_role(None, None, true, None, OrgRole::OrOwner).unwrap(), BudgetRole::Unspecified);
    assert_eq!(resolve_role(None, None, false, Some("o1"), OrgRole::OrAdmin).unwrap(), BudgetRole::Manager);
    assert_eq!(resolve_role(None, None, false, None, OrgRole::OrAdmin).unwrap_err().code, Code::NotFound);
    assert!(is_super_admin_from_type(Some("super_admin")));
    assert!(!is_super_admin_from_type(Some("admin")));
    assert!(!is_super_admin_from_type(None));
}

#[test]
fn minimum_roles_form_a_ladder() {
    assert!(role_satisfies(BudgetRole::Owner, BudgetRole::Manager));
    assert!(!role_satisfies(BudgetRole::Contributor, BudgetRole::Manager));
    assert!(role_satisfies(BudgetRole::Viewer, BudgetRole::Viewer));
    assert!(!role_satisfies(BudgetRole::Unspecified, BudgetRole::Viewer));
    assert!(role_satisfies(BudgetRole::Unspecified, BudgetRole::Unspecified));
    let err = assert_min_role(BudgetRole::Viewer, BudgetRole::Manager).unwrap_err();
    assert_eq!(err.code, Code::PermissionDenied);
    assert_eq!(err.message, "Requires Manager role or higher");
    assert!(assert_min_role(BudgetRole::Manager, BudgetRole::Contributor).is_ok());
    assert_eq!(assert_member(BudgetRole::Unspecified).unwrap_err().message, "Not a member of this budget");
    assert!(assert_member(BudgetRole::Viewer).is_ok());
    assert_eq!(check_role(BudgetRole::Viewer), (BudgetRole::Viewer, true));
    assert_eq!(check_role(BudgetRole::Unspecified), (BudgetRole::Unspecified, false));
    assert_eq!(role_label(BudgetRole::Contributor), "contributor");
    assert_eq!(role_label(BudgetRole::Unspecified), "");
}

#[test]
fn owner_is_never_assigned_or_removed() {
    assert_eq!(
        check_add_member_role(BudgetRole::Owner).unwrap_err().message,
        "Cannot directly assign Owner role; use transfer ownership"
    );
    assert!(check_add_member_role(BudgetRole::Viewer).is_ok());
    assert_eq!(check_update_member_role(BudgetRole::Owner).unwrap_err().code, Code::InvalidArgument);
    assert_eq!(
        check_remove_member(Some(BudgetRole::Owner)).unwrap_err().message,
        "Cannot remove the budget owner"
    );
    assert!(check_remove_member(None).is_ok());
    assert!(check_remove_member(Some(BudgetRole::Manager)).is_ok());
}

#[test]
fn listing_parameters_are_normalised() {
    let q = budget_list_query(ListBudgetParams {
        q: Some(String::new()),
        budget_type: Some(BudgetType::Saving.code()),
        role: Some(0),
        sort_by: Some("name".into()),
        sort_dir: None,
        page: Some(0),
        page_size: Some(500),
    });
    assert_eq!(q.q, None);
    assert_eq!(q.budget_type, Some("saving"));
    assert_eq!(q.role, None);
    assert_eq!(q.sort_by.as_deref(), Some("name"));
    assert_eq!(q.page, 1);
    assert_eq!(q.page_size, 100);
    let d = budget_list_query(ListBudgetParams {
        q: Some("food".into()),
        budget_type: Some(99),
        role: Some(BudgetRole::Viewer.code()),
        sort_by: None,
        sort_dir: Some("asc".into()),
        page: None,
        page_size: None,
    });
    assert_eq!(d.q.as_deref(), Some("food"));
    assert_eq!(d.budget_type, None);
    assert_eq!(d.role, Some("viewer"));
    assert_eq!(d.page, 1);
    assert_eq!(d.page_size, 20);
}

#[test]
fn pages_cover_all_rows() {
    let m = page_meta(2, 20, 41);
    assert_eq!(m.total_pages, 3);
    assert_eq!(m.total_rows, 41);
    assert_eq!(page_meta(1, 20, 0).total_pages, 0);
    assert_eq!(page_meta(1, 20, 40).total_pages, 2);
    // a page count past i32 wraps as the cast does
    let huge = page_meta(1, 1, (i32::MAX as i64) + 1);
    assert_eq!(huge.total_pages, i32::MIN);
}

#[test]
fn envelope_and_calendar() {
    let e = build_envelope("b1", 1000, 1000);
    assert!(e.limit_exceeded);
    assert!(!build_envelope("b1", 0, 5000).limit_exceeded);
    assert!(!build_envelope("b1", 1000, 999).limit_exceeded);
    assert_eq!(days_in_month(2024, 2), 29);
    assert_eq!(days_in_month(1900, 2), 28);
    assert_eq!(days_in_month(2000, 2), 29);
    assert_eq!(days_in_month(2023, 4), 30);
    assert_eq!(days_in_month(2023, 12), 31);
    assert_eq!(days_in_month(2023, 13), 30);
    assert_eq!(snapshot_limit(0), 1);
    assert_eq!(snapshot_limit(1000), 365);
    assert_eq!(snapshot_limit(30), 30);
    assert_eq!(snapshot_date_or_today("", "2024-01-02"), "2024-01-02");
    assert_eq!(snapshot_date_or_today("2023-05-06", "2024-01-02"), "2023-05-06");
}

#[test]
fn members_are_enriched_from_identity() {
    let users = vec![
        OrgUserInfo { user_id: "".into(), display_name: "nobody".into(), email: "".into(), avatar: "".into() },
        OrgUserInfo { user_id: "u1".into(), display_name: "Old".into(), email: "old@x".into(), avatar: "".into() },
        OrgUserInfo { user_id: "u1".into(), display_name: "Ann".into(), email: "".into(), avatar: "pic".into() },
    ];
    assert_eq!(find_org_user(&users, "u1"), Some(2));
    assert_eq!(find_org_user(&users, ""), None);
    assert_eq!(find_org_user(&users, "u2"), None);
    let row = DbBudgetMember {
        budget_id: "b".into(),
        user_id: "u1".into(),
        role: "viewer".into(),
        display_name: None,
        email: Some("row@x".into()),
        avatar: None,
    };
    let m = map_budget_member_with(row, Some(&users[2]));
    assert_eq!(m.display_name, "Ann");
    assert_eq!(m.email, "row@x");
    assert_eq!(m.avatar, "pic");
}
