//! The parts of the budget listing statements that depend on the request.

use vstd::prelude::*;

verus! {

/// `open + value + close` when a value is given, else nothing.
pub open spec fn clause_if_given(value: Seq<char>, open: Seq<char>, close: Seq<char>) -> Seq<char> {
    if value.len() == 0 {
        Seq::empty()
    } else {
        open + value + close
    }
}

fn push_clause(s: String, value: &str, open: &str, close: &str) -> (r: String)
    ensures
        r@ == s@ + clause_if_given(value@, open@, close@),
{
    if value.unicode_len() > 0 {
        s.concat(open).concat(value).concat(close)
    } else {
        proof {
            assert(s@ + Seq::<char>::empty() =~= s@);
        }
        s
    }
}

/// The conditions that the admin listing adds after
/// `WHERE b.deleted_at IS NULL`: the organisation, the budget type and the
/// name search, each only when given.
pub fn admin_budget_filters(org_id: &str, budget_type: &str, name_search: &str) -> (r: String)
    ensures
        r@ == clause_if_given(org_id@, " AND b.org_id = '"@, "'"@) + clause_if_given(
            budget_type@,
            " AND b.budget_type = '"@,
            "'"@,
        ) + clause_if_given(name_search@, " AND b.name LIKE '%"@, "%'"@),
{
    let s = String::new();
    let s = push_clause(s, org_id, " AND b.org_id = '", "'");
    let s = push_clause(s, budget_type, " AND b.budget_type = '", "'");
    let s = push_clause(s, name_search, " AND b.name LIKE '%", "%'");
    proof {
        assert(Seq::<char>::empty() + clause_if_given(org_id@, " AND b.org_id = '"@, "'"@)
            =~= clause_if_given(org_id@, " AND b.org_id = '"@, "'"@));
    }
    s
}

/// The number of rows before a page: `(page - 1) * page_size`.
pub fn page_offset(page: i32, page_size: i32) -> (r: i32)
    requires
        i32::MIN <= (page - 1) * page_size <= i32::MAX,
    ensures
        r == (page - 1) * page_size,
{
    if page == i32::MIN {
        proof {
            assert(page_size == 0) by (nonlinear_arith)
                requires
                    i32::MIN <= (page - 1) * page_size <= i32::MAX,
                    page == i32::MIN,
            ;
        }
        return 0;
    }
    (page - 1) * page_size
}

} // verus!
