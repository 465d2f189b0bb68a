//! The statement that updates a legacy investment asset: only the fields
//! that were given are set, in a fixed column order, after `updated_at`.

use vstd::prelude::*;

verus! {

/// `, column = ?` when the column is set, else nothing.
pub open spec fn assignment(present: bool, column: Seq<char>) -> Seq<char> {
    if present {
        ", "@ + column + " = ?"@
    } else {
        Seq::empty()
    }
}

fn push_assignment(sql: String, present: bool, column: &str) -> (r: String)
    ensures
        r@ == sql@ + assignment(present, column@),
{
    if present {
        sql.concat(", ").concat(column).concat(" = ?")
    } else {
        proof {
            assert(sql@ + Seq::<char>::empty() =~= sql@);
        }
        sql
    }
}

/// Which fields an update of an investment asset sets.
#[derive(Debug, Clone, Copy, PartialEq, Eq)]
pub struct InvestAssetFields {
    pub name: bool,
    pub annual_rate: bool,
    pub maturity_date: bool,
    pub bank_name: bool,
    pub quantity: bool,
    pub unit: bool,
    pub cost_basis_per_unit: bool,
    pub avg_cost_per_share: bool,
    pub notes: bool,
}

/// The `UPDATE` statement for the fields given; its placeholders are bound
/// with the update time, then each given field in this order, then the id.
pub fn invest_asset_update_sql(f: InvestAssetFields) -> (r: String)
    ensures
        r@ == "UPDATE invest_assets SET updated_at = ?"@ + assignment(f.name, "name"@) + assignment(
            f.annual_rate,
            "annual_rate"@,
        ) + assignment(f.maturity_date, "maturity_date"@) + assignment(f.bank_name, "bank_name"@)
            + assignment(f.quantity, "quantity"@) + assignment(f.unit, "unit"@) + assignment(
            f.cost_basis_per_unit,
            "cost_basis_per_unit"@,
        ) + assignment(f.avg_cost_per_share, "avg_cost_per_share"@) + assignment(
            f.notes,
            "notes"@,
        ) + " WHERE id = ? AND deleted_at IS NULL"@,
{
    let s = String::from_str("UPDATE invest_assets SET updated_at = ?");
    let s = push_assignment(s, f.name, "name");
    let s = push_assignment(s, f.annual_rate, "annual_rate");
    let s = push_assignment(s, f.maturity_date, "maturity_date");
    let s = push_assignment(s, f.bank_name, "bank_name");
    let s = push_assignment(s, f.quantity, "quantity");
    let s = push_assignment(s, f.unit, "unit");
    let s = push_assignment(s, f.cost_basis_per_unit, "cost_basis_per_unit");
    let s = push_assignment(s, f.avg_cost_per_share, "avg_cost_per_share");
    let s = push_assignment(s, f.notes, "notes");
    s.concat(" WHERE id = ? AND deleted_at IS NULL")
}

} // verus!
