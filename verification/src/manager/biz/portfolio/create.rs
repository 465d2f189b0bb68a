//! The decisions of creating a portfolio asset: the budget's currency lock,
//! the checks on each class's fields, the rows stored, and the payload of
//! the `CREATED` activity.

use crate::converters::portfolio::{
    AssetClassNew, NewActivity, NewCryptoLot, NewEtfLot, NewFixedDeposit, NewPortfolioAsset,
};
use crate::decimal::decimal_text;
use crate::status::{is_status, Code, Status};
use crate::text::{int_to_text, str_eq, trim_seq, trimmed_len_capped};
use vstd::prelude::*;

verus! {

/// `o` copied into an owned text, `None` staying `None`.
pub open spec fn copied(r: Option<String>, o: Option<&str>) -> bool {
    match o {
        Some(n) => r matches Some(x) && x@ == n@,
        None => r is None,
    }
}

fn copy_opt(o: Option<&str>) -> (r: Option<String>)
    ensures
        copied(r, o),
{
    match o {
        Some(n) => Some(String::from_str(n)),
        None => None,
    }
}

/// An asset may only be created in the currency of its budget.
/// `budget_currency` is the budget's currency, `None` when there is no
/// such budget.
pub fn check_currency_lock(budget_currency: Option<&str>, asset_currency: &str) -> (r: Result<(), Status>)
    ensures
        budget_currency is None ==> (r matches Err(s) && is_status(
            s,
            Code::NotFound,
            "budget not found"@,
        )),
        budget_currency matches Some(b) && b@ == asset_currency@ ==> r is Ok,
        budget_currency is Some && budget_currency.unwrap()@ != asset_currency@ ==> (r matches Err(
            s,
        ) && is_status(
            s,
            Code::InvalidArgument,
            "asset currency "@ + asset_currency@ + " does not match budget currency "@
                + budget_currency.unwrap()@,
        )),
{
    match budget_currency {
        None => Err(Status::not_found("budget not found")),
        Some(b) => {
            if str_eq(b, asset_currency) {
                Ok(())
            } else {
                let m = String::from_str("asset currency ").concat(asset_currency).concat(
                    " does not match budget currency ",
                ).concat(b);
                Err(Status::invalid_argument(m.as_str()))
            }
        },
    }
}

/// A display name is present when something other than white space is left.
fn has_display_name(display_name: &str) -> (r: bool)
    ensures
        r == (trim_seq(display_name@).len() > 0),
{
    let (empty, _) = trimmed_len_capped(display_name, 0);
    !empty
}

fn invalid(message: &str) -> (r: Result<(), Status>)
    ensures
        r matches Err(s) && is_status(s, Code::InvalidArgument, message@),
{
    Err(Status::invalid_argument(message))
}

/// The outcome of a field check: `Ok` when `error` is `None`, else the
/// invalid-argument error with that message.
pub open spec fn checked_as(r: Result<(), Status>, error: Option<Seq<char>>) -> bool {
    match error {
        None => r is Ok,
        Some(m) => r matches Err(s) && is_status(s, Code::InvalidArgument, m),
    }
}

/// The first failed check on a new savings account.
pub open spec fn savings_account_error(display_name: Seq<char>, current_balance: i64) -> Option<
    Seq<char>,
> {
    if trim_seq(display_name).len() == 0 {
        Some("display_name required"@)
    } else if current_balance < 0 {
        Some("current_balance must be >= 0"@)
    } else {
        None
    }
}

/// Checks the fields of a new savings account.
pub fn validate_savings_account(display_name: &str, current_balance: i64) -> (r: Result<(), Status>)
    ensures
        checked_as(r, savings_account_error(display_name@, current_balance)),
{
    if !has_display_name(display_name) {
        return invalid("display_name required");
    }
    if current_balance < 0 {
        return invalid("current_balance must be >= 0");
    }
    Ok(())
}

/// The first failed check on a new fixed deposit.
pub open spec fn fixed_deposit_error(
    display_name: Seq<char>,
    principal: i64,
    deposit_date: i64,
    maturity_date: i64,
) -> Option<Seq<char>> {
    if trim_seq(display_name).len() == 0 {
        Some("display_name required"@)
    } else if principal <= 0 {
        Some("principal must be > 0"@)
    } else if maturity_date <= deposit_date {
        Some("maturity_date must be after deposit_date"@)
    } else {
        None
    }
}

/// Checks the fields of a new fixed deposit.
pub fn validate_fixed_deposit(display_name: &str, principal: i64, deposit_date: i64, maturity_date: i64) -> (r: Result<(), Status>)
    ensures
        checked_as(r, fixed_deposit_error(display_name@, principal, deposit_date, maturity_date)),
{
    if !has_display_name(display_name) {
        return invalid("display_name required");
    }
    if principal <= 0 {
        return invalid("principal must be > 0");
    }
    if maturity_date <= deposit_date {
        return invalid("maturity_date must be after deposit_date");
    }
    Ok(())
}

/// The first failed check on a new gold lot.
pub open spec fn gold_lot_error(display_name: Seq<char>, purchase_cost: i64) -> Option<Seq<char>> {
    if trim_seq(display_name).len() == 0 {
        Some("display_name required"@)
    } else if purchase_cost <= 0 {
        Some("purchase_cost must be > 0"@)
    } else {
        None
    }
}

/// Checks the fields of a new gold lot.
pub fn validate_gold_lot(display_name: &str, purchase_cost: i64) -> (r: Result<(), Status>)
    ensures
        checked_as(r, gold_lot_error(display_name@, purchase_cost)),
{
    if !has_display_name(display_name) {
        return invalid("display_name required");
    }
    if purchase_cost <= 0 {
        return invalid("purchase_cost must be > 0");
    }
    Ok(())
}

/// The first failed check on a new stock lot.
pub open spec fn stock_lot_error(
    display_name: Seq<char>,
    buy_price_per_share: i64,
    ticker: Seq<char>,
    exchange: Seq<char>,
) -> Option<Seq<char>> {
    if trim_seq(display_name).len() == 0 {
        Some("display_name required"@)
    } else if buy_price_per_share <= 0 {
        Some("buy_price_per_share must be > 0"@)
    } else if ticker.len() == 0 {
        Some("ticker required"@)
    } else if exchange.len() == 0 {
        Some("exchange required"@)
    } else {
        None
    }
}

/// Checks the fields of a new stock lot.
pub fn validate_stock_lot(display_name: &str, buy_price_per_share: i64, ticker: &str, exchange: &str) -> (r: Result<(), Status>)
    ensures
        checked_as(r, stock_lot_error(display_name@, buy_price_per_share, ticker@, exchange@)),
{
    if !has_display_name(display_name) {
        return invalid("display_name required");
    }
    if buy_price_per_share <= 0 {
        return invalid("buy_price_per_share must be > 0");
    }
    if ticker.unicode_len() == 0 {
        return invalid("ticker required");
    }
    if exchange.unicode_len() == 0 {
        return invalid("exchange required");
    }
    Ok(())
}

/// The first failed check on a new ETF lot.
pub open spec fn etf_lot_error(
    display_name: Seq<char>,
    buy_price_per_unit: i64,
    ticker: Seq<char>,
    exchange: Seq<char>,
    underlying_index: Seq<char>,
    fund_provider: Seq<char>,
    purchase_cost: i64,
) -> Option<Seq<char>> {
    if trim_seq(display_name).len() == 0 {
        Some("display_name required"@)
    } else if buy_price_per_unit <= 0 {
        Some("buy_price_per_unit must be > 0"@)
    } else if ticker.len() == 0 {
        Some("ticker required"@)
    } else if exchange.len() == 0 {
        Some("exchange required"@)
    } else if underlying_index.len() == 0 {
        Some("underlying_index required"@)
    } else if fund_provider.len() == 0 {
        Some("fund_provider required"@)
    } else if purchase_cost <= 0 {
        Some("purchase_cost must be > 0"@)
    } else {
        None
    }
}

/// Checks the fields of a new ETF lot.
pub fn validate_etf_lot(
    display_name: &str,
    buy_price_per_unit: i64,
    ticker: &str,
    exchange: &str,
    underlying_index: &str,
    fund_provider: &str,
    purchase_cost: i64,
) -> (r: Result<(), Status>)
    ensures
        checked_as(
            r,
            etf_lot_error(
                display_name@,
                buy_price_per_unit,
                ticker@,
                exchange@,
                underlying_index@,
                fund_provider@,
                purchase_cost,
            ),
        ),
{
    if !has_display_name(display_name) {
        return invalid("display_name required");
    }
    if buy_price_per_unit <= 0 {
        return invalid("buy_price_per_unit must be > 0");
    }
    if ticker.unicode_len() == 0 {
        return invalid("ticker required");
    }
    if exchange.unicode_len() == 0 {
        return invalid("exchange required");
    }
    if underlying_index.unicode_len() == 0 {
        return invalid("underlying_index required");
    }
    if fund_provider.unicode_len() == 0 {
        return invalid("fund_provider required");
    }
    if purchase_cost <= 0 {
        return invalid("purchase_cost must be > 0");
    }
    Ok(())
}

/// The first failed check on a new crypto lot.
pub open spec fn crypto_lot_error(
    display_name: Seq<char>,
    buy_price_per_unit: i64,
    symbol: Seq<char>,
    network: Seq<char>,
    custody_wallet: Seq<char>,
    purchase_cost: i64,
) -> Option<Seq<char>> {
    if trim_seq(display_name).len() == 0 {
        Some("display_name required"@)
    } else if buy_price_per_unit <= 0 {
        Some("buy_price_per_unit must be > 0"@)
    } else if symbol.len() == 0 {
        Some("symbol required"@)
    } else if network.len() == 0 {
        Some("network required"@)
    } else if custody_wallet.len() == 0 {
        Some("custody_wallet required"@)
    } else if purchase_cost <= 0 {
        Some("purchase_cost must be > 0"@)
    } else {
        None
    }
}

/// Checks the fields of a new crypto lot.
pub fn validate_crypto_lot(
    display_name: &str,
    buy_price_per_unit: i64,
    symbol: &str,
    network: &str,
    custody_wallet: &str,
    purchase_cost: i64,
) -> (r: Result<(), Status>)
    ensures
        checked_as(
            r,
            crypto_lot_error(
                display_name@,
                buy_price_per_unit,
                symbol@,
                network@,
                custody_wallet@,
                purchase_cost,
            ),
        ),
{
    if !has_display_name(display_name) {
        return invalid("display_name required");
    }
    if buy_price_per_unit <= 0 {
        return invalid("buy_price_per_unit must be > 0");
    }
    if symbol.unicode_len() == 0 {
        return invalid("symbol required");
    }
    if network.unicode_len() == 0 {
        return invalid("network required");
    }
    if custody_wallet.unicode_len() == 0 {
        return invalid("custody_wallet required");
    }
    if purchase_cost <= 0 {
        return invalid("purchase_cost must be > 0");
    }
    Ok(())
}

/// The asset row of a new asset: no id yet, open, no legacy link.
pub fn new_asset_row(
    budget_id: &str,
    asset_class: AssetClassNew,
    display_name: &str,
    currency: &str,
    opened_on: i64,
    notes: Option<&str>,
    created_by: &str,
) -> (r: NewPortfolioAsset)
    ensures
        r.id is None,
        r.budget_id@ == budget_id@,
        r.asset_class == asset_class,
        r.display_name@ == display_name@,
        r.currency@ == currency@,
        r.opened_on == opened_on,
        r.closed_on is None,
        r.legacy_asset_id is None,
        copied(r.notes, notes),
        r.created_by@ == created_by@,
{
    NewPortfolioAsset {
        id: None,
        budget_id: String::from_str(budget_id),
        asset_class,
        display_name: String::from_str(display_name),
        currency: String::from_str(currency),
        opened_on,
        closed_on: None,
        legacy_asset_id: None,
        notes: copy_opt(notes),
        created_by: String::from_str(created_by),
    }
}

/// The activity appended to an asset's log at `occurred_at`: no id and no
/// correlation yet, the payload always present.
pub fn new_activity(
    budget_id: &str,
    asset_id: &str,
    actor: &str,
    idempotency_key: Option<&str>,
    activity_type: &str,
    payload_json: &str,
    occurred_at: i64,
) -> (r: NewActivity)
    ensures
        r.id is None,
        r.asset_id@ == asset_id@,
        r.budget_id@ == budget_id@,
        r.activity_type@ == activity_type@,
        r.actor_user_id@ == actor@,
        r.correlation_id is None,
        copied(r.idempotency_key, idempotency_key),
        r.occurred_at == occurred_at,
        r.payload_json matches Some(p) && p@ == payload_json@,
{
    NewActivity {
        id: None,
        asset_id: String::from_str(asset_id),
        budget_id: String::from_str(budget_id),
        activity_type: String::from_str(activity_type),
        actor_user_id: String::from_str(actor),
        correlation_id: None,
        idempotency_key: copy_opt(idempotency_key),
        occurred_at,
        payload_json: Some(String::from_str(payload_json)),
    }
}

/// The fixed deposit row of a new deposit: not a rollover, and the
/// certificate reference always stored.
pub fn new_fixed_deposit_row(
    provider: &str,
    product_name: &str,
    principal: i64,
    annual_rate: &str,
    interest_method: &str,
    payout_type: &str,
    deposit_date: i64,
    maturity_date: i64,
    auto_renewal_policy: &str,
    certificate_reference_masked: &str,
    notes: Option<&str>,
) -> (r: NewFixedDeposit)
    ensures
        r.provider@ == provider@,
        r.product_name@ == product_name@,
        r.principal == principal,
        r.annual_rate@ == annual_rate@,
        r.interest_method@ == interest_method@,
        r.payout_type@ == payout_type@,
        r.deposit_date == deposit_date,
        r.maturity_date == maturity_date,
        r.auto_renewal_policy@ == auto_renewal_policy@,
        r.rollover_from_asset_id is None,
        r.certificate_reference_masked matches Some(c) && c@ == certificate_reference_masked@,
        copied(r.notes, notes),
{
    NewFixedDeposit {
        provider: String::from_str(provider),
        product_name: String::from_str(product_name),
        principal,
        annual_rate: String::from_str(annual_rate),
        interest_method: String::from_str(interest_method),
        payout_type: String::from_str(payout_type),
        deposit_date,
        maturity_date,
        auto_renewal_policy: String::from_str(auto_renewal_policy),
        rollover_from_asset_id: None,
        certificate_reference_masked: Some(String::from_str(certificate_reference_masked)),
        notes: copy_opt(notes),
    }
}

/// The ETF lot row of a new lot: all that was bought is still open.
pub fn new_etf_lot_row(
    ticker: &str,
    exchange: &str,
    underlying_index: &str,
    fund_provider: &str,
    quantity_bought: &str,
    buy_price_per_unit: i64,
    purchase_cost: i64,
    fees: i64,
    purchase_date: i64,
    settlement_date: Option<i64>,
    notes: Option<&str>,
) -> (r: NewEtfLot)
    ensures
        r.ticker@ == ticker@,
        r.exchange@ == exchange@,
        r.underlying_index@ == underlying_index@,
        r.fund_provider@ == fund_provider@,
        r.quantity_bought@ == quantity_bought@,
        r.quantity_open@ == quantity_bought@,
        r.buy_price_per_unit == buy_price_per_unit,
        r.purchase_cost == purchase_cost,
        r.fees == fees,
        r.purchase_date == purchase_date,
        r.settlement_date == settlement_date,
        copied(r.notes, notes),
{
    NewEtfLot {
        ticker: String::from_str(ticker),
        exchange: String::from_str(exchange),
        underlying_index: String::from_str(underlying_index),
        fund_provider: String::from_str(fund_provider),
        quantity_bought: String::from_str(quantity_bought),
        quantity_open: String::from_str(quantity_bought),
        buy_price_per_unit,
        purchase_cost,
        fees,
        purchase_date,
        settlement_date,
        notes: copy_opt(notes),
    }
}

/// The crypto lot row of a new lot: all that was bought is still open.
pub fn new_crypto_lot_row(
    symbol: &str,
    network: &str,
    custody_wallet: &str,
    quantity_bought: &str,
    buy_price_per_unit: i64,
    purchase_cost: i64,
    fees: i64,
    purchase_date: i64,
    notes: Option<&str>,
) -> (r: NewCryptoLot)
    ensures
        r.symbol@ == symbol@,
        r.network@ == network@,
        r.custody_wallet@ == custody_wallet@,
        r.quantity_bought@ == quantity_bought@,
        r.quantity_open@ == quantity_bought@,
        r.buy_price_per_unit == buy_price_per_unit,
        r.purchase_cost == purchase_cost,
        r.fees == fees,
        r.purchase_date == purchase_date,
        copied(r.notes, notes),
{
    NewCryptoLot {
        symbol: String::from_str(symbol),
        network: String::from_str(network),
        custody_wallet: String::from_str(custody_wallet),
        quantity_bought: String::from_str(quantity_bought),
        quantity_open: String::from_str(quantity_bought),
        buy_price_per_unit,
        purchase_cost,
        fees,
        purchase_date,
        notes: copy_opt(notes),
    }
}

/// The payload of a new savings account's `CREATED` activity.
pub fn savings_created_payload(display_name: &str, current_balance: i64) -> (r: String)
    ensures
        r@ == "{\"display_name\":\""@ + display_name@ + "\",\"current_balance\":"@ + decimal_text(
            current_balance as int,
            0,
        ) + "}"@,
{
    let b = int_to_text(current_balance);
    String::from_str("{\"display_name\":\"").concat(display_name).concat(
        "\",\"current_balance\":",
    ).concat(b.as_str()).concat("}")
}

/// The payload of a new fixed deposit's `CREATED` activity.
pub fn fixed_deposit_created_payload(principal: i64, maturity_date: i64) -> (r: String)
    ensures
        r@ == "{\"principal\":"@ + decimal_text(principal as int, 0) + ",\"maturity_date\":"@
            + decimal_text(maturity_date as int, 0) + "}"@,
{
    let p = int_to_text(principal);
    let m = int_to_text(maturity_date);
    String::from_str("{\"principal\":").concat(p.as_str()).concat(",\"maturity_date\":").concat(
        m.as_str(),
    ).concat("}")
}

/// The payload of a new gold lot's `CREATED` activity.
pub fn gold_created_payload(purchase_cost: i64) -> (r: String)
    ensures
        r@ == "{\"purchase_cost\":"@ + decimal_text(purchase_cost as int, 0) + "}"@,
{
    let c = int_to_text(purchase_cost);
    String::from_str("{\"purchase_cost\":").concat(c.as_str()).concat("}")
}

/// The payload of a new stock or ETF lot's `CREATED` activity.
pub fn ticker_lot_created_payload(ticker: &str, quantity_bought: &str, price: i64) -> (r: String)
    ensures
        r@ == "{\"ticker\":\""@ + ticker@ + "\",\"qty\":\""@ + quantity_bought@ + "\",\"price\":"@
            + decimal_text(price as int, 0) + "}"@,
{
    let p = int_to_text(price);
    String::from_str("{\"ticker\":\"").concat(ticker).concat("\",\"qty\":\"").concat(
        quantity_bought,
    ).concat("\",\"price\":").concat(p.as_str()).concat("}")
}

/// The payload of a new crypto lot's `CREATED` activity.
pub fn crypto_lot_created_payload(symbol: &str, quantity_bought: &str, price: i64) -> (r: String)
    ensures
        r@ == "{\"symbol\":\""@ + symbol@ + "\",\"qty\":\""@ + quantity_bought@ + "\",\"price\":"@
            + decimal_text(price as int, 0) + "}"@,
{
    let p = int_to_text(price);
    String::from_str("{\"symbol\":\"").concat(symbol).concat("\",\"qty\":\"").concat(
        quantity_bought,
    ).concat("\",\"price\":").concat(p.as_str()).concat("}")
}

/// The payload of a `PRICE_OBSERVED` activity.
pub fn price_observed_payload(unit_price: i64, currency: &str) -> (r: String)
    ensures
        r@ == "{\"price\":"@ + decimal_text(unit_price as int, 0) + ",\"currency\":\""@ + currency@
            + "\"}"@,
{
    let p = int_to_text(unit_price);
    String::from_str("{\"price\":").concat(p.as_str()).concat(",\"currency\":\"").concat(
        currency,
    ).concat("\"}")
}

} // verus!
