//! Database rows of the asset portfolio and their mapping to wire messages.
//!
//! Each asset class has a `Db*` row struct and a `map_*` function.
//! Insert-time payloads live in the `New*` structs that the repository takes.

use crate::decimal::{decimal_from_str, decimal_text, Dec};
use crate::manager::biz::portfolio::gold::GoldUnit;
use crate::manager::biz::portfolio::{AssetClass, AssetStatus, PriceSide};
use crate::pb::common::base::Base;
use crate::pb::service::portfolio as pb;
use crate::text::{ascii_lower_seq, lower_eq, opt_text, str_eq, string_or_empty};
use vstd::prelude::*;

verus! {

// ---------------------------------------------------------------------------
// Asset class used at insert time. Kept apart from the domain enum so that
// this module stays purely structural.
// ---------------------------------------------------------------------------

/// Asset class of a new asset, including the classes without a domain enum.
#[derive(Debug, Clone, Copy, PartialEq, Eq, Structural)]
pub enum AssetClassNew {
    SavingsAccount,
    FixedDeposit,
    GoldLot,
    StockLot,
    EtfLot,
    CryptoLot,
}

impl AssetClassNew {
    pub open spec fn spec_to_proto(self) -> pb::PortfolioAssetClass {
        match self {
            AssetClassNew::SavingsAccount => pb::PortfolioAssetClass::SavingsAccount,
            AssetClassNew::FixedDeposit => pb::PortfolioAssetClass::FixedDeposit,
            AssetClassNew::GoldLot => pb::PortfolioAssetClass::GoldLot,
            AssetClassNew::StockLot => pb::PortfolioAssetClass::StockLot,
            AssetClassNew::EtfLot => pb::PortfolioAssetClass::EtfLot,
            AssetClassNew::CryptoLot => pb::PortfolioAssetClass::CryptoLot,
        }
    }

    pub open spec fn spec_from_proto(value: i32) -> Option<AssetClassNew> {
        match pb::PortfolioAssetClass::spec_from_code(value) {
            Some(pb::PortfolioAssetClass::SavingsAccount) => Some(AssetClassNew::SavingsAccount),
            Some(pb::PortfolioAssetClass::FixedDeposit) => Some(AssetClassNew::FixedDeposit),
            Some(pb::PortfolioAssetClass::GoldLot) => Some(AssetClassNew::GoldLot),
            Some(pb::PortfolioAssetClass::StockLot) => Some(AssetClassNew::StockLot),
            Some(pb::PortfolioAssetClass::EtfLot) => Some(AssetClassNew::EtfLot),
            Some(pb::PortfolioAssetClass::CryptoLot) => Some(AssetClassNew::CryptoLot),
            _ => None,
        }
    }

    /// The class for a wire number; `None` for unspecified or unknown numbers.
    pub fn from_proto(value: i32) -> (r: Option<AssetClassNew>)
        ensures
            r == Self::spec_from_proto(value),
    {
        match pb::PortfolioAssetClass::from_code(value) {
            Some(pb::PortfolioAssetClass::SavingsAccount) => Some(AssetClassNew::SavingsAccount),
            Some(pb::PortfolioAssetClass::FixedDeposit) => Some(AssetClassNew::FixedDeposit),
            Some(pb::PortfolioAssetClass::GoldLot) => Some(AssetClassNew::GoldLot),
            Some(pb::PortfolioAssetClass::StockLot) => Some(AssetClassNew::StockLot),
            Some(pb::PortfolioAssetClass::EtfLot) => Some(AssetClassNew::EtfLot),
            Some(pb::PortfolioAssetClass::CryptoLot) => Some(AssetClassNew::CryptoLot),
            _ => None,
        }
    }

    /// The wire number of the class.
    pub fn to_proto(self) -> (r: i32)
        ensures
            r == self.spec_to_proto().spec_code(),
    {
        self_to_proto_class(self).code()
    }

    pub open spec fn spec_is_priceable(self) -> bool {
        match self {
            AssetClassNew::GoldLot | AssetClassNew::StockLot | AssetClassNew::EtfLot
            | AssetClassNew::CryptoLot => true,
            _ => false,
        }
    }

    /// True for asset classes that need a market price refresh.
    /// Savings accounts and fixed deposits are priced by formula, not by a
    /// market feed, so the refresh job skips them.
    pub fn is_priceable(&self) -> (r: bool)
        ensures
            r == self.spec_is_priceable(),
    {
        match self {
            AssetClassNew::GoldLot | AssetClassNew::StockLot | AssetClassNew::EtfLot
            | AssetClassNew::CryptoLot => true,
            _ => false,
        }
    }
}

fn self_to_proto_class(c: AssetClassNew) -> (r: pb::PortfolioAssetClass)
    ensures
        r == c.spec_to_proto(),
{
    match c {
        AssetClassNew::SavingsAccount => pb::PortfolioAssetClass::SavingsAccount,
        AssetClassNew::FixedDeposit => pb::PortfolioAssetClass::FixedDeposit,
        AssetClassNew::GoldLot => pb::PortfolioAssetClass::GoldLot,
        AssetClassNew::StockLot => pb::PortfolioAssetClass::StockLot,
        AssetClassNew::EtfLot => pb::PortfolioAssetClass::EtfLot,
        AssetClassNew::CryptoLot => pb::PortfolioAssetClass::CryptoLot,
    }
}

/// Converting a new-asset class to its wire number and back gives the same class.
pub proof fn lemma_asset_class_new_proto_round_trip(c: AssetClassNew)
    ensures
        AssetClassNew::spec_from_proto(c.spec_to_proto().spec_code()) == Some(c),
{
}

// ---------------------------------------------------------------------------
// Asset root
// ---------------------------------------------------------------------------


/// An asset row.
#[derive(Debug, Clone)]
pub struct DbPortfolioAsset {
    pub id: String,
    pub budget_id: String,
    pub asset_class: String,
    pub display_name: String,
    pub currency: String,
    pub status: String,
    pub opened_on: i64,
    pub closed_on: Option<i64>,
    pub legacy_asset_id: Option<String>,
    pub notes: Option<String>,
    pub created_by: String,
    pub created_at: i64,
    pub updated_at: i64,
    pub deleted_at: Option<i64>,
}

/// What creating an asset stores.
#[derive(Debug, Clone)]
pub struct NewPortfolioAsset {
    pub id: Option<String>,
    pub budget_id: String,
    pub asset_class: AssetClassNew,
    pub display_name: String,
    pub currency: String,
    pub opened_on: i64,
    pub closed_on: Option<i64>,
    pub legacy_asset_id: Option<String>,
    pub notes: Option<String>,
    pub created_by: String,
}

/// The wire class of a stored class text: each of the six stored classes
/// reads as its own wire class; unknown text reads as a savings account.
pub open spec fn spec_asset_class_code(s: Seq<char>) -> i32 {
    if s == "savings_account"@ {
        AssetClass::SavingsAccount.spec_to_proto().spec_code()
    } else if s == "fixed_deposit"@ {
        AssetClass::FixedDeposit.spec_to_proto().spec_code()
    } else if s == "gold_lot"@ {
        AssetClass::GoldLot.spec_to_proto().spec_code()
    } else if s == "stock_lot"@ {
        AssetClass::StockLot.spec_to_proto().spec_code()
    } else if s == "etf_lot"@ {
        pb::PortfolioAssetClass::EtfLot.spec_code()
    } else if s == "crypto_lot"@ {
        pb::PortfolioAssetClass::CryptoLot.spec_code()
    } else {
        AssetClass::SavingsAccount.spec_to_proto().spec_code()
    }
}

/// The stored text of a new asset's class.
pub open spec fn spec_asset_class_new_text(c: AssetClassNew) -> Seq<char> {
    match c {
        AssetClassNew::SavingsAccount => "savings_account"@,
        AssetClassNew::FixedDeposit => "fixed_deposit"@,
        AssetClassNew::GoldLot => "gold_lot"@,
        AssetClassNew::StockLot => "stock_lot"@,
        AssetClassNew::EtfLot => "etf_lot"@,
        AssetClassNew::CryptoLot => "crypto_lot"@,
    }
}

/// Stored classes map one to one: the stored text of every class reads back
/// as that class's wire number.
pub proof fn lemma_stored_class_reads_back(c: AssetClassNew)
    ensures
        spec_asset_class_code(spec_asset_class_new_text(c)) == c.spec_to_proto().spec_code(),
{
    reveal_strlit("savings_account");
    reveal_strlit("fixed_deposit");
    reveal_strlit("gold_lot");
    reveal_strlit("stock_lot");
    reveal_strlit("etf_lot");
    reveal_strlit("crypto_lot");
    assert("savings_account"@.len() == 15);
    assert("fixed_deposit"@.len() == 13);
    assert("gold_lot"@.len() == 8);
    assert("stock_lot"@.len() == 9);
    assert("etf_lot"@.len() == 7);
    assert("crypto_lot"@.len() == 10);
}

fn asset_class_code(s: &str) -> (r: i32)
    ensures
        r == spec_asset_class_code(s@),
{
    if str_eq(s, "savings_account") {
        AssetClass::SavingsAccount.to_proto()
    } else if str_eq(s, "fixed_deposit") {
        AssetClass::FixedDeposit.to_proto()
    } else if str_eq(s, "gold_lot") {
        AssetClass::GoldLot.to_proto()
    } else if str_eq(s, "stock_lot") {
        AssetClass::StockLot.to_proto()
    } else if str_eq(s, "etf_lot") {
        pb::PortfolioAssetClass::EtfLot.code()
    } else if str_eq(s, "crypto_lot") {
        pb::PortfolioAssetClass::CryptoLot.code()
    } else {
        AssetClass::SavingsAccount.to_proto()
    }
}

/// The record header of a stored row: identity and audit fields, with the
/// fields that rows do not carry left empty.
pub open spec fn spec_common_base(
    id: String,
    created_at: i64,
    updated_at: i64,
    deleted_at: Option<i64>,
    created_by: String,
    b: Base,
) -> bool {
    &&& b.id == id
    &&& b.created_at == created_at
    &&& b.updated_at == updated_at
    &&& b.deleted_at == deleted_at.unwrap_or(0)
    &&& b.created_by == created_by
    &&& b.updated_by@ == Seq::<char>::empty()
    &&& b.owner_id@ == Seq::<char>::empty()
    &&& b.status == 0
}

fn common_base(
    id: String,
    created_at: i64,
    updated_at: i64,
    deleted_at: Option<i64>,
    created_by: String,
) -> (r: Base)
    ensures
        spec_common_base(id, created_at, updated_at, deleted_at, created_by, r),
{
    Base {
        id,
        created_at,
        updated_at,
        deleted_at: deleted_at.unwrap_or(0),
        created_by,
        updated_by: String::new(),
        owner_id: String::new(),
        status: 0,
    }
}

/// An asset row as a wire message, without class details.
pub fn map_portfolio_asset(db: DbPortfolioAsset) -> (r: pb::PortfolioAsset)
    ensures
        r.base is Some,
        spec_common_base(db.id, db.created_at, db.updated_at, db.deleted_at, db.created_by, r.base.unwrap()),
        r.budget_id == db.budget_id,
        r.asset_class == spec_asset_class_code(db.asset_class@),
        r.display_name == db.display_name,
        r.currency == db.currency,
        r.status == spec_map_asset_status_to_proto(db.status@),
        r.opened_on == db.opened_on,
        r.closed_on == db.closed_on.unwrap_or(0),
        r.legacy_asset_id@ == opt_text(db.legacy_asset_id),
        r.notes@ == opt_text(db.notes),
        r.details is None,
{
    let class = asset_class_code(db.asset_class.as_str());
    let status = map_asset_status_to_proto(db.status.as_str());
    pb::PortfolioAsset {
        base: Some(common_base(db.id, db.created_at, db.updated_at, db.deleted_at, db.created_by)),
        budget_id: db.budget_id,
        asset_class: class,
        display_name: db.display_name,
        currency: db.currency,
        status,
        opened_on: db.opened_on,
        closed_on: db.closed_on.unwrap_or(0),
        legacy_asset_id: string_or_empty(db.legacy_asset_id),
        notes: string_or_empty(db.notes),
        details: None,
    }
}

// ---------------------------------------------------------------------------
// Savings account
// ---------------------------------------------------------------------------


/// A savings account row; the rate is decimal text.
#[derive(Debug, Clone)]
pub struct DbSavingsAccount {
    pub asset_id: String,
    pub provider: String,
    pub account_reference_masked: String,
    pub current_balance: i64,
    pub balance_as_of: i64,
    pub annual_rate: String,
    pub interest_method: String,
    pub payout_type: String,
    pub opened_on: i64,
    pub notes: Option<String>,
}

/// What creating a savings account stores.
#[derive(Debug, Clone)]
pub struct NewSavingsAccount {
    pub provider: String,
    pub account_reference_masked: String,
    pub current_balance: i64,
    pub balance_as_of: i64,
    pub annual_rate: String,
    pub interest_method: String,
    pub payout_type: String,
    pub opened_on: i64,
    pub notes: Option<String>,
}

/// A savings account row as a wire message. The rate stays decimal text
/// here; the wire turns it into a float.
pub fn map_savings_account(db: DbSavingsAccount) -> (r: pb::PortfolioSavingsAccount)
    ensures
        r.asset_id == db.asset_id,
        r.provider == db.provider,
        r.account_reference_masked == db.account_reference_masked,
        r.current_balance == db.current_balance,
        r.balance_as_of == db.balance_as_of,
        r.annual_rate == db.annual_rate,
        r.interest_method == spec_map_interest_method_to_proto(db.interest_method@),
        r.payout_type == spec_map_payout_type_to_proto(db.payout_type@),
        r.opened_on == db.opened_on,
        r.notes@ == opt_text(db.notes),
{
    let interest_method = map_interest_method_to_proto(db.interest_method.as_str());
    let payout_type = map_payout_type_to_proto(db.payout_type.as_str());
    pb::PortfolioSavingsAccount {
        asset_id: db.asset_id,
        provider: db.provider,
        account_reference_masked: db.account_reference_masked,
        current_balance: db.current_balance,
        balance_as_of: db.balance_as_of,
        annual_rate: db.annual_rate,
        interest_method,
        payout_type,
        opened_on: db.opened_on,
        notes: string_or_empty(db.notes),
    }
}

// ---------------------------------------------------------------------------
// Fixed deposit
// ---------------------------------------------------------------------------


/// A fixed deposit row; the rate is decimal text.
#[derive(Debug, Clone)]
pub struct DbFixedDeposit {
    pub asset_id: String,
    pub provider: String,
    pub product_name: String,
    pub principal: i64,
    pub annual_rate: String,
    pub interest_method: String,
    pub payout_type: String,
    pub deposit_date: i64,
    pub maturity_date: i64,
    pub auto_renewal_policy: String,
    pub rollover_from_asset_id: Option<String>,
    pub certificate_reference_masked: Option<String>,
    pub notes: Option<String>,
}

/// What creating a fixed deposit stores.
#[derive(Debug, Clone)]
pub struct NewFixedDeposit {
    pub provider: String,
    pub product_name: String,
    pub principal: i64,
    pub annual_rate: String,
    pub interest_method: String,
    pub payout_type: String,
    pub deposit_date: i64,
    pub maturity_date: i64,
    pub auto_renewal_policy: String,
    pub rollover_from_asset_id: Option<String>,
    pub certificate_reference_masked: Option<String>,
    pub notes: Option<String>,
}

/// A fixed deposit row as a wire message. The rate stays decimal text here.
pub fn map_fixed_deposit(db: DbFixedDeposit) -> (r: pb::PortfolioFixedDeposit)
    ensures
        r.asset_id == db.asset_id,
        r.provider == db.provider,
        r.product_name == db.product_name,
        r.principal == db.principal,
        r.annual_rate == db.annual_rate,
        r.interest_method == spec_map_interest_method_to_proto(db.interest_method@),
        r.payout_type == spec_map_payout_type_to_proto(db.payout_type@),
        r.deposit_date == db.deposit_date,
        r.maturity_date == db.maturity_date,
        r.auto_renewal_policy == spec_map_auto_renewal_to_proto(db.auto_renewal_policy@),
        r.rollover_from_asset_id@ == opt_text(db.rollover_from_asset_id),
        r.certificate_reference_masked@ == opt_text(db.certificate_reference_masked),
        r.notes@ == opt_text(db.notes),
{
    let interest_method = map_interest_method_to_proto(db.interest_method.as_str());
    let payout_type = map_payout_type_to_proto(db.payout_type.as_str());
    let auto_renewal_policy = map_auto_renewal_to_proto(db.auto_renewal_policy.as_str());
    pb::PortfolioFixedDeposit {
        asset_id: db.asset_id,
        provider: db.provider,
        product_name: db.product_name,
        principal: db.principal,
        annual_rate: db.annual_rate,
        interest_method,
        payout_type,
        deposit_date: db.deposit_date,
        maturity_date: db.maturity_date,
        auto_renewal_policy,
        rollover_from_asset_id: string_or_empty(db.rollover_from_asset_id),
        certificate_reference_masked: string_or_empty(db.certificate_reference_masked),
        notes: string_or_empty(db.notes),
    }
}

// ---------------------------------------------------------------------------
// Gold lot
// ---------------------------------------------------------------------------


/// A gold lot row; quantities are decimal text.
#[derive(Debug, Clone)]
pub struct DbGoldLot {
    pub asset_id: String,
    pub provider: String,
    pub gold_type: String,
    pub purity: String,
    pub form: String,
    pub quantity_original: String,
    pub unit_original: String,
    pub quantity_grams: String,
    pub purchase_price_per_unit_original: i64,
    pub purchase_cost: i64,
    pub fees: i64,
    pub purchase_date: i64,
    pub notes: Option<String>,
}

/// What creating a gold lot stores.
#[derive(Debug, Clone)]
pub struct NewGoldLot {
    pub provider: String,
    pub gold_type: String,
    pub purity: String,
    pub form: String,
    pub quantity_original: String,
    pub unit: GoldUnit,
    pub purchase_price_per_unit_original: i64,
    pub purchase_cost: i64,
    pub fees: i64,
    pub purchase_date: i64,
    pub notes: Option<String>,
}

/// A gold lot row as a wire message; quantities are normalised decimal text.
pub fn map_gold_lot(db: DbGoldLot) -> (r: pb::PortfolioGoldLot)
    ensures
        r.asset_id == db.asset_id,
        r.provider == db.provider,
        r.gold_type == db.gold_type,
        r.purity == spec_map_gold_purity_to_proto(db.purity@),
        r.form == spec_map_gold_form_to_proto(db.form@),
        r.quantity_original@ == quantity_text(db.quantity_original@),
        r.unit_original == spec_map_gold_unit_to_proto(db.unit_original@),
        r.quantity_grams@ == quantity_text(db.quantity_grams@),
        r.purchase_price_per_unit_original == db.purchase_price_per_unit_original,
        r.purchase_cost == db.purchase_cost,
        r.fees == db.fees,
        r.purchase_date == db.purchase_date,
        r.notes@ == opt_text(db.notes),
{
    let purity = map_gold_purity_to_proto(db.purity.as_str());
    let form = map_gold_form_to_proto(db.form.as_str());
    let quantity_original = parse_quantity(db.quantity_original.as_str());
    let unit_original = map_gold_unit_to_proto(db.unit_original.as_str());
    let quantity_grams = parse_quantity(db.quantity_grams.as_str());
    pb::PortfolioGoldLot {
        asset_id: db.asset_id,
        provider: db.provider,
        gold_type: db.gold_type,
        purity,
        form,
        quantity_original,
        unit_original,
        quantity_grams,
        purchase_price_per_unit_original: db.purchase_price_per_unit_original,
        purchase_cost: db.purchase_cost,
        fees: db.fees,
        purchase_date: db.purchase_date,
        notes: string_or_empty(db.notes),
    }
}

// ---------------------------------------------------------------------------
// Stock, ETF and crypto lots
// ---------------------------------------------------------------------------


/// A stock lot row; quantities are decimal text.
#[derive(Debug, Clone)]
pub struct DbStockLot {
    pub asset_id: String,
    pub ticker: String,
    pub exchange: String,
    pub quantity_bought: String,
    pub quantity_open: String,
    pub buy_price_per_share: i64,
    pub purchase_cost: i64,
    pub fees: i64,
    pub purchase_date: i64,
    pub settlement_date: Option<i64>,
    pub notes: Option<String>,
}

/// What creating a stock lot stores.
#[derive(Debug, Clone)]
pub struct NewStockLot {
    pub ticker: String,
    pub exchange: String,
    pub quantity_bought: String,
    pub buy_price_per_share: i64,
    pub purchase_cost: i64,
    pub fees: i64,
    pub purchase_date: i64,
    pub settlement_date: Option<i64>,
    pub notes: Option<String>,
}

/// An ETF lot row; quantities are decimal text.
#[derive(Debug, Clone)]
pub struct DbEtfLot {
    pub asset_id: String,
    pub ticker: String,
    pub exchange: String,
    pub underlying_index: String,
    pub fund_provider: String,
    pub quantity_bought: String,
    pub quantity_open: String,
    pub buy_price_per_unit: i64,
    pub purchase_cost: i64,
    pub fees: i64,
    pub purchase_date: i64,
    pub settlement_date: Option<i64>,
    pub notes: Option<String>,
}

/// What creating an ETF lot stores.
#[derive(Debug, Clone)]
pub struct NewEtfLot {
    pub ticker: String,
    pub exchange: String,
    pub underlying_index: String,
    pub fund_provider: String,
    pub quantity_bought: String,
    pub quantity_open: String,
    pub buy_price_per_unit: i64,
    pub purchase_cost: i64,
    pub fees: i64,
    pub purchase_date: i64,
    pub settlement_date: Option<i64>,
    pub notes: Option<String>,
}

/// An ETF lot row as a wire message; quantities are normalised decimal text.
pub fn map_etf_lot(db: DbEtfLot) -> (r: pb::PortfolioEtfLot)
    ensures
        r.asset_id == db.asset_id,
        r.ticker == db.ticker,
        r.exchange == spec_map_stock_exchange_to_proto(db.exchange@),
        r.underlying_index == spec_map_etf_underlying_to_proto(db.underlying_index@),
        r.fund_provider == db.fund_provider,
        r.quantity_bought@ == quantity_text(db.quantity_bought@),
        r.quantity_open@ == quantity_text(db.quantity_open@),
        r.buy_price_per_unit == db.buy_price_per_unit,
        r.purchase_cost == db.purchase_cost,
        r.fees == db.fees,
        r.purchase_date == db.purchase_date,
        r.settlement_date == db.settlement_date.unwrap_or(0),
        r.notes@ == opt_text(db.notes),
{
    let exchange = map_stock_exchange_to_proto(db.exchange.as_str());
    let underlying_index = map_etf_underlying_to_proto(db.underlying_index.as_str());
    let quantity_bought = parse_quantity(db.quantity_bought.as_str());
    let quantity_open = parse_quantity(db.quantity_open.as_str());
    pb::PortfolioEtfLot {
        asset_id: db.asset_id,
        ticker: db.ticker,
        exchange,
        underlying_index,
        fund_provider: db.fund_provider,
        quantity_bought,
        quantity_open,
        buy_price_per_unit: db.buy_price_per_unit,
        purchase_cost: db.purchase_cost,
        fees: db.fees,
        purchase_date: db.purchase_date,
        settlement_date: db.settlement_date.unwrap_or(0),
        notes: string_or_empty(db.notes),
    }
}


/// Wire index of stored underlying-index text, ignoring ASCII case; unknown text is other.
pub open spec fn spec_map_etf_underlying_to_proto(s: Seq<char>) -> i32 {
    if ascii_lower_seq(s) == "vn30"@ {
        pb::EtfUnderlyingIndex::Vn30.spec_code()
    } else if ascii_lower_seq(s) == "vn100"@ {
        pb::EtfUnderlyingIndex::Vn100.spec_code()
    } else if ascii_lower_seq(s) == "hnx30"@ {
        pb::EtfUnderlyingIndex::Hnx30.spec_code()
    } else {
        pb::EtfUnderlyingIndex::Other.spec_code()
    }
}

/// Wire index of stored underlying-index text, ignoring ASCII case; unknown text is other.
pub fn map_etf_underlying_to_proto(s: &str) -> (r: i32)
    ensures
        r == spec_map_etf_underlying_to_proto(s@),
{
    if lower_eq(s, "vn30") {
        pb::EtfUnderlyingIndex::Vn30.code()
    } else if lower_eq(s, "vn100") {
        pb::EtfUnderlyingIndex::Vn100.code()
    } else if lower_eq(s, "hnx30") {
        pb::EtfUnderlyingIndex::Hnx30.code()
    } else {
        pb::EtfUnderlyingIndex::Other.code()
    }
}

/// A crypto lot row; quantities are decimal text.
#[derive(Debug, Clone)]
pub struct DbCryptoLot {
    pub asset_id: String,
    pub symbol: String,
    pub network: String,
    pub custody_wallet: String,
    pub quantity_bought: String,
    pub quantity_open: String,
    pub buy_price_per_unit: i64,
    pub purchase_cost: i64,
    pub fees: i64,
    pub purchase_date: i64,
    pub notes: Option<String>,
}

/// What creating a crypto lot stores.
#[derive(Debug, Clone)]
pub struct NewCryptoLot {
    pub symbol: String,
    pub network: String,
    pub custody_wallet: String,
    pub quantity_bought: String,
    pub quantity_open: String,
    pub buy_price_per_unit: i64,
    pub purchase_cost: i64,
    pub fees: i64,
    pub purchase_date: i64,
    pub notes: Option<String>,
}

/// A crypto lot row as a wire message; quantities are normalised decimal text.
pub fn map_crypto_lot(db: DbCryptoLot) -> (r: pb::PortfolioCryptoLot)
    ensures
        r.asset_id == db.asset_id,
        r.symbol == db.symbol,
        r.network == spec_map_crypto_network_to_proto(db.network@),
        r.custody_wallet == db.custody_wallet,
        r.quantity_bought@ == quantity_text(db.quantity_bought@),
        r.quantity_open@ == quantity_text(db.quantity_open@),
        r.buy_price_per_unit == db.buy_price_per_unit,
        r.purchase_cost == db.purchase_cost,
        r.fees == db.fees,
        r.purchase_date == db.purchase_date,
        r.notes@ == opt_text(db.notes),
{
    let network = map_crypto_network_to_proto(db.network.as_str());
    let quantity_bought = parse_quantity(db.quantity_bought.as_str());
    let quantity_open = parse_quantity(db.quantity_open.as_str());
    pb::PortfolioCryptoLot {
        asset_id: db.asset_id,
        symbol: db.symbol,
        network,
        custody_wallet: db.custody_wallet,
        quantity_bought,
        quantity_open,
        buy_price_per_unit: db.buy_price_per_unit,
        purchase_cost: db.purchase_cost,
        fees: db.fees,
        purchase_date: db.purchase_date,
        notes: string_or_empty(db.notes),
    }
}


/// Wire network of stored network text, ignoring ASCII case; unknown text is other.
pub open spec fn spec_map_crypto_network_to_proto(s: Seq<char>) -> i32 {
    if ascii_lower_seq(s) == "bitcoin"@ {
        pb::CryptoNetwork::Bitcoin.spec_code()
    } else if ascii_lower_seq(s) == "ethereum"@ {
        pb::CryptoNetwork::Ethereum.spec_code()
    } else if ascii_lower_seq(s) == "solana"@ {
        pb::CryptoNetwork::Solana.spec_code()
    } else if ascii_lower_seq(s) == "bnb_chain"@ {
        pb::CryptoNetwork::BnbChain.spec_code()
    } else if ascii_lower_seq(s) == "bnb-chain"@ {
        pb::CryptoNetwork::BnbChain.spec_code()
    } else if ascii_lower_seq(s) == "bnbchain"@ {
        pb::CryptoNetwork::BnbChain.spec_code()
    } else if ascii_lower_seq(s) == "polkadot"@ {
        pb::CryptoNetwork::Polkadot.spec_code()
    } else {
        pb::CryptoNetwork::Other.spec_code()
    }
}

/// Wire network of stored network text, ignoring ASCII case; unknown text is other.
pub fn map_crypto_network_to_proto(s: &str) -> (r: i32)
    ensures
        r == spec_map_crypto_network_to_proto(s@),
{
    if lower_eq(s, "bitcoin") {
        pb::CryptoNetwork::Bitcoin.code()
    } else if lower_eq(s, "ethereum") {
        pb::CryptoNetwork::Ethereum.code()
    } else if lower_eq(s, "solana") {
        pb::CryptoNetwork::Solana.code()
    } else if lower_eq(s, "bnb_chain") {
        pb::CryptoNetwork::BnbChain.code()
    } else if lower_eq(s, "bnb-chain") {
        pb::CryptoNetwork::BnbChain.code()
    } else if lower_eq(s, "bnbchain") {
        pb::CryptoNetwork::BnbChain.code()
    } else if lower_eq(s, "polkadot") {
        pb::CryptoNetwork::Polkadot.code()
    } else {
        pb::CryptoNetwork::Other.code()
    }
}

/// A stock lot row as a wire message; quantities are normalised decimal text.
pub fn map_stock_lot(db: DbStockLot) -> (r: pb::PortfolioStockLot)
    ensures
        r.asset_id == db.asset_id,
        r.ticker == db.ticker,
        r.exchange == spec_map_stock_exchange_to_proto(db.exchange@),
        r.quantity_bought@ == quantity_text(db.quantity_bought@),
        r.quantity_open@ == quantity_text(db.quantity_open@),
        r.buy_price_per_share == db.buy_price_per_share,
        r.purchase_cost == db.purchase_cost,
        r.fees == db.fees,
        r.purchase_date == db.purchase_date,
        r.settlement_date == db.settlement_date.unwrap_or(0),
        r.notes@ == opt_text(db.notes),
{
    let exchange = map_stock_exchange_to_proto(db.exchange.as_str());
    let quantity_bought = parse_quantity(db.quantity_bought.as_str());
    let quantity_open = parse_quantity(db.quantity_open.as_str());
    pb::PortfolioStockLot {
        asset_id: db.asset_id,
        ticker: db.ticker,
        exchange,
        quantity_bought,
        quantity_open,
        buy_price_per_share: db.buy_price_per_share,
        purchase_cost: db.purchase_cost,
        fees: db.fees,
        purchase_date: db.purchase_date,
        settlement_date: db.settlement_date.unwrap_or(0),
        notes: string_or_empty(db.notes),
    }
}

// ---------------------------------------------------------------------------
// Price observations
// ---------------------------------------------------------------------------


/// A price observation row.
#[derive(Debug, Clone)]
pub struct DbPriceObservation {
    pub id: String,
    pub asset_id: String,
    pub provider: String,
    pub price_side: String,
    pub unit_price: i64,
    pub currency: String,
    pub observed_at: i64,
    pub source_reference: String,
    pub idempotency_key: Option<String>,
    pub notes: Option<String>,
}

/// What recording a price observation stores.
#[derive(Debug, Clone)]
pub struct NewPriceObservation {
    pub id: Option<String>,
    pub asset_id: String,
    pub provider: String,
    pub price_side: PriceSide,
    pub unit_price: i64,
    pub currency: String,
    pub observed_at: i64,
    pub source_reference: String,
    pub idempotency_key: Option<String>,
    pub notes: Option<String>,
}

/// `r` is the price observation row `db` as a wire message.
pub open spec fn price_observation_mapped(r: pb::PriceObservation, db: DbPriceObservation) -> bool {
    &&& r.id == db.id
    &&& r.asset_id == db.asset_id
    &&& r.provider == db.provider
    &&& r.price_side == spec_map_price_side_to_proto(db.price_side@)
    &&& r.unit_price == db.unit_price
    &&& r.currency == db.currency
    &&& r.observed_at == db.observed_at
    &&& r.source_reference == db.source_reference
    &&& r.notes@ == opt_text(db.notes)
}

/// A price observation row as a wire message.
pub fn map_price_observation(db: DbPriceObservation) -> (r: pb::PriceObservation)
    ensures
        price_observation_mapped(r, db),
{
    let price_side = map_price_side_to_proto(db.price_side.as_str());
    pb::PriceObservation {
        id: db.id,
        asset_id: db.asset_id,
        provider: db.provider,
        price_side,
        unit_price: db.unit_price,
        currency: db.currency,
        observed_at: db.observed_at,
        source_reference: db.source_reference,
        notes: string_or_empty(db.notes),
    }
}

// ---------------------------------------------------------------------------
// Activity log
// ---------------------------------------------------------------------------


/// An activity log row.
#[derive(Debug, Clone)]
pub struct DbActivity {
    pub id: String,
    pub asset_id: String,
    pub budget_id: String,
    pub activity_type: String,
    pub actor_user_id: String,
    pub correlation_id: Option<String>,
    pub idempotency_key: Option<String>,
    pub occurred_at: i64,
    pub payload_json: Option<String>,
    pub created_at: i64,
}

/// What appending an activity stores.
#[derive(Debug, Clone)]
pub struct NewActivity {
    pub id: Option<String>,
    pub asset_id: String,
    pub budget_id: String,
    pub activity_type: String,
    pub actor_user_id: String,
    pub correlation_id: Option<String>,
    pub idempotency_key: Option<String>,
    pub occurred_at: i64,
    pub payload_json: Option<String>,
}

/// An activity row as a wire message.
pub fn map_activity(db: DbActivity) -> (r: pb::PortfolioActivity)
    ensures
        r.id == db.id,
        r.asset_id == db.asset_id,
        r.budget_id == db.budget_id,
        r.activity_type == spec_map_activity_type_to_proto(db.activity_type@),
        r.actor_user_id == db.actor_user_id,
        r.correlation_id@ == opt_text(db.correlation_id),
        r.idempotency_key@ == opt_text(db.idempotency_key),
        r.occurred_at == db.occurred_at,
        r.payload_json@ == opt_text(db.payload_json),
{
    let activity_type = map_activity_type_to_proto(db.activity_type.as_str());
    pb::PortfolioActivity {
        id: db.id,
        asset_id: db.asset_id,
        budget_id: db.budget_id,
        activity_type,
        actor_user_id: db.actor_user_id,
        correlation_id: string_or_empty(db.correlation_id),
        idempotency_key: string_or_empty(db.idempotency_key),
        occurred_at: db.occurred_at,
        payload_json: string_or_empty(db.payload_json),
    }
}

// ---------------------------------------------------------------------------
// Outbox events and transfers
// ---------------------------------------------------------------------------


/// An event queued for delivery.
#[derive(Debug, Clone)]
pub struct NewOutboxEvent {
    pub id: String,
    pub event_type: String,
    pub asset_id: Option<String>,
    pub budget_id: Option<String>,
    pub payload_json: String,
    pub enqueued_at: i64,
}

/// A transfer row.
#[derive(Debug, Clone)]
pub struct DbTransfer {
    pub id: String,
    pub group_id: String,
    pub source_budget_id: String,
    pub counterparty_budget_id: String,
    pub direction: String,
    pub amount_minor: i64,
    pub currency: String,
    pub status: String,
    pub linked_entry_source_id: Option<String>,
    pub linked_entry_counterparty_id: Option<String>,
    pub idempotency_key: Option<String>,
    pub actor_user_id: String,
    pub created_at: i64,
    pub completed_at: Option<i64>,
    pub notes: Option<String>,
}

/// What creating a transfer stores; direction and status are wire numbers.
#[derive(Debug, Clone)]
pub struct NewTransfer {
    pub id: String,
    pub group_id: String,
    pub source_budget_id: String,
    pub counterparty_budget_id: String,
    pub direction: i32,
    pub amount_minor: i64,
    pub currency: String,
    pub status: i32,
    pub linked_entry_source_id: Option<String>,
    pub linked_entry_counterparty_id: Option<String>,
    pub idempotency_key: String,
    pub actor_user_id: String,
    pub created_at: i64,
    pub completed_at: Option<i64>,
    pub notes: Option<String>,
}

/// Wire direction of stored direction text; unknown text is unspecified.
pub open spec fn spec_transfer_direction_code(s: Seq<char>) -> i32 {
    if s == "standard_to_invest"@ {
        pb::TransferDirection::StandardToInvest.spec_code()
    } else if s == "invest_to_standard"@ {
        pb::TransferDirection::InvestToStandard.spec_code()
    } else if s == "internal_rebalance"@ {
        pb::TransferDirection::InternalRebalance.spec_code()
    } else {
        pb::TransferDirection::Unspecified.spec_code()
    }
}

/// Wire direction of stored direction text; unknown text is unspecified.
fn transfer_direction_code(s: &str) -> (r: i32)
    ensures
        r == spec_transfer_direction_code(s@),
{
    if str_eq(s, "standard_to_invest") {
        pb::TransferDirection::StandardToInvest.code()
    } else if str_eq(s, "invest_to_standard") {
        pb::TransferDirection::InvestToStandard.code()
    } else if str_eq(s, "internal_rebalance") {
        pb::TransferDirection::InternalRebalance.code()
    } else {
        pb::TransferDirection::Unspecified.code()
    }
}

/// Wire status of stored status text; unknown text is unspecified.
pub open spec fn spec_transfer_status_code(s: Seq<char>) -> i32 {
    if s == "requested"@ {
        pb::TransferStatus::Requested.spec_code()
    } else if s == "cash_leg_pending"@ {
        pb::TransferStatus::CashLegPending.spec_code()
    } else if s == "asset_leg_pending"@ {
        pb::TransferStatus::AssetLegPending.spec_code()
    } else if s == "completed"@ {
        pb::TransferStatus::Completed.spec_code()
    } else if s == "failed"@ {
        pb::TransferStatus::Failed.spec_code()
    } else if s == "compensation_pending"@ {
        pb::TransferStatus::CompensationPending.spec_code()
    } else if s == "compensated"@ {
        pb::TransferStatus::Compensated.spec_code()
    } else {
        pb::TransferStatus::Unspecified.spec_code()
    }
}

/// Wire status of stored status text; unknown text is unspecified.
fn transfer_status_code(s: &str) -> (r: i32)
    ensures
        r == spec_transfer_status_code(s@),
{
    if str_eq(s, "requested") {
        pb::TransferStatus::Requested.code()
    } else if str_eq(s, "cash_leg_pending") {
        pb::TransferStatus::CashLegPending.code()
    } else if str_eq(s, "asset_leg_pending") {
        pb::TransferStatus::AssetLegPending.code()
    } else if str_eq(s, "completed") {
        pb::TransferStatus::Completed.code()
    } else if str_eq(s, "failed") {
        pb::TransferStatus::Failed.code()
    } else if str_eq(s, "compensation_pending") {
        pb::TransferStatus::CompensationPending.code()
    } else if str_eq(s, "compensated") {
        pb::TransferStatus::Compensated.code()
    } else {
        pb::TransferStatus::Unspecified.code()
    }
}

/// `r` is the transfer row `db` as a wire message.
pub open spec fn transfer_mapped(r: pb::PortfolioTransfer, db: DbTransfer) -> bool {
    &&& r.id == db.id
    &&& r.group_id == db.group_id
    &&& r.source_budget_id == db.source_budget_id
    &&& r.counterparty_budget_id == db.counterparty_budget_id
    &&& r.direction == spec_transfer_direction_code(db.direction@)
    &&& r.amount_minor == db.amount_minor
    &&& r.currency == db.currency
    &&& r.status == spec_transfer_status_code(db.status@)
    &&& r.linked_entry_source_id@ == opt_text(db.linked_entry_source_id)
    &&& r.linked_entry_counterparty_id@ == opt_text(db.linked_entry_counterparty_id)
    &&& r.idempotency_key@ == opt_text(db.idempotency_key)
    &&& r.actor_user_id == db.actor_user_id
    &&& r.created_at == db.created_at
    &&& r.completed_at == db.completed_at.unwrap_or(0)
    &&& r.notes@ == opt_text(db.notes)
}

/// A transfer row as a wire message.
pub fn map_transfer(db: DbTransfer) -> (r: pb::PortfolioTransfer)
    ensures
        transfer_mapped(r, db),
{
    let direction = transfer_direction_code(db.direction.as_str());
    let status = transfer_status_code(db.status.as_str());
    pb::PortfolioTransfer {
        id: db.id,
        group_id: db.group_id,
        source_budget_id: db.source_budget_id,
        counterparty_budget_id: db.counterparty_budget_id,
        direction,
        amount_minor: db.amount_minor,
        currency: db.currency,
        status,
        linked_entry_source_id: string_or_empty(db.linked_entry_source_id),
        linked_entry_counterparty_id: string_or_empty(db.linked_entry_counterparty_id),
        idempotency_key: string_or_empty(db.idempotency_key),
        actor_user_id: db.actor_user_id,
        created_at: db.created_at,
        completed_at: db.completed_at.unwrap_or(0),
        notes: string_or_empty(db.notes),
    }
}


pub open spec fn spec_transfer_direction_to_db(v: i32) -> Seq<char> {
    if v == pb::TransferDirection::StandardToInvest.spec_code() {
        "standard_to_invest"@
    } else if v == pb::TransferDirection::InvestToStandard.spec_code() {
        "invest_to_standard"@
    } else if v == pb::TransferDirection::InternalRebalance.spec_code() {
        "internal_rebalance"@
    } else {
        "unspecified"@
    }
}

/// Stored text of a wire transfer direction; other numbers are `unspecified`.
pub fn transfer_direction_to_db(v: i32) -> (r: &'static str)
    ensures
        r@ == spec_transfer_direction_to_db(v),
{
    if v == pb::TransferDirection::StandardToInvest.code() {
        "standard_to_invest"
    } else if v == pb::TransferDirection::InvestToStandard.code() {
        "invest_to_standard"
    } else if v == pb::TransferDirection::InternalRebalance.code() {
        "internal_rebalance"
    } else {
        "unspecified"
    }
}

pub open spec fn spec_transfer_status_to_db(v: i32) -> Seq<char> {
    if v == pb::TransferStatus::Requested.spec_code() {
        "requested"@
    } else if v == pb::TransferStatus::CashLegPending.spec_code() {
        "cash_leg_pending"@
    } else if v == pb::TransferStatus::AssetLegPending.spec_code() {
        "asset_leg_pending"@
    } else if v == pb::TransferStatus::Completed.spec_code() {
        "completed"@
    } else if v == pb::TransferStatus::Failed.spec_code() {
        "failed"@
    } else if v == pb::TransferStatus::CompensationPending.spec_code() {
        "compensation_pending"@
    } else if v == pb::TransferStatus::Compensated.spec_code() {
        "compensated"@
    } else {
        "unspecified"@
    }
}

/// Stored text of a wire transfer status; other numbers are `unspecified`.
pub fn transfer_status_to_db(v: i32) -> (r: &'static str)
    ensures
        r@ == spec_transfer_status_to_db(v),
{
    if v == pb::TransferStatus::Requested.code() {
        "requested"
    } else if v == pb::TransferStatus::CashLegPending.code() {
        "cash_leg_pending"
    } else if v == pb::TransferStatus::AssetLegPending.code() {
        "asset_leg_pending"
    } else if v == pb::TransferStatus::Completed.code() {
        "completed"
    } else if v == pb::TransferStatus::Failed.code() {
        "failed"
    } else if v == pb::TransferStatus::CompensationPending.code() {
        "compensation_pending"
    } else if v == pb::TransferStatus::Compensated.code() {
        "compensated"
    } else {
        "unspecified"
    }
}


// ---------------------------------------------------------------------------
// Common helpers
// ---------------------------------------------------------------------------

/// Stored quantity text normalised through the decimal parser; text that
/// does not parse is kept as it is.
pub open spec fn quantity_text(s: Seq<char>) -> Seq<char> {
    match decimal_from_str(s) {
        Some(p) => decimal_text(p.0, p.1 as nat),
        None => s,
    }
}

/// Stored quantity text normalised through the decimal parser.
pub fn parse_quantity(s: &str) -> (r: String)
    ensures
        r@ == quantity_text(s@),
{
    match Dec::parse(s) {
        Some(d) => d.to_text(),
        None => String::from_str(s),
    }
}

pub open spec fn spec_map_asset_status_to_proto(s: Seq<char>) -> i32 {
    match AssetStatus::spec_from_db(s) {
        AssetStatus::Active => pb::PortfolioAssetStatus::Active.spec_code(),
        AssetStatus::Closed => pb::PortfolioAssetStatus::Closed.spec_code(),
        AssetStatus::Matured => pb::PortfolioAssetStatus::Matured.spec_code(),
        AssetStatus::Sold => pb::PortfolioAssetStatus::Sold.spec_code(),
        AssetStatus::Archived => pb::PortfolioAssetStatus::Archived.spec_code(),
        AssetStatus::RolledOver => pb::PortfolioAssetStatus::RolledOver.spec_code(),
        AssetStatus::Withdrawn => pb::PortfolioAssetStatus::Withdrawn.spec_code(),
        AssetStatus::EarlyClosed => pb::PortfolioAssetStatus::EarlyClosed.spec_code(),
    }
}

/// Wire status of stored status text; unknown text reads as active.
pub fn map_asset_status_to_proto(s: &str) -> (r: i32)
    ensures
        r == spec_map_asset_status_to_proto(s@),
{
    match AssetStatus::from_db(s) {
        AssetStatus::Active => pb::PortfolioAssetStatus::Active.code(),
        AssetStatus::Closed => pb::PortfolioAssetStatus::Closed.code(),
        AssetStatus::Matured => pb::PortfolioAssetStatus::Matured.code(),
        AssetStatus::Sold => pb::PortfolioAssetStatus::Sold.code(),
        AssetStatus::Archived => pb::PortfolioAssetStatus::Archived.code(),
        AssetStatus::RolledOver => pb::PortfolioAssetStatus::RolledOver.code(),
        AssetStatus::Withdrawn => pb::PortfolioAssetStatus::Withdrawn.code(),
        AssetStatus::EarlyClosed => pb::PortfolioAssetStatus::EarlyClosed.code(),
    }
}


/// Wire interest method of stored text; anything but `compound` is simple.
pub open spec fn spec_map_interest_method_to_proto(s: Seq<char>) -> i32 {
    if s == "compound"@ {
        pb::InterestMethod::Compound.spec_code()
    } else {
        pb::InterestMethod::Simple.spec_code()
    }
}

/// Wire interest method of stored text; anything but `compound` is simple.
fn map_interest_method_to_proto(s: &str) -> (r: i32)
    ensures
        r == spec_map_interest_method_to_proto(s@),
{
    if str_eq(s, "compound") {
        pb::InterestMethod::Compound.code()
    } else {
        pb::InterestMethod::Simple.code()
    }
}

/// Wire payout type of stored text; unknown text is at maturity.
pub open spec fn spec_map_payout_type_to_proto(s: Seq<char>) -> i32 {
    if s == "monthly"@ {
        pb::PayoutType::Monthly.spec_code()
    } else if s == "quarterly"@ {
        pb::PayoutType::Quarterly.spec_code()
    } else if s == "on_demand"@ {
        pb::PayoutType::OnDemand.spec_code()
    } else {
        pb::PayoutType::AtMaturity.spec_code()
    }
}

/// Wire payout type of stored text; unknown text is at maturity.
fn map_payout_type_to_proto(s: &str) -> (r: i32)
    ensures
        r == spec_map_payout_type_to_proto(s@),
{
    if str_eq(s, "monthly") {
        pb::PayoutType::Monthly.code()
    } else if str_eq(s, "quarterly") {
        pb::PayoutType::Quarterly.code()
    } else if str_eq(s, "on_demand") {
        pb::PayoutType::OnDemand.code()
    } else {
        pb::PayoutType::AtMaturity.code()
    }
}

/// Wire auto-renewal policy of stored text; unknown text is no renewal.
pub open spec fn spec_map_auto_renewal_to_proto(s: Seq<char>) -> i32 {
    if s == "principal_only"@ {
        pb::AutoRenewalPolicy::PrincipalOnly.spec_code()
    } else if s == "principal_and_interest"@ {
        pb::AutoRenewalPolicy::PrincipalAndInterest.spec_code()
    } else {
        pb::AutoRenewalPolicy::NoRenewal.spec_code()
    }
}

/// Wire auto-renewal policy of stored text; unknown text is no renewal.
fn map_auto_renewal_to_proto(s: &str) -> (r: i32)
    ensures
        r == spec_map_auto_renewal_to_proto(s@),
{
    if str_eq(s, "principal_only") {
        pb::AutoRenewalPolicy::PrincipalOnly.code()
    } else if str_eq(s, "principal_and_interest") {
        pb::AutoRenewalPolicy::PrincipalAndInterest.code()
    } else {
        pb::AutoRenewalPolicy::NoRenewal.code()
    }
}

/// Wire gold purity of stored text; unknown text is other.
pub open spec fn spec_map_gold_purity_to_proto(s: Seq<char>) -> i32 {
    if s == "sjc_9999"@ {
        pb::GoldPurity::Sjc9999.spec_code()
    } else if s == "pnj_999"@ {
        pb::GoldPurity::Pnj999.spec_code()
    } else if s == "pnj_995"@ {
        pb::GoldPurity::Pnj995.spec_code()
    } else if s == "doji_9999"@ {
        pb::GoldPurity::Doji9999.spec_code()
    } else {
        pb::GoldPurity::Other.spec_code()
    }
}

/// Wire gold purity of stored text; unknown text is other.
fn map_gold_purity_to_proto(s: &str) -> (r: i32)
    ensures
        r == spec_map_gold_purity_to_proto(s@),
{
    if str_eq(s, "sjc_9999") {
        pb::GoldPurity::Sjc9999.code()
    } else if str_eq(s, "pnj_999") {
        pb::GoldPurity::Pnj999.code()
    } else if str_eq(s, "pnj_995") {
        pb::GoldPurity::Pnj995.code()
    } else if str_eq(s, "doji_9999") {
        pb::GoldPurity::Doji9999.code()
    } else {
        pb::GoldPurity::Other.code()
    }
}

/// Wire gold form of stored text; unknown text is other.
pub open spec fn spec_map_gold_form_to_proto(s: Seq<char>) -> i32 {
    if s == "bar"@ {
        pb::GoldForm::Bar.spec_code()
    } else if s == "ring"@ {
        pb::GoldForm::Ring.spec_code()
    } else if s == "coin"@ {
        pb::GoldForm::Coin.spec_code()
    } else if s == "jewelry"@ {
        pb::GoldForm::Jewelry.spec_code()
    } else {
        pb::GoldForm::Other.spec_code()
    }
}

/// Wire gold form of stored text; unknown text is other.
fn map_gold_form_to_proto(s: &str) -> (r: i32)
    ensures
        r == spec_map_gold_form_to_proto(s@),
{
    if str_eq(s, "bar") {
        pb::GoldForm::Bar.code()
    } else if str_eq(s, "ring") {
        pb::GoldForm::Ring.code()
    } else if str_eq(s, "coin") {
        pb::GoldForm::Coin.code()
    } else if str_eq(s, "jewelry") {
        pb::GoldForm::Jewelry.code()
    } else {
        pb::GoldForm::Other.code()
    }
}

/// Wire gold unit of stored text; unknown text is grams.
pub open spec fn spec_map_gold_unit_to_proto(s: Seq<char>) -> i32 {
    if s == "chi"@ {
        pb::GoldUnit::Chi.spec_code()
    } else if s == "luong"@ {
        pb::GoldUnit::Luong.spec_code()
    } else {
        pb::GoldUnit::Gram.spec_code()
    }
}

/// Wire gold unit of stored text; unknown text is grams.
fn map_gold_unit_to_proto(s: &str) -> (r: i32)
    ensures
        r == spec_map_gold_unit_to_proto(s@),
{
    if str_eq(s, "chi") {
        pb::GoldUnit::Chi.code()
    } else if str_eq(s, "luong") {
        pb::GoldUnit::Luong.code()
    } else {
        pb::GoldUnit::Gram.code()
    }
}

/// Wire exchange of stored exchange text; unknown text is HOSE.
pub open spec fn spec_map_stock_exchange_to_proto(s: Seq<char>) -> i32 {
    if s == "HNX"@ {
        pb::StockExchange::Hnx.spec_code()
    } else if s == "UPCOM"@ {
        pb::StockExchange::Upcom.spec_code()
    } else {
        pb::StockExchange::Hose.spec_code()
    }
}

/// Wire exchange of stored exchange text; unknown text is HOSE.
fn map_stock_exchange_to_proto(s: &str) -> (r: i32)
    ensures
        r == spec_map_stock_exchange_to_proto(s@),
{
    if str_eq(s, "HNX") {
        pb::StockExchange::Hnx.code()
    } else if str_eq(s, "UPCOM") {
        pb::StockExchange::Upcom.code()
    } else {
        pb::StockExchange::Hose.code()
    }
}

/// Wire price side of stored text; unknown text is mid.
pub open spec fn spec_map_price_side_to_proto(s: Seq<char>) -> i32 {
    if s == "bid"@ {
        pb::PriceSide::Bid.spec_code()
    } else if s == "ask"@ {
        pb::PriceSide::Ask.spec_code()
    } else {
        pb::PriceSide::Mid.spec_code()
    }
}

/// Wire price side of stored text; unknown text is mid.
fn map_price_side_to_proto(s: &str) -> (r: i32)
    ensures
        r == spec_map_price_side_to_proto(s@),
{
    if str_eq(s, "bid") {
        pb::PriceSide::Bid.code()
    } else if str_eq(s, "ask") {
        pb::PriceSide::Ask.code()
    } else {
        pb::PriceSide::Mid.code()
    }
}

/// Wire activity type of stored text; unknown text is unspecified.
pub open spec fn spec_map_activity_type_to_proto(s: Seq<char>) -> i32 {
    if s == "CREATED"@ {
        pb::ActivityType::Created.spec_code()
    } else if s == "UPDATED_METADATA"@ {
        pb::ActivityType::UpdatedMetadata.spec_code()
    } else if s == "BALANCE_ADJUSTED"@ {
        pb::ActivityType::BalanceAdjusted.spec_code()
    } else if s == "RATE_RECORDED"@ {
        pb::ActivityType::RateRecorded.spec_code()
    } else if s == "PRICE_OBSERVED"@ {
        pb::ActivityType::PriceObserved.spec_code()
    } else if s == "DISPOSAL_RECORDED"@ {
        pb::ActivityType::DisposalRecorded.spec_code()
    } else if s == "STATUS_CHANGED"@ {
        pb::ActivityType::StatusChanged.spec_code()
    } else if s == "MATURITY_REACHED"@ {
        pb::ActivityType::MaturityReached.spec_code()
    } else if s == "ROLLED_OVER"@ {
        pb::ActivityType::RolledOver.spec_code()
    } else if s == "TRANSFER_INITIATED"@ {
        pb::ActivityType::TransferInitiated.spec_code()
    } else if s == "TRANSFER_COMPLETED"@ {
        pb::ActivityType::TransferCompleted.spec_code()
    } else if s == "ARCHIVED"@ {
        pb::ActivityType::Archived.spec_code()
    } else if s == "DELETED"@ {
        pb::ActivityType::Deleted.spec_code()
    } else {
        pb::ActivityType::Unspecified.spec_code()
    }
}

/// Wire activity type of stored text; unknown text is unspecified.
fn map_activity_type_to_proto(s: &str) -> (r: i32)
    ensures
        r == spec_map_activity_type_to_proto(s@),
{
    if str_eq(s, "CREATED") {
        pb::ActivityType::Created.code()
    } else if str_eq(s, "UPDATED_METADATA") {
        pb::ActivityType::UpdatedMetadata.code()
    } else if str_eq(s, "BALANCE_ADJUSTED") {
        pb::ActivityType::BalanceAdjusted.code()
    } else if str_eq(s, "RATE_RECORDED") {
        pb::ActivityType::RateRecorded.code()
    } else if str_eq(s, "PRICE_OBSERVED") {
        pb::ActivityType::PriceObserved.code()
    } else if str_eq(s, "DISPOSAL_RECORDED") {
        pb::ActivityType::DisposalRecorded.code()
    } else if str_eq(s, "STATUS_CHANGED") {
        pb::ActivityType::StatusChanged.code()
    } else if str_eq(s, "MATURITY_REACHED") {
        pb::ActivityType::MaturityReached.code()
    } else if str_eq(s, "ROLLED_OVER") {
        pb::ActivityType::RolledOver.code()
    } else if str_eq(s, "TRANSFER_INITIATED") {
        pb::ActivityType::TransferInitiated.code()
    } else if str_eq(s, "TRANSFER_COMPLETED") {
        pb::ActivityType::TransferCompleted.code()
    } else if str_eq(s, "ARCHIVED") {
        pb::ActivityType::Archived.code()
    } else if str_eq(s, "DELETED") {
        pb::ActivityType::Deleted.code()
    } else {
        pb::ActivityType::Unspecified.code()
    }
}

} // verus!
