//! What the scheduled price refresh decides.
//!
//! Every interval the refresh job lists the active gold and stock assets,
//! hands them to the provider registry and records the returned prices as
//! observations. The listing, fetching, clock and storing happen around
//! this module; the registry it builds, the assets it hands over and the
//! observations it records are computed here.

use super::providers::{
    DojiProvider, HoseProvider, NoopProvider, ProviderFlags, ProviderPrice, ProviderRegistry,
    RegisteredProvider, SjcProvider, UpcomProvider,
};
use super::PriceSide;
use crate::converters::portfolio::{
    map_gold_lot, map_portfolio_asset, map_stock_lot, DbGoldLot, DbPortfolioAsset, DbStockLot,
    NewPriceObservation,
};
use crate::decimal::decimal_text;
use crate::pb::service::portfolio as pb;
use crate::text::{int_to_text, str_eq};
use vstd::prelude::*;

verus! {

/// The price side of a provider's side text; unknown text is mid.
pub fn convert_price_side(s: &str) -> (r: PriceSide)
    ensures
        r == PriceSide::spec_from_db(s@),
{
    PriceSide::from_db(s)
}

/// The idempotency key of an automatic observation:
/// `auto:{provider}:{now}:{asset_id}`.
pub open spec fn spec_auto_idempotency_key(provider: Seq<char>, now: i64, asset_id: Seq<char>) -> Seq<char> {
    "auto:"@ + provider + ":"@ + decimal_text(now as int, 0) + ":"@ + asset_id
}

/// The idempotency key of an automatic observation:
/// `auto:{provider}:{now}:{asset_id}`. Two refreshes of one asset by one
/// provider in the same second share the key, so the second is deduplicated.
pub fn auto_idempotency_key(provider: &str, now: i64, asset_id: &str) -> (r: String)
    ensures
        r@ == spec_auto_idempotency_key(provider@, now, asset_id@),
{
    let s = String::from_str("auto:");
    let s = s.concat(provider);
    let s = s.concat(":");
    let n = int_to_text(now);
    let s = s.concat(n.as_str());
    let s = s.concat(":");
    s.concat(asset_id)
}

/// The currency recorded for `asset_id`: that of the last listed asset with
/// that id, or `VND` when none is listed.
pub open spec fn spec_currency_for(assets: Seq<DbPortfolioAsset>, asset_id: Seq<char>) -> Seq<char>
    decreases assets.len(),
{
    if assets.len() == 0 {
        "VND"@
    } else if assets.last().id@ == asset_id {
        assets.last().currency@
    } else {
        spec_currency_for(assets.drop_last(), asset_id)
    }
}

/// The currency of the listed asset with id `asset_id`, or `VND`.
pub fn currency_for(assets: &[DbPortfolioAsset], asset_id: &str) -> (r: String)
    ensures
        r@ == spec_currency_for(assets@, asset_id@),
{
    let mut i: usize = assets.len();
    proof {
        assert(assets@.take(assets@.len() as int) =~= assets@);
    }
    while i > 0
        invariant
            i <= assets@.len(),
            spec_currency_for(assets@, asset_id@) == spec_currency_for(
                assets@.take(i as int),
                asset_id@,
            ),
        decreases i,
    {
        let a = &assets[i - 1];
        proof {
            assert(assets@.take(i as int).drop_last() =~= assets@.take(i as int - 1));
            assert(assets@.take(i as int).last() == assets@[i as int - 1]);
        }
        if str_eq(a.id.as_str(), asset_id) {
            return a.currency.clone();
        }
        i = i - 1;
    }
    String::from_str("VND")
}

/// The observation recorded for a provider's price at `now`: the provider's
/// name, side and source; the asset's currency; an automatic idempotency
/// key; and the notes only when there are some.
pub fn new_observation_for(price: &ProviderPrice, assets: &[DbPortfolioAsset], now: i64) -> (r: NewPriceObservation)
    ensures
        r.id is None,
        r.asset_id@ == price.asset_id@,
        r.provider@ == price.provider@,
        r.price_side == PriceSide::spec_from_db(price.price_side@),
        r.unit_price == price.unit_price,
        r.currency@ == spec_currency_for(assets@, price.asset_id@),
        r.observed_at == now,
        r.source_reference@ == price.source_reference@,
        r.idempotency_key matches Some(k) && k@ == spec_auto_idempotency_key(
            price.provider@,
            now,
            price.asset_id@,
        ),
        price.notes@.len() == 0 ==> r.notes is None,
        price.notes@.len() > 0 ==> (r.notes matches Some(n) && n@ == price.notes@),
{
    let key = auto_idempotency_key(price.provider.as_str(), now, price.asset_id.as_str());
    let notes = if price.notes.as_str().unicode_len() == 0 {
        None
    } else {
        Some(price.notes.clone())
    };
    NewPriceObservation {
        id: None,
        asset_id: price.asset_id.clone(),
        provider: price.provider.clone(),
        price_side: convert_price_side(price.price_side),
        unit_price: price.unit_price,
        currency: currency_for(assets, price.asset_id.as_str()),
        observed_at: now,
        source_reference: price.source_reference.clone(),
        idempotency_key: Some(key),
        notes,
    }
}

/// An asset as handed to the providers: its wire form with the lot details
/// attached for a gold or stock lot whose lot row was found, so that the
/// providers can tell whether they price it.
pub fn asset_for_refresh(asset: DbPortfolioAsset, gold: Option<DbGoldLot>, stock: Option<DbStockLot>) -> (r: pb::PortfolioAsset)
    ensures
        asset.asset_class@ == "gold_lot"@ && gold is Some ==> r.details matches Some(
            pb::PortfolioAssetDetails::GoldLot(_),
        ),
        asset.asset_class@ == "stock_lot"@ && stock is Some ==> r.details matches Some(
            pb::PortfolioAssetDetails::StockLot(_),
        ),
        !(asset.asset_class@ == "gold_lot"@ && gold is Some) && !(asset.asset_class@ == "stock_lot"@
            && stock is Some) ==> r.details is None,
        r.asset_class == crate::converters::portfolio::spec_asset_class_code(asset.asset_class@),
{
    let is_gold = str_eq(asset.asset_class.as_str(), "gold_lot");
    let is_stock = str_eq(asset.asset_class.as_str(), "stock_lot");
    proof {
        reveal_strlit("gold_lot");
        reveal_strlit("stock_lot");
        assert("gold_lot"@[0] != "stock_lot"@[0]);
    }
    let mut proto = map_portfolio_asset(asset);
    if is_gold {
        match gold {
            Some(lot) => {
                proto.details = Some(pb::PortfolioAssetDetails::GoldLot(map_gold_lot(lot)));
            },
            None => {},
        }
    } else if is_stock {
        match stock {
            Some(lot) => {
                proto.details = Some(pb::PortfolioAssetDetails::StockLot(map_stock_lot(lot)));
            },
            None => {},
        }
    }
    proto
}

pub open spec fn spec_build_registry(noop: NoopProvider, flags: ProviderFlags) -> Seq<RegisteredProvider> {
    let s0 = seq![RegisteredProvider::Noop(noop)];
    let s1 = if flags.sjc {
        s0.push(RegisteredProvider::Sjc(SjcProvider))
    } else {
        s0
    };
    let s2 = if flags.doji {
        s1.push(RegisteredProvider::Doji(DojiProvider))
    } else {
        s1
    };
    let s3 = if flags.hose {
        s2.push(RegisteredProvider::Hose(HoseProvider))
    } else {
        s2
    };
    if flags.upcom {
        s3.push(RegisteredProvider::Upcom(UpcomProvider))
    } else {
        s3
    }
}

/// The registry of a refresh: always the noop provider, then each market
/// provider whose configuration flag is on.
pub fn build_registry(noop: NoopProvider, flags: &ProviderFlags) -> (r: ProviderRegistry)
    ensures
        r.spec_providers() == spec_build_registry(noop, *flags),
{
    let mut registry = ProviderRegistry::new_with_noop(noop);
    if flags.sjc {
        registry.add(RegisteredProvider::Sjc(SjcProvider::new()));
    }
    if flags.doji {
        registry.add(RegisteredProvider::Doji(DojiProvider::new()));
    }
    if flags.hose {
        registry.add(RegisteredProvider::Hose(HoseProvider::new()));
    }
    if flags.upcom {
        registry.add(RegisteredProvider::Upcom(UpcomProvider::new()));
    }
    registry
}

} // verus!
