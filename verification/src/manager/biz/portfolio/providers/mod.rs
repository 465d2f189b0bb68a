//! Price providers and their registry.
//!
//! Each provider knows which assets it prices (gold bars of some purities,
//! stocks of one exchange) and fetches their latest prices. The market
//! providers are disabled unless their configuration flag is set, and have
//! no feed yet: they return no prices. The noop provider is always present
//! and only prices gold when test prices are configured.

pub mod doji;
pub mod hose;
pub mod noop;
pub mod registry;
pub mod sjc;
pub mod upcom;

pub use doji::DojiProvider;
pub use hose::HoseProvider;
pub use noop::NoopProvider;
pub use registry::{ProviderFlags, ProviderRegistry, RegisteredProvider};
pub use sjc::SjcProvider;
pub use upcom::UpcomProvider;

use crate::pb::service::portfolio as pb;
use vstd::prelude::*;

verus! {

/// One price observation produced by a provider.
#[derive(Debug, Clone)]
pub struct ProviderPrice {
    /// Asset id this observation belongs to.
    pub asset_id: String,
    /// Provider name (e.g. "sjc", "hose"), kept with the observation so the
    /// audit trail keeps the data source.
    pub provider: String,
    /// Unit price in the asset's currency, in minor units.
    pub unit_price: i64,
    /// Side: bid / ask / mid, as stored text.
    pub price_side: &'static str,
    /// Optional source reference (URL, batch id, etc.).
    pub source_reference: String,
    /// Optional free-form note.
    pub notes: String,
}

/// The gold purity of an asset, when it is a gold lot with details.
pub open spec fn gold_purity_of(asset: pb::PortfolioAsset) -> Option<i32> {
    match asset.details {
        Some(pb::PortfolioAssetDetails::GoldLot(g)) => Some(g.purity),
        _ => None,
    }
}

/// The exchange of an asset, when it is a stock lot with details.
pub open spec fn stock_exchange_of(asset: pb::PortfolioAsset) -> Option<i32> {
    match asset.details {
        Some(pb::PortfolioAssetDetails::StockLot(s)) => Some(s.exchange),
        _ => None,
    }
}

/// Whether a configuration flag's text turns a provider on: `1`, or
/// `true` in any ASCII case.
pub open spec fn spec_flag_enabled(value: Option<Seq<char>>) -> bool {
    match value {
        Some(v) => v == "1"@ || crate::text::ascii_lower_seq(v) == "true"@,
        None => false,
    }
}

/// Whether a configuration flag's text turns a provider on: `1`, or
/// `true` in any ASCII case; an unset flag is off.
pub fn flag_enabled(value: Option<&str>) -> (r: bool)
    ensures
        r == spec_flag_enabled(
            match value {
                Some(v) => Some(v@),
                None => None,
            },
        ),
{
    match value {
        Some(v) => crate::text::str_eq(v, "1") || crate::text::lower_eq(v, "true"),
        None => false,
    }
}

} // verus!
