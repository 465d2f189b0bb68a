//! HOSE stock price provider.
//!
//! Market data of the exchange is not free to scrape without a data feed
//! agreement, so this provider has no feed: it is disabled unless its flag
//! is set, and returns no prices either way.

use super::stock_exchange_of;
use crate::pb::service::portfolio as pb;
use vstd::prelude::*;

verus! {

/// The HOSE stock price provider.
#[derive(Debug, Clone, Copy)]
pub struct HoseProvider;

impl HoseProvider {
    pub fn new() -> (r: HoseProvider) {
        HoseProvider
    }

    /// Stable identifier for logs and configuration.
    pub fn name(&self) -> (r: &'static str)
        ensures
            r@ == "hose"@,
    {
        "hose"
    }

    pub open spec fn spec_supports(enabled: bool, asset: pb::PortfolioAsset) -> bool {
        &&& enabled
        &&& asset.asset_class == pb::PortfolioAssetClass::StockLot.spec_code()
        &&& stock_exchange_of(asset) == Some(pb::StockExchange::Hose.spec_code())
    }

    /// Whether this provider prices `asset`: only when `enabled` (its
    /// configuration flag), and only stock lots listed on HOSE; the
    /// other exchanges have their own providers.
    pub fn supports(&self, enabled: bool, asset: &pb::PortfolioAsset) -> (r: bool)
        ensures
            r == Self::spec_supports(enabled, *asset),
    {
        if !enabled {
            return false;
        }
        if asset.asset_class != pb::PortfolioAssetClass::StockLot.code() {
            return false;
        }
        match &asset.details {
            Some(pb::PortfolioAssetDetails::StockLot(s)) => s.exchange == pb::StockExchange::Hose.code(),
            _ => false,
        }
    }
}

} // verus!
