//! DOJI gold price provider.
//!
//! Public gold price pages lack a stable public API and come with
//! commercial terms of service, so this provider has no feed: it is
//! disabled unless its flag is set, and returns no prices either way.

use super::gold_purity_of;
use crate::pb::service::portfolio as pb;
use vstd::prelude::*;

verus! {

/// The DOJI gold price provider.
#[derive(Debug, Clone, Copy)]
pub struct DojiProvider;

impl DojiProvider {
    pub fn new() -> (r: DojiProvider) {
        DojiProvider
    }

    /// Stable identifier for logs and configuration.
    pub fn name(&self) -> (r: &'static str)
        ensures
            r@ == "doji"@,
    {
        "doji"
    }

    pub open spec fn spec_supports(enabled: bool, asset: pb::PortfolioAsset) -> bool {
        &&& enabled
        &&& asset.asset_class == pb::PortfolioAssetClass::GoldLot.spec_code()
        &&& gold_purity_of(asset) matches Some(p) && (p == pb::GoldPurity::Doji9999.spec_code() || p == pb::GoldPurity::Pnj999.spec_code() || p == pb::GoldPurity::Pnj995.spec_code())
    }

    /// Whether this provider prices `asset`: only when `enabled` (its
    /// configuration flag), and only gold lots of DOJI 9999, PNJ 999 or PNJ 995 purity.
    pub fn supports(&self, enabled: bool, asset: &pb::PortfolioAsset) -> (r: bool)
        ensures
            r == Self::spec_supports(enabled, *asset),
    {
        if !enabled {
            return false;
        }
        if asset.asset_class != pb::PortfolioAssetClass::GoldLot.code() {
            return false;
        }
        match &asset.details {
            Some(pb::PortfolioAssetDetails::GoldLot(g)) => g.purity == pb::GoldPurity::Doji9999.code() || g.purity == pb::GoldPurity::Pnj999.code() || g.purity == pb::GoldPurity::Pnj995.code(),
            _ => false,
        }
    }
}

} // verus!
