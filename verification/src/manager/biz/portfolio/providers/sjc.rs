//! SJC gold price provider.
//!
//! Public gold price pages lack a stable public API and come with
//! commercial terms of service, so this provider has no feed: it is
//! disabled unless its flag is set, and returns no prices either way.

use super::gold_purity_of;
use crate::pb::service::portfolio as pb;
use vstd::prelude::*;

verus! {

/// The SJC gold price provider.
#[derive(Debug, Clone, Copy)]
pub struct SjcProvider;

impl SjcProvider {
    pub fn new() -> (r: SjcProvider) {
        SjcProvider
    }

    /// Stable identifier for logs and configuration.
    pub fn name(&self) -> (r: &'static str)
        ensures
            r@ == "sjc"@,
    {
        "sjc"
    }

    pub open spec fn spec_supports(enabled: bool, asset: pb::PortfolioAsset) -> bool {
        &&& enabled
        &&& asset.asset_class == pb::PortfolioAssetClass::GoldLot.spec_code()
        &&& gold_purity_of(asset) matches Some(p) && (p == pb::GoldPurity::Sjc9999.spec_code() || p == pb::GoldPurity::Doji9999.spec_code())
    }

    /// Whether this provider prices `asset`: only when `enabled` (its
    /// configuration flag), and only gold lots of SJC 9999 or DOJI 9999 purity.
    pub fn supports(&self, enabled: bool, asset: &pb::PortfolioAsset) -> (r: bool)
        ensures
            r == Self::spec_supports(enabled, *asset),
    {
        if !enabled {
            return false;
        }
        if asset.asset_class != pb::PortfolioAssetClass::GoldLot.code() {
            return false;
        }
        match &asset.details {
            Some(pb::PortfolioAssetDetails::GoldLot(g)) => g.purity == pb::GoldPurity::Sjc9999.code() || g.purity == pb::GoldPurity::Doji9999.code(),
            _ => false,
        }
    }
}

} // verus!
