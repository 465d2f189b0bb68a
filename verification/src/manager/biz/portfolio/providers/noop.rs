//! Noop provider: prices nothing by default.
//!
//! Always present in the registry so the rest of the system can wire up
//! before any real provider is enabled. When test gold prices are
//! configured (a JSON map of purity name to price in minor units, e.g.
//! `{"SJC9999":7500000}`), it returns one price per gold asset whose purity
//! has a test price: useful where no live gold feed exists.

use super::{gold_purity_of, ProviderPrice};
use crate::pb::service::portfolio as pb;
use std::collections::HashMap;
use vstd::prelude::*;

verus! {

broadcast use vstd::std_specs::hash::group_hash_axioms;

/// What the JSON text holds when it is an object: its entries in key order,
/// each value as an `i64` when it is an integer that fits one
/// (`serde_json::Map` and `Value::as_i64`).
pub uninterp spec fn json_int_entries(text: Seq<char>) -> Option<Seq<(Seq<char>, Option<i64>)>>;

/// Parses `text` with `serde_json::from_str` into a `serde_json::Map` and
/// lists its entries with `Value::as_i64` of each value. The contract names
/// the result, a function of the text alone; text that is not a JSON object
/// gives `None`.
#[verifier::external_body]
fn json_object_int_entries(text: &str) -> (r: Option<Vec<(String, Option<i64>)>>)
    ensures
        r is None <==> json_int_entries(text@) is None,
        r matches Some(v) ==> json_int_entries(text@) == Some(
            v@.map_values(|e: (String, Option<i64>)| (e.0@, e.1)),
        ),
{
    let map: serde_json::Map<String, serde_json::Value> = match serde_json::from_str(text) {
        Ok(m) => m,
        Err(_) => return None,
    };
    Some(map.into_iter().map(|(k, v)| (k, v.as_i64())).collect())
}

/// The price stored for `key`.
pub open spec fn price_lookup(m: Map<i32, i64>, key: i32) -> Option<i64> {
    if m.contains_key(key) {
        Some(m[key])
    } else {
        None
    }
}

/// The wire purity for a test-price name.
pub open spec fn purity_of_name(name: Seq<char>) -> Option<i32> {
    if name == "SJC9999"@ {
        Some(pb::GoldPurity::Sjc9999.spec_code())
    } else if name == "PNJ999"@ {
        Some(pb::GoldPurity::Pnj999.spec_code())
    } else if name == "PNJ995"@ {
        Some(pb::GoldPurity::Pnj995.spec_code())
    } else if name == "DOJI9999"@ {
        Some(pb::GoldPurity::Doji9999.spec_code())
    } else {
        None
    }
}

/// The test prices of the first `n` entries: a price that is not an
/// integer counts as zero, and entries with an unknown purity are skipped.
pub open spec fn test_prices_from(entries: Seq<(Seq<char>, Option<i64>)>, n: int) -> Map<i32, i64>
    decreases n,
{
    if n <= 0 || n > entries.len() {
        Map::empty()
    } else {
        let prev = test_prices_from(entries, n - 1);
        let e = entries[n - 1];
        match purity_of_name(e.0) {
            Some(p) => prev.insert(p, e.1.unwrap_or(0)),
            None => prev,
        }
    }
}

/// (asset id, provider, unit price, side, source reference, notes) of a price.
pub open spec fn price_view(p: ProviderPrice) -> (Seq<char>, Seq<char>, i64, Seq<char>, Seq<char>, Seq<char>) {
    (p.asset_id@, p.provider@, p.unit_price, p.price_side@, p.source_reference@, p.notes@)
}

/// The test price the noop provider gives for an asset: for a gold lot
/// whose purity has a test price and which carries an id.
pub open spec fn noop_price(prices: Map<i32, i64>, asset: pb::PortfolioAsset) -> Option<
    (Seq<char>, Seq<char>, i64, Seq<char>, Seq<char>, Seq<char>),
> {
    match gold_purity_of(asset) {
        Some(p) => match price_lookup(prices, p) {
            Some(price) => match asset.base {
                Some(b) => Some((b.id@, "noop-test"@, price, "mid"@, Seq::empty(), Seq::empty())),
                None => None,
            },
            None => None,
        },
        None => None,
    }
}

/// The test prices for a list of assets, in order.
pub open spec fn noop_prices_of(prices: Map<i32, i64>, assets: Seq<pb::PortfolioAsset>) -> Seq<
    (Seq<char>, Seq<char>, i64, Seq<char>, Seq<char>, Seq<char>),
>
    decreases assets.len(),
{
    if assets.len() == 0 {
        Seq::empty()
    } else {
        noop_prices_of(prices, assets.drop_last()) + match noop_price(prices, assets.last()) {
            Some(v) => seq![v],
            None => Seq::empty(),
        }
    }
}

/// The default provider.
#[derive(Debug, Clone)]
pub struct NoopProvider {
    /// Test-mode gold prices: wire purity to price in minor units.
    test_gold_prices: HashMap<i32, i64>,
}

impl NoopProvider {
    /// The configured test prices.
    pub closed spec fn prices(self) -> Map<i32, i64> {
        self.test_gold_prices@
    }

    /// A noop provider without test prices.
    pub fn new() -> (r: NoopProvider)
        ensures
            r.prices() == Map::<i32, i64>::empty(),
    {
        NoopProvider { test_gold_prices: HashMap::new() }
    }

    /// A noop provider with the test prices configured by `json`, if any.
    pub fn with_test_prices(json: Option<&str>) -> (r: NoopProvider)
        ensures
            r.prices() == match json {
                Some(t) => match json_int_entries(t@) {
                    Some(entries) => test_prices_from(entries, entries.len() as int),
                    None => Map::empty(),
                },
                None => Map::empty(),
            },
    {
        NoopProvider { test_gold_prices: Self::parse_test_gold_prices(json) }
    }

    /// Test prices from their JSON configuration: a map of purity name
    /// (`SJC9999`, `PNJ999`, `PNJ995`, `DOJI9999`) to price. Missing or
    /// invalid configuration gives no prices; unknown purities are skipped.
    fn parse_test_gold_prices(json: Option<&str>) -> (r: HashMap<i32, i64>)
        ensures
            r@ == match json {
                Some(t) => match json_int_entries(t@) {
                    Some(entries) => test_prices_from(entries, entries.len() as int),
                    None => Map::empty(),
                },
                None => Map::empty(),
            },
    {
        let text = match json {
            Some(t) => t,
            None => {
                return HashMap::new();
            },
        };
        let entries = match json_object_int_entries(text) {
            Some(e) => e,
            None => {
                return HashMap::new();
            },
        };
        let ghost es = entries@.map_values(|e: (String, Option<i64>)| (e.0@, e.1));
        let mut result: HashMap<i32, i64> = HashMap::new();
        let mut i: usize = 0;
        while i < entries.len()
            invariant
                es == entries@.map_values(|e: (String, Option<i64>)| (e.0@, e.1)),
                i <= entries.len(),
                result@ == test_prices_from(es, i as int),
            decreases entries.len() - i,
        {
            let (name, value) = (&entries[i].0, entries[i].1);
            let price: i64 = match value {
                Some(v) => v,
                None => 0,
            };
            let purity = purity_code_of_name(name.as_str());
            match purity {
                Some(p) => {
                    result.insert(p, price);
                },
                None => {},
            }
            i = i + 1;
        }
        result
    }

    /// Stable identifier for logs and configuration.
    pub fn name(&self) -> (r: &'static str)
        ensures
            r@ == "noop"@,
    {
        "noop"
    }

    pub open spec fn spec_supports(self, asset: pb::PortfolioAsset) -> bool {
        gold_purity_of(asset) matches Some(p) && price_lookup(self.prices(), p) is Some
    }

    /// With test prices configured, the gold lots whose purity has one;
    /// otherwise nothing: real providers take precedence.
    pub fn supports(&self, asset: &pb::PortfolioAsset) -> (r: bool)
        ensures
            r == self.spec_supports(*asset),
    {
        match &asset.details {
            Some(pb::PortfolioAssetDetails::GoldLot(g)) => self.test_gold_prices.get(&g.purity).is_some(),
            _ => false,
        }
    }

    /// The test price for one asset.
    pub fn test_price_for_asset(&self, asset: &pb::PortfolioAsset) -> (r: Option<ProviderPrice>)
        ensures
            match r {
                Some(p) => noop_price(self.prices(), *asset) == Some(price_view(p)),
                None => noop_price(self.prices(), *asset) is None,
            },
    {
        let purity = match &asset.details {
            Some(pb::PortfolioAssetDetails::GoldLot(g)) => g.purity,
            _ => {
                return None;
            },
        };
        let price = match self.test_gold_prices.get(&purity) {
            Some(p) => *p,
            None => {
                return None;
            },
        };
        let id = match &asset.base {
            Some(b) => b.id.clone(),
            None => {
                return None;
            },
        };
        Some(
            ProviderPrice {
                asset_id: id,
                provider: String::from_str("noop-test"),
                unit_price: price,
                price_side: "mid",
                source_reference: String::new(),
                notes: String::new(),
            },
        )
    }

    /// The test prices for the given assets, in order.
    pub fn fetch_prices(&self, assets: &[pb::PortfolioAsset]) -> (r: Vec<ProviderPrice>)
        ensures
            r@.map_values(|p: ProviderPrice| price_view(p)) == noop_prices_of(self.prices(), assets@),
    {
        let mut out: Vec<ProviderPrice> = Vec::new();
        let mut i: usize = 0;
        while i < assets.len()
            invariant
                i <= assets.len(),
                out@.map_values(|p: ProviderPrice| price_view(p)) == noop_prices_of(
                    self.prices(),
                    assets@.take(i as int),
                ),
            decreases assets.len() - i,
        {
            let got = self.test_price_for_asset(&assets[i]);
            proof {
                assert(assets@.take(i as int + 1).drop_last() =~= assets@.take(i as int));
                assert(assets@.take(i as int + 1).last() == assets@[i as int]);
            }
            match got {
                Some(p) => {
                    let ghost before = out@.map_values(|p: ProviderPrice| price_view(p));
                    out.push(p);
                    proof {
                        assert(out@.map_values(|p: ProviderPrice| price_view(p)) =~= before + seq![
                            price_view(p),
                        ]);
                    }
                },
                None => {
                    proof {
                        assert(noop_prices_of(self.prices(), assets@.take(i as int)) + Seq::empty()
                            =~= noop_prices_of(self.prices(), assets@.take(i as int)));
                    }
                },
            }
            i = i + 1;
        }
        proof {
            assert(assets@.take(assets@.len() as int) =~= assets@);
        }
        out
    }
}

/// The wire purity for a test-price name.
fn purity_code_of_name(name: &str) -> (r: Option<i32>)
    ensures
        r == purity_of_name(name@),
{
    if crate::text::str_eq(name, "SJC9999") {
        Some(pb::GoldPurity::Sjc9999.code())
    } else if crate::text::str_eq(name, "PNJ999") {
        Some(pb::GoldPurity::Pnj999.code())
    } else if crate::text::str_eq(name, "PNJ995") {
        Some(pb::GoldPurity::Pnj995.code())
    } else if crate::text::str_eq(name, "DOJI9999") {
        Some(pb::GoldPurity::Doji9999.code())
    } else {
        None
    }
}

} // verus!
