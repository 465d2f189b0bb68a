//! Provider registry: the providers in play, and the routing of a price
//! refresh to them.

use super::noop::{noop_prices_of, price_view};
use super::{DojiProvider, HoseProvider, NoopProvider, ProviderPrice, SjcProvider, UpcomProvider};
use crate::pb::service::portfolio as pb;
use vstd::prelude::*;

verus! {

/// A provider in the registry.
#[derive(Debug, Clone)]
pub enum RegisteredProvider {
    Noop(NoopProvider),
    Sjc(SjcProvider),
    Doji(DojiProvider),
    Hose(HoseProvider),
    Upcom(UpcomProvider),
}

/// Which market providers their configuration flags turn on.
#[derive(Debug, Clone, Copy, PartialEq, Eq, Structural)]
pub struct ProviderFlags {
    pub sjc: bool,
    pub doji: bool,
    pub hose: bool,
    pub upcom: bool,
}

impl RegisteredProvider {
    pub open spec fn spec_name(self) -> Seq<char> {
        match self {
            RegisteredProvider::Noop(_) => "noop"@,
            RegisteredProvider::Sjc(_) => "sjc"@,
            RegisteredProvider::Doji(_) => "doji"@,
            RegisteredProvider::Hose(_) => "hose"@,
            RegisteredProvider::Upcom(_) => "upcom"@,
        }
    }

    /// Stable identifier for logs and configuration.
    pub fn name(&self) -> (r: &'static str)
        ensures
            r@ == self.spec_name(),
    {
        match self {
            RegisteredProvider::Noop(p) => p.name(),
            RegisteredProvider::Sjc(p) => p.name(),
            RegisteredProvider::Doji(p) => p.name(),
            RegisteredProvider::Hose(p) => p.name(),
            RegisteredProvider::Upcom(p) => p.name(),
        }
    }

    pub open spec fn spec_supports(self, flags: ProviderFlags, asset: pb::PortfolioAsset) -> bool {
        match self {
            RegisteredProvider::Noop(p) => p.spec_supports(asset),
            RegisteredProvider::Sjc(_) => SjcProvider::spec_supports(flags.sjc, asset),
            RegisteredProvider::Doji(_) => DojiProvider::spec_supports(flags.doji, asset),
            RegisteredProvider::Hose(_) => HoseProvider::spec_supports(flags.hose, asset),
            RegisteredProvider::Upcom(_) => UpcomProvider::spec_supports(flags.upcom, asset),
        }
    }

    /// Whether the provider claims `asset`.
    pub fn supports(&self, flags: &ProviderFlags, asset: &pb::PortfolioAsset) -> (r: bool)
        ensures
            r == self.spec_supports(*flags, *asset),
    {
        match self {
            RegisteredProvider::Noop(p) => p.supports(asset),
            RegisteredProvider::Sjc(p) => p.supports(flags.sjc, asset),
            RegisteredProvider::Doji(p) => p.supports(flags.doji, asset),
            RegisteredProvider::Hose(p) => p.supports(flags.hose, asset),
            RegisteredProvider::Upcom(p) => p.supports(flags.upcom, asset),
        }
    }

    /// The prices the provider returns for a list of assets: the noop
    /// provider's test prices; the market providers have no feed yet and
    /// return none.
    pub open spec fn spec_fetch(self, assets: Seq<pb::PortfolioAsset>) -> Seq<
        (Seq<char>, Seq<char>, i64, Seq<char>, Seq<char>, Seq<char>),
    > {
        match self {
            RegisteredProvider::Noop(p) => noop_prices_of(p.prices(), assets),
            _ => Seq::empty(),
        }
    }

    /// Fetches the latest prices for the supplied assets.
    pub fn fetch(&self, assets: &[pb::PortfolioAsset]) -> (r: Vec<ProviderPrice>)
        ensures
            r@.map_values(|p: ProviderPrice| price_view(p)) == self.spec_fetch(assets@),
    {
        match self {
            RegisteredProvider::Noop(p) => p.fetch_prices(assets),
            _ => {
                let v: Vec<ProviderPrice> = Vec::new();
                proof {
                    assert(v@.map_values(|p: ProviderPrice| price_view(p)) =~= Seq::empty());
                }
                v
            },
        }
    }

    /// The prices the provider gives for the assets among `assets` that it
    /// claims: it is handed those assets alone, in order.
    pub fn fetch_claimed(&self, flags: &ProviderFlags, assets: &[pb::PortfolioAsset]) -> (r: Vec<
        ProviderPrice,
    >)
        ensures
            r@.map_values(|p: ProviderPrice| price_view(p)) == self.spec_fetch(
                supported_assets(*self, *flags, assets@),
            ),
    {
        let mut out: Vec<ProviderPrice> = Vec::new();
        let mut i: usize = 0;
        while i < assets.len()
            invariant
                i <= assets@.len(),
                out@.map_values(|p: ProviderPrice| price_view(p)) == self.spec_fetch(
                    supported_assets(*self, *flags, assets@.take(i as int)),
                ),
            decreases assets.len() - i,
        {
            let ghost prev = supported_assets(*self, *flags, assets@.take(i as int));
            let ghost before = out@.map_values(|p: ProviderPrice| price_view(p));
            proof {
                assert(assets@.take(i as int + 1).drop_last() =~= assets@.take(i as int));
                assert(assets@.take(i as int + 1).last() == assets@[i as int]);
            }
            if self.supports(flags, &assets[i]) {
                let ghost x = assets@[i as int];
                proof {
                    assert((prev + seq![x]).drop_last() =~= prev);
                    assert((prev + seq![x]).last() == x);
                }
                match self {
                    RegisteredProvider::Noop(n) => {
                        match n.test_price_for_asset(&assets[i]) {
                            Some(price) => {
                                out.push(price);
                                proof {
                                    assert(out@.map_values(|p: ProviderPrice| price_view(p))
                                        =~= before + seq![price_view(price)]);
                                }
                            },
                            None => {
                                proof {
                                    assert(before + Seq::empty() =~= before);
                                }
                            },
                        }
                    },
                    _ => {},
                }
            } else {
                proof {
                    assert(prev + Seq::<pb::PortfolioAsset>::empty() =~= prev);
                }
            }
            i = i + 1;
        }
        proof {
            assert(assets@.take(assets@.len() as int) =~= assets@);
        }
        out
    }
}

/// The assets among `assets` that a provider claims, in order.
pub open spec fn supported_assets(
    p: RegisteredProvider,
    flags: ProviderFlags,
    assets: Seq<pb::PortfolioAsset>,
) -> Seq<pb::PortfolioAsset>
    decreases assets.len(),
{
    if assets.len() == 0 {
        Seq::empty()
    } else {
        supported_assets(p, flags, assets.drop_last()) + if p.spec_supports(flags, assets.last()) {
            seq![assets.last()]
        } else {
            Seq::empty()
        }
    }
}

/// All prices of a refresh: each provider in turn is handed the assets it
/// claims, and is skipped when it claims none.
pub open spec fn registry_prices(
    providers: Seq<RegisteredProvider>,
    flags: ProviderFlags,
    assets: Seq<pb::PortfolioAsset>,
) -> Seq<(Seq<char>, Seq<char>, i64, Seq<char>, Seq<char>, Seq<char>)>
    decreases providers.len(),
{
    if providers.len() == 0 {
        Seq::empty()
    } else {
        let p = providers.last();
        let claimed = supported_assets(p, flags, assets);
        registry_prices(providers.drop_last(), flags, assets) + if claimed.len() > 0 {
            p.spec_fetch(claimed)
        } else {
            Seq::empty()
        }
    }
}

/// The registered providers, in the order they were added.
#[derive(Debug, Clone)]
pub struct ProviderRegistry {
    providers: Vec<RegisteredProvider>,
}

impl ProviderRegistry {
    pub closed spec fn spec_providers(self) -> Seq<RegisteredProvider> {
        self.providers@
    }

    /// A registry that holds the noop provider only.
    pub fn new_with_noop(noop: NoopProvider) -> (r: ProviderRegistry)
        ensures
            r.spec_providers() == seq![RegisteredProvider::Noop(noop)],
    {
        let mut providers: Vec<RegisteredProvider> = Vec::new();
        providers.push(RegisteredProvider::Noop(noop));
        ProviderRegistry { providers }
    }

    /// Adds a provider after the others.
    pub fn add(&mut self, provider: RegisteredProvider)
        ensures
            final(self).spec_providers() == old(self).spec_providers().push(provider),
    {
        self.providers.push(provider);
    }

    /// The registered providers.
    pub fn providers(&self) -> (r: &[RegisteredProvider])
        ensures
            r@ == self.spec_providers(),
    {
        self.providers.as_slice()
    }

    /// `true` when the only registered provider is the noop one, so that a
    /// refresh can be skipped.
    pub fn is_noop_only(&self) -> (r: bool)
        ensures
            r == (self.spec_providers().len() == 1 && self.spec_providers()[0].spec_name()
                == "noop"@),
    {
        if self.providers.len() != 1 {
            return false;
        }
        crate::text::str_eq(self.providers[0].name(), "noop")
    }

    /// Every provider in turn gets the assets it claims, and all returned
    /// prices are collected.
    pub fn fetch_all(&self, flags: &ProviderFlags, assets: &[pb::PortfolioAsset]) -> (r: Vec<
        ProviderPrice,
    >)
        ensures
            r@.map_values(|p: ProviderPrice| price_view(p)) == registry_prices(
                self.spec_providers(),
                *flags,
                assets@,
            ),
    {
        let mut out: Vec<ProviderPrice> = Vec::new();
        let mut i: usize = 0;
        while i < self.providers.len()
            invariant
                i <= self.providers@.len(),
                out@.map_values(|p: ProviderPrice| price_view(p)) == registry_prices(
                    self.providers@.take(i as int),
                    *flags,
                    assets@,
                ),
            decreases self.providers.len() - i,
        {
            let p = &self.providers[i];
            let claims = has_supported(p, flags, assets);
            let ghost before = out@.map_values(|q: ProviderPrice| price_view(q));
            proof {
                assert(self.providers@.take(i as int + 1).drop_last() =~= self.providers@.take(
                    i as int,
                ));
                assert(self.providers@.take(i as int + 1).last() == *p);
            }
            if claims {
                let mut got = p.fetch_claimed(flags, assets);
                let ghost got_view = got@.map_values(|q: ProviderPrice| price_view(q));
                out.append(&mut got);
                proof {
                    assert(out@.map_values(|q: ProviderPrice| price_view(q)) =~= before + got_view);
                }
            } else {
                proof {
                    assert(before + Seq::empty() =~= before);
                }
            }
            i = i + 1;
        }
        proof {
            assert(self.providers@.take(self.providers@.len() as int) =~= self.providers@);
        }
        out
    }
}

/// Whether a provider claims any of the assets.
fn has_supported(p: &RegisteredProvider, flags: &ProviderFlags, assets: &[pb::PortfolioAsset]) -> (r: bool)
    ensures
        r == (supported_assets(*p, *flags, assets@).len() > 0),
{
    let mut i: usize = 0;
    while i < assets.len()
        invariant
            i <= assets.len(),
            supported_assets(*p, *flags, assets@.take(i as int)).len() == 0,
        decreases assets.len() - i,
    {
        proof {
            assert(assets@.take(i as int + 1).drop_last() =~= assets@.take(i as int));
            assert(assets@.take(i as int + 1).last() == assets@[i as int]);
        }
        if p.supports(flags, &assets[i]) {
            proof {
                lemma_supported_prefix_grows(*p, *flags, assets@, i as int + 1);
            }
            return true;
        }
        i = i + 1;
    }
    proof {
        assert(assets@.take(assets@.len() as int) =~= assets@);
    }
    false
}

/// Once a prefix holds a claimed asset, so does every longer prefix.
proof fn lemma_supported_prefix_grows(
    p: RegisteredProvider,
    flags: ProviderFlags,
    assets: Seq<pb::PortfolioAsset>,
    k: int,
)
    requires
        0 < k <= assets.len(),
        supported_assets(p, flags, assets.take(k)).len() > 0,
    ensures
        supported_assets(p, flags, assets).len() > 0,
    decreases assets.len() - k,
{
    if k < assets.len() {
        assert(assets.take(k + 1).drop_last() =~= assets.take(k));
        lemma_supported_prefix_grows(p, flags, assets, k + 1);
    } else {
        assert(assets.take(k) =~= assets);
    }
}

} // verus!
