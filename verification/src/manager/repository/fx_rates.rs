//! FX rates: the cache of the latest rate per currency pair, and
//! conversion of amounts with it.

use crate::text::str_eq;
use vstd::prelude::*;

verus! {

/// A stored FX rate row: one unit of `from_currency` is `rate` minor units
/// of `to_currency`.
#[derive(Debug, Clone)]
pub struct DbFxRate {
    pub id: String,
    pub from_currency: String,
    pub to_currency: String,
    pub rate: i64,
    pub effective_date: String,
    pub created_at: i64,
    pub updated_at: i64,
    pub deleted_at: Option<i64>,
}

/// A cached rate.
#[derive(Debug, Clone)]
pub struct FxEntry {
    pub from_currency: String,
    pub to_currency: String,
    pub rate: i64,
    pub effective_date: String,
}

/// Index of the entry for (`from`, `to`) at or after `i`, or -1.
pub open spec fn pair_index(cache: Seq<FxEntry>, from: Seq<char>, to: Seq<char>, i: int) -> int
    decreases cache.len() - i,
{
    if i < 0 || i >= cache.len() {
        -1
    } else if cache[i].from_currency@ == from && cache[i].to_currency@ == to {
        i
    } else {
        pair_index(cache, from, to, i + 1)
    }
}

/// The cached rate for (`from`, `to`).
pub open spec fn rate_of(cache: Seq<FxEntry>, from: Seq<char>, to: Seq<char>) -> Option<i64> {
    let j = pair_index(cache, from, to, 0);
    if j >= 0 {
        Some(cache[j].rate)
    } else {
        None
    }
}

/// The rates the cache keeps from the first `n` rows: the first row seen
/// for each pair. Rows come sorted by pair and latest date first, so that
/// is the latest rate.
pub open spec fn rates_from_rows(rows: Seq<DbFxRate>, n: int) -> Seq<(Seq<char>, Seq<char>, i64)>
    decreases n,
{
    if n <= 0 || n > rows.len() {
        Seq::empty()
    } else {
        let prev = rates_from_rows(rows, n - 1);
        let row = rows[n - 1];
        if exists|k: int|
            0 <= k < prev.len() && (#[trigger] prev[k]).0 == row.from_currency@ && prev[k].1
                == row.to_currency@ {
            prev
        } else {
            prev.push((row.from_currency@, row.to_currency@, row.rate))
        }
    }
}

/// `a / b` rounded towards zero, as `i64` division does.
pub open spec fn div_trunc(a: int, b: int) -> int {
    if a == 0 {
        0
    } else if a > 0 && b > 0 {
        a / b
    } else if a < 0 && b < 0 {
        (a * -1) / (b * -1)
    } else if a < 0 {
        ((a * -1) / b) * -1
    } else {
        (a / (b * -1)) * -1
    }
}

/// What converting `amount` from `from` to `to` gives: the amount itself
/// for one currency; divided by the direct rate (one `from` is `rate` of
/// `to`); multiplied by the rate of the inverse pair; unchanged when no
/// rate is known.
pub open spec fn spec_convert(cache: Seq<FxEntry>, amount: int, from: Seq<char>, to: Seq<char>) -> int {
    if from == to {
        amount
    } else {
        match rate_of(cache, from, to) {
            Some(r) => div_trunc(amount, r as int),
            None => match rate_of(cache, to, from) {
                Some(r) => amount * r,
                None => amount,
            },
        }
    }
}

/// Whether `convert` can compute the amount: the rate it divides by is
/// not zero (and not a division of `i64::MIN` by -1), and the product it
/// multiplies fits an `i64`.
pub open spec fn convert_defined(cache: Seq<FxEntry>, amount: int, from: Seq<char>, to: Seq<char>) -> bool {
    from == to || match rate_of(cache, from, to) {
        Some(r) => r != 0 && !(amount == i64::MIN && r == -1),
        None => match rate_of(cache, to, from) {
            Some(r) => i64::MIN <= amount * r <= i64::MAX,
            None => true,
        },
    }
}

/// Converts amounts with cached FX rates, without touching the database.
#[derive(Debug, Clone)]
pub struct FxRateService {
    cache: Vec<FxEntry>,
}

impl FxRateService {
    pub closed spec fn spec_cache(self) -> Seq<FxEntry> {
        self.cache@
    }

    /// The (from, to, rate) triples of the cache.
    pub open spec fn spec_rates(self) -> Seq<(Seq<char>, Seq<char>, i64)> {
        self.spec_cache().map_values(|e: FxEntry| (e.from_currency@, e.to_currency@, e.rate))
    }

    /// A service whose cache keeps the first row of each currency pair.
    pub fn from_rows(rows: &[DbFxRate]) -> (r: FxRateService)
        ensures
            r.spec_rates() == rates_from_rows(rows@, rows@.len() as int),
    {
        let mut cache: Vec<FxEntry> = Vec::new();
        let mut i: usize = 0;
        while i < rows.len()
            invariant
                i <= rows.len(),
                cache@.map_values(|e: FxEntry| (e.from_currency@, e.to_currency@, e.rate))
                    == rates_from_rows(rows@, i as int),
            decreases rows.len() - i,
        {
            let row = &rows[i];
            let ghost prev = rates_from_rows(rows@, i as int);
            let found = find_pair(&cache, row.from_currency.as_str(), row.to_currency.as_str());
            match found {
                Some(j) => {
                    proof {
                        lemma_pair_index_found(cache@, row.from_currency@, row.to_currency@, 0);
                        assert(prev[j as int].0 == row.from_currency@);
                        assert(prev[j as int].1 == row.to_currency@);
                    }
                },
                None => {
                    proof {
                        lemma_pair_absent(cache@, row.from_currency@, row.to_currency@);
                    }
                    cache.push(
                        FxEntry {
                            from_currency: row.from_currency.clone(),
                            to_currency: row.to_currency.clone(),
                            rate: row.rate,
                            effective_date: row.effective_date.clone(),
                        },
                    );
                    proof {
                        assert(cache@.map_values(
                            |e: FxEntry| (e.from_currency@, e.to_currency@, e.rate),
                        ) =~= prev.push((rows@[i as int].from_currency@, rows@[i as int].to_currency@, rows@[i as int].rate)));
                    }
                },
            }
            i = i + 1;
        }
        FxRateService { cache }
    }

    /// Convert `amount` (in minor units) from `from` currency to `to`
    /// currency. Returns `amount` unchanged when no rate is found.
    ///
    /// Rate semantics: the stored rate for (from, to) means one unit of
    /// `from` is `rate` minor units of `to`. With the rate VND→USD =
    /// 25000: `convert(750_000_000, "VND", "USD") = 30_000` and
    /// `convert(100, "USD", "VND") = 2_500_000`.
    pub fn convert(&self, amount: i64, from: &str, to: &str) -> (r: i64)
        requires
            convert_defined(self.spec_cache(), amount as int, from@, to@),
        ensures
            r == spec_convert(self.spec_cache(), amount as int, from@, to@),
    {
        if str_eq(from, to) {
            return amount;
        }
        match find_pair(&self.cache, from, to) {
            Some(j) => {
                return div_toward_zero(amount, self.cache[j].rate);
            },
            None => {},
        }
        match find_pair(&self.cache, to, from) {
            Some(j) => {
                return amount * self.cache[j].rate;
            },
            None => {},
        }
        amount
    }
}

/// `a / b` as `i64` division computes it.
pub(crate) fn div_toward_zero(a: i64, b: i64) -> (r: i64)
    requires
        b != 0,
        !(a == i64::MIN && b == -1),
    ensures
        r == div_trunc(a as int, b as int),
{
    proof {
        let x = a as int;
        let d = b as int;
        if x > 0 && d > 0 {
            lemma_div_bounded(x, d);
        } else if x < 0 && d < 0 {
            lemma_div_bounded(-x, -d);
            if d < -1 {
                vstd::arithmetic::div_mod::lemma_div_is_ordered_by_denominator(-x, 2, -d);
            }
        } else if x < 0 {
            lemma_div_bounded(-x, d);
        } else if x > 0 {
            lemma_div_bounded(x, -d);
        }
    }
    match a.checked_div(b) {
        Some(v) => v,
        None => 0,
    }
}

proof fn lemma_div_bounded(x: int, d: int)
    requires
        x >= 0,
        d >= 1,
    ensures
        0 <= x / d <= x,
{
    vstd::arithmetic::div_mod::lemma_div_pos_is_pos(x, d);
    vstd::arithmetic::div_mod::lemma_div_is_ordered_by_denominator(x, 1, d);
}

proof fn lemma_pair_index_found(cache: Seq<FxEntry>, from: Seq<char>, to: Seq<char>, i: int)
    requires
        0 <= i,
        pair_index(cache, from, to, i) >= 0,
    ensures
        i <= pair_index(cache, from, to, i) < cache.len(),
        cache[pair_index(cache, from, to, i)].from_currency@ == from,
        cache[pair_index(cache, from, to, i)].to_currency@ == to,
    decreases cache.len() - i,
{
    if i < cache.len() && !(cache[i].from_currency@ == from && cache[i].to_currency@ == to) {
        lemma_pair_index_found(cache, from, to, i + 1);
    }
}

fn find_pair(cache: &Vec<FxEntry>, from: &str, to: &str) -> (r: Option<usize>)
    ensures
        match r {
            Some(j) => pair_index(cache@, from@, to@, 0) == j && j < cache@.len(),
            None => pair_index(cache@, from@, to@, 0) == -1,
        },
{
    let mut i: usize = 0;
    while i < cache.len()
        invariant
            i <= cache.len(),
            pair_index(cache@, from@, to@, 0) == pair_index(cache@, from@, to@, i as int),
        decreases cache.len() - i,
    {
        if str_eq(cache[i].from_currency.as_str(), from) && str_eq(cache[i].to_currency.as_str(), to) {
            return Some(i);
        }
        i = i + 1;
    }
    None
}

proof fn lemma_pair_absent(cache: Seq<FxEntry>, from: Seq<char>, to: Seq<char>)
    requires
        pair_index(cache, from, to, 0) == -1,
    ensures
        forall|k: int|
            0 <= k < cache.len() ==> !((#[trigger] cache[k]).from_currency@ == from
                && cache[k].to_currency@ == to),
{
    assert forall|k: int|
        0 <= k < cache.len() implies !((#[trigger] cache[k]).from_currency@ == from
            && cache[k].to_currency@ == to) by {
        lemma_pair_index_skips(cache, from, to, 0, k);
    }
}

proof fn lemma_pair_index_skips(cache: Seq<FxEntry>, from: Seq<char>, to: Seq<char>, i: int, k: int)
    requires
        0 <= i <= k < cache.len(),
        pair_index(cache, from, to, i) == -1,
    ensures
        !(cache[k].from_currency@ == from && cache[k].to_currency@ == to),
    decreases k - i,
{
    if i < k {
        lemma_pair_index_skips(cache, from, to, i + 1, k);
    }
}

/// Converting an amount to its own currency leaves it unchanged, and so
/// does converting between two currencies without a rate either way.
pub proof fn lemma_convert_unchanged(cache: Seq<FxEntry>, amount: int, from: Seq<char>, to: Seq<char>)
    requires
        from == to || (rate_of(cache, from, to) is None && rate_of(cache, to, from) is None),
    ensures
        convert_defined(cache, amount, from, to),
        spec_convert(cache, amount, from, to) == amount,
{
}


} // verus!
