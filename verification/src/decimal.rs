//! Exact decimal numbers backed by `rust_decimal`.
//!
//! A `Dec` holds the two plain values that define a `rust_decimal::Decimal`:
//! a signed mantissa of at most 96 bits and a scale between 0 and 28, so that
//! the number is `mantissa / 10^scale`. Contracts speak of `val`, the number
//! multiplied by `10^28`, which is always an integer.
//!
//! All arithmetic is delegated to `rust_decimal` through the trusted wrappers
//! at the end of this file.

use rust_decimal::Decimal;
use std::str::FromStr;
use vstd::prelude::*;
use vstd::std_specs::cmp::PartialEqSpecImpl;

verus! {

/// `10^n`.
pub open spec fn pow10(n: nat) -> int
    decreases n,
{
    if n == 0 {
        1
    } else {
        10 * pow10((n - 1) as nat)
    }
}

/// `2^96`: one more than the largest mantissa magnitude.
pub open spec fn mant_bound() -> int {
    79228162514264337593543950336
}

/// `2^95`: overflow-free bound used by the multiplication facts.
pub open spec fn half_mant_bound() -> int {
    39614081257132168796771975168
}

/// `m / 10^s` expressed in units of `10^-28`.
pub open spec fn scaled_value(m: int, s: nat) -> int {
    m * pow10((28 - s) as nat)
}

pub open spec fn abs(x: int) -> int {
    if x < 0 {
        -x
    } else {
        x
    }
}

pub open spec fn max_nat(a: nat, b: nat) -> nat {
    if a >= b {
        a
    } else {
        b
    }
}

/// Round `n / d` to the nearest integer, ties to the even neighbour.
pub open spec fn round_half_even(n: int, d: int) -> int
    recommends
        d > 0,
{
    let q = n / d;
    let r = n % d;
    if 2 * r < d {
        q
    } else if 2 * r > d {
        q + 1
    } else if q % 2 == 0 {
        q
    } else {
        q + 1
    }
}

/// `n / d` truncated towards zero.
pub open spec fn trunc_div(n: int, d: int) -> int
    recommends
        d > 0,
{
    if n >= 0 {
        n / d
    } else {
        -((-n) / d)
    }
}

pub open spec fn in_i64(x: int) -> bool {
    i64::MIN <= x <= i64::MAX
}

/// Decimal digits of `n` without leading zeros (empty for zero).
pub open spec fn digits_of(n: nat) -> Seq<char>
    decreases n,
{
    if n == 0 {
        Seq::empty()
    } else {
        digits_of(n / 10).push(digit_char(n % 10))
    }
}

pub open spec fn digit_char(d: nat) -> char {
    if d == 0 {
        '0'
    } else if d == 1 {
        '1'
    } else if d == 2 {
        '2'
    } else if d == 3 {
        '3'
    } else if d == 4 {
        '4'
    } else if d == 5 {
        '5'
    } else if d == 6 {
        '6'
    } else if d == 7 {
        '7'
    } else if d == 8 {
        '8'
    } else {
        '9'
    }
}

pub open spec fn zeros(k: nat) -> Seq<char> {
    Seq::new(k, |i: int| '0')
}

/// Plain text of `m / 10^s`: all `s` fractional digits are kept, a lone
/// leading `0` stands before the point, and a minus sign leads negatives.
pub open spec fn decimal_text(m: int, s: nat) -> Seq<char> {
    let d = digits_of(abs(m) as nat);
    let padded = if d.len() < s {
        zeros((s - d.len()) as nat) + d
    } else {
        d
    };
    let whole = padded.len() - s;
    let body = if s == 0 {
        if padded.len() == 0 {
            seq!['0']
        } else {
            padded
        }
    } else {
        (if whole == 0 {
            seq!['0']
        } else {
            padded.take(whole)
        }) + seq!['.'] + padded.skip(whole)
    };
    if m < 0 {
        seq!['-'] + body
    } else {
        body
    }
}

/// What `rust_decimal::Decimal::from_str` gives for a text, as (mantissa, scale).
pub uninterp spec fn decimal_from_str(s: Seq<char>) -> Option<(int, int)>;

/// What `rust_decimal::Decimal::checked_add` gives, as (mantissa, scale).
pub uninterp spec fn decimal_checked_add(a: (int, int), b: (int, int)) -> Option<(int, int)>;

/// What `rust_decimal::Decimal::checked_sub` gives, as (mantissa, scale).
pub uninterp spec fn decimal_checked_sub(a: (int, int), b: (int, int)) -> Option<(int, int)>;

/// What `rust_decimal::Decimal::checked_mul` gives, as (mantissa, scale).
pub uninterp spec fn decimal_checked_mul(a: (int, int), b: (int, int)) -> Option<(int, int)>;

/// What `rust_decimal::Decimal::checked_div` gives, as (mantissa, scale).
pub uninterp spec fn decimal_checked_div(a: (int, int), b: (int, int)) -> Option<(int, int)>;

/// A decimal number `mantissa / 10^scale`.
#[derive(Clone, Copy, Debug)]
pub struct Dec {
    mantissa: i128,
    scale: u32,
}

impl Dec {
    #[verifier::type_invariant]
    spec fn inv(self) -> bool {
        &&& self.scale <= 28
        &&& -mant_bound() < self.mantissa < mant_bound()
    }

    pub closed spec fn m(self) -> int {
        self.mantissa as int
    }

    /// The scale; a decimal never carries more than 28.
    pub closed spec fn s(self) -> nat {
        if self.scale <= 28 {
            self.scale as nat
        } else {
            28
        }
    }

    pub proof fn lemma_scale_bound(self)
        ensures
            self.s() <= 28,
    {
    }

    /// The number times `10^28`.
    pub open spec fn val(self) -> int {
        scaled_value(self.m(), self.s())
    }

    /// The (mantissa, scale) pair.
    pub open spec fn parts(self) -> (int, int) {
        (self.m(), self.s() as int)
    }

    /// Bounds that every decimal satisfies.
    pub open spec fn valid(self) -> bool {
        &&& self.s() <= 28
        &&& -mant_bound() < self.m() < mant_bound()
    }

    /// Re-states the bounds of this value for the caller's proof.
    pub fn check(&self)
        ensures
            self.valid(),
    {
        proof {
            use_type_invariant(self);
        }
    }

    pub fn mantissa(&self) -> (r: i128)
        ensures
            r == self.m(),
            self.valid(),
    {
        proof {
            use_type_invariant(self);
        }
        self.mantissa
    }

    pub fn scale(&self) -> (r: u32)
        ensures
            r == self.s(),
            self.valid(),
    {
        proof {
            use_type_invariant(self);
        }
        self.scale
    }

    pub fn zero() -> (r: Dec)
        ensures
            r.m() == 0,
            r.s() == 0,
            r.val() == 0,
    {
        Dec { mantissa: 0, scale: 0 }
    }

    /// The integer `n` at scale zero.
    pub fn from_i64(n: i64) -> (r: Dec)
        ensures
            r.m() == n,
            r.s() == 0,
            r.val() == n * pow10(28),
    {
        Dec { mantissa: n as i128, scale: 0 }
    }

    /// `m / 10^s` when `m` and `s` are in range.
    pub fn from_parts(m: i128, s: u32) -> (r: Option<Dec>)
        ensures
            r is Some <==> (s <= 28 && -mant_bound() < m < mant_bound()),
            r matches Some(d) ==> d.m() == m && d.s() == s,
    {
        if s <= 28 && -79228162514264337593543950336i128 < m && m < 79228162514264337593543950336i128 {
            Some(Dec { mantissa: m, scale: s })
        } else {
            None
        }
    }

    pub fn is_zero(&self) -> (r: bool)
        ensures
            r == (self.val() == 0),
    {
        proof {
            lemma_pow10_pos((28 - self.s()) as nat);
            vstd::arithmetic::mul::lemma_mul_nonzero(self.m(), pow10((28 - self.s()) as nat));
        }
        self.mantissa == 0
    }

    pub fn is_positive(&self) -> (r: bool)
        ensures
            r == (self.val() > 0),
    {
        proof {
            lemma_pow10_pos((28 - self.s()) as nat);
            lemma_sign_of_scaled(self.m(), pow10((28 - self.s()) as nat));
        }
        self.mantissa > 0
    }

    pub fn is_negative(&self) -> (r: bool)
        ensures
            r == (self.val() < 0),
    {
        proof {
            lemma_pow10_pos((28 - self.s()) as nat);
            lemma_sign_of_scaled(self.m(), pow10((28 - self.s()) as nat));
        }
        self.mantissa < 0
    }

    /// Parses decimal text the way `rust_decimal` does.
    pub fn parse(s: &str) -> (r: Option<Dec>)
        ensures
            r is None <==> decimal_from_str(s@) is None,
            r matches Some(d) ==> decimal_from_str(s@) == Some(d.parts()),
    {
        dec_from_str(s)
    }

    /// Plain text of the number, e.g. `37.5`, `-2`, `0.05`.
    pub fn to_text(&self) -> (r: String)
        ensures
            r@ == decimal_text(self.m(), self.s()),
    {
        dec_to_string(*self)
    }

    pub fn lt(&self, other: &Dec) -> (r: bool)
        ensures
            r == (self.val() < other.val()),
    {
        dec_lt(*self, *other)
    }

    pub fn le(&self, other: &Dec) -> (r: bool)
        ensures
            r == (self.val() <= other.val()),
    {
        !dec_lt(*other, *self)
    }

    pub fn checked_add(&self, other: &Dec) -> (r: Option<Dec>)
        ensures
            r is None <==> decimal_checked_add(self.parts(), other.parts()) is None,
            r matches Some(x) ==> decimal_checked_add(self.parts(), other.parts()) == Some(x.parts()),
            add_fits(self.val() + other.val(), self.s(), other.s()) ==> (r is Some && r.unwrap().val() == self.val() + other.val() && r.unwrap().s() <= max_nat(self.s(), other.s())),
            self.m() == 0 ==> r == Some(*other),
            self.m() != 0 && other.m() == 0 ==> r == Some(*self),
    {
        dec_checked_add(*self, *other)
    }

    pub fn checked_sub(&self, other: &Dec) -> (r: Option<Dec>)
        ensures
            r is None <==> decimal_checked_sub(self.parts(), other.parts()) is None,
            r matches Some(x) ==> decimal_checked_sub(self.parts(), other.parts()) == Some(x.parts()),
            add_fits(self.val() - other.val(), self.s(), other.s()) ==> (r is Some && r.unwrap().val() == self.val() - other.val() && r.unwrap().s() <= max_nat(self.s(), other.s())),
    {
        dec_checked_sub(*self, *other)
    }

    pub fn checked_mul(&self, other: &Dec) -> (r: Option<Dec>)
        ensures
            r is None <==> decimal_checked_mul(self.parts(), other.parts()) is None,
            r matches Some(x) ==> decimal_checked_mul(self.parts(), other.parts()) == Some(x.parts()),
            mul_exact(self.m(), self.s(), other.m(), other.s()) ==> (r is Some && r.unwrap().parts() == exact_product_parts(self.parts(), other.parts())),
            mul_no_overflow(self.m(), self.s(), other.m(), other.s()) ==> r is Some,
    {
        dec_checked_mul(*self, *other)
    }

    pub fn checked_div(&self, other: &Dec) -> (r: Option<Dec>)
        ensures
            r is None <==> decimal_checked_div(self.parts(), other.parts()) is None,
            r matches Some(x) ==> decimal_checked_div(self.parts(), other.parts()) == Some(x.parts()),
            other.m() == 0 ==> r is None,
            other.m() != 0 && self.m() == 0 ==> (r is Some && r.unwrap().parts() == (0int, 0int)),
            other.m() != 0 && abs(other.val()) >= pow10(28) ==> r is Some,
    {
        dec_checked_div(*self, *other)
    }

    /// Rounds to an integer, ties to even (`round_dp(0)`).
    pub fn round_dp0(&self) -> (r: Dec)
        ensures
            r.parts() == round0_parts(self.m(), self.s()),
    {
        dec_round_dp0(*self)
    }

    /// The integer part (truncated towards zero) when it fits an `i64`.
    pub fn to_i64(&self) -> (r: Option<i64>)
        ensures
            r == (if in_i64(trunc_div(self.m(), pow10(self.s()))) {
                Some(trunc_div(self.m(), pow10(self.s())) as i64)
            } else {
                None::<i64>
            }),
    {
        dec_to_i64(*self)
    }
}

/// The exact sum `v` (in units of `10^-28`) of operands at scales `a_s`, `b_s`
/// still fits the 96-bit mantissa at the larger of the two scales.
pub open spec fn add_fits(v: int, a_s: nat, b_s: nat) -> bool {
    abs(v) < mant_bound() * pow10((28 - max_nat(a_s, b_s)) as nat)
}

/// The product of the mantissas fits 96 bits and the scales add up to at most 28.
pub open spec fn mul_exact(am: int, a_s: nat, bm: int, b_s: nat) -> bool {
    &&& abs(am * bm) < mant_bound()
    &&& a_s + b_s <= 28
}

/// The integer part of the product is below `2^95`.
pub open spec fn mul_no_overflow(am: int, a_s: nat, bm: int, b_s: nat) -> bool {
    abs(am * bm) < half_mant_bound() * pow10(a_s + b_s)
}

/// The parts of an exact product: the mantissas multiplied and the scales
/// added, or plain zero when either factor is zero.
pub open spec fn exact_product_parts(a: (int, int), b: (int, int)) -> (int, int) {
    if a.0 == 0 || b.0 == 0 {
        (0, 0)
    } else {
        (a.0 * b.0, a.1 + b.1)
    }
}

/// A decimal given by parts rounded half-to-even to an integer, or
/// `i64::MAX` when that integer does not fit an `i64`.
pub open spec fn rounded_i64(p: (int, int)) -> int {
    let c = round0_parts(p.0, p.1 as nat).0;
    if in_i64(c) {
        c
    } else {
        i64::MAX as int
    }
}

/// `round_dp(0)` on a decimal given by parts: unchanged at scale zero,
/// otherwise the mantissa rounded half-to-even at scale zero.
pub open spec fn round0_parts(m: int, s: nat) -> (int, int) {
    if s == 0 {
        (m, 0)
    } else {
        (round_half_even(m, pow10(s)), 0)
    }
}

/// Two decimals are equal when their values are equal (`1.50 == 1.5`).
impl PartialEq for Dec {
    fn eq(&self, other: &Dec) -> (r: bool) {
        dec_eq(*self, *other)
    }
}

impl PartialEqSpecImpl for Dec {
    open spec fn obeys_eq_spec() -> bool {
        true
    }

    open spec fn eq_spec(&self, other: &Dec) -> bool {
        self.val() == other.val()
    }
}

// ---------------------------------------------------------------------------
// Lemmas
// ---------------------------------------------------------------------------

pub proof fn lemma_pow10_pos(n: nat)
    ensures
        pow10(n) >= 1,
    decreases n,
{
    if n > 0 {
        lemma_pow10_pos((n - 1) as nat);
    }
}

pub proof fn lemma_pow10_add(a: nat, b: nat)
    ensures
        pow10(a + b) == pow10(a) * pow10(b),
    decreases a,
{
    if a > 0 {
        lemma_pow10_add((a - 1) as nat, b);
        assert(pow10(a + b) == 10 * pow10((a - 1 + b) as nat));
        vstd::arithmetic::mul::lemma_mul_is_associative(10, pow10((a - 1) as nat), pow10(b));
    }
}

pub proof fn lemma_pow10_mono(a: nat, b: nat)
    requires
        a <= b,
    ensures
        pow10(a) <= pow10(b),
    decreases b,
{
    if a < b {
        lemma_pow10_mono(a, (b - 1) as nat);
        lemma_pow10_pos((b - 1) as nat);
    }
}

/// Half-even rounding of a quotient does not change when both sides are
/// multiplied by the same positive factor.
pub proof fn lemma_round_half_even_scale(n: int, d: int, k: int)
    requires
        d > 0,
        k > 0,
    ensures
        round_half_even(n * k, d * k) == round_half_even(n, d),
{
    let q = n / d;
    let r = n % d;
    vstd::arithmetic::div_mod::lemma_fundamental_div_mod(n, d);
    vstd::arithmetic::div_mod::lemma_mod_bound(n, d);
    let nk = n * k;
    let dk = d * k;
    let rk = r * k;
    assert(nk == q * dk + rk) by (nonlinear_arith)
        requires
            n == d * q + r,
            nk == n * k,
            dk == d * k,
            rk == r * k,
    ;
    assert(0 <= rk < dk) by (nonlinear_arith)
        requires
            0 <= r < d,
            k > 0,
            dk == d * k,
            rk == r * k,
    ;
    vstd::arithmetic::div_mod::lemma_fundamental_div_mod_converse(nk, dk, q, rk);
    assert((2 * (r * k) < d * k) == (2 * r < d)) by (nonlinear_arith)
        requires
            k > 0,
    ;
    assert((2 * (r * k) > d * k) == (2 * r > d)) by (nonlinear_arith)
        requires
            k > 0,
    ;
}

/// Rounding an exact multiple returns the multiplier.
pub proof fn lemma_round_half_even_exact(m: int, k: int)
    requires
        k > 0,
    ensures
        round_half_even(m * k, k) == m,
{
    vstd::arithmetic::div_mod::lemma_fundamental_div_mod_converse(m * k, k, m, 0);
}

/// `round_dp(0)` of a decimal is its value rounded half-to-even.
pub proof fn lemma_round0_is_value_round(m: int, s: nat)
    requires
        s <= 28,
    ensures
        round0_parts(m, s).0 == round_half_even(scaled_value(m, s), pow10(28)),
        round0_parts(m, s).1 == 0,
{
    let k = pow10((28 - s) as nat);
    lemma_pow10_pos((28 - s) as nat);
    lemma_pow10_pos(s);
    lemma_pow10_add(s, (28 - s) as nat);
    assert(s + (28 - s) == 28);
    if s == 0 {
        lemma_round_half_even_exact(m, pow10(28));
    } else {
        lemma_round_half_even_scale(m, pow10(s), k);
    }
}

/// An exact product has the value of the first factor times the second
/// factor's mantissa, over `10^scale` of the second factor.
pub proof fn lemma_exact_scaled_product(a: Dec, b: Dec, g: Dec)
    requires
        mul_exact(a.m(), a.s(), b.m(), b.s()),
        g.parts() == exact_product_parts(a.parts(), b.parts()),
    ensures
        g.val() * pow10(b.s()) == a.val() * b.m(),
{
    a.lemma_scale_bound();
    b.lemma_scale_bound();
    g.lemma_scale_bound();
    let k = (28 - a.s() - b.s()) as nat;
    lemma_pow10_add(k, b.s());
    assert(k + b.s() == 28 - a.s());
    let pk = pow10(k);
    let pb = pow10(b.s());
    let pa = pow10((28 - a.s()) as nat);
    assert(pa == pk * pb);
    if a.m() == 0 || b.m() == 0 {
        assert(g.m() == 0);
        assert(g.val() == 0) by (nonlinear_arith)
            requires
                g.val() == g.m() * pow10((28 - g.s()) as nat),
                g.m() == 0,
        ;
        assert(a.val() * b.m() == 0) by (nonlinear_arith)
            requires
                a.val() == a.m() * pa,
                a.m() == 0 || b.m() == 0,
        ;
    } else {
        assert(g.m() == a.m() * b.m());
        assert(g.s() == a.s() + b.s());
        assert(g.val() == (a.m() * b.m()) * pk);
        assert((a.m() * b.m()) * pk * pb == (a.m() * (pk * pb)) * b.m()) by (nonlinear_arith);
    }
}

pub proof fn lemma_sign_of_scaled(m: int, p: int)
    requires
        p >= 1,
    ensures
        (m * p > 0) == (m > 0),
        (m * p < 0) == (m < 0),
        (m * p == 0) == (m == 0),
{
    if m > 0 {
        vstd::arithmetic::mul::lemma_mul_strictly_positive(m, p);
    } else if m < 0 {
        vstd::arithmetic::mul::lemma_mul_strictly_positive(-m, p);
        assert(m * p == -((-m) * p)) by (nonlinear_arith);
    }
}

// ---------------------------------------------------------------------------
// Trusted wrappers over rust_decimal
// ---------------------------------------------------------------------------

/// Calls `rust_decimal::Decimal::from_str`; the result is named by
/// `decimal_from_str`. Every `Decimal` has a scale of at most 28 and a
/// mantissa below `2^96`, which the returned `Dec` keeps.
#[verifier::external_body]
fn dec_from_str(s: &str) -> (r: Option<Dec>)
    ensures
        r is None <==> decimal_from_str(s@) is None,
        r matches Some(d) ==> decimal_from_str(s@) == Some(d.parts()),
{
    match Decimal::from_str(s) {
        Ok(d) => Some(Dec { mantissa: d.mantissa(), scale: d.scale() }),
        Err(_) => None,
    }
}

/// Calls `Decimal::to_string` (its `Display`): the digits of the mantissa
/// with a point before the last `scale` digits, a `0` before a bare point and
/// a `-` before negatives. Zero built from parts carries no sign.
#[verifier::external_body]
fn dec_to_string(a: Dec) -> (r: String)
    ensures
        r@ == decimal_text(a.m(), a.s()),
{
    Decimal::from_i128_with_scale(a.mantissa, a.scale).to_string()
}

/// Calls `<Decimal as PartialOrd>::lt`, which compares the exact values.
#[verifier::external_body]
fn dec_lt(a: Dec, b: Dec) -> (r: bool)
    ensures
        r == (a.val() < b.val()),
{
    Decimal::from_i128_with_scale(a.mantissa, a.scale) < Decimal::from_i128_with_scale(b.mantissa, b.scale)
}

/// Calls `<Decimal as PartialEq>::eq`, which compares the exact values.
#[verifier::external_body]
fn dec_eq(a: Dec, b: Dec) -> (r: bool)
    ensures
        r == (a.val() == b.val()),
{
    Decimal::from_i128_with_scale(a.mantissa, a.scale) == Decimal::from_i128_with_scale(b.mantissa, b.scale)
}

/// Calls `Decimal::checked_add`, named by `decimal_checked_add`. The sum is
/// exact when it fits 96 bits at the larger operand scale: the operand with
/// the smaller scale is rescaled and rounding only happens past 96 bits.
/// A zero first operand hands the second back unchanged; otherwise a zero
/// second operand hands the first back.
#[verifier::external_body]
fn dec_checked_add(a: Dec, b: Dec) -> (r: Option<Dec>)
    ensures
        r is None <==> decimal_checked_add(a.parts(), b.parts()) is None,
        r matches Some(x) ==> decimal_checked_add(a.parts(), b.parts()) == Some(x.parts()),
        add_fits(a.val() + b.val(), a.s(), b.s()) ==> (r is Some && r.unwrap().val() == a.val() + b.val() && r.unwrap().s() <= max_nat(a.s(), b.s())),
        a.m() == 0 ==> r == Some(b),
        a.m() != 0 && b.m() == 0 ==> r == Some(a),
{
    let x = Decimal::from_i128_with_scale(a.mantissa, a.scale);
    let y = Decimal::from_i128_with_scale(b.mantissa, b.scale);
    match x.checked_add(y) {
        Some(d) => Some(Dec { mantissa: d.mantissa(), scale: d.scale() }),
        None => None,
    }
}

/// Calls `Decimal::checked_sub`, named by `decimal_checked_sub`; exact under
/// the same condition as the sum.
#[verifier::external_body]
fn dec_checked_sub(a: Dec, b: Dec) -> (r: Option<Dec>)
    ensures
        r is None <==> decimal_checked_sub(a.parts(), b.parts()) is None,
        r matches Some(x) ==> decimal_checked_sub(a.parts(), b.parts()) == Some(x.parts()),
        add_fits(a.val() - b.val(), a.s(), b.s()) ==> (r is Some && r.unwrap().val() == a.val() - b.val() && r.unwrap().s() <= max_nat(a.s(), b.s())),
{
    let x = Decimal::from_i128_with_scale(a.mantissa, a.scale);
    let y = Decimal::from_i128_with_scale(b.mantissa, b.scale);
    match x.checked_sub(y) {
        Some(d) => Some(Dec { mantissa: d.mantissa(), scale: d.scale() }),
        None => None,
    }
}

/// Calls `Decimal::checked_mul`, named by `decimal_checked_mul`. A zero
/// factor gives plain zero; otherwise the product of the mantissas is kept
/// at the summed scale when it fits 96 bits and the scale stays within 28;
/// otherwise it is rounded to fit, and it only fails when the integer part
/// itself needs more than 96 bits.
#[verifier::external_body]
fn dec_checked_mul(a: Dec, b: Dec) -> (r: Option<Dec>)
    ensures
        r is None <==> decimal_checked_mul(a.parts(), b.parts()) is None,
        r matches Some(x) ==> decimal_checked_mul(a.parts(), b.parts()) == Some(x.parts()),
        mul_exact(a.m(), a.s(), b.m(), b.s()) ==> (r is Some && r.unwrap().parts() == exact_product_parts(a.parts(), b.parts())),
        mul_no_overflow(a.m(), a.s(), b.m(), b.s()) ==> r is Some,
{
    let x = Decimal::from_i128_with_scale(a.mantissa, a.scale);
    let y = Decimal::from_i128_with_scale(b.mantissa, b.scale);
    match x.checked_mul(y) {
        Some(d) => Some(Dec { mantissa: d.mantissa(), scale: d.scale() }),
        None => None,
    }
}

/// Calls `Decimal::checked_div`, named by `decimal_checked_div`. It fails on
/// a zero divisor, gives plain zero for a zero dividend, and cannot overflow when
/// the divisor is at least one in magnitude.
#[verifier::external_body]
fn dec_checked_div(a: Dec, b: Dec) -> (r: Option<Dec>)
    ensures
        r is None <==> decimal_checked_div(a.parts(), b.parts()) is None,
        r matches Some(x) ==> decimal_checked_div(a.parts(), b.parts()) == Some(x.parts()),
        b.m() == 0 ==> r is None,
        b.m() != 0 && a.m() == 0 ==> (r is Some && r.unwrap().parts() == (0int, 0int)),
        b.m() != 0 && abs(b.val()) >= pow10(28) ==> r is Some,
{
    let x = Decimal::from_i128_with_scale(a.mantissa, a.scale);
    let y = Decimal::from_i128_with_scale(b.mantissa, b.scale);
    match x.checked_div(y) {
        Some(d) => Some(Dec { mantissa: d.mantissa(), scale: d.scale() }),
        None => None,
    }
}

/// Calls `Decimal::round_dp(0)`: banker's rounding to scale zero; a value
/// already at scale zero is returned as it is.
#[verifier::external_body]
fn dec_round_dp0(a: Dec) -> (r: Dec)
    ensures
        r.parts() == round0_parts(a.m(), a.s()),
{
    let d = Decimal::from_i128_with_scale(a.mantissa, a.scale).round_dp(0);
    Dec { mantissa: d.mantissa(), scale: d.scale() }
}

/// Calls `i64::try_from(Decimal)`: the value truncated towards zero when it
/// fits an `i64`, an error otherwise.
#[verifier::external_body]
fn dec_to_i64(a: Dec) -> (r: Option<i64>)
    ensures
        r == (if in_i64(trunc_div(a.m(), pow10(a.s()))) {
            Some(trunc_div(a.m(), pow10(a.s())) as i64)
        } else {
            None::<i64>
        }),
{
    i64::try_from(Decimal::from_i128_with_scale(a.mantissa, a.scale)).ok()
}

} // verus!
