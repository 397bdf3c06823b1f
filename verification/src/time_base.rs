//! Time bases: rational seconds per tick, and rescaling between them.

use crate::time::{Duration, MAX_NANOS};
use vstd::arithmetic::div_mod::*;
use vstd::arithmetic::mul::*;
use vstd::prelude::*;

verus! {

/// A time base of `num / den` seconds per tick.
#[derive(Clone, Copy, Debug, PartialEq, Eq, Structural)]
pub struct TimeBase {
    pub num: i64,
    pub den: i64,
}

/// How a rescaled value between two ticks is rounded.
#[derive(Clone, Copy, Debug, PartialEq, Eq, Structural)]
pub enum Rounding {
    NearestAway,
    Floor,
    Ceil,
}

/// `n / d` rounded, for a positive `d`; a tie goes away from zero.
pub open spec fn rounded(n: int, d: int, rounding: Rounding) -> int {
    match rounding {
        Rounding::Floor => n / d,
        Rounding::Ceil => -((-n) / d),
        Rounding::NearestAway => if n >= 0 {
            (2 * n + d) / (2 * d)
        } else {
            -((-2 * n + d) / (2 * d))
        },
    }
}

/// The numerator of `value` rescaled from one time base to another, over the
/// denominator below.
pub open spec fn rescale_num(value: i64, from: TimeBase, to: TimeBase) -> int {
    if from.den * to.num < 0 {
        -(value * (from.num * to.den))
    } else {
        value * (from.num * to.den)
    }
}

pub open spec fn rescale_den(from: TimeBase, to: TimeBase) -> int {
    if from.den * to.num < 0 { -(from.den * to.num) } else { from.den * to.num }
}

/// `value` rescaled from one time base to another: nothing where there is no factor, and
/// stopped at the limits of 64 bits. A product of more than 128 bits counts as out of
/// range.
pub open spec fn rescaled(value: i64, from: TimeBase, to: TimeBase, rounding: Rounding) -> i64 {
    let n = rescale_num(value, from, to);
    let d = rescale_den(from, to);
    if d == 0 {
        0
    } else if n > u128::MAX {
        i64::MAX
    } else if -n > u128::MAX {
        i64::MIN
    } else {
        let q = rounded(n, d, rounding);
        if q > i64::MAX {
            i64::MAX
        } else if q < i64::MIN {
            i64::MIN
        } else {
            q as i64
        }
    }
}

/// `value` rescaled to the nearest tick, if there is a factor and the result fits.
pub open spec fn rescaled_checked(value: i64, from: TimeBase, to: TimeBase) -> Option<i64> {
    let n = rescale_num(value, from, to);
    let d = rescale_den(from, to);
    if d == 0 || n > u128::MAX || -n > u128::MAX {
        None
    } else {
        let q = rounded(n, d, Rounding::NearestAway);
        if i64::MIN <= q <= i64::MAX { Some(q as i64) } else { None }
    }
}

/// `ticks` in nanoseconds, to the nearest; none where they have no length, or one that is
/// longer than any span.
pub open spec fn ticks_nanos(ticks: i64, base: TimeBase) -> Option<i128> {
    let n = rescale_num(ticks, base, TimeBase::nanos());
    let d = rescale_den(base, TimeBase::nanos());
    if d == 0 {
        None
    } else {
        let q = rounded(n, d, Rounding::NearestAway);
        if -MAX_NANOS <= q <= MAX_NANOS { Some(q as i128) } else { None }
    }
}

/// The tick that is nearest to a moment in nanoseconds, stopped at the limits of 64 bits.
pub open spec fn nearest_tick(nanos: int, base: TimeBase) -> i64 {
    let num = size_of(base.num as int);
    let den = size_of(base.den as int);
    let q = rounded(nanos * den, num * 1_000_000_000, Rounding::NearestAway);
    if q > i64::MAX {
        i64::MAX
    } else if q < i64::MIN {
        i64::MIN
    } else {
        q as i64
    }
}

/// A number without its sign.
pub open spec fn size_of(n: int) -> int {
    if n < 0 { -n } else { n }
}

/// `oxideav_core::TimeBase::rescale_rnd` multiplies by the ratio of the two time bases and
/// rounds as asked. It returns zero where a term of the ratio's denominator is zero, and
/// stops at the limits of 64 bits, also where the product exceeds 128 bits.
#[verifier::external_body]
pub(crate) fn rescale_rnd(value: i64, from: TimeBase, to: TimeBase, rounding: Rounding) -> (scaled: i64)
    ensures
        scaled == rescaled(value, from, to, rounding),
{
    let rounding = match rounding {
        Rounding::NearestAway => oxideav_core::Rounding::NearestAway,
        Rounding::Floor => oxideav_core::Rounding::Floor,
        Rounding::Ceil => oxideav_core::Rounding::Ceil,
    };
    oxideav_core::TimeBase::new(from.num, from.den).rescale_rnd(
        value,
        oxideav_core::TimeBase::new(to.num, to.den),
        rounding,
    )
}

/// `oxideav_core::TimeBase::rescale_checked` rescales to the nearest tick, ties away from
/// zero, and returns `None` where the ratio is undefined, the product exceeds 128 bits or
/// the result 64 bits.
#[verifier::external_body]
pub(crate) fn rescale_checked(value: i64, from: TimeBase, to: TimeBase) -> (scaled: Option<i64>)
    ensures
        scaled == rescaled_checked(value, from, to),
{
    oxideav_core::TimeBase::new(from.num, from.den).rescale_checked(
        value,
        oxideav_core::TimeBase::new(to.num, to.den),
    )
}

impl TimeBase {
    /// Nanoseconds.
    pub open spec fn nanos() -> Self {
        TimeBase { num: 1, den: 1_000_000_000 }
    }

    /// One tick per sample frame at `rate`.
    pub open spec fn of_rate(rate: u32) -> Self {
        TimeBase { num: 1, den: rate as i64 }
    }

    /// A tick lasts a positive time.
    pub open spec fn positive(self) -> bool {
        (self.num > 0 && self.den > 0) || (self.num < 0 && self.den < 0)
    }

    pub fn new(num: i64, den: i64) -> (base: Self)
        ensures
            base == (TimeBase { num, den }),
    {
        TimeBase { num, den }
    }

    pub fn from_rate(rate: u32) -> (base: Self)
        ensures
            base == Self::of_rate(rate),
    {
        TimeBase { num: 1, den: rate as i64 }
    }

    /// Both terms are non-zero.
    pub fn is_valid(&self) -> (valid: bool)
        ensures
            valid == (self.num != 0 && self.den != 0),
    {
        self.num != 0 && self.den != 0
    }

    pub fn is_positive(&self) -> (positive: bool)
        ensures
            positive == self.positive(),
    {
        (self.num > 0 && self.den > 0) || (self.num < 0 && self.den < 0)
    }

    /// `ticks` in nanoseconds, if they have a length and a span can have it.
    pub fn nanos_of(&self, ticks: i64) -> (nanos: Option<i128>)
        ensures
            nanos == ticks_nanos(ticks, *self),
    {
        if self.den == 0 {
            return None;
        }
        proof {
            products_fit(ticks, self.num);
        }
        let product: i128 = ticks as i128 * self.num as i128;
        let negative: bool = (product < 0) != (self.den < 0);
        let amount = size(product);
        let den = size(self.den as i128);
        let whole: u128 = amount / den;
        let rest: u128 = amount % den;
        let more: u128 = rest * 1_000_000_000;
        let part: u128 = more / den;
        let left: u128 = more % den;
        let ghost n = rescale_num(ticks, *self, TimeBase::nanos());
        let ghost d = rescale_den(*self, TimeBase::nanos());
        proof {
            let (t, m) = (ticks as int, self.num as int);
            assert(t * (m * 1_000_000_000) == (t * m) * 1_000_000_000) by (nonlinear_arith);
            assert(d == den);
            assert(n == (if negative { -(amount * 1_000_000_000) } else { amount * 1_000_000_000 }));
            lemma_fundamental_div_mod(amount as int, den as int);
            lemma_fundamental_div_mod(more as int, den as int);
            let (w, p, f, b) = (whole as int, part as int, left as int, den as int);
            assert(amount * 1_000_000_000 == (w * 1_000_000_000 + p) * b + f) by (nonlinear_arith)
                requires
                    amount == b * w + rest,
                    more == rest * 1_000_000_000,
                    more == b * p + f,
            ;
            nearest_quotient(amount * 1_000_000_000, b, w * 1_000_000_000 + p, f);
            assert(p < 1_000_000_000) by (nonlinear_arith)
                requires
                    b * p + f == rest * 1_000_000_000,
                    0 <= rest < b,
                    0 <= f,
            ;
        }
        if whole > 0xffff_ffff_ffff_ffff {
            return None;
        }
        let up: u128 = if 2 * left >= den { 1 } else { 0 };
        let nanos: u128 = whole * 1_000_000_000 + part + up;
        if nanos > MAX_NANOS {
            None
        } else if negative {
            Some(-(nanos as i128))
        } else {
            Some(nanos as i128)
        }
    }

    /// The tick that is nearest to a moment, which lies `amount` nanoseconds before zero or
    /// after it.
    pub fn tick_at(&self, before: bool, amount: u128) -> (tick: i64)
        requires
            self.positive(),
        ensures
            tick == nearest_tick(if before { -amount } else { amount as int }, *self),
    {
        let num = size(self.num as i128);
        let den = size(self.den as i128);
        let unit: u128 = num * 1_000_000_000;
        let whole: u128 = amount / unit;
        let rest: u128 = amount % unit;
        let high: u128 = den / 0x1_0000_0000;
        let low: u128 = den % 0x1_0000_0000;
        proof {
            products_of_rests_fit(rest as int, unit as int, high as int, low as int);
        }
        let upper: u128 = rest * high;
        let upper_part: u128 = upper / unit;
        let upper_left: u128 = upper % unit;
        proof {
            products_of_rests_fit(upper_left as int, unit as int, 0, 0x1_0000_0000);
        }
        let lower: u128 = upper_left * 0x1_0000_0000 + rest * low;
        let lower_part: u128 = lower / unit;
        let left: u128 = lower % unit;
        let ghost q = whole * den + upper_part * 0x1_0000_0000 + lower_part;
        proof {
            lemma_fundamental_div_mod(amount as int, unit as int);
            lemma_fundamental_div_mod(upper as int, unit as int);
            lemma_fundamental_div_mod(lower as int, unit as int);
            quotient_in_two_steps(
                amount as int,
                den as int,
                unit as int,
                (whole as int, rest as int),
                (high as int, low as int),
                (upper_part as int, upper_left as int),
                (lower_part as int, left as int),
            );
            nearest_quotient(amount * den, unit as int, q, left as int);
            assert(-amount * den == -(amount * den)) by (nonlinear_arith);
        }
        if whole > 0xffff_ffff_ffff_ffff {
            proof {
                assert(whole * den >= whole) by (nonlinear_arith)
                    requires
                        den >= 1,
                        whole >= 0,
                ;
            }
            return if before { i64::MIN } else { i64::MAX };
        }
        proof {
            assert(0 <= whole * den <= 0xffff_ffff_ffff_ffff * 0x8000_0000_0000_0000)
                by (nonlinear_arith)
                requires
                    0 <= whole <= 0xffff_ffff_ffff_ffff,
                    0 <= den <= 0x8000_0000_0000_0000,
            ;
        }
        let up: u128 = if 2 * left >= unit { 1 } else { 0 };
        let ticks: u128 = whole * den + upper_part * 0x1_0000_0000 + lower_part + up;
        if before {
            if ticks >= 0x8000_0000_0000_0000 { i64::MIN } else { -(ticks as i64) }
        } else {
            if ticks > 0x7fff_ffff_ffff_ffff { i64::MAX } else { ticks as i64 }
        }
    }
}

/// A number without its sign.
pub fn size(n: i128) -> (size: u128)
    ensures
        size == size_of(n as int),
{
    if n < 0 { (-(n + 1)) as u128 + 1 } else { n as u128 }
}

/// How far one moment is behind another.
pub fn apart(later: i128, earlier: i128) -> (span: u128)
    requires
        earlier <= later,
    ensures
        span == later - earlier,
{
    if earlier >= 0 || later < 0 { (later - earlier) as u128 } else { later as u128 + size(earlier) }
}

/// The product of two time stamps has at most twice their digits.
pub proof fn products_fit(a: i64, b: i64)
    ensures
        -0x4000_0000_0000_0000_0000_0000_0000_0000 <= a * b
            <= 0x4000_0000_0000_0000_0000_0000_0000_0000,
{
    assert(-0x4000_0000_0000_0000_0000_0000_0000_0000 <= a * b
        <= 0x4000_0000_0000_0000_0000_0000_0000_0000) by (nonlinear_arith)
        requires
            -0x8000_0000_0000_0000 <= a <= 0x7fff_ffff_ffff_ffff,
            -0x8000_0000_0000_0000 <= b <= 0x7fff_ffff_ffff_ffff,
    ;
}

/// What is left of a division by `unit`, times half the digits of a denominator.
proof fn products_of_rests_fit(rest: int, unit: int, high: int, low: int)
    requires
        0 <= rest < unit <= 0x8000_0000_0000_0000 * 1_000_000_000,
        0 <= high <= 0x8000_0000,
        0 <= low <= 0x1_0000_0000,
    ensures
        0 <= rest * high <= 0x8000_0000_0000_0000 * 1_000_000_000 * 0x8000_0000,
        0 <= rest * low <= 0x8000_0000_0000_0000 * 1_000_000_000 * 0x1_0000_0000,
        rest * high <= high * unit,
        rest * low <= low * unit,
{
    assert(0 <= rest * high <= 0x8000_0000_0000_0000 * 1_000_000_000 * 0x8000_0000
        && rest * high <= high * unit) by (nonlinear_arith)
        requires
            0 <= rest < unit <= 0x8000_0000_0000_0000 * 1_000_000_000,
            0 <= high <= 0x8000_0000,
    ;
    assert(0 <= rest * low <= 0x8000_0000_0000_0000 * 1_000_000_000 * 0x1_0000_0000
        && rest * low <= low * unit) by (nonlinear_arith)
        requires
            0 <= rest < unit <= 0x8000_0000_0000_0000 * 1_000_000_000,
            0 <= low <= 0x1_0000_0000,
    ;
}

/// A product divided by `unit`: first the wholes, then the rest with the upper and the
/// lower digits of the second factor. Each pair holds a quotient and what is left.
proof fn quotient_in_two_steps(
    amount: int,
    den: int,
    unit: int,
    first: (int, int),
    digits: (int, int),
    upper: (int, int),
    lower: (int, int),
)
    requires
        unit > 0,
        0 <= first.1 < unit,
        0 <= digits.0,
        0 <= digits.1 < 0x1_0000_0000,
        0 <= upper.1 < unit,
        0 <= lower.1 < unit,
        amount == unit * first.0 + first.1,
        den == 0x1_0000_0000 * digits.0 + digits.1,
        first.1 * digits.0 == unit * upper.0 + upper.1,
        upper.1 * 0x1_0000_0000 + first.1 * digits.1 == unit * lower.0 + lower.1,
    ensures
        amount * den == (first.0 * den + upper.0 * 0x1_0000_0000 + lower.0) * unit + lower.1,
        upper.0 <= digits.0,
        lower.0 <= 0x2_0000_0000,
{
    let (w, r) = first;
    let (h, l) = digits;
    let (u, x) = upper;
    let (v, y) = lower;
    assert(amount * den == (w * den) * unit + r * den) by (nonlinear_arith)
        requires
            amount == unit * w + r,
    ;
    assert(r * den == 0x1_0000_0000 * (r * h) + r * l) by (nonlinear_arith)
        requires
            den == 0x1_0000_0000 * h + l,
    ;
    assert((w * den + u * 0x1_0000_0000 + v) * unit == (w * den) * unit + 0x1_0000_0000 * (unit * u)
        + unit * v) by (nonlinear_arith);
    assert(u <= h) by (nonlinear_arith)
        requires
            r * h == unit * u + x,
            0 <= r < unit,
            0 <= h,
            0 <= x,
    ;
    assert(v <= 0x2_0000_0000) by (nonlinear_arith)
        requires
            x * 0x1_0000_0000 + r * l == unit * v + y,
            0 <= r < unit,
            0 <= x < unit,
            0 <= l < 0x1_0000_0000,
            0 <= y,
            unit > 0,
    ;
}

/// The nearest whole of a quotient, from its whole part and what is left.
proof fn nearest_quotient(n: int, d: int, q: int, r: int)
    requires
        d > 0,
        n >= 0,
        n == q * d + r,
        0 <= r < d,
    ensures
        rounded(n, d, Rounding::NearestAway) == (if 2 * r >= d { q + 1 } else { q }),
        rounded(-n, d, Rounding::NearestAway) == -(if 2 * r >= d { q + 1 } else { q }),
{
    if 2 * r >= d {
        assert(2 * n + d == (q + 1) * (2 * d) + (2 * r - d)) by (nonlinear_arith)
            requires
                n == q * d + r,
        ;
        lemma_fundamental_div_mod_converse(2 * n + d, 2 * d, q + 1, 2 * r - d);
    } else {
        assert(2 * n + d == q * (2 * d) + (2 * r + d)) by (nonlinear_arith)
            requires
                n == q * d + r,
        ;
        lemma_fundamental_div_mod_converse(2 * n + d, 2 * d, q, 2 * r + d);
    }
    if n == 0 {
        lemma_fundamental_div_mod_converse(d, 2 * d, 0, d);
    }
}

/// A non-negative number of ticks as a span.
pub open spec fn ticks_span(time_base: TimeBase, ticks: i64) -> Option<Duration> {
    match ticks_nanos(ticks, time_base) {
        Some(nanos) => if nanos >= 0 { Some(Duration { nanos: nanos as u128 }) } else { None },
        None => None,
    }
}

pub fn duration_from_ticks(time_base: TimeBase, ticks: i64) -> (span: Option<Duration>)
    ensures
        span == ticks_span(time_base, ticks),
{
    match time_base.nanos_of(ticks) {
        Some(nanos) if nanos >= 0 => Some(Duration { nanos: nanos as u128 }),
        _ => None,
    }
}

/// Rescaling by a positive ratio, rounded down, is the largest tick that is not later.
pub proof fn floor_is_not_later(value: i64, from: TimeBase, to: TimeBase)
    requires
        from.num > 0,
        from.den > 0,
        to.num > 0,
        to.den > 0,
        i64::MIN < rescaled(value, from, to, Rounding::Floor) < i64::MAX,
        -u128::MAX <= rescale_num(value, from, to) <= u128::MAX,
    ensures
        ({
            let q = rescaled(value, from, to, Rounding::Floor) as int;
            let n = rescale_num(value, from, to);
            let d = rescale_den(from, to);
            d > 0 && q * d <= n < (q + 1) * d
        }),
{
    let n = rescale_num(value, from, to);
    let d = rescale_den(from, to);
    assert(d > 0) by (nonlinear_arith)
        requires
            from.den > 0,
            to.num > 0,
            d == (if from.den * to.num < 0 { -(from.den * to.num) } else { from.den * to.num }),
    ;
    let q = n / d;
    lemma_fundamental_div_mod(n, d);
    lemma_mod_bound(n, d);
    assert(q * d <= n < (q + 1) * d) by (nonlinear_arith)
        requires
            n == d * q + n % d,
            0 <= n % d < d,
    ;
}

/// What is rounded to the nearest is at most half a unit away.
proof fn nearest_is_near(n: int, d: int)
    requires
        d > 0,
    ensures
        ({
            let q = rounded(n, d, Rounding::NearestAway);
            -d <= 2 * (q * d - n) <= d
        }),
{
    let m = if n >= 0 { n } else { -n };
    let q = (2 * m + d) / (2 * d);
    lemma_fundamental_div_mod(2 * m + d, 2 * d);
    let r = (2 * m + d) % (2 * d);
    assert(-d <= 2 * (q * d - m) <= d) by (nonlinear_arith)
        requires
            2 * m + d == 2 * d * q + r,
            0 <= r < 2 * d,
    ;
    assert((-q) * d == -(q * d)) by (nonlinear_arith);
}

/// Ticks in nanoseconds are as long as they say: `ticks * num / den` seconds, to the nearest
/// nanosecond. Only a span that is longer than any has no such number.
pub proof fn ticks_are_as_long_as_they_say(ticks: i64, base: TimeBase)
    requires
        base.den != 0,
    ensures
        match ticks_nanos(ticks, base) {
            Some(nanos) => {
                let apart = 2 * (nanos * base.den - ticks * base.num * 1_000_000_000);
                let den = if base.den < 0 { -base.den } else { base.den as int };
                &&& -den <= apart <= den
                &&& -18_446_744_073_709_551_615_999_999_999 <= nanos
                    <= 18_446_744_073_709_551_615_999_999_999
            },
            None => {
                let den = if base.den < 0 { -base.den } else { base.den as int };
                let amount = ticks * base.num * 1_000_000_000;
                2 * (if amount < 0 { -amount } else { amount }) >= den * (2
                    * 18_446_744_073_709_551_615_999_999_999 + 1)
            },
        },
{
    let n = rescale_num(ticks, base, TimeBase::nanos());
    let d = rescale_den(base, TimeBase::nanos());
    nearest_is_near(n, d);
    let q = rounded(n, d, Rounding::NearestAway);
    let (t, m, b) = (ticks as int, base.num as int, base.den as int);
    assert(t * (m * 1_000_000_000) == t * m * 1_000_000_000) by (nonlinear_arith);
    assert((-d) * q == -(d * q) && q * (-d) == -(q * d)) by (nonlinear_arith);
    let limit = 18_446_744_073_709_551_615_999_999_999int;
    if q > limit {
        assert(q * d >= (limit + 1) * d) by (nonlinear_arith)
            requires
                q >= limit + 1,
                d > 0,
        ;
        assert((limit + 1) * d * 2 - d == d * (2 * limit + 1)) by (nonlinear_arith);
    }
    if q < -limit {
        assert(q * d <= -(limit + 1) * d) by (nonlinear_arith)
            requires
                q <= -(limit + 1),
                d > 0,
        ;
        assert((limit + 1) * d * 2 - d == d * (2 * limit + 1)) by (nonlinear_arith);
        assert(-(limit + 1) * d == -((limit + 1) * d)) by (nonlinear_arith);
    }
}

/// The tick nearest to a moment is at most half a tick away from it, unless it lies beyond the
/// ticks there are.
pub proof fn ticks_are_near_their_moment(nanos: int, base: TimeBase)
    requires
        base.positive(),
    ensures
        ({
            let num = if base.num < 0 { -base.num } else { base.num as int };
            let den = if base.den < 0 { -base.den } else { base.den as int };
            let tick = nearest_tick(nanos, base);
            let apart = 2 * (tick * (num * 1_000_000_000) - nanos * den);
            &&& i64::MIN < tick < i64::MAX ==> -(num * 1_000_000_000) <= apart <= num
                * 1_000_000_000
            &&& tick == i64::MAX ==> apart <= num * 1_000_000_000
            &&& tick == i64::MIN ==> apart >= -(num * 1_000_000_000)
        }),
{
    let num = size_of(base.num as int);
    let den = size_of(base.den as int);
    let d = num * 1_000_000_000;
    let n = nanos * den;
    nearest_is_near(n, d);
    let q = rounded(n, d, Rounding::NearestAway);
    let tick = nearest_tick(nanos, base) as int;
    if q > i64::MAX {
        assert(tick * d <= q * d) by (nonlinear_arith)
            requires
                tick <= q,
                d > 0,
        ;
    }
    if q < i64::MIN {
        assert(tick * d >= q * d) by (nonlinear_arith)
            requires
                tick >= q,
                d > 0,
        ;
    }
}

/// A time stamp in samples is the one nearest to it: half a sample away at most.
pub proof fn time_stamps_in_samples_are_near(value: i64, from: TimeBase, rate: u32, samples: i64)
    requires
        from.num > 0,
        from.den > 0,
        rate > 0,
        rescaled_checked(value, from, TimeBase::of_rate(rate)) == Some(samples),
    ensures
        -(from.den as int) <= 2 * (samples * from.den - value * (from.num * rate)) <= from.den,
{
    let to = TimeBase { num: 1, den: rate as i64 };
    let n = rescale_num(value, from, to);
    let d = rescale_den(from, to);
    assert(d == from.den);
    assert(n == value * (from.num * rate));
    nearest_is_near(n, d);
}

} // verus!
