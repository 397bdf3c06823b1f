//! Numbers of double precision, as whole numbers over powers of two. A number that such a
//! double cannot hold is rounded to the nearest one that it can, a tie to the even one.

use crate::time::Duration;
use vstd::arithmetic::div_mod::*;
use vstd::prelude::*;

verus! {

/// The digits of a double reach up to here: two to the power of 53.
pub const DIGITS_END: u128 = 0x20_0000_0000_0000;

/// They start from here: at half of that.
pub const DIGITS_START: u128 = 0x10_0000_0000_0000;

/// How many nanoseconds a second has.
pub const SECOND: u128 = 1_000_000_000;

/// A number that is not negative: `digits` over `over`, a power of two.
#[derive(Clone, Copy, Debug, PartialEq, Eq, Structural)]
pub struct Double {
    pub digits: u128,
    pub over: u128,
}

/// `n / d` to the nearest whole number; a tie goes to the even one.
pub open spec fn half_even(n: nat, d: nat) -> nat {
    let q = n / d;
    let r = n % d;
    if 2 * r > d || (2 * r == d && q % 2 == 1) { q + 1 } else { q }
}

/// How often `x` is to be doubled to reach `limit`, as a power of two, `power` being what it
/// has been doubled by.
pub open spec fn power_from(x: nat, limit: nat, power: nat) -> nat
    decreases (if x < limit { limit - x } else { 0 }),
{
    if x == 0 || x >= limit { power } else { power_from(2 * x, limit, 2 * power) }
}

/// A whole number as a double holds it: its first 53 digits to the base of two.
pub open spec fn whole(n: nat) -> nat {
    if n < DIGITS_END {
        n
    } else {
        let unit = power_from(DIGITS_END as nat, n + 1, 1);
        half_even(n, unit) * unit
    }
}

/// `n / d` as a double holds it: what its digits are, and over which power of two.
pub open spec fn ratio(n: nat, d: nat) -> (nat, nat) {
    if n == 0 {
        (0, 1)
    } else if n < DIGITS_END * d {
        let power = power_from(n, (DIGITS_START * d) as nat, 1);
        (half_even(n * power, d), power)
    } else {
        let unit = power_from((DIGITS_END * d) as nat, n + 1, 1);
        (half_even(n, d * unit) * unit, 1)
    }
}

/// A span in seconds: its whole seconds and the rest of it, each as a double holds it, and
/// then their sum.
pub open spec fn seconds_of(nanos: nat) -> (nat, nat) {
    let (digits, over) = ratio(nanos % SECOND as nat, SECOND as nat);
    let seconds = whole(nanos / SECOND as nat);
    if seconds == 0 {
        (digits, over)
    } else if seconds < DIGITS_END {
        let power = power_from(seconds, DIGITS_START as nat, 1);
        (half_even((seconds * over + digits) * power, over), power)
    } else {
        (seconds, 1)
    }
}

impl Double {
    pub open spec fn pair(self) -> (nat, nat) {
        (self.digits as nat, self.over as nat)
    }
}

/// `n / d` to the nearest whole number; a tie goes to the even one.
pub fn round_half_even(n: u128, d: u128) -> (rounded: u128)
    requires
        1 <= d <= 0x7fff_ffff_ffff_ffff_ffff_ffff_ffff_ffff,
        n < u128::MAX,
    ensures
        rounded == half_even(n as nat, d as nat),
        n / d <= rounded <= n / d + 1,
{
    let q: u128 = n / d;
    let r: u128 = n % d;
    proof {
        assert(n / d <= n) by (nonlinear_arith)
            requires
                d >= 1,
        ;
    }
    if 2 * r > d || (2 * r == d && q % 2 == 1) { q + 1 } else { q }
}

/// The power of two that `n` is to be multiplied by to reach `limit`.
fn power_to(n: u128, limit: u128) -> (power: u128)
    requires
        1 <= n,
        limit <= 0x7fff_ffff_ffff_ffff_ffff_ffff_ffff_ffff,
    ensures
        power == power_from(n as nat, limit as nat, 1),
        1 <= power,
        n < limit ==> limit <= n * power < 2 * limit,
        n >= limit ==> power == 1,
{
    let mut x: u128 = n;
    let mut power: u128 = 1;
    while x < limit
        invariant
            1 <= n,
            limit <= 0x7fff_ffff_ffff_ffff_ffff_ffff_ffff_ffff,
            x == n * power,
            1 <= power <= x,
            n < limit ==> x < 2 * limit,
            n >= limit ==> power == 1,
            power_from(n as nat, limit as nat, 1) == power_from(
                x as nat,
                limit as nat,
                power as nat,
            ),
        decreases (if x < limit { limit - x } else { 0 }),
    {
        proof {
            assert(2 * (n * power) == n * (2 * power)) by (nonlinear_arith);
        }
        x = 2 * x;
        power = 2 * power;
    }
    power
}

/// What is left of `n` in units of which it has between half of `end` and `end`.
proof fn unit_fits(n: int, end: int, unit: int)
    requires
        0 < end <= n,
        end % 2 == 0,
        n + 1 <= end * unit < 2 * (n + 1),
    ensures
        unit >= 2,
        end / 2 * unit <= n,
        unit <= n,
        unit <= n / (end / 2),
{
    assert(unit >= 2) by (nonlinear_arith)
        requires
            end <= n,
            end > 0,
            n + 1 <= end * unit,
    ;
    let half = end / 2;
    assert(end * unit == 2 * (half * unit)) by (nonlinear_arith)
        requires
            end == 2 * half,
    ;
    assert(half * unit >= unit) by (nonlinear_arith)
        requires
            half >= 1,
            unit >= 0,
    ;
    lemma_div_is_ordered(half * unit, n, half);
    lemma_div_multiples_vanish(unit, half);
}

/// Cuts a whole number to the digits of a double.
pub fn round_whole(n: u128) -> (rounded: u128)
    requires
        n <= 0x7000_0000_0000_0000_0000_0000_0000_0000,
    ensures
        rounded == whole(n as nat),
        rounded <= n + n / DIGITS_START,
        n >= 1 ==> rounded >= 1,
{
    if n < DIGITS_END {
        return n;
    }
    let unit = power_to(DIGITS_END, n + 1);
    proof {
        unit_fits(n as int, DIGITS_END as int, unit as int);
    }
    let digits = round_half_even(n, unit);
    proof {
        rounding_stays_near(n as int, unit as int, digits as int);
    }
    digits * unit
}

proof fn rounding_stays_near(n: int, unit: int, digits: int)
    requires
        0 < unit <= n,
        n / unit <= digits <= n / unit + 1,
    ensures
        0 < digits * unit <= n + unit,
{
    lemma_fundamental_div_mod(n, unit);
    let q = n / unit;
    lemma_div_is_ordered(unit, n, unit);
    lemma_div_by_self(unit);
    assert(0 < digits * unit <= q * unit + unit) by (nonlinear_arith)
        requires
            1 <= q <= digits <= q + 1,
            unit > 0,
    ;
    assert(unit * q == q * unit) by (nonlinear_arith);
}

/// Divides as doubles are divided.
pub fn divide(n: u128, d: u128) -> (quotient: Double)
    requires
        n <= 0x1_0000_0000_0000_0000,
        1 <= d <= 0x1_0000_0000_0000_0000,
    ensures
        quotient.pair() == ratio(n as nat, d as nat),
        1 <= quotient.over <= DIGITS_END * d,
        quotient.over == 1 || quotient.digits <= DIGITS_END,
        quotient.digits <= DIGITS_END || quotient.digits <= n + n / DIGITS_START,
        n < d ==> quotient.digits <= DIGITS_END,
{
    if n == 0 {
        return Double { digits: 0, over: 1 };
    }
    if n < DIGITS_END * d {
        let power = power_to(n, DIGITS_START * d);
        proof {
            assert(n * power < DIGITS_END * d);
            assert(power <= n * power) by (nonlinear_arith)
                requires
                    n >= 1,
                    power >= 0,
            ;
            let x = (n * power) as int;
            lemma_fundamental_div_mod(x, d as int);
            assert(x / (d as int) < DIGITS_END) by (nonlinear_arith)
                requires
                    x < DIGITS_END * d,
                    x == d * (x / (d as int)) + x % (d as int),
                    x % (d as int) >= 0,
                    d >= 1,
            ;
        }
        Double { digits: round_half_even(n * power, d), over: power }
    } else {
        let end: u128 = DIGITS_END * d;
        let unit = power_to(end, n + 1);
        proof {
            unit_fits(n as int, end as int, unit as int);
            assert(d * unit <= n && unit <= d * unit) by (nonlinear_arith)
                requires
                    end == DIGITS_END * d,
                    end / 2 * unit <= n,
                    unit >= 2,
                    d >= 1,
            ;
            assert(end >= d) by (nonlinear_arith)
                requires
                    end == DIGITS_END * d,
                    d >= 1,
            ;
            let du = d * unit;
            assert(DIGITS_START * du <= n) by (nonlinear_arith)
                requires
                    end == DIGITS_END * d,
                    end / 2 * unit <= n,
                    du == d * unit,
            ;
            lemma_div_is_ordered(DIGITS_START * du, n as int, DIGITS_START as int);
            lemma_div_multiples_vanish(du, DIGITS_START as int);
        }
        let digits = round_half_even(n, d * unit);
        proof {
            rounding_stays_near(n as int, (d * unit) as int, digits as int);
            assert(digits * unit <= digits * (d * unit)) by (nonlinear_arith)
                requires
                    0 <= digits,
                    unit <= d * unit,
            ;
        }
        Double { digits: digits * unit, over: 1 }
    }
}

proof fn sum_in_units(a: int, over: int, digits: int, power: int)
    requires
        a >= 0,
        over >= 1,
        digits >= 0,
        power >= 1,
    ensures
        0 <= (a * over + digits) * power,
        0 <= digits * power,
        0 <= a * power,
        ((a * over + digits) * power) / over == a * power + (digits * power) / over,
        ((a * over + digits) * power) % over == (digits * power) % over,
{
    let x = digits * power;
    let w = a * power;
    assert((a * over + digits) * power == w * over + x) by (nonlinear_arith)
        requires
            x == digits * power,
            w == a * power,
    ;
    assert(x >= 0 && w >= 0 && w * over >= 0) by (nonlinear_arith)
        requires
            x == digits * power,
            w == a * power,
            digits >= 0,
            power >= 1,
            a >= 0,
            over >= 1,
    ;
    lemma_hoist_over_denominator(x, w, over as nat);
    lemma_mod_multiples_vanish(w, x, over);
    assert(over * w == w * over) by (nonlinear_arith);
}

/// A span in seconds.
pub fn seconds(span: Duration) -> (seconds: Double)
    ensures
        seconds.pair() == seconds_of(span.nanos as nat),
        1 <= seconds.over <= 0x2000_0000_0000_0000_0000_0000,
        seconds.digits <= 0x800_0000_0000_0000_0000_0000_0000,
{
    let rest = divide(span.nanos % SECOND, SECOND);
    let whole_seconds = round_whole(span.nanos / SECOND);
    if whole_seconds == 0 {
        rest
    } else if whole_seconds < DIGITS_END {
        let power = power_to(whole_seconds, DIGITS_START);
        proof {
            sum_in_units(
                whole_seconds as int,
                rest.over as int,
                rest.digits as int,
                power as int,
            );
            assert(power <= whole_seconds * power) by (nonlinear_arith)
                requires
                    whole_seconds >= 1,
                    power >= 0,
            ;
            assert(whole_seconds * power < DIGITS_END);
            assert(rest.digits * power <= DIGITS_END * DIGITS_END) by (nonlinear_arith)
                requires
                    0 <= rest.digits <= DIGITS_END,
                    0 <= power <= DIGITS_END,
            ;
        }
        let fraction: u128 = rest.digits * power;
        let left: u128 = fraction % rest.over;
        proof {
            assert(fraction / rest.over <= fraction) by (nonlinear_arith)
                requires
                    rest.over >= 1,
            ;
        }
        let digits: u128 = whole_seconds * power + fraction / rest.over;
        let up: bool = 2 * left > rest.over || (2 * left == rest.over && digits % 2 == 1);
        Double { digits: if up { digits + 1 } else { digits }, over: power }
    } else {
        Double { digits: whole_seconds, over: 1 }
    }
}

/// Whole seconds are held as they are, as long as their digits suffice.
pub proof fn whole_seconds_are_exact(seconds: nat)
    requires
        seconds < DIGITS_END,
    ensures
        ({
            let (digits, over) = seconds_of(seconds * SECOND as nat);
            digits == seconds * over
        }),
{
    let nanos = seconds * SECOND as nat;
    assert(nanos / SECOND as nat == seconds && nanos % SECOND as nat == 0);
    if seconds > 0 {
        let power = power_from(seconds, DIGITS_START as nat, 1);
        assert((seconds * 1 + 0) * power == seconds * power) by (nonlinear_arith);
    }
}

/// The parts that seconds are counted in are never none.
pub proof fn seconds_are_over_something(nanos: nat)
    ensures
        seconds_of(nanos).1 >= 1,
{
    let rest = nanos % SECOND as nat;
    let seconds = whole(nanos / SECOND as nat);
    power_from_is_no_less(rest, (DIGITS_START * SECOND) as nat, 1);
    power_from_is_no_less(seconds, DIGITS_START as nat, 1);
}

proof fn power_from_is_no_less(x: nat, limit: nat, power: nat)
    ensures
        power_from(x, limit, power) >= power,
    decreases (if x < limit { limit - x } else { 0 }),
{
    if !(x == 0 || x >= limit) {
        power_from_is_no_less(2 * x, limit, 2 * power);
    }
}

} // verus!
