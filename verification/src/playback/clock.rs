//! The video clock: which time stamp is due at a point in time.

use crate::time::{Duration, Instant};
use crate::time_base;
use crate::time_base::{Rounding, TimeBase};
use vstd::arithmetic::div_mod::*;
use vstd::prelude::*;

verus! {

/// Where the clock runs from, or the time stamp at which it stands.
#[derive(Clone, Copy, Debug, PartialEq, Eq)]
pub struct VideoClock {
    pub origin: Option<(i64, Instant)>,
    pub frozen_pts: Option<i64>,
}

/// The nanoseconds from `earlier` to `now`, as far as they fit in 64 bits.
pub open spec fn elapsed_nanos(now: Instant, earlier: Instant) -> i64 {
    let span = now.since(earlier);
    if span.nanos > i64::MAX { i64::MAX } else { span.nanos as i64 }
}

impl Default for VideoClock {
    fn default() -> (clock: Self)
        ensures
            clock == Self::unset(),
    {
        VideoClock::new()
    }
}

impl VideoClock {
    /// The time stamp that is due at `now`.
    pub open spec fn pts(self, now: Instant, time_base: TimeBase) -> Option<i64> {
        match self.origin {
            Some((pts, time)) => {
                let ticks = time_base::rescaled(
                    elapsed_nanos(now, time),
                    TimeBase::nanos(),
                    time_base,
                    Rounding::Floor,
                );
                if i64::MIN <= pts + ticks <= i64::MAX { Some((pts + ticks) as i64) } else { None }
            },
            None => self.frozen_pts,
        }
    }

    /// When `pts` is due on a running clock.
    pub open spec fn deadline(self, pts: i64, time_base: TimeBase) -> Option<Instant> {
        match self.origin {
            Some((origin_pts, origin_time)) => {
                let ticks = pts - origin_pts;
                if ticks < i64::MIN || ticks > i64::MAX {
                    None
                } else if ticks <= 0 {
                    Some(origin_time)
                } else {
                    let nanos = time_base::rescaled(
                        ticks as i64,
                        time_base,
                        TimeBase::nanos(),
                        Rounding::Ceil,
                    );
                    if nanos < 0 || origin_time.nanos + nanos > u128::MAX {
                        None
                    } else {
                        Some(Instant { nanos: (origin_time.nanos + nanos) as u128 })
                    }
                }
            },
            None => None,
        }
    }

    pub open spec fn unset() -> Self {
        VideoClock { origin: None, frozen_pts: None }
    }

    /// The clock that shows `pts` at `now`.
    pub open spec fn at(pts: i64, now: Instant, playing: bool) -> Self {
        if playing {
            VideoClock { origin: Some((pts, now)), frozen_pts: None }
        } else {
            VideoClock { origin: None, frozen_pts: Some(pts) }
        }
    }

    /// The clock once it runs.
    pub open spec fn played(self, now: Instant) -> Self {
        match (self.origin, self.frozen_pts) {
            (None, Some(pts)) => VideoClock { origin: Some((pts, now)), frozen_pts: None },
            _ => self,
        }
    }

    /// The clock once it stands.
    pub open spec fn paused(self, now: Instant, time_base: TimeBase) -> Self {
        match self.pts(now, time_base) {
            Some(pts) => VideoClock { origin: None, frozen_pts: Some(pts) },
            None => self,
        }
    }

    pub fn new() -> (clock: Self)
        ensures
            clock == Self::unset(),
    {
        VideoClock { origin: None, frozen_pts: None }
    }

    pub fn reset(&mut self)
        ensures
            *final(self) == Self::unset(),
    {
        self.origin = None;
        self.frozen_pts = None;
    }

    pub fn establish(&mut self, pts: i64, now: Instant, playing: bool)
        ensures
            *final(self) == Self::at(pts, now, playing),
    {
        if playing {
            self.origin = Some((pts, now));
            self.frozen_pts = None;
        } else {
            self.origin = None;
            self.frozen_pts = Some(pts);
        }
    }

    pub fn play(&mut self, now: Instant)
        ensures
            *final(self) == old(self).played(now),
    {
        if self.origin.is_none() {
            match self.frozen_pts {
                Some(pts) => {
                    self.frozen_pts = None;
                    self.origin = Some((pts, now));
                },
                None => {},
            }
        }
    }

    pub fn pause(&mut self, now: Instant, time_base: TimeBase)
        ensures
            *final(self) == old(self).paused(now, time_base),
    {
        match self.pts_at(now, time_base) {
            Some(pts) => {
                self.origin = None;
                self.frozen_pts = Some(pts);
            },
            None => {},
        }
    }

    pub fn pts_at(&self, now: Instant, time_base: TimeBase) -> (pts: Option<i64>)
        ensures
            pts == self.pts(now, time_base),
    {
        match self.origin {
            Some((origin_pts, origin_time)) => {
                let elapsed: Duration = now.saturating_duration_since(origin_time);
                let nanos: i64 = if elapsed.nanos > i64::MAX as u128 {
                    i64::MAX
                } else {
                    elapsed.nanos as i64
                };
                let ticks = time_base::rescale_rnd(
                    nanos,
                    TimeBase::new(1, 1_000_000_000),
                    time_base,
                    Rounding::Floor,
                );
                origin_pts.checked_add(ticks)
            },
            None => self.frozen_pts,
        }
    }

    pub fn deadline_for(&self, pts: i64, time_base: TimeBase) -> (deadline: Option<Instant>)
        ensures
            deadline == self.deadline(pts, time_base),
    {
        match self.origin {
            Some((origin_pts, origin_time)) => {
                let ticks = match pts.checked_sub(origin_pts) {
                    Some(ticks) => ticks,
                    None => {
                        return None;
                    },
                };
                if ticks <= 0 {
                    return Some(origin_time);
                }
                let nanos = time_base::rescale_rnd(
                    ticks,
                    time_base,
                    TimeBase::new(1, 1_000_000_000),
                    Rounding::Ceil,
                );
                if nanos < 0 {
                    return None;
                }
                match origin_time.nanos.checked_add(nanos as u128) {
                    Some(nanos) => Some(Instant { nanos }),
                    None => None,
                }
            },
            None => None,
        }
    }
}

/// A clock that stands shows the same time stamp at every point in time.
pub proof fn paused_clock_stands(clock: VideoClock, now: Instant, later: Instant, time_base: TimeBase)
    ensures
        clock.pts(now, time_base) is Some ==> clock.paused(now, time_base).pts(later, time_base)
            == clock.pts(now, time_base),
{
}

/// Time that passes while the clock stands does not count: after a pause at `paused_at`
/// and a resumption at `resumed_at`, the clock goes on from where it stood.
pub proof fn pause_excludes_wall_time(
    clock: VideoClock,
    paused_at: Instant,
    resumed_at: Instant,
    time_base: TimeBase,
    elapsed: Duration,
)
    requires
        clock.pts(paused_at, time_base) is Some,
        resumed_at.nanos + elapsed.nanos <= u128::MAX,
    ensures
        clock.paused(paused_at, time_base).played(resumed_at).pts(
            resumed_at.plus(elapsed),
            time_base,
        ) == VideoClock::at(clock.pts(paused_at, time_base).unwrap(), resumed_at, true).pts(
            resumed_at.plus(elapsed),
            time_base,
        ),
        clock.paused(paused_at, time_base).played(resumed_at).pts(resumed_at, time_base)
            == clock.pts(paused_at, time_base),
{
    let from = TimeBase::nanos();
    let n = time_base::rescale_num(0, from, time_base);
    let d = time_base::rescale_den(from, time_base);
    assert(0 * (from.num * time_base.den) == 0);
    assert(d >= 0);
    if d > 0 {
        assert(0int / d == 0) by {
            lemma_div_of0(d);
        }
    }
}

/// A number without its sign.
pub open spec fn magnitude(n: i64) -> int {
    if n < 0 { -n } else { n as int }
}

/// The deadline of a time stamp is the first nanosecond at which it is due: from then on the
/// clock has reached it, and at every moment before it has not. A time stamp at or before the
/// clock's origin is due all along. Spans of more nanoseconds than 64 bits hold are cut off,
/// so they are left out.
pub proof fn deadline_is_exact(clock: VideoClock, pts: i64, time_base: TimeBase, at: Instant)
    requires
        time_base.positive(),
        clock.origin is Some,
        clock.deadline(pts, time_base) is Some,
        pts > clock.origin.unwrap().0 ==> (pts - clock.origin.unwrap().0) * (magnitude(
            time_base.num,
        ) * 1_000_000_000) <= i64::MAX * magnitude(time_base.den),
    ensures
        ({
            let deadline = clock.deadline(pts, time_base).unwrap();
            &&& at.nanos >= deadline.nanos || pts <= clock.origin.unwrap().0 ==> match clock.pts(
                at,
                time_base,
            ) {
                Some(due) => due >= pts,
                None => true,
            }
            &&& at.nanos < deadline.nanos && pts > clock.origin.unwrap().0 ==> (clock.pts(
                at,
                time_base,
            ) matches Some(due) && due < pts)
        }),
{
    let (origin_pts, origin_time) = clock.origin.unwrap();
    let num = magnitude(time_base.num);
    let den = magnitude(time_base.den);
    let elapsed = elapsed_nanos(at, origin_time) as int;
    if pts <= origin_pts {
        ticks_after(elapsed, 1, time_base);
    } else {
        let ticks = (pts - origin_pts) as i64;
        let nanos_base = TimeBase::nanos();
        // Ticks to nanoseconds, rounded up.
        let n1 = time_base::rescale_num(ticks, time_base, nanos_base);
        let d1 = time_base::rescale_den(time_base, nanos_base);
        let total = ticks * (num * 1_000_000_000);
        assert(d1 == den);
        assert(n1 == total) by (nonlinear_arith)
            requires
                total == ticks * (num * 1_000_000_000),
                n1 == (if time_base.den * 1 < 0 {
                    -(ticks * (time_base.num * 1_000_000_000))
                } else {
                    ticks * (time_base.num * 1_000_000_000)
                }),
                num == (if time_base.num < 0 { -time_base.num } else { time_base.num as int }),
                (time_base.num > 0 && time_base.den > 0) || (time_base.num < 0 && time_base.den < 0),
        ;
        assert(total > 0) by (nonlinear_arith)
            requires
                total == ticks * (num * 1_000_000_000),
                ticks > 0,
                num > 0,
        ;
        assert(i64::MAX * den <= u128::MAX) by (nonlinear_arith)
            requires
                0 < den <= 0x8000_0000_0000_0000int,
        ;
        let q = -((-total) / den);
        lemma_fundamental_div_mod(-total, den);
        lemma_mod_bound(-total, den);
        assert((q - 1) * den < total <= q * den && 0 < q <= i64::MAX) by (nonlinear_arith)
            requires
                -total == den * ((-total) / den) + (-total) % den,
                0 <= (-total) % den < den,
                q == -((-total) / den),
                0 < total <= i64::MAX * den,
                den > 0,
        ;
        assert(time_base::rescaled(ticks, time_base, nanos_base, Rounding::Ceil) == q);
        ticks_after(elapsed, ticks as int, time_base);
        let deadline = clock.deadline(pts, time_base).unwrap();
        assert(deadline.nanos == origin_time.nanos + q);
        if at.nanos >= deadline.nanos {
            assert(elapsed >= q);
            assert(elapsed * den >= q * den) by (nonlinear_arith)
                requires
                    elapsed >= q,
                    den > 0,
            ;
        } else {
            assert(elapsed <= q - 1);
            assert(elapsed * den <= (q - 1) * den) by (nonlinear_arith)
                requires
                    elapsed <= q - 1,
                    den > 0,
            ;
        }
    }
}

/// Nanoseconds to ticks, rounded down.
proof fn ticks_after(nanos: int, ticks: int, time_base: TimeBase)
    requires
        0 <= nanos <= i64::MAX,
        0 < ticks <= i64::MAX,
        time_base.positive(),
    ensures
        ({
            let num = magnitude(time_base.num);
            let den = magnitude(time_base.den);
            let scaled = time_base::rescaled(
                nanos as i64,
                TimeBase::nanos(),
                time_base,
                Rounding::Floor,
            );
            &&& scaled >= 0
            &&& nanos * den >= ticks * (num * 1_000_000_000) ==> scaled >= ticks
            &&& nanos * den < ticks * (num * 1_000_000_000) ==> scaled < ticks
        }),
{
    let num = magnitude(time_base.num);
    let den = magnitude(time_base.den);
    let n = time_base::rescale_num(nanos as i64, TimeBase::nanos(), time_base);
    let d = time_base::rescale_den(TimeBase::nanos(), time_base);
    assert(d == 1_000_000_000 * num);
    assert(n == nanos * den) by (nonlinear_arith)
        requires
            n == (if 1_000_000_000 * time_base.num < 0 {
                -(nanos * (1 * time_base.den))
            } else {
                nanos * (1 * time_base.den)
            }),
            den == (if time_base.den < 0 { -time_base.den } else { time_base.den as int }),
            (time_base.num > 0 && time_base.den > 0) || (time_base.num < 0 && time_base.den < 0),
    ;
    assert(0 <= n <= u128::MAX) by (nonlinear_arith)
        requires
            n == nanos * den,
            0 <= nanos <= 0x7fff_ffff_ffff_ffffint,
            0 < den <= 0x8000_0000_0000_0000int,
    ;
    let q = n / d;
    lemma_fundamental_div_mod(n, d);
    lemma_mod_bound(n, d);
    assert(q >= 0) by (nonlinear_arith)
        requires
            n == d * q + n % d,
            0 <= n % d < d,
            n >= 0,
    ;
    let total = ticks * (num * 1_000_000_000);
    assert(total == ticks * d) by (nonlinear_arith)
        requires
            total == ticks * (num * 1_000_000_000),
            d == 1_000_000_000 * num,
    ;
    if n >= total {
        assert(q >= ticks) by (nonlinear_arith)
            requires
                n == d * q + n % d,
                0 <= n % d < d,
                n >= ticks * d,
        ;
    } else {
        assert(q < ticks) by (nonlinear_arith)
            requires
                n == d * q + n % d,
                0 <= n % d < d,
                n < ticks * d,
        ;
    }
}

/// A clock that runs is as many ticks past where it was set as fit in the time since, and one
/// that stands shows where it stands.
pub proof fn running_clock_keeps_time(
    clock: VideoClock,
    from: i64,
    since: Instant,
    now: Instant,
    time_base: TimeBase,
    pts: i64,
)
    requires
        clock.origin == Some((from, since)),
        time_base.num > 0,
        time_base.den > 0,
        since.nanos <= now.nanos <= since.nanos + i64::MAX,
        (now.nanos - since.nanos) * time_base.den <= u128::MAX,
        clock.pts(now, time_base) == Some(pts),
        pts - from < i64::MAX,
    ensures
        ((pts - from) * time_base.num) * 1_000_000_000 <= (now.nanos - since.nanos) * time_base.den < ((
        pts - from + 1) * time_base.num) * 1_000_000_000,
{
    let elapsed = (now.nanos - since.nanos) as i64;
    let nanos = TimeBase { num: 1, den: 1_000_000_000 };
    assert(elapsed_nanos(now, since) == elapsed);
    let n = time_base::rescale_num(elapsed, nanos, time_base);
    let d = time_base::rescale_den(nanos, time_base);
    let q = time_base::rescaled(elapsed, nanos, time_base, Rounding::Floor) as int;
    assert(q == pts - from);
    assert(n == elapsed * time_base.den && n >= 0) by (nonlinear_arith)
        requires
            n == (if 1_000_000_000 * time_base.num < 0 {
                -(elapsed * (1 * time_base.den))
            } else {
                elapsed * (1 * time_base.den)
            }),
            time_base.num > 0,
            time_base.den > 0,
            elapsed >= 0,
    ;
    assert(d == time_base.num * 1_000_000_000);
    assert(n / d >= 0) by (nonlinear_arith)
        requires
            n >= 0,
            d > 0,
    ;
    time_base::floor_is_not_later(elapsed, nanos, time_base);
    assert((q * time_base.num) * 1_000_000_000 == q * d) by (nonlinear_arith)
        requires
            d == time_base.num * 1_000_000_000,
    ;
    assert(((q + 1) * time_base.num) * 1_000_000_000 == (q + 1) * d) by (nonlinear_arith)
        requires
            d == time_base.num * 1_000_000_000,
    ;
}

/// A clock that is set to a time stamp shows it, and goes on from there if it is to run.
pub proof fn set_clock_shows_its_time_stamp(pts: i64, now: Instant, later: Instant, time_base: TimeBase)
    requires
        time_base.positive(),
    ensures
        VideoClock::at(pts, now, true).origin == Some((pts, now)),
        VideoClock::at(pts, now, false).pts(later, time_base) == Some(pts),
        VideoClock::at(pts, now, false).played(later).origin == Some((pts, later)),
        VideoClock::unset().pts(now, time_base) is None,
{
}

/// A frame is due as much later than the clock was set as its time stamp is, to the nanosecond
/// above; one that the clock was set behind is due at once. A clock that stands has no such
/// moment.
pub proof fn deadlines_lie_where_frames_are_due(
    clock: VideoClock,
    from: i64,
    since: Instant,
    pts: i64,
    time_base: TimeBase,
)
    requires
        clock.origin == Some((from, since)),
        time_base.num > 0,
        time_base.den > 0,
        i64::MIN <= pts - from <= i64::MAX,
        (pts - from) * (time_base.num * 1_000_000_000) < i64::MAX,
        since.nanos + i64::MAX <= u128::MAX,
    ensures
        pts <= from ==> clock.deadline(pts, time_base) == Some(since),
        pts > from ==> (clock.deadline(pts, time_base) matches Some(at) && {
            let wait = at.nanos - since.nanos;
            (wait - 1) * time_base.den < (pts - from) * (time_base.num * 1_000_000_000) <= wait
                * time_base.den
        }),
        VideoClock::at(pts, since, false).deadline(from, time_base) is None,
{
    if pts > from {
        let ticks = (pts - from) as i64;
        let nanos = TimeBase { num: 1, den: 1_000_000_000 };
        let n = time_base::rescale_num(ticks, time_base, nanos);
        let d = time_base::rescale_den(time_base, nanos);
        assert(d == time_base.den);
        assert(n == ticks * (time_base.num * 1_000_000_000));
        assert(n > 0) by (nonlinear_arith)
            requires
                n == ticks * (time_base.num * 1_000_000_000),
                ticks > 0,
                time_base.num > 0,
        ;
        let q = (-n) / d;
        lemma_fundamental_div_mod(-n, d);
        lemma_mod_bound(-n, d);
        assert(q * d <= -n < (q + 1) * d) by (nonlinear_arith)
            requires
                -n == d * q + (-n) % d,
                0 <= (-n) % d < d,
        ;
        let wait = -q;
        assert((wait - 1) * d < n <= wait * d) by (nonlinear_arith)
            requires
                q * d <= -n < (q + 1) * d,
                wait == -q,
        ;
        assert(0 < wait <= n) by (nonlinear_arith)
            requires
                (wait - 1) * d < n <= wait * d,
                d >= 1,
                n > 0,
        ;
    }
}

} // verus!
