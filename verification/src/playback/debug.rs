//! What playback shows of itself to those who look into it.

use crate::double;
use crate::playback::sink::DecoderDebugInfo;
use crate::text;
use crate::time::Duration;
use crate::time_base;
use crate::time_base::TimeBase;
use vstd::prelude::*;
use vstd::string::*;

verus! {

/// How the decoder is doing.
#[derive(Clone, Copy, Debug, PartialEq, Eq, Structural)]
pub enum ExecutorStatus {
    Absent,
    Finished,
    Running,
}

/// What is known of the audio output.
pub struct AudioFacts {
    pub backend: String,
    pub device_rate: u32,
    pub playing: bool,
    pub preroll_ready: bool,
    pub queued_samples: u64,
    pub queued: Duration,
    pub target_samples: u64,
    pub headroom_samples: u64,
    pub headroom: Duration,
    pub submitted_samples: u64,
    pub next_output_pts: Option<i64>,
    pub media_origin: Option<Duration>,
    pub underrun_callbacks: u64,
    pub underrun_samples: u64,
}

/// What is known from outside of playback, in the words of the libraries that know it.
pub struct DebugFacts {
    pub executor: ExecutorStatus,
    pub video_codec: String,
    pub video_colour: Option<String>,
    pub video_decoder: Option<DecoderDebugInfo>,
    pub audio_codec: String,
    pub audio_sample_format: Option<String>,
    pub audio_decoder: Option<DecoderDebugInfo>,
    pub audio: Option<AudioFacts>,
}

/// A number of thousandths.
pub open spec fn thousandths_text(n: nat) -> Seq<char> {
    text::decimal(n / 1000) + "."@ + text::padded(n % 1000, 3)
}

/// A number of tenths.
pub open spec fn tenths_text(n: nat) -> Seq<char> {
    text::decimal(n / 10) + "."@ + text::decimal(n % 10)
}

/// Seconds with three decimals, from nanoseconds.
pub open spec fn seconds_text(nanos: int) -> Seq<char> {
    let (digits, over) = double::seconds_of(magnitude(nanos));
    let amount = thousandths_text(double::half_even(1000 * digits, over)) + "s"@;
    if nanos < 0 { "-"@ + amount } else { amount }
}

/// Seconds with three decimals and a sign, from nanoseconds.
pub open spec fn offset_text(nanos: int) -> Seq<char> {
    if nanos < 0 { seconds_text(nanos) } else { "+"@ + seconds_text(nanos) }
}

/// Milliseconds, from nanoseconds: what they are, and over which power of two.
pub open spec fn millis_of(nanos: nat) -> (nat, nat) {
    let (digits, over) = double::seconds_of(nanos);
    (double::whole(1000 * digits), over)
}

/// Milliseconds with one decimal, from nanoseconds.
pub open spec fn millis_text(nanos: nat) -> Seq<char> {
    let (digits, over) = millis_of(nanos);
    tenths_text(double::half_even(10 * digits, over)) + " ms"@
}

/// Milliseconds without a decimal, from nanoseconds.
pub open spec fn whole_millis_text(nanos: nat) -> Seq<char> {
    let (digits, over) = millis_of(nanos);
    text::decimal(double::half_even(digits, over)) + " ms"@
}

pub open spec fn bool_text(b: bool) -> Seq<char> {
    if b { "true"@ } else { "false"@ }
}

/// The magnitude of a number.
pub open spec fn magnitude(n: int) -> nat {
    if n < 0 { (-n) as nat } else { n as nat }
}

/// A time stamp in seconds, with three decimals and, also before zero, the sign that the
/// three numbers make up. Without a length of a tick there is no number to write.
pub open spec fn stamp_seconds(pts: i64, base: TimeBase) -> Seq<char> {
    let product = pts * base.num;
    if base.den == 0 {
        if product == 0 {
            "NaNs"@
        } else if product < 0 {
            "-infs"@
        } else {
            "infs"@
        }
    } else {
        let (digits, over) = double::ratio(
            double::whole(magnitude(base.num as int)),
            double::whole(magnitude(base.den as int)),
        );
        let seconds = double::whole(double::whole(magnitude(pts as int)) * digits);
        let amount = thousandths_text(double::half_even(1000 * seconds, over)) + "s"@;
        if (pts < 0) != ((base.num < 0) != (base.den < 0)) { "-"@ + amount } else { amount }
    }
}

/// A time stamp, also in seconds.
pub open spec fn stamp_text(pts: i64, base: TimeBase) -> Seq<char> {
    text::signed_decimal(pts as int) + " ("@ + stamp_seconds(pts, base) + ")"@
}

/// Something that may not be there.
pub open spec fn or_else(value: Option<Seq<char>>, otherwise: Seq<char>) -> Seq<char> {
    match value {
        Some(value) => value,
        None => otherwise,
    }
}

pub fn push_thousandths(out: &mut String, n: u128)
    ensures
        final(out)@ == old(out)@ + thousandths_text(n as nat),
{
    text::push_decimal_wide(out, n / 1000);
    out.append(".");
    text::push_padded(out, (n % 1000) as u64, 3);
    assert(out@ =~= old(out)@ + thousandths_text(n as nat));
}

fn push_tenths(out: &mut String, n: u128)
    ensures
        final(out)@ == old(out)@ + tenths_text(n as nat),
{
    text::push_decimal_wide(out, n / 10);
    out.append(".");
    text::push_decimal_wide(out, n % 10);
    assert(out@ =~= old(out)@ + tenths_text(n as nat));
}

/// Writes seconds with three decimals.
pub fn seconds(nanos: i128) -> (seconds: String)
    ensures
        seconds@ == seconds_text(nanos as int),
{
    let mut seconds = String::new();
    if nanos < 0 {
        seconds.append("-");
    }
    let amount = span_seconds(Duration { nanos: time_base::size(nanos) });
    seconds.append(amount.as_str());
    assert(seconds@ =~= seconds_text(nanos as int));
    seconds
}

pub fn span_seconds(span: Duration) -> (seconds: String)
    ensures
        seconds@ == seconds_text(span.nanos as int),
{
    let amount = double::seconds(span);
    let mut seconds = String::new();
    push_thousandths(&mut seconds, double::round_half_even(1000 * amount.digits, amount.over));
    seconds.append("s");
    assert(seconds@ =~= seconds_text(span.nanos as int));
    seconds
}

/// Writes how far a moment is behind another.
pub fn offset(moment: i128, other: i128) -> (seconds: String)
    ensures
        seconds@ == offset_text(moment - other),
{
    let (sign, span) = if moment < other {
        ("-", time_base::apart(other, moment))
    } else {
        ("+", time_base::apart(moment, other))
    };
    let mut signed = sign.to_owned();
    signed.append(span_seconds(Duration { nanos: span }).as_str());
    assert(signed@ =~= offset_text(moment - other));
    signed
}

pub fn push_millis(out: &mut String, span: Duration)
    ensures
        final(out)@ == old(out)@ + millis_text(span.nanos as nat),
{
    let amount = double::seconds(span);
    let millis = double::round_whole(1000 * amount.digits);
    push_tenths(out, double::round_half_even(10 * millis, amount.over));
    out.append(" ms");
    assert(out@ =~= old(out)@ + millis_text(span.nanos as nat));
}

pub fn push_whole_millis(out: &mut String, span: Duration)
    ensures
        final(out)@ == old(out)@ + whole_millis_text(span.nanos as nat),
{
    let amount = double::seconds(span);
    let millis = double::round_whole(1000 * amount.digits);
    text::push_decimal_wide(out, double::round_half_even(millis, amount.over));
    out.append(" ms");
    assert(out@ =~= old(out)@ + whole_millis_text(span.nanos as nat));
}

pub fn push_bool(out: &mut String, b: bool)
    ensures
        final(out)@ == old(out)@ + bool_text(b),
{
    if b {
        out.append("true");
    } else {
        out.append("false");
    }
}

pub fn bool_string(b: bool) -> (s: String)
    ensures
        s@ == bool_text(b),
{
    if b { "true".to_owned() } else { "false".to_owned() }
}

pub fn number(n: u64) -> (s: String)
    ensures
        s@ == text::decimal(n as nat),
{
    let mut s = String::new();
    text::push_decimal(&mut s, n);
    assert(s@ =~= text::decimal(n as nat));
    s
}

/// Writes whole seconds with three decimals.
fn push_whole_seconds(out: &mut String, seconds: u128)
    ensures
        final(out)@ == old(out)@ + thousandths_text(1000 * seconds as nat),
{
    text::push_decimal_wide(out, seconds);
    out.append(".");
    text::push_padded(out, 0, 3);
    assert(out@ =~= old(out)@ + thousandths_text(1000 * seconds as nat));
}

fn push_stamp_seconds(out: &mut String, pts: i64, base: TimeBase)
    ensures
        final(out)@ == old(out)@ + stamp_seconds(pts, base),
{
    if base.den == 0 {
        proof {
            product_has_sign(pts as int, base.num as int);
        }
        if pts == 0 || base.num == 0 {
            out.append("NaNs");
        } else if (pts < 0) != (base.num < 0) {
            out.append("-infs");
        } else {
            out.append("infs");
        }
        return;
    }
    let num = double::round_whole(time_base::size(base.num as i128));
    let den = double::round_whole(time_base::size(base.den as i128));
    let rate = double::divide(num, den);
    let ticks = double::round_whole(time_base::size(pts as i128));
    proof {
        assert(0 <= ticks * rate.digits <= 0x8000_0000_0000_1000 * 0x8000_0000_0000_2000
            && (rate.digits <= double::DIGITS_END ==> ticks * rate.digits <= 0x8000_0000_0000_1000
            * 0x20_0000_0000_0000)) by (nonlinear_arith)
            requires
                0 <= ticks <= 0x8000_0000_0000_1000,
                0 <= rate.digits <= 0x8000_0000_0000_2000,
                double::DIGITS_END == 0x20_0000_0000_0000,
        ;
    }
    let seconds = double::round_whole(ticks * rate.digits);
    if (pts < 0) != ((base.num < 0) != (base.den < 0)) {
        out.append("-");
    }
    let ghost total = double::half_even((1000 * seconds) as nat, rate.over as nat);
    assert((rate.digits as nat, rate.over as nat) == double::ratio(
        double::whole(magnitude(base.num as int)),
        double::whole(magnitude(base.den as int)),
    ));
    assert(seconds == double::whole(
        double::whole(magnitude(pts as int)) * (rate.digits as nat),
    ));
    if rate.over == 1 {
        let ghost n = 1000 * seconds;
        assert(n / 1 == n && n % 1 == 0) by (nonlinear_arith);
        assert(total == 1000 * seconds);
        push_whole_seconds(out, seconds);
    } else {
        push_thousandths(out, double::round_half_even(1000 * seconds, rate.over));
    }
    out.append("s");
    assert(out@ =~= old(out)@ + stamp_seconds(pts, base));
}

proof fn product_has_sign(a: int, b: int)
    ensures
        a * b == 0 <==> a == 0 || b == 0,
        a * b < 0 <==> a != 0 && b != 0 && (a < 0) != (b < 0),
{
    assert((a * b == 0 <==> a == 0 || b == 0) && (a * b < 0 <==> a != 0 && b != 0 && (a < 0) != (b
        < 0))) by (nonlinear_arith);
}

/// Writes a time stamp, also in seconds.
pub fn stamp(pts: i64, base: TimeBase) -> (stamp: String)
    ensures
        stamp@ == stamp_text(pts, base),
{
    let mut stamp = String::new();
    text::push_signed_decimal(&mut stamp, pts);
    stamp.append(" (");
    push_stamp_seconds(&mut stamp, pts, base);
    stamp.append(")");
    assert(stamp@ =~= stamp_text(pts, base));
    stamp
}

/// Whole seconds are told with three places behind the point; those before a moment have a
/// minus sign, and an offset that is not negative has a plus sign.
pub proof fn whole_seconds_are_told_plainly(seconds: nat)
    requires
        0 < seconds < 9_007_199_254_740_992,
    ensures
        seconds_text((seconds * 1_000_000_000) as int) == text::decimal(seconds) + ".000s"@,
        seconds_text(-(seconds * 1_000_000_000)) == "-"@ + (text::decimal(seconds) + ".000s"@),
        offset_text((seconds * 1_000_000_000) as int) == "+"@ + (text::decimal(seconds)
            + ".000s"@),
        offset_text(-(seconds * 1_000_000_000)) == "-"@ + (text::decimal(seconds) + ".000s"@),
{
    let nanos = seconds * 1_000_000_000;
    double::whole_seconds_are_exact(seconds);
    double::seconds_are_over_something(nanos);
    let (digits, over) = double::seconds_of(nanos);
    let n = 1000 * digits;
    assert(n == (1000 * seconds) * over) by (nonlinear_arith)
        requires
            n == 1000 * digits,
            digits == seconds * over,
    ;
    vstd::arithmetic::div_mod::lemma_fundamental_div_mod_converse(
        n as int,
        over as int,
        (1000 * seconds) as int,
        0,
    );
    assert(double::half_even(n, over) == 1000 * seconds);
    reveal_strlit(".");
    reveal_strlit("s");
    reveal_strlit(".000s");
    assert(text::decimal(0) =~= seq!['0']);
    assert(text::padded(0, 3) =~= seq!['0', '0', '0']);
    assert(thousandths_text(1000 * seconds) + "s"@ =~= text::decimal(seconds) + ".000s"@);
}

} // verus!
