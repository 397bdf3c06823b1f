//! Times as people read and write them.

use crate::text;
use crate::time::Duration;
use vstd::prelude::*;
use vstd::string::*;

verus! {

/// A part of a colon form: nothing stands for zero.
pub open spec fn colon_part(s: Seq<char>) -> Option<nat> {
    if s.len() == 0 { Some(0) } else { text::number(s) }
}

/// The seconds that `m:s` or `h:m:s` stands for.
pub open spec fn colon_seconds(s: Seq<char>) -> Option<nat> {
    let parts = text::split_on(s, ':');
    if parts.len() == 2 {
        match (colon_part(parts[0]), colon_part(parts[1])) {
            (Some(minutes), Some(seconds)) => Some(minutes * 60 + seconds),
            _ => None,
        }
    } else if parts.len() == 3 {
        match (colon_part(parts[0]), colon_part(parts[1]), colon_part(parts[2])) {
            (Some(hours), Some(minutes), Some(seconds)) => Some(
                hours * 3600 + minutes * 60 + seconds,
            ),
            _ => None,
        }
    } else {
        None
    }
}

/// The seconds that `m.s` stands for.
pub open spec fn dot_seconds(s: Seq<char>) -> Option<nat> {
    let parts = text::split_on(s, '.');
    match (text::number(parts[0]), text::number(parts[1])) {
        (Some(minutes), Some(seconds)) => Some(minutes * 60 + seconds),
        _ => None,
    }
}

/// The number of digits that `s` starts with.
pub open spec fn leading_digits(s: Seq<char>) -> nat
    decreases s.len(),
{
    if s.len() > 0 && text::is_digit(s[0]) { 1 + leading_digits(s.drop_first()) } else { 0 }
}

/// The seconds in the unit that `c` names; a dot names the unit that is expected.
pub open spec fn unit_seconds(c: char, expected: nat) -> Option<nat> {
    if c == 'h' {
        Some(3600)
    } else if c == 'm' {
        Some(60)
    } else if c == 's' {
        Some(1)
    } else if c == '.' {
        Some(expected)
    } else {
        None
    }
}

/// The unit that is expected after one of `unit` seconds: the next smaller one.
pub open spec fn unit_below(unit: nat) -> nat {
    if unit / 60 < 1 { 1 } else { unit / 60 }
}

/// The seconds that a run of values with units stands for; a last value without a unit
/// counts in the unit that is expected there.
pub open spec fn units_sum(s: Seq<char>, expected: nat) -> Option<nat>
    decreases s.len(),
{
    let n = leading_digits(s);
    if s.len() == 0 {
        Some(0)
    } else if n == 0 || n > s.len() {
        None
    } else if n == s.len() {
        Some(text::digits_value(s) * expected)
    } else {
        match unit_seconds(s[n as int], expected) {
            None => None,
            Some(unit) => match units_sum(s.skip(n as int + 1), unit_below(unit)) {
                None => None,
                Some(rest) => Some(text::digits_value(s.take(n as int)) * unit + rest),
            },
        }
    }
}

/// The unit that is expected first: the largest that the text names.
pub open spec fn first_unit(s: Seq<char>) -> nat {
    if s.contains('h') {
        3600
    } else if s.contains('m') {
        60
    } else {
        1
    }
}

/// The seconds that a text stands for.
pub open spec fn friendly_seconds(input: Seq<char>) -> Option<nat> {
    let s = text::lowered(text::trimmed(input));
    if s.len() == 0 {
        None
    } else if text::all_digits(s) {
        Some(text::digits_value(s))
    } else if s.contains(':') {
        colon_seconds(s)
    } else if text::split_on(s, '.').len() == 2 && !s.contains('h') && !s.contains('m')
        && !s.contains('s') {
        dot_seconds(s)
    } else {
        units_sum(s, first_unit(s))
    }
}

/// Seconds as a span, if there are any and they fit.
pub open spec fn seconds_span(seconds: Option<nat>) -> Option<Duration> {
    match seconds {
        Some(n) => if n <= u64::MAX { Some(Duration::of_secs(n as u64)) } else { None },
        None => None,
    }
}

fn contains_char(s: &Vec<char>, c: char) -> (found: bool)
    ensures
        found == s@.contains(c),
{
    let mut i: usize = 0;
    while i < s.len()
        invariant
            i <= s.len(),
            forall|k: int| 0 <= k < i ==> s@[k] != c,
        decreases s.len() - i,
    {
        if s[i] == c {
            assert(s@[i as int] == c);
            return true;
        }
        i += 1;
    }
    false
}

fn only_digits(s: &Vec<char>) -> (only: bool)
    ensures
        only == text::all_digits(s@),
{
    let mut i: usize = 0;
    while i < s.len()
        invariant
            i <= s.len(),
            forall|k: int| 0 <= k < i ==> text::is_digit(#[trigger] s@[k]),
        decreases s.len() - i,
    {
        if !text::ascii_digit(s[i]) {
            assert(!text::is_digit(s@[i as int]));
            return false;
        }
        i += 1;
    }
    true
}

fn minutes_and_seconds(minutes: u64, seconds: u64) -> (total: Option<u64>)
    ensures
        match total {
            Some(n) => n == minutes * 60 + seconds,
            None => minutes * 60 + seconds > u64::MAX,
        },
{
    match minutes.checked_mul(60) {
        Some(product) => product.checked_add(seconds),
        None => None,
    }
}

fn parse_colon_part(part: &Vec<char>) -> (value: Option<u64>)
    ensures
        match value {
            Some(v) => colon_part(part@) == Some(v as nat),
            None => match colon_part(part@) {
                Some(n) => n > u64::MAX,
                None => true,
            },
        },
{
    if part.len() == 0 { Some(0) } else { text::parse_number(part) }
}

/// Parses `m:s` or `h:m:s`.
pub fn parse_colon_time(input: &Vec<char>) -> (time: Option<Duration>)
    ensures
        time == seconds_span(colon_seconds(input@)),
{
    let parts = text::split(input, ':');
    assert(forall|i: int| 0 <= i < parts@.len() ==> #[trigger] text::parts_view(parts@)[i] == parts@[i]@);
    if parts.len() == 2 {
        let minutes = match parse_colon_part(&parts[0]) {
            Some(value) => value,
            None => {
                return None;
            },
        };
        let seconds = match parse_colon_part(&parts[1]) {
            Some(value) => value,
            None => {
                return None;
            },
        };
        match minutes_and_seconds(minutes, seconds) {
            Some(total) => Some(Duration::from_secs(total)),
            None => None,
        }
    } else if parts.len() == 3 {
        let hours = match parse_colon_part(&parts[0]) {
            Some(value) => value,
            None => {
                return None;
            },
        };
        let minutes = match parse_colon_part(&parts[1]) {
            Some(value) => value,
            None => {
                return None;
            },
        };
        let seconds = match parse_colon_part(&parts[2]) {
            Some(value) => value,
            None => {
                return None;
            },
        };
        match (hours.checked_mul(3600), minutes_and_seconds(minutes, seconds)) {
            (Some(first), Some(second)) => match first.checked_add(second) {
                Some(total) => Some(Duration::from_secs(total)),
                None => None,
            },
            _ => None,
        }
    } else {
        None
    }
}

fn parse_dot_time(input: &Vec<char>) -> (time: Option<Duration>)
    requires
        text::split_on(input@, '.').len() == 2,
    ensures
        time == seconds_span(dot_seconds(input@)),
{
    let parts = text::split(input, '.');
    assert(forall|i: int| 0 <= i < parts@.len() ==> #[trigger] text::parts_view(parts@)[i] == parts@[i]@);
    match (text::parse_number(&parts[0]), text::parse_number(&parts[1])) {
        (Some(minutes), Some(seconds)) => match minutes_and_seconds(minutes, seconds) {
            Some(total) => Some(Duration::from_secs(total)),
            None => None,
        },
        _ => None,
    }
}

/// The leading digits are digits, and what follows them is none.
proof fn leading_digits_stop(s: Seq<char>)
    ensures
        leading_digits(s) <= s.len(),
        text::all_digits(s.take(leading_digits(s) as int)),
        leading_digits(s) < s.len() ==> !text::is_digit(s[leading_digits(s) as int]),
    decreases s.len(),
{
    if s.len() > 0 && text::is_digit(s[0]) {
        leading_digits_stop(s.drop_first());
        let n = leading_digits(s) as int;
        assert forall|i: int| 0 <= i < s.take(n).len() implies text::is_digit(
            #[trigger] s.take(n)[i],
        ) by {
            if i > 0 {
                assert(s.take(n)[i] == s.drop_first().take(n - 1)[i - 1]);
            }
        }
    }
}

/// Digits in front count as leading digits.
proof fn leading_digits_are(digits: Seq<char>, rest: Seq<char>)
    requires
        text::all_digits(digits),
        rest.len() > 0 ==> !text::is_digit(rest[0]),
    ensures
        leading_digits(digits + rest) == digits.len(),
    decreases digits.len(),
{
    if digits.len() > 0 {
        assert((digits + rest).drop_first() =~= digits.drop_first() + rest);
        leading_digits_are(digits.drop_first(), rest);
    } else {
        assert(digits + rest =~= rest);
    }
}

/// Parses a run of values with units.
pub fn parse_unit_time(input: &Vec<char>) -> (time: Option<Duration>)
    ensures
        time == (if input@.len() == 0 { None } else {
            seconds_span(units_sum(input@, first_unit(input@)))
        }),
{
    if input.len() == 0 {
        return None;
    }
    let mut expected: u64 = if contains_char(input, 'h') {
        3600
    } else if contains_char(input, 'm') {
        60
    } else {
        1
    };
    let ghost whole = units_sum(input@, first_unit(input@));
    let mut total: u64 = 0;
    let mut i: usize = 0;
    assert(input@.skip(0) =~= input@);
    while i < input.len()
        invariant
            i <= input.len(),
            1 <= expected <= 3600,
            whole == units_sum(input@, first_unit(input@)),
            match units_sum(input@.skip(i as int), expected as nat) {
                Some(rest) => whole == Some((total + rest) as nat),
                None => whole is None,
            },
        decreases input.len() - i,
    {
        let ghost rest = input@.skip(i as int);
        let ghost n = leading_digits(rest) as int;
        proof {
            leading_digits_stop(rest);
        }
        let mut end: usize = i;
        while end < input.len() && text::ascii_digit(input[end])
            invariant
                i <= end <= input.len(),
                rest == input@.skip(i as int),
                n == leading_digits(rest),
                n <= rest.len(),
                end - i <= n,
                text::all_digits(rest.take(n)),
                n < rest.len() ==> !text::is_digit(rest[n]),
            decreases input.len() - end,
        {
            assert(rest[end - i] == input@[end as int]);
            end += 1;
        }
        proof {
            if end - i < n {
                assert(rest.take(n)[end - i] == input@[end as int]);
            }
        }
        assert(end - i == n);
        if end == i {
            return None;
        }
        assert(input@.subrange(i as int, end as int) =~= rest.take(n));
        let value = match text::digits_between(input, i, end) {
            Some(value) => value,
            None => {
                proof {
                    assert(n == rest.len() ==> rest.take(n) =~= rest);
                    too_large_a_value(rest, expected as nat);
                }
                return None;
            },
        };
        let unit: u64;
        if end < input.len() {
            let c: char = input[end];
            assert(rest[n] == c);
            unit = if c == 'h' {
                3600
            } else if c == 'm' {
                60
            } else if c == 's' {
                1
            } else if c == '.' {
                expected
            } else {
                return None;
            };
            assert(rest.skip(n + 1) =~= input@.skip(end + 1));
            i = end + 1;
        } else {
            unit = expected;
            assert(rest.take(n) =~= rest);
            assert(input@.skip(end as int) =~= Seq::<char>::empty());
            i = end;
        }
        match value.checked_mul(unit) {
            Some(product) => match total.checked_add(product) {
                Some(sum) => {
                    total = sum;
                },
                None => {
                    return None;
                },
            },
            None => {
                return None;
            },
        }
        expected = if unit / 60 < 1 { 1 } else { unit / 60 };
    }
    assert(input@.skip(input@.len() as int) =~= Seq::<char>::empty());
    Some(Duration::from_secs(total))
}

/// A value that does not fit makes the whole not fit.
proof fn too_large_a_value(s: Seq<char>, expected: nat)
    requires
        0 < leading_digits(s) <= s.len(),
        expected >= 1,
        text::digits_value(s.take(leading_digits(s) as int)) > u64::MAX,
    ensures
        match units_sum(s, expected) {
            Some(sum) => sum > u64::MAX,
            None => true,
        },
{
    let n = leading_digits(s) as int;
    let v = text::digits_value(s.take(n));
    if n == s.len() {
        assert(s.take(n) =~= s);
        assert(v * expected >= v) by (nonlinear_arith)
            requires expected >= 1;
    } else {
        match unit_seconds(s[n], expected) {
            Some(unit) => {
                assert(v * unit >= v) by (nonlinear_arith)
                    requires unit >= 1;
            },
            None => {},
        }
    }
}

/// Parses the forms in which people write a time.
pub fn parse_friendly_time(input: &str) -> (time: Option<Duration>)
    ensures
        time == seconds_span(friendly_seconds(input@)),
{
    let s = text::lowercase(&text::trim(&text::chars_of(input)));
    if s.len() == 0 {
        return None;
    }
    if only_digits(&s) {
        assert(s@.subrange(0, s@.len() as int) =~= s@);
        return match text::digits_between(&s, 0, s.len()) {
            Some(seconds) => Some(Duration::from_secs(seconds)),
            None => None,
        };
    }
    if contains_char(&s, ':') {
        return parse_colon_time(&s);
    }
    if text::split(&s, '.').len() == 2 && !contains_char(&s, 'h') && !contains_char(&s, 'm')
        && !contains_char(&s, 's') {
        return parse_dot_time(&s);
    }
    parse_unit_time(&s)
}

/// `seconds` as hours, minutes and seconds with their units.
pub open spec fn friendly_text(seconds: nat) -> Seq<char> {
    text::decimal(seconds / 3600) + seq!['h'] + text::two_digits((seconds % 3600) / 60) + seq!['m']
        + text::two_digits(seconds % 60) + seq!['s']
}

/// `seconds` as hours, minutes and seconds between colons.
pub open spec fn colon_text(seconds: nat) -> Seq<char> {
    text::decimal(seconds / 3600) + seq![':'] + text::two_digits((seconds % 3600) / 60) + seq![':']
        + text::two_digits(seconds % 60)
}

pub fn format_friendly_time(duration: Duration) -> (text: String)
    ensures
        text@ == friendly_text(duration.secs() as nat),
{
    let total = duration.as_secs();
    let mut text = String::new();
    text::push_decimal(&mut text, total / 3600);
    text.push('h');
    text::push_two_digits(&mut text, (total % 3600) / 60);
    text.push('m');
    text::push_two_digits(&mut text, total % 60);
    text.push('s');
    assert(text@ =~= friendly_text(total as nat));
    text
}

pub fn format_colon_time(duration: Duration) -> (text: String)
    ensures
        text@ == colon_text(duration.secs() as nat),
{
    let total = duration.as_secs();
    let mut text = String::new();
    text::push_decimal(&mut text, total / 3600);
    text.push(':');
    text::push_two_digits(&mut text, (total % 3600) / 60);
    text.push(':');
    text::push_two_digits(&mut text, total % 60);
    assert(text@ =~= colon_text(total as nat));
    text
}

/// A number of things, with the noun in the plural unless there is one.
pub open spec fn plural_text(value: nat, noun: Seq<char>) -> Seq<char> {
    if value == 1 { seq!['1', ' '] + noun } else { text::decimal(value) + seq![' '] + noun + seq!['s'] }
}

pub fn plural(value: u64, noun: &str) -> (text: String)
    ensures
        text@ == plural_text(value as nat, noun@),
{
    let mut text = String::new();
    if value == 1 {
        text.push('1');
        text.push(' ');
        text.append(noun);
    } else {
        text::push_decimal(&mut text, value);
        text.push(' ');
        text.append(noun);
        text.push('s');
    }
    assert(text@ =~= plural_text(value as nat, noun@));
    text
}

/// How far `subject` lies after or before `relative_to`, in the largest whole unit.
pub open spec fn relative_text(subject: Duration, relative_to: Duration) -> Seq<char> {
    let seconds = subject.distance(relative_to).secs() as nat;
    let sign = if subject.nanos >= relative_to.nanos { '+' } else { '-' };
    if seconds == 0 {
        "Same"@
    } else if seconds >= 3600 {
        seq![sign] + plural_text(seconds / 3600, "hour"@)
    } else if seconds >= 60 {
        seq![sign] + plural_text(seconds / 60, "minute"@)
    } else {
        seq![sign] + plural_text(seconds, "second"@)
    }
}

pub fn format_relative_position(subject: Duration, relative_to: Duration) -> (text: String)
    ensures
        text@ == relative_text(subject, relative_to),
{
    let seconds = subject.abs_diff(relative_to).as_secs();
    if seconds == 0 {
        return "Same".to_owned();
    }
    let mut text = String::new();
    text.push(if subject.nanos >= relative_to.nanos { '+' } else { '-' });
    if seconds >= 3600 {
        text.append(plural(seconds / 3600, "hour").as_str());
    } else if seconds >= 60 {
        text.append(plural(seconds / 60, "minute").as_str());
    } else {
        text.append(plural(seconds, "second").as_str());
    }
    assert(text@ =~= relative_text(subject, relative_to));
    text
}

/// How long ago something was, in the largest whole unit.
pub open spec fn age_text(seconds: nat) -> Seq<char> {
    if seconds >= 31_536_000 {
        plural_text(seconds / 31_536_000, "year"@) + " ago"@
    } else if seconds >= 86_400 {
        plural_text(seconds / 86_400, "day"@) + " ago"@
    } else if seconds >= 3600 {
        plural_text(seconds / 3600, "hour"@) + " ago"@
    } else if seconds >= 60 {
        plural_text(seconds / 60, "minute"@) + " ago"@
    } else {
        "Just now"@
    }
}

pub fn format_age(age: Duration) -> (text: String)
    ensures
        text@ == age_text(age.secs() as nat),
{
    let seconds = age.as_secs();
    let mut text = if seconds >= 31_536_000 {
        plural(seconds / 31_536_000, "year")
    } else if seconds >= 86_400 {
        plural(seconds / 86_400, "day")
    } else if seconds >= 3600 {
        plural(seconds / 3600, "hour")
    } else if seconds >= 60 {
        plural(seconds / 60, "minute")
    } else {
        return "Just now".to_owned();
    };
    text.append(" ago");
    text
}

/// Text that neither starts nor ends with white space is its own trimmed form.
proof fn trimmed_already(s: Seq<char>)
    requires
        s.len() > 0,
        !text::is_space(s[0]),
        !text::is_space(s.last()),
    ensures
        text::trimmed(s) == s,
{
}

/// The parts of joined text are the parts of both sides.
proof fn split_joined(left: Seq<char>, right: Seq<char>, separator: char)
    ensures
        text::split_on(left + seq![separator] + right, separator) == text::split_on(left, separator)
            + text::split_on(right, separator),
{
    text::split_joined(left, right, separator);
}

/// Text without a separator is one part.
proof fn split_alone(s: Seq<char>, separator: char)
    requires
        !s.contains(separator),
    ensures
        text::split_on(s, separator) == seq![s],
{
    text::split_alone(s, separator);
}

/// Digits hold no separator.
proof fn digits_hold_no(s: Seq<char>, c: char)
    requires
        text::all_digits(s),
        !text::is_digit(c),
    ensures
        !s.contains(c),
{
}

/// Digits denote themselves.
proof fn digits_are_a_number(s: Seq<char>)
    requires
        s.len() > 0,
        text::all_digits(s),
    ensures
        text::number(s) == Some(text::digits_value(s)),
        colon_part(s) == Some(text::digits_value(s)),
{
    assert(text::is_digit(s[0]));
}

/// The hours, minutes and seconds of a number of seconds make it up.
proof fn clock_parts_sum(seconds: nat)
    ensures
        (seconds / 3600) * 3600 + ((seconds % 3600) / 60) * 60 + seconds % 60 == seconds,
{
}

/// A time written with colons reads back as its whole seconds.
pub proof fn colon_time_round_trip(seconds: u64)
    ensures
        friendly_seconds(colon_text(seconds as nat)) == Some(seconds as nat),
        seconds_span(friendly_seconds(colon_text(seconds as nat))) == Some(
            Duration::of_secs(seconds),
        ),
{
    let n = seconds as nat;
    let h = text::decimal(n / 3600);
    let m = text::two_digits((n % 3600) / 60);
    let s = text::two_digits(n % 60);
    let whole = colon_text(n);
    text::decimal_denotes(n / 3600);
    text::two_digits_denotes((n % 3600) / 60);
    text::two_digits_denotes(n % 60);
    let tail = m + seq![':'] + s;
    assert(whole =~= h + seq![':'] + tail);
    assert(whole[0] == h[0]);
    assert(text::is_digit(h[0]));
    assert(whole.last() == s.last());
    assert(text::is_digit(s[s.len() - 1]));
    trimmed_already(whole);
    assert forall|i: int| 0 <= i < whole.len() implies text::lower(whole[i]) == whole[i] by {
        joined_by_colons(h, m, s, i);
    }
    assert(text::lowered(whole) =~= whole);
    assert(whole[h.len() as int] == ':');
    assert(whole.contains(':'));
    assert(!text::all_digits(whole)) by {
        assert(!text::is_digit(whole[h.len() as int]));
    }
    digits_hold_no(h, ':');
    digits_hold_no(m, ':');
    digits_hold_no(s, ':');
    split_joined(h, tail, ':');
    split_joined(m, s, ':');
    split_alone(h, ':');
    split_alone(m, ':');
    split_alone(s, ':');
    assert(text::split_on(whole, ':') =~= seq![h, m, s]);
    digits_are_a_number(h);
    digits_are_a_number(m);
    digits_are_a_number(s);
    clock_parts_sum(n);
}

proof fn joined_by_colons(h: Seq<char>, m: Seq<char>, s: Seq<char>, i: int)
    requires
        text::all_digits(h),
        text::all_digits(m),
        text::all_digits(s),
        0 <= i < h.len() + m.len() + s.len() + 2,
    ensures
        ({
            let whole = h + seq![':'] + m + seq![':'] + s;
            text::lower(whole[i]) == whole[i]
        }),
{
    let whole = h + seq![':'] + m + seq![':'] + s;
    let a = h.len() as int;
    let b = m.len() as int;
    if i < a {
        assert(whole[i] == h[i]);
    } else if a < i < a + 1 + b {
        assert(whole[i] == m[i - a - 1]);
    } else if i > a + 1 + b {
        assert(whole[i] == s[i - a - b - 2]);
    }
}

proof fn joined_by_units(h: Seq<char>, m: Seq<char>, s: Seq<char>, i: int)
    requires
        text::all_digits(h),
        text::all_digits(m),
        text::all_digits(s),
        0 <= i < h.len() + m.len() + s.len() + 3,
    ensures
        ({
            let whole = h + seq!['h'] + m + seq!['m'] + s + seq!['s'];
            text::lower(whole[i]) == whole[i] && whole[i] != ':'
        }),
{
    let whole = h + seq!['h'] + m + seq!['m'] + s + seq!['s'];
    let a = h.len() as int;
    let b = m.len() as int;
    if i < a {
        assert(whole[i] == h[i]);
    } else if a < i < a + 1 + b {
        assert(whole[i] == m[i - a - 1]);
    } else if a + 1 + b < i < a + b + s.len() + 2 {
        assert(whole[i] == s[i - a - b - 2]);
    }
}

/// One value with its unit, in front of the rest.
proof fn units_sum_step(
    digits: Seq<char>,
    letter: char,
    rest: Seq<char>,
    expected: nat,
    value: nat,
    unit: nat,
    rest_sum: nat,
)
    requires
        digits.len() > 0,
        text::all_digits(digits),
        text::digits_value(digits) == value,
        unit_seconds(letter, expected) == Some(unit),
        letter != '.',
        units_sum(rest, unit_below(unit)) == Some(rest_sum),
    ensures
        units_sum(digits + seq![letter] + rest, expected) == Some(value * unit + rest_sum),
{
    let whole = digits + seq![letter] + rest;
    let after = seq![letter] + rest;
    assert(whole =~= digits + after);
    assert(after[0] == letter);
    leading_digits_are(digits, after);
    let n = digits.len() as int;
    assert(whole.take(n) =~= digits);
    assert(whole.skip(n + 1) =~= rest);
    assert(whole[n] == letter);
}

/// A time written with units reads back as its whole seconds.
pub proof fn friendly_time_round_trip(seconds: u64)
    ensures
        friendly_seconds(friendly_text(seconds as nat)) == Some(seconds as nat),
        seconds_span(friendly_seconds(friendly_text(seconds as nat))) == Some(
            Duration::of_secs(seconds),
        ),
{
    let n = seconds as nat;
    let h = text::decimal(n / 3600);
    let m = text::two_digits((n % 3600) / 60);
    let s = text::two_digits(n % 60);
    let whole = friendly_text(n);
    text::decimal_denotes(n / 3600);
    text::two_digits_denotes((n % 3600) / 60);
    text::two_digits_denotes(n % 60);
    assert(whole[0] == h[0]);
    assert(text::is_digit(h[0]));
    assert(whole.last() == 's');
    trimmed_already(whole);
    assert forall|i: int| 0 <= i < whole.len() implies text::lower(whole[i]) == whole[i]
        && whole[i] != ':' by {
        joined_by_units(h, m, s, i);
    }
    assert(text::lowered(whole) =~= whole);
    assert(whole[h.len() as int] == 'h');
    assert(whole.contains('h'));
    assert(!text::all_digits(whole)) by {
        assert(!text::is_digit(whole[h.len() as int]));
    }
    assert(!whole.contains(':'));
    let last = s + seq!['s'] + Seq::<char>::empty();
    let middle = m + seq!['m'] + last;
    assert(whole =~= h + seq!['h'] + middle);
    assert(units_sum(Seq::<char>::empty(), 1) == Some(0nat));
    assert(unit_below(1) == 1 && unit_below(60) == 1 && unit_below(3600) == 60);
    units_sum_step(s, 's', Seq::empty(), 1, n % 60, 1, 0);
    assert(units_sum(last, 1) == Some(n % 60));
    units_sum_step(m, 'm', last, 60, (n % 3600) / 60, 60, n % 60);
    assert(units_sum(middle, 60) == Some(((n % 3600) / 60) * 60 + n % 60));
    units_sum_step(h, 'h', middle, 3600, n / 3600, 3600, ((n % 3600) / 60) * 60 + n % 60);
    clock_parts_sum(n);
    assert(units_sum(whole, 3600) == Some(n));
    assert(first_unit(whole) == 3600);
    assert(friendly_seconds(whole) == units_sum(whole, first_unit(whole)));
}

/// Text of digits and units is read value by value.
proof fn units_are_read(s: Seq<char>)
    requires
        s.len() > 0,
        text::is_digit(s[0]),
        forall|i: int|
            0 <= i < s.len() ==> text::is_digit(#[trigger] s[i]) || s[i] == 'h' || s[i] == 'm'
                || s[i] == 's' || s[i] == '.',
        s.contains('h') || s.contains('m') || s.contains('s'),
    ensures
        friendly_seconds(s) == units_sum(s, first_unit(s)),
{
    assert(!text::is_space(s[0]));
    assert(!text::is_space(s.last())) by {
        assert(text::is_digit(s[s.len() - 1]) || !text::is_digit(s[s.len() - 1]));
    }
    trimmed_already(s);
    assert(text::lowered(s) =~= s) by {
        assert forall|i: int| 0 <= i < s.len() implies text::lower(s[i]) == s[i] by {
            assert(text::is_digit(s[i]) || !text::is_digit(s[i]));
        }
    }
    assert(!s.contains(':')) by {
        assert forall|i: int| 0 <= i < s.len() implies s[i] != ':' by {
            assert(text::is_digit(s[i]) || !text::is_digit(s[i]));
        }
    }
    assert(!text::all_digits(s)) by {
        let c = if s.contains('h') {
            'h'
        } else if s.contains('m') {
            'm'
        } else {
            's'
        };
        let k = choose|k: int| 0 <= k < s.len() && s[k] == c;
        assert(!text::is_digit(s[k]));
    }
}

/// A last value without a unit.
proof fn bare_value_is_read(digits: Seq<char>, expected: nat)
    requires
        digits.len() > 0,
        text::all_digits(digits),
    ensures
        units_sum(digits, expected) == Some(text::digits_value(digits) * expected),
{
    assert(digits + Seq::<char>::empty() =~= digits);
    leading_digits_are(digits, Seq::empty());
}

/// A value with the letter of its unit, in front of the rest.
proof fn value_with_letter_is_read(digits: Seq<char>, letter: char, rest: Seq<char>, expected: nat)
    requires
        digits.len() > 0,
        text::all_digits(digits),
        letter == 'h' || letter == 'm' || letter == 's' || letter == '.',
    ensures
        ({
            let unit: nat = if letter == 'h' {
                3600
            } else if letter == 'm' {
                60
            } else if letter == 's' {
                1
            } else {
                expected
            };
            units_sum(digits + seq![letter] + rest, expected) == (match units_sum(
                rest,
                unit_below(unit),
            ) {
                Some(sum) => Some((text::digits_value(digits) * unit + sum) as nat),
                None => None,
            })
        }),
{
    let whole = digits + seq![letter] + rest;
    let after = seq![letter] + rest;
    assert(whole =~= digits + after);
    assert(after[0] == letter);
    leading_digits_are(digits, after);
    let n = digits.len() as int;
    assert(whole.take(n) =~= digits);
    assert(whole.skip(n + 1) =~= rest);
    assert(whole[n] == letter);
}

/// A value with the letter of its unit is that many hours, minutes or seconds.
pub proof fn one_value_counts_in_its_unit(a: Seq<char>)
    requires
        a.len() > 0,
        text::all_digits(a),
    ensures
        friendly_seconds(a) == Some(text::digits_value(a)),
        friendly_seconds(a + seq!['s']) == Some(text::digits_value(a)),
        friendly_seconds(a + seq!['m']) == Some(text::digits_value(a) * 60),
        friendly_seconds(a + seq!['h']) == Some(text::digits_value(a) * 3600),
{
    assert(text::is_digit(a[0]) && text::is_digit(a[a.len() - 1]));
    trimmed_already(a);
    assert(text::lowered(a) =~= a) by {
        assert forall|i: int| 0 <= i < a.len() implies text::lower(a[i]) == a[i] by {
            assert(text::is_digit(a[i]));
        }
    }
    let nothing = Seq::<char>::empty();
    assert(units_sum(nothing, 1) == Some(0nat) && units_sum(nothing, 60) == Some(0nat)
        && units_sum(nothing, unit_below(1)) == Some(0nat) && units_sum(nothing, unit_below(60))
        == Some(0nat) && units_sum(nothing, unit_below(3600)) == Some(0nat));
    let last = a.len() as int;
    let s = a + seq!['s'];
    assert(s[last] == 's' && s =~= a + seq!['s'] + nothing);
    with_one_letter(a, 's', nothing);
    value_with_letter_is_read(a, 's', nothing, 1);
    let m = a + seq!['m'];
    assert(m[last] == 'm' && m =~= a + seq!['m'] + nothing);
    with_one_letter(a, 'm', nothing);
    value_with_letter_is_read(a, 'm', nothing, 60);
    let h = a + seq!['h'];
    assert(h[last] == 'h' && h =~= a + seq!['h'] + nothing);
    with_one_letter(a, 'h', nothing);
    value_with_letter_is_read(a, 'h', nothing, 3600);
}

/// Two values around a letter are read as values with units.
proof fn with_one_letter(a: Seq<char>, letter: char, b: Seq<char>)
    requires
        a.len() > 0,
        text::all_digits(a),
        text::all_digits(b),
        letter == 'h' || letter == 'm' || letter == 's',
    ensures
        ({
            let s = a + seq![letter] + b;
            &&& friendly_seconds(s) == units_sum(s, first_unit(s))
            &&& first_unit(s) == (if letter == 'h' {
                3600nat
            } else if letter == 'm' {
                60
            } else {
                1
            })
        }),
{
    let s = a + seq![letter] + b;
    assert forall|i: int| 0 <= i < s.len() implies text::is_digit(#[trigger] s[i]) || s[i] == letter by {
        if i < a.len() {
            assert(s[i] == a[i]);
        } else if i > a.len() {
            assert(s[i] == b[i - a.len() - 1]);
        }
    }
    assert(s[0] == a[0] && text::is_digit(a[0]));
    assert(s[a.len() as int] == letter);
    units_are_read(s);
    assert(letter != 'h' ==> !s.contains('h')) by {
        assert forall|i: int| 0 <= i < s.len() && letter != 'h' implies s[i] != 'h' by {
            assert(text::is_digit(s[i]) || s[i] == letter);
        }
    }
    assert(letter == 's' ==> !s.contains('m')) by {
        assert forall|i: int| 0 <= i < s.len() && letter == 's' implies s[i] != 'm' by {
            assert(text::is_digit(s[i]) || s[i] == letter);
        }
    }
}

/// A last value without a unit counts in the unit below the one before it: seconds behind
/// minutes, minutes behind hours, and seconds behind seconds.
pub proof fn last_value_counts_in_the_unit_below(a: Seq<char>, b: Seq<char>)
    requires
        a.len() > 0,
        text::all_digits(a),
        b.len() > 0,
        text::all_digits(b),
    ensures
        friendly_seconds(a + seq!['m'] + b) == Some(
            text::digits_value(a) * 60 + text::digits_value(b),
        ),
        friendly_seconds(a + seq!['h'] + b) == Some(
            text::digits_value(a) * 3600 + text::digits_value(b) * 60,
        ),
        friendly_seconds(a + seq!['s'] + b) == Some(text::digits_value(a) + text::digits_value(b)),
{
    with_one_letter(a, 'm', b);
    value_with_letter_is_read(a, 'm', b, 60);
    bare_value_is_read(b, unit_below(60));
    with_one_letter(a, 'h', b);
    value_with_letter_is_read(a, 'h', b, 3600);
    bare_value_is_read(b, unit_below(3600));
    with_one_letter(a, 's', b);
    value_with_letter_is_read(a, 's', b, 1);
    bare_value_is_read(b, unit_below(1));
}

/// Three values around two letters are read as values with units.
proof fn with_two_letters(a: Seq<char>, first: char, b: Seq<char>, second: char, c: Seq<char>)
    requires
        a.len() > 0,
        text::all_digits(a),
        text::all_digits(b),
        text::all_digits(c),
        first == 'h' || first == 'm',
        second == 'm' || second == 's' || second == '.',
    ensures
        ({
            let s = a + seq![first] + (b + seq![second] + c);
            &&& friendly_seconds(s) == units_sum(s, first_unit(s))
            &&& first_unit(s) == (if first == 'h' { 3600nat } else { 60 })
        }),
{
    let rest = b + seq![second] + c;
    let s = a + seq![first] + rest;
    assert forall|i: int| 0 <= i < s.len() implies text::is_digit(#[trigger] s[i]) || s[i] == first
        || s[i] == second by {
        let k = i - a.len() - 1;
        if i < a.len() {
            assert(s[i] == a[i]);
        } else if i > a.len() {
            assert(s[i] == rest[k]);
            if k < b.len() {
                assert(rest[k] == b[k]);
            } else if k > b.len() {
                assert(rest[k] == c[k - b.len() - 1]);
            }
        }
    }
    assert(s[0] == a[0] && text::is_digit(a[0]));
    assert(s[a.len() as int] == first);
    units_are_read(s);
    if first == 'm' {
        assert forall|i: int| 0 <= i < s.len() implies s[i] != 'h' by {
            assert(text::is_digit(s[i]) || s[i] == first || s[i] == second);
        }
    }
}

/// Hours, minutes and seconds add up, whether the last ones have their unit or not, and a dot
/// ends a value as its unit would.
pub proof fn hours_minutes_and_seconds_add_up(a: Seq<char>, b: Seq<char>, c: Seq<char>)
    requires
        a.len() > 0,
        text::all_digits(a),
        b.len() > 0,
        text::all_digits(b),
        c.len() > 0,
        text::all_digits(c),
    ensures
        ({
            let total = text::digits_value(a) * 3600 + text::digits_value(b) * 60
                + text::digits_value(c);
            &&& friendly_seconds(a + seq!['h'] + (b + seq!['m'] + c)) == Some(total)
            &&& friendly_seconds(a + seq!['h'] + (b + seq!['.'] + c)) == Some(total)
        }),
        friendly_seconds(a + seq!['h'] + (b + seq!['s'] + Seq::empty())) == Some(
            text::digits_value(a) * 3600 + text::digits_value(b),
        ),
        friendly_seconds(a + seq!['m'] + (b + seq!['s'] + Seq::empty())) == Some(
            text::digits_value(a) * 60 + text::digits_value(b),
        ),
        friendly_seconds(a + seq!['h'] + (b + seq!['m'] + Seq::empty())) == Some(
            text::digits_value(a) * 3600 + text::digits_value(b) * 60,
        ),
{
    let nothing = Seq::<char>::empty();
    two_letters_add_up(a, 'h', b, 'm', c);
    two_letters_add_up(a, 'h', b, '.', c);
    two_letters_add_up(a, 'h', b, 's', nothing);
    two_letters_add_up(a, 'm', b, 's', nothing);
    two_letters_add_up(a, 'h', b, 'm', nothing);
}

/// Three values around two letters, the last of which may be missing.
proof fn two_letters_add_up(a: Seq<char>, first: char, b: Seq<char>, second: char, c: Seq<char>)
    requires
        a.len() > 0,
        text::all_digits(a),
        b.len() > 0,
        text::all_digits(b),
        text::all_digits(c),
        first == 'h' || first == 'm',
        second == 'm' || second == 's' || second == '.',
        first == 'm' ==> second == 's',
    ensures
        friendly_seconds(a + seq![first] + (b + seq![second] + c)) == Some(
            text::digits_value(a) * (if first == 'h' { 3600nat } else { 60 }) + text::digits_value(b)
                * (if second == 's' { 1nat } else { 60 }) + text::digits_value(c),
        ),
{
    let rest = b + seq![second] + c;
    let unit: nat = if first == 'h' { 3600 } else { 60 };
    let next: nat = if second == 's' { 1 } else { 60 };
    with_two_letters(a, first, b, second, c);
    value_with_letter_is_read(a, first, rest, unit);
    value_with_letter_is_read(b, second, c, unit_below(unit));
    assert(unit_below(3600) == 60 && unit_below(60) == 1 && unit_below(1) == 1);
    if c.len() > 0 {
        bare_value_is_read(c, unit_below(next));
    } else {
        assert(text::digits_value(c) == 0);
    }
    assert(units_sum(c, unit_below(next)) == Some(text::digits_value(c)));
    assert(units_sum(rest, unit_below(unit)) == Some(
        (text::digits_value(b) * next + text::digits_value(c)) as nat,
    ));
}

/// Text that joins digits by a sign is left as it is by trimming and lowering.
proof fn joined_digits_are_plain(s: Seq<char>, sign: char)
    requires
        s.len() > 0,
        sign == ':' || sign == '.',
        forall|i: int| 0 <= i < s.len() ==> text::is_digit(#[trigger] s[i]) || s[i] == sign,
    ensures
        text::lowered(text::trimmed(s)) == s,
{
    assert(text::is_digit(s[0]) || s[0] == sign);
    assert(text::is_digit(s[s.len() - 1]) || s[s.len() - 1] == sign);
    trimmed_already(s);
    assert(text::lowered(s) =~= s) by {
        assert forall|i: int| 0 <= i < s.len() implies text::lower(s[i]) == s[i] by {
            assert(text::is_digit(s[i]) || s[i] == sign);
        }
    }
}

/// Colons stand between hours, minutes and seconds, and nothing stands for none of them.
pub proof fn colons_part_hours_minutes_and_seconds(a: Seq<char>, b: Seq<char>, c: Seq<char>)
    requires
        text::all_digits(a),
        text::all_digits(b),
        text::all_digits(c),
    ensures
        friendly_seconds(a + seq![':'] + b) == Some(
            text::digits_value(a) * 60 + text::digits_value(b),
        ),
        friendly_seconds(a + seq![':'] + (b + seq![':'] + c)) == Some(
            text::digits_value(a) * 3600 + text::digits_value(b) * 60 + text::digits_value(c),
        ),
{
    let two = a + seq![':'] + b;
    let rest = b + seq![':'] + c;
    let three = a + seq![':'] + rest;
    assert forall|i: int| 0 <= i < two.len() implies text::is_digit(#[trigger] two[i]) || two[i] == ':' by {
        if i < a.len() {
            assert(two[i] == a[i]);
        } else if i > a.len() {
            assert(two[i] == b[i - a.len() - 1]);
        }
    }
    assert forall|i: int| 0 <= i < three.len() implies text::is_digit(#[trigger] three[i])
        || three[i] == ':' by {
        let k = i - a.len() - 1;
        if i < a.len() {
            assert(three[i] == a[i]);
        } else if i > a.len() {
            assert(three[i] == rest[k]);
            if k < b.len() {
                assert(rest[k] == b[k]);
            } else if k > b.len() {
                assert(rest[k] == c[k - b.len() - 1]);
            }
        }
    }
    joined_digits_are_plain(two, ':');
    joined_digits_are_plain(three, ':');
    assert(two[a.len() as int] == ':' && three[a.len() as int] == ':');
    assert(!text::is_digit(two[a.len() as int]) && !text::is_digit(three[a.len() as int]));
    digits_hold_no(a, ':');
    digits_hold_no(b, ':');
    digits_hold_no(c, ':');
    split_alone(a, ':');
    split_alone(b, ':');
    split_alone(c, ':');
    split_joined(a, b, ':');
    split_joined(a, rest, ':');
    split_joined(b, c, ':');
    assert(text::split_on(two, ':') =~= seq![a, b]);
    assert(text::split_on(three, ':') =~= seq![a, b, c]);
    if a.len() > 0 {
        digits_are_a_number(a);
    }
    if b.len() > 0 {
        digits_are_a_number(b);
    }
    if c.len() > 0 {
        digits_are_a_number(c);
    }
}

/// One dot between digits stands between minutes and seconds.
pub proof fn dot_parts_minutes_and_seconds(a: Seq<char>, b: Seq<char>)
    requires
        a.len() > 0,
        text::all_digits(a),
        b.len() > 0,
        text::all_digits(b),
    ensures
        friendly_seconds(a + seq!['.'] + b) == Some(
            text::digits_value(a) * 60 + text::digits_value(b),
        ),
{
    let s = a + seq!['.'] + b;
    assert forall|i: int| 0 <= i < s.len() implies text::is_digit(#[trigger] s[i]) || s[i] == '.' by {
        if i < a.len() {
            assert(s[i] == a[i]);
        } else if i > a.len() {
            assert(s[i] == b[i - a.len() - 1]);
        }
    }
    joined_digits_are_plain(s, '.');
    assert(s[a.len() as int] == '.' && !text::is_digit(s[a.len() as int]));
    assert forall|i: int| 0 <= i < s.len() implies s[i] != ':' && s[i] != 'h' && s[i] != 'm' && s[i]
        != 's' by {
        assert(text::is_digit(s[i]) || s[i] == '.');
    }
    digits_hold_no(a, '.');
    digits_hold_no(b, '.');
    split_alone(a, '.');
    split_alone(b, '.');
    split_joined(a, b, '.');
    assert(text::split_on(s, '.') =~= seq![a, b]);
    digits_are_a_number(a);
    digits_are_a_number(b);
}

/// Capital letters and a space on either side make no difference.
pub proof fn case_and_space_make_no_difference(s: Seq<char>, t: Seq<char>)
    requires
        s.len() == t.len(),
        forall|i: int|
            0 <= i < s.len() ==> (#[trigger] s[i] == t[i] || ('A' <= t[i] && t[i] <= 'Z' && s[i] == (
            t[i] as u32 + 32) as char)),
    ensures
        friendly_seconds(t) == friendly_seconds(s),
        friendly_seconds(seq![' '] + s) == friendly_seconds(s),
        friendly_seconds(s + seq![' ']) == friendly_seconds(s),
{
    lowering_ignores_case(s, t);
    let before = seq![' '] + s;
    assert(before[0] == ' ' && before.drop_first() =~= s);
    space_behind_is_trimmed(s);
}

proof fn lowering_ignores_case(s: Seq<char>, t: Seq<char>)
    requires
        s.len() == t.len(),
        forall|i: int|
            0 <= i < s.len() ==> (#[trigger] s[i] == t[i] || ('A' <= t[i] && t[i] <= 'Z' && s[i] == (
            t[i] as u32 + 32) as char)),
    ensures
        text::lowered(text::trimmed(s)) == text::lowered(text::trimmed(t)),
    decreases s.len(),
{
    if s.len() > 0 && text::is_space(s[0]) {
        assert(s[0] == t[0]);
        assert forall|i: int| 0 <= i < s.drop_first().len() implies (#[trigger] s.drop_first()[i]
            == t.drop_first()[i] || ('A' <= t.drop_first()[i] && t.drop_first()[i] <= 'Z'
            && s.drop_first()[i] == (t.drop_first()[i] as u32 + 32) as char)) by {
            assert(s[i + 1] == t[i + 1] || s[i + 1] == (t[i + 1] as u32 + 32) as char);
        }
        lowering_ignores_case(s.drop_first(), t.drop_first());
    } else {
        if s.len() > 0 {
            assert(s[0] == t[0] || s[0] == (t[0] as u32 + 32) as char);
            assert(!text::is_space(t[0]));
        }
        ends_lower_alike(s, t);
    }
}

proof fn ends_lower_alike(s: Seq<char>, t: Seq<char>)
    requires
        s.len() == t.len(),
        forall|i: int|
            0 <= i < s.len() ==> (#[trigger] s[i] == t[i] || ('A' <= t[i] && t[i] <= 'Z' && s[i] == (
            t[i] as u32 + 32) as char)),
    ensures
        text::lowered(text::trimmed_end(s)) == text::lowered(text::trimmed_end(t)),
    decreases s.len(),
{
    if s.len() > 0 && text::is_space(s.last()) {
        assert(s[s.len() - 1] == t[s.len() - 1]);
        assert forall|i: int| 0 <= i < s.drop_last().len() implies (#[trigger] s.drop_last()[i]
            == t.drop_last()[i] || ('A' <= t.drop_last()[i] && t.drop_last()[i] <= 'Z'
            && s.drop_last()[i] == (t.drop_last()[i] as u32 + 32) as char)) by {
            assert(s[i] == t[i] || s[i] == (t[i] as u32 + 32) as char);
        }
        ends_lower_alike(s.drop_last(), t.drop_last());
    } else {
        if s.len() > 0 {
            let k = s.len() - 1;
            assert(s[k] == t[k] || s[k] == (t[k] as u32 + 32) as char);
            assert(!text::is_space(t[k]));
        }
        assert(text::lowered(s) =~= text::lowered(t)) by {
            assert forall|i: int| 0 <= i < s.len() implies text::lower(s[i]) == text::lower(t[i]) by {
                assert(s[i] == t[i] || s[i] == (t[i] as u32 + 32) as char);
            }
        }
    }
}

proof fn space_behind_is_trimmed(s: Seq<char>)
    ensures
        text::trimmed(s + seq![' ']) == text::trimmed(s),
    decreases s.len(),
{
    let t = s + seq![' '];
    if s.len() > 0 && text::is_space(s[0]) {
        assert(t[0] == s[0]);
        assert(t.drop_first() =~= s.drop_first() + seq![' ']);
        space_behind_is_trimmed(s.drop_first());
    } else if s.len() == 0 {
        assert(t[0] == ' ');
        assert(t.drop_first() =~= s);
        assert(text::trimmed_start(t) == text::trimmed_start(t.drop_first()));
    } else {
        assert(t[0] == s[0]);
        assert(t.last() == ' ');
        assert(t.drop_last() =~= s);
    }
}

/// A time is written as its hours, its minutes and its seconds, the last two below sixty.
pub proof fn written_parts_are_in_range(hours: nat, minutes: nat, seconds: nat)
    requires
        minutes < 60,
        seconds < 60,
    ensures
        friendly_text(hours * 3600 + minutes * 60 + seconds) == text::decimal(hours) + seq!['h']
            + text::two_digits(minutes) + seq!['m'] + text::two_digits(seconds) + seq!['s'],
        colon_text(hours * 3600 + minutes * 60 + seconds) == text::decimal(hours) + seq![':']
            + text::two_digits(minutes) + seq![':'] + text::two_digits(seconds),
{
    let n = hours * 3600 + minutes * 60 + seconds;
    assert(n / 3600 == hours && (n % 3600) / 60 == minutes && n % 60 == seconds);
}

/// An age is told in the largest of its units that it fills, and how often it fills it.
pub proof fn ages_are_told_in_the_largest_unit(seconds: nat, count: nat)
    ensures
        seconds < 60 ==> age_text(seconds) == "Just now"@,
        1 <= count < 60 && count * 60 <= seconds < (count + 1) * 60 ==> age_text(seconds) == (if count
            == 1 {
            seq!['1', ' '] + "minute"@
        } else {
            text::decimal(count) + seq![' '] + "minute"@ + seq!['s']
        }) + " ago"@,
        1 <= count < 24 && count * 3600 <= seconds < (count + 1) * 3600 ==> age_text(seconds) == (if count
            == 1 {
            seq!['1', ' '] + "hour"@
        } else {
            text::decimal(count) + seq![' '] + "hour"@ + seq!['s']
        }) + " ago"@,
        1 <= count < 365 && count * 86_400 <= seconds < (count + 1) * 86_400 ==> age_text(seconds) == (
        if count == 1 {
            seq!['1', ' '] + "day"@
        } else {
            text::decimal(count) + seq![' '] + "day"@ + seq!['s']
        }) + " ago"@,
        1 <= count && count * 31_536_000 <= seconds < (count + 1) * 31_536_000 ==> age_text(seconds)
            == (if count == 1 {
            seq!['1', ' '] + "year"@
        } else {
            text::decimal(count) + seq![' '] + "year"@ + seq!['s']
        }) + " ago"@,
{
    assert(1 <= count && count * 60 <= seconds < (count + 1) * 60 ==> seconds / 60 == count);
    assert(1 <= count && count * 3600 <= seconds < (count + 1) * 3600 ==> seconds / 3600 == count);
    assert(1 <= count && count * 86_400 <= seconds < (count + 1) * 86_400 ==> seconds / 86_400
        == count);
    assert(1 <= count && count * 31_536_000 <= seconds < (count + 1) * 31_536_000 ==> seconds
        / 31_536_000 == count);
}

/// A position is told apart from another by how far it lies after it, or before it, in the
/// largest unit that the distance fills.
pub proof fn distances_are_told_in_the_largest_unit(other: Duration, nanos: nat, count: nat, after: bool)
    requires
        after ==> other.nanos + nanos <= crate::time::MAX_NANOS,
        !after ==> nanos <= other.nanos <= crate::time::MAX_NANOS,
    ensures
        ({
            let subject = Duration {
                nanos: if after { (other.nanos + nanos) as u128 } else { (other.nanos - nanos) as u128 },
            };
            let sign = if after { '+' } else { '-' };
            let told = relative_text(subject, other);
            &&& nanos < 1_000_000_000 ==> told == "Same"@
            &&& 1 <= count < 60 && count * 1_000_000_000 <= nanos < (count + 1) * 1_000_000_000
                ==> told == seq![sign] + plural_text(count, "second"@)
            &&& 1 <= count < 60 && count * 60_000_000_000 <= nanos < (count + 1) * 60_000_000_000
                ==> told == seq![sign] + plural_text(count, "minute"@)
            &&& 1 <= count && count * 3_600_000_000_000 <= nanos < (count + 1) * 3_600_000_000_000
                ==> told == seq![sign] + plural_text(count, "hour"@)
        }),
        plural_text(1, "second"@) == seq!['1', ' '] + "second"@,
        count != 1 ==> plural_text(count, "second"@) == text::decimal(count) + seq![' '] + "second"@
            + seq!['s'],
{
    let seconds = nanos / 1_000_000_000;
    assert(1 <= count && count * 60_000_000_000 <= nanos < (count + 1) * 60_000_000_000 ==> seconds
        / 60 == count);
    assert(1 <= count && count * 3_600_000_000_000 <= nanos < (count + 1) * 3_600_000_000_000
        ==> seconds / 3600 == count);
}

} // verus!
