//! Titles without what gives away the outcome or the length of a series of games.

use crate::text;
use regex::Regex;
use vstd::prelude::*;
use vstd::string::*;

verus! {

/// A game number: `Game` in any case, white space and digits.
pub const GAME_PATTERN: &'static str = "(?i)Game\\s+\\d+";

/// What stands for a game number.
pub const HIDDEN_GAME: &'static str = "Game _";

/// A versus marker in any case, between white space and two other characters.
pub const VERSUS_PATTERN: &'static str = "(?i)[^\\s]\\s+(vs?\\.?)\\s+[^\\s]";

/// `text` with every match of `pattern` replaced.
pub uninterp spec fn replaced(pattern: Seq<char>, text: Seq<char>, replacement: Seq<char>) -> Seq<
    char,
>;

/// Where `text` first matches `pattern`: the positions of the first character and behind the
/// last one, and what the pattern's first group holds.
pub uninterp spec fn first_match_of(pattern: Seq<char>, text: Seq<char>) -> Option<
    (nat, nat, Seq<char>),
>;

/// A versus marker with the characters around it, from `start` up to `end`.
#[derive(Debug, PartialEq, Eq)]
pub struct VersusMatch {
    pub start: usize,
    pub end: usize,
    pub marker: String,
}

/// `Regex::replace_all` replaces every match of a pattern; what comes out depends on the
/// pattern, the text and the replacement alone. `Regex::new` refuses what is no pattern, so
/// only the one in use is admitted.
#[verifier::external_body]
fn replace_all(pattern: &str, text: &str, replacement: &str) -> (out: String)
    requires
        pattern@ == GAME_PATTERN@,
    ensures
        out@ == replaced(pattern@, text@, replacement@),
{
    let pattern = Regex::new(pattern).expect("constant regex");
    pattern.replace_all(text, replacement).into_owned()
}

/// `Regex::captures` finds the leftmost match of a pattern; where it lies depends on the
/// pattern and the text alone. Positions count characters. `Regex::new` refuses what is no
/// pattern, so only the one in use is admitted: a match of it lies within the text and holds
/// at least two white-space characters and two others besides the marker.
#[verifier::external_body]
fn first_match(pattern: &str, text: &str) -> (found: Option<VersusMatch>)
    requires
        pattern@ == VERSUS_PATTERN@,
    ensures
        match found {
            Some(m) => first_match_of(pattern@, text@) == Some(
                (m.start as nat, m.end as nat, m.marker@),
            ) && m.start + m.marker@.len() + 4 <= m.end <= text@.len(),
            None => first_match_of(pattern@, text@) is None,
        },
{
    let pattern = Regex::new(pattern).expect("constant regex");
    let captures = pattern.captures(text)?;
    let whole = captures.get(0).expect("whole regex match");
    let marker = captures.get(1).expect("versus capture");
    Some(VersusMatch {
        start: text[..whole.start()].chars().count(),
        end: text[..whole.end()].chars().count(),
        marker: marker.as_str().to_owned(),
    })
}

/// Where `text` first has a versus marker.
pub open spec fn first_versus(text: Seq<char>) -> Option<(nat, nat, Seq<char>)> {
    first_match_of(VERSUS_PATTERN@, text)
}

/// `title` with what stands for a game number in place of each.
pub open spec fn without_game_numbers(title: Seq<char>) -> Seq<char> {
    replaced(GAME_PATTERN@, title, HIDDEN_GAME@)
}

/// Whether `c` separates a team name from what is beside it.
pub open spec fn is_divider(c: char) -> bool {
    c == '|' || c == '/' || c == '\\' || c == '-'
}

/// Where a team name ends that is read from `index` on: before the third gap between words
/// or before a divider, or else at the end of the title. `last` is the latest character
/// that is no space, and `words` the gaps so far.
pub open spec fn name_end(
    title: Seq<char>,
    index: int,
    forward: bool,
    last: int,
    after_space: bool,
    words: int,
) -> int
    decreases (if forward { title.len() - index } else { index + 1 }),
{
    if index < 0 || index >= title.len() {
        if forward && title.len() > 0 { title.len() - 1 } else { 0 }
    } else {
        let c = title[index];
        let next = if forward { index + 1 } else { index - 1 };
        if c == ' ' && !after_space {
            if words >= 2 { last } else { name_end(title, next, forward, last, true, words + 1) }
        } else if is_divider(c) {
            last
        } else {
            name_end(title, next, forward, if c != ' ' { index } else { last }, c == ' ', words)
        }
    }
}

/// A name never ends on the wrong side of where it is read from, nor outside the title.
proof fn name_end_bounds(
    title: Seq<char>,
    index: int,
    forward: bool,
    last: int,
    after_space: bool,
    words: int,
)
    requires
        0 <= last < title.len(),
        forward ==> last <= index,
        !forward ==> last >= index,
    ensures
        forward ==> last <= name_end(title, index, forward, last, after_space, words) < title.len(),
        !forward ==> 0 <= name_end(title, index, forward, last, after_space, words) <= last,
    decreases (if forward { title.len() - index } else { index + 1 }),
{
    if 0 <= index < title.len() {
        let c = title[index];
        let next = if forward { index + 1 } else { index - 1 };
        if c == ' ' && !after_space {
            if words < 2 {
                name_end_bounds(title, next, forward, last, true, words + 1);
            }
        } else if !is_divider(c) {
            name_end_bounds(
                title,
                next,
                forward,
                if c != ' ' { index } else { last },
                c == ' ',
                words,
            );
        }
    }
}

/// Where the team name ends that holds the character at `start`.
pub fn team_name_boundary(title: &Vec<char>, start: usize, forward: bool) -> (boundary: usize)
    requires
        start < title.len(),
    ensures
        boundary == name_end(title@, start as int, forward, start as int, false, 0),
        forward ==> start <= boundary < title@.len(),
        !forward ==> boundary <= start,
{
    let mut index: usize = start;
    let mut last: usize = start;
    let mut after_space: bool = false;
    let mut words: usize = 0;
    proof {
        name_end_bounds(title@, start as int, forward, start as int, false, 0);
    }
    let ghost whole = name_end(title@, start as int, forward, start as int, false, 0);
    loop
        invariant
            index < title.len(),
            last < title.len(),
            words <= 2,
            whole == name_end(title@, index as int, forward, last as int, after_space, words as int),
            whole == name_end(title@, start as int, forward, start as int, false, 0),
            forward ==> start <= whole < title@.len(),
            !forward ==> 0 <= whole <= start,
        decreases (if forward { title.len() - index } else { index + 1 }),
    {
        proof {
            reveal_with_fuel(name_end, 2);
        }
        let c: char = title[index];
        if c == ' ' && !after_space {
            if words >= 2 {
                return last;
            }
            words += 1;
        } else if c == '|' || c == '/' || c == '\\' || c == '-' {
            return last;
        }
        if c != ' ' {
            last = index;
        }
        after_space = c == ' ';
        if forward {
            if index + 1 >= title.len() {
                return title.len() - 1;
            }
            index += 1;
        } else {
            if index == 0 {
                return 0;
            }
            index -= 1;
        }
    }
}

/// What stands for two team names around a marker.
pub open spec fn hidden_names(marker: Seq<char>) -> Seq<char> {
    seq!['_', ' '] + marker + seq![' ', '_']
}

/// `title` with the team names around a match hidden, and the position behind what stands
/// for them. `start` and `end` are positions in the title.
pub open spec fn names_hidden(title: Seq<char>, start: int, end: int, marker: Seq<char>) -> (Seq<char>, int) {
    let a = name_end(title, start, false, start, false, 0);
    let b = name_end(title, end - 1, true, end - 1, false, 0);
    (
        title.take(a) + hidden_names(marker) + title.skip(b + 1),
        a + hidden_names(marker).len(),
    )
}

/// `title` with the team names around every versus marker hidden that is found from `from`
/// on.
pub open spec fn all_names_hidden(title: Seq<char>, from: nat) -> Seq<char>
    decreases title.len() - from,
    via all_names_hidden_ends
{
    if from > title.len() {
        title
    } else {
        match first_versus(title.skip(from as int)) {
            Some((start, end, marker)) => if start < end && from + end <= title.len() {
                let (hidden, next) = names_hidden(
                    title,
                    from as int + start,
                    from as int + end,
                    marker,
                );
                all_names_hidden(hidden, next as nat)
            } else {
                title
            },
            None => title,
        }
    }
}

#[via_fn]
proof fn all_names_hidden_ends(title: Seq<char>, from: nat) {
    if from <= title.len() {
        match first_versus(title.skip(from as int)) {
            Some((start, end, marker)) => {
                if start < end && from + end <= title.len() {
                    name_end_bounds(title, from as int + start, false, from as int + start, false, 0);
                    name_end_bounds(title, from as int + end - 1, true, from as int + end - 1, false, 0);
                }
            },
            None => {},
        }
    }
}

/// Hides the team names around a match.
pub fn hide_names(title: &Vec<char>, start: usize, end: usize, marker: &str) -> (hidden: (Vec<char>, usize))
    requires
        start + marker@.len() + 4 <= end <= title.len(),
    ensures
        hidden.0@ == names_hidden(title@, start as int, end as int, marker@).0,
        hidden.1 == names_hidden(title@, start as int, end as int, marker@).1,
        hidden.1 <= hidden.0@.len(),
{
    let a = team_name_boundary(title, start, false);
    let b = team_name_boundary(title, end - 1, true);
    let marker_chars = text::chars_of(marker);
    let mut hidden: Vec<char> = Vec::new();
    let mut i: usize = 0;
    while i < a
        invariant
            i <= a < title.len(),
            hidden@ =~= title@.take(i as int),
        decreases a - i,
    {
        hidden.push(title[i]);
        i += 1;
    }
    hidden.push('_');
    hidden.push(' ');
    let mut i: usize = 0;
    while i < marker_chars.len()
        invariant
            i <= marker_chars.len(),
            a < title.len(),
            hidden@ =~= title@.take(a as int) + seq!['_', ' '] + marker_chars@.take(i as int),
        decreases marker_chars.len() - i,
    {
        hidden.push(marker_chars[i]);
        i += 1;
    }
    hidden.push(' ');
    hidden.push('_');
    assert(marker_chars@.take(marker_chars@.len() as int) =~= marker@);
    assert(hidden@ =~= title@.take(a as int) + hidden_names(marker@));
    let next: usize = a + marker_chars.len() + 4;
    let mut i: usize = b + 1;
    while i < title.len()
        invariant
            b < title.len(),
            a < title.len(),
            b + 1 <= i <= title.len(),
            hidden@ =~= title@.take(a as int) + hidden_names(marker@) + title@.subrange(
                b + 1,
                i as int,
            ),
        decreases title.len() - i,
    {
        hidden.push(title[i]);
        i += 1;
    }
    assert(title@.subrange(b + 1, title@.len() as int) =~= title@.skip(b + 1));
    (hidden, next)
}

/// Hides what a title gives away.
pub fn sanitise_title(title: &str) -> (sanitised: String)
    ensures
        sanitised@ == all_names_hidden(without_game_numbers(title@), 0),
{
    let hidden_games = replace_all(GAME_PATTERN, title, HIDDEN_GAME);
    let mut title = text::chars_of(hidden_games.as_str());
    let mut from: usize = 0;
    let ghost whole = all_names_hidden(title@, 0);
    loop
        invariant
            from <= title.len(),
            whole == all_names_hidden(title@, from as nat),
        ensures
            whole == title@,
        decreases title.len() - from,
    {
        let tail = text::string_between(&title, from, title.len());
        assert(title@.subrange(from as int, title@.len() as int) =~= title@.skip(from as int));
        match first_match(VERSUS_PATTERN, tail.as_str()) {
            Some(m) => {
                proof {
                    name_end_bounds(title@, from + m.start, false, from + m.start, false, 0);
                    name_end_bounds(title@, from + m.end - 1, true, from + m.end - 1, false, 0);
                }
                let (hidden, next) = hide_names(
                    &title,
                    from + m.start,
                    from + m.end,
                    m.marker.as_str(),
                );
                title = hidden;
                from = next;
            },
            None => {
                break;
            },
        }
    }
    text::string_of(&title)
}

/// Hiding team names never makes a title longer, and leaves less of it to search.
pub proof fn hiding_never_lengthens(title: Seq<char>, start: int, end: int, marker: Seq<char>)
    requires
        0 <= start,
        start + marker.len() + 4 <= end <= title.len(),
    ensures
        names_hidden(title, start, end, marker).0.len() <= title.len(),
        names_hidden(title, start, end, marker).0.len() - names_hidden(title, start, end, marker).1
            <= title.len() - end,
{
    name_end_bounds(title, start, false, start, false, 0);
    name_end_bounds(title, end - 1, true, end - 1, false, 0);
}

/// How many gaps between words begin behind `start` and before `end`: spaces that follow no
/// space.
pub open spec fn gaps(title: Seq<char>, start: int, end: int) -> nat
    decreases end - start,
{
    if end <= start + 1 {
        0
    } else {
        gaps(title, start, end - 1) + (if title[end - 1] == ' ' && title[end - 2] != ' ' {
            1nat
        } else {
            0
        })
    }
}

/// Whether a team name that begins at `start` comes to an end before `stop`: up to there it has
/// no divider and at most three words, and there is a divider, a fourth word or the end of the
/// title.
pub open spec fn name_stops(title: Seq<char>, start: int, stop: int) -> bool {
    &&& 0 <= start < stop <= title.len()
    &&& title[start] != ' '
    &&& forall|i: int|
        start <= i < stop ==> #[trigger] title[i] != '|' && title[i] != '/' && title[i] != '\\'
            && title[i] != '-'
    &&& gaps(title, start, stop) <= 2
    &&& {
        ||| stop == title.len()
        ||| title[stop] == '|' || title[stop] == '/' || title[stop] == '\\' || title[stop] == '-'
        ||| title[stop] == ' ' && title[stop - 1] != ' ' && gaps(title, start, stop) == 2
    }
}

/// Whether `boundary` is the last character of a name of which the text goes from `start` up to
/// `stop`: the last one that is no space, or the last one of the title.
pub open spec fn ends_name(title: Seq<char>, start: int, stop: int, boundary: int) -> bool {
    &&& start <= boundary < stop
    &&& stop == title.len() ==> boundary == title.len() - 1
    &&& stop < title.len() ==> title[boundary] != ' '
    &&& stop < title.len() ==> forall|i: int|
        boundary < i < stop ==> #[trigger] title[i] == ' '
}

proof fn name_goes_on(title: Seq<char>, start: int, stop: int, index: int, last: int)
    requires
        name_stops(title, start, stop),
        start < index <= stop,
        start <= last < index,
        title[last] != ' ',
        forall|i: int| last < i < index ==> #[trigger] title[i] == ' ',
    ensures
        ends_name(
            title,
            start,
            stop,
            name_end(
                title,
                index,
                true,
                last,
                title[index - 1] == ' ',
                gaps(title, start, index) as int,
            ),
        ),
    decreases stop - index,
{
    gaps_only_grow(title, start, index, stop);
    if index < stop {
        let c = title[index];
        assert(!is_divider(c));
        if c == ' ' && title[index - 1] != ' ' {
            gaps_only_grow(title, start, index + 1, stop);
        }
        name_goes_on(title, start, stop, index + 1, if c != ' ' { index } else { last });
    }
}

proof fn gaps_only_grow(title: Seq<char>, start: int, a: int, b: int)
    requires
        start < a <= b,
    ensures
        gaps(title, start, a) <= gaps(title, start, b),
    decreases b - a,
{
    if a < b {
        gaps_only_grow(title, start, a, b - 1);
    }
}

/// A team name behind a marker is hidden whole: up to three words, as far as no divider comes
/// before, and to the end of the title where neither stops it.
pub proof fn names_behind_are_hidden_whole(title: Seq<char>, start: int, stop: int)
    requires
        name_stops(title, start, stop),
    ensures
        ends_name(title, start, stop, name_end(title, start, true, start, false, 0)),
{
    assert(!is_divider(title[start]));
    name_goes_on(title, start, stop, start + 1, start);
}

/// Names before a marker are hidden as those behind it: in the mirror image of a title, the
/// name ends at the mirror image of its end.
pub proof fn names_are_mirrored(
    title: Seq<char>,
    index: int,
    forward: bool,
    last: int,
    after_space: bool,
    words: int,
)
    requires
        -1 <= index <= title.len(),
        0 <= last < title.len(),
    ensures
        name_end(
            title.reverse(),
            title.len() - 1 - index,
            !forward,
            title.len() - 1 - last,
            after_space,
            words,
        ) == title.len() - 1 - name_end(title, index, forward, last, after_space, words),
    decreases (if forward { title.len() - index } else { index + 1 }),
{
    if 0 <= index < title.len() {
        let c = title[index];
        assert(title.reverse()[title.len() - 1 - index] == c);
        let next = if forward { index + 1 } else { index - 1 };
        if c == ' ' && !after_space {
            names_are_mirrored(title, next, forward, last, true, words + 1);
        } else {
            names_are_mirrored(
                title,
                next,
                forward,
                if c != ' ' { index } else { last },
                c == ' ',
                words,
            );
        }
    }
}

/// A team name before a marker is hidden whole, as the mirror image of one behind it.
pub proof fn names_before_are_hidden_whole(title: Seq<char>, start: int, stop: int)
    requires
        0 <= start < title.len(),
        name_stops(title.reverse(), title.len() - 1 - start, stop),
    ensures
        ends_name(
            title.reverse(),
            title.len() - 1 - start,
            stop,
            title.len() - 1 - name_end(title, start, false, start, false, 0),
        ),
{
    names_behind_are_hidden_whole(title.reverse(), title.len() - 1 - start, stop);
    names_are_mirrored(title, start, false, start, false, 0);
}

/// What stands around a marker is taken out on both sides up to the ends of the two names, and
/// the marker between two signs stands for it; the rest of the title stays as it is.
pub proof fn only_the_names_are_taken_out(title: Seq<char>, start: int, end: int, marker: Seq<char>)
    requires
        0 <= start,
        start + marker.len() + 4 <= end <= title.len(),
    ensures
        ({
            let a = name_end(title, start, false, start, false, 0);
            let b = name_end(title, end - 1, true, end - 1, false, 0);
            let (hidden, next) = names_hidden(title, start, end, marker);
            &&& 0 <= a <= start && end - 1 <= b < title.len()
            &&& hidden.len() == a + marker.len() + 4 + (title.len() - b - 1)
            &&& forall|i: int| 0 <= i < a ==> #[trigger] hidden[i] == title[i]
            &&& hidden[a] == '_' && hidden[a + 1] == ' '
            &&& hidden.subrange(a + 2, a + 2 + marker.len()) == marker
            &&& hidden[a + marker.len() + 2] == ' ' && hidden[a + marker.len() + 3] == '_'
            &&& next == a + marker.len() + 4
            &&& hidden.skip(next) == title.skip(b + 1)
        }),
{
    name_end_bounds(title, start, false, start, false, 0);
    name_end_bounds(title, end - 1, true, end - 1, false, 0);
    let a = name_end(title, start, false, start, false, 0);
    let b = name_end(title, end - 1, true, end - 1, false, 0);
    let (hidden, next) = names_hidden(title, start, end, marker);
    assert(hidden.subrange(a + 2, a + 2 + marker.len()) =~= marker);
    assert(hidden.skip(next) =~= title.skip(b + 1));
}

/// A divider is no part of a name: one that is read from there has nothing else.
pub proof fn dividers_end_names(title: Seq<char>, start: int, forward: bool)
    requires
        0 <= start < title.len(),
        title[start] == '|' || title[start] == '/' || title[start] == '\\' || title[start] == '-',
    ensures
        name_end(title, start, forward, start, false, 0) == start,
{
}

/// Pairs of names are hidden one after the other until there is none left: what was hidden is
/// not looked at again, and all behind it is. A title without a pair stays as it is.
pub proof fn pairs_are_hidden_until_none_is_left(
    title: Seq<char>,
    from: nat,
    start: nat,
    end: nat,
    marker: Seq<char>,
)
    requires
        from <= title.len(),
    ensures
        first_match_of("(?i)[^\\s]\\s+(vs?\\.?)\\s+[^\\s]"@, title.skip(from as int)) is None
            ==> all_names_hidden(title, from) == title,
        first_match_of("(?i)[^\\s]\\s+(vs?\\.?)\\s+[^\\s]"@, title.skip(from as int)) == Some(
            (start, end, marker),
        ) && start < end && from + end <= title.len() ==> {
            let (hidden, next) = names_hidden(
                title,
                from as int + start,
                from as int + end,
                marker,
            );
            all_names_hidden(title, from) == all_names_hidden(hidden, next as nat)
        },
{
}

} // verus!
