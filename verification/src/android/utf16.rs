//! Places in a text, counted in characters and in the units of UTF-16 that Android counts in.

use crate::text;
use vstd::prelude::*;

verus! {

/// The units of UTF-16 that a character takes.
pub open spec fn units_of(c: char) -> nat {
    if c as u32 >= 0x1_0000 { 2 } else { 1 }
}

/// The units of UTF-16 that a text takes.
pub open spec fn units(s: Seq<char>) -> nat
    decreases s.len(),
{
    if s.len() == 0 { 0 } else { units(s.drop_last()) + units_of(s.last()) }
}

/// A place in units, as far as it can be told.
pub open spec fn place(n: nat) -> usize {
    if n > usize::MAX { usize::MAX } else { n as usize }
}

/// The place in units of a place in characters; the end of the text for places behind it.
pub open spec fn utf16_place(s: Seq<char>, index: usize) -> usize {
    place(units(if index < s.len() { s.take(index as int) } else { s }))
}

/// The first place in characters, from `from` on, before which there are at least `target`
/// units; the end of the text where there are not so many.
pub open spec fn char_place(s: Seq<char>, target: usize, from: int) -> int
    decreases s.len() - from,
{
    if from >= s.len() || units(s.take(from)) >= target {
        from
    } else {
        char_place(s, target, from + 1)
    }
}

fn unit_count(c: char) -> (count: u128)
    ensures
        count == units_of(c),
{
    if c as u32 >= 0x1_0000 { 2 } else { 1 }
}

proof fn units_of_more(s: Seq<char>, i: int)
    requires
        0 <= i < s.len(),
    ensures
        units(s.take(i + 1)) == units(s.take(i)) + units_of(s[i]),
{
    assert(s.take(i + 1).drop_last() =~= s.take(i));
}

/// Counts a place in units that is given in characters.
pub fn char_index_to_utf16(text: &str, char_index: usize) -> (utf16_index: usize)
    ensures
        utf16_index == utf16_place(text@, char_index),
{
    let chars = text::chars_of(text);
    let mut count: u128 = 0;
    let mut i: usize = 0;
    assert(chars@.take(0) =~= Seq::<char>::empty());
    while i < chars.len() && i < char_index
        invariant
            i <= chars.len(),
            i <= char_index,
            chars@ == text@,
            count == units(chars@.take(i as int)),
            count <= 2 * i,
            i <= usize::MAX,
        decreases chars.len() - i,
    {
        proof {
            units_of_more(chars@, i as int);
        }
        count = count + unit_count(chars[i]);
        i += 1;
    }
    assert(chars@.take(chars@.len() as int) =~= chars@);
    if count > usize::MAX as u128 { usize::MAX } else { count as usize }
}

/// Counts a place in characters that is given in units.
pub fn utf16_index_to_char(text: &str, utf16_index: usize) -> (char_index: usize)
    ensures
        char_index == char_place(text@, utf16_index, 0),
{
    let chars = text::chars_of(text);
    let mut count: u128 = 0;
    let mut i: usize = 0;
    assert(chars@.take(0) =~= Seq::<char>::empty());
    while i < chars.len()
        invariant
            i <= chars.len(),
            chars@ == text@,
            count == units(chars@.take(i as int)),
            count <= 2 * i,
            i <= usize::MAX,
            char_place(text@, utf16_index, 0) == char_place(text@, utf16_index, i as int),
        decreases chars.len() - i,
    {
        if count >= utf16_index as u128 {
            return i;
        }
        proof {
            units_of_more(chars@, i as int);
        }
        count = count + unit_count(chars[i]);
        i += 1;
    }
    i
}

proof fn units_grow(s: Seq<char>, i: int, j: int)
    requires
        0 <= i <= j <= s.len(),
    ensures
        units(s.take(i)) + (j - i) <= units(s.take(j)),
    decreases j - i,
{
    if i < j {
        units_grow(s, i, j - 1);
        units_of_more(s, j - 1);
    }
}

proof fn earlier_places_are_passed(s: Seq<char>, index: int, from: int, target: usize)
    requires
        0 <= from <= index <= s.len(),
        target == units(s.take(index)),
    ensures
        char_place(s, target, from) == index,
    decreases index - from,
{
    if from < index {
        units_grow(s, from, index);
        earlier_places_are_passed(s, index, from + 1, target);
    }
}

/// A place in characters comes back from units as it was.
pub proof fn places_round_trip(s: Seq<char>, index: usize)
    requires
        index <= s.len(),
        units(s) <= usize::MAX,
    ensures
        char_place(s, utf16_place(s, index), 0) == index,
{
    assert(s.take(s.len() as int) =~= s);
    units_grow(s, index as int, s.len() as int);
    earlier_places_are_passed(s, index as int, 0, utf16_place(s, index));
}

/// The place of units is never beyond the end of the text.
pub proof fn places_are_in_the_text(s: Seq<char>, target: usize, from: int)
    requires
        0 <= from <= s.len(),
    ensures
        from <= char_place(s, target, from) <= s.len(),
    decreases s.len() - from,
{
    if from < s.len() && units(s.take(from)) < target {
        places_are_in_the_text(s, target, from + 1);
    }
}

/// Characters beyond the first 65536 take two units, all others one, and a place in a text is
/// the units of what comes before it.
pub proof fn characters_take_one_unit_or_two(s: Seq<char>, c: char, index: usize)
    ensures
        units(Seq::<char>::empty()) == 0,
        (c as u32) < 65_536 ==> units(s.push(c)) == units(s) + 1,
        (c as u32) >= 65_536 ==> units(s.push(c)) == units(s) + 2,
        index < s.len() && units(s.take(index as int)) <= usize::MAX ==> utf16_place(s, index)
            == units(s.take(index as int)),
        index >= s.len() && units(s) <= usize::MAX ==> utf16_place(s, index) == units(s),
{
    assert(s.push(c).drop_last() =~= s);
}

} // verus!
