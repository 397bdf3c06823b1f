//! HLS variants as qualities to choose from.

use crate::model::Quality;
use crate::playback::decode_mode::DecodeMode;
use crate::text;
use vstd::arithmetic::div_mod::*;
use vstd::arithmetic::power2::*;
use vstd::bits::*;
use vstd::prelude::*;
use vstd::string::*;

verus! {

/// A variant of a master playlist. The frame rate stands as the bits of a double.
#[derive(Debug, PartialEq, Eq)]
pub struct HlsVariant {
    pub url: String,
    pub name: Option<String>,
    pub video_group: Option<String>,
    pub codecs: Option<String>,
    pub width: Option<u64>,
    pub height: Option<u64>,
    pub frame_rate: Option<u64>,
    pub bandwidth: u64,
}

/// The qualities of a source, their playlists, and the one to start with.
#[derive(Debug, PartialEq, Eq)]
pub struct HlsQualitySet {
    pub qualities: Vec<Quality>,
    pub urls: Vec<String>,
    pub preferred_index: usize,
}

/// The text with semicolons as commas.
pub open spec fn with_commas(s: Seq<char>) -> Seq<char> {
    Seq::new(s.len(), |i: int| if s[i] == ';' { ',' } else { s[i] })
}

/// The first quality whose identifier or label is `wanted`, from `from` on.
pub open spec fn quality_named(qualities: Seq<Quality>, wanted: Seq<char>, from: int) -> Option<int>
    decreases qualities.len() - from,
{
    if from < 0 || from >= qualities.len() {
        None
    } else if qualities[from].id@ == wanted || qualities[from].label@ == wanted {
        Some(from)
    } else {
        quality_named(qualities, wanted, from + 1)
    }
}

/// The quality of the first entry, from `from` on, that names one.
pub open spec fn first_wanted(qualities: Seq<Quality>, entries: Seq<Seq<char>>, from: int) -> Option<int>
    decreases entries.len() - from,
{
    if from < 0 || from >= entries.len() {
        None
    } else {
        let wanted = text::trimmed(entries[from]);
        match quality_named(qualities, wanted, 0) {
            Some(index) if wanted.len() > 0 => Some(index),
            _ => first_wanted(qualities, entries, from + 1),
        }
    }
}

/// The quality that a list of favourites, separated by commas or semicolons, asks for.
pub open spec fn favourite(qualities: Seq<Quality>, favourites: Seq<char>) -> Option<int> {
    first_wanted(qualities, text::split_on(with_commas(favourites), ','), 0)
}

fn find_quality(qualities: &Vec<Quality>, wanted: &String) -> (index: Option<usize>)
    ensures
        match index {
            Some(index) => quality_named(qualities@, wanted@, 0) == Some(index as int) && index
                < qualities@.len(),
            None => quality_named(qualities@, wanted@, 0) is None,
        },
{
    let mut i: usize = 0;
    while i < qualities.len()
        invariant
            i <= qualities.len(),
            quality_named(qualities@, wanted@, 0) == quality_named(qualities@, wanted@, i as int),
        decreases qualities.len() - i,
    {
        if qualities[i].id == *wanted || qualities[i].label == *wanted {
            return Some(i);
        }
        i += 1;
    }
    None
}

/// The quality that a list of favourites asks for, if any is there.
pub fn favourite_quality(qualities: &Vec<Quality>, favourites: &str) -> (index: Option<usize>)
    ensures
        match index {
            Some(index) => favourite(qualities@, favourites@) == Some(index as int) && index
                < qualities@.len(),
            None => favourite(qualities@, favourites@) is None,
        },
{
    let chars = text::chars_of(favourites);
    let mut list: Vec<char> = Vec::new();
    let mut i: usize = 0;
    while i < chars.len()
        invariant
            i <= chars.len(),
            list@ =~= with_commas(chars@).take(i as int),
        decreases chars.len() - i,
    {
        list.push(if chars[i] == ';' { ',' } else { chars[i] });
        i += 1;
    }
    assert(list@ =~= with_commas(favourites@));
    let entries = text::split(&list, ',');
    let ghost views = text::parts_view(entries@);
    let mut i: usize = 0;
    while i < entries.len()
        invariant
            i <= entries.len(),
            views == text::parts_view(entries@),
            views == text::split_on(with_commas(favourites@), ','),
            first_wanted(qualities@, views, 0) == first_wanted(qualities@, views, i as int),
        decreases entries.len() - i,
    {
        assert(views[i as int] == entries@[i as int]@);
        let wanted = text::trim(&entries[i]);
        if wanted.len() > 0 {
            match find_quality(qualities, &text::string_of(&wanted)) {
                Some(index) => {
                    return Some(index);
                },
                None => {},
            }
        }
        i += 1;
    }
    None
}

/// The quality to start with: the first favourite that is there, or else the fallback.
pub fn select_initial_quality_index(
    qualities: &Vec<Quality>,
    fallback_index: usize,
    initial_qualities: &str,
) -> (index: usize)
    ensures
        index == (match favourite(qualities@, initial_qualities@) {
            Some(index) => index,
            None => fallback_index as int,
        }),
        fallback_index < qualities@.len() ==> index < qualities@.len(),
{
    match favourite_quality(qualities, initial_qualities) {
        Some(index) => index,
        None => fallback_index,
    }
}

/// Whether a codec is one that can be decoded: H.264 in either of its sample entries.
pub open spec fn is_supported_codec(codec: Seq<char>) -> bool {
    let family = text::split_on(text::trimmed(codec), '.')[0];
    family == "avc1"@ || family == "avc3"@
}

/// Whether one of a list of codecs can be decoded.
pub open spec fn has_supported_codec(codecs: Seq<Seq<char>>, from: int) -> bool
    decreases codecs.len() - from,
{
    if from < 0 || from >= codecs.len() {
        false
    } else {
        is_supported_codec(codecs[from]) || has_supported_codec(codecs, from + 1)
    }
}

/// Whether a variant can be decoded; one that does not name its codecs counts as such.
pub open spec fn variant_supported(variant: HlsVariant) -> bool {
    match variant.codecs {
        Some(codecs) => has_supported_codec(text::split_on(codecs@, ','), 0),
        None => true,
    }
}

fn codec_is_supported(codec: &Vec<char>) -> (supported: bool)
    ensures
        supported == is_supported_codec(codec@),
{
    let trimmed = text::trim(codec);
    let parts = text::split(&trimmed, '.');
    proof {
        text::split_on_has_a_part(trimmed@, '.');
        assert(text::parts_view(parts@)[0] == parts@[0]@);
    }
    let family = text::string_of(&parts[0]);
    text::same(family.as_str(), "avc1") || text::same(family.as_str(), "avc3")
}

pub fn variant_uses_supported_video_codec(variant: &HlsVariant) -> (supported: bool)
    ensures
        supported == variant_supported(*variant),
{
    match &variant.codecs {
        None => true,
        Some(codecs) => {
            let parts = text::split(&text::chars_of(codecs.as_str()), ',');
            let ghost views = text::parts_view(parts@);
            let mut i: usize = 0;
            while i < parts.len()
                invariant
                    i <= parts.len(),
                    views == text::parts_view(parts@),
                    variant.codecs is Some,
                    views == text::split_on(variant.codecs.unwrap()@, ','),
                    has_supported_codec(views, 0) == has_supported_codec(views, i as int),
                decreases parts.len() - i,
            {
                assert(views[i as int] == parts@[i as int]@);
                if codec_is_supported(&parts[i]) {
                    return true;
                }
                i += 1;
            }
            false
        },
    }
}

/// Whether the bits of a double are those of a finite number above zero.
pub open spec fn is_positive_double(bits: u64) -> bool {
    0 < bits < 0x7ff0_0000_0000_0000
}

/// The whole number that a positive double is a multiple of a power of two of.
pub open spec fn double_digits(bits: u64) -> nat {
    if bits < 0x10_0000_0000_0000 {
        bits as nat
    } else {
        (bits % 0x10_0000_0000_0000 + 0x10_0000_0000_0000) as nat
    }
}

/// The exponent of that power of two.
pub open spec fn double_exponent(bits: u64) -> int {
    if bits < 0x10_0000_0000_0000 { -1074 } else { bits / 0x10_0000_0000_0000 - 1075 }
}

/// A positive double to the nearest whole number; halves are rounded up.
pub open spec fn double_rounded(bits: u64) -> nat {
    let digits = double_digits(bits);
    let exponent = double_exponent(bits);
    if exponent >= 0 {
        digits * pow2(exponent as nat)
    } else {
        (digits + pow2((-exponent - 1) as nat)) / pow2((-exponent) as nat)
    }
}

/// Frames per second to the nearest whole number, as far as it fits.
pub open spec fn whole_frames(bits: u64) -> nat {
    if double_rounded(bits) > u32::MAX { u32::MAX as nat } else { double_rounded(bits) }
}

fn round_frames(bits: u64) -> (frames: u64)
    requires
        is_positive_double(bits),
    ensures
        frames == whole_frames(bits),
{
    if bits >= 0x4330_0000_0000_0000 {
        proof {
            let digits = double_digits(bits);
            let power = pow2(double_exponent(bits) as nat);
            lemma_pow2_pos(double_exponent(bits) as nat);
            assert(digits * power >= digits) by (nonlinear_arith)
                requires
                    power >= 1,
            ;
        }
        return 0xffff_ffff;
    }
    let shift: u64 = if bits < 0x10_0000_0000_0000 { 1074 } else { 1075 - bits / 0x10_0000_0000_0000 };
    let digits: u64 = if bits < 0x10_0000_0000_0000 {
        bits
    } else {
        bits % 0x10_0000_0000_0000 + 0x10_0000_0000_0000
    };
    assert(digits == double_digits(bits) && shift == -double_exponent(bits));
    proof {
        lemma2_to64();
        lemma2_to64_rest();
        lemma_pow2_unfold(shift as nat);
    }
    if shift > 53 {
        proof {
            let half = pow2((shift - 1) as nat) as int;
            if shift > 54 {
                lemma_pow2_strictly_increases(53, (shift - 1) as nat);
            }
            assert(pow2(53) == 0x20_0000_0000_0000);
            lemma_basic_div(digits + half, pow2(shift as nat) as int);
        }
        return 0;
    }
    proof {
        lemma_u64_pow2_no_overflow(shift as nat);
        lemma_u64_shl_is_mul(1, shift);
        if shift < 53 {
            lemma_pow2_strictly_increases(shift as nat, 53);
        }
    }
    let whole: u64 = 1u64 << shift;
    let half: u64 = whole / 2;
    let frames: u64 = (digits + half) / whole;
    if frames > 0xffff_ffff { 0xffff_ffff } else { frames }
}

/// What a variant is called: its name, or else its height with its frame rate, or its
/// bandwidth.
pub open spec fn variant_name(variant: HlsVariant) -> Seq<char> {
    let named = match variant.name {
        Some(name) => text::trimmed(name@),
        None => Seq::empty(),
    };
    if named.len() > 0 {
        named
    } else {
        match (variant.height, variant.frame_rate) {
            (Some(height), Some(rate)) if is_positive_double(rate) => text::decimal(height as nat) + seq!['p']
                + text::decimal(whole_frames(rate)),
            (Some(height), _) => text::decimal(height as nat) + seq!['p'],
            _ => text::decimal((variant.bandwidth / 1000) as nat) + " kbps"@,
        }
    }
}

fn variant_rate_name(variant: &HlsVariant) -> (name: String)
    requires
        match variant.name {
            Some(name) => text::trimmed(name@).len() == 0,
            None => true,
        },
    ensures
        name@ == variant_name(*variant),
{
    let mut name = String::new();
    match (variant.height, variant.frame_rate) {
        (Some(height), frame_rate) => {
            text::push_decimal(&mut name, height);
            name.push('p');
            match frame_rate {
                Some(rate) => {
                    if rate > 0 && rate < 0x7ff0_0000_0000_0000 {
                        text::push_decimal(&mut name, round_frames(rate));
                    }
                },
                None => {},
            }
        },
        (None, _) => {
            text::push_decimal(&mut name, variant.bandwidth / 1000);
            name.append(" kbps");
        },
    }
    assert(name@ =~= variant_name(*variant));
    name
}

pub fn variant_quality_name(variant: &HlsVariant) -> (name: String)
    ensures
        name@ == variant_name(*variant),
{
    match &variant.name {
        Some(name) => {
            let trimmed = text::trim(&text::chars_of(name.as_str()));
            if trimmed.len() > 0 {
                return text::string_of(&trimmed);
            }
        },
        None => {},
    }
    variant_rate_name(variant)
}

/// Whether a variant has a picture that can be decoded.
pub open spec fn is_playable(variant: HlsVariant) -> bool {
    &&& variant.width is Some && variant.width.unwrap() > 0
    &&& variant.height is Some && variant.height.unwrap() > 0
    &&& variant_supported(variant)
}

fn playable(variant: &HlsVariant) -> (playable: bool)
    ensures
        playable == is_playable(*variant),
{
    let wide: bool = match variant.width {
        Some(width) => width > 0,
        None => false,
    };
    let high: bool = match variant.height {
        Some(height) => height > 0,
        None => false,
    };
    wide && high && variant_uses_supported_video_codec(variant)
}

/// The positions of the playable variants, in order.
pub open spec fn playable_positions(variants: Seq<HlsVariant>) -> Seq<int>
    decreases variants.len(),
{
    if variants.len() == 0 {
        Seq::empty()
    } else {
        let before = playable_positions(variants.drop_last());
        if is_playable(variants.last()) { before.push(variants.len() - 1) } else { before }
    }
}

/// The first of the variants at `positions` with the playlist `url`.
pub open spec fn position_of_url(variants: Seq<HlsVariant>, positions: Seq<int>, url: Seq<char>, from: int) -> Option<int>
    decreases positions.len() - from,
{
    if from < 0 || from >= positions.len() {
        None
    } else if variants[positions[from]].url@ == url {
        Some(from)
    } else {
        position_of_url(variants, positions, url, from + 1)
    }
}

/// Whether a variant is no higher than the limit.
pub open spec fn fits_height(variant: HlsVariant, limit: Option<u64>) -> bool {
    limit is None || variant.height.unwrap() <= limit.unwrap()
}

/// Whether `a` is at least as good as `b`: higher, or as high with no less bandwidth.
pub open spec fn at_least_as_good(a: HlsVariant, b: HlsVariant) -> bool {
    a.height.unwrap() > b.height.unwrap() || (a.height == b.height && a.bandwidth >= b.bandwidth)
}

/// The last of the best variants among the first `n` at `positions` that fit the limit.
pub open spec fn best_fitting(variants: Seq<HlsVariant>, positions: Seq<int>, limit: Option<u64>, n: nat) -> Option<int>
    decreases n,
{
    if n == 0 || n > positions.len() {
        None
    } else {
        let before = best_fitting(variants, positions, limit, (n - 1) as nat);
        let v = variants[positions[n - 1]];
        if fits_height(v, limit) && (before is None || at_least_as_good(
            v,
            variants[positions[before.unwrap()]],
        )) {
            Some(n - 1)
        } else {
            before
        }
    }
}

/// The first of the variants with the least bandwidth among the first `n` at `positions`.
pub open spec fn cheapest(variants: Seq<HlsVariant>, positions: Seq<int>, n: nat) -> Option<int>
    decreases n,
{
    if n == 0 || n > positions.len() {
        None
    } else {
        let before = cheapest(variants, positions, (n - 1) as nat);
        if before is None || variants[positions[n - 1]].bandwidth < variants[positions[before.unwrap()]].bandwidth {
            Some(n - 1)
        } else {
            before
        }
    }
}

/// The quality to start with: the one that the playlist prefers, or else the best that is
/// no higher, or else the cheapest.
pub open spec fn preferred_position(variants: Seq<HlsVariant>, preferred: int) -> int {
    let positions = playable_positions(variants);
    match position_of_url(variants, positions, variants[preferred].url@, 0) {
        Some(index) => index,
        None => match best_fitting(variants, positions, variants[preferred].height, positions.len()) {
            Some(index) => index,
            None => match cheapest(variants, positions, positions.len()) {
                Some(index) => index,
                None => 0,
            },
        },
    }
}

/// What the label of a variant is: its name, marked if it is the source itself.
pub open spec fn variant_label(variant: HlsVariant) -> Seq<char> {
    if variant.video_group is Some && variant.video_group.unwrap()@ == "chunked"@ {
        variant_name(variant) + " (Source)"@
    } else {
        variant_name(variant)
    }
}

/// The identifiers of the first `n` qualities: the variant's name, or its playlist where
/// that name is taken.
pub open spec fn quality_ids(variants: Seq<HlsVariant>, positions: Seq<int>, n: nat) -> Seq<Seq<char>>
    decreases n,
{
    if n == 0 || n > positions.len() {
        Seq::empty()
    } else {
        let before = quality_ids(variants, positions, (n - 1) as nat);
        let v = variants[positions[n - 1]];
        before.push(if before.contains(variant_name(v)) { v.url@ } else { variant_name(v) })
    }
}

/// Whether the qualities are those of the playable variants, in order.
pub open spec fn set_matches(set: HlsQualitySet, variants: Seq<HlsVariant>) -> bool {
    let positions = playable_positions(variants);
    &&& set.qualities@.len() == positions.len()
    &&& set.urls@.len() == positions.len()
    &&& forall|i: int|
        #![trigger set.qualities@[i]]
        0 <= i < positions.len() ==> {
            &&& set.qualities@[i].id@ == quality_ids(variants, positions, positions.len())[i]
            &&& set.qualities@[i].label@ == variant_label(variants[positions[i]])
            &&& set.urls@[i] == variants[positions[i]].url
        }
}

/// The positions as whole numbers.
pub open spec fn position_values(positions: Seq<usize>) -> Seq<int> {
    Seq::new(positions.len(), |i: int| positions[i] as int)
}

fn find_playable(variants: &Vec<HlsVariant>) -> (positions: Vec<usize>)
    ensures
        position_values(positions@) == playable_positions(variants@),
        forall|i: int|
            0 <= i < positions@.len() ==> #[trigger] positions@[i] < variants@.len() && is_playable(
                variants@[positions@[i] as int],
            ),
{
    let mut positions: Vec<usize> = Vec::new();
    let mut i: usize = 0;
    assert(variants@.take(0) =~= Seq::<HlsVariant>::empty());
    while i < variants.len()
        invariant
            i <= variants.len(),
            position_values(positions@) =~= playable_positions(variants@.take(i as int)),
            forall|k: int|
                0 <= k < positions@.len() ==> #[trigger] positions@[k] < variants@.len()
                    && is_playable(variants@[positions@[k] as int]),
        decreases variants.len() - i,
    {
        assert(variants@.take(i + 1).drop_last() =~= variants@.take(i as int));
        if playable(&variants[i]) {
            positions.push(i);
        }
        i += 1;
    }
    assert(variants@.take(variants@.len() as int) =~= variants@);
    positions
}

fn find_url(variants: &Vec<HlsVariant>, positions: &Vec<usize>, url: &String) -> (index: Option<usize>)
    requires
        forall|i: int| 0 <= i < positions@.len() ==> #[trigger] positions@[i] < variants@.len(),
    ensures
        match index {
            Some(index) => position_of_url(variants@, position_values(positions@), url@, 0) == Some(
                index as int,
            ) && index < positions@.len(),
            None => position_of_url(variants@, position_values(positions@), url@, 0) is None,
        },
{
    let mut i: usize = 0;
    let ghost values = position_values(positions@);
    while i < positions.len()
        invariant
            i <= positions.len(),
            values == position_values(positions@),
            forall|k: int| 0 <= k < positions@.len() ==> #[trigger] positions@[k] < variants@.len(),
            position_of_url(variants@, values, url@, 0) == position_of_url(
                variants@,
                values,
                url@,
                i as int,
            ),
        decreases positions.len() - i,
    {
        assert(values[i as int] == positions@[i as int]);
        if variants[positions[i]].url == *url {
            return Some(i);
        }
        i += 1;
    }
    None
}

fn find_best(variants: &Vec<HlsVariant>, positions: &Vec<usize>, limit: Option<u64>) -> (index: Option<usize>)
    requires
        forall|i: int|
            0 <= i < positions@.len() ==> #[trigger] positions@[i] < variants@.len() && is_playable(
                variants@[positions@[i] as int],
            ),
    ensures
        match index {
            Some(index) => best_fitting(
                variants@,
                position_values(positions@),
                limit,
                positions@.len(),
            ) == Some(index as int) && index < positions@.len(),
            None => best_fitting(variants@, position_values(positions@), limit, positions@.len())
                is None,
        },
{
    let mut best: Option<usize> = None;
    let mut i: usize = 0;
    let ghost values = position_values(positions@);
    while i < positions.len()
        invariant
            i <= positions.len(),
            values == position_values(positions@),
            forall|k: int|
                0 <= k < positions@.len() ==> #[trigger] positions@[k] < variants@.len()
                    && is_playable(variants@[positions@[k] as int]),
            match best {
                Some(index) => index < i && best_fitting(variants@, values, limit, i as nat) == Some(
                    index as int,
                ),
                None => best_fitting(variants@, values, limit, i as nat) is None,
            },
        decreases positions.len() - i,
    {
        assert(values[i as int] == positions@[i as int]);
        let v = &variants[positions[i]];
        let height: u64 = v.height.unwrap();
        let fits: bool = match limit {
            Some(limit) => height <= limit,
            None => true,
        };
        if fits {
            let better: bool = match best {
                None => true,
                Some(index) => {
                    assert(values[index as int] == positions@[index as int]);
                    let b = &variants[positions[index]];
                    let best_height: u64 = b.height.unwrap();
                    height > best_height || (height == best_height && v.bandwidth >= b.bandwidth)
                },
            };
            if better {
                best = Some(i);
            }
        }
        i += 1;
    }
    best
}

fn find_cheapest(variants: &Vec<HlsVariant>, positions: &Vec<usize>) -> (index: Option<usize>)
    requires
        forall|i: int| 0 <= i < positions@.len() ==> #[trigger] positions@[i] < variants@.len(),
    ensures
        match index {
            Some(index) => cheapest(variants@, position_values(positions@), positions@.len())
                == Some(index as int) && index < positions@.len(),
            None => cheapest(variants@, position_values(positions@), positions@.len()) is None,
        },
{
    let mut best: Option<usize> = None;
    let mut i: usize = 0;
    let ghost values = position_values(positions@);
    while i < positions.len()
        invariant
            i <= positions.len(),
            values == position_values(positions@),
            forall|k: int| 0 <= k < positions@.len() ==> #[trigger] positions@[k] < variants@.len(),
            match best {
                Some(index) => index < i && cheapest(variants@, values, i as nat) == Some(
                    index as int,
                ),
                None => cheapest(variants@, values, i as nat) is None,
            },
        decreases positions.len() - i,
    {
        assert(values[i as int] == positions@[i as int]);
        let better: bool = match best {
            None => true,
            Some(index) => {
                assert(values[index as int] == positions@[index as int]);
                variants[positions[i]].bandwidth < variants[positions[index]].bandwidth
            },
        };
        if better {
            best = Some(i);
        }
        i += 1;
    }
    best
}

fn find_preferred(variants: &Vec<HlsVariant>, positions: &Vec<usize>, preferred: usize) -> (index: usize)
    requires
        preferred < variants.len(),
        position_values(positions@) == playable_positions(variants@),
        forall|i: int|
            0 <= i < positions@.len() ==> #[trigger] positions@[i] < variants@.len() && is_playable(
                variants@[positions@[i] as int],
            ),
    ensures
        index == preferred_position(variants@, preferred as int),
        positions@.len() > 0 ==> index < positions@.len(),
{
    assert(position_values(positions@).len() == positions@.len());
    match find_url(variants, positions, &variants[preferred].url) {
        Some(index) => {
            return index;
        },
        None => {},
    }
    match find_best(variants, positions, variants[preferred].height) {
        Some(index) => {
            return index;
        },
        None => {},
    }
    match find_cheapest(variants, positions) {
        Some(index) => index,
        None => 0,
    }
}

fn id_taken(qualities: &Vec<Quality>, id: &String) -> (taken: bool)
    ensures
        taken == exists|i: int| 0 <= i < qualities@.len() && (#[trigger] qualities@[i]).id@ == id@,
{
    let mut i: usize = 0;
    while i < qualities.len()
        invariant
            i <= qualities.len(),
            forall|k: int| 0 <= k < i ==> (#[trigger] qualities@[k]).id@ != id@,
        decreases qualities.len() - i,
    {
        if qualities[i].id == *id {
            assert(qualities@[i as int].id@ == id@);
            return true;
        }
        i += 1;
    }
    false
}

fn label_variant(variant: &HlsVariant, name: &String) -> (label: String)
    requires
        name@ == variant_name(*variant),
    ensures
        label@ == variant_label(*variant),
{
    let mut label = name.clone();
    match &variant.video_group {
        Some(group) => {
            if text::same(group.as_str(), "chunked") {
                label.append(" (Source)");
            }
        },
        None => {},
    }
    label
}

/// The qualities of a master playlist's variants.
pub fn quality_set_from_variants(
    variants: &Vec<HlsVariant>,
    preferred_variant: usize,
) -> (set: Result<HlsQualitySet, String>)
    ensures
        match set {
            Ok(set) => {
                &&& preferred_variant < variants@.len()
                &&& playable_positions(variants@).len() > 0
                &&& set_matches(set, variants@)
                &&& set.preferred_index == preferred_position(variants@, preferred_variant as int)
                &&& set.preferred_index < set.qualities@.len()
            },
            Err(error) => if preferred_variant >= variants@.len() {
                error@ == "HLS preferred variant index is out of range"@
            } else {
                playable_positions(variants@).len() == 0 && error@
                    == "HLS master contains no video variants with a supported codec"@
            },
        },
{
    if preferred_variant >= variants.len() {
        return Err("HLS preferred variant index is out of range".to_owned());
    }
    let positions = find_playable(variants);
    let ghost values = position_values(positions@);
    assert(values.len() == positions@.len());
    if positions.len() == 0 {
        return Err("HLS master contains no video variants with a supported codec".to_owned());
    }
    let preferred_index = find_preferred(variants, &positions, preferred_variant);
    let mut qualities: Vec<Quality> = Vec::new();
    let mut urls: Vec<String> = Vec::new();
    let mut i: usize = 0;
    while i < positions.len()
        invariant
            i <= positions.len(),
            values == position_values(positions@),
            forall|k: int| 0 <= k < positions@.len() ==> #[trigger] positions@[k] < variants@.len(),
            qualities@.len() == i,
            urls@.len() == i,
            quality_ids(variants@, values, i as nat).len() == i,
            forall|k: int|
                #![trigger qualities@[k]]
                0 <= k < i ==> {
                    &&& qualities@[k].id@ == quality_ids(variants@, values, i as nat)[k]
                    &&& qualities@[k].label@ == variant_label(variants@[values[k]])
                    &&& urls@[k] == variants@[values[k]].url
                },
        decreases positions.len() - i,
    {
        let ghost before = quality_ids(variants@, values, i as nat);
        assert(values[i as int] == positions@[i as int]);
        let variant = &variants[positions[i]];
        let name = variant_quality_name(variant);
        let label = label_variant(variant, &name);
        let taken = id_taken(&qualities, &name);
        proof {
            if taken {
                let k = choose|k: int| 0 <= k < qualities@.len() && (#[trigger] qualities@[k]).id@
                    == name@;
                assert(before[k] == name@);
            } else {
                assert forall|k: int| 0 <= k < before.len() implies before[k] != name@ by {
                    assert(qualities@[k].id@ == before[k]);
                }
            }
            assert(before.contains(name@) == taken);
        }
        let id = if taken { variant.url.clone() } else { name };
        qualities.push(Quality { id, label });
        urls.push(variant.url.clone());
        i += 1;
    }
    Ok(HlsQualitySet { qualities, urls, preferred_index })
}

/// The address under which a playlist is opened.
pub fn hls_uri(url: &str) -> (uri: String)
    ensures
        uri@ == "hls+"@ + url@,
{
    let mut uri = "hls+".to_owned();
    uri.append(url);
    uri
}

/// Which decoders are preferred and which are left out; without a boost of its own the
/// preference weighs as much as by default.
#[derive(Debug, PartialEq, Eq)]
pub struct CodecPreferences {
    pub prefer: Vec<String>,
    pub exclude: Vec<String>,
    pub boost: Option<i32>,
    pub no_hardware: bool,
    pub require_hardware: bool,
}

/// The decoder that a mode prefers and those that it leaves out.
pub open spec fn strict_decoders(mode: DecodeMode) -> Option<(Seq<char>, Seq<Seq<char>>)> {
    match mode {
        DecodeMode::Auto | DecodeMode::Cpu | DecodeMode::VideoToolboxReadback => None,
        DecodeMode::VulkanReadback => Some(
            ("h264_vulkan"@, seq!["h264_vulkan_direct"@, "h264_sw"@]),
        ),
        DecodeMode::VulkanDirect => Some(
            ("h264_vulkan_direct"@, seq!["h264_vulkan"@, "h264_sw"@]),
        ),
        DecodeMode::MediaCodecDirect => Some(
            ("h264_mediacodec_direct"@, seq!["h264_mediacodec_readback"@, "h264_sw"@]),
        ),
        DecodeMode::MediaCodecReadback => Some(
            ("h264_mediacodec_readback"@, seq!["h264_mediacodec_direct"@, "h264_sw"@]),
        ),
        DecodeMode::VdpauReadback | DecodeMode::VdpauDirect => Some(
            ("h264_vdpau"@, seq!["h264_sw"@]),
        ),
    }
}

/// The texts as sequences of characters.
pub open spec fn texts(strings: Seq<String>) -> Seq<Seq<char>> {
    Seq::new(strings.len(), |i: int| strings[i]@)
}

fn strict_preferences(prefer: &str, exclude: Vec<String>) -> (preferences: CodecPreferences)
    ensures
        texts(preferences.prefer@) == seq![prefer@],
        preferences.exclude == exclude,
        preferences.boost == Some(100i32),
        !preferences.no_hardware,
        !preferences.require_hardware,
{
    let mut preferred: Vec<String> = Vec::new();
    preferred.push(prefer.to_owned());
    assert(texts(preferred@) =~= seq![prefer@]);
    CodecPreferences {
        prefer: preferred,
        exclude,
        boost: Some(100),
        no_hardware: false,
        require_hardware: false,
    }
}

fn two_texts(a: &str, b: &str) -> (list: Vec<String>)
    ensures
        texts(list@) == seq![a@, b@],
{
    let mut list: Vec<String> = Vec::new();
    list.push(a.to_owned());
    list.push(b.to_owned());
    assert(texts(list@) =~= seq![a@, b@]);
    list
}

/// The preferences of a decode mode: a mode that names a decoder is strict about video,
/// and none asks for hardware that decodes audio.
pub fn codec_preferences(decode_mode: DecodeMode) -> (preferences: CodecPreferences)
    ensures
        match strict_decoders(decode_mode) {
            Some((prefer, exclude)) => texts(preferences.prefer@) == seq![prefer] && texts(
                preferences.exclude@,
            ) == exclude && preferences.boost == Some(100i32) && !preferences.no_hardware,
            None => preferences.prefer@.len() == 0 && preferences.exclude@.len() == 0
                && preferences.boost is None && preferences.no_hardware == (decode_mode is Cpu),
        },
        !preferences.require_hardware,
{
    match decode_mode {
        DecodeMode::Auto | DecodeMode::Cpu | DecodeMode::VideoToolboxReadback => CodecPreferences {
            prefer: Vec::new(),
            exclude: Vec::new(),
            boost: None,
            no_hardware: matches!(decode_mode, DecodeMode::Cpu),
            require_hardware: false,
        },
        DecodeMode::VulkanReadback => strict_preferences(
            "h264_vulkan",
            two_texts("h264_vulkan_direct", "h264_sw"),
        ),
        DecodeMode::VulkanDirect => strict_preferences(
            "h264_vulkan_direct",
            two_texts("h264_vulkan", "h264_sw"),
        ),
        DecodeMode::MediaCodecDirect => strict_preferences(
            "h264_mediacodec_direct",
            two_texts("h264_mediacodec_readback", "h264_sw"),
        ),
        DecodeMode::MediaCodecReadback => strict_preferences(
            "h264_mediacodec_readback",
            two_texts("h264_mediacodec_direct", "h264_sw"),
        ),
        DecodeMode::VdpauReadback | DecodeMode::VdpauDirect => {
            let mut exclude: Vec<String> = Vec::new();
            exclude.push("h264_sw".to_owned());
            assert(texts(exclude@) =~= seq!["h264_sw"@]);
            strict_preferences("h264_vdpau", exclude)
        },
    }
}

proof fn quality_named_is_first(qualities: Seq<Quality>, wanted: Seq<char>, from: int)
    requires
        0 <= from <= qualities.len(),
    ensures
        match quality_named(qualities, wanted, from) {
            Some(index) => from <= index < qualities.len() && (qualities[index].id@ == wanted
                || qualities[index].label@ == wanted) && forall|k: int|
                from <= k < index ==> (#[trigger] qualities[k]).id@ != wanted
                    && qualities[k].label@ != wanted,
            None => forall|k: int|
                from <= k < qualities.len() ==> (#[trigger] qualities[k]).id@ != wanted
                    && qualities[k].label@ != wanted,
        },
    decreases qualities.len() - from,
{
    if from < qualities.len() && qualities[from].id@ != wanted && qualities[from].label@ != wanted {
        quality_named_is_first(qualities, wanted, from + 1);
    }
}

/// Whether a text, without the white space round it, is the identifier or the label of a
/// quality.
pub open spec fn names_quality(name: Seq<char>, quality: Quality) -> bool {
    text::trimmed(name).len() > 0 && (quality.id@ == text::trimmed(name) || quality.label@
        == text::trimmed(name))
}

proof fn first_wanted_of_the_rest(
    qualities: Seq<Quality>,
    entries: Seq<Seq<char>>,
    rest: Seq<Seq<char>>,
    from: int,
)
    requires
        0 <= from <= rest.len(),
        entries.len() == rest.len() + 1,
        forall|i: int| 0 <= i < rest.len() ==> entries[i + 1] == #[trigger] rest[i],
    ensures
        first_wanted(qualities, entries, from + 1) == first_wanted(qualities, rest, from),
    decreases rest.len() - from,
{
    if from < rest.len() {
        assert(entries[from + 1] == rest[from]);
        first_wanted_of_the_rest(qualities, entries, rest, from + 1);
    }
}

/// The first of the favourites that names a quality is chosen, by its identifier or its
/// label; those before it that name none are passed over. Commas and semicolons part them.
pub proof fn first_favourite_there_is_is_chosen(
    qualities: Seq<Quality>,
    first: Seq<char>,
    others: Seq<char>,
    separator: char,
    k: int,
)
    requires
        separator == ',' || separator == ';',
        !first.contains(',') && !first.contains(';'),
    ensures
        0 <= k < qualities.len() && names_quality(first, qualities[k]) && (forall|j: int|
            0 <= j < k ==> !names_quality(first, #[trigger] qualities[j])) ==> favourite(
            qualities,
            first + seq![separator] + others,
        ) == Some(k) && favourite(qualities, first) == Some(k),
        (forall|j: int|
            0 <= j < qualities.len() ==> !names_quality(first, #[trigger] qualities[j]))
            ==> favourite(qualities, first + seq![separator] + others) == favourite(
            qualities,
            others,
        ) && favourite(qualities, first) is None,
{
    let list = first + seq![separator] + others;
    assert forall|i: int| 0 <= i < first.len() implies first[i] != ',' && first[i] != ';' by {
        assert(first.contains(first[i]));
    }
    assert(with_commas(list) =~= first + seq![','] + with_commas(others));
    assert(with_commas(first) =~= first);
    text::split_joined(first, with_commas(others), ',');
    text::split_alone(first, ',');
    let rest = text::split_on(with_commas(others), ',');
    let entries = text::split_on(with_commas(list), ',');
    assert(entries =~= seq![first] + rest);
    let wanted = text::trimmed(first);
    quality_named_is_first(qualities, wanted, 0);
    first_wanted_of_the_rest(qualities, entries, rest, 0);
    assert(text::split_on(with_commas(first), ',') =~= seq![first]);
    let alone = seq![first];
    first_wanted_of_the_rest(qualities, alone, Seq::empty(), 0);
    assert(first_wanted(qualities, Seq::<Seq<char>>::empty(), 0) is None);
    assert(entries[0] == first && alone[0] == first);
    if 0 <= k < qualities.len() && names_quality(first, qualities[k]) && (forall|j: int|
        0 <= j < k ==> !names_quality(first, #[trigger] qualities[j])) {
        let found = quality_named(qualities, wanted, 0);
        assert(found is Some);
        if found.unwrap() < k {
            assert(names_quality(first, qualities[found.unwrap()]));
        }
    }
    if forall|j: int| 0 <= j < qualities.len() ==> !names_quality(first, #[trigger] qualities[j]) {
        let found = quality_named(qualities, wanted, 0);
        if found is Some && wanted.len() > 0 {
            assert(names_quality(first, qualities[found.unwrap()]));
        }
    }
}

/// A codec can be decoded if its name, up to the first dot, is that of one of the two forms
/// of H.264.
pub proof fn only_one_codec_is_decoded(family: Seq<char>, profile: Seq<char>)
    requires
        !family.contains('.'),
        text::trimmed(family) == family,
        text::trimmed(family + seq!['.'] + profile) == family + seq!['.'] + profile,
    ensures
        is_supported_codec(family) <==> family == "avc1"@ || family == "avc3"@,
        is_supported_codec(family + seq!['.'] + profile) <==> family == "avc1"@ || family
            == "avc3"@,
{
    text::split_alone(family, '.');
    text::split_joined(family, profile, '.');
    assert(text::split_on(family + seq!['.'] + profile, '.')[0] == family);
}

proof fn supported_codec_is_one_of_them(codecs: Seq<Seq<char>>, from: int)
    requires
        0 <= from <= codecs.len(),
    ensures
        has_supported_codec(codecs, from) <==> exists|k: int|
            from <= k < codecs.len() && is_supported_codec(#[trigger] codecs[k]),
    decreases codecs.len() - from,
{
    if from < codecs.len() {
        supported_codec_is_one_of_them(codecs, from + 1);
        if is_supported_codec(codecs[from]) {
            assert(has_supported_codec(codecs, from));
        }
    }
}

/// A variant can be decoded if one of its codecs can, wherever it stands in the list, or if
/// it does not name any.
pub proof fn one_decodable_codec_is_enough(
    variant: HlsVariant,
    before: Seq<char>,
    codec: Seq<char>,
    after: Seq<char>,
)
    requires
        !codec.contains(','),
    ensures
        variant.codecs is None ==> variant_supported(variant),
        variant.codecs is Some && variant.codecs.unwrap()@ == before + seq![','] + (codec + seq![
            ',',
        ] + after) && is_supported_codec(codec) ==> variant_supported(variant),
        variant.codecs is Some && variant.codecs.unwrap()@ == codec ==> variant_supported(variant)
            == is_supported_codec(codec),
{
    let rest = codec + seq![','] + after;
    text::split_joined(before, rest, ',');
    text::split_joined(codec, after, ',');
    text::split_alone(codec, ',');
    let parts = text::split_on(before + seq![','] + rest, ',');
    let first = text::split_on(before, ',');
    assert(parts[first.len() as int] == codec);
    supported_codec_is_one_of_them(parts, 0);
    supported_codec_is_one_of_them(seq![codec], 0);
    assert(seq![codec][0] == codec);
}

/// The variants that there are qualities of are those with a picture that can be decoded, in
/// their order.
pub proof fn playable_variants_are_kept_in_order(variants: Seq<HlsVariant>)
    ensures
        ({
            let positions = playable_positions(variants);
            &&& forall|i: int|
                0 <= i < positions.len() ==> 0 <= #[trigger] positions[i] < variants.len()
                    && is_playable(variants[positions[i]])
            &&& forall|i: int, j: int|
                0 <= i < j < positions.len() ==> #[trigger] positions[i] < #[trigger] positions[j]
            &&& forall|k: int|
                0 <= k < variants.len() && is_playable(#[trigger] variants[k])
                    ==> positions.contains(k)
        }),
    decreases variants.len(),
{
    if variants.len() > 0 {
        let shorter = variants.drop_last();
        playable_variants_are_kept_in_order(shorter);
        let before = playable_positions(shorter);
        let positions = playable_positions(variants);
        assert forall|i: int| 0 <= i < positions.len() implies 0 <= #[trigger] positions[i]
            < variants.len() && is_playable(variants[positions[i]]) by {
            if i < before.len() {
                assert(positions[i] == before[i]);
                assert(shorter[before[i]] == variants[before[i]]);
            }
        }
        assert forall|i: int, j: int| 0 <= i < j < positions.len() implies #[trigger] positions[i]
            < #[trigger] positions[j] by {
            assert(positions[i] == before[i]);
            if j < before.len() {
                assert(positions[j] == before[j]);
            }
        }
        assert forall|k: int| 0 <= k < variants.len() && is_playable(
            #[trigger] variants[k],
        ) implies positions.contains(k) by {
            if k < variants.len() - 1 {
                assert(shorter[k] == variants[k]);
                let i = choose|i: int| 0 <= i < before.len() && before[i] == k;
                assert(positions[i] == k);
            } else {
                assert(positions[before.len() as int] == k);
            }
        }
    }
}

/// A variant has a picture that can be decoded if it has a width and a height and its codecs
/// can.
pub proof fn pictures_have_a_size(variant: HlsVariant)
    ensures
        is_playable(variant) <==> (variant.width is Some && variant.width.unwrap() > 0
            && variant.height is Some && variant.height.unwrap() > 0 && variant_supported(variant)),
{
}

proof fn url_is_found(variants: Seq<HlsVariant>, positions: Seq<int>, url: Seq<char>, from: int)
    requires
        0 <= from <= positions.len(),
    ensures
        match position_of_url(variants, positions, url, from) {
            Some(index) => from <= index < positions.len() && variants[positions[index]].url@
                == url,
            None => forall|k: int|
                from <= k < positions.len() ==> (variants[#[trigger] positions[k]]).url@ != url,
        },
    decreases positions.len() - from,
{
    if from < positions.len() && variants[positions[from]].url@ != url {
        url_is_found(variants, positions, url, from + 1);
    }
}

/// Whether a variant is no higher than a limit, if there is one.
pub open spec fn is_within(variant: HlsVariant, limit: Option<u64>) -> bool {
    limit is Some ==> variant.height.unwrap() <= limit.unwrap()
}

proof fn best_is_best(
    variants: Seq<HlsVariant>,
    positions: Seq<int>,
    limit: Option<u64>,
    n: nat,
)
    requires
        n <= positions.len(),
        forall|i: int|
            0 <= i < positions.len() ==> (variants[#[trigger] positions[i]]).height is Some,
    ensures
        match best_fitting(variants, positions, limit, n) {
            Some(best) => 0 <= best < n && is_within(variants[positions[best]], limit) && (forall|
                k: int,
            |
                0 <= k < n && is_within(variants[#[trigger] positions[k]], limit) ==> {
                    let here = variants[positions[best]];
                    let there = variants[positions[k]];
                    &&& there.height.unwrap() <= here.height.unwrap()
                    &&& there.height == here.height ==> there.bandwidth <= here.bandwidth
                }),
            None => forall|k: int|
                0 <= k < n ==> !is_within(variants[#[trigger] positions[k]], limit),
        },
    decreases n,
{
    if n > 0 {
        best_is_best(variants, positions, limit, (n - 1) as nat);
    }
}

proof fn cheapest_is_cheapest(variants: Seq<HlsVariant>, positions: Seq<int>, n: nat)
    requires
        n <= positions.len(),
    ensures
        match cheapest(variants, positions, n) {
            Some(best) => 0 <= best < n && (forall|k: int|
                0 <= k < n ==> variants[positions[best]].bandwidth <= (
                variants[#[trigger] positions[k]]).bandwidth),
            None => n == 0,
        },
    decreases n,
{
    if n > 0 {
        cheapest_is_cheapest(variants, positions, (n - 1) as nat);
    }
}

/// The quality to start with is the variant that the playlist prefers, if it can be played;
/// else the highest that is no higher than it, and of those the one with the most bandwidth;
/// and if all are higher, the one with the least bandwidth.
pub proof fn playback_starts_with_the_best_there_is(variants: Seq<HlsVariant>, preferred: int)
    requires
        0 <= preferred < variants.len(),
        playable_positions(variants).len() > 0,
    ensures
        ({
            let positions = playable_positions(variants);
            let start = preferred_position(variants, preferred);
            let chosen = variants[positions[start]];
            let limit = variants[preferred].height;
            let there = exists|k: int|
                0 <= k < positions.len() && variants[#[trigger] positions[k]].url@
                    == variants[preferred].url@;
            let fits = exists|k: int|
                0 <= k < positions.len() && is_within(variants[#[trigger] positions[k]], limit);
            &&& 0 <= start < positions.len()
            &&& there ==> chosen.url@ == variants[preferred].url@
            &&& !there && fits ==> is_within(chosen, limit) && (forall|k: int|
                0 <= k < positions.len() && is_within(variants[#[trigger] positions[k]], limit) ==> {
                    let other = variants[positions[k]];
                    &&& other.height.unwrap() <= chosen.height.unwrap()
                    &&& other.height == chosen.height ==> other.bandwidth <= chosen.bandwidth
                })
            &&& !there && !fits ==> (forall|k: int|
                0 <= k < positions.len() ==> chosen.bandwidth <= (
                variants[#[trigger] positions[k]]).bandwidth)
        }),
{
    let positions = playable_positions(variants);
    playable_variants_are_kept_in_order(variants);
    assert forall|i: int| 0 <= i < positions.len() implies (
    variants[#[trigger] positions[i]]).height is Some by {
        assert(is_playable(variants[positions[i]]));
    }
    url_is_found(variants, positions, variants[preferred].url@, 0);
    best_is_best(variants, positions, variants[preferred].height, positions.len());
    cheapest_is_cheapest(variants, positions, positions.len());
}

/// A variant goes by its name; without one by its height, with the frames of a second behind
/// it if they are known; without either by its bandwidth. The source itself is marked.
pub proof fn variants_go_by_what_is_known(variant: HlsVariant)
    ensures
        variant.name is Some && text::trimmed(variant.name.unwrap()@).len() > 0 ==> variant_name(
            variant,
        ) == text::trimmed(variant.name.unwrap()@),
        (variant.name is None || text::trimmed(variant.name.unwrap()@).len() == 0) ==> {
            &&& variant.height is Some && variant.frame_rate is None ==> variant_name(variant)
                == text::decimal(variant.height.unwrap() as nat) + seq!['p']
            &&& variant.height is Some && variant.frame_rate is Some && is_positive_double(
                variant.frame_rate.unwrap(),
            ) ==> variant_name(variant) == text::decimal(variant.height.unwrap() as nat) + seq!['p']
                + text::decimal(whole_frames(variant.frame_rate.unwrap()))
            &&& variant.height is None ==> variant_name(variant) == text::decimal(
                (variant.bandwidth / 1000) as nat,
            ) + seq![' ', 'k', 'b', 'p', 's']
        },
        variant.video_group is Some && variant.video_group.unwrap()@ == seq![
            'c',
            'h',
            'u',
            'n',
            'k',
            'e',
            'd',
        ] ==> variant_label(variant) == variant_name(variant) + seq![
            ' ',
            '(',
            'S',
            'o',
            'u',
            'r',
            'c',
            'e',
            ')',
        ],
        variant.video_group is None ==> variant_label(variant) == variant_name(variant),
{
    reveal_strlit(" kbps");
    reveal_strlit("chunked");
    reveal_strlit(" (Source)");
    assert(" kbps"@ =~= seq![' ', 'k', 'b', 'p', 's']);
    assert("chunked"@ =~= seq!['c', 'h', 'u', 'n', 'k', 'e', 'd']);
    assert(" (Source)"@ =~= seq![' ', '(', 'S', 'o', 'u', 'r', 'c', 'e', ')']);
}

proof fn ids_are_as_many(variants: Seq<HlsVariant>, positions: Seq<int>, n: nat)
    requires
        n <= positions.len(),
    ensures
        quality_ids(variants, positions, n).len() == n,
    decreases n,
{
    if n > 0 {
        ids_are_as_many(variants, positions, (n - 1) as nat);
    }
}

/// A quality is identified by the name of its variant, unless an earlier one is: then by the
/// address of its playlist. If no address is a name and all differ, no two qualities have the
/// same identifier.
pub proof fn identifiers_tell_qualities_apart(
    variants: Seq<HlsVariant>,
    positions: Seq<int>,
    n: nat,
    i: int,
    j: int,
)
    requires
        0 <= i < j < n <= positions.len(),
        forall|a: int, b: int|
            0 <= a < positions.len() && 0 <= b < positions.len() ==> (
            variants[#[trigger] positions[a]]).url@ != variant_name(
                variants[#[trigger] positions[b]],
            ),
        forall|a: int, b: int|
            0 <= a < b < positions.len() ==> (variants[#[trigger] positions[a]]).url@ != (
            variants[#[trigger] positions[b]]).url@,
    ensures
        quality_ids(variants, positions, n)[i] != quality_ids(variants, positions, n)[j],
        quality_ids(variants, positions, n)[0] == variant_name(variants[positions[0]]),
    decreases n,
{
    let before = quality_ids(variants, positions, (n - 1) as nat);
    ids_are_as_many(variants, positions, (n - 1) as nat);
    ids_are_as_many(variants, positions, n);
    if j < n - 1 {
        identifiers_tell_qualities_apart(variants, positions, (n - 1) as nat, i, j);
    } else {
        id_is_name_or_url(variants, positions, (n - 1) as nat, i);
        id_is_name_or_url(variants, positions, (n - 1) as nat, 0);
        assert(before.contains(before[i]));
        assert(positions[i] == positions[i] && positions[j] == positions[j]);
    }
}

proof fn id_is_name_or_url(variants: Seq<HlsVariant>, positions: Seq<int>, n: nat, i: int)
    requires
        0 <= i < n <= positions.len(),
    ensures
        ({
            let id = quality_ids(variants, positions, n)[i];
            let v = variants[positions[i]];
            &&& id == variant_name(v) || id == v.url@
            &&& i == 0 ==> id == variant_name(v)
        }),
    decreases n,
{
    ids_are_as_many(variants, positions, (n - 1) as nat);
    if i < n - 1 {
        id_is_name_or_url(variants, positions, (n - 1) as nat, i);
    }
}

/// A way of decoding that was asked for takes no other: its decoder is not among those that
/// are left out, and the one without hardware is.
pub proof fn strict_ways_of_decoding_stay_strict(mode: DecodeMode)
    ensures
        strict_decoders(mode) matches Some((prefer, exclude)) ==> {
            &&& exclude.contains(seq!['h', '2', '6', '4', '_', 's', 'w'])
            &&& !exclude.contains(prefer)
        },
        strict_decoders(mode) is None <==> mode is Auto || mode is Cpu
            || mode is VideoToolboxReadback,
        mode is VulkanReadback || mode is VulkanDirect || mode is MediaCodecDirect
            || mode is MediaCodecReadback ==> strict_decoders(mode).unwrap().1.len() == 2,
        strict_decoders(DecodeMode::VulkanReadback).unwrap().1.contains(
            strict_decoders(DecodeMode::VulkanDirect).unwrap().0,
        ),
        strict_decoders(DecodeMode::VulkanDirect).unwrap().1.contains(
            strict_decoders(DecodeMode::VulkanReadback).unwrap().0,
        ),
        strict_decoders(DecodeMode::MediaCodecReadback).unwrap().1.contains(
            strict_decoders(DecodeMode::MediaCodecDirect).unwrap().0,
        ),
        strict_decoders(DecodeMode::MediaCodecDirect).unwrap().1.contains(
            strict_decoders(DecodeMode::MediaCodecReadback).unwrap().0,
        ),
{
    reveal_strlit("h264_sw");
    reveal_strlit("h264_vulkan");
    reveal_strlit("h264_vulkan_direct");
    reveal_strlit("h264_mediacodec_direct");
    reveal_strlit("h264_mediacodec_readback");
    reveal_strlit("h264_vdpau");
    let sw = seq!['h', '2', '6', '4', '_', 's', 'w'];
    assert("h264_sw"@ =~= sw);
    match strict_decoders(mode) {
        Some((prefer, exclude)) => {
            assert(exclude[exclude.len() - 1] == sw);
            assert forall|k: int| 0 <= k < exclude.len() implies exclude[k] != prefer by {
                assert(exclude[k].len() != prefer.len());
            }
        },
        None => {},
    }
    assert(strict_decoders(DecodeMode::VulkanReadback).unwrap().1[0]
        == strict_decoders(DecodeMode::VulkanDirect).unwrap().0);
    assert(strict_decoders(DecodeMode::VulkanDirect).unwrap().1[0]
        == strict_decoders(DecodeMode::VulkanReadback).unwrap().0);
    assert(strict_decoders(DecodeMode::MediaCodecReadback).unwrap().1[0]
        == strict_decoders(DecodeMode::MediaCodecDirect).unwrap().0);
    assert(strict_decoders(DecodeMode::MediaCodecDirect).unwrap().1[0]
        == strict_decoders(DecodeMode::MediaCodecReadback).unwrap().0);
}

/// A whole number of frames in a second, written as a double, is that number.
pub proof fn whole_frame_rates_are_kept(bits: u64, frames: u32, k: nat)
    requires
        k <= 31,
        pow2(k) <= frames < 2 * pow2(k),
        bits == (k + 1023) * 0x10_0000_0000_0000 + (frames - pow2(k)) * pow2((52 - k) as nat),
    ensures
        is_positive_double(bits),
        whole_frames(bits) == frames,
{
    let unit = pow2((52 - k) as nat) as int;
    let low = pow2(k) as int;
    let f = frames as int;
    lemma_pow2_adds(k, (52 - k) as nat);
    lemma2_to64();
    lemma2_to64_rest();
    assert(low * unit == 0x10_0000_0000_0000);
    lemma_pow2_pos((52 - k) as nat);
    let rest = (f - low) * unit;
    assert(0 <= rest < low * unit) by (nonlinear_arith)
        requires
            rest == (f - low) * unit,
            low <= f < 2 * low,
            unit > 0,
    ;
    let whole: int = 0x10_0000_0000_0000;
    lemma_fundamental_div_mod_converse(bits as int, whole, (k + 1023) as int, rest);
    assert(rest + whole == f * unit) by (nonlinear_arith)
        requires
            rest == (f - low) * unit,
            low * unit == whole,
    ;
    assert(double_digits(bits) == f * unit);
    assert(double_exponent(bits) == k - 52);
    lemma_pow2_adds(1, (51 - k) as nat);
    let half = pow2((51 - k) as nat) as int;
    assert(unit == 2 * half);
    assert((f * unit + half) / unit == f) by {
        lemma_pow2_pos((51 - k) as nat);
        lemma_fundamental_div_mod_converse(f * unit + half, unit, f, half);
    }
}

} // verus!
