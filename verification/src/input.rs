//! Keys of the keyboard and what they stand for.

use crate::app::state::AppState;
use crate::app::views;
use crate::model::AppCommand;
use crate::text;
use vstd::prelude::*;

verus! {

/// The keys that mean something to the player.
#[derive(Clone, Copy, Debug, PartialEq, Eq, Structural)]
pub enum KeyCode {
    Space,
    ArrowLeft,
    ArrowRight,
    ArrowUp,
    ArrowDown,
    KeyF,
    Insert,
    Other,
}

/// The command that changes the rate to the next one, if there is one.
pub open spec fn rate_command(rate: Option<u32>) -> Option<AppCommand> {
    match rate {
        Some(rate) => Some(AppCommand::SetPlaybackRate(rate)),
        None => None,
    }
}

/// What a key asks for while `rates` can be had and `rate` is in use.
pub open spec fn key_command(code: KeyCode, rates: Seq<u32>, rate: u32) -> Option<AppCommand> {
    match code {
        KeyCode::Space => Some(AppCommand::TogglePlayback),
        KeyCode::ArrowLeft => Some(AppCommand::SeekRelative((-5) as i64)),
        KeyCode::ArrowRight => Some(AppCommand::SeekRelative(5)),
        KeyCode::ArrowUp => rate_command(views::adjacent_rate(rates, rate, 1)),
        KeyCode::ArrowDown => rate_command(views::adjacent_rate(rates, rate, (-1) as i32)),
        KeyCode::KeyF => Some(AppCommand::ToggleFullscreen),
        KeyCode::Insert | KeyCode::Other => None,
    }
}

pub fn command_for_key(code: KeyCode, state: &AppState) -> (command: Option<AppCommand>)
    ensures
        command == key_command(code, state@.playback.rates(), state@.playback.rate()),
{
    match code {
        KeyCode::Space => Some(AppCommand::TogglePlayback),
        KeyCode::ArrowLeft => Some(AppCommand::SeekRelative(-5)),
        KeyCode::ArrowRight => Some(AppCommand::SeekRelative(5)),
        KeyCode::ArrowUp => match state.adjacent_playback_rate(1) {
            Some(rate) => Some(AppCommand::SetPlaybackRate(rate)),
            None => None,
        },
        KeyCode::ArrowDown => match state.adjacent_playback_rate(-1) {
            Some(rate) => Some(AppCommand::SetPlaybackRate(rate)),
            None => None,
        },
        KeyCode::KeyF => Some(AppCommand::ToggleFullscreen),
        KeyCode::Insert | KeyCode::Other => None,
    }
}

/// Whether a key stands for pasting: Insert together with Shift, on the desktops that
/// know it from old.
pub fn legacy_shift_insert_paste(
    unix_desktop: bool,
    shift: bool,
    pressed: bool,
    code: KeyCode,
) -> (paste: bool)
    ensures
        paste == (unix_desktop && shift && pressed && code == KeyCode::Insert),
{
    unix_desktop && pressed && shift && code == KeyCode::Insert
}

/// `s` with every carriage return dropped that stands before a line feed.
pub open spec fn with_plain_lines(s: Seq<char>) -> Seq<char>
    decreases s.len(),
{
    if s.len() == 0 {
        s
    } else if s.len() > 1 && s[0] == '\r' && s[1] == '\n' {
        seq!['\n'] + with_plain_lines(s.skip(2))
    } else {
        seq![s[0]] + with_plain_lines(s.skip(1))
    }
}

/// What is pasted of the text in the clipboard: nothing where it is empty.
pub fn pasted_text(contents: &str) -> (pasted: Option<String>)
    ensures
        match pasted {
            Some(pasted) => pasted@ == with_plain_lines(contents@) && contents@.len() > 0,
            None => contents@.len() == 0,
        },
{
    let chars = text::chars_of(contents);
    let mut pasted = String::new();
    let mut i: usize = 0;
    assert(chars@.skip(0) =~= chars@);
    while i < chars.len()
        invariant
            i <= chars.len(),
            chars@ == contents@,
            with_plain_lines(contents@) =~= pasted@ + with_plain_lines(chars@.skip(i as int)),
        decreases chars.len() - i,
    {
        let ghost rest = chars@.skip(i as int);
        if chars[i] == '\r' && i + 1 < chars.len() && chars[i + 1] == '\n' {
            assert(rest.skip(2) =~= chars@.skip(i + 2));
            pasted.push('\n');
            i += 2;
        } else {
            assert(rest.skip(1) =~= chars@.skip(i + 1));
            pasted.push(chars[i]);
            i += 1;
        }
    }
    if chars.len() > 0 { Some(pasted) } else { None }
}

/// The space bar stops and goes on, the arrows to the sides seek five seconds back and on,
/// those up and down take the next rate and the one before, and F fills the screen. No other
/// key does anything.
pub proof fn keys_do_what_they_are_for(rates: Seq<u32>, rate: u32)
    ensures
        key_command(KeyCode::Space, rates, rate) == Some(AppCommand::TogglePlayback),
        key_command(KeyCode::ArrowLeft, rates, rate) matches Some(AppCommand::SeekRelative(offset))
            && offset + 5 == 0,
        key_command(KeyCode::ArrowRight, rates, rate) matches Some(
            AppCommand::SeekRelative(offset),
        ) && offset == 5,
        key_command(KeyCode::KeyF, rates, rate) == Some(AppCommand::ToggleFullscreen),
        key_command(KeyCode::Insert, rates, rate) is None,
        key_command(KeyCode::Other, rates, rate) is None,
{
}

/// The arrow up takes the next rate there is and the arrow down the one before; at either end
/// they do nothing.
pub proof fn arrows_take_the_next_rate(rates: Seq<u32>, k: int)
    requires
        0 <= k < rates.len(),
        rates.no_duplicates(),
    ensures
        k + 1 < rates.len() ==> key_command(KeyCode::ArrowUp, rates, rates[k]) == Some(
            AppCommand::SetPlaybackRate(rates[k + 1]),
        ),
        k + 1 == rates.len() ==> key_command(KeyCode::ArrowUp, rates, rates[k]) is None,
        k > 0 ==> key_command(KeyCode::ArrowDown, rates, rates[k]) == Some(
            AppCommand::SetPlaybackRate(rates[k - 1]),
        ),
        k == 0 ==> key_command(KeyCode::ArrowDown, rates, rates[k]) is None,
{
    rates.index_of_first_ensures(rates[k]);
    assert(rates.contains(rates[k]));
    assert(rates.index_of_first(rates[k]) == Some(k));
}

/// Line breaks of two characters become one, wherever they stand; everything else stays.
pub proof fn line_breaks_become_plain(before: Seq<char>, after: Seq<char>)
    requires
        !before.contains('\r'),
    ensures
        with_plain_lines(before) == before,
        with_plain_lines(before + seq!['\r', '\n'] + after) == before + seq!['\n']
            + with_plain_lines(after),
    decreases before.len(),
{
    let broken = seq!['\r', '\n'] + after;
    let text = before + seq!['\r', '\n'] + after;
    assert(text =~= before + broken);
    if before.len() == 0 {
        assert(text =~= broken);
        assert(broken.skip(2) =~= after);
        assert(before + seq!['\n'] + with_plain_lines(after) =~= seq!['\n'] + with_plain_lines(after));
    } else {
        let rest = before.skip(1);
        assert(before.contains(before[0]));
        assert forall|i: int| 0 <= i < rest.len() implies rest[i] != '\r' by {
            assert(before.contains(before[i + 1]));
        }
        line_breaks_become_plain(rest, after);
        assert(text.skip(1) =~= rest + seq!['\r', '\n'] + after);
        assert(text[0] == before[0]);
        assert(seq![before[0]] + rest =~= before);
        assert(seq![before[0]] + (rest + seq!['\n'] + with_plain_lines(after)) =~= before + seq![
            '\n',
        ] + with_plain_lines(after));
    }
}

} // verus!
