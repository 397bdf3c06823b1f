//! Keeping the screen on while something plays.

use crate::app::state::AppState;
use crate::model::PlaybackState;
use vstd::prelude::*;

verus! {

/// Whether the screen is kept on, and whether the player is in sight.
#[derive(Clone, Copy, Debug, PartialEq, Eq, Structural)]
pub struct AndroidScreenOn {
    pub enabled: bool,
    pub foreground: bool,
}

impl AndroidScreenOn {
    /// Whether the screen should be kept on: while the player is in sight and plays. A seek
    /// leaves it as it was, so that one from a pause does not begin to keep it on and one in
    /// the midst of playing does not cease to.
    pub open spec fn desired(self, state: PlaybackState) -> bool {
        self.foreground && (state is Playing || (state is Seeking && self.enabled))
    }

    /// What Android is to be told, if anything.
    pub open spec fn change(self, state: PlaybackState) -> Option<bool> {
        if self.desired(state) == self.enabled { None } else { Some(self.desired(state)) }
    }

    pub fn new() -> (screen: Self)
        ensures
            screen == (AndroidScreenOn { enabled: false, foreground: false }),
    {
        AndroidScreenOn { enabled: false, foreground: false }
    }

    /// Brings the screen in line with playback: what Android is to be told, if anything.
    pub fn sync(&self, state: &AppState) -> (change: Option<bool>)
        ensures
            change == self.change(state@.playback.state()),
    {
        let desired: bool = self.foreground && match state.playback_state() {
            PlaybackState::Playing => true,
            PlaybackState::Seeking => self.enabled,
            _ => false,
        };
        if desired == self.enabled { None } else { Some(desired) }
    }

    pub fn set_foreground(&mut self, state: &AppState, foreground: bool) -> (change: Option<bool>)
        ensures
            *final(self) == (AndroidScreenOn { foreground, ..*old(self) }),
            change == final(self).change(state@.playback.state()),
    {
        self.foreground = foreground;
        self.sync(state)
    }

    /// Takes note of whether Android did as it was told.
    pub fn told(&mut self, desired: bool, done: bool)
        ensures
            *final(self) == (if done {
                AndroidScreenOn { enabled: desired, ..*old(self) }
            } else {
                *old(self)
            }),
    {
        if done {
            self.enabled = desired;
        }
    }
}

/// Once Android has done as it was told, there is nothing more to tell until something
/// changes; what it did not do is tried again.
pub proof fn screen_is_told_once(screen: AndroidScreenOn, state: PlaybackState)
    ensures
        screen.change(state) matches Some(desired) ==> (AndroidScreenOn {
            enabled: desired,
            ..screen
        }).change(state) is None,
{
}

/// The screen is not kept on for a player that is out of sight.
pub proof fn hidden_player_lets_the_screen_sleep(screen: AndroidScreenOn, state: PlaybackState)
    requires
        !screen.foreground,
    ensures
        !screen.desired(state),
{
}

/// The screen is kept on while a video plays in sight, and through a seek if it was on.
pub proof fn screen_is_kept_on_while_playing(screen: AndroidScreenOn, state: PlaybackState)
    requires
        screen.foreground,
    ensures
        state is Playing ==> screen.desired(state),
        state is Seeking ==> screen.desired(state) == screen.enabled,
        !(state is Playing) && !(state is Seeking) ==> !screen.desired(state),
        screen.change(state) is None <==> screen.desired(state) == screen.enabled,
        screen.change(state) matches Some(desired) ==> desired == screen.desired(state),
{
}

} // verus!
