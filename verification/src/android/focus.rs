//! The right to make a sound, which Android gives and takes away.

use crate::app::state::AppState;
use crate::model::{AppCommand, PlaybackState};
use crate::time::Instant;
use vstd::prelude::*;

verus! {

/// What Android says of the sound.
#[derive(Clone, Copy, Debug, PartialEq, Eq, Structural)]
pub enum AndroidMediaEvent {
    AudioFocusChange(i32),
    BecomingNoisy,
}

pub const AUDIOFOCUS_GAIN: i32 = 1;

pub const AUDIOFOCUS_LOSS: i32 = -1;

pub const AUDIOFOCUS_LOSS_TRANSIENT: i32 = -2;

pub const AUDIOFOCUS_LOSS_TRANSIENT_CAN_DUCK: i32 = -3;

/// Whether the right was asked for, is held, and is waited for.
#[derive(Clone, Copy, Debug, PartialEq, Eq, Structural)]
pub struct AndroidMediaFocus {
    pub request_active: bool,
    pub has_focus: bool,
    pub resume_after_transient_loss: bool,
}

/// Whether a change takes the right away for a while.
pub open spec fn is_transient(change: i32) -> bool {
    change == AUDIOFOCUS_LOSS_TRANSIENT || change == AUDIOFOCUS_LOSS_TRANSIENT_CAN_DUCK
}

impl AndroidMediaFocus {
    /// Nothing asked for.
    pub open spec fn none() -> Self {
        AndroidMediaFocus {
            request_active: false,
            has_focus: false,
            resume_after_transient_loss: false,
        }
    }

    /// The right is held, or waited for, only where it was asked for.
    pub open spec fn wf(self) -> bool {
        (self.has_focus || self.resume_after_transient_loss) ==> self.request_active
    }

    /// What becomes of this once the right is asked for, where it was not before, and
    /// granted or not.
    pub open spec fn asked(self, granted: bool) -> Self {
        if !self.request_active && granted {
            AndroidMediaFocus { request_active: true, has_focus: true, ..self }
        } else {
            self
        }
    }

    /// What becomes of this with an event, where playback could be interrupted or not.
    pub open spec fn informed(self, event: AndroidMediaEvent, was_active: bool) -> Self {
        match event {
            AndroidMediaEvent::BecomingNoisy => Self::none(),
            AndroidMediaEvent::AudioFocusChange(change) => if !self.request_active {
                self
            } else if change == AUDIOFOCUS_GAIN {
                AndroidMediaFocus { has_focus: true, resume_after_transient_loss: false, ..self }
            } else if change == AUDIOFOCUS_LOSS {
                Self::none()
            } else if is_transient(change) {
                AndroidMediaFocus {
                    has_focus: false,
                    resume_after_transient_loss: self.resume_after_transient_loss || was_active,
                    ..self
                }
            } else {
                self
            },
        }
    }

    /// Whether an event stops playback.
    pub open spec fn stops(self, event: AndroidMediaEvent) -> bool {
        match event {
            AndroidMediaEvent::BecomingNoisy => true,
            AndroidMediaEvent::AudioFocusChange(change) => self.request_active && (change
                == AUDIOFOCUS_LOSS || is_transient(change)),
        }
    }

    /// Whether playback goes on with an event: only where it was stopped for a while.
    pub open spec fn resumes(self, event: AndroidMediaEvent) -> bool {
        event == AndroidMediaEvent::AudioFocusChange(AUDIOFOCUS_GAIN) && self.request_active
            && self.resume_after_transient_loss
    }

    /// Whether the right is given back with an event.
    pub open spec fn gives_back(self, event: AndroidMediaEvent) -> bool {
        self.request_active && (event == AndroidMediaEvent::BecomingNoisy || event
            == AndroidMediaEvent::AudioFocusChange(AUDIOFOCUS_LOSS))
    }

    /// Whether the right has to be asked for before playback can go on.
    pub open spec fn must_ask(self, state: PlaybackState) -> bool {
        state is Playing && !self.request_active
    }

    /// Whether the right is of no more use.
    pub open spec fn is_useless(self, state: PlaybackState) -> bool {
        !(state is Playing) && !(state is Seeking && self.request_active) && !(state is Paused
            && self.resume_after_transient_loss)
    }

    pub fn new() -> (focus: Self)
        ensures
            focus == Self::none(),
            focus.wf(),
    {
        AndroidMediaFocus {
            request_active: false,
            has_focus: false,
            resume_after_transient_loss: false,
        }
    }

    /// Whether the right has to be asked for; if not, whether it is held.
    pub fn needs_request(&self) -> (needs: bool)
        ensures
            needs == !self.request_active,
    {
        !self.request_active
    }

    /// Makes sure of the right, with the answer to the question where one had to be asked;
    /// a question that failed is not answered by a grant. Whether the right is held.
    pub fn ensure_focus(&mut self, granted: bool) -> (has_focus: bool)
        ensures
            *final(self) == old(self).asked(granted),
            has_focus == (if old(self).request_active { old(self).has_focus } else { granted }),
            old(self).wf() ==> final(self).wf(),
    {
        if self.request_active {
            return self.has_focus;
        }
        if granted {
            self.request_active = true;
            self.has_focus = true;
        }
        granted
    }

    /// Gives the right up; whether Android has to be told.
    pub fn abandon(&mut self) -> (tell: bool)
        ensures
            *final(self) == Self::none(),
            tell == old(self).request_active,
            final(self).wf(),
    {
        let tell: bool = self.request_active;
        *self = AndroidMediaFocus::new();
        tell
    }

    /// Brings the right in line with playback, with the answer to the question where one had
    /// to be asked. Whether Android has to be told that it is given up.
    pub fn sync_playback_state(&mut self, state: &mut AppState, granted: bool, now: Instant) -> (tell: bool)
        ensures
            ({
                let playback = old(state)@.playback.state();
                let held = if old(self).request_active { old(self).has_focus } else { granted };
                &&& *final(self) == (if playback is Playing {
                    old(self).asked(granted)
                } else if old(self).is_useless(playback) {
                    Self::none()
                } else {
                    *old(self)
                })
                &&& final(state)@ == (if playback is Playing && !held {
                    old(state)@.interrupted(now)
                } else {
                    old(state)@
                })
                &&& tell == (old(self).is_useless(playback) && old(self).request_active)
            }),
            old(self).wf() ==> final(self).wf(),
            old(state).wf() ==> final(state).wf(),
    {
        match state.playback_state() {
            PlaybackState::Playing => {
                if !self.ensure_focus(granted) {
                    let _ = state.pause_for_platform_interruption(now);
                }
                false
            },
            PlaybackState::Seeking => {
                if self.request_active {
                    false
                } else {
                    self.abandon()
                }
            },
            PlaybackState::Paused => {
                if self.resume_after_transient_loss {
                    false
                } else {
                    self.abandon()
                }
            },
            _ => self.abandon(),
        }
    }

    /// Does what an event asks for. Whether Android has to be told that the right is given
    /// up.
    pub fn handle_event(&mut self, state: &mut AppState, event: AndroidMediaEvent, now: Instant) -> (tell:
        bool)
        ensures
            *final(self) == old(self).informed(event, old(state)@.playback.wants_to_play()),
            final(state)@ == (if old(self).stops(event) {
                old(state)@.interrupted(now)
            } else if old(self).resumes(event) {
                old(state)@.uninterrupted(now)
            } else {
                old(state)@
            }),
            tell == old(self).gives_back(event),
            old(self).wf() ==> final(self).wf(),
            old(state).wf() ==> final(state).wf(),
    {
        match event {
            AndroidMediaEvent::BecomingNoisy => {
                let _ = state.pause_for_platform_interruption(now);
                self.abandon()
            },
            AndroidMediaEvent::AudioFocusChange(change) => {
                if !self.request_active {
                    return false;
                }
                if change == AUDIOFOCUS_GAIN {
                    self.has_focus = true;
                    if self.resume_after_transient_loss {
                        self.resume_after_transient_loss = false;
                        state.resume_after_platform_interruption(now);
                    }
                    false
                } else if change == AUDIOFOCUS_LOSS {
                    let _ = state.pause_for_platform_interruption(now);
                    self.abandon()
                } else if change == AUDIOFOCUS_LOSS_TRANSIENT || change
                    == AUDIOFOCUS_LOSS_TRANSIENT_CAN_DUCK {
                    let was_active = state.pause_for_platform_interruption(now);
                    self.resume_after_transient_loss = self.resume_after_transient_loss
                        || was_active;
                    self.has_focus = false;
                    false
                } else {
                    false
                }
            },
        }
    }
}

/// Whether a command makes a sound where there was none, so that the right to it is needed.
pub open spec fn starts_sound(command: AppCommand, state: PlaybackState) -> bool {
    match command {
        AppCommand::Play => state is Paused || state is Seeking,
        AppCommand::TogglePlayback => state is Paused,
        _ => false,
    }
}

pub fn starts_playback(command: &AppCommand, state: &PlaybackState) -> (starts: bool)
    ensures
        starts == starts_sound(*command, *state),
{
    match command {
        AppCommand::Play => matches!(state, PlaybackState::Paused | PlaybackState::Seeking),
        AppCommand::TogglePlayback => matches!(state, PlaybackState::Paused),
        _ => false,
    }
}

/// Playback that was stopped for a while goes on as soon as the right comes back, and not
/// otherwise.
pub proof fn transient_loss_is_made_up_for(focus: AndroidMediaFocus, change: i32, was_active: bool)
    requires
        focus.wf(),
        focus.request_active,
        !focus.resume_after_transient_loss,
        is_transient(change),
    ensures
        ({
            let lost = focus.informed(AndroidMediaEvent::AudioFocusChange(change), was_active);
            let back = AndroidMediaEvent::AudioFocusChange(AUDIOFOCUS_GAIN);
            &&& lost.resumes(back) == was_active
            &&& lost.informed(back, false).has_focus
            &&& !lost.informed(back, false).resume_after_transient_loss
        }),
{
}

/// After the right is lost for good, or the headphones are gone, playback does not go on by
/// itself.
pub proof fn final_loss_ends_the_wait(focus: AndroidMediaFocus, event: AndroidMediaEvent, was_active: bool, next: AndroidMediaEvent)
    requires
        focus.gives_back(event) || event == AndroidMediaEvent::BecomingNoisy,
    ensures
        !focus.informed(event, was_active).resumes(next),
{
}

/// What Android says of a right that was not asked for changes nothing.
pub proof fn stale_changes_are_ignored(focus: AndroidMediaFocus, change: i32, was_active: bool)
    requires
        !focus.request_active,
    ensures
        focus.informed(AndroidMediaEvent::AudioFocusChange(change), was_active) == focus,
        !focus.stops(AndroidMediaEvent::AudioFocusChange(change)),
        !focus.resumes(AndroidMediaEvent::AudioFocusChange(change)),
{
}

/// Sound stops when the right to it is lost, for good or for a while, and when the headphones
/// are pulled out. It goes on when the right comes back, if it was playing when it was lost for
/// a while; a right that is lost for good is given back.
pub proof fn sound_stops_when_the_right_is_lost(focus: AndroidMediaFocus, change: i32)
    requires
        focus.request_active,
    ensures
        focus.stops(AndroidMediaEvent::AudioFocusChange(change)) <==> change == -1 || change == -2
            || change == -3,
        focus.resumes(AndroidMediaEvent::AudioFocusChange(change)) <==> change == 1
            && focus.resume_after_transient_loss,
        focus.gives_back(AndroidMediaEvent::AudioFocusChange(change)) <==> change == -1,
        focus.stops(AndroidMediaEvent::BecomingNoisy),
        focus.gives_back(AndroidMediaEvent::BecomingNoisy),
        !focus.resumes(AndroidMediaEvent::BecomingNoisy),
{
}

/// The right to sound is there once it was granted or has come back, and not while it is
/// lost; it is asked for no more than once at a time.
pub proof fn right_to_sound_is_kept_track_of(
    focus: AndroidMediaFocus,
    change: i32,
    granted: bool,
    was_active: bool,
)
    ensures
        !focus.request_active && granted ==> focus.asked(granted).request_active && focus.asked(
            granted,
        ).has_focus,
        focus.request_active || !granted ==> focus.asked(granted) == focus,
        focus.request_active && change == 1 ==> focus.informed(
            AndroidMediaEvent::AudioFocusChange(change),
            was_active,
        ).has_focus,
        focus.request_active && (change == -1 || change == -2 || change == -3) ==> !focus.informed(
            AndroidMediaEvent::AudioFocusChange(change),
            was_active,
        ).has_focus,
        focus.request_active && change == -1 ==> !focus.informed(
            AndroidMediaEvent::AudioFocusChange(change),
            was_active,
        ).request_active,
        focus.request_active && (change == -2 || change == -3) ==> focus.informed(
            AndroidMediaEvent::AudioFocusChange(change),
            was_active,
        ).resume_after_transient_loss == (focus.resume_after_transient_loss || was_active),
        !focus.informed(AndroidMediaEvent::BecomingNoisy, was_active).request_active,
{
}

/// The right to sound is needed while a video plays, and is of no use once it neither plays,
/// nor seeks with it, nor waits to go on.
pub proof fn right_to_sound_is_needed_while_playing(focus: AndroidMediaFocus, state: PlaybackState)
    ensures
        focus.must_ask(state) <==> state is Playing && !focus.request_active,
        state is Playing ==> !focus.is_useless(state),
        state is Seeking ==> focus.is_useless(state) == !focus.request_active,
        state is Paused ==> focus.is_useless(state) == !focus.resume_after_transient_loss,
        state is Ended || state is Error || state is Loading || state is Buffering
            ==> focus.is_useless(state),
        starts_sound(AppCommand::Play, state) <==> state is Paused || state is Seeking,
        starts_sound(AppCommand::TogglePlayback, state) <==> state is Paused,
        !starts_sound(AppCommand::Pause, state),
{
}

} // verus!
