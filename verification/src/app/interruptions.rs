//! Pauses that the platform imposes: a call comes in, headphones are pulled out, another
//! application takes the sound.

use crate::app::state::{App, AppState};
use crate::model::PlaybackState;
use crate::time::Instant;
use vstd::prelude::*;

verus! {

impl App {
    /// The state once playback was interrupted. What stands still is left as it is.
    #[verifier::opaque]
    pub open spec fn interrupted(self, now: Instant) -> Self {
        if self.playback.wants_to_play() {
            App { playback: self.playback.paused(now), ..self }.session_flushed(now)
        } else {
            self
        }
    }

    /// The state once an interruption is over.
    pub open spec fn uninterrupted(self, now: Instant) -> Self {
        if self.has_video() && self.playback.state() is Paused {
            App { playback: self.playback.played(now), ..self }
        } else {
            self
        }
    }

    /// The state once the player is out of sight: paused, and with everything written down.
    #[verifier::opaque]
    pub open spec fn backgrounded(self, now: Instant) -> Self {
        self.interrupted(now).session_flushed(now).save_forced(now)
    }
}

impl AppState {
    /// Pauses because the platform asks for it; whether there was anything to pause.
    pub fn pause_for_platform_interruption(&mut self, now: Instant) -> (was_active: bool)
        ensures
            was_active == old(self)@.playback.wants_to_play(),
            final(self)@ == old(self)@.interrupted(now),
            old(self).wf() ==> final(self).wf(),
    {
        proof {
            reveal(App::interrupted);
        }
        if !self.playback.intends_playing() {
            return false;
        }
        self.playback.pause(now);
        self.flush_local_session(now);
        true
    }

    /// Plays on after an interruption.
    pub fn resume_after_platform_interruption(&mut self, now: Instant)
        ensures
            final(self)@ == old(self)@.uninterrupted(now),
            old(self).wf() ==> final(self).wf(),
    {
        if self.has_video() && matches!(self.playback.state(), PlaybackState::Paused) {
            self.playback.play(now);
        }
    }

    /// Pauses because the player is out of sight, and writes everything down.
    pub fn pause_for_background(&mut self, now: Instant)
        ensures
            final(self)@ == old(self)@.backgrounded(now),
            old(self).wf() ==> final(self).wf(),
    {
        proof {
            reveal(App::backgrounded);
        }
        let _ = self.pause_for_platform_interruption(now);
        self.flush_persistence_for_background(now);
    }
}

} // verus!
