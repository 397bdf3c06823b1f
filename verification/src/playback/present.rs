//! Finding the frame to show: late frames go, and the player takes in what the decoder has
//! sent whenever there is room again.

use crate::playback::engine::{AudioLevels, MediaFrame, OxidePlayback, Playback};
use crate::playback::frames;
use crate::time::Instant;
use vstd::prelude::*;

verus! {

/// How far the search for a frame has come.
#[derive(Clone, Copy, Debug, PartialEq, Eq, Structural)]
pub enum Presentation {
    Begin,
    /// The time stamp that is due.
    Search(i64),
    Shown(MediaFrame),
}

/// What comes next: to take in what the decoder has sent and then go on, or to show a frame,
/// or none.
#[derive(Clone, Copy, Debug, PartialEq, Eq, Structural)]
pub enum PresentStep {
    TakeIn(Presentation),
    Done(Option<MediaFrame>),
}

impl Playback {
    /// A step of the search for the frame at `due`. A frame that a later one has overtaken is
    /// dropped; otherwise the frame at the front is shown if it is due.
    pub open spec fn searched(self, due: i64) -> (PresentStep, Playback) {
        if frames::front_is_stale(self.queue, due) {
            (
                PresentStep::TakeIn(Presentation::Search(due)),
                Playback {
                    core: self.core.with_dropped(1),
                    queue: self.queue.drop_first(),
                    ..self
                },
            )
        } else {
            let (frame, after) = self.presented(due);
            match frame {
                Some(frame) => (PresentStep::TakeIn(Presentation::Shown(frame)), after),
                None => (PresentStep::Done(None), after),
            }
        }
    }

    /// A step of the search, and the playback after it.
    pub open spec fn present_step(self, phase: Presentation, levels: AudioLevels, now: Instant) -> (
        PresentStep,
        Playback,
    ) {
        match phase {
            Presentation::Begin => {
                let (due, begun) = self.rebuffered(now, levels).starved(now).presentation_begun(now);
                match due {
                    Some(due) => begun.searched(due),
                    None => (PresentStep::Done(None), begun),
                }
            },
            Presentation::Search(due) => self.searched(due),
            Presentation::Shown(frame) => (PresentStep::Done(Some(frame)), self.starved(now)),
        }
    }
}

impl OxidePlayback {
    fn search(&mut self, due: i64) -> (step: PresentStep)
        ensures
            ({
                let (s, after) = old(self)@.searched(due);
                step == s && final(self)@ == after
            }),
    {
        if self.drop_stale_frame(due) {
            return PresentStep::TakeIn(Presentation::Search(due));
        }
        match self.present_frame(due) {
            Some(frame) => PresentStep::TakeIn(Presentation::Shown(frame)),
            None => PresentStep::Done(None),
        }
    }

    /// Goes a step on towards the frame that is due at `now`.
    pub fn take_due_frame_at(&mut self, phase: Presentation, levels: AudioLevels, now: Instant) -> (
    step: PresentStep)
        ensures
            ({
                let (s, after) = old(self)@.present_step(phase, levels, now);
                step == s && final(self)@ == after
            }),
    {
        match phase {
            Presentation::Begin => {
                self.resume_from_buffering_if_ready(now, levels);
                self.note_or_enter_buffering(now);
                match self.begin_presentation(now) {
                    Some(due) => self.search(due),
                    None => PresentStep::Done(None),
                }
            },
            Presentation::Search(due) => self.search(due),
            Presentation::Shown(frame) => {
                self.note_or_enter_buffering(now);
                PresentStep::Done(Some(frame))
            },
        }
    }
}

/// A frame is shown only when it is due, and only if the one after it is not due as well.
pub proof fn shown_frame_is_the_latest_due(playback: Playback, due: i64, frame: MediaFrame)
    requires
        playback.searched(due).0 == PresentStep::TakeIn(Presentation::Shown(frame)),
    ensures
        frame == playback.queue[0],
        frame.pts is Some,
        frame.pts.unwrap() <= due,
        playback.queue.len() >= 2 && playback.queue[1].pts is Some ==> playback.queue[1].pts.unwrap()
            > due,
{
}

/// Every step that goes on searching takes a frame out of the queue.
pub proof fn search_shortens_the_queue(playback: Playback, due: i64)
    ensures
        playback.searched(due).0 is TakeIn ==> playback.searched(due).1.queue
            == playback.queue.drop_first() && playback.queue.len() > 0,
{
}

} // verus!
