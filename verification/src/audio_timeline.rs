//! The PCM timeline: decoded audio placed by presentation time stamp in a bounded
//! ring, and read out block by block with silence wherever nothing was decoded.
//!
//! Time stamps count sample frames; a sample frame holds one sample per channel.

use crate::ring;
use crate::ring::SampleRing;
use crate::text;
use vstd::arithmetic::div_mod::*;
use vstd::arithmetic::mul::*;
use vstd::prelude::*;
use vstd::string::*;

verus! {

/// What became of a frame handed to the timeline.
#[derive(Clone, Copy, Debug, PartialEq, Eq, Structural)]
pub enum QueueResult {
    Queued,
    Dropped,
    Deferred,
}

/// Why a frame was refused.
#[derive(Clone, Copy, Debug, PartialEq, Eq, Structural)]
pub enum QueueError {
    FrameTooLarge,
    FrameSizeOverflow,
    SampleCount { actual: usize, expected: usize },
    DurationOutOfRange,
    EndOverflow,
    ExceedsCapacity { usable: u64, capacity: usize },
    GapOutOfRange,
}

/// What one block of output was made of, in sample frames.
#[derive(Clone, Copy, Debug, PartialEq, Eq, Structural)]
pub struct FillStats {
    pub output_frames: u64,
    pub copied_frames: u64,
    pub silence_frames: u64,
    pub discarded_frames: u64,
}

impl Default for FillStats {
    fn default() -> (stats: Self)
        ensures
            stats == (FillStats {
                output_frames: 0,
                copied_frames: 0,
                silence_frames: 0,
                discarded_frames: 0,
            }),
    {
        FillStats { output_frames: 0, copied_frames: 0, silence_frames: 0, discarded_frames: 0 }
    }
}

/// The positions that the decoding side and the output side agree on.
#[derive(Clone, Copy, Debug, PartialEq, Eq, Structural)]
pub struct SharedTimeline {
    pub initialised: bool,
    pub origin_pts: i64,
    pub ring_start_pts: i64,
    pub next_output_pts: i64,
}

impl SharedTimeline {
    /// The state of a timeline that starts at `pts`.
    pub open spec fn starting_at(pts: i64) -> Self {
        SharedTimeline {
            initialised: true,
            origin_pts: pts,
            ring_start_pts: pts,
            next_output_pts: pts,
        }
    }

    pub fn new() -> (shared: Self)
        ensures
            shared == (SharedTimeline {
                initialised: false,
                origin_pts: 0,
                ring_start_pts: 0,
                next_output_pts: 0,
            }),
    {
        SharedTimeline { initialised: false, origin_pts: 0, ring_start_pts: 0, next_output_pts: 0 }
    }

    pub fn initialise(&mut self, pts: i64)
        ensures
            *final(self) == Self::starting_at(pts),
    {
        self.origin_pts = pts;
        self.ring_start_pts = pts;
        self.next_output_pts = pts;
        self.initialised = true;
    }

    pub fn is_initialised(&self) -> (initialised: bool)
        ensures
            initialised == self.initialised,
    {
        self.initialised
    }

    pub fn origin_pts(&self) -> (pts: Option<i64>)
        ensures
            pts == (if self.initialised { Some(self.origin_pts) } else { None }),
    {
        if self.initialised { Some(self.origin_pts) } else { None }
    }

    pub fn ring_start_pts(&self) -> (pts: Option<i64>)
        ensures
            pts == (if self.initialised { Some(self.ring_start_pts) } else { None }),
    {
        if self.initialised { Some(self.ring_start_pts) } else { None }
    }

    pub fn next_output_pts(&self) -> (pts: Option<i64>)
        ensures
            pts == (if self.initialised { Some(self.next_output_pts) } else { None }),
    {
        if self.initialised { Some(self.next_output_pts) } else { None }
    }
}

/// `count` samples of silence.
pub open spec fn silence(count: nat) -> Seq<u32> {
    Seq::new(count, |i: int| 0u32)
}

/// Addition that stops at the largest time stamp.
pub open spec fn pts_after(pts: int, frames: int) -> int {
    if pts + frames > i64::MAX { i64::MAX as int } else { pts + frames }
}

/// A timeline as values: `samples` holds the queued audio, oldest first, and starts at
/// `shared.ring_start_pts`; `end` is the time stamp at which the next frame is expected.
pub struct Timeline {
    pub channels: nat,
    pub capacity: nat,
    pub shared: SharedTimeline,
    pub end: Option<i64>,
    pub samples: Seq<u32>,
}

impl Timeline {
    /// The number of queued sample frames.
    pub open spec fn queued(self) -> nat {
        self.samples.len() / self.channels
    }

    /// Whole sample frames within the capacity, none before the timeline has started.
    pub open spec fn valid(self) -> bool {
        &&& self.channels >= 1
        &&& self.capacity >= 1
        &&& self.samples.len() == self.queued() * self.channels
        &&& self.queued() <= self.capacity
        &&& self.shared.initialised == (self.end is Some)
        &&& !self.shared.initialised ==> self.samples.len() == 0
    }

    /// Queued audio runs without a hole from the ring start to the expected end.
    pub open spec fn contiguous(self) -> bool {
        self.queued() > 0 ==> self.end == Some((self.shared.ring_start_pts + self.queued()) as i64)
            && self.shared.ring_start_pts + self.queued() <= i64::MAX
    }

    /// Whether audio is queued for the time stamp `pts`.
    pub open spec fn holds(self, pts: int) -> bool {
        self.queued() > 0 && self.shared.ring_start_pts <= pts < self.end.unwrap()
    }

    /// What is to be heard in a channel at the time stamp `pts`: the audio that is queued for
    /// it, or silence.
    pub open spec fn heard(self, pts: int, channel: int) -> u32 {
        if self.holds(pts) {
            self.samples[(pts - self.shared.ring_start_pts) * self.channels + channel]
        } else {
            0
        }
    }

    /// The timeline once it is ready for a frame: it starts at the first frame's time
    /// stamp, and after an underflow it goes on at the next output position.
    pub open spec fn anchored(self, pts: Option<i64>) -> Timeline {
        if !self.shared.initialised {
            let first: i64 = match pts { Some(p) => p, None => 0 };
            Timeline { shared: SharedTimeline::starting_at(first), end: Some(first), ..self }
        } else if self.queued() == 0 {
            let next = self.shared.next_output_pts;
            Timeline {
                shared: SharedTimeline { ring_start_pts: next, ..self.shared },
                end: Some(next),
                ..self
            }
        } else {
            self
        }
    }

    /// Where a frame starts on an anchored timeline: at its time stamp, or where audio is
    /// expected next.
    pub open spec fn frame_start(self, pts: Option<i64>) -> int {
        match pts { Some(p) => p as int, None => self.end.unwrap() as int }
    }

    /// How many leading sample frames of a frame at `start` are already covered.
    pub open spec fn overlap(self, start: int) -> int {
        if start < self.end.unwrap() { self.end.unwrap() - start } else { 0 }
    }

    /// How much silence stands between the expected end and a frame at `start`.
    pub open spec fn gap(self, start: int) -> int {
        if start > self.end.unwrap() { start - self.end.unwrap() } else { 0 }
    }

    /// The timeline with `frames` of audio appended.
    pub open spec fn appended(self, samples: Seq<u32>, frames: int) -> Timeline {
        Timeline {
            samples: self.samples + samples,
            end: Some((self.end.unwrap() + frames) as i64),
            ..self
        }
    }

    /// The timeline with as much of a gap filled by silence as fits.
    pub open spec fn padded(self, gap: int) -> Timeline {
        let frames = vstd::math::min(gap, self.capacity - self.queued());
        self.appended(silence((frames * self.channels) as nat), frames)
    }
}

/// The error for a frame whose size is wrong in itself, if any.
pub open spec fn size_error(t: Timeline, frames: u64, len: nat) -> Option<QueueError> {
    if frames > usize::MAX {
        Some(QueueError::FrameTooLarge)
    } else if frames * t.channels > usize::MAX {
        Some(QueueError::FrameSizeOverflow)
    } else if len != frames * t.channels {
        Some(
            QueueError::SampleCount {
                actual: len as usize,
                expected: (frames * t.channels) as usize,
            },
        )
    } else {
        None
    }
}

/// The error for a frame that cannot be placed on the anchored timeline `t`, if any.
pub open spec fn placement_error(t: Timeline, pts: Option<i64>, frames: u64) -> Option<QueueError> {
    let start = t.frame_start(pts);
    if frames > i64::MAX {
        Some(QueueError::DurationOutOfRange)
    } else if start + frames > i64::MAX {
        Some(QueueError::EndOverflow)
    } else if start + frames <= t.end.unwrap() {
        None
    } else if frames - t.overlap(start) > t.capacity {
        Some(
            QueueError::ExceedsCapacity {
                usable: (frames - t.overlap(start)) as u64,
                capacity: t.capacity as usize,
            },
        )
    } else if t.gap(start) > i64::MAX || t.gap(start) > usize::MAX {
        Some(QueueError::GapOutOfRange)
    } else {
        None
    }
}

/// What becomes of a frame of the right size on the anchored timeline `t`, and the
/// timeline after it. A frame that is already covered is dropped. A gap before a frame
/// is padded with silence as far as the ring allows. The part of the frame that is not
/// yet covered is queued whole, or the frame is deferred.
pub open spec fn placed(
    t: Timeline,
    pts: Option<i64>,
    frames: u64,
    samples: Seq<u32>,
) -> (QueueResult, Timeline) {
    let start = t.frame_start(pts);
    let usable = frames - t.overlap(start);
    let p = t.padded(t.gap(start));
    if start + frames <= t.end.unwrap() {
        (QueueResult::Dropped, t)
    } else if t.gap(start) > t.capacity - t.queued() || usable > t.capacity - p.queued() {
        (QueueResult::Deferred, p)
    } else if usable == 0 {
        (QueueResult::Dropped, p)
    } else {
        (
            QueueResult::Queued,
            p.appended(samples.skip(t.overlap(start) * t.channels), usable),
        )
    }
}

/// The result of queueing a frame.
pub open spec fn queue_outcome(
    t: Timeline,
    pts: Option<i64>,
    frames: u64,
    samples: Seq<u32>,
) -> Result<QueueResult, QueueError> {
    match size_error(t, frames, samples.len()) {
        Some(error) => Err(error),
        None => match placement_error(t.anchored(pts), pts, frames) {
            Some(error) => Err(error),
            None => Ok(placed(t.anchored(pts), pts, frames, samples).0),
        },
    }
}

/// The timeline after queueing a frame.
pub open spec fn after_queue(
    t: Timeline,
    pts: Option<i64>,
    frames: u64,
    samples: Seq<u32>,
) -> Timeline {
    if size_error(t, frames, samples.len()) is Some {
        t
    } else if placement_error(t.anchored(pts), pts, frames) is Some {
        t.anchored(pts)
    } else {
        placed(t.anchored(pts), pts, frames, samples).1
    }
}

/// How a block of output is put together, in sample frames: what has been missed is
/// discarded, silence leads up to the ring start, queued audio is copied, and silence
/// fills the rest.
pub struct FillPlan {
    pub discarded: int,
    pub lead: int,
    pub copied: int,
    pub tail: int,
}

/// The plan for `requested` sample frames at the next output position.
pub open spec fn fill_plan(t: Timeline, requested: int) -> FillPlan {
    let start = t.shared.ring_start_pts as int;
    let next = t.shared.next_output_pts as int;
    let discarded = if start < next { vstd::math::min(next - start, t.queued() as int) } else { 0 };
    let left = t.queued() - discarded;
    let lead = if left > 0 && start > next { vstd::math::min(start - next, requested) } else { 0 };
    let copied = vstd::math::min(left, requested - lead);
    FillPlan { discarded, lead, copied, tail: requested - lead - copied }
}

/// The samples that a block of `requested` sample frames holds.
pub open spec fn fill_output(t: Timeline, requested: int) -> Seq<u32> {
    if requested == 0 || !t.shared.initialised {
        silence((requested * t.channels) as nat)
    } else {
        let plan = fill_plan(t, requested);
        silence((plan.lead * t.channels) as nat) + t.samples.subrange(
            plan.discarded * t.channels,
            (plan.discarded + plan.copied) * t.channels,
        ) + silence((plan.tail * t.channels) as nat)
    }
}

/// What a block of `requested` sample frames is made of.
pub open spec fn fill_stats(t: Timeline, requested: int) -> FillStats {
    if requested == 0 {
        FillStats { output_frames: 0, copied_frames: 0, silence_frames: 0, discarded_frames: 0 }
    } else if !t.shared.initialised {
        FillStats {
            output_frames: requested as u64,
            copied_frames: 0,
            silence_frames: requested as u64,
            discarded_frames: 0,
        }
    } else {
        let plan = fill_plan(t, requested);
        FillStats {
            output_frames: requested as u64,
            copied_frames: plan.copied as u64,
            silence_frames: (plan.lead + plan.tail) as u64,
            discarded_frames: plan.discarded as u64,
        }
    }
}

/// The timeline after a block of `requested` sample frames.
pub open spec fn after_fill(t: Timeline, requested: int) -> Timeline {
    if requested == 0 || !t.shared.initialised {
        t
    } else {
        let plan = fill_plan(t, requested);
        let start = if plan.copied > 0 {
            pts_after(t.shared.next_output_pts + plan.lead, plan.copied)
        } else {
            t.shared.ring_start_pts + plan.discarded
        };
        Timeline {
            shared: SharedTimeline {
                ring_start_pts: start as i64,
                next_output_pts: pts_after(t.shared.next_output_pts as int, requested) as i64,
                ..t.shared
            },
            samples: t.samples.skip((plan.discarded + plan.copied) * t.channels),
            ..t
        }
    }
}

fn advance(pts: i64, frames: usize) -> (after: i64)
    ensures
        after == pts_after(pts as int, frames as int),
{
    let sum: i128 = pts as i128 + frames as i128;
    if sum > i64::MAX as i128 { i64::MAX } else { sum as i64 }
}

/// Writes silence to `out[start..end]`.
fn write_silence(out: &mut [u32], start: usize, end: usize)
    requires
        start <= end <= old(out)@.len(),
    ensures
        final(out)@ == old(out)@.take(start as int) + silence((end - start) as nat)
            + old(out)@.skip(end as int),
{
    let mut i: usize = start;
    while i < end
        invariant
            start <= i <= end <= out@.len(),
            out@.len() == old(out)@.len(),
            out@ =~= old(out)@.take(start as int) + silence((i - start) as nat) + old(out)@.skip(
                i as int,
            ),
        decreases end - i,
    {
        out[i] = 0;
        i += 1;
    }
}

/// Fills `out` with `lead` samples of silence, the `copied` oldest samples of the ring and
/// silence to the end.
fn write_block(ring: &mut SampleRing, out: &mut [u32], lead: usize, copied: usize)
    requires
        lead + copied <= old(out)@.len(),
        copied <= ring::ring_samples(*old(ring)).len(),
    ensures
        final(out)@.len() == old(out)@.len(),
        final(out)@ == silence(lead as nat) + ring::ring_samples(*old(ring)).take(copied as int)
            + silence((old(out)@.len() - lead - copied) as nat),
        ring::ring_samples(*final(ring)) == ring::ring_samples(*old(ring)).skip(copied as int),
        ring::ring_capacity(*final(ring)) == ring::ring_capacity(*old(ring)),
{
    let total: usize = out.len();
    let ghost before = out@;
    write_silence(out, 0, lead);
    assert(out@ =~= silence(lead as nat) + before.skip(lead as int));
    let popped = ring::ring_pop(ring, out, lead, lead + copied);
    assert(popped == copied);
    assert(out@ =~= silence(lead as nat) + ring::ring_samples(*old(ring)).take(copied as int)
        + before.skip(lead + copied));
    write_silence(out, lead + copied, total);
    assert(out@ =~= silence(lead as nat) + ring::ring_samples(*old(ring)).take(copied as int)
        + silence((total - lead - copied) as nat));
}

proof fn frames_of_samples(frames: nat, channels: nat)
    requires
        channels >= 1,
    ensures
        (frames * channels) / channels == frames,
{
    lemma_div_multiples_vanish(frames as int, channels as int);
    assert(frames * channels == channels * frames) by (nonlinear_arith);
}

/// The parts of a plan are non-negative and add up, in sample frames and in samples.
proof fn fill_plan_bounds(t: Timeline, requested: int)
    requires
        t.valid(),
        requested > 0,
    ensures
        ({
            let plan = fill_plan(t, requested);
            let c = t.channels as int;
            &&& 0 <= plan.discarded && 0 <= plan.lead && 0 <= plan.copied && 0 <= plan.tail
            &&& plan.lead + plan.copied + plan.tail == requested
            &&& plan.discarded + plan.copied <= t.queued()
            &&& 0 <= plan.discarded * c && 0 <= plan.lead * c && 0 <= plan.copied * c
            &&& plan.tail * c == requested * c - plan.lead * c - plan.copied * c
            &&& plan.lead * c + plan.copied * c <= requested * c
            &&& (plan.discarded + plan.copied) * c == plan.discarded * c + plan.copied * c
            &&& plan.discarded * c + plan.copied * c <= t.samples.len()
            &&& t.samples.len() - (plan.discarded + plan.copied) * c == (t.queued() - plan.discarded
                - plan.copied) * c
            &&& ((t.queued() - plan.discarded - plan.copied) * c) / c == t.queued() - plan.discarded
                - plan.copied
            &&& t.samples.len() <= t.capacity * c
        }),
{
    let plan = fill_plan(t, requested);
    let c = t.channels as int;
    let q = t.queued() as int;
    let kept = q - plan.discarded - plan.copied;
    assert(0 <= plan.discarded * c && 0 <= plan.lead * c && 0 <= plan.copied * c && 0 <= plan.tail * c
        && 0 <= kept * c) by (nonlinear_arith)
        requires
            c >= 1,
            plan.discarded >= 0,
            plan.lead >= 0,
            plan.copied >= 0,
            plan.tail >= 0,
            kept >= 0,
    ;
    lemma_mul_is_distributive_add_other_way(c, plan.discarded, plan.copied);
    lemma_mul_is_distributive_add_other_way(c, plan.discarded + plan.copied, kept);
    lemma_mul_is_distributive_add_other_way(c, plan.lead, plan.copied);
    lemma_mul_is_distributive_add_other_way(c, plan.lead + plan.copied, plan.tail);
    lemma_mul_inequality(q, t.capacity as int, c);
    frames_of_samples(kept as nat, t.channels);
}

impl QueueError {
    /// What the error says.
    pub open spec fn text(self) -> Seq<char> {
        match self {
            QueueError::FrameTooLarge => "decoded audio frame is too large for this platform"@,
            QueueError::FrameSizeOverflow => "decoded audio frame size overflow"@,
            QueueError::SampleCount { actual, expected } => "decoded audio has "@ + text::decimal(
                actual as nat,
            ) + " interleaved samples, expected "@ + text::decimal(expected as nat),
            QueueError::DurationOutOfRange => "decoded audio frame duration exceeds PTS range"@,
            QueueError::EndOverflow => "decoded audio frame end PTS overflow"@,
            QueueError::ExceedsCapacity { usable, capacity } => "decoded audio frame has "@
                + text::decimal(usable as nat) + " usable samples but ring capacity is "@ + text::decimal(
                capacity as nat,
            ),
            QueueError::GapOutOfRange => "decoded audio gap exceeds supported range"@,
        }
    }

    pub fn message(&self) -> (message: String)
        ensures
            message@ == self.text(),
    {
        match *self {
            QueueError::FrameTooLarge => "decoded audio frame is too large for this platform".to_owned(),
            QueueError::FrameSizeOverflow => "decoded audio frame size overflow".to_owned(),
            QueueError::SampleCount { actual, expected } => {
                let mut message = "decoded audio has ".to_owned();
                text::push_decimal(&mut message, actual as u64);
                message.append(" interleaved samples, expected ");
                text::push_decimal(&mut message, expected as u64);
                message
            },
            QueueError::DurationOutOfRange => "decoded audio frame duration exceeds PTS range".to_owned(),
            QueueError::EndOverflow => "decoded audio frame end PTS overflow".to_owned(),
            QueueError::ExceedsCapacity { usable, capacity } => {
                let mut message = "decoded audio frame has ".to_owned();
                text::push_decimal(&mut message, usable);
                message.append(" usable samples but ring capacity is ");
                text::push_decimal(&mut message, capacity as u64);
                message
            },
            QueueError::GapOutOfRange => "decoded audio gap exceeds supported range".to_owned(),
        }
    }
}

/// A ring of PCM samples on a timeline of sample frames.
pub struct PcmTimeline {
    pub shared: SharedTimeline,
    ring: SampleRing,
    channels: usize,
    capacity_frames: usize,
    write_end_pts: Option<i64>,
}

impl View for PcmTimeline {
    type V = Timeline;

    closed spec fn view(&self) -> Timeline {
        Timeline {
            channels: self.channels as nat,
            capacity: self.capacity_frames as nat,
            shared: self.shared,
            end: self.write_end_pts,
            samples: ring::ring_samples(self.ring),
        }
    }
}

/// An empty timeline for `capacity_frames` sample frames of `channels` samples each; both
/// count as at least one.
pub fn pcm_timeline_ring(capacity_frames: usize, channels: u16) -> (timeline: PcmTimeline)
    requires
        4 * vstd::math::max(capacity_frames as int, 1) * vstd::math::max(channels as int, 1)
            <= isize::MAX,
    ensures
        timeline.wf(),
        timeline@ == (Timeline {
            channels: vstd::math::max(channels as int, 1) as nat,
            capacity: vstd::math::max(capacity_frames as int, 1) as nat,
            shared: SharedTimeline {
                initialised: false,
                origin_pts: 0,
                ring_start_pts: 0,
                next_output_pts: 0,
            },
            end: None,
            samples: Seq::empty(),
        }),
{
    let channels: usize = if channels < 1 { 1 } else { channels as usize };
    let capacity_frames: usize = if capacity_frames < 1 { 1 } else { capacity_frames };
    assert(capacity_frames * channels <= isize::MAX && 1 <= capacity_frames * channels && 4
        * (capacity_frames * channels) <= isize::MAX) by (nonlinear_arith)
        requires
            4 * (capacity_frames as int) * (channels as int) <= isize::MAX,
            capacity_frames >= 1,
            channels >= 1,
    ;
    let ring = ring::new_ring(capacity_frames * channels);
    proof {
        frames_of_samples(0, channels as nat);
    }
    PcmTimeline {
        shared: SharedTimeline::new(),
        ring,
        channels,
        capacity_frames,
        write_end_pts: None,
    }
}

impl PcmTimeline {
    /// The ring is as large as the timeline's capacity, and its contents are valid.
    pub closed spec fn wf(&self) -> bool {
        &&& self@.valid()
        &&& ring::ring_capacity(self.ring) == self.capacity_frames * self.channels
        &&& self.capacity_frames * self.channels <= usize::MAX
    }

    /// What a well-formed timeline is as values is valid.
    pub proof fn well_formed_is_valid(&self)
        requires
            self.wf(),
        ensures
            self@.valid(),
    {
    }

    pub fn queued_frames(&self) -> (frames: usize)
        requires
            self.wf(),
        ensures
            frames == self@.queued(),
    {
        ring::ring_len(&self.ring) / self.channels
    }

    pub fn vacant_frames(&self) -> (frames: usize)
        requires
            self.wf(),
        ensures
            frames == self@.capacity - self@.queued(),
    {
        proof {
            let c = self.channels as int;
            lemma_mul_is_distributive_sub_other_way(c, self@.capacity as int, self@.queued() as int);
            frames_of_samples((self@.capacity - self@.queued()) as nat, self@.channels);
        }
        ring::ring_vacant(&self.ring) / self.channels
    }

    pub fn ring_end_pts(&self) -> (pts: Option<i64>)
        ensures
            pts == self@.end,
    {
        self.write_end_pts
    }

    pub fn origin_pts(&self) -> (pts: Option<i64>)
        ensures
            pts == (if self@.shared.initialised { Some(self@.shared.origin_pts) } else { None }),
    {
        self.shared.origin_pts()
    }

    pub fn next_output_pts(&self) -> (pts: Option<i64>)
        ensures
            pts == (if self@.shared.initialised { Some(self@.shared.next_output_pts) } else { None }),
    {
        self.shared.next_output_pts()
    }

    /// Gets the timeline ready for a frame.
    fn anchor(&mut self, frame_pts: Option<i64>)
        requires
            old(self).wf(),
        ensures
            final(self).wf(),
            final(self)@ == old(self)@.anchored(frame_pts),
    {
        if !self.shared.is_initialised() {
            let initial: i64 = match frame_pts {
                Some(pts) => pts,
                None => 0,
            };
            self.shared.initialise(initial);
            self.write_end_pts = Some(initial);
        } else if self.queued_frames() == 0 {
            let next: i64 = self.shared.next_output_pts;
            self.write_end_pts = Some(next);
            self.shared.ring_start_pts = next;
        }
    }

    /// Pads a gap of `gap_frames` with as much silence as fits, and returns how much that
    /// was.
    fn pad_gap(&mut self, gap_frames: usize) -> (padded: usize)
        requires
            old(self).wf(),
            old(self)@.end is Some,
            gap_frames <= i64::MAX,
            old(self)@.end.unwrap() + gap_frames <= i64::MAX,
        ensures
            final(self).wf(),
            final(self)@ == old(self)@.padded(gap_frames as int),
            padded == vstd::math::min(
                gap_frames as int,
                old(self)@.capacity - old(self)@.queued(),
            ),
            final(self)@.queued() == old(self)@.queued() + padded,
    {
        let vacant = self.vacant_frames();
        let to_pad: usize = if gap_frames < vacant { gap_frames } else { vacant };
        let channels = self.channels;
        proof {
            let c = self.channels as int;
            let q = self@.queued() as int;
            lemma_mul_is_distributive_sub_other_way(c, self@.capacity as int, q);
            lemma_mul_is_distributive_add_other_way(c, q, to_pad as int);
            lemma_mul_inequality(to_pad as int, vacant as int, c);
            frames_of_samples((q + to_pad) as nat, self@.channels);
            frames_of_samples(to_pad as nat, self@.channels);
            assert(to_pad * channels >= 0) by (nonlinear_arith);
        }
        if to_pad == 0 {
            assert(self@.samples + silence(0) =~= self@.samples);
            assert(0 * self@.channels == 0);
            return 0;
        }
        let pushed = ring::ring_push_silence(&mut self.ring, to_pad * channels);
        let padded_frames = pushed / channels;
        match self.write_end_pts {
            Some(current_end) => {
                self.write_end_pts = Some(current_end + padded_frames as i64);
            },
            None => {},
        }
        padded_frames
    }

    /// Appends `frames` sample frames of audio, which fit.
    fn append_frames(&mut self, samples: &[u32], frames: usize)
        requires
            old(self).wf(),
            old(self)@.end is Some,
            frames <= i64::MAX,
            old(self)@.end.unwrap() + frames <= i64::MAX,
            samples@.len() == frames * old(self)@.channels,
            frames <= old(self)@.capacity - old(self)@.queued(),
        ensures
            final(self).wf(),
            final(self)@ == old(self)@.appended(samples@, frames as int),
    {
        proof {
            let c = self.channels as int;
            let q = self@.queued() as int;
            lemma_mul_is_distributive_sub_other_way(c, self@.capacity as int, q);
            lemma_mul_is_distributive_add_other_way(c, q, frames as int);
            lemma_mul_inequality(frames as int, self@.capacity - q, c);
            frames_of_samples((q + frames) as nat, self@.channels);
        }
        let pushed = ring::ring_push(&mut self.ring, samples);
        assert(samples@.take(pushed as int) =~= samples@);
        match self.write_end_pts {
            Some(current_end) => {
                self.write_end_pts = Some(current_end + frames as i64);
            },
            None => {},
        }
    }

    /// Places a frame of the right size on an anchored timeline.
    fn place(
        &mut self,
        frame_pts: Option<i64>,
        frame_samples: u64,
        interleaved: &[u32],
    ) -> (result: Result<QueueResult, QueueError>)
        requires
            old(self).wf(),
            old(self)@.end is Some,
            frame_samples <= usize::MAX,
            interleaved@.len() == frame_samples * old(self)@.channels,
        ensures
            final(self).wf(),
            match placement_error(old(self)@, frame_pts, frame_samples) {
                Some(error) => result == Err::<QueueResult, QueueError>(error) && final(self)@ == old(self)@,
                None => {
                    let (outcome, after) = placed(old(self)@, frame_pts, frame_samples, interleaved@);
                    result == Ok::<QueueResult, QueueError>(outcome) && final(self)@ == after
                },
            },
    {
        let expected_end: i64 = self.write_end_pts.unwrap();
        let frame_start: i64 = match frame_pts {
            Some(pts) => pts,
            None => expected_end,
        };
        if frame_samples > i64::MAX as u64 {
            return Err(QueueError::DurationOutOfRange);
        }
        let frame_end: i64 = match frame_start.checked_add(frame_samples as i64) {
            Some(frame_end) => frame_end,
            None => {
                return Err(QueueError::EndOverflow);
            },
        };
        if frame_end <= expected_end {
            return Ok(QueueResult::Dropped);
        }
        let trim_frames: u64 = if frame_start < expected_end {
            (expected_end - frame_start) as u64
        } else {
            0
        };
        let remaining: u64 = frame_samples - trim_frames;
        if remaining > self.capacity_frames as u64 {
            return Err(
                QueueError::ExceedsCapacity { usable: remaining, capacity: self.capacity_frames },
            );
        }
        let ghost t = self@;
        proof {
            assert(t.samples + silence(0) =~= t.samples);
            assert(0 * t.channels == 0);
        }
        if frame_start > expected_end {
            let gap: i128 = frame_start as i128 - expected_end as i128;
            if gap > i64::MAX as i128 || gap > usize::MAX as i128 {
                return Err(QueueError::GapOutOfRange);
            }
            let padded = self.pad_gap(gap as usize);
            if padded < gap as usize {
                return Ok(QueueResult::Deferred);
            }
        }
        if self.vacant_frames() < remaining as usize {
            return Ok(QueueResult::Deferred);
        }
        if remaining == 0 {
            return Ok(QueueResult::Dropped);
        }
        let channels = self.channels;
        let total: usize = interleaved.len();
        proof {
            let c = channels as int;
            lemma_mul_inequality(trim_frames as int, frame_samples as int, c);
            lemma_mul_is_distributive_sub_other_way(c, frame_samples as int, trim_frames as int);
            assert(trim_frames * channels >= 0) by (nonlinear_arith);
        }
        let trim_samples: usize = trim_frames as usize * channels;
        let suffix = vstd::slice::slice_subrange(interleaved, trim_samples, total);
        assert(suffix@ =~= interleaved@.skip(trim_samples as int));
        self.append_frames(suffix, remaining as usize);
        Ok(QueueResult::Queued)
    }

    /// Queues a decoded frame of `frame_samples` sample frames.
    pub fn queue_interleaved(
        &mut self,
        frame_pts: Option<i64>,
        frame_samples: u64,
        interleaved: &[u32],
    ) -> (result: Result<QueueResult, QueueError>)
        requires
            old(self).wf(),
        ensures
            final(self).wf(),
            result == queue_outcome(old(self)@, frame_pts, frame_samples, interleaved@),
            final(self)@ == after_queue(old(self)@, frame_pts, frame_samples, interleaved@),
    {
        if frame_samples > usize::MAX as u64 {
            return Err(QueueError::FrameTooLarge);
        }
        let expected = match (frame_samples as usize).checked_mul(self.channels) {
            Some(expected) => expected,
            None => {
                return Err(QueueError::FrameSizeOverflow);
            },
        };
        if interleaved.len() != expected {
            return Err(QueueError::SampleCount { actual: interleaved.len(), expected });
        }
        self.anchor(frame_pts);
        self.place(frame_pts, frame_samples, interleaved)
    }

    /// Fills a block of whole sample frames with what is to be heard next.
    pub fn fill(&mut self, out: &mut [u32]) -> (stats: FillStats)
        requires
            old(self).wf(),
            old(out)@.len() % old(self)@.channels == 0,
        ensures
            final(self).wf(),
            final(out)@.len() == old(out)@.len(),
            final(out)@ == fill_output(
                old(self)@,
                (old(out)@.len() / old(self)@.channels) as int,
            ),
            stats == fill_stats(old(self)@, (old(out)@.len() / old(self)@.channels) as int),
            final(self)@ == after_fill(
                old(self)@,
                (old(out)@.len() / old(self)@.channels) as int,
            ),
    {
        let channels = self.channels;
        let total: usize = out.len();
        let requested: usize = total / channels;
        let ghost t = self@;
        let ghost c = channels as int;
        proof {
            lemma_fundamental_div_mod(total as int, c);
            assert(requested * c == total) by (nonlinear_arith)
                requires
                    total as int == c * (requested as int),
            ;
        }
        if requested == 0 {
            proof {
                assert(0 * t.channels == 0);
                assert(out@ =~= fill_output(t, 0));
            }
            return FillStats {
                output_frames: 0,
                copied_frames: 0,
                silence_frames: 0,
                discarded_frames: 0,
            };
        }
        if !self.shared.is_initialised() {
            write_silence(out, 0, total);
            assert(out@ =~= silence(total as nat));
            return FillStats {
                output_frames: requested as u64,
                copied_frames: 0,
                silence_frames: requested as u64,
                discarded_frames: 0,
            };
        }
        self.fill_started(out, requested)
    }

    /// Fills a block of `requested` sample frames, at least one, of a timeline that has
    /// started.
    fn fill_started(&mut self, out: &mut [u32], requested: usize) -> (stats: FillStats)
        requires
            old(self).wf(),
            old(self)@.shared.initialised,
            requested > 0,
            old(out)@.len() == requested * old(self)@.channels,
        ensures
            final(self).wf(),
            final(out)@.len() == old(out)@.len(),
            final(out)@ == fill_output(old(self)@, requested as int),
            stats == fill_stats(old(self)@, requested as int),
            final(self)@ == after_fill(old(self)@, requested as int),
    {
        let channels = self.channels;
        let cursor: i64 = self.shared.next_output_pts;
        let ring_start: i64 = self.shared.ring_start_pts;
        let (discarded, lead, copied) = self.fill_counts(requested);
        let total: usize = out.len();
        let ghost t = self@;
        proof {
            fill_plan_bounds(t, requested as int);
            assert(lead * channels <= total);
        }
        ring::ring_skip(&mut self.ring, discarded * channels);
        write_block(&mut self.ring, out, lead * channels, copied * channels);
        proof {
            let c = t.channels as int;
            assert(t.samples.skip(discarded * c).take(copied * c) =~= t.samples.subrange(
                discarded * c,
                (discarded + copied) * c,
            ));
            assert(t.samples.skip(discarded * c).skip(copied * c) =~= t.samples.skip(
                (discarded + copied) * c,
            ));
        }
        if copied > 0 {
            self.shared.ring_start_pts = advance(advance(cursor, lead), copied);
        } else if discarded > 0 {
            self.shared.ring_start_pts = advance(ring_start, discarded);
        }
        self.shared.next_output_pts = advance(cursor, requested);
        FillStats {
            output_frames: requested as u64,
            copied_frames: copied as u64,
            silence_frames: (requested - copied) as u64,
            discarded_frames: discarded as u64,
        }
    }

    /// The sample frames to discard, to keep silent and to copy for a block of `requested`.
    fn fill_counts(&self, requested: usize) -> (counts: (usize, usize, usize))
        requires
            self.wf(),
            requested > 0,
        ensures
            ({
                let plan = fill_plan(self@, requested as int);
                counts.0 == plan.discarded && counts.1 == plan.lead && counts.2 == plan.copied
            }),
    {
        let cursor: i64 = self.shared.next_output_pts;
        let ring_start: i64 = self.shared.ring_start_pts;
        let queued: usize = self.queued_frames();
        let discarded: usize = if ring_start < cursor {
            let missed: i128 = cursor as i128 - ring_start as i128;
            if missed < queued as i128 { missed as usize } else { queued }
        } else {
            0
        };
        let left: usize = queued - discarded;
        let lead: usize = if left > 0 && ring_start > cursor {
            let early: i128 = ring_start as i128 - cursor as i128;
            if early < requested as i128 { early as usize } else { requested }
        } else {
            0
        };
        let room: usize = requested - lead;
        let copied: usize = if left < room { left } else { room };
        (discarded, lead, copied)
    }
}

/// Queueing keeps a timeline valid.
pub proof fn queueing_keeps_the_timeline_valid(
    t: Timeline,
    pts: Option<i64>,
    frames: u64,
    samples: Seq<u32>,
)
    requires
        t.valid(),
    ensures
        after_queue(t, pts, frames, samples).valid(),
        after_queue(t, pts, frames, samples).channels == t.channels,
        after_queue(t, pts, frames, samples).capacity == t.capacity,
{
    if size_error(t, frames, samples.len()) is None {
        let a = t.anchored(pts);
        if placement_error(a, pts, frames) is None {
            placing_appends(a, pts, frames, samples);
        }
    }
}

/// A frame is placed by appending whole sample frames within the capacity.
proof fn placing_appends(a: Timeline, pts: Option<i64>, frames: u64, samples: Seq<u32>)
    requires
        a.valid(),
        a.end is Some,
        samples.len() == frames * a.channels,
        placement_error(a, pts, frames) is None,
    ensures
        ({
            let (outcome, after) = placed(a, pts, frames, samples);
            let start = a.frame_start(pts);
            let padding = vstd::math::min(a.gap(start), a.capacity - a.queued());
            let usable = frames - a.overlap(start);
            &&& after.valid()
            &&& start + frames > a.end.unwrap() ==> a.padded(a.gap(start)).queued() == a.queued()
                + padding
            &&& start + frames > a.end.unwrap() ==> 0 <= padding
            &&& outcome is Queued ==> {
                &&& after.queued() == a.queued() + a.gap(start) + usable
                &&& padding == a.gap(start)
                &&& after.end == Some((start + frames) as i64)
            }
        }),
{
    let start = a.frame_start(pts);
    let c = a.channels as int;
    let q = a.queued() as int;
    if start + frames > a.end.unwrap() {
        let padding = vstd::math::min(a.gap(start), a.capacity - q);
        let usable = frames - a.overlap(start);
        let p = a.padded(a.gap(start));
        assert(padding * c >= 0) by (nonlinear_arith)
            requires c >= 1, padding >= 0;
        lemma_mul_is_distributive_add_other_way(c, q, padding);
        frames_of_samples((q + padding) as nat, a.channels);
        assert(p.valid());
        let trimmed = a.overlap(start);
        assert(usable * c >= 0 && trimmed * c >= 0) by (nonlinear_arith)
            requires c >= 1, usable >= 0, trimmed >= 0;
        lemma_mul_is_distributive_add_other_way(c, trimmed, usable);
        lemma_mul_is_distributive_add_other_way(c, q + padding, usable);
        frames_of_samples((q + padding + usable) as nat, a.channels);
    }
}

/// Queueing keeps the queued audio without a hole: it runs from the ring start to the
/// time stamp at which the next frame is expected.
pub proof fn queueing_keeps_audio_contiguous(
    t: Timeline,
    pts: Option<i64>,
    frames: u64,
    samples: Seq<u32>,
)
    requires
        t.valid(),
        t.contiguous(),
    ensures
        after_queue(t, pts, frames, samples).contiguous(),
{
    if size_error(t, frames, samples.len()) is None {
        let a = t.anchored(pts);
        if placement_error(a, pts, frames) is None {
            placing_appends(a, pts, frames, samples);
        }
    }
}

/// Reading a block keeps a timeline valid and its audio without a hole.
pub proof fn filling_keeps_audio_contiguous(t: Timeline, requested: int)
    requires
        t.valid(),
        requested >= 0,
    ensures
        after_fill(t, requested).valid(),
        t.contiguous() ==> after_fill(t, requested).contiguous(),
{
    if requested > 0 && t.shared.initialised {
        fill_plan_bounds(t, requested);
        let plan = fill_plan(t, requested);
        let after = after_fill(t, requested);
        assert(after.samples.len() == (t.queued() - plan.discarded - plan.copied) * t.channels);
        assert(after.queued() == t.queued() - plan.discarded - plan.copied);
    }
}

/// A block of output always has the requested length, and every sample frame in it is
/// either copied or silent.
pub proof fn filling_accounts_for_every_frame(t: Timeline, requested: int)
    requires
        t.valid(),
        0 <= requested <= u64::MAX,
    ensures
        fill_output(t, requested).len() == requested * t.channels,
        fill_stats(t, requested).output_frames == requested,
        fill_stats(t, requested).copied_frames + fill_stats(t, requested).silence_frames
            == requested,
        t.queued() <= u64::MAX && t.shared.initialised && requested > 0
            ==> after_fill(t, requested).queued() == t.queued() - fill_stats(
            t,
            requested,
        ).copied_frames - fill_stats(t, requested).discarded_frames,
{
    assert(requested * t.channels >= 0) by (nonlinear_arith)
        requires requested >= 0;
    if requested > 0 && t.shared.initialised {
        fill_plan_bounds(t, requested);
    }
}

/// Output never stands still: each block advances the next output position by its length,
/// up to the largest time stamp.
pub proof fn filling_advances_the_output_position(t: Timeline, requested: int)
    requires
        t.valid(),
        t.shared.initialised,
        requested >= 0,
    ensures
        after_fill(t, requested).shared.next_output_pts == pts_after(
            t.shared.next_output_pts as int,
            requested,
        ),
{
}

/// What is read gives back what was queued: a frame that is queued on an empty timeline
/// at the next output position comes out of the next block of its length unchanged.
pub proof fn reading_gives_back_what_was_queued(t: Timeline, frames: u64, samples: Seq<u32>)
    requires
        t.valid(),
        t.queued() == 0,
        0 < frames <= t.capacity,
        frames <= usize::MAX,
        frames * t.channels <= usize::MAX,
        samples.len() == frames * t.channels,
        t.shared.initialised ==> t.shared.next_output_pts + frames <= i64::MAX,
        frames <= i64::MAX,
    ensures
        queue_outcome(t, None, frames, samples) == Ok::<QueueResult, QueueError>(QueueResult::Queued),
        fill_output(after_queue(t, None, frames, samples), frames as int) == samples,
        fill_stats(after_queue(t, None, frames, samples), frames as int) == (FillStats {
            output_frames: frames,
            copied_frames: frames,
            silence_frames: 0,
            discarded_frames: 0,
        }),
{
    let a = t.anchored(None);
    assert(0 * a.channels == 0);
    assert(a.samples =~= Seq::<u32>::empty());
    placing_appends(a, None, frames, samples);
    assert(a.samples + silence(0) =~= a.samples);
    let b = after_queue(t, None, frames, samples);
    assert(b.samples =~= samples);
    fill_plan_bounds(b, frames as int);
    assert(samples.subrange(0, samples.len() as int) =~= samples);
    assert(fill_output(b, frames as int) =~= samples);
}

/// Where a sample lies among those of `frames` sample frames.
proof fn sample_lies_within(frame: int, frames: int, channels: int, channel: int)
    requires
        0 <= frame < frames,
        0 <= channel < channels,
    ensures
        0 <= frame * channels,
        frame * channels + channel < frames * channels,
{
    assert(0 <= frame * channels && frame * channels + channel < frames * channels)
        by (nonlinear_arith)
        requires
            0 <= frame < frames,
            0 <= channel < channels,
    ;
}

/// Every sample frame of a block is the one that is queued for its time stamp, and silence
/// where none is: nothing comes early or late, and what has been missed is not heard.
pub proof fn blocks_hold_what_is_due(t: Timeline, requested: int, i: int, channel: int)
    requires
        t.valid(),
        t.contiguous(),
        t.shared.initialised,
        0 <= i < requested,
        0 <= channel < t.channels,
    ensures
        fill_output(t, requested)[i * t.channels + channel] == t.heard(
            t.shared.next_output_pts + i,
            channel,
        ),
{
    fill_plan_bounds(t, requested);
    let plan = fill_plan(t, requested);
    let c = t.channels as int;
    let at = i * c + channel;
    let audio = t.samples.subrange(plan.discarded * c, (plan.discarded + plan.copied) * c);
    assert(audio.len() == plan.copied * c);
    sample_lies_within(i, requested, c, channel);
    if i < plan.lead {
        sample_lies_within(i, plan.lead, c, channel);
    } else if i < plan.lead + plan.copied {
        let k = i - plan.lead;
        sample_lies_within(k, plan.copied, c, channel);
        lemma_mul_is_distributive_add_other_way(c, plan.lead, k);
        lemma_mul_is_distributive_add_other_way(c, plan.discarded, k);
        assert(fill_output(t, requested)[at] == audio[k * c + channel]);
        assert(t.shared.next_output_pts + i - t.shared.ring_start_pts == plan.discarded + k);
    } else {
        let k = i - plan.lead - plan.copied;
        sample_lies_within(k, plan.tail, c, channel);
        lemma_mul_is_distributive_add_other_way(c, plan.lead, plan.copied);
        lemma_mul_is_distributive_add_other_way(c, plan.lead + plan.copied, k);
        assert(!t.holds(t.shared.next_output_pts + i));
    }
}

/// A frame that is queued is heard at its own time stamps, but for what was covered before
/// it; what was queued before stays as it was, and a gap between them is silent.
pub proof fn queued_frames_are_heard_in_their_time(
    t: Timeline,
    pts: Option<i64>,
    frames: u64,
    samples: Seq<u32>,
    at: int,
    channel: int,
)
    requires
        t.valid(),
        t.contiguous(),
        queue_outcome(t, pts, frames, samples) == Ok::<QueueResult, QueueError>(QueueResult::Queued),
        0 <= channel < t.channels,
    ensures
        ({
            let before = t.anchored(pts);
            let start = before.frame_start(pts);
            after_queue(t, pts, frames, samples).heard(at, channel) == (if at
                < before.end.unwrap() {
                before.heard(at, channel)
            } else if start <= at < start + frames {
                samples[(at - start) * t.channels + channel]
            } else {
                0
            })
        }),
{
    let a = t.anchored(pts);
    let start = a.frame_start(pts);
    let c = a.channels as int;
    let q = a.queued() as int;
    let gap = a.gap(start);
    let overlap = a.overlap(start);
    let usable = frames - overlap;
    let after = after_queue(t, pts, frames, samples);
    placing_appends(a, pts, frames, samples);
    assert(a.shared.ring_start_pts + q == a.end.unwrap());
    sample_lies_within(0, after.queued() as int, c, 0);
    lemma_mul_is_distributive_add_other_way(c, q, gap);
    lemma_mul_is_distributive_add_other_way(c, overlap, usable);
    assert(overlap * c >= 0 && gap * c >= 0 && usable * c >= 0) by (nonlinear_arith)
        requires
            c >= 1,
            overlap >= 0,
            gap >= 0,
            usable >= 0,
    ;
    let quiet = silence((gap * c) as nat);
    let fresh = samples.skip(overlap * c);
    assert(after.samples == a.samples + quiet + fresh);
    let k = at - a.shared.ring_start_pts;
    if after.holds(at) {
        sample_lies_within(k, after.queued() as int, c, channel);
        if k < q {
            sample_lies_within(k, q, c, channel);
        } else if k < q + gap {
            sample_lies_within(k - q, gap, c, channel);
            lemma_mul_is_distributive_add_other_way(c, q, k - q);
        } else {
            let j = k - q - gap;
            sample_lies_within(j, usable, c, channel);
            lemma_mul_is_distributive_add_other_way(c, q + gap, j);
            lemma_mul_is_distributive_add_other_way(c, overlap, j);
            assert(after.samples[k * c + channel] == fresh[j * c + channel]);
            assert(at - start == overlap + j);
        }
    }
}

/// A deferred frame leaves no part of itself behind: the ring gains silence only.
pub proof fn deferring_appends_silence_only(
    t: Timeline,
    pts: Option<i64>,
    frames: u64,
    samples: Seq<u32>,
)
    requires
        t.valid(),
        queue_outcome(t, pts, frames, samples) == Ok::<QueueResult, QueueError>(QueueResult::Deferred),
    ensures
        exists|count: nat|
            after_queue(t, pts, frames, samples).samples == t.samples + #[trigger] silence(count),
{
    let a = t.anchored(pts);
    let start = a.frame_start(pts);
    let padding = vstd::math::min(a.gap(start), a.capacity - a.queued());
    let count = (padding * a.channels) as nat;
    assert(after_queue(t, pts, frames, samples).samples == t.samples + silence(count));
}

/// A frame of sound that follows on what is there is taken in as long as there is room for it
/// and for the silence before it; one that comes too late is dropped, and one there is no room
/// for yet is put off.
pub proof fn sound_is_taken_in_while_there_is_room(
    t: Timeline,
    pts: i64,
    frames: u64,
    samples: Seq<u32>,
)
    requires
        t.valid(),
        t.shared.initialised,
        t.queued() > 0,
        0 < frames <= t.capacity,
        frames <= i64::MAX,
        pts + frames <= i64::MAX,
        pts - t.end.unwrap() <= i64::MAX,
        frames * t.channels <= usize::MAX,
        frames <= usize::MAX,
        pts - t.end.unwrap() <= usize::MAX,
        samples.len() == frames * t.channels,
    ensures
        ({
            let end = t.end.unwrap();
            let room = t.capacity - t.queued();
            let outcome = queue_outcome(t, Some(pts), frames, samples);
            &&& pts + frames <= end ==> outcome == Ok::<QueueResult, QueueError>(
                QueueResult::Dropped,
            ) && after_queue(t, Some(pts), frames, samples) == t
            &&& end <= pts && pts - end + frames <= room ==> outcome == Ok::<
                QueueResult,
                QueueError,
            >(QueueResult::Queued)
            &&& end <= pts && pts - end + frames > room ==> outcome == Ok::<QueueResult, QueueError>(
                QueueResult::Deferred,
            )
            &&& pts < end < pts + frames && pts + frames - end <= room ==> outcome == Ok::<
                QueueResult,
                QueueError,
            >(QueueResult::Queued)
            &&& pts < end < pts + frames && pts + frames - end > room ==> outcome == Ok::<
                QueueResult,
                QueueError,
            >(QueueResult::Deferred)
        }),
{
    let a = t.anchored(Some(pts));
    assert(a == t);
    let gap = t.gap(pts as int);
    let put = vstd::math::min(gap, t.capacity - t.queued());
    let p = t.padded(gap);
    let n = t.queued() as int;
    let c = t.channels as int;
    assert(put >= 0);
    assert((n * c + put * c) / c == n + put) by {
        assert(n * c + put * c == (n + put) * c) by (nonlinear_arith);
        vstd::arithmetic::div_mod::lemma_div_by_multiple(n + put, c);
    }
    assert(put * c >= 0) by (nonlinear_arith)
        requires
            put >= 0,
            c >= 1,
    ;
    assert(p.samples.len() == n * c + put * c);
    assert(p.queued() == n + put);
    assert(placement_error(t, Some(pts), frames) is None);
}

/// The first frame of sound says where the timeline begins.
pub proof fn first_sound_begins_the_timeline(
    t: Timeline,
    pts: i64,
    frames: u64,
    samples: Seq<u32>,
)
    requires
        t.valid(),
        !t.shared.initialised,
        0 < frames <= t.capacity,
        frames <= i64::MAX,
        pts + frames <= i64::MAX,
        frames <= usize::MAX,
        frames * t.channels <= usize::MAX,
        samples.len() == frames * t.channels,
    ensures
        ({
            let after = after_queue(t, Some(pts), frames, samples);
            &&& queue_outcome(t, Some(pts), frames, samples) == Ok::<QueueResult, QueueError>(
                QueueResult::Queued,
            )
            &&& after.shared.initialised
            &&& after.shared.origin_pts == pts
            &&& after.shared.next_output_pts == pts
            &&& after.shared.ring_start_pts == pts
            &&& after.end == Some((pts + frames) as i64)
            &&& after.samples == samples
        }),
{
    let a = t.anchored(Some(pts));
    assert(t.samples =~= Seq::<u32>::empty());
    assert(a.queued() == 0) by {
        assert(a.samples.len() == 0);
        vstd::arithmetic::div_mod::lemma_div_basics(a.channels as int);
    }
    let p = a.padded(0);
    assert(p.samples =~= Seq::<u32>::empty()) by {
        assert(0 * a.channels == 0) by (nonlinear_arith);
    }
    assert(p.queued() == 0) by {
        vstd::arithmetic::div_mod::lemma_div_basics(a.channels as int);
    }
    assert(0 * t.channels == 0) by (nonlinear_arith);
    assert(samples.skip(0) =~= samples);
    assert(Seq::<u32>::empty() + samples =~= samples);
}

} // verus!
