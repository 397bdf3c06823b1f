//! A player without a decoder, for trying out the rest.

use crate::model::{PlaybackState, Quality};
use crate::time::Duration;
use crate::video::VideoSource;
use vstd::prelude::*;

verus! {

/// The length of every video.
pub const DUMMY_DURATION_NANOS: u128 = 13_337_000_000_000;

/// How long a seek takes.
pub const SEEK_DELAY_NANOS: u128 = 180_000_000;

/// The quality that a video opens with.
pub const DEFAULT_QUALITY_INDEX: usize = 2;

#[derive(Clone, Copy, Debug, PartialEq, Eq, Structural)]
pub struct DummySeek {
    pub target: Duration,
    pub remaining: Duration,
    pub resume_playing: bool,
}

/// Where playback stands. The rate is in hundredths.
pub struct DummyTransport {
    pub state: PlaybackState,
    pub position: Duration,
    pub duration: Duration,
    pub rate: u32,
    pub quality_index: usize,
    pub pending_seek: Option<DummySeek>,
}

pub struct DummyPlayback {
    pub source: Option<VideoSource>,
    pub transport: DummyTransport,
    pub rates: Vec<u32>,
    pub qualities: Vec<Quality>,
}

/// How far playback gets in `elapsed` at `rate`.
pub open spec fn advance(elapsed: Duration, rate: u32) -> Duration {
    Duration {
        nanos: if elapsed.nanos * rate > u128::MAX {
            u128::MAX
        } else {
            ((elapsed.nanos * rate) / 100) as u128
        },
    }
}

impl DummyTransport {
    pub open spec fn opened(self, start: Option<Duration>) -> Self {
        DummyTransport {
            state: PlaybackState::Paused,
            position: match start {
                Some(start) => start.smaller(self.duration),
                None => (Duration { nanos: 0 }).smaller(self.duration),
            },
            rate: 100,
            quality_index: DEFAULT_QUALITY_INDEX,
            pending_seek: None,
            ..self
        }
    }

    pub open spec fn played(self) -> Self {
        if self.state is Ended {
            self
        } else {
            match self.pending_seek {
                Some(seek) => DummyTransport {
                    pending_seek: Some(DummySeek { resume_playing: true, ..seek }),
                    ..self
                },
                None => DummyTransport { state: PlaybackState::Playing, ..self },
            }
        }
    }

    pub open spec fn paused(self) -> Self {
        match self.pending_seek {
            Some(seek) => DummyTransport {
                pending_seek: Some(DummySeek { resume_playing: false, ..seek }),
                ..self
            },
            None => if self.state is Ended {
                self
            } else {
                DummyTransport { state: PlaybackState::Paused, ..self }
            },
        }
    }

    pub open spec fn sought(self, position: Duration) -> Self {
        DummyTransport {
            pending_seek: Some(
                DummySeek {
                    target: position.smaller(self.duration),
                    remaining: Duration { nanos: SEEK_DELAY_NANOS },
                    resume_playing: self.state is Playing || (self.pending_seek is Some
                        && self.pending_seek.unwrap().resume_playing),
                },
            ),
            state: PlaybackState::Seeking,
            ..self
        }
    }

    /// The position that shows: the target of a seek under way.
    pub open spec fn shown(self) -> Duration {
        match self.pending_seek {
            Some(seek) => seek.target,
            None => self.position,
        }
    }

    /// A seek comes nearer, or playback advances and ends with the video.
    pub open spec fn updated(self, elapsed: Duration) -> Self {
        match self.pending_seek {
            Some(seek) => if elapsed.nanos >= seek.remaining.nanos {
                DummyTransport {
                    position: seek.target,
                    state: if seek.target.nanos >= self.duration.nanos {
                        PlaybackState::Ended
                    } else if seek.resume_playing {
                        PlaybackState::Playing
                    } else {
                        PlaybackState::Paused
                    },
                    pending_seek: None,
                    ..self
                }
            } else {
                DummyTransport {
                    pending_seek: Some(
                        DummySeek { remaining: seek.remaining.minus(elapsed), ..seek },
                    ),
                    ..self
                }
            },
            None => if self.state is Playing {
                let position = self.position.plus(advance(elapsed, self.rate));
                if position.nanos >= self.duration.nanos {
                    DummyTransport {
                        position: self.duration,
                        state: PlaybackState::Ended,
                        ..self
                    }
                } else {
                    DummyTransport { position, ..self }
                }
            } else {
                self
            },
        }
    }
}

/// The first quality with the identifier `id`, from `from` on.
pub open spec fn quality_with_id(qualities: Seq<Quality>, id: Seq<char>, from: int) -> Option<int>
    decreases qualities.len() - from,
{
    if from < 0 || from >= qualities.len() {
        None
    } else if qualities[from].id@ == id {
        Some(from)
    } else {
        quality_with_id(qualities, id, from + 1)
    }
}

/// Finds a quality by its identifier.
pub fn find_quality_id(qualities: &Vec<Quality>, id: &str) -> (index: Option<usize>)
    ensures
        match index {
            Some(index) => quality_with_id(qualities@, id@, 0) == Some(index as int) && index
                < qualities@.len(),
            None => quality_with_id(qualities@, id@, 0) is None,
        },
{
    let wanted = id.to_owned();
    let mut i: usize = 0;
    while i < qualities.len()
        invariant
            i <= qualities.len(),
            wanted@ == id@,
            quality_with_id(qualities@, id@, 0) == quality_with_id(qualities@, id@, i as int),
        decreases qualities.len() - i,
    {
        if qualities[i].id == wanted {
            return Some(i);
        }
        i += 1;
    }
    None
}

impl Default for DummyPlayback {
    fn default() -> (player: Self)
        ensures
            player.wf(),
            player.source is None,
            player.transport == (DummyTransport {
                state: PlaybackState::Paused,
                position: Duration { nanos: 0 },
                duration: Duration { nanos: DUMMY_DURATION_NANOS },
                rate: 100,
                quality_index: DEFAULT_QUALITY_INDEX,
                pending_seek: None,
            }),
            player.rates@ == seq![25u32, 50, 100, 150, 200],
            player.qualities@.len() == 4,
            player.qualities@[0].id@ == "source"@ && player.qualities@[0].label@ == "Source"@,
            player.qualities@[1].id@ == "1080p60"@ && player.qualities@[1].label@ == "1080p60"@,
            player.qualities@[2].id@ == "720p60"@ && player.qualities@[2].label@ == "720p60"@,
            player.qualities@[3].id@ == "480p"@ && player.qualities@[3].label@ == "480p"@,
    {
        DummyPlayback::new()
    }
}

impl DummyPlayback {
    /// Everything but the transport, unchanged.
    pub open spec fn same_video(self, other: Self) -> bool {
        &&& self.source == other.source
        &&& self.rates == other.rates
        &&& self.qualities == other.qualities
    }

    /// The quality that plays is one of those there are.
    pub open spec fn wf(self) -> bool {
        self.transport.quality_index < self.qualities@.len() && DEFAULT_QUALITY_INDEX
            < self.qualities@.len()
    }

    pub fn new() -> (player: Self)
        ensures
            player.wf(),
            player.source is None,
            player.transport == (DummyTransport {
                state: PlaybackState::Paused,
                position: Duration { nanos: 0 },
                duration: Duration { nanos: DUMMY_DURATION_NANOS },
                rate: 100,
                quality_index: DEFAULT_QUALITY_INDEX,
                pending_seek: None,
            }),
            player.rates@ == seq![25u32, 50, 100, 150, 200],
            player.qualities@.len() == 4,
            player.qualities@[0].id@ == "source"@ && player.qualities@[0].label@ == "Source"@,
            player.qualities@[1].id@ == "1080p60"@ && player.qualities@[1].label@ == "1080p60"@,
            player.qualities@[2].id@ == "720p60"@ && player.qualities@[2].label@ == "720p60"@,
            player.qualities@[3].id@ == "480p"@ && player.qualities@[3].label@ == "480p"@,
    {
        let mut rates: Vec<u32> = Vec::new();
        rates.push(25);
        rates.push(50);
        rates.push(100);
        rates.push(150);
        rates.push(200);
        let mut qualities: Vec<Quality> = Vec::new();
        qualities.push(Quality::new("source", "Source"));
        qualities.push(Quality::new("1080p60", "1080p60"));
        qualities.push(Quality::new("720p60", "720p60"));
        qualities.push(Quality::new("480p", "480p"));
        assert(rates@ =~= seq![25u32, 50, 100, 150, 200]);
        DummyPlayback {
            source: None,
            transport: DummyTransport {
                state: PlaybackState::Paused,
                position: Duration::zero(),
                duration: Duration { nanos: DUMMY_DURATION_NANOS },
                rate: 100,
                quality_index: DEFAULT_QUALITY_INDEX,
                pending_seek: None,
            },
            rates,
            qualities,
        }
    }

    pub fn open(&mut self, source: &VideoSource)
        ensures
            final(self).source == Some(*source),
            final(self).transport == old(self).transport.opened(source.start_time),
            final(self).rates == old(self).rates,
            final(self).qualities == old(self).qualities,
            old(self).wf() ==> final(self).wf(),
    {
        self.source = Some(source.clone());
        let start = match source.start_time {
            Some(start) => start,
            None => Duration::zero(),
        };
        self.transport.position = start.min(self.transport.duration);
        self.transport.state = PlaybackState::Paused;
        self.transport.pending_seek = None;
        self.transport.rate = 100;
        self.transport.quality_index = DEFAULT_QUALITY_INDEX;
    }

    pub fn intends_playing(&self) -> (intends: bool)
        ensures
            intends == (self.transport.state is Playing || self.transport.state is Buffering || (
            self.transport.pending_seek is Some
                && self.transport.pending_seek.unwrap().resume_playing)),
    {
        matches!(self.transport.state, PlaybackState::Playing | PlaybackState::Buffering)
            || match self.transport.pending_seek {
            Some(seek) => seek.resume_playing,
            None => false,
        }
    }

    pub fn play(&mut self)
        ensures
            final(self).same_video(*old(self)),
            final(self).transport == (if old(self).source is Some {
                old(self).transport.played()
            } else {
                old(self).transport
            }),
    {
        if self.source.is_none() || matches!(self.transport.state, PlaybackState::Ended) {
            return;
        }
        match self.transport.pending_seek {
            Some(seek) => {
                self.transport.pending_seek = Some(DummySeek { resume_playing: true, ..seek });
            },
            None => {
                self.transport.state = PlaybackState::Playing;
            },
        }
    }

    pub fn pause(&mut self)
        ensures
            final(self).same_video(*old(self)),
            final(self).transport == (if old(self).source is Some {
                old(self).transport.paused()
            } else {
                old(self).transport
            }),
    {
        if self.source.is_none() {
            return;
        }
        match self.transport.pending_seek {
            Some(seek) => {
                self.transport.pending_seek = Some(DummySeek { resume_playing: false, ..seek });
            },
            None => {
                if !matches!(self.transport.state, PlaybackState::Ended) {
                    self.transport.state = PlaybackState::Paused;
                }
            },
        }
    }

    pub fn position(&self) -> (position: Duration)
        ensures
            position == self.transport.shown(),
    {
        match self.transport.pending_seek {
            Some(seek) => seek.target,
            None => self.transport.position,
        }
    }

    pub fn duration(&self) -> (duration: Option<Duration>)
        ensures
            duration == (if self.source is Some { Some(self.transport.duration) } else { None }),
    {
        if self.source.is_some() { Some(self.transport.duration) } else { None }
    }

    pub fn seek(&mut self, position: Duration)
        ensures
            final(self).same_video(*old(self)),
            final(self).transport == (if old(self).source is Some {
                old(self).transport.sought(position)
            } else {
                old(self).transport
            }),
    {
        if self.source.is_none() {
            return;
        }
        let resume_playing: bool = matches!(self.transport.state, PlaybackState::Playing)
            || match self.transport.pending_seek {
            Some(seek) => seek.resume_playing,
            None => false,
        };
        self.transport.pending_seek = Some(
            DummySeek {
                target: position.min(self.transport.duration),
                remaining: Duration { nanos: SEEK_DELAY_NANOS },
                resume_playing,
            },
        );
        self.transport.state = PlaybackState::Seeking;
    }

    /// Sets the rate, if it is one of those there are.
    pub fn set_playback_rate(&mut self, rate: u32)
        ensures
            final(self).same_video(*old(self)),
            final(self).transport == (if old(self).rates@.contains(rate) {
                DummyTransport { rate, ..old(self).transport }
            } else {
                old(self).transport
            }),
    {
        let mut i: usize = 0;
        while i < self.rates.len()
            invariant
                i <= self.rates.len(),
                *self == *old(self),
                forall|k: int| 0 <= k < i ==> self.rates@[k] != rate,
            decreases self.rates.len() - i,
        {
            if self.rates[i] == rate {
                assert(self.rates@[i as int] == rate);
                self.transport.rate = rate;
                return;
            }
            i += 1;
        }
    }

    pub fn quality(&self) -> (quality: Option<&Quality>)
        requires
            self.wf(),
        ensures
            match quality {
                Some(quality) => self.source is Some && *quality
                    == self.qualities@[self.transport.quality_index as int],
                None => self.source is None,
            },
    {
        if self.source.is_some() { Some(&self.qualities[self.transport.quality_index]) } else { None }
    }

    /// Sets the quality, if it is one of those there are.
    pub fn set_quality(&mut self, quality_id: &str)
        ensures
            final(self).same_video(*old(self)),
            final(self).transport == (match quality_with_id(old(self).qualities@, quality_id@, 0) {
                Some(index) => DummyTransport { quality_index: index as usize, ..old(self).transport },
                None => old(self).transport,
            }),
            old(self).wf() ==> final(self).wf(),
    {
        match find_quality_id(&self.qualities, quality_id) {
            Some(index) => {
                self.transport.quality_index = index;
            },
            None => {},
        }
    }

    pub fn update(&mut self, elapsed: Duration)
        ensures
            final(self).same_video(*old(self)),
            final(self).transport == old(self).transport.updated(elapsed),
    {
        match self.transport.pending_seek {
            Some(seek) => {
                if elapsed.nanos >= seek.remaining.nanos {
                    self.transport.pending_seek = None;
                    self.transport.position = seek.target;
                    self.transport.state = if seek.target.nanos >= self.transport.duration.nanos {
                        PlaybackState::Ended
                    } else if seek.resume_playing {
                        PlaybackState::Playing
                    } else {
                        PlaybackState::Paused
                    };
                } else {
                    self.transport.pending_seek = Some(
                        DummySeek { remaining: seek.remaining.saturating_sub(elapsed), ..seek },
                    );
                }
                return;
            },
            None => {},
        }
        if !matches!(self.transport.state, PlaybackState::Playing) {
            return;
        }
        let advanced: u128 = match elapsed.nanos.checked_mul(self.transport.rate as u128) {
            Some(product) => product / 100,
            None => u128::MAX,
        };
        let position = self.transport.position.saturating_add(Duration { nanos: advanced });
        if position.nanos >= self.transport.duration.nanos {
            self.transport.position = self.transport.duration;
            self.transport.state = PlaybackState::Ended;
        } else {
            self.transport.position = position;
        }
    }
}

/// The position that shows never lies beyond the end of the video.
pub open spec fn within_video(t: DummyTransport) -> bool {
    t.position.nanos <= t.duration.nanos && (t.pending_seek is Some
        ==> t.pending_seek.unwrap().target.nanos <= t.duration.nanos)
}

/// Every operation keeps the position within the video.
pub proof fn position_stays_within_the_video(t: DummyTransport, at: Duration, start: Option<Duration>)
    ensures
        within_video(t.opened(start)),
        within_video(t) ==> within_video(t.played()) && within_video(t.paused()) && within_video(
            t.sought(at),
        ) && within_video(t.updated(at)),
{
}

/// A video that has ended does not start again by being played or paused.
pub proof fn ended_video_stays_ended(t: DummyTransport)
    requires
        t.state is Ended,
        t.pending_seek is None,
    ensures
        t.played() == t,
        t.paused() == t,
{
}

/// A seek comes back to what playback was doing, once its delay has passed.
pub proof fn seek_resumes_what_was_playing(t: DummyTransport, at: Duration)
    requires
        t.pending_seek is None,
        at.nanos < t.duration.nanos,
    ensures
        ({
            let landed = t.sought(at).updated(Duration { nanos: SEEK_DELAY_NANOS });
            &&& t.sought(at).shown() == at
            &&& landed.position == at
            &&& landed.pending_seek is None
            &&& landed.state == (if t.state is Playing {
                PlaybackState::Playing
            } else {
                PlaybackState::Paused
            })
        }),
{
}

/// Playback gets as far as time passes, times the rate, until the end of the video.
pub proof fn playback_goes_on_at_its_rate(t: DummyTransport, elapsed: Duration)
    requires
        t.state is Playing,
        t.pending_seek is None,
        t.duration.nanos < 18_446_744_073_709_551_616_000_000_000,
        elapsed.nanos * t.rate <= u128::MAX,
    ensures
        ({
            let after = t.updated(elapsed);
            let reached = t.position.nanos + elapsed.nanos * t.rate / 100;
            &&& reached < t.duration.nanos ==> after.position.nanos == reached
                && after.state is Playing
            &&& reached >= t.duration.nanos ==> after.position == t.duration
                && after.state is Ended
        }),
{
}

/// Nothing moves while playback is paused or has ended.
pub proof fn paused_playback_stays(t: DummyTransport, elapsed: Duration)
    requires
        !(t.state is Playing),
        t.pending_seek is None,
    ensures
        t.updated(elapsed) == t,
{
}

/// A video opens paused where its link starts it, or at its beginning, at its usual rate and
/// in the third of its qualities.
pub proof fn videos_open_where_their_link_starts_them(t: DummyTransport, at: Duration)
    requires
        at.nanos <= t.duration.nanos,
    ensures
        ({
            let opened = t.opened(Some(at));
            &&& opened.position == at
            &&& opened.state is Paused
            &&& opened.pending_seek is None
            &&& opened.rate == 100
            &&& opened.quality_index == 2
        }),
        t.opened(None).position.nanos == 0,
        t.opened(None).state is Paused,
{
}

/// A seek takes 180 milliseconds. Until then its target shows; then playback stands there,
/// and a seek to the end or beyond it ends the video.
pub proof fn seeks_take_their_time(t: DummyTransport, at: Duration, elapsed: Duration)
    ensures
        ({
            let sought = t.sought(at);
            let later = sought.updated(elapsed);
            &&& sought.state is Seeking
            &&& at.nanos <= t.duration.nanos ==> sought.shown() == at
            &&& at.nanos > t.duration.nanos ==> sought.shown() == t.duration
            &&& elapsed.nanos < 180_000_000 ==> later.state is Seeking && later.shown()
                == sought.shown() && later.pending_seek is Some
                && later.pending_seek.unwrap().remaining.nanos == 180_000_000 - elapsed.nanos
            &&& elapsed.nanos >= 180_000_000 ==> later.pending_seek is None && later.position
                == sought.shown()
            &&& elapsed.nanos >= 180_000_000 && at.nanos >= t.duration.nanos
                ==> later.state is Ended
        }),
{
}

/// Playing and pausing while a seek is under way say what it comes back to.
pub proof fn seeks_come_back_to_what_was_said_last(t: DummyTransport, at: Duration)
    requires
        at.nanos < t.duration.nanos,
    ensures
        ({
            let rest = Duration { nanos: 180_000_000 };
            &&& t.sought(at).played().updated(rest).state is Playing
            &&& t.sought(at).paused().updated(rest).state is Paused
            &&& t.sought(at).played().updated(rest).position == at
            &&& t.sought(at).paused().updated(rest).position == at
            &&& t.sought(at).played().sought(at).updated(rest).state is Playing
        }),
{
}

/// Playing plays and pausing pauses, in the same place.
pub proof fn playing_plays_and_pausing_pauses(t: DummyTransport)
    requires
        t.pending_seek is None,
        !(t.state is Ended),
    ensures
        t.played().state is Playing,
        t.paused().state is Paused,
        t.played().position == t.position && t.paused().position == t.position,
        t.played().rate == t.rate && t.paused().rate == t.rate,
{
}

/// A quality is found by its identifier: the first that has it, and none if none has it.
pub proof fn qualities_are_found_by_their_identifier(
    qualities: Seq<Quality>,
    id: Seq<char>,
    from: int,
)
    requires
        0 <= from <= qualities.len(),
    ensures
        match quality_with_id(qualities, id, from) {
            Some(index) => from <= index < qualities.len() && qualities[index].id@ == id
                && forall|k: int| from <= k < index ==> (#[trigger] qualities[k]).id@ != id,
            None => forall|k: int| from <= k < qualities.len() ==> (#[trigger] qualities[k]).id@
                != id,
        },
    decreases qualities.len() - from,
{
    if from < qualities.len() && qualities[from].id@ != id {
        qualities_are_found_by_their_identifier(qualities, id, from + 1);
    }
}

} // verus!
