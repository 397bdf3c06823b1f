//! What the application plays with: nothing, a player without a decoder, or the engine.

use crate::model::{DebugGraph, DebugGraphLane, DebugInfoSection, DebugNode, PlaybackState, Quality};
use crate::playback::decode_mode::DecodeMode;
use crate::playback::dummy;
use crate::playback::dummy::{find_quality_id, DummyPlayback, DummyTransport};
use crate::playback::engine::{AudioLevels, OxidePlayback, Playback, SeekRequest};
use crate::playback::seek::Sought;
use crate::text;
use crate::time::{Duration, Instant};
use crate::video::VideoSource;
use vstd::prelude::*;

verus! {

/// The largest volume, in hundredths.
pub const MAX_VOLUME: u32 = 200;

/// The engine on a video, with what can be chosen about it. Rates and the volume are
/// hundredths. `levels` is how full the audio output was when last asked; `request` is a
/// seek that the decoder has not been handed yet.
pub struct OxidePlayer {
    pub source: VideoSource,
    pub engine: OxidePlayback,
    pub rate: u32,
    pub rates: Vec<u32>,
    pub qualities: Vec<Quality>,
    pub quality_urls: Vec<String>,
    pub quality_index: usize,
    pub master_url: String,
    pub decode_mode: DecodeMode,
    pub muted: bool,
    pub volume: u32,
    pub levels: AudioLevels,
    pub request: Option<SeekRequest>,
}

/// The engine on a video, as values.
pub struct OxideView {
    pub source: VideoSource,
    pub engine: Playback,
    pub rate: u32,
    pub rates: Seq<u32>,
    pub qualities: Seq<Quality>,
    pub quality_urls: Seq<String>,
    pub quality_index: usize,
    pub master_url: String,
    pub decode_mode: DecodeMode,
    pub muted: bool,
    pub volume: u32,
    pub levels: AudioLevels,
    pub request: Option<SeekRequest>,
}

impl View for OxidePlayer {
    type V = OxideView;

    open spec fn view(&self) -> OxideView {
        OxideView {
            source: self.source,
            engine: self.engine@,
            rate: self.rate,
            rates: self.rates@,
            qualities: self.qualities@,
            quality_urls: self.quality_urls@,
            quality_index: self.quality_index,
            master_url: self.master_url,
            decode_mode: self.decode_mode,
            muted: self.muted,
            volume: self.volume,
            levels: self.levels,
            request: self.request,
        }
    }
}

/// What the application plays with.
pub enum PlaybackBackend {
    Absent,
    Dummy(DummyPlayback),
    Oxide(OxidePlayer),
}

/// What the application plays with, as values.
pub enum Player {
    Absent,
    Dummy(DummyPlayback),
    Oxide(OxideView),
}

impl View for PlaybackBackend {
    type V = Player;

    open spec fn view(&self) -> Player {
        match self {
            PlaybackBackend::Absent => Player::Absent,
            PlaybackBackend::Dummy(player) => Player::Dummy(*player),
            PlaybackBackend::Oxide(player) => Player::Oxide(player@),
        }
    }
}

impl Player {
    /// The quality that plays without a decoder is one of those there are.
    pub open spec fn wf(self) -> bool {
        self matches Player::Dummy(player) ==> player.wf()
    }

    pub open spec fn source(self) -> Option<VideoSource> {
        match self {
            Player::Absent => None,
            Player::Dummy(player) => player.source,
            Player::Oxide(player) => Some(player.source),
        }
    }

    pub open spec fn state(self) -> PlaybackState {
        match self {
            Player::Absent => PlaybackState::Loading,
            Player::Dummy(player) => player.transport.state,
            Player::Oxide(player) => player.engine.core.state,
        }
    }

    /// Whether playback runs, or will once a seek is done.
    pub open spec fn wants_to_play(self) -> bool {
        match self {
            Player::Absent => false,
            Player::Dummy(player) => player.transport.state is Playing
                || player.transport.state is Buffering || (player.transport.pending_seek is Some
                && player.transport.pending_seek.unwrap().resume_playing),
            Player::Oxide(player) => player.engine.wants_to_play(),
        }
    }

    /// Whether playback stands where it can be come back to.
    pub open spec fn is_settled(self) -> bool {
        self.state() is Playing || self.state() is Paused || self.state() is Ended
    }

    /// The position that shows at `now`.
    pub open spec fn position(self, now: Instant) -> Duration {
        match self {
            Player::Absent => Duration { nanos: 0 },
            Player::Dummy(player) => player.transport.shown(),
            Player::Oxide(player) => player.engine.shown_position(now),
        }
    }

    pub open spec fn duration(self) -> Option<Duration> {
        match self {
            Player::Absent => None,
            Player::Dummy(player) => if player.source is Some {
                Some(player.transport.duration)
            } else {
                None
            },
            Player::Oxide(player) => player.engine.core.duration,
        }
    }

    pub open spec fn rates(self) -> Seq<u32> {
        match self {
            Player::Absent => Seq::empty(),
            Player::Dummy(player) => player.rates@,
            Player::Oxide(player) => player.rates,
        }
    }

    pub open spec fn rate(self) -> u32 {
        match self {
            Player::Absent => 100,
            Player::Dummy(player) => player.transport.rate,
            Player::Oxide(player) => player.rate,
        }
    }

    pub open spec fn qualities(self) -> Seq<Quality> {
        match self {
            Player::Absent => Seq::empty(),
            Player::Dummy(player) => player.qualities@,
            Player::Oxide(player) => player.qualities,
        }
    }

    pub open spec fn quality(self) -> Option<Quality> {
        match self {
            Player::Absent => None,
            Player::Dummy(player) => if player.source is Some {
                Some(player.qualities@[player.transport.quality_index as int])
            } else {
                None
            },
            Player::Oxide(player) => if player.quality_index < player.qualities.len() {
                Some(player.qualities[player.quality_index as int])
            } else {
                None
            },
        }
    }

    pub open spec fn played(self, now: Instant) -> Player {
        match self {
            Player::Absent => self,
            Player::Dummy(player) => if player.source is Some {
                Player::Dummy(
                    DummyPlayback { transport: player.transport.played(), ..player },
                )
            } else {
                self
            },
            Player::Oxide(player) => Player::Oxide(
                OxideView { engine: player.engine.played(now), ..player },
            ),
        }
    }

    pub open spec fn paused(self, now: Instant) -> Player {
        match self {
            Player::Absent => self,
            Player::Dummy(player) => if player.source is Some {
                Player::Dummy(
                    DummyPlayback { transport: player.transport.paused(), ..player },
                )
            } else {
                self
            },
            Player::Oxide(player) => Player::Oxide(
                OxideView { engine: player.engine.paused(now), ..player },
            ),
        }
    }

    /// Whether `after` is what a seek to a position at `now` makes of this.
    pub open spec fn becomes_by_seek(self, position: Duration, now: Instant, after: Player) -> bool {
        match self {
            Player::Absent => after == self,
            Player::Dummy(player) => after == (if player.source is Some {
                Player::Dummy(
                    DummyPlayback { transport: player.transport.sought(position), ..player },
                )
            } else {
                self
            }),
            Player::Oxide(player) => match player.engine.sought(position, now) {
                Sought::Now(request, engine) => after == Player::Oxide(
                    OxideView {
                        engine,
                        request: if request is Some { request } else { player.request },
                        ..player
                    },
                ),
                Sought::Failed(error, silent) => exists|message: String|
                    message@ == error.text(Seq::empty()) && after == Player::Oxide(
                        OxideView { engine: #[trigger] silent.failed(message, now), ..player },
                    ),
            },
        }
    }

    pub open spec fn with_rate(self, rate: u32) -> Player {
        match self {
            Player::Absent => self,
            Player::Dummy(player) => if player.rates@.contains(rate) {
                Player::Dummy(
                    DummyPlayback {
                        transport: DummyTransport { rate, ..player.transport },
                        ..player
                    },
                )
            } else {
                self
            },
            Player::Oxide(player) => if player.rates.contains(rate) {
                Player::Oxide(OxideView { rate, ..player })
            } else {
                self
            },
        }
    }

    pub open spec fn with_volume(self, volume: u32) -> Player {
        match self {
            Player::Oxide(player) => Player::Oxide(
                OxideView {
                    volume: if volume > MAX_VOLUME { MAX_VOLUME } else { volume },
                    ..player
                },
            ),
            _ => self,
        }
    }

    pub open spec fn with_quality(self, quality_id: Seq<char>) -> Player {
        match dummy::quality_with_id(self.qualities(), quality_id, 0) {
            None => self,
            Some(index) => match self {
                Player::Absent => self,
                Player::Dummy(player) => Player::Dummy(
                    DummyPlayback {
                        transport: DummyTransport {
                            quality_index: index as usize,
                            ..player.transport
                        },
                        ..player
                    },
                ),
                Player::Oxide(player) => Player::Oxide(
                    OxideView { quality_index: index as usize, ..player },
                ),
            },
        }
    }

    /// Playback after `elapsed`, at `now`.
    pub open spec fn updated(self, elapsed: Duration, now: Instant) -> Player {
        match self {
            Player::Absent => self,
            Player::Dummy(player) => Player::Dummy(
                DummyPlayback { transport: player.transport.updated(elapsed), ..player },
            ),
            Player::Oxide(player) => {
                let engine = player.engine.rebuffered(now, player.levels).starved(now);
                let positioned = engine.with_core(engine.core.positioned(now));
                Player::Oxide(
                    OxideView {
                        engine: positioned.end_checked(player.levels.queued_samples),
                        ..player
                    },
                )
            },
        }
    }

    /// When playback wants to be looked at again.
    pub open spec fn wake_deadline(self, now: Instant) -> Option<Instant> {
        match self {
            Player::Oxide(player) => player.engine.wake_deadline(now),
            _ => None,
        }
    }
}

/// Whether a rate is one of those there are.
pub fn has_rate(rates: &Vec<u32>, rate: u32) -> (has: bool)
    ensures
        has == rates@.contains(rate),
{
    let mut i: usize = 0;
    while i < rates.len()
        invariant
            i <= rates.len(),
            forall|k: int| 0 <= k < i ==> rates@[k] != rate,
        decreases rates.len() - i,
    {
        if rates[i] == rate {
            assert(rates@[i as int] == rate);
            return true;
        }
        i += 1;
    }
    false
}

impl OxidePlayer {
    /// The volume at which the audio output plays.
    pub fn output_volume(&self) -> (volume: u32)
        ensures
            volume == (if self.muted { 0 } else { self.volume }),
    {
        if self.muted { 0 } else { self.volume }
    }

    fn update(&mut self, now: Instant)
        ensures
            Player::Oxide(final(self)@) == Player::Oxide(old(self)@).updated(
                Duration { nanos: 0 },
                now,
            ),
    {
        let levels = self.levels;
        self.engine.resume_from_buffering_if_ready(now, levels);
        self.engine.note_or_enter_buffering(now);
        self.engine.update_position_at(now);
        self.engine.update_end_state(levels.queued_samples);
    }
}

impl PlaybackBackend {
    /// Opens a video, where there is a player that can open one by itself.
    pub fn open(&mut self, source: &VideoSource) -> (opened: Result<(), String>)
        requires
            old(self)@.wf(),
        ensures
            final(self)@.wf(),
            match old(self)@ {
                Player::Absent => opened matches Err(error) && error@ == "no playback backend"@
                    && final(self)@ == old(self)@,
                Player::Dummy(player) => opened is Ok && final(self)@ == Player::Dummy(
                    DummyPlayback {
                        source: Some(*source),
                        transport: player.transport.opened(source.start_time),
                        ..player
                    },
                ),
                Player::Oxide(_) => opened matches Err(error) && error@
                    == "OxidePlayback requires a resolved HLS URL"@ && final(self)@ == old(self)@,
            },
    {
        match self {
            PlaybackBackend::Absent => Err("no playback backend".to_owned()),
            PlaybackBackend::Dummy(player) => {
                player.open(source);
                Ok(())
            },
            PlaybackBackend::Oxide(_) => Err(
                "OxidePlayback requires a resolved HLS URL".to_owned(),
            ),
        }
    }

    pub fn source(&self) -> (source: Option<&VideoSource>)
        ensures
            match source {
                Some(source) => self@.source() == Some(*source),
                None => self@.source() is None,
            },
    {
        match self {
            PlaybackBackend::Absent => None,
            PlaybackBackend::Dummy(player) => player.source.as_ref(),
            PlaybackBackend::Oxide(player) => Some(&player.source),
        }
    }

    pub fn state(&self) -> (state: PlaybackState)
        ensures
            state == self@.state(),
    {
        match self {
            PlaybackBackend::Absent => PlaybackState::Loading,
            PlaybackBackend::Dummy(player) => player.transport.state.clone(),
            PlaybackBackend::Oxide(player) => player.engine.core.state.clone(),
        }
    }

    /// Whether playback stands where it can be come back to.
    pub fn is_settled(&self) -> (settled: bool)
        ensures
            settled == self@.is_settled(),
    {
        matches!(
            self.state(),
            PlaybackState::Playing | PlaybackState::Paused | PlaybackState::Ended
        )
    }

    pub fn intends_playing(&self) -> (intends: bool)
        ensures
            intends == self@.wants_to_play(),
    {
        match self {
            PlaybackBackend::Absent => false,
            PlaybackBackend::Dummy(player) => player.intends_playing(),
            PlaybackBackend::Oxide(player) => player.engine.intends_playing(),
        }
    }

    pub fn play(&mut self, now: Instant)
        ensures
            final(self)@ == old(self)@.played(now),
            old(self)@.wf() ==> final(self)@.wf(),
    {
        match self {
            PlaybackBackend::Absent => {},
            PlaybackBackend::Dummy(player) => player.play(),
            PlaybackBackend::Oxide(player) => player.engine.play(now),
        }
    }

    pub fn pause(&mut self, now: Instant)
        ensures
            final(self)@ == old(self)@.paused(now),
            old(self)@.wf() ==> final(self)@.wf(),
    {
        match self {
            PlaybackBackend::Absent => {},
            PlaybackBackend::Dummy(player) => player.pause(),
            PlaybackBackend::Oxide(player) => player.engine.pause(now),
        }
    }

    pub fn position(&self, now: Instant) -> (position: Duration)
        ensures
            position == self@.position(now),
    {
        match self {
            PlaybackBackend::Absent => Duration::zero(),
            PlaybackBackend::Dummy(player) => player.position(),
            PlaybackBackend::Oxide(player) => player.engine.position(now),
        }
    }

    pub fn duration(&self) -> (duration: Option<Duration>)
        ensures
            duration == self@.duration(),
    {
        match self {
            PlaybackBackend::Absent => None,
            PlaybackBackend::Dummy(player) => player.duration(),
            PlaybackBackend::Oxide(player) => player.engine.core.duration,
        }
    }

    pub fn seek(&mut self, position: Duration, now: Instant)
        ensures
            old(self)@.becomes_by_seek(position, now, final(self)@),
            old(self)@.wf() ==> final(self)@.wf(),
    {
        match self {
            PlaybackBackend::Absent => {},
            PlaybackBackend::Dummy(player) => player.seek(position),
            PlaybackBackend::Oxide(player) => {
                let request = player.engine.seek(position, now);
                if request.is_some() {
                    player.request = request;
                }
            },
        }
    }

    pub fn available_rates(&self) -> (rates: Vec<u32>)
        ensures
            rates@ == self@.rates(),
    {
        match self {
            PlaybackBackend::Absent => Vec::new(),
            PlaybackBackend::Dummy(player) => copy_rates(&player.rates),
            PlaybackBackend::Oxide(player) => copy_rates(&player.rates),
        }
    }

    pub fn playback_rate(&self) -> (rate: u32)
        ensures
            rate == self@.rate(),
    {
        match self {
            PlaybackBackend::Absent => 100,
            PlaybackBackend::Dummy(player) => player.transport.rate,
            PlaybackBackend::Oxide(player) => player.rate,
        }
    }

    pub fn set_playback_rate(&mut self, rate: u32)
        ensures
            final(self)@ == old(self)@.with_rate(rate),
            old(self)@.wf() ==> final(self)@.wf(),
    {
        match self {
            PlaybackBackend::Absent => {},
            PlaybackBackend::Dummy(player) => player.set_playback_rate(rate),
            PlaybackBackend::Oxide(player) => {
                if has_rate(&player.rates, rate) {
                    player.rate = rate;
                }
            },
        }
    }

    pub fn set_volume(&mut self, volume: u32)
        ensures
            final(self)@ == old(self)@.with_volume(volume),
            old(self)@.wf() ==> final(self)@.wf(),
    {
        match self {
            PlaybackBackend::Oxide(player) => {
                player.volume = if volume > MAX_VOLUME { MAX_VOLUME } else { volume };
            },
            _ => {},
        }
    }

    pub fn available_qualities(&self) -> (qualities: Vec<Quality>)
        ensures
            qualities@ == self@.qualities(),
    {
        match self {
            PlaybackBackend::Absent => Vec::new(),
            PlaybackBackend::Dummy(player) => copy_qualities(&player.qualities),
            PlaybackBackend::Oxide(player) => copy_qualities(&player.qualities),
        }
    }

    pub fn quality(&self) -> (quality: Option<Quality>)
        requires
            self@.wf(),
        ensures
            quality == self@.quality(),
    {
        match self {
            PlaybackBackend::Absent => None,
            PlaybackBackend::Dummy(player) => match player.quality() {
                Some(quality) => Some(quality.clone()),
                None => None,
            },
            PlaybackBackend::Oxide(player) => if player.quality_index < player.qualities.len() {
                Some(player.qualities[player.quality_index].clone())
            } else {
                None
            },
        }
    }

    /// The address of the playlist that lists every quality.
    pub fn quality_master_url(&self) -> (url: Option<String>)
        ensures
            url == (match self@ {
                Player::Oxide(player) => Some(player.master_url),
                _ => None,
            }),
    {
        match self {
            PlaybackBackend::Oxide(player) => Some(player.master_url.clone()),
            _ => None,
        }
    }

    pub fn set_quality(&mut self, quality_id: &str)
        ensures
            final(self)@ == old(self)@.with_quality(quality_id@),
            old(self)@.wf() ==> final(self)@.wf(),
    {
        match self {
            PlaybackBackend::Absent => {},
            PlaybackBackend::Dummy(player) => player.set_quality(quality_id),
            PlaybackBackend::Oxide(player) => {
                match find_quality_id(&player.qualities, quality_id) {
                    Some(index) => {
                        player.quality_index = index;
                    },
                    None => {},
                }
            },
        }
    }

    pub fn update(&mut self, elapsed: Duration, now: Instant)
        ensures
            final(self)@ == old(self)@.updated(elapsed, now),
            old(self)@.wf() ==> final(self)@.wf(),
    {
        match self {
            PlaybackBackend::Absent => {},
            PlaybackBackend::Dummy(player) => player.update(elapsed),
            PlaybackBackend::Oxide(player) => player.update(now),
        }
    }

    pub fn next_wake_deadline(&self, now: Instant) -> (deadline: Option<Instant>)
        ensures
            deadline == self@.wake_deadline(now),
    {
        match self {
            PlaybackBackend::Oxide(player) => player.engine.next_video_wake_deadline_at(now),
            _ => None,
        }
    }
}

fn copy_rates(rates: &Vec<u32>) -> (copy: Vec<u32>)
    ensures
        copy@ == rates@,
{
    let mut copy: Vec<u32> = Vec::new();
    let mut i: usize = 0;
    while i < rates.len()
        invariant
            i <= rates.len(),
            copy@ =~= rates@.take(i as int),
        decreases rates.len() - i,
    {
        copy.push(rates[i]);
        i += 1;
    }
    copy
}

fn copy_qualities(qualities: &Vec<Quality>) -> (copy: Vec<Quality>)
    ensures
        copy@ == qualities@,
{
    let mut copy: Vec<Quality> = Vec::new();
    let mut i: usize = 0;
    while i < qualities.len()
        invariant
            i <= qualities.len(),
            copy@ =~= qualities@.take(i as int),
        decreases qualities.len() - i,
    {
        copy.push(qualities[i].clone());
        i += 1;
    }
    copy
}

/// The identifier of the node for a section.
pub open spec fn section_id(index: nat) -> Seq<char> {
    "playback-section-"@ + text::decimal(index)
}

/// Whether a node shows a section: alone in its column, in the lane that all share.
pub open spec fn shows_section(node: DebugNode, section: DebugInfoSection, index: nat) -> bool {
    &&& node.id@ == section_id(index)
    &&& node.title == section.title
    &&& node.summary@.len() == 0
    &&& node.lane == DebugGraphLane::Shared
    &&& node.column == (index % 256) as u8
    &&& node.rows@ == section.rows@
}

/// A graph with one node for every section, in order, and no edges.
pub fn section_graph(sections: Vec<DebugInfoSection>) -> (graph: DebugGraph)
    ensures
        graph.edges@.len() == 0,
        graph.nodes@.len() == sections@.len(),
        forall|i: int|
            0 <= i < sections@.len() ==> shows_section(
                #[trigger] graph.nodes@[i],
                sections@[i],
                i as nat,
            ),
{
    let ghost all = sections@;
    let count: usize = sections.len();
    let mut rest = sections;
    let mut nodes: Vec<DebugNode> = Vec::new();
    let mut index: u64 = 0;
    let mut column: u8 = 0;
    while rest.len() > 0
        invariant
            rest@ =~= all.skip(index as int),
            index == nodes@.len(),
            index <= all.len(),
            all.len() == count,
            column == (index % 256) as u8,
            forall|i: int| 0 <= i < index ==> shows_section(#[trigger] nodes@[i], all[i], i as nat),
        decreases rest.len(),
    {
        let section = rest.remove(0);
        let mut id = "playback-section-".to_owned();
        text::push_decimal(&mut id, index);
        nodes.push(
            DebugNode {
                id,
                title: section.title,
                summary: String::new(),
                lane: DebugGraphLane::Shared,
                column,
                rows: section.rows,
            },
        );
        column = if column == 255 { 0 } else { column + 1 };
        index = index + 1;
    }
    DebugGraph { nodes, edges: Vec::new() }
}

/// Each update notices what has happened to playback: that nothing came for a quarter of a
/// second, that what was waited for is there, that the end was reached, and where it stands.
pub proof fn updates_notice_what_happened(player: OxideView, started: Instant, now: Instant)
    requires
        started.nanos <= now.nanos,
    ensures
        player.engine.core.state is Playing && player.engine.core.first_frame_presented
            && player.engine.queue.len() == 0 && player.engine.core.starvation_started_at == Some(
            started,
        ) && now.nanos - started.nanos >= 250_000_000 && !player.engine.core.sink_finished
            && !player.engine.core.video_eof ==> Player::Oxide(player).updated(
            Duration { nanos: 0 },
            now,
        ).state() is Buffering,
        player.engine.core.state is Buffering && player.engine.queue.len() >= 2
            && player.engine.core.audio_stream is None ==> Player::Oxide(player).updated(
            Duration { nanos: 0 },
            now,
        ).state() is Playing,
        player.engine.core.state is Playing && player.engine.queue.len() == 0
            && !player.engine.core.first_frame_presented && player.engine.core.sink_finished
            && player.engine.core.pending_audio_frame is None && !player.engine.core.audio_open
            ==> Player::Oxide(player).updated(Duration { nanos: 0 }, now).state() is Ended,
        player.engine.core.state is Paused && player.engine.core.clock_position(now) is Some && (
        player.engine.core.duration is None || player.engine.core.clock_position(
            now,
        ).unwrap().nanos <= player.engine.core.duration.unwrap().nanos) ==> (Player::Oxide(
            player,
        ).updated(Duration { nanos: 0 }, now) matches Player::Oxide(after) && Some(
            after.engine.core.position,
        ) == player.engine.core.clock_position(now)),
{
}

/// Without a player nothing plays, nothing shows, and nothing comes of what is asked.
pub proof fn absent_player_does_nothing(at: Duration, rate: u32, elapsed: Duration, now: Instant, after: Player)
    ensures
        Player::Absent.source() is None,
        Player::Absent.state() is Loading,
        !Player::Absent.wants_to_play(),
        Player::Absent.position(now).nanos == 0,
        Player::Absent.duration() is None,
        Player::Absent.played(now) is Absent,
        Player::Absent.paused(now) is Absent,
        Player::Absent.with_rate(rate) is Absent,
        Player::Absent.updated(elapsed, now) is Absent,
        Player::Absent.becomes_by_seek(at, now, after) ==> after is Absent,
        Player::Absent.rate() == 100,
{
}

/// What a player says of itself is what its video, its transport or its engine says.
pub proof fn players_speak_for_themselves(player: Player, now: Instant)
    ensures
        player matches Player::Dummy(dummy) ==> {
            &&& player.source() == dummy.source
            &&& player.state() == dummy.transport.state
            &&& player.position(now) == dummy.transport.shown()
            &&& player.rate() == dummy.transport.rate
            &&& dummy.source is Some ==> player.duration() == Some(dummy.transport.duration)
            &&& dummy.source is None ==> player.duration() is None && player.quality() is None
            &&& player.wake_deadline(now) is None
        },
        player matches Player::Oxide(oxide) ==> {
            &&& player.source() == Some(oxide.source)
            &&& player.state() == oxide.engine.core.state
            &&& player.position(now) == oxide.engine.shown_position(now)
            &&& player.duration() == oxide.engine.core.duration
            &&& player.rate() == oxide.rate
            &&& oxide.quality_index < oxide.qualities.len() ==> player.quality() == Some(
                oxide.qualities[oxide.quality_index as int],
            )
            &&& player.wake_deadline(now) == oxide.engine.wake_deadline(now)
        },
        player.is_settled() <==> player.state() is Playing || player.state() is Paused
            || player.state() is Ended,
{
}

} // verus!
