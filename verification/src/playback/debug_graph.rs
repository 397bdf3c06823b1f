//! The pipeline of playback as a diagram.

use crate::model;
use crate::model::{push_row, DebugEdge, DebugGraph, DebugGraphLane, DebugNode, Graph, Node};
use crate::playback::backend::{OxidePlayer, OxideView};
use crate::playback::debug;
use crate::playback::debug::DebugFacts;
use crate::playback::debug_sections;
use crate::playback::debug_sections::{DebugSections, Sections};
use crate::playback::engine::SESSION_CHANNEL_CAP;
use crate::playback::stream::MediaType;
use crate::text;
use crate::time::Instant;
use vstd::prelude::*;
use vstd::string::*;

verus! {

/// A stage of the pipeline.
pub enum StageInfo {
    Copy,
    Decode { implementation: String, hardware: bool },
    Filter { name: String },
    PixelFormatConvert { target: String },
    Encode { implementation: String, hardware: bool },
}

/// A track on its way through the pipeline.
pub struct TrackTopology {
    pub media_type: MediaType,
    pub source_stream: u32,
    pub codec: String,
    pub source_shape: String,
    pub stages: Vec<StageInfo>,
    pub packet_depth: usize,
    pub session_depth: usize,
}

/// The pipeline as it runs.
pub struct Topology {
    pub output_name: String,
    pub packet_capacity: usize,
    pub tracks: Vec<TrackTopology>,
}

/// The value of the first row with a name.
pub open spec fn value_of(rows: Seq<(Seq<char>, Seq<char>)>, name: Seq<char>) -> Seq<char>
    decreases rows.len(),
{
    if rows.len() == 0 {
        "-"@
    } else if rows[0].0 == name {
        rows[0].1
    } else {
        value_of(rows.skip(1), name)
    }
}

/// Finds the value of the first row with a name.
pub fn row_value(rows: &Vec<(String, String)>, name: &str) -> (value: String)
    ensures
        value@ == value_of(model::rows_view(rows@), name@),
{
    let ghost all = model::rows_view(rows@);
    let mut i: usize = 0;
    assert(all.skip(0) =~= all);
    while i < rows.len()
        invariant
            i <= rows.len(),
            all == model::rows_view(rows@),
            value_of(all, name@) == value_of(all.skip(i as int), name@),
        decreases rows.len() - i,
    {
        assert(all.skip(i as int)[0] == all[i as int]);
        if text::same(rows[i].0.as_str(), name) {
            return rows[i].1.clone();
        }
        assert(all.skip(i as int).skip(1) =~= all.skip(i + 1));
        i += 1;
    }
    "-".to_owned()
}

/// A copy of rows.
fn copy_rows(rows: &Vec<(String, String)>) -> (copy: Vec<(String, String)>)
    ensures
        model::rows_view(copy@) == model::rows_view(rows@),
{
    let mut copy: Vec<(String, String)> = Vec::new();
    let mut i: usize = 0;
    while i < rows.len()
        invariant
            i <= rows.len(),
            model::rows_view(copy@) =~= model::rows_view(rows@).take(i as int),
        decreases rows.len() - i,
    {
        push_row(&mut copy, rows[i].0.as_str(), rows[i].1.clone());
        i += 1;
    }
    assert(model::rows_view(copy@) =~= model::rows_view(rows@));
    copy
}

pub open spec fn lane_name(video: bool) -> Seq<char> {
    if video { "video"@ } else { "audio"@ }
}

pub open spec fn lane_of(video: bool) -> DebugGraphLane {
    if video { DebugGraphLane::Video } else { DebugGraphLane::Audio }
}

pub open spec fn queue_id(video: bool) -> Seq<char> {
    "oxideav-"@ + lane_name(video) + "-packet-queue"@
}

pub open spec fn stage_id(video: bool, index: nat) -> Seq<char> {
    "oxideav-"@ + lane_name(video) + "-stage-"@ + text::decimal(index)
}

pub open spec fn session_id(video: bool) -> Seq<char> {
    "sanctuary-"@ + lane_name(video) + "-session-channel"@
}

/// A column, as far as columns go.
pub open spec fn column(index: int) -> u8 {
    if index > 255 { 255 } else { index as u8 }
}

fn joined(start: &str, middle: &str, end: &str) -> (whole: String)
    ensures
        whole@ == start@ + middle@ + end@,
{
    let mut whole = start.to_owned();
    whole.append(middle);
    whole.append(end);
    whole
}

fn lane_str(video: bool) -> (name: &'static str)
    ensures
        name@ == lane_name(video),
{
    if video { "video" } else { "audio" }
}

fn lane(video: bool) -> (lane: DebugGraphLane)
    ensures
        lane == lane_of(video),
{
    if video { DebugGraphLane::Video } else { DebugGraphLane::Audio }
}

fn queue_name(video: bool) -> (id: String)
    ensures
        id@ == queue_id(video),
{
    joined("oxideav-", lane_str(video), "-packet-queue")
}

fn stage_name(video: bool, index: u64) -> (id: String)
    ensures
        id@ == stage_id(video, index as nat),
{
    let mut id = joined("oxideav-", lane_str(video), "-stage-");
    text::push_decimal(&mut id, index);
    id
}

fn session_name(video: bool) -> (id: String)
    ensures
        id@ == session_id(video),
{
    joined("sanctuary-", lane_str(video), "-session-channel")
}

/// So many of so many.
pub open spec fn depth_text(depth: usize, capacity: usize) -> Seq<char> {
    text::decimal(depth as nat) + " / "@ + text::decimal(capacity as nat)
}

fn depth_of(held: usize, capacity: usize) -> (s: String)
    ensures
        s@ == depth_text(held, capacity),
{
    let mut s = debug::number(held as u64);
    s.append(" / ");
    text::push_decimal(&mut s, capacity as u64);
    s
}

/// The node of the packets that wait to be decoded.
pub open spec fn queue_node(track: TrackTopology, video: bool, capacity: usize) -> Node {
    Node {
        id: queue_id(video),
        title: "OxideAV "@ + lane_name(video) + " packet queue"@,
        summary: depth_text(track.packet_depth, capacity),
        lane: lane_of(video),
        column: 1,
        rows: seq![
            ("source stream"@, text::decimal(track.source_stream as nat)),
            ("codec"@, track.codec@),
            ("capacity"@, text::decimal(capacity as nat)),
            ("live depth"@, text::decimal(track.packet_depth as nat)),
            ("source shape"@, track.source_shape@),
        ],
    }
}

fn make_queue_node(track: &TrackTopology, video: bool, capacity: usize) -> (node: DebugNode)
    ensures
        node@ == queue_node(*track, video, capacity),
{
    let mut rows: Vec<(String, String)> = Vec::new();
    push_row(&mut rows, "source stream", debug::number(track.source_stream as u64));
    push_row(&mut rows, "codec", track.codec.clone());
    push_row(&mut rows, "capacity", debug::number(capacity as u64));
    push_row(&mut rows, "live depth", debug::number(track.packet_depth as u64));
    push_row(&mut rows, "source shape", track.source_shape.clone());
    assert(model::rows_view(rows@) =~= queue_node(*track, video, capacity).rows);
    DebugNode::new(
        queue_name(video).as_str(),
        joined("OxideAV ", lane_str(video), " packet queue").as_str(),
        depth_of(track.packet_depth, capacity).as_str(),
        lane(video),
        1,
        rows,
    )
}

/// What a stage is called.
pub open spec fn stage_title(stage: StageInfo) -> Seq<char> {
    match stage {
        StageInfo::Copy => "OxideAV stream copy"@,
        StageInfo::Decode { implementation, .. } => implementation@,
        StageInfo::Filter { name } => "OxideAV filter: "@ + name@,
        StageInfo::PixelFormatConvert { .. } => "OxideAV pixel conversion"@,
        StageInfo::Encode { implementation, .. } => implementation@,
    }
}

/// What a stage does, in a line.
pub open spec fn stage_summary(stage: StageInfo, codec: Seq<char>) -> Seq<char> {
    match stage {
        StageInfo::Copy => codec,
        StageInfo::Decode { hardware, .. } => codec + " · "@ + debug_sections::acceleration_name(
            hardware,
        ),
        StageInfo::Filter { .. } => "frame filter"@,
        StageInfo::PixelFormatConvert { target } => target@,
        StageInfo::Encode { hardware, .. } => "encoder · "@ + debug_sections::acceleration_name(
            hardware,
        ),
    }
}

pub open spec fn stage_rows(stage: StageInfo, codec: Seq<char>) -> Seq<(Seq<char>, Seq<char>)> {
    match stage {
        StageInfo::Copy => seq![("codec"@, codec)],
        StageInfo::Decode { implementation, hardware } => seq![
            ("stage"@, "decode"@),
            ("codec"@, codec),
            ("implementation"@, implementation@),
            ("acceleration"@, debug_sections::acceleration_name(hardware)),
        ],
        StageInfo::Filter { name } => seq![("stage"@, "filter"@), ("implementation"@, name@)],
        StageInfo::PixelFormatConvert { target } => seq![
            ("stage"@, "pixel conversion"@),
            ("target"@, target@),
        ],
        StageInfo::Encode { implementation, hardware } => seq![
            ("stage"@, "encode"@),
            ("implementation"@, implementation@),
            ("acceleration"@, debug_sections::acceleration_name(hardware)),
        ],
    }
}

fn acceleration(hardware: bool) -> (name: &'static str)
    ensures
        name@ == debug_sections::acceleration_name(hardware),
{
    if hardware { "hardware" } else { "software" }
}

fn make_stage_title(stage: &StageInfo) -> (title: String)
    ensures
        title@ == stage_title(*stage),
{
    match stage {
        StageInfo::Copy => "OxideAV stream copy".to_owned(),
        StageInfo::Decode { implementation, .. } => implementation.clone(),
        StageInfo::Filter { name } => {
            let mut title = "OxideAV filter: ".to_owned();
            title.append(name.as_str());
            title
        },
        StageInfo::PixelFormatConvert { .. } => "OxideAV pixel conversion".to_owned(),
        StageInfo::Encode { implementation, .. } => implementation.clone(),
    }
}

fn make_stage_summary(stage: &StageInfo, codec: &str) -> (summary: String)
    ensures
        summary@ == stage_summary(*stage, codec@),
{
    match stage {
        StageInfo::Copy => codec.to_owned(),
        StageInfo::Decode { hardware, .. } => joined(codec, " · ", acceleration(*hardware)),
        StageInfo::Filter { .. } => "frame filter".to_owned(),
        StageInfo::PixelFormatConvert { target } => target.clone(),
        StageInfo::Encode { hardware, .. } => {
            let mut summary = "encoder · ".to_owned();
            summary.append(acceleration(*hardware));
            summary
        },
    }
}

fn make_stage_rows(stage: &StageInfo, codec: &str) -> (rows: Vec<(String, String)>)
    ensures
        model::rows_view(rows@) == stage_rows(*stage, codec@),
{
    let mut rows: Vec<(String, String)> = Vec::new();
    match stage {
        StageInfo::Copy => push_row(&mut rows, "codec", codec.to_owned()),
        StageInfo::Decode { implementation, hardware } => {
            push_row(&mut rows, "stage", "decode".to_owned());
            push_row(&mut rows, "codec", codec.to_owned());
            push_row(&mut rows, "implementation", implementation.clone());
            push_row(&mut rows, "acceleration", acceleration(*hardware).to_owned());
        },
        StageInfo::Filter { name } => {
            push_row(&mut rows, "stage", "filter".to_owned());
            push_row(&mut rows, "implementation", name.clone());
        },
        StageInfo::PixelFormatConvert { target } => {
            push_row(&mut rows, "stage", "pixel conversion".to_owned());
            push_row(&mut rows, "target", target.clone());
        },
        StageInfo::Encode { implementation, hardware } => {
            push_row(&mut rows, "stage", "encode".to_owned());
            push_row(&mut rows, "implementation", implementation.clone());
            push_row(&mut rows, "acceleration", acceleration(*hardware).to_owned());
        },
    }
    assert(model::rows_view(rows@) =~= stage_rows(*stage, codec@));
    rows
}

/// The node of a stage.
pub open spec fn stage_node(track: TrackTopology, video: bool, index: int) -> Node {
    Node {
        id: stage_id(video, index as nat),
        title: stage_title(track.stages@[index]),
        summary: stage_summary(track.stages@[index], track.codec@),
        lane: lane_of(video),
        column: column(2 + index),
        rows: stage_rows(track.stages@[index], track.codec@),
    }
}

/// What stands before a stage, or before what comes after the last one.
pub open spec fn before_stage(video: bool, index: int) -> Seq<char> {
    if index == 0 { queue_id(video) } else { stage_id(video, (index - 1) as nat) }
}

/// A diagram with the first stages of a track added to it, each joined to what is before it.
pub open spec fn with_stages(graph: Graph, track: TrackTopology, video: bool, count: int) -> Graph
    decreases count,
{
    if count <= 0 {
        graph
    } else {
        with_stages(graph, track, video, count - 1).with_node(
            stage_node(track, video, count - 1),
        ).with_edge(
            model::flow(
                before_stage(video, count - 1),
                stage_id(video, (count - 1) as nat),
                ""@,
            ),
        )
    }
}

fn column_of(index: usize, offset: u8) -> (c: u8)
    requires
        offset <= 5,
    ensures
        c == column(index + offset),
{
    if index > 255 {
        255
    } else if index + offset as usize > 255 {
        255
    } else {
        (index + offset as usize) as u8
    }
}

fn push_stages(graph: &mut DebugGraph, track: &TrackTopology, video: bool)
    ensures
        final(graph)@ == with_stages(old(graph)@, *track, video, track.stages@.len() as int),
{
    let mut index: usize = 0;
    let mut previous = queue_name(video);
    while index < track.stages.len()
        invariant
            index <= track.stages.len(),
            graph@ == with_stages(old(graph)@, *track, video, index as int),
            previous@ == before_stage(video, index as int),
        decreases track.stages.len() - index,
    {
        let id = stage_name(video, index as u64);
        let stage = &track.stages[index];
        graph.push_node(
            DebugNode::new(
                id.as_str(),
                make_stage_title(stage).as_str(),
                make_stage_summary(stage, track.codec.as_str()).as_str(),
                lane(video),
                column_of(index, 2),
                make_stage_rows(stage, track.codec.as_str()),
            ),
        );
        graph.push_edge(DebugEdge::flow(previous.as_str(), id.as_str(), ""));
        previous = id;
        index += 1;
    }
}

/// The node of the frames that wait to be taken.
pub open spec fn session_node(track: TrackTopology, video: bool, index: int) -> Node {
    Node {
        id: session_id(video),
        title: "Sanctuary "@ + lane_name(video) + " TrackSink / session channel"@,
        summary: depth_text(track.session_depth, SESSION_CHANNEL_CAP),
        lane: lane_of(video),
        column: column((2 + track.stages@.len()) as int),
        rows: seq![
            ("capacity"@, text::decimal(SESSION_CHANNEL_CAP as nat)),
            ("live depth"@, text::decimal(track.session_depth as nat)),
            ("track"@, text::decimal(index as nat)),
        ],
    }
}

fn make_session_node(track: &TrackTopology, video: bool, index: usize) -> (node: DebugNode)
    ensures
        node@ == session_node(*track, video, index as int),
{
    let mut rows: Vec<(String, String)> = Vec::new();
    push_row(&mut rows, "capacity", debug::number(SESSION_CHANNEL_CAP as u64));
    push_row(&mut rows, "live depth", debug::number(track.session_depth as u64));
    push_row(&mut rows, "track", debug::number(index as u64));
    assert(model::rows_view(rows@) =~= session_node(*track, video, index as int).rows);
    DebugNode::new(
        session_name(video).as_str(),
        joined("Sanctuary ", lane_str(video), " TrackSink / session channel").as_str(),
        depth_of(track.session_depth, SESSION_CHANNEL_CAP).as_str(),
        lane(video),
        column_of(track.stages.len(), 2),
        rows,
    )
}

/// The node of the pictures that wait to be shown.
pub open spec fn lookahead_node(player: OxideView, sections: Sections, stages: int) -> Node {
    Node {
        id: "video-lookahead"@,
        title: "Decoded video lookahead"@,
        summary: debug_sections::lookahead_text(player),
        lane: DebugGraphLane::Video,
        column: column(3 + stages),
        rows: sections.video,
    }
}

/// The node of the conversion of sound.
pub open spec fn convert_node(sections: Sections, stages: int) -> Node {
    Node {
        id: "audio-convert"@,
        title: "AudioOutput PCM conversion"@,
        summary: "decoded audio → interleaved f32"@,
        lane: DebugGraphLane::Audio,
        column: column(3 + stages),
        rows: seq![
            ("conversion"@, "decode_to_f32"@),
            ("layout"@, "interleaved f32"@),
            ("source format"@, value_of(sections.audio, "sample format"@)),
            ("source rate"@, value_of(sections.audio, "sample rate"@)),
            ("channels"@, value_of(sections.audio, "channels"@)),
        ],
    }
}

fn make_convert_node(sections: &DebugSections, stages: usize) -> (node: DebugNode)
    ensures
        node@ == convert_node(sections@, stages as int),
{
    let mut rows: Vec<(String, String)> = Vec::new();
    push_row(&mut rows, "conversion", "decode_to_f32".to_owned());
    push_row(&mut rows, "layout", "interleaved f32".to_owned());
    push_row(&mut rows, "source format", row_value(&sections.audio, "sample format"));
    push_row(&mut rows, "source rate", row_value(&sections.audio, "sample rate"));
    push_row(&mut rows, "channels", row_value(&sections.audio, "channels"));
    assert(model::rows_view(rows@) =~= convert_node(sections@, stages as int).rows);
    DebugNode::new(
        "audio-convert",
        "AudioOutput PCM conversion",
        "decoded audio → interleaved f32",
        DebugGraphLane::Audio,
        column_of(stages, 3),
        rows,
    )
}

/// The node of the sound that waits to be played.
pub open spec fn ring_node(sections: Sections, stages: int) -> Node {
    Node {
        id: "audio-pcm-ring"@,
        title: "PcmTimeline ring"@,
        summary: value_of(sections.audio, "ring queued"@),
        lane: DebugGraphLane::Audio,
        column: column(4 + stages),
        rows: seq![
            ("queued"@, value_of(sections.audio, "ring queued"@)),
            ("target"@, value_of(sections.audio, "ring target"@)),
            ("headroom"@, value_of(sections.audio, "ring headroom"@)),
            ("next output PTS"@, value_of(sections.audio, "next output PTS"@)),
            ("media origin"@, value_of(sections.audio, "media origin"@)),
            ("pending decoded frame"@, value_of(sections.audio, "pending frame"@)),
        ],
    }
}

fn make_ring_node(sections: &DebugSections, stages: usize) -> (node: DebugNode)
    ensures
        node@ == ring_node(sections@, stages as int),
{
    let mut rows: Vec<(String, String)> = Vec::new();
    push_row(&mut rows, "queued", row_value(&sections.audio, "ring queued"));
    push_row(&mut rows, "target", row_value(&sections.audio, "ring target"));
    push_row(&mut rows, "headroom", row_value(&sections.audio, "ring headroom"));
    push_row(&mut rows, "next output PTS", row_value(&sections.audio, "next output PTS"));
    push_row(&mut rows, "media origin", row_value(&sections.audio, "media origin"));
    push_row(&mut rows, "pending decoded frame", row_value(&sections.audio, "pending frame"));
    assert(model::rows_view(rows@) =~= ring_node(sections@, stages as int).rows);
    DebugNode::new(
        "audio-pcm-ring",
        "PcmTimeline ring",
        row_value(&sections.audio, "ring queued").as_str(),
        DebugGraphLane::Audio,
        column_of(stages, 4),
        rows,
    )
}

/// The node of the device that plays the sound.
pub open spec fn device_node(sections: Sections, stages: int) -> Node {
    Node {
        id: "audio-device"@,
        title: "sysaudio "@ + value_of(sections.audio, "output backend"@),
        summary: value_of(sections.audio, "playing"@) + " · "@ + value_of(
            sections.audio,
            "device rate"@,
        ),
        lane: DebugGraphLane::Audio,
        column: column(5 + stages),
        rows: seq![
            ("backend"@, value_of(sections.audio, "output backend"@)),
            ("device rate"@, value_of(sections.audio, "device rate"@)),
            ("playing"@, value_of(sections.audio, "playing"@)),
            ("submitted samples"@, value_of(sections.audio, "submitted samples"@)),
            ("underruns"@, value_of(sections.audio, "underruns"@)),
        ],
    }
}

fn make_device_node(sections: &DebugSections, stages: usize) -> (node: DebugNode)
    ensures
        node@ == device_node(sections@, stages as int),
{
    let backend = row_value(&sections.audio, "output backend");
    let mut title = "sysaudio ".to_owned();
    title.append(backend.as_str());
    let playing = row_value(&sections.audio, "playing");
    let rate = row_value(&sections.audio, "device rate");
    let summary = joined(playing.as_str(), " · ", rate.as_str());
    let mut rows: Vec<(String, String)> = Vec::new();
    push_row(&mut rows, "backend", backend);
    push_row(&mut rows, "device rate", rate);
    push_row(&mut rows, "playing", playing);
    push_row(&mut rows, "submitted samples", row_value(&sections.audio, "submitted samples"));
    push_row(&mut rows, "underruns", row_value(&sections.audio, "underruns"));
    assert(model::rows_view(rows@) =~= device_node(sections@, stages as int).rows);
    DebugNode::new(
        "audio-device",
        title.as_str(),
        summary.as_str(),
        DebugGraphLane::Audio,
        column_of(stages, 5),
        rows,
    )
}

/// A diagram with what comes after the session of a track: the pictures that wait, or the way
/// of the sound to the device.
pub open spec fn with_end(
    graph: Graph,
    player: OxideView,
    sections: Sections,
    video: bool,
    stages: int,
) -> Graph {
    if video {
        graph.with_node(lookahead_node(player, sections, stages)).with_edge(
            model::flow(session_id(video), "video-lookahead"@, "FrameLease"@),
        )
    } else {
        graph.with_node(convert_node(sections, stages)).with_edge(
            model::flow(session_id(video), "audio-convert"@, "decoded frames"@),
        ).with_node(ring_node(sections, stages)).with_edge(
            model::flow("audio-convert"@, "audio-pcm-ring"@, "f32 PCM"@),
        ).with_node(device_node(sections, stages)).with_edge(
            model::flow("audio-pcm-ring"@, "audio-device"@, "device callback"@),
        )
    }
}

fn push_end(
    graph: &mut DebugGraph,
    player: &OxidePlayer,
    sections: &DebugSections,
    video: bool,
    stages: usize,
)
    ensures
        final(graph)@ == with_end(old(graph)@, player@, sections@, video, stages as int),
{
    let session = session_name(video);
    if video {
        graph.push_node(
            DebugNode::new(
                "video-lookahead",
                "Decoded video lookahead",
                debug_sections::lookahead(player).as_str(),
                DebugGraphLane::Video,
                column_of(stages, 3),
                copy_rows(&sections.video),
            ),
        );
        graph.push_edge(DebugEdge::flow(session.as_str(), "video-lookahead", "FrameLease"));
    } else {
        graph.push_node(make_convert_node(sections, stages));
        graph.push_edge(DebugEdge::flow(session.as_str(), "audio-convert", "decoded frames"));
        graph.push_node(make_ring_node(sections, stages));
        graph.push_edge(DebugEdge::flow("audio-convert", "audio-pcm-ring", "f32 PCM"));
        graph.push_node(make_device_node(sections, stages));
        graph.push_edge(DebugEdge::flow("audio-pcm-ring", "audio-device", "device callback"));
    }
}

/// A diagram with a track added to it; one that is neither pictures nor sound is left out.
pub open spec fn with_track(
    graph: Graph,
    player: OxideView,
    sections: Sections,
    topology: Topology,
    index: int,
) -> Graph {
    let track = topology.tracks@[index];
    if !(track.media_type is Audio || track.media_type is Video) {
        graph
    } else {
        let video = track.media_type is Video;
        let stages = track.stages@.len() as int;
        let begun = graph.with_node(
            queue_node(track, video, topology.packet_capacity),
        ).with_edge(model::flow("media-source"@, queue_id(video), "compressed packets"@));
        let decoded = with_stages(begun, track, video, stages).with_node(
            session_node(track, video, index),
        ).with_edge(
            model::flow(before_stage(video, stages), session_id(video), "decoded frames"@),
        );
        with_end(decoded, player, sections, video, stages)
    }
}

fn push_track(
    graph: &mut DebugGraph,
    player: &OxidePlayer,
    sections: &DebugSections,
    topology: &Topology,
    index: usize,
)
    requires
        index < topology.tracks@.len(),
    ensures
        final(graph)@ == with_track(old(graph)@, player@, sections@, *topology, index as int),
{
    let track = &topology.tracks[index];
    let video: bool = match track.media_type {
        MediaType::Video => true,
        MediaType::Audio => false,
        _ => return,
    };
    graph.push_node(make_queue_node(track, video, topology.packet_capacity));
    graph.push_edge(
        DebugEdge::flow("media-source", queue_name(video).as_str(), "compressed packets"),
    );
    push_stages(graph, track, video);
    let count: usize = track.stages.len();
    let previous = if count == 0 { queue_name(video) } else {
        stage_name(video, (count - 1) as u64)
    };
    graph.push_node(make_session_node(track, video, index));
    graph.push_edge(
        DebugEdge::flow(previous.as_str(), session_name(video).as_str(), "decoded frames"),
    );
    push_end(graph, player, sections, video, count);
}

/// A diagram with the first tracks added to it.
pub open spec fn with_tracks(
    graph: Graph,
    player: OxideView,
    sections: Sections,
    topology: Topology,
    count: int,
) -> Graph
    decreases count,
{
    if count <= 0 {
        graph
    } else {
        with_track(
            with_tracks(graph, player, sections, topology, count - 1),
            player,
            sections,
            topology,
            count - 1,
        )
    }
}

/// In what form the source gives its packets.
pub open spec fn source_summary(topology: Option<Topology>) -> Seq<char> {
    match topology {
        Some(topology) => if topology.tracks@.len() > 0 {
            topology.tracks@[0].source_shape@
        } else {
            "not open"@
        },
        None => "not open"@,
    }
}

/// The node of the source.
pub open spec fn source_node(sections: Sections, topology: Option<Topology>) -> Node {
    let rows = seq![
        ("HLS host"@, value_of(sections.pipeline, "HLS host"@)),
        ("network / stream"@, value_of(sections.pipeline, "network / stream"@)),
        ("source shape"@, source_summary(topology)),
    ];
    Node {
        id: "media-source"@,
        title: "HLS / OxideAV source"@,
        summary: source_summary(topology),
        lane: DebugGraphLane::Shared,
        column: 0,
        rows: match topology {
            Some(topology) => rows.push(("executor output"@, topology.output_name@)),
            None => rows,
        },
    }
}

fn make_source_node(sections: &DebugSections, topology: &Option<Topology>) -> (node: DebugNode)
    ensures
        node@ == source_node(sections@, *topology),
{
    let summary: String = match topology {
        Some(topology) => if topology.tracks.len() > 0 {
            topology.tracks[0].source_shape.clone()
        } else {
            "not open".to_owned()
        },
        None => "not open".to_owned(),
    };
    let mut rows: Vec<(String, String)> = Vec::new();
    push_row(&mut rows, "HLS host", row_value(&sections.pipeline, "HLS host"));
    push_row(&mut rows, "network / stream", row_value(&sections.pipeline, "network / stream"));
    push_row(&mut rows, "source shape", summary.clone());
    match topology {
        Some(topology) => push_row(&mut rows, "executor output", topology.output_name.clone()),
        None => {},
    }
    assert(model::rows_view(rows@) =~= source_node(sections@, *topology).rows);
    DebugNode::new(
        "media-source",
        "HLS / OxideAV source",
        summary.as_str(),
        DebugGraphLane::Shared,
        0,
        rows,
    )
}

/// A diagram with what all tracks share added to it.
pub open spec fn with_shared(graph: Graph, sections: Sections) -> Graph {
    graph.with_node(
        Node {
            id: "playback-control"@,
            title: "Playback / control"@,
            summary: value_of(sections.playback, "state"@),
            lane: DebugGraphLane::Shared,
            column: 2,
            rows: sections.playback,
        },
    ).with_node(
        Node {
            id: "timeline"@,
            title: "Timeline / seek"@,
            summary: value_of(sections.timeline, "timeline origin"@),
            lane: DebugGraphLane::Shared,
            column: 3,
            rows: sections.timeline,
        },
    ).with_edge(model::relationship("timeline"@, "video-lookahead"@, "video clock"@)).with_edge(
        model::relationship("timeline"@, "audio-pcm-ring"@, "audio PTS"@),
    ).with_node(
        Node {
            id: "pipeline-control"@,
            title: "OxideAV executor"@,
            summary: value_of(sections.pipeline, "executor"@),
            lane: DebugGraphLane::Shared,
            column: 1,
            rows: sections.pipeline,
        },
    ).with_edge(model::relationship("pipeline-control"@, "media-source"@, "owns source pump"@))
}

fn push_shared(graph: &mut DebugGraph, sections: DebugSections)
    ensures
        final(graph)@ == with_shared(old(graph)@, sections@),
{
    let state = row_value(&sections.playback, "state");
    let origin = row_value(&sections.timeline, "timeline origin");
    let executor = row_value(&sections.pipeline, "executor");
    graph.push_node(
        DebugNode::new(
            "playback-control",
            "Playback / control",
            state.as_str(),
            DebugGraphLane::Shared,
            2,
            sections.playback,
        ),
    );
    graph.push_node(
        DebugNode::new(
            "timeline",
            "Timeline / seek",
            origin.as_str(),
            DebugGraphLane::Shared,
            3,
            sections.timeline,
        ),
    );
    graph.push_edge(DebugEdge::relationship("timeline", "video-lookahead", "video clock"));
    graph.push_edge(DebugEdge::relationship("timeline", "audio-pcm-ring", "audio PTS"));
    graph.push_node(
        DebugNode::new(
            "pipeline-control",
            "OxideAV executor",
            executor.as_str(),
            DebugGraphLane::Shared,
            1,
            sections.pipeline,
        ),
    );
    graph.push_edge(DebugEdge::relationship("pipeline-control", "media-source", "owns source pump"));
}

/// The pipeline as a diagram, with the tracks of a pipeline that runs.
pub open spec fn pipeline_graph(player: OxideView, sections: Sections, topology: Option<Topology>) -> Graph {
    let source = (Graph { nodes: Seq::empty(), edges: Seq::empty() }).with_node(
        source_node(sections, topology),
    );
    let joined_tracks = match topology {
        Some(topology) => with_tracks(
            source,
            player,
            sections,
            topology,
            topology.tracks@.len() as int,
        ),
        None => source,
    };
    with_shared(joined_tracks, sections)
}

impl OxidePlayer {
    /// The pipeline as a diagram.
    pub fn debug_graph(&self, facts: &DebugFacts, topology: &Option<Topology>, now: Instant) -> (graph:
        DebugGraph)
        ensures
            graph@ == pipeline_graph(
                self@,
                debug_sections::sections_of(self@, *facts, now),
                *topology,
            ),
    {
        let sections = debug_sections::sections(self, facts, now);
        let mut graph = DebugGraph::new();
        assert(graph@.nodes =~= Seq::<Node>::empty());
        assert(graph@.edges =~= Seq::<crate::model::Edge>::empty());
        graph.push_node(make_source_node(&sections, topology));
        let ghost source = graph@;
        match topology {
            Some(topology) => {
                let mut index: usize = 0;
                while index < topology.tracks.len()
                    invariant
                        index <= topology.tracks.len(),
                        graph@ == with_tracks(source, self@, sections@, *topology, index as int),
                    decreases topology.tracks.len() - index,
                {
                    push_track(&mut graph, self, &sections, topology, index);
                    index += 1;
                }
            },
            None => {},
        }
        push_shared(&mut graph, sections);
        graph
    }
}

/// A diagram shows no stage of a pipeline that does not run.
pub proof fn no_stages_without_a_pipeline(player: OxideView, sections: Sections, id: Seq<char>)
    requires
        pipeline_graph(player, sections, None).has_node(id),
    ensures
        id == "media-source"@ || id == "playback-control"@ || id == "timeline"@ || id
            == "pipeline-control"@,
{
    let nodes = pipeline_graph(player, sections, None).nodes;
    assert(nodes.len() == 4);
    assert(nodes[0].id == "media-source"@ && nodes[1].id == "playback-control"@ && nodes[2].id
        == "timeline"@ && nodes[3].id == "pipeline-control"@);
}

/// The stages of a track stand in a row behind its packet queue, in the order in which it is
/// decoded, each joined to the one before.
pub proof fn stages_stand_in_a_row(graph: Graph, track: TrackTopology, video: bool, count: int, k: int)
    requires
        0 <= k < count <= track.stages@.len(),
        track.stages@.len() < 200,
    ensures
        ({
            let after = with_stages(graph, track, video, count);
            &&& after.nodes.len() == graph.nodes.len() + count
            &&& after.edges.len() == graph.edges.len() + count
            &&& after.nodes[graph.nodes.len() + k].id == stage_id(video, k as nat)
            &&& after.nodes[graph.nodes.len() + k].column == 2 + k
            &&& after.nodes[graph.nodes.len() + k].lane == (if video {
                DebugGraphLane::Video
            } else {
                DebugGraphLane::Audio
            })
            &&& after.edges[graph.edges.len() + k].to == stage_id(video, k as nat)
            &&& after.edges[graph.edges.len() + k].from == (if k == 0 {
                queue_id(video)
            } else {
                stage_id(video, (k - 1) as nat)
            })
        }),
    decreases count,
{
    if k < count - 1 {
        stages_stand_in_a_row(graph, track, video, count - 1, k);
    } else if count > 1 {
        stages_stand_in_a_row(graph, track, video, count - 1, 0);
    } else {
        assert(with_stages(graph, track, video, 0) == graph);
    }
}

/// Every row is found by its name: the first that has it, and a dash if none has.
pub proof fn rows_are_found_by_name(rows: Seq<(Seq<char>, Seq<char>)>, name: Seq<char>, k: int)
    ensures
        0 <= k < rows.len() && rows[k].0 == name && (forall|j: int|
            0 <= j < k ==> (#[trigger] rows[j]).0 != name) ==> value_of(rows, name) == rows[k].1,
        (forall|j: int| 0 <= j < rows.len() ==> (#[trigger] rows[j]).0 != name) ==> value_of(
            rows,
            name,
        ) == "-"@,
    decreases rows.len(),
{
    if rows.len() > 0 {
        let rest = rows.skip(1);
        if rows[0].0 != name {
            rows_are_found_by_name(rest, name, k - 1);
            if 0 < k < rows.len() && rows[k].0 == name && (forall|j: int|
                0 <= j < k ==> (#[trigger] rows[j]).0 != name) {
                assert(rest[k - 1] == rows[k]);
                assert forall|j: int| 0 <= j < k - 1 implies (#[trigger] rest[j]).0 != name by {
                    assert(rest[j] == rows[j + 1]);
                }
            }
            if forall|j: int| 0 <= j < rows.len() ==> (#[trigger] rows[j]).0 != name {
                assert forall|j: int| 0 <= j < rest.len() implies (#[trigger] rest[j]).0
                    != name by {
                    assert(rest[j] == rows[j + 1]);
                }
            }
        }
    }
}

} // verus!
