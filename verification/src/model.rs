//! What the player shows and what it is told to do.

use crate::text;
use crate::time::Duration;
use crate::video::VideoSource;
use vstd::prelude::*;

verus! {

#[derive(Debug, PartialEq, Eq)]
pub enum PlaybackState {
    Loading,
    Paused,
    Playing,
    Buffering,
    Seeking,
    Ended,
    Error(String),
}

impl Clone for PlaybackState {
    fn clone(&self) -> (state: Self)
        ensures
            state == *self,
    {
        match self {
            PlaybackState::Loading => PlaybackState::Loading,
            PlaybackState::Paused => PlaybackState::Paused,
            PlaybackState::Playing => PlaybackState::Playing,
            PlaybackState::Buffering => PlaybackState::Buffering,
            PlaybackState::Seeking => PlaybackState::Seeking,
            PlaybackState::Ended => PlaybackState::Ended,
            PlaybackState::Error(message) => PlaybackState::Error(message.clone()),
        }
    }
}

#[derive(Clone, Debug, PartialEq, Eq)]
pub struct DebugInfoSection {
    pub title: String,
    pub rows: Vec<(String, String)>,
}

/// What a section shows.
pub struct Section {
    pub title: Seq<char>,
    pub rows: Seq<(Seq<char>, Seq<char>)>,
}

impl View for DebugInfoSection {
    type V = Section;

    open spec fn view(&self) -> Section {
        Section { title: self.title@, rows: rows_view(self.rows@) }
    }
}

impl DebugInfoSection {
    pub fn new(title: &str, rows: Vec<(String, String)>) -> (section: Self)
        ensures
            section.title@ == title@,
            section.rows == rows,
    {
        DebugInfoSection { title: title.to_owned(), rows }
    }
}

#[derive(Clone, Copy, Debug, PartialEq, Eq, Structural)]
pub enum DebugGraphLane {
    Shared,
    Video,
    Audio,
}

#[derive(Clone, Copy, Debug, PartialEq, Eq, Structural)]
pub enum DebugEdgeKind {
    Flow,
    Relationship,
}

#[derive(Clone, Debug, PartialEq, Eq)]
pub struct DebugNode {
    pub id: String,
    pub title: String,
    pub summary: String,
    pub lane: DebugGraphLane,
    pub column: u8,
    pub rows: Vec<(String, String)>,
}

impl DebugNode {
    pub fn new(
        id: &str,
        title: &str,
        summary: &str,
        lane: DebugGraphLane,
        column: u8,
        rows: Vec<(String, String)>,
    ) -> (node: Self)
        ensures
            node.id@ == id@,
            node.title@ == title@,
            node.summary@ == summary@,
            node.lane == lane,
            node.column == column,
            node.rows == rows,
    {
        DebugNode {
            id: id.to_owned(),
            title: title.to_owned(),
            summary: summary.to_owned(),
            lane,
            column,
            rows,
        }
    }
}

#[derive(Debug, PartialEq, Eq)]
pub struct DebugEdge {
    pub from: String,
    pub to: String,
    pub label: String,
    pub kind: DebugEdgeKind,
}

impl Clone for DebugEdge {
    fn clone(&self) -> (edge: Self)
        ensures
            edge == *self,
    {
        DebugEdge {
            from: self.from.clone(),
            to: self.to.clone(),
            label: self.label.clone(),
            kind: self.kind,
        }
    }
}

impl DebugEdge {
    pub fn flow(from: &str, to: &str, label: &str) -> (edge: Self)
        ensures
            edge.from@ == from@,
            edge.to@ == to@,
            edge.label@ == label@,
            edge.kind == DebugEdgeKind::Flow,
    {
        DebugEdge {
            from: from.to_owned(),
            to: to.to_owned(),
            label: label.to_owned(),
            kind: DebugEdgeKind::Flow,
        }
    }

    pub fn relationship(from: &str, to: &str, label: &str) -> (edge: Self)
        ensures
            edge.from@ == from@,
            edge.to@ == to@,
            edge.label@ == label@,
            edge.kind == DebugEdgeKind::Relationship,
    {
        DebugEdge {
            from: from.to_owned(),
            to: to.to_owned(),
            label: label.to_owned(),
            kind: DebugEdgeKind::Relationship,
        }
    }
}

/// What a node shows: its names, its place and its rows.
pub struct Node {
    pub id: Seq<char>,
    pub title: Seq<char>,
    pub summary: Seq<char>,
    pub lane: DebugGraphLane,
    pub column: u8,
    pub rows: Seq<(Seq<char>, Seq<char>)>,
}

/// What an edge joins, and how.
pub struct Edge {
    pub from: Seq<char>,
    pub to: Seq<char>,
    pub label: Seq<char>,
    pub kind: DebugEdgeKind,
}

/// What a diagram shows.
pub struct Graph {
    pub nodes: Seq<Node>,
    pub edges: Seq<Edge>,
}

/// The texts of a list of rows.
pub open spec fn rows_view(rows: Seq<(String, String)>) -> Seq<(Seq<char>, Seq<char>)> {
    rows.map_values(|row: (String, String)| (row.0@, row.1@))
}

impl View for DebugNode {
    type V = Node;

    open spec fn view(&self) -> Node {
        Node {
            id: self.id@,
            title: self.title@,
            summary: self.summary@,
            lane: self.lane,
            column: self.column,
            rows: rows_view(self.rows@),
        }
    }
}

impl View for DebugEdge {
    type V = Edge;

    open spec fn view(&self) -> Edge {
        Edge { from: self.from@, to: self.to@, label: self.label@, kind: self.kind }
    }
}

/// An edge along which media flow.
pub open spec fn flow(from: Seq<char>, to: Seq<char>, label: Seq<char>) -> Edge {
    Edge { from, to, label, kind: DebugEdgeKind::Flow }
}

/// An edge between things that belong together.
pub open spec fn relationship(from: Seq<char>, to: Seq<char>, label: Seq<char>) -> Edge {
    Edge { from, to, label, kind: DebugEdgeKind::Relationship }
}

/// Adds a row to a list of rows.
pub fn push_row(rows: &mut Vec<(String, String)>, name: &str, value: String)
    ensures
        rows_view(final(rows)@) == rows_view(old(rows)@).push((name@, value@)),
{
    rows.push((name.to_owned(), value));
    assert(rows_view(rows@) =~= rows_view(old(rows)@).push((name@, value@)));
}

/// A diagram of the playback pipeline.
#[derive(Clone, Debug, PartialEq, Eq)]
pub struct DebugGraph {
    pub nodes: Vec<DebugNode>,
    pub edges: Vec<DebugEdge>,
}

impl View for DebugGraph {
    type V = Graph;

    open spec fn view(&self) -> Graph {
        Graph {
            nodes: self.nodes@.map_values(|node: DebugNode| node@),
            edges: self.edges@.map_values(|edge: DebugEdge| edge@),
        }
    }
}

impl Graph {
    pub open spec fn with_node(self, node: Node) -> Graph {
        Graph { nodes: self.nodes.push(node), ..self }
    }

    pub open spec fn with_edge(self, edge: Edge) -> Graph {
        Graph { edges: self.edges.push(edge), ..self }
    }

    /// Whether one of the nodes has the identifier `id`.
    pub open spec fn has_node(self, id: Seq<char>) -> bool {
        exists|i: int| 0 <= i < self.nodes.len() && (#[trigger] self.nodes[i]).id == id
    }
}

/// Whether one of `nodes` has the identifier `id`.
pub open spec fn has_node(nodes: Seq<DebugNode>, id: Seq<char>) -> bool {
    exists|i: int| 0 <= i < nodes.len() && (#[trigger] nodes[i]).id@ == id
}

/// Whether both ends of an edge are among `nodes`.
pub open spec fn is_resolved(nodes: Seq<DebugNode>, edge: DebugEdge) -> bool {
    has_node(nodes, edge.from@) && has_node(nodes, edge.to@)
}

/// The edges whose ends are both among `nodes`, in order.
pub open spec fn resolved_edges(nodes: Seq<DebugNode>, edges: Seq<DebugEdge>) -> Seq<DebugEdge>
    decreases edges.len(),
{
    if edges.len() == 0 {
        edges
    } else {
        let before = resolved_edges(nodes, edges.drop_last());
        if is_resolved(nodes, edges.last()) { before.push(edges.last()) } else { before }
    }
}

impl Default for DebugGraph {
    fn default() -> (graph: Self)
        ensures
            graph.nodes@ == Seq::<DebugNode>::empty(),
            graph.edges@ == Seq::<DebugEdge>::empty(),
    {
        DebugGraph::new()
    }
}

impl DebugGraph {
    pub fn new() -> (graph: Self)
        ensures
            graph.nodes@ == Seq::<DebugNode>::empty(),
            graph.edges@ == Seq::<DebugEdge>::empty(),
    {
        DebugGraph { nodes: Vec::new(), edges: Vec::new() }
    }

    pub fn extend(&mut self, other: Self)
        ensures
            final(self).nodes@ == old(self).nodes@ + other.nodes@,
            final(self).edges@ == old(self).edges@ + other.edges@,
    {
        let mut other = other;
        self.nodes.append(&mut other.nodes);
        self.edges.append(&mut other.edges);
    }

    pub fn contains_node(&self, id: &str) -> (found: bool)
        ensures
            found == has_node(self.nodes@, id@),
            found == self@.has_node(id@),
    {
        let mut i: usize = 0;
        while i < self.nodes.len()
            invariant
                i <= self.nodes.len(),
                forall|k: int| 0 <= k < i ==> (#[trigger] self.nodes@[k]).id@ != id@,
            decreases self.nodes.len() - i,
        {
            if text::same(self.nodes[i].id.as_str(), id) {
                assert(self.nodes@[i as int].id@ == id@);
                assert(self@.nodes[i as int].id == id@);
                return true;
            }
            i += 1;
        }
        assert(forall|k: int|
            0 <= k < self@.nodes.len() ==> (#[trigger] self@.nodes[k]) == self.nodes@[k]@);
        false
    }

    pub fn push_node(&mut self, node: DebugNode)
        ensures
            final(self)@ == old(self)@.with_node(node@),
    {
        self.nodes.push(node);
        assert(self@.nodes =~= old(self)@.nodes.push(node@));
    }

    pub fn push_edge(&mut self, edge: DebugEdge)
        ensures
            final(self)@ == old(self)@.with_edge(edge@),
    {
        self.edges.push(edge);
        assert(self@.edges =~= old(self)@.edges.push(edge@));
    }

    /// Drops the edges that lead from or to a node that is not there.
    pub fn retain_resolved_edges(&mut self)
        ensures
            final(self).nodes == old(self).nodes,
            final(self).edges@ == resolved_edges(old(self).nodes@, old(self).edges@),
    {
        let mut kept: Vec<DebugEdge> = Vec::new();
        let mut i: usize = 0;
        assert(self.edges@.take(0) =~= Seq::<DebugEdge>::empty());
        while i < self.edges.len()
            invariant
                i <= self.edges.len(),
                self.nodes == old(self).nodes,
                self.edges == old(self).edges,
                kept@ == resolved_edges(self.nodes@, self.edges@.take(i as int)),
            decreases self.edges.len() - i,
        {
            proof {
                assert(self.edges@.take(i + 1).drop_last() =~= self.edges@.take(i as int));
            }
            if self.contains_node(self.edges[i].from.as_str()) && self.contains_node(
                self.edges[i].to.as_str(),
            ) {
                kept.push(self.edges[i].clone());
            }
            i += 1;
        }
        assert(self.edges@.take(self.edges@.len() as int) =~= self.edges@);
        self.edges = kept;
    }
}

/// Every edge that is retained is resolved, and was there before.
pub proof fn retained_edges_are_resolved(nodes: Seq<DebugNode>, edges: Seq<DebugEdge>)
    ensures
        forall|i: int|
            0 <= i < resolved_edges(nodes, edges).len() ==> is_resolved(
                nodes,
                #[trigger] resolved_edges(nodes, edges)[i],
            ) && edges.contains(resolved_edges(nodes, edges)[i]),
    decreases edges.len(),
{
    if edges.len() > 0 {
        let shorter = edges.drop_last();
        retained_edges_are_resolved(nodes, shorter);
        assert forall|i: int| 0 <= i < resolved_edges(nodes, edges).len() implies is_resolved(
            nodes,
            #[trigger] resolved_edges(nodes, edges)[i],
        ) && edges.contains(resolved_edges(nodes, edges)[i]) by {
            let before = resolved_edges(nodes, shorter);
            if i < before.len() {
                assert(resolved_edges(nodes, edges)[i] == before[i]);
                assert(shorter.contains(before[i]));
                let k = choose|k: int| 0 <= k < shorter.len() && shorter[k] == before[i];
                assert(edges[k] == before[i]);
            } else {
                assert(edges[edges.len() - 1] == edges.last());
            }
        }
    }
}

/// Retaining the resolved edges twice changes nothing more.
pub proof fn retaining_is_idempotent(nodes: Seq<DebugNode>, edges: Seq<DebugEdge>)
    ensures
        resolved_edges(nodes, resolved_edges(nodes, edges)) == resolved_edges(nodes, edges),
    decreases edges.len(),
{
    if edges.len() > 0 {
        let before = resolved_edges(nodes, edges.drop_last());
        retaining_is_idempotent(nodes, edges.drop_last());
        if is_resolved(nodes, edges.last()) {
            assert(before.push(edges.last()).drop_last() =~= before);
        }
    }
}

/// A quality in which a video can be played.
#[derive(Debug, PartialEq, Eq)]
pub struct Quality {
    pub id: String,
    pub label: String,
}

impl Clone for Quality {
    fn clone(&self) -> (quality: Self)
        ensures
            quality == *self,
    {
        Quality { id: self.id.clone(), label: self.label.clone() }
    }
}

impl Quality {
    pub fn new(id: &str, label: &str) -> (quality: Self)
        ensures
            quality.id@ == id@,
            quality.label@ == label@,
    {
        Quality { id: id.to_owned(), label: label.to_owned() }
    }
}

/// What the user asks the player to do. Rates and volumes are hundredths.
#[derive(Clone, Debug, PartialEq, Eq)]
pub enum AppCommand {
    OpenVideo(VideoSource),
    TogglePlayback,
    RefreshPlayback,
    ToggleDebugInfo,
    Play,
    Pause,
    SeekAbsolute(Duration),
    SeekRelative(i64),
    SetPlaybackRate(u32),
    SetVolume(u32),
    SetQuality(String),
    SetFavouriteQualities(String),
    SignIn { user_id: String, device_id: String },
    SignOut,
    ToggleFullscreen,
    ToggleControlsLock,
    ToggleControlsVisibility,
}

/// The edges that are kept are those with a node at either end, in their order.
pub proof fn edges_between_nodes_are_kept(nodes: Seq<DebugNode>, edges: Seq<DebugEdge>)
    ensures
        resolved_edges(nodes, edges) == edges.filter(
            |edge: DebugEdge| has_node(nodes, edge.from@) && has_node(nodes, edge.to@),
        ),
    decreases edges.len(),
{
    reveal(Seq::filter);
    if edges.len() > 0 {
        edges_between_nodes_are_kept(nodes, edges.drop_last());
    }
}

} // verus!
