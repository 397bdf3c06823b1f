use sanctuary_player::model::{
    DebugEdge, DebugEdgeKind, DebugGraph, DebugGraphLane, DebugInfoSection, DebugNode,
};
use sanctuary_player::playback::backend::section_graph;

#[test]
fn graph_extend_preserves_stable_nodes_lanes_and_edge_kinds() {
    let mut graph = DebugGraph {
        nodes: vec![DebugNode::new("source", "Source", "HLS", DebugGraphLane::Shared, 0, vec![])],
        edges: vec![],
    };
    graph.extend(DebugGraph {
        nodes: vec![DebugNode::new(
            "decoder",
            "Decoder",
            "h264_vulkan",
            DebugGraphLane::Video,
            2,
            vec![("acceleration".into(), "hardware".into())],
        )],
        edges: vec![
            DebugEdge::flow("source", "decoder", "compressed packets"),
            DebugEdge::relationship("decoder", "source", "shared runtime"),
        ],
    });

    assert_eq!(
        graph.nodes.iter().map(|node| node.id.as_str()).collect::<Vec<_>>(),
        vec!["source", "decoder"]
    );
    assert_eq!(graph.nodes[1].lane, DebugGraphLane::Video);
    assert_eq!(graph.nodes[1].column, 2);
    assert_eq!(graph.edges[0].kind, DebugEdgeKind::Flow);
    assert_eq!(graph.edges[1].kind, DebugEdgeKind::Relationship);
}

#[test]
fn retain_resolved_edges_removes_only_dangling_relationships() {
    let mut graph = DebugGraph {
        nodes: vec![
            DebugNode::new("source", "Source", "", DebugGraphLane::Shared, 0, vec![]),
            DebugNode::new("decoder", "Decoder", "", DebugGraphLane::Video, 1, vec![]),
        ],
        edges: vec![
            DebugEdge::flow("source", "decoder", "packets"),
            DebugEdge::relationship("decoder", "missing-device", "same device"),
            DebugEdge::relationship("missing-source", "decoder", "unknown"),
        ],
    };

    graph.retain_resolved_edges();

    assert_eq!(graph.edges.len(), 1);
    assert_eq!(graph.edges[0], DebugEdge::flow("source", "decoder", "packets"));
    graph.retain_resolved_edges();
    assert_eq!(graph.edges.len(), 1);
}

#[test]
fn sections_become_nodes_in_order() {
    let graph = section_graph(vec![
        DebugInfoSection::new("Pipeline", vec![("a".into(), "b".into())]),
        DebugInfoSection::new("Video", vec![]),
    ]);
    assert!(graph.edges.is_empty());
    assert_eq!(graph.nodes.len(), 2);
    assert_eq!(graph.nodes[0].id, "playback-section-0");
    assert_eq!(graph.nodes[0].title, "Pipeline");
    assert_eq!(graph.nodes[0].rows, vec![("a".to_owned(), "b".to_owned())]);
    assert_eq!(graph.nodes[1].id, "playback-section-1");
    assert_eq!(graph.nodes[1].column, 1);
    assert_eq!(graph.nodes[1].lane, DebugGraphLane::Shared);
}
