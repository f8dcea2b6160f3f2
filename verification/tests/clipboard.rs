use luma_weaver::clipboard::{
    clipboard_fragment_from_document, copied_status, copying_status, fragment_to_copy,
    paste_clipboard_fragment_into_document, sort_edges,
};
use luma_weaver::document::{
    GraphDocument, GraphEdge, GraphMetadata, GraphNode, NodeMetadata, NodePosition, NodeViewport,
};
use luma_weaver::exchange::GraphClipboardFragment;
use luma_weaver::json::JsonValue;
use luma_weaver::schema::{
    NodeCategory, NodeConnectionDefinition, NodeDefinition, NodeParameter, NodeTypeId,
};
use luma_weaver::value::Decimal;

fn definition(id: &str) -> NodeDefinition {
    NodeDefinition {
        id: id.to_owned(),
        display_name: "Test".to_owned(),
        category: NodeCategory::Debug,
        needs_io: false,
        inputs: vec![],
        outputs: vec![],
        parameters: vec![],
        connection: NodeConnectionDefinition { max_input_connections: 1, require_value_kind_match: true },
        runtime_updates: None,
    }
}

fn position(x: u64, y: u64) -> NodePosition {
    NodePosition { x: Decimal::new(x, 0), y: Decimal::new(y, 0) }
}

fn test_graph_node(id: &str, node_type: &str, x: u64, y: u64) -> GraphNode {
    GraphNode {
        id: id.to_owned(),
        metadata: NodeMetadata { name: id.to_owned() },
        node_type: NodeTypeId::new(node_type),
        viewport: NodeViewport { position: position(x, y), collapsed: false },
        input_values: Vec::new(),
        parameters: vec![NodeParameter { name: "example".to_owned(), value: JsonValue::from_text("1") }],
    }
}

fn edge(from: &str, output: &str, to: &str, input: &str) -> GraphEdge {
    GraphEdge {
        from_node_id: from.to_owned(),
        from_output_name: output.to_owned(),
        to_node_id: to.to_owned(),
        to_input_name: input.to_owned(),
    }
}

fn destination() -> GraphDocument {
    let mut document = GraphDocument::default();
    document.metadata = GraphMetadata {
        id: "graph-b".to_owned(),
        name: "Graph B".to_owned(),
        execution_frequency_hz: 60,
        home_assistant_broker_id: String::new(),
    };
    document
}

#[test]
fn paste_clipboard_fragment_remaps_ids_and_skips_unknown_nodes() {
    let mut destination = destination();
    // The fragment as the caller hands it over: already moved to the paste position (50, 80).
    let fragment = GraphClipboardFragment::new(
        position(50, 80),
        vec![
            test_graph_node("node-a", "test.visibility", 50, 80),
            test_graph_node("node-c", "test.unknown", 130, 180),
        ],
        vec![edge("node-a", "value", "node-c", "value")],
    );

    let result = paste_clipboard_fragment_into_document(
        &mut destination,
        fragment,
        &[definition("test.visibility")],
    );

    assert_eq!(destination.nodes.len(), 1);
    assert_eq!(destination.edges.len(), 0);
    assert_eq!(result.inserted_node_ids.len(), 1);
    assert_eq!(result.skipped_node_type_ids, vec!["test.unknown"]);
    assert_eq!(destination.nodes[0].viewport.position.x, Decimal::new(50, 0));
    assert_eq!(destination.nodes[0].viewport.position.y, Decimal::new(80, 0));
    assert_ne!(destination.nodes[0].id, "node-a");
    assert_eq!(result.inserted_node_ids, vec![destination.nodes[0].id.clone()]);
    let id: Vec<char> = destination.nodes[0].id.chars().collect();
    assert_eq!(id.len(), 36);
    assert_eq!((id[8], id[13], id[14], id[18], id[23]), ('-', '-', '4', '-', '-'));
    assert!(matches!(id[19], '8' | '9' | 'a' | 'b'));
    assert!(id.iter().all(|c| *c == '-' || c.is_ascii_digit() || ('a'..='f').contains(c)));
}

#[test]
fn pasted_edges_follow_the_fresh_ids_and_all_edges_are_sorted() {
    let mut destination = destination();
    destination.nodes.push(test_graph_node("z", "test.kept", 0, 0));
    destination.edges.push(edge("z", "out", "z", "in"));
    destination.edges.push(edge("a", "out", "z", "in"));
    let fragment = GraphClipboardFragment::new(
        position(0, 0),
        vec![
            test_graph_node("one", "test.kept", 0, 0),
            test_graph_node("two", "test.kept", 10, 0),
            test_graph_node("three", "test.dropped", 20, 0),
            test_graph_node("four", "test.dropped", 30, 0),
        ],
        vec![
            edge("one", "value", "two", "value"),
            edge("two", "value", "three", "value"),
            edge("outside", "value", "one", "value"),
        ],
    );
    let result =
        paste_clipboard_fragment_into_document(&mut destination, fragment, &[definition("test.kept")]);

    assert_eq!(result.skipped_node_type_ids, vec!["test.dropped"]);
    assert_eq!(result.inserted_node_ids.len(), 2);
    assert_eq!(destination.nodes.len(), 3);
    assert_eq!(destination.nodes[1].id, result.inserted_node_ids[0]);
    assert_eq!(destination.nodes[2].id, result.inserted_node_ids[1]);
    assert_eq!(destination.nodes[1].metadata.name, "one");
    assert_eq!(destination.nodes[2].metadata.name, "two");
    assert_eq!(destination.nodes[1].id.len(), 36);
    assert_ne!(destination.nodes[1].id, destination.nodes[2].id);

    assert_eq!(destination.edges.len(), 3);
    let pasted = edge(&result.inserted_node_ids[0], "value", &result.inserted_node_ids[1], "value");
    assert!(destination.edges.contains(&pasted));
    for pair in destination.edges.windows(2) {
        let left = (&pair[0].from_node_id, &pair[0].from_output_name, &pair[0].to_node_id, &pair[0].to_input_name);
        let right = (&pair[1].from_node_id, &pair[1].from_output_name, &pair[1].to_node_id, &pair[1].to_input_name);
        assert!(left <= right);
    }
}

#[test]
fn edges_sort_field_by_field() {
    let sorted = sort_edges(vec![
        edge("b", "x", "a", "a"),
        edge("a", "y", "a", "a"),
        edge("a", "x", "b", "a"),
        edge("a", "x", "a", "b"),
        edge("a", "x", "a", "a"),
        edge("a", "x", "a", "a"),
    ]);
    assert_eq!(
        sorted,
        vec![
            edge("a", "x", "a", "a"),
            edge("a", "x", "a", "a"),
            edge("a", "x", "a", "b"),
            edge("a", "x", "b", "a"),
            edge("a", "y", "a", "a"),
            edge("b", "x", "a", "a"),
        ]
    );
}

fn test_graph_document() -> GraphDocument {
    let mut document = GraphDocument::default();
    document.metadata = GraphMetadata {
        id: "graph-a".to_owned(),
        name: "Graph A".to_owned(),
        execution_frequency_hz: 60,
        home_assistant_broker_id: String::new(),
    };
    document.nodes = vec![
        test_graph_node("node-a", "test.visibility", 10, 20),
        test_graph_node("node-b", "test.visibility", 30, 60),
        test_graph_node("node-c", "test.unknown", 90, 120),
    ];
    document.edges = vec![
        edge("node-a", "value", "node-b", "value"),
        edge("node-b", "value", "node-c", "value"),
    ];
    document
}

#[test]
fn clipboard_fragment_only_keeps_selected_nodes_and_internal_edges() {
    let document = test_graph_document();
    let selected_node_ids = vec!["node-a".to_owned(), "node-b".to_owned()];

    let fragment =
        clipboard_fragment_from_document(document, &selected_node_ids).expect("fragment");

    assert_eq!(fragment.origin, position(10, 20));
    assert_eq!(fragment.nodes.len(), 2);
    assert_eq!(fragment.edges.len(), 1);
    assert_eq!(fragment.edges[0].from_node_id, "node-a");
    assert_eq!(fragment.edges[0].to_node_id, "node-b");
}

#[test]
fn clipboard_fragment_needs_a_selected_node_of_the_document() {
    assert!(clipboard_fragment_from_document(test_graph_document(), &[]).is_none());
    let unknown = vec!["node-z".to_owned()];
    assert!(clipboard_fragment_from_document(test_graph_document(), &unknown).is_none());
}

#[test]
fn clipboard_fragment_origin_takes_the_least_coordinates() {
    let mut document = test_graph_document();
    // node-a at (2000, 0.3), node-b at (-1.5, 0.25)
    document.nodes[0].viewport.position = NodePosition { x: Decimal::new(2, 3), y: Decimal::new(3, -1) };
    document.nodes[1].viewport.position =
        NodePosition { x: Decimal::negative(15, -1), y: Decimal::new(25, -2) };
    let selected_node_ids = vec!["node-a".to_owned(), "node-b".to_owned(), "node-c".to_owned()];

    let fragment =
        clipboard_fragment_from_document(document, &selected_node_ids).expect("fragment");

    assert_eq!(fragment.origin.x, Decimal::negative(15, -1));
    assert_eq!(fragment.origin.y, Decimal::new(25, -2));
    assert_eq!(fragment.nodes.len(), 3);
    assert_eq!(fragment.edges.len(), 2);
    assert_eq!(fragment.format, "animation_builder_graph_fragment");
}

#[test]
fn decimals_compare_by_the_number_they_denote() {
    assert!(Decimal::new(1, 1).is_at_most(&Decimal::new(10, 0)));
    assert!(Decimal::new(10, 0).is_at_most(&Decimal::new(1, 1)));
    assert!(Decimal::new(5, -1).is_below(&Decimal::new(1, 0)));
    assert!(!Decimal::new(1, 0).is_below(&Decimal::new(5, -1)));
    assert!(Decimal::negative(0, 0).is_at_most(&Decimal::new(0, 0)));
    assert!(Decimal::new(0, 0).is_at_most(&Decimal::negative(0, 0)));
    assert!(Decimal::negative(3, 0).is_below(&Decimal::negative(2, 0)));
    assert!(Decimal::new(u64::MAX, 0).is_below(&Decimal::new(1, 30)));
    assert!(Decimal::negative(1, 30).is_below(&Decimal::negative(u64::MAX, 0)));
    assert!(Decimal::new(1, i32::MIN).is_below(&Decimal::new(1, i32::MAX)));
}

#[test]
fn copying_explains_why_nothing_is_copied() {
    let selected = vec!["node-a".to_owned()];
    assert_eq!(
        fragment_to_copy(Some(test_graph_document()), &[]).err(),
        Some("Select one or more nodes to copy".to_owned())
    );
    assert_eq!(fragment_to_copy(None, &selected).err(), Some("No graph document is loaded".to_owned()));
    let missing = vec!["node-z".to_owned()];
    assert_eq!(
        fragment_to_copy(Some(test_graph_document()), &missing).err(),
        Some("Nothing selected to copy".to_owned())
    );
    let fragment = fragment_to_copy(Some(test_graph_document()), &selected).expect("fragment");
    assert_eq!(fragment.nodes.len(), 1);
    assert!(fragment.edges.is_empty());
    assert_eq!(copying_status(fragment.nodes.len()), "Copying 1 node(s) to clipboard");
    assert_eq!(copied_status(12), "Copied 12 node(s) to clipboard");
}
