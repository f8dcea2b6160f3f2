use luma_weaver::document::{
    GraphDocument, GraphEdge, GraphMetadata, GraphNode, GraphViewport, NodeInputValue,
    NodeMetadata, NodeViewport,
};
use luma_weaver::inference::OutputInference;
use luma_weaver::schema::{NodeParameter, NodeTypeId};
use luma_weaver::validation::{
    infer_graph_output, infer_graph_output_kind, validate_graph_document,
    GraphValidationIssueCode,
};
use luma_weaver::value::{ColorFrame, Decimal, InputValue, LedLayout, LedLayoutRole, RgbaColor, ValueKind};

fn node(id: &str, node_type: &str) -> GraphNode {
    GraphNode {
        id: id.to_owned(),
        metadata: NodeMetadata { name: id.to_owned() },
        node_type: NodeTypeId::new(node_type),
        viewport: NodeViewport::default(),
        input_values: Vec::new(),
        parameters: Vec::<NodeParameter>::new(),
    }
}

fn edge(from: &str, output: &str, to: &str, input: &str) -> GraphEdge {
    GraphEdge {
        from_node_id: from.to_owned(),
        from_output_name: output.to_owned(),
        to_node_id: to.to_owned(),
        to_input_name: input.to_owned(),
    }
}

fn metadata() -> GraphMetadata {
    GraphMetadata {
        id: "graph".to_owned(),
        name: "Graph".to_owned(),
        execution_frequency_hz: 60,
        home_assistant_broker_id: String::new(),
    }
}

fn document(nodes: Vec<GraphNode>, edges: Vec<GraphEdge>) -> GraphDocument {
    GraphDocument {
        metadata: metadata(),
        viewport: GraphViewport::default(),
        layout_assets: Vec::new(),
        nodes,
        edges,
    }
}

fn panel_frame() -> InputValue {
    InputValue::ColorFrame(ColorFrame {
        layout: LedLayout {
            id: "panel".to_owned(),
            role: LedLayoutRole::RenderTarget,
            pixel_count: 1,
            width: Some(1),
            height: Some(1),
            points_3d: None,
        },
        pixels: vec![RgbaColor {
            r: Decimal::new(1, 0),
            g: Decimal::new(0, 0),
            b: Decimal::new(0, 0),
            a: Decimal::new(1, 0),
        }],
    })
}

#[test]
fn validation_accepts_tensor_inferred_min_max_to_laplacian_edge() {
    let mut extract = node("extract", NodeTypeId::EXTRACT_CHANNELS);
    extract.input_values.push(NodeInputValue { name: "frame".to_owned(), value: panel_frame() });
    let document = document(
        vec![
            extract,
            node("min_max", NodeTypeId::MIN_MAX),
            node("laplacian", NodeTypeId::LAPLACIAN_FILTER),
        ],
        vec![
            edge("extract", "tensor", "min_max", "a"),
            edge("min_max", "value", "laplacian", "frame"),
        ],
    );

    let issues = validate_graph_document(&document);
    assert!(!issues.iter().any(|issue| issue.code == GraphValidationIssueCode::EdgeTypeMismatch));
}

#[test]
fn validation_rejects_float_min_max_to_laplacian_edge() {
    let document = document(
        vec![
            node("float", NodeTypeId::FLOAT_CONSTANT),
            node("min_max", NodeTypeId::MIN_MAX),
            node("laplacian", NodeTypeId::LAPLACIAN_FILTER),
        ],
        vec![
            edge("float", "value", "min_max", "a"),
            edge("min_max", "value", "laplacian", "frame"),
        ],
    );

    let issues = validate_graph_document(&document);
    assert!(issues.iter().any(|issue| issue.code == GraphValidationIssueCode::EdgeTypeMismatch));
}

#[test]
fn validation_rejects_binary_select_with_mismatched_branch_kinds() {
    let mut extract = node("extract", NodeTypeId::EXTRACT_CHANNELS);
    extract.input_values.push(NodeInputValue { name: "frame".to_owned(), value: panel_frame() });
    let document = document(
        vec![
            extract,
            node("float", NodeTypeId::FLOAT_CONSTANT),
            node("select", NodeTypeId::BINARY_SELECT),
            node("display", NodeTypeId::DISPLAY),
        ],
        vec![
            edge("extract", "tensor", "select", "a"),
            edge("float", "value", "select", "b"),
            edge("select", "value", "display", "value"),
        ],
    );

    let issues = validate_graph_document(&document);
    assert!(issues.iter().any(|issue| {
        issue.code == GraphValidationIssueCode::EdgeTypeMismatch
            && issue.message.contains("must resolve to the same kind")
    }));
}

#[test]
fn validation_reports_node_issues_with_paths_and_messages() {
    let mut constant = node("a", NodeTypeId::FLOAT_CONSTANT);
    constant.input_values.push(NodeInputValue {
        name: "nope".to_owned(),
        value: InputValue::Float(Decimal::new(0, 0)),
    });
    let mut display = node("b", NodeTypeId::DISPLAY);
    display.input_values.push(NodeInputValue {
        name: "value".to_owned(),
        value: InputValue::String("x".to_owned()),
    });
    display.input_values.push(NodeInputValue {
        name: "value".to_owned(),
        value: InputValue::Float(Decimal::new(1, 0)),
    });
    let document = document(
        vec![constant, node("a", "test.unknown"), display],
        vec![],
    );

    let issues = validate_graph_document(&document);
    let listed: Vec<(GraphValidationIssueCode, &str, &str)> = issues
        .iter()
        .map(|issue| (issue.code, issue.path.as_str(), issue.message.as_str()))
        .collect();
    assert_eq!(
        listed,
        vec![
            (
                GraphValidationIssueCode::UnknownNodeInputName,
                "nodes[0].input_values[0].name",
                "input 'nope' is not declared by node type 'inputs.float_constant'",
            ),
            (GraphValidationIssueCode::DuplicateNodeId, "nodes[1].id", "duplicate node id 'a'"),
            (
                GraphValidationIssueCode::UnknownNodeType,
                "nodes[1].node_type",
                "unknown node type 'test.unknown'",
            ),
            (
                GraphValidationIssueCode::NodeInputTypeMismatch,
                "nodes[2].input_values[0].value",
                "input 'value' expected Float (or compatible kinds) but found String",
            ),
            (
                GraphValidationIssueCode::DuplicateNodeInputName,
                "nodes[2].input_values[1].name",
                "duplicate input value name 'value'",
            ),
        ]
    );
}

#[test]
fn validation_reports_type_mismatch_of_stored_inputs() {
    let mut fade = node("fade", NodeTypeId::FRAME_BRIGHTNESS);
    fade.input_values.push(NodeInputValue {
        name: "factor".to_owned(),
        value: InputValue::String("bright".to_owned()),
    });
    let issues = validate_graph_document(&document(vec![fade], vec![]));
    assert_eq!(issues.len(), 1);
    assert_eq!(issues[0].code, GraphValidationIssueCode::NodeInputTypeMismatch);
    assert_eq!(issues[0].path, "nodes[0].input_values[0].value");
    assert_eq!(
        issues[0].message,
        "input 'factor' expected Float (or compatible kinds) but found String"
    );
}

#[test]
fn validation_reports_each_edge_problem() {
    let document = document(
        vec![
            node("float", NodeTypeId::FLOAT_CONSTANT),
            node("odd", "test.unknown"),
            node("display", NodeTypeId::DISPLAY),
        ],
        vec![
            edge("ghost", "value", "display", "value"),
            edge("float", "value", "ghost", "value"),
            edge("odd", "value", "display", "value"),
            edge("display", "value", "odd", "value"),
            edge("float", "nope", "display", "value"),
            edge("float", "value", "display", "nope"),
        ],
    );
    let issues = validate_graph_document(&document);
    let listed: Vec<(GraphValidationIssueCode, &str, &str)> = issues
        .iter()
        .map(|issue| (issue.code, issue.path.as_str(), issue.message.as_str()))
        .collect();
    assert_eq!(
        listed,
        vec![
            (GraphValidationIssueCode::UnknownNodeType, "nodes[1].node_type", "unknown node type 'test.unknown'"),
            (GraphValidationIssueCode::UnknownEdgeSourceNode, "edges[0].from_node_id", "source node 'ghost' does not exist"),
            (GraphValidationIssueCode::UnknownEdgeTargetNode, "edges[1].to_node_id", "target node 'ghost' does not exist"),
            (
                GraphValidationIssueCode::UnknownNodeType,
                "edges[2].from_node_id",
                "source node 'odd' has unknown node type 'test.unknown'",
            ),
            (
                GraphValidationIssueCode::UnknownNodeType,
                "edges[3].to_node_id",
                "target node 'odd' has unknown node type 'test.unknown'",
            ),
            (
                GraphValidationIssueCode::UnknownEdgeSourceOutput,
                "edges[4].from_output_name",
                "output 'nope' is not declared by node type 'inputs.float_constant'",
            ),
            (
                GraphValidationIssueCode::UnknownEdgeTargetInput,
                "edges[5].to_input_name",
                "input 'nope' is not declared by node type 'outputs.display'",
            ),
        ]
    );
}

#[test]
fn validation_reports_plain_edge_type_mismatch() {
    let document = document(
        vec![node("color", NodeTypeId::COLOR_CONSTANT), node("add", NodeTypeId::MIN_MAX)],
        vec![edge("color", "color", "add", "a")],
    );
    let issues = validate_graph_document(&document);
    assert_eq!(issues.len(), 1);
    assert_eq!(issues[0].code, GraphValidationIssueCode::EdgeTypeMismatch);
    assert_eq!(issues[0].path, "edges[0]");
    assert_eq!(
        issues[0].message,
        "edge type mismatch: output 'color' is Color but input 'a' expects Float"
    );
}

#[test]
fn an_empty_document_has_no_issues() {
    assert!(validate_graph_document(&GraphDocument::default()).is_empty());
}

#[test]
fn inference_follows_edges_upstream() {
    let mut extract = node("extract", NodeTypeId::EXTRACT_CHANNELS);
    extract.input_values.push(NodeInputValue { name: "frame".to_owned(), value: panel_frame() });
    let document = document(
        vec![extract, node("min_max", NodeTypeId::MIN_MAX)],
        vec![edge("extract", "tensor", "min_max", "a")],
    );
    assert_eq!(
        infer_graph_output_kind(&document, &document.nodes, "min_max", "value"),
        Some(ValueKind::FloatTensor)
    );
    assert_eq!(infer_graph_output_kind(&document, &document.nodes, "ghost", "value"), None);
    assert_eq!(infer_graph_output_kind(&document, &document.nodes, "min_max", "nope"), None);
}

#[test]
fn inference_terminates_on_cycles_with_declared_kinds() {
    let document = document(
        vec![node("x", NodeTypeId::MIN_MAX), node("y", NodeTypeId::MIN_MAX)],
        vec![edge("x", "value", "y", "a"), edge("y", "value", "x", "a")],
    );
    let inference = infer_graph_output(&document, &document.nodes, "x", "value");
    assert_eq!(inference.kind(), Some(ValueKind::Float));
}

#[test]
fn later_nodes_shadow_earlier_nodes_with_the_same_id() {
    let document = document(
        vec![node("n", NodeTypeId::COLOR_CONSTANT), node("n", NodeTypeId::FLOAT_CONSTANT)],
        vec![],
    );
    assert_eq!(
        infer_graph_output_kind(&document, &document.nodes, "n", "value"),
        Some(ValueKind::Float)
    );
}

#[test]
fn infers_min_max_tensor_output_from_upstream_tensor_connection() {
    let document = document(
        vec![node("extract", NodeTypeId::EXTRACT_CHANNELS), node("min_max", NodeTypeId::MIN_MAX)],
        vec![edge("extract", "tensor", "min_max", "a")],
    );
    let inferred = infer_graph_output_kind(&document, &document.nodes, "min_max", "value");
    assert_eq!(inferred, Some(ValueKind::FloatTensor));
}

#[test]
fn laplacian_output_infers_frame_or_tensor_from_input() {
    let document = document(
        vec![node("solid", NodeTypeId::SOLID_FRAME), node("laplacian", NodeTypeId::LAPLACIAN_FILTER)],
        vec![edge("solid", "frame", "laplacian", "frame")],
    );
    let inferred = infer_graph_output_kind(&document, &document.nodes, "laplacian", "value");
    assert_eq!(inferred, Some(ValueKind::ColorFrame));
}

#[test]
fn laplacian_output_infers_tensor_for_tensor_input() {
    let document = document(
        vec![
            node("extract", NodeTypeId::EXTRACT_CHANNELS),
            node("laplacian", NodeTypeId::LAPLACIAN_FILTER),
        ],
        vec![edge("extract", "tensor", "laplacian", "frame")],
    );
    let inferred = infer_graph_output_kind(&document, &document.nodes, "laplacian", "value");
    assert_eq!(inferred, Some(ValueKind::FloatTensor));
}

#[test]
fn binary_select_invalid_output_is_preserved_in_propagation() {
    let document = document(
        vec![
            node("extract", NodeTypeId::EXTRACT_CHANNELS),
            node("float", NodeTypeId::FLOAT_CONSTANT),
            node("select", NodeTypeId::BINARY_SELECT),
        ],
        vec![edge("extract", "tensor", "select", "a"), edge("float", "value", "select", "b")],
    );
    let inferred = infer_graph_output(&document, &document.nodes, "select", "value");
    assert!(matches!(inferred, OutputInference::Invalid { .. }));
}
