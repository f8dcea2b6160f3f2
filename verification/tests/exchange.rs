use luma_weaver::document::{GraphDocument, NodePosition};
use luma_weaver::exchange::{
    sanitize_graph_export_filename, GraphClipboardFragment, GraphExchangeFile,
    GRAPH_CLIPBOARD_FRAGMENT_FORMAT, GRAPH_CLIPBOARD_FRAGMENT_VERSION, GRAPH_EXCHANGE_FORMAT,
    GRAPH_EXCHANGE_VERSION,
};
use luma_weaver::value::Decimal;

#[test]
fn graph_exchange_file_rejects_unknown_format() {
    let file = GraphExchangeFile {
        format: "other_format".to_owned(),
        version: GRAPH_EXCHANGE_VERSION,
        document: GraphDocument::default(),
    };

    assert_eq!(
        file.validate_header().unwrap_err(),
        "Unsupported graph exchange format 'other_format'"
    );
}

#[test]
fn graph_exchange_file_rejects_unknown_version() {
    let file = GraphExchangeFile {
        format: GRAPH_EXCHANGE_FORMAT.to_owned(),
        version: GRAPH_EXCHANGE_VERSION + 1,
        document: GraphDocument::default(),
    };

    assert_eq!(
        file.validate_header().unwrap_err(),
        format!("Unsupported graph exchange version {}", GRAPH_EXCHANGE_VERSION + 1)
    );
}

#[test]
fn graph_clipboard_fragment_rejects_unknown_format() {
    let fragment = GraphClipboardFragment {
        format: "other_format".to_owned(),
        version: GRAPH_CLIPBOARD_FRAGMENT_VERSION,
        origin: NodePosition::default(),
        nodes: Vec::new(),
        edges: Vec::new(),
    };

    assert_eq!(
        fragment.validate_header().unwrap_err(),
        "Unsupported graph clipboard format 'other_format'"
    );
}

#[test]
fn graph_clipboard_fragment_rejects_unknown_version() {
    let fragment = GraphClipboardFragment {
        format: GRAPH_CLIPBOARD_FRAGMENT_FORMAT.to_owned(),
        version: GRAPH_CLIPBOARD_FRAGMENT_VERSION + 1,
        origin: NodePosition::default(),
        nodes: Vec::new(),
        edges: Vec::new(),
    };

    assert_eq!(
        fragment.validate_header().unwrap_err(),
        format!("Unsupported graph clipboard version {}", GRAPH_CLIPBOARD_FRAGMENT_VERSION + 1)
    );
}

#[test]
fn freshly_wrapped_files_pass_their_header_checks() {
    let file = GraphExchangeFile::new(GraphDocument::default());
    assert!(file.validate_header().is_ok());
    let fragment = GraphClipboardFragment::new(
        NodePosition { x: Decimal::new(12, 0), y: Decimal::new(34, 0) },
        Vec::new(),
        Vec::new(),
    );
    assert!(fragment.validate_header().is_ok());
    assert_eq!(fragment.format, "animation_builder_graph_fragment");
    assert_eq!(fragment.version, 1);
}

#[test]
fn export_filenames_are_sanitized() {
    assert_eq!(sanitize_graph_export_filename("My Graph!"), "My_Graph.animation-graph.json");
    assert_eq!(sanitize_graph_export_filename("__a  b__"), "a_b.animation-graph.json");
    assert_eq!(sanitize_graph_export_filename("!!!"), "graph.animation-graph.json");
    assert_eq!(sanitize_graph_export_filename(""), "graph.animation-graph.json");
    assert_eq!(sanitize_graph_export_filename("Grüße 2"), "Gr_e_2.animation-graph.json");
}
