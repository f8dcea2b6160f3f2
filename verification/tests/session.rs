use luma_weaver::document::{GraphDocument, GraphMetadata, GraphNode, NodeMetadata, NodeViewport};
use luma_weaver::keyed::KeyedList;
use luma_weaver::navigation::AppView;
use luma_weaver::preview::SinkPreviewFrame;
use luma_weaver::protocol::{
    GraphRuntimeMode, GraphRuntimeStatus, NodeDiagnosticEntry, NodeDiagnosticSeverity,
    NodeDiagnosticSummary, NodeRuntimeUpdateValue,
};
use luma_weaver::schema::NodeTypeId;
use luma_weaver::session::{
    preview_frame_from_input_value, selected_graph_removed, GraphRuntimeCaches, MAX_PLOT_HISTORY,
};
use luma_weaver::value::{
    ColorFrame, Decimal, InputValue, LedLayout, LedLayoutRole, RgbaColor, Vec3,
};

fn metadata(id: &str) -> GraphMetadata {
    GraphMetadata {
        id: id.to_owned(),
        name: id.to_owned(),
        execution_frequency_hz: 60,
        home_assistant_broker_id: String::new(),
    }
}

fn graph_document_with_node(node_id: &str, node_type: &str, title: &str) -> GraphDocument {
    let mut document = GraphDocument::default();
    document.metadata = metadata("graph-a");
    document.metadata.name = "Graph A".to_owned();
    document.nodes.push(GraphNode {
        id: node_id.to_owned(),
        metadata: NodeMetadata { name: title.to_owned() },
        node_type: NodeTypeId::new(node_type),
        viewport: NodeViewport::default(),
        input_values: Vec::new(),
        parameters: Vec::new(),
    });
    document
}

fn spatial_layout(id: &str) -> LedLayout {
    LedLayout {
        id: id.to_owned(),
        role: LedLayoutRole::RenderTarget,
        pixel_count: 1,
        width: Some(1),
        height: Some(1),
        points_3d: Some(vec![Vec3 { x: Decimal::new(1, 0), y: Decimal::new(2, 0), z: Decimal::new(3, 0) }]),
    }
}

fn color(r: u64, g: u64, b: u64) -> RgbaColor {
    RgbaColor { r: Decimal::new(r, 0), g: Decimal::new(g, 0), b: Decimal::new(b, 0), a: Decimal::new(1, 0) }
}

fn frame_update(name: &str, pixel: RgbaColor) -> NodeRuntimeUpdateValue {
    NodeRuntimeUpdateValue::Inline {
        name: name.to_owned(),
        value: InputValue::ColorFrame(ColorFrame { layout: spatial_layout("dummy-1"), pixels: vec![pixel] }),
    }
}

fn float_update(name: &str, value: u64) -> NodeRuntimeUpdateValue {
    NodeRuntimeUpdateValue::Inline { name: name.to_owned(), value: InputValue::Float(Decimal::new(value, 0)) }
}

#[test]
fn graph_diagnostics_are_cached_by_graph_id() {
    let mut caches = GraphRuntimeCaches::new();

    caches.apply_graph_diagnostics_summary(
        "graph-a".to_owned(),
        vec![NodeDiagnosticSummary {
            node_id: "node-1".to_owned(),
            highest_severity: NodeDiagnosticSeverity::Error,
            active_count: 1,
        }],
    );
    caches.apply_node_diagnostics_detail(
        "graph-a".to_owned(),
        "node-1".to_owned(),
        vec![NodeDiagnosticEntry {
            severity: NodeDiagnosticSeverity::Error,
            code: Some("runtime.unknown_node_type".to_owned()),
            message: "unknown node".to_owned(),
            occurrences: 1,
        }],
    );

    assert_eq!(
        caches
            .graph_diagnostic_summaries("graph-a")
            .and_then(|nodes| nodes.get("node-1"))
            .map(|summary| summary.active_count),
        Some(1)
    );
    assert_eq!(caches.node_diagnostic_details("graph-a", "node-1").len(), 1);
    assert!(caches.node_diagnostic_details("graph-a", "node-2").is_empty());
    assert!(caches.node_diagnostic_details("graph-b", "node-1").is_empty());
}

#[test]
fn dummy_display_runtime_updates_refresh_preview_frames() {
    let mut caches = GraphRuntimeCaches::new();
    let document = graph_document_with_node("dummy-1", NodeTypeId::WLED_DUMMY_DISPLAY, "Dummy Graph");

    caches.apply_runtime_update(
        Some(&document),
        "graph-a",
        "dummy-1",
        vec![frame_update("frame", color(1, 0, 0))],
    );
    assert_eq!(caches.preview_frames_by_graph.get("graph-a").map(Vec::len), Some(1));

    caches.apply_runtime_update(
        Some(&document),
        "graph-a",
        "dummy-1",
        vec![frame_update("frame", color(0, 1, 0))],
    );
    assert_eq!(
        caches
            .preview_frames_by_graph
            .get("graph-a")
            .and_then(|entries| entries.first())
            .map(|entry| entry.pixels[0]),
        Some(color(0, 1, 0))
    );
    let frames = caches.preview_frames_by_graph.get("graph-a").expect("frames");
    assert_eq!(frames[0].sink_node_id, "dummy-1");
    assert_eq!(frames[0].sink_node_name, "Dummy Graph");
}

#[test]
fn starting_selected_graph_clears_runtime_caches() {
    let mut caches = GraphRuntimeCaches::new();
    caches.graph_runtime_modes.insert("graph-a".to_owned(), GraphRuntimeMode::Paused);
    let mut node_values = KeyedList::new();
    node_values.insert("value".to_owned(), InputValue::Float(Decimal::new(1, 0)));
    caches.runtime_node_values.insert("node-1".to_owned(), node_values);
    caches.plot_history.insert("node-1".to_owned(), vec![Decimal::new(1, 0), Decimal::new(2, 0)]);
    caches.preview_frames_by_graph.insert(
        "graph-a".to_owned(),
        vec![SinkPreviewFrame {
            sink_node_id: "node-1".to_owned(),
            sink_node_name: "Display".to_owned(),
            layout: spatial_layout("layout-a"),
            pixels: vec![color(1, 0, 0)],
        }],
    );

    caches.apply_runtime_statuses(
        Some("graph-a"),
        vec![GraphRuntimeStatus { graph_id: "graph-a".to_owned(), mode: GraphRuntimeMode::Running }],
    );

    assert!(caches.runtime_node_values.is_empty());
    assert!(caches.plot_history.is_empty());
    assert!(!caches.preview_frames_by_graph.contains_key("graph-a"));
    assert_eq!(caches.graph_runtime_modes.get("graph-a"), Some(&GraphRuntimeMode::Running));
}

#[test]
fn a_graph_that_keeps_running_keeps_its_caches() {
    let mut caches = GraphRuntimeCaches::new();
    caches.graph_runtime_modes.insert("graph-a".to_owned(), GraphRuntimeMode::Running);
    caches.plot_history.insert("node-1".to_owned(), vec![Decimal::new(1, 0)]);
    caches.apply_runtime_statuses(
        Some("graph-a"),
        vec![GraphRuntimeStatus { graph_id: "graph-a".to_owned(), mode: GraphRuntimeMode::Running }],
    );
    assert!(caches.plot_history.contains_key("node-1"));

    caches.apply_runtime_statuses(
        None,
        vec![GraphRuntimeStatus { graph_id: "graph-b".to_owned(), mode: GraphRuntimeMode::Paused }],
    );
    assert!(caches.plot_history.contains_key("node-1"));
    assert!(!caches.graph_runtime_modes.contains_key("graph-a"));
    assert_eq!(caches.graph_runtime_modes.get("graph-b"), Some(&GraphRuntimeMode::Paused));
}

#[test]
fn updates_for_another_graph_are_ignored() {
    let mut caches = GraphRuntimeCaches::new();
    let document = graph_document_with_node("plot-1", NodeTypeId::PLOT, "Plot");
    caches.apply_runtime_update(Some(&document), "graph-b", "plot-1", vec![float_update("value", 3)]);
    assert!(caches.runtime_node_values.is_empty());
    assert!(caches.plot_history.is_empty());
    caches.apply_runtime_update(None, "graph-a", "plot-1", vec![float_update("value", 3)]);
    assert!(caches.runtime_node_values.is_empty());
}

#[test]
fn plot_history_keeps_the_newest_samples() {
    let mut caches = GraphRuntimeCaches::new();
    let document = graph_document_with_node("plot-1", NodeTypeId::PLOT, "Plot");
    for sample in 0..300u64 {
        caches.apply_runtime_update(
            Some(&document),
            "graph-a",
            "plot-1",
            vec![float_update("value", sample), float_update("other", sample)],
        );
    }
    let history = caches.plot_history.get("plot-1").expect("history");
    assert_eq!(history.len(), MAX_PLOT_HISTORY);
    assert_eq!(history[0], Decimal::new(44, 0));
    assert_eq!(history[MAX_PLOT_HISTORY - 1], Decimal::new(299, 0));
    let values = caches.runtime_node_values.get("plot-1").expect("values");
    assert_eq!(values.get("value"), Some(&InputValue::Float(Decimal::new(299, 0))));
    assert_eq!(values.get("other"), Some(&InputValue::Float(Decimal::new(299, 0))));
    assert_eq!(values.as_slice().len(), 2);
    assert_eq!(caches.preview_frames_by_graph.get("graph-a").map(Vec::len), Some(0));
}

#[test]
fn non_plot_nodes_keep_no_history() {
    let mut caches = GraphRuntimeCaches::new();
    let document = graph_document_with_node("node-1", NodeTypeId::FLOAT_CONSTANT, "Value");
    caches.apply_runtime_update(Some(&document), "graph-a", "node-1", vec![float_update("value", 1)]);
    assert!(caches.plot_history.is_empty());
    assert!(caches.runtime_node_values.contains_key("node-1"));
}

#[test]
fn frames_without_spatial_points_have_no_preview() {
    let mut layout = spatial_layout("flat");
    layout.points_3d = None;
    let flat = InputValue::ColorFrame(ColorFrame { layout, pixels: vec![color(1, 1, 1)] });
    assert!(preview_frame_from_input_value(&flat, "n", "N").is_none());
    assert!(preview_frame_from_input_value(&InputValue::Float(Decimal::new(1, 0)), "n", "N").is_none());
    let mapped = InputValue::MappedFrame(ColorFrame { layout: spatial_layout("mapped"), pixels: vec![color(0, 0, 1)] });
    let frame = preview_frame_from_input_value(&mapped, "n", "N").expect("preview");
    assert_eq!(frame.layout.id, "mapped");
    assert_eq!(frame.pixels, vec![color(0, 0, 1)]);
}

#[test]
fn metadata_updates_drop_caches_of_unlisted_graphs() {
    let mut caches = GraphRuntimeCaches::new();
    caches.graph_runtime_modes.insert("graph-a".to_owned(), GraphRuntimeMode::Running);
    caches.graph_runtime_modes.insert("graph-b".to_owned(), GraphRuntimeMode::Paused);
    caches.apply_graph_diagnostics_summary("graph-b".to_owned(), Vec::new());
    caches.preview_frames_by_graph.insert("graph-b".to_owned(), Vec::new());
    caches.retain_known_graphs(&[metadata("graph-a")]);
    assert!(caches.graph_runtime_modes.contains_key("graph-a"));
    assert!(!caches.graph_runtime_modes.contains_key("graph-b"));
    assert!(caches.graph_diagnostic_summaries("graph-b").is_none());
    assert!(!caches.preview_frames_by_graph.contains_key("graph-b"));
}

#[test]
fn the_editor_closes_when_its_graph_disappears() {
    let listed = [metadata("graph-a")];
    assert!(!selected_graph_removed(&listed, Some("graph-a"), AppView::Editor));
    assert!(selected_graph_removed(&listed, Some("graph-b"), AppView::Editor));
    assert!(selected_graph_removed(&listed, None, AppView::Editor));
    assert!(!selected_graph_removed(&listed, Some("graph-b"), AppView::Dashboard));
}

#[test]
fn loading_another_graph_forgets_live_values() {
    let mut caches = GraphRuntimeCaches::new();
    caches.plot_history.insert("node-1".to_owned(), vec![Decimal::new(1, 0)]);
    caches.reset_for_loaded_graph(Some("graph-a"), "graph-a");
    assert!(caches.plot_history.contains_key("node-1"));
    caches.reset_for_loaded_graph(Some("graph-a"), "graph-b");
    assert!(caches.plot_history.is_empty());
    caches.plot_history.insert("node-1".to_owned(), vec![Decimal::new(1, 0)]);
    caches.clear_selected_graph_session();
    assert!(caches.plot_history.is_empty());
}

#[test]
fn a_node_preview_lists_its_mapped_frame_and_numbered_layouts() {
    let mut caches = GraphRuntimeCaches::new();
    let document = graph_document_with_node("wled-1", NodeTypeId::WLED_TARGET, "Strip");
    caches.apply_runtime_update(
        Some(&document),
        "graph-a",
        "wled-1",
        vec![
            NodeRuntimeUpdateValue::Inline {
                name: "source_frame".to_owned(),
                value: InputValue::MappedFrame(ColorFrame { layout: spatial_layout("src"), pixels: vec![color(1, 0, 0)] }),
            },
            float_update("brightness", 1),
            frame_update("frame", color(0, 1, 0)),
            frame_update("second", color(0, 0, 1)),
        ],
    );
    let groups = caches.collect_scoped_node_preview_groups(Some(&document), "wled-1");
    assert_eq!(groups.len(), 1);
    assert_eq!(groups[0].key, "node:wled-1");
    assert_eq!(groups[0].label, "Strip");
    let labels: Vec<&str> = groups[0].items.iter().map(|item| item.label.as_str()).collect();
    assert_eq!(labels, vec!["Strip / Mapped Frame (1x1)", "Strip / Layout 1 (1x1)", "Strip / Layout 2 (1x1)"]);
    let keys: Vec<&str> = groups[0].items.iter().map(|item| item.key.as_str()).collect();
    assert_eq!(keys, vec!["node_layout:wled-1:source_frame", "node_layout:wled-1:frame", "node_layout:wled-1:second"]);
    assert!(caches.collect_scoped_node_preview_groups(Some(&document), "missing").is_empty());
    assert!(caches.collect_scoped_node_preview_groups(None, "wled-1").is_empty());
}

#[test]
fn graph_metadata_drops_unlisted_graphs_and_reports_the_count() {
    let mut caches = GraphRuntimeCaches::new();
    caches.apply_runtime_statuses(
        None,
        vec![
            GraphRuntimeStatus { graph_id: "graph-a".to_owned(), mode: GraphRuntimeMode::Running },
            GraphRuntimeStatus { graph_id: "graph-b".to_owned(), mode: GraphRuntimeMode::Paused },
        ],
    );
    let documents = vec![metadata("graph-a")];
    let (close_editor, status) =
        caches.apply_graph_metadata(&documents, Some("graph-a"), AppView::Editor);
    assert!(!close_editor);
    assert_eq!(status, "Loaded 1 graph documents");
    assert!(caches.graph_runtime_modes.get("graph-a").is_some());
    assert!(caches.graph_runtime_modes.get("graph-b").is_none());

    let (close_editor, status) =
        caches.apply_graph_metadata(&documents, Some("graph-b"), AppView::Editor);
    assert!(close_editor);
    assert_eq!(status, "Selected graph was removed");

    let (close_editor, _) = caches.apply_graph_metadata(&[], Some("graph-b"), AppView::Dashboard);
    assert!(!close_editor);
    assert!(caches.graph_runtime_modes.get("graph-a").is_none());
}
