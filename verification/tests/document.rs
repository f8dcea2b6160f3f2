use luma_weaver::document::{
    is_layout_asset_parameter_name, layout_asset_id_from_parameter, EmbeddedLayoutAsset,
    GraphDocument, GraphNode, NodeMetadata, NodeViewport,
};
use luma_weaver::json::JsonValue;
use luma_weaver::schema::{NodeParameter, NodeTypeId};
use luma_weaver::uploads::{
    apply_uploaded_asset, orphaned_layout_asset_id, upload_without_graph_status, AssetUploadKind,
};
use luma_weaver::value::{Decimal, Vec3};

fn parameter(name: &str, value: JsonValue) -> NodeParameter {
    NodeParameter { name: name.to_owned(), value }
}

fn node(id: &str, parameters: Vec<NodeParameter>) -> GraphNode {
    GraphNode {
        id: id.to_owned(),
        metadata: NodeMetadata { name: "Target".to_owned() },
        node_type: NodeTypeId::new(NodeTypeId::WLED_TARGET),
        viewport: NodeViewport::default(),
        input_values: Vec::new(),
        parameters,
    }
}

fn asset(id: &str) -> EmbeddedLayoutAsset {
    EmbeddedLayoutAsset {
        id: id.to_owned(),
        points: vec![Vec3 { x: Decimal::new(1, 0), y: Decimal::new(2, 0), z: Decimal::new(3, 0) }],
    }
}

#[test]
fn layout_asset_parameter_names_end_with_the_suffix() {
    assert!(is_layout_asset_parameter_name("layout_asset_id"));
    assert!(is_layout_asset_parameter_name("source_layout_asset_id"));
    assert!(!is_layout_asset_parameter_name("layout_asset"));
    assert!(!is_layout_asset_parameter_name(""));
}

#[test]
fn layout_asset_ids_are_trimmed_non_empty_strings() {
    assert_eq!(
        layout_asset_id_from_parameter(&parameter("layout_asset_id", JsonValue::from_text("  abc \n"))),
        Some("abc")
    );
    assert_eq!(
        layout_asset_id_from_parameter(&parameter("layout_asset_id", JsonValue::from_text(" \u{3000} "))),
        None
    );
    assert_eq!(layout_asset_id_from_parameter(&parameter("layout_asset_id", JsonValue::from_bool(true))), None);
    assert_eq!(layout_asset_id_from_parameter(&parameter("other", JsonValue::from_text("abc"))), None);
}

#[test]
fn referenced_ids_are_listed_once() {
    let document = GraphDocument {
        nodes: vec![
            node("a", vec![parameter("layout_asset_id", JsonValue::from_text("one"))]),
            node(
                "b",
                vec![
                    parameter("layout_asset_id", JsonValue::from_text("two ")),
                    parameter("mapped_layout_asset_id", JsonValue::from_text("one")),
                ],
            ),
        ],
        ..GraphDocument::default()
    };
    assert_eq!(document.referenced_layout_asset_ids(), vec!["one".to_owned(), "two".to_owned()]);
}

#[test]
fn pruning_keeps_exactly_the_referenced_assets_in_order() {
    let mut document = GraphDocument {
        layout_assets: vec![asset("unused"), asset("two"), asset("one"), asset("gone")],
        nodes: vec![
            node("a", vec![parameter("layout_asset_id", JsonValue::from_text("one"))]),
            node("b", vec![parameter("layout_asset_id", JsonValue::from_text("two"))]),
        ],
        ..GraphDocument::default()
    };
    document.prune_unreferenced_layout_assets();
    let ids: Vec<&str> = document.layout_assets.iter().map(|asset| asset.id.as_str()).collect();
    assert_eq!(ids, vec!["two", "one"]);
    document.prune_unreferenced_layout_assets();
    assert_eq!(document.layout_assets.len(), 2);
    assert_eq!(document.embedded_layout_points("one").map(|points| points.len()), Some(1));
    assert!(document.embedded_layout_points("unused").is_none());
}

#[test]
fn replacing_unique_layout_asset_marks_old_asset_for_deletion() {
    let mut document = GraphDocument {
        nodes: vec![node("node-1", vec![parameter("layout_asset_id", JsonValue::from_text(""))])],
        ..GraphDocument::default()
    };
    document.nodes[0].parameters[0].value = JsonValue::from_text("old-layout");

    document.nodes[0].parameters[0].value = JsonValue::from_text("new-layout");

    let deleted_asset = orphaned_layout_asset_id(
        &document,
        AssetUploadKind::Layout,
        "layout_asset_id",
        Some("old-layout".to_owned()),
        "new-layout",
    );

    assert_eq!(deleted_asset.as_deref(), Some("old-layout"));
}

#[test]
fn replacing_shared_layout_asset_keeps_old_asset() {
    let mut document = GraphDocument {
        nodes: vec![node("node-1", vec![parameter("layout_asset_id", JsonValue::from_text(""))])],
        ..GraphDocument::default()
    };
    document.nodes.push(GraphNode {
        id: "node-2".to_owned(),
        metadata: NodeMetadata { name: "Target 2".to_owned() },
        node_type: NodeTypeId::new(NodeTypeId::WLED_TARGET),
        viewport: NodeViewport::default(),
        input_values: Vec::new(),
        parameters: vec![parameter("layout_asset_id", JsonValue::from_text("shared-layout"))],
    });
    document.nodes[0].parameters[0].value = JsonValue::from_text("replacement-layout");

    let deleted_asset = orphaned_layout_asset_id(
        &document,
        AssetUploadKind::Layout,
        "layout_asset_id",
        Some("shared-layout".to_owned()),
        "replacement-layout",
    );

    assert!(deleted_asset.is_none());
}

#[test]
fn image_uploads_and_unchanged_assets_orphan_nothing() {
    let document = GraphDocument::default();
    assert!(orphaned_layout_asset_id(&document, AssetUploadKind::Image, "layout_asset_id", Some("a".to_owned()), "b").is_none());
    assert!(orphaned_layout_asset_id(&document, AssetUploadKind::Layout, "layout_asset_id", Some("a".to_owned()), "a").is_none());
    assert!(orphaned_layout_asset_id(&document, AssetUploadKind::Layout, "layout_asset_id", Some(String::new()), "a").is_none());
    assert!(orphaned_layout_asset_id(&document, AssetUploadKind::Layout, "layout_asset_id", None, "a").is_none());
    assert_eq!(AssetUploadKind::Image.status_prompt(), "Choose an image to upload");
    assert_eq!(AssetUploadKind::Layout.success_status(), "Uploaded layout asset");
}

#[test]
fn default_document_is_empty_at_sixty_hertz() {
    let document = GraphDocument::default();
    assert_eq!(document.metadata.execution_frequency_hz, 60);
    assert!(document.nodes.is_empty());
    assert_eq!(document.viewport.zoom, Decimal::new(1, 0));
}

#[test]
fn uploading_a_layout_replaces_the_parameter_and_reports_the_orphan() {
    let mut document = GraphDocument {
        nodes: vec![
            node("node-1", vec![parameter("layout_asset_id", JsonValue::from_text("old-layout"))]),
            node("node-2", vec![parameter("layout_asset_id", JsonValue::from_text("shared"))]),
        ],
        ..GraphDocument::default()
    };
    let orphaned = apply_uploaded_asset(
        &mut document,
        AssetUploadKind::Layout,
        "node-1",
        "layout_asset_id",
        "new-layout",
    );
    assert_eq!(orphaned, Ok(Some("old-layout".to_owned())));
    assert_eq!(document.nodes[0].parameters.len(), 1);
    assert_eq!(document.nodes[0].parameters[0].value.as_str(), Some("new-layout"));
    assert_eq!(document.nodes[1].parameters[0].value.as_str(), Some("shared"));
}

#[test]
fn uploading_keeps_shared_layouts_and_appends_missing_parameters() {
    let mut document = GraphDocument {
        nodes: vec![
            node("node-1", vec![parameter("layout_asset_id", JsonValue::from_text("shared"))]),
            node("node-2", vec![parameter("layout_asset_id", JsonValue::from_text("shared"))]),
            node("node-3", Vec::new()),
        ],
        ..GraphDocument::default()
    };
    assert_eq!(
        apply_uploaded_asset(&mut document, AssetUploadKind::Layout, "node-1", "layout_asset_id", "fresh"),
        Ok(None)
    );
    assert_eq!(
        apply_uploaded_asset(&mut document, AssetUploadKind::Image, "node-3", "image_asset_id", "picture"),
        Ok(None)
    );
    assert_eq!(document.nodes[2].parameters.len(), 1);
    assert_eq!(document.nodes[2].parameters[0].name, "image_asset_id");
    assert_eq!(document.nodes[2].parameters[0].value.as_str(), Some("picture"));
}

#[test]
fn uploading_to_a_missing_node_changes_nothing() {
    let mut document = GraphDocument {
        nodes: vec![node("node-1", Vec::new())],
        ..GraphDocument::default()
    };
    assert_eq!(
        apply_uploaded_asset(&mut document, AssetUploadKind::Image, "gone", "image_asset_id", "x"),
        Err("The edited node no longer exists in the open graph".to_owned())
    );
    assert!(document.nodes[0].parameters.is_empty());
    assert_eq!(
        upload_without_graph_status(AssetUploadKind::Layout),
        "Cannot apply uploaded layout without an open graph"
    );
}
