use luma_weaver::catalog::node_definitions;
use luma_weaver::editor::{
    coerce_input_value_kind, default_input_value, enum_selected_label, enum_selection,
    mqtt_broker_option_label, mqtt_broker_selected_text, wled_instance_label,
};
use luma_weaver::protocol::{MqttBrokerConfig, WledInstance};
use luma_weaver::menu::node_menu_categories;
use luma_weaver::session::GraphRuntimeCaches;
use luma_weaver::preview::{
    frame_layout_dims_label, frame_preview_dimensions, group_preview_frames_by_node,
    preview_frame_size_label, preview_selection_context_key, preview_selection_groups,
    SinkPreviewFrame,
};
use luma_weaver::schema::{
    EnumOption, NodeCategory, NodeConnectionDefinition, NodeDefinition, NodeInputDefinition,
    NodeOutputDefinition, NodeTypeId,
};
use luma_weaver::value::{ColorFrame, Decimal, InputValue, LedLayout, LedLayoutRole, RgbaColor, ValueKind, Vec3};

fn test_node(id: &str, category: NodeCategory, display_name: &str) -> NodeDefinition {
    NodeDefinition {
        id: id.to_owned(),
        display_name: display_name.to_owned(),
        category,
        needs_io: false,
        inputs: vec![NodeInputDefinition {
            name: "value".to_owned(),
            display_name: "Value".to_owned(),
            value_kind: ValueKind::Float,
            accepted_kinds: vec![],
            default_value: None,
        }],
        outputs: vec![NodeOutputDefinition {
            name: "value".to_owned(),
            display_name: "Value".to_owned(),
            value_kind: ValueKind::Float,
            accepted_kinds: vec![],
        }],
        parameters: vec![],
        connection: NodeConnectionDefinition {
            max_input_connections: 1,
            require_value_kind_match: true,
        },
        runtime_updates: None,
    }
}

#[test]
fn node_menu_categories_group_nodes_by_category() {
    let definitions = vec![
        test_node("inputs.float_constant", NodeCategory::Inputs, "Float Constant"),
        test_node("inputs.audio_fft_receiver", NodeCategory::Inputs, "Audio FFT Receiver"),
        test_node("generators.plasma", NodeCategory::Generators, "Plasma"),
    ];

    let categories = node_menu_categories(definitions, "");
    assert_eq!(categories.len(), 2);
    assert_eq!(categories[0].label, "Inputs");
    assert_eq!(categories[0].definitions.len(), 2);
    assert_eq!(categories[0].definitions[0].id, NodeTypeId::AUDIO_FFT_RECEIVER);
    assert_eq!(categories[0].definitions[1].id, NodeTypeId::FLOAT_CONSTANT);
    assert_eq!(categories[1].label, "Generators");
    assert_eq!(categories[1].definitions.len(), 1);
    assert_eq!(categories[1].definitions[0].id, "generators.plasma");
}

#[test]
fn node_menu_search_matches_names_and_ids_case_insensitively() {
    let categories = node_menu_categories(node_definitions(), "  PLASMA ");
    assert_eq!(categories.len(), 1);
    assert_eq!(categories[0].label, "Generators");
    assert_eq!(categories[0].definitions.len(), 1);
    let by_id = node_menu_categories(node_definitions(), "temporal_filters.");
    assert_eq!(by_id.len(), 1);
    assert_eq!(by_id[0].label, "Temporal Filters");
    let names: Vec<&str> = by_id[0].definitions.iter().map(|d| d.display_name.as_str()).collect();
    let mut sorted = names.clone();
    sorted.sort();
    assert_eq!(names, sorted);
    assert!(node_menu_categories(node_definitions(), "no such node").is_empty());
}

#[test]
fn node_menu_keeps_catalog_order_for_equal_names() {
    let definitions = vec![
        test_node("b.second", NodeCategory::Math, "Same"),
        test_node("a.first", NodeCategory::Math, "Same"),
        test_node("c.zero", NodeCategory::Math, "Alpha"),
    ];
    let categories = node_menu_categories(definitions, "");
    let ids: Vec<&str> = categories[0].definitions.iter().map(|d| d.id.as_str()).collect();
    assert_eq!(ids, vec!["c.zero", "b.second", "a.first"]);
}

fn layout(id: &str, pixel_count: usize, width: Option<usize>, height: Option<usize>) -> LedLayout {
    LedLayout {
        id: id.to_owned(),
        role: LedLayoutRole::RenderTarget,
        pixel_count,
        width,
        height,
        points_3d: Some(vec![Vec3 { x: Decimal::new(0, 0), y: Decimal::new(0, 0), z: Decimal::new(0, 0) }]),
    }
}

fn preview_frame(node_id: &str, node_name: &str, layout_id: &str) -> SinkPreviewFrame {
    SinkPreviewFrame {
        sink_node_id: node_id.to_owned(),
        sink_node_name: node_name.to_owned(),
        layout: layout(layout_id, 1, Some(1), Some(1)),
        pixels: vec![],
    }
}

#[test]
fn global_preview_groups_multiple_frames_from_same_node() {
    let mut caches = GraphRuntimeCaches::new();
    caches.preview_frames_by_graph.insert(
        "graph-a".to_owned(),
        vec![
            preview_frame("node-1", "Display", "layout-a"),
            preview_frame("node-1", "Display", "layout-b"),
        ],
    );

    let groups = caches.collect_preview_selection_groups(None, "graph-a", None);

    assert_eq!(groups.len(), 1);
    assert_eq!(groups[0].key, "sink:node-1");
    assert_eq!(groups[0].label, "Sink: Display");
    assert_eq!(groups[0].items.len(), 2);
    assert_eq!(groups[0].items[0].label, "Layout 1 (1x1)");
    assert_eq!(groups[0].items[1].label, "Layout 2 (1x1)");
}

#[test]
fn global_preview_disambiguates_duplicate_node_names() {
    let mut caches = GraphRuntimeCaches::new();
    caches.preview_frames_by_graph.insert(
        "graph-a".to_owned(),
        vec![
            preview_frame("node-1", "Display", "layout-a"),
            preview_frame("node-2", "Display", "layout-b"),
        ],
    );

    let groups = caches.collect_preview_selection_groups(None, "graph-a", None);

    assert_eq!(groups.len(), 2);
    assert_eq!(groups[0].label, "Sink: Display (1)");
    assert_eq!(groups[1].label, "Sink: Display (2)");
    assert_ne!(groups[0].key, groups[1].key);
}

#[test]
fn preview_groups_follow_first_appearance() {
    let groups = group_preview_frames_by_node(vec![
        preview_frame("b", "B", "1"),
        preview_frame("a", "A", "2"),
        preview_frame("b", "B2", "3"),
    ]);
    assert_eq!(groups.len(), 2);
    assert_eq!(groups[0].sink_node_id, "b");
    assert_eq!(groups[0].sink_node_name, "B");
    assert_eq!(groups[0].frames.len(), 2);
    assert_eq!(groups[0].frames[1].layout.id, "3");
    assert_eq!(groups[1].sink_node_id, "a");
    let selections = preview_selection_groups(vec![
        preview_frame("b", "B", "1"),
        preview_frame("a", "A", "2"),
        preview_frame("b", "B2", "3"),
    ]);
    assert_eq!(selections[0].items[1].key, "sink_layout:b:1");
    assert_eq!(selections[0].items[1].frames[0].layout.id, "3");
}

#[test]
fn preview_labels_and_keys() {
    assert_eq!(preview_selection_context_key("g", Some("n")), "graph:g:node:n");
    assert_eq!(preview_selection_context_key("g", None), "graph:g:global");
    let mut frame = preview_frame("n", "N", "l");
    frame.layout = layout("l", 7, None, None);
    assert_eq!(preview_frame_size_label(&frame), "7x1");
    frame.layout = layout("l", 0, None, Some(3));
    assert_eq!(preview_frame_size_label(&frame), "1x3");
}

fn color_frame(width: Option<usize>, height: Option<usize>, pixels: usize) -> ColorFrame {
    ColorFrame {
        layout: LedLayout {
            id: "strip".to_owned(),
            role: LedLayoutRole::RenderTarget,
            pixel_count: pixels,
            width,
            height,
            points_3d: None,
        },
        pixels: vec![
            RgbaColor {
                r: Decimal::new(1, 0),
                g: Decimal::new(0, 0),
                b: Decimal::new(0, 0),
                a: Decimal::new(1, 0),
            };
            pixels
        ],
    }
}

#[test]
fn one_dimensional_layout_is_rendered_as_horizontal_strip() {
    let frame = color_frame(Some(1), Some(153), 153);
    assert_eq!(frame_preview_dimensions(&frame), (153, 1));
}

#[test]
fn true_two_dimensional_layout_keeps_native_dimensions() {
    let frame = color_frame(Some(4), Some(3), 12);
    assert_eq!(frame_preview_dimensions(&frame), (4, 3));
}

#[test]
fn frame_dimension_labels() {
    assert_eq!(frame_layout_dims_label(&color_frame(Some(4), Some(3), 12)), "4x3");
    assert_eq!(frame_layout_dims_label(&color_frame(None, Some(3), 5)), "1x5");
    assert_eq!(frame_layout_dims_label(&color_frame(None, None, 0)), "1x1");
    assert_eq!(frame_preview_dimensions(&color_frame(None, None, 0)), (1, 1));
}

#[test]
fn default_values_by_kind() {
    assert_eq!(default_input_value(ValueKind::Any), InputValue::Float(Decimal::new(0, 0)));
    assert_eq!(default_input_value(ValueKind::String), InputValue::String(String::new()));
    match default_input_value(ValueKind::LedLayout) {
        InputValue::LedLayout(layout) => {
            assert_eq!(layout.id, "default");
            assert_eq!(layout.pixel_count, 60);
        },
        other => panic!("expected a layout, got {other:?}"),
    }
    match default_input_value(ValueKind::FloatTensor) {
        InputValue::FloatTensor(tensor) => {
            assert_eq!(tensor.shape, vec![1]);
            assert_eq!(tensor.values, vec![Decimal::new(0, 0)]);
        },
        other => panic!("expected a tensor, got {other:?}"),
    }
}

#[test]
fn coercion_keeps_matching_values_and_defaults_others() {
    let text = InputValue::String("x".to_owned());
    assert_eq!(coerce_input_value_kind(text.clone(), ValueKind::String), text);
    assert_eq!(coerce_input_value_kind(text.clone(), ValueKind::Any), text);
    assert_eq!(coerce_input_value_kind(text, ValueKind::Float), InputValue::Float(Decimal::new(0, 0)));
}

fn option(value: &str, label: &str) -> EnumOption {
    EnumOption { value: value.to_owned(), label: label.to_owned() }
}

fn broker(id: &str, display_name: &str, is_home_assistant: bool) -> MqttBrokerConfig {
    MqttBrokerConfig {
        id: id.to_owned(),
        display_name: display_name.to_owned(),
        host: "localhost".to_owned(),
        port: 1883,
        username: String::new(),
        password: String::new(),
        discovery_prefix: "homeassistant".to_owned(),
        is_home_assistant,
    }
}

#[test]
fn enum_selectors_show_the_selected_or_first_option() {
    let options = vec![option("float", "Float"), option("tensor", "Tensor")];
    assert_eq!(enum_selected_label(&options, "tensor"), "Tensor");
    assert_eq!(enum_selected_label(&options, "unknown"), "Float");
    assert_eq!(enum_selected_label(&[], "unknown"), "");
    assert_eq!(enum_selection(&options, String::new()), "float");
    assert_eq!(enum_selection(&options, "tensor".to_owned()), "tensor");
    assert_eq!(enum_selection(&[], String::new()), "");
}

#[test]
fn device_selectors_label_instances_and_brokers() {
    let named = WledInstance { id: "1".to_owned(), name: "Desk".to_owned(), host: "10.0.0.2".to_owned(), led_count: Some(30) };
    let unnamed = WledInstance { id: "2".to_owned(), name: String::new(), host: "10.0.0.3".to_owned(), led_count: None };
    assert_eq!(wled_instance_label(&named), "Desk (10.0.0.2)");
    assert_eq!(wled_instance_label(&unnamed), "10.0.0.3");

    let brokers = vec![broker("ha", "Home", true), broker("lab", "  ", false)];
    assert_eq!(mqtt_broker_option_label(&brokers[0]), "Home (ha)");
    assert_eq!(mqtt_broker_option_label(&brokers[1]), "lab");
    assert_eq!(mqtt_broker_selected_text(&brokers, "ha"), "Home (ha)");
    assert_eq!(mqtt_broker_selected_text(&brokers, "lab"), "lab (not Home Assistant)");
    assert_eq!(mqtt_broker_selected_text(&brokers, "gone"), "gone");
    assert_eq!(mqtt_broker_selected_text(&brokers, ""), "Select broker");
}

#[test]
fn preview_groups_hold_every_frame_once() {
    let frames = vec![
        preview_frame("c", "C", "1"),
        preview_frame("a", "A", "2"),
        preview_frame("c", "C", "3"),
        preview_frame("b", "B", "4"),
        preview_frame("a", "A", "5"),
    ];
    let total = frames.len();
    let groups = group_preview_frames_by_node(frames);
    assert_eq!(groups.iter().map(|group| group.frames.len()).sum::<usize>(), total);
    assert_eq!(groups.len(), 3);
}

#[test]
fn blank_search_keeps_every_node_type() {
    let definitions = vec![
        test_node("b", NodeCategory::Math, "Beta"),
        test_node("a", NodeCategory::Math, "Alpha"),
        test_node("c", NodeCategory::Debug, "Gamma"),
        test_node("d", NodeCategory::Inputs, "Delta"),
    ];
    let categories = node_menu_categories(definitions, " \t ");
    let listed: usize = categories.iter().map(|category| category.definitions.len()).sum();
    assert_eq!(listed, 4);
    assert_eq!(categories.len(), 3);
}
