use luma_weaver::catalog::{node_definition, node_definition_impl, node_definitions, BUILTIN_NODE_COUNT};
use luma_weaver::editor::{find_node_definition, visible_parameter_definitions};
use luma_weaver::inference::InputKindRef;
use luma_weaver::json::JsonValue;
use luma_weaver::schema::{
    NodeCategory, NodeConnectionDefinition, NodeDefinition, NodeParameter,
    NodeParameterDefinition, NodeTypeId, ParameterDefaultValue, ParameterUiHint,
    ParameterVisibilityCondition,
};
use luma_weaver::text::title_case_name;
use luma_weaver::value::{Decimal, FloatTensor, InputValue, ValueKind};

fn drag_float() -> ParameterUiHint {
    ParameterUiHint::DragFloat {
        speed: Decimal::new(1, -1),
        min: Decimal::new(0, 0),
        max: Decimal::new(10, 0),
    }
}

#[test]
fn parameters_are_visible_without_an_explicit_condition() {
    let definition = NodeParameterDefinition::new(
        "custom_value",
        String::new(),
        ParameterDefaultValue::Float(Decimal::new(1, 0)),
        drag_float(),
    );

    assert!(definition.is_visible(&[]));
}

#[test]
fn parameters_follow_boolean_visibility_conditions() {
    let definition = NodeParameterDefinition::new(
        "custom_value",
        String::new(),
        ParameterDefaultValue::Float(Decimal::new(1, 0)),
        drag_float(),
    )
    .visible_when(ParameterVisibilityCondition::Equals {
        parameter: "use_custom_value".to_owned(),
        value: JsonValue::from_bool(true),
    });
    let enabled_parameters = vec![NodeParameter {
        name: "use_custom_value".to_owned(),
        value: JsonValue::from_bool(true),
    }];
    let disabled_parameters = vec![NodeParameter {
        name: "use_custom_value".to_owned(),
        value: JsonValue::from_bool(false),
    }];

    assert!(definition.is_visible(&enabled_parameters));
    assert!(!definition.is_visible(&disabled_parameters));
    assert!(!definition.is_visible(&[]));
}

#[test]
fn parameters_follow_string_visibility_conditions() {
    let definition = NodeParameterDefinition::new(
        "advanced_value",
        String::new(),
        ParameterDefaultValue::Float(Decimal::new(1, 0)),
        drag_float(),
    )
    .visible_when(ParameterVisibilityCondition::Equals {
        parameter: "mode".to_owned(),
        value: JsonValue::from_text("advanced"),
    });
    let parameters = vec![NodeParameter {
        name: "mode".to_owned(),
        value: JsonValue::from_text("advanced"),
    }];

    assert!(definition.is_visible(&parameters));
}

#[test]
fn parameters_follow_any_visibility_conditions() {
    let definition = NodeParameterDefinition::new(
        "multicast_group",
        String::new(),
        ParameterDefaultValue::String("239.0.0.1".to_owned()),
        ParameterUiHint::TextSingleLine,
    )
    .visible_when(ParameterVisibilityCondition::Any {
        conditions: vec![
            ParameterVisibilityCondition::Equals {
                parameter: "mode".to_owned(),
                value: JsonValue::from_text("udp_multicast"),
            },
            ParameterVisibilityCondition::Equals {
                parameter: "mode".to_owned(),
                value: JsonValue::from_text("wled_sound_sync"),
            },
        ],
    });

    assert!(definition.is_visible(&[NodeParameter {
        name: "mode".to_owned(),
        value: JsonValue::from_text("udp_multicast"),
    }]));
    assert!(definition.is_visible(&[NodeParameter {
        name: "mode".to_owned(),
        value: JsonValue::from_text("wled_sound_sync"),
    }]));
    assert!(!definition.is_visible(&[NodeParameter {
        name: "mode".to_owned(),
        value: JsonValue::from_text("udp_unicast"),
    }]));
}

#[test]
fn all_and_not_conditions_compose() {
    let definition = NodeParameterDefinition::new(
        "detail",
        String::new(),
        ParameterDefaultValue::Bool(false),
        ParameterUiHint::Checkbox,
    )
    .visible_when(ParameterVisibilityCondition::All {
        conditions: vec![
            ParameterVisibilityCondition::Equals {
                parameter: "enabled".to_owned(),
                value: JsonValue::from_bool(true),
            },
            ParameterVisibilityCondition::Not {
                condition: Box::new(ParameterVisibilityCondition::Equals {
                    parameter: "mode".to_owned(),
                    value: JsonValue::from_text("off"),
                }),
            },
        ],
    });
    let on = vec![
        NodeParameter { name: "enabled".to_owned(), value: JsonValue::from_bool(true) },
        NodeParameter { name: "mode".to_owned(), value: JsonValue::from_text("on") },
    ];
    let off = vec![
        NodeParameter { name: "enabled".to_owned(), value: JsonValue::from_bool(true) },
        NodeParameter { name: "mode".to_owned(), value: JsonValue::from_text("off") },
    ];
    assert!(definition.is_visible(&on));
    assert!(!definition.is_visible(&off));
}

fn sample_definition() -> NodeDefinition {
    NodeDefinition {
        id: "test.visibility".to_owned(),
        display_name: "Test Visibility".to_owned(),
        category: NodeCategory::Debug,
        needs_io: false,
        inputs: vec![],
        outputs: vec![],
        parameters: vec![
            NodeParameterDefinition::new(
                "mode",
                "Mode".to_owned(),
                ParameterDefaultValue::String("basic".to_owned()),
                ParameterUiHint::TextSingleLine,
            ),
            NodeParameterDefinition::new(
                "advanced_value",
                "Advanced Value".to_owned(),
                ParameterDefaultValue::Float(Decimal::new(15, -1)),
                drag_float(),
            )
            .visible_when(ParameterVisibilityCondition::Equals {
                parameter: "mode".to_owned(),
                value: JsonValue::from_text("advanced"),
            }),
        ],
        connection: NodeConnectionDefinition {
            max_input_connections: 1,
            require_value_kind_match: true,
        },
        runtime_updates: None,
    }
}

#[test]
fn visible_parameter_definitions_hides_conditionally_hidden_controls() {
    let definition = sample_definition();
    let parameters = vec![
        NodeParameter { name: "mode".to_owned(), value: JsonValue::from_text("basic") },
        NodeParameter {
            name: "advanced_value".to_owned(),
            value: JsonValue::from_number(luma_weaver::json::JsonNumber::Float(Decimal::new(15, -1))),
        },
    ];

    let visible = visible_parameter_definitions(&definition, &parameters);
    assert_eq!(
        visible.iter().map(|parameter| parameter.name.as_str()).collect::<Vec<_>>(),
        vec!["mode"]
    );
}

#[test]
fn visible_parameter_definitions_shows_controls_when_the_condition_matches() {
    let definition = sample_definition();
    let parameters = vec![
        NodeParameter { name: "mode".to_owned(), value: JsonValue::from_text("advanced") },
        NodeParameter {
            name: "advanced_value".to_owned(),
            value: JsonValue::from_number(luma_weaver::json::JsonNumber::Float(Decimal::new(15, -1))),
        },
    ];

    let visible = visible_parameter_definitions(&definition, &parameters);
    assert_eq!(
        visible.iter().map(|parameter| parameter.name.as_str()).collect::<Vec<_>>(),
        vec!["mode", "advanced_value"]
    );
}

#[test]
fn node_definitions_list_the_whole_catalog_in_order() {
    let definitions = node_definitions();
    assert_eq!(definitions.len(), BUILTIN_NODE_COUNT);
    assert_eq!(definitions[0].id, NodeTypeId::FLOAT_CONSTANT);
    assert_eq!(definitions[11].id, NodeTypeId::BINARY_SELECT);
    assert_eq!(definitions[BUILTIN_NODE_COUNT - 1].id, NodeTypeId::FRAME_BRIGHTNESS);
    for definition in &definitions {
        let found = node_definition(&definition.id).expect("catalog entry is found by id");
        assert_eq!(found.id, definition.id);
        assert_eq!(found.display_name, definition.display_name);
        assert_eq!(found.inputs.len(), definition.inputs.len());
        assert_eq!(found.outputs.len(), definition.outputs.len());
    }
}

#[test]
fn unknown_node_types_are_not_found() {
    assert!(node_definition("test.unknown").is_none());
    assert!(node_definition_impl("").is_none());
}

#[test]
fn catalog_display_names_are_title_cased_port_names() {
    let display = node_definition(NodeTypeId::DISPLAY).expect("display node");
    assert_eq!(display.display_name, "Display");
    assert_eq!(display.inputs[0].name, "value");
    assert_eq!(display.inputs[0].display_name, "Value");
    assert_eq!(title_case_name("source_min"), "Source Min");
    assert_eq!(title_case_name("__a__b"), "A B");
    assert_eq!(title_case_name("ümlaut_x"), "Ümlaut X");
}

#[test]
fn output_ports_accept_declared_and_compatible_kinds() {
    let min_max = node_definition(NodeTypeId::MIN_MAX).expect("min/max node");
    let output = min_max.output_port("value").expect("value output");
    assert!(output.accepts_kind(ValueKind::Float));
    assert!(output.accepts_kind(ValueKind::FloatTensor));
    assert!(output.accepts_kind(ValueKind::Any));
    assert!(!output.accepts_kind(ValueKind::String));
    assert!(min_max.input_port("missing").is_none());
    let add = node_definition(NodeTypeId::ADD).expect("add node");
    assert!(add.output_port("sum").expect("sum output").accepts_kind(ValueKind::String));
}

#[test]
fn binary_select_reports_mismatched_branches() {
    let select = node_definition_impl(NodeTypeId::BINARY_SELECT).expect("binary select");
    let inputs = [
        InputKindRef { name: "a", kind: ValueKind::FloatTensor },
        InputKindRef { name: "b", kind: ValueKind::Float },
    ];
    let inference = select.infer_output("value", &inputs, &[]);
    assert_eq!(
        inference.message(),
        Some("binary select inputs 'a' and 'b' must resolve to the same kind, found FloatTensor and Float")
    );
    assert_eq!(inference.kind(), None);
    let same = [
        InputKindRef { name: "a", kind: ValueKind::Float },
        InputKindRef { name: "b", kind: ValueKind::Float },
    ];
    assert_eq!(select.infer_output("value", &same, &[]).kind(), Some(ValueKind::Float));
    assert_eq!(select.infer_output("missing", &same, &[]).kind(), None);
}

#[test]
fn delay_output_follows_initial_type_parameter() {
    let delay = node_definition_impl(NodeTypeId::DELAY).expect("delay");
    let parameters = [NodeParameter {
        name: "initial_type".to_owned(),
        value: JsonValue::from_text("tensor"),
    }];
    assert_eq!(delay.infer_output("value", &[], &parameters).kind(), Some(ValueKind::FloatTensor));
    assert_eq!(delay.infer_output("value", &[], &[]).kind(), Some(ValueKind::Float));
}

#[test]
fn find_node_definition_picks_the_first_match() {
    let definitions = vec![sample_definition()];
    assert!(find_node_definition(&definitions, "test.visibility").is_some());
    assert!(find_node_definition(&definitions, "test.other").is_none());
}

fn sample_frame() -> luma_weaver::value::ColorFrame {
    luma_weaver::value::ColorFrame {
        layout: luma_weaver::value::LedLayout {
            id: "strip".to_owned(),
            role: luma_weaver::value::LedLayoutRole::RenderTarget,
            pixel_count: 2,
            width: None,
            height: None,
            points_3d: None,
        },
        pixels: Vec::new(),
    }
}

#[test]
fn frame_values_are_recognised_and_rebuilt_by_kind() {
    assert!(ValueKind::ColorFrame.is_frame());
    assert!(ValueKind::MappedFrame.is_frame());
    assert!(!ValueKind::Float.is_frame());
    let mapped = InputValue::from_frame_kind(ValueKind::MappedFrame, sample_frame()).expect("frame");
    assert_eq!(mapped.value_kind(), ValueKind::MappedFrame);
    assert_eq!(mapped.as_frame().map(|frame| frame.layout.pixel_count), Some(2));
    assert!(InputValue::from_frame_kind(ValueKind::Float, sample_frame()).is_none());
    let mut color = InputValue::from_frame_kind(ValueKind::ColorFrame, sample_frame()).expect("frame");
    if let Some(frame) = color.as_frame_mut() {
        frame.layout.pixel_count = 5;
    }
    assert_eq!(color.as_frame().map(|frame| frame.layout.pixel_count), Some(5));
    assert!(InputValue::Float(Decimal::new(1, 0)).as_frame().is_none());
    let tensor = FloatTensor { shape: vec![2, 3], values: Vec::new() };
    assert_eq!(tensor.element_count(), 6);
    assert_eq!(FloatTensor { shape: Vec::new(), values: Vec::new() }.element_count(), 1);
}

#[test]
fn connection_rules_and_runtime_values_follow_the_schema() {
    let display = node_definition(NodeTypeId::DISPLAY).expect("display");
    let value = display.runtime_update_value("value").expect("runtime value");
    assert_eq!(value.value_kind, ValueKind::Float);
    assert!(display.runtime_update_value("missing").is_none());
    let float_constant = node_definition(NodeTypeId::FLOAT_CONSTANT).expect("float");
    assert!(float_constant.runtime_update_value("value").is_none());

    let laplacian = node_definition(NodeTypeId::LAPLACIAN_FILTER).expect("laplacian");
    let frame_input = laplacian.input_port("frame").expect("frame input");
    let color = node_definition(NodeTypeId::COLOR_CONSTANT).expect("color");
    let color_output = color.output_port("color").expect("color output");
    let solid = node_definition(NodeTypeId::SOLID_FRAME).expect("solid");
    let frame_output = solid.output_port("frame").expect("frame output");
    assert!(laplacian.can_connect_ports(frame_output, frame_input));
    assert!(!laplacian.can_connect_ports(color_output, frame_input));
}
