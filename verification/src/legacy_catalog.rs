//! The earlier built-in node catalog, kept beside the current one in [`crate::catalog`]: the
//! node types it listed, each with its exact shape.
//!
//! Its definitions carry no I/O flag, so `needs_io` is `false` throughout, and no inference
//! behaviour: its shapes name the declared-kind rule, which [`schema_has_shape`] does not compare.

use vstd::prelude::*;
use crate::catalog::{
    decimal, default_tensor_input, in_port, input, negative_decimal, output, param, port,
    runtime_value, schema_has_shape, transparent_input, white_input, BuiltinNode,
};
use crate::json::JsonValue;
use crate::schema::{
    first_position, lemma_first_position, lemma_no_position, condition_holds, lemma_any_of_two,
    lemma_bool_condition, lemma_text_condition, option_views, parameter_holds_bool,
    parameter_holds_text, DefaultView, EnumOption, HintView, InferenceRule, NodeCategory,
    NodeConnectionDefinition, NodeDefinition, NodeParameter, NodeParameterDefinition,
    NodeRuntimeUpdateDefinition, NodeShape, NodeTypeId, ParameterDefaultValue, ParameterUiHint,
    ParameterVisibilityCondition,
};
use crate::text::{str_equal, title_case_name};
use crate::value::{ColorGradientStop, Decimal, FloatTensor, InputValue, RgbaColor, ValueKind};

verus! {

/// The options of the signal generator waveforms selection, as (value, label) pairs.
pub open spec fn signal_generator_waveforms_view() -> Seq<(Seq<char>, Seq<char>)> {
    seq![
        ("sinus"@, "Sine"@),
        ("triangle"@, "Triangle"@),
        ("sawtooth"@, "Sawtooth"@),
        ("rectangle"@, "Rectangle"@),
    ]
}

fn signal_generator_waveforms() -> (options: Vec<EnumOption>)
    ensures
        option_views(options@) == signal_generator_waveforms_view(),
{
    let options = vec![
        EnumOption { value: "sinus".to_owned(), label: "Sine".to_owned() },
        EnumOption { value: "triangle".to_owned(), label: "Triangle".to_owned() },
        EnumOption { value: "sawtooth".to_owned(), label: "Sawtooth".to_owned() },
        EnumOption { value: "rectangle".to_owned(), label: "Rectangle".to_owned() },
    ];
    assert(option_views(options@) =~= signal_generator_waveforms_view());
    options
}

/// The options of the audio fft receive modes selection, as (value, label) pairs.
pub open spec fn audio_fft_receive_modes_view() -> Seq<(Seq<char>, Seq<char>)> {
    seq![
        ("udp_multicast"@, "UDP Multicast"@),
        ("udp_unicast"@, "UDP Unicast"@),
        ("wled_sound_sync"@, "WLED Sound Sync"@),
    ]
}

fn audio_fft_receive_modes() -> (options: Vec<EnumOption>)
    ensures
        option_views(options@) == audio_fft_receive_modes_view(),
{
    let options = vec![
        EnumOption { value: "udp_multicast".to_owned(), label: "UDP Multicast".to_owned() },
        EnumOption { value: "udp_unicast".to_owned(), label: "UDP Unicast".to_owned() },
        EnumOption { value: "wled_sound_sync".to_owned(), label: "WLED Sound Sync".to_owned() },
    ];
    assert(option_views(options@) =~= audio_fft_receive_modes_view());
    options
}

/// The options of the min max float modes selection, as (value, label) pairs.
pub open spec fn min_max_float_modes_view() -> Seq<(Seq<char>, Seq<char>)> {
    seq![("min"@, "Min"@), ("max"@, "Max"@)]
}

fn min_max_float_modes() -> (options: Vec<EnumOption>)
    ensures
        option_views(options@) == min_max_float_modes_view(),
{
    let options = vec![
        EnumOption { value: "min".to_owned(), label: "Min".to_owned() },
        EnumOption { value: "max".to_owned(), label: "Max".to_owned() },
    ];
    assert(option_views(options@) =~= min_max_float_modes_view());
    options
}

/// The options of the round float modes selection, as (value, label) pairs.
pub open spec fn round_float_modes_view() -> Seq<(Seq<char>, Seq<char>)> {
    seq![("floor"@, "Floor"@), ("round"@, "Round"@), ("ceil"@, "Ceil"@)]
}

fn round_float_modes() -> (options: Vec<EnumOption>)
    ensures
        option_views(options@) == round_float_modes_view(),
{
    let options = vec![
        EnumOption { value: "floor".to_owned(), label: "Floor".to_owned() },
        EnumOption { value: "round".to_owned(), label: "Round".to_owned() },
        EnumOption { value: "ceil".to_owned(), label: "Ceil".to_owned() },
    ];
    assert(option_views(options@) =~= round_float_modes_view());
    options
}

/// The wled sink protocol options, as (value, label) pairs.
pub open spec fn wled_sink_protocol_options_view() -> Seq<(Seq<char>, Seq<char>)> {
    seq![("ddp"@, "DDP"@), ("udp_raw"@, "UDP Raw"@)]
}

fn wled_sink_protocol_options() -> (options: Vec<EnumOption>)
    ensures
        option_views(options@) == wled_sink_protocol_options_view(),
{
    let options = vec![
        EnumOption { value: "ddp".to_owned(), label: "DDP".to_owned() },
        EnumOption { value: "udp_raw".to_owned(), label: "UDP Raw".to_owned() },
    ];
    assert(option_views(options@) =~= wled_sink_protocol_options_view());
    options
}

/// The default rainbow gradient stops.
pub open spec fn default_rainbow_gradient_stops_view() -> Seq<ColorGradientStop> {
    seq![
        ColorGradientStop {
            position: decimal(0, 0),
            color: RgbaColor {
                r: decimal(1, 0),
                g: decimal(0, 0),
                b: decimal(0, 0),
                a: decimal(1, 0),
            },
        },
        ColorGradientStop {
            position: decimal(2, -1i32),
            color: RgbaColor {
                r: decimal(1, 0),
                g: decimal(5, -1i32),
                b: decimal(0, 0),
                a: decimal(1, 0),
            },
        },
        ColorGradientStop {
            position: decimal(4, -1i32),
            color: RgbaColor {
                r: decimal(1, 0),
                g: decimal(1, 0),
                b: decimal(0, 0),
                a: decimal(1, 0),
            },
        },
        ColorGradientStop {
            position: decimal(6, -1i32),
            color: RgbaColor {
                r: decimal(0, 0),
                g: decimal(1, 0),
                b: decimal(0, 0),
                a: decimal(1, 0),
            },
        },
        ColorGradientStop {
            position: decimal(8, -1i32),
            color: RgbaColor {
                r: decimal(0, 0),
                g: decimal(4, -1i32),
                b: decimal(1, 0),
                a: decimal(1, 0),
            },
        },
        ColorGradientStop {
            position: decimal(1, 0),
            color: RgbaColor {
                r: decimal(7, -1i32),
                g: decimal(0, 0),
                b: decimal(1, 0),
                a: decimal(1, 0),
            },
        },
    ]
}

fn default_rainbow_gradient_stops() -> (stops: Vec<ColorGradientStop>)
    ensures
        stops@ == default_rainbow_gradient_stops_view(),
{
    let stops = vec![
        ColorGradientStop {
            position: Decimal::new(0, 0),
            color: RgbaColor {
                r: Decimal::new(1, 0),
                g: Decimal::new(0, 0),
                b: Decimal::new(0, 0),
                a: Decimal::new(1, 0),
            },
        },
        ColorGradientStop {
            position: Decimal::new(2, -1),
            color: RgbaColor {
                r: Decimal::new(1, 0),
                g: Decimal::new(5, -1),
                b: Decimal::new(0, 0),
                a: Decimal::new(1, 0),
            },
        },
        ColorGradientStop {
            position: Decimal::new(4, -1),
            color: RgbaColor {
                r: Decimal::new(1, 0),
                g: Decimal::new(1, 0),
                b: Decimal::new(0, 0),
                a: Decimal::new(1, 0),
            },
        },
        ColorGradientStop {
            position: Decimal::new(6, -1),
            color: RgbaColor {
                r: Decimal::new(0, 0),
                g: Decimal::new(1, 0),
                b: Decimal::new(0, 0),
                a: Decimal::new(1, 0),
            },
        },
        ColorGradientStop {
            position: Decimal::new(8, -1),
            color: RgbaColor {
                r: Decimal::new(0, 0),
                g: Decimal::new(4, -1),
                b: Decimal::new(1, 0),
                a: Decimal::new(1, 0),
            },
        },
        ColorGradientStop {
            position: Decimal::new(1, 0),
            color: RgbaColor {
                r: Decimal::new(7, -1),
                g: Decimal::new(0, 0),
                b: Decimal::new(1, 0),
                a: Decimal::new(1, 0),
            },
        },
    ];
    assert(stops@ =~= default_rainbow_gradient_stops_view());
    stops
}

/// The default plasma gradient stops.
pub open spec fn default_plasma_gradient_stops_view() -> Seq<ColorGradientStop> {
    seq![
        ColorGradientStop {
            position: decimal(0, 0),
            color: RgbaColor {
                r: decimal(2, -2i32),
                g: decimal(0, 0),
                b: decimal(1, -1i32),
                a: decimal(1, 0),
            },
        },
        ColorGradientStop {
            position: decimal(3, -1i32),
            color: RgbaColor {
                r: decimal(3, -1i32),
                g: decimal(0, 0),
                b: decimal(6, -1i32),
                a: decimal(1, 0),
            },
        },
        ColorGradientStop {
            position: decimal(55, -2i32),
            color: RgbaColor {
                r: decimal(0, 0),
                g: decimal(7, -1i32),
                b: decimal(9, -1i32),
                a: decimal(1, 0),
            },
        },
        ColorGradientStop {
            position: decimal(8, -1i32),
            color: RgbaColor {
                r: decimal(1, 0),
                g: decimal(5, -1i32),
                b: decimal(0, 0),
                a: decimal(1, 0),
            },
        },
        ColorGradientStop {
            position: decimal(1, 0),
            color: RgbaColor {
                r: decimal(1, 0),
                g: decimal(95, -2i32),
                b: decimal(4, -1i32),
                a: decimal(1, 0),
            },
        },
    ]
}

fn default_plasma_gradient_stops() -> (stops: Vec<ColorGradientStop>)
    ensures
        stops@ == default_plasma_gradient_stops_view(),
{
    let stops = vec![
        ColorGradientStop {
            position: Decimal::new(0, 0),
            color: RgbaColor {
                r: Decimal::new(2, -2),
                g: Decimal::new(0, 0),
                b: Decimal::new(1, -1),
                a: Decimal::new(1, 0),
            },
        },
        ColorGradientStop {
            position: Decimal::new(3, -1),
            color: RgbaColor {
                r: Decimal::new(3, -1),
                g: Decimal::new(0, 0),
                b: Decimal::new(6, -1),
                a: Decimal::new(1, 0),
            },
        },
        ColorGradientStop {
            position: Decimal::new(55, -2),
            color: RgbaColor {
                r: Decimal::new(0, 0),
                g: Decimal::new(7, -1),
                b: Decimal::new(9, -1),
                a: Decimal::new(1, 0),
            },
        },
        ColorGradientStop {
            position: Decimal::new(8, -1),
            color: RgbaColor {
                r: Decimal::new(1, 0),
                g: Decimal::new(5, -1),
                b: Decimal::new(0, 0),
                a: Decimal::new(1, 0),
            },
        },
        ColorGradientStop {
            position: Decimal::new(1, 0),
            color: RgbaColor {
                r: Decimal::new(1, 0),
                g: Decimal::new(95, -2),
                b: Decimal::new(4, -1),
                a: Decimal::new(1, 0),
            },
        },
    ];
    assert(stops@ =~= default_plasma_gradient_stops_view());
    stops
}

/// The default twinkle gradient stops.
pub open spec fn default_twinkle_gradient_stops_view() -> Seq<ColorGradientStop> {
    seq![
        ColorGradientStop {
            position: decimal(0, 0),
            color: RgbaColor {
                r: decimal(65, -2i32),
                g: decimal(75, -2i32),
                b: decimal(1, 0),
                a: decimal(1, 0),
            },
        },
        ColorGradientStop {
            position: decimal(5, -1i32),
            color: RgbaColor {
                r: decimal(1, 0),
                g: decimal(95, -2i32),
                b: decimal(85, -2i32),
                a: decimal(1, 0),
            },
        },
        ColorGradientStop {
            position: decimal(1, 0),
            color: RgbaColor {
                r: decimal(1, 0),
                g: decimal(1, 0),
                b: decimal(1, 0),
                a: decimal(1, 0),
            },
        },
    ]
}

fn default_twinkle_gradient_stops() -> (stops: Vec<ColorGradientStop>)
    ensures
        stops@ == default_twinkle_gradient_stops_view(),
{
    let stops = vec![
        ColorGradientStop {
            position: Decimal::new(0, 0),
            color: RgbaColor {
                r: Decimal::new(65, -2),
                g: Decimal::new(75, -2),
                b: Decimal::new(1, 0),
                a: Decimal::new(1, 0),
            },
        },
        ColorGradientStop {
            position: Decimal::new(5, -1),
            color: RgbaColor {
                r: Decimal::new(1, 0),
                g: Decimal::new(95, -2),
                b: Decimal::new(85, -2),
                a: Decimal::new(1, 0),
            },
        },
        ColorGradientStop {
            position: Decimal::new(1, 0),
            color: RgbaColor {
                r: Decimal::new(1, 0),
                g: Decimal::new(1, 0),
                b: Decimal::new(1, 0),
                a: Decimal::new(1, 0),
            },
        },
    ];
    assert(stops@ =~= default_twinkle_gradient_stops_view());
    stops
}

/// The default bouncing balls gradient stops.
pub open spec fn default_bouncing_balls_gradient_stops_view() -> Seq<ColorGradientStop> {
    seq![
        ColorGradientStop {
            position: decimal(0, 0),
            color: RgbaColor {
                r: decimal(9, -2i32),
                g: decimal(64, -2i32),
                b: decimal(98, -2i32),
                a: decimal(1, 0),
            },
        },
        ColorGradientStop {
            position: decimal(5, -1i32),
            color: RgbaColor {
                r: decimal(98, -2i32),
                g: decimal(73, -2i32),
                b: decimal(16, -2i32),
                a: decimal(1, 0),
            },
        },
        ColorGradientStop {
            position: decimal(1, 0),
            color: RgbaColor {
                r: decimal(96, -2i32),
                g: decimal(24, -2i32),
                b: decimal(43, -2i32),
                a: decimal(1, 0),
            },
        },
    ]
}

fn default_bouncing_balls_gradient_stops() -> (stops: Vec<ColorGradientStop>)
    ensures
        stops@ == default_bouncing_balls_gradient_stops_view(),
{
    let stops = vec![
        ColorGradientStop {
            position: Decimal::new(0, 0),
            color: RgbaColor {
                r: Decimal::new(9, -2),
                g: Decimal::new(64, -2),
                b: Decimal::new(98, -2),
                a: Decimal::new(1, 0),
            },
        },
        ColorGradientStop {
            position: Decimal::new(5, -1),
            color: RgbaColor {
                r: Decimal::new(98, -2),
                g: Decimal::new(73, -2),
                b: Decimal::new(16, -2),
                a: Decimal::new(1, 0),
            },
        },
        ColorGradientStop {
            position: Decimal::new(1, 0),
            color: RgbaColor {
                r: Decimal::new(96, -2),
                g: Decimal::new(24, -2),
                b: Decimal::new(43, -2),
                a: Decimal::new(1, 0),
            },
        },
    ];
    assert(stops@ =~= default_bouncing_balls_gradient_stops_view());
    stops
}

/// The shape of the `float_constant` node.
pub open spec fn float_constant_shape() -> NodeShape {
    NodeShape {
        id: NodeTypeId::FLOAT_CONSTANT@,
        display_name: "Float Constant"@,
        category: NodeCategory::Inputs,
        needs_io: false,
        rule: InferenceRule::Declared,
        inputs: seq![],
        outputs: seq![
            port("value"@, ValueKind::Float, seq![]),
        ],
        parameters: seq![
            param(
                "value"@,
                DefaultView::Float(decimal(0, 0)),
                HintView::DragFloat {
                    speed: decimal(1, -2i32),
                    min: negative_decimal(1, 4),
                    max: decimal(1, 4),
                },
                |parameters: Seq<NodeParameter>| true,
            ),
        ],
        connection: NodeConnectionDefinition {
            max_input_connections: 1,
            require_value_kind_match: true,
        },
        runtime_values: None,
    }
}

fn float_constant_node() -> (node: BuiltinNode)
    ensures
        node.shape() == float_constant_shape(),
{
    let node = BuiltinNode {
        schema: NodeDefinition {
            id: NodeTypeId::FLOAT_CONSTANT.to_owned(),
            display_name: "Float Constant".to_owned(),
            category: NodeCategory::Inputs,
            needs_io: false,
            inputs: vec![],
            outputs: vec![output("value", ValueKind::Float, vec![])],
            parameters: vec![
                NodeParameterDefinition::new(
                    "value",
                    title_case_name("value"),
                    ParameterDefaultValue::Float(Decimal::new(0, 0)),
                    ParameterUiHint::DragFloat {
                        speed: Decimal::new(1, -2),
                        min: Decimal::negative(1, 4),
                        max: Decimal::new(1, 4),
                    },
                ),
            ],
            connection: NodeConnectionDefinition {
                max_input_connections: 1,
                require_value_kind_match: true,
            },
            runtime_updates: None,
        },
        rule: InferenceRule::Declared,
    };
    assert(node.shape() =~~= float_constant_shape());
    node
}

/// The shape of the `color_constant` node.
pub open spec fn color_constant_shape() -> NodeShape {
    NodeShape {
        id: NodeTypeId::COLOR_CONSTANT@,
        display_name: "Color Constant"@,
        category: NodeCategory::Inputs,
        needs_io: false,
        rule: InferenceRule::Declared,
        inputs: seq![],
        outputs: seq![
            port("color"@, ValueKind::Color, seq![]),
        ],
        parameters: seq![
            param(
                "color"@,
                DefaultView::Color(
                    RgbaColor {
                        r: decimal(1, 0),
                        g: decimal(1, 0),
                        b: decimal(1, 0),
                        a: decimal(1, 0),
                    },
                ),
                HintView::ColorPicker,
                |parameters: Seq<NodeParameter>| true,
            ),
        ],
        connection: NodeConnectionDefinition {
            max_input_connections: 1,
            require_value_kind_match: true,
        },
        runtime_values: None,
    }
}

fn color_constant_node() -> (node: BuiltinNode)
    ensures
        node.shape() == color_constant_shape(),
{
    let node = BuiltinNode {
        schema: NodeDefinition {
            id: NodeTypeId::COLOR_CONSTANT.to_owned(),
            display_name: "Color Constant".to_owned(),
            category: NodeCategory::Inputs,
            needs_io: false,
            inputs: vec![],
            outputs: vec![output("color", ValueKind::Color, vec![])],
            parameters: vec![
                NodeParameterDefinition::new(
                    "color",
                    title_case_name("color"),
                    ParameterDefaultValue::Color(
                        RgbaColor {
                            r: Decimal::new(1, 0),
                            g: Decimal::new(1, 0),
                            b: Decimal::new(1, 0),
                            a: Decimal::new(1, 0),
                        },
                    ),
                    ParameterUiHint::ColorPicker,
                ),
            ],
            connection: NodeConnectionDefinition {
                max_input_connections: 1,
                require_value_kind_match: true,
            },
            runtime_updates: None,
        },
        rule: InferenceRule::Declared,
    };
    assert(node.shape() =~~= color_constant_shape());
    node
}

/// The shape of the `display` node.
pub open spec fn display_shape() -> NodeShape {
    NodeShape {
        id: NodeTypeId::DISPLAY@,
        display_name: "Display"@,
        category: NodeCategory::Outputs,
        needs_io: false,
        rule: InferenceRule::Declared,
        inputs: seq![
            in_port(
                "value"@,
                ValueKind::Float,
                seq![ValueKind::Color, ValueKind::ColorFrame, ValueKind::LedLayout],
                Some(ValueKind::Float),
            ),
        ],
        outputs: seq![],
        parameters: seq![],
        connection: NodeConnectionDefinition {
            max_input_connections: 1,
            require_value_kind_match: true,
        },
        runtime_values: Some(
            (
                true,
                seq![
                    port(
                        "value"@,
                        ValueKind::Float,
                        seq![ValueKind::Color, ValueKind::ColorFrame, ValueKind::LedLayout],
                    ),
                ],
            ),
        ),
    }
}

fn display_node() -> (node: BuiltinNode)
    ensures
        node.shape() == display_shape(),
{
    let node = BuiltinNode {
        schema: NodeDefinition {
            id: NodeTypeId::DISPLAY.to_owned(),
            display_name: "Display".to_owned(),
            category: NodeCategory::Outputs,
            needs_io: false,
            inputs: vec![
                input(
                    "value",
                    ValueKind::Float,
                    vec![ValueKind::Color, ValueKind::ColorFrame, ValueKind::LedLayout],
                    Some(InputValue::Float(Decimal::new(0, 0))),
                ),
            ],
            outputs: vec![],
            parameters: vec![],
            connection: NodeConnectionDefinition {
                max_input_connections: 1,
                require_value_kind_match: true,
            },
            runtime_updates: Some(
                NodeRuntimeUpdateDefinition {
                    auto_subscribe_in_editor: true,
                    values: vec![
                        runtime_value(
                            "value",
                            ValueKind::Float,
                            vec![ValueKind::Color, ValueKind::ColorFrame, ValueKind::LedLayout],
                        ),
                    ],
                },
            ),
        },
        rule: InferenceRule::Declared,
    };
    assert(node.shape() =~~= display_shape());
    node
}

/// The shape of the `plot` node.
pub open spec fn plot_shape() -> NodeShape {
    NodeShape {
        id: NodeTypeId::PLOT@,
        display_name: "Plot"@,
        category: NodeCategory::Outputs,
        needs_io: false,
        rule: InferenceRule::Declared,
        inputs: seq![
            in_port("value"@, ValueKind::Float, seq![], Some(ValueKind::Float)),
        ],
        outputs: seq![],
        parameters: seq![],
        connection: NodeConnectionDefinition {
            max_input_connections: 1,
            require_value_kind_match: true,
        },
        runtime_values: Some(
            (
                true,
                seq![port("value"@, ValueKind::Float, seq![])],
            ),
        ),
    }
}

fn plot_node() -> (node: BuiltinNode)
    ensures
        node.shape() == plot_shape(),
{
    let node = BuiltinNode {
        schema: NodeDefinition {
            id: NodeTypeId::PLOT.to_owned(),
            display_name: "Plot".to_owned(),
            category: NodeCategory::Outputs,
            needs_io: false,
            inputs: vec![
                input(
                    "value",
                    ValueKind::Float,
                    vec![],
                    Some(InputValue::Float(Decimal::new(0, 0))),
                ),
            ],
            outputs: vec![],
            parameters: vec![],
            connection: NodeConnectionDefinition {
                max_input_connections: 1,
                require_value_kind_match: true,
            },
            runtime_updates: Some(
                NodeRuntimeUpdateDefinition {
                    auto_subscribe_in_editor: true,
                    values: vec![runtime_value("value", ValueKind::Float, vec![])],
                },
            ),
        },
        rule: InferenceRule::Declared,
    };
    assert(node.shape() =~~= plot_shape());
    node
}

/// The shape of the `delay` node.
pub open spec fn delay_shape() -> NodeShape {
    NodeShape {
        id: NodeTypeId::DELAY@,
        display_name: "Delay"@,
        category: NodeCategory::TemporalFilters,
        needs_io: false,
        rule: InferenceRule::Declared,
        inputs: seq![
            in_port("value"@, ValueKind::Any, seq![], Some(ValueKind::Float)),
        ],
        outputs: seq![
            port("value"@, ValueKind::Any, seq![]),
        ],
        parameters: seq![
            param(
                "ticks"@,
                DefaultView::Integer(1),
                HintView::IntegerDrag { speed: decimal(1, 0), min: 1, max: 10000 },
                |parameters: Seq<NodeParameter>| true,
            ),
        ],
        connection: NodeConnectionDefinition {
            max_input_connections: 1,
            require_value_kind_match: true,
        },
        runtime_values: None,
    }
}

fn delay_node() -> (node: BuiltinNode)
    ensures
        node.shape() == delay_shape(),
{
    let node = BuiltinNode {
        schema: NodeDefinition {
            id: NodeTypeId::DELAY.to_owned(),
            display_name: "Delay".to_owned(),
            category: NodeCategory::TemporalFilters,
            needs_io: false,
            inputs: vec![
                input(
                    "value",
                    ValueKind::Any,
                    vec![],
                    Some(InputValue::Float(Decimal::new(0, 0))),
                ),
            ],
            outputs: vec![output("value", ValueKind::Any, vec![])],
            parameters: vec![
                NodeParameterDefinition::new(
                    "ticks",
                    title_case_name("ticks"),
                    ParameterDefaultValue::Integer(1),
                    ParameterUiHint::IntegerDrag {
                        speed: Decimal::new(1, 0),
                        min: 1,
                        max: 10_000,
                    },
                ),
            ],
            connection: NodeConnectionDefinition {
                max_input_connections: 1,
                require_value_kind_match: true,
            },
            runtime_updates: None,
        },
        rule: InferenceRule::Declared,
    };
    assert(node.shape() =~~= delay_shape());
    node
}

/// The shape of the `wled_target` node.
pub open spec fn wled_target_shape() -> NodeShape {
    NodeShape {
        id: NodeTypeId::WLED_TARGET@,
        display_name: "Wled Target"@,
        category: NodeCategory::Outputs,
        needs_io: false,
        rule: InferenceRule::Declared,
        inputs: seq![
            in_port("value"@, ValueKind::ColorFrame, seq![ValueKind::Color], None),
        ],
        outputs: seq![],
        parameters: seq![
            param(
                "target"@,
                DefaultView::String(""@),
                HintView::WledInstanceOrHost,
                |parameters: Seq<NodeParameter>| true,
            ),
            param(
                "led_count"@,
                DefaultView::Integer(60),
                HintView::IntegerDrag { speed: decimal(1, 0), min: 1, max: 8192 },
                |parameters: Seq<NodeParameter>| true,
            ),
        ],
        connection: NodeConnectionDefinition {
            max_input_connections: 1,
            require_value_kind_match: true,
        },
        runtime_values: None,
    }
}

fn wled_target_node() -> (node: BuiltinNode)
    ensures
        node.shape() == wled_target_shape(),
{
    let node = BuiltinNode {
        schema: NodeDefinition {
            id: NodeTypeId::WLED_TARGET.to_owned(),
            display_name: "Wled Target".to_owned(),
            category: NodeCategory::Outputs,
            needs_io: false,
            inputs: vec![input("value", ValueKind::ColorFrame, vec![ValueKind::Color], None)],
            outputs: vec![],
            parameters: vec![
                NodeParameterDefinition::new(
                    "target",
                    title_case_name("target"),
                    ParameterDefaultValue::String("".to_owned()),
                    ParameterUiHint::WledInstanceOrHost,
                ),
                NodeParameterDefinition::new(
                    "led_count",
                    title_case_name("led_count"),
                    ParameterDefaultValue::Integer(60),
                    ParameterUiHint::IntegerDrag {
                        speed: Decimal::new(1, 0),
                        min: 1,
                        max: 8192,
                    },
                ),
            ],
            connection: NodeConnectionDefinition {
                max_input_connections: 1,
                require_value_kind_match: true,
            },
            runtime_updates: None,
        },
        rule: InferenceRule::Declared,
    };
    assert(node.shape() =~~= wled_target_shape());
    node
}

/// The shape of the `wled_sink` node.
pub open spec fn wled_sink_shape() -> NodeShape {
    NodeShape {
        id: NodeTypeId::WLED_SINK@,
        display_name: "Wled Sink"@,
        category: NodeCategory::Inputs,
        needs_io: false,
        rule: InferenceRule::Declared,
        inputs: seq![],
        outputs: seq![
            port("frame"@, ValueKind::ColorFrame, seq![]),
        ],
        parameters: seq![
            param(
                "protocol"@,
                DefaultView::String("ddp"@),
                HintView::EnumSelect(wled_sink_protocol_options_view()),
                |parameters: Seq<NodeParameter>| true,
            ),
            param(
                "port"@,
                DefaultView::Integer(4048),
                HintView::IntegerDrag { speed: decimal(1, 0), min: 1, max: 65535 },
                |parameters: Seq<NodeParameter>| true,
            ),
        ],
        connection: NodeConnectionDefinition {
            max_input_connections: 1,
            require_value_kind_match: true,
        },
        runtime_values: None,
    }
}

fn wled_sink_node() -> (node: BuiltinNode)
    ensures
        node.shape() == wled_sink_shape(),
{
    let node = BuiltinNode {
        schema: NodeDefinition {
            id: NodeTypeId::WLED_SINK.to_owned(),
            display_name: "Wled Sink".to_owned(),
            category: NodeCategory::Inputs,
            needs_io: false,
            inputs: vec![],
            outputs: vec![output("frame", ValueKind::ColorFrame, vec![])],
            parameters: vec![
                NodeParameterDefinition::new(
                    "protocol",
                    title_case_name("protocol"),
                    ParameterDefaultValue::String("ddp".to_owned()),
                    ParameterUiHint::EnumSelect { options: wled_sink_protocol_options() },
                ),
                NodeParameterDefinition::new(
                    "port",
                    title_case_name("port"),
                    ParameterDefaultValue::Integer(4048),
                    ParameterUiHint::IntegerDrag {
                        speed: Decimal::new(1, 0),
                        min: 1,
                        max: 65535,
                    },
                ),
            ],
            connection: NodeConnectionDefinition {
                max_input_connections: 1,
                require_value_kind_match: true,
            },
            runtime_updates: None,
        },
        rule: InferenceRule::Declared,
    };
    assert(node.shape() =~~= wled_sink_shape());
    node
}

/// The shape of the `audio_fft_receiver` node.
pub open spec fn audio_fft_receiver_shape() -> NodeShape {
    NodeShape {
        id: NodeTypeId::AUDIO_FFT_RECEIVER@,
        display_name: "Audio FFT Receiver"@,
        category: NodeCategory::Inputs,
        needs_io: false,
        rule: InferenceRule::Declared,
        inputs: seq![],
        outputs: seq![
            port("spectrum"@, ValueKind::FloatTensor, seq![]),
            port("spectral_peak"@, ValueKind::Float, seq![]),
            port("overall_loudness"@, ValueKind::Float, seq![]),
        ],
        parameters: seq![
            param(
                "receive_mode"@,
                DefaultView::String("udp_multicast"@),
                HintView::EnumSelect(audio_fft_receive_modes_view()),
                |parameters: Seq<NodeParameter>| true,
            ),
            param(
                "port"@,
                DefaultView::Integer(11988),
                HintView::IntegerDrag { speed: decimal(1, 0), min: 1, max: 65535 },
                |parameters: Seq<NodeParameter>| true,
            ),
            param(
                "multicast_group"@,
                DefaultView::String("239.0.0.1"@),
                HintView::TextSingleLine,
                |parameters: Seq<NodeParameter>| (parameter_holds_text(parameters, "receive_mode"@, "udp_multicast"@) || parameter_holds_text(parameters, "receive_mode"@, "wled_sound_sync"@)),
            ),
            param(
                "bind_host"@,
                DefaultView::String("0.0.0.0"@),
                HintView::TextSingleLine,
                |parameters: Seq<NodeParameter>| parameter_holds_text(parameters, "receive_mode"@, "udp_unicast"@),
            ),
        ],
        connection: NodeConnectionDefinition {
            max_input_connections: 1,
            require_value_kind_match: true,
        },
        runtime_values: None,
    }
}

fn audio_fft_receiver_node() -> (node: BuiltinNode)
    ensures
        node.shape() == audio_fft_receiver_shape(),
{
    let node = BuiltinNode {
        schema: NodeDefinition {
            id: NodeTypeId::AUDIO_FFT_RECEIVER.to_owned(),
            display_name: "Audio FFT Receiver".to_owned(),
            category: NodeCategory::Inputs,
            needs_io: false,
            inputs: vec![],
            outputs: vec![
                output("spectrum", ValueKind::FloatTensor, vec![]),
                output("spectral_peak", ValueKind::Float, vec![]),
                output("overall_loudness", ValueKind::Float, vec![]),
            ],
            parameters: vec![
                NodeParameterDefinition::new(
                    "receive_mode",
                    title_case_name("receive_mode"),
                    ParameterDefaultValue::String("udp_multicast".to_owned()),
                    ParameterUiHint::EnumSelect { options: audio_fft_receive_modes() },
                ),
                NodeParameterDefinition::new(
                    "port",
                    title_case_name("port"),
                    ParameterDefaultValue::Integer(11988),
                    ParameterUiHint::IntegerDrag {
                        speed: Decimal::new(1, 0),
                        min: 1,
                        max: 65535,
                    },
                ),
                NodeParameterDefinition::new(
                    "multicast_group",
                    title_case_name("multicast_group"),
                    ParameterDefaultValue::String("239.0.0.1".to_owned()),
                    ParameterUiHint::TextSingleLine,
                )
                    .visible_when(ParameterVisibilityCondition::Any {
                        conditions: vec![
                            ParameterVisibilityCondition::Equals {
                                parameter: "receive_mode".to_owned(),
                                value: JsonValue::from_text("udp_multicast"),
                            },
                            ParameterVisibilityCondition::Equals {
                                parameter: "receive_mode".to_owned(),
                                value: JsonValue::from_text("wled_sound_sync"),
                            },
                        ],
                    }),
                NodeParameterDefinition::new(
                    "bind_host",
                    title_case_name("bind_host"),
                    ParameterDefaultValue::String("0.0.0.0".to_owned()),
                    ParameterUiHint::TextSingleLine,
                )
                    .visible_when(ParameterVisibilityCondition::Equals {
                        parameter: "receive_mode".to_owned(),
                        value: JsonValue::from_text("udp_unicast"),
                    }),
            ],
            connection: NodeConnectionDefinition {
                max_input_connections: 1,
                require_value_kind_match: true,
            },
            runtime_updates: None,
        },
        rule: InferenceRule::Declared,
    };
    proof {
        assert forall|parameters: Seq<NodeParameter>|
            #[trigger] condition_holds(node.schema.parameters@[2].visible_when->0, parameters)
                == (parameter_holds_text(parameters, "receive_mode"@, "udp_multicast"@) || parameter_holds_text(parameters, "receive_mode"@, "wled_sound_sync"@)) by {
            lemma_any_of_two(node.schema.parameters@[2].visible_when->0, parameters);
            lemma_text_condition(node.schema.parameters@[2].visible_when->0->Any_conditions@[0], "udp_multicast"@, parameters);
            lemma_text_condition(node.schema.parameters@[2].visible_when->0->Any_conditions@[1], "wled_sound_sync"@, parameters);
        }
        assert forall|parameters: Seq<NodeParameter>|
            #[trigger] condition_holds(node.schema.parameters@[3].visible_when->0, parameters)
                == parameter_holds_text(parameters, "receive_mode"@, "udp_unicast"@) by {
            lemma_text_condition(node.schema.parameters@[3].visible_when->0, "udp_unicast"@, parameters);
        }
    }
    assert(node.shape() =~~= audio_fft_receiver_shape());
    node
}

/// The shape of the `ha_mqtt_number` node.
pub open spec fn ha_mqtt_number_shape() -> NodeShape {
    NodeShape {
        id: NodeTypeId::HA_MQTT_NUMBER@,
        display_name: "Home Assistant MQTT Number"@,
        category: NodeCategory::Inputs,
        needs_io: false,
        rule: InferenceRule::Declared,
        inputs: seq![],
        outputs: seq![
            port("value"@, ValueKind::Float, seq![]),
        ],
        parameters: seq![
            param(
                "broker_id"@,
                DefaultView::String(Seq::empty()),
                HintView::MqttBrokerSelect,
                |parameters: Seq<NodeParameter>| true,
            ),
            param(
                "entity_id"@,
                DefaultView::String("animation_builder_number"@),
                HintView::TextSingleLine,
                |parameters: Seq<NodeParameter>| true,
            ),
            param(
                "display_name"@,
                DefaultView::String("Luma Weaver Number"@),
                HintView::TextSingleLine,
                |parameters: Seq<NodeParameter>| true,
            ),
            param(
                "default_value"@,
                DefaultView::Float(decimal(0, 0)),
                HintView::DragFloat {
                    speed: decimal(1, -2i32),
                    min: negative_decimal(1, 4),
                    max: decimal(1, 4),
                },
                |parameters: Seq<NodeParameter>| true,
            ),
            param(
                "min"@,
                DefaultView::Float(decimal(0, 0)),
                HintView::DragFloat {
                    speed: decimal(1, -2i32),
                    min: negative_decimal(1, 4),
                    max: decimal(1, 4),
                },
                |parameters: Seq<NodeParameter>| true,
            ),
            param(
                "max"@,
                DefaultView::Float(decimal(1, 2)),
                HintView::DragFloat {
                    speed: decimal(1, -2i32),
                    min: negative_decimal(1, 4),
                    max: decimal(1, 4),
                },
                |parameters: Seq<NodeParameter>| true,
            ),
            param(
                "step"@,
                DefaultView::Float(decimal(1, 0)),
                HintView::DragFloat {
                    speed: decimal(1, -2i32),
                    min: decimal(1, -4i32),
                    max: decimal(1, 4),
                },
                |parameters: Seq<NodeParameter>| true,
            ),
            param(
                "retain"@,
                DefaultView::Bool(true),
                HintView::Checkbox,
                |parameters: Seq<NodeParameter>| true,
            ),
        ],
        connection: NodeConnectionDefinition {
            max_input_connections: 1,
            require_value_kind_match: true,
        },
        runtime_values: None,
    }
}

fn ha_mqtt_number_node() -> (node: BuiltinNode)
    ensures
        node.shape() == ha_mqtt_number_shape(),
{
    let node = BuiltinNode {
        schema: NodeDefinition {
            id: NodeTypeId::HA_MQTT_NUMBER.to_owned(),
            display_name: "Home Assistant MQTT Number".to_owned(),
            category: NodeCategory::Inputs,
            needs_io: false,
            inputs: vec![],
            outputs: vec![output("value", ValueKind::Float, vec![])],
            parameters: vec![
                NodeParameterDefinition::new(
                    "broker_id",
                    title_case_name("broker_id"),
                    ParameterDefaultValue::String(String::new()),
                    ParameterUiHint::MqttBrokerSelect,
                ),
                NodeParameterDefinition::new(
                    "entity_id",
                    title_case_name("entity_id"),
                    ParameterDefaultValue::String("animation_builder_number".to_owned()),
                    ParameterUiHint::TextSingleLine,
                ),
                NodeParameterDefinition::new(
                    "display_name",
                    title_case_name("display_name"),
                    ParameterDefaultValue::String("Luma Weaver Number".to_owned()),
                    ParameterUiHint::TextSingleLine,
                ),
                NodeParameterDefinition::new(
                    "default_value",
                    title_case_name("default_value"),
                    ParameterDefaultValue::Float(Decimal::new(0, 0)),
                    ParameterUiHint::DragFloat {
                        speed: Decimal::new(1, -2),
                        min: Decimal::negative(1, 4),
                        max: Decimal::new(1, 4),
                    },
                ),
                NodeParameterDefinition::new(
                    "min",
                    title_case_name("min"),
                    ParameterDefaultValue::Float(Decimal::new(0, 0)),
                    ParameterUiHint::DragFloat {
                        speed: Decimal::new(1, -2),
                        min: Decimal::negative(1, 4),
                        max: Decimal::new(1, 4),
                    },
                ),
                NodeParameterDefinition::new(
                    "max",
                    title_case_name("max"),
                    ParameterDefaultValue::Float(Decimal::new(1, 2)),
                    ParameterUiHint::DragFloat {
                        speed: Decimal::new(1, -2),
                        min: Decimal::negative(1, 4),
                        max: Decimal::new(1, 4),
                    },
                ),
                NodeParameterDefinition::new(
                    "step",
                    title_case_name("step"),
                    ParameterDefaultValue::Float(Decimal::new(1, 0)),
                    ParameterUiHint::DragFloat {
                        speed: Decimal::new(1, -2),
                        min: Decimal::new(1, -4),
                        max: Decimal::new(1, 4),
                    },
                ),
                NodeParameterDefinition::new(
                    "retain",
                    title_case_name("retain"),
                    ParameterDefaultValue::Bool(true),
                    ParameterUiHint::Checkbox,
                ),
            ],
            connection: NodeConnectionDefinition {
                max_input_connections: 1,
                require_value_kind_match: true,
            },
            runtime_updates: None,
        },
        rule: InferenceRule::Declared,
    };
    assert(node.shape() =~~= ha_mqtt_number_shape());
    node
}

/// The shape of the `add_float` node.
pub open spec fn add_float_shape() -> NodeShape {
    NodeShape {
        id: NodeTypeId::ADD_FLOAT@,
        display_name: "Add Float"@,
        category: NodeCategory::Math,
        needs_io: false,
        rule: InferenceRule::Declared,
        inputs: seq![
            in_port("a"@, ValueKind::Float, seq![], Some(ValueKind::Float)),
            in_port("b"@, ValueKind::Float, seq![], Some(ValueKind::Float)),
        ],
        outputs: seq![
            port("sum"@, ValueKind::Float, seq![]),
        ],
        parameters: seq![],
        connection: NodeConnectionDefinition {
            max_input_connections: 1,
            require_value_kind_match: true,
        },
        runtime_values: None,
    }
}

fn add_float_node() -> (node: BuiltinNode)
    ensures
        node.shape() == add_float_shape(),
{
    let node = BuiltinNode {
        schema: NodeDefinition {
            id: NodeTypeId::ADD_FLOAT.to_owned(),
            display_name: "Add Float".to_owned(),
            category: NodeCategory::Math,
            needs_io: false,
            inputs: vec![
                input(
                    "a",
                    ValueKind::Float,
                    vec![],
                    Some(InputValue::Float(Decimal::new(0, 0))),
                ),
                input(
                    "b",
                    ValueKind::Float,
                    vec![],
                    Some(InputValue::Float(Decimal::new(0, 0))),
                ),
            ],
            outputs: vec![output("sum", ValueKind::Float, vec![])],
            parameters: vec![],
            connection: NodeConnectionDefinition {
                max_input_connections: 1,
                require_value_kind_match: true,
            },
            runtime_updates: None,
        },
        rule: InferenceRule::Declared,
    };
    assert(node.shape() =~~= add_float_shape());
    node
}

/// The shape of the `subtract_float` node.
pub open spec fn subtract_float_shape() -> NodeShape {
    NodeShape {
        id: NodeTypeId::SUBTRACT_FLOAT@,
        display_name: "Subtract Float"@,
        category: NodeCategory::Math,
        needs_io: false,
        rule: InferenceRule::Declared,
        inputs: seq![
            in_port("a"@, ValueKind::Float, seq![], Some(ValueKind::Float)),
            in_port("b"@, ValueKind::Float, seq![], Some(ValueKind::Float)),
        ],
        outputs: seq![
            port("difference"@, ValueKind::Float, seq![]),
        ],
        parameters: seq![],
        connection: NodeConnectionDefinition {
            max_input_connections: 1,
            require_value_kind_match: true,
        },
        runtime_values: None,
    }
}

fn subtract_float_node() -> (node: BuiltinNode)
    ensures
        node.shape() == subtract_float_shape(),
{
    let node = BuiltinNode {
        schema: NodeDefinition {
            id: NodeTypeId::SUBTRACT_FLOAT.to_owned(),
            display_name: "Subtract Float".to_owned(),
            category: NodeCategory::Math,
            needs_io: false,
            inputs: vec![
                input(
                    "a",
                    ValueKind::Float,
                    vec![],
                    Some(InputValue::Float(Decimal::new(0, 0))),
                ),
                input(
                    "b",
                    ValueKind::Float,
                    vec![],
                    Some(InputValue::Float(Decimal::new(0, 0))),
                ),
            ],
            outputs: vec![output("difference", ValueKind::Float, vec![])],
            parameters: vec![],
            connection: NodeConnectionDefinition {
                max_input_connections: 1,
                require_value_kind_match: true,
            },
            runtime_updates: None,
        },
        rule: InferenceRule::Declared,
    };
    assert(node.shape() =~~= subtract_float_shape());
    node
}

/// The shape of the `signal_generator` node.
pub open spec fn signal_generator_shape() -> NodeShape {
    NodeShape {
        id: NodeTypeId::SIGNAL_GENERATOR@,
        display_name: "Signal Generator"@,
        category: NodeCategory::Inputs,
        needs_io: false,
        rule: InferenceRule::Declared,
        inputs: seq![],
        outputs: seq![
            port("value"@, ValueKind::Float, seq![]),
        ],
        parameters: seq![
            param(
                "waveform"@,
                DefaultView::String("sinus"@),
                HintView::EnumSelect(signal_generator_waveforms_view()),
                |parameters: Seq<NodeParameter>| true,
            ),
            param(
                "frequency"@,
                DefaultView::Float(decimal(1, 0)),
                HintView::DragFloat {
                    speed: decimal(1, -2i32),
                    min: negative_decimal(1, 4),
                    max: decimal(1, 4),
                },
                |parameters: Seq<NodeParameter>| true,
            ),
            param(
                "amplitude"@,
                DefaultView::Float(decimal(1, 0)),
                HintView::DragFloat {
                    speed: decimal(1, -2i32),
                    min: negative_decimal(1, 4),
                    max: decimal(1, 4),
                },
                |parameters: Seq<NodeParameter>| true,
            ),
            param(
                "phase"@,
                DefaultView::Float(decimal(0, 0)),
                HintView::DragFloat {
                    speed: decimal(1, -2i32),
                    min: negative_decimal(1, 4),
                    max: decimal(1, 4),
                },
                |parameters: Seq<NodeParameter>| true,
            ),
        ],
        connection: NodeConnectionDefinition {
            max_input_connections: 1,
            require_value_kind_match: true,
        },
        runtime_values: None,
    }
}

fn signal_generator_node() -> (node: BuiltinNode)
    ensures
        node.shape() == signal_generator_shape(),
{
    let node = BuiltinNode {
        schema: NodeDefinition {
            id: NodeTypeId::SIGNAL_GENERATOR.to_owned(),
            display_name: "Signal Generator".to_owned(),
            category: NodeCategory::Inputs,
            needs_io: false,
            inputs: vec![],
            outputs: vec![output("value", ValueKind::Float, vec![])],
            parameters: vec![
                NodeParameterDefinition::new(
                    "waveform",
                    title_case_name("waveform"),
                    ParameterDefaultValue::String("sinus".to_owned()),
                    ParameterUiHint::EnumSelect { options: signal_generator_waveforms() },
                ),
                NodeParameterDefinition::new(
                    "frequency",
                    title_case_name("frequency"),
                    ParameterDefaultValue::Float(Decimal::new(1, 0)),
                    ParameterUiHint::DragFloat {
                        speed: Decimal::new(1, -2),
                        min: Decimal::negative(1, 4),
                        max: Decimal::new(1, 4),
                    },
                ),
                NodeParameterDefinition::new(
                    "amplitude",
                    title_case_name("amplitude"),
                    ParameterDefaultValue::Float(Decimal::new(1, 0)),
                    ParameterUiHint::DragFloat {
                        speed: Decimal::new(1, -2),
                        min: Decimal::negative(1, 4),
                        max: Decimal::new(1, 4),
                    },
                ),
                NodeParameterDefinition::new(
                    "phase",
                    title_case_name("phase"),
                    ParameterDefaultValue::Float(Decimal::new(0, 0)),
                    ParameterUiHint::DragFloat {
                        speed: Decimal::new(1, -2),
                        min: Decimal::negative(1, 4),
                        max: Decimal::new(1, 4),
                    },
                ),
            ],
            connection: NodeConnectionDefinition {
                max_input_connections: 1,
                require_value_kind_match: true,
            },
            runtime_updates: None,
        },
        rule: InferenceRule::Declared,
    };
    assert(node.shape() =~~= signal_generator_shape());
    node
}

/// The shape of the `divide_float` node.
pub open spec fn divide_float_shape() -> NodeShape {
    NodeShape {
        id: NodeTypeId::DIVIDE_FLOAT@,
        display_name: "Divide Float"@,
        category: NodeCategory::Math,
        needs_io: false,
        rule: InferenceRule::Declared,
        inputs: seq![
            in_port("a"@, ValueKind::Float, seq![], Some(ValueKind::Float)),
            in_port("b"@, ValueKind::Float, seq![], Some(ValueKind::Float)),
        ],
        outputs: seq![
            port("quotient"@, ValueKind::Float, seq![]),
        ],
        parameters: seq![],
        connection: NodeConnectionDefinition {
            max_input_connections: 1,
            require_value_kind_match: true,
        },
        runtime_values: None,
    }
}

fn divide_float_node() -> (node: BuiltinNode)
    ensures
        node.shape() == divide_float_shape(),
{
    let node = BuiltinNode {
        schema: NodeDefinition {
            id: NodeTypeId::DIVIDE_FLOAT.to_owned(),
            display_name: "Divide Float".to_owned(),
            category: NodeCategory::Math,
            needs_io: false,
            inputs: vec![
                input(
                    "a",
                    ValueKind::Float,
                    vec![],
                    Some(InputValue::Float(Decimal::new(0, 0))),
                ),
                input(
                    "b",
                    ValueKind::Float,
                    vec![],
                    Some(InputValue::Float(Decimal::new(1, 0))),
                ),
            ],
            outputs: vec![output("quotient", ValueKind::Float, vec![])],
            parameters: vec![],
            connection: NodeConnectionDefinition {
                max_input_connections: 1,
                require_value_kind_match: true,
            },
            runtime_updates: None,
        },
        rule: InferenceRule::Declared,
    };
    assert(node.shape() =~~= divide_float_shape());
    node
}

/// The shape of the `min_max_float` node.
pub open spec fn min_max_float_shape() -> NodeShape {
    NodeShape {
        id: NodeTypeId::MIN_MAX_FLOAT@,
        display_name: "Min/Max Float"@,
        category: NodeCategory::Math,
        needs_io: false,
        rule: InferenceRule::Declared,
        inputs: seq![
            in_port("a"@, ValueKind::Float, seq![], Some(ValueKind::Float)),
            in_port("b"@, ValueKind::Float, seq![], Some(ValueKind::Float)),
        ],
        outputs: seq![
            port("value"@, ValueKind::Float, seq![]),
        ],
        parameters: seq![
            param(
                "mode"@,
                DefaultView::String("min"@),
                HintView::EnumSelect(min_max_float_modes_view()),
                |parameters: Seq<NodeParameter>| true,
            ),
        ],
        connection: NodeConnectionDefinition {
            max_input_connections: 1,
            require_value_kind_match: true,
        },
        runtime_values: None,
    }
}

fn min_max_float_node() -> (node: BuiltinNode)
    ensures
        node.shape() == min_max_float_shape(),
{
    let node = BuiltinNode {
        schema: NodeDefinition {
            id: NodeTypeId::MIN_MAX_FLOAT.to_owned(),
            display_name: "Min/Max Float".to_owned(),
            category: NodeCategory::Math,
            needs_io: false,
            inputs: vec![
                input(
                    "a",
                    ValueKind::Float,
                    vec![],
                    Some(InputValue::Float(Decimal::new(0, 0))),
                ),
                input(
                    "b",
                    ValueKind::Float,
                    vec![],
                    Some(InputValue::Float(Decimal::new(0, 0))),
                ),
            ],
            outputs: vec![output("value", ValueKind::Float, vec![])],
            parameters: vec![
                NodeParameterDefinition::new(
                    "mode",
                    title_case_name("mode"),
                    ParameterDefaultValue::String("min".to_owned()),
                    ParameterUiHint::EnumSelect { options: min_max_float_modes() },
                ),
            ],
            connection: NodeConnectionDefinition {
                max_input_connections: 1,
                require_value_kind_match: true,
            },
            runtime_updates: None,
        },
        rule: InferenceRule::Declared,
    };
    assert(node.shape() =~~= min_max_float_shape());
    node
}

/// The shape of the `multiply_float` node.
pub open spec fn multiply_float_shape() -> NodeShape {
    NodeShape {
        id: NodeTypeId::MULTIPLY_FLOAT@,
        display_name: "Multiply Float"@,
        category: NodeCategory::Math,
        needs_io: false,
        rule: InferenceRule::Declared,
        inputs: seq![
            in_port("a"@, ValueKind::Float, seq![], Some(ValueKind::Float)),
            in_port("b"@, ValueKind::Float, seq![], Some(ValueKind::Float)),
        ],
        outputs: seq![
            port("product"@, ValueKind::Float, seq![]),
        ],
        parameters: seq![],
        connection: NodeConnectionDefinition {
            max_input_connections: 1,
            require_value_kind_match: true,
        },
        runtime_values: None,
    }
}

fn multiply_float_node() -> (node: BuiltinNode)
    ensures
        node.shape() == multiply_float_shape(),
{
    let node = BuiltinNode {
        schema: NodeDefinition {
            id: NodeTypeId::MULTIPLY_FLOAT.to_owned(),
            display_name: "Multiply Float".to_owned(),
            category: NodeCategory::Math,
            needs_io: false,
            inputs: vec![
                input(
                    "a",
                    ValueKind::Float,
                    vec![],
                    Some(InputValue::Float(Decimal::new(1, 0))),
                ),
                input(
                    "b",
                    ValueKind::Float,
                    vec![],
                    Some(InputValue::Float(Decimal::new(1, 0))),
                ),
            ],
            outputs: vec![output("product", ValueKind::Float, vec![])],
            parameters: vec![],
            connection: NodeConnectionDefinition {
                max_input_connections: 1,
                require_value_kind_match: true,
            },
            runtime_updates: None,
        },
        rule: InferenceRule::Declared,
    };
    assert(node.shape() =~~= multiply_float_shape());
    node
}

/// The shape of the `abs_float` node.
pub open spec fn abs_float_shape() -> NodeShape {
    NodeShape {
        id: NodeTypeId::ABS_FLOAT@,
        display_name: "Abs Float"@,
        category: NodeCategory::Math,
        needs_io: false,
        rule: InferenceRule::Declared,
        inputs: seq![
            in_port("value"@, ValueKind::Float, seq![], Some(ValueKind::Float)),
        ],
        outputs: seq![
            port("value"@, ValueKind::Float, seq![]),
        ],
        parameters: seq![],
        connection: NodeConnectionDefinition {
            max_input_connections: 1,
            require_value_kind_match: true,
        },
        runtime_values: None,
    }
}

fn abs_float_node() -> (node: BuiltinNode)
    ensures
        node.shape() == abs_float_shape(),
{
    let node = BuiltinNode {
        schema: NodeDefinition {
            id: NodeTypeId::ABS_FLOAT.to_owned(),
            display_name: "Abs Float".to_owned(),
            category: NodeCategory::Math,
            needs_io: false,
            inputs: vec![
                input(
                    "value",
                    ValueKind::Float,
                    vec![],
                    Some(InputValue::Float(Decimal::new(0, 0))),
                ),
            ],
            outputs: vec![output("value", ValueKind::Float, vec![])],
            parameters: vec![],
            connection: NodeConnectionDefinition {
                max_input_connections: 1,
                require_value_kind_match: true,
            },
            runtime_updates: None,
        },
        rule: InferenceRule::Declared,
    };
    assert(node.shape() =~~= abs_float_shape());
    node
}

/// The shape of the `clamp_float` node.
pub open spec fn clamp_float_shape() -> NodeShape {
    NodeShape {
        id: NodeTypeId::CLAMP_FLOAT@,
        display_name: "Clamp Float"@,
        category: NodeCategory::Math,
        needs_io: false,
        rule: InferenceRule::Declared,
        inputs: seq![
            in_port("value"@, ValueKind::Float, seq![], Some(ValueKind::Float)),
            in_port("min"@, ValueKind::Float, seq![], Some(ValueKind::Float)),
            in_port("max"@, ValueKind::Float, seq![], Some(ValueKind::Float)),
        ],
        outputs: seq![
            port("value"@, ValueKind::Float, seq![]),
        ],
        parameters: seq![],
        connection: NodeConnectionDefinition {
            max_input_connections: 1,
            require_value_kind_match: true,
        },
        runtime_values: None,
    }
}

fn clamp_float_node() -> (node: BuiltinNode)
    ensures
        node.shape() == clamp_float_shape(),
{
    let node = BuiltinNode {
        schema: NodeDefinition {
            id: NodeTypeId::CLAMP_FLOAT.to_owned(),
            display_name: "Clamp Float".to_owned(),
            category: NodeCategory::Math,
            needs_io: false,
            inputs: vec![
                input(
                    "value",
                    ValueKind::Float,
                    vec![],
                    Some(InputValue::Float(Decimal::new(0, 0))),
                ),
                input(
                    "min",
                    ValueKind::Float,
                    vec![],
                    Some(InputValue::Float(Decimal::new(0, 0))),
                ),
                input(
                    "max",
                    ValueKind::Float,
                    vec![],
                    Some(InputValue::Float(Decimal::new(1, 0))),
                ),
            ],
            outputs: vec![output("value", ValueKind::Float, vec![])],
            parameters: vec![],
            connection: NodeConnectionDefinition {
                max_input_connections: 1,
                require_value_kind_match: true,
            },
            runtime_updates: None,
        },
        rule: InferenceRule::Declared,
    };
    assert(node.shape() =~~= clamp_float_shape());
    node
}

/// The shape of the `power_float` node.
pub open spec fn power_float_shape() -> NodeShape {
    NodeShape {
        id: NodeTypeId::POWER_FLOAT@,
        display_name: "Power Float"@,
        category: NodeCategory::Math,
        needs_io: false,
        rule: InferenceRule::Declared,
        inputs: seq![
            in_port("base"@, ValueKind::Float, seq![], Some(ValueKind::Float)),
            in_port("exponent"@, ValueKind::Float, seq![], Some(ValueKind::Float)),
        ],
        outputs: seq![
            port("value"@, ValueKind::Float, seq![]),
        ],
        parameters: seq![],
        connection: NodeConnectionDefinition {
            max_input_connections: 1,
            require_value_kind_match: true,
        },
        runtime_values: None,
    }
}

fn power_float_node() -> (node: BuiltinNode)
    ensures
        node.shape() == power_float_shape(),
{
    let node = BuiltinNode {
        schema: NodeDefinition {
            id: NodeTypeId::POWER_FLOAT.to_owned(),
            display_name: "Power Float".to_owned(),
            category: NodeCategory::Math,
            needs_io: false,
            inputs: vec![
                input(
                    "base",
                    ValueKind::Float,
                    vec![],
                    Some(InputValue::Float(Decimal::new(1, 0))),
                ),
                input(
                    "exponent",
                    ValueKind::Float,
                    vec![],
                    Some(InputValue::Float(Decimal::new(1, 0))),
                ),
            ],
            outputs: vec![output("value", ValueKind::Float, vec![])],
            parameters: vec![],
            connection: NodeConnectionDefinition {
                max_input_connections: 1,
                require_value_kind_match: true,
            },
            runtime_updates: None,
        },
        rule: InferenceRule::Declared,
    };
    assert(node.shape() =~~= power_float_shape());
    node
}

/// The shape of the `root_float` node.
pub open spec fn root_float_shape() -> NodeShape {
    NodeShape {
        id: NodeTypeId::ROOT_FLOAT@,
        display_name: "Root Float"@,
        category: NodeCategory::Math,
        needs_io: false,
        rule: InferenceRule::Declared,
        inputs: seq![
            in_port("value"@, ValueKind::Float, seq![], Some(ValueKind::Float)),
            in_port("degree"@, ValueKind::Float, seq![], Some(ValueKind::Float)),
        ],
        outputs: seq![
            port("value"@, ValueKind::Float, seq![]),
        ],
        parameters: seq![],
        connection: NodeConnectionDefinition {
            max_input_connections: 1,
            require_value_kind_match: true,
        },
        runtime_values: None,
    }
}

fn root_float_node() -> (node: BuiltinNode)
    ensures
        node.shape() == root_float_shape(),
{
    let node = BuiltinNode {
        schema: NodeDefinition {
            id: NodeTypeId::ROOT_FLOAT.to_owned(),
            display_name: "Root Float".to_owned(),
            category: NodeCategory::Math,
            needs_io: false,
            inputs: vec![
                input(
                    "value",
                    ValueKind::Float,
                    vec![],
                    Some(InputValue::Float(Decimal::new(0, 0))),
                ),
                input(
                    "degree",
                    ValueKind::Float,
                    vec![],
                    Some(InputValue::Float(Decimal::new(2, 0))),
                ),
            ],
            outputs: vec![output("value", ValueKind::Float, vec![])],
            parameters: vec![],
            connection: NodeConnectionDefinition {
                max_input_connections: 1,
                require_value_kind_match: true,
            },
            runtime_updates: None,
        },
        rule: InferenceRule::Declared,
    };
    assert(node.shape() =~~= root_float_shape());
    node
}

/// The shape of the `exponential_float` node.
pub open spec fn exponential_float_shape() -> NodeShape {
    NodeShape {
        id: NodeTypeId::EXPONENTIAL_FLOAT@,
        display_name: "Exponential Float"@,
        category: NodeCategory::Math,
        needs_io: false,
        rule: InferenceRule::Declared,
        inputs: seq![
            in_port("value"@, ValueKind::Float, seq![], Some(ValueKind::Float)),
        ],
        outputs: seq![
            port("value"@, ValueKind::Float, seq![]),
        ],
        parameters: seq![],
        connection: NodeConnectionDefinition {
            max_input_connections: 1,
            require_value_kind_match: true,
        },
        runtime_values: None,
    }
}

fn exponential_float_node() -> (node: BuiltinNode)
    ensures
        node.shape() == exponential_float_shape(),
{
    let node = BuiltinNode {
        schema: NodeDefinition {
            id: NodeTypeId::EXPONENTIAL_FLOAT.to_owned(),
            display_name: "Exponential Float".to_owned(),
            category: NodeCategory::Math,
            needs_io: false,
            inputs: vec![
                input(
                    "value",
                    ValueKind::Float,
                    vec![],
                    Some(InputValue::Float(Decimal::new(0, 0))),
                ),
            ],
            outputs: vec![output("value", ValueKind::Float, vec![])],
            parameters: vec![],
            connection: NodeConnectionDefinition {
                max_input_connections: 1,
                require_value_kind_match: true,
            },
            runtime_updates: None,
        },
        rule: InferenceRule::Declared,
    };
    assert(node.shape() =~~= exponential_float_shape());
    node
}

/// The shape of the `log_float` node.
pub open spec fn log_float_shape() -> NodeShape {
    NodeShape {
        id: NodeTypeId::LOG_FLOAT@,
        display_name: "Log Float"@,
        category: NodeCategory::Math,
        needs_io: false,
        rule: InferenceRule::Declared,
        inputs: seq![
            in_port("value"@, ValueKind::Float, seq![], Some(ValueKind::Float)),
            in_port("base"@, ValueKind::Float, seq![], Some(ValueKind::Float)),
        ],
        outputs: seq![
            port("value"@, ValueKind::Float, seq![]),
        ],
        parameters: seq![],
        connection: NodeConnectionDefinition {
            max_input_connections: 1,
            require_value_kind_match: true,
        },
        runtime_values: None,
    }
}

fn log_float_node() -> (node: BuiltinNode)
    ensures
        node.shape() == log_float_shape(),
{
    let node = BuiltinNode {
        schema: NodeDefinition {
            id: NodeTypeId::LOG_FLOAT.to_owned(),
            display_name: "Log Float".to_owned(),
            category: NodeCategory::Math,
            needs_io: false,
            inputs: vec![
                input(
                    "value",
                    ValueKind::Float,
                    vec![],
                    Some(InputValue::Float(Decimal::new(1, 0))),
                ),
                input(
                    "base",
                    ValueKind::Float,
                    vec![],
                    Some(InputValue::Float(Decimal::new(27182817, -7))),
                ),
            ],
            outputs: vec![output("value", ValueKind::Float, vec![])],
            parameters: vec![],
            connection: NodeConnectionDefinition {
                max_input_connections: 1,
                require_value_kind_match: true,
            },
            runtime_updates: None,
        },
        rule: InferenceRule::Declared,
    };
    assert(node.shape() =~~= log_float_shape());
    node
}

/// The shape of the `map_range_float` node.
pub open spec fn map_range_float_shape() -> NodeShape {
    NodeShape {
        id: NodeTypeId::MAP_RANGE_FLOAT@,
        display_name: "Map Range Float"@,
        category: NodeCategory::Math,
        needs_io: false,
        rule: InferenceRule::Declared,
        inputs: seq![
            in_port("value"@, ValueKind::Float, seq![], Some(ValueKind::Float)),
            in_port("source_min"@, ValueKind::Float, seq![], Some(ValueKind::Float)),
            in_port("source_max"@, ValueKind::Float, seq![], Some(ValueKind::Float)),
            in_port("target_min"@, ValueKind::Float, seq![], Some(ValueKind::Float)),
            in_port("target_max"@, ValueKind::Float, seq![], Some(ValueKind::Float)),
        ],
        outputs: seq![
            port("value"@, ValueKind::Float, seq![]),
        ],
        parameters: seq![],
        connection: NodeConnectionDefinition {
            max_input_connections: 1,
            require_value_kind_match: true,
        },
        runtime_values: None,
    }
}

fn map_range_float_node() -> (node: BuiltinNode)
    ensures
        node.shape() == map_range_float_shape(),
{
    let node = BuiltinNode {
        schema: NodeDefinition {
            id: NodeTypeId::MAP_RANGE_FLOAT.to_owned(),
            display_name: "Map Range Float".to_owned(),
            category: NodeCategory::Math,
            needs_io: false,
            inputs: vec![
                input(
                    "value",
                    ValueKind::Float,
                    vec![],
                    Some(InputValue::Float(Decimal::new(0, 0))),
                ),
                input(
                    "source_min",
                    ValueKind::Float,
                    vec![],
                    Some(InputValue::Float(Decimal::new(0, 0))),
                ),
                input(
                    "source_max",
                    ValueKind::Float,
                    vec![],
                    Some(InputValue::Float(Decimal::new(1, 0))),
                ),
                input(
                    "target_min",
                    ValueKind::Float,
                    vec![],
                    Some(InputValue::Float(Decimal::new(0, 0))),
                ),
                input(
                    "target_max",
                    ValueKind::Float,
                    vec![],
                    Some(InputValue::Float(Decimal::new(1, 0))),
                ),
            ],
            outputs: vec![output("value", ValueKind::Float, vec![])],
            parameters: vec![],
            connection: NodeConnectionDefinition {
                max_input_connections: 1,
                require_value_kind_match: true,
            },
            runtime_updates: None,
        },
        rule: InferenceRule::Declared,
    };
    assert(node.shape() =~~= map_range_float_shape());
    node
}

/// The shape of the `round_float` node.
pub open spec fn round_float_shape() -> NodeShape {
    NodeShape {
        id: NodeTypeId::ROUND_FLOAT@,
        display_name: "Round Float"@,
        category: NodeCategory::Math,
        needs_io: false,
        rule: InferenceRule::Declared,
        inputs: seq![
            in_port("value"@, ValueKind::Float, seq![], Some(ValueKind::Float)),
        ],
        outputs: seq![
            port("value"@, ValueKind::Float, seq![]),
        ],
        parameters: seq![
            param(
                "mode"@,
                DefaultView::String("round"@),
                HintView::EnumSelect(round_float_modes_view()),
                |parameters: Seq<NodeParameter>| true,
            ),
        ],
        connection: NodeConnectionDefinition {
            max_input_connections: 1,
            require_value_kind_match: true,
        },
        runtime_values: None,
    }
}

fn round_float_node() -> (node: BuiltinNode)
    ensures
        node.shape() == round_float_shape(),
{
    let node = BuiltinNode {
        schema: NodeDefinition {
            id: NodeTypeId::ROUND_FLOAT.to_owned(),
            display_name: "Round Float".to_owned(),
            category: NodeCategory::Math,
            needs_io: false,
            inputs: vec![
                input(
                    "value",
                    ValueKind::Float,
                    vec![],
                    Some(InputValue::Float(Decimal::new(0, 0))),
                ),
            ],
            outputs: vec![output("value", ValueKind::Float, vec![])],
            parameters: vec![
                NodeParameterDefinition::new(
                    "mode",
                    title_case_name("mode"),
                    ParameterDefaultValue::String("round".to_owned()),
                    ParameterUiHint::EnumSelect { options: round_float_modes() },
                ),
            ],
            connection: NodeConnectionDefinition {
                max_input_connections: 1,
                require_value_kind_match: true,
            },
            runtime_updates: None,
        },
        rule: InferenceRule::Declared,
    };
    assert(node.shape() =~~= round_float_shape());
    node
}

/// The shape of the `scale_tensor` node.
pub open spec fn scale_tensor_shape() -> NodeShape {
    NodeShape {
        id: NodeTypeId::SCALE_TENSOR@,
        display_name: "Scale Tensor"@,
        category: NodeCategory::Math,
        needs_io: false,
        rule: InferenceRule::Declared,
        inputs: seq![
            in_port("tensor"@, ValueKind::FloatTensor, seq![], Some(ValueKind::FloatTensor)),
            in_port("factor"@, ValueKind::Float, seq![], Some(ValueKind::Float)),
        ],
        outputs: seq![
            port("tensor"@, ValueKind::FloatTensor, seq![]),
        ],
        parameters: seq![],
        connection: NodeConnectionDefinition {
            max_input_connections: 1,
            require_value_kind_match: true,
        },
        runtime_values: None,
    }
}

fn scale_tensor_node() -> (node: BuiltinNode)
    ensures
        node.shape() == scale_tensor_shape(),
{
    let node = BuiltinNode {
        schema: NodeDefinition {
            id: NodeTypeId::SCALE_TENSOR.to_owned(),
            display_name: "Scale Tensor".to_owned(),
            category: NodeCategory::Math,
            needs_io: false,
            inputs: vec![
                input("tensor", ValueKind::FloatTensor, vec![], Some(default_tensor_input())),
                input(
                    "factor",
                    ValueKind::Float,
                    vec![],
                    Some(InputValue::Float(Decimal::new(1, 0))),
                ),
            ],
            outputs: vec![output("tensor", ValueKind::FloatTensor, vec![])],
            parameters: vec![],
            connection: NodeConnectionDefinition {
                max_input_connections: 1,
                require_value_kind_match: true,
            },
            runtime_updates: None,
        },
        rule: InferenceRule::Declared,
    };
    assert(node.shape() =~~= scale_tensor_shape());
    node
}

/// The shape of the `scale_color` node.
pub open spec fn scale_color_shape() -> NodeShape {
    NodeShape {
        id: NodeTypeId::SCALE_COLOR@,
        display_name: "Scale Color"@,
        category: NodeCategory::FrameOperations,
        needs_io: false,
        rule: InferenceRule::Declared,
        inputs: seq![
            in_port("color"@, ValueKind::Color, seq![], Some(ValueKind::Color)),
            in_port("factor"@, ValueKind::Float, seq![], Some(ValueKind::Float)),
        ],
        outputs: seq![
            port("color"@, ValueKind::Color, seq![]),
        ],
        parameters: seq![],
        connection: NodeConnectionDefinition {
            max_input_connections: 1,
            require_value_kind_match: true,
        },
        runtime_values: None,
    }
}

fn scale_color_node() -> (node: BuiltinNode)
    ensures
        node.shape() == scale_color_shape(),
{
    let node = BuiltinNode {
        schema: NodeDefinition {
            id: NodeTypeId::SCALE_COLOR.to_owned(),
            display_name: "Scale Color".to_owned(),
            category: NodeCategory::FrameOperations,
            needs_io: false,
            inputs: vec![
                input("color", ValueKind::Color, vec![], Some(white_input())),
                input(
                    "factor",
                    ValueKind::Float,
                    vec![],
                    Some(InputValue::Float(Decimal::new(1, 0))),
                ),
            ],
            outputs: vec![output("color", ValueKind::Color, vec![])],
            parameters: vec![],
            connection: NodeConnectionDefinition {
                max_input_connections: 1,
                require_value_kind_match: true,
            },
            runtime_updates: None,
        },
        rule: InferenceRule::Declared,
    };
    assert(node.shape() =~~= scale_color_shape());
    node
}

/// The shape of the `multiply_color` node.
pub open spec fn multiply_color_shape() -> NodeShape {
    NodeShape {
        id: NodeTypeId::MULTIPLY_COLOR@,
        display_name: "Multiply Color"@,
        category: NodeCategory::FrameOperations,
        needs_io: false,
        rule: InferenceRule::Declared,
        inputs: seq![
            in_port("a"@, ValueKind::Color, seq![], Some(ValueKind::Color)),
            in_port("b"@, ValueKind::Color, seq![], Some(ValueKind::Color)),
        ],
        outputs: seq![
            port("color"@, ValueKind::Color, seq![]),
        ],
        parameters: seq![],
        connection: NodeConnectionDefinition {
            max_input_connections: 1,
            require_value_kind_match: true,
        },
        runtime_values: None,
    }
}

fn multiply_color_node() -> (node: BuiltinNode)
    ensures
        node.shape() == multiply_color_shape(),
{
    let node = BuiltinNode {
        schema: NodeDefinition {
            id: NodeTypeId::MULTIPLY_COLOR.to_owned(),
            display_name: "Multiply Color".to_owned(),
            category: NodeCategory::FrameOperations,
            needs_io: false,
            inputs: vec![
                input("a", ValueKind::Color, vec![], Some(white_input())),
                input("b", ValueKind::Color, vec![], Some(white_input())),
            ],
            outputs: vec![output("color", ValueKind::Color, vec![])],
            parameters: vec![],
            connection: NodeConnectionDefinition {
                max_input_connections: 1,
                require_value_kind_match: true,
            },
            runtime_updates: None,
        },
        rule: InferenceRule::Declared,
    };
    assert(node.shape() =~~= multiply_color_shape());
    node
}

/// The shape of the `tint_frame` node.
pub open spec fn tint_frame_shape() -> NodeShape {
    NodeShape {
        id: NodeTypeId::TINT_FRAME@,
        display_name: "Tint Frame"@,
        category: NodeCategory::FrameOperations,
        needs_io: false,
        rule: InferenceRule::Declared,
        inputs: seq![
            in_port("frame"@, ValueKind::ColorFrame, seq![], None),
            in_port("tint"@, ValueKind::Color, seq![], Some(ValueKind::Color)),
        ],
        outputs: seq![
            port("frame"@, ValueKind::ColorFrame, seq![]),
        ],
        parameters: seq![],
        connection: NodeConnectionDefinition {
            max_input_connections: 1,
            require_value_kind_match: true,
        },
        runtime_values: None,
    }
}

fn tint_frame_node() -> (node: BuiltinNode)
    ensures
        node.shape() == tint_frame_shape(),
{
    let node = BuiltinNode {
        schema: NodeDefinition {
            id: NodeTypeId::TINT_FRAME.to_owned(),
            display_name: "Tint Frame".to_owned(),
            category: NodeCategory::FrameOperations,
            needs_io: false,
            inputs: vec![
                input("frame", ValueKind::ColorFrame, vec![], None),
                input("tint", ValueKind::Color, vec![], Some(white_input())),
            ],
            outputs: vec![output("frame", ValueKind::ColorFrame, vec![])],
            parameters: vec![],
            connection: NodeConnectionDefinition {
                max_input_connections: 1,
                require_value_kind_match: true,
            },
            runtime_updates: None,
        },
        rule: InferenceRule::Declared,
    };
    assert(node.shape() =~~= tint_frame_shape());
    node
}

/// The shape of the `mask_frame` node.
pub open spec fn mask_frame_shape() -> NodeShape {
    NodeShape {
        id: NodeTypeId::MASK_FRAME@,
        display_name: "Mask Frame"@,
        category: NodeCategory::FrameOperations,
        needs_io: false,
        rule: InferenceRule::Declared,
        inputs: seq![
            in_port("frame"@, ValueKind::ColorFrame, seq![], None),
            in_port("mask"@, ValueKind::ColorFrame, seq![], None),
        ],
        outputs: seq![
            port("frame"@, ValueKind::ColorFrame, seq![]),
        ],
        parameters: seq![],
        connection: NodeConnectionDefinition {
            max_input_connections: 1,
            require_value_kind_match: true,
        },
        runtime_values: None,
    }
}

fn mask_frame_node() -> (node: BuiltinNode)
    ensures
        node.shape() == mask_frame_shape(),
{
    let node = BuiltinNode {
        schema: NodeDefinition {
            id: NodeTypeId::MASK_FRAME.to_owned(),
            display_name: "Mask Frame".to_owned(),
            category: NodeCategory::FrameOperations,
            needs_io: false,
            inputs: vec![
                input("frame", ValueKind::ColorFrame, vec![], None),
                input("mask", ValueKind::ColorFrame, vec![], None),
            ],
            outputs: vec![output("frame", ValueKind::ColorFrame, vec![])],
            parameters: vec![],
            connection: NodeConnectionDefinition {
                max_input_connections: 1,
                require_value_kind_match: true,
            },
            runtime_updates: None,
        },
        rule: InferenceRule::Declared,
    };
    assert(node.shape() =~~= mask_frame_shape());
    node
}

/// The shape of the `mix_color` node.
pub open spec fn mix_color_shape() -> NodeShape {
    NodeShape {
        id: NodeTypeId::MIX_COLOR@,
        display_name: "Mix Color"@,
        category: NodeCategory::FrameOperations,
        needs_io: false,
        rule: InferenceRule::Declared,
        inputs: seq![
            in_port(
                "foreground"@,
                ValueKind::Color,
                seq![ValueKind::ColorFrame],
                Some(ValueKind::Color),
            ),
            in_port(
                "background"@,
                ValueKind::Color,
                seq![ValueKind::ColorFrame],
                Some(ValueKind::Color),
            ),
            in_port(
                "factor"@,
                ValueKind::Float,
                seq![ValueKind::FloatTensor],
                Some(ValueKind::Float),
            ),
        ],
        outputs: seq![
            port("color"@, ValueKind::ColorFrame, seq![]),
        ],
        parameters: seq![],
        connection: NodeConnectionDefinition {
            max_input_connections: 1,
            require_value_kind_match: true,
        },
        runtime_values: None,
    }
}

fn mix_color_node() -> (node: BuiltinNode)
    ensures
        node.shape() == mix_color_shape(),
{
    let node = BuiltinNode {
        schema: NodeDefinition {
            id: NodeTypeId::MIX_COLOR.to_owned(),
            display_name: "Mix Color".to_owned(),
            category: NodeCategory::FrameOperations,
            needs_io: false,
            inputs: vec![
                input(
                    "foreground",
                    ValueKind::Color,
                    vec![ValueKind::ColorFrame],
                    Some(white_input()),
                ),
                input(
                    "background",
                    ValueKind::Color,
                    vec![ValueKind::ColorFrame],
                    Some(white_input()),
                ),
                input(
                    "factor",
                    ValueKind::Float,
                    vec![ValueKind::FloatTensor],
                    Some(InputValue::Float(Decimal::new(0, 0))),
                ),
            ],
            outputs: vec![output("color", ValueKind::ColorFrame, vec![])],
            parameters: vec![],
            connection: NodeConnectionDefinition {
                max_input_connections: 1,
                require_value_kind_match: true,
            },
            runtime_updates: None,
        },
        rule: InferenceRule::Declared,
    };
    assert(node.shape() =~~= mix_color_shape());
    node
}

/// The shape of the `alpha_over` node.
pub open spec fn alpha_over_shape() -> NodeShape {
    NodeShape {
        id: NodeTypeId::ALPHA_OVER@,
        display_name: "Alpha Over"@,
        category: NodeCategory::FrameOperations,
        needs_io: false,
        rule: InferenceRule::Declared,
        inputs: seq![
            in_port(
                "foreground"@,
                ValueKind::Color,
                seq![ValueKind::ColorFrame],
                Some(ValueKind::Color),
            ),
            in_port(
                "background"@,
                ValueKind::Color,
                seq![ValueKind::ColorFrame],
                Some(ValueKind::Color),
            ),
        ],
        outputs: seq![
            port("color"@, ValueKind::ColorFrame, seq![]),
        ],
        parameters: seq![],
        connection: NodeConnectionDefinition {
            max_input_connections: 1,
            require_value_kind_match: true,
        },
        runtime_values: None,
    }
}

fn alpha_over_node() -> (node: BuiltinNode)
    ensures
        node.shape() == alpha_over_shape(),
{
    let node = BuiltinNode {
        schema: NodeDefinition {
            id: NodeTypeId::ALPHA_OVER.to_owned(),
            display_name: "Alpha Over".to_owned(),
            category: NodeCategory::FrameOperations,
            needs_io: false,
            inputs: vec![
                input(
                    "foreground",
                    ValueKind::Color,
                    vec![ValueKind::ColorFrame],
                    Some(transparent_input()),
                ),
                input(
                    "background",
                    ValueKind::Color,
                    vec![ValueKind::ColorFrame],
                    Some(transparent_input()),
                ),
            ],
            outputs: vec![output("color", ValueKind::ColorFrame, vec![])],
            parameters: vec![],
            connection: NodeConnectionDefinition {
                max_input_connections: 1,
                require_value_kind_match: true,
            },
            runtime_updates: None,
        },
        rule: InferenceRule::Declared,
    };
    assert(node.shape() =~~= alpha_over_shape());
    node
}

/// The shape of the `fade` node.
pub open spec fn fade_shape() -> NodeShape {
    NodeShape {
        id: NodeTypeId::FADE@,
        display_name: "Fade"@,
        category: NodeCategory::TemporalFilters,
        needs_io: false,
        rule: InferenceRule::Declared,
        inputs: seq![
            in_port("value"@, ValueKind::Any, seq![], Some(ValueKind::Color)),
            in_port(
                "decay"@,
                ValueKind::Float,
                seq![ValueKind::FloatTensor],
                Some(ValueKind::Float),
            ),
        ],
        outputs: seq![
            port("value"@, ValueKind::Any, seq![]),
        ],
        parameters: seq![],
        connection: NodeConnectionDefinition {
            max_input_connections: 1,
            require_value_kind_match: true,
        },
        runtime_values: None,
    }
}

fn fade_node() -> (node: BuiltinNode)
    ensures
        node.shape() == fade_shape(),
{
    let node = BuiltinNode {
        schema: NodeDefinition {
            id: NodeTypeId::FADE.to_owned(),
            display_name: "Fade".to_owned(),
            category: NodeCategory::TemporalFilters,
            needs_io: false,
            inputs: vec![
                input("value", ValueKind::Any, vec![], Some(white_input())),
                input(
                    "decay",
                    ValueKind::Float,
                    vec![ValueKind::FloatTensor],
                    Some(InputValue::Float(Decimal::new(0, 0))),
                ),
            ],
            outputs: vec![output("value", ValueKind::Any, vec![])],
            parameters: vec![],
            connection: NodeConnectionDefinition {
                max_input_connections: 1,
                require_value_kind_match: true,
            },
            runtime_updates: None,
        },
        rule: InferenceRule::Declared,
    };
    assert(node.shape() =~~= fade_shape());
    node
}

/// The shape of the `moving_average` node.
pub open spec fn moving_average_shape() -> NodeShape {
    NodeShape {
        id: NodeTypeId::MOVING_AVERAGE@,
        display_name: "Moving Average"@,
        category: NodeCategory::TemporalFilters,
        needs_io: false,
        rule: InferenceRule::Declared,
        inputs: seq![
            in_port(
                "value"@,
                ValueKind::Any,
                seq![
                    ValueKind::Float,
                    ValueKind::Color,
                    ValueKind::FloatTensor,
                    ValueKind::ColorFrame,
                ],
                Some(ValueKind::Float),
            ),
            in_port("window_size"@, ValueKind::Float, seq![], Some(ValueKind::Float)),
        ],
        outputs: seq![
            port(
                "value"@,
                ValueKind::Any,
                seq![
                    ValueKind::Float,
                    ValueKind::Color,
                    ValueKind::FloatTensor,
                    ValueKind::ColorFrame,
                ],
            ),
        ],
        parameters: seq![],
        connection: NodeConnectionDefinition {
            max_input_connections: 1,
            require_value_kind_match: true,
        },
        runtime_values: None,
    }
}

fn moving_average_node() -> (node: BuiltinNode)
    ensures
        node.shape() == moving_average_shape(),
{
    let node = BuiltinNode {
        schema: NodeDefinition {
            id: NodeTypeId::MOVING_AVERAGE.to_owned(),
            display_name: "Moving Average".to_owned(),
            category: NodeCategory::TemporalFilters,
            needs_io: false,
            inputs: vec![
                input(
                    "value",
                    ValueKind::Any,
                    vec![
                        ValueKind::Float,
                        ValueKind::Color,
                        ValueKind::FloatTensor,
                        ValueKind::ColorFrame,
                    ],
                    Some(InputValue::Float(Decimal::new(0, 0))),
                ),
                input(
                    "window_size",
                    ValueKind::Float,
                    vec![],
                    Some(InputValue::Float(Decimal::new(4, 0))),
                ),
            ],
            outputs: vec![
                output(
                    "value",
                    ValueKind::Any,
                    vec![
                        ValueKind::Float,
                        ValueKind::Color,
                        ValueKind::FloatTensor,
                        ValueKind::ColorFrame,
                    ],
                ),
            ],
            parameters: vec![],
            connection: NodeConnectionDefinition {
                max_input_connections: 1,
                require_value_kind_match: true,
            },
            runtime_updates: None,
        },
        rule: InferenceRule::Declared,
    };
    assert(node.shape() =~~= moving_average_shape());
    node
}

/// The shape of the `moving_median` node.
pub open spec fn moving_median_shape() -> NodeShape {
    NodeShape {
        id: NodeTypeId::MOVING_MEDIAN@,
        display_name: "Moving Median"@,
        category: NodeCategory::TemporalFilters,
        needs_io: false,
        rule: InferenceRule::Declared,
        inputs: seq![
            in_port(
                "value"@,
                ValueKind::Any,
                seq![ValueKind::Float, ValueKind::FloatTensor],
                Some(ValueKind::Float),
            ),
            in_port("window_size"@, ValueKind::Float, seq![], Some(ValueKind::Float)),
        ],
        outputs: seq![
            port("value"@, ValueKind::Any, seq![ValueKind::Float, ValueKind::FloatTensor]),
        ],
        parameters: seq![],
        connection: NodeConnectionDefinition {
            max_input_connections: 1,
            require_value_kind_match: true,
        },
        runtime_values: None,
    }
}

fn moving_median_node() -> (node: BuiltinNode)
    ensures
        node.shape() == moving_median_shape(),
{
    let node = BuiltinNode {
        schema: NodeDefinition {
            id: NodeTypeId::MOVING_MEDIAN.to_owned(),
            display_name: "Moving Median".to_owned(),
            category: NodeCategory::TemporalFilters,
            needs_io: false,
            inputs: vec![
                input(
                    "value",
                    ValueKind::Any,
                    vec![ValueKind::Float, ValueKind::FloatTensor],
                    Some(InputValue::Float(Decimal::new(0, 0))),
                ),
                input(
                    "window_size",
                    ValueKind::Float,
                    vec![],
                    Some(InputValue::Float(Decimal::new(4, 0))),
                ),
            ],
            outputs: vec![
                output("value", ValueKind::Any, vec![ValueKind::Float, ValueKind::FloatTensor]),
            ],
            parameters: vec![],
            connection: NodeConnectionDefinition {
                max_input_connections: 1,
                require_value_kind_match: true,
            },
            runtime_updates: None,
        },
        rule: InferenceRule::Declared,
    };
    assert(node.shape() =~~= moving_median_shape());
    node
}

/// The shape of the `box_blur` node.
pub open spec fn box_blur_shape() -> NodeShape {
    NodeShape {
        id: NodeTypeId::BOX_BLUR@,
        display_name: "Box Blur"@,
        category: NodeCategory::SpatialFilters,
        needs_io: false,
        rule: InferenceRule::Declared,
        inputs: seq![
            in_port("frame"@, ValueKind::ColorFrame, seq![], None),
            in_port("radius"@, ValueKind::Float, seq![], Some(ValueKind::Float)),
        ],
        outputs: seq![
            port("frame"@, ValueKind::ColorFrame, seq![]),
        ],
        parameters: seq![],
        connection: NodeConnectionDefinition {
            max_input_connections: 1,
            require_value_kind_match: true,
        },
        runtime_values: None,
    }
}

fn box_blur_node() -> (node: BuiltinNode)
    ensures
        node.shape() == box_blur_shape(),
{
    let node = BuiltinNode {
        schema: NodeDefinition {
            id: NodeTypeId::BOX_BLUR.to_owned(),
            display_name: "Box Blur".to_owned(),
            category: NodeCategory::SpatialFilters,
            needs_io: false,
            inputs: vec![
                input("frame", ValueKind::ColorFrame, vec![], None),
                input(
                    "radius",
                    ValueKind::Float,
                    vec![],
                    Some(InputValue::Float(Decimal::new(1, 0))),
                ),
            ],
            outputs: vec![output("frame", ValueKind::ColorFrame, vec![])],
            parameters: vec![],
            connection: NodeConnectionDefinition {
                max_input_connections: 1,
                require_value_kind_match: true,
            },
            runtime_updates: None,
        },
        rule: InferenceRule::Declared,
    };
    assert(node.shape() =~~= box_blur_shape());
    node
}

/// The shape of the `gaussian_blur` node.
pub open spec fn gaussian_blur_shape() -> NodeShape {
    NodeShape {
        id: NodeTypeId::GAUSSIAN_BLUR@,
        display_name: "Gaussian Blur"@,
        category: NodeCategory::SpatialFilters,
        needs_io: false,
        rule: InferenceRule::Declared,
        inputs: seq![
            in_port("frame"@, ValueKind::ColorFrame, seq![], None),
            in_port("radius"@, ValueKind::Float, seq![], Some(ValueKind::Float)),
        ],
        outputs: seq![
            port("frame"@, ValueKind::ColorFrame, seq![]),
        ],
        parameters: seq![],
        connection: NodeConnectionDefinition {
            max_input_connections: 1,
            require_value_kind_match: true,
        },
        runtime_values: None,
    }
}

fn gaussian_blur_node() -> (node: BuiltinNode)
    ensures
        node.shape() == gaussian_blur_shape(),
{
    let node = BuiltinNode {
        schema: NodeDefinition {
            id: NodeTypeId::GAUSSIAN_BLUR.to_owned(),
            display_name: "Gaussian Blur".to_owned(),
            category: NodeCategory::SpatialFilters,
            needs_io: false,
            inputs: vec![
                input("frame", ValueKind::ColorFrame, vec![], None),
                input(
                    "radius",
                    ValueKind::Float,
                    vec![],
                    Some(InputValue::Float(Decimal::new(2, 0))),
                ),
            ],
            outputs: vec![output("frame", ValueKind::ColorFrame, vec![])],
            parameters: vec![],
            connection: NodeConnectionDefinition {
                max_input_connections: 1,
                require_value_kind_match: true,
            },
            runtime_updates: None,
        },
        rule: InferenceRule::Declared,
    };
    assert(node.shape() =~~= gaussian_blur_shape());
    node
}

/// The shape of the `median_filter` node.
pub open spec fn median_filter_shape() -> NodeShape {
    NodeShape {
        id: NodeTypeId::MEDIAN_FILTER@,
        display_name: "Median Filter"@,
        category: NodeCategory::SpatialFilters,
        needs_io: false,
        rule: InferenceRule::Declared,
        inputs: seq![
            in_port("frame"@, ValueKind::ColorFrame, seq![], None),
            in_port("radius"@, ValueKind::Float, seq![], Some(ValueKind::Float)),
        ],
        outputs: seq![
            port("frame"@, ValueKind::ColorFrame, seq![]),
        ],
        parameters: seq![],
        connection: NodeConnectionDefinition {
            max_input_connections: 1,
            require_value_kind_match: true,
        },
        runtime_values: None,
    }
}

fn median_filter_node() -> (node: BuiltinNode)
    ensures
        node.shape() == median_filter_shape(),
{
    let node = BuiltinNode {
        schema: NodeDefinition {
            id: NodeTypeId::MEDIAN_FILTER.to_owned(),
            display_name: "Median Filter".to_owned(),
            category: NodeCategory::SpatialFilters,
            needs_io: false,
            inputs: vec![
                input("frame", ValueKind::ColorFrame, vec![], None),
                input(
                    "radius",
                    ValueKind::Float,
                    vec![],
                    Some(InputValue::Float(Decimal::new(1, 0))),
                ),
            ],
            outputs: vec![output("frame", ValueKind::ColorFrame, vec![])],
            parameters: vec![],
            connection: NodeConnectionDefinition {
                max_input_connections: 1,
                require_value_kind_match: true,
            },
            runtime_updates: None,
        },
        rule: InferenceRule::Declared,
    };
    assert(node.shape() =~~= median_filter_shape());
    node
}

/// The shape of the `spectrum_analyzer` node.
pub open spec fn spectrum_analyzer_shape() -> NodeShape {
    NodeShape {
        id: NodeTypeId::SPECTRUM_ANALYZER@,
        display_name: "Spectrum Analyzer"@,
        category: NodeCategory::Generators,
        needs_io: false,
        rule: InferenceRule::Declared,
        inputs: seq![
            in_port("spectrum"@, ValueKind::FloatTensor, seq![], Some(ValueKind::FloatTensor)),
        ],
        outputs: seq![
            port("frame"@, ValueKind::ColorFrame, seq![]),
        ],
        parameters: seq![
            param(
                "gradient"@,
                DefaultView::Gradient(default_rainbow_gradient_stops_view()),
                HintView::ColorGradient,
                |parameters: Seq<NodeParameter>| true,
            ),
            param(
                "background"@,
                DefaultView::Color(
                    RgbaColor {
                        r: decimal(2, -2i32),
                        g: decimal(2, -2i32),
                        b: decimal(3, -2i32),
                        a: decimal(1, 0),
                    },
                ),
                HintView::ColorPicker,
                |parameters: Seq<NodeParameter>| true,
            ),
            param(
                "gain"@,
                DefaultView::Float(decimal(1, 0)),
                HintView::DragFloat {
                    speed: decimal(1, -2i32),
                    min: decimal(0, 0),
                    max: decimal(8, 0),
                },
                |parameters: Seq<NodeParameter>| true,
            ),
            param(
                "bar_gap"@,
                DefaultView::Float(decimal(15, -2i32)),
                HintView::DragFloat {
                    speed: decimal(1, -2i32),
                    min: decimal(0, 0),
                    max: decimal(95, -2i32),
                },
                |parameters: Seq<NodeParameter>| true,
            ),
            param(
                "decay"@,
                DefaultView::Float(decimal(8, 0)),
                HintView::DragFloat {
                    speed: decimal(1, -2i32),
                    min: decimal(0, 0),
                    max: decimal(32, 0),
                },
                |parameters: Seq<NodeParameter>| true,
            ),
        ],
        connection: NodeConnectionDefinition {
            max_input_connections: 1,
            require_value_kind_match: true,
        },
        runtime_values: None,
    }
}

fn spectrum_analyzer_node() -> (node: BuiltinNode)
    ensures
        node.shape() == spectrum_analyzer_shape(),
{
    let node = BuiltinNode {
        schema: NodeDefinition {
            id: NodeTypeId::SPECTRUM_ANALYZER.to_owned(),
            display_name: "Spectrum Analyzer".to_owned(),
            category: NodeCategory::Generators,
            needs_io: false,
            inputs: vec![
                input(
                    "spectrum",
                    ValueKind::FloatTensor,
                    vec![],
                    Some(
                        InputValue::FloatTensor(
                            FloatTensor {
                                shape: vec![16],
                                values: vec![Decimal::new(0, 0); 16],
                            },
                        ),
                    ),
                ),
            ],
            outputs: vec![output("frame", ValueKind::ColorFrame, vec![])],
            parameters: vec![
                NodeParameterDefinition::new(
                    "gradient",
                    title_case_name("gradient"),
                    ParameterDefaultValue::Gradient(default_rainbow_gradient_stops()),
                    ParameterUiHint::ColorGradient,
                ),
                NodeParameterDefinition::new(
                    "background",
                    title_case_name("background"),
                    ParameterDefaultValue::Color(
                        RgbaColor {
                            r: Decimal::new(2, -2),
                            g: Decimal::new(2, -2),
                            b: Decimal::new(3, -2),
                            a: Decimal::new(1, 0),
                        },
                    ),
                    ParameterUiHint::ColorPicker,
                ),
                NodeParameterDefinition::new(
                    "gain",
                    title_case_name("gain"),
                    ParameterDefaultValue::Float(Decimal::new(1, 0)),
                    ParameterUiHint::DragFloat {
                        speed: Decimal::new(1, -2),
                        min: Decimal::new(0, 0),
                        max: Decimal::new(8, 0),
                    },
                ),
                NodeParameterDefinition::new(
                    "bar_gap",
                    title_case_name("bar_gap"),
                    ParameterDefaultValue::Float(Decimal::new(15, -2)),
                    ParameterUiHint::DragFloat {
                        speed: Decimal::new(1, -2),
                        min: Decimal::new(0, 0),
                        max: Decimal::new(95, -2),
                    },
                ),
                NodeParameterDefinition::new(
                    "decay",
                    title_case_name("decay"),
                    ParameterDefaultValue::Float(Decimal::new(8, 0)),
                    ParameterUiHint::DragFloat {
                        speed: Decimal::new(1, -2),
                        min: Decimal::new(0, 0),
                        max: Decimal::new(32, 0),
                    },
                ),
            ],
            connection: NodeConnectionDefinition {
                max_input_connections: 1,
                require_value_kind_match: true,
            },
            runtime_updates: None,
        },
        rule: InferenceRule::Declared,
    };
    assert(node.shape() =~~= spectrum_analyzer_shape());
    node
}

/// The shape of the `solid_frame` node.
pub open spec fn solid_frame_shape() -> NodeShape {
    NodeShape {
        id: NodeTypeId::SOLID_FRAME@,
        display_name: "Solid Frame"@,
        category: NodeCategory::Generators,
        needs_io: false,
        rule: InferenceRule::Declared,
        inputs: seq![
            in_port("color"@, ValueKind::Color, seq![], Some(ValueKind::Color)),
        ],
        outputs: seq![
            port("frame"@, ValueKind::ColorFrame, seq![]),
        ],
        parameters: seq![],
        connection: NodeConnectionDefinition {
            max_input_connections: 1,
            require_value_kind_match: true,
        },
        runtime_values: None,
    }
}

fn solid_frame_node() -> (node: BuiltinNode)
    ensures
        node.shape() == solid_frame_shape(),
{
    let node = BuiltinNode {
        schema: NodeDefinition {
            id: NodeTypeId::SOLID_FRAME.to_owned(),
            display_name: "Solid Frame".to_owned(),
            category: NodeCategory::Generators,
            needs_io: false,
            inputs: vec![input("color", ValueKind::Color, vec![], Some(white_input()))],
            outputs: vec![output("frame", ValueKind::ColorFrame, vec![])],
            parameters: vec![],
            connection: NodeConnectionDefinition {
                max_input_connections: 1,
                require_value_kind_match: true,
            },
            runtime_updates: None,
        },
        rule: InferenceRule::Declared,
    };
    assert(node.shape() =~~= solid_frame_shape());
    node
}

/// The shape of the `rainbow_sweep` node.
pub open spec fn rainbow_sweep_shape() -> NodeShape {
    NodeShape {
        id: NodeTypeId::RAINBOW_SWEEP@,
        display_name: "Linear Sweep"@,
        category: NodeCategory::Generators,
        needs_io: false,
        rule: InferenceRule::Declared,
        inputs: seq![
            in_port("speed"@, ValueKind::Float, seq![], Some(ValueKind::Float)),
            in_port("scale"@, ValueKind::Float, seq![], Some(ValueKind::Float)),
            in_port("angle_degrees"@, ValueKind::Float, seq![], Some(ValueKind::Float)),
        ],
        outputs: seq![
            port("frame"@, ValueKind::ColorFrame, seq![]),
        ],
        parameters: seq![
            param(
                "gradient"@,
                DefaultView::Gradient(default_rainbow_gradient_stops_view()),
                HintView::ColorGradient,
                |parameters: Seq<NodeParameter>| true,
            ),
        ],
        connection: NodeConnectionDefinition {
            max_input_connections: 1,
            require_value_kind_match: true,
        },
        runtime_values: None,
    }
}

fn rainbow_sweep_node() -> (node: BuiltinNode)
    ensures
        node.shape() == rainbow_sweep_shape(),
{
    let node = BuiltinNode {
        schema: NodeDefinition {
            id: NodeTypeId::RAINBOW_SWEEP.to_owned(),
            display_name: "Linear Sweep".to_owned(),
            category: NodeCategory::Generators,
            needs_io: false,
            inputs: vec![
                input(
                    "speed",
                    ValueKind::Float,
                    vec![],
                    Some(InputValue::Float(Decimal::new(25, -2))),
                ),
                input(
                    "scale",
                    ValueKind::Float,
                    vec![],
                    Some(InputValue::Float(Decimal::new(1, 0))),
                ),
                input(
                    "angle_degrees",
                    ValueKind::Float,
                    vec![],
                    Some(InputValue::Float(Decimal::new(0, 0))),
                ),
            ],
            outputs: vec![output("frame", ValueKind::ColorFrame, vec![])],
            parameters: vec![
                NodeParameterDefinition::new(
                    "gradient",
                    title_case_name("gradient"),
                    ParameterDefaultValue::Gradient(default_rainbow_gradient_stops()),
                    ParameterUiHint::ColorGradient,
                ),
            ],
            connection: NodeConnectionDefinition {
                max_input_connections: 1,
                require_value_kind_match: true,
            },
            runtime_updates: None,
        },
        rule: InferenceRule::Declared,
    };
    assert(node.shape() =~~= rainbow_sweep_shape());
    node
}

/// The shape of the `circle_sweep` node.
pub open spec fn circle_sweep_shape() -> NodeShape {
    NodeShape {
        id: NodeTypeId::CIRCLE_SWEEP@,
        display_name: "Circle Sweep"@,
        category: NodeCategory::Generators,
        needs_io: false,
        rule: InferenceRule::Declared,
        inputs: seq![
            in_port("speed"@, ValueKind::Float, seq![], Some(ValueKind::Float)),
            in_port("scale"@, ValueKind::Float, seq![], Some(ValueKind::Float)),
            in_port("aspect"@, ValueKind::Float, seq![], Some(ValueKind::Float)),
        ],
        outputs: seq![
            port("frame"@, ValueKind::ColorFrame, seq![]),
        ],
        parameters: seq![
            param(
                "gradient"@,
                DefaultView::Gradient(default_rainbow_gradient_stops_view()),
                HintView::ColorGradient,
                |parameters: Seq<NodeParameter>| true,
            ),
        ],
        connection: NodeConnectionDefinition {
            max_input_connections: 1,
            require_value_kind_match: true,
        },
        runtime_values: None,
    }
}

fn circle_sweep_node() -> (node: BuiltinNode)
    ensures
        node.shape() == circle_sweep_shape(),
{
    let node = BuiltinNode {
        schema: NodeDefinition {
            id: NodeTypeId::CIRCLE_SWEEP.to_owned(),
            display_name: "Circle Sweep".to_owned(),
            category: NodeCategory::Generators,
            needs_io: false,
            inputs: vec![
                input(
                    "speed",
                    ValueKind::Float,
                    vec![],
                    Some(InputValue::Float(Decimal::new(25, -2))),
                ),
                input(
                    "scale",
                    ValueKind::Float,
                    vec![],
                    Some(InputValue::Float(Decimal::new(1, 0))),
                ),
                input(
                    "aspect",
                    ValueKind::Float,
                    vec![],
                    Some(InputValue::Float(Decimal::new(1, 0))),
                ),
            ],
            outputs: vec![output("frame", ValueKind::ColorFrame, vec![])],
            parameters: vec![
                NodeParameterDefinition::new(
                    "gradient",
                    title_case_name("gradient"),
                    ParameterDefaultValue::Gradient(default_rainbow_gradient_stops()),
                    ParameterUiHint::ColorGradient,
                ),
            ],
            connection: NodeConnectionDefinition {
                max_input_connections: 1,
                require_value_kind_match: true,
            },
            runtime_updates: None,
        },
        rule: InferenceRule::Declared,
    };
    assert(node.shape() =~~= circle_sweep_shape());
    node
}

/// The shape of the `level_bar` node.
pub open spec fn level_bar_shape() -> NodeShape {
    NodeShape {
        id: NodeTypeId::LEVEL_BAR@,
        display_name: "Level Bar"@,
        category: NodeCategory::Generators,
        needs_io: false,
        rule: InferenceRule::Declared,
        inputs: seq![
            in_port("loudness"@, ValueKind::Float, seq![], Some(ValueKind::Float)),
        ],
        outputs: seq![
            port("frame"@, ValueKind::ColorFrame, seq![]),
        ],
        parameters: seq![
            param(
                "gradient"@,
                DefaultView::Gradient(default_rainbow_gradient_stops_view()),
                HintView::ColorGradient,
                |parameters: Seq<NodeParameter>| true,
            ),
        ],
        connection: NodeConnectionDefinition {
            max_input_connections: 1,
            require_value_kind_match: true,
        },
        runtime_values: None,
    }
}

fn level_bar_node() -> (node: BuiltinNode)
    ensures
        node.shape() == level_bar_shape(),
{
    let node = BuiltinNode {
        schema: NodeDefinition {
            id: NodeTypeId::LEVEL_BAR.to_owned(),
            display_name: "Level Bar".to_owned(),
            category: NodeCategory::Generators,
            needs_io: false,
            inputs: vec![
                input(
                    "loudness",
                    ValueKind::Float,
                    vec![],
                    Some(InputValue::Float(Decimal::new(0, 0))),
                ),
            ],
            outputs: vec![output("frame", ValueKind::ColorFrame, vec![])],
            parameters: vec![
                NodeParameterDefinition::new(
                    "gradient",
                    title_case_name("gradient"),
                    ParameterDefaultValue::Gradient(default_rainbow_gradient_stops()),
                    ParameterUiHint::ColorGradient,
                ),
            ],
            connection: NodeConnectionDefinition {
                max_input_connections: 1,
                require_value_kind_match: true,
            },
            runtime_updates: None,
        },
        rule: InferenceRule::Declared,
    };
    assert(node.shape() =~~= level_bar_shape());
    node
}

/// The shape of the `twinkle_stars` node.
pub open spec fn twinkle_stars_shape() -> NodeShape {
    NodeShape {
        id: NodeTypeId::TWINKLE_STARS@,
        display_name: "Twinkle Stars"@,
        category: NodeCategory::Generators,
        needs_io: false,
        rule: InferenceRule::Declared,
        inputs: seq![
            in_port("speed"@, ValueKind::Float, seq![], Some(ValueKind::Float)),
            in_port("density"@, ValueKind::Float, seq![], Some(ValueKind::Float)),
            in_port("min_brightness"@, ValueKind::Float, seq![], Some(ValueKind::Float)),
            in_port("max_brightness"@, ValueKind::Float, seq![], Some(ValueKind::Float)),
        ],
        outputs: seq![
            port("frame"@, ValueKind::ColorFrame, seq![]),
        ],
        parameters: seq![
            param(
                "gradient"@,
                DefaultView::Gradient(default_twinkle_gradient_stops_view()),
                HintView::ColorGradient,
                |parameters: Seq<NodeParameter>| true,
            ),
        ],
        connection: NodeConnectionDefinition {
            max_input_connections: 1,
            require_value_kind_match: true,
        },
        runtime_values: None,
    }
}

fn twinkle_stars_node() -> (node: BuiltinNode)
    ensures
        node.shape() == twinkle_stars_shape(),
{
    let node = BuiltinNode {
        schema: NodeDefinition {
            id: NodeTypeId::TWINKLE_STARS.to_owned(),
            display_name: "Twinkle Stars".to_owned(),
            category: NodeCategory::Generators,
            needs_io: false,
            inputs: vec![
                input(
                    "speed",
                    ValueKind::Float,
                    vec![],
                    Some(InputValue::Float(Decimal::new(1, 0))),
                ),
                input(
                    "density",
                    ValueKind::Float,
                    vec![],
                    Some(InputValue::Float(Decimal::new(2, -1))),
                ),
                input(
                    "min_brightness",
                    ValueKind::Float,
                    vec![],
                    Some(InputValue::Float(Decimal::new(3, -2))),
                ),
                input(
                    "max_brightness",
                    ValueKind::Float,
                    vec![],
                    Some(InputValue::Float(Decimal::new(1, 0))),
                ),
            ],
            outputs: vec![output("frame", ValueKind::ColorFrame, vec![])],
            parameters: vec![
                NodeParameterDefinition::new(
                    "gradient",
                    title_case_name("gradient"),
                    ParameterDefaultValue::Gradient(default_twinkle_gradient_stops()),
                    ParameterUiHint::ColorGradient,
                ),
            ],
            connection: NodeConnectionDefinition {
                max_input_connections: 1,
                require_value_kind_match: true,
            },
            runtime_updates: None,
        },
        rule: InferenceRule::Declared,
    };
    assert(node.shape() =~~= twinkle_stars_shape());
    node
}

/// The shape of the `plasma` node.
pub open spec fn plasma_shape() -> NodeShape {
    NodeShape {
        id: NodeTypeId::PLASMA@,
        display_name: "Plasma"@,
        category: NodeCategory::Generators,
        needs_io: false,
        rule: InferenceRule::Declared,
        inputs: seq![
            in_port("speed"@, ValueKind::Float, seq![], Some(ValueKind::Float)),
            in_port("freq_x"@, ValueKind::Float, seq![], Some(ValueKind::Float)),
            in_port("freq_y"@, ValueKind::Float, seq![], Some(ValueKind::Float)),
            in_port("freq_t"@, ValueKind::Float, seq![], Some(ValueKind::Float)),
            in_port("contrast"@, ValueKind::Float, seq![], Some(ValueKind::Float)),
        ],
        outputs: seq![
            port("frame"@, ValueKind::ColorFrame, seq![]),
        ],
        parameters: seq![
            param(
                "gradient"@,
                DefaultView::Gradient(default_plasma_gradient_stops_view()),
                HintView::ColorGradient,
                |parameters: Seq<NodeParameter>| true,
            ),
        ],
        connection: NodeConnectionDefinition {
            max_input_connections: 1,
            require_value_kind_match: true,
        },
        runtime_values: None,
    }
}

fn plasma_node() -> (node: BuiltinNode)
    ensures
        node.shape() == plasma_shape(),
{
    let node = BuiltinNode {
        schema: NodeDefinition {
            id: NodeTypeId::PLASMA.to_owned(),
            display_name: "Plasma".to_owned(),
            category: NodeCategory::Generators,
            needs_io: false,
            inputs: vec![
                input(
                    "speed",
                    ValueKind::Float,
                    vec![],
                    Some(InputValue::Float(Decimal::new(1, 0))),
                ),
                input(
                    "freq_x",
                    ValueKind::Float,
                    vec![],
                    Some(InputValue::Float(Decimal::new(3, 0))),
                ),
                input(
                    "freq_y",
                    ValueKind::Float,
                    vec![],
                    Some(InputValue::Float(Decimal::new(4, 0))),
                ),
                input(
                    "freq_t",
                    ValueKind::Float,
                    vec![],
                    Some(InputValue::Float(Decimal::new(1, 0))),
                ),
                input(
                    "contrast",
                    ValueKind::Float,
                    vec![],
                    Some(InputValue::Float(Decimal::new(1, 0))),
                ),
            ],
            outputs: vec![output("frame", ValueKind::ColorFrame, vec![])],
            parameters: vec![
                NodeParameterDefinition::new(
                    "gradient",
                    title_case_name("gradient"),
                    ParameterDefaultValue::Gradient(default_plasma_gradient_stops()),
                    ParameterUiHint::ColorGradient,
                ),
            ],
            connection: NodeConnectionDefinition {
                max_input_connections: 1,
                require_value_kind_match: true,
            },
            runtime_updates: None,
        },
        rule: InferenceRule::Declared,
    };
    assert(node.shape() =~~= plasma_shape());
    node
}

/// The shape of the `bouncing_balls` node.
pub open spec fn bouncing_balls_shape() -> NodeShape {
    NodeShape {
        id: NodeTypeId::BOUNCING_BALLS@,
        display_name: "Bouncing Balls"@,
        category: NodeCategory::Generators,
        needs_io: false,
        rule: InferenceRule::Declared,
        inputs: seq![
            in_port("speed"@, ValueKind::Float, seq![], Some(ValueKind::Float)),
            in_port("radius"@, ValueKind::Float, seq![], Some(ValueKind::Float)),
        ],
        outputs: seq![
            port("frame"@, ValueKind::ColorFrame, seq![]),
        ],
        parameters: seq![
            param(
                "circle_count"@,
                DefaultView::Integer(6),
                HintView::IntegerDrag { speed: decimal(1, 0), min: 1, max: 64 },
                |parameters: Seq<NodeParameter>| true,
            ),
            param(
                "radius_variance"@,
                DefaultView::Float(decimal(35, -2i32)),
                HintView::DragFloat {
                    speed: decimal(1, -2i32),
                    min: decimal(0, 0),
                    max: decimal(1, 0),
                },
                |parameters: Seq<NodeParameter>| true,
            ),
            param(
                "gradient"@,
                DefaultView::Gradient(default_bouncing_balls_gradient_stops_view()),
                HintView::ColorGradient,
                |parameters: Seq<NodeParameter>| true,
            ),
        ],
        connection: NodeConnectionDefinition {
            max_input_connections: 1,
            require_value_kind_match: true,
        },
        runtime_values: None,
    }
}

fn bouncing_balls_node() -> (node: BuiltinNode)
    ensures
        node.shape() == bouncing_balls_shape(),
{
    let node = BuiltinNode {
        schema: NodeDefinition {
            id: NodeTypeId::BOUNCING_BALLS.to_owned(),
            display_name: "Bouncing Balls".to_owned(),
            category: NodeCategory::Generators,
            needs_io: false,
            inputs: vec![
                input(
                    "speed",
                    ValueKind::Float,
                    vec![],
                    Some(InputValue::Float(Decimal::new(3, -1))),
                ),
                input(
                    "radius",
                    ValueKind::Float,
                    vec![],
                    Some(InputValue::Float(Decimal::new(5, -1))),
                ),
            ],
            outputs: vec![output("frame", ValueKind::ColorFrame, vec![])],
            parameters: vec![
                NodeParameterDefinition::new(
                    "circle_count",
                    title_case_name("circle_count"),
                    ParameterDefaultValue::Integer(6),
                    ParameterUiHint::IntegerDrag { speed: Decimal::new(1, 0), min: 1, max: 64 },
                ),
                NodeParameterDefinition::new(
                    "radius_variance",
                    title_case_name("radius_variance"),
                    ParameterDefaultValue::Float(Decimal::new(35, -2)),
                    ParameterUiHint::DragFloat {
                        speed: Decimal::new(1, -2),
                        min: Decimal::new(0, 0),
                        max: Decimal::new(1, 0),
                    },
                ),
                NodeParameterDefinition::new(
                    "gradient",
                    title_case_name("gradient"),
                    ParameterDefaultValue::Gradient(default_bouncing_balls_gradient_stops()),
                    ParameterUiHint::ColorGradient,
                ),
            ],
            connection: NodeConnectionDefinition {
                max_input_connections: 1,
                require_value_kind_match: true,
            },
            runtime_updates: None,
        },
        rule: InferenceRule::Declared,
    };
    assert(node.shape() =~~= bouncing_balls_shape());
    node
}

/// The shape of the `wled_dummy_display` node.
pub open spec fn wled_dummy_display_shape() -> NodeShape {
    NodeShape {
        id: NodeTypeId::WLED_DUMMY_DISPLAY@,
        display_name: "Wled Dummy Display"@,
        category: NodeCategory::Debug,
        needs_io: false,
        rule: InferenceRule::Declared,
        inputs: seq![
            in_port("value"@, ValueKind::ColorFrame, seq![ValueKind::Color], None),
        ],
        outputs: seq![],
        parameters: seq![
            param(
                "width"@,
                DefaultView::Integer(8),
                HintView::IntegerDrag { speed: decimal(1, 0), min: 1, max: 256 },
                |parameters: Seq<NodeParameter>| true,
            ),
            param(
                "height"@,
                DefaultView::Integer(8),
                HintView::IntegerDrag { speed: decimal(1, 0), min: 1, max: 256 },
                |parameters: Seq<NodeParameter>| true,
            ),
        ],
        connection: NodeConnectionDefinition {
            max_input_connections: 1,
            require_value_kind_match: true,
        },
        runtime_values: Some(
            (
                true,
                seq![port("frame"@, ValueKind::ColorFrame, seq![ValueKind::Color])],
            ),
        ),
    }
}

fn wled_dummy_display_node() -> (node: BuiltinNode)
    ensures
        node.shape() == wled_dummy_display_shape(),
{
    let node = BuiltinNode {
        schema: NodeDefinition {
            id: NodeTypeId::WLED_DUMMY_DISPLAY.to_owned(),
            display_name: "Wled Dummy Display".to_owned(),
            category: NodeCategory::Debug,
            needs_io: false,
            inputs: vec![input("value", ValueKind::ColorFrame, vec![ValueKind::Color], None)],
            outputs: vec![],
            parameters: vec![
                NodeParameterDefinition::new(
                    "width",
                    title_case_name("width"),
                    ParameterDefaultValue::Integer(8),
                    ParameterUiHint::IntegerDrag {
                        speed: Decimal::new(1, 0),
                        min: 1,
                        max: 256,
                    },
                ),
                NodeParameterDefinition::new(
                    "height",
                    title_case_name("height"),
                    ParameterDefaultValue::Integer(8),
                    ParameterUiHint::IntegerDrag {
                        speed: Decimal::new(1, 0),
                        min: 1,
                        max: 256,
                    },
                ),
            ],
            connection: NodeConnectionDefinition {
                max_input_connections: 1,
                require_value_kind_match: true,
            },
            runtime_updates: Some(
                NodeRuntimeUpdateDefinition {
                    auto_subscribe_in_editor: true,
                    values: vec![runtime_value("frame", ValueKind::ColorFrame, vec![ValueKind::Color])],
                },
            ),
        },
        rule: InferenceRule::Declared,
    };
    assert(node.shape() =~~= wled_dummy_display_shape());
    node
}

/// The shape of the `frame_brightness` node.
pub open spec fn frame_brightness_shape() -> NodeShape {
    NodeShape {
        id: NodeTypeId::FRAME_BRIGHTNESS@,
        display_name: "Frame Brightness"@,
        category: NodeCategory::FrameOperations,
        needs_io: false,
        rule: InferenceRule::Declared,
        inputs: seq![
            in_port("frame"@, ValueKind::ColorFrame, seq![], None),
            in_port("factor"@, ValueKind::Float, seq![], Some(ValueKind::Float)),
        ],
        outputs: seq![
            port("frame"@, ValueKind::ColorFrame, seq![]),
        ],
        parameters: seq![],
        connection: NodeConnectionDefinition {
            max_input_connections: 1,
            require_value_kind_match: true,
        },
        runtime_values: None,
    }
}

fn frame_brightness_node() -> (node: BuiltinNode)
    ensures
        node.shape() == frame_brightness_shape(),
{
    let node = BuiltinNode {
        schema: NodeDefinition {
            id: NodeTypeId::FRAME_BRIGHTNESS.to_owned(),
            display_name: "Frame Brightness".to_owned(),
            category: NodeCategory::FrameOperations,
            needs_io: false,
            inputs: vec![
                input("frame", ValueKind::ColorFrame, vec![], None),
                input(
                    "factor",
                    ValueKind::Float,
                    vec![],
                    Some(InputValue::Float(Decimal::new(1, 0))),
                ),
            ],
            outputs: vec![output("frame", ValueKind::ColorFrame, vec![])],
            parameters: vec![],
            connection: NodeConnectionDefinition {
                max_input_connections: 1,
                require_value_kind_match: true,
            },
            runtime_updates: None,
        },
        rule: InferenceRule::Declared,
    };
    assert(node.shape() =~~= frame_brightness_shape());
    node
}

/// The number of node types in the earlier catalog.
pub const LEGACY_NODE_COUNT: usize = 46;

/// The shape of the `k`-th built-in node type, in catalog order.
pub open spec fn legacy_shape_at(k: int) -> NodeShape {
    if k == 0 {
        float_constant_shape()
    } else if k == 1 {
        color_constant_shape()
    } else if k == 2 {
        display_shape()
    } else if k == 3 {
        plot_shape()
    } else if k == 4 {
        delay_shape()
    } else if k == 5 {
        wled_target_shape()
    } else if k == 6 {
        wled_sink_shape()
    } else if k == 7 {
        audio_fft_receiver_shape()
    } else if k == 8 {
        ha_mqtt_number_shape()
    } else if k == 9 {
        add_float_shape()
    } else if k == 10 {
        subtract_float_shape()
    } else if k == 11 {
        signal_generator_shape()
    } else if k == 12 {
        divide_float_shape()
    } else if k == 13 {
        min_max_float_shape()
    } else if k == 14 {
        multiply_float_shape()
    } else if k == 15 {
        abs_float_shape()
    } else if k == 16 {
        clamp_float_shape()
    } else if k == 17 {
        power_float_shape()
    } else if k == 18 {
        root_float_shape()
    } else if k == 19 {
        exponential_float_shape()
    } else if k == 20 {
        log_float_shape()
    } else if k == 21 {
        map_range_float_shape()
    } else if k == 22 {
        round_float_shape()
    } else if k == 23 {
        scale_tensor_shape()
    } else if k == 24 {
        scale_color_shape()
    } else if k == 25 {
        multiply_color_shape()
    } else if k == 26 {
        tint_frame_shape()
    } else if k == 27 {
        mask_frame_shape()
    } else if k == 28 {
        mix_color_shape()
    } else if k == 29 {
        alpha_over_shape()
    } else if k == 30 {
        fade_shape()
    } else if k == 31 {
        moving_average_shape()
    } else if k == 32 {
        moving_median_shape()
    } else if k == 33 {
        box_blur_shape()
    } else if k == 34 {
        gaussian_blur_shape()
    } else if k == 35 {
        median_filter_shape()
    } else if k == 36 {
        spectrum_analyzer_shape()
    } else if k == 37 {
        solid_frame_shape()
    } else if k == 38 {
        rainbow_sweep_shape()
    } else if k == 39 {
        circle_sweep_shape()
    } else if k == 40 {
        level_bar_shape()
    } else if k == 41 {
        twinkle_stars_shape()
    } else if k == 42 {
        plasma_shape()
    } else if k == 43 {
        bouncing_balls_shape()
    } else if k == 44 {
        wled_dummy_display_shape()
    } else {
        frame_brightness_shape()
    }
}

/// The id of the `k`-th built-in node type, in catalog order.
pub open spec fn legacy_id(k: int) -> Seq<char> {
    legacy_shape_at(k).id
}

fn legacy_id_text(k: usize) -> (id: &'static str)
    requires
        k < LEGACY_NODE_COUNT,
    ensures
        id@ == legacy_id(k as int),
{
    match k {
        0 => NodeTypeId::FLOAT_CONSTANT,
        1 => NodeTypeId::COLOR_CONSTANT,
        2 => NodeTypeId::DISPLAY,
        3 => NodeTypeId::PLOT,
        4 => NodeTypeId::DELAY,
        5 => NodeTypeId::WLED_TARGET,
        6 => NodeTypeId::WLED_SINK,
        7 => NodeTypeId::AUDIO_FFT_RECEIVER,
        8 => NodeTypeId::HA_MQTT_NUMBER,
        9 => NodeTypeId::ADD_FLOAT,
        10 => NodeTypeId::SUBTRACT_FLOAT,
        11 => NodeTypeId::SIGNAL_GENERATOR,
        12 => NodeTypeId::DIVIDE_FLOAT,
        13 => NodeTypeId::MIN_MAX_FLOAT,
        14 => NodeTypeId::MULTIPLY_FLOAT,
        15 => NodeTypeId::ABS_FLOAT,
        16 => NodeTypeId::CLAMP_FLOAT,
        17 => NodeTypeId::POWER_FLOAT,
        18 => NodeTypeId::ROOT_FLOAT,
        19 => NodeTypeId::EXPONENTIAL_FLOAT,
        20 => NodeTypeId::LOG_FLOAT,
        21 => NodeTypeId::MAP_RANGE_FLOAT,
        22 => NodeTypeId::ROUND_FLOAT,
        23 => NodeTypeId::SCALE_TENSOR,
        24 => NodeTypeId::SCALE_COLOR,
        25 => NodeTypeId::MULTIPLY_COLOR,
        26 => NodeTypeId::TINT_FRAME,
        27 => NodeTypeId::MASK_FRAME,
        28 => NodeTypeId::MIX_COLOR,
        29 => NodeTypeId::ALPHA_OVER,
        30 => NodeTypeId::FADE,
        31 => NodeTypeId::MOVING_AVERAGE,
        32 => NodeTypeId::MOVING_MEDIAN,
        33 => NodeTypeId::BOX_BLUR,
        34 => NodeTypeId::GAUSSIAN_BLUR,
        35 => NodeTypeId::MEDIAN_FILTER,
        36 => NodeTypeId::SPECTRUM_ANALYZER,
        37 => NodeTypeId::SOLID_FRAME,
        38 => NodeTypeId::RAINBOW_SWEEP,
        39 => NodeTypeId::CIRCLE_SWEEP,
        40 => NodeTypeId::LEVEL_BAR,
        41 => NodeTypeId::TWINKLE_STARS,
        42 => NodeTypeId::PLASMA,
        43 => NodeTypeId::BOUNCING_BALLS,
        44 => NodeTypeId::WLED_DUMMY_DISPLAY,
        _ => NodeTypeId::FRAME_BRIGHTNESS,
    }
}

fn legacy_node(k: usize) -> (node: BuiltinNode)
    requires
        k < LEGACY_NODE_COUNT,
    ensures
        node.shape() == legacy_shape_at(k as int),
{
    match k {
        0 => float_constant_node(),
        1 => color_constant_node(),
        2 => display_node(),
        3 => plot_node(),
        4 => delay_node(),
        5 => wled_target_node(),
        6 => wled_sink_node(),
        7 => audio_fft_receiver_node(),
        8 => ha_mqtt_number_node(),
        9 => add_float_node(),
        10 => subtract_float_node(),
        11 => signal_generator_node(),
        12 => divide_float_node(),
        13 => min_max_float_node(),
        14 => multiply_float_node(),
        15 => abs_float_node(),
        16 => clamp_float_node(),
        17 => power_float_node(),
        18 => root_float_node(),
        19 => exponential_float_node(),
        20 => log_float_node(),
        21 => map_range_float_node(),
        22 => round_float_node(),
        23 => scale_tensor_node(),
        24 => scale_color_node(),
        25 => multiply_color_node(),
        26 => tint_frame_node(),
        27 => mask_frame_node(),
        28 => mix_color_node(),
        29 => alpha_over_node(),
        30 => fade_node(),
        31 => moving_average_node(),
        32 => moving_median_node(),
        33 => box_blur_node(),
        34 => gaussian_blur_node(),
        35 => median_filter_node(),
        36 => spectrum_analyzer_node(),
        37 => solid_frame_node(),
        38 => rainbow_sweep_node(),
        39 => circle_sweep_node(),
        40 => level_bar_node(),
        41 => twinkle_stars_node(),
        42 => plasma_node(),
        43 => bouncing_balls_node(),
        44 => wled_dummy_display_node(),
        _ => frame_brightness_node(),
    }
}

/// The ids of the earlier catalog's node types, in catalog order.
pub open spec fn legacy_ids() -> Seq<Seq<char>> {
    Seq::new(LEGACY_NODE_COUNT as nat, |k: int| legacy_id(k))
}

/// Returns the earlier catalog's node definitions, in catalog order.
///
/// Each call builds a fresh vector, so callers can freely sort or modify their copy.
pub fn builtin_node_definitions() -> (definitions: Vec<NodeDefinition>)
    ensures
        definitions@.len() == LEGACY_NODE_COUNT,
        forall|k: int|
            0 <= k < LEGACY_NODE_COUNT ==> schema_has_shape(
                #[trigger] definitions@[k],
                legacy_shape_at(k),
            ),
{
    let mut definitions: Vec<NodeDefinition> = Vec::new();
    let mut k: usize = 0;
    while k < LEGACY_NODE_COUNT
        invariant
            k <= LEGACY_NODE_COUNT,
            definitions@.len() == k,
            forall|j: int| 0 <= j < k ==> schema_has_shape(#[trigger] definitions@[j], legacy_shape_at(j)),
        decreases LEGACY_NODE_COUNT - k,
    {
        let node = legacy_node(k);
        definitions.push(node.schema);
        k = k + 1;
    }
    definitions
}

/// Returns the earlier catalog's definition of the node type with the given id: the first one
/// with that id, if any.
pub fn builtin_node_definition(node_type_id: &str) -> (definition: Option<NodeDefinition>)
    ensures
        match first_position(legacy_ids(), node_type_id@) {
            Some(k) => definition matches Some(d) && schema_has_shape(d, legacy_shape_at(k)),
            None => definition is None,
        },
{
    let ghost ids = legacy_ids();
    let mut k: usize = 0;
    while k < LEGACY_NODE_COUNT
        invariant
            k <= LEGACY_NODE_COUNT,
            ids == legacy_ids(),
            forall|j: int| 0 <= j < k ==> ids[j] != node_type_id@,
        decreases LEGACY_NODE_COUNT - k,
    {
        if str_equal(legacy_id_text(k), node_type_id) {
            proof {
                lemma_first_position(ids, node_type_id@, k as int);
            }
            return Some(legacy_node(k).schema);
        }
        k = k + 1;
    }
    proof {
        lemma_no_position(ids, node_type_id@);
    }
    None
}

proof fn lemma_legacy_id_0_distinct()
    ensures
        forall|j: int| 0 < j < LEGACY_NODE_COUNT ==> legacy_id(0) != #[trigger] legacy_id(j),
{
    reveal_strlit("inputs.float_constant");
    assert(legacy_id(0) == NodeTypeId::FLOAT_CONSTANT@);
    assert forall|j: int| 0 < j < LEGACY_NODE_COUNT implies legacy_id(0) != #[trigger] legacy_id(j) by {
        if j == 1 {
            reveal_strlit("inputs.color_constant");
            assert(legacy_id(1) == NodeTypeId::COLOR_CONSTANT@);
            assert(NodeTypeId::FLOAT_CONSTANT@[7] != NodeTypeId::COLOR_CONSTANT@[7]);
        } else if j == 2 {
            reveal_strlit("outputs.display");
            assert(legacy_id(2) == NodeTypeId::DISPLAY@);
            assert(NodeTypeId::FLOAT_CONSTANT@.len() != NodeTypeId::DISPLAY@.len());
        } else if j == 3 {
            reveal_strlit("outputs.plot");
            assert(legacy_id(3) == NodeTypeId::PLOT@);
            assert(NodeTypeId::FLOAT_CONSTANT@.len() != NodeTypeId::PLOT@.len());
        } else if j == 4 {
            reveal_strlit("temporal_filters.delay");
            assert(legacy_id(4) == NodeTypeId::DELAY@);
            assert(NodeTypeId::FLOAT_CONSTANT@.len() != NodeTypeId::DELAY@.len());
        } else if j == 5 {
            reveal_strlit("outputs.wled_target");
            assert(legacy_id(5) == NodeTypeId::WLED_TARGET@);
            assert(NodeTypeId::FLOAT_CONSTANT@.len() != NodeTypeId::WLED_TARGET@.len());
        } else if j == 6 {
            reveal_strlit("inputs.wled_sink");
            assert(legacy_id(6) == NodeTypeId::WLED_SINK@);
            assert(NodeTypeId::FLOAT_CONSTANT@.len() != NodeTypeId::WLED_SINK@.len());
        } else if j == 7 {
            reveal_strlit("inputs.audio_fft_receiver");
            assert(legacy_id(7) == NodeTypeId::AUDIO_FFT_RECEIVER@);
            assert(NodeTypeId::FLOAT_CONSTANT@.len() != NodeTypeId::AUDIO_FFT_RECEIVER@.len());
        } else if j == 8 {
            reveal_strlit("inputs.ha_mqtt_number");
            assert(legacy_id(8) == NodeTypeId::HA_MQTT_NUMBER@);
            assert(NodeTypeId::FLOAT_CONSTANT@[7] != NodeTypeId::HA_MQTT_NUMBER@[7]);
        } else if j == 9 {
            reveal_strlit("math.add_float");
            assert(legacy_id(9) == NodeTypeId::ADD_FLOAT@);
            assert(NodeTypeId::FLOAT_CONSTANT@.len() != NodeTypeId::ADD_FLOAT@.len());
        } else if j == 10 {
            reveal_strlit("math.subtract_float");
            assert(legacy_id(10) == NodeTypeId::SUBTRACT_FLOAT@);
            assert(NodeTypeId::FLOAT_CONSTANT@.len() != NodeTypeId::SUBTRACT_FLOAT@.len());
        } else if j == 11 {
            reveal_strlit("inputs.signal_generator");
            assert(legacy_id(11) == NodeTypeId::SIGNAL_GENERATOR@);
            assert(NodeTypeId::FLOAT_CONSTANT@.len() != NodeTypeId::SIGNAL_GENERATOR@.len());
        } else if j == 12 {
            reveal_strlit("math.divide_float");
            assert(legacy_id(12) == NodeTypeId::DIVIDE_FLOAT@);
            assert(NodeTypeId::FLOAT_CONSTANT@.len() != NodeTypeId::DIVIDE_FLOAT@.len());
        } else if j == 13 {
            reveal_strlit("math.min_max_float");
            assert(legacy_id(13) == NodeTypeId::MIN_MAX_FLOAT@);
            assert(NodeTypeId::FLOAT_CONSTANT@.len() != NodeTypeId::MIN_MAX_FLOAT@.len());
        } else if j == 14 {
            reveal_strlit("math.multiply_float");
            assert(legacy_id(14) == NodeTypeId::MULTIPLY_FLOAT@);
            assert(NodeTypeId::FLOAT_CONSTANT@.len() != NodeTypeId::MULTIPLY_FLOAT@.len());
        } else if j == 15 {
            reveal_strlit("math.abs_float");
            assert(legacy_id(15) == NodeTypeId::ABS_FLOAT@);
            assert(NodeTypeId::FLOAT_CONSTANT@.len() != NodeTypeId::ABS_FLOAT@.len());
        } else if j == 16 {
            reveal_strlit("math.clamp_float");
            assert(legacy_id(16) == NodeTypeId::CLAMP_FLOAT@);
            assert(NodeTypeId::FLOAT_CONSTANT@.len() != NodeTypeId::CLAMP_FLOAT@.len());
        } else if j == 17 {
            reveal_strlit("math.power_float");
            assert(legacy_id(17) == NodeTypeId::POWER_FLOAT@);
            assert(NodeTypeId::FLOAT_CONSTANT@.len() != NodeTypeId::POWER_FLOAT@.len());
        } else if j == 18 {
            reveal_strlit("math.root_float");
            assert(legacy_id(18) == NodeTypeId::ROOT_FLOAT@);
            assert(NodeTypeId::FLOAT_CONSTANT@.len() != NodeTypeId::ROOT_FLOAT@.len());
        } else if j == 19 {
            reveal_strlit("math.exponential_float");
            assert(legacy_id(19) == NodeTypeId::EXPONENTIAL_FLOAT@);
            assert(NodeTypeId::FLOAT_CONSTANT@.len() != NodeTypeId::EXPONENTIAL_FLOAT@.len());
        } else if j == 20 {
            reveal_strlit("math.log_float");
            assert(legacy_id(20) == NodeTypeId::LOG_FLOAT@);
            assert(NodeTypeId::FLOAT_CONSTANT@.len() != NodeTypeId::LOG_FLOAT@.len());
        } else if j == 21 {
            reveal_strlit("math.map_range_float");
            assert(legacy_id(21) == NodeTypeId::MAP_RANGE_FLOAT@);
            assert(NodeTypeId::FLOAT_CONSTANT@.len() != NodeTypeId::MAP_RANGE_FLOAT@.len());
        } else if j == 22 {
            reveal_strlit("math.round_float");
            assert(legacy_id(22) == NodeTypeId::ROUND_FLOAT@);
            assert(NodeTypeId::FLOAT_CONSTANT@.len() != NodeTypeId::ROUND_FLOAT@.len());
        } else if j == 23 {
            reveal_strlit("math.scale_tensor");
            assert(legacy_id(23) == NodeTypeId::SCALE_TENSOR@);
            assert(NodeTypeId::FLOAT_CONSTANT@.len() != NodeTypeId::SCALE_TENSOR@.len());
        } else if j == 24 {
            reveal_strlit("frame_operations.scale");
            assert(legacy_id(24) == NodeTypeId::SCALE_COLOR@);
            assert(NodeTypeId::FLOAT_CONSTANT@.len() != NodeTypeId::SCALE_COLOR@.len());
        } else if j == 25 {
            reveal_strlit("frame_operations.multiply");
            assert(legacy_id(25) == NodeTypeId::MULTIPLY_COLOR@);
            assert(NodeTypeId::FLOAT_CONSTANT@.len() != NodeTypeId::MULTIPLY_COLOR@.len());
        } else if j == 26 {
            reveal_strlit("frame_operations.tint_frame");
            assert(legacy_id(26) == NodeTypeId::TINT_FRAME@);
            assert(NodeTypeId::FLOAT_CONSTANT@.len() != NodeTypeId::TINT_FRAME@.len());
        } else if j == 27 {
            reveal_strlit("frame_operations.mask_frame");
            assert(legacy_id(27) == NodeTypeId::MASK_FRAME@);
            assert(NodeTypeId::FLOAT_CONSTANT@.len() != NodeTypeId::MASK_FRAME@.len());
        } else if j == 28 {
            reveal_strlit("frame_operations.mix");
            assert(legacy_id(28) == NodeTypeId::MIX_COLOR@);
            assert(NodeTypeId::FLOAT_CONSTANT@.len() != NodeTypeId::MIX_COLOR@.len());
        } else if j == 29 {
            reveal_strlit("frame_operations.alpha_over");
            assert(legacy_id(29) == NodeTypeId::ALPHA_OVER@);
            assert(NodeTypeId::FLOAT_CONSTANT@.len() != NodeTypeId::ALPHA_OVER@.len());
        } else if j == 30 {
            reveal_strlit("temporal_filters.fade");
            assert(legacy_id(30) == NodeTypeId::FADE@);
            assert(NodeTypeId::FLOAT_CONSTANT@[0] != NodeTypeId::FADE@[0]);
        } else if j == 31 {
            reveal_strlit("temporal_filters.moving_average");
            assert(legacy_id(31) == NodeTypeId::MOVING_AVERAGE@);
            assert(NodeTypeId::FLOAT_CONSTANT@.len() != NodeTypeId::MOVING_AVERAGE@.len());
        } else if j == 32 {
            reveal_strlit("temporal_filters.moving_median");
            assert(legacy_id(32) == NodeTypeId::MOVING_MEDIAN@);
            assert(NodeTypeId::FLOAT_CONSTANT@.len() != NodeTypeId::MOVING_MEDIAN@.len());
        } else if j == 33 {
            reveal_strlit("spatial_filters.box_blur");
            assert(legacy_id(33) == NodeTypeId::BOX_BLUR@);
            assert(NodeTypeId::FLOAT_CONSTANT@.len() != NodeTypeId::BOX_BLUR@.len());
        } else if j == 34 {
            reveal_strlit("spatial_filters.gaussian_blur");
            assert(legacy_id(34) == NodeTypeId::GAUSSIAN_BLUR@);
            assert(NodeTypeId::FLOAT_CONSTANT@.len() != NodeTypeId::GAUSSIAN_BLUR@.len());
        } else if j == 35 {
            reveal_strlit("spatial_filters.median_filter");
            assert(legacy_id(35) == NodeTypeId::MEDIAN_FILTER@);
            assert(NodeTypeId::FLOAT_CONSTANT@.len() != NodeTypeId::MEDIAN_FILTER@.len());
        } else if j == 36 {
            reveal_strlit("generators.spectrum_analyzer");
            assert(legacy_id(36) == NodeTypeId::SPECTRUM_ANALYZER@);
            assert(NodeTypeId::FLOAT_CONSTANT@.len() != NodeTypeId::SPECTRUM_ANALYZER@.len());
        } else if j == 37 {
            reveal_strlit("generators.solid_frame");
            assert(legacy_id(37) == NodeTypeId::SOLID_FRAME@);
            assert(NodeTypeId::FLOAT_CONSTANT@.len() != NodeTypeId::SOLID_FRAME@.len());
        } else if j == 38 {
            reveal_strlit("generators.rainbow_sweep");
            assert(legacy_id(38) == NodeTypeId::RAINBOW_SWEEP@);
            assert(NodeTypeId::FLOAT_CONSTANT@.len() != NodeTypeId::RAINBOW_SWEEP@.len());
        } else if j == 39 {
            reveal_strlit("generators.circle_sweep");
            assert(legacy_id(39) == NodeTypeId::CIRCLE_SWEEP@);
            assert(NodeTypeId::FLOAT_CONSTANT@.len() != NodeTypeId::CIRCLE_SWEEP@.len());
        } else if j == 40 {
            reveal_strlit("generators.level_bar");
            assert(legacy_id(40) == NodeTypeId::LEVEL_BAR@);
            assert(NodeTypeId::FLOAT_CONSTANT@.len() != NodeTypeId::LEVEL_BAR@.len());
        } else if j == 41 {
            reveal_strlit("generators.twinkle_stars");
            assert(legacy_id(41) == NodeTypeId::TWINKLE_STARS@);
            assert(NodeTypeId::FLOAT_CONSTANT@.len() != NodeTypeId::TWINKLE_STARS@.len());
        } else if j == 42 {
            reveal_strlit("generators.plasma");
            assert(legacy_id(42) == NodeTypeId::PLASMA@);
            assert(NodeTypeId::FLOAT_CONSTANT@.len() != NodeTypeId::PLASMA@.len());
        } else if j == 43 {
            reveal_strlit("generators.bouncing_balls");
            assert(legacy_id(43) == NodeTypeId::BOUNCING_BALLS@);
            assert(NodeTypeId::FLOAT_CONSTANT@.len() != NodeTypeId::BOUNCING_BALLS@.len());
        } else if j == 44 {
            reveal_strlit("debug.wled_dummy_display");
            assert(legacy_id(44) == NodeTypeId::WLED_DUMMY_DISPLAY@);
            assert(NodeTypeId::FLOAT_CONSTANT@.len() != NodeTypeId::WLED_DUMMY_DISPLAY@.len());
        } else if j == 45 {
            reveal_strlit("frame_operations.frame_brightness");
            assert(legacy_id(45) == NodeTypeId::FRAME_BRIGHTNESS@);
            assert(NodeTypeId::FLOAT_CONSTANT@.len() != NodeTypeId::FRAME_BRIGHTNESS@.len());
        }
    }
}

proof fn lemma_legacy_id_1_distinct()
    ensures
        forall|j: int| 1 < j < LEGACY_NODE_COUNT ==> legacy_id(1) != #[trigger] legacy_id(j),
{
    reveal_strlit("inputs.color_constant");
    assert(legacy_id(1) == NodeTypeId::COLOR_CONSTANT@);
    assert forall|j: int| 1 < j < LEGACY_NODE_COUNT implies legacy_id(1) != #[trigger] legacy_id(j) by {
        if j == 2 {
            reveal_strlit("outputs.display");
            assert(legacy_id(2) == NodeTypeId::DISPLAY@);
            assert(NodeTypeId::COLOR_CONSTANT@.len() != NodeTypeId::DISPLAY@.len());
        } else if j == 3 {
            reveal_strlit("outputs.plot");
            assert(legacy_id(3) == NodeTypeId::PLOT@);
            assert(NodeTypeId::COLOR_CONSTANT@.len() != NodeTypeId::PLOT@.len());
        } else if j == 4 {
            reveal_strlit("temporal_filters.delay");
            assert(legacy_id(4) == NodeTypeId::DELAY@);
            assert(NodeTypeId::COLOR_CONSTANT@.len() != NodeTypeId::DELAY@.len());
        } else if j == 5 {
            reveal_strlit("outputs.wled_target");
            assert(legacy_id(5) == NodeTypeId::WLED_TARGET@);
            assert(NodeTypeId::COLOR_CONSTANT@.len() != NodeTypeId::WLED_TARGET@.len());
        } else if j == 6 {
            reveal_strlit("inputs.wled_sink");
            assert(legacy_id(6) == NodeTypeId::WLED_SINK@);
            assert(NodeTypeId::COLOR_CONSTANT@.len() != NodeTypeId::WLED_SINK@.len());
        } else if j == 7 {
            reveal_strlit("inputs.audio_fft_receiver");
            assert(legacy_id(7) == NodeTypeId::AUDIO_FFT_RECEIVER@);
            assert(NodeTypeId::COLOR_CONSTANT@.len() != NodeTypeId::AUDIO_FFT_RECEIVER@.len());
        } else if j == 8 {
            reveal_strlit("inputs.ha_mqtt_number");
            assert(legacy_id(8) == NodeTypeId::HA_MQTT_NUMBER@);
            assert(NodeTypeId::COLOR_CONSTANT@[7] != NodeTypeId::HA_MQTT_NUMBER@[7]);
        } else if j == 9 {
            reveal_strlit("math.add_float");
            assert(legacy_id(9) == NodeTypeId::ADD_FLOAT@);
            assert(NodeTypeId::COLOR_CONSTANT@.len() != NodeTypeId::ADD_FLOAT@.len());
        } else if j == 10 {
            reveal_strlit("math.subtract_float");
            assert(legacy_id(10) == NodeTypeId::SUBTRACT_FLOAT@);
            assert(NodeTypeId::COLOR_CONSTANT@.len() != NodeTypeId::SUBTRACT_FLOAT@.len());
        } else if j == 11 {
            reveal_strlit("inputs.signal_generator");
            assert(legacy_id(11) == NodeTypeId::SIGNAL_GENERATOR@);
            assert(NodeTypeId::COLOR_CONSTANT@.len() != NodeTypeId::SIGNAL_GENERATOR@.len());
        } else if j == 12 {
            reveal_strlit("math.divide_float");
            assert(legacy_id(12) == NodeTypeId::DIVIDE_FLOAT@);
            assert(NodeTypeId::COLOR_CONSTANT@.len() != NodeTypeId::DIVIDE_FLOAT@.len());
        } else if j == 13 {
            reveal_strlit("math.min_max_float");
            assert(legacy_id(13) == NodeTypeId::MIN_MAX_FLOAT@);
            assert(NodeTypeId::COLOR_CONSTANT@.len() != NodeTypeId::MIN_MAX_FLOAT@.len());
        } else if j == 14 {
            reveal_strlit("math.multiply_float");
            assert(legacy_id(14) == NodeTypeId::MULTIPLY_FLOAT@);
            assert(NodeTypeId::COLOR_CONSTANT@.len() != NodeTypeId::MULTIPLY_FLOAT@.len());
        } else if j == 15 {
            reveal_strlit("math.abs_float");
            assert(legacy_id(15) == NodeTypeId::ABS_FLOAT@);
            assert(NodeTypeId::COLOR_CONSTANT@.len() != NodeTypeId::ABS_FLOAT@.len());
        } else if j == 16 {
            reveal_strlit("math.clamp_float");
            assert(legacy_id(16) == NodeTypeId::CLAMP_FLOAT@);
            assert(NodeTypeId::COLOR_CONSTANT@.len() != NodeTypeId::CLAMP_FLOAT@.len());
        } else if j == 17 {
            reveal_strlit("math.power_float");
            assert(legacy_id(17) == NodeTypeId::POWER_FLOAT@);
            assert(NodeTypeId::COLOR_CONSTANT@.len() != NodeTypeId::POWER_FLOAT@.len());
        } else if j == 18 {
            reveal_strlit("math.root_float");
            assert(legacy_id(18) == NodeTypeId::ROOT_FLOAT@);
            assert(NodeTypeId::COLOR_CONSTANT@.len() != NodeTypeId::ROOT_FLOAT@.len());
        } else if j == 19 {
            reveal_strlit("math.exponential_float");
            assert(legacy_id(19) == NodeTypeId::EXPONENTIAL_FLOAT@);
            assert(NodeTypeId::COLOR_CONSTANT@.len() != NodeTypeId::EXPONENTIAL_FLOAT@.len());
        } else if j == 20 {
            reveal_strlit("math.log_float");
            assert(legacy_id(20) == NodeTypeId::LOG_FLOAT@);
            assert(NodeTypeId::COLOR_CONSTANT@.len() != NodeTypeId::LOG_FLOAT@.len());
        } else if j == 21 {
            reveal_strlit("math.map_range_float");
            assert(legacy_id(21) == NodeTypeId::MAP_RANGE_FLOAT@);
            assert(NodeTypeId::COLOR_CONSTANT@.len() != NodeTypeId::MAP_RANGE_FLOAT@.len());
        } else if j == 22 {
            reveal_strlit("math.round_float");
            assert(legacy_id(22) == NodeTypeId::ROUND_FLOAT@);
            assert(NodeTypeId::COLOR_CONSTANT@.len() != NodeTypeId::ROUND_FLOAT@.len());
        } else if j == 23 {
            reveal_strlit("math.scale_tensor");
            assert(legacy_id(23) == NodeTypeId::SCALE_TENSOR@);
            assert(NodeTypeId::COLOR_CONSTANT@.len() != NodeTypeId::SCALE_TENSOR@.len());
        } else if j == 24 {
            reveal_strlit("frame_operations.scale");
            assert(legacy_id(24) == NodeTypeId::SCALE_COLOR@);
            assert(NodeTypeId::COLOR_CONSTANT@.len() != NodeTypeId::SCALE_COLOR@.len());
        } else if j == 25 {
            reveal_strlit("frame_operations.multiply");
            assert(legacy_id(25) == NodeTypeId::MULTIPLY_COLOR@);
            assert(NodeTypeId::COLOR_CONSTANT@.len() != NodeTypeId::MULTIPLY_COLOR@.len());
        } else if j == 26 {
            reveal_strlit("frame_operations.tint_frame");
            assert(legacy_id(26) == NodeTypeId::TINT_FRAME@);
            assert(NodeTypeId::COLOR_CONSTANT@.len() != NodeTypeId::TINT_FRAME@.len());
        } else if j == 27 {
            reveal_strlit("frame_operations.mask_frame");
            assert(legacy_id(27) == NodeTypeId::MASK_FRAME@);
            assert(NodeTypeId::COLOR_CONSTANT@.len() != NodeTypeId::MASK_FRAME@.len());
        } else if j == 28 {
            reveal_strlit("frame_operations.mix");
            assert(legacy_id(28) == NodeTypeId::MIX_COLOR@);
            assert(NodeTypeId::COLOR_CONSTANT@.len() != NodeTypeId::MIX_COLOR@.len());
        } else if j == 29 {
            reveal_strlit("frame_operations.alpha_over");
            assert(legacy_id(29) == NodeTypeId::ALPHA_OVER@);
            assert(NodeTypeId::COLOR_CONSTANT@.len() != NodeTypeId::ALPHA_OVER@.len());
        } else if j == 30 {
            reveal_strlit("temporal_filters.fade");
            assert(legacy_id(30) == NodeTypeId::FADE@);
            assert(NodeTypeId::COLOR_CONSTANT@[0] != NodeTypeId::FADE@[0]);
        } else if j == 31 {
            reveal_strlit("temporal_filters.moving_average");
            assert(legacy_id(31) == NodeTypeId::MOVING_AVERAGE@);
            assert(NodeTypeId::COLOR_CONSTANT@.len() != NodeTypeId::MOVING_AVERAGE@.len());
        } else if j == 32 {
            reveal_strlit("temporal_filters.moving_median");
            assert(legacy_id(32) == NodeTypeId::MOVING_MEDIAN@);
            assert(NodeTypeId::COLOR_CONSTANT@.len() != NodeTypeId::MOVING_MEDIAN@.len());
        } else if j == 33 {
            reveal_strlit("spatial_filters.box_blur");
            assert(legacy_id(33) == NodeTypeId::BOX_BLUR@);
            assert(NodeTypeId::COLOR_CONSTANT@.len() != NodeTypeId::BOX_BLUR@.len());
        } else if j == 34 {
            reveal_strlit("spatial_filters.gaussian_blur");
            assert(legacy_id(34) == NodeTypeId::GAUSSIAN_BLUR@);
            assert(NodeTypeId::COLOR_CONSTANT@.len() != NodeTypeId::GAUSSIAN_BLUR@.len());
        } else if j == 35 {
            reveal_strlit("spatial_filters.median_filter");
            assert(legacy_id(35) == NodeTypeId::MEDIAN_FILTER@);
            assert(NodeTypeId::COLOR_CONSTANT@.len() != NodeTypeId::MEDIAN_FILTER@.len());
        } else if j == 36 {
            reveal_strlit("generators.spectrum_analyzer");
            assert(legacy_id(36) == NodeTypeId::SPECTRUM_ANALYZER@);
            assert(NodeTypeId::COLOR_CONSTANT@.len() != NodeTypeId::SPECTRUM_ANALYZER@.len());
        } else if j == 37 {
            reveal_strlit("generators.solid_frame");
            assert(legacy_id(37) == NodeTypeId::SOLID_FRAME@);
            assert(NodeTypeId::COLOR_CONSTANT@.len() != NodeTypeId::SOLID_FRAME@.len());
        } else if j == 38 {
            reveal_strlit("generators.rainbow_sweep");
            assert(legacy_id(38) == NodeTypeId::RAINBOW_SWEEP@);
            assert(NodeTypeId::COLOR_CONSTANT@.len() != NodeTypeId::RAINBOW_SWEEP@.len());
        } else if j == 39 {
            reveal_strlit("generators.circle_sweep");
            assert(legacy_id(39) == NodeTypeId::CIRCLE_SWEEP@);
            assert(NodeTypeId::COLOR_CONSTANT@.len() != NodeTypeId::CIRCLE_SWEEP@.len());
        } else if j == 40 {
            reveal_strlit("generators.level_bar");
            assert(legacy_id(40) == NodeTypeId::LEVEL_BAR@);
            assert(NodeTypeId::COLOR_CONSTANT@.len() != NodeTypeId::LEVEL_BAR@.len());
        } else if j == 41 {
            reveal_strlit("generators.twinkle_stars");
            assert(legacy_id(41) == NodeTypeId::TWINKLE_STARS@);
            assert(NodeTypeId::COLOR_CONSTANT@.len() != NodeTypeId::TWINKLE_STARS@.len());
        } else if j == 42 {
            reveal_strlit("generators.plasma");
            assert(legacy_id(42) == NodeTypeId::PLASMA@);
            assert(NodeTypeId::COLOR_CONSTANT@.len() != NodeTypeId::PLASMA@.len());
        } else if j == 43 {
            reveal_strlit("generators.bouncing_balls");
            assert(legacy_id(43) == NodeTypeId::BOUNCING_BALLS@);
            assert(NodeTypeId::COLOR_CONSTANT@.len() != NodeTypeId::BOUNCING_BALLS@.len());
        } else if j == 44 {
            reveal_strlit("debug.wled_dummy_display");
            assert(legacy_id(44) == NodeTypeId::WLED_DUMMY_DISPLAY@);
            assert(NodeTypeId::COLOR_CONSTANT@.len() != NodeTypeId::WLED_DUMMY_DISPLAY@.len());
        } else if j == 45 {
            reveal_strlit("frame_operations.frame_brightness");
            assert(legacy_id(45) == NodeTypeId::FRAME_BRIGHTNESS@);
            assert(NodeTypeId::COLOR_CONSTANT@.len() != NodeTypeId::FRAME_BRIGHTNESS@.len());
        }
    }
}

proof fn lemma_legacy_id_2_distinct()
    ensures
        forall|j: int| 2 < j < LEGACY_NODE_COUNT ==> legacy_id(2) != #[trigger] legacy_id(j),
{
    reveal_strlit("outputs.display");
    assert(legacy_id(2) == NodeTypeId::DISPLAY@);
    assert forall|j: int| 2 < j < LEGACY_NODE_COUNT implies legacy_id(2) != #[trigger] legacy_id(j) by {
        if j == 3 {
            reveal_strlit("outputs.plot");
            assert(legacy_id(3) == NodeTypeId::PLOT@);
            assert(NodeTypeId::DISPLAY@.len() != NodeTypeId::PLOT@.len());
        } else if j == 4 {
            reveal_strlit("temporal_filters.delay");
            assert(legacy_id(4) == NodeTypeId::DELAY@);
            assert(NodeTypeId::DISPLAY@.len() != NodeTypeId::DELAY@.len());
        } else if j == 5 {
            reveal_strlit("outputs.wled_target");
            assert(legacy_id(5) == NodeTypeId::WLED_TARGET@);
            assert(NodeTypeId::DISPLAY@.len() != NodeTypeId::WLED_TARGET@.len());
        } else if j == 6 {
            reveal_strlit("inputs.wled_sink");
            assert(legacy_id(6) == NodeTypeId::WLED_SINK@);
            assert(NodeTypeId::DISPLAY@.len() != NodeTypeId::WLED_SINK@.len());
        } else if j == 7 {
            reveal_strlit("inputs.audio_fft_receiver");
            assert(legacy_id(7) == NodeTypeId::AUDIO_FFT_RECEIVER@);
            assert(NodeTypeId::DISPLAY@.len() != NodeTypeId::AUDIO_FFT_RECEIVER@.len());
        } else if j == 8 {
            reveal_strlit("inputs.ha_mqtt_number");
            assert(legacy_id(8) == NodeTypeId::HA_MQTT_NUMBER@);
            assert(NodeTypeId::DISPLAY@.len() != NodeTypeId::HA_MQTT_NUMBER@.len());
        } else if j == 9 {
            reveal_strlit("math.add_float");
            assert(legacy_id(9) == NodeTypeId::ADD_FLOAT@);
            assert(NodeTypeId::DISPLAY@.len() != NodeTypeId::ADD_FLOAT@.len());
        } else if j == 10 {
            reveal_strlit("math.subtract_float");
            assert(legacy_id(10) == NodeTypeId::SUBTRACT_FLOAT@);
            assert(NodeTypeId::DISPLAY@.len() != NodeTypeId::SUBTRACT_FLOAT@.len());
        } else if j == 11 {
            reveal_strlit("inputs.signal_generator");
            assert(legacy_id(11) == NodeTypeId::SIGNAL_GENERATOR@);
            assert(NodeTypeId::DISPLAY@.len() != NodeTypeId::SIGNAL_GENERATOR@.len());
        } else if j == 12 {
            reveal_strlit("math.divide_float");
            assert(legacy_id(12) == NodeTypeId::DIVIDE_FLOAT@);
            assert(NodeTypeId::DISPLAY@.len() != NodeTypeId::DIVIDE_FLOAT@.len());
        } else if j == 13 {
            reveal_strlit("math.min_max_float");
            assert(legacy_id(13) == NodeTypeId::MIN_MAX_FLOAT@);
            assert(NodeTypeId::DISPLAY@.len() != NodeTypeId::MIN_MAX_FLOAT@.len());
        } else if j == 14 {
            reveal_strlit("math.multiply_float");
            assert(legacy_id(14) == NodeTypeId::MULTIPLY_FLOAT@);
            assert(NodeTypeId::DISPLAY@.len() != NodeTypeId::MULTIPLY_FLOAT@.len());
        } else if j == 15 {
            reveal_strlit("math.abs_float");
            assert(legacy_id(15) == NodeTypeId::ABS_FLOAT@);
            assert(NodeTypeId::DISPLAY@.len() != NodeTypeId::ABS_FLOAT@.len());
        } else if j == 16 {
            reveal_strlit("math.clamp_float");
            assert(legacy_id(16) == NodeTypeId::CLAMP_FLOAT@);
            assert(NodeTypeId::DISPLAY@.len() != NodeTypeId::CLAMP_FLOAT@.len());
        } else if j == 17 {
            reveal_strlit("math.power_float");
            assert(legacy_id(17) == NodeTypeId::POWER_FLOAT@);
            assert(NodeTypeId::DISPLAY@.len() != NodeTypeId::POWER_FLOAT@.len());
        } else if j == 18 {
            reveal_strlit("math.root_float");
            assert(legacy_id(18) == NodeTypeId::ROOT_FLOAT@);
            assert(NodeTypeId::DISPLAY@[0] != NodeTypeId::ROOT_FLOAT@[0]);
        } else if j == 19 {
            reveal_strlit("math.exponential_float");
            assert(legacy_id(19) == NodeTypeId::EXPONENTIAL_FLOAT@);
            assert(NodeTypeId::DISPLAY@.len() != NodeTypeId::EXPONENTIAL_FLOAT@.len());
        } else if j == 20 {
            reveal_strlit("math.log_float");
            assert(legacy_id(20) == NodeTypeId::LOG_FLOAT@);
            assert(NodeTypeId::DISPLAY@.len() != NodeTypeId::LOG_FLOAT@.len());
        } else if j == 21 {
            reveal_strlit("math.map_range_float");
            assert(legacy_id(21) == NodeTypeId::MAP_RANGE_FLOAT@);
            assert(NodeTypeId::DISPLAY@.len() != NodeTypeId::MAP_RANGE_FLOAT@.len());
        } else if j == 22 {
            reveal_strlit("math.round_float");
            assert(legacy_id(22) == NodeTypeId::ROUND_FLOAT@);
            assert(NodeTypeId::DISPLAY@.len() != NodeTypeId::ROUND_FLOAT@.len());
        } else if j == 23 {
            reveal_strlit("math.scale_tensor");
            assert(legacy_id(23) == NodeTypeId::SCALE_TENSOR@);
            assert(NodeTypeId::DISPLAY@.len() != NodeTypeId::SCALE_TENSOR@.len());
        } else if j == 24 {
            reveal_strlit("frame_operations.scale");
            assert(legacy_id(24) == NodeTypeId::SCALE_COLOR@);
            assert(NodeTypeId::DISPLAY@.len() != NodeTypeId::SCALE_COLOR@.len());
        } else if j == 25 {
            reveal_strlit("frame_operations.multiply");
            assert(legacy_id(25) == NodeTypeId::MULTIPLY_COLOR@);
            assert(NodeTypeId::DISPLAY@.len() != NodeTypeId::MULTIPLY_COLOR@.len());
        } else if j == 26 {
            reveal_strlit("frame_operations.tint_frame");
            assert(legacy_id(26) == NodeTypeId::TINT_FRAME@);
            assert(NodeTypeId::DISPLAY@.len() != NodeTypeId::TINT_FRAME@.len());
        } else if j == 27 {
            reveal_strlit("frame_operations.mask_frame");
            assert(legacy_id(27) == NodeTypeId::MASK_FRAME@);
            assert(NodeTypeId::DISPLAY@.len() != NodeTypeId::MASK_FRAME@.len());
        } else if j == 28 {
            reveal_strlit("frame_operations.mix");
            assert(legacy_id(28) == NodeTypeId::MIX_COLOR@);
            assert(NodeTypeId::DISPLAY@.len() != NodeTypeId::MIX_COLOR@.len());
        } else if j == 29 {
            reveal_strlit("frame_operations.alpha_over");
            assert(legacy_id(29) == NodeTypeId::ALPHA_OVER@);
            assert(NodeTypeId::DISPLAY@.len() != NodeTypeId::ALPHA_OVER@.len());
        } else if j == 30 {
            reveal_strlit("temporal_filters.fade");
            assert(legacy_id(30) == NodeTypeId::FADE@);
            assert(NodeTypeId::DISPLAY@.len() != NodeTypeId::FADE@.len());
        } else if j == 31 {
            reveal_strlit("temporal_filters.moving_average");
            assert(legacy_id(31) == NodeTypeId::MOVING_AVERAGE@);
            assert(NodeTypeId::DISPLAY@.len() != NodeTypeId::MOVING_AVERAGE@.len());
        } else if j == 32 {
            reveal_strlit("temporal_filters.moving_median");
            assert(legacy_id(32) == NodeTypeId::MOVING_MEDIAN@);
            assert(NodeTypeId::DISPLAY@.len() != NodeTypeId::MOVING_MEDIAN@.len());
        } else if j == 33 {
            reveal_strlit("spatial_filters.box_blur");
            assert(legacy_id(33) == NodeTypeId::BOX_BLUR@);
            assert(NodeTypeId::DISPLAY@.len() != NodeTypeId::BOX_BLUR@.len());
        } else if j == 34 {
            reveal_strlit("spatial_filters.gaussian_blur");
            assert(legacy_id(34) == NodeTypeId::GAUSSIAN_BLUR@);
            assert(NodeTypeId::DISPLAY@.len() != NodeTypeId::GAUSSIAN_BLUR@.len());
        } else if j == 35 {
            reveal_strlit("spatial_filters.median_filter");
            assert(legacy_id(35) == NodeTypeId::MEDIAN_FILTER@);
            assert(NodeTypeId::DISPLAY@.len() != NodeTypeId::MEDIAN_FILTER@.len());
        } else if j == 36 {
            reveal_strlit("generators.spectrum_analyzer");
            assert(legacy_id(36) == NodeTypeId::SPECTRUM_ANALYZER@);
            assert(NodeTypeId::DISPLAY@.len() != NodeTypeId::SPECTRUM_ANALYZER@.len());
        } else if j == 37 {
            reveal_strlit("generators.solid_frame");
            assert(legacy_id(37) == NodeTypeId::SOLID_FRAME@);
            assert(NodeTypeId::DISPLAY@.len() != NodeTypeId::SOLID_FRAME@.len());
        } else if j == 38 {
            reveal_strlit("generators.rainbow_sweep");
            assert(legacy_id(38) == NodeTypeId::RAINBOW_SWEEP@);
            assert(NodeTypeId::DISPLAY@.len() != NodeTypeId::RAINBOW_SWEEP@.len());
        } else if j == 39 {
            reveal_strlit("generators.circle_sweep");
            assert(legacy_id(39) == NodeTypeId::CIRCLE_SWEEP@);
            assert(NodeTypeId::DISPLAY@.len() != NodeTypeId::CIRCLE_SWEEP@.len());
        } else if j == 40 {
            reveal_strlit("generators.level_bar");
            assert(legacy_id(40) == NodeTypeId::LEVEL_BAR@);
            assert(NodeTypeId::DISPLAY@.len() != NodeTypeId::LEVEL_BAR@.len());
        } else if j == 41 {
            reveal_strlit("generators.twinkle_stars");
            assert(legacy_id(41) == NodeTypeId::TWINKLE_STARS@);
            assert(NodeTypeId::DISPLAY@.len() != NodeTypeId::TWINKLE_STARS@.len());
        } else if j == 42 {
            reveal_strlit("generators.plasma");
            assert(legacy_id(42) == NodeTypeId::PLASMA@);
            assert(NodeTypeId::DISPLAY@.len() != NodeTypeId::PLASMA@.len());
        } else if j == 43 {
            reveal_strlit("generators.bouncing_balls");
            assert(legacy_id(43) == NodeTypeId::BOUNCING_BALLS@);
            assert(NodeTypeId::DISPLAY@.len() != NodeTypeId::BOUNCING_BALLS@.len());
        } else if j == 44 {
            reveal_strlit("debug.wled_dummy_display");
            assert(legacy_id(44) == NodeTypeId::WLED_DUMMY_DISPLAY@);
            assert(NodeTypeId::DISPLAY@.len() != NodeTypeId::WLED_DUMMY_DISPLAY@.len());
        } else if j == 45 {
            reveal_strlit("frame_operations.frame_brightness");
            assert(legacy_id(45) == NodeTypeId::FRAME_BRIGHTNESS@);
            assert(NodeTypeId::DISPLAY@.len() != NodeTypeId::FRAME_BRIGHTNESS@.len());
        }
    }
}

proof fn lemma_legacy_id_3_distinct()
    ensures
        forall|j: int| 3 < j < LEGACY_NODE_COUNT ==> legacy_id(3) != #[trigger] legacy_id(j),
{
    reveal_strlit("outputs.plot");
    assert(legacy_id(3) == NodeTypeId::PLOT@);
    assert forall|j: int| 3 < j < LEGACY_NODE_COUNT implies legacy_id(3) != #[trigger] legacy_id(j) by {
        if j == 4 {
            reveal_strlit("temporal_filters.delay");
            assert(legacy_id(4) == NodeTypeId::DELAY@);
            assert(NodeTypeId::PLOT@.len() != NodeTypeId::DELAY@.len());
        } else if j == 5 {
            reveal_strlit("outputs.wled_target");
            assert(legacy_id(5) == NodeTypeId::WLED_TARGET@);
            assert(NodeTypeId::PLOT@.len() != NodeTypeId::WLED_TARGET@.len());
        } else if j == 6 {
            reveal_strlit("inputs.wled_sink");
            assert(legacy_id(6) == NodeTypeId::WLED_SINK@);
            assert(NodeTypeId::PLOT@.len() != NodeTypeId::WLED_SINK@.len());
        } else if j == 7 {
            reveal_strlit("inputs.audio_fft_receiver");
            assert(legacy_id(7) == NodeTypeId::AUDIO_FFT_RECEIVER@);
            assert(NodeTypeId::PLOT@.len() != NodeTypeId::AUDIO_FFT_RECEIVER@.len());
        } else if j == 8 {
            reveal_strlit("inputs.ha_mqtt_number");
            assert(legacy_id(8) == NodeTypeId::HA_MQTT_NUMBER@);
            assert(NodeTypeId::PLOT@.len() != NodeTypeId::HA_MQTT_NUMBER@.len());
        } else if j == 9 {
            reveal_strlit("math.add_float");
            assert(legacy_id(9) == NodeTypeId::ADD_FLOAT@);
            assert(NodeTypeId::PLOT@.len() != NodeTypeId::ADD_FLOAT@.len());
        } else if j == 10 {
            reveal_strlit("math.subtract_float");
            assert(legacy_id(10) == NodeTypeId::SUBTRACT_FLOAT@);
            assert(NodeTypeId::PLOT@.len() != NodeTypeId::SUBTRACT_FLOAT@.len());
        } else if j == 11 {
            reveal_strlit("inputs.signal_generator");
            assert(legacy_id(11) == NodeTypeId::SIGNAL_GENERATOR@);
            assert(NodeTypeId::PLOT@.len() != NodeTypeId::SIGNAL_GENERATOR@.len());
        } else if j == 12 {
            reveal_strlit("math.divide_float");
            assert(legacy_id(12) == NodeTypeId::DIVIDE_FLOAT@);
            assert(NodeTypeId::PLOT@.len() != NodeTypeId::DIVIDE_FLOAT@.len());
        } else if j == 13 {
            reveal_strlit("math.min_max_float");
            assert(legacy_id(13) == NodeTypeId::MIN_MAX_FLOAT@);
            assert(NodeTypeId::PLOT@.len() != NodeTypeId::MIN_MAX_FLOAT@.len());
        } else if j == 14 {
            reveal_strlit("math.multiply_float");
            assert(legacy_id(14) == NodeTypeId::MULTIPLY_FLOAT@);
            assert(NodeTypeId::PLOT@.len() != NodeTypeId::MULTIPLY_FLOAT@.len());
        } else if j == 15 {
            reveal_strlit("math.abs_float");
            assert(legacy_id(15) == NodeTypeId::ABS_FLOAT@);
            assert(NodeTypeId::PLOT@.len() != NodeTypeId::ABS_FLOAT@.len());
        } else if j == 16 {
            reveal_strlit("math.clamp_float");
            assert(legacy_id(16) == NodeTypeId::CLAMP_FLOAT@);
            assert(NodeTypeId::PLOT@.len() != NodeTypeId::CLAMP_FLOAT@.len());
        } else if j == 17 {
            reveal_strlit("math.power_float");
            assert(legacy_id(17) == NodeTypeId::POWER_FLOAT@);
            assert(NodeTypeId::PLOT@.len() != NodeTypeId::POWER_FLOAT@.len());
        } else if j == 18 {
            reveal_strlit("math.root_float");
            assert(legacy_id(18) == NodeTypeId::ROOT_FLOAT@);
            assert(NodeTypeId::PLOT@.len() != NodeTypeId::ROOT_FLOAT@.len());
        } else if j == 19 {
            reveal_strlit("math.exponential_float");
            assert(legacy_id(19) == NodeTypeId::EXPONENTIAL_FLOAT@);
            assert(NodeTypeId::PLOT@.len() != NodeTypeId::EXPONENTIAL_FLOAT@.len());
        } else if j == 20 {
            reveal_strlit("math.log_float");
            assert(legacy_id(20) == NodeTypeId::LOG_FLOAT@);
            assert(NodeTypeId::PLOT@.len() != NodeTypeId::LOG_FLOAT@.len());
        } else if j == 21 {
            reveal_strlit("math.map_range_float");
            assert(legacy_id(21) == NodeTypeId::MAP_RANGE_FLOAT@);
            assert(NodeTypeId::PLOT@.len() != NodeTypeId::MAP_RANGE_FLOAT@.len());
        } else if j == 22 {
            reveal_strlit("math.round_float");
            assert(legacy_id(22) == NodeTypeId::ROUND_FLOAT@);
            assert(NodeTypeId::PLOT@.len() != NodeTypeId::ROUND_FLOAT@.len());
        } else if j == 23 {
            reveal_strlit("math.scale_tensor");
            assert(legacy_id(23) == NodeTypeId::SCALE_TENSOR@);
            assert(NodeTypeId::PLOT@.len() != NodeTypeId::SCALE_TENSOR@.len());
        } else if j == 24 {
            reveal_strlit("frame_operations.scale");
            assert(legacy_id(24) == NodeTypeId::SCALE_COLOR@);
            assert(NodeTypeId::PLOT@.len() != NodeTypeId::SCALE_COLOR@.len());
        } else if j == 25 {
            reveal_strlit("frame_operations.multiply");
            assert(legacy_id(25) == NodeTypeId::MULTIPLY_COLOR@);
            assert(NodeTypeId::PLOT@.len() != NodeTypeId::MULTIPLY_COLOR@.len());
        } else if j == 26 {
            reveal_strlit("frame_operations.tint_frame");
            assert(legacy_id(26) == NodeTypeId::TINT_FRAME@);
            assert(NodeTypeId::PLOT@.len() != NodeTypeId::TINT_FRAME@.len());
        } else if j == 27 {
            reveal_strlit("frame_operations.mask_frame");
            assert(legacy_id(27) == NodeTypeId::MASK_FRAME@);
            assert(NodeTypeId::PLOT@.len() != NodeTypeId::MASK_FRAME@.len());
        } else if j == 28 {
            reveal_strlit("frame_operations.mix");
            assert(legacy_id(28) == NodeTypeId::MIX_COLOR@);
            assert(NodeTypeId::PLOT@.len() != NodeTypeId::MIX_COLOR@.len());
        } else if j == 29 {
            reveal_strlit("frame_operations.alpha_over");
            assert(legacy_id(29) == NodeTypeId::ALPHA_OVER@);
            assert(NodeTypeId::PLOT@.len() != NodeTypeId::ALPHA_OVER@.len());
        } else if j == 30 {
            reveal_strlit("temporal_filters.fade");
            assert(legacy_id(30) == NodeTypeId::FADE@);
            assert(NodeTypeId::PLOT@.len() != NodeTypeId::FADE@.len());
        } else if j == 31 {
            reveal_strlit("temporal_filters.moving_average");
            assert(legacy_id(31) == NodeTypeId::MOVING_AVERAGE@);
            assert(NodeTypeId::PLOT@.len() != NodeTypeId::MOVING_AVERAGE@.len());
        } else if j == 32 {
            reveal_strlit("temporal_filters.moving_median");
            assert(legacy_id(32) == NodeTypeId::MOVING_MEDIAN@);
            assert(NodeTypeId::PLOT@.len() != NodeTypeId::MOVING_MEDIAN@.len());
        } else if j == 33 {
            reveal_strlit("spatial_filters.box_blur");
            assert(legacy_id(33) == NodeTypeId::BOX_BLUR@);
            assert(NodeTypeId::PLOT@.len() != NodeTypeId::BOX_BLUR@.len());
        } else if j == 34 {
            reveal_strlit("spatial_filters.gaussian_blur");
            assert(legacy_id(34) == NodeTypeId::GAUSSIAN_BLUR@);
            assert(NodeTypeId::PLOT@.len() != NodeTypeId::GAUSSIAN_BLUR@.len());
        } else if j == 35 {
            reveal_strlit("spatial_filters.median_filter");
            assert(legacy_id(35) == NodeTypeId::MEDIAN_FILTER@);
            assert(NodeTypeId::PLOT@.len() != NodeTypeId::MEDIAN_FILTER@.len());
        } else if j == 36 {
            reveal_strlit("generators.spectrum_analyzer");
            assert(legacy_id(36) == NodeTypeId::SPECTRUM_ANALYZER@);
            assert(NodeTypeId::PLOT@.len() != NodeTypeId::SPECTRUM_ANALYZER@.len());
        } else if j == 37 {
            reveal_strlit("generators.solid_frame");
            assert(legacy_id(37) == NodeTypeId::SOLID_FRAME@);
            assert(NodeTypeId::PLOT@.len() != NodeTypeId::SOLID_FRAME@.len());
        } else if j == 38 {
            reveal_strlit("generators.rainbow_sweep");
            assert(legacy_id(38) == NodeTypeId::RAINBOW_SWEEP@);
            assert(NodeTypeId::PLOT@.len() != NodeTypeId::RAINBOW_SWEEP@.len());
        } else if j == 39 {
            reveal_strlit("generators.circle_sweep");
            assert(legacy_id(39) == NodeTypeId::CIRCLE_SWEEP@);
            assert(NodeTypeId::PLOT@.len() != NodeTypeId::CIRCLE_SWEEP@.len());
        } else if j == 40 {
            reveal_strlit("generators.level_bar");
            assert(legacy_id(40) == NodeTypeId::LEVEL_BAR@);
            assert(NodeTypeId::PLOT@.len() != NodeTypeId::LEVEL_BAR@.len());
        } else if j == 41 {
            reveal_strlit("generators.twinkle_stars");
            assert(legacy_id(41) == NodeTypeId::TWINKLE_STARS@);
            assert(NodeTypeId::PLOT@.len() != NodeTypeId::TWINKLE_STARS@.len());
        } else if j == 42 {
            reveal_strlit("generators.plasma");
            assert(legacy_id(42) == NodeTypeId::PLASMA@);
            assert(NodeTypeId::PLOT@.len() != NodeTypeId::PLASMA@.len());
        } else if j == 43 {
            reveal_strlit("generators.bouncing_balls");
            assert(legacy_id(43) == NodeTypeId::BOUNCING_BALLS@);
            assert(NodeTypeId::PLOT@.len() != NodeTypeId::BOUNCING_BALLS@.len());
        } else if j == 44 {
            reveal_strlit("debug.wled_dummy_display");
            assert(legacy_id(44) == NodeTypeId::WLED_DUMMY_DISPLAY@);
            assert(NodeTypeId::PLOT@.len() != NodeTypeId::WLED_DUMMY_DISPLAY@.len());
        } else if j == 45 {
            reveal_strlit("frame_operations.frame_brightness");
            assert(legacy_id(45) == NodeTypeId::FRAME_BRIGHTNESS@);
            assert(NodeTypeId::PLOT@.len() != NodeTypeId::FRAME_BRIGHTNESS@.len());
        }
    }
}

proof fn lemma_legacy_id_4_distinct()
    ensures
        forall|j: int| 4 < j < LEGACY_NODE_COUNT ==> legacy_id(4) != #[trigger] legacy_id(j),
{
    reveal_strlit("temporal_filters.delay");
    assert(legacy_id(4) == NodeTypeId::DELAY@);
    assert forall|j: int| 4 < j < LEGACY_NODE_COUNT implies legacy_id(4) != #[trigger] legacy_id(j) by {
        if j == 5 {
            reveal_strlit("outputs.wled_target");
            assert(legacy_id(5) == NodeTypeId::WLED_TARGET@);
            assert(NodeTypeId::DELAY@.len() != NodeTypeId::WLED_TARGET@.len());
        } else if j == 6 {
            reveal_strlit("inputs.wled_sink");
            assert(legacy_id(6) == NodeTypeId::WLED_SINK@);
            assert(NodeTypeId::DELAY@.len() != NodeTypeId::WLED_SINK@.len());
        } else if j == 7 {
            reveal_strlit("inputs.audio_fft_receiver");
            assert(legacy_id(7) == NodeTypeId::AUDIO_FFT_RECEIVER@);
            assert(NodeTypeId::DELAY@.len() != NodeTypeId::AUDIO_FFT_RECEIVER@.len());
        } else if j == 8 {
            reveal_strlit("inputs.ha_mqtt_number");
            assert(legacy_id(8) == NodeTypeId::HA_MQTT_NUMBER@);
            assert(NodeTypeId::DELAY@.len() != NodeTypeId::HA_MQTT_NUMBER@.len());
        } else if j == 9 {
            reveal_strlit("math.add_float");
            assert(legacy_id(9) == NodeTypeId::ADD_FLOAT@);
            assert(NodeTypeId::DELAY@.len() != NodeTypeId::ADD_FLOAT@.len());
        } else if j == 10 {
            reveal_strlit("math.subtract_float");
            assert(legacy_id(10) == NodeTypeId::SUBTRACT_FLOAT@);
            assert(NodeTypeId::DELAY@.len() != NodeTypeId::SUBTRACT_FLOAT@.len());
        } else if j == 11 {
            reveal_strlit("inputs.signal_generator");
            assert(legacy_id(11) == NodeTypeId::SIGNAL_GENERATOR@);
            assert(NodeTypeId::DELAY@.len() != NodeTypeId::SIGNAL_GENERATOR@.len());
        } else if j == 12 {
            reveal_strlit("math.divide_float");
            assert(legacy_id(12) == NodeTypeId::DIVIDE_FLOAT@);
            assert(NodeTypeId::DELAY@.len() != NodeTypeId::DIVIDE_FLOAT@.len());
        } else if j == 13 {
            reveal_strlit("math.min_max_float");
            assert(legacy_id(13) == NodeTypeId::MIN_MAX_FLOAT@);
            assert(NodeTypeId::DELAY@.len() != NodeTypeId::MIN_MAX_FLOAT@.len());
        } else if j == 14 {
            reveal_strlit("math.multiply_float");
            assert(legacy_id(14) == NodeTypeId::MULTIPLY_FLOAT@);
            assert(NodeTypeId::DELAY@.len() != NodeTypeId::MULTIPLY_FLOAT@.len());
        } else if j == 15 {
            reveal_strlit("math.abs_float");
            assert(legacy_id(15) == NodeTypeId::ABS_FLOAT@);
            assert(NodeTypeId::DELAY@.len() != NodeTypeId::ABS_FLOAT@.len());
        } else if j == 16 {
            reveal_strlit("math.clamp_float");
            assert(legacy_id(16) == NodeTypeId::CLAMP_FLOAT@);
            assert(NodeTypeId::DELAY@.len() != NodeTypeId::CLAMP_FLOAT@.len());
        } else if j == 17 {
            reveal_strlit("math.power_float");
            assert(legacy_id(17) == NodeTypeId::POWER_FLOAT@);
            assert(NodeTypeId::DELAY@.len() != NodeTypeId::POWER_FLOAT@.len());
        } else if j == 18 {
            reveal_strlit("math.root_float");
            assert(legacy_id(18) == NodeTypeId::ROOT_FLOAT@);
            assert(NodeTypeId::DELAY@.len() != NodeTypeId::ROOT_FLOAT@.len());
        } else if j == 19 {
            reveal_strlit("math.exponential_float");
            assert(legacy_id(19) == NodeTypeId::EXPONENTIAL_FLOAT@);
            assert(NodeTypeId::DELAY@[0] != NodeTypeId::EXPONENTIAL_FLOAT@[0]);
        } else if j == 20 {
            reveal_strlit("math.log_float");
            assert(legacy_id(20) == NodeTypeId::LOG_FLOAT@);
            assert(NodeTypeId::DELAY@.len() != NodeTypeId::LOG_FLOAT@.len());
        } else if j == 21 {
            reveal_strlit("math.map_range_float");
            assert(legacy_id(21) == NodeTypeId::MAP_RANGE_FLOAT@);
            assert(NodeTypeId::DELAY@.len() != NodeTypeId::MAP_RANGE_FLOAT@.len());
        } else if j == 22 {
            reveal_strlit("math.round_float");
            assert(legacy_id(22) == NodeTypeId::ROUND_FLOAT@);
            assert(NodeTypeId::DELAY@.len() != NodeTypeId::ROUND_FLOAT@.len());
        } else if j == 23 {
            reveal_strlit("math.scale_tensor");
            assert(legacy_id(23) == NodeTypeId::SCALE_TENSOR@);
            assert(NodeTypeId::DELAY@.len() != NodeTypeId::SCALE_TENSOR@.len());
        } else if j == 24 {
            reveal_strlit("frame_operations.scale");
            assert(legacy_id(24) == NodeTypeId::SCALE_COLOR@);
            assert(NodeTypeId::DELAY@[0] != NodeTypeId::SCALE_COLOR@[0]);
        } else if j == 25 {
            reveal_strlit("frame_operations.multiply");
            assert(legacy_id(25) == NodeTypeId::MULTIPLY_COLOR@);
            assert(NodeTypeId::DELAY@.len() != NodeTypeId::MULTIPLY_COLOR@.len());
        } else if j == 26 {
            reveal_strlit("frame_operations.tint_frame");
            assert(legacy_id(26) == NodeTypeId::TINT_FRAME@);
            assert(NodeTypeId::DELAY@.len() != NodeTypeId::TINT_FRAME@.len());
        } else if j == 27 {
            reveal_strlit("frame_operations.mask_frame");
            assert(legacy_id(27) == NodeTypeId::MASK_FRAME@);
            assert(NodeTypeId::DELAY@.len() != NodeTypeId::MASK_FRAME@.len());
        } else if j == 28 {
            reveal_strlit("frame_operations.mix");
            assert(legacy_id(28) == NodeTypeId::MIX_COLOR@);
            assert(NodeTypeId::DELAY@.len() != NodeTypeId::MIX_COLOR@.len());
        } else if j == 29 {
            reveal_strlit("frame_operations.alpha_over");
            assert(legacy_id(29) == NodeTypeId::ALPHA_OVER@);
            assert(NodeTypeId::DELAY@.len() != NodeTypeId::ALPHA_OVER@.len());
        } else if j == 30 {
            reveal_strlit("temporal_filters.fade");
            assert(legacy_id(30) == NodeTypeId::FADE@);
            assert(NodeTypeId::DELAY@.len() != NodeTypeId::FADE@.len());
        } else if j == 31 {
            reveal_strlit("temporal_filters.moving_average");
            assert(legacy_id(31) == NodeTypeId::MOVING_AVERAGE@);
            assert(NodeTypeId::DELAY@.len() != NodeTypeId::MOVING_AVERAGE@.len());
        } else if j == 32 {
            reveal_strlit("temporal_filters.moving_median");
            assert(legacy_id(32) == NodeTypeId::MOVING_MEDIAN@);
            assert(NodeTypeId::DELAY@.len() != NodeTypeId::MOVING_MEDIAN@.len());
        } else if j == 33 {
            reveal_strlit("spatial_filters.box_blur");
            assert(legacy_id(33) == NodeTypeId::BOX_BLUR@);
            assert(NodeTypeId::DELAY@.len() != NodeTypeId::BOX_BLUR@.len());
        } else if j == 34 {
            reveal_strlit("spatial_filters.gaussian_blur");
            assert(legacy_id(34) == NodeTypeId::GAUSSIAN_BLUR@);
            assert(NodeTypeId::DELAY@.len() != NodeTypeId::GAUSSIAN_BLUR@.len());
        } else if j == 35 {
            reveal_strlit("spatial_filters.median_filter");
            assert(legacy_id(35) == NodeTypeId::MEDIAN_FILTER@);
            assert(NodeTypeId::DELAY@.len() != NodeTypeId::MEDIAN_FILTER@.len());
        } else if j == 36 {
            reveal_strlit("generators.spectrum_analyzer");
            assert(legacy_id(36) == NodeTypeId::SPECTRUM_ANALYZER@);
            assert(NodeTypeId::DELAY@.len() != NodeTypeId::SPECTRUM_ANALYZER@.len());
        } else if j == 37 {
            reveal_strlit("generators.solid_frame");
            assert(legacy_id(37) == NodeTypeId::SOLID_FRAME@);
            assert(NodeTypeId::DELAY@[0] != NodeTypeId::SOLID_FRAME@[0]);
        } else if j == 38 {
            reveal_strlit("generators.rainbow_sweep");
            assert(legacy_id(38) == NodeTypeId::RAINBOW_SWEEP@);
            assert(NodeTypeId::DELAY@.len() != NodeTypeId::RAINBOW_SWEEP@.len());
        } else if j == 39 {
            reveal_strlit("generators.circle_sweep");
            assert(legacy_id(39) == NodeTypeId::CIRCLE_SWEEP@);
            assert(NodeTypeId::DELAY@.len() != NodeTypeId::CIRCLE_SWEEP@.len());
        } else if j == 40 {
            reveal_strlit("generators.level_bar");
            assert(legacy_id(40) == NodeTypeId::LEVEL_BAR@);
            assert(NodeTypeId::DELAY@.len() != NodeTypeId::LEVEL_BAR@.len());
        } else if j == 41 {
            reveal_strlit("generators.twinkle_stars");
            assert(legacy_id(41) == NodeTypeId::TWINKLE_STARS@);
            assert(NodeTypeId::DELAY@.len() != NodeTypeId::TWINKLE_STARS@.len());
        } else if j == 42 {
            reveal_strlit("generators.plasma");
            assert(legacy_id(42) == NodeTypeId::PLASMA@);
            assert(NodeTypeId::DELAY@.len() != NodeTypeId::PLASMA@.len());
        } else if j == 43 {
            reveal_strlit("generators.bouncing_balls");
            assert(legacy_id(43) == NodeTypeId::BOUNCING_BALLS@);
            assert(NodeTypeId::DELAY@.len() != NodeTypeId::BOUNCING_BALLS@.len());
        } else if j == 44 {
            reveal_strlit("debug.wled_dummy_display");
            assert(legacy_id(44) == NodeTypeId::WLED_DUMMY_DISPLAY@);
            assert(NodeTypeId::DELAY@.len() != NodeTypeId::WLED_DUMMY_DISPLAY@.len());
        } else if j == 45 {
            reveal_strlit("frame_operations.frame_brightness");
            assert(legacy_id(45) == NodeTypeId::FRAME_BRIGHTNESS@);
            assert(NodeTypeId::DELAY@.len() != NodeTypeId::FRAME_BRIGHTNESS@.len());
        }
    }
}

proof fn lemma_legacy_id_5_distinct()
    ensures
        forall|j: int| 5 < j < LEGACY_NODE_COUNT ==> legacy_id(5) != #[trigger] legacy_id(j),
{
    reveal_strlit("outputs.wled_target");
    assert(legacy_id(5) == NodeTypeId::WLED_TARGET@);
    assert forall|j: int| 5 < j < LEGACY_NODE_COUNT implies legacy_id(5) != #[trigger] legacy_id(j) by {
        if j == 6 {
            reveal_strlit("inputs.wled_sink");
            assert(legacy_id(6) == NodeTypeId::WLED_SINK@);
            assert(NodeTypeId::WLED_TARGET@.len() != NodeTypeId::WLED_SINK@.len());
        } else if j == 7 {
            reveal_strlit("inputs.audio_fft_receiver");
            assert(legacy_id(7) == NodeTypeId::AUDIO_FFT_RECEIVER@);
            assert(NodeTypeId::WLED_TARGET@.len() != NodeTypeId::AUDIO_FFT_RECEIVER@.len());
        } else if j == 8 {
            reveal_strlit("inputs.ha_mqtt_number");
            assert(legacy_id(8) == NodeTypeId::HA_MQTT_NUMBER@);
            assert(NodeTypeId::WLED_TARGET@.len() != NodeTypeId::HA_MQTT_NUMBER@.len());
        } else if j == 9 {
            reveal_strlit("math.add_float");
            assert(legacy_id(9) == NodeTypeId::ADD_FLOAT@);
            assert(NodeTypeId::WLED_TARGET@.len() != NodeTypeId::ADD_FLOAT@.len());
        } else if j == 10 {
            reveal_strlit("math.subtract_float");
            assert(legacy_id(10) == NodeTypeId::SUBTRACT_FLOAT@);
            assert(NodeTypeId::WLED_TARGET@[0] != NodeTypeId::SUBTRACT_FLOAT@[0]);
        } else if j == 11 {
            reveal_strlit("inputs.signal_generator");
            assert(legacy_id(11) == NodeTypeId::SIGNAL_GENERATOR@);
            assert(NodeTypeId::WLED_TARGET@.len() != NodeTypeId::SIGNAL_GENERATOR@.len());
        } else if j == 12 {
            reveal_strlit("math.divide_float");
            assert(legacy_id(12) == NodeTypeId::DIVIDE_FLOAT@);
            assert(NodeTypeId::WLED_TARGET@.len() != NodeTypeId::DIVIDE_FLOAT@.len());
        } else if j == 13 {
            reveal_strlit("math.min_max_float");
            assert(legacy_id(13) == NodeTypeId::MIN_MAX_FLOAT@);
            assert(NodeTypeId::WLED_TARGET@.len() != NodeTypeId::MIN_MAX_FLOAT@.len());
        } else if j == 14 {
            reveal_strlit("math.multiply_float");
            assert(legacy_id(14) == NodeTypeId::MULTIPLY_FLOAT@);
            assert(NodeTypeId::WLED_TARGET@[0] != NodeTypeId::MULTIPLY_FLOAT@[0]);
        } else if j == 15 {
            reveal_strlit("math.abs_float");
            assert(legacy_id(15) == NodeTypeId::ABS_FLOAT@);
            assert(NodeTypeId::WLED_TARGET@.len() != NodeTypeId::ABS_FLOAT@.len());
        } else if j == 16 {
            reveal_strlit("math.clamp_float");
            assert(legacy_id(16) == NodeTypeId::CLAMP_FLOAT@);
            assert(NodeTypeId::WLED_TARGET@.len() != NodeTypeId::CLAMP_FLOAT@.len());
        } else if j == 17 {
            reveal_strlit("math.power_float");
            assert(legacy_id(17) == NodeTypeId::POWER_FLOAT@);
            assert(NodeTypeId::WLED_TARGET@.len() != NodeTypeId::POWER_FLOAT@.len());
        } else if j == 18 {
            reveal_strlit("math.root_float");
            assert(legacy_id(18) == NodeTypeId::ROOT_FLOAT@);
            assert(NodeTypeId::WLED_TARGET@.len() != NodeTypeId::ROOT_FLOAT@.len());
        } else if j == 19 {
            reveal_strlit("math.exponential_float");
            assert(legacy_id(19) == NodeTypeId::EXPONENTIAL_FLOAT@);
            assert(NodeTypeId::WLED_TARGET@.len() != NodeTypeId::EXPONENTIAL_FLOAT@.len());
        } else if j == 20 {
            reveal_strlit("math.log_float");
            assert(legacy_id(20) == NodeTypeId::LOG_FLOAT@);
            assert(NodeTypeId::WLED_TARGET@.len() != NodeTypeId::LOG_FLOAT@.len());
        } else if j == 21 {
            reveal_strlit("math.map_range_float");
            assert(legacy_id(21) == NodeTypeId::MAP_RANGE_FLOAT@);
            assert(NodeTypeId::WLED_TARGET@.len() != NodeTypeId::MAP_RANGE_FLOAT@.len());
        } else if j == 22 {
            reveal_strlit("math.round_float");
            assert(legacy_id(22) == NodeTypeId::ROUND_FLOAT@);
            assert(NodeTypeId::WLED_TARGET@.len() != NodeTypeId::ROUND_FLOAT@.len());
        } else if j == 23 {
            reveal_strlit("math.scale_tensor");
            assert(legacy_id(23) == NodeTypeId::SCALE_TENSOR@);
            assert(NodeTypeId::WLED_TARGET@.len() != NodeTypeId::SCALE_TENSOR@.len());
        } else if j == 24 {
            reveal_strlit("frame_operations.scale");
            assert(legacy_id(24) == NodeTypeId::SCALE_COLOR@);
            assert(NodeTypeId::WLED_TARGET@.len() != NodeTypeId::SCALE_COLOR@.len());
        } else if j == 25 {
            reveal_strlit("frame_operations.multiply");
            assert(legacy_id(25) == NodeTypeId::MULTIPLY_COLOR@);
            assert(NodeTypeId::WLED_TARGET@.len() != NodeTypeId::MULTIPLY_COLOR@.len());
        } else if j == 26 {
            reveal_strlit("frame_operations.tint_frame");
            assert(legacy_id(26) == NodeTypeId::TINT_FRAME@);
            assert(NodeTypeId::WLED_TARGET@.len() != NodeTypeId::TINT_FRAME@.len());
        } else if j == 27 {
            reveal_strlit("frame_operations.mask_frame");
            assert(legacy_id(27) == NodeTypeId::MASK_FRAME@);
            assert(NodeTypeId::WLED_TARGET@.len() != NodeTypeId::MASK_FRAME@.len());
        } else if j == 28 {
            reveal_strlit("frame_operations.mix");
            assert(legacy_id(28) == NodeTypeId::MIX_COLOR@);
            assert(NodeTypeId::WLED_TARGET@.len() != NodeTypeId::MIX_COLOR@.len());
        } else if j == 29 {
            reveal_strlit("frame_operations.alpha_over");
            assert(legacy_id(29) == NodeTypeId::ALPHA_OVER@);
            assert(NodeTypeId::WLED_TARGET@.len() != NodeTypeId::ALPHA_OVER@.len());
        } else if j == 30 {
            reveal_strlit("temporal_filters.fade");
            assert(legacy_id(30) == NodeTypeId::FADE@);
            assert(NodeTypeId::WLED_TARGET@.len() != NodeTypeId::FADE@.len());
        } else if j == 31 {
            reveal_strlit("temporal_filters.moving_average");
            assert(legacy_id(31) == NodeTypeId::MOVING_AVERAGE@);
            assert(NodeTypeId::WLED_TARGET@.len() != NodeTypeId::MOVING_AVERAGE@.len());
        } else if j == 32 {
            reveal_strlit("temporal_filters.moving_median");
            assert(legacy_id(32) == NodeTypeId::MOVING_MEDIAN@);
            assert(NodeTypeId::WLED_TARGET@.len() != NodeTypeId::MOVING_MEDIAN@.len());
        } else if j == 33 {
            reveal_strlit("spatial_filters.box_blur");
            assert(legacy_id(33) == NodeTypeId::BOX_BLUR@);
            assert(NodeTypeId::WLED_TARGET@.len() != NodeTypeId::BOX_BLUR@.len());
        } else if j == 34 {
            reveal_strlit("spatial_filters.gaussian_blur");
            assert(legacy_id(34) == NodeTypeId::GAUSSIAN_BLUR@);
            assert(NodeTypeId::WLED_TARGET@.len() != NodeTypeId::GAUSSIAN_BLUR@.len());
        } else if j == 35 {
            reveal_strlit("spatial_filters.median_filter");
            assert(legacy_id(35) == NodeTypeId::MEDIAN_FILTER@);
            assert(NodeTypeId::WLED_TARGET@.len() != NodeTypeId::MEDIAN_FILTER@.len());
        } else if j == 36 {
            reveal_strlit("generators.spectrum_analyzer");
            assert(legacy_id(36) == NodeTypeId::SPECTRUM_ANALYZER@);
            assert(NodeTypeId::WLED_TARGET@.len() != NodeTypeId::SPECTRUM_ANALYZER@.len());
        } else if j == 37 {
            reveal_strlit("generators.solid_frame");
            assert(legacy_id(37) == NodeTypeId::SOLID_FRAME@);
            assert(NodeTypeId::WLED_TARGET@.len() != NodeTypeId::SOLID_FRAME@.len());
        } else if j == 38 {
            reveal_strlit("generators.rainbow_sweep");
            assert(legacy_id(38) == NodeTypeId::RAINBOW_SWEEP@);
            assert(NodeTypeId::WLED_TARGET@.len() != NodeTypeId::RAINBOW_SWEEP@.len());
        } else if j == 39 {
            reveal_strlit("generators.circle_sweep");
            assert(legacy_id(39) == NodeTypeId::CIRCLE_SWEEP@);
            assert(NodeTypeId::WLED_TARGET@.len() != NodeTypeId::CIRCLE_SWEEP@.len());
        } else if j == 40 {
            reveal_strlit("generators.level_bar");
            assert(legacy_id(40) == NodeTypeId::LEVEL_BAR@);
            assert(NodeTypeId::WLED_TARGET@.len() != NodeTypeId::LEVEL_BAR@.len());
        } else if j == 41 {
            reveal_strlit("generators.twinkle_stars");
            assert(legacy_id(41) == NodeTypeId::TWINKLE_STARS@);
            assert(NodeTypeId::WLED_TARGET@.len() != NodeTypeId::TWINKLE_STARS@.len());
        } else if j == 42 {
            reveal_strlit("generators.plasma");
            assert(legacy_id(42) == NodeTypeId::PLASMA@);
            assert(NodeTypeId::WLED_TARGET@.len() != NodeTypeId::PLASMA@.len());
        } else if j == 43 {
            reveal_strlit("generators.bouncing_balls");
            assert(legacy_id(43) == NodeTypeId::BOUNCING_BALLS@);
            assert(NodeTypeId::WLED_TARGET@.len() != NodeTypeId::BOUNCING_BALLS@.len());
        } else if j == 44 {
            reveal_strlit("debug.wled_dummy_display");
            assert(legacy_id(44) == NodeTypeId::WLED_DUMMY_DISPLAY@);
            assert(NodeTypeId::WLED_TARGET@.len() != NodeTypeId::WLED_DUMMY_DISPLAY@.len());
        } else if j == 45 {
            reveal_strlit("frame_operations.frame_brightness");
            assert(legacy_id(45) == NodeTypeId::FRAME_BRIGHTNESS@);
            assert(NodeTypeId::WLED_TARGET@.len() != NodeTypeId::FRAME_BRIGHTNESS@.len());
        }
    }
}

proof fn lemma_legacy_id_6_distinct()
    ensures
        forall|j: int| 6 < j < LEGACY_NODE_COUNT ==> legacy_id(6) != #[trigger] legacy_id(j),
{
    reveal_strlit("inputs.wled_sink");
    assert(legacy_id(6) == NodeTypeId::WLED_SINK@);
    assert forall|j: int| 6 < j < LEGACY_NODE_COUNT implies legacy_id(6) != #[trigger] legacy_id(j) by {
        if j == 7 {
            reveal_strlit("inputs.audio_fft_receiver");
            assert(legacy_id(7) == NodeTypeId::AUDIO_FFT_RECEIVER@);
            assert(NodeTypeId::WLED_SINK@.len() != NodeTypeId::AUDIO_FFT_RECEIVER@.len());
        } else if j == 8 {
            reveal_strlit("inputs.ha_mqtt_number");
            assert(legacy_id(8) == NodeTypeId::HA_MQTT_NUMBER@);
            assert(NodeTypeId::WLED_SINK@.len() != NodeTypeId::HA_MQTT_NUMBER@.len());
        } else if j == 9 {
            reveal_strlit("math.add_float");
            assert(legacy_id(9) == NodeTypeId::ADD_FLOAT@);
            assert(NodeTypeId::WLED_SINK@.len() != NodeTypeId::ADD_FLOAT@.len());
        } else if j == 10 {
            reveal_strlit("math.subtract_float");
            assert(legacy_id(10) == NodeTypeId::SUBTRACT_FLOAT@);
            assert(NodeTypeId::WLED_SINK@.len() != NodeTypeId::SUBTRACT_FLOAT@.len());
        } else if j == 11 {
            reveal_strlit("inputs.signal_generator");
            assert(legacy_id(11) == NodeTypeId::SIGNAL_GENERATOR@);
            assert(NodeTypeId::WLED_SINK@.len() != NodeTypeId::SIGNAL_GENERATOR@.len());
        } else if j == 12 {
            reveal_strlit("math.divide_float");
            assert(legacy_id(12) == NodeTypeId::DIVIDE_FLOAT@);
            assert(NodeTypeId::WLED_SINK@.len() != NodeTypeId::DIVIDE_FLOAT@.len());
        } else if j == 13 {
            reveal_strlit("math.min_max_float");
            assert(legacy_id(13) == NodeTypeId::MIN_MAX_FLOAT@);
            assert(NodeTypeId::WLED_SINK@.len() != NodeTypeId::MIN_MAX_FLOAT@.len());
        } else if j == 14 {
            reveal_strlit("math.multiply_float");
            assert(legacy_id(14) == NodeTypeId::MULTIPLY_FLOAT@);
            assert(NodeTypeId::WLED_SINK@.len() != NodeTypeId::MULTIPLY_FLOAT@.len());
        } else if j == 15 {
            reveal_strlit("math.abs_float");
            assert(legacy_id(15) == NodeTypeId::ABS_FLOAT@);
            assert(NodeTypeId::WLED_SINK@.len() != NodeTypeId::ABS_FLOAT@.len());
        } else if j == 16 {
            reveal_strlit("math.clamp_float");
            assert(legacy_id(16) == NodeTypeId::CLAMP_FLOAT@);
            assert(NodeTypeId::WLED_SINK@[0] != NodeTypeId::CLAMP_FLOAT@[0]);
        } else if j == 17 {
            reveal_strlit("math.power_float");
            assert(legacy_id(17) == NodeTypeId::POWER_FLOAT@);
            assert(NodeTypeId::WLED_SINK@[0] != NodeTypeId::POWER_FLOAT@[0]);
        } else if j == 18 {
            reveal_strlit("math.root_float");
            assert(legacy_id(18) == NodeTypeId::ROOT_FLOAT@);
            assert(NodeTypeId::WLED_SINK@.len() != NodeTypeId::ROOT_FLOAT@.len());
        } else if j == 19 {
            reveal_strlit("math.exponential_float");
            assert(legacy_id(19) == NodeTypeId::EXPONENTIAL_FLOAT@);
            assert(NodeTypeId::WLED_SINK@.len() != NodeTypeId::EXPONENTIAL_FLOAT@.len());
        } else if j == 20 {
            reveal_strlit("math.log_float");
            assert(legacy_id(20) == NodeTypeId::LOG_FLOAT@);
            assert(NodeTypeId::WLED_SINK@.len() != NodeTypeId::LOG_FLOAT@.len());
        } else if j == 21 {
            reveal_strlit("math.map_range_float");
            assert(legacy_id(21) == NodeTypeId::MAP_RANGE_FLOAT@);
            assert(NodeTypeId::WLED_SINK@.len() != NodeTypeId::MAP_RANGE_FLOAT@.len());
        } else if j == 22 {
            reveal_strlit("math.round_float");
            assert(legacy_id(22) == NodeTypeId::ROUND_FLOAT@);
            assert(NodeTypeId::WLED_SINK@[0] != NodeTypeId::ROUND_FLOAT@[0]);
        } else if j == 23 {
            reveal_strlit("math.scale_tensor");
            assert(legacy_id(23) == NodeTypeId::SCALE_TENSOR@);
            assert(NodeTypeId::WLED_SINK@.len() != NodeTypeId::SCALE_TENSOR@.len());
        } else if j == 24 {
            reveal_strlit("frame_operations.scale");
            assert(legacy_id(24) == NodeTypeId::SCALE_COLOR@);
            assert(NodeTypeId::WLED_SINK@.len() != NodeTypeId::SCALE_COLOR@.len());
        } else if j == 25 {
            reveal_strlit("frame_operations.multiply");
            assert(legacy_id(25) == NodeTypeId::MULTIPLY_COLOR@);
            assert(NodeTypeId::WLED_SINK@.len() != NodeTypeId::MULTIPLY_COLOR@.len());
        } else if j == 26 {
            reveal_strlit("frame_operations.tint_frame");
            assert(legacy_id(26) == NodeTypeId::TINT_FRAME@);
            assert(NodeTypeId::WLED_SINK@.len() != NodeTypeId::TINT_FRAME@.len());
        } else if j == 27 {
            reveal_strlit("frame_operations.mask_frame");
            assert(legacy_id(27) == NodeTypeId::MASK_FRAME@);
            assert(NodeTypeId::WLED_SINK@.len() != NodeTypeId::MASK_FRAME@.len());
        } else if j == 28 {
            reveal_strlit("frame_operations.mix");
            assert(legacy_id(28) == NodeTypeId::MIX_COLOR@);
            assert(NodeTypeId::WLED_SINK@.len() != NodeTypeId::MIX_COLOR@.len());
        } else if j == 29 {
            reveal_strlit("frame_operations.alpha_over");
            assert(legacy_id(29) == NodeTypeId::ALPHA_OVER@);
            assert(NodeTypeId::WLED_SINK@.len() != NodeTypeId::ALPHA_OVER@.len());
        } else if j == 30 {
            reveal_strlit("temporal_filters.fade");
            assert(legacy_id(30) == NodeTypeId::FADE@);
            assert(NodeTypeId::WLED_SINK@.len() != NodeTypeId::FADE@.len());
        } else if j == 31 {
            reveal_strlit("temporal_filters.moving_average");
            assert(legacy_id(31) == NodeTypeId::MOVING_AVERAGE@);
            assert(NodeTypeId::WLED_SINK@.len() != NodeTypeId::MOVING_AVERAGE@.len());
        } else if j == 32 {
            reveal_strlit("temporal_filters.moving_median");
            assert(legacy_id(32) == NodeTypeId::MOVING_MEDIAN@);
            assert(NodeTypeId::WLED_SINK@.len() != NodeTypeId::MOVING_MEDIAN@.len());
        } else if j == 33 {
            reveal_strlit("spatial_filters.box_blur");
            assert(legacy_id(33) == NodeTypeId::BOX_BLUR@);
            assert(NodeTypeId::WLED_SINK@.len() != NodeTypeId::BOX_BLUR@.len());
        } else if j == 34 {
            reveal_strlit("spatial_filters.gaussian_blur");
            assert(legacy_id(34) == NodeTypeId::GAUSSIAN_BLUR@);
            assert(NodeTypeId::WLED_SINK@.len() != NodeTypeId::GAUSSIAN_BLUR@.len());
        } else if j == 35 {
            reveal_strlit("spatial_filters.median_filter");
            assert(legacy_id(35) == NodeTypeId::MEDIAN_FILTER@);
            assert(NodeTypeId::WLED_SINK@.len() != NodeTypeId::MEDIAN_FILTER@.len());
        } else if j == 36 {
            reveal_strlit("generators.spectrum_analyzer");
            assert(legacy_id(36) == NodeTypeId::SPECTRUM_ANALYZER@);
            assert(NodeTypeId::WLED_SINK@.len() != NodeTypeId::SPECTRUM_ANALYZER@.len());
        } else if j == 37 {
            reveal_strlit("generators.solid_frame");
            assert(legacy_id(37) == NodeTypeId::SOLID_FRAME@);
            assert(NodeTypeId::WLED_SINK@.len() != NodeTypeId::SOLID_FRAME@.len());
        } else if j == 38 {
            reveal_strlit("generators.rainbow_sweep");
            assert(legacy_id(38) == NodeTypeId::RAINBOW_SWEEP@);
            assert(NodeTypeId::WLED_SINK@.len() != NodeTypeId::RAINBOW_SWEEP@.len());
        } else if j == 39 {
            reveal_strlit("generators.circle_sweep");
            assert(legacy_id(39) == NodeTypeId::CIRCLE_SWEEP@);
            assert(NodeTypeId::WLED_SINK@.len() != NodeTypeId::CIRCLE_SWEEP@.len());
        } else if j == 40 {
            reveal_strlit("generators.level_bar");
            assert(legacy_id(40) == NodeTypeId::LEVEL_BAR@);
            assert(NodeTypeId::WLED_SINK@.len() != NodeTypeId::LEVEL_BAR@.len());
        } else if j == 41 {
            reveal_strlit("generators.twinkle_stars");
            assert(legacy_id(41) == NodeTypeId::TWINKLE_STARS@);
            assert(NodeTypeId::WLED_SINK@.len() != NodeTypeId::TWINKLE_STARS@.len());
        } else if j == 42 {
            reveal_strlit("generators.plasma");
            assert(legacy_id(42) == NodeTypeId::PLASMA@);
            assert(NodeTypeId::WLED_SINK@.len() != NodeTypeId::PLASMA@.len());
        } else if j == 43 {
            reveal_strlit("generators.bouncing_balls");
            assert(legacy_id(43) == NodeTypeId::BOUNCING_BALLS@);
            assert(NodeTypeId::WLED_SINK@.len() != NodeTypeId::BOUNCING_BALLS@.len());
        } else if j == 44 {
            reveal_strlit("debug.wled_dummy_display");
            assert(legacy_id(44) == NodeTypeId::WLED_DUMMY_DISPLAY@);
            assert(NodeTypeId::WLED_SINK@.len() != NodeTypeId::WLED_DUMMY_DISPLAY@.len());
        } else if j == 45 {
            reveal_strlit("frame_operations.frame_brightness");
            assert(legacy_id(45) == NodeTypeId::FRAME_BRIGHTNESS@);
            assert(NodeTypeId::WLED_SINK@.len() != NodeTypeId::FRAME_BRIGHTNESS@.len());
        }
    }
}

proof fn lemma_legacy_id_7_distinct()
    ensures
        forall|j: int| 7 < j < LEGACY_NODE_COUNT ==> legacy_id(7) != #[trigger] legacy_id(j),
{
    reveal_strlit("inputs.audio_fft_receiver");
    assert(legacy_id(7) == NodeTypeId::AUDIO_FFT_RECEIVER@);
    assert forall|j: int| 7 < j < LEGACY_NODE_COUNT implies legacy_id(7) != #[trigger] legacy_id(j) by {
        if j == 8 {
            reveal_strlit("inputs.ha_mqtt_number");
            assert(legacy_id(8) == NodeTypeId::HA_MQTT_NUMBER@);
            assert(NodeTypeId::AUDIO_FFT_RECEIVER@.len() != NodeTypeId::HA_MQTT_NUMBER@.len());
        } else if j == 9 {
            reveal_strlit("math.add_float");
            assert(legacy_id(9) == NodeTypeId::ADD_FLOAT@);
            assert(NodeTypeId::AUDIO_FFT_RECEIVER@.len() != NodeTypeId::ADD_FLOAT@.len());
        } else if j == 10 {
            reveal_strlit("math.subtract_float");
            assert(legacy_id(10) == NodeTypeId::SUBTRACT_FLOAT@);
            assert(NodeTypeId::AUDIO_FFT_RECEIVER@.len() != NodeTypeId::SUBTRACT_FLOAT@.len());
        } else if j == 11 {
            reveal_strlit("inputs.signal_generator");
            assert(legacy_id(11) == NodeTypeId::SIGNAL_GENERATOR@);
            assert(NodeTypeId::AUDIO_FFT_RECEIVER@.len() != NodeTypeId::SIGNAL_GENERATOR@.len());
        } else if j == 12 {
            reveal_strlit("math.divide_float");
            assert(legacy_id(12) == NodeTypeId::DIVIDE_FLOAT@);
            assert(NodeTypeId::AUDIO_FFT_RECEIVER@.len() != NodeTypeId::DIVIDE_FLOAT@.len());
        } else if j == 13 {
            reveal_strlit("math.min_max_float");
            assert(legacy_id(13) == NodeTypeId::MIN_MAX_FLOAT@);
            assert(NodeTypeId::AUDIO_FFT_RECEIVER@.len() != NodeTypeId::MIN_MAX_FLOAT@.len());
        } else if j == 14 {
            reveal_strlit("math.multiply_float");
            assert(legacy_id(14) == NodeTypeId::MULTIPLY_FLOAT@);
            assert(NodeTypeId::AUDIO_FFT_RECEIVER@.len() != NodeTypeId::MULTIPLY_FLOAT@.len());
        } else if j == 15 {
            reveal_strlit("math.abs_float");
            assert(legacy_id(15) == NodeTypeId::ABS_FLOAT@);
            assert(NodeTypeId::AUDIO_FFT_RECEIVER@.len() != NodeTypeId::ABS_FLOAT@.len());
        } else if j == 16 {
            reveal_strlit("math.clamp_float");
            assert(legacy_id(16) == NodeTypeId::CLAMP_FLOAT@);
            assert(NodeTypeId::AUDIO_FFT_RECEIVER@.len() != NodeTypeId::CLAMP_FLOAT@.len());
        } else if j == 17 {
            reveal_strlit("math.power_float");
            assert(legacy_id(17) == NodeTypeId::POWER_FLOAT@);
            assert(NodeTypeId::AUDIO_FFT_RECEIVER@.len() != NodeTypeId::POWER_FLOAT@.len());
        } else if j == 18 {
            reveal_strlit("math.root_float");
            assert(legacy_id(18) == NodeTypeId::ROOT_FLOAT@);
            assert(NodeTypeId::AUDIO_FFT_RECEIVER@.len() != NodeTypeId::ROOT_FLOAT@.len());
        } else if j == 19 {
            reveal_strlit("math.exponential_float");
            assert(legacy_id(19) == NodeTypeId::EXPONENTIAL_FLOAT@);
            assert(NodeTypeId::AUDIO_FFT_RECEIVER@.len() != NodeTypeId::EXPONENTIAL_FLOAT@.len());
        } else if j == 20 {
            reveal_strlit("math.log_float");
            assert(legacy_id(20) == NodeTypeId::LOG_FLOAT@);
            assert(NodeTypeId::AUDIO_FFT_RECEIVER@.len() != NodeTypeId::LOG_FLOAT@.len());
        } else if j == 21 {
            reveal_strlit("math.map_range_float");
            assert(legacy_id(21) == NodeTypeId::MAP_RANGE_FLOAT@);
            assert(NodeTypeId::AUDIO_FFT_RECEIVER@.len() != NodeTypeId::MAP_RANGE_FLOAT@.len());
        } else if j == 22 {
            reveal_strlit("math.round_float");
            assert(legacy_id(22) == NodeTypeId::ROUND_FLOAT@);
            assert(NodeTypeId::AUDIO_FFT_RECEIVER@.len() != NodeTypeId::ROUND_FLOAT@.len());
        } else if j == 23 {
            reveal_strlit("math.scale_tensor");
            assert(legacy_id(23) == NodeTypeId::SCALE_TENSOR@);
            assert(NodeTypeId::AUDIO_FFT_RECEIVER@.len() != NodeTypeId::SCALE_TENSOR@.len());
        } else if j == 24 {
            reveal_strlit("frame_operations.scale");
            assert(legacy_id(24) == NodeTypeId::SCALE_COLOR@);
            assert(NodeTypeId::AUDIO_FFT_RECEIVER@.len() != NodeTypeId::SCALE_COLOR@.len());
        } else if j == 25 {
            reveal_strlit("frame_operations.multiply");
            assert(legacy_id(25) == NodeTypeId::MULTIPLY_COLOR@);
            assert(NodeTypeId::AUDIO_FFT_RECEIVER@[0] != NodeTypeId::MULTIPLY_COLOR@[0]);
        } else if j == 26 {
            reveal_strlit("frame_operations.tint_frame");
            assert(legacy_id(26) == NodeTypeId::TINT_FRAME@);
            assert(NodeTypeId::AUDIO_FFT_RECEIVER@.len() != NodeTypeId::TINT_FRAME@.len());
        } else if j == 27 {
            reveal_strlit("frame_operations.mask_frame");
            assert(legacy_id(27) == NodeTypeId::MASK_FRAME@);
            assert(NodeTypeId::AUDIO_FFT_RECEIVER@.len() != NodeTypeId::MASK_FRAME@.len());
        } else if j == 28 {
            reveal_strlit("frame_operations.mix");
            assert(legacy_id(28) == NodeTypeId::MIX_COLOR@);
            assert(NodeTypeId::AUDIO_FFT_RECEIVER@.len() != NodeTypeId::MIX_COLOR@.len());
        } else if j == 29 {
            reveal_strlit("frame_operations.alpha_over");
            assert(legacy_id(29) == NodeTypeId::ALPHA_OVER@);
            assert(NodeTypeId::AUDIO_FFT_RECEIVER@.len() != NodeTypeId::ALPHA_OVER@.len());
        } else if j == 30 {
            reveal_strlit("temporal_filters.fade");
            assert(legacy_id(30) == NodeTypeId::FADE@);
            assert(NodeTypeId::AUDIO_FFT_RECEIVER@.len() != NodeTypeId::FADE@.len());
        } else if j == 31 {
            reveal_strlit("temporal_filters.moving_average");
            assert(legacy_id(31) == NodeTypeId::MOVING_AVERAGE@);
            assert(NodeTypeId::AUDIO_FFT_RECEIVER@.len() != NodeTypeId::MOVING_AVERAGE@.len());
        } else if j == 32 {
            reveal_strlit("temporal_filters.moving_median");
            assert(legacy_id(32) == NodeTypeId::MOVING_MEDIAN@);
            assert(NodeTypeId::AUDIO_FFT_RECEIVER@.len() != NodeTypeId::MOVING_MEDIAN@.len());
        } else if j == 33 {
            reveal_strlit("spatial_filters.box_blur");
            assert(legacy_id(33) == NodeTypeId::BOX_BLUR@);
            assert(NodeTypeId::AUDIO_FFT_RECEIVER@.len() != NodeTypeId::BOX_BLUR@.len());
        } else if j == 34 {
            reveal_strlit("spatial_filters.gaussian_blur");
            assert(legacy_id(34) == NodeTypeId::GAUSSIAN_BLUR@);
            assert(NodeTypeId::AUDIO_FFT_RECEIVER@.len() != NodeTypeId::GAUSSIAN_BLUR@.len());
        } else if j == 35 {
            reveal_strlit("spatial_filters.median_filter");
            assert(legacy_id(35) == NodeTypeId::MEDIAN_FILTER@);
            assert(NodeTypeId::AUDIO_FFT_RECEIVER@.len() != NodeTypeId::MEDIAN_FILTER@.len());
        } else if j == 36 {
            reveal_strlit("generators.spectrum_analyzer");
            assert(legacy_id(36) == NodeTypeId::SPECTRUM_ANALYZER@);
            assert(NodeTypeId::AUDIO_FFT_RECEIVER@.len() != NodeTypeId::SPECTRUM_ANALYZER@.len());
        } else if j == 37 {
            reveal_strlit("generators.solid_frame");
            assert(legacy_id(37) == NodeTypeId::SOLID_FRAME@);
            assert(NodeTypeId::AUDIO_FFT_RECEIVER@.len() != NodeTypeId::SOLID_FRAME@.len());
        } else if j == 38 {
            reveal_strlit("generators.rainbow_sweep");
            assert(legacy_id(38) == NodeTypeId::RAINBOW_SWEEP@);
            assert(NodeTypeId::AUDIO_FFT_RECEIVER@.len() != NodeTypeId::RAINBOW_SWEEP@.len());
        } else if j == 39 {
            reveal_strlit("generators.circle_sweep");
            assert(legacy_id(39) == NodeTypeId::CIRCLE_SWEEP@);
            assert(NodeTypeId::AUDIO_FFT_RECEIVER@.len() != NodeTypeId::CIRCLE_SWEEP@.len());
        } else if j == 40 {
            reveal_strlit("generators.level_bar");
            assert(legacy_id(40) == NodeTypeId::LEVEL_BAR@);
            assert(NodeTypeId::AUDIO_FFT_RECEIVER@.len() != NodeTypeId::LEVEL_BAR@.len());
        } else if j == 41 {
            reveal_strlit("generators.twinkle_stars");
            assert(legacy_id(41) == NodeTypeId::TWINKLE_STARS@);
            assert(NodeTypeId::AUDIO_FFT_RECEIVER@.len() != NodeTypeId::TWINKLE_STARS@.len());
        } else if j == 42 {
            reveal_strlit("generators.plasma");
            assert(legacy_id(42) == NodeTypeId::PLASMA@);
            assert(NodeTypeId::AUDIO_FFT_RECEIVER@.len() != NodeTypeId::PLASMA@.len());
        } else if j == 43 {
            reveal_strlit("generators.bouncing_balls");
            assert(legacy_id(43) == NodeTypeId::BOUNCING_BALLS@);
            assert(NodeTypeId::AUDIO_FFT_RECEIVER@[0] != NodeTypeId::BOUNCING_BALLS@[0]);
        } else if j == 44 {
            reveal_strlit("debug.wled_dummy_display");
            assert(legacy_id(44) == NodeTypeId::WLED_DUMMY_DISPLAY@);
            assert(NodeTypeId::AUDIO_FFT_RECEIVER@.len() != NodeTypeId::WLED_DUMMY_DISPLAY@.len());
        } else if j == 45 {
            reveal_strlit("frame_operations.frame_brightness");
            assert(legacy_id(45) == NodeTypeId::FRAME_BRIGHTNESS@);
            assert(NodeTypeId::AUDIO_FFT_RECEIVER@.len() != NodeTypeId::FRAME_BRIGHTNESS@.len());
        }
    }
}

proof fn lemma_legacy_id_8_distinct()
    ensures
        forall|j: int| 8 < j < LEGACY_NODE_COUNT ==> legacy_id(8) != #[trigger] legacy_id(j),
{
    reveal_strlit("inputs.ha_mqtt_number");
    assert(legacy_id(8) == NodeTypeId::HA_MQTT_NUMBER@);
    assert forall|j: int| 8 < j < LEGACY_NODE_COUNT implies legacy_id(8) != #[trigger] legacy_id(j) by {
        if j == 9 {
            reveal_strlit("math.add_float");
            assert(legacy_id(9) == NodeTypeId::ADD_FLOAT@);
            assert(NodeTypeId::HA_MQTT_NUMBER@.len() != NodeTypeId::ADD_FLOAT@.len());
        } else if j == 10 {
            reveal_strlit("math.subtract_float");
            assert(legacy_id(10) == NodeTypeId::SUBTRACT_FLOAT@);
            assert(NodeTypeId::HA_MQTT_NUMBER@.len() != NodeTypeId::SUBTRACT_FLOAT@.len());
        } else if j == 11 {
            reveal_strlit("inputs.signal_generator");
            assert(legacy_id(11) == NodeTypeId::SIGNAL_GENERATOR@);
            assert(NodeTypeId::HA_MQTT_NUMBER@.len() != NodeTypeId::SIGNAL_GENERATOR@.len());
        } else if j == 12 {
            reveal_strlit("math.divide_float");
            assert(legacy_id(12) == NodeTypeId::DIVIDE_FLOAT@);
            assert(NodeTypeId::HA_MQTT_NUMBER@.len() != NodeTypeId::DIVIDE_FLOAT@.len());
        } else if j == 13 {
            reveal_strlit("math.min_max_float");
            assert(legacy_id(13) == NodeTypeId::MIN_MAX_FLOAT@);
            assert(NodeTypeId::HA_MQTT_NUMBER@.len() != NodeTypeId::MIN_MAX_FLOAT@.len());
        } else if j == 14 {
            reveal_strlit("math.multiply_float");
            assert(legacy_id(14) == NodeTypeId::MULTIPLY_FLOAT@);
            assert(NodeTypeId::HA_MQTT_NUMBER@.len() != NodeTypeId::MULTIPLY_FLOAT@.len());
        } else if j == 15 {
            reveal_strlit("math.abs_float");
            assert(legacy_id(15) == NodeTypeId::ABS_FLOAT@);
            assert(NodeTypeId::HA_MQTT_NUMBER@.len() != NodeTypeId::ABS_FLOAT@.len());
        } else if j == 16 {
            reveal_strlit("math.clamp_float");
            assert(legacy_id(16) == NodeTypeId::CLAMP_FLOAT@);
            assert(NodeTypeId::HA_MQTT_NUMBER@.len() != NodeTypeId::CLAMP_FLOAT@.len());
        } else if j == 17 {
            reveal_strlit("math.power_float");
            assert(legacy_id(17) == NodeTypeId::POWER_FLOAT@);
            assert(NodeTypeId::HA_MQTT_NUMBER@.len() != NodeTypeId::POWER_FLOAT@.len());
        } else if j == 18 {
            reveal_strlit("math.root_float");
            assert(legacy_id(18) == NodeTypeId::ROOT_FLOAT@);
            assert(NodeTypeId::HA_MQTT_NUMBER@.len() != NodeTypeId::ROOT_FLOAT@.len());
        } else if j == 19 {
            reveal_strlit("math.exponential_float");
            assert(legacy_id(19) == NodeTypeId::EXPONENTIAL_FLOAT@);
            assert(NodeTypeId::HA_MQTT_NUMBER@.len() != NodeTypeId::EXPONENTIAL_FLOAT@.len());
        } else if j == 20 {
            reveal_strlit("math.log_float");
            assert(legacy_id(20) == NodeTypeId::LOG_FLOAT@);
            assert(NodeTypeId::HA_MQTT_NUMBER@.len() != NodeTypeId::LOG_FLOAT@.len());
        } else if j == 21 {
            reveal_strlit("math.map_range_float");
            assert(legacy_id(21) == NodeTypeId::MAP_RANGE_FLOAT@);
            assert(NodeTypeId::HA_MQTT_NUMBER@.len() != NodeTypeId::MAP_RANGE_FLOAT@.len());
        } else if j == 22 {
            reveal_strlit("math.round_float");
            assert(legacy_id(22) == NodeTypeId::ROUND_FLOAT@);
            assert(NodeTypeId::HA_MQTT_NUMBER@.len() != NodeTypeId::ROUND_FLOAT@.len());
        } else if j == 23 {
            reveal_strlit("math.scale_tensor");
            assert(legacy_id(23) == NodeTypeId::SCALE_TENSOR@);
            assert(NodeTypeId::HA_MQTT_NUMBER@.len() != NodeTypeId::SCALE_TENSOR@.len());
        } else if j == 24 {
            reveal_strlit("frame_operations.scale");
            assert(legacy_id(24) == NodeTypeId::SCALE_COLOR@);
            assert(NodeTypeId::HA_MQTT_NUMBER@.len() != NodeTypeId::SCALE_COLOR@.len());
        } else if j == 25 {
            reveal_strlit("frame_operations.multiply");
            assert(legacy_id(25) == NodeTypeId::MULTIPLY_COLOR@);
            assert(NodeTypeId::HA_MQTT_NUMBER@.len() != NodeTypeId::MULTIPLY_COLOR@.len());
        } else if j == 26 {
            reveal_strlit("frame_operations.tint_frame");
            assert(legacy_id(26) == NodeTypeId::TINT_FRAME@);
            assert(NodeTypeId::HA_MQTT_NUMBER@.len() != NodeTypeId::TINT_FRAME@.len());
        } else if j == 27 {
            reveal_strlit("frame_operations.mask_frame");
            assert(legacy_id(27) == NodeTypeId::MASK_FRAME@);
            assert(NodeTypeId::HA_MQTT_NUMBER@.len() != NodeTypeId::MASK_FRAME@.len());
        } else if j == 28 {
            reveal_strlit("frame_operations.mix");
            assert(legacy_id(28) == NodeTypeId::MIX_COLOR@);
            assert(NodeTypeId::HA_MQTT_NUMBER@.len() != NodeTypeId::MIX_COLOR@.len());
        } else if j == 29 {
            reveal_strlit("frame_operations.alpha_over");
            assert(legacy_id(29) == NodeTypeId::ALPHA_OVER@);
            assert(NodeTypeId::HA_MQTT_NUMBER@.len() != NodeTypeId::ALPHA_OVER@.len());
        } else if j == 30 {
            reveal_strlit("temporal_filters.fade");
            assert(legacy_id(30) == NodeTypeId::FADE@);
            assert(NodeTypeId::HA_MQTT_NUMBER@[0] != NodeTypeId::FADE@[0]);
        } else if j == 31 {
            reveal_strlit("temporal_filters.moving_average");
            assert(legacy_id(31) == NodeTypeId::MOVING_AVERAGE@);
            assert(NodeTypeId::HA_MQTT_NUMBER@.len() != NodeTypeId::MOVING_AVERAGE@.len());
        } else if j == 32 {
            reveal_strlit("temporal_filters.moving_median");
            assert(legacy_id(32) == NodeTypeId::MOVING_MEDIAN@);
            assert(NodeTypeId::HA_MQTT_NUMBER@.len() != NodeTypeId::MOVING_MEDIAN@.len());
        } else if j == 33 {
            reveal_strlit("spatial_filters.box_blur");
            assert(legacy_id(33) == NodeTypeId::BOX_BLUR@);
            assert(NodeTypeId::HA_MQTT_NUMBER@.len() != NodeTypeId::BOX_BLUR@.len());
        } else if j == 34 {
            reveal_strlit("spatial_filters.gaussian_blur");
            assert(legacy_id(34) == NodeTypeId::GAUSSIAN_BLUR@);
            assert(NodeTypeId::HA_MQTT_NUMBER@.len() != NodeTypeId::GAUSSIAN_BLUR@.len());
        } else if j == 35 {
            reveal_strlit("spatial_filters.median_filter");
            assert(legacy_id(35) == NodeTypeId::MEDIAN_FILTER@);
            assert(NodeTypeId::HA_MQTT_NUMBER@.len() != NodeTypeId::MEDIAN_FILTER@.len());
        } else if j == 36 {
            reveal_strlit("generators.spectrum_analyzer");
            assert(legacy_id(36) == NodeTypeId::SPECTRUM_ANALYZER@);
            assert(NodeTypeId::HA_MQTT_NUMBER@.len() != NodeTypeId::SPECTRUM_ANALYZER@.len());
        } else if j == 37 {
            reveal_strlit("generators.solid_frame");
            assert(legacy_id(37) == NodeTypeId::SOLID_FRAME@);
            assert(NodeTypeId::HA_MQTT_NUMBER@.len() != NodeTypeId::SOLID_FRAME@.len());
        } else if j == 38 {
            reveal_strlit("generators.rainbow_sweep");
            assert(legacy_id(38) == NodeTypeId::RAINBOW_SWEEP@);
            assert(NodeTypeId::HA_MQTT_NUMBER@.len() != NodeTypeId::RAINBOW_SWEEP@.len());
        } else if j == 39 {
            reveal_strlit("generators.circle_sweep");
            assert(legacy_id(39) == NodeTypeId::CIRCLE_SWEEP@);
            assert(NodeTypeId::HA_MQTT_NUMBER@.len() != NodeTypeId::CIRCLE_SWEEP@.len());
        } else if j == 40 {
            reveal_strlit("generators.level_bar");
            assert(legacy_id(40) == NodeTypeId::LEVEL_BAR@);
            assert(NodeTypeId::HA_MQTT_NUMBER@.len() != NodeTypeId::LEVEL_BAR@.len());
        } else if j == 41 {
            reveal_strlit("generators.twinkle_stars");
            assert(legacy_id(41) == NodeTypeId::TWINKLE_STARS@);
            assert(NodeTypeId::HA_MQTT_NUMBER@.len() != NodeTypeId::TWINKLE_STARS@.len());
        } else if j == 42 {
            reveal_strlit("generators.plasma");
            assert(legacy_id(42) == NodeTypeId::PLASMA@);
            assert(NodeTypeId::HA_MQTT_NUMBER@.len() != NodeTypeId::PLASMA@.len());
        } else if j == 43 {
            reveal_strlit("generators.bouncing_balls");
            assert(legacy_id(43) == NodeTypeId::BOUNCING_BALLS@);
            assert(NodeTypeId::HA_MQTT_NUMBER@.len() != NodeTypeId::BOUNCING_BALLS@.len());
        } else if j == 44 {
            reveal_strlit("debug.wled_dummy_display");
            assert(legacy_id(44) == NodeTypeId::WLED_DUMMY_DISPLAY@);
            assert(NodeTypeId::HA_MQTT_NUMBER@.len() != NodeTypeId::WLED_DUMMY_DISPLAY@.len());
        } else if j == 45 {
            reveal_strlit("frame_operations.frame_brightness");
            assert(legacy_id(45) == NodeTypeId::FRAME_BRIGHTNESS@);
            assert(NodeTypeId::HA_MQTT_NUMBER@.len() != NodeTypeId::FRAME_BRIGHTNESS@.len());
        }
    }
}

proof fn lemma_legacy_id_9_distinct()
    ensures
        forall|j: int| 9 < j < LEGACY_NODE_COUNT ==> legacy_id(9) != #[trigger] legacy_id(j),
{
    reveal_strlit("math.add_float");
    assert(legacy_id(9) == NodeTypeId::ADD_FLOAT@);
    assert forall|j: int| 9 < j < LEGACY_NODE_COUNT implies legacy_id(9) != #[trigger] legacy_id(j) by {
        if j == 10 {
            reveal_strlit("math.subtract_float");
            assert(legacy_id(10) == NodeTypeId::SUBTRACT_FLOAT@);
            assert(NodeTypeId::ADD_FLOAT@.len() != NodeTypeId::SUBTRACT_FLOAT@.len());
        } else if j == 11 {
            reveal_strlit("inputs.signal_generator");
            assert(legacy_id(11) == NodeTypeId::SIGNAL_GENERATOR@);
            assert(NodeTypeId::ADD_FLOAT@.len() != NodeTypeId::SIGNAL_GENERATOR@.len());
        } else if j == 12 {
            reveal_strlit("math.divide_float");
            assert(legacy_id(12) == NodeTypeId::DIVIDE_FLOAT@);
            assert(NodeTypeId::ADD_FLOAT@.len() != NodeTypeId::DIVIDE_FLOAT@.len());
        } else if j == 13 {
            reveal_strlit("math.min_max_float");
            assert(legacy_id(13) == NodeTypeId::MIN_MAX_FLOAT@);
            assert(NodeTypeId::ADD_FLOAT@.len() != NodeTypeId::MIN_MAX_FLOAT@.len());
        } else if j == 14 {
            reveal_strlit("math.multiply_float");
            assert(legacy_id(14) == NodeTypeId::MULTIPLY_FLOAT@);
            assert(NodeTypeId::ADD_FLOAT@.len() != NodeTypeId::MULTIPLY_FLOAT@.len());
        } else if j == 15 {
            reveal_strlit("math.abs_float");
            assert(legacy_id(15) == NodeTypeId::ABS_FLOAT@);
            assert(NodeTypeId::ADD_FLOAT@[6] != NodeTypeId::ABS_FLOAT@[6]);
        } else if j == 16 {
            reveal_strlit("math.clamp_float");
            assert(legacy_id(16) == NodeTypeId::CLAMP_FLOAT@);
            assert(NodeTypeId::ADD_FLOAT@.len() != NodeTypeId::CLAMP_FLOAT@.len());
        } else if j == 17 {
            reveal_strlit("math.power_float");
            assert(legacy_id(17) == NodeTypeId::POWER_FLOAT@);
            assert(NodeTypeId::ADD_FLOAT@.len() != NodeTypeId::POWER_FLOAT@.len());
        } else if j == 18 {
            reveal_strlit("math.root_float");
            assert(legacy_id(18) == NodeTypeId::ROOT_FLOAT@);
            assert(NodeTypeId::ADD_FLOAT@.len() != NodeTypeId::ROOT_FLOAT@.len());
        } else if j == 19 {
            reveal_strlit("math.exponential_float");
            assert(legacy_id(19) == NodeTypeId::EXPONENTIAL_FLOAT@);
            assert(NodeTypeId::ADD_FLOAT@.len() != NodeTypeId::EXPONENTIAL_FLOAT@.len());
        } else if j == 20 {
            reveal_strlit("math.log_float");
            assert(legacy_id(20) == NodeTypeId::LOG_FLOAT@);
            assert(NodeTypeId::ADD_FLOAT@[5] != NodeTypeId::LOG_FLOAT@[5]);
        } else if j == 21 {
            reveal_strlit("math.map_range_float");
            assert(legacy_id(21) == NodeTypeId::MAP_RANGE_FLOAT@);
            assert(NodeTypeId::ADD_FLOAT@.len() != NodeTypeId::MAP_RANGE_FLOAT@.len());
        } else if j == 22 {
            reveal_strlit("math.round_float");
            assert(legacy_id(22) == NodeTypeId::ROUND_FLOAT@);
            assert(NodeTypeId::ADD_FLOAT@.len() != NodeTypeId::ROUND_FLOAT@.len());
        } else if j == 23 {
            reveal_strlit("math.scale_tensor");
            assert(legacy_id(23) == NodeTypeId::SCALE_TENSOR@);
            assert(NodeTypeId::ADD_FLOAT@.len() != NodeTypeId::SCALE_TENSOR@.len());
        } else if j == 24 {
            reveal_strlit("frame_operations.scale");
            assert(legacy_id(24) == NodeTypeId::SCALE_COLOR@);
            assert(NodeTypeId::ADD_FLOAT@.len() != NodeTypeId::SCALE_COLOR@.len());
        } else if j == 25 {
            reveal_strlit("frame_operations.multiply");
            assert(legacy_id(25) == NodeTypeId::MULTIPLY_COLOR@);
            assert(NodeTypeId::ADD_FLOAT@.len() != NodeTypeId::MULTIPLY_COLOR@.len());
        } else if j == 26 {
            reveal_strlit("frame_operations.tint_frame");
            assert(legacy_id(26) == NodeTypeId::TINT_FRAME@);
            assert(NodeTypeId::ADD_FLOAT@.len() != NodeTypeId::TINT_FRAME@.len());
        } else if j == 27 {
            reveal_strlit("frame_operations.mask_frame");
            assert(legacy_id(27) == NodeTypeId::MASK_FRAME@);
            assert(NodeTypeId::ADD_FLOAT@.len() != NodeTypeId::MASK_FRAME@.len());
        } else if j == 28 {
            reveal_strlit("frame_operations.mix");
            assert(legacy_id(28) == NodeTypeId::MIX_COLOR@);
            assert(NodeTypeId::ADD_FLOAT@.len() != NodeTypeId::MIX_COLOR@.len());
        } else if j == 29 {
            reveal_strlit("frame_operations.alpha_over");
            assert(legacy_id(29) == NodeTypeId::ALPHA_OVER@);
            assert(NodeTypeId::ADD_FLOAT@.len() != NodeTypeId::ALPHA_OVER@.len());
        } else if j == 30 {
            reveal_strlit("temporal_filters.fade");
            assert(legacy_id(30) == NodeTypeId::FADE@);
            assert(NodeTypeId::ADD_FLOAT@.len() != NodeTypeId::FADE@.len());
        } else if j == 31 {
            reveal_strlit("temporal_filters.moving_average");
            assert(legacy_id(31) == NodeTypeId::MOVING_AVERAGE@);
            assert(NodeTypeId::ADD_FLOAT@.len() != NodeTypeId::MOVING_AVERAGE@.len());
        } else if j == 32 {
            reveal_strlit("temporal_filters.moving_median");
            assert(legacy_id(32) == NodeTypeId::MOVING_MEDIAN@);
            assert(NodeTypeId::ADD_FLOAT@.len() != NodeTypeId::MOVING_MEDIAN@.len());
        } else if j == 33 {
            reveal_strlit("spatial_filters.box_blur");
            assert(legacy_id(33) == NodeTypeId::BOX_BLUR@);
            assert(NodeTypeId::ADD_FLOAT@.len() != NodeTypeId::BOX_BLUR@.len());
        } else if j == 34 {
            reveal_strlit("spatial_filters.gaussian_blur");
            assert(legacy_id(34) == NodeTypeId::GAUSSIAN_BLUR@);
            assert(NodeTypeId::ADD_FLOAT@.len() != NodeTypeId::GAUSSIAN_BLUR@.len());
        } else if j == 35 {
            reveal_strlit("spatial_filters.median_filter");
            assert(legacy_id(35) == NodeTypeId::MEDIAN_FILTER@);
            assert(NodeTypeId::ADD_FLOAT@.len() != NodeTypeId::MEDIAN_FILTER@.len());
        } else if j == 36 {
            reveal_strlit("generators.spectrum_analyzer");
            assert(legacy_id(36) == NodeTypeId::SPECTRUM_ANALYZER@);
            assert(NodeTypeId::ADD_FLOAT@.len() != NodeTypeId::SPECTRUM_ANALYZER@.len());
        } else if j == 37 {
            reveal_strlit("generators.solid_frame");
            assert(legacy_id(37) == NodeTypeId::SOLID_FRAME@);
            assert(NodeTypeId::ADD_FLOAT@.len() != NodeTypeId::SOLID_FRAME@.len());
        } else if j == 38 {
            reveal_strlit("generators.rainbow_sweep");
            assert(legacy_id(38) == NodeTypeId::RAINBOW_SWEEP@);
            assert(NodeTypeId::ADD_FLOAT@.len() != NodeTypeId::RAINBOW_SWEEP@.len());
        } else if j == 39 {
            reveal_strlit("generators.circle_sweep");
            assert(legacy_id(39) == NodeTypeId::CIRCLE_SWEEP@);
            assert(NodeTypeId::ADD_FLOAT@.len() != NodeTypeId::CIRCLE_SWEEP@.len());
        } else if j == 40 {
            reveal_strlit("generators.level_bar");
            assert(legacy_id(40) == NodeTypeId::LEVEL_BAR@);
            assert(NodeTypeId::ADD_FLOAT@.len() != NodeTypeId::LEVEL_BAR@.len());
        } else if j == 41 {
            reveal_strlit("generators.twinkle_stars");
            assert(legacy_id(41) == NodeTypeId::TWINKLE_STARS@);
            assert(NodeTypeId::ADD_FLOAT@.len() != NodeTypeId::TWINKLE_STARS@.len());
        } else if j == 42 {
            reveal_strlit("generators.plasma");
            assert(legacy_id(42) == NodeTypeId::PLASMA@);
            assert(NodeTypeId::ADD_FLOAT@.len() != NodeTypeId::PLASMA@.len());
        } else if j == 43 {
            reveal_strlit("generators.bouncing_balls");
            assert(legacy_id(43) == NodeTypeId::BOUNCING_BALLS@);
            assert(NodeTypeId::ADD_FLOAT@.len() != NodeTypeId::BOUNCING_BALLS@.len());
        } else if j == 44 {
            reveal_strlit("debug.wled_dummy_display");
            assert(legacy_id(44) == NodeTypeId::WLED_DUMMY_DISPLAY@);
            assert(NodeTypeId::ADD_FLOAT@.len() != NodeTypeId::WLED_DUMMY_DISPLAY@.len());
        } else if j == 45 {
            reveal_strlit("frame_operations.frame_brightness");
            assert(legacy_id(45) == NodeTypeId::FRAME_BRIGHTNESS@);
            assert(NodeTypeId::ADD_FLOAT@.len() != NodeTypeId::FRAME_BRIGHTNESS@.len());
        }
    }
}

proof fn lemma_legacy_id_10_distinct()
    ensures
        forall|j: int| 10 < j < LEGACY_NODE_COUNT ==> legacy_id(10) != #[trigger] legacy_id(j),
{
    reveal_strlit("math.subtract_float");
    assert(legacy_id(10) == NodeTypeId::SUBTRACT_FLOAT@);
    assert forall|j: int| 10 < j < LEGACY_NODE_COUNT implies legacy_id(10) != #[trigger] legacy_id(j) by {
        if j == 11 {
            reveal_strlit("inputs.signal_generator");
            assert(legacy_id(11) == NodeTypeId::SIGNAL_GENERATOR@);
            assert(NodeTypeId::SUBTRACT_FLOAT@.len() != NodeTypeId::SIGNAL_GENERATOR@.len());
        } else if j == 12 {
            reveal_strlit("math.divide_float");
            assert(legacy_id(12) == NodeTypeId::DIVIDE_FLOAT@);
            assert(NodeTypeId::SUBTRACT_FLOAT@.len() != NodeTypeId::DIVIDE_FLOAT@.len());
        } else if j == 13 {
            reveal_strlit("math.min_max_float");
            assert(legacy_id(13) == NodeTypeId::MIN_MAX_FLOAT@);
            assert(NodeTypeId::SUBTRACT_FLOAT@.len() != NodeTypeId::MIN_MAX_FLOAT@.len());
        } else if j == 14 {
            reveal_strlit("math.multiply_float");
            assert(legacy_id(14) == NodeTypeId::MULTIPLY_FLOAT@);
            assert(NodeTypeId::SUBTRACT_FLOAT@[5] != NodeTypeId::MULTIPLY_FLOAT@[5]);
        } else if j == 15 {
            reveal_strlit("math.abs_float");
            assert(legacy_id(15) == NodeTypeId::ABS_FLOAT@);
            assert(NodeTypeId::SUBTRACT_FLOAT@.len() != NodeTypeId::ABS_FLOAT@.len());
        } else if j == 16 {
            reveal_strlit("math.clamp_float");
            assert(legacy_id(16) == NodeTypeId::CLAMP_FLOAT@);
            assert(NodeTypeId::SUBTRACT_FLOAT@.len() != NodeTypeId::CLAMP_FLOAT@.len());
        } else if j == 17 {
            reveal_strlit("math.power_float");
            assert(legacy_id(17) == NodeTypeId::POWER_FLOAT@);
            assert(NodeTypeId::SUBTRACT_FLOAT@.len() != NodeTypeId::POWER_FLOAT@.len());
        } else if j == 18 {
            reveal_strlit("math.root_float");
            assert(legacy_id(18) == NodeTypeId::ROOT_FLOAT@);
            assert(NodeTypeId::SUBTRACT_FLOAT@.len() != NodeTypeId::ROOT_FLOAT@.len());
        } else if j == 19 {
            reveal_strlit("math.exponential_float");
            assert(legacy_id(19) == NodeTypeId::EXPONENTIAL_FLOAT@);
            assert(NodeTypeId::SUBTRACT_FLOAT@.len() != NodeTypeId::EXPONENTIAL_FLOAT@.len());
        } else if j == 20 {
            reveal_strlit("math.log_float");
            assert(legacy_id(20) == NodeTypeId::LOG_FLOAT@);
            assert(NodeTypeId::SUBTRACT_FLOAT@.len() != NodeTypeId::LOG_FLOAT@.len());
        } else if j == 21 {
            reveal_strlit("math.map_range_float");
            assert(legacy_id(21) == NodeTypeId::MAP_RANGE_FLOAT@);
            assert(NodeTypeId::SUBTRACT_FLOAT@.len() != NodeTypeId::MAP_RANGE_FLOAT@.len());
        } else if j == 22 {
            reveal_strlit("math.round_float");
            assert(legacy_id(22) == NodeTypeId::ROUND_FLOAT@);
            assert(NodeTypeId::SUBTRACT_FLOAT@.len() != NodeTypeId::ROUND_FLOAT@.len());
        } else if j == 23 {
            reveal_strlit("math.scale_tensor");
            assert(legacy_id(23) == NodeTypeId::SCALE_TENSOR@);
            assert(NodeTypeId::SUBTRACT_FLOAT@.len() != NodeTypeId::SCALE_TENSOR@.len());
        } else if j == 24 {
            reveal_strlit("frame_operations.scale");
            assert(legacy_id(24) == NodeTypeId::SCALE_COLOR@);
            assert(NodeTypeId::SUBTRACT_FLOAT@.len() != NodeTypeId::SCALE_COLOR@.len());
        } else if j == 25 {
            reveal_strlit("frame_operations.multiply");
            assert(legacy_id(25) == NodeTypeId::MULTIPLY_COLOR@);
            assert(NodeTypeId::SUBTRACT_FLOAT@.len() != NodeTypeId::MULTIPLY_COLOR@.len());
        } else if j == 26 {
            reveal_strlit("frame_operations.tint_frame");
            assert(legacy_id(26) == NodeTypeId::TINT_FRAME@);
            assert(NodeTypeId::SUBTRACT_FLOAT@.len() != NodeTypeId::TINT_FRAME@.len());
        } else if j == 27 {
            reveal_strlit("frame_operations.mask_frame");
            assert(legacy_id(27) == NodeTypeId::MASK_FRAME@);
            assert(NodeTypeId::SUBTRACT_FLOAT@.len() != NodeTypeId::MASK_FRAME@.len());
        } else if j == 28 {
            reveal_strlit("frame_operations.mix");
            assert(legacy_id(28) == NodeTypeId::MIX_COLOR@);
            assert(NodeTypeId::SUBTRACT_FLOAT@.len() != NodeTypeId::MIX_COLOR@.len());
        } else if j == 29 {
            reveal_strlit("frame_operations.alpha_over");
            assert(legacy_id(29) == NodeTypeId::ALPHA_OVER@);
            assert(NodeTypeId::SUBTRACT_FLOAT@.len() != NodeTypeId::ALPHA_OVER@.len());
        } else if j == 30 {
            reveal_strlit("temporal_filters.fade");
            assert(legacy_id(30) == NodeTypeId::FADE@);
            assert(NodeTypeId::SUBTRACT_FLOAT@.len() != NodeTypeId::FADE@.len());
        } else if j == 31 {
            reveal_strlit("temporal_filters.moving_average");
            assert(legacy_id(31) == NodeTypeId::MOVING_AVERAGE@);
            assert(NodeTypeId::SUBTRACT_FLOAT@.len() != NodeTypeId::MOVING_AVERAGE@.len());
        } else if j == 32 {
            reveal_strlit("temporal_filters.moving_median");
            assert(legacy_id(32) == NodeTypeId::MOVING_MEDIAN@);
            assert(NodeTypeId::SUBTRACT_FLOAT@.len() != NodeTypeId::MOVING_MEDIAN@.len());
        } else if j == 33 {
            reveal_strlit("spatial_filters.box_blur");
            assert(legacy_id(33) == NodeTypeId::BOX_BLUR@);
            assert(NodeTypeId::SUBTRACT_FLOAT@.len() != NodeTypeId::BOX_BLUR@.len());
        } else if j == 34 {
            reveal_strlit("spatial_filters.gaussian_blur");
            assert(legacy_id(34) == NodeTypeId::GAUSSIAN_BLUR@);
            assert(NodeTypeId::SUBTRACT_FLOAT@.len() != NodeTypeId::GAUSSIAN_BLUR@.len());
        } else if j == 35 {
            reveal_strlit("spatial_filters.median_filter");
            assert(legacy_id(35) == NodeTypeId::MEDIAN_FILTER@);
            assert(NodeTypeId::SUBTRACT_FLOAT@.len() != NodeTypeId::MEDIAN_FILTER@.len());
        } else if j == 36 {
            reveal_strlit("generators.spectrum_analyzer");
            assert(legacy_id(36) == NodeTypeId::SPECTRUM_ANALYZER@);
            assert(NodeTypeId::SUBTRACT_FLOAT@.len() != NodeTypeId::SPECTRUM_ANALYZER@.len());
        } else if j == 37 {
            reveal_strlit("generators.solid_frame");
            assert(legacy_id(37) == NodeTypeId::SOLID_FRAME@);
            assert(NodeTypeId::SUBTRACT_FLOAT@.len() != NodeTypeId::SOLID_FRAME@.len());
        } else if j == 38 {
            reveal_strlit("generators.rainbow_sweep");
            assert(legacy_id(38) == NodeTypeId::RAINBOW_SWEEP@);
            assert(NodeTypeId::SUBTRACT_FLOAT@.len() != NodeTypeId::RAINBOW_SWEEP@.len());
        } else if j == 39 {
            reveal_strlit("generators.circle_sweep");
            assert(legacy_id(39) == NodeTypeId::CIRCLE_SWEEP@);
            assert(NodeTypeId::SUBTRACT_FLOAT@.len() != NodeTypeId::CIRCLE_SWEEP@.len());
        } else if j == 40 {
            reveal_strlit("generators.level_bar");
            assert(legacy_id(40) == NodeTypeId::LEVEL_BAR@);
            assert(NodeTypeId::SUBTRACT_FLOAT@.len() != NodeTypeId::LEVEL_BAR@.len());
        } else if j == 41 {
            reveal_strlit("generators.twinkle_stars");
            assert(legacy_id(41) == NodeTypeId::TWINKLE_STARS@);
            assert(NodeTypeId::SUBTRACT_FLOAT@.len() != NodeTypeId::TWINKLE_STARS@.len());
        } else if j == 42 {
            reveal_strlit("generators.plasma");
            assert(legacy_id(42) == NodeTypeId::PLASMA@);
            assert(NodeTypeId::SUBTRACT_FLOAT@.len() != NodeTypeId::PLASMA@.len());
        } else if j == 43 {
            reveal_strlit("generators.bouncing_balls");
            assert(legacy_id(43) == NodeTypeId::BOUNCING_BALLS@);
            assert(NodeTypeId::SUBTRACT_FLOAT@.len() != NodeTypeId::BOUNCING_BALLS@.len());
        } else if j == 44 {
            reveal_strlit("debug.wled_dummy_display");
            assert(legacy_id(44) == NodeTypeId::WLED_DUMMY_DISPLAY@);
            assert(NodeTypeId::SUBTRACT_FLOAT@.len() != NodeTypeId::WLED_DUMMY_DISPLAY@.len());
        } else if j == 45 {
            reveal_strlit("frame_operations.frame_brightness");
            assert(legacy_id(45) == NodeTypeId::FRAME_BRIGHTNESS@);
            assert(NodeTypeId::SUBTRACT_FLOAT@.len() != NodeTypeId::FRAME_BRIGHTNESS@.len());
        }
    }
}

proof fn lemma_legacy_id_11_distinct()
    ensures
        forall|j: int| 11 < j < LEGACY_NODE_COUNT ==> legacy_id(11) != #[trigger] legacy_id(j),
{
    reveal_strlit("inputs.signal_generator");
    assert(legacy_id(11) == NodeTypeId::SIGNAL_GENERATOR@);
    assert forall|j: int| 11 < j < LEGACY_NODE_COUNT implies legacy_id(11) != #[trigger] legacy_id(j) by {
        if j == 12 {
            reveal_strlit("math.divide_float");
            assert(legacy_id(12) == NodeTypeId::DIVIDE_FLOAT@);
            assert(NodeTypeId::SIGNAL_GENERATOR@.len() != NodeTypeId::DIVIDE_FLOAT@.len());
        } else if j == 13 {
            reveal_strlit("math.min_max_float");
            assert(legacy_id(13) == NodeTypeId::MIN_MAX_FLOAT@);
            assert(NodeTypeId::SIGNAL_GENERATOR@.len() != NodeTypeId::MIN_MAX_FLOAT@.len());
        } else if j == 14 {
            reveal_strlit("math.multiply_float");
            assert(legacy_id(14) == NodeTypeId::MULTIPLY_FLOAT@);
            assert(NodeTypeId::SIGNAL_GENERATOR@.len() != NodeTypeId::MULTIPLY_FLOAT@.len());
        } else if j == 15 {
            reveal_strlit("math.abs_float");
            assert(legacy_id(15) == NodeTypeId::ABS_FLOAT@);
            assert(NodeTypeId::SIGNAL_GENERATOR@.len() != NodeTypeId::ABS_FLOAT@.len());
        } else if j == 16 {
            reveal_strlit("math.clamp_float");
            assert(legacy_id(16) == NodeTypeId::CLAMP_FLOAT@);
            assert(NodeTypeId::SIGNAL_GENERATOR@.len() != NodeTypeId::CLAMP_FLOAT@.len());
        } else if j == 17 {
            reveal_strlit("math.power_float");
            assert(legacy_id(17) == NodeTypeId::POWER_FLOAT@);
            assert(NodeTypeId::SIGNAL_GENERATOR@.len() != NodeTypeId::POWER_FLOAT@.len());
        } else if j == 18 {
            reveal_strlit("math.root_float");
            assert(legacy_id(18) == NodeTypeId::ROOT_FLOAT@);
            assert(NodeTypeId::SIGNAL_GENERATOR@.len() != NodeTypeId::ROOT_FLOAT@.len());
        } else if j == 19 {
            reveal_strlit("math.exponential_float");
            assert(legacy_id(19) == NodeTypeId::EXPONENTIAL_FLOAT@);
            assert(NodeTypeId::SIGNAL_GENERATOR@.len() != NodeTypeId::EXPONENTIAL_FLOAT@.len());
        } else if j == 20 {
            reveal_strlit("math.log_float");
            assert(legacy_id(20) == NodeTypeId::LOG_FLOAT@);
            assert(NodeTypeId::SIGNAL_GENERATOR@.len() != NodeTypeId::LOG_FLOAT@.len());
        } else if j == 21 {
            reveal_strlit("math.map_range_float");
            assert(legacy_id(21) == NodeTypeId::MAP_RANGE_FLOAT@);
            assert(NodeTypeId::SIGNAL_GENERATOR@.len() != NodeTypeId::MAP_RANGE_FLOAT@.len());
        } else if j == 22 {
            reveal_strlit("math.round_float");
            assert(legacy_id(22) == NodeTypeId::ROUND_FLOAT@);
            assert(NodeTypeId::SIGNAL_GENERATOR@.len() != NodeTypeId::ROUND_FLOAT@.len());
        } else if j == 23 {
            reveal_strlit("math.scale_tensor");
            assert(legacy_id(23) == NodeTypeId::SCALE_TENSOR@);
            assert(NodeTypeId::SIGNAL_GENERATOR@.len() != NodeTypeId::SCALE_TENSOR@.len());
        } else if j == 24 {
            reveal_strlit("frame_operations.scale");
            assert(legacy_id(24) == NodeTypeId::SCALE_COLOR@);
            assert(NodeTypeId::SIGNAL_GENERATOR@.len() != NodeTypeId::SCALE_COLOR@.len());
        } else if j == 25 {
            reveal_strlit("frame_operations.multiply");
            assert(legacy_id(25) == NodeTypeId::MULTIPLY_COLOR@);
            assert(NodeTypeId::SIGNAL_GENERATOR@.len() != NodeTypeId::MULTIPLY_COLOR@.len());
        } else if j == 26 {
            reveal_strlit("frame_operations.tint_frame");
            assert(legacy_id(26) == NodeTypeId::TINT_FRAME@);
            assert(NodeTypeId::SIGNAL_GENERATOR@.len() != NodeTypeId::TINT_FRAME@.len());
        } else if j == 27 {
            reveal_strlit("frame_operations.mask_frame");
            assert(legacy_id(27) == NodeTypeId::MASK_FRAME@);
            assert(NodeTypeId::SIGNAL_GENERATOR@.len() != NodeTypeId::MASK_FRAME@.len());
        } else if j == 28 {
            reveal_strlit("frame_operations.mix");
            assert(legacy_id(28) == NodeTypeId::MIX_COLOR@);
            assert(NodeTypeId::SIGNAL_GENERATOR@.len() != NodeTypeId::MIX_COLOR@.len());
        } else if j == 29 {
            reveal_strlit("frame_operations.alpha_over");
            assert(legacy_id(29) == NodeTypeId::ALPHA_OVER@);
            assert(NodeTypeId::SIGNAL_GENERATOR@.len() != NodeTypeId::ALPHA_OVER@.len());
        } else if j == 30 {
            reveal_strlit("temporal_filters.fade");
            assert(legacy_id(30) == NodeTypeId::FADE@);
            assert(NodeTypeId::SIGNAL_GENERATOR@.len() != NodeTypeId::FADE@.len());
        } else if j == 31 {
            reveal_strlit("temporal_filters.moving_average");
            assert(legacy_id(31) == NodeTypeId::MOVING_AVERAGE@);
            assert(NodeTypeId::SIGNAL_GENERATOR@.len() != NodeTypeId::MOVING_AVERAGE@.len());
        } else if j == 32 {
            reveal_strlit("temporal_filters.moving_median");
            assert(legacy_id(32) == NodeTypeId::MOVING_MEDIAN@);
            assert(NodeTypeId::SIGNAL_GENERATOR@.len() != NodeTypeId::MOVING_MEDIAN@.len());
        } else if j == 33 {
            reveal_strlit("spatial_filters.box_blur");
            assert(legacy_id(33) == NodeTypeId::BOX_BLUR@);
            assert(NodeTypeId::SIGNAL_GENERATOR@.len() != NodeTypeId::BOX_BLUR@.len());
        } else if j == 34 {
            reveal_strlit("spatial_filters.gaussian_blur");
            assert(legacy_id(34) == NodeTypeId::GAUSSIAN_BLUR@);
            assert(NodeTypeId::SIGNAL_GENERATOR@.len() != NodeTypeId::GAUSSIAN_BLUR@.len());
        } else if j == 35 {
            reveal_strlit("spatial_filters.median_filter");
            assert(legacy_id(35) == NodeTypeId::MEDIAN_FILTER@);
            assert(NodeTypeId::SIGNAL_GENERATOR@.len() != NodeTypeId::MEDIAN_FILTER@.len());
        } else if j == 36 {
            reveal_strlit("generators.spectrum_analyzer");
            assert(legacy_id(36) == NodeTypeId::SPECTRUM_ANALYZER@);
            assert(NodeTypeId::SIGNAL_GENERATOR@.len() != NodeTypeId::SPECTRUM_ANALYZER@.len());
        } else if j == 37 {
            reveal_strlit("generators.solid_frame");
            assert(legacy_id(37) == NodeTypeId::SOLID_FRAME@);
            assert(NodeTypeId::SIGNAL_GENERATOR@.len() != NodeTypeId::SOLID_FRAME@.len());
        } else if j == 38 {
            reveal_strlit("generators.rainbow_sweep");
            assert(legacy_id(38) == NodeTypeId::RAINBOW_SWEEP@);
            assert(NodeTypeId::SIGNAL_GENERATOR@.len() != NodeTypeId::RAINBOW_SWEEP@.len());
        } else if j == 39 {
            reveal_strlit("generators.circle_sweep");
            assert(legacy_id(39) == NodeTypeId::CIRCLE_SWEEP@);
            assert(NodeTypeId::SIGNAL_GENERATOR@[0] != NodeTypeId::CIRCLE_SWEEP@[0]);
        } else if j == 40 {
            reveal_strlit("generators.level_bar");
            assert(legacy_id(40) == NodeTypeId::LEVEL_BAR@);
            assert(NodeTypeId::SIGNAL_GENERATOR@.len() != NodeTypeId::LEVEL_BAR@.len());
        } else if j == 41 {
            reveal_strlit("generators.twinkle_stars");
            assert(legacy_id(41) == NodeTypeId::TWINKLE_STARS@);
            assert(NodeTypeId::SIGNAL_GENERATOR@.len() != NodeTypeId::TWINKLE_STARS@.len());
        } else if j == 42 {
            reveal_strlit("generators.plasma");
            assert(legacy_id(42) == NodeTypeId::PLASMA@);
            assert(NodeTypeId::SIGNAL_GENERATOR@.len() != NodeTypeId::PLASMA@.len());
        } else if j == 43 {
            reveal_strlit("generators.bouncing_balls");
            assert(legacy_id(43) == NodeTypeId::BOUNCING_BALLS@);
            assert(NodeTypeId::SIGNAL_GENERATOR@.len() != NodeTypeId::BOUNCING_BALLS@.len());
        } else if j == 44 {
            reveal_strlit("debug.wled_dummy_display");
            assert(legacy_id(44) == NodeTypeId::WLED_DUMMY_DISPLAY@);
            assert(NodeTypeId::SIGNAL_GENERATOR@.len() != NodeTypeId::WLED_DUMMY_DISPLAY@.len());
        } else if j == 45 {
            reveal_strlit("frame_operations.frame_brightness");
            assert(legacy_id(45) == NodeTypeId::FRAME_BRIGHTNESS@);
            assert(NodeTypeId::SIGNAL_GENERATOR@.len() != NodeTypeId::FRAME_BRIGHTNESS@.len());
        }
    }
}

proof fn lemma_legacy_id_12_distinct()
    ensures
        forall|j: int| 12 < j < LEGACY_NODE_COUNT ==> legacy_id(12) != #[trigger] legacy_id(j),
{
    reveal_strlit("math.divide_float");
    assert(legacy_id(12) == NodeTypeId::DIVIDE_FLOAT@);
    assert forall|j: int| 12 < j < LEGACY_NODE_COUNT implies legacy_id(12) != #[trigger] legacy_id(j) by {
        if j == 13 {
            reveal_strlit("math.min_max_float");
            assert(legacy_id(13) == NodeTypeId::MIN_MAX_FLOAT@);
            assert(NodeTypeId::DIVIDE_FLOAT@.len() != NodeTypeId::MIN_MAX_FLOAT@.len());
        } else if j == 14 {
            reveal_strlit("math.multiply_float");
            assert(legacy_id(14) == NodeTypeId::MULTIPLY_FLOAT@);
            assert(NodeTypeId::DIVIDE_FLOAT@.len() != NodeTypeId::MULTIPLY_FLOAT@.len());
        } else if j == 15 {
            reveal_strlit("math.abs_float");
            assert(legacy_id(15) == NodeTypeId::ABS_FLOAT@);
            assert(NodeTypeId::DIVIDE_FLOAT@.len() != NodeTypeId::ABS_FLOAT@.len());
        } else if j == 16 {
            reveal_strlit("math.clamp_float");
            assert(legacy_id(16) == NodeTypeId::CLAMP_FLOAT@);
            assert(NodeTypeId::DIVIDE_FLOAT@.len() != NodeTypeId::CLAMP_FLOAT@.len());
        } else if j == 17 {
            reveal_strlit("math.power_float");
            assert(legacy_id(17) == NodeTypeId::POWER_FLOAT@);
            assert(NodeTypeId::DIVIDE_FLOAT@.len() != NodeTypeId::POWER_FLOAT@.len());
        } else if j == 18 {
            reveal_strlit("math.root_float");
            assert(legacy_id(18) == NodeTypeId::ROOT_FLOAT@);
            assert(NodeTypeId::DIVIDE_FLOAT@.len() != NodeTypeId::ROOT_FLOAT@.len());
        } else if j == 19 {
            reveal_strlit("math.exponential_float");
            assert(legacy_id(19) == NodeTypeId::EXPONENTIAL_FLOAT@);
            assert(NodeTypeId::DIVIDE_FLOAT@.len() != NodeTypeId::EXPONENTIAL_FLOAT@.len());
        } else if j == 20 {
            reveal_strlit("math.log_float");
            assert(legacy_id(20) == NodeTypeId::LOG_FLOAT@);
            assert(NodeTypeId::DIVIDE_FLOAT@.len() != NodeTypeId::LOG_FLOAT@.len());
        } else if j == 21 {
            reveal_strlit("math.map_range_float");
            assert(legacy_id(21) == NodeTypeId::MAP_RANGE_FLOAT@);
            assert(NodeTypeId::DIVIDE_FLOAT@.len() != NodeTypeId::MAP_RANGE_FLOAT@.len());
        } else if j == 22 {
            reveal_strlit("math.round_float");
            assert(legacy_id(22) == NodeTypeId::ROUND_FLOAT@);
            assert(NodeTypeId::DIVIDE_FLOAT@.len() != NodeTypeId::ROUND_FLOAT@.len());
        } else if j == 23 {
            reveal_strlit("math.scale_tensor");
            assert(legacy_id(23) == NodeTypeId::SCALE_TENSOR@);
            assert(NodeTypeId::DIVIDE_FLOAT@[5] != NodeTypeId::SCALE_TENSOR@[5]);
        } else if j == 24 {
            reveal_strlit("frame_operations.scale");
            assert(legacy_id(24) == NodeTypeId::SCALE_COLOR@);
            assert(NodeTypeId::DIVIDE_FLOAT@.len() != NodeTypeId::SCALE_COLOR@.len());
        } else if j == 25 {
            reveal_strlit("frame_operations.multiply");
            assert(legacy_id(25) == NodeTypeId::MULTIPLY_COLOR@);
            assert(NodeTypeId::DIVIDE_FLOAT@.len() != NodeTypeId::MULTIPLY_COLOR@.len());
        } else if j == 26 {
            reveal_strlit("frame_operations.tint_frame");
            assert(legacy_id(26) == NodeTypeId::TINT_FRAME@);
            assert(NodeTypeId::DIVIDE_FLOAT@.len() != NodeTypeId::TINT_FRAME@.len());
        } else if j == 27 {
            reveal_strlit("frame_operations.mask_frame");
            assert(legacy_id(27) == NodeTypeId::MASK_FRAME@);
            assert(NodeTypeId::DIVIDE_FLOAT@.len() != NodeTypeId::MASK_FRAME@.len());
        } else if j == 28 {
            reveal_strlit("frame_operations.mix");
            assert(legacy_id(28) == NodeTypeId::MIX_COLOR@);
            assert(NodeTypeId::DIVIDE_FLOAT@.len() != NodeTypeId::MIX_COLOR@.len());
        } else if j == 29 {
            reveal_strlit("frame_operations.alpha_over");
            assert(legacy_id(29) == NodeTypeId::ALPHA_OVER@);
            assert(NodeTypeId::DIVIDE_FLOAT@.len() != NodeTypeId::ALPHA_OVER@.len());
        } else if j == 30 {
            reveal_strlit("temporal_filters.fade");
            assert(legacy_id(30) == NodeTypeId::FADE@);
            assert(NodeTypeId::DIVIDE_FLOAT@.len() != NodeTypeId::FADE@.len());
        } else if j == 31 {
            reveal_strlit("temporal_filters.moving_average");
            assert(legacy_id(31) == NodeTypeId::MOVING_AVERAGE@);
            assert(NodeTypeId::DIVIDE_FLOAT@.len() != NodeTypeId::MOVING_AVERAGE@.len());
        } else if j == 32 {
            reveal_strlit("temporal_filters.moving_median");
            assert(legacy_id(32) == NodeTypeId::MOVING_MEDIAN@);
            assert(NodeTypeId::DIVIDE_FLOAT@.len() != NodeTypeId::MOVING_MEDIAN@.len());
        } else if j == 33 {
            reveal_strlit("spatial_filters.box_blur");
            assert(legacy_id(33) == NodeTypeId::BOX_BLUR@);
            assert(NodeTypeId::DIVIDE_FLOAT@.len() != NodeTypeId::BOX_BLUR@.len());
        } else if j == 34 {
            reveal_strlit("spatial_filters.gaussian_blur");
            assert(legacy_id(34) == NodeTypeId::GAUSSIAN_BLUR@);
            assert(NodeTypeId::DIVIDE_FLOAT@.len() != NodeTypeId::GAUSSIAN_BLUR@.len());
        } else if j == 35 {
            reveal_strlit("spatial_filters.median_filter");
            assert(legacy_id(35) == NodeTypeId::MEDIAN_FILTER@);
            assert(NodeTypeId::DIVIDE_FLOAT@.len() != NodeTypeId::MEDIAN_FILTER@.len());
        } else if j == 36 {
            reveal_strlit("generators.spectrum_analyzer");
            assert(legacy_id(36) == NodeTypeId::SPECTRUM_ANALYZER@);
            assert(NodeTypeId::DIVIDE_FLOAT@.len() != NodeTypeId::SPECTRUM_ANALYZER@.len());
        } else if j == 37 {
            reveal_strlit("generators.solid_frame");
            assert(legacy_id(37) == NodeTypeId::SOLID_FRAME@);
            assert(NodeTypeId::DIVIDE_FLOAT@.len() != NodeTypeId::SOLID_FRAME@.len());
        } else if j == 38 {
            reveal_strlit("generators.rainbow_sweep");
            assert(legacy_id(38) == NodeTypeId::RAINBOW_SWEEP@);
            assert(NodeTypeId::DIVIDE_FLOAT@.len() != NodeTypeId::RAINBOW_SWEEP@.len());
        } else if j == 39 {
            reveal_strlit("generators.circle_sweep");
            assert(legacy_id(39) == NodeTypeId::CIRCLE_SWEEP@);
            assert(NodeTypeId::DIVIDE_FLOAT@.len() != NodeTypeId::CIRCLE_SWEEP@.len());
        } else if j == 40 {
            reveal_strlit("generators.level_bar");
            assert(legacy_id(40) == NodeTypeId::LEVEL_BAR@);
            assert(NodeTypeId::DIVIDE_FLOAT@.len() != NodeTypeId::LEVEL_BAR@.len());
        } else if j == 41 {
            reveal_strlit("generators.twinkle_stars");
            assert(legacy_id(41) == NodeTypeId::TWINKLE_STARS@);
            assert(NodeTypeId::DIVIDE_FLOAT@.len() != NodeTypeId::TWINKLE_STARS@.len());
        } else if j == 42 {
            reveal_strlit("generators.plasma");
            assert(legacy_id(42) == NodeTypeId::PLASMA@);
            assert(NodeTypeId::DIVIDE_FLOAT@[0] != NodeTypeId::PLASMA@[0]);
        } else if j == 43 {
            reveal_strlit("generators.bouncing_balls");
            assert(legacy_id(43) == NodeTypeId::BOUNCING_BALLS@);
            assert(NodeTypeId::DIVIDE_FLOAT@.len() != NodeTypeId::BOUNCING_BALLS@.len());
        } else if j == 44 {
            reveal_strlit("debug.wled_dummy_display");
            assert(legacy_id(44) == NodeTypeId::WLED_DUMMY_DISPLAY@);
            assert(NodeTypeId::DIVIDE_FLOAT@.len() != NodeTypeId::WLED_DUMMY_DISPLAY@.len());
        } else if j == 45 {
            reveal_strlit("frame_operations.frame_brightness");
            assert(legacy_id(45) == NodeTypeId::FRAME_BRIGHTNESS@);
            assert(NodeTypeId::DIVIDE_FLOAT@.len() != NodeTypeId::FRAME_BRIGHTNESS@.len());
        }
    }
}

proof fn lemma_legacy_id_13_distinct()
    ensures
        forall|j: int| 13 < j < LEGACY_NODE_COUNT ==> legacy_id(13) != #[trigger] legacy_id(j),
{
    reveal_strlit("math.min_max_float");
    assert(legacy_id(13) == NodeTypeId::MIN_MAX_FLOAT@);
    assert forall|j: int| 13 < j < LEGACY_NODE_COUNT implies legacy_id(13) != #[trigger] legacy_id(j) by {
        if j == 14 {
            reveal_strlit("math.multiply_float");
            assert(legacy_id(14) == NodeTypeId::MULTIPLY_FLOAT@);
            assert(NodeTypeId::MIN_MAX_FLOAT@.len() != NodeTypeId::MULTIPLY_FLOAT@.len());
        } else if j == 15 {
            reveal_strlit("math.abs_float");
            assert(legacy_id(15) == NodeTypeId::ABS_FLOAT@);
            assert(NodeTypeId::MIN_MAX_FLOAT@.len() != NodeTypeId::ABS_FLOAT@.len());
        } else if j == 16 {
            reveal_strlit("math.clamp_float");
            assert(legacy_id(16) == NodeTypeId::CLAMP_FLOAT@);
            assert(NodeTypeId::MIN_MAX_FLOAT@.len() != NodeTypeId::CLAMP_FLOAT@.len());
        } else if j == 17 {
            reveal_strlit("math.power_float");
            assert(legacy_id(17) == NodeTypeId::POWER_FLOAT@);
            assert(NodeTypeId::MIN_MAX_FLOAT@.len() != NodeTypeId::POWER_FLOAT@.len());
        } else if j == 18 {
            reveal_strlit("math.root_float");
            assert(legacy_id(18) == NodeTypeId::ROOT_FLOAT@);
            assert(NodeTypeId::MIN_MAX_FLOAT@.len() != NodeTypeId::ROOT_FLOAT@.len());
        } else if j == 19 {
            reveal_strlit("math.exponential_float");
            assert(legacy_id(19) == NodeTypeId::EXPONENTIAL_FLOAT@);
            assert(NodeTypeId::MIN_MAX_FLOAT@.len() != NodeTypeId::EXPONENTIAL_FLOAT@.len());
        } else if j == 20 {
            reveal_strlit("math.log_float");
            assert(legacy_id(20) == NodeTypeId::LOG_FLOAT@);
            assert(NodeTypeId::MIN_MAX_FLOAT@.len() != NodeTypeId::LOG_FLOAT@.len());
        } else if j == 21 {
            reveal_strlit("math.map_range_float");
            assert(legacy_id(21) == NodeTypeId::MAP_RANGE_FLOAT@);
            assert(NodeTypeId::MIN_MAX_FLOAT@.len() != NodeTypeId::MAP_RANGE_FLOAT@.len());
        } else if j == 22 {
            reveal_strlit("math.round_float");
            assert(legacy_id(22) == NodeTypeId::ROUND_FLOAT@);
            assert(NodeTypeId::MIN_MAX_FLOAT@.len() != NodeTypeId::ROUND_FLOAT@.len());
        } else if j == 23 {
            reveal_strlit("math.scale_tensor");
            assert(legacy_id(23) == NodeTypeId::SCALE_TENSOR@);
            assert(NodeTypeId::MIN_MAX_FLOAT@.len() != NodeTypeId::SCALE_TENSOR@.len());
        } else if j == 24 {
            reveal_strlit("frame_operations.scale");
            assert(legacy_id(24) == NodeTypeId::SCALE_COLOR@);
            assert(NodeTypeId::MIN_MAX_FLOAT@.len() != NodeTypeId::SCALE_COLOR@.len());
        } else if j == 25 {
            reveal_strlit("frame_operations.multiply");
            assert(legacy_id(25) == NodeTypeId::MULTIPLY_COLOR@);
            assert(NodeTypeId::MIN_MAX_FLOAT@.len() != NodeTypeId::MULTIPLY_COLOR@.len());
        } else if j == 26 {
            reveal_strlit("frame_operations.tint_frame");
            assert(legacy_id(26) == NodeTypeId::TINT_FRAME@);
            assert(NodeTypeId::MIN_MAX_FLOAT@.len() != NodeTypeId::TINT_FRAME@.len());
        } else if j == 27 {
            reveal_strlit("frame_operations.mask_frame");
            assert(legacy_id(27) == NodeTypeId::MASK_FRAME@);
            assert(NodeTypeId::MIN_MAX_FLOAT@.len() != NodeTypeId::MASK_FRAME@.len());
        } else if j == 28 {
            reveal_strlit("frame_operations.mix");
            assert(legacy_id(28) == NodeTypeId::MIX_COLOR@);
            assert(NodeTypeId::MIN_MAX_FLOAT@.len() != NodeTypeId::MIX_COLOR@.len());
        } else if j == 29 {
            reveal_strlit("frame_operations.alpha_over");
            assert(legacy_id(29) == NodeTypeId::ALPHA_OVER@);
            assert(NodeTypeId::MIN_MAX_FLOAT@.len() != NodeTypeId::ALPHA_OVER@.len());
        } else if j == 30 {
            reveal_strlit("temporal_filters.fade");
            assert(legacy_id(30) == NodeTypeId::FADE@);
            assert(NodeTypeId::MIN_MAX_FLOAT@.len() != NodeTypeId::FADE@.len());
        } else if j == 31 {
            reveal_strlit("temporal_filters.moving_average");
            assert(legacy_id(31) == NodeTypeId::MOVING_AVERAGE@);
            assert(NodeTypeId::MIN_MAX_FLOAT@.len() != NodeTypeId::MOVING_AVERAGE@.len());
        } else if j == 32 {
            reveal_strlit("temporal_filters.moving_median");
            assert(legacy_id(32) == NodeTypeId::MOVING_MEDIAN@);
            assert(NodeTypeId::MIN_MAX_FLOAT@.len() != NodeTypeId::MOVING_MEDIAN@.len());
        } else if j == 33 {
            reveal_strlit("spatial_filters.box_blur");
            assert(legacy_id(33) == NodeTypeId::BOX_BLUR@);
            assert(NodeTypeId::MIN_MAX_FLOAT@.len() != NodeTypeId::BOX_BLUR@.len());
        } else if j == 34 {
            reveal_strlit("spatial_filters.gaussian_blur");
            assert(legacy_id(34) == NodeTypeId::GAUSSIAN_BLUR@);
            assert(NodeTypeId::MIN_MAX_FLOAT@.len() != NodeTypeId::GAUSSIAN_BLUR@.len());
        } else if j == 35 {
            reveal_strlit("spatial_filters.median_filter");
            assert(legacy_id(35) == NodeTypeId::MEDIAN_FILTER@);
            assert(NodeTypeId::MIN_MAX_FLOAT@.len() != NodeTypeId::MEDIAN_FILTER@.len());
        } else if j == 36 {
            reveal_strlit("generators.spectrum_analyzer");
            assert(legacy_id(36) == NodeTypeId::SPECTRUM_ANALYZER@);
            assert(NodeTypeId::MIN_MAX_FLOAT@.len() != NodeTypeId::SPECTRUM_ANALYZER@.len());
        } else if j == 37 {
            reveal_strlit("generators.solid_frame");
            assert(legacy_id(37) == NodeTypeId::SOLID_FRAME@);
            assert(NodeTypeId::MIN_MAX_FLOAT@.len() != NodeTypeId::SOLID_FRAME@.len());
        } else if j == 38 {
            reveal_strlit("generators.rainbow_sweep");
            assert(legacy_id(38) == NodeTypeId::RAINBOW_SWEEP@);
            assert(NodeTypeId::MIN_MAX_FLOAT@.len() != NodeTypeId::RAINBOW_SWEEP@.len());
        } else if j == 39 {
            reveal_strlit("generators.circle_sweep");
            assert(legacy_id(39) == NodeTypeId::CIRCLE_SWEEP@);
            assert(NodeTypeId::MIN_MAX_FLOAT@.len() != NodeTypeId::CIRCLE_SWEEP@.len());
        } else if j == 40 {
            reveal_strlit("generators.level_bar");
            assert(legacy_id(40) == NodeTypeId::LEVEL_BAR@);
            assert(NodeTypeId::MIN_MAX_FLOAT@.len() != NodeTypeId::LEVEL_BAR@.len());
        } else if j == 41 {
            reveal_strlit("generators.twinkle_stars");
            assert(legacy_id(41) == NodeTypeId::TWINKLE_STARS@);
            assert(NodeTypeId::MIN_MAX_FLOAT@.len() != NodeTypeId::TWINKLE_STARS@.len());
        } else if j == 42 {
            reveal_strlit("generators.plasma");
            assert(legacy_id(42) == NodeTypeId::PLASMA@);
            assert(NodeTypeId::MIN_MAX_FLOAT@.len() != NodeTypeId::PLASMA@.len());
        } else if j == 43 {
            reveal_strlit("generators.bouncing_balls");
            assert(legacy_id(43) == NodeTypeId::BOUNCING_BALLS@);
            assert(NodeTypeId::MIN_MAX_FLOAT@.len() != NodeTypeId::BOUNCING_BALLS@.len());
        } else if j == 44 {
            reveal_strlit("debug.wled_dummy_display");
            assert(legacy_id(44) == NodeTypeId::WLED_DUMMY_DISPLAY@);
            assert(NodeTypeId::MIN_MAX_FLOAT@.len() != NodeTypeId::WLED_DUMMY_DISPLAY@.len());
        } else if j == 45 {
            reveal_strlit("frame_operations.frame_brightness");
            assert(legacy_id(45) == NodeTypeId::FRAME_BRIGHTNESS@);
            assert(NodeTypeId::MIN_MAX_FLOAT@.len() != NodeTypeId::FRAME_BRIGHTNESS@.len());
        }
    }
}

proof fn lemma_legacy_id_14_distinct()
    ensures
        forall|j: int| 14 < j < LEGACY_NODE_COUNT ==> legacy_id(14) != #[trigger] legacy_id(j),
{
    reveal_strlit("math.multiply_float");
    assert(legacy_id(14) == NodeTypeId::MULTIPLY_FLOAT@);
    assert forall|j: int| 14 < j < LEGACY_NODE_COUNT implies legacy_id(14) != #[trigger] legacy_id(j) by {
        if j == 15 {
            reveal_strlit("math.abs_float");
            assert(legacy_id(15) == NodeTypeId::ABS_FLOAT@);
            assert(NodeTypeId::MULTIPLY_FLOAT@.len() != NodeTypeId::ABS_FLOAT@.len());
        } else if j == 16 {
            reveal_strlit("math.clamp_float");
            assert(legacy_id(16) == NodeTypeId::CLAMP_FLOAT@);
            assert(NodeTypeId::MULTIPLY_FLOAT@.len() != NodeTypeId::CLAMP_FLOAT@.len());
        } else if j == 17 {
            reveal_strlit("math.power_float");
            assert(legacy_id(17) == NodeTypeId::POWER_FLOAT@);
            assert(NodeTypeId::MULTIPLY_FLOAT@.len() != NodeTypeId::POWER_FLOAT@.len());
        } else if j == 18 {
            reveal_strlit("math.root_float");
            assert(legacy_id(18) == NodeTypeId::ROOT_FLOAT@);
            assert(NodeTypeId::MULTIPLY_FLOAT@.len() != NodeTypeId::ROOT_FLOAT@.len());
        } else if j == 19 {
            reveal_strlit("math.exponential_float");
            assert(legacy_id(19) == NodeTypeId::EXPONENTIAL_FLOAT@);
            assert(NodeTypeId::MULTIPLY_FLOAT@.len() != NodeTypeId::EXPONENTIAL_FLOAT@.len());
        } else if j == 20 {
            reveal_strlit("math.log_float");
            assert(legacy_id(20) == NodeTypeId::LOG_FLOAT@);
            assert(NodeTypeId::MULTIPLY_FLOAT@.len() != NodeTypeId::LOG_FLOAT@.len());
        } else if j == 21 {
            reveal_strlit("math.map_range_float");
            assert(legacy_id(21) == NodeTypeId::MAP_RANGE_FLOAT@);
            assert(NodeTypeId::MULTIPLY_FLOAT@.len() != NodeTypeId::MAP_RANGE_FLOAT@.len());
        } else if j == 22 {
            reveal_strlit("math.round_float");
            assert(legacy_id(22) == NodeTypeId::ROUND_FLOAT@);
            assert(NodeTypeId::MULTIPLY_FLOAT@.len() != NodeTypeId::ROUND_FLOAT@.len());
        } else if j == 23 {
            reveal_strlit("math.scale_tensor");
            assert(legacy_id(23) == NodeTypeId::SCALE_TENSOR@);
            assert(NodeTypeId::MULTIPLY_FLOAT@.len() != NodeTypeId::SCALE_TENSOR@.len());
        } else if j == 24 {
            reveal_strlit("frame_operations.scale");
            assert(legacy_id(24) == NodeTypeId::SCALE_COLOR@);
            assert(NodeTypeId::MULTIPLY_FLOAT@.len() != NodeTypeId::SCALE_COLOR@.len());
        } else if j == 25 {
            reveal_strlit("frame_operations.multiply");
            assert(legacy_id(25) == NodeTypeId::MULTIPLY_COLOR@);
            assert(NodeTypeId::MULTIPLY_FLOAT@.len() != NodeTypeId::MULTIPLY_COLOR@.len());
        } else if j == 26 {
            reveal_strlit("frame_operations.tint_frame");
            assert(legacy_id(26) == NodeTypeId::TINT_FRAME@);
            assert(NodeTypeId::MULTIPLY_FLOAT@.len() != NodeTypeId::TINT_FRAME@.len());
        } else if j == 27 {
            reveal_strlit("frame_operations.mask_frame");
            assert(legacy_id(27) == NodeTypeId::MASK_FRAME@);
            assert(NodeTypeId::MULTIPLY_FLOAT@.len() != NodeTypeId::MASK_FRAME@.len());
        } else if j == 28 {
            reveal_strlit("frame_operations.mix");
            assert(legacy_id(28) == NodeTypeId::MIX_COLOR@);
            assert(NodeTypeId::MULTIPLY_FLOAT@.len() != NodeTypeId::MIX_COLOR@.len());
        } else if j == 29 {
            reveal_strlit("frame_operations.alpha_over");
            assert(legacy_id(29) == NodeTypeId::ALPHA_OVER@);
            assert(NodeTypeId::MULTIPLY_FLOAT@.len() != NodeTypeId::ALPHA_OVER@.len());
        } else if j == 30 {
            reveal_strlit("temporal_filters.fade");
            assert(legacy_id(30) == NodeTypeId::FADE@);
            assert(NodeTypeId::MULTIPLY_FLOAT@.len() != NodeTypeId::FADE@.len());
        } else if j == 31 {
            reveal_strlit("temporal_filters.moving_average");
            assert(legacy_id(31) == NodeTypeId::MOVING_AVERAGE@);
            assert(NodeTypeId::MULTIPLY_FLOAT@.len() != NodeTypeId::MOVING_AVERAGE@.len());
        } else if j == 32 {
            reveal_strlit("temporal_filters.moving_median");
            assert(legacy_id(32) == NodeTypeId::MOVING_MEDIAN@);
            assert(NodeTypeId::MULTIPLY_FLOAT@.len() != NodeTypeId::MOVING_MEDIAN@.len());
        } else if j == 33 {
            reveal_strlit("spatial_filters.box_blur");
            assert(legacy_id(33) == NodeTypeId::BOX_BLUR@);
            assert(NodeTypeId::MULTIPLY_FLOAT@.len() != NodeTypeId::BOX_BLUR@.len());
        } else if j == 34 {
            reveal_strlit("spatial_filters.gaussian_blur");
            assert(legacy_id(34) == NodeTypeId::GAUSSIAN_BLUR@);
            assert(NodeTypeId::MULTIPLY_FLOAT@.len() != NodeTypeId::GAUSSIAN_BLUR@.len());
        } else if j == 35 {
            reveal_strlit("spatial_filters.median_filter");
            assert(legacy_id(35) == NodeTypeId::MEDIAN_FILTER@);
            assert(NodeTypeId::MULTIPLY_FLOAT@.len() != NodeTypeId::MEDIAN_FILTER@.len());
        } else if j == 36 {
            reveal_strlit("generators.spectrum_analyzer");
            assert(legacy_id(36) == NodeTypeId::SPECTRUM_ANALYZER@);
            assert(NodeTypeId::MULTIPLY_FLOAT@.len() != NodeTypeId::SPECTRUM_ANALYZER@.len());
        } else if j == 37 {
            reveal_strlit("generators.solid_frame");
            assert(legacy_id(37) == NodeTypeId::SOLID_FRAME@);
            assert(NodeTypeId::MULTIPLY_FLOAT@.len() != NodeTypeId::SOLID_FRAME@.len());
        } else if j == 38 {
            reveal_strlit("generators.rainbow_sweep");
            assert(legacy_id(38) == NodeTypeId::RAINBOW_SWEEP@);
            assert(NodeTypeId::MULTIPLY_FLOAT@.len() != NodeTypeId::RAINBOW_SWEEP@.len());
        } else if j == 39 {
            reveal_strlit("generators.circle_sweep");
            assert(legacy_id(39) == NodeTypeId::CIRCLE_SWEEP@);
            assert(NodeTypeId::MULTIPLY_FLOAT@.len() != NodeTypeId::CIRCLE_SWEEP@.len());
        } else if j == 40 {
            reveal_strlit("generators.level_bar");
            assert(legacy_id(40) == NodeTypeId::LEVEL_BAR@);
            assert(NodeTypeId::MULTIPLY_FLOAT@.len() != NodeTypeId::LEVEL_BAR@.len());
        } else if j == 41 {
            reveal_strlit("generators.twinkle_stars");
            assert(legacy_id(41) == NodeTypeId::TWINKLE_STARS@);
            assert(NodeTypeId::MULTIPLY_FLOAT@.len() != NodeTypeId::TWINKLE_STARS@.len());
        } else if j == 42 {
            reveal_strlit("generators.plasma");
            assert(legacy_id(42) == NodeTypeId::PLASMA@);
            assert(NodeTypeId::MULTIPLY_FLOAT@.len() != NodeTypeId::PLASMA@.len());
        } else if j == 43 {
            reveal_strlit("generators.bouncing_balls");
            assert(legacy_id(43) == NodeTypeId::BOUNCING_BALLS@);
            assert(NodeTypeId::MULTIPLY_FLOAT@.len() != NodeTypeId::BOUNCING_BALLS@.len());
        } else if j == 44 {
            reveal_strlit("debug.wled_dummy_display");
            assert(legacy_id(44) == NodeTypeId::WLED_DUMMY_DISPLAY@);
            assert(NodeTypeId::MULTIPLY_FLOAT@.len() != NodeTypeId::WLED_DUMMY_DISPLAY@.len());
        } else if j == 45 {
            reveal_strlit("frame_operations.frame_brightness");
            assert(legacy_id(45) == NodeTypeId::FRAME_BRIGHTNESS@);
            assert(NodeTypeId::MULTIPLY_FLOAT@.len() != NodeTypeId::FRAME_BRIGHTNESS@.len());
        }
    }
}

proof fn lemma_legacy_id_15_distinct()
    ensures
        forall|j: int| 15 < j < LEGACY_NODE_COUNT ==> legacy_id(15) != #[trigger] legacy_id(j),
{
    reveal_strlit("math.abs_float");
    assert(legacy_id(15) == NodeTypeId::ABS_FLOAT@);
    assert forall|j: int| 15 < j < LEGACY_NODE_COUNT implies legacy_id(15) != #[trigger] legacy_id(j) by {
        if j == 16 {
            reveal_strlit("math.clamp_float");
            assert(legacy_id(16) == NodeTypeId::CLAMP_FLOAT@);
            assert(NodeTypeId::ABS_FLOAT@.len() != NodeTypeId::CLAMP_FLOAT@.len());
        } else if j == 17 {
            reveal_strlit("math.power_float");
            assert(legacy_id(17) == NodeTypeId::POWER_FLOAT@);
            assert(NodeTypeId::ABS_FLOAT@.len() != NodeTypeId::POWER_FLOAT@.len());
        } else if j == 18 {
            reveal_strlit("math.root_float");
            assert(legacy_id(18) == NodeTypeId::ROOT_FLOAT@);
            assert(NodeTypeId::ABS_FLOAT@.len() != NodeTypeId::ROOT_FLOAT@.len());
        } else if j == 19 {
            reveal_strlit("math.exponential_float");
            assert(legacy_id(19) == NodeTypeId::EXPONENTIAL_FLOAT@);
            assert(NodeTypeId::ABS_FLOAT@.len() != NodeTypeId::EXPONENTIAL_FLOAT@.len());
        } else if j == 20 {
            reveal_strlit("math.log_float");
            assert(legacy_id(20) == NodeTypeId::LOG_FLOAT@);
            assert(NodeTypeId::ABS_FLOAT@[5] != NodeTypeId::LOG_FLOAT@[5]);
        } else if j == 21 {
            reveal_strlit("math.map_range_float");
            assert(legacy_id(21) == NodeTypeId::MAP_RANGE_FLOAT@);
            assert(NodeTypeId::ABS_FLOAT@.len() != NodeTypeId::MAP_RANGE_FLOAT@.len());
        } else if j == 22 {
            reveal_strlit("math.round_float");
            assert(legacy_id(22) == NodeTypeId::ROUND_FLOAT@);
            assert(NodeTypeId::ABS_FLOAT@.len() != NodeTypeId::ROUND_FLOAT@.len());
        } else if j == 23 {
            reveal_strlit("math.scale_tensor");
            assert(legacy_id(23) == NodeTypeId::SCALE_TENSOR@);
            assert(NodeTypeId::ABS_FLOAT@.len() != NodeTypeId::SCALE_TENSOR@.len());
        } else if j == 24 {
            reveal_strlit("frame_operations.scale");
            assert(legacy_id(24) == NodeTypeId::SCALE_COLOR@);
            assert(NodeTypeId::ABS_FLOAT@.len() != NodeTypeId::SCALE_COLOR@.len());
        } else if j == 25 {
            reveal_strlit("frame_operations.multiply");
            assert(legacy_id(25) == NodeTypeId::MULTIPLY_COLOR@);
            assert(NodeTypeId::ABS_FLOAT@.len() != NodeTypeId::MULTIPLY_COLOR@.len());
        } else if j == 26 {
            reveal_strlit("frame_operations.tint_frame");
            assert(legacy_id(26) == NodeTypeId::TINT_FRAME@);
            assert(NodeTypeId::ABS_FLOAT@.len() != NodeTypeId::TINT_FRAME@.len());
        } else if j == 27 {
            reveal_strlit("frame_operations.mask_frame");
            assert(legacy_id(27) == NodeTypeId::MASK_FRAME@);
            assert(NodeTypeId::ABS_FLOAT@.len() != NodeTypeId::MASK_FRAME@.len());
        } else if j == 28 {
            reveal_strlit("frame_operations.mix");
            assert(legacy_id(28) == NodeTypeId::MIX_COLOR@);
            assert(NodeTypeId::ABS_FLOAT@.len() != NodeTypeId::MIX_COLOR@.len());
        } else if j == 29 {
            reveal_strlit("frame_operations.alpha_over");
            assert(legacy_id(29) == NodeTypeId::ALPHA_OVER@);
            assert(NodeTypeId::ABS_FLOAT@.len() != NodeTypeId::ALPHA_OVER@.len());
        } else if j == 30 {
            reveal_strlit("temporal_filters.fade");
            assert(legacy_id(30) == NodeTypeId::FADE@);
            assert(NodeTypeId::ABS_FLOAT@.len() != NodeTypeId::FADE@.len());
        } else if j == 31 {
            reveal_strlit("temporal_filters.moving_average");
            assert(legacy_id(31) == NodeTypeId::MOVING_AVERAGE@);
            assert(NodeTypeId::ABS_FLOAT@.len() != NodeTypeId::MOVING_AVERAGE@.len());
        } else if j == 32 {
            reveal_strlit("temporal_filters.moving_median");
            assert(legacy_id(32) == NodeTypeId::MOVING_MEDIAN@);
            assert(NodeTypeId::ABS_FLOAT@.len() != NodeTypeId::MOVING_MEDIAN@.len());
        } else if j == 33 {
            reveal_strlit("spatial_filters.box_blur");
            assert(legacy_id(33) == NodeTypeId::BOX_BLUR@);
            assert(NodeTypeId::ABS_FLOAT@.len() != NodeTypeId::BOX_BLUR@.len());
        } else if j == 34 {
            reveal_strlit("spatial_filters.gaussian_blur");
            assert(legacy_id(34) == NodeTypeId::GAUSSIAN_BLUR@);
            assert(NodeTypeId::ABS_FLOAT@.len() != NodeTypeId::GAUSSIAN_BLUR@.len());
        } else if j == 35 {
            reveal_strlit("spatial_filters.median_filter");
            assert(legacy_id(35) == NodeTypeId::MEDIAN_FILTER@);
            assert(NodeTypeId::ABS_FLOAT@.len() != NodeTypeId::MEDIAN_FILTER@.len());
        } else if j == 36 {
            reveal_strlit("generators.spectrum_analyzer");
            assert(legacy_id(36) == NodeTypeId::SPECTRUM_ANALYZER@);
            assert(NodeTypeId::ABS_FLOAT@.len() != NodeTypeId::SPECTRUM_ANALYZER@.len());
        } else if j == 37 {
            reveal_strlit("generators.solid_frame");
            assert(legacy_id(37) == NodeTypeId::SOLID_FRAME@);
            assert(NodeTypeId::ABS_FLOAT@.len() != NodeTypeId::SOLID_FRAME@.len());
        } else if j == 38 {
            reveal_strlit("generators.rainbow_sweep");
            assert(legacy_id(38) == NodeTypeId::RAINBOW_SWEEP@);
            assert(NodeTypeId::ABS_FLOAT@.len() != NodeTypeId::RAINBOW_SWEEP@.len());
        } else if j == 39 {
            reveal_strlit("generators.circle_sweep");
            assert(legacy_id(39) == NodeTypeId::CIRCLE_SWEEP@);
            assert(NodeTypeId::ABS_FLOAT@.len() != NodeTypeId::CIRCLE_SWEEP@.len());
        } else if j == 40 {
            reveal_strlit("generators.level_bar");
            assert(legacy_id(40) == NodeTypeId::LEVEL_BAR@);
            assert(NodeTypeId::ABS_FLOAT@.len() != NodeTypeId::LEVEL_BAR@.len());
        } else if j == 41 {
            reveal_strlit("generators.twinkle_stars");
            assert(legacy_id(41) == NodeTypeId::TWINKLE_STARS@);
            assert(NodeTypeId::ABS_FLOAT@.len() != NodeTypeId::TWINKLE_STARS@.len());
        } else if j == 42 {
            reveal_strlit("generators.plasma");
            assert(legacy_id(42) == NodeTypeId::PLASMA@);
            assert(NodeTypeId::ABS_FLOAT@.len() != NodeTypeId::PLASMA@.len());
        } else if j == 43 {
            reveal_strlit("generators.bouncing_balls");
            assert(legacy_id(43) == NodeTypeId::BOUNCING_BALLS@);
            assert(NodeTypeId::ABS_FLOAT@.len() != NodeTypeId::BOUNCING_BALLS@.len());
        } else if j == 44 {
            reveal_strlit("debug.wled_dummy_display");
            assert(legacy_id(44) == NodeTypeId::WLED_DUMMY_DISPLAY@);
            assert(NodeTypeId::ABS_FLOAT@.len() != NodeTypeId::WLED_DUMMY_DISPLAY@.len());
        } else if j == 45 {
            reveal_strlit("frame_operations.frame_brightness");
            assert(legacy_id(45) == NodeTypeId::FRAME_BRIGHTNESS@);
            assert(NodeTypeId::ABS_FLOAT@.len() != NodeTypeId::FRAME_BRIGHTNESS@.len());
        }
    }
}

proof fn lemma_legacy_id_16_distinct()
    ensures
        forall|j: int| 16 < j < LEGACY_NODE_COUNT ==> legacy_id(16) != #[trigger] legacy_id(j),
{
    reveal_strlit("math.clamp_float");
    assert(legacy_id(16) == NodeTypeId::CLAMP_FLOAT@);
    assert forall|j: int| 16 < j < LEGACY_NODE_COUNT implies legacy_id(16) != #[trigger] legacy_id(j) by {
        if j == 17 {
            reveal_strlit("math.power_float");
            assert(legacy_id(17) == NodeTypeId::POWER_FLOAT@);
            assert(NodeTypeId::CLAMP_FLOAT@[5] != NodeTypeId::POWER_FLOAT@[5]);
        } else if j == 18 {
            reveal_strlit("math.root_float");
            assert(legacy_id(18) == NodeTypeId::ROOT_FLOAT@);
            assert(NodeTypeId::CLAMP_FLOAT@.len() != NodeTypeId::ROOT_FLOAT@.len());
        } else if j == 19 {
            reveal_strlit("math.exponential_float");
            assert(legacy_id(19) == NodeTypeId::EXPONENTIAL_FLOAT@);
            assert(NodeTypeId::CLAMP_FLOAT@.len() != NodeTypeId::EXPONENTIAL_FLOAT@.len());
        } else if j == 20 {
            reveal_strlit("math.log_float");
            assert(legacy_id(20) == NodeTypeId::LOG_FLOAT@);
            assert(NodeTypeId::CLAMP_FLOAT@.len() != NodeTypeId::LOG_FLOAT@.len());
        } else if j == 21 {
            reveal_strlit("math.map_range_float");
            assert(legacy_id(21) == NodeTypeId::MAP_RANGE_FLOAT@);
            assert(NodeTypeId::CLAMP_FLOAT@.len() != NodeTypeId::MAP_RANGE_FLOAT@.len());
        } else if j == 22 {
            reveal_strlit("math.round_float");
            assert(legacy_id(22) == NodeTypeId::ROUND_FLOAT@);
            assert(NodeTypeId::CLAMP_FLOAT@[5] != NodeTypeId::ROUND_FLOAT@[5]);
        } else if j == 23 {
            reveal_strlit("math.scale_tensor");
            assert(legacy_id(23) == NodeTypeId::SCALE_TENSOR@);
            assert(NodeTypeId::CLAMP_FLOAT@.len() != NodeTypeId::SCALE_TENSOR@.len());
        } else if j == 24 {
            reveal_strlit("frame_operations.scale");
            assert(legacy_id(24) == NodeTypeId::SCALE_COLOR@);
            assert(NodeTypeId::CLAMP_FLOAT@.len() != NodeTypeId::SCALE_COLOR@.len());
        } else if j == 25 {
            reveal_strlit("frame_operations.multiply");
            assert(legacy_id(25) == NodeTypeId::MULTIPLY_COLOR@);
            assert(NodeTypeId::CLAMP_FLOAT@.len() != NodeTypeId::MULTIPLY_COLOR@.len());
        } else if j == 26 {
            reveal_strlit("frame_operations.tint_frame");
            assert(legacy_id(26) == NodeTypeId::TINT_FRAME@);
            assert(NodeTypeId::CLAMP_FLOAT@.len() != NodeTypeId::TINT_FRAME@.len());
        } else if j == 27 {
            reveal_strlit("frame_operations.mask_frame");
            assert(legacy_id(27) == NodeTypeId::MASK_FRAME@);
            assert(NodeTypeId::CLAMP_FLOAT@.len() != NodeTypeId::MASK_FRAME@.len());
        } else if j == 28 {
            reveal_strlit("frame_operations.mix");
            assert(legacy_id(28) == NodeTypeId::MIX_COLOR@);
            assert(NodeTypeId::CLAMP_FLOAT@.len() != NodeTypeId::MIX_COLOR@.len());
        } else if j == 29 {
            reveal_strlit("frame_operations.alpha_over");
            assert(legacy_id(29) == NodeTypeId::ALPHA_OVER@);
            assert(NodeTypeId::CLAMP_FLOAT@.len() != NodeTypeId::ALPHA_OVER@.len());
        } else if j == 30 {
            reveal_strlit("temporal_filters.fade");
            assert(legacy_id(30) == NodeTypeId::FADE@);
            assert(NodeTypeId::CLAMP_FLOAT@.len() != NodeTypeId::FADE@.len());
        } else if j == 31 {
            reveal_strlit("temporal_filters.moving_average");
            assert(legacy_id(31) == NodeTypeId::MOVING_AVERAGE@);
            assert(NodeTypeId::CLAMP_FLOAT@.len() != NodeTypeId::MOVING_AVERAGE@.len());
        } else if j == 32 {
            reveal_strlit("temporal_filters.moving_median");
            assert(legacy_id(32) == NodeTypeId::MOVING_MEDIAN@);
            assert(NodeTypeId::CLAMP_FLOAT@.len() != NodeTypeId::MOVING_MEDIAN@.len());
        } else if j == 33 {
            reveal_strlit("spatial_filters.box_blur");
            assert(legacy_id(33) == NodeTypeId::BOX_BLUR@);
            assert(NodeTypeId::CLAMP_FLOAT@.len() != NodeTypeId::BOX_BLUR@.len());
        } else if j == 34 {
            reveal_strlit("spatial_filters.gaussian_blur");
            assert(legacy_id(34) == NodeTypeId::GAUSSIAN_BLUR@);
            assert(NodeTypeId::CLAMP_FLOAT@.len() != NodeTypeId::GAUSSIAN_BLUR@.len());
        } else if j == 35 {
            reveal_strlit("spatial_filters.median_filter");
            assert(legacy_id(35) == NodeTypeId::MEDIAN_FILTER@);
            assert(NodeTypeId::CLAMP_FLOAT@.len() != NodeTypeId::MEDIAN_FILTER@.len());
        } else if j == 36 {
            reveal_strlit("generators.spectrum_analyzer");
            assert(legacy_id(36) == NodeTypeId::SPECTRUM_ANALYZER@);
            assert(NodeTypeId::CLAMP_FLOAT@.len() != NodeTypeId::SPECTRUM_ANALYZER@.len());
        } else if j == 37 {
            reveal_strlit("generators.solid_frame");
            assert(legacy_id(37) == NodeTypeId::SOLID_FRAME@);
            assert(NodeTypeId::CLAMP_FLOAT@.len() != NodeTypeId::SOLID_FRAME@.len());
        } else if j == 38 {
            reveal_strlit("generators.rainbow_sweep");
            assert(legacy_id(38) == NodeTypeId::RAINBOW_SWEEP@);
            assert(NodeTypeId::CLAMP_FLOAT@.len() != NodeTypeId::RAINBOW_SWEEP@.len());
        } else if j == 39 {
            reveal_strlit("generators.circle_sweep");
            assert(legacy_id(39) == NodeTypeId::CIRCLE_SWEEP@);
            assert(NodeTypeId::CLAMP_FLOAT@.len() != NodeTypeId::CIRCLE_SWEEP@.len());
        } else if j == 40 {
            reveal_strlit("generators.level_bar");
            assert(legacy_id(40) == NodeTypeId::LEVEL_BAR@);
            assert(NodeTypeId::CLAMP_FLOAT@.len() != NodeTypeId::LEVEL_BAR@.len());
        } else if j == 41 {
            reveal_strlit("generators.twinkle_stars");
            assert(legacy_id(41) == NodeTypeId::TWINKLE_STARS@);
            assert(NodeTypeId::CLAMP_FLOAT@.len() != NodeTypeId::TWINKLE_STARS@.len());
        } else if j == 42 {
            reveal_strlit("generators.plasma");
            assert(legacy_id(42) == NodeTypeId::PLASMA@);
            assert(NodeTypeId::CLAMP_FLOAT@.len() != NodeTypeId::PLASMA@.len());
        } else if j == 43 {
            reveal_strlit("generators.bouncing_balls");
            assert(legacy_id(43) == NodeTypeId::BOUNCING_BALLS@);
            assert(NodeTypeId::CLAMP_FLOAT@.len() != NodeTypeId::BOUNCING_BALLS@.len());
        } else if j == 44 {
            reveal_strlit("debug.wled_dummy_display");
            assert(legacy_id(44) == NodeTypeId::WLED_DUMMY_DISPLAY@);
            assert(NodeTypeId::CLAMP_FLOAT@.len() != NodeTypeId::WLED_DUMMY_DISPLAY@.len());
        } else if j == 45 {
            reveal_strlit("frame_operations.frame_brightness");
            assert(legacy_id(45) == NodeTypeId::FRAME_BRIGHTNESS@);
            assert(NodeTypeId::CLAMP_FLOAT@.len() != NodeTypeId::FRAME_BRIGHTNESS@.len());
        }
    }
}

proof fn lemma_legacy_id_17_distinct()
    ensures
        forall|j: int| 17 < j < LEGACY_NODE_COUNT ==> legacy_id(17) != #[trigger] legacy_id(j),
{
    reveal_strlit("math.power_float");
    assert(legacy_id(17) == NodeTypeId::POWER_FLOAT@);
    assert forall|j: int| 17 < j < LEGACY_NODE_COUNT implies legacy_id(17) != #[trigger] legacy_id(j) by {
        if j == 18 {
            reveal_strlit("math.root_float");
            assert(legacy_id(18) == NodeTypeId::ROOT_FLOAT@);
            assert(NodeTypeId::POWER_FLOAT@.len() != NodeTypeId::ROOT_FLOAT@.len());
        } else if j == 19 {
            reveal_strlit("math.exponential_float");
            assert(legacy_id(19) == NodeTypeId::EXPONENTIAL_FLOAT@);
            assert(NodeTypeId::POWER_FLOAT@.len() != NodeTypeId::EXPONENTIAL_FLOAT@.len());
        } else if j == 20 {
            reveal_strlit("math.log_float");
            assert(legacy_id(20) == NodeTypeId::LOG_FLOAT@);
            assert(NodeTypeId::POWER_FLOAT@.len() != NodeTypeId::LOG_FLOAT@.len());
        } else if j == 21 {
            reveal_strlit("math.map_range_float");
            assert(legacy_id(21) == NodeTypeId::MAP_RANGE_FLOAT@);
            assert(NodeTypeId::POWER_FLOAT@.len() != NodeTypeId::MAP_RANGE_FLOAT@.len());
        } else if j == 22 {
            reveal_strlit("math.round_float");
            assert(legacy_id(22) == NodeTypeId::ROUND_FLOAT@);
            assert(NodeTypeId::POWER_FLOAT@[5] != NodeTypeId::ROUND_FLOAT@[5]);
        } else if j == 23 {
            reveal_strlit("math.scale_tensor");
            assert(legacy_id(23) == NodeTypeId::SCALE_TENSOR@);
            assert(NodeTypeId::POWER_FLOAT@.len() != NodeTypeId::SCALE_TENSOR@.len());
        } else if j == 24 {
            reveal_strlit("frame_operations.scale");
            assert(legacy_id(24) == NodeTypeId::SCALE_COLOR@);
            assert(NodeTypeId::POWER_FLOAT@.len() != NodeTypeId::SCALE_COLOR@.len());
        } else if j == 25 {
            reveal_strlit("frame_operations.multiply");
            assert(legacy_id(25) == NodeTypeId::MULTIPLY_COLOR@);
            assert(NodeTypeId::POWER_FLOAT@.len() != NodeTypeId::MULTIPLY_COLOR@.len());
        } else if j == 26 {
            reveal_strlit("frame_operations.tint_frame");
            assert(legacy_id(26) == NodeTypeId::TINT_FRAME@);
            assert(NodeTypeId::POWER_FLOAT@.len() != NodeTypeId::TINT_FRAME@.len());
        } else if j == 27 {
            reveal_strlit("frame_operations.mask_frame");
            assert(legacy_id(27) == NodeTypeId::MASK_FRAME@);
            assert(NodeTypeId::POWER_FLOAT@.len() != NodeTypeId::MASK_FRAME@.len());
        } else if j == 28 {
            reveal_strlit("frame_operations.mix");
            assert(legacy_id(28) == NodeTypeId::MIX_COLOR@);
            assert(NodeTypeId::POWER_FLOAT@.len() != NodeTypeId::MIX_COLOR@.len());
        } else if j == 29 {
            reveal_strlit("frame_operations.alpha_over");
            assert(legacy_id(29) == NodeTypeId::ALPHA_OVER@);
            assert(NodeTypeId::POWER_FLOAT@.len() != NodeTypeId::ALPHA_OVER@.len());
        } else if j == 30 {
            reveal_strlit("temporal_filters.fade");
            assert(legacy_id(30) == NodeTypeId::FADE@);
            assert(NodeTypeId::POWER_FLOAT@.len() != NodeTypeId::FADE@.len());
        } else if j == 31 {
            reveal_strlit("temporal_filters.moving_average");
            assert(legacy_id(31) == NodeTypeId::MOVING_AVERAGE@);
            assert(NodeTypeId::POWER_FLOAT@.len() != NodeTypeId::MOVING_AVERAGE@.len());
        } else if j == 32 {
            reveal_strlit("temporal_filters.moving_median");
            assert(legacy_id(32) == NodeTypeId::MOVING_MEDIAN@);
            assert(NodeTypeId::POWER_FLOAT@.len() != NodeTypeId::MOVING_MEDIAN@.len());
        } else if j == 33 {
            reveal_strlit("spatial_filters.box_blur");
            assert(legacy_id(33) == NodeTypeId::BOX_BLUR@);
            assert(NodeTypeId::POWER_FLOAT@.len() != NodeTypeId::BOX_BLUR@.len());
        } else if j == 34 {
            reveal_strlit("spatial_filters.gaussian_blur");
            assert(legacy_id(34) == NodeTypeId::GAUSSIAN_BLUR@);
            assert(NodeTypeId::POWER_FLOAT@.len() != NodeTypeId::GAUSSIAN_BLUR@.len());
        } else if j == 35 {
            reveal_strlit("spatial_filters.median_filter");
            assert(legacy_id(35) == NodeTypeId::MEDIAN_FILTER@);
            assert(NodeTypeId::POWER_FLOAT@.len() != NodeTypeId::MEDIAN_FILTER@.len());
        } else if j == 36 {
            reveal_strlit("generators.spectrum_analyzer");
            assert(legacy_id(36) == NodeTypeId::SPECTRUM_ANALYZER@);
            assert(NodeTypeId::POWER_FLOAT@.len() != NodeTypeId::SPECTRUM_ANALYZER@.len());
        } else if j == 37 {
            reveal_strlit("generators.solid_frame");
            assert(legacy_id(37) == NodeTypeId::SOLID_FRAME@);
            assert(NodeTypeId::POWER_FLOAT@.len() != NodeTypeId::SOLID_FRAME@.len());
        } else if j == 38 {
            reveal_strlit("generators.rainbow_sweep");
            assert(legacy_id(38) == NodeTypeId::RAINBOW_SWEEP@);
            assert(NodeTypeId::POWER_FLOAT@.len() != NodeTypeId::RAINBOW_SWEEP@.len());
        } else if j == 39 {
            reveal_strlit("generators.circle_sweep");
            assert(legacy_id(39) == NodeTypeId::CIRCLE_SWEEP@);
            assert(NodeTypeId::POWER_FLOAT@.len() != NodeTypeId::CIRCLE_SWEEP@.len());
        } else if j == 40 {
            reveal_strlit("generators.level_bar");
            assert(legacy_id(40) == NodeTypeId::LEVEL_BAR@);
            assert(NodeTypeId::POWER_FLOAT@.len() != NodeTypeId::LEVEL_BAR@.len());
        } else if j == 41 {
            reveal_strlit("generators.twinkle_stars");
            assert(legacy_id(41) == NodeTypeId::TWINKLE_STARS@);
            assert(NodeTypeId::POWER_FLOAT@.len() != NodeTypeId::TWINKLE_STARS@.len());
        } else if j == 42 {
            reveal_strlit("generators.plasma");
            assert(legacy_id(42) == NodeTypeId::PLASMA@);
            assert(NodeTypeId::POWER_FLOAT@.len() != NodeTypeId::PLASMA@.len());
        } else if j == 43 {
            reveal_strlit("generators.bouncing_balls");
            assert(legacy_id(43) == NodeTypeId::BOUNCING_BALLS@);
            assert(NodeTypeId::POWER_FLOAT@.len() != NodeTypeId::BOUNCING_BALLS@.len());
        } else if j == 44 {
            reveal_strlit("debug.wled_dummy_display");
            assert(legacy_id(44) == NodeTypeId::WLED_DUMMY_DISPLAY@);
            assert(NodeTypeId::POWER_FLOAT@.len() != NodeTypeId::WLED_DUMMY_DISPLAY@.len());
        } else if j == 45 {
            reveal_strlit("frame_operations.frame_brightness");
            assert(legacy_id(45) == NodeTypeId::FRAME_BRIGHTNESS@);
            assert(NodeTypeId::POWER_FLOAT@.len() != NodeTypeId::FRAME_BRIGHTNESS@.len());
        }
    }
}

proof fn lemma_legacy_id_18_distinct()
    ensures
        forall|j: int| 18 < j < LEGACY_NODE_COUNT ==> legacy_id(18) != #[trigger] legacy_id(j),
{
    reveal_strlit("math.root_float");
    assert(legacy_id(18) == NodeTypeId::ROOT_FLOAT@);
    assert forall|j: int| 18 < j < LEGACY_NODE_COUNT implies legacy_id(18) != #[trigger] legacy_id(j) by {
        if j == 19 {
            reveal_strlit("math.exponential_float");
            assert(legacy_id(19) == NodeTypeId::EXPONENTIAL_FLOAT@);
            assert(NodeTypeId::ROOT_FLOAT@.len() != NodeTypeId::EXPONENTIAL_FLOAT@.len());
        } else if j == 20 {
            reveal_strlit("math.log_float");
            assert(legacy_id(20) == NodeTypeId::LOG_FLOAT@);
            assert(NodeTypeId::ROOT_FLOAT@.len() != NodeTypeId::LOG_FLOAT@.len());
        } else if j == 21 {
            reveal_strlit("math.map_range_float");
            assert(legacy_id(21) == NodeTypeId::MAP_RANGE_FLOAT@);
            assert(NodeTypeId::ROOT_FLOAT@.len() != NodeTypeId::MAP_RANGE_FLOAT@.len());
        } else if j == 22 {
            reveal_strlit("math.round_float");
            assert(legacy_id(22) == NodeTypeId::ROUND_FLOAT@);
            assert(NodeTypeId::ROOT_FLOAT@.len() != NodeTypeId::ROUND_FLOAT@.len());
        } else if j == 23 {
            reveal_strlit("math.scale_tensor");
            assert(legacy_id(23) == NodeTypeId::SCALE_TENSOR@);
            assert(NodeTypeId::ROOT_FLOAT@.len() != NodeTypeId::SCALE_TENSOR@.len());
        } else if j == 24 {
            reveal_strlit("frame_operations.scale");
            assert(legacy_id(24) == NodeTypeId::SCALE_COLOR@);
            assert(NodeTypeId::ROOT_FLOAT@.len() != NodeTypeId::SCALE_COLOR@.len());
        } else if j == 25 {
            reveal_strlit("frame_operations.multiply");
            assert(legacy_id(25) == NodeTypeId::MULTIPLY_COLOR@);
            assert(NodeTypeId::ROOT_FLOAT@.len() != NodeTypeId::MULTIPLY_COLOR@.len());
        } else if j == 26 {
            reveal_strlit("frame_operations.tint_frame");
            assert(legacy_id(26) == NodeTypeId::TINT_FRAME@);
            assert(NodeTypeId::ROOT_FLOAT@.len() != NodeTypeId::TINT_FRAME@.len());
        } else if j == 27 {
            reveal_strlit("frame_operations.mask_frame");
            assert(legacy_id(27) == NodeTypeId::MASK_FRAME@);
            assert(NodeTypeId::ROOT_FLOAT@.len() != NodeTypeId::MASK_FRAME@.len());
        } else if j == 28 {
            reveal_strlit("frame_operations.mix");
            assert(legacy_id(28) == NodeTypeId::MIX_COLOR@);
            assert(NodeTypeId::ROOT_FLOAT@.len() != NodeTypeId::MIX_COLOR@.len());
        } else if j == 29 {
            reveal_strlit("frame_operations.alpha_over");
            assert(legacy_id(29) == NodeTypeId::ALPHA_OVER@);
            assert(NodeTypeId::ROOT_FLOAT@.len() != NodeTypeId::ALPHA_OVER@.len());
        } else if j == 30 {
            reveal_strlit("temporal_filters.fade");
            assert(legacy_id(30) == NodeTypeId::FADE@);
            assert(NodeTypeId::ROOT_FLOAT@.len() != NodeTypeId::FADE@.len());
        } else if j == 31 {
            reveal_strlit("temporal_filters.moving_average");
            assert(legacy_id(31) == NodeTypeId::MOVING_AVERAGE@);
            assert(NodeTypeId::ROOT_FLOAT@.len() != NodeTypeId::MOVING_AVERAGE@.len());
        } else if j == 32 {
            reveal_strlit("temporal_filters.moving_median");
            assert(legacy_id(32) == NodeTypeId::MOVING_MEDIAN@);
            assert(NodeTypeId::ROOT_FLOAT@.len() != NodeTypeId::MOVING_MEDIAN@.len());
        } else if j == 33 {
            reveal_strlit("spatial_filters.box_blur");
            assert(legacy_id(33) == NodeTypeId::BOX_BLUR@);
            assert(NodeTypeId::ROOT_FLOAT@.len() != NodeTypeId::BOX_BLUR@.len());
        } else if j == 34 {
            reveal_strlit("spatial_filters.gaussian_blur");
            assert(legacy_id(34) == NodeTypeId::GAUSSIAN_BLUR@);
            assert(NodeTypeId::ROOT_FLOAT@.len() != NodeTypeId::GAUSSIAN_BLUR@.len());
        } else if j == 35 {
            reveal_strlit("spatial_filters.median_filter");
            assert(legacy_id(35) == NodeTypeId::MEDIAN_FILTER@);
            assert(NodeTypeId::ROOT_FLOAT@.len() != NodeTypeId::MEDIAN_FILTER@.len());
        } else if j == 36 {
            reveal_strlit("generators.spectrum_analyzer");
            assert(legacy_id(36) == NodeTypeId::SPECTRUM_ANALYZER@);
            assert(NodeTypeId::ROOT_FLOAT@.len() != NodeTypeId::SPECTRUM_ANALYZER@.len());
        } else if j == 37 {
            reveal_strlit("generators.solid_frame");
            assert(legacy_id(37) == NodeTypeId::SOLID_FRAME@);
            assert(NodeTypeId::ROOT_FLOAT@.len() != NodeTypeId::SOLID_FRAME@.len());
        } else if j == 38 {
            reveal_strlit("generators.rainbow_sweep");
            assert(legacy_id(38) == NodeTypeId::RAINBOW_SWEEP@);
            assert(NodeTypeId::ROOT_FLOAT@.len() != NodeTypeId::RAINBOW_SWEEP@.len());
        } else if j == 39 {
            reveal_strlit("generators.circle_sweep");
            assert(legacy_id(39) == NodeTypeId::CIRCLE_SWEEP@);
            assert(NodeTypeId::ROOT_FLOAT@.len() != NodeTypeId::CIRCLE_SWEEP@.len());
        } else if j == 40 {
            reveal_strlit("generators.level_bar");
            assert(legacy_id(40) == NodeTypeId::LEVEL_BAR@);
            assert(NodeTypeId::ROOT_FLOAT@.len() != NodeTypeId::LEVEL_BAR@.len());
        } else if j == 41 {
            reveal_strlit("generators.twinkle_stars");
            assert(legacy_id(41) == NodeTypeId::TWINKLE_STARS@);
            assert(NodeTypeId::ROOT_FLOAT@.len() != NodeTypeId::TWINKLE_STARS@.len());
        } else if j == 42 {
            reveal_strlit("generators.plasma");
            assert(legacy_id(42) == NodeTypeId::PLASMA@);
            assert(NodeTypeId::ROOT_FLOAT@.len() != NodeTypeId::PLASMA@.len());
        } else if j == 43 {
            reveal_strlit("generators.bouncing_balls");
            assert(legacy_id(43) == NodeTypeId::BOUNCING_BALLS@);
            assert(NodeTypeId::ROOT_FLOAT@.len() != NodeTypeId::BOUNCING_BALLS@.len());
        } else if j == 44 {
            reveal_strlit("debug.wled_dummy_display");
            assert(legacy_id(44) == NodeTypeId::WLED_DUMMY_DISPLAY@);
            assert(NodeTypeId::ROOT_FLOAT@.len() != NodeTypeId::WLED_DUMMY_DISPLAY@.len());
        } else if j == 45 {
            reveal_strlit("frame_operations.frame_brightness");
            assert(legacy_id(45) == NodeTypeId::FRAME_BRIGHTNESS@);
            assert(NodeTypeId::ROOT_FLOAT@.len() != NodeTypeId::FRAME_BRIGHTNESS@.len());
        }
    }
}

proof fn lemma_legacy_id_19_distinct()
    ensures
        forall|j: int| 19 < j < LEGACY_NODE_COUNT ==> legacy_id(19) != #[trigger] legacy_id(j),
{
    reveal_strlit("math.exponential_float");
    assert(legacy_id(19) == NodeTypeId::EXPONENTIAL_FLOAT@);
    assert forall|j: int| 19 < j < LEGACY_NODE_COUNT implies legacy_id(19) != #[trigger] legacy_id(j) by {
        if j == 20 {
            reveal_strlit("math.log_float");
            assert(legacy_id(20) == NodeTypeId::LOG_FLOAT@);
            assert(NodeTypeId::EXPONENTIAL_FLOAT@.len() != NodeTypeId::LOG_FLOAT@.len());
        } else if j == 21 {
            reveal_strlit("math.map_range_float");
            assert(legacy_id(21) == NodeTypeId::MAP_RANGE_FLOAT@);
            assert(NodeTypeId::EXPONENTIAL_FLOAT@.len() != NodeTypeId::MAP_RANGE_FLOAT@.len());
        } else if j == 22 {
            reveal_strlit("math.round_float");
            assert(legacy_id(22) == NodeTypeId::ROUND_FLOAT@);
            assert(NodeTypeId::EXPONENTIAL_FLOAT@.len() != NodeTypeId::ROUND_FLOAT@.len());
        } else if j == 23 {
            reveal_strlit("math.scale_tensor");
            assert(legacy_id(23) == NodeTypeId::SCALE_TENSOR@);
            assert(NodeTypeId::EXPONENTIAL_FLOAT@.len() != NodeTypeId::SCALE_TENSOR@.len());
        } else if j == 24 {
            reveal_strlit("frame_operations.scale");
            assert(legacy_id(24) == NodeTypeId::SCALE_COLOR@);
            assert(NodeTypeId::EXPONENTIAL_FLOAT@[0] != NodeTypeId::SCALE_COLOR@[0]);
        } else if j == 25 {
            reveal_strlit("frame_operations.multiply");
            assert(legacy_id(25) == NodeTypeId::MULTIPLY_COLOR@);
            assert(NodeTypeId::EXPONENTIAL_FLOAT@.len() != NodeTypeId::MULTIPLY_COLOR@.len());
        } else if j == 26 {
            reveal_strlit("frame_operations.tint_frame");
            assert(legacy_id(26) == NodeTypeId::TINT_FRAME@);
            assert(NodeTypeId::EXPONENTIAL_FLOAT@.len() != NodeTypeId::TINT_FRAME@.len());
        } else if j == 27 {
            reveal_strlit("frame_operations.mask_frame");
            assert(legacy_id(27) == NodeTypeId::MASK_FRAME@);
            assert(NodeTypeId::EXPONENTIAL_FLOAT@.len() != NodeTypeId::MASK_FRAME@.len());
        } else if j == 28 {
            reveal_strlit("frame_operations.mix");
            assert(legacy_id(28) == NodeTypeId::MIX_COLOR@);
            assert(NodeTypeId::EXPONENTIAL_FLOAT@.len() != NodeTypeId::MIX_COLOR@.len());
        } else if j == 29 {
            reveal_strlit("frame_operations.alpha_over");
            assert(legacy_id(29) == NodeTypeId::ALPHA_OVER@);
            assert(NodeTypeId::EXPONENTIAL_FLOAT@.len() != NodeTypeId::ALPHA_OVER@.len());
        } else if j == 30 {
            reveal_strlit("temporal_filters.fade");
            assert(legacy_id(30) == NodeTypeId::FADE@);
            assert(NodeTypeId::EXPONENTIAL_FLOAT@.len() != NodeTypeId::FADE@.len());
        } else if j == 31 {
            reveal_strlit("temporal_filters.moving_average");
            assert(legacy_id(31) == NodeTypeId::MOVING_AVERAGE@);
            assert(NodeTypeId::EXPONENTIAL_FLOAT@.len() != NodeTypeId::MOVING_AVERAGE@.len());
        } else if j == 32 {
            reveal_strlit("temporal_filters.moving_median");
            assert(legacy_id(32) == NodeTypeId::MOVING_MEDIAN@);
            assert(NodeTypeId::EXPONENTIAL_FLOAT@.len() != NodeTypeId::MOVING_MEDIAN@.len());
        } else if j == 33 {
            reveal_strlit("spatial_filters.box_blur");
            assert(legacy_id(33) == NodeTypeId::BOX_BLUR@);
            assert(NodeTypeId::EXPONENTIAL_FLOAT@.len() != NodeTypeId::BOX_BLUR@.len());
        } else if j == 34 {
            reveal_strlit("spatial_filters.gaussian_blur");
            assert(legacy_id(34) == NodeTypeId::GAUSSIAN_BLUR@);
            assert(NodeTypeId::EXPONENTIAL_FLOAT@.len() != NodeTypeId::GAUSSIAN_BLUR@.len());
        } else if j == 35 {
            reveal_strlit("spatial_filters.median_filter");
            assert(legacy_id(35) == NodeTypeId::MEDIAN_FILTER@);
            assert(NodeTypeId::EXPONENTIAL_FLOAT@.len() != NodeTypeId::MEDIAN_FILTER@.len());
        } else if j == 36 {
            reveal_strlit("generators.spectrum_analyzer");
            assert(legacy_id(36) == NodeTypeId::SPECTRUM_ANALYZER@);
            assert(NodeTypeId::EXPONENTIAL_FLOAT@.len() != NodeTypeId::SPECTRUM_ANALYZER@.len());
        } else if j == 37 {
            reveal_strlit("generators.solid_frame");
            assert(legacy_id(37) == NodeTypeId::SOLID_FRAME@);
            assert(NodeTypeId::EXPONENTIAL_FLOAT@[0] != NodeTypeId::SOLID_FRAME@[0]);
        } else if j == 38 {
            reveal_strlit("generators.rainbow_sweep");
            assert(legacy_id(38) == NodeTypeId::RAINBOW_SWEEP@);
            assert(NodeTypeId::EXPONENTIAL_FLOAT@.len() != NodeTypeId::RAINBOW_SWEEP@.len());
        } else if j == 39 {
            reveal_strlit("generators.circle_sweep");
            assert(legacy_id(39) == NodeTypeId::CIRCLE_SWEEP@);
            assert(NodeTypeId::EXPONENTIAL_FLOAT@.len() != NodeTypeId::CIRCLE_SWEEP@.len());
        } else if j == 40 {
            reveal_strlit("generators.level_bar");
            assert(legacy_id(40) == NodeTypeId::LEVEL_BAR@);
            assert(NodeTypeId::EXPONENTIAL_FLOAT@.len() != NodeTypeId::LEVEL_BAR@.len());
        } else if j == 41 {
            reveal_strlit("generators.twinkle_stars");
            assert(legacy_id(41) == NodeTypeId::TWINKLE_STARS@);
            assert(NodeTypeId::EXPONENTIAL_FLOAT@.len() != NodeTypeId::TWINKLE_STARS@.len());
        } else if j == 42 {
            reveal_strlit("generators.plasma");
            assert(legacy_id(42) == NodeTypeId::PLASMA@);
            assert(NodeTypeId::EXPONENTIAL_FLOAT@.len() != NodeTypeId::PLASMA@.len());
        } else if j == 43 {
            reveal_strlit("generators.bouncing_balls");
            assert(legacy_id(43) == NodeTypeId::BOUNCING_BALLS@);
            assert(NodeTypeId::EXPONENTIAL_FLOAT@.len() != NodeTypeId::BOUNCING_BALLS@.len());
        } else if j == 44 {
            reveal_strlit("debug.wled_dummy_display");
            assert(legacy_id(44) == NodeTypeId::WLED_DUMMY_DISPLAY@);
            assert(NodeTypeId::EXPONENTIAL_FLOAT@.len() != NodeTypeId::WLED_DUMMY_DISPLAY@.len());
        } else if j == 45 {
            reveal_strlit("frame_operations.frame_brightness");
            assert(legacy_id(45) == NodeTypeId::FRAME_BRIGHTNESS@);
            assert(NodeTypeId::EXPONENTIAL_FLOAT@.len() != NodeTypeId::FRAME_BRIGHTNESS@.len());
        }
    }
}

proof fn lemma_legacy_id_20_distinct()
    ensures
        forall|j: int| 20 < j < LEGACY_NODE_COUNT ==> legacy_id(20) != #[trigger] legacy_id(j),
{
    reveal_strlit("math.log_float");
    assert(legacy_id(20) == NodeTypeId::LOG_FLOAT@);
    assert forall|j: int| 20 < j < LEGACY_NODE_COUNT implies legacy_id(20) != #[trigger] legacy_id(j) by {
        if j == 21 {
            reveal_strlit("math.map_range_float");
            assert(legacy_id(21) == NodeTypeId::MAP_RANGE_FLOAT@);
            assert(NodeTypeId::LOG_FLOAT@.len() != NodeTypeId::MAP_RANGE_FLOAT@.len());
        } else if j == 22 {
            reveal_strlit("math.round_float");
            assert(legacy_id(22) == NodeTypeId::ROUND_FLOAT@);
            assert(NodeTypeId::LOG_FLOAT@.len() != NodeTypeId::ROUND_FLOAT@.len());
        } else if j == 23 {
            reveal_strlit("math.scale_tensor");
            assert(legacy_id(23) == NodeTypeId::SCALE_TENSOR@);
            assert(NodeTypeId::LOG_FLOAT@.len() != NodeTypeId::SCALE_TENSOR@.len());
        } else if j == 24 {
            reveal_strlit("frame_operations.scale");
            assert(legacy_id(24) == NodeTypeId::SCALE_COLOR@);
            assert(NodeTypeId::LOG_FLOAT@.len() != NodeTypeId::SCALE_COLOR@.len());
        } else if j == 25 {
            reveal_strlit("frame_operations.multiply");
            assert(legacy_id(25) == NodeTypeId::MULTIPLY_COLOR@);
            assert(NodeTypeId::LOG_FLOAT@.len() != NodeTypeId::MULTIPLY_COLOR@.len());
        } else if j == 26 {
            reveal_strlit("frame_operations.tint_frame");
            assert(legacy_id(26) == NodeTypeId::TINT_FRAME@);
            assert(NodeTypeId::LOG_FLOAT@.len() != NodeTypeId::TINT_FRAME@.len());
        } else if j == 27 {
            reveal_strlit("frame_operations.mask_frame");
            assert(legacy_id(27) == NodeTypeId::MASK_FRAME@);
            assert(NodeTypeId::LOG_FLOAT@.len() != NodeTypeId::MASK_FRAME@.len());
        } else if j == 28 {
            reveal_strlit("frame_operations.mix");
            assert(legacy_id(28) == NodeTypeId::MIX_COLOR@);
            assert(NodeTypeId::LOG_FLOAT@.len() != NodeTypeId::MIX_COLOR@.len());
        } else if j == 29 {
            reveal_strlit("frame_operations.alpha_over");
            assert(legacy_id(29) == NodeTypeId::ALPHA_OVER@);
            assert(NodeTypeId::LOG_FLOAT@.len() != NodeTypeId::ALPHA_OVER@.len());
        } else if j == 30 {
            reveal_strlit("temporal_filters.fade");
            assert(legacy_id(30) == NodeTypeId::FADE@);
            assert(NodeTypeId::LOG_FLOAT@.len() != NodeTypeId::FADE@.len());
        } else if j == 31 {
            reveal_strlit("temporal_filters.moving_average");
            assert(legacy_id(31) == NodeTypeId::MOVING_AVERAGE@);
            assert(NodeTypeId::LOG_FLOAT@.len() != NodeTypeId::MOVING_AVERAGE@.len());
        } else if j == 32 {
            reveal_strlit("temporal_filters.moving_median");
            assert(legacy_id(32) == NodeTypeId::MOVING_MEDIAN@);
            assert(NodeTypeId::LOG_FLOAT@.len() != NodeTypeId::MOVING_MEDIAN@.len());
        } else if j == 33 {
            reveal_strlit("spatial_filters.box_blur");
            assert(legacy_id(33) == NodeTypeId::BOX_BLUR@);
            assert(NodeTypeId::LOG_FLOAT@.len() != NodeTypeId::BOX_BLUR@.len());
        } else if j == 34 {
            reveal_strlit("spatial_filters.gaussian_blur");
            assert(legacy_id(34) == NodeTypeId::GAUSSIAN_BLUR@);
            assert(NodeTypeId::LOG_FLOAT@.len() != NodeTypeId::GAUSSIAN_BLUR@.len());
        } else if j == 35 {
            reveal_strlit("spatial_filters.median_filter");
            assert(legacy_id(35) == NodeTypeId::MEDIAN_FILTER@);
            assert(NodeTypeId::LOG_FLOAT@.len() != NodeTypeId::MEDIAN_FILTER@.len());
        } else if j == 36 {
            reveal_strlit("generators.spectrum_analyzer");
            assert(legacy_id(36) == NodeTypeId::SPECTRUM_ANALYZER@);
            assert(NodeTypeId::LOG_FLOAT@.len() != NodeTypeId::SPECTRUM_ANALYZER@.len());
        } else if j == 37 {
            reveal_strlit("generators.solid_frame");
            assert(legacy_id(37) == NodeTypeId::SOLID_FRAME@);
            assert(NodeTypeId::LOG_FLOAT@.len() != NodeTypeId::SOLID_FRAME@.len());
        } else if j == 38 {
            reveal_strlit("generators.rainbow_sweep");
            assert(legacy_id(38) == NodeTypeId::RAINBOW_SWEEP@);
            assert(NodeTypeId::LOG_FLOAT@.len() != NodeTypeId::RAINBOW_SWEEP@.len());
        } else if j == 39 {
            reveal_strlit("generators.circle_sweep");
            assert(legacy_id(39) == NodeTypeId::CIRCLE_SWEEP@);
            assert(NodeTypeId::LOG_FLOAT@.len() != NodeTypeId::CIRCLE_SWEEP@.len());
        } else if j == 40 {
            reveal_strlit("generators.level_bar");
            assert(legacy_id(40) == NodeTypeId::LEVEL_BAR@);
            assert(NodeTypeId::LOG_FLOAT@.len() != NodeTypeId::LEVEL_BAR@.len());
        } else if j == 41 {
            reveal_strlit("generators.twinkle_stars");
            assert(legacy_id(41) == NodeTypeId::TWINKLE_STARS@);
            assert(NodeTypeId::LOG_FLOAT@.len() != NodeTypeId::TWINKLE_STARS@.len());
        } else if j == 42 {
            reveal_strlit("generators.plasma");
            assert(legacy_id(42) == NodeTypeId::PLASMA@);
            assert(NodeTypeId::LOG_FLOAT@.len() != NodeTypeId::PLASMA@.len());
        } else if j == 43 {
            reveal_strlit("generators.bouncing_balls");
            assert(legacy_id(43) == NodeTypeId::BOUNCING_BALLS@);
            assert(NodeTypeId::LOG_FLOAT@.len() != NodeTypeId::BOUNCING_BALLS@.len());
        } else if j == 44 {
            reveal_strlit("debug.wled_dummy_display");
            assert(legacy_id(44) == NodeTypeId::WLED_DUMMY_DISPLAY@);
            assert(NodeTypeId::LOG_FLOAT@.len() != NodeTypeId::WLED_DUMMY_DISPLAY@.len());
        } else if j == 45 {
            reveal_strlit("frame_operations.frame_brightness");
            assert(legacy_id(45) == NodeTypeId::FRAME_BRIGHTNESS@);
            assert(NodeTypeId::LOG_FLOAT@.len() != NodeTypeId::FRAME_BRIGHTNESS@.len());
        }
    }
}

proof fn lemma_legacy_id_21_distinct()
    ensures
        forall|j: int| 21 < j < LEGACY_NODE_COUNT ==> legacy_id(21) != #[trigger] legacy_id(j),
{
    reveal_strlit("math.map_range_float");
    assert(legacy_id(21) == NodeTypeId::MAP_RANGE_FLOAT@);
    assert forall|j: int| 21 < j < LEGACY_NODE_COUNT implies legacy_id(21) != #[trigger] legacy_id(j) by {
        if j == 22 {
            reveal_strlit("math.round_float");
            assert(legacy_id(22) == NodeTypeId::ROUND_FLOAT@);
            assert(NodeTypeId::MAP_RANGE_FLOAT@.len() != NodeTypeId::ROUND_FLOAT@.len());
        } else if j == 23 {
            reveal_strlit("math.scale_tensor");
            assert(legacy_id(23) == NodeTypeId::SCALE_TENSOR@);
            assert(NodeTypeId::MAP_RANGE_FLOAT@.len() != NodeTypeId::SCALE_TENSOR@.len());
        } else if j == 24 {
            reveal_strlit("frame_operations.scale");
            assert(legacy_id(24) == NodeTypeId::SCALE_COLOR@);
            assert(NodeTypeId::MAP_RANGE_FLOAT@.len() != NodeTypeId::SCALE_COLOR@.len());
        } else if j == 25 {
            reveal_strlit("frame_operations.multiply");
            assert(legacy_id(25) == NodeTypeId::MULTIPLY_COLOR@);
            assert(NodeTypeId::MAP_RANGE_FLOAT@.len() != NodeTypeId::MULTIPLY_COLOR@.len());
        } else if j == 26 {
            reveal_strlit("frame_operations.tint_frame");
            assert(legacy_id(26) == NodeTypeId::TINT_FRAME@);
            assert(NodeTypeId::MAP_RANGE_FLOAT@.len() != NodeTypeId::TINT_FRAME@.len());
        } else if j == 27 {
            reveal_strlit("frame_operations.mask_frame");
            assert(legacy_id(27) == NodeTypeId::MASK_FRAME@);
            assert(NodeTypeId::MAP_RANGE_FLOAT@.len() != NodeTypeId::MASK_FRAME@.len());
        } else if j == 28 {
            reveal_strlit("frame_operations.mix");
            assert(legacy_id(28) == NodeTypeId::MIX_COLOR@);
            assert(NodeTypeId::MAP_RANGE_FLOAT@[0] != NodeTypeId::MIX_COLOR@[0]);
        } else if j == 29 {
            reveal_strlit("frame_operations.alpha_over");
            assert(legacy_id(29) == NodeTypeId::ALPHA_OVER@);
            assert(NodeTypeId::MAP_RANGE_FLOAT@.len() != NodeTypeId::ALPHA_OVER@.len());
        } else if j == 30 {
            reveal_strlit("temporal_filters.fade");
            assert(legacy_id(30) == NodeTypeId::FADE@);
            assert(NodeTypeId::MAP_RANGE_FLOAT@.len() != NodeTypeId::FADE@.len());
        } else if j == 31 {
            reveal_strlit("temporal_filters.moving_average");
            assert(legacy_id(31) == NodeTypeId::MOVING_AVERAGE@);
            assert(NodeTypeId::MAP_RANGE_FLOAT@.len() != NodeTypeId::MOVING_AVERAGE@.len());
        } else if j == 32 {
            reveal_strlit("temporal_filters.moving_median");
            assert(legacy_id(32) == NodeTypeId::MOVING_MEDIAN@);
            assert(NodeTypeId::MAP_RANGE_FLOAT@.len() != NodeTypeId::MOVING_MEDIAN@.len());
        } else if j == 33 {
            reveal_strlit("spatial_filters.box_blur");
            assert(legacy_id(33) == NodeTypeId::BOX_BLUR@);
            assert(NodeTypeId::MAP_RANGE_FLOAT@.len() != NodeTypeId::BOX_BLUR@.len());
        } else if j == 34 {
            reveal_strlit("spatial_filters.gaussian_blur");
            assert(legacy_id(34) == NodeTypeId::GAUSSIAN_BLUR@);
            assert(NodeTypeId::MAP_RANGE_FLOAT@.len() != NodeTypeId::GAUSSIAN_BLUR@.len());
        } else if j == 35 {
            reveal_strlit("spatial_filters.median_filter");
            assert(legacy_id(35) == NodeTypeId::MEDIAN_FILTER@);
            assert(NodeTypeId::MAP_RANGE_FLOAT@.len() != NodeTypeId::MEDIAN_FILTER@.len());
        } else if j == 36 {
            reveal_strlit("generators.spectrum_analyzer");
            assert(legacy_id(36) == NodeTypeId::SPECTRUM_ANALYZER@);
            assert(NodeTypeId::MAP_RANGE_FLOAT@.len() != NodeTypeId::SPECTRUM_ANALYZER@.len());
        } else if j == 37 {
            reveal_strlit("generators.solid_frame");
            assert(legacy_id(37) == NodeTypeId::SOLID_FRAME@);
            assert(NodeTypeId::MAP_RANGE_FLOAT@.len() != NodeTypeId::SOLID_FRAME@.len());
        } else if j == 38 {
            reveal_strlit("generators.rainbow_sweep");
            assert(legacy_id(38) == NodeTypeId::RAINBOW_SWEEP@);
            assert(NodeTypeId::MAP_RANGE_FLOAT@.len() != NodeTypeId::RAINBOW_SWEEP@.len());
        } else if j == 39 {
            reveal_strlit("generators.circle_sweep");
            assert(legacy_id(39) == NodeTypeId::CIRCLE_SWEEP@);
            assert(NodeTypeId::MAP_RANGE_FLOAT@.len() != NodeTypeId::CIRCLE_SWEEP@.len());
        } else if j == 40 {
            reveal_strlit("generators.level_bar");
            assert(legacy_id(40) == NodeTypeId::LEVEL_BAR@);
            assert(NodeTypeId::MAP_RANGE_FLOAT@[0] != NodeTypeId::LEVEL_BAR@[0]);
        } else if j == 41 {
            reveal_strlit("generators.twinkle_stars");
            assert(legacy_id(41) == NodeTypeId::TWINKLE_STARS@);
            assert(NodeTypeId::MAP_RANGE_FLOAT@.len() != NodeTypeId::TWINKLE_STARS@.len());
        } else if j == 42 {
            reveal_strlit("generators.plasma");
            assert(legacy_id(42) == NodeTypeId::PLASMA@);
            assert(NodeTypeId::MAP_RANGE_FLOAT@.len() != NodeTypeId::PLASMA@.len());
        } else if j == 43 {
            reveal_strlit("generators.bouncing_balls");
            assert(legacy_id(43) == NodeTypeId::BOUNCING_BALLS@);
            assert(NodeTypeId::MAP_RANGE_FLOAT@.len() != NodeTypeId::BOUNCING_BALLS@.len());
        } else if j == 44 {
            reveal_strlit("debug.wled_dummy_display");
            assert(legacy_id(44) == NodeTypeId::WLED_DUMMY_DISPLAY@);
            assert(NodeTypeId::MAP_RANGE_FLOAT@.len() != NodeTypeId::WLED_DUMMY_DISPLAY@.len());
        } else if j == 45 {
            reveal_strlit("frame_operations.frame_brightness");
            assert(legacy_id(45) == NodeTypeId::FRAME_BRIGHTNESS@);
            assert(NodeTypeId::MAP_RANGE_FLOAT@.len() != NodeTypeId::FRAME_BRIGHTNESS@.len());
        }
    }
}

proof fn lemma_legacy_id_22_distinct()
    ensures
        forall|j: int| 22 < j < LEGACY_NODE_COUNT ==> legacy_id(22) != #[trigger] legacy_id(j),
{
    reveal_strlit("math.round_float");
    assert(legacy_id(22) == NodeTypeId::ROUND_FLOAT@);
    assert forall|j: int| 22 < j < LEGACY_NODE_COUNT implies legacy_id(22) != #[trigger] legacy_id(j) by {
        if j == 23 {
            reveal_strlit("math.scale_tensor");
            assert(legacy_id(23) == NodeTypeId::SCALE_TENSOR@);
            assert(NodeTypeId::ROUND_FLOAT@.len() != NodeTypeId::SCALE_TENSOR@.len());
        } else if j == 24 {
            reveal_strlit("frame_operations.scale");
            assert(legacy_id(24) == NodeTypeId::SCALE_COLOR@);
            assert(NodeTypeId::ROUND_FLOAT@.len() != NodeTypeId::SCALE_COLOR@.len());
        } else if j == 25 {
            reveal_strlit("frame_operations.multiply");
            assert(legacy_id(25) == NodeTypeId::MULTIPLY_COLOR@);
            assert(NodeTypeId::ROUND_FLOAT@.len() != NodeTypeId::MULTIPLY_COLOR@.len());
        } else if j == 26 {
            reveal_strlit("frame_operations.tint_frame");
            assert(legacy_id(26) == NodeTypeId::TINT_FRAME@);
            assert(NodeTypeId::ROUND_FLOAT@.len() != NodeTypeId::TINT_FRAME@.len());
        } else if j == 27 {
            reveal_strlit("frame_operations.mask_frame");
            assert(legacy_id(27) == NodeTypeId::MASK_FRAME@);
            assert(NodeTypeId::ROUND_FLOAT@.len() != NodeTypeId::MASK_FRAME@.len());
        } else if j == 28 {
            reveal_strlit("frame_operations.mix");
            assert(legacy_id(28) == NodeTypeId::MIX_COLOR@);
            assert(NodeTypeId::ROUND_FLOAT@.len() != NodeTypeId::MIX_COLOR@.len());
        } else if j == 29 {
            reveal_strlit("frame_operations.alpha_over");
            assert(legacy_id(29) == NodeTypeId::ALPHA_OVER@);
            assert(NodeTypeId::ROUND_FLOAT@.len() != NodeTypeId::ALPHA_OVER@.len());
        } else if j == 30 {
            reveal_strlit("temporal_filters.fade");
            assert(legacy_id(30) == NodeTypeId::FADE@);
            assert(NodeTypeId::ROUND_FLOAT@.len() != NodeTypeId::FADE@.len());
        } else if j == 31 {
            reveal_strlit("temporal_filters.moving_average");
            assert(legacy_id(31) == NodeTypeId::MOVING_AVERAGE@);
            assert(NodeTypeId::ROUND_FLOAT@.len() != NodeTypeId::MOVING_AVERAGE@.len());
        } else if j == 32 {
            reveal_strlit("temporal_filters.moving_median");
            assert(legacy_id(32) == NodeTypeId::MOVING_MEDIAN@);
            assert(NodeTypeId::ROUND_FLOAT@.len() != NodeTypeId::MOVING_MEDIAN@.len());
        } else if j == 33 {
            reveal_strlit("spatial_filters.box_blur");
            assert(legacy_id(33) == NodeTypeId::BOX_BLUR@);
            assert(NodeTypeId::ROUND_FLOAT@.len() != NodeTypeId::BOX_BLUR@.len());
        } else if j == 34 {
            reveal_strlit("spatial_filters.gaussian_blur");
            assert(legacy_id(34) == NodeTypeId::GAUSSIAN_BLUR@);
            assert(NodeTypeId::ROUND_FLOAT@.len() != NodeTypeId::GAUSSIAN_BLUR@.len());
        } else if j == 35 {
            reveal_strlit("spatial_filters.median_filter");
            assert(legacy_id(35) == NodeTypeId::MEDIAN_FILTER@);
            assert(NodeTypeId::ROUND_FLOAT@.len() != NodeTypeId::MEDIAN_FILTER@.len());
        } else if j == 36 {
            reveal_strlit("generators.spectrum_analyzer");
            assert(legacy_id(36) == NodeTypeId::SPECTRUM_ANALYZER@);
            assert(NodeTypeId::ROUND_FLOAT@.len() != NodeTypeId::SPECTRUM_ANALYZER@.len());
        } else if j == 37 {
            reveal_strlit("generators.solid_frame");
            assert(legacy_id(37) == NodeTypeId::SOLID_FRAME@);
            assert(NodeTypeId::ROUND_FLOAT@.len() != NodeTypeId::SOLID_FRAME@.len());
        } else if j == 38 {
            reveal_strlit("generators.rainbow_sweep");
            assert(legacy_id(38) == NodeTypeId::RAINBOW_SWEEP@);
            assert(NodeTypeId::ROUND_FLOAT@.len() != NodeTypeId::RAINBOW_SWEEP@.len());
        } else if j == 39 {
            reveal_strlit("generators.circle_sweep");
            assert(legacy_id(39) == NodeTypeId::CIRCLE_SWEEP@);
            assert(NodeTypeId::ROUND_FLOAT@.len() != NodeTypeId::CIRCLE_SWEEP@.len());
        } else if j == 40 {
            reveal_strlit("generators.level_bar");
            assert(legacy_id(40) == NodeTypeId::LEVEL_BAR@);
            assert(NodeTypeId::ROUND_FLOAT@.len() != NodeTypeId::LEVEL_BAR@.len());
        } else if j == 41 {
            reveal_strlit("generators.twinkle_stars");
            assert(legacy_id(41) == NodeTypeId::TWINKLE_STARS@);
            assert(NodeTypeId::ROUND_FLOAT@.len() != NodeTypeId::TWINKLE_STARS@.len());
        } else if j == 42 {
            reveal_strlit("generators.plasma");
            assert(legacy_id(42) == NodeTypeId::PLASMA@);
            assert(NodeTypeId::ROUND_FLOAT@.len() != NodeTypeId::PLASMA@.len());
        } else if j == 43 {
            reveal_strlit("generators.bouncing_balls");
            assert(legacy_id(43) == NodeTypeId::BOUNCING_BALLS@);
            assert(NodeTypeId::ROUND_FLOAT@.len() != NodeTypeId::BOUNCING_BALLS@.len());
        } else if j == 44 {
            reveal_strlit("debug.wled_dummy_display");
            assert(legacy_id(44) == NodeTypeId::WLED_DUMMY_DISPLAY@);
            assert(NodeTypeId::ROUND_FLOAT@.len() != NodeTypeId::WLED_DUMMY_DISPLAY@.len());
        } else if j == 45 {
            reveal_strlit("frame_operations.frame_brightness");
            assert(legacy_id(45) == NodeTypeId::FRAME_BRIGHTNESS@);
            assert(NodeTypeId::ROUND_FLOAT@.len() != NodeTypeId::FRAME_BRIGHTNESS@.len());
        }
    }
}

proof fn lemma_legacy_id_23_distinct()
    ensures
        forall|j: int| 23 < j < LEGACY_NODE_COUNT ==> legacy_id(23) != #[trigger] legacy_id(j),
{
    reveal_strlit("math.scale_tensor");
    assert(legacy_id(23) == NodeTypeId::SCALE_TENSOR@);
    assert forall|j: int| 23 < j < LEGACY_NODE_COUNT implies legacy_id(23) != #[trigger] legacy_id(j) by {
        if j == 24 {
            reveal_strlit("frame_operations.scale");
            assert(legacy_id(24) == NodeTypeId::SCALE_COLOR@);
            assert(NodeTypeId::SCALE_TENSOR@.len() != NodeTypeId::SCALE_COLOR@.len());
        } else if j == 25 {
            reveal_strlit("frame_operations.multiply");
            assert(legacy_id(25) == NodeTypeId::MULTIPLY_COLOR@);
            assert(NodeTypeId::SCALE_TENSOR@.len() != NodeTypeId::MULTIPLY_COLOR@.len());
        } else if j == 26 {
            reveal_strlit("frame_operations.tint_frame");
            assert(legacy_id(26) == NodeTypeId::TINT_FRAME@);
            assert(NodeTypeId::SCALE_TENSOR@.len() != NodeTypeId::TINT_FRAME@.len());
        } else if j == 27 {
            reveal_strlit("frame_operations.mask_frame");
            assert(legacy_id(27) == NodeTypeId::MASK_FRAME@);
            assert(NodeTypeId::SCALE_TENSOR@.len() != NodeTypeId::MASK_FRAME@.len());
        } else if j == 28 {
            reveal_strlit("frame_operations.mix");
            assert(legacy_id(28) == NodeTypeId::MIX_COLOR@);
            assert(NodeTypeId::SCALE_TENSOR@.len() != NodeTypeId::MIX_COLOR@.len());
        } else if j == 29 {
            reveal_strlit("frame_operations.alpha_over");
            assert(legacy_id(29) == NodeTypeId::ALPHA_OVER@);
            assert(NodeTypeId::SCALE_TENSOR@.len() != NodeTypeId::ALPHA_OVER@.len());
        } else if j == 30 {
            reveal_strlit("temporal_filters.fade");
            assert(legacy_id(30) == NodeTypeId::FADE@);
            assert(NodeTypeId::SCALE_TENSOR@.len() != NodeTypeId::FADE@.len());
        } else if j == 31 {
            reveal_strlit("temporal_filters.moving_average");
            assert(legacy_id(31) == NodeTypeId::MOVING_AVERAGE@);
            assert(NodeTypeId::SCALE_TENSOR@.len() != NodeTypeId::MOVING_AVERAGE@.len());
        } else if j == 32 {
            reveal_strlit("temporal_filters.moving_median");
            assert(legacy_id(32) == NodeTypeId::MOVING_MEDIAN@);
            assert(NodeTypeId::SCALE_TENSOR@.len() != NodeTypeId::MOVING_MEDIAN@.len());
        } else if j == 33 {
            reveal_strlit("spatial_filters.box_blur");
            assert(legacy_id(33) == NodeTypeId::BOX_BLUR@);
            assert(NodeTypeId::SCALE_TENSOR@.len() != NodeTypeId::BOX_BLUR@.len());
        } else if j == 34 {
            reveal_strlit("spatial_filters.gaussian_blur");
            assert(legacy_id(34) == NodeTypeId::GAUSSIAN_BLUR@);
            assert(NodeTypeId::SCALE_TENSOR@.len() != NodeTypeId::GAUSSIAN_BLUR@.len());
        } else if j == 35 {
            reveal_strlit("spatial_filters.median_filter");
            assert(legacy_id(35) == NodeTypeId::MEDIAN_FILTER@);
            assert(NodeTypeId::SCALE_TENSOR@.len() != NodeTypeId::MEDIAN_FILTER@.len());
        } else if j == 36 {
            reveal_strlit("generators.spectrum_analyzer");
            assert(legacy_id(36) == NodeTypeId::SPECTRUM_ANALYZER@);
            assert(NodeTypeId::SCALE_TENSOR@.len() != NodeTypeId::SPECTRUM_ANALYZER@.len());
        } else if j == 37 {
            reveal_strlit("generators.solid_frame");
            assert(legacy_id(37) == NodeTypeId::SOLID_FRAME@);
            assert(NodeTypeId::SCALE_TENSOR@.len() != NodeTypeId::SOLID_FRAME@.len());
        } else if j == 38 {
            reveal_strlit("generators.rainbow_sweep");
            assert(legacy_id(38) == NodeTypeId::RAINBOW_SWEEP@);
            assert(NodeTypeId::SCALE_TENSOR@.len() != NodeTypeId::RAINBOW_SWEEP@.len());
        } else if j == 39 {
            reveal_strlit("generators.circle_sweep");
            assert(legacy_id(39) == NodeTypeId::CIRCLE_SWEEP@);
            assert(NodeTypeId::SCALE_TENSOR@.len() != NodeTypeId::CIRCLE_SWEEP@.len());
        } else if j == 40 {
            reveal_strlit("generators.level_bar");
            assert(legacy_id(40) == NodeTypeId::LEVEL_BAR@);
            assert(NodeTypeId::SCALE_TENSOR@.len() != NodeTypeId::LEVEL_BAR@.len());
        } else if j == 41 {
            reveal_strlit("generators.twinkle_stars");
            assert(legacy_id(41) == NodeTypeId::TWINKLE_STARS@);
            assert(NodeTypeId::SCALE_TENSOR@.len() != NodeTypeId::TWINKLE_STARS@.len());
        } else if j == 42 {
            reveal_strlit("generators.plasma");
            assert(legacy_id(42) == NodeTypeId::PLASMA@);
            assert(NodeTypeId::SCALE_TENSOR@[0] != NodeTypeId::PLASMA@[0]);
        } else if j == 43 {
            reveal_strlit("generators.bouncing_balls");
            assert(legacy_id(43) == NodeTypeId::BOUNCING_BALLS@);
            assert(NodeTypeId::SCALE_TENSOR@.len() != NodeTypeId::BOUNCING_BALLS@.len());
        } else if j == 44 {
            reveal_strlit("debug.wled_dummy_display");
            assert(legacy_id(44) == NodeTypeId::WLED_DUMMY_DISPLAY@);
            assert(NodeTypeId::SCALE_TENSOR@.len() != NodeTypeId::WLED_DUMMY_DISPLAY@.len());
        } else if j == 45 {
            reveal_strlit("frame_operations.frame_brightness");
            assert(legacy_id(45) == NodeTypeId::FRAME_BRIGHTNESS@);
            assert(NodeTypeId::SCALE_TENSOR@.len() != NodeTypeId::FRAME_BRIGHTNESS@.len());
        }
    }
}

proof fn lemma_legacy_id_24_distinct()
    ensures
        forall|j: int| 24 < j < LEGACY_NODE_COUNT ==> legacy_id(24) != #[trigger] legacy_id(j),
{
    reveal_strlit("frame_operations.scale");
    assert(legacy_id(24) == NodeTypeId::SCALE_COLOR@);
    assert forall|j: int| 24 < j < LEGACY_NODE_COUNT implies legacy_id(24) != #[trigger] legacy_id(j) by {
        if j == 25 {
            reveal_strlit("frame_operations.multiply");
            assert(legacy_id(25) == NodeTypeId::MULTIPLY_COLOR@);
            assert(NodeTypeId::SCALE_COLOR@.len() != NodeTypeId::MULTIPLY_COLOR@.len());
        } else if j == 26 {
            reveal_strlit("frame_operations.tint_frame");
            assert(legacy_id(26) == NodeTypeId::TINT_FRAME@);
            assert(NodeTypeId::SCALE_COLOR@.len() != NodeTypeId::TINT_FRAME@.len());
        } else if j == 27 {
            reveal_strlit("frame_operations.mask_frame");
            assert(legacy_id(27) == NodeTypeId::MASK_FRAME@);
            assert(NodeTypeId::SCALE_COLOR@.len() != NodeTypeId::MASK_FRAME@.len());
        } else if j == 28 {
            reveal_strlit("frame_operations.mix");
            assert(legacy_id(28) == NodeTypeId::MIX_COLOR@);
            assert(NodeTypeId::SCALE_COLOR@.len() != NodeTypeId::MIX_COLOR@.len());
        } else if j == 29 {
            reveal_strlit("frame_operations.alpha_over");
            assert(legacy_id(29) == NodeTypeId::ALPHA_OVER@);
            assert(NodeTypeId::SCALE_COLOR@.len() != NodeTypeId::ALPHA_OVER@.len());
        } else if j == 30 {
            reveal_strlit("temporal_filters.fade");
            assert(legacy_id(30) == NodeTypeId::FADE@);
            assert(NodeTypeId::SCALE_COLOR@.len() != NodeTypeId::FADE@.len());
        } else if j == 31 {
            reveal_strlit("temporal_filters.moving_average");
            assert(legacy_id(31) == NodeTypeId::MOVING_AVERAGE@);
            assert(NodeTypeId::SCALE_COLOR@.len() != NodeTypeId::MOVING_AVERAGE@.len());
        } else if j == 32 {
            reveal_strlit("temporal_filters.moving_median");
            assert(legacy_id(32) == NodeTypeId::MOVING_MEDIAN@);
            assert(NodeTypeId::SCALE_COLOR@.len() != NodeTypeId::MOVING_MEDIAN@.len());
        } else if j == 33 {
            reveal_strlit("spatial_filters.box_blur");
            assert(legacy_id(33) == NodeTypeId::BOX_BLUR@);
            assert(NodeTypeId::SCALE_COLOR@.len() != NodeTypeId::BOX_BLUR@.len());
        } else if j == 34 {
            reveal_strlit("spatial_filters.gaussian_blur");
            assert(legacy_id(34) == NodeTypeId::GAUSSIAN_BLUR@);
            assert(NodeTypeId::SCALE_COLOR@.len() != NodeTypeId::GAUSSIAN_BLUR@.len());
        } else if j == 35 {
            reveal_strlit("spatial_filters.median_filter");
            assert(legacy_id(35) == NodeTypeId::MEDIAN_FILTER@);
            assert(NodeTypeId::SCALE_COLOR@.len() != NodeTypeId::MEDIAN_FILTER@.len());
        } else if j == 36 {
            reveal_strlit("generators.spectrum_analyzer");
            assert(legacy_id(36) == NodeTypeId::SPECTRUM_ANALYZER@);
            assert(NodeTypeId::SCALE_COLOR@.len() != NodeTypeId::SPECTRUM_ANALYZER@.len());
        } else if j == 37 {
            reveal_strlit("generators.solid_frame");
            assert(legacy_id(37) == NodeTypeId::SOLID_FRAME@);
            assert(NodeTypeId::SCALE_COLOR@[0] != NodeTypeId::SOLID_FRAME@[0]);
        } else if j == 38 {
            reveal_strlit("generators.rainbow_sweep");
            assert(legacy_id(38) == NodeTypeId::RAINBOW_SWEEP@);
            assert(NodeTypeId::SCALE_COLOR@.len() != NodeTypeId::RAINBOW_SWEEP@.len());
        } else if j == 39 {
            reveal_strlit("generators.circle_sweep");
            assert(legacy_id(39) == NodeTypeId::CIRCLE_SWEEP@);
            assert(NodeTypeId::SCALE_COLOR@.len() != NodeTypeId::CIRCLE_SWEEP@.len());
        } else if j == 40 {
            reveal_strlit("generators.level_bar");
            assert(legacy_id(40) == NodeTypeId::LEVEL_BAR@);
            assert(NodeTypeId::SCALE_COLOR@.len() != NodeTypeId::LEVEL_BAR@.len());
        } else if j == 41 {
            reveal_strlit("generators.twinkle_stars");
            assert(legacy_id(41) == NodeTypeId::TWINKLE_STARS@);
            assert(NodeTypeId::SCALE_COLOR@.len() != NodeTypeId::TWINKLE_STARS@.len());
        } else if j == 42 {
            reveal_strlit("generators.plasma");
            assert(legacy_id(42) == NodeTypeId::PLASMA@);
            assert(NodeTypeId::SCALE_COLOR@.len() != NodeTypeId::PLASMA@.len());
        } else if j == 43 {
            reveal_strlit("generators.bouncing_balls");
            assert(legacy_id(43) == NodeTypeId::BOUNCING_BALLS@);
            assert(NodeTypeId::SCALE_COLOR@.len() != NodeTypeId::BOUNCING_BALLS@.len());
        } else if j == 44 {
            reveal_strlit("debug.wled_dummy_display");
            assert(legacy_id(44) == NodeTypeId::WLED_DUMMY_DISPLAY@);
            assert(NodeTypeId::SCALE_COLOR@.len() != NodeTypeId::WLED_DUMMY_DISPLAY@.len());
        } else if j == 45 {
            reveal_strlit("frame_operations.frame_brightness");
            assert(legacy_id(45) == NodeTypeId::FRAME_BRIGHTNESS@);
            assert(NodeTypeId::SCALE_COLOR@.len() != NodeTypeId::FRAME_BRIGHTNESS@.len());
        }
    }
}

proof fn lemma_legacy_id_25_distinct()
    ensures
        forall|j: int| 25 < j < LEGACY_NODE_COUNT ==> legacy_id(25) != #[trigger] legacy_id(j),
{
    reveal_strlit("frame_operations.multiply");
    assert(legacy_id(25) == NodeTypeId::MULTIPLY_COLOR@);
    assert forall|j: int| 25 < j < LEGACY_NODE_COUNT implies legacy_id(25) != #[trigger] legacy_id(j) by {
        if j == 26 {
            reveal_strlit("frame_operations.tint_frame");
            assert(legacy_id(26) == NodeTypeId::TINT_FRAME@);
            assert(NodeTypeId::MULTIPLY_COLOR@.len() != NodeTypeId::TINT_FRAME@.len());
        } else if j == 27 {
            reveal_strlit("frame_operations.mask_frame");
            assert(legacy_id(27) == NodeTypeId::MASK_FRAME@);
            assert(NodeTypeId::MULTIPLY_COLOR@.len() != NodeTypeId::MASK_FRAME@.len());
        } else if j == 28 {
            reveal_strlit("frame_operations.mix");
            assert(legacy_id(28) == NodeTypeId::MIX_COLOR@);
            assert(NodeTypeId::MULTIPLY_COLOR@.len() != NodeTypeId::MIX_COLOR@.len());
        } else if j == 29 {
            reveal_strlit("frame_operations.alpha_over");
            assert(legacy_id(29) == NodeTypeId::ALPHA_OVER@);
            assert(NodeTypeId::MULTIPLY_COLOR@.len() != NodeTypeId::ALPHA_OVER@.len());
        } else if j == 30 {
            reveal_strlit("temporal_filters.fade");
            assert(legacy_id(30) == NodeTypeId::FADE@);
            assert(NodeTypeId::MULTIPLY_COLOR@.len() != NodeTypeId::FADE@.len());
        } else if j == 31 {
            reveal_strlit("temporal_filters.moving_average");
            assert(legacy_id(31) == NodeTypeId::MOVING_AVERAGE@);
            assert(NodeTypeId::MULTIPLY_COLOR@.len() != NodeTypeId::MOVING_AVERAGE@.len());
        } else if j == 32 {
            reveal_strlit("temporal_filters.moving_median");
            assert(legacy_id(32) == NodeTypeId::MOVING_MEDIAN@);
            assert(NodeTypeId::MULTIPLY_COLOR@.len() != NodeTypeId::MOVING_MEDIAN@.len());
        } else if j == 33 {
            reveal_strlit("spatial_filters.box_blur");
            assert(legacy_id(33) == NodeTypeId::BOX_BLUR@);
            assert(NodeTypeId::MULTIPLY_COLOR@.len() != NodeTypeId::BOX_BLUR@.len());
        } else if j == 34 {
            reveal_strlit("spatial_filters.gaussian_blur");
            assert(legacy_id(34) == NodeTypeId::GAUSSIAN_BLUR@);
            assert(NodeTypeId::MULTIPLY_COLOR@.len() != NodeTypeId::GAUSSIAN_BLUR@.len());
        } else if j == 35 {
            reveal_strlit("spatial_filters.median_filter");
            assert(legacy_id(35) == NodeTypeId::MEDIAN_FILTER@);
            assert(NodeTypeId::MULTIPLY_COLOR@.len() != NodeTypeId::MEDIAN_FILTER@.len());
        } else if j == 36 {
            reveal_strlit("generators.spectrum_analyzer");
            assert(legacy_id(36) == NodeTypeId::SPECTRUM_ANALYZER@);
            assert(NodeTypeId::MULTIPLY_COLOR@.len() != NodeTypeId::SPECTRUM_ANALYZER@.len());
        } else if j == 37 {
            reveal_strlit("generators.solid_frame");
            assert(legacy_id(37) == NodeTypeId::SOLID_FRAME@);
            assert(NodeTypeId::MULTIPLY_COLOR@.len() != NodeTypeId::SOLID_FRAME@.len());
        } else if j == 38 {
            reveal_strlit("generators.rainbow_sweep");
            assert(legacy_id(38) == NodeTypeId::RAINBOW_SWEEP@);
            assert(NodeTypeId::MULTIPLY_COLOR@.len() != NodeTypeId::RAINBOW_SWEEP@.len());
        } else if j == 39 {
            reveal_strlit("generators.circle_sweep");
            assert(legacy_id(39) == NodeTypeId::CIRCLE_SWEEP@);
            assert(NodeTypeId::MULTIPLY_COLOR@.len() != NodeTypeId::CIRCLE_SWEEP@.len());
        } else if j == 40 {
            reveal_strlit("generators.level_bar");
            assert(legacy_id(40) == NodeTypeId::LEVEL_BAR@);
            assert(NodeTypeId::MULTIPLY_COLOR@.len() != NodeTypeId::LEVEL_BAR@.len());
        } else if j == 41 {
            reveal_strlit("generators.twinkle_stars");
            assert(legacy_id(41) == NodeTypeId::TWINKLE_STARS@);
            assert(NodeTypeId::MULTIPLY_COLOR@.len() != NodeTypeId::TWINKLE_STARS@.len());
        } else if j == 42 {
            reveal_strlit("generators.plasma");
            assert(legacy_id(42) == NodeTypeId::PLASMA@);
            assert(NodeTypeId::MULTIPLY_COLOR@.len() != NodeTypeId::PLASMA@.len());
        } else if j == 43 {
            reveal_strlit("generators.bouncing_balls");
            assert(legacy_id(43) == NodeTypeId::BOUNCING_BALLS@);
            assert(NodeTypeId::MULTIPLY_COLOR@[0] != NodeTypeId::BOUNCING_BALLS@[0]);
        } else if j == 44 {
            reveal_strlit("debug.wled_dummy_display");
            assert(legacy_id(44) == NodeTypeId::WLED_DUMMY_DISPLAY@);
            assert(NodeTypeId::MULTIPLY_COLOR@.len() != NodeTypeId::WLED_DUMMY_DISPLAY@.len());
        } else if j == 45 {
            reveal_strlit("frame_operations.frame_brightness");
            assert(legacy_id(45) == NodeTypeId::FRAME_BRIGHTNESS@);
            assert(NodeTypeId::MULTIPLY_COLOR@.len() != NodeTypeId::FRAME_BRIGHTNESS@.len());
        }
    }
}

proof fn lemma_legacy_id_26_distinct()
    ensures
        forall|j: int| 26 < j < LEGACY_NODE_COUNT ==> legacy_id(26) != #[trigger] legacy_id(j),
{
    reveal_strlit("frame_operations.tint_frame");
    assert(legacy_id(26) == NodeTypeId::TINT_FRAME@);
    assert forall|j: int| 26 < j < LEGACY_NODE_COUNT implies legacy_id(26) != #[trigger] legacy_id(j) by {
        if j == 27 {
            reveal_strlit("frame_operations.mask_frame");
            assert(legacy_id(27) == NodeTypeId::MASK_FRAME@);
            assert(NodeTypeId::TINT_FRAME@[17] != NodeTypeId::MASK_FRAME@[17]);
        } else if j == 28 {
            reveal_strlit("frame_operations.mix");
            assert(legacy_id(28) == NodeTypeId::MIX_COLOR@);
            assert(NodeTypeId::TINT_FRAME@.len() != NodeTypeId::MIX_COLOR@.len());
        } else if j == 29 {
            reveal_strlit("frame_operations.alpha_over");
            assert(legacy_id(29) == NodeTypeId::ALPHA_OVER@);
            assert(NodeTypeId::TINT_FRAME@[17] != NodeTypeId::ALPHA_OVER@[17]);
        } else if j == 30 {
            reveal_strlit("temporal_filters.fade");
            assert(legacy_id(30) == NodeTypeId::FADE@);
            assert(NodeTypeId::TINT_FRAME@.len() != NodeTypeId::FADE@.len());
        } else if j == 31 {
            reveal_strlit("temporal_filters.moving_average");
            assert(legacy_id(31) == NodeTypeId::MOVING_AVERAGE@);
            assert(NodeTypeId::TINT_FRAME@.len() != NodeTypeId::MOVING_AVERAGE@.len());
        } else if j == 32 {
            reveal_strlit("temporal_filters.moving_median");
            assert(legacy_id(32) == NodeTypeId::MOVING_MEDIAN@);
            assert(NodeTypeId::TINT_FRAME@.len() != NodeTypeId::MOVING_MEDIAN@.len());
        } else if j == 33 {
            reveal_strlit("spatial_filters.box_blur");
            assert(legacy_id(33) == NodeTypeId::BOX_BLUR@);
            assert(NodeTypeId::TINT_FRAME@.len() != NodeTypeId::BOX_BLUR@.len());
        } else if j == 34 {
            reveal_strlit("spatial_filters.gaussian_blur");
            assert(legacy_id(34) == NodeTypeId::GAUSSIAN_BLUR@);
            assert(NodeTypeId::TINT_FRAME@.len() != NodeTypeId::GAUSSIAN_BLUR@.len());
        } else if j == 35 {
            reveal_strlit("spatial_filters.median_filter");
            assert(legacy_id(35) == NodeTypeId::MEDIAN_FILTER@);
            assert(NodeTypeId::TINT_FRAME@.len() != NodeTypeId::MEDIAN_FILTER@.len());
        } else if j == 36 {
            reveal_strlit("generators.spectrum_analyzer");
            assert(legacy_id(36) == NodeTypeId::SPECTRUM_ANALYZER@);
            assert(NodeTypeId::TINT_FRAME@.len() != NodeTypeId::SPECTRUM_ANALYZER@.len());
        } else if j == 37 {
            reveal_strlit("generators.solid_frame");
            assert(legacy_id(37) == NodeTypeId::SOLID_FRAME@);
            assert(NodeTypeId::TINT_FRAME@.len() != NodeTypeId::SOLID_FRAME@.len());
        } else if j == 38 {
            reveal_strlit("generators.rainbow_sweep");
            assert(legacy_id(38) == NodeTypeId::RAINBOW_SWEEP@);
            assert(NodeTypeId::TINT_FRAME@.len() != NodeTypeId::RAINBOW_SWEEP@.len());
        } else if j == 39 {
            reveal_strlit("generators.circle_sweep");
            assert(legacy_id(39) == NodeTypeId::CIRCLE_SWEEP@);
            assert(NodeTypeId::TINT_FRAME@.len() != NodeTypeId::CIRCLE_SWEEP@.len());
        } else if j == 40 {
            reveal_strlit("generators.level_bar");
            assert(legacy_id(40) == NodeTypeId::LEVEL_BAR@);
            assert(NodeTypeId::TINT_FRAME@.len() != NodeTypeId::LEVEL_BAR@.len());
        } else if j == 41 {
            reveal_strlit("generators.twinkle_stars");
            assert(legacy_id(41) == NodeTypeId::TWINKLE_STARS@);
            assert(NodeTypeId::TINT_FRAME@.len() != NodeTypeId::TWINKLE_STARS@.len());
        } else if j == 42 {
            reveal_strlit("generators.plasma");
            assert(legacy_id(42) == NodeTypeId::PLASMA@);
            assert(NodeTypeId::TINT_FRAME@.len() != NodeTypeId::PLASMA@.len());
        } else if j == 43 {
            reveal_strlit("generators.bouncing_balls");
            assert(legacy_id(43) == NodeTypeId::BOUNCING_BALLS@);
            assert(NodeTypeId::TINT_FRAME@.len() != NodeTypeId::BOUNCING_BALLS@.len());
        } else if j == 44 {
            reveal_strlit("debug.wled_dummy_display");
            assert(legacy_id(44) == NodeTypeId::WLED_DUMMY_DISPLAY@);
            assert(NodeTypeId::TINT_FRAME@.len() != NodeTypeId::WLED_DUMMY_DISPLAY@.len());
        } else if j == 45 {
            reveal_strlit("frame_operations.frame_brightness");
            assert(legacy_id(45) == NodeTypeId::FRAME_BRIGHTNESS@);
            assert(NodeTypeId::TINT_FRAME@.len() != NodeTypeId::FRAME_BRIGHTNESS@.len());
        }
    }
}

proof fn lemma_legacy_id_27_distinct()
    ensures
        forall|j: int| 27 < j < LEGACY_NODE_COUNT ==> legacy_id(27) != #[trigger] legacy_id(j),
{
    reveal_strlit("frame_operations.mask_frame");
    assert(legacy_id(27) == NodeTypeId::MASK_FRAME@);
    assert forall|j: int| 27 < j < LEGACY_NODE_COUNT implies legacy_id(27) != #[trigger] legacy_id(j) by {
        if j == 28 {
            reveal_strlit("frame_operations.mix");
            assert(legacy_id(28) == NodeTypeId::MIX_COLOR@);
            assert(NodeTypeId::MASK_FRAME@.len() != NodeTypeId::MIX_COLOR@.len());
        } else if j == 29 {
            reveal_strlit("frame_operations.alpha_over");
            assert(legacy_id(29) == NodeTypeId::ALPHA_OVER@);
            assert(NodeTypeId::MASK_FRAME@[17] != NodeTypeId::ALPHA_OVER@[17]);
        } else if j == 30 {
            reveal_strlit("temporal_filters.fade");
            assert(legacy_id(30) == NodeTypeId::FADE@);
            assert(NodeTypeId::MASK_FRAME@.len() != NodeTypeId::FADE@.len());
        } else if j == 31 {
            reveal_strlit("temporal_filters.moving_average");
            assert(legacy_id(31) == NodeTypeId::MOVING_AVERAGE@);
            assert(NodeTypeId::MASK_FRAME@.len() != NodeTypeId::MOVING_AVERAGE@.len());
        } else if j == 32 {
            reveal_strlit("temporal_filters.moving_median");
            assert(legacy_id(32) == NodeTypeId::MOVING_MEDIAN@);
            assert(NodeTypeId::MASK_FRAME@.len() != NodeTypeId::MOVING_MEDIAN@.len());
        } else if j == 33 {
            reveal_strlit("spatial_filters.box_blur");
            assert(legacy_id(33) == NodeTypeId::BOX_BLUR@);
            assert(NodeTypeId::MASK_FRAME@.len() != NodeTypeId::BOX_BLUR@.len());
        } else if j == 34 {
            reveal_strlit("spatial_filters.gaussian_blur");
            assert(legacy_id(34) == NodeTypeId::GAUSSIAN_BLUR@);
            assert(NodeTypeId::MASK_FRAME@.len() != NodeTypeId::GAUSSIAN_BLUR@.len());
        } else if j == 35 {
            reveal_strlit("spatial_filters.median_filter");
            assert(legacy_id(35) == NodeTypeId::MEDIAN_FILTER@);
            assert(NodeTypeId::MASK_FRAME@.len() != NodeTypeId::MEDIAN_FILTER@.len());
        } else if j == 36 {
            reveal_strlit("generators.spectrum_analyzer");
            assert(legacy_id(36) == NodeTypeId::SPECTRUM_ANALYZER@);
            assert(NodeTypeId::MASK_FRAME@.len() != NodeTypeId::SPECTRUM_ANALYZER@.len());
        } else if j == 37 {
            reveal_strlit("generators.solid_frame");
            assert(legacy_id(37) == NodeTypeId::SOLID_FRAME@);
            assert(NodeTypeId::MASK_FRAME@.len() != NodeTypeId::SOLID_FRAME@.len());
        } else if j == 38 {
            reveal_strlit("generators.rainbow_sweep");
            assert(legacy_id(38) == NodeTypeId::RAINBOW_SWEEP@);
            assert(NodeTypeId::MASK_FRAME@.len() != NodeTypeId::RAINBOW_SWEEP@.len());
        } else if j == 39 {
            reveal_strlit("generators.circle_sweep");
            assert(legacy_id(39) == NodeTypeId::CIRCLE_SWEEP@);
            assert(NodeTypeId::MASK_FRAME@.len() != NodeTypeId::CIRCLE_SWEEP@.len());
        } else if j == 40 {
            reveal_strlit("generators.level_bar");
            assert(legacy_id(40) == NodeTypeId::LEVEL_BAR@);
            assert(NodeTypeId::MASK_FRAME@.len() != NodeTypeId::LEVEL_BAR@.len());
        } else if j == 41 {
            reveal_strlit("generators.twinkle_stars");
            assert(legacy_id(41) == NodeTypeId::TWINKLE_STARS@);
            assert(NodeTypeId::MASK_FRAME@.len() != NodeTypeId::TWINKLE_STARS@.len());
        } else if j == 42 {
            reveal_strlit("generators.plasma");
            assert(legacy_id(42) == NodeTypeId::PLASMA@);
            assert(NodeTypeId::MASK_FRAME@.len() != NodeTypeId::PLASMA@.len());
        } else if j == 43 {
            reveal_strlit("generators.bouncing_balls");
            assert(legacy_id(43) == NodeTypeId::BOUNCING_BALLS@);
            assert(NodeTypeId::MASK_FRAME@.len() != NodeTypeId::BOUNCING_BALLS@.len());
        } else if j == 44 {
            reveal_strlit("debug.wled_dummy_display");
            assert(legacy_id(44) == NodeTypeId::WLED_DUMMY_DISPLAY@);
            assert(NodeTypeId::MASK_FRAME@.len() != NodeTypeId::WLED_DUMMY_DISPLAY@.len());
        } else if j == 45 {
            reveal_strlit("frame_operations.frame_brightness");
            assert(legacy_id(45) == NodeTypeId::FRAME_BRIGHTNESS@);
            assert(NodeTypeId::MASK_FRAME@.len() != NodeTypeId::FRAME_BRIGHTNESS@.len());
        }
    }
}

proof fn lemma_legacy_id_28_distinct()
    ensures
        forall|j: int| 28 < j < LEGACY_NODE_COUNT ==> legacy_id(28) != #[trigger] legacy_id(j),
{
    reveal_strlit("frame_operations.mix");
    assert(legacy_id(28) == NodeTypeId::MIX_COLOR@);
    assert forall|j: int| 28 < j < LEGACY_NODE_COUNT implies legacy_id(28) != #[trigger] legacy_id(j) by {
        if j == 29 {
            reveal_strlit("frame_operations.alpha_over");
            assert(legacy_id(29) == NodeTypeId::ALPHA_OVER@);
            assert(NodeTypeId::MIX_COLOR@.len() != NodeTypeId::ALPHA_OVER@.len());
        } else if j == 30 {
            reveal_strlit("temporal_filters.fade");
            assert(legacy_id(30) == NodeTypeId::FADE@);
            assert(NodeTypeId::MIX_COLOR@.len() != NodeTypeId::FADE@.len());
        } else if j == 31 {
            reveal_strlit("temporal_filters.moving_average");
            assert(legacy_id(31) == NodeTypeId::MOVING_AVERAGE@);
            assert(NodeTypeId::MIX_COLOR@.len() != NodeTypeId::MOVING_AVERAGE@.len());
        } else if j == 32 {
            reveal_strlit("temporal_filters.moving_median");
            assert(legacy_id(32) == NodeTypeId::MOVING_MEDIAN@);
            assert(NodeTypeId::MIX_COLOR@.len() != NodeTypeId::MOVING_MEDIAN@.len());
        } else if j == 33 {
            reveal_strlit("spatial_filters.box_blur");
            assert(legacy_id(33) == NodeTypeId::BOX_BLUR@);
            assert(NodeTypeId::MIX_COLOR@.len() != NodeTypeId::BOX_BLUR@.len());
        } else if j == 34 {
            reveal_strlit("spatial_filters.gaussian_blur");
            assert(legacy_id(34) == NodeTypeId::GAUSSIAN_BLUR@);
            assert(NodeTypeId::MIX_COLOR@.len() != NodeTypeId::GAUSSIAN_BLUR@.len());
        } else if j == 35 {
            reveal_strlit("spatial_filters.median_filter");
            assert(legacy_id(35) == NodeTypeId::MEDIAN_FILTER@);
            assert(NodeTypeId::MIX_COLOR@.len() != NodeTypeId::MEDIAN_FILTER@.len());
        } else if j == 36 {
            reveal_strlit("generators.spectrum_analyzer");
            assert(legacy_id(36) == NodeTypeId::SPECTRUM_ANALYZER@);
            assert(NodeTypeId::MIX_COLOR@.len() != NodeTypeId::SPECTRUM_ANALYZER@.len());
        } else if j == 37 {
            reveal_strlit("generators.solid_frame");
            assert(legacy_id(37) == NodeTypeId::SOLID_FRAME@);
            assert(NodeTypeId::MIX_COLOR@.len() != NodeTypeId::SOLID_FRAME@.len());
        } else if j == 38 {
            reveal_strlit("generators.rainbow_sweep");
            assert(legacy_id(38) == NodeTypeId::RAINBOW_SWEEP@);
            assert(NodeTypeId::MIX_COLOR@.len() != NodeTypeId::RAINBOW_SWEEP@.len());
        } else if j == 39 {
            reveal_strlit("generators.circle_sweep");
            assert(legacy_id(39) == NodeTypeId::CIRCLE_SWEEP@);
            assert(NodeTypeId::MIX_COLOR@.len() != NodeTypeId::CIRCLE_SWEEP@.len());
        } else if j == 40 {
            reveal_strlit("generators.level_bar");
            assert(legacy_id(40) == NodeTypeId::LEVEL_BAR@);
            assert(NodeTypeId::MIX_COLOR@[0] != NodeTypeId::LEVEL_BAR@[0]);
        } else if j == 41 {
            reveal_strlit("generators.twinkle_stars");
            assert(legacy_id(41) == NodeTypeId::TWINKLE_STARS@);
            assert(NodeTypeId::MIX_COLOR@.len() != NodeTypeId::TWINKLE_STARS@.len());
        } else if j == 42 {
            reveal_strlit("generators.plasma");
            assert(legacy_id(42) == NodeTypeId::PLASMA@);
            assert(NodeTypeId::MIX_COLOR@.len() != NodeTypeId::PLASMA@.len());
        } else if j == 43 {
            reveal_strlit("generators.bouncing_balls");
            assert(legacy_id(43) == NodeTypeId::BOUNCING_BALLS@);
            assert(NodeTypeId::MIX_COLOR@.len() != NodeTypeId::BOUNCING_BALLS@.len());
        } else if j == 44 {
            reveal_strlit("debug.wled_dummy_display");
            assert(legacy_id(44) == NodeTypeId::WLED_DUMMY_DISPLAY@);
            assert(NodeTypeId::MIX_COLOR@.len() != NodeTypeId::WLED_DUMMY_DISPLAY@.len());
        } else if j == 45 {
            reveal_strlit("frame_operations.frame_brightness");
            assert(legacy_id(45) == NodeTypeId::FRAME_BRIGHTNESS@);
            assert(NodeTypeId::MIX_COLOR@.len() != NodeTypeId::FRAME_BRIGHTNESS@.len());
        }
    }
}

proof fn lemma_legacy_id_29_distinct()
    ensures
        forall|j: int| 29 < j < LEGACY_NODE_COUNT ==> legacy_id(29) != #[trigger] legacy_id(j),
{
    reveal_strlit("frame_operations.alpha_over");
    assert(legacy_id(29) == NodeTypeId::ALPHA_OVER@);
    assert forall|j: int| 29 < j < LEGACY_NODE_COUNT implies legacy_id(29) != #[trigger] legacy_id(j) by {
        if j == 30 {
            reveal_strlit("temporal_filters.fade");
            assert(legacy_id(30) == NodeTypeId::FADE@);
            assert(NodeTypeId::ALPHA_OVER@.len() != NodeTypeId::FADE@.len());
        } else if j == 31 {
            reveal_strlit("temporal_filters.moving_average");
            assert(legacy_id(31) == NodeTypeId::MOVING_AVERAGE@);
            assert(NodeTypeId::ALPHA_OVER@.len() != NodeTypeId::MOVING_AVERAGE@.len());
        } else if j == 32 {
            reveal_strlit("temporal_filters.moving_median");
            assert(legacy_id(32) == NodeTypeId::MOVING_MEDIAN@);
            assert(NodeTypeId::ALPHA_OVER@.len() != NodeTypeId::MOVING_MEDIAN@.len());
        } else if j == 33 {
            reveal_strlit("spatial_filters.box_blur");
            assert(legacy_id(33) == NodeTypeId::BOX_BLUR@);
            assert(NodeTypeId::ALPHA_OVER@.len() != NodeTypeId::BOX_BLUR@.len());
        } else if j == 34 {
            reveal_strlit("spatial_filters.gaussian_blur");
            assert(legacy_id(34) == NodeTypeId::GAUSSIAN_BLUR@);
            assert(NodeTypeId::ALPHA_OVER@.len() != NodeTypeId::GAUSSIAN_BLUR@.len());
        } else if j == 35 {
            reveal_strlit("spatial_filters.median_filter");
            assert(legacy_id(35) == NodeTypeId::MEDIAN_FILTER@);
            assert(NodeTypeId::ALPHA_OVER@.len() != NodeTypeId::MEDIAN_FILTER@.len());
        } else if j == 36 {
            reveal_strlit("generators.spectrum_analyzer");
            assert(legacy_id(36) == NodeTypeId::SPECTRUM_ANALYZER@);
            assert(NodeTypeId::ALPHA_OVER@.len() != NodeTypeId::SPECTRUM_ANALYZER@.len());
        } else if j == 37 {
            reveal_strlit("generators.solid_frame");
            assert(legacy_id(37) == NodeTypeId::SOLID_FRAME@);
            assert(NodeTypeId::ALPHA_OVER@.len() != NodeTypeId::SOLID_FRAME@.len());
        } else if j == 38 {
            reveal_strlit("generators.rainbow_sweep");
            assert(legacy_id(38) == NodeTypeId::RAINBOW_SWEEP@);
            assert(NodeTypeId::ALPHA_OVER@.len() != NodeTypeId::RAINBOW_SWEEP@.len());
        } else if j == 39 {
            reveal_strlit("generators.circle_sweep");
            assert(legacy_id(39) == NodeTypeId::CIRCLE_SWEEP@);
            assert(NodeTypeId::ALPHA_OVER@.len() != NodeTypeId::CIRCLE_SWEEP@.len());
        } else if j == 40 {
            reveal_strlit("generators.level_bar");
            assert(legacy_id(40) == NodeTypeId::LEVEL_BAR@);
            assert(NodeTypeId::ALPHA_OVER@.len() != NodeTypeId::LEVEL_BAR@.len());
        } else if j == 41 {
            reveal_strlit("generators.twinkle_stars");
            assert(legacy_id(41) == NodeTypeId::TWINKLE_STARS@);
            assert(NodeTypeId::ALPHA_OVER@.len() != NodeTypeId::TWINKLE_STARS@.len());
        } else if j == 42 {
            reveal_strlit("generators.plasma");
            assert(legacy_id(42) == NodeTypeId::PLASMA@);
            assert(NodeTypeId::ALPHA_OVER@.len() != NodeTypeId::PLASMA@.len());
        } else if j == 43 {
            reveal_strlit("generators.bouncing_balls");
            assert(legacy_id(43) == NodeTypeId::BOUNCING_BALLS@);
            assert(NodeTypeId::ALPHA_OVER@.len() != NodeTypeId::BOUNCING_BALLS@.len());
        } else if j == 44 {
            reveal_strlit("debug.wled_dummy_display");
            assert(legacy_id(44) == NodeTypeId::WLED_DUMMY_DISPLAY@);
            assert(NodeTypeId::ALPHA_OVER@.len() != NodeTypeId::WLED_DUMMY_DISPLAY@.len());
        } else if j == 45 {
            reveal_strlit("frame_operations.frame_brightness");
            assert(legacy_id(45) == NodeTypeId::FRAME_BRIGHTNESS@);
            assert(NodeTypeId::ALPHA_OVER@.len() != NodeTypeId::FRAME_BRIGHTNESS@.len());
        }
    }
}

proof fn lemma_legacy_id_30_distinct()
    ensures
        forall|j: int| 30 < j < LEGACY_NODE_COUNT ==> legacy_id(30) != #[trigger] legacy_id(j),
{
    reveal_strlit("temporal_filters.fade");
    assert(legacy_id(30) == NodeTypeId::FADE@);
    assert forall|j: int| 30 < j < LEGACY_NODE_COUNT implies legacy_id(30) != #[trigger] legacy_id(j) by {
        if j == 31 {
            reveal_strlit("temporal_filters.moving_average");
            assert(legacy_id(31) == NodeTypeId::MOVING_AVERAGE@);
            assert(NodeTypeId::FADE@.len() != NodeTypeId::MOVING_AVERAGE@.len());
        } else if j == 32 {
            reveal_strlit("temporal_filters.moving_median");
            assert(legacy_id(32) == NodeTypeId::MOVING_MEDIAN@);
            assert(NodeTypeId::FADE@.len() != NodeTypeId::MOVING_MEDIAN@.len());
        } else if j == 33 {
            reveal_strlit("spatial_filters.box_blur");
            assert(legacy_id(33) == NodeTypeId::BOX_BLUR@);
            assert(NodeTypeId::FADE@.len() != NodeTypeId::BOX_BLUR@.len());
        } else if j == 34 {
            reveal_strlit("spatial_filters.gaussian_blur");
            assert(legacy_id(34) == NodeTypeId::GAUSSIAN_BLUR@);
            assert(NodeTypeId::FADE@.len() != NodeTypeId::GAUSSIAN_BLUR@.len());
        } else if j == 35 {
            reveal_strlit("spatial_filters.median_filter");
            assert(legacy_id(35) == NodeTypeId::MEDIAN_FILTER@);
            assert(NodeTypeId::FADE@.len() != NodeTypeId::MEDIAN_FILTER@.len());
        } else if j == 36 {
            reveal_strlit("generators.spectrum_analyzer");
            assert(legacy_id(36) == NodeTypeId::SPECTRUM_ANALYZER@);
            assert(NodeTypeId::FADE@.len() != NodeTypeId::SPECTRUM_ANALYZER@.len());
        } else if j == 37 {
            reveal_strlit("generators.solid_frame");
            assert(legacy_id(37) == NodeTypeId::SOLID_FRAME@);
            assert(NodeTypeId::FADE@.len() != NodeTypeId::SOLID_FRAME@.len());
        } else if j == 38 {
            reveal_strlit("generators.rainbow_sweep");
            assert(legacy_id(38) == NodeTypeId::RAINBOW_SWEEP@);
            assert(NodeTypeId::FADE@.len() != NodeTypeId::RAINBOW_SWEEP@.len());
        } else if j == 39 {
            reveal_strlit("generators.circle_sweep");
            assert(legacy_id(39) == NodeTypeId::CIRCLE_SWEEP@);
            assert(NodeTypeId::FADE@.len() != NodeTypeId::CIRCLE_SWEEP@.len());
        } else if j == 40 {
            reveal_strlit("generators.level_bar");
            assert(legacy_id(40) == NodeTypeId::LEVEL_BAR@);
            assert(NodeTypeId::FADE@.len() != NodeTypeId::LEVEL_BAR@.len());
        } else if j == 41 {
            reveal_strlit("generators.twinkle_stars");
            assert(legacy_id(41) == NodeTypeId::TWINKLE_STARS@);
            assert(NodeTypeId::FADE@.len() != NodeTypeId::TWINKLE_STARS@.len());
        } else if j == 42 {
            reveal_strlit("generators.plasma");
            assert(legacy_id(42) == NodeTypeId::PLASMA@);
            assert(NodeTypeId::FADE@.len() != NodeTypeId::PLASMA@.len());
        } else if j == 43 {
            reveal_strlit("generators.bouncing_balls");
            assert(legacy_id(43) == NodeTypeId::BOUNCING_BALLS@);
            assert(NodeTypeId::FADE@.len() != NodeTypeId::BOUNCING_BALLS@.len());
        } else if j == 44 {
            reveal_strlit("debug.wled_dummy_display");
            assert(legacy_id(44) == NodeTypeId::WLED_DUMMY_DISPLAY@);
            assert(NodeTypeId::FADE@.len() != NodeTypeId::WLED_DUMMY_DISPLAY@.len());
        } else if j == 45 {
            reveal_strlit("frame_operations.frame_brightness");
            assert(legacy_id(45) == NodeTypeId::FRAME_BRIGHTNESS@);
            assert(NodeTypeId::FADE@.len() != NodeTypeId::FRAME_BRIGHTNESS@.len());
        }
    }
}

proof fn lemma_legacy_id_31_distinct()
    ensures
        forall|j: int| 31 < j < LEGACY_NODE_COUNT ==> legacy_id(31) != #[trigger] legacy_id(j),
{
    reveal_strlit("temporal_filters.moving_average");
    assert(legacy_id(31) == NodeTypeId::MOVING_AVERAGE@);
    assert forall|j: int| 31 < j < LEGACY_NODE_COUNT implies legacy_id(31) != #[trigger] legacy_id(j) by {
        if j == 32 {
            reveal_strlit("temporal_filters.moving_median");
            assert(legacy_id(32) == NodeTypeId::MOVING_MEDIAN@);
            assert(NodeTypeId::MOVING_AVERAGE@.len() != NodeTypeId::MOVING_MEDIAN@.len());
        } else if j == 33 {
            reveal_strlit("spatial_filters.box_blur");
            assert(legacy_id(33) == NodeTypeId::BOX_BLUR@);
            assert(NodeTypeId::MOVING_AVERAGE@.len() != NodeTypeId::BOX_BLUR@.len());
        } else if j == 34 {
            reveal_strlit("spatial_filters.gaussian_blur");
            assert(legacy_id(34) == NodeTypeId::GAUSSIAN_BLUR@);
            assert(NodeTypeId::MOVING_AVERAGE@.len() != NodeTypeId::GAUSSIAN_BLUR@.len());
        } else if j == 35 {
            reveal_strlit("spatial_filters.median_filter");
            assert(legacy_id(35) == NodeTypeId::MEDIAN_FILTER@);
            assert(NodeTypeId::MOVING_AVERAGE@.len() != NodeTypeId::MEDIAN_FILTER@.len());
        } else if j == 36 {
            reveal_strlit("generators.spectrum_analyzer");
            assert(legacy_id(36) == NodeTypeId::SPECTRUM_ANALYZER@);
            assert(NodeTypeId::MOVING_AVERAGE@.len() != NodeTypeId::SPECTRUM_ANALYZER@.len());
        } else if j == 37 {
            reveal_strlit("generators.solid_frame");
            assert(legacy_id(37) == NodeTypeId::SOLID_FRAME@);
            assert(NodeTypeId::MOVING_AVERAGE@.len() != NodeTypeId::SOLID_FRAME@.len());
        } else if j == 38 {
            reveal_strlit("generators.rainbow_sweep");
            assert(legacy_id(38) == NodeTypeId::RAINBOW_SWEEP@);
            assert(NodeTypeId::MOVING_AVERAGE@.len() != NodeTypeId::RAINBOW_SWEEP@.len());
        } else if j == 39 {
            reveal_strlit("generators.circle_sweep");
            assert(legacy_id(39) == NodeTypeId::CIRCLE_SWEEP@);
            assert(NodeTypeId::MOVING_AVERAGE@.len() != NodeTypeId::CIRCLE_SWEEP@.len());
        } else if j == 40 {
            reveal_strlit("generators.level_bar");
            assert(legacy_id(40) == NodeTypeId::LEVEL_BAR@);
            assert(NodeTypeId::MOVING_AVERAGE@.len() != NodeTypeId::LEVEL_BAR@.len());
        } else if j == 41 {
            reveal_strlit("generators.twinkle_stars");
            assert(legacy_id(41) == NodeTypeId::TWINKLE_STARS@);
            assert(NodeTypeId::MOVING_AVERAGE@.len() != NodeTypeId::TWINKLE_STARS@.len());
        } else if j == 42 {
            reveal_strlit("generators.plasma");
            assert(legacy_id(42) == NodeTypeId::PLASMA@);
            assert(NodeTypeId::MOVING_AVERAGE@.len() != NodeTypeId::PLASMA@.len());
        } else if j == 43 {
            reveal_strlit("generators.bouncing_balls");
            assert(legacy_id(43) == NodeTypeId::BOUNCING_BALLS@);
            assert(NodeTypeId::MOVING_AVERAGE@.len() != NodeTypeId::BOUNCING_BALLS@.len());
        } else if j == 44 {
            reveal_strlit("debug.wled_dummy_display");
            assert(legacy_id(44) == NodeTypeId::WLED_DUMMY_DISPLAY@);
            assert(NodeTypeId::MOVING_AVERAGE@.len() != NodeTypeId::WLED_DUMMY_DISPLAY@.len());
        } else if j == 45 {
            reveal_strlit("frame_operations.frame_brightness");
            assert(legacy_id(45) == NodeTypeId::FRAME_BRIGHTNESS@);
            assert(NodeTypeId::MOVING_AVERAGE@.len() != NodeTypeId::FRAME_BRIGHTNESS@.len());
        }
    }
}

proof fn lemma_legacy_id_32_distinct()
    ensures
        forall|j: int| 32 < j < LEGACY_NODE_COUNT ==> legacy_id(32) != #[trigger] legacy_id(j),
{
    reveal_strlit("temporal_filters.moving_median");
    assert(legacy_id(32) == NodeTypeId::MOVING_MEDIAN@);
    assert forall|j: int| 32 < j < LEGACY_NODE_COUNT implies legacy_id(32) != #[trigger] legacy_id(j) by {
        if j == 33 {
            reveal_strlit("spatial_filters.box_blur");
            assert(legacy_id(33) == NodeTypeId::BOX_BLUR@);
            assert(NodeTypeId::MOVING_MEDIAN@.len() != NodeTypeId::BOX_BLUR@.len());
        } else if j == 34 {
            reveal_strlit("spatial_filters.gaussian_blur");
            assert(legacy_id(34) == NodeTypeId::GAUSSIAN_BLUR@);
            assert(NodeTypeId::MOVING_MEDIAN@.len() != NodeTypeId::GAUSSIAN_BLUR@.len());
        } else if j == 35 {
            reveal_strlit("spatial_filters.median_filter");
            assert(legacy_id(35) == NodeTypeId::MEDIAN_FILTER@);
            assert(NodeTypeId::MOVING_MEDIAN@.len() != NodeTypeId::MEDIAN_FILTER@.len());
        } else if j == 36 {
            reveal_strlit("generators.spectrum_analyzer");
            assert(legacy_id(36) == NodeTypeId::SPECTRUM_ANALYZER@);
            assert(NodeTypeId::MOVING_MEDIAN@.len() != NodeTypeId::SPECTRUM_ANALYZER@.len());
        } else if j == 37 {
            reveal_strlit("generators.solid_frame");
            assert(legacy_id(37) == NodeTypeId::SOLID_FRAME@);
            assert(NodeTypeId::MOVING_MEDIAN@.len() != NodeTypeId::SOLID_FRAME@.len());
        } else if j == 38 {
            reveal_strlit("generators.rainbow_sweep");
            assert(legacy_id(38) == NodeTypeId::RAINBOW_SWEEP@);
            assert(NodeTypeId::MOVING_MEDIAN@.len() != NodeTypeId::RAINBOW_SWEEP@.len());
        } else if j == 39 {
            reveal_strlit("generators.circle_sweep");
            assert(legacy_id(39) == NodeTypeId::CIRCLE_SWEEP@);
            assert(NodeTypeId::MOVING_MEDIAN@.len() != NodeTypeId::CIRCLE_SWEEP@.len());
        } else if j == 40 {
            reveal_strlit("generators.level_bar");
            assert(legacy_id(40) == NodeTypeId::LEVEL_BAR@);
            assert(NodeTypeId::MOVING_MEDIAN@.len() != NodeTypeId::LEVEL_BAR@.len());
        } else if j == 41 {
            reveal_strlit("generators.twinkle_stars");
            assert(legacy_id(41) == NodeTypeId::TWINKLE_STARS@);
            assert(NodeTypeId::MOVING_MEDIAN@.len() != NodeTypeId::TWINKLE_STARS@.len());
        } else if j == 42 {
            reveal_strlit("generators.plasma");
            assert(legacy_id(42) == NodeTypeId::PLASMA@);
            assert(NodeTypeId::MOVING_MEDIAN@.len() != NodeTypeId::PLASMA@.len());
        } else if j == 43 {
            reveal_strlit("generators.bouncing_balls");
            assert(legacy_id(43) == NodeTypeId::BOUNCING_BALLS@);
            assert(NodeTypeId::MOVING_MEDIAN@.len() != NodeTypeId::BOUNCING_BALLS@.len());
        } else if j == 44 {
            reveal_strlit("debug.wled_dummy_display");
            assert(legacy_id(44) == NodeTypeId::WLED_DUMMY_DISPLAY@);
            assert(NodeTypeId::MOVING_MEDIAN@.len() != NodeTypeId::WLED_DUMMY_DISPLAY@.len());
        } else if j == 45 {
            reveal_strlit("frame_operations.frame_brightness");
            assert(legacy_id(45) == NodeTypeId::FRAME_BRIGHTNESS@);
            assert(NodeTypeId::MOVING_MEDIAN@.len() != NodeTypeId::FRAME_BRIGHTNESS@.len());
        }
    }
}

proof fn lemma_legacy_id_33_distinct()
    ensures
        forall|j: int| 33 < j < LEGACY_NODE_COUNT ==> legacy_id(33) != #[trigger] legacy_id(j),
{
    reveal_strlit("spatial_filters.box_blur");
    assert(legacy_id(33) == NodeTypeId::BOX_BLUR@);
    assert forall|j: int| 33 < j < LEGACY_NODE_COUNT implies legacy_id(33) != #[trigger] legacy_id(j) by {
        if j == 34 {
            reveal_strlit("spatial_filters.gaussian_blur");
            assert(legacy_id(34) == NodeTypeId::GAUSSIAN_BLUR@);
            assert(NodeTypeId::BOX_BLUR@.len() != NodeTypeId::GAUSSIAN_BLUR@.len());
        } else if j == 35 {
            reveal_strlit("spatial_filters.median_filter");
            assert(legacy_id(35) == NodeTypeId::MEDIAN_FILTER@);
            assert(NodeTypeId::BOX_BLUR@.len() != NodeTypeId::MEDIAN_FILTER@.len());
        } else if j == 36 {
            reveal_strlit("generators.spectrum_analyzer");
            assert(legacy_id(36) == NodeTypeId::SPECTRUM_ANALYZER@);
            assert(NodeTypeId::BOX_BLUR@.len() != NodeTypeId::SPECTRUM_ANALYZER@.len());
        } else if j == 37 {
            reveal_strlit("generators.solid_frame");
            assert(legacy_id(37) == NodeTypeId::SOLID_FRAME@);
            assert(NodeTypeId::BOX_BLUR@.len() != NodeTypeId::SOLID_FRAME@.len());
        } else if j == 38 {
            reveal_strlit("generators.rainbow_sweep");
            assert(legacy_id(38) == NodeTypeId::RAINBOW_SWEEP@);
            assert(NodeTypeId::BOX_BLUR@[0] != NodeTypeId::RAINBOW_SWEEP@[0]);
        } else if j == 39 {
            reveal_strlit("generators.circle_sweep");
            assert(legacy_id(39) == NodeTypeId::CIRCLE_SWEEP@);
            assert(NodeTypeId::BOX_BLUR@.len() != NodeTypeId::CIRCLE_SWEEP@.len());
        } else if j == 40 {
            reveal_strlit("generators.level_bar");
            assert(legacy_id(40) == NodeTypeId::LEVEL_BAR@);
            assert(NodeTypeId::BOX_BLUR@.len() != NodeTypeId::LEVEL_BAR@.len());
        } else if j == 41 {
            reveal_strlit("generators.twinkle_stars");
            assert(legacy_id(41) == NodeTypeId::TWINKLE_STARS@);
            assert(NodeTypeId::BOX_BLUR@[0] != NodeTypeId::TWINKLE_STARS@[0]);
        } else if j == 42 {
            reveal_strlit("generators.plasma");
            assert(legacy_id(42) == NodeTypeId::PLASMA@);
            assert(NodeTypeId::BOX_BLUR@.len() != NodeTypeId::PLASMA@.len());
        } else if j == 43 {
            reveal_strlit("generators.bouncing_balls");
            assert(legacy_id(43) == NodeTypeId::BOUNCING_BALLS@);
            assert(NodeTypeId::BOX_BLUR@.len() != NodeTypeId::BOUNCING_BALLS@.len());
        } else if j == 44 {
            reveal_strlit("debug.wled_dummy_display");
            assert(legacy_id(44) == NodeTypeId::WLED_DUMMY_DISPLAY@);
            assert(NodeTypeId::BOX_BLUR@[0] != NodeTypeId::WLED_DUMMY_DISPLAY@[0]);
        } else if j == 45 {
            reveal_strlit("frame_operations.frame_brightness");
            assert(legacy_id(45) == NodeTypeId::FRAME_BRIGHTNESS@);
            assert(NodeTypeId::BOX_BLUR@.len() != NodeTypeId::FRAME_BRIGHTNESS@.len());
        }
    }
}

proof fn lemma_legacy_id_34_distinct()
    ensures
        forall|j: int| 34 < j < LEGACY_NODE_COUNT ==> legacy_id(34) != #[trigger] legacy_id(j),
{
    reveal_strlit("spatial_filters.gaussian_blur");
    assert(legacy_id(34) == NodeTypeId::GAUSSIAN_BLUR@);
    assert forall|j: int| 34 < j < LEGACY_NODE_COUNT implies legacy_id(34) != #[trigger] legacy_id(j) by {
        if j == 35 {
            reveal_strlit("spatial_filters.median_filter");
            assert(legacy_id(35) == NodeTypeId::MEDIAN_FILTER@);
            assert(NodeTypeId::GAUSSIAN_BLUR@[16] != NodeTypeId::MEDIAN_FILTER@[16]);
        } else if j == 36 {
            reveal_strlit("generators.spectrum_analyzer");
            assert(legacy_id(36) == NodeTypeId::SPECTRUM_ANALYZER@);
            assert(NodeTypeId::GAUSSIAN_BLUR@.len() != NodeTypeId::SPECTRUM_ANALYZER@.len());
        } else if j == 37 {
            reveal_strlit("generators.solid_frame");
            assert(legacy_id(37) == NodeTypeId::SOLID_FRAME@);
            assert(NodeTypeId::GAUSSIAN_BLUR@.len() != NodeTypeId::SOLID_FRAME@.len());
        } else if j == 38 {
            reveal_strlit("generators.rainbow_sweep");
            assert(legacy_id(38) == NodeTypeId::RAINBOW_SWEEP@);
            assert(NodeTypeId::GAUSSIAN_BLUR@.len() != NodeTypeId::RAINBOW_SWEEP@.len());
        } else if j == 39 {
            reveal_strlit("generators.circle_sweep");
            assert(legacy_id(39) == NodeTypeId::CIRCLE_SWEEP@);
            assert(NodeTypeId::GAUSSIAN_BLUR@.len() != NodeTypeId::CIRCLE_SWEEP@.len());
        } else if j == 40 {
            reveal_strlit("generators.level_bar");
            assert(legacy_id(40) == NodeTypeId::LEVEL_BAR@);
            assert(NodeTypeId::GAUSSIAN_BLUR@.len() != NodeTypeId::LEVEL_BAR@.len());
        } else if j == 41 {
            reveal_strlit("generators.twinkle_stars");
            assert(legacy_id(41) == NodeTypeId::TWINKLE_STARS@);
            assert(NodeTypeId::GAUSSIAN_BLUR@.len() != NodeTypeId::TWINKLE_STARS@.len());
        } else if j == 42 {
            reveal_strlit("generators.plasma");
            assert(legacy_id(42) == NodeTypeId::PLASMA@);
            assert(NodeTypeId::GAUSSIAN_BLUR@.len() != NodeTypeId::PLASMA@.len());
        } else if j == 43 {
            reveal_strlit("generators.bouncing_balls");
            assert(legacy_id(43) == NodeTypeId::BOUNCING_BALLS@);
            assert(NodeTypeId::GAUSSIAN_BLUR@.len() != NodeTypeId::BOUNCING_BALLS@.len());
        } else if j == 44 {
            reveal_strlit("debug.wled_dummy_display");
            assert(legacy_id(44) == NodeTypeId::WLED_DUMMY_DISPLAY@);
            assert(NodeTypeId::GAUSSIAN_BLUR@.len() != NodeTypeId::WLED_DUMMY_DISPLAY@.len());
        } else if j == 45 {
            reveal_strlit("frame_operations.frame_brightness");
            assert(legacy_id(45) == NodeTypeId::FRAME_BRIGHTNESS@);
            assert(NodeTypeId::GAUSSIAN_BLUR@.len() != NodeTypeId::FRAME_BRIGHTNESS@.len());
        }
    }
}

proof fn lemma_legacy_id_35_distinct()
    ensures
        forall|j: int| 35 < j < LEGACY_NODE_COUNT ==> legacy_id(35) != #[trigger] legacy_id(j),
{
    reveal_strlit("spatial_filters.median_filter");
    assert(legacy_id(35) == NodeTypeId::MEDIAN_FILTER@);
    assert forall|j: int| 35 < j < LEGACY_NODE_COUNT implies legacy_id(35) != #[trigger] legacy_id(j) by {
        if j == 36 {
            reveal_strlit("generators.spectrum_analyzer");
            assert(legacy_id(36) == NodeTypeId::SPECTRUM_ANALYZER@);
            assert(NodeTypeId::MEDIAN_FILTER@.len() != NodeTypeId::SPECTRUM_ANALYZER@.len());
        } else if j == 37 {
            reveal_strlit("generators.solid_frame");
            assert(legacy_id(37) == NodeTypeId::SOLID_FRAME@);
            assert(NodeTypeId::MEDIAN_FILTER@.len() != NodeTypeId::SOLID_FRAME@.len());
        } else if j == 38 {
            reveal_strlit("generators.rainbow_sweep");
            assert(legacy_id(38) == NodeTypeId::RAINBOW_SWEEP@);
            assert(NodeTypeId::MEDIAN_FILTER@.len() != NodeTypeId::RAINBOW_SWEEP@.len());
        } else if j == 39 {
            reveal_strlit("generators.circle_sweep");
            assert(legacy_id(39) == NodeTypeId::CIRCLE_SWEEP@);
            assert(NodeTypeId::MEDIAN_FILTER@.len() != NodeTypeId::CIRCLE_SWEEP@.len());
        } else if j == 40 {
            reveal_strlit("generators.level_bar");
            assert(legacy_id(40) == NodeTypeId::LEVEL_BAR@);
            assert(NodeTypeId::MEDIAN_FILTER@.len() != NodeTypeId::LEVEL_BAR@.len());
        } else if j == 41 {
            reveal_strlit("generators.twinkle_stars");
            assert(legacy_id(41) == NodeTypeId::TWINKLE_STARS@);
            assert(NodeTypeId::MEDIAN_FILTER@.len() != NodeTypeId::TWINKLE_STARS@.len());
        } else if j == 42 {
            reveal_strlit("generators.plasma");
            assert(legacy_id(42) == NodeTypeId::PLASMA@);
            assert(NodeTypeId::MEDIAN_FILTER@.len() != NodeTypeId::PLASMA@.len());
        } else if j == 43 {
            reveal_strlit("generators.bouncing_balls");
            assert(legacy_id(43) == NodeTypeId::BOUNCING_BALLS@);
            assert(NodeTypeId::MEDIAN_FILTER@.len() != NodeTypeId::BOUNCING_BALLS@.len());
        } else if j == 44 {
            reveal_strlit("debug.wled_dummy_display");
            assert(legacy_id(44) == NodeTypeId::WLED_DUMMY_DISPLAY@);
            assert(NodeTypeId::MEDIAN_FILTER@.len() != NodeTypeId::WLED_DUMMY_DISPLAY@.len());
        } else if j == 45 {
            reveal_strlit("frame_operations.frame_brightness");
            assert(legacy_id(45) == NodeTypeId::FRAME_BRIGHTNESS@);
            assert(NodeTypeId::MEDIAN_FILTER@.len() != NodeTypeId::FRAME_BRIGHTNESS@.len());
        }
    }
}

proof fn lemma_legacy_id_36_distinct()
    ensures
        forall|j: int| 36 < j < LEGACY_NODE_COUNT ==> legacy_id(36) != #[trigger] legacy_id(j),
{
    reveal_strlit("generators.spectrum_analyzer");
    assert(legacy_id(36) == NodeTypeId::SPECTRUM_ANALYZER@);
    assert forall|j: int| 36 < j < LEGACY_NODE_COUNT implies legacy_id(36) != #[trigger] legacy_id(j) by {
        if j == 37 {
            reveal_strlit("generators.solid_frame");
            assert(legacy_id(37) == NodeTypeId::SOLID_FRAME@);
            assert(NodeTypeId::SPECTRUM_ANALYZER@.len() != NodeTypeId::SOLID_FRAME@.len());
        } else if j == 38 {
            reveal_strlit("generators.rainbow_sweep");
            assert(legacy_id(38) == NodeTypeId::RAINBOW_SWEEP@);
            assert(NodeTypeId::SPECTRUM_ANALYZER@.len() != NodeTypeId::RAINBOW_SWEEP@.len());
        } else if j == 39 {
            reveal_strlit("generators.circle_sweep");
            assert(legacy_id(39) == NodeTypeId::CIRCLE_SWEEP@);
            assert(NodeTypeId::SPECTRUM_ANALYZER@.len() != NodeTypeId::CIRCLE_SWEEP@.len());
        } else if j == 40 {
            reveal_strlit("generators.level_bar");
            assert(legacy_id(40) == NodeTypeId::LEVEL_BAR@);
            assert(NodeTypeId::SPECTRUM_ANALYZER@.len() != NodeTypeId::LEVEL_BAR@.len());
        } else if j == 41 {
            reveal_strlit("generators.twinkle_stars");
            assert(legacy_id(41) == NodeTypeId::TWINKLE_STARS@);
            assert(NodeTypeId::SPECTRUM_ANALYZER@.len() != NodeTypeId::TWINKLE_STARS@.len());
        } else if j == 42 {
            reveal_strlit("generators.plasma");
            assert(legacy_id(42) == NodeTypeId::PLASMA@);
            assert(NodeTypeId::SPECTRUM_ANALYZER@.len() != NodeTypeId::PLASMA@.len());
        } else if j == 43 {
            reveal_strlit("generators.bouncing_balls");
            assert(legacy_id(43) == NodeTypeId::BOUNCING_BALLS@);
            assert(NodeTypeId::SPECTRUM_ANALYZER@.len() != NodeTypeId::BOUNCING_BALLS@.len());
        } else if j == 44 {
            reveal_strlit("debug.wled_dummy_display");
            assert(legacy_id(44) == NodeTypeId::WLED_DUMMY_DISPLAY@);
            assert(NodeTypeId::SPECTRUM_ANALYZER@.len() != NodeTypeId::WLED_DUMMY_DISPLAY@.len());
        } else if j == 45 {
            reveal_strlit("frame_operations.frame_brightness");
            assert(legacy_id(45) == NodeTypeId::FRAME_BRIGHTNESS@);
            assert(NodeTypeId::SPECTRUM_ANALYZER@.len() != NodeTypeId::FRAME_BRIGHTNESS@.len());
        }
    }
}

proof fn lemma_legacy_id_37_distinct()
    ensures
        forall|j: int| 37 < j < LEGACY_NODE_COUNT ==> legacy_id(37) != #[trigger] legacy_id(j),
{
    reveal_strlit("generators.solid_frame");
    assert(legacy_id(37) == NodeTypeId::SOLID_FRAME@);
    assert forall|j: int| 37 < j < LEGACY_NODE_COUNT implies legacy_id(37) != #[trigger] legacy_id(j) by {
        if j == 38 {
            reveal_strlit("generators.rainbow_sweep");
            assert(legacy_id(38) == NodeTypeId::RAINBOW_SWEEP@);
            assert(NodeTypeId::SOLID_FRAME@.len() != NodeTypeId::RAINBOW_SWEEP@.len());
        } else if j == 39 {
            reveal_strlit("generators.circle_sweep");
            assert(legacy_id(39) == NodeTypeId::CIRCLE_SWEEP@);
            assert(NodeTypeId::SOLID_FRAME@.len() != NodeTypeId::CIRCLE_SWEEP@.len());
        } else if j == 40 {
            reveal_strlit("generators.level_bar");
            assert(legacy_id(40) == NodeTypeId::LEVEL_BAR@);
            assert(NodeTypeId::SOLID_FRAME@.len() != NodeTypeId::LEVEL_BAR@.len());
        } else if j == 41 {
            reveal_strlit("generators.twinkle_stars");
            assert(legacy_id(41) == NodeTypeId::TWINKLE_STARS@);
            assert(NodeTypeId::SOLID_FRAME@.len() != NodeTypeId::TWINKLE_STARS@.len());
        } else if j == 42 {
            reveal_strlit("generators.plasma");
            assert(legacy_id(42) == NodeTypeId::PLASMA@);
            assert(NodeTypeId::SOLID_FRAME@.len() != NodeTypeId::PLASMA@.len());
        } else if j == 43 {
            reveal_strlit("generators.bouncing_balls");
            assert(legacy_id(43) == NodeTypeId::BOUNCING_BALLS@);
            assert(NodeTypeId::SOLID_FRAME@.len() != NodeTypeId::BOUNCING_BALLS@.len());
        } else if j == 44 {
            reveal_strlit("debug.wled_dummy_display");
            assert(legacy_id(44) == NodeTypeId::WLED_DUMMY_DISPLAY@);
            assert(NodeTypeId::SOLID_FRAME@.len() != NodeTypeId::WLED_DUMMY_DISPLAY@.len());
        } else if j == 45 {
            reveal_strlit("frame_operations.frame_brightness");
            assert(legacy_id(45) == NodeTypeId::FRAME_BRIGHTNESS@);
            assert(NodeTypeId::SOLID_FRAME@.len() != NodeTypeId::FRAME_BRIGHTNESS@.len());
        }
    }
}

proof fn lemma_legacy_id_38_distinct()
    ensures
        forall|j: int| 38 < j < LEGACY_NODE_COUNT ==> legacy_id(38) != #[trigger] legacy_id(j),
{
    reveal_strlit("generators.rainbow_sweep");
    assert(legacy_id(38) == NodeTypeId::RAINBOW_SWEEP@);
    assert forall|j: int| 38 < j < LEGACY_NODE_COUNT implies legacy_id(38) != #[trigger] legacy_id(j) by {
        if j == 39 {
            reveal_strlit("generators.circle_sweep");
            assert(legacy_id(39) == NodeTypeId::CIRCLE_SWEEP@);
            assert(NodeTypeId::RAINBOW_SWEEP@.len() != NodeTypeId::CIRCLE_SWEEP@.len());
        } else if j == 40 {
            reveal_strlit("generators.level_bar");
            assert(legacy_id(40) == NodeTypeId::LEVEL_BAR@);
            assert(NodeTypeId::RAINBOW_SWEEP@.len() != NodeTypeId::LEVEL_BAR@.len());
        } else if j == 41 {
            reveal_strlit("generators.twinkle_stars");
            assert(legacy_id(41) == NodeTypeId::TWINKLE_STARS@);
            assert(NodeTypeId::RAINBOW_SWEEP@[11] != NodeTypeId::TWINKLE_STARS@[11]);
        } else if j == 42 {
            reveal_strlit("generators.plasma");
            assert(legacy_id(42) == NodeTypeId::PLASMA@);
            assert(NodeTypeId::RAINBOW_SWEEP@.len() != NodeTypeId::PLASMA@.len());
        } else if j == 43 {
            reveal_strlit("generators.bouncing_balls");
            assert(legacy_id(43) == NodeTypeId::BOUNCING_BALLS@);
            assert(NodeTypeId::RAINBOW_SWEEP@.len() != NodeTypeId::BOUNCING_BALLS@.len());
        } else if j == 44 {
            reveal_strlit("debug.wled_dummy_display");
            assert(legacy_id(44) == NodeTypeId::WLED_DUMMY_DISPLAY@);
            assert(NodeTypeId::RAINBOW_SWEEP@[0] != NodeTypeId::WLED_DUMMY_DISPLAY@[0]);
        } else if j == 45 {
            reveal_strlit("frame_operations.frame_brightness");
            assert(legacy_id(45) == NodeTypeId::FRAME_BRIGHTNESS@);
            assert(NodeTypeId::RAINBOW_SWEEP@.len() != NodeTypeId::FRAME_BRIGHTNESS@.len());
        }
    }
}

proof fn lemma_legacy_id_39_distinct()
    ensures
        forall|j: int| 39 < j < LEGACY_NODE_COUNT ==> legacy_id(39) != #[trigger] legacy_id(j),
{
    reveal_strlit("generators.circle_sweep");
    assert(legacy_id(39) == NodeTypeId::CIRCLE_SWEEP@);
    assert forall|j: int| 39 < j < LEGACY_NODE_COUNT implies legacy_id(39) != #[trigger] legacy_id(j) by {
        if j == 40 {
            reveal_strlit("generators.level_bar");
            assert(legacy_id(40) == NodeTypeId::LEVEL_BAR@);
            assert(NodeTypeId::CIRCLE_SWEEP@.len() != NodeTypeId::LEVEL_BAR@.len());
        } else if j == 41 {
            reveal_strlit("generators.twinkle_stars");
            assert(legacy_id(41) == NodeTypeId::TWINKLE_STARS@);
            assert(NodeTypeId::CIRCLE_SWEEP@.len() != NodeTypeId::TWINKLE_STARS@.len());
        } else if j == 42 {
            reveal_strlit("generators.plasma");
            assert(legacy_id(42) == NodeTypeId::PLASMA@);
            assert(NodeTypeId::CIRCLE_SWEEP@.len() != NodeTypeId::PLASMA@.len());
        } else if j == 43 {
            reveal_strlit("generators.bouncing_balls");
            assert(legacy_id(43) == NodeTypeId::BOUNCING_BALLS@);
            assert(NodeTypeId::CIRCLE_SWEEP@.len() != NodeTypeId::BOUNCING_BALLS@.len());
        } else if j == 44 {
            reveal_strlit("debug.wled_dummy_display");
            assert(legacy_id(44) == NodeTypeId::WLED_DUMMY_DISPLAY@);
            assert(NodeTypeId::CIRCLE_SWEEP@.len() != NodeTypeId::WLED_DUMMY_DISPLAY@.len());
        } else if j == 45 {
            reveal_strlit("frame_operations.frame_brightness");
            assert(legacy_id(45) == NodeTypeId::FRAME_BRIGHTNESS@);
            assert(NodeTypeId::CIRCLE_SWEEP@.len() != NodeTypeId::FRAME_BRIGHTNESS@.len());
        }
    }
}

proof fn lemma_legacy_id_40_distinct()
    ensures
        forall|j: int| 40 < j < LEGACY_NODE_COUNT ==> legacy_id(40) != #[trigger] legacy_id(j),
{
    reveal_strlit("generators.level_bar");
    assert(legacy_id(40) == NodeTypeId::LEVEL_BAR@);
    assert forall|j: int| 40 < j < LEGACY_NODE_COUNT implies legacy_id(40) != #[trigger] legacy_id(j) by {
        if j == 41 {
            reveal_strlit("generators.twinkle_stars");
            assert(legacy_id(41) == NodeTypeId::TWINKLE_STARS@);
            assert(NodeTypeId::LEVEL_BAR@.len() != NodeTypeId::TWINKLE_STARS@.len());
        } else if j == 42 {
            reveal_strlit("generators.plasma");
            assert(legacy_id(42) == NodeTypeId::PLASMA@);
            assert(NodeTypeId::LEVEL_BAR@.len() != NodeTypeId::PLASMA@.len());
        } else if j == 43 {
            reveal_strlit("generators.bouncing_balls");
            assert(legacy_id(43) == NodeTypeId::BOUNCING_BALLS@);
            assert(NodeTypeId::LEVEL_BAR@.len() != NodeTypeId::BOUNCING_BALLS@.len());
        } else if j == 44 {
            reveal_strlit("debug.wled_dummy_display");
            assert(legacy_id(44) == NodeTypeId::WLED_DUMMY_DISPLAY@);
            assert(NodeTypeId::LEVEL_BAR@.len() != NodeTypeId::WLED_DUMMY_DISPLAY@.len());
        } else if j == 45 {
            reveal_strlit("frame_operations.frame_brightness");
            assert(legacy_id(45) == NodeTypeId::FRAME_BRIGHTNESS@);
            assert(NodeTypeId::LEVEL_BAR@.len() != NodeTypeId::FRAME_BRIGHTNESS@.len());
        }
    }
}

proof fn lemma_legacy_id_41_distinct()
    ensures
        forall|j: int| 41 < j < LEGACY_NODE_COUNT ==> legacy_id(41) != #[trigger] legacy_id(j),
{
    reveal_strlit("generators.twinkle_stars");
    assert(legacy_id(41) == NodeTypeId::TWINKLE_STARS@);
    assert forall|j: int| 41 < j < LEGACY_NODE_COUNT implies legacy_id(41) != #[trigger] legacy_id(j) by {
        if j == 42 {
            reveal_strlit("generators.plasma");
            assert(legacy_id(42) == NodeTypeId::PLASMA@);
            assert(NodeTypeId::TWINKLE_STARS@.len() != NodeTypeId::PLASMA@.len());
        } else if j == 43 {
            reveal_strlit("generators.bouncing_balls");
            assert(legacy_id(43) == NodeTypeId::BOUNCING_BALLS@);
            assert(NodeTypeId::TWINKLE_STARS@.len() != NodeTypeId::BOUNCING_BALLS@.len());
        } else if j == 44 {
            reveal_strlit("debug.wled_dummy_display");
            assert(legacy_id(44) == NodeTypeId::WLED_DUMMY_DISPLAY@);
            assert(NodeTypeId::TWINKLE_STARS@[0] != NodeTypeId::WLED_DUMMY_DISPLAY@[0]);
        } else if j == 45 {
            reveal_strlit("frame_operations.frame_brightness");
            assert(legacy_id(45) == NodeTypeId::FRAME_BRIGHTNESS@);
            assert(NodeTypeId::TWINKLE_STARS@.len() != NodeTypeId::FRAME_BRIGHTNESS@.len());
        }
    }
}

proof fn lemma_legacy_id_42_distinct()
    ensures
        forall|j: int| 42 < j < LEGACY_NODE_COUNT ==> legacy_id(42) != #[trigger] legacy_id(j),
{
    reveal_strlit("generators.plasma");
    assert(legacy_id(42) == NodeTypeId::PLASMA@);
    assert forall|j: int| 42 < j < LEGACY_NODE_COUNT implies legacy_id(42) != #[trigger] legacy_id(j) by {
        if j == 43 {
            reveal_strlit("generators.bouncing_balls");
            assert(legacy_id(43) == NodeTypeId::BOUNCING_BALLS@);
            assert(NodeTypeId::PLASMA@.len() != NodeTypeId::BOUNCING_BALLS@.len());
        } else if j == 44 {
            reveal_strlit("debug.wled_dummy_display");
            assert(legacy_id(44) == NodeTypeId::WLED_DUMMY_DISPLAY@);
            assert(NodeTypeId::PLASMA@.len() != NodeTypeId::WLED_DUMMY_DISPLAY@.len());
        } else if j == 45 {
            reveal_strlit("frame_operations.frame_brightness");
            assert(legacy_id(45) == NodeTypeId::FRAME_BRIGHTNESS@);
            assert(NodeTypeId::PLASMA@.len() != NodeTypeId::FRAME_BRIGHTNESS@.len());
        }
    }
}

proof fn lemma_legacy_id_43_distinct()
    ensures
        forall|j: int| 43 < j < LEGACY_NODE_COUNT ==> legacy_id(43) != #[trigger] legacy_id(j),
{
    reveal_strlit("generators.bouncing_balls");
    assert(legacy_id(43) == NodeTypeId::BOUNCING_BALLS@);
    assert forall|j: int| 43 < j < LEGACY_NODE_COUNT implies legacy_id(43) != #[trigger] legacy_id(j) by {
        if j == 44 {
            reveal_strlit("debug.wled_dummy_display");
            assert(legacy_id(44) == NodeTypeId::WLED_DUMMY_DISPLAY@);
            assert(NodeTypeId::BOUNCING_BALLS@.len() != NodeTypeId::WLED_DUMMY_DISPLAY@.len());
        } else if j == 45 {
            reveal_strlit("frame_operations.frame_brightness");
            assert(legacy_id(45) == NodeTypeId::FRAME_BRIGHTNESS@);
            assert(NodeTypeId::BOUNCING_BALLS@.len() != NodeTypeId::FRAME_BRIGHTNESS@.len());
        }
    }
}

proof fn lemma_legacy_id_44_distinct()
    ensures
        forall|j: int| 44 < j < LEGACY_NODE_COUNT ==> legacy_id(44) != #[trigger] legacy_id(j),
{
    reveal_strlit("debug.wled_dummy_display");
    assert(legacy_id(44) == NodeTypeId::WLED_DUMMY_DISPLAY@);
    assert forall|j: int| 44 < j < LEGACY_NODE_COUNT implies legacy_id(44) != #[trigger] legacy_id(j) by {
        if j == 45 {
            reveal_strlit("frame_operations.frame_brightness");
            assert(legacy_id(45) == NodeTypeId::FRAME_BRIGHTNESS@);
            assert(NodeTypeId::WLED_DUMMY_DISPLAY@.len() != NodeTypeId::FRAME_BRIGHTNESS@.len());
        }
    }
}

/// No two entries of the earlier catalog share an id.
pub proof fn lemma_legacy_ids_distinct()
    ensures
        forall|i: int, j: int| 0 <= i < j < LEGACY_NODE_COUNT ==> #[trigger] legacy_id(i) != #[trigger] legacy_id(j),
{
    lemma_legacy_id_0_distinct();
    lemma_legacy_id_1_distinct();
    lemma_legacy_id_2_distinct();
    lemma_legacy_id_3_distinct();
    lemma_legacy_id_4_distinct();
    lemma_legacy_id_5_distinct();
    lemma_legacy_id_6_distinct();
    lemma_legacy_id_7_distinct();
    lemma_legacy_id_8_distinct();
    lemma_legacy_id_9_distinct();
    lemma_legacy_id_10_distinct();
    lemma_legacy_id_11_distinct();
    lemma_legacy_id_12_distinct();
    lemma_legacy_id_13_distinct();
    lemma_legacy_id_14_distinct();
    lemma_legacy_id_15_distinct();
    lemma_legacy_id_16_distinct();
    lemma_legacy_id_17_distinct();
    lemma_legacy_id_18_distinct();
    lemma_legacy_id_19_distinct();
    lemma_legacy_id_20_distinct();
    lemma_legacy_id_21_distinct();
    lemma_legacy_id_22_distinct();
    lemma_legacy_id_23_distinct();
    lemma_legacy_id_24_distinct();
    lemma_legacy_id_25_distinct();
    lemma_legacy_id_26_distinct();
    lemma_legacy_id_27_distinct();
    lemma_legacy_id_28_distinct();
    lemma_legacy_id_29_distinct();
    lemma_legacy_id_30_distinct();
    lemma_legacy_id_31_distinct();
    lemma_legacy_id_32_distinct();
    lemma_legacy_id_33_distinct();
    lemma_legacy_id_34_distinct();
    lemma_legacy_id_35_distinct();
    lemma_legacy_id_36_distinct();
    lemma_legacy_id_37_distinct();
    lemma_legacy_id_38_distinct();
    lemma_legacy_id_39_distinct();
    lemma_legacy_id_40_distinct();
    lemma_legacy_id_41_distinct();
    lemma_legacy_id_42_distinct();
    lemma_legacy_id_43_distinct();
    lemma_legacy_id_44_distinct();
    assert forall|i: int, j: int| 0 <= i < j < LEGACY_NODE_COUNT implies #[trigger] legacy_id(i) != #[trigger] legacy_id(j) by {
        if i == 0 {
            lemma_legacy_id_0_distinct();
        } else if i == 1 {
            lemma_legacy_id_1_distinct();
        } else if i == 2 {
            lemma_legacy_id_2_distinct();
        } else if i == 3 {
            lemma_legacy_id_3_distinct();
        } else if i == 4 {
            lemma_legacy_id_4_distinct();
        } else if i == 5 {
            lemma_legacy_id_5_distinct();
        } else if i == 6 {
            lemma_legacy_id_6_distinct();
        } else if i == 7 {
            lemma_legacy_id_7_distinct();
        } else if i == 8 {
            lemma_legacy_id_8_distinct();
        } else if i == 9 {
            lemma_legacy_id_9_distinct();
        } else if i == 10 {
            lemma_legacy_id_10_distinct();
        } else if i == 11 {
            lemma_legacy_id_11_distinct();
        } else if i == 12 {
            lemma_legacy_id_12_distinct();
        } else if i == 13 {
            lemma_legacy_id_13_distinct();
        } else if i == 14 {
            lemma_legacy_id_14_distinct();
        } else if i == 15 {
            lemma_legacy_id_15_distinct();
        } else if i == 16 {
            lemma_legacy_id_16_distinct();
        } else if i == 17 {
            lemma_legacy_id_17_distinct();
        } else if i == 18 {
            lemma_legacy_id_18_distinct();
        } else if i == 19 {
            lemma_legacy_id_19_distinct();
        } else if i == 20 {
            lemma_legacy_id_20_distinct();
        } else if i == 21 {
            lemma_legacy_id_21_distinct();
        } else if i == 22 {
            lemma_legacy_id_22_distinct();
        } else if i == 23 {
            lemma_legacy_id_23_distinct();
        } else if i == 24 {
            lemma_legacy_id_24_distinct();
        } else if i == 25 {
            lemma_legacy_id_25_distinct();
        } else if i == 26 {
            lemma_legacy_id_26_distinct();
        } else if i == 27 {
            lemma_legacy_id_27_distinct();
        } else if i == 28 {
            lemma_legacy_id_28_distinct();
        } else if i == 29 {
            lemma_legacy_id_29_distinct();
        } else if i == 30 {
            lemma_legacy_id_30_distinct();
        } else if i == 31 {
            lemma_legacy_id_31_distinct();
        } else if i == 32 {
            lemma_legacy_id_32_distinct();
        } else if i == 33 {
            lemma_legacy_id_33_distinct();
        } else if i == 34 {
            lemma_legacy_id_34_distinct();
        } else if i == 35 {
            lemma_legacy_id_35_distinct();
        } else if i == 36 {
            lemma_legacy_id_36_distinct();
        } else if i == 37 {
            lemma_legacy_id_37_distinct();
        } else if i == 38 {
            lemma_legacy_id_38_distinct();
        } else if i == 39 {
            lemma_legacy_id_39_distinct();
        } else if i == 40 {
            lemma_legacy_id_40_distinct();
        } else if i == 41 {
            lemma_legacy_id_41_distinct();
        } else if i == 42 {
            lemma_legacy_id_42_distinct();
        } else if i == 43 {
            lemma_legacy_id_43_distinct();
        } else if i == 44 {
            lemma_legacy_id_44_distinct();
        }
    }
}

/// Looking up the id of any entry of the earlier catalog finds that entry.
pub proof fn lemma_legacy_lookup_finds_each_entry(k: int)
    requires
        0 <= k < LEGACY_NODE_COUNT,
    ensures
        first_position(legacy_ids(), legacy_id(k)) == Some(k),
{
    lemma_legacy_ids_distinct();
    assert forall|j: int| 0 <= j < k implies legacy_ids()[j] != legacy_id(k) by {
        assert(legacy_ids()[j] == legacy_id(j));
    }
    assert(legacy_ids()[k] == legacy_id(k));
    lemma_first_position(legacy_ids(), legacy_id(k), k);
}

} // verus!
