//! The built-in node catalog: every node type the editor offers and the runtime executes.
//!
//! Each entry is built by its own function, whose contract states the entry's shape: its id,
//! label, category, inference rule, ports, parameters, connection rules and runtime values.

use vstd::prelude::*;
use crate::inference::{infer_output, InputKindRef, OutputInference};
use crate::json::JsonValue;
use crate::schema::{
    first_match, first_position, input_shapes, lemma_first_position, lemma_no_position,
    condition_holds, lemma_any_of_two, lemma_bool_condition, lemma_text_condition, option_views,
    output_shapes, parameter_holds_bool, parameter_holds_text, parameter_shapes, runtime_shapes,
    DefaultView, EnumOption, HintView, ParameterShape,
    InferenceRule, InputShape, NodeCategory, NodeConnectionDefinition, NodeDefinition,
    NodeInputDefinition, NodeOutputDefinition, NodeParameter, NodeParameterDefinition,
    NodeRuntimeUpdateDefinition, NodeRuntimeValueDefinition, NodeShape, NodeTypeId,
    ParameterDefaultValue, ParameterUiHint, ParameterVisibilityCondition, PortShape,
};
use crate::text::{str_equal, title_case_name, title_case_text};
use crate::value::{ColorGradientStop, Decimal, FloatTensor, InputValue, RgbaColor, ValueKind};

verus! {

/// A built-in node type: its shared schema and how it infers its output kinds.
#[derive(Debug)]
pub struct BuiltinNode {
    pub schema: NodeDefinition,
    pub rule: InferenceRule,
}

impl BuiltinNode {
    /// The node type as validation sees it.
    pub open spec fn shape(&self) -> NodeShape {
        NodeShape {
            id: self.schema.id@,
            display_name: self.schema.display_name@,
            category: self.schema.category,
            needs_io: self.schema.needs_io,
            rule: self.rule,
            inputs: input_shapes(self.schema.inputs@),
            outputs: output_shapes(self.schema.outputs@),
            parameters: parameter_shapes(self.schema.parameters@),
            connection: self.schema.connection,
            runtime_values: runtime_shapes(self.schema.runtime_updates),
        }
    }

    /// Returns the node's shared schema.
    pub fn schema(&self) -> (schema: &NodeDefinition)
        ensures
            *schema == self.schema,
    {
        &self.schema
    }

    /// Infers the kind of output `output_name` from the kinds reaching the node's inputs and its
    /// parameter values.
    pub fn infer_output(
        &self,
        output_name: &str,
        input_kinds: &[InputKindRef<'_>],
        parameters: &[NodeParameter],
    ) -> (inference: OutputInference)
        ensures
            inference.outcome() == crate::inference::rule_outcome(
                self.rule,
                self.schema.id@,
                output_shapes(self.schema.outputs@),
                output_name@,
                crate::inference::kind_pairs(input_kinds@),
                parameters@,
            ),
    {
        infer_output(self.rule, &self.schema, output_name, input_kinds, parameters)
    }
}

/// The decimal `significand * 10^exponent`.
pub open spec fn decimal(significand: u64, exponent: i32) -> Decimal {
    Decimal { negative: false, significand, exponent }
}

/// The decimal `-(significand * 10^exponent)`.
pub open spec fn negative_decimal(significand: u64, exponent: i32) -> Decimal {
    Decimal { negative: true, significand, exponent }
}

/// The shape of an output port or runtime value labelled after its name.
pub open spec fn port(name: Seq<char>, kind: ValueKind, accepted: Seq<ValueKind>) -> PortShape {
    PortShape { name, display_name: title_case_text(name), kind, accepted }
}

/// The shape of a parameter labelled after its name.
pub open spec fn param(
    name: Seq<char>,
    default: DefaultView,
    hint: HintView,
    shown: spec_fn(Seq<NodeParameter>) -> bool,
) -> ParameterShape {
    ParameterShape { name, display_name: title_case_text(name), default, hint, shown }
}

/// The shape of an input port labelled after its name.
pub open spec fn in_port(
    name: Seq<char>,
    kind: ValueKind,
    accepted: Seq<ValueKind>,
    default_kind: Option<ValueKind>,
) -> InputShape {
    InputShape { name, display_name: title_case_text(name), kind, accepted, default_kind }
}

pub(crate) fn input(
    name: &str,
    value_kind: ValueKind,
    accepted_kinds: Vec<ValueKind>,
    default_value: Option<InputValue>,
) -> (port: NodeInputDefinition)
    ensures
        port.name@ == name@,
        port.display_name@ == title_case_text(name@),
        port.value_kind == value_kind,
        port.accepted_kinds == accepted_kinds,
        port.default_value == default_value,
{
    NodeInputDefinition {
        name: name.to_owned(),
        display_name: title_case_name(name),
        value_kind,
        accepted_kinds,
        default_value,
    }
}

pub(crate) fn output(name: &str, value_kind: ValueKind, accepted_kinds: Vec<ValueKind>) -> (port:
    NodeOutputDefinition)
    ensures
        port.name@ == name@,
        port.display_name@ == title_case_text(name@),
        port.value_kind == value_kind,
        port.accepted_kinds == accepted_kinds,
{
    NodeOutputDefinition {
        name: name.to_owned(),
        display_name: title_case_name(name),
        value_kind,
        accepted_kinds,
    }
}

pub(crate) fn runtime_value(name: &str, value_kind: ValueKind, accepted_kinds: Vec<ValueKind>) -> (value:
    NodeRuntimeValueDefinition)
    ensures
        value.name@ == name@,
        value.display_name@ == title_case_text(name@),
        value.value_kind == value_kind,
        value.accepted_kinds == accepted_kinds,
{
    NodeRuntimeValueDefinition {
        name: name.to_owned(),
        display_name: title_case_name(name),
        value_kind,
        accepted_kinds,
    }
}

/// Returns the canonical opaque-white default input value used by the node catalog.
pub fn white_input() -> (value: InputValue)
    ensures
        value == InputValue::Color(RgbaColor {
            r: Decimal { negative: false, significand: 1, exponent: 0 },
            g: Decimal { negative: false, significand: 1, exponent: 0 },
            b: Decimal { negative: false, significand: 1, exponent: 0 },
            a: Decimal { negative: false, significand: 1, exponent: 0 },
        }),
{
    InputValue::Color(RgbaColor {
        r: Decimal::new(1, 0),
        g: Decimal::new(1, 0),
        b: Decimal::new(1, 0),
        a: Decimal::new(1, 0),
    })
}

/// Returns the canonical fully transparent color used by the node catalog.
pub fn transparent_input() -> (value: InputValue)
    ensures
        value == InputValue::Color(RgbaColor {
            r: Decimal { negative: false, significand: 0, exponent: 0 },
            g: Decimal { negative: false, significand: 0, exponent: 0 },
            b: Decimal { negative: false, significand: 0, exponent: 0 },
            a: Decimal { negative: false, significand: 0, exponent: 0 },
        }),
{
    InputValue::Color(RgbaColor {
        r: Decimal::new(0, 0),
        g: Decimal::new(0, 0),
        b: Decimal::new(0, 0),
        a: Decimal::new(0, 0),
    })
}

/// Returns the canonical single-element zero tensor used by the node catalog.
pub fn default_tensor_input() -> (value: InputValue)
    ensures
        value matches InputValue::FloatTensor(t) && t.shape@ == seq![1usize] && t.values@ == seq![
            Decimal { negative: false, significand: 0, exponent: 0 },
        ],
{
    let tensor = FloatTensor { shape: vec![1], values: vec![Decimal::new(0, 0)] };
    InputValue::FloatTensor(tensor)
}

/// The options of the signal generator waveforms selection, as (value, label) pairs.
pub open spec fn signal_generator_waveforms_view() -> Seq<(Seq<char>, Seq<char>)> {
    seq![
        ("sinus"@, "Sine"@),
        ("triangle"@, "Triangle"@),
        ("sawtooth"@, "Sawtooth"@),
        ("rectangle"@, "Rectangle"@),
    ]
}

fn signal_generator_waveforms() -> (options: Vec<EnumOption>)
    ensures
        option_views(options@) == signal_generator_waveforms_view(),
{
    let options = vec![
        EnumOption { value: "sinus".to_owned(), label: "Sine".to_owned() },
        EnumOption { value: "triangle".to_owned(), label: "Triangle".to_owned() },
        EnumOption { value: "sawtooth".to_owned(), label: "Sawtooth".to_owned() },
        EnumOption { value: "rectangle".to_owned(), label: "Rectangle".to_owned() },
    ];
    assert(option_views(options@) =~= signal_generator_waveforms_view());
    options
}

/// The options of the audio fft receive modes selection, as (value, label) pairs.
pub open spec fn audio_fft_receive_modes_view() -> Seq<(Seq<char>, Seq<char>)> {
    seq![
        ("udp_multicast"@, "UDP Multicast"@),
        ("udp_unicast"@, "UDP Unicast"@),
        ("wled_sound_sync"@, "WLED Sound Sync"@),
    ]
}

fn audio_fft_receive_modes() -> (options: Vec<EnumOption>)
    ensures
        option_views(options@) == audio_fft_receive_modes_view(),
{
    let options = vec![
        EnumOption { value: "udp_multicast".to_owned(), label: "UDP Multicast".to_owned() },
        EnumOption { value: "udp_unicast".to_owned(), label: "UDP Unicast".to_owned() },
        EnumOption { value: "wled_sound_sync".to_owned(), label: "WLED Sound Sync".to_owned() },
    ];
    assert(option_views(options@) =~= audio_fft_receive_modes_view());
    options
}

/// The options of the image fit modes selection, as (value, label) pairs.
pub open spec fn image_fit_modes_view() -> Seq<(Seq<char>, Seq<char>)> {
    seq![("stretch"@, "Stretch"@), ("contain"@, "Contain"@), ("cover"@, "Cover"@)]
}

fn image_fit_modes() -> (options: Vec<EnumOption>)
    ensures
        option_views(options@) == image_fit_modes_view(),
{
    let options = vec![
        EnumOption { value: "stretch".to_owned(), label: "Stretch".to_owned() },
        EnumOption { value: "contain".to_owned(), label: "Contain".to_owned() },
        EnumOption { value: "cover".to_owned(), label: "Cover".to_owned() },
    ];
    assert(option_views(options@) =~= image_fit_modes_view());
    options
}

/// The options of the min max float modes selection, as (value, label) pairs.
pub open spec fn min_max_float_modes_view() -> Seq<(Seq<char>, Seq<char>)> {
    seq![("min"@, "Min"@), ("max"@, "Max"@)]
}

fn min_max_float_modes() -> (options: Vec<EnumOption>)
    ensures
        option_views(options@) == min_max_float_modes_view(),
{
    let options = vec![
        EnumOption { value: "min".to_owned(), label: "Min".to_owned() },
        EnumOption { value: "max".to_owned(), label: "Max".to_owned() },
    ];
    assert(option_views(options@) =~= min_max_float_modes_view());
    options
}

/// The options of the frame channel options selection, as (value, label) pairs.
pub open spec fn frame_channel_options_view() -> Seq<(Seq<char>, Seq<char>)> {
    seq![("r"@, "Red"@), ("g"@, "Green"@), ("b"@, "Blue"@), ("a"@, "Alpha"@)]
}

fn frame_channel_options() -> (options: Vec<EnumOption>)
    ensures
        option_views(options@) == frame_channel_options_view(),
{
    let options = vec![
        EnumOption { value: "r".to_owned(), label: "Red".to_owned() },
        EnumOption { value: "g".to_owned(), label: "Green".to_owned() },
        EnumOption { value: "b".to_owned(), label: "Blue".to_owned() },
        EnumOption { value: "a".to_owned(), label: "Alpha".to_owned() },
    ];
    assert(option_views(options@) =~= frame_channel_options_view());
    options
}

/// The options of the frame set channel options selection, as (value, label) pairs.
pub open spec fn frame_set_channel_options_view() -> Seq<(Seq<char>, Seq<char>)> {
    seq![
        ("r"@, "Red"@),
        ("g"@, "Green"@),
        ("b"@, "Blue"@),
        ("a"@, "Alpha"@),
        ("h"@, "Hue"@),
        ("s"@, "Saturation"@),
        ("v"@, "Value"@),
    ]
}

fn frame_set_channel_options() -> (options: Vec<EnumOption>)
    ensures
        option_views(options@) == frame_set_channel_options_view(),
{
    let options = vec![
        EnumOption { value: "r".to_owned(), label: "Red".to_owned() },
        EnumOption { value: "g".to_owned(), label: "Green".to_owned() },
        EnumOption { value: "b".to_owned(), label: "Blue".to_owned() },
        EnumOption { value: "a".to_owned(), label: "Alpha".to_owned() },
        EnumOption { value: "h".to_owned(), label: "Hue".to_owned() },
        EnumOption { value: "s".to_owned(), label: "Saturation".to_owned() },
        EnumOption { value: "v".to_owned(), label: "Value".to_owned() },
    ];
    assert(option_views(options@) =~= frame_set_channel_options_view());
    options
}

/// The options of the round float modes selection, as (value, label) pairs.
pub open spec fn round_float_modes_view() -> Seq<(Seq<char>, Seq<char>)> {
    seq![("floor"@, "Floor"@), ("round"@, "Round"@), ("ceil"@, "Ceil"@)]
}

fn round_float_modes() -> (options: Vec<EnumOption>)
    ensures
        option_views(options@) == round_float_modes_view(),
{
    let options = vec![
        EnumOption { value: "floor".to_owned(), label: "Floor".to_owned() },
        EnumOption { value: "round".to_owned(), label: "Round".to_owned() },
        EnumOption { value: "ceil".to_owned(), label: "Ceil".to_owned() },
    ];
    assert(option_views(options@) =~= round_float_modes_view());
    options
}

/// The delay initial type options, as (value, label) pairs.
pub open spec fn delay_initial_type_options_view() -> Seq<(Seq<char>, Seq<char>)> {
    seq![("float"@, "Float"@), ("tensor"@, "Tensor"@), ("colorframe"@, "ColorFrame"@)]
}

fn delay_initial_type_options() -> (options: Vec<EnumOption>)
    ensures
        option_views(options@) == delay_initial_type_options_view(),
{
    let options = vec![
        EnumOption { value: "float".to_owned(), label: "Float".to_owned() },
        EnumOption { value: "tensor".to_owned(), label: "Tensor".to_owned() },
        EnumOption { value: "colorframe".to_owned(), label: "ColorFrame".to_owned() },
    ];
    assert(option_views(options@) =~= delay_initial_type_options_view());
    options
}

/// The wled sink protocol options, as (value, label) pairs.
pub open spec fn wled_sink_protocol_options_view() -> Seq<(Seq<char>, Seq<char>)> {
    seq![("ddp"@, "DDP"@), ("udp_raw"@, "UDP Raw"@)]
}

fn wled_sink_protocol_options() -> (options: Vec<EnumOption>)
    ensures
        option_views(options@) == wled_sink_protocol_options_view(),
{
    let options = vec![
        EnumOption { value: "ddp".to_owned(), label: "DDP".to_owned() },
        EnumOption { value: "udp_raw".to_owned(), label: "UDP Raw".to_owned() },
    ];
    assert(option_views(options@) =~= wled_sink_protocol_options_view());
    options
}

/// The default rainbow gradient stops.
pub open spec fn default_rainbow_gradient_stops_view() -> Seq<ColorGradientStop> {
    seq![
        ColorGradientStop {
            position: decimal(0, 0),
            color: RgbaColor {
                r: decimal(1, 0),
                g: decimal(0, 0),
                b: decimal(0, 0),
                a: decimal(1, 0),
            },
        },
        ColorGradientStop {
            position: decimal(2, -1i32),
            color: RgbaColor {
                r: decimal(1, 0),
                g: decimal(5, -1i32),
                b: decimal(0, 0),
                a: decimal(1, 0),
            },
        },
        ColorGradientStop {
            position: decimal(4, -1i32),
            color: RgbaColor {
                r: decimal(1, 0),
                g: decimal(1, 0),
                b: decimal(0, 0),
                a: decimal(1, 0),
            },
        },
        ColorGradientStop {
            position: decimal(6, -1i32),
            color: RgbaColor {
                r: decimal(0, 0),
                g: decimal(1, 0),
                b: decimal(0, 0),
                a: decimal(1, 0),
            },
        },
        ColorGradientStop {
            position: decimal(8, -1i32),
            color: RgbaColor {
                r: decimal(0, 0),
                g: decimal(4, -1i32),
                b: decimal(1, 0),
                a: decimal(1, 0),
            },
        },
        ColorGradientStop {
            position: decimal(1, 0),
            color: RgbaColor {
                r: decimal(7, -1i32),
                g: decimal(0, 0),
                b: decimal(1, 0),
                a: decimal(1, 0),
            },
        },
    ]
}

fn default_rainbow_gradient_stops() -> (stops: Vec<ColorGradientStop>)
    ensures
        stops@ == default_rainbow_gradient_stops_view(),
{
    let stops = vec![
        ColorGradientStop {
            position: Decimal::new(0, 0),
            color: RgbaColor {
                r: Decimal::new(1, 0),
                g: Decimal::new(0, 0),
                b: Decimal::new(0, 0),
                a: Decimal::new(1, 0),
            },
        },
        ColorGradientStop {
            position: Decimal::new(2, -1),
            color: RgbaColor {
                r: Decimal::new(1, 0),
                g: Decimal::new(5, -1),
                b: Decimal::new(0, 0),
                a: Decimal::new(1, 0),
            },
        },
        ColorGradientStop {
            position: Decimal::new(4, -1),
            color: RgbaColor {
                r: Decimal::new(1, 0),
                g: Decimal::new(1, 0),
                b: Decimal::new(0, 0),
                a: Decimal::new(1, 0),
            },
        },
        ColorGradientStop {
            position: Decimal::new(6, -1),
            color: RgbaColor {
                r: Decimal::new(0, 0),
                g: Decimal::new(1, 0),
                b: Decimal::new(0, 0),
                a: Decimal::new(1, 0),
            },
        },
        ColorGradientStop {
            position: Decimal::new(8, -1),
            color: RgbaColor {
                r: Decimal::new(0, 0),
                g: Decimal::new(4, -1),
                b: Decimal::new(1, 0),
                a: Decimal::new(1, 0),
            },
        },
        ColorGradientStop {
            position: Decimal::new(1, 0),
            color: RgbaColor {
                r: Decimal::new(7, -1),
                g: Decimal::new(0, 0),
                b: Decimal::new(1, 0),
                a: Decimal::new(1, 0),
            },
        },
    ];
    assert(stops@ =~= default_rainbow_gradient_stops_view());
    stops
}

/// The default plasma gradient stops.
pub open spec fn default_plasma_gradient_stops_view() -> Seq<ColorGradientStop> {
    seq![
        ColorGradientStop {
            position: decimal(0, 0),
            color: RgbaColor {
                r: decimal(2, -2i32),
                g: decimal(0, 0),
                b: decimal(1, -1i32),
                a: decimal(1, 0),
            },
        },
        ColorGradientStop {
            position: decimal(3, -1i32),
            color: RgbaColor {
                r: decimal(3, -1i32),
                g: decimal(0, 0),
                b: decimal(6, -1i32),
                a: decimal(1, 0),
            },
        },
        ColorGradientStop {
            position: decimal(55, -2i32),
            color: RgbaColor {
                r: decimal(0, 0),
                g: decimal(7, -1i32),
                b: decimal(9, -1i32),
                a: decimal(1, 0),
            },
        },
        ColorGradientStop {
            position: decimal(8, -1i32),
            color: RgbaColor {
                r: decimal(1, 0),
                g: decimal(5, -1i32),
                b: decimal(0, 0),
                a: decimal(1, 0),
            },
        },
        ColorGradientStop {
            position: decimal(1, 0),
            color: RgbaColor {
                r: decimal(1, 0),
                g: decimal(95, -2i32),
                b: decimal(4, -1i32),
                a: decimal(1, 0),
            },
        },
    ]
}

fn default_plasma_gradient_stops() -> (stops: Vec<ColorGradientStop>)
    ensures
        stops@ == default_plasma_gradient_stops_view(),
{
    let stops = vec![
        ColorGradientStop {
            position: Decimal::new(0, 0),
            color: RgbaColor {
                r: Decimal::new(2, -2),
                g: Decimal::new(0, 0),
                b: Decimal::new(1, -1),
                a: Decimal::new(1, 0),
            },
        },
        ColorGradientStop {
            position: Decimal::new(3, -1),
            color: RgbaColor {
                r: Decimal::new(3, -1),
                g: Decimal::new(0, 0),
                b: Decimal::new(6, -1),
                a: Decimal::new(1, 0),
            },
        },
        ColorGradientStop {
            position: Decimal::new(55, -2),
            color: RgbaColor {
                r: Decimal::new(0, 0),
                g: Decimal::new(7, -1),
                b: Decimal::new(9, -1),
                a: Decimal::new(1, 0),
            },
        },
        ColorGradientStop {
            position: Decimal::new(8, -1),
            color: RgbaColor {
                r: Decimal::new(1, 0),
                g: Decimal::new(5, -1),
                b: Decimal::new(0, 0),
                a: Decimal::new(1, 0),
            },
        },
        ColorGradientStop {
            position: Decimal::new(1, 0),
            color: RgbaColor {
                r: Decimal::new(1, 0),
                g: Decimal::new(95, -2),
                b: Decimal::new(4, -1),
                a: Decimal::new(1, 0),
            },
        },
    ];
    assert(stops@ =~= default_plasma_gradient_stops_view());
    stops
}

/// The default twinkle gradient stops.
pub open spec fn default_twinkle_gradient_stops_view() -> Seq<ColorGradientStop> {
    seq![
        ColorGradientStop {
            position: decimal(0, 0),
            color: RgbaColor {
                r: decimal(65, -2i32),
                g: decimal(75, -2i32),
                b: decimal(1, 0),
                a: decimal(1, 0),
            },
        },
        ColorGradientStop {
            position: decimal(5, -1i32),
            color: RgbaColor {
                r: decimal(1, 0),
                g: decimal(95, -2i32),
                b: decimal(85, -2i32),
                a: decimal(1, 0),
            },
        },
        ColorGradientStop {
            position: decimal(1, 0),
            color: RgbaColor {
                r: decimal(1, 0),
                g: decimal(1, 0),
                b: decimal(1, 0),
                a: decimal(1, 0),
            },
        },
    ]
}

fn default_twinkle_gradient_stops() -> (stops: Vec<ColorGradientStop>)
    ensures
        stops@ == default_twinkle_gradient_stops_view(),
{
    let stops = vec![
        ColorGradientStop {
            position: Decimal::new(0, 0),
            color: RgbaColor {
                r: Decimal::new(65, -2),
                g: Decimal::new(75, -2),
                b: Decimal::new(1, 0),
                a: Decimal::new(1, 0),
            },
        },
        ColorGradientStop {
            position: Decimal::new(5, -1),
            color: RgbaColor {
                r: Decimal::new(1, 0),
                g: Decimal::new(95, -2),
                b: Decimal::new(85, -2),
                a: Decimal::new(1, 0),
            },
        },
        ColorGradientStop {
            position: Decimal::new(1, 0),
            color: RgbaColor {
                r: Decimal::new(1, 0),
                g: Decimal::new(1, 0),
                b: Decimal::new(1, 0),
                a: Decimal::new(1, 0),
            },
        },
    ];
    assert(stops@ =~= default_twinkle_gradient_stops_view());
    stops
}

/// The default bouncing balls gradient stops.
pub open spec fn default_bouncing_balls_gradient_stops_view() -> Seq<ColorGradientStop> {
    seq![
        ColorGradientStop {
            position: decimal(0, 0),
            color: RgbaColor {
                r: decimal(9, -2i32),
                g: decimal(64, -2i32),
                b: decimal(98, -2i32),
                a: decimal(1, 0),
            },
        },
        ColorGradientStop {
            position: decimal(5, -1i32),
            color: RgbaColor {
                r: decimal(98, -2i32),
                g: decimal(73, -2i32),
                b: decimal(16, -2i32),
                a: decimal(1, 0),
            },
        },
        ColorGradientStop {
            position: decimal(1, 0),
            color: RgbaColor {
                r: decimal(96, -2i32),
                g: decimal(24, -2i32),
                b: decimal(43, -2i32),
                a: decimal(1, 0),
            },
        },
    ]
}

fn default_bouncing_balls_gradient_stops() -> (stops: Vec<ColorGradientStop>)
    ensures
        stops@ == default_bouncing_balls_gradient_stops_view(),
{
    let stops = vec![
        ColorGradientStop {
            position: Decimal::new(0, 0),
            color: RgbaColor {
                r: Decimal::new(9, -2),
                g: Decimal::new(64, -2),
                b: Decimal::new(98, -2),
                a: Decimal::new(1, 0),
            },
        },
        ColorGradientStop {
            position: Decimal::new(5, -1),
            color: RgbaColor {
                r: Decimal::new(98, -2),
                g: Decimal::new(73, -2),
                b: Decimal::new(16, -2),
                a: Decimal::new(1, 0),
            },
        },
        ColorGradientStop {
            position: Decimal::new(1, 0),
            color: RgbaColor {
                r: Decimal::new(96, -2),
                g: Decimal::new(24, -2),
                b: Decimal::new(43, -2),
                a: Decimal::new(1, 0),
            },
        },
    ];
    assert(stops@ =~= default_bouncing_balls_gradient_stops_view());
    stops
}

/// The shape of the `float_constant` node.
pub open spec fn float_constant_shape() -> NodeShape {
    NodeShape {
        id: NodeTypeId::FLOAT_CONSTANT@,
        display_name: "Float Constant"@,
        category: NodeCategory::Inputs,
        needs_io: false,
        rule: InferenceRule::Declared,
        inputs: seq![],
        outputs: seq![
            port("value"@, ValueKind::Float, seq![]),
        ],
        parameters: seq![
            param(
                "value"@,
                DefaultView::Float(decimal(0, 0)),
                HintView::DragFloat {
                    speed: decimal(1, -2i32),
                    min: negative_decimal(1, 4),
                    max: decimal(1, 4),
                },
                |parameters: Seq<NodeParameter>| true,
            ),
        ],
        connection: NodeConnectionDefinition {
            max_input_connections: 1,
            require_value_kind_match: true,
        },
        runtime_values: None,
    }
}

fn float_constant_node() -> (node: BuiltinNode)
    ensures
        node.shape() == float_constant_shape(),
{
    let node = BuiltinNode {
        schema: NodeDefinition {
            id: NodeTypeId::FLOAT_CONSTANT.to_owned(),
            display_name: "Float Constant".to_owned(),
            category: NodeCategory::Inputs,
            needs_io: false,
            inputs: vec![],
            outputs: vec![output("value", ValueKind::Float, vec![])],
            parameters: vec![
                NodeParameterDefinition::new(
                    "value",
                    title_case_name("value"),
                    ParameterDefaultValue::Float(Decimal::new(0, 0)),
                    ParameterUiHint::DragFloat {
                        speed: Decimal::new(1, -2),
                        min: Decimal::negative(1, 4),
                        max: Decimal::new(1, 4),
                    },
                ),
            ],
            connection: NodeConnectionDefinition {
                max_input_connections: 1,
                require_value_kind_match: true,
            },
            runtime_updates: None,
        },
        rule: InferenceRule::Declared,
    };
    assert(node.shape() =~~= float_constant_shape());
    node
}

/// The shape of the `color_constant` node.
pub open spec fn color_constant_shape() -> NodeShape {
    NodeShape {
        id: NodeTypeId::COLOR_CONSTANT@,
        display_name: "Color Constant"@,
        category: NodeCategory::Inputs,
        needs_io: false,
        rule: InferenceRule::Declared,
        inputs: seq![],
        outputs: seq![
            port("color"@, ValueKind::Color, seq![]),
        ],
        parameters: seq![
            param(
                "color"@,
                DefaultView::Color(
                    RgbaColor {
                        r: decimal(1, 0),
                        g: decimal(1, 0),
                        b: decimal(1, 0),
                        a: decimal(1, 0),
                    },
                ),
                HintView::ColorPicker,
                |parameters: Seq<NodeParameter>| true,
            ),
        ],
        connection: NodeConnectionDefinition {
            max_input_connections: 1,
            require_value_kind_match: true,
        },
        runtime_values: None,
    }
}

fn color_constant_node() -> (node: BuiltinNode)
    ensures
        node.shape() == color_constant_shape(),
{
    let node = BuiltinNode {
        schema: NodeDefinition {
            id: NodeTypeId::COLOR_CONSTANT.to_owned(),
            display_name: "Color Constant".to_owned(),
            category: NodeCategory::Inputs,
            needs_io: false,
            inputs: vec![],
            outputs: vec![output("color", ValueKind::Color, vec![])],
            parameters: vec![
                NodeParameterDefinition::new(
                    "color",
                    title_case_name("color"),
                    ParameterDefaultValue::Color(
                        RgbaColor {
                            r: Decimal::new(1, 0),
                            g: Decimal::new(1, 0),
                            b: Decimal::new(1, 0),
                            a: Decimal::new(1, 0),
                        },
                    ),
                    ParameterUiHint::ColorPicker,
                ),
            ],
            connection: NodeConnectionDefinition {
                max_input_connections: 1,
                require_value_kind_match: true,
            },
            runtime_updates: None,
        },
        rule: InferenceRule::Declared,
    };
    assert(node.shape() =~~= color_constant_shape());
    node
}

/// The shape of the `image_source` node.
pub open spec fn image_source_shape() -> NodeShape {
    NodeShape {
        id: NodeTypeId::IMAGE_SOURCE@,
        display_name: "Image Source"@,
        category: NodeCategory::Inputs,
        needs_io: true,
        rule: InferenceRule::Declared,
        inputs: seq![],
        outputs: seq![
            port("frame"@, ValueKind::ColorFrame, seq![]),
        ],
        parameters: seq![
            param(
                "asset_id"@,
                DefaultView::String(Seq::empty()),
                HintView::ImageAssetUpload,
                |parameters: Seq<NodeParameter>| true,
            ),
            param(
                "fit_mode"@,
                DefaultView::String("contain"@),
                HintView::EnumSelect(image_fit_modes_view()),
                |parameters: Seq<NodeParameter>| true,
            ),
        ],
        connection: NodeConnectionDefinition {
            max_input_connections: 1,
            require_value_kind_match: true,
        },
        runtime_values: None,
    }
}

fn image_source_node() -> (node: BuiltinNode)
    ensures
        node.shape() == image_source_shape(),
{
    let node = BuiltinNode {
        schema: NodeDefinition {
            id: NodeTypeId::IMAGE_SOURCE.to_owned(),
            display_name: "Image Source".to_owned(),
            category: NodeCategory::Inputs,
            needs_io: true,
            inputs: vec![],
            outputs: vec![output("frame", ValueKind::ColorFrame, vec![])],
            parameters: vec![
                NodeParameterDefinition::new(
                    "asset_id",
                    title_case_name("asset_id"),
                    ParameterDefaultValue::String(String::new()),
                    ParameterUiHint::ImageAssetUpload,
                ),
                NodeParameterDefinition::new(
                    "fit_mode",
                    title_case_name("fit_mode"),
                    ParameterDefaultValue::String("contain".to_owned()),
                    ParameterUiHint::EnumSelect { options: image_fit_modes() },
                ),
            ],
            connection: NodeConnectionDefinition {
                max_input_connections: 1,
                require_value_kind_match: true,
            },
            runtime_updates: None,
        },
        rule: InferenceRule::Declared,
    };
    assert(node.shape() =~~= image_source_shape());
    node
}

/// The shape of the `display` node.
pub open spec fn display_shape() -> NodeShape {
    NodeShape {
        id: NodeTypeId::DISPLAY@,
        display_name: "Display"@,
        category: NodeCategory::Outputs,
        needs_io: false,
        rule: InferenceRule::Display,
        inputs: seq![
            in_port(
                "value"@,
                ValueKind::Float,
                seq![
                    ValueKind::FloatTensor,
                    ValueKind::Color,
                    ValueKind::ColorFrame,
                    ValueKind::LedLayout,
                ],
                Some(ValueKind::Float),
            ),
        ],
        outputs: seq![],
        parameters: seq![],
        connection: NodeConnectionDefinition {
            max_input_connections: 1,
            require_value_kind_match: true,
        },
        runtime_values: Some(
            (
                true,
                seq![
                    port(
                        "value"@,
                        ValueKind::Float,
                        seq![
                            ValueKind::FloatTensor,
                            ValueKind::Color,
                            ValueKind::ColorFrame,
                            ValueKind::LedLayout,
                        ],
                    ),
                ],
            ),
        ),
    }
}

fn display_node() -> (node: BuiltinNode)
    ensures
        node.shape() == display_shape(),
{
    let node = BuiltinNode {
        schema: NodeDefinition {
            id: NodeTypeId::DISPLAY.to_owned(),
            display_name: "Display".to_owned(),
            category: NodeCategory::Outputs,
            needs_io: false,
            inputs: vec![
                input(
                    "value",
                    ValueKind::Float,
                    vec![
                        ValueKind::FloatTensor,
                        ValueKind::Color,
                        ValueKind::ColorFrame,
                        ValueKind::LedLayout,
                    ],
                    Some(InputValue::Float(Decimal::new(0, 0))),
                ),
            ],
            outputs: vec![],
            parameters: vec![],
            connection: NodeConnectionDefinition {
                max_input_connections: 1,
                require_value_kind_match: true,
            },
            runtime_updates: Some(
                NodeRuntimeUpdateDefinition {
                    auto_subscribe_in_editor: true,
                    values: vec![
                        runtime_value(
                            "value",
                            ValueKind::Float,
                            vec![
                                ValueKind::FloatTensor,
                                ValueKind::Color,
                                ValueKind::ColorFrame,
                                ValueKind::LedLayout,
                            ],
                        ),
                    ],
                },
            ),
        },
        rule: InferenceRule::Display,
    };
    assert(node.shape() =~~= display_shape());
    node
}

/// The shape of the `plot` node.
pub open spec fn plot_shape() -> NodeShape {
    NodeShape {
        id: NodeTypeId::PLOT@,
        display_name: "Plot"@,
        category: NodeCategory::Outputs,
        needs_io: false,
        rule: InferenceRule::Declared,
        inputs: seq![
            in_port("value"@, ValueKind::Float, seq![], Some(ValueKind::Float)),
        ],
        outputs: seq![],
        parameters: seq![],
        connection: NodeConnectionDefinition {
            max_input_connections: 1,
            require_value_kind_match: true,
        },
        runtime_values: Some(
            (
                true,
                seq![port("value"@, ValueKind::Float, seq![])],
            ),
        ),
    }
}

fn plot_node() -> (node: BuiltinNode)
    ensures
        node.shape() == plot_shape(),
{
    let node = BuiltinNode {
        schema: NodeDefinition {
            id: NodeTypeId::PLOT.to_owned(),
            display_name: "Plot".to_owned(),
            category: NodeCategory::Outputs,
            needs_io: false,
            inputs: vec![
                input(
                    "value",
                    ValueKind::Float,
                    vec![],
                    Some(InputValue::Float(Decimal::new(0, 0))),
                ),
            ],
            outputs: vec![],
            parameters: vec![],
            connection: NodeConnectionDefinition {
                max_input_connections: 1,
                require_value_kind_match: true,
            },
            runtime_updates: Some(
                NodeRuntimeUpdateDefinition {
                    auto_subscribe_in_editor: true,
                    values: vec![runtime_value("value", ValueKind::Float, vec![])],
                },
            ),
        },
        rule: InferenceRule::Declared,
    };
    assert(node.shape() =~~= plot_shape());
    node
}

/// The shape of the `delay` node.
pub open spec fn delay_shape() -> NodeShape {
    NodeShape {
        id: NodeTypeId::DELAY@,
        display_name: "Delay"@,
        category: NodeCategory::TemporalFilters,
        needs_io: false,
        rule: InferenceRule::Delay,
        inputs: seq![
            in_port("value"@, ValueKind::Any, seq![], Some(ValueKind::Float)),
        ],
        outputs: seq![
            port("value"@, ValueKind::Any, seq![]),
        ],
        parameters: seq![
            param(
                "ticks"@,
                DefaultView::Integer(1),
                HintView::IntegerDrag { speed: decimal(1, 0), min: 1, max: 10000 },
                |parameters: Seq<NodeParameter>| true,
            ),
            param(
                "initial_type"@,
                DefaultView::String("float"@),
                HintView::EnumSelect(delay_initial_type_options_view()),
                |parameters: Seq<NodeParameter>| true,
            ),
        ],
        connection: NodeConnectionDefinition {
            max_input_connections: 1,
            require_value_kind_match: true,
        },
        runtime_values: None,
    }
}

fn delay_node() -> (node: BuiltinNode)
    ensures
        node.shape() == delay_shape(),
{
    let node = BuiltinNode {
        schema: NodeDefinition {
            id: NodeTypeId::DELAY.to_owned(),
            display_name: "Delay".to_owned(),
            category: NodeCategory::TemporalFilters,
            needs_io: false,
            inputs: vec![
                input(
                    "value",
                    ValueKind::Any,
                    vec![],
                    Some(InputValue::Float(Decimal::new(0, 0))),
                ),
            ],
            outputs: vec![output("value", ValueKind::Any, vec![])],
            parameters: vec![
                NodeParameterDefinition::new(
                    "ticks",
                    title_case_name("ticks"),
                    ParameterDefaultValue::Integer(1),
                    ParameterUiHint::IntegerDrag {
                        speed: Decimal::new(1, 0),
                        min: 1,
                        max: 10_000,
                    },
                ),
                NodeParameterDefinition::new(
                    "initial_type",
                    title_case_name("initial_type"),
                    ParameterDefaultValue::String("float".to_owned()),
                    ParameterUiHint::EnumSelect { options: delay_initial_type_options() },
                ),
            ],
            connection: NodeConnectionDefinition {
                max_input_connections: 1,
                require_value_kind_match: true,
            },
            runtime_updates: None,
        },
        rule: InferenceRule::Delay,
    };
    assert(node.shape() =~~= delay_shape());
    node
}

/// The shape of the `differentiate` node.
pub open spec fn differentiate_shape() -> NodeShape {
    NodeShape {
        id: NodeTypeId::DIFFERENTIATE@,
        display_name: "Differentiate"@,
        category: NodeCategory::TemporalFilters,
        needs_io: false,
        rule: InferenceRule::Declared,
        inputs: seq![
            in_port("value"@, ValueKind::Float, seq![], Some(ValueKind::Float)),
        ],
        outputs: seq![
            port("value"@, ValueKind::Float, seq![]),
        ],
        parameters: seq![],
        connection: NodeConnectionDefinition {
            max_input_connections: 1,
            require_value_kind_match: true,
        },
        runtime_values: None,
    }
}

fn differentiate_node() -> (node: BuiltinNode)
    ensures
        node.shape() == differentiate_shape(),
{
    let node = BuiltinNode {
        schema: NodeDefinition {
            id: NodeTypeId::DIFFERENTIATE.to_owned(),
            display_name: "Differentiate".to_owned(),
            category: NodeCategory::TemporalFilters,
            needs_io: false,
            inputs: vec![
                input(
                    "value",
                    ValueKind::Float,
                    vec![],
                    Some(InputValue::Float(Decimal::new(0, 0))),
                ),
            ],
            outputs: vec![output("value", ValueKind::Float, vec![])],
            parameters: vec![],
            connection: NodeConnectionDefinition {
                max_input_connections: 1,
                require_value_kind_match: true,
            },
            runtime_updates: None,
        },
        rule: InferenceRule::Declared,
    };
    assert(node.shape() =~~= differentiate_shape());
    node
}

/// The shape of the `wled_target` node.
pub open spec fn wled_target_shape() -> NodeShape {
    NodeShape {
        id: NodeTypeId::WLED_TARGET@,
        display_name: "Wled Target"@,
        category: NodeCategory::Outputs,
        needs_io: true,
        rule: InferenceRule::Declared,
        inputs: seq![
            in_port("value"@, ValueKind::ColorFrame, seq![ValueKind::Color], None),
            in_port("disable"@, ValueKind::Float, seq![], Some(ValueKind::Float)),
        ],
        outputs: seq![],
        parameters: seq![
            param(
                "target"@,
                DefaultView::String(""@),
                HintView::WledInstanceOrHost,
                |parameters: Seq<NodeParameter>| true,
            ),
            param(
                "led_count"@,
                DefaultView::Integer(60),
                HintView::IntegerDrag { speed: decimal(1, 0), min: 1, max: 8192 },
                |parameters: Seq<NodeParameter>| true,
            ),
        ],
        connection: NodeConnectionDefinition {
            max_input_connections: 1,
            require_value_kind_match: true,
        },
        runtime_values: None,
    }
}

fn wled_target_node() -> (node: BuiltinNode)
    ensures
        node.shape() == wled_target_shape(),
{
    let node = BuiltinNode {
        schema: NodeDefinition {
            id: NodeTypeId::WLED_TARGET.to_owned(),
            display_name: "Wled Target".to_owned(),
            category: NodeCategory::Outputs,
            needs_io: true,
            inputs: vec![
                input("value", ValueKind::ColorFrame, vec![ValueKind::Color], None),
                input(
                    "disable",
                    ValueKind::Float,
                    vec![],
                    Some(InputValue::Float(Decimal::new(0, 0))),
                ),
            ],
            outputs: vec![],
            parameters: vec![
                NodeParameterDefinition::new(
                    "target",
                    title_case_name("target"),
                    ParameterDefaultValue::String("".to_owned()),
                    ParameterUiHint::WledInstanceOrHost,
                ),
                NodeParameterDefinition::new(
                    "led_count",
                    title_case_name("led_count"),
                    ParameterDefaultValue::Integer(60),
                    ParameterUiHint::IntegerDrag {
                        speed: Decimal::new(1, 0),
                        min: 1,
                        max: 8192,
                    },
                ),
            ],
            connection: NodeConnectionDefinition {
                max_input_connections: 1,
                require_value_kind_match: true,
            },
            runtime_updates: None,
        },
        rule: InferenceRule::Declared,
    };
    assert(node.shape() =~~= wled_target_shape());
    node
}

/// The shape of the `wled_sink` node.
pub open spec fn wled_sink_shape() -> NodeShape {
    NodeShape {
        id: NodeTypeId::WLED_SINK@,
        display_name: "Wled Sink"@,
        category: NodeCategory::Inputs,
        needs_io: true,
        rule: InferenceRule::Declared,
        inputs: seq![],
        outputs: seq![
            port("frame"@, ValueKind::ColorFrame, seq![]),
        ],
        parameters: seq![
            param(
                "protocol"@,
                DefaultView::String("ddp"@),
                HintView::EnumSelect(wled_sink_protocol_options_view()),
                |parameters: Seq<NodeParameter>| true,
            ),
            param(
                "port"@,
                DefaultView::Integer(4048),
                HintView::IntegerDrag { speed: decimal(1, 0), min: 1, max: 65535 },
                |parameters: Seq<NodeParameter>| true,
            ),
        ],
        connection: NodeConnectionDefinition {
            max_input_connections: 1,
            require_value_kind_match: true,
        },
        runtime_values: None,
    }
}

fn wled_sink_node() -> (node: BuiltinNode)
    ensures
        node.shape() == wled_sink_shape(),
{
    let node = BuiltinNode {
        schema: NodeDefinition {
            id: NodeTypeId::WLED_SINK.to_owned(),
            display_name: "Wled Sink".to_owned(),
            category: NodeCategory::Inputs,
            needs_io: true,
            inputs: vec![],
            outputs: vec![output("frame", ValueKind::ColorFrame, vec![])],
            parameters: vec![
                NodeParameterDefinition::new(
                    "protocol",
                    title_case_name("protocol"),
                    ParameterDefaultValue::String("ddp".to_owned()),
                    ParameterUiHint::EnumSelect { options: wled_sink_protocol_options() },
                ),
                NodeParameterDefinition::new(
                    "port",
                    title_case_name("port"),
                    ParameterDefaultValue::Integer(4048),
                    ParameterUiHint::IntegerDrag {
                        speed: Decimal::new(1, 0),
                        min: 1,
                        max: 65535,
                    },
                ),
            ],
            connection: NodeConnectionDefinition {
                max_input_connections: 1,
                require_value_kind_match: true,
            },
            runtime_updates: None,
        },
        rule: InferenceRule::Declared,
    };
    assert(node.shape() =~~= wled_sink_shape());
    node
}

/// The shape of the `audio_fft_receiver` node.
pub open spec fn audio_fft_receiver_shape() -> NodeShape {
    NodeShape {
        id: NodeTypeId::AUDIO_FFT_RECEIVER@,
        display_name: "Audio FFT Receiver"@,
        category: NodeCategory::Inputs,
        needs_io: true,
        rule: InferenceRule::Declared,
        inputs: seq![],
        outputs: seq![
            port("spectrum"@, ValueKind::FloatTensor, seq![]),
            port("spectral_peak"@, ValueKind::Float, seq![]),
            port("overall_loudness"@, ValueKind::Float, seq![]),
        ],
        parameters: seq![
            param(
                "receive_mode"@,
                DefaultView::String("udp_multicast"@),
                HintView::EnumSelect(audio_fft_receive_modes_view()),
                |parameters: Seq<NodeParameter>| true,
            ),
            param(
                "port"@,
                DefaultView::Integer(11988),
                HintView::IntegerDrag { speed: decimal(1, 0), min: 1, max: 65535 },
                |parameters: Seq<NodeParameter>| true,
            ),
            param(
                "multicast_group"@,
                DefaultView::String("239.0.0.1"@),
                HintView::TextSingleLine,
                |parameters: Seq<NodeParameter>| (parameter_holds_text(parameters, "receive_mode"@, "udp_multicast"@) || parameter_holds_text(parameters, "receive_mode"@, "wled_sound_sync"@)),
            ),
            param(
                "bind_host"@,
                DefaultView::String("0.0.0.0"@),
                HintView::TextSingleLine,
                |parameters: Seq<NodeParameter>| parameter_holds_text(parameters, "receive_mode"@, "udp_unicast"@),
            ),
        ],
        connection: NodeConnectionDefinition {
            max_input_connections: 1,
            require_value_kind_match: true,
        },
        runtime_values: None,
    }
}

fn audio_fft_receiver_node() -> (node: BuiltinNode)
    ensures
        node.shape() == audio_fft_receiver_shape(),
{
    let node = BuiltinNode {
        schema: NodeDefinition {
            id: NodeTypeId::AUDIO_FFT_RECEIVER.to_owned(),
            display_name: "Audio FFT Receiver".to_owned(),
            category: NodeCategory::Inputs,
            needs_io: true,
            inputs: vec![],
            outputs: vec![
                output("spectrum", ValueKind::FloatTensor, vec![]),
                output("spectral_peak", ValueKind::Float, vec![]),
                output("overall_loudness", ValueKind::Float, vec![]),
            ],
            parameters: vec![
                NodeParameterDefinition::new(
                    "receive_mode",
                    title_case_name("receive_mode"),
                    ParameterDefaultValue::String("udp_multicast".to_owned()),
                    ParameterUiHint::EnumSelect { options: audio_fft_receive_modes() },
                ),
                NodeParameterDefinition::new(
                    "port",
                    title_case_name("port"),
                    ParameterDefaultValue::Integer(11988),
                    ParameterUiHint::IntegerDrag {
                        speed: Decimal::new(1, 0),
                        min: 1,
                        max: 65535,
                    },
                ),
                NodeParameterDefinition::new(
                    "multicast_group",
                    title_case_name("multicast_group"),
                    ParameterDefaultValue::String("239.0.0.1".to_owned()),
                    ParameterUiHint::TextSingleLine,
                )
                    .visible_when(ParameterVisibilityCondition::Any {
                        conditions: vec![
                            ParameterVisibilityCondition::Equals {
                                parameter: "receive_mode".to_owned(),
                                value: JsonValue::from_text("udp_multicast"),
                            },
                            ParameterVisibilityCondition::Equals {
                                parameter: "receive_mode".to_owned(),
                                value: JsonValue::from_text("wled_sound_sync"),
                            },
                        ],
                    }),
                NodeParameterDefinition::new(
                    "bind_host",
                    title_case_name("bind_host"),
                    ParameterDefaultValue::String("0.0.0.0".to_owned()),
                    ParameterUiHint::TextSingleLine,
                )
                    .visible_when(ParameterVisibilityCondition::Equals {
                        parameter: "receive_mode".to_owned(),
                        value: JsonValue::from_text("udp_unicast"),
                    }),
            ],
            connection: NodeConnectionDefinition {
                max_input_connections: 1,
                require_value_kind_match: true,
            },
            runtime_updates: None,
        },
        rule: InferenceRule::Declared,
    };
    proof {
        assert forall|parameters: Seq<NodeParameter>|
            #[trigger] condition_holds(node.schema.parameters@[2].visible_when->0, parameters)
                == (parameter_holds_text(parameters, "receive_mode"@, "udp_multicast"@) || parameter_holds_text(parameters, "receive_mode"@, "wled_sound_sync"@)) by {
            lemma_any_of_two(node.schema.parameters@[2].visible_when->0, parameters);
            lemma_text_condition(node.schema.parameters@[2].visible_when->0->Any_conditions@[0], "udp_multicast"@, parameters);
            lemma_text_condition(node.schema.parameters@[2].visible_when->0->Any_conditions@[1], "wled_sound_sync"@, parameters);
        }
        assert forall|parameters: Seq<NodeParameter>|
            #[trigger] condition_holds(node.schema.parameters@[3].visible_when->0, parameters)
                == parameter_holds_text(parameters, "receive_mode"@, "udp_unicast"@) by {
            lemma_text_condition(node.schema.parameters@[3].visible_when->0, "udp_unicast"@, parameters);
        }
    }
    assert(node.shape() =~~= audio_fft_receiver_shape());
    node
}

/// The shape of the `ha_mqtt_number` node.
pub open spec fn ha_mqtt_number_shape() -> NodeShape {
    NodeShape {
        id: NodeTypeId::HA_MQTT_NUMBER@,
        display_name: "Home Assistant MQTT Number"@,
        category: NodeCategory::Inputs,
        needs_io: true,
        rule: InferenceRule::Declared,
        inputs: seq![],
        outputs: seq![
            port("value"@, ValueKind::Float, seq![]),
        ],
        parameters: seq![
            param(
                "broker_id"@,
                DefaultView::String(Seq::empty()),
                HintView::MqttBrokerSelect,
                |parameters: Seq<NodeParameter>| true,
            ),
            param(
                "entity_id"@,
                DefaultView::String("luma_weaver_number"@),
                HintView::TextSingleLine,
                |parameters: Seq<NodeParameter>| true,
            ),
            param(
                "display_name"@,
                DefaultView::String("Luma Weaver Number"@),
                HintView::TextSingleLine,
                |parameters: Seq<NodeParameter>| true,
            ),
            param(
                "default_value"@,
                DefaultView::Float(decimal(0, 0)),
                HintView::DragFloat {
                    speed: decimal(1, -2i32),
                    min: negative_decimal(1, 4),
                    max: decimal(1, 4),
                },
                |parameters: Seq<NodeParameter>| true,
            ),
            param(
                "min"@,
                DefaultView::Float(decimal(0, 0)),
                HintView::DragFloat {
                    speed: decimal(1, -2i32),
                    min: negative_decimal(1, 4),
                    max: decimal(1, 4),
                },
                |parameters: Seq<NodeParameter>| true,
            ),
            param(
                "max"@,
                DefaultView::Float(decimal(1, 2)),
                HintView::DragFloat {
                    speed: decimal(1, -2i32),
                    min: negative_decimal(1, 4),
                    max: decimal(1, 4),
                },
                |parameters: Seq<NodeParameter>| true,
            ),
            param(
                "step"@,
                DefaultView::Float(decimal(1, 0)),
                HintView::DragFloat {
                    speed: decimal(1, -2i32),
                    min: decimal(1, -4i32),
                    max: decimal(1, 4),
                },
                |parameters: Seq<NodeParameter>| true,
            ),
            param(
                "retain"@,
                DefaultView::Bool(true),
                HintView::Checkbox,
                |parameters: Seq<NodeParameter>| true,
            ),
        ],
        connection: NodeConnectionDefinition {
            max_input_connections: 1,
            require_value_kind_match: true,
        },
        runtime_values: None,
    }
}

fn ha_mqtt_number_node() -> (node: BuiltinNode)
    ensures
        node.shape() == ha_mqtt_number_shape(),
{
    let node = BuiltinNode {
        schema: NodeDefinition {
            id: NodeTypeId::HA_MQTT_NUMBER.to_owned(),
            display_name: "Home Assistant MQTT Number".to_owned(),
            category: NodeCategory::Inputs,
            needs_io: true,
            inputs: vec![],
            outputs: vec![output("value", ValueKind::Float, vec![])],
            parameters: vec![
                NodeParameterDefinition::new(
                    "broker_id",
                    title_case_name("broker_id"),
                    ParameterDefaultValue::String(String::new()),
                    ParameterUiHint::MqttBrokerSelect,
                ),
                NodeParameterDefinition::new(
                    "entity_id",
                    title_case_name("entity_id"),
                    ParameterDefaultValue::String("luma_weaver_number".to_owned()),
                    ParameterUiHint::TextSingleLine,
                ),
                NodeParameterDefinition::new(
                    "display_name",
                    title_case_name("display_name"),
                    ParameterDefaultValue::String("Luma Weaver Number".to_owned()),
                    ParameterUiHint::TextSingleLine,
                ),
                NodeParameterDefinition::new(
                    "default_value",
                    title_case_name("default_value"),
                    ParameterDefaultValue::Float(Decimal::new(0, 0)),
                    ParameterUiHint::DragFloat {
                        speed: Decimal::new(1, -2),
                        min: Decimal::negative(1, 4),
                        max: Decimal::new(1, 4),
                    },
                ),
                NodeParameterDefinition::new(
                    "min",
                    title_case_name("min"),
                    ParameterDefaultValue::Float(Decimal::new(0, 0)),
                    ParameterUiHint::DragFloat {
                        speed: Decimal::new(1, -2),
                        min: Decimal::negative(1, 4),
                        max: Decimal::new(1, 4),
                    },
                ),
                NodeParameterDefinition::new(
                    "max",
                    title_case_name("max"),
                    ParameterDefaultValue::Float(Decimal::new(1, 2)),
                    ParameterUiHint::DragFloat {
                        speed: Decimal::new(1, -2),
                        min: Decimal::negative(1, 4),
                        max: Decimal::new(1, 4),
                    },
                ),
                NodeParameterDefinition::new(
                    "step",
                    title_case_name("step"),
                    ParameterDefaultValue::Float(Decimal::new(1, 0)),
                    ParameterUiHint::DragFloat {
                        speed: Decimal::new(1, -2),
                        min: Decimal::new(1, -4),
                        max: Decimal::new(1, 4),
                    },
                ),
                NodeParameterDefinition::new(
                    "retain",
                    title_case_name("retain"),
                    ParameterDefaultValue::Bool(true),
                    ParameterUiHint::Checkbox,
                ),
            ],
            connection: NodeConnectionDefinition {
                max_input_connections: 1,
                require_value_kind_match: true,
            },
            runtime_updates: None,
        },
        rule: InferenceRule::Declared,
    };
    assert(node.shape() =~~= ha_mqtt_number_shape());
    node
}

/// The shape of the `binary_select` node.
pub open spec fn binary_select_shape() -> NodeShape {
    NodeShape {
        id: NodeTypeId::BINARY_SELECT@,
        display_name: "Binary Select"@,
        category: NodeCategory::Math,
        needs_io: false,
        rule: InferenceRule::BinarySelect,
        inputs: seq![
            in_port("selector"@, ValueKind::Float, seq![], Some(ValueKind::Float)),
            in_port("a"@, ValueKind::Any, seq![], Some(ValueKind::Float)),
            in_port("b"@, ValueKind::Any, seq![], Some(ValueKind::Float)),
        ],
        outputs: seq![
            port("value"@, ValueKind::Any, seq![]),
        ],
        parameters: seq![],
        connection: NodeConnectionDefinition {
            max_input_connections: 1,
            require_value_kind_match: true,
        },
        runtime_values: None,
    }
}

fn binary_select_node() -> (node: BuiltinNode)
    ensures
        node.shape() == binary_select_shape(),
{
    let node = BuiltinNode {
        schema: NodeDefinition {
            id: NodeTypeId::BINARY_SELECT.to_owned(),
            display_name: "Binary Select".to_owned(),
            category: NodeCategory::Math,
            needs_io: false,
            inputs: vec![
                input(
                    "selector",
                    ValueKind::Float,
                    vec![],
                    Some(InputValue::Float(Decimal::new(0, 0))),
                ),
                input("a", ValueKind::Any, vec![], Some(InputValue::Float(Decimal::new(0, 0)))),
                input("b", ValueKind::Any, vec![], Some(InputValue::Float(Decimal::new(0, 0)))),
            ],
            outputs: vec![output("value", ValueKind::Any, vec![])],
            parameters: vec![],
            connection: NodeConnectionDefinition {
                max_input_connections: 1,
                require_value_kind_match: true,
            },
            runtime_updates: None,
        },
        rule: InferenceRule::BinarySelect,
    };
    assert(node.shape() =~~= binary_select_shape());
    node
}

/// The shape of the `add` node.
pub open spec fn add_shape() -> NodeShape {
    NodeShape {
        id: NodeTypeId::ADD@,
        display_name: "Add"@,
        category: NodeCategory::Math,
        needs_io: false,
        rule: InferenceRule::Numeric,
        inputs: seq![
            in_port(
                "a"@,
                ValueKind::Any,
                seq![ValueKind::Float, ValueKind::FloatTensor, ValueKind::ColorFrame],
                Some(ValueKind::Float),
            ),
            in_port(
                "b"@,
                ValueKind::Any,
                seq![ValueKind::Float, ValueKind::FloatTensor, ValueKind::ColorFrame],
                Some(ValueKind::Float),
            ),
        ],
        outputs: seq![
            port(
                "sum"@,
                ValueKind::Any,
                seq![ValueKind::Float, ValueKind::FloatTensor, ValueKind::ColorFrame],
            ),
        ],
        parameters: seq![],
        connection: NodeConnectionDefinition {
            max_input_connections: 1,
            require_value_kind_match: true,
        },
        runtime_values: None,
    }
}

fn add_node() -> (node: BuiltinNode)
    ensures
        node.shape() == add_shape(),
{
    let node = BuiltinNode {
        schema: NodeDefinition {
            id: NodeTypeId::ADD.to_owned(),
            display_name: "Add".to_owned(),
            category: NodeCategory::Math,
            needs_io: false,
            inputs: vec![
                input(
                    "a",
                    ValueKind::Any,
                    vec![ValueKind::Float, ValueKind::FloatTensor, ValueKind::ColorFrame],
                    Some(InputValue::Float(Decimal::new(0, 0))),
                ),
                input(
                    "b",
                    ValueKind::Any,
                    vec![ValueKind::Float, ValueKind::FloatTensor, ValueKind::ColorFrame],
                    Some(InputValue::Float(Decimal::new(0, 0))),
                ),
            ],
            outputs: vec![
                output(
                    "sum",
                    ValueKind::Any,
                    vec![ValueKind::Float, ValueKind::FloatTensor, ValueKind::ColorFrame],
                ),
            ],
            parameters: vec![],
            connection: NodeConnectionDefinition {
                max_input_connections: 1,
                require_value_kind_match: true,
            },
            runtime_updates: None,
        },
        rule: InferenceRule::Numeric,
    };
    assert(node.shape() =~~= add_shape());
    node
}

/// The shape of the `subtract` node.
pub open spec fn subtract_shape() -> NodeShape {
    NodeShape {
        id: NodeTypeId::SUBTRACT@,
        display_name: "Subtract"@,
        category: NodeCategory::Math,
        needs_io: false,
        rule: InferenceRule::Numeric,
        inputs: seq![
            in_port(
                "a"@,
                ValueKind::Any,
                seq![ValueKind::Float, ValueKind::FloatTensor, ValueKind::ColorFrame],
                Some(ValueKind::Float),
            ),
            in_port(
                "b"@,
                ValueKind::Any,
                seq![ValueKind::Float, ValueKind::FloatTensor, ValueKind::ColorFrame],
                Some(ValueKind::Float),
            ),
        ],
        outputs: seq![
            port(
                "difference"@,
                ValueKind::Any,
                seq![ValueKind::Float, ValueKind::FloatTensor, ValueKind::ColorFrame],
            ),
        ],
        parameters: seq![],
        connection: NodeConnectionDefinition {
            max_input_connections: 1,
            require_value_kind_match: true,
        },
        runtime_values: None,
    }
}

fn subtract_node() -> (node: BuiltinNode)
    ensures
        node.shape() == subtract_shape(),
{
    let node = BuiltinNode {
        schema: NodeDefinition {
            id: NodeTypeId::SUBTRACT.to_owned(),
            display_name: "Subtract".to_owned(),
            category: NodeCategory::Math,
            needs_io: false,
            inputs: vec![
                input(
                    "a",
                    ValueKind::Any,
                    vec![ValueKind::Float, ValueKind::FloatTensor, ValueKind::ColorFrame],
                    Some(InputValue::Float(Decimal::new(0, 0))),
                ),
                input(
                    "b",
                    ValueKind::Any,
                    vec![ValueKind::Float, ValueKind::FloatTensor, ValueKind::ColorFrame],
                    Some(InputValue::Float(Decimal::new(0, 0))),
                ),
            ],
            outputs: vec![
                output(
                    "difference",
                    ValueKind::Any,
                    vec![ValueKind::Float, ValueKind::FloatTensor, ValueKind::ColorFrame],
                ),
            ],
            parameters: vec![],
            connection: NodeConnectionDefinition {
                max_input_connections: 1,
                require_value_kind_match: true,
            },
            runtime_updates: None,
        },
        rule: InferenceRule::Numeric,
    };
    assert(node.shape() =~~= subtract_shape());
    node
}

/// The shape of the `signal_generator` node.
pub open spec fn signal_generator_shape() -> NodeShape {
    NodeShape {
        id: NodeTypeId::SIGNAL_GENERATOR@,
        display_name: "Signal Generator"@,
        category: NodeCategory::Inputs,
        needs_io: false,
        rule: InferenceRule::Declared,
        inputs: seq![],
        outputs: seq![
            port("value"@, ValueKind::Float, seq![]),
        ],
        parameters: seq![
            param(
                "waveform"@,
                DefaultView::String("sinus"@),
                HintView::EnumSelect(signal_generator_waveforms_view()),
                |parameters: Seq<NodeParameter>| true,
            ),
            param(
                "frequency"@,
                DefaultView::Float(decimal(1, 0)),
                HintView::DragFloat {
                    speed: decimal(1, -2i32),
                    min: negative_decimal(1, 4),
                    max: decimal(1, 4),
                },
                |parameters: Seq<NodeParameter>| true,
            ),
            param(
                "amplitude"@,
                DefaultView::Float(decimal(1, 0)),
                HintView::DragFloat {
                    speed: decimal(1, -2i32),
                    min: negative_decimal(1, 4),
                    max: decimal(1, 4),
                },
                |parameters: Seq<NodeParameter>| true,
            ),
            param(
                "phase"@,
                DefaultView::Float(decimal(0, 0)),
                HintView::DragFloat {
                    speed: decimal(1, -2i32),
                    min: negative_decimal(1, 4),
                    max: decimal(1, 4),
                },
                |parameters: Seq<NodeParameter>| true,
            ),
        ],
        connection: NodeConnectionDefinition {
            max_input_connections: 1,
            require_value_kind_match: true,
        },
        runtime_values: None,
    }
}

fn signal_generator_node() -> (node: BuiltinNode)
    ensures
        node.shape() == signal_generator_shape(),
{
    let node = BuiltinNode {
        schema: NodeDefinition {
            id: NodeTypeId::SIGNAL_GENERATOR.to_owned(),
            display_name: "Signal Generator".to_owned(),
            category: NodeCategory::Inputs,
            needs_io: false,
            inputs: vec![],
            outputs: vec![output("value", ValueKind::Float, vec![])],
            parameters: vec![
                NodeParameterDefinition::new(
                    "waveform",
                    title_case_name("waveform"),
                    ParameterDefaultValue::String("sinus".to_owned()),
                    ParameterUiHint::EnumSelect { options: signal_generator_waveforms() },
                ),
                NodeParameterDefinition::new(
                    "frequency",
                    title_case_name("frequency"),
                    ParameterDefaultValue::Float(Decimal::new(1, 0)),
                    ParameterUiHint::DragFloat {
                        speed: Decimal::new(1, -2),
                        min: Decimal::negative(1, 4),
                        max: Decimal::new(1, 4),
                    },
                ),
                NodeParameterDefinition::new(
                    "amplitude",
                    title_case_name("amplitude"),
                    ParameterDefaultValue::Float(Decimal::new(1, 0)),
                    ParameterUiHint::DragFloat {
                        speed: Decimal::new(1, -2),
                        min: Decimal::negative(1, 4),
                        max: Decimal::new(1, 4),
                    },
                ),
                NodeParameterDefinition::new(
                    "phase",
                    title_case_name("phase"),
                    ParameterDefaultValue::Float(Decimal::new(0, 0)),
                    ParameterUiHint::DragFloat {
                        speed: Decimal::new(1, -2),
                        min: Decimal::negative(1, 4),
                        max: Decimal::new(1, 4),
                    },
                ),
            ],
            connection: NodeConnectionDefinition {
                max_input_connections: 1,
                require_value_kind_match: true,
            },
            runtime_updates: None,
        },
        rule: InferenceRule::Declared,
    };
    assert(node.shape() =~~= signal_generator_shape());
    node
}

/// The shape of the `divide` node.
pub open spec fn divide_float_shape() -> NodeShape {
    NodeShape {
        id: NodeTypeId::DIVIDE@,
        display_name: "Divide"@,
        category: NodeCategory::Math,
        needs_io: false,
        rule: InferenceRule::Numeric,
        inputs: seq![
            in_port(
                "a"@,
                ValueKind::Float,
                seq![ValueKind::FloatTensor],
                Some(ValueKind::Float),
            ),
            in_port(
                "b"@,
                ValueKind::Float,
                seq![ValueKind::FloatTensor],
                Some(ValueKind::Float),
            ),
        ],
        outputs: seq![
            port("quotient"@, ValueKind::Float, seq![ValueKind::FloatTensor]),
        ],
        parameters: seq![],
        connection: NodeConnectionDefinition {
            max_input_connections: 1,
            require_value_kind_match: true,
        },
        runtime_values: None,
    }
}

fn divide_float_node() -> (node: BuiltinNode)
    ensures
        node.shape() == divide_float_shape(),
{
    let node = BuiltinNode {
        schema: NodeDefinition {
            id: NodeTypeId::DIVIDE.to_owned(),
            display_name: "Divide".to_owned(),
            category: NodeCategory::Math,
            needs_io: false,
            inputs: vec![
                input(
                    "a",
                    ValueKind::Float,
                    vec![ValueKind::FloatTensor],
                    Some(InputValue::Float(Decimal::new(0, 0))),
                ),
                input(
                    "b",
                    ValueKind::Float,
                    vec![ValueKind::FloatTensor],
                    Some(InputValue::Float(Decimal::new(1, 0))),
                ),
            ],
            outputs: vec![output("quotient", ValueKind::Float, vec![ValueKind::FloatTensor])],
            parameters: vec![],
            connection: NodeConnectionDefinition {
                max_input_connections: 1,
                require_value_kind_match: true,
            },
            runtime_updates: None,
        },
        rule: InferenceRule::Numeric,
    };
    assert(node.shape() =~~= divide_float_shape());
    node
}

/// The shape of the `min_max` node.
pub open spec fn min_max_float_shape() -> NodeShape {
    NodeShape {
        id: NodeTypeId::MIN_MAX@,
        display_name: "Min/Max"@,
        category: NodeCategory::Math,
        needs_io: false,
        rule: InferenceRule::Numeric,
        inputs: seq![
            in_port(
                "a"@,
                ValueKind::Float,
                seq![ValueKind::FloatTensor],
                Some(ValueKind::Float),
            ),
            in_port(
                "b"@,
                ValueKind::Float,
                seq![ValueKind::FloatTensor],
                Some(ValueKind::Float),
            ),
        ],
        outputs: seq![
            port("value"@, ValueKind::Float, seq![ValueKind::FloatTensor]),
        ],
        parameters: seq![
            param(
                "mode"@,
                DefaultView::String("min"@),
                HintView::EnumSelect(min_max_float_modes_view()),
                |parameters: Seq<NodeParameter>| true,
            ),
        ],
        connection: NodeConnectionDefinition {
            max_input_connections: 1,
            require_value_kind_match: true,
        },
        runtime_values: None,
    }
}

fn min_max_float_node() -> (node: BuiltinNode)
    ensures
        node.shape() == min_max_float_shape(),
{
    let node = BuiltinNode {
        schema: NodeDefinition {
            id: NodeTypeId::MIN_MAX.to_owned(),
            display_name: "Min/Max".to_owned(),
            category: NodeCategory::Math,
            needs_io: false,
            inputs: vec![
                input(
                    "a",
                    ValueKind::Float,
                    vec![ValueKind::FloatTensor],
                    Some(InputValue::Float(Decimal::new(0, 0))),
                ),
                input(
                    "b",
                    ValueKind::Float,
                    vec![ValueKind::FloatTensor],
                    Some(InputValue::Float(Decimal::new(0, 0))),
                ),
            ],
            outputs: vec![output("value", ValueKind::Float, vec![ValueKind::FloatTensor])],
            parameters: vec![
                NodeParameterDefinition::new(
                    "mode",
                    title_case_name("mode"),
                    ParameterDefaultValue::String("min".to_owned()),
                    ParameterUiHint::EnumSelect { options: min_max_float_modes() },
                ),
            ],
            connection: NodeConnectionDefinition {
                max_input_connections: 1,
                require_value_kind_match: true,
            },
            runtime_updates: None,
        },
        rule: InferenceRule::Numeric,
    };
    assert(node.shape() =~~= min_max_float_shape());
    node
}

/// The shape of the `multiply` node.
pub open spec fn multiply_shape() -> NodeShape {
    NodeShape {
        id: NodeTypeId::MULTIPLY@,
        display_name: "Multiply"@,
        category: NodeCategory::Math,
        needs_io: false,
        rule: InferenceRule::Numeric,
        inputs: seq![
            in_port(
                "a"@,
                ValueKind::Any,
                seq![ValueKind::Float, ValueKind::FloatTensor, ValueKind::ColorFrame],
                Some(ValueKind::Float),
            ),
            in_port(
                "b"@,
                ValueKind::Any,
                seq![ValueKind::Float, ValueKind::FloatTensor, ValueKind::ColorFrame],
                Some(ValueKind::Float),
            ),
        ],
        outputs: seq![
            port(
                "product"@,
                ValueKind::Any,
                seq![ValueKind::Float, ValueKind::FloatTensor, ValueKind::ColorFrame],
            ),
        ],
        parameters: seq![],
        connection: NodeConnectionDefinition {
            max_input_connections: 1,
            require_value_kind_match: true,
        },
        runtime_values: None,
    }
}

fn multiply_node() -> (node: BuiltinNode)
    ensures
        node.shape() == multiply_shape(),
{
    let node = BuiltinNode {
        schema: NodeDefinition {
            id: NodeTypeId::MULTIPLY.to_owned(),
            display_name: "Multiply".to_owned(),
            category: NodeCategory::Math,
            needs_io: false,
            inputs: vec![
                input(
                    "a",
                    ValueKind::Any,
                    vec![ValueKind::Float, ValueKind::FloatTensor, ValueKind::ColorFrame],
                    Some(InputValue::Float(Decimal::new(1, 0))),
                ),
                input(
                    "b",
                    ValueKind::Any,
                    vec![ValueKind::Float, ValueKind::FloatTensor, ValueKind::ColorFrame],
                    Some(InputValue::Float(Decimal::new(1, 0))),
                ),
            ],
            outputs: vec![
                output(
                    "product",
                    ValueKind::Any,
                    vec![ValueKind::Float, ValueKind::FloatTensor, ValueKind::ColorFrame],
                ),
            ],
            parameters: vec![],
            connection: NodeConnectionDefinition {
                max_input_connections: 1,
                require_value_kind_match: true,
            },
            runtime_updates: None,
        },
        rule: InferenceRule::Numeric,
    };
    assert(node.shape() =~~= multiply_shape());
    node
}

/// The shape of the `abs` node.
pub open spec fn abs_float_shape() -> NodeShape {
    NodeShape {
        id: NodeTypeId::ABS@,
        display_name: "Abs"@,
        category: NodeCategory::Math,
        needs_io: false,
        rule: InferenceRule::Numeric,
        inputs: seq![
            in_port(
                "value"@,
                ValueKind::Float,
                seq![ValueKind::FloatTensor],
                Some(ValueKind::Float),
            ),
        ],
        outputs: seq![
            port("value"@, ValueKind::Float, seq![ValueKind::FloatTensor]),
        ],
        parameters: seq![],
        connection: NodeConnectionDefinition {
            max_input_connections: 1,
            require_value_kind_match: true,
        },
        runtime_values: None,
    }
}

fn abs_float_node() -> (node: BuiltinNode)
    ensures
        node.shape() == abs_float_shape(),
{
    let node = BuiltinNode {
        schema: NodeDefinition {
            id: NodeTypeId::ABS.to_owned(),
            display_name: "Abs".to_owned(),
            category: NodeCategory::Math,
            needs_io: false,
            inputs: vec![
                input(
                    "value",
                    ValueKind::Float,
                    vec![ValueKind::FloatTensor],
                    Some(InputValue::Float(Decimal::new(0, 0))),
                ),
            ],
            outputs: vec![output("value", ValueKind::Float, vec![ValueKind::FloatTensor])],
            parameters: vec![],
            connection: NodeConnectionDefinition {
                max_input_connections: 1,
                require_value_kind_match: true,
            },
            runtime_updates: None,
        },
        rule: InferenceRule::Numeric,
    };
    assert(node.shape() =~~= abs_float_shape());
    node
}

/// The shape of the `clamp` node.
pub open spec fn clamp_shape() -> NodeShape {
    NodeShape {
        id: NodeTypeId::CLAMP@,
        display_name: "Clamp"@,
        category: NodeCategory::Math,
        needs_io: false,
        rule: InferenceRule::Numeric,
        inputs: seq![
            in_port(
                "value"@,
                ValueKind::Any,
                seq![ValueKind::Float, ValueKind::FloatTensor, ValueKind::ColorFrame],
                Some(ValueKind::Float),
            ),
            in_port(
                "min"@,
                ValueKind::Float,
                seq![ValueKind::FloatTensor],
                Some(ValueKind::Float),
            ),
            in_port(
                "max"@,
                ValueKind::Float,
                seq![ValueKind::FloatTensor],
                Some(ValueKind::Float),
            ),
        ],
        outputs: seq![
            port(
                "value"@,
                ValueKind::Any,
                seq![ValueKind::Float, ValueKind::FloatTensor, ValueKind::ColorFrame],
            ),
        ],
        parameters: seq![],
        connection: NodeConnectionDefinition {
            max_input_connections: 1,
            require_value_kind_match: true,
        },
        runtime_values: None,
    }
}

fn clamp_node() -> (node: BuiltinNode)
    ensures
        node.shape() == clamp_shape(),
{
    let node = BuiltinNode {
        schema: NodeDefinition {
            id: NodeTypeId::CLAMP.to_owned(),
            display_name: "Clamp".to_owned(),
            category: NodeCategory::Math,
            needs_io: false,
            inputs: vec![
                input(
                    "value",
                    ValueKind::Any,
                    vec![ValueKind::Float, ValueKind::FloatTensor, ValueKind::ColorFrame],
                    Some(InputValue::Float(Decimal::new(0, 0))),
                ),
                input(
                    "min",
                    ValueKind::Float,
                    vec![ValueKind::FloatTensor],
                    Some(InputValue::Float(Decimal::new(0, 0))),
                ),
                input(
                    "max",
                    ValueKind::Float,
                    vec![ValueKind::FloatTensor],
                    Some(InputValue::Float(Decimal::new(1, 0))),
                ),
            ],
            outputs: vec![
                output(
                    "value",
                    ValueKind::Any,
                    vec![ValueKind::Float, ValueKind::FloatTensor, ValueKind::ColorFrame],
                ),
            ],
            parameters: vec![],
            connection: NodeConnectionDefinition {
                max_input_connections: 1,
                require_value_kind_match: true,
            },
            runtime_updates: None,
        },
        rule: InferenceRule::Numeric,
    };
    assert(node.shape() =~~= clamp_shape());
    node
}

/// The shape of the `power` node.
pub open spec fn power_float_shape() -> NodeShape {
    NodeShape {
        id: NodeTypeId::POWER@,
        display_name: "Power"@,
        category: NodeCategory::Math,
        needs_io: false,
        rule: InferenceRule::Numeric,
        inputs: seq![
            in_port(
                "base"@,
                ValueKind::Float,
                seq![ValueKind::FloatTensor],
                Some(ValueKind::Float),
            ),
            in_port(
                "exponent"@,
                ValueKind::Float,
                seq![ValueKind::FloatTensor],
                Some(ValueKind::Float),
            ),
        ],
        outputs: seq![
            port("value"@, ValueKind::Float, seq![ValueKind::FloatTensor]),
        ],
        parameters: seq![],
        connection: NodeConnectionDefinition {
            max_input_connections: 1,
            require_value_kind_match: true,
        },
        runtime_values: None,
    }
}

fn power_float_node() -> (node: BuiltinNode)
    ensures
        node.shape() == power_float_shape(),
{
    let node = BuiltinNode {
        schema: NodeDefinition {
            id: NodeTypeId::POWER.to_owned(),
            display_name: "Power".to_owned(),
            category: NodeCategory::Math,
            needs_io: false,
            inputs: vec![
                input(
                    "base",
                    ValueKind::Float,
                    vec![ValueKind::FloatTensor],
                    Some(InputValue::Float(Decimal::new(1, 0))),
                ),
                input(
                    "exponent",
                    ValueKind::Float,
                    vec![ValueKind::FloatTensor],
                    Some(InputValue::Float(Decimal::new(1, 0))),
                ),
            ],
            outputs: vec![output("value", ValueKind::Float, vec![ValueKind::FloatTensor])],
            parameters: vec![],
            connection: NodeConnectionDefinition {
                max_input_connections: 1,
                require_value_kind_match: true,
            },
            runtime_updates: None,
        },
        rule: InferenceRule::Numeric,
    };
    assert(node.shape() =~~= power_float_shape());
    node
}

/// The shape of the `root` node.
pub open spec fn root_float_shape() -> NodeShape {
    NodeShape {
        id: NodeTypeId::ROOT@,
        display_name: "Root"@,
        category: NodeCategory::Math,
        needs_io: false,
        rule: InferenceRule::Numeric,
        inputs: seq![
            in_port(
                "value"@,
                ValueKind::Float,
                seq![ValueKind::FloatTensor],
                Some(ValueKind::Float),
            ),
            in_port(
                "degree"@,
                ValueKind::Float,
                seq![ValueKind::FloatTensor],
                Some(ValueKind::Float),
            ),
        ],
        outputs: seq![
            port("value"@, ValueKind::Float, seq![ValueKind::FloatTensor]),
        ],
        parameters: seq![],
        connection: NodeConnectionDefinition {
            max_input_connections: 1,
            require_value_kind_match: true,
        },
        runtime_values: None,
    }
}

fn root_float_node() -> (node: BuiltinNode)
    ensures
        node.shape() == root_float_shape(),
{
    let node = BuiltinNode {
        schema: NodeDefinition {
            id: NodeTypeId::ROOT.to_owned(),
            display_name: "Root".to_owned(),
            category: NodeCategory::Math,
            needs_io: false,
            inputs: vec![
                input(
                    "value",
                    ValueKind::Float,
                    vec![ValueKind::FloatTensor],
                    Some(InputValue::Float(Decimal::new(0, 0))),
                ),
                input(
                    "degree",
                    ValueKind::Float,
                    vec![ValueKind::FloatTensor],
                    Some(InputValue::Float(Decimal::new(2, 0))),
                ),
            ],
            outputs: vec![output("value", ValueKind::Float, vec![ValueKind::FloatTensor])],
            parameters: vec![],
            connection: NodeConnectionDefinition {
                max_input_connections: 1,
                require_value_kind_match: true,
            },
            runtime_updates: None,
        },
        rule: InferenceRule::Numeric,
    };
    assert(node.shape() =~~= root_float_shape());
    node
}

/// The shape of the `exponential` node.
pub open spec fn exponential_float_shape() -> NodeShape {
    NodeShape {
        id: NodeTypeId::EXPONENTIAL@,
        display_name: "Exponential"@,
        category: NodeCategory::Math,
        needs_io: false,
        rule: InferenceRule::Numeric,
        inputs: seq![
            in_port(
                "value"@,
                ValueKind::Float,
                seq![ValueKind::FloatTensor],
                Some(ValueKind::Float),
            ),
        ],
        outputs: seq![
            port("value"@, ValueKind::Float, seq![ValueKind::FloatTensor]),
        ],
        parameters: seq![],
        connection: NodeConnectionDefinition {
            max_input_connections: 1,
            require_value_kind_match: true,
        },
        runtime_values: None,
    }
}

fn exponential_float_node() -> (node: BuiltinNode)
    ensures
        node.shape() == exponential_float_shape(),
{
    let node = BuiltinNode {
        schema: NodeDefinition {
            id: NodeTypeId::EXPONENTIAL.to_owned(),
            display_name: "Exponential".to_owned(),
            category: NodeCategory::Math,
            needs_io: false,
            inputs: vec![
                input(
                    "value",
                    ValueKind::Float,
                    vec![ValueKind::FloatTensor],
                    Some(InputValue::Float(Decimal::new(0, 0))),
                ),
            ],
            outputs: vec![output("value", ValueKind::Float, vec![ValueKind::FloatTensor])],
            parameters: vec![],
            connection: NodeConnectionDefinition {
                max_input_connections: 1,
                require_value_kind_match: true,
            },
            runtime_updates: None,
        },
        rule: InferenceRule::Numeric,
    };
    assert(node.shape() =~~= exponential_float_shape());
    node
}

/// The shape of the `log` node.
pub open spec fn log_float_shape() -> NodeShape {
    NodeShape {
        id: NodeTypeId::LOG@,
        display_name: "Log"@,
        category: NodeCategory::Math,
        needs_io: false,
        rule: InferenceRule::Numeric,
        inputs: seq![
            in_port(
                "value"@,
                ValueKind::Float,
                seq![ValueKind::FloatTensor],
                Some(ValueKind::Float),
            ),
            in_port(
                "base"@,
                ValueKind::Float,
                seq![ValueKind::FloatTensor],
                Some(ValueKind::Float),
            ),
        ],
        outputs: seq![
            port("value"@, ValueKind::Float, seq![ValueKind::FloatTensor]),
        ],
        parameters: seq![],
        connection: NodeConnectionDefinition {
            max_input_connections: 1,
            require_value_kind_match: true,
        },
        runtime_values: None,
    }
}

fn log_float_node() -> (node: BuiltinNode)
    ensures
        node.shape() == log_float_shape(),
{
    let node = BuiltinNode {
        schema: NodeDefinition {
            id: NodeTypeId::LOG.to_owned(),
            display_name: "Log".to_owned(),
            category: NodeCategory::Math,
            needs_io: false,
            inputs: vec![
                input(
                    "value",
                    ValueKind::Float,
                    vec![ValueKind::FloatTensor],
                    Some(InputValue::Float(Decimal::new(1, 0))),
                ),
                input(
                    "base",
                    ValueKind::Float,
                    vec![ValueKind::FloatTensor],
                    Some(InputValue::Float(Decimal::new(27182817, -7))),
                ),
            ],
            outputs: vec![output("value", ValueKind::Float, vec![ValueKind::FloatTensor])],
            parameters: vec![],
            connection: NodeConnectionDefinition {
                max_input_connections: 1,
                require_value_kind_match: true,
            },
            runtime_updates: None,
        },
        rule: InferenceRule::Numeric,
    };
    assert(node.shape() =~~= log_float_shape());
    node
}

/// The shape of the `map_range` node.
pub open spec fn map_range_float_shape() -> NodeShape {
    NodeShape {
        id: NodeTypeId::MAP_RANGE@,
        display_name: "Map Range"@,
        category: NodeCategory::Math,
        needs_io: false,
        rule: InferenceRule::Numeric,
        inputs: seq![
            in_port(
                "value"@,
                ValueKind::Float,
                seq![ValueKind::FloatTensor],
                Some(ValueKind::Float),
            ),
            in_port(
                "source_min"@,
                ValueKind::Float,
                seq![ValueKind::FloatTensor],
                Some(ValueKind::Float),
            ),
            in_port(
                "source_max"@,
                ValueKind::Float,
                seq![ValueKind::FloatTensor],
                Some(ValueKind::Float),
            ),
            in_port(
                "target_min"@,
                ValueKind::Float,
                seq![ValueKind::FloatTensor],
                Some(ValueKind::Float),
            ),
            in_port(
                "target_max"@,
                ValueKind::Float,
                seq![ValueKind::FloatTensor],
                Some(ValueKind::Float),
            ),
        ],
        outputs: seq![
            port("value"@, ValueKind::Float, seq![ValueKind::FloatTensor]),
        ],
        parameters: seq![],
        connection: NodeConnectionDefinition {
            max_input_connections: 1,
            require_value_kind_match: true,
        },
        runtime_values: None,
    }
}

fn map_range_float_node() -> (node: BuiltinNode)
    ensures
        node.shape() == map_range_float_shape(),
{
    let node = BuiltinNode {
        schema: NodeDefinition {
            id: NodeTypeId::MAP_RANGE.to_owned(),
            display_name: "Map Range".to_owned(),
            category: NodeCategory::Math,
            needs_io: false,
            inputs: vec![
                input(
                    "value",
                    ValueKind::Float,
                    vec![ValueKind::FloatTensor],
                    Some(InputValue::Float(Decimal::new(0, 0))),
                ),
                input(
                    "source_min",
                    ValueKind::Float,
                    vec![ValueKind::FloatTensor],
                    Some(InputValue::Float(Decimal::new(0, 0))),
                ),
                input(
                    "source_max",
                    ValueKind::Float,
                    vec![ValueKind::FloatTensor],
                    Some(InputValue::Float(Decimal::new(1, 0))),
                ),
                input(
                    "target_min",
                    ValueKind::Float,
                    vec![ValueKind::FloatTensor],
                    Some(InputValue::Float(Decimal::new(0, 0))),
                ),
                input(
                    "target_max",
                    ValueKind::Float,
                    vec![ValueKind::FloatTensor],
                    Some(InputValue::Float(Decimal::new(1, 0))),
                ),
            ],
            outputs: vec![output("value", ValueKind::Float, vec![ValueKind::FloatTensor])],
            parameters: vec![],
            connection: NodeConnectionDefinition {
                max_input_connections: 1,
                require_value_kind_match: true,
            },
            runtime_updates: None,
        },
        rule: InferenceRule::Numeric,
    };
    assert(node.shape() =~~= map_range_float_shape());
    node
}

/// The shape of the `round` node.
pub open spec fn round_float_shape() -> NodeShape {
    NodeShape {
        id: NodeTypeId::ROUND@,
        display_name: "Round"@,
        category: NodeCategory::Math,
        needs_io: false,
        rule: InferenceRule::Numeric,
        inputs: seq![
            in_port(
                "value"@,
                ValueKind::Float,
                seq![ValueKind::FloatTensor],
                Some(ValueKind::Float),
            ),
        ],
        outputs: seq![
            port("value"@, ValueKind::Float, seq![ValueKind::FloatTensor]),
        ],
        parameters: seq![
            param(
                "mode"@,
                DefaultView::String("round"@),
                HintView::EnumSelect(round_float_modes_view()),
                |parameters: Seq<NodeParameter>| true,
            ),
        ],
        connection: NodeConnectionDefinition {
            max_input_connections: 1,
            require_value_kind_match: true,
        },
        runtime_values: None,
    }
}

fn round_float_node() -> (node: BuiltinNode)
    ensures
        node.shape() == round_float_shape(),
{
    let node = BuiltinNode {
        schema: NodeDefinition {
            id: NodeTypeId::ROUND.to_owned(),
            display_name: "Round".to_owned(),
            category: NodeCategory::Math,
            needs_io: false,
            inputs: vec![
                input(
                    "value",
                    ValueKind::Float,
                    vec![ValueKind::FloatTensor],
                    Some(InputValue::Float(Decimal::new(0, 0))),
                ),
            ],
            outputs: vec![output("value", ValueKind::Float, vec![ValueKind::FloatTensor])],
            parameters: vec![
                NodeParameterDefinition::new(
                    "mode",
                    title_case_name("mode"),
                    ParameterDefaultValue::String("round".to_owned()),
                    ParameterUiHint::EnumSelect { options: round_float_modes() },
                ),
            ],
            connection: NodeConnectionDefinition {
                max_input_connections: 1,
                require_value_kind_match: true,
            },
            runtime_updates: None,
        },
        rule: InferenceRule::Numeric,
    };
    assert(node.shape() =~~= round_float_shape());
    node
}

/// The shape of the `scale_tensor` node.
pub open spec fn scale_tensor_shape() -> NodeShape {
    NodeShape {
        id: NodeTypeId::SCALE_TENSOR@,
        display_name: "Scale Tensor"@,
        category: NodeCategory::Math,
        needs_io: false,
        rule: InferenceRule::Declared,
        inputs: seq![
            in_port("tensor"@, ValueKind::FloatTensor, seq![], Some(ValueKind::FloatTensor)),
            in_port("factor"@, ValueKind::Float, seq![], Some(ValueKind::Float)),
        ],
        outputs: seq![
            port("tensor"@, ValueKind::FloatTensor, seq![]),
        ],
        parameters: seq![],
        connection: NodeConnectionDefinition {
            max_input_connections: 1,
            require_value_kind_match: true,
        },
        runtime_values: None,
    }
}

fn scale_tensor_node() -> (node: BuiltinNode)
    ensures
        node.shape() == scale_tensor_shape(),
{
    let node = BuiltinNode {
        schema: NodeDefinition {
            id: NodeTypeId::SCALE_TENSOR.to_owned(),
            display_name: "Scale Tensor".to_owned(),
            category: NodeCategory::Math,
            needs_io: false,
            inputs: vec![
                input("tensor", ValueKind::FloatTensor, vec![], Some(default_tensor_input())),
                input(
                    "factor",
                    ValueKind::Float,
                    vec![],
                    Some(InputValue::Float(Decimal::new(1, 0))),
                ),
            ],
            outputs: vec![output("tensor", ValueKind::FloatTensor, vec![])],
            parameters: vec![],
            connection: NodeConnectionDefinition {
                max_input_connections: 1,
                require_value_kind_match: true,
            },
            runtime_updates: None,
        },
        rule: InferenceRule::Declared,
    };
    assert(node.shape() =~~= scale_tensor_shape());
    node
}

/// The shape of the `scale_color` node.
pub open spec fn scale_color_shape() -> NodeShape {
    NodeShape {
        id: NodeTypeId::SCALE_COLOR@,
        display_name: "Scale Color"@,
        category: NodeCategory::FrameOperations,
        needs_io: false,
        rule: InferenceRule::Declared,
        inputs: seq![
            in_port("color"@, ValueKind::Color, seq![], Some(ValueKind::Color)),
            in_port("factor"@, ValueKind::Float, seq![], Some(ValueKind::Float)),
        ],
        outputs: seq![
            port("color"@, ValueKind::Color, seq![]),
        ],
        parameters: seq![],
        connection: NodeConnectionDefinition {
            max_input_connections: 1,
            require_value_kind_match: true,
        },
        runtime_values: None,
    }
}

fn scale_color_node() -> (node: BuiltinNode)
    ensures
        node.shape() == scale_color_shape(),
{
    let node = BuiltinNode {
        schema: NodeDefinition {
            id: NodeTypeId::SCALE_COLOR.to_owned(),
            display_name: "Scale Color".to_owned(),
            category: NodeCategory::FrameOperations,
            needs_io: false,
            inputs: vec![
                input("color", ValueKind::Color, vec![], Some(white_input())),
                input(
                    "factor",
                    ValueKind::Float,
                    vec![],
                    Some(InputValue::Float(Decimal::new(1, 0))),
                ),
            ],
            outputs: vec![output("color", ValueKind::Color, vec![])],
            parameters: vec![],
            connection: NodeConnectionDefinition {
                max_input_connections: 1,
                require_value_kind_match: true,
            },
            runtime_updates: None,
        },
        rule: InferenceRule::Declared,
    };
    assert(node.shape() =~~= scale_color_shape());
    node
}

/// The shape of the `multiply_color` node.
pub open spec fn multiply_color_shape() -> NodeShape {
    NodeShape {
        id: NodeTypeId::MULTIPLY_COLOR@,
        display_name: "Multiply Color"@,
        category: NodeCategory::FrameOperations,
        needs_io: false,
        rule: InferenceRule::Declared,
        inputs: seq![
            in_port("a"@, ValueKind::Color, seq![], Some(ValueKind::Color)),
            in_port("b"@, ValueKind::Color, seq![], Some(ValueKind::Color)),
        ],
        outputs: seq![
            port("color"@, ValueKind::Color, seq![]),
        ],
        parameters: seq![],
        connection: NodeConnectionDefinition {
            max_input_connections: 1,
            require_value_kind_match: true,
        },
        runtime_values: None,
    }
}

fn multiply_color_node() -> (node: BuiltinNode)
    ensures
        node.shape() == multiply_color_shape(),
{
    let node = BuiltinNode {
        schema: NodeDefinition {
            id: NodeTypeId::MULTIPLY_COLOR.to_owned(),
            display_name: "Multiply Color".to_owned(),
            category: NodeCategory::FrameOperations,
            needs_io: false,
            inputs: vec![
                input("a", ValueKind::Color, vec![], Some(white_input())),
                input("b", ValueKind::Color, vec![], Some(white_input())),
            ],
            outputs: vec![output("color", ValueKind::Color, vec![])],
            parameters: vec![],
            connection: NodeConnectionDefinition {
                max_input_connections: 1,
                require_value_kind_match: true,
            },
            runtime_updates: None,
        },
        rule: InferenceRule::Declared,
    };
    assert(node.shape() =~~= multiply_color_shape());
    node
}

/// The shape of the `tint_frame` node.
pub open spec fn tint_frame_shape() -> NodeShape {
    NodeShape {
        id: NodeTypeId::TINT_FRAME@,
        display_name: "Tint Frame"@,
        category: NodeCategory::FrameOperations,
        needs_io: false,
        rule: InferenceRule::Declared,
        inputs: seq![
            in_port("frame"@, ValueKind::ColorFrame, seq![], None),
            in_port("tint"@, ValueKind::Color, seq![], Some(ValueKind::Color)),
        ],
        outputs: seq![
            port("frame"@, ValueKind::ColorFrame, seq![]),
        ],
        parameters: seq![],
        connection: NodeConnectionDefinition {
            max_input_connections: 1,
            require_value_kind_match: true,
        },
        runtime_values: None,
    }
}

fn tint_frame_node() -> (node: BuiltinNode)
    ensures
        node.shape() == tint_frame_shape(),
{
    let node = BuiltinNode {
        schema: NodeDefinition {
            id: NodeTypeId::TINT_FRAME.to_owned(),
            display_name: "Tint Frame".to_owned(),
            category: NodeCategory::FrameOperations,
            needs_io: false,
            inputs: vec![
                input("frame", ValueKind::ColorFrame, vec![], None),
                input("tint", ValueKind::Color, vec![], Some(white_input())),
            ],
            outputs: vec![output("frame", ValueKind::ColorFrame, vec![])],
            parameters: vec![],
            connection: NodeConnectionDefinition {
                max_input_connections: 1,
                require_value_kind_match: true,
            },
            runtime_updates: None,
        },
        rule: InferenceRule::Declared,
    };
    assert(node.shape() =~~= tint_frame_shape());
    node
}

/// The shape of the `extract_channels` node.
pub open spec fn extract_channels_shape() -> NodeShape {
    NodeShape {
        id: NodeTypeId::EXTRACT_CHANNELS@,
        display_name: "Extract Channels"@,
        category: NodeCategory::FrameOperations,
        needs_io: false,
        rule: InferenceRule::Declared,
        inputs: seq![
            in_port("frame"@, ValueKind::ColorFrame, seq![], None),
        ],
        outputs: seq![
            port("tensor"@, ValueKind::FloatTensor, seq![]),
        ],
        parameters: seq![
            param(
                "channel"@,
                DefaultView::String("r"@),
                HintView::EnumSelect(frame_channel_options_view()),
                |parameters: Seq<NodeParameter>| true,
            ),
        ],
        connection: NodeConnectionDefinition {
            max_input_connections: 1,
            require_value_kind_match: true,
        },
        runtime_values: None,
    }
}

fn extract_channels_node() -> (node: BuiltinNode)
    ensures
        node.shape() == extract_channels_shape(),
{
    let node = BuiltinNode {
        schema: NodeDefinition {
            id: NodeTypeId::EXTRACT_CHANNELS.to_owned(),
            display_name: "Extract Channels".to_owned(),
            category: NodeCategory::FrameOperations,
            needs_io: false,
            inputs: vec![input("frame", ValueKind::ColorFrame, vec![], None)],
            outputs: vec![output("tensor", ValueKind::FloatTensor, vec![])],
            parameters: vec![
                NodeParameterDefinition::new(
                    "channel",
                    title_case_name("channel"),
                    ParameterDefaultValue::String("r".to_owned()),
                    ParameterUiHint::EnumSelect { options: frame_channel_options() },
                ),
            ],
            connection: NodeConnectionDefinition {
                max_input_connections: 1,
                require_value_kind_match: true,
            },
            runtime_updates: None,
        },
        rule: InferenceRule::Declared,
    };
    assert(node.shape() =~~= extract_channels_shape());
    node
}

/// The shape of the `set_channel` node.
pub open spec fn set_channel_shape() -> NodeShape {
    NodeShape {
        id: NodeTypeId::SET_CHANNEL@,
        display_name: "Set Channel"@,
        category: NodeCategory::FrameOperations,
        needs_io: false,
        rule: InferenceRule::Declared,
        inputs: seq![
            in_port("frame"@, ValueKind::ColorFrame, seq![], None),
            in_port("tensor"@, ValueKind::FloatTensor, seq![], Some(ValueKind::FloatTensor)),
        ],
        outputs: seq![
            port("frame"@, ValueKind::ColorFrame, seq![]),
        ],
        parameters: seq![
            param(
                "channel"@,
                DefaultView::String("r"@),
                HintView::EnumSelect(frame_set_channel_options_view()),
                |parameters: Seq<NodeParameter>| true,
            ),
        ],
        connection: NodeConnectionDefinition {
            max_input_connections: 1,
            require_value_kind_match: true,
        },
        runtime_values: None,
    }
}

fn set_channel_node() -> (node: BuiltinNode)
    ensures
        node.shape() == set_channel_shape(),
{
    let node = BuiltinNode {
        schema: NodeDefinition {
            id: NodeTypeId::SET_CHANNEL.to_owned(),
            display_name: "Set Channel".to_owned(),
            category: NodeCategory::FrameOperations,
            needs_io: false,
            inputs: vec![
                input("frame", ValueKind::ColorFrame, vec![], None),
                input("tensor", ValueKind::FloatTensor, vec![], Some(default_tensor_input())),
            ],
            outputs: vec![output("frame", ValueKind::ColorFrame, vec![])],
            parameters: vec![
                NodeParameterDefinition::new(
                    "channel",
                    title_case_name("channel"),
                    ParameterDefaultValue::String("r".to_owned()),
                    ParameterUiHint::EnumSelect { options: frame_set_channel_options() },
                ),
            ],
            connection: NodeConnectionDefinition {
                max_input_connections: 1,
                require_value_kind_match: true,
            },
            runtime_updates: None,
        },
        rule: InferenceRule::Declared,
    };
    assert(node.shape() =~~= set_channel_shape());
    node
}

/// The shape of the `colorize` node.
pub open spec fn colorize_shape() -> NodeShape {
    NodeShape {
        id: NodeTypeId::COLORIZE@,
        display_name: "Colorize"@,
        category: NodeCategory::FrameOperations,
        needs_io: false,
        rule: InferenceRule::Declared,
        inputs: seq![
            in_port(
                "value"@,
                ValueKind::Float,
                seq![ValueKind::FloatTensor],
                Some(ValueKind::Float),
            ),
        ],
        outputs: seq![
            port("frame"@, ValueKind::ColorFrame, seq![]),
        ],
        parameters: seq![
            param(
                "gradient"@,
                DefaultView::Gradient(default_rainbow_gradient_stops_view()),
                HintView::ColorGradient,
                |parameters: Seq<NodeParameter>| true,
            ),
        ],
        connection: NodeConnectionDefinition {
            max_input_connections: 1,
            require_value_kind_match: true,
        },
        runtime_values: None,
    }
}

fn colorize_node() -> (node: BuiltinNode)
    ensures
        node.shape() == colorize_shape(),
{
    let node = BuiltinNode {
        schema: NodeDefinition {
            id: NodeTypeId::COLORIZE.to_owned(),
            display_name: "Colorize".to_owned(),
            category: NodeCategory::FrameOperations,
            needs_io: false,
            inputs: vec![
                input(
                    "value",
                    ValueKind::Float,
                    vec![ValueKind::FloatTensor],
                    Some(InputValue::Float(Decimal::new(0, 0))),
                ),
            ],
            outputs: vec![output("frame", ValueKind::ColorFrame, vec![])],
            parameters: vec![
                NodeParameterDefinition::new(
                    "gradient",
                    title_case_name("gradient"),
                    ParameterDefaultValue::Gradient(default_rainbow_gradient_stops()),
                    ParameterUiHint::ColorGradient,
                ),
            ],
            connection: NodeConnectionDefinition {
                max_input_connections: 1,
                require_value_kind_match: true,
            },
            runtime_updates: None,
        },
        rule: InferenceRule::Declared,
    };
    assert(node.shape() =~~= colorize_shape());
    node
}

/// The shape of the `mask_frame` node.
pub open spec fn mask_frame_shape() -> NodeShape {
    NodeShape {
        id: NodeTypeId::MASK_FRAME@,
        display_name: "Mask Frame"@,
        category: NodeCategory::FrameOperations,
        needs_io: false,
        rule: InferenceRule::Declared,
        inputs: seq![
            in_port("frame"@, ValueKind::ColorFrame, seq![], None),
            in_port("mask"@, ValueKind::ColorFrame, seq![ValueKind::FloatTensor], None),
        ],
        outputs: seq![
            port("frame"@, ValueKind::ColorFrame, seq![]),
        ],
        parameters: seq![],
        connection: NodeConnectionDefinition {
            max_input_connections: 1,
            require_value_kind_match: true,
        },
        runtime_values: None,
    }
}

fn mask_frame_node() -> (node: BuiltinNode)
    ensures
        node.shape() == mask_frame_shape(),
{
    let node = BuiltinNode {
        schema: NodeDefinition {
            id: NodeTypeId::MASK_FRAME.to_owned(),
            display_name: "Mask Frame".to_owned(),
            category: NodeCategory::FrameOperations,
            needs_io: false,
            inputs: vec![
                input("frame", ValueKind::ColorFrame, vec![], None),
                input("mask", ValueKind::ColorFrame, vec![ValueKind::FloatTensor], None),
            ],
            outputs: vec![output("frame", ValueKind::ColorFrame, vec![])],
            parameters: vec![],
            connection: NodeConnectionDefinition {
                max_input_connections: 1,
                require_value_kind_match: true,
            },
            runtime_updates: None,
        },
        rule: InferenceRule::Declared,
    };
    assert(node.shape() =~~= mask_frame_shape());
    node
}

/// The shape of the `mix_color` node.
pub open spec fn mix_color_shape() -> NodeShape {
    NodeShape {
        id: NodeTypeId::MIX_COLOR@,
        display_name: "Mix Color"@,
        category: NodeCategory::FrameOperations,
        needs_io: false,
        rule: InferenceRule::Declared,
        inputs: seq![
            in_port(
                "foreground"@,
                ValueKind::Color,
                seq![ValueKind::ColorFrame],
                Some(ValueKind::Color),
            ),
            in_port(
                "background"@,
                ValueKind::Color,
                seq![ValueKind::ColorFrame],
                Some(ValueKind::Color),
            ),
            in_port(
                "factor"@,
                ValueKind::Float,
                seq![ValueKind::FloatTensor],
                Some(ValueKind::Float),
            ),
        ],
        outputs: seq![
            port("color"@, ValueKind::ColorFrame, seq![]),
        ],
        parameters: seq![],
        connection: NodeConnectionDefinition {
            max_input_connections: 1,
            require_value_kind_match: true,
        },
        runtime_values: None,
    }
}

fn mix_color_node() -> (node: BuiltinNode)
    ensures
        node.shape() == mix_color_shape(),
{
    let node = BuiltinNode {
        schema: NodeDefinition {
            id: NodeTypeId::MIX_COLOR.to_owned(),
            display_name: "Mix Color".to_owned(),
            category: NodeCategory::FrameOperations,
            needs_io: false,
            inputs: vec![
                input(
                    "foreground",
                    ValueKind::Color,
                    vec![ValueKind::ColorFrame],
                    Some(white_input()),
                ),
                input(
                    "background",
                    ValueKind::Color,
                    vec![ValueKind::ColorFrame],
                    Some(white_input()),
                ),
                input(
                    "factor",
                    ValueKind::Float,
                    vec![ValueKind::FloatTensor],
                    Some(InputValue::Float(Decimal::new(0, 0))),
                ),
            ],
            outputs: vec![output("color", ValueKind::ColorFrame, vec![])],
            parameters: vec![],
            connection: NodeConnectionDefinition {
                max_input_connections: 1,
                require_value_kind_match: true,
            },
            runtime_updates: None,
        },
        rule: InferenceRule::Declared,
    };
    assert(node.shape() =~~= mix_color_shape());
    node
}

/// The shape of the `alpha_over` node.
pub open spec fn alpha_over_shape() -> NodeShape {
    NodeShape {
        id: NodeTypeId::ALPHA_OVER@,
        display_name: "Alpha Over"@,
        category: NodeCategory::FrameOperations,
        needs_io: false,
        rule: InferenceRule::Declared,
        inputs: seq![
            in_port(
                "foreground"@,
                ValueKind::Color,
                seq![ValueKind::ColorFrame],
                Some(ValueKind::Color),
            ),
            in_port(
                "background"@,
                ValueKind::Color,
                seq![ValueKind::ColorFrame],
                Some(ValueKind::Color),
            ),
        ],
        outputs: seq![
            port("color"@, ValueKind::ColorFrame, seq![]),
        ],
        parameters: seq![],
        connection: NodeConnectionDefinition {
            max_input_connections: 1,
            require_value_kind_match: true,
        },
        runtime_values: None,
    }
}

fn alpha_over_node() -> (node: BuiltinNode)
    ensures
        node.shape() == alpha_over_shape(),
{
    let node = BuiltinNode {
        schema: NodeDefinition {
            id: NodeTypeId::ALPHA_OVER.to_owned(),
            display_name: "Alpha Over".to_owned(),
            category: NodeCategory::FrameOperations,
            needs_io: false,
            inputs: vec![
                input(
                    "foreground",
                    ValueKind::Color,
                    vec![ValueKind::ColorFrame],
                    Some(transparent_input()),
                ),
                input(
                    "background",
                    ValueKind::Color,
                    vec![ValueKind::ColorFrame],
                    Some(transparent_input()),
                ),
            ],
            outputs: vec![output("color", ValueKind::ColorFrame, vec![])],
            parameters: vec![],
            connection: NodeConnectionDefinition {
                max_input_connections: 1,
                require_value_kind_match: true,
            },
            runtime_updates: None,
        },
        rule: InferenceRule::Declared,
    };
    assert(node.shape() =~~= alpha_over_shape());
    node
}

/// The shape of the `fade` node.
pub open spec fn fade_shape() -> NodeShape {
    NodeShape {
        id: NodeTypeId::FADE@,
        display_name: "Fade"@,
        category: NodeCategory::TemporalFilters,
        needs_io: false,
        rule: InferenceRule::Fade,
        inputs: seq![
            in_port("value"@, ValueKind::Any, seq![], Some(ValueKind::Color)),
            in_port(
                "decay"@,
                ValueKind::Float,
                seq![ValueKind::FloatTensor],
                Some(ValueKind::Float),
            ),
        ],
        outputs: seq![
            port("value"@, ValueKind::Any, seq![]),
        ],
        parameters: seq![],
        connection: NodeConnectionDefinition {
            max_input_connections: 1,
            require_value_kind_match: true,
        },
        runtime_values: None,
    }
}

fn fade_node() -> (node: BuiltinNode)
    ensures
        node.shape() == fade_shape(),
{
    let node = BuiltinNode {
        schema: NodeDefinition {
            id: NodeTypeId::FADE.to_owned(),
            display_name: "Fade".to_owned(),
            category: NodeCategory::TemporalFilters,
            needs_io: false,
            inputs: vec![
                input("value", ValueKind::Any, vec![], Some(white_input())),
                input(
                    "decay",
                    ValueKind::Float,
                    vec![ValueKind::FloatTensor],
                    Some(InputValue::Float(Decimal::new(0, 0))),
                ),
            ],
            outputs: vec![output("value", ValueKind::Any, vec![])],
            parameters: vec![],
            connection: NodeConnectionDefinition {
                max_input_connections: 1,
                require_value_kind_match: true,
            },
            runtime_updates: None,
        },
        rule: InferenceRule::Fade,
    };
    assert(node.shape() =~~= fade_shape());
    node
}

/// The shape of the `integrate` node.
pub open spec fn integrate_shape() -> NodeShape {
    NodeShape {
        id: NodeTypeId::INTEGRATE@,
        display_name: "Integrate"@,
        category: NodeCategory::TemporalFilters,
        needs_io: false,
        rule: InferenceRule::Integrate,
        inputs: seq![
            in_port(
                "rate"@,
                ValueKind::Any,
                seq![ValueKind::Float, ValueKind::FloatTensor, ValueKind::ColorFrame],
                Some(ValueKind::Float),
            ),
            in_port("reset"@, ValueKind::Float, seq![], Some(ValueKind::Float)),
        ],
        outputs: seq![
            port(
                "value"@,
                ValueKind::Any,
                seq![ValueKind::Float, ValueKind::FloatTensor, ValueKind::ColorFrame],
            ),
        ],
        parameters: seq![
            param(
                "initial_value"@,
                DefaultView::Float(decimal(0, 0)),
                HintView::DragFloat {
                    speed: decimal(1, -2i32),
                    min: negative_decimal(1, 4),
                    max: decimal(1, 4),
                },
                |parameters: Seq<NodeParameter>| true,
            ),
            param(
                "clamp_output"@,
                DefaultView::Bool(false),
                HintView::Checkbox,
                |parameters: Seq<NodeParameter>| true,
            ),
            param(
                "min"@,
                DefaultView::Float(negative_decimal(1, 0)),
                HintView::DragFloat {
                    speed: decimal(1, -2i32),
                    min: negative_decimal(1, 4),
                    max: decimal(1, 4),
                },
                |parameters: Seq<NodeParameter>| parameter_holds_bool(parameters, "clamp_output"@, true),
            ),
            param(
                "max"@,
                DefaultView::Float(decimal(1, 0)),
                HintView::DragFloat {
                    speed: decimal(1, -2i32),
                    min: negative_decimal(1, 4),
                    max: decimal(1, 4),
                },
                |parameters: Seq<NodeParameter>| parameter_holds_bool(parameters, "clamp_output"@, true),
            ),
        ],
        connection: NodeConnectionDefinition {
            max_input_connections: 1,
            require_value_kind_match: true,
        },
        runtime_values: None,
    }
}

fn integrate_node() -> (node: BuiltinNode)
    ensures
        node.shape() == integrate_shape(),
{
    let node = BuiltinNode {
        schema: NodeDefinition {
            id: NodeTypeId::INTEGRATE.to_owned(),
            display_name: "Integrate".to_owned(),
            category: NodeCategory::TemporalFilters,
            needs_io: false,
            inputs: vec![
                input(
                    "rate",
                    ValueKind::Any,
                    vec![ValueKind::Float, ValueKind::FloatTensor, ValueKind::ColorFrame],
                    Some(InputValue::Float(Decimal::new(0, 0))),
                ),
                input(
                    "reset",
                    ValueKind::Float,
                    vec![],
                    Some(InputValue::Float(Decimal::new(0, 0))),
                ),
            ],
            outputs: vec![
                output(
                    "value",
                    ValueKind::Any,
                    vec![ValueKind::Float, ValueKind::FloatTensor, ValueKind::ColorFrame],
                ),
            ],
            parameters: vec![
                NodeParameterDefinition::new(
                    "initial_value",
                    title_case_name("initial_value"),
                    ParameterDefaultValue::Float(Decimal::new(0, 0)),
                    ParameterUiHint::DragFloat {
                        speed: Decimal::new(1, -2),
                        min: Decimal::negative(1, 4),
                        max: Decimal::new(1, 4),
                    },
                ),
                NodeParameterDefinition::new(
                    "clamp_output",
                    title_case_name("clamp_output"),
                    ParameterDefaultValue::Bool(false),
                    ParameterUiHint::Checkbox,
                ),
                NodeParameterDefinition::new(
                    "min",
                    title_case_name("min"),
                    ParameterDefaultValue::Float(Decimal::negative(1, 0)),
                    ParameterUiHint::DragFloat {
                        speed: Decimal::new(1, -2),
                        min: Decimal::negative(1, 4),
                        max: Decimal::new(1, 4),
                    },
                )
                    .visible_when(ParameterVisibilityCondition::Equals {
                        parameter: "clamp_output".to_owned(),
                        value: JsonValue::from_bool(true),
                    }),
                NodeParameterDefinition::new(
                    "max",
                    title_case_name("max"),
                    ParameterDefaultValue::Float(Decimal::new(1, 0)),
                    ParameterUiHint::DragFloat {
                        speed: Decimal::new(1, -2),
                        min: Decimal::negative(1, 4),
                        max: Decimal::new(1, 4),
                    },
                )
                    .visible_when(ParameterVisibilityCondition::Equals {
                        parameter: "clamp_output".to_owned(),
                        value: JsonValue::from_bool(true),
                    }),
            ],
            connection: NodeConnectionDefinition {
                max_input_connections: 1,
                require_value_kind_match: true,
            },
            runtime_updates: None,
        },
        rule: InferenceRule::Integrate,
    };
    proof {
        assert forall|parameters: Seq<NodeParameter>|
            #[trigger] condition_holds(node.schema.parameters@[2].visible_when->0, parameters)
                == parameter_holds_bool(parameters, "clamp_output"@, true) by {
            lemma_bool_condition(node.schema.parameters@[2].visible_when->0, true, parameters);
        }
        assert forall|parameters: Seq<NodeParameter>|
            #[trigger] condition_holds(node.schema.parameters@[3].visible_when->0, parameters)
                == parameter_holds_bool(parameters, "clamp_output"@, true) by {
            lemma_bool_condition(node.schema.parameters@[3].visible_when->0, true, parameters);
        }
    }
    assert(node.shape() =~~= integrate_shape());
    node
}

/// The shape of the `moving_average` node.
pub open spec fn moving_average_shape() -> NodeShape {
    NodeShape {
        id: NodeTypeId::MOVING_AVERAGE@,
        display_name: "Moving Average"@,
        category: NodeCategory::TemporalFilters,
        needs_io: false,
        rule: InferenceRule::MovingAverage,
        inputs: seq![
            in_port(
                "value"@,
                ValueKind::Any,
                seq![
                    ValueKind::Float,
                    ValueKind::Color,
                    ValueKind::FloatTensor,
                    ValueKind::ColorFrame,
                ],
                Some(ValueKind::Float),
            ),
            in_port("window_size"@, ValueKind::Float, seq![], Some(ValueKind::Float)),
        ],
        outputs: seq![
            port(
                "value"@,
                ValueKind::Any,
                seq![
                    ValueKind::Float,
                    ValueKind::Color,
                    ValueKind::FloatTensor,
                    ValueKind::ColorFrame,
                ],
            ),
        ],
        parameters: seq![],
        connection: NodeConnectionDefinition {
            max_input_connections: 1,
            require_value_kind_match: true,
        },
        runtime_values: None,
    }
}

fn moving_average_node() -> (node: BuiltinNode)
    ensures
        node.shape() == moving_average_shape(),
{
    let node = BuiltinNode {
        schema: NodeDefinition {
            id: NodeTypeId::MOVING_AVERAGE.to_owned(),
            display_name: "Moving Average".to_owned(),
            category: NodeCategory::TemporalFilters,
            needs_io: false,
            inputs: vec![
                input(
                    "value",
                    ValueKind::Any,
                    vec![
                        ValueKind::Float,
                        ValueKind::Color,
                        ValueKind::FloatTensor,
                        ValueKind::ColorFrame,
                    ],
                    Some(InputValue::Float(Decimal::new(0, 0))),
                ),
                input(
                    "window_size",
                    ValueKind::Float,
                    vec![],
                    Some(InputValue::Float(Decimal::new(4, 0))),
                ),
            ],
            outputs: vec![
                output(
                    "value",
                    ValueKind::Any,
                    vec![
                        ValueKind::Float,
                        ValueKind::Color,
                        ValueKind::FloatTensor,
                        ValueKind::ColorFrame,
                    ],
                ),
            ],
            parameters: vec![],
            connection: NodeConnectionDefinition {
                max_input_connections: 1,
                require_value_kind_match: true,
            },
            runtime_updates: None,
        },
        rule: InferenceRule::MovingAverage,
    };
    assert(node.shape() =~~= moving_average_shape());
    node
}

/// The shape of the `moving_median` node.
pub open spec fn moving_median_shape() -> NodeShape {
    NodeShape {
        id: NodeTypeId::MOVING_MEDIAN@,
        display_name: "Moving Median"@,
        category: NodeCategory::TemporalFilters,
        needs_io: false,
        rule: InferenceRule::MovingMedian,
        inputs: seq![
            in_port(
                "value"@,
                ValueKind::Any,
                seq![ValueKind::Float, ValueKind::FloatTensor],
                Some(ValueKind::Float),
            ),
            in_port("window_size"@, ValueKind::Float, seq![], Some(ValueKind::Float)),
        ],
        outputs: seq![
            port("value"@, ValueKind::Any, seq![ValueKind::Float, ValueKind::FloatTensor]),
        ],
        parameters: seq![],
        connection: NodeConnectionDefinition {
            max_input_connections: 1,
            require_value_kind_match: true,
        },
        runtime_values: None,
    }
}

fn moving_median_node() -> (node: BuiltinNode)
    ensures
        node.shape() == moving_median_shape(),
{
    let node = BuiltinNode {
        schema: NodeDefinition {
            id: NodeTypeId::MOVING_MEDIAN.to_owned(),
            display_name: "Moving Median".to_owned(),
            category: NodeCategory::TemporalFilters,
            needs_io: false,
            inputs: vec![
                input(
                    "value",
                    ValueKind::Any,
                    vec![ValueKind::Float, ValueKind::FloatTensor],
                    Some(InputValue::Float(Decimal::new(0, 0))),
                ),
                input(
                    "window_size",
                    ValueKind::Float,
                    vec![],
                    Some(InputValue::Float(Decimal::new(4, 0))),
                ),
            ],
            outputs: vec![
                output("value", ValueKind::Any, vec![ValueKind::Float, ValueKind::FloatTensor]),
            ],
            parameters: vec![],
            connection: NodeConnectionDefinition {
                max_input_connections: 1,
                require_value_kind_match: true,
            },
            runtime_updates: None,
        },
        rule: InferenceRule::MovingMedian,
    };
    assert(node.shape() =~~= moving_median_shape());
    node
}

/// The shape of the `box_blur` node.
pub open spec fn box_blur_shape() -> NodeShape {
    NodeShape {
        id: NodeTypeId::BOX_BLUR@,
        display_name: "Box Blur"@,
        category: NodeCategory::SpatialFilters,
        needs_io: false,
        rule: InferenceRule::Declared,
        inputs: seq![
            in_port("frame"@, ValueKind::ColorFrame, seq![], None),
            in_port("radius"@, ValueKind::Float, seq![], Some(ValueKind::Float)),
        ],
        outputs: seq![
            port("frame"@, ValueKind::ColorFrame, seq![]),
        ],
        parameters: seq![],
        connection: NodeConnectionDefinition {
            max_input_connections: 1,
            require_value_kind_match: true,
        },
        runtime_values: None,
    }
}

fn box_blur_node() -> (node: BuiltinNode)
    ensures
        node.shape() == box_blur_shape(),
{
    let node = BuiltinNode {
        schema: NodeDefinition {
            id: NodeTypeId::BOX_BLUR.to_owned(),
            display_name: "Box Blur".to_owned(),
            category: NodeCategory::SpatialFilters,
            needs_io: false,
            inputs: vec![
                input("frame", ValueKind::ColorFrame, vec![], None),
                input(
                    "radius",
                    ValueKind::Float,
                    vec![],
                    Some(InputValue::Float(Decimal::new(1, 0))),
                ),
            ],
            outputs: vec![output("frame", ValueKind::ColorFrame, vec![])],
            parameters: vec![],
            connection: NodeConnectionDefinition {
                max_input_connections: 1,
                require_value_kind_match: true,
            },
            runtime_updates: None,
        },
        rule: InferenceRule::Declared,
    };
    assert(node.shape() =~~= box_blur_shape());
    node
}

/// The shape of the `gaussian_blur` node.
pub open spec fn gaussian_blur_shape() -> NodeShape {
    NodeShape {
        id: NodeTypeId::GAUSSIAN_BLUR@,
        display_name: "Gaussian Blur"@,
        category: NodeCategory::SpatialFilters,
        needs_io: false,
        rule: InferenceRule::Declared,
        inputs: seq![
            in_port("frame"@, ValueKind::ColorFrame, seq![], None),
            in_port("radius"@, ValueKind::Float, seq![], Some(ValueKind::Float)),
        ],
        outputs: seq![
            port("frame"@, ValueKind::ColorFrame, seq![]),
        ],
        parameters: seq![],
        connection: NodeConnectionDefinition {
            max_input_connections: 1,
            require_value_kind_match: true,
        },
        runtime_values: None,
    }
}

fn gaussian_blur_node() -> (node: BuiltinNode)
    ensures
        node.shape() == gaussian_blur_shape(),
{
    let node = BuiltinNode {
        schema: NodeDefinition {
            id: NodeTypeId::GAUSSIAN_BLUR.to_owned(),
            display_name: "Gaussian Blur".to_owned(),
            category: NodeCategory::SpatialFilters,
            needs_io: false,
            inputs: vec![
                input("frame", ValueKind::ColorFrame, vec![], None),
                input(
                    "radius",
                    ValueKind::Float,
                    vec![],
                    Some(InputValue::Float(Decimal::new(2, 0))),
                ),
            ],
            outputs: vec![output("frame", ValueKind::ColorFrame, vec![])],
            parameters: vec![],
            connection: NodeConnectionDefinition {
                max_input_connections: 1,
                require_value_kind_match: true,
            },
            runtime_updates: None,
        },
        rule: InferenceRule::Declared,
    };
    assert(node.shape() =~~= gaussian_blur_shape());
    node
}

/// The shape of the `median_filter` node.
pub open spec fn median_filter_shape() -> NodeShape {
    NodeShape {
        id: NodeTypeId::MEDIAN_FILTER@,
        display_name: "Median Filter"@,
        category: NodeCategory::SpatialFilters,
        needs_io: false,
        rule: InferenceRule::Declared,
        inputs: seq![
            in_port("frame"@, ValueKind::ColorFrame, seq![], None),
            in_port("radius"@, ValueKind::Float, seq![], Some(ValueKind::Float)),
        ],
        outputs: seq![
            port("frame"@, ValueKind::ColorFrame, seq![]),
        ],
        parameters: seq![],
        connection: NodeConnectionDefinition {
            max_input_connections: 1,
            require_value_kind_match: true,
        },
        runtime_values: None,
    }
}

fn median_filter_node() -> (node: BuiltinNode)
    ensures
        node.shape() == median_filter_shape(),
{
    let node = BuiltinNode {
        schema: NodeDefinition {
            id: NodeTypeId::MEDIAN_FILTER.to_owned(),
            display_name: "Median Filter".to_owned(),
            category: NodeCategory::SpatialFilters,
            needs_io: false,
            inputs: vec![
                input("frame", ValueKind::ColorFrame, vec![], None),
                input(
                    "radius",
                    ValueKind::Float,
                    vec![],
                    Some(InputValue::Float(Decimal::new(1, 0))),
                ),
            ],
            outputs: vec![output("frame", ValueKind::ColorFrame, vec![])],
            parameters: vec![],
            connection: NodeConnectionDefinition {
                max_input_connections: 1,
                require_value_kind_match: true,
            },
            runtime_updates: None,
        },
        rule: InferenceRule::Declared,
    };
    assert(node.shape() =~~= median_filter_shape());
    node
}

/// The shape of the `laplacian_filter` node.
pub open spec fn laplacian_filter_shape() -> NodeShape {
    NodeShape {
        id: NodeTypeId::LAPLACIAN_FILTER@,
        display_name: "Laplacian Filter"@,
        category: NodeCategory::SpatialFilters,
        needs_io: false,
        rule: InferenceRule::Laplacian,
        inputs: seq![
            in_port("frame"@, ValueKind::ColorFrame, seq![ValueKind::FloatTensor], None),
        ],
        outputs: seq![
            port("value"@, ValueKind::Any, seq![ValueKind::ColorFrame, ValueKind::FloatTensor]),
        ],
        parameters: seq![
            param(
                "strength"@,
                DefaultView::Float(decimal(1, 0)),
                HintView::DragFloat {
                    speed: decimal(1, -2i32),
                    min: decimal(0, 0),
                    max: decimal(8, 0),
                },
                |parameters: Seq<NodeParameter>| true,
            ),
            param(
                "absolute_value"@,
                DefaultView::Bool(true),
                HintView::Checkbox,
                |parameters: Seq<NodeParameter>| true,
            ),
            param(
                "filter_alpha"@,
                DefaultView::Bool(false),
                HintView::Checkbox,
                |parameters: Seq<NodeParameter>| true,
            ),
        ],
        connection: NodeConnectionDefinition {
            max_input_connections: 1,
            require_value_kind_match: true,
        },
        runtime_values: None,
    }
}

fn laplacian_filter_node() -> (node: BuiltinNode)
    ensures
        node.shape() == laplacian_filter_shape(),
{
    let node = BuiltinNode {
        schema: NodeDefinition {
            id: NodeTypeId::LAPLACIAN_FILTER.to_owned(),
            display_name: "Laplacian Filter".to_owned(),
            category: NodeCategory::SpatialFilters,
            needs_io: false,
            inputs: vec![input("frame", ValueKind::ColorFrame, vec![ValueKind::FloatTensor], None)],
            outputs: vec![
                output(
                    "value",
                    ValueKind::Any,
                    vec![ValueKind::ColorFrame, ValueKind::FloatTensor],
                ),
            ],
            parameters: vec![
                NodeParameterDefinition::new(
                    "strength",
                    title_case_name("strength"),
                    ParameterDefaultValue::Float(Decimal::new(1, 0)),
                    ParameterUiHint::DragFloat {
                        speed: Decimal::new(1, -2),
                        min: Decimal::new(0, 0),
                        max: Decimal::new(8, 0),
                    },
                ),
                NodeParameterDefinition::new(
                    "absolute_value",
                    title_case_name("absolute_value"),
                    ParameterDefaultValue::Bool(true),
                    ParameterUiHint::Checkbox,
                ),
                NodeParameterDefinition::new(
                    "filter_alpha",
                    title_case_name("filter_alpha"),
                    ParameterDefaultValue::Bool(false),
                    ParameterUiHint::Checkbox,
                ),
            ],
            connection: NodeConnectionDefinition {
                max_input_connections: 1,
                require_value_kind_match: true,
            },
            runtime_updates: None,
        },
        rule: InferenceRule::Laplacian,
    };
    assert(node.shape() =~~= laplacian_filter_shape());
    node
}

/// The shape of the `spectrum_analyzer` node.
pub open spec fn spectrum_analyzer_shape() -> NodeShape {
    NodeShape {
        id: NodeTypeId::SPECTRUM_ANALYZER@,
        display_name: "Spectrum Analyzer"@,
        category: NodeCategory::Generators,
        needs_io: false,
        rule: InferenceRule::Declared,
        inputs: seq![
            in_port("spectrum"@, ValueKind::FloatTensor, seq![], Some(ValueKind::FloatTensor)),
        ],
        outputs: seq![
            port("frame"@, ValueKind::ColorFrame, seq![]),
        ],
        parameters: seq![
            param(
                "gradient"@,
                DefaultView::Gradient(default_rainbow_gradient_stops_view()),
                HintView::ColorGradient,
                |parameters: Seq<NodeParameter>| true,
            ),
            param(
                "background"@,
                DefaultView::Color(
                    RgbaColor {
                        r: decimal(2, -2i32),
                        g: decimal(2, -2i32),
                        b: decimal(3, -2i32),
                        a: decimal(1, 0),
                    },
                ),
                HintView::ColorPicker,
                |parameters: Seq<NodeParameter>| true,
            ),
            param(
                "gain"@,
                DefaultView::Float(decimal(1, 0)),
                HintView::DragFloat {
                    speed: decimal(1, -2i32),
                    min: decimal(0, 0),
                    max: decimal(8, 0),
                },
                |parameters: Seq<NodeParameter>| true,
            ),
            param(
                "bar_gap"@,
                DefaultView::Float(decimal(15, -2i32)),
                HintView::DragFloat {
                    speed: decimal(1, -2i32),
                    min: decimal(0, 0),
                    max: decimal(95, -2i32),
                },
                |parameters: Seq<NodeParameter>| true,
            ),
            param(
                "decay"@,
                DefaultView::Float(decimal(8, 0)),
                HintView::DragFloat {
                    speed: decimal(1, -2i32),
                    min: decimal(0, 0),
                    max: decimal(32, 0),
                },
                |parameters: Seq<NodeParameter>| true,
            ),
        ],
        connection: NodeConnectionDefinition {
            max_input_connections: 1,
            require_value_kind_match: true,
        },
        runtime_values: None,
    }
}

fn spectrum_analyzer_node() -> (node: BuiltinNode)
    ensures
        node.shape() == spectrum_analyzer_shape(),
{
    let node = BuiltinNode {
        schema: NodeDefinition {
            id: NodeTypeId::SPECTRUM_ANALYZER.to_owned(),
            display_name: "Spectrum Analyzer".to_owned(),
            category: NodeCategory::Generators,
            needs_io: false,
            inputs: vec![
                input(
                    "spectrum",
                    ValueKind::FloatTensor,
                    vec![],
                    Some(
                        InputValue::FloatTensor(
                            FloatTensor {
                                shape: vec![16],
                                values: vec![Decimal::new(0, 0); 16],
                            },
                        ),
                    ),
                ),
            ],
            outputs: vec![output("frame", ValueKind::ColorFrame, vec![])],
            parameters: vec![
                NodeParameterDefinition::new(
                    "gradient",
                    title_case_name("gradient"),
                    ParameterDefaultValue::Gradient(default_rainbow_gradient_stops()),
                    ParameterUiHint::ColorGradient,
                ),
                NodeParameterDefinition::new(
                    "background",
                    title_case_name("background"),
                    ParameterDefaultValue::Color(
                        RgbaColor {
                            r: Decimal::new(2, -2),
                            g: Decimal::new(2, -2),
                            b: Decimal::new(3, -2),
                            a: Decimal::new(1, 0),
                        },
                    ),
                    ParameterUiHint::ColorPicker,
                ),
                NodeParameterDefinition::new(
                    "gain",
                    title_case_name("gain"),
                    ParameterDefaultValue::Float(Decimal::new(1, 0)),
                    ParameterUiHint::DragFloat {
                        speed: Decimal::new(1, -2),
                        min: Decimal::new(0, 0),
                        max: Decimal::new(8, 0),
                    },
                ),
                NodeParameterDefinition::new(
                    "bar_gap",
                    title_case_name("bar_gap"),
                    ParameterDefaultValue::Float(Decimal::new(15, -2)),
                    ParameterUiHint::DragFloat {
                        speed: Decimal::new(1, -2),
                        min: Decimal::new(0, 0),
                        max: Decimal::new(95, -2),
                    },
                ),
                NodeParameterDefinition::new(
                    "decay",
                    title_case_name("decay"),
                    ParameterDefaultValue::Float(Decimal::new(8, 0)),
                    ParameterUiHint::DragFloat {
                        speed: Decimal::new(1, -2),
                        min: Decimal::new(0, 0),
                        max: Decimal::new(32, 0),
                    },
                ),
            ],
            connection: NodeConnectionDefinition {
                max_input_connections: 1,
                require_value_kind_match: true,
            },
            runtime_updates: None,
        },
        rule: InferenceRule::Declared,
    };
    assert(node.shape() =~~= spectrum_analyzer_shape());
    node
}

/// The shape of the `solid_frame` node.
pub open spec fn solid_frame_shape() -> NodeShape {
    NodeShape {
        id: NodeTypeId::SOLID_FRAME@,
        display_name: "Solid Frame"@,
        category: NodeCategory::Generators,
        needs_io: false,
        rule: InferenceRule::Declared,
        inputs: seq![
            in_port("color"@, ValueKind::Color, seq![], Some(ValueKind::Color)),
        ],
        outputs: seq![
            port("frame"@, ValueKind::ColorFrame, seq![]),
        ],
        parameters: seq![],
        connection: NodeConnectionDefinition {
            max_input_connections: 1,
            require_value_kind_match: true,
        },
        runtime_values: None,
    }
}

fn solid_frame_node() -> (node: BuiltinNode)
    ensures
        node.shape() == solid_frame_shape(),
{
    let node = BuiltinNode {
        schema: NodeDefinition {
            id: NodeTypeId::SOLID_FRAME.to_owned(),
            display_name: "Solid Frame".to_owned(),
            category: NodeCategory::Generators,
            needs_io: false,
            inputs: vec![input("color", ValueKind::Color, vec![], Some(white_input()))],
            outputs: vec![output("frame", ValueKind::ColorFrame, vec![])],
            parameters: vec![],
            connection: NodeConnectionDefinition {
                max_input_connections: 1,
                require_value_kind_match: true,
            },
            runtime_updates: None,
        },
        rule: InferenceRule::Declared,
    };
    assert(node.shape() =~~= solid_frame_shape());
    node
}

/// The shape of the `rainbow_sweep` node.
pub open spec fn rainbow_sweep_shape() -> NodeShape {
    NodeShape {
        id: NodeTypeId::RAINBOW_SWEEP@,
        display_name: "Linear Sweep"@,
        category: NodeCategory::Generators,
        needs_io: false,
        rule: InferenceRule::Declared,
        inputs: seq![
            in_port("speed"@, ValueKind::Float, seq![], Some(ValueKind::Float)),
            in_port("scale"@, ValueKind::Float, seq![], Some(ValueKind::Float)),
            in_port("angle_degrees"@, ValueKind::Float, seq![], Some(ValueKind::Float)),
        ],
        outputs: seq![
            port("frame"@, ValueKind::ColorFrame, seq![]),
        ],
        parameters: seq![
            param(
                "gradient"@,
                DefaultView::Gradient(default_rainbow_gradient_stops_view()),
                HintView::ColorGradient,
                |parameters: Seq<NodeParameter>| true,
            ),
        ],
        connection: NodeConnectionDefinition {
            max_input_connections: 1,
            require_value_kind_match: true,
        },
        runtime_values: None,
    }
}

fn rainbow_sweep_node() -> (node: BuiltinNode)
    ensures
        node.shape() == rainbow_sweep_shape(),
{
    let node = BuiltinNode {
        schema: NodeDefinition {
            id: NodeTypeId::RAINBOW_SWEEP.to_owned(),
            display_name: "Linear Sweep".to_owned(),
            category: NodeCategory::Generators,
            needs_io: false,
            inputs: vec![
                input(
                    "speed",
                    ValueKind::Float,
                    vec![],
                    Some(InputValue::Float(Decimal::new(25, -2))),
                ),
                input(
                    "scale",
                    ValueKind::Float,
                    vec![],
                    Some(InputValue::Float(Decimal::new(1, 0))),
                ),
                input(
                    "angle_degrees",
                    ValueKind::Float,
                    vec![],
                    Some(InputValue::Float(Decimal::new(0, 0))),
                ),
            ],
            outputs: vec![output("frame", ValueKind::ColorFrame, vec![])],
            parameters: vec![
                NodeParameterDefinition::new(
                    "gradient",
                    title_case_name("gradient"),
                    ParameterDefaultValue::Gradient(default_rainbow_gradient_stops()),
                    ParameterUiHint::ColorGradient,
                ),
            ],
            connection: NodeConnectionDefinition {
                max_input_connections: 1,
                require_value_kind_match: true,
            },
            runtime_updates: None,
        },
        rule: InferenceRule::Declared,
    };
    assert(node.shape() =~~= rainbow_sweep_shape());
    node
}

/// The shape of the `circle_sweep` node.
pub open spec fn circle_sweep_shape() -> NodeShape {
    NodeShape {
        id: NodeTypeId::CIRCLE_SWEEP@,
        display_name: "Circle Sweep"@,
        category: NodeCategory::Generators,
        needs_io: false,
        rule: InferenceRule::Declared,
        inputs: seq![
            in_port("speed"@, ValueKind::Float, seq![], Some(ValueKind::Float)),
            in_port("scale"@, ValueKind::Float, seq![], Some(ValueKind::Float)),
            in_port("aspect"@, ValueKind::Float, seq![], Some(ValueKind::Float)),
        ],
        outputs: seq![
            port("frame"@, ValueKind::ColorFrame, seq![]),
        ],
        parameters: seq![
            param(
                "gradient"@,
                DefaultView::Gradient(default_rainbow_gradient_stops_view()),
                HintView::ColorGradient,
                |parameters: Seq<NodeParameter>| true,
            ),
        ],
        connection: NodeConnectionDefinition {
            max_input_connections: 1,
            require_value_kind_match: true,
        },
        runtime_values: None,
    }
}

fn circle_sweep_node() -> (node: BuiltinNode)
    ensures
        node.shape() == circle_sweep_shape(),
{
    let node = BuiltinNode {
        schema: NodeDefinition {
            id: NodeTypeId::CIRCLE_SWEEP.to_owned(),
            display_name: "Circle Sweep".to_owned(),
            category: NodeCategory::Generators,
            needs_io: false,
            inputs: vec![
                input(
                    "speed",
                    ValueKind::Float,
                    vec![],
                    Some(InputValue::Float(Decimal::new(25, -2))),
                ),
                input(
                    "scale",
                    ValueKind::Float,
                    vec![],
                    Some(InputValue::Float(Decimal::new(1, 0))),
                ),
                input(
                    "aspect",
                    ValueKind::Float,
                    vec![],
                    Some(InputValue::Float(Decimal::new(1, 0))),
                ),
            ],
            outputs: vec![output("frame", ValueKind::ColorFrame, vec![])],
            parameters: vec![
                NodeParameterDefinition::new(
                    "gradient",
                    title_case_name("gradient"),
                    ParameterDefaultValue::Gradient(default_rainbow_gradient_stops()),
                    ParameterUiHint::ColorGradient,
                ),
            ],
            connection: NodeConnectionDefinition {
                max_input_connections: 1,
                require_value_kind_match: true,
            },
            runtime_updates: None,
        },
        rule: InferenceRule::Declared,
    };
    assert(node.shape() =~~= circle_sweep_shape());
    node
}

/// The shape of the `level_bar` node.
pub open spec fn level_bar_shape() -> NodeShape {
    NodeShape {
        id: NodeTypeId::LEVEL_BAR@,
        display_name: "Level Bar"@,
        category: NodeCategory::Generators,
        needs_io: false,
        rule: InferenceRule::Declared,
        inputs: seq![
            in_port("loudness"@, ValueKind::Float, seq![], Some(ValueKind::Float)),
        ],
        outputs: seq![
            port("frame"@, ValueKind::ColorFrame, seq![]),
        ],
        parameters: seq![
            param(
                "gradient"@,
                DefaultView::Gradient(default_rainbow_gradient_stops_view()),
                HintView::ColorGradient,
                |parameters: Seq<NodeParameter>| true,
            ),
        ],
        connection: NodeConnectionDefinition {
            max_input_connections: 1,
            require_value_kind_match: true,
        },
        runtime_values: None,
    }
}

fn level_bar_node() -> (node: BuiltinNode)
    ensures
        node.shape() == level_bar_shape(),
{
    let node = BuiltinNode {
        schema: NodeDefinition {
            id: NodeTypeId::LEVEL_BAR.to_owned(),
            display_name: "Level Bar".to_owned(),
            category: NodeCategory::Generators,
            needs_io: false,
            inputs: vec![
                input(
                    "loudness",
                    ValueKind::Float,
                    vec![],
                    Some(InputValue::Float(Decimal::new(0, 0))),
                ),
            ],
            outputs: vec![output("frame", ValueKind::ColorFrame, vec![])],
            parameters: vec![
                NodeParameterDefinition::new(
                    "gradient",
                    title_case_name("gradient"),
                    ParameterDefaultValue::Gradient(default_rainbow_gradient_stops()),
                    ParameterUiHint::ColorGradient,
                ),
            ],
            connection: NodeConnectionDefinition {
                max_input_connections: 1,
                require_value_kind_match: true,
            },
            runtime_updates: None,
        },
        rule: InferenceRule::Declared,
    };
    assert(node.shape() =~~= level_bar_shape());
    node
}

/// The shape of the `twinkle_stars` node.
pub open spec fn twinkle_stars_shape() -> NodeShape {
    NodeShape {
        id: NodeTypeId::TWINKLE_STARS@,
        display_name: "Twinkle Stars"@,
        category: NodeCategory::Generators,
        needs_io: false,
        rule: InferenceRule::Declared,
        inputs: seq![
            in_port("speed"@, ValueKind::Float, seq![], Some(ValueKind::Float)),
            in_port("density"@, ValueKind::Float, seq![], Some(ValueKind::Float)),
            in_port("min_brightness"@, ValueKind::Float, seq![], Some(ValueKind::Float)),
            in_port("max_brightness"@, ValueKind::Float, seq![], Some(ValueKind::Float)),
        ],
        outputs: seq![
            port("frame"@, ValueKind::ColorFrame, seq![]),
        ],
        parameters: seq![
            param(
                "gradient"@,
                DefaultView::Gradient(default_twinkle_gradient_stops_view()),
                HintView::ColorGradient,
                |parameters: Seq<NodeParameter>| true,
            ),
        ],
        connection: NodeConnectionDefinition {
            max_input_connections: 1,
            require_value_kind_match: true,
        },
        runtime_values: None,
    }
}

fn twinkle_stars_node() -> (node: BuiltinNode)
    ensures
        node.shape() == twinkle_stars_shape(),
{
    let node = BuiltinNode {
        schema: NodeDefinition {
            id: NodeTypeId::TWINKLE_STARS.to_owned(),
            display_name: "Twinkle Stars".to_owned(),
            category: NodeCategory::Generators,
            needs_io: false,
            inputs: vec![
                input(
                    "speed",
                    ValueKind::Float,
                    vec![],
                    Some(InputValue::Float(Decimal::new(1, 0))),
                ),
                input(
                    "density",
                    ValueKind::Float,
                    vec![],
                    Some(InputValue::Float(Decimal::new(2, -1))),
                ),
                input(
                    "min_brightness",
                    ValueKind::Float,
                    vec![],
                    Some(InputValue::Float(Decimal::new(3, -2))),
                ),
                input(
                    "max_brightness",
                    ValueKind::Float,
                    vec![],
                    Some(InputValue::Float(Decimal::new(1, 0))),
                ),
            ],
            outputs: vec![output("frame", ValueKind::ColorFrame, vec![])],
            parameters: vec![
                NodeParameterDefinition::new(
                    "gradient",
                    title_case_name("gradient"),
                    ParameterDefaultValue::Gradient(default_twinkle_gradient_stops()),
                    ParameterUiHint::ColorGradient,
                ),
            ],
            connection: NodeConnectionDefinition {
                max_input_connections: 1,
                require_value_kind_match: true,
            },
            runtime_updates: None,
        },
        rule: InferenceRule::Declared,
    };
    assert(node.shape() =~~= twinkle_stars_shape());
    node
}

/// The shape of the `plasma` node.
pub open spec fn plasma_shape() -> NodeShape {
    NodeShape {
        id: NodeTypeId::PLASMA@,
        display_name: "Plasma"@,
        category: NodeCategory::Generators,
        needs_io: false,
        rule: InferenceRule::Declared,
        inputs: seq![
            in_port("speed"@, ValueKind::Float, seq![], Some(ValueKind::Float)),
            in_port("freq_x"@, ValueKind::Float, seq![], Some(ValueKind::Float)),
            in_port("freq_y"@, ValueKind::Float, seq![], Some(ValueKind::Float)),
            in_port("freq_t"@, ValueKind::Float, seq![], Some(ValueKind::Float)),
            in_port("contrast"@, ValueKind::Float, seq![], Some(ValueKind::Float)),
        ],
        outputs: seq![
            port("frame"@, ValueKind::ColorFrame, seq![]),
        ],
        parameters: seq![
            param(
                "gradient"@,
                DefaultView::Gradient(default_plasma_gradient_stops_view()),
                HintView::ColorGradient,
                |parameters: Seq<NodeParameter>| true,
            ),
        ],
        connection: NodeConnectionDefinition {
            max_input_connections: 1,
            require_value_kind_match: true,
        },
        runtime_values: None,
    }
}

fn plasma_node() -> (node: BuiltinNode)
    ensures
        node.shape() == plasma_shape(),
{
    let node = BuiltinNode {
        schema: NodeDefinition {
            id: NodeTypeId::PLASMA.to_owned(),
            display_name: "Plasma".to_owned(),
            category: NodeCategory::Generators,
            needs_io: false,
            inputs: vec![
                input(
                    "speed",
                    ValueKind::Float,
                    vec![],
                    Some(InputValue::Float(Decimal::new(1, 0))),
                ),
                input(
                    "freq_x",
                    ValueKind::Float,
                    vec![],
                    Some(InputValue::Float(Decimal::new(3, 0))),
                ),
                input(
                    "freq_y",
                    ValueKind::Float,
                    vec![],
                    Some(InputValue::Float(Decimal::new(4, 0))),
                ),
                input(
                    "freq_t",
                    ValueKind::Float,
                    vec![],
                    Some(InputValue::Float(Decimal::new(1, 0))),
                ),
                input(
                    "contrast",
                    ValueKind::Float,
                    vec![],
                    Some(InputValue::Float(Decimal::new(1, 0))),
                ),
            ],
            outputs: vec![output("frame", ValueKind::ColorFrame, vec![])],
            parameters: vec![
                NodeParameterDefinition::new(
                    "gradient",
                    title_case_name("gradient"),
                    ParameterDefaultValue::Gradient(default_plasma_gradient_stops()),
                    ParameterUiHint::ColorGradient,
                ),
            ],
            connection: NodeConnectionDefinition {
                max_input_connections: 1,
                require_value_kind_match: true,
            },
            runtime_updates: None,
        },
        rule: InferenceRule::Declared,
    };
    assert(node.shape() =~~= plasma_shape());
    node
}

/// The shape of the `bouncing_balls` node.
pub open spec fn bouncing_balls_shape() -> NodeShape {
    NodeShape {
        id: NodeTypeId::BOUNCING_BALLS@,
        display_name: "Bouncing Balls"@,
        category: NodeCategory::Generators,
        needs_io: false,
        rule: InferenceRule::Declared,
        inputs: seq![
            in_port("speed"@, ValueKind::Float, seq![], Some(ValueKind::Float)),
            in_port("radius"@, ValueKind::Float, seq![], Some(ValueKind::Float)),
        ],
        outputs: seq![
            port("frame"@, ValueKind::ColorFrame, seq![]),
        ],
        parameters: seq![
            param(
                "circle_count"@,
                DefaultView::Integer(6),
                HintView::IntegerDrag { speed: decimal(1, 0), min: 1, max: 64 },
                |parameters: Seq<NodeParameter>| true,
            ),
            param(
                "radius_variance"@,
                DefaultView::Float(decimal(35, -2i32)),
                HintView::DragFloat {
                    speed: decimal(1, -2i32),
                    min: decimal(0, 0),
                    max: decimal(1, 0),
                },
                |parameters: Seq<NodeParameter>| true,
            ),
            param(
                "gradient"@,
                DefaultView::Gradient(default_bouncing_balls_gradient_stops_view()),
                HintView::ColorGradient,
                |parameters: Seq<NodeParameter>| true,
            ),
        ],
        connection: NodeConnectionDefinition {
            max_input_connections: 1,
            require_value_kind_match: true,
        },
        runtime_values: None,
    }
}

fn bouncing_balls_node() -> (node: BuiltinNode)
    ensures
        node.shape() == bouncing_balls_shape(),
{
    let node = BuiltinNode {
        schema: NodeDefinition {
            id: NodeTypeId::BOUNCING_BALLS.to_owned(),
            display_name: "Bouncing Balls".to_owned(),
            category: NodeCategory::Generators,
            needs_io: false,
            inputs: vec![
                input(
                    "speed",
                    ValueKind::Float,
                    vec![],
                    Some(InputValue::Float(Decimal::new(3, -1))),
                ),
                input(
                    "radius",
                    ValueKind::Float,
                    vec![],
                    Some(InputValue::Float(Decimal::new(5, -1))),
                ),
            ],
            outputs: vec![output("frame", ValueKind::ColorFrame, vec![])],
            parameters: vec![
                NodeParameterDefinition::new(
                    "circle_count",
                    title_case_name("circle_count"),
                    ParameterDefaultValue::Integer(6),
                    ParameterUiHint::IntegerDrag { speed: Decimal::new(1, 0), min: 1, max: 64 },
                ),
                NodeParameterDefinition::new(
                    "radius_variance",
                    title_case_name("radius_variance"),
                    ParameterDefaultValue::Float(Decimal::new(35, -2)),
                    ParameterUiHint::DragFloat {
                        speed: Decimal::new(1, -2),
                        min: Decimal::new(0, 0),
                        max: Decimal::new(1, 0),
                    },
                ),
                NodeParameterDefinition::new(
                    "gradient",
                    title_case_name("gradient"),
                    ParameterDefaultValue::Gradient(default_bouncing_balls_gradient_stops()),
                    ParameterUiHint::ColorGradient,
                ),
            ],
            connection: NodeConnectionDefinition {
                max_input_connections: 1,
                require_value_kind_match: true,
            },
            runtime_updates: None,
        },
        rule: InferenceRule::Declared,
    };
    assert(node.shape() =~~= bouncing_balls_shape());
    node
}

/// The shape of the `wled_dummy_display` node.
pub open spec fn wled_dummy_display_shape() -> NodeShape {
    NodeShape {
        id: NodeTypeId::WLED_DUMMY_DISPLAY@,
        display_name: "Wled Dummy Display"@,
        category: NodeCategory::Debug,
        needs_io: false,
        rule: InferenceRule::Declared,
        inputs: seq![
            in_port("value"@, ValueKind::ColorFrame, seq![ValueKind::Color], None),
            in_port("disable"@, ValueKind::Float, seq![], Some(ValueKind::Float)),
        ],
        outputs: seq![],
        parameters: seq![
            param(
                "width"@,
                DefaultView::Integer(8),
                HintView::IntegerDrag { speed: decimal(1, 0), min: 1, max: 256 },
                |parameters: Seq<NodeParameter>| true,
            ),
            param(
                "height"@,
                DefaultView::Integer(8),
                HintView::IntegerDrag { speed: decimal(1, 0), min: 1, max: 256 },
                |parameters: Seq<NodeParameter>| true,
            ),
        ],
        connection: NodeConnectionDefinition {
            max_input_connections: 1,
            require_value_kind_match: true,
        },
        runtime_values: Some(
            (
                true,
                seq![port("frame"@, ValueKind::ColorFrame, seq![ValueKind::Color])],
            ),
        ),
    }
}

fn wled_dummy_display_node() -> (node: BuiltinNode)
    ensures
        node.shape() == wled_dummy_display_shape(),
{
    let node = BuiltinNode {
        schema: NodeDefinition {
            id: NodeTypeId::WLED_DUMMY_DISPLAY.to_owned(),
            display_name: "Wled Dummy Display".to_owned(),
            category: NodeCategory::Debug,
            needs_io: false,
            inputs: vec![
                input("value", ValueKind::ColorFrame, vec![ValueKind::Color], None),
                input(
                    "disable",
                    ValueKind::Float,
                    vec![],
                    Some(InputValue::Float(Decimal::new(0, 0))),
                ),
            ],
            outputs: vec![],
            parameters: vec![
                NodeParameterDefinition::new(
                    "width",
                    title_case_name("width"),
                    ParameterDefaultValue::Integer(8),
                    ParameterUiHint::IntegerDrag {
                        speed: Decimal::new(1, 0),
                        min: 1,
                        max: 256,
                    },
                ),
                NodeParameterDefinition::new(
                    "height",
                    title_case_name("height"),
                    ParameterDefaultValue::Integer(8),
                    ParameterUiHint::IntegerDrag {
                        speed: Decimal::new(1, 0),
                        min: 1,
                        max: 256,
                    },
                ),
            ],
            connection: NodeConnectionDefinition {
                max_input_connections: 1,
                require_value_kind_match: true,
            },
            runtime_updates: Some(
                NodeRuntimeUpdateDefinition {
                    auto_subscribe_in_editor: true,
                    values: vec![runtime_value("frame", ValueKind::ColorFrame, vec![ValueKind::Color])],
                },
            ),
        },
        rule: InferenceRule::Declared,
    };
    assert(node.shape() =~~= wled_dummy_display_shape());
    node
}

/// The shape of the `type_debug` node.
pub open spec fn type_debug_shape() -> NodeShape {
    NodeShape {
        id: NodeTypeId::TYPE_DEBUG@,
        display_name: "Type Debug"@,
        category: NodeCategory::Debug,
        needs_io: false,
        rule: InferenceRule::Declared,
        inputs: seq![
            in_port("value"@, ValueKind::Any, seq![], None),
        ],
        outputs: seq![],
        parameters: seq![],
        connection: NodeConnectionDefinition {
            max_input_connections: 1,
            require_value_kind_match: true,
        },
        runtime_values: Some(
            (
                true,
                seq![port("type"@, ValueKind::String, seq![])],
            ),
        ),
    }
}

fn type_debug_node() -> (node: BuiltinNode)
    ensures
        node.shape() == type_debug_shape(),
{
    let node = BuiltinNode {
        schema: NodeDefinition {
            id: NodeTypeId::TYPE_DEBUG.to_owned(),
            display_name: "Type Debug".to_owned(),
            category: NodeCategory::Debug,
            needs_io: false,
            inputs: vec![input("value", ValueKind::Any, vec![], None)],
            outputs: vec![],
            parameters: vec![],
            connection: NodeConnectionDefinition {
                max_input_connections: 1,
                require_value_kind_match: true,
            },
            runtime_updates: Some(
                NodeRuntimeUpdateDefinition {
                    auto_subscribe_in_editor: true,
                    values: vec![runtime_value("type", ValueKind::String, vec![])],
                },
            ),
        },
        rule: InferenceRule::Declared,
    };
    assert(node.shape() =~~= type_debug_shape());
    node
}

/// The shape of the `frame_brightness` node.
pub open spec fn frame_brightness_shape() -> NodeShape {
    NodeShape {
        id: NodeTypeId::FRAME_BRIGHTNESS@,
        display_name: "Frame Brightness"@,
        category: NodeCategory::FrameOperations,
        needs_io: false,
        rule: InferenceRule::Declared,
        inputs: seq![
            in_port("frame"@, ValueKind::ColorFrame, seq![], None),
            in_port("factor"@, ValueKind::Float, seq![], Some(ValueKind::Float)),
        ],
        outputs: seq![
            port("frame"@, ValueKind::ColorFrame, seq![]),
        ],
        parameters: seq![],
        connection: NodeConnectionDefinition {
            max_input_connections: 1,
            require_value_kind_match: true,
        },
        runtime_values: None,
    }
}

fn frame_brightness_node() -> (node: BuiltinNode)
    ensures
        node.shape() == frame_brightness_shape(),
{
    let node = BuiltinNode {
        schema: NodeDefinition {
            id: NodeTypeId::FRAME_BRIGHTNESS.to_owned(),
            display_name: "Frame Brightness".to_owned(),
            category: NodeCategory::FrameOperations,
            needs_io: false,
            inputs: vec![
                input("frame", ValueKind::ColorFrame, vec![], None),
                input(
                    "factor",
                    ValueKind::Float,
                    vec![],
                    Some(InputValue::Float(Decimal::new(1, 0))),
                ),
            ],
            outputs: vec![output("frame", ValueKind::ColorFrame, vec![])],
            parameters: vec![],
            connection: NodeConnectionDefinition {
                max_input_connections: 1,
                require_value_kind_match: true,
            },
            runtime_updates: None,
        },
        rule: InferenceRule::Declared,
    };
    assert(node.shape() =~~= frame_brightness_shape());
    node
}

/// The number of built-in node types.
pub const BUILTIN_NODE_COUNT: usize = 55;

/// The shape of the `k`-th built-in node type, in catalog order.
pub open spec fn builtin_shape_at(k: int) -> NodeShape {
    if k == 0 {
        float_constant_shape()
    } else if k == 1 {
        color_constant_shape()
    } else if k == 2 {
        image_source_shape()
    } else if k == 3 {
        display_shape()
    } else if k == 4 {
        plot_shape()
    } else if k == 5 {
        delay_shape()
    } else if k == 6 {
        differentiate_shape()
    } else if k == 7 {
        wled_target_shape()
    } else if k == 8 {
        wled_sink_shape()
    } else if k == 9 {
        audio_fft_receiver_shape()
    } else if k == 10 {
        ha_mqtt_number_shape()
    } else if k == 11 {
        binary_select_shape()
    } else if k == 12 {
        add_shape()
    } else if k == 13 {
        subtract_shape()
    } else if k == 14 {
        signal_generator_shape()
    } else if k == 15 {
        divide_float_shape()
    } else if k == 16 {
        min_max_float_shape()
    } else if k == 17 {
        multiply_shape()
    } else if k == 18 {
        abs_float_shape()
    } else if k == 19 {
        clamp_shape()
    } else if k == 20 {
        power_float_shape()
    } else if k == 21 {
        root_float_shape()
    } else if k == 22 {
        exponential_float_shape()
    } else if k == 23 {
        log_float_shape()
    } else if k == 24 {
        map_range_float_shape()
    } else if k == 25 {
        round_float_shape()
    } else if k == 26 {
        scale_tensor_shape()
    } else if k == 27 {
        scale_color_shape()
    } else if k == 28 {
        multiply_color_shape()
    } else if k == 29 {
        tint_frame_shape()
    } else if k == 30 {
        extract_channels_shape()
    } else if k == 31 {
        set_channel_shape()
    } else if k == 32 {
        colorize_shape()
    } else if k == 33 {
        mask_frame_shape()
    } else if k == 34 {
        mix_color_shape()
    } else if k == 35 {
        alpha_over_shape()
    } else if k == 36 {
        fade_shape()
    } else if k == 37 {
        integrate_shape()
    } else if k == 38 {
        moving_average_shape()
    } else if k == 39 {
        moving_median_shape()
    } else if k == 40 {
        box_blur_shape()
    } else if k == 41 {
        gaussian_blur_shape()
    } else if k == 42 {
        median_filter_shape()
    } else if k == 43 {
        laplacian_filter_shape()
    } else if k == 44 {
        spectrum_analyzer_shape()
    } else if k == 45 {
        solid_frame_shape()
    } else if k == 46 {
        rainbow_sweep_shape()
    } else if k == 47 {
        circle_sweep_shape()
    } else if k == 48 {
        level_bar_shape()
    } else if k == 49 {
        twinkle_stars_shape()
    } else if k == 50 {
        plasma_shape()
    } else if k == 51 {
        bouncing_balls_shape()
    } else if k == 52 {
        wled_dummy_display_shape()
    } else if k == 53 {
        type_debug_shape()
    } else {
        frame_brightness_shape()
    }
}

/// The id of the `k`-th built-in node type, in catalog order.
pub open spec fn builtin_id(k: int) -> Seq<char> {
    builtin_shape_at(k).id
}

fn builtin_id_text(k: usize) -> (id: &'static str)
    requires
        k < BUILTIN_NODE_COUNT,
    ensures
        id@ == builtin_id(k as int),
{
    match k {
        0 => NodeTypeId::FLOAT_CONSTANT,
        1 => NodeTypeId::COLOR_CONSTANT,
        2 => NodeTypeId::IMAGE_SOURCE,
        3 => NodeTypeId::DISPLAY,
        4 => NodeTypeId::PLOT,
        5 => NodeTypeId::DELAY,
        6 => NodeTypeId::DIFFERENTIATE,
        7 => NodeTypeId::WLED_TARGET,
        8 => NodeTypeId::WLED_SINK,
        9 => NodeTypeId::AUDIO_FFT_RECEIVER,
        10 => NodeTypeId::HA_MQTT_NUMBER,
        11 => NodeTypeId::BINARY_SELECT,
        12 => NodeTypeId::ADD,
        13 => NodeTypeId::SUBTRACT,
        14 => NodeTypeId::SIGNAL_GENERATOR,
        15 => NodeTypeId::DIVIDE,
        16 => NodeTypeId::MIN_MAX,
        17 => NodeTypeId::MULTIPLY,
        18 => NodeTypeId::ABS,
        19 => NodeTypeId::CLAMP,
        20 => NodeTypeId::POWER,
        21 => NodeTypeId::ROOT,
        22 => NodeTypeId::EXPONENTIAL,
        23 => NodeTypeId::LOG,
        24 => NodeTypeId::MAP_RANGE,
        25 => NodeTypeId::ROUND,
        26 => NodeTypeId::SCALE_TENSOR,
        27 => NodeTypeId::SCALE_COLOR,
        28 => NodeTypeId::MULTIPLY_COLOR,
        29 => NodeTypeId::TINT_FRAME,
        30 => NodeTypeId::EXTRACT_CHANNELS,
        31 => NodeTypeId::SET_CHANNEL,
        32 => NodeTypeId::COLORIZE,
        33 => NodeTypeId::MASK_FRAME,
        34 => NodeTypeId::MIX_COLOR,
        35 => NodeTypeId::ALPHA_OVER,
        36 => NodeTypeId::FADE,
        37 => NodeTypeId::INTEGRATE,
        38 => NodeTypeId::MOVING_AVERAGE,
        39 => NodeTypeId::MOVING_MEDIAN,
        40 => NodeTypeId::BOX_BLUR,
        41 => NodeTypeId::GAUSSIAN_BLUR,
        42 => NodeTypeId::MEDIAN_FILTER,
        43 => NodeTypeId::LAPLACIAN_FILTER,
        44 => NodeTypeId::SPECTRUM_ANALYZER,
        45 => NodeTypeId::SOLID_FRAME,
        46 => NodeTypeId::RAINBOW_SWEEP,
        47 => NodeTypeId::CIRCLE_SWEEP,
        48 => NodeTypeId::LEVEL_BAR,
        49 => NodeTypeId::TWINKLE_STARS,
        50 => NodeTypeId::PLASMA,
        51 => NodeTypeId::BOUNCING_BALLS,
        52 => NodeTypeId::WLED_DUMMY_DISPLAY,
        53 => NodeTypeId::TYPE_DEBUG,
        _ => NodeTypeId::FRAME_BRIGHTNESS,
    }
}

fn builtin_node(k: usize) -> (node: BuiltinNode)
    requires
        k < BUILTIN_NODE_COUNT,
    ensures
        node.shape() == builtin_shape_at(k as int),
{
    match k {
        0 => float_constant_node(),
        1 => color_constant_node(),
        2 => image_source_node(),
        3 => display_node(),
        4 => plot_node(),
        5 => delay_node(),
        6 => differentiate_node(),
        7 => wled_target_node(),
        8 => wled_sink_node(),
        9 => audio_fft_receiver_node(),
        10 => ha_mqtt_number_node(),
        11 => binary_select_node(),
        12 => add_node(),
        13 => subtract_node(),
        14 => signal_generator_node(),
        15 => divide_float_node(),
        16 => min_max_float_node(),
        17 => multiply_node(),
        18 => abs_float_node(),
        19 => clamp_node(),
        20 => power_float_node(),
        21 => root_float_node(),
        22 => exponential_float_node(),
        23 => log_float_node(),
        24 => map_range_float_node(),
        25 => round_float_node(),
        26 => scale_tensor_node(),
        27 => scale_color_node(),
        28 => multiply_color_node(),
        29 => tint_frame_node(),
        30 => extract_channels_node(),
        31 => set_channel_node(),
        32 => colorize_node(),
        33 => mask_frame_node(),
        34 => mix_color_node(),
        35 => alpha_over_node(),
        36 => fade_node(),
        37 => integrate_node(),
        38 => moving_average_node(),
        39 => moving_median_node(),
        40 => box_blur_node(),
        41 => gaussian_blur_node(),
        42 => median_filter_node(),
        43 => laplacian_filter_node(),
        44 => spectrum_analyzer_node(),
        45 => solid_frame_node(),
        46 => rainbow_sweep_node(),
        47 => circle_sweep_node(),
        48 => level_bar_node(),
        49 => twinkle_stars_node(),
        50 => plasma_node(),
        51 => bouncing_balls_node(),
        52 => wled_dummy_display_node(),
        53 => type_debug_node(),
        _ => frame_brightness_node(),
    }
}

/// The ids of all built-in node types, in catalog order.
pub open spec fn builtin_ids() -> Seq<Seq<char>> {
    Seq::new(BUILTIN_NODE_COUNT as nat, |k: int| builtin_id(k))
}

/// Whether a schema describes the given node shape: same id, label, category and I/O need, same
/// ports and parameters in order, same connection rules and runtime values.
pub open spec fn schema_has_shape(schema: NodeDefinition, shape: NodeShape) -> bool {
    &&& schema.id@ == shape.id
    &&& schema.display_name@ == shape.display_name
    &&& schema.category == shape.category
    &&& schema.needs_io == shape.needs_io
    &&& input_shapes(schema.inputs@) == shape.inputs
    &&& output_shapes(schema.outputs@) == shape.outputs
    &&& parameter_shapes(schema.parameters@) == shape.parameters
    &&& schema.connection == shape.connection
    &&& runtime_shapes(schema.runtime_updates) == shape.runtime_values
}

/// The catalog entry that a lookup of `node_type_id` finds: the first one with that id.
pub open spec fn catalog_lookup(node_type_id: Seq<char>) -> Option<NodeShape> {
    match first_position(builtin_ids(), node_type_id) {
        Some(k) => Some(builtin_shape_at(k)),
        None => None,
    }
}

/// Returns the full shared schema catalog for all node types, in catalog order.
///
/// Each call builds a fresh vector, so callers can freely sort or modify their copy.
pub fn node_definitions() -> (definitions: Vec<NodeDefinition>)
    ensures
        definitions@.len() == BUILTIN_NODE_COUNT,
        forall|k: int|
            0 <= k < BUILTIN_NODE_COUNT ==> schema_has_shape(
                #[trigger] definitions@[k],
                builtin_shape_at(k),
            ),
{
    let mut definitions: Vec<NodeDefinition> = Vec::new();
    let mut k: usize = 0;
    while k < BUILTIN_NODE_COUNT
        invariant
            k <= BUILTIN_NODE_COUNT,
            definitions@.len() == k,
            forall|j: int| 0 <= j < k ==> schema_has_shape(#[trigger] definitions@[j], builtin_shape_at(j)),
        decreases BUILTIN_NODE_COUNT - k,
    {
        let node = builtin_node(k);
        definitions.push(node.schema);
        k = k + 1;
    }
    definitions
}

/// Looks up the built-in node type with the given id, with its inference behaviour.
pub fn node_definition_impl(node_type_id: &str) -> (node: Option<BuiltinNode>)
    ensures
        match catalog_lookup(node_type_id@) {
            Some(shape) => node matches Some(n) && n.shape() == shape,
            None => node is None,
        },
{
    let ghost ids = builtin_ids();
    let mut k: usize = 0;
    while k < BUILTIN_NODE_COUNT
        invariant
            k <= BUILTIN_NODE_COUNT,
            ids == builtin_ids(),
            forall|j: int| 0 <= j < k ==> ids[j] != node_type_id@,
        decreases BUILTIN_NODE_COUNT - k,
    {
        if str_equal(builtin_id_text(k), node_type_id) {
            proof {
                lemma_first_position(ids, node_type_id@, k as int);
            }
            return Some(builtin_node(k));
        }
        k = k + 1;
    }
    proof {
        lemma_no_position(ids, node_type_id@);
    }
    None
}

/// Returns the node definition for the requested node type identifier, if it exists.
pub fn node_definition(node_type_id: &str) -> (definition: Option<NodeDefinition>)
    ensures
        match catalog_lookup(node_type_id@) {
            Some(shape) => definition matches Some(d) && schema_has_shape(d, shape),
            None => definition is None,
        },
{
    match node_definition_impl(node_type_id) {
        Some(node) => Some(node.schema),
        None => None,
    }
}

/// A lookup by id finds exactly the catalog entry that `node_definitions` lists first under that
/// id, and finds nothing for an id that the catalog does not list.
pub proof fn lemma_lookup_agrees_with_catalog(node_type_id: Seq<char>, k: int)
    requires
        0 <= k < BUILTIN_NODE_COUNT,
        builtin_id(k) == node_type_id,
        forall|j: int| 0 <= j < k ==> builtin_id(j) != node_type_id,
    ensures
        catalog_lookup(node_type_id) == Some(builtin_shape_at(k)),
{
    assert(first_match(builtin_ids(), node_type_id, k));
    lemma_first_position(builtin_ids(), node_type_id, k);
}

/// An id that no catalog entry carries is not found.
pub proof fn lemma_lookup_misses_unknown_ids(node_type_id: Seq<char>)
    requires
        forall|j: int| 0 <= j < BUILTIN_NODE_COUNT ==> builtin_id(j) != node_type_id,
    ensures
        catalog_lookup(node_type_id) is None,
{
    assert forall|j: int| 0 <= j < builtin_ids().len() implies builtin_ids()[j] != node_type_id by {}
    lemma_no_position(builtin_ids(), node_type_id);
}

proof fn lemma_catalog_id_0_distinct()
    ensures
        forall|j: int| 0 < j < BUILTIN_NODE_COUNT ==> builtin_id(0) != #[trigger] builtin_id(j),
{
    reveal_strlit("inputs.float_constant");
    assert(builtin_id(0) == NodeTypeId::FLOAT_CONSTANT@);
    assert forall|j: int| 0 < j < BUILTIN_NODE_COUNT implies builtin_id(0) != #[trigger] builtin_id(j) by {
        if j == 1 {
            reveal_strlit("inputs.color_constant");
            assert(builtin_id(1) == NodeTypeId::COLOR_CONSTANT@);
            assert(NodeTypeId::FLOAT_CONSTANT@[7] != NodeTypeId::COLOR_CONSTANT@[7]);
        } else if j == 2 {
            reveal_strlit("inputs.image_source");
            assert(builtin_id(2) == NodeTypeId::IMAGE_SOURCE@);
            assert(NodeTypeId::FLOAT_CONSTANT@.len() != NodeTypeId::IMAGE_SOURCE@.len());
        } else if j == 3 {
            reveal_strlit("outputs.display");
            assert(builtin_id(3) == NodeTypeId::DISPLAY@);
            assert(NodeTypeId::FLOAT_CONSTANT@.len() != NodeTypeId::DISPLAY@.len());
        } else if j == 4 {
            reveal_strlit("outputs.plot");
            assert(builtin_id(4) == NodeTypeId::PLOT@);
            assert(NodeTypeId::FLOAT_CONSTANT@.len() != NodeTypeId::PLOT@.len());
        } else if j == 5 {
            reveal_strlit("temporal_filters.delay");
            assert(builtin_id(5) == NodeTypeId::DELAY@);
            assert(NodeTypeId::FLOAT_CONSTANT@.len() != NodeTypeId::DELAY@.len());
        } else if j == 6 {
            reveal_strlit("temporal_filters.differentiate");
            assert(builtin_id(6) == NodeTypeId::DIFFERENTIATE@);
            assert(NodeTypeId::FLOAT_CONSTANT@.len() != NodeTypeId::DIFFERENTIATE@.len());
        } else if j == 7 {
            reveal_strlit("outputs.wled_target");
            assert(builtin_id(7) == NodeTypeId::WLED_TARGET@);
            assert(NodeTypeId::FLOAT_CONSTANT@.len() != NodeTypeId::WLED_TARGET@.len());
        } else if j == 8 {
            reveal_strlit("inputs.wled_sink");
            assert(builtin_id(8) == NodeTypeId::WLED_SINK@);
            assert(NodeTypeId::FLOAT_CONSTANT@.len() != NodeTypeId::WLED_SINK@.len());
        } else if j == 9 {
            reveal_strlit("inputs.audio_fft_receiver");
            assert(builtin_id(9) == NodeTypeId::AUDIO_FFT_RECEIVER@);
            assert(NodeTypeId::FLOAT_CONSTANT@.len() != NodeTypeId::AUDIO_FFT_RECEIVER@.len());
        } else if j == 10 {
            reveal_strlit("inputs.ha_mqtt_number");
            assert(builtin_id(10) == NodeTypeId::HA_MQTT_NUMBER@);
            assert(NodeTypeId::FLOAT_CONSTANT@[7] != NodeTypeId::HA_MQTT_NUMBER@[7]);
        } else if j == 11 {
            reveal_strlit("math.binary_select");
            assert(builtin_id(11) == NodeTypeId::BINARY_SELECT@);
            assert(NodeTypeId::FLOAT_CONSTANT@.len() != NodeTypeId::BINARY_SELECT@.len());
        } else if j == 12 {
            reveal_strlit("math.add_float");
            assert(builtin_id(12) == NodeTypeId::ADD@);
            assert(NodeTypeId::FLOAT_CONSTANT@.len() != NodeTypeId::ADD@.len());
        } else if j == 13 {
            reveal_strlit("math.subtract_float");
            assert(builtin_id(13) == NodeTypeId::SUBTRACT@);
            assert(NodeTypeId::FLOAT_CONSTANT@.len() != NodeTypeId::SUBTRACT@.len());
        } else if j == 14 {
            reveal_strlit("inputs.signal_generator");
            assert(builtin_id(14) == NodeTypeId::SIGNAL_GENERATOR@);
            assert(NodeTypeId::FLOAT_CONSTANT@.len() != NodeTypeId::SIGNAL_GENERATOR@.len());
        } else if j == 15 {
            reveal_strlit("math.divide_float");
            assert(builtin_id(15) == NodeTypeId::DIVIDE@);
            assert(NodeTypeId::FLOAT_CONSTANT@.len() != NodeTypeId::DIVIDE@.len());
        } else if j == 16 {
            reveal_strlit("math.min_max_float");
            assert(builtin_id(16) == NodeTypeId::MIN_MAX@);
            assert(NodeTypeId::FLOAT_CONSTANT@.len() != NodeTypeId::MIN_MAX@.len());
        } else if j == 17 {
            reveal_strlit("math.multiply_float");
            assert(builtin_id(17) == NodeTypeId::MULTIPLY@);
            assert(NodeTypeId::FLOAT_CONSTANT@.len() != NodeTypeId::MULTIPLY@.len());
        } else if j == 18 {
            reveal_strlit("math.abs_float");
            assert(builtin_id(18) == NodeTypeId::ABS@);
            assert(NodeTypeId::FLOAT_CONSTANT@.len() != NodeTypeId::ABS@.len());
        } else if j == 19 {
            reveal_strlit("math.clamp_float");
            assert(builtin_id(19) == NodeTypeId::CLAMP@);
            assert(NodeTypeId::FLOAT_CONSTANT@.len() != NodeTypeId::CLAMP@.len());
        } else if j == 20 {
            reveal_strlit("math.power_float");
            assert(builtin_id(20) == NodeTypeId::POWER@);
            assert(NodeTypeId::FLOAT_CONSTANT@.len() != NodeTypeId::POWER@.len());
        } else if j == 21 {
            reveal_strlit("math.root_float");
            assert(builtin_id(21) == NodeTypeId::ROOT@);
            assert(NodeTypeId::FLOAT_CONSTANT@.len() != NodeTypeId::ROOT@.len());
        } else if j == 22 {
            reveal_strlit("math.exponential_float");
            assert(builtin_id(22) == NodeTypeId::EXPONENTIAL@);
            assert(NodeTypeId::FLOAT_CONSTANT@.len() != NodeTypeId::EXPONENTIAL@.len());
        } else if j == 23 {
            reveal_strlit("math.log_float");
            assert(builtin_id(23) == NodeTypeId::LOG@);
            assert(NodeTypeId::FLOAT_CONSTANT@.len() != NodeTypeId::LOG@.len());
        } else if j == 24 {
            reveal_strlit("math.map_range_float");
            assert(builtin_id(24) == NodeTypeId::MAP_RANGE@);
            assert(NodeTypeId::FLOAT_CONSTANT@.len() != NodeTypeId::MAP_RANGE@.len());
        } else if j == 25 {
            reveal_strlit("math.round_float");
            assert(builtin_id(25) == NodeTypeId::ROUND@);
            assert(NodeTypeId::FLOAT_CONSTANT@.len() != NodeTypeId::ROUND@.len());
        } else if j == 26 {
            reveal_strlit("math.scale_tensor");
            assert(builtin_id(26) == NodeTypeId::SCALE_TENSOR@);
            assert(NodeTypeId::FLOAT_CONSTANT@.len() != NodeTypeId::SCALE_TENSOR@.len());
        } else if j == 27 {
            reveal_strlit("frame_operations.scale");
            assert(builtin_id(27) == NodeTypeId::SCALE_COLOR@);
            assert(NodeTypeId::FLOAT_CONSTANT@.len() != NodeTypeId::SCALE_COLOR@.len());
        } else if j == 28 {
            reveal_strlit("frame_operations.multiply");
            assert(builtin_id(28) == NodeTypeId::MULTIPLY_COLOR@);
            assert(NodeTypeId::FLOAT_CONSTANT@.len() != NodeTypeId::MULTIPLY_COLOR@.len());
        } else if j == 29 {
            reveal_strlit("frame_operations.tint_frame");
            assert(builtin_id(29) == NodeTypeId::TINT_FRAME@);
            assert(NodeTypeId::FLOAT_CONSTANT@.len() != NodeTypeId::TINT_FRAME@.len());
        } else if j == 30 {
            reveal_strlit("frame_operations.extract_channels");
            assert(builtin_id(30) == NodeTypeId::EXTRACT_CHANNELS@);
            assert(NodeTypeId::FLOAT_CONSTANT@.len() != NodeTypeId::EXTRACT_CHANNELS@.len());
        } else if j == 31 {
            reveal_strlit("frame_operations.set_channel");
            assert(builtin_id(31) == NodeTypeId::SET_CHANNEL@);
            assert(NodeTypeId::FLOAT_CONSTANT@.len() != NodeTypeId::SET_CHANNEL@.len());
        } else if j == 32 {
            reveal_strlit("frame_operations.colorize");
            assert(builtin_id(32) == NodeTypeId::COLORIZE@);
            assert(NodeTypeId::FLOAT_CONSTANT@.len() != NodeTypeId::COLORIZE@.len());
        } else if j == 33 {
            reveal_strlit("frame_operations.mask_frame");
            assert(builtin_id(33) == NodeTypeId::MASK_FRAME@);
            assert(NodeTypeId::FLOAT_CONSTANT@.len() != NodeTypeId::MASK_FRAME@.len());
        } else if j == 34 {
            reveal_strlit("frame_operations.mix");
            assert(builtin_id(34) == NodeTypeId::MIX_COLOR@);
            assert(NodeTypeId::FLOAT_CONSTANT@.len() != NodeTypeId::MIX_COLOR@.len());
        } else if j == 35 {
            reveal_strlit("frame_operations.alpha_over");
            assert(builtin_id(35) == NodeTypeId::ALPHA_OVER@);
            assert(NodeTypeId::FLOAT_CONSTANT@.len() != NodeTypeId::ALPHA_OVER@.len());
        } else if j == 36 {
            reveal_strlit("temporal_filters.fade");
            assert(builtin_id(36) == NodeTypeId::FADE@);
            assert(NodeTypeId::FLOAT_CONSTANT@[0] != NodeTypeId::FADE@[0]);
        } else if j == 37 {
            reveal_strlit("temporal_filters.integrate");
            assert(builtin_id(37) == NodeTypeId::INTEGRATE@);
            assert(NodeTypeId::FLOAT_CONSTANT@.len() != NodeTypeId::INTEGRATE@.len());
        } else if j == 38 {
            reveal_strlit("temporal_filters.moving_average");
            assert(builtin_id(38) == NodeTypeId::MOVING_AVERAGE@);
            assert(NodeTypeId::FLOAT_CONSTANT@.len() != NodeTypeId::MOVING_AVERAGE@.len());
        } else if j == 39 {
            reveal_strlit("temporal_filters.moving_median");
            assert(builtin_id(39) == NodeTypeId::MOVING_MEDIAN@);
            assert(NodeTypeId::FLOAT_CONSTANT@.len() != NodeTypeId::MOVING_MEDIAN@.len());
        } else if j == 40 {
            reveal_strlit("spatial_filters.box_blur");
            assert(builtin_id(40) == NodeTypeId::BOX_BLUR@);
            assert(NodeTypeId::FLOAT_CONSTANT@.len() != NodeTypeId::BOX_BLUR@.len());
        } else if j == 41 {
            reveal_strlit("spatial_filters.gaussian_blur");
            assert(builtin_id(41) == NodeTypeId::GAUSSIAN_BLUR@);
            assert(NodeTypeId::FLOAT_CONSTANT@.len() != NodeTypeId::GAUSSIAN_BLUR@.len());
        } else if j == 42 {
            reveal_strlit("spatial_filters.median_filter");
            assert(builtin_id(42) == NodeTypeId::MEDIAN_FILTER@);
            assert(NodeTypeId::FLOAT_CONSTANT@.len() != NodeTypeId::MEDIAN_FILTER@.len());
        } else if j == 43 {
            reveal_strlit("spatial_filters.laplacian_filter");
            assert(builtin_id(43) == NodeTypeId::LAPLACIAN_FILTER@);
            assert(NodeTypeId::FLOAT_CONSTANT@.len() != NodeTypeId::LAPLACIAN_FILTER@.len());
        } else if j == 44 {
            reveal_strlit("generators.spectrum_analyzer");
            assert(builtin_id(44) == NodeTypeId::SPECTRUM_ANALYZER@);
            assert(NodeTypeId::FLOAT_CONSTANT@.len() != NodeTypeId::SPECTRUM_ANALYZER@.len());
        } else if j == 45 {
            reveal_strlit("generators.solid_frame");
            assert(builtin_id(45) == NodeTypeId::SOLID_FRAME@);
            assert(NodeTypeId::FLOAT_CONSTANT@.len() != NodeTypeId::SOLID_FRAME@.len());
        } else if j == 46 {
            reveal_strlit("generators.rainbow_sweep");
            assert(builtin_id(46) == NodeTypeId::RAINBOW_SWEEP@);
            assert(NodeTypeId::FLOAT_CONSTANT@.len() != NodeTypeId::RAINBOW_SWEEP@.len());
        } else if j == 47 {
            reveal_strlit("generators.circle_sweep");
            assert(builtin_id(47) == NodeTypeId::CIRCLE_SWEEP@);
            assert(NodeTypeId::FLOAT_CONSTANT@.len() != NodeTypeId::CIRCLE_SWEEP@.len());
        } else if j == 48 {
            reveal_strlit("generators.level_bar");
            assert(builtin_id(48) == NodeTypeId::LEVEL_BAR@);
            assert(NodeTypeId::FLOAT_CONSTANT@.len() != NodeTypeId::LEVEL_BAR@.len());
        } else if j == 49 {
            reveal_strlit("generators.twinkle_stars");
            assert(builtin_id(49) == NodeTypeId::TWINKLE_STARS@);
            assert(NodeTypeId::FLOAT_CONSTANT@.len() != NodeTypeId::TWINKLE_STARS@.len());
        } else if j == 50 {
            reveal_strlit("generators.plasma");
            assert(builtin_id(50) == NodeTypeId::PLASMA@);
            assert(NodeTypeId::FLOAT_CONSTANT@.len() != NodeTypeId::PLASMA@.len());
        } else if j == 51 {
            reveal_strlit("generators.bouncing_balls");
            assert(builtin_id(51) == NodeTypeId::BOUNCING_BALLS@);
            assert(NodeTypeId::FLOAT_CONSTANT@.len() != NodeTypeId::BOUNCING_BALLS@.len());
        } else if j == 52 {
            reveal_strlit("debug.wled_dummy_display");
            assert(builtin_id(52) == NodeTypeId::WLED_DUMMY_DISPLAY@);
            assert(NodeTypeId::FLOAT_CONSTANT@.len() != NodeTypeId::WLED_DUMMY_DISPLAY@.len());
        } else if j == 53 {
            reveal_strlit("debug.type_debug");
            assert(builtin_id(53) == NodeTypeId::TYPE_DEBUG@);
            assert(NodeTypeId::FLOAT_CONSTANT@.len() != NodeTypeId::TYPE_DEBUG@.len());
        } else if j == 54 {
            reveal_strlit("frame_operations.frame_brightness");
            assert(builtin_id(54) == NodeTypeId::FRAME_BRIGHTNESS@);
            assert(NodeTypeId::FLOAT_CONSTANT@.len() != NodeTypeId::FRAME_BRIGHTNESS@.len());
        }
    }
}

proof fn lemma_catalog_id_1_distinct()
    ensures
        forall|j: int| 1 < j < BUILTIN_NODE_COUNT ==> builtin_id(1) != #[trigger] builtin_id(j),
{
    reveal_strlit("inputs.color_constant");
    assert(builtin_id(1) == NodeTypeId::COLOR_CONSTANT@);
    assert forall|j: int| 1 < j < BUILTIN_NODE_COUNT implies builtin_id(1) != #[trigger] builtin_id(j) by {
        if j == 2 {
            reveal_strlit("inputs.image_source");
            assert(builtin_id(2) == NodeTypeId::IMAGE_SOURCE@);
            assert(NodeTypeId::COLOR_CONSTANT@.len() != NodeTypeId::IMAGE_SOURCE@.len());
        } else if j == 3 {
            reveal_strlit("outputs.display");
            assert(builtin_id(3) == NodeTypeId::DISPLAY@);
            assert(NodeTypeId::COLOR_CONSTANT@.len() != NodeTypeId::DISPLAY@.len());
        } else if j == 4 {
            reveal_strlit("outputs.plot");
            assert(builtin_id(4) == NodeTypeId::PLOT@);
            assert(NodeTypeId::COLOR_CONSTANT@.len() != NodeTypeId::PLOT@.len());
        } else if j == 5 {
            reveal_strlit("temporal_filters.delay");
            assert(builtin_id(5) == NodeTypeId::DELAY@);
            assert(NodeTypeId::COLOR_CONSTANT@.len() != NodeTypeId::DELAY@.len());
        } else if j == 6 {
            reveal_strlit("temporal_filters.differentiate");
            assert(builtin_id(6) == NodeTypeId::DIFFERENTIATE@);
            assert(NodeTypeId::COLOR_CONSTANT@.len() != NodeTypeId::DIFFERENTIATE@.len());
        } else if j == 7 {
            reveal_strlit("outputs.wled_target");
            assert(builtin_id(7) == NodeTypeId::WLED_TARGET@);
            assert(NodeTypeId::COLOR_CONSTANT@.len() != NodeTypeId::WLED_TARGET@.len());
        } else if j == 8 {
            reveal_strlit("inputs.wled_sink");
            assert(builtin_id(8) == NodeTypeId::WLED_SINK@);
            assert(NodeTypeId::COLOR_CONSTANT@.len() != NodeTypeId::WLED_SINK@.len());
        } else if j == 9 {
            reveal_strlit("inputs.audio_fft_receiver");
            assert(builtin_id(9) == NodeTypeId::AUDIO_FFT_RECEIVER@);
            assert(NodeTypeId::COLOR_CONSTANT@.len() != NodeTypeId::AUDIO_FFT_RECEIVER@.len());
        } else if j == 10 {
            reveal_strlit("inputs.ha_mqtt_number");
            assert(builtin_id(10) == NodeTypeId::HA_MQTT_NUMBER@);
            assert(NodeTypeId::COLOR_CONSTANT@[7] != NodeTypeId::HA_MQTT_NUMBER@[7]);
        } else if j == 11 {
            reveal_strlit("math.binary_select");
            assert(builtin_id(11) == NodeTypeId::BINARY_SELECT@);
            assert(NodeTypeId::COLOR_CONSTANT@.len() != NodeTypeId::BINARY_SELECT@.len());
        } else if j == 12 {
            reveal_strlit("math.add_float");
            assert(builtin_id(12) == NodeTypeId::ADD@);
            assert(NodeTypeId::COLOR_CONSTANT@.len() != NodeTypeId::ADD@.len());
        } else if j == 13 {
            reveal_strlit("math.subtract_float");
            assert(builtin_id(13) == NodeTypeId::SUBTRACT@);
            assert(NodeTypeId::COLOR_CONSTANT@.len() != NodeTypeId::SUBTRACT@.len());
        } else if j == 14 {
            reveal_strlit("inputs.signal_generator");
            assert(builtin_id(14) == NodeTypeId::SIGNAL_GENERATOR@);
            assert(NodeTypeId::COLOR_CONSTANT@.len() != NodeTypeId::SIGNAL_GENERATOR@.len());
        } else if j == 15 {
            reveal_strlit("math.divide_float");
            assert(builtin_id(15) == NodeTypeId::DIVIDE@);
            assert(NodeTypeId::COLOR_CONSTANT@.len() != NodeTypeId::DIVIDE@.len());
        } else if j == 16 {
            reveal_strlit("math.min_max_float");
            assert(builtin_id(16) == NodeTypeId::MIN_MAX@);
            assert(NodeTypeId::COLOR_CONSTANT@.len() != NodeTypeId::MIN_MAX@.len());
        } else if j == 17 {
            reveal_strlit("math.multiply_float");
            assert(builtin_id(17) == NodeTypeId::MULTIPLY@);
            assert(NodeTypeId::COLOR_CONSTANT@.len() != NodeTypeId::MULTIPLY@.len());
        } else if j == 18 {
            reveal_strlit("math.abs_float");
            assert(builtin_id(18) == NodeTypeId::ABS@);
            assert(NodeTypeId::COLOR_CONSTANT@.len() != NodeTypeId::ABS@.len());
        } else if j == 19 {
            reveal_strlit("math.clamp_float");
            assert(builtin_id(19) == NodeTypeId::CLAMP@);
            assert(NodeTypeId::COLOR_CONSTANT@.len() != NodeTypeId::CLAMP@.len());
        } else if j == 20 {
            reveal_strlit("math.power_float");
            assert(builtin_id(20) == NodeTypeId::POWER@);
            assert(NodeTypeId::COLOR_CONSTANT@.len() != NodeTypeId::POWER@.len());
        } else if j == 21 {
            reveal_strlit("math.root_float");
            assert(builtin_id(21) == NodeTypeId::ROOT@);
            assert(NodeTypeId::COLOR_CONSTANT@.len() != NodeTypeId::ROOT@.len());
        } else if j == 22 {
            reveal_strlit("math.exponential_float");
            assert(builtin_id(22) == NodeTypeId::EXPONENTIAL@);
            assert(NodeTypeId::COLOR_CONSTANT@.len() != NodeTypeId::EXPONENTIAL@.len());
        } else if j == 23 {
            reveal_strlit("math.log_float");
            assert(builtin_id(23) == NodeTypeId::LOG@);
            assert(NodeTypeId::COLOR_CONSTANT@.len() != NodeTypeId::LOG@.len());
        } else if j == 24 {
            reveal_strlit("math.map_range_float");
            assert(builtin_id(24) == NodeTypeId::MAP_RANGE@);
            assert(NodeTypeId::COLOR_CONSTANT@.len() != NodeTypeId::MAP_RANGE@.len());
        } else if j == 25 {
            reveal_strlit("math.round_float");
            assert(builtin_id(25) == NodeTypeId::ROUND@);
            assert(NodeTypeId::COLOR_CONSTANT@.len() != NodeTypeId::ROUND@.len());
        } else if j == 26 {
            reveal_strlit("math.scale_tensor");
            assert(builtin_id(26) == NodeTypeId::SCALE_TENSOR@);
            assert(NodeTypeId::COLOR_CONSTANT@.len() != NodeTypeId::SCALE_TENSOR@.len());
        } else if j == 27 {
            reveal_strlit("frame_operations.scale");
            assert(builtin_id(27) == NodeTypeId::SCALE_COLOR@);
            assert(NodeTypeId::COLOR_CONSTANT@.len() != NodeTypeId::SCALE_COLOR@.len());
        } else if j == 28 {
            reveal_strlit("frame_operations.multiply");
            assert(builtin_id(28) == NodeTypeId::MULTIPLY_COLOR@);
            assert(NodeTypeId::COLOR_CONSTANT@.len() != NodeTypeId::MULTIPLY_COLOR@.len());
        } else if j == 29 {
            reveal_strlit("frame_operations.tint_frame");
            assert(builtin_id(29) == NodeTypeId::TINT_FRAME@);
            assert(NodeTypeId::COLOR_CONSTANT@.len() != NodeTypeId::TINT_FRAME@.len());
        } else if j == 30 {
            reveal_strlit("frame_operations.extract_channels");
            assert(builtin_id(30) == NodeTypeId::EXTRACT_CHANNELS@);
            assert(NodeTypeId::COLOR_CONSTANT@.len() != NodeTypeId::EXTRACT_CHANNELS@.len());
        } else if j == 31 {
            reveal_strlit("frame_operations.set_channel");
            assert(builtin_id(31) == NodeTypeId::SET_CHANNEL@);
            assert(NodeTypeId::COLOR_CONSTANT@.len() != NodeTypeId::SET_CHANNEL@.len());
        } else if j == 32 {
            reveal_strlit("frame_operations.colorize");
            assert(builtin_id(32) == NodeTypeId::COLORIZE@);
            assert(NodeTypeId::COLOR_CONSTANT@.len() != NodeTypeId::COLORIZE@.len());
        } else if j == 33 {
            reveal_strlit("frame_operations.mask_frame");
            assert(builtin_id(33) == NodeTypeId::MASK_FRAME@);
            assert(NodeTypeId::COLOR_CONSTANT@.len() != NodeTypeId::MASK_FRAME@.len());
        } else if j == 34 {
            reveal_strlit("frame_operations.mix");
            assert(builtin_id(34) == NodeTypeId::MIX_COLOR@);
            assert(NodeTypeId::COLOR_CONSTANT@.len() != NodeTypeId::MIX_COLOR@.len());
        } else if j == 35 {
            reveal_strlit("frame_operations.alpha_over");
            assert(builtin_id(35) == NodeTypeId::ALPHA_OVER@);
            assert(NodeTypeId::COLOR_CONSTANT@.len() != NodeTypeId::ALPHA_OVER@.len());
        } else if j == 36 {
            reveal_strlit("temporal_filters.fade");
            assert(builtin_id(36) == NodeTypeId::FADE@);
            assert(NodeTypeId::COLOR_CONSTANT@[0] != NodeTypeId::FADE@[0]);
        } else if j == 37 {
            reveal_strlit("temporal_filters.integrate");
            assert(builtin_id(37) == NodeTypeId::INTEGRATE@);
            assert(NodeTypeId::COLOR_CONSTANT@.len() != NodeTypeId::INTEGRATE@.len());
        } else if j == 38 {
            reveal_strlit("temporal_filters.moving_average");
            assert(builtin_id(38) == NodeTypeId::MOVING_AVERAGE@);
            assert(NodeTypeId::COLOR_CONSTANT@.len() != NodeTypeId::MOVING_AVERAGE@.len());
        } else if j == 39 {
            reveal_strlit("temporal_filters.moving_median");
            assert(builtin_id(39) == NodeTypeId::MOVING_MEDIAN@);
            assert(NodeTypeId::COLOR_CONSTANT@.len() != NodeTypeId::MOVING_MEDIAN@.len());
        } else if j == 40 {
            reveal_strlit("spatial_filters.box_blur");
            assert(builtin_id(40) == NodeTypeId::BOX_BLUR@);
            assert(NodeTypeId::COLOR_CONSTANT@.len() != NodeTypeId::BOX_BLUR@.len());
        } else if j == 41 {
            reveal_strlit("spatial_filters.gaussian_blur");
            assert(builtin_id(41) == NodeTypeId::GAUSSIAN_BLUR@);
            assert(NodeTypeId::COLOR_CONSTANT@.len() != NodeTypeId::GAUSSIAN_BLUR@.len());
        } else if j == 42 {
            reveal_strlit("spatial_filters.median_filter");
            assert(builtin_id(42) == NodeTypeId::MEDIAN_FILTER@);
            assert(NodeTypeId::COLOR_CONSTANT@.len() != NodeTypeId::MEDIAN_FILTER@.len());
        } else if j == 43 {
            reveal_strlit("spatial_filters.laplacian_filter");
            assert(builtin_id(43) == NodeTypeId::LAPLACIAN_FILTER@);
            assert(NodeTypeId::COLOR_CONSTANT@.len() != NodeTypeId::LAPLACIAN_FILTER@.len());
        } else if j == 44 {
            reveal_strlit("generators.spectrum_analyzer");
            assert(builtin_id(44) == NodeTypeId::SPECTRUM_ANALYZER@);
            assert(NodeTypeId::COLOR_CONSTANT@.len() != NodeTypeId::SPECTRUM_ANALYZER@.len());
        } else if j == 45 {
            reveal_strlit("generators.solid_frame");
            assert(builtin_id(45) == NodeTypeId::SOLID_FRAME@);
            assert(NodeTypeId::COLOR_CONSTANT@.len() != NodeTypeId::SOLID_FRAME@.len());
        } else if j == 46 {
            reveal_strlit("generators.rainbow_sweep");
            assert(builtin_id(46) == NodeTypeId::RAINBOW_SWEEP@);
            assert(NodeTypeId::COLOR_CONSTANT@.len() != NodeTypeId::RAINBOW_SWEEP@.len());
        } else if j == 47 {
            reveal_strlit("generators.circle_sweep");
            assert(builtin_id(47) == NodeTypeId::CIRCLE_SWEEP@);
            assert(NodeTypeId::COLOR_CONSTANT@.len() != NodeTypeId::CIRCLE_SWEEP@.len());
        } else if j == 48 {
            reveal_strlit("generators.level_bar");
            assert(builtin_id(48) == NodeTypeId::LEVEL_BAR@);
            assert(NodeTypeId::COLOR_CONSTANT@.len() != NodeTypeId::LEVEL_BAR@.len());
        } else if j == 49 {
            reveal_strlit("generators.twinkle_stars");
            assert(builtin_id(49) == NodeTypeId::TWINKLE_STARS@);
            assert(NodeTypeId::COLOR_CONSTANT@.len() != NodeTypeId::TWINKLE_STARS@.len());
        } else if j == 50 {
            reveal_strlit("generators.plasma");
            assert(builtin_id(50) == NodeTypeId::PLASMA@);
            assert(NodeTypeId::COLOR_CONSTANT@.len() != NodeTypeId::PLASMA@.len());
        } else if j == 51 {
            reveal_strlit("generators.bouncing_balls");
            assert(builtin_id(51) == NodeTypeId::BOUNCING_BALLS@);
            assert(NodeTypeId::COLOR_CONSTANT@.len() != NodeTypeId::BOUNCING_BALLS@.len());
        } else if j == 52 {
            reveal_strlit("debug.wled_dummy_display");
            assert(builtin_id(52) == NodeTypeId::WLED_DUMMY_DISPLAY@);
            assert(NodeTypeId::COLOR_CONSTANT@.len() != NodeTypeId::WLED_DUMMY_DISPLAY@.len());
        } else if j == 53 {
            reveal_strlit("debug.type_debug");
            assert(builtin_id(53) == NodeTypeId::TYPE_DEBUG@);
            assert(NodeTypeId::COLOR_CONSTANT@.len() != NodeTypeId::TYPE_DEBUG@.len());
        } else if j == 54 {
            reveal_strlit("frame_operations.frame_brightness");
            assert(builtin_id(54) == NodeTypeId::FRAME_BRIGHTNESS@);
            assert(NodeTypeId::COLOR_CONSTANT@.len() != NodeTypeId::FRAME_BRIGHTNESS@.len());
        }
    }
}

proof fn lemma_catalog_id_2_distinct()
    ensures
        forall|j: int| 2 < j < BUILTIN_NODE_COUNT ==> builtin_id(2) != #[trigger] builtin_id(j),
{
    reveal_strlit("inputs.image_source");
    assert(builtin_id(2) == NodeTypeId::IMAGE_SOURCE@);
    assert forall|j: int| 2 < j < BUILTIN_NODE_COUNT implies builtin_id(2) != #[trigger] builtin_id(j) by {
        if j == 3 {
            reveal_strlit("outputs.display");
            assert(builtin_id(3) == NodeTypeId::DISPLAY@);
            assert(NodeTypeId::IMAGE_SOURCE@.len() != NodeTypeId::DISPLAY@.len());
        } else if j == 4 {
            reveal_strlit("outputs.plot");
            assert(builtin_id(4) == NodeTypeId::PLOT@);
            assert(NodeTypeId::IMAGE_SOURCE@.len() != NodeTypeId::PLOT@.len());
        } else if j == 5 {
            reveal_strlit("temporal_filters.delay");
            assert(builtin_id(5) == NodeTypeId::DELAY@);
            assert(NodeTypeId::IMAGE_SOURCE@.len() != NodeTypeId::DELAY@.len());
        } else if j == 6 {
            reveal_strlit("temporal_filters.differentiate");
            assert(builtin_id(6) == NodeTypeId::DIFFERENTIATE@);
            assert(NodeTypeId::IMAGE_SOURCE@.len() != NodeTypeId::DIFFERENTIATE@.len());
        } else if j == 7 {
            reveal_strlit("outputs.wled_target");
            assert(builtin_id(7) == NodeTypeId::WLED_TARGET@);
            assert(NodeTypeId::IMAGE_SOURCE@[0] != NodeTypeId::WLED_TARGET@[0]);
        } else if j == 8 {
            reveal_strlit("inputs.wled_sink");
            assert(builtin_id(8) == NodeTypeId::WLED_SINK@);
            assert(NodeTypeId::IMAGE_SOURCE@.len() != NodeTypeId::WLED_SINK@.len());
        } else if j == 9 {
            reveal_strlit("inputs.audio_fft_receiver");
            assert(builtin_id(9) == NodeTypeId::AUDIO_FFT_RECEIVER@);
            assert(NodeTypeId::IMAGE_SOURCE@.len() != NodeTypeId::AUDIO_FFT_RECEIVER@.len());
        } else if j == 10 {
            reveal_strlit("inputs.ha_mqtt_number");
            assert(builtin_id(10) == NodeTypeId::HA_MQTT_NUMBER@);
            assert(NodeTypeId::IMAGE_SOURCE@.len() != NodeTypeId::HA_MQTT_NUMBER@.len());
        } else if j == 11 {
            reveal_strlit("math.binary_select");
            assert(builtin_id(11) == NodeTypeId::BINARY_SELECT@);
            assert(NodeTypeId::IMAGE_SOURCE@.len() != NodeTypeId::BINARY_SELECT@.len());
        } else if j == 12 {
            reveal_strlit("math.add_float");
            assert(builtin_id(12) == NodeTypeId::ADD@);
            assert(NodeTypeId::IMAGE_SOURCE@.len() != NodeTypeId::ADD@.len());
        } else if j == 13 {
            reveal_strlit("math.subtract_float");
            assert(builtin_id(13) == NodeTypeId::SUBTRACT@);
            assert(NodeTypeId::IMAGE_SOURCE@[0] != NodeTypeId::SUBTRACT@[0]);
        } else if j == 14 {
            reveal_strlit("inputs.signal_generator");
            assert(builtin_id(14) == NodeTypeId::SIGNAL_GENERATOR@);
            assert(NodeTypeId::IMAGE_SOURCE@.len() != NodeTypeId::SIGNAL_GENERATOR@.len());
        } else if j == 15 {
            reveal_strlit("math.divide_float");
            assert(builtin_id(15) == NodeTypeId::DIVIDE@);
            assert(NodeTypeId::IMAGE_SOURCE@.len() != NodeTypeId::DIVIDE@.len());
        } else if j == 16 {
            reveal_strlit("math.min_max_float");
            assert(builtin_id(16) == NodeTypeId::MIN_MAX@);
            assert(NodeTypeId::IMAGE_SOURCE@.len() != NodeTypeId::MIN_MAX@.len());
        } else if j == 17 {
            reveal_strlit("math.multiply_float");
            assert(builtin_id(17) == NodeTypeId::MULTIPLY@);
            assert(NodeTypeId::IMAGE_SOURCE@[0] != NodeTypeId::MULTIPLY@[0]);
        } else if j == 18 {
            reveal_strlit("math.abs_float");
            assert(builtin_id(18) == NodeTypeId::ABS@);
            assert(NodeTypeId::IMAGE_SOURCE@.len() != NodeTypeId::ABS@.len());
        } else if j == 19 {
            reveal_strlit("math.clamp_float");
            assert(builtin_id(19) == NodeTypeId::CLAMP@);
            assert(NodeTypeId::IMAGE_SOURCE@.len() != NodeTypeId::CLAMP@.len());
        } else if j == 20 {
            reveal_strlit("math.power_float");
            assert(builtin_id(20) == NodeTypeId::POWER@);
            assert(NodeTypeId::IMAGE_SOURCE@.len() != NodeTypeId::POWER@.len());
        } else if j == 21 {
            reveal_strlit("math.root_float");
            assert(builtin_id(21) == NodeTypeId::ROOT@);
            assert(NodeTypeId::IMAGE_SOURCE@.len() != NodeTypeId::ROOT@.len());
        } else if j == 22 {
            reveal_strlit("math.exponential_float");
            assert(builtin_id(22) == NodeTypeId::EXPONENTIAL@);
            assert(NodeTypeId::IMAGE_SOURCE@.len() != NodeTypeId::EXPONENTIAL@.len());
        } else if j == 23 {
            reveal_strlit("math.log_float");
            assert(builtin_id(23) == NodeTypeId::LOG@);
            assert(NodeTypeId::IMAGE_SOURCE@.len() != NodeTypeId::LOG@.len());
        } else if j == 24 {
            reveal_strlit("math.map_range_float");
            assert(builtin_id(24) == NodeTypeId::MAP_RANGE@);
            assert(NodeTypeId::IMAGE_SOURCE@.len() != NodeTypeId::MAP_RANGE@.len());
        } else if j == 25 {
            reveal_strlit("math.round_float");
            assert(builtin_id(25) == NodeTypeId::ROUND@);
            assert(NodeTypeId::IMAGE_SOURCE@.len() != NodeTypeId::ROUND@.len());
        } else if j == 26 {
            reveal_strlit("math.scale_tensor");
            assert(builtin_id(26) == NodeTypeId::SCALE_TENSOR@);
            assert(NodeTypeId::IMAGE_SOURCE@.len() != NodeTypeId::SCALE_TENSOR@.len());
        } else if j == 27 {
            reveal_strlit("frame_operations.scale");
            assert(builtin_id(27) == NodeTypeId::SCALE_COLOR@);
            assert(NodeTypeId::IMAGE_SOURCE@.len() != NodeTypeId::SCALE_COLOR@.len());
        } else if j == 28 {
            reveal_strlit("frame_operations.multiply");
            assert(builtin_id(28) == NodeTypeId::MULTIPLY_COLOR@);
            assert(NodeTypeId::IMAGE_SOURCE@.len() != NodeTypeId::MULTIPLY_COLOR@.len());
        } else if j == 29 {
            reveal_strlit("frame_operations.tint_frame");
            assert(builtin_id(29) == NodeTypeId::TINT_FRAME@);
            assert(NodeTypeId::IMAGE_SOURCE@.len() != NodeTypeId::TINT_FRAME@.len());
        } else if j == 30 {
            reveal_strlit("frame_operations.extract_channels");
            assert(builtin_id(30) == NodeTypeId::EXTRACT_CHANNELS@);
            assert(NodeTypeId::IMAGE_SOURCE@.len() != NodeTypeId::EXTRACT_CHANNELS@.len());
        } else if j == 31 {
            reveal_strlit("frame_operations.set_channel");
            assert(builtin_id(31) == NodeTypeId::SET_CHANNEL@);
            assert(NodeTypeId::IMAGE_SOURCE@.len() != NodeTypeId::SET_CHANNEL@.len());
        } else if j == 32 {
            reveal_strlit("frame_operations.colorize");
            assert(builtin_id(32) == NodeTypeId::COLORIZE@);
            assert(NodeTypeId::IMAGE_SOURCE@.len() != NodeTypeId::COLORIZE@.len());
        } else if j == 33 {
            reveal_strlit("frame_operations.mask_frame");
            assert(builtin_id(33) == NodeTypeId::MASK_FRAME@);
            assert(NodeTypeId::IMAGE_SOURCE@.len() != NodeTypeId::MASK_FRAME@.len());
        } else if j == 34 {
            reveal_strlit("frame_operations.mix");
            assert(builtin_id(34) == NodeTypeId::MIX_COLOR@);
            assert(NodeTypeId::IMAGE_SOURCE@.len() != NodeTypeId::MIX_COLOR@.len());
        } else if j == 35 {
            reveal_strlit("frame_operations.alpha_over");
            assert(builtin_id(35) == NodeTypeId::ALPHA_OVER@);
            assert(NodeTypeId::IMAGE_SOURCE@.len() != NodeTypeId::ALPHA_OVER@.len());
        } else if j == 36 {
            reveal_strlit("temporal_filters.fade");
            assert(builtin_id(36) == NodeTypeId::FADE@);
            assert(NodeTypeId::IMAGE_SOURCE@.len() != NodeTypeId::FADE@.len());
        } else if j == 37 {
            reveal_strlit("temporal_filters.integrate");
            assert(builtin_id(37) == NodeTypeId::INTEGRATE@);
            assert(NodeTypeId::IMAGE_SOURCE@.len() != NodeTypeId::INTEGRATE@.len());
        } else if j == 38 {
            reveal_strlit("temporal_filters.moving_average");
            assert(builtin_id(38) == NodeTypeId::MOVING_AVERAGE@);
            assert(NodeTypeId::IMAGE_SOURCE@.len() != NodeTypeId::MOVING_AVERAGE@.len());
        } else if j == 39 {
            reveal_strlit("temporal_filters.moving_median");
            assert(builtin_id(39) == NodeTypeId::MOVING_MEDIAN@);
            assert(NodeTypeId::IMAGE_SOURCE@.len() != NodeTypeId::MOVING_MEDIAN@.len());
        } else if j == 40 {
            reveal_strlit("spatial_filters.box_blur");
            assert(builtin_id(40) == NodeTypeId::BOX_BLUR@);
            assert(NodeTypeId::IMAGE_SOURCE@.len() != NodeTypeId::BOX_BLUR@.len());
        } else if j == 41 {
            reveal_strlit("spatial_filters.gaussian_blur");
            assert(builtin_id(41) == NodeTypeId::GAUSSIAN_BLUR@);
            assert(NodeTypeId::IMAGE_SOURCE@.len() != NodeTypeId::GAUSSIAN_BLUR@.len());
        } else if j == 42 {
            reveal_strlit("spatial_filters.median_filter");
            assert(builtin_id(42) == NodeTypeId::MEDIAN_FILTER@);
            assert(NodeTypeId::IMAGE_SOURCE@.len() != NodeTypeId::MEDIAN_FILTER@.len());
        } else if j == 43 {
            reveal_strlit("spatial_filters.laplacian_filter");
            assert(builtin_id(43) == NodeTypeId::LAPLACIAN_FILTER@);
            assert(NodeTypeId::IMAGE_SOURCE@.len() != NodeTypeId::LAPLACIAN_FILTER@.len());
        } else if j == 44 {
            reveal_strlit("generators.spectrum_analyzer");
            assert(builtin_id(44) == NodeTypeId::SPECTRUM_ANALYZER@);
            assert(NodeTypeId::IMAGE_SOURCE@.len() != NodeTypeId::SPECTRUM_ANALYZER@.len());
        } else if j == 45 {
            reveal_strlit("generators.solid_frame");
            assert(builtin_id(45) == NodeTypeId::SOLID_FRAME@);
            assert(NodeTypeId::IMAGE_SOURCE@.len() != NodeTypeId::SOLID_FRAME@.len());
        } else if j == 46 {
            reveal_strlit("generators.rainbow_sweep");
            assert(builtin_id(46) == NodeTypeId::RAINBOW_SWEEP@);
            assert(NodeTypeId::IMAGE_SOURCE@.len() != NodeTypeId::RAINBOW_SWEEP@.len());
        } else if j == 47 {
            reveal_strlit("generators.circle_sweep");
            assert(builtin_id(47) == NodeTypeId::CIRCLE_SWEEP@);
            assert(NodeTypeId::IMAGE_SOURCE@.len() != NodeTypeId::CIRCLE_SWEEP@.len());
        } else if j == 48 {
            reveal_strlit("generators.level_bar");
            assert(builtin_id(48) == NodeTypeId::LEVEL_BAR@);
            assert(NodeTypeId::IMAGE_SOURCE@.len() != NodeTypeId::LEVEL_BAR@.len());
        } else if j == 49 {
            reveal_strlit("generators.twinkle_stars");
            assert(builtin_id(49) == NodeTypeId::TWINKLE_STARS@);
            assert(NodeTypeId::IMAGE_SOURCE@.len() != NodeTypeId::TWINKLE_STARS@.len());
        } else if j == 50 {
            reveal_strlit("generators.plasma");
            assert(builtin_id(50) == NodeTypeId::PLASMA@);
            assert(NodeTypeId::IMAGE_SOURCE@.len() != NodeTypeId::PLASMA@.len());
        } else if j == 51 {
            reveal_strlit("generators.bouncing_balls");
            assert(builtin_id(51) == NodeTypeId::BOUNCING_BALLS@);
            assert(NodeTypeId::IMAGE_SOURCE@.len() != NodeTypeId::BOUNCING_BALLS@.len());
        } else if j == 52 {
            reveal_strlit("debug.wled_dummy_display");
            assert(builtin_id(52) == NodeTypeId::WLED_DUMMY_DISPLAY@);
            assert(NodeTypeId::IMAGE_SOURCE@.len() != NodeTypeId::WLED_DUMMY_DISPLAY@.len());
        } else if j == 53 {
            reveal_strlit("debug.type_debug");
            assert(builtin_id(53) == NodeTypeId::TYPE_DEBUG@);
            assert(NodeTypeId::IMAGE_SOURCE@.len() != NodeTypeId::TYPE_DEBUG@.len());
        } else if j == 54 {
            reveal_strlit("frame_operations.frame_brightness");
            assert(builtin_id(54) == NodeTypeId::FRAME_BRIGHTNESS@);
            assert(NodeTypeId::IMAGE_SOURCE@.len() != NodeTypeId::FRAME_BRIGHTNESS@.len());
        }
    }
}

proof fn lemma_catalog_id_3_distinct()
    ensures
        forall|j: int| 3 < j < BUILTIN_NODE_COUNT ==> builtin_id(3) != #[trigger] builtin_id(j),
{
    reveal_strlit("outputs.display");
    assert(builtin_id(3) == NodeTypeId::DISPLAY@);
    assert forall|j: int| 3 < j < BUILTIN_NODE_COUNT implies builtin_id(3) != #[trigger] builtin_id(j) by {
        if j == 4 {
            reveal_strlit("outputs.plot");
            assert(builtin_id(4) == NodeTypeId::PLOT@);
            assert(NodeTypeId::DISPLAY@.len() != NodeTypeId::PLOT@.len());
        } else if j == 5 {
            reveal_strlit("temporal_filters.delay");
            assert(builtin_id(5) == NodeTypeId::DELAY@);
            assert(NodeTypeId::DISPLAY@.len() != NodeTypeId::DELAY@.len());
        } else if j == 6 {
            reveal_strlit("temporal_filters.differentiate");
            assert(builtin_id(6) == NodeTypeId::DIFFERENTIATE@);
            assert(NodeTypeId::DISPLAY@.len() != NodeTypeId::DIFFERENTIATE@.len());
        } else if j == 7 {
            reveal_strlit("outputs.wled_target");
            assert(builtin_id(7) == NodeTypeId::WLED_TARGET@);
            assert(NodeTypeId::DISPLAY@.len() != NodeTypeId::WLED_TARGET@.len());
        } else if j == 8 {
            reveal_strlit("inputs.wled_sink");
            assert(builtin_id(8) == NodeTypeId::WLED_SINK@);
            assert(NodeTypeId::DISPLAY@.len() != NodeTypeId::WLED_SINK@.len());
        } else if j == 9 {
            reveal_strlit("inputs.audio_fft_receiver");
            assert(builtin_id(9) == NodeTypeId::AUDIO_FFT_RECEIVER@);
            assert(NodeTypeId::DISPLAY@.len() != NodeTypeId::AUDIO_FFT_RECEIVER@.len());
        } else if j == 10 {
            reveal_strlit("inputs.ha_mqtt_number");
            assert(builtin_id(10) == NodeTypeId::HA_MQTT_NUMBER@);
            assert(NodeTypeId::DISPLAY@.len() != NodeTypeId::HA_MQTT_NUMBER@.len());
        } else if j == 11 {
            reveal_strlit("math.binary_select");
            assert(builtin_id(11) == NodeTypeId::BINARY_SELECT@);
            assert(NodeTypeId::DISPLAY@.len() != NodeTypeId::BINARY_SELECT@.len());
        } else if j == 12 {
            reveal_strlit("math.add_float");
            assert(builtin_id(12) == NodeTypeId::ADD@);
            assert(NodeTypeId::DISPLAY@.len() != NodeTypeId::ADD@.len());
        } else if j == 13 {
            reveal_strlit("math.subtract_float");
            assert(builtin_id(13) == NodeTypeId::SUBTRACT@);
            assert(NodeTypeId::DISPLAY@.len() != NodeTypeId::SUBTRACT@.len());
        } else if j == 14 {
            reveal_strlit("inputs.signal_generator");
            assert(builtin_id(14) == NodeTypeId::SIGNAL_GENERATOR@);
            assert(NodeTypeId::DISPLAY@.len() != NodeTypeId::SIGNAL_GENERATOR@.len());
        } else if j == 15 {
            reveal_strlit("math.divide_float");
            assert(builtin_id(15) == NodeTypeId::DIVIDE@);
            assert(NodeTypeId::DISPLAY@.len() != NodeTypeId::DIVIDE@.len());
        } else if j == 16 {
            reveal_strlit("math.min_max_float");
            assert(builtin_id(16) == NodeTypeId::MIN_MAX@);
            assert(NodeTypeId::DISPLAY@.len() != NodeTypeId::MIN_MAX@.len());
        } else if j == 17 {
            reveal_strlit("math.multiply_float");
            assert(builtin_id(17) == NodeTypeId::MULTIPLY@);
            assert(NodeTypeId::DISPLAY@.len() != NodeTypeId::MULTIPLY@.len());
        } else if j == 18 {
            reveal_strlit("math.abs_float");
            assert(builtin_id(18) == NodeTypeId::ABS@);
            assert(NodeTypeId::DISPLAY@.len() != NodeTypeId::ABS@.len());
        } else if j == 19 {
            reveal_strlit("math.clamp_float");
            assert(builtin_id(19) == NodeTypeId::CLAMP@);
            assert(NodeTypeId::DISPLAY@.len() != NodeTypeId::CLAMP@.len());
        } else if j == 20 {
            reveal_strlit("math.power_float");
            assert(builtin_id(20) == NodeTypeId::POWER@);
            assert(NodeTypeId::DISPLAY@.len() != NodeTypeId::POWER@.len());
        } else if j == 21 {
            reveal_strlit("math.root_float");
            assert(builtin_id(21) == NodeTypeId::ROOT@);
            assert(NodeTypeId::DISPLAY@[0] != NodeTypeId::ROOT@[0]);
        } else if j == 22 {
            reveal_strlit("math.exponential_float");
            assert(builtin_id(22) == NodeTypeId::EXPONENTIAL@);
            assert(NodeTypeId::DISPLAY@.len() != NodeTypeId::EXPONENTIAL@.len());
        } else if j == 23 {
            reveal_strlit("math.log_float");
            assert(builtin_id(23) == NodeTypeId::LOG@);
            assert(NodeTypeId::DISPLAY@.len() != NodeTypeId::LOG@.len());
        } else if j == 24 {
            reveal_strlit("math.map_range_float");
            assert(builtin_id(24) == NodeTypeId::MAP_RANGE@);
            assert(NodeTypeId::DISPLAY@.len() != NodeTypeId::MAP_RANGE@.len());
        } else if j == 25 {
            reveal_strlit("math.round_float");
            assert(builtin_id(25) == NodeTypeId::ROUND@);
            assert(NodeTypeId::DISPLAY@.len() != NodeTypeId::ROUND@.len());
        } else if j == 26 {
            reveal_strlit("math.scale_tensor");
            assert(builtin_id(26) == NodeTypeId::SCALE_TENSOR@);
            assert(NodeTypeId::DISPLAY@.len() != NodeTypeId::SCALE_TENSOR@.len());
        } else if j == 27 {
            reveal_strlit("frame_operations.scale");
            assert(builtin_id(27) == NodeTypeId::SCALE_COLOR@);
            assert(NodeTypeId::DISPLAY@.len() != NodeTypeId::SCALE_COLOR@.len());
        } else if j == 28 {
            reveal_strlit("frame_operations.multiply");
            assert(builtin_id(28) == NodeTypeId::MULTIPLY_COLOR@);
            assert(NodeTypeId::DISPLAY@.len() != NodeTypeId::MULTIPLY_COLOR@.len());
        } else if j == 29 {
            reveal_strlit("frame_operations.tint_frame");
            assert(builtin_id(29) == NodeTypeId::TINT_FRAME@);
            assert(NodeTypeId::DISPLAY@.len() != NodeTypeId::TINT_FRAME@.len());
        } else if j == 30 {
            reveal_strlit("frame_operations.extract_channels");
            assert(builtin_id(30) == NodeTypeId::EXTRACT_CHANNELS@);
            assert(NodeTypeId::DISPLAY@.len() != NodeTypeId::EXTRACT_CHANNELS@.len());
        } else if j == 31 {
            reveal_strlit("frame_operations.set_channel");
            assert(builtin_id(31) == NodeTypeId::SET_CHANNEL@);
            assert(NodeTypeId::DISPLAY@.len() != NodeTypeId::SET_CHANNEL@.len());
        } else if j == 32 {
            reveal_strlit("frame_operations.colorize");
            assert(builtin_id(32) == NodeTypeId::COLORIZE@);
            assert(NodeTypeId::DISPLAY@.len() != NodeTypeId::COLORIZE@.len());
        } else if j == 33 {
            reveal_strlit("frame_operations.mask_frame");
            assert(builtin_id(33) == NodeTypeId::MASK_FRAME@);
            assert(NodeTypeId::DISPLAY@.len() != NodeTypeId::MASK_FRAME@.len());
        } else if j == 34 {
            reveal_strlit("frame_operations.mix");
            assert(builtin_id(34) == NodeTypeId::MIX_COLOR@);
            assert(NodeTypeId::DISPLAY@.len() != NodeTypeId::MIX_COLOR@.len());
        } else if j == 35 {
            reveal_strlit("frame_operations.alpha_over");
            assert(builtin_id(35) == NodeTypeId::ALPHA_OVER@);
            assert(NodeTypeId::DISPLAY@.len() != NodeTypeId::ALPHA_OVER@.len());
        } else if j == 36 {
            reveal_strlit("temporal_filters.fade");
            assert(builtin_id(36) == NodeTypeId::FADE@);
            assert(NodeTypeId::DISPLAY@.len() != NodeTypeId::FADE@.len());
        } else if j == 37 {
            reveal_strlit("temporal_filters.integrate");
            assert(builtin_id(37) == NodeTypeId::INTEGRATE@);
            assert(NodeTypeId::DISPLAY@.len() != NodeTypeId::INTEGRATE@.len());
        } else if j == 38 {
            reveal_strlit("temporal_filters.moving_average");
            assert(builtin_id(38) == NodeTypeId::MOVING_AVERAGE@);
            assert(NodeTypeId::DISPLAY@.len() != NodeTypeId::MOVING_AVERAGE@.len());
        } else if j == 39 {
            reveal_strlit("temporal_filters.moving_median");
            assert(builtin_id(39) == NodeTypeId::MOVING_MEDIAN@);
            assert(NodeTypeId::DISPLAY@.len() != NodeTypeId::MOVING_MEDIAN@.len());
        } else if j == 40 {
            reveal_strlit("spatial_filters.box_blur");
            assert(builtin_id(40) == NodeTypeId::BOX_BLUR@);
            assert(NodeTypeId::DISPLAY@.len() != NodeTypeId::BOX_BLUR@.len());
        } else if j == 41 {
            reveal_strlit("spatial_filters.gaussian_blur");
            assert(builtin_id(41) == NodeTypeId::GAUSSIAN_BLUR@);
            assert(NodeTypeId::DISPLAY@.len() != NodeTypeId::GAUSSIAN_BLUR@.len());
        } else if j == 42 {
            reveal_strlit("spatial_filters.median_filter");
            assert(builtin_id(42) == NodeTypeId::MEDIAN_FILTER@);
            assert(NodeTypeId::DISPLAY@.len() != NodeTypeId::MEDIAN_FILTER@.len());
        } else if j == 43 {
            reveal_strlit("spatial_filters.laplacian_filter");
            assert(builtin_id(43) == NodeTypeId::LAPLACIAN_FILTER@);
            assert(NodeTypeId::DISPLAY@.len() != NodeTypeId::LAPLACIAN_FILTER@.len());
        } else if j == 44 {
            reveal_strlit("generators.spectrum_analyzer");
            assert(builtin_id(44) == NodeTypeId::SPECTRUM_ANALYZER@);
            assert(NodeTypeId::DISPLAY@.len() != NodeTypeId::SPECTRUM_ANALYZER@.len());
        } else if j == 45 {
            reveal_strlit("generators.solid_frame");
            assert(builtin_id(45) == NodeTypeId::SOLID_FRAME@);
            assert(NodeTypeId::DISPLAY@.len() != NodeTypeId::SOLID_FRAME@.len());
        } else if j == 46 {
            reveal_strlit("generators.rainbow_sweep");
            assert(builtin_id(46) == NodeTypeId::RAINBOW_SWEEP@);
            assert(NodeTypeId::DISPLAY@.len() != NodeTypeId::RAINBOW_SWEEP@.len());
        } else if j == 47 {
            reveal_strlit("generators.circle_sweep");
            assert(builtin_id(47) == NodeTypeId::CIRCLE_SWEEP@);
            assert(NodeTypeId::DISPLAY@.len() != NodeTypeId::CIRCLE_SWEEP@.len());
        } else if j == 48 {
            reveal_strlit("generators.level_bar");
            assert(builtin_id(48) == NodeTypeId::LEVEL_BAR@);
            assert(NodeTypeId::DISPLAY@.len() != NodeTypeId::LEVEL_BAR@.len());
        } else if j == 49 {
            reveal_strlit("generators.twinkle_stars");
            assert(builtin_id(49) == NodeTypeId::TWINKLE_STARS@);
            assert(NodeTypeId::DISPLAY@.len() != NodeTypeId::TWINKLE_STARS@.len());
        } else if j == 50 {
            reveal_strlit("generators.plasma");
            assert(builtin_id(50) == NodeTypeId::PLASMA@);
            assert(NodeTypeId::DISPLAY@.len() != NodeTypeId::PLASMA@.len());
        } else if j == 51 {
            reveal_strlit("generators.bouncing_balls");
            assert(builtin_id(51) == NodeTypeId::BOUNCING_BALLS@);
            assert(NodeTypeId::DISPLAY@.len() != NodeTypeId::BOUNCING_BALLS@.len());
        } else if j == 52 {
            reveal_strlit("debug.wled_dummy_display");
            assert(builtin_id(52) == NodeTypeId::WLED_DUMMY_DISPLAY@);
            assert(NodeTypeId::DISPLAY@.len() != NodeTypeId::WLED_DUMMY_DISPLAY@.len());
        } else if j == 53 {
            reveal_strlit("debug.type_debug");
            assert(builtin_id(53) == NodeTypeId::TYPE_DEBUG@);
            assert(NodeTypeId::DISPLAY@.len() != NodeTypeId::TYPE_DEBUG@.len());
        } else if j == 54 {
            reveal_strlit("frame_operations.frame_brightness");
            assert(builtin_id(54) == NodeTypeId::FRAME_BRIGHTNESS@);
            assert(NodeTypeId::DISPLAY@.len() != NodeTypeId::FRAME_BRIGHTNESS@.len());
        }
    }
}

proof fn lemma_catalog_id_4_distinct()
    ensures
        forall|j: int| 4 < j < BUILTIN_NODE_COUNT ==> builtin_id(4) != #[trigger] builtin_id(j),
{
    reveal_strlit("outputs.plot");
    assert(builtin_id(4) == NodeTypeId::PLOT@);
    assert forall|j: int| 4 < j < BUILTIN_NODE_COUNT implies builtin_id(4) != #[trigger] builtin_id(j) by {
        if j == 5 {
            reveal_strlit("temporal_filters.delay");
            assert(builtin_id(5) == NodeTypeId::DELAY@);
            assert(NodeTypeId::PLOT@.len() != NodeTypeId::DELAY@.len());
        } else if j == 6 {
            reveal_strlit("temporal_filters.differentiate");
            assert(builtin_id(6) == NodeTypeId::DIFFERENTIATE@);
            assert(NodeTypeId::PLOT@.len() != NodeTypeId::DIFFERENTIATE@.len());
        } else if j == 7 {
            reveal_strlit("outputs.wled_target");
            assert(builtin_id(7) == NodeTypeId::WLED_TARGET@);
            assert(NodeTypeId::PLOT@.len() != NodeTypeId::WLED_TARGET@.len());
        } else if j == 8 {
            reveal_strlit("inputs.wled_sink");
            assert(builtin_id(8) == NodeTypeId::WLED_SINK@);
            assert(NodeTypeId::PLOT@.len() != NodeTypeId::WLED_SINK@.len());
        } else if j == 9 {
            reveal_strlit("inputs.audio_fft_receiver");
            assert(builtin_id(9) == NodeTypeId::AUDIO_FFT_RECEIVER@);
            assert(NodeTypeId::PLOT@.len() != NodeTypeId::AUDIO_FFT_RECEIVER@.len());
        } else if j == 10 {
            reveal_strlit("inputs.ha_mqtt_number");
            assert(builtin_id(10) == NodeTypeId::HA_MQTT_NUMBER@);
            assert(NodeTypeId::PLOT@.len() != NodeTypeId::HA_MQTT_NUMBER@.len());
        } else if j == 11 {
            reveal_strlit("math.binary_select");
            assert(builtin_id(11) == NodeTypeId::BINARY_SELECT@);
            assert(NodeTypeId::PLOT@.len() != NodeTypeId::BINARY_SELECT@.len());
        } else if j == 12 {
            reveal_strlit("math.add_float");
            assert(builtin_id(12) == NodeTypeId::ADD@);
            assert(NodeTypeId::PLOT@.len() != NodeTypeId::ADD@.len());
        } else if j == 13 {
            reveal_strlit("math.subtract_float");
            assert(builtin_id(13) == NodeTypeId::SUBTRACT@);
            assert(NodeTypeId::PLOT@.len() != NodeTypeId::SUBTRACT@.len());
        } else if j == 14 {
            reveal_strlit("inputs.signal_generator");
            assert(builtin_id(14) == NodeTypeId::SIGNAL_GENERATOR@);
            assert(NodeTypeId::PLOT@.len() != NodeTypeId::SIGNAL_GENERATOR@.len());
        } else if j == 15 {
            reveal_strlit("math.divide_float");
            assert(builtin_id(15) == NodeTypeId::DIVIDE@);
            assert(NodeTypeId::PLOT@.len() != NodeTypeId::DIVIDE@.len());
        } else if j == 16 {
            reveal_strlit("math.min_max_float");
            assert(builtin_id(16) == NodeTypeId::MIN_MAX@);
            assert(NodeTypeId::PLOT@.len() != NodeTypeId::MIN_MAX@.len());
        } else if j == 17 {
            reveal_strlit("math.multiply_float");
            assert(builtin_id(17) == NodeTypeId::MULTIPLY@);
            assert(NodeTypeId::PLOT@.len() != NodeTypeId::MULTIPLY@.len());
        } else if j == 18 {
            reveal_strlit("math.abs_float");
            assert(builtin_id(18) == NodeTypeId::ABS@);
            assert(NodeTypeId::PLOT@.len() != NodeTypeId::ABS@.len());
        } else if j == 19 {
            reveal_strlit("math.clamp_float");
            assert(builtin_id(19) == NodeTypeId::CLAMP@);
            assert(NodeTypeId::PLOT@.len() != NodeTypeId::CLAMP@.len());
        } else if j == 20 {
            reveal_strlit("math.power_float");
            assert(builtin_id(20) == NodeTypeId::POWER@);
            assert(NodeTypeId::PLOT@.len() != NodeTypeId::POWER@.len());
        } else if j == 21 {
            reveal_strlit("math.root_float");
            assert(builtin_id(21) == NodeTypeId::ROOT@);
            assert(NodeTypeId::PLOT@.len() != NodeTypeId::ROOT@.len());
        } else if j == 22 {
            reveal_strlit("math.exponential_float");
            assert(builtin_id(22) == NodeTypeId::EXPONENTIAL@);
            assert(NodeTypeId::PLOT@.len() != NodeTypeId::EXPONENTIAL@.len());
        } else if j == 23 {
            reveal_strlit("math.log_float");
            assert(builtin_id(23) == NodeTypeId::LOG@);
            assert(NodeTypeId::PLOT@.len() != NodeTypeId::LOG@.len());
        } else if j == 24 {
            reveal_strlit("math.map_range_float");
            assert(builtin_id(24) == NodeTypeId::MAP_RANGE@);
            assert(NodeTypeId::PLOT@.len() != NodeTypeId::MAP_RANGE@.len());
        } else if j == 25 {
            reveal_strlit("math.round_float");
            assert(builtin_id(25) == NodeTypeId::ROUND@);
            assert(NodeTypeId::PLOT@.len() != NodeTypeId::ROUND@.len());
        } else if j == 26 {
            reveal_strlit("math.scale_tensor");
            assert(builtin_id(26) == NodeTypeId::SCALE_TENSOR@);
            assert(NodeTypeId::PLOT@.len() != NodeTypeId::SCALE_TENSOR@.len());
        } else if j == 27 {
            reveal_strlit("frame_operations.scale");
            assert(builtin_id(27) == NodeTypeId::SCALE_COLOR@);
            assert(NodeTypeId::PLOT@.len() != NodeTypeId::SCALE_COLOR@.len());
        } else if j == 28 {
            reveal_strlit("frame_operations.multiply");
            assert(builtin_id(28) == NodeTypeId::MULTIPLY_COLOR@);
            assert(NodeTypeId::PLOT@.len() != NodeTypeId::MULTIPLY_COLOR@.len());
        } else if j == 29 {
            reveal_strlit("frame_operations.tint_frame");
            assert(builtin_id(29) == NodeTypeId::TINT_FRAME@);
            assert(NodeTypeId::PLOT@.len() != NodeTypeId::TINT_FRAME@.len());
        } else if j == 30 {
            reveal_strlit("frame_operations.extract_channels");
            assert(builtin_id(30) == NodeTypeId::EXTRACT_CHANNELS@);
            assert(NodeTypeId::PLOT@.len() != NodeTypeId::EXTRACT_CHANNELS@.len());
        } else if j == 31 {
            reveal_strlit("frame_operations.set_channel");
            assert(builtin_id(31) == NodeTypeId::SET_CHANNEL@);
            assert(NodeTypeId::PLOT@.len() != NodeTypeId::SET_CHANNEL@.len());
        } else if j == 32 {
            reveal_strlit("frame_operations.colorize");
            assert(builtin_id(32) == NodeTypeId::COLORIZE@);
            assert(NodeTypeId::PLOT@.len() != NodeTypeId::COLORIZE@.len());
        } else if j == 33 {
            reveal_strlit("frame_operations.mask_frame");
            assert(builtin_id(33) == NodeTypeId::MASK_FRAME@);
            assert(NodeTypeId::PLOT@.len() != NodeTypeId::MASK_FRAME@.len());
        } else if j == 34 {
            reveal_strlit("frame_operations.mix");
            assert(builtin_id(34) == NodeTypeId::MIX_COLOR@);
            assert(NodeTypeId::PLOT@.len() != NodeTypeId::MIX_COLOR@.len());
        } else if j == 35 {
            reveal_strlit("frame_operations.alpha_over");
            assert(builtin_id(35) == NodeTypeId::ALPHA_OVER@);
            assert(NodeTypeId::PLOT@.len() != NodeTypeId::ALPHA_OVER@.len());
        } else if j == 36 {
            reveal_strlit("temporal_filters.fade");
            assert(builtin_id(36) == NodeTypeId::FADE@);
            assert(NodeTypeId::PLOT@.len() != NodeTypeId::FADE@.len());
        } else if j == 37 {
            reveal_strlit("temporal_filters.integrate");
            assert(builtin_id(37) == NodeTypeId::INTEGRATE@);
            assert(NodeTypeId::PLOT@.len() != NodeTypeId::INTEGRATE@.len());
        } else if j == 38 {
            reveal_strlit("temporal_filters.moving_average");
            assert(builtin_id(38) == NodeTypeId::MOVING_AVERAGE@);
            assert(NodeTypeId::PLOT@.len() != NodeTypeId::MOVING_AVERAGE@.len());
        } else if j == 39 {
            reveal_strlit("temporal_filters.moving_median");
            assert(builtin_id(39) == NodeTypeId::MOVING_MEDIAN@);
            assert(NodeTypeId::PLOT@.len() != NodeTypeId::MOVING_MEDIAN@.len());
        } else if j == 40 {
            reveal_strlit("spatial_filters.box_blur");
            assert(builtin_id(40) == NodeTypeId::BOX_BLUR@);
            assert(NodeTypeId::PLOT@.len() != NodeTypeId::BOX_BLUR@.len());
        } else if j == 41 {
            reveal_strlit("spatial_filters.gaussian_blur");
            assert(builtin_id(41) == NodeTypeId::GAUSSIAN_BLUR@);
            assert(NodeTypeId::PLOT@.len() != NodeTypeId::GAUSSIAN_BLUR@.len());
        } else if j == 42 {
            reveal_strlit("spatial_filters.median_filter");
            assert(builtin_id(42) == NodeTypeId::MEDIAN_FILTER@);
            assert(NodeTypeId::PLOT@.len() != NodeTypeId::MEDIAN_FILTER@.len());
        } else if j == 43 {
            reveal_strlit("spatial_filters.laplacian_filter");
            assert(builtin_id(43) == NodeTypeId::LAPLACIAN_FILTER@);
            assert(NodeTypeId::PLOT@.len() != NodeTypeId::LAPLACIAN_FILTER@.len());
        } else if j == 44 {
            reveal_strlit("generators.spectrum_analyzer");
            assert(builtin_id(44) == NodeTypeId::SPECTRUM_ANALYZER@);
            assert(NodeTypeId::PLOT@.len() != NodeTypeId::SPECTRUM_ANALYZER@.len());
        } else if j == 45 {
            reveal_strlit("generators.solid_frame");
            assert(builtin_id(45) == NodeTypeId::SOLID_FRAME@);
            assert(NodeTypeId::PLOT@.len() != NodeTypeId::SOLID_FRAME@.len());
        } else if j == 46 {
            reveal_strlit("generators.rainbow_sweep");
            assert(builtin_id(46) == NodeTypeId::RAINBOW_SWEEP@);
            assert(NodeTypeId::PLOT@.len() != NodeTypeId::RAINBOW_SWEEP@.len());
        } else if j == 47 {
            reveal_strlit("generators.circle_sweep");
            assert(builtin_id(47) == NodeTypeId::CIRCLE_SWEEP@);
            assert(NodeTypeId::PLOT@.len() != NodeTypeId::CIRCLE_SWEEP@.len());
        } else if j == 48 {
            reveal_strlit("generators.level_bar");
            assert(builtin_id(48) == NodeTypeId::LEVEL_BAR@);
            assert(NodeTypeId::PLOT@.len() != NodeTypeId::LEVEL_BAR@.len());
        } else if j == 49 {
            reveal_strlit("generators.twinkle_stars");
            assert(builtin_id(49) == NodeTypeId::TWINKLE_STARS@);
            assert(NodeTypeId::PLOT@.len() != NodeTypeId::TWINKLE_STARS@.len());
        } else if j == 50 {
            reveal_strlit("generators.plasma");
            assert(builtin_id(50) == NodeTypeId::PLASMA@);
            assert(NodeTypeId::PLOT@.len() != NodeTypeId::PLASMA@.len());
        } else if j == 51 {
            reveal_strlit("generators.bouncing_balls");
            assert(builtin_id(51) == NodeTypeId::BOUNCING_BALLS@);
            assert(NodeTypeId::PLOT@.len() != NodeTypeId::BOUNCING_BALLS@.len());
        } else if j == 52 {
            reveal_strlit("debug.wled_dummy_display");
            assert(builtin_id(52) == NodeTypeId::WLED_DUMMY_DISPLAY@);
            assert(NodeTypeId::PLOT@.len() != NodeTypeId::WLED_DUMMY_DISPLAY@.len());
        } else if j == 53 {
            reveal_strlit("debug.type_debug");
            assert(builtin_id(53) == NodeTypeId::TYPE_DEBUG@);
            assert(NodeTypeId::PLOT@.len() != NodeTypeId::TYPE_DEBUG@.len());
        } else if j == 54 {
            reveal_strlit("frame_operations.frame_brightness");
            assert(builtin_id(54) == NodeTypeId::FRAME_BRIGHTNESS@);
            assert(NodeTypeId::PLOT@.len() != NodeTypeId::FRAME_BRIGHTNESS@.len());
        }
    }
}

proof fn lemma_catalog_id_5_distinct()
    ensures
        forall|j: int| 5 < j < BUILTIN_NODE_COUNT ==> builtin_id(5) != #[trigger] builtin_id(j),
{
    reveal_strlit("temporal_filters.delay");
    assert(builtin_id(5) == NodeTypeId::DELAY@);
    assert forall|j: int| 5 < j < BUILTIN_NODE_COUNT implies builtin_id(5) != #[trigger] builtin_id(j) by {
        if j == 6 {
            reveal_strlit("temporal_filters.differentiate");
            assert(builtin_id(6) == NodeTypeId::DIFFERENTIATE@);
            assert(NodeTypeId::DELAY@.len() != NodeTypeId::DIFFERENTIATE@.len());
        } else if j == 7 {
            reveal_strlit("outputs.wled_target");
            assert(builtin_id(7) == NodeTypeId::WLED_TARGET@);
            assert(NodeTypeId::DELAY@.len() != NodeTypeId::WLED_TARGET@.len());
        } else if j == 8 {
            reveal_strlit("inputs.wled_sink");
            assert(builtin_id(8) == NodeTypeId::WLED_SINK@);
            assert(NodeTypeId::DELAY@.len() != NodeTypeId::WLED_SINK@.len());
        } else if j == 9 {
            reveal_strlit("inputs.audio_fft_receiver");
            assert(builtin_id(9) == NodeTypeId::AUDIO_FFT_RECEIVER@);
            assert(NodeTypeId::DELAY@.len() != NodeTypeId::AUDIO_FFT_RECEIVER@.len());
        } else if j == 10 {
            reveal_strlit("inputs.ha_mqtt_number");
            assert(builtin_id(10) == NodeTypeId::HA_MQTT_NUMBER@);
            assert(NodeTypeId::DELAY@.len() != NodeTypeId::HA_MQTT_NUMBER@.len());
        } else if j == 11 {
            reveal_strlit("math.binary_select");
            assert(builtin_id(11) == NodeTypeId::BINARY_SELECT@);
            assert(NodeTypeId::DELAY@.len() != NodeTypeId::BINARY_SELECT@.len());
        } else if j == 12 {
            reveal_strlit("math.add_float");
            assert(builtin_id(12) == NodeTypeId::ADD@);
            assert(NodeTypeId::DELAY@.len() != NodeTypeId::ADD@.len());
        } else if j == 13 {
            reveal_strlit("math.subtract_float");
            assert(builtin_id(13) == NodeTypeId::SUBTRACT@);
            assert(NodeTypeId::DELAY@.len() != NodeTypeId::SUBTRACT@.len());
        } else if j == 14 {
            reveal_strlit("inputs.signal_generator");
            assert(builtin_id(14) == NodeTypeId::SIGNAL_GENERATOR@);
            assert(NodeTypeId::DELAY@.len() != NodeTypeId::SIGNAL_GENERATOR@.len());
        } else if j == 15 {
            reveal_strlit("math.divide_float");
            assert(builtin_id(15) == NodeTypeId::DIVIDE@);
            assert(NodeTypeId::DELAY@.len() != NodeTypeId::DIVIDE@.len());
        } else if j == 16 {
            reveal_strlit("math.min_max_float");
            assert(builtin_id(16) == NodeTypeId::MIN_MAX@);
            assert(NodeTypeId::DELAY@.len() != NodeTypeId::MIN_MAX@.len());
        } else if j == 17 {
            reveal_strlit("math.multiply_float");
            assert(builtin_id(17) == NodeTypeId::MULTIPLY@);
            assert(NodeTypeId::DELAY@.len() != NodeTypeId::MULTIPLY@.len());
        } else if j == 18 {
            reveal_strlit("math.abs_float");
            assert(builtin_id(18) == NodeTypeId::ABS@);
            assert(NodeTypeId::DELAY@.len() != NodeTypeId::ABS@.len());
        } else if j == 19 {
            reveal_strlit("math.clamp_float");
            assert(builtin_id(19) == NodeTypeId::CLAMP@);
            assert(NodeTypeId::DELAY@.len() != NodeTypeId::CLAMP@.len());
        } else if j == 20 {
            reveal_strlit("math.power_float");
            assert(builtin_id(20) == NodeTypeId::POWER@);
            assert(NodeTypeId::DELAY@.len() != NodeTypeId::POWER@.len());
        } else if j == 21 {
            reveal_strlit("math.root_float");
            assert(builtin_id(21) == NodeTypeId::ROOT@);
            assert(NodeTypeId::DELAY@.len() != NodeTypeId::ROOT@.len());
        } else if j == 22 {
            reveal_strlit("math.exponential_float");
            assert(builtin_id(22) == NodeTypeId::EXPONENTIAL@);
            assert(NodeTypeId::DELAY@[0] != NodeTypeId::EXPONENTIAL@[0]);
        } else if j == 23 {
            reveal_strlit("math.log_float");
            assert(builtin_id(23) == NodeTypeId::LOG@);
            assert(NodeTypeId::DELAY@.len() != NodeTypeId::LOG@.len());
        } else if j == 24 {
            reveal_strlit("math.map_range_float");
            assert(builtin_id(24) == NodeTypeId::MAP_RANGE@);
            assert(NodeTypeId::DELAY@.len() != NodeTypeId::MAP_RANGE@.len());
        } else if j == 25 {
            reveal_strlit("math.round_float");
            assert(builtin_id(25) == NodeTypeId::ROUND@);
            assert(NodeTypeId::DELAY@.len() != NodeTypeId::ROUND@.len());
        } else if j == 26 {
            reveal_strlit("math.scale_tensor");
            assert(builtin_id(26) == NodeTypeId::SCALE_TENSOR@);
            assert(NodeTypeId::DELAY@.len() != NodeTypeId::SCALE_TENSOR@.len());
        } else if j == 27 {
            reveal_strlit("frame_operations.scale");
            assert(builtin_id(27) == NodeTypeId::SCALE_COLOR@);
            assert(NodeTypeId::DELAY@[0] != NodeTypeId::SCALE_COLOR@[0]);
        } else if j == 28 {
            reveal_strlit("frame_operations.multiply");
            assert(builtin_id(28) == NodeTypeId::MULTIPLY_COLOR@);
            assert(NodeTypeId::DELAY@.len() != NodeTypeId::MULTIPLY_COLOR@.len());
        } else if j == 29 {
            reveal_strlit("frame_operations.tint_frame");
            assert(builtin_id(29) == NodeTypeId::TINT_FRAME@);
            assert(NodeTypeId::DELAY@.len() != NodeTypeId::TINT_FRAME@.len());
        } else if j == 30 {
            reveal_strlit("frame_operations.extract_channels");
            assert(builtin_id(30) == NodeTypeId::EXTRACT_CHANNELS@);
            assert(NodeTypeId::DELAY@.len() != NodeTypeId::EXTRACT_CHANNELS@.len());
        } else if j == 31 {
            reveal_strlit("frame_operations.set_channel");
            assert(builtin_id(31) == NodeTypeId::SET_CHANNEL@);
            assert(NodeTypeId::DELAY@.len() != NodeTypeId::SET_CHANNEL@.len());
        } else if j == 32 {
            reveal_strlit("frame_operations.colorize");
            assert(builtin_id(32) == NodeTypeId::COLORIZE@);
            assert(NodeTypeId::DELAY@.len() != NodeTypeId::COLORIZE@.len());
        } else if j == 33 {
            reveal_strlit("frame_operations.mask_frame");
            assert(builtin_id(33) == NodeTypeId::MASK_FRAME@);
            assert(NodeTypeId::DELAY@.len() != NodeTypeId::MASK_FRAME@.len());
        } else if j == 34 {
            reveal_strlit("frame_operations.mix");
            assert(builtin_id(34) == NodeTypeId::MIX_COLOR@);
            assert(NodeTypeId::DELAY@.len() != NodeTypeId::MIX_COLOR@.len());
        } else if j == 35 {
            reveal_strlit("frame_operations.alpha_over");
            assert(builtin_id(35) == NodeTypeId::ALPHA_OVER@);
            assert(NodeTypeId::DELAY@.len() != NodeTypeId::ALPHA_OVER@.len());
        } else if j == 36 {
            reveal_strlit("temporal_filters.fade");
            assert(builtin_id(36) == NodeTypeId::FADE@);
            assert(NodeTypeId::DELAY@.len() != NodeTypeId::FADE@.len());
        } else if j == 37 {
            reveal_strlit("temporal_filters.integrate");
            assert(builtin_id(37) == NodeTypeId::INTEGRATE@);
            assert(NodeTypeId::DELAY@.len() != NodeTypeId::INTEGRATE@.len());
        } else if j == 38 {
            reveal_strlit("temporal_filters.moving_average");
            assert(builtin_id(38) == NodeTypeId::MOVING_AVERAGE@);
            assert(NodeTypeId::DELAY@.len() != NodeTypeId::MOVING_AVERAGE@.len());
        } else if j == 39 {
            reveal_strlit("temporal_filters.moving_median");
            assert(builtin_id(39) == NodeTypeId::MOVING_MEDIAN@);
            assert(NodeTypeId::DELAY@.len() != NodeTypeId::MOVING_MEDIAN@.len());
        } else if j == 40 {
            reveal_strlit("spatial_filters.box_blur");
            assert(builtin_id(40) == NodeTypeId::BOX_BLUR@);
            assert(NodeTypeId::DELAY@.len() != NodeTypeId::BOX_BLUR@.len());
        } else if j == 41 {
            reveal_strlit("spatial_filters.gaussian_blur");
            assert(builtin_id(41) == NodeTypeId::GAUSSIAN_BLUR@);
            assert(NodeTypeId::DELAY@.len() != NodeTypeId::GAUSSIAN_BLUR@.len());
        } else if j == 42 {
            reveal_strlit("spatial_filters.median_filter");
            assert(builtin_id(42) == NodeTypeId::MEDIAN_FILTER@);
            assert(NodeTypeId::DELAY@.len() != NodeTypeId::MEDIAN_FILTER@.len());
        } else if j == 43 {
            reveal_strlit("spatial_filters.laplacian_filter");
            assert(builtin_id(43) == NodeTypeId::LAPLACIAN_FILTER@);
            assert(NodeTypeId::DELAY@.len() != NodeTypeId::LAPLACIAN_FILTER@.len());
        } else if j == 44 {
            reveal_strlit("generators.spectrum_analyzer");
            assert(builtin_id(44) == NodeTypeId::SPECTRUM_ANALYZER@);
            assert(NodeTypeId::DELAY@.len() != NodeTypeId::SPECTRUM_ANALYZER@.len());
        } else if j == 45 {
            reveal_strlit("generators.solid_frame");
            assert(builtin_id(45) == NodeTypeId::SOLID_FRAME@);
            assert(NodeTypeId::DELAY@[0] != NodeTypeId::SOLID_FRAME@[0]);
        } else if j == 46 {
            reveal_strlit("generators.rainbow_sweep");
            assert(builtin_id(46) == NodeTypeId::RAINBOW_SWEEP@);
            assert(NodeTypeId::DELAY@.len() != NodeTypeId::RAINBOW_SWEEP@.len());
        } else if j == 47 {
            reveal_strlit("generators.circle_sweep");
            assert(builtin_id(47) == NodeTypeId::CIRCLE_SWEEP@);
            assert(NodeTypeId::DELAY@.len() != NodeTypeId::CIRCLE_SWEEP@.len());
        } else if j == 48 {
            reveal_strlit("generators.level_bar");
            assert(builtin_id(48) == NodeTypeId::LEVEL_BAR@);
            assert(NodeTypeId::DELAY@.len() != NodeTypeId::LEVEL_BAR@.len());
        } else if j == 49 {
            reveal_strlit("generators.twinkle_stars");
            assert(builtin_id(49) == NodeTypeId::TWINKLE_STARS@);
            assert(NodeTypeId::DELAY@.len() != NodeTypeId::TWINKLE_STARS@.len());
        } else if j == 50 {
            reveal_strlit("generators.plasma");
            assert(builtin_id(50) == NodeTypeId::PLASMA@);
            assert(NodeTypeId::DELAY@.len() != NodeTypeId::PLASMA@.len());
        } else if j == 51 {
            reveal_strlit("generators.bouncing_balls");
            assert(builtin_id(51) == NodeTypeId::BOUNCING_BALLS@);
            assert(NodeTypeId::DELAY@.len() != NodeTypeId::BOUNCING_BALLS@.len());
        } else if j == 52 {
            reveal_strlit("debug.wled_dummy_display");
            assert(builtin_id(52) == NodeTypeId::WLED_DUMMY_DISPLAY@);
            assert(NodeTypeId::DELAY@.len() != NodeTypeId::WLED_DUMMY_DISPLAY@.len());
        } else if j == 53 {
            reveal_strlit("debug.type_debug");
            assert(builtin_id(53) == NodeTypeId::TYPE_DEBUG@);
            assert(NodeTypeId::DELAY@.len() != NodeTypeId::TYPE_DEBUG@.len());
        } else if j == 54 {
            reveal_strlit("frame_operations.frame_brightness");
            assert(builtin_id(54) == NodeTypeId::FRAME_BRIGHTNESS@);
            assert(NodeTypeId::DELAY@.len() != NodeTypeId::FRAME_BRIGHTNESS@.len());
        }
    }
}

proof fn lemma_catalog_id_6_distinct()
    ensures
        forall|j: int| 6 < j < BUILTIN_NODE_COUNT ==> builtin_id(6) != #[trigger] builtin_id(j),
{
    reveal_strlit("temporal_filters.differentiate");
    assert(builtin_id(6) == NodeTypeId::DIFFERENTIATE@);
    assert forall|j: int| 6 < j < BUILTIN_NODE_COUNT implies builtin_id(6) != #[trigger] builtin_id(j) by {
        if j == 7 {
            reveal_strlit("outputs.wled_target");
            assert(builtin_id(7) == NodeTypeId::WLED_TARGET@);
            assert(NodeTypeId::DIFFERENTIATE@.len() != NodeTypeId::WLED_TARGET@.len());
        } else if j == 8 {
            reveal_strlit("inputs.wled_sink");
            assert(builtin_id(8) == NodeTypeId::WLED_SINK@);
            assert(NodeTypeId::DIFFERENTIATE@.len() != NodeTypeId::WLED_SINK@.len());
        } else if j == 9 {
            reveal_strlit("inputs.audio_fft_receiver");
            assert(builtin_id(9) == NodeTypeId::AUDIO_FFT_RECEIVER@);
            assert(NodeTypeId::DIFFERENTIATE@.len() != NodeTypeId::AUDIO_FFT_RECEIVER@.len());
        } else if j == 10 {
            reveal_strlit("inputs.ha_mqtt_number");
            assert(builtin_id(10) == NodeTypeId::HA_MQTT_NUMBER@);
            assert(NodeTypeId::DIFFERENTIATE@.len() != NodeTypeId::HA_MQTT_NUMBER@.len());
        } else if j == 11 {
            reveal_strlit("math.binary_select");
            assert(builtin_id(11) == NodeTypeId::BINARY_SELECT@);
            assert(NodeTypeId::DIFFERENTIATE@.len() != NodeTypeId::BINARY_SELECT@.len());
        } else if j == 12 {
            reveal_strlit("math.add_float");
            assert(builtin_id(12) == NodeTypeId::ADD@);
            assert(NodeTypeId::DIFFERENTIATE@.len() != NodeTypeId::ADD@.len());
        } else if j == 13 {
            reveal_strlit("math.subtract_float");
            assert(builtin_id(13) == NodeTypeId::SUBTRACT@);
            assert(NodeTypeId::DIFFERENTIATE@.len() != NodeTypeId::SUBTRACT@.len());
        } else if j == 14 {
            reveal_strlit("inputs.signal_generator");
            assert(builtin_id(14) == NodeTypeId::SIGNAL_GENERATOR@);
            assert(NodeTypeId::DIFFERENTIATE@.len() != NodeTypeId::SIGNAL_GENERATOR@.len());
        } else if j == 15 {
            reveal_strlit("math.divide_float");
            assert(builtin_id(15) == NodeTypeId::DIVIDE@);
            assert(NodeTypeId::DIFFERENTIATE@.len() != NodeTypeId::DIVIDE@.len());
        } else if j == 16 {
            reveal_strlit("math.min_max_float");
            assert(builtin_id(16) == NodeTypeId::MIN_MAX@);
            assert(NodeTypeId::DIFFERENTIATE@.len() != NodeTypeId::MIN_MAX@.len());
        } else if j == 17 {
            reveal_strlit("math.multiply_float");
            assert(builtin_id(17) == NodeTypeId::MULTIPLY@);
            assert(NodeTypeId::DIFFERENTIATE@.len() != NodeTypeId::MULTIPLY@.len());
        } else if j == 18 {
            reveal_strlit("math.abs_float");
            assert(builtin_id(18) == NodeTypeId::ABS@);
            assert(NodeTypeId::DIFFERENTIATE@.len() != NodeTypeId::ABS@.len());
        } else if j == 19 {
            reveal_strlit("math.clamp_float");
            assert(builtin_id(19) == NodeTypeId::CLAMP@);
            assert(NodeTypeId::DIFFERENTIATE@.len() != NodeTypeId::CLAMP@.len());
        } else if j == 20 {
            reveal_strlit("math.power_float");
            assert(builtin_id(20) == NodeTypeId::POWER@);
            assert(NodeTypeId::DIFFERENTIATE@.len() != NodeTypeId::POWER@.len());
        } else if j == 21 {
            reveal_strlit("math.root_float");
            assert(builtin_id(21) == NodeTypeId::ROOT@);
            assert(NodeTypeId::DIFFERENTIATE@.len() != NodeTypeId::ROOT@.len());
        } else if j == 22 {
            reveal_strlit("math.exponential_float");
            assert(builtin_id(22) == NodeTypeId::EXPONENTIAL@);
            assert(NodeTypeId::DIFFERENTIATE@.len() != NodeTypeId::EXPONENTIAL@.len());
        } else if j == 23 {
            reveal_strlit("math.log_float");
            assert(builtin_id(23) == NodeTypeId::LOG@);
            assert(NodeTypeId::DIFFERENTIATE@.len() != NodeTypeId::LOG@.len());
        } else if j == 24 {
            reveal_strlit("math.map_range_float");
            assert(builtin_id(24) == NodeTypeId::MAP_RANGE@);
            assert(NodeTypeId::DIFFERENTIATE@.len() != NodeTypeId::MAP_RANGE@.len());
        } else if j == 25 {
            reveal_strlit("math.round_float");
            assert(builtin_id(25) == NodeTypeId::ROUND@);
            assert(NodeTypeId::DIFFERENTIATE@.len() != NodeTypeId::ROUND@.len());
        } else if j == 26 {
            reveal_strlit("math.scale_tensor");
            assert(builtin_id(26) == NodeTypeId::SCALE_TENSOR@);
            assert(NodeTypeId::DIFFERENTIATE@.len() != NodeTypeId::SCALE_TENSOR@.len());
        } else if j == 27 {
            reveal_strlit("frame_operations.scale");
            assert(builtin_id(27) == NodeTypeId::SCALE_COLOR@);
            assert(NodeTypeId::DIFFERENTIATE@.len() != NodeTypeId::SCALE_COLOR@.len());
        } else if j == 28 {
            reveal_strlit("frame_operations.multiply");
            assert(builtin_id(28) == NodeTypeId::MULTIPLY_COLOR@);
            assert(NodeTypeId::DIFFERENTIATE@.len() != NodeTypeId::MULTIPLY_COLOR@.len());
        } else if j == 29 {
            reveal_strlit("frame_operations.tint_frame");
            assert(builtin_id(29) == NodeTypeId::TINT_FRAME@);
            assert(NodeTypeId::DIFFERENTIATE@.len() != NodeTypeId::TINT_FRAME@.len());
        } else if j == 30 {
            reveal_strlit("frame_operations.extract_channels");
            assert(builtin_id(30) == NodeTypeId::EXTRACT_CHANNELS@);
            assert(NodeTypeId::DIFFERENTIATE@.len() != NodeTypeId::EXTRACT_CHANNELS@.len());
        } else if j == 31 {
            reveal_strlit("frame_operations.set_channel");
            assert(builtin_id(31) == NodeTypeId::SET_CHANNEL@);
            assert(NodeTypeId::DIFFERENTIATE@.len() != NodeTypeId::SET_CHANNEL@.len());
        } else if j == 32 {
            reveal_strlit("frame_operations.colorize");
            assert(builtin_id(32) == NodeTypeId::COLORIZE@);
            assert(NodeTypeId::DIFFERENTIATE@.len() != NodeTypeId::COLORIZE@.len());
        } else if j == 33 {
            reveal_strlit("frame_operations.mask_frame");
            assert(builtin_id(33) == NodeTypeId::MASK_FRAME@);
            assert(NodeTypeId::DIFFERENTIATE@.len() != NodeTypeId::MASK_FRAME@.len());
        } else if j == 34 {
            reveal_strlit("frame_operations.mix");
            assert(builtin_id(34) == NodeTypeId::MIX_COLOR@);
            assert(NodeTypeId::DIFFERENTIATE@.len() != NodeTypeId::MIX_COLOR@.len());
        } else if j == 35 {
            reveal_strlit("frame_operations.alpha_over");
            assert(builtin_id(35) == NodeTypeId::ALPHA_OVER@);
            assert(NodeTypeId::DIFFERENTIATE@.len() != NodeTypeId::ALPHA_OVER@.len());
        } else if j == 36 {
            reveal_strlit("temporal_filters.fade");
            assert(builtin_id(36) == NodeTypeId::FADE@);
            assert(NodeTypeId::DIFFERENTIATE@.len() != NodeTypeId::FADE@.len());
        } else if j == 37 {
            reveal_strlit("temporal_filters.integrate");
            assert(builtin_id(37) == NodeTypeId::INTEGRATE@);
            assert(NodeTypeId::DIFFERENTIATE@.len() != NodeTypeId::INTEGRATE@.len());
        } else if j == 38 {
            reveal_strlit("temporal_filters.moving_average");
            assert(builtin_id(38) == NodeTypeId::MOVING_AVERAGE@);
            assert(NodeTypeId::DIFFERENTIATE@.len() != NodeTypeId::MOVING_AVERAGE@.len());
        } else if j == 39 {
            reveal_strlit("temporal_filters.moving_median");
            assert(builtin_id(39) == NodeTypeId::MOVING_MEDIAN@);
            assert(NodeTypeId::DIFFERENTIATE@[17] != NodeTypeId::MOVING_MEDIAN@[17]);
        } else if j == 40 {
            reveal_strlit("spatial_filters.box_blur");
            assert(builtin_id(40) == NodeTypeId::BOX_BLUR@);
            assert(NodeTypeId::DIFFERENTIATE@.len() != NodeTypeId::BOX_BLUR@.len());
        } else if j == 41 {
            reveal_strlit("spatial_filters.gaussian_blur");
            assert(builtin_id(41) == NodeTypeId::GAUSSIAN_BLUR@);
            assert(NodeTypeId::DIFFERENTIATE@.len() != NodeTypeId::GAUSSIAN_BLUR@.len());
        } else if j == 42 {
            reveal_strlit("spatial_filters.median_filter");
            assert(builtin_id(42) == NodeTypeId::MEDIAN_FILTER@);
            assert(NodeTypeId::DIFFERENTIATE@.len() != NodeTypeId::MEDIAN_FILTER@.len());
        } else if j == 43 {
            reveal_strlit("spatial_filters.laplacian_filter");
            assert(builtin_id(43) == NodeTypeId::LAPLACIAN_FILTER@);
            assert(NodeTypeId::DIFFERENTIATE@.len() != NodeTypeId::LAPLACIAN_FILTER@.len());
        } else if j == 44 {
            reveal_strlit("generators.spectrum_analyzer");
            assert(builtin_id(44) == NodeTypeId::SPECTRUM_ANALYZER@);
            assert(NodeTypeId::DIFFERENTIATE@.len() != NodeTypeId::SPECTRUM_ANALYZER@.len());
        } else if j == 45 {
            reveal_strlit("generators.solid_frame");
            assert(builtin_id(45) == NodeTypeId::SOLID_FRAME@);
            assert(NodeTypeId::DIFFERENTIATE@.len() != NodeTypeId::SOLID_FRAME@.len());
        } else if j == 46 {
            reveal_strlit("generators.rainbow_sweep");
            assert(builtin_id(46) == NodeTypeId::RAINBOW_SWEEP@);
            assert(NodeTypeId::DIFFERENTIATE@.len() != NodeTypeId::RAINBOW_SWEEP@.len());
        } else if j == 47 {
            reveal_strlit("generators.circle_sweep");
            assert(builtin_id(47) == NodeTypeId::CIRCLE_SWEEP@);
            assert(NodeTypeId::DIFFERENTIATE@.len() != NodeTypeId::CIRCLE_SWEEP@.len());
        } else if j == 48 {
            reveal_strlit("generators.level_bar");
            assert(builtin_id(48) == NodeTypeId::LEVEL_BAR@);
            assert(NodeTypeId::DIFFERENTIATE@.len() != NodeTypeId::LEVEL_BAR@.len());
        } else if j == 49 {
            reveal_strlit("generators.twinkle_stars");
            assert(builtin_id(49) == NodeTypeId::TWINKLE_STARS@);
            assert(NodeTypeId::DIFFERENTIATE@.len() != NodeTypeId::TWINKLE_STARS@.len());
        } else if j == 50 {
            reveal_strlit("generators.plasma");
            assert(builtin_id(50) == NodeTypeId::PLASMA@);
            assert(NodeTypeId::DIFFERENTIATE@.len() != NodeTypeId::PLASMA@.len());
        } else if j == 51 {
            reveal_strlit("generators.bouncing_balls");
            assert(builtin_id(51) == NodeTypeId::BOUNCING_BALLS@);
            assert(NodeTypeId::DIFFERENTIATE@.len() != NodeTypeId::BOUNCING_BALLS@.len());
        } else if j == 52 {
            reveal_strlit("debug.wled_dummy_display");
            assert(builtin_id(52) == NodeTypeId::WLED_DUMMY_DISPLAY@);
            assert(NodeTypeId::DIFFERENTIATE@.len() != NodeTypeId::WLED_DUMMY_DISPLAY@.len());
        } else if j == 53 {
            reveal_strlit("debug.type_debug");
            assert(builtin_id(53) == NodeTypeId::TYPE_DEBUG@);
            assert(NodeTypeId::DIFFERENTIATE@.len() != NodeTypeId::TYPE_DEBUG@.len());
        } else if j == 54 {
            reveal_strlit("frame_operations.frame_brightness");
            assert(builtin_id(54) == NodeTypeId::FRAME_BRIGHTNESS@);
            assert(NodeTypeId::DIFFERENTIATE@.len() != NodeTypeId::FRAME_BRIGHTNESS@.len());
        }
    }
}

proof fn lemma_catalog_id_7_distinct()
    ensures
        forall|j: int| 7 < j < BUILTIN_NODE_COUNT ==> builtin_id(7) != #[trigger] builtin_id(j),
{
    reveal_strlit("outputs.wled_target");
    assert(builtin_id(7) == NodeTypeId::WLED_TARGET@);
    assert forall|j: int| 7 < j < BUILTIN_NODE_COUNT implies builtin_id(7) != #[trigger] builtin_id(j) by {
        if j == 8 {
            reveal_strlit("inputs.wled_sink");
            assert(builtin_id(8) == NodeTypeId::WLED_SINK@);
            assert(NodeTypeId::WLED_TARGET@.len() != NodeTypeId::WLED_SINK@.len());
        } else if j == 9 {
            reveal_strlit("inputs.audio_fft_receiver");
            assert(builtin_id(9) == NodeTypeId::AUDIO_FFT_RECEIVER@);
            assert(NodeTypeId::WLED_TARGET@.len() != NodeTypeId::AUDIO_FFT_RECEIVER@.len());
        } else if j == 10 {
            reveal_strlit("inputs.ha_mqtt_number");
            assert(builtin_id(10) == NodeTypeId::HA_MQTT_NUMBER@);
            assert(NodeTypeId::WLED_TARGET@.len() != NodeTypeId::HA_MQTT_NUMBER@.len());
        } else if j == 11 {
            reveal_strlit("math.binary_select");
            assert(builtin_id(11) == NodeTypeId::BINARY_SELECT@);
            assert(NodeTypeId::WLED_TARGET@.len() != NodeTypeId::BINARY_SELECT@.len());
        } else if j == 12 {
            reveal_strlit("math.add_float");
            assert(builtin_id(12) == NodeTypeId::ADD@);
            assert(NodeTypeId::WLED_TARGET@.len() != NodeTypeId::ADD@.len());
        } else if j == 13 {
            reveal_strlit("math.subtract_float");
            assert(builtin_id(13) == NodeTypeId::SUBTRACT@);
            assert(NodeTypeId::WLED_TARGET@[0] != NodeTypeId::SUBTRACT@[0]);
        } else if j == 14 {
            reveal_strlit("inputs.signal_generator");
            assert(builtin_id(14) == NodeTypeId::SIGNAL_GENERATOR@);
            assert(NodeTypeId::WLED_TARGET@.len() != NodeTypeId::SIGNAL_GENERATOR@.len());
        } else if j == 15 {
            reveal_strlit("math.divide_float");
            assert(builtin_id(15) == NodeTypeId::DIVIDE@);
            assert(NodeTypeId::WLED_TARGET@.len() != NodeTypeId::DIVIDE@.len());
        } else if j == 16 {
            reveal_strlit("math.min_max_float");
            assert(builtin_id(16) == NodeTypeId::MIN_MAX@);
            assert(NodeTypeId::WLED_TARGET@.len() != NodeTypeId::MIN_MAX@.len());
        } else if j == 17 {
            reveal_strlit("math.multiply_float");
            assert(builtin_id(17) == NodeTypeId::MULTIPLY@);
            assert(NodeTypeId::WLED_TARGET@[0] != NodeTypeId::MULTIPLY@[0]);
        } else if j == 18 {
            reveal_strlit("math.abs_float");
            assert(builtin_id(18) == NodeTypeId::ABS@);
            assert(NodeTypeId::WLED_TARGET@.len() != NodeTypeId::ABS@.len());
        } else if j == 19 {
            reveal_strlit("math.clamp_float");
            assert(builtin_id(19) == NodeTypeId::CLAMP@);
            assert(NodeTypeId::WLED_TARGET@.len() != NodeTypeId::CLAMP@.len());
        } else if j == 20 {
            reveal_strlit("math.power_float");
            assert(builtin_id(20) == NodeTypeId::POWER@);
            assert(NodeTypeId::WLED_TARGET@.len() != NodeTypeId::POWER@.len());
        } else if j == 21 {
            reveal_strlit("math.root_float");
            assert(builtin_id(21) == NodeTypeId::ROOT@);
            assert(NodeTypeId::WLED_TARGET@.len() != NodeTypeId::ROOT@.len());
        } else if j == 22 {
            reveal_strlit("math.exponential_float");
            assert(builtin_id(22) == NodeTypeId::EXPONENTIAL@);
            assert(NodeTypeId::WLED_TARGET@.len() != NodeTypeId::EXPONENTIAL@.len());
        } else if j == 23 {
            reveal_strlit("math.log_float");
            assert(builtin_id(23) == NodeTypeId::LOG@);
            assert(NodeTypeId::WLED_TARGET@.len() != NodeTypeId::LOG@.len());
        } else if j == 24 {
            reveal_strlit("math.map_range_float");
            assert(builtin_id(24) == NodeTypeId::MAP_RANGE@);
            assert(NodeTypeId::WLED_TARGET@.len() != NodeTypeId::MAP_RANGE@.len());
        } else if j == 25 {
            reveal_strlit("math.round_float");
            assert(builtin_id(25) == NodeTypeId::ROUND@);
            assert(NodeTypeId::WLED_TARGET@.len() != NodeTypeId::ROUND@.len());
        } else if j == 26 {
            reveal_strlit("math.scale_tensor");
            assert(builtin_id(26) == NodeTypeId::SCALE_TENSOR@);
            assert(NodeTypeId::WLED_TARGET@.len() != NodeTypeId::SCALE_TENSOR@.len());
        } else if j == 27 {
            reveal_strlit("frame_operations.scale");
            assert(builtin_id(27) == NodeTypeId::SCALE_COLOR@);
            assert(NodeTypeId::WLED_TARGET@.len() != NodeTypeId::SCALE_COLOR@.len());
        } else if j == 28 {
            reveal_strlit("frame_operations.multiply");
            assert(builtin_id(28) == NodeTypeId::MULTIPLY_COLOR@);
            assert(NodeTypeId::WLED_TARGET@.len() != NodeTypeId::MULTIPLY_COLOR@.len());
        } else if j == 29 {
            reveal_strlit("frame_operations.tint_frame");
            assert(builtin_id(29) == NodeTypeId::TINT_FRAME@);
            assert(NodeTypeId::WLED_TARGET@.len() != NodeTypeId::TINT_FRAME@.len());
        } else if j == 30 {
            reveal_strlit("frame_operations.extract_channels");
            assert(builtin_id(30) == NodeTypeId::EXTRACT_CHANNELS@);
            assert(NodeTypeId::WLED_TARGET@.len() != NodeTypeId::EXTRACT_CHANNELS@.len());
        } else if j == 31 {
            reveal_strlit("frame_operations.set_channel");
            assert(builtin_id(31) == NodeTypeId::SET_CHANNEL@);
            assert(NodeTypeId::WLED_TARGET@.len() != NodeTypeId::SET_CHANNEL@.len());
        } else if j == 32 {
            reveal_strlit("frame_operations.colorize");
            assert(builtin_id(32) == NodeTypeId::COLORIZE@);
            assert(NodeTypeId::WLED_TARGET@.len() != NodeTypeId::COLORIZE@.len());
        } else if j == 33 {
            reveal_strlit("frame_operations.mask_frame");
            assert(builtin_id(33) == NodeTypeId::MASK_FRAME@);
            assert(NodeTypeId::WLED_TARGET@.len() != NodeTypeId::MASK_FRAME@.len());
        } else if j == 34 {
            reveal_strlit("frame_operations.mix");
            assert(builtin_id(34) == NodeTypeId::MIX_COLOR@);
            assert(NodeTypeId::WLED_TARGET@.len() != NodeTypeId::MIX_COLOR@.len());
        } else if j == 35 {
            reveal_strlit("frame_operations.alpha_over");
            assert(builtin_id(35) == NodeTypeId::ALPHA_OVER@);
            assert(NodeTypeId::WLED_TARGET@.len() != NodeTypeId::ALPHA_OVER@.len());
        } else if j == 36 {
            reveal_strlit("temporal_filters.fade");
            assert(builtin_id(36) == NodeTypeId::FADE@);
            assert(NodeTypeId::WLED_TARGET@.len() != NodeTypeId::FADE@.len());
        } else if j == 37 {
            reveal_strlit("temporal_filters.integrate");
            assert(builtin_id(37) == NodeTypeId::INTEGRATE@);
            assert(NodeTypeId::WLED_TARGET@.len() != NodeTypeId::INTEGRATE@.len());
        } else if j == 38 {
            reveal_strlit("temporal_filters.moving_average");
            assert(builtin_id(38) == NodeTypeId::MOVING_AVERAGE@);
            assert(NodeTypeId::WLED_TARGET@.len() != NodeTypeId::MOVING_AVERAGE@.len());
        } else if j == 39 {
            reveal_strlit("temporal_filters.moving_median");
            assert(builtin_id(39) == NodeTypeId::MOVING_MEDIAN@);
            assert(NodeTypeId::WLED_TARGET@.len() != NodeTypeId::MOVING_MEDIAN@.len());
        } else if j == 40 {
            reveal_strlit("spatial_filters.box_blur");
            assert(builtin_id(40) == NodeTypeId::BOX_BLUR@);
            assert(NodeTypeId::WLED_TARGET@.len() != NodeTypeId::BOX_BLUR@.len());
        } else if j == 41 {
            reveal_strlit("spatial_filters.gaussian_blur");
            assert(builtin_id(41) == NodeTypeId::GAUSSIAN_BLUR@);
            assert(NodeTypeId::WLED_TARGET@.len() != NodeTypeId::GAUSSIAN_BLUR@.len());
        } else if j == 42 {
            reveal_strlit("spatial_filters.median_filter");
            assert(builtin_id(42) == NodeTypeId::MEDIAN_FILTER@);
            assert(NodeTypeId::WLED_TARGET@.len() != NodeTypeId::MEDIAN_FILTER@.len());
        } else if j == 43 {
            reveal_strlit("spatial_filters.laplacian_filter");
            assert(builtin_id(43) == NodeTypeId::LAPLACIAN_FILTER@);
            assert(NodeTypeId::WLED_TARGET@.len() != NodeTypeId::LAPLACIAN_FILTER@.len());
        } else if j == 44 {
            reveal_strlit("generators.spectrum_analyzer");
            assert(builtin_id(44) == NodeTypeId::SPECTRUM_ANALYZER@);
            assert(NodeTypeId::WLED_TARGET@.len() != NodeTypeId::SPECTRUM_ANALYZER@.len());
        } else if j == 45 {
            reveal_strlit("generators.solid_frame");
            assert(builtin_id(45) == NodeTypeId::SOLID_FRAME@);
            assert(NodeTypeId::WLED_TARGET@.len() != NodeTypeId::SOLID_FRAME@.len());
        } else if j == 46 {
            reveal_strlit("generators.rainbow_sweep");
            assert(builtin_id(46) == NodeTypeId::RAINBOW_SWEEP@);
            assert(NodeTypeId::WLED_TARGET@.len() != NodeTypeId::RAINBOW_SWEEP@.len());
        } else if j == 47 {
            reveal_strlit("generators.circle_sweep");
            assert(builtin_id(47) == NodeTypeId::CIRCLE_SWEEP@);
            assert(NodeTypeId::WLED_TARGET@.len() != NodeTypeId::CIRCLE_SWEEP@.len());
        } else if j == 48 {
            reveal_strlit("generators.level_bar");
            assert(builtin_id(48) == NodeTypeId::LEVEL_BAR@);
            assert(NodeTypeId::WLED_TARGET@.len() != NodeTypeId::LEVEL_BAR@.len());
        } else if j == 49 {
            reveal_strlit("generators.twinkle_stars");
            assert(builtin_id(49) == NodeTypeId::TWINKLE_STARS@);
            assert(NodeTypeId::WLED_TARGET@.len() != NodeTypeId::TWINKLE_STARS@.len());
        } else if j == 50 {
            reveal_strlit("generators.plasma");
            assert(builtin_id(50) == NodeTypeId::PLASMA@);
            assert(NodeTypeId::WLED_TARGET@.len() != NodeTypeId::PLASMA@.len());
        } else if j == 51 {
            reveal_strlit("generators.bouncing_balls");
            assert(builtin_id(51) == NodeTypeId::BOUNCING_BALLS@);
            assert(NodeTypeId::WLED_TARGET@.len() != NodeTypeId::BOUNCING_BALLS@.len());
        } else if j == 52 {
            reveal_strlit("debug.wled_dummy_display");
            assert(builtin_id(52) == NodeTypeId::WLED_DUMMY_DISPLAY@);
            assert(NodeTypeId::WLED_TARGET@.len() != NodeTypeId::WLED_DUMMY_DISPLAY@.len());
        } else if j == 53 {
            reveal_strlit("debug.type_debug");
            assert(builtin_id(53) == NodeTypeId::TYPE_DEBUG@);
            assert(NodeTypeId::WLED_TARGET@.len() != NodeTypeId::TYPE_DEBUG@.len());
        } else if j == 54 {
            reveal_strlit("frame_operations.frame_brightness");
            assert(builtin_id(54) == NodeTypeId::FRAME_BRIGHTNESS@);
            assert(NodeTypeId::WLED_TARGET@.len() != NodeTypeId::FRAME_BRIGHTNESS@.len());
        }
    }
}

proof fn lemma_catalog_id_8_distinct()
    ensures
        forall|j: int| 8 < j < BUILTIN_NODE_COUNT ==> builtin_id(8) != #[trigger] builtin_id(j),
{
    reveal_strlit("inputs.wled_sink");
    assert(builtin_id(8) == NodeTypeId::WLED_SINK@);
    assert forall|j: int| 8 < j < BUILTIN_NODE_COUNT implies builtin_id(8) != #[trigger] builtin_id(j) by {
        if j == 9 {
            reveal_strlit("inputs.audio_fft_receiver");
            assert(builtin_id(9) == NodeTypeId::AUDIO_FFT_RECEIVER@);
            assert(NodeTypeId::WLED_SINK@.len() != NodeTypeId::AUDIO_FFT_RECEIVER@.len());
        } else if j == 10 {
            reveal_strlit("inputs.ha_mqtt_number");
            assert(builtin_id(10) == NodeTypeId::HA_MQTT_NUMBER@);
            assert(NodeTypeId::WLED_SINK@.len() != NodeTypeId::HA_MQTT_NUMBER@.len());
        } else if j == 11 {
            reveal_strlit("math.binary_select");
            assert(builtin_id(11) == NodeTypeId::BINARY_SELECT@);
            assert(NodeTypeId::WLED_SINK@.len() != NodeTypeId::BINARY_SELECT@.len());
        } else if j == 12 {
            reveal_strlit("math.add_float");
            assert(builtin_id(12) == NodeTypeId::ADD@);
            assert(NodeTypeId::WLED_SINK@.len() != NodeTypeId::ADD@.len());
        } else if j == 13 {
            reveal_strlit("math.subtract_float");
            assert(builtin_id(13) == NodeTypeId::SUBTRACT@);
            assert(NodeTypeId::WLED_SINK@.len() != NodeTypeId::SUBTRACT@.len());
        } else if j == 14 {
            reveal_strlit("inputs.signal_generator");
            assert(builtin_id(14) == NodeTypeId::SIGNAL_GENERATOR@);
            assert(NodeTypeId::WLED_SINK@.len() != NodeTypeId::SIGNAL_GENERATOR@.len());
        } else if j == 15 {
            reveal_strlit("math.divide_float");
            assert(builtin_id(15) == NodeTypeId::DIVIDE@);
            assert(NodeTypeId::WLED_SINK@.len() != NodeTypeId::DIVIDE@.len());
        } else if j == 16 {
            reveal_strlit("math.min_max_float");
            assert(builtin_id(16) == NodeTypeId::MIN_MAX@);
            assert(NodeTypeId::WLED_SINK@.len() != NodeTypeId::MIN_MAX@.len());
        } else if j == 17 {
            reveal_strlit("math.multiply_float");
            assert(builtin_id(17) == NodeTypeId::MULTIPLY@);
            assert(NodeTypeId::WLED_SINK@.len() != NodeTypeId::MULTIPLY@.len());
        } else if j == 18 {
            reveal_strlit("math.abs_float");
            assert(builtin_id(18) == NodeTypeId::ABS@);
            assert(NodeTypeId::WLED_SINK@.len() != NodeTypeId::ABS@.len());
        } else if j == 19 {
            reveal_strlit("math.clamp_float");
            assert(builtin_id(19) == NodeTypeId::CLAMP@);
            assert(NodeTypeId::WLED_SINK@[0] != NodeTypeId::CLAMP@[0]);
        } else if j == 20 {
            reveal_strlit("math.power_float");
            assert(builtin_id(20) == NodeTypeId::POWER@);
            assert(NodeTypeId::WLED_SINK@[0] != NodeTypeId::POWER@[0]);
        } else if j == 21 {
            reveal_strlit("math.root_float");
            assert(builtin_id(21) == NodeTypeId::ROOT@);
            assert(NodeTypeId::WLED_SINK@.len() != NodeTypeId::ROOT@.len());
        } else if j == 22 {
            reveal_strlit("math.exponential_float");
            assert(builtin_id(22) == NodeTypeId::EXPONENTIAL@);
            assert(NodeTypeId::WLED_SINK@.len() != NodeTypeId::EXPONENTIAL@.len());
        } else if j == 23 {
            reveal_strlit("math.log_float");
            assert(builtin_id(23) == NodeTypeId::LOG@);
            assert(NodeTypeId::WLED_SINK@.len() != NodeTypeId::LOG@.len());
        } else if j == 24 {
            reveal_strlit("math.map_range_float");
            assert(builtin_id(24) == NodeTypeId::MAP_RANGE@);
            assert(NodeTypeId::WLED_SINK@.len() != NodeTypeId::MAP_RANGE@.len());
        } else if j == 25 {
            reveal_strlit("math.round_float");
            assert(builtin_id(25) == NodeTypeId::ROUND@);
            assert(NodeTypeId::WLED_SINK@[0] != NodeTypeId::ROUND@[0]);
        } else if j == 26 {
            reveal_strlit("math.scale_tensor");
            assert(builtin_id(26) == NodeTypeId::SCALE_TENSOR@);
            assert(NodeTypeId::WLED_SINK@.len() != NodeTypeId::SCALE_TENSOR@.len());
        } else if j == 27 {
            reveal_strlit("frame_operations.scale");
            assert(builtin_id(27) == NodeTypeId::SCALE_COLOR@);
            assert(NodeTypeId::WLED_SINK@.len() != NodeTypeId::SCALE_COLOR@.len());
        } else if j == 28 {
            reveal_strlit("frame_operations.multiply");
            assert(builtin_id(28) == NodeTypeId::MULTIPLY_COLOR@);
            assert(NodeTypeId::WLED_SINK@.len() != NodeTypeId::MULTIPLY_COLOR@.len());
        } else if j == 29 {
            reveal_strlit("frame_operations.tint_frame");
            assert(builtin_id(29) == NodeTypeId::TINT_FRAME@);
            assert(NodeTypeId::WLED_SINK@.len() != NodeTypeId::TINT_FRAME@.len());
        } else if j == 30 {
            reveal_strlit("frame_operations.extract_channels");
            assert(builtin_id(30) == NodeTypeId::EXTRACT_CHANNELS@);
            assert(NodeTypeId::WLED_SINK@.len() != NodeTypeId::EXTRACT_CHANNELS@.len());
        } else if j == 31 {
            reveal_strlit("frame_operations.set_channel");
            assert(builtin_id(31) == NodeTypeId::SET_CHANNEL@);
            assert(NodeTypeId::WLED_SINK@.len() != NodeTypeId::SET_CHANNEL@.len());
        } else if j == 32 {
            reveal_strlit("frame_operations.colorize");
            assert(builtin_id(32) == NodeTypeId::COLORIZE@);
            assert(NodeTypeId::WLED_SINK@.len() != NodeTypeId::COLORIZE@.len());
        } else if j == 33 {
            reveal_strlit("frame_operations.mask_frame");
            assert(builtin_id(33) == NodeTypeId::MASK_FRAME@);
            assert(NodeTypeId::WLED_SINK@.len() != NodeTypeId::MASK_FRAME@.len());
        } else if j == 34 {
            reveal_strlit("frame_operations.mix");
            assert(builtin_id(34) == NodeTypeId::MIX_COLOR@);
            assert(NodeTypeId::WLED_SINK@.len() != NodeTypeId::MIX_COLOR@.len());
        } else if j == 35 {
            reveal_strlit("frame_operations.alpha_over");
            assert(builtin_id(35) == NodeTypeId::ALPHA_OVER@);
            assert(NodeTypeId::WLED_SINK@.len() != NodeTypeId::ALPHA_OVER@.len());
        } else if j == 36 {
            reveal_strlit("temporal_filters.fade");
            assert(builtin_id(36) == NodeTypeId::FADE@);
            assert(NodeTypeId::WLED_SINK@.len() != NodeTypeId::FADE@.len());
        } else if j == 37 {
            reveal_strlit("temporal_filters.integrate");
            assert(builtin_id(37) == NodeTypeId::INTEGRATE@);
            assert(NodeTypeId::WLED_SINK@.len() != NodeTypeId::INTEGRATE@.len());
        } else if j == 38 {
            reveal_strlit("temporal_filters.moving_average");
            assert(builtin_id(38) == NodeTypeId::MOVING_AVERAGE@);
            assert(NodeTypeId::WLED_SINK@.len() != NodeTypeId::MOVING_AVERAGE@.len());
        } else if j == 39 {
            reveal_strlit("temporal_filters.moving_median");
            assert(builtin_id(39) == NodeTypeId::MOVING_MEDIAN@);
            assert(NodeTypeId::WLED_SINK@.len() != NodeTypeId::MOVING_MEDIAN@.len());
        } else if j == 40 {
            reveal_strlit("spatial_filters.box_blur");
            assert(builtin_id(40) == NodeTypeId::BOX_BLUR@);
            assert(NodeTypeId::WLED_SINK@.len() != NodeTypeId::BOX_BLUR@.len());
        } else if j == 41 {
            reveal_strlit("spatial_filters.gaussian_blur");
            assert(builtin_id(41) == NodeTypeId::GAUSSIAN_BLUR@);
            assert(NodeTypeId::WLED_SINK@.len() != NodeTypeId::GAUSSIAN_BLUR@.len());
        } else if j == 42 {
            reveal_strlit("spatial_filters.median_filter");
            assert(builtin_id(42) == NodeTypeId::MEDIAN_FILTER@);
            assert(NodeTypeId::WLED_SINK@.len() != NodeTypeId::MEDIAN_FILTER@.len());
        } else if j == 43 {
            reveal_strlit("spatial_filters.laplacian_filter");
            assert(builtin_id(43) == NodeTypeId::LAPLACIAN_FILTER@);
            assert(NodeTypeId::WLED_SINK@.len() != NodeTypeId::LAPLACIAN_FILTER@.len());
        } else if j == 44 {
            reveal_strlit("generators.spectrum_analyzer");
            assert(builtin_id(44) == NodeTypeId::SPECTRUM_ANALYZER@);
            assert(NodeTypeId::WLED_SINK@.len() != NodeTypeId::SPECTRUM_ANALYZER@.len());
        } else if j == 45 {
            reveal_strlit("generators.solid_frame");
            assert(builtin_id(45) == NodeTypeId::SOLID_FRAME@);
            assert(NodeTypeId::WLED_SINK@.len() != NodeTypeId::SOLID_FRAME@.len());
        } else if j == 46 {
            reveal_strlit("generators.rainbow_sweep");
            assert(builtin_id(46) == NodeTypeId::RAINBOW_SWEEP@);
            assert(NodeTypeId::WLED_SINK@.len() != NodeTypeId::RAINBOW_SWEEP@.len());
        } else if j == 47 {
            reveal_strlit("generators.circle_sweep");
            assert(builtin_id(47) == NodeTypeId::CIRCLE_SWEEP@);
            assert(NodeTypeId::WLED_SINK@.len() != NodeTypeId::CIRCLE_SWEEP@.len());
        } else if j == 48 {
            reveal_strlit("generators.level_bar");
            assert(builtin_id(48) == NodeTypeId::LEVEL_BAR@);
            assert(NodeTypeId::WLED_SINK@.len() != NodeTypeId::LEVEL_BAR@.len());
        } else if j == 49 {
            reveal_strlit("generators.twinkle_stars");
            assert(builtin_id(49) == NodeTypeId::TWINKLE_STARS@);
            assert(NodeTypeId::WLED_SINK@.len() != NodeTypeId::TWINKLE_STARS@.len());
        } else if j == 50 {
            reveal_strlit("generators.plasma");
            assert(builtin_id(50) == NodeTypeId::PLASMA@);
            assert(NodeTypeId::WLED_SINK@.len() != NodeTypeId::PLASMA@.len());
        } else if j == 51 {
            reveal_strlit("generators.bouncing_balls");
            assert(builtin_id(51) == NodeTypeId::BOUNCING_BALLS@);
            assert(NodeTypeId::WLED_SINK@.len() != NodeTypeId::BOUNCING_BALLS@.len());
        } else if j == 52 {
            reveal_strlit("debug.wled_dummy_display");
            assert(builtin_id(52) == NodeTypeId::WLED_DUMMY_DISPLAY@);
            assert(NodeTypeId::WLED_SINK@.len() != NodeTypeId::WLED_DUMMY_DISPLAY@.len());
        } else if j == 53 {
            reveal_strlit("debug.type_debug");
            assert(builtin_id(53) == NodeTypeId::TYPE_DEBUG@);
            assert(NodeTypeId::WLED_SINK@[0] != NodeTypeId::TYPE_DEBUG@[0]);
        } else if j == 54 {
            reveal_strlit("frame_operations.frame_brightness");
            assert(builtin_id(54) == NodeTypeId::FRAME_BRIGHTNESS@);
            assert(NodeTypeId::WLED_SINK@.len() != NodeTypeId::FRAME_BRIGHTNESS@.len());
        }
    }
}

proof fn lemma_catalog_id_9_distinct()
    ensures
        forall|j: int| 9 < j < BUILTIN_NODE_COUNT ==> builtin_id(9) != #[trigger] builtin_id(j),
{
    reveal_strlit("inputs.audio_fft_receiver");
    assert(builtin_id(9) == NodeTypeId::AUDIO_FFT_RECEIVER@);
    assert forall|j: int| 9 < j < BUILTIN_NODE_COUNT implies builtin_id(9) != #[trigger] builtin_id(j) by {
        if j == 10 {
            reveal_strlit("inputs.ha_mqtt_number");
            assert(builtin_id(10) == NodeTypeId::HA_MQTT_NUMBER@);
            assert(NodeTypeId::AUDIO_FFT_RECEIVER@.len() != NodeTypeId::HA_MQTT_NUMBER@.len());
        } else if j == 11 {
            reveal_strlit("math.binary_select");
            assert(builtin_id(11) == NodeTypeId::BINARY_SELECT@);
            assert(NodeTypeId::AUDIO_FFT_RECEIVER@.len() != NodeTypeId::BINARY_SELECT@.len());
        } else if j == 12 {
            reveal_strlit("math.add_float");
            assert(builtin_id(12) == NodeTypeId::ADD@);
            assert(NodeTypeId::AUDIO_FFT_RECEIVER@.len() != NodeTypeId::ADD@.len());
        } else if j == 13 {
            reveal_strlit("math.subtract_float");
            assert(builtin_id(13) == NodeTypeId::SUBTRACT@);
            assert(NodeTypeId::AUDIO_FFT_RECEIVER@.len() != NodeTypeId::SUBTRACT@.len());
        } else if j == 14 {
            reveal_strlit("inputs.signal_generator");
            assert(builtin_id(14) == NodeTypeId::SIGNAL_GENERATOR@);
            assert(NodeTypeId::AUDIO_FFT_RECEIVER@.len() != NodeTypeId::SIGNAL_GENERATOR@.len());
        } else if j == 15 {
            reveal_strlit("math.divide_float");
            assert(builtin_id(15) == NodeTypeId::DIVIDE@);
            assert(NodeTypeId::AUDIO_FFT_RECEIVER@.len() != NodeTypeId::DIVIDE@.len());
        } else if j == 16 {
            reveal_strlit("math.min_max_float");
            assert(builtin_id(16) == NodeTypeId::MIN_MAX@);
            assert(NodeTypeId::AUDIO_FFT_RECEIVER@.len() != NodeTypeId::MIN_MAX@.len());
        } else if j == 17 {
            reveal_strlit("math.multiply_float");
            assert(builtin_id(17) == NodeTypeId::MULTIPLY@);
            assert(NodeTypeId::AUDIO_FFT_RECEIVER@.len() != NodeTypeId::MULTIPLY@.len());
        } else if j == 18 {
            reveal_strlit("math.abs_float");
            assert(builtin_id(18) == NodeTypeId::ABS@);
            assert(NodeTypeId::AUDIO_FFT_RECEIVER@.len() != NodeTypeId::ABS@.len());
        } else if j == 19 {
            reveal_strlit("math.clamp_float");
            assert(builtin_id(19) == NodeTypeId::CLAMP@);
            assert(NodeTypeId::AUDIO_FFT_RECEIVER@.len() != NodeTypeId::CLAMP@.len());
        } else if j == 20 {
            reveal_strlit("math.power_float");
            assert(builtin_id(20) == NodeTypeId::POWER@);
            assert(NodeTypeId::AUDIO_FFT_RECEIVER@.len() != NodeTypeId::POWER@.len());
        } else if j == 21 {
            reveal_strlit("math.root_float");
            assert(builtin_id(21) == NodeTypeId::ROOT@);
            assert(NodeTypeId::AUDIO_FFT_RECEIVER@.len() != NodeTypeId::ROOT@.len());
        } else if j == 22 {
            reveal_strlit("math.exponential_float");
            assert(builtin_id(22) == NodeTypeId::EXPONENTIAL@);
            assert(NodeTypeId::AUDIO_FFT_RECEIVER@.len() != NodeTypeId::EXPONENTIAL@.len());
        } else if j == 23 {
            reveal_strlit("math.log_float");
            assert(builtin_id(23) == NodeTypeId::LOG@);
            assert(NodeTypeId::AUDIO_FFT_RECEIVER@.len() != NodeTypeId::LOG@.len());
        } else if j == 24 {
            reveal_strlit("math.map_range_float");
            assert(builtin_id(24) == NodeTypeId::MAP_RANGE@);
            assert(NodeTypeId::AUDIO_FFT_RECEIVER@.len() != NodeTypeId::MAP_RANGE@.len());
        } else if j == 25 {
            reveal_strlit("math.round_float");
            assert(builtin_id(25) == NodeTypeId::ROUND@);
            assert(NodeTypeId::AUDIO_FFT_RECEIVER@.len() != NodeTypeId::ROUND@.len());
        } else if j == 26 {
            reveal_strlit("math.scale_tensor");
            assert(builtin_id(26) == NodeTypeId::SCALE_TENSOR@);
            assert(NodeTypeId::AUDIO_FFT_RECEIVER@.len() != NodeTypeId::SCALE_TENSOR@.len());
        } else if j == 27 {
            reveal_strlit("frame_operations.scale");
            assert(builtin_id(27) == NodeTypeId::SCALE_COLOR@);
            assert(NodeTypeId::AUDIO_FFT_RECEIVER@.len() != NodeTypeId::SCALE_COLOR@.len());
        } else if j == 28 {
            reveal_strlit("frame_operations.multiply");
            assert(builtin_id(28) == NodeTypeId::MULTIPLY_COLOR@);
            assert(NodeTypeId::AUDIO_FFT_RECEIVER@[0] != NodeTypeId::MULTIPLY_COLOR@[0]);
        } else if j == 29 {
            reveal_strlit("frame_operations.tint_frame");
            assert(builtin_id(29) == NodeTypeId::TINT_FRAME@);
            assert(NodeTypeId::AUDIO_FFT_RECEIVER@.len() != NodeTypeId::TINT_FRAME@.len());
        } else if j == 30 {
            reveal_strlit("frame_operations.extract_channels");
            assert(builtin_id(30) == NodeTypeId::EXTRACT_CHANNELS@);
            assert(NodeTypeId::AUDIO_FFT_RECEIVER@.len() != NodeTypeId::EXTRACT_CHANNELS@.len());
        } else if j == 31 {
            reveal_strlit("frame_operations.set_channel");
            assert(builtin_id(31) == NodeTypeId::SET_CHANNEL@);
            assert(NodeTypeId::AUDIO_FFT_RECEIVER@.len() != NodeTypeId::SET_CHANNEL@.len());
        } else if j == 32 {
            reveal_strlit("frame_operations.colorize");
            assert(builtin_id(32) == NodeTypeId::COLORIZE@);
            assert(NodeTypeId::AUDIO_FFT_RECEIVER@[0] != NodeTypeId::COLORIZE@[0]);
        } else if j == 33 {
            reveal_strlit("frame_operations.mask_frame");
            assert(builtin_id(33) == NodeTypeId::MASK_FRAME@);
            assert(NodeTypeId::AUDIO_FFT_RECEIVER@.len() != NodeTypeId::MASK_FRAME@.len());
        } else if j == 34 {
            reveal_strlit("frame_operations.mix");
            assert(builtin_id(34) == NodeTypeId::MIX_COLOR@);
            assert(NodeTypeId::AUDIO_FFT_RECEIVER@.len() != NodeTypeId::MIX_COLOR@.len());
        } else if j == 35 {
            reveal_strlit("frame_operations.alpha_over");
            assert(builtin_id(35) == NodeTypeId::ALPHA_OVER@);
            assert(NodeTypeId::AUDIO_FFT_RECEIVER@.len() != NodeTypeId::ALPHA_OVER@.len());
        } else if j == 36 {
            reveal_strlit("temporal_filters.fade");
            assert(builtin_id(36) == NodeTypeId::FADE@);
            assert(NodeTypeId::AUDIO_FFT_RECEIVER@.len() != NodeTypeId::FADE@.len());
        } else if j == 37 {
            reveal_strlit("temporal_filters.integrate");
            assert(builtin_id(37) == NodeTypeId::INTEGRATE@);
            assert(NodeTypeId::AUDIO_FFT_RECEIVER@.len() != NodeTypeId::INTEGRATE@.len());
        } else if j == 38 {
            reveal_strlit("temporal_filters.moving_average");
            assert(builtin_id(38) == NodeTypeId::MOVING_AVERAGE@);
            assert(NodeTypeId::AUDIO_FFT_RECEIVER@.len() != NodeTypeId::MOVING_AVERAGE@.len());
        } else if j == 39 {
            reveal_strlit("temporal_filters.moving_median");
            assert(builtin_id(39) == NodeTypeId::MOVING_MEDIAN@);
            assert(NodeTypeId::AUDIO_FFT_RECEIVER@.len() != NodeTypeId::MOVING_MEDIAN@.len());
        } else if j == 40 {
            reveal_strlit("spatial_filters.box_blur");
            assert(builtin_id(40) == NodeTypeId::BOX_BLUR@);
            assert(NodeTypeId::AUDIO_FFT_RECEIVER@.len() != NodeTypeId::BOX_BLUR@.len());
        } else if j == 41 {
            reveal_strlit("spatial_filters.gaussian_blur");
            assert(builtin_id(41) == NodeTypeId::GAUSSIAN_BLUR@);
            assert(NodeTypeId::AUDIO_FFT_RECEIVER@.len() != NodeTypeId::GAUSSIAN_BLUR@.len());
        } else if j == 42 {
            reveal_strlit("spatial_filters.median_filter");
            assert(builtin_id(42) == NodeTypeId::MEDIAN_FILTER@);
            assert(NodeTypeId::AUDIO_FFT_RECEIVER@.len() != NodeTypeId::MEDIAN_FILTER@.len());
        } else if j == 43 {
            reveal_strlit("spatial_filters.laplacian_filter");
            assert(builtin_id(43) == NodeTypeId::LAPLACIAN_FILTER@);
            assert(NodeTypeId::AUDIO_FFT_RECEIVER@.len() != NodeTypeId::LAPLACIAN_FILTER@.len());
        } else if j == 44 {
            reveal_strlit("generators.spectrum_analyzer");
            assert(builtin_id(44) == NodeTypeId::SPECTRUM_ANALYZER@);
            assert(NodeTypeId::AUDIO_FFT_RECEIVER@.len() != NodeTypeId::SPECTRUM_ANALYZER@.len());
        } else if j == 45 {
            reveal_strlit("generators.solid_frame");
            assert(builtin_id(45) == NodeTypeId::SOLID_FRAME@);
            assert(NodeTypeId::AUDIO_FFT_RECEIVER@.len() != NodeTypeId::SOLID_FRAME@.len());
        } else if j == 46 {
            reveal_strlit("generators.rainbow_sweep");
            assert(builtin_id(46) == NodeTypeId::RAINBOW_SWEEP@);
            assert(NodeTypeId::AUDIO_FFT_RECEIVER@.len() != NodeTypeId::RAINBOW_SWEEP@.len());
        } else if j == 47 {
            reveal_strlit("generators.circle_sweep");
            assert(builtin_id(47) == NodeTypeId::CIRCLE_SWEEP@);
            assert(NodeTypeId::AUDIO_FFT_RECEIVER@.len() != NodeTypeId::CIRCLE_SWEEP@.len());
        } else if j == 48 {
            reveal_strlit("generators.level_bar");
            assert(builtin_id(48) == NodeTypeId::LEVEL_BAR@);
            assert(NodeTypeId::AUDIO_FFT_RECEIVER@.len() != NodeTypeId::LEVEL_BAR@.len());
        } else if j == 49 {
            reveal_strlit("generators.twinkle_stars");
            assert(builtin_id(49) == NodeTypeId::TWINKLE_STARS@);
            assert(NodeTypeId::AUDIO_FFT_RECEIVER@.len() != NodeTypeId::TWINKLE_STARS@.len());
        } else if j == 50 {
            reveal_strlit("generators.plasma");
            assert(builtin_id(50) == NodeTypeId::PLASMA@);
            assert(NodeTypeId::AUDIO_FFT_RECEIVER@.len() != NodeTypeId::PLASMA@.len());
        } else if j == 51 {
            reveal_strlit("generators.bouncing_balls");
            assert(builtin_id(51) == NodeTypeId::BOUNCING_BALLS@);
            assert(NodeTypeId::AUDIO_FFT_RECEIVER@[0] != NodeTypeId::BOUNCING_BALLS@[0]);
        } else if j == 52 {
            reveal_strlit("debug.wled_dummy_display");
            assert(builtin_id(52) == NodeTypeId::WLED_DUMMY_DISPLAY@);
            assert(NodeTypeId::AUDIO_FFT_RECEIVER@.len() != NodeTypeId::WLED_DUMMY_DISPLAY@.len());
        } else if j == 53 {
            reveal_strlit("debug.type_debug");
            assert(builtin_id(53) == NodeTypeId::TYPE_DEBUG@);
            assert(NodeTypeId::AUDIO_FFT_RECEIVER@.len() != NodeTypeId::TYPE_DEBUG@.len());
        } else if j == 54 {
            reveal_strlit("frame_operations.frame_brightness");
            assert(builtin_id(54) == NodeTypeId::FRAME_BRIGHTNESS@);
            assert(NodeTypeId::AUDIO_FFT_RECEIVER@.len() != NodeTypeId::FRAME_BRIGHTNESS@.len());
        }
    }
}

proof fn lemma_catalog_id_10_distinct()
    ensures
        forall|j: int| 10 < j < BUILTIN_NODE_COUNT ==> builtin_id(10) != #[trigger] builtin_id(j),
{
    reveal_strlit("inputs.ha_mqtt_number");
    assert(builtin_id(10) == NodeTypeId::HA_MQTT_NUMBER@);
    assert forall|j: int| 10 < j < BUILTIN_NODE_COUNT implies builtin_id(10) != #[trigger] builtin_id(j) by {
        if j == 11 {
            reveal_strlit("math.binary_select");
            assert(builtin_id(11) == NodeTypeId::BINARY_SELECT@);
            assert(NodeTypeId::HA_MQTT_NUMBER@.len() != NodeTypeId::BINARY_SELECT@.len());
        } else if j == 12 {
            reveal_strlit("math.add_float");
            assert(builtin_id(12) == NodeTypeId::ADD@);
            assert(NodeTypeId::HA_MQTT_NUMBER@.len() != NodeTypeId::ADD@.len());
        } else if j == 13 {
            reveal_strlit("math.subtract_float");
            assert(builtin_id(13) == NodeTypeId::SUBTRACT@);
            assert(NodeTypeId::HA_MQTT_NUMBER@.len() != NodeTypeId::SUBTRACT@.len());
        } else if j == 14 {
            reveal_strlit("inputs.signal_generator");
            assert(builtin_id(14) == NodeTypeId::SIGNAL_GENERATOR@);
            assert(NodeTypeId::HA_MQTT_NUMBER@.len() != NodeTypeId::SIGNAL_GENERATOR@.len());
        } else if j == 15 {
            reveal_strlit("math.divide_float");
            assert(builtin_id(15) == NodeTypeId::DIVIDE@);
            assert(NodeTypeId::HA_MQTT_NUMBER@.len() != NodeTypeId::DIVIDE@.len());
        } else if j == 16 {
            reveal_strlit("math.min_max_float");
            assert(builtin_id(16) == NodeTypeId::MIN_MAX@);
            assert(NodeTypeId::HA_MQTT_NUMBER@.len() != NodeTypeId::MIN_MAX@.len());
        } else if j == 17 {
            reveal_strlit("math.multiply_float");
            assert(builtin_id(17) == NodeTypeId::MULTIPLY@);
            assert(NodeTypeId::HA_MQTT_NUMBER@.len() != NodeTypeId::MULTIPLY@.len());
        } else if j == 18 {
            reveal_strlit("math.abs_float");
            assert(builtin_id(18) == NodeTypeId::ABS@);
            assert(NodeTypeId::HA_MQTT_NUMBER@.len() != NodeTypeId::ABS@.len());
        } else if j == 19 {
            reveal_strlit("math.clamp_float");
            assert(builtin_id(19) == NodeTypeId::CLAMP@);
            assert(NodeTypeId::HA_MQTT_NUMBER@.len() != NodeTypeId::CLAMP@.len());
        } else if j == 20 {
            reveal_strlit("math.power_float");
            assert(builtin_id(20) == NodeTypeId::POWER@);
            assert(NodeTypeId::HA_MQTT_NUMBER@.len() != NodeTypeId::POWER@.len());
        } else if j == 21 {
            reveal_strlit("math.root_float");
            assert(builtin_id(21) == NodeTypeId::ROOT@);
            assert(NodeTypeId::HA_MQTT_NUMBER@.len() != NodeTypeId::ROOT@.len());
        } else if j == 22 {
            reveal_strlit("math.exponential_float");
            assert(builtin_id(22) == NodeTypeId::EXPONENTIAL@);
            assert(NodeTypeId::HA_MQTT_NUMBER@.len() != NodeTypeId::EXPONENTIAL@.len());
        } else if j == 23 {
            reveal_strlit("math.log_float");
            assert(builtin_id(23) == NodeTypeId::LOG@);
            assert(NodeTypeId::HA_MQTT_NUMBER@.len() != NodeTypeId::LOG@.len());
        } else if j == 24 {
            reveal_strlit("math.map_range_float");
            assert(builtin_id(24) == NodeTypeId::MAP_RANGE@);
            assert(NodeTypeId::HA_MQTT_NUMBER@.len() != NodeTypeId::MAP_RANGE@.len());
        } else if j == 25 {
            reveal_strlit("math.round_float");
            assert(builtin_id(25) == NodeTypeId::ROUND@);
            assert(NodeTypeId::HA_MQTT_NUMBER@.len() != NodeTypeId::ROUND@.len());
        } else if j == 26 {
            reveal_strlit("math.scale_tensor");
            assert(builtin_id(26) == NodeTypeId::SCALE_TENSOR@);
            assert(NodeTypeId::HA_MQTT_NUMBER@.len() != NodeTypeId::SCALE_TENSOR@.len());
        } else if j == 27 {
            reveal_strlit("frame_operations.scale");
            assert(builtin_id(27) == NodeTypeId::SCALE_COLOR@);
            assert(NodeTypeId::HA_MQTT_NUMBER@.len() != NodeTypeId::SCALE_COLOR@.len());
        } else if j == 28 {
            reveal_strlit("frame_operations.multiply");
            assert(builtin_id(28) == NodeTypeId::MULTIPLY_COLOR@);
            assert(NodeTypeId::HA_MQTT_NUMBER@.len() != NodeTypeId::MULTIPLY_COLOR@.len());
        } else if j == 29 {
            reveal_strlit("frame_operations.tint_frame");
            assert(builtin_id(29) == NodeTypeId::TINT_FRAME@);
            assert(NodeTypeId::HA_MQTT_NUMBER@.len() != NodeTypeId::TINT_FRAME@.len());
        } else if j == 30 {
            reveal_strlit("frame_operations.extract_channels");
            assert(builtin_id(30) == NodeTypeId::EXTRACT_CHANNELS@);
            assert(NodeTypeId::HA_MQTT_NUMBER@.len() != NodeTypeId::EXTRACT_CHANNELS@.len());
        } else if j == 31 {
            reveal_strlit("frame_operations.set_channel");
            assert(builtin_id(31) == NodeTypeId::SET_CHANNEL@);
            assert(NodeTypeId::HA_MQTT_NUMBER@.len() != NodeTypeId::SET_CHANNEL@.len());
        } else if j == 32 {
            reveal_strlit("frame_operations.colorize");
            assert(builtin_id(32) == NodeTypeId::COLORIZE@);
            assert(NodeTypeId::HA_MQTT_NUMBER@.len() != NodeTypeId::COLORIZE@.len());
        } else if j == 33 {
            reveal_strlit("frame_operations.mask_frame");
            assert(builtin_id(33) == NodeTypeId::MASK_FRAME@);
            assert(NodeTypeId::HA_MQTT_NUMBER@.len() != NodeTypeId::MASK_FRAME@.len());
        } else if j == 34 {
            reveal_strlit("frame_operations.mix");
            assert(builtin_id(34) == NodeTypeId::MIX_COLOR@);
            assert(NodeTypeId::HA_MQTT_NUMBER@.len() != NodeTypeId::MIX_COLOR@.len());
        } else if j == 35 {
            reveal_strlit("frame_operations.alpha_over");
            assert(builtin_id(35) == NodeTypeId::ALPHA_OVER@);
            assert(NodeTypeId::HA_MQTT_NUMBER@.len() != NodeTypeId::ALPHA_OVER@.len());
        } else if j == 36 {
            reveal_strlit("temporal_filters.fade");
            assert(builtin_id(36) == NodeTypeId::FADE@);
            assert(NodeTypeId::HA_MQTT_NUMBER@[0] != NodeTypeId::FADE@[0]);
        } else if j == 37 {
            reveal_strlit("temporal_filters.integrate");
            assert(builtin_id(37) == NodeTypeId::INTEGRATE@);
            assert(NodeTypeId::HA_MQTT_NUMBER@.len() != NodeTypeId::INTEGRATE@.len());
        } else if j == 38 {
            reveal_strlit("temporal_filters.moving_average");
            assert(builtin_id(38) == NodeTypeId::MOVING_AVERAGE@);
            assert(NodeTypeId::HA_MQTT_NUMBER@.len() != NodeTypeId::MOVING_AVERAGE@.len());
        } else if j == 39 {
            reveal_strlit("temporal_filters.moving_median");
            assert(builtin_id(39) == NodeTypeId::MOVING_MEDIAN@);
            assert(NodeTypeId::HA_MQTT_NUMBER@.len() != NodeTypeId::MOVING_MEDIAN@.len());
        } else if j == 40 {
            reveal_strlit("spatial_filters.box_blur");
            assert(builtin_id(40) == NodeTypeId::BOX_BLUR@);
            assert(NodeTypeId::HA_MQTT_NUMBER@.len() != NodeTypeId::BOX_BLUR@.len());
        } else if j == 41 {
            reveal_strlit("spatial_filters.gaussian_blur");
            assert(builtin_id(41) == NodeTypeId::GAUSSIAN_BLUR@);
            assert(NodeTypeId::HA_MQTT_NUMBER@.len() != NodeTypeId::GAUSSIAN_BLUR@.len());
        } else if j == 42 {
            reveal_strlit("spatial_filters.median_filter");
            assert(builtin_id(42) == NodeTypeId::MEDIAN_FILTER@);
            assert(NodeTypeId::HA_MQTT_NUMBER@.len() != NodeTypeId::MEDIAN_FILTER@.len());
        } else if j == 43 {
            reveal_strlit("spatial_filters.laplacian_filter");
            assert(builtin_id(43) == NodeTypeId::LAPLACIAN_FILTER@);
            assert(NodeTypeId::HA_MQTT_NUMBER@.len() != NodeTypeId::LAPLACIAN_FILTER@.len());
        } else if j == 44 {
            reveal_strlit("generators.spectrum_analyzer");
            assert(builtin_id(44) == NodeTypeId::SPECTRUM_ANALYZER@);
            assert(NodeTypeId::HA_MQTT_NUMBER@.len() != NodeTypeId::SPECTRUM_ANALYZER@.len());
        } else if j == 45 {
            reveal_strlit("generators.solid_frame");
            assert(builtin_id(45) == NodeTypeId::SOLID_FRAME@);
            assert(NodeTypeId::HA_MQTT_NUMBER@.len() != NodeTypeId::SOLID_FRAME@.len());
        } else if j == 46 {
            reveal_strlit("generators.rainbow_sweep");
            assert(builtin_id(46) == NodeTypeId::RAINBOW_SWEEP@);
            assert(NodeTypeId::HA_MQTT_NUMBER@.len() != NodeTypeId::RAINBOW_SWEEP@.len());
        } else if j == 47 {
            reveal_strlit("generators.circle_sweep");
            assert(builtin_id(47) == NodeTypeId::CIRCLE_SWEEP@);
            assert(NodeTypeId::HA_MQTT_NUMBER@.len() != NodeTypeId::CIRCLE_SWEEP@.len());
        } else if j == 48 {
            reveal_strlit("generators.level_bar");
            assert(builtin_id(48) == NodeTypeId::LEVEL_BAR@);
            assert(NodeTypeId::HA_MQTT_NUMBER@.len() != NodeTypeId::LEVEL_BAR@.len());
        } else if j == 49 {
            reveal_strlit("generators.twinkle_stars");
            assert(builtin_id(49) == NodeTypeId::TWINKLE_STARS@);
            assert(NodeTypeId::HA_MQTT_NUMBER@.len() != NodeTypeId::TWINKLE_STARS@.len());
        } else if j == 50 {
            reveal_strlit("generators.plasma");
            assert(builtin_id(50) == NodeTypeId::PLASMA@);
            assert(NodeTypeId::HA_MQTT_NUMBER@.len() != NodeTypeId::PLASMA@.len());
        } else if j == 51 {
            reveal_strlit("generators.bouncing_balls");
            assert(builtin_id(51) == NodeTypeId::BOUNCING_BALLS@);
            assert(NodeTypeId::HA_MQTT_NUMBER@.len() != NodeTypeId::BOUNCING_BALLS@.len());
        } else if j == 52 {
            reveal_strlit("debug.wled_dummy_display");
            assert(builtin_id(52) == NodeTypeId::WLED_DUMMY_DISPLAY@);
            assert(NodeTypeId::HA_MQTT_NUMBER@.len() != NodeTypeId::WLED_DUMMY_DISPLAY@.len());
        } else if j == 53 {
            reveal_strlit("debug.type_debug");
            assert(builtin_id(53) == NodeTypeId::TYPE_DEBUG@);
            assert(NodeTypeId::HA_MQTT_NUMBER@.len() != NodeTypeId::TYPE_DEBUG@.len());
        } else if j == 54 {
            reveal_strlit("frame_operations.frame_brightness");
            assert(builtin_id(54) == NodeTypeId::FRAME_BRIGHTNESS@);
            assert(NodeTypeId::HA_MQTT_NUMBER@.len() != NodeTypeId::FRAME_BRIGHTNESS@.len());
        }
    }
}

proof fn lemma_catalog_id_11_distinct()
    ensures
        forall|j: int| 11 < j < BUILTIN_NODE_COUNT ==> builtin_id(11) != #[trigger] builtin_id(j),
{
    reveal_strlit("math.binary_select");
    assert(builtin_id(11) == NodeTypeId::BINARY_SELECT@);
    assert forall|j: int| 11 < j < BUILTIN_NODE_COUNT implies builtin_id(11) != #[trigger] builtin_id(j) by {
        if j == 12 {
            reveal_strlit("math.add_float");
            assert(builtin_id(12) == NodeTypeId::ADD@);
            assert(NodeTypeId::BINARY_SELECT@.len() != NodeTypeId::ADD@.len());
        } else if j == 13 {
            reveal_strlit("math.subtract_float");
            assert(builtin_id(13) == NodeTypeId::SUBTRACT@);
            assert(NodeTypeId::BINARY_SELECT@.len() != NodeTypeId::SUBTRACT@.len());
        } else if j == 14 {
            reveal_strlit("inputs.signal_generator");
            assert(builtin_id(14) == NodeTypeId::SIGNAL_GENERATOR@);
            assert(NodeTypeId::BINARY_SELECT@.len() != NodeTypeId::SIGNAL_GENERATOR@.len());
        } else if j == 15 {
            reveal_strlit("math.divide_float");
            assert(builtin_id(15) == NodeTypeId::DIVIDE@);
            assert(NodeTypeId::BINARY_SELECT@.len() != NodeTypeId::DIVIDE@.len());
        } else if j == 16 {
            reveal_strlit("math.min_max_float");
            assert(builtin_id(16) == NodeTypeId::MIN_MAX@);
            assert(NodeTypeId::BINARY_SELECT@[5] != NodeTypeId::MIN_MAX@[5]);
        } else if j == 17 {
            reveal_strlit("math.multiply_float");
            assert(builtin_id(17) == NodeTypeId::MULTIPLY@);
            assert(NodeTypeId::BINARY_SELECT@.len() != NodeTypeId::MULTIPLY@.len());
        } else if j == 18 {
            reveal_strlit("math.abs_float");
            assert(builtin_id(18) == NodeTypeId::ABS@);
            assert(NodeTypeId::BINARY_SELECT@.len() != NodeTypeId::ABS@.len());
        } else if j == 19 {
            reveal_strlit("math.clamp_float");
            assert(builtin_id(19) == NodeTypeId::CLAMP@);
            assert(NodeTypeId::BINARY_SELECT@.len() != NodeTypeId::CLAMP@.len());
        } else if j == 20 {
            reveal_strlit("math.power_float");
            assert(builtin_id(20) == NodeTypeId::POWER@);
            assert(NodeTypeId::BINARY_SELECT@.len() != NodeTypeId::POWER@.len());
        } else if j == 21 {
            reveal_strlit("math.root_float");
            assert(builtin_id(21) == NodeTypeId::ROOT@);
            assert(NodeTypeId::BINARY_SELECT@.len() != NodeTypeId::ROOT@.len());
        } else if j == 22 {
            reveal_strlit("math.exponential_float");
            assert(builtin_id(22) == NodeTypeId::EXPONENTIAL@);
            assert(NodeTypeId::BINARY_SELECT@.len() != NodeTypeId::EXPONENTIAL@.len());
        } else if j == 23 {
            reveal_strlit("math.log_float");
            assert(builtin_id(23) == NodeTypeId::LOG@);
            assert(NodeTypeId::BINARY_SELECT@.len() != NodeTypeId::LOG@.len());
        } else if j == 24 {
            reveal_strlit("math.map_range_float");
            assert(builtin_id(24) == NodeTypeId::MAP_RANGE@);
            assert(NodeTypeId::BINARY_SELECT@.len() != NodeTypeId::MAP_RANGE@.len());
        } else if j == 25 {
            reveal_strlit("math.round_float");
            assert(builtin_id(25) == NodeTypeId::ROUND@);
            assert(NodeTypeId::BINARY_SELECT@.len() != NodeTypeId::ROUND@.len());
        } else if j == 26 {
            reveal_strlit("math.scale_tensor");
            assert(builtin_id(26) == NodeTypeId::SCALE_TENSOR@);
            assert(NodeTypeId::BINARY_SELECT@.len() != NodeTypeId::SCALE_TENSOR@.len());
        } else if j == 27 {
            reveal_strlit("frame_operations.scale");
            assert(builtin_id(27) == NodeTypeId::SCALE_COLOR@);
            assert(NodeTypeId::BINARY_SELECT@.len() != NodeTypeId::SCALE_COLOR@.len());
        } else if j == 28 {
            reveal_strlit("frame_operations.multiply");
            assert(builtin_id(28) == NodeTypeId::MULTIPLY_COLOR@);
            assert(NodeTypeId::BINARY_SELECT@.len() != NodeTypeId::MULTIPLY_COLOR@.len());
        } else if j == 29 {
            reveal_strlit("frame_operations.tint_frame");
            assert(builtin_id(29) == NodeTypeId::TINT_FRAME@);
            assert(NodeTypeId::BINARY_SELECT@.len() != NodeTypeId::TINT_FRAME@.len());
        } else if j == 30 {
            reveal_strlit("frame_operations.extract_channels");
            assert(builtin_id(30) == NodeTypeId::EXTRACT_CHANNELS@);
            assert(NodeTypeId::BINARY_SELECT@.len() != NodeTypeId::EXTRACT_CHANNELS@.len());
        } else if j == 31 {
            reveal_strlit("frame_operations.set_channel");
            assert(builtin_id(31) == NodeTypeId::SET_CHANNEL@);
            assert(NodeTypeId::BINARY_SELECT@.len() != NodeTypeId::SET_CHANNEL@.len());
        } else if j == 32 {
            reveal_strlit("frame_operations.colorize");
            assert(builtin_id(32) == NodeTypeId::COLORIZE@);
            assert(NodeTypeId::BINARY_SELECT@.len() != NodeTypeId::COLORIZE@.len());
        } else if j == 33 {
            reveal_strlit("frame_operations.mask_frame");
            assert(builtin_id(33) == NodeTypeId::MASK_FRAME@);
            assert(NodeTypeId::BINARY_SELECT@.len() != NodeTypeId::MASK_FRAME@.len());
        } else if j == 34 {
            reveal_strlit("frame_operations.mix");
            assert(builtin_id(34) == NodeTypeId::MIX_COLOR@);
            assert(NodeTypeId::BINARY_SELECT@.len() != NodeTypeId::MIX_COLOR@.len());
        } else if j == 35 {
            reveal_strlit("frame_operations.alpha_over");
            assert(builtin_id(35) == NodeTypeId::ALPHA_OVER@);
            assert(NodeTypeId::BINARY_SELECT@.len() != NodeTypeId::ALPHA_OVER@.len());
        } else if j == 36 {
            reveal_strlit("temporal_filters.fade");
            assert(builtin_id(36) == NodeTypeId::FADE@);
            assert(NodeTypeId::BINARY_SELECT@.len() != NodeTypeId::FADE@.len());
        } else if j == 37 {
            reveal_strlit("temporal_filters.integrate");
            assert(builtin_id(37) == NodeTypeId::INTEGRATE@);
            assert(NodeTypeId::BINARY_SELECT@.len() != NodeTypeId::INTEGRATE@.len());
        } else if j == 38 {
            reveal_strlit("temporal_filters.moving_average");
            assert(builtin_id(38) == NodeTypeId::MOVING_AVERAGE@);
            assert(NodeTypeId::BINARY_SELECT@.len() != NodeTypeId::MOVING_AVERAGE@.len());
        } else if j == 39 {
            reveal_strlit("temporal_filters.moving_median");
            assert(builtin_id(39) == NodeTypeId::MOVING_MEDIAN@);
            assert(NodeTypeId::BINARY_SELECT@.len() != NodeTypeId::MOVING_MEDIAN@.len());
        } else if j == 40 {
            reveal_strlit("spatial_filters.box_blur");
            assert(builtin_id(40) == NodeTypeId::BOX_BLUR@);
            assert(NodeTypeId::BINARY_SELECT@.len() != NodeTypeId::BOX_BLUR@.len());
        } else if j == 41 {
            reveal_strlit("spatial_filters.gaussian_blur");
            assert(builtin_id(41) == NodeTypeId::GAUSSIAN_BLUR@);
            assert(NodeTypeId::BINARY_SELECT@.len() != NodeTypeId::GAUSSIAN_BLUR@.len());
        } else if j == 42 {
            reveal_strlit("spatial_filters.median_filter");
            assert(builtin_id(42) == NodeTypeId::MEDIAN_FILTER@);
            assert(NodeTypeId::BINARY_SELECT@.len() != NodeTypeId::MEDIAN_FILTER@.len());
        } else if j == 43 {
            reveal_strlit("spatial_filters.laplacian_filter");
            assert(builtin_id(43) == NodeTypeId::LAPLACIAN_FILTER@);
            assert(NodeTypeId::BINARY_SELECT@.len() != NodeTypeId::LAPLACIAN_FILTER@.len());
        } else if j == 44 {
            reveal_strlit("generators.spectrum_analyzer");
            assert(builtin_id(44) == NodeTypeId::SPECTRUM_ANALYZER@);
            assert(NodeTypeId::BINARY_SELECT@.len() != NodeTypeId::SPECTRUM_ANALYZER@.len());
        } else if j == 45 {
            reveal_strlit("generators.solid_frame");
            assert(builtin_id(45) == NodeTypeId::SOLID_FRAME@);
            assert(NodeTypeId::BINARY_SELECT@.len() != NodeTypeId::SOLID_FRAME@.len());
        } else if j == 46 {
            reveal_strlit("generators.rainbow_sweep");
            assert(builtin_id(46) == NodeTypeId::RAINBOW_SWEEP@);
            assert(NodeTypeId::BINARY_SELECT@.len() != NodeTypeId::RAINBOW_SWEEP@.len());
        } else if j == 47 {
            reveal_strlit("generators.circle_sweep");
            assert(builtin_id(47) == NodeTypeId::CIRCLE_SWEEP@);
            assert(NodeTypeId::BINARY_SELECT@.len() != NodeTypeId::CIRCLE_SWEEP@.len());
        } else if j == 48 {
            reveal_strlit("generators.level_bar");
            assert(builtin_id(48) == NodeTypeId::LEVEL_BAR@);
            assert(NodeTypeId::BINARY_SELECT@.len() != NodeTypeId::LEVEL_BAR@.len());
        } else if j == 49 {
            reveal_strlit("generators.twinkle_stars");
            assert(builtin_id(49) == NodeTypeId::TWINKLE_STARS@);
            assert(NodeTypeId::BINARY_SELECT@.len() != NodeTypeId::TWINKLE_STARS@.len());
        } else if j == 50 {
            reveal_strlit("generators.plasma");
            assert(builtin_id(50) == NodeTypeId::PLASMA@);
            assert(NodeTypeId::BINARY_SELECT@.len() != NodeTypeId::PLASMA@.len());
        } else if j == 51 {
            reveal_strlit("generators.bouncing_balls");
            assert(builtin_id(51) == NodeTypeId::BOUNCING_BALLS@);
            assert(NodeTypeId::BINARY_SELECT@.len() != NodeTypeId::BOUNCING_BALLS@.len());
        } else if j == 52 {
            reveal_strlit("debug.wled_dummy_display");
            assert(builtin_id(52) == NodeTypeId::WLED_DUMMY_DISPLAY@);
            assert(NodeTypeId::BINARY_SELECT@.len() != NodeTypeId::WLED_DUMMY_DISPLAY@.len());
        } else if j == 53 {
            reveal_strlit("debug.type_debug");
            assert(builtin_id(53) == NodeTypeId::TYPE_DEBUG@);
            assert(NodeTypeId::BINARY_SELECT@.len() != NodeTypeId::TYPE_DEBUG@.len());
        } else if j == 54 {
            reveal_strlit("frame_operations.frame_brightness");
            assert(builtin_id(54) == NodeTypeId::FRAME_BRIGHTNESS@);
            assert(NodeTypeId::BINARY_SELECT@.len() != NodeTypeId::FRAME_BRIGHTNESS@.len());
        }
    }
}

proof fn lemma_catalog_id_12_distinct()
    ensures
        forall|j: int| 12 < j < BUILTIN_NODE_COUNT ==> builtin_id(12) != #[trigger] builtin_id(j),
{
    reveal_strlit("math.add_float");
    assert(builtin_id(12) == NodeTypeId::ADD@);
    assert forall|j: int| 12 < j < BUILTIN_NODE_COUNT implies builtin_id(12) != #[trigger] builtin_id(j) by {
        if j == 13 {
            reveal_strlit("math.subtract_float");
            assert(builtin_id(13) == NodeTypeId::SUBTRACT@);
            assert(NodeTypeId::ADD@.len() != NodeTypeId::SUBTRACT@.len());
        } else if j == 14 {
            reveal_strlit("inputs.signal_generator");
            assert(builtin_id(14) == NodeTypeId::SIGNAL_GENERATOR@);
            assert(NodeTypeId::ADD@.len() != NodeTypeId::SIGNAL_GENERATOR@.len());
        } else if j == 15 {
            reveal_strlit("math.divide_float");
            assert(builtin_id(15) == NodeTypeId::DIVIDE@);
            assert(NodeTypeId::ADD@.len() != NodeTypeId::DIVIDE@.len());
        } else if j == 16 {
            reveal_strlit("math.min_max_float");
            assert(builtin_id(16) == NodeTypeId::MIN_MAX@);
            assert(NodeTypeId::ADD@.len() != NodeTypeId::MIN_MAX@.len());
        } else if j == 17 {
            reveal_strlit("math.multiply_float");
            assert(builtin_id(17) == NodeTypeId::MULTIPLY@);
            assert(NodeTypeId::ADD@.len() != NodeTypeId::MULTIPLY@.len());
        } else if j == 18 {
            reveal_strlit("math.abs_float");
            assert(builtin_id(18) == NodeTypeId::ABS@);
            assert(NodeTypeId::ADD@[6] != NodeTypeId::ABS@[6]);
        } else if j == 19 {
            reveal_strlit("math.clamp_float");
            assert(builtin_id(19) == NodeTypeId::CLAMP@);
            assert(NodeTypeId::ADD@.len() != NodeTypeId::CLAMP@.len());
        } else if j == 20 {
            reveal_strlit("math.power_float");
            assert(builtin_id(20) == NodeTypeId::POWER@);
            assert(NodeTypeId::ADD@.len() != NodeTypeId::POWER@.len());
        } else if j == 21 {
            reveal_strlit("math.root_float");
            assert(builtin_id(21) == NodeTypeId::ROOT@);
            assert(NodeTypeId::ADD@.len() != NodeTypeId::ROOT@.len());
        } else if j == 22 {
            reveal_strlit("math.exponential_float");
            assert(builtin_id(22) == NodeTypeId::EXPONENTIAL@);
            assert(NodeTypeId::ADD@.len() != NodeTypeId::EXPONENTIAL@.len());
        } else if j == 23 {
            reveal_strlit("math.log_float");
            assert(builtin_id(23) == NodeTypeId::LOG@);
            assert(NodeTypeId::ADD@[5] != NodeTypeId::LOG@[5]);
        } else if j == 24 {
            reveal_strlit("math.map_range_float");
            assert(builtin_id(24) == NodeTypeId::MAP_RANGE@);
            assert(NodeTypeId::ADD@.len() != NodeTypeId::MAP_RANGE@.len());
        } else if j == 25 {
            reveal_strlit("math.round_float");
            assert(builtin_id(25) == NodeTypeId::ROUND@);
            assert(NodeTypeId::ADD@.len() != NodeTypeId::ROUND@.len());
        } else if j == 26 {
            reveal_strlit("math.scale_tensor");
            assert(builtin_id(26) == NodeTypeId::SCALE_TENSOR@);
            assert(NodeTypeId::ADD@.len() != NodeTypeId::SCALE_TENSOR@.len());
        } else if j == 27 {
            reveal_strlit("frame_operations.scale");
            assert(builtin_id(27) == NodeTypeId::SCALE_COLOR@);
            assert(NodeTypeId::ADD@.len() != NodeTypeId::SCALE_COLOR@.len());
        } else if j == 28 {
            reveal_strlit("frame_operations.multiply");
            assert(builtin_id(28) == NodeTypeId::MULTIPLY_COLOR@);
            assert(NodeTypeId::ADD@.len() != NodeTypeId::MULTIPLY_COLOR@.len());
        } else if j == 29 {
            reveal_strlit("frame_operations.tint_frame");
            assert(builtin_id(29) == NodeTypeId::TINT_FRAME@);
            assert(NodeTypeId::ADD@.len() != NodeTypeId::TINT_FRAME@.len());
        } else if j == 30 {
            reveal_strlit("frame_operations.extract_channels");
            assert(builtin_id(30) == NodeTypeId::EXTRACT_CHANNELS@);
            assert(NodeTypeId::ADD@.len() != NodeTypeId::EXTRACT_CHANNELS@.len());
        } else if j == 31 {
            reveal_strlit("frame_operations.set_channel");
            assert(builtin_id(31) == NodeTypeId::SET_CHANNEL@);
            assert(NodeTypeId::ADD@.len() != NodeTypeId::SET_CHANNEL@.len());
        } else if j == 32 {
            reveal_strlit("frame_operations.colorize");
            assert(builtin_id(32) == NodeTypeId::COLORIZE@);
            assert(NodeTypeId::ADD@.len() != NodeTypeId::COLORIZE@.len());
        } else if j == 33 {
            reveal_strlit("frame_operations.mask_frame");
            assert(builtin_id(33) == NodeTypeId::MASK_FRAME@);
            assert(NodeTypeId::ADD@.len() != NodeTypeId::MASK_FRAME@.len());
        } else if j == 34 {
            reveal_strlit("frame_operations.mix");
            assert(builtin_id(34) == NodeTypeId::MIX_COLOR@);
            assert(NodeTypeId::ADD@.len() != NodeTypeId::MIX_COLOR@.len());
        } else if j == 35 {
            reveal_strlit("frame_operations.alpha_over");
            assert(builtin_id(35) == NodeTypeId::ALPHA_OVER@);
            assert(NodeTypeId::ADD@.len() != NodeTypeId::ALPHA_OVER@.len());
        } else if j == 36 {
            reveal_strlit("temporal_filters.fade");
            assert(builtin_id(36) == NodeTypeId::FADE@);
            assert(NodeTypeId::ADD@.len() != NodeTypeId::FADE@.len());
        } else if j == 37 {
            reveal_strlit("temporal_filters.integrate");
            assert(builtin_id(37) == NodeTypeId::INTEGRATE@);
            assert(NodeTypeId::ADD@.len() != NodeTypeId::INTEGRATE@.len());
        } else if j == 38 {
            reveal_strlit("temporal_filters.moving_average");
            assert(builtin_id(38) == NodeTypeId::MOVING_AVERAGE@);
            assert(NodeTypeId::ADD@.len() != NodeTypeId::MOVING_AVERAGE@.len());
        } else if j == 39 {
            reveal_strlit("temporal_filters.moving_median");
            assert(builtin_id(39) == NodeTypeId::MOVING_MEDIAN@);
            assert(NodeTypeId::ADD@.len() != NodeTypeId::MOVING_MEDIAN@.len());
        } else if j == 40 {
            reveal_strlit("spatial_filters.box_blur");
            assert(builtin_id(40) == NodeTypeId::BOX_BLUR@);
            assert(NodeTypeId::ADD@.len() != NodeTypeId::BOX_BLUR@.len());
        } else if j == 41 {
            reveal_strlit("spatial_filters.gaussian_blur");
            assert(builtin_id(41) == NodeTypeId::GAUSSIAN_BLUR@);
            assert(NodeTypeId::ADD@.len() != NodeTypeId::GAUSSIAN_BLUR@.len());
        } else if j == 42 {
            reveal_strlit("spatial_filters.median_filter");
            assert(builtin_id(42) == NodeTypeId::MEDIAN_FILTER@);
            assert(NodeTypeId::ADD@.len() != NodeTypeId::MEDIAN_FILTER@.len());
        } else if j == 43 {
            reveal_strlit("spatial_filters.laplacian_filter");
            assert(builtin_id(43) == NodeTypeId::LAPLACIAN_FILTER@);
            assert(NodeTypeId::ADD@.len() != NodeTypeId::LAPLACIAN_FILTER@.len());
        } else if j == 44 {
            reveal_strlit("generators.spectrum_analyzer");
            assert(builtin_id(44) == NodeTypeId::SPECTRUM_ANALYZER@);
            assert(NodeTypeId::ADD@.len() != NodeTypeId::SPECTRUM_ANALYZER@.len());
        } else if j == 45 {
            reveal_strlit("generators.solid_frame");
            assert(builtin_id(45) == NodeTypeId::SOLID_FRAME@);
            assert(NodeTypeId::ADD@.len() != NodeTypeId::SOLID_FRAME@.len());
        } else if j == 46 {
            reveal_strlit("generators.rainbow_sweep");
            assert(builtin_id(46) == NodeTypeId::RAINBOW_SWEEP@);
            assert(NodeTypeId::ADD@.len() != NodeTypeId::RAINBOW_SWEEP@.len());
        } else if j == 47 {
            reveal_strlit("generators.circle_sweep");
            assert(builtin_id(47) == NodeTypeId::CIRCLE_SWEEP@);
            assert(NodeTypeId::ADD@.len() != NodeTypeId::CIRCLE_SWEEP@.len());
        } else if j == 48 {
            reveal_strlit("generators.level_bar");
            assert(builtin_id(48) == NodeTypeId::LEVEL_BAR@);
            assert(NodeTypeId::ADD@.len() != NodeTypeId::LEVEL_BAR@.len());
        } else if j == 49 {
            reveal_strlit("generators.twinkle_stars");
            assert(builtin_id(49) == NodeTypeId::TWINKLE_STARS@);
            assert(NodeTypeId::ADD@.len() != NodeTypeId::TWINKLE_STARS@.len());
        } else if j == 50 {
            reveal_strlit("generators.plasma");
            assert(builtin_id(50) == NodeTypeId::PLASMA@);
            assert(NodeTypeId::ADD@.len() != NodeTypeId::PLASMA@.len());
        } else if j == 51 {
            reveal_strlit("generators.bouncing_balls");
            assert(builtin_id(51) == NodeTypeId::BOUNCING_BALLS@);
            assert(NodeTypeId::ADD@.len() != NodeTypeId::BOUNCING_BALLS@.len());
        } else if j == 52 {
            reveal_strlit("debug.wled_dummy_display");
            assert(builtin_id(52) == NodeTypeId::WLED_DUMMY_DISPLAY@);
            assert(NodeTypeId::ADD@.len() != NodeTypeId::WLED_DUMMY_DISPLAY@.len());
        } else if j == 53 {
            reveal_strlit("debug.type_debug");
            assert(builtin_id(53) == NodeTypeId::TYPE_DEBUG@);
            assert(NodeTypeId::ADD@.len() != NodeTypeId::TYPE_DEBUG@.len());
        } else if j == 54 {
            reveal_strlit("frame_operations.frame_brightness");
            assert(builtin_id(54) == NodeTypeId::FRAME_BRIGHTNESS@);
            assert(NodeTypeId::ADD@.len() != NodeTypeId::FRAME_BRIGHTNESS@.len());
        }
    }
}

proof fn lemma_catalog_id_13_distinct()
    ensures
        forall|j: int| 13 < j < BUILTIN_NODE_COUNT ==> builtin_id(13) != #[trigger] builtin_id(j),
{
    reveal_strlit("math.subtract_float");
    assert(builtin_id(13) == NodeTypeId::SUBTRACT@);
    assert forall|j: int| 13 < j < BUILTIN_NODE_COUNT implies builtin_id(13) != #[trigger] builtin_id(j) by {
        if j == 14 {
            reveal_strlit("inputs.signal_generator");
            assert(builtin_id(14) == NodeTypeId::SIGNAL_GENERATOR@);
            assert(NodeTypeId::SUBTRACT@.len() != NodeTypeId::SIGNAL_GENERATOR@.len());
        } else if j == 15 {
            reveal_strlit("math.divide_float");
            assert(builtin_id(15) == NodeTypeId::DIVIDE@);
            assert(NodeTypeId::SUBTRACT@.len() != NodeTypeId::DIVIDE@.len());
        } else if j == 16 {
            reveal_strlit("math.min_max_float");
            assert(builtin_id(16) == NodeTypeId::MIN_MAX@);
            assert(NodeTypeId::SUBTRACT@.len() != NodeTypeId::MIN_MAX@.len());
        } else if j == 17 {
            reveal_strlit("math.multiply_float");
            assert(builtin_id(17) == NodeTypeId::MULTIPLY@);
            assert(NodeTypeId::SUBTRACT@[5] != NodeTypeId::MULTIPLY@[5]);
        } else if j == 18 {
            reveal_strlit("math.abs_float");
            assert(builtin_id(18) == NodeTypeId::ABS@);
            assert(NodeTypeId::SUBTRACT@.len() != NodeTypeId::ABS@.len());
        } else if j == 19 {
            reveal_strlit("math.clamp_float");
            assert(builtin_id(19) == NodeTypeId::CLAMP@);
            assert(NodeTypeId::SUBTRACT@.len() != NodeTypeId::CLAMP@.len());
        } else if j == 20 {
            reveal_strlit("math.power_float");
            assert(builtin_id(20) == NodeTypeId::POWER@);
            assert(NodeTypeId::SUBTRACT@.len() != NodeTypeId::POWER@.len());
        } else if j == 21 {
            reveal_strlit("math.root_float");
            assert(builtin_id(21) == NodeTypeId::ROOT@);
            assert(NodeTypeId::SUBTRACT@.len() != NodeTypeId::ROOT@.len());
        } else if j == 22 {
            reveal_strlit("math.exponential_float");
            assert(builtin_id(22) == NodeTypeId::EXPONENTIAL@);
            assert(NodeTypeId::SUBTRACT@.len() != NodeTypeId::EXPONENTIAL@.len());
        } else if j == 23 {
            reveal_strlit("math.log_float");
            assert(builtin_id(23) == NodeTypeId::LOG@);
            assert(NodeTypeId::SUBTRACT@.len() != NodeTypeId::LOG@.len());
        } else if j == 24 {
            reveal_strlit("math.map_range_float");
            assert(builtin_id(24) == NodeTypeId::MAP_RANGE@);
            assert(NodeTypeId::SUBTRACT@.len() != NodeTypeId::MAP_RANGE@.len());
        } else if j == 25 {
            reveal_strlit("math.round_float");
            assert(builtin_id(25) == NodeTypeId::ROUND@);
            assert(NodeTypeId::SUBTRACT@.len() != NodeTypeId::ROUND@.len());
        } else if j == 26 {
            reveal_strlit("math.scale_tensor");
            assert(builtin_id(26) == NodeTypeId::SCALE_TENSOR@);
            assert(NodeTypeId::SUBTRACT@.len() != NodeTypeId::SCALE_TENSOR@.len());
        } else if j == 27 {
            reveal_strlit("frame_operations.scale");
            assert(builtin_id(27) == NodeTypeId::SCALE_COLOR@);
            assert(NodeTypeId::SUBTRACT@.len() != NodeTypeId::SCALE_COLOR@.len());
        } else if j == 28 {
            reveal_strlit("frame_operations.multiply");
            assert(builtin_id(28) == NodeTypeId::MULTIPLY_COLOR@);
            assert(NodeTypeId::SUBTRACT@.len() != NodeTypeId::MULTIPLY_COLOR@.len());
        } else if j == 29 {
            reveal_strlit("frame_operations.tint_frame");
            assert(builtin_id(29) == NodeTypeId::TINT_FRAME@);
            assert(NodeTypeId::SUBTRACT@.len() != NodeTypeId::TINT_FRAME@.len());
        } else if j == 30 {
            reveal_strlit("frame_operations.extract_channels");
            assert(builtin_id(30) == NodeTypeId::EXTRACT_CHANNELS@);
            assert(NodeTypeId::SUBTRACT@.len() != NodeTypeId::EXTRACT_CHANNELS@.len());
        } else if j == 31 {
            reveal_strlit("frame_operations.set_channel");
            assert(builtin_id(31) == NodeTypeId::SET_CHANNEL@);
            assert(NodeTypeId::SUBTRACT@.len() != NodeTypeId::SET_CHANNEL@.len());
        } else if j == 32 {
            reveal_strlit("frame_operations.colorize");
            assert(builtin_id(32) == NodeTypeId::COLORIZE@);
            assert(NodeTypeId::SUBTRACT@.len() != NodeTypeId::COLORIZE@.len());
        } else if j == 33 {
            reveal_strlit("frame_operations.mask_frame");
            assert(builtin_id(33) == NodeTypeId::MASK_FRAME@);
            assert(NodeTypeId::SUBTRACT@.len() != NodeTypeId::MASK_FRAME@.len());
        } else if j == 34 {
            reveal_strlit("frame_operations.mix");
            assert(builtin_id(34) == NodeTypeId::MIX_COLOR@);
            assert(NodeTypeId::SUBTRACT@.len() != NodeTypeId::MIX_COLOR@.len());
        } else if j == 35 {
            reveal_strlit("frame_operations.alpha_over");
            assert(builtin_id(35) == NodeTypeId::ALPHA_OVER@);
            assert(NodeTypeId::SUBTRACT@.len() != NodeTypeId::ALPHA_OVER@.len());
        } else if j == 36 {
            reveal_strlit("temporal_filters.fade");
            assert(builtin_id(36) == NodeTypeId::FADE@);
            assert(NodeTypeId::SUBTRACT@.len() != NodeTypeId::FADE@.len());
        } else if j == 37 {
            reveal_strlit("temporal_filters.integrate");
            assert(builtin_id(37) == NodeTypeId::INTEGRATE@);
            assert(NodeTypeId::SUBTRACT@.len() != NodeTypeId::INTEGRATE@.len());
        } else if j == 38 {
            reveal_strlit("temporal_filters.moving_average");
            assert(builtin_id(38) == NodeTypeId::MOVING_AVERAGE@);
            assert(NodeTypeId::SUBTRACT@.len() != NodeTypeId::MOVING_AVERAGE@.len());
        } else if j == 39 {
            reveal_strlit("temporal_filters.moving_median");
            assert(builtin_id(39) == NodeTypeId::MOVING_MEDIAN@);
            assert(NodeTypeId::SUBTRACT@.len() != NodeTypeId::MOVING_MEDIAN@.len());
        } else if j == 40 {
            reveal_strlit("spatial_filters.box_blur");
            assert(builtin_id(40) == NodeTypeId::BOX_BLUR@);
            assert(NodeTypeId::SUBTRACT@.len() != NodeTypeId::BOX_BLUR@.len());
        } else if j == 41 {
            reveal_strlit("spatial_filters.gaussian_blur");
            assert(builtin_id(41) == NodeTypeId::GAUSSIAN_BLUR@);
            assert(NodeTypeId::SUBTRACT@.len() != NodeTypeId::GAUSSIAN_BLUR@.len());
        } else if j == 42 {
            reveal_strlit("spatial_filters.median_filter");
            assert(builtin_id(42) == NodeTypeId::MEDIAN_FILTER@);
            assert(NodeTypeId::SUBTRACT@.len() != NodeTypeId::MEDIAN_FILTER@.len());
        } else if j == 43 {
            reveal_strlit("spatial_filters.laplacian_filter");
            assert(builtin_id(43) == NodeTypeId::LAPLACIAN_FILTER@);
            assert(NodeTypeId::SUBTRACT@.len() != NodeTypeId::LAPLACIAN_FILTER@.len());
        } else if j == 44 {
            reveal_strlit("generators.spectrum_analyzer");
            assert(builtin_id(44) == NodeTypeId::SPECTRUM_ANALYZER@);
            assert(NodeTypeId::SUBTRACT@.len() != NodeTypeId::SPECTRUM_ANALYZER@.len());
        } else if j == 45 {
            reveal_strlit("generators.solid_frame");
            assert(builtin_id(45) == NodeTypeId::SOLID_FRAME@);
            assert(NodeTypeId::SUBTRACT@.len() != NodeTypeId::SOLID_FRAME@.len());
        } else if j == 46 {
            reveal_strlit("generators.rainbow_sweep");
            assert(builtin_id(46) == NodeTypeId::RAINBOW_SWEEP@);
            assert(NodeTypeId::SUBTRACT@.len() != NodeTypeId::RAINBOW_SWEEP@.len());
        } else if j == 47 {
            reveal_strlit("generators.circle_sweep");
            assert(builtin_id(47) == NodeTypeId::CIRCLE_SWEEP@);
            assert(NodeTypeId::SUBTRACT@.len() != NodeTypeId::CIRCLE_SWEEP@.len());
        } else if j == 48 {
            reveal_strlit("generators.level_bar");
            assert(builtin_id(48) == NodeTypeId::LEVEL_BAR@);
            assert(NodeTypeId::SUBTRACT@.len() != NodeTypeId::LEVEL_BAR@.len());
        } else if j == 49 {
            reveal_strlit("generators.twinkle_stars");
            assert(builtin_id(49) == NodeTypeId::TWINKLE_STARS@);
            assert(NodeTypeId::SUBTRACT@.len() != NodeTypeId::TWINKLE_STARS@.len());
        } else if j == 50 {
            reveal_strlit("generators.plasma");
            assert(builtin_id(50) == NodeTypeId::PLASMA@);
            assert(NodeTypeId::SUBTRACT@.len() != NodeTypeId::PLASMA@.len());
        } else if j == 51 {
            reveal_strlit("generators.bouncing_balls");
            assert(builtin_id(51) == NodeTypeId::BOUNCING_BALLS@);
            assert(NodeTypeId::SUBTRACT@.len() != NodeTypeId::BOUNCING_BALLS@.len());
        } else if j == 52 {
            reveal_strlit("debug.wled_dummy_display");
            assert(builtin_id(52) == NodeTypeId::WLED_DUMMY_DISPLAY@);
            assert(NodeTypeId::SUBTRACT@.len() != NodeTypeId::WLED_DUMMY_DISPLAY@.len());
        } else if j == 53 {
            reveal_strlit("debug.type_debug");
            assert(builtin_id(53) == NodeTypeId::TYPE_DEBUG@);
            assert(NodeTypeId::SUBTRACT@.len() != NodeTypeId::TYPE_DEBUG@.len());
        } else if j == 54 {
            reveal_strlit("frame_operations.frame_brightness");
            assert(builtin_id(54) == NodeTypeId::FRAME_BRIGHTNESS@);
            assert(NodeTypeId::SUBTRACT@.len() != NodeTypeId::FRAME_BRIGHTNESS@.len());
        }
    }
}

proof fn lemma_catalog_id_14_distinct()
    ensures
        forall|j: int| 14 < j < BUILTIN_NODE_COUNT ==> builtin_id(14) != #[trigger] builtin_id(j),
{
    reveal_strlit("inputs.signal_generator");
    assert(builtin_id(14) == NodeTypeId::SIGNAL_GENERATOR@);
    assert forall|j: int| 14 < j < BUILTIN_NODE_COUNT implies builtin_id(14) != #[trigger] builtin_id(j) by {
        if j == 15 {
            reveal_strlit("math.divide_float");
            assert(builtin_id(15) == NodeTypeId::DIVIDE@);
            assert(NodeTypeId::SIGNAL_GENERATOR@.len() != NodeTypeId::DIVIDE@.len());
        } else if j == 16 {
            reveal_strlit("math.min_max_float");
            assert(builtin_id(16) == NodeTypeId::MIN_MAX@);
            assert(NodeTypeId::SIGNAL_GENERATOR@.len() != NodeTypeId::MIN_MAX@.len());
        } else if j == 17 {
            reveal_strlit("math.multiply_float");
            assert(builtin_id(17) == NodeTypeId::MULTIPLY@);
            assert(NodeTypeId::SIGNAL_GENERATOR@.len() != NodeTypeId::MULTIPLY@.len());
        } else if j == 18 {
            reveal_strlit("math.abs_float");
            assert(builtin_id(18) == NodeTypeId::ABS@);
            assert(NodeTypeId::SIGNAL_GENERATOR@.len() != NodeTypeId::ABS@.len());
        } else if j == 19 {
            reveal_strlit("math.clamp_float");
            assert(builtin_id(19) == NodeTypeId::CLAMP@);
            assert(NodeTypeId::SIGNAL_GENERATOR@.len() != NodeTypeId::CLAMP@.len());
        } else if j == 20 {
            reveal_strlit("math.power_float");
            assert(builtin_id(20) == NodeTypeId::POWER@);
            assert(NodeTypeId::SIGNAL_GENERATOR@.len() != NodeTypeId::POWER@.len());
        } else if j == 21 {
            reveal_strlit("math.root_float");
            assert(builtin_id(21) == NodeTypeId::ROOT@);
            assert(NodeTypeId::SIGNAL_GENERATOR@.len() != NodeTypeId::ROOT@.len());
        } else if j == 22 {
            reveal_strlit("math.exponential_float");
            assert(builtin_id(22) == NodeTypeId::EXPONENTIAL@);
            assert(NodeTypeId::SIGNAL_GENERATOR@.len() != NodeTypeId::EXPONENTIAL@.len());
        } else if j == 23 {
            reveal_strlit("math.log_float");
            assert(builtin_id(23) == NodeTypeId::LOG@);
            assert(NodeTypeId::SIGNAL_GENERATOR@.len() != NodeTypeId::LOG@.len());
        } else if j == 24 {
            reveal_strlit("math.map_range_float");
            assert(builtin_id(24) == NodeTypeId::MAP_RANGE@);
            assert(NodeTypeId::SIGNAL_GENERATOR@.len() != NodeTypeId::MAP_RANGE@.len());
        } else if j == 25 {
            reveal_strlit("math.round_float");
            assert(builtin_id(25) == NodeTypeId::ROUND@);
            assert(NodeTypeId::SIGNAL_GENERATOR@.len() != NodeTypeId::ROUND@.len());
        } else if j == 26 {
            reveal_strlit("math.scale_tensor");
            assert(builtin_id(26) == NodeTypeId::SCALE_TENSOR@);
            assert(NodeTypeId::SIGNAL_GENERATOR@.len() != NodeTypeId::SCALE_TENSOR@.len());
        } else if j == 27 {
            reveal_strlit("frame_operations.scale");
            assert(builtin_id(27) == NodeTypeId::SCALE_COLOR@);
            assert(NodeTypeId::SIGNAL_GENERATOR@.len() != NodeTypeId::SCALE_COLOR@.len());
        } else if j == 28 {
            reveal_strlit("frame_operations.multiply");
            assert(builtin_id(28) == NodeTypeId::MULTIPLY_COLOR@);
            assert(NodeTypeId::SIGNAL_GENERATOR@.len() != NodeTypeId::MULTIPLY_COLOR@.len());
        } else if j == 29 {
            reveal_strlit("frame_operations.tint_frame");
            assert(builtin_id(29) == NodeTypeId::TINT_FRAME@);
            assert(NodeTypeId::SIGNAL_GENERATOR@.len() != NodeTypeId::TINT_FRAME@.len());
        } else if j == 30 {
            reveal_strlit("frame_operations.extract_channels");
            assert(builtin_id(30) == NodeTypeId::EXTRACT_CHANNELS@);
            assert(NodeTypeId::SIGNAL_GENERATOR@.len() != NodeTypeId::EXTRACT_CHANNELS@.len());
        } else if j == 31 {
            reveal_strlit("frame_operations.set_channel");
            assert(builtin_id(31) == NodeTypeId::SET_CHANNEL@);
            assert(NodeTypeId::SIGNAL_GENERATOR@.len() != NodeTypeId::SET_CHANNEL@.len());
        } else if j == 32 {
            reveal_strlit("frame_operations.colorize");
            assert(builtin_id(32) == NodeTypeId::COLORIZE@);
            assert(NodeTypeId::SIGNAL_GENERATOR@.len() != NodeTypeId::COLORIZE@.len());
        } else if j == 33 {
            reveal_strlit("frame_operations.mask_frame");
            assert(builtin_id(33) == NodeTypeId::MASK_FRAME@);
            assert(NodeTypeId::SIGNAL_GENERATOR@.len() != NodeTypeId::MASK_FRAME@.len());
        } else if j == 34 {
            reveal_strlit("frame_operations.mix");
            assert(builtin_id(34) == NodeTypeId::MIX_COLOR@);
            assert(NodeTypeId::SIGNAL_GENERATOR@.len() != NodeTypeId::MIX_COLOR@.len());
        } else if j == 35 {
            reveal_strlit("frame_operations.alpha_over");
            assert(builtin_id(35) == NodeTypeId::ALPHA_OVER@);
            assert(NodeTypeId::SIGNAL_GENERATOR@.len() != NodeTypeId::ALPHA_OVER@.len());
        } else if j == 36 {
            reveal_strlit("temporal_filters.fade");
            assert(builtin_id(36) == NodeTypeId::FADE@);
            assert(NodeTypeId::SIGNAL_GENERATOR@.len() != NodeTypeId::FADE@.len());
        } else if j == 37 {
            reveal_strlit("temporal_filters.integrate");
            assert(builtin_id(37) == NodeTypeId::INTEGRATE@);
            assert(NodeTypeId::SIGNAL_GENERATOR@.len() != NodeTypeId::INTEGRATE@.len());
        } else if j == 38 {
            reveal_strlit("temporal_filters.moving_average");
            assert(builtin_id(38) == NodeTypeId::MOVING_AVERAGE@);
            assert(NodeTypeId::SIGNAL_GENERATOR@.len() != NodeTypeId::MOVING_AVERAGE@.len());
        } else if j == 39 {
            reveal_strlit("temporal_filters.moving_median");
            assert(builtin_id(39) == NodeTypeId::MOVING_MEDIAN@);
            assert(NodeTypeId::SIGNAL_GENERATOR@.len() != NodeTypeId::MOVING_MEDIAN@.len());
        } else if j == 40 {
            reveal_strlit("spatial_filters.box_blur");
            assert(builtin_id(40) == NodeTypeId::BOX_BLUR@);
            assert(NodeTypeId::SIGNAL_GENERATOR@.len() != NodeTypeId::BOX_BLUR@.len());
        } else if j == 41 {
            reveal_strlit("spatial_filters.gaussian_blur");
            assert(builtin_id(41) == NodeTypeId::GAUSSIAN_BLUR@);
            assert(NodeTypeId::SIGNAL_GENERATOR@.len() != NodeTypeId::GAUSSIAN_BLUR@.len());
        } else if j == 42 {
            reveal_strlit("spatial_filters.median_filter");
            assert(builtin_id(42) == NodeTypeId::MEDIAN_FILTER@);
            assert(NodeTypeId::SIGNAL_GENERATOR@.len() != NodeTypeId::MEDIAN_FILTER@.len());
        } else if j == 43 {
            reveal_strlit("spatial_filters.laplacian_filter");
            assert(builtin_id(43) == NodeTypeId::LAPLACIAN_FILTER@);
            assert(NodeTypeId::SIGNAL_GENERATOR@.len() != NodeTypeId::LAPLACIAN_FILTER@.len());
        } else if j == 44 {
            reveal_strlit("generators.spectrum_analyzer");
            assert(builtin_id(44) == NodeTypeId::SPECTRUM_ANALYZER@);
            assert(NodeTypeId::SIGNAL_GENERATOR@.len() != NodeTypeId::SPECTRUM_ANALYZER@.len());
        } else if j == 45 {
            reveal_strlit("generators.solid_frame");
            assert(builtin_id(45) == NodeTypeId::SOLID_FRAME@);
            assert(NodeTypeId::SIGNAL_GENERATOR@.len() != NodeTypeId::SOLID_FRAME@.len());
        } else if j == 46 {
            reveal_strlit("generators.rainbow_sweep");
            assert(builtin_id(46) == NodeTypeId::RAINBOW_SWEEP@);
            assert(NodeTypeId::SIGNAL_GENERATOR@.len() != NodeTypeId::RAINBOW_SWEEP@.len());
        } else if j == 47 {
            reveal_strlit("generators.circle_sweep");
            assert(builtin_id(47) == NodeTypeId::CIRCLE_SWEEP@);
            assert(NodeTypeId::SIGNAL_GENERATOR@[0] != NodeTypeId::CIRCLE_SWEEP@[0]);
        } else if j == 48 {
            reveal_strlit("generators.level_bar");
            assert(builtin_id(48) == NodeTypeId::LEVEL_BAR@);
            assert(NodeTypeId::SIGNAL_GENERATOR@.len() != NodeTypeId::LEVEL_BAR@.len());
        } else if j == 49 {
            reveal_strlit("generators.twinkle_stars");
            assert(builtin_id(49) == NodeTypeId::TWINKLE_STARS@);
            assert(NodeTypeId::SIGNAL_GENERATOR@.len() != NodeTypeId::TWINKLE_STARS@.len());
        } else if j == 50 {
            reveal_strlit("generators.plasma");
            assert(builtin_id(50) == NodeTypeId::PLASMA@);
            assert(NodeTypeId::SIGNAL_GENERATOR@.len() != NodeTypeId::PLASMA@.len());
        } else if j == 51 {
            reveal_strlit("generators.bouncing_balls");
            assert(builtin_id(51) == NodeTypeId::BOUNCING_BALLS@);
            assert(NodeTypeId::SIGNAL_GENERATOR@.len() != NodeTypeId::BOUNCING_BALLS@.len());
        } else if j == 52 {
            reveal_strlit("debug.wled_dummy_display");
            assert(builtin_id(52) == NodeTypeId::WLED_DUMMY_DISPLAY@);
            assert(NodeTypeId::SIGNAL_GENERATOR@.len() != NodeTypeId::WLED_DUMMY_DISPLAY@.len());
        } else if j == 53 {
            reveal_strlit("debug.type_debug");
            assert(builtin_id(53) == NodeTypeId::TYPE_DEBUG@);
            assert(NodeTypeId::SIGNAL_GENERATOR@.len() != NodeTypeId::TYPE_DEBUG@.len());
        } else if j == 54 {
            reveal_strlit("frame_operations.frame_brightness");
            assert(builtin_id(54) == NodeTypeId::FRAME_BRIGHTNESS@);
            assert(NodeTypeId::SIGNAL_GENERATOR@.len() != NodeTypeId::FRAME_BRIGHTNESS@.len());
        }
    }
}

proof fn lemma_catalog_id_15_distinct()
    ensures
        forall|j: int| 15 < j < BUILTIN_NODE_COUNT ==> builtin_id(15) != #[trigger] builtin_id(j),
{
    reveal_strlit("math.divide_float");
    assert(builtin_id(15) == NodeTypeId::DIVIDE@);
    assert forall|j: int| 15 < j < BUILTIN_NODE_COUNT implies builtin_id(15) != #[trigger] builtin_id(j) by {
        if j == 16 {
            reveal_strlit("math.min_max_float");
            assert(builtin_id(16) == NodeTypeId::MIN_MAX@);
            assert(NodeTypeId::DIVIDE@.len() != NodeTypeId::MIN_MAX@.len());
        } else if j == 17 {
            reveal_strlit("math.multiply_float");
            assert(builtin_id(17) == NodeTypeId::MULTIPLY@);
            assert(NodeTypeId::DIVIDE@.len() != NodeTypeId::MULTIPLY@.len());
        } else if j == 18 {
            reveal_strlit("math.abs_float");
            assert(builtin_id(18) == NodeTypeId::ABS@);
            assert(NodeTypeId::DIVIDE@.len() != NodeTypeId::ABS@.len());
        } else if j == 19 {
            reveal_strlit("math.clamp_float");
            assert(builtin_id(19) == NodeTypeId::CLAMP@);
            assert(NodeTypeId::DIVIDE@.len() != NodeTypeId::CLAMP@.len());
        } else if j == 20 {
            reveal_strlit("math.power_float");
            assert(builtin_id(20) == NodeTypeId::POWER@);
            assert(NodeTypeId::DIVIDE@.len() != NodeTypeId::POWER@.len());
        } else if j == 21 {
            reveal_strlit("math.root_float");
            assert(builtin_id(21) == NodeTypeId::ROOT@);
            assert(NodeTypeId::DIVIDE@.len() != NodeTypeId::ROOT@.len());
        } else if j == 22 {
            reveal_strlit("math.exponential_float");
            assert(builtin_id(22) == NodeTypeId::EXPONENTIAL@);
            assert(NodeTypeId::DIVIDE@.len() != NodeTypeId::EXPONENTIAL@.len());
        } else if j == 23 {
            reveal_strlit("math.log_float");
            assert(builtin_id(23) == NodeTypeId::LOG@);
            assert(NodeTypeId::DIVIDE@.len() != NodeTypeId::LOG@.len());
        } else if j == 24 {
            reveal_strlit("math.map_range_float");
            assert(builtin_id(24) == NodeTypeId::MAP_RANGE@);
            assert(NodeTypeId::DIVIDE@.len() != NodeTypeId::MAP_RANGE@.len());
        } else if j == 25 {
            reveal_strlit("math.round_float");
            assert(builtin_id(25) == NodeTypeId::ROUND@);
            assert(NodeTypeId::DIVIDE@.len() != NodeTypeId::ROUND@.len());
        } else if j == 26 {
            reveal_strlit("math.scale_tensor");
            assert(builtin_id(26) == NodeTypeId::SCALE_TENSOR@);
            assert(NodeTypeId::DIVIDE@[5] != NodeTypeId::SCALE_TENSOR@[5]);
        } else if j == 27 {
            reveal_strlit("frame_operations.scale");
            assert(builtin_id(27) == NodeTypeId::SCALE_COLOR@);
            assert(NodeTypeId::DIVIDE@.len() != NodeTypeId::SCALE_COLOR@.len());
        } else if j == 28 {
            reveal_strlit("frame_operations.multiply");
            assert(builtin_id(28) == NodeTypeId::MULTIPLY_COLOR@);
            assert(NodeTypeId::DIVIDE@.len() != NodeTypeId::MULTIPLY_COLOR@.len());
        } else if j == 29 {
            reveal_strlit("frame_operations.tint_frame");
            assert(builtin_id(29) == NodeTypeId::TINT_FRAME@);
            assert(NodeTypeId::DIVIDE@.len() != NodeTypeId::TINT_FRAME@.len());
        } else if j == 30 {
            reveal_strlit("frame_operations.extract_channels");
            assert(builtin_id(30) == NodeTypeId::EXTRACT_CHANNELS@);
            assert(NodeTypeId::DIVIDE@.len() != NodeTypeId::EXTRACT_CHANNELS@.len());
        } else if j == 31 {
            reveal_strlit("frame_operations.set_channel");
            assert(builtin_id(31) == NodeTypeId::SET_CHANNEL@);
            assert(NodeTypeId::DIVIDE@.len() != NodeTypeId::SET_CHANNEL@.len());
        } else if j == 32 {
            reveal_strlit("frame_operations.colorize");
            assert(builtin_id(32) == NodeTypeId::COLORIZE@);
            assert(NodeTypeId::DIVIDE@.len() != NodeTypeId::COLORIZE@.len());
        } else if j == 33 {
            reveal_strlit("frame_operations.mask_frame");
            assert(builtin_id(33) == NodeTypeId::MASK_FRAME@);
            assert(NodeTypeId::DIVIDE@.len() != NodeTypeId::MASK_FRAME@.len());
        } else if j == 34 {
            reveal_strlit("frame_operations.mix");
            assert(builtin_id(34) == NodeTypeId::MIX_COLOR@);
            assert(NodeTypeId::DIVIDE@.len() != NodeTypeId::MIX_COLOR@.len());
        } else if j == 35 {
            reveal_strlit("frame_operations.alpha_over");
            assert(builtin_id(35) == NodeTypeId::ALPHA_OVER@);
            assert(NodeTypeId::DIVIDE@.len() != NodeTypeId::ALPHA_OVER@.len());
        } else if j == 36 {
            reveal_strlit("temporal_filters.fade");
            assert(builtin_id(36) == NodeTypeId::FADE@);
            assert(NodeTypeId::DIVIDE@.len() != NodeTypeId::FADE@.len());
        } else if j == 37 {
            reveal_strlit("temporal_filters.integrate");
            assert(builtin_id(37) == NodeTypeId::INTEGRATE@);
            assert(NodeTypeId::DIVIDE@.len() != NodeTypeId::INTEGRATE@.len());
        } else if j == 38 {
            reveal_strlit("temporal_filters.moving_average");
            assert(builtin_id(38) == NodeTypeId::MOVING_AVERAGE@);
            assert(NodeTypeId::DIVIDE@.len() != NodeTypeId::MOVING_AVERAGE@.len());
        } else if j == 39 {
            reveal_strlit("temporal_filters.moving_median");
            assert(builtin_id(39) == NodeTypeId::MOVING_MEDIAN@);
            assert(NodeTypeId::DIVIDE@.len() != NodeTypeId::MOVING_MEDIAN@.len());
        } else if j == 40 {
            reveal_strlit("spatial_filters.box_blur");
            assert(builtin_id(40) == NodeTypeId::BOX_BLUR@);
            assert(NodeTypeId::DIVIDE@.len() != NodeTypeId::BOX_BLUR@.len());
        } else if j == 41 {
            reveal_strlit("spatial_filters.gaussian_blur");
            assert(builtin_id(41) == NodeTypeId::GAUSSIAN_BLUR@);
            assert(NodeTypeId::DIVIDE@.len() != NodeTypeId::GAUSSIAN_BLUR@.len());
        } else if j == 42 {
            reveal_strlit("spatial_filters.median_filter");
            assert(builtin_id(42) == NodeTypeId::MEDIAN_FILTER@);
            assert(NodeTypeId::DIVIDE@.len() != NodeTypeId::MEDIAN_FILTER@.len());
        } else if j == 43 {
            reveal_strlit("spatial_filters.laplacian_filter");
            assert(builtin_id(43) == NodeTypeId::LAPLACIAN_FILTER@);
            assert(NodeTypeId::DIVIDE@.len() != NodeTypeId::LAPLACIAN_FILTER@.len());
        } else if j == 44 {
            reveal_strlit("generators.spectrum_analyzer");
            assert(builtin_id(44) == NodeTypeId::SPECTRUM_ANALYZER@);
            assert(NodeTypeId::DIVIDE@.len() != NodeTypeId::SPECTRUM_ANALYZER@.len());
        } else if j == 45 {
            reveal_strlit("generators.solid_frame");
            assert(builtin_id(45) == NodeTypeId::SOLID_FRAME@);
            assert(NodeTypeId::DIVIDE@.len() != NodeTypeId::SOLID_FRAME@.len());
        } else if j == 46 {
            reveal_strlit("generators.rainbow_sweep");
            assert(builtin_id(46) == NodeTypeId::RAINBOW_SWEEP@);
            assert(NodeTypeId::DIVIDE@.len() != NodeTypeId::RAINBOW_SWEEP@.len());
        } else if j == 47 {
            reveal_strlit("generators.circle_sweep");
            assert(builtin_id(47) == NodeTypeId::CIRCLE_SWEEP@);
            assert(NodeTypeId::DIVIDE@.len() != NodeTypeId::CIRCLE_SWEEP@.len());
        } else if j == 48 {
            reveal_strlit("generators.level_bar");
            assert(builtin_id(48) == NodeTypeId::LEVEL_BAR@);
            assert(NodeTypeId::DIVIDE@.len() != NodeTypeId::LEVEL_BAR@.len());
        } else if j == 49 {
            reveal_strlit("generators.twinkle_stars");
            assert(builtin_id(49) == NodeTypeId::TWINKLE_STARS@);
            assert(NodeTypeId::DIVIDE@.len() != NodeTypeId::TWINKLE_STARS@.len());
        } else if j == 50 {
            reveal_strlit("generators.plasma");
            assert(builtin_id(50) == NodeTypeId::PLASMA@);
            assert(NodeTypeId::DIVIDE@[0] != NodeTypeId::PLASMA@[0]);
        } else if j == 51 {
            reveal_strlit("generators.bouncing_balls");
            assert(builtin_id(51) == NodeTypeId::BOUNCING_BALLS@);
            assert(NodeTypeId::DIVIDE@.len() != NodeTypeId::BOUNCING_BALLS@.len());
        } else if j == 52 {
            reveal_strlit("debug.wled_dummy_display");
            assert(builtin_id(52) == NodeTypeId::WLED_DUMMY_DISPLAY@);
            assert(NodeTypeId::DIVIDE@.len() != NodeTypeId::WLED_DUMMY_DISPLAY@.len());
        } else if j == 53 {
            reveal_strlit("debug.type_debug");
            assert(builtin_id(53) == NodeTypeId::TYPE_DEBUG@);
            assert(NodeTypeId::DIVIDE@.len() != NodeTypeId::TYPE_DEBUG@.len());
        } else if j == 54 {
            reveal_strlit("frame_operations.frame_brightness");
            assert(builtin_id(54) == NodeTypeId::FRAME_BRIGHTNESS@);
            assert(NodeTypeId::DIVIDE@.len() != NodeTypeId::FRAME_BRIGHTNESS@.len());
        }
    }
}

proof fn lemma_catalog_id_16_distinct()
    ensures
        forall|j: int| 16 < j < BUILTIN_NODE_COUNT ==> builtin_id(16) != #[trigger] builtin_id(j),
{
    reveal_strlit("math.min_max_float");
    assert(builtin_id(16) == NodeTypeId::MIN_MAX@);
    assert forall|j: int| 16 < j < BUILTIN_NODE_COUNT implies builtin_id(16) != #[trigger] builtin_id(j) by {
        if j == 17 {
            reveal_strlit("math.multiply_float");
            assert(builtin_id(17) == NodeTypeId::MULTIPLY@);
            assert(NodeTypeId::MIN_MAX@.len() != NodeTypeId::MULTIPLY@.len());
        } else if j == 18 {
            reveal_strlit("math.abs_float");
            assert(builtin_id(18) == NodeTypeId::ABS@);
            assert(NodeTypeId::MIN_MAX@.len() != NodeTypeId::ABS@.len());
        } else if j == 19 {
            reveal_strlit("math.clamp_float");
            assert(builtin_id(19) == NodeTypeId::CLAMP@);
            assert(NodeTypeId::MIN_MAX@.len() != NodeTypeId::CLAMP@.len());
        } else if j == 20 {
            reveal_strlit("math.power_float");
            assert(builtin_id(20) == NodeTypeId::POWER@);
            assert(NodeTypeId::MIN_MAX@.len() != NodeTypeId::POWER@.len());
        } else if j == 21 {
            reveal_strlit("math.root_float");
            assert(builtin_id(21) == NodeTypeId::ROOT@);
            assert(NodeTypeId::MIN_MAX@.len() != NodeTypeId::ROOT@.len());
        } else if j == 22 {
            reveal_strlit("math.exponential_float");
            assert(builtin_id(22) == NodeTypeId::EXPONENTIAL@);
            assert(NodeTypeId::MIN_MAX@.len() != NodeTypeId::EXPONENTIAL@.len());
        } else if j == 23 {
            reveal_strlit("math.log_float");
            assert(builtin_id(23) == NodeTypeId::LOG@);
            assert(NodeTypeId::MIN_MAX@.len() != NodeTypeId::LOG@.len());
        } else if j == 24 {
            reveal_strlit("math.map_range_float");
            assert(builtin_id(24) == NodeTypeId::MAP_RANGE@);
            assert(NodeTypeId::MIN_MAX@.len() != NodeTypeId::MAP_RANGE@.len());
        } else if j == 25 {
            reveal_strlit("math.round_float");
            assert(builtin_id(25) == NodeTypeId::ROUND@);
            assert(NodeTypeId::MIN_MAX@.len() != NodeTypeId::ROUND@.len());
        } else if j == 26 {
            reveal_strlit("math.scale_tensor");
            assert(builtin_id(26) == NodeTypeId::SCALE_TENSOR@);
            assert(NodeTypeId::MIN_MAX@.len() != NodeTypeId::SCALE_TENSOR@.len());
        } else if j == 27 {
            reveal_strlit("frame_operations.scale");
            assert(builtin_id(27) == NodeTypeId::SCALE_COLOR@);
            assert(NodeTypeId::MIN_MAX@.len() != NodeTypeId::SCALE_COLOR@.len());
        } else if j == 28 {
            reveal_strlit("frame_operations.multiply");
            assert(builtin_id(28) == NodeTypeId::MULTIPLY_COLOR@);
            assert(NodeTypeId::MIN_MAX@.len() != NodeTypeId::MULTIPLY_COLOR@.len());
        } else if j == 29 {
            reveal_strlit("frame_operations.tint_frame");
            assert(builtin_id(29) == NodeTypeId::TINT_FRAME@);
            assert(NodeTypeId::MIN_MAX@.len() != NodeTypeId::TINT_FRAME@.len());
        } else if j == 30 {
            reveal_strlit("frame_operations.extract_channels");
            assert(builtin_id(30) == NodeTypeId::EXTRACT_CHANNELS@);
            assert(NodeTypeId::MIN_MAX@.len() != NodeTypeId::EXTRACT_CHANNELS@.len());
        } else if j == 31 {
            reveal_strlit("frame_operations.set_channel");
            assert(builtin_id(31) == NodeTypeId::SET_CHANNEL@);
            assert(NodeTypeId::MIN_MAX@.len() != NodeTypeId::SET_CHANNEL@.len());
        } else if j == 32 {
            reveal_strlit("frame_operations.colorize");
            assert(builtin_id(32) == NodeTypeId::COLORIZE@);
            assert(NodeTypeId::MIN_MAX@.len() != NodeTypeId::COLORIZE@.len());
        } else if j == 33 {
            reveal_strlit("frame_operations.mask_frame");
            assert(builtin_id(33) == NodeTypeId::MASK_FRAME@);
            assert(NodeTypeId::MIN_MAX@.len() != NodeTypeId::MASK_FRAME@.len());
        } else if j == 34 {
            reveal_strlit("frame_operations.mix");
            assert(builtin_id(34) == NodeTypeId::MIX_COLOR@);
            assert(NodeTypeId::MIN_MAX@.len() != NodeTypeId::MIX_COLOR@.len());
        } else if j == 35 {
            reveal_strlit("frame_operations.alpha_over");
            assert(builtin_id(35) == NodeTypeId::ALPHA_OVER@);
            assert(NodeTypeId::MIN_MAX@.len() != NodeTypeId::ALPHA_OVER@.len());
        } else if j == 36 {
            reveal_strlit("temporal_filters.fade");
            assert(builtin_id(36) == NodeTypeId::FADE@);
            assert(NodeTypeId::MIN_MAX@.len() != NodeTypeId::FADE@.len());
        } else if j == 37 {
            reveal_strlit("temporal_filters.integrate");
            assert(builtin_id(37) == NodeTypeId::INTEGRATE@);
            assert(NodeTypeId::MIN_MAX@.len() != NodeTypeId::INTEGRATE@.len());
        } else if j == 38 {
            reveal_strlit("temporal_filters.moving_average");
            assert(builtin_id(38) == NodeTypeId::MOVING_AVERAGE@);
            assert(NodeTypeId::MIN_MAX@.len() != NodeTypeId::MOVING_AVERAGE@.len());
        } else if j == 39 {
            reveal_strlit("temporal_filters.moving_median");
            assert(builtin_id(39) == NodeTypeId::MOVING_MEDIAN@);
            assert(NodeTypeId::MIN_MAX@.len() != NodeTypeId::MOVING_MEDIAN@.len());
        } else if j == 40 {
            reveal_strlit("spatial_filters.box_blur");
            assert(builtin_id(40) == NodeTypeId::BOX_BLUR@);
            assert(NodeTypeId::MIN_MAX@.len() != NodeTypeId::BOX_BLUR@.len());
        } else if j == 41 {
            reveal_strlit("spatial_filters.gaussian_blur");
            assert(builtin_id(41) == NodeTypeId::GAUSSIAN_BLUR@);
            assert(NodeTypeId::MIN_MAX@.len() != NodeTypeId::GAUSSIAN_BLUR@.len());
        } else if j == 42 {
            reveal_strlit("spatial_filters.median_filter");
            assert(builtin_id(42) == NodeTypeId::MEDIAN_FILTER@);
            assert(NodeTypeId::MIN_MAX@.len() != NodeTypeId::MEDIAN_FILTER@.len());
        } else if j == 43 {
            reveal_strlit("spatial_filters.laplacian_filter");
            assert(builtin_id(43) == NodeTypeId::LAPLACIAN_FILTER@);
            assert(NodeTypeId::MIN_MAX@.len() != NodeTypeId::LAPLACIAN_FILTER@.len());
        } else if j == 44 {
            reveal_strlit("generators.spectrum_analyzer");
            assert(builtin_id(44) == NodeTypeId::SPECTRUM_ANALYZER@);
            assert(NodeTypeId::MIN_MAX@.len() != NodeTypeId::SPECTRUM_ANALYZER@.len());
        } else if j == 45 {
            reveal_strlit("generators.solid_frame");
            assert(builtin_id(45) == NodeTypeId::SOLID_FRAME@);
            assert(NodeTypeId::MIN_MAX@.len() != NodeTypeId::SOLID_FRAME@.len());
        } else if j == 46 {
            reveal_strlit("generators.rainbow_sweep");
            assert(builtin_id(46) == NodeTypeId::RAINBOW_SWEEP@);
            assert(NodeTypeId::MIN_MAX@.len() != NodeTypeId::RAINBOW_SWEEP@.len());
        } else if j == 47 {
            reveal_strlit("generators.circle_sweep");
            assert(builtin_id(47) == NodeTypeId::CIRCLE_SWEEP@);
            assert(NodeTypeId::MIN_MAX@.len() != NodeTypeId::CIRCLE_SWEEP@.len());
        } else if j == 48 {
            reveal_strlit("generators.level_bar");
            assert(builtin_id(48) == NodeTypeId::LEVEL_BAR@);
            assert(NodeTypeId::MIN_MAX@.len() != NodeTypeId::LEVEL_BAR@.len());
        } else if j == 49 {
            reveal_strlit("generators.twinkle_stars");
            assert(builtin_id(49) == NodeTypeId::TWINKLE_STARS@);
            assert(NodeTypeId::MIN_MAX@.len() != NodeTypeId::TWINKLE_STARS@.len());
        } else if j == 50 {
            reveal_strlit("generators.plasma");
            assert(builtin_id(50) == NodeTypeId::PLASMA@);
            assert(NodeTypeId::MIN_MAX@.len() != NodeTypeId::PLASMA@.len());
        } else if j == 51 {
            reveal_strlit("generators.bouncing_balls");
            assert(builtin_id(51) == NodeTypeId::BOUNCING_BALLS@);
            assert(NodeTypeId::MIN_MAX@.len() != NodeTypeId::BOUNCING_BALLS@.len());
        } else if j == 52 {
            reveal_strlit("debug.wled_dummy_display");
            assert(builtin_id(52) == NodeTypeId::WLED_DUMMY_DISPLAY@);
            assert(NodeTypeId::MIN_MAX@.len() != NodeTypeId::WLED_DUMMY_DISPLAY@.len());
        } else if j == 53 {
            reveal_strlit("debug.type_debug");
            assert(builtin_id(53) == NodeTypeId::TYPE_DEBUG@);
            assert(NodeTypeId::MIN_MAX@.len() != NodeTypeId::TYPE_DEBUG@.len());
        } else if j == 54 {
            reveal_strlit("frame_operations.frame_brightness");
            assert(builtin_id(54) == NodeTypeId::FRAME_BRIGHTNESS@);
            assert(NodeTypeId::MIN_MAX@.len() != NodeTypeId::FRAME_BRIGHTNESS@.len());
        }
    }
}

proof fn lemma_catalog_id_17_distinct()
    ensures
        forall|j: int| 17 < j < BUILTIN_NODE_COUNT ==> builtin_id(17) != #[trigger] builtin_id(j),
{
    reveal_strlit("math.multiply_float");
    assert(builtin_id(17) == NodeTypeId::MULTIPLY@);
    assert forall|j: int| 17 < j < BUILTIN_NODE_COUNT implies builtin_id(17) != #[trigger] builtin_id(j) by {
        if j == 18 {
            reveal_strlit("math.abs_float");
            assert(builtin_id(18) == NodeTypeId::ABS@);
            assert(NodeTypeId::MULTIPLY@.len() != NodeTypeId::ABS@.len());
        } else if j == 19 {
            reveal_strlit("math.clamp_float");
            assert(builtin_id(19) == NodeTypeId::CLAMP@);
            assert(NodeTypeId::MULTIPLY@.len() != NodeTypeId::CLAMP@.len());
        } else if j == 20 {
            reveal_strlit("math.power_float");
            assert(builtin_id(20) == NodeTypeId::POWER@);
            assert(NodeTypeId::MULTIPLY@.len() != NodeTypeId::POWER@.len());
        } else if j == 21 {
            reveal_strlit("math.root_float");
            assert(builtin_id(21) == NodeTypeId::ROOT@);
            assert(NodeTypeId::MULTIPLY@.len() != NodeTypeId::ROOT@.len());
        } else if j == 22 {
            reveal_strlit("math.exponential_float");
            assert(builtin_id(22) == NodeTypeId::EXPONENTIAL@);
            assert(NodeTypeId::MULTIPLY@.len() != NodeTypeId::EXPONENTIAL@.len());
        } else if j == 23 {
            reveal_strlit("math.log_float");
            assert(builtin_id(23) == NodeTypeId::LOG@);
            assert(NodeTypeId::MULTIPLY@.len() != NodeTypeId::LOG@.len());
        } else if j == 24 {
            reveal_strlit("math.map_range_float");
            assert(builtin_id(24) == NodeTypeId::MAP_RANGE@);
            assert(NodeTypeId::MULTIPLY@.len() != NodeTypeId::MAP_RANGE@.len());
        } else if j == 25 {
            reveal_strlit("math.round_float");
            assert(builtin_id(25) == NodeTypeId::ROUND@);
            assert(NodeTypeId::MULTIPLY@.len() != NodeTypeId::ROUND@.len());
        } else if j == 26 {
            reveal_strlit("math.scale_tensor");
            assert(builtin_id(26) == NodeTypeId::SCALE_TENSOR@);
            assert(NodeTypeId::MULTIPLY@.len() != NodeTypeId::SCALE_TENSOR@.len());
        } else if j == 27 {
            reveal_strlit("frame_operations.scale");
            assert(builtin_id(27) == NodeTypeId::SCALE_COLOR@);
            assert(NodeTypeId::MULTIPLY@.len() != NodeTypeId::SCALE_COLOR@.len());
        } else if j == 28 {
            reveal_strlit("frame_operations.multiply");
            assert(builtin_id(28) == NodeTypeId::MULTIPLY_COLOR@);
            assert(NodeTypeId::MULTIPLY@.len() != NodeTypeId::MULTIPLY_COLOR@.len());
        } else if j == 29 {
            reveal_strlit("frame_operations.tint_frame");
            assert(builtin_id(29) == NodeTypeId::TINT_FRAME@);
            assert(NodeTypeId::MULTIPLY@.len() != NodeTypeId::TINT_FRAME@.len());
        } else if j == 30 {
            reveal_strlit("frame_operations.extract_channels");
            assert(builtin_id(30) == NodeTypeId::EXTRACT_CHANNELS@);
            assert(NodeTypeId::MULTIPLY@.len() != NodeTypeId::EXTRACT_CHANNELS@.len());
        } else if j == 31 {
            reveal_strlit("frame_operations.set_channel");
            assert(builtin_id(31) == NodeTypeId::SET_CHANNEL@);
            assert(NodeTypeId::MULTIPLY@.len() != NodeTypeId::SET_CHANNEL@.len());
        } else if j == 32 {
            reveal_strlit("frame_operations.colorize");
            assert(builtin_id(32) == NodeTypeId::COLORIZE@);
            assert(NodeTypeId::MULTIPLY@.len() != NodeTypeId::COLORIZE@.len());
        } else if j == 33 {
            reveal_strlit("frame_operations.mask_frame");
            assert(builtin_id(33) == NodeTypeId::MASK_FRAME@);
            assert(NodeTypeId::MULTIPLY@.len() != NodeTypeId::MASK_FRAME@.len());
        } else if j == 34 {
            reveal_strlit("frame_operations.mix");
            assert(builtin_id(34) == NodeTypeId::MIX_COLOR@);
            assert(NodeTypeId::MULTIPLY@.len() != NodeTypeId::MIX_COLOR@.len());
        } else if j == 35 {
            reveal_strlit("frame_operations.alpha_over");
            assert(builtin_id(35) == NodeTypeId::ALPHA_OVER@);
            assert(NodeTypeId::MULTIPLY@.len() != NodeTypeId::ALPHA_OVER@.len());
        } else if j == 36 {
            reveal_strlit("temporal_filters.fade");
            assert(builtin_id(36) == NodeTypeId::FADE@);
            assert(NodeTypeId::MULTIPLY@.len() != NodeTypeId::FADE@.len());
        } else if j == 37 {
            reveal_strlit("temporal_filters.integrate");
            assert(builtin_id(37) == NodeTypeId::INTEGRATE@);
            assert(NodeTypeId::MULTIPLY@.len() != NodeTypeId::INTEGRATE@.len());
        } else if j == 38 {
            reveal_strlit("temporal_filters.moving_average");
            assert(builtin_id(38) == NodeTypeId::MOVING_AVERAGE@);
            assert(NodeTypeId::MULTIPLY@.len() != NodeTypeId::MOVING_AVERAGE@.len());
        } else if j == 39 {
            reveal_strlit("temporal_filters.moving_median");
            assert(builtin_id(39) == NodeTypeId::MOVING_MEDIAN@);
            assert(NodeTypeId::MULTIPLY@.len() != NodeTypeId::MOVING_MEDIAN@.len());
        } else if j == 40 {
            reveal_strlit("spatial_filters.box_blur");
            assert(builtin_id(40) == NodeTypeId::BOX_BLUR@);
            assert(NodeTypeId::MULTIPLY@.len() != NodeTypeId::BOX_BLUR@.len());
        } else if j == 41 {
            reveal_strlit("spatial_filters.gaussian_blur");
            assert(builtin_id(41) == NodeTypeId::GAUSSIAN_BLUR@);
            assert(NodeTypeId::MULTIPLY@.len() != NodeTypeId::GAUSSIAN_BLUR@.len());
        } else if j == 42 {
            reveal_strlit("spatial_filters.median_filter");
            assert(builtin_id(42) == NodeTypeId::MEDIAN_FILTER@);
            assert(NodeTypeId::MULTIPLY@.len() != NodeTypeId::MEDIAN_FILTER@.len());
        } else if j == 43 {
            reveal_strlit("spatial_filters.laplacian_filter");
            assert(builtin_id(43) == NodeTypeId::LAPLACIAN_FILTER@);
            assert(NodeTypeId::MULTIPLY@.len() != NodeTypeId::LAPLACIAN_FILTER@.len());
        } else if j == 44 {
            reveal_strlit("generators.spectrum_analyzer");
            assert(builtin_id(44) == NodeTypeId::SPECTRUM_ANALYZER@);
            assert(NodeTypeId::MULTIPLY@.len() != NodeTypeId::SPECTRUM_ANALYZER@.len());
        } else if j == 45 {
            reveal_strlit("generators.solid_frame");
            assert(builtin_id(45) == NodeTypeId::SOLID_FRAME@);
            assert(NodeTypeId::MULTIPLY@.len() != NodeTypeId::SOLID_FRAME@.len());
        } else if j == 46 {
            reveal_strlit("generators.rainbow_sweep");
            assert(builtin_id(46) == NodeTypeId::RAINBOW_SWEEP@);
            assert(NodeTypeId::MULTIPLY@.len() != NodeTypeId::RAINBOW_SWEEP@.len());
        } else if j == 47 {
            reveal_strlit("generators.circle_sweep");
            assert(builtin_id(47) == NodeTypeId::CIRCLE_SWEEP@);
            assert(NodeTypeId::MULTIPLY@.len() != NodeTypeId::CIRCLE_SWEEP@.len());
        } else if j == 48 {
            reveal_strlit("generators.level_bar");
            assert(builtin_id(48) == NodeTypeId::LEVEL_BAR@);
            assert(NodeTypeId::MULTIPLY@.len() != NodeTypeId::LEVEL_BAR@.len());
        } else if j == 49 {
            reveal_strlit("generators.twinkle_stars");
            assert(builtin_id(49) == NodeTypeId::TWINKLE_STARS@);
            assert(NodeTypeId::MULTIPLY@.len() != NodeTypeId::TWINKLE_STARS@.len());
        } else if j == 50 {
            reveal_strlit("generators.plasma");
            assert(builtin_id(50) == NodeTypeId::PLASMA@);
            assert(NodeTypeId::MULTIPLY@.len() != NodeTypeId::PLASMA@.len());
        } else if j == 51 {
            reveal_strlit("generators.bouncing_balls");
            assert(builtin_id(51) == NodeTypeId::BOUNCING_BALLS@);
            assert(NodeTypeId::MULTIPLY@.len() != NodeTypeId::BOUNCING_BALLS@.len());
        } else if j == 52 {
            reveal_strlit("debug.wled_dummy_display");
            assert(builtin_id(52) == NodeTypeId::WLED_DUMMY_DISPLAY@);
            assert(NodeTypeId::MULTIPLY@.len() != NodeTypeId::WLED_DUMMY_DISPLAY@.len());
        } else if j == 53 {
            reveal_strlit("debug.type_debug");
            assert(builtin_id(53) == NodeTypeId::TYPE_DEBUG@);
            assert(NodeTypeId::MULTIPLY@.len() != NodeTypeId::TYPE_DEBUG@.len());
        } else if j == 54 {
            reveal_strlit("frame_operations.frame_brightness");
            assert(builtin_id(54) == NodeTypeId::FRAME_BRIGHTNESS@);
            assert(NodeTypeId::MULTIPLY@.len() != NodeTypeId::FRAME_BRIGHTNESS@.len());
        }
    }
}

proof fn lemma_catalog_id_18_distinct()
    ensures
        forall|j: int| 18 < j < BUILTIN_NODE_COUNT ==> builtin_id(18) != #[trigger] builtin_id(j),
{
    reveal_strlit("math.abs_float");
    assert(builtin_id(18) == NodeTypeId::ABS@);
    assert forall|j: int| 18 < j < BUILTIN_NODE_COUNT implies builtin_id(18) != #[trigger] builtin_id(j) by {
        if j == 19 {
            reveal_strlit("math.clamp_float");
            assert(builtin_id(19) == NodeTypeId::CLAMP@);
            assert(NodeTypeId::ABS@.len() != NodeTypeId::CLAMP@.len());
        } else if j == 20 {
            reveal_strlit("math.power_float");
            assert(builtin_id(20) == NodeTypeId::POWER@);
            assert(NodeTypeId::ABS@.len() != NodeTypeId::POWER@.len());
        } else if j == 21 {
            reveal_strlit("math.root_float");
            assert(builtin_id(21) == NodeTypeId::ROOT@);
            assert(NodeTypeId::ABS@.len() != NodeTypeId::ROOT@.len());
        } else if j == 22 {
            reveal_strlit("math.exponential_float");
            assert(builtin_id(22) == NodeTypeId::EXPONENTIAL@);
            assert(NodeTypeId::ABS@.len() != NodeTypeId::EXPONENTIAL@.len());
        } else if j == 23 {
            reveal_strlit("math.log_float");
            assert(builtin_id(23) == NodeTypeId::LOG@);
            assert(NodeTypeId::ABS@[5] != NodeTypeId::LOG@[5]);
        } else if j == 24 {
            reveal_strlit("math.map_range_float");
            assert(builtin_id(24) == NodeTypeId::MAP_RANGE@);
            assert(NodeTypeId::ABS@.len() != NodeTypeId::MAP_RANGE@.len());
        } else if j == 25 {
            reveal_strlit("math.round_float");
            assert(builtin_id(25) == NodeTypeId::ROUND@);
            assert(NodeTypeId::ABS@.len() != NodeTypeId::ROUND@.len());
        } else if j == 26 {
            reveal_strlit("math.scale_tensor");
            assert(builtin_id(26) == NodeTypeId::SCALE_TENSOR@);
            assert(NodeTypeId::ABS@.len() != NodeTypeId::SCALE_TENSOR@.len());
        } else if j == 27 {
            reveal_strlit("frame_operations.scale");
            assert(builtin_id(27) == NodeTypeId::SCALE_COLOR@);
            assert(NodeTypeId::ABS@.len() != NodeTypeId::SCALE_COLOR@.len());
        } else if j == 28 {
            reveal_strlit("frame_operations.multiply");
            assert(builtin_id(28) == NodeTypeId::MULTIPLY_COLOR@);
            assert(NodeTypeId::ABS@.len() != NodeTypeId::MULTIPLY_COLOR@.len());
        } else if j == 29 {
            reveal_strlit("frame_operations.tint_frame");
            assert(builtin_id(29) == NodeTypeId::TINT_FRAME@);
            assert(NodeTypeId::ABS@.len() != NodeTypeId::TINT_FRAME@.len());
        } else if j == 30 {
            reveal_strlit("frame_operations.extract_channels");
            assert(builtin_id(30) == NodeTypeId::EXTRACT_CHANNELS@);
            assert(NodeTypeId::ABS@.len() != NodeTypeId::EXTRACT_CHANNELS@.len());
        } else if j == 31 {
            reveal_strlit("frame_operations.set_channel");
            assert(builtin_id(31) == NodeTypeId::SET_CHANNEL@);
            assert(NodeTypeId::ABS@.len() != NodeTypeId::SET_CHANNEL@.len());
        } else if j == 32 {
            reveal_strlit("frame_operations.colorize");
            assert(builtin_id(32) == NodeTypeId::COLORIZE@);
            assert(NodeTypeId::ABS@.len() != NodeTypeId::COLORIZE@.len());
        } else if j == 33 {
            reveal_strlit("frame_operations.mask_frame");
            assert(builtin_id(33) == NodeTypeId::MASK_FRAME@);
            assert(NodeTypeId::ABS@.len() != NodeTypeId::MASK_FRAME@.len());
        } else if j == 34 {
            reveal_strlit("frame_operations.mix");
            assert(builtin_id(34) == NodeTypeId::MIX_COLOR@);
            assert(NodeTypeId::ABS@.len() != NodeTypeId::MIX_COLOR@.len());
        } else if j == 35 {
            reveal_strlit("frame_operations.alpha_over");
            assert(builtin_id(35) == NodeTypeId::ALPHA_OVER@);
            assert(NodeTypeId::ABS@.len() != NodeTypeId::ALPHA_OVER@.len());
        } else if j == 36 {
            reveal_strlit("temporal_filters.fade");
            assert(builtin_id(36) == NodeTypeId::FADE@);
            assert(NodeTypeId::ABS@.len() != NodeTypeId::FADE@.len());
        } else if j == 37 {
            reveal_strlit("temporal_filters.integrate");
            assert(builtin_id(37) == NodeTypeId::INTEGRATE@);
            assert(NodeTypeId::ABS@.len() != NodeTypeId::INTEGRATE@.len());
        } else if j == 38 {
            reveal_strlit("temporal_filters.moving_average");
            assert(builtin_id(38) == NodeTypeId::MOVING_AVERAGE@);
            assert(NodeTypeId::ABS@.len() != NodeTypeId::MOVING_AVERAGE@.len());
        } else if j == 39 {
            reveal_strlit("temporal_filters.moving_median");
            assert(builtin_id(39) == NodeTypeId::MOVING_MEDIAN@);
            assert(NodeTypeId::ABS@.len() != NodeTypeId::MOVING_MEDIAN@.len());
        } else if j == 40 {
            reveal_strlit("spatial_filters.box_blur");
            assert(builtin_id(40) == NodeTypeId::BOX_BLUR@);
            assert(NodeTypeId::ABS@.len() != NodeTypeId::BOX_BLUR@.len());
        } else if j == 41 {
            reveal_strlit("spatial_filters.gaussian_blur");
            assert(builtin_id(41) == NodeTypeId::GAUSSIAN_BLUR@);
            assert(NodeTypeId::ABS@.len() != NodeTypeId::GAUSSIAN_BLUR@.len());
        } else if j == 42 {
            reveal_strlit("spatial_filters.median_filter");
            assert(builtin_id(42) == NodeTypeId::MEDIAN_FILTER@);
            assert(NodeTypeId::ABS@.len() != NodeTypeId::MEDIAN_FILTER@.len());
        } else if j == 43 {
            reveal_strlit("spatial_filters.laplacian_filter");
            assert(builtin_id(43) == NodeTypeId::LAPLACIAN_FILTER@);
            assert(NodeTypeId::ABS@.len() != NodeTypeId::LAPLACIAN_FILTER@.len());
        } else if j == 44 {
            reveal_strlit("generators.spectrum_analyzer");
            assert(builtin_id(44) == NodeTypeId::SPECTRUM_ANALYZER@);
            assert(NodeTypeId::ABS@.len() != NodeTypeId::SPECTRUM_ANALYZER@.len());
        } else if j == 45 {
            reveal_strlit("generators.solid_frame");
            assert(builtin_id(45) == NodeTypeId::SOLID_FRAME@);
            assert(NodeTypeId::ABS@.len() != NodeTypeId::SOLID_FRAME@.len());
        } else if j == 46 {
            reveal_strlit("generators.rainbow_sweep");
            assert(builtin_id(46) == NodeTypeId::RAINBOW_SWEEP@);
            assert(NodeTypeId::ABS@.len() != NodeTypeId::RAINBOW_SWEEP@.len());
        } else if j == 47 {
            reveal_strlit("generators.circle_sweep");
            assert(builtin_id(47) == NodeTypeId::CIRCLE_SWEEP@);
            assert(NodeTypeId::ABS@.len() != NodeTypeId::CIRCLE_SWEEP@.len());
        } else if j == 48 {
            reveal_strlit("generators.level_bar");
            assert(builtin_id(48) == NodeTypeId::LEVEL_BAR@);
            assert(NodeTypeId::ABS@.len() != NodeTypeId::LEVEL_BAR@.len());
        } else if j == 49 {
            reveal_strlit("generators.twinkle_stars");
            assert(builtin_id(49) == NodeTypeId::TWINKLE_STARS@);
            assert(NodeTypeId::ABS@.len() != NodeTypeId::TWINKLE_STARS@.len());
        } else if j == 50 {
            reveal_strlit("generators.plasma");
            assert(builtin_id(50) == NodeTypeId::PLASMA@);
            assert(NodeTypeId::ABS@.len() != NodeTypeId::PLASMA@.len());
        } else if j == 51 {
            reveal_strlit("generators.bouncing_balls");
            assert(builtin_id(51) == NodeTypeId::BOUNCING_BALLS@);
            assert(NodeTypeId::ABS@.len() != NodeTypeId::BOUNCING_BALLS@.len());
        } else if j == 52 {
            reveal_strlit("debug.wled_dummy_display");
            assert(builtin_id(52) == NodeTypeId::WLED_DUMMY_DISPLAY@);
            assert(NodeTypeId::ABS@.len() != NodeTypeId::WLED_DUMMY_DISPLAY@.len());
        } else if j == 53 {
            reveal_strlit("debug.type_debug");
            assert(builtin_id(53) == NodeTypeId::TYPE_DEBUG@);
            assert(NodeTypeId::ABS@.len() != NodeTypeId::TYPE_DEBUG@.len());
        } else if j == 54 {
            reveal_strlit("frame_operations.frame_brightness");
            assert(builtin_id(54) == NodeTypeId::FRAME_BRIGHTNESS@);
            assert(NodeTypeId::ABS@.len() != NodeTypeId::FRAME_BRIGHTNESS@.len());
        }
    }
}

proof fn lemma_catalog_id_19_distinct()
    ensures
        forall|j: int| 19 < j < BUILTIN_NODE_COUNT ==> builtin_id(19) != #[trigger] builtin_id(j),
{
    reveal_strlit("math.clamp_float");
    assert(builtin_id(19) == NodeTypeId::CLAMP@);
    assert forall|j: int| 19 < j < BUILTIN_NODE_COUNT implies builtin_id(19) != #[trigger] builtin_id(j) by {
        if j == 20 {
            reveal_strlit("math.power_float");
            assert(builtin_id(20) == NodeTypeId::POWER@);
            assert(NodeTypeId::CLAMP@[5] != NodeTypeId::POWER@[5]);
        } else if j == 21 {
            reveal_strlit("math.root_float");
            assert(builtin_id(21) == NodeTypeId::ROOT@);
            assert(NodeTypeId::CLAMP@.len() != NodeTypeId::ROOT@.len());
        } else if j == 22 {
            reveal_strlit("math.exponential_float");
            assert(builtin_id(22) == NodeTypeId::EXPONENTIAL@);
            assert(NodeTypeId::CLAMP@.len() != NodeTypeId::EXPONENTIAL@.len());
        } else if j == 23 {
            reveal_strlit("math.log_float");
            assert(builtin_id(23) == NodeTypeId::LOG@);
            assert(NodeTypeId::CLAMP@.len() != NodeTypeId::LOG@.len());
        } else if j == 24 {
            reveal_strlit("math.map_range_float");
            assert(builtin_id(24) == NodeTypeId::MAP_RANGE@);
            assert(NodeTypeId::CLAMP@.len() != NodeTypeId::MAP_RANGE@.len());
        } else if j == 25 {
            reveal_strlit("math.round_float");
            assert(builtin_id(25) == NodeTypeId::ROUND@);
            assert(NodeTypeId::CLAMP@[5] != NodeTypeId::ROUND@[5]);
        } else if j == 26 {
            reveal_strlit("math.scale_tensor");
            assert(builtin_id(26) == NodeTypeId::SCALE_TENSOR@);
            assert(NodeTypeId::CLAMP@.len() != NodeTypeId::SCALE_TENSOR@.len());
        } else if j == 27 {
            reveal_strlit("frame_operations.scale");
            assert(builtin_id(27) == NodeTypeId::SCALE_COLOR@);
            assert(NodeTypeId::CLAMP@.len() != NodeTypeId::SCALE_COLOR@.len());
        } else if j == 28 {
            reveal_strlit("frame_operations.multiply");
            assert(builtin_id(28) == NodeTypeId::MULTIPLY_COLOR@);
            assert(NodeTypeId::CLAMP@.len() != NodeTypeId::MULTIPLY_COLOR@.len());
        } else if j == 29 {
            reveal_strlit("frame_operations.tint_frame");
            assert(builtin_id(29) == NodeTypeId::TINT_FRAME@);
            assert(NodeTypeId::CLAMP@.len() != NodeTypeId::TINT_FRAME@.len());
        } else if j == 30 {
            reveal_strlit("frame_operations.extract_channels");
            assert(builtin_id(30) == NodeTypeId::EXTRACT_CHANNELS@);
            assert(NodeTypeId::CLAMP@.len() != NodeTypeId::EXTRACT_CHANNELS@.len());
        } else if j == 31 {
            reveal_strlit("frame_operations.set_channel");
            assert(builtin_id(31) == NodeTypeId::SET_CHANNEL@);
            assert(NodeTypeId::CLAMP@.len() != NodeTypeId::SET_CHANNEL@.len());
        } else if j == 32 {
            reveal_strlit("frame_operations.colorize");
            assert(builtin_id(32) == NodeTypeId::COLORIZE@);
            assert(NodeTypeId::CLAMP@.len() != NodeTypeId::COLORIZE@.len());
        } else if j == 33 {
            reveal_strlit("frame_operations.mask_frame");
            assert(builtin_id(33) == NodeTypeId::MASK_FRAME@);
            assert(NodeTypeId::CLAMP@.len() != NodeTypeId::MASK_FRAME@.len());
        } else if j == 34 {
            reveal_strlit("frame_operations.mix");
            assert(builtin_id(34) == NodeTypeId::MIX_COLOR@);
            assert(NodeTypeId::CLAMP@.len() != NodeTypeId::MIX_COLOR@.len());
        } else if j == 35 {
            reveal_strlit("frame_operations.alpha_over");
            assert(builtin_id(35) == NodeTypeId::ALPHA_OVER@);
            assert(NodeTypeId::CLAMP@.len() != NodeTypeId::ALPHA_OVER@.len());
        } else if j == 36 {
            reveal_strlit("temporal_filters.fade");
            assert(builtin_id(36) == NodeTypeId::FADE@);
            assert(NodeTypeId::CLAMP@.len() != NodeTypeId::FADE@.len());
        } else if j == 37 {
            reveal_strlit("temporal_filters.integrate");
            assert(builtin_id(37) == NodeTypeId::INTEGRATE@);
            assert(NodeTypeId::CLAMP@.len() != NodeTypeId::INTEGRATE@.len());
        } else if j == 38 {
            reveal_strlit("temporal_filters.moving_average");
            assert(builtin_id(38) == NodeTypeId::MOVING_AVERAGE@);
            assert(NodeTypeId::CLAMP@.len() != NodeTypeId::MOVING_AVERAGE@.len());
        } else if j == 39 {
            reveal_strlit("temporal_filters.moving_median");
            assert(builtin_id(39) == NodeTypeId::MOVING_MEDIAN@);
            assert(NodeTypeId::CLAMP@.len() != NodeTypeId::MOVING_MEDIAN@.len());
        } else if j == 40 {
            reveal_strlit("spatial_filters.box_blur");
            assert(builtin_id(40) == NodeTypeId::BOX_BLUR@);
            assert(NodeTypeId::CLAMP@.len() != NodeTypeId::BOX_BLUR@.len());
        } else if j == 41 {
            reveal_strlit("spatial_filters.gaussian_blur");
            assert(builtin_id(41) == NodeTypeId::GAUSSIAN_BLUR@);
            assert(NodeTypeId::CLAMP@.len() != NodeTypeId::GAUSSIAN_BLUR@.len());
        } else if j == 42 {
            reveal_strlit("spatial_filters.median_filter");
            assert(builtin_id(42) == NodeTypeId::MEDIAN_FILTER@);
            assert(NodeTypeId::CLAMP@.len() != NodeTypeId::MEDIAN_FILTER@.len());
        } else if j == 43 {
            reveal_strlit("spatial_filters.laplacian_filter");
            assert(builtin_id(43) == NodeTypeId::LAPLACIAN_FILTER@);
            assert(NodeTypeId::CLAMP@.len() != NodeTypeId::LAPLACIAN_FILTER@.len());
        } else if j == 44 {
            reveal_strlit("generators.spectrum_analyzer");
            assert(builtin_id(44) == NodeTypeId::SPECTRUM_ANALYZER@);
            assert(NodeTypeId::CLAMP@.len() != NodeTypeId::SPECTRUM_ANALYZER@.len());
        } else if j == 45 {
            reveal_strlit("generators.solid_frame");
            assert(builtin_id(45) == NodeTypeId::SOLID_FRAME@);
            assert(NodeTypeId::CLAMP@.len() != NodeTypeId::SOLID_FRAME@.len());
        } else if j == 46 {
            reveal_strlit("generators.rainbow_sweep");
            assert(builtin_id(46) == NodeTypeId::RAINBOW_SWEEP@);
            assert(NodeTypeId::CLAMP@.len() != NodeTypeId::RAINBOW_SWEEP@.len());
        } else if j == 47 {
            reveal_strlit("generators.circle_sweep");
            assert(builtin_id(47) == NodeTypeId::CIRCLE_SWEEP@);
            assert(NodeTypeId::CLAMP@.len() != NodeTypeId::CIRCLE_SWEEP@.len());
        } else if j == 48 {
            reveal_strlit("generators.level_bar");
            assert(builtin_id(48) == NodeTypeId::LEVEL_BAR@);
            assert(NodeTypeId::CLAMP@.len() != NodeTypeId::LEVEL_BAR@.len());
        } else if j == 49 {
            reveal_strlit("generators.twinkle_stars");
            assert(builtin_id(49) == NodeTypeId::TWINKLE_STARS@);
            assert(NodeTypeId::CLAMP@.len() != NodeTypeId::TWINKLE_STARS@.len());
        } else if j == 50 {
            reveal_strlit("generators.plasma");
            assert(builtin_id(50) == NodeTypeId::PLASMA@);
            assert(NodeTypeId::CLAMP@.len() != NodeTypeId::PLASMA@.len());
        } else if j == 51 {
            reveal_strlit("generators.bouncing_balls");
            assert(builtin_id(51) == NodeTypeId::BOUNCING_BALLS@);
            assert(NodeTypeId::CLAMP@.len() != NodeTypeId::BOUNCING_BALLS@.len());
        } else if j == 52 {
            reveal_strlit("debug.wled_dummy_display");
            assert(builtin_id(52) == NodeTypeId::WLED_DUMMY_DISPLAY@);
            assert(NodeTypeId::CLAMP@.len() != NodeTypeId::WLED_DUMMY_DISPLAY@.len());
        } else if j == 53 {
            reveal_strlit("debug.type_debug");
            assert(builtin_id(53) == NodeTypeId::TYPE_DEBUG@);
            assert(NodeTypeId::CLAMP@[0] != NodeTypeId::TYPE_DEBUG@[0]);
        } else if j == 54 {
            reveal_strlit("frame_operations.frame_brightness");
            assert(builtin_id(54) == NodeTypeId::FRAME_BRIGHTNESS@);
            assert(NodeTypeId::CLAMP@.len() != NodeTypeId::FRAME_BRIGHTNESS@.len());
        }
    }
}

proof fn lemma_catalog_id_20_distinct()
    ensures
        forall|j: int| 20 < j < BUILTIN_NODE_COUNT ==> builtin_id(20) != #[trigger] builtin_id(j),
{
    reveal_strlit("math.power_float");
    assert(builtin_id(20) == NodeTypeId::POWER@);
    assert forall|j: int| 20 < j < BUILTIN_NODE_COUNT implies builtin_id(20) != #[trigger] builtin_id(j) by {
        if j == 21 {
            reveal_strlit("math.root_float");
            assert(builtin_id(21) == NodeTypeId::ROOT@);
            assert(NodeTypeId::POWER@.len() != NodeTypeId::ROOT@.len());
        } else if j == 22 {
            reveal_strlit("math.exponential_float");
            assert(builtin_id(22) == NodeTypeId::EXPONENTIAL@);
            assert(NodeTypeId::POWER@.len() != NodeTypeId::EXPONENTIAL@.len());
        } else if j == 23 {
            reveal_strlit("math.log_float");
            assert(builtin_id(23) == NodeTypeId::LOG@);
            assert(NodeTypeId::POWER@.len() != NodeTypeId::LOG@.len());
        } else if j == 24 {
            reveal_strlit("math.map_range_float");
            assert(builtin_id(24) == NodeTypeId::MAP_RANGE@);
            assert(NodeTypeId::POWER@.len() != NodeTypeId::MAP_RANGE@.len());
        } else if j == 25 {
            reveal_strlit("math.round_float");
            assert(builtin_id(25) == NodeTypeId::ROUND@);
            assert(NodeTypeId::POWER@[5] != NodeTypeId::ROUND@[5]);
        } else if j == 26 {
            reveal_strlit("math.scale_tensor");
            assert(builtin_id(26) == NodeTypeId::SCALE_TENSOR@);
            assert(NodeTypeId::POWER@.len() != NodeTypeId::SCALE_TENSOR@.len());
        } else if j == 27 {
            reveal_strlit("frame_operations.scale");
            assert(builtin_id(27) == NodeTypeId::SCALE_COLOR@);
            assert(NodeTypeId::POWER@.len() != NodeTypeId::SCALE_COLOR@.len());
        } else if j == 28 {
            reveal_strlit("frame_operations.multiply");
            assert(builtin_id(28) == NodeTypeId::MULTIPLY_COLOR@);
            assert(NodeTypeId::POWER@.len() != NodeTypeId::MULTIPLY_COLOR@.len());
        } else if j == 29 {
            reveal_strlit("frame_operations.tint_frame");
            assert(builtin_id(29) == NodeTypeId::TINT_FRAME@);
            assert(NodeTypeId::POWER@.len() != NodeTypeId::TINT_FRAME@.len());
        } else if j == 30 {
            reveal_strlit("frame_operations.extract_channels");
            assert(builtin_id(30) == NodeTypeId::EXTRACT_CHANNELS@);
            assert(NodeTypeId::POWER@.len() != NodeTypeId::EXTRACT_CHANNELS@.len());
        } else if j == 31 {
            reveal_strlit("frame_operations.set_channel");
            assert(builtin_id(31) == NodeTypeId::SET_CHANNEL@);
            assert(NodeTypeId::POWER@.len() != NodeTypeId::SET_CHANNEL@.len());
        } else if j == 32 {
            reveal_strlit("frame_operations.colorize");
            assert(builtin_id(32) == NodeTypeId::COLORIZE@);
            assert(NodeTypeId::POWER@.len() != NodeTypeId::COLORIZE@.len());
        } else if j == 33 {
            reveal_strlit("frame_operations.mask_frame");
            assert(builtin_id(33) == NodeTypeId::MASK_FRAME@);
            assert(NodeTypeId::POWER@.len() != NodeTypeId::MASK_FRAME@.len());
        } else if j == 34 {
            reveal_strlit("frame_operations.mix");
            assert(builtin_id(34) == NodeTypeId::MIX_COLOR@);
            assert(NodeTypeId::POWER@.len() != NodeTypeId::MIX_COLOR@.len());
        } else if j == 35 {
            reveal_strlit("frame_operations.alpha_over");
            assert(builtin_id(35) == NodeTypeId::ALPHA_OVER@);
            assert(NodeTypeId::POWER@.len() != NodeTypeId::ALPHA_OVER@.len());
        } else if j == 36 {
            reveal_strlit("temporal_filters.fade");
            assert(builtin_id(36) == NodeTypeId::FADE@);
            assert(NodeTypeId::POWER@.len() != NodeTypeId::FADE@.len());
        } else if j == 37 {
            reveal_strlit("temporal_filters.integrate");
            assert(builtin_id(37) == NodeTypeId::INTEGRATE@);
            assert(NodeTypeId::POWER@.len() != NodeTypeId::INTEGRATE@.len());
        } else if j == 38 {
            reveal_strlit("temporal_filters.moving_average");
            assert(builtin_id(38) == NodeTypeId::MOVING_AVERAGE@);
            assert(NodeTypeId::POWER@.len() != NodeTypeId::MOVING_AVERAGE@.len());
        } else if j == 39 {
            reveal_strlit("temporal_filters.moving_median");
            assert(builtin_id(39) == NodeTypeId::MOVING_MEDIAN@);
            assert(NodeTypeId::POWER@.len() != NodeTypeId::MOVING_MEDIAN@.len());
        } else if j == 40 {
            reveal_strlit("spatial_filters.box_blur");
            assert(builtin_id(40) == NodeTypeId::BOX_BLUR@);
            assert(NodeTypeId::POWER@.len() != NodeTypeId::BOX_BLUR@.len());
        } else if j == 41 {
            reveal_strlit("spatial_filters.gaussian_blur");
            assert(builtin_id(41) == NodeTypeId::GAUSSIAN_BLUR@);
            assert(NodeTypeId::POWER@.len() != NodeTypeId::GAUSSIAN_BLUR@.len());
        } else if j == 42 {
            reveal_strlit("spatial_filters.median_filter");
            assert(builtin_id(42) == NodeTypeId::MEDIAN_FILTER@);
            assert(NodeTypeId::POWER@.len() != NodeTypeId::MEDIAN_FILTER@.len());
        } else if j == 43 {
            reveal_strlit("spatial_filters.laplacian_filter");
            assert(builtin_id(43) == NodeTypeId::LAPLACIAN_FILTER@);
            assert(NodeTypeId::POWER@.len() != NodeTypeId::LAPLACIAN_FILTER@.len());
        } else if j == 44 {
            reveal_strlit("generators.spectrum_analyzer");
            assert(builtin_id(44) == NodeTypeId::SPECTRUM_ANALYZER@);
            assert(NodeTypeId::POWER@.len() != NodeTypeId::SPECTRUM_ANALYZER@.len());
        } else if j == 45 {
            reveal_strlit("generators.solid_frame");
            assert(builtin_id(45) == NodeTypeId::SOLID_FRAME@);
            assert(NodeTypeId::POWER@.len() != NodeTypeId::SOLID_FRAME@.len());
        } else if j == 46 {
            reveal_strlit("generators.rainbow_sweep");
            assert(builtin_id(46) == NodeTypeId::RAINBOW_SWEEP@);
            assert(NodeTypeId::POWER@.len() != NodeTypeId::RAINBOW_SWEEP@.len());
        } else if j == 47 {
            reveal_strlit("generators.circle_sweep");
            assert(builtin_id(47) == NodeTypeId::CIRCLE_SWEEP@);
            assert(NodeTypeId::POWER@.len() != NodeTypeId::CIRCLE_SWEEP@.len());
        } else if j == 48 {
            reveal_strlit("generators.level_bar");
            assert(builtin_id(48) == NodeTypeId::LEVEL_BAR@);
            assert(NodeTypeId::POWER@.len() != NodeTypeId::LEVEL_BAR@.len());
        } else if j == 49 {
            reveal_strlit("generators.twinkle_stars");
            assert(builtin_id(49) == NodeTypeId::TWINKLE_STARS@);
            assert(NodeTypeId::POWER@.len() != NodeTypeId::TWINKLE_STARS@.len());
        } else if j == 50 {
            reveal_strlit("generators.plasma");
            assert(builtin_id(50) == NodeTypeId::PLASMA@);
            assert(NodeTypeId::POWER@.len() != NodeTypeId::PLASMA@.len());
        } else if j == 51 {
            reveal_strlit("generators.bouncing_balls");
            assert(builtin_id(51) == NodeTypeId::BOUNCING_BALLS@);
            assert(NodeTypeId::POWER@.len() != NodeTypeId::BOUNCING_BALLS@.len());
        } else if j == 52 {
            reveal_strlit("debug.wled_dummy_display");
            assert(builtin_id(52) == NodeTypeId::WLED_DUMMY_DISPLAY@);
            assert(NodeTypeId::POWER@.len() != NodeTypeId::WLED_DUMMY_DISPLAY@.len());
        } else if j == 53 {
            reveal_strlit("debug.type_debug");
            assert(builtin_id(53) == NodeTypeId::TYPE_DEBUG@);
            assert(NodeTypeId::POWER@[0] != NodeTypeId::TYPE_DEBUG@[0]);
        } else if j == 54 {
            reveal_strlit("frame_operations.frame_brightness");
            assert(builtin_id(54) == NodeTypeId::FRAME_BRIGHTNESS@);
            assert(NodeTypeId::POWER@.len() != NodeTypeId::FRAME_BRIGHTNESS@.len());
        }
    }
}

proof fn lemma_catalog_id_21_distinct()
    ensures
        forall|j: int| 21 < j < BUILTIN_NODE_COUNT ==> builtin_id(21) != #[trigger] builtin_id(j),
{
    reveal_strlit("math.root_float");
    assert(builtin_id(21) == NodeTypeId::ROOT@);
    assert forall|j: int| 21 < j < BUILTIN_NODE_COUNT implies builtin_id(21) != #[trigger] builtin_id(j) by {
        if j == 22 {
            reveal_strlit("math.exponential_float");
            assert(builtin_id(22) == NodeTypeId::EXPONENTIAL@);
            assert(NodeTypeId::ROOT@.len() != NodeTypeId::EXPONENTIAL@.len());
        } else if j == 23 {
            reveal_strlit("math.log_float");
            assert(builtin_id(23) == NodeTypeId::LOG@);
            assert(NodeTypeId::ROOT@.len() != NodeTypeId::LOG@.len());
        } else if j == 24 {
            reveal_strlit("math.map_range_float");
            assert(builtin_id(24) == NodeTypeId::MAP_RANGE@);
            assert(NodeTypeId::ROOT@.len() != NodeTypeId::MAP_RANGE@.len());
        } else if j == 25 {
            reveal_strlit("math.round_float");
            assert(builtin_id(25) == NodeTypeId::ROUND@);
            assert(NodeTypeId::ROOT@.len() != NodeTypeId::ROUND@.len());
        } else if j == 26 {
            reveal_strlit("math.scale_tensor");
            assert(builtin_id(26) == NodeTypeId::SCALE_TENSOR@);
            assert(NodeTypeId::ROOT@.len() != NodeTypeId::SCALE_TENSOR@.len());
        } else if j == 27 {
            reveal_strlit("frame_operations.scale");
            assert(builtin_id(27) == NodeTypeId::SCALE_COLOR@);
            assert(NodeTypeId::ROOT@.len() != NodeTypeId::SCALE_COLOR@.len());
        } else if j == 28 {
            reveal_strlit("frame_operations.multiply");
            assert(builtin_id(28) == NodeTypeId::MULTIPLY_COLOR@);
            assert(NodeTypeId::ROOT@.len() != NodeTypeId::MULTIPLY_COLOR@.len());
        } else if j == 29 {
            reveal_strlit("frame_operations.tint_frame");
            assert(builtin_id(29) == NodeTypeId::TINT_FRAME@);
            assert(NodeTypeId::ROOT@.len() != NodeTypeId::TINT_FRAME@.len());
        } else if j == 30 {
            reveal_strlit("frame_operations.extract_channels");
            assert(builtin_id(30) == NodeTypeId::EXTRACT_CHANNELS@);
            assert(NodeTypeId::ROOT@.len() != NodeTypeId::EXTRACT_CHANNELS@.len());
        } else if j == 31 {
            reveal_strlit("frame_operations.set_channel");
            assert(builtin_id(31) == NodeTypeId::SET_CHANNEL@);
            assert(NodeTypeId::ROOT@.len() != NodeTypeId::SET_CHANNEL@.len());
        } else if j == 32 {
            reveal_strlit("frame_operations.colorize");
            assert(builtin_id(32) == NodeTypeId::COLORIZE@);
            assert(NodeTypeId::ROOT@.len() != NodeTypeId::COLORIZE@.len());
        } else if j == 33 {
            reveal_strlit("frame_operations.mask_frame");
            assert(builtin_id(33) == NodeTypeId::MASK_FRAME@);
            assert(NodeTypeId::ROOT@.len() != NodeTypeId::MASK_FRAME@.len());
        } else if j == 34 {
            reveal_strlit("frame_operations.mix");
            assert(builtin_id(34) == NodeTypeId::MIX_COLOR@);
            assert(NodeTypeId::ROOT@.len() != NodeTypeId::MIX_COLOR@.len());
        } else if j == 35 {
            reveal_strlit("frame_operations.alpha_over");
            assert(builtin_id(35) == NodeTypeId::ALPHA_OVER@);
            assert(NodeTypeId::ROOT@.len() != NodeTypeId::ALPHA_OVER@.len());
        } else if j == 36 {
            reveal_strlit("temporal_filters.fade");
            assert(builtin_id(36) == NodeTypeId::FADE@);
            assert(NodeTypeId::ROOT@.len() != NodeTypeId::FADE@.len());
        } else if j == 37 {
            reveal_strlit("temporal_filters.integrate");
            assert(builtin_id(37) == NodeTypeId::INTEGRATE@);
            assert(NodeTypeId::ROOT@.len() != NodeTypeId::INTEGRATE@.len());
        } else if j == 38 {
            reveal_strlit("temporal_filters.moving_average");
            assert(builtin_id(38) == NodeTypeId::MOVING_AVERAGE@);
            assert(NodeTypeId::ROOT@.len() != NodeTypeId::MOVING_AVERAGE@.len());
        } else if j == 39 {
            reveal_strlit("temporal_filters.moving_median");
            assert(builtin_id(39) == NodeTypeId::MOVING_MEDIAN@);
            assert(NodeTypeId::ROOT@.len() != NodeTypeId::MOVING_MEDIAN@.len());
        } else if j == 40 {
            reveal_strlit("spatial_filters.box_blur");
            assert(builtin_id(40) == NodeTypeId::BOX_BLUR@);
            assert(NodeTypeId::ROOT@.len() != NodeTypeId::BOX_BLUR@.len());
        } else if j == 41 {
            reveal_strlit("spatial_filters.gaussian_blur");
            assert(builtin_id(41) == NodeTypeId::GAUSSIAN_BLUR@);
            assert(NodeTypeId::ROOT@.len() != NodeTypeId::GAUSSIAN_BLUR@.len());
        } else if j == 42 {
            reveal_strlit("spatial_filters.median_filter");
            assert(builtin_id(42) == NodeTypeId::MEDIAN_FILTER@);
            assert(NodeTypeId::ROOT@.len() != NodeTypeId::MEDIAN_FILTER@.len());
        } else if j == 43 {
            reveal_strlit("spatial_filters.laplacian_filter");
            assert(builtin_id(43) == NodeTypeId::LAPLACIAN_FILTER@);
            assert(NodeTypeId::ROOT@.len() != NodeTypeId::LAPLACIAN_FILTER@.len());
        } else if j == 44 {
            reveal_strlit("generators.spectrum_analyzer");
            assert(builtin_id(44) == NodeTypeId::SPECTRUM_ANALYZER@);
            assert(NodeTypeId::ROOT@.len() != NodeTypeId::SPECTRUM_ANALYZER@.len());
        } else if j == 45 {
            reveal_strlit("generators.solid_frame");
            assert(builtin_id(45) == NodeTypeId::SOLID_FRAME@);
            assert(NodeTypeId::ROOT@.len() != NodeTypeId::SOLID_FRAME@.len());
        } else if j == 46 {
            reveal_strlit("generators.rainbow_sweep");
            assert(builtin_id(46) == NodeTypeId::RAINBOW_SWEEP@);
            assert(NodeTypeId::ROOT@.len() != NodeTypeId::RAINBOW_SWEEP@.len());
        } else if j == 47 {
            reveal_strlit("generators.circle_sweep");
            assert(builtin_id(47) == NodeTypeId::CIRCLE_SWEEP@);
            assert(NodeTypeId::ROOT@.len() != NodeTypeId::CIRCLE_SWEEP@.len());
        } else if j == 48 {
            reveal_strlit("generators.level_bar");
            assert(builtin_id(48) == NodeTypeId::LEVEL_BAR@);
            assert(NodeTypeId::ROOT@.len() != NodeTypeId::LEVEL_BAR@.len());
        } else if j == 49 {
            reveal_strlit("generators.twinkle_stars");
            assert(builtin_id(49) == NodeTypeId::TWINKLE_STARS@);
            assert(NodeTypeId::ROOT@.len() != NodeTypeId::TWINKLE_STARS@.len());
        } else if j == 50 {
            reveal_strlit("generators.plasma");
            assert(builtin_id(50) == NodeTypeId::PLASMA@);
            assert(NodeTypeId::ROOT@.len() != NodeTypeId::PLASMA@.len());
        } else if j == 51 {
            reveal_strlit("generators.bouncing_balls");
            assert(builtin_id(51) == NodeTypeId::BOUNCING_BALLS@);
            assert(NodeTypeId::ROOT@.len() != NodeTypeId::BOUNCING_BALLS@.len());
        } else if j == 52 {
            reveal_strlit("debug.wled_dummy_display");
            assert(builtin_id(52) == NodeTypeId::WLED_DUMMY_DISPLAY@);
            assert(NodeTypeId::ROOT@.len() != NodeTypeId::WLED_DUMMY_DISPLAY@.len());
        } else if j == 53 {
            reveal_strlit("debug.type_debug");
            assert(builtin_id(53) == NodeTypeId::TYPE_DEBUG@);
            assert(NodeTypeId::ROOT@.len() != NodeTypeId::TYPE_DEBUG@.len());
        } else if j == 54 {
            reveal_strlit("frame_operations.frame_brightness");
            assert(builtin_id(54) == NodeTypeId::FRAME_BRIGHTNESS@);
            assert(NodeTypeId::ROOT@.len() != NodeTypeId::FRAME_BRIGHTNESS@.len());
        }
    }
}

proof fn lemma_catalog_id_22_distinct()
    ensures
        forall|j: int| 22 < j < BUILTIN_NODE_COUNT ==> builtin_id(22) != #[trigger] builtin_id(j),
{
    reveal_strlit("math.exponential_float");
    assert(builtin_id(22) == NodeTypeId::EXPONENTIAL@);
    assert forall|j: int| 22 < j < BUILTIN_NODE_COUNT implies builtin_id(22) != #[trigger] builtin_id(j) by {
        if j == 23 {
            reveal_strlit("math.log_float");
            assert(builtin_id(23) == NodeTypeId::LOG@);
            assert(NodeTypeId::EXPONENTIAL@.len() != NodeTypeId::LOG@.len());
        } else if j == 24 {
            reveal_strlit("math.map_range_float");
            assert(builtin_id(24) == NodeTypeId::MAP_RANGE@);
            assert(NodeTypeId::EXPONENTIAL@.len() != NodeTypeId::MAP_RANGE@.len());
        } else if j == 25 {
            reveal_strlit("math.round_float");
            assert(builtin_id(25) == NodeTypeId::ROUND@);
            assert(NodeTypeId::EXPONENTIAL@.len() != NodeTypeId::ROUND@.len());
        } else if j == 26 {
            reveal_strlit("math.scale_tensor");
            assert(builtin_id(26) == NodeTypeId::SCALE_TENSOR@);
            assert(NodeTypeId::EXPONENTIAL@.len() != NodeTypeId::SCALE_TENSOR@.len());
        } else if j == 27 {
            reveal_strlit("frame_operations.scale");
            assert(builtin_id(27) == NodeTypeId::SCALE_COLOR@);
            assert(NodeTypeId::EXPONENTIAL@[0] != NodeTypeId::SCALE_COLOR@[0]);
        } else if j == 28 {
            reveal_strlit("frame_operations.multiply");
            assert(builtin_id(28) == NodeTypeId::MULTIPLY_COLOR@);
            assert(NodeTypeId::EXPONENTIAL@.len() != NodeTypeId::MULTIPLY_COLOR@.len());
        } else if j == 29 {
            reveal_strlit("frame_operations.tint_frame");
            assert(builtin_id(29) == NodeTypeId::TINT_FRAME@);
            assert(NodeTypeId::EXPONENTIAL@.len() != NodeTypeId::TINT_FRAME@.len());
        } else if j == 30 {
            reveal_strlit("frame_operations.extract_channels");
            assert(builtin_id(30) == NodeTypeId::EXTRACT_CHANNELS@);
            assert(NodeTypeId::EXPONENTIAL@.len() != NodeTypeId::EXTRACT_CHANNELS@.len());
        } else if j == 31 {
            reveal_strlit("frame_operations.set_channel");
            assert(builtin_id(31) == NodeTypeId::SET_CHANNEL@);
            assert(NodeTypeId::EXPONENTIAL@.len() != NodeTypeId::SET_CHANNEL@.len());
        } else if j == 32 {
            reveal_strlit("frame_operations.colorize");
            assert(builtin_id(32) == NodeTypeId::COLORIZE@);
            assert(NodeTypeId::EXPONENTIAL@.len() != NodeTypeId::COLORIZE@.len());
        } else if j == 33 {
            reveal_strlit("frame_operations.mask_frame");
            assert(builtin_id(33) == NodeTypeId::MASK_FRAME@);
            assert(NodeTypeId::EXPONENTIAL@.len() != NodeTypeId::MASK_FRAME@.len());
        } else if j == 34 {
            reveal_strlit("frame_operations.mix");
            assert(builtin_id(34) == NodeTypeId::MIX_COLOR@);
            assert(NodeTypeId::EXPONENTIAL@.len() != NodeTypeId::MIX_COLOR@.len());
        } else if j == 35 {
            reveal_strlit("frame_operations.alpha_over");
            assert(builtin_id(35) == NodeTypeId::ALPHA_OVER@);
            assert(NodeTypeId::EXPONENTIAL@.len() != NodeTypeId::ALPHA_OVER@.len());
        } else if j == 36 {
            reveal_strlit("temporal_filters.fade");
            assert(builtin_id(36) == NodeTypeId::FADE@);
            assert(NodeTypeId::EXPONENTIAL@.len() != NodeTypeId::FADE@.len());
        } else if j == 37 {
            reveal_strlit("temporal_filters.integrate");
            assert(builtin_id(37) == NodeTypeId::INTEGRATE@);
            assert(NodeTypeId::EXPONENTIAL@.len() != NodeTypeId::INTEGRATE@.len());
        } else if j == 38 {
            reveal_strlit("temporal_filters.moving_average");
            assert(builtin_id(38) == NodeTypeId::MOVING_AVERAGE@);
            assert(NodeTypeId::EXPONENTIAL@.len() != NodeTypeId::MOVING_AVERAGE@.len());
        } else if j == 39 {
            reveal_strlit("temporal_filters.moving_median");
            assert(builtin_id(39) == NodeTypeId::MOVING_MEDIAN@);
            assert(NodeTypeId::EXPONENTIAL@.len() != NodeTypeId::MOVING_MEDIAN@.len());
        } else if j == 40 {
            reveal_strlit("spatial_filters.box_blur");
            assert(builtin_id(40) == NodeTypeId::BOX_BLUR@);
            assert(NodeTypeId::EXPONENTIAL@.len() != NodeTypeId::BOX_BLUR@.len());
        } else if j == 41 {
            reveal_strlit("spatial_filters.gaussian_blur");
            assert(builtin_id(41) == NodeTypeId::GAUSSIAN_BLUR@);
            assert(NodeTypeId::EXPONENTIAL@.len() != NodeTypeId::GAUSSIAN_BLUR@.len());
        } else if j == 42 {
            reveal_strlit("spatial_filters.median_filter");
            assert(builtin_id(42) == NodeTypeId::MEDIAN_FILTER@);
            assert(NodeTypeId::EXPONENTIAL@.len() != NodeTypeId::MEDIAN_FILTER@.len());
        } else if j == 43 {
            reveal_strlit("spatial_filters.laplacian_filter");
            assert(builtin_id(43) == NodeTypeId::LAPLACIAN_FILTER@);
            assert(NodeTypeId::EXPONENTIAL@.len() != NodeTypeId::LAPLACIAN_FILTER@.len());
        } else if j == 44 {
            reveal_strlit("generators.spectrum_analyzer");
            assert(builtin_id(44) == NodeTypeId::SPECTRUM_ANALYZER@);
            assert(NodeTypeId::EXPONENTIAL@.len() != NodeTypeId::SPECTRUM_ANALYZER@.len());
        } else if j == 45 {
            reveal_strlit("generators.solid_frame");
            assert(builtin_id(45) == NodeTypeId::SOLID_FRAME@);
            assert(NodeTypeId::EXPONENTIAL@[0] != NodeTypeId::SOLID_FRAME@[0]);
        } else if j == 46 {
            reveal_strlit("generators.rainbow_sweep");
            assert(builtin_id(46) == NodeTypeId::RAINBOW_SWEEP@);
            assert(NodeTypeId::EXPONENTIAL@.len() != NodeTypeId::RAINBOW_SWEEP@.len());
        } else if j == 47 {
            reveal_strlit("generators.circle_sweep");
            assert(builtin_id(47) == NodeTypeId::CIRCLE_SWEEP@);
            assert(NodeTypeId::EXPONENTIAL@.len() != NodeTypeId::CIRCLE_SWEEP@.len());
        } else if j == 48 {
            reveal_strlit("generators.level_bar");
            assert(builtin_id(48) == NodeTypeId::LEVEL_BAR@);
            assert(NodeTypeId::EXPONENTIAL@.len() != NodeTypeId::LEVEL_BAR@.len());
        } else if j == 49 {
            reveal_strlit("generators.twinkle_stars");
            assert(builtin_id(49) == NodeTypeId::TWINKLE_STARS@);
            assert(NodeTypeId::EXPONENTIAL@.len() != NodeTypeId::TWINKLE_STARS@.len());
        } else if j == 50 {
            reveal_strlit("generators.plasma");
            assert(builtin_id(50) == NodeTypeId::PLASMA@);
            assert(NodeTypeId::EXPONENTIAL@.len() != NodeTypeId::PLASMA@.len());
        } else if j == 51 {
            reveal_strlit("generators.bouncing_balls");
            assert(builtin_id(51) == NodeTypeId::BOUNCING_BALLS@);
            assert(NodeTypeId::EXPONENTIAL@.len() != NodeTypeId::BOUNCING_BALLS@.len());
        } else if j == 52 {
            reveal_strlit("debug.wled_dummy_display");
            assert(builtin_id(52) == NodeTypeId::WLED_DUMMY_DISPLAY@);
            assert(NodeTypeId::EXPONENTIAL@.len() != NodeTypeId::WLED_DUMMY_DISPLAY@.len());
        } else if j == 53 {
            reveal_strlit("debug.type_debug");
            assert(builtin_id(53) == NodeTypeId::TYPE_DEBUG@);
            assert(NodeTypeId::EXPONENTIAL@.len() != NodeTypeId::TYPE_DEBUG@.len());
        } else if j == 54 {
            reveal_strlit("frame_operations.frame_brightness");
            assert(builtin_id(54) == NodeTypeId::FRAME_BRIGHTNESS@);
            assert(NodeTypeId::EXPONENTIAL@.len() != NodeTypeId::FRAME_BRIGHTNESS@.len());
        }
    }
}

proof fn lemma_catalog_id_23_distinct()
    ensures
        forall|j: int| 23 < j < BUILTIN_NODE_COUNT ==> builtin_id(23) != #[trigger] builtin_id(j),
{
    reveal_strlit("math.log_float");
    assert(builtin_id(23) == NodeTypeId::LOG@);
    assert forall|j: int| 23 < j < BUILTIN_NODE_COUNT implies builtin_id(23) != #[trigger] builtin_id(j) by {
        if j == 24 {
            reveal_strlit("math.map_range_float");
            assert(builtin_id(24) == NodeTypeId::MAP_RANGE@);
            assert(NodeTypeId::LOG@.len() != NodeTypeId::MAP_RANGE@.len());
        } else if j == 25 {
            reveal_strlit("math.round_float");
            assert(builtin_id(25) == NodeTypeId::ROUND@);
            assert(NodeTypeId::LOG@.len() != NodeTypeId::ROUND@.len());
        } else if j == 26 {
            reveal_strlit("math.scale_tensor");
            assert(builtin_id(26) == NodeTypeId::SCALE_TENSOR@);
            assert(NodeTypeId::LOG@.len() != NodeTypeId::SCALE_TENSOR@.len());
        } else if j == 27 {
            reveal_strlit("frame_operations.scale");
            assert(builtin_id(27) == NodeTypeId::SCALE_COLOR@);
            assert(NodeTypeId::LOG@.len() != NodeTypeId::SCALE_COLOR@.len());
        } else if j == 28 {
            reveal_strlit("frame_operations.multiply");
            assert(builtin_id(28) == NodeTypeId::MULTIPLY_COLOR@);
            assert(NodeTypeId::LOG@.len() != NodeTypeId::MULTIPLY_COLOR@.len());
        } else if j == 29 {
            reveal_strlit("frame_operations.tint_frame");
            assert(builtin_id(29) == NodeTypeId::TINT_FRAME@);
            assert(NodeTypeId::LOG@.len() != NodeTypeId::TINT_FRAME@.len());
        } else if j == 30 {
            reveal_strlit("frame_operations.extract_channels");
            assert(builtin_id(30) == NodeTypeId::EXTRACT_CHANNELS@);
            assert(NodeTypeId::LOG@.len() != NodeTypeId::EXTRACT_CHANNELS@.len());
        } else if j == 31 {
            reveal_strlit("frame_operations.set_channel");
            assert(builtin_id(31) == NodeTypeId::SET_CHANNEL@);
            assert(NodeTypeId::LOG@.len() != NodeTypeId::SET_CHANNEL@.len());
        } else if j == 32 {
            reveal_strlit("frame_operations.colorize");
            assert(builtin_id(32) == NodeTypeId::COLORIZE@);
            assert(NodeTypeId::LOG@.len() != NodeTypeId::COLORIZE@.len());
        } else if j == 33 {
            reveal_strlit("frame_operations.mask_frame");
            assert(builtin_id(33) == NodeTypeId::MASK_FRAME@);
            assert(NodeTypeId::LOG@.len() != NodeTypeId::MASK_FRAME@.len());
        } else if j == 34 {
            reveal_strlit("frame_operations.mix");
            assert(builtin_id(34) == NodeTypeId::MIX_COLOR@);
            assert(NodeTypeId::LOG@.len() != NodeTypeId::MIX_COLOR@.len());
        } else if j == 35 {
            reveal_strlit("frame_operations.alpha_over");
            assert(builtin_id(35) == NodeTypeId::ALPHA_OVER@);
            assert(NodeTypeId::LOG@.len() != NodeTypeId::ALPHA_OVER@.len());
        } else if j == 36 {
            reveal_strlit("temporal_filters.fade");
            assert(builtin_id(36) == NodeTypeId::FADE@);
            assert(NodeTypeId::LOG@.len() != NodeTypeId::FADE@.len());
        } else if j == 37 {
            reveal_strlit("temporal_filters.integrate");
            assert(builtin_id(37) == NodeTypeId::INTEGRATE@);
            assert(NodeTypeId::LOG@.len() != NodeTypeId::INTEGRATE@.len());
        } else if j == 38 {
            reveal_strlit("temporal_filters.moving_average");
            assert(builtin_id(38) == NodeTypeId::MOVING_AVERAGE@);
            assert(NodeTypeId::LOG@.len() != NodeTypeId::MOVING_AVERAGE@.len());
        } else if j == 39 {
            reveal_strlit("temporal_filters.moving_median");
            assert(builtin_id(39) == NodeTypeId::MOVING_MEDIAN@);
            assert(NodeTypeId::LOG@.len() != NodeTypeId::MOVING_MEDIAN@.len());
        } else if j == 40 {
            reveal_strlit("spatial_filters.box_blur");
            assert(builtin_id(40) == NodeTypeId::BOX_BLUR@);
            assert(NodeTypeId::LOG@.len() != NodeTypeId::BOX_BLUR@.len());
        } else if j == 41 {
            reveal_strlit("spatial_filters.gaussian_blur");
            assert(builtin_id(41) == NodeTypeId::GAUSSIAN_BLUR@);
            assert(NodeTypeId::LOG@.len() != NodeTypeId::GAUSSIAN_BLUR@.len());
        } else if j == 42 {
            reveal_strlit("spatial_filters.median_filter");
            assert(builtin_id(42) == NodeTypeId::MEDIAN_FILTER@);
            assert(NodeTypeId::LOG@.len() != NodeTypeId::MEDIAN_FILTER@.len());
        } else if j == 43 {
            reveal_strlit("spatial_filters.laplacian_filter");
            assert(builtin_id(43) == NodeTypeId::LAPLACIAN_FILTER@);
            assert(NodeTypeId::LOG@.len() != NodeTypeId::LAPLACIAN_FILTER@.len());
        } else if j == 44 {
            reveal_strlit("generators.spectrum_analyzer");
            assert(builtin_id(44) == NodeTypeId::SPECTRUM_ANALYZER@);
            assert(NodeTypeId::LOG@.len() != NodeTypeId::SPECTRUM_ANALYZER@.len());
        } else if j == 45 {
            reveal_strlit("generators.solid_frame");
            assert(builtin_id(45) == NodeTypeId::SOLID_FRAME@);
            assert(NodeTypeId::LOG@.len() != NodeTypeId::SOLID_FRAME@.len());
        } else if j == 46 {
            reveal_strlit("generators.rainbow_sweep");
            assert(builtin_id(46) == NodeTypeId::RAINBOW_SWEEP@);
            assert(NodeTypeId::LOG@.len() != NodeTypeId::RAINBOW_SWEEP@.len());
        } else if j == 47 {
            reveal_strlit("generators.circle_sweep");
            assert(builtin_id(47) == NodeTypeId::CIRCLE_SWEEP@);
            assert(NodeTypeId::LOG@.len() != NodeTypeId::CIRCLE_SWEEP@.len());
        } else if j == 48 {
            reveal_strlit("generators.level_bar");
            assert(builtin_id(48) == NodeTypeId::LEVEL_BAR@);
            assert(NodeTypeId::LOG@.len() != NodeTypeId::LEVEL_BAR@.len());
        } else if j == 49 {
            reveal_strlit("generators.twinkle_stars");
            assert(builtin_id(49) == NodeTypeId::TWINKLE_STARS@);
            assert(NodeTypeId::LOG@.len() != NodeTypeId::TWINKLE_STARS@.len());
        } else if j == 50 {
            reveal_strlit("generators.plasma");
            assert(builtin_id(50) == NodeTypeId::PLASMA@);
            assert(NodeTypeId::LOG@.len() != NodeTypeId::PLASMA@.len());
        } else if j == 51 {
            reveal_strlit("generators.bouncing_balls");
            assert(builtin_id(51) == NodeTypeId::BOUNCING_BALLS@);
            assert(NodeTypeId::LOG@.len() != NodeTypeId::BOUNCING_BALLS@.len());
        } else if j == 52 {
            reveal_strlit("debug.wled_dummy_display");
            assert(builtin_id(52) == NodeTypeId::WLED_DUMMY_DISPLAY@);
            assert(NodeTypeId::LOG@.len() != NodeTypeId::WLED_DUMMY_DISPLAY@.len());
        } else if j == 53 {
            reveal_strlit("debug.type_debug");
            assert(builtin_id(53) == NodeTypeId::TYPE_DEBUG@);
            assert(NodeTypeId::LOG@.len() != NodeTypeId::TYPE_DEBUG@.len());
        } else if j == 54 {
            reveal_strlit("frame_operations.frame_brightness");
            assert(builtin_id(54) == NodeTypeId::FRAME_BRIGHTNESS@);
            assert(NodeTypeId::LOG@.len() != NodeTypeId::FRAME_BRIGHTNESS@.len());
        }
    }
}

proof fn lemma_catalog_id_24_distinct()
    ensures
        forall|j: int| 24 < j < BUILTIN_NODE_COUNT ==> builtin_id(24) != #[trigger] builtin_id(j),
{
    reveal_strlit("math.map_range_float");
    assert(builtin_id(24) == NodeTypeId::MAP_RANGE@);
    assert forall|j: int| 24 < j < BUILTIN_NODE_COUNT implies builtin_id(24) != #[trigger] builtin_id(j) by {
        if j == 25 {
            reveal_strlit("math.round_float");
            assert(builtin_id(25) == NodeTypeId::ROUND@);
            assert(NodeTypeId::MAP_RANGE@.len() != NodeTypeId::ROUND@.len());
        } else if j == 26 {
            reveal_strlit("math.scale_tensor");
            assert(builtin_id(26) == NodeTypeId::SCALE_TENSOR@);
            assert(NodeTypeId::MAP_RANGE@.len() != NodeTypeId::SCALE_TENSOR@.len());
        } else if j == 27 {
            reveal_strlit("frame_operations.scale");
            assert(builtin_id(27) == NodeTypeId::SCALE_COLOR@);
            assert(NodeTypeId::MAP_RANGE@.len() != NodeTypeId::SCALE_COLOR@.len());
        } else if j == 28 {
            reveal_strlit("frame_operations.multiply");
            assert(builtin_id(28) == NodeTypeId::MULTIPLY_COLOR@);
            assert(NodeTypeId::MAP_RANGE@.len() != NodeTypeId::MULTIPLY_COLOR@.len());
        } else if j == 29 {
            reveal_strlit("frame_operations.tint_frame");
            assert(builtin_id(29) == NodeTypeId::TINT_FRAME@);
            assert(NodeTypeId::MAP_RANGE@.len() != NodeTypeId::TINT_FRAME@.len());
        } else if j == 30 {
            reveal_strlit("frame_operations.extract_channels");
            assert(builtin_id(30) == NodeTypeId::EXTRACT_CHANNELS@);
            assert(NodeTypeId::MAP_RANGE@.len() != NodeTypeId::EXTRACT_CHANNELS@.len());
        } else if j == 31 {
            reveal_strlit("frame_operations.set_channel");
            assert(builtin_id(31) == NodeTypeId::SET_CHANNEL@);
            assert(NodeTypeId::MAP_RANGE@.len() != NodeTypeId::SET_CHANNEL@.len());
        } else if j == 32 {
            reveal_strlit("frame_operations.colorize");
            assert(builtin_id(32) == NodeTypeId::COLORIZE@);
            assert(NodeTypeId::MAP_RANGE@.len() != NodeTypeId::COLORIZE@.len());
        } else if j == 33 {
            reveal_strlit("frame_operations.mask_frame");
            assert(builtin_id(33) == NodeTypeId::MASK_FRAME@);
            assert(NodeTypeId::MAP_RANGE@.len() != NodeTypeId::MASK_FRAME@.len());
        } else if j == 34 {
            reveal_strlit("frame_operations.mix");
            assert(builtin_id(34) == NodeTypeId::MIX_COLOR@);
            assert(NodeTypeId::MAP_RANGE@[0] != NodeTypeId::MIX_COLOR@[0]);
        } else if j == 35 {
            reveal_strlit("frame_operations.alpha_over");
            assert(builtin_id(35) == NodeTypeId::ALPHA_OVER@);
            assert(NodeTypeId::MAP_RANGE@.len() != NodeTypeId::ALPHA_OVER@.len());
        } else if j == 36 {
            reveal_strlit("temporal_filters.fade");
            assert(builtin_id(36) == NodeTypeId::FADE@);
            assert(NodeTypeId::MAP_RANGE@.len() != NodeTypeId::FADE@.len());
        } else if j == 37 {
            reveal_strlit("temporal_filters.integrate");
            assert(builtin_id(37) == NodeTypeId::INTEGRATE@);
            assert(NodeTypeId::MAP_RANGE@.len() != NodeTypeId::INTEGRATE@.len());
        } else if j == 38 {
            reveal_strlit("temporal_filters.moving_average");
            assert(builtin_id(38) == NodeTypeId::MOVING_AVERAGE@);
            assert(NodeTypeId::MAP_RANGE@.len() != NodeTypeId::MOVING_AVERAGE@.len());
        } else if j == 39 {
            reveal_strlit("temporal_filters.moving_median");
            assert(builtin_id(39) == NodeTypeId::MOVING_MEDIAN@);
            assert(NodeTypeId::MAP_RANGE@.len() != NodeTypeId::MOVING_MEDIAN@.len());
        } else if j == 40 {
            reveal_strlit("spatial_filters.box_blur");
            assert(builtin_id(40) == NodeTypeId::BOX_BLUR@);
            assert(NodeTypeId::MAP_RANGE@.len() != NodeTypeId::BOX_BLUR@.len());
        } else if j == 41 {
            reveal_strlit("spatial_filters.gaussian_blur");
            assert(builtin_id(41) == NodeTypeId::GAUSSIAN_BLUR@);
            assert(NodeTypeId::MAP_RANGE@.len() != NodeTypeId::GAUSSIAN_BLUR@.len());
        } else if j == 42 {
            reveal_strlit("spatial_filters.median_filter");
            assert(builtin_id(42) == NodeTypeId::MEDIAN_FILTER@);
            assert(NodeTypeId::MAP_RANGE@.len() != NodeTypeId::MEDIAN_FILTER@.len());
        } else if j == 43 {
            reveal_strlit("spatial_filters.laplacian_filter");
            assert(builtin_id(43) == NodeTypeId::LAPLACIAN_FILTER@);
            assert(NodeTypeId::MAP_RANGE@.len() != NodeTypeId::LAPLACIAN_FILTER@.len());
        } else if j == 44 {
            reveal_strlit("generators.spectrum_analyzer");
            assert(builtin_id(44) == NodeTypeId::SPECTRUM_ANALYZER@);
            assert(NodeTypeId::MAP_RANGE@.len() != NodeTypeId::SPECTRUM_ANALYZER@.len());
        } else if j == 45 {
            reveal_strlit("generators.solid_frame");
            assert(builtin_id(45) == NodeTypeId::SOLID_FRAME@);
            assert(NodeTypeId::MAP_RANGE@.len() != NodeTypeId::SOLID_FRAME@.len());
        } else if j == 46 {
            reveal_strlit("generators.rainbow_sweep");
            assert(builtin_id(46) == NodeTypeId::RAINBOW_SWEEP@);
            assert(NodeTypeId::MAP_RANGE@.len() != NodeTypeId::RAINBOW_SWEEP@.len());
        } else if j == 47 {
            reveal_strlit("generators.circle_sweep");
            assert(builtin_id(47) == NodeTypeId::CIRCLE_SWEEP@);
            assert(NodeTypeId::MAP_RANGE@.len() != NodeTypeId::CIRCLE_SWEEP@.len());
        } else if j == 48 {
            reveal_strlit("generators.level_bar");
            assert(builtin_id(48) == NodeTypeId::LEVEL_BAR@);
            assert(NodeTypeId::MAP_RANGE@[0] != NodeTypeId::LEVEL_BAR@[0]);
        } else if j == 49 {
            reveal_strlit("generators.twinkle_stars");
            assert(builtin_id(49) == NodeTypeId::TWINKLE_STARS@);
            assert(NodeTypeId::MAP_RANGE@.len() != NodeTypeId::TWINKLE_STARS@.len());
        } else if j == 50 {
            reveal_strlit("generators.plasma");
            assert(builtin_id(50) == NodeTypeId::PLASMA@);
            assert(NodeTypeId::MAP_RANGE@.len() != NodeTypeId::PLASMA@.len());
        } else if j == 51 {
            reveal_strlit("generators.bouncing_balls");
            assert(builtin_id(51) == NodeTypeId::BOUNCING_BALLS@);
            assert(NodeTypeId::MAP_RANGE@.len() != NodeTypeId::BOUNCING_BALLS@.len());
        } else if j == 52 {
            reveal_strlit("debug.wled_dummy_display");
            assert(builtin_id(52) == NodeTypeId::WLED_DUMMY_DISPLAY@);
            assert(NodeTypeId::MAP_RANGE@.len() != NodeTypeId::WLED_DUMMY_DISPLAY@.len());
        } else if j == 53 {
            reveal_strlit("debug.type_debug");
            assert(builtin_id(53) == NodeTypeId::TYPE_DEBUG@);
            assert(NodeTypeId::MAP_RANGE@.len() != NodeTypeId::TYPE_DEBUG@.len());
        } else if j == 54 {
            reveal_strlit("frame_operations.frame_brightness");
            assert(builtin_id(54) == NodeTypeId::FRAME_BRIGHTNESS@);
            assert(NodeTypeId::MAP_RANGE@.len() != NodeTypeId::FRAME_BRIGHTNESS@.len());
        }
    }
}

proof fn lemma_catalog_id_25_distinct()
    ensures
        forall|j: int| 25 < j < BUILTIN_NODE_COUNT ==> builtin_id(25) != #[trigger] builtin_id(j),
{
    reveal_strlit("math.round_float");
    assert(builtin_id(25) == NodeTypeId::ROUND@);
    assert forall|j: int| 25 < j < BUILTIN_NODE_COUNT implies builtin_id(25) != #[trigger] builtin_id(j) by {
        if j == 26 {
            reveal_strlit("math.scale_tensor");
            assert(builtin_id(26) == NodeTypeId::SCALE_TENSOR@);
            assert(NodeTypeId::ROUND@.len() != NodeTypeId::SCALE_TENSOR@.len());
        } else if j == 27 {
            reveal_strlit("frame_operations.scale");
            assert(builtin_id(27) == NodeTypeId::SCALE_COLOR@);
            assert(NodeTypeId::ROUND@.len() != NodeTypeId::SCALE_COLOR@.len());
        } else if j == 28 {
            reveal_strlit("frame_operations.multiply");
            assert(builtin_id(28) == NodeTypeId::MULTIPLY_COLOR@);
            assert(NodeTypeId::ROUND@.len() != NodeTypeId::MULTIPLY_COLOR@.len());
        } else if j == 29 {
            reveal_strlit("frame_operations.tint_frame");
            assert(builtin_id(29) == NodeTypeId::TINT_FRAME@);
            assert(NodeTypeId::ROUND@.len() != NodeTypeId::TINT_FRAME@.len());
        } else if j == 30 {
            reveal_strlit("frame_operations.extract_channels");
            assert(builtin_id(30) == NodeTypeId::EXTRACT_CHANNELS@);
            assert(NodeTypeId::ROUND@.len() != NodeTypeId::EXTRACT_CHANNELS@.len());
        } else if j == 31 {
            reveal_strlit("frame_operations.set_channel");
            assert(builtin_id(31) == NodeTypeId::SET_CHANNEL@);
            assert(NodeTypeId::ROUND@.len() != NodeTypeId::SET_CHANNEL@.len());
        } else if j == 32 {
            reveal_strlit("frame_operations.colorize");
            assert(builtin_id(32) == NodeTypeId::COLORIZE@);
            assert(NodeTypeId::ROUND@.len() != NodeTypeId::COLORIZE@.len());
        } else if j == 33 {
            reveal_strlit("frame_operations.mask_frame");
            assert(builtin_id(33) == NodeTypeId::MASK_FRAME@);
            assert(NodeTypeId::ROUND@.len() != NodeTypeId::MASK_FRAME@.len());
        } else if j == 34 {
            reveal_strlit("frame_operations.mix");
            assert(builtin_id(34) == NodeTypeId::MIX_COLOR@);
            assert(NodeTypeId::ROUND@.len() != NodeTypeId::MIX_COLOR@.len());
        } else if j == 35 {
            reveal_strlit("frame_operations.alpha_over");
            assert(builtin_id(35) == NodeTypeId::ALPHA_OVER@);
            assert(NodeTypeId::ROUND@.len() != NodeTypeId::ALPHA_OVER@.len());
        } else if j == 36 {
            reveal_strlit("temporal_filters.fade");
            assert(builtin_id(36) == NodeTypeId::FADE@);
            assert(NodeTypeId::ROUND@.len() != NodeTypeId::FADE@.len());
        } else if j == 37 {
            reveal_strlit("temporal_filters.integrate");
            assert(builtin_id(37) == NodeTypeId::INTEGRATE@);
            assert(NodeTypeId::ROUND@.len() != NodeTypeId::INTEGRATE@.len());
        } else if j == 38 {
            reveal_strlit("temporal_filters.moving_average");
            assert(builtin_id(38) == NodeTypeId::MOVING_AVERAGE@);
            assert(NodeTypeId::ROUND@.len() != NodeTypeId::MOVING_AVERAGE@.len());
        } else if j == 39 {
            reveal_strlit("temporal_filters.moving_median");
            assert(builtin_id(39) == NodeTypeId::MOVING_MEDIAN@);
            assert(NodeTypeId::ROUND@.len() != NodeTypeId::MOVING_MEDIAN@.len());
        } else if j == 40 {
            reveal_strlit("spatial_filters.box_blur");
            assert(builtin_id(40) == NodeTypeId::BOX_BLUR@);
            assert(NodeTypeId::ROUND@.len() != NodeTypeId::BOX_BLUR@.len());
        } else if j == 41 {
            reveal_strlit("spatial_filters.gaussian_blur");
            assert(builtin_id(41) == NodeTypeId::GAUSSIAN_BLUR@);
            assert(NodeTypeId::ROUND@.len() != NodeTypeId::GAUSSIAN_BLUR@.len());
        } else if j == 42 {
            reveal_strlit("spatial_filters.median_filter");
            assert(builtin_id(42) == NodeTypeId::MEDIAN_FILTER@);
            assert(NodeTypeId::ROUND@.len() != NodeTypeId::MEDIAN_FILTER@.len());
        } else if j == 43 {
            reveal_strlit("spatial_filters.laplacian_filter");
            assert(builtin_id(43) == NodeTypeId::LAPLACIAN_FILTER@);
            assert(NodeTypeId::ROUND@.len() != NodeTypeId::LAPLACIAN_FILTER@.len());
        } else if j == 44 {
            reveal_strlit("generators.spectrum_analyzer");
            assert(builtin_id(44) == NodeTypeId::SPECTRUM_ANALYZER@);
            assert(NodeTypeId::ROUND@.len() != NodeTypeId::SPECTRUM_ANALYZER@.len());
        } else if j == 45 {
            reveal_strlit("generators.solid_frame");
            assert(builtin_id(45) == NodeTypeId::SOLID_FRAME@);
            assert(NodeTypeId::ROUND@.len() != NodeTypeId::SOLID_FRAME@.len());
        } else if j == 46 {
            reveal_strlit("generators.rainbow_sweep");
            assert(builtin_id(46) == NodeTypeId::RAINBOW_SWEEP@);
            assert(NodeTypeId::ROUND@.len() != NodeTypeId::RAINBOW_SWEEP@.len());
        } else if j == 47 {
            reveal_strlit("generators.circle_sweep");
            assert(builtin_id(47) == NodeTypeId::CIRCLE_SWEEP@);
            assert(NodeTypeId::ROUND@.len() != NodeTypeId::CIRCLE_SWEEP@.len());
        } else if j == 48 {
            reveal_strlit("generators.level_bar");
            assert(builtin_id(48) == NodeTypeId::LEVEL_BAR@);
            assert(NodeTypeId::ROUND@.len() != NodeTypeId::LEVEL_BAR@.len());
        } else if j == 49 {
            reveal_strlit("generators.twinkle_stars");
            assert(builtin_id(49) == NodeTypeId::TWINKLE_STARS@);
            assert(NodeTypeId::ROUND@.len() != NodeTypeId::TWINKLE_STARS@.len());
        } else if j == 50 {
            reveal_strlit("generators.plasma");
            assert(builtin_id(50) == NodeTypeId::PLASMA@);
            assert(NodeTypeId::ROUND@.len() != NodeTypeId::PLASMA@.len());
        } else if j == 51 {
            reveal_strlit("generators.bouncing_balls");
            assert(builtin_id(51) == NodeTypeId::BOUNCING_BALLS@);
            assert(NodeTypeId::ROUND@.len() != NodeTypeId::BOUNCING_BALLS@.len());
        } else if j == 52 {
            reveal_strlit("debug.wled_dummy_display");
            assert(builtin_id(52) == NodeTypeId::WLED_DUMMY_DISPLAY@);
            assert(NodeTypeId::ROUND@.len() != NodeTypeId::WLED_DUMMY_DISPLAY@.len());
        } else if j == 53 {
            reveal_strlit("debug.type_debug");
            assert(builtin_id(53) == NodeTypeId::TYPE_DEBUG@);
            assert(NodeTypeId::ROUND@[0] != NodeTypeId::TYPE_DEBUG@[0]);
        } else if j == 54 {
            reveal_strlit("frame_operations.frame_brightness");
            assert(builtin_id(54) == NodeTypeId::FRAME_BRIGHTNESS@);
            assert(NodeTypeId::ROUND@.len() != NodeTypeId::FRAME_BRIGHTNESS@.len());
        }
    }
}

proof fn lemma_catalog_id_26_distinct()
    ensures
        forall|j: int| 26 < j < BUILTIN_NODE_COUNT ==> builtin_id(26) != #[trigger] builtin_id(j),
{
    reveal_strlit("math.scale_tensor");
    assert(builtin_id(26) == NodeTypeId::SCALE_TENSOR@);
    assert forall|j: int| 26 < j < BUILTIN_NODE_COUNT implies builtin_id(26) != #[trigger] builtin_id(j) by {
        if j == 27 {
            reveal_strlit("frame_operations.scale");
            assert(builtin_id(27) == NodeTypeId::SCALE_COLOR@);
            assert(NodeTypeId::SCALE_TENSOR@.len() != NodeTypeId::SCALE_COLOR@.len());
        } else if j == 28 {
            reveal_strlit("frame_operations.multiply");
            assert(builtin_id(28) == NodeTypeId::MULTIPLY_COLOR@);
            assert(NodeTypeId::SCALE_TENSOR@.len() != NodeTypeId::MULTIPLY_COLOR@.len());
        } else if j == 29 {
            reveal_strlit("frame_operations.tint_frame");
            assert(builtin_id(29) == NodeTypeId::TINT_FRAME@);
            assert(NodeTypeId::SCALE_TENSOR@.len() != NodeTypeId::TINT_FRAME@.len());
        } else if j == 30 {
            reveal_strlit("frame_operations.extract_channels");
            assert(builtin_id(30) == NodeTypeId::EXTRACT_CHANNELS@);
            assert(NodeTypeId::SCALE_TENSOR@.len() != NodeTypeId::EXTRACT_CHANNELS@.len());
        } else if j == 31 {
            reveal_strlit("frame_operations.set_channel");
            assert(builtin_id(31) == NodeTypeId::SET_CHANNEL@);
            assert(NodeTypeId::SCALE_TENSOR@.len() != NodeTypeId::SET_CHANNEL@.len());
        } else if j == 32 {
            reveal_strlit("frame_operations.colorize");
            assert(builtin_id(32) == NodeTypeId::COLORIZE@);
            assert(NodeTypeId::SCALE_TENSOR@.len() != NodeTypeId::COLORIZE@.len());
        } else if j == 33 {
            reveal_strlit("frame_operations.mask_frame");
            assert(builtin_id(33) == NodeTypeId::MASK_FRAME@);
            assert(NodeTypeId::SCALE_TENSOR@.len() != NodeTypeId::MASK_FRAME@.len());
        } else if j == 34 {
            reveal_strlit("frame_operations.mix");
            assert(builtin_id(34) == NodeTypeId::MIX_COLOR@);
            assert(NodeTypeId::SCALE_TENSOR@.len() != NodeTypeId::MIX_COLOR@.len());
        } else if j == 35 {
            reveal_strlit("frame_operations.alpha_over");
            assert(builtin_id(35) == NodeTypeId::ALPHA_OVER@);
            assert(NodeTypeId::SCALE_TENSOR@.len() != NodeTypeId::ALPHA_OVER@.len());
        } else if j == 36 {
            reveal_strlit("temporal_filters.fade");
            assert(builtin_id(36) == NodeTypeId::FADE@);
            assert(NodeTypeId::SCALE_TENSOR@.len() != NodeTypeId::FADE@.len());
        } else if j == 37 {
            reveal_strlit("temporal_filters.integrate");
            assert(builtin_id(37) == NodeTypeId::INTEGRATE@);
            assert(NodeTypeId::SCALE_TENSOR@.len() != NodeTypeId::INTEGRATE@.len());
        } else if j == 38 {
            reveal_strlit("temporal_filters.moving_average");
            assert(builtin_id(38) == NodeTypeId::MOVING_AVERAGE@);
            assert(NodeTypeId::SCALE_TENSOR@.len() != NodeTypeId::MOVING_AVERAGE@.len());
        } else if j == 39 {
            reveal_strlit("temporal_filters.moving_median");
            assert(builtin_id(39) == NodeTypeId::MOVING_MEDIAN@);
            assert(NodeTypeId::SCALE_TENSOR@.len() != NodeTypeId::MOVING_MEDIAN@.len());
        } else if j == 40 {
            reveal_strlit("spatial_filters.box_blur");
            assert(builtin_id(40) == NodeTypeId::BOX_BLUR@);
            assert(NodeTypeId::SCALE_TENSOR@.len() != NodeTypeId::BOX_BLUR@.len());
        } else if j == 41 {
            reveal_strlit("spatial_filters.gaussian_blur");
            assert(builtin_id(41) == NodeTypeId::GAUSSIAN_BLUR@);
            assert(NodeTypeId::SCALE_TENSOR@.len() != NodeTypeId::GAUSSIAN_BLUR@.len());
        } else if j == 42 {
            reveal_strlit("spatial_filters.median_filter");
            assert(builtin_id(42) == NodeTypeId::MEDIAN_FILTER@);
            assert(NodeTypeId::SCALE_TENSOR@.len() != NodeTypeId::MEDIAN_FILTER@.len());
        } else if j == 43 {
            reveal_strlit("spatial_filters.laplacian_filter");
            assert(builtin_id(43) == NodeTypeId::LAPLACIAN_FILTER@);
            assert(NodeTypeId::SCALE_TENSOR@.len() != NodeTypeId::LAPLACIAN_FILTER@.len());
        } else if j == 44 {
            reveal_strlit("generators.spectrum_analyzer");
            assert(builtin_id(44) == NodeTypeId::SPECTRUM_ANALYZER@);
            assert(NodeTypeId::SCALE_TENSOR@.len() != NodeTypeId::SPECTRUM_ANALYZER@.len());
        } else if j == 45 {
            reveal_strlit("generators.solid_frame");
            assert(builtin_id(45) == NodeTypeId::SOLID_FRAME@);
            assert(NodeTypeId::SCALE_TENSOR@.len() != NodeTypeId::SOLID_FRAME@.len());
        } else if j == 46 {
            reveal_strlit("generators.rainbow_sweep");
            assert(builtin_id(46) == NodeTypeId::RAINBOW_SWEEP@);
            assert(NodeTypeId::SCALE_TENSOR@.len() != NodeTypeId::RAINBOW_SWEEP@.len());
        } else if j == 47 {
            reveal_strlit("generators.circle_sweep");
            assert(builtin_id(47) == NodeTypeId::CIRCLE_SWEEP@);
            assert(NodeTypeId::SCALE_TENSOR@.len() != NodeTypeId::CIRCLE_SWEEP@.len());
        } else if j == 48 {
            reveal_strlit("generators.level_bar");
            assert(builtin_id(48) == NodeTypeId::LEVEL_BAR@);
            assert(NodeTypeId::SCALE_TENSOR@.len() != NodeTypeId::LEVEL_BAR@.len());
        } else if j == 49 {
            reveal_strlit("generators.twinkle_stars");
            assert(builtin_id(49) == NodeTypeId::TWINKLE_STARS@);
            assert(NodeTypeId::SCALE_TENSOR@.len() != NodeTypeId::TWINKLE_STARS@.len());
        } else if j == 50 {
            reveal_strlit("generators.plasma");
            assert(builtin_id(50) == NodeTypeId::PLASMA@);
            assert(NodeTypeId::SCALE_TENSOR@[0] != NodeTypeId::PLASMA@[0]);
        } else if j == 51 {
            reveal_strlit("generators.bouncing_balls");
            assert(builtin_id(51) == NodeTypeId::BOUNCING_BALLS@);
            assert(NodeTypeId::SCALE_TENSOR@.len() != NodeTypeId::BOUNCING_BALLS@.len());
        } else if j == 52 {
            reveal_strlit("debug.wled_dummy_display");
            assert(builtin_id(52) == NodeTypeId::WLED_DUMMY_DISPLAY@);
            assert(NodeTypeId::SCALE_TENSOR@.len() != NodeTypeId::WLED_DUMMY_DISPLAY@.len());
        } else if j == 53 {
            reveal_strlit("debug.type_debug");
            assert(builtin_id(53) == NodeTypeId::TYPE_DEBUG@);
            assert(NodeTypeId::SCALE_TENSOR@.len() != NodeTypeId::TYPE_DEBUG@.len());
        } else if j == 54 {
            reveal_strlit("frame_operations.frame_brightness");
            assert(builtin_id(54) == NodeTypeId::FRAME_BRIGHTNESS@);
            assert(NodeTypeId::SCALE_TENSOR@.len() != NodeTypeId::FRAME_BRIGHTNESS@.len());
        }
    }
}

proof fn lemma_catalog_id_27_distinct()
    ensures
        forall|j: int| 27 < j < BUILTIN_NODE_COUNT ==> builtin_id(27) != #[trigger] builtin_id(j),
{
    reveal_strlit("frame_operations.scale");
    assert(builtin_id(27) == NodeTypeId::SCALE_COLOR@);
    assert forall|j: int| 27 < j < BUILTIN_NODE_COUNT implies builtin_id(27) != #[trigger] builtin_id(j) by {
        if j == 28 {
            reveal_strlit("frame_operations.multiply");
            assert(builtin_id(28) == NodeTypeId::MULTIPLY_COLOR@);
            assert(NodeTypeId::SCALE_COLOR@.len() != NodeTypeId::MULTIPLY_COLOR@.len());
        } else if j == 29 {
            reveal_strlit("frame_operations.tint_frame");
            assert(builtin_id(29) == NodeTypeId::TINT_FRAME@);
            assert(NodeTypeId::SCALE_COLOR@.len() != NodeTypeId::TINT_FRAME@.len());
        } else if j == 30 {
            reveal_strlit("frame_operations.extract_channels");
            assert(builtin_id(30) == NodeTypeId::EXTRACT_CHANNELS@);
            assert(NodeTypeId::SCALE_COLOR@.len() != NodeTypeId::EXTRACT_CHANNELS@.len());
        } else if j == 31 {
            reveal_strlit("frame_operations.set_channel");
            assert(builtin_id(31) == NodeTypeId::SET_CHANNEL@);
            assert(NodeTypeId::SCALE_COLOR@.len() != NodeTypeId::SET_CHANNEL@.len());
        } else if j == 32 {
            reveal_strlit("frame_operations.colorize");
            assert(builtin_id(32) == NodeTypeId::COLORIZE@);
            assert(NodeTypeId::SCALE_COLOR@.len() != NodeTypeId::COLORIZE@.len());
        } else if j == 33 {
            reveal_strlit("frame_operations.mask_frame");
            assert(builtin_id(33) == NodeTypeId::MASK_FRAME@);
            assert(NodeTypeId::SCALE_COLOR@.len() != NodeTypeId::MASK_FRAME@.len());
        } else if j == 34 {
            reveal_strlit("frame_operations.mix");
            assert(builtin_id(34) == NodeTypeId::MIX_COLOR@);
            assert(NodeTypeId::SCALE_COLOR@.len() != NodeTypeId::MIX_COLOR@.len());
        } else if j == 35 {
            reveal_strlit("frame_operations.alpha_over");
            assert(builtin_id(35) == NodeTypeId::ALPHA_OVER@);
            assert(NodeTypeId::SCALE_COLOR@.len() != NodeTypeId::ALPHA_OVER@.len());
        } else if j == 36 {
            reveal_strlit("temporal_filters.fade");
            assert(builtin_id(36) == NodeTypeId::FADE@);
            assert(NodeTypeId::SCALE_COLOR@.len() != NodeTypeId::FADE@.len());
        } else if j == 37 {
            reveal_strlit("temporal_filters.integrate");
            assert(builtin_id(37) == NodeTypeId::INTEGRATE@);
            assert(NodeTypeId::SCALE_COLOR@.len() != NodeTypeId::INTEGRATE@.len());
        } else if j == 38 {
            reveal_strlit("temporal_filters.moving_average");
            assert(builtin_id(38) == NodeTypeId::MOVING_AVERAGE@);
            assert(NodeTypeId::SCALE_COLOR@.len() != NodeTypeId::MOVING_AVERAGE@.len());
        } else if j == 39 {
            reveal_strlit("temporal_filters.moving_median");
            assert(builtin_id(39) == NodeTypeId::MOVING_MEDIAN@);
            assert(NodeTypeId::SCALE_COLOR@.len() != NodeTypeId::MOVING_MEDIAN@.len());
        } else if j == 40 {
            reveal_strlit("spatial_filters.box_blur");
            assert(builtin_id(40) == NodeTypeId::BOX_BLUR@);
            assert(NodeTypeId::SCALE_COLOR@.len() != NodeTypeId::BOX_BLUR@.len());
        } else if j == 41 {
            reveal_strlit("spatial_filters.gaussian_blur");
            assert(builtin_id(41) == NodeTypeId::GAUSSIAN_BLUR@);
            assert(NodeTypeId::SCALE_COLOR@.len() != NodeTypeId::GAUSSIAN_BLUR@.len());
        } else if j == 42 {
            reveal_strlit("spatial_filters.median_filter");
            assert(builtin_id(42) == NodeTypeId::MEDIAN_FILTER@);
            assert(NodeTypeId::SCALE_COLOR@.len() != NodeTypeId::MEDIAN_FILTER@.len());
        } else if j == 43 {
            reveal_strlit("spatial_filters.laplacian_filter");
            assert(builtin_id(43) == NodeTypeId::LAPLACIAN_FILTER@);
            assert(NodeTypeId::SCALE_COLOR@.len() != NodeTypeId::LAPLACIAN_FILTER@.len());
        } else if j == 44 {
            reveal_strlit("generators.spectrum_analyzer");
            assert(builtin_id(44) == NodeTypeId::SPECTRUM_ANALYZER@);
            assert(NodeTypeId::SCALE_COLOR@.len() != NodeTypeId::SPECTRUM_ANALYZER@.len());
        } else if j == 45 {
            reveal_strlit("generators.solid_frame");
            assert(builtin_id(45) == NodeTypeId::SOLID_FRAME@);
            assert(NodeTypeId::SCALE_COLOR@[0] != NodeTypeId::SOLID_FRAME@[0]);
        } else if j == 46 {
            reveal_strlit("generators.rainbow_sweep");
            assert(builtin_id(46) == NodeTypeId::RAINBOW_SWEEP@);
            assert(NodeTypeId::SCALE_COLOR@.len() != NodeTypeId::RAINBOW_SWEEP@.len());
        } else if j == 47 {
            reveal_strlit("generators.circle_sweep");
            assert(builtin_id(47) == NodeTypeId::CIRCLE_SWEEP@);
            assert(NodeTypeId::SCALE_COLOR@.len() != NodeTypeId::CIRCLE_SWEEP@.len());
        } else if j == 48 {
            reveal_strlit("generators.level_bar");
            assert(builtin_id(48) == NodeTypeId::LEVEL_BAR@);
            assert(NodeTypeId::SCALE_COLOR@.len() != NodeTypeId::LEVEL_BAR@.len());
        } else if j == 49 {
            reveal_strlit("generators.twinkle_stars");
            assert(builtin_id(49) == NodeTypeId::TWINKLE_STARS@);
            assert(NodeTypeId::SCALE_COLOR@.len() != NodeTypeId::TWINKLE_STARS@.len());
        } else if j == 50 {
            reveal_strlit("generators.plasma");
            assert(builtin_id(50) == NodeTypeId::PLASMA@);
            assert(NodeTypeId::SCALE_COLOR@.len() != NodeTypeId::PLASMA@.len());
        } else if j == 51 {
            reveal_strlit("generators.bouncing_balls");
            assert(builtin_id(51) == NodeTypeId::BOUNCING_BALLS@);
            assert(NodeTypeId::SCALE_COLOR@.len() != NodeTypeId::BOUNCING_BALLS@.len());
        } else if j == 52 {
            reveal_strlit("debug.wled_dummy_display");
            assert(builtin_id(52) == NodeTypeId::WLED_DUMMY_DISPLAY@);
            assert(NodeTypeId::SCALE_COLOR@.len() != NodeTypeId::WLED_DUMMY_DISPLAY@.len());
        } else if j == 53 {
            reveal_strlit("debug.type_debug");
            assert(builtin_id(53) == NodeTypeId::TYPE_DEBUG@);
            assert(NodeTypeId::SCALE_COLOR@.len() != NodeTypeId::TYPE_DEBUG@.len());
        } else if j == 54 {
            reveal_strlit("frame_operations.frame_brightness");
            assert(builtin_id(54) == NodeTypeId::FRAME_BRIGHTNESS@);
            assert(NodeTypeId::SCALE_COLOR@.len() != NodeTypeId::FRAME_BRIGHTNESS@.len());
        }
    }
}

proof fn lemma_catalog_id_28_distinct()
    ensures
        forall|j: int| 28 < j < BUILTIN_NODE_COUNT ==> builtin_id(28) != #[trigger] builtin_id(j),
{
    reveal_strlit("frame_operations.multiply");
    assert(builtin_id(28) == NodeTypeId::MULTIPLY_COLOR@);
    assert forall|j: int| 28 < j < BUILTIN_NODE_COUNT implies builtin_id(28) != #[trigger] builtin_id(j) by {
        if j == 29 {
            reveal_strlit("frame_operations.tint_frame");
            assert(builtin_id(29) == NodeTypeId::TINT_FRAME@);
            assert(NodeTypeId::MULTIPLY_COLOR@.len() != NodeTypeId::TINT_FRAME@.len());
        } else if j == 30 {
            reveal_strlit("frame_operations.extract_channels");
            assert(builtin_id(30) == NodeTypeId::EXTRACT_CHANNELS@);
            assert(NodeTypeId::MULTIPLY_COLOR@.len() != NodeTypeId::EXTRACT_CHANNELS@.len());
        } else if j == 31 {
            reveal_strlit("frame_operations.set_channel");
            assert(builtin_id(31) == NodeTypeId::SET_CHANNEL@);
            assert(NodeTypeId::MULTIPLY_COLOR@.len() != NodeTypeId::SET_CHANNEL@.len());
        } else if j == 32 {
            reveal_strlit("frame_operations.colorize");
            assert(builtin_id(32) == NodeTypeId::COLORIZE@);
            assert(NodeTypeId::MULTIPLY_COLOR@[17] != NodeTypeId::COLORIZE@[17]);
        } else if j == 33 {
            reveal_strlit("frame_operations.mask_frame");
            assert(builtin_id(33) == NodeTypeId::MASK_FRAME@);
            assert(NodeTypeId::MULTIPLY_COLOR@.len() != NodeTypeId::MASK_FRAME@.len());
        } else if j == 34 {
            reveal_strlit("frame_operations.mix");
            assert(builtin_id(34) == NodeTypeId::MIX_COLOR@);
            assert(NodeTypeId::MULTIPLY_COLOR@.len() != NodeTypeId::MIX_COLOR@.len());
        } else if j == 35 {
            reveal_strlit("frame_operations.alpha_over");
            assert(builtin_id(35) == NodeTypeId::ALPHA_OVER@);
            assert(NodeTypeId::MULTIPLY_COLOR@.len() != NodeTypeId::ALPHA_OVER@.len());
        } else if j == 36 {
            reveal_strlit("temporal_filters.fade");
            assert(builtin_id(36) == NodeTypeId::FADE@);
            assert(NodeTypeId::MULTIPLY_COLOR@.len() != NodeTypeId::FADE@.len());
        } else if j == 37 {
            reveal_strlit("temporal_filters.integrate");
            assert(builtin_id(37) == NodeTypeId::INTEGRATE@);
            assert(NodeTypeId::MULTIPLY_COLOR@.len() != NodeTypeId::INTEGRATE@.len());
        } else if j == 38 {
            reveal_strlit("temporal_filters.moving_average");
            assert(builtin_id(38) == NodeTypeId::MOVING_AVERAGE@);
            assert(NodeTypeId::MULTIPLY_COLOR@.len() != NodeTypeId::MOVING_AVERAGE@.len());
        } else if j == 39 {
            reveal_strlit("temporal_filters.moving_median");
            assert(builtin_id(39) == NodeTypeId::MOVING_MEDIAN@);
            assert(NodeTypeId::MULTIPLY_COLOR@.len() != NodeTypeId::MOVING_MEDIAN@.len());
        } else if j == 40 {
            reveal_strlit("spatial_filters.box_blur");
            assert(builtin_id(40) == NodeTypeId::BOX_BLUR@);
            assert(NodeTypeId::MULTIPLY_COLOR@.len() != NodeTypeId::BOX_BLUR@.len());
        } else if j == 41 {
            reveal_strlit("spatial_filters.gaussian_blur");
            assert(builtin_id(41) == NodeTypeId::GAUSSIAN_BLUR@);
            assert(NodeTypeId::MULTIPLY_COLOR@.len() != NodeTypeId::GAUSSIAN_BLUR@.len());
        } else if j == 42 {
            reveal_strlit("spatial_filters.median_filter");
            assert(builtin_id(42) == NodeTypeId::MEDIAN_FILTER@);
            assert(NodeTypeId::MULTIPLY_COLOR@.len() != NodeTypeId::MEDIAN_FILTER@.len());
        } else if j == 43 {
            reveal_strlit("spatial_filters.laplacian_filter");
            assert(builtin_id(43) == NodeTypeId::LAPLACIAN_FILTER@);
            assert(NodeTypeId::MULTIPLY_COLOR@.len() != NodeTypeId::LAPLACIAN_FILTER@.len());
        } else if j == 44 {
            reveal_strlit("generators.spectrum_analyzer");
            assert(builtin_id(44) == NodeTypeId::SPECTRUM_ANALYZER@);
            assert(NodeTypeId::MULTIPLY_COLOR@.len() != NodeTypeId::SPECTRUM_ANALYZER@.len());
        } else if j == 45 {
            reveal_strlit("generators.solid_frame");
            assert(builtin_id(45) == NodeTypeId::SOLID_FRAME@);
            assert(NodeTypeId::MULTIPLY_COLOR@.len() != NodeTypeId::SOLID_FRAME@.len());
        } else if j == 46 {
            reveal_strlit("generators.rainbow_sweep");
            assert(builtin_id(46) == NodeTypeId::RAINBOW_SWEEP@);
            assert(NodeTypeId::MULTIPLY_COLOR@.len() != NodeTypeId::RAINBOW_SWEEP@.len());
        } else if j == 47 {
            reveal_strlit("generators.circle_sweep");
            assert(builtin_id(47) == NodeTypeId::CIRCLE_SWEEP@);
            assert(NodeTypeId::MULTIPLY_COLOR@.len() != NodeTypeId::CIRCLE_SWEEP@.len());
        } else if j == 48 {
            reveal_strlit("generators.level_bar");
            assert(builtin_id(48) == NodeTypeId::LEVEL_BAR@);
            assert(NodeTypeId::MULTIPLY_COLOR@.len() != NodeTypeId::LEVEL_BAR@.len());
        } else if j == 49 {
            reveal_strlit("generators.twinkle_stars");
            assert(builtin_id(49) == NodeTypeId::TWINKLE_STARS@);
            assert(NodeTypeId::MULTIPLY_COLOR@.len() != NodeTypeId::TWINKLE_STARS@.len());
        } else if j == 50 {
            reveal_strlit("generators.plasma");
            assert(builtin_id(50) == NodeTypeId::PLASMA@);
            assert(NodeTypeId::MULTIPLY_COLOR@.len() != NodeTypeId::PLASMA@.len());
        } else if j == 51 {
            reveal_strlit("generators.bouncing_balls");
            assert(builtin_id(51) == NodeTypeId::BOUNCING_BALLS@);
            assert(NodeTypeId::MULTIPLY_COLOR@[0] != NodeTypeId::BOUNCING_BALLS@[0]);
        } else if j == 52 {
            reveal_strlit("debug.wled_dummy_display");
            assert(builtin_id(52) == NodeTypeId::WLED_DUMMY_DISPLAY@);
            assert(NodeTypeId::MULTIPLY_COLOR@.len() != NodeTypeId::WLED_DUMMY_DISPLAY@.len());
        } else if j == 53 {
            reveal_strlit("debug.type_debug");
            assert(builtin_id(53) == NodeTypeId::TYPE_DEBUG@);
            assert(NodeTypeId::MULTIPLY_COLOR@.len() != NodeTypeId::TYPE_DEBUG@.len());
        } else if j == 54 {
            reveal_strlit("frame_operations.frame_brightness");
            assert(builtin_id(54) == NodeTypeId::FRAME_BRIGHTNESS@);
            assert(NodeTypeId::MULTIPLY_COLOR@.len() != NodeTypeId::FRAME_BRIGHTNESS@.len());
        }
    }
}

proof fn lemma_catalog_id_29_distinct()
    ensures
        forall|j: int| 29 < j < BUILTIN_NODE_COUNT ==> builtin_id(29) != #[trigger] builtin_id(j),
{
    reveal_strlit("frame_operations.tint_frame");
    assert(builtin_id(29) == NodeTypeId::TINT_FRAME@);
    assert forall|j: int| 29 < j < BUILTIN_NODE_COUNT implies builtin_id(29) != #[trigger] builtin_id(j) by {
        if j == 30 {
            reveal_strlit("frame_operations.extract_channels");
            assert(builtin_id(30) == NodeTypeId::EXTRACT_CHANNELS@);
            assert(NodeTypeId::TINT_FRAME@.len() != NodeTypeId::EXTRACT_CHANNELS@.len());
        } else if j == 31 {
            reveal_strlit("frame_operations.set_channel");
            assert(builtin_id(31) == NodeTypeId::SET_CHANNEL@);
            assert(NodeTypeId::TINT_FRAME@.len() != NodeTypeId::SET_CHANNEL@.len());
        } else if j == 32 {
            reveal_strlit("frame_operations.colorize");
            assert(builtin_id(32) == NodeTypeId::COLORIZE@);
            assert(NodeTypeId::TINT_FRAME@.len() != NodeTypeId::COLORIZE@.len());
        } else if j == 33 {
            reveal_strlit("frame_operations.mask_frame");
            assert(builtin_id(33) == NodeTypeId::MASK_FRAME@);
            assert(NodeTypeId::TINT_FRAME@[17] != NodeTypeId::MASK_FRAME@[17]);
        } else if j == 34 {
            reveal_strlit("frame_operations.mix");
            assert(builtin_id(34) == NodeTypeId::MIX_COLOR@);
            assert(NodeTypeId::TINT_FRAME@.len() != NodeTypeId::MIX_COLOR@.len());
        } else if j == 35 {
            reveal_strlit("frame_operations.alpha_over");
            assert(builtin_id(35) == NodeTypeId::ALPHA_OVER@);
            assert(NodeTypeId::TINT_FRAME@[17] != NodeTypeId::ALPHA_OVER@[17]);
        } else if j == 36 {
            reveal_strlit("temporal_filters.fade");
            assert(builtin_id(36) == NodeTypeId::FADE@);
            assert(NodeTypeId::TINT_FRAME@.len() != NodeTypeId::FADE@.len());
        } else if j == 37 {
            reveal_strlit("temporal_filters.integrate");
            assert(builtin_id(37) == NodeTypeId::INTEGRATE@);
            assert(NodeTypeId::TINT_FRAME@.len() != NodeTypeId::INTEGRATE@.len());
        } else if j == 38 {
            reveal_strlit("temporal_filters.moving_average");
            assert(builtin_id(38) == NodeTypeId::MOVING_AVERAGE@);
            assert(NodeTypeId::TINT_FRAME@.len() != NodeTypeId::MOVING_AVERAGE@.len());
        } else if j == 39 {
            reveal_strlit("temporal_filters.moving_median");
            assert(builtin_id(39) == NodeTypeId::MOVING_MEDIAN@);
            assert(NodeTypeId::TINT_FRAME@.len() != NodeTypeId::MOVING_MEDIAN@.len());
        } else if j == 40 {
            reveal_strlit("spatial_filters.box_blur");
            assert(builtin_id(40) == NodeTypeId::BOX_BLUR@);
            assert(NodeTypeId::TINT_FRAME@.len() != NodeTypeId::BOX_BLUR@.len());
        } else if j == 41 {
            reveal_strlit("spatial_filters.gaussian_blur");
            assert(builtin_id(41) == NodeTypeId::GAUSSIAN_BLUR@);
            assert(NodeTypeId::TINT_FRAME@.len() != NodeTypeId::GAUSSIAN_BLUR@.len());
        } else if j == 42 {
            reveal_strlit("spatial_filters.median_filter");
            assert(builtin_id(42) == NodeTypeId::MEDIAN_FILTER@);
            assert(NodeTypeId::TINT_FRAME@.len() != NodeTypeId::MEDIAN_FILTER@.len());
        } else if j == 43 {
            reveal_strlit("spatial_filters.laplacian_filter");
            assert(builtin_id(43) == NodeTypeId::LAPLACIAN_FILTER@);
            assert(NodeTypeId::TINT_FRAME@.len() != NodeTypeId::LAPLACIAN_FILTER@.len());
        } else if j == 44 {
            reveal_strlit("generators.spectrum_analyzer");
            assert(builtin_id(44) == NodeTypeId::SPECTRUM_ANALYZER@);
            assert(NodeTypeId::TINT_FRAME@.len() != NodeTypeId::SPECTRUM_ANALYZER@.len());
        } else if j == 45 {
            reveal_strlit("generators.solid_frame");
            assert(builtin_id(45) == NodeTypeId::SOLID_FRAME@);
            assert(NodeTypeId::TINT_FRAME@.len() != NodeTypeId::SOLID_FRAME@.len());
        } else if j == 46 {
            reveal_strlit("generators.rainbow_sweep");
            assert(builtin_id(46) == NodeTypeId::RAINBOW_SWEEP@);
            assert(NodeTypeId::TINT_FRAME@.len() != NodeTypeId::RAINBOW_SWEEP@.len());
        } else if j == 47 {
            reveal_strlit("generators.circle_sweep");
            assert(builtin_id(47) == NodeTypeId::CIRCLE_SWEEP@);
            assert(NodeTypeId::TINT_FRAME@.len() != NodeTypeId::CIRCLE_SWEEP@.len());
        } else if j == 48 {
            reveal_strlit("generators.level_bar");
            assert(builtin_id(48) == NodeTypeId::LEVEL_BAR@);
            assert(NodeTypeId::TINT_FRAME@.len() != NodeTypeId::LEVEL_BAR@.len());
        } else if j == 49 {
            reveal_strlit("generators.twinkle_stars");
            assert(builtin_id(49) == NodeTypeId::TWINKLE_STARS@);
            assert(NodeTypeId::TINT_FRAME@.len() != NodeTypeId::TWINKLE_STARS@.len());
        } else if j == 50 {
            reveal_strlit("generators.plasma");
            assert(builtin_id(50) == NodeTypeId::PLASMA@);
            assert(NodeTypeId::TINT_FRAME@.len() != NodeTypeId::PLASMA@.len());
        } else if j == 51 {
            reveal_strlit("generators.bouncing_balls");
            assert(builtin_id(51) == NodeTypeId::BOUNCING_BALLS@);
            assert(NodeTypeId::TINT_FRAME@.len() != NodeTypeId::BOUNCING_BALLS@.len());
        } else if j == 52 {
            reveal_strlit("debug.wled_dummy_display");
            assert(builtin_id(52) == NodeTypeId::WLED_DUMMY_DISPLAY@);
            assert(NodeTypeId::TINT_FRAME@.len() != NodeTypeId::WLED_DUMMY_DISPLAY@.len());
        } else if j == 53 {
            reveal_strlit("debug.type_debug");
            assert(builtin_id(53) == NodeTypeId::TYPE_DEBUG@);
            assert(NodeTypeId::TINT_FRAME@.len() != NodeTypeId::TYPE_DEBUG@.len());
        } else if j == 54 {
            reveal_strlit("frame_operations.frame_brightness");
            assert(builtin_id(54) == NodeTypeId::FRAME_BRIGHTNESS@);
            assert(NodeTypeId::TINT_FRAME@.len() != NodeTypeId::FRAME_BRIGHTNESS@.len());
        }
    }
}

proof fn lemma_catalog_id_30_distinct()
    ensures
        forall|j: int| 30 < j < BUILTIN_NODE_COUNT ==> builtin_id(30) != #[trigger] builtin_id(j),
{
    reveal_strlit("frame_operations.extract_channels");
    assert(builtin_id(30) == NodeTypeId::EXTRACT_CHANNELS@);
    assert forall|j: int| 30 < j < BUILTIN_NODE_COUNT implies builtin_id(30) != #[trigger] builtin_id(j) by {
        if j == 31 {
            reveal_strlit("frame_operations.set_channel");
            assert(builtin_id(31) == NodeTypeId::SET_CHANNEL@);
            assert(NodeTypeId::EXTRACT_CHANNELS@.len() != NodeTypeId::SET_CHANNEL@.len());
        } else if j == 32 {
            reveal_strlit("frame_operations.colorize");
            assert(builtin_id(32) == NodeTypeId::COLORIZE@);
            assert(NodeTypeId::EXTRACT_CHANNELS@.len() != NodeTypeId::COLORIZE@.len());
        } else if j == 33 {
            reveal_strlit("frame_operations.mask_frame");
            assert(builtin_id(33) == NodeTypeId::MASK_FRAME@);
            assert(NodeTypeId::EXTRACT_CHANNELS@.len() != NodeTypeId::MASK_FRAME@.len());
        } else if j == 34 {
            reveal_strlit("frame_operations.mix");
            assert(builtin_id(34) == NodeTypeId::MIX_COLOR@);
            assert(NodeTypeId::EXTRACT_CHANNELS@.len() != NodeTypeId::MIX_COLOR@.len());
        } else if j == 35 {
            reveal_strlit("frame_operations.alpha_over");
            assert(builtin_id(35) == NodeTypeId::ALPHA_OVER@);
            assert(NodeTypeId::EXTRACT_CHANNELS@.len() != NodeTypeId::ALPHA_OVER@.len());
        } else if j == 36 {
            reveal_strlit("temporal_filters.fade");
            assert(builtin_id(36) == NodeTypeId::FADE@);
            assert(NodeTypeId::EXTRACT_CHANNELS@.len() != NodeTypeId::FADE@.len());
        } else if j == 37 {
            reveal_strlit("temporal_filters.integrate");
            assert(builtin_id(37) == NodeTypeId::INTEGRATE@);
            assert(NodeTypeId::EXTRACT_CHANNELS@.len() != NodeTypeId::INTEGRATE@.len());
        } else if j == 38 {
            reveal_strlit("temporal_filters.moving_average");
            assert(builtin_id(38) == NodeTypeId::MOVING_AVERAGE@);
            assert(NodeTypeId::EXTRACT_CHANNELS@.len() != NodeTypeId::MOVING_AVERAGE@.len());
        } else if j == 39 {
            reveal_strlit("temporal_filters.moving_median");
            assert(builtin_id(39) == NodeTypeId::MOVING_MEDIAN@);
            assert(NodeTypeId::EXTRACT_CHANNELS@.len() != NodeTypeId::MOVING_MEDIAN@.len());
        } else if j == 40 {
            reveal_strlit("spatial_filters.box_blur");
            assert(builtin_id(40) == NodeTypeId::BOX_BLUR@);
            assert(NodeTypeId::EXTRACT_CHANNELS@.len() != NodeTypeId::BOX_BLUR@.len());
        } else if j == 41 {
            reveal_strlit("spatial_filters.gaussian_blur");
            assert(builtin_id(41) == NodeTypeId::GAUSSIAN_BLUR@);
            assert(NodeTypeId::EXTRACT_CHANNELS@.len() != NodeTypeId::GAUSSIAN_BLUR@.len());
        } else if j == 42 {
            reveal_strlit("spatial_filters.median_filter");
            assert(builtin_id(42) == NodeTypeId::MEDIAN_FILTER@);
            assert(NodeTypeId::EXTRACT_CHANNELS@.len() != NodeTypeId::MEDIAN_FILTER@.len());
        } else if j == 43 {
            reveal_strlit("spatial_filters.laplacian_filter");
            assert(builtin_id(43) == NodeTypeId::LAPLACIAN_FILTER@);
            assert(NodeTypeId::EXTRACT_CHANNELS@.len() != NodeTypeId::LAPLACIAN_FILTER@.len());
        } else if j == 44 {
            reveal_strlit("generators.spectrum_analyzer");
            assert(builtin_id(44) == NodeTypeId::SPECTRUM_ANALYZER@);
            assert(NodeTypeId::EXTRACT_CHANNELS@.len() != NodeTypeId::SPECTRUM_ANALYZER@.len());
        } else if j == 45 {
            reveal_strlit("generators.solid_frame");
            assert(builtin_id(45) == NodeTypeId::SOLID_FRAME@);
            assert(NodeTypeId::EXTRACT_CHANNELS@.len() != NodeTypeId::SOLID_FRAME@.len());
        } else if j == 46 {
            reveal_strlit("generators.rainbow_sweep");
            assert(builtin_id(46) == NodeTypeId::RAINBOW_SWEEP@);
            assert(NodeTypeId::EXTRACT_CHANNELS@.len() != NodeTypeId::RAINBOW_SWEEP@.len());
        } else if j == 47 {
            reveal_strlit("generators.circle_sweep");
            assert(builtin_id(47) == NodeTypeId::CIRCLE_SWEEP@);
            assert(NodeTypeId::EXTRACT_CHANNELS@.len() != NodeTypeId::CIRCLE_SWEEP@.len());
        } else if j == 48 {
            reveal_strlit("generators.level_bar");
            assert(builtin_id(48) == NodeTypeId::LEVEL_BAR@);
            assert(NodeTypeId::EXTRACT_CHANNELS@.len() != NodeTypeId::LEVEL_BAR@.len());
        } else if j == 49 {
            reveal_strlit("generators.twinkle_stars");
            assert(builtin_id(49) == NodeTypeId::TWINKLE_STARS@);
            assert(NodeTypeId::EXTRACT_CHANNELS@.len() != NodeTypeId::TWINKLE_STARS@.len());
        } else if j == 50 {
            reveal_strlit("generators.plasma");
            assert(builtin_id(50) == NodeTypeId::PLASMA@);
            assert(NodeTypeId::EXTRACT_CHANNELS@.len() != NodeTypeId::PLASMA@.len());
        } else if j == 51 {
            reveal_strlit("generators.bouncing_balls");
            assert(builtin_id(51) == NodeTypeId::BOUNCING_BALLS@);
            assert(NodeTypeId::EXTRACT_CHANNELS@.len() != NodeTypeId::BOUNCING_BALLS@.len());
        } else if j == 52 {
            reveal_strlit("debug.wled_dummy_display");
            assert(builtin_id(52) == NodeTypeId::WLED_DUMMY_DISPLAY@);
            assert(NodeTypeId::EXTRACT_CHANNELS@.len() != NodeTypeId::WLED_DUMMY_DISPLAY@.len());
        } else if j == 53 {
            reveal_strlit("debug.type_debug");
            assert(builtin_id(53) == NodeTypeId::TYPE_DEBUG@);
            assert(NodeTypeId::EXTRACT_CHANNELS@.len() != NodeTypeId::TYPE_DEBUG@.len());
        } else if j == 54 {
            reveal_strlit("frame_operations.frame_brightness");
            assert(builtin_id(54) == NodeTypeId::FRAME_BRIGHTNESS@);
            assert(NodeTypeId::EXTRACT_CHANNELS@[17] != NodeTypeId::FRAME_BRIGHTNESS@[17]);
        }
    }
}

proof fn lemma_catalog_id_31_distinct()
    ensures
        forall|j: int| 31 < j < BUILTIN_NODE_COUNT ==> builtin_id(31) != #[trigger] builtin_id(j),
{
    reveal_strlit("frame_operations.set_channel");
    assert(builtin_id(31) == NodeTypeId::SET_CHANNEL@);
    assert forall|j: int| 31 < j < BUILTIN_NODE_COUNT implies builtin_id(31) != #[trigger] builtin_id(j) by {
        if j == 32 {
            reveal_strlit("frame_operations.colorize");
            assert(builtin_id(32) == NodeTypeId::COLORIZE@);
            assert(NodeTypeId::SET_CHANNEL@.len() != NodeTypeId::COLORIZE@.len());
        } else if j == 33 {
            reveal_strlit("frame_operations.mask_frame");
            assert(builtin_id(33) == NodeTypeId::MASK_FRAME@);
            assert(NodeTypeId::SET_CHANNEL@.len() != NodeTypeId::MASK_FRAME@.len());
        } else if j == 34 {
            reveal_strlit("frame_operations.mix");
            assert(builtin_id(34) == NodeTypeId::MIX_COLOR@);
            assert(NodeTypeId::SET_CHANNEL@.len() != NodeTypeId::MIX_COLOR@.len());
        } else if j == 35 {
            reveal_strlit("frame_operations.alpha_over");
            assert(builtin_id(35) == NodeTypeId::ALPHA_OVER@);
            assert(NodeTypeId::SET_CHANNEL@.len() != NodeTypeId::ALPHA_OVER@.len());
        } else if j == 36 {
            reveal_strlit("temporal_filters.fade");
            assert(builtin_id(36) == NodeTypeId::FADE@);
            assert(NodeTypeId::SET_CHANNEL@.len() != NodeTypeId::FADE@.len());
        } else if j == 37 {
            reveal_strlit("temporal_filters.integrate");
            assert(builtin_id(37) == NodeTypeId::INTEGRATE@);
            assert(NodeTypeId::SET_CHANNEL@.len() != NodeTypeId::INTEGRATE@.len());
        } else if j == 38 {
            reveal_strlit("temporal_filters.moving_average");
            assert(builtin_id(38) == NodeTypeId::MOVING_AVERAGE@);
            assert(NodeTypeId::SET_CHANNEL@.len() != NodeTypeId::MOVING_AVERAGE@.len());
        } else if j == 39 {
            reveal_strlit("temporal_filters.moving_median");
            assert(builtin_id(39) == NodeTypeId::MOVING_MEDIAN@);
            assert(NodeTypeId::SET_CHANNEL@.len() != NodeTypeId::MOVING_MEDIAN@.len());
        } else if j == 40 {
            reveal_strlit("spatial_filters.box_blur");
            assert(builtin_id(40) == NodeTypeId::BOX_BLUR@);
            assert(NodeTypeId::SET_CHANNEL@.len() != NodeTypeId::BOX_BLUR@.len());
        } else if j == 41 {
            reveal_strlit("spatial_filters.gaussian_blur");
            assert(builtin_id(41) == NodeTypeId::GAUSSIAN_BLUR@);
            assert(NodeTypeId::SET_CHANNEL@.len() != NodeTypeId::GAUSSIAN_BLUR@.len());
        } else if j == 42 {
            reveal_strlit("spatial_filters.median_filter");
            assert(builtin_id(42) == NodeTypeId::MEDIAN_FILTER@);
            assert(NodeTypeId::SET_CHANNEL@.len() != NodeTypeId::MEDIAN_FILTER@.len());
        } else if j == 43 {
            reveal_strlit("spatial_filters.laplacian_filter");
            assert(builtin_id(43) == NodeTypeId::LAPLACIAN_FILTER@);
            assert(NodeTypeId::SET_CHANNEL@.len() != NodeTypeId::LAPLACIAN_FILTER@.len());
        } else if j == 44 {
            reveal_strlit("generators.spectrum_analyzer");
            assert(builtin_id(44) == NodeTypeId::SPECTRUM_ANALYZER@);
            assert(NodeTypeId::SET_CHANNEL@[0] != NodeTypeId::SPECTRUM_ANALYZER@[0]);
        } else if j == 45 {
            reveal_strlit("generators.solid_frame");
            assert(builtin_id(45) == NodeTypeId::SOLID_FRAME@);
            assert(NodeTypeId::SET_CHANNEL@.len() != NodeTypeId::SOLID_FRAME@.len());
        } else if j == 46 {
            reveal_strlit("generators.rainbow_sweep");
            assert(builtin_id(46) == NodeTypeId::RAINBOW_SWEEP@);
            assert(NodeTypeId::SET_CHANNEL@.len() != NodeTypeId::RAINBOW_SWEEP@.len());
        } else if j == 47 {
            reveal_strlit("generators.circle_sweep");
            assert(builtin_id(47) == NodeTypeId::CIRCLE_SWEEP@);
            assert(NodeTypeId::SET_CHANNEL@.len() != NodeTypeId::CIRCLE_SWEEP@.len());
        } else if j == 48 {
            reveal_strlit("generators.level_bar");
            assert(builtin_id(48) == NodeTypeId::LEVEL_BAR@);
            assert(NodeTypeId::SET_CHANNEL@.len() != NodeTypeId::LEVEL_BAR@.len());
        } else if j == 49 {
            reveal_strlit("generators.twinkle_stars");
            assert(builtin_id(49) == NodeTypeId::TWINKLE_STARS@);
            assert(NodeTypeId::SET_CHANNEL@.len() != NodeTypeId::TWINKLE_STARS@.len());
        } else if j == 50 {
            reveal_strlit("generators.plasma");
            assert(builtin_id(50) == NodeTypeId::PLASMA@);
            assert(NodeTypeId::SET_CHANNEL@.len() != NodeTypeId::PLASMA@.len());
        } else if j == 51 {
            reveal_strlit("generators.bouncing_balls");
            assert(builtin_id(51) == NodeTypeId::BOUNCING_BALLS@);
            assert(NodeTypeId::SET_CHANNEL@.len() != NodeTypeId::BOUNCING_BALLS@.len());
        } else if j == 52 {
            reveal_strlit("debug.wled_dummy_display");
            assert(builtin_id(52) == NodeTypeId::WLED_DUMMY_DISPLAY@);
            assert(NodeTypeId::SET_CHANNEL@.len() != NodeTypeId::WLED_DUMMY_DISPLAY@.len());
        } else if j == 53 {
            reveal_strlit("debug.type_debug");
            assert(builtin_id(53) == NodeTypeId::TYPE_DEBUG@);
            assert(NodeTypeId::SET_CHANNEL@.len() != NodeTypeId::TYPE_DEBUG@.len());
        } else if j == 54 {
            reveal_strlit("frame_operations.frame_brightness");
            assert(builtin_id(54) == NodeTypeId::FRAME_BRIGHTNESS@);
            assert(NodeTypeId::SET_CHANNEL@.len() != NodeTypeId::FRAME_BRIGHTNESS@.len());
        }
    }
}

proof fn lemma_catalog_id_32_distinct()
    ensures
        forall|j: int| 32 < j < BUILTIN_NODE_COUNT ==> builtin_id(32) != #[trigger] builtin_id(j),
{
    reveal_strlit("frame_operations.colorize");
    assert(builtin_id(32) == NodeTypeId::COLORIZE@);
    assert forall|j: int| 32 < j < BUILTIN_NODE_COUNT implies builtin_id(32) != #[trigger] builtin_id(j) by {
        if j == 33 {
            reveal_strlit("frame_operations.mask_frame");
            assert(builtin_id(33) == NodeTypeId::MASK_FRAME@);
            assert(NodeTypeId::COLORIZE@.len() != NodeTypeId::MASK_FRAME@.len());
        } else if j == 34 {
            reveal_strlit("frame_operations.mix");
            assert(builtin_id(34) == NodeTypeId::MIX_COLOR@);
            assert(NodeTypeId::COLORIZE@.len() != NodeTypeId::MIX_COLOR@.len());
        } else if j == 35 {
            reveal_strlit("frame_operations.alpha_over");
            assert(builtin_id(35) == NodeTypeId::ALPHA_OVER@);
            assert(NodeTypeId::COLORIZE@.len() != NodeTypeId::ALPHA_OVER@.len());
        } else if j == 36 {
            reveal_strlit("temporal_filters.fade");
            assert(builtin_id(36) == NodeTypeId::FADE@);
            assert(NodeTypeId::COLORIZE@.len() != NodeTypeId::FADE@.len());
        } else if j == 37 {
            reveal_strlit("temporal_filters.integrate");
            assert(builtin_id(37) == NodeTypeId::INTEGRATE@);
            assert(NodeTypeId::COLORIZE@.len() != NodeTypeId::INTEGRATE@.len());
        } else if j == 38 {
            reveal_strlit("temporal_filters.moving_average");
            assert(builtin_id(38) == NodeTypeId::MOVING_AVERAGE@);
            assert(NodeTypeId::COLORIZE@.len() != NodeTypeId::MOVING_AVERAGE@.len());
        } else if j == 39 {
            reveal_strlit("temporal_filters.moving_median");
            assert(builtin_id(39) == NodeTypeId::MOVING_MEDIAN@);
            assert(NodeTypeId::COLORIZE@.len() != NodeTypeId::MOVING_MEDIAN@.len());
        } else if j == 40 {
            reveal_strlit("spatial_filters.box_blur");
            assert(builtin_id(40) == NodeTypeId::BOX_BLUR@);
            assert(NodeTypeId::COLORIZE@.len() != NodeTypeId::BOX_BLUR@.len());
        } else if j == 41 {
            reveal_strlit("spatial_filters.gaussian_blur");
            assert(builtin_id(41) == NodeTypeId::GAUSSIAN_BLUR@);
            assert(NodeTypeId::COLORIZE@.len() != NodeTypeId::GAUSSIAN_BLUR@.len());
        } else if j == 42 {
            reveal_strlit("spatial_filters.median_filter");
            assert(builtin_id(42) == NodeTypeId::MEDIAN_FILTER@);
            assert(NodeTypeId::COLORIZE@.len() != NodeTypeId::MEDIAN_FILTER@.len());
        } else if j == 43 {
            reveal_strlit("spatial_filters.laplacian_filter");
            assert(builtin_id(43) == NodeTypeId::LAPLACIAN_FILTER@);
            assert(NodeTypeId::COLORIZE@.len() != NodeTypeId::LAPLACIAN_FILTER@.len());
        } else if j == 44 {
            reveal_strlit("generators.spectrum_analyzer");
            assert(builtin_id(44) == NodeTypeId::SPECTRUM_ANALYZER@);
            assert(NodeTypeId::COLORIZE@.len() != NodeTypeId::SPECTRUM_ANALYZER@.len());
        } else if j == 45 {
            reveal_strlit("generators.solid_frame");
            assert(builtin_id(45) == NodeTypeId::SOLID_FRAME@);
            assert(NodeTypeId::COLORIZE@.len() != NodeTypeId::SOLID_FRAME@.len());
        } else if j == 46 {
            reveal_strlit("generators.rainbow_sweep");
            assert(builtin_id(46) == NodeTypeId::RAINBOW_SWEEP@);
            assert(NodeTypeId::COLORIZE@.len() != NodeTypeId::RAINBOW_SWEEP@.len());
        } else if j == 47 {
            reveal_strlit("generators.circle_sweep");
            assert(builtin_id(47) == NodeTypeId::CIRCLE_SWEEP@);
            assert(NodeTypeId::COLORIZE@.len() != NodeTypeId::CIRCLE_SWEEP@.len());
        } else if j == 48 {
            reveal_strlit("generators.level_bar");
            assert(builtin_id(48) == NodeTypeId::LEVEL_BAR@);
            assert(NodeTypeId::COLORIZE@.len() != NodeTypeId::LEVEL_BAR@.len());
        } else if j == 49 {
            reveal_strlit("generators.twinkle_stars");
            assert(builtin_id(49) == NodeTypeId::TWINKLE_STARS@);
            assert(NodeTypeId::COLORIZE@.len() != NodeTypeId::TWINKLE_STARS@.len());
        } else if j == 50 {
            reveal_strlit("generators.plasma");
            assert(builtin_id(50) == NodeTypeId::PLASMA@);
            assert(NodeTypeId::COLORIZE@.len() != NodeTypeId::PLASMA@.len());
        } else if j == 51 {
            reveal_strlit("generators.bouncing_balls");
            assert(builtin_id(51) == NodeTypeId::BOUNCING_BALLS@);
            assert(NodeTypeId::COLORIZE@[0] != NodeTypeId::BOUNCING_BALLS@[0]);
        } else if j == 52 {
            reveal_strlit("debug.wled_dummy_display");
            assert(builtin_id(52) == NodeTypeId::WLED_DUMMY_DISPLAY@);
            assert(NodeTypeId::COLORIZE@.len() != NodeTypeId::WLED_DUMMY_DISPLAY@.len());
        } else if j == 53 {
            reveal_strlit("debug.type_debug");
            assert(builtin_id(53) == NodeTypeId::TYPE_DEBUG@);
            assert(NodeTypeId::COLORIZE@.len() != NodeTypeId::TYPE_DEBUG@.len());
        } else if j == 54 {
            reveal_strlit("frame_operations.frame_brightness");
            assert(builtin_id(54) == NodeTypeId::FRAME_BRIGHTNESS@);
            assert(NodeTypeId::COLORIZE@.len() != NodeTypeId::FRAME_BRIGHTNESS@.len());
        }
    }
}

proof fn lemma_catalog_id_33_distinct()
    ensures
        forall|j: int| 33 < j < BUILTIN_NODE_COUNT ==> builtin_id(33) != #[trigger] builtin_id(j),
{
    reveal_strlit("frame_operations.mask_frame");
    assert(builtin_id(33) == NodeTypeId::MASK_FRAME@);
    assert forall|j: int| 33 < j < BUILTIN_NODE_COUNT implies builtin_id(33) != #[trigger] builtin_id(j) by {
        if j == 34 {
            reveal_strlit("frame_operations.mix");
            assert(builtin_id(34) == NodeTypeId::MIX_COLOR@);
            assert(NodeTypeId::MASK_FRAME@.len() != NodeTypeId::MIX_COLOR@.len());
        } else if j == 35 {
            reveal_strlit("frame_operations.alpha_over");
            assert(builtin_id(35) == NodeTypeId::ALPHA_OVER@);
            assert(NodeTypeId::MASK_FRAME@[17] != NodeTypeId::ALPHA_OVER@[17]);
        } else if j == 36 {
            reveal_strlit("temporal_filters.fade");
            assert(builtin_id(36) == NodeTypeId::FADE@);
            assert(NodeTypeId::MASK_FRAME@.len() != NodeTypeId::FADE@.len());
        } else if j == 37 {
            reveal_strlit("temporal_filters.integrate");
            assert(builtin_id(37) == NodeTypeId::INTEGRATE@);
            assert(NodeTypeId::MASK_FRAME@.len() != NodeTypeId::INTEGRATE@.len());
        } else if j == 38 {
            reveal_strlit("temporal_filters.moving_average");
            assert(builtin_id(38) == NodeTypeId::MOVING_AVERAGE@);
            assert(NodeTypeId::MASK_FRAME@.len() != NodeTypeId::MOVING_AVERAGE@.len());
        } else if j == 39 {
            reveal_strlit("temporal_filters.moving_median");
            assert(builtin_id(39) == NodeTypeId::MOVING_MEDIAN@);
            assert(NodeTypeId::MASK_FRAME@.len() != NodeTypeId::MOVING_MEDIAN@.len());
        } else if j == 40 {
            reveal_strlit("spatial_filters.box_blur");
            assert(builtin_id(40) == NodeTypeId::BOX_BLUR@);
            assert(NodeTypeId::MASK_FRAME@.len() != NodeTypeId::BOX_BLUR@.len());
        } else if j == 41 {
            reveal_strlit("spatial_filters.gaussian_blur");
            assert(builtin_id(41) == NodeTypeId::GAUSSIAN_BLUR@);
            assert(NodeTypeId::MASK_FRAME@.len() != NodeTypeId::GAUSSIAN_BLUR@.len());
        } else if j == 42 {
            reveal_strlit("spatial_filters.median_filter");
            assert(builtin_id(42) == NodeTypeId::MEDIAN_FILTER@);
            assert(NodeTypeId::MASK_FRAME@.len() != NodeTypeId::MEDIAN_FILTER@.len());
        } else if j == 43 {
            reveal_strlit("spatial_filters.laplacian_filter");
            assert(builtin_id(43) == NodeTypeId::LAPLACIAN_FILTER@);
            assert(NodeTypeId::MASK_FRAME@.len() != NodeTypeId::LAPLACIAN_FILTER@.len());
        } else if j == 44 {
            reveal_strlit("generators.spectrum_analyzer");
            assert(builtin_id(44) == NodeTypeId::SPECTRUM_ANALYZER@);
            assert(NodeTypeId::MASK_FRAME@.len() != NodeTypeId::SPECTRUM_ANALYZER@.len());
        } else if j == 45 {
            reveal_strlit("generators.solid_frame");
            assert(builtin_id(45) == NodeTypeId::SOLID_FRAME@);
            assert(NodeTypeId::MASK_FRAME@.len() != NodeTypeId::SOLID_FRAME@.len());
        } else if j == 46 {
            reveal_strlit("generators.rainbow_sweep");
            assert(builtin_id(46) == NodeTypeId::RAINBOW_SWEEP@);
            assert(NodeTypeId::MASK_FRAME@.len() != NodeTypeId::RAINBOW_SWEEP@.len());
        } else if j == 47 {
            reveal_strlit("generators.circle_sweep");
            assert(builtin_id(47) == NodeTypeId::CIRCLE_SWEEP@);
            assert(NodeTypeId::MASK_FRAME@.len() != NodeTypeId::CIRCLE_SWEEP@.len());
        } else if j == 48 {
            reveal_strlit("generators.level_bar");
            assert(builtin_id(48) == NodeTypeId::LEVEL_BAR@);
            assert(NodeTypeId::MASK_FRAME@.len() != NodeTypeId::LEVEL_BAR@.len());
        } else if j == 49 {
            reveal_strlit("generators.twinkle_stars");
            assert(builtin_id(49) == NodeTypeId::TWINKLE_STARS@);
            assert(NodeTypeId::MASK_FRAME@.len() != NodeTypeId::TWINKLE_STARS@.len());
        } else if j == 50 {
            reveal_strlit("generators.plasma");
            assert(builtin_id(50) == NodeTypeId::PLASMA@);
            assert(NodeTypeId::MASK_FRAME@.len() != NodeTypeId::PLASMA@.len());
        } else if j == 51 {
            reveal_strlit("generators.bouncing_balls");
            assert(builtin_id(51) == NodeTypeId::BOUNCING_BALLS@);
            assert(NodeTypeId::MASK_FRAME@.len() != NodeTypeId::BOUNCING_BALLS@.len());
        } else if j == 52 {
            reveal_strlit("debug.wled_dummy_display");
            assert(builtin_id(52) == NodeTypeId::WLED_DUMMY_DISPLAY@);
            assert(NodeTypeId::MASK_FRAME@.len() != NodeTypeId::WLED_DUMMY_DISPLAY@.len());
        } else if j == 53 {
            reveal_strlit("debug.type_debug");
            assert(builtin_id(53) == NodeTypeId::TYPE_DEBUG@);
            assert(NodeTypeId::MASK_FRAME@.len() != NodeTypeId::TYPE_DEBUG@.len());
        } else if j == 54 {
            reveal_strlit("frame_operations.frame_brightness");
            assert(builtin_id(54) == NodeTypeId::FRAME_BRIGHTNESS@);
            assert(NodeTypeId::MASK_FRAME@.len() != NodeTypeId::FRAME_BRIGHTNESS@.len());
        }
    }
}

proof fn lemma_catalog_id_34_distinct()
    ensures
        forall|j: int| 34 < j < BUILTIN_NODE_COUNT ==> builtin_id(34) != #[trigger] builtin_id(j),
{
    reveal_strlit("frame_operations.mix");
    assert(builtin_id(34) == NodeTypeId::MIX_COLOR@);
    assert forall|j: int| 34 < j < BUILTIN_NODE_COUNT implies builtin_id(34) != #[trigger] builtin_id(j) by {
        if j == 35 {
            reveal_strlit("frame_operations.alpha_over");
            assert(builtin_id(35) == NodeTypeId::ALPHA_OVER@);
            assert(NodeTypeId::MIX_COLOR@.len() != NodeTypeId::ALPHA_OVER@.len());
        } else if j == 36 {
            reveal_strlit("temporal_filters.fade");
            assert(builtin_id(36) == NodeTypeId::FADE@);
            assert(NodeTypeId::MIX_COLOR@.len() != NodeTypeId::FADE@.len());
        } else if j == 37 {
            reveal_strlit("temporal_filters.integrate");
            assert(builtin_id(37) == NodeTypeId::INTEGRATE@);
            assert(NodeTypeId::MIX_COLOR@.len() != NodeTypeId::INTEGRATE@.len());
        } else if j == 38 {
            reveal_strlit("temporal_filters.moving_average");
            assert(builtin_id(38) == NodeTypeId::MOVING_AVERAGE@);
            assert(NodeTypeId::MIX_COLOR@.len() != NodeTypeId::MOVING_AVERAGE@.len());
        } else if j == 39 {
            reveal_strlit("temporal_filters.moving_median");
            assert(builtin_id(39) == NodeTypeId::MOVING_MEDIAN@);
            assert(NodeTypeId::MIX_COLOR@.len() != NodeTypeId::MOVING_MEDIAN@.len());
        } else if j == 40 {
            reveal_strlit("spatial_filters.box_blur");
            assert(builtin_id(40) == NodeTypeId::BOX_BLUR@);
            assert(NodeTypeId::MIX_COLOR@.len() != NodeTypeId::BOX_BLUR@.len());
        } else if j == 41 {
            reveal_strlit("spatial_filters.gaussian_blur");
            assert(builtin_id(41) == NodeTypeId::GAUSSIAN_BLUR@);
            assert(NodeTypeId::MIX_COLOR@.len() != NodeTypeId::GAUSSIAN_BLUR@.len());
        } else if j == 42 {
            reveal_strlit("spatial_filters.median_filter");
            assert(builtin_id(42) == NodeTypeId::MEDIAN_FILTER@);
            assert(NodeTypeId::MIX_COLOR@.len() != NodeTypeId::MEDIAN_FILTER@.len());
        } else if j == 43 {
            reveal_strlit("spatial_filters.laplacian_filter");
            assert(builtin_id(43) == NodeTypeId::LAPLACIAN_FILTER@);
            assert(NodeTypeId::MIX_COLOR@.len() != NodeTypeId::LAPLACIAN_FILTER@.len());
        } else if j == 44 {
            reveal_strlit("generators.spectrum_analyzer");
            assert(builtin_id(44) == NodeTypeId::SPECTRUM_ANALYZER@);
            assert(NodeTypeId::MIX_COLOR@.len() != NodeTypeId::SPECTRUM_ANALYZER@.len());
        } else if j == 45 {
            reveal_strlit("generators.solid_frame");
            assert(builtin_id(45) == NodeTypeId::SOLID_FRAME@);
            assert(NodeTypeId::MIX_COLOR@.len() != NodeTypeId::SOLID_FRAME@.len());
        } else if j == 46 {
            reveal_strlit("generators.rainbow_sweep");
            assert(builtin_id(46) == NodeTypeId::RAINBOW_SWEEP@);
            assert(NodeTypeId::MIX_COLOR@.len() != NodeTypeId::RAINBOW_SWEEP@.len());
        } else if j == 47 {
            reveal_strlit("generators.circle_sweep");
            assert(builtin_id(47) == NodeTypeId::CIRCLE_SWEEP@);
            assert(NodeTypeId::MIX_COLOR@.len() != NodeTypeId::CIRCLE_SWEEP@.len());
        } else if j == 48 {
            reveal_strlit("generators.level_bar");
            assert(builtin_id(48) == NodeTypeId::LEVEL_BAR@);
            assert(NodeTypeId::MIX_COLOR@[0] != NodeTypeId::LEVEL_BAR@[0]);
        } else if j == 49 {
            reveal_strlit("generators.twinkle_stars");
            assert(builtin_id(49) == NodeTypeId::TWINKLE_STARS@);
            assert(NodeTypeId::MIX_COLOR@.len() != NodeTypeId::TWINKLE_STARS@.len());
        } else if j == 50 {
            reveal_strlit("generators.plasma");
            assert(builtin_id(50) == NodeTypeId::PLASMA@);
            assert(NodeTypeId::MIX_COLOR@.len() != NodeTypeId::PLASMA@.len());
        } else if j == 51 {
            reveal_strlit("generators.bouncing_balls");
            assert(builtin_id(51) == NodeTypeId::BOUNCING_BALLS@);
            assert(NodeTypeId::MIX_COLOR@.len() != NodeTypeId::BOUNCING_BALLS@.len());
        } else if j == 52 {
            reveal_strlit("debug.wled_dummy_display");
            assert(builtin_id(52) == NodeTypeId::WLED_DUMMY_DISPLAY@);
            assert(NodeTypeId::MIX_COLOR@.len() != NodeTypeId::WLED_DUMMY_DISPLAY@.len());
        } else if j == 53 {
            reveal_strlit("debug.type_debug");
            assert(builtin_id(53) == NodeTypeId::TYPE_DEBUG@);
            assert(NodeTypeId::MIX_COLOR@.len() != NodeTypeId::TYPE_DEBUG@.len());
        } else if j == 54 {
            reveal_strlit("frame_operations.frame_brightness");
            assert(builtin_id(54) == NodeTypeId::FRAME_BRIGHTNESS@);
            assert(NodeTypeId::MIX_COLOR@.len() != NodeTypeId::FRAME_BRIGHTNESS@.len());
        }
    }
}

proof fn lemma_catalog_id_35_distinct()
    ensures
        forall|j: int| 35 < j < BUILTIN_NODE_COUNT ==> builtin_id(35) != #[trigger] builtin_id(j),
{
    reveal_strlit("frame_operations.alpha_over");
    assert(builtin_id(35) == NodeTypeId::ALPHA_OVER@);
    assert forall|j: int| 35 < j < BUILTIN_NODE_COUNT implies builtin_id(35) != #[trigger] builtin_id(j) by {
        if j == 36 {
            reveal_strlit("temporal_filters.fade");
            assert(builtin_id(36) == NodeTypeId::FADE@);
            assert(NodeTypeId::ALPHA_OVER@.len() != NodeTypeId::FADE@.len());
        } else if j == 37 {
            reveal_strlit("temporal_filters.integrate");
            assert(builtin_id(37) == NodeTypeId::INTEGRATE@);
            assert(NodeTypeId::ALPHA_OVER@.len() != NodeTypeId::INTEGRATE@.len());
        } else if j == 38 {
            reveal_strlit("temporal_filters.moving_average");
            assert(builtin_id(38) == NodeTypeId::MOVING_AVERAGE@);
            assert(NodeTypeId::ALPHA_OVER@.len() != NodeTypeId::MOVING_AVERAGE@.len());
        } else if j == 39 {
            reveal_strlit("temporal_filters.moving_median");
            assert(builtin_id(39) == NodeTypeId::MOVING_MEDIAN@);
            assert(NodeTypeId::ALPHA_OVER@.len() != NodeTypeId::MOVING_MEDIAN@.len());
        } else if j == 40 {
            reveal_strlit("spatial_filters.box_blur");
            assert(builtin_id(40) == NodeTypeId::BOX_BLUR@);
            assert(NodeTypeId::ALPHA_OVER@.len() != NodeTypeId::BOX_BLUR@.len());
        } else if j == 41 {
            reveal_strlit("spatial_filters.gaussian_blur");
            assert(builtin_id(41) == NodeTypeId::GAUSSIAN_BLUR@);
            assert(NodeTypeId::ALPHA_OVER@.len() != NodeTypeId::GAUSSIAN_BLUR@.len());
        } else if j == 42 {
            reveal_strlit("spatial_filters.median_filter");
            assert(builtin_id(42) == NodeTypeId::MEDIAN_FILTER@);
            assert(NodeTypeId::ALPHA_OVER@.len() != NodeTypeId::MEDIAN_FILTER@.len());
        } else if j == 43 {
            reveal_strlit("spatial_filters.laplacian_filter");
            assert(builtin_id(43) == NodeTypeId::LAPLACIAN_FILTER@);
            assert(NodeTypeId::ALPHA_OVER@.len() != NodeTypeId::LAPLACIAN_FILTER@.len());
        } else if j == 44 {
            reveal_strlit("generators.spectrum_analyzer");
            assert(builtin_id(44) == NodeTypeId::SPECTRUM_ANALYZER@);
            assert(NodeTypeId::ALPHA_OVER@.len() != NodeTypeId::SPECTRUM_ANALYZER@.len());
        } else if j == 45 {
            reveal_strlit("generators.solid_frame");
            assert(builtin_id(45) == NodeTypeId::SOLID_FRAME@);
            assert(NodeTypeId::ALPHA_OVER@.len() != NodeTypeId::SOLID_FRAME@.len());
        } else if j == 46 {
            reveal_strlit("generators.rainbow_sweep");
            assert(builtin_id(46) == NodeTypeId::RAINBOW_SWEEP@);
            assert(NodeTypeId::ALPHA_OVER@.len() != NodeTypeId::RAINBOW_SWEEP@.len());
        } else if j == 47 {
            reveal_strlit("generators.circle_sweep");
            assert(builtin_id(47) == NodeTypeId::CIRCLE_SWEEP@);
            assert(NodeTypeId::ALPHA_OVER@.len() != NodeTypeId::CIRCLE_SWEEP@.len());
        } else if j == 48 {
            reveal_strlit("generators.level_bar");
            assert(builtin_id(48) == NodeTypeId::LEVEL_BAR@);
            assert(NodeTypeId::ALPHA_OVER@.len() != NodeTypeId::LEVEL_BAR@.len());
        } else if j == 49 {
            reveal_strlit("generators.twinkle_stars");
            assert(builtin_id(49) == NodeTypeId::TWINKLE_STARS@);
            assert(NodeTypeId::ALPHA_OVER@.len() != NodeTypeId::TWINKLE_STARS@.len());
        } else if j == 50 {
            reveal_strlit("generators.plasma");
            assert(builtin_id(50) == NodeTypeId::PLASMA@);
            assert(NodeTypeId::ALPHA_OVER@.len() != NodeTypeId::PLASMA@.len());
        } else if j == 51 {
            reveal_strlit("generators.bouncing_balls");
            assert(builtin_id(51) == NodeTypeId::BOUNCING_BALLS@);
            assert(NodeTypeId::ALPHA_OVER@.len() != NodeTypeId::BOUNCING_BALLS@.len());
        } else if j == 52 {
            reveal_strlit("debug.wled_dummy_display");
            assert(builtin_id(52) == NodeTypeId::WLED_DUMMY_DISPLAY@);
            assert(NodeTypeId::ALPHA_OVER@.len() != NodeTypeId::WLED_DUMMY_DISPLAY@.len());
        } else if j == 53 {
            reveal_strlit("debug.type_debug");
            assert(builtin_id(53) == NodeTypeId::TYPE_DEBUG@);
            assert(NodeTypeId::ALPHA_OVER@.len() != NodeTypeId::TYPE_DEBUG@.len());
        } else if j == 54 {
            reveal_strlit("frame_operations.frame_brightness");
            assert(builtin_id(54) == NodeTypeId::FRAME_BRIGHTNESS@);
            assert(NodeTypeId::ALPHA_OVER@.len() != NodeTypeId::FRAME_BRIGHTNESS@.len());
        }
    }
}

proof fn lemma_catalog_id_36_distinct()
    ensures
        forall|j: int| 36 < j < BUILTIN_NODE_COUNT ==> builtin_id(36) != #[trigger] builtin_id(j),
{
    reveal_strlit("temporal_filters.fade");
    assert(builtin_id(36) == NodeTypeId::FADE@);
    assert forall|j: int| 36 < j < BUILTIN_NODE_COUNT implies builtin_id(36) != #[trigger] builtin_id(j) by {
        if j == 37 {
            reveal_strlit("temporal_filters.integrate");
            assert(builtin_id(37) == NodeTypeId::INTEGRATE@);
            assert(NodeTypeId::FADE@.len() != NodeTypeId::INTEGRATE@.len());
        } else if j == 38 {
            reveal_strlit("temporal_filters.moving_average");
            assert(builtin_id(38) == NodeTypeId::MOVING_AVERAGE@);
            assert(NodeTypeId::FADE@.len() != NodeTypeId::MOVING_AVERAGE@.len());
        } else if j == 39 {
            reveal_strlit("temporal_filters.moving_median");
            assert(builtin_id(39) == NodeTypeId::MOVING_MEDIAN@);
            assert(NodeTypeId::FADE@.len() != NodeTypeId::MOVING_MEDIAN@.len());
        } else if j == 40 {
            reveal_strlit("spatial_filters.box_blur");
            assert(builtin_id(40) == NodeTypeId::BOX_BLUR@);
            assert(NodeTypeId::FADE@.len() != NodeTypeId::BOX_BLUR@.len());
        } else if j == 41 {
            reveal_strlit("spatial_filters.gaussian_blur");
            assert(builtin_id(41) == NodeTypeId::GAUSSIAN_BLUR@);
            assert(NodeTypeId::FADE@.len() != NodeTypeId::GAUSSIAN_BLUR@.len());
        } else if j == 42 {
            reveal_strlit("spatial_filters.median_filter");
            assert(builtin_id(42) == NodeTypeId::MEDIAN_FILTER@);
            assert(NodeTypeId::FADE@.len() != NodeTypeId::MEDIAN_FILTER@.len());
        } else if j == 43 {
            reveal_strlit("spatial_filters.laplacian_filter");
            assert(builtin_id(43) == NodeTypeId::LAPLACIAN_FILTER@);
            assert(NodeTypeId::FADE@.len() != NodeTypeId::LAPLACIAN_FILTER@.len());
        } else if j == 44 {
            reveal_strlit("generators.spectrum_analyzer");
            assert(builtin_id(44) == NodeTypeId::SPECTRUM_ANALYZER@);
            assert(NodeTypeId::FADE@.len() != NodeTypeId::SPECTRUM_ANALYZER@.len());
        } else if j == 45 {
            reveal_strlit("generators.solid_frame");
            assert(builtin_id(45) == NodeTypeId::SOLID_FRAME@);
            assert(NodeTypeId::FADE@.len() != NodeTypeId::SOLID_FRAME@.len());
        } else if j == 46 {
            reveal_strlit("generators.rainbow_sweep");
            assert(builtin_id(46) == NodeTypeId::RAINBOW_SWEEP@);
            assert(NodeTypeId::FADE@.len() != NodeTypeId::RAINBOW_SWEEP@.len());
        } else if j == 47 {
            reveal_strlit("generators.circle_sweep");
            assert(builtin_id(47) == NodeTypeId::CIRCLE_SWEEP@);
            assert(NodeTypeId::FADE@.len() != NodeTypeId::CIRCLE_SWEEP@.len());
        } else if j == 48 {
            reveal_strlit("generators.level_bar");
            assert(builtin_id(48) == NodeTypeId::LEVEL_BAR@);
            assert(NodeTypeId::FADE@.len() != NodeTypeId::LEVEL_BAR@.len());
        } else if j == 49 {
            reveal_strlit("generators.twinkle_stars");
            assert(builtin_id(49) == NodeTypeId::TWINKLE_STARS@);
            assert(NodeTypeId::FADE@.len() != NodeTypeId::TWINKLE_STARS@.len());
        } else if j == 50 {
            reveal_strlit("generators.plasma");
            assert(builtin_id(50) == NodeTypeId::PLASMA@);
            assert(NodeTypeId::FADE@.len() != NodeTypeId::PLASMA@.len());
        } else if j == 51 {
            reveal_strlit("generators.bouncing_balls");
            assert(builtin_id(51) == NodeTypeId::BOUNCING_BALLS@);
            assert(NodeTypeId::FADE@.len() != NodeTypeId::BOUNCING_BALLS@.len());
        } else if j == 52 {
            reveal_strlit("debug.wled_dummy_display");
            assert(builtin_id(52) == NodeTypeId::WLED_DUMMY_DISPLAY@);
            assert(NodeTypeId::FADE@.len() != NodeTypeId::WLED_DUMMY_DISPLAY@.len());
        } else if j == 53 {
            reveal_strlit("debug.type_debug");
            assert(builtin_id(53) == NodeTypeId::TYPE_DEBUG@);
            assert(NodeTypeId::FADE@.len() != NodeTypeId::TYPE_DEBUG@.len());
        } else if j == 54 {
            reveal_strlit("frame_operations.frame_brightness");
            assert(builtin_id(54) == NodeTypeId::FRAME_BRIGHTNESS@);
            assert(NodeTypeId::FADE@.len() != NodeTypeId::FRAME_BRIGHTNESS@.len());
        }
    }
}

proof fn lemma_catalog_id_37_distinct()
    ensures
        forall|j: int| 37 < j < BUILTIN_NODE_COUNT ==> builtin_id(37) != #[trigger] builtin_id(j),
{
    reveal_strlit("temporal_filters.integrate");
    assert(builtin_id(37) == NodeTypeId::INTEGRATE@);
    assert forall|j: int| 37 < j < BUILTIN_NODE_COUNT implies builtin_id(37) != #[trigger] builtin_id(j) by {
        if j == 38 {
            reveal_strlit("temporal_filters.moving_average");
            assert(builtin_id(38) == NodeTypeId::MOVING_AVERAGE@);
            assert(NodeTypeId::INTEGRATE@.len() != NodeTypeId::MOVING_AVERAGE@.len());
        } else if j == 39 {
            reveal_strlit("temporal_filters.moving_median");
            assert(builtin_id(39) == NodeTypeId::MOVING_MEDIAN@);
            assert(NodeTypeId::INTEGRATE@.len() != NodeTypeId::MOVING_MEDIAN@.len());
        } else if j == 40 {
            reveal_strlit("spatial_filters.box_blur");
            assert(builtin_id(40) == NodeTypeId::BOX_BLUR@);
            assert(NodeTypeId::INTEGRATE@.len() != NodeTypeId::BOX_BLUR@.len());
        } else if j == 41 {
            reveal_strlit("spatial_filters.gaussian_blur");
            assert(builtin_id(41) == NodeTypeId::GAUSSIAN_BLUR@);
            assert(NodeTypeId::INTEGRATE@.len() != NodeTypeId::GAUSSIAN_BLUR@.len());
        } else if j == 42 {
            reveal_strlit("spatial_filters.median_filter");
            assert(builtin_id(42) == NodeTypeId::MEDIAN_FILTER@);
            assert(NodeTypeId::INTEGRATE@.len() != NodeTypeId::MEDIAN_FILTER@.len());
        } else if j == 43 {
            reveal_strlit("spatial_filters.laplacian_filter");
            assert(builtin_id(43) == NodeTypeId::LAPLACIAN_FILTER@);
            assert(NodeTypeId::INTEGRATE@.len() != NodeTypeId::LAPLACIAN_FILTER@.len());
        } else if j == 44 {
            reveal_strlit("generators.spectrum_analyzer");
            assert(builtin_id(44) == NodeTypeId::SPECTRUM_ANALYZER@);
            assert(NodeTypeId::INTEGRATE@.len() != NodeTypeId::SPECTRUM_ANALYZER@.len());
        } else if j == 45 {
            reveal_strlit("generators.solid_frame");
            assert(builtin_id(45) == NodeTypeId::SOLID_FRAME@);
            assert(NodeTypeId::INTEGRATE@.len() != NodeTypeId::SOLID_FRAME@.len());
        } else if j == 46 {
            reveal_strlit("generators.rainbow_sweep");
            assert(builtin_id(46) == NodeTypeId::RAINBOW_SWEEP@);
            assert(NodeTypeId::INTEGRATE@.len() != NodeTypeId::RAINBOW_SWEEP@.len());
        } else if j == 47 {
            reveal_strlit("generators.circle_sweep");
            assert(builtin_id(47) == NodeTypeId::CIRCLE_SWEEP@);
            assert(NodeTypeId::INTEGRATE@.len() != NodeTypeId::CIRCLE_SWEEP@.len());
        } else if j == 48 {
            reveal_strlit("generators.level_bar");
            assert(builtin_id(48) == NodeTypeId::LEVEL_BAR@);
            assert(NodeTypeId::INTEGRATE@.len() != NodeTypeId::LEVEL_BAR@.len());
        } else if j == 49 {
            reveal_strlit("generators.twinkle_stars");
            assert(builtin_id(49) == NodeTypeId::TWINKLE_STARS@);
            assert(NodeTypeId::INTEGRATE@.len() != NodeTypeId::TWINKLE_STARS@.len());
        } else if j == 50 {
            reveal_strlit("generators.plasma");
            assert(builtin_id(50) == NodeTypeId::PLASMA@);
            assert(NodeTypeId::INTEGRATE@.len() != NodeTypeId::PLASMA@.len());
        } else if j == 51 {
            reveal_strlit("generators.bouncing_balls");
            assert(builtin_id(51) == NodeTypeId::BOUNCING_BALLS@);
            assert(NodeTypeId::INTEGRATE@.len() != NodeTypeId::BOUNCING_BALLS@.len());
        } else if j == 52 {
            reveal_strlit("debug.wled_dummy_display");
            assert(builtin_id(52) == NodeTypeId::WLED_DUMMY_DISPLAY@);
            assert(NodeTypeId::INTEGRATE@.len() != NodeTypeId::WLED_DUMMY_DISPLAY@.len());
        } else if j == 53 {
            reveal_strlit("debug.type_debug");
            assert(builtin_id(53) == NodeTypeId::TYPE_DEBUG@);
            assert(NodeTypeId::INTEGRATE@.len() != NodeTypeId::TYPE_DEBUG@.len());
        } else if j == 54 {
            reveal_strlit("frame_operations.frame_brightness");
            assert(builtin_id(54) == NodeTypeId::FRAME_BRIGHTNESS@);
            assert(NodeTypeId::INTEGRATE@.len() != NodeTypeId::FRAME_BRIGHTNESS@.len());
        }
    }
}

proof fn lemma_catalog_id_38_distinct()
    ensures
        forall|j: int| 38 < j < BUILTIN_NODE_COUNT ==> builtin_id(38) != #[trigger] builtin_id(j),
{
    reveal_strlit("temporal_filters.moving_average");
    assert(builtin_id(38) == NodeTypeId::MOVING_AVERAGE@);
    assert forall|j: int| 38 < j < BUILTIN_NODE_COUNT implies builtin_id(38) != #[trigger] builtin_id(j) by {
        if j == 39 {
            reveal_strlit("temporal_filters.moving_median");
            assert(builtin_id(39) == NodeTypeId::MOVING_MEDIAN@);
            assert(NodeTypeId::MOVING_AVERAGE@.len() != NodeTypeId::MOVING_MEDIAN@.len());
        } else if j == 40 {
            reveal_strlit("spatial_filters.box_blur");
            assert(builtin_id(40) == NodeTypeId::BOX_BLUR@);
            assert(NodeTypeId::MOVING_AVERAGE@.len() != NodeTypeId::BOX_BLUR@.len());
        } else if j == 41 {
            reveal_strlit("spatial_filters.gaussian_blur");
            assert(builtin_id(41) == NodeTypeId::GAUSSIAN_BLUR@);
            assert(NodeTypeId::MOVING_AVERAGE@.len() != NodeTypeId::GAUSSIAN_BLUR@.len());
        } else if j == 42 {
            reveal_strlit("spatial_filters.median_filter");
            assert(builtin_id(42) == NodeTypeId::MEDIAN_FILTER@);
            assert(NodeTypeId::MOVING_AVERAGE@.len() != NodeTypeId::MEDIAN_FILTER@.len());
        } else if j == 43 {
            reveal_strlit("spatial_filters.laplacian_filter");
            assert(builtin_id(43) == NodeTypeId::LAPLACIAN_FILTER@);
            assert(NodeTypeId::MOVING_AVERAGE@.len() != NodeTypeId::LAPLACIAN_FILTER@.len());
        } else if j == 44 {
            reveal_strlit("generators.spectrum_analyzer");
            assert(builtin_id(44) == NodeTypeId::SPECTRUM_ANALYZER@);
            assert(NodeTypeId::MOVING_AVERAGE@.len() != NodeTypeId::SPECTRUM_ANALYZER@.len());
        } else if j == 45 {
            reveal_strlit("generators.solid_frame");
            assert(builtin_id(45) == NodeTypeId::SOLID_FRAME@);
            assert(NodeTypeId::MOVING_AVERAGE@.len() != NodeTypeId::SOLID_FRAME@.len());
        } else if j == 46 {
            reveal_strlit("generators.rainbow_sweep");
            assert(builtin_id(46) == NodeTypeId::RAINBOW_SWEEP@);
            assert(NodeTypeId::MOVING_AVERAGE@.len() != NodeTypeId::RAINBOW_SWEEP@.len());
        } else if j == 47 {
            reveal_strlit("generators.circle_sweep");
            assert(builtin_id(47) == NodeTypeId::CIRCLE_SWEEP@);
            assert(NodeTypeId::MOVING_AVERAGE@.len() != NodeTypeId::CIRCLE_SWEEP@.len());
        } else if j == 48 {
            reveal_strlit("generators.level_bar");
            assert(builtin_id(48) == NodeTypeId::LEVEL_BAR@);
            assert(NodeTypeId::MOVING_AVERAGE@.len() != NodeTypeId::LEVEL_BAR@.len());
        } else if j == 49 {
            reveal_strlit("generators.twinkle_stars");
            assert(builtin_id(49) == NodeTypeId::TWINKLE_STARS@);
            assert(NodeTypeId::MOVING_AVERAGE@.len() != NodeTypeId::TWINKLE_STARS@.len());
        } else if j == 50 {
            reveal_strlit("generators.plasma");
            assert(builtin_id(50) == NodeTypeId::PLASMA@);
            assert(NodeTypeId::MOVING_AVERAGE@.len() != NodeTypeId::PLASMA@.len());
        } else if j == 51 {
            reveal_strlit("generators.bouncing_balls");
            assert(builtin_id(51) == NodeTypeId::BOUNCING_BALLS@);
            assert(NodeTypeId::MOVING_AVERAGE@.len() != NodeTypeId::BOUNCING_BALLS@.len());
        } else if j == 52 {
            reveal_strlit("debug.wled_dummy_display");
            assert(builtin_id(52) == NodeTypeId::WLED_DUMMY_DISPLAY@);
            assert(NodeTypeId::MOVING_AVERAGE@.len() != NodeTypeId::WLED_DUMMY_DISPLAY@.len());
        } else if j == 53 {
            reveal_strlit("debug.type_debug");
            assert(builtin_id(53) == NodeTypeId::TYPE_DEBUG@);
            assert(NodeTypeId::MOVING_AVERAGE@.len() != NodeTypeId::TYPE_DEBUG@.len());
        } else if j == 54 {
            reveal_strlit("frame_operations.frame_brightness");
            assert(builtin_id(54) == NodeTypeId::FRAME_BRIGHTNESS@);
            assert(NodeTypeId::MOVING_AVERAGE@.len() != NodeTypeId::FRAME_BRIGHTNESS@.len());
        }
    }
}

proof fn lemma_catalog_id_39_distinct()
    ensures
        forall|j: int| 39 < j < BUILTIN_NODE_COUNT ==> builtin_id(39) != #[trigger] builtin_id(j),
{
    reveal_strlit("temporal_filters.moving_median");
    assert(builtin_id(39) == NodeTypeId::MOVING_MEDIAN@);
    assert forall|j: int| 39 < j < BUILTIN_NODE_COUNT implies builtin_id(39) != #[trigger] builtin_id(j) by {
        if j == 40 {
            reveal_strlit("spatial_filters.box_blur");
            assert(builtin_id(40) == NodeTypeId::BOX_BLUR@);
            assert(NodeTypeId::MOVING_MEDIAN@.len() != NodeTypeId::BOX_BLUR@.len());
        } else if j == 41 {
            reveal_strlit("spatial_filters.gaussian_blur");
            assert(builtin_id(41) == NodeTypeId::GAUSSIAN_BLUR@);
            assert(NodeTypeId::MOVING_MEDIAN@.len() != NodeTypeId::GAUSSIAN_BLUR@.len());
        } else if j == 42 {
            reveal_strlit("spatial_filters.median_filter");
            assert(builtin_id(42) == NodeTypeId::MEDIAN_FILTER@);
            assert(NodeTypeId::MOVING_MEDIAN@.len() != NodeTypeId::MEDIAN_FILTER@.len());
        } else if j == 43 {
            reveal_strlit("spatial_filters.laplacian_filter");
            assert(builtin_id(43) == NodeTypeId::LAPLACIAN_FILTER@);
            assert(NodeTypeId::MOVING_MEDIAN@.len() != NodeTypeId::LAPLACIAN_FILTER@.len());
        } else if j == 44 {
            reveal_strlit("generators.spectrum_analyzer");
            assert(builtin_id(44) == NodeTypeId::SPECTRUM_ANALYZER@);
            assert(NodeTypeId::MOVING_MEDIAN@.len() != NodeTypeId::SPECTRUM_ANALYZER@.len());
        } else if j == 45 {
            reveal_strlit("generators.solid_frame");
            assert(builtin_id(45) == NodeTypeId::SOLID_FRAME@);
            assert(NodeTypeId::MOVING_MEDIAN@.len() != NodeTypeId::SOLID_FRAME@.len());
        } else if j == 46 {
            reveal_strlit("generators.rainbow_sweep");
            assert(builtin_id(46) == NodeTypeId::RAINBOW_SWEEP@);
            assert(NodeTypeId::MOVING_MEDIAN@.len() != NodeTypeId::RAINBOW_SWEEP@.len());
        } else if j == 47 {
            reveal_strlit("generators.circle_sweep");
            assert(builtin_id(47) == NodeTypeId::CIRCLE_SWEEP@);
            assert(NodeTypeId::MOVING_MEDIAN@.len() != NodeTypeId::CIRCLE_SWEEP@.len());
        } else if j == 48 {
            reveal_strlit("generators.level_bar");
            assert(builtin_id(48) == NodeTypeId::LEVEL_BAR@);
            assert(NodeTypeId::MOVING_MEDIAN@.len() != NodeTypeId::LEVEL_BAR@.len());
        } else if j == 49 {
            reveal_strlit("generators.twinkle_stars");
            assert(builtin_id(49) == NodeTypeId::TWINKLE_STARS@);
            assert(NodeTypeId::MOVING_MEDIAN@.len() != NodeTypeId::TWINKLE_STARS@.len());
        } else if j == 50 {
            reveal_strlit("generators.plasma");
            assert(builtin_id(50) == NodeTypeId::PLASMA@);
            assert(NodeTypeId::MOVING_MEDIAN@.len() != NodeTypeId::PLASMA@.len());
        } else if j == 51 {
            reveal_strlit("generators.bouncing_balls");
            assert(builtin_id(51) == NodeTypeId::BOUNCING_BALLS@);
            assert(NodeTypeId::MOVING_MEDIAN@.len() != NodeTypeId::BOUNCING_BALLS@.len());
        } else if j == 52 {
            reveal_strlit("debug.wled_dummy_display");
            assert(builtin_id(52) == NodeTypeId::WLED_DUMMY_DISPLAY@);
            assert(NodeTypeId::MOVING_MEDIAN@.len() != NodeTypeId::WLED_DUMMY_DISPLAY@.len());
        } else if j == 53 {
            reveal_strlit("debug.type_debug");
            assert(builtin_id(53) == NodeTypeId::TYPE_DEBUG@);
            assert(NodeTypeId::MOVING_MEDIAN@.len() != NodeTypeId::TYPE_DEBUG@.len());
        } else if j == 54 {
            reveal_strlit("frame_operations.frame_brightness");
            assert(builtin_id(54) == NodeTypeId::FRAME_BRIGHTNESS@);
            assert(NodeTypeId::MOVING_MEDIAN@.len() != NodeTypeId::FRAME_BRIGHTNESS@.len());
        }
    }
}

proof fn lemma_catalog_id_40_distinct()
    ensures
        forall|j: int| 40 < j < BUILTIN_NODE_COUNT ==> builtin_id(40) != #[trigger] builtin_id(j),
{
    reveal_strlit("spatial_filters.box_blur");
    assert(builtin_id(40) == NodeTypeId::BOX_BLUR@);
    assert forall|j: int| 40 < j < BUILTIN_NODE_COUNT implies builtin_id(40) != #[trigger] builtin_id(j) by {
        if j == 41 {
            reveal_strlit("spatial_filters.gaussian_blur");
            assert(builtin_id(41) == NodeTypeId::GAUSSIAN_BLUR@);
            assert(NodeTypeId::BOX_BLUR@.len() != NodeTypeId::GAUSSIAN_BLUR@.len());
        } else if j == 42 {
            reveal_strlit("spatial_filters.median_filter");
            assert(builtin_id(42) == NodeTypeId::MEDIAN_FILTER@);
            assert(NodeTypeId::BOX_BLUR@.len() != NodeTypeId::MEDIAN_FILTER@.len());
        } else if j == 43 {
            reveal_strlit("spatial_filters.laplacian_filter");
            assert(builtin_id(43) == NodeTypeId::LAPLACIAN_FILTER@);
            assert(NodeTypeId::BOX_BLUR@.len() != NodeTypeId::LAPLACIAN_FILTER@.len());
        } else if j == 44 {
            reveal_strlit("generators.spectrum_analyzer");
            assert(builtin_id(44) == NodeTypeId::SPECTRUM_ANALYZER@);
            assert(NodeTypeId::BOX_BLUR@.len() != NodeTypeId::SPECTRUM_ANALYZER@.len());
        } else if j == 45 {
            reveal_strlit("generators.solid_frame");
            assert(builtin_id(45) == NodeTypeId::SOLID_FRAME@);
            assert(NodeTypeId::BOX_BLUR@.len() != NodeTypeId::SOLID_FRAME@.len());
        } else if j == 46 {
            reveal_strlit("generators.rainbow_sweep");
            assert(builtin_id(46) == NodeTypeId::RAINBOW_SWEEP@);
            assert(NodeTypeId::BOX_BLUR@[0] != NodeTypeId::RAINBOW_SWEEP@[0]);
        } else if j == 47 {
            reveal_strlit("generators.circle_sweep");
            assert(builtin_id(47) == NodeTypeId::CIRCLE_SWEEP@);
            assert(NodeTypeId::BOX_BLUR@.len() != NodeTypeId::CIRCLE_SWEEP@.len());
        } else if j == 48 {
            reveal_strlit("generators.level_bar");
            assert(builtin_id(48) == NodeTypeId::LEVEL_BAR@);
            assert(NodeTypeId::BOX_BLUR@.len() != NodeTypeId::LEVEL_BAR@.len());
        } else if j == 49 {
            reveal_strlit("generators.twinkle_stars");
            assert(builtin_id(49) == NodeTypeId::TWINKLE_STARS@);
            assert(NodeTypeId::BOX_BLUR@[0] != NodeTypeId::TWINKLE_STARS@[0]);
        } else if j == 50 {
            reveal_strlit("generators.plasma");
            assert(builtin_id(50) == NodeTypeId::PLASMA@);
            assert(NodeTypeId::BOX_BLUR@.len() != NodeTypeId::PLASMA@.len());
        } else if j == 51 {
            reveal_strlit("generators.bouncing_balls");
            assert(builtin_id(51) == NodeTypeId::BOUNCING_BALLS@);
            assert(NodeTypeId::BOX_BLUR@.len() != NodeTypeId::BOUNCING_BALLS@.len());
        } else if j == 52 {
            reveal_strlit("debug.wled_dummy_display");
            assert(builtin_id(52) == NodeTypeId::WLED_DUMMY_DISPLAY@);
            assert(NodeTypeId::BOX_BLUR@[0] != NodeTypeId::WLED_DUMMY_DISPLAY@[0]);
        } else if j == 53 {
            reveal_strlit("debug.type_debug");
            assert(builtin_id(53) == NodeTypeId::TYPE_DEBUG@);
            assert(NodeTypeId::BOX_BLUR@.len() != NodeTypeId::TYPE_DEBUG@.len());
        } else if j == 54 {
            reveal_strlit("frame_operations.frame_brightness");
            assert(builtin_id(54) == NodeTypeId::FRAME_BRIGHTNESS@);
            assert(NodeTypeId::BOX_BLUR@.len() != NodeTypeId::FRAME_BRIGHTNESS@.len());
        }
    }
}

proof fn lemma_catalog_id_41_distinct()
    ensures
        forall|j: int| 41 < j < BUILTIN_NODE_COUNT ==> builtin_id(41) != #[trigger] builtin_id(j),
{
    reveal_strlit("spatial_filters.gaussian_blur");
    assert(builtin_id(41) == NodeTypeId::GAUSSIAN_BLUR@);
    assert forall|j: int| 41 < j < BUILTIN_NODE_COUNT implies builtin_id(41) != #[trigger] builtin_id(j) by {
        if j == 42 {
            reveal_strlit("spatial_filters.median_filter");
            assert(builtin_id(42) == NodeTypeId::MEDIAN_FILTER@);
            assert(NodeTypeId::GAUSSIAN_BLUR@[16] != NodeTypeId::MEDIAN_FILTER@[16]);
        } else if j == 43 {
            reveal_strlit("spatial_filters.laplacian_filter");
            assert(builtin_id(43) == NodeTypeId::LAPLACIAN_FILTER@);
            assert(NodeTypeId::GAUSSIAN_BLUR@.len() != NodeTypeId::LAPLACIAN_FILTER@.len());
        } else if j == 44 {
            reveal_strlit("generators.spectrum_analyzer");
            assert(builtin_id(44) == NodeTypeId::SPECTRUM_ANALYZER@);
            assert(NodeTypeId::GAUSSIAN_BLUR@.len() != NodeTypeId::SPECTRUM_ANALYZER@.len());
        } else if j == 45 {
            reveal_strlit("generators.solid_frame");
            assert(builtin_id(45) == NodeTypeId::SOLID_FRAME@);
            assert(NodeTypeId::GAUSSIAN_BLUR@.len() != NodeTypeId::SOLID_FRAME@.len());
        } else if j == 46 {
            reveal_strlit("generators.rainbow_sweep");
            assert(builtin_id(46) == NodeTypeId::RAINBOW_SWEEP@);
            assert(NodeTypeId::GAUSSIAN_BLUR@.len() != NodeTypeId::RAINBOW_SWEEP@.len());
        } else if j == 47 {
            reveal_strlit("generators.circle_sweep");
            assert(builtin_id(47) == NodeTypeId::CIRCLE_SWEEP@);
            assert(NodeTypeId::GAUSSIAN_BLUR@.len() != NodeTypeId::CIRCLE_SWEEP@.len());
        } else if j == 48 {
            reveal_strlit("generators.level_bar");
            assert(builtin_id(48) == NodeTypeId::LEVEL_BAR@);
            assert(NodeTypeId::GAUSSIAN_BLUR@.len() != NodeTypeId::LEVEL_BAR@.len());
        } else if j == 49 {
            reveal_strlit("generators.twinkle_stars");
            assert(builtin_id(49) == NodeTypeId::TWINKLE_STARS@);
            assert(NodeTypeId::GAUSSIAN_BLUR@.len() != NodeTypeId::TWINKLE_STARS@.len());
        } else if j == 50 {
            reveal_strlit("generators.plasma");
            assert(builtin_id(50) == NodeTypeId::PLASMA@);
            assert(NodeTypeId::GAUSSIAN_BLUR@.len() != NodeTypeId::PLASMA@.len());
        } else if j == 51 {
            reveal_strlit("generators.bouncing_balls");
            assert(builtin_id(51) == NodeTypeId::BOUNCING_BALLS@);
            assert(NodeTypeId::GAUSSIAN_BLUR@.len() != NodeTypeId::BOUNCING_BALLS@.len());
        } else if j == 52 {
            reveal_strlit("debug.wled_dummy_display");
            assert(builtin_id(52) == NodeTypeId::WLED_DUMMY_DISPLAY@);
            assert(NodeTypeId::GAUSSIAN_BLUR@.len() != NodeTypeId::WLED_DUMMY_DISPLAY@.len());
        } else if j == 53 {
            reveal_strlit("debug.type_debug");
            assert(builtin_id(53) == NodeTypeId::TYPE_DEBUG@);
            assert(NodeTypeId::GAUSSIAN_BLUR@.len() != NodeTypeId::TYPE_DEBUG@.len());
        } else if j == 54 {
            reveal_strlit("frame_operations.frame_brightness");
            assert(builtin_id(54) == NodeTypeId::FRAME_BRIGHTNESS@);
            assert(NodeTypeId::GAUSSIAN_BLUR@.len() != NodeTypeId::FRAME_BRIGHTNESS@.len());
        }
    }
}

proof fn lemma_catalog_id_42_distinct()
    ensures
        forall|j: int| 42 < j < BUILTIN_NODE_COUNT ==> builtin_id(42) != #[trigger] builtin_id(j),
{
    reveal_strlit("spatial_filters.median_filter");
    assert(builtin_id(42) == NodeTypeId::MEDIAN_FILTER@);
    assert forall|j: int| 42 < j < BUILTIN_NODE_COUNT implies builtin_id(42) != #[trigger] builtin_id(j) by {
        if j == 43 {
            reveal_strlit("spatial_filters.laplacian_filter");
            assert(builtin_id(43) == NodeTypeId::LAPLACIAN_FILTER@);
            assert(NodeTypeId::MEDIAN_FILTER@.len() != NodeTypeId::LAPLACIAN_FILTER@.len());
        } else if j == 44 {
            reveal_strlit("generators.spectrum_analyzer");
            assert(builtin_id(44) == NodeTypeId::SPECTRUM_ANALYZER@);
            assert(NodeTypeId::MEDIAN_FILTER@.len() != NodeTypeId::SPECTRUM_ANALYZER@.len());
        } else if j == 45 {
            reveal_strlit("generators.solid_frame");
            assert(builtin_id(45) == NodeTypeId::SOLID_FRAME@);
            assert(NodeTypeId::MEDIAN_FILTER@.len() != NodeTypeId::SOLID_FRAME@.len());
        } else if j == 46 {
            reveal_strlit("generators.rainbow_sweep");
            assert(builtin_id(46) == NodeTypeId::RAINBOW_SWEEP@);
            assert(NodeTypeId::MEDIAN_FILTER@.len() != NodeTypeId::RAINBOW_SWEEP@.len());
        } else if j == 47 {
            reveal_strlit("generators.circle_sweep");
            assert(builtin_id(47) == NodeTypeId::CIRCLE_SWEEP@);
            assert(NodeTypeId::MEDIAN_FILTER@.len() != NodeTypeId::CIRCLE_SWEEP@.len());
        } else if j == 48 {
            reveal_strlit("generators.level_bar");
            assert(builtin_id(48) == NodeTypeId::LEVEL_BAR@);
            assert(NodeTypeId::MEDIAN_FILTER@.len() != NodeTypeId::LEVEL_BAR@.len());
        } else if j == 49 {
            reveal_strlit("generators.twinkle_stars");
            assert(builtin_id(49) == NodeTypeId::TWINKLE_STARS@);
            assert(NodeTypeId::MEDIAN_FILTER@.len() != NodeTypeId::TWINKLE_STARS@.len());
        } else if j == 50 {
            reveal_strlit("generators.plasma");
            assert(builtin_id(50) == NodeTypeId::PLASMA@);
            assert(NodeTypeId::MEDIAN_FILTER@.len() != NodeTypeId::PLASMA@.len());
        } else if j == 51 {
            reveal_strlit("generators.bouncing_balls");
            assert(builtin_id(51) == NodeTypeId::BOUNCING_BALLS@);
            assert(NodeTypeId::MEDIAN_FILTER@.len() != NodeTypeId::BOUNCING_BALLS@.len());
        } else if j == 52 {
            reveal_strlit("debug.wled_dummy_display");
            assert(builtin_id(52) == NodeTypeId::WLED_DUMMY_DISPLAY@);
            assert(NodeTypeId::MEDIAN_FILTER@.len() != NodeTypeId::WLED_DUMMY_DISPLAY@.len());
        } else if j == 53 {
            reveal_strlit("debug.type_debug");
            assert(builtin_id(53) == NodeTypeId::TYPE_DEBUG@);
            assert(NodeTypeId::MEDIAN_FILTER@.len() != NodeTypeId::TYPE_DEBUG@.len());
        } else if j == 54 {
            reveal_strlit("frame_operations.frame_brightness");
            assert(builtin_id(54) == NodeTypeId::FRAME_BRIGHTNESS@);
            assert(NodeTypeId::MEDIAN_FILTER@.len() != NodeTypeId::FRAME_BRIGHTNESS@.len());
        }
    }
}

proof fn lemma_catalog_id_43_distinct()
    ensures
        forall|j: int| 43 < j < BUILTIN_NODE_COUNT ==> builtin_id(43) != #[trigger] builtin_id(j),
{
    reveal_strlit("spatial_filters.laplacian_filter");
    assert(builtin_id(43) == NodeTypeId::LAPLACIAN_FILTER@);
    assert forall|j: int| 43 < j < BUILTIN_NODE_COUNT implies builtin_id(43) != #[trigger] builtin_id(j) by {
        if j == 44 {
            reveal_strlit("generators.spectrum_analyzer");
            assert(builtin_id(44) == NodeTypeId::SPECTRUM_ANALYZER@);
            assert(NodeTypeId::LAPLACIAN_FILTER@.len() != NodeTypeId::SPECTRUM_ANALYZER@.len());
        } else if j == 45 {
            reveal_strlit("generators.solid_frame");
            assert(builtin_id(45) == NodeTypeId::SOLID_FRAME@);
            assert(NodeTypeId::LAPLACIAN_FILTER@.len() != NodeTypeId::SOLID_FRAME@.len());
        } else if j == 46 {
            reveal_strlit("generators.rainbow_sweep");
            assert(builtin_id(46) == NodeTypeId::RAINBOW_SWEEP@);
            assert(NodeTypeId::LAPLACIAN_FILTER@.len() != NodeTypeId::RAINBOW_SWEEP@.len());
        } else if j == 47 {
            reveal_strlit("generators.circle_sweep");
            assert(builtin_id(47) == NodeTypeId::CIRCLE_SWEEP@);
            assert(NodeTypeId::LAPLACIAN_FILTER@.len() != NodeTypeId::CIRCLE_SWEEP@.len());
        } else if j == 48 {
            reveal_strlit("generators.level_bar");
            assert(builtin_id(48) == NodeTypeId::LEVEL_BAR@);
            assert(NodeTypeId::LAPLACIAN_FILTER@.len() != NodeTypeId::LEVEL_BAR@.len());
        } else if j == 49 {
            reveal_strlit("generators.twinkle_stars");
            assert(builtin_id(49) == NodeTypeId::TWINKLE_STARS@);
            assert(NodeTypeId::LAPLACIAN_FILTER@.len() != NodeTypeId::TWINKLE_STARS@.len());
        } else if j == 50 {
            reveal_strlit("generators.plasma");
            assert(builtin_id(50) == NodeTypeId::PLASMA@);
            assert(NodeTypeId::LAPLACIAN_FILTER@.len() != NodeTypeId::PLASMA@.len());
        } else if j == 51 {
            reveal_strlit("generators.bouncing_balls");
            assert(builtin_id(51) == NodeTypeId::BOUNCING_BALLS@);
            assert(NodeTypeId::LAPLACIAN_FILTER@.len() != NodeTypeId::BOUNCING_BALLS@.len());
        } else if j == 52 {
            reveal_strlit("debug.wled_dummy_display");
            assert(builtin_id(52) == NodeTypeId::WLED_DUMMY_DISPLAY@);
            assert(NodeTypeId::LAPLACIAN_FILTER@.len() != NodeTypeId::WLED_DUMMY_DISPLAY@.len());
        } else if j == 53 {
            reveal_strlit("debug.type_debug");
            assert(builtin_id(53) == NodeTypeId::TYPE_DEBUG@);
            assert(NodeTypeId::LAPLACIAN_FILTER@.len() != NodeTypeId::TYPE_DEBUG@.len());
        } else if j == 54 {
            reveal_strlit("frame_operations.frame_brightness");
            assert(builtin_id(54) == NodeTypeId::FRAME_BRIGHTNESS@);
            assert(NodeTypeId::LAPLACIAN_FILTER@.len() != NodeTypeId::FRAME_BRIGHTNESS@.len());
        }
    }
}

proof fn lemma_catalog_id_44_distinct()
    ensures
        forall|j: int| 44 < j < BUILTIN_NODE_COUNT ==> builtin_id(44) != #[trigger] builtin_id(j),
{
    reveal_strlit("generators.spectrum_analyzer");
    assert(builtin_id(44) == NodeTypeId::SPECTRUM_ANALYZER@);
    assert forall|j: int| 44 < j < BUILTIN_NODE_COUNT implies builtin_id(44) != #[trigger] builtin_id(j) by {
        if j == 45 {
            reveal_strlit("generators.solid_frame");
            assert(builtin_id(45) == NodeTypeId::SOLID_FRAME@);
            assert(NodeTypeId::SPECTRUM_ANALYZER@.len() != NodeTypeId::SOLID_FRAME@.len());
        } else if j == 46 {
            reveal_strlit("generators.rainbow_sweep");
            assert(builtin_id(46) == NodeTypeId::RAINBOW_SWEEP@);
            assert(NodeTypeId::SPECTRUM_ANALYZER@.len() != NodeTypeId::RAINBOW_SWEEP@.len());
        } else if j == 47 {
            reveal_strlit("generators.circle_sweep");
            assert(builtin_id(47) == NodeTypeId::CIRCLE_SWEEP@);
            assert(NodeTypeId::SPECTRUM_ANALYZER@.len() != NodeTypeId::CIRCLE_SWEEP@.len());
        } else if j == 48 {
            reveal_strlit("generators.level_bar");
            assert(builtin_id(48) == NodeTypeId::LEVEL_BAR@);
            assert(NodeTypeId::SPECTRUM_ANALYZER@.len() != NodeTypeId::LEVEL_BAR@.len());
        } else if j == 49 {
            reveal_strlit("generators.twinkle_stars");
            assert(builtin_id(49) == NodeTypeId::TWINKLE_STARS@);
            assert(NodeTypeId::SPECTRUM_ANALYZER@.len() != NodeTypeId::TWINKLE_STARS@.len());
        } else if j == 50 {
            reveal_strlit("generators.plasma");
            assert(builtin_id(50) == NodeTypeId::PLASMA@);
            assert(NodeTypeId::SPECTRUM_ANALYZER@.len() != NodeTypeId::PLASMA@.len());
        } else if j == 51 {
            reveal_strlit("generators.bouncing_balls");
            assert(builtin_id(51) == NodeTypeId::BOUNCING_BALLS@);
            assert(NodeTypeId::SPECTRUM_ANALYZER@.len() != NodeTypeId::BOUNCING_BALLS@.len());
        } else if j == 52 {
            reveal_strlit("debug.wled_dummy_display");
            assert(builtin_id(52) == NodeTypeId::WLED_DUMMY_DISPLAY@);
            assert(NodeTypeId::SPECTRUM_ANALYZER@.len() != NodeTypeId::WLED_DUMMY_DISPLAY@.len());
        } else if j == 53 {
            reveal_strlit("debug.type_debug");
            assert(builtin_id(53) == NodeTypeId::TYPE_DEBUG@);
            assert(NodeTypeId::SPECTRUM_ANALYZER@.len() != NodeTypeId::TYPE_DEBUG@.len());
        } else if j == 54 {
            reveal_strlit("frame_operations.frame_brightness");
            assert(builtin_id(54) == NodeTypeId::FRAME_BRIGHTNESS@);
            assert(NodeTypeId::SPECTRUM_ANALYZER@.len() != NodeTypeId::FRAME_BRIGHTNESS@.len());
        }
    }
}

proof fn lemma_catalog_id_45_distinct()
    ensures
        forall|j: int| 45 < j < BUILTIN_NODE_COUNT ==> builtin_id(45) != #[trigger] builtin_id(j),
{
    reveal_strlit("generators.solid_frame");
    assert(builtin_id(45) == NodeTypeId::SOLID_FRAME@);
    assert forall|j: int| 45 < j < BUILTIN_NODE_COUNT implies builtin_id(45) != #[trigger] builtin_id(j) by {
        if j == 46 {
            reveal_strlit("generators.rainbow_sweep");
            assert(builtin_id(46) == NodeTypeId::RAINBOW_SWEEP@);
            assert(NodeTypeId::SOLID_FRAME@.len() != NodeTypeId::RAINBOW_SWEEP@.len());
        } else if j == 47 {
            reveal_strlit("generators.circle_sweep");
            assert(builtin_id(47) == NodeTypeId::CIRCLE_SWEEP@);
            assert(NodeTypeId::SOLID_FRAME@.len() != NodeTypeId::CIRCLE_SWEEP@.len());
        } else if j == 48 {
            reveal_strlit("generators.level_bar");
            assert(builtin_id(48) == NodeTypeId::LEVEL_BAR@);
            assert(NodeTypeId::SOLID_FRAME@.len() != NodeTypeId::LEVEL_BAR@.len());
        } else if j == 49 {
            reveal_strlit("generators.twinkle_stars");
            assert(builtin_id(49) == NodeTypeId::TWINKLE_STARS@);
            assert(NodeTypeId::SOLID_FRAME@.len() != NodeTypeId::TWINKLE_STARS@.len());
        } else if j == 50 {
            reveal_strlit("generators.plasma");
            assert(builtin_id(50) == NodeTypeId::PLASMA@);
            assert(NodeTypeId::SOLID_FRAME@.len() != NodeTypeId::PLASMA@.len());
        } else if j == 51 {
            reveal_strlit("generators.bouncing_balls");
            assert(builtin_id(51) == NodeTypeId::BOUNCING_BALLS@);
            assert(NodeTypeId::SOLID_FRAME@.len() != NodeTypeId::BOUNCING_BALLS@.len());
        } else if j == 52 {
            reveal_strlit("debug.wled_dummy_display");
            assert(builtin_id(52) == NodeTypeId::WLED_DUMMY_DISPLAY@);
            assert(NodeTypeId::SOLID_FRAME@.len() != NodeTypeId::WLED_DUMMY_DISPLAY@.len());
        } else if j == 53 {
            reveal_strlit("debug.type_debug");
            assert(builtin_id(53) == NodeTypeId::TYPE_DEBUG@);
            assert(NodeTypeId::SOLID_FRAME@.len() != NodeTypeId::TYPE_DEBUG@.len());
        } else if j == 54 {
            reveal_strlit("frame_operations.frame_brightness");
            assert(builtin_id(54) == NodeTypeId::FRAME_BRIGHTNESS@);
            assert(NodeTypeId::SOLID_FRAME@.len() != NodeTypeId::FRAME_BRIGHTNESS@.len());
        }
    }
}

proof fn lemma_catalog_id_46_distinct()
    ensures
        forall|j: int| 46 < j < BUILTIN_NODE_COUNT ==> builtin_id(46) != #[trigger] builtin_id(j),
{
    reveal_strlit("generators.rainbow_sweep");
    assert(builtin_id(46) == NodeTypeId::RAINBOW_SWEEP@);
    assert forall|j: int| 46 < j < BUILTIN_NODE_COUNT implies builtin_id(46) != #[trigger] builtin_id(j) by {
        if j == 47 {
            reveal_strlit("generators.circle_sweep");
            assert(builtin_id(47) == NodeTypeId::CIRCLE_SWEEP@);
            assert(NodeTypeId::RAINBOW_SWEEP@.len() != NodeTypeId::CIRCLE_SWEEP@.len());
        } else if j == 48 {
            reveal_strlit("generators.level_bar");
            assert(builtin_id(48) == NodeTypeId::LEVEL_BAR@);
            assert(NodeTypeId::RAINBOW_SWEEP@.len() != NodeTypeId::LEVEL_BAR@.len());
        } else if j == 49 {
            reveal_strlit("generators.twinkle_stars");
            assert(builtin_id(49) == NodeTypeId::TWINKLE_STARS@);
            assert(NodeTypeId::RAINBOW_SWEEP@[11] != NodeTypeId::TWINKLE_STARS@[11]);
        } else if j == 50 {
            reveal_strlit("generators.plasma");
            assert(builtin_id(50) == NodeTypeId::PLASMA@);
            assert(NodeTypeId::RAINBOW_SWEEP@.len() != NodeTypeId::PLASMA@.len());
        } else if j == 51 {
            reveal_strlit("generators.bouncing_balls");
            assert(builtin_id(51) == NodeTypeId::BOUNCING_BALLS@);
            assert(NodeTypeId::RAINBOW_SWEEP@.len() != NodeTypeId::BOUNCING_BALLS@.len());
        } else if j == 52 {
            reveal_strlit("debug.wled_dummy_display");
            assert(builtin_id(52) == NodeTypeId::WLED_DUMMY_DISPLAY@);
            assert(NodeTypeId::RAINBOW_SWEEP@[0] != NodeTypeId::WLED_DUMMY_DISPLAY@[0]);
        } else if j == 53 {
            reveal_strlit("debug.type_debug");
            assert(builtin_id(53) == NodeTypeId::TYPE_DEBUG@);
            assert(NodeTypeId::RAINBOW_SWEEP@.len() != NodeTypeId::TYPE_DEBUG@.len());
        } else if j == 54 {
            reveal_strlit("frame_operations.frame_brightness");
            assert(builtin_id(54) == NodeTypeId::FRAME_BRIGHTNESS@);
            assert(NodeTypeId::RAINBOW_SWEEP@.len() != NodeTypeId::FRAME_BRIGHTNESS@.len());
        }
    }
}

proof fn lemma_catalog_id_47_distinct()
    ensures
        forall|j: int| 47 < j < BUILTIN_NODE_COUNT ==> builtin_id(47) != #[trigger] builtin_id(j),
{
    reveal_strlit("generators.circle_sweep");
    assert(builtin_id(47) == NodeTypeId::CIRCLE_SWEEP@);
    assert forall|j: int| 47 < j < BUILTIN_NODE_COUNT implies builtin_id(47) != #[trigger] builtin_id(j) by {
        if j == 48 {
            reveal_strlit("generators.level_bar");
            assert(builtin_id(48) == NodeTypeId::LEVEL_BAR@);
            assert(NodeTypeId::CIRCLE_SWEEP@.len() != NodeTypeId::LEVEL_BAR@.len());
        } else if j == 49 {
            reveal_strlit("generators.twinkle_stars");
            assert(builtin_id(49) == NodeTypeId::TWINKLE_STARS@);
            assert(NodeTypeId::CIRCLE_SWEEP@.len() != NodeTypeId::TWINKLE_STARS@.len());
        } else if j == 50 {
            reveal_strlit("generators.plasma");
            assert(builtin_id(50) == NodeTypeId::PLASMA@);
            assert(NodeTypeId::CIRCLE_SWEEP@.len() != NodeTypeId::PLASMA@.len());
        } else if j == 51 {
            reveal_strlit("generators.bouncing_balls");
            assert(builtin_id(51) == NodeTypeId::BOUNCING_BALLS@);
            assert(NodeTypeId::CIRCLE_SWEEP@.len() != NodeTypeId::BOUNCING_BALLS@.len());
        } else if j == 52 {
            reveal_strlit("debug.wled_dummy_display");
            assert(builtin_id(52) == NodeTypeId::WLED_DUMMY_DISPLAY@);
            assert(NodeTypeId::CIRCLE_SWEEP@.len() != NodeTypeId::WLED_DUMMY_DISPLAY@.len());
        } else if j == 53 {
            reveal_strlit("debug.type_debug");
            assert(builtin_id(53) == NodeTypeId::TYPE_DEBUG@);
            assert(NodeTypeId::CIRCLE_SWEEP@.len() != NodeTypeId::TYPE_DEBUG@.len());
        } else if j == 54 {
            reveal_strlit("frame_operations.frame_brightness");
            assert(builtin_id(54) == NodeTypeId::FRAME_BRIGHTNESS@);
            assert(NodeTypeId::CIRCLE_SWEEP@.len() != NodeTypeId::FRAME_BRIGHTNESS@.len());
        }
    }
}

proof fn lemma_catalog_id_48_distinct()
    ensures
        forall|j: int| 48 < j < BUILTIN_NODE_COUNT ==> builtin_id(48) != #[trigger] builtin_id(j),
{
    reveal_strlit("generators.level_bar");
    assert(builtin_id(48) == NodeTypeId::LEVEL_BAR@);
    assert forall|j: int| 48 < j < BUILTIN_NODE_COUNT implies builtin_id(48) != #[trigger] builtin_id(j) by {
        if j == 49 {
            reveal_strlit("generators.twinkle_stars");
            assert(builtin_id(49) == NodeTypeId::TWINKLE_STARS@);
            assert(NodeTypeId::LEVEL_BAR@.len() != NodeTypeId::TWINKLE_STARS@.len());
        } else if j == 50 {
            reveal_strlit("generators.plasma");
            assert(builtin_id(50) == NodeTypeId::PLASMA@);
            assert(NodeTypeId::LEVEL_BAR@.len() != NodeTypeId::PLASMA@.len());
        } else if j == 51 {
            reveal_strlit("generators.bouncing_balls");
            assert(builtin_id(51) == NodeTypeId::BOUNCING_BALLS@);
            assert(NodeTypeId::LEVEL_BAR@.len() != NodeTypeId::BOUNCING_BALLS@.len());
        } else if j == 52 {
            reveal_strlit("debug.wled_dummy_display");
            assert(builtin_id(52) == NodeTypeId::WLED_DUMMY_DISPLAY@);
            assert(NodeTypeId::LEVEL_BAR@.len() != NodeTypeId::WLED_DUMMY_DISPLAY@.len());
        } else if j == 53 {
            reveal_strlit("debug.type_debug");
            assert(builtin_id(53) == NodeTypeId::TYPE_DEBUG@);
            assert(NodeTypeId::LEVEL_BAR@.len() != NodeTypeId::TYPE_DEBUG@.len());
        } else if j == 54 {
            reveal_strlit("frame_operations.frame_brightness");
            assert(builtin_id(54) == NodeTypeId::FRAME_BRIGHTNESS@);
            assert(NodeTypeId::LEVEL_BAR@.len() != NodeTypeId::FRAME_BRIGHTNESS@.len());
        }
    }
}

proof fn lemma_catalog_id_49_distinct()
    ensures
        forall|j: int| 49 < j < BUILTIN_NODE_COUNT ==> builtin_id(49) != #[trigger] builtin_id(j),
{
    reveal_strlit("generators.twinkle_stars");
    assert(builtin_id(49) == NodeTypeId::TWINKLE_STARS@);
    assert forall|j: int| 49 < j < BUILTIN_NODE_COUNT implies builtin_id(49) != #[trigger] builtin_id(j) by {
        if j == 50 {
            reveal_strlit("generators.plasma");
            assert(builtin_id(50) == NodeTypeId::PLASMA@);
            assert(NodeTypeId::TWINKLE_STARS@.len() != NodeTypeId::PLASMA@.len());
        } else if j == 51 {
            reveal_strlit("generators.bouncing_balls");
            assert(builtin_id(51) == NodeTypeId::BOUNCING_BALLS@);
            assert(NodeTypeId::TWINKLE_STARS@.len() != NodeTypeId::BOUNCING_BALLS@.len());
        } else if j == 52 {
            reveal_strlit("debug.wled_dummy_display");
            assert(builtin_id(52) == NodeTypeId::WLED_DUMMY_DISPLAY@);
            assert(NodeTypeId::TWINKLE_STARS@[0] != NodeTypeId::WLED_DUMMY_DISPLAY@[0]);
        } else if j == 53 {
            reveal_strlit("debug.type_debug");
            assert(builtin_id(53) == NodeTypeId::TYPE_DEBUG@);
            assert(NodeTypeId::TWINKLE_STARS@.len() != NodeTypeId::TYPE_DEBUG@.len());
        } else if j == 54 {
            reveal_strlit("frame_operations.frame_brightness");
            assert(builtin_id(54) == NodeTypeId::FRAME_BRIGHTNESS@);
            assert(NodeTypeId::TWINKLE_STARS@.len() != NodeTypeId::FRAME_BRIGHTNESS@.len());
        }
    }
}

proof fn lemma_catalog_id_50_distinct()
    ensures
        forall|j: int| 50 < j < BUILTIN_NODE_COUNT ==> builtin_id(50) != #[trigger] builtin_id(j),
{
    reveal_strlit("generators.plasma");
    assert(builtin_id(50) == NodeTypeId::PLASMA@);
    assert forall|j: int| 50 < j < BUILTIN_NODE_COUNT implies builtin_id(50) != #[trigger] builtin_id(j) by {
        if j == 51 {
            reveal_strlit("generators.bouncing_balls");
            assert(builtin_id(51) == NodeTypeId::BOUNCING_BALLS@);
            assert(NodeTypeId::PLASMA@.len() != NodeTypeId::BOUNCING_BALLS@.len());
        } else if j == 52 {
            reveal_strlit("debug.wled_dummy_display");
            assert(builtin_id(52) == NodeTypeId::WLED_DUMMY_DISPLAY@);
            assert(NodeTypeId::PLASMA@.len() != NodeTypeId::WLED_DUMMY_DISPLAY@.len());
        } else if j == 53 {
            reveal_strlit("debug.type_debug");
            assert(builtin_id(53) == NodeTypeId::TYPE_DEBUG@);
            assert(NodeTypeId::PLASMA@.len() != NodeTypeId::TYPE_DEBUG@.len());
        } else if j == 54 {
            reveal_strlit("frame_operations.frame_brightness");
            assert(builtin_id(54) == NodeTypeId::FRAME_BRIGHTNESS@);
            assert(NodeTypeId::PLASMA@.len() != NodeTypeId::FRAME_BRIGHTNESS@.len());
        }
    }
}

proof fn lemma_catalog_id_51_distinct()
    ensures
        forall|j: int| 51 < j < BUILTIN_NODE_COUNT ==> builtin_id(51) != #[trigger] builtin_id(j),
{
    reveal_strlit("generators.bouncing_balls");
    assert(builtin_id(51) == NodeTypeId::BOUNCING_BALLS@);
    assert forall|j: int| 51 < j < BUILTIN_NODE_COUNT implies builtin_id(51) != #[trigger] builtin_id(j) by {
        if j == 52 {
            reveal_strlit("debug.wled_dummy_display");
            assert(builtin_id(52) == NodeTypeId::WLED_DUMMY_DISPLAY@);
            assert(NodeTypeId::BOUNCING_BALLS@.len() != NodeTypeId::WLED_DUMMY_DISPLAY@.len());
        } else if j == 53 {
            reveal_strlit("debug.type_debug");
            assert(builtin_id(53) == NodeTypeId::TYPE_DEBUG@);
            assert(NodeTypeId::BOUNCING_BALLS@.len() != NodeTypeId::TYPE_DEBUG@.len());
        } else if j == 54 {
            reveal_strlit("frame_operations.frame_brightness");
            assert(builtin_id(54) == NodeTypeId::FRAME_BRIGHTNESS@);
            assert(NodeTypeId::BOUNCING_BALLS@.len() != NodeTypeId::FRAME_BRIGHTNESS@.len());
        }
    }
}

proof fn lemma_catalog_id_52_distinct()
    ensures
        forall|j: int| 52 < j < BUILTIN_NODE_COUNT ==> builtin_id(52) != #[trigger] builtin_id(j),
{
    reveal_strlit("debug.wled_dummy_display");
    assert(builtin_id(52) == NodeTypeId::WLED_DUMMY_DISPLAY@);
    assert forall|j: int| 52 < j < BUILTIN_NODE_COUNT implies builtin_id(52) != #[trigger] builtin_id(j) by {
        if j == 53 {
            reveal_strlit("debug.type_debug");
            assert(builtin_id(53) == NodeTypeId::TYPE_DEBUG@);
            assert(NodeTypeId::WLED_DUMMY_DISPLAY@.len() != NodeTypeId::TYPE_DEBUG@.len());
        } else if j == 54 {
            reveal_strlit("frame_operations.frame_brightness");
            assert(builtin_id(54) == NodeTypeId::FRAME_BRIGHTNESS@);
            assert(NodeTypeId::WLED_DUMMY_DISPLAY@.len() != NodeTypeId::FRAME_BRIGHTNESS@.len());
        }
    }
}

proof fn lemma_catalog_id_53_distinct()
    ensures
        forall|j: int| 53 < j < BUILTIN_NODE_COUNT ==> builtin_id(53) != #[trigger] builtin_id(j),
{
    reveal_strlit("debug.type_debug");
    assert(builtin_id(53) == NodeTypeId::TYPE_DEBUG@);
    assert forall|j: int| 53 < j < BUILTIN_NODE_COUNT implies builtin_id(53) != #[trigger] builtin_id(j) by {
        if j == 54 {
            reveal_strlit("frame_operations.frame_brightness");
            assert(builtin_id(54) == NodeTypeId::FRAME_BRIGHTNESS@);
            assert(NodeTypeId::TYPE_DEBUG@.len() != NodeTypeId::FRAME_BRIGHTNESS@.len());
        }
    }
}

/// No two entries of the catalog share an id.
pub proof fn lemma_catalog_ids_distinct()
    ensures
        forall|i: int, j: int| 0 <= i < j < BUILTIN_NODE_COUNT ==> #[trigger] builtin_id(i) != #[trigger] builtin_id(j),
{
    lemma_catalog_id_0_distinct();
    lemma_catalog_id_1_distinct();
    lemma_catalog_id_2_distinct();
    lemma_catalog_id_3_distinct();
    lemma_catalog_id_4_distinct();
    lemma_catalog_id_5_distinct();
    lemma_catalog_id_6_distinct();
    lemma_catalog_id_7_distinct();
    lemma_catalog_id_8_distinct();
    lemma_catalog_id_9_distinct();
    lemma_catalog_id_10_distinct();
    lemma_catalog_id_11_distinct();
    lemma_catalog_id_12_distinct();
    lemma_catalog_id_13_distinct();
    lemma_catalog_id_14_distinct();
    lemma_catalog_id_15_distinct();
    lemma_catalog_id_16_distinct();
    lemma_catalog_id_17_distinct();
    lemma_catalog_id_18_distinct();
    lemma_catalog_id_19_distinct();
    lemma_catalog_id_20_distinct();
    lemma_catalog_id_21_distinct();
    lemma_catalog_id_22_distinct();
    lemma_catalog_id_23_distinct();
    lemma_catalog_id_24_distinct();
    lemma_catalog_id_25_distinct();
    lemma_catalog_id_26_distinct();
    lemma_catalog_id_27_distinct();
    lemma_catalog_id_28_distinct();
    lemma_catalog_id_29_distinct();
    lemma_catalog_id_30_distinct();
    lemma_catalog_id_31_distinct();
    lemma_catalog_id_32_distinct();
    lemma_catalog_id_33_distinct();
    lemma_catalog_id_34_distinct();
    lemma_catalog_id_35_distinct();
    lemma_catalog_id_36_distinct();
    lemma_catalog_id_37_distinct();
    lemma_catalog_id_38_distinct();
    lemma_catalog_id_39_distinct();
    lemma_catalog_id_40_distinct();
    lemma_catalog_id_41_distinct();
    lemma_catalog_id_42_distinct();
    lemma_catalog_id_43_distinct();
    lemma_catalog_id_44_distinct();
    lemma_catalog_id_45_distinct();
    lemma_catalog_id_46_distinct();
    lemma_catalog_id_47_distinct();
    lemma_catalog_id_48_distinct();
    lemma_catalog_id_49_distinct();
    lemma_catalog_id_50_distinct();
    lemma_catalog_id_51_distinct();
    lemma_catalog_id_52_distinct();
    lemma_catalog_id_53_distinct();
    assert forall|i: int, j: int| 0 <= i < j < BUILTIN_NODE_COUNT implies #[trigger] builtin_id(i) != #[trigger] builtin_id(j) by {
        if i == 0 {
            lemma_catalog_id_0_distinct();
        } else if i == 1 {
            lemma_catalog_id_1_distinct();
        } else if i == 2 {
            lemma_catalog_id_2_distinct();
        } else if i == 3 {
            lemma_catalog_id_3_distinct();
        } else if i == 4 {
            lemma_catalog_id_4_distinct();
        } else if i == 5 {
            lemma_catalog_id_5_distinct();
        } else if i == 6 {
            lemma_catalog_id_6_distinct();
        } else if i == 7 {
            lemma_catalog_id_7_distinct();
        } else if i == 8 {
            lemma_catalog_id_8_distinct();
        } else if i == 9 {
            lemma_catalog_id_9_distinct();
        } else if i == 10 {
            lemma_catalog_id_10_distinct();
        } else if i == 11 {
            lemma_catalog_id_11_distinct();
        } else if i == 12 {
            lemma_catalog_id_12_distinct();
        } else if i == 13 {
            lemma_catalog_id_13_distinct();
        } else if i == 14 {
            lemma_catalog_id_14_distinct();
        } else if i == 15 {
            lemma_catalog_id_15_distinct();
        } else if i == 16 {
            lemma_catalog_id_16_distinct();
        } else if i == 17 {
            lemma_catalog_id_17_distinct();
        } else if i == 18 {
            lemma_catalog_id_18_distinct();
        } else if i == 19 {
            lemma_catalog_id_19_distinct();
        } else if i == 20 {
            lemma_catalog_id_20_distinct();
        } else if i == 21 {
            lemma_catalog_id_21_distinct();
        } else if i == 22 {
            lemma_catalog_id_22_distinct();
        } else if i == 23 {
            lemma_catalog_id_23_distinct();
        } else if i == 24 {
            lemma_catalog_id_24_distinct();
        } else if i == 25 {
            lemma_catalog_id_25_distinct();
        } else if i == 26 {
            lemma_catalog_id_26_distinct();
        } else if i == 27 {
            lemma_catalog_id_27_distinct();
        } else if i == 28 {
            lemma_catalog_id_28_distinct();
        } else if i == 29 {
            lemma_catalog_id_29_distinct();
        } else if i == 30 {
            lemma_catalog_id_30_distinct();
        } else if i == 31 {
            lemma_catalog_id_31_distinct();
        } else if i == 32 {
            lemma_catalog_id_32_distinct();
        } else if i == 33 {
            lemma_catalog_id_33_distinct();
        } else if i == 34 {
            lemma_catalog_id_34_distinct();
        } else if i == 35 {
            lemma_catalog_id_35_distinct();
        } else if i == 36 {
            lemma_catalog_id_36_distinct();
        } else if i == 37 {
            lemma_catalog_id_37_distinct();
        } else if i == 38 {
            lemma_catalog_id_38_distinct();
        } else if i == 39 {
            lemma_catalog_id_39_distinct();
        } else if i == 40 {
            lemma_catalog_id_40_distinct();
        } else if i == 41 {
            lemma_catalog_id_41_distinct();
        } else if i == 42 {
            lemma_catalog_id_42_distinct();
        } else if i == 43 {
            lemma_catalog_id_43_distinct();
        } else if i == 44 {
            lemma_catalog_id_44_distinct();
        } else if i == 45 {
            lemma_catalog_id_45_distinct();
        } else if i == 46 {
            lemma_catalog_id_46_distinct();
        } else if i == 47 {
            lemma_catalog_id_47_distinct();
        } else if i == 48 {
            lemma_catalog_id_48_distinct();
        } else if i == 49 {
            lemma_catalog_id_49_distinct();
        } else if i == 50 {
            lemma_catalog_id_50_distinct();
        } else if i == 51 {
            lemma_catalog_id_51_distinct();
        } else if i == 52 {
            lemma_catalog_id_52_distinct();
        } else if i == 53 {
            lemma_catalog_id_53_distinct();
        }
    }
}

/// Looking up the id of any catalog entry finds that entry.
pub proof fn lemma_lookup_finds_each_entry(k: int)
    requires
        0 <= k < BUILTIN_NODE_COUNT,
    ensures
        catalog_lookup(builtin_id(k)) == Some(builtin_shape_at(k)),
{
    lemma_catalog_ids_distinct();
    assert forall|j: int| 0 <= j < k implies builtin_id(j) != builtin_id(k) by {}
    lemma_lookup_agrees_with_catalog(builtin_id(k), k);
}

} // verus!
