//! Shared schema types for node definitions, ports, parameters, and runtime-update metadata.
//!
//! These types describe what a node looks like to persistence, validation, the frontend editor,
//! and the backend runtime registry.

use vstd::prelude::*;
use crate::json::{json_equal, token_same, JsonToken, JsonValue};
use crate::text::str_equal;
use crate::value::{ColorGradientStop, Decimal, InputValue, RgbaColor, ValueKind};

verus! {

/// Identifies a node type in persisted graphs, shared schema definitions, and runtime lookup tables.
#[derive(Debug, Clone, PartialEq, Eq, Hash)]
pub struct NodeTypeId(pub String);

impl NodeTypeId {
    pub const FLOAT_CONSTANT: &'static str = "inputs.float_constant";
    pub const COLOR_CONSTANT: &'static str = "inputs.color_constant";
    pub const IMAGE_SOURCE: &'static str = "inputs.image_source";
    pub const DISPLAY: &'static str = "outputs.display";
    pub const PLOT: &'static str = "outputs.plot";
    pub const DELAY: &'static str = "temporal_filters.delay";
    pub const DIFFERENTIATE: &'static str = "temporal_filters.differentiate";
    pub const WLED_TARGET: &'static str = "outputs.wled_target";
    pub const WLED_SINK: &'static str = "inputs.wled_sink";
    pub const AUDIO_FFT_RECEIVER: &'static str = "inputs.audio_fft_receiver";
    pub const HA_MQTT_NUMBER: &'static str = "inputs.ha_mqtt_number";
    pub const SIGNAL_GENERATOR: &'static str = "inputs.signal_generator";
    pub const BINARY_SELECT: &'static str = "math.binary_select";
    pub const ADD: &'static str = "math.add_float";
    pub const ADD_FLOAT: &'static str = "math.add_float";
    pub const SUBTRACT: &'static str = "math.subtract_float";
    pub const SUBTRACT_FLOAT: &'static str = "math.subtract_float";
    pub const DIVIDE: &'static str = "math.divide_float";
    pub const DIVIDE_FLOAT: &'static str = "math.divide_float";
    pub const ABS: &'static str = "math.abs_float";
    pub const ABS_FLOAT: &'static str = "math.abs_float";
    pub const MIN_MAX: &'static str = "math.min_max_float";
    pub const MIN_MAX_FLOAT: &'static str = "math.min_max_float";
    pub const CLAMP: &'static str = "math.clamp_float";
    pub const CLAMP_FLOAT: &'static str = "math.clamp_float";
    pub const POWER: &'static str = "math.power_float";
    pub const POWER_FLOAT: &'static str = "math.power_float";
    pub const ROOT: &'static str = "math.root_float";
    pub const ROOT_FLOAT: &'static str = "math.root_float";
    pub const EXPONENTIAL: &'static str = "math.exponential_float";
    pub const EXPONENTIAL_FLOAT: &'static str = "math.exponential_float";
    pub const LOG: &'static str = "math.log_float";
    pub const LOG_FLOAT: &'static str = "math.log_float";
    pub const MAP_RANGE: &'static str = "math.map_range_float";
    pub const MAP_RANGE_FLOAT: &'static str = "math.map_range_float";
    pub const ROUND: &'static str = "math.round_float";
    pub const ROUND_FLOAT: &'static str = "math.round_float";
    pub const MULTIPLY: &'static str = "math.multiply_float";
    pub const MULTIPLY_FLOAT: &'static str = "math.multiply_float";
    pub const SCALE_TENSOR: &'static str = "math.scale_tensor";
    pub const SCALE_COLOR: &'static str = "frame_operations.scale";
    pub const MULTIPLY_COLOR: &'static str = "frame_operations.multiply";
    pub const TINT_FRAME: &'static str = "frame_operations.tint_frame";
    pub const EXTRACT_CHANNELS: &'static str = "frame_operations.extract_channels";
    pub const MASK_FRAME: &'static str = "frame_operations.mask_frame";
    pub const SET_CHANNEL: &'static str = "frame_operations.set_channel";
    pub const COLORIZE: &'static str = "frame_operations.colorize";
    pub const MIX_COLOR: &'static str = "frame_operations.mix";
    pub const ALPHA_OVER: &'static str = "frame_operations.alpha_over";
    pub const FADE: &'static str = "temporal_filters.fade";
    pub const INTEGRATE: &'static str = "temporal_filters.integrate";
    pub const MOVING_AVERAGE: &'static str = "temporal_filters.moving_average";
    pub const MOVING_MEDIAN: &'static str = "temporal_filters.moving_median";
    pub const BOX_BLUR: &'static str = "spatial_filters.box_blur";
    pub const GAUSSIAN_BLUR: &'static str = "spatial_filters.gaussian_blur";
    pub const MEDIAN_FILTER: &'static str = "spatial_filters.median_filter";
    pub const LAPLACIAN_FILTER: &'static str = "spatial_filters.laplacian_filter";
    pub const SPECTRUM_ANALYZER: &'static str = "generators.spectrum_analyzer";
    pub const SOLID_FRAME: &'static str = "generators.solid_frame";
    pub const RAINBOW_SWEEP: &'static str = "generators.rainbow_sweep";
    pub const CIRCLE_SWEEP: &'static str = "generators.circle_sweep";
    pub const LEVEL_BAR: &'static str = "generators.level_bar";
    pub const TWINKLE_STARS: &'static str = "generators.twinkle_stars";
    pub const PLASMA: &'static str = "generators.plasma";
    pub const BOUNCING_BALLS: &'static str = "generators.bouncing_balls";
    pub const FRAME_BRIGHTNESS: &'static str = "frame_operations.frame_brightness";
    pub const WLED_DUMMY_DISPLAY: &'static str = "debug.wled_dummy_display";
    pub const TYPE_DEBUG: &'static str = "debug.type_debug";

    /// Returns the stable string identifier used on the wire and in persisted graphs.
    pub fn as_str(&self) -> (id: &str)
        ensures
            id@ == self.0@,
    {
        self.0.as_str()
    }

    /// Builds a node type identifier from its stable string form.
    pub fn new(id: &str) -> (node_type: NodeTypeId)
        ensures
            node_type.0@ == id@,
    {
        NodeTypeId(id.to_owned())
    }
}

impl Default for NodeTypeId {
    /// Returns the default node type used by fallback constructors and tests.
    fn default() -> (node_type: Self)
        ensures
            node_type.0@ == NodeTypeId::FLOAT_CONSTANT@,
    {
        NodeTypeId(NodeTypeId::FLOAT_CONSTANT.to_owned())
    }
}

/// Groups node definitions into the categories shown in the editor and dashboard.
#[derive(Debug, Clone, Copy, PartialEq, Eq, Structural, Hash, PartialOrd, Ord)]
pub enum NodeCategory {
    Inputs,
    Generators,
    Math,
    FrameOperations,
    TemporalFilters,
    SpatialFilters,
    Outputs,
    Debug,
}

/// Whether a port of primary kind `value_kind` that also takes `accepted` can carry `kind`.
pub open spec fn kind_accepted(value_kind: ValueKind, accepted: Seq<ValueKind>, kind: ValueKind) -> bool {
    value_kind == ValueKind::Any || kind == ValueKind::Any || value_kind == kind || accepted.contains(
        kind,
    )
}

/// How a node type derives the kinds of its outputs from the kinds reaching its inputs.
#[derive(Debug, Clone, Copy, PartialEq, Eq, Structural)]
pub enum InferenceRule {
    /// Each output has its declared kind.
    Declared,
    /// Arithmetic: the output follows the kinds of the operand inputs.
    Numeric,
    /// Both branches must resolve to the same kind, which the output follows.
    BinarySelect,
    /// The output follows the `initial_type` parameter.
    Delay,
    /// The `value` input must be a color or a frame.
    Fade,
    /// The `rate` input must be a float, a tensor or a frame.
    Integrate,
    /// The `value` input must be a float, a color, a tensor or a frame.
    MovingAverage,
    /// The `value` input must be a float or a tensor.
    MovingMedian,
    /// The `value` output follows the `frame` input.
    Laplacian,
    /// The `value` output follows the input, or is a float in `plot` mode.
    Display,
}

/// An output port or runtime value as a node type declares it: its name, the label the editor
/// shows, and the kinds it carries.
#[verifier::ext_equal]
pub struct PortShape {
    pub name: Seq<char>,
    pub display_name: Seq<char>,
    pub kind: ValueKind,
    pub accepted: Seq<ValueKind>,
}

/// An input port as a node type declares it: its name, its label, the kinds it takes, and the kind
/// of its default value.
#[verifier::ext_equal]
pub struct InputShape {
    pub name: Seq<char>,
    pub display_name: Seq<char>,
    pub kind: ValueKind,
    pub accepted: Seq<ValueKind>,
    pub default_kind: Option<ValueKind>,
}

/// A parameter's default value as plain values.
pub enum DefaultView {
    Float(Decimal),
    Color(RgbaColor),
    Gradient(Seq<ColorGradientStop>),
    Bool(bool),
    Integer(i64),
    String(Seq<char>),
}

/// A parameter's editor widget as plain values; enum options as (value, label) pairs.
pub enum HintView {
    DragFloat { speed: Decimal, min: Decimal, max: Decimal },
    ColorPicker,
    ColorGradient,
    Checkbox,
    TextSingleLine,
    EnumSelect(Seq<(Seq<char>, Seq<char>)>),
    IntegerDrag { speed: Decimal, min: i64, max: i64 },
    WledInstanceOrHost,
    MqttBrokerSelect,
    ImageAssetUpload,
}

/// An editable parameter as a node type declares it: its name, its label, its default value,
/// its editor widget, and for which parameter values it is shown.
#[verifier::ext_equal]
pub struct ParameterShape {
    pub name: Seq<char>,
    pub display_name: Seq<char>,
    pub default: DefaultView,
    pub hint: HintView,
    pub shown: spec_fn(Seq<NodeParameter>) -> bool,
}

/// Whether the first parameter named `name` holds the JSON string `text`.
pub open spec fn parameter_holds_text(parameters: Seq<NodeParameter>, name: Seq<char>, text: Seq<char>) -> bool {
    exists|i: int|
        is_first_named(parameters, name, i) && (#[trigger] parameters[i]).value.tokens@.len() == 1
            && (parameters[i].value.tokens@[0] matches JsonToken::String(s) && s@ == text)
}

/// Whether the first parameter named `name` holds the JSON boolean `flag`.
pub open spec fn parameter_holds_bool(parameters: Seq<NodeParameter>, name: Seq<char>, flag: bool) -> bool {
    exists|i: int|
        is_first_named(parameters, name, i) && (#[trigger] parameters[i]).value.tokens@ == seq![
            JsonToken::Bool(flag),
        ]
}

/// A node type as the editor and validation see it: its id, label, category, whether it needs
/// I/O, its inference rule, ports, parameters, connection rules, and runtime values (whether the
/// editor subscribes to them on its own, and their shapes).
#[verifier::ext_equal]
pub struct NodeShape {
    pub id: Seq<char>,
    pub display_name: Seq<char>,
    pub category: NodeCategory,
    pub needs_io: bool,
    pub rule: InferenceRule,
    pub inputs: Seq<InputShape>,
    pub outputs: Seq<PortShape>,
    pub parameters: Seq<ParameterShape>,
    pub connection: NodeConnectionDefinition,
    pub runtime_values: Option<(bool, Seq<PortShape>)>,
}

impl PortShape {
    /// Whether the port can carry `kind`.
    pub open spec fn accepts(self, kind: ValueKind) -> bool {
        kind_accepted(self.kind, self.accepted, kind)
    }
}

impl InputShape {
    /// Whether the port takes `kind`.
    pub open spec fn accepts(self, kind: ValueKind) -> bool {
        kind_accepted(self.kind, self.accepted, kind)
    }
}

/// Returns whether `kinds` holds `kind`.
pub fn kinds_contain(kinds: &Vec<ValueKind>, kind: ValueKind) -> (found: bool)
    ensures
        found == kinds@.contains(kind),
{
    let mut i: usize = 0;
    while i < kinds.len()
        invariant
            0 <= i <= kinds@.len(),
            forall|k: int| 0 <= k < i ==> kinds@[k] != kind,
        decreases kinds@.len() - i,
    {
        if kinds[i] == kind {
            return true;
        }
        i = i + 1;
    }
    false
}

fn accepts(value_kind: ValueKind, accepted: &Vec<ValueKind>, kind: ValueKind) -> (ok: bool)
    ensures
        ok == kind_accepted(value_kind, accepted@, kind),
{
    value_kind == ValueKind::Any || kind == ValueKind::Any || value_kind == kind || kinds_contain(
        accepted,
        kind,
    )
}

/// Describes one input port in the shared node schema.
///
/// Inputs may optionally declare a disconnected default value and a set of additional accepted
/// kinds beyond their primary `value_kind`.
#[derive(Debug, Clone, PartialEq)]
pub struct NodeInputDefinition {
    pub name: String,
    pub display_name: String,
    pub value_kind: ValueKind,
    pub accepted_kinds: Vec<ValueKind>,
    pub default_value: Option<InputValue>,
}

impl NodeInputDefinition {
    /// The port as connection checking sees it.
    pub open spec fn shape(self) -> InputShape {
        InputShape {
            name: self.name@,
            display_name: self.display_name@,
            kind: self.value_kind,
            accepted: self.accepted_kinds@,
            default_kind: match self.default_value {
                Some(v) => Some(v.kind()),
                None => None,
            },
        }
    }

    /// Whether this input accepts `kind`.
    pub open spec fn accepts(self, kind: ValueKind) -> bool {
        kind_accepted(self.value_kind, self.accepted_kinds@, kind)
    }

    /// Returns whether this input accepts the given value kind.
    pub fn accepts_kind(&self, kind: ValueKind) -> (ok: bool)
        ensures
            ok == self.accepts(kind),
    {
        accepts(self.value_kind, &self.accepted_kinds, kind)
    }
}

/// Describes one output port in the shared node schema.
///
/// Outputs do not carry default values, but may advertise compatible kinds for flexible
/// downstream connections and UI previews.
#[derive(Debug, Clone, PartialEq)]
pub struct NodeOutputDefinition {
    pub name: String,
    pub display_name: String,
    pub value_kind: ValueKind,
    pub accepted_kinds: Vec<ValueKind>,
}

impl NodeOutputDefinition {
    /// The port as connection checking sees it.
    pub open spec fn shape(self) -> PortShape {
        PortShape {
            name: self.name@,
            display_name: self.display_name@,
            kind: self.value_kind,
            accepted: self.accepted_kinds@,
        }
    }

    /// Whether this output can be treated as `kind`.
    pub open spec fn accepts(self, kind: ValueKind) -> bool {
        kind_accepted(self.value_kind, self.accepted_kinds@, kind)
    }

    /// Returns whether this output can be treated as the given value kind.
    pub fn accepts_kind(&self, kind: ValueKind) -> (ok: bool)
        ensures
            ok == self.accepts(kind),
    {
        accepts(self.value_kind, &self.accepted_kinds, kind)
    }
}

/// Describes one named runtime-update value emitted outside the normal graph edge system.
#[derive(Debug, Clone, PartialEq)]
pub struct NodeRuntimeValueDefinition {
    pub name: String,
    pub display_name: String,
    pub value_kind: ValueKind,
    pub accepted_kinds: Vec<ValueKind>,
}

impl NodeRuntimeValueDefinition {
    /// The runtime value as the editor sees it.
    pub open spec fn shape(self) -> PortShape {
        PortShape {
            name: self.name@,
            display_name: self.display_name@,
            kind: self.value_kind,
            accepted: self.accepted_kinds@,
        }
    }

    /// Whether this runtime value can be treated as `kind`.
    pub open spec fn accepts(self, kind: ValueKind) -> bool {
        kind_accepted(self.value_kind, self.accepted_kinds@, kind)
    }

    /// Returns whether this runtime-update value can be treated as the given value kind.
    pub fn accepts_kind(&self, kind: ValueKind) -> (ok: bool)
        ensures
            ok == self.accepts(kind),
    {
        accepts(self.value_kind, &self.accepted_kinds, kind)
    }
}

/// Describes global connection rules for a node's ports.
#[derive(Debug, Clone, Copy, PartialEq, Eq, Structural)]
pub struct NodeConnectionDefinition {
    pub max_input_connections: usize,
    pub require_value_kind_match: bool,
}

/// Declares frontend-visible runtime values emitted by a node outside normal graph outputs.
#[derive(Debug, Clone, PartialEq)]
pub struct NodeRuntimeUpdateDefinition {
    pub auto_subscribe_in_editor: bool,
    pub values: Vec<NodeRuntimeValueDefinition>,
}

/// Stores a serialized parameter value persisted directly on a graph node.
#[derive(Debug, Clone)]
pub struct NodeParameter {
    pub name: String,
    pub value: JsonValue,
}

/// Describes one selectable enum-style option for a parameter UI.
#[derive(Debug, Clone, PartialEq, Eq)]
pub struct EnumOption {
    pub value: String,
    pub label: String,
}

/// Encodes the default value for a node parameter in a shared, serializable form.
#[derive(Debug, Clone, PartialEq)]
pub enum ParameterDefaultValue {
    Float(Decimal),
    Color(RgbaColor),
    Gradient(Vec<ColorGradientStop>),
    Bool(bool),
    Integer(i64),
    String(String),
}

/// Selects the editor UI widget used to edit a parameter.
#[derive(Debug, Clone, PartialEq)]
pub enum ParameterUiHint {
    DragFloat { speed: Decimal, min: Decimal, max: Decimal },
    ColorPicker,
    ColorGradient,
    Checkbox,
    TextSingleLine,
    EnumSelect { options: Vec<EnumOption> },
    IntegerDrag { speed: Decimal, min: i64, max: i64 },
    WledInstanceOrHost,
    MqttBrokerSelect,
    ImageAssetUpload,
}

/// Enum options as (value, label) pairs, in order.
pub open spec fn option_views(options: Seq<EnumOption>) -> Seq<(Seq<char>, Seq<char>)> {
    options.map_values(|o: EnumOption| (o.value@, o.label@))
}

impl ParameterDefaultValue {
    /// The default value as plain values.
    pub open spec fn view_of(self) -> DefaultView {
        match self {
            ParameterDefaultValue::Float(v) => DefaultView::Float(v),
            ParameterDefaultValue::Color(c) => DefaultView::Color(c),
            ParameterDefaultValue::Gradient(stops) => DefaultView::Gradient(stops@),
            ParameterDefaultValue::Bool(b) => DefaultView::Bool(b),
            ParameterDefaultValue::Integer(i) => DefaultView::Integer(i),
            ParameterDefaultValue::String(s) => DefaultView::String(s@),
        }
    }
}

impl ParameterUiHint {
    /// The widget as plain values.
    pub open spec fn view_of(self) -> HintView {
        match self {
            ParameterUiHint::DragFloat { speed, min, max } => HintView::DragFloat { speed, min, max },
            ParameterUiHint::ColorPicker => HintView::ColorPicker,
            ParameterUiHint::ColorGradient => HintView::ColorGradient,
            ParameterUiHint::Checkbox => HintView::Checkbox,
            ParameterUiHint::TextSingleLine => HintView::TextSingleLine,
            ParameterUiHint::EnumSelect { options } => HintView::EnumSelect(option_views(options@)),
            ParameterUiHint::IntegerDrag { speed, min, max } => HintView::IntegerDrag {
                speed,
                min,
                max,
            },
            ParameterUiHint::WledInstanceOrHost => HintView::WledInstanceOrHost,
            ParameterUiHint::MqttBrokerSelect => HintView::MqttBrokerSelect,
            ParameterUiHint::ImageAssetUpload => HintView::ImageAssetUpload,
        }
    }
}

/// Describes when a parameter should be rendered in the editor.
///
/// Conditions are intentionally small but composable so mode-based node UIs can be expressed in
/// shared schema without frontend-specific hardcoding.
#[derive(Debug)]
pub enum ParameterVisibilityCondition {
    Equals { parameter: String, value: JsonValue },
    Any { conditions: Vec<ParameterVisibilityCondition> },
    All { conditions: Vec<ParameterVisibilityCondition> },
    Not { condition: Box<ParameterVisibilityCondition> },
}


/// Whether `i` is the position of the first parameter named `name`.
pub open spec fn is_first_named(parameters: Seq<NodeParameter>, name: Seq<char>, i: int) -> bool {
    &&& 0 <= i < parameters.len()
    &&& parameters[i].name@ == name
    &&& forall|j: int| 0 <= j < i ==> (#[trigger] parameters[j]).name@ != name
}

/// Whether some parameter is named `name`.
pub open spec fn has_named(parameters: Seq<NodeParameter>, name: Seq<char>) -> bool {
    exists|i: int| 0 <= i < parameters.len() && (#[trigger] parameters[i]).name@ == name
}

/// Returns the position of the first parameter named `name`.
pub fn find_parameter(parameters: &[NodeParameter], name: &str) -> (found: Option<usize>)
    ensures
        found matches Some(i) ==> is_first_named(parameters@, name@, i as int),
        found is None ==> !has_named(parameters@, name@),
{
    let mut i: usize = 0;
    while i < parameters.len()
        invariant
            0 <= i <= parameters@.len(),
            forall|j: int| 0 <= j < i ==> (#[trigger] parameters@[j]).name@ != name@,
        decreases parameters@.len() - i,
    {
        if str_equal(parameters[i].name.as_str(), name) {
            return Some(i);
        }
        i = i + 1;
    }
    None
}

/// Whether `condition` holds for the given parameter values.
pub open spec fn condition_holds(
    condition: ParameterVisibilityCondition,
    parameters: Seq<NodeParameter>,
) -> bool
    decreases condition,
{
    match condition {
        ParameterVisibilityCondition::Equals { parameter, value } => exists|i: int|
            is_first_named(parameters, parameter@, i) && (#[trigger] parameters[i]).value.same(
                value,
            ),
        ParameterVisibilityCondition::Any { conditions } => any_holds(conditions@, parameters),
        ParameterVisibilityCondition::All { conditions } => all_hold(conditions@, parameters),
        ParameterVisibilityCondition::Not { condition } => !condition_holds(*condition, parameters),
    }
}

/// An equality condition on a JSON string holds exactly when the named parameter holds that
/// string.
pub proof fn lemma_text_condition(
    condition: ParameterVisibilityCondition,
    text: Seq<char>,
    parameters: Seq<NodeParameter>,
)
    requires
        condition matches ParameterVisibilityCondition::Equals { value, .. } && value.tokens@.len()
            == 1 && (value.tokens@[0] matches JsonToken::String(s) && s@ == text),
    ensures
        condition_holds(condition, parameters) == parameter_holds_text(
            parameters,
            condition->parameter@,
            text,
        ),
{
    if condition_holds(condition, parameters) {
        let i = choose|i: int|
            is_first_named(parameters, condition->parameter@, i) && (#[trigger] parameters[i]).value.same(
                condition->value,
            );
        assert(token_same(parameters[i].value.tokens@[0], condition->value.tokens@[0]));
    }
    if parameter_holds_text(parameters, condition->parameter@, text) {
        let i = choose|i: int|
            is_first_named(parameters, condition->parameter@, i) && (#[trigger] parameters[i]).value.tokens@.len()
                == 1 && (parameters[i].value.tokens@[0] matches JsonToken::String(s) && s@ == text);
        assert(token_same(parameters[i].value.tokens@[0], condition->value.tokens@[0]));
        assert(parameters[i].value.same(condition->value));
    }
}

/// An equality condition on a JSON boolean holds exactly when the named parameter holds that
/// boolean.
pub proof fn lemma_bool_condition(
    condition: ParameterVisibilityCondition,
    flag: bool,
    parameters: Seq<NodeParameter>,
)
    requires
        condition matches ParameterVisibilityCondition::Equals { value, .. } && value.tokens@
            == seq![JsonToken::Bool(flag)],
    ensures
        condition_holds(condition, parameters) == parameter_holds_bool(
            parameters,
            condition->parameter@,
            flag,
        ),
{
    if condition_holds(condition, parameters) {
        let i = choose|i: int|
            is_first_named(parameters, condition->parameter@, i) && (#[trigger] parameters[i]).value.same(
                condition->value,
            );
        assert(token_same(parameters[i].value.tokens@[0], condition->value.tokens@[0]));
        assert(parameters[i].value.tokens@ =~= seq![JsonToken::Bool(flag)]);
    }
    if parameter_holds_bool(parameters, condition->parameter@, flag) {
        let i = choose|i: int|
            is_first_named(parameters, condition->parameter@, i) && (#[trigger] parameters[i]).value.tokens@
                == seq![JsonToken::Bool(flag)];
        assert(token_same(parameters[i].value.tokens@[0], condition->value.tokens@[0]));
        assert(parameters[i].value.same(condition->value));
    }
}

/// A disjunction of two conditions holds exactly when one of them does.
pub proof fn lemma_any_of_two(condition: ParameterVisibilityCondition, parameters: Seq<NodeParameter>)
    requires
        condition matches ParameterVisibilityCondition::Any { conditions } && conditions@.len() == 2,
    ensures
        condition_holds(condition, parameters) == (condition_holds(
            condition->Any_conditions@[0],
            parameters,
        ) || condition_holds(condition->Any_conditions@[1], parameters)),
{
    let conditions = condition->Any_conditions@;
    let first = conditions.drop_last();
    assert(first.drop_last() =~= Seq::<ParameterVisibilityCondition>::empty());
    assert(first.last() == conditions[0]);
    assert(conditions.last() == conditions[1]);
    assert(!any_holds(first.drop_last(), parameters));
    assert(any_holds(first, parameters) == condition_holds(conditions[0], parameters));
    assert(any_holds(conditions, parameters) == (any_holds(first, parameters) || condition_holds(
        conditions[1],
        parameters,
    )));
}

/// Whether at least one of `conditions` holds.
pub open spec fn any_holds(
    conditions: Seq<ParameterVisibilityCondition>,
    parameters: Seq<NodeParameter>,
) -> bool
    decreases conditions,
{
    if conditions.len() == 0 {
        false
    } else {
        any_holds(conditions.drop_last(), parameters) || condition_holds(
            conditions.last(),
            parameters,
        )
    }
}

/// Whether every one of `conditions` holds.
pub open spec fn all_hold(
    conditions: Seq<ParameterVisibilityCondition>,
    parameters: Seq<NodeParameter>,
) -> bool
    decreases conditions,
{
    if conditions.len() == 0 {
        true
    } else {
        all_hold(conditions.drop_last(), parameters) && condition_holds(
            conditions.last(),
            parameters,
        )
    }
}

impl ParameterVisibilityCondition {
    /// Returns whether this visibility condition matches the current parameter values.
    pub fn matches(&self, parameters: &[NodeParameter]) -> (holds: bool)
        ensures
            holds == condition_holds(*self, parameters@),
        decreases *self,
    {
        match self {
            ParameterVisibilityCondition::Equals { parameter, value } => {
                match find_parameter(parameters, parameter.as_str()) {
                    Some(i) => json_equal(&parameters[i].value, value),
                    None => false,
                }
            },
            ParameterVisibilityCondition::Any { conditions } => {
                proof {
                    lemma_conditions_decrease(*self, *conditions);
                }
                let mut i: usize = 0;
                while i < conditions.len()
                    invariant
                        0 <= i <= conditions@.len(),
                        !any_holds(conditions@.take(i as int), parameters@),
                        condition_holds(*self, parameters@) == any_holds(conditions@, parameters@),
                        forall|k: int| 0 <= k < conditions@.len() ==> decreases_to!(*self => #[trigger] conditions@[k]),
                    decreases conditions@.len() - i,
                {
                    assert(conditions@.take(i + 1).drop_last() =~= conditions@.take(i as int));
                    if conditions[i].matches(parameters) {
                        proof {
                            lemma_any_holds_prefix(conditions@, parameters@, i as int);
                        }
                        return true;
                    }
                    i = i + 1;
                }
                assert(conditions@.take(i as int) =~= conditions@);
                false
            },
            ParameterVisibilityCondition::All { conditions } => {
                proof {
                    lemma_conditions_decrease(*self, *conditions);
                }
                let mut i: usize = 0;
                while i < conditions.len()
                    invariant
                        0 <= i <= conditions@.len(),
                        all_hold(conditions@.take(i as int), parameters@),
                        condition_holds(*self, parameters@) == all_hold(conditions@, parameters@),
                        forall|k: int| 0 <= k < conditions@.len() ==> decreases_to!(*self => #[trigger] conditions@[k]),
                    decreases conditions@.len() - i,
                {
                    assert(conditions@.take(i + 1).drop_last() =~= conditions@.take(i as int));
                    if !conditions[i].matches(parameters) {
                        proof {
                            lemma_all_hold_prefix(conditions@, parameters@, i as int);
                        }
                        return false;
                    }
                    i = i + 1;
                }
                assert(conditions@.take(i as int) =~= conditions@);
                true
            },
            ParameterVisibilityCondition::Not { condition } => !condition.matches(parameters),
        }
    }
}

proof fn lemma_conditions_decrease(
    condition: ParameterVisibilityCondition,
    conditions: Vec<ParameterVisibilityCondition>,
)
    requires
        condition == (ParameterVisibilityCondition::Any { conditions })
            || condition == (ParameterVisibilityCondition::All { conditions }),
    ensures
        forall|k: int|
            0 <= k < conditions@.len() ==> decreases_to!(condition => #[trigger] conditions@[k]),
{
    assert forall|k: int| 0 <= k < conditions@.len() implies decreases_to!(
        condition => #[trigger] conditions@[k]) by {
        match condition {
            ParameterVisibilityCondition::Any { conditions: c } => {
                assert(decreases_to!(condition => c));
            },
            ParameterVisibilityCondition::All { conditions: c } => {
                assert(decreases_to!(condition => c));
            },
            _ => {},
        }
        assert(decreases_to!(conditions => conditions@));
        assert(decreases_to!(conditions@ => conditions@[k]));
    }
}

/// If the condition at `i` holds, the whole list's disjunction holds.
proof fn lemma_any_holds_prefix(
    conditions: Seq<ParameterVisibilityCondition>,
    parameters: Seq<NodeParameter>,
    i: int,
)
    requires
        0 <= i < conditions.len(),
        condition_holds(conditions[i], parameters),
    ensures
        any_holds(conditions, parameters),
    decreases conditions.len(),
{
    if i < conditions.len() - 1 {
        assert(conditions.drop_last()[i] == conditions[i]);
        lemma_any_holds_prefix(conditions.drop_last(), parameters, i);
    }
}

/// If the condition at `i` fails, the whole list's conjunction fails.
proof fn lemma_all_hold_prefix(
    conditions: Seq<ParameterVisibilityCondition>,
    parameters: Seq<NodeParameter>,
    i: int,
)
    requires
        0 <= i < conditions.len(),
        !condition_holds(conditions[i], parameters),
    ensures
        !all_hold(conditions, parameters),
    decreases conditions.len(),
{
    if i < conditions.len() - 1 {
        assert(conditions.drop_last()[i] == conditions[i]);
        lemma_all_hold_prefix(conditions.drop_last(), parameters, i);
    }
}


/// Whether `i` is the first position in `names` holding `name`.
pub open spec fn first_match(names: Seq<Seq<char>>, name: Seq<char>, i: int) -> bool {
    &&& 0 <= i < names.len()
    &&& names[i] == name
    &&& forall|j: int| 0 <= j < i ==> names[j] != name
}

/// The position of the first entry of `names` holding `name`, if any.
pub open spec fn first_position(names: Seq<Seq<char>>, name: Seq<char>) -> Option<int> {
    if exists|i: int| first_match(names, name, i) {
        Some(choose|i: int| first_match(names, name, i))
    } else {
        None
    }
}

/// The first match is unique, so `first_position` names it.
pub proof fn lemma_first_position(names: Seq<Seq<char>>, name: Seq<char>, i: int)
    requires
        first_match(names, name, i),
    ensures
        first_position(names, name) == Some(i),
{
    let j = choose|j: int| first_match(names, name, j);
    assert(first_match(names, name, j));
    if j < i {
        assert(names[j] != name);
    }
    if i < j {
        assert(names[i] != name);
    }
}

/// No entry holds `name`, so there is no first position.
pub proof fn lemma_no_position(names: Seq<Seq<char>>, name: Seq<char>)
    requires
        forall|j: int| 0 <= j < names.len() ==> names[j] != name,
    ensures
        first_position(names, name) is None,
{
}

/// Describes one editable node parameter in the shared schema.
///
/// Parameter values are persisted as JSON on graph nodes and interpreted according to the default
/// value and UI hint defined here.
#[derive(Debug)]
pub struct NodeParameterDefinition {
    pub name: String,
    pub display_name: String,
    pub default_value: ParameterDefaultValue,
    pub ui_hint: ParameterUiHint,
    pub visible_when: Option<ParameterVisibilityCondition>,
}

impl NodeParameterDefinition {
    /// Builds a parameter definition that is always visible.
    pub fn new(
        name: &str,
        display_name: String,
        default_value: ParameterDefaultValue,
        ui_hint: ParameterUiHint,
    ) -> (definition: NodeParameterDefinition)
        ensures
            definition.name@ == name@,
            definition.display_name == display_name,
            definition.default_value == default_value,
            definition.ui_hint == ui_hint,
            definition.visible_when is None,
    {
        NodeParameterDefinition {
            name: name.to_owned(),
            display_name,
            default_value,
            ui_hint,
            visible_when: None,
        }
    }

    /// Shows the parameter only when `condition` holds.
    pub fn visible_when(self, condition: ParameterVisibilityCondition) -> (definition:
        NodeParameterDefinition)
        ensures
            definition == (NodeParameterDefinition { visible_when: Some(condition), ..self }),
    {
        let mut definition = self;
        definition.visible_when = Some(condition);
        definition
    }

    /// The parameter as the editor sees it.
    pub open spec fn shape(self) -> ParameterShape {
        ParameterShape {
            name: self.name@,
            display_name: self.display_name@,
            default: self.default_value.view_of(),
            hint: self.ui_hint.view_of(),
            shown: |parameters: Seq<NodeParameter>| self.shown_for(parameters),
        }
    }

    /// Whether the parameter is shown for the given parameter values.
    pub open spec fn shown_for(self, parameters: Seq<NodeParameter>) -> bool {
        match self.visible_when {
            None => true,
            Some(condition) => condition_holds(condition, parameters),
        }
    }

    /// Returns whether the parameter should be shown for the current parameter values.
    pub fn is_visible(&self, parameters: &[NodeParameter]) -> (visible: bool)
        ensures
            visible == self.shown_for(parameters@),
    {
        match &self.visible_when {
            None => true,
            Some(condition) => condition.matches(parameters),
        }
    }
}

/// Describes the shared schema for a single node type.
///
/// A `NodeDefinition` is the canonical shared description of a node's ports, parameters,
/// connection rules, and editor-visible runtime updates.
#[derive(Debug)]
pub struct NodeDefinition {
    pub id: String,
    pub display_name: String,
    pub category: NodeCategory,
    pub needs_io: bool,
    pub inputs: Vec<NodeInputDefinition>,
    pub outputs: Vec<NodeOutputDefinition>,
    pub parameters: Vec<NodeParameterDefinition>,
    pub connection: NodeConnectionDefinition,
    pub runtime_updates: Option<NodeRuntimeUpdateDefinition>,
}

/// The names of input ports, in order.
pub open spec fn input_names(inputs: Seq<NodeInputDefinition>) -> Seq<Seq<char>> {
    inputs.map_values(|p: NodeInputDefinition| p.name@)
}

/// The names of output ports, in order.
pub open spec fn output_names(outputs: Seq<NodeOutputDefinition>) -> Seq<Seq<char>> {
    outputs.map_values(|p: NodeOutputDefinition| p.name@)
}

/// The names of parameter definitions, in order.
pub open spec fn parameter_names(parameters: Seq<NodeParameterDefinition>) -> Seq<Seq<char>> {
    parameters.map_values(|p: NodeParameterDefinition| p.name@)
}

/// The names of runtime values, in order.
pub open spec fn runtime_value_names(values: Seq<NodeRuntimeValueDefinition>) -> Seq<Seq<char>> {
    values.map_values(|p: NodeRuntimeValueDefinition| p.name@)
}

/// The first input port named `name`.
pub open spec fn input_port_named(inputs: Seq<NodeInputDefinition>, name: Seq<char>) -> Option<
    NodeInputDefinition,
> {
    match first_position(input_names(inputs), name) {
        Some(i) => Some(inputs[i]),
        None => None,
    }
}

/// The first output port named `name`.
pub open spec fn output_port_named(outputs: Seq<NodeOutputDefinition>, name: Seq<char>) -> Option<
    NodeOutputDefinition,
> {
    match first_position(output_names(outputs), name) {
        Some(i) => Some(outputs[i]),
        None => None,
    }
}

/// The shapes of output ports.
pub open spec fn output_shapes(outputs: Seq<NodeOutputDefinition>) -> Seq<PortShape> {
    outputs.map_values(|p: NodeOutputDefinition| p.shape())
}

/// The shapes of input ports.
pub open spec fn input_shapes(inputs: Seq<NodeInputDefinition>) -> Seq<InputShape> {
    inputs.map_values(|p: NodeInputDefinition| p.shape())
}

/// The shapes of parameters.
pub open spec fn parameter_shapes(parameters: Seq<NodeParameterDefinition>) -> Seq<ParameterShape> {
    parameters.map_values(|p: NodeParameterDefinition| p.shape())
}

/// Whether the editor subscribes to a node's runtime values on its own, and their shapes.
pub open spec fn runtime_shapes(updates: Option<NodeRuntimeUpdateDefinition>) -> Option<
    (bool, Seq<PortShape>),
> {
    match updates {
        Some(u) => Some(
            (
                u.auto_subscribe_in_editor,
                u.values@.map_values(|v: NodeRuntimeValueDefinition| v.shape()),
            ),
        ),
        None => None,
    }
}

/// The first output shape named `name`.
pub open spec fn output_shape_named(outputs: Seq<PortShape>, name: Seq<char>) -> Option<PortShape> {
    match first_position(outputs.map_values(|p: PortShape| p.name), name) {
        Some(i) => Some(outputs[i]),
        None => None,
    }
}

/// The first input shape named `name`.
pub open spec fn input_shape_named(inputs: Seq<InputShape>, name: Seq<char>) -> Option<InputShape> {
    match first_position(inputs.map_values(|p: InputShape| p.name), name) {
        Some(i) => Some(inputs[i]),
        None => None,
    }
}

/// Looking a port up among shapes finds the shape of the port looked up among definitions.
pub proof fn lemma_output_shape_named(outputs: Seq<NodeOutputDefinition>, name: Seq<char>)
    ensures
        output_shape_named(output_shapes(outputs), name) == match output_port_named(outputs, name) {
            Some(p) => Some(p.shape()),
            None => None,
        },
{
    assert(output_shapes(outputs).map_values(|p: PortShape| p.name) =~= output_names(outputs));
}

/// Looking a port up among shapes finds the shape of the port looked up among definitions.
pub proof fn lemma_input_shape_named(inputs: Seq<NodeInputDefinition>, name: Seq<char>)
    ensures
        input_shape_named(input_shapes(inputs), name) == match input_port_named(inputs, name) {
            Some(p) => Some(p.shape()),
            None => None,
        },
{
    assert(input_shapes(inputs).map_values(|p: InputShape| p.name) =~= input_names(inputs));
}

/// Returns the first input port named `name`.
pub fn find_input<'a>(inputs: &'a Vec<NodeInputDefinition>, name: &str) -> (port: Option<
    &'a NodeInputDefinition,
>)
    ensures
        port matches Some(p) ==> input_port_named(inputs@, name@) == Some(*p),
        port is None ==> input_port_named(inputs@, name@) is None,
{
    let ghost names = input_names(inputs@);
    let mut i: usize = 0;
    while i < inputs.len()
        invariant
            0 <= i <= inputs@.len(),
            names == input_names(inputs@),
            forall|j: int| 0 <= j < i ==> names[j] != name@,
        decreases inputs@.len() - i,
    {
        if str_equal(inputs[i].name.as_str(), name) {
            proof {
                lemma_first_position(names, name@, i as int);
            }
            return Some(&inputs[i]);
        }
        i = i + 1;
    }
    None
}

/// Returns the first output port named `name`.
pub fn find_output<'a>(outputs: &'a Vec<NodeOutputDefinition>, name: &str) -> (port: Option<
    &'a NodeOutputDefinition,
>)
    ensures
        port matches Some(p) ==> output_port_named(outputs@, name@) == Some(*p),
        port is None ==> output_port_named(outputs@, name@) is None,
{
    let ghost names = output_names(outputs@);
    let mut i: usize = 0;
    while i < outputs.len()
        invariant
            0 <= i <= outputs@.len(),
            names == output_names(outputs@),
            forall|j: int| 0 <= j < i ==> names[j] != name@,
        decreases outputs@.len() - i,
    {
        if str_equal(outputs[i].name.as_str(), name) {
            proof {
                lemma_first_position(names, name@, i as int);
            }
            return Some(&outputs[i]);
        }
        i = i + 1;
    }
    None
}

impl NodeDefinition {
    /// Returns the named input port definition, if present.
    pub fn input_port(&self, name: &str) -> (port: Option<&NodeInputDefinition>)
        ensures
            port matches Some(p) ==> input_port_named(self.inputs@, name@) == Some(*p),
            port is None ==> input_port_named(self.inputs@, name@) is None,
    {
        find_input(&self.inputs, name)
    }

    /// Returns the named output port definition, if present.
    pub fn output_port(&self, name: &str) -> (port: Option<&NodeOutputDefinition>)
        ensures
            port matches Some(p) ==> output_port_named(self.outputs@, name@) == Some(*p),
            port is None ==> output_port_named(self.outputs@, name@) is None,
    {
        find_output(&self.outputs, name)
    }

    /// Returns the named parameter definition, if present.
    pub fn parameter(&self, name: &str) -> (parameter: Option<&NodeParameterDefinition>)
        ensures
            parameter matches Some(p) ==> exists|i: int|
                first_match(parameter_names(self.parameters@), name@, i) && *p
                    == self.parameters@[i],
            parameter is None ==> first_position(parameter_names(self.parameters@), name@) is None,
    {
        let ghost names = parameter_names(self.parameters@);
        let mut i: usize = 0;
        while i < self.parameters.len()
            invariant
                0 <= i <= self.parameters@.len(),
                names == parameter_names(self.parameters@),
                forall|j: int| 0 <= j < i ==> names[j] != name@,
            decreases self.parameters@.len() - i,
        {
            if str_equal(self.parameters[i].name.as_str(), name) {
                assert(first_match(names, name@, i as int));
                return Some(&self.parameters[i]);
            }
            i = i + 1;
        }
        None
    }

    /// Returns whether an output port can legally connect to an input port under this node's rules.
    pub fn can_connect_ports(
        &self,
        from_port: &NodeOutputDefinition,
        to_port: &NodeInputDefinition,
    ) -> (ok: bool)
        ensures
            ok == (!self.connection.require_value_kind_match || to_port.accepts(
                from_port.value_kind,
            )),
    {
        if self.connection.require_value_kind_match && !to_port.accepts_kind(from_port.value_kind) {
            return false;
        }
        true
    }

    /// Returns the named runtime-update value definition, if runtime updates are declared.
    pub fn runtime_update_value(&self, name: &str) -> (value: Option<&NodeRuntimeValueDefinition>)
        ensures
            match self.runtime_updates {
                None => value is None,
                Some(updates) => {
                    &&& value matches Some(v) ==> exists|i: int|
                        first_match(runtime_value_names(updates.values@), name@, i) && *v
                            == updates.values@[i]
                    &&& value is None ==> first_position(
                        runtime_value_names(updates.values@),
                        name@,
                    ) is None
                },
            },
    {
        let updates = match &self.runtime_updates {
            Some(updates) => updates,
            None => return None,
        };
        let ghost names = runtime_value_names(updates.values@);
        let mut i: usize = 0;
        while i < updates.values.len()
            invariant
                0 <= i <= updates.values@.len(),
                names == runtime_value_names(updates.values@),
                self.runtime_updates == Some(*updates),
                forall|j: int| 0 <= j < i ==> names[j] != name@,
            decreases updates.values@.len() - i,
        {
            if str_equal(updates.values[i].name.as_str(), name) {
                assert(first_match(names, name@, i as int));
                return Some(&updates.values[i]);
            }
            i = i + 1;
        }
        None
    }
}

/// A parameter without a visibility condition is shown whatever the parameter values are.
pub proof fn lemma_unconditioned_parameter_is_shown(
    definition: NodeParameterDefinition,
    parameters: Seq<NodeParameter>,
)
    requires
        definition.visible_when is None,
    ensures
        definition.shown_for(parameters),
{
}

} // verus!
