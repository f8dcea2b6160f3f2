//! Editor-side helpers on node values and schemas: default values by kind, coercion of stored
//! values to a port's kind, and which parameter controls are shown.

use vstd::prelude::*;
use crate::protocol::{MqttBrokerConfig, WledInstance};
use crate::schema::{
    first_position, lemma_first_position, lemma_no_position, EnumOption, NodeDefinition,
    NodeParameter, NodeParameterDefinition,
};
use crate::text::{str_equal, trim, trim_text};
use crate::value::{ColorFrame, Decimal, FloatTensor, InputValue, LedLayout, LedLayoutRole, RgbaColor, ValueKind};

verus! {

/// The layout of generic default frame and layout values: id `default`, a render target with
/// `pixel_count` pixels and no dimensions or points.
pub open spec fn is_default_layout(layout: LedLayout, pixel_count: usize) -> bool {
    &&& layout.id@ == "default"@
    &&& layout.role == LedLayoutRole::RenderTarget
    &&& layout.pixel_count == pixel_count
    &&& layout.width is None
    &&& layout.height is None
    &&& layout.points_3d is None
}

/// Whether `value` is the generic default value of `kind`: `0` for floats and `Any`, the empty
/// string, the one-element zero tensor, opaque white, a 60-pixel default layout, and empty
/// frames on an empty default layout.
pub open spec fn is_default_value(value: InputValue, kind: ValueKind) -> bool {
    match kind {
        ValueKind::Any | ValueKind::Float => value == InputValue::Float(
            Decimal { negative: false, significand: 0, exponent: 0 },
        ),
        ValueKind::String => value matches InputValue::String(s) && s@.len() == 0,
        ValueKind::FloatTensor => value matches InputValue::FloatTensor(t) && t.shape@ == seq![1usize]
            && t.values@ == seq![Decimal { negative: false, significand: 0, exponent: 0 }],
        ValueKind::Color => value == InputValue::Color(
            RgbaColor {
                r: Decimal { negative: false, significand: 1, exponent: 0 },
                g: Decimal { negative: false, significand: 1, exponent: 0 },
                b: Decimal { negative: false, significand: 1, exponent: 0 },
                a: Decimal { negative: false, significand: 1, exponent: 0 },
            },
        ),
        ValueKind::LedLayout => value matches InputValue::LedLayout(l) && is_default_layout(l, 60),
        ValueKind::ColorFrame => value matches InputValue::ColorFrame(f) && is_default_layout(
            f.layout,
            0,
        ) && f.pixels@.len() == 0,
        ValueKind::MappedFrame => value matches InputValue::MappedFrame(f) && is_default_layout(
            f.layout,
            0,
        ) && f.pixels@.len() == 0,
    }
}

fn default_layout(pixel_count: usize) -> (layout: LedLayout)
    ensures
        is_default_layout(layout, pixel_count),
{
    LedLayout {
        id: "default".to_owned(),
        role: LedLayoutRole::RenderTarget,
        pixel_count,
        width: None,
        height: None,
        points_3d: None,
    }
}

/// Returns the generic default input value for a value kind.
pub fn default_input_value(kind: ValueKind) -> (value: InputValue)
    ensures
        is_default_value(value, kind),
        value.kind() == (if kind == ValueKind::Any {
            ValueKind::Float
        } else {
            kind
        }),
{
    match kind {
        ValueKind::Any => InputValue::Float(Decimal::new(0, 0)),
        ValueKind::Float => InputValue::Float(Decimal::new(0, 0)),
        ValueKind::String => InputValue::String(String::new()),
        ValueKind::FloatTensor => {
            let mut shape: Vec<usize> = Vec::new();
            shape.push(1);
            let mut values: Vec<Decimal> = Vec::new();
            values.push(Decimal::new(0, 0));
            assert(shape@ =~= seq![1usize]);
            assert(values@ =~= seq![Decimal { negative: false, significand: 0, exponent: 0 }]);
            InputValue::FloatTensor(FloatTensor { shape, values })
        },
        ValueKind::Color => InputValue::Color(
            RgbaColor {
                r: Decimal::new(1, 0),
                g: Decimal::new(1, 0),
                b: Decimal::new(1, 0),
                a: Decimal::new(1, 0),
            },
        ),
        ValueKind::LedLayout => InputValue::LedLayout(default_layout(60)),
        ValueKind::ColorFrame => InputValue::ColorFrame(
            ColorFrame { layout: default_layout(0), pixels: Vec::new() },
        ),
        ValueKind::MappedFrame => InputValue::MappedFrame(
            ColorFrame { layout: default_layout(0), pixels: Vec::new() },
        ),
    }
}

/// Coerces an input value to the expected port kind.
///
/// Values that already match the requested kind, and every value for `Any`, are preserved.
/// Mismatched values are replaced with the generic default for that kind.
pub fn coerce_input_value_kind(value: InputValue, kind: ValueKind) -> (coerced: InputValue)
    ensures
        kind == ValueKind::Any || value.kind() == kind ==> coerced == value,
        !(kind == ValueKind::Any || value.kind() == kind) ==> is_default_value(coerced, kind),
{
    if kind == ValueKind::Any || value.value_kind() == kind {
        value
    } else {
        default_input_value(kind)
    }
}

/// The parameter definitions shown for the given parameter values, in schema order.
pub open spec fn shown_parameters(
    definitions: Seq<NodeParameterDefinition>,
    parameters: Seq<NodeParameter>,
) -> Seq<NodeParameterDefinition> {
    definitions.filter(|d: NodeParameterDefinition| d.shown_for(parameters))
}

/// Returns the subset of parameter definitions that should currently be shown in the editor.
pub fn visible_parameter_definitions<'a>(
    definition: &'a NodeDefinition,
    parameters: &[NodeParameter],
) -> (visible: Vec<&'a NodeParameterDefinition>)
    ensures
        visible@.map_values(|d: &NodeParameterDefinition| *d) == shown_parameters(
            definition.parameters@,
            parameters@,
        ),
{
    let ghost all = definition.parameters@;
    let mut visible: Vec<&'a NodeParameterDefinition> = Vec::new();
    let mut i: usize = 0;
    assert(visible@.map_values(|d: &NodeParameterDefinition| *d) =~= shown_parameters(all.take(0), parameters@)) by {
        reveal(Seq::filter);
    }
    while i < definition.parameters.len()
        invariant
            i <= all.len(),
            all == definition.parameters@,
            visible@.map_values(|d: &NodeParameterDefinition| *d) == shown_parameters(all.take(i as int), parameters@),
        decreases all.len() - i,
    {
        let candidate = &definition.parameters[i];
        proof {
            reveal(Seq::filter);
            assert(all.take(i + 1).drop_last() =~= all.take(i as int));
            assert(all.take(i + 1).last() == *candidate);
        }
        let ghost before = visible@.map_values(|d: &NodeParameterDefinition| *d);
        if candidate.is_visible(parameters) {
            visible.push(candidate);
            assert(visible@.map_values(|d: &NodeParameterDefinition| *d) =~= before.push(*candidate));
        }
        i = i + 1;
    }
    assert(all.take(i as int) =~= all);
    visible
}

/// The ids of node definitions, in order.
pub open spec fn definition_ids(definitions: Seq<NodeDefinition>) -> Seq<Seq<char>> {
    definitions.map_values(|d: NodeDefinition| d.id@)
}

/// Finds the first node definition with id `node_type_id`.
pub fn find_node_definition<'a>(
    available_node_definitions: &'a [NodeDefinition],
    node_type_id: &str,
) -> (definition: Option<&'a NodeDefinition>)
    ensures
        match crate::schema::first_position(definition_ids(available_node_definitions@), node_type_id@) {
            Some(i) => definition == Some(&available_node_definitions@[i]),
            None => definition is None,
        },
{
    let ghost ids = definition_ids(available_node_definitions@);
    let mut i: usize = 0;
    while i < available_node_definitions.len()
        invariant
            i <= available_node_definitions@.len(),
            ids == definition_ids(available_node_definitions@),
            forall|j: int| 0 <= j < i ==> ids[j] != node_type_id@,
        decreases available_node_definitions@.len() - i,
    {
        if str_equal(available_node_definitions[i].id.as_str(), node_type_id) {
            proof {
                crate::schema::lemma_first_position(ids, node_type_id@, i as int);
            }
            return Some(&available_node_definitions[i]);
        }
        i = i + 1;
    }
    proof {
        crate::schema::lemma_no_position(ids, node_type_id@);
    }
    None
}

/// The generic default of a kind has that kind (`Any` defaults to a float), so coercing a
/// coerced value to the same kind again keeps it.
pub proof fn lemma_coercion_is_stable(value: InputValue, kind: ValueKind)
    requires
        is_default_value(value, kind),
    ensures
        kind == ValueKind::Any || value.kind() == kind,
{
}


/// The values of enum options, in order.
pub open spec fn option_values(options: Seq<EnumOption>) -> Seq<Seq<char>> {
    options.map_values(|o: EnumOption| o.value@)
}

/// The label an enum selector shows: that of the first option with the selected value, else
/// that of the first option, else nothing.
pub open spec fn enum_label_text(options: Seq<EnumOption>, selected: Seq<char>) -> Seq<char> {
    match first_position(option_values(options), selected) {
        Some(i) => options[i].label@,
        None => if options.len() > 0 {
            options[0].label@
        } else {
            Seq::empty()
        },
    }
}

/// Returns the label an enum selector shows for the selected value.
pub fn enum_selected_label(options: &[EnumOption], selected: &str) -> (label: String)
    ensures
        label@ == enum_label_text(options@, selected@),
{
    let ghost values = option_values(options@);
    let mut i: usize = 0;
    while i < options.len()
        invariant
            i <= options@.len(),
            values == option_values(options@),
            forall|j: int| 0 <= j < i ==> values[j] != selected@,
        decreases options@.len() - i,
    {
        if str_equal(options[i].value.as_str(), selected) {
            proof {
                lemma_first_position(values, selected@, i as int);
            }
            return options[i].label.clone();
        }
        i = i + 1;
    }
    proof {
        lemma_no_position(values, selected@);
    }
    if options.len() > 0 {
        options[0].label.clone()
    } else {
        String::new()
    }
}

/// The value an enum parameter keeps: the selected value, or the first option's when nothing
/// is selected.
pub fn enum_selection(options: &[EnumOption], selected: String) -> (value: String)
    ensures
        value@ == if selected@.len() == 0 && options@.len() > 0 {
            options@[0].value@
        } else {
            selected@
        },
{
    if selected.as_str().unicode_len() == 0 && options.len() > 0 {
        options[0].value.clone()
    } else {
        selected
    }
}

/// The label of a discovered WLED instance: its host, after its name when it has one.
pub open spec fn wled_label_text(instance: WledInstance) -> Seq<char> {
    if instance.name@.len() == 0 {
        instance.host@
    } else {
        instance.name@ + " ("@ + instance.host@ + ")"@
    }
}

/// Returns the label of a discovered WLED instance.
pub fn wled_instance_label(instance: &WledInstance) -> (label: String)
    ensures
        label@ == wled_label_text(*instance),
{
    if instance.name.as_str().unicode_len() == 0 {
        instance.host.clone()
    } else {
        let mut label = instance.name.clone();
        label.append(" (");
        label.append(instance.host.as_str());
        label.append(")");
        label
    }
}

/// The label of an MQTT broker in the selector: its id, after its display name when that is
/// not blank.
pub open spec fn broker_label_text(broker: MqttBrokerConfig) -> Seq<char> {
    if trim_text(broker.display_name@).len() == 0 {
        broker.id@
    } else {
        broker.display_name@ + " ("@ + broker.id@ + ")"@
    }
}

/// Returns the label of an MQTT broker in the selector.
pub fn mqtt_broker_option_label(broker: &MqttBrokerConfig) -> (label: String)
    ensures
        label@ == broker_label_text(*broker),
{
    if trim(broker.display_name.as_str()).unicode_len() == 0 {
        broker.id.clone()
    } else {
        let mut label = broker.display_name.clone();
        label.append(" (");
        label.append(broker.id.as_str());
        label.append(")");
        label
    }
}

/// The ids of brokers, in order.
pub open spec fn broker_ids(brokers: Seq<MqttBrokerConfig>) -> Seq<Seq<char>> {
    brokers.map_values(|b: MqttBrokerConfig| b.id@)
}

/// The text the broker selector shows: the selected broker's label, marked when it is not a
/// Home Assistant broker; the raw selection when no broker has it; a prompt when nothing is
/// selected.
pub open spec fn broker_selection_text(brokers: Seq<MqttBrokerConfig>, selected: Seq<char>) -> Seq<char> {
    match first_position(broker_ids(brokers), selected) {
        Some(i) => if brokers[i].is_home_assistant {
            broker_label_text(brokers[i])
        } else {
            broker_label_text(brokers[i]) + " (not Home Assistant)"@
        },
        None => if selected.len() == 0 {
            "Select broker"@
        } else {
            selected
        },
    }
}

/// Returns the text the broker selector shows for the selected broker id.
pub fn mqtt_broker_selected_text(brokers: &[MqttBrokerConfig], selected: &str) -> (text: String)
    ensures
        text@ == broker_selection_text(brokers@, selected@),
{
    let ghost ids = broker_ids(brokers@);
    let mut i: usize = 0;
    while i < brokers.len()
        invariant
            i <= brokers@.len(),
            ids == broker_ids(brokers@),
            forall|j: int| 0 <= j < i ==> ids[j] != selected@,
        decreases brokers@.len() - i,
    {
        if str_equal(brokers[i].id.as_str(), selected) {
            proof {
                lemma_first_position(ids, selected@, i as int);
            }
            let mut label = mqtt_broker_option_label(&brokers[i]);
            if !brokers[i].is_home_assistant {
                label.append(" (not Home Assistant)");
            }
            return label;
        }
        i = i + 1;
    }
    proof {
        lemma_no_position(ids, selected@);
    }
    if selected.unicode_len() == 0 {
        "Select broker".to_owned()
    } else {
        selected.to_owned()
    }
}

} // verus!
