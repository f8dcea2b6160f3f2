//! Output-kind inference: how a node's output kind follows from the kinds reaching its inputs.

use vstd::prelude::*;
use crate::schema::{
    first_match, first_position, lemma_first_position, output_port_named, NodeDefinition,
    NodeOutputDefinition, NodeParameter, NodeTypeId, PortShape, InferenceRule, output_shape_named,
    output_shapes, lemma_output_shape_named, find_parameter, is_first_named, has_named,
};
use crate::text::str_equal;
use crate::value::ValueKind;

verus! {

/// The kind that reaches one named input of a node.
#[derive(Debug, Clone, Copy, PartialEq, Eq)]
pub struct InputKindRef<'a> {
    pub name: &'a str,
    pub kind: ValueKind,
}

/// The outcome of inferring the kind of one output.
#[derive(Debug, Clone, PartialEq, Eq)]
pub enum OutputInference {
    /// The output resolves to this kind.
    Resolved(ValueKind),
    /// The inputs reaching the node are incompatible; the message says why.
    Invalid { message: String },
    /// The node or the output does not exist.
    Unavailable,
}

/// An inference outcome with its message as characters.
pub enum Inferred {
    Resolved(ValueKind),
    Invalid(Seq<char>),
    Unavailable,
}

impl Inferred {
    /// The resolved kind, if any.
    pub open spec fn kind(self) -> Option<ValueKind> {
        match self {
            Inferred::Resolved(kind) => Some(kind),
            _ => None,
        }
    }

    /// The message of an invalid outcome, if any.
    pub open spec fn message(self) -> Option<Seq<char>> {
        match self {
            Inferred::Invalid(message) => Some(message),
            _ => None,
        }
    }
}

impl OutputInference {
    /// The outcome, messages as characters.
    pub open spec fn outcome(self) -> Inferred {
        match self {
            OutputInference::Resolved(kind) => Inferred::Resolved(kind),
            OutputInference::Invalid { message } => Inferred::Invalid(message@),
            OutputInference::Unavailable => Inferred::Unavailable,
        }
    }

    /// Returns the resolved kind, if the output resolved.
    pub fn kind(&self) -> (kind: Option<ValueKind>)
        ensures
            kind == self.outcome().kind(),
    {
        match self {
            OutputInference::Resolved(kind) => Some(*kind),
            _ => None,
        }
    }

    /// Returns the explanation, if the inputs were incompatible.
    pub fn message(&self) -> (message: Option<&str>)
        ensures
            match self.outcome().message() {
                Some(m) => message matches Some(t) && t@ == m,
                None => message is None,
            },
    {
        match self {
            OutputInference::Invalid { message } => Some(message.as_str()),
            _ => None,
        }
    }
}

/// Each input's name and kind.
pub open spec fn kind_pairs(input_kinds: Seq<InputKindRef>) -> Seq<(Seq<char>, ValueKind)> {
    input_kinds.map_values(|k: InputKindRef| (k.name@, k.kind))
}

/// The names of the given input kinds, in order.
pub open spec fn kind_names(input_kinds: Seq<(Seq<char>, ValueKind)>) -> Seq<Seq<char>> {
    input_kinds.map_values(|k: (Seq<char>, ValueKind)| k.0)
}

/// The kind reaching the first input named `name`.
pub open spec fn kind_of_input(input_kinds: Seq<(Seq<char>, ValueKind)>, name: Seq<char>) -> Option<
    ValueKind,
> {
    match first_position(kind_names(input_kinds), name) {
        Some(i) => Some(input_kinds[i].1),
        None => None,
    }
}

/// Returns the kind reaching the first input named `name`.
pub fn input_kind(input_kinds: &[InputKindRef<'_>], name: &str) -> (kind: Option<ValueKind>)
    ensures
        kind == kind_of_input(kind_pairs(input_kinds@), name@),
{
    let ghost names = kind_names(kind_pairs(input_kinds@));
    let mut i: usize = 0;
    while i < input_kinds.len()
        invariant
            0 <= i <= input_kinds@.len(),
            names == kind_names(kind_pairs(input_kinds@)),
            forall|j: int| 0 <= j < i ==> names[j] != name@,
        decreases input_kinds@.len() - i,
    {
        if str_equal(input_kinds[i].name, name) {
            proof {
                lemma_first_position(names, name@, i as int);
            }
            return Some(input_kinds[i].kind);
        }
        i = i + 1;
    }
    None
}

/// The first candidate kind that `output` accepts.
pub open spec fn first_accepted(output: PortShape, candidates: Seq<Option<ValueKind>>) -> Option<
    ValueKind,
>
    decreases candidates.len(),
{
    if candidates.len() == 0 {
        None
    } else {
        match first_accepted(output, candidates.drop_last()) {
            Some(kind) => Some(kind),
            None => match candidates.last() {
                Some(kind) => if output.accepts(kind) {
                    Some(kind)
                } else {
                    None
                },
                None => None,
            },
        }
    }
}

/// Whether `kind` is among the candidates and `output` accepts it.
pub open spec fn preferred_available(
    output: PortShape,
    candidates: Seq<Option<ValueKind>>,
    kind: ValueKind,
) -> bool {
    candidates.contains(Some(kind)) && output.accepts(kind)
}

/// The kind an output takes given its candidate input kinds: frames first, then tensors, then
/// floats, then the first accepted candidate, else the output's own kind.
pub open spec fn preferred_kind(output: PortShape, candidates: Seq<Option<ValueKind>>) -> ValueKind {
    if preferred_available(output, candidates, ValueKind::ColorFrame) {
        ValueKind::ColorFrame
    } else if preferred_available(output, candidates, ValueKind::FloatTensor) {
        ValueKind::FloatTensor
    } else if preferred_available(output, candidates, ValueKind::Float) {
        ValueKind::Float
    } else {
        match first_accepted(output, candidates) {
            Some(kind) => kind,
            None => output.kind,
        }
    }
}

fn candidates_contain(candidates: &[Option<ValueKind>], kind: ValueKind) -> (found: bool)
    ensures
        found == candidates@.contains(Some(kind)),
{
    let mut i: usize = 0;
    while i < candidates.len()
        invariant
            0 <= i <= candidates@.len(),
            forall|j: int| 0 <= j < i ==> candidates@[j] != Some(kind),
        decreases candidates@.len() - i,
    {
        if let Some(candidate) = candidates[i] {
            if candidate == kind {
                return true;
            }
        }
        i = i + 1;
    }
    false
}

/// Returns the kind an output takes given the kinds of its relevant inputs.
pub fn infer_preferred_kind(output: &NodeOutputDefinition, candidates: &[Option<ValueKind>]) -> (kind:
    ValueKind)
    ensures
        kind == preferred_kind(output.shape(), candidates@),
{
    if candidates_contain(candidates, ValueKind::ColorFrame) && output.accepts_kind(
        ValueKind::ColorFrame,
    ) {
        return ValueKind::ColorFrame;
    }
    if candidates_contain(candidates, ValueKind::FloatTensor) && output.accepts_kind(
        ValueKind::FloatTensor,
    ) {
        return ValueKind::FloatTensor;
    }
    if candidates_contain(candidates, ValueKind::Float) && output.accepts_kind(ValueKind::Float) {
        return ValueKind::Float;
    }
    let mut i: usize = 0;
    while i < candidates.len()
        invariant
            0 <= i <= candidates@.len(),
            first_accepted(output.shape(), candidates@.take(i as int)) is None,
            !preferred_available(output.shape(), candidates@, ValueKind::ColorFrame),
            !preferred_available(output.shape(), candidates@, ValueKind::FloatTensor),
            !preferred_available(output.shape(), candidates@, ValueKind::Float),
        decreases candidates@.len() - i,
    {
        assert(candidates@.take(i + 1).drop_last() =~= candidates@.take(i as int));
        if let Some(candidate) = candidates[i] {
            if output.accepts_kind(candidate) {
                proof {
                    lemma_first_accepted_prefix(output.shape(), candidates@, i as int + 1);
                }
                return candidate;
            }
        }
        i = i + 1;
    }
    assert(candidates@.take(i as int) =~= candidates@);
    output.value_kind
}

/// Once a prefix has an accepted candidate, the whole sequence has the same one.
proof fn lemma_first_accepted_prefix(
    output: PortShape,
    candidates: Seq<Option<ValueKind>>,
    n: int,
)
    requires
        0 <= n <= candidates.len(),
        first_accepted(output, candidates.take(n)) is Some,
    ensures
        first_accepted(output, candidates) == first_accepted(output, candidates.take(n)),
    decreases candidates.len(),
{
    if n < candidates.len() {
        assert(candidates.drop_last().take(n) =~= candidates.take(n));
        lemma_first_accepted_prefix(output, candidates.drop_last(), n);
    } else {
        assert(candidates.take(n) =~= candidates);
    }
}

/// The inputs whose kinds decide a numeric node's output kind.
pub open spec fn numeric_relevant_inputs(node_type_id: Seq<char>) -> Seq<Seq<char>> {
    if node_type_id == NodeTypeId::ABS@ || node_type_id == NodeTypeId::EXPONENTIAL@
        || node_type_id == NodeTypeId::ROUND@ {
        seq!["value"@]
    } else if node_type_id == NodeTypeId::CLAMP@ {
        seq!["value"@, "min"@, "max"@]
    } else if node_type_id == NodeTypeId::MAP_RANGE@ {
        seq!["value"@, "source_min"@, "source_max"@, "target_min"@, "target_max"@]
    } else if node_type_id == NodeTypeId::POWER@ {
        seq!["base"@, "exponent"@]
    } else if node_type_id == NodeTypeId::ROOT@ {
        seq!["value"@, "degree"@]
    } else if node_type_id == NodeTypeId::LOG@ {
        seq!["value"@, "base"@]
    } else {
        seq!["a"@, "b"@]
    }
}

/// The output kind of a numeric node given its inputs' kinds.
pub open spec fn numeric_output_kind(
    node_type_id: Seq<char>,
    output: PortShape,
    input_kinds: Seq<(Seq<char>, ValueKind)>,
) -> ValueKind {
    preferred_kind(
        output,
        numeric_relevant_inputs(node_type_id).map_values(
            |name: Seq<char>| kind_of_input(input_kinds, name),
        ),
    )
}

fn relevant_numeric_inputs(node_type_id: &str) -> (names: Vec<&'static str>)
    ensures
        names@.map_values(|n: &str| n@) == numeric_relevant_inputs(node_type_id@),
{
    let names: Vec<&'static str>;
    if str_equal(node_type_id, NodeTypeId::ABS) || str_equal(node_type_id, NodeTypeId::EXPONENTIAL)
        || str_equal(node_type_id, NodeTypeId::ROUND) {
        names = vec!["value"];
    } else if str_equal(node_type_id, NodeTypeId::CLAMP) {
        names = vec!["value", "min", "max"];
    } else if str_equal(node_type_id, NodeTypeId::MAP_RANGE) {
        names = vec!["value", "source_min", "source_max", "target_min", "target_max"];
    } else if str_equal(node_type_id, NodeTypeId::POWER) {
        names = vec!["base", "exponent"];
    } else if str_equal(node_type_id, NodeTypeId::ROOT) {
        names = vec!["value", "degree"];
    } else if str_equal(node_type_id, NodeTypeId::LOG) {
        names = vec!["value", "base"];
    } else {
        names = vec!["a", "b"];
    }
    assert(names@.map_values(|n: &str| n@) =~= numeric_relevant_inputs(node_type_id@));
    names
}

/// Returns the output kind of a numeric node given its inputs' kinds.
pub fn infer_numeric_output_kind(
    node_type_id: &str,
    output: &NodeOutputDefinition,
    input_kinds: &[InputKindRef<'_>],
) -> (kind: ValueKind)
    ensures
        kind == numeric_output_kind(node_type_id@, output.shape(), kind_pairs(input_kinds@)),
{
    let names = relevant_numeric_inputs(node_type_id);
    let ghost expected = numeric_relevant_inputs(node_type_id@).map_values(
        |name: Seq<char>| kind_of_input(kind_pairs(input_kinds@), name),
    );
    let mut kinds: Vec<Option<ValueKind>> = Vec::new();
    let mut i: usize = 0;
    while i < names.len()
        invariant
            0 <= i <= names@.len(),
            names@.map_values(|n: &str| n@) == numeric_relevant_inputs(node_type_id@),
            expected == numeric_relevant_inputs(node_type_id@).map_values(
                |name: Seq<char>| kind_of_input(kind_pairs(input_kinds@), name),
            ),
            kinds@ == expected.take(i as int),
        decreases names@.len() - i,
    {
        let kind = input_kind(input_kinds, names[i]);
        assert(names@.map_values(|n: &str| n@)[i as int] == names@[i as int]@);
        kinds.push(kind);
        assert(kinds@ =~= expected.take(i + 1));
        i = i + 1;
    }
    assert(kinds@ =~= expected);
    infer_preferred_kind(output, kinds.as_slice())
}

/// The text of the first parameter named `name`, if it holds a JSON string.
pub open spec fn parameter_text(parameters: Seq<NodeParameter>, name: Seq<char>) -> Option<Seq<char>> {
    if exists|i: int| is_first_named(parameters, name, i) {
        parameters[choose|i: int| is_first_named(parameters, name, i)].value.string_text()
    } else {
        None
    }
}

/// Returns the text of the first parameter named `name`, if it holds a JSON string.
pub fn parameter_string(parameters: &[NodeParameter], name: &str) -> (text: Option<String>)
    ensures
        match text {
            Some(t) => parameter_text(parameters@, name@) == Some(t@),
            None => parameter_text(parameters@, name@) is None,
        },
{
    match find_parameter(parameters, name) {
        Some(i) => {
            proof {
                let j = choose|j: int| is_first_named(parameters@, name@, j);
                if j < i {
                    assert(parameters@[j].name@ != name@);
                }
                if i < j {
                    assert(parameters@[i as int].name@ != name@);
                }
            }
            match parameters[i].value.as_str() {
                Some(s) => Some(s.to_owned()),
                None => None,
            }
        },
        None => {
            proof {
                if exists|j: int| is_first_named(parameters@, name@, j) {
                    let j = choose|j: int| is_first_named(parameters@, name@, j);
                    assert(has_named(parameters@, name@));
                }
            }
            None
        },
    }
}


/// The message for a binary select whose branches disagree.
pub open spec fn binary_select_message(a: ValueKind, b: ValueKind) -> Seq<char> {
    "binary select inputs 'a' and 'b' must resolve to the same kind, found "@ + a.name_text()
        + " and "@ + b.name_text()
}

/// The message for a fade whose input is not a color.
pub open spec fn fade_message(kind: ValueKind) -> Seq<char> {
    "fade input 'value' must resolve to Color or ColorFrame, found "@ + kind.name_text()
}

/// The message for an integrator whose rate is not numeric.
pub open spec fn integrate_message(kind: ValueKind) -> Seq<char> {
    "integrate input 'rate' must resolve to Float, FloatTensor, or ColorFrame, found "@
        + kind.name_text()
}

/// The message for a moving average over an unsupported kind.
pub open spec fn moving_average_message(kind: ValueKind) -> Seq<char> {
    "moving average input 'value' must resolve to Float, Color, FloatTensor, or ColorFrame, found "@
        + kind.name_text()
}

/// The message for a moving median over an unsupported kind.
pub open spec fn moving_median_message(kind: ValueKind) -> Seq<char> {
    "moving median input 'value' must resolve to Float or FloatTensor, found "@ + kind.name_text()
}

/// A single-input rule: accepted kinds follow the output's preference, others are invalid.
pub open spec fn single_input_outcome(
    output: PortShape,
    reaching: Option<ValueKind>,
    allowed: spec_fn(ValueKind) -> bool,
    message: spec_fn(ValueKind) -> Seq<char>,
) -> Inferred {
    match reaching {
        Some(kind) => if allowed(kind) {
            Inferred::Resolved(preferred_kind(output, seq![Some(kind)]))
        } else {
            Inferred::Invalid(message(kind))
        },
        None => Inferred::Resolved(output.kind),
    }
}

/// The outcome of inferring output `output_name` of a node with the given rule, type id, outputs,
/// input kinds and parameter values.
pub open spec fn rule_outcome(
    rule: InferenceRule,
    node_type_id: Seq<char>,
    outputs: Seq<PortShape>,
    output_name: Seq<char>,
    input_kinds: Seq<(Seq<char>, ValueKind)>,
    parameters: Seq<NodeParameter>,
) -> Inferred {
    match output_shape_named(outputs, output_name) {
        None => Inferred::Unavailable,
        Some(output) => match rule {
            InferenceRule::Declared => Inferred::Resolved(output.kind),
            InferenceRule::Numeric => Inferred::Resolved(
                numeric_output_kind(node_type_id, output, input_kinds),
            ),
            InferenceRule::BinarySelect => {
                let a = kind_of_input(input_kinds, "a"@);
                let b = kind_of_input(input_kinds, "b"@);
                if a is Some && b is Some && a->0 != b->0 {
                    Inferred::Invalid(binary_select_message(a->0, b->0))
                } else {
                    Inferred::Resolved(preferred_kind(output, seq![a, b]))
                }
            },
            InferenceRule::Delay => if output_name == "value"@ {
                Inferred::Resolved(
                    if parameter_text(parameters, "initial_type"@) == Some("tensor"@) {
                        ValueKind::FloatTensor
                    } else if parameter_text(parameters, "initial_type"@) == Some(
                        "colorframe"@,
                    ) {
                        ValueKind::ColorFrame
                    } else {
                        ValueKind::Float
                    },
                )
            } else {
                Inferred::Resolved(output.kind)
            },
            InferenceRule::Fade => single_input_outcome(
                output,
                kind_of_input(input_kinds, "value"@),
                |k: ValueKind| k == ValueKind::Color || k == ValueKind::ColorFrame,
                |k: ValueKind| fade_message(k),
            ),
            InferenceRule::Integrate => single_input_outcome(
                output,
                kind_of_input(input_kinds, "rate"@),
                |k: ValueKind|
                    k == ValueKind::Float || k == ValueKind::FloatTensor || k
                        == ValueKind::ColorFrame,
                |k: ValueKind| integrate_message(k),
            ),
            InferenceRule::MovingAverage => single_input_outcome(
                output,
                kind_of_input(input_kinds, "value"@),
                |k: ValueKind|
                    k == ValueKind::Float || k == ValueKind::Color || k == ValueKind::FloatTensor
                        || k == ValueKind::ColorFrame,
                |k: ValueKind| moving_average_message(k),
            ),
            InferenceRule::MovingMedian => single_input_outcome(
                output,
                kind_of_input(input_kinds, "value"@),
                |k: ValueKind| k == ValueKind::Float || k == ValueKind::FloatTensor,
                |k: ValueKind| moving_median_message(k),
            ),
            InferenceRule::Laplacian => if output_name == "value"@ {
                Inferred::Resolved(
                    preferred_kind(output, seq![kind_of_input(input_kinds, "frame"@)]),
                )
            } else {
                Inferred::Resolved(output.kind)
            },
            InferenceRule::Display => if output_name == "value"@ {
                if parameter_text(parameters, "mode"@) == Some("plot"@) {
                    Inferred::Resolved(ValueKind::Float)
                } else {
                    Inferred::Resolved(
                        preferred_kind(output, seq![kind_of_input(input_kinds, "value"@)]),
                    )
                }
            } else {
                Inferred::Resolved(output.kind)
            },
        },
    }
}

fn message_with_kind(prefix: &str, kind: ValueKind) -> (message: String)
    ensures
        message@ == prefix@ + kind.name_text(),
{
    let mut message = prefix.to_owned();
    message.append(kind.name());
    message
}

fn single_input(
    output: &NodeOutputDefinition,
    reaching: Option<ValueKind>,
    allowed: bool,
    prefix: &str,
) -> (inference: OutputInference)
    ensures
        match reaching {
            Some(kind) => if allowed {
                inference.outcome() == Inferred::Resolved(
                    preferred_kind(output.shape(), seq![Some(kind)]),
                )
            } else {
                inference.outcome() == Inferred::Invalid(prefix@ + kind.name_text())
            },
            None => inference.outcome() == Inferred::Resolved(output.value_kind),
        },
{
    match reaching {
        Some(kind) => {
            if allowed {
                let candidates = vec![Some(kind)];
                assert(candidates@ =~= seq![Some(kind)]);
                OutputInference::Resolved(infer_preferred_kind(output, candidates.as_slice()))
            } else {
                OutputInference::Invalid { message: message_with_kind(prefix, kind) }
            }
        },
        None => OutputInference::Resolved(output.value_kind),
    }
}

/// Infers the kind of output `output_name` of a node with the given rule and schema.
pub fn infer_output(
    rule: InferenceRule,
    schema: &NodeDefinition,
    output_name: &str,
    input_kinds: &[InputKindRef<'_>],
    parameters: &[NodeParameter],
) -> (inference: OutputInference)
    ensures
        inference.outcome() == rule_outcome(
            rule,
            schema.id@,
            output_shapes(schema.outputs@),
            output_name@,
            kind_pairs(input_kinds@),
            parameters@,
        ),
{
    proof {
        lemma_output_shape_named(schema.outputs@, output_name@);
    }
    let output = match schema.output_port(output_name) {
        Some(output) => output,
        None => return OutputInference::Unavailable,
    };
    let ghost pairs = kind_pairs(input_kinds@);
    match rule {
        InferenceRule::Declared => OutputInference::Resolved(output.value_kind),
        InferenceRule::Numeric => OutputInference::Resolved(
            infer_numeric_output_kind(schema.id.as_str(), output, input_kinds),
        ),
        InferenceRule::BinarySelect => {
            let a = input_kind(input_kinds, "a");
            let b = input_kind(input_kinds, "b");
            if let (Some(a_kind), Some(b_kind)) = (a, b) {
                if a_kind != b_kind {
                    let mut message = message_with_kind(
                        "binary select inputs 'a' and 'b' must resolve to the same kind, found ",
                        a_kind,
                    );
                    message.append(" and ");
                    message.append(b_kind.name());
                    return OutputInference::Invalid { message };
                }
            }
            let candidates = vec![a, b];
            assert(candidates@ =~= seq![a, b]);
            OutputInference::Resolved(infer_preferred_kind(output, candidates.as_slice()))
        },
        InferenceRule::Delay => {
            if str_equal(output_name, "value") {
                let initial_type = parameter_string(parameters, "initial_type");
                let kind = match &initial_type {
                    Some(t) => if str_equal(t.as_str(), "tensor") {
                        ValueKind::FloatTensor
                    } else if str_equal(t.as_str(), "colorframe") {
                        ValueKind::ColorFrame
                    } else {
                        ValueKind::Float
                    },
                    None => ValueKind::Float,
                };
                OutputInference::Resolved(kind)
            } else {
                OutputInference::Resolved(output.value_kind)
            }
        },
        InferenceRule::Fade => {
            let reaching = input_kind(input_kinds, "value");
            let allowed = match reaching {
                Some(k) => k == ValueKind::Color || k == ValueKind::ColorFrame,
                None => true,
            };
            single_input(
                output,
                reaching,
                allowed,
                "fade input 'value' must resolve to Color or ColorFrame, found ",
            )
        },
        InferenceRule::Integrate => {
            let reaching = input_kind(input_kinds, "rate");
            let allowed = match reaching {
                Some(k) => k == ValueKind::Float || k == ValueKind::FloatTensor || k
                    == ValueKind::ColorFrame,
                None => true,
            };
            single_input(
                output,
                reaching,
                allowed,
                "integrate input 'rate' must resolve to Float, FloatTensor, or ColorFrame, found ",
            )
        },
        InferenceRule::MovingAverage => {
            let reaching = input_kind(input_kinds, "value");
            let allowed = match reaching {
                Some(k) => k == ValueKind::Float || k == ValueKind::Color || k
                    == ValueKind::FloatTensor || k == ValueKind::ColorFrame,
                None => true,
            };
            single_input(
                output,
                reaching,
                allowed,
                "moving average input 'value' must resolve to Float, Color, FloatTensor, or ColorFrame, found ",
            )
        },
        InferenceRule::MovingMedian => {
            let reaching = input_kind(input_kinds, "value");
            let allowed = match reaching {
                Some(k) => k == ValueKind::Float || k == ValueKind::FloatTensor,
                None => true,
            };
            single_input(
                output,
                reaching,
                allowed,
                "moving median input 'value' must resolve to Float or FloatTensor, found ",
            )
        },
        InferenceRule::Laplacian => {
            if str_equal(output_name, "value") {
                let candidates = vec![input_kind(input_kinds, "frame")];
                assert(candidates@ =~= seq![kind_of_input(pairs, "frame"@)]);
                OutputInference::Resolved(infer_preferred_kind(output, candidates.as_slice()))
            } else {
                OutputInference::Resolved(output.value_kind)
            }
        },
        InferenceRule::Display => {
            if str_equal(output_name, "value") {
                let mode = parameter_string(parameters, "mode");
                let plot = match &mode {
                    Some(m) => str_equal(m.as_str(), "plot"),
                    None => false,
                };
                if plot {
                    OutputInference::Resolved(ValueKind::Float)
                } else {
                    let candidates = vec![input_kind(input_kinds, "value")];
                    assert(candidates@ =~= seq![kind_of_input(pairs, "value"@)]);
                    OutputInference::Resolved(infer_preferred_kind(output, candidates.as_slice()))
                }
            } else {
                OutputInference::Resolved(output.value_kind)
            }
        },
    }
}

/// A unary numeric node (absolute value, exponential, rounding) follows its `value` input: the
/// output takes the kind reaching `value` whenever the output accepts it, and keeps its own kind
/// when nothing reaches `value`; no other input matters.
pub proof fn lemma_unary_numeric_follows_value(
    node_type_id: Seq<char>,
    output: PortShape,
    input_kinds: Seq<(Seq<char>, ValueKind)>,
)
    requires
        node_type_id == NodeTypeId::ABS@ || node_type_id == NodeTypeId::EXPONENTIAL@
            || node_type_id == NodeTypeId::ROUND@,
    ensures
        forall|k: ValueKind|
            kind_of_input(input_kinds, "value"@) == Some(k) && #[trigger] output.accepts(k)
                ==> numeric_output_kind(node_type_id, output, input_kinds) == k,
        kind_of_input(input_kinds, "value"@) is None ==> numeric_output_kind(
            node_type_id,
            output,
            input_kinds,
        ) == output.kind,
{
    let value = kind_of_input(input_kinds, "value"@);
    let candidates = numeric_relevant_inputs(node_type_id).map_values(
        |name: Seq<char>| kind_of_input(input_kinds, name),
    );
    assert(numeric_relevant_inputs(node_type_id) == seq!["value"@]);
    assert(candidates =~= seq![value]);
    assert forall|kind: ValueKind| #[trigger] candidates.contains(Some(kind)) implies value == Some(
        kind,
    ) by {
        let i = choose|i: int| 0 <= i < candidates.len() && candidates[i] == Some(kind);
        assert(i == 0);
    }
    assert(candidates.drop_last() =~= Seq::<Option<ValueKind>>::empty());
    assert(first_accepted(output, candidates.drop_last()) is None);
    assert forall|k: ValueKind|
        value == Some(k) && #[trigger] output.accepts(k) implies numeric_output_kind(
        node_type_id,
        output,
        input_kinds,
    ) == k by {
        assert(candidates[0] == Some(k));
        assert(candidates.contains(Some(k)));
    }
}

/// Whether input `name` decides the output kind of numeric node `node_type_id`: `value` for
/// absolute value, exponential and rounding; `value`, `min`, `max` for clamping; `value` and the
/// four range bounds for range mapping; `base`, `exponent` for powers; `value`, `degree` for
/// roots; `value`, `base` for logarithms; `a`, `b` for every other numeric node.
pub open spec fn numeric_input_decides(node_type_id: Seq<char>, name: Seq<char>) -> bool {
    let unary = node_type_id == "math.abs_float"@ || node_type_id == "math.exponential_float"@
        || node_type_id == "math.round_float"@;
    if unary {
        name == "value"@
    } else if node_type_id == "math.clamp_float"@ {
        name == "value"@ || name == "min"@ || name == "max"@
    } else if node_type_id == "math.map_range_float"@ {
        name == "value"@ || name == "source_min"@ || name == "source_max"@ || name
            == "target_min"@ || name == "target_max"@
    } else if node_type_id == "math.power_float"@ {
        name == "base"@ || name == "exponent"@
    } else if node_type_id == "math.root_float"@ {
        name == "value"@ || name == "degree"@
    } else if node_type_id == "math.log_float"@ {
        name == "value"@ || name == "base"@
    } else {
        name == "a"@ || name == "b"@
    }
}

/// A frame reaching any input that decides a numeric node's output makes an output that accepts
/// frames a frame, whatever reaches its other inputs.
pub proof fn lemma_deciding_input_frame_wins(
    node_type_id: Seq<char>,
    name: Seq<char>,
    output: PortShape,
    input_kinds: Seq<(Seq<char>, ValueKind)>,
)
    requires
        numeric_input_decides(node_type_id, name),
    ensures
        kind_of_input(input_kinds, name) == Some(ValueKind::ColorFrame) && output.accepts(
            ValueKind::ColorFrame,
        ) ==> numeric_output_kind(node_type_id, output, input_kinds) == ValueKind::ColorFrame,
{
    reveal_strlit("math.abs_float");
    reveal_strlit("math.exponential_float");
    reveal_strlit("math.round_float");
    reveal_strlit("math.clamp_float");
    reveal_strlit("math.map_range_float");
    reveal_strlit("math.power_float");
    reveal_strlit("math.root_float");
    reveal_strlit("math.log_float");
    let names = numeric_relevant_inputs(node_type_id);
    let candidates = names.map_values(|n: Seq<char>| kind_of_input(input_kinds, n));
    assert(names.contains(name)) by {
        if names.len() == 1 {
            assert(names[0] == name);
        } else if names.len() == 2 {
            if names[0] != name {
                assert(names[1] == name);
            }
        } else if names.len() == 3 {
            if names[0] != name && names[1] != name {
                assert(names[2] == name);
            }
        } else {
            if names[0] != name && names[1] != name && names[2] != name && names[3] != name {
                assert(names[4] == name);
            }
        }
    }
    if kind_of_input(input_kinds, name) == Some(ValueKind::ColorFrame) && output.accepts(
        ValueKind::ColorFrame,
    ) {
        let m = choose|m: int| 0 <= m < names.len() && names[m] == name;
        assert(candidates[m] == Some(ValueKind::ColorFrame));
        assert(candidates.contains(Some(ValueKind::ColorFrame)));
    }
}

} // verus!
