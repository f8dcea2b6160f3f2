//! Graph validation: checks a persisted graph document against the node catalog, and infers the
//! kinds that flow along its edges.

use vstd::prelude::*;
use crate::catalog::{catalog_lookup, node_definition_impl};
use crate::document::{GraphDocument, GraphEdge, GraphNode, NodeInputValue};
use crate::inference::{kind_pairs, rule_outcome, Inferred, InputKindRef, OutputInference};
use crate::schema::{
    input_shape_named, input_shapes, lemma_input_shape_named, lemma_output_shape_named,
    output_shape_named, InputShape, NodeInputDefinition, NodeShape,
};
use crate::text::{decimal_text, push_decimal, str_equal};
use crate::value::ValueKind;

verus! {

// ---------------------------------------------------------------------------------------------
// Lookups
// ---------------------------------------------------------------------------------------------

/// The node that a table keyed by id, filled with `nodes` in order, holds under `id`: the last
/// node carrying that id.
pub open spec fn node_with_id(nodes: Seq<GraphNode>, id: Seq<char>) -> Option<GraphNode>
    decreases nodes.len(),
{
    if nodes.len() == 0 {
        None
    } else if nodes.last().id@ == id {
        Some(nodes.last())
    } else {
        node_with_id(nodes.drop_last(), id)
    }
}

/// Returns the last node of `nodes` whose id is `id`.
pub fn find_node<'a>(nodes: &'a [GraphNode], id: &str) -> (node: Option<&'a GraphNode>)
    ensures
        match node_with_id(nodes@, id@) {
            Some(n) => node == Some(&n),
            None => node is None,
        },
{
    let mut i: usize = nodes.len();
    assert(nodes@.subrange(0, i as int) =~= nodes@);
    while i > 0
        invariant
            i <= nodes@.len(),
            node_with_id(nodes@, id@) == node_with_id(nodes@.subrange(0, i as int), id@),
        decreases i,
    {
        let ghost prefix = nodes@.subrange(0, i as int);
        assert(prefix.drop_last() =~= nodes@.subrange(0, i - 1));
        i = i - 1;
        if str_equal(nodes[i].id.as_str(), id) {
            return Some(&nodes[i]);
        }
    }
    None
}

/// Whether `edge` ends at input `input_name` of node `node_id`.
pub open spec fn edge_into(edge: GraphEdge, node_id: Seq<char>, input_name: Seq<char>) -> bool {
    edge.to_node_id@ == node_id && edge.to_input_name@ == input_name
}

/// The first edge of `edges` that ends at input `input_name` of node `node_id`.
pub open spec fn first_edge_into(edges: Seq<GraphEdge>, node_id: Seq<char>, input_name: Seq<char>) -> Option<GraphEdge>
    decreases edges.len(),
{
    if edges.len() == 0 {
        None
    } else if edge_into(edges[0], node_id, input_name) {
        Some(edges[0])
    } else {
        first_edge_into(edges.skip(1), node_id, input_name)
    }
}

/// The edge that `first_edge_into` finds is one of the edges.
pub proof fn lemma_first_edge_into_member(edges: Seq<GraphEdge>, node_id: Seq<char>, input_name: Seq<char>)
    ensures
        first_edge_into(edges, node_id, input_name) matches Some(e) ==> edges.contains(e),
    decreases edges.len(),
{
    if edges.len() > 0 && !edge_into(edges[0], node_id, input_name) {
        lemma_first_edge_into_member(edges.skip(1), node_id, input_name);
        if let Some(e) = first_edge_into(edges.skip(1), node_id, input_name) {
            let j = choose|j: int| 0 <= j < edges.skip(1).len() && edges.skip(1)[j] == e;
            assert(edges[j + 1] == e);
        }
    } else if edges.len() > 0 {
        assert(edges[0] == edges[0]);
    }
}

fn find_edge_into<'a>(edges: &'a Vec<GraphEdge>, node_id: &str, input_name: &str) -> (edge: Option<
    &'a GraphEdge,
>)
    ensures
        match first_edge_into(edges@, node_id@, input_name@) {
            Some(e) => edge == Some(&e),
            None => edge is None,
        },
{
    let mut i: usize = 0;
    assert(edges@.skip(0) =~= edges@);
    while i < edges.len()
        invariant
            i <= edges@.len(),
            first_edge_into(edges@, node_id@, input_name@) == first_edge_into(
                edges@.skip(i as int),
                node_id@,
                input_name@,
            ),
        decreases edges@.len() - i,
    {
        let ghost rest = edges@.skip(i as int);
        assert(rest[0] == edges@[i as int]);
        assert(rest.skip(1) =~= edges@.skip(i + 1));
        if str_equal(edges[i].to_node_id.as_str(), node_id) && str_equal(
            edges[i].to_input_name.as_str(),
            input_name,
        ) {
            return Some(&edges[i]);
        }
        i = i + 1;
    }
    None
}

/// The first stored input value of `values` named `name`.
pub open spec fn first_value_named(values: Seq<NodeInputValue>, name: Seq<char>) -> Option<NodeInputValue>
    decreases values.len(),
{
    if values.len() == 0 {
        None
    } else if values[0].name@ == name {
        Some(values[0])
    } else {
        first_value_named(values.skip(1), name)
    }
}

fn find_value_named<'a>(values: &'a Vec<NodeInputValue>, name: &str) -> (value: Option<
    &'a NodeInputValue,
>)
    ensures
        match first_value_named(values@, name@) {
            Some(v) => value == Some(&v),
            None => value is None,
        },
{
    let mut i: usize = 0;
    assert(values@.skip(0) =~= values@);
    while i < values.len()
        invariant
            i <= values@.len(),
            first_value_named(values@, name@) == first_value_named(values@.skip(i as int), name@),
        decreases values@.len() - i,
    {
        let ghost rest = values@.skip(i as int);
        assert(rest[0] == values@[i as int]);
        assert(rest.skip(1) =~= values@.skip(i + 1));
        if str_equal(values[i].name.as_str(), name) {
            return Some(&values[i]);
        }
        i = i + 1;
    }
    None
}

// ---------------------------------------------------------------------------------------------
// Kind inference across the graph
// ---------------------------------------------------------------------------------------------

/// An output of a node, as `(node id, output name)`.
pub open spec fn source_key(edge: GraphEdge) -> (Seq<char>, Seq<char>) {
    (edge.from_node_id@, edge.from_output_name@)
}

/// How many edges start at an output that is not being visited.
pub open spec fn unvisited(edges: Seq<GraphEdge>, visiting: Seq<(Seq<char>, Seq<char>)>) -> nat
    decreases edges.len(),
{
    if edges.len() == 0 {
        0
    } else {
        unvisited(edges.drop_last(), visiting) + if visiting.contains(source_key(edges.last())) {
            0nat
        } else {
            1nat
        }
    }
}

pub proof fn lemma_push_contains<A>(s: Seq<A>, a: A, x: A)
    ensures
        s.push(a).contains(x) == (s.contains(x) || x == a),
{
    if s.contains(x) {
        let i = choose|i: int| 0 <= i < s.len() && s[i] == x;
        assert(s.push(a)[i] == x);
    }
    if x == a {
        assert(s.push(a)[s.len() as int] == a);
    }
    if s.push(a).contains(x) {
        let i = choose|i: int| 0 <= i < s.push(a).len() && s.push(a)[i] == x;
        if i < s.len() {
            assert(s[i] == x);
        }
    }
}

/// Visiting one more output never adds unvisited edges, and removes at least one when an edge
/// starts at that output and it was not visited yet.
pub proof fn lemma_visit_shrinks(
    edges: Seq<GraphEdge>,
    visiting: Seq<(Seq<char>, Seq<char>)>,
    key: (Seq<char>, Seq<char>),
)
    ensures
        unvisited(edges, visiting.push(key)) <= unvisited(edges, visiting),
        !visiting.contains(key) && (exists|e: GraphEdge| edges.contains(e) && source_key(e) == key)
            ==> unvisited(edges, visiting.push(key)) < unvisited(edges, visiting),
    decreases edges.len(),
{
    if edges.len() > 0 {
        let last = edges.last();
        lemma_visit_shrinks(edges.drop_last(), visiting, key);
        lemma_push_contains(visiting, key, source_key(last));
        if !visiting.contains(key) && (exists|e: GraphEdge|
            edges.contains(e) && source_key(e) == key) {
            let e = choose|e: GraphEdge| edges.contains(e) && source_key(e) == key;
            if source_key(last) != key {
                let j = choose|j: int| 0 <= j < edges.len() && edges[j] == e;
                if j == edges.len() - 1 {
                    assert(false);
                }
                assert(edges.drop_last()[j] == e);
                assert(edges.drop_last().contains(e));
            }
        }
    }
}

/// The declared kind of output `output_name` of node `node_id`.
pub open spec fn declared_output(nodes: Seq<GraphNode>, node_id: Seq<char>, output_name: Seq<char>) -> Inferred {
    match node_with_id(nodes, node_id) {
        None => Inferred::Unavailable,
        Some(node) => match catalog_lookup(node.node_type.0@) {
            None => Inferred::Unavailable,
            Some(shape) => match output_shape_named(shape.outputs, output_name) {
                Some(output) => Inferred::Resolved(output.kind),
                None => Inferred::Unavailable,
            },
        },
    }
}

/// The kind an input shows when nothing is connected to it: its stored value's kind, else its
/// default value's kind, else its declared kind.
pub open spec fn inline_kind(values: Seq<NodeInputValue>, input: InputShape) -> ValueKind {
    match first_value_named(values, input.name) {
        Some(value) => value.value.kind(),
        None => match input.default_kind {
            Some(kind) => kind,
            None => input.kind,
        },
    }
}

/// The inferred kind of output `output_name` of node `node_id`, while the outputs in `visiting`
/// are being inferred: an output met again along a cycle counts with its declared kind.
pub open spec fn graph_output_from(
    edges: Seq<GraphEdge>,
    nodes: Seq<GraphNode>,
    node_id: Seq<char>,
    output_name: Seq<char>,
    visiting: Seq<(Seq<char>, Seq<char>)>,
) -> Inferred
    decreases
        (if visiting.contains((node_id, output_name)) {
            0
        } else {
            unvisited(edges, visiting.push((node_id, output_name))) * 3 + 3
        }),
        0nat,
{
    if visiting.contains((node_id, output_name)) {
        declared_output(nodes, node_id, output_name)
    } else {
        graph_output_uncached(
            edges,
            nodes,
            node_id,
            output_name,
            visiting.push((node_id, output_name)),
        )
    }
}

/// The inferred kind of an output that is not met along a cycle: the node's inference rule
/// applied to the kinds reaching its inputs and to its parameters.
pub open spec fn graph_output_uncached(
    edges: Seq<GraphEdge>,
    nodes: Seq<GraphNode>,
    node_id: Seq<char>,
    output_name: Seq<char>,
    visiting: Seq<(Seq<char>, Seq<char>)>,
) -> Inferred
    decreases unvisited(edges, visiting) * 3 + 2, 0nat,
{
    match node_with_id(nodes, node_id) {
        None => Inferred::Unavailable,
        Some(node) => match catalog_lookup(node.node_type.0@) {
            None => Inferred::Unavailable,
            Some(shape) => rule_outcome(
                shape.rule,
                shape.id,
                shape.outputs,
                output_name,
                reaching_kinds(edges, nodes, node, node_id, shape.inputs, shape.inputs.len(), visiting),
                node.parameters@,
            ),
        },
    }
}

/// The kinds reaching the first `count` inputs of a node: the inferred kind of the output
/// connected to the input, else the input's inline kind.
pub open spec fn reaching_kinds(
    edges: Seq<GraphEdge>,
    nodes: Seq<GraphNode>,
    node: GraphNode,
    node_id: Seq<char>,
    inputs: Seq<InputShape>,
    count: nat,
    visiting: Seq<(Seq<char>, Seq<char>)>,
) -> Seq<(Seq<char>, ValueKind)>
    decreases unvisited(edges, visiting) * 3 + 1, count,
{
    if count == 0 {
        Seq::empty()
    } else {
        let input = inputs[count - 1];
        reaching_kinds(edges, nodes, node, node_id, inputs, (count - 1) as nat, visiting).push(
            (
                input.name,
                match graph_connected(edges, nodes, node_id, input.name, visiting).kind() {
                    Some(kind) => kind,
                    None => inline_kind(node.input_values@, input),
                },
            ),
        )
    }
}

/// The inferred kind of the output that the first edge into input `input_name` of node
/// `node_id` starts at; unavailable when no edge ends there.
pub open spec fn graph_connected(
    edges: Seq<GraphEdge>,
    nodes: Seq<GraphNode>,
    node_id: Seq<char>,
    input_name: Seq<char>,
    visiting: Seq<(Seq<char>, Seq<char>)>,
) -> Inferred
    decreases unvisited(edges, visiting) * 3 + 1, 0nat,
{
    match first_edge_into(edges, node_id, input_name) {
        None => Inferred::Unavailable,
        Some(edge) => {
            proof {
                lemma_first_edge_into_member(edges, node_id, input_name);
                lemma_visit_shrinks(edges, visiting, source_key(edge));
            }
            graph_output_from(
                edges,
                nodes,
                edge.from_node_id@,
                edge.from_output_name@,
                visiting,
            )
        },
    }
}

/// The inferred kind of output `output_name` of node `node_id` in a graph with the given edges,
/// nodes looked up by id.
pub open spec fn graph_output(
    edges: Seq<GraphEdge>,
    nodes: Seq<GraphNode>,
    node_id: Seq<char>,
    output_name: Seq<char>,
) -> Inferred {
    graph_output_from(edges, nodes, node_id, output_name, Seq::empty())
}

/// The outputs being visited, as `(node id, output name)`.
pub open spec fn visit_keys(visiting: Seq<(String, String)>) -> Seq<(Seq<char>, Seq<char>)> {
    visiting.map_values(|key: (String, String)| (key.0@, key.1@))
}

fn is_visiting(visiting: &Vec<(String, String)>, node_id: &str, output_name: &str) -> (found: bool)
    ensures
        found == visit_keys(visiting@).contains((node_id@, output_name@)),
{
    let ghost keys = visit_keys(visiting@);
    let mut i: usize = 0;
    while i < visiting.len()
        invariant
            i <= visiting@.len(),
            keys == visit_keys(visiting@),
            forall|j: int| 0 <= j < i ==> keys[j] != (node_id@, output_name@),
        decreases visiting@.len() - i,
    {
        if str_equal(visiting[i].0.as_str(), node_id) && str_equal(
            visiting[i].1.as_str(),
            output_name,
        ) {
            assert(keys[i as int] == (node_id@, output_name@));
            return true;
        }
        i = i + 1;
    }
    false
}

fn declared_kind(nodes: &[GraphNode], node_id: &str, output_name: &str) -> (inference:
    OutputInference)
    ensures
        inference.outcome() == declared_output(nodes@, node_id@, output_name@),
{
    let node = match find_node(nodes, node_id) {
        Some(node) => node,
        None => return OutputInference::Unavailable,
    };
    let builtin = match node_definition_impl(node.node_type.as_str()) {
        Some(builtin) => builtin,
        None => return OutputInference::Unavailable,
    };
    proof {
        crate::schema::lemma_output_shape_named(builtin.schema.outputs@, output_name@);
    }
    match builtin.schema.output_port(output_name) {
        Some(output) => OutputInference::Resolved(output.value_kind),
        None => OutputInference::Unavailable,
    }
}

fn infer_inner(
    document: &GraphDocument,
    nodes: &[GraphNode],
    node_id: &str,
    output_name: &str,
    visiting: &mut Vec<(String, String)>,
) -> (inference: OutputInference)
    ensures
        final(visiting)@ == old(visiting)@,
        inference.outcome() == graph_output_from(
            document.edges@,
            nodes@,
            node_id@,
            output_name@,
            visit_keys(old(visiting)@),
        ),
    decreases
        if visit_keys(old(visiting)@).contains((node_id@, output_name@)) {
            0
        } else {
            unvisited(document.edges@, visit_keys(old(visiting)@).push((node_id@, output_name@)))
                * 3 + 3
        },
{
    if is_visiting(visiting, node_id, output_name) {
        return declared_kind(nodes, node_id, output_name);
    }
    let ghost before = visiting@;
    visiting.push((node_id.to_owned(), output_name.to_owned()));
    assert(visit_keys(visiting@) =~= visit_keys(before).push((node_id@, output_name@)));
    let inference = infer_uncached(document, nodes, node_id, output_name, visiting);
    visiting.pop();
    assert(visiting@ =~= before);
    inference
}

fn inline_input_kind(values: &Vec<NodeInputValue>, input: &NodeInputDefinition) -> (kind:
    ValueKind)
    ensures
        kind == inline_kind(values@, input.shape()),
{
    match find_value_named(values, input.name.as_str()) {
        Some(value) => value.value.value_kind(),
        None => match &input.default_value {
            Some(value) => value.value_kind(),
            None => input.value_kind,
        },
    }
}

fn infer_uncached(
    document: &GraphDocument,
    nodes: &[GraphNode],
    node_id: &str,
    output_name: &str,
    visiting: &mut Vec<(String, String)>,
) -> (inference: OutputInference)
    ensures
        final(visiting)@ == old(visiting)@,
        inference.outcome() == graph_output_uncached(
            document.edges@,
            nodes@,
            node_id@,
            output_name@,
            visit_keys(old(visiting)@),
        ),
    decreases unvisited(document.edges@, visit_keys(old(visiting)@)) * 3 + 2,
{
    let node = match find_node(nodes, node_id) {
        Some(node) => node,
        None => return OutputInference::Unavailable,
    };
    let builtin = match node_definition_impl(node.node_type.as_str()) {
        Some(builtin) => builtin,
        None => return OutputInference::Unavailable,
    };
    let ghost edges = document.edges@;
    let ghost keys = visit_keys(visiting@);
    let ghost inputs = input_shapes(builtin.schema.inputs@);
    let mut kinds: Vec<InputKindRef> = Vec::new();
    let mut i: usize = 0;
    while i < builtin.schema.inputs.len()
        invariant
            i <= builtin.schema.inputs@.len(),
            inputs == input_shapes(builtin.schema.inputs@),
            edges == document.edges@,
            visiting@ == old(visiting)@,
            keys == visit_keys(old(visiting)@),
            kind_pairs(kinds@) == reaching_kinds(edges, nodes@, *node, node_id@, inputs, i as nat, keys),
        decreases builtin.schema.inputs@.len() - i,
    {
        let input = &builtin.schema.inputs[i];
        let connected = infer_connected(document, nodes, node_id, input.name.as_str(), visiting);
        let kind = match connected.kind() {
            Some(kind) => kind,
            None => inline_input_kind(&node.input_values, input),
        };
        let ghost before = kinds@;
        kinds.push(InputKindRef { name: input.name.as_str(), kind });
        assert(kind_pairs(kinds@) =~= kind_pairs(before).push((input.name@, kind)));
        assert(inputs[i as int] == input.shape());
        i = i + 1;
    }
    builtin.infer_output(output_name, kinds.as_slice(), node.parameters.as_slice())
}

fn infer_connected(
    document: &GraphDocument,
    nodes: &[GraphNode],
    node_id: &str,
    input_name: &str,
    visiting: &mut Vec<(String, String)>,
) -> (inference: OutputInference)
    ensures
        final(visiting)@ == old(visiting)@,
        inference.outcome() == graph_connected(
            document.edges@,
            nodes@,
            node_id@,
            input_name@,
            visit_keys(old(visiting)@),
        ),
    decreases unvisited(document.edges@, visit_keys(old(visiting)@)) * 3 + 1,
{
    let edge = match find_edge_into(&document.edges, node_id, input_name) {
        Some(edge) => edge,
        None => return OutputInference::Unavailable,
    };
    proof {
        lemma_first_edge_into_member(document.edges@, node_id@, input_name@);
        lemma_visit_shrinks(document.edges@, visit_keys(visiting@), source_key(*edge));
    }
    infer_inner(document, nodes, edge.from_node_id.as_str(), edge.from_output_name.as_str(), visiting)
}

/// Infers the kind of output `output_name` of node `node_id`, following the edges of `document`
/// upstream; `nodes_by_id` are the nodes looked up by id, the last with a given id winning.
///
/// An output met again along a cycle counts with its declared kind.
pub fn infer_graph_output(
    document: &GraphDocument,
    nodes_by_id: &[GraphNode],
    node_id: &str,
    output_name: &str,
) -> (inference: OutputInference)
    ensures
        inference.outcome() == graph_output(document.edges@, nodes_by_id@, node_id@, output_name@),
{
    let mut visiting: Vec<(String, String)> = Vec::new();
    assert(visit_keys(visiting@) =~= Seq::<(Seq<char>, Seq<char>)>::empty());
    infer_inner(document, nodes_by_id, node_id, output_name, &mut visiting)
}

/// Infers the kind of output `output_name` of node `node_id`; `None` when it does not resolve.
pub fn infer_graph_output_kind(
    document: &GraphDocument,
    nodes_by_id: &[GraphNode],
    node_id: &str,
    output_name: &str,
) -> (kind: Option<ValueKind>)
    ensures
        kind == graph_output(document.edges@, nodes_by_id@, node_id@, output_name@).kind(),
{
    infer_graph_output(document, nodes_by_id, node_id, output_name).kind()
}


// ---------------------------------------------------------------------------------------------
// Validation
// ---------------------------------------------------------------------------------------------

/// Classifies the kind of validation problem found in a graph document.
#[derive(Debug, Clone, Copy, PartialEq, Eq, Structural)]
pub enum GraphValidationIssueCode {
    DuplicateNodeId,
    UnknownNodeType,
    DuplicateNodeInputName,
    UnknownNodeInputName,
    NodeInputTypeMismatch,
    UnknownEdgeSourceNode,
    UnknownEdgeTargetNode,
    UnknownEdgeSourceOutput,
    UnknownEdgeTargetInput,
    EdgeTypeMismatch,
}

/// Describes one validation problem found while checking a persisted graph document.
#[derive(Debug, Clone, PartialEq, Eq)]
pub struct GraphValidationIssue {
    pub code: GraphValidationIssueCode,
    pub path: String,
    pub message: String,
}

/// A validation issue with its texts as characters.
#[verifier::ext_equal]
pub struct IssueView {
    pub code: GraphValidationIssueCode,
    pub path: Seq<char>,
    pub message: Seq<char>,
}

impl View for GraphValidationIssue {
    type V = IssueView;

    open spec fn view(&self) -> IssueView {
        IssueView { code: self.code, path: self.path@, message: self.message@ }
    }
}

/// The views of a list of issues.
pub open spec fn issue_views(issues: Seq<GraphValidationIssue>) -> Seq<IssueView> {
    issues.map_values(|issue: GraphValidationIssue| issue@)
}

/// `prefix` followed by `name[index]`, the index in decimal.
pub open spec fn index_path(prefix: Seq<char>, name: Seq<char>, index: int) -> Seq<char> {
    prefix + name + "["@ + decimal_text(index as nat) + "]"@
}

/// The path of node `i` of a document.
pub open spec fn node_path(i: int) -> Seq<char> {
    index_path(Seq::empty(), "nodes"@, i)
}

/// The path of stored input value `k` of node `i`.
pub open spec fn value_path(i: int, k: int) -> Seq<char> {
    index_path(node_path(i), ".input_values"@, k)
}

/// The path of edge `j` of a document.
pub open spec fn edge_path(j: int) -> Seq<char> {
    index_path(Seq::empty(), "edges"@, j)
}

/// The one-issue list.
pub open spec fn one_issue(code: GraphValidationIssueCode, path: Seq<char>, message: Seq<char>) -> Seq<IssueView> {
    seq![IssueView { code, path, message }]
}

/// Whether a node before node `i` has the same id.
pub open spec fn id_seen_before(nodes: Seq<GraphNode>, i: int) -> bool {
    exists|j: int| 0 <= j < i && #[trigger] nodes[j].id@ == nodes[i].id@
}

/// Whether a stored input value before value `k` has the same name.
pub open spec fn name_seen_before(values: Seq<NodeInputValue>, k: int) -> bool {
    exists|j: int| 0 <= j < k && #[trigger] values[j].name@ == values[k].name@
}

/// The issues of stored input value `k` of node `i`, whose type has the given shape.
pub open spec fn value_issues(values: Seq<NodeInputValue>, shape: NodeShape, i: int, k: int) -> Seq<IssueView> {
    let value = values[k];
    let path = value_path(i, k);
    (if name_seen_before(values, k) {
        one_issue(
            GraphValidationIssueCode::DuplicateNodeInputName,
            path + ".name"@,
            "duplicate input value name '"@ + value.name@ + "'"@,
        )
    } else {
        Seq::empty()
    }) + match input_shape_named(shape.inputs, value.name@) {
        None => one_issue(
            GraphValidationIssueCode::UnknownNodeInputName,
            path + ".name"@,
            "input '"@ + value.name@ + "' is not declared by node type '"@ + shape.id + "'"@,
        ),
        Some(port) => if port.accepts(value.value.kind()) {
            Seq::empty()
        } else {
            one_issue(
                GraphValidationIssueCode::NodeInputTypeMismatch,
                path + ".value"@,
                "input '"@ + value.name@ + "' expected "@ + port.kind.name_text()
                    + " (or compatible kinds) but found "@ + value.value.kind().name_text(),
            )
        },
    }
}

/// The issues of the first `count` stored input values of node `i`.
pub open spec fn values_issues(values: Seq<NodeInputValue>, shape: NodeShape, i: int, count: nat) -> Seq<IssueView>
    decreases count,
{
    if count == 0 {
        Seq::empty()
    } else {
        values_issues(values, shape, i, (count - 1) as nat) + value_issues(values, shape, i, count - 1)
    }
}

/// The issues of node `i`: a repeated id, an unknown type, and the issues of its stored input
/// values when its type is known.
pub open spec fn node_issues(nodes: Seq<GraphNode>, i: int) -> Seq<IssueView> {
    let node = nodes[i];
    let path = node_path(i);
    (if id_seen_before(nodes, i) {
        one_issue(
            GraphValidationIssueCode::DuplicateNodeId,
            path + ".id"@,
            "duplicate node id '"@ + node.id@ + "'"@,
        )
    } else {
        Seq::empty()
    }) + match catalog_lookup(node.node_type.0@) {
        None => one_issue(
            GraphValidationIssueCode::UnknownNodeType,
            path + ".node_type"@,
            "unknown node type '"@ + node.node_type.0@ + "'"@,
        ),
        Some(shape) => values_issues(node.input_values@, shape, i, node.input_values@.len()),
    }
}

/// The issues of the first `count` nodes.
pub open spec fn nodes_issues(nodes: Seq<GraphNode>, count: nat) -> Seq<IssueView>
    decreases count,
{
    if count == 0 {
        Seq::empty()
    } else {
        nodes_issues(nodes, (count - 1) as nat) + node_issues(nodes, count - 1)
    }
}

/// The issue of an edge whose ports exist, if the kind flowing along it does not fit.
pub open spec fn edge_type_issues(
    edges: Seq<GraphEdge>,
    nodes: Seq<GraphNode>,
    j: int,
    output: crate::schema::PortShape,
    input: InputShape,
) -> Seq<IssueView> {
    let edge = edges[j];
    let inferred = graph_output(edges, nodes, edge.from_node_id@, edge.from_output_name@);
    let resolved = match inferred.kind() {
        Some(kind) => kind,
        None => output.kind,
    };
    if !input.accepts(resolved) || !output.accepts(resolved) || inferred.message() is Some {
        one_issue(
            GraphValidationIssueCode::EdgeTypeMismatch,
            edge_path(j),
            match inferred.message() {
                Some(message) => message,
                None => "edge type mismatch: output '"@ + edge.from_output_name@ + "' is "@
                    + resolved.name_text() + " but input '"@ + edge.to_input_name@
                    + "' expects "@ + input.kind.name_text(),
            },
        )
    } else {
        Seq::empty()
    }
}

/// The issues of edge `j`: the first missing endpoint, unknown node type or undeclared port met
/// from source to target, else a kind mismatch along the edge.
pub open spec fn edge_issues(edges: Seq<GraphEdge>, nodes: Seq<GraphNode>, j: int) -> Seq<IssueView> {
    let edge = edges[j];
    let path = edge_path(j);
    match node_with_id(nodes, edge.from_node_id@) {
        None => one_issue(
            GraphValidationIssueCode::UnknownEdgeSourceNode,
            path + ".from_node_id"@,
            "source node '"@ + edge.from_node_id@ + "' does not exist"@,
        ),
        Some(from_node) => match node_with_id(nodes, edge.to_node_id@) {
            None => one_issue(
                GraphValidationIssueCode::UnknownEdgeTargetNode,
                path + ".to_node_id"@,
                "target node '"@ + edge.to_node_id@ + "' does not exist"@,
            ),
            Some(to_node) => match catalog_lookup(from_node.node_type.0@) {
                None => one_issue(
                    GraphValidationIssueCode::UnknownNodeType,
                    path + ".from_node_id"@,
                    "source node '"@ + from_node.id@ + "' has unknown node type '"@
                        + from_node.node_type.0@ + "'"@,
                ),
                Some(from_shape) => match catalog_lookup(to_node.node_type.0@) {
                    None => one_issue(
                        GraphValidationIssueCode::UnknownNodeType,
                        path + ".to_node_id"@,
                        "target node '"@ + to_node.id@ + "' has unknown node type '"@
                            + to_node.node_type.0@ + "'"@,
                    ),
                    Some(to_shape) => match output_shape_named(
                        from_shape.outputs,
                        edge.from_output_name@,
                    ) {
                        None => one_issue(
                            GraphValidationIssueCode::UnknownEdgeSourceOutput,
                            path + ".from_output_name"@,
                            "output '"@ + edge.from_output_name@
                                + "' is not declared by node type '"@ + from_shape.id + "'"@,
                        ),
                        Some(output) => match input_shape_named(
                            to_shape.inputs,
                            edge.to_input_name@,
                        ) {
                            None => one_issue(
                                GraphValidationIssueCode::UnknownEdgeTargetInput,
                                path + ".to_input_name"@,
                                "input '"@ + edge.to_input_name@
                                    + "' is not declared by node type '"@ + to_shape.id + "'"@,
                            ),
                            Some(input) => edge_type_issues(edges, nodes, j, output, input),
                        },
                    },
                },
            },
        },
    }
}

/// The issues of the first `count` edges.
pub open spec fn edges_issues(edges: Seq<GraphEdge>, nodes: Seq<GraphNode>, count: nat) -> Seq<IssueView>
    decreases count,
{
    if count == 0 {
        Seq::empty()
    } else {
        edges_issues(edges, nodes, (count - 1) as nat) + edge_issues(edges, nodes, count - 1)
    }
}

/// Every issue of a document: those of its nodes in order, then those of its edges in order.
pub open spec fn validation_issues(document: GraphDocument) -> Seq<IssueView> {
    nodes_issues(document.nodes@, document.nodes@.len())
        + edges_issues(document.edges@, document.nodes@, document.edges@.len())
}

fn index_path_string(prefix: &str, name: &str, index: usize) -> (path: String)
    ensures
        path@ == index_path(prefix@, name@, index as int),
{
    let mut path = prefix.to_owned();
    path.append(name);
    path.append("[");
    push_decimal(&mut path, index as u64);
    path.append("]");
    path
}

fn suffixed(path: &String, suffix: &str) -> (text: String)
    ensures
        text@ == path@ + suffix@,
{
    let mut text = path.clone();
    text.append(suffix);
    text
}

fn joined3(a: &str, b: &str, c: &str) -> (text: String)
    ensures
        text@ == a@ + b@ + c@,
{
    let mut text = a.to_owned();
    text.append(b);
    text.append(c);
    text
}

fn joined5(a: &str, b: &str, c: &str, d: &str, e: &str) -> (text: String)
    ensures
        text@ == a@ + b@ + c@ + d@ + e@,
{
    let mut text = joined3(a, b, c);
    text.append(d);
    text.append(e);
    text
}

fn push_issue(
    issues: &mut Vec<GraphValidationIssue>,
    code: GraphValidationIssueCode,
    path: String,
    message: String,
)
    ensures
        issue_views(final(issues)@) == issue_views(old(issues)@) + one_issue(code, path@, message@),
{
    let ghost before = issues@;
    issues.push(GraphValidationIssue { code, path, message });
    assert(issue_views(issues@) =~= issue_views(before) + one_issue(code, path@, message@));
}

fn id_seen(nodes: &Vec<GraphNode>, i: usize) -> (seen: bool)
    requires
        i < nodes@.len(),
    ensures
        seen == id_seen_before(nodes@, i as int),
{
    let mut j: usize = 0;
    while j < i
        invariant
            j <= i < nodes@.len(),
            forall|l: int| 0 <= l < j ==> nodes@[l].id@ != nodes@[i as int].id@,
        decreases i - j,
    {
        if str_equal(nodes[j].id.as_str(), nodes[i].id.as_str()) {
            return true;
        }
        j = j + 1;
    }
    false
}

fn name_seen(values: &Vec<NodeInputValue>, k: usize) -> (seen: bool)
    requires
        k < values@.len(),
    ensures
        seen == name_seen_before(values@, k as int),
{
    let mut j: usize = 0;
    while j < k
        invariant
            j <= k < values@.len(),
            forall|l: int| 0 <= l < j ==> values@[l].name@ != values@[k as int].name@,
        decreases k - j,
    {
        if str_equal(values[j].name.as_str(), values[k].name.as_str()) {
            return true;
        }
        j = j + 1;
    }
    false
}

fn push_value_issues(
    issues: &mut Vec<GraphValidationIssue>,
    values: &Vec<NodeInputValue>,
    builtin: &crate::catalog::BuiltinNode,
    node_path_text: &String,
    i: usize,
    k: usize,
)
    requires
        k < values@.len(),
        node_path_text@ == node_path(i as int),
    ensures
        issue_views(final(issues)@) == issue_views(old(issues)@) + value_issues(
            values@,
            builtin.shape(),
            i as int,
            k as int,
        ),
{
    let value = &values[k];
    let path = index_path_string(node_path_text.as_str(), ".input_values", k);
    let ghost start = issue_views(issues@);
    let ghost shape = builtin.shape();
    let seen = name_seen(values, k);
    if seen {
        push_issue(
            issues,
            GraphValidationIssueCode::DuplicateNodeInputName,
            suffixed(&path, ".name"),
            joined3("duplicate input value name '", value.name.as_str(), "'"),
        );
    }
    let ghost first = issue_views(issues@);
    proof {
        lemma_input_shape_named(builtin.schema.inputs@, value.name@);
    }
    match builtin.schema.input_port(value.name.as_str()) {
        None => {
            push_issue(
                issues,
                GraphValidationIssueCode::UnknownNodeInputName,
                suffixed(&path, ".name"),
                joined5(
                    "input '",
                    value.name.as_str(),
                    "' is not declared by node type '",
                    builtin.schema.id.as_str(),
                    "'",
                ),
            );
        },
        Some(port) => {
            let kind = value.value.value_kind();
            if !port.accepts_kind(kind) {
                let mut message = joined3("input '", value.name.as_str(), "' expected ");
                message.append(port.value_kind.name());
                message.append(" (or compatible kinds) but found ");
                message.append(kind.name());
                push_issue(
                    issues,
                    GraphValidationIssueCode::NodeInputTypeMismatch,
                    suffixed(&path, ".value"),
                    message,
                );
            }
        },
    }
    proof {
        let dup = if name_seen_before(values@, k as int) {
            one_issue(
                GraphValidationIssueCode::DuplicateNodeInputName,
                value_path(i as int, k as int) + ".name"@,
                "duplicate input value name '"@ + value.name@ + "'"@,
            )
        } else {
            Seq::<IssueView>::empty()
        };
        assert(first =~= start + dup);
        let rest = issue_views(issues@).subrange(first.len() as int, issue_views(issues@).len() as int);
        assert(issue_views(issues@) =~= first + rest);
        assert(start + dup + rest =~= start + (dup + rest));
    }
}

fn push_node_issues(issues: &mut Vec<GraphValidationIssue>, nodes: &Vec<GraphNode>, i: usize)
    requires
        i < nodes@.len(),
    ensures
        issue_views(final(issues)@) == issue_views(old(issues)@) + node_issues(nodes@, i as int),
{
    let node = &nodes[i];
    let path = index_path_string("", "nodes", i);
    assert(Seq::<char>::empty() =~= ""@) by {
        reveal_strlit("");
    }
    let ghost start = issue_views(issues@);
    if id_seen(nodes, i) {
        push_issue(
            issues,
            GraphValidationIssueCode::DuplicateNodeId,
            suffixed(&path, ".id"),
            joined3("duplicate node id '", node.id.as_str(), "'"),
        );
    }
    let ghost first = issue_views(issues@);
    match node_definition_impl(node.node_type.as_str()) {
        None => {
            push_issue(
                issues,
                GraphValidationIssueCode::UnknownNodeType,
                suffixed(&path, ".node_type"),
                joined3("unknown node type '", node.node_type.as_str(), "'"),
            );
        },
        Some(builtin) => {
            let ghost shape = builtin.shape();
            let mut k: usize = 0;
            assert(issue_views(issues@) =~= first + values_issues(
                node.input_values@,
                shape,
                i as int,
                0,
            ));
            while k < node.input_values.len()
                invariant
                    k <= node.input_values@.len(),
                    path@ == node_path(i as int),
                    shape == builtin.shape(),
                    issue_views(issues@) == first + values_issues(
                        node.input_values@,
                        shape,
                        i as int,
                        k as nat,
                    ),
                decreases node.input_values@.len() - k,
            {
                let ghost before = issue_views(issues@);
                push_value_issues(issues, &node.input_values, &builtin, &path, i, k);
                assert(issue_views(issues@) =~= first + values_issues(
                    node.input_values@,
                    shape,
                    i as int,
                    (k + 1) as nat,
                ));
                k = k + 1;
            }
        },
    }
    proof {
        let dup = if id_seen_before(nodes@, i as int) {
            one_issue(
                GraphValidationIssueCode::DuplicateNodeId,
                node_path(i as int) + ".id"@,
                "duplicate node id '"@ + node.id@ + "'"@,
            )
        } else {
            Seq::<IssueView>::empty()
        };
        assert(first =~= start + dup);
        let rest = issue_views(issues@).subrange(first.len() as int, issue_views(issues@).len() as int);
        assert(issue_views(issues@) =~= first + rest);
        assert(start + dup + rest =~= start + (dup + rest));
    }
}

fn push_edge_type_issues(
    issues: &mut Vec<GraphValidationIssue>,
    document: &GraphDocument,
    j: usize,
    path: String,
    output: &crate::schema::NodeOutputDefinition,
    input: &NodeInputDefinition,
)
    requires
        j < document.edges@.len(),
        path@ == edge_path(j as int),
    ensures
        issue_views(final(issues)@) == issue_views(old(issues)@) + edge_type_issues(
            document.edges@,
            document.nodes@,
            j as int,
            output.shape(),
            input.shape(),
        ),
{
    let edge = &document.edges[j];
    let inferred = infer_graph_output(
        document,
        document.nodes.as_slice(),
        edge.from_node_id.as_str(),
        edge.from_output_name.as_str(),
    );
    let resolved = match inferred.kind() {
        Some(kind) => kind,
        None => output.value_kind,
    };
    let explanation = inferred.message();
    if !input.accepts_kind(resolved) || !output.accepts_kind(resolved) || explanation.is_some() {
        let message = match explanation {
            Some(text) => text.to_owned(),
            None => {
                let mut message = joined3(
                    "edge type mismatch: output '",
                    edge.from_output_name.as_str(),
                    "' is ",
                );
                message.append(resolved.name());
                message.append(" but input '");
                message.append(edge.to_input_name.as_str());
                message.append("' expects ");
                message.append(input.value_kind.name());
                message
            },
        };
        push_issue(issues, GraphValidationIssueCode::EdgeTypeMismatch, path, message);
    } else {
        assert(issue_views(issues@) =~= issue_views(issues@) + Seq::<IssueView>::empty());
    }
}

fn push_edge_issues(issues: &mut Vec<GraphValidationIssue>, document: &GraphDocument, j: usize)
    requires
        j < document.edges@.len(),
    ensures
        issue_views(final(issues)@) == issue_views(old(issues)@) + edge_issues(
            document.edges@,
            document.nodes@,
            j as int,
        ),
{
    let edge = &document.edges[j];
    let path = index_path_string("", "edges", j);
    assert(Seq::<char>::empty() =~= ""@) by {
        reveal_strlit("");
    }
    let nodes = document.nodes.as_slice();
    let from_node = match find_node(nodes, edge.from_node_id.as_str()) {
        Some(node) => node,
        None => {
            push_issue(
                issues,
                GraphValidationIssueCode::UnknownEdgeSourceNode,
                suffixed(&path, ".from_node_id"),
                joined3("source node '", edge.from_node_id.as_str(), "' does not exist"),
            );
            return;
        },
    };
    let to_node = match find_node(nodes, edge.to_node_id.as_str()) {
        Some(node) => node,
        None => {
            push_issue(
                issues,
                GraphValidationIssueCode::UnknownEdgeTargetNode,
                suffixed(&path, ".to_node_id"),
                joined3("target node '", edge.to_node_id.as_str(), "' does not exist"),
            );
            return;
        },
    };
    let from_builtin = match node_definition_impl(from_node.node_type.as_str()) {
        Some(builtin) => builtin,
        None => {
            push_issue(
                issues,
                GraphValidationIssueCode::UnknownNodeType,
                suffixed(&path, ".from_node_id"),
                joined5(
                    "source node '",
                    from_node.id.as_str(),
                    "' has unknown node type '",
                    from_node.node_type.as_str(),
                    "'",
                ),
            );
            return;
        },
    };
    let to_builtin = match node_definition_impl(to_node.node_type.as_str()) {
        Some(builtin) => builtin,
        None => {
            push_issue(
                issues,
                GraphValidationIssueCode::UnknownNodeType,
                suffixed(&path, ".to_node_id"),
                joined5(
                    "target node '",
                    to_node.id.as_str(),
                    "' has unknown node type '",
                    to_node.node_type.as_str(),
                    "'",
                ),
            );
            return;
        },
    };
    proof {
        lemma_output_shape_named(from_builtin.schema.outputs@, edge.from_output_name@);
        lemma_input_shape_named(to_builtin.schema.inputs@, edge.to_input_name@);
    }
    let output = match from_builtin.schema.output_port(edge.from_output_name.as_str()) {
        Some(output) => output,
        None => {
            push_issue(
                issues,
                GraphValidationIssueCode::UnknownEdgeSourceOutput,
                suffixed(&path, ".from_output_name"),
                joined5(
                    "output '",
                    edge.from_output_name.as_str(),
                    "' is not declared by node type '",
                    from_builtin.schema.id.as_str(),
                    "'",
                ),
            );
            return;
        },
    };
    let input = match to_builtin.schema.input_port(edge.to_input_name.as_str()) {
        Some(input) => input,
        None => {
            push_issue(
                issues,
                GraphValidationIssueCode::UnknownEdgeTargetInput,
                suffixed(&path, ".to_input_name"),
                joined5(
                    "input '",
                    edge.to_input_name.as_str(),
                    "' is not declared by node type '",
                    to_builtin.schema.id.as_str(),
                    "'",
                ),
            );
            return;
        },
    };
    push_edge_type_issues(issues, document, j, path, output, input);
}

/// Validates a graph document against the shared node catalog.
///
/// Validation checks node identity, declared input values, edge endpoints, and type
/// compatibility. All discovered issues are returned at once, nodes first and then edges, each
/// in document order.
pub fn validate_graph_document(document: &GraphDocument) -> (issues: Vec<GraphValidationIssue>)
    ensures
        issue_views(issues@) == validation_issues(*document),
{
    let mut issues: Vec<GraphValidationIssue> = Vec::new();
    let mut i: usize = 0;
    assert(issue_views(issues@) =~= nodes_issues(document.nodes@, 0));
    while i < document.nodes.len()
        invariant
            i <= document.nodes@.len(),
            issue_views(issues@) == nodes_issues(document.nodes@, i as nat),
        decreases document.nodes@.len() - i,
    {
        push_node_issues(&mut issues, &document.nodes, i);
        i = i + 1;
    }
    let ghost node_part = issue_views(issues@);
    let mut j: usize = 0;
    assert(issue_views(issues@) =~= node_part + edges_issues(document.edges@, document.nodes@, 0));
    while j < document.edges.len()
        invariant
            j <= document.edges@.len(),
            node_part == nodes_issues(document.nodes@, document.nodes@.len()),
            issue_views(issues@) == node_part + edges_issues(
                document.edges@,
                document.nodes@,
                j as nat,
            ),
        decreases document.edges@.len() - j,
    {
        push_edge_issues(&mut issues, document, j);
        assert(issue_views(issues@) =~= node_part + edges_issues(
            document.edges@,
            document.nodes@,
            (j + 1) as nat,
        ));
        j = j + 1;
    }
    issues
}

} // verus!
