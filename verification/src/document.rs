//! The persisted graph document: metadata, nodes, edges, and embedded layout assets.

use vstd::prelude::*;
use crate::schema::{first_match, first_position, lemma_first_position, lemma_no_position, NodeParameter, NodeTypeId};
use crate::text::{ends_with, ends_with_text, str_equal, trim, trim_text};
use crate::value::{Decimal, InputValue, Vec3};

verus! {

/// Stores the stable identity and top-level metadata of a graph document.
#[derive(Debug, Clone, PartialEq, Eq)]
pub struct GraphMetadata {
    pub id: String,
    pub name: String,
    pub execution_frequency_hz: u32,
    pub home_assistant_broker_id: String,
}

/// Represents a persisted graph document as edited in the frontend and stored by the backend.
#[derive(Debug, Clone)]
pub struct GraphDocument {
    pub metadata: GraphMetadata,
    pub viewport: GraphViewport,
    pub layout_assets: Vec<EmbeddedLayoutAsset>,
    pub nodes: Vec<GraphNode>,
    pub edges: Vec<GraphEdge>,
}

impl Default for GraphDocument {
    /// Builds an empty graph document with default viewport and execution frequency.
    fn default() -> (document: Self)
        ensures
            document.metadata.id@ == Seq::<char>::empty(),
            document.metadata.name@ == Seq::<char>::empty(),
            document.metadata.execution_frequency_hz == 60,
            document.metadata.home_assistant_broker_id@ == Seq::<char>::empty(),
            document.viewport == GraphViewport::initial(),
            document.layout_assets@.len() == 0,
            document.nodes@.len() == 0,
            document.edges@.len() == 0,
    {
        GraphDocument {
            metadata: GraphMetadata {
                id: String::new(),
                name: String::new(),
                execution_frequency_hz: default_execution_frequency_hz(),
                home_assistant_broker_id: String::new(),
            },
            viewport: GraphViewport::default(),
            layout_assets: Vec::new(),
            nodes: Vec::new(),
            edges: Vec::new(),
        }
    }
}

/// Stores one graph-owned embedded spatial layout asset.
#[derive(Debug, Clone, PartialEq)]
pub struct EmbeddedLayoutAsset {
    pub id: String,
    pub points: Vec<Vec3>,
}

/// Represents one node instance inside a persisted graph document.
#[derive(Debug, Clone)]
pub struct GraphNode {
    pub id: String,
    pub metadata: NodeMetadata,
    pub node_type: NodeTypeId,
    pub viewport: NodeViewport,
    pub input_values: Vec<NodeInputValue>,
    pub parameters: Vec<NodeParameter>,
}

/// Stores the editor camera state for a graph document.
#[derive(Debug, Clone, Copy, PartialEq, Eq, Structural)]
pub struct GraphViewport {
    pub zoom: Decimal,
    pub pan: ViewportPan,
}

impl GraphViewport {
    /// The initial camera: centered at the origin, zoom `1`.
    pub open spec fn initial() -> GraphViewport {
        GraphViewport {
            zoom: Decimal { negative: false, significand: 1, exponent: 0 },
            pan: ViewportPan::origin(),
        }
    }
}

impl Default for GraphViewport {
    /// Builds the default graph viewport centered at the origin and zoomed to `1.0`.
    fn default() -> (viewport: Self)
        ensures
            viewport == GraphViewport::initial(),
    {
        GraphViewport { zoom: default_zoom(), pan: ViewportPan::default() }
    }
}

/// Stores the graph-canvas pan offset.
#[derive(Debug, Clone, Copy, PartialEq, Eq, Structural)]
pub struct ViewportPan {
    pub x: Decimal,
    pub y: Decimal,
}

impl ViewportPan {
    /// The zero offset.
    pub open spec fn origin() -> ViewportPan {
        ViewportPan {
            x: Decimal { negative: false, significand: 0, exponent: 0 },
            y: Decimal { negative: false, significand: 0, exponent: 0 },
        }
    }
}

impl Default for ViewportPan {
    /// Builds a zero pan offset.
    fn default() -> (pan: Self)
        ensures
            pan == ViewportPan::origin(),
    {
        ViewportPan { x: Decimal::new(0, 0), y: Decimal::new(0, 0) }
    }
}

/// Stores a node position in graph-canvas coordinates.
#[derive(Debug, Clone, Copy, PartialEq, Eq, Structural)]
pub struct NodePosition {
    pub x: Decimal,
    pub y: Decimal,
}

impl Default for NodePosition {
    /// Builds the default node position at the origin.
    fn default() -> (position: Self)
        ensures
            position.x == (Decimal { negative: false, significand: 0, exponent: 0 }),
            position.y == (Decimal { negative: false, significand: 0, exponent: 0 }),
    {
        NodePosition { x: Decimal::new(0, 0), y: Decimal::new(0, 0) }
    }
}

/// Stores per-node editor state such as position and collapse state.
#[derive(Debug, Clone, Copy, PartialEq, Eq, Structural)]
pub struct NodeViewport {
    pub position: NodePosition,
    pub collapsed: bool,
}

impl Default for NodeViewport {
    /// Builds the default expanded node viewport at the origin.
    fn default() -> (viewport: Self)
        ensures
            viewport.position.x == (Decimal { negative: false, significand: 0, exponent: 0 }),
            viewport.position.y == (Decimal { negative: false, significand: 0, exponent: 0 }),
            !viewport.collapsed,
    {
        NodeViewport { position: NodePosition::default(), collapsed: false }
    }
}

/// Stores editor-facing metadata for a node instance.
#[derive(Debug, Clone, PartialEq, Eq)]
pub struct NodeMetadata {
    pub name: String,
}

/// Stores a disconnected input value persisted directly on a graph node.
#[derive(Debug, Clone)]
pub struct NodeInputValue {
    pub name: String,
    pub value: InputValue,
}

/// Represents one directed connection between an output port and an input port.
#[derive(Debug, Clone, PartialEq, Eq)]
pub struct GraphEdge {
    pub from_node_id: String,
    pub from_output_name: String,
    pub to_node_id: String,
    pub to_input_name: String,
}

/// Classifies a validation-style parse error while decoding an uploaded spatial layout.
#[derive(Debug, Clone, Copy, PartialEq, Eq, Structural)]
pub enum LayoutParseErrorKind {
    Empty,
    InvalidUtf8,
    InvalidJson,
    InvalidCsv,
}

/// Reports why uploaded layout bytes could not be parsed into embedded 3D points.
#[derive(Debug, Clone, PartialEq, Eq)]
pub struct LayoutParseError {
    pub kind: LayoutParseErrorKind,
    pub message: String,
}

/// Returns the default graph execution frequency used when the field is omitted from persisted data.
pub fn default_execution_frequency_hz() -> (hz: u32)
    ensures
        hz == 60,
{
    60
}

/// Returns the default graph viewport zoom used when the field is omitted from persisted data.
pub fn default_zoom() -> (zoom: Decimal)
    ensures
        zoom == (Decimal { negative: false, significand: 1, exponent: 0 }),
{
    Decimal::new(1, 0)
}

/// Whether a parameter name designates a reference to an embedded layout asset.
pub open spec fn layout_asset_name(name: Seq<char>) -> bool {
    ends_with_text(name, "layout_asset_id"@)
}

/// Returns whether the parameter name designates a layout asset reference.
pub fn is_layout_asset_parameter_name(name: &str) -> (is_asset: bool)
    ensures
        is_asset == layout_asset_name(name@),
{
    ends_with(name, "layout_asset_id")
}

/// The layout asset id a parameter refers to: the trimmed text of a string value of a layout
/// asset parameter, when that text is not empty.
pub open spec fn layout_asset_reference(parameter: NodeParameter) -> Option<Seq<char>> {
    if layout_asset_name(parameter.name@) {
        match parameter.value.string_text() {
            Some(text) => if trim_text(text).len() > 0 {
                Some(trim_text(text))
            } else {
                None
            },
            None => None,
        }
    } else {
        None
    }
}

/// Returns the layout asset id referenced by a parameter, if it is a non-empty layout asset
/// reference.
pub fn layout_asset_id_from_parameter(parameter: &NodeParameter) -> (id: Option<&str>)
    ensures
        match layout_asset_reference(*parameter) {
            Some(text) => id matches Some(s) && s@ == text,
            None => id is None,
        },
{
    if !is_layout_asset_parameter_name(parameter.name.as_str()) {
        return None;
    }
    match parameter.value.as_str() {
        Some(text) => {
            let trimmed = trim(text);
            if trimmed.unicode_len() == 0 {
                None
            } else {
                Some(trimmed)
            }
        },
        None => None,
    }
}

/// The layout asset reference of parameter `k` of node `i`.
pub open spec fn reference_at(nodes: Seq<GraphNode>, i: int, k: int) -> Option<Seq<char>> {
    layout_asset_reference(nodes[i].parameters@[k])
}

/// Whether some parameter of some node refers to layout asset `id`.
pub open spec fn references(nodes: Seq<GraphNode>, id: Seq<char>) -> bool {
    exists|i: int, k: int|
        0 <= i < nodes.len() && 0 <= k < nodes[i].parameters@.len() && #[trigger] reference_at(
            nodes,
            i,
            k,
        ) == Some(id)
}

/// Whether a parameter before parameter `k` of node `i` (in node order, then parameter order)
/// refers to layout asset `id`.
pub open spec fn references_before(nodes: Seq<GraphNode>, i: int, k: int, id: Seq<char>) -> bool {
    exists|a: int, b: int|
        0 <= a <= i && a < nodes.len() && 0 <= b < nodes[a].parameters@.len() && (a < i || b < k)
            && #[trigger] reference_at(nodes, a, b) == Some(id)
}

/// The ids held by a list of strings.
pub open spec fn string_views(strings: Seq<String>) -> Seq<Seq<char>> {
    strings.map_values(|s: String| s@)
}

/// The ids of the layout assets, in order.
pub open spec fn asset_ids(assets: Seq<EmbeddedLayoutAsset>) -> Seq<Seq<char>> {
    assets.map_values(|a: EmbeddedLayoutAsset| a.id@)
}

/// Whether an asset is referenced by the nodes.
pub open spec fn asset_referenced(nodes: Seq<GraphNode>) -> spec_fn(EmbeddedLayoutAsset) -> bool {
    |a: EmbeddedLayoutAsset| references(nodes, a.id@)
}

fn holds_string(strings: &Vec<String>, text: &str) -> (found: bool)
    ensures
        found == string_views(strings@).contains(text@),
{
    let ghost views = string_views(strings@);
    let mut i: usize = 0;
    while i < strings.len()
        invariant
            i <= strings@.len(),
            views == string_views(strings@),
            forall|j: int| 0 <= j < i ==> views[j] != text@,
        decreases strings@.len() - i,
    {
        if str_equal(strings[i].as_str(), text) {
            assert(views[i as int] == text@);
            return true;
        }
        i = i + 1;
    }
    false
}

impl GraphDocument {
    /// Returns the points of the first embedded layout asset with the given id.
    pub fn embedded_layout_points(&self, layout_asset_id: &str) -> (points: Option<&[Vec3]>)
        ensures
            match first_position(asset_ids(self.layout_assets@), layout_asset_id@) {
                Some(i) => points matches Some(p) && p@ == self.layout_assets@[i].points@,
                None => points is None,
            },
    {
        let ghost ids = asset_ids(self.layout_assets@);
        let mut i: usize = 0;
        while i < self.layout_assets.len()
            invariant
                i <= self.layout_assets@.len(),
                ids == asset_ids(self.layout_assets@),
                forall|j: int| 0 <= j < i ==> ids[j] != layout_asset_id@,
            decreases self.layout_assets@.len() - i,
        {
            if str_equal(self.layout_assets[i].id.as_str(), layout_asset_id) {
                proof {
                    lemma_first_position(ids, layout_asset_id@, i as int);
                }
                return Some(self.layout_assets[i].points.as_slice());
            }
            i = i + 1;
        }
        proof {
            lemma_no_position(ids, layout_asset_id@);
        }
        None
    }

    /// Returns every layout asset id referenced by a node parameter, each once, in order of
    /// first reference.
    pub fn referenced_layout_asset_ids(&self) -> (ids: Vec<String>)
        ensures
            string_views(ids@).no_duplicates(),
            forall|id: Seq<char>| string_views(ids@).contains(id) <==> references(self.nodes@, id),
    {
        let ghost nodes = self.nodes@;
        let mut ids: Vec<String> = Vec::new();
        let mut i: usize = 0;
        while i < self.nodes.len()
            invariant
                i <= nodes.len(),
                nodes == self.nodes@,
                string_views(ids@).no_duplicates(),
                forall|id: Seq<char>|
                    string_views(ids@).contains(id) <==> references_before(nodes, i as int, 0, id),
            decreases nodes.len() - i,
        {
            let node = &self.nodes[i];
            let mut k: usize = 0;
            while k < node.parameters.len()
                invariant
                    i < nodes.len(),
                    nodes == self.nodes@,
                    *node == nodes[i as int],
                    k <= node.parameters@.len(),
                    string_views(ids@).no_duplicates(),
                    forall|id: Seq<char>|
                        string_views(ids@).contains(id) <==> references_before(
                            nodes,
                            i as int,
                            k as int,
                            id,
                        ),
                decreases node.parameters@.len() - k,
            {
                let ghost before = string_views(ids@);
                match layout_asset_id_from_parameter(&node.parameters[k]) {
                    Some(id) => {
                        let present = holds_string(&ids, id);
                        if !present {
                            ids.push(id.to_owned());
                        }
                        proof {
                            let after = string_views(ids@);
                            if present {
                                assert(after == before);
                            } else {
                                assert(after =~= before.push(id@));
                            }
                            assert(reference_at(nodes, i as int, k as int) == Some(id@));
                            assert forall|x: Seq<char>|
                                after.contains(x) <==> references_before(
                                    nodes,
                                    i as int,
                                    k + 1,
                                    x,
                                ) by {
                                if before.contains(x) {
                                    let (a, b) = choose|a: int, b: int|
                                        0 <= a <= i && a < nodes.len() && 0 <= b
                                            < nodes[a].parameters@.len() && (a < i || b < k)
                                            && #[trigger] reference_at(nodes, a, b) == Some(x);
                                    assert(reference_at(nodes, a, b) == Some(x));
                                    let j = choose|j: int| 0 <= j < before.len() && before[j] == x;
                                    assert(after[j] == x);
                                }
                                if x == id@ && !before.contains(x) {
                                    assert(after[before.len() as int] == x);
                                }
                                if references_before(nodes, i as int, k + 1, x) {
                                    let (a, b) = choose|a: int, b: int|
                                        0 <= a <= i && a < nodes.len() && 0 <= b
                                            < nodes[a].parameters@.len() && (a < i || b < k + 1)
                                            && #[trigger] reference_at(nodes, a, b) == Some(x);
                                    if a < i || b < k {
                                        assert(references_before(nodes, i as int, k as int, x));
                                    }
                                }
                                if after.contains(x) && !before.contains(x) {
                                    let j = choose|j: int| 0 <= j < after.len() && after[j] == x;
                                    if j < before.len() {
                                        assert(before[j] == x);
                                    }
                                }
                            }
                        }
                    },
                    None => {
                        assert forall|x: Seq<char>|
                            references_before(nodes, i as int, k + 1, x) implies references_before(
                            nodes,
                            i as int,
                            k as int,
                            x,
                        ) by {
                            let (a, b) = choose|a: int, b: int|
                                0 <= a <= i && a < nodes.len() && 0 <= b
                                    < nodes[a].parameters@.len() && (a < i || b < k + 1)
                                    && #[trigger] reference_at(nodes, a, b) == Some(x);
                            if a == i && b == k {
                                assert(reference_at(nodes, i as int, k as int) is None);
                            }
                        }
                        assert forall|x: Seq<char>|
                            references_before(nodes, i as int, k as int, x) implies references_before(
                            nodes,
                            i as int,
                            k + 1,
                            x,
                        ) by {
                            let (a, b) = choose|a: int, b: int|
                                0 <= a <= i && a < nodes.len() && 0 <= b
                                    < nodes[a].parameters@.len() && (a < i || b < k)
                                    && #[trigger] reference_at(nodes, a, b) == Some(x);
                            assert(reference_at(nodes, a, b) == Some(x));
                        }
                    },
                }
                k = k + 1;
            }
            assert forall|x: Seq<char>|
                references_before(nodes, i as int, k as int, x) == references_before(
                    nodes,
                    i + 1,
                    0,
                    x,
                ) by {
                if references_before(nodes, i as int, k as int, x) {
                    let (a, b) = choose|a: int, b: int|
                        0 <= a <= i && a < nodes.len() && 0 <= b < nodes[a].parameters@.len() && (a
                            < i || b < k) && #[trigger] reference_at(nodes, a, b) == Some(x);
                    assert(reference_at(nodes, a, b) == Some(x));
                }
                if references_before(nodes, i + 1, 0, x) {
                    let (a, b) = choose|a: int, b: int|
                        0 <= a <= i + 1 && a < nodes.len() && 0 <= b < nodes[a].parameters@.len()
                            && (a < i + 1 || b < 0) && #[trigger] reference_at(nodes, a, b)
                            == Some(x);
                    assert(reference_at(nodes, a, b) == Some(x));
                }
            }
            i = i + 1;
        }
        assert forall|x: Seq<char>|
            references_before(nodes, i as int, 0, x) == references(nodes, x) by {
            if references(nodes, x) {
                let (a, b) = choose|a: int, b: int|
                    0 <= a < nodes.len() && 0 <= b < nodes[a].parameters@.len()
                        && #[trigger] reference_at(nodes, a, b) == Some(x);
                assert(reference_at(nodes, a, b) == Some(x));
            }
            if references_before(nodes, i as int, 0, x) {
                let (a, b) = choose|a: int, b: int|
                    0 <= a <= i && a < nodes.len() && 0 <= b < nodes[a].parameters@.len() && (a < i
                        || b < 0) && #[trigger] reference_at(nodes, a, b) == Some(x);
                assert(reference_at(nodes, a, b) == Some(x));
            }
        }
        ids
    }

    /// Drops every embedded layout asset that no node parameter references, keeping the others
    /// in order; nothing else changes.
    pub fn prune_unreferenced_layout_assets(&mut self)
        ensures
            final(self).layout_assets@ == old(self).layout_assets@.filter(
                asset_referenced(old(self).nodes@),
            ),
            final(self).metadata == old(self).metadata,
            final(self).viewport == old(self).viewport,
            final(self).nodes == old(self).nodes,
            final(self).edges == old(self).edges,
    {
        let referenced_ids = self.referenced_layout_asset_ids();
        let ghost initial = self.layout_assets@;
        let ghost keep = asset_referenced(self.nodes@);
        let mut i: usize = 0;
        let ghost mut k: int = 0;
        assert(self.layout_assets@ =~= initial.subrange(0, 0).filter(keep) + initial.subrange(
            0,
            initial.len() as int,
        ));
        while i < self.layout_assets.len()
            invariant
                0 <= k <= initial.len(),
                keep == asset_referenced(self.nodes@),
                forall|id: Seq<char>|
                    string_views(referenced_ids@).contains(id) <==> references(self.nodes@, id),
                i == initial.subrange(0, k).filter(keep).len(),
                self.layout_assets@ == initial.subrange(0, k).filter(keep) + initial.subrange(
                    k,
                    initial.len() as int,
                ),
                self.metadata == old(self).metadata,
                self.viewport == old(self).viewport,
                self.nodes == old(self).nodes,
                self.edges == old(self).edges,
            decreases self.layout_assets@.len() - i,
        {
            let ghost kept = initial.subrange(0, k).filter(keep);
            proof {
                reveal(Seq::filter);
            }
            assert(initial.subrange(0, k + 1).drop_last() =~= initial.subrange(0, k));
            assert(initial.subrange(0, k + 1).last() == initial[k]);
            assert(self.layout_assets@[i as int] == initial[k]);
            if holds_string(&referenced_ids, self.layout_assets[i].id.as_str()) {
                assert(initial.subrange(0, k + 1).filter(keep) == kept.push(initial[k]));
                assert(self.layout_assets@ =~= kept.push(initial[k]) + initial.subrange(
                    k + 1,
                    initial.len() as int,
                ));
                i = i + 1;
            } else {
                assert(initial.subrange(0, k + 1).filter(keep) == kept);
                self.layout_assets.remove(i);
                assert(self.layout_assets@ =~= kept + initial.subrange(
                    k + 1,
                    initial.len() as int,
                ));
            }
            proof {
                k = k + 1;
            }
        }
        assert(initial.subrange(0, initial.len() as int) =~= initial);
        assert(k == initial.len()) by {
            if k < initial.len() {
                assert(self.layout_assets@.len() > i);
            }
        }
    }
}

/// Pruning keeps exactly the assets that some node parameter references.
pub proof fn lemma_prune_keeps_referenced(
    assets: Seq<EmbeddedLayoutAsset>,
    nodes: Seq<GraphNode>,
    asset: EmbeddedLayoutAsset,
)
    ensures
        assets.filter(asset_referenced(nodes)).contains(asset) <==> (assets.contains(asset)
            && references(nodes, asset.id@)),
    decreases assets.len(),
{
    reveal(Seq::filter);
    if assets.len() > 0 {
        let keep = asset_referenced(nodes);
        let rest = assets.drop_last();
        lemma_prune_keeps_referenced(rest, nodes, asset);
        let kept = rest.filter(keep);
        if assets.contains(asset) {
            let j = choose|j: int| 0 <= j < assets.len() && assets[j] == asset;
            if j < assets.len() - 1 {
                assert(rest[j] == asset);
            }
        }
        if rest.contains(asset) {
            let j = choose|j: int| 0 <= j < rest.len() && rest[j] == asset;
            assert(assets[j] == asset);
        }
        if keep(assets.last()) {
            let grown = kept.push(assets.last());
            assert(assets.filter(keep) == grown);
            if kept.contains(asset) {
                let j = choose|j: int| 0 <= j < kept.len() && kept[j] == asset;
                assert(grown[j] == asset);
            }
            if asset == assets.last() {
                assert(grown[kept.len() as int] == asset);
            }
            if grown.contains(asset) {
                let j = choose|j: int| 0 <= j < grown.len() && grown[j] == asset;
                if j < kept.len() {
                    assert(kept[j] == asset);
                }
            }
        }
    }
}

/// Pruning twice keeps what pruning once kept.
pub proof fn lemma_prune_idempotent(assets: Seq<EmbeddedLayoutAsset>, nodes: Seq<GraphNode>)
    ensures
        assets.filter(asset_referenced(nodes)).filter(asset_referenced(nodes)) == assets.filter(
            asset_referenced(nodes),
        ),
    decreases assets.len(),
{
    reveal(Seq::filter);
    if assets.len() > 0 {
        lemma_prune_idempotent(assets.drop_last(), nodes);
        let keep = asset_referenced(nodes);
        let once = assets.drop_last().filter(keep);
        if keep(assets.last()) {
            assert(assets.filter(keep) == once.push(assets.last()));
            assert(once.push(assets.last()).drop_last() =~= once);
        }
    }
}

} // verus!
