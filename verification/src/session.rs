//! The editor's runtime caches and how server messages update them: the runtime mode of each
//! graph, the live values and plot history of each node, the spatial preview frames of the open
//! graph, and the diagnostics reported per graph and node.

use vstd::prelude::*;
use crate::document::{GraphDocument, GraphMetadata, GraphNode};
use crate::keyed::{text_set, KeyedList};
use crate::navigation::AppView;
use crate::preview::{
    preview_frame_size_label, preview_selection_groups, preview_size_text, selections_of, size_text,
    PreviewSelectionGroup, PreviewSelectionItem, SinkPreviewFrame,
};
use crate::protocol::{
    GraphRuntimeMode, GraphRuntimeStatus, NodeDiagnosticEntry, NodeDiagnosticSummary,
    NodeRuntimeUpdateValue,
};
use crate::schema::NodeTypeId;
use crate::text::{decimal_text, push_decimal, str_equal};
use crate::value::{Decimal, InputValue, LedLayout, LedLayoutRole, RgbaColor, Vec3};

verus! {

/// The most samples the plot history of a node keeps; older samples are dropped first.
pub const MAX_PLOT_HISTORY: usize = 256;

/// A layout as plain values.
pub struct LayoutView {
    pub id: Seq<char>,
    pub role: LedLayoutRole,
    pub pixel_count: usize,
    pub width: Option<usize>,
    pub height: Option<usize>,
    pub points: Option<Seq<Vec3>>,
}

/// The layout as plain values.
pub open spec fn layout_view(layout: LedLayout) -> LayoutView {
    LayoutView {
        id: layout.id@,
        role: layout.role,
        pixel_count: layout.pixel_count,
        width: layout.width,
        height: layout.height,
        points: match layout.points_3d {
            Some(points) => Some(points@),
            None => None,
        },
    }
}

/// A preview frame as plain values: the node that produced it, its name, layout and pixels.
pub struct PreviewFrameView {
    pub node_id: Seq<char>,
    pub node_name: Seq<char>,
    pub layout: LayoutView,
    pub pixels: Seq<RgbaColor>,
}

/// The preview frame as plain values.
pub open spec fn frame_view(frame: SinkPreviewFrame) -> PreviewFrameView {
    PreviewFrameView {
        node_id: frame.sink_node_id@,
        node_name: frame.sink_node_name@,
        layout: layout_view(frame.layout),
        pixels: frame.pixels@,
    }
}

/// The preview a runtime value of a node gives: a color frame or mapped frame whose layout has
/// spatial points.
pub open spec fn value_preview(value: InputValue, node_id: Seq<char>, node_name: Seq<char>) -> Option<
    PreviewFrameView,
> {
    match value {
        InputValue::ColorFrame(frame) | InputValue::MappedFrame(frame) => {
            if frame.layout.points_3d is Some {
                Some(
                    PreviewFrameView {
                        node_id,
                        node_name,
                        layout: layout_view(frame.layout),
                        pixels: frame.pixels@,
                    },
                )
            } else {
                None
            }
        },
        _ => None,
    }
}

fn copy_layout(layout: &LedLayout) -> (copy: LedLayout)
    ensures
        layout_view(copy) == layout_view(*layout),
{
    let points_3d = match &layout.points_3d {
        Some(points) => {
            let mut copied: Vec<Vec3> = Vec::new();
            let mut i: usize = 0;
            while i < points.len()
                invariant
                    i <= points@.len(),
                    copied@ == points@.take(i as int),
                decreases points@.len() - i,
            {
                copied.push(points[i]);
                i = i + 1;
            }
            assert(copied@ =~= points@);
            Some(copied)
        },
        None => None,
    };
    LedLayout {
        id: layout.id.clone(),
        role: layout.role,
        pixel_count: layout.pixel_count,
        width: layout.width,
        height: layout.height,
        points_3d,
    }
}

fn copy_pixels(pixels: &Vec<RgbaColor>) -> (copy: Vec<RgbaColor>)
    ensures
        copy@ == pixels@,
{
    let mut copied: Vec<RgbaColor> = Vec::new();
    let mut i: usize = 0;
    while i < pixels.len()
        invariant
            i <= pixels@.len(),
            copied@ == pixels@.take(i as int),
        decreases pixels@.len() - i,
    {
        copied.push(pixels[i]);
        i = i + 1;
    }
    assert(copied@ =~= pixels@);
    copied
}

/// Returns the spatial preview of a node's runtime value: a copy of a color or mapped frame whose
/// layout has 3D points, under the node's id and name; `None` for any other value.
pub fn preview_frame_from_input_value(
    value: &InputValue,
    source_node_id: &str,
    source_display_name: &str,
) -> (frame: Option<SinkPreviewFrame>)
    ensures
        match frame {
            Some(f) => value_preview(*value, source_node_id@, source_display_name@) == Some(
                frame_view(f),
            ),
            None => value_preview(*value, source_node_id@, source_display_name@) is None,
        },
{
    match value {
        InputValue::ColorFrame(frame) | InputValue::MappedFrame(frame) => {
            if frame.layout.points_3d.is_some() {
                Some(
                    SinkPreviewFrame {
                        sink_node_id: source_node_id.to_owned(),
                        sink_node_name: source_display_name.to_owned(),
                        layout: copy_layout(&frame.layout),
                        pixels: copy_pixels(&frame.pixels),
                    },
                )
            } else {
                None
            }
        },
        _ => None,
    }
}

/// The previews of a node's runtime values, in the order of its value entries.
pub open spec fn entry_previews(
    entries: Seq<(String, InputValue)>,
    node_id: Seq<char>,
    node_name: Seq<char>,
) -> Seq<PreviewFrameView>
    decreases entries.len(),
{
    if entries.len() == 0 {
        Seq::empty()
    } else {
        let earlier = entry_previews(entries.drop_last(), node_id, node_name);
        match value_preview(entries.last().1, node_id, node_name) {
            Some(f) => earlier.push(f),
            None => earlier,
        }
    }
}

/// The previews of a graph: for each node in order, the previews of its cached runtime values.
pub open spec fn graph_previews(
    nodes: Seq<GraphNode>,
    values: Map<Seq<char>, KeyedList<InputValue>>,
) -> Seq<PreviewFrameView>
    decreases nodes.len(),
{
    if nodes.len() == 0 {
        Seq::empty()
    } else {
        let node = nodes.last();
        let earlier = graph_previews(nodes.drop_last(), values);
        if values.contains_key(node.id@) {
            earlier + entry_previews(values[node.id@].entries(), node.id@, node.metadata.name@)
        } else {
            earlier
        }
    }
}

/// The views of preview frames, in order.
pub open spec fn frame_views(frames: Seq<SinkPreviewFrame>) -> Seq<PreviewFrameView> {
    frames.map_values(|f: SinkPreviewFrame| frame_view(f))
}

/// The diagnostics cached for node `node_id` of graph `graph_id`; none if nothing is cached.
pub open spec fn details_of(
    details: Map<Seq<char>, KeyedList<Vec<NodeDiagnosticEntry>>>,
    graph_id: Seq<char>,
    node_id: Seq<char>,
) -> Seq<NodeDiagnosticEntry> {
    if details.contains_key(graph_id) && details[graph_id]@.contains_key(node_id) {
        details[graph_id]@[node_id]@
    } else {
        Seq::empty()
    }
}

/// Node summaries keyed by node id; a later summary replaces an earlier one for the same node.
pub open spec fn summaries_by_node(summaries: Seq<NodeDiagnosticSummary>) -> Map<
    Seq<char>,
    NodeDiagnosticSummary,
>
    decreases summaries.len(),
{
    if summaries.len() == 0 {
        Map::empty()
    } else {
        summaries_by_node(summaries.drop_last()).insert(
            summaries.last().node_id@,
            summaries.last(),
        )
    }
}

/// Runtime modes keyed by graph id; a later status replaces an earlier one for the same graph.
pub open spec fn modes_by_graph(statuses: Seq<GraphRuntimeStatus>) -> Map<Seq<char>, GraphRuntimeMode>
    decreases statuses.len(),
{
    if statuses.len() == 0 {
        Map::empty()
    } else {
        modes_by_graph(statuses.drop_last()).insert(
            statuses.last().graph_id@,
            statuses.last().mode,
        )
    }
}

/// Whether a graph counts as started: it was unknown or paused and is now running.
pub open spec fn started_running(
    previous: Option<GraphRuntimeMode>,
    next: Option<GraphRuntimeMode>,
) -> bool {
    match (previous, next) {
        (None, Some(GraphRuntimeMode::Running)) => true,
        (Some(GraphRuntimeMode::Paused), Some(GraphRuntimeMode::Running)) => true,
        _ => false,
    }
}

/// The mode a map gives a graph, if it has one.
pub open spec fn mode_of(modes: Map<Seq<char>, GraphRuntimeMode>, graph_id: Seq<char>) -> Option<
    GraphRuntimeMode,
> {
    if modes.contains_key(graph_id) {
        Some(modes[graph_id])
    } else {
        None
    }
}

/// The ids of a list of graphs.
pub open spec fn graph_ids(documents: Seq<GraphMetadata>) -> Set<Seq<char>> {
    Set::new(|k: Seq<char>| exists|i: int| 0 <= i < documents.len() && (#[trigger] documents[i]).id@ == k)
}

/// The text of an optional id.
pub open spec fn optional_text(id: Option<&str>) -> Option<Seq<char>> {
    match id {
        Some(text) => Some(text@),
        None => None,
    }
}

/// Whether a status update starts the selected graph: it is known to the caches as unknown or
/// paused and the update reports it running.
pub open spec fn starts_selected_graph(
    modes: Map<Seq<char>, GraphRuntimeMode>,
    statuses: Seq<GraphRuntimeStatus>,
    selected_graph_id: Option<Seq<char>>,
) -> bool {
    match selected_graph_id {
        Some(g) => started_running(mode_of(modes, g), mode_of(modes_by_graph(statuses), g)),
        None => false,
    }
}

/// The name a runtime update carries.
pub open spec fn update_name(update: NodeRuntimeUpdateValue) -> Seq<char> {
    match update {
        NodeRuntimeUpdateValue::Inline { name, .. } => name@,
    }
}

/// The value a runtime update carries.
pub open spec fn update_value(update: NodeRuntimeUpdateValue) -> InputValue {
    match update {
        NodeRuntimeUpdateValue::Inline { value, .. } => value,
    }
}

/// A node's runtime values after a list of updates, applied in order.
pub open spec fn values_after(
    values: Map<Seq<char>, InputValue>,
    updates: Seq<NodeRuntimeUpdateValue>,
) -> Map<Seq<char>, InputValue>
    decreases updates.len(),
{
    if updates.len() == 0 {
        values
    } else {
        values_after(values, updates.drop_last()).insert(
            update_name(updates.last()),
            update_value(updates.last()),
        )
    }
}

/// The float samples among updates named `value`, in order.
pub open spec fn plot_samples(updates: Seq<NodeRuntimeUpdateValue>) -> Seq<Decimal>
    decreases updates.len(),
{
    if updates.len() == 0 {
        Seq::empty()
    } else {
        let earlier = plot_samples(updates.drop_last());
        match update_value(updates.last()) {
            InputValue::Float(sample) => if update_name(updates.last()) == "value"@ {
                earlier.push(sample)
            } else {
                earlier
            },
            _ => earlier,
        }
    }
}

/// A plot history after appending `sample`: the newest `MAX_PLOT_HISTORY` samples.
pub open spec fn appended_sample(history: Seq<Decimal>, sample: Decimal) -> Seq<Decimal> {
    let pushed = history.push(sample);
    if pushed.len() > MAX_PLOT_HISTORY {
        pushed.skip(pushed.len() - MAX_PLOT_HISTORY)
    } else {
        pushed
    }
}

/// A plot history after appending samples in order.
pub open spec fn history_after(history: Seq<Decimal>, samples: Seq<Decimal>) -> Seq<Decimal>
    decreases samples.len(),
{
    if samples.len() == 0 {
        history
    } else {
        appended_sample(history_after(history, samples.drop_last()), samples.last())
    }
}

/// The cached runtime values of a node; none if nothing is cached.
pub open spec fn node_values_of(values: Map<Seq<char>, KeyedList<InputValue>>, node_id: Seq<char>) -> Map<
    Seq<char>,
    InputValue,
> {
    if values.contains_key(node_id) {
        values[node_id]@
    } else {
        Map::empty()
    }
}

/// The plot history of a node; empty if nothing is cached.
pub open spec fn history_of(history: Map<Seq<char>, Vec<Decimal>>, node_id: Seq<char>) -> Seq<Decimal> {
    if history.contains_key(node_id) {
        history[node_id]@
    } else {
        Seq::empty()
    }
}

/// The first node with id `id`.
pub open spec fn first_node_with_id(nodes: Seq<GraphNode>, id: Seq<char>) -> Option<GraphNode>
    decreases nodes.len(),
{
    if nodes.len() == 0 {
        None
    } else {
        match first_node_with_id(nodes.drop_last(), id) {
            Some(node) => Some(node),
            None => if nodes.last().id@ == id {
                Some(nodes.last())
            } else {
                None
            },
        }
    }
}

/// Whether the first node with id `node_id` in the document is a plot node.
pub open spec fn is_plot_node(document: GraphDocument, node_id: Seq<char>) -> bool {
    match first_node_with_id(document.nodes@, node_id) {
        Some(node) => node.node_type.0@ == NodeTypeId::PLOT@,
        None => false,
    }
}

/// Whether a runtime update for graph `graph_id` concerns the loaded document.
pub open spec fn updates_loaded_graph(loaded: Option<&GraphDocument>, graph_id: Seq<char>) -> bool {
    match loaded {
        Some(document) => document.metadata.id@ == graph_id,
        None => false,
    }
}

/// A plot history never grows past `MAX_PLOT_HISTORY` samples, however many are appended, and
/// its newest sample is the last one appended.
pub proof fn lemma_plot_history_bounded(history: Seq<Decimal>, samples: Seq<Decimal>)
    requires
        history.len() <= MAX_PLOT_HISTORY,
    ensures
        history_after(history, samples).len() <= MAX_PLOT_HISTORY,
        samples.len() > 0 ==> history_after(history, samples).last() == samples.last(),
    decreases samples.len(),
{
    if samples.len() > 0 {
        lemma_plot_history_bounded(history, samples.drop_last());
    }
}

fn first_node<'a>(nodes: &'a Vec<GraphNode>, id: &str) -> (node: Option<&'a GraphNode>)
    ensures
        match node {
            Some(n) => first_node_with_id(nodes@, id@) == Some(*n),
            None => first_node_with_id(nodes@, id@) is None,
        },
{
    let mut i: usize = 0;
    while i < nodes.len()
        invariant
            i <= nodes@.len(),
            first_node_with_id(nodes@.take(i as int), id@) is None,
        decreases nodes@.len() - i,
    {
        assert(nodes@.take(i + 1).drop_last() =~= nodes@.take(i as int));
        if str_equal(nodes[i].id.as_str(), id) {
            proof {
                lemma_first_node_prefix(nodes@, id@, i as int + 1);
            }
            return Some(&nodes[i]);
        }
        i = i + 1;
    }
    assert(nodes@.take(i as int) =~= nodes@);
    None
}

proof fn lemma_first_node_prefix(nodes: Seq<GraphNode>, id: Seq<char>, k: int)
    requires
        0 <= k <= nodes.len(),
        first_node_with_id(nodes.take(k), id) is Some,
    ensures
        first_node_with_id(nodes, id) == first_node_with_id(nodes.take(k), id),
    decreases nodes.len() - k,
{
    if k < nodes.len() {
        assert(nodes.take(k + 1).drop_last() =~= nodes.take(k));
        lemma_first_node_prefix(nodes, id, k + 1);
    } else {
        assert(nodes.take(k) =~= nodes);
    }
}

/// Whether a metadata update closes the editor: the editor is showing a graph and the selected
/// graph is no longer listed (or none is selected).
pub fn selected_graph_removed(
    documents: &[GraphMetadata],
    selected_graph_id: Option<&str>,
    active_view: AppView,
) -> (removed: bool)
    ensures
        removed == (active_view == AppView::Editor && match selected_graph_id {
            Some(id) => !graph_ids(documents@).contains(id@),
            None => true,
        }),
{
    if let AppView::Dashboard = active_view {
        return false;
    }
    match selected_graph_id {
        Some(id) => {
            let mut i: usize = 0;
            while i < documents.len()
                invariant
                    i <= documents@.len(),
                    active_view == AppView::Editor,
                    selected_graph_id == Some(id),
                    forall|j: int| 0 <= j < i ==> (#[trigger] documents@[j]).id@ != id@,
                decreases documents@.len() - i,
            {
                if str_equal(documents[i].id.as_str(), id) {
                    assert(graph_ids(documents@).contains(id@));
                    return false;
                }
                i = i + 1;
            }
            assert(!graph_ids(documents@).contains(id@)) by {
                if graph_ids(documents@).contains(id@) {
                    let j = choose|j: int| 0 <= j < documents@.len() && (#[trigger] documents@[j]).id@ == id@;
                    assert(documents@[j].id@ != id@);
                }
            }
            true
        },
        None => true,
    }
}

/// The size label of a layout seen as plain values; the same as the label of the layout itself.
pub open spec fn layout_size_text(layout: LayoutView) -> Seq<char> {
    let width = match layout.width {
        Some(w) => w as nat,
        None => if layout.pixel_count > 1 {
            layout.pixel_count as nat
        } else {
            1
        },
    };
    let height = match layout.height {
        Some(h) => h as nat,
        None => 1,
    };
    size_text(width, height)
}

/// An entry of a node's own preview selection as plain values: its key, label and frame.
pub struct ScopedItemView {
    pub key: Seq<char>,
    pub label: Seq<char>,
    pub frame: PreviewFrameView,
}

/// How many of a node's runtime values preview as layouts, the mapped source frame aside.
pub open spec fn layout_count(
    entries: Seq<(String, InputValue)>,
    node_id: Seq<char>,
    node_name: Seq<char>,
) -> nat
    decreases entries.len(),
{
    if entries.len() == 0 {
        0
    } else {
        layout_count(entries.drop_last(), node_id, node_name) + if value_preview(
            entries.last().1,
            node_id,
            node_name,
        ) is Some && entries.last().0@ != "source_frame"@ {
            1nat
        } else {
            0nat
        }
    }
}

/// The label of a node's own preview entry: the mapped source frame, or the `index`-th layout,
/// with the frame's size.
pub open spec fn scoped_label(
    value_name: Seq<char>,
    node_name: Seq<char>,
    index: nat,
    layout: LayoutView,
) -> Seq<char> {
    if value_name == "source_frame"@ {
        node_name + " / Mapped Frame ("@ + layout_size_text(layout) + ")"@
    } else {
        node_name + " / Layout "@ + decimal_text(index) + " ("@ + layout_size_text(layout) + ")"@
    }
}

/// A node's own preview entries: one per runtime value that previews, in value order.
pub open spec fn scoped_items(
    entries: Seq<(String, InputValue)>,
    node_id: Seq<char>,
    node_name: Seq<char>,
) -> Seq<ScopedItemView>
    decreases entries.len(),
{
    if entries.len() == 0 {
        Seq::empty()
    } else {
        let earlier = scoped_items(entries.drop_last(), node_id, node_name);
        match value_preview(entries.last().1, node_id, node_name) {
            Some(frame) => earlier.push(
                ScopedItemView {
                    key: "node_layout:"@ + node_id + ":"@ + entries.last().0@,
                    label: scoped_label(
                        entries.last().0@,
                        node_name,
                        layout_count(entries.drop_last(), node_id, node_name) + 1,
                        frame.layout,
                    ),
                    frame,
                },
            ),
            None => earlier,
        }
    }
}

/// A preview selection entry as plain values, when it shows exactly one frame.
pub open spec fn item_view_is(item: PreviewSelectionItem, view: ScopedItemView) -> bool {
    &&& item.key@ == view.key
    &&& item.label@ == view.label
    &&& frame_views(item.frames@) == seq![view.frame]
}

/// Whether `groups` is the preview selection of node `node_id`: one group keyed and labelled by
/// the node, with an entry per cached runtime value that previews; no group when no document is
/// loaded, the node is not in it, it has no cached values, or none of them previews.
pub open spec fn scoped_selection(
    values: Map<Seq<char>, KeyedList<InputValue>>,
    loaded: Option<&GraphDocument>,
    node_id: Seq<char>,
    groups: Seq<PreviewSelectionGroup>,
) -> bool {
    match loaded {
        Some(document) => match first_node_with_id(document.nodes@, node_id) {
            Some(node) => if values.contains_key(node_id) {
                let items = scoped_items(values[node_id].entries(), node.id@, node.metadata.name@);
                if items.len() == 0 {
                    groups.len() == 0
                } else {
                    &&& groups.len() == 1
                    &&& groups[0].key@ == "node:"@ + node.id@
                    &&& groups[0].label@ == node.metadata.name@
                    &&& groups[0].items@.len() == items.len()
                    &&& forall|k: int|
                        0 <= k < items.len() ==> item_view_is(#[trigger] groups[0].items@[k], items[k])
                }
            } else {
                groups.len() == 0
            },
            None => groups.len() == 0,
        },
        None => groups.len() == 0,
    }
}

/// The preview frames cached for a graph; none when nothing is cached.
pub open spec fn cached_frames(frames: Map<Seq<char>, Vec<SinkPreviewFrame>>, graph_id: Seq<char>) -> Seq<
    SinkPreviewFrame,
> {
    if frames.contains_key(graph_id) {
        frames[graph_id]@
    } else {
        Seq::empty()
    }
}

fn copy_frame(frame: &SinkPreviewFrame) -> (copy: SinkPreviewFrame)
    ensures
        frame_view(copy) == frame_view(*frame),
{
    SinkPreviewFrame {
        sink_node_id: frame.sink_node_id.clone(),
        sink_node_name: frame.sink_node_name.clone(),
        layout: copy_layout(&frame.layout),
        pixels: copy_pixels(&frame.pixels),
    }
}

fn copy_frames(frames: &Vec<SinkPreviewFrame>) -> (copies: Vec<SinkPreviewFrame>)
    ensures
        frame_views(copies@) == frame_views(frames@),
{
    let mut copies: Vec<SinkPreviewFrame> = Vec::new();
    let mut i: usize = 0;
    while i < frames.len()
        invariant
            i <= frames@.len(),
            frame_views(copies@) == frame_views(frames@.take(i as int)),
        decreases frames@.len() - i,
    {
        let copy = copy_frame(&frames[i]);
        let ghost before = frame_views(copies@);
        copies.push(copy);
        assert(frame_views(copies@) =~= before.push(frame_view(copy)));
        assert(frame_views(frames@.take(i + 1)) =~= frame_views(frames@.take(i as int)).push(
            frame_view(frames@[i as int]),
        ));
        i = i + 1;
    }
    assert(frames@.take(i as int) =~= frames@);
    copies
}

/// The runtime data the editor caches between server messages.
pub struct GraphRuntimeCaches {
    /// The last reported runtime mode of each graph.
    pub graph_runtime_modes: KeyedList<GraphRuntimeMode>,
    /// The latest runtime values of each node of the open graph, by value name.
    pub runtime_node_values: KeyedList<KeyedList<InputValue>>,
    /// The recent `value` samples of each plot node of the open graph, oldest first.
    pub plot_history: KeyedList<Vec<Decimal>>,
    /// The node diagnostic summaries of each graph, by node id.
    pub node_diagnostic_summaries_by_graph: KeyedList<KeyedList<NodeDiagnosticSummary>>,
    /// The detailed diagnostics of each graph, by node id.
    pub node_diagnostic_details_by_graph: KeyedList<KeyedList<Vec<NodeDiagnosticEntry>>>,
    /// The spatial preview frames of each graph.
    pub preview_frames_by_graph: KeyedList<Vec<SinkPreviewFrame>>,
}

impl GraphRuntimeCaches {
    /// The change `apply_runtime_statuses` makes: every graph's mode is the reported one, and the
    /// live values, plot history and selected graph's preview frames are dropped exactly when the
    /// selected graph starts running.
    pub open spec fn runtime_statuses_applied(
        before: Self,
        after: Self,
        selected: Option<Seq<char>>,
        graphs: Seq<GraphRuntimeStatus>,
    ) -> bool {
        &&& after.graph_runtime_modes@ == modes_by_graph(graphs)
        &&& starts_selected_graph(before.graph_runtime_modes@, graphs, selected) ==> {
            &&& after.runtime_node_values@ == Map::<Seq<char>, KeyedList<InputValue>>::empty()
            &&& after.plot_history@ == Map::<Seq<char>, Vec<Decimal>>::empty()
            &&& after.preview_frames_by_graph@ == before.preview_frames_by_graph@.remove(
                selected->0,
            )
        }
        &&& !starts_selected_graph(before.graph_runtime_modes@, graphs, selected) ==> {
            &&& after.runtime_node_values == before.runtime_node_values
            &&& after.plot_history == before.plot_history
            &&& after.preview_frames_by_graph == before.preview_frames_by_graph
        }
        &&& after.node_diagnostic_summaries_by_graph == before.node_diagnostic_summaries_by_graph
        &&& after.node_diagnostic_details_by_graph == before.node_diagnostic_details_by_graph
    }

    /// The change `apply_runtime_update` makes for an update of node `node_id` of graph
    /// `graph_id`.
    pub open spec fn runtime_update_applied(
        before: Self,
        after: Self,
        loaded: Option<&GraphDocument>,
        graph_id: Seq<char>,
        node_id: Seq<char>,
        values: Seq<NodeRuntimeUpdateValue>,
    ) -> bool {
        &&& !updates_loaded_graph(loaded, graph_id) ==> after == before
        &&& updates_loaded_graph(loaded, graph_id) ==> {
            &&& after.runtime_node_values@.contains_key(node_id)
            &&& after.runtime_node_values@[node_id]@ == values_after(
                node_values_of(before.runtime_node_values@, node_id),
                values,
            )
            &&& after.runtime_node_values@.remove(node_id) == before.runtime_node_values@.remove(
                node_id,
            )
            &&& if is_plot_node(*loaded->0, node_id) && plot_samples(values).len() > 0 {
                &&& after.plot_history@.contains_key(node_id)
                &&& after.plot_history@[node_id]@ == history_after(
                    history_of(before.plot_history@, node_id),
                    plot_samples(values),
                )
                &&& after.plot_history@.remove(node_id) == before.plot_history@.remove(node_id)
            } else {
                after.plot_history == before.plot_history
            }
            &&& after.preview_frames_by_graph@.contains_key(graph_id)
            &&& frame_views(after.preview_frames_by_graph@[graph_id]@) == graph_previews(
                loaded->0.nodes@,
                after.runtime_node_values@,
            )
            &&& after.preview_frames_by_graph@.remove(graph_id)
                == before.preview_frames_by_graph@.remove(graph_id)
            &&& after.graph_runtime_modes == before.graph_runtime_modes
            &&& after.node_diagnostic_summaries_by_graph
                == before.node_diagnostic_summaries_by_graph
            &&& after.node_diagnostic_details_by_graph == before.node_diagnostic_details_by_graph
        }
    }

    /// The change `apply_graph_diagnostics_summary` makes: graph `graph_id` gets the summaries
    /// by node, and nothing else changes.
    pub open spec fn diagnostics_summary_applied(
        before: Self,
        after: Self,
        graph_id: Seq<char>,
        nodes: Seq<NodeDiagnosticSummary>,
    ) -> bool {
        &&& after.node_diagnostic_summaries_by_graph@.contains_key(graph_id)
        &&& after.node_diagnostic_summaries_by_graph@[graph_id]@ == summaries_by_node(nodes)
        &&& after.node_diagnostic_summaries_by_graph@.remove(graph_id)
            == before.node_diagnostic_summaries_by_graph@.remove(graph_id)
        &&& after.graph_runtime_modes == before.graph_runtime_modes
        &&& after.runtime_node_values == before.runtime_node_values
        &&& after.plot_history == before.plot_history
        &&& after.node_diagnostic_details_by_graph == before.node_diagnostic_details_by_graph
        &&& after.preview_frames_by_graph == before.preview_frames_by_graph
    }

    /// The change `apply_node_diagnostics_detail` makes: reading back node `node_id` of graph
    /// `graph_id` gives `diagnostics`, every other node keeps its diagnostics, and nothing else
    /// changes.
    pub open spec fn diagnostics_detail_applied(
        before: Self,
        after: Self,
        graph_id: Seq<char>,
        node_id: Seq<char>,
        diagnostics: Seq<NodeDiagnosticEntry>,
    ) -> bool {
        &&& forall|g: Seq<char>, n: Seq<char>|
            #[trigger] details_of(after.node_diagnostic_details_by_graph@, g, n) == if g
                == graph_id && n == node_id {
                diagnostics
            } else {
                details_of(before.node_diagnostic_details_by_graph@, g, n)
            }
        &&& after.node_diagnostic_details_by_graph@.dom()
            == before.node_diagnostic_details_by_graph@.dom().insert(graph_id)
        &&& after.graph_runtime_modes == before.graph_runtime_modes
        &&& after.runtime_node_values == before.runtime_node_values
        &&& after.plot_history == before.plot_history
        &&& after.node_diagnostic_summaries_by_graph == before.node_diagnostic_summaries_by_graph
        &&& after.preview_frames_by_graph == before.preview_frames_by_graph
    }

    /// Caches with nothing in them.
    pub fn new() -> (caches: Self)
        ensures
            caches.graph_runtime_modes@ == Map::<Seq<char>, GraphRuntimeMode>::empty(),
            caches.runtime_node_values@ == Map::<Seq<char>, KeyedList<InputValue>>::empty(),
            caches.plot_history@ == Map::<Seq<char>, Vec<Decimal>>::empty(),
            caches.node_diagnostic_summaries_by_graph@ == Map::<
                Seq<char>,
                KeyedList<NodeDiagnosticSummary>,
            >::empty(),
            caches.node_diagnostic_details_by_graph@ == Map::<
                Seq<char>,
                KeyedList<Vec<NodeDiagnosticEntry>>,
            >::empty(),
            caches.preview_frames_by_graph@ == Map::<Seq<char>, Vec<SinkPreviewFrame>>::empty(),
    {
        GraphRuntimeCaches {
            graph_runtime_modes: KeyedList::new(),
            runtime_node_values: KeyedList::new(),
            plot_history: KeyedList::new(),
            node_diagnostic_summaries_by_graph: KeyedList::new(),
            node_diagnostic_details_by_graph: KeyedList::new(),
            preview_frames_by_graph: KeyedList::new(),
        }
    }

    /// Replaces the runtime mode of every graph with the reported ones. When the selected graph
    /// starts running (it was unknown or paused and is now running), its live values, plot
    /// history and preview frames are dropped so the editor starts from a clean run.
    pub fn apply_runtime_statuses(
        &mut self,
        selected_graph_id: Option<&str>,
        graphs: Vec<GraphRuntimeStatus>,
    )
        ensures
            Self::runtime_statuses_applied(
                *old(self),
                *final(self),
                optional_text(selected_graph_id),
                graphs@,
            ),
    {
        let previous = match selected_graph_id {
            Some(graph_id) => match self.graph_runtime_modes.get(graph_id) {
                Some(mode) => Some(*mode),
                None => None,
            },
            None => None,
        };
        let mut modes: KeyedList<GraphRuntimeMode> = KeyedList::new();
        let mut i: usize = 0;
        while i < graphs.len()
            invariant
                i <= graphs@.len(),
                modes@ == modes_by_graph(graphs@.take(i as int)),
            decreases graphs@.len() - i,
        {
            assert(graphs@.take(i + 1).drop_last() =~= graphs@.take(i as int));
            modes.insert(graphs[i].graph_id.clone(), graphs[i].mode);
            i = i + 1;
        }
        assert(graphs@.take(i as int) =~= graphs@);
        self.graph_runtime_modes = modes;
        if let Some(graph_id) = selected_graph_id {
            let next = match self.graph_runtime_modes.get(graph_id) {
                Some(mode) => Some(*mode),
                None => None,
            };
            let started = match (previous, next) {
                (None, Some(GraphRuntimeMode::Running)) => true,
                (Some(GraphRuntimeMode::Paused), Some(GraphRuntimeMode::Running)) => true,
                _ => false,
            };
            if started {
                self.runtime_node_values.clear();
                self.plot_history.clear();
                self.preview_frames_by_graph.remove(graph_id);
            }
        }
    }

    /// Drops the runtime modes, diagnostics and preview frames of graphs that are no longer
    /// listed.
    pub fn retain_known_graphs(&mut self, documents: &[GraphMetadata])
        ensures
            final(self).graph_runtime_modes@ == old(self).graph_runtime_modes@.restrict(
                graph_ids(documents@),
            ),
            final(self).node_diagnostic_summaries_by_graph@ == old(
                self,
            ).node_diagnostic_summaries_by_graph@.restrict(graph_ids(documents@)),
            final(self).node_diagnostic_details_by_graph@ == old(
                self,
            ).node_diagnostic_details_by_graph@.restrict(graph_ids(documents@)),
            final(self).preview_frames_by_graph@ == old(self).preview_frames_by_graph@.restrict(
                graph_ids(documents@),
            ),
            final(self).runtime_node_values == old(self).runtime_node_values,
            final(self).plot_history == old(self).plot_history,
    {
        let mut ids: Vec<String> = Vec::new();
        let mut i: usize = 0;
        while i < documents.len()
            invariant
                i <= documents@.len(),
                ids@.len() == i,
                forall|j: int| 0 <= j < i ==> (#[trigger] ids@[j])@ == documents@[j].id@,
            decreases documents@.len() - i,
        {
            ids.push(documents[i].id.clone());
            i = i + 1;
        }
        assert(text_set(ids@) =~= graph_ids(documents@)) by {
            assert forall|k: Seq<char>| text_set(ids@).contains(k) implies graph_ids(
                documents@,
            ).contains(k) by {
                let j = choose|j: int| 0 <= j < ids@.len() && (#[trigger] ids@[j])@ == k;
                assert(documents@[j].id@ == k);
            }
            assert forall|k: Seq<char>| graph_ids(documents@).contains(k) implies text_set(
                ids@,
            ).contains(k) by {
                let j = choose|j: int| 0 <= j < documents@.len() && (#[trigger] documents@[j]).id@ == k;
                assert(ids@[j]@ == k);
            }
        }
        self.graph_runtime_modes.retain_keys(&ids);
        self.node_diagnostic_summaries_by_graph.retain_keys(&ids);
        self.node_diagnostic_details_by_graph.retain_keys(&ids);
        self.preview_frames_by_graph.retain_keys(&ids);
    }

    /// Forgets the live values, plot history and preview frames of the previous graph when a
    /// different graph is loaded; reloading the same graph keeps them.
    pub fn reset_for_loaded_graph(&mut self, previous_loaded_id: Option<&str>, graph_id: &str)
        ensures
            optional_text(previous_loaded_id) == Some(graph_id@) ==> *final(self) == *old(self),
            optional_text(previous_loaded_id) != Some(graph_id@) ==> {
                &&& final(self).runtime_node_values@ == Map::<
                    Seq<char>,
                    KeyedList<InputValue>,
                >::empty()
                &&& final(self).plot_history@ == Map::<Seq<char>, Vec<Decimal>>::empty()
                &&& final(self).preview_frames_by_graph@ == old(self).preview_frames_by_graph@.remove(
                    graph_id@,
                )
                &&& final(self).graph_runtime_modes == old(self).graph_runtime_modes
                &&& final(self).node_diagnostic_summaries_by_graph == old(
                    self,
                ).node_diagnostic_summaries_by_graph
                &&& final(self).node_diagnostic_details_by_graph == old(
                    self,
                ).node_diagnostic_details_by_graph
            },
    {
        let same_loaded_graph = match previous_loaded_id {
            Some(previous) => str_equal(previous, graph_id),
            None => false,
        };
        if !same_loaded_graph {
            self.runtime_node_values.clear();
            self.preview_frames_by_graph.remove(graph_id);
            self.plot_history.clear();
        }
    }

    /// Applies a new list of graphs: the cached data of graphs no longer listed is dropped, and
    /// when the editor shows a graph that is no longer listed the graph session's live data is
    /// dropped too (the caller then closes the editor). Returns whether the editor closes, with
    /// the status line: the number of graphs loaded, or that the selected graph was removed.
    pub fn apply_graph_metadata(
        &mut self,
        documents: &[GraphMetadata],
        selected_graph_id: Option<&str>,
        active_view: AppView,
    ) -> (outcome: (bool, String))
        ensures
            outcome.0 == (active_view == AppView::Editor && match selected_graph_id {
                Some(id) => !graph_ids(documents@).contains(id@),
                None => true,
            }),
            outcome.0 ==> outcome.1@ == "Selected graph was removed"@,
            !outcome.0 ==> outcome.1@ == "Loaded "@ + decimal_text(documents@.len()) + " graph documents"@,
            final(self).graph_runtime_modes@ == old(self).graph_runtime_modes@.restrict(
                graph_ids(documents@),
            ),
            final(self).node_diagnostic_summaries_by_graph@ == old(
                self,
            ).node_diagnostic_summaries_by_graph@.restrict(graph_ids(documents@)),
            final(self).node_diagnostic_details_by_graph@ == old(
                self,
            ).node_diagnostic_details_by_graph@.restrict(graph_ids(documents@)),
            outcome.0 ==> {
                &&& final(self).runtime_node_values@ == Map::<
                    Seq<char>,
                    KeyedList<InputValue>,
                >::empty()
                &&& final(self).preview_frames_by_graph@ == Map::<
                    Seq<char>,
                    Vec<SinkPreviewFrame>,
                >::empty()
                &&& final(self).plot_history@ == Map::<Seq<char>, Vec<Decimal>>::empty()
            },
            !outcome.0 ==> {
                &&& final(self).runtime_node_values == old(self).runtime_node_values
                &&& final(self).preview_frames_by_graph@ == old(
                    self,
                ).preview_frames_by_graph@.restrict(graph_ids(documents@))
                &&& final(self).plot_history == old(self).plot_history
            },
    {
        self.retain_known_graphs(documents);
        if selected_graph_removed(documents, selected_graph_id, active_view) {
            self.clear_selected_graph_session();
            (true, String::from_str("Selected graph was removed"))
        } else {
            let mut status = String::from_str("Loaded ");
            push_decimal(&mut status, documents.len() as u64);
            status.append(" graph documents");
            (false, status)
        }
    }

    /// Drops the live values, preview frames and plot history of the graph session being closed.
    pub fn clear_selected_graph_session(&mut self)
        ensures
            final(self).runtime_node_values@ == Map::<Seq<char>, KeyedList<InputValue>>::empty(),
            final(self).preview_frames_by_graph@ == Map::<Seq<char>, Vec<SinkPreviewFrame>>::empty(),
            final(self).plot_history@ == Map::<Seq<char>, Vec<Decimal>>::empty(),
            final(self).graph_runtime_modes == old(self).graph_runtime_modes,
            final(self).node_diagnostic_summaries_by_graph == old(
                self,
            ).node_diagnostic_summaries_by_graph,
            final(self).node_diagnostic_details_by_graph == old(
                self,
            ).node_diagnostic_details_by_graph,
    {
        self.runtime_node_values.clear();
        self.preview_frames_by_graph.clear();
        self.plot_history.clear();
    }

    /// Applies a runtime update of node `node_id` in graph `graph_id`.
    ///
    /// Updates for a graph other than the loaded one change nothing. Otherwise each value is
    /// stored under its name in order; when the node is a plot node, each float named `value` is
    /// also appended to its plot history, which keeps the newest `MAX_PLOT_HISTORY` samples; and
    /// the graph's preview frames are rebuilt from the live values of its nodes.
    pub fn apply_runtime_update(
        &mut self,
        loaded: Option<&GraphDocument>,
        graph_id: &str,
        node_id: &str,
        values: Vec<NodeRuntimeUpdateValue>,
    )
        ensures
            Self::runtime_update_applied(*old(self), *final(self), loaded, graph_id@, node_id@, values@),
    {
        let document = match loaded {
            Some(document) => {
                if !str_equal(document.metadata.id.as_str(), graph_id) {
                    return;
                }
                document
            },
            None => {
                return;
            },
        };
        let is_plot = match first_node(&document.nodes, node_id) {
            Some(node) => str_equal(node.node_type.0.as_str(), NodeTypeId::PLOT),
            None => false,
        };
        let ghost runtime_before = self.runtime_node_values@;
        let ghost plot_before = self.plot_history;
        let mut node_values = match self.runtime_node_values.remove(node_id) {
            Some(node_values) => node_values,
            None => KeyedList::new(),
        };
        let ghost start = node_values@;
        assert(start == node_values_of(runtime_before, node_id@));
        let ghost all = values@;
        let total = values.len();
        let mut rest = values;
        let mut i: usize = 0;
        assert(all.take(0) =~= Seq::<NodeRuntimeUpdateValue>::empty());
        while rest.len() > 0
            invariant
                i <= all.len(),
                all.len() == total,
                rest@ == all.skip(i as int),
                node_values@ == values_after(start, all.take(i as int)),
                self.runtime_node_values@ == runtime_before.remove(node_id@),
                is_plot == is_plot_node(*document, node_id@),
                if is_plot && plot_samples(all.take(i as int)).len() > 0 {
                    &&& self.plot_history@.contains_key(node_id@)
                    &&& self.plot_history@[node_id@]@ == history_after(
                        history_of(plot_before@, node_id@),
                        plot_samples(all.take(i as int)),
                    )
                    &&& self.plot_history@.remove(node_id@) == plot_before@.remove(node_id@)
                } else {
                    self.plot_history == plot_before
                },
                self.graph_runtime_modes == old(self).graph_runtime_modes,
                self.node_diagnostic_summaries_by_graph == old(
                    self,
                ).node_diagnostic_summaries_by_graph,
                self.node_diagnostic_details_by_graph == old(self).node_diagnostic_details_by_graph,
                self.preview_frames_by_graph == old(self).preview_frames_by_graph,
            decreases rest@.len(),
        {
            let update = rest.remove(0);
            let ghost prefix = all.take(i as int);
            assert(all.take(i + 1).drop_last() =~= prefix);
            assert(all.take(i + 1).last() == update);
            match update {
                NodeRuntimeUpdateValue::Inline { name, value } => {
                    if is_plot && str_equal(name.as_str(), "value") {
                        if let InputValue::Float(sample) = &value {
                            proof {
                                if plot_samples(prefix).len() == 0 {
                                    assert(history_after(
                                        history_of(plot_before@, node_id@),
                                        plot_samples(prefix),
                                    ) == history_of(plot_before@, node_id@));
                                }
                            }
                            self.record_plot_sample(node_id, *sample);
                            proof {
                                assert(plot_samples(all.take(i + 1)) == plot_samples(prefix).push(
                                    *sample,
                                ));
                                assert(plot_samples(all.take(i + 1)).drop_last() =~= plot_samples(
                                    prefix,
                                ));
                                assert(self.plot_history@.remove(node_id@) =~= plot_before@.remove(
                                    node_id@,
                                ));
                            }
                        }
                    }
                    node_values.insert(name, value);
                },
            }
            i = i + 1;
        }
        assert(all.take(i as int) =~= all);
        self.runtime_node_values.insert(node_id.to_owned(), node_values);
        assert(self.runtime_node_values@.remove(node_id@) =~= runtime_before.remove(node_id@));
        self.refresh_graph_preview_frames(document, graph_id);
    }

    fn record_plot_sample(&mut self, node_id: &str, sample: Decimal)
        ensures
            final(self).plot_history@.contains_key(node_id@),
            final(self).plot_history@[node_id@]@ == appended_sample(
                history_of(old(self).plot_history@, node_id@),
                sample,
            ),
            final(self).plot_history@.remove(node_id@) == old(self).plot_history@.remove(node_id@),
            final(self).graph_runtime_modes == old(self).graph_runtime_modes,
            final(self).runtime_node_values == old(self).runtime_node_values,
            final(self).node_diagnostic_summaries_by_graph == old(
                self,
            ).node_diagnostic_summaries_by_graph,
            final(self).node_diagnostic_details_by_graph == old(
                self,
            ).node_diagnostic_details_by_graph,
            final(self).preview_frames_by_graph == old(self).preview_frames_by_graph,
    {
        let mut history = match self.plot_history.remove(node_id) {
            Some(history) => history,
            None => Vec::new(),
        };
        assert(history@ == history_of(old(self).plot_history@, node_id@));
        let ghost pushed = history@.push(sample);
        assert(pushed.drop_last() =~= history@);
        history.push(sample);
        assert(history@ =~= pushed.skip(0));
        while history.len() > MAX_PLOT_HISTORY
            invariant
                history@.len() <= pushed.len(),
                pushed.len() > MAX_PLOT_HISTORY ==> history@.len() >= MAX_PLOT_HISTORY,
                pushed.len() <= MAX_PLOT_HISTORY ==> history@.len() == pushed.len(),
                history@ == pushed.skip(pushed.len() - history@.len()),
            decreases history@.len(),
        {
            history.remove(0);
            assert(history@ =~= pushed.skip(pushed.len() - history@.len()));
        }
        assert(history@ =~= appended_sample(pushed.drop_last(), sample));
        self.plot_history.insert(node_id.to_owned(), history);
        assert(self.plot_history@.remove(node_id@) =~= old(self).plot_history@.remove(node_id@));
    }

    fn refresh_graph_preview_frames(&mut self, document: &GraphDocument, graph_id: &str)
        ensures
            final(self).preview_frames_by_graph@.contains_key(graph_id@),
            frame_views(final(self).preview_frames_by_graph@[graph_id@]@) == graph_previews(
                document.nodes@,
                old(self).runtime_node_values@,
            ),
            final(self).preview_frames_by_graph@.remove(graph_id@) == old(
                self,
            ).preview_frames_by_graph@.remove(graph_id@),
            final(self).graph_runtime_modes == old(self).graph_runtime_modes,
            final(self).runtime_node_values == old(self).runtime_node_values,
            final(self).plot_history == old(self).plot_history,
            final(self).node_diagnostic_summaries_by_graph == old(
                self,
            ).node_diagnostic_summaries_by_graph,
            final(self).node_diagnostic_details_by_graph == old(
                self,
            ).node_diagnostic_details_by_graph,
    {
        let nodes = &document.nodes;
        let ghost values = self.runtime_node_values@;
        let mut frames: Vec<SinkPreviewFrame> = Vec::new();
        let mut i: usize = 0;
        while i < nodes.len()
            invariant
                i <= nodes@.len(),
                values == self.runtime_node_values@,
                frame_views(frames@) == graph_previews(nodes@.take(i as int), values),
            decreases nodes@.len() - i,
        {
            let node = &nodes[i];
            assert(nodes@.take(i + 1).drop_last() =~= nodes@.take(i as int));
            assert(nodes@.take(i + 1).last() == *node);
            let ghost before = frame_views(frames@);
            match self.runtime_node_values.get(node.id.as_str()) {
                Some(node_values) => {
                    let entries = node_values.as_slice();
                    let mut j: usize = 0;
                    assert(entries@.take(0) =~= Seq::<(String, InputValue)>::empty());
                    while j < entries.len()
                        invariant
                            j <= entries@.len(),
                            frame_views(frames@) == before + entry_previews(
                                entries@.take(j as int),
                                node.id@,
                                node.metadata.name@,
                            ),
                        decreases entries@.len() - j,
                    {
                        assert(entries@.take(j + 1).drop_last() =~= entries@.take(j as int));
                        let ghost shown = frame_views(frames@);
                        match preview_frame_from_input_value(
                            &entries[j].1,
                            node.id.as_str(),
                            node.metadata.name.as_str(),
                        ) {
                            Some(frame) => {
                                frames.push(frame);
                                assert(frame_views(frames@) =~= shown.push(frame_view(frame)));
                            },
                            None => {},
                        }
                        j = j + 1;
                    }
                    assert(entries@.take(j as int) =~= entries@);
                },
                None => {
                    assert(before + Seq::<PreviewFrameView>::empty() =~= before);
                },
            }
            i = i + 1;
        }
        assert(nodes@.take(i as int) =~= nodes@);
        self.preview_frames_by_graph.insert(graph_id.to_owned(), frames);
        assert(self.preview_frames_by_graph@.remove(graph_id@) =~= old(
            self,
        ).preview_frames_by_graph@.remove(graph_id@));
    }

    /// Builds the preview selection of the editor: the entries of one node when the preview is
    /// scoped to it, else the groups of the graph's cached preview frames, one per node.
    pub fn collect_preview_selection_groups(
        &self,
        loaded: Option<&GraphDocument>,
        graph_id: &str,
        scoped_node_id: Option<&str>,
    ) -> (groups: Vec<PreviewSelectionGroup>)
        ensures
            match scoped_node_id {
                Some(node_id) => scoped_selection(
                    self.runtime_node_values@,
                    loaded,
                    node_id@,
                    groups@,
                ),
                None => exists|frames: Seq<SinkPreviewFrame>|
                    frame_views(frames) == frame_views(
                        cached_frames(self.preview_frames_by_graph@, graph_id@),
                    ) && selections_of(groups@, frames),
            },
    {
        if let Some(node_id) = scoped_node_id {
            return self.collect_scoped_node_preview_groups(loaded, node_id);
        }
        let frames = match self.preview_frames_by_graph.get(graph_id) {
            Some(frames) => copy_frames(frames),
            None => Vec::new(),
        };
        let ghost copies = frames@;
        assert(frame_views(copies) =~= frame_views(
            cached_frames(self.preview_frames_by_graph@, graph_id@),
        ));
        preview_selection_groups(frames)
    }

    /// Builds the preview selection of one node: a single group, keyed and labelled by the node,
    /// with one entry per cached runtime value that previews as a spatial frame, in value order;
    /// the mapped source frame is labelled as such and the other frames are numbered as layouts.
    /// There is no group when no document is loaded, the node is not in it, it has no cached
    /// values, or none of them previews.
    pub fn collect_scoped_node_preview_groups(
        &self,
        loaded: Option<&GraphDocument>,
        node_id: &str,
    ) -> (groups: Vec<PreviewSelectionGroup>)
        ensures
            scoped_selection(self.runtime_node_values@, loaded, node_id@, groups@),
    {
        let mut groups: Vec<PreviewSelectionGroup> = Vec::new();
        let document = match loaded {
            Some(document) => document,
            None => {
                return groups;
            },
        };
        let node = match first_node(&document.nodes, node_id) {
            Some(node) => node,
            None => {
                return groups;
            },
        };
        let values = match self.runtime_node_values.get(node_id) {
            Some(values) => values,
            None => {
                return groups;
            },
        };
        let entries = values.as_slice();
        let ghost node_key = node.id@;
        let ghost node_name = node.metadata.name@;
        let mut items: Vec<PreviewSelectionItem> = Vec::new();
        let mut laid_out: usize = 0;
        let mut i: usize = 0;
        let total = entries.len();
        assert(entries@.take(0) =~= Seq::<(String, InputValue)>::empty());
        while i < entries.len()
            invariant
                i <= entries@.len(),
                entries@.len() == total,
                laid_out == layout_count(entries@.take(i as int), node_key, node_name),
                laid_out <= i,
                items@.len() == scoped_items(entries@.take(i as int), node_key, node_name).len(),
                forall|k: int|
                    0 <= k < items@.len() ==> item_view_is(
                        #[trigger] items@[k],
                        scoped_items(entries@.take(i as int), node_key, node_name)[k],
                    ),
                node_key == node.id@,
                node_name == node.metadata.name@,
            decreases entries@.len() - i,
        {
            let ghost prefix = entries@.take(i as int);
            assert(entries@.take(i + 1).drop_last() =~= prefix);
            assert(entries@.take(i + 1).last() == entries@[i as int]);
            let name = &entries[i].0;
            match preview_frame_from_input_value(
                &entries[i].1,
                node.id.as_str(),
                node.metadata.name.as_str(),
            ) {
                Some(frame) => {
                    let size = preview_frame_size_label(&frame);
                    let mut label = node.metadata.name.clone();
                    if str_equal(name.as_str(), "source_frame") {
                        label.append(" / Mapped Frame (");
                    } else {
                        label.append(" / Layout ");
                        push_decimal(&mut label, (laid_out + 1) as u64);
                        label.append(" (");
                        laid_out = laid_out + 1;
                    }
                    label.append(size.as_str());
                    label.append(")");
                    let mut key = "node_layout:".to_owned();
                    key.append(node.id.as_str());
                    key.append(":");
                    key.append(name.as_str());
                    let ghost view = frame_view(frame);
                    let mut frames: Vec<SinkPreviewFrame> = Vec::new();
                    frames.push(frame);
                    assert(frame_views(frames@) =~= seq![view]);
                    let ghost before_items = items@;
                    let item = PreviewSelectionItem { key, label, frames };
                    let ghost next = scoped_items(entries@.take(i + 1), node_key, node_name);
                    assert(next == scoped_items(prefix, node_key, node_name).push(next.last()));
                    assert(item_view_is(item, next.last()));
                    items.push(item);
                    proof {
                        assert forall|k: int| 0 <= k < items@.len() implies item_view_is(
                            #[trigger] items@[k],
                            next[k],
                        ) by {
                            if k < items@.len() - 1 {
                                assert(items@[k] == before_items[k]);
                            }
                        }
                    }
                },
                None => {},
            }
            i = i + 1;
        }
        assert(entries@.take(i as int) =~= entries@);
        if items.len() == 0 {
            return groups;
        }
        let mut key = "node:".to_owned();
        key.append(node.id.as_str());
        groups.push(PreviewSelectionGroup { key, label: node.metadata.name.clone(), items });
        groups
    }

    /// Replaces the node-level diagnostic summaries of one graph; other graphs keep theirs.
    pub fn apply_graph_diagnostics_summary(
        &mut self,
        graph_id: String,
        nodes: Vec<NodeDiagnosticSummary>,
    )
        ensures
            Self::diagnostics_summary_applied(*old(self), *final(self), graph_id@, nodes@),
    {
        let ghost all = nodes@;
        let total = nodes.len();
        let mut rest = nodes;
        let mut summaries: KeyedList<NodeDiagnosticSummary> = KeyedList::new();
        let mut i: usize = 0;
        while rest.len() > 0
            invariant
                i <= all.len(),
                all.len() == total,
                rest@ == all.skip(i as int),
                summaries@ == summaries_by_node(all.take(i as int)),
            decreases rest@.len(),
        {
            let summary = rest.remove(0);
            assert(all.take(i + 1).drop_last() =~= all.take(i as int));
            assert(all.take(i + 1).last() == summary);
            let key = summary.node_id.clone();
            summaries.insert(key, summary);
            i = i + 1;
        }
        assert(all.take(i as int) =~= all);
        let ghost key = graph_id@;
        self.node_diagnostic_summaries_by_graph.insert(graph_id, summaries);
        assert(self.node_diagnostic_summaries_by_graph@.remove(key) =~= old(
            self,
        ).node_diagnostic_summaries_by_graph@.remove(key));
    }

    /// Stores the detailed diagnostics of one node of one graph; reading them back gives what was
    /// stored, and every other node keeps its diagnostics.
    pub fn apply_node_diagnostics_detail(
        &mut self,
        graph_id: String,
        node_id: String,
        diagnostics: Vec<NodeDiagnosticEntry>,
    )
        ensures
            Self::diagnostics_detail_applied(*old(self), *final(self), graph_id@, node_id@, diagnostics@),
    {
        let ghost before = self.node_diagnostic_details_by_graph@;
        let mut nodes = match self.node_diagnostic_details_by_graph.remove(graph_id.as_str()) {
            Some(nodes) => nodes,
            None => KeyedList::new(),
        };
        let ghost inner_before = nodes@;
        nodes.insert(node_id, diagnostics);
        self.node_diagnostic_details_by_graph.insert(graph_id, nodes);
        assert(self.node_diagnostic_details_by_graph@.dom() =~= before.dom().insert(graph_id@));
    }

    /// Returns the cached node summaries of a graph.
    pub fn graph_diagnostic_summaries(&self, graph_id: &str) -> (summaries: Option<
        &KeyedList<NodeDiagnosticSummary>,
    >)
        ensures
            match summaries {
                Some(s) => self.node_diagnostic_summaries_by_graph@.contains_key(graph_id@)
                    && *s == self.node_diagnostic_summaries_by_graph@[graph_id@],
                None => !self.node_diagnostic_summaries_by_graph@.contains_key(graph_id@),
            },
    {
        self.node_diagnostic_summaries_by_graph.get(graph_id)
    }

    /// Returns the cached detailed diagnostics of one node of a graph; none if nothing is cached.
    pub fn node_diagnostic_details(&self, graph_id: &str, node_id: &str) -> (details: &[
        NodeDiagnosticEntry])
        ensures
            details@ == details_of(self.node_diagnostic_details_by_graph@, graph_id@, node_id@),
    {
        match self.node_diagnostic_details_by_graph.get(graph_id) {
            Some(nodes) => match nodes.get(node_id) {
                Some(details) => details.as_slice(),
                None => &[],
            },
            None => &[],
        }
    }
}

/// The mode that a status list reports for a graph is that of its last status.
proof fn lemma_last_status_decides(graphs: Seq<GraphRuntimeStatus>, g: Seq<char>, i: int)
    requires
        0 <= i < graphs.len(),
        graphs[i].graph_id@ == g,
        forall|j: int| i < j < graphs.len() ==> (#[trigger] graphs[j]).graph_id@ != g,
    ensures
        modes_by_graph(graphs).contains_key(g),
        modes_by_graph(graphs)[g] == graphs[i].mode,
    decreases graphs.len(),
{
    if i < graphs.len() - 1 {
        let earlier = graphs.drop_last();
        assert forall|j: int| i < j < earlier.len() implies (#[trigger] earlier[j]).graph_id@ != g by {
            assert(earlier[j] == graphs[j]);
        }
        assert(earlier[i] == graphs[i]);
        lemma_last_status_decides(earlier, g, i);
        assert(graphs.last().graph_id@ != g);
    }
}

/// Runtime statuses start the selected graph exactly when it was not known as running (unknown,
/// or paused) and its last reported status is running: then its live values, plot history and
/// preview frames are dropped; otherwise they are all kept.
pub proof fn lemma_starting_selected_graph_clears(
    before: GraphRuntimeCaches,
    after: GraphRuntimeCaches,
    g: Seq<char>,
    graphs: Seq<GraphRuntimeStatus>,
    i: int,
)
    requires
        GraphRuntimeCaches::runtime_statuses_applied(before, after, Some(g), graphs),
        0 <= i < graphs.len(),
        graphs[i].graph_id@ == g,
        forall|j: int| i < j < graphs.len() ==> (#[trigger] graphs[j]).graph_id@ != g,
    ensures
        graphs[i].mode == GraphRuntimeMode::Running && (!before.graph_runtime_modes@.contains_key(g)
            || before.graph_runtime_modes@[g] == GraphRuntimeMode::Paused) ==> {
            &&& after.runtime_node_values@ == Map::<Seq<char>, KeyedList<InputValue>>::empty()
            &&& after.plot_history@ == Map::<Seq<char>, Vec<Decimal>>::empty()
            &&& after.preview_frames_by_graph@ == before.preview_frames_by_graph@.remove(g)
        },
        graphs[i].mode != GraphRuntimeMode::Running || (before.graph_runtime_modes@.contains_key(g)
            && before.graph_runtime_modes@[g] == GraphRuntimeMode::Running) ==> {
            &&& after.runtime_node_values == before.runtime_node_values
            &&& after.plot_history == before.plot_history
            &&& after.preview_frames_by_graph == before.preview_frames_by_graph
        },
        after.graph_runtime_modes@.contains_key(g),
        after.graph_runtime_modes@[g] == graphs[i].mode,
{
    lemma_last_status_decides(graphs, g, i);
}

/// Runtime statuses with no graph selected start nothing: live values, plot history and preview
/// frames are kept.
pub proof fn lemma_statuses_without_selection_keep_caches(
    before: GraphRuntimeCaches,
    after: GraphRuntimeCaches,
    graphs: Seq<GraphRuntimeStatus>,
)
    requires
        GraphRuntimeCaches::runtime_statuses_applied(before, after, None, graphs),
    ensures
        after.runtime_node_values == before.runtime_node_values,
        after.plot_history == before.plot_history,
        after.preview_frames_by_graph == before.preview_frames_by_graph,
{
}

} // verus!
