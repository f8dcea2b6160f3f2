//! Frame previews in the editor: size labels, preview grid dimensions, and the grouping of
//! preview frames by the node that produced them.

use vstd::prelude::*;
use crate::text::{decimal_text, push_decimal, str_equal};
use crate::value::{ColorFrame, LedLayout, RgbaColor};

verus! {

/// One frame shown in the spatial preview, with the node that produced it.
pub struct SinkPreviewFrame {
    pub sink_node_id: String,
    pub sink_node_name: String,
    pub layout: LedLayout,
    pub pixels: Vec<RgbaColor>,
}

/// The key under which the preview remembers its selection for a graph, scoped to one node or
/// global.
pub open spec fn context_key(graph_id: Seq<char>, scoped_node_id: Option<Seq<char>>) -> Seq<char> {
    match scoped_node_id {
        Some(node_id) => "graph:"@ + graph_id + ":node:"@ + node_id,
        None => "graph:"@ + graph_id + ":global"@,
    }
}

/// Returns the key under which the preview remembers its selection.
pub fn preview_selection_context_key(graph_id: &str, scoped_node_id: Option<&str>) -> (key: String)
    ensures
        key@ == context_key(
            graph_id@,
            match scoped_node_id {
                Some(id) => Some(id@),
                None => None,
            },
        ),
{
    let mut key = "graph:".to_owned();
    key.append(graph_id);
    match scoped_node_id {
        Some(node_id) => {
            key.append(":node:");
            key.append(node_id);
        },
        None => {
            key.append(":global");
        },
    }
    key
}

/// `width` and `height` rendered as `<width>x<height>`.
pub open spec fn size_text(width: nat, height: nat) -> Seq<char> {
    decimal_text(width) + "x"@ + decimal_text(height)
}

fn size_string(width: usize, height: usize) -> (text: String)
    ensures
        text@ == size_text(width as nat, height as nat),
{
    let mut text = String::new();
    push_decimal(&mut text, width as u64);
    text.append("x");
    push_decimal(&mut text, height as u64);
    assert(text@ =~= size_text(width as nat, height as nat));
    text
}

/// The size label of a preview frame: its layout width (else its pixel count, at least one) by
/// its layout height (else one).
pub open spec fn preview_size_text(layout: LedLayout) -> Seq<char> {
    let width = match layout.width {
        Some(w) => w as nat,
        None => if layout.pixel_count > 1 {
            layout.pixel_count as nat
        } else {
            1
        },
    };
    let height = match layout.height {
        Some(h) => h as nat,
        None => 1,
    };
    size_text(width, height)
}

/// Returns the size label of a preview frame.
pub fn preview_frame_size_label(frame: &SinkPreviewFrame) -> (label: String)
    ensures
        label@ == preview_size_text(frame.layout),
{
    let width = match frame.layout.width {
        Some(w) => w,
        None => if frame.layout.pixel_count > 1 {
            frame.layout.pixel_count
        } else {
            1
        },
    };
    let height = match frame.layout.height {
        Some(h) => h,
        None => 1,
    };
    size_string(width, height)
}

/// The dimension label of a frame: its layout's width by height when both are known, else a
/// strip of its pixels (at least one).
pub open spec fn dims_text(frame: ColorFrame) -> Seq<char> {
    match (frame.layout.width, frame.layout.height) {
        (Some(w), Some(h)) => size_text(w as nat, h as nat),
        _ => size_text(1, if frame.pixels@.len() > 1 {
            frame.pixels@.len()
        } else {
            1
        }),
    }
}

/// Formats the visible dimensions of a frame layout for display.
pub fn frame_layout_dims_label(frame: &ColorFrame) -> (label: String)
    ensures
        label@ == dims_text(*frame),
{
    if let (Some(width), Some(height)) = (frame.layout.width, frame.layout.height) {
        return size_string(width, height);
    }
    let count = frame.pixels.len();
    size_string(1, if count > 1 { count } else { 1 })
}

/// The preview grid of a frame: its own dimensions for a true 2D layout (both sides above one),
/// else a one-row strip of its pixels (at least one).
pub open spec fn preview_grid(frame: ColorFrame) -> (usize, usize) {
    match (frame.layout.width, frame.layout.height) {
        (Some(w), Some(h)) if w > 1 && h > 1 => (w, h),
        _ => (
            if frame.pixels@.len() > 1 {
                frame.pixels@.len() as usize
            } else {
                1
            },
            1,
        ),
    }
}

/// Returns the preview grid dimensions used to render a frame in the editor.
///
/// True 2D layouts keep their native dimensions. One-dimensional strips are flattened into a
/// horizontal ribbon so long LED chains stay readable in the preview.
pub fn frame_preview_dimensions(frame: &ColorFrame) -> (dimensions: (usize, usize))
    ensures
        dimensions == preview_grid(*frame),
{
    if let (Some(width), Some(height)) = (frame.layout.width, frame.layout.height) {
        if width > 1 && height > 1 {
            return (width, height);
        }
    }
    let count = frame.pixels.len();
    (if count > 1 { count } else { 1 }, 1)
}

/// The preview frames of one node.
pub struct PreviewFrameGroup {
    pub sink_node_id: String,
    pub sink_node_name: String,
    pub frames: Vec<SinkPreviewFrame>,
}

/// The node ids of frames, in order.
pub open spec fn frame_node_ids(frames: Seq<SinkPreviewFrame>) -> Seq<Seq<char>> {
    frames.map_values(|f: SinkPreviewFrame| f.sink_node_id@)
}

/// The distinct entries of `ids`, in order of first appearance.
pub open spec fn first_appearances(ids: Seq<Seq<char>>) -> Seq<Seq<char>>
    decreases ids.len(),
{
    if ids.len() == 0 {
        Seq::empty()
    } else {
        let earlier = first_appearances(ids.drop_last());
        if earlier.contains(ids.last()) {
            earlier
        } else {
            earlier.push(ids.last())
        }
    }
}

/// Whether a frame was produced by node `id`.
pub open spec fn from_node(id: Seq<char>) -> spec_fn(SinkPreviewFrame) -> bool {
    |f: SinkPreviewFrame| f.sink_node_id@ == id
}

/// Whether a group holds exactly the frames of its node among `frames`, in order, under the
/// name of the first of them.
pub open spec fn group_of(group: PreviewFrameGroup, frames: Seq<SinkPreviewFrame>) -> bool {
    let mine = frames.filter(from_node(group.sink_node_id@));
    &&& group.frames@ == mine
    &&& mine.len() > 0
    &&& group.sink_node_name@ == mine[0].sink_node_name@
}

/// The node ids of groups, in order.
pub open spec fn group_ids(groups: Seq<PreviewFrameGroup>) -> Seq<Seq<char>> {
    groups.map_values(|g: PreviewFrameGroup| g.sink_node_id@)
}

proof fn lemma_push_contains_id(s: Seq<Seq<char>>, a: Seq<char>, x: Seq<char>)
    ensures
        s.push(a).contains(x) == (s.contains(x) || x == a),
{
    if s.contains(x) {
        let i = choose|i: int| 0 <= i < s.len() && s[i] == x;
        assert(s.push(a)[i] == x);
    }
    if x == a {
        assert(s.push(a)[s.len() as int] == a);
    }
    if s.push(a).contains(x) {
        let i = choose|i: int| 0 <= i < s.push(a).len() && s.push(a)[i] == x;
        if i < s.len() {
            assert(s[i] == x);
        }
    }
}

/// Groups preview frames by the node that produced them, in order of each node's first frame;
/// each group keeps its node's frames in order, under the name of its first frame.
pub fn group_preview_frames_by_node(frames: Vec<SinkPreviewFrame>) -> (groups: Vec<
    PreviewFrameGroup,
>)
    ensures
        group_ids(groups@) == first_appearances(frame_node_ids(frames@)),
        forall|k: int| 0 <= k < groups@.len() ==> group_of(#[trigger] groups@[k], frames@),
{
    let ghost initial = frames@;
    let mut rest = frames;
    let total = rest.len();
    let mut groups: Vec<PreviewFrameGroup> = Vec::new();
    let mut i: usize = 0;
    assert(frame_node_ids(initial.take(0)) =~= Seq::<Seq<char>>::empty());
    assert(group_ids(groups@) =~= Seq::<Seq<char>>::empty());
    while rest.len() > 0
        invariant
            i <= initial.len(),
            initial.len() == total,
            rest@ == initial.skip(i as int),
            group_ids(groups@) == first_appearances(frame_node_ids(initial.take(i as int))),
            forall|k: int| 0 <= k < groups@.len() ==> group_of(#[trigger] groups@[k], initial.take(i as int)),
        decreases rest@.len(),
    {
        let frame = rest.remove(0);
        let ghost prefix = initial.take(i as int);
        let ghost next = initial.take(i + 1);
        assert(next.drop_last() =~= prefix);
        assert(next.last() == frame);
        assert(rest@ =~= initial.skip(i + 1));
        assert(frame_node_ids(next).drop_last() =~= frame_node_ids(prefix));
        let ghost ids_before = group_ids(groups@);
        let ghost before = groups@;
        let mut j: usize = 0;
        while j < groups.len() && !crate::text::str_equal(
            groups[j].sink_node_id.as_str(),
            frame.sink_node_id.as_str(),
        )
            invariant
                j <= groups@.len(),
                groups@ == before,
                ids_before == group_ids(before),
                forall|m: int| 0 <= m < j ==> ids_before[m] != frame.sink_node_id@,
            decreases groups@.len() - j,
        {
            j = j + 1;
        }
        proof {
            reveal(Seq::filter);
        }
        if j < groups.len() {
            let mut group = groups.remove(j);
            let ghost old_group = group;
            group.frames.push(frame);
            groups.insert(j, group);
            proof {
                assert(ids_before[j as int] == frame.sink_node_id@);
                assert(ids_before.contains(frame.sink_node_id@));
                assert(group_ids(groups@) =~= ids_before);
                assert forall|k: int| 0 <= k < groups@.len() implies group_of(#[trigger] groups@[k], next) by {
                    if k == j {
                        let mine = prefix.filter(from_node(old_group.sink_node_id@));
                        assert(next.filter(from_node(old_group.sink_node_id@)) == mine.push(frame));
                        assert(mine.push(frame)[0] == mine[0]);
                    } else {
                        assert(groups@[k] == before[k]);
                        assert(group_of(before[k], prefix));
                        lemma_first_appearances_distinct(frame_node_ids(prefix));
                        assert(ids_before[k] == before[k].sink_node_id@);
                        assert(ids_before[k] != ids_before[j as int]);
                        assert(!from_node(before[k].sink_node_id@)(frame));
                    }
                }
            }
        } else {
            let ghost id = frame.sink_node_id@;
            let ghost moved = frame;
            let sink_node_id = frame.sink_node_id.clone();
            let sink_node_name = frame.sink_node_name.clone();
            let mut group_frames: Vec<SinkPreviewFrame> = Vec::new();
            group_frames.push(frame);
            let group = PreviewFrameGroup { sink_node_id, sink_node_name, frames: group_frames };
            groups.push(group);
            proof {
                assert(!ids_before.contains(id));
                assert(group_ids(groups@) =~= ids_before.push(id));
                assert forall|k: int| 0 <= k < groups@.len() implies group_of(#[trigger] groups@[k], next) by {
                    if k == before.len() {
                        assert forall|m: int| 0 <= m < prefix.len() implies !from_node(id)(prefix[m]) by {
                            if from_node(id)(prefix[m]) {
                                assert(frame_node_ids(prefix)[m] == id);
                                lemma_first_appearances_cover(frame_node_ids(prefix), m);
                            }
                        }
                        lemma_filter_none(prefix, from_node(id));
                        assert(groups@[k].frames@ =~= seq![moved]);
                        assert(next.filter(from_node(id)) =~= seq![moved]);
                    } else {
                        assert(groups@[k] == before[k]);
                        assert(group_of(before[k], prefix));
                        assert(ids_before[k] == before[k].sink_node_id@);
                        assert(!from_node(before[k].sink_node_id@)(frame));
                    }
                }
            }
        }
        i = i + 1;
    }
    assert(initial.take(i as int) =~= initial);
    groups
}

/// Every entry of `ids` appears among its first appearances.
proof fn lemma_first_appearances_cover(ids: Seq<Seq<char>>, m: int)
    requires
        0 <= m < ids.len(),
    ensures
        first_appearances(ids).contains(ids[m]),
    decreases ids.len(),
{
    let earlier = first_appearances(ids.drop_last());
    if m < ids.len() - 1 {
        lemma_first_appearances_cover(ids.drop_last(), m);
        assert(ids.drop_last()[m] == ids[m]);
        lemma_push_contains_id(earlier, ids.last(), ids[m]);
    } else {
        lemma_push_contains_id(earlier, ids.last(), ids[m]);
    }
}

/// First appearances are distinct.
proof fn lemma_first_appearances_distinct(ids: Seq<Seq<char>>)
    ensures
        first_appearances(ids).no_duplicates(),
    decreases ids.len(),
{
    if ids.len() > 0 {
        lemma_first_appearances_distinct(ids.drop_last());
        let earlier = first_appearances(ids.drop_last());
        if !earlier.contains(ids.last()) {
            let grown = earlier.push(ids.last());
            assert forall|a: int, b: int| 0 <= a < grown.len() && 0 <= b < grown.len() && a != b implies grown[a] != grown[b] by {
                if a < earlier.len() && b < earlier.len() {
                    assert(grown[a] == earlier[a] && grown[b] == earlier[b]);
                } else if a < earlier.len() {
                    assert(grown[a] == earlier[a]);
                } else if b < earlier.len() {
                    assert(grown[b] == earlier[b]);
                }
            }
        }
    }
}

/// A filter that no element passes keeps nothing.
proof fn lemma_filter_none(s: Seq<SinkPreviewFrame>, keep: spec_fn(SinkPreviewFrame) -> bool)
    requires
        forall|m: int| 0 <= m < s.len() ==> !keep(s[m]),
    ensures
        s.filter(keep) == Seq::<SinkPreviewFrame>::empty(),
    decreases s.len(),
{
    reveal(Seq::filter);
    if s.len() > 0 {
        assert forall|m: int| 0 <= m < s.drop_last().len() implies !keep(s.drop_last()[m]) by {
            assert(s.drop_last()[m] == s[m]);
        }
        lemma_filter_none(s.drop_last(), keep);
    }
}

/// One selectable entry of the preview: a key, a label, and the frames it shows.
pub struct PreviewSelectionItem {
    pub key: String,
    pub label: String,
    pub frames: Vec<SinkPreviewFrame>,
}

/// A group of selectable preview entries: the layouts of one node.
pub struct PreviewSelectionGroup {
    pub key: String,
    pub label: String,
    pub items: Vec<PreviewSelectionItem>,
}

/// How many entries of `names` equal `name`.
pub open spec fn count_of(names: Seq<Seq<char>>, name: Seq<char>) -> nat
    decreases names.len(),
{
    if names.len() == 0 {
        0
    } else {
        count_of(names.drop_last(), name) + if names.last() == name {
            1nat
        } else {
            0nat
        }
    }
}

/// The group names, in order.
pub open spec fn group_names(groups: Seq<PreviewFrameGroup>) -> Seq<Seq<char>> {
    groups.map_values(|g: PreviewFrameGroup| g.sink_node_name@)
}

/// The label of group `k` among groups with the given names: `Sink: <name>`, numbered by its
/// rank among groups of the same name when the name is shared.
pub open spec fn group_label(names: Seq<Seq<char>>, k: int) -> Seq<char> {
    if count_of(names, names[k]) > 1 {
        "Sink: "@ + names[k] + " ("@ + decimal_text(count_of(names.take(k + 1), names[k])) + ")"@
    } else {
        "Sink: "@ + names[k]
    }
}

/// The key of layout entry `index` of node `node_id`.
pub open spec fn item_key(node_id: Seq<char>, index: int) -> Seq<char> {
    "sink_layout:"@ + node_id + ":"@ + decimal_text(index as nat)
}

/// The label of layout entry `index` showing a frame with the given layout.
pub open spec fn item_label(index: int, layout: LedLayout) -> Seq<char> {
    "Layout "@ + decimal_text((index + 1) as nat) + " ("@ + preview_size_text(layout) + ")"@
}

/// Whether a selection group shows the frame group `group`, labelled `label`: one entry per
/// frame, in order.
pub open spec fn selection_of(selection: PreviewSelectionGroup, group: PreviewFrameGroup, label: Seq<char>) -> bool {
    &&& selection.key@ == "sink:"@ + group.sink_node_id@
    &&& selection.label@ == label
    &&& selection.items@.len() == group.frames@.len()
    &&& forall|i: int|
        0 <= i < group.frames@.len() ==> {
            &&& (#[trigger] selection.items@[i]).key@ == item_key(group.sink_node_id@, i)
            &&& selection.items@[i].label@ == item_label(i, group.frames@[i].layout)
            &&& selection.items@[i].frames@ == seq![group.frames@[i]]
        }
}

fn count_named(groups: &Vec<PreviewFrameGroup>, upto: usize, name: &str) -> (count: usize)
    requires
        upto <= groups@.len(),
    ensures
        count == count_of(group_names(groups@).take(upto as int), name@),
{
    let ghost names = group_names(groups@);
    let mut count: usize = 0;
    let mut j: usize = 0;
    assert(names.take(0) =~= Seq::<Seq<char>>::empty());
    while j < upto
        invariant
            j <= upto <= groups@.len(),
            names == group_names(groups@),
            count == count_of(names.take(j as int), name@),
            count <= j,
        decreases upto - j,
    {
        assert(names.take(j + 1).drop_last() =~= names.take(j as int));
        if str_equal(groups[j].sink_node_name.as_str(), name) {
            count = count + 1;
        }
        j = j + 1;
    }
    count
}

fn selection_for_group(group: PreviewFrameGroup, label: String) -> (selection: PreviewSelectionGroup)
    ensures
        selection_of(selection, group, label@),
{
    let ghost frames = group.frames@;
    let mut key = "sink:".to_owned();
    key.append(group.sink_node_id.as_str());
    let mut rest = group.frames;
    let total = rest.len();
    let mut items: Vec<PreviewSelectionItem> = Vec::new();
    let mut i: usize = 0;
    while rest.len() > 0
        invariant
            i <= frames.len(),
            frames.len() == total,
            rest@ == frames.skip(i as int),
            items@.len() == i,
            forall|m: int|
                0 <= m < i ==> {
                    &&& (#[trigger] items@[m]).key@ == item_key(group.sink_node_id@, m)
                    &&& items@[m].label@ == item_label(m, frames[m].layout)
                    &&& items@[m].frames@ == seq![frames[m]]
                },
        decreases rest@.len(),
    {
        let frame = rest.remove(0);
        assert(frame == frames[i as int]);
        assert(rest@ =~= frames.skip(i + 1));
        let mut item_key_text = "sink_layout:".to_owned();
        item_key_text.append(group.sink_node_id.as_str());
        item_key_text.append(":");
        push_decimal(&mut item_key_text, i as u64);
        let mut label_text = "Layout ".to_owned();
        push_decimal(&mut label_text, (i + 1) as u64);
        label_text.append(" (");
        let size = preview_frame_size_label(&frame);
        label_text.append(size.as_str());
        label_text.append(")");
        let ghost shown = frame;
        let mut item_frames: Vec<SinkPreviewFrame> = Vec::new();
        item_frames.push(frame);
        assert(item_frames@ =~= seq![shown]);
        items.push(PreviewSelectionItem { key: item_key_text, label: label_text, frames: item_frames });
        i = i + 1;
    }
    PreviewSelectionGroup { key, label, items }
}

/// Whether `selections` are the preview selection groups of `frames`: one group per node in
/// order of its first frame, labelled by node name (numbered when names are shared), with one
/// entry per frame.
pub open spec fn selections_of(
    selections: Seq<PreviewSelectionGroup>,
    frames: Seq<SinkPreviewFrame>,
) -> bool {
    exists|groups: Seq<PreviewFrameGroup>|
        {
            &&& group_ids(groups) == first_appearances(frame_node_ids(frames))
            &&& forall|k: int| 0 <= k < groups.len() ==> group_of(#[trigger] groups[k], frames)
            &&& selections.len() == groups.len()
            &&& forall|k: int|
                0 <= k < groups.len() ==> selection_of(
                    #[trigger] selections[k],
                    groups[k],
                    group_label(group_names(groups), k),
                )
        }
}

/// Groups preview frames into selectable entries, one group per node in order of its first
/// frame and one entry per layout; groups of nodes sharing a name are numbered.
pub fn preview_selection_groups(frames: Vec<SinkPreviewFrame>) -> (selections: Vec<
    PreviewSelectionGroup,
>)
    ensures
        selections_of(selections@, frames@),
{
    let ghost initial = frames@;
    let grouped = group_preview_frames_by_node(frames);
    let ghost groups = grouped@;
    let ghost names = group_names(groups);
    let mut labels: Vec<String> = Vec::new();
    let mut k: usize = 0;
    while k < grouped.len()
        invariant
            k <= grouped@.len(),
            groups == grouped@,
            names == group_names(groups),
            labels@.len() == k,
            forall|m: int| 0 <= m < k ==> (#[trigger] labels@[m])@ == group_label(names, m),
        decreases grouped@.len() - k,
    {
        let name = grouped[k].sink_node_name.as_str();
        assert(names[k as int] == name@);
        assert(names.take(grouped@.len() as int) =~= names);
        let total = count_named(&grouped, grouped.len(), name);
        let mut label = "Sink: ".to_owned();
        label.append(name);
        if total > 1 {
            let rank = count_named(&grouped, k + 1, name);
            label.append(" (");
            push_decimal(&mut label, rank as u64);
            label.append(")");
        }
        labels.push(label);
        k = k + 1;
    }
    let mut rest = grouped;
    let total = rest.len();
    let mut selections: Vec<PreviewSelectionGroup> = Vec::new();
    let mut labels_rest = labels;
    let mut i: usize = 0;
    while rest.len() > 0
        invariant
            i <= groups.len(),
            groups.len() == total,
            rest@ == groups.skip(i as int),
            labels_rest@.len() == rest@.len(),
            forall|m: int| 0 <= m < labels_rest@.len() ==> (#[trigger] labels_rest@[m])@ == group_label(names, m + i),
            names == group_names(groups),
            selections@.len() == i,
            forall|m: int| 0 <= m < i ==> selection_of(#[trigger] selections@[m], groups[m], group_label(names, m)),
        decreases rest@.len(),
    {
        let ghost labels_before = labels_rest@;
        let group = rest.remove(0);
        let label = labels_rest.remove(0);
        assert(group == groups[i as int]);
        assert(label@ == group_label(names, i as int)) by {
            assert(labels_before[0] == label);
        }
        assert(rest@ =~= groups.skip(i + 1));
        assert forall|m: int| 0 <= m < labels_rest@.len() implies (#[trigger] labels_rest@[m])@ == group_label(names, m + i + 1) by {
            assert(labels_rest@[m] == labels_before[m + 1]);
        }
        selections.push(selection_for_group(group, label));
        i = i + 1;
    }
    assert(selections_of(selections@, initial));
    selections
}

/// The number of frames of `frames` produced by each of `ids`, added up.
pub open spec fn frames_by_ids(frames: Seq<SinkPreviewFrame>, ids: Seq<Seq<char>>) -> int
    decreases ids.len(),
{
    if ids.len() == 0 {
        0
    } else {
        frames_by_ids(frames, ids.drop_last()) + frames.filter(from_node(ids.last())).len()
    }
}

/// The number of frames held by the groups, added up.
pub open spec fn grouped_frame_count(groups: Seq<PreviewFrameGroup>) -> int
    decreases groups.len(),
{
    if groups.len() == 0 {
        0
    } else {
        grouped_frame_count(groups.drop_last()) + groups.last().frames@.len()
    }
}

proof fn lemma_filter_push(
    frames: Seq<SinkPreviewFrame>,
    frame: SinkPreviewFrame,
    keep: spec_fn(SinkPreviewFrame) -> bool,
)
    ensures
        frames.push(frame).filter(keep).len() == frames.filter(keep).len() + if keep(frame) {
            1int
        } else {
            0int
        },
{
    reveal(Seq::filter);
    assert(frames.push(frame).drop_last() =~= frames);
}

/// One more frame adds one to the count of the distinct ids that include its node.
proof fn lemma_frames_by_ids_push(
    frames: Seq<SinkPreviewFrame>,
    frame: SinkPreviewFrame,
    ids: Seq<Seq<char>>,
)
    requires
        ids.no_duplicates(),
    ensures
        frames_by_ids(frames.push(frame), ids) == frames_by_ids(frames, ids) + if ids.contains(
            frame.sink_node_id@,
        ) {
            1int
        } else {
            0int
        },
    decreases ids.len(),
{
    if ids.len() > 0 {
        let earlier = ids.drop_last();
        assert(earlier.no_duplicates()) by {
            assert forall|a: int, b: int|
                0 <= a < earlier.len() && 0 <= b < earlier.len() && a != b implies earlier[a]
                != earlier[b] by {
                assert(earlier[a] == ids[a] && earlier[b] == ids[b]);
            }
        }
        lemma_frames_by_ids_push(frames, frame, earlier);
        lemma_filter_push(frames, frame, from_node(ids.last()));
        assert(ids =~= earlier.push(ids.last()));
        lemma_push_contains_id(earlier, ids.last(), frame.sink_node_id@);
        if ids.last() == frame.sink_node_id@ {
            assert(!earlier.contains(frame.sink_node_id@)) by {
                if earlier.contains(frame.sink_node_id@) {
                    let i = choose|i: int| 0 <= i < earlier.len() && earlier[i] == frame.sink_node_id@;
                    assert(ids[i] == ids[ids.len() - 1]);
                }
            }
        }
    }
}

/// Grouping by node loses no frame and counts none twice: the groups of distinct nodes, in order
/// of first appearance, hold all the frames between them.
pub proof fn lemma_groups_hold_every_frame(frames: Seq<SinkPreviewFrame>)
    ensures
        frames_by_ids(frames, first_appearances(frame_node_ids(frames))) == frames.len(),
    decreases frames.len(),
{
    if frames.len() > 0 {
        let earlier = frames.drop_last();
        let frame = frames.last();
        let x = frame.sink_node_id@;
        lemma_groups_hold_every_frame(earlier);
        assert(frame_node_ids(frames).drop_last() =~= frame_node_ids(earlier));
        assert(frame_node_ids(frames).last() == x);
        assert(frames =~= earlier.push(frame));
        let before = first_appearances(frame_node_ids(earlier));
        lemma_first_appearances_distinct(frame_node_ids(earlier));
        lemma_frames_by_ids_push(earlier, frame, before);
        if !before.contains(x) {
            let after = before.push(x);
            assert(after.drop_last() =~= before);
            assert(forall|m: int| 0 <= m < earlier.len() ==> !from_node(x)(#[trigger] earlier[m])) by {
                assert forall|m: int| 0 <= m < earlier.len() implies !from_node(x)(
                    #[trigger] earlier[m],
                ) by {
                    if earlier[m].sink_node_id@ == x {
                        assert(frame_node_ids(earlier)[m] == x);
                        lemma_first_appearances_cover(frame_node_ids(earlier), m);
                    }
                }
            }
            lemma_filter_none(earlier, from_node(x));
            lemma_filter_push(earlier, frame, from_node(x));
        }
    }
}

/// The groups of `group_preview_frames_by_node` hold as many frames, added up, as were grouped.
pub proof fn lemma_group_sizes_add_up(frames: Seq<SinkPreviewFrame>, groups: Seq<PreviewFrameGroup>)
    requires
        group_ids(groups) == first_appearances(frame_node_ids(frames)),
        forall|k: int| 0 <= k < groups.len() ==> group_of(#[trigger] groups[k], frames),
    ensures
        grouped_frame_count(groups) == frames.len(),
{
    lemma_grouped_count_by_ids(frames, groups);
    lemma_groups_hold_every_frame(frames);
}

proof fn lemma_grouped_count_by_ids(frames: Seq<SinkPreviewFrame>, groups: Seq<PreviewFrameGroup>)
    requires
        forall|k: int| 0 <= k < groups.len() ==> group_of(#[trigger] groups[k], frames),
    ensures
        grouped_frame_count(groups) == frames_by_ids(frames, group_ids(groups)),
    decreases groups.len(),
{
    if groups.len() > 0 {
        let earlier = groups.drop_last();
        assert forall|k: int| 0 <= k < earlier.len() implies group_of(#[trigger] earlier[k], frames) by {
            assert(earlier[k] == groups[k]);
        }
        lemma_grouped_count_by_ids(frames, earlier);
        assert(group_ids(groups).drop_last() =~= group_ids(earlier));
        assert(group_of(groups[groups.len() - 1], frames));
    }
}

} // verus!
