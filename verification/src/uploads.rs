//! Asset uploads from the editor: status texts, and which replaced layout asset can be deleted.

use vstd::prelude::*;
use crate::document::{GraphDocument, GraphNode};
use crate::json::JsonValue;
use crate::schema::{first_position, lemma_first_position, lemma_no_position, NodeParameter};
use crate::text::{str_equal, text_of};

verus! {

/// The kind of asset a node parameter upload carries.
#[derive(Debug, Clone, Copy, PartialEq, Eq, Structural)]
pub enum AssetUploadKind {
    Image,
    Layout,
}

impl AssetUploadKind {
    /// The status prompt shown while the user picks a file.
    pub open spec fn prompt_text(self) -> Seq<char> {
        match self {
            AssetUploadKind::Image => "Choose an image to upload"@,
            AssetUploadKind::Layout => "Choose a CSV or JSON layout to upload"@,
        }
    }

    /// The status shown once the upload succeeded.
    pub open spec fn success_text(self) -> Seq<char> {
        match self {
            AssetUploadKind::Image => "Uploaded image asset"@,
            AssetUploadKind::Layout => "Uploaded layout asset"@,
        }
    }

    /// Returns the status prompt shown while the user picks a file.
    pub fn status_prompt(self) -> (prompt: &'static str)
        ensures
            prompt@ == self.prompt_text(),
    {
        match self {
            AssetUploadKind::Image => "Choose an image to upload",
            AssetUploadKind::Layout => "Choose a CSV or JSON layout to upload",
        }
    }

    /// Returns the status shown once the upload succeeded.
    pub fn success_status(self) -> (status: &'static str)
        ensures
            status@ == self.success_text(),
    {
        match self {
            AssetUploadKind::Image => "Uploaded image asset",
            AssetUploadKind::Layout => "Uploaded layout asset",
        }
    }
}

/// Whether a parameter named `parameter_name` of some node holds the string `asset_id`.
pub open spec fn asset_still_referenced(
    nodes: Seq<GraphNode>,
    parameter_name: Seq<char>,
    asset_id: Seq<char>,
) -> bool {
    exists|i: int, k: int|
        0 <= i < nodes.len() && 0 <= k < nodes[i].parameters@.len() && #[trigger] nodes[i].parameters@[k].name@ == parameter_name
            && nodes[i].parameters@[k].value.string_text() == Some(asset_id)
}

/// The layout asset that an upload leaves unused: the previous asset of a layout upload, when
/// there was one, it is not the uploaded one, and no parameter of that name still holds it.
pub open spec fn orphaned_asset(
    nodes: Seq<GraphNode>,
    kind: AssetUploadKind,
    parameter_name: Seq<char>,
    previous_asset_id: Option<Seq<char>>,
    uploaded_asset_id: Seq<char>,
) -> Option<Seq<char>> {
    match previous_asset_id {
        Some(previous) => if kind == AssetUploadKind::Layout && previous.len() > 0 && previous
            != uploaded_asset_id && !asset_still_referenced(nodes, parameter_name, previous) {
            Some(previous)
        } else {
            None
        },
        None => None,
    }
}

fn parameter_holds(parameter: &NodeParameter, parameter_name: &str, asset_id: &str) -> (holds: bool)
    ensures
        holds == (parameter.name@ == parameter_name@ && parameter.value.string_text() == Some(
            asset_id@,
        )),
{
    if !str_equal(parameter.name.as_str(), parameter_name) {
        return false;
    }
    match parameter.value.as_str() {
        Some(text) => str_equal(text, asset_id),
        None => false,
    }
}

fn still_referenced(document: &GraphDocument, parameter_name: &str, asset_id: &str) -> (found: bool)
    ensures
        found == asset_still_referenced(document.nodes@, parameter_name@, asset_id@),
{
    let ghost nodes = document.nodes@;
    let mut i: usize = 0;
    while i < document.nodes.len()
        invariant
            i <= nodes.len(),
            nodes == document.nodes@,
            forall|a: int, b: int|
                0 <= a < i && 0 <= b < nodes[a].parameters@.len() ==> !(#[trigger] nodes[a].parameters@[b].name@ == parameter_name@
                    && nodes[a].parameters@[b].value.string_text() == Some(asset_id@)),
        decreases nodes.len() - i,
    {
        let node = &document.nodes[i];
        let mut k: usize = 0;
        while k < node.parameters.len()
            invariant
                i < nodes.len(),
                nodes == document.nodes@,
                *node == nodes[i as int],
                k <= node.parameters@.len(),
                forall|b: int|
                    0 <= b < k ==> !(#[trigger] node.parameters@[b].name@ == parameter_name@
                        && node.parameters@[b].value.string_text() == Some(asset_id@)),
            decreases node.parameters@.len() - k,
        {
            if parameter_holds(&node.parameters[k], parameter_name, asset_id) {
                assert(nodes[i as int].parameters@[k as int] == node.parameters@[k as int]);
                assert(nodes[i as int].parameters@[k as int].name@ == parameter_name@);
                return true;
            }
            k = k + 1;
        }
        i = i + 1;
    }
    false
}

/// Returns the layout asset that an upload leaves unused, which can then be deleted.
pub fn orphaned_layout_asset_id(
    document: &GraphDocument,
    kind: AssetUploadKind,
    parameter_name: &str,
    previous_asset_id: Option<String>,
    uploaded_asset_id: &str,
) -> (orphaned: Option<String>)
    ensures
        match orphaned_asset(
            document.nodes@,
            kind,
            parameter_name@,
            match previous_asset_id {
                Some(id) => Some(id@),
                None => None,
            },
            uploaded_asset_id@,
        ) {
            Some(id) => orphaned matches Some(o) && o@ == id,
            None => orphaned is None,
        },
{
    if kind != AssetUploadKind::Layout {
        return None;
    }
    let previous = match previous_asset_id {
        Some(previous) => previous,
        None => return None,
    };
    if previous.as_str().unicode_len() == 0 || str_equal(previous.as_str(), uploaded_asset_id) {
        return None;
    }
    if still_referenced(document, parameter_name, previous.as_str()) {
        return None;
    }
    Some(previous)
}


/// The status shown when an upload finishes with no graph open.
pub open spec fn no_graph_text(kind: AssetUploadKind) -> Seq<char> {
    match kind {
        AssetUploadKind::Image => "Cannot apply uploaded image without an open graph"@,
        AssetUploadKind::Layout => "Cannot apply uploaded layout without an open graph"@,
    }
}

/// Returns the status shown when an upload finishes with no graph open.
pub fn upload_without_graph_status(kind: AssetUploadKind) -> (status: &'static str)
    ensures
        status@ == no_graph_text(kind),
{
    match kind {
        AssetUploadKind::Image => "Cannot apply uploaded image without an open graph",
        AssetUploadKind::Layout => "Cannot apply uploaded layout without an open graph",
    }
}

/// The names of stored parameters, in order.
pub open spec fn stored_parameter_names(parameters: Seq<NodeParameter>) -> Seq<Seq<char>> {
    parameters.map_values(|p: NodeParameter| p.name@)
}

/// The ids of nodes, in order.
pub open spec fn graph_node_ids(nodes: Seq<GraphNode>) -> Seq<Seq<char>> {
    nodes.map_values(|n: GraphNode| n.id@)
}

/// The asset a parameter held before an upload: the string of the first parameter with that
/// name, if it holds a string.
pub open spec fn previous_asset(parameters: Seq<NodeParameter>, parameter_name: Seq<char>) -> Option<
    Seq<char>,
> {
    match first_position(stored_parameter_names(parameters), parameter_name) {
        Some(k) => parameters[k].value.string_text(),
        None => None,
    }
}

/// Whether `after` is `before` with the asset stored under `parameter_name`: the first parameter
/// with that name now holds the asset's id, or, when there is none, a parameter with that name
/// and value is appended; every other parameter is kept.
pub open spec fn asset_stored(
    before: Seq<NodeParameter>,
    after: Seq<NodeParameter>,
    parameter_name: Seq<char>,
    asset_id: Seq<char>,
) -> bool {
    match first_position(stored_parameter_names(before), parameter_name) {
        Some(k) => {
            &&& after.len() == before.len()
            &&& after[k].name == before[k].name
            &&& after[k].value.string_text() == Some(asset_id)
            &&& forall|j: int| 0 <= j < before.len() && j != k ==> after[j] == before[j]
        },
        None => {
            &&& after.len() == before.len() + 1
            &&& after.last().name@ == parameter_name
            &&& after.last().value.string_text() == Some(asset_id)
            &&& forall|j: int| 0 <= j < before.len() ==> after[j] == before[j]
        },
    }
}

fn set_asset_parameter(parameters: &mut Vec<NodeParameter>, parameter_name: &str, asset_id: &str) -> (previous:
    Option<String>)
    ensures
        text_of(previous) == previous_asset(old(parameters)@, parameter_name@),
        asset_stored(old(parameters)@, final(parameters)@, parameter_name@, asset_id@),
{
    let ghost names = stored_parameter_names(parameters@);
    let mut k: usize = 0;
    while k < parameters.len()
        invariant
            k <= parameters@.len(),
            names == stored_parameter_names(parameters@),
            parameters@ == old(parameters)@,
            forall|j: int| 0 <= j < k ==> names[j] != parameter_name@,
        decreases parameters@.len() - k,
    {
        if str_equal(parameters[k].name.as_str(), parameter_name) {
            proof {
                lemma_first_position(names, parameter_name@, k as int);
            }
            let previous = match parameters[k].value.as_str() {
                Some(text) => Some(text.to_owned()),
                None => None,
            };
            let old_parameter = parameters.remove(k);
            parameters.insert(
                k,
                NodeParameter { name: old_parameter.name, value: JsonValue::from_text(asset_id) },
            );
            return previous;
        }
        k = k + 1;
    }
    proof {
        lemma_no_position(names, parameter_name@);
    }
    parameters.push(
        NodeParameter { name: parameter_name.to_owned(), value: JsonValue::from_text(asset_id) },
    );
    None
}

/// Stores an uploaded asset's id in a node parameter of the open graph and returns the layout
/// asset the upload left unused, which can then be deleted.
///
/// The first node with id `node_id` takes the asset in its first parameter named
/// `parameter_name` (a parameter is appended when there is none); every other part of the
/// document is kept. When no node has that id, nothing changes and the error says so.
pub fn apply_uploaded_asset(
    document: &mut GraphDocument,
    kind: AssetUploadKind,
    node_id: &str,
    parameter_name: &str,
    asset_id: &str,
) -> (result: Result<Option<String>, String>)
    ensures
        match first_position(graph_node_ids(old(document).nodes@), node_id@) {
            None => {
                &&& result matches Err(message) && message@
                    == "The edited node no longer exists in the open graph"@
                &&& *final(document) == *old(document)
            },
            Some(i) => {
                let before = old(document).nodes@[i];
                let after = final(document).nodes@[i];
                &&& result matches Ok(orphaned) && text_of(orphaned) == orphaned_asset(
                    final(document).nodes@,
                    kind,
                    parameter_name@,
                    previous_asset(before.parameters@, parameter_name@),
                    asset_id@,
                )
                &&& final(document).nodes@.len() == old(document).nodes@.len()
                &&& forall|j: int|
                    0 <= j < old(document).nodes@.len() && j != i ==> final(document).nodes@[j]
                        == old(document).nodes@[j]
                &&& after == GraphNode { parameters: after.parameters, ..before }
                &&& asset_stored(before.parameters@, after.parameters@, parameter_name@, asset_id@)
                &&& final(document).metadata == old(document).metadata
                &&& final(document).viewport == old(document).viewport
                &&& final(document).layout_assets == old(document).layout_assets
                &&& final(document).edges == old(document).edges
            },
        },
{
    let ghost ids = graph_node_ids(document.nodes@);
    let mut i: usize = 0;
    while i < document.nodes.len()
        invariant
            i <= document.nodes@.len(),
            ids == graph_node_ids(document.nodes@),
            *document == *old(document),
            forall|j: int| 0 <= j < i ==> ids[j] != node_id@,
        decreases document.nodes@.len() - i,
    {
        if str_equal(document.nodes[i].id.as_str(), node_id) {
            proof {
                lemma_first_position(ids, node_id@, i as int);
            }
            let mut node = document.nodes.remove(i);
            let previous = set_asset_parameter(&mut node.parameters, parameter_name, asset_id);
            document.nodes.insert(i, node);
            let orphaned = orphaned_layout_asset_id(document, kind, parameter_name, previous, asset_id);
            return Ok(orphaned);
        }
        i = i + 1;
    }
    proof {
        lemma_no_position(ids, node_id@);
    }
    Err("The edited node no longer exists in the open graph".to_owned())
}

/// A layout asset still held by a parameter of that name, on any node (the first one too), is
/// never reported as left unused; and one that is reported is the previous layout asset, not
/// the uploaded one, and no parameter of that name on any node holds it.
pub proof fn lemma_referenced_asset_is_kept(
    nodes: Seq<GraphNode>,
    kind: AssetUploadKind,
    parameter_name: Seq<char>,
    previous: Seq<char>,
    uploaded_asset_id: Seq<char>,
)
    ensures
        forall|i: int, k: int|
            0 <= i < nodes.len() && 0 <= k < nodes[i].parameters@.len()
                && nodes[i].parameters@[k].name@ == parameter_name
                && (#[trigger] nodes[i].parameters@[k]).value.string_text() == Some(previous)
                ==> orphaned_asset(nodes, kind, parameter_name, Some(previous), uploaded_asset_id)
                is None,
        orphaned_asset(nodes, kind, parameter_name, Some(previous), uploaded_asset_id) is Some ==> {
            &&& kind == AssetUploadKind::Layout
            &&& orphaned_asset(nodes, kind, parameter_name, Some(previous), uploaded_asset_id)
                == Some(previous)
            &&& previous.len() > 0
            &&& previous != uploaded_asset_id
            &&& forall|i: int, k: int|
                0 <= i < nodes.len() && 0 <= k < nodes[i].parameters@.len() ==> !(
                nodes[i].parameters@[k].name@ == parameter_name && (#[trigger] nodes[i].parameters@[
                k]).value.string_text() == Some(previous))
        },
        orphaned_asset(nodes, kind, parameter_name, None, uploaded_asset_id) is None,
{
    assert forall|i: int, k: int|
        0 <= i < nodes.len() && 0 <= k < nodes[i].parameters@.len()
            && nodes[i].parameters@[k].name@ == parameter_name
            && (#[trigger] nodes[i].parameters@[k]).value.string_text() == Some(
            previous,
        ) implies orphaned_asset(nodes, kind, parameter_name, Some(previous), uploaded_asset_id)
        is None by {
        assert(asset_still_referenced(nodes, parameter_name, previous));
    }
    if orphaned_asset(nodes, kind, parameter_name, Some(previous), uploaded_asset_id) is Some {
        assert forall|i: int, k: int|
            0 <= i < nodes.len() && 0 <= k < nodes[i].parameters@.len() implies !(
            nodes[i].parameters@[k].name@ == parameter_name && (#[trigger] nodes[i].parameters@[
            k]).value.string_text() == Some(previous)) by {
            if nodes[i].parameters@[k].name@ == parameter_name
                && nodes[i].parameters@[k].value.string_text() == Some(previous) {
                assert(asset_still_referenced(nodes, parameter_name, previous));
            }
        }
    }
}

} // verus!
