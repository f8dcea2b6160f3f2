//! Graph actions of the editor that change local state before asking the backend: renaming a
//! graph and changing its execution frequency, and the status labels of the header.

use vstd::prelude::*;
use crate::document::{GraphDocument, GraphMetadata};
use crate::protocol::ClientMessage;
use crate::schema::{first_position, lemma_first_position, lemma_no_position};
use crate::text::{str_equal, trim, trim_text};

verus! {

/// The save-state label of the header, from the most to the least pressing state.
pub open spec fn save_status(
    save_in_flight: bool,
    pending_graph_update: bool,
    graph_loaded: bool,
    graph_requested: bool,
) -> Seq<char> {
    if save_in_flight {
        "Saving"@
    } else if pending_graph_update {
        "Unsaved changes"@
    } else if graph_loaded {
        "All changes saved"@
    } else if graph_requested {
        "Loading graph"@
    } else {
        "No graph loaded"@
    }
}

/// Returns the short save-state label shown in the header: a save in flight, unsaved changes,
/// a loaded graph, a requested graph, or nothing.
pub fn graph_save_status_label(
    save_in_flight: bool,
    pending_graph_update: bool,
    graph_loaded: bool,
    graph_requested: bool,
) -> (label: &'static str)
    ensures
        label@ == save_status(save_in_flight, pending_graph_update, graph_loaded, graph_requested),
{
    if save_in_flight {
        "Saving"
    } else if pending_graph_update {
        "Unsaved changes"
    } else if graph_loaded {
        "All changes saved"
    } else if graph_requested {
        "Loading graph"
    } else {
        "No graph loaded"
    }
}

/// The connection-state label of the header.
pub open spec fn connection_status(has_transport: bool, has_confirmed_connection: bool) -> Seq<char> {
    if has_transport && has_confirmed_connection {
        "Connected"@
    } else if has_transport {
        "Connecting"@
    } else {
        "Offline"@
    }
}

/// Returns the short connection-state label shown in the header.
pub fn websocket_status_label(has_transport: bool, has_confirmed_connection: bool) -> (label:
    &'static str)
    ensures
        label@ == connection_status(has_transport, has_confirmed_connection),
{
    if has_transport && has_confirmed_connection {
        "Connected"
    } else if has_transport {
        "Connecting"
    } else {
        "Offline"
    }
}

/// The ids of graphs, in order.
pub open spec fn metadata_ids(graphs: Seq<GraphMetadata>) -> Seq<Seq<char>> {
    graphs.map_values(|g: GraphMetadata| g.id@)
}

/// The graph list after `change` is applied to the first graph with id `graph_id`.
pub open spec fn with_first_graph(
    graphs: Seq<GraphMetadata>,
    graph_id: Seq<char>,
    change: spec_fn(GraphMetadata) -> GraphMetadata,
) -> Seq<GraphMetadata> {
    match first_position(metadata_ids(graphs), graph_id) {
        Some(i) => graphs.update(i, change(graphs[i])),
        None => graphs,
    }
}

/// The loaded document after `change` is applied to its metadata, if it is graph `graph_id`.
pub open spec fn with_loaded_graph(
    loaded: Option<GraphDocument>,
    graph_id: Seq<char>,
    change: spec_fn(GraphMetadata) -> GraphMetadata,
) -> Option<GraphDocument> {
    match loaded {
        Some(document) => if document.metadata.id@ == graph_id {
            Some(GraphDocument { metadata: change(document.metadata), ..document })
        } else {
            Some(document)
        },
        None => None,
    }
}

/// Gives graph metadata a new name.
pub open spec fn renamed(name: String) -> spec_fn(GraphMetadata) -> GraphMetadata {
    |g: GraphMetadata| GraphMetadata { name, ..g }
}

/// Gives graph metadata a new execution frequency.
pub open spec fn retimed(execution_frequency_hz: u32) -> spec_fn(GraphMetadata) -> GraphMetadata {
    |g: GraphMetadata| GraphMetadata { execution_frequency_hz, ..g }
}

fn first_graph(graphs: &Vec<GraphMetadata>, graph_id: &str) -> (found: Option<usize>)
    ensures
        match found {
            Some(i) => first_position(metadata_ids(graphs@), graph_id@) == Some(i as int),
            None => first_position(metadata_ids(graphs@), graph_id@) is None,
        },
{
    let ghost ids = metadata_ids(graphs@);
    let mut i: usize = 0;
    while i < graphs.len()
        invariant
            i <= graphs@.len(),
            ids == metadata_ids(graphs@),
            forall|j: int| 0 <= j < i ==> ids[j] != graph_id@,
        decreases graphs@.len() - i,
    {
        if str_equal(graphs[i].id.as_str(), graph_id) {
            proof {
                lemma_first_position(ids, graph_id@, i as int);
            }
            return Some(i);
        }
        i = i + 1;
    }
    proof {
        lemma_no_position(ids, graph_id@);
    }
    None
}

fn replace_graph(graphs: &mut Vec<GraphMetadata>, i: usize, graph: GraphMetadata)
    requires
        i < old(graphs)@.len(),
    ensures
        final(graphs)@ == old(graphs)@.update(i as int, graph),
{
    graphs.remove(i);
    graphs.insert(i, graph);
    assert(graphs@ =~= old(graphs)@.update(i as int, graph));
}

/// Renames a graph locally and returns the rename request for the backend.
///
/// The name is trimmed first; an empty name is refused with no change and no request, with the
/// status line that says so. Otherwise the first listed graph with that id and, when it is that
/// graph, the loaded document take the trimmed name.
pub fn update_graph_name(
    graph_documents: &mut Vec<GraphMetadata>,
    loaded_graph_document: &mut Option<GraphDocument>,
    graph_id: String,
    name: &str,
) -> (request: Result<ClientMessage, String>)
    ensures
        trim_text(name@).len() == 0 ==> {
            &&& request matches Err(status) && status@ == "Graph document name must not be empty"@
            &&& final(graph_documents)@ == old(graph_documents)@
            &&& *final(loaded_graph_document) == *old(loaded_graph_document)
        },
        trim_text(name@).len() > 0 ==> {
            &&& request matches Ok(ClientMessage::UpdateGraphName { id, name: trimmed }) && id
                == graph_id && trimmed@ == trim_text(name@) && final(graph_documents)@
                == with_first_graph(old(graph_documents)@, graph_id@, renamed(trimmed))
                && *final(loaded_graph_document) == with_loaded_graph(
                *old(loaded_graph_document),
                graph_id@,
                renamed(trimmed),
            )
        },
{
    let trimmed = trim(name);
    if trimmed.unicode_len() == 0 {
        return Err(String::from_str("Graph document name must not be empty"));
    }
    let trimmed_name = trimmed.to_owned();
    if let Some(i) = first_graph(graph_documents, graph_id.as_str()) {
        let graph = GraphMetadata {
            id: graph_documents[i].id.clone(),
            name: trimmed_name.clone(),
            execution_frequency_hz: graph_documents[i].execution_frequency_hz,
            home_assistant_broker_id: graph_documents[i].home_assistant_broker_id.clone(),
        };
        replace_graph(graph_documents, i, graph);
    }
    match loaded_graph_document {
        Some(document) => {
            if str_equal(document.metadata.id.as_str(), graph_id.as_str()) {
                document.metadata.name = trimmed_name.clone();
            }
        },
        None => {},
    }
    Ok(ClientMessage::UpdateGraphName { id: graph_id, name: trimmed_name })
}

/// Changes a graph's execution frequency locally, raised to at least 1 Hz, and returns the
/// request for the backend.
///
/// The first listed graph with that id and, when it is that graph, the loaded document take the
/// new frequency.
pub fn update_graph_execution_frequency(
    graph_documents: &mut Vec<GraphMetadata>,
    loaded_graph_document: &mut Option<GraphDocument>,
    graph_id: String,
    execution_frequency_hz: u32,
) -> (request: ClientMessage)
    ensures
        ({
            let hz = if execution_frequency_hz < 1 {
                1u32
            } else {
                execution_frequency_hz
            };
            &&& request == ClientMessage::UpdateGraphExecutionFrequency {
                id: graph_id,
                execution_frequency_hz: hz,
            }
            &&& final(graph_documents)@ == with_first_graph(
                old(graph_documents)@,
                graph_id@,
                retimed(hz),
            )
            &&& *final(loaded_graph_document) == with_loaded_graph(
                *old(loaded_graph_document),
                graph_id@,
                retimed(hz),
            )
        }),
{
    let hz: u32 = if execution_frequency_hz < 1 {
        1
    } else {
        execution_frequency_hz
    };
    if let Some(i) = first_graph(graph_documents, graph_id.as_str()) {
        let graph = GraphMetadata {
            id: graph_documents[i].id.clone(),
            name: graph_documents[i].name.clone(),
            execution_frequency_hz: hz,
            home_assistant_broker_id: graph_documents[i].home_assistant_broker_id.clone(),
        };
        replace_graph(graph_documents, i, graph);
    }
    match loaded_graph_document {
        Some(document) => {
            if str_equal(document.metadata.id.as_str(), graph_id.as_str()) {
                document.metadata.execution_frequency_hz = hz;
            }
        },
        None => {},
    }
    ClientMessage::UpdateGraphExecutionFrequency { id: graph_id, execution_frequency_hz: hz }
}

} // verus!
