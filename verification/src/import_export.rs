//! Graph import and paste decisions of the editor: what happens to a chosen exchange file, and
//! the status texts that report imports and pastes.

use vstd::prelude::*;
use crate::document::GraphMetadata;
use crate::exchange::{
    header_check, GraphExchangeFile, GraphImportCollisionPolicy, GraphImportMode,
    GRAPH_EXCHANGE_FORMAT, GRAPH_EXCHANGE_VERSION,
};
use crate::protocol::ClientMessage;
use crate::session::{graph_ids, optional_text};
use crate::text::{decimal_text, push_decimal, str_equal, trim, trim_text};

verus! {

/// What becomes of a graph file chosen for import.
pub enum ImportDecision {
    /// The file's header is not supported; the message says why.
    Rejected(String),
    /// A listed graph already has the file's id: the file waits for the user to choose how to
    /// import it, with a status saying so.
    NeedsResolution { file: GraphExchangeFile, status: String },
    /// The request that sends the file to the backend, keeping its id when that is free.
    Send(ClientMessage),
}

/// Whether an imported graph id clashes with a listed graph: the trimmed id is not empty and a
/// listed graph has it.
pub open spec fn import_id_conflicts(graph_id: Seq<char>, graphs: Seq<GraphMetadata>) -> bool {
    trim_text(graph_id).len() > 0 && graph_ids(graphs).contains(trim_text(graph_id))
}

/// The status shown while an import waits for the user to resolve an id clash.
pub open spec fn conflict_status(graph_id: Seq<char>) -> Seq<char> {
    "Graph id '"@ + trim_text(graph_id) + "' already exists. Choose how to import it."@
}

fn is_listed(graph_documents: &[GraphMetadata], graph_id: &str) -> (listed: bool)
    ensures
        listed == graph_ids(graph_documents@).contains(graph_id@),
{
    let mut i: usize = 0;
    while i < graph_documents.len()
        invariant
            i <= graph_documents@.len(),
            forall|j: int| 0 <= j < i ==> (#[trigger] graph_documents@[j]).id@ != graph_id@,
        decreases graph_documents@.len() - i,
    {
        if str_equal(graph_documents[i].id.as_str(), graph_id) {
            assert(graph_ids(graph_documents@).contains(graph_id@));
            return true;
        }
        i = i + 1;
    }
    assert(!graph_ids(graph_documents@).contains(graph_id@)) by {
        if graph_ids(graph_documents@).contains(graph_id@) {
            let j = choose|j: int|
                0 <= j < graph_documents@.len() && (#[trigger] graph_documents@[j]).id@ == graph_id@;
            assert(graph_documents@[j].id@ != graph_id@);
        }
    }
    false
}

/// Decides what becomes of a graph file chosen for import.
///
/// A file with an unsupported header is rejected with the header's message. A file whose
/// trimmed graph id is already listed waits for the user to choose between overwriting and
/// importing a copy. Any other file is sent to the backend, keeping its id if it is free.
pub fn handle_import_graph_file(file: GraphExchangeFile, graph_documents: &[GraphMetadata]) -> (decision:
    ImportDecision)
    ensures
        match header_check(
            "exchange"@,
            file.format@,
            file.version,
            GRAPH_EXCHANGE_FORMAT@,
            GRAPH_EXCHANGE_VERSION,
        ) {
            Err(message) => decision matches ImportDecision::Rejected(text) && text@ == message,
            Ok(()) => if import_id_conflicts(file.document.metadata.id@, graph_documents@) {
                decision matches ImportDecision::NeedsResolution { file: pending, status }
                    && pending == file && status@ == conflict_status(file.document.metadata.id@)
            } else {
                decision == ImportDecision::Send(
                    ClientMessage::ImportGraphDocument {
                        file,
                        collision_policy: GraphImportCollisionPolicy::PreserveIfFree,
                    },
                )
            },
        },
{
    if let Err(message) = file.validate_header() {
        return ImportDecision::Rejected(message);
    }
    let graph_id = trim(file.document.metadata.id.as_str());
    let id_conflicts = graph_id.unicode_len() > 0 && is_listed(graph_documents, graph_id);
    if id_conflicts {
        let mut status = "Graph id '".to_owned();
        status.append(graph_id);
        status.append("' already exists. Choose how to import it.");
        return ImportDecision::NeedsResolution { file, status };
    }
    ImportDecision::Send(
        ClientMessage::ImportGraphDocument {
            file,
            collision_policy: GraphImportCollisionPolicy::PreserveIfFree,
        },
    )
}

/// The status shown once an import has been applied.
pub open spec fn imported_status(name: Seq<char>, mode: GraphImportMode) -> Seq<char> {
    match mode {
        GraphImportMode::Imported => "Imported graph '"@ + name + "'"@,
        GraphImportMode::Overwritten => "Overwrote graph '"@ + name + "'"@,
    }
}

/// Returns the status that reports a finished import: whether the graph was imported as a new
/// document or overwrote an existing one, with its name.
pub fn graph_imported_status(graph_name: &str, mode: GraphImportMode) -> (status: String)
    ensures
        status@ == imported_status(graph_name@, mode),
{
    let mut status = match mode {
        GraphImportMode::Imported => "Imported graph '".to_owned(),
        GraphImportMode::Overwritten => "Overwrote graph '".to_owned(),
    };
    status.append(graph_name);
    status.append("'");
    status
}

/// Checks that a pending clipboard paste still targets the graph it was started in: it must be
/// both the selected and the loaded graph. A paste with no recorded target always proceeds.
pub fn ensure_pending_clipboard_paste_targets_active_graph(
    pending_target_graph_id: Option<&str>,
    selected_graph_id: Option<&str>,
    loaded_graph_id: Option<&str>,
) -> (result: Result<(), String>)
    ensures
        match pending_target_graph_id {
            None => result is Ok,
            Some(target) => if optional_text(selected_graph_id) == Some(target@) && optional_text(
                loaded_graph_id,
            ) == Some(target@) {
                result is Ok
            } else {
                result matches Err(message) && message@
                    == "Clipboard paste was cancelled because the active graph changed"@
            },
        },
{
    let target = match pending_target_graph_id {
        Some(target) => target,
        None => {
            return Ok(());
        },
    };
    let selected_matches = match selected_graph_id {
        Some(selected) => str_equal(selected, target),
        None => false,
    };
    let loaded_matches = match loaded_graph_id {
        Some(loaded) => str_equal(loaded, target),
        None => false,
    };
    if selected_matches && loaded_matches {
        Ok(())
    } else {
        Err("Clipboard paste was cancelled because the active graph changed".to_owned())
    }
}

/// Texts joined with `, ` between them.
pub open spec fn comma_joined(texts: Seq<Seq<char>>) -> Seq<char>
    decreases texts.len(),
{
    if texts.len() == 0 {
        Seq::empty()
    } else if texts.len() == 1 {
        texts[0]
    } else {
        comma_joined(texts.drop_last()) + ", "@ + texts.last()
    }
}

/// The texts of strings, in order.
pub open spec fn string_texts(strings: Seq<String>) -> Seq<Seq<char>> {
    strings.map_values(|s: String| s@)
}

/// The status that reports a paste: how many nodes were pasted and which node types were skipped
/// as unsupported.
pub open spec fn paste_status(pasted_node_count: nat, skipped: Seq<Seq<char>>) -> Seq<char> {
    if pasted_node_count == 0 {
        if skipped.len() == 0 {
            "Clipboard fragment did not contain any pasteable nodes"@
        } else {
            "Skipped unsupported node types: "@ + comma_joined(skipped)
        }
    } else if skipped.len() == 0 {
        "Pasted "@ + decimal_text(pasted_node_count) + " node(s)"@
    } else {
        "Pasted "@ + decimal_text(pasted_node_count) + " node(s), skipped unsupported node types: "@
            + comma_joined(skipped)
    }
}

fn push_comma_joined(text: &mut String, texts: &[String])
    ensures
        final(text)@ == old(text)@ + comma_joined(string_texts(texts@)),
{
    let ghost start = text@;
    let mut i: usize = 0;
    assert(string_texts(texts@).take(0) =~= Seq::<Seq<char>>::empty());
    while i < texts.len()
        invariant
            i <= texts@.len(),
            text@ == start + comma_joined(string_texts(texts@).take(i as int)),
        decreases texts@.len() - i,
    {
        let ghost all = string_texts(texts@);
        assert(all.take(i + 1).drop_last() =~= all.take(i as int));
        assert(all.take(i + 1).last() == texts@[i as int]@);
        if i > 0 {
            text.append(", ");
        } else {
            assert(all.take(1) =~= seq![texts@[0]@]);
        }
        text.append(texts[i].as_str());
        i = i + 1;
    }
    assert(string_texts(texts@).take(i as int) =~= string_texts(texts@));
}

/// Returns the status that reports a paste of `pasted_node_count` nodes that skipped the given
/// unsupported node types.
pub fn clipboard_paste_status(pasted_node_count: usize, skipped_node_type_ids: &[String]) -> (status:
    String)
    ensures
        status@ == paste_status(pasted_node_count as nat, string_texts(skipped_node_type_ids@)),
{
    if pasted_node_count == 0 {
        if skipped_node_type_ids.len() == 0 {
            "Clipboard fragment did not contain any pasteable nodes".to_owned()
        } else {
            let mut status = "Skipped unsupported node types: ".to_owned();
            push_comma_joined(&mut status, skipped_node_type_ids);
            status
        }
    } else {
        let mut status = "Pasted ".to_owned();
        push_decimal(&mut status, pasted_node_count as u64);
        if skipped_node_type_ids.len() == 0 {
            status.append(" node(s)");
        } else {
            status.append(" node(s), skipped unsupported node types: ");
            push_comma_joined(&mut status, skipped_node_type_ids);
        }
        status
    }
}

/// An imported id clashes exactly when its trimmed form is not empty and some listed graph, at
/// any position of the list, carries that trimmed id.
pub proof fn lemma_import_conflict_is_any_listed_graph(
    graph_id: Seq<char>,
    graphs: Seq<GraphMetadata>,
)
    ensures
        import_id_conflicts(graph_id, graphs) == (trim_text(graph_id).len() > 0 && exists|j: int|
            0 <= j < graphs.len() && (#[trigger] graphs[j]).id@ == trim_text(graph_id)),
{
    let id = trim_text(graph_id);
    if exists|j: int| 0 <= j < graphs.len() && (#[trigger] graphs[j]).id@ == id {
        let j = choose|j: int| 0 <= j < graphs.len() && (#[trigger] graphs[j]).id@ == id;
        assert(graph_ids(graphs).contains(id));
    }
}

} // verus!
