use luma_weaver::document::{GraphDocument, GraphMetadata};
use luma_weaver::exchange::{
    GraphExchangeFile, GraphImportCollisionPolicy, GraphImportMode, GRAPH_EXCHANGE_VERSION,
};
use luma_weaver::import_export::{
    clipboard_paste_status, ensure_pending_clipboard_paste_targets_active_graph,
    graph_imported_status, handle_import_graph_file, ImportDecision,
};
use luma_weaver::protocol::ClientMessage;

fn metadata(id: &str) -> GraphMetadata {
    GraphMetadata {
        id: id.to_owned(),
        name: "Graph".to_owned(),
        execution_frequency_hz: 60,
        home_assistant_broker_id: String::new(),
    }
}

fn exchange_file(id: &str) -> GraphExchangeFile {
    let mut document = GraphDocument::default();
    document.metadata = metadata(id);
    GraphExchangeFile::new(document)
}

#[test]
fn pending_clipboard_paste_is_rejected_after_graph_switch() {
    assert_eq!(
        ensure_pending_clipboard_paste_targets_active_graph(
            Some("graph-a"),
            Some("graph-b"),
            Some("graph-b"),
        ),
        Err("Clipboard paste was cancelled because the active graph changed".to_owned())
    );
    assert_eq!(
        ensure_pending_clipboard_paste_targets_active_graph(Some("graph-a"), Some("graph-a"), Some("graph-a")),
        Ok(())
    );
    assert_eq!(ensure_pending_clipboard_paste_targets_active_graph(None, None, None), Ok(()));
}

#[test]
fn imports_with_a_free_id_are_sent_right_away() {
    match handle_import_graph_file(exchange_file("fresh"), &[metadata("other")]) {
        ImportDecision::Send(ClientMessage::ImportGraphDocument { file, collision_policy }) => {
            assert_eq!(file.document.metadata.id, "fresh");
            assert_eq!(collision_policy, GraphImportCollisionPolicy::PreserveIfFree);
        }
        _ => panic!("expected the import to be sent"),
    }
}

#[test]
fn imports_with_a_taken_id_wait_for_a_choice() {
    match handle_import_graph_file(exchange_file("  taken "), &[metadata("taken")]) {
        ImportDecision::NeedsResolution { file, status } => {
            assert_eq!(file.document.metadata.id, "  taken ");
            assert_eq!(status, "Graph id 'taken' already exists. Choose how to import it.");
        }
        _ => panic!("expected the import to wait"),
    }
    assert!(matches!(
        handle_import_graph_file(exchange_file("   "), &[metadata("")]),
        ImportDecision::Send(_)
    ));
}

#[test]
fn imports_with_an_unknown_header_are_rejected() {
    let mut file = exchange_file("fresh");
    file.version = GRAPH_EXCHANGE_VERSION + 1;
    match handle_import_graph_file(file, &[]) {
        ImportDecision::Rejected(message) => {
            assert_eq!(message, format!("Unsupported graph exchange version {}", GRAPH_EXCHANGE_VERSION + 1));
        }
        _ => panic!("expected a rejection"),
    }
}

#[test]
fn import_and_paste_statuses_read_as_sentences() {
    assert_eq!(graph_imported_status("Demo", GraphImportMode::Imported), "Imported graph 'Demo'");
    assert_eq!(graph_imported_status("Demo", GraphImportMode::Overwritten), "Overwrote graph 'Demo'");
    assert_eq!(clipboard_paste_status(0, &[]), "Clipboard fragment did not contain any pasteable nodes");
    let skipped = vec!["a.b".to_owned(), "c.d".to_owned()];
    assert_eq!(clipboard_paste_status(0, &skipped), "Skipped unsupported node types: a.b, c.d");
    assert_eq!(clipboard_paste_status(12, &[]), "Pasted 12 node(s)");
    assert_eq!(
        clipboard_paste_status(3, &skipped[..1]),
        "Pasted 3 node(s), skipped unsupported node types: a.b"
    );
}
