use luma_weaver::document::{GraphDocument, GraphMetadata};
use luma_weaver::graph_actions::{
    graph_save_status_label, update_graph_execution_frequency, update_graph_name,
    websocket_status_label,
};
use luma_weaver::protocol::ClientMessage;

fn metadata(id: &str, name: &str) -> GraphMetadata {
    GraphMetadata {
        id: id.to_owned(),
        name: name.to_owned(),
        execution_frequency_hz: 60,
        home_assistant_broker_id: String::new(),
    }
}

fn loaded(id: &str) -> Option<GraphDocument> {
    let mut document = GraphDocument::default();
    document.metadata = metadata(id, "Loaded");
    Some(document)
}

#[test]
fn renaming_trims_the_name_and_updates_local_state() {
    let mut graphs = vec![metadata("a", "Old"), metadata("b", "Other")];
    let mut document = loaded("a");
    let request = update_graph_name(&mut graphs, &mut document, "a".to_owned(), "  New name \n");
    match request {
        Ok(ClientMessage::UpdateGraphName { id, name }) => {
            assert_eq!(id, "a");
            assert_eq!(name, "New name");
        }
        other => panic!("unexpected request {:?}", other),
    }
    assert_eq!(graphs[0].name, "New name");
    assert_eq!(graphs[1].name, "Other");
    assert_eq!(document.expect("document").metadata.name, "New name");
}

#[test]
fn renaming_to_a_blank_name_is_refused() {
    let mut graphs = vec![metadata("a", "Old")];
    let mut document = loaded("a");
    assert_eq!(
        update_graph_name(&mut graphs, &mut document, "a".to_owned(), "   ").err(),
        Some("Graph document name must not be empty".to_owned())
    );
    assert_eq!(graphs[0].name, "Old");
    assert_eq!(document.expect("document").metadata.name, "Loaded");
}

#[test]
fn renaming_another_graph_leaves_the_loaded_document() {
    let mut graphs = vec![metadata("a", "Old"), metadata("b", "Other")];
    let mut document = loaded("a");
    assert!(update_graph_name(&mut graphs, &mut document, "b".to_owned(), "B").is_ok());
    assert_eq!(graphs[1].name, "B");
    assert_eq!(document.expect("document").metadata.name, "Loaded");
}

#[test]
fn execution_frequency_is_at_least_one_hertz() {
    let mut graphs = vec![metadata("a", "A")];
    let mut document = loaded("a");
    let request = update_graph_execution_frequency(&mut graphs, &mut document, "a".to_owned(), 0);
    match request {
        ClientMessage::UpdateGraphExecutionFrequency { id, execution_frequency_hz } => {
            assert_eq!(id, "a");
            assert_eq!(execution_frequency_hz, 1);
        }
        other => panic!("unexpected request {:?}", other),
    }
    assert_eq!(graphs[0].execution_frequency_hz, 1);
    assert_eq!(document.as_ref().expect("document").metadata.execution_frequency_hz, 1);
    update_graph_execution_frequency(&mut graphs, &mut document, "a".to_owned(), 120);
    assert_eq!(graphs[0].execution_frequency_hz, 120);
    assert_eq!(document.expect("document").metadata.execution_frequency_hz, 120);
}

#[test]
fn header_labels_follow_the_most_pressing_state() {
    assert_eq!(graph_save_status_label(true, true, true, true), "Saving");
    assert_eq!(graph_save_status_label(false, true, true, true), "Unsaved changes");
    assert_eq!(graph_save_status_label(false, false, true, true), "All changes saved");
    assert_eq!(graph_save_status_label(false, false, false, true), "Loading graph");
    assert_eq!(graph_save_status_label(false, false, false, false), "No graph loaded");
    assert_eq!(websocket_status_label(true, true), "Connected");
    assert_eq!(websocket_status_label(true, false), "Connecting");
    assert_eq!(websocket_status_label(false, true), "Offline");
}
