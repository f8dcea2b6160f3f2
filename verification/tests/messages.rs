use luma_weaver::document::{GraphDocument, GraphMetadata};
use luma_weaver::events::{EventMessage, EventScope, EventSubscription, EventTopic};
use luma_weaver::messages::{apply_server_message, ServerMessageEffect};
use luma_weaver::protocol::{
    GraphRuntimeMode, GraphRuntimeStatus, NodeDiagnosticSeverity, NodeDiagnosticSummary,
    NodeRuntimeUpdateValue, ServerMessage,
};
use luma_weaver::session::GraphRuntimeCaches;
use luma_weaver::subscriptions::SubscriptionState;
use luma_weaver::value::{Decimal, InputValue};

fn fresh_subscriptions() -> SubscriptionState {
    SubscriptionState {
        active_event_subscriptions: Vec::new(),
        initialized: false,
        metadata_requested_once: false,
        node_definitions_requested_once: false,
        running_graphs_requested_once: false,
        wled_instances_requested_once: false,
        mqtt_brokers_requested_once: false,
        runtime_graph_subscription: None,
        diagnostics_graph_subscription: None,
        diagnostics_node_subscription: None,
    }
}

fn loaded_document(id: &str) -> GraphDocument {
    let mut document = GraphDocument::default();
    document.metadata = GraphMetadata {
        id: id.to_owned(),
        name: "Graph".to_owned(),
        execution_frequency_hz: 60,
        home_assistant_broker_id: String::new(),
    };
    document
}

fn apply(message: ServerMessage) -> ServerMessageEffect {
    let mut caches = GraphRuntimeCaches::new();
    let mut subscriptions = fresh_subscriptions();
    apply_server_message(&mut caches, &mut subscriptions, None, None, message)
}

fn status_of(effect: ServerMessageEffect) -> String {
    match effect {
        ServerMessageEffect::Status(status) => status,
        _ => panic!("expected a status line"),
    }
}

#[test]
fn welcome_and_pong_only_set_the_status() {
    assert_eq!(status_of(apply(ServerMessage::Welcome { message: "hello".to_owned() })), "hello");
    assert_eq!(status_of(apply(ServerMessage::Pong)), "Received pong");
}

#[test]
fn server_error_marks_the_save_failed() {
    match apply(ServerMessage::Error { message: "boom".to_owned() }) {
        ServerMessageEffect::SaveFailed(status) => assert_eq!(status, "boom"),
        _ => panic!("expected a failed save"),
    }
}

#[test]
fn event_becomes_the_last_event_line() {
    let event = EventMessage {
        topic: EventTopic::Connection,
        scope: EventScope::Global,
        message: "client joined".to_owned(),
    };
    match apply(ServerMessage::Event(event)) {
        ServerMessageEffect::LastEvent(line) => assert_eq!(line, "Connection: client joined"),
        _ => panic!("expected an event line"),
    }
}

#[test]
fn subscription_state_replaces_the_active_subscriptions() {
    let mut caches = GraphRuntimeCaches::new();
    let mut subscriptions = fresh_subscriptions();
    let list = vec![
        EventSubscription { topic: EventTopic::Connection, scope: EventScope::Global },
        EventSubscription {
            topic: EventTopic::Name,
            scope: EventScope::Graph { graph_id: "graph-a".to_owned() },
        },
    ];
    let effect = apply_server_message(
        &mut caches,
        &mut subscriptions,
        None,
        None,
        ServerMessage::SubscriptionState { subscriptions: list.clone() },
    );
    assert_eq!(subscriptions.active_event_subscriptions, list);
    match effect {
        ServerMessageEffect::SubscriptionsReplaced(text) => {
            assert_eq!(text, "Connection@global, Name@graph:graph-a")
        }
        _ => panic!("expected replaced subscriptions"),
    }
}

#[test]
fn runtime_statuses_update_the_cached_modes() {
    let mut caches = GraphRuntimeCaches::new();
    let mut subscriptions = fresh_subscriptions();
    let effect = apply_server_message(
        &mut caches,
        &mut subscriptions,
        None,
        Some("graph-a"),
        ServerMessage::RuntimeStatuses {
            graphs: vec![GraphRuntimeStatus {
                graph_id: "graph-a".to_owned(),
                mode: GraphRuntimeMode::Running,
            }],
        },
    );
    assert_eq!(status_of(effect), "Runtime statuses updated");
    assert_eq!(caches.graph_runtime_modes.get("graph-a"), Some(&GraphRuntimeMode::Running));
}

#[test]
fn diagnostics_and_runtime_updates_are_absorbed() {
    let mut caches = GraphRuntimeCaches::new();
    let mut subscriptions = fresh_subscriptions();
    let document = loaded_document("graph-a");
    let effect = apply_server_message(
        &mut caches,
        &mut subscriptions,
        Some(&document),
        None,
        ServerMessage::GraphDiagnosticsSummary {
            graph_id: "graph-a".to_owned(),
            nodes: vec![NodeDiagnosticSummary {
                node_id: "node-1".to_owned(),
                highest_severity: NodeDiagnosticSeverity::Warning,
                active_count: 2,
            }],
        },
    );
    assert!(matches!(effect, ServerMessageEffect::Absorbed));
    assert_eq!(caches.graph_diagnostic_summaries("graph-a").map(|nodes| nodes.as_slice().len()), Some(1));

    let effect = apply_server_message(
        &mut caches,
        &mut subscriptions,
        Some(&document),
        None,
        ServerMessage::NodeRuntimeUpdate {
            graph_id: "graph-a".to_owned(),
            node_id: "node-1".to_owned(),
            values: vec![NodeRuntimeUpdateValue::Inline {
                name: "value".to_owned(),
                value: InputValue::Float(Decimal::new(5, -1)),
            }],
        },
    );
    assert!(matches!(effect, ServerMessageEffect::Absorbed));
    assert!(caches.runtime_node_values.get("node-1").is_some());

    // An update for a graph that is not loaded changes nothing.
    let effect = apply_server_message(
        &mut caches,
        &mut subscriptions,
        Some(&document),
        None,
        ServerMessage::NodeRuntimeUpdate {
            graph_id: "graph-b".to_owned(),
            node_id: "node-2".to_owned(),
            values: Vec::new(),
        },
    );
    assert!(matches!(effect, ServerMessageEffect::Absorbed));
    assert!(caches.runtime_node_values.get("node-2").is_none());
}

#[test]
fn graph_metadata_is_handed_back() {
    let documents = vec![GraphMetadata {
        id: "graph-a".to_owned(),
        name: "Graph A".to_owned(),
        execution_frequency_hz: 30,
        home_assistant_broker_id: String::new(),
    }];
    match apply(ServerMessage::GraphMetadata { documents: documents.clone() }) {
        ServerMessageEffect::GraphMetadata(received) => assert_eq!(received, documents),
        _ => panic!("expected graph metadata"),
    }
}
