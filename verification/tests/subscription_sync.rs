use luma_weaver::events::{EventScope, EventSubscription, EventTopic};
use luma_weaver::keyed::KeyedList;
use luma_weaver::navigation::AppView;
use luma_weaver::protocol::ClientMessage;
use luma_weaver::session::GraphRuntimeCaches;
use luma_weaver::subscriptions::{selected_subscriptions, SubscriptionState};
use luma_weaver::value::{Decimal, InputValue};

fn fresh_state() -> SubscriptionState {
    SubscriptionState {
        active_event_subscriptions: Vec::new(),
        initialized: false,
        metadata_requested_once: false,
        node_definitions_requested_once: false,
        running_graphs_requested_once: false,
        wled_instances_requested_once: false,
        mqtt_brokers_requested_once: false,
        runtime_graph_subscription: None,
        diagnostics_graph_subscription: None,
        diagnostics_node_subscription: None,
    }
}

fn kinds(requests: &[ClientMessage]) -> Vec<&'static str> {
    requests
        .iter()
        .map(|request| match request {
            ClientMessage::Subscribe { .. } => "subscribe",
            ClientMessage::Unsubscribe { .. } => "unsubscribe",
            ClientMessage::GetGraphMetadata => "metadata",
            ClientMessage::GetNodeDefinitions => "definitions",
            ClientMessage::GetRuntimeStatuses => "statuses",
            ClientMessage::GetWledInstances => "wled",
            ClientMessage::GetMqttBrokerConfigs => "mqtt",
            ClientMessage::SubscribeGraphRuntime { .. } => "subscribe runtime",
            ClientMessage::UnsubscribeGraphRuntime { .. } => "unsubscribe runtime",
            ClientMessage::SubscribeGraphDiagnostics { .. } => "subscribe diagnostics",
            ClientMessage::UnsubscribeGraphDiagnostics { .. } => "unsubscribe diagnostics",
            ClientMessage::SubscribeNodeDiagnostics { .. } => "subscribe node",
            ClientMessage::UnsubscribeNodeDiagnostics { .. } => "unsubscribe node",
            _ => "other",
        })
        .collect()
}

#[test]
fn first_sync_subscribes_and_requests_initial_data_once() {
    let mut state = fresh_state();
    let desired = selected_subscriptions(true, false, false, false, None);
    let requests = state.sync_event_subscriptions_and_request_initial_data(true, desired);
    assert_eq!(
        kinds(&requests),
        vec!["subscribe", "metadata", "definitions", "statuses", "wled", "mqtt"]
    );
    match &requests[0] {
        ClientMessage::Subscribe { subscriptions } => {
            assert_eq!(
                subscriptions,
                &vec![EventSubscription { topic: EventTopic::Connection, scope: EventScope::Global }]
            );
        }
        other => panic!("unexpected request {:?}", other),
    }
    let again = selected_subscriptions(true, false, false, false, None);
    assert!(state.sync_event_subscriptions_and_request_initial_data(true, again).is_empty());
}

#[test]
fn changing_the_selection_swaps_graph_subscriptions() {
    let mut state = fresh_state();
    let first = selected_subscriptions(true, false, false, false, Some("a".to_owned()));
    state.sync_event_subscriptions_and_request_initial_data(true, first);
    let second = selected_subscriptions(true, false, false, false, Some("b".to_owned()));
    let requests = state.sync_event_subscriptions_and_request_initial_data(true, second);
    assert_eq!(kinds(&requests), vec!["unsubscribe", "subscribe"]);
    match (&requests[0], &requests[1]) {
        (ClientMessage::Unsubscribe { subscriptions: removed }, ClientMessage::Subscribe { subscriptions: added }) => {
            assert_eq!(
                removed,
                &vec![EventSubscription {
                    topic: EventTopic::Connection,
                    scope: EventScope::Graph { graph_id: "a".to_owned() },
                }]
            );
            assert_eq!(
                added,
                &vec![EventSubscription {
                    topic: EventTopic::Connection,
                    scope: EventScope::Graph { graph_id: "b".to_owned() },
                }]
            );
        }
        other => panic!("unexpected requests {:?}", other),
    }
}

#[test]
fn nothing_is_sent_while_disconnected() {
    let mut state = fresh_state();
    let mut caches = GraphRuntimeCaches::new();
    let desired = selected_subscriptions(true, true, true, true, None);
    assert!(state.sync_event_subscriptions_and_request_initial_data(false, desired).is_empty());
    assert!(!state.initialized);
    assert!(state
        .ensure_runtime_updates_subscription(false, AppView::Editor, Some("a"), None, &mut caches)
        .is_empty());
    assert!(state.runtime_graph_subscription.is_none());
}

#[test]
fn editor_follows_the_selected_graph() {
    let mut state = fresh_state();
    let mut caches = GraphRuntimeCaches::new();
    let requests =
        state.ensure_runtime_updates_subscription(true, AppView::Editor, Some("a"), Some("n"), &mut caches);
    assert_eq!(kinds(&requests), vec!["subscribe runtime", "subscribe diagnostics", "subscribe node"]);
    assert_eq!(state.runtime_graph_subscription.as_deref(), Some("a"));
    assert_eq!(
        state.diagnostics_node_subscription,
        Some(("a".to_owned(), "n".to_owned()))
    );

    let mut values = KeyedList::new();
    values.insert("value".to_owned(), InputValue::Float(Decimal::new(1, 0)));
    caches.runtime_node_values.insert("n".to_owned(), values);
    assert!(state
        .ensure_runtime_updates_subscription(true, AppView::Editor, Some("a"), Some("n"), &mut caches)
        .is_empty());
    assert!(!caches.runtime_node_values.is_empty());

    caches.apply_graph_diagnostics_summary("a".to_owned(), Vec::new());
    let requests =
        state.ensure_runtime_updates_subscription(true, AppView::Dashboard, Some("a"), Some("n"), &mut caches);
    assert_eq!(
        kinds(&requests),
        vec!["unsubscribe runtime", "unsubscribe diagnostics", "unsubscribe node"]
    );
    assert!(caches.runtime_node_values.is_empty());
    assert!(caches.graph_diagnostic_summaries("a").is_none());
    assert!(state.runtime_graph_subscription.is_none());
    assert!(state.diagnostics_graph_subscription.is_none());
    assert!(state.diagnostics_node_subscription.is_none());
}

#[test]
fn switching_graphs_unsubscribes_before_subscribing() {
    let mut state = fresh_state();
    let mut caches = GraphRuntimeCaches::new();
    state.ensure_runtime_updates_subscription(true, AppView::Editor, Some("a"), None, &mut caches);
    let requests = state.ensure_runtime_updates_subscription(true, AppView::Editor, Some("b"), None, &mut caches);
    assert_eq!(
        kinds(&requests),
        vec![
            "unsubscribe runtime",
            "subscribe runtime",
            "unsubscribe diagnostics",
            "subscribe diagnostics",
        ]
    );
    match &requests[0] {
        ClientMessage::UnsubscribeGraphRuntime { graph_id } => assert_eq!(graph_id, "a"),
        other => panic!("unexpected request {:?}", other),
    }
    match &requests[1] {
        ClientMessage::SubscribeGraphRuntime { graph_id } => assert_eq!(graph_id, "b"),
        other => panic!("unexpected request {:?}", other),
    }
}

#[test]
fn a_new_connection_syncs_from_scratch() {
    let mut state = fresh_state();
    let mut caches = GraphRuntimeCaches::new();
    let desired = selected_subscriptions(true, false, false, false, None);
    state.sync_event_subscriptions_and_request_initial_data(true, desired.clone());
    state.ensure_runtime_updates_subscription(true, AppView::Editor, Some("a"), Some("n"), &mut caches);

    state.reset_sync_state();
    assert!(!state.initialized);
    assert!(state.active_event_subscriptions.is_empty());
    assert!(state.runtime_graph_subscription.is_none());
    assert!(state.diagnostics_graph_subscription.is_none());
    assert!(state.diagnostics_node_subscription.is_none());

    let requests = state.sync_event_subscriptions_and_request_initial_data(true, desired);
    assert_eq!(
        kinds(&requests),
        vec!["subscribe", "metadata", "definitions", "statuses", "wled", "mqtt"]
    );
}
