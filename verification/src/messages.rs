//! Routing a message from the server: the runtime caches and event subscriptions absorb what
//! concerns them, and the rest is handed back to the application as an effect to carry out.

use vstd::prelude::*;
use crate::document::{GraphDocument, GraphMetadata};
use crate::events::{EventMessage, ServerState};
use crate::exchange::{GraphExchangeFile, GraphImportMode};
use crate::protocol::{MqttBrokerConfig, ServerMessage, WledInstance};
use crate::schema::NodeDefinition;
use crate::session::{optional_text, GraphRuntimeCaches};
use crate::subscriptions::{format_subscriptions, subscriptions_text, SubscriptionState};

verus! {

/// What is left for the application to do with a server message once the library state has
/// absorbed its part.
pub enum ServerMessageEffect {
    /// Show this status line.
    Status(String),
    /// The save in flight, if any, failed: the graph stays dirty. Show this status line.
    SaveFailed(String),
    /// Show this line as the last event received.
    LastEvent(String),
    /// The event subscriptions were replaced: show this description of them, and the status
    /// line "Subscription state updated".
    SubscriptionsReplaced(String),
    /// Show this server state snapshot.
    ServerState(ServerState),
    /// The list of graphs changed.
    GraphMetadata(Vec<GraphMetadata>),
    /// The node catalog changed.
    NodeDefinitions(Vec<NodeDefinition>),
    /// A graph document arrived: a save acknowledgement or a document to load.
    GraphDocument(GraphDocument),
    /// A requested export arrived.
    GraphExport(GraphExchangeFile),
    /// An import was applied by the server.
    GraphImported { document: GraphDocument, mode: GraphImportMode },
    /// The known WLED instances changed.
    WledInstances(Vec<WledInstance>),
    /// The configured MQTT brokers changed.
    MqttBrokerConfigs(Vec<MqttBrokerConfig>),
    /// The runtime caches absorbed the message; nothing is left to do.
    Absorbed,
}

/// The last-event line of an event: its topic's label, a colon and a space, then its message.
pub open spec fn event_line(event: EventMessage) -> Seq<char> {
    event.topic.label_text() + ": "@ + event.message@
}

fn format_event(event: &EventMessage) -> (line: String)
    ensures
        line@ == event_line(*event),
{
    let mut line = String::from_str(event.topic.label());
    line.append(": ");
    line.append(event.message.as_str());
    line
}

/// Applies a message from the server.
///
/// Runtime statuses, runtime updates and diagnostics update the caches as the cache's own methods
/// do, given the loaded document and the selected graph; a subscription list replaces the active
/// event subscriptions; every other message changes neither and is handed back, with the status
/// line it calls for.
pub fn apply_server_message(
    caches: &mut GraphRuntimeCaches,
    subscriptions: &mut SubscriptionState,
    loaded: Option<&GraphDocument>,
    selected_graph_id: Option<&str>,
    message: ServerMessage,
) -> (effect: ServerMessageEffect)
    ensures
        match message {
            ServerMessage::SubscriptionState { subscriptions: list } => {
                &&& final(subscriptions).active_event_subscriptions@ == list@
                &&& effect matches ServerMessageEffect::SubscriptionsReplaced(text) && text@
                    == subscriptions_text(list@)
            },
            _ => *final(subscriptions) == *old(subscriptions),
        },
        match message {
            ServerMessage::RuntimeStatuses { graphs } => GraphRuntimeCaches::runtime_statuses_applied(
                *old(caches),
                *final(caches),
                optional_text(selected_graph_id),
                graphs@,
            ),
            ServerMessage::NodeRuntimeUpdate { graph_id, node_id, values } =>
                GraphRuntimeCaches::runtime_update_applied(
                *old(caches),
                *final(caches),
                loaded,
                graph_id@,
                node_id@,
                values@,
            ),
            ServerMessage::GraphDiagnosticsSummary { graph_id, nodes } =>
                GraphRuntimeCaches::diagnostics_summary_applied(
                *old(caches),
                *final(caches),
                graph_id@,
                nodes@,
            ),
            ServerMessage::NodeDiagnosticsDetail { graph_id, node_id, diagnostics } =>
                GraphRuntimeCaches::diagnostics_detail_applied(
                *old(caches),
                *final(caches),
                graph_id@,
                node_id@,
                diagnostics@,
            ),
            _ => *final(caches) == *old(caches),
        },
        match message {
            ServerMessage::Welcome { message: text } => effect matches ServerMessageEffect::Status(
                status,
            ) && status@ == text@,
            ServerMessage::State(state) => effect == ServerMessageEffect::ServerState(state),
            ServerMessage::Pong => effect matches ServerMessageEffect::Status(status) && status@
                == "Received pong"@,
            ServerMessage::Error { message: text } => effect matches ServerMessageEffect::SaveFailed(
                status,
            ) && status@ == text@,
            ServerMessage::Event(event) => effect matches ServerMessageEffect::LastEvent(line)
                && line@ == event_line(event),
            ServerMessage::SubscriptionState { .. } => effect is SubscriptionsReplaced,
            ServerMessage::GraphMetadata { documents } => effect
                == ServerMessageEffect::GraphMetadata(documents),
            ServerMessage::NodeDefinitions { definitions } => effect
                == ServerMessageEffect::NodeDefinitions(definitions),
            ServerMessage::GraphDocument { document } => effect
                == ServerMessageEffect::GraphDocument(document),
            ServerMessage::GraphExport { file } => effect == ServerMessageEffect::GraphExport(
                file,
            ),
            ServerMessage::GraphImported { document, mode } => effect
                == (ServerMessageEffect::GraphImported { document, mode }),
            ServerMessage::RuntimeStatuses { .. } => effect matches ServerMessageEffect::Status(
                status,
            ) && status@ == "Runtime statuses updated"@,
            ServerMessage::NodeRuntimeUpdate { .. } => effect is Absorbed,
            ServerMessage::GraphDiagnosticsSummary { .. } => effect is Absorbed,
            ServerMessage::NodeDiagnosticsDetail { .. } => effect is Absorbed,
            ServerMessage::WledInstances { instances } => effect
                == ServerMessageEffect::WledInstances(instances),
            ServerMessage::MqttBrokerConfigs { brokers } => effect
                == ServerMessageEffect::MqttBrokerConfigs(brokers),
        },
{
    match message {
        ServerMessage::Welcome { message } => ServerMessageEffect::Status(message),
        ServerMessage::State(state) => ServerMessageEffect::ServerState(state),
        ServerMessage::Pong => ServerMessageEffect::Status(String::from_str("Received pong")),
        ServerMessage::Error { message } => ServerMessageEffect::SaveFailed(message),
        ServerMessage::Event(event) => ServerMessageEffect::LastEvent(format_event(&event)),
        ServerMessage::SubscriptionState { subscriptions: list } => {
            let description = format_subscriptions(list.as_slice());
            subscriptions.active_event_subscriptions = list;
            ServerMessageEffect::SubscriptionsReplaced(description)
        },
        ServerMessage::GraphMetadata { documents } => ServerMessageEffect::GraphMetadata(documents),
        ServerMessage::NodeDefinitions { definitions } => ServerMessageEffect::NodeDefinitions(
            definitions,
        ),
        ServerMessage::GraphDocument { document } => ServerMessageEffect::GraphDocument(document),
        ServerMessage::GraphExport { file } => ServerMessageEffect::GraphExport(file),
        ServerMessage::GraphImported { document, mode } => ServerMessageEffect::GraphImported {
            document,
            mode,
        },
        ServerMessage::RuntimeStatuses { graphs } => {
            caches.apply_runtime_statuses(selected_graph_id, graphs);
            ServerMessageEffect::Status(String::from_str("Runtime statuses updated"))
        },
        ServerMessage::NodeRuntimeUpdate { graph_id, node_id, values } => {
            caches.apply_runtime_update(loaded, graph_id.as_str(), node_id.as_str(), values);
            ServerMessageEffect::Absorbed
        },
        ServerMessage::GraphDiagnosticsSummary { graph_id, nodes } => {
            caches.apply_graph_diagnostics_summary(graph_id, nodes);
            ServerMessageEffect::Absorbed
        },
        ServerMessage::NodeDiagnosticsDetail { graph_id, node_id, diagnostics } => {
            caches.apply_node_diagnostics_detail(graph_id, node_id, diagnostics);
            ServerMessageEffect::Absorbed
        },
        ServerMessage::WledInstances { instances } => ServerMessageEffect::WledInstances(
            instances,
        ),
        ServerMessage::MqttBrokerConfigs { brokers } => ServerMessageEffect::MqttBrokerConfigs(
            brokers,
        ),
    }
}

} // verus!
