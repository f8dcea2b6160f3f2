//! Shared event-bus message and subscription types.
//!
//! These types are lighter-weight than the main protocol and are used for status-style
//! notifications and subscription filtering.

use vstd::prelude::*;

verus! {

/// The coarse-grained backend status snapshot sent alongside other frontend updates.
///
/// It answers questions like "is the backend alive?" and "how many clients are currently
/// connected?".
#[derive(Debug, Clone, PartialEq, Eq)]
pub struct ServerState {
    pub connected_clients: usize,
    pub status: String,
}

impl Default for ServerState {
    /// Builds the default server-state snapshot used before any live status is known.
    fn default() -> (state: Self)
        ensures
            state.connected_clients == 0,
            state.status@ == "ready"@,
    {
        ServerState { connected_clients: 0, status: "ready".to_owned() }
    }
}

/// Classifies an event so clients can subscribe to broad categories of backend activity.
#[derive(Debug, Clone, Copy, PartialEq, Eq, Structural, Hash)]
pub enum EventTopic {
    Connection,
    Ping,
    Name,
    GraphMetadataChanged,
}

impl EventTopic {
    /// Lists every currently defined event topic.
    pub const ALL: [EventTopic; 4] = [
        EventTopic::Connection,
        EventTopic::Ping,
        EventTopic::Name,
        EventTopic::GraphMetadataChanged,
    ];

    /// The topic's label: the variant's name.
    pub open spec fn label_text(self) -> Seq<char> {
        match self {
            EventTopic::Connection => "Connection"@,
            EventTopic::Ping => "Ping"@,
            EventTopic::Name => "Name"@,
            EventTopic::GraphMetadataChanged => "GraphMetadataChanged"@,
        }
    }

    /// Returns a human-readable label for the topic.
    pub fn label(self) -> (label: &'static str)
        ensures
            label@ == self.label_text(),
    {
        match self {
            EventTopic::Connection => "Connection",
            EventTopic::Ping => "Ping",
            EventTopic::Name => "Name",
            EventTopic::GraphMetadataChanged => "GraphMetadataChanged",
        }
    }
}

/// One event-bus message emitted by the backend.
///
/// Event messages are lightweight status or audit-style notifications, distinct from the heavier
/// structured request/response protocol.
#[derive(Debug, Clone, PartialEq, Eq)]
pub struct EventMessage {
    pub topic: EventTopic,
    pub scope: EventScope,
    pub message: String,
}

/// The scope to which an event or subscription applies.
///
/// Broader scopes are allowed to match narrower emitted events, for example a graph subscription
/// receiving node-scoped events inside the same graph.
#[derive(Debug, Clone, PartialEq, Eq, Hash)]
pub enum EventScope {
    Global,
    Graph { graph_id: String },
    Node { graph_id: String, node_id: String },
    Element { graph_id: String, node_id: String, element_id: String },
}

/// Subscribes to one event topic within one scope.
#[derive(Debug, Clone, PartialEq, Eq, Hash)]
pub struct EventSubscription {
    pub topic: EventTopic,
    pub scope: EventScope,
}

} // verus!
