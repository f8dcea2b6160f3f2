//! Shared WebSocket protocol and transport payload types used by the frontend and backend.
//!
//! This module defines the request/response contract for the structured channel as well as the
//! compact binary frame transport used for large runtime frame updates.

use vstd::prelude::*;
use vstd::bytes::{
    lemma_auto_spec_u32_to_from_le_bytes, spec_u32_from_le_bytes, spec_u32_to_le_bytes,
    u32_from_le_bytes, u32_to_le_bytes,
};
use vstd::slice::{slice_subrange, slice_to_vec};
use vstd::utf8::{decode_utf8, encode_utf8, encode_utf8_decode_utf8, encode_utf8_valid_utf8, valid_utf8};
use crate::document::{GraphDocument, GraphMetadata};
use crate::events::{EventMessage, EventSubscription, ServerState};
use crate::exchange::{GraphExchangeFile, GraphImportCollisionPolicy, GraphImportMode};
use crate::schema::NodeDefinition;
use crate::text::{decimal_text, push_decimal};
use crate::value::{InputValue, LedLayout, LedLayoutRole, Vec3};

verus! {

/// A reusable MQTT broker configuration referenced by Home Assistant MQTT nodes.
///
/// These values are stored separately from graph documents so multiple nodes can share the same
/// broker connection details. Brokers can be marked as Home Assistant brokers so the frontend
/// and runtime can hide or ignore generic MQTT brokers where appropriate.
#[derive(Debug, Clone, PartialEq, Eq)]
pub struct MqttBrokerConfig {
    pub id: String,
    pub display_name: String,
    pub host: String,
    pub port: u16,
    pub username: String,
    pub password: String,
    pub discovery_prefix: String,
    pub is_home_assistant: bool,
}

/// Returns the default MQTT discovery prefix used for Home Assistant integration.
pub fn default_mqtt_discovery_prefix() -> (prefix: String)
    ensures
        prefix@ == "homeassistant"@,
{
    "homeassistant".to_owned()
}

/// Returns the default broker intent for persisted broker configs that do not state one.
pub fn default_home_assistant_broker() -> (home_assistant: bool)
    ensures
        home_assistant,
{
    true
}

/// Every request the frontend can send to the backend over the structured WebSocket channel.
///
/// Most variants are command or query messages. Runtime frame payloads are not sent this way;
/// those use the backend-to-frontend binary frame transport instead.
#[derive(Debug)]
pub enum ClientMessage {
    Ping,
    SetName { name: String },
    Subscribe { subscriptions: Vec<EventSubscription> },
    Unsubscribe { subscriptions: Vec<EventSubscription> },
    CreateGraphDocument { name: String },
    DeleteGraphDocument { id: String },
    GetGraphDocument { id: String },
    ExportGraphDocument { id: String },
    UpdateGraphDocument { document: GraphDocument },
    UpdateGraphName { id: String, name: String },
    ImportGraphDocument { file: GraphExchangeFile, collision_policy: GraphImportCollisionPolicy },
    UpdateGraphExecutionFrequency { id: String, execution_frequency_hz: u32 },
    GetNodeDefinitions,
    GetGraphMetadata,
    StartGraph { id: String },
    PauseGraph { id: String },
    StepGraph { id: String, ticks: u32 },
    StopGraph { id: String },
    GetRuntimeStatuses,
    SubscribeGraphRuntime { graph_id: String },
    UnsubscribeGraphRuntime { graph_id: String },
    SubscribeGraphDiagnostics { graph_id: String },
    UnsubscribeGraphDiagnostics { graph_id: String },
    SubscribeNodeDiagnostics { graph_id: String, node_id: String },
    UnsubscribeNodeDiagnostics { graph_id: String, node_id: String },
    ClearNodeDiagnostics { graph_id: String, node_id: String },
    GetWledInstances,
    GetMqttBrokerConfigs,
    UpdateMqttBrokerConfigs { brokers: Vec<MqttBrokerConfig> },
}

/// Every structured message the backend can send to the frontend.
///
/// This enum mixes direct request responses such as `GraphDocument` or `MqttBrokerConfigs`,
/// state snapshots such as `State` and `RuntimeStatuses`, and streamed updates such as `Event`
/// and `NodeRuntimeUpdate`.
#[derive(Debug)]
pub enum ServerMessage {
    Welcome { message: String },
    State(ServerState),
    Pong,
    Error { message: String },
    Event(EventMessage),
    SubscriptionState { subscriptions: Vec<EventSubscription> },
    GraphMetadata { documents: Vec<GraphMetadata> },
    NodeDefinitions { definitions: Vec<NodeDefinition> },
    GraphDocument { document: GraphDocument },
    GraphExport { file: GraphExchangeFile },
    GraphImported { document: GraphDocument, mode: GraphImportMode },
    RuntimeStatuses { graphs: Vec<GraphRuntimeStatus> },
    NodeRuntimeUpdate { graph_id: String, node_id: String, values: Vec<NodeRuntimeUpdateValue> },
    GraphDiagnosticsSummary { graph_id: String, nodes: Vec<NodeDiagnosticSummary> },
    NodeDiagnosticsDetail {
        graph_id: String,
        node_id: String,
        diagnostics: Vec<NodeDiagnosticEntry>,
    },
    WledInstances { instances: Vec<WledInstance> },
    MqttBrokerConfigs { brokers: Vec<MqttBrokerConfig> },
}

impl ServerMessage {
    /// The stable logging key of the message's variant: its name in snake case.
    pub open spec fn kind_text(&self) -> Seq<char> {
        match self {
            ServerMessage::Welcome { .. } => "welcome"@,
            ServerMessage::State(_) => "state"@,
            ServerMessage::Pong => "pong"@,
            ServerMessage::Error { .. } => "error"@,
            ServerMessage::Event(_) => "event"@,
            ServerMessage::SubscriptionState { .. } => "subscription_state"@,
            ServerMessage::GraphMetadata { .. } => "graph_metadata"@,
            ServerMessage::NodeDefinitions { .. } => "node_definitions"@,
            ServerMessage::GraphDocument { .. } => "graph_document"@,
            ServerMessage::GraphExport { .. } => "graph_export"@,
            ServerMessage::GraphImported { .. } => "graph_imported"@,
            ServerMessage::RuntimeStatuses { .. } => "runtime_statuses"@,
            ServerMessage::NodeRuntimeUpdate { .. } => "node_runtime_update"@,
            ServerMessage::GraphDiagnosticsSummary { .. } => "graph_diagnostics_summary"@,
            ServerMessage::NodeDiagnosticsDetail { .. } => "node_diagnostics_detail"@,
            ServerMessage::WledInstances { .. } => "wled_instances"@,
            ServerMessage::MqttBrokerConfigs { .. } => "mqtt_broker_configs"@,
        }
    }
}

/// Returns the stable logging key of a server message's variant.
pub fn server_message_kind(message: &ServerMessage) -> (kind: &'static str)
    ensures
        kind@ == message.kind_text(),
{
    match message {
        ServerMessage::Welcome { .. } => "welcome",
        ServerMessage::State(_) => "state",
        ServerMessage::Pong => "pong",
        ServerMessage::Error { .. } => "error",
        ServerMessage::Event(_) => "event",
        ServerMessage::SubscriptionState { .. } => "subscription_state",
        ServerMessage::GraphMetadata { .. } => "graph_metadata",
        ServerMessage::NodeDefinitions { .. } => "node_definitions",
        ServerMessage::GraphDocument { .. } => "graph_document",
        ServerMessage::GraphExport { .. } => "graph_export",
        ServerMessage::GraphImported { .. } => "graph_imported",
        ServerMessage::RuntimeStatuses { .. } => "runtime_statuses",
        ServerMessage::NodeRuntimeUpdate { .. } => "node_runtime_update",
        ServerMessage::GraphDiagnosticsSummary { .. } => "graph_diagnostics_summary",
        ServerMessage::NodeDiagnosticsDetail { .. } => "node_diagnostics_detail",
        ServerMessage::WledInstances { .. } => "wled_instances",
        ServerMessage::MqttBrokerConfigs { .. } => "mqtt_broker_configs",
    }
}

impl ClientMessage {
    /// The stable logging key of the message's variant: its name in snake case.
    pub open spec fn kind_text(&self) -> Seq<char> {
        match self {
            ClientMessage::Ping => "ping"@,
            ClientMessage::SetName { .. } => "set_name"@,
            ClientMessage::Subscribe { .. } => "subscribe"@,
            ClientMessage::Unsubscribe { .. } => "unsubscribe"@,
            ClientMessage::CreateGraphDocument { .. } => "create_graph_document"@,
            ClientMessage::DeleteGraphDocument { .. } => "delete_graph_document"@,
            ClientMessage::GetGraphDocument { .. } => "get_graph_document"@,
            ClientMessage::ExportGraphDocument { .. } => "export_graph_document"@,
            ClientMessage::UpdateGraphDocument { .. } => "update_graph_document"@,
            ClientMessage::UpdateGraphName { .. } => "update_graph_name"@,
            ClientMessage::ImportGraphDocument { .. } => "import_graph_document"@,
            ClientMessage::UpdateGraphExecutionFrequency { .. } => "update_graph_execution_frequency"@,
            ClientMessage::GetNodeDefinitions => "get_node_definitions"@,
            ClientMessage::GetGraphMetadata => "get_graph_metadata"@,
            ClientMessage::StartGraph { .. } => "start_graph"@,
            ClientMessage::PauseGraph { .. } => "pause_graph"@,
            ClientMessage::StepGraph { .. } => "step_graph"@,
            ClientMessage::StopGraph { .. } => "stop_graph"@,
            ClientMessage::GetRuntimeStatuses => "get_runtime_statuses"@,
            ClientMessage::SubscribeGraphRuntime { .. } => "subscribe_graph_runtime"@,
            ClientMessage::UnsubscribeGraphRuntime { .. } => "unsubscribe_graph_runtime"@,
            ClientMessage::SubscribeGraphDiagnostics { .. } => "subscribe_graph_diagnostics"@,
            ClientMessage::UnsubscribeGraphDiagnostics { .. } => "unsubscribe_graph_diagnostics"@,
            ClientMessage::SubscribeNodeDiagnostics { .. } => "subscribe_node_diagnostics"@,
            ClientMessage::UnsubscribeNodeDiagnostics { .. } => "unsubscribe_node_diagnostics"@,
            ClientMessage::ClearNodeDiagnostics { .. } => "clear_node_diagnostics"@,
            ClientMessage::GetWledInstances => "get_wled_instances"@,
            ClientMessage::GetMqttBrokerConfigs => "get_mqtt_broker_configs"@,
            ClientMessage::UpdateMqttBrokerConfigs { .. } => "update_mqtt_broker_configs"@,
        }
    }
}

/// Returns a stable logging key for an outbound client message variant.
pub fn client_message_kind(message: &ClientMessage) -> (kind: &'static str)
    ensures
        kind@ == message.kind_text(),
{
    match message {
            ClientMessage::Ping => "ping",
            ClientMessage::SetName { .. } => "set_name",
            ClientMessage::Subscribe { .. } => "subscribe",
            ClientMessage::Unsubscribe { .. } => "unsubscribe",
            ClientMessage::CreateGraphDocument { .. } => "create_graph_document",
            ClientMessage::DeleteGraphDocument { .. } => "delete_graph_document",
            ClientMessage::GetGraphDocument { .. } => "get_graph_document",
            ClientMessage::ExportGraphDocument { .. } => "export_graph_document",
            ClientMessage::UpdateGraphDocument { .. } => "update_graph_document",
            ClientMessage::UpdateGraphName { .. } => "update_graph_name",
            ClientMessage::ImportGraphDocument { .. } => "import_graph_document",
            ClientMessage::UpdateGraphExecutionFrequency { .. } => "update_graph_execution_frequency",
            ClientMessage::GetNodeDefinitions => "get_node_definitions",
            ClientMessage::GetGraphMetadata => "get_graph_metadata",
            ClientMessage::StartGraph { .. } => "start_graph",
            ClientMessage::PauseGraph { .. } => "pause_graph",
            ClientMessage::StepGraph { .. } => "step_graph",
            ClientMessage::StopGraph { .. } => "stop_graph",
            ClientMessage::GetRuntimeStatuses => "get_runtime_statuses",
            ClientMessage::SubscribeGraphRuntime { .. } => "subscribe_graph_runtime",
            ClientMessage::UnsubscribeGraphRuntime { .. } => "unsubscribe_graph_runtime",
            ClientMessage::SubscribeGraphDiagnostics { .. } => "subscribe_graph_diagnostics",
            ClientMessage::UnsubscribeGraphDiagnostics { .. } => "unsubscribe_graph_diagnostics",
            ClientMessage::SubscribeNodeDiagnostics { .. } => "subscribe_node_diagnostics",
            ClientMessage::UnsubscribeNodeDiagnostics { .. } => "unsubscribe_node_diagnostics",
            ClientMessage::ClearNodeDiagnostics { .. } => "clear_node_diagnostics",
            ClientMessage::GetWledInstances => "get_wled_instances",
            ClientMessage::GetMqttBrokerConfigs => "get_mqtt_broker_configs",
            ClientMessage::UpdateMqttBrokerConfigs { .. } => "update_mqtt_broker_configs",
    }
}

/// Orders node diagnostics by severity for summaries, UI rendering, and sorting.
#[derive(Debug, Clone, Copy, PartialEq, Eq, Structural, Hash, PartialOrd, Ord)]
pub enum NodeDiagnosticSeverity {
    Info,
    Warning,
    Error,
}

/// One diagnostic emitted by a node during construction or evaluation.
///
/// The optional `code` is intended to be stable enough for UI grouping and user-dismissal logic,
/// while `message` remains the human-readable explanation.
#[derive(Debug, Clone, PartialEq, Eq, Hash)]
pub struct NodeDiagnostic {
    pub severity: NodeDiagnosticSeverity,
    pub code: Option<String>,
    pub message: String,
}

/// Summarizes the active diagnostic state of one node without including full messages.
#[derive(Debug, Clone, PartialEq, Eq)]
pub struct NodeDiagnosticSummary {
    pub node_id: String,
    pub highest_severity: NodeDiagnosticSeverity,
    pub active_count: usize,
}

/// One aggregated diagnostic entry shown in a node detail view.
///
/// Repeated diagnostics are merged by the backend and counted in `occurrences`.
#[derive(Debug, Clone, PartialEq, Eq)]
pub struct NodeDiagnosticEntry {
    pub severity: NodeDiagnosticSeverity,
    pub code: Option<String>,
    pub message: String,
    pub occurrences: u32,
}

/// One named runtime value before transport encoding choices are applied.
#[derive(Debug, Clone, PartialEq)]
pub struct NodeRuntimeValue {
    pub name: String,
    pub value: InputValue,
}

/// Whether a graph runtime task is actively ticking or paused.
#[derive(Debug, Clone, Copy, PartialEq, Eq, Structural, Hash)]
pub enum GraphRuntimeMode {
    Running,
    Paused,
}

/// The current runtime mode of a single graph.
#[derive(Debug, Clone, PartialEq, Eq)]
pub struct GraphRuntimeStatus {
    pub graph_id: String,
    pub mode: GraphRuntimeMode,
}

/// A runtime update prepared for structured WebSocket transport.
///
/// Large frame payloads may bypass this enum entirely and travel as
/// `BinaryRuntimeFrameMessage`s.
#[derive(Debug, Clone, PartialEq)]
pub enum NodeRuntimeUpdateValue {
    Inline { name: String, value: InputValue },
}

/// A discovered WLED instance shown in the frontend and used by runtime nodes.
#[derive(Debug, Clone, PartialEq, Eq)]
pub struct WledInstance {
    pub id: String,
    pub name: String,
    pub host: String,
    pub led_count: Option<usize>,
}

// ---------------------------------------------------------------------------------------------
// Binary frame transport
// ---------------------------------------------------------------------------------------------

/// Current version of the binary frame message format.
pub const BINARY_FRAME_VERSION: u8 = 1;

/// Message kind tag for binary runtime frame updates.
pub const BINARY_FRAME_KIND_RUNTIME_UPDATE: u8 = 1;

/// The magic bytes that open every binary frame packet: `AFB1`.
pub open spec fn frame_magic() -> Seq<u8> {
    seq![65u8, 70u8, 66u8, 49u8]
}

/// The size of the fixed packet header: magic, version, kind and seven 32-bit fields.
pub open spec fn frame_header_len() -> int {
    34
}

/// A frame runtime update encoded in a compact binary format.
///
/// This format exists so large `ColorFrame` updates do not need to travel through the JSON
/// protocol path, while still round-tripping back into the same logical `ServerMessage` shape.
#[derive(Debug, Clone, PartialEq)]
pub struct BinaryRuntimeFrameMessage {
    pub graph_id: String,
    pub node_id: String,
    pub name: String,
    pub layout: LedLayout,
    pub rgba: Vec<u8>,
}

/// A binary frame message with its texts as characters.
#[verifier::ext_equal]
pub struct FrameView {
    pub graph_id: Seq<char>,
    pub node_id: Seq<char>,
    pub name: Seq<char>,
    pub layout_id: Seq<char>,
    pub role: LedLayoutRole,
    pub pixel_count: usize,
    pub width: Option<usize>,
    pub height: Option<usize>,
    pub points: Option<Seq<Vec3>>,
    pub rgba: Seq<u8>,
}

impl View for BinaryRuntimeFrameMessage {
    type V = FrameView;

    open spec fn view(&self) -> FrameView {
        FrameView {
            graph_id: self.graph_id@,
            node_id: self.node_id@,
            name: self.name@,
            layout_id: self.layout.id@,
            role: self.layout.role,
            pixel_count: self.layout.pixel_count,
            width: self.layout.width,
            height: self.layout.height,
            points: match self.layout.points_3d {
                Some(points) => Some(points@),
                None => None,
            },
            rgba: self.rgba@,
        }
    }
}

/// A 32-bit little-endian field holding `value` truncated to 32 bits.
pub open spec fn u32_field(value: usize) -> Seq<u8> {
    spec_u32_to_le_bytes(value as u32)
}

/// The wire form of a frame message: magic, version, kind, the byte lengths of the four texts,
/// width and height (`0` when absent), pixel count, then the four texts as UTF-8 and the RGBA
/// payload. Values wider than 32 bits are truncated.
pub open spec fn frame_bytes(message: FrameView) -> Seq<u8> {
    let graph_id = encode_utf8(message.graph_id);
    let node_id = encode_utf8(message.node_id);
    let name = encode_utf8(message.name);
    let layout_id = encode_utf8(message.layout_id);
    frame_magic() + seq![BINARY_FRAME_VERSION, BINARY_FRAME_KIND_RUNTIME_UPDATE]
        + u32_field(graph_id.len() as usize) + u32_field(node_id.len() as usize)
        + u32_field(name.len() as usize) + u32_field(layout_id.len() as usize)
        + u32_field(match message.width {
        Some(w) => w,
        None => 0,
    }) + u32_field(match message.height {
        Some(h) => h,
        None => 0,
    }) + u32_field(message.pixel_count) + graph_id + node_id + name + layout_id + message.rgba
}

/// The 32-bit little-endian value at byte `at`.
pub open spec fn u32_at(bytes: Seq<u8>, at: int) -> u32 {
    spec_u32_from_le_bytes(bytes.subrange(at, at + 4))
}

/// Why the text field of `len` bytes at `at` cannot be read, if it cannot.
pub open spec fn field_problem(bytes: Seq<u8>, at: int, len: int, field: Seq<char>) -> Option<
    Seq<char>,
> {
    if at + len > bytes.len() {
        Some("binary frame packet truncated while reading "@ + field)
    } else if !valid_utf8(bytes.subrange(at, at + len)) {
        Some("binary frame packet "@ + field + " was not valid utf-8"@)
    } else {
        None
    }
}

/// The text of the field of `len` bytes at `at`.
pub open spec fn field_text(bytes: Seq<u8>, at: int, len: int) -> Seq<char> {
    decode_utf8(bytes.subrange(at, at + len))
}

/// `value * 4`, saturated at `usize::MAX`.
pub open spec fn saturating_times_four(value: int) -> int {
    if value * 4 > usize::MAX {
        usize::MAX as int
    } else {
        value * 4
    }
}

/// The outcome of decoding the packet after its header, once the four texts can be read.
pub open spec fn frame_payload(bytes: Seq<u8>, end_of_texts: int) -> Result<Seq<u8>, Seq<char>> {
    let rgba = bytes.subrange(end_of_texts, bytes.len() as int);
    let pixel_count = u32_at(bytes, 30);
    if rgba.len() != saturating_times_four(pixel_count as int) {
        Err(
            "binary frame rgba payload length "@ + decimal_text(rgba.len()) + " does not match pixel_count "@
                + decimal_text(pixel_count as nat),
        )
    } else {
        Ok(rgba)
    }
}

/// A nonzero dimension, or none for `0`.
pub open spec fn dimension(value: u32) -> Option<usize> {
    if value == 0 {
        None
    } else {
        Some(value as usize)
    }
}

/// The outcome of decoding a binary frame packet: the message, or the message of the first
/// problem met, checking length, magic, version, kind, each text field in order, then the
/// payload length.
pub open spec fn frame_decode(bytes: Seq<u8>) -> Result<FrameView, Seq<char>> {
    if bytes.len() < frame_header_len() {
        Err("binary frame packet too short"@)
    } else if bytes.subrange(0, 4) != frame_magic() {
        Err("binary frame packet magic mismatch"@)
    } else if bytes[4] != BINARY_FRAME_VERSION {
        Err("binary frame packet version "@ + decimal_text(bytes[4] as nat) + " unsupported"@)
    } else if bytes[5] != BINARY_FRAME_KIND_RUNTIME_UPDATE {
        Err("binary frame packet kind "@ + decimal_text(bytes[5] as nat) + " unsupported"@)
    } else {
        let g = u32_at(bytes, 6) as int;
        let n = u32_at(bytes, 10) as int;
        let m = u32_at(bytes, 14) as int;
        let l = u32_at(bytes, 18) as int;
        let o1 = frame_header_len();
        let o2 = o1 + g;
        let o3 = o2 + n;
        let o4 = o3 + m;
        let o5 = o4 + l;
        match field_problem(bytes, o1, g, "graph_id"@) {
            Some(problem) => Err(problem),
            None => match field_problem(bytes, o2, n, "node_id"@) {
                Some(problem) => Err(problem),
                None => match field_problem(bytes, o3, m, "name"@) {
                    Some(problem) => Err(problem),
                    None => match field_problem(bytes, o4, l, "layout_id"@) {
                        Some(problem) => Err(problem),
                        None => match frame_payload(bytes, o5) {
                            Err(problem) => Err(problem),
                            Ok(rgba) => Ok(
                                FrameView {
                                    graph_id: field_text(bytes, o1, g),
                                    node_id: field_text(bytes, o2, n),
                                    name: field_text(bytes, o3, m),
                                    layout_id: field_text(bytes, o4, l),
                                    role: LedLayoutRole::RenderTarget,
                                    pixel_count: u32_at(bytes, 30) as usize,
                                    width: dimension(u32_at(bytes, 22)),
                                    height: dimension(u32_at(bytes, 26)),
                                    points: None,
                                    rgba,
                                },
                            ),
                        },
                    },
                },
            },
        }
    }
}

/// The declared `std::string::FromUtf8Error`, the error of `String::from_utf8`.
#[verifier::external_type_specification]
#[verifier::external_body]
pub struct ExFromUtf8Error(std::string::FromUtf8Error);

/// Builds a string from bytes with std's `String::from_utf8`.
///
/// Trusted: `String::from_utf8` succeeds exactly on well-formed UTF-8 (no overlong forms, no
/// surrogates, nothing above U+10FFFF), and then holds the characters the bytes encode.
#[verifier::external_body]
pub(crate) fn string_from_utf8(bytes: Vec<u8>) -> (result: Result<String, std::string::FromUtf8Error>)
    ensures
        match result {
            Ok(text) => valid_utf8(bytes@) && text@ == decode_utf8(bytes@),
            Err(_) => !valid_utf8(bytes@),
        },
{
    String::from_utf8(bytes)
}

fn append_bytes(bytes: &mut Vec<u8>, more: &[u8])
    ensures
        final(bytes)@ == old(bytes)@ + more@,
{
    let ghost start = bytes@;
    let mut i: usize = 0;
    while i < more.len()
        invariant
            i <= more@.len(),
            bytes@ == start + more@.subrange(0, i as int),
        decreases more@.len() - i,
    {
        bytes.push(more[i]);
        assert(bytes@ =~= start + more@.subrange(0, i + 1));
        i = i + 1;
    }
    assert(more@.subrange(0, i as int) =~= more@);
}

/// Appends a little-endian `u32` field to a binary frame payload, truncating wider values.
fn push_u32(bytes: &mut Vec<u8>, value: usize)
    ensures
        final(bytes)@ == old(bytes)@ + u32_field(value),
{
    let field = u32_to_le_bytes(value as u32);
    append_bytes(bytes, field.as_slice());
}

/// Reads a little-endian `u32` field from a binary frame payload and advances the cursor.
fn read_u32(bytes: &[u8], offset: &mut usize) -> (result: Result<u32, String>)
    ensures
        *old(offset) + 4 <= bytes@.len() ==> result == Ok::<u32, String>(u32_at(bytes@, *old(offset) as int))
            && *final(offset) == *old(offset) + 4,
        *old(offset) + 4 > bytes@.len() ==> (result matches Err(message) && message@
            == "binary frame packet truncated while reading u32"@ && *final(offset) == *old(offset)),
{
    if bytes.len() < 4 || *offset > bytes.len() - 4 {
        return Err("binary frame packet truncated while reading u32".to_owned());
    }
    let end = *offset + 4;
    let chunk = slice_subrange(bytes, *offset, end);
    *offset = end;
    Ok(u32_from_le_bytes(chunk))
}

/// Reads a UTF-8 string field of the given byte length from a binary frame payload.
fn read_utf8(bytes: &[u8], offset: &mut usize, len: usize, field: &str) -> (result: Result<
    String,
    String,
>)
    ensures
        match field_problem(bytes@, *old(offset) as int, len as int, field@) {
            Some(problem) => result matches Err(message) && message@ == problem,
            None => result matches Ok(text) && text@ == field_text(
                bytes@,
                *old(offset) as int,
                len as int,
            ) && *final(offset) == *old(offset) + len,
        },
{
    if len > bytes.len() || *offset > bytes.len() - len {
        let mut message = "binary frame packet truncated while reading ".to_owned();
        message.append(field);
        return Err(message);
    }
    let end = *offset + len;
    let chunk = slice_subrange(bytes, *offset, end);
    *offset = end;
    match string_from_utf8(slice_to_vec(chunk)) {
        Ok(text) => Ok(text),
        Err(_) => {
            let mut message = "binary frame packet ".to_owned();
            message.append(field);
            message.append(" was not valid utf-8");
            Err(message)
        },
    }
}

fn problem_with_number(prefix: &str, number: u64, suffix: &str) -> (message: String)
    ensures
        message@ == prefix@ + decimal_text(number as nat) + suffix@,
{
    let mut message = prefix.to_owned();
    push_decimal(&mut message, number);
    message.append(suffix);
    message
}

impl BinaryRuntimeFrameMessage {
    /// Encodes the message into the shared binary frame wire format.
    pub fn encode(&self) -> (bytes: Vec<u8>)
        ensures
            bytes@ == frame_bytes(self@),
    {
        let graph_id = self.graph_id.as_str().as_bytes();
        let node_id = self.node_id.as_str().as_bytes();
        let name = self.name.as_str().as_bytes();
        let layout_id = self.layout.id.as_str().as_bytes();
        let mut bytes: Vec<u8> = Vec::new();
        bytes.push(65);
        bytes.push(70);
        bytes.push(66);
        bytes.push(49);
        bytes.push(BINARY_FRAME_VERSION);
        bytes.push(BINARY_FRAME_KIND_RUNTIME_UPDATE);
        assert(bytes@ =~= frame_magic() + seq![BINARY_FRAME_VERSION, BINARY_FRAME_KIND_RUNTIME_UPDATE]);
        push_u32(&mut bytes, graph_id.len());
        push_u32(&mut bytes, node_id.len());
        push_u32(&mut bytes, name.len());
        push_u32(&mut bytes, layout_id.len());
        push_u32(
            &mut bytes,
            match self.layout.width {
                Some(w) => w,
                None => 0,
            },
        );
        push_u32(
            &mut bytes,
            match self.layout.height {
                Some(h) => h,
                None => 0,
            },
        );
        push_u32(&mut bytes, self.layout.pixel_count);
        append_bytes(&mut bytes, graph_id);
        append_bytes(&mut bytes, node_id);
        append_bytes(&mut bytes, name);
        append_bytes(&mut bytes, layout_id);
        append_bytes(&mut bytes, self.rgba.as_slice());
        bytes
    }

    /// Decodes a binary frame message from its wire representation.
    ///
    /// This validates the format magic, version, kind, declared lengths, and RGBA payload size.
    pub fn decode(bytes: &[u8]) -> (result: Result<BinaryRuntimeFrameMessage, String>)
        ensures
            match frame_decode(bytes@) {
                Ok(view) => result matches Ok(message) && message@ == view,
                Err(problem) => result matches Err(message) && message@ == problem,
            },
    {
        if bytes.len() < 34 {
            return Err("binary frame packet too short".to_owned());
        }
        if !(bytes[0] == 65 && bytes[1] == 70 && bytes[2] == 66 && bytes[3] == 49) {
            proof {
                if bytes@.subrange(0, 4) == frame_magic() {
                    assert(bytes@[0] == bytes@.subrange(0, 4)[0]);
                    assert(bytes@[1] == bytes@.subrange(0, 4)[1]);
                    assert(bytes@[2] == bytes@.subrange(0, 4)[2]);
                    assert(bytes@[3] == bytes@.subrange(0, 4)[3]);
                }
            }
            return Err("binary frame packet magic mismatch".to_owned());
        }
        assert(bytes@.subrange(0, 4) =~= frame_magic());
        if bytes[4] != BINARY_FRAME_VERSION {
            return Err(
                problem_with_number("binary frame packet version ", bytes[4] as u64, " unsupported"),
            );
        }
        if bytes[5] != BINARY_FRAME_KIND_RUNTIME_UPDATE {
            return Err(
                problem_with_number("binary frame packet kind ", bytes[5] as u64, " unsupported"),
            );
        }
        let mut offset: usize = 6;
        let graph_id_len = match read_u32(bytes, &mut offset) {
            Ok(value) => value as usize,
            Err(message) => return Err(message),
        };
        let node_id_len = match read_u32(bytes, &mut offset) {
            Ok(value) => value as usize,
            Err(message) => return Err(message),
        };
        let name_len = match read_u32(bytes, &mut offset) {
            Ok(value) => value as usize,
            Err(message) => return Err(message),
        };
        let layout_id_len = match read_u32(bytes, &mut offset) {
            Ok(value) => value as usize,
            Err(message) => return Err(message),
        };
        let width = match read_u32(bytes, &mut offset) {
            Ok(value) => value,
            Err(message) => return Err(message),
        };
        let height = match read_u32(bytes, &mut offset) {
            Ok(value) => value,
            Err(message) => return Err(message),
        };
        let pixel_count = match read_u32(bytes, &mut offset) {
            Ok(value) => value as usize,
            Err(message) => return Err(message),
        };
        let graph_id = match read_utf8(bytes, &mut offset, graph_id_len, "graph_id") {
            Ok(text) => text,
            Err(message) => return Err(message),
        };
        let node_id = match read_utf8(bytes, &mut offset, node_id_len, "node_id") {
            Ok(text) => text,
            Err(message) => return Err(message),
        };
        let name = match read_utf8(bytes, &mut offset, name_len, "name") {
            Ok(text) => text,
            Err(message) => return Err(message),
        };
        let layout_id = match read_utf8(bytes, &mut offset, layout_id_len, "layout_id") {
            Ok(text) => text,
            Err(message) => return Err(message),
        };
        let rgba = slice_to_vec(slice_subrange(bytes, offset, bytes.len()));
        let expected: usize = if pixel_count > usize::MAX / 4 {
            usize::MAX
        } else {
            pixel_count * 4
        };
        if rgba.len() != expected {
            let mut message = problem_with_number(
                "binary frame rgba payload length ",
                rgba.len() as u64,
                " does not match pixel_count ",
            );
            push_decimal(&mut message, pixel_count as u64);
            return Err(message);
        }
        Ok(
            BinaryRuntimeFrameMessage {
                graph_id,
                node_id,
                name,
                layout: LedLayout {
                    id: layout_id,
                    role: LedLayoutRole::RenderTarget,
                    pixel_count,
                    width: if width == 0 {
                        None
                    } else {
                        Some(width as usize)
                    },
                    height: if height == 0 {
                        None
                    } else {
                        Some(height as usize)
                    },
                    points_3d: None,
                },
                rgba,
            },
        )
    }
}

proof fn lemma_concat_prefix(p: Seq<u8>, q: Seq<u8>, i: int, j: int)
    requires
        0 <= i <= j <= p.len(),
    ensures
        (p + q).subrange(i, j) == p.subrange(i, j),
{
    assert((p + q).subrange(i, j) =~= p.subrange(i, j));
}

proof fn lemma_concat_suffix(p: Seq<u8>, q: Seq<u8>)
    ensures
        (p + q).subrange(p.len() as int, (p.len() + q.len()) as int) == q,
{
    assert((p + q).subrange(p.len() as int, (p.len() + q.len()) as int) =~= q);
}

/// The 32-bit field `field` written at `at` reads back as `value`.
proof fn lemma_field_reads_back(bytes: Seq<u8>, at: int, value: usize)
    requires
        0 <= at,
        at + 4 <= bytes.len(),
        bytes.subrange(at, at + 4) == u32_field(value),
    ensures
        u32_at(bytes, at) == value as u32,
{
    lemma_auto_spec_u32_to_from_le_bytes();
    assert(spec_u32_to_le_bytes(value as u32).len() == 4);
}

proof fn lemma_u32_field_len(value: usize)
    ensures
        u32_field(value).len() == 4,
{
    lemma_auto_spec_u32_to_from_le_bytes();
    assert(spec_u32_to_le_bytes(value as u32).len() == 4);
}

/// The header fields of an encoded frame, and where its texts and payload lie.
proof fn lemma_frame_layout(message: FrameView)
    ensures
        frame_bytes(message).len() >= frame_header_len(),
        frame_bytes(message).subrange(0, 4) == frame_magic(),
        frame_bytes(message)[4] == BINARY_FRAME_VERSION,
        frame_bytes(message)[5] == BINARY_FRAME_KIND_RUNTIME_UPDATE,
        u32_at(frame_bytes(message), 6) == (encode_utf8(message.graph_id).len() as usize) as u32,
        u32_at(frame_bytes(message), 10) == (encode_utf8(message.node_id).len() as usize) as u32,
        u32_at(frame_bytes(message), 14) == (encode_utf8(message.name).len() as usize) as u32,
        u32_at(frame_bytes(message), 18) == (encode_utf8(message.layout_id).len() as usize) as u32,
        u32_at(frame_bytes(message), 22) == (match message.width {
            Some(w) => w,
            None => 0,
        }) as u32,
        u32_at(frame_bytes(message), 26) == (match message.height {
            Some(h) => h,
            None => 0,
        }) as u32,
        u32_at(frame_bytes(message), 30) == message.pixel_count as u32,
{
    let gid = encode_utf8(message.graph_id);
    let nid = encode_utf8(message.node_id);
    let nm = encode_utf8(message.name);
    let lid = encode_utf8(message.layout_id);
    let w: usize = match message.width {
        Some(w) => w,
        None => 0,
    };
    let h: usize = match message.height {
        Some(h) => h,
        None => 0,
    };
    lemma_u32_field_len(gid.len() as usize);
    lemma_u32_field_len(nid.len() as usize);
    lemma_u32_field_len(nm.len() as usize);
    lemma_u32_field_len(lid.len() as usize);
    lemma_u32_field_len(w);
    lemma_u32_field_len(h);
    lemma_u32_field_len(message.pixel_count);
    let h0 = frame_magic() + seq![BINARY_FRAME_VERSION, BINARY_FRAME_KIND_RUNTIME_UPDATE];
    let h1 = h0 + u32_field(gid.len() as usize);
    let h2 = h1 + u32_field(nid.len() as usize);
    let h3 = h2 + u32_field(nm.len() as usize);
    let h4 = h3 + u32_field(lid.len() as usize);
    let h5 = h4 + u32_field(w);
    let h6 = h5 + u32_field(h);
    let h7 = h6 + u32_field(message.pixel_count);
    let tail = gid + nid + nm + lid + message.rgba;
    let bytes = frame_bytes(message);
    assert(bytes =~= h7 + tail);
    assert(h7.len() == 34);
    lemma_concat_prefix(h7, tail, 0, 34);
    assert(h7.subrange(0, 34) =~= h7);
    assert(bytes[4] == h7[4]);
    assert(bytes[5] == h7[5]);
    assert(bytes.subrange(0, 4) =~= frame_magic());
    // each field lies at the end of its header prefix
    lemma_concat_suffix(h6, u32_field(message.pixel_count));
    lemma_concat_suffix(h5, u32_field(h));
    lemma_concat_prefix(h6, u32_field(message.pixel_count), 26, 30);
    lemma_concat_suffix(h4, u32_field(w));
    lemma_concat_prefix(h5, u32_field(h), 22, 26);
    lemma_concat_prefix(h6, u32_field(message.pixel_count), 22, 26);
    lemma_concat_suffix(h3, u32_field(lid.len() as usize));
    lemma_concat_prefix(h4, u32_field(w), 18, 22);
    lemma_concat_prefix(h5, u32_field(h), 18, 22);
    lemma_concat_prefix(h6, u32_field(message.pixel_count), 18, 22);
    lemma_concat_suffix(h2, u32_field(nm.len() as usize));
    lemma_concat_prefix(h3, u32_field(lid.len() as usize), 14, 18);
    lemma_concat_prefix(h4, u32_field(w), 14, 18);
    lemma_concat_prefix(h5, u32_field(h), 14, 18);
    lemma_concat_prefix(h6, u32_field(message.pixel_count), 14, 18);
    lemma_concat_suffix(h1, u32_field(nid.len() as usize));
    lemma_concat_prefix(h2, u32_field(nm.len() as usize), 10, 14);
    lemma_concat_prefix(h3, u32_field(lid.len() as usize), 10, 14);
    lemma_concat_prefix(h4, u32_field(w), 10, 14);
    lemma_concat_prefix(h5, u32_field(h), 10, 14);
    lemma_concat_prefix(h6, u32_field(message.pixel_count), 10, 14);
    lemma_concat_suffix(h0, u32_field(gid.len() as usize));
    lemma_concat_prefix(h1, u32_field(nid.len() as usize), 6, 10);
    lemma_concat_prefix(h2, u32_field(nm.len() as usize), 6, 10);
    lemma_concat_prefix(h3, u32_field(lid.len() as usize), 6, 10);
    lemma_concat_prefix(h4, u32_field(w), 6, 10);
    lemma_concat_prefix(h5, u32_field(h), 6, 10);
    lemma_concat_prefix(h6, u32_field(message.pixel_count), 6, 10);
    lemma_concat_prefix(h7, tail, 6, 10);
    lemma_concat_prefix(h7, tail, 10, 14);
    lemma_concat_prefix(h7, tail, 14, 18);
    lemma_concat_prefix(h7, tail, 18, 22);
    lemma_concat_prefix(h7, tail, 22, 26);
    lemma_concat_prefix(h7, tail, 26, 30);
    lemma_concat_prefix(h7, tail, 30, 34);
    lemma_field_reads_back(bytes, 6, gid.len() as usize);
    lemma_field_reads_back(bytes, 10, nid.len() as usize);
    lemma_field_reads_back(bytes, 14, nm.len() as usize);
    lemma_field_reads_back(bytes, 18, lid.len() as usize);
    lemma_field_reads_back(bytes, 22, w);
    lemma_field_reads_back(bytes, 26, h);
    lemma_field_reads_back(bytes, 30, message.pixel_count);
}

/// Where the texts and the payload of an encoded frame lie.
proof fn lemma_frame_texts(message: FrameView)
    ensures
        ({
            let bytes = frame_bytes(message);
            let o2: int = 34int + encode_utf8(message.graph_id).len();
            let o3: int = o2 + encode_utf8(message.node_id).len();
            let o4: int = o3 + encode_utf8(message.name).len();
            let o5: int = o4 + encode_utf8(message.layout_id).len();
            &&& bytes.len() == o5 + message.rgba.len()
            &&& bytes.subrange(34, o2) == encode_utf8(message.graph_id)
            &&& bytes.subrange(o2, o3) == encode_utf8(message.node_id)
            &&& bytes.subrange(o3, o4) == encode_utf8(message.name)
            &&& bytes.subrange(o4, o5) == encode_utf8(message.layout_id)
            &&& bytes.subrange(o5, bytes.len() as int) == message.rgba
        }),
{
    let gid = encode_utf8(message.graph_id);
    let nid = encode_utf8(message.node_id);
    let nm = encode_utf8(message.name);
    let lid = encode_utf8(message.layout_id);
    let w: usize = match message.width {
        Some(w) => w,
        None => 0,
    };
    let h: usize = match message.height {
        Some(h) => h,
        None => 0,
    };
    lemma_u32_field_len(gid.len() as usize);
    lemma_u32_field_len(nid.len() as usize);
    lemma_u32_field_len(nm.len() as usize);
    lemma_u32_field_len(lid.len() as usize);
    lemma_u32_field_len(w);
    lemma_u32_field_len(h);
    lemma_u32_field_len(message.pixel_count);
    let header = frame_magic() + seq![BINARY_FRAME_VERSION, BINARY_FRAME_KIND_RUNTIME_UPDATE]
        + u32_field(gid.len() as usize) + u32_field(nid.len() as usize) + u32_field(
        nm.len() as usize,
    ) + u32_field(lid.len() as usize) + u32_field(w) + u32_field(h) + u32_field(
        message.pixel_count,
    );
    assert(header.len() == 34);
    let p1 = header + gid;
    let p2 = p1 + nid;
    let p3 = p2 + nm;
    let p4 = p3 + lid;
    let bytes = frame_bytes(message);
    assert(bytes =~= p4 + message.rgba);
    lemma_concat_suffix(p4, message.rgba);
    lemma_concat_suffix(p3, lid);
    lemma_concat_prefix(p4, message.rgba, p3.len() as int, p4.len() as int);
    lemma_concat_suffix(p2, nm);
    lemma_concat_prefix(p3, lid, p2.len() as int, p3.len() as int);
    lemma_concat_prefix(p4, message.rgba, p2.len() as int, p3.len() as int);
    lemma_concat_suffix(p1, nid);
    lemma_concat_prefix(p2, nm, p1.len() as int, p2.len() as int);
    lemma_concat_prefix(p3, lid, p1.len() as int, p2.len() as int);
    lemma_concat_prefix(p4, message.rgba, p1.len() as int, p2.len() as int);
    lemma_concat_suffix(header, gid);
    lemma_concat_prefix(p1, nid, 34, p1.len() as int);
    lemma_concat_prefix(p2, nm, 34, p1.len() as int);
    lemma_concat_prefix(p3, lid, 34, p1.len() as int);
    lemma_concat_prefix(p4, message.rgba, 34, p1.len() as int);
}

/// Decoding the encoding of a frame message gives the message back, when every text length, the
/// pixel count and the dimensions fit the 32-bit wire fields, width and height are absent or
/// nonzero (the wire writes an absent one as `0`), the layout is a render target without 3D
/// points (the wire carries neither), and the payload holds four bytes per pixel.
pub proof fn lemma_frame_roundtrip(message: FrameView)
    requires
        encode_utf8(message.graph_id).len() <= u32::MAX,
        encode_utf8(message.node_id).len() <= u32::MAX,
        encode_utf8(message.name).len() <= u32::MAX,
        encode_utf8(message.layout_id).len() <= u32::MAX,
        message.pixel_count <= u32::MAX,
        message.width matches Some(w) ==> 0 < w <= u32::MAX,
        message.height matches Some(h) ==> 0 < h <= u32::MAX,
        message.role == LedLayoutRole::RenderTarget,
        message.points is None,
        message.rgba.len() == message.pixel_count * 4,
        message.pixel_count * 4 <= usize::MAX,
    ensures
        frame_decode(frame_bytes(message)) == Ok::<FrameView, Seq<char>>(message),
{
    broadcast use encode_utf8_valid_utf8, encode_utf8_decode_utf8;

    lemma_frame_layout(message);
    lemma_frame_texts(message);
    let bytes = frame_bytes(message);
    assert(dimension(u32_at(bytes, 22)) == message.width);
    assert(dimension(u32_at(bytes, 26)) == message.height);
    assert(frame_decode(bytes) =~~= Ok::<FrameView, Seq<char>>(message));
}

} // verus!
