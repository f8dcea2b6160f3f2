use luma_weaver::events::{EventScope, EventSubscription, EventTopic, ServerState};
use luma_weaver::protocol::{
    client_message_kind, default_home_assistant_broker, default_mqtt_discovery_prefix,
    server_message_kind, BinaryRuntimeFrameMessage, ClientMessage, ServerMessage,
};
use luma_weaver::subscriptions::{format_subscription, format_subscriptions, selected_subscriptions};
use luma_weaver::value::{LedLayout, LedLayoutRole};

fn message(pixel_count: usize, width: Option<usize>, height: Option<usize>, rgba: Vec<u8>) -> BinaryRuntimeFrameMessage {
    BinaryRuntimeFrameMessage {
        graph_id: "graph".to_owned(),
        node_id: "node".to_owned(),
        name: "frame".to_owned(),
        layout: LedLayout {
            id: "layout".to_owned(),
            role: LedLayoutRole::RenderTarget,
            pixel_count,
            width,
            height,
            points_3d: None,
        },
        rgba,
    }
}

#[test]
fn binary_runtime_frame_message_roundtrips() {
    let message = message(2, Some(2), Some(1), vec![255, 128, 0, 255, 0, 64, 255, 128]);

    let decoded = BinaryRuntimeFrameMessage::decode(&message.encode())
        .expect("decode binary runtime frame packet");
    assert_eq!(decoded, message);
}

#[test]
fn binary_frames_have_the_documented_layout() {
    let bytes = message(1, None, Some(3), vec![1, 2, 3, 4]).encode();
    assert_eq!(&bytes[..6], b"AFB1\x01\x01");
    assert_eq!(&bytes[6..10], &5u32.to_le_bytes());
    assert_eq!(&bytes[22..26], &0u32.to_le_bytes());
    assert_eq!(&bytes[26..30], &3u32.to_le_bytes());
    assert_eq!(&bytes[30..34], &1u32.to_le_bytes());
    assert_eq!(&bytes[34..39], b"graph");
    assert_eq!(&bytes[bytes.len() - 4..], &[1, 2, 3, 4]);
    assert_eq!(bytes.len(), 34 + 5 + 4 + 5 + 6 + 4);
}

#[test]
fn binary_frame_decoding_reports_each_problem() {
    let good = message(1, Some(1), Some(1), vec![9, 9, 9, 9]).encode();
    assert_eq!(BinaryRuntimeFrameMessage::decode(&good[..10]).unwrap_err(), "binary frame packet too short");

    let mut magic = good.clone();
    magic[0] = b'X';
    assert_eq!(BinaryRuntimeFrameMessage::decode(&magic).unwrap_err(), "binary frame packet magic mismatch");

    let mut version = good.clone();
    version[4] = 7;
    assert_eq!(BinaryRuntimeFrameMessage::decode(&version).unwrap_err(), "binary frame packet version 7 unsupported");

    let mut kind = good.clone();
    kind[5] = 42;
    assert_eq!(BinaryRuntimeFrameMessage::decode(&kind).unwrap_err(), "binary frame packet kind 42 unsupported");

    let truncated = &good[..36];
    assert_eq!(
        BinaryRuntimeFrameMessage::decode(truncated).unwrap_err(),
        "binary frame packet truncated while reading graph_id"
    );

    let mut invalid = good.clone();
    invalid[34] = 0xFF;
    assert_eq!(
        BinaryRuntimeFrameMessage::decode(&invalid).unwrap_err(),
        "binary frame packet graph_id was not valid utf-8"
    );

    let mut short_payload = good.clone();
    short_payload.pop();
    assert_eq!(
        BinaryRuntimeFrameMessage::decode(&short_payload).unwrap_err(),
        "binary frame rgba payload length 3 does not match pixel_count 1"
    );
}

#[test]
fn decoded_frames_read_zero_dimensions_as_absent() {
    let sent = message(3, None, None, vec![0; 12]);
    let decoded = BinaryRuntimeFrameMessage::decode(&sent.encode()).expect("decode");
    assert_eq!(decoded.layout.width, None);
    assert_eq!(decoded.layout.height, None);
    assert_eq!(decoded.layout.pixel_count, 3);
    assert_eq!(decoded.rgba.len(), 12);
}

#[test]
fn multibyte_texts_round_trip() {
    let mut sent = message(0, Some(4), Some(2), vec![]);
    sent.name = "frame-ü-€-𝄞".to_owned();
    let decoded = BinaryRuntimeFrameMessage::decode(&sent.encode()).expect("decode");
    assert_eq!(decoded, sent);
}

#[test]
fn broker_defaults() {
    assert_eq!(default_mqtt_discovery_prefix(), "homeassistant");
    assert!(default_home_assistant_broker());
}

#[test]
fn client_message_kinds_are_snake_case_variant_names() {
    assert_eq!(client_message_kind(&ClientMessage::Ping), "ping");
    assert_eq!(
        client_message_kind(&ClientMessage::UpdateGraphExecutionFrequency {
            id: "g".to_owned(),
            execution_frequency_hz: 30,
        }),
        "update_graph_execution_frequency"
    );
    assert_eq!(
        client_message_kind(&ClientMessage::StepGraph { id: "g".to_owned(), ticks: 1 }),
        "step_graph"
    );
}

#[test]
fn server_state_defaults_to_ready() {
    let state = ServerState::default();
    assert_eq!(state.connected_clients, 0);
    assert_eq!(state.status, "ready");
}

#[test]
fn topic_labels_match_variant_names() {
    let labels: Vec<&str> = EventTopic::ALL.iter().map(|topic| topic.label()).collect();
    assert_eq!(labels, vec!["Connection", "Ping", "Name", "GraphMetadataChanged"]);
}

#[test]
fn subscriptions_format_as_topic_at_scope() {
    let subscriptions = vec![
        EventSubscription { topic: EventTopic::Ping, scope: EventScope::Global },
        EventSubscription {
            topic: EventTopic::Name,
            scope: EventScope::Graph { graph_id: "g".to_owned() },
        },
        EventSubscription {
            topic: EventTopic::Connection,
            scope: EventScope::Node { graph_id: "g".to_owned(), node_id: "n".to_owned() },
        },
        EventSubscription {
            topic: EventTopic::GraphMetadataChanged,
            scope: EventScope::Element {
                graph_id: "g".to_owned(),
                node_id: "n".to_owned(),
                element_id: "e".to_owned(),
            },
        },
    ];
    assert_eq!(format_subscription(&subscriptions[1]), "Name@graph:g");
    assert_eq!(
        format_subscriptions(&subscriptions),
        "Ping@global, Name@graph:g, Connection@node:g/n, GraphMetadataChanged@element:g/n/e"
    );
    assert_eq!(format_subscriptions(&[]), "none");
}

#[test]
fn selected_subscriptions_cover_each_topic_and_scope() {
    let subscriptions = selected_subscriptions(true, false, true, false, Some("g".to_owned()));
    assert_eq!(
        format_subscriptions(&subscriptions),
        "Connection@global, Connection@graph:g, Name@global, Name@graph:g"
    );
    let global_only = selected_subscriptions(false, true, false, true, None);
    assert_eq!(format_subscriptions(&global_only), "Ping@global, GraphMetadataChanged@global");
    assert!(selected_subscriptions(false, false, false, false, Some("g".to_owned())).is_empty());
}

#[test]
fn server_messages_have_snake_case_logging_keys() {
    assert_eq!(server_message_kind(&ServerMessage::Pong), "pong");
    let summary = ServerMessage::GraphDiagnosticsSummary { graph_id: "g".to_owned(), nodes: Vec::new() };
    assert_eq!(server_message_kind(&summary), "graph_diagnostics_summary");
}
