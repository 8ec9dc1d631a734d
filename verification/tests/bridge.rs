use lyra_player::bridge::{
    crc32_hex, BridgeError, BridgeEvent, BridgeMessage, BridgeReply, FetchBridge, FetchResponse,
};
use lyra_player::registry::Registry;

fn s(v: &str) -> Option<String> {
    Some(v.to_string())
}

#[test]
fn handshake_advertises_bounded_v4_streaming() {
    let handshake = FetchBridge::new().handshake(0);
    assert_eq!(handshake.version, 4);
    assert!(handshake.ack);
    assert_eq!(handshake.ack_window, 1);
    assert_eq!(handshake.compressions[0], "none");
}

#[test]
fn chunked_response_acks_incrementally() {
    let mut bridge = FetchBridge::new();
    bridge
        .ingest(&BridgeMessage {
            tag: s("fetch"),
            id: s("x"),
            resp: Some(FetchResponse {
                ok: Some(true),
                status: Some(200),
                body: s(""),
                raw: Some(true),
                chunked: Some(true),
                total_bytes: Some(3),
                chunk_count: Some(2),
                body_encoding: s("base64"),
                compression: s("none"),
                ack: Some(true),
                ..FetchResponse::default()
            }),
            ..BridgeMessage::default()
        })
        .unwrap();
    let first = bridge
        .ingest(&BridgeMessage {
            tag: s("fetch-chunk"),
            id: s("x"),
            seq: Some(0),
            data: s("YWI="),
            ..BridgeMessage::default()
        })
        .unwrap();
    assert!(first
        .replies
        .iter()
        .any(|reply| matches!(reply, BridgeReply::FetchAck { ack: 1, .. })));
    let second = bridge
        .ingest(&BridgeMessage {
            tag: s("fetch-chunk"),
            id: s("x"),
            seq: Some(1),
            data: s("Yw=="),
            ..BridgeMessage::default()
        })
        .unwrap();
    assert_eq!(
        second.event,
        BridgeEvent::Response {
            id: "x".into(),
            status: 200,
            headers: Registry::new(),
            body: b"abc".to_vec()
        }
    );
}

#[test]
fn final_stream_frame_preserves_payload() {
    let mut bridge = FetchBridge::new();
    bridge
        .ingest(&BridgeMessage {
            tag: s("fetch"),
            id: s("s"),
            resp: Some(FetchResponse {
                ok: Some(true),
                status: Some(200),
                stream: Some(true),
                raw: Some(true),
                body_encoding: s("base64"),
                content_length: Some(3),
                ..FetchResponse::default()
            }),
            ..BridgeMessage::default()
        })
        .unwrap();
    let event = bridge
        .ingest(&BridgeMessage {
            tag: s("fetch-stream"),
            id: s("s"),
            seq: Some(0),
            data: s("YWJj"),
            crc32: s("352441c2"),
            final_frame: Some(true),
            total_bytes: Some(3),
            ..BridgeMessage::default()
        })
        .unwrap()
        .event;
    assert_eq!(
        event,
        BridgeEvent::StreamEnded { id: "s".into(), total_bytes: 3, bytes: b"abc".to_vec() }
    );
}

#[test]
fn chunked_response_preserves_headers_and_rejects_huge_allocations() {
    let mut bridge = FetchBridge::new();
    bridge
        .ingest(&BridgeMessage {
            tag: s("fetch"),
            id: s("x"),
            resp: Some(FetchResponse {
                ok: Some(true),
                status: Some(200),
                headers: vec![(
                    "Set-Cookie".to_string(),
                    s("sid=x; Expires=Wed, 21 Oct 2015 07:28:00 GMT"),
                )],
                raw: Some(true),
                chunked: Some(true),
                total_bytes: Some(3),
                chunk_count: Some(1),
                body_encoding: s("base64"),
                compression: s("none"),
                ..FetchResponse::default()
            }),
            ..BridgeMessage::default()
        })
        .unwrap();
    let result = bridge
        .ingest(&BridgeMessage {
            tag: s("fetch-chunk"),
            id: s("x"),
            seq: Some(0),
            data: s("YWJj"),
            ..BridgeMessage::default()
        })
        .unwrap();
    let BridgeEvent::Response { headers, .. } = result.event else {
        panic!("expected response");
    };
    assert!(headers.get("set-cookie").unwrap().starts_with("sid=x"));
    assert_eq!(
        bridge.ingest(&BridgeMessage {
            tag: s("fetch"),
            id: s("huge"),
            resp: Some(FetchResponse {
                ok: Some(true),
                status: Some(200),
                chunked: Some(true),
                total_bytes: Some(999999999),
                chunk_count: Some(999999999),
                ..FetchResponse::default()
            }),
            ..BridgeMessage::default()
        }),
        Err(BridgeError::Length)
    );
}

#[test]
fn crc_matches_protocol_example_for_empty_frame() {
    assert_eq!(crc32_hex(&[]), "00000000");
}

#[test]
fn crc_of_known_text() {
    assert_eq!(crc32_hex(b"abc"), "352441c2");
    assert_eq!(crc32_hex(b"123456789"), "cbf43926");
}

#[test]
fn stream_frame_with_wrong_checksum_is_refused() {
    let mut bridge = FetchBridge::new();
    bridge
        .ingest(&BridgeMessage {
            tag: s("fetch"),
            id: s("s"),
            resp: Some(FetchResponse {
                ok: Some(true),
                status: Some(200),
                stream: Some(true),
                raw: Some(true),
                body_encoding: s("base64"),
                ..FetchResponse::default()
            }),
            ..BridgeMessage::default()
        })
        .unwrap();
    let result = bridge.ingest(&BridgeMessage {
        tag: s("fetch-stream"),
        id: s("s"),
        seq: Some(0),
        data: s("YWJj"),
        crc32: s("00000000"),
        ..BridgeMessage::default()
    });
    assert_eq!(result, Err(BridgeError::Checksum));
}

#[test]
fn fetch_requests_get_increasing_ids() {
    let mut bridge = FetchBridge::new();
    let options = lyra_player::bridge::FetchOptions::default();
    let (a, first) = bridge.fetch("https://a", &options);
    let (b, _) = bridge.fetch("https://b", &options);
    assert_ne!(a, b);
    assert_eq!(first.url, "https://a");
    assert_eq!(first.method, "GET");
}

fn open_stream(bridge: &mut FetchBridge) {
    bridge
        .ingest(&BridgeMessage {
            tag: s("fetch"),
            id: s("s"),
            resp: Some(FetchResponse {
                ok: Some(true),
                status: Some(200),
                stream: Some(true),
                raw: Some(true),
                body_encoding: s("base64"),
                ..FetchResponse::default()
            }),
            ..BridgeMessage::default()
        })
        .unwrap();
}

fn frame(seq: u64, data: &str, crc: &str) -> BridgeMessage {
    BridgeMessage {
        tag: s("fetch-stream"),
        id: s("s"),
        seq: Some(seq),
        data: s(data),
        crc32: s(crc),
        ..BridgeMessage::default()
    }
}

#[test]
fn old_stream_frames_are_acknowledged_again_and_change_nothing() {
    let mut bridge = FetchBridge::new();
    open_stream(&mut bridge);
    let first = bridge.ingest(&frame(0, "YWJj", "352441c2")).unwrap();
    assert_eq!(first.event, BridgeEvent::StreamChunk { id: "s".into(), bytes: b"abc".to_vec() });
    assert_eq!(first.replies, vec![BridgeReply::StreamAck { id: "s".into(), ack: 1 }]);
    for _ in 0..2 {
        let again = bridge.ingest(&frame(0, "eHl6", "ffffffff")).unwrap();
        assert_eq!(again.event, BridgeEvent::Ignored);
        assert_eq!(again.replies, vec![BridgeReply::StreamAck { id: "s".into(), ack: 1 }]);
    }
    let next = bridge.ingest(&frame(1, "YWJj", "352441c2")).unwrap();
    assert_eq!(next.event, BridgeEvent::StreamChunk { id: "s".into(), bytes: b"abc".to_vec() });
    assert_eq!(next.replies, vec![BridgeReply::StreamAck { id: "s".into(), ack: 2 }]);
}

#[test]
fn chunk_past_the_announced_count_is_a_protocol_error() {
    let mut bridge = FetchBridge::new();
    bridge
        .ingest(&BridgeMessage {
            tag: s("fetch"),
            id: s("x"),
            resp: Some(FetchResponse {
                ok: Some(true),
                status: Some(200),
                raw: Some(true),
                chunked: Some(true),
                total_bytes: Some(3),
                chunk_count: Some(2),
                body_encoding: s("base64"),
                compression: s("none"),
                ack: Some(true),
                ..FetchResponse::default()
            }),
            ..BridgeMessage::default()
        })
        .unwrap();
    let result = bridge.ingest(&BridgeMessage {
        tag: s("fetch-chunk"),
        id: s("x"),
        seq: Some(2),
        data: s("YWI="),
        ..BridgeMessage::default()
    });
    assert_eq!(result, Err(BridgeError::Protocol));
}

#[test]
fn handshake_reply_carries_the_announced_capabilities() {
    let mut bridge = FetchBridge::new();
    let out = bridge
        .ingest(&BridgeMessage { tag: s("__hs__"), count: Some(0), ..BridgeMessage::default() })
        .unwrap();
    assert_eq!(out.event, BridgeEvent::HandshakeComplete);
    match &out.replies[..] {
        [BridgeReply::Handshake(h)] => {
            assert_eq!(h.count, 1);
            assert_eq!(h.version, 4);
            assert!(h.stream && h.chunk && h.ack);
            assert_eq!(h.encodings, ["base64", "hex", "text"]);
            assert_eq!(h.ack_window, 1);
        },
        other => panic!("unexpected replies {other:?}"),
    }
}
