use xiaozhi_rs::crypto::AesCtrCipher;
use xiaozhi_rs::error::{ErrorKind, VoiceError};
use xiaozhi_rs::json::Json;
use xiaozhi_rs::protocol::message::{
    AudioParams, ClientMessage, Features, ListenState, ServerHello, ServerMessage, UdpChannel,
};
use xiaozhi_rs::protocol::mqtt_udp::{
    build_mqtt_options, MqttSetup, SetupAction, SetupEvent, SetupPhase, UdpDownlink, UdpUplink,
    Verdict,
};
use xiaozhi_rs::protocol::scripted::{
    Script, ScriptAction, ScriptStep, ScriptedTransport, SentItem,
};
use xiaozhi_rs::protocol::ws::{
    audio_frame_v2, await_hello, deliver, open_request, receive, sec_key_of, send_error,
    strip_binary_header, ws_sec_key, HandshakeEvent, Outgoing, ReceivedMessage, WsFrame,
    V2_HEADER_SIZE,
};
use xiaozhi_rs::protocol::{
    now_ms, ConnectParams, IncomingEvent, LatestSlot, MqttParams, TransportAdapter,
};
use xiaozhi_rs::session::TransportKind;

#[test]
fn abort_serializes_with_session_and_reason() {
    let m = ClientMessage::Abort {
        session_id: "abc".into(),
        reason: "session_terminated".into(),
    };
    let json = m.to_json();
    assert_eq!(
        json,
        r#"{"type":"abort","session_id":"abc","reason":"session_terminated"}"#
    );
}

#[test]
fn strip_v2_is_unchanged() {
    let payload = b"v2-opus";
    let mut frame = Vec::with_capacity(V2_HEADER_SIZE + payload.len());
    frame.extend_from_slice(&0u16.to_be_bytes());
    frame.extend_from_slice(&0u16.to_be_bytes());
    frame.extend_from_slice(&0u32.to_be_bytes());
    frame.extend_from_slice(&12345u32.to_be_bytes());
    frame.extend_from_slice(&(payload.len() as u32).to_be_bytes());
    frame.extend_from_slice(payload);
    let out = strip_binary_header(&frame);
    assert_eq!(out, payload);
}

#[test]
fn strip_v2_falls_back_to_raw_when_header_mismatch() {
    let payload = b"abc";
    let mut frame = Vec::with_capacity(V2_HEADER_SIZE + payload.len());
    frame.extend_from_slice(&2u16.to_be_bytes());
    frame.extend_from_slice(&0u16.to_be_bytes());
    frame.extend_from_slice(&0u32.to_be_bytes());
    frame.extend_from_slice(&0u32.to_be_bytes());
    frame.extend_from_slice(&u32::MAX.to_be_bytes());
    frame.extend_from_slice(payload);
    let out = strip_binary_header(&frame);
    assert_eq!(out, frame);
}

#[test]
fn ws_sec_key_is_valid_base64() {
    let key = ws_sec_key();
    assert_eq!(key.len(), 24, "key 长度异常: {}", key);
    assert!(key.ends_with("=="), "末组应补 2 个 =: {}", key);
    assert!(
        key.bytes()
            .all(|b| b.is_ascii_alphanumeric() || b == b'+' || b == b'/' || b == b'='),
        "含非法 Base64 字符: {}",
        key
    );
}

#[test]
fn sec_key_is_base64_of_its_bytes() {
    let b = [0, 1, 2, 3, 4, 5, 6, 7, 8, 9, 10, 11, 12, 13, 14, 15];
    assert_eq!(sec_key_of(&b), "AAECAwQFBgcICQoLDA0ODw==");
    assert_eq!(sec_key_of(&[0xff; 16]), "/////////////////////w==");
    assert_ne!(ws_sec_key(), ws_sec_key());
}

#[test]
fn hello_messages_as_json() {
    assert_eq!(
        ClientMessage::hello_websocket_v2().to_json(),
        r#"{"type":"hello","version":2,"features":{"mcp":true},"transport":"websocket","audio_params":{"format":"opus","sample_rate":16000,"channels":1,"frame_duration":60}}"#
    );
    assert_eq!(
        ClientMessage::hello_mqtt_udp().to_json(),
        r#"{"type":"hello","version":3,"features":{"mcp":true},"transport":"udp","audio_params":{"format":"opus","sample_rate":16000,"channels":1,"frame_duration":60}}"#
    );
    let m = ClientMessage::Hello {
        version: 9,
        features: Features::default(),
        transport: "t".into(),
        audio_params: AudioParams::default(),
    };
    assert_eq!(
        m.to_json(),
        r#"{"type":"hello","version":9,"transport":"t","audio_params":{"format":"opus","sample_rate":16000,"channels":1,"frame_duration":60}}"#
    );
    assert!(Features::default().is_empty());
    let both = Features { mcp: true, glyph_push: true };
    assert_eq!(both.to_json(), r#"{"mcp":true,"glyph_push":true}"#);
}

#[test]
fn listen_message_as_json_escapes_text() {
    let m = ClientMessage::Listen {
        session_id: "a\"b\\c\n\u{1}é\u{7f}".into(),
        state: ListenState::Stop,
        mode: Some("realtime".into()),
        text: None,
    };
    let json = m.to_json();
    assert_eq!(
        json,
        "{\"type\":\"listen\",\"session_id\":\"a\\\"b\\\\c\\n\\u0001é\u{7f}\",\"state\":\"stop\",\"mode\":\"realtime\"}"
    );
    let v: serde_json::Value = serde_json::from_str(&json).unwrap();
    assert_eq!(v["session_id"], "a\"b\\c\n\u{1}é\u{7f}");
    let all: String = (0u8..=0x7f).map(|b| b as char).collect();
    let m = ClientMessage::Abort { session_id: all.clone(), reason: "r".into() };
    let v: serde_json::Value = serde_json::from_str(&m.to_json()).unwrap();
    assert_eq!(v["session_id"], serde_json::Value::String(all));
}

#[test]
fn v2_frame_round_trip_and_layout() {
    let frame = audio_frame_v2(b"opus", 0x01020304);
    assert_eq!(
        frame,
        vec![0, 2, 0, 0, 0, 0, 0, 0, 1, 2, 3, 4, 0, 0, 0, 4, b'o', b'p', b'u', b's']
    );
    assert_eq!(strip_binary_header(&frame), b"opus");
    assert_eq!(strip_binary_header(&[0, 0, 0, 2, 7, 8]), vec![7, 8]);
    assert_eq!(strip_binary_header(&[0, 1, 0, 2, 7, 8]), vec![0, 1, 0, 2, 7, 8]);
    assert_eq!(strip_binary_header(&[]), Vec::<u8>::new());
}

fn cipher() -> AesCtrCipher {
    AesCtrCipher::from_hex_key("000102030405060708090a0b0c0d0e0f").unwrap()
}

#[test]
fn udp_round_trip_replay_and_drops() {
    let mut nonce = [9u8; 16];
    nonce[0] = 1;
    let mut up = UdpUplink::new(cipher(), nonce);
    let mut down = UdpDownlink::new(cipher(), 0);
    let first = up.seal(b"hello".to_vec(), 77);
    assert_ne!(&first[16..], b"hello");
    let (v, audio) = down.open(&first);
    assert_eq!(v, Verdict::Accepted { jumped: false });
    assert_eq!(audio, b"hello");
    assert_eq!(down.open(&first).0, Verdict::Replayed);
    up.seal(b"lost".to_vec(), 78);
    let third = up.seal(b"third".to_vec(), 79);
    assert_eq!(down.open(&third).0, Verdict::Accepted { jumped: true });
    assert_eq!(down.open(&first).0, Verdict::Replayed);
    assert_eq!(down.open(&third[..15]).0, Verdict::Short);
    assert_eq!(down.open(&third[..17]).0, Verdict::WrongLength);
    let mut other = third.clone();
    other[0] = 2;
    assert_eq!(down.open(&other).0, Verdict::WrongType);
    assert!(down.has_room());
    assert!(down.report(1_999_999_999).is_none());
    let s = down.report(2_000_000_000).unwrap();
    assert_eq!(
        (s.received, s.ok, s.seq_dropped, s.short, s.len_dropped, s.type_dropped),
        (7, 2, 2, 1, 1, 1)
    );
    assert_eq!(down.stats.received, 0);
    assert_ne!(&first[..16], &third[..16]);
}

fn mqtt_params() -> MqttParams {
    MqttParams {
        host: "h".into(),
        port: 8883,
        tls: true,
        username: "u".into(),
        password: "p".into(),
        mqtt_client_id: "c".into(),
        publish_topic: "pub".into(),
        subscribe_topic: "sub".into(),
    }
}

fn params(mqtt: Option<MqttParams>, url: &str) -> ConnectParams {
    ConnectParams {
        device_id: "dev".into(),
        client_id: "cli".into(),
        token: "tok".into(),
        ws_url: url.into(),
        mqtt,
    }
}

fn hello(key: &str, nonce: &str) -> ServerMessage {
    ServerMessage::Hello(ServerHello {
        transport: "udp".into(),
        session_id: "sess".into(),
        audio_params: None,
        udp: Some(UdpChannel {
            server: "1.2.3.4".into(),
            port: 999,
            key: key.into(),
            nonce: nonce.into(),
        }),
    })
}

fn failure(a: SetupAction) -> VoiceError {
    match a {
        SetupAction::Failed(e) => e,
        _ => panic!("not failed"),
    }
}

const KEY: &str = "000102030405060708090a0b0c0d0e0f";
const NONCE: &str = "01000000aabbccdd0000000000000000";

fn awaiting_hello() -> MqttSetup {
    let (mut s, a) = MqttSetup::begin(&params(Some(mqtt_params()), "")).unwrap_or_else(|_| panic!());
    assert!(matches!(a, SetupAction::Subscribe { topic } if topic == "sub"));
    match s.step(SetupEvent::Done(Ok(())), 0) {
        SetupAction::Publish { topic, payload } => {
            assert_eq!(topic, "pub");
            assert_eq!(payload, ClientMessage::hello_mqtt_udp().to_json());
        }
        _ => panic!("publish"),
    }
    assert!(matches!(s.step(SetupEvent::Done(Ok(())), 0), SetupAction::Poll));
    s
}

#[test]
fn mqtt_setup_negotiates_the_udp_channel() {
    let mut s = awaiting_hello();
    assert!(matches!(s.step(SetupEvent::Polled(None), 0), SetupAction::Poll));
    let echo = ServerMessage::Hello(ServerHello::default());
    assert!(matches!(s.step(SetupEvent::Polled(Some(echo)), 0), SetupAction::Poll));
    assert!(matches!(s.step(SetupEvent::Polled(Some(hello(KEY, NONCE))), 0), SetupAction::Bind));
    match s.step(SetupEvent::Done(Ok(())), 0) {
        SetupAction::Resolve { addr } => assert_eq!(addr, "1.2.3.4:999"),
        _ => panic!("resolve"),
    }
    assert!(matches!(s.step(SetupEvent::Done(Ok(())), 0), SetupAction::Join));
    match s.step(SetupEvent::Done(Ok(())), 5) {
        SetupAction::Ready { handles, uplink, downlink } => {
            assert_eq!(handles.session_id, "sess");
            assert_eq!(handles.server_audio.sample_rate, 16000);
            assert_eq!(uplink.cipher.key[15], 15);
            assert_eq!(uplink.base_nonce[0], 1);
            assert_eq!(downlink.sequence, 0);
        }
        _ => panic!("ready"),
    }
    assert_eq!(s.phase, SetupPhase::Over);
    assert!(matches!(s.step(SetupEvent::Done(Ok(())), 5), SetupAction::Ignored));
}

#[test]
fn mqtt_setup_fails_with_the_right_errors() {
    let e = match MqttSetup::begin(&params(None, "")) {
        Err(e) => e,
        Ok(_) => panic!("no params"),
    };
    assert_eq!(e.message(), "配置无效: 缺少 MQTT 参数");
    let (mut s, _) = MqttSetup::begin(&params(Some(mqtt_params()), "")).unwrap_or_else(|_| panic!());
    let e = failure(s.step(SetupEvent::Done(Err("x".into())), 0));
    assert_eq!(e.message(), "传输错误: MQTT 订阅失败: x");
    let e = failure(awaiting_hello().step(SetupEvent::HelloTimedOut, 0));
    assert_eq!(e.message(), "超时: MQTT hello 响应超时");
    let e = failure(awaiting_hello().step(SetupEvent::PollFailed("y".into()), 0));
    assert_eq!(e.message(), "传输错误: MQTT 轮询失败: y");
    let e = failure(awaiting_hello().step(SetupEvent::Polled(Some(hello("zz", "yy"))), 0));
    assert_eq!(e.message(), "加密错误: hex 长度错误: 期望 32 字符, 得 2");
    let e = failure(awaiting_hello().step(SetupEvent::Polled(Some(hello("zzz", NONCE))), 0));
    assert_eq!(e.message(), "加密错误: hex 长度错误: 期望 32 字符, 得 3");
    let mut s = awaiting_hello();
    s.step(SetupEvent::Polled(Some(hello(KEY, NONCE))), 0);
    let e = failure(s.step(SetupEvent::Done(Err("b".into())), 0));
    assert_eq!(e.message(), "传输错误: UDP 绑定失败: b");
    let mut s = awaiting_hello();
    s.step(SetupEvent::Polled(Some(hello(KEY, NONCE))), 0);
    s.step(SetupEvent::Done(Ok(())), 0);
    let e = failure(s.step(SetupEvent::Done(Err("a".into())), 0));
    assert_eq!(e.message(), "配置无效: UDP 地址无效: a");
}

#[test]
fn mqtt_settings_follow_the_parameters() {
    let s = build_mqtt_options(&mqtt_params());
    assert_eq!((s.host.as_str(), s.port, s.tls), ("h", 8883, true));
    assert_eq!((s.keep_alive_secs, s.inflight, s.request_cap), (240, 1, 64));
    assert!(s.clean_session);
    assert_eq!(s.client_id, "c");
}

#[test]
fn websocket_request_names_host_and_key() {
    let r = open_request(&params(None, "wss://example.org:444/x")).unwrap_or_else(|_| panic!());
    let get = |n: &str| r.headers.iter().find(|h| h.0 == n).unwrap().1.clone();
    assert_eq!(get("Host"), "example.org:444");
    assert_eq!(get("Authorization"), "Bearer tok");
    assert_eq!(get("Protocol-Version"), "2");
    assert_eq!(get("Device-Id"), "dev");
    assert_eq!(get("Sec-WebSocket-Key").len(), 24);
    assert_eq!(r.headers.len(), 9);
    let e = open_request(&params(None, "/only/path")).err().unwrap();
    assert_eq!(e.message(), "传输错误: URL 缺少 host: /only/path");
    let e = open_request(&params(None, "")).err().unwrap();
    assert!(e.message().starts_with("传输错误: URI 解析失败: "));
    let e = open_request(&params(None, "bad uri")).err().unwrap();
    assert!(e.message().starts_with("传输错误: URI 解析失败: "));
}

#[test]
fn websocket_frames_are_classified() {
    let err = |f: WsFrame| match receive(f) {
        Some(Err(e)) => e.message(),
        _ => panic!("no error"),
    };
    assert_eq!(err(WsFrame::Text(Err("j".into()))), "协议错误: j");
    assert_eq!(err(WsFrame::Close("c".into())), "传输错误: 连接已关闭: c");
    assert_eq!(err(WsFrame::Failed("f".into())), "传输错误: WebSocket 错误: f");
    assert_eq!(err(WsFrame::Ended), "传输错误: 连接已断开");
    assert!(receive(WsFrame::Other).is_none());
    assert!(matches!(
        receive(WsFrame::Binary(vec![1])),
        Some(Ok(ReceivedMessage::Audio(d))) if d == vec![1]
    ));
    assert!(matches!(
        receive(WsFrame::Text(Ok(ServerMessage::Stt { text: "t".into() }))),
        Some(Ok(ReceivedMessage::Json(ServerMessage::Stt { .. })))
    ));
    assert!(matches!(
        deliver(Ok(ReceivedMessage::Audio(vec![0, 0, 0, 1, 5]))),
        IncomingEvent::Audio(d) if d == vec![5]
    ));
    assert!(matches!(deliver(Err(VoiceError::SessionClosed)), IncomingEvent::Closed));
    assert_eq!(send_error(Outgoing::Json, "x").message(), "传输错误: 发送失败: x");
    assert_eq!(send_error(Outgoing::Audio, "x").message(), "传输错误: 音频发送失败: x");
    assert_eq!(send_error(Outgoing::Ping, "x").message(), "传输错误: Ping 失败: x");
}

#[test]
fn websocket_handshake_waits_for_the_hello() {
    assert!(await_hello(HandshakeEvent::Received(ReceivedMessage::Audio(vec![]), "".into()))
        .is_none());
    let h = ServerMessage::Hello(ServerHello {
        session_id: "s".into(),
        audio_params: Some(AudioParams {
            format: "opus".into(),
            sample_rate: 24000,
            channels: 1,
            frame_duration: 60,
        }),
        ..Default::default()
    });
    match await_hello(HandshakeEvent::Received(ReceivedMessage::Json(h), "".into())) {
        Some(Ok(t)) => {
            assert_eq!(t.session_id, "s");
            assert_eq!(t.server_audio.sample_rate, 24000);
        }
        _ => panic!("hello"),
    }
    let other = ServerMessage::Unknown(Json::Null);
    match await_hello(HandshakeEvent::Received(ReceivedMessage::Json(other), "Unknown".into())) {
        Some(Err(e)) => assert_eq!(e.message(), "协议错误: 期望 hello 响应，收到: Unknown"),
        _ => panic!("other"),
    }
    match await_hello(HandshakeEvent::TimedOut) {
        Some(Err(e)) => assert_eq!(e.message(), "超时: hello 响应超时"),
        _ => panic!("timeout"),
    }
    match await_hello(HandshakeEvent::Failed(VoiceError::SessionClosed)) {
        Some(Err(e)) => assert_eq!(e.kind(), ErrorKind::SessionClosed),
        _ => panic!("failed"),
    }
}

#[test]
fn latest_slot_keeps_the_latest() {
    let mut s: LatestSlot<u32> = LatestSlot::new();
    assert_eq!(s.take(), None);
    s.store(1);
    s.store(2);
    assert_eq!(s.take(), Some(2));
    assert_eq!(s.take(), None);
    let d: LatestSlot<u32> = LatestSlot::default();
    assert_eq!(d.value, None);
}

#[test]
fn timestamps_wrap() {
    assert_eq!(now_ms(None), 0);
    assert_eq!(now_ms(Some(5)), 5);
    assert_eq!(now_ms(Some(0x1_0000_0007)), 7);
}

#[test]
fn adapters_follow_the_kind() {
    assert!(matches!(
        TransportAdapter::of_kind(TransportKind::MqttUdp),
        TransportAdapter::MqttUdp(_)
    ));
    assert!(matches!(
        TransportAdapter::of_kind(TransportKind::WebSocket),
        TransportAdapter::WebSocket(_)
    ));
}

#[test]
fn scripts_are_played_up_to_the_break() {
    let t = ScriptedTransport {
        script: Script {
            session_id: "s".into(),
            server_audio: AudioParams::default(),
            steps: vec![
                ScriptStep::Audio(vec![1]),
                ScriptStep::Pause(40),
                ScriptStep::StallOutbound,
                ScriptStep::Json(ServerMessage::Stt { text: "t".into() }),
                ScriptStep::Close,
                ScriptStep::Audio(vec![2]),
            ],
        },
    };
    let (handles, mut player, mut log) = t.connect();
    assert_eq!(handles.session_id, "s");
    assert!(matches!(
        player.next(),
        ScriptAction::Deliver(IncomingEvent::Audio(d)) if d == vec![1]
    ));
    assert!(matches!(player.next(), ScriptAction::Sleep { ms: 40 }));
    assert!(matches!(player.next(), ScriptAction::Sleep { ms: 1000 }));
    assert!(matches!(player.next(), ScriptAction::Deliver(IncomingEvent::Json(_))));
    assert!(matches!(player.next(), ScriptAction::Deliver(IncomingEvent::Closed)));
    assert!(matches!(player.next(), ScriptAction::End));
    log.record(SentItem::Audio(vec![7]));
    log.record(SentItem::Control(ClientMessage::hello_mqtt_udp()));
    assert_eq!(log.sent_items().len(), 2);
    player.client_gone();
    assert!(matches!(player.next(), ScriptAction::End));
}
