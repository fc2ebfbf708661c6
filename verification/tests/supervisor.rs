use xiaozhi_rs::audio::opus::NetworkGrade;
use xiaozhi_rs::error::{ErrorKind, VoiceError};
use xiaozhi_rs::identity::DeviceIdentity;
use xiaozhi_rs::ota::{OtaConfig, OtaMqttConfig, WebSocketConfig};
use xiaozhi_rs::protocol::message::{
    AudioParams, ClientMessage, ListenState, ServerMessage, TtsState,
};
use xiaozhi_rs::protocol::{IncomingEvent, TransportHandles};
use xiaozhi_rs::session::{EpochCounter, SessionEpoch, TransportKind};
use xiaozhi_rs::supervisor::stream::{Line, Phase, StreamAction, StreamEvent};
use xiaozhi_rs::supervisor::{
    derive_mqtt, is_transport_loss, AudioDuty, Backoff, CircuitBreaker, ConnectOutcome,
    LossEstimator, RealtimeVoice, State, StreamMachine, Task, VoiceSupervisor,
};

const MS: u64 = 1_000_000;
const SEC: u64 = 1_000_000_000;

#[test]
fn loss_estimator_ignores_server_silence() {
    let t0: u64 = 5 * SEC;
    let mut e = LossEstimator::new(t0);
    for i in 0..10u64 {
        e.observe_frame(t0 + i * 60 * MS);
    }
    e.observe_frame(t0 + (3000 + 600) * MS);
    assert_eq!(e.lost, 0);
}

#[test]
fn loss_estimator_counts_gaps_within_threshold() {
    let t0: u64 = 5 * SEC;
    let mut e = LossEstimator::new(t0);
    e.observe_frame(t0);
    e.observe_frame(t0 + 300 * MS);
    assert_eq!(e.lost, 4);
}

#[test]
fn circuit_breaker_opens_after_two_failures() {
    let now: u64 = SEC;
    let mut cb = CircuitBreaker::new();
    assert!(!cb.record_failure(now));
    assert!(!cb.is_open(now));
    assert!(cb.record_failure(now));
    assert!(cb.is_open(now));
}

#[test]
fn derive_mqtt_null_topic_falls_back() {
    let m = OtaMqttConfig {
        endpoint: Some("mqtt.example.com:1883".into()),
        subscribe_topic: Some("null".into()),
        publish_topic: Some("device-server".into()),
        ..Default::default()
    };
    let p = derive_mqtt(&m, "wss://x", "client-1");
    assert_eq!(p.subscribe_topic, "device-server");
    assert_eq!(p.publish_topic, "device-server");
    assert!(!p.tls);
}

#[test]
fn derive_mqtt_endpoint_without_port_defaults_8883_tls() {
    let m = OtaMqttConfig {
        endpoint: Some("mqtt.example.com".into()),
        ..Default::default()
    };
    let p = derive_mqtt(&m, "wss://x", "client-1");
    assert_eq!(p.host, "mqtt.example.com");
    assert_eq!(p.port, 8883);
    assert!(p.tls);
}

#[test]
fn backoff_stays_within_bounds() {
    let mut b = Backoff::new();
    for _ in 0..40 {
        let d = b.next();
        assert!(d >= 25, "delay 过小: {:?}", d);
        assert!(d <= 30_000, "delay 超上限: {:?}", d);
    }
}

#[test]
fn backoff_resets_after_success() {
    let mut b = Backoff::new();
    b.next();
    b.next();
    b.on_success();
    let first = b.next();
    assert!(first <= 250, "重置后 delay 仍过大: {:?}", first);
}

#[test]
fn epochs_are_unique_and_monotonic() {
    let mut counter = EpochCounter::new();
    let a = SessionEpoch::new(&mut counter, "s1".into(), TransportKind::WebSocket);
    let b = SessionEpoch::new(&mut counter, "s2".into(), TransportKind::MqttUdp);
    assert_ne!(a.id, b.id);
    assert!(b.id > a.id);
    assert_eq!(a.session_id, "s1");
    assert_eq!(b.transport, TransportKind::MqttUdp);
}

#[test]
fn backoff_draws_the_expected_delays() {
    let mut b = Backoff::new();
    let drawn: Vec<u64> = (0..10).map(|_| b.next()).collect();
    assert_eq!(drawn, vec![48, 399, 338, 185, 916, 2995, 134, 6813, 11688, 21927]);
}

#[test]
fn breaker_cooldown_doubles_up_to_half_an_hour() {
    let mut cb = CircuitBreaker::new();
    let mut now: u64 = 0;
    let mut waits = Vec::new();
    for _ in 0..4 {
        assert!(!cb.record_failure(now));
        assert!(cb.record_failure(now + SEC));
        let until = cb.cooldown_until.unwrap();
        waits.push((until - now - SEC) / SEC);
        assert!(cb.is_open(until - 1));
        assert!(!cb.is_open(until));
        now = until;
    }
    assert_eq!(waits, vec![300, 600, 1200, 1800]);
}

#[test]
fn breaker_forgets_old_failures_and_resets_when_stable() {
    let mut cb = CircuitBreaker::new();
    assert!(!cb.record_failure(0));
    assert!(!cb.record_failure(120 * SEC));
    cb.on_stable(121 * SEC);
    assert_eq!(cb.failures.len(), 1);
    assert!(cb.record_failure(121 * SEC));
    assert_eq!(cb.open_count, 1);
    cb.on_stable(122 * SEC);
    assert_eq!(cb.open_count, 0);
    assert!(!cb.is_open(122 * SEC));
}

#[test]
fn loss_is_graded_after_ten_seconds() {
    // A gap of 300 ms every tenth frame loses four of fourteen frames.
    let mut e = LossEstimator::new(0);
    let mut t: u64 = 0;
    for i in 1..400u64 {
        t += if i % 10 == 0 { 300 * MS } else { 60 * MS };
        e.observe_frame(t);
    }
    assert_eq!(e.grade, NetworkGrade::Poor);
    let mut e = LossEstimator::new(0);
    for i in 0..200u64 {
        e.observe_frame(i * 60 * MS);
    }
    assert_eq!(e.grade, NetworkGrade::Good);
    // Four lost frames on about eighty received are five percent.
    let mut e = LossEstimator::new(0);
    let mut t: u64 = 0;
    for i in 1..200u64 {
        t += if i % 80 == 0 { 300 * MS } else { 60 * MS };
        e.observe_frame(t);
    }
    assert_eq!(e.grade, NetworkGrade::Fair);
}

#[test]
fn transport_loss_is_transport_or_timeout() {
    assert!(is_transport_loss(&VoiceError::Transport("x".into())));
    assert!(is_transport_loss(&VoiceError::Timeout("x".into())));
    assert!(!is_transport_loss(&VoiceError::Audio("x".into())));
    assert!(!is_transport_loss(&VoiceError::SessionClosed));
}

#[test]
fn derive_mqtt_reads_ports_hosts_and_ids() {
    let of = |ep: &str| {
        let m = OtaMqttConfig {
            endpoint: Some(ep.into()),
            ..Default::default()
        };
        let p = derive_mqtt(&m, "", "id");
        (p.host, p.port, p.tls)
    };
    assert_eq!(of("  h:8883 \n"), ("h".to_string(), 8883, true));
    assert_eq!(of("h:00080"), ("h".to_string(), 80, false));
    assert_eq!(of("h:99999"), ("h".to_string(), 8883, true));
    assert_eq!(of("h:80a"), ("h:80a".to_string(), 8883, true));
    assert_eq!(of("h:"), ("h:".to_string(), 8883, true));
    assert_eq!(of("a:b:1"), ("a:b".to_string(), 1, false));
    let m = OtaMqttConfig {
        tls: true,
        client_id: Some("given".into()),
        username: Some("u".into()),
        password: Some("p".into()),
        subscribe_topic: Some("".into()),
        publish_topic: Some("pub".into()),
        ..Default::default()
    };
    let p = derive_mqtt(&m, "wss://host.example/path", "id");
    assert_eq!(p.host, "host.example");
    assert_eq!(p.port, 1883);
    assert!(p.tls);
    assert_eq!(p.mqtt_client_id, "given");
    assert_eq!(p.username, "u");
    assert_eq!(p.password, "p");
    assert_eq!(p.publish_topic, "pub");
    assert_eq!(p.subscribe_topic, "pub");
    let p = derive_mqtt(&OtaMqttConfig::default(), "ws://a", "id");
    assert_eq!(p.mqtt_client_id, "xz-id");
    assert_eq!(p.host, "a");
    assert!(!p.tls);
}

fn identity() -> DeviceIdentity {
    DeviceIdentity {
        device_id: "dev".into(),
        client_id: "cli".into(),
        serial_number: "sn".into(),
        hmac_key: "key".into(),
        activation_status: true,
        efuse_path: "e".into(),
    }
}

fn supervisor(has_audio: bool) -> VoiceSupervisor {
    let ota = OtaConfig {
        websocket: WebSocketConfig {
            url: Some("wss://h/x".into()),
            token: None,
        },
        mqtt: Some(OtaMqttConfig::default()),
        activation: None,
    };
    let voice = match RealtimeVoice::from_ota(identity(), ota) {
        Ok(v) => v,
        Err(_) => panic!("from_ota"),
    };
    voice.supervise(has_audio, 0)
}

fn handles() -> TransportHandles {
    TransportHandles {
        session_id: "sess".into(),
        server_audio: AudioParams {
            format: "opus".into(),
            sample_rate: 24000,
            channels: 1,
            frame_duration: 60,
        },
    }
}

#[test]
fn supervisor_connects_streams_and_starts_over() {
    let mut s = supervisor(true);
    assert!(matches!(s.begin(false, SEC), Task::Advance));
    match s.begin(false, SEC) {
        Task::Connect { kind, params } => {
            assert_eq!(kind, TransportKind::MqttUdp);
            assert_eq!(params.device_id, "dev");
            assert_eq!(params.ws_url, "wss://h/x");
            assert_eq!(params.token, "");
            assert_eq!(params.mqtt.unwrap().host, "h");
        }
        _ => panic!("connect"),
    }
    assert!(s.connected(ConnectOutcome::Ready(handles()), 2 * SEC).is_none());
    assert_eq!(s.epoch, Some(TransportKind::MqttUdp));
    match s.begin(false, 3 * SEC) {
        Task::Stream { machine, first } => {
            assert_eq!(machine.session_id, "sess");
            assert!(matches!(first, StreamAction::StartAudio { server_rate: 24000 }));
        }
        _ => panic!("stream"),
    }
    assert_eq!(s.stream_ended(true, &Ok(()), 4 * SEC), AudioDuty::Stop);
    assert_eq!(s.state, State::SelectTransport);
    assert_eq!(s.epoch, None);
    assert!(matches!(s.begin(true, 5 * SEC), Task::Exit { stop_audio: true }));
}

#[test]
fn supervisor_falls_back_to_websocket_after_two_losses() {
    let mut s = supervisor(false);
    for i in 0..2u64 {
        let now = i * SEC;
        assert!(matches!(s.begin(false, now), Task::Advance));
        assert!(matches!(
            s.begin(false, now),
            Task::Connect { kind: TransportKind::MqttUdp, .. }
        ));
        let e = s.connected(ConnectOutcome::TimedOut, now).unwrap();
        assert_eq!(e.message(), "超时: 连接超时（30s）");
        match s.begin(false, now) {
            Task::Sleep { delay_ms } => assert!((25..=30_000).contains(&delay_ms)),
            _ => panic!("sleep"),
        }
        assert_eq!(s.slept(false), None);
    }
    assert!(matches!(s.begin(false, 2 * SEC), Task::Advance));
    assert!(matches!(
        s.begin(false, 2 * SEC),
        Task::Connect { kind: TransportKind::WebSocket, .. }
    ));
}

#[test]
fn supervisor_closes_the_device_after_an_audio_error() {
    let mut s = supervisor(true);
    s.begin(false, 0);
    s.begin(false, 0);
    s.connected(ConnectOutcome::Ready(handles()), 0);
    s.begin(false, 0);
    let end = Err(VoiceError::Audio("gone".into()));
    assert_eq!(s.stream_ended(true, &end, SEC), AudioDuty::StopAndClose);
    assert!(!s.has_audio);
    assert_eq!(s.state, State::Backoff);
    assert_eq!(s.slept(true), Some(false));
}

#[test]
fn streaming_without_a_connection_backs_off() {
    let mut s = supervisor(true);
    s.state = State::Streaming;
    assert!(matches!(s.begin(false, 0), Task::Refused(VoiceError::SessionClosed)));
    assert_eq!(s.state, State::Backoff);
    assert!(s.is_fit(0));
    assert!(!s.heartbeat_due(29 * SEC));
    assert!(s.heartbeat_due(30 * SEC));
    assert!(!s.heartbeat_due(31 * SEC));
}

fn live(kind: TransportKind) -> StreamMachine {
    let (mut m, first) = StreamMachine::begin(kind, handles(), false, 0);
    assert!(matches!(first, StreamAction::OpenDevice));
    let s = m.step(StreamEvent::DeviceOpened(Ok(())), 0);
    assert!(matches!(s.action, StreamAction::StartAudio { server_rate: 24000 }));
    let s = m.step(StreamEvent::AudioStarted(Ok(true)), 0);
    match s.action {
        StreamAction::Send(ClientMessage::Listen { session_id, state, mode, text }) => {
            assert_eq!(session_id, "sess");
            assert_eq!(state, ListenState::Start);
            assert_eq!(mode.unwrap(), "realtime");
            assert!(text.is_none());
        }
        _ => panic!("listen"),
    }
    let s = m.step(StreamEvent::ListenSent(Ok(())), 0);
    assert!(matches!(s.action, StreamAction::Wait));
    assert_eq!(m.phase, Phase::Live);
    m
}

fn finished(a: StreamAction) -> (Result<(), VoiceError>, Option<ClientMessage>, bool) {
    match a {
        StreamAction::Finish { result, abort, stop_audio } => (result, abort, stop_audio),
        _ => panic!("not finished"),
    }
}

fn tts(state: TtsState) -> StreamEvent {
    StreamEvent::Incoming(Some(IncomingEvent::Json(ServerMessage::Tts { state, text: None })))
}

#[test]
fn early_failures_promise_nothing_to_the_server() {
    let (mut m, _) = StreamMachine::begin(TransportKind::WebSocket, handles(), false, 0);
    let s = m.step(StreamEvent::DeviceOpened(Err("none".into())), 0);
    let (r, abort, stop) = finished(s.action);
    assert_eq!(r.unwrap_err().message(), "音频设备错误: 音频设备不可用: none");
    assert!(abort.is_none() && !stop);
    let (mut m, _) = StreamMachine::begin(TransportKind::WebSocket, handles(), true, 0);
    m.step(StreamEvent::AudioStarted(Ok(true)), 0);
    let s = m.step(StreamEvent::ListenSent(Err("full".into())), 0);
    let (r, abort, stop) = finished(s.action);
    assert_eq!(r.unwrap_err().message(), "传输错误: 发送 listen 失败: full");
    assert!(abort.is_none() && !stop);
    let (mut m, _) = StreamMachine::begin(TransportKind::WebSocket, handles(), true, 0);
    let s = m.step(StreamEvent::AudioStarted(Err(VoiceError::Opus("o".into()))), 0);
    assert_eq!(finished(s.action).0.unwrap_err().kind(), ErrorKind::Opus);
}

#[test]
fn black_hole_ends_a_udp_session_with_an_abort() {
    let mut m = live(TransportKind::MqttUdp);
    let s = m.step(tts(TtsState::Start), SEC);
    assert!(matches!(s.action, StreamAction::FlushPlayback));
    m.step(StreamEvent::FlushSent(Ok(())), SEC);
    let s = m.step(StreamEvent::Tick, 11 * SEC - 1);
    assert!(!matches!(s.action, StreamAction::Finish { .. }));
    let s = m.step(StreamEvent::Tick, 11 * SEC);
    let (r, abort, stop) = finished(s.action);
    assert_eq!(r.unwrap_err().message(), "传输错误: UDP 黑洞");
    match abort.unwrap() {
        ClientMessage::Abort { session_id, reason } => {
            assert_eq!(session_id, "sess");
            assert_eq!(reason, "session_terminated");
        }
        _ => panic!("abort"),
    }
    assert!(stop);
    let s = m.step(StreamEvent::Tick, 12 * SEC);
    assert!(matches!(s.action, StreamAction::Wait));
}

#[test]
fn media_that_stops_for_three_seconds_is_a_black_hole() {
    let mut m = live(TransportKind::MqttUdp);
    m.step(tts(TtsState::Start), 0);
    m.step(StreamEvent::FlushSent(Ok(())), 0);
    let s = m.step(
        StreamEvent::Incoming(Some(IncomingEvent::Audio(vec![0xab, 0x01, 0xff]))),
        SEC,
    );
    assert_eq!(s.first_frame.unwrap(), "ab 01 ff");
    assert!(matches!(s.action, StreamAction::PlayFrame(d) if d == vec![0xab, 0x01, 0xff]));
    m.step(StreamEvent::FrameQueued(Ok(())), SEC);
    let s = m.step(StreamEvent::Tick, 4 * SEC - 1);
    assert_eq!(s.downlink, Some(1));
    assert!(matches!(s.action, StreamAction::Wait));
    let s = m.step(StreamEvent::Tick, 4 * SEC);
    assert!(matches!(s.action, StreamAction::Finish { .. }));
    // The same silence is none on a WebSocket.
    let mut m = live(TransportKind::WebSocket);
    m.step(tts(TtsState::Start), 0);
    m.step(StreamEvent::FlushSent(Ok(())), 0);
    let s = m.step(StreamEvent::Tick, 60 * SEC);
    assert!(matches!(s.action, StreamAction::SetGrade(NetworkGrade::Good)));
}

#[test]
fn live_sessions_end_by_goodbye_shutdown_and_errors() {
    let mut m = live(TransportKind::WebSocket);
    let bye = ServerMessage::Goodbye { session_id: "sess".into() };
    let s = m.step(StreamEvent::Incoming(Some(IncomingEvent::Json(bye))), 0);
    let (r, abort, stop) = finished(s.action);
    assert!(r.is_ok() && abort.is_none() && stop);
    let mut m = live(TransportKind::WebSocket);
    let (r, abort, _) = finished(m.step(StreamEvent::Shutdown, 0).action);
    assert!(r.is_ok() && abort.is_none());
    let mut m = live(TransportKind::WebSocket);
    let (r, abort, _) =
        finished(m.step(StreamEvent::Incoming(Some(IncomingEvent::Closed)), 0).action);
    assert_eq!(r.unwrap_err().message(), "传输错误: 传输层已断开");
    assert!(abort.is_some());
    let mut m = live(TransportKind::WebSocket);
    let (r, _, _) = finished(m.step(StreamEvent::Incoming(None), 0).action);
    assert_eq!(r.unwrap_err().message(), "传输错误: 传输通道关闭");
    let mut m = live(TransportKind::WebSocket);
    m.step(tts(TtsState::Start), 0);
    let (r, _, _) = finished(m.step(StreamEvent::FlushSent(Err("x".into())), 0).action);
    assert_eq!(r.unwrap_err().message(), "音频设备错误: TTS 清缓冲失败: x");
    let mut m = live(TransportKind::WebSocket);
    m.step(StreamEvent::Incoming(Some(IncomingEvent::Audio(vec![]))), 0);
    let (r, _, _) = finished(m.step(StreamEvent::FrameQueued(Err("y".into())), 0).action);
    assert_eq!(r.unwrap_err().message(), "音频设备错误: 下行队列失败: y");
}

#[test]
fn messages_for_people_are_shown() {
    let mut m = live(TransportKind::WebSocket);
    let mut say = |msg: ServerMessage| {
        m.step(StreamEvent::Incoming(Some(IncomingEvent::Json(msg))), 0).line
    };
    match say(ServerMessage::Stt { text: "hi".into() }) {
        Some(Line::User(t)) => assert_eq!(t, "hi"),
        _ => panic!("user"),
    }
    match say(ServerMessage::Llm { text: Some("yo".into()) }) {
        Some(Line::Assistant(t)) => assert_eq!(t, "yo"),
        _ => panic!("llm"),
    }
    match say(ServerMessage::Tts {
        state: TtsState::SentenceStart,
        text: Some("s".into()),
    }) {
        Some(Line::Assistant(t)) => assert_eq!(t, "s"),
        _ => panic!("sentence"),
    }
    match say(ServerMessage::System { command: "reboot".into() }) {
        Some(Line::System(t)) => assert_eq!(t, "reboot"),
        _ => panic!("system"),
    }
    assert!(say(ServerMessage::Llm { text: None }).is_none());
}

#[test]
fn the_fallback_does_not_end_a_cooldown() {
    let mut s = supervisor(true);
    for i in 0..2u64 {
        s.begin(false, i * SEC);
        s.begin(false, i * SEC);
        s.connected(ConnectOutcome::TimedOut, i * SEC);
        s.begin(false, i * SEC);
        s.slept(false);
    }
    let until = s.mqtt_circuit.cooldown_until;
    assert_eq!(until, Some(301 * SEC));
    // A session of the fallback comes up, is lost, and the fallback fails to come up again.
    s.begin(false, 2 * SEC);
    s.begin(false, 2 * SEC);
    s.connected(ConnectOutcome::Ready(handles()), 3 * SEC);
    assert_eq!(s.epoch, Some(TransportKind::WebSocket));
    assert_eq!(s.backoff.attempt, 0);
    assert_eq!(s.mqtt_circuit.cooldown_until, until);
    assert_eq!(s.mqtt_circuit.open_count, 1);
    s.begin(false, 3 * SEC);
    s.stream_ended(true, &Err(VoiceError::Transport("x".into())), 200 * SEC);
    s.begin(false, 200 * SEC);
    s.slept(false);
    s.begin(false, 201 * SEC);
    assert!(matches!(
        s.begin(false, 201 * SEC),
        Task::Connect { kind: TransportKind::WebSocket, .. }
    ));
    s.connected(ConnectOutcome::TimedOut, 231 * SEC);
    assert_eq!(s.mqtt_circuit.cooldown_until, until);
    assert_eq!(s.current_transport_kind(301 * SEC - 1), TransportKind::WebSocket);
    assert_eq!(s.current_transport_kind(301 * SEC), TransportKind::MqttUdp);
}

#[test]
fn a_late_failure_of_the_fallback_is_not_put_on_mqtt() {
    let mut s = supervisor(true);
    s.mqtt_circuit.record_failure(0);
    assert!(s.mqtt_circuit.record_failure(SEC));
    s.begin(false, 290 * SEC);
    assert!(matches!(
        s.begin(false, 290 * SEC),
        Task::Connect { kind: TransportKind::WebSocket, .. }
    ));
    // The attempt began in the cooldown and fails after it, when MQTT would be chosen again.
    assert_eq!(s.current_transport_kind(320 * SEC), TransportKind::MqttUdp);
    s.connected(ConnectOutcome::TimedOut, 320 * SEC);
    assert!(s.mqtt_circuit.failures.is_empty());
    s.begin(false, 320 * SEC);
    s.slept(false);
    // The next attempt goes over MQTT, and its failure counts.
    s.begin(false, 321 * SEC);
    assert!(matches!(
        s.begin(false, 321 * SEC),
        Task::Connect { kind: TransportKind::MqttUdp, .. }
    ));
    s.connected(ConnectOutcome::TimedOut, 351 * SEC);
    assert_eq!(s.mqtt_circuit.failures, vec![351 * SEC]);
    assert_eq!(s.current_transport_kind(352 * SEC), TransportKind::MqttUdp);
}

#[test]
fn a_connection_after_the_cooldown_clears_the_breaker() {
    let mut s = supervisor(true);
    s.mqtt_circuit.record_failure(0);
    assert!(s.mqtt_circuit.record_failure(SEC));
    s.begin(false, 301 * SEC);
    s.begin(false, 301 * SEC);
    s.connected(ConnectOutcome::Ready(handles()), 301 * SEC);
    assert_eq!(s.epoch, Some(TransportKind::MqttUdp));
    assert_eq!(s.mqtt_circuit.cooldown_until, None);
}

#[test]
fn derive_mqtt_takes_the_host_of_the_url_without_its_port() {
    let host = |url: &str| derive_mqtt(&OtaMqttConfig::default(), url, "client-1").host;
    let m = OtaMqttConfig::default();
    let p = derive_mqtt(&m, "wss://api.example.com:8443/xiaozhi/v1/", "client-1");
    assert_eq!(p.host, "api.example.com");
    assert_eq!(p.port, 1883);
    assert!(!p.tls);
    assert_eq!(host("wss://api.example.com/xiaozhi/v1/"), "api.example.com");
    assert_eq!(host("ws://10.0.0.1:80"), "10.0.0.1");
}

#[test]
fn error_texts() {
    assert_eq!(VoiceError::AuthenticationFailed("a".into()).message(), "认证失败: a");
    assert_eq!(VoiceError::InvalidConfig("a".into()).message(), "配置无效: a");
    assert_eq!(VoiceError::from_json("a".into()).message(), "协议错误: a");
    assert_eq!(VoiceError::from_io("a".into()).message(), "传输错误: a");
    assert_eq!(VoiceError::Opus("a".into()).message(), "Opus 错误: a");
    assert_eq!(VoiceError::Crypto("a".into()).message(), "加密错误: a");
    assert_eq!(VoiceError::SessionClosed.message(), "会话已关闭");
}

#[test]
fn two_lost_sessions_switch_the_link() {
    let mut s = supervisor(true);
    let hole = Err(VoiceError::Transport("UDP 黑洞".into()));
    for i in 0..2u64 {
        let now = i * 50 * SEC;
        assert!(matches!(s.begin(false, now), Task::Advance));
        assert!(matches!(
            s.begin(false, now),
            Task::Connect { kind: TransportKind::MqttUdp, .. }
        ));
        s.connected(ConnectOutcome::Ready(handles()), now);
        match s.begin(false, now) {
            Task::Stream { machine, .. } => {
                assert_eq!(machine.session.downlink_frames, 0);
                assert!(s.handles.is_none());
            }
            _ => panic!("stream"),
        }
        assert_eq!(s.stream_ended(true, &hole, now + SEC), AudioDuty::Leave);
        assert!(matches!(s.begin(false, now + SEC), Task::Sleep { .. }));
        assert_eq!(s.slept(false), None);
    }
    assert_eq!(s.current_transport_kind(52 * SEC), TransportKind::WebSocket);
    assert_eq!(s.current_transport_kind(350 * SEC), TransportKind::WebSocket);
    assert_eq!(s.current_transport_kind(351 * SEC), TransportKind::MqttUdp);
}
