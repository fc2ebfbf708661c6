use xiaozhi_rs::audio::output::OutFrame;
use xiaozhi_rs::audio::pipeline::{InputFormat, OutputFormat, SampleKind};
use xiaozhi_rs::classic::client::{
    after_decode, Conversation, Notice, Playout, RetryPolicy, RetryStep,
};
use xiaozhi_rs::classic::codec::{
    call_error, check_frame, encoder_config, library_missing, load_opus_library, result_len, Arch,
    Candidate, ClassicCall, Os,
};
use xiaozhi_rs::classic::frames::{
    capture_format, playback_format, FrameQueue, InputState, OutputState, FRAME_QUEUE_CAP,
    FRAME_SIZE,
};
use xiaozhi_rs::classic::link::{first_reply, open_request, FirstMessage};
use xiaozhi_rs::classic::message::{
    Features, ListenState, Message, ServerMessage, TtsState,
};
use xiaozhi_rs::classic::resample::{taps, Taps};

const MS: u64 = 1_000_000;

#[test]
fn classic_hello_as_json() {
    assert_eq!(
        Message::hello().to_json(),
        r#"{"type":"hello","version":1,"features":{"mcp":true},"transport":"websocket","audio_params":{"format":"opus","sample_rate":16000,"channels":1,"frame_duration":20}}"#
    );
    let m = Message::Listen {
        session_id: "s".into(),
        state: ListenState::Stop,
        mode: None,
        text: Some("t".into()),
    };
    assert_eq!(m.to_json(), r#"{"type":"listen","session_id":"s","state":"stop","text":"t"}"#);
    assert!(!Features::default().mcp);
}

#[test]
fn classic_retries_wait_longer_and_give_up() {
    let mut p = RetryPolicy::new();
    for secs in [2, 4, 8, 10] {
        assert_eq!(p.conversation_failed(), RetryStep::ReconnectAfter { secs });
        assert_eq!(p.reconnected(true), RetryStep::Converse);
    }
    assert_eq!(p.conversation_failed(), RetryStep::GiveUp);
    let mut p = RetryPolicy::new();
    for _ in 0..4 {
        assert_eq!(p.reconnected(false), RetryStep::Converse);
    }
    assert_eq!(p.reconnected(false), RetryStep::GiveUp);
}

#[test]
fn classic_conversation_conceals_gaps() {
    let mut c = Conversation::new(0);
    assert!(!c.conceal_due(1000 * MS));
    let start = ServerMessage::Tts { state: TtsState::Start, text: None };
    assert!(matches!(
        c.handle_json_message(start, 1000 * MS),
        Ok(Some(Notice::AssistantStarts))
    ));
    assert!(!c.conceal_due(1040 * MS));
    assert!(c.conceal_due(1040 * MS + 1));
    c.audio_received(1050 * MS);
    assert!(!c.conceal_due(1090 * MS));
    let stop = ServerMessage::Tts { state: TtsState::Stop, text: None };
    assert!(matches!(c.handle_json_message(stop, 0), Ok(Some(Notice::AssistantDone))));
    assert!(!c.conceal_due(9000 * MS));
    let bye = ServerMessage::Goodbye { session_id: "s".into() };
    assert_eq!(c.handle_json_message(bye, 0).unwrap_err(), "会话已关闭");
    let llm = ServerMessage::Llm { text: Some("t".into()), emotion: None };
    assert!(matches!(
        c.handle_json_message(llm, 0),
        Ok(Some(Notice::Assistant(t))) if t == "t"
    ));
    assert!(matches!(
        Conversation::opening("s".into()),
        Message::Listen { state: ListenState::Start, mode: Some(m), .. } if m == "realtime"
    ));
}

#[test]
fn frame_queue_drops_the_oldest() {
    let mut q: FrameQueue<u32> = FrameQueue::new();
    for i in 0..FRAME_QUEUE_CAP as u32 {
        assert_eq!(q.push_frame(i), None);
    }
    assert_eq!(q.push_frame(25), Some(1));
    for i in 26..75 {
        assert_eq!(q.push_frame(i), None);
    }
    assert_eq!(q.push_frame(75), Some(51));
    assert_eq!(q.frames.len(), FRAME_QUEUE_CAP);
    assert_eq!(q.pop_frame(), Some(51));
    q.clear();
    assert_eq!(q.pop_frame(), None);
}

#[test]
fn input_chunks_become_frames() {
    let mut s = InputState::new();
    let samples: Vec<u32> = (0..700).collect();
    s.process_input_chunk(&samples[..300]);
    assert!(s.read_frame().is_none());
    s.process_input_chunk(&samples[300..]);
    assert_eq!(s.read_frame().unwrap(), samples[..FRAME_SIZE].to_vec());
    assert_eq!(s.read_frame().unwrap(), samples[FRAME_SIZE..2 * FRAME_SIZE].to_vec());
    assert!(s.read_frame().is_none());
    assert_eq!(s.buffer.samples.len(), 60);
    s.stop();
    assert_eq!(s.buffer.samples.len(), 0);
}

#[test]
fn classic_output_refills_plays_and_fades() {
    let loud = 0.5f32.to_bits();
    let mut s = OutputState::new();
    s.configure(4, 3);
    s.configure(9, 9);
    assert_eq!(s.ramp_len, 4);
    assert!(s.refill().is_none());
    s.write_frame(vec![1]);
    s.write_frame(vec![2]);
    assert_eq!(s.refill().unwrap(), vec![1]);
    s.append(&[loud, loud, loud]);
    assert!(s.refill().is_none());
    let mut data = vec![OutFrame::Silence; 4];
    s.fill_output(&mut data, 2);
    assert_eq!(data, vec![OutFrame::Sample(loud); 4]);
    let mut data = vec![OutFrame::Silence; 7];
    s.fill_output(&mut data, 2);
    // One frame is left; the fade goes frame by frame behind it, and the last one is cut off.
    let fade = |left: usize| OutFrame::Fade { last: loud, left, len: 4 };
    assert_eq!(
        data,
        vec![
            OutFrame::Sample(loud),
            OutFrame::Sample(loud),
            fade(2),
            fade(2),
            fade(1),
            fade(1),
            fade(0)
        ]
    );
    assert_eq!(s.ramp_left, 0);
    let mut data = vec![fade(9); 2];
    s.fill_output(&mut data, 2);
    assert_eq!(data, vec![OutFrame::Silence; 2]);
    s.append(&[loud]);
    let mut data = vec![OutFrame::Silence; 2];
    s.fill_output(&mut data, 1);
    assert_eq!(data, vec![OutFrame::Sample(loud), fade(2)]);
    let mut data = vec![OutFrame::Silence; 3];
    s.fill_output(&mut data, 1);
    assert_eq!(data, vec![fade(1), fade(0), OutFrame::Silence]);
    s.clear_playback();
    assert_eq!(s.last_out, 0);
    s.stop();
    assert_eq!(s.head, 0);
}

#[test]
fn classic_output_drops_what_was_read() {
    let mut s = OutputState::new();
    s.configure(1, 1);
    let samples: Vec<u32> = (0..10_000).collect();
    s.append(&samples);
    let mut data = vec![OutFrame::Silence; 9000];
    s.fill_output(&mut data, 1);
    assert_eq!(s.head, 0);
    assert_eq!(s.buffer.len(), 1000);
    assert_eq!(s.buffer[0], 9000);
}

#[test]
fn classic_input_warns_of_the_first_of_fifty_losses() {
    let mut s = InputState::new();
    let frames = |n: usize| vec![0u32; n * FRAME_SIZE];
    assert_eq!(s.process_input_chunk(&frames(FRAME_QUEUE_CAP)), Vec::<u64>::new());
    assert_eq!(s.process_input_chunk(&frames(1)), vec![1]);
    assert_eq!(s.process_input_chunk(&frames(49)), Vec::<u64>::new());
    assert_eq!(s.process_input_chunk(&frames(51)), vec![51, 101]);
    assert_eq!(s.queue.dropped, 101);
    assert!(s.read_frame().is_some());
    assert_eq!(s.queue.dropped, 101);
    s.stop();
    assert!(s.read_frame().is_none());
    assert_eq!(s.queue.dropped, 101);
}

#[test]
fn classic_formats() {
    assert_eq!(capture_format(&SampleKind::F32, "F32"), Ok(InputFormat::F32));
    assert_eq!(
        capture_format(&SampleKind::U16, "U16"),
        Err("不支持的采样格式: U16".to_string())
    );
    assert_eq!(playback_format(&SampleKind::U16, "U16"), Ok(OutputFormat::U16));
    assert!(playback_format(&SampleKind::Other("I8".into()), "I8").is_err());
}

#[test]
fn classic_request_and_reply() {
    let r = open_request("wss://example.org:444/x", "tok", "dev", "cli").unwrap();
    let get = |n: &str| r.headers.iter().find(|h| h.0 == n).unwrap().1.clone();
    assert_eq!(get("Host"), "example.org");
    assert_eq!(get("Protocol-Version"), "1");
    let key = get("Sec-WebSocket-Key");
    assert_eq!(key.len(), 24);
    assert!(key.ends_with("=="));
    assert_eq!(open_request("/p", "", "", "").unwrap_err(), "URL 缺少 host: /p");
    assert!(open_request("", "", "", "").unwrap_err().starts_with("URI 解析失败: "));
    let hello = ServerMessage::Hello { session_id: "s".into() };
    assert_eq!(first_reply(FirstMessage::Json(hello, "".into())), Ok("s".to_string()));
    let other = ServerMessage::Stt { text: "t".into() };
    assert_eq!(
        first_reply(FirstMessage::Json(other, "Stt".into())),
        Err("期望 hello 响应，收到: Stt".to_string())
    );
    assert_eq!(first_reply(FirstMessage::Audio), Err("期望 JSON，收到音频".to_string()));
}

#[test]
fn classic_codec_settings_and_answers() {
    let c = encoder_config();
    assert_eq!((c.complexity, c.bitrate), (5, 48000));
    assert!(c.voice_signal && c.inband_fec && !c.dtx);
    assert!(check_frame(320).is_ok());
    assert_eq!(check_frame(1).unwrap_err(), "输入帧大小不正确: 1 (期望 320)");
    assert_eq!(result_len(ClassicCall::Encode, 3), Ok(3));
    assert_eq!(
        result_len(ClassicCall::Conceal, -2),
        Err("Opus PLC 失败: -2".to_string())
    );
    assert_eq!(call_error(ClassicCall::CreateDecoder, -1), "创建 Opus 解码器失败: -1");
}

#[test]
fn classic_library_is_looked_for_in_order() {
    let v = load_opus_library(Os::Linux, Arch::X64, true);
    assert_eq!(v.len(), 4);
    assert!(matches!(&v[0], Candidate::BesideProgram(f) if f == "libs/libopus/linux/x64/libopus.so"));
    assert!(matches!(&v[1], Candidate::BesideWorkingDir(_)));
    assert!(matches!(&v[2], Candidate::System(n) if n == "libopus.so.0"));
    assert!(matches!(&v[3], Candidate::System(n) if n == "libopus.so"));
    assert_eq!(load_opus_library(Os::MacOs, Arch::Arm64, false).len(), 4);
    assert_eq!(load_opus_library(Os::Windows, Arch::X64, false).len(), 2);
    assert_eq!(
        library_missing(Os::Windows, Arch::Arm64),
        "未找到 opus 库，请确保 libs/libopus/win/arm64/opus.dll 存在或安装系统 opus 库"
    );
}

#[test]
fn packets_that_do_not_decode_are_concealed() {
    assert_eq!(after_decode(false, true), Playout::Play);
    assert_eq!(after_decode(false, false), Playout::Conceal);
    assert_eq!(after_decode(true, true), Playout::Play);
    assert_eq!(after_decode(true, false), Playout::Skip);
}

#[test]
fn taps_are_held_at_the_edges_of_a_block() {
    let t = |before, from, to, after| Taps { before, from, to, after };
    assert_eq!(taps(5, 0), t(None, 0, 1, 2));
    assert_eq!(taps(5, 2), t(Some(1), 2, 3, 4));
    assert_eq!(taps(5, 3), t(Some(2), 3, 4, 4));
    assert_eq!(taps(5, 4), t(Some(3), 4, 4, 4));
    assert_eq!(taps(5, 5), t(Some(4), 4, 4, 4));
    assert_eq!(taps(1, 0), t(None, 0, 0, 0));
    assert_eq!(taps(2, 0), t(None, 0, 1, 1));
}
