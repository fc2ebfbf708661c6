use xiaozhi_rs::audio::buffer::{PlaybackBuffer, TARGET_MAX_MS, TARGET_MIN_MS};
use xiaozhi_rs::audio::capture::{CaptureControl, SampleQueue, Vad, CAPTURE_BATCH};
use xiaozhi_rs::audio::opus::{
    apply_encoder_config, check_frame, codec_error, decode_mode, encoded_packet, opus_error_desc,
    result_len, CodecCall, CodecState, DecodeMode, NetworkGrade, ENCODER_FRAME_SIZE, ENCODER_RATE,
    FRAME_MS,
};
use xiaozhi_rs::audio::output::{fill_output, write_samples, OutFrame, Playhead, Underrun};
use xiaozhi_rs::audio::pipeline::{
    check_devices, DeviceConfig, InputFormat, OutputFormat, PipelineSetup, SampleKind, StartAction,
    StartEvent,
};
use xiaozhi_rs::audio::playback::{PlayAction, PlaybackControl};
use xiaozhi_rs::audio::ring::{dequeue, enqueue, enqueue_all, free_slots, new_ring};
use xiaozhi_rs::audio::PlaybackMsg;

const MS: u64 = 1_000_000;
const SEC: u64 = 1_000_000_000;

/// The average of the jitter, which the owner of a buffer keeps.
struct Jitter {
    ewma_ms: f64,
}

impl Jitter {
    fn new() -> Self {
        Jitter { ewma_ms: 0.0 }
    }

    fn arrive(&mut self, b: &mut PlaybackBuffer, now: u64) {
        if let Some(gap) = b.observe_arrival(now) {
            let dev = (gap as f64 / 1e6 - b.frame_ms as f64).abs();
            self.ewma_ms = if self.ewma_ms == 0.0 {
                dev
            } else {
                0.9 * self.ewma_ms + 0.1 * dev
            };
        }
    }

    fn wanted(&self) -> u64 {
        (TARGET_MIN_MS as f64 + 4.0 * self.ewma_ms) as u64
    }
}

#[test]
fn initial_target_is_60ms() {
    let b = PlaybackBuffer::new(60);
    assert_eq!(b.target_ms(), 60);
}

#[test]
fn target_clamps_and_grows_immediately() {
    let mut b = PlaybackBuffer::new(60);
    let mut j = Jitter::new();
    let now: u64 = SEC;
    for _ in 0..20 {
        let t = now + (60 + 100) * MS;
        j.arrive(&mut b, t);
    }
    b.update_target(j.wanted(), now + 2 * SEC);
    assert!(b.target_ms() >= 60, "target={}", b.target_ms());
    assert!(b.target_ms() <= TARGET_MAX_MS);
}

#[test]
fn target_shrinks_after_stable_period() {
    let mut b = PlaybackBuffer::new(60);
    let mut j = Jitter::new();
    let now: u64 = SEC;
    for i in 0..20u64 {
        let t = now + (60 + 260 * i) * MS;
        j.arrive(&mut b, t);
    }
    b.update_target(j.wanted(), now + 5 * SEC);
    let grown = b.target_ms();
    assert!(grown > 60, "target 未增长: {}", grown);
    b.update_target(j.wanted(), now + 6 * SEC);
    for i in 0..20u64 {
        let t = now + (5060 + 60 * i) * MS;
        j.arrive(&mut b, t);
    }
    b.update_target(j.wanted(), now + 38 * SEC);
    assert!(
        b.target_ms() < grown,
        "稳定 30s 后 target 未收缩: {} -> {}",
        grown,
        b.target_ms()
    );
}

/// The levels of a voice detection, which the owner of a `Vad` keeps.
struct Levels {
    noise_floor: f32,
}

impl Levels {
    fn new() -> Self {
        Levels { noise_floor: 0.0001 }
    }

    fn decide(&mut self, vad: &mut Vad, rms: f32) -> bool {
        let on = (self.noise_floor * 10f32.powf(8.0 / 20.0)).max(0.0004);
        let off = (self.noise_floor * 10f32.powf(4.0 / 20.0)).max(0.0002);
        let (send, follow) = vad.decide(rms < off, rms >= on);
        if follow {
            self.noise_floor = self.noise_floor * 0.98 + rms * 0.02;
        }
        send
    }
}

#[test]
fn vad_triggers_on_speech_and_releases_after_silence() {
    let mut vad = Vad::new();
    let mut l = Levels::new();
    assert!(!l.decide(&mut vad, 0.0001));
    assert!(l.decide(&mut vad, 0.0056));
    assert!(l.decide(&mut vad, 0.003));
    assert!(l.decide(&mut vad, 0.00008));
    let mut released = false;
    for _ in 0..40 {
        if !l.decide(&mut vad, 0.00008) {
            released = true;
            break;
        }
    }
    assert!(released, "持续静音未释放");
    assert!(l.decide(&mut vad, 0.0056));
}

#[test]
fn vad_does_not_swallow_soft_speech_at_startup() {
    let mut vad = Vad::new();
    let mut l = Levels::new();
    assert!(l.decide(&mut vad, 0.0018), "启动即说话被 VAD 吞掉");
}

#[test]
fn encoder_frame_size_is_960() {
    assert_eq!(ENCODER_FRAME_SIZE, 960);
    assert_eq!(ENCODER_RATE * FRAME_MS / 1000, 960);
}

#[test]
fn vad_hangs_over_nineteen_quiet_frames() {
    let mut vad = Vad::new();
    assert_eq!(vad.decide(false, true), (true, false));
    for _ in 0..19 {
        assert_eq!(vad.decide(true, false), (true, false));
    }
    assert_eq!(vad.decide(true, false), (false, false));
    assert_eq!(vad.decide(true, false), (false, true));
}

#[test]
fn encoder_settings_per_grade() {
    let g = apply_encoder_config(NetworkGrade::Good);
    assert_eq!((g.bitrate, g.vbr, g.constrained_vbr, g.inband_fec, g.dtx, g.packet_loss_perc),
        (32_000, true, false, false, false, 0));
    let f = apply_encoder_config(NetworkGrade::Fair);
    assert_eq!((f.bitrate, f.vbr, f.constrained_vbr, f.inband_fec, f.dtx, f.packet_loss_perc),
        (28_000, true, false, true, false, 10));
    let p = apply_encoder_config(NetworkGrade::Poor);
    assert_eq!((p.bitrate, p.vbr, p.constrained_vbr, p.inband_fec, p.dtx, p.packet_loss_perc),
        (20_000, true, true, true, true, 15));
    let mut c = CodecState::new(24_000);
    assert_eq!(c.decode_frame_size, 1440);
    assert!(c.set_network_grade(NetworkGrade::Good).is_none());
    assert_eq!(c.set_network_grade(NetworkGrade::Poor), Some(p));
    assert!(c.set_network_grade(NetworkGrade::Poor).is_none());
}

#[test]
fn codec_answers_are_told_apart() {
    assert!(check_frame(960).is_ok());
    assert_eq!(
        check_frame(320).unwrap_err().message(),
        "Opus 错误: 编码帧大小不正确: 320 (期望 960)"
    );
    assert_eq!(opus_error_desc(-1, &Some("invalid argument".into())), "invalid argument (-1)");
    assert_eq!(opus_error_desc(-7, &None), "opus 错误码 -7");
    assert!(matches!(result_len(CodecCall::Encode, 12, &None), Ok(12)));
    assert_eq!(
        result_len(CodecCall::Decode, -4, &None).unwrap_err().message(),
        "Opus 错误: Opus 解码失败: opus 错误码 -4"
    );
    assert_eq!(
        codec_error(CodecCall::CreateEncoder, 0, &None).message(),
        "Opus 错误: 创建 Opus 编码器失败: opus 错误码 0"
    );
    assert_eq!(encoded_packet(&vec![1, 2, 3], 2), vec![1, 2]);
    assert_eq!(decode_mode(0, true), DecodeMode::Conceal);
    assert_eq!(decode_mode(3, true), DecodeMode::Recover);
    assert_eq!(decode_mode(3, false), DecodeMode::Plain);
}

#[test]
fn rings_carry_samples_in_order() {
    let (mut p, mut c) = new_ring(4);
    assert_eq!(free_slots(&mut p), 4);
    assert!(enqueue_all(&mut p, &[1, 2, 3]));
    assert!(!enqueue_all(&mut p, &[4, 5]));
    assert!(enqueue(&mut p, 4));
    assert!(!enqueue(&mut p, 5));
    assert_eq!(free_slots(&mut p), 0);
    for i in 1..=4 {
        assert_eq!(dequeue(&mut c), Some(i));
    }
    assert_eq!(dequeue(&mut c), None);
}

#[test]
fn output_plays_then_fades_out() {
    let loud = 0.5f32.to_bits();
    let (mut p, mut c) = new_ring(16);
    enqueue_all(&mut p, &[1.0f32.to_bits(), loud]);
    let mut u = Underrun::new(3);
    let mut data = vec![OutFrame::Silence; 11];
    let mut head = Playhead::new();
    assert_eq!(fill_output(&mut data, 2, &mut c, &mut head, &mut u), 2);
    assert_eq!(head, Playhead { taken: 2, mark: 0 });
    assert_eq!(data[0], OutFrame::Sample(1.0f32.to_bits()));
    assert_eq!(data[1], data[0]);
    assert_eq!(data[2], OutFrame::Sample(loud));
    assert_eq!(data[4], OutFrame::Fade { last: loud, left: 1, len: 3 });
    assert_eq!(data[5], data[4]);
    assert_eq!(data[6], OutFrame::Fade { last: loud, left: 0, len: 3 });
    assert_eq!(data[8], OutFrame::Silence);
    assert_eq!(data[10], OutFrame::Silence);
}

#[test]
fn silence_and_not_a_number_do_not_fade() {
    for quiet in [0.0f32, 0.0001, -0.0001, f32::NAN] {
        let mut u = Underrun::new(10);
        u.step(Some(quiet.to_bits()));
        assert_eq!(u.step(None), OutFrame::Silence);
    }
    for loud in [0.00011f32, -0.00011, f32::INFINITY] {
        let mut u = Underrun::new(10);
        u.step(Some(loud.to_bits()));
        assert!(matches!(u.step(None), OutFrame::Fade { left: 8, len: 10, .. }));
    }
    let mut u = Underrun::new(0);
    u.step(Some(1.0f32.to_bits()));
    assert_eq!(u.step(None), OutFrame::Silence);
}

#[test]
fn a_full_playback_ring_takes_nothing() {
    let (mut p, mut c) = new_ring(400);
    // At 1000 samples per second, 280 samples are 280 ms.
    assert_eq!(write_samples(&mut p, &[7; 281], 1000, 400), (400, 281));
    assert_eq!(write_samples(&mut p, &[8; 5], 1000, 400), (119, 0));
    dequeue(&mut c);
    assert_eq!(write_samples(&mut p, &[8; 500], 1000, 400), (120, 120));
    assert_eq!(free_slots(&mut p), 0);
}

#[test]
fn sample_queue_frames_without_loss() {
    let mut q = SampleQueue::new();
    q.extend(&[1, 2, 3]);
    assert_eq!(q.take(4), None);
    q.extend(&[4, 5]);
    assert_eq!(q.take(4), Some(vec![1, 2, 3, 4]));
    assert_eq!(q.take(1), Some(vec![5]));
    assert_eq!(q.take(0), Some(vec![]));
}

#[test]
fn capture_control_batches_frames_and_reports() {
    let (mut p, mut c) = new_ring(8192);
    let samples: Vec<u32> = (0..5000).collect();
    enqueue_all(&mut p, &samples);
    let mut ctl = CaptureControl::new(0);
    let mut chunk = Vec::new();
    assert!(ctl.drain_input(&mut chunk, &mut c));
    assert_eq!(chunk.len(), CAPTURE_BATCH);
    assert!(ctl.drain_input(&mut chunk, &mut c));
    assert_eq!(chunk.len(), 5000 - CAPTURE_BATCH);
    assert_eq!(chunk[0], CAPTURE_BATCH as u32);
    assert!(!ctl.drain_input(&mut chunk, &mut c));
    assert!(ctl.update_drift(499 * MS).is_none());
    assert_eq!(ctl.update_drift(500 * MS), Some((5000, 500 * MS)));
    ctl.accept(&samples[..1000]);
    assert_eq!(ctl.next_frame().unwrap(), samples[..960].to_vec());
    assert!(ctl.next_frame().is_none());
    assert_eq!(ctl.judge(false, true), (true, false));
    ctl.encoded();
    assert!(ctl.has_room());
    assert!(ctl.flush_stats(SEC).is_none());
    let s = ctl.flush_stats(2 * SEC).unwrap();
    assert_eq!((s.samples, s.frames, s.speech_frames, s.silence_frames), (5000, 1, 1, 0));
}

#[test]
fn playback_control_conceals_warns_and_reports() {
    let mut c = PlaybackControl::new(24_000, 0);
    let (a, gap) = c.handle_msg(PlaybackMsg::Audio(vec![1, 2]), SEC);
    assert!(matches!(a, PlayAction::Decode { opus, recover: false } if opus == vec![1, 2]));
    assert_eq!(gap, None);
    let (_, gap) = c.handle_msg(PlaybackMsg::Audio(vec![]), SEC + 70 * MS);
    assert_eq!(gap, Some(70 * MS));
    assert!(!c.conceal_due(SEC + 189 * MS));
    assert!(c.conceal_due(SEC + 190 * MS));
    assert_eq!(c.write_pcm(1440, false, 960, 2880), None);
    assert_eq!(c.write_pcm(960, true, 960, 0), None);
    assert_eq!(c.write_pcm(960, false, 960, 1), Some(1440));
    assert_eq!(c.write_pcm(960, false, 960, 1), None);
    c.decode_failed();
    c.wrote(100, 40);
    c.wrote(40, 100);
    c.set_grade(NetworkGrade::Fair);
    assert!(c.has_room());
    assert!(c.report(SEC).is_none());
    let s = c.report(2 * SEC).unwrap();
    assert_eq!(
        (s.received, s.decoded_ok, s.decoded_fail, s.plc, s.written, s.zero_produced),
        (2, 3, 1, 1, 60, 1)
    );
    assert_eq!(c.drift_due(100, 499 * MS), None);
    assert_eq!(c.drift_due(100, 500 * MS), Some(120));
    let (a, _) = c.handle_msg(PlaybackMsg::Flush, 3 * SEC);
    assert!(matches!(a, PlayAction::Flush { mark: 0 }));
    assert_eq!(c.buf.target_ms(), 60);
}

#[test]
fn depth_is_rounded_up_to_whole_frames() {
    let depth = |frame_ms: u64, wanted: u64| {
        let mut b = PlaybackBuffer::new(frame_ms);
        b.update_target(wanted, SEC);
        b.target_ms()
    };
    assert_eq!(depth(60, 80), 120);
    assert_eq!(depth(60, 120), 120);
    assert_eq!(depth(60, 121), 180);
    assert_eq!(depth(60, 181), 240);
    assert_eq!(depth(60, 1000), 240);
    assert_eq!(depth(60, u64::MAX), 240);
    assert_eq!(depth(60, 40), 60);
    assert_eq!(depth(0, 101), 101);
    assert_eq!(depth(u64::MAX, 101), 240);
    let mut b = PlaybackBuffer::new(60);
    let mut j = Jitter::new();
    j.arrive(&mut b, SEC);
    j.arrive(&mut b, SEC + 70 * MS);
    b.update_target(j.wanted(), 2 * SEC);
    assert_eq!(b.target_ms(), 120);
}

#[test]
fn a_flush_drops_what_is_queued() {
    let old = 0.5f32.to_bits();
    let new = 0.25f32.to_bits();
    let (mut p, mut c) = new_ring(64);
    let mut ctl = PlaybackControl::new(24_000, 0);
    let mut head = Playhead::new();
    let mut u = Underrun::new(4);
    assert!(ctl.can_write(10, 64));
    assert_eq!(ctl.deliver(&mut p, &[old; 10], 1000, 64), (64, 10, 54));
    assert_eq!((ctl.sent, ctl.stats.written), (10, 10));
    let mut data = vec![OutFrame::Silence; 3];
    assert_eq!(fill_output(&mut data, 1, &mut c, &mut head, &mut u), 3);
    assert_eq!(data, vec![OutFrame::Sample(old); 3]);
    let (a, _) = ctl.handle_msg(PlaybackMsg::Flush, SEC);
    match a {
        PlayAction::Flush { mark } => {
            assert_eq!(mark, 10);
            head.flush_to(mark);
        }
        _ => panic!("flush"),
    }
    assert_eq!(ctl.buf.target_ms(), 60);
    ctl.deliver(&mut p, &[new; 2], 1000, 64);
    head.flush_to(0);
    let mut data = vec![OutFrame::Silence; 3];
    assert!(head.has_room(3));
    assert_eq!(fill_output(&mut data, 1, &mut c, &mut head, &mut u), 2);
    assert_eq!(
        data,
        vec![
            OutFrame::Sample(new),
            OutFrame::Sample(new),
            OutFrame::Fade { last: new, left: 2, len: 4 }
        ]
    );
    assert_eq!(head, Playhead { taken: 12, mark: 10 });
}

#[test]
fn a_flush_of_an_empty_ring_holds_back_what_is_on_its_way() {
    let (mut p, mut c) = new_ring(8);
    let mut head = Playhead::new();
    let mut u = Underrun::new(1);
    head.flush_to(2);
    enqueue(&mut p, 1);
    let mut data = vec![OutFrame::Silence; 2];
    assert_eq!(fill_output(&mut data, 1, &mut c, &mut head, &mut u), 0);
    assert_eq!(data, vec![OutFrame::Silence; 2]);
    enqueue_all(&mut p, &[2, 3]);
    assert_eq!(fill_output(&mut data, 1, &mut c, &mut head, &mut u), 1);
    assert_eq!(data, vec![OutFrame::Sample(3), OutFrame::Silence]);
}

#[test]
fn a_weak_network_recovers_a_lost_frame() {
    let recovers = |grade: NetworkGrade, gap_ms: u64, ticks: u64, packet: Vec<u8>| {
        let mut c = PlaybackControl::new(24_000, 0);
        c.set_grade(grade);
        c.handle_msg(PlaybackMsg::Audio(vec![1]), SEC);
        for _ in 0..ticks {
            assert!(c.conceal_due(SEC + 120 * MS));
        }
        let (a, _) = c.handle_msg(PlaybackMsg::Audio(packet), SEC + gap_ms * MS);
        assert_eq!(c.concealed, 0);
        match a {
            PlayAction::Decode { recover, .. } => recover,
            _ => panic!("decode"),
        }
    };
    assert!(recovers(NetworkGrade::Fair, 120, 0, vec![2]));
    assert!(recovers(NetworkGrade::Poor, 180, 1, vec![2]));
    assert!(recovers(NetworkGrade::Poor, 1000, 0, vec![2]));
    assert!(!recovers(NetworkGrade::Good, 120, 0, vec![2]));
    assert!(!recovers(NetworkGrade::Fair, 119, 0, vec![2]));
    assert!(!recovers(NetworkGrade::Fair, 120, 1, vec![2]));
    assert!(!recovers(NetworkGrade::Fair, 180, 2, vec![2]));
    assert!(!recovers(NetworkGrade::Fair, 1001, 0, vec![2]));
    assert!(!recovers(NetworkGrade::Fair, 120, 0, vec![]));
}

fn device(format: SampleKind) -> DeviceConfig {
    DeviceConfig { sample_rate: 48_000, channels: 2, format }
}

fn start_error(a: StartAction) -> String {
    match a {
        StartAction::Failed(e) => e.message(),
        _ => panic!("not failed"),
    }
}

#[test]
fn pipeline_starts_in_order() {
    let (mut s, a) = PipelineSetup::begin(24_000);
    assert!(matches!(a, StartAction::QueryInput));
    assert!(matches!(
        s.step(StartEvent::Queried(Ok(device(SampleKind::I16)))),
        StartAction::QueryOutput
    ));
    assert!(matches!(
        s.step(StartEvent::Queried(Ok(device(SampleKind::U16)))),
        StartAction::BuildInput { format: InputFormat::I16, channels: 2, ring: 12288 }
    ));
    assert!(matches!(
        s.step(StartEvent::Done(Ok(()))),
        StartAction::BuildOutput {
            format: OutputFormat::U16,
            channels: 2,
            ring: 32768,
            ramp_len: 240
        }
    ));
    assert!(matches!(s.step(StartEvent::Done(Ok(()))), StartAction::StartInput));
    assert!(matches!(s.step(StartEvent::Done(Ok(()))), StartAction::StartOutput));
    assert!(matches!(
        s.step(StartEvent::Done(Ok(()))),
        StartAction::Ready { input_rate: 48_000, output_rate: 48_000, server_rate: 24_000 }
    ));
    assert!(matches!(s.step(StartEvent::Done(Ok(()))), StartAction::Ignored));
}

#[test]
fn pipeline_failures_name_their_cause() {
    let (mut s, _) = PipelineSetup::begin(16_000);
    assert_eq!(
        start_error(s.step(StartEvent::Queried(Err("e".into())))),
        "音频设备错误: 获取输入配置失败: e"
    );
    let (mut s, _) = PipelineSetup::begin(16_000);
    s.step(StartEvent::Queried(Ok(device(SampleKind::U16))));
    assert_eq!(
        start_error(s.step(StartEvent::Queried(Ok(device(SampleKind::F32))))),
        "音频设备错误: 不支持的输入格式: U16"
    );
    let (mut s, _) = PipelineSetup::begin(16_000);
    s.step(StartEvent::Queried(Ok(device(SampleKind::F32))));
    s.step(StartEvent::Queried(Ok(device(SampleKind::Other("I24".into())))));
    assert_eq!(
        start_error(s.step(StartEvent::Done(Ok(())))),
        "音频设备错误: 不支持的输出格式: I24"
    );
    assert!(check_devices(true, true).is_ok());
    assert_eq!(
        check_devices(false, false).unwrap_err().message(),
        "音频设备错误: 未找到输入设备"
    );
    assert_eq!(
        check_devices(true, false).unwrap_err().message(),
        "音频设备错误: 未找到输出设备"
    );
}
