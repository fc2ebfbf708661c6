//! A streaming session as a state machine: what to do next on every event.
//!
//! The session opens the audio device, starts the pipelines, tells the server that it listens,
//! and from there on is live. Whoever drives it performs the action of each step and comes back
//! with the next event.

use vstd::prelude::*;
use vstd::string::*;

use crate::audio::opus::NetworkGrade;
use crate::error::{ErrorKind, VoiceError};
use crate::protocol::message::{ClientMessage, ListenState, ServerMessage, TtsState};
use crate::protocol::{IncomingEvent, TransportHandles};
use crate::session::TransportKind;
use crate::supervisor::policy::LossEstimator;
use crate::{clock, text};

verus! {

/// Period of the ticks that a live session gets, in milliseconds.
pub const TICK_MS: u64 = 250;

/// A sentence without any media for this long is a black hole.
pub const FIRST_MEDIA_LIMIT: u64 = 10_000_000_000;

/// A sentence whose media stopped for this long is a black hole.
pub const MEDIA_GAP_LIMIT: u64 = 3_000_000_000;

/// How often the downlink frames are reported.
pub const DIAG_INTERVAL: u64 = 2_000_000_000;

/// How often the network grade is handed to the audio pipelines.
pub const GRADE_INTERVAL: u64 = 10_000_000_000;

/// What is known of the server's speech.
#[derive(Debug, Clone, Copy, PartialEq, Eq, Structural)]
pub struct SessionCtx {
    pub tts_active: bool,
    pub sentence_has_media: bool,
    /// When the speech began.
    pub tts_started_at: Option<u64>,
}

impl SessionCtx {
    /// No speech.
    pub open spec fn idle() -> SessionCtx {
        SessionCtx { tts_active: false, sentence_has_media: false, tts_started_at: None }
    }

    /// No speech.
    pub fn new() -> (c: Self)
        ensures
            c == Self::idle(),
    {
        SessionCtx { tts_active: false, sentence_has_media: false, tts_started_at: None }
    }
}

/// Something for a person to read.
#[derive(Debug)]
pub enum Line {
    Assistant(String),
    User(String),
    System(String),
}

/// What a server message asks for.
#[derive(Debug, Clone, Copy, PartialEq, Eq, Structural)]
pub enum JsonAction {
    Nothing,
    /// Drop what is still buffered for playback.
    FlushPlayback,
    /// The server said goodbye.
    EndSession,
}

/// The context after a server message.
pub open spec fn ctx_after(msg: ServerMessage, ctx: SessionCtx, now: u64) -> SessionCtx {
    match msg {
        ServerMessage::Tts { state: TtsState::Start, .. } => SessionCtx {
            tts_active: true,
            sentence_has_media: false,
            tts_started_at: Some(now),
        },
        ServerMessage::Tts { state: TtsState::Stop, .. } => SessionCtx::idle(),
        _ => ctx,
    }
}

/// What a server message asks for: the beginning of speech flushes the playback, where there is
/// one, and a goodbye ends the session.
pub open spec fn asked_by(msg: ServerMessage, playback: bool) -> JsonAction {
    match msg {
        ServerMessage::Tts { state: TtsState::Start, .. } => if playback {
            JsonAction::FlushPlayback
        } else {
            JsonAction::Nothing
        },
        ServerMessage::Goodbye { .. } => JsonAction::EndSession,
        _ => JsonAction::Nothing,
    }
}

/// What a server message says to a person.
pub open spec fn said_by(msg: ServerMessage) -> Option<Line> {
    match msg {
        ServerMessage::Tts { state: TtsState::SentenceStart, text: Some(t) } => Some(
            Line::Assistant(t),
        ),
        ServerMessage::Stt { text } => Some(Line::User(text)),
        ServerMessage::Llm { text: Some(t) } => Some(Line::Assistant(t)),
        ServerMessage::System { command } => Some(Line::System(command)),
        _ => None,
    }
}

/// Takes note of a server message.
pub fn handle_json(msg: ServerMessage, ctx: &mut SessionCtx, playback: bool, now: u64) -> (r: (
    JsonAction,
    Option<Line>,
))
    ensures
        *final(ctx) == ctx_after(msg, *old(ctx), now),
        r.0 == asked_by(msg, playback),
        r.1 == said_by(msg),
{
    match msg {
        ServerMessage::Tts { state, text } => match state {
            TtsState::Start => {
                ctx.tts_active = true;
                ctx.sentence_has_media = false;
                ctx.tts_started_at = Some(now);
                if playback {
                    (JsonAction::FlushPlayback, None)
                } else {
                    (JsonAction::Nothing, None)
                }
            },
            TtsState::Stop => {
                ctx.tts_active = false;
                ctx.sentence_has_media = false;
                ctx.tts_started_at = None;
                (JsonAction::Nothing, None)
            },
            TtsState::SentenceStart => match text {
                Some(t) => (JsonAction::Nothing, Some(Line::Assistant(t))),
                None => (JsonAction::Nothing, None),
            },
            TtsState::SentenceStop => (JsonAction::Nothing, None),
            TtsState::SentenceEnd => (JsonAction::Nothing, None),
        },
        ServerMessage::Stt { text } => (JsonAction::Nothing, Some(Line::User(text))),
        ServerMessage::Llm { text } => match text {
            Some(t) => (JsonAction::Nothing, Some(Line::Assistant(t))),
            None => (JsonAction::Nothing, None),
        },
        ServerMessage::System { command } => (JsonAction::Nothing, Some(Line::System(command))),
        ServerMessage::Goodbye { session_id: _ } => (JsonAction::EndSession, None),
        _ => (JsonAction::Nothing, None),
    }
}

/// What a live session keeps track of.
pub struct StreamSession {
    pub ctx: SessionCtx,
    pub loss: LossEstimator,
    pub last_audio: u64,
    pub last_grade_check: u64,
    pub downlink_frames: u64,
    pub downlink_diag: u64,
    pub first_frame_logged: bool,
}

impl StreamSession {
    /// Whether this is a session that went live at `now`.
    pub open spec fn is_fresh(self, now: u64) -> bool {
        &&& self.ctx == SessionCtx::idle()
        &&& self.loss == (LossEstimator {
            last: None,
            received: 0,
            lost: 0,
            window_start: now,
            grade: NetworkGrade::Good,
        })
        &&& self.last_audio == now
        &&& self.last_grade_check == now
        &&& self.downlink_frames == 0
        &&& self.downlink_diag == now
        &&& !self.first_frame_logged
    }

    /// A session that goes live at `now`.
    pub fn new(now: u64) -> (s: Self)
        ensures
            s.is_fresh(now),
    {
        StreamSession {
            ctx: SessionCtx::new(),
            loss: LossEstimator::new(now),
            last_audio: now,
            last_grade_check: now,
            downlink_frames: 0,
            downlink_diag: now,
            first_frame_logged: false,
        }
    }

    /// Whether the counters can take one more frame.
    pub open spec fn room(self) -> bool {
        self.loss.room() && self.downlink_frames < u64::MAX
    }

    /// Whether a sentence of the server gets no media: none for ten seconds after its beginning,
    /// or none for three seconds after some. TCP does not lose media, so this holds of the
    /// UDP link only.
    pub open spec fn black_hole(self, kind: TransportKind, now: u64) -> bool {
        &&& kind == TransportKind::MqttUdp
        &&& self.ctx.tts_active
        &&& if self.ctx.sentence_has_media {
            clock::span(now, self.last_audio) >= MEDIA_GAP_LIMIT
        } else {
            self.ctx.tts_started_at matches Some(t) && clock::span(now, t) >= FIRST_MEDIA_LIMIT
        }
    }

    /// Whether a sentence of the server gets no media.
    pub fn is_black_hole(&self, kind: TransportKind, now: u64) -> (r: bool)
        ensures
            r == self.black_hole(kind, now),
    {
        if kind == TransportKind::MqttUdp && self.ctx.tts_active {
            if self.ctx.sentence_has_media {
                clock::elapsed(now, self.last_audio) >= MEDIA_GAP_LIMIT
            } else {
                match self.ctx.tts_started_at {
                    Some(t) => clock::elapsed(now, t) >= FIRST_MEDIA_LIMIT,
                    None => false,
                }
            }
        } else {
            false
        }
    }

    /// The session after a tick that found no black hole.
    pub open spec fn after_tick(self, now: u64) -> StreamSession {
        let report = clock::span(now, self.downlink_diag) >= DIAG_INTERVAL;
        StreamSession {
            downlink_frames: if report {
                0
            } else {
                self.downlink_frames
            },
            downlink_diag: if report {
                now
            } else {
                self.downlink_diag
            },
            last_grade_check: if clock::span(now, self.last_grade_check) >= GRADE_INTERVAL {
                now
            } else {
                self.last_grade_check
            },
            ..self
        }
    }

    /// The session after an audio frame. Only the UDP link can lose frames.
    pub open spec fn after_audio(self, kind: TransportKind, now: u64) -> StreamSession {
        StreamSession {
            ctx: SessionCtx { sentence_has_media: true, ..self.ctx },
            loss: if kind == TransportKind::MqttUdp {
                self.loss.after_frame(now)
            } else {
                self.loss
            },
            last_audio: now,
            downlink_frames: (self.downlink_frames + 1) as u64,
            first_frame_logged: true,
            ..self
        }
    }
}

/// Where a streaming session stands.
#[derive(Debug, Clone, Copy, PartialEq, Eq, Structural)]
pub enum Phase {
    /// Waits for the audio device.
    OpeningDevice,
    /// Waits for the audio pipelines.
    StartingAudio,
    /// Waits for the listen message to leave.
    SendingListen,
    /// Takes ticks and incoming events.
    Live,
    /// Waits for the playback to take a flush.
    Flushing,
    /// Waits for the playback to take a frame.
    Queueing,
    /// Has ended.
    Over,
}

/// What happened.
pub enum StreamEvent {
    /// The device is open, or why it is not.
    DeviceOpened(Result<(), String>),
    /// The pipelines run, with or without a playback, or why they do not.
    AudioStarted(Result<bool, VoiceError>),
    /// The listen message is on its way, or why it is not.
    ListenSent(Result<(), String>),
    /// The program is to stop.
    Shutdown,
    /// A tick of the live session.
    Tick,
    /// The transport delivered something; `None` where its channel is closed.
    Incoming(Option<IncomingEvent>),
    /// The playback took the flush, or why it did not.
    FlushSent(Result<(), String>),
    /// The playback took the frame, or why it did not.
    FrameQueued(Result<(), String>),
}

/// What to do next.
pub enum StreamAction {
    OpenDevice,
    /// Start the pipelines for the server's sample rate.
    StartAudio { server_rate: u32 },
    Send(ClientMessage),
    /// Wait for the next tick, incoming event or shutdown.
    Wait,
    FlushPlayback,
    PlayFrame(Vec<u8>),
    SetGrade(NetworkGrade),
    /// Send `abort` if there is one, stop the audio if asked to, and report `result`.
    Finish { result: Result<(), VoiceError>, abort: Option<ClientMessage>, stop_audio: bool },
}

/// One step of a session: what to do, and what to show.
pub struct StreamStep {
    pub action: StreamAction,
    pub line: Option<Line>,
    /// Frames received since the last report, when one is due.
    pub downlink: Option<u64>,
    /// The first bytes of the first frame, in hexadecimal.
    pub first_frame: Option<String>,
}

/// A streaming session.
pub struct StreamMachine {
    pub kind: TransportKind,
    pub session_id: String,
    pub server_rate: u32,
    pub device_open: bool,
    pub playback: bool,
    pub phase: Phase,
    pub session: StreamSession,
}

/// Whether a message tells the server that the session is terminated.
pub open spec fn is_abort(m: ClientMessage, id: Seq<char>) -> bool {
    m matches ClientMessage::Abort { session_id, reason } && session_id@ == id && reason@
        == "session_terminated"@
}

/// Whether a message tells the server that the client listens, in realtime mode.
pub open spec fn is_listen_start(m: ClientMessage, id: Seq<char>) -> bool {
    &&& m matches ClientMessage::Listen { session_id, state, mode, text }
    &&& session_id@ == id
    &&& state == ListenState::Start
    &&& mode matches Some(s) && s@ == "realtime"@
    &&& text is None
}

/// Whether the action ends a session that never went live with this error: nothing was promised
/// to the server yet.
pub open spec fn fails_early(a: StreamAction, kind: ErrorKind, detail: Seq<char>) -> bool {
    a matches StreamAction::Finish { result: Err(e), abort: None, stop_audio: false } && e.is(
        kind,
        detail,
    )
}

/// Whether the action ends a live session with this error: the server is told and the audio
/// stops.
pub open spec fn fails_live(a: StreamAction, id: Seq<char>, kind: ErrorKind, detail: Seq<char>) -> bool {
    &&& a matches StreamAction::Finish { result: Err(e), abort: Some(m), stop_audio: true }
    &&& e.is(kind, detail)
    &&& is_abort(m, id)
}

/// Whether the action ends a live session in peace.
pub open spec fn ends_well(a: StreamAction) -> bool {
    a matches StreamAction::Finish { result: Ok(()), abort: None, stop_audio: true }
}

/// Whether a step shows nothing but, perhaps, a line.
pub open spec fn shows(step: StreamStep, line: Option<Line>) -> bool {
    step.line == line && step.downlink is None && step.first_frame is None
}

impl StreamMachine {
    /// The machine in another phase.
    pub open spec fn to(self, phase: Phase) -> StreamMachine {
        StreamMachine { phase, ..self }
    }

    /// Whether a tick of a live session leads to `post` and `step`.
    pub open spec fn ticked(self, now: u64, post: StreamMachine, step: StreamStep) -> bool {
        if self.session.black_hole(self.kind, now) {
            &&& post == self.to(Phase::Over)
            &&& fails_live(step.action, self.session_id@, ErrorKind::Transport, "UDP 黑洞"@)
            &&& shows(step, None)
        } else {
            &&& post == (StreamMachine { session: self.session.after_tick(now), ..self })
            &&& step.action == if clock::span(now, self.session.last_grade_check)
                >= GRADE_INTERVAL {
                StreamAction::SetGrade(self.session.loss.grade)
            } else {
                StreamAction::Wait
            }
            &&& step.downlink == if clock::span(now, self.session.downlink_diag) >= DIAG_INTERVAL {
                Some(self.session.downlink_frames)
            } else {
                None
            }
            &&& step.line is None
            &&& step.first_frame is None
        }
    }

    /// Whether an audio frame of a live session leads to `post` and `step`.
    pub open spec fn heard(
        self,
        data: Vec<u8>,
        now: u64,
        post: StreamMachine,
        step: StreamStep,
    ) -> bool {
        &&& post == (StreamMachine {
            session: self.session.after_audio(self.kind, now),
            phase: if self.playback {
                Phase::Queueing
            } else {
                Phase::Live
            },
            ..self
        })
        &&& step.action == if self.playback {
            StreamAction::PlayFrame(data)
        } else {
            StreamAction::Wait
        }
        &&& step.line is None
        &&& step.downlink is None
        &&& match step.first_frame {
            Some(hex) => !self.session.first_frame_logged && hex@ == text::separated_hex(
                data@.take(if data@.len() < 16 {
                    data@.len() as int
                } else {
                    16
                }),
                ' ',
            ),
            None => self.session.first_frame_logged,
        }
    }

    /// Whether a server message to a live session leads to `post` and `step`.
    pub open spec fn told(
        self,
        msg: ServerMessage,
        now: u64,
        post: StreamMachine,
        step: StreamStep,
    ) -> bool {
        let noted = StreamMachine {
            session: StreamSession { ctx: ctx_after(msg, self.session.ctx, now), ..self.session },
            ..self
        };
        &&& shows(step, said_by(msg))
        &&& match asked_by(msg, self.playback) {
            JsonAction::Nothing => post == noted && step.action == StreamAction::Wait,
            JsonAction::FlushPlayback => post == noted.to(Phase::Flushing) && step.action
                == StreamAction::FlushPlayback,
            JsonAction::EndSession => post == noted.to(Phase::Over) && ends_well(step.action),
        }
    }

    /// Whether an event at `now` leads to `post` and `step`. An event that the phase does not
    /// wait for changes nothing.
    pub open spec fn stepped(
        self,
        event: StreamEvent,
        now: u64,
        post: StreamMachine,
        step: StreamStep,
    ) -> bool {
        let id = self.session_id@;
        match (self.phase, event) {
            (Phase::OpeningDevice, StreamEvent::DeviceOpened(Ok(_))) => {
                &&& post == (StreamMachine {
                    device_open: true,
                    phase: Phase::StartingAudio,
                    ..self
                })
                &&& step.action == (StreamAction::StartAudio { server_rate: self.server_rate })
                &&& shows(step, None)
            },
            (Phase::OpeningDevice, StreamEvent::DeviceOpened(Err(why))) => {
                &&& post == self.to(Phase::Over)
                &&& fails_early(step.action, ErrorKind::Audio, "音频设备不可用: "@ + why@)
                &&& shows(step, None)
            },
            (Phase::StartingAudio, StreamEvent::AudioStarted(Ok(playback))) => {
                &&& post == (StreamMachine { playback, phase: Phase::SendingListen, ..self })
                &&& step.action matches StreamAction::Send(m) && is_listen_start(m, id)
                &&& shows(step, None)
            },
            (Phase::StartingAudio, StreamEvent::AudioStarted(Err(e))) => {
                &&& post == self.to(Phase::Over)
                &&& step.action == (StreamAction::Finish {
                    result: Err(e),
                    abort: None,
                    stop_audio: false,
                })
                &&& shows(step, None)
            },
            (Phase::SendingListen, StreamEvent::ListenSent(Ok(_))) => {
                &&& post == (StreamMachine { phase: Phase::Live, session: post.session, ..self })
                &&& post.session.is_fresh(now)
                &&& step.action == StreamAction::Wait
                &&& shows(step, None)
            },
            (Phase::SendingListen, StreamEvent::ListenSent(Err(why))) => {
                &&& post == self.to(Phase::Over)
                &&& fails_early(step.action, ErrorKind::Transport, "发送 listen 失败: "@ + why@)
                &&& shows(step, None)
            },
            (Phase::Live, StreamEvent::Shutdown) => {
                &&& post == self.to(Phase::Over)
                &&& ends_well(step.action)
                &&& shows(step, None)
            },
            (Phase::Live, StreamEvent::Tick) => self.ticked(now, post, step),
            (Phase::Live, StreamEvent::Incoming(Some(IncomingEvent::Json(msg)))) => self.told(
                msg,
                now,
                post,
                step,
            ),
            (Phase::Live, StreamEvent::Incoming(Some(IncomingEvent::Audio(data)))) => self.heard(
                data,
                now,
                post,
                step,
            ),
            (Phase::Live, StreamEvent::Incoming(Some(IncomingEvent::Closed))) => {
                &&& post == self.to(Phase::Over)
                &&& fails_live(step.action, id, ErrorKind::Transport, "传输层已断开"@)
                &&& shows(step, None)
            },
            (Phase::Live, StreamEvent::Incoming(None)) => {
                &&& post == self.to(Phase::Over)
                &&& fails_live(step.action, id, ErrorKind::Transport, "传输通道关闭"@)
                &&& shows(step, None)
            },
            (Phase::Flushing, StreamEvent::FlushSent(Ok(_))) => {
                &&& post == self.to(Phase::Live)
                &&& step.action == StreamAction::Wait
                &&& shows(step, None)
            },
            (Phase::Flushing, StreamEvent::FlushSent(Err(why))) => {
                &&& post == self.to(Phase::Over)
                &&& fails_live(step.action, id, ErrorKind::Audio, "TTS 清缓冲失败: "@ + why@)
                &&& shows(step, None)
            },
            (Phase::Queueing, StreamEvent::FrameQueued(Ok(_))) => {
                &&& post == self.to(Phase::Live)
                &&& step.action == StreamAction::Wait
                &&& shows(step, None)
            },
            (Phase::Queueing, StreamEvent::FrameQueued(Err(why))) => {
                &&& post == self.to(Phase::Over)
                &&& fails_live(step.action, id, ErrorKind::Audio, "下行队列失败: "@ + why@)
                &&& shows(step, None)
            },
            _ => post == self && step.action == StreamAction::Wait && shows(step, None),
        }
    }

    /// A session over a negotiated connection, and the first thing to do for it: open the audio
    /// device unless it is open already.
    pub fn begin(kind: TransportKind, handles: TransportHandles, device_open: bool, now: u64) -> (r:
        (StreamMachine, StreamAction))
        ensures
            r.0.kind == kind,
            r.0.session_id == handles.session_id,
            r.0.server_rate == handles.server_audio.sample_rate,
            r.0.device_open == device_open,
            !r.0.playback,
            r.0.session.is_fresh(now),
            r.0.phase == if device_open {
                Phase::StartingAudio
            } else {
                Phase::OpeningDevice
            },
            r.1 == if device_open {
                StreamAction::StartAudio { server_rate: handles.server_audio.sample_rate }
            } else {
                StreamAction::OpenDevice
            },
    {
        let server_rate: u32 = handles.server_audio.sample_rate;
        let machine = StreamMachine {
            kind,
            session_id: handles.session_id,
            server_rate,
            device_open,
            playback: false,
            phase: if device_open {
                Phase::StartingAudio
            } else {
                Phase::OpeningDevice
            },
            session: StreamSession::new(now),
        };
        let action = if device_open {
            StreamAction::StartAudio { server_rate }
        } else {
            StreamAction::OpenDevice
        };
        (machine, action)
    }

    /// Whether the counters can take one more frame.
    pub fn has_room(&self) -> (r: bool)
        ensures
            r == self.session.room(),
    {
        self.session.loss.has_room() && self.session.downlink_frames < u64::MAX
    }

    /// Ends a session that never went live.
    fn fail_early(&mut self, e: VoiceError) -> (s: StreamStep)
        ensures
            *final(self) == old(self).to(Phase::Over),
            s.action == (StreamAction::Finish { result: Err(e), abort: None, stop_audio: false }),
            shows(s, None),
    {
        self.phase = Phase::Over;
        quiet(StreamAction::Finish { result: Err(e), abort: None, stop_audio: false })
    }

    /// Ends a live session with an error.
    fn fail_live(&mut self, e: VoiceError) -> (s: StreamStep)
        ensures
            *final(self) == old(self).to(Phase::Over),
            fails_live(s.action, old(self).session_id@, e.kind_spec(), e.detail()),
            shows(s, None),
    {
        self.phase = Phase::Over;
        let abort = ClientMessage::Abort {
            session_id: self.session_id.clone(),
            reason: "session_terminated".to_owned(),
        };
        quiet(StreamAction::Finish { result: Err(e), abort: Some(abort), stop_audio: true })
    }

    /// Takes a tick.
    fn tick(&mut self, now: u64) -> (s: StreamStep)
        requires
            old(self).phase == Phase::Live,
        ensures
            old(self).ticked(now, *final(self), s),
    {
        if self.session.is_black_hole(self.kind, now) {
            return self.fail_live(VoiceError::Transport("UDP 黑洞".to_owned()));
        }
        let mut downlink: Option<u64> = None;
        if clock::elapsed(now, self.session.downlink_diag) >= DIAG_INTERVAL {
            downlink = Some(self.session.downlink_frames);
            self.session.downlink_frames = 0;
            self.session.downlink_diag = now;
        }
        let mut action = StreamAction::Wait;
        if clock::elapsed(now, self.session.last_grade_check) >= GRADE_INTERVAL {
            action = StreamAction::SetGrade(self.session.loss.grade);
            self.session.last_grade_check = now;
        }
        StreamStep { action, line: None, downlink, first_frame: None }
    }

    /// Takes an audio frame.
    fn hear(&mut self, data: Vec<u8>, now: u64) -> (s: StreamStep)
        requires
            old(self).phase == Phase::Live,
            old(self).session.room(),
        ensures
            old(self).heard(data, now, *final(self), s),
    {
        self.session.last_audio = now;
        self.session.ctx.sentence_has_media = true;
        let mut first_frame: Option<String> = None;
        if !self.session.first_frame_logged {
            self.session.first_frame_logged = true;
            let n: usize = if data.len() < 16 {
                data.len()
            } else {
                16
            };
            first_frame = Some(text::to_separated_hex(data.as_slice(), n, ' '));
        }
        self.session.downlink_frames = self.session.downlink_frames + 1;
        if self.kind == TransportKind::MqttUdp {
            self.session.loss.observe_frame(now);
        }
        let action = if self.playback {
            self.phase = Phase::Queueing;
            StreamAction::PlayFrame(data)
        } else {
            StreamAction::Wait
        };
        StreamStep { action, line: None, downlink: None, first_frame }
    }

    /// Takes a server message.
    fn hear_json(&mut self, msg: ServerMessage, now: u64) -> (s: StreamStep)
        requires
            old(self).phase == Phase::Live,
        ensures
            old(self).told(msg, now, *final(self), s),
    {
        let (asked, line) = handle_json(msg, &mut self.session.ctx, self.playback, now);
        let action = match asked {
            JsonAction::Nothing => StreamAction::Wait,
            JsonAction::FlushPlayback => {
                self.phase = Phase::Flushing;
                StreamAction::FlushPlayback
            },
            JsonAction::EndSession => {
                self.phase = Phase::Over;
                StreamAction::Finish { result: Ok(()), abort: None, stop_audio: true }
            },
        };
        StreamStep { action, line, downlink: None, first_frame: None }
    }

    /// Takes an event that happened at `now`.
    pub fn step(&mut self, event: StreamEvent, now: u64) -> (s: StreamStep)
        requires
            old(self).session.room(),
        ensures
            old(self).stepped(event, now, *final(self), s),
    {
        match (self.phase, event) {
            (Phase::OpeningDevice, StreamEvent::DeviceOpened(r)) => match r {
                Ok(_) => {
                    self.device_open = true;
                    self.phase = Phase::StartingAudio;
                    quiet(StreamAction::StartAudio { server_rate: self.server_rate })
                },
                Err(why) => self.fail_early(
                    VoiceError::Audio(text::join("音频设备不可用: ", why.as_str())),
                ),
            },
            (Phase::StartingAudio, StreamEvent::AudioStarted(r)) => match r {
                Ok(playback) => {
                    self.playback = playback;
                    self.phase = Phase::SendingListen;
                    quiet(
                        StreamAction::Send(
                            ClientMessage::Listen {
                                session_id: self.session_id.clone(),
                                state: ListenState::Start,
                                mode: Some("realtime".to_owned()),
                                text: None,
                            },
                        ),
                    )
                },
                Err(e) => self.fail_early(e),
            },
            (Phase::SendingListen, StreamEvent::ListenSent(r)) => match r {
                Ok(_) => {
                    self.phase = Phase::Live;
                    self.session = StreamSession::new(now);
                    quiet(StreamAction::Wait)
                },
                Err(why) => self.fail_early(
                    VoiceError::Transport(text::join("发送 listen 失败: ", why.as_str())),
                ),
            },
            (Phase::Live, StreamEvent::Shutdown) => {
                self.phase = Phase::Over;
                quiet(StreamAction::Finish { result: Ok(()), abort: None, stop_audio: true })
            },
            (Phase::Live, StreamEvent::Tick) => self.tick(now),
            (Phase::Live, StreamEvent::Incoming(incoming)) => match incoming {
                Some(IncomingEvent::Json(msg)) => self.hear_json(msg, now),
                Some(IncomingEvent::Audio(data)) => self.hear(data, now),
                Some(IncomingEvent::Closed) => self.fail_live(
                    VoiceError::Transport("传输层已断开".to_owned()),
                ),
                None => self.fail_live(VoiceError::Transport("传输通道关闭".to_owned())),
            },
            (Phase::Flushing, StreamEvent::FlushSent(r)) => match r {
                Ok(_) => {
                    self.phase = Phase::Live;
                    quiet(StreamAction::Wait)
                },
                Err(why) => self.fail_live(
                    VoiceError::Audio(text::join("TTS 清缓冲失败: ", why.as_str())),
                ),
            },
            (Phase::Queueing, StreamEvent::FrameQueued(r)) => match r {
                Ok(_) => {
                    self.phase = Phase::Live;
                    quiet(StreamAction::Wait)
                },
                Err(why) => self.fail_live(
                    VoiceError::Audio(text::join("下行队列失败: ", why.as_str())),
                ),
            },
            _ => quiet(StreamAction::Wait),
        }
    }
}

/// A step that shows nothing.
fn quiet(action: StreamAction) -> (s: StreamStep)
    ensures
        s.action == action,
        shows(s, None),
{
    StreamStep { action, line: None, downlink: None, first_frame: None }
}

/// Whether a phase comes after the listen message was sent and before the end.
pub open spec fn is_live(p: Phase) -> bool {
    p == Phase::Live || p == Phase::Flushing || p == Phase::Queueing
}

/// The server is told of the end exactly where a live session ends with an error, and with the
/// id of that session.
pub proof fn law_abort_on_live_error(
    pre: StreamMachine,
    event: StreamEvent,
    now: u64,
    post: StreamMachine,
    step: StreamStep,
)
    requires
        pre.stepped(event, now, post, step),
    ensures
        step.action matches StreamAction::Finish { result, abort, stop_audio } ==> {
            &&& abort is Some <==> (is_live(pre.phase) && result is Err)
            &&& abort matches Some(m) ==> is_abort(m, pre.session_id@)
            &&& stop_audio == is_live(pre.phase)
        },
{
}

/// A session finishes once: the step that finishes leads to the end, and from the end no event
/// leads anywhere.
pub proof fn law_finish_is_final(
    pre: StreamMachine,
    event: StreamEvent,
    now: u64,
    post: StreamMachine,
    step: StreamStep,
)
    requires
        pre.stepped(event, now, post, step),
    ensures
        pre.phase != Phase::Over ==> (step.action is Finish <==> post.phase == Phase::Over),
        pre.phase == Phase::Over ==> post == pre && step.action == StreamAction::Wait,
{
}

/// Every session tells the server that it listens before it goes live: a session goes live only
/// by the event that the listen message was sent, in the phase that only the sending leads to.
pub proof fn law_listen_before_live(
    pre: StreamMachine,
    event: StreamEvent,
    now: u64,
    post: StreamMachine,
    step: StreamStep,
)
    requires
        pre.stepped(event, now, post, step),
    ensures
        is_live(post.phase) && !is_live(pre.phase) ==> pre.phase == Phase::SendingListen
            && (event matches StreamEvent::ListenSent(r) && r is Ok),
        post.phase == Phase::SendingListen && pre.phase != Phase::SendingListen ==> {
            step.action matches StreamAction::Send(m) && is_listen_start(m, pre.session_id@)
        },
{
}

/// Session id, transport and sample rate of a session never change.
pub proof fn law_session_identity_is_kept(
    pre: StreamMachine,
    event: StreamEvent,
    now: u64,
    post: StreamMachine,
    step: StreamStep,
)
    requires
        pre.stepped(event, now, post, step),
    ensures
        post.session_id == pre.session_id,
        post.kind == pre.kind,
        post.server_rate == pre.server_rate,
{
}

/// A session over WebSocket never ends by the black hole rule and never estimates loss.
pub proof fn law_websocket_has_no_black_hole(
    pre: StreamMachine,
    event: StreamEvent,
    now: u64,
    post: StreamMachine,
    step: StreamStep,
)
    requires
        pre.stepped(event, now, post, step),
        pre.kind == TransportKind::WebSocket,
        is_live(pre.phase),
    ensures
        event is Tick ==> !(step.action is Finish),
        post.session.loss == pre.session.loss,
{
}

/// A message that tells the end of the server's speech ends it, whatever was known before: nothing
/// of it is left, and until speech begins again no instant is a black hole over any transport.
pub proof fn law_stop_ends_the_speech(
    ctx: &mut SessionCtx,
    msg: ServerMessage,
    playback: bool,
    now: u64,
    r: (JsonAction, Option<Line>),
    session: StreamSession,
    kind: TransportKind,
    later: u64,
)
    requires
        call_ensures(handle_json, (msg, ctx, playback, now), r),
        msg matches ServerMessage::Tts { state: TtsState::Stop, .. },
        session.ctx.tts_active == final(ctx).tts_active,
    ensures
        !final(ctx).tts_active,
        !final(ctx).sentence_has_media,
        final(ctx).tts_started_at is None,
        r.0 == JsonAction::Nothing,
        r.1 is None,
        !session.black_hole(kind, later),
{
}

/// Without speech there is no black hole: until the server says that it speaks, no event makes the
/// session count as speaking, and no tick ends it.
pub proof fn law_silence_is_no_black_hole(
    m: &mut StreamMachine,
    event: StreamEvent,
    now: u64,
    s: StreamStep,
)
    requires
        call_ensures(StreamMachine::step, (m, event, now), s),
        !old(m).session.ctx.tts_active,
    ensures
        event is Tick ==> !(s.action is Finish),
        final(m).session.ctx.tts_active ==> (event matches StreamEvent::Incoming(
            Some(IncomingEvent::Json(ServerMessage::Tts { state: TtsState::Start, .. })),
        )),
{
}

/// A reply that is over ends no session: after the end of speech was told, audio frames that still
/// come, other messages and ticks leave the session live.
pub proof fn law_finished_reply_keeps_the_session(
    m: &mut StreamMachine,
    msg: ServerMessage,
    told_at: u64,
    s: StreamStep,
    n: &mut StreamMachine,
    data: Vec<u8>,
    heard_at: u64,
    t: StreamStep,
    o: &mut StreamMachine,
    ticked_at: u64,
    u: StreamStep,
)
    requires
        old(m).phase == Phase::Live,
        msg matches ServerMessage::Tts { state: TtsState::Stop, .. },
        call_ensures(
            StreamMachine::step,
            (m, StreamEvent::Incoming(Some(IncomingEvent::Json(msg))), told_at),
            s,
        ),
        *old(n) == *final(m),
        call_ensures(
            StreamMachine::step,
            (n, StreamEvent::Incoming(Some(IncomingEvent::Audio(data))), heard_at),
            t,
        ),
        old(o).session == final(n).session,
        old(o).kind == final(n).kind,
        old(o).phase == Phase::Live,
        call_ensures(StreamMachine::step, (o, StreamEvent::Tick, ticked_at), u),
    ensures
        final(m).phase == Phase::Live,
        s.action == StreamAction::Wait,
        !(t.action is Finish),
        !(u.action is Finish),
        final(o).phase == Phase::Live,
{
}

/// A message that tells the beginning of the server's speech starts it anew: no media yet, from
/// now on, and the playback is flushed exactly where there is one.
pub proof fn law_start_begins_the_speech(
    ctx: &mut SessionCtx,
    msg: ServerMessage,
    playback: bool,
    now: u64,
    r: (JsonAction, Option<Line>),
)
    requires
        call_ensures(handle_json, (msg, ctx, playback, now), r),
        msg matches ServerMessage::Tts { state: TtsState::Start, .. },
    ensures
        final(ctx).tts_active,
        !final(ctx).sentence_has_media,
        final(ctx).tts_started_at == Some(now),
        r.0 == JsonAction::FlushPlayback <==> playback,
        r.0 == JsonAction::Nothing <==> !playback,
        r.1 is None,
{
}

/// Nothing but the beginning and the end of speech changes what is known of it, nothing but a
/// goodbye asks for the end, and nothing but the beginning of speech for a flush.
pub proof fn law_other_messages_change_nothing(
    ctx: &mut SessionCtx,
    msg: ServerMessage,
    playback: bool,
    now: u64,
    r: (JsonAction, Option<Line>),
)
    requires
        call_ensures(handle_json, (msg, ctx, playback, now), r),
        !(msg matches ServerMessage::Tts { state: TtsState::Start, .. }),
        !(msg matches ServerMessage::Tts { state: TtsState::Stop, .. }),
    ensures
        *final(ctx) == *old(ctx),
        r.0 == JsonAction::EndSession <==> msg is Goodbye,
        r.0 == JsonAction::Nothing <==> !(msg is Goodbye),
{
}

/// What a person reads are the words of the message, under the name of who said them: what was
/// understood is the user's, sentences and replies are the assistant's, and commands the system's.
pub proof fn law_lines_carry_the_words(
    ctx: &mut SessionCtx,
    msg: ServerMessage,
    playback: bool,
    now: u64,
    r: (JsonAction, Option<Line>),
)
    requires
        call_ensures(handle_json, (msg, ctx, playback, now), r),
    ensures
        r.1 is None <==> match msg {
            ServerMessage::Stt { .. } => false,
            ServerMessage::System { .. } => false,
            ServerMessage::Llm { text } => text is None,
            ServerMessage::Tts { state, text } => state != TtsState::SentenceStart || text is None,
            _ => true,
        },
        r.1 matches Some(Line::User(t)) ==> (msg matches ServerMessage::Stt { text } && text == t),
        r.1 matches Some(Line::System(t)) ==> (msg matches ServerMessage::System { command }
            && command == t),
        r.1 matches Some(Line::Assistant(t)) ==> match msg {
            ServerMessage::Llm { text } => text == Some(t),
            ServerMessage::Tts { state, text } => text == Some(t),
            _ => false,
        },
{
}

/// A tick ends a live session exactly where the server speaks over UDP and its media stay out: ten
/// seconds after the beginning without any, or three seconds after the last.
pub proof fn law_black_hole_limits(m: &mut StreamMachine, now: u64, s: StreamStep)
    requires
        call_ensures(StreamMachine::step, (m, StreamEvent::Tick, now), s),
        old(m).phase == Phase::Live,
    ensures
        s.action is Finish <==> {
            &&& old(m).kind == TransportKind::MqttUdp
            &&& old(m).session.ctx.tts_active
            &&& if old(m).session.ctx.sentence_has_media {
                now >= old(m).session.last_audio + 3_000_000_000
            } else {
                old(m).session.ctx.tts_started_at matches Some(t) && now >= t + 10_000_000_000
            }
        },
        s.action is Finish ==> final(m).phase == Phase::Over,
        !(s.action is Finish) ==> final(m).phase == Phase::Live,
{
}

/// Media that keep coming keep the session: no tick within three seconds of a frame ends it.
pub proof fn law_audio_holds_off_the_black_hole(
    m: &mut StreamMachine,
    data: Vec<u8>,
    heard_at: u64,
    s: StreamStep,
    n: &mut StreamMachine,
    ticked_at: u64,
    t: StreamStep,
)
    requires
        old(m).phase == Phase::Live,
        call_ensures(
            StreamMachine::step,
            (m, StreamEvent::Incoming(Some(IncomingEvent::Audio(data))), heard_at),
            s,
        ),
        old(n).session == final(m).session,
        old(n).phase == Phase::Live,
        ticked_at < heard_at + 3_000_000_000,
        call_ensures(StreamMachine::step, (n, StreamEvent::Tick, ticked_at), t),
    ensures
        !(t.action is Finish),
{
}

/// Every frame of the server is played, as it came and in order, where there is a playback: the
/// machine asks for it and waits until it is taken. It counts as media from now on, and speech
/// goes on as it was.
pub proof fn law_frames_are_played(
    m: &mut StreamMachine,
    data: Vec<u8>,
    now: u64,
    s: StreamStep,
)
    requires
        old(m).phase == Phase::Live,
        call_ensures(
            StreamMachine::step,
            (m, StreamEvent::Incoming(Some(IncomingEvent::Audio(data))), now),
            s,
        ),
    ensures
        old(m).playback ==> s.action == StreamAction::PlayFrame(data) && final(m).phase
            == Phase::Queueing,
        !old(m).playback ==> s.action == StreamAction::Wait && final(m).phase == Phase::Live,
        final(m).session.ctx.sentence_has_media,
        final(m).session.ctx.tts_active == old(m).session.ctx.tts_active,
        final(m).session.ctx.tts_started_at == old(m).session.ctx.tts_started_at,
        final(m).session.last_audio == now,
        final(m).session.first_frame_logged,
        s.first_frame is Some <==> !old(m).session.first_frame_logged,
        final(m).session.last_grade_check == old(m).session.last_grade_check,
        old(m).kind == TransportKind::WebSocket ==> final(m).session.loss == old(m).session.loss,
        old(m).kind == TransportKind::MqttUdp ==> final(m).session.loss.last == Some(now),
{
}

/// No frame is counted twice or left out: in every step what is counted and what is reported
/// together grow by one for a frame of a live session, and by nothing otherwise.
pub proof fn law_frames_are_counted_once(
    m: &mut StreamMachine,
    event: StreamEvent,
    now: u64,
    s: StreamStep,
)
    requires
        call_ensures(StreamMachine::step, (m, event, now), s),
        old(m).session.downlink_frames < u64::MAX,
        old(m).phase != Phase::SendingListen,
    ensures
        final(m).session.downlink_frames + (match s.downlink {
            Some(n) => n as int,
            None => 0,
        }) == old(m).session.downlink_frames + (if old(m).phase == Phase::Live && (event matches
            StreamEvent::Incoming(Some(IncomingEvent::Audio(_)))) {
            1int
        } else {
            0
        }),
{
}

/// A tick that does not end the session reports the frames once every two seconds and hands the
/// grade on once every ten, each counted from the last time, and changes nothing else.
pub proof fn law_ticks_report_in_time(m: &mut StreamMachine, now: u64, s: StreamStep)
    requires
        call_ensures(StreamMachine::step, (m, StreamEvent::Tick, now), s),
        old(m).phase == Phase::Live,
        !(s.action is Finish),
    ensures
        s.downlink is Some <==> now >= old(m).session.downlink_diag + 2_000_000_000,
        final(m).session.downlink_diag == if s.downlink is Some {
            now
        } else {
            old(m).session.downlink_diag
        },
        s.action is SetGrade <==> now >= old(m).session.last_grade_check + 10_000_000_000,
        s.action matches StreamAction::SetGrade(g) ==> g == old(m).session.loss.grade,
        !(s.action is SetGrade) ==> s.action == StreamAction::Wait,
        final(m).session.last_grade_check == if s.action is SetGrade {
            now
        } else {
            old(m).session.last_grade_check
        },
        final(m).session.ctx == old(m).session.ctx,
        final(m).session.loss == old(m).session.loss,
        final(m).session.last_audio == old(m).session.last_audio,
        final(m).session.first_frame_logged == old(m).session.first_frame_logged,
        s.line is None,
        s.first_frame is None,
{
}

/// A session goes live with nothing heard and every clock starting now.
pub proof fn law_live_sessions_start_afresh(
    m: &mut StreamMachine,
    now: u64,
    s: StreamStep,
)
    requires
        old(m).phase == Phase::SendingListen,
        call_ensures(StreamMachine::step, (m, StreamEvent::ListenSent(Ok(())), now), s),
    ensures
        final(m).phase == Phase::Live,
        s.action == StreamAction::Wait,
        !final(m).session.ctx.tts_active,
        !final(m).session.ctx.sentence_has_media,
        final(m).session.ctx.tts_started_at is None,
        final(m).session.loss.last is None,
        final(m).session.loss.received == 0,
        final(m).session.loss.lost == 0,
        final(m).session.loss.window_start == now,
        final(m).session.loss.grade == NetworkGrade::Good,
        final(m).session.last_audio == now,
        final(m).session.last_grade_check == now,
        final(m).session.downlink_frames == 0,
        final(m).session.downlink_diag == now,
        !final(m).session.first_frame_logged,
{
}

/// The way to a live session: the device unless it is open, then the pipelines for the server's
/// rate, then the listen message with the id of the session, in realtime mode; only then is it
/// live.
pub proof fn law_way_to_a_live_session(
    kind: TransportKind,
    handles: TransportHandles,
    device_open: bool,
    now: u64,
    r: (StreamMachine, StreamAction),
    m: &mut StreamMachine,
    t1: u64,
    s1: StreamStep,
    n: &mut StreamMachine,
    playback: bool,
    t2: u64,
    s2: StreamStep,
)
    requires
        call_ensures(StreamMachine::begin, (kind, handles, device_open, now), r),
        *old(m) == r.0,
        call_ensures(StreamMachine::step, (m, StreamEvent::DeviceOpened(Ok(())), t1), s1),
        *old(n) == *final(m),
        call_ensures(StreamMachine::step, (n, StreamEvent::AudioStarted(Ok(playback)), t2), s2),
    ensures
        !device_open ==> r.1 == StreamAction::OpenDevice && s1.action == (StreamAction::StartAudio {
            server_rate: handles.server_audio.sample_rate,
        }),
        device_open ==> r.1 == (StreamAction::StartAudio {
            server_rate: handles.server_audio.sample_rate,
        }) && s1.action == StreamAction::Wait,
        final(n).device_open,
        final(n).playback == playback,
        final(n).phase == Phase::SendingListen,
        final(n).kind == kind,
        s2.action matches StreamAction::Send(ClientMessage::Listen {
            session_id,
            state,
            mode,
            text,
        }) && session_id@ == handles.session_id@ && state == ListenState::Start && (mode matches
            Some(x) && x@ == "realtime"@) && text is None,
{
}

/// A session that fails says why and with which kind of error: devices, pipelines and queues are
/// audio errors, the link is a transport error. One that was live tells the server, under the id
/// of the session.
pub proof fn law_failures_name_their_cause(
    m: &mut StreamMachine,
    event: StreamEvent,
    now: u64,
    s: StreamStep,
)
    requires
        call_ensures(StreamMachine::step, (m, event, now), s),
        s.action matches StreamAction::Finish { result: Err(_), .. },
    ensures
        s.action matches StreamAction::Finish { result: Err(e), abort, stop_audio } && match event {
            StreamEvent::DeviceOpened(Err(why)) => {
                &&& e matches VoiceError::Audio(d) && d@ == "音频设备不可用: "@ + why@
                &&& abort is None && !stop_audio
            },
            StreamEvent::AudioStarted(Err(cause)) => e == cause && abort is None && !stop_audio,
            StreamEvent::ListenSent(Err(why)) => {
                &&& e matches VoiceError::Transport(d) && d@ == "发送 listen 失败: "@ + why@
                &&& abort is None && !stop_audio
            },
            StreamEvent::Tick => e matches VoiceError::Transport(d) && d@ == "UDP 黑洞"@,
            StreamEvent::Incoming(Some(IncomingEvent::Closed)) => e matches VoiceError::Transport(d)
                && d@ == "传输层已断开"@,
            StreamEvent::Incoming(None) => e matches VoiceError::Transport(d) && d@
                == "传输通道关闭"@,
            StreamEvent::FlushSent(Err(why)) => e matches VoiceError::Audio(d) && d@
                == "TTS 清缓冲失败: "@ + why@,
            StreamEvent::FrameQueued(Err(why)) => e matches VoiceError::Audio(d) && d@
                == "下行队列失败: "@ + why@,
            _ => false,
        },
        s.action matches StreamAction::Finish { result, abort, stop_audio } && (old(m).phase
            == Phase::Live || old(m).phase == Phase::Flushing || old(m).phase == Phase::Queueing ==> {
            &&& stop_audio
            &&& abort matches Some(ClientMessage::Abort { session_id, reason }) && session_id@
                == old(m).session_id@ && reason@ == "session_terminated"@
        }),
{
}

/// The events that end a session, each in the phase that waits for it, and none else: a failed
/// step of the start, a lost link, a failed playback, a goodbye, a shutdown or a black hole. A
/// goodbye and a shutdown end it in peace, with the audio stopped and nothing to tell the server.
pub proof fn law_what_ends_a_session(
    m: &mut StreamMachine,
    event: StreamEvent,
    now: u64,
    s: StreamStep,
)
    requires
        call_ensures(StreamMachine::step, (m, event, now), s),
    ensures
        !(event is Tick) ==> (s.action is Finish <==> match (old(m).phase, event) {
            (Phase::OpeningDevice, StreamEvent::DeviceOpened(r)) => r is Err,
            (Phase::StartingAudio, StreamEvent::AudioStarted(r)) => r is Err,
            (Phase::SendingListen, StreamEvent::ListenSent(r)) => r is Err,
            (Phase::Live, StreamEvent::Shutdown) => true,
            (Phase::Live, StreamEvent::Incoming(None)) => true,
            (Phase::Live, StreamEvent::Incoming(Some(IncomingEvent::Closed))) => true,
            (
                Phase::Live,
                StreamEvent::Incoming(Some(IncomingEvent::Json(ServerMessage::Goodbye { .. }))),
            ) => true,
            (Phase::Flushing, StreamEvent::FlushSent(r)) => r is Err,
            (Phase::Queueing, StreamEvent::FrameQueued(r)) => r is Err,
            _ => false,
        }),
        event is Shutdown && s.action is Finish ==> (s.action matches StreamAction::Finish {
            result: Ok(()),
            abort: None,
            stop_audio: true,
        }),
        event matches StreamEvent::Incoming(Some(IncomingEvent::Json(_))) && s.action is Finish
            ==> (s.action matches StreamAction::Finish {
            result: Ok(()),
            abort: None,
            stop_audio: true,
        }),
        s.action is Finish ==> final(m).phase == Phase::Over,
{
}

/// Once the playback has taken what it was given, the session is live again, with nothing else
/// changed; and an event that no phase waits for changes nothing.
pub proof fn law_back_to_live(m: &mut StreamMachine, event: StreamEvent, now: u64, s: StreamStep)
    requires
        call_ensures(StreamMachine::step, (m, event, now), s),
        old(m).phase == Phase::Flushing || old(m).phase == Phase::Queueing || old(m).phase
            == Phase::Over,
        !(s.action is Finish),
    ensures
        s.action == StreamAction::Wait,
        final(m).session == old(m).session,
        final(m).playback == old(m).playback,
        final(m).device_open == old(m).device_open,
        final(m).phase == if (old(m).phase == Phase::Flushing && event is FlushSent) || (old(
            m,
        ).phase == Phase::Queueing && event is FrameQueued) {
            Phase::Live
        } else {
            old(m).phase
        },
{
}

/// A step shows words only for a message of a live session, the bytes of a frame only for the first
/// one, and a count only for a tick.
pub proof fn law_what_a_step_shows(m: &mut StreamMachine, event: StreamEvent, now: u64, s: StreamStep)
    requires
        call_ensures(StreamMachine::step, (m, event, now), s),
    ensures
        s.line is Some ==> old(m).phase == Phase::Live && (event matches StreamEvent::Incoming(
            Some(IncomingEvent::Json(_)),
        )),
        s.first_frame is Some ==> old(m).phase == Phase::Live && (event matches
            StreamEvent::Incoming(Some(IncomingEvent::Audio(_)))),
        s.downlink is Some ==> old(m).phase == Phase::Live && event is Tick,
{
}

/// Of the first frame of a session the first sixteen bytes are shown, or all where there are fewer,
/// two digits each with a blank between bytes.
pub proof fn law_first_frame_is_shown(m: &mut StreamMachine, data: Vec<u8>, now: u64, s: StreamStep)
    requires
        old(m).phase == Phase::Live,
        !old(m).session.first_frame_logged,
        call_ensures(
            StreamMachine::step,
            (m, StreamEvent::Incoming(Some(IncomingEvent::Audio(data))), now),
            s,
        ),
    ensures
        s.first_frame matches Some(hex) && (data@.len() >= 16 ==> hex@ == text::separated_hex(
            data@.take(16),
            ' ',
        )) && (data@.len() < 16 ==> hex@ == text::separated_hex(data@, ' ')),
{
    assert(data@.take(data@.len() as int) =~= data@);
}

} // verus!
