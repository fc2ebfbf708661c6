//! The life of the connection: choose a transport, connect, stream, back off, start over.
//!
//! MQTT+UDP is the primary link and WebSocket the fallback. Lost links, unplugged devices and
//! failing services are all recovered from here; only a shutdown ends the loop.

use vstd::prelude::*;
use vstd::string::*;

use crate::error::{ErrorKind, VoiceError};
use crate::identity::DeviceIdentity;
use crate::ota::OtaConfig;
use crate::protocol::{ConnectParams, TransportHandles};
use crate::session::TransportKind;
use crate::{clock, text};

pub mod link;
pub mod policy;
pub mod stream;

pub use crate::realtime::RealtimeVoice;
pub use crate::supervisor::link::{derive_mqtt, effective_topic};
pub use crate::supervisor::policy::{is_transport_loss, Backoff, CircuitBreaker, LossEstimator};
pub use crate::supervisor::stream::{SessionCtx, StreamMachine, StreamSession};

verus! {

/// How long a connection may take to come up, in seconds.
pub const CONNECT_TIMEOUT_SECS: u64 = 30;

/// How often a sign of life is due.
pub const HEARTBEAT_INTERVAL: u64 = 30_000_000_000;

/// Where the supervisor stands.
#[derive(Debug, Clone, Copy, PartialEq, Eq, Structural)]
pub enum State {
    SelectTransport,
    Connect,
    Streaming,
    Backoff,
}

/// Keeps a session alive until it is told to stop.
pub struct VoiceSupervisor {
    pub identity: DeviceIdentity,
    pub ota: OtaConfig,
    pub state: State,
    /// Whether the audio device is open.
    pub has_audio: bool,
    pub backoff: Backoff,
    pub mqtt_circuit: CircuitBreaker,
    /// The transport that the pending connection uses.
    pub chosen: TransportKind,
    /// The transport of the current session; every connection sets it anew.
    pub epoch: Option<TransportKind>,
    /// The negotiated connection, on its way from connecting to streaming.
    pub handles: Option<TransportHandles>,
    pub heartbeat: u64,
}

/// What to do next.
pub enum Task {
    /// Stop for good; the audio has to be stopped first if it is open.
    Exit { stop_audio: bool },
    /// Nothing; ask again.
    Advance,
    /// The session failed before it began, with this error; ask again.
    Refused(VoiceError),
    /// Connect, for `CONNECT_TIMEOUT_SECS` at most, and report by `connected`.
    Connect { kind: TransportKind, params: ConnectParams },
    /// Run a session, beginning with the action, and report by `stream_ended`.
    Stream { machine: StreamMachine, first: stream::StreamAction },
    /// Wait this many milliseconds or for the shutdown, and report by `slept`.
    Sleep { delay_ms: u64 },
}

/// How an attempt to connect went.
pub enum ConnectOutcome {
    Ready(TransportHandles),
    Failed(VoiceError),
    TimedOut,
}

/// What is to happen to the audio device.
#[derive(Debug, Clone, Copy, PartialEq, Eq, Structural)]
pub enum AudioDuty {
    Leave,
    Stop,
    /// Stop it and let go of it: the next session opens it anew.
    StopAndClose,
}

/// Whether `p` are the connection parameters of a device under a configuration. A missing URL or
/// token is empty.
pub open spec fn params_of(identity: DeviceIdentity, ota: OtaConfig, p: ConnectParams) -> bool {
    &&& p.device_id@ == identity.device_id@
    &&& p.client_id@ == identity.client_id@
    &&& p.token@ == text::text_or_empty(ota.websocket.token)
    &&& p.ws_url@ == text::text_or_empty(ota.websocket.url)
    &&& match (ota.mqtt, p.mqtt) {
        (Some(m), Some(q)) => link::mqtt_derived(m, p.ws_url@, identity.client_id@, q),
        (None, None) => true,
        _ => false,
    }
}

impl VoiceSupervisor {
    /// Nothing of a session is left over outside of streaming.
    pub open spec fn wf(self) -> bool {
        self.state != State::Streaming ==> self.handles is None && self.epoch is None
    }

    /// Whether instants and counters are still within bounds.
    pub open spec fn fit(self, now: u64) -> bool {
        &&& now <= policy::LAST_INSTANT
        &&& self.mqtt_circuit.open_count < u32::MAX
        &&& self.backoff.attempt < u64::MAX
    }

    /// Whether instants and counters are still within bounds.
    pub fn is_fit(&self, now: u64) -> (r: bool)
        ensures
            r == self.fit(now),
    {
        now <= policy::LAST_INSTANT && self.mqtt_circuit.open_count < u32::MAX
            && self.backoff.attempt < u64::MAX
    }

    /// A supervisor that has done nothing yet. `has_audio` says whether the device is open.
    pub fn new(identity: DeviceIdentity, ota: OtaConfig, has_audio: bool, now: u64) -> (s: Self)
        ensures
            s.wf(),
            s.identity == identity,
            s.ota == ota,
            s.state == State::SelectTransport,
            s.has_audio == has_audio,
            s.backoff.attempt == 0,
            s.backoff.rng == 0x9E37_79B9_7F4A_7C15,
            s.mqtt_circuit.failures@ == Seq::<u64>::empty(),
            s.mqtt_circuit.cooldown_until is None,
            s.mqtt_circuit.open_count == 0,
            s.chosen == TransportKind::WebSocket,
            s.epoch is None,
            s.handles is None,
            s.heartbeat == now,
    {
        VoiceSupervisor {
            identity,
            ota,
            state: State::SelectTransport,
            has_audio,
            backoff: Backoff::new(),
            mqtt_circuit: CircuitBreaker::new(),
            chosen: TransportKind::WebSocket,
            epoch: None,
            handles: None,
            heartbeat: now,
        }
    }

    /// Whether MQTT+UDP can be used: configured, and the breaker not open. It is tried again by
    /// itself once a cooldown is over.
    pub open spec fn mqtt_usable(self, now: u64) -> bool {
        self.ota.mqtt is Some && !self.mqtt_circuit.open_at(now)
    }

    /// Whether MQTT+UDP can be used.
    pub fn mqtt_available(&self, now: u64) -> (r: bool)
        ensures
            r == self.mqtt_usable(now),
    {
        self.ota.mqtt.is_some() && !self.mqtt_circuit.is_open(now)
    }

    /// The transport to use: MQTT+UDP where it can be, WebSocket otherwise.
    pub open spec fn transport_at(self, now: u64) -> TransportKind {
        if self.mqtt_usable(now) {
            TransportKind::MqttUdp
        } else {
            TransportKind::WebSocket
        }
    }

    /// The transport to use.
    pub fn current_transport_kind(&self, now: u64) -> (k: TransportKind)
        ensures
            k == self.transport_at(now),
    {
        if self.mqtt_available(now) {
            TransportKind::MqttUdp
        } else {
            TransportKind::WebSocket
        }
    }

    /// The connection parameters.
    pub fn build_params(&self) -> (p: ConnectParams)
        ensures
            params_of(self.identity, self.ota, p),
    {
        let ws_url = text::or_empty(&self.ota.websocket.url);
        let token = text::or_empty(&self.ota.websocket.token);
        let mqtt = match &self.ota.mqtt {
            Some(m) => Some(derive_mqtt(m, ws_url.as_str(), self.identity.client_id.as_str())),
            None => None,
        };
        ConnectParams {
            device_id: self.identity.device_id.clone(),
            client_id: self.identity.client_id.clone(),
            token,
            ws_url,
            mqtt,
        }
    }

    /// The supervisor after the session is cleaned up.
    pub open spec fn cleaned(self) -> VoiceSupervisor {
        VoiceSupervisor { epoch: None, handles: None, ..self }
    }

    /// Forgets the session.
    pub fn cleanup_session(&mut self) -> (stop_audio: bool)
        ensures
            *final(self) == old(self).cleaned(),
            stop_audio == old(self).has_audio,
    {
        self.epoch = None;
        self.handles = None;
        self.has_audio
    }

    /// Whether a sign of life is due, once every 30 seconds.
    pub fn heartbeat_due(&mut self, now: u64) -> (due: bool)
        ensures
            due == (clock::span(now, old(self).heartbeat) >= HEARTBEAT_INTERVAL),
            *final(self) == (VoiceSupervisor {
                heartbeat: if due {
                    now
                } else {
                    old(self).heartbeat
                },
                ..*old(self)
            }),
    {
        if clock::elapsed(now, self.heartbeat) >= HEARTBEAT_INTERVAL {
            self.heartbeat = now;
            true
        } else {
            false
        }
    }

    /// Whether asking at `now` what to do leads to `post` and `task`.
    pub open spec fn asked(
        self,
        cancelled: bool,
        now: u64,
        post: VoiceSupervisor,
        task: Task,
    ) -> bool {
        if cancelled {
            post == self.cleaned() && task == (Task::Exit { stop_audio: self.has_audio })
        } else {
            match self.state {
                State::SelectTransport => {
                    &&& post == (VoiceSupervisor { state: State::Connect, ..self })
                    &&& task == Task::Advance
                },
                State::Connect => {
                    &&& post == (VoiceSupervisor { chosen: self.transport_at(now), ..self })
                    &&& task matches Task::Connect { kind, params } && kind == self.transport_at(
                        now,
                    ) && params_of(self.identity, self.ota, params)
                },
                State::Streaming => match self.handles {
                    Some(h) => {
                        &&& post == (VoiceSupervisor { handles: None, ..self })
                        &&& task matches Task::Stream { machine, first } && {
                            &&& machine.kind == match self.epoch {
                                Some(k) => k,
                                None => TransportKind::WebSocket,
                            }
                            &&& machine.session_id == h.session_id
                            &&& machine.server_rate == h.server_audio.sample_rate
                            &&& machine.device_open == self.has_audio
                            &&& !machine.playback
                            &&& machine.session.is_fresh(now)
                            &&& machine.phase == if self.has_audio {
                                stream::Phase::StartingAudio
                            } else {
                                stream::Phase::OpeningDevice
                            }
                            &&& first == if self.has_audio {
                                stream::StreamAction::StartAudio {
                                    server_rate: h.server_audio.sample_rate,
                                }
                            } else {
                                stream::StreamAction::OpenDevice
                            }
                        }
                    },
                    None => {
                        &&& post == (VoiceSupervisor { state: State::Backoff, epoch: None, ..self })
                        &&& task == Task::Refused(VoiceError::SessionClosed)
                    },
                },
                State::Backoff => {
                    &&& post == (VoiceSupervisor { backoff: post.backoff, ..self })
                    &&& post.backoff.attempt == self.backoff.attempt + 1
                    &&& post.backoff.rng == policy::next_draw(self.backoff.rng)
                    &&& task == (Task::Sleep {
                        delay_ms: policy::backoff_delay(
                            self.backoff.attempt,
                            post.backoff.rng,
                        ) as u64,
                    })
                },
            }
        }
    }

    /// Says what to do next. A session without a negotiated connection fails at once.
    pub fn begin(&mut self, cancelled: bool, now: u64) -> (task: Task)
        requires
            old(self).wf(),
            old(self).fit(now),
        ensures
            old(self).asked(cancelled, now, *final(self), task),
            final(self).wf(),
    {
        if cancelled {
            let stop_audio = self.cleanup_session();
            return Task::Exit { stop_audio };
        }
        match self.state {
            State::SelectTransport => {
                self.state = State::Connect;
                Task::Advance
            },
            State::Connect => {
                let kind = self.current_transport_kind(now);
                self.chosen = kind;
                let params = self.build_params();
                Task::Connect { kind, params }
            },
            State::Streaming => {
                let kind = match self.epoch {
                    Some(k) => k,
                    None => TransportKind::WebSocket,
                };
                match self.handles.take() {
                    Some(h) => {
                        let (machine, first) = StreamMachine::begin(kind, h, self.has_audio, now);
                        Task::Stream { machine, first }
                    },
                    None => {
                        self.epoch = None;
                        self.state = State::Backoff;
                        Task::Refused(VoiceError::SessionClosed)
                    },
                }
            },
            State::Backoff => {
                let delay_ms: u64 = self.backoff.next();
                proof {
                    policy::law_backoff_bounds(old(self).backoff.attempt, self.backoff.rng);
                }
                Task::Sleep { delay_ms }
            },
        }
    }

    /// Whether a failure to connect at `now` leads to `post`: a lost link counts against MQTT if
    /// MQTT is what was tried.
    pub open spec fn connect_failed(self, kind: ErrorKind, now: u64, post: VoiceSupervisor) -> bool {
        &&& post == (VoiceSupervisor {
            state: State::Backoff,
            mqtt_circuit: post.mqtt_circuit,
            ..self
        })
        &&& if policy::transport_loss(kind) && self.chosen == TransportKind::MqttUdp {
            exists|opened: bool| #[trigger]
                self.mqtt_circuit.after_failure(now, post.mqtt_circuit, opened)
        } else {
            post.mqtt_circuit == self.mqtt_circuit
        }
    }

    /// Takes note of a failure to connect.
    pub fn on_connect_error(&mut self, e: &VoiceError, now: u64)
        requires
            old(self).fit(now),
        ensures
            old(self).connect_failed(e.kind_spec(), now, *final(self)),
    {
        if is_transport_loss(e) && self.chosen == TransportKind::MqttUdp {
            let ghost before = self.mqtt_circuit;
            let opened = self.mqtt_circuit.record_failure(now);
            assert(before.after_failure(now, self.mqtt_circuit, opened));
        }
        self.state = State::Backoff;
    }

    /// Takes note of how the attempt to connect went. Returns the error that it failed with.
    pub fn connected(&mut self, outcome: ConnectOutcome, now: u64) -> (r: Option<VoiceError>)
        requires
            old(self).wf(),
            old(self).fit(now),
            old(self).state == State::Connect,
        ensures
            final(self).wf(),
            match outcome {
                ConnectOutcome::Ready(h) => {
                    &&& r is None
                    &&& *final(self) == (VoiceSupervisor {
                        state: State::Streaming,
                        epoch: Some(old(self).chosen),
                        handles: Some(h),
                        backoff: Backoff { attempt: 0, rng: old(self).backoff.rng },
                        mqtt_circuit: final(self).mqtt_circuit,
                        ..*old(self)
                    })
                    &&& old(self).mqtt_circuit.after_connection(now, final(self).mqtt_circuit)
                },
                ConnectOutcome::Failed(e) => {
                    &&& r == Some(e)
                    &&& old(self).connect_failed(e.kind_spec(), now, *final(self))
                },
                ConnectOutcome::TimedOut => {
                    &&& r matches Some(e) && e.is(ErrorKind::Timeout, "连接超时（30s）"@)
                    &&& old(self).connect_failed(ErrorKind::Timeout, now, *final(self))
                },
            },
    {
        match outcome {
            ConnectOutcome::Ready(h) => {
                self.state = State::Streaming;
                self.epoch = Some(self.chosen);
                self.handles = Some(h);
                self.backoff.on_success();
                self.mqtt_circuit.on_connection(now);
                None
            },
            ConnectOutcome::Failed(e) => {
                self.on_connect_error(&e, now);
                Some(e)
            },
            ConnectOutcome::TimedOut => {
                let e = VoiceError::Timeout("连接超时（30s）".to_owned());
                self.on_connect_error(&e, now);
                Some(e)
            },
        }
    }

    /// Whether the end of a session with an error at `now` leads to `post`: an audio error closes
    /// the device, a lost link counts against MQTT if the session ran over it.
    pub open spec fn stream_failed(self, kind: ErrorKind, now: u64, post: VoiceSupervisor) -> bool {
        &&& post == (VoiceSupervisor {
            state: State::Backoff,
            has_audio: self.has_audio && kind != ErrorKind::Audio,
            epoch: None,
            mqtt_circuit: post.mqtt_circuit,
            ..self
        })
        &&& if policy::transport_loss(kind) && self.epoch == Some(TransportKind::MqttUdp) {
            exists|opened: bool| #[trigger]
                self.mqtt_circuit.after_failure(now, post.mqtt_circuit, opened)
        } else {
            post.mqtt_circuit == self.mqtt_circuit
        }
    }

    /// Takes note of a session that ended with an error. Returns what is to happen to the audio.
    pub fn on_stream_error(&mut self, e: &VoiceError, now: u64) -> (duty: AudioDuty)
        requires
            old(self).fit(now),
        ensures
            old(self).stream_failed(e.kind_spec(), now, *final(self)),
            duty == if e.kind_spec() == ErrorKind::Audio && old(self).has_audio {
                AudioDuty::StopAndClose
            } else {
                AudioDuty::Leave
            },
    {
        let mut duty = AudioDuty::Leave;
        if e.kind() == ErrorKind::Audio {
            if self.has_audio {
                duty = AudioDuty::StopAndClose;
            }
            self.has_audio = false;
        }
        if is_transport_loss(e) {
            match self.epoch {
                Some(k) => {
                    if k == TransportKind::MqttUdp {
                        let ghost before = self.mqtt_circuit;
                        let opened = self.mqtt_circuit.record_failure(now);
                        assert(before.after_failure(now, self.mqtt_circuit, opened));
                    }
                },
                None => {},
            }
        }
        self.epoch = None;
        self.state = State::Backoff;
        duty
    }

    /// Takes note of the end of a session, during which the device may have been opened. A
    /// session that ended in peace is followed by the next one at once, any other by a backoff.
    pub fn stream_ended(
        &mut self,
        device_open: bool,
        result: &Result<(), VoiceError>,
        now: u64,
    ) -> (duty: AudioDuty)
        requires
            old(self).fit(now),
            old(self).state == State::Streaming,
            old(self).handles is None,
        ensures
            final(self).wf(),
            ({
                let opened = VoiceSupervisor { has_audio: device_open, ..*old(self) };
                match *result {
                    Ok(_) => {
                        &&& *final(self) == (VoiceSupervisor {
                            state: State::SelectTransport,
                            ..opened.cleaned()
                        })
                        &&& duty == if device_open {
                            AudioDuty::Stop
                        } else {
                            AudioDuty::Leave
                        }
                    },
                    Err(e) => {
                        &&& opened.stream_failed(e.kind_spec(), now, *final(self))
                        &&& duty == if e.kind_spec() == ErrorKind::Audio && device_open {
                            AudioDuty::StopAndClose
                        } else {
                            AudioDuty::Leave
                        }
                    },
                }
            }),
    {
        self.has_audio = device_open;
        match result {
            Ok(_) => {
                let stop_audio = self.cleanup_session();
                self.state = State::SelectTransport;
                if stop_audio {
                    AudioDuty::Stop
                } else {
                    AudioDuty::Leave
                }
            },
            Err(e) => self.on_stream_error(e, now),
        }
    }

    /// Takes note that the wait is over, by time or by the shutdown. Returns whether the
    /// supervisor is done, and if so whether the audio has to be stopped.
    pub fn slept(&mut self, cancelled: bool) -> (exit: Option<bool>)
        requires
            old(self).wf(),
            old(self).state == State::Backoff,
        ensures
            final(self).wf(),
            cancelled ==> exit == Some(old(self).has_audio) && *final(self) == old(self).cleaned(),
            !cancelled ==> exit is None && *final(self) == (VoiceSupervisor {
                state: State::SelectTransport,
                ..*old(self)
            }),
    {
        if cancelled {
            Some(self.cleanup_session())
        } else {
            self.state = State::SelectTransport;
            None
        }
    }
}

/// The supervisor stops for nothing but a shutdown, and for every shutdown.
pub proof fn law_only_shutdown_ends(
    pre: VoiceSupervisor,
    cancelled: bool,
    now: u64,
    post: VoiceSupervisor,
    task: Task,
)
    requires
        pre.asked(cancelled, now, post, task),
    ensures
        task is Exit <==> cancelled,
{
}

/// While the breaker is open every connection goes over WebSocket, and without an MQTT
/// configuration too; otherwise MQTT+UDP comes first.
pub proof fn law_fallback_to_websocket(
    pre: VoiceSupervisor,
    now: u64,
    post: VoiceSupervisor,
    task: Task,
)
    requires
        pre.asked(false, now, post, task),
        pre.state == State::Connect,
    ensures
        task matches Task::Connect { kind, params } && kind == post.chosen && (kind
            == TransportKind::WebSocket <==> (pre.mqtt_circuit.open_at(now)
            || pre.ota.mqtt is None)),
{
}

/// Two lost MQTT connections within two minutes, with a choice of the transport in between, move
/// every connection of the next five minutes, at least, to WebSocket: also after the fallback has
/// connected, at `tc`.
pub proof fn law_repeated_loss_switches_link(
    first: VoiceSupervisor,
    second: VoiceSupervisor,
    retried: VoiceSupervisor,
    third: VoiceSupervisor,
    fallback: VoiceSupervisor,
    k1: ErrorKind,
    k2: ErrorKind,
    t1: u64,
    t2: u64,
    tc: u64,
    later: u64,
)
    requires
        first.chosen == TransportKind::MqttUdp,
        retried.chosen == TransportKind::MqttUdp,
        first.mqtt_circuit.failures@ == Seq::<u64>::empty(),
        first.mqtt_circuit.open_count < u32::MAX,
        policy::transport_loss(k1),
        policy::transport_loss(k2),
        t1 <= t2 <= policy::LAST_INSTANT,
        t2 - t1 < policy::FAIL_WINDOW,
        first.connect_failed(k1, t1, second),
        retried.mqtt_circuit == second.mqtt_circuit,
        retried.connect_failed(k2, t2, third),
        t2 <= tc <= later < t2 + 300 * clock::SECOND,
        third.mqtt_circuit.after_connection(tc, fallback.mqtt_circuit),
    ensures
        third.transport_at(later) == TransportKind::WebSocket,
        fallback.transport_at(later) == TransportKind::WebSocket,
{
    let o1 = choose|o: bool| #[trigger]
        first.mqtt_circuit.after_failure(t1, second.mqtt_circuit, o);
    assert(first.mqtt_circuit.after_failure(t1, second.mqtt_circuit, o1));
    assert(policy::recent(first.mqtt_circuit.failures@, t1, policy::FAIL_WINDOW).len() == 0) by {
        reveal(Seq::filter);
    }
    let o2 = choose|o: bool| #[trigger]
        second.mqtt_circuit.after_failure(t2, third.mqtt_circuit, o);
    policy::law_two_failures_open(
        first.mqtt_circuit,
        second.mqtt_circuit,
        third.mqtt_circuit,
        o1,
        o2,
        t1,
        t2,
    );
}

/// Two lost sessions over MQTT+UDP within two minutes, with a reconnection in between, move every
/// connection of the next five minutes, at least, to WebSocket: also after the fallback has
/// connected, at `tf`.
pub proof fn law_repeated_session_loss_switches_link(
    first: VoiceSupervisor,
    second: VoiceSupervisor,
    reconnected: VoiceSupervisor,
    third: VoiceSupervisor,
    fallback: VoiceSupervisor,
    k1: ErrorKind,
    k2: ErrorKind,
    t1: u64,
    tc: u64,
    t2: u64,
    tf: u64,
    later: u64,
)
    requires
        first.mqtt_circuit.failures@ == Seq::<u64>::empty(),
        first.mqtt_circuit.open_count < u32::MAX,
        first.epoch == Some(TransportKind::MqttUdp),
        reconnected.epoch == Some(TransportKind::MqttUdp),
        policy::transport_loss(k1),
        policy::transport_loss(k2),
        t1 <= tc <= t2 <= policy::LAST_INSTANT,
        t2 - t1 < policy::FAIL_WINDOW,
        first.stream_failed(k1, t1, second),
        second.mqtt_circuit.after_connection(tc, reconnected.mqtt_circuit),
        reconnected.stream_failed(k2, t2, third),
        t2 <= tf <= later < t2 + 300 * clock::SECOND,
        third.mqtt_circuit.after_connection(tf, fallback.mqtt_circuit),
    ensures
        third.transport_at(later) == TransportKind::WebSocket,
        fallback.transport_at(later) == TransportKind::WebSocket,
{
    reveal(Seq::filter);
    let o1 = choose|o: bool| #[trigger]
        first.mqtt_circuit.after_failure(t1, second.mqtt_circuit, o);
    assert(first.mqtt_circuit.after_failure(t1, second.mqtt_circuit, o1));
    let o2 = choose|o: bool| #[trigger]
        reconnected.mqtt_circuit.after_failure(t2, third.mqtt_circuit, o);
    let kept = second.mqtt_circuit.failures@;
    assert(kept == seq![t1]);
    assert(kept.drop_last() =~= Seq::<u64>::empty());
    assert(policy::recent(kept, tc, policy::STABLE_RESET) =~= seq![t1]);
    policy::law_two_failures_open(
        first.mqtt_circuit,
        CircuitBreaker { failures: reconnected.mqtt_circuit.failures, ..second.mqtt_circuit },
        third.mqtt_circuit,
        o1,
        o2,
        t1,
        t2,
    );
}

/// A cooldown is served to its end, and MQTT is tried again right after it: whatever happens to a
/// connection or a session of the fallback in the meantime, every connection before the end goes
/// over WebSocket, and the next one from the end on over MQTT+UDP.
pub proof fn law_cooldown_is_served(
    pre: VoiceSupervisor,
    post: VoiceSupervisor,
    kind: ErrorKind,
    now: u64,
    until: u64,
    later: u64,
)
    requires
        pre.ota.mqtt is Some,
        pre.mqtt_circuit.cooldown_until == Some(until),
        now < until,
        post.ota == pre.ota,
        pre.mqtt_circuit.after_connection(now, post.mqtt_circuit) || (pre.chosen
            != TransportKind::MqttUdp && pre.connect_failed(kind, now, post)) || (pre.epoch != Some(TransportKind::MqttUdp) && pre.stream_failed(kind, now, post)),
    ensures
        post.mqtt_circuit == pre.mqtt_circuit,
        post.transport_at(later) == if later < until {
            TransportKind::WebSocket
        } else {
            TransportKind::MqttUdp
        },
{
}

/// What happens to the fallback never counts against MQTT, at whatever time: neither an attempt
/// over WebSocket that was chosen in a cooldown and fails after it, nor the loss of a session over
/// WebSocket.
pub proof fn law_fallback_does_not_count(
    pre: VoiceSupervisor,
    post: VoiceSupervisor,
    kind: ErrorKind,
    now: u64,
)
    requires
        (pre.chosen != TransportKind::MqttUdp && pre.connect_failed(kind, now, post)) || (pre.epoch
            != Some(TransportKind::MqttUdp) && pre.stream_failed(kind, now, post)),
    ensures
        post.mqtt_circuit == pre.mqtt_circuit,
{
}

/// Nothing of another session is carried over: a session begins with nothing heard, and once it
/// is on its way its connection cannot be used for another one.
pub proof fn law_sessions_start_afresh(
    pre: VoiceSupervisor,
    now: u64,
    post: VoiceSupervisor,
    task: Task,
)
    requires
        pre.asked(false, now, post, task),
    ensures
        task matches Task::Stream { machine, first } ==> {
            &&& machine.session.is_fresh(now)
            &&& !machine.playback
            &&& post.handles is None
        },
{
}

/// The transport is MQTT+UDP exactly where it is configured and no cooldown runs.
pub proof fn law_primary_link_first(s: VoiceSupervisor, now: u64, k: TransportKind)
    requires
        call_ensures(VoiceSupervisor::current_transport_kind, (&s, now), k),
    ensures
        k == TransportKind::MqttUdp <==> s.ota.mqtt is Some && !(s.mqtt_circuit.cooldown_until
            matches Some(until) && now < until),
{
}

/// A connection is made with the credentials of the device and what the server configured: its
/// URL and token, empty where there is none, and MQTT exactly where that is configured.
pub proof fn law_connections_use_the_configuration(s: VoiceSupervisor, p: ConnectParams)
    requires
        call_ensures(VoiceSupervisor::build_params, (&s,), p),
    ensures
        p.device_id@ == s.identity.device_id@,
        p.client_id@ == s.identity.client_id@,
        s.ota.websocket.url matches Some(u) ==> p.ws_url@ == u@,
        s.ota.websocket.url is None ==> p.ws_url@.len() == 0,
        s.ota.websocket.token matches Some(t) ==> p.token@ == t@,
        s.ota.websocket.token is None ==> p.token@.len() == 0,
        p.mqtt is Some <==> s.ota.mqtt is Some,
        s.ota.mqtt matches Some(m) && (m.client_id matches Some(id)) ==> (p.mqtt matches Some(q)
            && q.mqtt_client_id@ == s.ota.mqtt->0.client_id->0@),
{
}

/// The round of a session: a transport is selected, a connection made over it, and the session
/// streamed over that connection, with its id and rate.
pub proof fn law_round_of_a_session(
    a: &mut VoiceSupervisor,
    t1: u64,
    first: Task,
    b: &mut VoiceSupervisor,
    t2: u64,
    second: Task,
    c: &mut VoiceSupervisor,
    h: TransportHandles,
    t3: u64,
    r: Option<VoiceError>,
    d: &mut VoiceSupervisor,
    t4: u64,
    third: Task,
)
    requires
        old(a).state == State::SelectTransport,
        call_ensures(VoiceSupervisor::begin, (a, false, t1), first),
        *old(b) == *final(a),
        call_ensures(VoiceSupervisor::begin, (b, false, t2), second),
        *old(c) == *final(b),
        call_ensures(VoiceSupervisor::connected, (c, ConnectOutcome::Ready(h), t3), r),
        *old(d) == *final(c),
        call_ensures(VoiceSupervisor::begin, (d, false, t4), third),
    ensures
        first == Task::Advance,
        second matches Task::Connect { kind, params } && params.device_id@
            == old(a).identity.device_id@ && (kind == TransportKind::MqttUdp <==> old(a).ota.mqtt is
            Some && !(old(a).mqtt_circuit.cooldown_until matches Some(until) && t2 < until)),
        r is None,
        final(c).backoff.attempt == 0,
        final(c).epoch == Some(second->kind),
        third matches Task::Stream { machine, first: action } && machine.kind == second->kind
            && machine.session_id@ == h.session_id@ && machine.server_rate
            == h.server_audio.sample_rate && machine.device_open == old(a).has_audio && (
        action == if old(a).has_audio {
            stream::StreamAction::StartAudio { server_rate: h.server_audio.sample_rate }
        } else {
            stream::StreamAction::OpenDevice
        }),
        third->machine.phase == if old(a).has_audio {
            stream::Phase::StartingAudio
        } else {
            stream::Phase::OpeningDevice
        },
        !third->machine.playback,
        final(d).handles is None,
        final(d).state == State::Streaming,
{
}

/// A session starts with nothing of an earlier one: nothing heard, nothing counted, and every clock
/// at the instant of its start.
pub proof fn law_streams_begin_empty(s: &mut VoiceSupervisor, now: u64, task: Task)
    requires
        call_ensures(VoiceSupervisor::begin, (s, false, now), task),
    ensures
        task matches Task::Stream { machine, first } ==> {
            &&& !machine.session.ctx.tts_active
            &&& machine.session.ctx.tts_started_at is None
            &&& !machine.session.ctx.sentence_has_media
            &&& machine.session.loss.last is None
            &&& machine.session.loss.received == 0
            &&& machine.session.loss.lost == 0
            &&& machine.session.downlink_frames == 0
            &&& machine.session.last_audio == now
            &&& !machine.playback
        },
{
}

/// A failed connection is followed by a wait, which grows with every failure in a row and is drawn
/// between 25 ms and 30 s, and the wait by the next selection.
pub proof fn law_failures_are_waited_out(
    a: &mut VoiceSupervisor,
    e: VoiceError,
    t1: u64,
    r: Option<VoiceError>,
    b: &mut VoiceSupervisor,
    t2: u64,
    task: Task,
    c: &mut VoiceSupervisor,
    exit: Option<bool>,
)
    requires
        call_ensures(VoiceSupervisor::connected, (a, ConnectOutcome::Failed(e), t1), r),
        *old(b) == *final(a),
        call_ensures(VoiceSupervisor::begin, (b, false, t2), task),
        *old(c) == *final(b),
        call_ensures(VoiceSupervisor::slept, (c, false), exit),
    ensures
        r == Some(e),
        final(a).state == State::Backoff,
        task matches Task::Sleep { delay_ms } && 25 <= delay_ms <= 30_000,
        final(b).backoff.attempt == old(a).backoff.attempt + 1,
        exit is None,
        final(c).state == State::SelectTransport,
        final(c).identity == old(a).identity,
        final(c).ota == old(a).ota,
        final(c).has_audio == old(a).has_audio,
        final(c).mqtt_circuit == final(a).mqtt_circuit,
{
    policy::law_backoff_bounds(old(b).backoff.attempt, final(b).backoff.rng);
}

/// A failed attempt counts against MQTT exactly where MQTT was tried and the link was lost.
pub proof fn law_failed_attempts_count(
    s: &mut VoiceSupervisor,
    e: VoiceError,
    now: u64,
    r: Option<VoiceError>,
)
    requires
        call_ensures(VoiceSupervisor::connected, (s, ConnectOutcome::Failed(e), now), r),
        old(s).mqtt_circuit.failures@.len() == 0,
    ensures
        final(s).mqtt_circuit.failures@ == if old(s).chosen == TransportKind::MqttUdp && (
        e is Transport || e is Timeout) {
            seq![now]
        } else {
            Seq::empty()
        },
        final(s).mqtt_circuit.open_count == old(s).mqtt_circuit.open_count,
        final(s).mqtt_circuit.cooldown_until == old(s).mqtt_circuit.cooldown_until,
{
    reveal(Seq::filter);
}

/// A connection that takes too long is a timeout, which counts as a lost link.
pub proof fn law_timeouts_are_reported(s: &mut VoiceSupervisor, now: u64, r: Option<VoiceError>)
    requires
        call_ensures(VoiceSupervisor::connected, (s, ConnectOutcome::TimedOut, now), r),
        old(s).mqtt_circuit.failures@.len() == 0,
    ensures
        r matches Some(VoiceError::Timeout(d)) && d@ == "连接超时（30s）"@,
        final(s).state == State::Backoff,
        old(s).chosen == TransportKind::MqttUdp ==> final(s).mqtt_circuit.failures@ == seq![now],
{
    reveal(Seq::filter);
}

/// A session that ends in peace is followed by the next selection at once, one that fails by a
/// wait. Either way nothing of it is left; an audio error closes the device, and a lost link counts
/// against MQTT exactly where the session ran over it.
pub proof fn law_end_of_a_session(
    s: &mut VoiceSupervisor,
    device_open: bool,
    result: Result<(), VoiceError>,
    now: u64,
    duty: AudioDuty,
)
    requires
        call_ensures(VoiceSupervisor::stream_ended, (s, device_open, &result, now), duty),
        old(s).handles is None,
        old(s).mqtt_circuit.failures@.len() == 0,
    ensures
        final(s).epoch is None,
        final(s).handles is None,
        final(s).backoff == old(s).backoff,
        result is Ok ==> final(s).state == State::SelectTransport && final(s).has_audio
            == device_open && final(s).mqtt_circuit == old(s).mqtt_circuit,
        result is Err ==> final(s).state == State::Backoff,
        result matches Err(VoiceError::Audio(_)) ==> !final(s).has_audio,
        result is Err && !(result matches Err(VoiceError::Audio(_))) ==> final(s).has_audio
            == device_open,
        duty == AudioDuty::Stop <==> result is Ok && device_open,
        duty == AudioDuty::StopAndClose <==> device_open && (result matches Err(
            VoiceError::Audio(_),
        )),
        final(s).mqtt_circuit.failures@ == if old(s).epoch == Some(TransportKind::MqttUdp) && (
        result matches Err(e) && (e is Transport || e is Timeout)) {
            seq![now]
        } else {
            Seq::empty()
        },
{
    reveal(Seq::filter);
}

/// A shutdown is obeyed at once, whatever the supervisor does, and nothing of a session is left; the
/// audio is to be stopped exactly where it is open.
pub proof fn law_shutdown_is_obeyed(
    a: &mut VoiceSupervisor,
    now: u64,
    task: Task,
    b: &mut VoiceSupervisor,
    exit: Option<bool>,
)
    requires
        call_ensures(VoiceSupervisor::begin, (a, true, now), task),
        call_ensures(VoiceSupervisor::slept, (b, true), exit),
    ensures
        task == (Task::Exit { stop_audio: old(a).has_audio }),
        final(a).epoch is None,
        final(a).handles is None,
        exit == Some(old(b).has_audio),
        final(b).epoch is None,
        final(b).handles is None,
{
}

/// A sign of life is due once every thirty seconds.
pub proof fn law_heartbeats_are_regular(
    a: &mut VoiceSupervisor,
    t1: u64,
    first: bool,
    b: &mut VoiceSupervisor,
    t2: u64,
    second: bool,
)
    requires
        call_ensures(VoiceSupervisor::heartbeat_due, (a, t1), first),
        *old(b) == *final(a),
        call_ensures(VoiceSupervisor::heartbeat_due, (b, t2), second),
        first,
        old(a).heartbeat <= t1 <= t2,
    ensures
        t1 >= old(a).heartbeat + 30_000_000_000,
        second <==> t2 >= t1 + 30_000_000_000,
        final(a).state == old(a).state,
{
}

/// A session that fails is given up and waited out. An audio error closes the device where it is
/// open; a lost link counts against MQTT exactly where the session ran over it.
pub proof fn law_stream_errors(s: &mut VoiceSupervisor, e: VoiceError, now: u64, duty: AudioDuty)
    requires
        call_ensures(VoiceSupervisor::on_stream_error, (s, &e, now), duty),
        old(s).mqtt_circuit.failures@.len() == 0,
    ensures
        final(s).state == State::Backoff,
        final(s).epoch is None,
        final(s).handles == old(s).handles,
        final(s).has_audio <==> old(s).has_audio && !(e is Audio),
        duty == AudioDuty::StopAndClose <==> old(s).has_audio && e is Audio,
        duty == AudioDuty::Leave <==> !(old(s).has_audio && e is Audio),
        final(s).mqtt_circuit.failures@ == if old(s).epoch == Some(TransportKind::MqttUdp) && (
        e is Transport || e is Timeout) {
            seq![now]
        } else {
            Seq::empty()
        },
        final(s).backoff == old(s).backoff,
{
    reveal(Seq::filter);
}

/// Every wait of the supervisor is drawn anew, as a wait of its backoff is.
pub proof fn law_supervisor_draws_its_waits(
    s: &mut VoiceSupervisor,
    now: u64,
    task: Task,
    b: &mut policy::Backoff,
    delay: u64,
)
    requires
        old(s).state == State::Backoff,
        call_ensures(VoiceSupervisor::begin, (s, false, now), task),
        *old(b) == old(s).backoff,
        call_ensures(policy::Backoff::next, (b,), delay),
    ensures
        task == (Task::Sleep { delay_ms: delay }),
        final(s).backoff == *final(b),
        final(s).state == State::Backoff,
{
}

/// A supervisor begins with the selection of a transport, and MQTT is chosen at first wherever it is
/// configured; it uses what it was made with.
pub proof fn law_supervisors_begin(
    identity: DeviceIdentity,
    ota: OtaConfig,
    has_audio: bool,
    now: u64,
    s: VoiceSupervisor,
    a: &mut VoiceSupervisor,
    t1: u64,
    first: Task,
    b: &mut VoiceSupervisor,
    t2: u64,
    second: Task,
)
    requires
        call_ensures(VoiceSupervisor::new, (identity, ota, has_audio, now), s),
        *old(a) == s,
        call_ensures(VoiceSupervisor::begin, (a, false, t1), first),
        *old(b) == *final(a),
        call_ensures(VoiceSupervisor::begin, (b, false, t2), second),
    ensures
        first == Task::Advance,
        second matches Task::Connect { kind, params } && params.device_id@ == identity.device_id@
            && params.client_id@ == identity.client_id@ && (kind == TransportKind::MqttUdp
            <==> ota.mqtt is Some),
        final(b).has_audio == has_audio,
        final(b).heartbeat == now,
        final(b).backoff.attempt == 0,
        final(b).epoch is None,
        final(b).handles is None,
{
}

} // verus!
