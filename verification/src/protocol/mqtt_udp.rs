//! The primary link: control messages over MQTT, audio over UDP.
//!
//! MQTT runs at QoS 0 with a clean session and a keep-alive of 240 s; the hello has version 3
//! and transport `udp`. Every audio packet is a 16-byte header, which is also the vector of the
//! cipher, and the enciphered Opus payload. The server's hello names the UDP peer, the key and
//! the base nonce.

use vstd::prelude::*;
use vstd::string::*;
use vstd::utf8::*;

use crate::crypto::{AesCtrCipher, CryptoError, UdpAudioHeader, HEADER_SIZE, TYPE_AUDIO};
use crate::error::{ErrorKind, VoiceError};
use crate::protocol::message::{AudioParams, ClientMessage, ServerMessage, UdpChannel};
use crate::protocol::{ConnectParams, MqttParams, TransportHandles};
use crate::{bytes, clock, crypto, text};

verus! {

/// Keep-alive of the MQTT connection, in seconds.
pub const MQTT_KEEP_ALIVE_SECS: u64 = 240;

/// How long the server may take to answer the hello, in seconds.
pub const HELLO_TIMEOUT_SECS: u64 = 10;

/// How long the MQTT connection may take to come up, in seconds.
pub const NETWORK_TIMEOUT_SECS: u64 = 10;

/// Requests that may wait for the MQTT client.
pub const REQUEST_CAP: usize = 64;

/// Room for one packet.
pub const UDP_MAX_PACKET: usize = 2048;

/// How often the receiver reports.
pub const RECV_REPORT_INTERVAL: u64 = 2_000_000_000;

/// The MQTT+UDP transport.
#[derive(Debug, Clone, Copy, PartialEq, Eq, Structural)]
pub struct MqttUdpTransport;

/// What was negotiated by the hello.
#[derive(Debug)]
pub struct Negotiated {
    pub session_id: String,
    pub server_audio: AudioParams,
    pub udp: UdpChannel,
}

/// How an MQTT client is to be set up.
#[derive(Debug)]
pub struct MqttSettings {
    pub client_id: String,
    pub host: String,
    pub port: u16,
    pub username: String,
    pub password: String,
    pub tls: bool,
    pub keep_alive_secs: u64,
    pub inflight: u16,
    pub clean_session: bool,
    pub request_cap: usize,
}

/// How the MQTT client of a connection is to be set up.
pub fn build_mqtt_options(mqtt: &MqttParams) -> (s: MqttSettings)
    ensures
        s.client_id == mqtt.mqtt_client_id,
        s.host == mqtt.host,
        s.port == mqtt.port,
        s.username == mqtt.username,
        s.password == mqtt.password,
        s.tls == mqtt.tls,
        s.keep_alive_secs == 240,
        s.inflight == 1,
        s.clean_session,
        s.request_cap == 64,
{
    MqttSettings {
        client_id: mqtt.mqtt_client_id.clone(),
        host: mqtt.host.clone(),
        port: mqtt.port,
        username: mqtt.username.clone(),
        password: mqtt.password.clone(),
        tls: mqtt.tls,
        keep_alive_secs: MQTT_KEEP_ALIVE_SECS,
        inflight: 1,
        clean_session: true,
        request_cap: REQUEST_CAP,
    }
}

/// What the audio parameters of a hello come to: the default where it names none.
pub open spec fn audio_or_default(named: Option<AudioParams>, p: AudioParams) -> bool {
    match named {
        Some(a) => p == a,
        None => p.is_default(),
    }
}

/// Takes what was published while the hello is awaited: a hello that names a UDP peer settles
/// the negotiation. Anything else is passed over, such as a hello without one, which may be the
/// echo of the client's own.
pub fn wait_hello(msg: Option<ServerMessage>) -> (r: Option<Negotiated>)
    ensures
        match msg {
            Some(ServerMessage::Hello(h)) => match h.udp {
                Some(udp) => r matches Some(n) && {
                    &&& n.session_id == h.session_id
                    &&& n.udp == udp
                    &&& audio_or_default(h.audio_params, n.server_audio)
                },
                None => r is None,
            },
            _ => r is None,
        },
{
    match msg {
        Some(ServerMessage::Hello(h)) => match h.udp {
            Some(udp) => {
                let server_audio = match h.audio_params {
                    Some(a) => a,
                    None => AudioParams::default(),
                };
                Some(Negotiated { session_id: h.session_id, server_audio, udp })
            },
            None => None,
        },
        _ => None,
    }
}

/// The sending end of the UDP link.
pub struct UdpUplink {
    pub cipher: AesCtrCipher,
    pub base_nonce: [u8; 16],
    /// The sequence of the last packet.
    pub sequence: u32,
}

/// The header of a packet with `len` bytes of audio.
pub open spec fn packet_header(len: nat, timestamp: u32, sequence: u32) -> UdpAudioHeader {
    UdpAudioHeader {
        type_: TYPE_AUDIO,
        flags: 0,
        payload_len: (len % 0x1_0000) as u16,
        ssrc: 0,
        timestamp,
        sequence,
    }
}

/// Whether `packet` is `audio` under a header, enciphered with a key: the header bytes are the
/// vector that the rest is enciphered under.
pub open spec fn sealed(
    key: Seq<u8>,
    base_nonce: Seq<u8>,
    timestamp: u32,
    sequence: u32,
    audio: Seq<u8>,
    packet: Seq<u8>,
) -> bool {
    let iv = packet.take(16);
    &&& packet.len() == 16 + audio.len()
    &&& crypto::is_iv(packet_header(audio.len(), timestamp, sequence), base_nonce, iv)
    &&& packet.skip(16) == crypto::ctr_xor(key, iv, audio)
}

/// The sequence that follows another one; it wraps.
pub open spec fn next_sequence(s: u32) -> u32 {
    if s == u32::MAX {
        0
    } else {
        (s + 1) as u32
    }
}

impl UdpUplink {
    /// An uplink that has sent nothing.
    pub fn new(cipher: AesCtrCipher, base_nonce: [u8; 16]) -> (u: Self)
        ensures
            u.cipher == cipher,
            u.base_nonce == base_nonce,
            u.sequence == 0,
    {
        UdpUplink { cipher, base_nonce, sequence: 0 }
    }

    /// Makes a packet of an audio frame, under the next sequence.
    pub fn seal(&mut self, audio: Vec<u8>, timestamp: u32) -> (packet: Vec<u8>)
        ensures
            final(self).sequence == next_sequence(old(self).sequence),
            final(self).cipher == old(self).cipher,
            final(self).base_nonce == old(self).base_nonce,
            sealed(
                old(self).cipher.key@,
                old(self).base_nonce@,
                timestamp,
                final(self).sequence,
                audio@,
                packet@,
            ),
    {
        self.sequence = self.sequence.wrapping_add(1);
        let header = UdpAudioHeader {
            type_: TYPE_AUDIO,
            flags: 0,
            payload_len: (audio.len() % 0x1_0000) as u16,
            ssrc: 0,
            timestamp,
            sequence: self.sequence,
        };
        let iv = header.build_iv(&self.base_nonce);
        let mut payload = audio;
        self.cipher.apply_keystream(&iv, payload.as_mut_slice());
        let mut packet: Vec<u8> = Vec::new();
        let mut i: usize = 0;
        while i < 16
            invariant
                i <= 16,
                packet@ == iv@.take(i as int),
            decreases 16 - i,
        {
            packet.push(iv[i]);
            i = i + 1;
        }
        packet.append(&mut payload);
        proof {
            assert(packet@.take(16) =~= iv@);
            assert(packet@.skip(16) =~= crypto::ctr_xor(self.cipher.key@, iv@, audio@));
        }
        packet
    }
}

/// What the receiver has seen since its last report.
#[derive(Debug, Clone, Copy, PartialEq, Eq, Structural)]
pub struct UdpRecvStats {
    pub flush_at: u64,
    pub received: u64,
    pub short: u64,
    pub type_dropped: u64,
    pub len_dropped: u64,
    pub seq_dropped: u64,
    pub ok: u64,
}

impl UdpRecvStats {
    /// Nothing seen since `now`.
    pub open spec fn none(now: u64) -> UdpRecvStats {
        UdpRecvStats {
            flush_at: now,
            received: 0,
            short: 0,
            type_dropped: 0,
            len_dropped: 0,
            seq_dropped: 0,
            ok: 0,
        }
    }

    /// Nothing seen since `now`.
    pub fn new(now: u64) -> (s: Self)
        ensures
            s == Self::none(now),
    {
        UdpRecvStats {
            flush_at: now,
            received: 0,
            short: 0,
            type_dropped: 0,
            len_dropped: 0,
            seq_dropped: 0,
            ok: 0,
        }
    }

    /// Every packet is counted once more under what became of it.
    pub open spec fn wf(self) -> bool {
        self.received == self.short + self.type_dropped + self.len_dropped + self.seq_dropped
            + self.ok
    }

    /// The counts after one more packet with the given fate.
    pub open spec fn counted(self, fate: Verdict) -> UdpRecvStats {
        let one = UdpRecvStats { received: (self.received + 1) as u64, ..self };
        match fate {
            Verdict::Short => UdpRecvStats { short: (self.short + 1) as u64, ..one },
            Verdict::WrongType => UdpRecvStats {
                type_dropped: (self.type_dropped + 1) as u64,
                ..one
            },
            Verdict::WrongLength => UdpRecvStats {
                len_dropped: (self.len_dropped + 1) as u64,
                ..one
            },
            Verdict::Replayed => UdpRecvStats { seq_dropped: (self.seq_dropped + 1) as u64, ..one },
            Verdict::Accepted { .. } => UdpRecvStats { ok: (self.ok + 1) as u64, ..one },
        }
    }
}

/// What becomes of a packet.
#[derive(Debug, Clone, Copy, PartialEq, Eq, Structural)]
pub enum Verdict {
    /// Shorter than a header.
    Short,
    /// Not audio.
    WrongType,
    /// Longer or shorter than its header says.
    WrongLength,
    /// Not newer than the last one that was accepted.
    Replayed,
    /// Accepted; `jumped` where packets are missing before it.
    Accepted { jumped: bool },
}

/// What becomes of a packet after one with the sequence `last`: the first check that it fails
/// decides.
pub open spec fn verdict(last: u32, packet: Seq<u8>) -> Verdict {
    if packet.len() < HEADER_SIZE {
        Verdict::Short
    } else if packet[0] != TYPE_AUDIO {
        Verdict::WrongType
    } else if HEADER_SIZE + bytes::be16(packet, 2) != packet.len() {
        Verdict::WrongLength
    } else if bytes::be32(packet, 12) <= last {
        Verdict::Replayed
    } else {
        Verdict::Accepted { jumped: bytes::be32(packet, 12) != last + 1 }
    }
}

/// The receiving end of the UDP link.
pub struct UdpDownlink {
    pub cipher: AesCtrCipher,
    /// The sequence of the last packet that was accepted.
    pub sequence: u32,
    pub stats: UdpRecvStats,
}

impl UdpDownlink {
    /// A downlink that has received nothing.
    pub fn new(cipher: AesCtrCipher, now: u64) -> (d: Self)
        ensures
            d.cipher == cipher,
            d.sequence == 0,
            d.stats == UdpRecvStats::none(now),
            d.stats.wf(),
    {
        UdpDownlink { cipher, sequence: 0, stats: UdpRecvStats::new(now) }
    }

    /// Whether the counts can take one more packet.
    pub fn has_room(&self) -> (r: bool)
        ensures
            r == (self.stats.received < u64::MAX),
    {
        self.stats.received < u64::MAX
    }

    /// Takes a packet: checks it and deciphers the audio of one that is accepted.
    pub fn open(&mut self, packet: &[u8]) -> (r: (Verdict, Vec<u8>))
        requires
            old(self).stats.wf(),
            old(self).stats.received < u64::MAX,
        ensures
            r.0 == verdict(old(self).sequence, packet@),
            final(self).cipher == old(self).cipher,
            final(self).stats == old(self).stats.counted(r.0),
            final(self).stats.wf(),
            match r.0 {
                Verdict::Accepted { .. } => {
                    &&& final(self).sequence == bytes::be32(packet@, 12)
                    &&& r.1@ == crypto::ctr_xor(
                        old(self).cipher.key@,
                        packet@.take(16),
                        packet@.skip(16),
                    )
                },
                _ => {
                    &&& final(self).sequence == old(self).sequence
                    &&& r.1@ == Seq::<u8>::empty()
                },
            },
    {
        self.stats.received = self.stats.received + 1;
        let n: usize = packet.len();
        if n < HEADER_SIZE {
            self.stats.short = self.stats.short + 1;
            return (Verdict::Short, Vec::new());
        }
        let mut iv = [0u8;16];
        let mut i: usize = 0;
        while i < 16
            invariant
                i <= 16 <= packet@.len(),
                forall|j: int| 0 <= j < i ==> #[trigger] iv@[j] == packet@[j],
            decreases 16 - i,
        {
            iv[i] = packet[i];
            i = i + 1;
        }
        assert(iv@ =~= packet@.take(16));
        let header = UdpAudioHeader::parse(&iv);
        proof {
            assert(bytes::be16(iv@, 2) == bytes::be16(packet@, 2));
            assert(bytes::be32(iv@, 12) == bytes::be32(packet@, 12));
        }
        if header.type_ != TYPE_AUDIO {
            self.stats.type_dropped = self.stats.type_dropped + 1;
            return (Verdict::WrongType, Vec::new());
        }
        if n - HEADER_SIZE != header.payload_len as usize {
            self.stats.len_dropped = self.stats.len_dropped + 1;
            return (Verdict::WrongLength, Vec::new());
        }
        if header.sequence <= self.sequence {
            self.stats.seq_dropped = self.stats.seq_dropped + 1;
            return (Verdict::Replayed, Vec::new());
        }
        let jumped = header.sequence != self.sequence + 1;
        self.sequence = header.sequence;
        let mut payload: Vec<u8> = Vec::new();
        let mut i: usize = 16;
        while i < n
            invariant
                16 <= i <= n == packet@.len(),
                payload@ == packet@.subrange(16, i as int),
            decreases n - i,
        {
            payload.push(packet[i]);
            i = i + 1;
            assert(packet@.subrange(16, i as int) =~= packet@.subrange(16, i - 1).push(
                packet@[i - 1],
            ));
        }
        assert(payload@ =~= packet@.skip(16));
        self.cipher.apply_keystream(&iv, payload.as_mut_slice());
        self.stats.ok = self.stats.ok + 1;
        (Verdict::Accepted { jumped }, payload)
    }

    /// Reports what was seen, once every two seconds.
    pub fn report(&mut self, now: u64) -> (r: Option<UdpRecvStats>)
        requires
            old(self).stats.wf(),
        ensures
            final(self).cipher == old(self).cipher,
            final(self).sequence == old(self).sequence,
            final(self).stats.wf(),
            if clock::span(now, old(self).stats.flush_at) >= RECV_REPORT_INTERVAL {
                r == Some(old(self).stats) && final(self).stats == UdpRecvStats::none(now)
            } else {
                r is None && final(self).stats == old(self).stats
            },
    {
        if clock::elapsed(now, self.stats.flush_at) >= RECV_REPORT_INTERVAL {
            let r = self.stats;
            self.stats = UdpRecvStats::new(now);
            Some(r)
        } else {
            None
        }
    }
}

/// Where the setup of a connection stands: each phase waits for the outcome of one action.
#[derive(Debug, Clone, Copy, PartialEq, Eq, Structural)]
pub enum SetupPhase {
    Subscribing,
    Greeting,
    AwaitingHello,
    Binding,
    Resolving,
    Joining,
    Over,
}

/// What happened during the setup.
pub enum SetupEvent {
    /// The action succeeded, or why it did not.
    Done(Result<(), String>),
    /// Something was published, and what it parses to, if it does; or something else happened on
    /// the MQTT connection.
    Polled(Option<ServerMessage>),
    /// The MQTT connection failed.
    PollFailed(String),
    /// The hello took too long.
    HelloTimedOut,
}

/// What to do for the setup.
pub enum SetupAction {
    Subscribe { topic: String },
    Publish { topic: String, payload: String },
    /// Wait for the next MQTT event; all waiting together ends after `HELLO_TIMEOUT_SECS`.
    Poll,
    /// Bind a UDP socket to any port.
    Bind,
    /// Parse the address of the peer.
    Resolve { addr: String },
    /// Connect the UDP socket to the peer.
    Join,
    /// The connection stands.
    Ready { handles: TransportHandles, uplink: UdpUplink, downlink: UdpDownlink },
    Failed(VoiceError),
    /// The event was not awaited.
    Ignored,
}

/// What a settled hello comes to: with the key material that it spells.
pub struct Settled {
    pub hello: Negotiated,
    pub cipher: AesCtrCipher,
    pub base_nonce: [u8; 16],
}

/// The setup of a connection.
pub struct MqttSetup {
    pub phase: SetupPhase,
    pub publish_topic: String,
    pub negotiated: Option<Settled>,
}

/// The text of the address of the UDP peer.
pub open spec fn peer_text(udp: UdpChannel) -> Seq<char> {
    udp.server@ + ":"@ + text::dec(udp.port as nat)
}

/// Whether the cipher and nonce are what the channel's key and nonce spell.
pub open spec fn keyed(udp: UdpChannel, cipher: AesCtrCipher, nonce: [u8; 16]) -> bool {
    &&& crypto::hex_decoded(encode_utf8(udp.key@), cipher.key@)
    &&& crypto::hex_decoded(encode_utf8(udp.nonce@), nonce@)
}

/// Whether the channel's key material is rejected with this error: the nonce is looked at first.
pub open spec fn unkeyed(udp: UdpChannel, e: VoiceError) -> bool {
    ||| exists|c: CryptoError|
        {
            &&& #[trigger] crypto::hex_rejected(encode_utf8(udp.nonce@), c)
            &&& e.is(ErrorKind::Crypto, c.message_spec())
        }
    ||| exists|c: CryptoError, n: Seq<u8>|
        {
            &&& #[trigger] crypto::hex_decoded(encode_utf8(udp.nonce@), n)
            &&& #[trigger] crypto::hex_rejected(encode_utf8(udp.key@), c)
            &&& e.is(ErrorKind::Crypto, c.message_spec())
        }
}

impl MqttSetup {
    /// Once the hello is settled, the key material that it named is there.
    pub open spec fn wf(self) -> bool {
        self.phase == SetupPhase::Binding || self.phase == SetupPhase::Resolving || self.phase
            == SetupPhase::Joining ==> (self.negotiated matches Some(n) && keyed(n.hello.udp, n.cipher, n.base_nonce))
    }

    /// Begins to set up a connection: subscribe first. Without MQTT parameters there is none.
    pub fn begin(params: &ConnectParams) -> (r: Result<(MqttSetup, SetupAction), VoiceError>)
        ensures
            match params.mqtt {
                Some(m) => r matches Ok(s) && {
                    &&& s.0.wf()
                    &&& s.0.phase == SetupPhase::Subscribing
                    &&& s.0.publish_topic == m.publish_topic
                    &&& s.0.negotiated is None
                    &&& s.1 == (SetupAction::Subscribe { topic: m.subscribe_topic })
                },
                None => r matches Err(e) && e.is(ErrorKind::InvalidConfig, "缺少 MQTT 参数"@),
            },
    {
        match &params.mqtt {
            Some(m) => {
                let setup = MqttSetup {
                    phase: SetupPhase::Subscribing,
                    publish_topic: m.publish_topic.clone(),
                    negotiated: None,
                };
                Ok((setup, SetupAction::Subscribe { topic: m.subscribe_topic.clone() }))
            },
            None => Err(VoiceError::InvalidConfig("缺少 MQTT 参数".to_owned())),
        }
    }

    /// Whether the action ends the setup with this error.
    pub open spec fn failed(a: SetupAction, kind: ErrorKind, detail: Seq<char>) -> bool {
        a matches SetupAction::Failed(e) && e.is(kind, detail)
    }

    /// Whether a settled hello leads to `post` and `a`: key material that does not decode ends
    /// the setup, otherwise the UDP socket is next.
    pub open spec fn settled(self, h: Negotiated, post: MqttSetup, a: SetupAction) -> bool {
        match a {
            SetupAction::Bind => {
                &&& post.phase == SetupPhase::Binding
                &&& post.publish_topic == self.publish_topic
                &&& post.negotiated matches Some(n) && n.hello == h && keyed(h.udp, n.cipher, n.base_nonce)
            },
            SetupAction::Failed(e) => {
                &&& post == (MqttSetup { phase: SetupPhase::Over, ..self })
                &&& unkeyed(h.udp, e)
            },
            _ => false,
        }
    }

    /// Takes a settled hello.
    fn settle(&mut self, h: Negotiated) -> (a: SetupAction)
        ensures
            old(self).settled(h, *final(self), a),
    {
        let nonce = match crypto::hex_decode_16(h.udp.nonce.as_str()) {
            Ok(n) => n,
            Err(c) => {
                self.phase = SetupPhase::Over;
                assert(crypto::hex_rejected(encode_utf8(h.udp.nonce@), c));
                return SetupAction::Failed(VoiceError::Crypto(c.message()));
            },
        };
        let cipher = match AesCtrCipher::from_hex_key(h.udp.key.as_str()) {
            Ok(c) => c,
            Err(c) => {
                self.phase = SetupPhase::Over;
                assert(crypto::hex_decoded(encode_utf8(h.udp.nonce@), nonce@));
                assert(crypto::hex_rejected(encode_utf8(h.udp.key@), c));
                return SetupAction::Failed(VoiceError::Crypto(c.message()));
            },
        };
        self.phase = SetupPhase::Binding;
        self.negotiated = Some(Settled { hello: h, cipher, base_nonce: nonce });
        SetupAction::Bind
    }

    /// Whether an event leads to `post` and `a`. An event that is not awaited changes nothing.
    pub open spec fn stepped(
        self,
        event: SetupEvent,
        now: u64,
        post: MqttSetup,
        a: SetupAction,
    ) -> bool {
        let over = MqttSetup { phase: SetupPhase::Over, ..self };
        match (self.phase, event) {
            (SetupPhase::Subscribing, SetupEvent::Done(Ok(_))) => {
                &&& post == (MqttSetup { phase: SetupPhase::Greeting, ..self })
                &&& a matches SetupAction::Publish { topic, payload } && topic
                    == self.publish_topic && (exists|m: ClientMessage| #[trigger]
                    m.is_hello(3, "udp"@) && payload@ == m.json())
            },
            (SetupPhase::Subscribing, SetupEvent::Done(Err(why))) => post == over && Self::failed(
                a,
                ErrorKind::Transport,
                "MQTT 订阅失败: "@ + why@,
            ),
            (SetupPhase::Greeting, SetupEvent::Done(Ok(_))) => {
                &&& post == (MqttSetup { phase: SetupPhase::AwaitingHello, ..self })
                &&& a == SetupAction::Poll
            },
            (SetupPhase::Greeting, SetupEvent::Done(Err(why))) => post == over && Self::failed(
                a,
                ErrorKind::Transport,
                "MQTT 发布 hello 失败: "@ + why@,
            ),
            (SetupPhase::AwaitingHello, SetupEvent::Polled(msg)) => match msg {
                Some(ServerMessage::Hello(h)) if h.udp is Some => exists|n: Negotiated|
                    {
                        &&& n.session_id == h.session_id
                        &&& n.udp == h.udp->0
                        &&& audio_or_default(h.audio_params, n.server_audio)
                        &&& #[trigger] self.settled(n, post, a)
                    },
                _ => post == self && a == SetupAction::Poll,
            },
            (SetupPhase::AwaitingHello, SetupEvent::PollFailed(why)) => post == over
                && Self::failed(a, ErrorKind::Transport, "MQTT 轮询失败: "@ + why@),
            (SetupPhase::AwaitingHello, SetupEvent::HelloTimedOut) => post == over && Self::failed(
                a,
                ErrorKind::Timeout,
                "MQTT hello 响应超时"@,
            ),
            (SetupPhase::Binding, SetupEvent::Done(Ok(_))) => {
                &&& post == (MqttSetup { phase: SetupPhase::Resolving, ..self })
                &&& a matches SetupAction::Resolve { addr } && addr@ == peer_text(
                    self.negotiated->0.hello.udp,
                )
            },
            (SetupPhase::Binding, SetupEvent::Done(Err(why))) => post == over && Self::failed(
                a,
                ErrorKind::Transport,
                "UDP 绑定失败: "@ + why@,
            ),
            (SetupPhase::Resolving, SetupEvent::Done(Ok(_))) => {
                &&& post == (MqttSetup { phase: SetupPhase::Joining, ..self })
                &&& a == SetupAction::Join
            },
            (SetupPhase::Resolving, SetupEvent::Done(Err(why))) => post == over && Self::failed(
                a,
                ErrorKind::InvalidConfig,
                "UDP 地址无效: "@ + why@,
            ),
            (SetupPhase::Joining, SetupEvent::Done(Ok(_))) => {
                let n = self.negotiated->0;
                &&& post == (MqttSetup { phase: SetupPhase::Over, negotiated: None, ..self })
                &&& a matches SetupAction::Ready { handles, uplink, downlink } && {
                    &&& handles.session_id == n.hello.session_id
                    &&& handles.server_audio == n.hello.server_audio
                    &&& uplink.cipher == n.cipher
                    &&& uplink.base_nonce == n.base_nonce
                    &&& uplink.sequence == 0
                    &&& downlink.cipher == n.cipher
                    &&& downlink.sequence == 0
                    &&& downlink.stats == UdpRecvStats::none(now)
                }
            },
            (SetupPhase::Joining, SetupEvent::Done(Err(why))) => post == over && Self::failed(
                a,
                ErrorKind::Transport,
                "UDP 连接失败: "@ + why@,
            ),
            _ => post == self && a == SetupAction::Ignored,
        }
    }

    /// Ends the setup.
    fn fail(&mut self, e: VoiceError) -> (a: SetupAction)
        ensures
            *final(self) == (MqttSetup { phase: SetupPhase::Over, ..*old(self) }),
            a == SetupAction::Failed(e),
    {
        self.phase = SetupPhase::Over;
        SetupAction::Failed(e)
    }

    /// Takes the outcome of an action, in the phases that wait for one.
    fn advance(&mut self, now: u64) -> (a: SetupAction)
        requires
            old(self).wf(),
        ensures
            final(self).wf(),
            old(self).stepped(SetupEvent::Done(Ok(())), now, *final(self), a),
    {
        match self.phase {
            SetupPhase::Subscribing => {
                self.phase = SetupPhase::Greeting;
                let hello = ClientMessage::hello_mqtt_udp();
                let payload = hello.to_json();
                assert(hello.is_hello(3, "udp"@));
                SetupAction::Publish { topic: self.publish_topic.clone(), payload }
            },
            SetupPhase::Greeting => {
                self.phase = SetupPhase::AwaitingHello;
                SetupAction::Poll
            },
            SetupPhase::Binding => {
                self.phase = SetupPhase::Resolving;
                let mut addr = String::new();
                if let Some(n) = &self.negotiated {
                    addr = text::join(n.hello.udp.server.as_str(), ":");
                    text::push_dec(&mut addr, n.hello.udp.port as u64);
                }
                SetupAction::Resolve { addr }
            },
            SetupPhase::Resolving => {
                self.phase = SetupPhase::Joining;
                SetupAction::Join
            },
            SetupPhase::Joining => {
                self.phase = SetupPhase::Over;
                match self.negotiated.take() {
                    Some(n) => {
                        let uplink = UdpUplink::new(n.cipher.clone(), n.base_nonce);
                        SetupAction::Ready {
                            handles: TransportHandles {
                                session_id: n.hello.session_id,
                                server_audio: n.hello.server_audio,
                            },
                            uplink,
                            downlink: UdpDownlink::new(n.cipher, now),
                        }
                    },
                    None => SetupAction::Ignored,
                }
            },
            _ => SetupAction::Ignored,
        }
    }

    /// Takes an event.
    pub fn step(&mut self, event: SetupEvent, now: u64) -> (a: SetupAction)
        requires
            old(self).wf(),
        ensures
            final(self).wf(),
            old(self).stepped(event, now, *final(self), a),
    {
        match event {
            SetupEvent::Done(r) => match r {
                Ok(_) => self.advance(now),
                Err(why) => match self.phase {
                    SetupPhase::Subscribing => self.fail(
                        VoiceError::Transport(text::join("MQTT 订阅失败: ", why.as_str())),
                    ),
                    SetupPhase::Greeting => self.fail(
                        VoiceError::Transport(text::join("MQTT 发布 hello 失败: ", why.as_str())),
                    ),
                    SetupPhase::Binding => self.fail(
                        VoiceError::Transport(text::join("UDP 绑定失败: ", why.as_str())),
                    ),
                    SetupPhase::Resolving => self.fail(
                        VoiceError::InvalidConfig(text::join("UDP 地址无效: ", why.as_str())),
                    ),
                    SetupPhase::Joining => self.fail(
                        VoiceError::Transport(text::join("UDP 连接失败: ", why.as_str())),
                    ),
                    _ => SetupAction::Ignored,
                },
            },
            SetupEvent::Polled(msg) => {
                if self.phase == SetupPhase::AwaitingHello {
                    match wait_hello(msg) {
                        Some(n) => {
                            let ghost before = *self;
                            let a = self.settle(n);
                            assert(before.settled(n, *self, a));
                            a
                        },
                        None => SetupAction::Poll,
                    }
                } else {
                    SetupAction::Ignored
                }
            },
            SetupEvent::PollFailed(why) => {
                if self.phase == SetupPhase::AwaitingHello {
                    self.fail(VoiceError::Transport(text::join("MQTT 轮询失败: ", why.as_str())))
                } else {
                    SetupAction::Ignored
                }
            },
            SetupEvent::HelloTimedOut => {
                if self.phase == SetupPhase::AwaitingHello {
                    self.fail(VoiceError::Timeout("MQTT hello 响应超时".to_owned()))
                } else {
                    SetupAction::Ignored
                }
            },
        }
    }
}

/// A connection stands only where a hello named its peer, and under the key and nonce that this
/// hello spelled.
pub proof fn law_ready_is_keyed(
    pre: MqttSetup,
    event: SetupEvent,
    now: u64,
    post: MqttSetup,
    a: SetupAction,
)
    requires
        pre.wf(),
        pre.stepped(event, now, post, a),
    ensures
        a matches SetupAction::Ready { handles, uplink, downlink } ==> {
            &&& pre.phase == SetupPhase::Joining
            &&& keyed(pre.negotiated->0.hello.udp, uplink.cipher, uplink.base_nonce)
            &&& downlink.cipher == uplink.cipher
        },
{
}

/// Nothing of another connection is carried over: both ends of a connection that stands begin
/// with no packet sent and none received.
pub proof fn law_connections_start_afresh(
    pre: MqttSetup,
    event: SetupEvent,
    now: u64,
    post: MqttSetup,
    a: SetupAction,
)
    requires
        pre.stepped(event, now, post, a),
    ensures
        a matches SetupAction::Ready { handles, uplink, downlink } ==> {
            &&& uplink.sequence == 0
            &&& downlink.sequence == 0
            &&& downlink.stats == UdpRecvStats::none(now)
        },
{
}

/// What is sent is what is received: a packet that the uplink makes of a frame is accepted by the
/// other end, and its audio is the frame. The base nonce has to carry the audio type, the frame
/// has to fit the length field, and the sequence has to be newer than what was received.
pub proof fn law_udp_round_trip(
    key: Seq<u8>,
    base_nonce: Seq<u8>,
    timestamp: u32,
    sequence: u32,
    audio: Seq<u8>,
    packet: Seq<u8>,
    last: u32,
)
    requires
        base_nonce.len() == 16,
        base_nonce[0] == TYPE_AUDIO,
        audio.len() < 0x1_0000,
        sequence > last,
        sealed(key, base_nonce, timestamp, sequence, audio, packet),
    ensures
        verdict(last, packet) == (Verdict::Accepted { jumped: sequence != last + 1 }),
        crypto::ctr_xor(key, packet.take(16), packet.skip(16)) == audio,
{
    let iv = packet.take(16);
    assert(iv[0] == packet[0]);
    assert(bytes::be16(iv, 2) == bytes::be16(packet, 2));
    assert(bytes::be32(iv, 12) == bytes::be32(packet, 12));
    crypto::law_ctr_involution(key, iv, audio);
}

/// No packet is accepted twice: once a packet was accepted, it and all that are not newer are
/// dropped.
pub proof fn law_no_replay(last: u32, packet: Seq<u8>, other: Seq<u8>)
    requires
        verdict(last, packet) is Accepted,
        other.len() >= HEADER_SIZE,
        bytes::be32(other, 12) <= bytes::be32(packet, 12),
    ensures
        bytes::be32(packet, 12) > last,
        !(verdict(bytes::be32(packet, 12) as u32, other) is Accepted),
{
}

/// Packets of one uplink never share a vector until the sequence wraps.
pub proof fn law_vectors_differ(
    key: Seq<u8>,
    base_nonce: Seq<u8>,
    t1: u32,
    t2: u32,
    s1: u32,
    s2: u32,
    a1: Seq<u8>,
    a2: Seq<u8>,
    p1: Seq<u8>,
    p2: Seq<u8>,
)
    requires
        sealed(key, base_nonce, t1, s1, a1, p1),
        sealed(key, base_nonce, t2, s2, a2, p2),
        s1 != s2,
    ensures
        p1.take(16) != p2.take(16),
{
    crypto::law_iv_distinct(
        packet_header(a1.len(), t1, s1),
        packet_header(a2.len(), t2, s2),
        base_nonce,
        p1.take(16),
        p2.take(16),
    );
}

/// A packet of the uplink, byte by byte: the base nonce with the length of the audio, the timestamp
/// that was passed in and the next sequence written over it, and the audio under the keystream of
/// the key and these sixteen bytes.
pub proof fn law_packet_layout(
    u: &mut UdpUplink,
    audio: Vec<u8>,
    timestamp: u32,
    packet: Vec<u8>,
    i: int,
)
    requires
        call_ensures(UdpUplink::seal, (u, audio, timestamp), packet),
        0 <= i < audio@.len(),
    ensures
        packet@.len() == 16 + audio@.len(),
        packet@[0] == old(u).base_nonce@[0] && packet@[1] == old(u).base_nonce@[1],
        256 * packet@[2] + packet@[3] == audio@.len() % 65_536,
        forall|k: int| 4 <= k < 8 ==> #[trigger] packet@[k] == old(u).base_nonce@[k],
        16_777_216 * packet@[8] + 65_536 * packet@[9] + 256 * packet@[10] + packet@[11]
            == timestamp,
        16_777_216 * packet@[12] + 65_536 * packet@[13] + 256 * packet@[14] + packet@[15] == (
        old(u).sequence + 1) % 0x1_0000_0000,
        packet@[16 + i] == audio@[i] ^ crypto::aes128_ctr_byte(
            old(u).cipher.key@,
            packet@.take(16),
            i,
        ),
{
    let iv = packet@.take(16);
    assert forall|k: int| 0 <= k < 16 implies #[trigger] packet@[k] == iv[k] by {}
    assert(packet@.skip(16)[i] == packet@[16 + i]);
}

/// Whoever reads the header of a packet finds the timestamp that was passed in, the length of the
/// audio and the sequence of the uplink.
pub proof fn law_packets_tell_their_timestamp(
    u: &mut UdpUplink,
    audio: Vec<u8>,
    timestamp: u32,
    packet: Vec<u8>,
    head: [u8; 16],
    h: UdpAudioHeader,
)
    requires
        call_ensures(UdpUplink::seal, (u, audio, timestamp), packet),
        head@ == packet@.take(16),
        call_ensures(UdpAudioHeader::parse, (&head,), h),
    ensures
        h.timestamp == timestamp,
        h.payload_len == audio@.len() % 65_536,
        h.sequence == final(u).sequence,
        bytes::be32(packet@, 8) == timestamp,
{
    assert forall|k: int| 0 <= k < 16 implies #[trigger] packet@[k] == head@[k] by {}
}

/// Packets of an uplink are numbered one after another, from one on, and the key and the nonce stay.
pub proof fn law_packets_are_numbered(
    cipher: AesCtrCipher,
    nonce: [u8; 16],
    fresh: UdpUplink,
    u: &mut UdpUplink,
    a1: Vec<u8>,
    t1: u32,
    p1: Vec<u8>,
    v: &mut UdpUplink,
    a2: Vec<u8>,
    t2: u32,
    p2: Vec<u8>,
)
    requires
        call_ensures(UdpUplink::new, (cipher, nonce), fresh),
        call_ensures(UdpUplink::seal, (u, a1, t1), p1),
        *old(v) == *final(u),
        call_ensures(UdpUplink::seal, (v, a2, t2), p2),
        old(u).sequence < u32::MAX - 1,
    ensures
        fresh.sequence == 0,
        final(u).sequence == old(u).sequence + 1,
        final(v).sequence == old(u).sequence + 2,
        final(v).cipher == old(u).cipher,
        final(v).base_nonce == old(u).base_nonce,
{
}

/// What one end seals, the other opens: under the same key a packet that is newer than what was
/// received comes out as the audio that went in.
pub proof fn law_sealed_packets_open(
    u: &mut UdpUplink,
    audio: Vec<u8>,
    timestamp: u32,
    packet: Vec<u8>,
    d: &mut UdpDownlink,
    received: &[u8],
    r: (Verdict, Vec<u8>),
)
    requires
        call_ensures(UdpUplink::seal, (u, audio, timestamp), packet),
        received@ == packet@,
        call_ensures(UdpDownlink::open, (d, received), r),
        old(d).cipher.key == old(u).cipher.key,
        old(u).base_nonce@[0] == 1,
        audio@.len() < 65_536,
        final(u).sequence > old(d).sequence,
    ensures
        r.0 == (Verdict::Accepted { jumped: final(u).sequence != old(d).sequence + 1 }),
        r.1@ == audio@,
        final(d).sequence == final(u).sequence,
{
    law_udp_round_trip(
        old(u).cipher.key@,
        old(u).base_nonce@,
        timestamp,
        final(u).sequence,
        audio@,
        packet@,
        old(d).sequence,
    );
    assert(packet@.take(16)[12] == packet@[12]);
    assert(bytes::be32(packet@.take(16), 12) == bytes::be32(packet@, 12));
}

/// What becomes of a packet: one that is shorter than a header, of another type, of another length
/// than its header says, or not newer than the last one is dropped and gives nothing; any other is
/// accepted, and the next one has to be newer than it.
pub proof fn law_what_is_accepted(d: &mut UdpDownlink, packet: &[u8], r: (Verdict, Vec<u8>))
    requires
        call_ensures(UdpDownlink::open, (d, packet), r),
    ensures
        ({
            let p = packet@;
            let number = 16_777_216 * p[12] + 65_536 * p[13] + 256 * p[14] + p[15];
            let fits = p.len() >= 16 && p[0] == 1 && 16 + 256 * p[2] + p[3] == p.len();
            &&& r.0 is Accepted <==> fits && number > old(d).sequence
            &&& r.0 is Replayed <==> fits && number <= old(d).sequence
            &&& r.0 is Short <==> p.len() < 16
            &&& r.0 is WrongType <==> p.len() >= 16 && p[0] != 1
            &&& r.0 is Accepted ==> final(d).sequence == number && r.1@.len() == p.len() - 16
            &&& !(r.0 is Accepted) ==> final(d).sequence == old(d).sequence && r.1@.len() == 0
            &&& r.0 matches Verdict::Accepted { jumped } ==> (jumped <==> number
                != old(d).sequence + 1)
        }),
{
}

/// A packet that came twice is played once.
pub proof fn law_replays_are_dropped(
    d: &mut UdpDownlink,
    packet: &[u8],
    r: (Verdict, Vec<u8>),
    e: &mut UdpDownlink,
    s: (Verdict, Vec<u8>),
)
    requires
        call_ensures(UdpDownlink::open, (d, packet), r),
        r.0 is Accepted,
        old(e).sequence >= final(d).sequence,
        call_ensures(UdpDownlink::open, (e, packet), s),
    ensures
        s.0 == Verdict::Replayed,
        s.1@.len() == 0,
        final(e).sequence == old(e).sequence,
{
}

/// Every packet is counted once, under what became of it.
pub proof fn law_packets_are_counted(d: &mut UdpDownlink, packet: &[u8], r: (Verdict, Vec<u8>))
    requires
        call_ensures(UdpDownlink::open, (d, packet), r),
        old(d).stats.received < u64::MAX,
        old(d).stats.received == old(d).stats.short + old(d).stats.type_dropped + old(
            d,
        ).stats.len_dropped + old(d).stats.seq_dropped + old(d).stats.ok,
    ensures
        ({
            let a = old(d).stats;
            let b = final(d).stats;
            &&& b.received == a.received + 1
            &&& b.ok == a.ok + (if r.0 is Accepted {
                1int
            } else {
                0
            })
            &&& b.short == a.short + (if r.0 is Short {
                1int
            } else {
                0
            })
            &&& b.type_dropped == a.type_dropped + (if r.0 is WrongType {
                1int
            } else {
                0
            })
            &&& b.len_dropped == a.len_dropped + (if r.0 is WrongLength {
                1int
            } else {
                0
            })
            &&& b.seq_dropped == a.seq_dropped + (if r.0 is Replayed {
                1int
            } else {
                0
            })
            &&& b.flush_at == a.flush_at
        }),
{
}

/// The receiver reports once every two seconds what it counted, and counts anew from there.
pub proof fn law_receiver_reports(d: &mut UdpDownlink, now: u64, r: Option<UdpRecvStats>)
    requires
        call_ensures(UdpDownlink::report, (d, now), r),
        old(d).stats.flush_at <= now,
    ensures
        r is Some <==> now >= old(d).stats.flush_at + 2_000_000_000,
        r matches Some(s) ==> s == old(d).stats && final(d).stats.received == 0
            && final(d).stats.ok == 0 && final(d).stats.short == 0 && final(d).stats.type_dropped
            == 0 && final(d).stats.len_dropped == 0 && final(d).stats.seq_dropped == 0
            && final(d).stats.flush_at == now,
        r is None ==> final(d).stats == old(d).stats,
        final(d).sequence == old(d).sequence,
{
}

/// The way to a connection: subscribe to the configured topic, publish the hello to the other one
/// once that is done, and wait for the answer.
pub proof fn law_way_to_a_hello(
    params: &ConnectParams,
    r: Result<(MqttSetup, SetupAction), VoiceError>,
    a: &mut MqttSetup,
    t1: u64,
    x: SetupAction,
    b: &mut MqttSetup,
    t2: u64,
    y: SetupAction,
)
    requires
        call_ensures(MqttSetup::begin, (params,), r),
        r is Ok,
        *old(a) == r->Ok_0.0,
        call_ensures(MqttSetup::step, (a, SetupEvent::Done(Ok(())), t1), x),
        *old(b) == *final(a),
        call_ensures(MqttSetup::step, (b, SetupEvent::Done(Ok(())), t2), y),
    ensures
        params.mqtt is Some,
        r->Ok_0.1 matches SetupAction::Subscribe { topic } && topic@
            == params.mqtt->0.subscribe_topic@,
        x matches SetupAction::Publish { topic, payload } && topic@ == params.mqtt->0.publish_topic@
            && (exists|m: ClientMessage|
            {
                &&& m matches ClientMessage::Hello { version, features, transport, audio_params }
                    && version == 3 && features.mcp && transport@ == "udp"@
                    && audio_params.sample_rate == 16000 && audio_params.frame_duration == 60
                &&& payload@ == #[trigger] m.json()
            }),
        y == SetupAction::Poll,
        final(b).phase == SetupPhase::AwaitingHello,
{
    let m = choose|m: ClientMessage| #[trigger]
        m.is_hello(3, "udp"@) && x->payload@ == m.json();
    assert(m.is_hello(3, "udp"@));
}

/// Only a hello that names a UDP peer settles the connection: anything else is passed over. Its
/// session and its audio parameters are taken, or Opus at 16 kHz, mono, 60 ms where it names none.
pub proof fn law_what_settles_a_hello(msg: Option<ServerMessage>, r: Option<Negotiated>)
    requires
        call_ensures(wait_hello, (msg,), r),
    ensures
        r is Some <==> (msg matches Some(ServerMessage::Hello(h)) && h.udp is Some),
        r matches Some(n) ==> (msg matches Some(ServerMessage::Hello(h)) && n.session_id@
            == h.session_id@ && n.udp == h.udp->0 && (match h.audio_params {
            Some(a) => n.server_audio == a,
            None => n.server_audio.sample_rate == 16000 && n.server_audio.channels == 1
                && n.server_audio.frame_duration == 60 && n.server_audio.format@ == "opus"@,
        })),
{
}

/// The way from a hello to a connection that stands: a socket, the address of the peer that the
/// hello named, and the connection to it. It has the session of the hello, and both ends start
/// with the key that the hello spelled and nothing sent or received.
pub proof fn law_way_from_a_hello(
    a: &mut MqttSetup,
    t1: u64,
    x: SetupAction,
    b: &mut MqttSetup,
    t2: u64,
    y: SetupAction,
    c: &mut MqttSetup,
    t3: u64,
    z: SetupAction,
)
    requires
        old(a).phase == SetupPhase::Binding,
        old(a).negotiated is Some,
        call_ensures(MqttSetup::step, (a, SetupEvent::Done(Ok(())), t1), x),
        *old(b) == *final(a),
        call_ensures(MqttSetup::step, (b, SetupEvent::Done(Ok(())), t2), y),
        *old(c) == *final(b),
        call_ensures(MqttSetup::step, (c, SetupEvent::Done(Ok(())), t3), z),
    ensures
        ({
            let n = old(a).negotiated->0;
            &&& x matches SetupAction::Resolve { addr } && addr@ == n.hello.udp.server@ + seq![':']
                + text::dec(n.hello.udp.port as nat)
            &&& y == SetupAction::Join
            &&& z matches SetupAction::Ready { handles, uplink, downlink } && {
                &&& handles.session_id@ == n.hello.session_id@
                &&& handles.server_audio == n.hello.server_audio
                &&& uplink.cipher.key == n.cipher.key
                &&& uplink.base_nonce == n.base_nonce
                &&& uplink.sequence == 0
                &&& downlink.cipher.key == n.cipher.key
                &&& downlink.sequence == 0
                &&& downlink.stats.received == 0
            }
            &&& final(c).phase == SetupPhase::Over
        }),
{
    reveal_strlit(":");
    assert(":"@ =~= seq![':']);
}

/// A setup that fails says at which step, and with which kind of error: the broker, the socket and
/// the peer are the transport's, an address that is none is the configuration's, and a hello that
/// stays out is a timeout.
pub proof fn law_setup_failures(a: &mut MqttSetup, event: SetupEvent, now: u64, x: SetupAction)
    requires
        call_ensures(MqttSetup::step, (a, event, now), x),
        x is Failed,
        !(event is Polled),
    ensures
        final(a).phase == SetupPhase::Over,
        x matches SetupAction::Failed(e) && match (old(a).phase, event) {
            (SetupPhase::Subscribing, SetupEvent::Done(Err(why))) => e matches
                VoiceError::Transport(d) && d@ == "MQTT 订阅失败: "@ + why@,
            (SetupPhase::Greeting, SetupEvent::Done(Err(why))) => e matches VoiceError::Transport(d)
                && d@ == "MQTT 发布 hello 失败: "@ + why@,
            (SetupPhase::AwaitingHello, SetupEvent::PollFailed(why)) => e matches
                VoiceError::Transport(d) && d@ == "MQTT 轮询失败: "@ + why@,
            (SetupPhase::AwaitingHello, SetupEvent::HelloTimedOut) => e matches
                VoiceError::Timeout(d) && d@ == "MQTT hello 响应超时"@,
            (SetupPhase::Binding, SetupEvent::Done(Err(why))) => e matches VoiceError::Transport(d)
                && d@ == "UDP 绑定失败: "@ + why@,
            (SetupPhase::Resolving, SetupEvent::Done(Err(why))) => e matches
                VoiceError::InvalidConfig(d) && d@ == "UDP 地址无效: "@ + why@,
            (SetupPhase::Joining, SetupEvent::Done(Err(why))) => e matches VoiceError::Transport(d)
                && d@ == "UDP 连接失败: "@ + why@,
            _ => false,
        },
{
}

/// While the hello is awaited, whatever settles nothing is waited past, and a hello whose key and
/// nonce can be read leads on to the socket with both of them kept.
pub proof fn law_hellos_are_awaited(
    a: &mut MqttSetup,
    msg: Option<ServerMessage>,
    now: u64,
    x: SetupAction,
)
    requires
        call_ensures(MqttSetup::step, (a, SetupEvent::Polled(msg), now), x),
        old(a).phase == SetupPhase::AwaitingHello,
    ensures
        x == SetupAction::Poll || x == SetupAction::Bind || (x matches SetupAction::Failed(
            VoiceError::Crypto(_),
        )),
        x == SetupAction::Poll <==> !(msg matches Some(ServerMessage::Hello(h)) && h.udp is Some),
        x == SetupAction::Poll ==> *final(a) == *old(a),
        x is Failed ==> final(a).phase == SetupPhase::Over,
        x == SetupAction::Bind ==> (msg matches Some(ServerMessage::Hello(h)) && {
            &&& final(a).phase == SetupPhase::Binding
            &&& final(a).publish_topic == old(a).publish_topic
            &&& final(a).negotiated matches Some(n) && n.hello.session_id@ == h.session_id@
                && n.hello.udp == h.udp->0 && crypto::hex_decoded(
                encode_utf8(h.udp->0.key@),
                n.cipher.key@,
            ) && crypto::hex_decoded(encode_utf8(h.udp->0.nonce@), n.base_nonce@)
        }),
{
    if let Some(ServerMessage::Hello(h)) = msg {
        if h.udp is Some {
            let n = choose|n: Negotiated|
                {
                    &&& n.session_id == h.session_id
                    &&& n.udp == h.udp->0
                    &&& audio_or_default(h.audio_params, n.server_audio)
                    &&& #[trigger] old(a).settled(n, *final(a), x)
                };
            assert(old(a).settled(n, *final(a), x));
        }
    }
}

/// The broker is reached as configured, by the assigned name and credentials; one message is under
/// way at a time, and no session is kept.
pub proof fn law_broker_settings(mqtt: MqttParams, s: MqttSettings)
    requires
        call_ensures(build_mqtt_options, (&mqtt,), s),
    ensures
        s.client_id@ == mqtt.mqtt_client_id@,
        s.host@ == mqtt.host@,
        s.port == mqtt.port,
        s.username@ == mqtt.username@,
        s.password@ == mqtt.password@,
        s.tls <==> mqtt.tls,
        s.clean_session,
        s.inflight == 1,
        s.keep_alive_secs == 240,
        s.request_cap == 64,
{
}

} // verus!
