//! JSON messages on the wire, shared by WebSocket and MQTT.
//!
//! The uplink is Opus at 16 kHz, mono, 60 ms per frame.

use vstd::prelude::*;
use vstd::string::*;

use crate::json::Json;
use crate::{json, text};

verus! {

/// What the client tells the server.
#[derive(Debug)]
pub enum ClientMessage {
    Hello { version: u8, features: Features, transport: String, audio_params: AudioParams },
    Listen { session_id: String, state: ListenState, mode: Option<String>, text: Option<String> },
    /// Ends a session on the server's side too: without it the server lingers in the old session
    /// and ignores the audio of the next one for about a minute.
    Abort { session_id: String, reason: String },
}

/// What the client offers.
#[derive(Debug, Clone, Copy, PartialEq, Eq, Structural)]
pub struct Features {
    pub mcp: bool,
    pub glyph_push: bool,
}

impl Default for Features {
    fn default() -> (f: Self)
        ensures
            f == (Features { mcp: false, glyph_push: false }),
    {
        Features { mcp: false, glyph_push: false }
    }
}

impl Features {
    /// Whether nothing is offered; such features are left out of the message.
    pub fn is_empty(&self) -> (r: bool)
        ensures
            r == (!self.mcp && !self.glyph_push),
    {
        !self.mcp && !self.glyph_push
    }

    /// The features as a JSON object; what is not offered is left out.
    pub open spec fn json(self) -> Seq<char> {
        if self.mcp && self.glyph_push {
            "{\"mcp\":true,\"glyph_push\":true}"@
        } else if self.mcp {
            "{\"mcp\":true}"@
        } else if self.glyph_push {
            "{\"glyph_push\":true}"@
        } else {
            "{}"@
        }
    }

    /// The features as a JSON object; what is not offered is left out.
    pub fn to_json(&self) -> (s: String)
        ensures
            s@ == self.json(),
    {
        if self.mcp && self.glyph_push {
            "{\"mcp\":true,\"glyph_push\":true}".to_owned()
        } else if self.mcp {
            "{\"mcp\":true}".to_owned()
        } else if self.glyph_push {
            "{\"glyph_push\":true}".to_owned()
        } else {
            "{}".to_owned()
        }
    }
}

/// Format of an audio stream.
#[derive(Debug)]
pub struct AudioParams {
    pub format: String,
    pub sample_rate: u32,
    pub channels: u8,
    pub frame_duration: u16,
}

impl Clone for AudioParams {
    fn clone(&self) -> (r: Self)
        ensures
            r == *self,
    {
        AudioParams {
            format: self.format.clone(),
            sample_rate: self.sample_rate,
            channels: self.channels,
            frame_duration: self.frame_duration,
        }
    }
}

impl Default for AudioParams {
    fn default() -> (p: Self)
        ensures
            p.is_default(),
    {
        AudioParams {
            format: "opus".to_owned(),
            sample_rate: 16000,
            channels: 1,
            frame_duration: 60,
        }
    }
}

impl AudioParams {
    /// Whether this is Opus at 16 kHz, mono, 60 ms per frame.
    pub open spec fn is_default(self) -> bool {
        &&& self.format@ == "opus"@
        &&& self.sample_rate == 16000
        &&& self.channels == 1
        &&& self.frame_duration == 60
    }

    /// The parameters as a JSON object.
    pub open spec fn json(self) -> Seq<char> {
        "{\"format\":"@ + json::quoted(self.format@) + ",\"sample_rate\":"@ + text::dec(
            self.sample_rate as nat,
        ) + ",\"channels\":"@ + text::dec(self.channels as nat) + ",\"frame_duration\":"@ + text::dec(
            self.frame_duration as nat,
        ) + "}"@
    }

    /// The parameters as a JSON object.
    pub fn to_json(&self) -> (s: String)
        ensures
            s@ == self.json(),
    {
        let mut s = "{\"format\":".to_owned();
        s.append(json::quote(self.format.as_str()).as_str());
        s.append(",\"sample_rate\":");
        text::push_dec(&mut s, self.sample_rate as u64);
        s.append(",\"channels\":");
        text::push_dec(&mut s, self.channels as u64);
        s.append(",\"frame_duration\":");
        text::push_dec(&mut s, self.frame_duration as u64);
        s.append("}");
        s
    }
}

/// Whether the client starts or stops listening.
#[derive(Debug, Clone, Copy, PartialEq, Eq, Structural)]
pub enum ListenState {
    Start,
    Stop,
}

impl ListenState {
    /// The name of the state on the wire.
    pub open spec fn name(self) -> Seq<char> {
        match self {
            ListenState::Start => "start"@,
            ListenState::Stop => "stop"@,
        }
    }
}

/// What the server tells the client.
#[allow(inconsistent_fields)]
#[derive(Debug)]
pub enum ServerMessage {
    Hello(ServerHello),
    Tts { state: TtsState, text: Option<String> },
    Stt { text: String },
    Llm { text: Option<String> },
    Listen { state: String },
    Mcp { payload: Json },
    System { command: String },
    Goodbye { session_id: String },
    /// A message of a type the client does not know, kept whole for diagnosis.
    Unknown(Json),
}

/// The server's answer to a hello.
#[derive(Debug)]
pub struct ServerHello {
    pub transport: String,
    pub session_id: String,
    pub audio_params: Option<AudioParams>,
    /// Present for the MQTT+UDP transport only.
    pub udp: Option<UdpChannel>,
}

impl Default for ServerHello {
    fn default() -> (h: Self)
        ensures
            h.transport@ == Seq::<char>::empty(),
            h.session_id@ == Seq::<char>::empty(),
            h.audio_params is None,
            h.udp is None,
    {
        ServerHello {
            transport: String::new(),
            session_id: String::new(),
            audio_params: None,
            udp: None,
        }
    }
}

/// Where and under which key the audio of a session travels.
#[derive(Debug)]
pub struct UdpChannel {
    pub server: String,
    pub port: u16,
    /// AES key, 32 hexadecimal digits.
    pub key: String,
    /// AES base nonce, 32 hexadecimal digits.
    pub nonce: String,
}

/// Progress of the server's speech.
#[derive(Debug, Clone, Copy, PartialEq, Eq, Structural)]
pub enum TtsState {
    Start,
    Stop,
    SentenceStart,
    SentenceStop,
    SentenceEnd,
}

/// A JSON member `"name":"value"` preceded by a comma, where there is a value.
pub open spec fn optional_member(name: Seq<char>, value: Option<String>) -> Seq<char> {
    match value {
        Some(v) => name + json::quoted(v@),
        None => Seq::empty(),
    }
}

/// Appends an optional member, whose name comes with its comma, quotes and colon.
pub(crate) fn push_member(s: &mut String, name: &str, value: &Option<String>)
    ensures
        final(s)@ == old(s)@ + optional_member(name@, *value),
{
    match value {
        Some(v) => {
            let ghost before = s@;
            s.append(name);
            s.append(json::quote(v.as_str()).as_str());
            assert(before + name@ + json::quoted(v@) =~= before + (name@ + json::quoted(v@)));
        },
        None => {
            assert(s@ + Seq::<char>::empty() =~= s@);
        },
    }
}

impl ClientMessage {
    /// Whether this is the hello of the given protocol version and transport: MCP on, default
    /// audio parameters.
    pub open spec fn is_hello(self, ver: u8, via: Seq<char>) -> bool {
        match self {
            ClientMessage::Hello { version, features, transport, audio_params } => {
                &&& version == ver
                &&& features == (Features { mcp: true, glyph_push: false })
                &&& transport@ == via
                &&& audio_params.is_default()
            },
            _ => false,
        }
    }

    /// A hello with MCP on and default audio parameters.
    fn hello(version: u8, transport: &str) -> (m: Self)
        ensures
            m.is_hello(version, transport@),
    {
        ClientMessage::Hello {
            version,
            features: Features { mcp: true, glyph_push: false },
            transport: transport.to_owned(),
            audio_params: AudioParams::default(),
        }
    }

    /// The hello of the WebSocket transport: version 2, whose binary frames carry a timestamp
    /// for the server's echo cancellation.
    pub fn hello_websocket_v2() -> (m: Self)
        ensures
            m.is_hello(2, "websocket"@),
    {
        Self::hello(2, "websocket")
    }

    /// The hello of the MQTT+UDP transport: version 3.
    pub fn hello_mqtt_udp() -> (m: Self)
        ensures
            m.is_hello(3, "udp"@),
    {
        Self::hello(3, "udp")
    }

    /// The message as JSON text. Empty features and absent options are left out.
    pub open spec fn json(self) -> Seq<char> {
        match self {
            ClientMessage::Hello { version, features, transport, audio_params } => {
                "{\"type\":\"hello\",\"version\":"@ + text::dec(version as nat) + (if !features.mcp
                    && !features.glyph_push {
                    Seq::empty()
                } else {
                    ",\"features\":"@ + features.json()
                }) + ",\"transport\":"@ + json::quoted(transport@) + ",\"audio_params\":"@
                    + audio_params.json() + "}"@
            },
            ClientMessage::Listen { session_id, state, mode, text } => {
                "{\"type\":\"listen\",\"session_id\":"@ + json::quoted(session_id@) + ",\"state\":\""@
                    + state.name() + "\""@ + optional_member(",\"mode\":"@, mode)
                    + optional_member(",\"text\":"@, text) + "}"@
            },
            ClientMessage::Abort { session_id, reason } => {
                "{\"type\":\"abort\",\"session_id\":"@ + json::quoted(session_id@) + ",\"reason\":"@
                    + json::quoted(reason@) + "}"@
            },
        }
    }

    /// The message as JSON text. Empty features and absent options are left out.
    pub fn to_json(&self) -> (s: String)
        ensures
            s@ == self.json(),
    {
        match self {
            ClientMessage::Hello { version, features, transport, audio_params } => {
                let mut s = "{\"type\":\"hello\",\"version\":".to_owned();
                text::push_dec(&mut s, *version as u64);
                let ghost before = s@;
                if features.is_empty() {
                    assert(before + Seq::<char>::empty() =~= before);
                } else {
                    s.append(",\"features\":");
                    s.append(features.to_json().as_str());
                    assert(before + ",\"features\":"@ + features.json() =~= before + (
                    ",\"features\":"@ + features.json()));
                }
                s.append(",\"transport\":");
                s.append(json::quote(transport.as_str()).as_str());
                s.append(",\"audio_params\":");
                s.append(audio_params.to_json().as_str());
                s.append("}");
                s
            },
            ClientMessage::Listen { session_id, state, mode, text } => {
                let mut s = "{\"type\":\"listen\",\"session_id\":".to_owned();
                s.append(json::quote(session_id.as_str()).as_str());
                s.append(",\"state\":\"");
                match state {
                    ListenState::Start => s.append("start"),
                    ListenState::Stop => s.append("stop"),
                }
                s.append("\"");
                push_member(&mut s, ",\"mode\":", mode);
                push_member(&mut s, ",\"text\":", text);
                s.append("}");
                s
            },
            ClientMessage::Abort { session_id, reason } => {
                let mut s = "{\"type\":\"abort\",\"session_id\":".to_owned();
                s.append(json::quote(session_id.as_str()).as_str());
                s.append(",\"reason\":");
                s.append(json::quote(reason.as_str()).as_str());
                s.append("}");
                s
            },
        }
    }
}

/// The hellos of the two transports: version 2 over a WebSocket and version 3 over UDP, each with
/// MCP on and Opus at 16 kHz, mono, 60 ms.
pub proof fn law_hellos(w: ClientMessage, u: ClientMessage)
    requires
        call_ensures(ClientMessage::hello_websocket_v2, (), w),
        call_ensures(ClientMessage::hello_mqtt_udp, (), u),
    ensures
        w matches ClientMessage::Hello { version, features, transport, audio_params } && version == 2
            && features.mcp && !features.glyph_push && transport@ == "websocket"@
            && audio_params.format@ == "opus"@ && audio_params.sample_rate == 16000
            && audio_params.channels == 1 && audio_params.frame_duration == 60,
        u matches ClientMessage::Hello { version, features, transport, audio_params } && version == 3
            && features.mcp && !features.glyph_push && transport@ == "udp"@ && audio_params.format@
            == "opus"@ && audio_params.sample_rate == 16000 && audio_params.channels == 1
            && audio_params.frame_duration == 60,
{
}

/// A listen message as JSON: its type, its session and its state always, mode and text exactly
/// where it has them.
pub proof fn law_listen_json(m: ClientMessage, s: String)
    requires
        call_ensures(ClientMessage::to_json, (&m,), s),
    ensures
        m matches ClientMessage::Listen { session_id, state, mode, text } ==> s@
            == "{\"type\":\"listen\",\"session_id\":"@ + json::quoted(session_id@)
            + ",\"state\":\""@ + (if state == ListenState::Start {
            "start"@
        } else {
            "stop"@
        }) + "\""@ + (match mode {
            Some(v) => ",\"mode\":"@ + json::quoted(v@),
            None => Seq::empty(),
        }) + (match text {
            Some(v) => ",\"text\":"@ + json::quoted(v@),
            None => Seq::empty(),
        }) + "}"@,
{
}

/// A message that ends a session as JSON: the session that it ends, and why.
pub proof fn law_abort_json(m: ClientMessage, s: String)
    requires
        call_ensures(ClientMessage::to_json, (&m,), s),
    ensures
        m matches ClientMessage::Abort { session_id, reason } ==> s@
            == "{\"type\":\"abort\",\"session_id\":"@ + json::quoted(session_id@)
            + ",\"reason\":"@ + json::quoted(reason@) + "}"@,
{
}

/// A hello as JSON: its version, what the client offers unless that is nothing, the transport, and
/// the audio with its format, rate, channels and frame length.
pub proof fn law_hello_json(m: ClientMessage, s: String)
    requires
        call_ensures(ClientMessage::to_json, (&m,), s),
    ensures
        m matches ClientMessage::Hello { version, features, transport, audio_params: a } ==> s@
            == "{\"type\":\"hello\",\"version\":"@ + text::dec(version as nat) + (
        if features.mcp && features.glyph_push {
            ",\"features\":"@ + "{\"mcp\":true,\"glyph_push\":true}"@
        } else if features.mcp {
            ",\"features\":"@ + "{\"mcp\":true}"@
        } else if features.glyph_push {
            ",\"features\":"@ + "{\"glyph_push\":true}"@
        } else {
            Seq::empty()
        }) + ",\"transport\":"@ + json::quoted(transport@) + ",\"audio_params\":"@ + (
        "{\"format\":"@ + json::quoted(a.format@) + ",\"sample_rate\":"@ + text::dec(
            a.sample_rate as nat,
        ) + ",\"channels\":"@ + text::dec(a.channels as nat) + ",\"frame_duration\":"@ + text::dec(
            a.frame_duration as nat,
        ) + "}"@) + "}"@,
{
}

} // verus!
