//! JSON messages of the classic client.

use vstd::prelude::*;
use vstd::string::*;

use crate::json::Json;
use crate::protocol::message;
use crate::{json, text};

verus! {

/// What the client tells the server.
#[derive(Debug)]
pub enum Message {
    Hello { version: u8, features: Features, transport: String, audio_params: AudioParams },
    Listen { session_id: String, state: ListenState, mode: Option<String>, text: Option<String> },
}

/// What the server tells the client.
#[allow(inconsistent_fields)]
#[derive(Debug)]
pub enum ServerMessage {
    Hello { session_id: String },
    /// The text comes with the beginning of a sentence.
    Tts { state: TtsState, text: Option<String> },
    Listen { state: String },
    Stt { text: String },
    Llm { text: Option<String>, emotion: Option<String> },
    Mcp { name: Option<String>, payload: Option<Json> },
    Goodbye { session_id: String },
}

/// What the client offers.
#[derive(Debug, Clone, Copy, PartialEq, Eq, Structural)]
pub struct Features {
    pub mcp: bool,
}

impl Default for Features {
    fn default() -> (f: Self)
        ensures
            !f.mcp,
    {
        Features { mcp: false }
    }
}

/// Format of an audio stream.
#[derive(Debug)]
pub struct AudioParams {
    pub format: String,
    pub sample_rate: u32,
    pub channels: u8,
    pub frame_duration: u16,
}

impl AudioParams {
    /// Whether this is Opus at 16 kHz, mono, 20 ms per frame.
    pub open spec fn is_default(self) -> bool {
        &&& self.format@ == "opus"@
        &&& self.sample_rate == 16000
        &&& self.channels == 1
        &&& self.frame_duration == 20
    }

    /// The parameters as a JSON object.
    pub open spec fn json(self) -> Seq<char> {
        "{\"format\":"@ + json::quoted(self.format@) + ",\"sample_rate\":"@ + text::dec(
            self.sample_rate as nat,
        ) + ",\"channels\":"@ + text::dec(self.channels as nat) + ",\"frame_duration\":"@
            + text::dec(self.frame_duration as nat) + "}"@
    }

    /// The parameters as a JSON object.
    pub fn to_json(&self) -> (s: String)
        ensures
            s@ == self.json(),
    {
        let mut s = "{\"format\":".to_owned();
        s.append(json::quote(self.format.as_str()).as_str());
        s.append(",\"sample_rate\":");
        text::push_dec(&mut s, self.sample_rate as u64);
        s.append(",\"channels\":");
        text::push_dec(&mut s, self.channels as u64);
        s.append(",\"frame_duration\":");
        text::push_dec(&mut s, self.frame_duration as u64);
        s.append("}");
        s
    }
}

impl Default for AudioParams {
    fn default() -> (p: Self)
        ensures
            p.is_default(),
    {
        AudioParams {
            format: "opus".to_owned(),
            sample_rate: 16000,
            channels: 1,
            frame_duration: 20,
        }
    }
}

/// Whether the client starts or stops listening.
#[derive(Debug, Clone, Copy, PartialEq, Eq, Structural)]
pub enum ListenState {
    Start,
    /// Not sent in realtime mode.
    Stop,
}

/// Progress of the server's speech.
#[derive(Debug, Clone, Copy, PartialEq, Eq, Structural)]
pub enum TtsState {
    Start,
    Stop,
    SentenceStart,
    SentenceStop,
    SentenceEnd,
}

/// The name of a state on the wire.
pub open spec fn state_name(s: ListenState) -> Seq<char> {
    match s {
        ListenState::Start => "start"@,
        ListenState::Stop => "stop"@,
    }
}

impl Message {
    /// Whether this is the hello of the client: version 1, MCP on, over a WebSocket.
    pub open spec fn is_hello(self) -> bool {
        match self {
            Message::Hello { version, features, transport, audio_params } => {
                &&& version == 1
                &&& features.mcp
                &&& transport@ == "websocket"@
                &&& audio_params.is_default()
            },
            _ => false,
        }
    }

    /// The hello of the client.
    pub fn hello() -> (m: Self)
        ensures
            m.is_hello(),
    {
        Message::Hello {
            version: 1,
            features: Features { mcp: true },
            transport: "websocket".to_owned(),
            audio_params: AudioParams::default(),
        }
    }

    /// The message as JSON text. Absent options are left out.
    pub open spec fn json(self) -> Seq<char> {
        match self {
            Message::Hello { version, features, transport, audio_params } => {
                "{\"type\":\"hello\",\"version\":"@ + text::dec(version as nat)
                    + ",\"features\":{\"mcp\":"@ + (if features.mcp {
                    "true"@
                } else {
                    "false"@
                }) + "},\"transport\":"@ + json::quoted(transport@) + ",\"audio_params\":"@
                    + audio_params.json() + "}"@
            },
            Message::Listen { session_id, state, mode, text } => {
                "{\"type\":\"listen\",\"session_id\":"@ + json::quoted(session_id@)
                    + ",\"state\":\""@ + state_name(state) + "\""@ + message::optional_member(
                    ",\"mode\":"@,
                    mode,
                ) + message::optional_member(",\"text\":"@, text) + "}"@
            },
        }
    }

    /// The message as JSON text. Absent options are left out.
    pub fn to_json(&self) -> (s: String)
        ensures
            s@ == self.json(),
    {
        match self {
            Message::Hello { version, features, transport, audio_params } => {
                let mut s = "{\"type\":\"hello\",\"version\":".to_owned();
                text::push_dec(&mut s, *version as u64);
                s.append(",\"features\":{\"mcp\":");
                if features.mcp {
                    s.append("true");
                } else {
                    s.append("false");
                }
                s.append("},\"transport\":");
                s.append(json::quote(transport.as_str()).as_str());
                s.append(",\"audio_params\":");
                s.append(audio_params.to_json().as_str());
                s.append("}");
                s
            },
            Message::Listen { session_id, state, mode, text } => {
                let mut s = "{\"type\":\"listen\",\"session_id\":".to_owned();
                s.append(json::quote(session_id.as_str()).as_str());
                s.append(",\"state\":\"");
                match state {
                    ListenState::Start => s.append("start"),
                    ListenState::Stop => s.append("stop"),
                }
                s.append("\"");
                message::push_member(&mut s, ",\"mode\":", mode);
                message::push_member(&mut s, ",\"text\":", text);
                s.append("}");
                s
            },
        }
    }
}

/// The hello of the classic client: version 1 over a WebSocket, MCP on, Opus at 16 kHz, mono, 20 ms.
pub proof fn law_classic_hello(m: Message)
    requires
        call_ensures(Message::hello, (), m),
    ensures
        m matches Message::Hello { version, features, transport, audio_params } && version == 1
            && features.mcp && transport@ == "websocket"@ && audio_params.format@ == "opus"@
            && audio_params.sample_rate == 16000 && audio_params.channels == 1
            && audio_params.frame_duration == 20,
{
}

/// The messages as JSON: all that they hold, under its names, and mode and text exactly where there
/// are any.
pub proof fn law_classic_json(m: Message, s: String)
    requires
        call_ensures(Message::to_json, (&m,), s),
    ensures
        m matches Message::Hello { version, features, transport, audio_params: a } ==> s@
            == "{\"type\":\"hello\",\"version\":"@ + text::dec(version as nat)
            + ",\"features\":{\"mcp\":"@ + (if features.mcp {
            "true"@
        } else {
            "false"@
        }) + "},\"transport\":"@ + json::quoted(transport@) + ",\"audio_params\":"@ + (
        "{\"format\":"@ + json::quoted(a.format@) + ",\"sample_rate\":"@ + text::dec(
            a.sample_rate as nat,
        ) + ",\"channels\":"@ + text::dec(a.channels as nat) + ",\"frame_duration\":"@ + text::dec(
            a.frame_duration as nat,
        ) + "}"@) + "}"@,
        m matches Message::Listen { session_id, state, mode, text } ==> s@
            == "{\"type\":\"listen\",\"session_id\":"@ + json::quoted(session_id@)
            + ",\"state\":\""@ + (if state == ListenState::Start {
            "start"@
        } else {
            "stop"@
        }) + "\""@ + (match mode {
            Some(v) => ",\"mode\":"@ + json::quoted(v@),
            None => Seq::empty(),
        }) + (match text {
            Some(v) => ",\"text\":"@ + json::quoted(v@),
            None => Seq::empty(),
        }) + "}"@,
{
}

} // verus!
