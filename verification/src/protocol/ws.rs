//! The fallback link: everything over one WebSocket.
//!
//! Audio travels in binary frames of protocol version 2: a 16-byte big-endian header with a
//! timestamp for the server's echo cancellation, and the Opus payload.

use vstd::prelude::*;
use vstd::string::*;

use crate::error::{ErrorKind, VoiceError};
use crate::protocol::message::{AudioParams, ServerMessage};
use crate::protocol::{ConnectParams, IncomingEvent, TransportHandles};
use crate::{bytes, identity, text};

verus! {

/// Size of the header of a version 2 frame.
pub const V2_HEADER_SIZE: usize = 16;

/// Size of the header of a version 3 frame.
pub const V3_HEADER_SIZE: usize = 4;

/// Frame type of Opus audio.
pub const V2_TYPE_OPUS: u16 = 0;

/// Period of the pings, in seconds.
pub const PING_INTERVAL_SECS: u64 = 15;

/// How long the server may take to answer the hello, in seconds.
pub const WS_HELLO_TIMEOUT_SECS: u64 = 10;

/// The WebSocket transport.
#[derive(Debug, Clone, Copy, PartialEq, Eq, Structural)]
pub struct WsTransport;

/// Byte `i` of a string of bytes, zero beyond its end.
pub open spec fn byte_or_zero(b: Seq<u8>, i: int) -> int {
    if i < b.len() {
        b[i] as int
    } else {
        0
    }
}

/// The `k`-th group of six bits, of the bits of a string of bytes in a row.
pub open spec fn sextet(b: Seq<u8>, k: int) -> int {
    let g = k / 4;
    let n = byte_or_zero(b, 3 * g) * 0x1_0000 + byte_or_zero(b, 3 * g + 1) * 0x100 + byte_or_zero(
        b,
        3 * g + 2,
    );
    if k % 4 == 0 {
        n / 0x4_0000
    } else if k % 4 == 1 {
        n / 0x1000 % 64
    } else if k % 4 == 2 {
        n / 0x40 % 64
    } else {
        n % 64
    }
}

/// The Base64 character of a group of six bits.
pub open spec fn base64_char(v: int) -> char {
    if v < 26 {
        ('A' as int + v) as char
    } else if v < 52 {
        ('a' as int + (v - 26)) as char
    } else if v < 62 {
        ('0' as int + (v - 52)) as char
    } else if v == 62 {
        '+'
    } else {
        '/'
    }
}

/// The Base64 text of 16 bytes: 22 characters and two of padding.
pub open spec fn base64_key(b: Seq<u8>) -> Seq<char> {
    Seq::new(
        24,
        |k: int|
            if k < 22 {
                base64_char(sextet(b, k))
            } else {
                '='
            },
    )
}

/// The Base64 character of a group of six bits.
fn base64_digit(v: u8) -> (c: char)
    requires
        v < 64,
    ensures
        c == base64_char(v as int),
{
    if v < 26 {
        (0x41u8 + v) as char
    } else if v < 52 {
        (0x61u8 + (v - 26)) as char
    } else if v < 62 {
        (0x30u8 + (v - 52)) as char
    } else if v == 62 {
        '+'
    } else {
        '/'
    }
}

/// The four groups of six bits of three bytes.
proof fn lemma_sextets(b: Seq<u8>, g: int)
    requires
        0 <= g,
    ensures
        sextet(b, 4 * g) == byte_or_zero(b, 3 * g) / 4,
        sextet(b, 4 * g + 1) == byte_or_zero(b, 3 * g) % 4 * 16 + byte_or_zero(b, 3 * g + 1) / 16,
        sextet(b, 4 * g + 2) == byte_or_zero(b, 3 * g + 1) % 16 * 4 + byte_or_zero(b, 3 * g + 2)
            / 64,
        sextet(b, 4 * g + 3) == byte_or_zero(b, 3 * g + 2) % 64,
{
    let x = byte_or_zero(b, 3 * g) as u32;
    let y = byte_or_zero(b, 3 * g + 1) as u32;
    let z = byte_or_zero(b, 3 * g + 2) as u32;
    let n = (x * 0x1_0000 + y * 0x100 + z) as u32;
    assert(n / 0x4_0000 == x / 4 && n / 0x1000 % 64 == x % 4 * 16 + y / 16 && n / 0x40 % 64 == y
        % 16 * 4 + z / 64 && n % 64 == z % 64) by (bit_vector)
        requires
            x < 256,
            y < 256,
            z < 256,
            n == x * 0x1_0000 + y * 0x100 + z,
    ;
    assert((4 * g) / 4 == g && (4 * g + 1) / 4 == g && (4 * g + 2) / 4 == g && (4 * g + 3) / 4
        == g);
}

/// The handshake key that 16 bytes make.
pub fn sec_key_of(b: &[u8; 16]) -> (s: String)
    ensures
        s@ == base64_key(b@),
{
    let mut s = String::new();
    let mut i: usize = 0;
    while i < 16
        invariant
            i <= 18,
            i % 3 == 0,
            s@ == base64_key(b@).take(i / 3 * 4),
        decreases 18 - i,
    {
        let ghost g = i as int / 3;
        let ghost key = base64_key(b@);
        let b0: u8 = b[i];
        let b1: u8 = if i + 1 < 16 {
            b[i + 1]
        } else {
            0
        };
        let b2: u8 = if i + 2 < 16 {
            b[i + 2]
        } else {
            0
        };
        proof {
            lemma_sextets(b@, g);
        }
        s.push(base64_digit(b0 / 4));
        s.push(base64_digit(b0 % 4 * 16 + b1 / 16));
        if i + 1 < 16 {
            s.push(base64_digit(b1 % 16 * 4 + b2 / 64));
        } else {
            s.push('=');
        }
        if i + 2 < 16 {
            s.push(base64_digit(b2 % 64));
        } else {
            s.push('=');
        }
        proof {
            assert(key.take(4 * g + 4) =~= key.take(4 * g).push(key[4 * g]).push(
                key[4 * g + 1],
            ).push(key[4 * g + 2]).push(key[4 * g + 3]));
        }
        i = i + 3;
    }
    assert(base64_key(b@).take(24) =~= base64_key(b@));
    s
}

/// A fresh handshake key: the Base64 text of 16 random bytes.
pub fn ws_sec_key() -> (s: String)
    ensures
        exists|b: Seq<u8>| identity::is_uuid_v4(b) && s@ == #[trigger] base64_key(b),
{
    let b = identity::random_uuid();
    sec_key_of(&b)
}

/// A handshake key has 24 characters of the Base64 alphabet and ends in two of padding.
pub proof fn law_sec_key_form(b: Seq<u8>)
    requires
        b.len() == 16,
    ensures
        base64_key(b).len() == 24,
        base64_key(b)[22] == '=',
        base64_key(b)[23] == '=',
        forall|k: int|
            0 <= k < 24 ==> {
                let c = #[trigger] base64_key(b)[k];
                'A' <= c <= 'Z' || 'a' <= c <= 'z' || '0' <= c <= '9' || c == '+' || c == '/' || c
                    == '='
            },
{
    assert forall|k: int| 0 <= k < 22 implies 0 <= #[trigger] sextet(b, k) < 64 by {
        let g = k / 4;
        lemma_sextets(b, g);
    }
}

/// Different bytes make different keys.
pub proof fn law_sec_key_injective(a: Seq<u8>, b: Seq<u8>)
    requires
        a.len() == 16,
        b.len() == 16,
        base64_key(a) == base64_key(b),
    ensures
        a == b,
{
    assert forall|k: int| 0 <= k < 22 implies #[trigger] sextet(a, k) == sextet(b, k) by {
        assert(base64_key(a)[k] == base64_key(b)[k]);
        assert(base64_key(a)[k] == base64_char(sextet(a, k)));
        assert(base64_key(b)[k] == base64_char(sextet(b, k)));
        lemma_sextets(a, k / 4);
        lemma_sextets(b, k / 4);
        lemma_base64_char_injective(sextet(a, k), sextet(b, k));
    }
    assert forall|i: int| 0 <= i < 16 implies a[i] == b[i] by {
        let g = i / 3;
        lemma_sextets(a, g);
        lemma_sextets(b, g);
        assert(sextet(a, 4 * g) == sextet(b, 4 * g));
        assert(sextet(a, 4 * g + 1) == sextet(b, 4 * g + 1));
        if i % 3 == 1 {
            assert(sextet(a, 4 * g + 2) == sextet(b, 4 * g + 2));
        }
        if i % 3 == 2 {
            assert(sextet(a, 4 * g + 2) == sextet(b, 4 * g + 2));
            assert(sextet(a, 4 * g + 3) == sextet(b, 4 * g + 3));
        }
    }
    assert(a =~= b);
}

proof fn lemma_base64_char_injective(v: int, w: int)
    requires
        0 <= v < 64,
        0 <= w < 64,
        base64_char(v) == base64_char(w),
    ensures
        v == w,
{
}

/// The host and port that a URL names, or none, or why it is no URL.
pub uninterp spec fn uri_authority(url: Seq<char>) -> Result<Option<Seq<char>>, Seq<char>>;

/// `http::Uri`'s parser and `authority`: the authority part of the URL, where it has one, or the
/// text of the error. An empty text does not parse.
#[verifier::external_body]
fn parse_authority(url: &str) -> (r: Result<Option<String>, String>)
    ensures
        match r {
            Ok(Some(host)) => uri_authority(url@) == Ok::<Option<Seq<char>>, Seq<char>>(
                Some(host@),
            ),
            Ok(None) => uri_authority(url@) == Ok::<Option<Seq<char>>, Seq<char>>(None),
            Err(e) => uri_authority(url@) == Err::<Option<Seq<char>>, Seq<char>>(e@),
        },
        url@.len() == 0 ==> r is Err,
{
    match url.parse::<http::Uri>() {
        Ok(uri) => Ok(uri.authority().map(|a| a.as_str().to_string())),
        Err(e) => Err(e.to_string()),
    }
}

/// The request that opens a WebSocket.
#[derive(Debug)]
pub struct WsRequest {
    pub url: String,
    pub headers: Vec<(String, String)>,
}

/// Whether `r` opens a WebSocket under the given host and key for a connection.
pub open spec fn opens(p: ConnectParams, host: Seq<char>, key: Seq<char>, r: WsRequest) -> bool {
    &&& r.url == p.ws_url
    &&& crate::ota::headers_are(
        r.headers@,
        seq![
            ("Host"@, host),
            ("Connection"@, "Upgrade"@),
            ("Upgrade"@, "websocket"@),
            ("Sec-WebSocket-Version"@, "13"@),
            ("Sec-WebSocket-Key"@, key),
            ("Authorization"@, "Bearer "@ + p.token@),
            ("Protocol-Version"@, "2"@),
            ("Device-Id"@, p.device_id@),
            ("Client-Id"@, p.client_id@),
        ],
    )
}

/// Whether `r` opens a WebSocket under the given host and the key of some random bytes.
pub open spec fn opens_afresh(p: ConnectParams, host: Seq<char>, r: WsRequest) -> bool {
    exists|b: Seq<u8>|
        identity::is_uuid_v4(b) && opens(p, host, #[trigger] base64_key(b), r)
}

/// The request that opens a WebSocket, once the authority of the URL is known and a key drawn.
/// The host has to be named by the client, so a URL without one cannot be used.
pub fn handshake_request(
    params: &ConnectParams,
    authority: Result<Option<String>, String>,
    key: String,
) -> (r: Result<WsRequest, VoiceError>)
    ensures
        match authority {
            Ok(Some(host)) => r matches Ok(q) && opens(*params, host@, key@, q),
            Ok(None) => r matches Err(e) && e.is(
                ErrorKind::Transport,
                "URL 缺少 host: "@ + params.ws_url@,
            ),
            Err(why) => r matches Err(e) && e.is(ErrorKind::Transport, "URI 解析失败: "@ + why@),
        },
{
    let host = match authority {
        Ok(Some(host)) => host,
        Ok(None) => return Err(
            VoiceError::Transport(text::join("URL 缺少 host: ", params.ws_url.as_str())),
        ),
        Err(why) => return Err(
            VoiceError::Transport(text::join("URI 解析失败: ", why.as_str())),
        ),
    };
    let mut headers: Vec<(String, String)> = Vec::new();
    headers.push(("Host".to_owned(), host));
    headers.push(("Connection".to_owned(), "Upgrade".to_owned()));
    headers.push(("Upgrade".to_owned(), "websocket".to_owned()));
    headers.push(("Sec-WebSocket-Version".to_owned(), "13".to_owned()));
    headers.push(("Sec-WebSocket-Key".to_owned(), key));
    headers.push(("Authorization".to_owned(), text::join("Bearer ", params.token.as_str())));
    headers.push(("Protocol-Version".to_owned(), "2".to_owned()));
    headers.push(("Device-Id".to_owned(), params.device_id.clone()));
    headers.push(("Client-Id".to_owned(), params.client_id.clone()));
    Ok(WsRequest { url: params.ws_url.clone(), headers })
}

/// The request that opens a WebSocket for a connection, under a fresh key.
pub fn open_request(params: &ConnectParams) -> (r: Result<WsRequest, VoiceError>)
    ensures
        match uri_authority(params.ws_url@) {
            Ok(Some(host)) => r matches Ok(q) && opens_afresh(*params, host, q),
            Ok(None) => r matches Err(e) && e.is(
                ErrorKind::Transport,
                "URL 缺少 host: "@ + params.ws_url@,
            ),
            Err(why) => r matches Err(e) && e.is(ErrorKind::Transport, "URI 解析失败: "@ + why),
        },
        params.ws_url@.len() == 0 ==> r is Err,
{
    let authority = parse_authority(params.ws_url.as_str());
    let key = ws_sec_key();
    let ghost parsed = authority;
    let r = handshake_request(params, authority, key);
    proof {
        if let Ok(Some(host)) = parsed {
            assert(opens(*params, host@, key@, r->Ok_0));
            assert(opens_afresh(*params, host@, r->Ok_0));
        }
    }
    r
}

/// What comes in on a WebSocket.
pub enum WsFrame {
    /// A text, and what it parses to or why it does not.
    Text(Result<ServerMessage, String>),
    Binary(Vec<u8>),
    /// A ping, a pong or anything else of no concern.
    Other,
    /// The peer closes, with what it says about it.
    Close(String),
    Failed(String),
    /// There is nothing more to come.
    Ended,
}

/// What the client makes of it.
pub enum ReceivedMessage {
    Json(ServerMessage),
    Audio(Vec<u8>),
}

/// Takes a frame; `None` for one of no concern.
pub fn receive(frame: WsFrame) -> (r: Option<Result<ReceivedMessage, VoiceError>>)
    ensures
        match frame {
            WsFrame::Text(Ok(msg)) => r == Some(
                Ok::<ReceivedMessage, VoiceError>(ReceivedMessage::Json(msg)),
            ),
            WsFrame::Text(Err(why)) => r matches Some(Err(e)) && e.is(ErrorKind::Protocol, why@),
            WsFrame::Binary(data) => r == Some(
                Ok::<ReceivedMessage, VoiceError>(ReceivedMessage::Audio(data)),
            ),
            WsFrame::Other => r is None,
            WsFrame::Close(why) => r matches Some(Err(e)) && e.is(
                ErrorKind::Transport,
                "连接已关闭: "@ + why@,
            ),
            WsFrame::Failed(why) => r matches Some(Err(e)) && e.is(
                ErrorKind::Transport,
                "WebSocket 错误: "@ + why@,
            ),
            WsFrame::Ended => r matches Some(Err(e)) && e.is(ErrorKind::Transport, "连接已断开"@),
        },
{
    match frame {
        WsFrame::Text(Ok(msg)) => Some(Ok(ReceivedMessage::Json(msg))),
        WsFrame::Text(Err(why)) => Some(Err(VoiceError::from_json(why))),
        WsFrame::Binary(data) => Some(Ok(ReceivedMessage::Audio(data))),
        WsFrame::Other => None,
        WsFrame::Close(why) => Some(
            Err(VoiceError::Transport(text::join("连接已关闭: ", why.as_str()))),
        ),
        WsFrame::Failed(why) => Some(
            Err(VoiceError::Transport(text::join("WebSocket 错误: ", why.as_str()))),
        ),
        WsFrame::Ended => Some(Err(VoiceError::Transport("连接已断开".to_owned()))),
    }
}

/// What happens while the server's hello is awaited.
pub enum HandshakeEvent {
    /// Something was received; a message comes with a text that describes it.
    Received(ReceivedMessage, String),
    Failed(VoiceError),
    TimedOut,
}

/// Takes what happened while the hello is awaited: the hello settles the session, audio is passed
/// over, and any other message is an error. `None` where the waiting goes on.
pub fn await_hello(event: HandshakeEvent) -> (r: Option<Result<TransportHandles, VoiceError>>)
    ensures
        match event {
            HandshakeEvent::Received(ReceivedMessage::Json(ServerMessage::Hello(h)), _) => {
                &&& r matches Some(Ok(t))
                &&& t.session_id == h.session_id
                &&& crate::protocol::mqtt_udp::audio_or_default(h.audio_params, t.server_audio)
            },
            HandshakeEvent::Received(ReceivedMessage::Json(_), what) => r matches Some(Err(e))
                && e.is(ErrorKind::Protocol, "期望 hello 响应，收到: "@ + what@),
            HandshakeEvent::Received(ReceivedMessage::Audio(_), _) => r is None,
            HandshakeEvent::Failed(e) => r == Some(Err::<TransportHandles, VoiceError>(e)),
            HandshakeEvent::TimedOut => r matches Some(Err(e)) && e.is(
                ErrorKind::Timeout,
                "hello 响应超时"@,
            ),
        },
{
    match event {
        HandshakeEvent::Received(ReceivedMessage::Json(ServerMessage::Hello(h)), _) => {
            let server_audio = match h.audio_params {
                Some(a) => a,
                None => AudioParams::default(),
            };
            Some(Ok(TransportHandles { session_id: h.session_id, server_audio }))
        },
        HandshakeEvent::Received(ReceivedMessage::Json(_), what) => Some(
            Err(VoiceError::Protocol(text::join("期望 hello 响应，收到: ", what.as_str()))),
        ),
        HandshakeEvent::Received(ReceivedMessage::Audio(_), _) => None,
        HandshakeEvent::Failed(e) => Some(Err(e)),
        HandshakeEvent::TimedOut => Some(
            Err(VoiceError::Timeout("hello 响应超时".to_owned())),
        ),
    }
}

/// Whether `frame` is a version 2 frame of `opus`: version, type, a reserved word, the timestamp,
/// the size of the payload, and the payload.
pub open spec fn is_v2_frame(opus: Seq<u8>, timestamp: u32, frame: Seq<u8>) -> bool {
    &&& frame.len() == V2_HEADER_SIZE + opus.len()
    &&& bytes::be16(frame, 0) == 2
    &&& bytes::be16(frame, 2) == V2_TYPE_OPUS
    &&& bytes::be32(frame, 4) == 0
    &&& bytes::be32(frame, 8) == timestamp
    &&& bytes::be32(frame, 12) == opus.len() % 0x1_0000_0000
    &&& frame.skip(16) == opus
}

/// A version 2 frame of an audio payload.
pub fn audio_frame_v2(opus: &[u8], timestamp: u32) -> (frame: Vec<u8>)
    ensures
        is_v2_frame(opus@, timestamp, frame@),
{
    let t = bytes::split_be32(timestamp);
    let size: u32 = (opus.len() as u64 % 0x1_0000_0000) as u32;
    let n = bytes::split_be32(size);
    let mut frame: Vec<u8> = Vec::new();
    frame.push(0);
    frame.push(2);
    frame.push(0);
    frame.push(0);
    frame.push(0);
    frame.push(0);
    frame.push(0);
    frame.push(0);
    frame.push(t[0]);
    frame.push(t[1]);
    frame.push(t[2]);
    frame.push(t[3]);
    frame.push(n[0]);
    frame.push(n[1]);
    frame.push(n[2]);
    frame.push(n[3]);
    let ghost header = frame@;
    frame.extend_from_slice(opus);
    proof {
        assert(frame@ =~= header + opus@);
        assert(frame@.skip(16) =~= opus@);
        assert(bytes::be32(frame@, 8) == bytes::be32(t@, 0));
        assert(bytes::be32(frame@, 12) == bytes::be32(n@, 0));
    }
    frame
}

/// Whether a version 2 header fits: type Opus and the exact size. The version is not looked at:
/// servers send 0 as well as 2.
pub open spec fn v2_header_fits(data: Seq<u8>) -> bool {
    &&& data.len() >= V2_HEADER_SIZE
    &&& bytes::be16(data, 2) == V2_TYPE_OPUS
    &&& V2_HEADER_SIZE + bytes::be32(data, 12) == data.len()
}

/// Whether a version 3 header fits: type Opus, a reserved byte of zero and the exact size.
pub open spec fn v3_header_fits(data: Seq<u8>) -> bool {
    &&& data.len() >= V3_HEADER_SIZE
    &&& data[0] == 0
    &&& data[1] == 0
    &&& V3_HEADER_SIZE + bytes::be16(data, 2) == data.len()
}

/// The payload of a frame: without the header that fits, version 2 first, or all of it as bare
/// Opus.
pub open spec fn stripped(data: Seq<u8>) -> Seq<u8> {
    if v2_header_fits(data) {
        data.skip(16)
    } else if v3_header_fits(data) {
        data.skip(4)
    } else {
        data
    }
}

/// The payload of a frame.
pub fn strip_binary_header(data: &[u8]) -> (payload: Vec<u8>)
    ensures
        payload@ == stripped(data@),
{
    let n: usize = data.len();
    let mut from: usize = 0;
    if n >= V2_HEADER_SIZE && bytes::read_be16(data, 2) == V2_TYPE_OPUS && (n
        - V2_HEADER_SIZE) as u64 == bytes::read_be32(data, 12) as u64 {
        from = V2_HEADER_SIZE;
    } else if n >= V3_HEADER_SIZE && data[0] == 0 && data[1] == 0 && n - V3_HEADER_SIZE
        == bytes::read_be16(data, 2) as usize {
        from = V3_HEADER_SIZE;
    }
    let mut payload: Vec<u8> = Vec::new();
    let mut i: usize = from;
    while i < n
        invariant
            from <= i <= n == data@.len(),
            payload@ == data@.subrange(from as int, i as int),
        decreases n - i,
    {
        payload.push(data[i]);
        i = i + 1;
        assert(data@.subrange(from as int, i as int) =~= data@.subrange(from as int, i - 1).push(
            data@[i - 1],
        ));
    }
    assert(payload@ =~= data@.skip(from as int));
    assert(data@.skip(0) =~= data@);
    payload
}

/// What the supervisor gets of what was received: audio without its header, and a closed link for
/// every error.
pub fn deliver(received: Result<ReceivedMessage, VoiceError>) -> (e: IncomingEvent)
    ensures
        match received {
            Ok(ReceivedMessage::Json(msg)) => e == IncomingEvent::Json(msg),
            Ok(ReceivedMessage::Audio(data)) => e matches IncomingEvent::Audio(p) && p@
                == stripped(data@),
            Err(_) => e == IncomingEvent::Closed,
        },
{
    match received {
        Ok(ReceivedMessage::Json(msg)) => IncomingEvent::Json(msg),
        Ok(ReceivedMessage::Audio(data)) => IncomingEvent::Audio(
            strip_binary_header(data.as_slice()),
        ),
        Err(_) => IncomingEvent::Closed,
    }
}

/// What could not be sent.
#[derive(Debug, Clone, Copy, PartialEq, Eq, Structural)]
pub enum Outgoing {
    Json,
    Audio,
    Ping,
}

/// What is said of something that could not be sent.
pub open spec fn send_prefix(what: Outgoing) -> Seq<char> {
    match what {
        Outgoing::Json => "发送失败: "@,
        Outgoing::Audio => "音频发送失败: "@,
        Outgoing::Ping => "Ping 失败: "@,
    }
}

/// The error for something that could not be sent.
pub fn send_error(what: Outgoing, why: &str) -> (e: VoiceError)
    ensures
        e.is(ErrorKind::Transport, send_prefix(what) + why@),
{
    match what {
        Outgoing::Json => VoiceError::Transport(text::join("发送失败: ", why)),
        Outgoing::Audio => VoiceError::Transport(text::join("音频发送失败: ", why)),
        Outgoing::Ping => VoiceError::Transport(text::join("Ping 失败: ", why)),
    }
}

/// The payload of a frame that the client makes is what it made the frame of, for every payload
/// whose size the header can tell.
pub proof fn law_v2_round_trip(opus: Seq<u8>, timestamp: u32, frame: Seq<u8>)
    requires
        is_v2_frame(opus, timestamp, frame),
        opus.len() < 0x1_0000_0000,
    ensures
        stripped(frame) == opus,
{
}

/// Stripping never makes anything up: the payload is the end of the frame, and what is cut off is
/// nothing, a version 3 header or a version 2 header.
pub proof fn law_strip_keeps_the_end(data: Seq<u8>)
    ensures
        exists|cut: int|
            (cut == 0 || cut == 4 || cut == 16) && cut <= data.len() && stripped(data)
                == #[trigger] data.skip(cut),
{
    assert(data.skip(0) =~= data);
    if v2_header_fits(data) {
        assert(stripped(data) == data.skip(16));
    } else if v3_header_fits(data) {
        assert(stripped(data) == data.skip(4));
    } else {
        assert(stripped(data) == data.skip(0));
    }
}

/// The number that a character of the Base64 alphabet stands for.
pub open spec fn base64_value(c: char) -> int {
    if 'A' <= c <= 'Z' {
        c as int - 65
    } else if 'a' <= c <= 'z' {
        c as int - 97 + 26
    } else if '0' <= c <= '9' {
        c as int - 48 + 52
    } else if c == '+' {
        62
    } else {
        63
    }
}

/// Four characters of a handshake key spell three bytes, the first character the highest bits; the
/// last two before the padding spell the sixteenth byte and four bits of nothing.
pub proof fn law_sec_key_spells_the_bytes(b: Seq<u8>, g: int)
    requires
        b.len() == 16,
        0 <= g < 5,
    ensures
        ({
            let k = base64_key(b);
            &&& 262_144 * base64_value(k[4 * g]) + 4096 * base64_value(k[4 * g + 1]) + 64
                * base64_value(k[4 * g + 2]) + base64_value(k[4 * g + 3]) == 65_536 * b[3 * g] + 256
                * b[3 * g + 1] + b[3 * g + 2]
            &&& 64 * base64_value(k[20]) + base64_value(k[21]) == 16 * b[15]
        }),
{
    let k = base64_key(b);
    lemma_sextets(b, g);
    lemma_sextets(b, 5);
    assert(k[4 * g] == base64_char(sextet(b, 4 * g)));
    assert(k[4 * g + 1] == base64_char(sextet(b, 4 * g + 1)));
    assert(k[4 * g + 2] == base64_char(sextet(b, 4 * g + 2)));
    assert(k[4 * g + 3] == base64_char(sextet(b, 4 * g + 3)));
    assert(k[20] == base64_char(sextet(b, 20)));
    assert(k[21] == base64_char(sextet(b, 21)));
    lemma_base64_value(sextet(b, 4 * g));
    lemma_base64_value(sextet(b, 4 * g + 1));
    lemma_base64_value(sextet(b, 4 * g + 2));
    lemma_base64_value(sextet(b, 4 * g + 3));
    lemma_base64_value(sextet(b, 20));
    lemma_base64_value(sextet(b, 21));
    let n = b[3 * g] * 0x1_0000 + b[3 * g + 1] * 0x100 + b[3 * g + 2];
    assert(0 <= n < 0x100_0000);
    assert((4 * g) / 4 == g && (4 * g) % 4 == 0);
    assert((4 * g + 1) / 4 == g && (4 * g + 1) % 4 == 1);
    assert((4 * g + 2) / 4 == g && (4 * g + 2) % 4 == 2);
    assert((4 * g + 3) / 4 == g && (4 * g + 3) % 4 == 3);
    assert(sextet(b, 4 * g) == n / 0x4_0000);
    assert(sextet(b, 4 * g + 1) == n / 0x1000 % 64);
    assert(sextet(b, 4 * g + 2) == n / 0x40 % 64);
    assert(sextet(b, 4 * g + 3) == n % 64);
}

proof fn lemma_base64_value(v: int)
    requires
        0 <= v < 64,
    ensures
        base64_value(base64_char(v)) == v,
{
}

/// The request that opens a WebSocket goes to the configured URL, under the token and the ids of
/// the device, and asks for protocol version 2.
pub proof fn law_handshake_requests(
    params: &ConnectParams,
    host: String,
    key: String,
    r: Result<WsRequest, VoiceError>,
)
    requires
        call_ensures(handshake_request, (params, Ok(Some(host)), key), r),
    ensures
        r matches Ok(q) && {
            &&& q.url@ == params.ws_url@
            &&& q.headers@.len() == 9
            &&& q.headers@[0].0@ == "Host"@ && q.headers@[0].1@ == host@
            &&& q.headers@[1].0@ == "Connection"@ && q.headers@[1].1@ == "Upgrade"@
            &&& q.headers@[2].0@ == "Upgrade"@ && q.headers@[2].1@ == "websocket"@
            &&& q.headers@[3].0@ == "Sec-WebSocket-Version"@ && q.headers@[3].1@ == "13"@
            &&& q.headers@[4].0@ == "Sec-WebSocket-Key"@ && q.headers@[4].1@ == key@
            &&& q.headers@[5].0@ == "Authorization"@ && q.headers@[5].1@ == "Bearer "@
                + params.token@
            &&& q.headers@[6].0@ == "Protocol-Version"@ && q.headers@[6].1@ == "2"@
            &&& q.headers@[7].0@ == "Device-Id"@ && q.headers@[7].1@ == params.device_id@
            &&& q.headers@[8].0@ == "Client-Id"@ && q.headers@[8].1@ == params.client_id@
        },
{
    let h = r->Ok_0.headers@;
    assert(h[0].0@ == "Host"@);
    assert(h[1].0@ == "Connection"@);
    assert(h[2].0@ == "Upgrade"@);
    assert(h[3].0@ == "Sec-WebSocket-Version"@);
    assert(h[4].0@ == "Sec-WebSocket-Key"@);
    assert(h[5].0@ == "Authorization"@);
    assert(h[6].0@ == "Protocol-Version"@);
    assert(h[7].0@ == "Device-Id"@);
    assert(h[8].0@ == "Client-Id"@);
}

/// Without a host in the URL, or with a URL that is none, there is no request but a transport error
/// that tells why.
pub proof fn law_urls_need_a_host(
    params: &ConnectParams,
    key: String,
    r: Result<WsRequest, VoiceError>,
    why: String,
    s: Result<WsRequest, VoiceError>,
)
    requires
        call_ensures(handshake_request, (params, Ok(None), key), r),
        call_ensures(handshake_request, (params, Err(why), key), s),
    ensures
        r matches Err(VoiceError::Transport(d)) && d@ == "URL 缺少 host: "@ + params.ws_url@,
        s matches Err(VoiceError::Transport(d)) && d@ == "URI 解析失败: "@ + why@,
{
}

/// What is received is handed on as it is: messages as they parse, audio byte for byte; what is of
/// no concern is passed over, and everything else ends the connection with its reason.
pub proof fn law_what_is_received(frame: WsFrame, r: Option<Result<ReceivedMessage, VoiceError>>)
    requires
        call_ensures(receive, (frame,), r),
    ensures
        r is None <==> frame is Other,
        frame matches WsFrame::Binary(data) ==> r == Some(
            Ok::<ReceivedMessage, VoiceError>(ReceivedMessage::Audio(data)),
        ),
        frame matches WsFrame::Text(Ok(msg)) ==> r == Some(
            Ok::<ReceivedMessage, VoiceError>(ReceivedMessage::Json(msg)),
        ),
        frame matches WsFrame::Text(Err(why)) ==> (r matches Some(Err(VoiceError::Protocol(d)))
            && d@ == why@),
        frame matches WsFrame::Close(why) ==> (r matches Some(Err(VoiceError::Transport(d))) && d@
            == "连接已关闭: "@ + why@),
        frame matches WsFrame::Failed(why) ==> (r matches Some(Err(VoiceError::Transport(d)))
            && d@ == "WebSocket 错误: "@ + why@),
        frame is Ended ==> (r matches Some(Err(VoiceError::Transport(d))) && d@ == "连接已断开"@),
{
}

/// While the hello is awaited audio is passed over; a hello names the session and its audio, which
/// is Opus at 16 kHz, mono, 60 ms where it says nothing of it; any other message is an error.
pub proof fn law_hello_over_websocket(
    event: HandshakeEvent,
    r: Option<Result<TransportHandles, VoiceError>>,
)
    requires
        call_ensures(await_hello, (event,), r),
    ensures
        r is None <==> (event matches HandshakeEvent::Received(ReceivedMessage::Audio(_), _)),
        r matches Some(Ok(t)) ==> (event matches HandshakeEvent::Received(
            ReceivedMessage::Json(ServerMessage::Hello(h)),
            _,
        ) && t.session_id@ == h.session_id@ && match h.audio_params {
            Some(a) => t.server_audio == a,
            None => t.server_audio.sample_rate == 16000 && t.server_audio.channels == 1
                && t.server_audio.frame_duration == 60,
        }),
        event matches HandshakeEvent::Received(
            ReceivedMessage::Json(ServerMessage::Hello(_)),
            _,
        ) ==> (r matches Some(Ok(_))),
        event is TimedOut ==> (r matches Some(Err(VoiceError::Timeout(_)))),
        event matches HandshakeEvent::Failed(e) ==> r == Some(Err::<TransportHandles, VoiceError>(e)),
{
}

/// A frame of version 2, byte by byte: version 2, type 0, four bytes of zero, the timestamp, the
/// size of the payload, and the payload.
pub proof fn law_frame_layout(opus: &[u8], timestamp: u32, frame: Vec<u8>, i: int)
    requires
        call_ensures(audio_frame_v2, (opus, timestamp), frame),
        0 <= i < opus@.len(),
    ensures
        frame@.len() == 16 + opus@.len(),
        256 * frame@[0] + frame@[1] == 2,
        256 * frame@[2] + frame@[3] == 0,
        frame@[4] == 0 && frame@[5] == 0 && frame@[6] == 0 && frame@[7] == 0,
        16_777_216 * frame@[8] + 65_536 * frame@[9] + 256 * frame@[10] + frame@[11] == timestamp,
        16_777_216 * frame@[12] + 65_536 * frame@[13] + 256 * frame@[14] + frame@[15]
            == opus@.len() % 0x1_0000_0000,
        frame@[16 + i] == opus@[i],
{
    assert(frame@.skip(16)[i] == frame@[16 + i]);
}

/// Which header is taken off: that of version 2 where type and size fit it, otherwise that of
/// version 3 where its type, its zero and its size fit, otherwise none.
pub proof fn law_headers_are_taken_off(data: &[u8], payload: Vec<u8>)
    requires
        call_ensures(strip_binary_header, (data,), payload),
    ensures
        ({
            let d = data@;
            let v2 = d.len() >= 16 && d[2] == 0 && d[3] == 0 && 16_777_216 * d[12] + 65_536 * d[13]
                + 256 * d[14] + d[15] == d.len() - 16;
            let v3 = d.len() >= 4 && d[0] == 0 && d[1] == 0 && 256 * d[2] + d[3] == d.len() - 4;
            payload@ == if v2 {
                d.skip(16)
            } else if v3 {
                d.skip(4)
            } else {
                d
            }
        }),
{
}

/// What a client frames another reads: the payload of a frame is what it was made of.
pub proof fn law_frames_are_read_back(
    opus: &[u8],
    timestamp: u32,
    frame: Vec<u8>,
    received: &[u8],
    payload: Vec<u8>,
)
    requires
        call_ensures(audio_frame_v2, (opus, timestamp), frame),
        received@ == frame@,
        call_ensures(strip_binary_header, (received,), payload),
        opus@.len() < 0x1_0000_0000,
    ensures
        payload@ == opus@,
{
    law_v2_round_trip(opus@, timestamp, frame@);
}

/// What is delivered of what was received: messages as they are, audio as the frame's payload, and
/// a closed link for every error.
pub proof fn law_what_is_delivered(
    received: Result<ReceivedMessage, VoiceError>,
    e: IncomingEvent,
)
    requires
        call_ensures(deliver, (received,), e),
    ensures
        received is Err <==> e is Closed,
        received matches Ok(ReceivedMessage::Json(msg)) ==> e == IncomingEvent::Json(msg),
        received matches Ok(ReceivedMessage::Audio(data)) ==> (e matches IncomingEvent::Audio(p)
            && (p@ == data@ || p@ == data@.skip(4) || p@ == data@.skip(16))),
{
}

/// What could not be sent is a transport error that names it and tells why.
pub proof fn law_send_errors(what: Outgoing, why: &str, e: VoiceError)
    requires
        call_ensures(send_error, (what, why), e),
    ensures
        e matches VoiceError::Transport(d) && d@ == (match what {
            Outgoing::Json => "发送失败: "@,
            Outgoing::Audio => "音频发送失败: "@,
            Outgoing::Ping => "Ping 失败: "@,
        }) + why@,
{
}

} // verus!
