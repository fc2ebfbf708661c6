//! The connection of the classic client.

use vstd::prelude::*;
use vstd::string::*;

use crate::classic::message::ServerMessage;
use crate::protocol::ws::WsRequest;
use crate::{ota, protocol::ws, text};

verus! {

/// The host that a URL names, or none, or why it is no URL.
pub uninterp spec fn uri_host(url: Seq<char>) -> Result<Option<Seq<char>>, Seq<char>>;

/// `http::Uri`'s parser and `host`: the host of the URL without its port, where it has one, or the
/// text of the error.
#[verifier::external_body]
fn parse_host(url: &str) -> (r: Result<Option<String>, String>)
    ensures
        match r {
            Ok(Some(host)) => uri_host(url@) == Ok::<Option<Seq<char>>, Seq<char>>(Some(host@)),
            Ok(None) => uri_host(url@) == Ok::<Option<Seq<char>>, Seq<char>>(None),
            Err(e) => uri_host(url@) == Err::<Option<Seq<char>>, Seq<char>>(e@),
        },
        url@.len() == 0 ==> r is Err,
{
    match url.parse::<http::Uri>() {
        Ok(uri) => Ok(uri.host().map(|h| h.to_string())),
        Err(e) => Err(e.to_string()),
    }
}

/// Whether a text is the Base64 text of some 16 bytes.
pub open spec fn is_random_key(t: Seq<char>) -> bool {
    exists|b: Seq<u8>| b.len() == 16 && t == #[trigger] ws::base64_key(b)
}

/// `tungstenite::handshake::client::generate_key`: the Base64 text of 16 random bytes. Nothing
/// more holds of every outcome.
#[verifier::external_body]
fn generate_key() -> (s: String)
    ensures
        is_random_key(s@),
{
    tungstenite::handshake::client::generate_key()
}

/// Whether `r` opens a WebSocket under the given host and key.
pub open spec fn opens(
    url: Seq<char>,
    token: Seq<char>,
    device_id: Seq<char>,
    client_id: Seq<char>,
    host: Seq<char>,
    key: Seq<char>,
    r: WsRequest,
) -> bool {
    &&& r.url@ == url
    &&& ota::headers_are(
        r.headers@,
        seq![
            ("Authorization"@, "Bearer "@ + token),
            ("Protocol-Version"@, "1"@),
            ("Device-Id"@, device_id),
            ("Client-Id"@, client_id),
            ("Host"@, host),
            ("Connection"@, "Upgrade"@),
            ("Upgrade"@, "websocket"@),
            ("Sec-WebSocket-Version"@, "13"@),
            ("Sec-WebSocket-Key"@, key),
        ],
    )
}

/// Whether `r` opens a WebSocket under the given host and some random key.
pub open spec fn opens_afresh(
    url: Seq<char>,
    token: Seq<char>,
    device_id: Seq<char>,
    client_id: Seq<char>,
    host: Seq<char>,
    r: WsRequest,
) -> bool {
    exists|key: Seq<char>|
        is_random_key(key) && #[trigger] opens(url, token, device_id, client_id, host, key, r)
}

/// The request that opens a WebSocket, once the host of the URL is known and a key drawn.
pub fn handshake_request(
    url: &str,
    token: &str,
    device_id: &str,
    client_id: &str,
    host: Result<Option<String>, String>,
    key: String,
) -> (r: Result<WsRequest, String>)
    ensures
        match host {
            Ok(Some(h)) => r matches Ok(q) && opens(
                url@,
                token@,
                device_id@,
                client_id@,
                h@,
                key@,
                q,
            ),
            Ok(None) => r matches Err(e) && e@ == "URL 缺少 host: "@ + url@,
            Err(why) => r matches Err(e) && e@ == "URI 解析失败: "@ + why@,
        },
{
    let h = match host {
        Ok(Some(h)) => h,
        Ok(None) => return Err(text::join("URL 缺少 host: ", url)),
        Err(why) => return Err(text::join("URI 解析失败: ", why.as_str())),
    };
    let mut headers: Vec<(String, String)> = Vec::new();
    headers.push(("Authorization".to_owned(), text::join("Bearer ", token)));
    headers.push(("Protocol-Version".to_owned(), "1".to_owned()));
    headers.push(("Device-Id".to_owned(), device_id.to_owned()));
    headers.push(("Client-Id".to_owned(), client_id.to_owned()));
    headers.push(("Host".to_owned(), h));
    headers.push(("Connection".to_owned(), "Upgrade".to_owned()));
    headers.push(("Upgrade".to_owned(), "websocket".to_owned()));
    headers.push(("Sec-WebSocket-Version".to_owned(), "13".to_owned()));
    headers.push(("Sec-WebSocket-Key".to_owned(), key));
    Ok(WsRequest { url: url.to_owned(), headers })
}

/// The request that opens a WebSocket, under a fresh key.
pub fn open_request(url: &str, token: &str, device_id: &str, client_id: &str) -> (r: Result<
    WsRequest,
    String,
>)
    ensures
        match uri_host(url@) {
            Ok(Some(h)) => r matches Ok(q) && opens_afresh(
                url@,
                token@,
                device_id@,
                client_id@,
                h,
                q,
            ),
            Ok(None) => r matches Err(e) && e@ == "URL 缺少 host: "@ + url@,
            Err(why) => r matches Err(e) && e@ == "URI 解析失败: "@ + why,
        },
        url@.len() == 0 ==> r is Err,
{
    let host = parse_host(url);
    let key = generate_key();
    let ghost parsed = host;
    let r = handshake_request(url, token, device_id, client_id, host, key);
    proof {
        if let Ok(Some(h)) = parsed {
            assert(opens(url@, token@, device_id@, client_id@, h@, key@, r->Ok_0));
            assert(opens_afresh(url@, token@, device_id@, client_id@, h@, r->Ok_0));
        }
    }
    r
}

/// What the server's first message may be.
pub enum FirstMessage {
    /// A message, with a text that describes it.
    Json(ServerMessage, String),
    Audio,
}

/// Takes the server's first message: the session that a hello names, and an error for anything
/// else.
pub fn first_reply(msg: FirstMessage) -> (r: Result<String, String>)
    ensures
        match msg {
            FirstMessage::Json(ServerMessage::Hello { session_id }, _) => r == Ok::<String, String>(
                session_id,
            ),
            FirstMessage::Json(_, what) => r matches Err(e) && e@ == "期望 hello 响应，收到: "@
                + what@,
            FirstMessage::Audio => r matches Err(e) && e@ == "期望 JSON，收到音频"@,
        },
{
    match msg {
        FirstMessage::Json(ServerMessage::Hello { session_id }, _) => Ok(session_id),
        FirstMessage::Json(_, what) => Err(text::join("期望 hello 响应，收到: ", what.as_str())),
        FirstMessage::Audio => Err("期望 JSON，收到音频".to_owned()),
    }
}

/// The request of a handshake: the URL as it is, and the nine headers with the token, the names of
/// the device and the client, the host and the key.
pub proof fn law_classic_handshake(
    url: &str,
    token: &str,
    device_id: &str,
    client_id: &str,
    host: String,
    key: String,
    r: Result<WsRequest, String>,
)
    requires
        call_ensures(
            handshake_request,
            (url, token, device_id, client_id, Ok(Some(host)), key),
            r,
        ),
    ensures
        r matches Ok(q) && {
            &&& q.url@ == url@
            &&& q.headers@.len() == 9
            &&& q.headers@[0].0@ == "Authorization"@ && q.headers@[0].1@ == "Bearer "@ + token@
            &&& q.headers@[1].0@ == "Protocol-Version"@ && q.headers@[1].1@ == "1"@
            &&& q.headers@[2].0@ == "Device-Id"@ && q.headers@[2].1@ == device_id@
            &&& q.headers@[3].0@ == "Client-Id"@ && q.headers@[3].1@ == client_id@
            &&& q.headers@[4].0@ == "Host"@ && q.headers@[4].1@ == host@
            &&& q.headers@[5].0@ == "Connection"@ && q.headers@[5].1@ == "Upgrade"@
            &&& q.headers@[6].0@ == "Upgrade"@ && q.headers@[6].1@ == "websocket"@
            &&& q.headers@[7].0@ == "Sec-WebSocket-Version"@ && q.headers@[7].1@ == "13"@
            &&& q.headers@[8].0@ == "Sec-WebSocket-Key"@ && q.headers@[8].1@ == key@
        },
{
    let h = r->Ok_0.headers@;
    assert(h[0].0@ == "Authorization"@);
    assert(h[1].0@ == "Protocol-Version"@);
    assert(h[2].0@ == "Device-Id"@);
    assert(h[3].0@ == "Client-Id"@);
    assert(h[4].0@ == "Host"@);
    assert(h[5].0@ == "Connection"@);
    assert(h[6].0@ == "Upgrade"@);
    assert(h[7].0@ == "Sec-WebSocket-Version"@);
    assert(h[8].0@ == "Sec-WebSocket-Key"@);
}

/// Whatever key is drawn, a request carries what the caller gave and the host that the URL names,
/// and its key is of the length that 16 bytes in Base64 have.
pub proof fn law_classic_requests(
    url: &str,
    token: &str,
    device_id: &str,
    client_id: &str,
    r: Result<WsRequest, String>,
)
    requires
        call_ensures(open_request, (url, token, device_id, client_id), r),
    ensures
        r is Ok <==> (uri_host(url@) matches Ok(Some(h))),
        r matches Ok(q) ==> {
            &&& q.url@ == url@
            &&& q.headers@.len() == 9
            &&& q.headers@[0].1@ == "Bearer "@ + token@
            &&& q.headers@[2].1@ == device_id@
            &&& q.headers@[3].1@ == client_id@
            &&& uri_host(url@) == Ok::<Option<Seq<char>>, Seq<char>>(Some(q.headers@[4].1@))
            &&& is_random_key(q.headers@[8].1@)
        },
{
    if let Ok(q) = r {
        let h = q.headers@;
        assert(h[0].1@ == "Bearer "@ + token@);
        assert(h[2].1@ == device_id@);
        assert(h[3].1@ == client_id@);
        assert(uri_host(url@) == Ok::<Option<Seq<char>>, Seq<char>>(Some(h[4].1@)));
        assert(is_random_key(h[8].1@));
    }
}

/// Only a hello is taken for the first reply, and its session is the one that it names; anything
/// else is an error that says what came instead.
pub proof fn law_first_replies(msg: FirstMessage, r: Result<String, String>)
    requires
        call_ensures(first_reply, (msg,), r),
    ensures
        r is Ok <==> (msg matches FirstMessage::Json(ServerMessage::Hello { session_id }, what)),
        msg matches FirstMessage::Json(ServerMessage::Hello { session_id }, what) ==> r == Ok::<
            String,
            String,
        >(session_id),
        msg is Audio ==> (r matches Err(e) && e@ == "期望 JSON，收到音频"@),
        msg matches FirstMessage::Json(m, what) ==> !(m is Hello) ==> (r matches Err(e) && e@
            == "期望 hello 响应，收到: "@ + what@),
{
}

} // verus!
