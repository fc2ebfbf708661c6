//! Connection parameters out of the server's configuration.

use vstd::prelude::*;
use vstd::string::*;

use crate::ota::OtaMqttConfig;
use crate::protocol::MqttParams;
use crate::text;

verus! {

/// Port of MQTT over TLS, and the default where an endpoint names none.
pub const MQTT_TLS_PORT: u16 = 8883;

/// Port of MQTT on the host of the WebSocket URL, where no endpoint is configured.
pub const MQTT_PLAIN_PORT: u16 = 1883;

/// The topic that a configured one stands for: the server may send an empty text or `null` for
/// none, and both mean the default.
pub open spec fn topic_or(t: Option<String>, default: Seq<char>) -> Seq<char> {
    match t {
        Some(s) => if s@.len() > 0 && s@ != "null"@ {
            s@
        } else {
            default
        },
        None => default,
    }
}

/// The topic that a configured one stands for.
pub fn effective_topic(t: &Option<String>, default: &str) -> (r: String)
    ensures
        r@ == topic_or(*t, default@),
{
    match t {
        Some(s) => {
            if !s.as_str().is_empty() && !text::same_text(s.as_str(), "null") {
                s.clone()
            } else {
                default.to_owned()
            }
        },
        None => default.to_owned(),
    }
}

/// Whether the colon at `at` separates a host from a port: it is the last one, and nothing but
/// decimal digits, at least one, follows it.
pub open spec fn port_split(ep: Seq<char>, at: int) -> bool {
    &&& text::last_at(ep, ':', at)
    &&& at + 1 < ep.len()
    &&& text::all_digits(ep.skip(at + 1))
}

/// The port that decimal digits name; a number that is no port means the default.
pub open spec fn port_named(digits: Seq<char>) -> int {
    if text::digits_value(digits) <= u16::MAX {
        text::digits_value(digits) as int
    } else {
        MQTT_TLS_PORT as int
    }
}

/// Host, port and TLS of an endpoint: `host:port` as it says, with TLS where it is asked for or
/// the port is 8883; anything else is a host, with port 8883 and TLS.
pub open spec fn endpoint_link(
    endpoint: Seq<char>,
    tls: bool,
    host: Seq<char>,
    port: u16,
    secure: bool,
) -> bool {
    let ep = text::trimmed(endpoint);
    ||| exists|at: int|
        {
            &&& #[trigger] port_split(ep, at)
            &&& host == ep.take(at)
            &&& port == port_named(ep.skip(at + 1))
            &&& secure == (tls || port == MQTT_TLS_PORT)
        }
    ||| {
        &&& forall|at: int| !(#[trigger] port_split(ep, at))
        &&& host == ep
        &&& port == MQTT_TLS_PORT
        &&& secure
    }
}

/// What a WebSocket URL names before its path: a host, possibly with a port.
pub open spec fn url_authority(url: Seq<char>) -> Seq<char> {
    text::before_first(
        text::without_leading(text::without_leading(url, "wss://"@), "ws://"@),
        '/',
    )
}

/// Whether the colon at `at` ends the host of an authority: it is the last one, and nothing but
/// decimal digits, or nothing at all, follows it.
pub open spec fn host_ends(authority: Seq<char>, at: int) -> bool {
    text::last_at(authority, ':', at) && text::all_digits(authority.skip(at + 1))
}

/// Whether `host` is the host of a WebSocket URL: what it names before its path, without the port.
pub open spec fn is_url_host(url: Seq<char>, host: Seq<char>) -> bool {
    let authority = url_authority(url);
    ||| exists|at: int| #[trigger] host_ends(authority, at) && host == authority.take(at)
    ||| (forall|at: int| !(#[trigger] host_ends(authority, at))) && host == authority
}

/// Whether `p` are the MQTT parameters that a configuration means.
pub open spec fn mqtt_derived(
    m: OtaMqttConfig,
    ws_url: Seq<char>,
    client_id: Seq<char>,
    p: MqttParams,
) -> bool {
    &&& match m.endpoint {
        Some(ep) => endpoint_link(ep@, m.tls, p.host@, p.port, p.tls),
        None => is_url_host(ws_url, p.host@) && p.port == MQTT_PLAIN_PORT && p.tls == m.tls,
    }
    &&& p.username@ == text::text_or_empty(m.username)
    &&& p.password@ == text::text_or_empty(m.password)
    &&& p.mqtt_client_id@ == match m.client_id {
        Some(id) => id@,
        None => "xz-"@ + client_id,
    }
    &&& p.publish_topic@ == topic_or(m.publish_topic, "device-server"@)
    &&& p.subscribe_topic@ == topic_or(m.subscribe_topic, p.publish_topic@)
}

/// Host, port and TLS of an endpoint.
fn split_endpoint(endpoint: &str, tls: bool) -> (r: (String, u16, bool))
    ensures
        endpoint_link(endpoint@, tls, r.0@, r.1, r.2),
{
    let v = text::to_chars(endpoint);
    let (from, to) = text::trim_range(&v);
    let ghost ep = v@.subrange(from as int, to as int);
    let host = text::from_chars(&v, from, to);
    match text::find_last(&v, from, to, ':') {
        Some(i) => {
            let ghost at = i - from;
            assert(ep.skip(at + 1) =~= v@.subrange(i + 1, to as int));
            let named = text::parse_u16(&v, i + 1, to);
            proof {
                assert forall|b: int| #[trigger] port_split(ep, b) implies b == at by {
                    if b < at {
                        assert(ep[at] != ':');
                    }
                    if at < b {
                        assert(ep[b] != ':');
                    }
                }
            }
            match named {
                Some(n) if i + 1 < to => {
                    let port: u16 = match n {
                        Ok(n) => n,
                        Err(_) => MQTT_TLS_PORT,
                    };
                    assert(ep.take(at) =~= v@.subrange(from as int, i as int));
                    assert(port_split(ep, at));
                    (text::from_chars(&v, from, i), port, tls || port == MQTT_TLS_PORT)
                },
                _ => {
                    assert(!port_split(ep, at));
                    (host, MQTT_TLS_PORT, true)
                },
            }
        },
        None => {
            proof {
                assert forall|b: int| !(#[trigger] port_split(ep, b)) by {
                    if text::last_at(ep, ':', b) {
                        assert(ep.contains(':'));
                    }
                }
            }
            (host, MQTT_TLS_PORT, true)
        },
    }
}

/// The host of a WebSocket URL.
fn host_of_url(url: &str) -> (r: String)
    ensures
        is_url_host(url@, r@),
{
    proof {
        reveal_strlit("wss://");
        reveal_strlit("ws://");
    }
    let v = text::to_chars(url);
    assert(v@.skip(0) =~= v@);
    let a: usize = text::skip_leading(&v, 0, "wss://");
    let b: usize = text::skip_leading(&v, a, "ws://");
    let end: usize = text::find_first(&v, b, '/');
    let ghost authority = v@.subrange(b as int, end as int);
    assert(authority == url_authority(url@));
    match text::find_last(&v, b, end, ':') {
        Some(i) => {
            let ghost at = i - b;
            assert(authority.skip(at + 1) =~= v@.subrange(i + 1, end as int));
            proof {
                assert forall|c: int| #[trigger] host_ends(authority, c) implies c == at by {
                    if c < at {
                        assert(authority[at] != ':');
                    }
                    if at < c {
                        assert(authority[c] != ':');
                    }
                }
            }
            match text::parse_u16(&v, i + 1, end) {
                Some(_) => {
                    assert(authority.take(at) =~= v@.subrange(b as int, i as int));
                    assert(host_ends(authority, at));
                    text::from_chars(&v, b, i)
                },
                None => {
                    assert(!host_ends(authority, at));
                    text::from_chars(&v, b, end)
                },
            }
        },
        None => {
            proof {
                assert forall|c: int| !(#[trigger] host_ends(authority, c)) by {
                    if text::last_at(authority, ':', c) {
                        assert(authority.contains(':'));
                    }
                }
            }
            text::from_chars(&v, b, end)
        },
    }
}

/// The MQTT parameters that a configuration means: the server's client id where it assigned one,
/// the default topics where it named none, and port 8883 with TLS where the endpoint has no port.
pub fn derive_mqtt(m: &OtaMqttConfig, ws_url: &str, client_id: &str) -> (p: MqttParams)
    ensures
        mqtt_derived(*m, ws_url@, client_id@, p),
{
    let (host, port, tls) = match &m.endpoint {
        Some(ep) => split_endpoint(ep.as_str(), m.tls),
        None => (host_of_url(ws_url), MQTT_PLAIN_PORT, m.tls),
    };
    let publish_topic = effective_topic(&m.publish_topic, "device-server");
    let subscribe_topic = effective_topic(&m.subscribe_topic, publish_topic.as_str());
    let mqtt_client_id = match &m.client_id {
        Some(id) => id.clone(),
        None => text::join("xz-", client_id),
    };
    MqttParams {
        host,
        port,
        tls,
        username: text::or_empty(&m.username),
        password: text::or_empty(&m.password),
        mqtt_client_id,
        publish_topic,
        subscribe_topic,
    }
}

/// An endpoint without a colon is a host with port 8883 and TLS, whatever else is configured.
pub proof fn law_endpoint_without_port(
    endpoint: Seq<char>,
    tls: bool,
    host: Seq<char>,
    port: u16,
    secure: bool,
)
    requires
        endpoint_link(endpoint, tls, host, port, secure),
        !text::trimmed(endpoint).contains(':'),
    ensures
        host == text::trimmed(endpoint),
        port == MQTT_TLS_PORT,
        secure,
{
    let ep = text::trimmed(endpoint);
    assert forall|at: int| !(#[trigger] port_split(ep, at)) by {
        if text::last_at(ep, ':', at) {
            assert(ep.contains(ep[at]));
        }
    }
}

/// Without an endpoint the port of the WebSocket URL is no part of the MQTT host: a URL that names
/// a host and a port gives the host alone.
pub proof fn law_url_port_is_dropped(url: Seq<char>, host: Seq<char>, name: Seq<char>, digits: Seq<char>)
    requires
        is_url_host(url, host),
        url_authority(url) == name + seq![':'] + digits,
        text::all_digits(digits),
    ensures
        host == name,
{
    let authority = url_authority(url);
    let at = name.len() as int;
    assert(authority.skip(at + 1) =~= digits);
    assert(authority.take(at) =~= name);
    assert forall|i: int| at < i < authority.len() implies authority[i] != ':' by {
        assert(authority[i] == digits[i - at - 1]);
    }
    assert(host_ends(authority, at));
    assert forall|c: int| #[trigger] host_ends(authority, c) implies c == at by {
        if c < at {
            assert(authority[at] != ':');
        }
    }
}

/// Port 8883 is never used without TLS once an endpoint is configured.
pub proof fn law_tls_port_is_secure(
    endpoint: Seq<char>,
    tls: bool,
    host: Seq<char>,
    port: u16,
    secure: bool,
)
    requires
        endpoint_link(endpoint, tls, host, port, secure),
        port == MQTT_TLS_PORT || tls,
    ensures
        secure,
{
}

/// Topics are never empty and never `null`.
pub proof fn law_topics_are_usable(
    m: OtaMqttConfig,
    ws_url: Seq<char>,
    client_id: Seq<char>,
    p: MqttParams,
)
    requires
        mqtt_derived(m, ws_url, client_id, p),
    ensures
        p.publish_topic@.len() > 0,
        p.publish_topic@ != "null"@,
        p.subscribe_topic@.len() > 0,
        p.subscribe_topic@ != "null"@,
{
    reveal_strlit("device-server");
    reveal_strlit("null");
    assert("device-server"@.len() != "null"@.len());
}

/// The topics that the server configured are used as they are; only without one, or with an empty
/// one or `null`, does another take its place: the default for publishing, and the publish topic
/// for subscribing.
pub proof fn law_configured_topics_are_used(
    m: OtaMqttConfig,
    ws_url: &str,
    client_id: &str,
    p: MqttParams,
)
    requires
        call_ensures(derive_mqtt, (&m, ws_url, client_id), p),
    ensures
        m.subscribe_topic matches Some(t) ==> t@.len() > 0 && t@ != "null"@ ==> p.subscribe_topic@ == t@,
        m.subscribe_topic is None || m.subscribe_topic->0@.len() == 0 || m.subscribe_topic->0@
            == "null"@ ==> p.subscribe_topic@ == p.publish_topic@,
        m.publish_topic matches Some(t) ==> t@.len() > 0 && t@ != "null"@ ==> p.publish_topic@ == t@,
        m.publish_topic is None || m.publish_topic->0@.len() == 0 || m.publish_topic->0@ == "null"@
            ==> p.publish_topic@ == "device-server"@,
{
}

/// The client id and the credentials that the server assigned are used; without an id the client
/// makes one of its own, and without credentials they are empty.
pub proof fn law_assigned_credentials_are_used(
    m: OtaMqttConfig,
    ws_url: &str,
    client_id: &str,
    p: MqttParams,
)
    requires
        call_ensures(derive_mqtt, (&m, ws_url, client_id), p),
    ensures
        m.client_id matches Some(id) ==> p.mqtt_client_id@ == id@,
        m.client_id is None ==> p.mqtt_client_id@ == "xz-"@ + client_id@,
        m.username matches Some(u) ==> p.username@ == u@,
        m.username is None ==> p.username@.len() == 0,
        m.password matches Some(w) ==> p.password@ == w@,
        m.password is None ==> p.password@.len() == 0,
{
}

/// The endpoint `host:port` is that host and that port, with or without white space around it; TLS
/// is used where it is asked for or the port is 8883.
pub proof fn law_endpoint_with_port(
    m: OtaMqttConfig,
    ws_url: &str,
    client_id: &str,
    p: MqttParams,
    before: Seq<char>,
    host: Seq<char>,
    port: u16,
    after: Seq<char>,
)
    requires
        call_ensures(derive_mqtt, (&m, ws_url, client_id), p),
        m.endpoint matches Some(ep) && ep@ == before + (host + seq![':'] + text::dec(port as nat))
            + after,
        forall|i: int| 0 <= i < before.len() ==> text::is_white(#[trigger] before[i]),
        forall|i: int| 0 <= i < after.len() ==> text::is_white(#[trigger] after[i]),
        host.len() > 0,
        !text::is_white(host[0]),
    ensures
        p.host@ == host,
        p.port == port,
        p.tls == (m.tls || port == 8883),
{
    let digits = text::dec(port as nat);
    let ep = host + seq![':'] + digits;
    text::law_decimal_round_trip(port as nat);
    let last = ep.last();
    assert(last == digits.last());
    assert('0' <= digits[digits.len() - 1] <= '9');
    assert(!text::is_white(last));
    text::law_trimming(before, ep, after);
    let at = host.len() as int;
    assert(ep.skip(at + 1) =~= digits);
    assert(ep.take(at) =~= host);
    assert forall|i: int| at < i < ep.len() implies #[trigger] ep[i] != ':' by {
        assert(ep[i] == digits[i - at - 1]);
    }
    assert(text::last_at(ep, ':', at));
    assert(port_split(ep, at));
    assert forall|c: int| #[trigger] port_split(ep, c) implies c == at by {
        if c < at {
            assert(ep[at] != ':');
        }
    }
}

/// An endpoint that names no port is a host, with port 8883 and TLS.
pub proof fn law_endpoint_is_a_host(
    m: OtaMqttConfig,
    ws_url: &str,
    client_id: &str,
    p: MqttParams,
    host: Seq<char>,
)
    requires
        call_ensures(derive_mqtt, (&m, ws_url, client_id), p),
        m.endpoint matches Some(ep) && ep@ == host,
        host.len() > 0,
        !text::is_white(host[0]),
        !text::is_white(host.last()),
        !host.contains(':'),
    ensures
        p.host@ == host,
        p.port == 8883,
        p.tls,
{
    let none = Seq::<char>::empty();
    text::law_trimming(none, host, none);
    assert(none + host + none =~= host);
    law_endpoint_without_port(host, m.tls, p.host@, p.port, p.tls);
}

/// Without an endpoint the broker is on the host of the WebSocket URL, without the URL's port, at
/// port 1883, with TLS only where it is asked for.
pub proof fn law_broker_beside_the_websocket(
    m: OtaMqttConfig,
    ws_url: &str,
    client_id: &str,
    p: MqttParams,
    host: Seq<char>,
    port: nat,
    path: Seq<char>,
)
    requires
        call_ensures(derive_mqtt, (&m, ws_url, client_id), p),
        m.endpoint is None,
        ws_url@ == "wss://"@ + (host + seq![':'] + text::dec(port) + (seq!['/'] + path)) || ws_url@
            == "wss://"@ + (host + (seq!['/'] + path)),
        host.len() > 0,
        host[0] != 'w',
        !host.contains('/'),
        !host.contains(':'),
    ensures
        p.host@ == host,
        p.port == 1883,
        p.tls == m.tls,
{
    reveal_strlit("wss://");
    reveal_strlit("ws://");
    let digits = text::dec(port);
    text::law_decimal_round_trip(port);
    let tail = seq!['/'] + path;
    let named = host + seq![':'] + digits;
    assert(!named.contains('/')) by {
        assert forall|i: int| 0 <= i < named.len() implies named[i] != '/' by {
            if i < host.len() {
                assert(host.contains(host[i]));
            } else if i > host.len() {
                assert(named[i] == digits[i - host.len() - 1]);
            }
        }
    }
    let authority = if ws_url@ == "wss://"@ + (named + tail) {
        named
    } else {
        host
    };
    let rest = authority + tail;
    assert(ws_url@ == "wss://"@ + rest);
    assert(rest[0] == host[0]);
    assert(!text::begins_with(rest, "wss://"@)) by {
        if rest.len() >= 6 {
            assert(rest.take(6)[0] == rest[0]);
        }
    }
    assert(!text::begins_with(rest, "ws://"@)) by {
        if rest.len() >= 5 {
            assert(rest.take(5)[0] == rest[0]);
        }
    }
    text::law_leading_copies_go(rest, "wss://"@);
    text::law_leading_copies_go(rest, "ws://"@);
    text::law_before_first(authority, '/', path);
    assert(authority + seq!['/'] + path =~= rest);
    assert(url_authority(ws_url@) == authority);
    if authority == named {
        law_url_port_is_dropped(ws_url@, p.host@, host, digits);
    } else {
        assert forall|c: int| !(#[trigger] host_ends(authority, c)) by {
            if host_ends(authority, c) {
                assert(authority.contains(authority[c]));
            }
        }
    }
}

/// A colon that no port follows is part of the host: with nothing behind it, or with anything but
/// digits, the whole endpoint is a host, with port 8883 and TLS.
pub proof fn law_colons_without_a_port(
    m: OtaMqttConfig,
    ws_url: &str,
    client_id: &str,
    p: MqttParams,
    head: Seq<char>,
    tail: Seq<char>,
)
    requires
        call_ensures(derive_mqtt, (&m, ws_url, client_id), p),
        m.endpoint matches Some(ep) && ep@ == head + seq![':'] + tail,
        head.len() > 0,
        !text::is_white(head[0]),
        tail.len() > 0 ==> !text::is_white(tail.last()),
        !tail.contains(':'),
        tail.len() == 0 || exists|i: int| 0 <= i < tail.len() && !('0' <= #[trigger] tail[i] <= '9'),
    ensures
        p.host@ == head + seq![':'] + tail,
        p.port == 8883,
        p.tls,
{
    let ep = head + seq![':'] + tail;
    let none = Seq::<char>::empty();
    assert(!text::is_white(':'));
    assert(ep.last() == if tail.len() > 0 {
        tail.last()
    } else {
        ':'
    });
    text::law_trimming(none, ep, none);
    assert(none + ep + none =~= ep);
    let at = head.len() as int;
    assert forall|i: int| at < i < ep.len() implies #[trigger] ep[i] != ':' by {
        assert(ep[i] == tail[i - at - 1]);
        assert(tail.contains(tail[i - at - 1]));
    }
    assert(ep[at] == ':');
    assert(ep.skip(at + 1) =~= tail);
    assert forall|c: int| !(#[trigger] port_split(ep, c)) by {
        if port_split(ep, c) {
            if c < at {
                assert(ep[at] != ':');
            }
            assert(c == at);
        }
    }
}

/// A number that is too large for a port stands for port 8883, with TLS, behind the same host.
pub proof fn law_ports_too_large(
    m: OtaMqttConfig,
    ws_url: &str,
    client_id: &str,
    p: MqttParams,
    host: Seq<char>,
    n: nat,
)
    requires
        call_ensures(derive_mqtt, (&m, ws_url, client_id), p),
        m.endpoint matches Some(ep) && ep@ == host + seq![':'] + text::dec(n),
        host.len() > 0,
        !text::is_white(host[0]),
        n > 65535,
    ensures
        p.host@ == host,
        p.port == 8883,
        p.tls,
{
    let digits = text::dec(n);
    let ep = host + seq![':'] + digits;
    let none = Seq::<char>::empty();
    text::law_decimal_round_trip(n);
    assert(ep.last() == digits.last());
    assert('0' <= digits[digits.len() - 1] <= '9');
    assert(!text::is_white(ep.last()));
    text::law_trimming(none, ep, none);
    assert(none + ep + none =~= ep);
    let at = host.len() as int;
    assert(ep.skip(at + 1) =~= digits);
    assert(ep.take(at) =~= host);
    assert forall|i: int| at < i < ep.len() implies #[trigger] ep[i] != ':' by {
        assert(ep[i] == digits[i - at - 1]);
    }
    assert(text::last_at(ep, ':', at));
    assert(port_split(ep, at));
    assert forall|c: int| #[trigger] port_split(ep, c) implies c == at by {
        if c < at {
            assert(ep[at] != ':');
        }
    }
}

} // verus!
