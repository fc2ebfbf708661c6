//! The two transports behind one interface: what a connection needs, what it hands back, and
//! the slot that keeps only the latest audio frame.

use vstd::prelude::*;

use crate::protocol::message::{AudioParams, ServerMessage};
use crate::protocol::mqtt_udp::MqttUdpTransport;
use crate::protocol::ws::WsTransport;
use crate::session::TransportKind;

pub mod message;
pub mod mqtt_udp;
pub mod scripted;
pub mod ws;

verus! {

/// Control messages that may wait for a transport.
pub const CONTROL_CHANNEL_CAP: usize = 16;

/// Incoming events that may wait for the supervisor.
pub const INCOMING_CHANNEL_CAP: usize = 64;

/// What a connection needs, derived from the server's configuration and the device identity.
#[derive(Debug)]
pub struct ConnectParams {
    pub device_id: String,
    pub client_id: String,
    pub token: String,
    pub ws_url: String,
    pub mqtt: Option<MqttParams>,
}

/// What an MQTT connection needs.
#[derive(Debug)]
pub struct MqttParams {
    pub host: String,
    pub port: u16,
    pub tls: bool,
    pub username: String,
    pub password: String,
    pub mqtt_client_id: String,
    pub publish_topic: String,
    pub subscribe_topic: String,
}

/// What a transport delivers.
#[derive(Debug)]
pub enum IncomingEvent {
    Json(ServerMessage),
    /// An Opus payload: deciphered (UDP), or as it came (WebSocket).
    Audio(Vec<u8>),
    /// The transport is gone.
    Closed,
}

/// What a negotiated connection hands to the supervisor, whatever the transport.
#[derive(Debug)]
pub struct TransportHandles {
    pub session_id: String,
    pub server_audio: AudioParams,
}

/// The transports there are.
#[derive(Debug, Clone, Copy, PartialEq, Eq, Structural)]
pub enum TransportAdapter {
    WebSocket(WsTransport),
    MqttUdp(MqttUdpTransport),
}

impl TransportAdapter {
    /// The transport of a kind.
    pub fn of_kind(kind: TransportKind) -> (a: Self)
        ensures
            a == match kind {
                TransportKind::MqttUdp => TransportAdapter::MqttUdp(MqttUdpTransport),
                TransportKind::WebSocket => TransportAdapter::WebSocket(WsTransport),
            },
    {
        match kind {
            TransportKind::MqttUdp => TransportAdapter::MqttUdp(MqttUdpTransport),
            TransportKind::WebSocket => TransportAdapter::WebSocket(WsTransport),
        }
    }
}

/// A slot that keeps the latest value only: storing overwrites, taking empties. A consumer that
/// falls behind loses what is stale, never what is fresh.
pub struct LatestSlot<T> {
    pub value: Option<T>,
}

impl<T> LatestSlot<T> {
    /// An empty slot.
    pub fn new() -> (s: Self)
        ensures
            s.value is None,
    {
        LatestSlot { value: None }
    }

    /// Puts a value in, in place of what was there.
    pub fn store(&mut self, value: T)
        ensures
            final(self).value == Some(value),
    {
        self.value = Some(value);
    }

    /// Takes the value out, if there is one.
    pub fn take(&mut self) -> (r: Option<T>)
        ensures
            r == old(self).value,
            final(self).value is None,
    {
        self.value.take()
    }
}

impl<T> Default for LatestSlot<T> {
    fn default() -> (s: Self)
        ensures
            s.value is None,
    {
        LatestSlot { value: None }
    }
}

/// What a slot holds after values were stored in it one after another, starting from `held`.
pub open spec fn after_stores<T>(held: Option<T>, stored: Seq<T>) -> Option<T>
    decreases stored.len(),
{
    if stored.len() == 0 {
        held
    } else {
        after_stores(Some(stored[0]), stored.skip(1))
    }
}

/// However many values are stored before one is taken, the one that is taken is the last.
pub proof fn law_take_gives_the_latest<T>(held: Option<T>, stored: Seq<T>)
    requires
        stored.len() > 0,
    ensures
        after_stores(held, stored) == Some(stored.last()),
    decreases stored.len(),
{
    reveal_with_fuel(after_stores, 2);
    if stored.len() > 1 {
        law_take_gives_the_latest(Some(stored[0]), stored.skip(1));
    } else {
        assert(stored.skip(1).len() == 0);
    }
}

/// Milliseconds since the Unix epoch as a 32-bit timestamp, which wraps after about 49 days;
/// 0 where the clock stands before the epoch.
pub fn now_ms(unix_ms: Option<u128>) -> (t: u32)
    ensures
        t == match unix_ms {
            Some(ms) => ms as int % 0x1_0000_0000,
            None => 0,
        },
{
    match unix_ms {
        Some(ms) => (ms % 0x1_0000_0000) as u32,
        None => 0,
    }
}

/// The slot gives the value that was stored last, once.
pub proof fn law_slot_holds_one<T>(
    a: &mut LatestSlot<T>,
    x: T,
    b: &mut LatestSlot<T>,
    y: T,
    c: &mut LatestSlot<T>,
    r: Option<T>,
    d: &mut LatestSlot<T>,
    s: Option<T>,
)
    requires
        call_ensures(LatestSlot::<T>::store, (a, x), ()),
        *old(b) == *final(a),
        call_ensures(LatestSlot::<T>::store, (b, y), ()),
        *old(c) == *final(b),
        call_ensures(LatestSlot::<T>::take, (c,), r),
        *old(d) == *final(c),
        call_ensures(LatestSlot::<T>::take, (d,), s),
    ensures
        r == Some(y),
        s is None,
{
}

/// Timestamps are the milliseconds of the clock, modulo the range of the field.
pub proof fn law_timestamps_wrap(a: u128, t: u32, u: u32, none: u32)
    requires
        a < u128::MAX,
        call_ensures(now_ms, (Some(a),), t),
        call_ensures(now_ms, (Some((a + 1) as u128),), u),
        call_ensures(now_ms, (None::<u128>,), none),
    ensures
        a < 0x1_0000_0000 ==> t == a,
        u == if t == u32::MAX {
            0
        } else {
            t + 1
        },
        none == 0,
{
}

} // verus!
