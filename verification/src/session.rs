//! Session epochs: every connection gets a fresh one.
//!
//! Session id, cipher, sequence numbers, codecs, buffers and queues belong to one epoch and are
//! never carried over to another connection or transport.

use vstd::prelude::*;

verus! {

/// How a session reaches the server.
#[derive(Debug, Clone, Copy, PartialEq, Eq, Structural)]
pub enum TransportKind {
    MqttUdp,
    WebSocket,
}

/// Hands out epoch numbers, starting from zero.
pub struct EpochCounter {
    pub next: u64,
}

impl EpochCounter {
    /// A counter that has handed out nothing.
    pub fn new() -> (c: Self)
        ensures
            c.next == 0,
    {
        EpochCounter { next: 0 }
    }
}

/// Identity and transport of one session.
#[derive(Debug)]
pub struct SessionEpoch {
    pub id: u64,
    pub session_id: String,
    pub transport: TransportKind,
}

impl SessionEpoch {
    /// Opens an epoch under the next number of the counter, which wraps after the last one.
    pub fn new(counter: &mut EpochCounter, session_id: String, transport: TransportKind) -> (e:
        Self)
        ensures
            e.id == old(counter).next,
            e.session_id == session_id,
            e.transport == transport,
            final(counter).next == epoch_number(old(counter).next as nat, 1),
    {
        let id: u64 = counter.next;
        counter.next = id.wrapping_add(1);
        SessionEpoch { id, session_id, transport }
    }
}

/// The number that a counter standing at `start` hands out after `k` others.
pub open spec fn epoch_number(start: nat, k: nat) -> nat {
    (start + k) % 0x1_0000_0000_0000_0000
}

/// Taking one number moves the counter on by one: numbers are handed out in a row.
pub proof fn law_epochs_in_a_row(start: nat, k: nat)
    ensures
        epoch_number(epoch_number(start, k), 1) == epoch_number(start, k + 1),
        start < 0x1_0000_0000_0000_0000 ==> epoch_number(start, 0) == start,
{
}

/// Epochs of one counter are unique until all numbers are used up, and increase as long as the
/// counter has not wrapped.
pub proof fn law_epochs_unique_and_monotonic(start: nat, i: nat, j: nat)
    requires
        start < 0x1_0000_0000_0000_0000,
        i < j,
        j - i < 0x1_0000_0000_0000_0000,
    ensures
        epoch_number(start, i) != epoch_number(start, j),
        start + j < 0x1_0000_0000_0000_0000 ==> epoch_number(start, i) < epoch_number(start, j),
{
}

/// Every epoch has its own number: two in a row differ, and the later one is the larger until the
/// numbers run out. Each keeps the session and the transport that it was opened for.
pub proof fn law_epochs_are_fresh(
    a: &mut EpochCounter,
    s1: String,
    k1: TransportKind,
    e1: SessionEpoch,
    b: &mut EpochCounter,
    s2: String,
    k2: TransportKind,
    e2: SessionEpoch,
)
    requires
        call_ensures(SessionEpoch::new, (a, s1, k1), e1),
        *old(b) == *final(a),
        call_ensures(SessionEpoch::new, (b, s2, k2), e2),
    ensures
        e1.id != e2.id,
        e1.id < u64::MAX ==> e2.id == e1.id + 1,
        e1.session_id@ == s1@ && e1.transport == k1,
        e2.session_id@ == s2@ && e2.transport == k2,
{
}

} // verus!
