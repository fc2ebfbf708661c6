//! A transport that plays a script, to test the supervisor and the audio pipelines with loss,
//! silence and disconnections at will.

use vstd::prelude::*;

use crate::protocol::message::{AudioParams, ClientMessage, ServerMessage};
use crate::protocol::{IncomingEvent, TransportHandles};

verus! {

/// How long a stalled outbound side pauses, in milliseconds.
pub const STALL_MS: u64 = 1000;

/// The scripted transport.
pub struct ScriptedTransport {
    pub script: Script,
}

/// What a connection answers, and what happens on it.
pub struct Script {
    pub session_id: String,
    pub server_audio: AudioParams,
    pub steps: Vec<ScriptStep>,
}

/// One thing that happens.
pub enum ScriptStep {
    Json(ServerMessage),
    Audio(Vec<u8>),
    /// The outbound side stalls, which is a pause of one second.
    StallOutbound,
    /// Nothing happens for this many milliseconds.
    Pause(u64),
    /// The connection breaks.
    Close,
}

/// Something that the client sent.
#[derive(Debug)]
pub enum SentItem {
    Control(ClientMessage),
    Audio(Vec<u8>),
}

/// What to do for the script.
pub enum ScriptAction {
    /// Hand the event to the client.
    Deliver(IncomingEvent),
    /// Wait this many milliseconds.
    Sleep { ms: u64 },
    /// Nothing more.
    End,
}

/// Plays a script, step by step.
pub struct ScriptPlayer {
    /// What is left of the script, last step first.
    pub pending: Vec<ScriptStep>,
}

/// What a step asks for.
pub open spec fn action_of(step: ScriptStep) -> ScriptAction {
    match step {
        ScriptStep::Json(msg) => ScriptAction::Deliver(IncomingEvent::Json(msg)),
        ScriptStep::Audio(data) => ScriptAction::Deliver(IncomingEvent::Audio(data)),
        ScriptStep::StallOutbound => ScriptAction::Sleep { ms: STALL_MS },
        ScriptStep::Pause(ms) => ScriptAction::Sleep { ms },
        ScriptStep::Close => ScriptAction::Deliver(IncomingEvent::Closed),
    }
}

/// All that a script asks for: nothing comes after a break of the connection.
pub open spec fn actions_of(steps: Seq<ScriptStep>) -> Seq<ScriptAction>
    decreases steps.len(),
{
    if steps.len() == 0 {
        seq![ScriptAction::End]
    } else if steps[0] is Close {
        seq![action_of(steps[0]), ScriptAction::End]
    } else {
        seq![action_of(steps[0])] + actions_of(steps.skip(1))
    }
}

impl ScriptPlayer {
    /// What is left of the script.
    pub open spec fn left(self) -> Seq<ScriptStep> {
        self.pending@.reverse()
    }

    /// A player for a script.
    pub fn new(steps: Vec<ScriptStep>) -> (p: Self)
        ensures
            p.left() == steps@,
    {
        let ghost all = steps@;
        let mut steps = steps;
        let mut pending: Vec<ScriptStep> = Vec::new();
        while steps.len() > 0
            invariant
                steps@.len() <= all.len(),
                steps@ == all.take(steps@.len() as int),
                pending@ == all.skip(steps@.len() as int).reverse(),
            decreases steps@.len(),
        {
            let ghost n = steps@.len() as int;
            match steps.pop() {
                Some(step) => {
                    pending.push(step);
                    proof {
                        assert(step == all[n - 1]);
                        assert(all.take(n).drop_last() =~= all.take(n - 1));
                        assert(pending@ =~= all.skip(n - 1).reverse());
                    }
                },
                None => {},
            }
        }
        assert(pending@.reverse() =~= all);
        ScriptPlayer { pending }
    }

    /// Says what to do next.
    pub fn next(&mut self) -> (a: ScriptAction)
        ensures
            old(self).left().len() == 0 ==> a == ScriptAction::End && final(self).left().len() == 0,
            old(self).left().len() > 0 ==> {
                &&& a == action_of(old(self).left()[0])
                &&& final(self).left() == if old(self).left()[0] is Close {
                    Seq::empty()
                } else {
                    old(self).left().skip(1)
                }
            },
    {
        let ghost before = self.pending@;
        match self.pending.pop() {
            Some(step) => {
                proof {
                    assert(before.reverse()[0] == step);
                    assert(before.drop_last().reverse() =~= before.reverse().skip(1));
                }
                match step {
                    ScriptStep::Json(msg) => ScriptAction::Deliver(IncomingEvent::Json(msg)),
                    ScriptStep::Audio(data) => ScriptAction::Deliver(IncomingEvent::Audio(data)),
                    ScriptStep::StallOutbound => ScriptAction::Sleep { ms: STALL_MS },
                    ScriptStep::Pause(ms) => ScriptAction::Sleep { ms },
                    ScriptStep::Close => {
                        self.pending = Vec::new();
                        assert(self.pending@.reverse() =~= Seq::<ScriptStep>::empty());
                        ScriptAction::Deliver(IncomingEvent::Closed)
                    },
                }
            },
            None => ScriptAction::End,
        }
    }

    /// Takes note that the client is gone: the script ends.
    pub fn client_gone(&mut self)
        ensures
            final(self).left().len() == 0,
    {
        self.pending = Vec::new();
    }
}

/// What the client sent, in order.
pub struct SentLog {
    pub items: Vec<SentItem>,
}

impl SentLog {
    /// Nothing sent yet.
    pub fn new() -> (l: Self)
        ensures
            l.items@ == Seq::<SentItem>::empty(),
    {
        SentLog { items: Vec::new() }
    }

    /// Records what was sent.
    pub fn record(&mut self, item: SentItem)
        ensures
            final(self).items@ == old(self).items@.push(item),
    {
        self.items.push(item);
    }

    /// What was sent.
    pub fn sent_items(&self) -> (items: &Vec<SentItem>)
        ensures
            items@ == self.items@,
    {
        &self.items
    }
}

impl ScriptedTransport {
    /// Connects: the session is what the script says, and the script is ready to be played.
    pub fn connect(self) -> (r: (TransportHandles, ScriptPlayer, SentLog))
        ensures
            r.0.session_id == self.script.session_id,
            r.0.server_audio == self.script.server_audio,
            r.1.left() == self.script.steps@,
            r.2.items@ == Seq::<SentItem>::empty(),
    {
        let handles = TransportHandles {
            session_id: self.script.session_id,
            server_audio: self.script.server_audio,
        };
        (handles, ScriptPlayer::new(self.script.steps), SentLog::new())
    }
}

/// Whether a player that plays on from `from` asks for `actions`, one per call, up to the end.
pub open spec fn plays(from: Seq<ScriptStep>, actions: Seq<ScriptAction>) -> bool
    decreases actions.len(),
{
    if actions.len() == 0 {
        false
    } else if from.len() == 0 {
        actions == seq![ScriptAction::End]
    } else {
        &&& actions[0] == action_of(from[0])
        &&& plays(
            if from[0] is Close {
                Seq::empty()
            } else {
                from.skip(1)
            },
            actions.skip(1),
        )
    }
}

/// A player asks for exactly what its script says, in order, and for nothing after a break of the
/// connection.
pub proof fn law_script_is_played(steps: Seq<ScriptStep>)
    ensures
        plays(steps, actions_of(steps)),
    decreases steps.len(),
{
    reveal_with_fuel(plays, 2);
    let all = actions_of(steps);
    if steps.len() == 0 {
    } else if steps[0] is Close {
        assert(all.skip(1) =~= seq![ScriptAction::End]);
    } else {
        law_script_is_played(steps.skip(1));
        assert(all.skip(1) =~= actions_of(steps.skip(1)));
    }
}

/// What a player is asked for is what its script says next, and the script is one step shorter
/// then; a break of the connection is the last thing that happens.
pub proof fn law_script_goes_on(p: &mut ScriptPlayer, a: ScriptAction)
    requires
        call_ensures(ScriptPlayer::next, (p,), a),
    ensures
        old(p).pending@.len() == 0 ==> a == ScriptAction::End && final(p).pending@.len() == 0,
        old(p).pending@.len() > 0 ==> {
            let step = old(p).pending@.last();
            &&& match step {
                ScriptStep::Json(msg) => a == ScriptAction::Deliver(IncomingEvent::Json(msg)),
                ScriptStep::Audio(data) => a == ScriptAction::Deliver(IncomingEvent::Audio(data)),
                ScriptStep::StallOutbound => a == (ScriptAction::Sleep { ms: 1000 }),
                ScriptStep::Pause(ms) => a == (ScriptAction::Sleep { ms }),
                ScriptStep::Close => a == ScriptAction::Deliver(IncomingEvent::Closed),
            }
            &&& step is Close ==> final(p).pending@.len() == 0
            &&& !(step is Close) ==> final(p).pending@ == old(p).pending@.drop_last()
        },
{
    let before = old(p).left();
    if old(p).pending@.len() > 0 {
        assert(before[0] == old(p).pending@.last());
        if before[0] is Close {
            assert(final(p).left().len() == final(p).pending@.len());
        } else {
            assert(final(p).pending@.reverse().reverse() =~= final(p).pending@);
            assert(before.skip(1).reverse() =~= old(p).pending@.drop_last());
        }
    } else {
        assert(before.len() == 0);
        assert(final(p).left().len() == final(p).pending@.len());
    }
}

/// A connection answers what its script says, has nothing sent, and plays the first step first.
pub proof fn law_scripted_connections(
    t: ScriptedTransport,
    r: (TransportHandles, ScriptPlayer, SentLog),
)
    requires
        call_ensures(ScriptedTransport::connect, (t,), r),
    ensures
        r.0.session_id@ == t.script.session_id@,
        r.0.server_audio == t.script.server_audio,
        r.1.pending@.len() == t.script.steps@.len(),
        t.script.steps@.len() > 0 ==> r.1.pending@.last() == t.script.steps@[0],
        r.2.items@.len() == 0,
{
    assert(r.1.left().len() == r.1.pending@.len());
    if t.script.steps@.len() > 0 {
        assert(r.1.left()[0] == r.1.pending@.last());
    }
}

/// What was sent is kept in order, one item after another; a player whose client is gone plays
/// nothing more.
pub proof fn law_sent_items_are_kept(
    a: &mut SentLog,
    x: SentItem,
    b: &mut SentLog,
    y: SentItem,
    p: &mut ScriptPlayer,
    q: &mut ScriptPlayer,
    action: ScriptAction,
)
    requires
        call_ensures(SentLog::record, (a, x), ()),
        *old(b) == *final(a),
        call_ensures(SentLog::record, (b, y), ()),
        call_ensures(ScriptPlayer::client_gone, (p,), ()),
        *old(q) == *final(p),
        call_ensures(ScriptPlayer::next, (q,), action),
    ensures
        final(b).items@ == old(a).items@ + seq![x, y],
        action == ScriptAction::End,
{
    assert(final(b).items@ =~= old(a).items@ + seq![x, y]);
}

} // verus!
