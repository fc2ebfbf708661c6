//! The conversation of the classic client: when it is given up, when a gap is concealed, and what
//! a message means.

use vstd::prelude::*;
use vstd::string::*;

use crate::classic::message::{ListenState, Message, ServerMessage, TtsState};
use crate::clock;

verus! {

/// Failures in a row after which a conversation is given up.
pub const MAX_RETRIES: u32 = 5;

/// The longest wait before another try, in seconds.
pub const MAX_DELAY_SECS: u32 = 10;

/// Without audio for longer than this while the server speaks, the gap is concealed.
pub const GAP_LIMIT: u64 = 40_000_000;

/// Messages that may wait to be sent.
pub const SEND_QUEUE_CAP: usize = 25;

/// Period of the frames that are sent, in milliseconds.
pub const SEND_TICK_MS: u64 = 20;

/// Period of the pings, in seconds.
pub const HEARTBEAT_SECS: u64 = 30;

/// How often conversations and reconnections have failed. They are counted apart, so that a
/// conversation that keeps failing comes to an end although every reconnection succeeds.
#[derive(Debug, Clone, Copy, PartialEq, Eq, Structural)]
pub struct RetryPolicy {
    pub conv_failures: u32,
    pub reconnect_failures: u32,
}

/// What to do after a failure.
#[derive(Debug, Clone, Copy, PartialEq, Eq, Structural)]
pub enum RetryStep {
    /// Report the failure.
    GiveUp,
    /// Wait, then reconnect.
    ReconnectAfter { secs: u32 },
    /// Try the conversation again.
    Converse,
}

/// The wait after the first failure, in seconds.
pub const FIRST_DELAY_SECS: u32 = 2;

/// How long to wait after so many failures, in seconds: two after the first, twice as long after
/// each further one, up to ten.
pub open spec fn delay_after(failures: int) -> int
    decreases failures,
{
    if failures <= 1 {
        FIRST_DELAY_SECS as int
    } else if delay_after(failures - 1) * 2 < MAX_DELAY_SECS {
        delay_after(failures - 1) * 2
    } else {
        MAX_DELAY_SECS as int
    }
}

/// How long to wait after so many failures, in seconds.
fn retry_delay(failures: u32) -> (secs: u32)
    requires
        failures >= 1,
    ensures
        secs == delay_after(failures as int),
{
    let mut secs: u32 = FIRST_DELAY_SECS;
    let mut i: u32 = 1;
    while i < failures
        invariant
            1 <= i <= failures,
            secs == delay_after(i as int),
            secs <= MAX_DELAY_SECS,
        decreases failures - i,
    {
        i = i + 1;
        secs = if secs * 2 < MAX_DELAY_SECS {
            secs * 2
        } else {
            MAX_DELAY_SECS
        };
    }
    secs
}

impl RetryPolicy {
    /// Fewer failures than what ends the conversation.
    pub open spec fn wf(self) -> bool {
        self.conv_failures < MAX_RETRIES && self.reconnect_failures < MAX_RETRIES
    }

    /// No failure yet.
    pub fn new() -> (p: Self)
        ensures
            p.wf(),
            p == (RetryPolicy { conv_failures: 0, reconnect_failures: 0 }),
    {
        RetryPolicy { conv_failures: 0, reconnect_failures: 0 }
    }

    /// Takes note of a conversation that failed.
    pub fn conversation_failed(&mut self) -> (s: RetryStep)
        requires
            old(self).wf(),
        ensures
            final(self).conv_failures == old(self).conv_failures + 1,
            final(self).reconnect_failures == old(self).reconnect_failures,
            if final(self).conv_failures >= MAX_RETRIES {
                s == RetryStep::GiveUp
            } else {
                &&& s == (RetryStep::ReconnectAfter {
                    secs: delay_after(final(self).conv_failures as int) as u32,
                })
                &&& final(self).wf()
            },
    {
        self.conv_failures = self.conv_failures + 1;
        if self.conv_failures >= MAX_RETRIES {
            RetryStep::GiveUp
        } else {
            RetryStep::ReconnectAfter { secs: retry_delay(self.conv_failures) }
        }
    }

    /// Takes note of how a reconnection went. The conversation is tried again whether it
    /// succeeded or not, until too many have failed in a row.
    pub fn reconnected(&mut self, ok: bool) -> (s: RetryStep)
        requires
            old(self).wf(),
        ensures
            final(self).conv_failures == old(self).conv_failures,
            final(self).reconnect_failures == if ok {
                0
            } else {
                old(self).reconnect_failures + 1
            },
            s == if final(self).reconnect_failures >= MAX_RETRIES {
                RetryStep::GiveUp
            } else {
                RetryStep::Converse
            },
            s == RetryStep::Converse ==> final(self).wf(),
    {
        if ok {
            self.reconnect_failures = 0;
            RetryStep::Converse
        } else {
            self.reconnect_failures = self.reconnect_failures + 1;
            if self.reconnect_failures >= MAX_RETRIES {
                RetryStep::GiveUp
            } else {
                RetryStep::Converse
            }
        }
    }
}

/// The waits double: each is twice the one before, or ten seconds where that would be more; none is
/// shorter than two.
pub proof fn law_waits_double(failures: int)
    requires
        failures >= 1,
    ensures
        2 <= delay_after(failures) <= 10,
        delay_after(failures + 1) == if delay_after(failures) * 2 < 10 {
            delay_after(failures) * 2
        } else {
            10
        },
    decreases failures,
{
    if failures > 1 {
        law_waits_double(failures - 1);
    }
}

/// Something for a person to read.
#[derive(Debug)]
pub enum Notice {
    AssistantStarts,
    AssistantDone,
    User(String),
    Assistant(String),
}

/// What is known of the server's speech.
#[derive(Debug, Clone, Copy, PartialEq, Eq, Structural)]
pub struct Conversation {
    pub tts_active: bool,
    pub last_audio_recv: u64,
}

/// The conversation after a message. The beginning of speech counts as an arrival of audio, so
/// that no gap is concealed before the first frame.
pub open spec fn after_message(c: Conversation, msg: ServerMessage, now: u64) -> Conversation {
    match msg {
        ServerMessage::Tts { state: TtsState::Start, .. } => Conversation {
            tts_active: true,
            last_audio_recv: now,
        },
        ServerMessage::Tts { state: TtsState::Stop, .. } => Conversation { tts_active: false, ..c },
        _ => c,
    }
}

/// What a message says to a person. The text of a reply is shown once, as a whole.
pub open spec fn notice_of(msg: ServerMessage) -> Option<Notice> {
    match msg {
        ServerMessage::Tts { state: TtsState::Start, .. } => Some(Notice::AssistantStarts),
        ServerMessage::Tts { state: TtsState::Stop, .. } => Some(Notice::AssistantDone),
        ServerMessage::Stt { text } => Some(Notice::User(text)),
        ServerMessage::Llm { text: Some(t), .. } => Some(Notice::Assistant(t)),
        _ => None,
    }
}

/// What to do after a call of the decoder.
#[derive(Debug, Clone, Copy, PartialEq, Eq, Structural)]
pub enum Playout {
    /// Play the frame that came out.
    Play,
    /// Have the decoder make up a frame.
    Conceal,
    /// Go without a frame.
    Skip,
}

/// Takes the outcome of a call of the decoder, on a packet or, where `concealing`, on none: a
/// packet that does not decode is concealed, and only where that fails too is there no frame.
pub fn after_decode(concealing: bool, ok: bool) -> (p: Playout)
    ensures
        p == if ok {
            Playout::Play
        } else if concealing {
            Playout::Skip
        } else {
            Playout::Conceal
        },
{
    if ok {
        Playout::Play
    } else if concealing {
        Playout::Skip
    } else {
        Playout::Conceal
    }
}

impl Conversation {
    /// A conversation that begins at `now`.
    pub fn new(now: u64) -> (c: Self)
        ensures
            c == (Conversation { tts_active: false, last_audio_recv: now }),
    {
        Conversation { tts_active: false, last_audio_recv: now }
    }

    /// The message that opens a conversation.
    pub fn opening(session_id: String) -> (m: Message)
        ensures
            m matches Message::Listen { session_id: id, state, mode, text } && id == session_id
                && state == ListenState::Start && (mode matches Some(s) && s@ == "realtime"@)
                && text is None,
    {
        Message::Listen {
            session_id,
            state: ListenState::Start,
            mode: Some("realtime".to_owned()),
            text: None,
        }
    }

    /// Takes note of audio that arrived.
    pub fn audio_received(&mut self, now: u64)
        ensures
            *final(self) == (Conversation { last_audio_recv: now, ..*old(self) }),
    {
        self.last_audio_recv = now;
    }

    /// Whether a gap is to be concealed: the server speaks, and nothing has come for more than
    /// 40 ms.
    pub fn conceal_due(&self, now: u64) -> (r: bool)
        ensures
            r == (self.tts_active && clock::span(now, self.last_audio_recv) > GAP_LIMIT),
    {
        self.tts_active && clock::elapsed(now, self.last_audio_recv) > GAP_LIMIT
    }

    /// Takes a message. A goodbye ends the conversation.
    pub fn handle_json_message(&mut self, msg: ServerMessage, now: u64) -> (r: Result<
        Option<Notice>,
        String,
    >)
        ensures
            *final(self) == after_message(*old(self), msg, now),
            match r {
                Ok(n) => !(msg is Goodbye) && n == notice_of(msg),
                Err(why) => msg is Goodbye && why@ == "会话已关闭"@,
            },
    {
        match msg {
            ServerMessage::Tts { state, text: _ } => match state {
                TtsState::Start => {
                    self.tts_active = true;
                    self.last_audio_recv = now;
                    Ok(Some(Notice::AssistantStarts))
                },
                TtsState::Stop => {
                    self.tts_active = false;
                    Ok(Some(Notice::AssistantDone))
                },
                _ => Ok(None),
            },
            ServerMessage::Stt { text } => Ok(Some(Notice::User(text))),
            ServerMessage::Llm { text, emotion: _ } => match text {
                Some(t) => Ok(Some(Notice::Assistant(t))),
                None => Ok(None),
            },
            ServerMessage::Goodbye { session_id: _ } => Err("会话已关闭".to_owned()),
            _ => Ok(None),
        }
    }
}

/// Nothing is concealed while the server does not speak, nor within 40 ms of a frame.
pub proof fn law_concealment_needs_a_gap(c: Conversation, t: u64, now: u64)
    requires
        t <= now <= t + GAP_LIMIT,
        c.last_audio_recv == t || !c.tts_active,
    ensures
        !(c.tts_active && clock::span(now, c.last_audio_recv) > GAP_LIMIT),
{
}

/// The waits after the failures of a conversation are two, four, eight and ten seconds; the fifth
/// failure is the last.
pub proof fn law_failed_conversations(p: &mut RetryPolicy, s: RetryStep)
    requires
        old(p).wf(),
        call_ensures(RetryPolicy::conversation_failed, (p,), s),
    ensures
        old(p).conv_failures == 0 ==> s == (RetryStep::ReconnectAfter { secs: 2 }),
        old(p).conv_failures == 1 ==> s == (RetryStep::ReconnectAfter { secs: 4 }),
        old(p).conv_failures == 2 ==> s == (RetryStep::ReconnectAfter { secs: 8 }),
        old(p).conv_failures == 3 ==> s == (RetryStep::ReconnectAfter { secs: 10 }),
        old(p).conv_failures >= 4 ==> s == RetryStep::GiveUp,
        final(p).conv_failures == old(p).conv_failures + 1,
        final(p).reconnect_failures == old(p).reconnect_failures,
{
    reveal_with_fuel(delay_after, 6);
}

/// A conversation is tried again after a reconnection, whether that succeeded or not, until five of
/// them have failed in a row; one that succeeds starts that count over, and only that one.
pub proof fn law_reconnections(p: &mut RetryPolicy, ok: bool, s: RetryStep)
    requires
        call_ensures(RetryPolicy::reconnected, (p, ok), s),
    ensures
        s == RetryStep::GiveUp <==> !ok && old(p).reconnect_failures >= 4,
        s == RetryStep::Converse <==> ok || old(p).reconnect_failures < 4,
        ok ==> final(p).reconnect_failures == 0,
        !ok ==> final(p).reconnect_failures == old(p).reconnect_failures + 1,
        final(p).conv_failures == old(p).conv_failures,
{
}

/// The server speaks from the beginning of a speech to its end, and both are shown. The beginning
/// counts as an arrival of audio; the end does not.
pub proof fn law_speech_is_followed(
    a: &mut Conversation,
    words: Option<String>,
    t: u64,
    r: Result<Option<Notice>, String>,
    b: &mut Conversation,
    more: Option<String>,
    u: u64,
    s: Result<Option<Notice>, String>,
)
    requires
        call_ensures(
            Conversation::handle_json_message,
            (a, ServerMessage::Tts { state: TtsState::Start, text: words }, t),
            r,
        ),
        call_ensures(
            Conversation::handle_json_message,
            (b, ServerMessage::Tts { state: TtsState::Stop, text: more }, u),
            s,
        ),
    ensures
        final(a).tts_active,
        final(a).last_audio_recv == t,
        r == Ok::<Option<Notice>, String>(Some(Notice::AssistantStarts)),
        !final(b).tts_active,
        final(b).last_audio_recv == old(b).last_audio_recv,
        s == Ok::<Option<Notice>, String>(Some(Notice::AssistantDone)),
{
}

/// Every other message leaves the conversation as it is. What was understood and what is replied is
/// shown word for word, a goodbye ends the conversation, and the rest is passed over.
pub proof fn law_messages_are_shown(
    c: &mut Conversation,
    msg: ServerMessage,
    now: u64,
    r: Result<Option<Notice>, String>,
)
    requires
        call_ensures(Conversation::handle_json_message, (c, msg, now), r),
        msg matches ServerMessage::Tts { state, text } ==> state != TtsState::Start && state
            != TtsState::Stop,
    ensures
        *final(c) == *old(c),
        r is Err <==> msg is Goodbye,
        msg matches ServerMessage::Stt { text } ==> r == Ok::<Option<Notice>, String>(
            Some(Notice::User(text)),
        ),
        msg matches ServerMessage::Llm { text: Some(words), emotion } ==> r == Ok::<
            Option<Notice>,
            String,
        >(Some(Notice::Assistant(words))),
        msg matches ServerMessage::Llm { text: None, emotion } ==> r == Ok::<Option<Notice>, String>(
            None,
        ),
        msg is Tts || msg is Hello || msg is Listen || msg is Mcp ==> r == Ok::<
            Option<Notice>,
            String,
        >(None),
{
}

/// A gap is concealed exactly where the server speaks and nothing has come for more than 40 ms;
/// audio that arrives, and the beginning of a speech, put it off.
pub proof fn law_gaps_are_concealed(
    a: &mut Conversation,
    t: u64,
    b: Conversation,
    now: u64,
    due: bool,
)
    requires
        call_ensures(Conversation::audio_received, (a, t), ()),
        b == *final(a),
        call_ensures(Conversation::conceal_due, (&b, now), due),
        t <= now,
    ensures
        due <==> old(a).tts_active && now - t > 40_000_000,
{
}

/// A packet that does not decode is concealed once; what decodes is played.
pub proof fn law_what_is_played(ok: bool, first: Playout, again: bool, second: Playout)
    requires
        call_ensures(after_decode, (false, ok), first),
        call_ensures(after_decode, (true, again), second),
    ensures
        first == Playout::Play <==> ok,
        first == Playout::Conceal <==> !ok,
        second == Playout::Play <==> again,
        second == Playout::Skip <==> !again,
{
}

} // verus!
