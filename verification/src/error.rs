//! Typed errors: the supervisor decides by their kind.

use vstd::prelude::*;
use vstd::string::*;

use crate::text;

verus! {

/// What went wrong, with the details for a person to read.
#[derive(Debug)]
pub enum VoiceError {
    AuthenticationFailed(String),
    InvalidConfig(String),
    Transport(String),
    Protocol(String),
    Audio(String),
    Opus(String),
    Crypto(String),
    SessionClosed,
    Timeout(String),
}

/// The kind of a [`VoiceError`], without its details.
#[derive(Clone, Copy, Debug, PartialEq, Eq, Structural)]
pub enum ErrorKind {
    AuthenticationFailed,
    InvalidConfig,
    Transport,
    Protocol,
    Audio,
    Opus,
    Crypto,
    SessionClosed,
    Timeout,
}

/// What precedes the details in the text of an error of this kind.
pub open spec fn prefix(k: ErrorKind) -> Seq<char> {
    match k {
        ErrorKind::AuthenticationFailed => "认证失败: "@,
        ErrorKind::InvalidConfig => "配置无效: "@,
        ErrorKind::Transport => "传输错误: "@,
        ErrorKind::Protocol => "协议错误: "@,
        ErrorKind::Audio => "音频设备错误: "@,
        ErrorKind::Opus => "Opus 错误: "@,
        ErrorKind::Crypto => "加密错误: "@,
        ErrorKind::SessionClosed => "会话已关闭"@,
        ErrorKind::Timeout => "超时: "@,
    }
}

impl VoiceError {
    /// The kind of the error.
    pub open spec fn kind_spec(self) -> ErrorKind {
        match self {
            VoiceError::AuthenticationFailed(_) => ErrorKind::AuthenticationFailed,
            VoiceError::InvalidConfig(_) => ErrorKind::InvalidConfig,
            VoiceError::Transport(_) => ErrorKind::Transport,
            VoiceError::Protocol(_) => ErrorKind::Protocol,
            VoiceError::Audio(_) => ErrorKind::Audio,
            VoiceError::Opus(_) => ErrorKind::Opus,
            VoiceError::Crypto(_) => ErrorKind::Crypto,
            VoiceError::SessionClosed => ErrorKind::SessionClosed,
            VoiceError::Timeout(_) => ErrorKind::Timeout,
        }
    }

    /// The details of the error; a closed session has none.
    pub open spec fn detail(self) -> Seq<char> {
        match self {
            VoiceError::AuthenticationFailed(s) => s@,
            VoiceError::InvalidConfig(s) => s@,
            VoiceError::Transport(s) => s@,
            VoiceError::Protocol(s) => s@,
            VoiceError::Audio(s) => s@,
            VoiceError::Opus(s) => s@,
            VoiceError::Crypto(s) => s@,
            VoiceError::SessionClosed => Seq::empty(),
            VoiceError::Timeout(s) => s@,
        }
    }

    /// Whether this is the error of the given kind with the given details.
    pub open spec fn is(self, kind: ErrorKind, detail: Seq<char>) -> bool {
        self.kind_spec() == kind && self.detail() == detail
    }

    /// The kind of the error.
    pub fn kind(&self) -> (k: ErrorKind)
        ensures
            k == self.kind_spec(),
    {
        match self {
            VoiceError::AuthenticationFailed(_) => ErrorKind::AuthenticationFailed,
            VoiceError::InvalidConfig(_) => ErrorKind::InvalidConfig,
            VoiceError::Transport(_) => ErrorKind::Transport,
            VoiceError::Protocol(_) => ErrorKind::Protocol,
            VoiceError::Audio(_) => ErrorKind::Audio,
            VoiceError::Opus(_) => ErrorKind::Opus,
            VoiceError::Crypto(_) => ErrorKind::Crypto,
            VoiceError::SessionClosed => ErrorKind::SessionClosed,
            VoiceError::Timeout(_) => ErrorKind::Timeout,
        }
    }

    /// The text shown to a person.
    pub fn message(&self) -> (s: String)
        ensures
            s@ == prefix(self.kind_spec()) + self.detail(),
    {
        match self {
            VoiceError::AuthenticationFailed(d) => text::join("认证失败: ", d.as_str()),
            VoiceError::InvalidConfig(d) => text::join("配置无效: ", d.as_str()),
            VoiceError::Transport(d) => text::join("传输错误: ", d.as_str()),
            VoiceError::Protocol(d) => text::join("协议错误: ", d.as_str()),
            VoiceError::Audio(d) => text::join("音频设备错误: ", d.as_str()),
            VoiceError::Opus(d) => text::join("Opus 错误: ", d.as_str()),
            VoiceError::Crypto(d) => text::join("加密错误: ", d.as_str()),
            VoiceError::SessionClosed => {
                let s = "会话已关闭".to_owned();
                assert("会话已关闭"@ + Seq::<char>::empty() =~= "会话已关闭"@);
                s
            },
            VoiceError::Timeout(d) => text::join("超时: ", d.as_str()),
        }
    }

    /// An input or output failure counts as a transport error.
    pub fn from_io(text: String) -> (e: Self)
        ensures
            e.is(ErrorKind::Transport, text@),
    {
        VoiceError::Transport(text)
    }

    /// A message that does not parse counts as a protocol error.
    pub fn from_json(text: String) -> (e: Self)
        ensures
            e.is(ErrorKind::Protocol, text@),
    {
        VoiceError::Protocol(text)
    }
}

/// What a person reads of an error says what kind it is and gives its details, and details only.
pub proof fn law_errors_tell_their_kind(e: VoiceError, s: String, k: ErrorKind)
    requires
        call_ensures(VoiceError::message, (&e,), s),
        call_ensures(VoiceError::kind, (&e,), k),
    ensures
        match e {
            VoiceError::AuthenticationFailed(d) => k == ErrorKind::AuthenticationFailed && s@
                == "认证失败: "@ + d@,
            VoiceError::InvalidConfig(d) => k == ErrorKind::InvalidConfig && s@ == "配置无效: "@
                + d@,
            VoiceError::Transport(d) => k == ErrorKind::Transport && s@ == "传输错误: "@ + d@,
            VoiceError::Protocol(d) => k == ErrorKind::Protocol && s@ == "协议错误: "@ + d@,
            VoiceError::Audio(d) => k == ErrorKind::Audio && s@ == "音频设备错误: "@ + d@,
            VoiceError::Opus(d) => k == ErrorKind::Opus && s@ == "Opus 错误: "@ + d@,
            VoiceError::Crypto(d) => k == ErrorKind::Crypto && s@ == "加密错误: "@ + d@,
            VoiceError::SessionClosed => k == ErrorKind::SessionClosed && s@ == "会话已关闭"@,
            VoiceError::Timeout(d) => k == ErrorKind::Timeout && s@ == "超时: "@ + d@,
        },
{
    assert("会话已关闭"@ + Seq::<char>::empty() =~= "会话已关闭"@);
}

/// Failures of input and output are the transport's, texts that do not parse the protocol's.
pub proof fn law_foreign_errors(
    a: String,
    e: VoiceError,
    b: String,
    f: VoiceError,
)
    requires
        call_ensures(VoiceError::from_io, (a,), e),
        call_ensures(VoiceError::from_json, (b,), f),
    ensures
        e matches VoiceError::Transport(d) && d@ == a@,
        f matches VoiceError::Protocol(d) && d@ == b@,
{
}

} // verus!
