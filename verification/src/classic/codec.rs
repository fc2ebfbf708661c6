//! The codec of the classic client: where its library is looked for, how the encoder is set, and
//! what the codec's answers mean.

use vstd::prelude::*;
use vstd::string::*;

use crate::classic::frames::FRAME_SIZE;
use crate::text;

verus! {

/// Room for an encoded packet.
pub const MAX_PACKET_SIZE: usize = 1500;

/// Settings of the encoder.
#[derive(Debug, Clone, Copy, PartialEq, Eq, Structural)]
pub struct ClassicEncoderConfig {
    pub complexity: i32,
    pub bitrate: i32,
    pub voice_signal: bool,
    pub inband_fec: bool,
    pub dtx: bool,
}

/// The settings: half the effort, 48 kbit/s, tuned to voice, with error correction and without
/// silence suppression.
pub fn encoder_config() -> (c: ClassicEncoderConfig)
    ensures
        c == (ClassicEncoderConfig {
            complexity: 5,
            bitrate: 48000,
            voice_signal: true,
            inband_fec: true,
            dtx: false,
        }),
{
    ClassicEncoderConfig {
        complexity: 5,
        bitrate: 48000,
        voice_signal: true,
        inband_fec: true,
        dtx: false,
    }
}

/// Checks the length of a frame before it is encoded.
pub fn check_frame(len: usize) -> (r: Result<(), String>)
    ensures
        match r {
            Ok(_) => len == FRAME_SIZE,
            Err(e) => len != FRAME_SIZE && e@ == "输入帧大小不正确: "@ + text::dec(len as nat)
                + " (期望 "@ + text::dec(320) + ")"@,
        },
{
    if len != FRAME_SIZE {
        let mut s = "输入帧大小不正确: ".to_owned();
        text::push_dec(&mut s, len as u64);
        s.append(" (期望 ");
        text::push_dec(&mut s, FRAME_SIZE as u64);
        s.append(")");
        Err(s)
    } else {
        Ok(())
    }
}

/// What the codec was asked to do.
#[derive(Debug, Clone, Copy, PartialEq, Eq, Structural)]
pub enum ClassicCall {
    CreateEncoder,
    CreateDecoder,
    Encode,
    Decode,
    Conceal,
}

/// What precedes the code of an error of a call.
pub open spec fn call_prefix(call: ClassicCall) -> Seq<char> {
    match call {
        ClassicCall::CreateEncoder => "创建 Opus 编码器失败: "@,
        ClassicCall::CreateDecoder => "创建 Opus 解码器失败: "@,
        ClassicCall::Encode => "Opus 编码失败: "@,
        ClassicCall::Decode => "Opus 解码失败: "@,
        ClassicCall::Conceal => "Opus PLC 失败: "@,
    }
}

/// What is said of a call that failed with a code.
pub fn call_error(call: ClassicCall, code: i32) -> (s: String)
    ensures
        s@ == call_prefix(call) + text::signed_dec(code as int),
{
    let mut s = match call {
        ClassicCall::CreateEncoder => "创建 Opus 编码器失败: ".to_owned(),
        ClassicCall::CreateDecoder => "创建 Opus 解码器失败: ".to_owned(),
        ClassicCall::Encode => "Opus 编码失败: ".to_owned(),
        ClassicCall::Decode => "Opus 解码失败: ".to_owned(),
        ClassicCall::Conceal => "Opus PLC 失败: ".to_owned(),
    };
    text::push_signed(&mut s, code);
    s
}

/// Takes the codec's answer: a negative code is an error, any other the length of the result.
pub fn result_len(call: ClassicCall, code: i32) -> (r: Result<usize, String>)
    ensures
        match r {
            Ok(n) => code >= 0 && n == code,
            Err(e) => code < 0 && e@ == call_prefix(call) + text::signed_dec(code as int),
        },
{
    if code < 0 {
        Err(call_error(call, code))
    } else {
        Ok(code as usize)
    }
}

/// The systems that a library is bundled for.
#[derive(Debug, Clone, Copy, PartialEq, Eq, Structural)]
pub enum Os {
    Windows,
    MacOs,
    Linux,
}

/// The processors that a library is bundled for.
#[derive(Debug, Clone, Copy, PartialEq, Eq, Structural)]
pub enum Arch {
    X64,
    Arm64,
}

/// A place to look for the library.
#[derive(Debug)]
pub enum Candidate {
    /// The bundled file below the directory of the program, if it exists.
    BesideProgram(String),
    /// The bundled file below the working directory, if it exists.
    BesideWorkingDir(String),
    /// The bundled file below another directory, if it exists.
    Below(String, String),
    /// Wherever the system looks for a library of this name.
    System(String),
}

/// The file that is bundled for a system and processor.
pub open spec fn bundled_file(os: Os, arch: Arch) -> Seq<char> {
    match (os, arch) {
        (Os::Windows, Arch::X64) => "libs/libopus/win/x64/opus.dll"@,
        (Os::Windows, Arch::Arm64) => "libs/libopus/win/arm64/opus.dll"@,
        (Os::MacOs, Arch::X64) => "libs/libopus/mac/x64/libopus.dylib"@,
        (Os::MacOs, Arch::Arm64) => "libs/libopus/mac/arm64/libopus.dylib"@,
        (Os::Linux, Arch::X64) => "libs/libopus/linux/x64/libopus.so"@,
        (Os::Linux, Arch::Arm64) => "libs/libopus/linux/arm64/libopus.so"@,
    }
}

/// The file that is bundled for a system and processor.
pub fn bundled(os: Os, arch: Arch) -> (s: String)
    ensures
        s@ == bundled_file(os, arch),
{
    match (os, arch) {
        (Os::Windows, Arch::X64) => "libs/libopus/win/x64/opus.dll".to_owned(),
        (Os::Windows, Arch::Arm64) => "libs/libopus/win/arm64/opus.dll".to_owned(),
        (Os::MacOs, Arch::X64) => "libs/libopus/mac/x64/libopus.dylib".to_owned(),
        (Os::MacOs, Arch::Arm64) => "libs/libopus/mac/arm64/libopus.dylib".to_owned(),
        (Os::Linux, Arch::X64) => "libs/libopus/linux/x64/libopus.so".to_owned(),
        (Os::Linux, Arch::Arm64) => "libs/libopus/linux/arm64/libopus.so".to_owned(),
    }
}

/// A place to look, as a plain value.
#[verifier::ext_equal]
pub enum Place {
    BesideProgram(Seq<char>),
    BesideWorkingDir(Seq<char>),
    Below(Seq<char>, Seq<char>),
    System(Seq<char>),
}

impl View for Candidate {
    type V = Place;

    open spec fn view(&self) -> Place {
        match *self {
            Candidate::BesideProgram(f) => Place::BesideProgram(f@),
            Candidate::BesideWorkingDir(f) => Place::BesideWorkingDir(f@),
            Candidate::Below(d, f) => Place::Below(d@, f@),
            Candidate::System(n) => Place::System(n@),
        }
    }
}

/// All places to look, in order: what is bundled comes first, beside the program if its directory
/// is known, then beside the working directory, then where package managers put it; what the
/// system has comes last.
pub open spec fn places(os: Os, arch: Arch, program_dir: bool) -> Seq<Place> {
    let file = bundled_file(os, arch);
    (if program_dir {
        seq![Place::BesideProgram(file)]
    } else {
        Seq::empty()
    }) + seq![Place::BesideWorkingDir(file)] + match os {
        Os::Windows => seq![Place::System("opus.dll"@)],
        Os::MacOs => seq![
            Place::Below("/opt/homebrew/lib"@, file),
            Place::Below("/usr/local/lib"@, file),
            Place::System("libopus.dylib"@),
        ],
        Os::Linux => seq![Place::System("libopus.so.0"@), Place::System("libopus.so"@)],
    }
}

/// All places to look for the library, in order.
pub fn load_opus_library(os: Os, arch: Arch, program_dir: bool) -> (v: Vec<Candidate>)
    ensures
        v@.map_values(|c: Candidate| c@) == places(os, arch, program_dir),
{
    let file = bundled(os, arch);
    let mut v: Vec<Candidate> = Vec::new();
    if program_dir {
        v.push(Candidate::BesideProgram(file.clone()));
    }
    v.push(Candidate::BesideWorkingDir(file.clone()));
    match os {
        Os::Windows => {
            v.push(Candidate::System("opus.dll".to_owned()));
        },
        Os::MacOs => {
            v.push(Candidate::Below("/opt/homebrew/lib".to_owned(), file.clone()));
            v.push(Candidate::Below("/usr/local/lib".to_owned(), file.clone()));
            v.push(Candidate::System("libopus.dylib".to_owned()));
        },
        Os::Linux => {
            v.push(Candidate::System("libopus.so.0".to_owned()));
            v.push(Candidate::System("libopus.so".to_owned()));
        },
    }
    assert(v@.map_values(|c: Candidate| c@) =~= places(os, arch, program_dir));
    v
}

/// What is said where the library is nowhere to be found.
pub fn library_missing(os: Os, arch: Arch) -> (s: String)
    ensures
        s@ == "未找到 opus 库，请确保 "@ + bundled_file(os, arch) + " 存在或安装系统 opus 库"@,
{
    let mut s = text::join("未找到 opus 库，请确保 ", bundled(os, arch).as_str());
    s.append(" 存在或安装系统 opus 库");
    s
}

/// Frames to encode have 320 samples. An answer that is negative is an error, which names the call
/// and the code; any other is a length.
pub proof fn law_classic_answers(
    len: usize,
    s: Result<(), String>,
    call: ClassicCall,
    code: i32,
    r: Result<usize, String>,
)
    requires
        call_ensures(check_frame, (len,), s),
        call_ensures(result_len, (call, code), r),
    ensures
        s is Ok <==> len == 320,
        r is Ok <==> code >= 0,
        r matches Ok(n) ==> n == code,
        r matches Err(e) ==> e@ == (match call {
            ClassicCall::CreateEncoder => "创建 Opus 编码器失败: "@,
            ClassicCall::CreateDecoder => "创建 Opus 解码器失败: "@,
            ClassicCall::Encode => "Opus 编码失败: "@,
            ClassicCall::Decode => "Opus 解码失败: "@,
            ClassicCall::Conceal => "Opus PLC 失败: "@,
        }) + text::signed_dec(code as int),
{
}

/// Every system and processor has a bundled file of its own.
pub proof fn law_bundled_files(os: Os, arch: Arch, s: String)
    requires
        call_ensures(bundled, (os, arch), s),
    ensures
        s@ == match os {
            Os::Windows => if arch == Arch::X64 {
                "libs/libopus/win/x64/opus.dll"@
            } else {
                "libs/libopus/win/arm64/opus.dll"@
            },
            Os::MacOs => if arch == Arch::X64 {
                "libs/libopus/mac/x64/libopus.dylib"@
            } else {
                "libs/libopus/mac/arm64/libopus.dylib"@
            },
            Os::Linux => if arch == Arch::X64 {
                "libs/libopus/linux/x64/libopus.so"@
            } else {
                "libs/libopus/linux/arm64/libopus.so"@
            },
        },
{
}

/// The bundled file comes first, beside the program where its directory is known and then beside
/// the working directory, before anything that the system has; what the system has is looked for
/// under its own name there, last.
pub proof fn law_search_order(
    os: Os,
    arch: Arch,
    program_dir: bool,
    v: Vec<Candidate>,
    file: String,
)
    requires
        call_ensures(load_opus_library, (os, arch, program_dir), v),
        call_ensures(bundled, (os, arch), file),
    ensures
        ({
            let k: int = if program_dir {
                1
            } else {
                0
            };
            &&& program_dir ==> (v@[0] matches Candidate::BesideProgram(f) && f@ == file@)
            &&& v@[k] matches Candidate::BesideWorkingDir(f) && f@ == file@
            &&& os == Os::Windows ==> v@.len() == k + 2 && (v@[k + 1] matches Candidate::System(n)
                && n@ == "opus.dll"@)
            &&& os == Os::Linux ==> v@.len() == k + 3 && (v@[k + 1] matches Candidate::System(n)
                && n@ == "libopus.so.0"@) && (v@[k + 2] matches Candidate::System(n) && n@
                == "libopus.so"@)
            &&& os == Os::MacOs ==> v@.len() == k + 4 && (v@[k + 1] matches Candidate::Below(d, f)
                && d@ == "/opt/homebrew/lib"@ && f@ == file@) && (v@[k + 2] matches Candidate::Below(
                d,
                f,
            ) && d@ == "/usr/local/lib"@ && f@ == file@) && (v@[k + 3] matches Candidate::System(n)
                && n@ == "libopus.dylib"@)
        }),
{
    let k: int = if program_dir {
        1
    } else {
        0
    };
    let seen = v@.map_values(|c: Candidate| c@);
    assert(seen.len() == v@.len());
    assert(seen[0] == v@[0]@);
    assert(seen[k] == v@[k]@);
    assert(seen[k + 1] == v@[k + 1]@);
    if os != Os::Windows {
        assert(seen[k + 2] == v@[k + 2]@);
    }
    if os == Os::MacOs {
        assert(seen[k + 3] == v@[k + 3]@);
    }
}

} // verus!
