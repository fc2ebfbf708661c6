//! Codec policy: frame geometry, encoder settings per network grade, and what the codec's answers
//! mean.
//!
//! The encoder runs at 16 kHz, mono, 60 ms per frame; the decoder at the rate of the server's
//! hello.

use vstd::prelude::*;
use vstd::string::*;

use crate::error::{ErrorKind, VoiceError};
use crate::text;

verus! {

/// Sample rate of the encoder.
pub const ENCODER_RATE: u32 = 16000;

/// Length of a frame, in milliseconds.
pub const FRAME_MS: u32 = 60;

/// Samples in a frame of the encoder.
pub const ENCODER_FRAME_SIZE: usize = (16000 * 60) / 1000;

/// Room for an encoded packet.
pub const MAX_PACKET_SIZE: usize = 1500;

/// Effort of the encoder, from 0 to 10.
pub const CAPTURE_COMPLEXITY: i32 = 10;

/// Quality of the network, by the loss seen over ten seconds.
#[derive(Debug, Clone, Copy, PartialEq, Eq, Structural)]
pub enum NetworkGrade {
    /// 32 kbit/s, variable rate, no error correction, no silence suppression.
    Good,
    /// 28 kbit/s, with error correction.
    Fair,
    /// 20 kbit/s, constrained variable rate, with error correction and silence suppression.
    Poor,
}

/// Settings of the encoder.
#[derive(Debug, Clone, Copy, PartialEq, Eq, Structural)]
pub struct EncoderConfig {
    pub bitrate: i32,
    pub vbr: bool,
    pub constrained_vbr: bool,
    pub inband_fec: bool,
    /// The loss to expect, in percent. Without one the encoder adds no redundancy.
    pub packet_loss_perc: i32,
    pub dtx: bool,
}

/// The settings for a grade.
pub open spec fn config_for(grade: NetworkGrade) -> EncoderConfig {
    match grade {
        NetworkGrade::Good => EncoderConfig {
            bitrate: 32_000,
            vbr: true,
            constrained_vbr: false,
            inband_fec: false,
            packet_loss_perc: 0,
            dtx: false,
        },
        NetworkGrade::Fair => EncoderConfig {
            bitrate: 28_000,
            vbr: true,
            constrained_vbr: false,
            inband_fec: true,
            packet_loss_perc: 10,
            dtx: false,
        },
        NetworkGrade::Poor => EncoderConfig {
            bitrate: 20_000,
            vbr: true,
            constrained_vbr: true,
            inband_fec: true,
            packet_loss_perc: 15,
            dtx: true,
        },
    }
}

/// The settings for a grade.
pub fn apply_encoder_config(grade: NetworkGrade) -> (c: EncoderConfig)
    ensures
        c == config_for(grade),
{
    match grade {
        NetworkGrade::Good => EncoderConfig {
            bitrate: 32_000,
            vbr: true,
            constrained_vbr: false,
            inband_fec: false,
            packet_loss_perc: 0,
            dtx: false,
        },
        NetworkGrade::Fair => EncoderConfig {
            bitrate: 28_000,
            vbr: true,
            constrained_vbr: false,
            inband_fec: true,
            packet_loss_perc: 10,
            dtx: false,
        },
        NetworkGrade::Poor => EncoderConfig {
            bitrate: 20_000,
            vbr: true,
            constrained_vbr: true,
            inband_fec: true,
            packet_loss_perc: 15,
            dtx: true,
        },
    }
}

/// Samples in a frame of a decoder. A frame that conceals a loss has as many as any other, so
/// that the timing holds.
pub open spec fn decode_frame_size_of(rate: u32) -> int {
    rate as int * FRAME_MS / 1000
}

/// What a codec is set to.
#[derive(Debug, Clone, Copy, PartialEq, Eq, Structural)]
pub struct CodecState {
    pub decode_frame_size: usize,
    pub grade: NetworkGrade,
}

impl CodecState {
    /// A codec that decodes at the given rate, set for a good network.
    pub fn new(decode_rate: u32) -> (c: Self)
        ensures
            c.decode_frame_size == decode_frame_size_of(decode_rate),
            c.grade == NetworkGrade::Good,
    {
        CodecState {
            decode_frame_size: (decode_rate as u64 * FRAME_MS as u64 / 1000) as usize,
            grade: NetworkGrade::Good,
        }
    }

    /// Takes a grade: the settings to apply, where it is another one.
    pub fn set_network_grade(&mut self, grade: NetworkGrade) -> (r: Option<EncoderConfig>)
        ensures
            final(self).grade == grade,
            final(self).decode_frame_size == old(self).decode_frame_size,
            r == if old(self).grade == grade {
                None
            } else {
                Some(config_for(grade))
            },
    {
        if self.grade == grade {
            None
        } else {
            self.grade = grade;
            Some(apply_encoder_config(grade))
        }
    }
}

/// What is said of an error code of the codec, with its description where there is one.
pub open spec fn error_text(code: i32, description: Option<String>) -> Seq<char> {
    match description {
        Some(d) => d@ + " ("@ + text::signed_dec(code as int) + ")"@,
        None => "opus 错误码 "@ + text::signed_dec(code as int),
    }
}

/// What is said of an error code of the codec.
pub fn opus_error_desc(code: i32, description: &Option<String>) -> (s: String)
    ensures
        s@ == error_text(code, *description),
{
    match description {
        Some(d) => {
            let mut s = text::join(d.as_str(), " (");
            text::push_signed(&mut s, code);
            s.append(")");
            s
        },
        None => {
            let mut s = "opus 错误码 ".to_owned();
            text::push_signed(&mut s, code);
            s
        },
    }
}

/// What the codec was asked to do.
#[derive(Debug, Clone, Copy, PartialEq, Eq, Structural)]
pub enum CodecCall {
    CreateEncoder,
    CreateDecoder,
    Encode,
    Decode,
}

/// What precedes the description of an error of a call.
pub open spec fn call_prefix(call: CodecCall) -> Seq<char> {
    match call {
        CodecCall::CreateEncoder => "创建 Opus 编码器失败: "@,
        CodecCall::CreateDecoder => "创建 Opus 解码器失败: "@,
        CodecCall::Encode => "Opus 编码失败: "@,
        CodecCall::Decode => "Opus 解码失败: "@,
    }
}

/// The error of a call that failed with a code.
pub fn codec_error(call: CodecCall, code: i32, description: &Option<String>) -> (e: VoiceError)
    ensures
        e.is(ErrorKind::Opus, call_prefix(call) + error_text(code, *description)),
{
    let what = opus_error_desc(code, description);
    let s = match call {
        CodecCall::CreateEncoder => text::join("创建 Opus 编码器失败: ", what.as_str()),
        CodecCall::CreateDecoder => text::join("创建 Opus 解码器失败: ", what.as_str()),
        CodecCall::Encode => text::join("Opus 编码失败: ", what.as_str()),
        CodecCall::Decode => text::join("Opus 解码失败: ", what.as_str()),
    };
    VoiceError::Opus(s)
}

/// Checks the length of a frame before it is encoded.
pub fn check_frame(len: usize) -> (r: Result<(), VoiceError>)
    ensures
        match r {
            Ok(_) => len == ENCODER_FRAME_SIZE,
            Err(e) => len != ENCODER_FRAME_SIZE && e.is(
                ErrorKind::Opus,
                "编码帧大小不正确: "@ + text::dec(len as nat) + " (期望 "@ + text::dec(960) + ")"@,
            ),
        },
{
    if len != ENCODER_FRAME_SIZE {
        let mut s = "编码帧大小不正确: ".to_owned();
        text::push_dec(&mut s, len as u64);
        s.append(" (期望 ");
        text::push_dec(&mut s, ENCODER_FRAME_SIZE as u64);
        s.append(")");
        Err(VoiceError::Opus(s))
    } else {
        Ok(())
    }
}

/// Takes the codec's answer to a request to encode or decode: a negative code is an error, any
/// other the length of the result.
pub fn result_len(call: CodecCall, code: i32, description: &Option<String>) -> (r: Result<
    usize,
    VoiceError,
>)
    ensures
        match r {
            Ok(n) => code >= 0 && n == code,
            Err(e) => code < 0 && e.is(
                ErrorKind::Opus,
                call_prefix(call) + error_text(code, *description),
            ),
        },
{
    if code < 0 {
        Err(codec_error(call, code, description))
    } else {
        Ok(code as usize)
    }
}

/// The encoded packet: the bytes of the buffer that the codec says it filled.
pub fn encoded_packet(buf: &Vec<u8>, len: usize) -> (p: Vec<u8>)
    requires
        len <= buf@.len(),
    ensures
        p@ == buf@.take(len as int),
{
    let mut p: Vec<u8> = Vec::new();
    let mut i: usize = 0;
    while i < len
        invariant
            i <= len <= buf@.len(),
            p@ == buf@.take(i as int),
        decreases len - i,
    {
        p.push(buf[i]);
        i = i + 1;
        assert(buf@.take(i as int) =~= buf@.take(i - 1).push(buf@[i - 1]));
    }
    p
}

/// How a packet is decoded.
#[derive(Debug, Clone, Copy, PartialEq, Eq, Structural)]
pub enum DecodeMode {
    /// Without a packet: conceal a loss.
    Conceal,
    /// As it is.
    Plain,
    /// For the redundancy that it holds of the frame before.
    Recover,
}

/// How a packet of `len` bytes is decoded: an empty one conceals a loss, whatever was asked for.
pub fn decode_mode(len: usize, fec: bool) -> (m: DecodeMode)
    ensures
        m == if len == 0 {
            DecodeMode::Conceal
        } else if fec {
            DecodeMode::Recover
        } else {
            DecodeMode::Plain
        },
{
    if len == 0 {
        DecodeMode::Conceal
    } else if fec {
        DecodeMode::Recover
    } else {
        DecodeMode::Plain
    }
}

/// The worse the network, the lower the rate; and redundancy comes exactly with a loss to expect.
pub proof fn law_rate_falls_with_grade(grade: NetworkGrade)
    ensures
        config_for(NetworkGrade::Poor).bitrate < config_for(NetworkGrade::Fair).bitrate
            < config_for(NetworkGrade::Good).bitrate,
        config_for(grade).inband_fec <==> config_for(grade).packet_loss_perc > 0,
        config_for(grade).constrained_vbr ==> config_for(grade).vbr,
{
}

/// The settings per grade: 32 kbit/s without error correction on a good network, 28 with it on a
/// fair one, and 20 with it, constrained and with silence suppression, on a poor one.
pub proof fn law_settings_per_grade(grade: NetworkGrade, c: EncoderConfig)
    requires
        call_ensures(apply_encoder_config, (grade,), c),
    ensures
        c.bitrate == 32_000 <==> grade == NetworkGrade::Good,
        c.bitrate == 28_000 <==> grade == NetworkGrade::Fair,
        c.bitrate == 20_000 <==> grade == NetworkGrade::Poor,
        c.vbr,
        c.constrained_vbr <==> grade == NetworkGrade::Poor,
        c.inband_fec <==> grade != NetworkGrade::Good,
        c.dtx <==> grade == NetworkGrade::Poor,
        c.packet_loss_perc == if grade == NetworkGrade::Good {
            0int
        } else if grade == NetworkGrade::Fair {
            10
        } else {
            15
        },
{
}

/// The encoder is set anew exactly where the grade changes, and not again for the same grade.
pub proof fn law_grades_are_applied_once(
    a: &mut CodecState,
    g: NetworkGrade,
    r: Option<EncoderConfig>,
    b: &mut CodecState,
    s: Option<EncoderConfig>,
)
    requires
        call_ensures(CodecState::set_network_grade, (a, g), r),
        *old(b) == *final(a),
        call_ensures(CodecState::set_network_grade, (b, g), s),
    ensures
        r is Some <==> old(a).grade != g,
        s is None,
        final(a).grade == g,
        r matches Some(c) ==> (c.inband_fec <==> g != NetworkGrade::Good),
        final(a).decode_frame_size == old(a).decode_frame_size,
{
}

/// A decoded frame has 60 ms of samples, whatever the rate: 960 at 16 kHz, 1440 at 24 kHz, 2880 at
/// 48 kHz.
pub proof fn law_decoded_frames_have_sixty_milliseconds(rate: u32, c: CodecState)
    requires
        call_ensures(CodecState::new, (rate,), c),
    ensures
        1000 * c.decode_frame_size <= 60 * rate < 1000 * (c.decode_frame_size + 1),
        c.grade == NetworkGrade::Good,
{
}

/// An error of the codec names the call, its description where there is one, and its code.
pub proof fn law_codec_errors(
    call: CodecCall,
    code: i32,
    description: Option<String>,
    e: VoiceError,
)
    requires
        call_ensures(codec_error, (call, code, &description), e),
    ensures
        e matches VoiceError::Opus(d) && d@ == (match call {
            CodecCall::CreateEncoder => "创建 Opus 编码器失败: "@,
            CodecCall::CreateDecoder => "创建 Opus 解码器失败: "@,
            CodecCall::Encode => "Opus 编码失败: "@,
            CodecCall::Decode => "Opus 解码失败: "@,
        }) + (match description {
            Some(t) => t@ + " ("@ + text::signed_dec(code as int) + ")"@,
            None => "opus 错误码 "@ + text::signed_dec(code as int),
        }),
{
}

/// A packet is decoded for its own frame unless it is empty or recovery is asked for.
pub proof fn law_decode_modes(len: usize, fec: bool, m: DecodeMode)
    requires
        call_ensures(decode_mode, (len, fec), m),
    ensures
        m == DecodeMode::Conceal <==> len == 0,
        m == DecodeMode::Recover <==> len > 0 && fec,
        m == DecodeMode::Plain <==> len > 0 && !fec,
{
}

/// A negative answer is an error and any other the length; frames to encode have 960 samples.
pub proof fn law_codec_answers(
    call: CodecCall,
    code: i32,
    description: Option<String>,
    r: Result<usize, VoiceError>,
    len: usize,
    s: Result<(), VoiceError>,
)
    requires
        call_ensures(result_len, (call, code, &description), r),
        call_ensures(check_frame, (len,), s),
    ensures
        r is Ok <==> code >= 0,
        r matches Ok(n) ==> n == code,
        r matches Err(e) ==> e is Opus,
        s is Ok <==> len == 960,
        s matches Err(e) ==> e is Opus,
{
}

/// An encoded packet is the beginning of what the encoder wrote to, as long as the encoder says.
pub proof fn law_packets_are_cut(buf: &Vec<u8>, len: usize, p: Vec<u8>, i: int)
    requires
        len <= buf@.len(),
        call_ensures(encoded_packet, (buf, len), p),
        0 <= i < len,
    ensures
        p@.len() == len,
        p@[i] == buf@[i],
{
}

} // verus!
