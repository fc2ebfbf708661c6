//! AES-128-CTR packet protection and the header of UDP audio packets.
//!
//! The 16 header bytes travel in the clear and double as the CTR initialization vector: the
//! server's base nonce with payload length, timestamp and sequence written over offsets
//! 2..4, 8..12 and 12..16. A sequence that only grows keeps the vectors of a session distinct;
//! enciphering and deciphering are the same XOR.

use aes::cipher::{Array, KeyIvInit, StreamCipher};
use vstd::prelude::*;
use vstd::string::*;
use vstd::utf8::*;

use crate::{bytes, text};

verus! {

/// Fixed size of the UDP audio header.
pub const HEADER_SIZE: usize = 16;

/// Packet type of audio.
pub const TYPE_AUDIO: u8 = 0x01;

/// Byte `index` of the keystream that AES-128 in 128-bit big-endian counter mode makes of a key
/// and an initialization vector.
pub uninterp spec fn aes128_ctr_byte(key: Seq<u8>, iv: Seq<u8>, index: int) -> u8;

/// `data` XORed with the keystream of `key` and `iv` from its first byte on.
pub open spec fn ctr_xor(key: Seq<u8>, iv: Seq<u8>, data: Seq<u8>) -> Seq<u8> {
    Seq::new(data.len(), |i: int| data[i] ^ aes128_ctr_byte(key, iv, i))
}

/// `ctr::Ctr128BE<aes::Aes128>::apply_keystream` on a fresh cipher: every byte of `data` is XORed
/// with the keystream byte of its position, which depends on the key, the vector and the position
/// alone.
#[verifier::external_body]
fn apply_aes128_ctr(key: &[u8; 16], iv: &[u8; 16], data: &mut [u8])
    ensures
        final(data)@.len() == old(data)@.len(),
        forall|i: int|
            0 <= i < old(data)@.len() ==> #[trigger] final(data)@[i] == old(data)@[i]
                ^ aes128_ctr_byte(key@, iv@, i),
{
    let key = Array::from(*key);
    let iv = Array::from(*iv);
    let mut cipher = ctr::Ctr128BE::<aes::Aes128>::new(&key, &iv);
    cipher.apply_keystream(data);
}

/// Session cipher: holds the key; every packet brings its own vector, the packet header.
pub struct AesCtrCipher {
    pub key: [u8; 16],
}

impl Clone for AesCtrCipher {
    fn clone(&self) -> (r: Self)
        ensures
            r == *self,
    {
        AesCtrCipher { key: self.key }
    }
}

impl AesCtrCipher {
    /// Builds the cipher from the hexadecimal key of the server's hello.
    pub fn from_hex_key(key_hex: &str) -> (r: Result<Self, CryptoError>)
        ensures
            match r {
                Ok(c) => hex_decoded(encode_utf8(key_hex@), c.key@),
                Err(e) => hex_rejected(encode_utf8(key_hex@), e),
            },
    {
        match hex_decode_16(key_hex) {
            Ok(key) => Ok(AesCtrCipher { key }),
            Err(e) => Err(e),
        }
    }

    /// Enciphers or deciphers `data` in place under the vector `iv`.
    pub fn apply_keystream(&self, iv: &[u8; 16], data: &mut [u8])
        ensures
            final(data)@ == ctr_xor(self.key@, iv@, old(data)@),
    {
        let ghost before = data@;
        apply_aes128_ctr(&self.key, iv, data);
        assert(data@ =~= ctr_xor(self.key@, iv@, before));
    }
}

/// Header of a UDP audio packet, in host order.
#[derive(Clone, Copy, Debug, PartialEq, Eq, Structural)]
pub struct UdpAudioHeader {
    pub type_: u8,
    pub flags: u8,
    pub payload_len: u16,
    pub ssrc: u32,
    pub timestamp: u32,
    pub sequence: u32,
}

/// Whether `iv` is `base` with payload length, timestamp and sequence written over it.
pub open spec fn is_iv(h: UdpAudioHeader, base: Seq<u8>, iv: Seq<u8>) -> bool {
    &&& iv.len() == HEADER_SIZE
    &&& iv[0] == base[0]
    &&& iv[1] == base[1]
    &&& bytes::be16(iv, 2) == h.payload_len
    &&& forall|i: int| 4 <= i < 8 ==> iv[i] == base[i]
    &&& bytes::be32(iv, 8) == h.timestamp
    &&& bytes::be32(iv, 12) == h.sequence
}

/// The header fields that 16 bytes spell.
pub open spec fn parsed_header(b: Seq<u8>, h: UdpAudioHeader) -> bool {
    &&& h.type_ == b[0]
    &&& h.flags == b[1]
    &&& h.payload_len == bytes::be16(b, 2)
    &&& h.ssrc == bytes::be32(b, 4)
    &&& h.timestamp == bytes::be32(b, 8)
    &&& h.sequence == bytes::be32(b, 12)
}

impl UdpAudioHeader {
    /// Writes payload length, timestamp and sequence over the base nonce. The type, flags and
    /// ssrc of the nonce stay.
    pub fn build_iv(&self, base_nonce: &[u8; 16]) -> (iv: [u8; 16])
        ensures
            is_iv(*self, base_nonce@, iv@),
    {
        let n = *base_nonce;
        let l = bytes::split_be16(self.payload_len);
        let t = bytes::split_be32(self.timestamp);
        let s = bytes::split_be32(self.sequence);
        [
            n[0],
            n[1],
            l[0],
            l[1],
            n[4],
            n[5],
            n[6],
            n[7],
            t[0],
            t[1],
            t[2],
            t[3],
            s[0],
            s[1],
            s[2],
            s[3],
        ]
    }

    /// Reads the header fields out of 16 bytes.
    pub fn parse(buf: &[u8; 16]) -> (h: Self)
        ensures
            parsed_header(buf@, h),
    {
        let b = buf.as_slice();
        UdpAudioHeader {
            type_: b[0],
            flags: b[1],
            payload_len: bytes::read_be16(b, 2),
            ssrc: bytes::read_be32(b, 4),
            timestamp: bytes::read_be32(b, 8),
            sequence: bytes::read_be32(b, 12),
        }
    }
}

/// Why a key or nonce text was rejected.
#[derive(Debug)]
pub enum CryptoError {
    /// The text is not 32 bytes long; holds its length.
    BadHexLen(usize),
    /// The text holds a byte that is no hexadecimal digit.
    BadHex(String),
}

impl CryptoError {
    /// The text shown to a person.
    pub open spec fn message_spec(&self) -> Seq<char> {
        match *self {
            CryptoError::BadHexLen(n) => "hex 长度错误: 期望 32 字符, 得 "@ + text::dec(
                n as nat,
            ),
            CryptoError::BadHex(m) => "hex 解码失败: "@ + m@,
        }
    }

    /// The text shown to a person.
    pub fn message(&self) -> (s: String)
        ensures
            s@ == self.message_spec(),
    {
        match self {
            CryptoError::BadHexLen(n) => {
                let mut s = "hex 长度错误: 期望 32 字符, 得 ".to_owned();
                text::push_dec(&mut s, *n as u64);
                s
            },
            CryptoError::BadHex(m) => {
                let mut s = "hex 解码失败: ".to_owned();
                s.append(m.as_str());
                s
            },
        }
    }
}

/// Whether a byte is a hexadecimal digit, in either case.
pub open spec fn is_hex_digit(c: u8) -> bool {
    0x30 <= c <= 0x39 || 0x61 <= c <= 0x66 || 0x41 <= c <= 0x46
}

/// The number that a hexadecimal digit stands for.
pub open spec fn hex_value(c: u8) -> int {
    if 0x30 <= c <= 0x39 {
        c - 0x30
    } else if 0x61 <= c <= 0x66 {
        c - 0x61 + 10
    } else {
        c - 0x41 + 10
    }
}

/// Whether `out` is the 16 bytes that the 32 hexadecimal digits of `text` spell.
pub open spec fn hex_decoded(text: Seq<u8>, out: Seq<u8>) -> bool {
    &&& text.len() == 32
    &&& out.len() == 16
    &&& forall|i: int| 0 <= i < 32 ==> is_hex_digit(#[trigger] text[i])
    &&& forall|i: int|
        0 <= i < 16 ==> #[trigger] out[i] == 16 * hex_value(text[2 * i]) + hex_value(
            text[2 * i + 1],
        )
}

/// Whether `text` is rejected, and with which error: by its length, or by its first byte that is
/// no hexadecimal digit.
pub open spec fn hex_rejected(text: Seq<u8>, e: CryptoError) -> bool {
    match e {
        CryptoError::BadHexLen(n) => text.len() != 32 && n == text.len(),
        CryptoError::BadHex(m) => text.len() == 32 && exists|i: int|
            {
                &&& 0 <= i < 32
                &&& first_bad_digit(text, i)
                &&& m@ == bad_digit_text(#[trigger] text[i])
            },
    }
}

/// Whether `i` is the first position of `text` that holds no hexadecimal digit.
pub open spec fn first_bad_digit(text: Seq<u8>, i: int) -> bool {
    !is_hex_digit(text[i]) && forall|j: int| 0 <= j < i ==> is_hex_digit(#[trigger] text[j])
}

/// What is said of a byte that is no hexadecimal digit.
pub open spec fn bad_digit_text(c: u8) -> Seq<char> {
    "非法 hex 字符: "@.push(c as char)
}

/// Decodes 32 hexadecimal digits, in either case, to 16 bytes.
pub fn hex_decode_16(s: &str) -> (r: Result<[u8; 16], CryptoError>)
    ensures
        match r {
            Ok(out) => hex_decoded(encode_utf8(s@), out@),
            Err(e) => hex_rejected(encode_utf8(s@), e),
        },
{
    let b = s.as_bytes();
    if b.len() != 32 {
        return Err(CryptoError::BadHexLen(b.len()));
    }
    let mut out = [0u8;16];
    let mut i: usize = 0;
    while i < 16
        invariant
            i <= 16,
            b@ == encode_utf8(s@),
            b@.len() == 32,
            forall|j: int| 0 <= j < 2 * i ==> is_hex_digit(#[trigger] b@[j]),
            forall|j: int|
                0 <= j < i ==> #[trigger] out@[j] == 16 * hex_value(b@[2 * j]) + hex_value(
                    b@[2 * j + 1],
                ),
        decreases 16 - i,
    {
        let hi: u8 = match hex_val(b[2 * i]) {
            Ok(v) => v,
            Err(e) => {
                assert(first_bad_digit(b@, 2 * i));
                return Err(e);
            },
        };
        let lo: u8 = match hex_val(b[2 * i + 1]) {
            Ok(v) => v,
            Err(e) => {
                assert(first_bad_digit(b@, 2 * i + 1));
                return Err(e);
            },
        };
        out[i] = 16 * hi + lo;
        i = i + 1;
    }
    Ok(out)
}

/// The number that one hexadecimal digit stands for.
fn hex_val(c: u8) -> (r: Result<u8, CryptoError>)
    ensures
        match r {
            Ok(v) => is_hex_digit(c) && v == hex_value(c) && v < 16,
            Err(e) => !is_hex_digit(c) && (e matches CryptoError::BadHex(m) && m@
                == bad_digit_text(c)),
        },
{
    if 0x30 <= c && c <= 0x39 {
        Ok(c - 0x30)
    } else if 0x61 <= c && c <= 0x66 {
        Ok(c - 0x61 + 10)
    } else if 0x41 <= c && c <= 0x46 {
        Ok(c - 0x41 + 10)
    } else {
        let mut m = "非法 hex 字符: ".to_owned();
        m.push(c as char);
        Err(CryptoError::BadHex(m))
    }
}

/// Applying the same keystream twice gives the data back.
pub proof fn law_ctr_involution(key: Seq<u8>, iv: Seq<u8>, data: Seq<u8>)
    ensures
        ctr_xor(key, iv, ctr_xor(key, iv, data)) == data,
{
    assert forall|i: int| 0 <= i < data.len() implies ctr_xor(key, iv, ctr_xor(key, iv, data))[i]
        == data[i] by {
        let d = data[i];
        let k = aes128_ctr_byte(key, iv, i);
        assert((d ^ k) ^ k == d) by (bit_vector);
    }
    assert(ctr_xor(key, iv, ctr_xor(key, iv, data)) =~= data);
}

/// What is written into a header is what is read back: payload length, timestamp and sequence
/// from the header, type, flags and ssrc from the base nonce.
pub proof fn law_header_round_trip(
    h: UdpAudioHeader,
    base: Seq<u8>,
    iv: Seq<u8>,
    back: UdpAudioHeader,
)
    requires
        base.len() == HEADER_SIZE,
        is_iv(h, base, iv),
        parsed_header(iv, back),
    ensures
        back.payload_len == h.payload_len,
        back.timestamp == h.timestamp,
        back.sequence == h.sequence,
        back.type_ == base[0],
        back.flags == base[1],
        back.ssrc == bytes::be32(base, 4),
{
}

/// Packets with different sequences have different vectors, whatever else they hold.
pub proof fn law_iv_distinct(
    a: UdpAudioHeader,
    b: UdpAudioHeader,
    base: Seq<u8>,
    iv_a: Seq<u8>,
    iv_b: Seq<u8>,
)
    requires
        is_iv(a, base, iv_a),
        is_iv(b, base, iv_b),
        a.sequence != b.sequence,
    ensures
        iv_a != iv_b,
{
}

/// The vector is fixed by the header and the base nonce: no byte of it is left open.
pub proof fn law_iv_unique(h: UdpAudioHeader, base: Seq<u8>, iv_a: Seq<u8>, iv_b: Seq<u8>)
    requires
        is_iv(h, base, iv_a),
        is_iv(h, base, iv_b),
    ensures
        iv_a == iv_b,
{
    bytes::lemma_be16_injective(iv_a, iv_b, 2);
    bytes::lemma_be32_injective(iv_a, iv_b, 8);
    bytes::lemma_be32_injective(iv_a, iv_b, 12);
    assert forall|i: int| 0 <= i < 16 implies iv_a[i] == iv_b[i] by {
        assert(4 <= i < 8 ==> iv_a[i] == base[i]);
    }
    assert(iv_a =~= iv_b);
}

/// Whether a text spells bytes in hexadecimal digits, each of them in either case.
pub open spec fn spells(t: Seq<char>, bytes: Seq<u8>) -> bool {
    &&& t.len() == 2 * bytes.len()
    &&& forall|i: int|
        0 <= i < t.len() ==> #[trigger] t[i] == text::hex_text(bytes)[i] || t[i]
            == text::upper_hex_text(bytes)[i]
}

/// Decoding a hexadecimal text of 16 bytes, in lower, upper or mixed case, gives the bytes back,
/// and no such text is rejected.
pub proof fn law_hex_round_trip(t: Seq<char>, bytes: Seq<u8>)
    requires
        bytes.len() == 16,
        spells(t, bytes),
    ensures
        hex_decoded(encode_utf8(t), bytes),
        forall|e: CryptoError| !hex_rejected(encode_utf8(t), e),
{
    assert(is_ascii_chars(t)) by {
        assert forall|i: int| 0 <= i < t.len() implies (t[i] as nat) < 128 by {
            assert(t[i] == text::hex_text(bytes)[i] || t[i] == text::upper_hex_text(bytes)[i]);
        }
    }
    is_ascii_chars_encode_utf8(t);
    let u = encode_utf8(t);
    assert forall|i: int| 0 <= i < 32 implies is_hex_digit(#[trigger] u[i]) && hex_value(u[i]) == (
    if i % 2 == 0 {
        bytes[i / 2] as int / 16
    } else {
        bytes[i / 2] as int % 16
    }) by {
        assert(u[i] == t[i] as u8);
    }
    assert forall|e: CryptoError| !hex_rejected(u, e) by {
        match e {
            CryptoError::BadHexLen(n) => {},
            CryptoError::BadHex(m) => {
                assert forall|i: int| 0 <= i < 32 implies !first_bad_digit(u, i) by {
                    assert(is_hex_digit(u[i]));
                }
            },
        }
    }
}

/// The vector of a packet, byte by byte: type, flags and ssrc are those of the base nonce, and
/// payload length, timestamp and sequence are written over the rest, most significant byte first.
pub proof fn law_vector_layout(h: UdpAudioHeader, base: [u8; 16], iv: [u8; 16])
    requires
        call_ensures(UdpAudioHeader::build_iv, (&h, &base), iv),
    ensures
        iv@[0] == base@[0] && iv@[1] == base@[1],
        256 * iv@[2] + iv@[3] == h.payload_len,
        iv@[4] == base@[4] && iv@[5] == base@[5] && iv@[6] == base@[6] && iv@[7] == base@[7],
        16_777_216 * iv@[8] + 65_536 * iv@[9] + 256 * iv@[10] + iv@[11] == h.timestamp,
        16_777_216 * iv@[12] + 65_536 * iv@[13] + 256 * iv@[14] + iv@[15] == h.sequence,
{
}

/// Reading a vector gives back what was written into it.
pub proof fn law_headers_read_back(
    h: UdpAudioHeader,
    base: [u8; 16],
    iv: [u8; 16],
    back: UdpAudioHeader,
)
    requires
        call_ensures(UdpAudioHeader::build_iv, (&h, &base), iv),
        call_ensures(UdpAudioHeader::parse, (&iv,), back),
    ensures
        back.payload_len == h.payload_len,
        back.timestamp == h.timestamp,
        back.sequence == h.sequence,
        back.type_ == base@[0],
        back.flags == base@[1],
        back.ssrc == 16_777_216 * base@[4] + 65_536 * base@[5] + 256 * base@[6] + base@[7],
{
}

/// Enciphering changes every byte by the keystream byte of its place, under the key of the cipher
/// and the vector of the packet, and doing it twice gives the data back.
pub proof fn law_keystream_is_applied(
    c: AesCtrCipher,
    iv: [u8; 16],
    data: &mut [u8],
    again: &mut [u8],
    i: int,
)
    requires
        call_ensures(AesCtrCipher::apply_keystream, (&c, &iv, data), ()),
        old(again)@ == final(data)@,
        call_ensures(AesCtrCipher::apply_keystream, (&c, &iv, again), ()),
        0 <= i < old(data)@.len(),
    ensures
        final(data)@.len() == old(data)@.len(),
        final(data)@[i] == old(data)@[i] ^ aes128_ctr_byte(c.key@, iv@, i),
        final(again)@ == old(data)@,
{
    law_ctr_involution(c.key@, iv@, old(data)@);
}

/// A key is accepted exactly where it has 32 hexadecimal digits, in either case; each pair of them
/// makes a byte.
pub proof fn law_keys_are_hexadecimal(s: &str, r: Result<[u8; 16], CryptoError>, i: int)
    requires
        call_ensures(hex_decode_16, (s,), r),
        is_ascii_chars(s@),
        0 <= i < 16,
    ensures
        r is Ok <==> s@.len() == 32 && forall|k: int|
            0 <= k < 32 ==> ('0' <= #[trigger] s@[k] <= '9' || 'a' <= s@[k] <= 'f' || 'A' <= s@[k]
                <= 'F'),
        r matches Ok(out) ==> "0123456789abcdef"@[out@[i] as int / 16] == lower(s@[2 * i])
            && "0123456789abcdef"@[out@[i] as int % 16] == lower(s@[2 * i + 1]),
        r matches Err(CryptoError::BadHexLen(n)) ==> n == s@.len() && n != 32,
        r matches Err(CryptoError::BadHex(m)) ==> s@.len() == 32 && m@.len() > 0 && s@.contains(
            m@.last(),
        ),
{
    is_ascii_chars_encode_utf8(s@);
    reveal_strlit("0123456789abcdef");
    let u = encode_utf8(s@);
    assert forall|k: int| 0 <= k < s@.len() implies #[trigger] u[k] == s@[k] as u8 by {}
    if r is Ok {
        assert forall|k: int| 0 <= k < 32 implies ('0' <= #[trigger] s@[k] <= '9' || 'a' <= s@[k]
            <= 'f' || 'A' <= s@[k] <= 'F') by {
            assert(is_hex_digit(u[k]));
        }
        let out = r->Ok_0@;
        assert(is_hex_digit(u[2 * i]));
        assert(is_hex_digit(u[2 * i + 1]));
        assert(out[i] == 16 * hex_value(u[2 * i]) + hex_value(u[2 * i + 1]));
    } else if let Err(CryptoError::BadHex(m)) = r {
        let k = choose|k: int|
            0 <= k < 32 && first_bad_digit(u, k) && m@ == bad_digit_text(#[trigger] u[k]);
        assert(!is_hex_digit(u[k]));
        assert(s@[k] == u[k] as char);
    }
}

/// A letter of a hexadecimal digit in lower case; any other character as it is.
pub open spec fn lower(c: char) -> char {
    if 'A' <= c <= 'F' {
        (c as int + 32) as char
    } else {
        c
    }
}

/// An error of the key material says what is wrong with it.
pub proof fn law_crypto_errors(e: CryptoError, s: String)
    requires
        call_ensures(CryptoError::message, (&e,), s),
    ensures
        e matches CryptoError::BadHexLen(n) ==> s@ == "hex 长度错误: 期望 32 字符, 得 "@ + text::dec(
            n as nat,
        ),
        e matches CryptoError::BadHex(m) ==> s@ == "hex 解码失败: "@ + m@,
{
}

} // verus!
