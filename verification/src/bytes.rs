//! Network byte order.

use vstd::prelude::*;

verus! {

/// The 16-bit big-endian number at offset `at`.
pub open spec fn be16(b: Seq<u8>, at: int) -> int {
    b[at] * 0x100 + b[at + 1]
}

/// The 32-bit big-endian number at offset `at`.
pub open spec fn be32(b: Seq<u8>, at: int) -> int {
    b[at] * 0x100_0000 + b[at + 1] * 0x1_0000 + b[at + 2] * 0x100 + b[at + 3]
}

/// Two bytes that spell the same number are the same.
pub proof fn lemma_be16_injective(a: Seq<u8>, b: Seq<u8>, at: int)
    requires
        be16(a, at) == be16(b, at),
    ensures
        a[at] == b[at],
        a[at + 1] == b[at + 1],
{
}

/// Four bytes that spell the same number are the same.
pub proof fn lemma_be32_injective(a: Seq<u8>, b: Seq<u8>, at: int)
    requires
        be32(a, at) == be32(b, at),
    ensures
        a[at] == b[at],
        a[at + 1] == b[at + 1],
        a[at + 2] == b[at + 2],
        a[at + 3] == b[at + 3],
{
    assert(a[at] == b[at]);
    assert(a[at + 1] == b[at + 1]);
    assert(a[at + 2] == b[at + 2]);
}

/// High and low byte of a 16-bit number.
pub fn split_be16(n: u16) -> (r: [u8; 2])
    ensures
        be16(r@, 0) == n,
{
    [(n / 0x100) as u8, (n % 0x100) as u8]
}

/// The four bytes of a 32-bit number, most significant first.
pub fn split_be32(n: u32) -> (r: [u8; 4])
    ensures
        be32(r@, 0) == n,
{
    [
        (n / 0x100_0000) as u8,
        (n / 0x1_0000 % 0x100) as u8,
        (n / 0x100 % 0x100) as u8,
        (n % 0x100) as u8,
    ]
}

/// Reads the 16-bit number at offset `at`.
pub fn read_be16(b: &[u8], at: usize) -> (n: u16)
    requires
        at + 2 <= b@.len(),
    ensures
        n == be16(b@, at as int),
{
    b[at] as u16 * 0x100 + b[at + 1] as u16
}

/// Reads the 32-bit number at offset `at`.
pub fn read_be32(b: &[u8], at: usize) -> (n: u32)
    requires
        at + 4 <= b@.len(),
    ensures
        n == be32(b@, at as int),
{
    b[at] as u32 * 0x100_0000 + b[at + 1] as u32 * 0x1_0000 + b[at + 2] as u32 * 0x100 + b[at
        + 3] as u32
}

/// Numbers are written with their most significant byte first, and read back as they were written,
/// wherever they stand.
pub proof fn law_network_byte_order(
    small: u16,
    two: [u8; 2],
    large: u32,
    four: [u8; 4],
    b: &[u8],
    at: usize,
    x: u16,
    y: u32,
)
    requires
        call_ensures(split_be16, (small,), two),
        call_ensures(split_be32, (large,), four),
        call_ensures(read_be16, (b, at), x),
        call_ensures(read_be32, (b, at), y),
    ensures
        two@[0] == small / 256 && two@[1] == small % 256,
        four@[0] == large / 16_777_216 && four@[1] == large / 65_536 % 256 && four@[2] == large
            / 256 % 256 && four@[3] == large % 256,
        x == 256 * b@[at as int] + b@[at + 1],
        y == 16_777_216 * b@[at as int] + 65_536 * b@[at + 1] + 256 * b@[at + 2] + b@[at + 3],
{
}

} // verus!
