//! The 16-bit checksum that closes every frame on the bill-validator link.

use vstd::prelude::*;

verus! {

/// Generator polynomial of the checksum, in its bit-reversed form.
pub const POLYNOMIAL: u16 = 0x8408;

/// One round of the checksum register: the register moves one bit to the
/// right, and the polynomial is folded in when the bit that is then lowest is set.
pub open spec fn crc_round(crc: u16) -> u16 {
    let shifted = crc >> 1;
    if shifted & 1 != 0 {
        shifted ^ POLYNOMIAL
    } else {
        shifted
    }
}

/// `n` rounds in a row.
pub open spec fn crc_rounds(crc: u16, n: nat) -> u16
    decreases n,
{
    if n == 0 {
        crc
    } else {
        crc_round(crc_rounds(crc, (n - 1) as nat))
    }
}

/// The register after one more byte: the byte is folded into the low half,
/// then eight rounds follow.
pub open spec fn crc_absorb(crc: u16, byte: u8) -> u16 {
    crc_rounds(crc ^ (byte as u16), 8)
}

/// The checksum of a byte sequence: the register starts at zero and absorbs
/// the bytes from first to last.
pub open spec fn crc16_spec(bytes: Seq<u8>) -> u16
    decreases bytes.len(),
{
    if bytes.len() == 0 {
        0
    } else {
        crc_absorb(crc16_spec(bytes.drop_last()), bytes.last())
    }
}

/// The checksum of the empty sequence is zero.
pub proof fn lemma_crc16_empty()
    ensures
        crc16_spec(Seq::<u8>::empty()) == 0,
{
}

/// Appending one byte absorbs it into the checksum of what came before.
pub proof fn lemma_crc16_push(bytes: Seq<u8>, byte: u8)
    ensures
        crc16_spec(bytes.push(byte)) == crc_absorb(crc16_spec(bytes), byte),
{
    assert(bytes.push(byte).drop_last() =~= bytes);
}

/// Rounds that start from registers whose first round agrees end alike.
proof fn lemma_rounds_after_first(a: u16, b: u16, n: nat)
    requires
        n >= 1,
        crc_round(a) == crc_round(b),
    ensures
        crc_rounds(a, n) == crc_rounds(b, n),
    decreases n,
{
    if n > 1 {
        lemma_rounds_after_first(a, b, (n - 1) as nat);
    } else {
        assert(crc_rounds(a, 0) == a);
        assert(crc_rounds(b, 0) == b);
    }
}

/// The register moves before it is looked at, so the lowest bit of a byte
/// never reaches the checksum: two bytes that differ in that bit alone are
/// absorbed alike.
pub proof fn lemma_absorb_ignores_lowest_bit(crc: u16, byte: u8)
    ensures
        crc_absorb(crc, byte) == crc_absorb(crc, byte ^ 1),
{
    let a = crc ^ (byte as u16);
    let b = crc ^ ((byte ^ 1) as u16);
    assert((crc ^ (byte as u16)) >> 1 == (crc ^ ((byte ^ 1) as u16)) >> 1) by (bit_vector);
    lemma_rounds_after_first(a, b, 8);
}

/// Runs eight rounds on the register.
fn eight_rounds(start: u16) -> (crc: u16)
    ensures
        crc == crc_rounds(start, 8),
{
    let mut crc: u16 = start;
    let mut round: u8 = 0;
    while round < 8
        invariant
            round <= 8,
            crc == crc_rounds(start, round as nat),
        decreases 8 - round,
    {
        crc = crc >> 1;
        if crc & 0x0001 != 0 {
            crc = crc ^ POLYNOMIAL;
        }
        round = round + 1;
    }
    crc
}

/// Computes the checksum of `data`.
pub fn crc16(data: &[u8]) -> (crc: u16)
    ensures
        crc == crc16_spec(data@),
{
    let mut crc: u16 = 0;
    let mut i: usize = 0;
    while i < data.len()
        invariant
            i <= data.len(),
            crc == crc16_spec(data@.subrange(0, i as int)),
        decreases data.len() - i,
    {
        proof {
            lemma_crc16_push(data@.subrange(0, i as int), data@[i as int]);
            assert(data@.subrange(0, i as int).push(data@[i as int]) =~= data@.subrange(
                0,
                i + 1,
            ));
        }
        crc = eight_rounds(crc ^ (data[i] as u16));
        i = i + 1;
    }
    assert(data@.subrange(0, i as int) =~= data@);
    crc
}

} // verus!
