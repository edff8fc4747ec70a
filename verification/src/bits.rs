//! Flags that travel packed eight to a byte, lowest bit first.

use vstd::prelude::*;
use crate::error::CcnetError;

verus! {

/// Whether bit `k` of `byte` is set; bit 0 is the lowest.
pub open spec fn bit_of(byte: u8, k: u8) -> bool {
    (byte >> k) & 1 == 1
}

/// The flags packed into `src`: flag `i` is bit `i % 8` of byte `i / 8`.
pub open spec fn unpacked_spec(src: Seq<u8>, nbits: nat) -> Seq<bool> {
    Seq::new(nbits, |i: int| bit_of(src[i / 8], (i % 8) as u8))
}

/// The number of bytes that hold `nbits` flags.
pub open spec fn bytes_for(nbits: nat) -> nat {
    if nbits % 8 == 0 {
        nbits / 8
    } else {
        nbits / 8 + 1
    }
}

/// Tests bit `k` of `byte`.
pub fn bit_is_set(byte: u8, k: u8) -> (set: bool)
    requires
        k < 8,
    ensures
        set == bit_of(byte, k),
{
    assert((byte & (1u8 << k) > 0) == ((byte >> k) & 1 == 1)) by (bit_vector)
        requires
            k < 8,
    ;
    byte & (1u8 << k) > 0
}

/// Unpacks the first `nbits` flags of `src`. Fails when `src` holds fewer
/// bytes than that many flags take.
pub fn bits_to_bools(src: &[u8], nbits: usize) -> (r: Result<Vec<bool>, CcnetError>)
    ensures
        src@.len() < bytes_for(nbits as nat) ==> r == Err::<Vec<bool>, CcnetError>(
            CcnetError::NotEnoughBytes,
        ),
        src@.len() >= bytes_for(nbits as nat) ==> r is Ok && r->Ok_0@ == unpacked_spec(
            src@,
            nbits as nat,
        ),
{
    let need_bytes = if nbits % 8 == 0 {
        nbits / 8
    } else {
        nbits / 8 + 1
    };
    if src.len() < need_bytes {
        return Err(CcnetError::NotEnoughBytes);
    }
    let mut bools: Vec<bool> = Vec::new();
    let mut i: usize = 0;
    while i < nbits
        invariant
            i <= nbits,
            src@.len() >= bytes_for(nbits as nat),
            bools@ == unpacked_spec(src@, i as nat),
        decreases nbits - i,
    {
        let set = bit_is_set(src[i / 8], (i % 8) as u8);
        bools.push(set);
        i = i + 1;
    }
    Ok(bools)
}

} // verus!
