//! Byte-by-byte reception of a response frame.
//!
//! The transport hands over one byte at a time. The receiver drops whatever
//! comes before the sync byte, checks address and declared length as soon as
//! they arrive, and decodes the frame once its last byte is in.

use vstd::prelude::*;
use crate::error::CcnetError;
use crate::frame::decode_response;
use crate::frame::decode_response_spec;
use crate::frame::Response;
use crate::frame::ResponseView;
use crate::frame::MIN_FRAME_LEN;
use crate::frame::SYNC;

verus! {

/// What one more byte may bring: nothing yet, or the end of the reception,
/// with the decoded response or the reason for giving up.
pub open spec fn outcome_view(r: Option<Result<Response, CcnetError>>) -> Option<
    Result<ResponseView, CcnetError>,
> {
    match r {
        None => None,
        Some(Ok(response)) => Some(Ok(response@)),
        Some(Err(e)) => Some(Err(e)),
    }
}

/// The bytes of a frame that is still incomplete: they start with the sync
/// byte, name the expected address and declare a length they have not reached.
pub open spec fn partial_frame(collected: Seq<u8>, address: u8) -> bool {
    &&& collected.len() >= 1 ==> collected[0] == SYNC
    &&& collected.len() >= 2 ==> collected[1] == address
    &&& collected.len() >= 3 ==> collected[2] >= MIN_FRAME_LEN && collected.len() < collected[2]
}

/// One step of the reception: the bytes kept after `byte` arrived, and what
/// the step reports. Every report empties the receiver.
pub open spec fn receive_spec(collected: Seq<u8>, address: u8, byte: u8) -> (
    Seq<u8>,
    Option<Result<ResponseView, CcnetError>>,
) {
    if collected.len() == 0 {
        if byte == SYNC {
            (seq![byte], None)
        } else {
            (collected, None)
        }
    } else if collected.len() == 1 {
        if byte != address {
            (Seq::empty(), Some(Err(CcnetError::AddressMismatch)))
        } else {
            (collected.push(byte), None)
        }
    } else if collected.len() == 2 {
        if byte < MIN_FRAME_LEN {
            (Seq::empty(), Some(Err(CcnetError::FrameTooShort)))
        } else {
            (collected.push(byte), None)
        }
    } else if collected.len() + 1 < collected[2] {
        (collected.push(byte), None)
    } else {
        (Seq::empty(), Some(decode_response_spec(collected.push(byte), address)))
    }
}

/// Feeds `bytes` one after the other, up to the first report.
pub open spec fn receive_all(collected: Seq<u8>, address: u8, bytes: Seq<u8>) -> (
    Seq<u8>,
    Option<Result<ResponseView, CcnetError>>,
)
    decreases bytes.len(),
{
    if bytes.len() == 0 {
        (collected, None)
    } else {
        let step = receive_spec(collected, address, bytes[0]);
        if step.1 is Some {
            step
        } else {
            receive_all(step.0, address, bytes.subrange(1, bytes.len() as int))
        }
    }
}

/// A step that starts from the beginning of a frame leaves the beginning of
/// a frame: the receiver never holds anything else.
pub proof fn lemma_receive_keeps_partial_frame(collected: Seq<u8>, address: u8, byte: u8)
    requires
        partial_frame(collected, address),
    ensures
        partial_frame(receive_spec(collected, address, byte).0, address),
{
}

/// A step that ends the reception reports what decoding the whole frame
/// gives, or that address or declared length were refused as they came.
pub proof fn lemma_receive_outcome(collected: Seq<u8>, address: u8, byte: u8)
    requires
        partial_frame(collected, address),
    ensures
        ({
            let step = receive_spec(collected, address, byte);
            &&& step.1 is Some ==> step.0.len() == 0
            &&& step.1 is Some ==> step.1->Some_0 == decode_response_spec(
                collected.push(byte),
                address,
            )
        }),
{
}

/// Once the sync byte is in, a byte that is not the expected address ends the
/// reception with an address mismatch.
pub proof fn lemma_receive_foreign_address(address: u8, byte: u8)
    requires
        byte != address,
    ensures
        receive_spec(seq![SYNC], address, byte) == (
            Seq::<u8>::empty(),
            Some(Err::<ResponseView, CcnetError>(CcnetError::AddressMismatch)),
        ),
{
}

/// Fed the rest of a frame whose start it holds, the receiver reports what
/// decoding the whole frame gives.
pub proof fn lemma_receive_rest_of_frame(frame: Seq<u8>, address: u8, k: int)
    requires
        frame.len() >= MIN_FRAME_LEN,
        frame.len() == frame[2],
        frame[0] == SYNC,
        frame[1] == address,
        1 <= k < frame.len(),
    ensures
        receive_all(frame.subrange(0, k), address, frame.subrange(k, frame.len() as int)) == (
            Seq::<u8>::empty(),
            Some(decode_response_spec(frame, address)),
        ),
    decreases frame.len() - k,
{
    let held = frame.subrange(0, k);
    let rest = frame.subrange(k, frame.len() as int);
    let step = receive_spec(held, address, rest[0]);
    assert(held.push(rest[0]) =~= frame.subrange(0, k + 1));
    if k + 1 < frame.len() {
        assert(rest.subrange(1, rest.len() as int) =~= frame.subrange(k + 1, frame.len() as int));
        lemma_receive_rest_of_frame(frame, address, k + 1);
    } else {
        assert(frame.subrange(0, k + 1) =~= frame);
    }
}

/// Bytes that are not the sync byte leave an empty receiver empty.
pub proof fn lemma_receive_skips_noise(address: u8, noise: Seq<u8>, bytes: Seq<u8>)
    requires
        forall|i: int| 0 <= i < noise.len() ==> noise[i] != SYNC,
    ensures
        receive_all(Seq::<u8>::empty(), address, noise + bytes) == receive_all(
            Seq::<u8>::empty(),
            address,
            bytes,
        ),
    decreases noise.len(),
{
    if noise.len() == 0 {
        assert(noise + bytes =~= bytes);
    } else {
        let all = noise + bytes;
        let tail = noise.subrange(1, noise.len() as int);
        assert(all.subrange(1, all.len() as int) =~= tail + bytes);
        lemma_receive_skips_noise(address, tail, bytes);
    }
}

/// A frame from the expected address, however much noise without a sync byte
/// comes before it, is received as `decode_response_spec` reads it.
pub proof fn lemma_receive_frame(frame: Seq<u8>, address: u8, noise: Seq<u8>)
    requires
        frame.len() >= MIN_FRAME_LEN,
        frame.len() == frame[2],
        frame[0] == SYNC,
        frame[1] == address,
        forall|i: int| 0 <= i < noise.len() ==> noise[i] != SYNC,
    ensures
        receive_all(Seq::<u8>::empty(), address, noise + frame) == (
            Seq::<u8>::empty(),
            Some(decode_response_spec(frame, address)),
        ),
{
    lemma_receive_skips_noise(address, noise, frame);
    assert(receive_spec(Seq::<u8>::empty(), address, frame[0]).0 =~= frame.subrange(0, 1));
    lemma_receive_rest_of_frame(frame, address, 1);
}

/// Collects the bytes of one response frame.
pub struct FrameReceiver {
    buf: Vec<u8>,
}

impl FrameReceiver {
    /// The bytes of the frame that have arrived so far.
    pub closed spec fn collected(self) -> Seq<u8> {
        self.buf@
    }

    /// A receiver with nothing collected.
    pub fn new() -> (receiver: FrameReceiver)
        ensures
            receiver.collected() == Seq::<u8>::empty(),
    {
        FrameReceiver { buf: Vec::new() }
    }

    /// How many bytes of the frame have arrived.
    pub fn len(&self) -> (n: usize)
        ensures
            n == self.collected().len(),
    {
        self.buf.len()
    }

    /// Drops what has been collected.
    pub fn reset(&mut self)
        ensures
            final(self).collected() == Seq::<u8>::empty(),
    {
        self.buf.clear();
    }

    /// Takes the next byte of the response to a request sent to `from_addr`.
    pub fn receive_response(&mut self, from_addr: u8, byte: u8) -> (r: Option<
        Result<Response, CcnetError>,
    >)
        ensures
            (final(self).collected(), outcome_view(r)) == receive_spec(
                old(self).collected(),
                from_addr,
                byte,
            ),
    {
        let n = self.buf.len();
        if n == 0 {
            if byte == SYNC {
                self.buf.push(byte);
            }
            None
        } else if n == 1 {
            if byte != from_addr {
                self.buf.clear();
                Some(Err(CcnetError::AddressMismatch))
            } else {
                self.buf.push(byte);
                None
            }
        } else if n == 2 {
            if (byte as usize) < MIN_FRAME_LEN {
                self.buf.clear();
                Some(Err(CcnetError::FrameTooShort))
            } else {
                self.buf.push(byte);
                None
            }
        } else if n < 254 && n + 1 < self.buf[2] as usize {
            self.buf.push(byte);
            None
        } else {
            let mut frame: Vec<u8> = Vec::new();
            core::mem::swap(&mut self.buf, &mut frame);
            frame.push(byte);
            Some(decode_response(frame.as_slice(), from_addr))
        }
    }
}

} // verus!
