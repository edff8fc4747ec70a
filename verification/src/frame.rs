//! Frames of the bill-validator link: how a request is laid out on the wire
//! and how a response is read back.
//!
//! A frame is `[SYNC][ADDR][LEN][BODY...][CRC_LO][CRC_HI]`. `LEN` counts every
//! byte of the frame. The body of a request is the command byte followed by
//! its payload; the body of a response is the device's data. The checksum
//! covers everything before it and travels low byte first.

use vstd::prelude::*;
use vstd::slice::slice_subrange;
use vstd::slice::slice_to_vec;
use crate::crc::crc16;
use crate::crc::crc16_spec;
use crate::error::result_view;
use crate::error::CcnetError;

verus! {

/// Marks the start of every frame.
pub const SYNC: u8 = 0x02;

/// Body of a bare positive acknowledgment.
pub const ACK: u8 = 0x00;

/// Body of a bare negative acknowledgment.
pub const NACK: u8 = 0xFF;

/// Body by which a device refuses a command. On the wire it is the same byte
/// as `NACK`, so a frame reader reports `NACK` for both.
pub const INC_CMD: u8 = 0xFF;

/// Largest payload that a request may carry.
pub const MAX_PAYLOAD: usize = 250;

/// Bytes of a frame around its body: sync, address, length and the two
/// checksum bytes.
pub const FRAME_OVERHEAD: usize = 5;

/// Bytes of the shortest frame: one with a body of a single byte.
pub const MIN_FRAME_LEN: usize = 6;

/// What a device answered.
#[derive(Debug, Clone, PartialEq, Eq)]
pub enum Response {
    Ack,
    Nack,
    IncCmd,
    Message(Vec<u8>),
}

/// A `Response` as a mathematical value.
#[verifier::ext_equal]
pub enum ResponseView {
    Ack,
    Nack,
    IncCmd,
    Message(Seq<u8>),
}

impl View for Response {
    type V = ResponseView;

    open spec fn view(&self) -> ResponseView {
        match self {
            Response::Ack => ResponseView::Ack,
            Response::Nack => ResponseView::Nack,
            Response::IncCmd => ResponseView::IncCmd,
            Response::Message(data) => ResponseView::Message(data@),
        }
    }
}

/// A frame up to its checksum. The length byte is the frame's byte count
/// modulo 256, so it is the byte count itself up to a body of 250 bytes.
pub open spec fn frame_head(address: u8, body: Seq<u8>) -> Seq<u8> {
    seq![SYNC, address, ((body.len() + FRAME_OVERHEAD) % 256) as u8] + body
}

/// `head` followed by its checksum, low byte first.
pub open spec fn with_checksum(head: Seq<u8>) -> Seq<u8> {
    let crc = crc16_spec(head);
    head.push((crc % 256) as u8).push((crc / 256) as u8)
}

/// The frame that carries `body` to or from `address`.
pub open spec fn frame_of(address: u8, body: Seq<u8>) -> Seq<u8> {
    with_checksum(frame_head(address, body))
}

/// The frame of a request: its body is the command byte and the payload.
pub open spec fn frame_spec(address: u8, command: u8, payload: Seq<u8>) -> Seq<u8> {
    frame_of(address, seq![command] + payload)
}

/// The checksum that the last two bytes of `bytes` carry.
pub open spec fn carried_checksum(bytes: Seq<u8>) -> int {
    bytes[bytes.len() - 2] + 256 * bytes[bytes.len() - 1]
}

/// What the body of a sound frame means: a single `ACK` or `NACK` byte is the
/// bare acknowledgment, anything else is a message.
pub open spec fn classify(body: Seq<u8>) -> ResponseView {
    if body.len() == 1 && body[0] == ACK {
        ResponseView::Ack
    } else if body.len() == 1 && body[0] == NACK {
        ResponseView::Nack
    } else {
        ResponseView::Message(body)
    }
}

/// The body that a response stands for: the single byte of an
/// acknowledgment, or the bytes of a message.
pub open spec fn body_of(response: ResponseView) -> Seq<u8> {
    match response {
        ResponseView::Ack => seq![ACK],
        ResponseView::Nack => seq![NACK],
        ResponseView::IncCmd => seq![INC_CMD],
        ResponseView::Message(data) => data,
    }
}

/// What a received frame decodes to when the request went to `expected_address`.
/// The checks run in this order: address, declared length, byte count, checksum.
pub open spec fn decode_response_spec(bytes: Seq<u8>, expected_address: u8) -> Result<
    ResponseView,
    CcnetError,
> {
    if bytes.len() < 2 {
        Err(CcnetError::FrameTooShort)
    } else if bytes[1] != expected_address {
        Err(CcnetError::AddressMismatch)
    } else if bytes.len() < 3 || bytes[2] < MIN_FRAME_LEN {
        Err(CcnetError::FrameTooShort)
    } else if bytes.len() != bytes[2] {
        Err(CcnetError::LengthMismatch)
    } else if crc16_spec(bytes.subrange(0, bytes.len() - 2)) != carried_checksum(bytes) {
        Err(CcnetError::IntegrityError)
    } else {
        Ok(classify(bytes.subrange(3, bytes.len() - 2)))
    }
}

/// Appends the checksum of `frame` to it.
fn push_checksum(frame: &mut Vec<u8>)
    ensures
        final(frame)@ == with_checksum(old(frame)@),
{
    let crc = crc16(frame.as_slice());
    frame.push((crc % 256) as u8);
    frame.push((crc / 256) as u8);
}

/// Builds the frame of a request. A payload of more than 250 bytes is refused.
pub fn encode(address: u8, command: u8, payload: &[u8]) -> (r: Result<Vec<u8>, CcnetError>)
    ensures
        payload@.len() > MAX_PAYLOAD ==> r == Err::<Vec<u8>, CcnetError>(CcnetError::PayloadTooLarge),
        payload@.len() <= MAX_PAYLOAD ==> r is Ok && r->Ok_0@ == frame_spec(
            address,
            command,
            payload@,
        ),
{
    if payload.len() > MAX_PAYLOAD {
        return Err(CcnetError::PayloadTooLarge);
    }
    let mut frame: Vec<u8> = Vec::new();
    frame.push(SYNC);
    frame.push(address);
    frame.push(((payload.len() + MIN_FRAME_LEN) % 256) as u8);
    frame.push(command);
    let mut i: usize = 0;
    while i < payload.len()
        invariant
            i <= payload.len(),
            frame@ == frame_head(address, seq![command] + payload@).subrange(0, 4 + i),
        decreases payload.len() - i,
    {
        frame.push(payload[i]);
        i = i + 1;
    }
    assert(frame@ == frame_head(address, seq![command] + payload@));
    push_checksum(&mut frame);
    Ok(frame)
}

/// The frame by which the master acknowledges (`ack`) or rejects (`!ack`)
/// what it received from `address`.
pub open spec fn acknowledgment_spec(address: u8, ack: bool) -> Seq<u8> {
    frame_spec(address, if ack { ACK } else { NACK }, Seq::<u8>::empty())
}

/// Builds the acknowledgment frame for `address`.
pub fn send_ack(address: u8, ack: bool) -> (frame: Vec<u8>)
    ensures
        frame@ == acknowledgment_spec(address, ack),
{
    let mut frame: Vec<u8> = Vec::new();
    frame.push(SYNC);
    frame.push(address);
    frame.push(MIN_FRAME_LEN as u8);
    frame.push(if ack { ACK } else { NACK });
    assert(frame@ == frame_head(
        address,
        seq![if ack { ACK } else { NACK }] + Seq::<u8>::empty(),
    ));
    push_checksum(&mut frame);
    frame
}

/// Reads a whole frame that answers a request sent to `expected_address`.
pub fn decode_response(bytes: &[u8], expected_address: u8) -> (r: Result<Response, CcnetError>)
    ensures
        result_view(r) == decode_response_spec(bytes@, expected_address),
{
    let n = bytes.len();
    if n < 2 {
        return Err(CcnetError::FrameTooShort);
    }
    if bytes[1] != expected_address {
        return Err(CcnetError::AddressMismatch);
    }
    if n < 3 || (bytes[2] as usize) < MIN_FRAME_LEN {
        return Err(CcnetError::FrameTooShort);
    }
    if n != bytes[2] as usize {
        return Err(CcnetError::LengthMismatch);
    }
    let computed = crc16(slice_subrange(bytes, 0, n - 2));
    let carried: u16 = bytes[n - 2] as u16 + 256 * (bytes[n - 1] as u16);
    if computed != carried {
        return Err(CcnetError::IntegrityError);
    }
    let body = slice_to_vec(slice_subrange(bytes, 3, n - 2));
    if body.len() == 1 && body[0] == ACK {
        Ok(Response::Ack)
    } else if body.len() == 1 && body[0] == NACK {
        Ok(Response::Nack)
    } else {
        Ok(Response::Message(body))
    }
}

/// Round trip: the frame of a body of 1 to 250 bytes, sent from `address`,
/// is read back as that body. A body of the single byte `ACK` or `NACK` is
/// read as that acknowledgment, every other body as a message.
pub proof fn lemma_round_trip(address: u8, body: Seq<u8>)
    requires
        1 <= body.len() <= MAX_PAYLOAD,
    ensures
        decode_response_spec(frame_of(address, body), address) == Ok::<ResponseView, CcnetError>(
            classify(body),
        ),
        body_of(classify(body)) == body,
{
    let head = frame_head(address, body);
    let frame = frame_of(address, body);
    assert(frame.subrange(0, frame.len() - 2) =~= head);
    assert(frame.subrange(3, frame.len() - 2) =~= body);
}

/// Round trip of a request frame: it is read back as its command byte
/// followed by its payload, for every payload of up to 249 bytes. With 250
/// bytes the frame has 256, which its length byte cannot state.
pub proof fn lemma_decode_encoded(address: u8, command: u8, payload: Seq<u8>)
    requires
        payload.len() < MAX_PAYLOAD,
    ensures
        decode_response_spec(frame_spec(address, command, payload), address) == Ok::<
            ResponseView,
            CcnetError,
        >(classify(seq![command] + payload)),
{
    lemma_round_trip(address, seq![command] + payload);
}

/// A frame never declares the length of a body of more than 250 bytes: the
/// frame of a request with the largest payload declares a length of zero and
/// is refused as too short.
pub proof fn lemma_largest_request_is_not_read_back(address: u8, command: u8, payload: Seq<u8>)
    requires
        payload.len() == MAX_PAYLOAD,
    ensures
        decode_response_spec(frame_spec(address, command, payload), address) == Err::<
            ResponseView,
            CcnetError,
        >(CcnetError::FrameTooShort),
{
}

/// Whatever decodes is a sound frame from the expected address: it has the
/// length that it declares, at least six bytes, it carries the checksum of
/// its bytes, and the response stands for its body.
pub proof fn lemma_decoded_is_sound(bytes: Seq<u8>, expected_address: u8)
    requires
        decode_response_spec(bytes, expected_address) is Ok,
    ensures
        bytes.len() >= MIN_FRAME_LEN,
        bytes.len() == bytes[2],
        bytes[1] == expected_address,
        crc16_spec(bytes.subrange(0, bytes.len() - 2)) == carried_checksum(bytes),
        body_of(decode_response_spec(bytes, expected_address)->Ok_0) == bytes.subrange(
            3,
            bytes.len() - 2,
        ),
        !(decode_response_spec(bytes, expected_address)->Ok_0 is IncCmd),
{
}

/// A frame whose address byte is not the one the request went to never
/// decodes: it is refused as an address mismatch.
pub proof fn lemma_foreign_address_refused(bytes: Seq<u8>, expected_address: u8)
    requires
        bytes.len() >= 2,
        bytes[1] != expected_address,
    ensures
        decode_response_spec(bytes, expected_address) == Err::<ResponseView, CcnetError>(
            CcnetError::AddressMismatch,
        ),
{
}

} // verus!
