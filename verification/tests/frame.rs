use kiosk_devices::crc::crc16;
use kiosk_devices::error::CcnetError;
use kiosk_devices::frame::decode_response;
use kiosk_devices::frame::encode;
use kiosk_devices::frame::send_ack;
use kiosk_devices::frame::Response;
use kiosk_devices::frame::ACK;
use kiosk_devices::frame::FRAME_OVERHEAD;
use kiosk_devices::frame::MIN_FRAME_LEN;
use kiosk_devices::frame::INC_CMD;
use kiosk_devices::frame::MAX_PAYLOAD;
use kiosk_devices::frame::NACK;
use kiosk_devices::frame::SYNC;

fn response_frame(addr: u8, body: &[u8]) -> Vec<u8> {
    encode(addr, body[0], &body[1..]).unwrap()
}

#[test]
fn frame_constants() {
    assert_eq!(SYNC, 0x02);
    assert_eq!(ACK, 0x00);
    assert_eq!(NACK, 0xFF);
    assert_eq!(INC_CMD, 0xFF);
    assert_eq!(MAX_PAYLOAD, 250);
    assert_eq!(FRAME_OVERHEAD, 5);
    assert_eq!(MIN_FRAME_LEN, 6);
}

#[test]
fn encode_poll_request() {
    assert_eq!(encode(3, 0x33, &[]), Ok(vec![0x02, 0x03, 0x06, 0x33, 0x62, 0x2E]));
}

#[test]
fn encode_lays_out_payload_and_checksum() {
    let frame = encode(0x10, 0x41, &[1, 2, 3]).unwrap();
    assert_eq!(frame.len(), 9);
    assert_eq!(&frame[..7], &[0x02, 0x10, 9, 0x41, 1, 2, 3]);
    let crc = crc16(&frame[..7]);
    assert_eq!(frame[7], (crc & 0xFF) as u8);
    assert_eq!(frame[8], (crc >> 8) as u8);
}

#[test]
fn encode_refuses_251_bytes() {
    let payload = vec![0u8; 251];
    assert_eq!(encode(3, 0x33, &payload), Err(CcnetError::PayloadTooLarge));
    let payload = vec![0u8; 1000];
    assert_eq!(encode(3, 0x33, &payload), Err(CcnetError::PayloadTooLarge));
}

#[test]
fn encode_takes_250_bytes_and_wraps_the_length_byte() {
    let payload = vec![0xABu8; 250];
    let frame = encode(3, 0x33, &payload).unwrap();
    assert_eq!(frame.len(), 256);
    assert_eq!(frame[2], 0);
    let payload = vec![0xABu8; 249];
    let frame = encode(3, 0x33, &payload).unwrap();
    assert_eq!(frame.len(), 255);
    assert_eq!(frame[2], 255);
}

#[test]
fn send_ack_frames() {
    assert_eq!(send_ack(3, true), vec![0x02, 0x03, 0x06, 0x00, 0xE3, 0xBB]);
    assert_eq!(send_ack(3, false), vec![0x02, 0x03, 0x06, 0xFF, 0xDF, 0xFE]);
    assert_eq!(send_ack(7, true), encode(7, ACK, &[]).unwrap());
    assert_eq!(send_ack(7, false), encode(7, NACK, &[]).unwrap());
}

#[test]
fn decode_bare_acknowledgments() {
    assert_eq!(decode_response(&[0x02, 0x03, 0x06, 0x00, 0xE3, 0xBB], 3), Ok(Response::Ack));
    assert_eq!(decode_response(&[0x02, 0x03, 0x06, 0xFF, 0xDF, 0xFE], 3), Ok(Response::Nack));
}

#[test]
fn decode_one_byte_message() {
    assert_eq!(
        decode_response(&[0x02, 0x03, 0x06, 0x14, 0x3E, 0x67], 3),
        Ok(Response::Message(vec![0x14]))
    );
}

#[test]
fn decode_longer_message() {
    assert_eq!(
        decode_response(&[0x02, 0x03, 0x07, 0x80, 0x07, 0x7E, 0x73], 3),
        Ok(Response::Message(vec![0x80, 0x07]))
    );
    // Two bytes that would each be an acknowledgment alone are a message.
    let frame = response_frame(3, &[0x00, 0xFF]);
    assert_eq!(decode_response(&frame, 3), Ok(Response::Message(vec![0x00, 0xFF])));
}

#[test]
fn decode_refuses_foreign_address() {
    let frame = [0x02, 0x03, 0x06, 0x14, 0x3E, 0x67];
    for addr in 0..=255u8 {
        if addr != 3 {
            assert_eq!(decode_response(&frame, addr), Err(CcnetError::AddressMismatch));
        }
    }
    // The address is looked at before anything else.
    assert_eq!(decode_response(&[0x02, 0x04], 3), Err(CcnetError::AddressMismatch));
    assert_eq!(decode_response(&[0x02, 0x04, 0x02], 3), Err(CcnetError::AddressMismatch));
}

#[test]
fn decode_refuses_short_frames() {
    assert_eq!(decode_response(&[], 3), Err(CcnetError::FrameTooShort));
    assert_eq!(decode_response(&[0x02], 3), Err(CcnetError::FrameTooShort));
    assert_eq!(decode_response(&[0x02, 0x03], 3), Err(CcnetError::FrameTooShort));
    assert_eq!(decode_response(&[0x02, 0x03, 0x05, 0x00, 0x00], 3), Err(CcnetError::FrameTooShort));
    assert_eq!(decode_response(&[0x02, 0x03, 0x00], 3), Err(CcnetError::FrameTooShort));
}

#[test]
fn decode_refuses_wrong_byte_count() {
    assert_eq!(
        decode_response(&[0x02, 0x03, 0x07, 0x14, 0x3E, 0x67], 3),
        Err(CcnetError::LengthMismatch)
    );
    assert_eq!(
        decode_response(&[0x02, 0x03, 0x06, 0x14, 0x3E, 0x67, 0x00], 3),
        Err(CcnetError::LengthMismatch)
    );
}

#[test]
fn decode_refuses_wrong_checksum() {
    assert_eq!(
        decode_response(&[0x02, 0x03, 0x06, 0x14, 0x3F, 0x67], 3),
        Err(CcnetError::IntegrityError)
    );
    assert_eq!(
        decode_response(&[0x02, 0x03, 0x06, 0x14, 0x3E, 0x66], 3),
        Err(CcnetError::IntegrityError)
    );
    assert_eq!(
        decode_response(&[0x02, 0x03, 0x06, 0x18, 0x3E, 0x67], 3),
        Err(CcnetError::IntegrityError)
    );
}

#[test]
fn round_trip_of_every_length() {
    for addr in [0u8, 1, 3, 0x7F, 0xFF] {
        for len in 0..=249usize {
            let payload: Vec<u8> = (0..len).map(|i| (i * 7 + len) as u8).collect();
            let frame = encode(addr, 0x41, &payload).unwrap();
            let mut body = vec![0x41u8];
            body.extend_from_slice(&payload);
            assert_eq!(decode_response(&frame, addr), Ok(Response::Message(body)));
        }
    }
}

#[test]
fn round_trip_of_acknowledgments() {
    assert_eq!(decode_response(&send_ack(9, true), 9), Ok(Response::Ack));
    assert_eq!(decode_response(&send_ack(9, false), 9), Ok(Response::Nack));
}

#[test]
fn round_trip_fails_at_250_bytes() {
    // 256 bytes cannot be declared in one byte: the frame declares 0.
    let payload = vec![1u8; 250];
    let frame = encode(3, 0x41, &payload).unwrap();
    assert_eq!(decode_response(&frame, 3), Err(CcnetError::FrameTooShort));
}
