use insteon::command::{Command, GroupNumber, OnPayload};
use insteon::device::Address;
use insteon::message::{Button, ButtonEvent, Config, LinkData, LinkResult, Message, Response};
use insteon::x10::{HouseCode, Message as X10Message, Payload, UnitCode};
use insteon::{decode_message, decode_response, UnsupportedOpcode};

fn frame(op: u8, payload: &[u8]) -> Vec<u8> {
    let mut v = vec![0x02, op];
    v.extend_from_slice(payload);
    v
}

fn message(op: u8, payload: &[u8]) -> Option<Message> {
    let bytes = frame(op, payload);
    let found = decode_message(&bytes);
    if let Some((_, end)) = found {
        assert_eq!(end, bytes.len());
    }
    found.map(|(m, _)| m)
}

fn response(op: u8, payload: &[u8]) -> Option<Response> {
    let bytes = frame(op, payload);
    let found = decode_response(&bytes).unwrap();
    if let Some((_, end)) = found {
        assert_eq!(end, bytes.len());
    }
    found.map(|(r, _)| r)
}

#[test]
fn standard_message_frame() {
    assert_eq!(
        message(0x50, &[0x11, 0x22, 0x33, 0x11, 0x05, 0x2B]),
        Some(Message::Received(
            Address([0x11, 0x22, 0x33]),
            Some(Command::On(OnPayload::GroupNumber(GroupNumber(5)))),
            0x2B,
            None
        ))
    );
}

#[test]
fn extended_message_frame() {
    let mut payload = vec![0xA1, 0xA2, 0xA3, 0x13, 0x00, 0x10];
    payload.extend(1u8..=14);
    let mut data = [0u8; 14];
    for (i, d) in data.iter_mut().enumerate() {
        *d = i as u8 + 1;
    }
    assert_eq!(
        message(0x51, &payload),
        Some(Message::Received(
            Address([0xA1, 0xA2, 0xA3]),
            Some(Command::Off(None)),
            0x10,
            Some(data)
        ))
    );
}

#[test]
fn extended_message_with_unknown_command() {
    let mut payload = vec![1, 2, 3, 0xEE, 0xEE, 0x00];
    payload.extend([9u8; 14]);
    assert_eq!(
        message(0x51, &payload),
        Some(Message::Received(Address([1, 2, 3]), None, 0x00, Some([9u8; 14])))
    );
}

#[test]
fn x10_message_frame() {
    assert_eq!(
        message(0x52, &[0x66, 0x00, 0x06]),
        Some(Message::X10Received(X10Message {
            house: HouseCode::A,
            payload: Payload::UnitCode(UnitCode(1)),
            success: true
        }))
    );
}

#[test]
fn link_complete_frame() {
    let bytes = [0x01, 0x03, 0x44, 0x55, 0x66, 0x01, 0x20, 0xFF];
    assert_eq!(message(0x53, &bytes), Some(Message::LinkComplete(LinkResult::from(bytes))));
}

#[test]
fn button_event_frame() {
    assert_eq!(
        message(0x54, &[0x23]),
        Some(Message::ButtonEvent(ButtonEvent::Held(Button::Three)))
    );
}

#[test]
fn user_reset_frame() {
    assert_eq!(message(0x55, &[]), Some(Message::UserResetDetected));
}

#[test]
fn link_cleanup_failed_frame() {
    assert_eq!(
        message(0x56, &[0x01, 0x04, 0x0A, 0x0B, 0x0C]),
        Some(Message::LinkCleanupFailed(0x04, Address([0x0A, 0x0B, 0x0C])))
    );
}

#[test]
fn link_record_response_frame() {
    assert_eq!(
        message(0x57, &[0xE2, 0x01, 0x0A, 0x0B, 0x0C, 0x07, 0x08, 0x09]),
        Some(Message::LinkRecordResponse(
            0xE2,
            0x01,
            Address([0x0A, 0x0B, 0x0C]),
            LinkData { data: [0x07, 0x08, 0x09] }
        ))
    );
}

#[test]
fn link_cleanup_status_frame() {
    assert_eq!(message(0x58, &[0x06]), Some(Message::LinkCleanupStatus(true)));
    assert_eq!(message(0x58, &[0x15]), Some(Message::LinkCleanupStatus(false)));
}

#[test]
fn database_record_found_frame() {
    assert_eq!(
        message(0x59, &[0x0F, 0xF8, 0xA2, 0x03, 0x0A, 0x0B, 0x0C, 0x07, 0x08, 0x09]),
        Some(Message::DatabaseRecordFound(
            [0x0F, 0xF8],
            0xA2,
            0x03,
            Address([0x0A, 0x0B, 0x0C]),
            LinkData { data: [0x07, 0x08, 0x09] }
        ))
    );
}

#[test]
fn unknown_opcode_is_skipped() {
    let stream = [0x02, 0xFF, 0x02, 0x50, 1, 2, 3, 0x19, 0x00, 0x0F];
    assert_eq!(
        decode_message(&stream),
        Some((
            Message::Received(Address([1, 2, 3]), Some(Command::StatusRequest), 0x0F, None),
            10
        ))
    );
}

#[test]
fn noise_before_start_is_skipped() {
    let stream = [0x00, 0x50, 0x13, 0x02, 0x55, 0x02, 0x58];
    assert_eq!(decode_message(&stream), Some((Message::UserResetDetected, 5)));
}

#[test]
fn start_byte_as_opcode_is_consumed() {
    // The second 0x02 is read as an (unknown) opcode, so 0x55 is not a frame.
    assert_eq!(decode_message(&[0x02, 0x02, 0x55]), None);
    assert_eq!(decode_message(&[0x02, 0x02, 0x55, 0x02, 0x55]), Some((Message::UserResetDetected, 5)));
}

#[test]
fn bad_button_code_is_skipped() {
    let stream = [0x02, 0x54, 0x99, 0x02, 0x54, 0x02];
    assert_eq!(
        decode_message(&stream),
        Some((Message::ButtonEvent(ButtonEvent::Tapped(Button::SetButton)), 6))
    );
}

#[test]
fn bad_x10_payload_is_skipped() {
    let stream = [0x02, 0x52, 0x66, 0x01, 0x06, 0x02, 0x55];
    assert_eq!(decode_message(&stream), Some((Message::UserResetDetected, 7)));
    assert_eq!(message(0x52, &[0x66, 0x01, 0x06]), None);
}

#[test]
fn incomplete_frames_give_nothing() {
    assert_eq!(decode_message(&[]), None);
    assert_eq!(decode_message(&[0x02]), None);
    assert_eq!(decode_message(&[0x02, 0x50, 1, 2, 3, 4, 5]), None);
    assert_eq!(decode_response(&[0x02, 0x60, 1, 2]), Ok(None));
}

#[test]
fn response_frames() {
    assert_eq!(
        response(0x60, &[1, 2, 3, 0x02, 0x1F, 0xFF]),
        Some(Response::GotInfo(Address([1, 2, 3]), [0x02, 0x1F], None))
    );
    assert_eq!(
        response(0x60, &[1, 2, 3, 0x02, 0x1F, 0x41]),
        Some(Response::GotInfo(Address([1, 2, 3]), [0x02, 0x1F], Some(0x41)))
    );
    assert_eq!(response(0x61, &[4, 0x11, 0x00]), Some(Response::SentLinkCommand(4, 0x11, 0x00)));
    assert_eq!(
        response(0x63, &[0x62, 0x80, 0x06]),
        Some(Response::SentX10(X10Message {
            house: HouseCode::A,
            payload: Payload::Command(insteon::x10::Command::On),
            success: true
        }))
    );
    assert_eq!(response(0x63, &[0x62, 0x81, 0x06]), None);
    assert_eq!(response(0x64, &[0x01, 0x09]), Some(Response::StartedLink(0x01, 0x09)));
    assert_eq!(response(0x65, &[]), Some(Response::CanceledLink));
    assert_eq!(response(0x66, &[0x02, 0x1F, 0x00]), Some(Response::SetCategory([0x02, 0x1F], None)));
    assert_eq!(response(0x66, &[0x02, 0x1F, 0x33]), Some(Response::SetCategory([0x02, 0x1F], Some(0x33))));
    assert_eq!(response(0x67, &[]), Some(Response::Reset));
    assert_eq!(response(0x68, &[0x42]), Some(Response::SetAckByte(0x42)));
    assert_eq!(response(0x69, &[]), Some(Response::GotFirstLinkRecord));
    assert_eq!(response(0x6A, &[]), Some(Response::GotNextLinkRecord));
    assert_eq!(response(0x6B, &[0x40]), Some(Response::SetConfig(Config::from(0x40))));
    assert_eq!(response(0x6C, &[]), Some(Response::GotSenderLinkRecord));
    assert_eq!(response(0x6D, &[]), Some(Response::LedOn));
    assert_eq!(response(0x6E, &[]), Some(Response::LedOff));
    assert_eq!(
        response(0x6F, &[0x40, 0xA2, 0x01, 7, 8, 9, 0x10, 0x20, 0x30]),
        Some(Response::UpdatedLinkRecord(0x40, 0xA2, 0x01, Address([7, 8, 9]), [0x10, 0x20, 0x30]))
    );
    assert_eq!(response(0x70, &[0x15]), Some(Response::SetNakByte(0x15)));
    assert_eq!(response(0x71, &[0x01, 0x02]), Some(Response::SetAckBytes([0x01, 0x02])));
    assert_eq!(response(0x72, &[]), Some(Response::Sleeping));
    let cfg = Config { auto_link: false, monitor: false, manual_led: true, timeout: true, busy_reject: false };
    assert_eq!(response(0x73, &[0xA0, 0x55, 0x66]), Some(Response::GotConfig(cfg)));
}

#[test]
fn undefined_response_is_unsupported() {
    assert_eq!(decode_response(&[0x02, 0x62]), Err(UnsupportedOpcode(0x62)));
    assert_eq!(decode_response(&[0x7F, 0x02, 0x62, 1, 2, 3]), Err(UnsupportedOpcode(0x62)));
}

#[test]
fn message_opcodes_are_not_responses() {
    assert_eq!(decode_response(&[0x02, 0x55, 0x02, 0x65]), Ok(Some((Response::CanceledLink, 4))));
    assert_eq!(decode_message(&[0x02, 0x65, 0x02, 0x55]), Some((Message::UserResetDetected, 4)));
}

#[test]
fn growing_buffer_finds_the_same_frame() {
    let stream = [0x13, 0x02, 0xFF, 0x02, 0x56, 0x01, 0x04, 0x0A, 0x0B, 0x0C, 0x02, 0x55];
    let mut found = None;
    for n in 0..=stream.len() {
        if let Some(hit) = decode_message(&stream[..n]) {
            found = Some((n, hit));
            break;
        }
    }
    let (n, hit) = found.unwrap();
    assert_eq!(n, 10);
    assert_eq!(hit, (Message::LinkCleanupFailed(0x04, Address([0x0A, 0x0B, 0x0C])), 10));
    assert_eq!(decode_message(&stream), Some(hit));
    let responses = [0x02, 0x62, 0x02, 0x65];
    assert_eq!(decode_response(&responses[..2]), decode_response(&responses));
}
