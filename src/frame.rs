//! Frame synchronization and the per-opcode decoders.
//!
//! Every frame starts with the byte 0x02, followed by one opcode byte and a
//! payload whose length the opcode alone determines. The scanners here read a
//! buffer from its start the way a reader pulls bytes from a stream: they skip
//! bytes until a start byte, read the opcode, and then either decode the
//! payload or, for an unknown opcode or a payload that does not decode, drop
//! what was read for that frame and look for the next start byte.
use vstd::prelude::*;
use crate::button::{button_event_from_code, ButtonEvent};
use crate::command::{command_from_bytes, Command};
use crate::device::Address;
use crate::link::{firmware_from_byte, link_result_from_bytes, LinkData, LinkResult};
use crate::message::{config_from_byte, Config, Message, Response};
use crate::x10::{x10_from_bytes, Message as X10Message};

verus! {

/// The byte that starts every frame.
pub const START: u8 = 0x02;

/// The acknowledgement opcode whose payload layout is not defined.
pub const SEND_LINK_COMMAND: u8 = 0x62;

/// An acknowledgement opcode that this library cannot decode.
#[derive(Clone, Copy, Debug, PartialEq, Eq, Hash, Structural)]
pub struct UnsupportedOpcode(pub u8);

/// The payload length of each message opcode; `None` for an opcode that is not
/// a message.
pub open spec fn message_payload_len(op: u8) -> Option<nat> {
    match op {
        0x50 => Some(6),
        0x51 => Some(20),
        0x52 => Some(3),
        0x53 => Some(8),
        0x54 => Some(1),
        0x55 => Some(0),
        0x56 => Some(5),
        0x57 => Some(8),
        0x58 => Some(1),
        0x59 => Some(10),
        _ => None,
    }
}

/// The message that a payload of the right length decodes to under a message
/// opcode; `None` where an X10 payload or a button code does not decode.
pub open spec fn message_from_payload(op: u8, p: Seq<u8>) -> Option<Message> {
    if op == 0x50 {
        Some(Message::Received(Address([p[0], p[1], p[2]]), command_from_bytes(p[3], p[4]), p[5], None))
    } else if op == 0x51 {
        Some(
            Message::Received(
                Address([p[0], p[1], p[2]]),
                command_from_bytes(p[3], p[4]),
                p[5],
                Some([p[6], p[7], p[8], p[9], p[10], p[11], p[12], p[13], p[14], p[15], p[16], p[17], p[18], p[19]]),
            ),
        )
    } else if op == 0x52 {
        match x10_from_bytes(p[0], p[1], p[2]) {
            Some(x) => Some(Message::X10Received(x)),
            None => None,
        }
    } else if op == 0x53 {
        Some(Message::LinkComplete(link_result_from_bytes([p[0], p[1], p[2], p[3], p[4], p[5], p[6], p[7]])))
    } else if op == 0x54 {
        match button_event_from_code(p[0]) {
            Some(e) => Some(Message::ButtonEvent(e)),
            None => None,
        }
    } else if op == 0x55 {
        Some(Message::UserResetDetected)
    } else if op == 0x56 {
        Some(Message::LinkCleanupFailed(p[1], Address([p[2], p[3], p[4]])))
    } else if op == 0x57 {
        Some(Message::LinkRecordResponse(p[0], p[1], Address([p[2], p[3], p[4]]), LinkData { data: [p[5], p[6], p[7]] }))
    } else if op == 0x58 {
        Some(Message::LinkCleanupStatus(p[0] == 0x06))
    } else if op == 0x59 {
        Some(
            Message::DatabaseRecordFound(
                [p[0], p[1]],
                p[2],
                p[3],
                Address([p[4], p[5], p[6]]),
                LinkData { data: [p[7], p[8], p[9]] },
            ),
        )
    } else {
        None
    }
}

/// The payload length of each acknowledgement opcode; `None` for an opcode that
/// is not an acknowledgement, and for the one whose layout is not defined.
pub open spec fn response_payload_len(op: u8) -> Option<nat> {
    match op {
        0x60 => Some(6),
        0x61 => Some(3),
        0x63 => Some(3),
        0x64 => Some(2),
        0x65 => Some(0),
        0x66 => Some(3),
        0x67 => Some(0),
        0x68 => Some(1),
        0x69 => Some(0),
        0x6A => Some(0),
        0x6B => Some(1),
        0x6C => Some(0),
        0x6D => Some(0),
        0x6E => Some(0),
        0x6F => Some(9),
        0x70 => Some(1),
        0x71 => Some(2),
        0x72 => Some(0),
        0x73 => Some(3),
        _ => None,
    }
}

/// The category firmware byte, where zero means that none applies.
pub open spec fn category_firmware(b: u8) -> Option<u8> {
    if b == 0x00 {
        None
    } else {
        Some(b)
    }
}

/// The acknowledgement that a payload of the right length decodes to under an
/// acknowledgement opcode; `None` where an X10 payload does not decode.
pub open spec fn response_from_payload(op: u8, p: Seq<u8>) -> Option<Response> {
    if op == 0x60 {
        Some(Response::GotInfo(Address([p[0], p[1], p[2]]), [p[3], p[4]], firmware_from_byte(p[5])))
    } else if op == 0x61 {
        Some(Response::SentLinkCommand(p[0], p[1], p[2]))
    } else if op == 0x63 {
        match x10_from_bytes(p[0], p[1], p[2]) {
            Some(x) => Some(Response::SentX10(x)),
            None => None,
        }
    } else if op == 0x64 {
        Some(Response::StartedLink(p[0], p[1]))
    } else if op == 0x65 {
        Some(Response::CanceledLink)
    } else if op == 0x66 {
        Some(Response::SetCategory([p[0], p[1]], category_firmware(p[2])))
    } else if op == 0x67 {
        Some(Response::Reset)
    } else if op == 0x68 {
        Some(Response::SetAckByte(p[0]))
    } else if op == 0x69 {
        Some(Response::GotFirstLinkRecord)
    } else if op == 0x6A {
        Some(Response::GotNextLinkRecord)
    } else if op == 0x6B {
        Some(Response::SetConfig(config_from_byte(p[0])))
    } else if op == 0x6C {
        Some(Response::GotSenderLinkRecord)
    } else if op == 0x6D {
        Some(Response::LedOn)
    } else if op == 0x6E {
        Some(Response::LedOff)
    } else if op == 0x6F {
        Some(Response::UpdatedLinkRecord(p[0], p[1], p[2], Address([p[3], p[4], p[5]]), [p[6], p[7], p[8]]))
    } else if op == 0x70 {
        Some(Response::SetNakByte(p[0]))
    } else if op == 0x71 {
        Some(Response::SetAckBytes([p[0], p[1]]))
    } else if op == 0x72 {
        Some(Response::Sleeping)
    } else if op == 0x73 {
        Some(Response::GotConfig(config_from_byte(p[0])))
    } else {
        None
    }
}

/// The first message in `s` from position `i` on, with the position just past
/// its frame; `None` where the bytes run out before a frame decodes.
pub open spec fn scan_messages(s: Seq<u8>, i: int) -> Option<(Message, int)>
    decreases s.len() - i,
{
    if i < 0 || i >= s.len() {
        None
    } else if s[i] != START {
        scan_messages(s, i + 1)
    } else if i + 1 >= s.len() {
        None
    } else {
        match message_payload_len(s[i + 1]) {
            None => scan_messages(s, i + 2),
            Some(n) => if i + 2 + n > s.len() {
                None
            } else {
                match message_from_payload(s[i + 1], s.subrange(i + 2, i + 2 + n)) {
                    Some(m) => Some((m, i + 2 + n)),
                    None => scan_messages(s, i + 2 + n),
                }
            },
        }
    }
}

/// The first acknowledgement in `s` from position `i` on, with the position
/// just past its frame; `Ok(None)` where the bytes run out before a frame
/// decodes, and an error where a frame with the undefined opcode comes first.
pub open spec fn scan_responses(s: Seq<u8>, i: int) -> Result<Option<(Response, int)>, UnsupportedOpcode>
    decreases s.len() - i,
{
    if i < 0 || i >= s.len() {
        Ok(None)
    } else if s[i] != START {
        scan_responses(s, i + 1)
    } else if i + 1 >= s.len() {
        Ok(None)
    } else if s[i + 1] == SEND_LINK_COMMAND {
        Err(UnsupportedOpcode(SEND_LINK_COMMAND))
    } else {
        match response_payload_len(s[i + 1]) {
            None => scan_responses(s, i + 2),
            Some(n) => if i + 2 + n > s.len() {
                Ok(None)
            } else {
                match response_from_payload(s[i + 1], s.subrange(i + 2, i + 2 + n)) {
                    Some(r) => Ok(Some((r, i + 2 + n))),
                    None => scan_responses(s, i + 2 + n),
                }
            },
        }
    }
}

/// The payload length of a message opcode, if it is one.
pub fn message_len(op: u8) -> (r: Option<usize>)
    ensures
        r is Some == message_payload_len(op) is Some,
        r matches Some(n) ==> message_payload_len(op) == Some(n as nat),
{
    match op {
        0x50 => Some(6),
        0x51 => Some(20),
        0x52 => Some(3),
        0x53 => Some(8),
        0x54 => Some(1),
        0x55 => Some(0),
        0x56 => Some(5),
        0x57 => Some(8),
        0x58 => Some(1),
        0x59 => Some(10),
        _ => None,
    }
}

/// The payload length of an acknowledgement opcode, if it is one whose layout is defined.
pub fn response_len(op: u8) -> (r: Option<usize>)
    ensures
        r is Some == response_payload_len(op) is Some,
        r matches Some(n) ==> response_payload_len(op) == Some(n as nat),
{
    match op {
        0x60 => Some(6),
        0x61 => Some(3),
        0x63 => Some(3),
        0x64 => Some(2),
        0x65 => Some(0),
        0x66 => Some(3),
        0x67 => Some(0),
        0x68 => Some(1),
        0x69 => Some(0),
        0x6A => Some(0),
        0x6B => Some(1),
        0x6C => Some(0),
        0x6D => Some(0),
        0x6E => Some(0),
        0x6F => Some(9),
        0x70 => Some(1),
        0x71 => Some(2),
        0x72 => Some(0),
        0x73 => Some(3),
        _ => None,
    }
}

/// The address held by three bytes of `buf` from `at` on.
fn address_at(buf: &[u8], at: usize) -> (r: Address)
    requires
        at + 3 <= buf@.len(),
    ensures
        r == Address([buf@[at as int], buf@[at + 1], buf@[at + 2]]),
{
    Address([buf[at], buf[at + 1], buf[at + 2]])
}

/// Decodes the payload of a message that starts at `at` in `buf`.
pub fn decode_message_payload(op: u8, buf: &[u8], at: usize) -> (r: Option<Message>)
    requires
        message_payload_len(op) matches Some(n) && at + n <= buf@.len(),
    ensures
        r == message_from_payload(op, buf@.subrange(at as int, at + message_payload_len(op)->0)),
{
    // The payload lies inside the slice, so no index below overflows.
    let len = buf.len();
    assert(at + message_payload_len(op)->0 <= len);
    match op {
        0x50 => Some(
            Message::Received(
                address_at(buf, at),
                Command::try_from([buf[at + 3], buf[at + 4]]),
                buf[at + 5],
                None,
            ),
        ),
        0x51 => Some(
            Message::Received(
                address_at(buf, at),
                Command::try_from([buf[at + 3], buf[at + 4]]),
                buf[at + 5],
                Some([buf[at + 6], buf[at + 7], buf[at + 8], buf[at + 9], buf[at + 10], buf[at + 11], buf[at + 12], buf[at + 13], buf[at + 14], buf[at + 15], buf[at + 16], buf[at + 17], buf[at + 18], buf[at + 19]]),
            ),
        ),
        0x52 => match X10Message::try_from([buf[at], buf[at + 1], buf[at + 2]]) {
            Some(x) => Some(Message::X10Received(x)),
            None => None,
        },
        0x53 => Some(Message::LinkComplete(LinkResult::from([buf[at], buf[at + 1], buf[at + 2], buf[at + 3], buf[at + 4], buf[at + 5], buf[at + 6], buf[at + 7]]))),
        0x54 => match ButtonEvent::from_code(buf[at]) {
            Some(e) => Some(Message::ButtonEvent(e)),
            None => None,
        },
        0x55 => Some(Message::UserResetDetected),
        0x56 => Some(Message::LinkCleanupFailed(buf[at + 1], address_at(buf, at + 2))),
        0x57 => Some(
            Message::LinkRecordResponse(
                buf[at],
                buf[at + 1],
                address_at(buf, at + 2),
                LinkData { data: [buf[at + 5], buf[at + 6], buf[at + 7]] },
            ),
        ),
        0x58 => Some(Message::LinkCleanupStatus(buf[at] == 0x06)),
        _ => Some(
            Message::DatabaseRecordFound(
                [buf[at], buf[at + 1]],
                buf[at + 2],
                buf[at + 3],
                address_at(buf, at + 4),
                LinkData { data: [buf[at + 7], buf[at + 8], buf[at + 9]] },
            ),
        ),
    }
}

/// Decodes the payload of an acknowledgement that starts at `at` in `buf`.
pub fn decode_response_payload(op: u8, buf: &[u8], at: usize) -> (r: Option<Response>)
    requires
        response_payload_len(op) matches Some(n) && at + n <= buf@.len(),
    ensures
        r == response_from_payload(op, buf@.subrange(at as int, at + response_payload_len(op)->0)),
{
    // The payload lies inside the slice, so no index below overflows.
    let len = buf.len();
    assert(at + response_payload_len(op)->0 <= len);
    match op {
        0x60 => {
            let version = buf[at + 5];
            let firmware = if version == 0xFF {
                None
            } else {
                Some(version)
            };
            Some(Response::GotInfo(address_at(buf, at), [buf[at + 3], buf[at + 4]], firmware))
        },
        0x61 => Some(Response::SentLinkCommand(buf[at], buf[at + 1], buf[at + 2])),
        0x63 => match X10Message::try_from([buf[at], buf[at + 1], buf[at + 2]]) {
            Some(x) => Some(Response::SentX10(x)),
            None => None,
        },
        0x64 => Some(Response::StartedLink(buf[at], buf[at + 1])),
        0x65 => Some(Response::CanceledLink),
        0x66 => {
            let firmware = buf[at + 2];
            let firmware = if firmware == 0x00 {
                None
            } else {
                Some(firmware)
            };
            Some(Response::SetCategory([buf[at], buf[at + 1]], firmware))
        },
        0x67 => Some(Response::Reset),
        0x68 => Some(Response::SetAckByte(buf[at])),
        0x69 => Some(Response::GotFirstLinkRecord),
        0x6A => Some(Response::GotNextLinkRecord),
        0x6B => Some(Response::SetConfig(Config::from(buf[at]))),
        0x6C => Some(Response::GotSenderLinkRecord),
        0x6D => Some(Response::LedOn),
        0x6E => Some(Response::LedOff),
        0x6F => Some(
            Response::UpdatedLinkRecord(
                buf[at],
                buf[at + 1],
                buf[at + 2],
                address_at(buf, at + 3),
                [buf[at + 6], buf[at + 7], buf[at + 8]],
            ),
        ),
        0x70 => Some(Response::SetNakByte(buf[at])),
        0x71 => Some(Response::SetAckBytes([buf[at], buf[at + 1]])),
        0x72 => Some(Response::Sleeping),
        _ => Some(Response::GotConfig(Config::from(buf[at]))),
    }
}

/// Finds and decodes the first message in `buf`, returning it with the
/// position just past its frame, or `None` if `buf` ends before a frame
/// decodes. Frames with an unknown opcode, an X10 payload that does not decode
/// or an unknown button code are skipped.
pub fn decode_message(buf: &[u8]) -> (r: Option<(Message, usize)>)
    ensures
        match scan_messages(buf@, 0) {
            Some((m, e)) => r == Some((m, e as usize)),
            None => r is None,
        },
{
    let mut i: usize = 0;
    while i < buf.len()
        invariant
            i <= buf@.len(),
            scan_messages(buf@, i as int) == scan_messages(buf@, 0),
        decreases buf@.len() - i,
    {
        if buf[i] != START {
            i = i + 1;
        } else if i + 1 >= buf.len() {
            return None;
        } else {
            let op = buf[i + 1];
            match message_len(op) {
                None => {
                    i = i + 2;
                },
                Some(n) => {
                    if n > buf.len() - (i + 2) {
                        return None;
                    }
                    match decode_message_payload(op, buf, i + 2) {
                        Some(m) => {
                            return Some((m, i + 2 + n));
                        },
                        None => {
                            i = i + 2 + n;
                        },
                    }
                },
            }
        }
    }
    None
}

/// Finds and decodes the first acknowledgement in `buf`, returning it with the
/// position just past its frame, or `Ok(None)` if `buf` ends before a frame
/// decodes. Frames with an unknown opcode or an X10 payload that does not
/// decode are skipped; a frame with the opcode whose layout is undefined is an
/// error.
pub fn decode_response(buf: &[u8]) -> (r: Result<Option<(Response, usize)>, UnsupportedOpcode>)
    ensures
        match scan_responses(buf@, 0) {
            Ok(Some((m, e))) => r == Ok::<Option<(Response, usize)>, UnsupportedOpcode>(Some((m, e as usize))),
            Ok(None) => r == Ok::<Option<(Response, usize)>, UnsupportedOpcode>(None),
            Err(u) => r == Err::<Option<(Response, usize)>, UnsupportedOpcode>(u),
        },
{
    let mut i: usize = 0;
    while i < buf.len()
        invariant
            i <= buf@.len(),
            scan_responses(buf@, i as int) == scan_responses(buf@, 0),
        decreases buf@.len() - i,
    {
        if buf[i] != START {
            i = i + 1;
        } else if i + 1 >= buf.len() {
            return Ok(None);
        } else {
            let op = buf[i + 1];
            if op == SEND_LINK_COMMAND {
                return Err(UnsupportedOpcode(SEND_LINK_COMMAND));
            }
            match response_len(op) {
                None => {
                    i = i + 2;
                },
                Some(n) => {
                    if n > buf.len() - (i + 2) {
                        return Ok(None);
                    }
                    match decode_response_payload(op, buf, i + 2) {
                        Some(m) => {
                            return Ok(Some((m, i + 2 + n)));
                        },
                        None => {
                            i = i + 2 + n;
                        },
                    }
                },
            }
        }
    }
    Ok(None)
}

/// A lone frame `[0x02, op, payload]` of a message opcode, with a payload of the
/// opcode's length, decodes to the message that the payload encodes, ending at
/// the end of the frame; where the payload does not decode, nothing is found.
pub proof fn lemma_single_message_frame(op: u8, p: Seq<u8>)
    requires
        message_payload_len(op) == Some(p.len()),
    ensures
        scan_messages(seq![START, op] + p, 0) == match message_from_payload(op, p) {
            Some(m) => Some((m, p.len() + 2int)),
            None => None::<(Message, int)>,
        },
{
    let s = seq![START, op] + p;
    assert(s.subrange(2, 2 + p.len() as int) =~= p);
    assert(s[0] == START && s[1] == op);
    if message_from_payload(op, p) is None {
        assert(scan_messages(s, 2 + p.len() as int) is None);
    }
}

/// A lone frame `[0x02, op, payload]` of an acknowledgement opcode, with a
/// payload of the opcode's length, decodes to the acknowledgement that the
/// payload encodes, ending at the end of the frame; where the payload does not
/// decode, nothing is found.
pub proof fn lemma_single_response_frame(op: u8, p: Seq<u8>)
    requires
        response_payload_len(op) == Some(p.len()),
    ensures
        scan_responses(seq![START, op] + p, 0) == match response_from_payload(op, p) {
            Some(r) => Ok(Some((r, p.len() + 2int))),
            None => Ok::<Option<(Response, int)>, UnsupportedOpcode>(None),
        },
{
    let s = seq![START, op] + p;
    assert(s.subrange(2, 2 + p.len() as int) =~= p);
    assert(s[0] == START && s[1] == op);
    assert(op != SEND_LINK_COMMAND);
    if response_from_payload(op, p) is None {
        assert(scan_responses(s, 2 + p.len() as int) == Ok::<Option<(Response, int)>, UnsupportedOpcode>(None));
    }
}

/// A frame with the undefined acknowledgement opcode is reported as
/// unsupported, whatever follows it.
pub proof fn lemma_unsupported_response(rest: Seq<u8>)
    ensures
        scan_responses(seq![START, SEND_LINK_COMMAND] + rest, 0) == Err::<Option<(Response, int)>, UnsupportedOpcode>(
            UnsupportedOpcode(SEND_LINK_COMMAND),
        ),
{
    let s = seq![START, SEND_LINK_COMMAND] + rest;
    assert(s[0] == START && s[1] == SEND_LINK_COMMAND);
}

/// A frame with an unknown opcode is skipped: after `[0x02, 0xFF]`, a standard
/// message frame decodes to the message built from its six payload bytes,
/// ending after them.
pub proof fn lemma_skips_unknown_opcode(b: Seq<u8>)
    requires
        b.len() == 6,
    ensures
        scan_messages(seq![START, 0xFFu8, START, 0x50u8] + b, 0) == Some(
            (
                Message::Received(
                    Address([b[0], b[1], b[2]]),
                    command_from_bytes(b[3], b[4]),
                    b[5],
                    None,
                ),
                10int,
            ),
        ),
{
    let s = seq![START, 0xFFu8, START, 0x50u8] + b;
    assert(s[0] == START && s[1] == 0xFFu8 && s[2] == START && s[3] == 0x50u8);
    assert(s.subrange(4, 10) =~= b);
    assert(scan_messages(s, 0) == scan_messages(s, 2));
}

/// An extended message frame of 20 payload bytes decodes with its last 14
/// bytes as the extended data, and its fourth and fifth bytes read as a
/// command, which is absent when they encode none.
pub proof fn lemma_extended_message(p: Seq<u8>)
    requires
        p.len() == 20,
    ensures
        scan_messages(seq![START, 0x51u8] + p, 0) == Some(
            (
                Message::Received(
                    Address([p[0], p[1], p[2]]),
                    command_from_bytes(p[3], p[4]),
                    p[5],
                    Some(
                        [
                            p[6], p[7], p[8], p[9], p[10], p[11], p[12],
                            p[13], p[14], p[15], p[16], p[17], p[18], p[19],
                        ],
                    ),
                ),
                22int,
            ),
        ),
{
    lemma_single_message_frame(0x51, p);
}

/// Bytes that arrive later do not change a message already found: a reader may
/// scan its buffer after each new byte and stop at the first message found.
pub proof fn lemma_scan_messages_extend(s: Seq<u8>, t: Seq<u8>, i: int)
    requires
        0 <= i,
        scan_messages(s, i) is Some,
    ensures
        scan_messages(s + t, i) == scan_messages(s, i),
    decreases s.len() - i,
{
    let u = s + t;
    assert(u[i] == s[i]);
    if s[i] != START {
        lemma_scan_messages_extend(s, t, i + 1);
    } else {
        assert(u[i + 1] == s[i + 1]);
        match message_payload_len(s[i + 1]) {
            None => {
                lemma_scan_messages_extend(s, t, i + 2);
            },
            Some(n) => {
                assert(u.subrange(i + 2, i + 2 + n) =~= s.subrange(i + 2, i + 2 + n));
                if message_from_payload(s[i + 1], s.subrange(i + 2, i + 2 + n)) is None {
                    lemma_scan_messages_extend(s, t, i + 2 + n);
                }
            },
        }
    }
}

/// Bytes that arrive later do not change an acknowledgement already found, nor
/// an unsupported frame already met.
pub proof fn lemma_scan_responses_extend(s: Seq<u8>, t: Seq<u8>, i: int)
    requires
        0 <= i,
        scan_responses(s, i) != Ok::<Option<(Response, int)>, UnsupportedOpcode>(None),
    ensures
        scan_responses(s + t, i) == scan_responses(s, i),
    decreases s.len() - i,
{
    let u = s + t;
    assert(u[i] == s[i]);
    if s[i] != START {
        lemma_scan_responses_extend(s, t, i + 1);
    } else {
        assert(u[i + 1] == s[i + 1]);
        if s[i + 1] != SEND_LINK_COMMAND {
            match response_payload_len(s[i + 1]) {
                None => {
                    lemma_scan_responses_extend(s, t, i + 2);
                },
                Some(n) => {
                    assert(u.subrange(i + 2, i + 2 + n) =~= s.subrange(i + 2, i + 2 + n));
                    if response_from_payload(s[i + 1], s.subrange(i + 2, i + 2 + n)) is None {
                        lemma_scan_responses_extend(s, t, i + 2 + n);
                    }
                },
            }
        }
    }
}

} // verus!
