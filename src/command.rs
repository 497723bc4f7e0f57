//! Commands to be executed by the recipient.
use vstd::prelude::*;

verus! {

/// An ALL-Link group number.
#[derive(Clone, Copy, Debug, PartialEq, Eq, Hash, Structural)]
pub struct GroupNumber(pub u8);

/// The "on level" associated with an on command.
#[derive(Clone, Copy, Debug, PartialEq, Eq, Hash, Structural)]
pub struct OnLevel(pub u8);

/// Encodes a desired movement direction for dimming.
#[derive(Clone, Copy, Debug, PartialEq, Eq, Hash, Structural)]
pub enum BrightDim {
    /// Move in the direction of increasing brightness.
    Bright,
    /// Move in the direction of decreasing brightness.
    Dim,
}

/// The payload of an on command; either a group number or an "on level."
///
/// Both share the same byte on the wire, so a decoded on command always carries a group number.
#[derive(Clone, Copy, Debug, PartialEq, Eq, Hash, Structural)]
pub enum OnPayload {
    GroupNumber(GroupNumber),
    OnLevel(OnLevel),
}

/// Encodes a command to be faithfully executed by the recipient.
#[derive(Clone, Copy, Debug, PartialEq, Eq, Hash, Structural)]
pub enum Command {
    On(OnPayload),
    FastOn(Option<GroupNumber>),
    Off(Option<GroupNumber>),
    FastOff(Option<GroupNumber>),
    Bright(Option<GroupNumber>),
    Dim(Option<GroupNumber>),
    Start(BrightDim),
    Stop,
    IdRequest,
    StatusRequest,
    BeginLinking(GroupNumber),
    BeginUnlinking(GroupNumber),
    CancelLinking,
}

/// The optional group carried by a data byte: zero means no group.
pub open spec fn optional_group(byte: u8) -> Option<GroupNumber> {
    if byte == 0 {
        None
    } else {
        Some(GroupNumber(byte))
    }
}

/// The data byte that carries an optional group.
pub open spec fn group_byte(group: Option<GroupNumber>) -> u8 {
    match group {
        Some(g) => g.0,
        None => 0,
    }
}

/// The command that the two bytes `[opcode, data]` encode, if the opcode is known.
pub open spec fn command_from_bytes(op: u8, data: u8) -> Option<Command> {
    if op == 0x11 {
        Some(Command::On(OnPayload::GroupNumber(GroupNumber(data))))
    } else if op == 0x12 {
        Some(Command::FastOn(optional_group(data)))
    } else if op == 0x13 {
        Some(Command::Off(optional_group(data)))
    } else if op == 0x14 {
        Some(Command::FastOff(optional_group(data)))
    } else if op == 0x15 {
        Some(Command::Bright(optional_group(data)))
    } else if op == 0x16 {
        Some(Command::Dim(optional_group(data)))
    } else if op == 0x17 {
        Some(Command::Start(if data == 0x01 { BrightDim::Bright } else { BrightDim::Dim }))
    } else if op == 0x18 {
        Some(Command::Stop)
    } else if op == 0x10 {
        Some(Command::IdRequest)
    } else if op == 0x19 {
        Some(Command::StatusRequest)
    } else if op == 0x09 {
        Some(Command::BeginLinking(GroupNumber(data)))
    } else if op == 0x0A {
        Some(Command::BeginUnlinking(GroupNumber(data)))
    } else if op == 0x08 {
        Some(Command::CancelLinking)
    } else {
        None
    }
}

/// The opcode byte of a command.
pub open spec fn command_opcode(c: Command) -> u8 {
    match c {
        Command::On(_) => 0x11,
        Command::FastOn(_) => 0x12,
        Command::Off(_) => 0x13,
        Command::FastOff(_) => 0x14,
        Command::Bright(_) => 0x15,
        Command::Dim(_) => 0x16,
        Command::Start(_) => 0x17,
        Command::Stop => 0x18,
        Command::IdRequest => 0x10,
        Command::StatusRequest => 0x19,
        Command::BeginLinking(_) => 0x09,
        Command::BeginUnlinking(_) => 0x0A,
        Command::CancelLinking => 0x08,
    }
}

/// The data byte of a command.
pub open spec fn command_data(c: Command) -> u8 {
    match c {
        Command::On(OnPayload::OnLevel(level)) => level.0,
        Command::On(OnPayload::GroupNumber(group)) => group.0,
        Command::FastOn(g) => group_byte(g),
        Command::Off(g) => group_byte(g),
        Command::FastOff(g) => group_byte(g),
        Command::Bright(g) => group_byte(g),
        Command::Dim(g) => group_byte(g),
        Command::Start(BrightDim::Bright) => 0x01,
        Command::Start(BrightDim::Dim) => 0x00,
        Command::BeginLinking(g) => g.0,
        Command::BeginUnlinking(g) => g.0,
        _ => 0,
    }
}

/// Reads a data byte as an optional group.
pub fn group_or_none(byte: u8) -> (r: Option<GroupNumber>)
    ensures
        r == optional_group(byte),
{
    if byte == 0 {
        None
    } else {
        Some(GroupNumber(byte))
    }
}

/// Writes an optional group as a data byte.
pub fn group_or_zero(group: Option<GroupNumber>) -> (r: u8)
    ensures
        r == group_byte(group),
{
    match group {
        Some(g) => g.0,
        None => 0,
    }
}

impl Command {
    /// Attempts to parse a pair of bytes as a command.
    pub fn try_from(bytes: [u8; 2]) -> (r: Option<Command>)
        ensures
            r == command_from_bytes(bytes[0], bytes[1]),
    {
        let data = bytes[1];
        match bytes[0] {
            0x11 => Some(Command::On(OnPayload::GroupNumber(GroupNumber(data)))),
            0x12 => Some(Command::FastOn(group_or_none(data))),
            0x13 => Some(Command::Off(group_or_none(data))),
            0x14 => Some(Command::FastOff(group_or_none(data))),
            0x15 => Some(Command::Bright(group_or_none(data))),
            0x16 => Some(Command::Dim(group_or_none(data))),
            0x17 => {
                let dir = match data {
                    0x01 => BrightDim::Bright,
                    _ => BrightDim::Dim,
                };
                Some(Command::Start(dir))
            },
            0x18 => Some(Command::Stop),
            0x10 => Some(Command::IdRequest),
            0x19 => Some(Command::StatusRequest),
            0x09 => Some(Command::BeginLinking(GroupNumber(data))),
            0x0A => Some(Command::BeginUnlinking(GroupNumber(data))),
            0x08 => Some(Command::CancelLinking),
            _ => None,
        }
    }

    /// The two bytes `[opcode, data]` that encode this command.
    pub fn to_bytes(self) -> (r: [u8; 2])
        ensures
            r == [command_opcode(self), command_data(self)],
    {
        match self {
            Command::On(payload) => {
                let two = match payload {
                    OnPayload::OnLevel(level) => level.0,
                    OnPayload::GroupNumber(group) => group.0,
                };
                [0x11, two]
            },
            Command::FastOn(group) => [0x12, group_or_zero(group)],
            Command::Off(group) => [0x13, group_or_zero(group)],
            Command::FastOff(group) => [0x14, group_or_zero(group)],
            Command::Bright(group) => [0x15, group_or_zero(group)],
            Command::Dim(group) => [0x16, group_or_zero(group)],
            Command::Start(dir) => {
                let two = match dir {
                    BrightDim::Bright => 0x01,
                    BrightDim::Dim => 0x00,
                };
                [0x17, two]
            },
            Command::Stop => [0x18, 0],
            Command::IdRequest => [0x10, 0],
            Command::StatusRequest => [0x19, 0],
            Command::BeginLinking(group) => [0x09, group.0],
            Command::BeginUnlinking(group) => [0x0A, group.0],
            Command::CancelLinking => [0x08, 0],
        }
    }
}

impl From<Command> for [u8; 2] {
    fn from(c: Command) -> (r: [u8; 2])
        ensures
            r == [command_opcode(c), command_data(c)],
    {
        c.to_bytes()
    }
}

impl vstd::std_specs::convert::FromSpecImpl<Command> for [u8; 2] {
    open spec fn obeys_from_spec() -> bool {
        true
    }

    open spec fn from_spec(c: Command) -> [u8; 2] {
        [command_opcode(c), command_data(c)]
    }
}

/// Whether a command's optional group, if present, is a valid group number (not zero).
pub open spec fn groups_valid(c: Command) -> bool {
    match c {
        Command::FastOn(Some(g)) => g.0 != 0,
        Command::Off(Some(g)) => g.0 != 0,
        Command::FastOff(Some(g)) => g.0 != 0,
        Command::Bright(Some(g)) => g.0 != 0,
        Command::Dim(Some(g)) => g.0 != 0,
        _ => true,
    }
}

/// An absent group is written as zero, and reading a data byte back gives the
/// optional group that was written, for every absent or non-zero group.
pub proof fn lemma_optional_group_round_trip(group: Option<GroupNumber>)
    requires
        group matches Some(g) ==> g.0 != 0,
    ensures
        optional_group(group_byte(group)) == group,
        group is None ==> group_byte(group) == 0,
{
}

/// Decoding the bytes of a command gives the command back, except that an on
/// command with an "on level" comes back carrying that byte as a group number.
pub proof fn lemma_command_round_trip(c: Command)
    requires
        groups_valid(c),
    ensures
        command_from_bytes(command_opcode(c), command_data(c)) == Some(
            match c {
                Command::On(OnPayload::OnLevel(level)) => Command::On(
                    OnPayload::GroupNumber(GroupNumber(level.0)),
                ),
                _ => c,
            },
        ),
{
}

/// An on command with an "on level" decodes as an on command with a group number
/// holding the same byte: the two share one byte on the wire.
pub proof fn lemma_on_level_decodes_as_group(v: u8)
    ensures
        command_from_bytes(
            command_opcode(Command::On(OnPayload::OnLevel(OnLevel(v)))),
            command_data(Command::On(OnPayload::OnLevel(OnLevel(v)))),
        ) == Some(Command::On(OnPayload::GroupNumber(GroupNumber(v)))),
        command_from_bytes(
            command_opcode(Command::On(OnPayload::GroupNumber(GroupNumber(v)))),
            command_data(Command::On(OnPayload::GroupNumber(GroupNumber(v)))),
        ) == Some(Command::On(OnPayload::GroupNumber(GroupNumber(v)))),
{
}

} // verus!
