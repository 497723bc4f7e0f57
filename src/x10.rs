//! X10 messages carried over the Insteon network.
//!
//! House codes, unit codes and commands are each addressed by a 4-bit nibble,
//! in a fixed order that is not the natural binary one.
use vstd::prelude::*;

verus! {

/// The house code for the X10 message (A–P).
#[derive(Clone, Copy, Debug, PartialEq, Eq, Hash, Structural)]
pub enum HouseCode {
    A,
    B,
    C,
    D,
    E,
    F,
    G,
    H,
    I,
    J,
    K,
    L,
    M,
    N,
    O,
    P,
}

/// The unit code for an X10 message (1–16).
#[derive(Clone, Copy, Debug, PartialEq, Eq, Hash, Structural)]
pub struct UnitCode(pub u8);

/// An X10 command.
#[derive(Clone, Copy, Debug, PartialEq, Eq, Hash, Structural)]
pub enum Command {
    AllLightsOff,
    StatusOff,
    On,
    PresetDim,
    AllLightsOn,
    HailAcknowledge,
    Bright,
    StatusOn,
    ExtendedCode,
    StatusRequest,
    Off,
    AllUnitsOff,
    HailRequest,
    Dim,
    ExtendedAnalogData,
}

/// The X10 message payload; either a unit code or a command.
#[derive(Clone, Copy, Debug, PartialEq, Eq, Hash, Structural)]
pub enum Payload {
    UnitCode(UnitCode),
    Command(Command),
}

/// An X10 message, as communicated by Insteon's network.
#[derive(Clone, Copy, Debug, PartialEq, Eq, Hash, Structural)]
pub struct Message {
    /// The house code from the message.
    pub house: HouseCode,
    /// The message payload (either a unit code or a command).
    pub payload: Payload,
    /// Whether the command was successful.
    pub success: bool,
}

/// The house code that a nibble selects.
pub open spec fn house_from_nibble(n: u8) -> Option<HouseCode> {
    match n {
        0x6 => Some(HouseCode::A),
        0xE => Some(HouseCode::B),
        0x2 => Some(HouseCode::C),
        0xA => Some(HouseCode::D),
        0x1 => Some(HouseCode::E),
        0x9 => Some(HouseCode::F),
        0x5 => Some(HouseCode::G),
        0xD => Some(HouseCode::H),
        0x7 => Some(HouseCode::I),
        0xF => Some(HouseCode::J),
        0x3 => Some(HouseCode::K),
        0xB => Some(HouseCode::L),
        0x0 => Some(HouseCode::M),
        0x8 => Some(HouseCode::N),
        0x4 => Some(HouseCode::O),
        0xC => Some(HouseCode::P),
        _ => None,
    }
}

/// The nibble that selects a house code.
pub open spec fn house_nibble(h: HouseCode) -> u8 {
    match h {
        HouseCode::A => 0x6,
        HouseCode::B => 0xE,
        HouseCode::C => 0x2,
        HouseCode::D => 0xA,
        HouseCode::E => 0x1,
        HouseCode::F => 0x9,
        HouseCode::G => 0x5,
        HouseCode::H => 0xD,
        HouseCode::I => 0x7,
        HouseCode::J => 0xF,
        HouseCode::K => 0x3,
        HouseCode::L => 0xB,
        HouseCode::M => 0x0,
        HouseCode::N => 0x8,
        HouseCode::O => 0x4,
        HouseCode::P => 0xC,
    }
}

/// The letter of a house code.
pub open spec fn house_letter(h: HouseCode) -> char {
    match h {
        HouseCode::A => 'A',
        HouseCode::B => 'B',
        HouseCode::C => 'C',
        HouseCode::D => 'D',
        HouseCode::E => 'E',
        HouseCode::F => 'F',
        HouseCode::G => 'G',
        HouseCode::H => 'H',
        HouseCode::I => 'I',
        HouseCode::J => 'J',
        HouseCode::K => 'K',
        HouseCode::L => 'L',
        HouseCode::M => 'M',
        HouseCode::N => 'N',
        HouseCode::O => 'O',
        HouseCode::P => 'P',
    }
}

/// The unit code that a nibble selects.
pub open spec fn unit_from_nibble(n: u8) -> Option<UnitCode> {
    match n {
        0x6 => Some(UnitCode(1)),
        0xE => Some(UnitCode(2)),
        0x2 => Some(UnitCode(3)),
        0xA => Some(UnitCode(4)),
        0x1 => Some(UnitCode(5)),
        0x9 => Some(UnitCode(6)),
        0x5 => Some(UnitCode(7)),
        0xD => Some(UnitCode(8)),
        0x7 => Some(UnitCode(9)),
        0xF => Some(UnitCode(10)),
        0x3 => Some(UnitCode(11)),
        0xB => Some(UnitCode(12)),
        0x0 => Some(UnitCode(13)),
        0x8 => Some(UnitCode(14)),
        0x4 => Some(UnitCode(15)),
        0xC => Some(UnitCode(16)),
        _ => None,
    }
}

/// The nibble that selects unit code `u`, for `u` in 1..=16.
pub open spec fn unit_nibble(u: u8) -> Option<u8> {
    match u {
        1 => Some(0x6),
        2 => Some(0xE),
        3 => Some(0x2),
        4 => Some(0xA),
        5 => Some(0x1),
        6 => Some(0x9),
        7 => Some(0x5),
        8 => Some(0xD),
        9 => Some(0x7),
        10 => Some(0xF),
        11 => Some(0x3),
        12 => Some(0xB),
        13 => Some(0x0),
        14 => Some(0x8),
        15 => Some(0x4),
        16 => Some(0xC),
        _ => None,
    }
}

/// The command that a nibble selects (0xA and 0xB both select preset dim).
pub open spec fn command_from_nibble(n: u8) -> Option<Command> {
    match n {
        0x6 => Some(Command::AllLightsOff),
        0xE => Some(Command::StatusOff),
        0x2 => Some(Command::On),
        0xA => Some(Command::PresetDim),
        0x1 => Some(Command::AllLightsOn),
        0x9 => Some(Command::HailAcknowledge),
        0x5 => Some(Command::Bright),
        0xD => Some(Command::StatusOn),
        0x7 => Some(Command::ExtendedCode),
        0xF => Some(Command::StatusRequest),
        0x3 => Some(Command::Off),
        0xB => Some(Command::PresetDim),
        0x0 => Some(Command::AllUnitsOff),
        0x8 => Some(Command::HailRequest),
        0x4 => Some(Command::Dim),
        0xC => Some(Command::ExtendedAnalogData),
        _ => None,
    }
}

/// The nibble that selects a command.
pub open spec fn command_nibble(c: Command) -> u8 {
    match c {
        Command::AllLightsOff => 0x6,
        Command::StatusOff => 0xE,
        Command::On => 0x2,
        Command::PresetDim => 0xA,
        Command::AllLightsOn => 0x1,
        Command::HailAcknowledge => 0x9,
        Command::Bright => 0x5,
        Command::StatusOn => 0xD,
        Command::ExtendedCode => 0x7,
        Command::StatusRequest => 0xF,
        Command::Off => 0x3,
        Command::AllUnitsOff => 0x0,
        Command::HailRequest => 0x8,
        Command::Dim => 0x4,
        Command::ExtendedAnalogData => 0xC,
    }
}

/// The X10 message that three bytes encode: house nibble and unit-or-command
/// nibble, a flag selecting unit (0x00) or command (0x80), and a status byte
/// (0x06 for success).
pub open spec fn x10_from_bytes(b0: u8, flag: u8, status: u8) -> Option<Message> {
    let success = status == 0x06;
    match house_from_nibble(b0 >> 4) {
        None => None,
        Some(house) => if flag == 0x00 {
            match unit_from_nibble(b0 & 0x0f) {
                Some(u) => Some(Message { house, payload: Payload::UnitCode(u), success }),
                None => None,
            }
        } else if flag == 0x80 {
            match command_from_nibble(b0 & 0x0f) {
                Some(c) => Some(Message { house, payload: Payload::Command(c), success }),
                None => None,
            }
        } else {
            None
        },
    }
}

impl HouseCode {
    /// Attempts to convert the argument to a house code.
    pub fn try_from(byte: u8) -> (r: Option<HouseCode>)
        ensures
            r == house_from_nibble(byte),
    {
        match byte {
            0x6 => Some(HouseCode::A),
            0xE => Some(HouseCode::B),
            0x2 => Some(HouseCode::C),
            0xA => Some(HouseCode::D),
            0x1 => Some(HouseCode::E),
            0x9 => Some(HouseCode::F),
            0x5 => Some(HouseCode::G),
            0xD => Some(HouseCode::H),
            0x7 => Some(HouseCode::I),
            0xF => Some(HouseCode::J),
            0x3 => Some(HouseCode::K),
            0xB => Some(HouseCode::L),
            0x0 => Some(HouseCode::M),
            0x8 => Some(HouseCode::N),
            0x4 => Some(HouseCode::O),
            0xC => Some(HouseCode::P),
            _ => None,
        }
    }

    /// The nibble that selects this house code.
    pub fn nibble(self) -> (r: u8)
        ensures
            r == house_nibble(self),
    {
        match self {
            HouseCode::A => 0x6,
            HouseCode::B => 0xE,
            HouseCode::C => 0x2,
            HouseCode::D => 0xA,
            HouseCode::E => 0x1,
            HouseCode::F => 0x9,
            HouseCode::G => 0x5,
            HouseCode::H => 0xD,
            HouseCode::I => 0x7,
            HouseCode::J => 0xF,
            HouseCode::K => 0x3,
            HouseCode::L => 0xB,
            HouseCode::M => 0x0,
            HouseCode::N => 0x8,
            HouseCode::O => 0x4,
            HouseCode::P => 0xC,
        }
    }
}

impl From<HouseCode> for char {
    fn from(h: HouseCode) -> (r: char)
        ensures
            r == house_letter(h),
    {
        match h {
            HouseCode::A => 'A',
            HouseCode::B => 'B',
            HouseCode::C => 'C',
            HouseCode::D => 'D',
            HouseCode::E => 'E',
            HouseCode::F => 'F',
            HouseCode::G => 'G',
            HouseCode::H => 'H',
            HouseCode::I => 'I',
            HouseCode::J => 'J',
            HouseCode::K => 'K',
            HouseCode::L => 'L',
            HouseCode::M => 'M',
            HouseCode::N => 'N',
            HouseCode::O => 'O',
            HouseCode::P => 'P',
        }
    }
}

impl vstd::std_specs::convert::FromSpecImpl<HouseCode> for char {
    open spec fn obeys_from_spec() -> bool {
        true
    }

    open spec fn from_spec(h: HouseCode) -> char {
        house_letter(h)
    }
}

impl UnitCode {
    /// Attempts to convert the argument to a unit code.
    pub fn try_from(byte: u8) -> (r: Option<UnitCode>)
        ensures
            r == unit_from_nibble(byte),
    {
        match byte {
            0x6 => Some(UnitCode(1)),
            0xE => Some(UnitCode(2)),
            0x2 => Some(UnitCode(3)),
            0xA => Some(UnitCode(4)),
            0x1 => Some(UnitCode(5)),
            0x9 => Some(UnitCode(6)),
            0x5 => Some(UnitCode(7)),
            0xD => Some(UnitCode(8)),
            0x7 => Some(UnitCode(9)),
            0xF => Some(UnitCode(10)),
            0x3 => Some(UnitCode(11)),
            0xB => Some(UnitCode(12)),
            0x0 => Some(UnitCode(13)),
            0x8 => Some(UnitCode(14)),
            0x4 => Some(UnitCode(15)),
            0xC => Some(UnitCode(16)),
            _ => None,
        }
    }

    /// The nibble that selects this unit code, if it is in 1..=16.
    pub fn nibble(self) -> (r: Option<u8>)
        ensures
            r == unit_nibble(self.0),
    {
        match self.0 {
            1 => Some(0x6),
            2 => Some(0xE),
            3 => Some(0x2),
            4 => Some(0xA),
            5 => Some(0x1),
            6 => Some(0x9),
            7 => Some(0x5),
            8 => Some(0xD),
            9 => Some(0x7),
            10 => Some(0xF),
            11 => Some(0x3),
            12 => Some(0xB),
            13 => Some(0x0),
            14 => Some(0x8),
            15 => Some(0x4),
            16 => Some(0xC),
            _ => None,
        }
    }
}

impl From<UnitCode> for u8 {
    fn from(u: UnitCode) -> (r: u8)
        ensures
            r == u.0,
    {
        u.0
    }
}

impl vstd::std_specs::convert::FromSpecImpl<UnitCode> for u8 {
    open spec fn obeys_from_spec() -> bool {
        true
    }

    open spec fn from_spec(u: UnitCode) -> u8 {
        u.0
    }
}

impl Command {
    /// Attempts to convert the argument to an X10 command.
    pub fn try_from(byte: u8) -> (r: Option<Command>)
        ensures
            r == command_from_nibble(byte),
    {
        match byte {
            0x6 => Some(Command::AllLightsOff),
            0xE => Some(Command::StatusOff),
            0x2 => Some(Command::On),
            0xA => Some(Command::PresetDim),
            0x1 => Some(Command::AllLightsOn),
            0x9 => Some(Command::HailAcknowledge),
            0x5 => Some(Command::Bright),
            0xD => Some(Command::StatusOn),
            0x7 => Some(Command::ExtendedCode),
            0xF => Some(Command::StatusRequest),
            0x3 => Some(Command::Off),
            0xB => Some(Command::PresetDim),
            0x0 => Some(Command::AllUnitsOff),
            0x8 => Some(Command::HailRequest),
            0x4 => Some(Command::Dim),
            0xC => Some(Command::ExtendedAnalogData),
            _ => None,
        }
    }

    /// The nibble that selects this command.
    pub fn nibble(self) -> (r: u8)
        ensures
            r == command_nibble(self),
    {
        match self {
            Command::AllLightsOff => 0x6,
            Command::StatusOff => 0xE,
            Command::On => 0x2,
            Command::PresetDim => 0xA,
            Command::AllLightsOn => 0x1,
            Command::HailAcknowledge => 0x9,
            Command::Bright => 0x5,
            Command::StatusOn => 0xD,
            Command::ExtendedCode => 0x7,
            Command::StatusRequest => 0xF,
            Command::Off => 0x3,
            Command::AllUnitsOff => 0x0,
            Command::HailRequest => 0x8,
            Command::Dim => 0x4,
            Command::ExtendedAnalogData => 0xC,
        }
    }
}

impl Message {
    /// Attempts to parse the given bytes as an X10 message.
    pub fn try_from(bytes: [u8; 3]) -> (r: Option<Message>)
        ensures
            r == x10_from_bytes(bytes[0], bytes[1], bytes[2]),
    {
        let byte = bytes[0];
        let high = byte >> 4;
        let low = byte & 0x0f;
        let flag = bytes[1];
        let success = bytes[2] == 0x06;
        match HouseCode::try_from(high) {
            None => None,
            Some(house) => match flag {
                0x00 => match UnitCode::try_from(low) {
                    Some(unit) => Some(Message { house, payload: Payload::UnitCode(unit), success }),
                    None => None,
                },
                0x80 => match Command::try_from(low) {
                    Some(cmd) => Some(Message { house, payload: Payload::Command(cmd), success }),
                    None => None,
                },
                _ => None,
            },
        }
    }
}

/// Every nibble selects a house code, and the house code's nibble is that nibble;
/// every house code is selected by its own nibble.
pub proof fn lemma_house_round_trip(n: u8, h: HouseCode)
    requires
        n < 16,
    ensures
        house_from_nibble(n) matches Some(x) && house_nibble(x) == n,
        house_from_nibble(house_nibble(h)) == Some(h),
{
}

/// Every nibble selects a unit code in 1..=16 whose nibble is that nibble; every
/// unit code in 1..=16 is selected by its own nibble.
pub proof fn lemma_unit_round_trip(n: u8, u: u8)
    requires
        n < 16,
        1 <= u <= 16,
    ensures
        unit_from_nibble(n) matches Some(x) && 1 <= x.0 <= 16 && unit_nibble(x.0) == Some(n),
        unit_nibble(u) matches Some(m) && unit_from_nibble(m) == Some(UnitCode(u)),
{
}

/// Every command is selected by its own nibble; every nibble selects a command,
/// whose nibble is that nibble but for 0xB, which selects preset dim as 0xA does.
pub proof fn lemma_command_round_trip(n: u8, c: Command)
    requires
        n < 16,
    ensures
        command_from_nibble(command_nibble(c)) == Some(c),
        command_from_nibble(n) matches Some(x) && (n != 0xB ==> command_nibble(x) == n),
        command_from_nibble(0xB) == Some(Command::PresetDim),
{
}

/// A house nibble and a unit nibble with the unit flag and the success byte
/// decode to that house and unit, successful; a flag byte other than 0x00 and
/// 0x80 decodes to nothing.
pub proof fn lemma_unit_message(h: u8, u: u8, b0: u8, flag: u8, status: u8)
    requires
        h < 16,
        u < 16,
    ensures
        x10_from_bytes(((h << 4u8) | u) as u8, 0x00, 0x06) == Some(
            Message {
                house: house_from_nibble(h)->0,
                payload: Payload::UnitCode(unit_from_nibble(u)->0),
                success: true,
            },
        ),
        flag != 0x00 && flag != 0x80 ==> x10_from_bytes(b0, flag, status) is None,
{
    let b = ((h << 4u8) | u) as u8;
    assert(b >> 4u8 == h && b & 0x0f == u) by (bit_vector)
        requires
            h < 16,
            u < 16,
            b == ((h << 4u8) | u) as u8,
    ;
    lemma_house_round_trip(h, HouseCode::A);
    lemma_unit_round_trip(u, 1);
}

} // verus!
