//! Constructs for communication with the modem.
use vstd::prelude::*;
pub use crate::button::{Button, ButtonEvent};
use crate::command::Command;
use crate::device::Address;
pub use crate::link::{Group, LinkData, LinkResult};
use crate::x10::Message as X10Message;

verus! {

/// Messages are notifications delivered by the modem to us.
#[derive(Clone, Copy, Debug, PartialEq, Eq, Hash)]
pub enum Message {
    /// A message (either standard or extended) was received: sender, command
    /// (if recognized), flags, and the extended data of an extended message.
    Received(Address, Option<Command>, u8, Option<[u8; 14]>),
    /// An X10 message was received.
    X10Received(X10Message),
    /// An ALL-Link event completed.
    LinkComplete(LinkResult),
    /// A button on the device was pressed, held, or released.
    ButtonEvent(ButtonEvent),
    /// The user reset the modem (by pushing and holding SET while powering).
    UserResetDetected,
    /// A requested ALL-Link cleanup failed.
    LinkCleanupFailed(Group, Address),
    /// An ALL-Link record response: flags, group, device and link data.
    LinkRecordResponse(u8, Group, Address, LinkData),
    /// The ALL-Link cleanup completed (successfully or not).
    LinkCleanupStatus(bool),
    /// A database record was found: record address, flags, group, device and link data.
    DatabaseRecordFound([u8; 2], u8, u8, Address, LinkData),
}

/// Encodes a modem configuration.
#[derive(Clone, Copy, Debug, PartialEq, Eq, Hash, Structural)]
pub struct Config {
    /// Whether linking should be initiated when the user presses and holds the SET button.
    pub auto_link: bool,
    /// Whether the modem is in monitor mode.
    pub monitor: bool,
    /// Whether the LED should be managed by the host (and not the modem).
    pub manual_led: bool,
    /// Whether the modem should timeout after 240 ms.
    pub timeout: bool,
    /// Whether the modem should reject commands (NAK) if it's busy processing.
    pub busy_reject: bool,
}

/// The configuration that a byte encodes: bit 7 clear for auto link, bit 6
/// monitor, bit 5 manual LED, bit 4 clear for timeout, bit 3 busy reject; bits
/// 2 to 0 are ignored.
pub open spec fn config_from_byte(b: u8) -> Config {
    Config {
        auto_link: b & 0x80 == 0,
        monitor: b & 0x40 != 0,
        manual_led: b & 0x20 != 0,
        timeout: b & 0x10 == 0,
        busy_reject: b & 0x08 != 0,
    }
}

/// The byte that encodes a configuration; bits 2 to 0 are zero.
pub open spec fn config_byte(c: Config) -> u8 {
    (if c.auto_link { 0u8 } else { 0x80u8 }) | (if c.monitor { 0x40u8 } else { 0u8 }) | (if c.manual_led {
        0x20u8
    } else {
        0u8
    }) | (if c.timeout { 0u8 } else { 0x10u8 }) | (if c.busy_reject { 0x08u8 } else { 0u8 })
}

impl From<Config> for u8 {
    fn from(c: Config) -> (r: u8)
        ensures
            r == config_byte(c),
    {
        (if c.auto_link { 0u8 } else { 0x80u8 }) | (if c.monitor { 0x40u8 } else { 0u8 }) | (
        if c.manual_led {
            0x20u8
        } else {
            0u8
        }) | (if c.timeout { 0u8 } else { 0x10u8 }) | (if c.busy_reject { 0x08u8 } else { 0u8 })
    }
}

impl vstd::std_specs::convert::FromSpecImpl<Config> for u8 {
    open spec fn obeys_from_spec() -> bool {
        true
    }

    open spec fn from_spec(c: Config) -> u8 {
        config_byte(c)
    }
}

impl From<u8> for Config {
    fn from(b: u8) -> (r: Config)
        ensures
            r == config_from_byte(b),
    {
        Config {
            auto_link: b & 0x80 == 0,
            monitor: b & 0x40 != 0,
            manual_led: b & 0x20 != 0,
            timeout: b & 0x10 == 0,
            busy_reject: b & 0x08 != 0,
        }
    }
}

impl vstd::std_specs::convert::FromSpecImpl<u8> for Config {
    open spec fn obeys_from_spec() -> bool {
        true
    }

    open spec fn from_spec(b: u8) -> Config {
        config_from_byte(b)
    }
}

/// The default configuration: the one that the byte zero encodes.
pub open spec fn default_config() -> Config {
    Config { auto_link: true, monitor: false, manual_led: false, timeout: true, busy_reject: false }
}

impl Default for Config {
    /// Returns the default configuration (`0`).
    fn default() -> (r: Config)
        ensures
            r == default_config(),
    {
        Config { auto_link: true, monitor: false, manual_led: false, timeout: true, busy_reject: false }
    }
}

/// Decoding the byte of a configuration gives the configuration back, for each
/// of the 32 combinations of flags; the unused low bits of the byte are zero.
pub proof fn lemma_config_round_trip(c: Config)
    ensures
        config_from_byte(config_byte(c)) == c,
        config_byte(c) & 0x07 == 0,
{
    let a = if c.auto_link { 0u8 } else { 0x80u8 };
    let m = if c.monitor { 0x40u8 } else { 0u8 };
    let l = if c.manual_led { 0x20u8 } else { 0u8 };
    let t = if c.timeout { 0u8 } else { 0x10u8 };
    let r = if c.busy_reject { 0x08u8 } else { 0u8 };
    let b = a | m | l | t | r;
    assert(b == config_byte(c));
    assert((b & 0x80 == 0) == (a == 0) && (b & 0x40 != 0) == (m != 0) && (b & 0x20 != 0) == (l
        != 0) && (b & 0x10 == 0) == (t == 0) && (b & 0x08 != 0) == (r != 0) && b & 0x07 == 0)
        by (bit_vector)
        requires
            a == 0 || a == 0x80,
            m == 0 || m == 0x40,
            l == 0 || l == 0x20,
            t == 0 || t == 0x10,
            r == 0 || r == 0x08,
            b == a | m | l | t | r,
    ;
}

/// The default configuration is encoded by the byte zero, and the byte zero
/// decodes to it.
pub proof fn lemma_default_config_is_zero()
    ensures
        config_byte(default_config()) == 0,
        config_from_byte(0) == default_config(),
{
    assert((0u8 | 0u8 | 0u8 | 0u8 | 0u8) == 0u8) by (bit_vector);
    assert(0u8 & 0x80 == 0 && 0u8 & 0x40 == 0 && 0u8 & 0x20 == 0 && 0u8 & 0x10 == 0 && 0u8 & 0x08
        == 0) by (bit_vector);
}

/// Responses are delivered from the modem to us in response to issued commands.
#[derive(Clone, Copy, Debug, PartialEq, Eq, Hash)]
pub enum Response {
    /// The device info was retrieved: address, category and subcategory, firmware version.
    GotInfo(Address, [u8; 2], Option<u8>),
    /// The requested link command was sent to the group: group, command, broadcast byte.
    SentLinkCommand(Group, u8, u8),
    /// A message was sent.
    SentMessage(Message),
    /// The requested X10 message was sent.
    SentX10(X10Message),
    /// Linking started: role and group.
    StartedLink(u8, Group),
    /// Linking was canceled.
    CanceledLink,
    /// The host device category (and subcategory) were successfully set, with
    /// the firmware version if one applies.
    SetCategory([u8; 2], Option<u8>),
    /// The modem was successfully reset to factory settings, wiping the ALL-Link database.
    Reset,
    /// The ACK byte (`0x06`) will be followed by the requested (and returned) byte.
    SetAckByte(u8),
    /// The first ALL-Link record was retrieved and will follow in an ALL-Link
    /// Record Response message (`0x57`).
    GotFirstLinkRecord,
    /// The next ALL-Link record was retrieved and will follow in an ALL-Link
    /// Record Response message (`0x57`).
    GotNextLinkRecord,
    /// The modem configuration was set as specified.
    SetConfig(Config),
    /// The ALL-Link record for the most recent known message sender was
    /// retrieved and will follow in an ALL-Link Record Response message (`0x57`).
    GotSenderLinkRecord,
    /// The LED was turned on.
    LedOn,
    /// The LED was turned off.
    LedOff,
    /// The specified ALL-Link record was inserted into the database: control,
    /// record flags, group, device and link data.
    UpdatedLinkRecord(u8, u8, Group, Address, [u8; 3]),
    /// The NAK byte (`0x15`) will be followed by the requested (and returned) byte.
    SetNakByte(u8),
    /// The ACK byte (`0x06`) will be followed by the requested (and returned) bytes.
    SetAckBytes([u8; 2]),
    /// The RF modem was put to sleep and will wake again when sent a byte.
    Sleeping,
    /// The configuration flags of the modem (two reserved bytes that follow
    /// them on the wire are ignored).
    GotConfig(Config),
    /// ALL-Link cleanup was successfully canceled.
    CanceledCleanup,
    /// Eight bytes were read from the database and will follow in a Database
    /// Record Found message (`0x59`).
    ReadDatabaseBytes([u8; 2]),
    /// The device will beep.
    Beeping,
    /// The status was set.
    SetStatus(u8),
    /// The link data was set (RF modems only).
    SetLinkData([u8; 3]),
    /// The number of application retries for new links was set (RF modems only).
    SetRetries(u8),
    /// The RF frequency offset was set (RF modems only).
    SetFrequencyOffset(u8),
    /// The acknowledge for TempLinc commands was set (RF modems only).
    SetTempLincAck(u8),
}

} // verus!
