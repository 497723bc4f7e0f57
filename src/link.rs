//! ALL-Link records and link results.
use vstd::prelude::*;
use crate::device::Address;

verus! {

/// Represents an ALL-Link device group.
pub type Group = u8;

/// Stores link data from link messages.
#[derive(Clone, Copy, Debug, PartialEq, Eq, Hash)]
pub struct LinkData {
    pub data: [u8; 3],
}

impl From<[u8; 3]> for LinkData {
    fn from(data: [u8; 3]) -> (r: LinkData)
        ensures
            r == (LinkData { data }),
    {
        LinkData { data }
    }
}

impl vstd::std_specs::convert::FromSpecImpl<[u8; 3]> for LinkData {
    open spec fn obeys_from_spec() -> bool {
        true
    }

    open spec fn from_spec(data: [u8; 3]) -> LinkData {
        LinkData { data }
    }
}

/// Encodes the result of a linking attempt.
#[derive(Clone, Copy, Debug, PartialEq, Eq, Hash)]
pub struct LinkResult {
    /// The modem's role: `Some(true)` controller, `Some(false)` responder, `None` deleted.
    pub is_controller: Option<bool>,
    /// The group number assigned to the link.
    pub group: Group,
    /// The ID of the device that was linked.
    pub id: Address,
    /// The category and subcategory of the linked device.
    pub category: [u8; 2],
    /// The firmware version of the linked device, if it reported one.
    pub firmware: Option<u8>,
}

/// The role that a role byte encodes: 0x00 responder, 0x01 controller, anything else deleted.
pub open spec fn role_from_byte(b: u8) -> Option<bool> {
    if b == 0x00 {
        Some(false)
    } else if b == 0x01 {
        Some(true)
    } else {
        None
    }
}

/// A firmware byte, where 0xFF means that none was reported.
pub open spec fn firmware_from_byte(b: u8) -> Option<u8> {
    if b == 0xFF {
        None
    } else {
        Some(b)
    }
}

/// The link result that eight bytes encode: role, group, three address bytes,
/// category, subcategory and firmware.
pub open spec fn link_result_from_bytes(b: [u8; 8]) -> LinkResult {
    LinkResult {
        is_controller: role_from_byte(b[0]),
        group: b[1],
        id: Address([b[2], b[3], b[4]]),
        category: [b[5], b[6]],
        firmware: firmware_from_byte(b[7]),
    }
}

impl LinkResult {
    /// The group number assigned to this link.
    pub fn group(&self) -> (r: Group)
        ensures
            r == self.group,
    {
        self.group
    }

    /// Whether the modem is a slave to this device.
    pub fn is_slave(&self) -> (r: bool)
        ensures
            r == (self.is_controller == Some(false)),
    {
        match self.is_controller {
            Some(c) => !c,
            None => false,
        }
    }

    /// Identical to `is_slave`, but using Insteon's nomenclature.
    pub fn is_responder(&self) -> (r: bool)
        ensures
            r == (self.is_controller == Some(false)),
    {
        self.is_slave()
    }

    /// Whether the modem is a master of this device.
    pub fn is_master(&self) -> (r: bool)
        ensures
            r == (self.is_controller == Some(true)),
    {
        match self.is_controller {
            Some(c) => c,
            None => false,
        }
    }

    /// Identical to `is_master`, but using Insteon's nomenclature.
    pub fn is_controller(&self) -> (r: bool)
        ensures
            r == (self.is_controller == Some(true)),
    {
        self.is_master()
    }

    /// Whether the link was deleted.
    pub fn deleted(&self) -> (r: bool)
        ensures
            r == (self.is_controller is None),
    {
        self.is_controller.is_none()
    }

    /// The ID of the device that was linked.
    pub fn id(&self) -> (r: Address)
        ensures
            r == self.id,
    {
        self.id
    }

    /// The category of the linked device; only meaningful, and only given, when
    /// the modem is the controller.
    pub fn category(&self) -> (r: Option<u8>)
        ensures
            r == (if self.is_controller == Some(true) { Some(self.category[0]) } else { None }),
    {
        if self.is_controller() {
            Some(self.category[0])
        } else {
            None
        }
    }

    /// The subcategory of the linked device; only meaningful, and only given,
    /// when the modem is the controller.
    pub fn subcategory(&self) -> (r: Option<u8>)
        ensures
            r == (if self.is_controller == Some(true) { Some(self.category[1]) } else { None }),
    {
        if self.is_controller() {
            Some(self.category[1])
        } else {
            None
        }
    }

    /// The firmware version of the linked device, given only when the modem is
    /// the controller and the device reported one.
    pub fn firmware(&self) -> (r: Option<u8>)
        ensures
            r == (if self.is_controller == Some(true) { self.firmware } else { None }),
    {
        if self.is_controller() {
            self.firmware
        } else {
            None
        }
    }
}

impl From<[u8; 8]> for LinkResult {
    fn from(bytes: [u8; 8]) -> (r: LinkResult)
        ensures
            r == link_result_from_bytes(bytes),
    {
        let is_controller = match bytes[0] {
            0x00 => Some(false),
            0x01 => Some(true),
            _ => None,
        };
        let vers = bytes[7];
        let firmware = if vers == 0xFF {
            None
        } else {
            Some(vers)
        };
        LinkResult {
            is_controller,
            group: bytes[1],
            id: Address([bytes[2], bytes[3], bytes[4]]),
            category: [bytes[5], bytes[6]],
            firmware,
        }
    }
}

impl vstd::std_specs::convert::FromSpecImpl<[u8; 8]> for LinkResult {
    open spec fn obeys_from_spec() -> bool {
        true
    }

    open spec fn from_spec(bytes: [u8; 8]) -> LinkResult {
        link_result_from_bytes(bytes)
    }
}

} // verus!
