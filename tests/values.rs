use insteon::device::Address;
use insteon::message::{Button, ButtonEvent, LinkData, LinkResult};

#[test]
fn address_reduce() {
    let addr = Address::from([0x12, 0x34, 0x56]);
    assert_eq!(addr.reduce(), 0x123456);
    assert_eq!(Address([0xFF, 0xFF, 0xFF]).reduce(), 0xFF_FFFF);
    assert_eq!(Address([0, 0, 0]).reduce(), 0);
    assert_eq!(addr.byte(0), 0x12);
    assert_eq!(addr.byte(2), 0x56);
}

#[test]
fn link_data_keeps_bytes() {
    assert_eq!(LinkData::from([1, 2, 3]).data, [1, 2, 3]);
}

#[test]
fn link_result_as_controller() {
    let r = LinkResult::from([0x01, 0x07, 0xAA, 0xBB, 0xCC, 0x02, 0x1F, 0x41]);
    assert!(r.is_controller());
    assert!(r.is_master());
    assert!(!r.is_slave());
    assert!(!r.is_responder());
    assert!(!r.deleted());
    assert_eq!(r.group(), 0x07);
    assert_eq!(r.id(), Address([0xAA, 0xBB, 0xCC]));
    assert_eq!(r.category(), Some(0x02));
    assert_eq!(r.subcategory(), Some(0x1F));
    assert_eq!(r.firmware(), Some(0x41));
}

#[test]
fn link_result_firmware_absent() {
    let r = LinkResult::from([0x01, 0x07, 0xAA, 0xBB, 0xCC, 0x02, 0x1F, 0xFF]);
    assert_eq!(r.firmware(), None);
    assert_eq!(r.category(), Some(0x02));
}

#[test]
fn link_result_as_responder() {
    let r = LinkResult::from([0x00, 0x01, 0x11, 0x22, 0x33, 0x02, 0x1F, 0x41]);
    assert!(r.is_slave());
    assert!(r.is_responder());
    assert!(!r.is_controller());
    assert_eq!(r.category(), None);
    assert_eq!(r.subcategory(), None);
    assert_eq!(r.firmware(), None);
}

#[test]
fn link_result_deleted() {
    let r = LinkResult::from([0xFF, 0x01, 0x11, 0x22, 0x33, 0x02, 0x1F, 0x41]);
    assert!(r.deleted());
    assert!(!r.is_slave());
    assert!(!r.is_master());
    let r = LinkResult::from([0x05, 0x01, 0x11, 0x22, 0x33, 0x02, 0x1F, 0x41]);
    assert!(r.deleted());
}

#[test]
fn button_event_codes() {
    assert_eq!(ButtonEvent::from_code(0x02), Some(ButtonEvent::Tapped(Button::SetButton)));
    assert_eq!(ButtonEvent::from_code(0x13), Some(ButtonEvent::Held(Button::Two)));
    assert_eq!(ButtonEvent::from_code(0x24), Some(ButtonEvent::Released(Button::Three)));
    assert_eq!(ButtonEvent::from_code(0x05), None);
    assert_eq!(ButtonEvent::from_code(0x32), None);
}
