use insteon::command::{group_or_none, group_or_zero, BrightDim, Command, GroupNumber, OnLevel, OnPayload};

fn encode(c: Command) -> [u8; 2] {
    c.into()
}

#[test]
fn optional_group_round_trip() {
    assert_eq!(group_or_zero(None), 0x00);
    assert_eq!(group_or_none(group_or_zero(None)), None);
    for g in 1u8..=255 {
        let group = Some(GroupNumber(g));
        assert_eq!(group_or_zero(group), g);
        assert_eq!(group_or_none(group_or_zero(group)), group);
    }
}

#[test]
fn optional_group_commands_round_trip() {
    for g in 0u8..=255 {
        let group = group_or_none(g);
        for c in [
            Command::FastOn(group),
            Command::Off(group),
            Command::FastOff(group),
            Command::Bright(group),
            Command::Dim(group),
        ] {
            assert_eq!(Command::try_from(encode(c)), Some(c));
        }
    }
    assert_eq!(encode(Command::Off(None)), [0x13, 0x00]);
}

#[test]
fn on_command_is_not_bijective() {
    let group = Command::On(OnPayload::GroupNumber(GroupNumber(5)));
    let level = Command::On(OnPayload::OnLevel(OnLevel(5)));
    assert_eq!(Command::try_from(encode(group)), Some(group));
    assert_eq!(Command::try_from(encode(level)), Some(group));
    assert_eq!(encode(level), [0x11, 5]);
}

#[test]
fn command_opcodes() {
    assert_eq!(encode(Command::FastOn(None)), [0x12, 0]);
    assert_eq!(encode(Command::FastOff(Some(GroupNumber(3)))), [0x14, 3]);
    assert_eq!(encode(Command::Bright(None)), [0x15, 0]);
    assert_eq!(encode(Command::Dim(Some(GroupNumber(9)))), [0x16, 9]);
    assert_eq!(encode(Command::Start(BrightDim::Bright)), [0x17, 0x01]);
    assert_eq!(encode(Command::Start(BrightDim::Dim)), [0x17, 0x00]);
    assert_eq!(encode(Command::Stop), [0x18, 0]);
    assert_eq!(encode(Command::IdRequest), [0x10, 0]);
    assert_eq!(encode(Command::StatusRequest), [0x19, 0]);
    assert_eq!(encode(Command::BeginLinking(GroupNumber(7))), [0x09, 7]);
    assert_eq!(encode(Command::BeginUnlinking(GroupNumber(8))), [0x0A, 8]);
    assert_eq!(encode(Command::CancelLinking), [0x08, 0]);
    assert_eq!(Command::On(OnPayload::GroupNumber(GroupNumber(1))).to_bytes(), [0x11, 1]);
}

#[test]
fn start_direction_defaults_to_dim() {
    assert_eq!(Command::try_from([0x17, 0x01]), Some(Command::Start(BrightDim::Bright)));
    assert_eq!(Command::try_from([0x17, 0x00]), Some(Command::Start(BrightDim::Dim)));
    assert_eq!(Command::try_from([0x17, 0x7F]), Some(Command::Start(BrightDim::Dim)));
}

#[test]
fn unknown_command_bytes() {
    assert_eq!(Command::try_from([0x00, 0x00]), None);
    assert_eq!(Command::try_from([0x20, 0x01]), None);
    assert_eq!(Command::try_from([0x0B, 0x01]), None);
    assert_eq!(Command::try_from([0x18, 0x55]), Some(Command::Stop));
}
