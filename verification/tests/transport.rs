use charlcd::signal::{Level, LineAction, TransferMode};
use charlcd::timing::TimingProfile;
use charlcd::transport::byte_actions;

fn nibble_sequence(rs: Level, d4: Level, d5: Level, d6: Level, d7: Level) -> Vec<LineAction> {
    vec![
        LineAction::SetRegisterSelect(rs),
        LineAction::SetData { d4, d5, d6, d7 },
        LineAction::Wait(60),
        LineAction::SetEnable(Level::High),
        LineAction::Wait(300),
        LineAction::SetEnable(Level::Low),
        LineAction::Wait(10),
    ]
}

#[test]
fn data_byte_is_two_strobe_cycles_high_nibble_first() {
    let t = TimingProfile::conservative();
    // 0xA3: high nibble 1010, low nibble 0011, least significant bit on d4.
    let actions = byte_actions(TransferMode::Data, 0xA3, &t);
    let mut expected = nibble_sequence(
        Level::High,
        Level::Low,
        Level::High,
        Level::Low,
        Level::High,
    );
    expected.extend(nibble_sequence(
        Level::High,
        Level::High,
        Level::High,
        Level::Low,
        Level::Low,
    ));
    assert_eq!(actions, expected);
}

#[test]
fn command_byte_adds_execution_settle_and_drives_rs_low() {
    let t = TimingProfile::conservative();
    // Clear Display: 0x01.
    let actions = byte_actions(TransferMode::Command, 0x01, &t);
    let mut expected = nibble_sequence(
        Level::Low,
        Level::Low,
        Level::Low,
        Level::Low,
        Level::Low,
    );
    expected.extend(nibble_sequence(
        Level::Low,
        Level::High,
        Level::Low,
        Level::Low,
        Level::Low,
    ));
    expected.push(LineAction::Wait(37));
    assert_eq!(actions, expected);
}

#[test]
fn custom_profile_delays_appear_in_the_sequence() {
    let t = TimingProfile::new(100, 450, 20, 50);
    let actions = byte_actions(TransferMode::Data, 0x00, &t);
    assert_eq!(actions[2], LineAction::Wait(100));
    assert_eq!(actions[4], LineAction::Wait(450));
    assert_eq!(actions[6], LineAction::Wait(20));
    assert_eq!(actions.len(), 14);
}
