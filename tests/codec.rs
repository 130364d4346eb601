use walkingpad::codec::{crc, encode, seal, validate_frame, Command, Speed};
use walkingpad::state::Mode;

#[test]
fn crc_covers_class_and_payload() {
    assert_eq!(crc(&[247, 162, 0, 0, 162, 253]), 162);
    assert_eq!(crc(&[247, 162, 4, 1, 255, 253]), 167);
}

#[test]
fn crc_wraps_modulo_256() {
    assert_eq!(crc(&[247, 200, 100, 0, 253]), 44);
    assert_eq!(crc(&[247, 255, 255, 255, 0, 253]), 253);
}

#[test]
fn crc_of_empty_region_is_zero() {
    assert_eq!(crc(&[247, 9, 253]), 0);
}

#[test]
fn seal_fills_only_the_checksum_slot() {
    assert_eq!(seal(&[247, 162, 1, 7, 255, 253]), vec![247, 162, 1, 7, 170, 253]);
}

#[test]
fn encode_start() {
    assert_eq!(encode(Command::Start), vec![247, 162, 4, 1, 167, 253]);
}

#[test]
fn encode_stop_is_speed_zero() {
    assert_eq!(encode(Command::Stop), vec![247, 162, 1, 0, 163, 253]);
    assert_eq!(encode(Command::Stop), encode(Command::SetSpeed(0)));
}

#[test]
fn encode_speeds() {
    assert_eq!(encode(Command::SetSpeed(12)), vec![247, 162, 1, 12, 175, 253]);
    assert_eq!(encode(Command::SetSpeed(60)), vec![247, 162, 1, 60, 223, 253]);
    assert_eq!(encode(Command::SetSpeed(Speed::Six.value())), vec![247, 162, 1, 6, 169, 253]);
}

#[test]
fn encode_modes() {
    assert_eq!(encode(Command::SetMode(Mode::Automat)), vec![247, 162, 2, 0, 164, 253]);
    assert_eq!(encode(Command::SetMode(Mode::Manual)), vec![247, 162, 2, 1, 165, 253]);
    assert_eq!(encode(Command::SetMode(Mode::Standby)), vec![247, 162, 2, 2, 166, 253]);
}

#[test]
fn encode_request_stats() {
    assert_eq!(encode(Command::RequestStats), vec![247, 162, 0, 0, 162, 253]);
}

#[test]
fn encode_request_profile() {
    assert_eq!(
        encode(Command::RequestProfile),
        vec![247, 165, 96, 74, 77, 147, 113, 41, 201, 253]
    );
}

#[test]
fn encoded_frames_carry_their_checksum() {
    let cmds = [
        Command::Stop,
        Command::Start,
        Command::SetSpeed(255),
        Command::SetMode(Mode::Undefined),
        Command::RequestStats,
        Command::RequestProfile,
    ];
    for cmd in cmds {
        let f = encode(cmd);
        let sum: u32 = f[1..f.len() - 2].iter().map(|b| *b as u32).sum();
        assert_eq!(f[f.len() - 2] as u32, sum % 256);
        assert!(validate_frame(&f));
    }
}

#[test]
fn validate_frame_rejects_bad_frames() {
    assert!(!validate_frame(&[]));
    assert!(!validate_frame(&[247, 253]));
    assert!(!validate_frame(&[247, 162, 4, 1, 168, 253]));
    assert!(!validate_frame(&[246, 162, 4, 1, 167, 253]));
    assert!(!validate_frame(&[247, 162, 4, 1, 167, 252]));
}

#[test]
fn speed_values() {
    assert_eq!(Speed::Zero.value(), 0);
    assert_eq!(Speed::Three.value(), 3);
    assert_eq!(Speed::Six.value(), 6);
}
