use walkingpad::state::{decode, BeltState, DecodeError, Mode, State};

fn sample() -> Vec<u8> {
    vec![248, 162, 1, 12, 0, 0, 0, 10, 0, 0, 50, 0, 1, 100, 8]
}

#[test]
fn decode_reference_frame() {
    let s = decode(&sample()).unwrap();
    assert_eq!(s.belt_state, BeltState::Moving);
    assert_eq!(s.speed, 12);
    assert_eq!(s.mode, Mode::Automat);
    assert_eq!(s.time, 10);
    assert_eq!(s.distance, 50);
    assert_eq!(s.steps, 356);
    assert_eq!(s.last_speed, 8);
}

#[test]
fn state_new_matches_decode() {
    assert_eq!(State::new(sample()), Some(decode(&sample()).unwrap()));
}

#[test]
fn decode_large_three_byte_fields() {
    let s = decode(&[248, 162, 0, 0, 2, 255, 255, 255, 1, 0, 0, 18, 52, 86, 0]).unwrap();
    assert_eq!(s.belt_state, BeltState::Static);
    assert_eq!(s.mode, Mode::Standby);
    assert_eq!(s.time, 16_777_215);
    assert_eq!(s.distance, 65_536);
    assert_eq!(s.steps, 0x123456);
}

#[test]
fn unknown_enumerants_decode_to_undefined() {
    let mut f = sample();
    f[2] = 5;
    f[4] = 9;
    let s = decode(&f).unwrap();
    assert_eq!(s.belt_state, BeltState::Undefined);
    assert_eq!(s.mode, Mode::Undefined);
    assert_eq!(s.speed, 12);
}

#[test]
fn malformed_frames_are_not_state_frames() {
    assert_eq!(decode(&[]), Err(DecodeError::NotAStateFrame));
    assert_eq!(decode(&[248]), Err(DecodeError::NotAStateFrame));
    assert_eq!(decode(&[248, 162]), Err(DecodeError::NotAStateFrame));
    let mut f = sample();
    f[0] = 247;
    assert_eq!(decode(&f), Err(DecodeError::NotAStateFrame));
    let mut g = sample();
    g[1] = 165;
    assert_eq!(decode(&g), Err(DecodeError::NotAStateFrame));
    assert_eq!(decode(&sample()[..14]), Err(DecodeError::NotAStateFrame));
    assert_eq!(State::new(vec![1, 2, 3]), None);
}

#[test]
fn longer_frames_decode() {
    let mut f = sample();
    f.push(99);
    assert_eq!(decode(&f), decode(&sample()));
}

#[test]
fn check_data_requires_magic_and_length() {
    assert!(State::check_data(&sample()));
    assert!(!State::check_data(&vec![248, 162]));
    assert!(!State::check_data(&vec![]));
}

#[test]
fn convert_is_big_endian() {
    assert_eq!(State::convert(&[0, 1, 100]), 356);
    assert_eq!(State::convert(&[1, 0, 0]), 65_536);
    assert_eq!(State::convert(&[7]), 7);
    assert_eq!(State::convert(&[]), 0);
}

#[test]
fn enumerant_conversions() {
    assert_eq!(BeltState::from(0), BeltState::Static);
    assert_eq!(BeltState::from(1), BeltState::Moving);
    assert_eq!(BeltState::from(2), BeltState::Undefined);
    assert_eq!(Mode::from(0), Mode::Automat);
    assert_eq!(Mode::from(1), Mode::Manual);
    assert_eq!(Mode::from(2), Mode::Standby);
    assert_eq!(Mode::from(3), Mode::Undefined);
    assert_eq!(Mode::Standby.code(), 2);
    assert_eq!(Mode::Undefined.code(), 3);
}
