use walkingpad::http::{check_speed, requested_speed, SpeedError};

#[test]
fn speed_bounds_are_accepted() {
    assert_eq!(check_speed(0), Ok(0));
    assert_eq!(check_speed(60), Ok(60));
    assert_eq!(requested_speed(Some("0")), Ok(0));
    assert_eq!(requested_speed(Some("60")), Ok(60));
}

#[test]
fn speeds_out_of_range_are_refused() {
    assert_eq!(check_speed(61), Err(SpeedError::NotAllowed(61)));
    assert_eq!(check_speed(-1), Err(SpeedError::NotAllowed(-1)));
    assert_eq!(requested_speed(Some("61")), Err(SpeedError::NotAllowed(61)));
    assert_eq!(requested_speed(Some("-5")), Err(SpeedError::NotAllowed(-5)));
}

#[test]
fn missing_speed_means_zero() {
    assert_eq!(requested_speed(None), Ok(0));
}

#[test]
fn non_integer_speed_is_not_provided() {
    assert_eq!(requested_speed(Some("fast")), Err(SpeedError::NotProvided));
    assert_eq!(requested_speed(Some("")), Err(SpeedError::NotProvided));
    assert_eq!(requested_speed(Some(" 5")), Err(SpeedError::NotProvided));
    assert_eq!(requested_speed(Some("99999999999")), Err(SpeedError::NotProvided));
}

#[test]
fn signed_and_plain_literals_parse() {
    assert_eq!(requested_speed(Some("42")), Ok(42));
    assert_eq!(requested_speed(Some("+7")), Ok(7));
    assert_eq!(requested_speed(Some("-0")), Ok(0));
}
