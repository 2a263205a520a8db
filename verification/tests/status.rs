use pulseaudio::status::{error_if_negative, error_if_nonzero, flag_or_error};

#[test]
fn negative_codes_are_errors() {
    assert_eq!(error_if_negative(-1), Err(-1));
    assert_eq!(error_if_negative(-15), Err(-15));
    assert_eq!(error_if_negative(i32::MIN), Err(i32::MIN as isize));
    assert_eq!(error_if_negative(0), Ok(()));
    assert_eq!(error_if_negative(3), Ok(()));
}

#[test]
fn nonzero_codes_are_errors() {
    assert_eq!(error_if_nonzero(0), Ok(()));
    assert_eq!(error_if_nonzero(-3), Err(-3));
    assert_eq!(error_if_nonzero(7), Err(7));
}

#[test]
fn flag_answers() {
    assert_eq!(flag_or_error(1), Ok(true));
    assert_eq!(flag_or_error(0), Ok(false));
    assert_eq!(flag_or_error(2), Ok(false));
    assert_eq!(flag_or_error(-2), Err(-2));
}
