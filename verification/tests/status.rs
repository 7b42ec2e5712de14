use grb_param::status::check_error_code;

#[test]
fn zero_status_is_success() {
    assert_eq!(check_error_code(0), Ok(()));
}

#[test]
fn nonzero_status_is_kept() {
    assert_eq!(check_error_code(10003), Err(10003));
    assert_eq!(check_error_code(-1), Err(-1));
    assert_eq!(check_error_code(i32::MIN), Err(i32::MIN));
}
