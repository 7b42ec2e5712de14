use grb_param::cstr::{c_str_length, has_nul, to_c_string, NUL};

#[test]
fn length_of_empty_buffer_is_zero() {
    assert_eq!(c_str_length(&[]), 0);
}

#[test]
fn length_stops_at_first_zero_byte() {
    assert_eq!(c_str_length(b"abc\0def\0"), 3);
    assert_eq!(c_str_length(b"\0abc"), 0);
    assert_eq!(c_str_length(&[NUL, NUL, NUL]), 0);
}

#[test]
fn length_of_unterminated_buffer_is_its_size() {
    assert_eq!(c_str_length(b"abc"), 3);
    let full = [b'x'; 512];
    assert_eq!(c_str_length(&full), 512);
}

#[test]
fn length_with_terminator_in_last_place() {
    let mut buf = [b'y'; 512];
    buf[511] = 0;
    assert_eq!(c_str_length(&buf), 511);
}

#[test]
fn c_string_appends_terminator() {
    assert_eq!(to_c_string(b"OutputFlag"), Some(b"OutputFlag\0".to_vec()));
    assert_eq!(to_c_string(b""), Some(vec![0u8]));
    assert_eq!(to_c_string(&[0xFF, 0x80, 1]), Some(vec![0xFF, 0x80, 1, 0]));
}

#[test]
fn c_string_refuses_zero_bytes() {
    assert_eq!(to_c_string(b"bad\0name"), None);
    assert_eq!(to_c_string(b"\0"), None);
    assert_eq!(to_c_string(b"tail\0"), None);
    assert_eq!(to_c_string(b"\0head"), None);
}

#[test]
fn c_string_reads_back_with_its_own_length() {
    let c = to_c_string(b"solver.log").unwrap();
    assert_eq!(c.len(), 11);
    assert_eq!(c_str_length(&c), 10);
    assert_eq!(&c[..10], b"solver.log");
}

#[test]
fn zero_bytes_are_found_wherever_they_stand() {
    assert!(!has_nul(b""));
    assert!(!has_nul(b"OutputFlag"));
    assert!(!has_nul(&[0xFF; 512]));
    assert!(has_nul(b"\0"));
    assert!(has_nul(b"\0abc"));
    assert!(has_nul(b"ab\0c"));
    assert!(has_nul(b"abc\0"));
}
