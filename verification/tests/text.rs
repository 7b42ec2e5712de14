use grb_param::text::copy_c_str;

#[test]
fn copies_up_to_terminator() {
    assert_eq!(copy_c_str(b"solver.log\0garbage"), "solver.log");
}

#[test]
fn copies_empty_string() {
    assert_eq!(copy_c_str(b"\0"), "");
    assert_eq!(copy_c_str(b""), "");
    assert_eq!(copy_c_str(&[0u8; 512]), "");
}

#[test]
fn copies_whole_buffer_without_terminator() {
    let full = [b'a'; 512];
    let s = copy_c_str(&full);
    assert_eq!(s.len(), 512);
    assert!(s.bytes().all(|b| b == b'a'));
}

#[test]
fn embedded_zero_truncates() {
    assert_eq!(copy_c_str(b"bad\0name\0"), "bad");
}

#[test]
fn copies_multibyte_text() {
    let text = "Größe/наука/日本語/🦀";
    let mut buf = text.as_bytes().to_vec();
    buf.push(0);
    buf.extend_from_slice(b"rest");
    assert_eq!(copy_c_str(&buf), text);
}

#[test]
fn invalid_utf8_is_replaced() {
    assert_eq!(copy_c_str(&[b'a', 0xFF, b'b', 0]), "a\u{FFFD}b");
    assert_eq!(copy_c_str(&[0xC3, 0]), "\u{FFFD}");
    assert_eq!(copy_c_str(&[0xE2, 0x82, 0]), "\u{FFFD}");
}

#[test]
fn invalid_utf8_after_terminator_is_not_read() {
    assert_eq!(copy_c_str(&[b'o', b'k', 0, 0xFF, 0xFE]), "ok");
}
