use asr_capi::output::{get_buf_len, output_str, output_vec, OutputBuffer};

#[test]
fn buf_len_is_zero_before_any_produce() {
    let buf = OutputBuffer::new();
    assert_eq!(get_buf_len(&buf), 0);
    assert_eq!(buf.as_bytes(), b"");
}

#[test]
fn produce_reports_byte_length_and_terminates() {
    let mut buf = OutputBuffer::new();
    output_str(&mut buf, "hello");
    assert_eq!(get_buf_len(&buf), 5);
    assert_eq!(buf.as_bytes(), b"hello\0");
}

#[test]
fn produce_empty_string() {
    let mut buf = OutputBuffer::new();
    output_str(&mut buf, "");
    assert_eq!(get_buf_len(&buf), 0);
    assert_eq!(buf.as_bytes(), b"\0");
}

#[test]
fn produce_multibyte_string_counts_bytes() {
    let mut buf = OutputBuffer::new();
    output_str(&mut buf, "\u{e9}\u{e9}");
    assert_eq!(get_buf_len(&buf), 4);
}

#[test]
fn produce_overwrites_the_slot() {
    let mut buf = OutputBuffer::new();
    output_str(&mut buf, "a long first string");
    output_str(&mut buf, "ok");
    assert_eq!(get_buf_len(&buf), 2);
    assert_eq!(buf.as_bytes(), b"ok\0");
}

#[test]
fn produce_raw_bytes() {
    let mut buf = OutputBuffer::new();
    output_vec(&mut buf, &[1u8, 2, 3]);
    assert_eq!(get_buf_len(&buf), 3);
    assert_eq!(buf.as_bytes(), &[1u8, 2, 3, 0]);
}
