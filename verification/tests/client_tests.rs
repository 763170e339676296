use windows_kernel::client::{reply_text, request_buffer, REPLY_BUFFER_SIZE, REPLY_LENGTH, REQUEST_LENGTH};
use windows_kernel::driver::MiniSendRec;

#[test]
fn request_is_text_then_zeros() {
    let b = request_buffer();
    assert_eq!(b.len(), REQUEST_LENGTH as usize);
    assert_eq!(&b[..33], b"Hello from Rust user application\n");
    assert!(b[33..].iter().all(|&x| x == 0));
}

#[test]
fn reply_text_reads_to_zero() {
    assert_eq!(reply_text(b"abc\0def"), Some("abc".to_string()));
    assert_eq!(reply_text(b"\0"), Some(String::new()));
    assert_eq!(reply_text(b"no zero"), Some("no zero".to_string()));
    assert_eq!(reply_text("h\u{e9}\0".as_bytes()), Some("h\u{e9}".to_string()));
}

#[test]
fn reply_text_rejects_invalid_utf8() {
    assert_eq!(reply_text(&[0xFF, 0x41, 0]), None);
}

#[test]
fn request_and_reply_round_trip() {
    let request = request_buffer();
    let mut reply = vec![0u8; REPLY_BUFFER_SIZE];
    let served = MiniSendRec(&request, &mut reply);
    assert_eq!(served.message, b"Hello from Rust user application\n".to_vec());
    assert_eq!(reply_text(&reply), Some("Rust from kernel".to_string()));
    assert_eq!(REPLY_LENGTH, 50);
}
