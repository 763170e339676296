use windows_kernel::string::{
    strlen, wcslen, RtlAnsiStringToUnicodeString, RtlCreateUnicodeString, RtlInitAnsiString, ANSI_STRING,
    MAX_ANSI_LENGTH, UNICODE_STRING,
};
use windows_kernel::sys::base::{FALSE, STATUS_INVALID_PARAMETER_2, STATUS_SUCCESS, TRUE};

#[test]
fn strlen_stops_at_first_zero() {
    assert_eq!(strlen(b"ab\0cd\0"), 2);
    assert_eq!(strlen(b"\0"), 0);
    assert_eq!(wcslen(&[7u16, 8, 9, 0, 1]), 3);
    assert_eq!(strlen(b"abc"), 3);
    assert_eq!(wcslen(&[]), 0);
}

#[test]
fn ansi_from_bytes_appends_terminator() {
    let s = ANSI_STRING::from_bytes(b"abc");
    assert_eq!(s.Buffer, vec![b'a', b'b', b'c', 0]);
    assert_eq!(s.Length, 3);
    assert_eq!(s.MaximumLength, 4);
}

#[test]
fn ansi_from_bytes_keeps_existing_terminator() {
    let s = ANSI_STRING::from_bytes(b"ab\0");
    assert_eq!(s.Buffer, vec![b'a', b'b', 0]);
    assert_eq!(s.Length, 2);
    assert_eq!(s.MaximumLength, 3);
}

#[test]
fn ansi_from_bytes_stops_at_interior_zero() {
    let s = ANSI_STRING::from_bytes(b"a\0b");
    assert_eq!(s.Buffer, vec![b'a', 0, b'b', 0]);
    assert_eq!(s.Length, 1);
    assert_eq!(s.MaximumLength, 2);
}

#[test]
fn ansi_length_is_cut_at_maximum() {
    let bytes = vec![b'x'; 70000];
    let s = ANSI_STRING::from_bytes(&bytes);
    assert_eq!(s.Length, MAX_ANSI_LENGTH);
    assert_eq!(s.MaximumLength, 65535);
    assert_eq!(s.Buffer.len(), 70001);
}

#[test]
fn ansi_from_str_uses_utf8_bytes() {
    let s = ANSI_STRING::from_str("é");
    assert_eq!(s.Buffer, vec![0xC3, 0xA9, 0]);
    assert_eq!(s.Length, 2);
}

#[test]
fn ansi_default_is_empty() {
    let s = ANSI_STRING::default();
    assert_eq!(s.Length, 0);
    assert_eq!(s.MaximumLength, 0);
    assert!(s.Buffer.is_empty());
}

#[test]
fn init_ansi_string_counts_to_zero() {
    let mut s = ANSI_STRING::default();
    RtlInitAnsiString(&mut s, vec![b'h', b'i', 0, b'x']);
    assert_eq!(s.Length, 2);
    assert_eq!(s.MaximumLength, 3);
    assert_eq!(s.Buffer, vec![b'h', b'i', 0, b'x']);
}

#[test]
fn unicode_create_port_name() {
    let s = UNICODE_STRING::create("\\mf");
    assert_eq!(s.Length, 6);
    assert_eq!(s.MaximumLength, 8);
    assert_eq!(s.ptr, vec![0x5C, 0x6D, 0x66, 0]);
    assert_eq!(s.as_rust_string(), "\\mf");
}

#[test]
fn unicode_from_str_matches_create() {
    let a = UNICODE_STRING::from_str("hello");
    let b = UNICODE_STRING::create("hello");
    assert_eq!(a.ptr, b.ptr);
    assert_eq!(a.Length, 10);
    assert_eq!(a.as_rust_string(), "hello");
}

#[test]
fn unicode_from_bytes_one_unit_per_byte() {
    let s = UNICODE_STRING::from_bytes(&[0xE9, 0x41]);
    assert_eq!(s.ptr.len(), 3);
    assert_eq!(s.ptr[1], 0x41);
    assert_eq!(s.ptr[2], 0);
    assert_eq!(s.Length, 4);
    assert_eq!(s.MaximumLength, 6);
}

#[test]
fn empty_inputs_give_empty_terminated_strings() {
    let a = ANSI_STRING::from_bytes(b"");
    assert_eq!(a.Buffer, vec![0]);
    assert_eq!(a.Length, 0);
    assert_eq!(a.MaximumLength, 1);
    let u = UNICODE_STRING::create("");
    assert_eq!(u.ptr, vec![0]);
    assert_eq!(u.Length, 0);
    assert_eq!(u.MaximumLength, 2);
    assert_eq!(u.as_rust_string(), "");
    let w = UNICODE_STRING::from_wide(&[]);
    assert_eq!(w.ptr, vec![0]);
    assert_eq!(w.Length, 0);
}

#[test]
fn unicode_from_wide_terminates_unterminated_units() {
    let s = UNICODE_STRING::from_wide(&[0x41, 0x42]);
    assert_eq!(s.ptr, vec![0x41, 0x42, 0]);
    assert_eq!(s.Length, 4);
    assert_eq!(s.MaximumLength, 6);
    assert_eq!(s.as_rust_string(), "AB");
}

#[test]
fn unicode_from_bytes_too_long_is_empty() {
    let bytes = vec![b'a'; 40000];
    let s = UNICODE_STRING::from_bytes(&bytes);
    assert_eq!(s.Length, 0);
    assert_eq!(s.MaximumLength, 0);
    assert!(s.ptr.is_empty());
    assert_eq!(s.as_rust_string(), "");
}

#[test]
fn unicode_from_bytes_longest_that_fits() {
    let bytes = vec![b'a'; 32766];
    let s = UNICODE_STRING::from_bytes(&bytes);
    assert_eq!(s.Length, 65532);
    assert_eq!(s.MaximumLength, 65534);
    assert_eq!(s.ptr.len(), 32767);
}

#[test]
fn unicode_from_wide_copies_to_zero() {
    let s = UNICODE_STRING::from_wide(&[0x41, 0x42, 0]);
    assert_eq!(s.ptr, vec![0x41, 0x42, 0]);
    assert_eq!(s.Length, 4);
    assert_eq!(s.MaximumLength, 6);
    assert_eq!(s.as_rust_string(), "AB");
}

#[test]
fn unicode_from_wide_interior_zero() {
    let s = UNICODE_STRING::from_wide(&[0x41, 0, 0x42, 0x43]);
    assert_eq!(s.ptr, vec![0x41, 0]);
    assert_eq!(s.Length, 2);
    assert_eq!(s.MaximumLength, 4);
}

#[test]
fn unicode_from_wide_too_long_is_empty() {
    let mut units = vec![0x61u16; 32767];
    units.push(0);
    let s = UNICODE_STRING::from_wide(&units);
    assert_eq!(s.Length, 0);
    assert!(s.ptr.is_empty());
}

#[test]
fn unicode_from_ansi_converts_text() {
    let a = ANSI_STRING::from_bytes(b"Hi\0junk");
    let u = UNICODE_STRING::from_ansi(&a);
    assert_eq!(u.ptr, vec![0x48, 0x69, 0]);
    assert_eq!(u.Length, 4);
}

#[test]
fn unicode_surrogate_pair_decodes() {
    let s = UNICODE_STRING::from_wide(&[0xD83D, 0xDE00, 0]);
    assert_eq!(s.as_rust_string(), "\u{1F600}");
}

#[test]
fn unicode_unpaired_surrogate_gives_empty_string() {
    let s = UNICODE_STRING::from_wide(&[0x41, 0xD800, 0]);
    assert_eq!(s.as_rust_string(), "");
}

#[test]
fn unicode_text_is_length_bounded() {
    let s = UNICODE_STRING { Length: 2, MaximumLength: 6, ptr: vec![0x41, 0x42, 0] };
    assert_eq!(s.as_rust_string(), "A");
}

#[test]
fn unicode_default_is_empty() {
    let s = UNICODE_STRING::default();
    assert_eq!(s.Length, 0);
    assert_eq!(s.MaximumLength, 0);
    assert!(s.ptr.is_empty());
}

#[test]
fn base_view_round_trip() {
    let s = UNICODE_STRING::create("abc");
    let b = s.as_base_unicode();
    assert_eq!(b.Length, s.Length);
    assert_eq!(b.MaximumLength, s.MaximumLength);
    assert_eq!(b.Buffer, &s.ptr[..]);
    let p = s.as_ptr();
    assert_eq!(p.Buffer, b.Buffer);
    assert_eq!(p.Length, b.Length);
    let t = UNICODE_STRING::from_base(b);
    assert_eq!(t.ptr, s.ptr);
    assert_eq!(t.Length, s.Length);
    assert_eq!(t.MaximumLength, s.MaximumLength);
}

#[test]
fn create_unicode_string_reports_overflow() {
    let mut s = UNICODE_STRING::from_wide(&[0x5A, 0]);
    let mut units = vec![0x61u16; 40000];
    units.push(0);
    assert_eq!(RtlCreateUnicodeString(&mut s, &units), FALSE);
    assert_eq!(s.ptr, vec![0x5A, 0]);
    assert_eq!(s.Length, 2);
    assert_eq!(RtlCreateUnicodeString(&mut s, &[0x31, 0x32, 0]), TRUE);
    assert_eq!(s.ptr, vec![0x31, 0x32, 0]);
}

#[test]
fn ansi_to_unicode_reports_overflow() {
    let bytes = vec![b'q'; 33000];
    let a = ANSI_STRING::from_bytes(&bytes);
    let mut u = UNICODE_STRING::default();
    assert_eq!(RtlAnsiStringToUnicodeString(&mut u, &a), STATUS_INVALID_PARAMETER_2);
    assert!(u.ptr.is_empty());
    let b = ANSI_STRING::from_bytes(b"ok");
    assert_eq!(RtlAnsiStringToUnicodeString(&mut u, &b), STATUS_SUCCESS);
    assert_eq!(u.ptr, vec![0x6F, 0x6B, 0]);
    assert_eq!(u.MaximumLength, 6);
}

#[test]
fn from_impls_match_constructors() {
    let a: ANSI_STRING = ANSI_STRING::from(&b"xy"[..]);
    assert_eq!(a.Buffer, vec![b'x', b'y', 0]);
    let b: ANSI_STRING = ANSI_STRING::from("xy");
    assert_eq!(b.Buffer, a.Buffer);
    let u: UNICODE_STRING = UNICODE_STRING::from("xy");
    assert_eq!(u.ptr, vec![0x78, 0x79, 0]);
    let v: UNICODE_STRING = UNICODE_STRING::from(&b"xy"[..]);
    assert_eq!(v.ptr, u.ptr);
    let w: UNICODE_STRING = UNICODE_STRING::from(&[0x78u16, 0x79][..]);
    assert_eq!(w.ptr, u.ptr);
    assert_eq!(w.Length, 4);
    let t: UNICODE_STRING = UNICODE_STRING::from(u.as_base_unicode());
    assert_eq!(t.ptr, u.ptr);
    assert_eq!(t.MaximumLength, u.MaximumLength);
}

#[test]
fn reads_need_only_the_text_in_the_buffer() {
    let s = UNICODE_STRING { Length: 4, MaximumLength: 0, ptr: vec![0x41, 0x42] };
    assert_eq!(s.as_rust_string(), "AB");
    let a = ANSI_STRING { Length: 2, MaximumLength: 0, Buffer: vec![b'o', b'k'] };
    let u = UNICODE_STRING::from_ansi(&a);
    assert_eq!(u.ptr, vec![0x6F, 0x6B, 0]);
    assert_eq!(u.Length, 4);
}
