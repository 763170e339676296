//! The user-mode client of the driver: the message it sends over the
//! communication port and the reading of the driver's reply.
use vstd::prelude::*;
use vstd::string::StringSliceAdditionalSpecFns;
use vstd::utf8::{decode_utf8, valid_utf8};
use crate::driver::{nul_prefix, reply_bytes, reply_chars};
use crate::string::{len_to_nul, lemma_len_to_nul, lemma_len_to_nul_found, strlen};

verus! {

/// The text that the client sends.
pub open spec fn request_chars() -> Seq<char> {
    "Hello from Rust user application\n"@
}

/// The number of bytes that the client sends.
pub const REQUEST_LENGTH: u32 = 50;

/// The number of bytes that the client lets the driver reply with.
pub const REPLY_LENGTH: u32 = 50;

/// The size of the client's reply buffer.
pub const REPLY_BUFFER_SIZE: usize = 256;

/// The bytes that the client sends: the text, then zero bytes up to
/// `REQUEST_LENGTH` bytes.
pub open spec fn request_bytes() -> Seq<u8> {
    let text = request_chars().map_values(|c: char| c as u8);
    text + Seq::new((REQUEST_LENGTH - text.len()) as nat, |i: int| 0u8)
}

/// Builds the bytes that the client sends.
pub fn request_buffer() -> (b: Vec<u8>)
    ensures
        b@ == request_bytes(),
        b@.len() == REQUEST_LENGTH,
{
    let text = "Hello from Rust user application\n";
    proof {
        reveal_strlit("Hello from Rust user application\n");
        vstd::utf8::is_ascii_chars_encode_utf8(text@);
    }
    let bytes = text.as_bytes();
    proof {
        assert(bytes@ =~= request_chars().map_values(|c: char| c as u8));
    }
    let mut b = vstd::slice::slice_to_vec(bytes);
    while b.len() < REQUEST_LENGTH as usize
        invariant
            bytes@.len() == 33,
            33 <= b@.len() <= REQUEST_LENGTH,
            b@.take(33) == bytes@,
            forall|j: int| 33 <= j < b@.len() ==> b@[j] == 0u8,
        decreases REQUEST_LENGTH - b@.len(),
    {
        b.push(0);
        proof {
            assert(b@.take(33) =~= bytes@);
        }
    }
    proof {
        assert(b@ =~= request_bytes());
    }
    b
}

/// Reads bytes as UTF-8 by `std::str::from_utf8`, which succeeds exactly on
/// valid UTF-8, giving the text whose UTF-8 bytes are the bytes read.
#[verifier::external_body]
pub(crate) fn str_from_utf8(bytes: &[u8]) -> (res: Option<&str>)
    ensures
        res is Some <==> valid_utf8(bytes@),
        res matches Some(s) ==> s.spec_bytes() == bytes@,
{
    std::str::from_utf8(bytes).ok()
}

/// The text of a reply buffer: its bytes before the first zero byte (all of
/// them where it holds none), read as UTF-8; `None` where they are not
/// valid UTF-8.
pub fn reply_text(buffer: &[u8]) -> (text: Option<String>)
    ensures
        text is Some <==> valid_utf8(nul_prefix(buffer@)),
        text matches Some(s) ==> s@ == decode_utf8(nul_prefix(buffer@)),
{
    let n = strlen(buffer);
    let bytes = vstd::slice::slice_subrange(buffer, 0, n);
    match str_from_utf8(bytes) {
        Some(s) => {
            proof {
                vstd::utf8::encode_utf8_decode_utf8(s@);
            }
            Some(s.to_owned())
        },
        None => None,
    }
}

/// What the client sends is what the driver reads: the text of the bytes
/// the client sends, up to their first zero byte, is the request text.
pub proof fn law_request_read_back()
    ensures
        request_bytes().contains(0u8),
        nul_prefix(request_bytes()) == request_chars().map_values(|c: char| c as u8),
{
    reveal_strlit("Hello from Rust user application\n");
    let b = request_bytes();
    let text = request_chars().map_values(|c: char| c as u8);
    assert(text.len() == 33);
    assert(b[33] == 0u8);
    assert forall|j: int| 0 <= j < 33 implies b[j] != 0u8 by {
        assert(b[j] == text[j]);
    }
    lemma_len_to_nul(b, 0u8, 33);
    assert(nul_prefix(b) =~= text);
}

/// What the driver writes is what the client reads: whatever the client's
/// buffer held after the reply, reading the reply text gives back the
/// driver's text.
pub proof fn law_reply_read_back(rest: Seq<u8>)
    ensures
        (reply_bytes() + rest).contains(0u8),
        valid_utf8(nul_prefix(reply_bytes() + rest)),
        decode_utf8(nul_prefix(reply_bytes() + rest)) == reply_chars(),
{
    reveal_strlit("Rust from kernel");
    let b = reply_bytes() + rest;
    let text = reply_chars().map_values(|c: char| c as u8);
    assert(text.len() == 16);
    assert(b[16] == 0u8);
    assert forall|j: int| 0 <= j < 16 implies b[j] != 0u8 by {
        assert(b[j] == text[j]);
    }
    lemma_len_to_nul(b, 0u8, 16);
    assert(nul_prefix(b) =~= text);
    assert(vstd::utf8::is_ascii_chars(reply_chars()));
    vstd::utf8::is_ascii_chars_encode_utf8(reply_chars());
    assert(vstd::utf8::encode_utf8(reply_chars()) =~= text);
    vstd::utf8::encode_utf8_valid_utf8(reply_chars());
    vstd::utf8::encode_utf8_decode_utf8(reply_chars());
}

} // verus!
