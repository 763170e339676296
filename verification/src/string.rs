//! Counted kernel strings: `ANSI_STRING` holds bytes, `UNICODE_STRING` holds
//! UTF-16 code units. Lengths are counted in bytes, as the kernel counts them.
//!
//! Each string owns its buffer. The kernel routines that fill a string in
//! (`RtlInitAnsiString`, `RtlCreateUnicodeString`,
//! `RtlAnsiStringToUnicodeString`) are given here by what they do to the
//! counted-string fields, so that the conversions between the string kinds
//! are proved against that behaviour. The conversion from bytes to UTF-16
//! uses a single-byte code page in which each byte, ASCII or not, becomes
//! the code unit of its own value.
use vstd::prelude::*;
use vstd::slice::slice_to_vec;
use vstd::string::StringSliceAdditionalSpecFns;
use vstd::utf8::{encode_scalar, encode_utf8, is_scalar};
use crate::sys::base;
use crate::sys::base::{BOOLEAN, FALSE, NTSTATUS, STATUS_INVALID_PARAMETER_2, STATUS_SUCCESS, TRUE, USHORT};

verus! {

/// The number of elements of `s` before its first `nul`, or the length of
/// `s` where it holds no `nul`.
pub open spec fn len_to_nul<T>(s: Seq<T>, nul: T) -> nat
    decreases s.len(),
{
    if s.len() == 0 {
        0
    } else if s[0] == nul {
        0
    } else {
        1 + len_to_nul(s.drop_first(), nul)
    }
}

/// `len_to_nul` is the index of the first `nul`, or the length.
pub proof fn lemma_len_to_nul<T>(s: Seq<T>, nul: T, i: int)
    requires
        0 <= i <= s.len(),
        forall|j: int| 0 <= j < i ==> s[j] != nul,
        i == s.len() || s[i] == nul,
    ensures
        len_to_nul(s, nul) == i,
    decreases i,
{
    if i > 0 {
        assert forall|j: int| 0 <= j < i - 1 implies s.drop_first()[j] != nul by {
            assert(s.drop_first()[j] == s[j + 1]);
        }
        lemma_len_to_nul(s.drop_first(), nul, i - 1);
    }
}

/// Where `s` holds a `nul`, the first one stands at `len_to_nul(s, nul)`.
pub proof fn lemma_len_to_nul_found<T>(s: Seq<T>, nul: T)
    requires
        s.contains(nul),
    ensures
        len_to_nul(s, nul) < s.len(),
        s[len_to_nul(s, nul) as int] == nul,
        forall|j: int| 0 <= j < len_to_nul(s, nul) ==> s[j] != nul,
    decreases s.len(),
{
    if s[0] != nul {
        let k = choose|k: int| 0 <= k < s.len() && s[k] == nul;
        assert(s.drop_first()[k - 1] == nul);
        lemma_len_to_nul_found(s.drop_first(), nul);
        assert forall|j: int| 0 <= j < len_to_nul(s, nul) implies s[j] != nul by {
            if j > 0 {
                assert(s[j] == s.drop_first()[j - 1]);
            }
        }
    }
}

/// The number of bytes before the first zero byte of `s`, or its length
/// where it holds no zero byte.
pub fn strlen(s: &[u8]) -> (n: usize)
    ensures
        n == len_to_nul(s@, 0u8),
        n <= s@.len(),
        s@.contains(0u8) ==> n < s@.len(),
{
    let mut i: usize = 0;
    while i < s.len() && s[i] != 0
        invariant
            0 <= i <= s@.len(),
            forall|j: int| 0 <= j < i ==> s@[j] != 0u8,
        decreases s@.len() - i,
    {
        i = i + 1;
    }
    proof {
        lemma_len_to_nul(s@, 0u8, i as int);
    }
    i
}

/// The number of code units before the first zero unit of `s`, or its
/// length where it holds no zero unit.
pub fn wcslen(s: &[u16]) -> (n: usize)
    ensures
        n == len_to_nul(s@, 0u16),
        n <= s@.len(),
        s@.contains(0u16) ==> n < s@.len(),
{
    let mut i: usize = 0;
    while i < s.len() && s[i] != 0
        invariant
            0 <= i <= s@.len(),
            forall|j: int| 0 <= j < i ==> s@[j] != 0u16,
        decreases s@.len() - i,
    {
        i = i + 1;
    }
    proof {
        lemma_len_to_nul(s@, 0u16, i as int);
    }
    i
}

/// The longest length, in bytes, that `RtlInitAnsiString` records: the
/// largest `USHORT` less the terminating zero byte.
pub const MAX_ANSI_LENGTH: USHORT = 65534;

/// The length that `RtlInitAnsiString` records for a zero-terminated buffer.
pub open spec fn init_ansi_length(buffer: Seq<u8>) -> nat {
    let n = len_to_nul(buffer, 0u8);
    if n > MAX_ANSI_LENGTH as nat { MAX_ANSI_LENGTH as nat } else { n }
}

/// `buffer` with a zero byte appended where it is empty or its last byte
/// is not zero.
pub open spec fn nul_terminated(buffer: Seq<u8>) -> Seq<u8> {
    if buffer.len() == 0 || buffer.last() != 0u8 {
        buffer.push(0u8)
    } else {
        buffer
    }
}

/// A counted string of bytes. `Length` counts the bytes of the text, not
/// counting a terminating zero; `MaximumLength` counts the bytes of `Buffer`
/// that the string may use. An empty `Buffer` stands for a null buffer.
pub struct ANSI_STRING {
    pub Length: USHORT,
    pub MaximumLength: USHORT,
    pub Buffer: Vec<u8>,
}

impl ANSI_STRING {
    /// The counts fit in the buffer: `Length <= MaximumLength <= Buffer.len()`.
    pub open spec fn wf(&self) -> bool {
        &&& self.Length <= self.MaximumLength
        &&& self.MaximumLength <= self.Buffer@.len()
    }

    /// The bytes of the text: the first `Length` bytes of the buffer.
    pub open spec fn text(&self) -> Seq<u8> {
        self.Buffer@.take(self.Length as int)
    }

    /// Whether this is the empty string with a null buffer.
    pub open spec fn is_empty_null(&self) -> bool {
        &&& self.Length == 0
        &&& self.MaximumLength == 0
        &&& self.Buffer@.len() == 0
    }

    fn create(buffer: &[u8]) -> (s: ANSI_STRING)
        ensures
            s.wf(),
            s.Buffer@ == nul_terminated(buffer@),
            s.Length == init_ansi_length(nul_terminated(buffer@)),
            s.MaximumLength == s.Length + 1,
    {
        ANSI_STRING::from_bytes(buffer)
    }

    /// Builds a string over a copy of `buffer`, zero-terminated: a zero byte
    /// is appended where the buffer is empty or its last byte is not zero. The length is that of
    /// the text before the first zero byte (at most `MAX_ANSI_LENGTH`).
    pub fn from_bytes(buffer: &[u8]) -> (s: ANSI_STRING)
        ensures
            s.wf(),
            s.Buffer@ == nul_terminated(buffer@),
            s.Length == init_ansi_length(nul_terminated(buffer@)),
            s.MaximumLength == s.Length + 1,
    {
        let mut str = ANSI_STRING::default();
        let mut bytes = slice_to_vec(buffer);
        if bytes.len() == 0 || bytes[bytes.len() - 1] != 0 {
            bytes.push(0);
        }
        proof {
            let t = nul_terminated(buffer@);
            assert(bytes@ == t);
            assert(t[t.len() - 1] == 0u8);
        }
        RtlInitAnsiString(&mut str, bytes);
        str
    }

    /// Builds a string over the UTF-8 bytes of `buffer`, as `from_bytes` does.
    pub fn from_str(buffer: &str) -> (s: ANSI_STRING)
        ensures
            s.wf(),
            s.Buffer@ == nul_terminated(buffer.spec_bytes()),
            s.Length == init_ansi_length(nul_terminated(buffer.spec_bytes())),
            s.MaximumLength == s.Length + 1,
    {
        let bytes = buffer.as_bytes();
        ANSI_STRING::from_bytes(bytes)
    }
}

impl Default for ANSI_STRING {
    /// The empty string with a null buffer.
    fn default() -> (s: Self)
        ensures
            s.is_empty_null(),
    {
        ANSI_STRING { Length: 0, MaximumLength: 0, Buffer: Vec::new() }
    }
}

/// Points `DestinationString` at the zero-terminated bytes `SourceString`:
/// `Length` becomes the number of bytes before the first zero byte, cut at
/// `MAX_ANSI_LENGTH`, and `MaximumLength` one more than `Length`.
pub fn RtlInitAnsiString(DestinationString: &mut ANSI_STRING, SourceString: Vec<u8>)
    requires
        SourceString@.contains(0u8),
    ensures
        final(DestinationString).wf(),
        final(DestinationString).Buffer@ == SourceString@,
        final(DestinationString).Length == init_ansi_length(SourceString@),
        final(DestinationString).MaximumLength == final(DestinationString).Length + 1,
{
    let n = strlen(SourceString.as_slice());
    let length: USHORT = if n > MAX_ANSI_LENGTH as usize { MAX_ANSI_LENGTH } else { n as USHORT };
    DestinationString.Length = length;
    DestinationString.MaximumLength = length + 1;
    DestinationString.Buffer = SourceString;
}

/// Each byte as the UTF-16 code unit of the same value: the conversion that
/// this library's `RtlAnsiStringToUnicodeString` makes.
pub open spec fn widen(bytes: Seq<u8>) -> Seq<u16> {
    bytes.map_values(|b: u8| b as u16)
}

/// Whether `u` is a UTF-16 surrogate code unit.
pub open spec fn is_surrogate(u: u16) -> bool {
    0xD800 <= u < 0xE000
}

/// The characters that the UTF-16 code units `units` encode, or `None`
/// where they hold an unpaired surrogate. A unit outside the surrogate range
/// is the character of its own value; a high surrogate (`0xD800..0xDC00`)
/// followed by a low surrogate (`0xDC00..0xE000`) is the character
/// `0x10000 + (high - 0xD800) * 0x400 + (low - 0xDC00)`.
pub open spec fn decode_utf16(units: Seq<u16>) -> Option<Seq<char>>
    decreases units.len(),
{
    if units.len() == 0 {
        Some(Seq::<char>::empty())
    } else if !is_surrogate(units[0]) {
        match decode_utf16(units.drop_first()) {
            Some(rest) => Some(seq![units[0] as char] + rest),
            None => None,
        }
    } else if units[0] < 0xDC00 && units.len() >= 2 && 0xDC00 <= units[1] < 0xE000 {
        let c = 0x10000 + (units[0] - 0xD800) * 0x400 + (units[1] - 0xDC00);
        match decode_utf16(units.subrange(2, units.len() as int)) {
            Some(rest) => Some(seq![c as char] + rest),
            None => None,
        }
    } else {
        None
    }
}

/// The characters `done` followed by `rest`, or `None` where `rest` is.
pub open spec fn prepend_decoded(done: Seq<char>, rest: Option<Seq<char>>) -> Option<Seq<char>> {
    match rest {
        Some(r) => Some(done + r),
        None => None,
    }
}

/// Encoding one more character appends its UTF-8 bytes.
proof fn lemma_encode_utf8_push(chars: Seq<char>, c: char)
    ensures
        encode_utf8(chars.push(c)) == encode_utf8(chars) + encode_scalar(c as u32),
    decreases chars.len(),
{
    if chars.len() == 0 {
        assert(chars.push(c).drop_first() =~= Seq::<char>::empty());
        assert(encode_utf8(Seq::<char>::empty()) =~= Seq::<u8>::empty());
        assert(encode_utf8(chars) =~= Seq::<u8>::empty());
        assert(encode_utf8(chars.push(c)) =~= encode_scalar(c as u32));
    } else {
        lemma_encode_utf8_push(chars.drop_first(), c);
        assert(chars.push(c).drop_first() =~= chars.drop_first().push(c));
        assert(chars.push(c)[0] == chars[0]);
        assert(encode_utf8(chars.push(c)) =~= encode_utf8(chars) + encode_scalar(c as u32));
    }
}

/// Appends the UTF-8 encoding of the scalar `v` to `bytes`.
fn push_utf8(bytes: &mut Vec<u8>, v: u32)
    requires
        is_scalar(v),
    ensures
        final(bytes)@ == old(bytes)@ + encode_scalar(v),
{
    if v <= 0x7F {
        bytes.push((v & 0x7F) as u8);
    } else if v <= 0x7FF {
        bytes.push(0xC0 | ((v >> 6) & 0x1F) as u8);
        bytes.push(0x80 | (v & 0x3F) as u8);
    } else if v <= 0xFFFF {
        bytes.push(0xE0 | ((v >> 12) & 0x0F) as u8);
        bytes.push(0x80 | ((v >> 6) & 0x3F) as u8);
        bytes.push(0x80 | (v & 0x3F) as u8);
    } else {
        bytes.push(0xF0 | ((v >> 18) & 0x7) as u8);
        bytes.push(0x80 | ((v >> 12) & 0x3F) as u8);
        bytes.push(0x80 | ((v >> 6) & 0x3F) as u8);
        bytes.push(0x80 | (v & 0x3F) as u8);
    }
    proof {
        assert(final(bytes)@ =~= old(bytes)@ + encode_scalar(v));
    }
}

/// Decodes UTF-16 code units into a `String`: `None` exactly where the
/// units hold an unpaired surrogate. The characters are decoded here and
/// written as UTF-8, which `str_from_utf8` then reads back as text.
fn string_from_utf16(units: &[u16]) -> (res: Option<String>)
    ensures
        match res {
            Some(s) => decode_utf16(units@) == Some(s@),
            None => decode_utf16(units@) is None,
        },
{
    let ghost mut chars: Seq<char> = Seq::empty();
    let mut bytes: Vec<u8> = Vec::new();
    let mut i: usize = 0;
    proof {
        assert(units@.skip(0) =~= units@);
        assert(Seq::<char>::empty() + Seq::<char>::empty() =~= Seq::<char>::empty());
    }
    while i < units.len()
        invariant
            i <= units@.len(),
            bytes@ == encode_utf8(chars),
            decode_utf16(units@) == prepend_decoded(chars, decode_utf16(units@.skip(i as int))),
        decreases units@.len() - i,
    {
        let u: u16 = units[i];
        let ghost rest = units@.skip(i as int);
        proof {
            assert(rest[0] == u);
        }
        if u < 0xD800 || u >= 0xE000 {
            let v: u32 = u as u32;
            proof {
                assert(rest.drop_first() =~= units@.skip(i + 1));
                let c = u as char;
                assert(c as u32 == v);
                lemma_encode_utf8_push(chars, c);
                match decode_utf16(units@.skip(i + 1)) {
                    Some(r) => {
                        assert(chars + (seq![c] + r) =~= chars.push(c) + r);
                    },
                    None => {},
                }
                chars = chars.push(c);
            }
            push_utf8(&mut bytes, v);
            i = i + 1;
        } else if u < 0xDC00 && i + 1 < units.len() && units[i + 1] >= 0xDC00 && units[i + 1] < 0xE000 {
            let lo: u16 = units[i + 1];
            let v: u32 = 0x10000 + ((u - 0xD800) as u32) * 0x400 + ((lo - 0xDC00) as u32);
            proof {
                assert(rest[1] == lo);
                assert(rest.subrange(2, rest.len() as int) =~= units@.skip(i + 2));
                assert(0x10000 <= v <= 0x10FFFF) by (nonlinear_arith)
                    requires
                        v == 0x10000 + ((u - 0xD800) as u32) * 0x400 + ((lo - 0xDC00) as u32),
                        0xD800 <= u < 0xDC00,
                        0xDC00 <= lo < 0xE000;
                let c = (0x10000 + (u - 0xD800) * 0x400 + (lo - 0xDC00)) as char;
                assert(c as u32 == v);
                lemma_encode_utf8_push(chars, c);
                match decode_utf16(units@.skip(i + 2)) {
                    Some(r) => {
                        assert(chars + (seq![c] + r) =~= chars.push(c) + r);
                    },
                    None => {},
                }
                chars = chars.push(c);
            }
            push_utf8(&mut bytes, v);
            i = i + 2;
        } else {
            return None;
        }
    }
    proof {
        assert(units@.skip(i as int) =~= Seq::<u16>::empty());
        assert(chars + Seq::<char>::empty() =~= chars);
        vstd::utf8::encode_utf8_valid_utf8(chars);
    }
    match crate::client::str_from_utf8(bytes.as_slice()) {
        Some(text) => {
            proof {
                vstd::utf8::encode_utf8_decode_utf8(text@);
                vstd::utf8::encode_utf8_decode_utf8(chars);
            }
            Some(text.to_owned())
        },
        None => None,
    }
}

/// The counted UTF-16 string as the kernel lays it out. `Length` counts the
/// bytes of the text (two per code unit), not counting a terminating zero
/// unit; `MaximumLength` counts the bytes of `ptr` that the string may use.
/// An empty `ptr` stands for a null buffer.
pub struct _UNICODE_STRING {
    pub Length: USHORT,
    pub MaximumLength: USHORT,
    pub ptr: Vec<u16>,
}

pub type UNICODE_STRING = _UNICODE_STRING;

/// The outcome that `RtlCreateUnicodeString` gives for zero-terminated
/// code units `source`: `Some((length, units))` where the copy fits in a
/// counted string, `None` where it does not.
pub open spec fn create_unicode_outcome(source: Seq<u16>) -> Option<(nat, Seq<u16>)> {
    let n = len_to_nul(source, 0u16);
    if n < 32767 {
        Some((2 * n, source.take(n + 1 as int)))
    } else {
        None
    }
}

/// Whether the code units `units` are what converting the ANSI text `text`
/// gives under this library's single-byte code page, in which every byte,
/// ASCII or not, stands for the character of its own value (ISO 8859-1):
/// one unit for each byte, the unit of the byte's value, then a zero unit.
pub open spec fn is_ansi_conversion(text: Seq<u8>, units: Seq<u16>) -> bool {
    units == widen(text).push(0u16)
}

/// Whether the converted text `text` fits in a counted string: it takes at
/// most 65535 bytes, zero unit included.
pub open spec fn ansi_conversion_fits(text: Seq<u8>) -> bool {
    text.len() < 32767
}

impl _UNICODE_STRING {
    /// The counts fit in the buffer: `Length <= MaximumLength` and
    /// `MaximumLength` bytes lie within `ptr`.
    pub open spec fn wf(&self) -> bool {
        &&& self.Length <= self.MaximumLength
        &&& self.MaximumLength <= 2 * self.ptr@.len()
    }

    /// The code units of the text: the first `Length / 2` units of `ptr`.
    pub open spec fn text(&self) -> Seq<u16> {
        self.ptr@.take(self.Length as int / 2)
    }

    /// Whether this is the empty string with a null buffer.
    pub open spec fn is_empty_null(&self) -> bool {
        &&& self.Length == 0
        &&& self.MaximumLength == 0
        &&& self.ptr@.len() == 0
    }

    /// Whether this string holds what converting the ANSI text `text` gives:
    /// where it fits, the converted units, `Length` counting the text's
    /// units and `MaximumLength` two more; otherwise the empty string with a
    /// null buffer.
    pub open spec fn holds_ansi_conversion(&self, text: Seq<u8>) -> bool {
        if ansi_conversion_fits(text) {
            &&& self.Length == 2 * text.len()
            &&& self.MaximumLength == self.Length + 2
            &&& is_ansi_conversion(text, self.ptr@)
        } else {
            self.is_empty_null()
        }
    }

    /// Whether this string holds what an outcome (of `create_unicode_outcome`
    /// or `wide_outcome`) describes: the units with their length, and
    /// `MaximumLength` two more than `Length`; or, for `None`, the empty
    /// string with a null buffer.
    pub open spec fn holds_outcome(&self, outcome: Option<(nat, Seq<u16>)>) -> bool {
        match outcome {
            Some((length, units)) => {
                &&& self.Length == length
                &&& self.MaximumLength == length + 2
                &&& self.ptr@ == units
            },
            None => self.is_empty_null(),
        }
    }
}

impl Default for _UNICODE_STRING {
    /// The empty string with a null buffer.
    fn default() -> (s: Self)
        ensures
            s.is_empty_null(),
    {
        _UNICODE_STRING { Length: 0, MaximumLength: 0, ptr: Vec::new() }
    }
}

/// Copies the zero-terminated code units `SourceString`, up to and with the
/// first zero unit, into `DestinationString`, and returns `TRUE`; where the
/// copy takes more than 65535 bytes, leaves `DestinationString` as it was
/// and returns `FALSE`.
pub fn RtlCreateUnicodeString(DestinationString: &mut UNICODE_STRING, SourceString: &[u16]) -> (ok: BOOLEAN)
    requires
        SourceString@.contains(0u16),
    ensures
        ok == TRUE || ok == FALSE,
        ok == TRUE <==> create_unicode_outcome(SourceString@) is Some,
        ok == TRUE ==> final(DestinationString).holds_outcome(create_unicode_outcome(SourceString@)),
        ok == FALSE ==> *final(DestinationString) == *old(DestinationString),
{
    let n = wcslen(SourceString);
    if n >= 32767 {
        return FALSE;
    }
    let mut units: Vec<u16> = Vec::new();
    let mut i: usize = 0;
    while i <= n
        invariant
            n < SourceString@.len(),
            i <= n + 1,
            units@ == SourceString@.take(i as int),
        decreases n + 1 - i,
    {
        units.push(SourceString[i]);
        i = i + 1;
        proof {
            assert(units@ =~= SourceString@.take(i as int));
        }
    }
    let length: USHORT = (2 * n) as USHORT;
    DestinationString.Length = length;
    DestinationString.MaximumLength = length + 2;
    DestinationString.ptr = units;
    TRUE
}

/// Converts the text of `SourceString` into a newly allocated UTF-16 string
/// in `DestinationString`, one code unit for each byte, followed by a zero
/// unit, and returns `STATUS_SUCCESS`; where the result takes more than
/// 65535 bytes, leaves `DestinationString` as it was and returns
/// `STATUS_INVALID_PARAMETER_2`. The code page is this library's: each
/// byte, ASCII or not, becomes the code unit of the same value.
pub fn RtlAnsiStringToUnicodeString(DestinationString: &mut UNICODE_STRING, SourceString: &ANSI_STRING) -> (status: NTSTATUS)
    requires
        SourceString.Length <= SourceString.Buffer@.len(),
    ensures
        status == STATUS_SUCCESS || status == STATUS_INVALID_PARAMETER_2,
        status == STATUS_SUCCESS <==> ansi_conversion_fits(SourceString.text()),
        status == STATUS_SUCCESS ==> final(DestinationString).holds_ansi_conversion(SourceString.text()),
        status != STATUS_SUCCESS ==> *final(DestinationString) == *old(DestinationString),
{
    let n = SourceString.Length as usize;
    if n >= 32767 {
        return STATUS_INVALID_PARAMETER_2;
    }
    let mut units: Vec<u16> = Vec::new();
    let mut i: usize = 0;
    while i < n
        invariant
            n == SourceString.Length,
            n <= SourceString.Buffer@.len(),
            i <= n,
            units@ =~= widen(SourceString.Buffer@.take(i as int)),
        decreases n - i,
    {
        units.push(SourceString.Buffer[i] as u16);
        i = i + 1;
        proof {
            assert(units@ =~= widen(SourceString.Buffer@.take(i as int)));
        }
    }
    units.push(0);
    proof {
        assert(SourceString.text() =~= SourceString.Buffer@.take(n as int));
    }
    let length: USHORT = (2 * n) as USHORT;
    DestinationString.Length = length;
    DestinationString.MaximumLength = length + 2;
    DestinationString.ptr = units;
    STATUS_SUCCESS
}

/// The outcome of building a string from UTF-16 units: the units before
/// their first zero unit (all of them where there is none), followed by a
/// zero unit, where that takes at most 65535 bytes; `None` otherwise.
pub open spec fn wide_outcome(units: Seq<u16>) -> Option<(nat, Seq<u16>)> {
    let k = len_to_nul(units, 0u16);
    if k < 32767 {
        Some((2 * k, units.take(k as int).push(0u16)))
    } else {
        None
    }
}

/// No element before `len_to_nul(s, nul)` is `nul`, and `len_to_nul` is at
/// most the length.
pub proof fn lemma_len_to_nul_prefix<T>(s: Seq<T>, nul: T)
    ensures
        len_to_nul(s, nul) <= s.len(),
        forall|j: int| 0 <= j < len_to_nul(s, nul) ==> s[j] != nul,
        len_to_nul(s, nul) < s.len() ==> s[len_to_nul(s, nul) as int] == nul,
    decreases s.len(),
{
    if s.len() > 0 && s[0] != nul {
        lemma_len_to_nul_prefix(s.drop_first(), nul);
        assert forall|j: int| 0 <= j < len_to_nul(s, nul) implies s[j] != nul by {
            if j > 0 {
                assert(s[j] == s.drop_first()[j - 1]);
            }
        }
    }
}

/// Zero-terminating units the way `from_wide` does keeps the units before
/// the first zero unit, and `RtlCreateUnicodeString` then gives
/// `wide_outcome`.
proof fn lemma_wide_terminated(units: Seq<u16>, t: Seq<u16>)
    requires
        t == (if units.len() == 0 || units.last() != 0u16 { units.push(0u16) } else { units }),
    ensures
        t.contains(0u16),
        create_unicode_outcome(t) == wide_outcome(units),
{
    lemma_len_to_nul_prefix(units, 0u16);
    let k = len_to_nul(units, 0u16) as int;
    assert forall|j: int| 0 <= j < k implies t[j] != 0u16 by {
        assert(t[j] == units[j]);
    }
    if k < units.len() {
        assert(t[k] == units[k]);
    } else {
        assert(t[k] == 0u16);
    }
    assert(t[k] == 0u16);
    lemma_len_to_nul(t, 0u16, k);
    assert(t.take(k + 1) =~= units.take(k).push(0u16));
}

/// The text of the ANSI string that bytes make: the bytes zero-terminated,
/// up to their first zero byte, cut at `MAX_ANSI_LENGTH`.
pub open spec fn ansi_text_of(buffer: Seq<u8>) -> Seq<u8> {
    let terminated = nul_terminated(buffer);
    terminated.take(init_ansi_length(terminated) as int)
}

impl _UNICODE_STRING {
    /// Builds a string from the UTF-8 bytes of `buffer`, as `from_bytes`
    /// does.
    pub fn create(buffer: &str) -> (s: UNICODE_STRING)
        ensures
            s.wf(),
            s.holds_ansi_conversion(ansi_text_of(buffer.spec_bytes())),
    {
        let bytes = buffer.as_bytes();
        UNICODE_STRING::from_bytes(bytes)
    }

    /// Builds a string from the UTF-8 bytes of `buffer`, as `from_bytes`
    /// does.
    pub fn from_str(buffer: &str) -> (s: UNICODE_STRING)
        ensures
            s.wf(),
            s.holds_ansi_conversion(ansi_text_of(buffer.spec_bytes())),
    {
        let bytes = buffer.as_bytes();
        UNICODE_STRING::from_bytes(bytes)
    }

    /// Builds a string from bytes: makes them an ANSI string and converts
    /// its text as `RtlAnsiStringToUnicodeString` does. Where the converted
    /// string would not fit, the result is the empty string with a null
    /// buffer.
    pub fn from_bytes(buffer: &[u8]) -> (s: UNICODE_STRING)
        ensures
            s.wf(),
            s.holds_ansi_conversion(ansi_text_of(buffer@)),
    {
        let ansi = ANSI_STRING::create(buffer);
        UNICODE_STRING::from_ansi(&ansi)
    }

    /// Builds a string from UTF-16 code units: copies them, zero-terminated
    /// (a zero unit is appended where they are empty or the last is not
    /// zero), up to and with the first zero unit. Where the copy would not
    /// fit, the result is the empty string with a null buffer.
    pub fn from_wide(buffer: &[u16]) -> (s: UNICODE_STRING)
        ensures
            s.wf(),
            s.holds_outcome(wide_outcome(buffer@)),
    {
        let mut str = UNICODE_STRING::default();
        let mut units = slice_to_vec(buffer);
        if units.len() == 0 || units[units.len() - 1] != 0 {
            units.push(0);
        }
        proof {
            lemma_wide_terminated(buffer@, units@);
            lemma_len_to_nul_prefix(buffer@, 0u16);
        }
        RtlCreateUnicodeString(&mut str, units.as_slice());
        str
    }

    /// Converts the text of an ANSI string as `RtlAnsiStringToUnicodeString`
    /// does. Where the converted string would not fit, the result is the
    /// empty string with a null buffer.
    pub fn from_ansi(source: &ANSI_STRING) -> (s: UNICODE_STRING)
        requires
            source.Length <= source.Buffer@.len(),
        ensures
            s.wf(),
            s.holds_ansi_conversion(source.text()),
    {
        let mut u = UNICODE_STRING::default();
        let _status = RtlAnsiStringToUnicodeString(&mut u, source);
        u
    }

    /// Takes over the counts of a kernel-layout string, with a copy of its
    /// buffer.
    pub fn from_base(unicode: base::UNICODE_STRING) -> (s: UNICODE_STRING)
        ensures
            s.Length == unicode.Length,
            s.MaximumLength == unicode.MaximumLength,
            s.ptr@ == unicode.Buffer@,
    {
        UNICODE_STRING {
            Length: unicode.Length,
            MaximumLength: unicode.MaximumLength,
            ptr: slice_to_vec(unicode.Buffer),
        }
    }

    /// This string in the kernel's own layout, over the same buffer.
    pub fn as_base_unicode(&self) -> (b: base::UNICODE_STRING<'_>)
        ensures
            b.Length == self.Length,
            b.MaximumLength == self.MaximumLength,
            b.Buffer@ == self.ptr@,
    {
        base::UNICODE_STRING {
            Length: self.Length,
            MaximumLength: self.MaximumLength,
            Buffer: self.ptr.as_slice(),
        }
    }

    /// This string as the kernel reads it through a pointer: the same counts
    /// over the same buffer.
    pub fn as_ptr(&self) -> (b: base::UNICODE_STRING<'_>)
        ensures
            b.Length == self.Length,
            b.MaximumLength == self.MaximumLength,
            b.Buffer@ == self.ptr@,
    {
        self.as_base_unicode()
    }

    /// The text decoded from UTF-16, or the empty string where the text is
    /// not valid UTF-16.
    pub fn as_rust_string(&self) -> (s: String)
        requires
            self.Length as int / 2 <= self.ptr@.len(),
        ensures
            s@ == match decode_utf16(self.text()) {
                Some(chars) => chars,
                None => Seq::<char>::empty(),
            },
    {
        let n = (self.Length / 2) as usize;
        let units = vstd::slice::slice_subrange(self.ptr.as_slice(), 0, n);
        proof {
            assert(units@ =~= self.text());
        }
        match string_from_utf16(units) {
            Some(s) => s,
            None => String::new(),
        }
    }
}

/// UTF-16 code units that hold no surrogate decode to the characters of
/// their own values.
pub proof fn lemma_decode_utf16_no_surrogates(units: Seq<u16>)
    requires
        forall|i: int| 0 <= i < units.len() ==> !is_surrogate(#[trigger] units[i]),
    ensures
        decode_utf16(units) == Some(units.map_values(|u: u16| u as char)),
    decreases units.len(),
{
    if units.len() > 0 {
        let rest = units.drop_first();
        assert forall|i: int| 0 <= i < rest.len() implies !is_surrogate(#[trigger] rest[i]) by {
            assert(rest[i] == units[i + 1]);
        }
        lemma_decode_utf16_no_surrogates(rest);
        assert(seq![units[0] as char] + rest.map_values(|u: u16| u as char)
            =~= units.map_values(|u: u16| u as char));
    }
}

/// Reading back a string built from UTF-16 units: where `units` hold no
/// zero unit and number fewer than 32767, the string that `from_wide`
/// builds from them has exactly `units` as its text, followed by a zero
/// unit.
pub proof fn law_from_wide_text(units: Seq<u16>, s: UNICODE_STRING)
    requires
        forall|i: int| 0 <= i < units.len() ==> units[i] != 0u16,
        units.len() < 32767,
        s.holds_outcome(wide_outcome(units)),
    ensures
        s.wf(),
        s.text() == units,
        s.ptr@ == units.push(0u16),
        s.MaximumLength == s.Length + 2,
{
    lemma_len_to_nul(units, 0u16, units.len() as int);
    assert(units.take(units.len() as int) =~= units);
    assert(s.text() =~= units);
}

/// An ANSI string built from bytes is zero-terminated right after its text
/// wherever its text was not cut at `MAX_ANSI_LENGTH`, and its text holds
/// no zero byte.
pub proof fn law_ansi_from_bytes_terminated(buffer: Seq<u8>, s: ANSI_STRING)
    requires
        s.Buffer@ == nul_terminated(buffer),
        s.Length == init_ansi_length(nul_terminated(buffer)),
    ensures
        forall|i: int| 0 <= i < s.Length ==> s.Buffer@[i] != 0u8,
        len_to_nul(nul_terminated(buffer), 0u8) <= MAX_ANSI_LENGTH ==> s.Buffer@[s.Length as int] == 0u8,
{
    let t = nul_terminated(buffer);
    assert(t[t.len() - 1] == 0u8);
    lemma_len_to_nul_found(t, 0u8);
}

/// The widened code units of an ASCII text.
pub open spec fn ascii_units(text: Seq<char>) -> Seq<u16> {
    text.map_values(|c: char| c as u16)
}

/// Reading back a string built from Rust text: for ASCII text of at most
/// 32766 characters, none of them `'\0'`, the string that `create` (or
/// `from_str`) builds from the text holds exactly the text's code units,
/// and decoding that text from UTF-16 gives the text back, so that
/// `as_rust_string` returns it.
pub proof fn law_create_round_trip(text: &str, s: UNICODE_STRING)
    requires
        vstd::string::is_ascii(text),
        text@.len() <= 32766,
        forall|i: int| 0 <= i < text@.len() ==> text@[i] != '\0',
        s.holds_ansi_conversion(ansi_text_of(text.spec_bytes())),
    ensures
        s.wf(),
        s.Length == 2 * text@.len(),
        s.ptr@ == ascii_units(text@).push(0u16),
        s.text() == ascii_units(text@),
        decode_utf16(s.text()) == Some(text@),
{
    let chars = text@;
    vstd::utf8::is_ascii_chars_encode_utf8(chars);
    vstd::utf8::is_ascii_chars_nat_bound(chars);
    let bytes = text.spec_bytes();
    assert(bytes =~= Seq::new(chars.len(), |i: int| chars[i] as u8));
    let n = chars.len();
    assert forall|j: int| 0 <= j < n implies bytes[j] != 0u8 by {
        assert(chars[j] != '\0');
        assert((chars[j] as u32) < 128);
    }
    let t = nul_terminated(bytes);
    assert(t =~= bytes.push(0u8));
    assert forall|j: int| 0 <= j < n implies t[j] != 0u8 by {
        assert(t[j] == bytes[j]);
    }
    lemma_len_to_nul(t, 0u8, n as int);
    assert(t.take(n as int) =~= bytes);
    assert(ansi_text_of(bytes) =~= bytes);
    let units = ascii_units(chars);
    assert forall|i: int| 0 <= i < n implies s.ptr@[i] == units[i] by {
        assert((chars[i] as u32) < 128);
        assert(bytes[i] < 0x80);
    }
    assert(s.ptr@ =~= units.push(0u16));
    assert(s.text() =~= units);
    assert forall|i: int| 0 <= i < units.len() implies !is_surrogate(#[trigger] units[i]) by {
        assert((chars[i] as u32) < 128);
    }
    lemma_decode_utf16_no_surrogates(units);
    assert(units.map_values(|u: u16| u as char) =~= chars);
}

/// Seeing a string in the kernel's layout (by `as_base_unicode` or
/// `as_ptr`) and taking the view back (by `from_base`) gives a string with
/// the same counts and the same code units.
pub proof fn law_base_round_trip(s: UNICODE_STRING, b: base::UNICODE_STRING, t: UNICODE_STRING)
    requires
        b.Length == s.Length,
        b.MaximumLength == s.MaximumLength,
        b.Buffer@ == s.ptr@,
        t.Length == b.Length,
        t.MaximumLength == b.MaximumLength,
        t.ptr@ == b.Buffer@,
    ensures
        t.Length == s.Length,
        t.MaximumLength == s.MaximumLength,
        t.ptr@ == s.ptr@,
        t.wf() == s.wf(),
        t.text() == s.text(),
{
}

} // verus!

verus! {

impl<'a> From<&'a [u8]> for ANSI_STRING {
    /// Builds the string as `ANSI_STRING::from_bytes` does.
    fn from(buffer: &'a [u8]) -> (s: ANSI_STRING)
        ensures
            s.wf(),
            s.Buffer@ == nul_terminated(buffer@),
            s.Length == init_ansi_length(nul_terminated(buffer@)),
            s.MaximumLength == s.Length + 1,
    {
        ANSI_STRING::from_bytes(buffer)
    }
}

impl<'a> vstd::std_specs::convert::FromSpecImpl<&'a [u8]> for ANSI_STRING {
    /// The result is stated by the `ensures` of `from`, not by `from_spec`.
    open spec fn obeys_from_spec() -> bool {
        false
    }

    open spec fn from_spec(v: &'a [u8]) -> ANSI_STRING {
        vstd::pervasive::arbitrary()
    }
}

impl<'a> From<&'a str> for ANSI_STRING {
    /// Builds the string as `ANSI_STRING::from_str` does.
    fn from(buffer: &'a str) -> (s: ANSI_STRING)
        ensures
            s.wf(),
            s.Buffer@ == nul_terminated(buffer.spec_bytes()),
            s.Length == init_ansi_length(nul_terminated(buffer.spec_bytes())),
            s.MaximumLength == s.Length + 1,
    {
        ANSI_STRING::from_str(buffer)
    }
}

impl<'a> vstd::std_specs::convert::FromSpecImpl<&'a str> for ANSI_STRING {
    /// The result is stated by the `ensures` of `from`, not by `from_spec`.
    open spec fn obeys_from_spec() -> bool {
        false
    }

    open spec fn from_spec(v: &'a str) -> ANSI_STRING {
        vstd::pervasive::arbitrary()
    }
}

impl<'a> From<&'a [u8]> for _UNICODE_STRING {
    /// Builds the string as `UNICODE_STRING::from_bytes` does.
    fn from(buffer: &'a [u8]) -> (s: UNICODE_STRING)
        ensures
            s.wf(),
            s.holds_ansi_conversion(ansi_text_of(buffer@)),
    {
        UNICODE_STRING::from_bytes(buffer)
    }
}

impl<'a> vstd::std_specs::convert::FromSpecImpl<&'a [u8]> for _UNICODE_STRING {
    /// The result is stated by the `ensures` of `from`, not by `from_spec`.
    open spec fn obeys_from_spec() -> bool {
        false
    }

    open spec fn from_spec(v: &'a [u8]) -> _UNICODE_STRING {
        vstd::pervasive::arbitrary()
    }
}

impl<'a> From<&'a str> for _UNICODE_STRING {
    /// Builds the string as `UNICODE_STRING::from_str` does.
    fn from(buffer: &'a str) -> (s: UNICODE_STRING)
        ensures
            s.wf(),
            s.holds_ansi_conversion(ansi_text_of(buffer.spec_bytes())),
    {
        UNICODE_STRING::from_str(buffer)
    }
}

impl<'a> vstd::std_specs::convert::FromSpecImpl<&'a str> for _UNICODE_STRING {
    /// The result is stated by the `ensures` of `from`, not by `from_spec`.
    open spec fn obeys_from_spec() -> bool {
        false
    }

    open spec fn from_spec(v: &'a str) -> _UNICODE_STRING {
        vstd::pervasive::arbitrary()
    }
}

impl<'a> From<&'a [u16]> for _UNICODE_STRING {
    /// Builds the string as `UNICODE_STRING::from_wide` does.
    fn from(buffer: &'a [u16]) -> (s: UNICODE_STRING)
        ensures
            s.wf(),
            s.holds_outcome(wide_outcome(buffer@)),
    {
        UNICODE_STRING::from_wide(buffer)
    }
}

impl<'a> vstd::std_specs::convert::FromSpecImpl<&'a [u16]> for _UNICODE_STRING {
    /// The result is stated by the `ensures` of `from`, not by `from_spec`.
    open spec fn obeys_from_spec() -> bool {
        false
    }

    open spec fn from_spec(v: &'a [u16]) -> _UNICODE_STRING {
        vstd::pervasive::arbitrary()
    }
}

impl<'a> From<base::UNICODE_STRING<'a>> for _UNICODE_STRING {
    /// Builds the string as `UNICODE_STRING::from_base` does.
    fn from(unicode: base::UNICODE_STRING<'a>) -> (s: UNICODE_STRING)
        ensures
            s.Length == unicode.Length,
            s.MaximumLength == unicode.MaximumLength,
            s.ptr@ == unicode.Buffer@,
    {
        UNICODE_STRING::from_base(unicode)
    }
}

impl<'a> vstd::std_specs::convert::FromSpecImpl<base::UNICODE_STRING<'a>> for _UNICODE_STRING {
    /// The result is stated by the `ensures` of `from`, not by `from_spec`.
    open spec fn obeys_from_spec() -> bool {
        false
    }

    open spec fn from_spec(v: base::UNICODE_STRING<'a>) -> _UNICODE_STRING {
        vstd::pervasive::arbitrary()
    }
}

} // verus!

verus! {

/// Converting ANSI text and narrowing each code unit back to a byte gives
/// the text again: each unit of the converted text lies below 0x100 and
/// narrows to its byte, a unit is zero exactly where its byte is, the unit
/// after the text is zero, and reading the converted text as UTF-16 gives
/// one character for each byte, whose value is the byte's.
pub proof fn law_ansi_conversion_reads_back(text: Seq<u8>, s: UNICODE_STRING)
    requires
        ansi_conversion_fits(text),
        s.holds_ansi_conversion(text),
    ensures
        s.wf(),
        s.Length == 2 * text.len(),
        s.ptr@.len() == text.len() + 1,
        s.ptr@[text.len() as int] == 0u16,
        forall|i: int| 0 <= i < text.len() ==> s.ptr@[i] < 0x100 && s.ptr@[i] as u8 == text[i],
        forall|i: int| 0 <= i < text.len() ==> (s.ptr@[i] == 0u16 <==> text[i] == 0u8),
        decode_utf16(s.text()) matches Some(chars) && chars.len() == text.len()
            && forall|i: int| 0 <= i < text.len() ==> chars[i] as u32 == text[i] as u32,
{
    let units = widen(text);
    assert(s.text() =~= units);
    assert forall|i: int| 0 <= i < units.len() implies !is_surrogate(#[trigger] units[i]) by {
        assert(units[i] == text[i] as u16);
    }
    lemma_decode_utf16_no_surrogates(units);
    let chars = units.map_values(|u: u16| u as char);
    assert forall|i: int| 0 <= i < text.len() implies chars[i] as u32 == text[i] as u32 by {
        assert(units[i] == text[i] as u16);
        assert(chars[i] == units[i] as char);
    }
}

/// Building a string from bytes that hold no zero byte and number fewer
/// than 32767 keeps every byte: the string's text has one code unit for
/// each byte, below 0x100, narrowing to that byte and never zero, followed
/// by a zero unit. This holds of `create`, `from_str` and `from_bytes`
/// (and their `From` impls), through the bytes of the text given.
pub proof fn law_bytes_conversion_keeps_bytes(buffer: Seq<u8>, s: UNICODE_STRING)
    requires
        forall|i: int| 0 <= i < buffer.len() ==> buffer[i] != 0u8,
        buffer.len() < 32767,
        s.holds_ansi_conversion(ansi_text_of(buffer)),
    ensures
        s.wf(),
        s.Length == 2 * buffer.len(),
        s.ptr@.len() == buffer.len() + 1,
        s.ptr@[buffer.len() as int] == 0u16,
        forall|i: int| 0 <= i < buffer.len() ==> s.ptr@[i] < 0x100 && s.ptr@[i] as u8 == buffer[i],
        forall|i: int| 0 <= i < buffer.len() ==> s.ptr@[i] != 0u16,
{
    let t = nul_terminated(buffer);
    assert(t =~= buffer.push(0u8));
    assert forall|j: int| 0 <= j < buffer.len() implies t[j] != 0u8 by {
        assert(t[j] == buffer[j]);
    }
    lemma_len_to_nul(t, 0u8, buffer.len() as int);
    assert(ansi_text_of(buffer) =~= buffer);
    law_ansi_conversion_reads_back(buffer, s);
}

/// Decoding UTF-16 code units that hold no surrogate gives one character
/// for each unit, whose value is the unit's, whatever the unit's range
/// outside the surrogates (below 0xD800 or from 0xE000 up).
pub proof fn law_decode_utf16_non_surrogates(units: Seq<u16>)
    requires
        forall|i: int| 0 <= i < units.len() ==> !is_surrogate(#[trigger] units[i]),
    ensures
        decode_utf16(units) matches Some(chars) && chars.len() == units.len()
            && forall|i: int| 0 <= i < units.len() ==> chars[i] as u32 == units[i] as u32,
{
    lemma_decode_utf16_no_surrogates(units);
    let chars = units.map_values(|u: u16| u as char);
    assert forall|i: int| 0 <= i < units.len() implies chars[i] as u32 == units[i] as u32 by {
        assert(chars[i] == units[i] as char);
    }
}

/// A high surrogate followed by a low surrogate decodes to one character
/// from 0x10000 up, from which the two units come back: the high unit is
/// `0xD800` plus the character's value above 0x10000 divided by 0x400, the
/// low unit `0xDC00` plus the remainder. A low surrogate that no high one
/// comes before, or a high one that ends the units, makes decoding fail.
pub proof fn law_decode_utf16_surrogates(hi: u16, lo: u16, rest: Seq<u16>)
    ensures
        0xD800 <= hi < 0xDC00 && 0xDC00 <= lo < 0xE000 ==> (
            decode_utf16(seq![hi, lo]) matches Some(chars) && chars.len() == 1
                && 0x10000 <= chars[0] as u32 <= 0x10FFFF
                && hi == 0xD800 + (chars[0] as u32 - 0x10000) / 0x400
                && lo == 0xDC00 + (chars[0] as u32 - 0x10000) % 0x400),
        0xDC00 <= lo < 0xE000 ==> decode_utf16(seq![lo] + rest) is None,
        0xD800 <= hi < 0xDC00 ==> decode_utf16(seq![hi]) is None,
{
    reveal_with_fuel(decode_utf16, 2);
    if 0xD800 <= hi < 0xDC00 && 0xDC00 <= lo < 0xE000 {
        let units = seq![hi, lo];
        assert(units.subrange(2, 2) =~= Seq::<u16>::empty());
        let v: int = 0x10000 + (hi - 0xD800) * 0x400 + (lo - 0xDC00);
        assert(0x10000 <= v <= 0x10FFFF) by (nonlinear_arith)
            requires
                v == 0x10000 + (hi - 0xD800) * 0x400 + (lo - 0xDC00),
                0xD800 <= hi < 0xDC00,
                0xDC00 <= lo < 0xE000;
        assert((v as char) as u32 == v);
        assert(hi == 0xD800 + (v - 0x10000) / 0x400 && lo == 0xDC00 + (v - 0x10000) % 0x400) by (nonlinear_arith)
            requires
                v == 0x10000 + (hi - 0xD800) * 0x400 + (lo - 0xDC00),
                0xD800 <= hi < 0xDC00,
                0xDC00 <= lo < 0xE000;
        assert(seq![v as char] + Seq::<char>::empty() =~= seq![v as char]);
    }
    if 0xDC00 <= lo < 0xE000 {
        assert((seq![lo] + rest)[0] == lo);
    }
}

/// Reading a string back as Rust text keeps every code unit outside the
/// surrogates: where the text holds no surrogate, `as_rust_string` gives
/// one character for each unit of the text, whose value is the unit's.
pub proof fn law_read_back_non_surrogates(s: UNICODE_STRING, read: Seq<char>)
    requires
        s.Length as int / 2 <= s.ptr@.len(),
        forall|i: int| 0 <= i < s.text().len() ==> !is_surrogate(#[trigger] s.text()[i]),
        read == (match decode_utf16(s.text()) {
            Some(chars) => chars,
            None => Seq::<char>::empty(),
        }),
    ensures
        read.len() == s.Length as int / 2,
        forall|i: int| 0 <= i < read.len() ==> read[i] as u32 == s.ptr@[i] as u32,
{
    law_decode_utf16_non_surrogates(s.text());
}

} // verus!
