//! Text helpers over the character view of strings.

use vstd::prelude::*;
use vstd::string::*;
use vstd::utf8::*;

verus! {

/// The lowercase form of a text as `str::to_lowercase` computes it: the
/// Unicode lowercase mapping, a function of the text alone.
pub uninterp spec fn unicode_lowercase(s: Seq<char>) -> Seq<char>;

/// The small letter of an ASCII capital; any other character as it is.
pub open spec fn ascii_lower(c: char) -> char {
    if 'A' <= c && c <= 'Z' {
        ((c as u32) + 32) as char
    } else {
        c
    }
}

/// The text with its ASCII capitals made small.
pub open spec fn ascii_lowercase(s: Seq<char>) -> Seq<char> {
    Seq::new(s.len(), |i: int| ascii_lower(s[i]))
}

/// The lowercase form of a text. Of an ASCII text it is the text with its
/// capitals made small; of any other text it is the Unicode lowercase
/// mapping.
pub open spec fn lowercase(s: Seq<char>) -> Seq<char> {
    if is_ascii_chars(s) {
        ascii_lowercase(s)
    } else {
        unicode_lowercase(s)
    }
}

/// The lowercase form of an ASCII text is an ASCII text that is its own
/// lowercase form.
pub proof fn lemma_lowercase_ascii(s: Seq<char>)
    requires
        is_ascii_chars(s),
    ensures
        is_ascii_chars(lowercase(s)),
        lowercase(lowercase(s)) == lowercase(s),
        lowercase(s).len() == s.len(),
{
    let lower = ascii_lowercase(s);
    assert forall|i: int| 0 <= i < lower.len() implies '\0' <= #[trigger] lower[i] <= '\u{7f}'
        && ascii_lower(lower[i]) == lower[i] by {
        assert('\0' <= s[i] <= '\u{7f}');
    }
    assert(ascii_lowercase(lower) =~= lower);
}

/// The text that `{:?}` prints for a string: quoted and escaped.
pub uninterp spec fn quoted(s: Seq<char>) -> Seq<char>;

/// `s` without `prefix` in front where it starts with it, else `s`.
pub open spec fn without_prefix(s: Seq<char>, prefix: Seq<char>) -> Seq<char> {
    if prefix.is_prefix_of(s) {
        s.subrange(prefix.len() as int, s.len() as int)
    } else {
        s
    }
}

/// Tells whether none of the characters is U+0000.
pub open spec fn without_nul(text: Seq<char>) -> bool {
    forall|i: int| 0 <= i < text.len() ==> text[i] != '\0'
}

/// The UTF-8 bytes of a scalar other than zero are other than zero.
proof fn lemma_scalar_without_nul(scalar: u32)
    requires
        scalar != 0,
    ensures
        forall|j: int| 0 <= j < encode_scalar(scalar).len() ==> encode_scalar(scalar)[j] != 0,
{
    assert(scalar != 0 && scalar <= 0x7F ==> (scalar & 0x7F) as u8 != 0) by (bit_vector);
    assert(forall|low: u8| 0x80u8 | low != 0) by (bit_vector);
    assert(forall|low: u8| 0xC0u8 | low != 0) by (bit_vector);
    assert(forall|low: u8| 0xE0u8 | low != 0) by (bit_vector);
    assert(forall|low: u8| 0xF0u8 | low != 0) by (bit_vector);
}

/// A text without U+0000 has no zero byte in its UTF-8 form: only that
/// character is encoded with one.
pub proof fn lemma_encoded_without_nul(text: Seq<char>)
    requires
        without_nul(text),
    ensures
        forall|j: int| 0 <= j < encode_utf8(text).len() ==> encode_utf8(text)[j] != 0,
    decreases text.len(),
{
    if text.len() > 0 {
        let first = encode_scalar(text[0] as u32);
        let rest = text.drop_first();
        assert(text[0] as u32 != 0) by {
            char_is_scalar(text[0]);
            char_u32_cast(text[0], text[0] as u32);
            char_u32_cast('\0', 0u32);
        }
        lemma_scalar_without_nul(text[0] as u32);
        assert forall|i: int| 0 <= i < rest.len() implies rest[i] != '\0' by {
            assert(rest[i] == text[i + 1]);
        }
        lemma_encoded_without_nul(rest);
        assert forall|j: int| 0 <= j < encode_utf8(text).len() implies encode_utf8(text)[j]
            != 0 by {
            if j < first.len() {
                assert(encode_utf8(text)[j] == first[j]);
            } else {
                assert(encode_utf8(text)[j] == encode_utf8(rest)[j - first.len()]);
            }
        }
    }
}

/// Builds a `String` from bytes with `String::from_utf8`, which accepts
/// exactly the well-formed UTF-8 sequences and keeps the bytes as they are.
#[verifier::external_body]
pub(crate) fn string_from_utf8(bytes: Vec<u8>) -> (r: Option<String>)
    ensures
        r is Some <==> valid_utf8(bytes@),
        r matches Some(s) ==> s@ == decode_utf8(bytes@),
{
    String::from_utf8(bytes).ok()
}

/// Lowercases with `str::to_lowercase`.
#[verifier::external_body]
fn to_unicode_lowercase(s: &str) -> (r: String)
    ensures
        r@ == unicode_lowercase(s@),
{
    s.to_lowercase()
}

/// Gives the lowercase form of a text.
pub fn to_lowercase(s: &str) -> (r: String)
    ensures
        r@ == lowercase(s@),
{
    if !s.is_ascii() {
        return to_unicode_lowercase(s);
    }
    let bytes = s.as_bytes();
    let ghost lower = ascii_lowercase(s@);
    proof {
        is_ascii_chars_encode_utf8(s@);
        lemma_lowercase_ascii(s@);
        is_ascii_chars_encode_utf8(lower);
        encode_utf8_valid_utf8(lower);
        encode_utf8_decode_utf8(lower);
    }
    let mut lowered: Vec<u8> = Vec::new();
    let mut i: usize = 0;
    while i < bytes.len()
        invariant
            i <= bytes@.len(),
            bytes@ == encode_utf8(s@),
            is_ascii_chars(s@),
            bytes@.len() == s@.len(),
            forall|j: int| 0 <= j < s@.len() ==> s@[j] as u8 == #[trigger] bytes@[j],
            lowered@.len() == i,
            forall|j: int| 0 <= j < i ==> #[trigger] lowered@[j] == ascii_lower(s@[j]) as u8,
        decreases bytes@.len() - i,
    {
        let byte: u8 = bytes[i];
        assert('\0' <= s@[i as int] <= '\u{7f}');
        if 0x41 <= byte && byte <= 0x5A {
            lowered.push(byte + 0x20);
        } else {
            lowered.push(byte);
        }
        i += 1;
    }
    assert(lowered@ =~= encode_utf8(lower)) by {
        assert forall|j: int| 0 <= j < lower.len() implies lowered@[j] == encode_utf8(lower)[j] by {
            assert(lower[j] as u8 == encode_utf8(lower)[j]);
        }
    }
    match string_from_utf8(lowered) {
        Some(text) => text,
        // not taken: ASCII bytes are well-formed UTF-8
        None => to_unicode_lowercase(s),
    }
}

/// Formats a string with `{:?}`, as `impl Debug for str` prints it.
#[verifier::external_body]
pub(crate) fn debug_str(s: &str) -> (r: String)
    ensures
        r@ == quoted(s@),
{
    format!("{:?}", s)
}

/// Tells whether two texts hold the same characters.
pub fn same_text(a: &str, b: &str) -> (r: bool)
    ensures
        r == (a@ == b@),
{
    let n: usize = a.unicode_len();
    if b.unicode_len() != n {
        return false;
    }
    let mut i: usize = 0;
    while i < n
        invariant
            i <= n,
            n == a@.len(),
            n == b@.len(),
            forall|j: int| 0 <= j < i ==> a@[j] == b@[j],
        decreases n - i,
    {
        if a.get_char(i) != b.get_char(i) {
            return false;
        }
        i += 1;
    }
    assert(a@ =~= b@);
    true
}

/// Tells whether `s` begins with `prefix`.
pub fn starts_with(s: &str, prefix: &str) -> (r: bool)
    ensures
        r == prefix@.is_prefix_of(s@),
{
    let n: usize = prefix.unicode_len();
    if s.unicode_len() < n {
        return false;
    }
    let mut i: usize = 0;
    while i < n
        invariant
            i <= n,
            n == prefix@.len(),
            n <= s@.len(),
            forall|j: int| 0 <= j < i ==> s@[j] == prefix@[j],
        decreases n - i,
    {
        if s.get_char(i) != prefix.get_char(i) {
            assert(s@.subrange(0, n as int)[i as int] != prefix@[i as int]);
            return false;
        }
        i += 1;
    }
    assert(prefix@ =~= s@.subrange(0, n as int));
    true
}

/// Removes `prefix` from the front of `s` where `s` begins with it.
pub fn strip_prefix(s: &str, prefix: &str) -> (r: String)
    ensures
        r@ == without_prefix(s@, prefix@),
{
    if starts_with(s, prefix) {
        s.substring_char(prefix.unicode_len(), s.unicode_len()).to_owned()
    } else {
        s.to_owned()
    }
}

} // verus!
