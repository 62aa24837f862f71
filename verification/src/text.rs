//! Text helpers shared by the parser and the renderer: comparing strings and
//! byte strings, decoding UTF-8, lowercasing, and padding.

use vstd::prelude::*;
use vstd::string::*;
use vstd::utf8::*;

verus! {

/// Whether two byte strings hold the same bytes.
pub fn bytes_eq(a: &[u8], b: &[u8]) -> (same: bool)
    ensures
        same == (a@ == b@),
{
    if a.len() != b.len() {
        return false;
    }
    let mut i: usize = 0;
    while i < a.len()
        invariant
            a.len() == b.len(),
            i <= a.len(),
            forall|j: int| 0 <= j < i ==> a@[j] == b@[j],
        decreases a.len() - i,
    {
        if a[i] != b[i] {
            return false;
        }
        i += 1;
    }
    assert(a@ =~= b@);
    true
}

/// Two strings with the same UTF-8 encoding are the same string.
pub proof fn lemma_encoding_is_injective(a: Seq<char>, b: Seq<char>)
    requires
        encode_utf8(a) == encode_utf8(b),
    ensures
        a == b,
{
    encode_utf8_decode_utf8(a);
    encode_utf8_decode_utf8(b);
}

/// Whether two strings hold the same characters.
pub fn str_eq(a: &str, b: &str) -> (same: bool)
    ensures
        same == (a@ == b@),
{
    let same = bytes_eq(a.as_bytes(), b.as_bytes());
    proof {
        if same {
            lemma_encoding_is_injective(a@, b@);
        }
    }
    same
}

/// Whether a byte string is the UTF-8 encoding of the given string.
pub fn bytes_are(bytes: &[u8], text: &str) -> (same: bool)
    ensures
        same == (bytes@ == encode_utf8(text@)),
{
    bytes_eq(bytes, text.as_bytes())
}

/// The text that a byte string encodes, where it is valid UTF-8.
pub open spec fn text_of(bytes: Seq<u8>) -> Option<Seq<char>> {
    if valid_utf8(bytes) {
        Some(decode_utf8(bytes))
    } else {
        None
    }
}

/// `core::str::Utf8Error`, of which nothing is read.
#[verifier::external_type_specification]
#[verifier::external_body]
pub struct ExUtf8Error(core::str::Utf8Error);

/// `core::str::from_utf8` accepts exactly the byte strings that are valid
/// UTF-8, and hands back the same bytes as a string slice.
pub assume_specification[ core::str::from_utf8 ](bytes: &[u8]) -> (r: Result<
    &str,
    core::str::Utf8Error,
>)
    ensures
        r is Ok <==> valid_utf8(bytes@),
        r matches Ok(s) ==> s.spec_bytes() == bytes@,
;

/// Decodes a byte string as UTF-8 text.
pub fn decode(bytes: &[u8]) -> (text: Option<&str>)
    ensures
        text is Some <==> text_of(bytes@) is Some,
        text matches Some(s) ==> text_of(bytes@) == Some(s@),
{
    match core::str::from_utf8(bytes) {
        Ok(s) => {
            proof {
                encode_utf8_decode_utf8(s@);
            }
            Some(s)
        },
        Err(_) => None,
    }
}

/// The lowercase form of a string, as `str::to_lowercase` computes it from
/// the Unicode character database.
pub uninterp spec fn lowercase(text: Seq<char>) -> Seq<char>;

/// `str::to_lowercase`: the result is a function of the characters alone; its
/// value is named, not described.
#[verifier::external_body]
pub(crate) fn to_lowercase(text: &str) -> (lower: String)
    ensures
        lower@ == lowercase(text@),
{
    text.to_lowercase()
}

/// A run of `count` spaces.
pub open spec fn spaces(count: nat) -> Seq<char> {
    Seq::new(count, |i: int| ' ')
}

/// A string followed by as many spaces as it lacks to fill `width` columns.
pub open spec fn padded(text: Seq<char>, width: nat) -> Seq<char> {
    if text.len() >= width {
        text
    } else {
        text + spaces((width - text.len()) as nat)
    }
}

/// Appends `text` to `out`, left-aligned in a field of `width` columns.
pub fn push_padded(out: &mut String, text: &str, width: usize)
    ensures
        final(out)@ == old(out)@ + padded(text@, width as nat),
{
    let ghost before = out@;
    out.append(text);
    let mut columns: usize = text.unicode_len();
    while columns < width
        invariant
            text@.len() <= columns,
            columns == text@.len() || columns <= width,
            out@ == before + text@ + spaces((columns - text@.len()) as nat),
        decreases width - columns,
    {
        out.append(" ");
        proof {
            reveal_strlit(" ");
            assert(out@ =~= before + text@ + spaces((columns + 1 - text@.len()) as nat));
        }
        columns += 1;
    }
    assert(out@ =~= before + padded(text@, width as nat));
}

} // verus!
