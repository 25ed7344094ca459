//! The encoding tables of `encoding_rs` and the statistical detector of
//! `chardet`, seen through small trusted calls.
//!
//! An encoding is identified by a label (`"utf-8"`, `"latin1"`,
//! `"windows-1252"`), the way the WHATWG Encoding Standard names them.

use vstd::prelude::*;
use vstd::string::StrSliceExecFns;
use encoding_rs::Encoding;

verus! {

/// What a leading byte-order mark says: the canonical name of the encoding it
/// announces and the number of bytes it occupies.
pub open spec fn bom_of(b: Seq<u8>) -> Option<(Seq<char>, nat)> {
    if b.len() >= 3 && b[0] == 0xEFu8 && b[1] == 0xBBu8 && b[2] == 0xBFu8 {
        Some(("UTF-8"@, 3nat))
    } else if b.len() >= 2 && b[0] == 0xFFu8 && b[1] == 0xFEu8 {
        Some(("UTF-16LE"@, 2nat))
    } else if b.len() >= 2 && b[0] == 0xFEu8 && b[1] == 0xFFu8 {
        Some(("UTF-16BE"@, 2nat))
    } else {
        None
    }
}

/// The canonical name of the encoding that a label stands for, if any.
pub uninterp spec fn label_name(label: Seq<char>) -> Option<Seq<char>>;

/// The text that the encoding of `label` makes of `b`, and whether some byte
/// sequence had to be replaced by U+FFFD.
pub uninterp spec fn decoded(label: Seq<char>, b: Seq<u8>) -> (Seq<char>, bool);

/// The bytes that the encoding of `label` makes of `t`, and whether some
/// character had no representation and was written as a numeric character
/// reference.
pub uninterp spec fn encoded(label: Seq<char>, t: Seq<char>) -> (Seq<u8>, bool);

/// The charset name that the statistical detector guesses for `b`.
pub uninterp spec fn charset_guess(b: Seq<u8>) -> Seq<char>;

/// Buffers of at most this many bytes can be decoded: `encoding_rs` panics
/// when the size of its output buffer overflows `usize`, which takes up to
/// four output bytes per input byte and a rounding to a power of two.
pub open spec fn decodable_length(b: Seq<u8>) -> bool {
    b.len() <= usize::MAX / 64
}

/// Texts of at most this many characters can be encoded; the output of the
/// encoder is bounded in the same way, with up to four bytes per character of
/// the input and ten per numeric character reference.
pub open spec fn encodable_length(t: Seq<char>) -> bool {
    t.len() <= usize::MAX / 256
}

/// Whether a text is short enough to be encoded.
pub fn is_encodable_length(t: &str) -> (r: bool)
    ensures
        r == encodable_length(t@),
{
    t.unicode_len() <= usize::MAX / 256
}

/// A label is usable when it stands for an encoding.
pub open spec fn is_known_label(label: Seq<char>) -> bool {
    label_name(label) is Some
}

/// Relies on `encoding_rs::Encoding::for_bom`: UTF-8 (3 bytes), UTF-16LE or
/// UTF-16BE (2 bytes) when the buffer starts with that mark, else nothing.
#[verifier::external_body]
pub(crate) fn sniff_bom(b: &[u8]) -> (r: Option<(String, usize)>)
    ensures
        match r {
            Some(p) => bom_of(b@) == Some((p.0@, p.1 as nat)),
            None => bom_of(b@) is None,
        },
{
    Encoding::for_bom(b).map(|(e, n)| (e.name().to_string(), n))
}

/// Relies on `encoding_rs::Encoding::for_label`: the encoding a label stands
/// for, given by its canonical name.
#[verifier::external_body]
pub(crate) fn lookup_label(label: &str) -> (r: Option<String>)
    ensures
        match r {
            Some(n) => label_name(label@) == Some(n@),
            None => label_name(label@) is None,
        },
{
    Encoding::for_label(label.as_bytes()).map(|e| e.name().to_string())
}

/// Relies on `encoding_rs::Encoding::for_label` and
/// `Encoding::decode_without_bom_handling`: decodes the whole buffer with the
/// encoding of `label`, reporting whether replacements were made.
#[verifier::external_body]
pub(crate) fn decode_as(label: &str, b: &[u8]) -> (r: Option<(String, bool)>)
    requires
        decodable_length(b@),
    ensures
        r is Some <==> is_known_label(label@),
        r matches Some(p) ==> decoded(label@, b@) == (p.0@, p.1),
{
    match Encoding::for_label(label.as_bytes()) {
        Some(e) => {
            let (text, had_errors) = e.decode_without_bom_handling(b);
            Some((text.into_owned(), had_errors))
        },
        None => None,
    }
}

/// Relies on `encoding_rs::Encoding::for_label` and `Encoding::encode`:
/// encodes the text with the encoding of `label`, reporting whether some
/// character could not be represented.
#[verifier::external_body]
pub(crate) fn encode_as(label: &str, t: &str) -> (r: Option<(Vec<u8>, bool)>)
    requires
        encodable_length(t@),
    ensures
        r is Some <==> is_known_label(label@),
        r matches Some(p) ==> encoded(label@, t@) == (p.0@, p.1),
{
    match Encoding::for_label(label.as_bytes()) {
        Some(e) => {
            let (bytes, _, had_errors) = e.encode(t);
            Some((bytes.into_owned(), had_errors))
        },
        None => None,
    }
}

/// A byte that marks 8-bit text for the detector.
pub open spec fn is_high_byte(x: u8) -> bool {
    x >= 0x80u8 && x != 0xA0u8
}

/// The detector can judge `b`: it holds no escape byte, or some 8-bit byte.
/// On 7-bit text with an escape byte that names no escape-based charset the
/// detector gives up by panicking, so it is not run there.
pub open spec fn detector_applies(b: Seq<u8>) -> bool {
    (forall|i: int| 0 <= i < b.len() ==> b[i] != 0x1Bu8) || (exists|i: int|
        0 <= i < b.len() && is_high_byte(#[trigger] b[i]))
}

/// Whether the statistical detector may be run on `b`.
pub fn detector_applies_to(b: &[u8]) -> (r: bool)
    ensures
        r == detector_applies(b@),
{
    let mut has_escape = false;
    let mut i: usize = 0;
    while i < b.len()
        invariant
            i <= b.len(),
            forall|j: int| 0 <= j < i ==> !is_high_byte(#[trigger] b@[j]),
            has_escape == (exists|j: int| 0 <= j < i && b@[j] == 0x1Bu8),
        decreases b.len() - i,
    {
        let x = b[i];
        if x >= 0x80 && x != 0xA0 {
            return true;
        }
        if x == 0x1B {
            has_escape = true;
        }
        i += 1;
    }
    !has_escape
}

/// Relies on `chardet::detect`: the charset name it guesses (its confidence
/// and language are not used). Its `close` reaches `unreachable!()` on some
/// 7-bit text with escape bytes, which the precondition leaves out.
#[verifier::external_body]
pub(crate) fn guess_charset(b: &[u8]) -> (r: String)
    requires
        detector_applies(b@),
    ensures
        r@ == charset_guess(b@),
{
    chardet::detect(b).0
}

} // verus!
