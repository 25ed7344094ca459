//! Resolution of a buffer's source encoding and the decode / re-encode
//! conversion that follows it.

use vstd::prelude::*;
use vstd::slice::slice_subrange;
use crate::charset::{
    bom_of, charset_guess, decodable_length, decoded, detector_applies, detector_applies_to,
    encodable_length, encoded, is_encodable_length, is_known_label, decode_as, encode_as,
    guess_charset, lookup_label, sniff_bom,
};

verus! {

/// How a candidate encoding was chosen.
#[derive(Clone, Copy, Debug, PartialEq, Eq, Structural)]
pub enum Source {
    Bom,
    Detected,
    Fallback,
}

/// Why a file could not be converted.
#[derive(Clone, Copy, Debug, PartialEq, Eq, Structural)]
pub enum ConvertError {
    /// No signature, no usable guess and no fallback label decodes cleanly.
    NoEncodingResolved,
    /// The target encoding is unknown or cannot represent the decoded text.
    TargetUnrepresentable,
}

/// The encoding chosen for a buffer: a label for it, how many leading bytes
/// are a signature that is not decoded, and how it was chosen.
#[derive(Debug)]
pub struct EncodingCandidate {
    pub encoding: String,
    pub bom_length: usize,
    pub source: Source,
}

impl View for EncodingCandidate {
    type V = (Seq<char>, nat, Source);

    open spec fn view(&self) -> (Seq<char>, nat, Source) {
        (self.encoding@, self.bom_length as nat, self.source)
    }
}

/// A converted file: the bytes to write and the label of the encoding the
/// source file was read in.
#[derive(Debug)]
pub struct Conversion {
    pub bytes: Vec<u8>,
    pub encoding_used: String,
}

impl View for Conversion {
    type V = (Seq<u8>, Seq<char>);

    open spec fn view(&self) -> (Seq<u8>, Seq<char>) {
        (self.bytes@, self.encoding_used@)
    }
}

/// The labels of a list, as text.
pub open spec fn label_seq(labels: Seq<String>) -> Seq<Seq<char>> {
    labels.map_values(|s: String| s@)
}

/// `b` decodes under `label` without any replacement.
pub open spec fn clean_under(label: Seq<char>, b: Seq<u8>) -> bool {
    is_known_label(label) && !decoded(label, b).1
}

/// The index of the first label at or after `i` under which `b` decodes
/// cleanly.
pub open spec fn first_clean_from(labels: Seq<Seq<char>>, b: Seq<u8>, i: int) -> Option<int>
    decreases labels.len() - i,
{
    if i < 0 || i >= labels.len() {
        None
    } else if clean_under(labels[i], b) {
        Some(i)
    } else {
        first_clean_from(labels, b, i + 1)
    }
}

/// The first label of the list under which `b` decodes cleanly.
pub open spec fn first_clean(labels: Seq<Seq<char>>, b: Seq<u8>) -> Option<int> {
    first_clean_from(labels, b, 0)
}

/// The candidate that external signal gives: a byte-order mark, else the
/// detector's guess when it is a known label.
pub open spec fn signal_candidate(
    bom: Option<(Seq<char>, nat)>,
    guess: Seq<char>,
    guess_known: bool,
) -> Option<(Seq<char>, nat, Source)> {
    match bom {
        Some(p) => Some((p.0, p.1, Source::Bom)),
        None => if guess_known {
            Some((guess, 0nat, Source::Detected))
        } else {
            None
        },
    }
}

/// The detector can be run on `b` and guesses a known label.
pub open spec fn usable_guess(b: Seq<u8>) -> bool {
    detector_applies(b) && is_known_label(charset_guess(b))
}

/// The encoding resolved for `b`: signature, then detection, then the first
/// fallback label that decodes cleanly.
pub open spec fn resolution(b: Seq<u8>, labels: Seq<Seq<char>>) -> Option<(Seq<char>, nat, Source)> {
    match signal_candidate(bom_of(b), charset_guess(b), usable_guess(b)) {
        Some(c) => Some(c),
        None => match first_clean(labels, b) {
            Some(i) => Some((labels[i], 0nat, Source::Fallback)),
            None => None,
        },
    }
}

/// The label the text is read with and the text itself: the resolved
/// candidate when it decodes cleanly (past its signature), else the first
/// fallback label that does.
pub open spec fn source_text(b: Seq<u8>, labels: Seq<Seq<char>>) -> Option<(Seq<char>, Seq<char>)> {
    match resolution(b, labels) {
        None => None,
        Some(c) => {
            let rest = b.subrange(c.1 as int, b.len() as int);
            if clean_under(c.0, rest) {
                Some((c.0, decoded(c.0, rest).0))
            } else {
                match first_clean(labels, b) {
                    Some(i) => Some((labels[i], decoded(labels[i], b).0)),
                    None => None,
                }
            }
        },
    }
}

/// The outcome of converting `b` to the encoding of `target`: the new bytes
/// and the source label, or why there are none. Text too long for the
/// encoder's buffer arithmetic is refused like text the target cannot hold.
pub open spec fn conversion(b: Seq<u8>, target: Seq<char>, labels: Seq<Seq<char>>) -> Result<
    (Seq<u8>, Seq<char>),
    ConvertError,
> {
    match source_text(b, labels) {
        None => Err(ConvertError::NoEncodingResolved),
        Some(s) => if encodable_length(s.1) && is_known_label(target) && !encoded(target, s.1).1 {
            Ok((encoded(target, s.1).0, s.0))
        } else {
            Err(ConvertError::TargetUnrepresentable)
        },
    }
}

/// An executable outcome agrees with its model.
pub open spec fn outcome_is(
    r: Result<Conversion, ConvertError>,
    m: Result<(Seq<u8>, Seq<char>), ConvertError>,
) -> bool {
    match r {
        Ok(c) => m == Ok::<(Seq<u8>, Seq<char>), ConvertError>(c@),
        Err(e) => m == Err::<(Seq<u8>, Seq<char>), ConvertError>(e),
    }
}

/// Chooses a candidate from what the signature check and the detector found:
/// the signature wins; a guess counts only when it is a known label.
pub fn pick_candidate(bom: Option<(String, usize)>, guess: String, guess_known: bool) -> (r: Option<
    EncodingCandidate,
>)
    ensures
        ({
            let m = signal_candidate(
                match bom {
                    Some(p) => Some((p.0@, p.1 as nat)),
                    None => None,
                },
                guess@,
                guess_known,
            );
            match r {
                Some(c) => m == Some(c@),
                None => m is None,
            }
        }),
{
    match bom {
        Some(p) => Some(EncodingCandidate { encoding: p.0, bom_length: p.1, source: Source::Bom }),
        None => if guess_known {
            Some(EncodingCandidate { encoding: guess, bom_length: 0, source: Source::Detected })
        } else {
            None
        },
    }
}

/// Tries the fallback labels in order and returns the index of the first one
/// under which the whole buffer decodes without replacement, with that text.
pub fn scan_fallbacks(b: &[u8], labels: &Vec<String>) -> (r: Option<(usize, String)>)
    requires
        decodable_length(b@),
    ensures
        match r {
            Some(p) => first_clean(label_seq(labels@), b@) == Some(p.0 as int) && p.0
                < labels.len() && p.1@ == decoded(labels@[p.0 as int]@, b@).0,
            None => first_clean(label_seq(labels@), b@) is None,
        },
{
    let ghost ls = label_seq(labels@);
    let mut i: usize = 0;
    while i < labels.len()
        invariant
            i <= labels.len(),
            decodable_length(b@),
            ls == label_seq(labels@),
            first_clean(ls, b@) == first_clean_from(ls, b@, i as int),
        decreases labels.len() - i,
    {
        assert(ls[i as int] == labels@[i as int]@);
        match decode_as(labels[i].as_str(), b) {
            Some(p) => {
                if !p.1 {
                    return Some((i, p.0));
                }
            },
            None => {},
        }
        i += 1;
    }
    None
}

/// Decides which encoding `bytes` is in: a byte-order mark is authoritative;
/// otherwise the detector's guess is taken when the detector can judge the
/// buffer and its guess names a known encoding;
/// otherwise the first fallback label under which the buffer decodes cleanly.
pub fn resolve(bytes: &[u8], fallback: &Vec<String>) -> (r: Result<EncodingCandidate, ConvertError>)
    requires
        decodable_length(bytes@),
    ensures
        match r {
            Ok(c) => resolution(bytes@, label_seq(fallback@)) == Some(c@),
            Err(e) => e == ConvertError::NoEncodingResolved && resolution(
                bytes@,
                label_seq(fallback@),
            ) is None,
        },
{
    let bom = sniff_bom(bytes);
    let signal = match bom {
        Some(p) => pick_candidate(Some(p), String::new(), false),
        None => if detector_applies_to(bytes) {
            let guess = guess_charset(bytes);
            let known = lookup_label(guess.as_str()).is_some();
            pick_candidate(None, guess, known)
        } else {
            pick_candidate(None, String::new(), false)
        },
    };
    match signal {
        Some(c) => Ok(c),
        None => match scan_fallbacks(bytes, fallback) {
            Some(p) => {
                assert(label_seq(fallback@)[p.0 as int] == fallback@[p.0 as int]@);
                Ok(
                    EncodingCandidate {
                        encoding: fallback[p.0].clone(),
                        bom_length: 0,
                        source: Source::Fallback,
                    },
                )
            },
            None => Err(ConvertError::NoEncodingResolved),
        },
    }
}

/// Judges the target encoding's output for text read with `label`: no output
/// (unknown target) or a lossy one is refused; a clean one is the result.
pub fn finish_conversion(out: Option<(Vec<u8>, bool)>, label: String) -> (r: Result<
    Conversion,
    ConvertError,
>)
    ensures
        match out {
            Some(p) => if p.1 {
                r == Err::<Conversion, ConvertError>(ConvertError::TargetUnrepresentable)
            } else {
                r matches Ok(c) && c@ == (p.0@, label@)
            },
            None => r == Err::<Conversion, ConvertError>(ConvertError::TargetUnrepresentable),
        },
{
    match out {
        Some(p) => if p.1 {
            Err(ConvertError::TargetUnrepresentable)
        } else {
            Ok(Conversion { bytes: p.0, encoding_used: label })
        },
        None => Err(ConvertError::TargetUnrepresentable),
    }
}

/// Converts one file's bytes to the encoding of `target`. The resolved
/// encoding is used when it decodes cleanly past its signature; a signature
/// or a guess that turns out lossy sends the search on to the fallback list.
/// Text that the target cannot represent exactly is refused; nothing is
/// produced unless the whole output could be computed.
pub fn convert(bytes: &[u8], target: &str, fallback: &Vec<String>) -> (r: Result<
    Conversion,
    ConvertError,
>)
    requires
        decodable_length(bytes@),
    ensures
        outcome_is(r, conversion(bytes@, target@, label_seq(fallback@))),
{
    let cand = match resolve(bytes, fallback) {
        Ok(c) => c,
        Err(e) => return Err(e),
    };
    let rest = slice_subrange(bytes, cand.bom_length, bytes.len());
    let clean: Option<String> = match decode_as(cand.encoding.as_str(), rest) {
        Some(p) => if p.1 {
            None
        } else {
            Some(p.0)
        },
        None => None,
    };
    let (label, text) = match clean {
        Some(t) => (cand.encoding, t),
        None => match scan_fallbacks(bytes, fallback) {
            Some(p) => {
                assert(label_seq(fallback@)[p.0 as int] == fallback@[p.0 as int]@);
                (fallback[p.0].clone(), p.1)
            },
            None => return Err(ConvertError::NoEncodingResolved),
        },
    };
    if !is_encodable_length(text.as_str()) {
        return Err(ConvertError::TargetUnrepresentable);
    }
    let out = encode_as(target, text.as_str());
    finish_conversion(out, label)
}

/// Converts each file of a batch on its own: one file's failure does not
/// stop or change the others.
pub fn convert_all(files: &Vec<Vec<u8>>, target: &str, fallback: &Vec<String>) -> (r: Vec<
    Result<Conversion, ConvertError>,
>)
    requires
        forall|i: int| 0 <= i < files.len() ==> decodable_length(#[trigger] files[i]@),
    ensures
        r.len() == files.len(),
        forall|i: int|
            0 <= i < files.len() ==> #[trigger] outcome_is(
                r[i],
                conversion(files[i]@, target@, label_seq(fallback@)),
            ),
{
    let mut out: Vec<Result<Conversion, ConvertError>> = Vec::new();
    let mut i: usize = 0;
    while i < files.len()
        invariant
            i <= files.len(),
            out.len() == i,
            forall|j: int| 0 <= j < files.len() ==> decodable_length(#[trigger] files[j]@),
            forall|j: int|
                0 <= j < i ==> #[trigger] outcome_is(
                    out[j],
                    conversion(files[j]@, target@, label_seq(fallback@)),
                ),
        decreases files.len() - i,
    {
        let one = convert(files[i].as_slice(), target, fallback);
        out.push(one);
        i += 1;
    }
    out
}

/// The number of successes among the first `n` outcomes.
pub open spec fn successes(r: Seq<Result<Conversion, ConvertError>>, n: int) -> nat
    decreases n,
{
    if n <= 0 || n > r.len() {
        0
    } else {
        successes(r, n - 1) + if r[n - 1] is Ok {
            1nat
        } else {
            0nat
        }
    }
}

/// Counts the successes and the failures of a batch.
pub fn tally(results: &Vec<Result<Conversion, ConvertError>>) -> (r: (usize, usize))
    ensures
        r.0 == successes(results@, results.len() as int),
        r.0 + r.1 == results.len(),
{
    let mut ok: usize = 0;
    let mut failed: usize = 0;
    let mut i: usize = 0;
    while i < results.len()
        invariant
            i <= results.len(),
            ok == successes(results@, i as int),
            ok + failed == i,
        decreases results.len() - i,
    {
        if results[i].is_ok() {
            ok += 1;
        } else {
            failed += 1;
        }
        i += 1;
    }
    (ok, failed)
}

} // verus!
