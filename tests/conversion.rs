use recode::charset::{detector_applies_to, is_encodable_length};
use recode::pipeline::{
    convert, convert_all, finish_conversion, pick_candidate, resolve, scan_fallbacks, tally,
    Conversion, ConvertError, EncodingCandidate, Source,
};

fn labels(v: &[&str]) -> Vec<String> {
    v.iter().map(|s| s.to_string()).collect()
}

fn with_utf8_bom(text: &str) -> Vec<u8> {
    let mut b = vec![0xEF, 0xBB, 0xBF];
    b.extend_from_slice(text.as_bytes());
    b
}

fn candidate(c: &EncodingCandidate) -> (&str, usize, Source) {
    (c.encoding.as_str(), c.bom_length, c.source)
}

#[test]
fn utf8_bom_wins_over_fallbacks() {
    let b = with_utf8_bom("abc");
    let c = resolve(&b, &labels(&["windows-1252", "koi8-r"])).unwrap();
    assert_eq!(candidate(&c), ("UTF-8", 3, Source::Bom));
    let c = resolve(&b, &labels(&[])).unwrap();
    assert_eq!(candidate(&c), ("UTF-8", 3, Source::Bom));
}

#[test]
fn utf16_boms_are_recognised() {
    let le = vec![0xFF, 0xFE, 0x41, 0x00];
    assert_eq!(candidate(&resolve(&le, &labels(&["utf-8"])).unwrap()), ("UTF-16LE", 2, Source::Bom));
    let be = vec![0xFE, 0xFF, 0x00, 0x41];
    assert_eq!(candidate(&resolve(&be, &labels(&["utf-8"])).unwrap()), ("UTF-16BE", 2, Source::Bom));
}

#[test]
fn ascii_is_detected() {
    let c = resolve(b"hello", &labels(&["koi8-r"])).unwrap();
    assert_eq!(candidate(&c), ("ascii", 0, Source::Detected));
}

#[test]
fn empty_buffer_falls_back_in_order() {
    let c = resolve(b"", &labels(&["no-such-label", "koi8-r", "utf-8"])).unwrap();
    assert_eq!(candidate(&c), ("koi8-r", 0, Source::Fallback));
}

#[test]
fn empty_buffer_without_fallbacks_is_unresolved() {
    assert_eq!(resolve(b"", &labels(&[])).unwrap_err(), ConvertError::NoEncodingResolved);
    assert_eq!(resolve(b"", &labels(&["bogus"])).unwrap_err(), ConvertError::NoEncodingResolved);
}

#[test]
fn scan_skips_a_lossy_label() {
    let b = vec![0xFF, 0x41];
    let r = scan_fallbacks(&b, &labels(&["utf-8", "windows-1252", "koi8-r"]));
    assert_eq!(r, Some((1, "\u{ff}A".to_string())));
}

#[test]
fn scan_exhausted() {
    let b = vec![0xFF, 0x41];
    assert_eq!(scan_fallbacks(&b, &labels(&["utf-8", "bogus"])), None);
    assert_eq!(scan_fallbacks(&b, &labels(&[])), None);
}

#[test]
fn pick_prefers_the_signature() {
    let c = pick_candidate(Some(("UTF-8".to_string(), 3)), "windows-1252".to_string(), true).unwrap();
    assert_eq!(candidate(&c), ("UTF-8", 3, Source::Bom));
    let c = pick_candidate(None, "windows-1252".to_string(), true).unwrap();
    assert_eq!(candidate(&c), ("windows-1252", 0, Source::Detected));
    assert!(pick_candidate(None, "windows-1252".to_string(), false).is_none());
}

#[test]
fn finish_refuses_lossy_or_missing_output() {
    let ok = finish_conversion(Some((vec![1, 2], false)), "koi8-r".to_string()).unwrap();
    assert_eq!((ok.bytes, ok.encoding_used), (vec![1, 2], "koi8-r".to_string()));
    assert_eq!(
        finish_conversion(Some((vec![1], true)), "koi8-r".to_string()).unwrap_err(),
        ConvertError::TargetUnrepresentable
    );
    assert_eq!(
        finish_conversion(None, "koi8-r".to_string()).unwrap_err(),
        ConvertError::TargetUnrepresentable
    );
}

#[test]
fn bom_text_is_reencoded_without_the_mark() {
    let b = with_utf8_bom("h\u{e9}llo");
    let r = convert(&b, "windows-1252", &labels(&[])).unwrap();
    assert_eq!(r.bytes, vec![0x68, 0xE9, 0x6C, 0x6C, 0x6F]);
    assert_eq!(r.encoding_used, "UTF-8");
}

#[test]
fn utf16le_text_becomes_utf8() {
    let b = vec![0xFF, 0xFE, 0x68, 0x00, 0xE9, 0x00];
    let r = convert(&b, "utf-8", &labels(&[])).unwrap();
    assert_eq!(r.bytes, "h\u{e9}".as_bytes().to_vec());
}

#[test]
fn target_that_cannot_represent_text_is_refused() {
    let b = with_utf8_bom("\u{65e5}\u{672c}");
    assert_eq!(
        convert(&b, "windows-1252", &labels(&["utf-8"])).unwrap_err(),
        ConvertError::TargetUnrepresentable
    );
}

#[test]
fn unknown_target_is_refused() {
    let b = with_utf8_bom("abc");
    assert_eq!(
        convert(&b, "no-such-encoding", &labels(&[])).unwrap_err(),
        ConvertError::TargetUnrepresentable
    );
}

#[test]
fn lossy_signature_falls_back() {
    // A UTF-8 mark followed by bytes that are not UTF-8.
    let b = vec![0xEF, 0xBB, 0xBF, 0xFF];
    let r = convert(&b, "utf-8", &labels(&["utf-8", "windows-1252"])).unwrap();
    assert_eq!(r.encoding_used, "windows-1252");
    assert_eq!(r.bytes, "\u{ef}\u{bb}\u{bf}\u{ff}".as_bytes().to_vec());
}

#[test]
fn lossy_signature_without_fallback_is_unresolved() {
    let b = vec![0xEF, 0xBB, 0xBF, 0xFF];
    assert_eq!(convert(&b, "utf-8", &labels(&["utf-8"])).unwrap_err(), ConvertError::NoEncodingResolved);
}

#[test]
fn windows_1252_hello_becomes_utf8() {
    let b = vec![0x68, 0xE9, 0x6C, 0x6C, 0x6F];
    let r = convert(&b, "utf-8", &labels(&["windows-1252"])).unwrap();
    assert_eq!(r.bytes, "h\u{e9}llo".as_bytes().to_vec());
}

#[test]
fn clean_round_trip_through_windows_1252() {
    let text = "caf\u{e9} cr\u{e8}me";
    let there = convert(&with_utf8_bom(text), "windows-1252", &labels(&[])).unwrap();
    assert_eq!(there.bytes, vec![0x63, 0x61, 0x66, 0xE9, 0x20, 0x63, 0x72, 0xE8, 0x6D, 0x65]);
    let back = convert(&there.bytes, "utf-8", &labels(&["windows-1252"])).unwrap();
    assert_eq!(back.bytes, text.as_bytes().to_vec());
}

#[test]
fn batch_failure_is_isolated() {
    let files = vec![with_utf8_bom("one"), Vec::new(), with_utf8_bom("three")];
    let r = convert_all(&files, "utf-8", &labels(&[]));
    assert_eq!(r.len(), 3);
    assert_eq!(r[0].as_ref().unwrap().bytes, b"one".to_vec());
    assert_eq!(r[1].as_ref().unwrap_err(), &ConvertError::NoEncodingResolved);
    assert_eq!(r[2].as_ref().unwrap().bytes, b"three".to_vec());
    assert_eq!(tally(&r), (2, 1));
}

#[test]
fn tally_of_nothing() {
    let r: Vec<Result<Conversion, ConvertError>> = Vec::new();
    assert_eq!(tally(&r), (0, 0));
}

#[test]
fn escape_text_skips_the_detector() {
    let b = vec![0x41, 0x1B, 0x42];
    assert!(!detector_applies_to(&b));
    let c = resolve(&b, &labels(&["bogus", "utf-8"])).unwrap();
    assert_eq!(candidate(&c), ("utf-8", 0, Source::Fallback));
}

#[test]
fn detector_applies_to_plain_and_8bit_text() {
    assert!(detector_applies_to(b""));
    assert!(detector_applies_to(b"plain"));
    assert!(detector_applies_to(&[0x1B, 0xE9]));
    assert!(!detector_applies_to(&[0x1B, 0xA0]));
}

#[test]
fn short_text_is_encodable() {
    assert!(is_encodable_length(""));
    assert!(is_encodable_length("h\u{e9}llo"));
}
