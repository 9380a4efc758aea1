use diol_cbind::nounwind;
use diol_cbind::text::BorrowedClass;
use diol_cbind::text::Utf8Text;
use diol_cbind::text::classify_borrowed;
use diol_cbind::text::copy_bytes;
use diol_cbind::text::utf8_check;

#[test]
fn round_trip_ascii() {
    let s = b"hello world".to_vec();
    let t = Utf8Text::from_bytes(s.clone()).unwrap();
    let o = t.own_out();
    assert_eq!(o.as_bytes(), &s);
    let released = o.release();
    assert_eq!(released, s);
}

#[test]
fn round_trip_multibyte() {
    // two-, three- and four-byte sequences
    let s = "h\u{e9}llo \u{20ac} \u{1d11e}".as_bytes().to_vec();
    let t = Utf8Text::from_bytes(s.clone()).unwrap();
    assert_eq!(t.bytes, s);
    let o = t.own_out();
    assert_eq!(o.release(), s);
}

#[test]
fn round_trip_empty() {
    let t = Utf8Text::from_bytes(Vec::new()).unwrap();
    let o = t.own_out();
    assert_eq!(o.release(), Vec::<u8>::new());
}

#[test]
fn utf8_accepts_all_boundary_shapes() {
    assert!(utf8_check(&vec![0x7F]));
    assert!(utf8_check(&vec![0xC2, 0x80]));
    assert!(utf8_check(&vec![0xDF, 0xBF]));
    assert!(utf8_check(&vec![0xE0, 0xA0, 0x80]));
    assert!(utf8_check(&vec![0xED, 0x9F, 0xBF]));
    assert!(utf8_check(&vec![0xEE, 0x80, 0x80]));
    assert!(utf8_check(&vec![0xF0, 0x90, 0x80, 0x80]));
    assert!(utf8_check(&vec![0xF4, 0x8F, 0xBF, 0xBF]));
}

#[test]
fn utf8_rejects_malformed() {
    // lone continuation byte
    assert!(!utf8_check(&vec![0x80]));
    // overlong encoding of NUL
    assert!(!utf8_check(&vec![0xC0, 0x80]));
    // overlong two-byte lead
    assert!(!utf8_check(&vec![0xC1, 0xBF]));
    // surrogate half
    assert!(!utf8_check(&vec![0xED, 0xA0, 0x80]));
    // truncated three-byte sequence
    assert!(!utf8_check(&vec![0xE2, 0x82]));
    // beyond U+10FFFF
    assert!(!utf8_check(&vec![0xF4, 0x90, 0x80, 0x80]));
    // stray non-continuation in trailing position
    assert!(!utf8_check(&vec![0xC2, 0x41]));
    // lead byte that no sequence starts with
    assert!(!utf8_check(&vec![0xF5, 0x80, 0x80, 0x80]));
}

#[test]
fn malformed_text_is_refused_not_decoded() {
    // the raw entry points abort on this; the engine side never builds a value
    assert!(Utf8Text::from_bytes(vec![0xED, 0xA0, 0x80]).is_none());
    assert!(Utf8Text::from_bytes(vec![0xFF]).is_none());
}

#[test]
fn borrowed_classification() {
    assert_eq!(classify_borrowed(false, usize::MAX), BorrowedClass::Absent);
    assert_eq!(classify_borrowed(true, usize::MAX), BorrowedClass::Absent);
    assert_eq!(classify_borrowed(true, 0), BorrowedClass::Empty);
    assert_eq!(classify_borrowed(false, 0), BorrowedClass::Payload);
    assert_eq!(classify_borrowed(false, 11), BorrowedClass::Payload);
}

#[test]
fn copy_bytes_copies() {
    let v = vec![1u8, 2, 3, 255];
    assert_eq!(copy_bytes(&v), v);
    assert_eq!(copy_bytes(&Vec::new()), Vec::<u8>::new());
}

#[test]
fn nounwind_passes_result_through() {
    let r = nounwind(|| 41usize + 1);
    assert_eq!(r, 42);
    let s = nounwind(|| String::from("ok"));
    assert_eq!(s, "ok");
}
