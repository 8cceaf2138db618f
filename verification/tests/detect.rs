use uchardet_git::{
    detect_encoding, detect_encoding_name, Candidates, CharsetDetector, Error, RawCandidate,
};

/// A candidate as the detector reports it.
fn report(encoding: &[u8], language: Option<&[u8]>) -> RawCandidate {
    RawCandidate { encoding: encoding.to_vec(), language: language.map(|l| l.to_vec()) }
}

/// Checks the charset name found for a successful feed whose best
/// candidate the detector named `reported`.
fn assert_detected_encoding(reported: &[u8], expected: &str) {
    let encoding = detect_encoding_name(0, vec![report(reported, None)])
        .expect("should have at least one candidate");
    assert_eq!(encoding, expected);
}

// For the input `b"ascii"` the detector names `ASCII`.
#[test]
fn test_detect_encoding_ascii() {
    assert_detected_encoding(b"ASCII", "ASCII");
}

// For the input "©français" (as UTF-8) the detector names `UTF-8`.
#[test]
fn test_detect_encoding_utf8() {
    assert_detected_encoding(b"UTF-8", "UTF-8");
}

// For the bytes 46 93 72 61 6e e7 6f 69 73 e9 94 the detector names
// `WINDOWS-1252`, with French as the language.
#[test]
fn test_detect_encoding_windows1252() {
    let encoding =
        detect_encoding_name(0, vec![report(b"WINDOWS-1252", Some(b"fr"))]).unwrap();
    assert_eq!(encoding, "WINDOWS-1252");
}

#[test]
fn detect_encoding_name_takes_the_best_candidate() {
    let reports = vec![report(b"ISO-8859-2", Some(b"hu")), report(b"WINDOWS-1250", Some(b"cs"))];
    assert_eq!(detect_encoding_name(0, reports).unwrap(), "ISO-8859-2");
}

#[test]
fn detect_encoding_name_reports_feed_failure() {
    let r = detect_encoding_name(-1, vec![report(b"UTF-8", None)]);
    assert!(matches!(r, Err(Error::OutOfMemory(-1))));
}

#[test]
fn detect_encoding_name_without_candidates() {
    let r = detect_encoding_name(0, Vec::new());
    assert!(matches!(r, Err(Error::UnrecognizableCharset)));
}

#[test]
fn detect_encoding_name_with_empty_name() {
    let r = detect_encoding_name(0, vec![report(b"", None)]);
    assert!(matches!(r, Err(Error::UnrecognizableCharset)));
}

#[test]
fn detect_encoding_name_with_invalid_name() {
    let r = detect_encoding_name(0, vec![report(b"UTF\xff8", None)]);
    assert!(matches!(r, Err(Error::InvalidCharset)));
}

#[test]
fn detect_encoding_gives_standard_encoding() {
    let e = detect_encoding(0, vec![report(b"WINDOWS-1252", Some(b"fr"))]).unwrap();
    assert_eq!(e.name(), "windows-1252");
    let e = detect_encoding(0, vec![report(b"GB18030", Some(b"zh"))]).unwrap();
    assert_eq!(e.name(), "gb18030");
    let e = detect_encoding(0, vec![report(b"MAC-CYRILLIC", Some(b"ru"))]).unwrap();
    assert_eq!(e.name(), "x-mac-cyrillic");
}

#[test]
fn detect_encoding_errors() {
    assert!(matches!(
        detect_encoding(0, vec![report(b"IBM852", Some(b"cs"))]),
        Err(Error::NonStandardCharset)
    ));
    assert!(matches!(
        detect_encoding(0, vec![report(b"ISO-2022-KR", Some(b"ko"))]),
        Err(Error::NonStandardCharset)
    ));
    assert!(matches!(detect_encoding(0, Vec::new()), Err(Error::UnrecognizableCharset)));
    assert!(matches!(detect_encoding(7, Vec::new()), Err(Error::OutOfMemory(7))));
    assert!(matches!(
        detect_encoding(0, vec![report(b"\xc3", None)]),
        Err(Error::InvalidCharset)
    ));
}

#[test]
fn detect_data_feeds_once() {
    let c = CharsetDetector::detect_data(0, vec![report(b"UTF-8", None)]).unwrap();
    assert_eq!(c.len(), 1);
    assert!(!c.detector().external_error_occurred());
    assert!(matches!(
        CharsetDetector::detect_data(2, vec![report(b"UTF-8", None)]),
        Err(Error::OutOfMemory(2))
    ));
    let c = Candidates::detect(0, vec![report(b"UTF-8", None), report(b"ASCII", None)]).unwrap();
    assert_eq!(c.len(), 2);
    assert!(matches!(Candidates::detect(5, Vec::new()), Err(Error::OutOfMemory(5))));
}

#[test]
fn feed_failure_is_recorded_until_reset() {
    let mut d = CharsetDetector::new();
    assert!(!d.external_error_occurred());
    assert!(d.feed_data(0).is_ok());
    assert!(!d.external_error_occurred());
    assert!(matches!(d.feed_data(12), Err(Error::OutOfMemory(12))));
    assert!(d.external_error_occurred());
    assert!(d.feed_data(0).is_ok());
    assert!(d.external_error_occurred());
    d.reset();
    assert!(!d.external_error_occurred());
    let d = CharsetDetector::default();
    assert!(!d.external_error_occurred());
}

#[test]
fn failure_survives_detection_and_reset_clears_it() {
    let mut d = CharsetDetector::new();
    let _ = d.feed_data(1);
    let c = d.detect(vec![report(b"UTF-8", None)]);
    assert!(c.detector().external_error_occurred());
    let d = c.reset();
    assert!(!d.external_error_occurred());
}

#[test]
fn weigh_language_accepts_plain_names() {
    let d = CharsetDetector::new();
    assert_eq!(d.weigh_language("fr").unwrap(), b"fr".to_vec());
    assert_eq!(d.weigh_language("").unwrap(), Vec::<u8>::new());
}

#[test]
fn weigh_language_refuses_interior_nul() {
    let d = CharsetDetector::new();
    match d.weigh_language("f\0r\0") {
        Err(Error::InvalidLanguage(e)) => {
            assert_eq!(e.position, 1);
            assert_eq!(e.bytes, b"f\0r\0".to_vec());
        }
        other => panic!("unexpected {:?}", other),
    }
}

#[test]
fn encoding_fails_where_name_fails() {
    let cases: Vec<(i32, Vec<RawCandidate>)> = vec![
        (0, vec![report(b"UTF-8", None)]),
        (0, vec![report(b"IBM855", Some(b"ru"))]),
        (0, vec![report(b"", None)]),
        (0, vec![report(b"\x80", None)]),
        (0, Vec::new()),
        (3, vec![report(b"UTF-8", None)]),
    ];
    for (status, reports) in cases {
        let copy: Vec<RawCandidate> = reports
            .iter()
            .map(|r| RawCandidate { encoding: r.encoding.clone(), language: r.language.clone() })
            .collect();
        match (detect_encoding_name(status, reports), detect_encoding(status, copy)) {
            (Err(a), Err(b)) => assert_eq!(a, b),
            (Ok(_), Ok(_)) => {}
            (Ok(_), Err(b)) => assert_eq!(b, Error::NonStandardCharset),
            (Err(a), Ok(_)) => panic!("name failed with {:?} but the encoding was found", a),
        }
    }
}
