use encoding_rs::Encoding;
use uchardet_git::encoding::to_standard;

fn assert_encoding_for_name(expected: &'static Encoding, name: &str) {
    let actual = Encoding::for_label(name.as_bytes()).expect("Expected an encoding");
    assert_eq!(expected.name(), actual.name());
}

fn assert_no_encoding_for_name(name: &str) {
    assert_eq!(Encoding::for_label(name.as_bytes()), None);
}

fn standard_name(name: &str) -> Option<&'static str> {
    to_standard(name).map(|e| e.name())
}

#[test]
fn test_encoding_for_label_handles_uchardet_names_as_expected() {
    // Note that we may not want to map "ASCII" to 1252 at higher levels.
    assert_encoding_for_name(encoding_rs::WINDOWS_1252, "ASCII");
    assert_encoding_for_name(encoding_rs::BIG5, "BIG5");
    assert_encoding_for_name(encoding_rs::EUC_JP, "EUC-JP");
    assert_encoding_for_name(encoding_rs::EUC_KR, "EUC-KR");
    assert_encoding_for_name(encoding_rs::GB18030, "GB18030");
    assert_encoding_for_name(encoding_rs::IBM866, "IBM866");
    assert_encoding_for_name(encoding_rs::ISO_2022_JP, "ISO-2022-JP");
    assert_encoding_for_name(encoding_rs::WINDOWS_1252, "ISO-8859-1");
    assert_encoding_for_name(encoding_rs::ISO_8859_2, "ISO-8859-2");
    assert_encoding_for_name(encoding_rs::ISO_8859_3, "ISO-8859-3");
    assert_encoding_for_name(encoding_rs::ISO_8859_4, "ISO-8859-4");
    assert_encoding_for_name(encoding_rs::ISO_8859_5, "ISO-8859-5");
    assert_encoding_for_name(encoding_rs::ISO_8859_6, "ISO-8859-6");
    assert_encoding_for_name(encoding_rs::ISO_8859_7, "ISO-8859-7");
    assert_encoding_for_name(encoding_rs::ISO_8859_8, "ISO-8859-8");
    assert_encoding_for_name(encoding_rs::WINDOWS_1254, "ISO-8859-9");
    assert_encoding_for_name(encoding_rs::ISO_8859_10, "ISO-8859-10");
    assert_encoding_for_name(encoding_rs::WINDOWS_874, "ISO-8859-11");
    assert_encoding_for_name(encoding_rs::ISO_8859_13, "ISO-8859-13");
    assert_encoding_for_name(encoding_rs::ISO_8859_15, "ISO-8859-15");
    assert_encoding_for_name(encoding_rs::ISO_8859_16, "ISO-8859-16");
    assert_encoding_for_name(encoding_rs::WINDOWS_874, "TIS-620");
    assert_encoding_for_name(encoding_rs::KOI8_R, "KOI8-R");
    assert_encoding_for_name(encoding_rs::SHIFT_JIS, "SHIFT_JIS");
    assert_encoding_for_name(encoding_rs::UTF_8, "UTF-8");
    // The decoder detects the byte order mark, which is the only way the
    // detector can tell UTF-16 at all, so UTF-16LE serves for both orders.
    assert_encoding_for_name(encoding_rs::UTF_16LE, "UTF-16");
    assert_encoding_for_name(encoding_rs::WINDOWS_1250, "Windows-1250");
    assert_encoding_for_name(encoding_rs::WINDOWS_1251, "Windows-1251");
    assert_encoding_for_name(encoding_rs::WINDOWS_1252, "Windows-1252");
    assert_encoding_for_name(encoding_rs::WINDOWS_1253, "Windows-1253");
    assert_encoding_for_name(encoding_rs::WINDOWS_1255, "Windows-1255");
    assert_encoding_for_name(encoding_rs::WINDOWS_1256, "Windows-1256");
    assert_encoding_for_name(encoding_rs::WINDOWS_1257, "Windows-1257");
    assert_encoding_for_name(encoding_rs::WINDOWS_1258, "Windows-1258");

    // X-*
    assert_no_encoding_for_name("MAC-CENTRALEUROPE");
    assert_no_encoding_for_name("MAC-CYRILLIC");
    // X-*
    assert_no_encoding_for_name("X-MAC-CENTRALEUROPE");
    assert_encoding_for_name(encoding_rs::X_MAC_CYRILLIC, "X-MAC-CYRILLIC");

    // REPLACEMENT
    assert_encoding_for_name(encoding_rs::REPLACEMENT, "HZ-GB-2312");
    assert_encoding_for_name(encoding_rs::REPLACEMENT, "ISO-2022-CN");
    assert_encoding_for_name(encoding_rs::REPLACEMENT, "ISO-2022-KR");

    assert_no_encoding_for_name("IBM737");
    assert_no_encoding_for_name("CP737");
    // Not supported by the Encoding Standard.
    assert_no_encoding_for_name("EUC-TW");
    assert_no_encoding_for_name("GEORGIAN-ACADEMY");
    assert_no_encoding_for_name("GEORGIAN-PS");
    assert_no_encoding_for_name("IBM852");
    assert_no_encoding_for_name("IBM855");
    assert_no_encoding_for_name("IBM862");
    assert_no_encoding_for_name("IBM865");
    assert_no_encoding_for_name("Johab");
    // superset of EUC-KR.
    assert_no_encoding_for_name("UHC");
    assert_no_encoding_for_name("UTF-32BE");
    assert_no_encoding_for_name("UTF-32LE");
    assert_no_encoding_for_name("VISCII");
    assert_no_encoding_for_name("X-ISO-10646-UCS-4-34121");
    assert_no_encoding_for_name("X-ISO-10646-UCS-4-21431");
}

#[test]
fn to_standard_maps_detector_names_through_labels() {
    assert_eq!(standard_name("ASCII"), Some("windows-1252"));
    assert_eq!(standard_name("ISO-8859-1"), Some("windows-1252"));
    assert_eq!(standard_name("ISO-8859-9"), Some("windows-1254"));
    assert_eq!(standard_name("TIS-620"), Some("windows-874"));
    assert_eq!(standard_name("UTF-16"), Some("UTF-16LE"));
    assert_eq!(standard_name("UTF-8"), Some("UTF-8"));
    assert_eq!(standard_name("GB18030"), Some("gb18030"));
    assert_eq!(standard_name("SHIFT_JIS"), Some("Shift_JIS"));
    assert_eq!(standard_name("EUC-KR"), Some("EUC-KR"));
    assert_eq!(standard_name("X-MAC-CYRILLIC"), Some("x-mac-cyrillic"));
}

#[test]
fn to_standard_maps_mac_cyrillic() {
    assert_eq!(standard_name("MAC-CYRILLIC"), Some("x-mac-cyrillic"));
    assert_eq!(standard_name("mac-cyrillic"), Some("x-mac-cyrillic"));
    assert_eq!(standard_name("Mac-Cyrillic"), Some("x-mac-cyrillic"));
}

#[test]
fn to_standard_refuses_replacement_labels() {
    assert_eq!(standard_name("HZ-GB-2312"), None);
    assert_eq!(standard_name("ISO-2022-CN"), None);
    assert_eq!(standard_name("ISO-2022-KR"), None);
    assert_eq!(standard_name("iso-2022-kr"), None);
    // Other labels of the replacement encoding are refused by the lookup.
    assert_eq!(standard_name("csiso2022kr"), None);
}

#[test]
fn to_standard_refuses_unknown_names() {
    assert_eq!(standard_name("IBM852"), None);
    assert_eq!(standard_name("UTF-32LE"), None);
    assert_eq!(standard_name("VISCII"), None);
    assert_eq!(standard_name("MAC-CENTRALEUROPE"), None);
    assert_eq!(standard_name(""), None);
}

#[test]
fn to_standard_ignores_ascii_case() {
    for (a, b) in [
        ("windows-1251", "WINDOWS-1251"),
        ("koi8-r", "KOI8-R"),
        ("Big5", "bIG5"),
        ("ibm852", "IBM852"),
        ("hz-gb-2312", "HZ-GB-2312"),
    ] {
        assert_eq!(standard_name(a), standard_name(b));
    }
    assert_eq!(standard_name("windows-1251"), Some("windows-1251"));
}
