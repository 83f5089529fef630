use bat2exe::codec::Codec;
use bat2exe::encoding_detector::EncodingDetector;

fn canonical(name: &str) -> String {
    EncodingDetector::new().normalize_encoding_name(name)
}

fn compatible(a: &str, b: &str) -> bool {
    EncodingDetector::new().is_encoding_compatible(a, b)
}

#[test]
fn chinese_names_are_one_class() {
    for name in ["gb2312", "gbk", "gb18030", "chinese"] {
        assert_eq!(canonical(name), "gbk");
    }
}

#[test]
fn utf8_names_are_one_class() {
    for name in ["utf-8", "utf8"] {
        assert_eq!(canonical(name), "utf-8");
    }
}

#[test]
fn utf16_names_are_one_class() {
    for name in ["utf-16", "utf16", "utf-16le", "utf-16be"] {
        assert_eq!(canonical(name), "utf-16");
    }
}

#[test]
fn big5_names_are_one_class() {
    for name in ["big5", "big5-hkscs"] {
        assert_eq!(canonical(name), "big5");
    }
}

#[test]
fn ascii_names_are_one_class() {
    for name in ["ascii", "us-ascii"] {
        assert_eq!(canonical(name), "ascii");
    }
}

#[test]
fn other_names_pass_through() {
    for name in ["iso-8859-1", "windows-31j", "tis-620", "", "GBK", "utf-32le", " gbk"] {
        assert_eq!(canonical(name), name);
    }
}

#[test]
fn canonical_name_is_idempotent_on_samples() {
    for name in ["gb2312", "gbk", "gb18030", "chinese", "utf-8", "utf8", "utf-16", "utf16",
        "utf-16le", "utf-16be", "big5", "big5-hkscs", "ascii", "us-ascii", "koi8-r", "", "GBK"]
    {
        let once = canonical(name);
        assert_eq!(canonical(&once), once);
    }
}

#[test]
fn compatibility_ignores_letter_case() {
    assert!(compatible("GBK", "gbk"));
    assert!(compatible("GB2312", "gbk"));
    assert!(compatible("UTF-8", "utf8"));
    assert!(compatible("Big5", "big5-hkscs"));
    assert!(compatible("UTF-16LE", "utf-16"));
    assert!(compatible("ISO-8859-1", "iso-8859-1"));
}

#[test]
fn compatibility_tells_classes_apart() {
    assert!(!compatible("gbk", "utf-8"));
    assert!(!compatible("big5", "gbk"));
    assert!(!compatible("ascii", "utf-8"));
    assert!(!compatible("iso-8859-1", "utf-8"));
    assert!(!compatible("", "gbk"));
}

#[test]
fn both_byte_orders_of_utf16_are_compatible() {
    assert!(compatible("utf-16le", "utf-16be"));
    assert!(compatible("utf-16be", "utf-16le"));
}

#[test]
fn compatibility_is_symmetric_on_samples() {
    let names = ["gbk", "GB2312", "utf-8", "UTF8", "utf-16le", "big5", "ascii", "x-unknown", ""];
    for a in names {
        for b in names {
            assert_eq!(compatible(a, b), compatible(b, a), "{a} {b}");
        }
        assert!(compatible(a, a));
    }
}

#[test]
fn source_labels_select_decoders() {
    assert_eq!(Codec::for_source_label("utf-8"), Codec::Utf8);
    assert_eq!(Codec::for_source_label("utf8"), Codec::Utf8);
    assert_eq!(Codec::for_source_label("utf-16"), Codec::Utf16Le);
    assert_eq!(Codec::for_source_label("utf16"), Codec::Utf16Le);
    assert_eq!(Codec::for_source_label("utf-16le"), Codec::Utf16Le);
    assert_eq!(Codec::for_source_label("utf-16be"), Codec::Utf16Be);
    assert_eq!(Codec::for_source_label("gbk"), Codec::Gbk);
    assert_eq!(Codec::for_source_label("gb2312"), Codec::Gbk);
    assert_eq!(Codec::for_source_label("gb18030"), Codec::Gbk);
    assert_eq!(Codec::for_source_label("chinese"), Codec::Gbk);
    assert_eq!(Codec::for_source_label("big5"), Codec::Big5);
    assert_eq!(Codec::for_source_label("ascii"), Codec::Utf8);
    assert_eq!(Codec::for_source_label("us-ascii"), Codec::Utf8);
    assert_eq!(Codec::for_source_label("tis-620"), Codec::Gbk);
    assert_eq!(Codec::for_source_label("windows-874"), Codec::Gbk);
}

#[test]
fn unknown_source_labels_select_gbk() {
    assert_eq!(Codec::for_source_label("iso-8859-1"), Codec::Gbk);
    assert_eq!(Codec::for_source_label(""), Codec::Gbk);
    assert_eq!(Codec::for_source_label("big5-hkscs"), Codec::Gbk);
    assert_eq!(Codec::for_source_label("UTF-8"), Codec::Gbk);
}

#[test]
fn target_labels_select_encoders() {
    assert_eq!(Codec::for_target_label("gbk"), Codec::Gbk);
    assert_eq!(Codec::for_target_label("gb2312"), Codec::Gbk);
    assert_eq!(Codec::for_target_label("gb18030"), Codec::Gbk);
    assert_eq!(Codec::for_target_label("big5"), Codec::Big5);
    assert_eq!(Codec::for_target_label("utf-8"), Codec::Utf8);
}

#[test]
fn unknown_target_labels_select_gbk() {
    assert_eq!(Codec::for_target_label("utf8"), Codec::Gbk);
    assert_eq!(Codec::for_target_label("utf-16le"), Codec::Gbk);
    assert_eq!(Codec::for_target_label("ascii"), Codec::Gbk);
    assert_eq!(Codec::for_target_label(""), Codec::Gbk);
}

#[test]
fn detector_lookups_ignore_letter_case() {
    let d = EncodingDetector::new();
    assert_eq!(d.get_source_encoding("UTF-8"), Some(Codec::Utf8));
    assert_eq!(d.get_source_encoding("UTF-16BE"), Some(Codec::Utf16Be));
    assert_eq!(d.get_source_encoding("Big5"), Some(Codec::Big5));
    assert_eq!(d.get_source_encoding("GB2312"), Some(Codec::Gbk));
    assert_eq!(d.get_source_encoding("ASCII"), Some(Codec::Utf8));
    assert_eq!(d.get_source_encoding("ISO-8859-1"), Some(Codec::Gbk));
    assert_eq!(d.get_target_encoding_for_conversion("UTF-8"), Codec::Utf8);
    assert_eq!(d.get_target_encoding_for_conversion("BIG5"), Codec::Big5);
    assert_eq!(d.get_target_encoding_for_conversion("GBK"), Codec::Gbk);
    assert_eq!(d.get_target_encoding_for_conversion("Shift_JIS"), Codec::Gbk);
}

#[test]
fn lowercase_of_ascii_changes_the_letters_only() {
    let d = EncodingDetector::new();
    for code in 0..0x80u8 {
        let c = code as char;
        let text = format!("x{}y", c);
        let expected: String = text
            .chars()
            .map(|c| if ('A'..='Z').contains(&c) { ((c as u8) + 32) as char } else { c })
            .collect();
        assert_eq!(text.to_lowercase(), expected);
        // Through the library: a name and its lowercase form are one class.
        assert!(d.is_encoding_compatible(&text, &expected));
    }
}

#[test]
fn names_outside_ascii_are_lowercased_too() {
    let d = EncodingDetector::new();
    assert!(d.is_encoding_compatible("ÉÇRAN", "éçran"));
    // The Kelvin sign has the letter k for its lowercase.
    assert!(d.is_encoding_compatible("GB\u{212A}", "gbk"));
    assert_eq!(d.get_source_encoding("GB\u{212A}"), Some(Codec::Gbk));
    assert!(!d.is_encoding_compatible("éçran", "ecran"));
}
