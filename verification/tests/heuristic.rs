use bat2exe::encoding_detector::EncodingDetector;
use bat2exe::heuristic::{contains_cjk, HeuristicRule};

const GBK_HELLO: [u8; 8] = [0xC4, 0xE3, 0xBA, 0xC3, 0xCA, 0xC0, 0xBD, 0xE7];

fn rule(bytes: &[u8]) -> HeuristicRule {
    EncodingDetector::new().heuristic_rule_for(bytes)
}

fn name(bytes: &[u8]) -> &'static str {
    EncodingDetector::new().heuristic_encoding_detection(bytes)
}

#[test]
fn utf8_mark_is_recognised() {
    assert_eq!(rule(&[0xEF, 0xBB, 0xBF]), HeuristicRule::Utf8Bom);
    assert_eq!(rule(&[0xEF, 0xBB, 0xBF, b'@', b'e']), HeuristicRule::Utf8Bom);
    assert_eq!(name(&[0xEF, 0xBB, 0xBF, b'@', b'e']), "utf-8");
}

#[test]
fn utf8_mark_wins_over_malformed_content() {
    assert_eq!(rule(&[0xEF, 0xBB, 0xBF, 0xFF, 0xFE, 0x80]), HeuristicRule::Utf8Bom);
    assert_eq!(name(&[0xEF, 0xBB, 0xBF, 0xC4, 0xE3]), "utf-8");
}

#[test]
fn utf16_little_endian_mark_is_recognised() {
    assert_eq!(rule(&[0xFF, 0xFE]), HeuristicRule::Utf16LeBom);
    assert_eq!(rule(&[0xFF, 0xFE, 0x41, 0x00]), HeuristicRule::Utf16LeBom);
    assert_eq!(name(&[0xFF, 0xFE, 0x41, 0x00]), "utf-16le");
}

#[test]
fn utf16_little_endian_mark_wins_whatever_follows() {
    assert_eq!(name(&[0xFF, 0xFE, 0x00, 0x00, 0x41, 0x00, 0x00, 0x00]), "utf-16le");
    assert_eq!(name(&[0xFF, 0xFE, 0x41]), "utf-16le");
    assert_eq!(name(&[0xFF, 0xFE, 0xC4, 0xE3, 0xBA, 0xC3]), "utf-16le");
}

#[test]
fn utf16_big_endian_mark_is_recognised() {
    assert_eq!(rule(&[0xFE, 0xFF]), HeuristicRule::Utf16BeBom);
    assert_eq!(name(&[0xFE, 0xFF, 0x00, 0x41]), "utf-16be");
}

#[test]
fn part_of_a_mark_is_no_mark() {
    // The first two bytes of the mark of UTF-8 are one ideograph in GBK.
    assert_eq!(rule(&[0xEF, 0xBB]), HeuristicRule::GbkIdeographs);
    assert_eq!(rule(&[0xFF]), HeuristicRule::GbkFallback);
    assert_eq!(rule(&[0xFE]), HeuristicRule::GbkFallback);
    assert_eq!(rule(&[0x41, 0xEF, 0xBB, 0xBF]), HeuristicRule::ValidUtf8);
}

#[test]
fn plain_ascii_is_utf8() {
    assert_eq!(rule(b"@echo off\r\n"), HeuristicRule::ValidUtf8);
    assert_eq!(name(b"@echo off\r\n"), "utf-8");
}

#[test]
fn empty_content_is_utf8() {
    assert_eq!(rule(&[]), HeuristicRule::ValidUtf8);
    assert_eq!(name(&[]), "utf-8");
}

#[test]
fn well_formed_utf8_is_utf8() {
    assert_eq!(rule("echo 你好，世界".as_bytes()), HeuristicRule::ValidUtf8);
    assert_eq!(rule("echo héllo".as_bytes()), HeuristicRule::ValidUtf8);
    assert_eq!(name("你好".as_bytes()), "utf-8");
}

#[test]
fn gbk_text_with_ideographs_is_gbk() {
    let (expected, _, _) = encoding_rs::GBK.encode("你好世界");
    assert_eq!(&expected[..], &GBK_HELLO[..]);
    assert_eq!(rule(&GBK_HELLO), HeuristicRule::GbkIdeographs);
    assert_eq!(name(&GBK_HELLO), "gbk");
    let mut script = b"@echo off\r\necho ".to_vec();
    script.extend_from_slice(&GBK_HELLO);
    assert_eq!(rule(&script), HeuristicRule::GbkIdeographs);
}

#[test]
fn gbk_text_without_ideographs_falls_through() {
    // Two ideographic spaces: well-formed GBK, no unified ideograph.
    assert_eq!(rule(&[0xA1, 0xA1, 0xA1, 0xA1]), HeuristicRule::GbkFallback);
    assert_eq!(name(&[0xA1, 0xA1, 0xA1, 0xA1]), "gbk");
}

#[test]
fn malformed_gbk_falls_through() {
    // An ideograph followed by a lead byte with nothing after it.
    assert_eq!(rule(&[0xC4, 0xE3, 0xC4]), HeuristicRule::GbkFallback);
    assert_eq!(rule(&[0xFF, 0xFF, 0x80, 0x00, 0xFE, 0x81]), HeuristicRule::GbkFallback);
    assert_eq!(name(&[0xFF, 0xFF, 0x80, 0x00, 0xFE, 0x81]), "gbk");
}

#[test]
fn rule_names() {
    assert_eq!(HeuristicRule::Utf8Bom.encoding_name(), "utf-8");
    assert_eq!(HeuristicRule::Utf16LeBom.encoding_name(), "utf-16le");
    assert_eq!(HeuristicRule::Utf16BeBom.encoding_name(), "utf-16be");
    assert_eq!(HeuristicRule::ValidUtf8.encoding_name(), "utf-8");
    assert_eq!(HeuristicRule::GbkIdeographs.encoding_name(), "gbk");
    assert_eq!(HeuristicRule::GbkFallback.encoding_name(), "gbk");
}

#[test]
fn ideographs_are_found_at_the_edges_of_the_block() {
    assert!(contains_cjk("\u{4e00}"));
    assert!(contains_cjk("\u{9fff}"));
    assert!(contains_cjk("abc 好"));
    assert!(contains_cjk("好 abc"));
    assert!(!contains_cjk("\u{4dff}"));
    assert!(!contains_cjk("\u{a000}"));
    assert!(!contains_cjk(""));
    assert!(!contains_cjk("@echo off"));
    assert!(!contains_cjk("こんにちは"));
    assert!(!contains_cjk("\u{3000}\u{ff01}"));
}
