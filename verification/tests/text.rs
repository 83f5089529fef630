use bat2exe::text::{contains_bytes, matches_at, same_bytes, same_text};

#[test]
fn same_text_compares_characters() {
    assert!(same_text("gbk", "gbk"));
    assert!(same_text("", ""));
    assert!(!same_text("gbk", "GBK"));
    assert!(!same_text("gbk", "gbk "));
    assert!(!same_text("utf-8", "utf8"));
    assert!(same_text("编码", "编码"));
    assert!(!same_text("编码", "编马"));
}

#[test]
fn same_bytes_compares_every_byte() {
    assert!(same_bytes(&[], &[]));
    assert!(same_bytes(&[1, 2, 3], &[1, 2, 3]));
    assert!(!same_bytes(&[1, 2, 3], &[1, 2, 4]));
    assert!(!same_bytes(&[1, 2, 3], &[1, 2]));
    assert!(!same_bytes(&[], &[0]));
}

#[test]
fn matches_at_checks_one_position() {
    let hay = b"code page: 936";
    assert!(matches_at(hay, b"936", 11));
    assert!(!matches_at(hay, b"936", 10));
    assert!(matches_at(hay, b"", 14));
    assert!(matches_at(hay, b"code", 0));
    assert!(!matches_at(hay, b"936", 12));
    assert!(!matches_at(hay, b"", 15));
    assert!(!matches_at(hay, b"6", usize::MAX));
}

#[test]
fn contains_bytes_finds_a_run_anywhere() {
    assert!(contains_bytes(b"Active code page: 936\r\n", b"936"));
    assert!(contains_bytes(b"936", b"936"));
    assert!(contains_bytes(b"9936", b"936"));
    assert!(!contains_bytes(b"93 6", b"936"));
    assert!(!contains_bytes(b"93", b"936"));
    assert!(!contains_bytes(b"", b"936"));
    assert!(contains_bytes(b"", b""));
    assert!(contains_bytes(b"abc", b""));
    assert!(contains_bytes(b"aab", b"ab"));
}
