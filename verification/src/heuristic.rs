//! The heuristic classification of content: byte order marks, well-formed
//! UTF-8, and GBK.

use crate::codec::{
    decode_with, decoded_text, has_utf16be_bom, has_utf16le_bom, has_utf8_bom, Codec,
    MAX_CONTENT_LEN,
};
use crate::encoding_detector::EncodingDetector;
use crate::text::is_valid_utf8;
use vstd::prelude::*;
use vstd::utf8::valid_utf8;

verus! {

/// True for a character in the block of unified Chinese, Japanese and Korean
/// ideographs.
pub open spec fn is_cjk(c: char) -> bool {
    '\u{4e00}' <= c && c <= '\u{9fff}'
}

/// True when the text holds at least one such ideograph.
pub open spec fn has_cjk(text: Seq<char>) -> bool {
    exists|i: int| 0 <= i < text.len() && is_cjk(#[trigger] text[i])
}

/// Tells whether the text holds at least one unified ideograph.
pub fn contains_cjk(text: &str) -> (found: bool)
    ensures
        found == has_cjk(text@),
{
    let mut found = false;
    for c in it: text.chars()
        invariant
            it.seq() == text@,
            found == exists|i: int| 0 <= i < it.index() && is_cjk(#[trigger] text@[i]),
    {
        if '\u{4e00}' <= c && c <= '\u{9fff}' {
            found = true;
        }
    }
    found
}

/// True when the content decodes as GBK without a malformed sequence and the
/// text holds at least one unified ideograph. Content too long to hand to the
/// decoder does not count.
pub open spec fn reads_as_gbk_ideographs(bytes: Seq<u8>) -> bool {
    &&& bytes.len() <= MAX_CONTENT_LEN
    &&& !decoded_text(Codec::Gbk, bytes).1
    &&& has_cjk(decoded_text(Codec::Gbk, bytes).0)
}

/// The rule of the heuristic that settled a classification.
#[derive(Clone, Copy, Debug, PartialEq, Eq, Structural)]
pub enum HeuristicRule {
    /// The content begins with the byte order mark of UTF-8.
    Utf8Bom,
    /// The content begins with the byte order mark of little-endian UTF-16.
    Utf16LeBom,
    /// The content begins with the byte order mark of big-endian UTF-16.
    Utf16BeBom,
    /// The whole content is well-formed UTF-8.
    ValidUtf8,
    /// The content decodes as GBK without error, to text with ideographs.
    GbkIdeographs,
    /// No rule matched. The content is taken for GBK, which is what untagged
    /// legacy scripts for a Chinese-locale shell overwhelmingly are.
    GbkFallback,
}

impl HeuristicRule {
    /// The name of the encoding that the rule classifies content as.
    pub open spec fn name(&self) -> Seq<char> {
        match self {
            HeuristicRule::Utf8Bom => "utf-8"@,
            HeuristicRule::Utf16LeBom => "utf-16le"@,
            HeuristicRule::Utf16BeBom => "utf-16be"@,
            HeuristicRule::ValidUtf8 => "utf-8"@,
            HeuristicRule::GbkIdeographs => "gbk"@,
            HeuristicRule::GbkFallback => "gbk"@,
        }
    }

    /// The name of the encoding that the rule classifies content as.
    pub fn encoding_name(&self) -> (name: &'static str)
        ensures
            name@ == self.name(),
    {
        match self {
            HeuristicRule::Utf8Bom => "utf-8",
            HeuristicRule::Utf16LeBom => "utf-16le",
            HeuristicRule::Utf16BeBom => "utf-16be",
            HeuristicRule::ValidUtf8 => "utf-8",
            HeuristicRule::GbkIdeographs => "gbk",
            HeuristicRule::GbkFallback => "gbk",
        }
    }
}

/// The rule that settles the heuristic classification of the content: the
/// first that matches, in the order of the variants of [`HeuristicRule`].
pub open spec fn heuristic_rule(bytes: Seq<u8>) -> HeuristicRule {
    if has_utf8_bom(bytes) {
        HeuristicRule::Utf8Bom
    } else if has_utf16le_bom(bytes) {
        HeuristicRule::Utf16LeBom
    } else if has_utf16be_bom(bytes) {
        HeuristicRule::Utf16BeBom
    } else if valid_utf8(bytes) {
        HeuristicRule::ValidUtf8
    } else if reads_as_gbk_ideographs(bytes) {
        HeuristicRule::GbkIdeographs
    } else {
        HeuristicRule::GbkFallback
    }
}

impl EncodingDetector {
    /// Classifies content by the heuristic and tells which rule settled it.
    pub fn heuristic_rule_for(&self, content: &[u8]) -> (rule: HeuristicRule)
        ensures
            rule == heuristic_rule(content@),
    {
        let n = content.len();
        if n >= 3 && content[0] == 0xEF && content[1] == 0xBB && content[2] == 0xBF {
            return HeuristicRule::Utf8Bom;
        }
        if n >= 2 && content[0] == 0xFF && content[1] == 0xFE {
            return HeuristicRule::Utf16LeBom;
        }
        if n >= 2 && content[0] == 0xFE && content[1] == 0xFF {
            return HeuristicRule::Utf16BeBom;
        }
        if is_valid_utf8(content) {
            return HeuristicRule::ValidUtf8;
        }
        if n <= MAX_CONTENT_LEN {
            let (text, had_errors) = decode_with(Codec::Gbk, content);
            if !had_errors && contains_cjk(text.as_str()) {
                return HeuristicRule::GbkIdeographs;
            }
        }
        HeuristicRule::GbkFallback
    }

    /// Classifies content by the heuristic: byte order marks first, then
    /// well-formed UTF-8, then GBK.
    pub fn heuristic_encoding_detection(&self, content: &[u8]) -> (name: &'static str)
        ensures
            name@ == heuristic_rule(content@).name(),
    {
        self.heuristic_rule_for(content).encoding_name()
    }
}

} // verus!
