//! The statistical pass over content, made by the charset detector of the
//! `chardet` crate.

use crate::confidence::Confidence;
use crate::encoding_detector::EncodingDetector;
use vstd::prelude::*;

verus! {

/// The longest content that is handed to the statistical detector, which
/// counts what it reads in 32-bit signed counters.
pub const MAX_STATISTICAL_LEN: usize = 0x7FFF_FFFF;

/// True for a byte that the statistical detector takes for part of a
/// multi-byte or single-byte national encoding: one with the top bit set,
/// other than the no-break space of Latin-1.
pub open spec fn is_high_byte(b: u8) -> bool {
    b >= 0x80 && b != 0xA0
}

/// True when the content holds a high byte.
pub open spec fn has_high_byte(bytes: Seq<u8>) -> bool {
    exists|i: int| 0 <= i < bytes.len() && is_high_byte(#[trigger] bytes[i])
}

/// True when the content holds the escape control character.
pub open spec fn has_escape(bytes: Seq<u8>) -> bool {
    exists|i: int| 0 <= i < bytes.len() && #[trigger] bytes[i] == 0x1B
}

/// True when the statistical detector can be run on the content.
///
/// On seven-bit content with an escape character in it the detector looks for
/// an escape-sequence encoding and stops the process when it finds none, so
/// such content is never handed to it.
pub open spec fn statistical_pass_defined(bytes: Seq<u8>) -> bool {
    bytes.len() <= MAX_STATISTICAL_LEN && (has_high_byte(bytes) || !has_escape(bytes))
}

/// What `chardet::detect` returns for the content: the name of the charset it
/// settles on, and its confidence as the bit pattern of a single-precision
/// number.
pub uninterp spec fn chardet_guess(bytes: Seq<u8>) -> (Seq<char>, u32);

/// The encoding name that `chardet::charset2encoding` gives for a charset
/// name: three charsets have a name of their own, every other name stands.
pub open spec fn encoding_name_of_charset(charset: Seq<char>) -> Seq<char> {
    if charset == "CP932"@ {
        "windows-31j"@
    } else if charset == "CP949"@ {
        "windows-949"@
    } else if charset == "MacCyrillic"@ {
        "x-mac-cyrillic"@
    } else {
        charset
    }
}

/// Calls `chardet::detect`, which feeds the whole content to a set of charset
/// probers and reports the most confident one. The call is made only on
/// content on which the detector returns. Its result is not described here
/// beyond its name; the language that the call also reports is dropped.
#[verifier::external_body]
fn run_chardet(bytes: &[u8]) -> (out: (String, u32))
    requires
        statistical_pass_defined(bytes@),
    ensures
        (out.0@, out.1) == chardet_guess(bytes@),
{
    let (charset, confidence, _) = chardet::detect(bytes);
    (charset, confidence.to_bits())
}

/// Calls `chardet::charset2encoding`, which renames three charsets and
/// returns every other name as it is.
#[verifier::external_body]
fn charset_to_encoding(charset: &String) -> (name: String)
    ensures
        name@ == encoding_name_of_charset(charset@),
{
    chardet::charset2encoding(charset).to_string()
}

/// The answer of the statistical detector.
#[derive(Clone, Debug)]
pub struct StatisticalGuess {
    /// Name of the encoding.
    pub encoding: String,
    /// Confidence of the detector in that name.
    pub confidence: Confidence,
}

/// A statistical answer, if there is one, as plain values.
pub open spec fn guess_values(guess: Option<StatisticalGuess>) -> Option<(Seq<char>, Confidence)> {
    match guess {
        Some(g) => Some((g.encoding@, g.confidence)),
        None => None,
    }
}

/// The answer of the statistical detector for the content, and `None` where
/// the detector cannot be run on it.
pub open spec fn statistical_outcome(bytes: Seq<u8>) -> Option<(Seq<char>, Confidence)> {
    if statistical_pass_defined(bytes) {
        let guess = chardet_guess(bytes);
        Some((encoding_name_of_charset(guess.0), Confidence { bits: guess.1 }))
    } else {
        None
    }
}

impl EncodingDetector {
    /// Tells whether the statistical detector can be run on the content.
    pub fn statistical_pass_applies(&self, content: &[u8]) -> (applies: bool)
        ensures
            applies == statistical_pass_defined(content@),
    {
        if content.len() > MAX_STATISTICAL_LEN {
            return false;
        }
        let mut escape_seen = false;
        let mut i: usize = 0;
        while i < content.len()
            invariant
                i <= content.len() <= MAX_STATISTICAL_LEN,
                forall|k: int| 0 <= k < i ==> !is_high_byte(#[trigger] content@[k]),
                escape_seen == exists|k: int| 0 <= k < i && #[trigger] content@[k] == 0x1B,
            decreases content.len() - i,
        {
            let b = content[i];
            if b >= 0x80 && b != 0xA0 {
                assert(is_high_byte(content@[i as int]));
                return true;
            }
            if b == 0x1B {
                escape_seen = true;
            }
            i += 1;
        }
        !escape_seen
    }

    /// Runs the statistical detector over the whole content, where it can be
    /// run, and gives its answer with the charset translated to an encoding
    /// name.
    pub fn statistical_detection(&self, content: &[u8]) -> (guess: Option<StatisticalGuess>)
        ensures
            guess_values(guess) == statistical_outcome(content@),
    {
        if !self.statistical_pass_applies(content) {
            return None;
        }
        let (charset, bits) = run_chardet(content);
        let encoding = charset_to_encoding(&charset);
        Some(StatisticalGuess { encoding, confidence: Confidence::from_bits(bits) })
    }
}

} // verus!
