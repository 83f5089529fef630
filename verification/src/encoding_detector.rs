//! Inference of the encoding of a script from its bytes.

use crate::codec::{
    has_utf16be_bom, has_utf16le_bom, has_utf8_bom, source_codec, target_codec, Codec,
};
use crate::confidence::Confidence;
use crate::heuristic::{heuristic_rule, reads_as_gbk_ideographs, HeuristicRule};
use crate::statistical::{guess_values, statistical_outcome, StatisticalGuess};
use crate::text::{lemma_lowercase_keeps_lowercase_ascii, lowercase, lowercase_text, same_text};
use vstd::prelude::*;
use vstd::utf8::valid_utf8;

verus! {

/// The canonical class of an encoding name, given in lowercase: the bucket
/// that two names must share for content to pass between them unconverted.
/// A name outside the table is a class of its own.
///
/// Both byte orders of UTF-16 are in one class, so content in one order and
/// an environment in the other count as compatible although their bytes are
/// not.
pub open spec fn canonical_name(name: Seq<char>) -> Seq<char> {
    if name == "gb2312"@ || name == "gbk"@ || name == "gb18030"@ || name == "chinese"@ {
        "gbk"@
    } else if name == "utf-8"@ || name == "utf8"@ {
        "utf-8"@
    } else if name == "utf-16"@ || name == "utf16"@ || name == "utf-16le"@ || name
        == "utf-16be"@ {
        "utf-16"@
    } else if name == "big5"@ || name == "big5-hkscs"@ {
        "big5"@
    } else if name == "ascii"@ || name == "us-ascii"@ {
        "ascii"@
    } else {
        name
    }
}

/// True when two encoding names, in any letter case, are in one canonical
/// class.
pub open spec fn compatible(detected: Seq<char>, system: Seq<char>) -> bool {
    canonical_name(lowercase_text(detected)) == canonical_name(lowercase_text(system))
}

/// The outcome of one detection.
#[derive(Clone, Debug)]
pub struct EncodingInfo {
    /// Name of the encoding the content was found to be in.
    pub encoding: String,
    /// How sure the detection is. Used for nothing but the threshold.
    pub confidence: Confidence,
    /// Name of the encoding of the environment the script will run in.
    pub system_encoding: String,
    /// True when the content has to be re-encoded for that environment.
    pub needs_conversion: bool,
}

impl EncodingInfo {
    /// True when `needs_conversion` says what the two names imply: that they
    /// are in different canonical classes.
    pub open spec fn is_consistent(&self) -> bool {
        self.needs_conversion == !compatible(self.encoding@, self.system_encoding@)
    }
}

/// Infers encodings. The detector holds no state: every call stands alone.
#[derive(Clone, Copy, Debug)]
pub struct EncodingDetector;

impl EncodingDetector {
    /// A detector.
    pub fn new() -> (detector: Self) {
        EncodingDetector
    }

    /// Maps an encoding name, given in lowercase, to its canonical class.
    pub fn normalize_encoding_name(&self, encoding: &str) -> (canonical: String)
        ensures
            canonical@ == canonical_name(encoding@),
    {
        if same_text(encoding, "gb2312") || same_text(encoding, "gbk") || same_text(
            encoding,
            "gb18030",
        ) || same_text(encoding, "chinese") {
            "gbk".to_owned()
        } else if same_text(encoding, "utf-8") || same_text(encoding, "utf8") {
            "utf-8".to_owned()
        } else if same_text(encoding, "utf-16") || same_text(encoding, "utf16") || same_text(
            encoding,
            "utf-16le",
        ) || same_text(encoding, "utf-16be") {
            "utf-16".to_owned()
        } else if same_text(encoding, "big5") || same_text(encoding, "big5-hkscs") {
            "big5".to_owned()
        } else if same_text(encoding, "ascii") || same_text(encoding, "us-ascii") {
            "ascii".to_owned()
        } else {
            encoding.to_owned()
        }
    }

    /// Tells whether content in encoding `detected` can be used as it is in
    /// an environment whose encoding is `system`. Letter case is ignored.
    pub fn is_encoding_compatible(&self, detected: &str, system: &str) -> (same_class: bool)
        ensures
            same_class == compatible(detected@, system@),
    {
        let detected_lower = lowercase(detected);
        let system_lower = lowercase(system);
        let detected_normalized = self.normalize_encoding_name(detected_lower.as_str());
        let system_normalized = self.normalize_encoding_name(system_lower.as_str());
        same_text(detected_normalized.as_str(), system_normalized.as_str())
    }
}

/// Every canonical class is its own class: mapping a name twice gives what
/// mapping it once gives.
pub proof fn lemma_canonical_name_is_idempotent(name: Seq<char>)
    ensures
        canonical_name(canonical_name(name)) == canonical_name(name),
{
    reveal_strlit("gb2312");
    reveal_strlit("gbk");
    reveal_strlit("gb18030");
    reveal_strlit("chinese");
    reveal_strlit("utf-8");
    reveal_strlit("utf8");
    reveal_strlit("utf-16");
    reveal_strlit("utf16");
    reveal_strlit("utf-16le");
    reveal_strlit("utf-16be");
    reveal_strlit("big5");
    reveal_strlit("big5-hkscs");
    reveal_strlit("ascii");
    reveal_strlit("us-ascii");
    // The five class names differ from the names of the rows above their own
    // in the first character, or in length.
    let once = canonical_name(name);
    if once == "gbk"@ {
    } else if once == "utf-8"@ {
        assert("utf-8"@[0] != "gbk"@[0]);
    } else if once == "utf-16"@ {
        assert("utf-16"@[0] != "gbk"@[0]);
        assert("utf-16"@.len() != "utf-8"@.len());
    } else if once == "big5"@ {
        assert("big5"@[0] != "gbk"@[0]);
        assert("big5"@[0] != "utf-8"@[0]);
    } else if once == "ascii"@ {
        assert("ascii"@[0] != "gbk"@[0]);
        assert("ascii"@[0] != "utf-8"@[0]);
        assert("ascii"@[0] != "big5"@[0]);
    } else {
    }
}

/// Compatibility does not depend on which of the two names is the detected
/// one and which the environment's.
pub proof fn lemma_compatible_is_symmetric(detected: Seq<char>, system: Seq<char>)
    ensures
        compatible(detected, system) == compatible(system, detected),
{
}

/// Two consistent detections with the two names exchanged agree on whether
/// conversion is needed.
pub proof fn lemma_needs_conversion_is_symmetric(one: &EncodingInfo, other: &EncodingInfo)
    requires
        one.is_consistent(),
        other.is_consistent(),
        one.encoding@ == other.system_encoding@,
        one.system_encoding@ == other.encoding@,
    ensures
        one.needs_conversion == other.needs_conversion,
{
}

/// True when the statistical answer is not used and the heuristic decides:
/// there is no answer, or its confidence is below the threshold.
pub open spec fn heuristic_decides(guess: Option<(Seq<char>, Confidence)>) -> bool {
    match guess {
        Some(g) => g.1.spec_is_below_threshold(),
        None => true,
    }
}

/// The encoding name that a detection settles on.
pub open spec fn detected_name(bytes: Seq<u8>, guess: Option<(Seq<char>, Confidence)>) -> Seq<
    char,
> {
    match guess {
        Some(g) if !g.1.spec_is_below_threshold() => g.0,
        _ => heuristic_rule(bytes).name(),
    }
}

/// The confidence that a detection reports: that of the statistical answer
/// where it is used, and the fixed score of the heuristic otherwise.
pub open spec fn detected_confidence(guess: Option<(Seq<char>, Confidence)>) -> Confidence {
    match guess {
        Some(g) if !g.1.spec_is_below_threshold() => g.1,
        _ => Confidence::spec_heuristic(),
    }
}

impl EncodingInfo {
    /// True when `self` is what detection gives, in every field, for the
    /// content `bytes`, the statistical answer `guess` and the environment
    /// encoding `system`.
    pub open spec fn is_detection_of(
        &self,
        bytes: Seq<u8>,
        guess: Option<(Seq<char>, Confidence)>,
        system: Seq<char>,
    ) -> bool {
        &&& self.encoding@ == detected_name(bytes, guess)
        &&& self.confidence == detected_confidence(guess)
        &&& self.system_encoding@ == system
        &&& self.is_consistent()
    }
}

impl EncodingDetector {
    /// Settles a detection from the content, the answer of the statistical
    /// detector and the encoding of the target environment.
    ///
    /// A statistical answer whose confidence is not below the threshold
    /// stands. Any other is discarded: the heuristic classifies the content,
    /// and its answer is given the fixed heuristic score.
    pub fn classify(
        &self,
        content: &[u8],
        statistical: Option<StatisticalGuess>,
        system_encoding: &str,
    ) -> (info: EncodingInfo)
        ensures
            info.is_detection_of(content@, guess_values(statistical), system_encoding@),
    {
        let (encoding, confidence) = match statistical {
            Some(guess) if !guess.confidence.is_below_threshold() => (
                guess.encoding,
                guess.confidence,
            ),
            _ => (self.heuristic_encoding_detection(content).to_owned(), Confidence::heuristic()),
        };
        let needs_conversion = !self.is_encoding_compatible(encoding.as_str(), system_encoding);
        EncodingInfo {
            encoding,
            confidence,
            system_encoding: system_encoding.to_owned(),
            needs_conversion,
        }
    }

    /// Detects the encoding of the content of a script file and compares it
    /// with the encoding of the target environment.
    ///
    /// Detection never fails: where the statistical detector cannot be run or
    /// is not confident, the heuristic gives the answer.
    pub fn detect_file_encoding(&self, content: &[u8], system_encoding: &str) -> (info:
        EncodingInfo)
        ensures
            info.is_detection_of(content@, statistical_outcome(content@), system_encoding@),
    {
        let statistical = self.statistical_detection(content);
        self.classify(content, statistical, system_encoding)
    }

    /// Picks the encoder for the encoding of the target environment. Letter
    /// case is ignored, and a name that is not known selects GBK.
    pub fn get_target_encoding_for_conversion(&self, system_encoding: &str) -> (codec: Codec)
        ensures
            codec == target_codec(lowercase_text(system_encoding@)),
    {
        let label = lowercase(system_encoding);
        Codec::for_target_label(label.as_str())
    }

    /// Picks the decoder for a detected encoding. Letter case is ignored.
    /// There is a decoder for every name: one that is not known selects GBK.
    pub fn get_source_encoding(&self, detected_encoding: &str) -> (codec: Option<Codec>)
        ensures
            codec == Some(source_codec(lowercase_text(detected_encoding@))),
    {
        let label = lowercase(detected_encoding);
        Some(Codec::for_source_label(label.as_str()))
    }
}

/// The names that the heuristic gives are in lowercase already: each is its
/// own lowercase text.
pub proof fn lemma_heuristic_names_are_lowercase(rule: HeuristicRule)
    ensures
        lowercase_text(rule.name()) == rule.name(),
{
    reveal_strlit("utf-8");
    reveal_strlit("utf-16le");
    reveal_strlit("utf-16be");
    reveal_strlit("gbk");
    lemma_lowercase_keeps_lowercase_ascii(rule.name());
}

/// Content that begins with the byte order mark of UTF-8 is classified as
/// "utf-8" by the heuristic, whatever follows the mark. A detection names it
/// "utf-8" where the heuristic decides, and names an encoding of the class
/// "utf-8" where the statistical answer, if it stands, is of that class.
pub proof fn lemma_utf8_bom_means_utf8(bytes: Seq<u8>, guess: Option<(Seq<char>, Confidence)>)
    requires
        has_utf8_bom(bytes),
        heuristic_decides(guess) || (guess matches Some(g) && canonical_name(lowercase_text(g.0))
            == "utf-8"@),
    ensures
        heuristic_rule(bytes) == HeuristicRule::Utf8Bom,
        heuristic_decides(guess) ==> detected_name(bytes, guess) == "utf-8"@,
        canonical_name(lowercase_text(detected_name(bytes, guess))) == "utf-8"@,
{
    lemma_heuristic_names_are_lowercase(HeuristicRule::Utf8Bom);
    reveal_strlit("gb2312");
    reveal_strlit("gbk");
    reveal_strlit("gb18030");
    reveal_strlit("chinese");
    reveal_strlit("utf-8");
}

/// Content that begins with the byte order mark of little-endian UTF-16 is
/// classified as "utf-16le" by the heuristic, whatever follows the mark. A
/// detection names it "utf-16le" where the heuristic decides, and names an
/// encoding of the class "utf-16" where the statistical answer, if it stands,
/// is of that class.
pub proof fn lemma_utf16le_bom_means_utf16(bytes: Seq<u8>, guess: Option<(Seq<char>, Confidence)>)
    requires
        has_utf16le_bom(bytes),
        heuristic_decides(guess) || (guess matches Some(g) && canonical_name(lowercase_text(g.0))
            == "utf-16"@),
    ensures
        heuristic_rule(bytes) == HeuristicRule::Utf16LeBom,
        heuristic_decides(guess) ==> detected_name(bytes, guess) == "utf-16le"@,
        canonical_name(lowercase_text(detected_name(bytes, guess))) == "utf-16"@,
{
    lemma_heuristic_names_are_lowercase(HeuristicRule::Utf16LeBom);
    reveal_strlit("gb2312");
    reveal_strlit("gbk");
    reveal_strlit("gb18030");
    reveal_strlit("chinese");
    reveal_strlit("utf-8");
    reveal_strlit("utf8");
    reveal_strlit("utf-16le");
}

/// Content that no rule of the heuristic matches is taken for GBK, and a
/// detection in which the heuristic decides reports it with the fixed
/// heuristic score.
pub proof fn lemma_unmatched_content_is_gbk(bytes: Seq<u8>, guess: Option<(Seq<char>, Confidence)>)
    requires
        !has_utf8_bom(bytes),
        !has_utf16le_bom(bytes),
        !has_utf16be_bom(bytes),
        !valid_utf8(bytes),
        !reads_as_gbk_ideographs(bytes),
        heuristic_decides(guess),
    ensures
        heuristic_rule(bytes) == HeuristicRule::GbkFallback,
        detected_name(bytes, guess) == "gbk"@,
        detected_confidence(guess) == Confidence::spec_heuristic(),
{
}

} // verus!
