//! Re-encoding of a script for the environment it will run in.

use crate::codec::{
    decoded_text, encoded_bytes, fits_transcoder, has_utf8_bom, is_ascii_bytes,
    lemma_ascii_is_utf8, lemma_ascii_round_trip, lemma_utf8_round_trip, source_codec, target_codec, transcode, Codec,
    Transcoded, MAX_CONTENT_LEN,
};
use crate::encoding_detector::{compatible, EncodingDetector, EncodingInfo};
use crate::text::lowercase_text;
use vstd::prelude::*;
use vstd::slice::slice_to_vec;
use vstd::utf8::{decode_utf8_encode_utf8, valid_utf8};

verus! {

/// The decoder that a detection selects for the content.
pub open spec fn source_of(info: &EncodingInfo) -> Codec {
    source_codec(lowercase_text(info.encoding@))
}

/// The encoder that a detection selects for the target environment.
pub open spec fn target_of(info: &EncodingInfo) -> Codec {
    target_codec(lowercase_text(info.system_encoding@))
}

/// What became of a script's content.
#[derive(Clone, Debug)]
pub enum Processed {
    /// The content needs no conversion and is to be used as it is.
    Unchanged,
    /// The content was re-encoded.
    Converted(Transcoded),
    /// The content needs conversion and is beyond the lengths that the
    /// transcoder is handed. Nothing was converted.
    Oversized,
}

impl Processed {
    /// True when `self` is what processing the content `raw` under the
    /// detection `info` gives.
    pub open spec fn is_outcome_of(&self, raw: Seq<u8>, info: &EncodingInfo) -> bool {
        match self {
            Processed::Unchanged => !info.needs_conversion,
            Processed::Converted(t) => {
                &&& info.needs_conversion
                &&& fits_transcoder(source_of(info), raw)
                &&& t.is_outcome_of(source_of(info), target_of(info), raw)
            },
            Processed::Oversized => {
                &&& info.needs_conversion
                &&& !fits_transcoder(source_of(info), raw)
            },
        }
    }
}

/// The bytes that conversion of `raw` under the detection `info` gives, and
/// `None` for content that needs conversion and is too long for it.
pub open spec fn converted_bytes(raw: Seq<u8>, info: &EncodingInfo) -> Option<Seq<u8>> {
    if !info.needs_conversion {
        Some(raw)
    } else if fits_transcoder(source_of(info), raw) {
        let text = decoded_text(source_of(info), raw);
        Some(encoded_bytes(target_of(info), text.0).0)
    } else {
        None
    }
}

/// A bytes value, if there is one, as a sequence.
pub open spec fn bytes_view(bytes: Option<Vec<u8>>) -> Option<Seq<u8>> {
    match bytes {
        Some(b) => Some(b@),
        None => None,
    }
}

/// Converts scripts. The converter holds no state.
#[derive(Clone, Copy, Debug)]
pub struct BatConverter;

impl BatConverter {
    /// A converter.
    pub fn new() -> (converter: Self) {
        BatConverter
    }

    /// Brings the content of a script into the encoding of the target
    /// environment, as far as the detection says that is needed.
    ///
    /// Where conversion is needed, the content is decoded with the decoder
    /// for the detected name and encoded with the encoder for the
    /// environment's name. Neither lookup and neither step fails: unknown
    /// names select GBK, and what cannot be represented is substituted and
    /// flagged in the result.
    pub fn process_bat_file(&self, raw_content: &[u8], encoding_info: &EncodingInfo) -> (out:
        Processed)
        ensures
            out.is_outcome_of(raw_content@, encoding_info),
    {
        if !encoding_info.needs_conversion {
            return Processed::Unchanged;
        }
        let detector = EncodingDetector::new();
        let source = match detector.get_source_encoding(encoding_info.encoding.as_str()) {
            Some(codec) => codec,
            None => Codec::Gbk,
        };
        let target = detector.get_target_encoding_for_conversion(
            encoding_info.system_encoding.as_str(),
        );
        match transcode(source, target, raw_content) {
            Some(transcoded) => Processed::Converted(transcoded),
            None => Processed::Oversized,
        }
    }

    /// The bytes to run the script from: the content unchanged where the
    /// detection asks for no conversion, and the re-encoded content
    /// otherwise.
    pub fn convert(&self, raw_content: &[u8], encoding_info: &EncodingInfo) -> (bytes: Option<
        Vec<u8>,
    >)
        ensures
            bytes_view(bytes) == converted_bytes(raw_content@, encoding_info),
    {
        match self.process_bat_file(raw_content, encoding_info) {
            Processed::Unchanged => Some(slice_to_vec(raw_content)),
            Processed::Converted(transcoded) => Some(transcoded.bytes),
            Processed::Oversized => None,
        }
    }
}

/// Where the detected encoding and the environment's encoding are in one
/// canonical class, conversion gives back the content byte for byte, whatever
/// the content is.
pub proof fn lemma_same_class_is_identity(raw: Seq<u8>, info: &EncodingInfo)
    requires
        info.is_consistent(),
        compatible(info.encoding@, info.system_encoding@),
    ensures
        converted_bytes(raw, info) == Some(raw),
{
}

/// Content detected to be in the very encoding of the environment is never
/// changed.
pub proof fn lemma_same_name_is_identity(raw: Seq<u8>, info: &EncodingInfo)
    requires
        info.is_consistent(),
        info.encoding@ == info.system_encoding@,
    ensures
        converted_bytes(raw, info) == Some(raw),
{
}

/// Conversion gives bytes for all content of a length that the transcoder is
/// handed, well-formed in its encoding or not.
pub proof fn lemma_conversion_is_total(raw: Seq<u8>, info: &EncodingInfo)
    requires
        fits_transcoder(source_of(info), raw),
    ensures
        converted_bytes(raw, info) is Some,
{
}

/// Well-formed UTF-8 without a byte order mark comes out byte for byte where
/// both the detected encoding and the environment's select UTF-8.
pub proof fn lemma_utf8_content_survives(raw: Seq<u8>, info: &EncodingInfo)
    requires
        valid_utf8(raw),
        !has_utf8_bom(raw),
        raw.len() <= MAX_CONTENT_LEN,
        source_of(info) == Codec::Utf8,
        target_of(info) == Codec::Utf8,
    ensures
        converted_bytes(raw, info) == Some(raw),
{
    lemma_utf8_round_trip(raw);
}

/// Pure ASCII comes out byte for byte whatever the two encoding names are, as
/// long as the detected one does not select a decoder of UTF-16.
pub proof fn lemma_ascii_content_survives(raw: Seq<u8>, info: &EncodingInfo)
    requires
        is_ascii_bytes(raw),
        raw.len() <= MAX_CONTENT_LEN,
        source_of(info) != Codec::Utf16Le,
        source_of(info) != Codec::Utf16Be,
    ensures
        converted_bytes(raw, info) == Some(raw),
{
    lemma_ascii_is_utf8(raw);
    decode_utf8_encode_utf8(raw);
    lemma_ascii_round_trip(source_of(info), target_of(info), raw);
}

} // verus!
