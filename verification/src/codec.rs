//! The encodings the transcoder reads and writes, and the transcoder itself.

use crate::text::same_text;
use vstd::prelude::*;
use vstd::string::StringSliceAdditionalSpecFns;
use vstd::utf8::{
    decode_first_scalar, decode_utf8, decode_utf8_encode_utf8, encode_utf8, is_ascii_chars,
    pop_first_scalar, valid_first_scalar, valid_utf8,
};

verus! {

/// An encoding that text can be decoded from and encoded to.
#[derive(Clone, Copy, Debug, PartialEq, Eq, Structural)]
pub enum Codec {
    Utf8,
    Utf16Le,
    Utf16Be,
    Gbk,
    Big5,
}

/// The decoder for a detected encoding name, given in lowercase.
///
/// This lookup is more permissive than the canonical classes: plain ASCII is
/// read as UTF-8, and a name that is not known, which a doubtful detection may
/// well produce, is read as GBK.
pub open spec fn source_codec(label: Seq<char>) -> Codec {
    if label == "utf-8"@ || label == "utf8"@ {
        Codec::Utf8
    } else if label == "utf-16"@ || label == "utf16"@ || label == "utf-16le"@ {
        Codec::Utf16Le
    } else if label == "utf-16be"@ {
        Codec::Utf16Be
    } else if label == "big5"@ {
        Codec::Big5
    } else if label == "ascii"@ || label == "us-ascii"@ {
        Codec::Utf8
    } else {
        Codec::Gbk
    }
}

/// The encoder for the name of a target environment's encoding, given in
/// lowercase. A name that is not known selects GBK.
pub open spec fn target_codec(label: Seq<char>) -> Codec {
    if label == "big5"@ {
        Codec::Big5
    } else if label == "utf-8"@ {
        Codec::Utf8
    } else {
        Codec::Gbk
    }
}

impl Codec {
    /// Picks the decoder for a detected encoding name, given in lowercase.
    pub fn for_source_label(label: &str) -> (codec: Codec)
        ensures
            codec == source_codec(label@),
    {
        if same_text(label, "utf-8") || same_text(label, "utf8") {
            Codec::Utf8
        } else if same_text(label, "utf-16") || same_text(label, "utf16") || same_text(
            label,
            "utf-16le",
        ) {
            Codec::Utf16Le
        } else if same_text(label, "utf-16be") {
            Codec::Utf16Be
        } else if same_text(label, "big5") {
            Codec::Big5
        } else if same_text(label, "ascii") || same_text(label, "us-ascii") {
            Codec::Utf8
        } else {
            Codec::Gbk
        }
    }

    /// Picks the encoder for the name of a target environment's encoding,
    /// given in lowercase.
    pub fn for_target_label(label: &str) -> (codec: Codec)
        ensures
            codec == target_codec(label@),
    {
        if same_text(label, "big5") {
            Codec::Big5
        } else if same_text(label, "utf-8") {
            Codec::Utf8
        } else {
            Codec::Gbk
        }
    }
}

/// The longest content that is handed to a decoder. A decoder sizes its
/// buffer at up to three bytes for each byte of content, and stops the process
/// where that size does not fit the machine's word; content of at most this
/// length is far from that.
pub const MAX_CONTENT_LEN: usize = usize::MAX / 256;

/// The longest text, counted in bytes of UTF-8, that is handed to an encoder.
/// An encoder sizes its buffer from the length of the text in the same way,
/// and grows it for the references it writes in place of characters that the
/// encoding lacks.
pub const MAX_TEXT_LEN: usize = usize::MAX / 64;

/// True when the content begins with the byte order mark of UTF-8.
pub open spec fn has_utf8_bom(bytes: Seq<u8>) -> bool {
    bytes.len() >= 3 && bytes[0] == 0xEF && bytes[1] == 0xBB && bytes[2] == 0xBF
}

/// True when the content begins with the byte order mark of little-endian
/// UTF-16.
pub open spec fn has_utf16le_bom(bytes: Seq<u8>) -> bool {
    bytes.len() >= 2 && bytes[0] == 0xFF && bytes[1] == 0xFE
}

/// True when the content begins with the byte order mark of big-endian
/// UTF-16.
pub open spec fn has_utf16be_bom(bytes: Seq<u8>) -> bool {
    bytes.len() >= 2 && bytes[0] == 0xFE && bytes[1] == 0xFF
}

/// True when every byte of the content is an ASCII character.
pub open spec fn is_ascii_bytes(bytes: Seq<u8>) -> bool {
    forall|i: int| 0 <= i < bytes.len() ==> #[trigger] bytes[i] < 0x80
}

/// True when decoding the content with `codec` is nothing but reading it as
/// UTF-8: the content is well-formed UTF-8 without a byte order mark, and
/// either `codec` is UTF-8 or the content is pure ASCII and `codec` an
/// encoding that agrees with ASCII on it.
pub open spec fn reads_as_utf8(codec: Codec, bytes: Seq<u8>) -> bool {
    &&& valid_utf8(bytes)
    &&& !has_utf8_bom(bytes)
    &&& (codec == Codec::Utf8 || ((codec == Codec::Gbk || codec == Codec::Big5) && is_ascii_bytes(
        bytes,
    )))
}

/// True when encoding the text with `codec` is nothing but writing it as
/// UTF-8: `codec` is UTF-8 or one of the UTF-16 codecs, for which UTF-8 is
/// written, or the text is pure ASCII.
pub open spec fn writes_as_utf8(codec: Codec, text: Seq<char>) -> bool {
    codec == Codec::Utf8 || codec == Codec::Utf16Le || codec == Codec::Utf16Be || is_ascii_chars(
        text,
    )
}

/// What `encoding_rs::Encoding::decode` returns for the encoding that `codec`
/// stands for and the whole content `bytes`, where that is more than reading
/// UTF-8: the decoded text, and whether any malformed sequence was replaced
/// in it.
pub uninterp spec fn decoded(codec: Codec, bytes: Seq<u8>) -> (Seq<char>, bool);

/// What `encoding_rs::Encoding::encode` returns for the encoding that `codec`
/// stands for and the whole text `text`, where that is more than writing
/// UTF-8: the encoded bytes, and whether any character that the encoding
/// lacks was replaced in them.
pub uninterp spec fn encoded(codec: Codec, text: Seq<char>) -> (Seq<u8>, bool);

/// The text that content decodes to with `codec`, and whether any malformed
/// sequence was replaced in it.
pub open spec fn decoded_text(codec: Codec, bytes: Seq<u8>) -> (Seq<char>, bool) {
    if reads_as_utf8(codec, bytes) {
        (decode_utf8(bytes), false)
    } else {
        decoded(codec, bytes)
    }
}

/// The bytes that text encodes to with `codec`, and whether any character
/// that the encoding lacks was replaced in them.
pub open spec fn encoded_bytes(codec: Codec, text: Seq<char>) -> (Seq<u8>, bool) {
    if writes_as_utf8(codec, text) {
        (encode_utf8(text), false)
    } else {
        encoded(codec, text)
    }
}

/// Calls `encoding_rs::Encoding::decode` on the encoding that `codec` stands
/// for. The call decodes the whole content, replaces what is malformed and
/// reports that it did; a byte order mark at the start of the content
/// overrides the encoding asked for and is left out of the text. It is made
/// only on content of a length for which it can size its buffer.
///
/// Content that is well-formed UTF-8 without a mark comes back as it is, as
/// text, when it is decoded as UTF-8, and so does pure ASCII when it is
/// decoded as GBK or Big5. What the call returns otherwise is not described
/// here beyond its name.
#[verifier::external_body]
pub(crate) fn decode_with(codec: Codec, bytes: &[u8]) -> (out: (String, bool))
    requires
        bytes.len() <= MAX_CONTENT_LEN,
    ensures
        reads_as_utf8(codec, bytes@) ==> out.0@ == decode_utf8(bytes@) && !out.1,
        !reads_as_utf8(codec, bytes@) ==> (out.0@, out.1) == decoded(codec, bytes@),
{
    let encoding = match codec {
        Codec::Utf8 => encoding_rs::UTF_8,
        Codec::Utf16Le => encoding_rs::UTF_16LE,
        Codec::Utf16Be => encoding_rs::UTF_16BE,
        Codec::Gbk => encoding_rs::GBK,
        Codec::Big5 => encoding_rs::BIG5,
    };
    let (text, _, had_errors) = encoding.decode(bytes);
    (text.into_owned(), had_errors)
}

/// Calls `encoding_rs::Encoding::encode` on the encoding that `codec` stands
/// for. The call encodes the whole text, writes a numeric character reference
/// for each character that the encoding lacks and reports that it did. It is
/// made only on text of a length for which it can size its buffer.
///
/// For UTF-8, and for the two UTF-16 codecs, which it writes as UTF-8, the
/// call returns the bytes of the text as they are; so it does for pure ASCII
/// with every codec. What it returns otherwise is not described here beyond
/// its name.
#[verifier::external_body]
pub(crate) fn encode_with(codec: Codec, text: &str) -> (out: (Vec<u8>, bool))
    requires
        text.spec_bytes().len() <= MAX_TEXT_LEN,
    ensures
        writes_as_utf8(codec, text@) ==> out.0@ == encode_utf8(text@) && !out.1,
        !writes_as_utf8(codec, text@) ==> (out.0@, out.1) == encoded(codec, text@),
{
    let encoding = match codec {
        Codec::Utf8 => encoding_rs::UTF_8,
        Codec::Utf16Le => encoding_rs::UTF_16LE,
        Codec::Utf16Be => encoding_rs::UTF_16BE,
        Codec::Gbk => encoding_rs::GBK,
        Codec::Big5 => encoding_rs::BIG5,
    };
    let (bytes, _, had_errors) = encoding.encode(text);
    (bytes.into_owned(), had_errors)
}

/// True when content is short enough to be decoded with `source`, and the
/// text it decodes to short enough to be encoded again.
pub open spec fn fits_transcoder(source: Codec, bytes: Seq<u8>) -> bool {
    &&& bytes.len() <= MAX_CONTENT_LEN
    &&& encode_utf8(decoded_text(source, bytes).0).len() <= MAX_TEXT_LEN
}

/// Content after it was decoded from one encoding and encoded to another.
#[derive(Clone, Debug)]
pub struct Transcoded {
    /// The content in the target encoding.
    pub bytes: Vec<u8>,
    /// The decoder that read the content.
    pub source: Codec,
    /// The encoder that wrote it.
    pub target: Codec,
    /// True when the content held sequences that are malformed in the source
    /// encoding. Each was replaced by the replacement character.
    pub decode_had_errors: bool,
    /// True when the text held characters that the target encoding lacks.
    /// Each was replaced by a numeric character reference.
    pub encode_had_errors: bool,
}

impl Transcoded {
    /// True when `self` is what transcoding `bytes` from `source` to `target`
    /// gives, in every field.
    pub open spec fn is_outcome_of(&self, source: Codec, target: Codec, bytes: Seq<u8>) -> bool {
        let text = decoded_text(source, bytes);
        let out = encoded_bytes(target, text.0);
        &&& self.bytes@ == out.0
        &&& self.source == source
        &&& self.target == target
        &&& self.decode_had_errors == text.1
        &&& self.encode_had_errors == out.1
    }
}

/// Decodes `bytes` with `source` and encodes the text with `target`.
///
/// Neither step fails on content it cannot represent: each substitutes and
/// raises its flag. The answer is `None` only for content beyond the lengths
/// that the two steps are handed.
pub fn transcode(source: Codec, target: Codec, bytes: &[u8]) -> (out: Option<Transcoded>)
    ensures
        out is Some <==> fits_transcoder(source, bytes@),
        out matches Some(t) ==> t.is_outcome_of(source, target, bytes@),
{
    if bytes.len() > MAX_CONTENT_LEN {
        return None;
    }
    let (text, decode_had_errors) = decode_with(source, bytes);
    if text.as_str().as_bytes().len() > MAX_TEXT_LEN {
        return None;
    }
    let (output, encode_had_errors) = encode_with(target, text.as_str());
    Some(Transcoded { bytes: output, source, target, decode_had_errors, encode_had_errors })
}

/// Pure ASCII is well-formed UTF-8, and reads as the same number of ASCII
/// characters.
pub proof fn lemma_ascii_is_utf8(bytes: Seq<u8>)
    requires
        is_ascii_bytes(bytes),
    ensures
        valid_utf8(bytes),
        !has_utf8_bom(bytes),
        is_ascii_chars(decode_utf8(bytes)),
    decreases bytes.len(),
{
    if bytes.len() > 0 {
        let first = bytes[0];
        assert(first < 0x80);
        assert((first & 0x7F) as u32 == first as u32) by (bit_vector)
            requires
                first < 0x80,
        ;
        assert(valid_first_scalar(bytes));
        let rest = pop_first_scalar(bytes);
        assert(rest == bytes.subrange(1, bytes.len() as int));
        assert forall|i: int| 0 <= i < rest.len() implies #[trigger] rest[i] < 0x80 by {
            assert(rest[i] == bytes[i + 1]);
        }
        lemma_ascii_is_utf8(rest);
        let text = decode_utf8(bytes);
        assert(text == seq![decode_first_scalar(bytes) as char] + decode_utf8(rest));
        assert forall|i: int| 0 <= i < text.len() implies '\0' <= #[trigger] text[i] <= '\u{7f}' by {
            if i > 0 {
                assert(text[i] == decode_utf8(rest)[i - 1]);
            }
        }
    }
}

/// Well-formed UTF-8 without a byte order mark, decoded as UTF-8 and encoded
/// as UTF-8 again, is the same bytes, and neither step reports an error.
pub proof fn lemma_utf8_round_trip(bytes: Seq<u8>)
    requires
        valid_utf8(bytes),
        !has_utf8_bom(bytes),
    ensures
        decoded_text(Codec::Utf8, bytes) == (decode_utf8(bytes), false),
        encoded_bytes(Codec::Utf8, decode_utf8(bytes)) == (bytes, false),
{
    decode_utf8_encode_utf8(bytes);
}

/// Pure ASCII, decoded with any codec but the two of UTF-16 and encoded with
/// any codec at all, is the same bytes, and neither step reports an error.
pub proof fn lemma_ascii_round_trip(source: Codec, target: Codec, bytes: Seq<u8>)
    requires
        is_ascii_bytes(bytes),
        source != Codec::Utf16Le,
        source != Codec::Utf16Be,
    ensures
        decoded_text(source, bytes) == (decode_utf8(bytes), false),
        encoded_bytes(target, decode_utf8(bytes)) == (bytes, false),
{
    lemma_ascii_is_utf8(bytes);
    decode_utf8_encode_utf8(bytes);
}

} // verus!
