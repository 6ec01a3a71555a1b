//! Charset resolution for raw entry names.
//!
//! Archive containers store member names as raw bytes with no encoding tag.
//! This module guesses the encoding of such a byte sequence with a
//! statistical detector and decodes it, falling back to a caller-supplied
//! encoding when the detector is not confident. Decoding never fails: at
//! worst it degrades to replacement characters.

use vstd::prelude::*;
use vstd::string::StringSliceAdditionalSpecFns;

verus! {

/// `encoding_rs::Encoding`, treated as an opaque value. Values of it are
/// only ever created by encoding_rs itself and compared or passed through.
#[verifier::external_type_specification]
#[verifier::external_body]
pub struct ExEncoding(encoding_rs::Encoding);

/// What the statistical detector decides for a byte sequence fed to it as
/// one complete buffer: its best-guess encoding, and whether that guess
/// scored above the alternatives (the confidence flag).
pub uninterp spec fn detector_verdict(content: Seq<u8>) -> (encoding_rs::Encoding, bool);

/// Whether an encoding value is the UTF-8 encoding.
pub uninterp spec fn is_utf8_encoding(e: encoding_rs::Encoding) -> bool;

/// What `Encoding::decode` returns for a byte sequence under an encoding
/// (BOM sniffing included, malformed sequences replaced, never an error).
pub uninterp spec fn decoded(e: encoding_rs::Encoding, content: Seq<u8>) -> Seq<char>;

/// What `Encoding::for_label` returns for a label.
pub uninterp spec fn label_encoding(label: Seq<u8>) -> Option<encoding_rs::Encoding>;

/// Whether the bytes contain an ESC byte, which can draw the detector
/// towards the ISO-2022-JP escape-sequence encoding.
pub open spec fn contains_escape(content: Seq<u8>) -> bool {
    exists|i: int| 0 <= i < content.len() && content[i] == 0x1bu8
}

/// Whether the bytes start with the UTF-8 byte-order mark, which BOM
/// sniffing strips before decoding.
pub open spec fn has_utf8_bom(content: Seq<u8>) -> bool {
    content.len() >= 3 && content[0] == 0xefu8 && content[1] == 0xbbu8 && content[2] == 0xbfu8
}

/// The fallback option as a spec value.
pub open spec fn fallback_view(fallback: Option<&'static encoding_rs::Encoding>) -> Option<
    encoding_rs::Encoding,
> {
    match fallback {
        Some(e) => Some(*e),
        None => None,
    }
}

/// The encoding the resolver settles on: the detector's guess, unless the
/// detector is not confident and a fallback is available.
pub open spec fn chosen_encoding(content: Seq<u8>, fallback: Option<encoding_rs::Encoding>) -> encoding_rs::Encoding {
    let verdict = detector_verdict(content);
    if !verdict.1 && fallback is Some {
        fallback->0
    } else {
        verdict.0
    }
}

/// The text the resolver produces for a raw byte sequence.
pub open spec fn resolved_text(content: Seq<u8>, fallback: Option<encoding_rs::Encoding>) -> Seq<char> {
    decoded(chosen_encoding(content, fallback), content)
}

/// Relies on chardetng's `EncodingDetector` (`new`, one `feed` with
/// `last == true`, `guess_assess` with no TLD hint and UTF-8 allowed): the
/// verdict is a function of the fed bytes alone. A sequence that is valid
/// UTF-8 and free of ESC bytes keeps chardetng's UTF-8 candidate alive and
/// is therefore guessed as UTF-8, with confidence.
#[verifier::external_body]
fn detect(content: &[u8]) -> (r: (&'static encoding_rs::Encoding, bool))
    ensures
        *r.0 == detector_verdict(content@).0,
        r.1 == detector_verdict(content@).1,
        vstd::utf8::valid_utf8(content@) && !contains_escape(content@) ==> is_utf8_encoding(*r.0)
            && r.1,
{
    let mut det = chardetng::EncodingDetector::new();
    det.feed(content, true);
    det.guess_assess(None, true)
}

/// Relies on `encoding_rs::Encoding::decode`: the result is a function of
/// the encoding and the bytes alone and is always a string (malformed
/// sequences become replacement characters). Valid UTF-8 that does not
/// start with a UTF-8 byte-order mark decodes under the UTF-8 encoding to
/// exactly its UTF-8 interpretation.
#[verifier::external_body]
fn decode_with(e: &'static encoding_rs::Encoding, content: &[u8]) -> (r: String)
    ensures
        r@ == decoded(*e, content@),
        is_utf8_encoding(*e) && vstd::utf8::valid_utf8(content@) && !has_utf8_bom(content@)
            ==> r@ == vstd::utf8::decode_utf8(content@),
{
    let (s, _, _) = e.decode(content);
    s.into_owned()
}

/// Relies on `encoding_rs::Encoding::for_label`: the lookup is a function
/// of the label bytes alone.
#[verifier::external_body]
fn for_label(label: &[u8]) -> (r: Option<&'static encoding_rs::Encoding>)
    ensures
        r is Some <==> label_encoding(label@) is Some,
        r matches Some(e) ==> label_encoding(label@) == Some(*e),
{
    encoding_rs::Encoding::for_label(label)
}

/// The confidence policy on its own: keep the detector's guess when it was
/// confident or when no fallback is available; otherwise use the fallback.
/// An ambiguous name never becomes an error.
pub fn resolve_encoding(
    guess: &'static encoding_rs::Encoding,
    confident: bool,
    fallback: Option<&'static encoding_rs::Encoding>,
) -> (r: &'static encoding_rs::Encoding)
    ensures
        confident ==> r == guess,
        !confident ==> (fallback matches Some(f) ==> r == f),
        !confident && fallback is None ==> r == guess,
{
    if !confident {
        if let Some(f) = fallback {
            return f;
        }
    }
    guess
}

/// Guess the encoding of a raw byte sequence, using `fallback` when the
/// detector is not confident.
pub fn guess_encoding(
    content: &[u8],
    fallback: Option<&'static encoding_rs::Encoding>,
) -> (r: &'static encoding_rs::Encoding)
    ensures
        *r == chosen_encoding(content@, fallback_view(fallback)),
        vstd::utf8::valid_utf8(content@) && !contains_escape(content@) ==> is_utf8_encoding(*r),
{
    let (guess, confident) = detect(content);
    resolve_encoding(guess, confident, fallback)
}

/// Decoding raw name bytes to text, with encoding guessing built in.
pub trait DecoderExt {
    /// The raw bytes being decoded.
    spec fn bytes(&self) -> Seq<u8>;

    /// Guess the encoding of these bytes and decode them. Never fails: for
    /// any input some string comes back. A name that is valid UTF-8 (and
    /// free of the ESC byte and of a leading byte-order mark) comes back as
    /// exactly its UTF-8 text, whatever the fallback.
    fn guess_and_decode(&self, fallback: Option<&'static encoding_rs::Encoding>) -> (r: String)
        ensures
            r@ == resolved_text(self.bytes(), fallback_view(fallback)),
            vstd::utf8::valid_utf8(self.bytes()) && !contains_escape(self.bytes())
                && !has_utf8_bom(self.bytes()) ==> r@ == vstd::utf8::decode_utf8(self.bytes()),
    ;
}

impl DecoderExt for [u8] {
    open spec fn bytes(&self) -> Seq<u8> {
        self@
    }

    fn guess_and_decode(&self, fallback: Option<&'static encoding_rs::Encoding>) -> (r: String) {
        let enc = guess_encoding(self, fallback);
        decode_with(enc, self)
    }
}

/// The suffix of a byte sequence after its last `.`, or the whole sequence
/// when it holds none: the character-set part of a POSIX locale value such
/// as `en_US.UTF-8`.
pub open spec fn after_last_dot(s: Seq<u8>) -> Seq<u8>
    decreases s.len(),
{
    if s.len() == 0 {
        s
    } else if s.last() == 0x2eu8 {
        Seq::empty()
    } else {
        after_last_dot(s.drop_last()).push(s.last())
    }
}

/// Derive a fallback encoding from the value of a POSIX-style locale
/// variable, if one was available: the part after the last `.` is looked up
/// as an encoding label. Returns `None` when no locale value is available
/// or when the label names no known encoding.
pub fn get_sys_encoding(locale: Option<&str>) -> (r: Option<&'static encoding_rs::Encoding>)
    ensures
        locale is None ==> r is None,
        locale matches Some(l) ==> {
            &&& r is Some <==> label_encoding(after_last_dot(l.spec_bytes())) is Some
            &&& r matches Some(e) ==> label_encoding(after_last_dot(l.spec_bytes())) == Some(*e)
        },
{
    match locale {
        None => None,
        Some(l) => {
            let bytes = l.as_bytes();
            let mut label: Vec<u8> = Vec::new();
            let mut i: usize = 0;
            while i < bytes.len()
                invariant
                    i <= bytes@.len(),
                    label@ == after_last_dot(bytes@.subrange(0, i as int)),
                decreases bytes@.len() - i,
            {
                proof {
                    assert(bytes@.subrange(0, i + 1).drop_last() == bytes@.subrange(0, i as int));
                    assert(bytes@.subrange(0, i + 1).last() == bytes@[i as int]);
                }
                if bytes[i] == 0x2eu8 {
                    label.clear();
                } else {
                    label.push(bytes[i]);
                }
                i = i + 1;
            }
            proof {
                assert(bytes@.subrange(0, bytes@.len() as int) == bytes@);
            }
            for_label(label.as_slice())
        },
    }
}

} // verus!
