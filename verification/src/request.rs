//! Classification of a request by the start of its text.

use vstd::prelude::*;
use vstd::string::{StrSliceExecFns, StringSliceAdditionalSpecFns};
use vstd::utf8::{
    char_u32_cast, decode_first_scalar, decode_utf8, decode_utf8_first_scalar, encode_utf8,
    encode_utf8_first_scalar, is_ascii_chars, is_ascii_chars_encode_utf8,
    is_leading_byte_width_1, length_of_first_scalar, partial_valid_utf8,
    partial_valid_utf8_extend_ascii_block, pop_first_scalar, take_first_scalar, valid_utf8,
    valid_utf8_concat,
};

verus! {

/// Whether a request asks for the root resource in one of the two accepted forms.
#[derive(Clone, Copy, Debug, PartialEq, Eq, Structural)]
pub enum Classification {
    /// The text begins with one of the two accepted request lines.
    Match,
    /// Anything else, the empty text included.
    NoMatch,
}

/// True when `text` begins with `GET / HTTP/1.1` or with `GET / HTTP/1.0`.
pub open spec fn requests_root(text: Seq<char>) -> bool {
    "GET / HTTP/1.1"@.is_prefix_of(text) || "GET / HTTP/1.0"@.is_prefix_of(text)
}

/// The classification of a request whose decoded text is `text`.
pub open spec fn classification_of(text: Seq<char>) -> Classification {
    if requests_root(text) {
        Classification::Match
    } else {
        Classification::NoMatch
    }
}

/// Literal, case-sensitive prefix test on characters.
pub fn starts_with(text: &str, pattern: &str) -> (found: bool)
    ensures
        found == pattern@.is_prefix_of(text@),
{
    let wanted: usize = pattern.unicode_len();
    let given: usize = text.unicode_len();
    if given < wanted {
        return false;
    }
    let mut i: usize = 0;
    while i < wanted
        invariant
            i <= wanted,
            wanted == pattern@.len(),
            given == text@.len(),
            wanted <= given,
            forall|j: int| 0 <= j < i ==> pattern@[j] == text@[j],
        decreases wanted - i,
    {
        if pattern.get_char(i) != text.get_char(i) {
            return false;
        }
        i = i + 1;
    }
    assert(pattern@ =~= text@.subrange(0, pattern@.len() as int));
    true
}

/// Classifies a request that has already been decoded to text.
pub fn classify_text(text: &str) -> (class: Classification)
    ensures
        class == classification_of(text@),
{
    if starts_with(text, "GET / HTTP/1.1") || starts_with(text, "GET / HTTP/1.0") {
        Classification::Match
    } else {
        Classification::NoMatch
    }
}

/// The text that permissive UTF-8 decoding makes of `bytes`: well-formed
/// sequences decode to their characters, and what is malformed is replaced
/// by U+FFFD. Only what `decode_lossy` states of it is known.
pub uninterp spec fn lossy_text(bytes: Seq<u8>) -> Seq<char>;

/// Calls `String::from_utf8_lossy` and takes ownership of the result.
///
/// Trusted, not proved: the result depends on the bytes alone, and bytes that
/// are well-formed UTF-8 decode to exactly the characters they encode.
#[verifier::external_body]
fn decode_lossy(bytes: &[u8]) -> (text: String)
    ensures
        text@ == lossy_text(bytes@),
        valid_utf8(bytes@) ==> text@ == decode_utf8(bytes@),
{
    String::from_utf8_lossy(bytes).into_owned()
}

/// True when `bytes` begin with the encoding of `GET / HTTP/1.1` or of
/// `GET / HTTP/1.0`.
pub open spec fn requests_root_bytes(bytes: Seq<u8>) -> bool {
    "GET / HTTP/1.1".spec_bytes().is_prefix_of(bytes) || "GET / HTTP/1.0".spec_bytes().is_prefix_of(
        bytes,
    )
}

/// The class that the leading bytes of a request give it.
pub open spec fn classification_of_bytes(bytes: Seq<u8>) -> Classification {
    if requests_root_bytes(bytes) {
        Classification::Match
    } else {
        Classification::NoMatch
    }
}

/// Classifies the bytes of a request: they are decoded permissively, so no
/// input is refused, and the decoded text is classified by `classify_text`.
///
/// Where the bytes are well-formed UTF-8 the decoded text is their plain
/// decoding, and the class is decided by the leading bytes alone.
pub fn classify(bytes: &[u8]) -> (class: Classification)
    ensures
        class == classification_of(lossy_text(bytes@)),
        valid_utf8(bytes@) ==> class == classification_of(decode_utf8(bytes@)),
        valid_utf8(bytes@) ==> class == classification_of_bytes(bytes@),
{
    let text: String = decode_lossy(bytes);
    proof {
        if valid_utf8(bytes@) {
            lemma_well_formed_request(bytes@);
        }
    }
    classify_text(text.as_str())
}

/// On well-formed UTF-8, text leads the decoding exactly when its encoding
/// leads the bytes.
pub proof fn lemma_prefix_of_decoded(pattern: Seq<char>, bytes: Seq<u8>)
    requires
        valid_utf8(bytes),
    ensures
        pattern.is_prefix_of(decode_utf8(bytes)) <==> encode_utf8(pattern).is_prefix_of(bytes),
    decreases pattern.len(),
{
    if pattern.len() == 0 {
        assert(pattern =~= decode_utf8(bytes).subrange(0, 0));
        assert(encode_utf8(pattern) =~= bytes.subrange(0, 0));
    } else if bytes.len() > 0 {
        let first = pattern[0];
        let rest = pattern.drop_first();
        let encoded = encode_utf8(pattern);
        let tail = pop_first_scalar(bytes);
        let text = decode_utf8(bytes);
        encode_utf8_first_scalar(pattern);
        decode_utf8_first_scalar(bytes);
        lemma_prefix_of_decoded(rest, tail);
        assert(text.drop_first() =~= decode_utf8(tail));
        assert(bytes =~= take_first_scalar(bytes) + tail);
        if pattern.is_prefix_of(text) {
            // The first character is the one that the leading bytes encode.
            assert(first == decode_first_scalar(bytes) as char);
            assert(rest.is_prefix_of(decode_utf8(tail)));
            assert(encoded =~= take_first_scalar(bytes) + encode_utf8(rest));
        }
        if encoded.is_prefix_of(bytes) {
            // The leading bytes are those of the first character.
            assert(decode_first_scalar(bytes) == decode_first_scalar(encoded));
            char_u32_cast(first, decode_first_scalar(bytes));
            assert(encode_utf8(rest) =~= encoded.subrange(
                length_of_first_scalar(encoded),
                encoded.len() as int,
            ));
            assert(encode_utf8(rest).is_prefix_of(tail));
            assert(pattern =~= seq![first] + rest);
        }
    } else {
        encode_utf8_first_scalar(pattern);
    }
}

/// On well-formed UTF-8 the decoded text begins with an accepted request line
/// exactly when the bytes begin with the encoding of one.
pub proof fn lemma_well_formed_request(bytes: Seq<u8>)
    requires
        valid_utf8(bytes),
    ensures
        requests_root(decode_utf8(bytes)) == requests_root_bytes(bytes),
{
    lemma_prefix_of_decoded("GET / HTTP/1.1"@, bytes);
    lemma_prefix_of_decoded("GET / HTTP/1.0"@, bytes);
}

/// Zero bytes behind a well-formed read leave its class as it is: it makes
/// no difference whether a driver hands over the bytes it read or the whole
/// zero-filled buffer that they were read into.
pub proof fn lemma_zero_padding(read: Seq<u8>, padding: Seq<u8>)
    requires
        valid_utf8(read),
        forall|i: int| 0 <= i < padding.len() ==> padding[i] == 0,
    ensures
        valid_utf8(read + padding),
        classification_of(decode_utf8(read + padding)) == classification_of(decode_utf8(read)),
{
    let padded = read + padding;
    assert(valid_utf8(padding)) by {
        assert(padding.subrange(0, 0) =~= Seq::<u8>::empty());
        assert(partial_valid_utf8(padding, 0));
        assert forall|i: int| 0 <= i < padding.len() implies #[trigger] is_leading_byte_width_1(
            padding[i],
        ) by {
            assert(0u8 & 0x80 == 0) by (bit_vector);
        }
        partial_valid_utf8_extend_ascii_block(padding, 0, padding.len() as int);
        assert(padding.subrange(0, padding.len() as int) =~= padding);
    }
    valid_utf8_concat(read, padding);
    lemma_well_formed_request(read);
    lemma_well_formed_request(padded);
    reveal_strlit("GET / HTTP/1.1");
    reveal_strlit("GET / HTTP/1.0");
    lemma_zero_free_prefix("GET / HTTP/1.1", read, padding);
    lemma_zero_free_prefix("GET / HTTP/1.0", read, padding);
}

/// A pattern of ASCII text without a NUL leads zero-padded bytes exactly when
/// it leads the bytes before the padding.
proof fn lemma_zero_free_prefix(pattern: &str, read: Seq<u8>, padding: Seq<u8>)
    requires
        is_ascii_chars(pattern@),
        forall|i: int| 0 <= i < pattern@.len() ==> pattern@[i] != '\0',
        forall|i: int| 0 <= i < padding.len() ==> padding[i] == 0,
    ensures
        pattern.spec_bytes().is_prefix_of(read + padding) <==> pattern.spec_bytes().is_prefix_of(read),
{
    let wanted = pattern.spec_bytes();
    let padded = read + padding;
    is_ascii_chars_encode_utf8(pattern@);
    if wanted.is_prefix_of(read) {
        assert(wanted =~= padded.subrange(0, wanted.len() as int));
    }
    if wanted.is_prefix_of(padded) {
        if wanted.len() > read.len() {
            let at = read.len() as int;
            assert(wanted[at] == padded[at]);
            assert(padded[at] == padding[0]);
            assert(pattern@[at] as u8 == 0);
            assert(false);
        }
        assert(wanted =~= read.subrange(0, wanted.len() as int));
    }
}

} // verus!
