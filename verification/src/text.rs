//! Lossy decoding of captured process output.

use vstd::prelude::*;
use vstd::utf8::*;

verus! {

/// What `String::from_utf8_lossy` makes of `bytes`, as a sequence of
/// characters. The standard library fixes this text for every byte
/// sequence; here it is only named, not spelled out.
pub uninterp spec fn lossy_text(bytes: Seq<u8>) -> Seq<char>;

/// The text that captured output stands for. Well-formed UTF-8 stands for
/// the characters it encodes; anything else stands for what lossy decoding
/// makes of it, with a replacement character where the bytes are malformed.
pub open spec fn decoded_text(bytes: Seq<u8>) -> Seq<char> {
    if valid_utf8(bytes) {
        decode_utf8(bytes)
    } else {
        lossy_text(bytes)
    }
}

/// The character that lossy decoding puts where bytes are malformed.
pub open spec fn replacement_character() -> char {
    '\u{FFFD}'
}

/// Calls `String::from_utf8_lossy` and takes ownership of what it returns.
///
/// Trusted: the result depends on the bytes alone; bytes that are already
/// well-formed UTF-8 come back as the very characters they encode; and
/// bytes that are not come back with at least one replacement character in
/// the text. The call accepts every byte sequence and never fails.
#[verifier::external_body]
fn from_utf8_lossy(bytes: &[u8]) -> (text: String)
    ensures
        text@ == lossy_text(bytes@),
        valid_utf8(bytes@) ==> text@ == decode_utf8(bytes@),
        !valid_utf8(bytes@) ==> text@.contains(replacement_character()),
{
    String::from_utf8_lossy(bytes).into_owned()
}

/// Decodes captured output into text. No byte sequence is rejected:
/// malformed bytes show up as replacement characters, and only empty output
/// gives empty text.
pub fn decode_lossy(bytes: &[u8]) -> (text: String)
    ensures
        text@ == decoded_text(bytes@),
        !valid_utf8(bytes@) ==> text@.contains(replacement_character()),
        text@.len() == 0 <==> bytes@.len() == 0,
{
    let text = from_utf8_lossy(bytes);
    proof {
        if valid_utf8(bytes@) {
            if bytes@.len() > 0 {
                lemma_valid_output_has_text(bytes@);
            } else {
                assert(decode_utf8(bytes@) =~= Seq::<char>::empty());
            }
        }
    }
    text
}

/// No output decodes to no text.
pub proof fn lemma_empty_output_is_empty_text()
    ensures
        decoded_text(Seq::<u8>::empty()) == Seq::<char>::empty(),
{
    let bytes = Seq::<u8>::empty();
    assert(valid_utf8(bytes));
    assert(decode_utf8(bytes) =~= Seq::<char>::empty());
}

/// Output that is the UTF-8 encoding of some text decodes to that text,
/// character for character.
pub proof fn lemma_encoded_text_decodes_unchanged(chars: Seq<char>)
    ensures
        decoded_text(encode_utf8(chars)) == chars,
{
    encode_utf8_valid_utf8(chars);
    encode_utf8_decode_utf8(chars);
}

/// Well-formed output that is not empty decodes to text that is not empty.
pub proof fn lemma_valid_output_has_text(bytes: Seq<u8>)
    requires
        valid_utf8(bytes),
        bytes.len() > 0,
    ensures
        decoded_text(bytes).len() > 0,
{
    assert(decode_utf8(bytes) == seq![decode_first_scalar(bytes) as char] + decode_utf8(
        pop_first_scalar(bytes),
    ));
}

} // verus!
