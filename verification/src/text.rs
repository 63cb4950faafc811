//! Checks and normalisation of one text before the model sees it.

use vstd::prelude::*;
use vstd::string::StringExecFns;
use vstd::utf8::*;
use crate::decimal::{decimal_digits, push_decimal};
use crate::error::{PredictError, PredictErrorView};

verus! {

/// The character that ends one example for the model's tokenizer.
pub const TERMINATOR: char = '\n';

/// The one byte that encodes [`TERMINATOR`].
pub const TERMINATOR_BYTE: u8 = 10;

/// The length of a text in bytes, as the limit counts it.
pub open spec fn byte_len(text: Seq<char>) -> nat {
    encode_utf8(text).len()
}

/// The message for a text of `n` bytes that is over the limit.
pub open spec fn too_long_message(n: nat) -> Seq<char> {
    "Text too long: "@ + decimal_digits(n) + " bytes"@
}

/// The reason for which a text is refused, if it is: an empty text first,
/// then one whose byte length is over `max_text_length`.
pub open spec fn validation_error(text: Seq<char>, max_text_length: nat) -> Option<
    PredictErrorView,
> {
    if text.len() == 0 {
        Some(PredictErrorView::InputError("Empty text input"@))
    } else if byte_len(text) > max_text_length {
        Some(PredictErrorView::InputError(too_long_message(byte_len(text))))
    } else {
        None
    }
}

/// True when the last character of the text is the terminator.
pub open spec fn ends_with_terminator(text: Seq<char>) -> bool {
    text.len() > 0 && text.last() == TERMINATOR
}

/// The text in the form the model expects: unchanged where it already ends
/// with the terminator, else with one terminator added.
pub open spec fn normalized(text: Seq<char>) -> Seq<char> {
    if ends_with_terminator(text) {
        text
    } else {
        text.push(TERMINATOR)
    }
}

/// The encoding of a character ends with the terminator's byte exactly when
/// the character is the terminator: every other last byte is either another
/// character of one byte or a continuation byte.
proof fn lemma_scalar_last_byte(c: char)
    ensures
        encode_scalar(c as u32).len() >= 1,
        (encode_scalar(c as u32).last() == TERMINATOR_BYTE) <==> (c == TERMINATOR),
{
    let v = c as u32;
    char_is_scalar(c);
    if has_width_1_encoding(v) {
        assert(((v & 0x7F) as u8 == 10u8) <==> (v == 10u32)) by (bit_vector)
            requires
                v <= 0x7F,
        ;
    } else {
        assert((0x80u8 | (v & 0x3F) as u8) != 10u8) by (bit_vector);
    }
}

/// The last byte of a text is the terminator's byte exactly when its last
/// character is the terminator.
proof fn lemma_encoded_last_byte(text: Seq<char>)
    requires
        text.len() > 0,
    ensures
        encode_utf8(text).len() > 0,
        (encode_utf8(text).last() == TERMINATOR_BYTE) <==> (text.last() == TERMINATOR),
    decreases text.len(),
{
    lemma_scalar_last_byte(text[0]);
    let head = encode_scalar(text[0] as u32);
    let rest = text.drop_first();
    assert(encode_utf8(text) == head + encode_utf8(rest));
    if rest.len() > 0 {
        lemma_encoded_last_byte(rest);
        assert(text.last() == rest.last());
        assert((head + encode_utf8(rest)).last() == encode_utf8(rest).last());
    } else {
        assert(encode_utf8(rest) =~= Seq::<u8>::empty());
        assert(head + encode_utf8(rest) =~= head);
    }
}

/// Checks one text against the emptiness and size rules.
pub fn validate_text(text: &str, max_text_length: usize) -> (r: Result<(), PredictError>)
    ensures
        r is Ok <==> validation_error(text@, max_text_length as nat) is None,
        r matches Err(e) ==> Some(e@) == validation_error(text@, max_text_length as nat),
{
    if text.is_empty() {
        return Err(PredictError::InputError(String::from_str("Empty text input")));
    }
    let n: usize = text.as_bytes().len();
    if n > max_text_length {
        let mut msg = String::from_str("Text too long: ");
        push_decimal(&mut msg, n);
        msg.append(" bytes");
        assert(msg@ =~= too_long_message(byte_len(text@)));
        return Err(PredictError::InputError(msg));
    }
    Ok(())
}

/// Tells whether the text already ends with the terminator.
pub fn ends_with_newline(text: &str) -> (b: bool)
    ensures
        b == ends_with_terminator(text@),
{
    let bytes = text.as_bytes();
    let n: usize = bytes.len();
    if n == 0 {
        proof {
            if text@.len() > 0 {
                lemma_encoded_last_byte(text@);
            }
        }
        false
    } else {
        proof {
            lemma_encoded_last_byte(text@);
        }
        bytes[n - 1] == TERMINATOR_BYTE
    }
}

/// Brings a text into the form the model expects: it ends with exactly the
/// terminator it had, or with the one added here.
pub fn normalize_text(text: &str) -> (out: String)
    ensures
        out@ == normalized(text@),
{
    let mut out = String::from_str(text);
    if !ends_with_newline(text) {
        proof {
            reveal_strlit("\n");
        }
        out.append("\n");
        assert(out@ =~= text@.push(TERMINATOR));
    }
    out
}

} // verus!
