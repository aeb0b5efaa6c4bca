//! Making user text safe to transmit.

use vstd::prelude::*;
use vstd::utf8::{char_is_scalar, char_u32_cast, encode_scalar, encode_utf8, is_scalar};
use crate::protocol::{ESC, GS};

verus! {

/// The character form of the escape byte.
pub const ESC_CHAR: char = '\x1b';

/// The character form of the group-separator byte.
pub const GS_CHAR: char = '\x1d';

/// What takes the place of a command prefix inside text.
pub const REPLACEMENT: char = '?';

/// Whether `c` starts a command when the device reads it.
pub open spec fn is_command_prefix(c: char) -> bool {
    c == ESC_CHAR || c == GS_CHAR
}

/// One character, made harmless.
pub open spec fn escape_char(c: char) -> char {
    if is_command_prefix(c) {
        REPLACEMENT
    } else {
        c
    }
}

/// The text with every command prefix replaced, position by position.
pub open spec fn escape_spec(text: Seq<char>) -> Seq<char> {
    Seq::new(text.len(), |i: int| escape_char(text[i]))
}

/// Appends one character to a string.
///
/// Wraps `String::push`, which appends the given `char` to the end of the
/// string; the contract says exactly that.
#[verifier::external_body]
fn push_char(target: &mut String, c: char)
    ensures
        final(target)@ == old(target)@.push(c),
{
    target.push(c);
}

/// Replaces the escape and group-separator characters of `text`, so that
/// no command can hide in text that comes from a user.
pub fn escape(text: &str) -> (escaped: String)
    ensures
        escaped@ == escape_spec(text@),
{
    let mut escaped = String::new();
    for c in it: text.chars()
        invariant
            it.seq() == text@,
            escaped@ == escape_spec(text@.take(it.index())),
    {
        let safe = if c == ESC_CHAR || c == GS_CHAR {
            REPLACEMENT
        } else {
            c
        };
        push_char(&mut escaped, safe);
    }
    escaped
}

/// Escaping removes every command prefix, keeps the length of the text, and
/// keeps every other character where it was.
pub proof fn escape_removes_prefixes(text: Seq<char>)
    ensures
        escape_spec(text).len() == text.len(),
        forall|i: int| 0 <= i < text.len() ==> !is_command_prefix(#[trigger] escape_spec(text)[i]),
        forall|i: int|
            0 <= i < text.len() && !is_command_prefix(text[i]) ==> #[trigger] escape_spec(text)[i]
                == text[i],
{
}

/// Escaping a text that is escaped already changes nothing.
pub proof fn escape_is_idempotent(text: Seq<char>)
    ensures
        escape_spec(escape_spec(text)) == escape_spec(text),
{
    assert(escape_spec(escape_spec(text)) =~= escape_spec(text));
}

/// A character that is no command prefix has no prefix byte in its
/// encoding: the bytes of a character beyond ASCII all have the top bit set.
proof fn lemma_scalar_without_prefix(scalar: u32)
    requires
        is_scalar(scalar),
        scalar != ESC,
        scalar != GS,
    ensures
        forall|i: int|
            0 <= i < encode_scalar(scalar).len() ==> #[trigger] encode_scalar(scalar)[i] != ESC
                && encode_scalar(scalar)[i] != GS,
{
    assert(scalar <= 0x7f ==> (scalar & 0x7f) as u8 == scalar) by (bit_vector);
    assert(forall|low: u8| #[trigger] (0xc0u8 | low) >= 0x80) by (bit_vector);
    assert(forall|low: u8| #[trigger] (0xe0u8 | low) >= 0x80) by (bit_vector);
    assert(forall|low: u8| #[trigger] (0xf0u8 | low) >= 0x80) by (bit_vector);
    assert(forall|low: u8| #[trigger] (0x80u8 | low) >= 0x80) by (bit_vector);
}

/// Text without a command prefix among its characters has no prefix byte
/// among its bytes.
proof fn lemma_bytes_without_prefix(text: Seq<char>)
    requires
        forall|i: int| 0 <= i < text.len() ==> !is_command_prefix(#[trigger] text[i]),
    ensures
        forall|i: int|
            0 <= i < encode_utf8(text).len() ==> #[trigger] encode_utf8(text)[i] != ESC
                && encode_utf8(text)[i] != GS,
    decreases text.len(),
{
    if text.len() > 0 {
        char_is_scalar(text[0]);
        char_u32_cast(text[0], text[0] as u32);
        assert(0x1bu32 as char == ESC_CHAR);
        assert(0x1du32 as char == GS_CHAR);
        let first = encode_scalar(text[0] as u32);
        let rest = text.drop_first();
        assert(!is_command_prefix(text[0]));
        assert forall|i: int| 0 <= i < rest.len() implies !is_command_prefix(
            #[trigger] rest[i],
        ) by {
            assert(rest[i] == text[i + 1]);
        }
        lemma_scalar_without_prefix(text[0] as u32);
        lemma_bytes_without_prefix(rest);
        assert forall|i: int| 0 <= i < encode_utf8(text).len() implies #[trigger] encode_utf8(
            text,
        )[i] != ESC && encode_utf8(text)[i] != GS by {
            if i < first.len() {
                assert(encode_utf8(text)[i] == first[i]);
            } else {
                assert(encode_utf8(text)[i] == encode_utf8(rest)[i - first.len()]);
            }
        }
    }
}

/// No byte of an escaped text is the escape byte or the group separator,
/// so the device reads none of it as the start of a command.
pub proof fn escaped_text_holds_no_prefix_byte(text: Seq<char>)
    ensures
        forall|i: int|
            0 <= i < encode_utf8(escape_spec(text)).len() ==> #[trigger] encode_utf8(
                escape_spec(text),
            )[i] != ESC && encode_utf8(escape_spec(text))[i] != GS,
{
    lemma_bytes_without_prefix(escape_spec(text));
}

} // verus!
