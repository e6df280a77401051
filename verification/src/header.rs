//! Reading a header value as text.
//!
//! A header value arrives as raw bytes. It counts as text when every byte is
//! a visible ASCII character, a space or a horizontal tab; its text is then
//! those bytes read as characters.

use vstd::prelude::*;

verus! {

/// A byte that may stand in a header value read as text: printable ASCII
/// (space up to `~`) or a horizontal tab.
pub open spec fn is_visible_ascii(byte: u8) -> bool {
    (32 <= byte && byte < 127) || byte == 9
}

/// A character that a header value read as text may hold: the character of
/// a visible ASCII byte.
pub open spec fn is_visible_char(c: char) -> bool {
    (32 <= c as u32 && (c as u32) < 127) || c as u32 == 9
}

/// Every byte of the value is visible ASCII.
pub open spec fn is_text(bytes: Seq<u8>) -> bool {
    forall|i: int| 0 <= i < bytes.len() ==> is_visible_ascii(#[trigger] bytes[i])
}

/// The bytes read as characters, one for one.
pub open spec fn as_chars(bytes: Seq<u8>) -> Seq<char> {
    Seq::new(bytes.len(), |i: int| bytes[i] as char)
}

/// The text of a header value, where it has one.
pub open spec fn header_text_of(bytes: Seq<u8>) -> Option<Seq<char>> {
    if is_text(bytes) {
        Some(as_chars(bytes))
    } else {
        None
    }
}

/// `String::push` appends the character at the end and leaves the rest of
/// the string as it was.
pub assume_specification[ String::push ](text: &mut String, c: char)
    ensures
        final(text)@ == old(text)@.push(c),
;

/// Tells whether `byte` is visible ASCII.
pub fn visible_ascii(byte: u8) -> (visible: bool)
    ensures
        visible == is_visible_ascii(byte),
{
    (32 <= byte && byte < 127) || byte == 9
}

/// Reads a header value as text. Returns `None` as soon as one byte is not
/// visible ASCII, and otherwise the bytes as characters; an empty value is
/// the empty text.
pub fn header_text(bytes: &[u8]) -> (text: Option<String>)
    ensures
        text.deep_view() == header_text_of(bytes@),
{
    let mut out = String::new();
    let mut i: usize = 0;
    while i < bytes.len()
        invariant
            i <= bytes.len(),
            is_text(bytes@.take(i as int)),
            out@ == as_chars(bytes@.take(i as int)),
        decreases bytes.len() - i,
    {
        let byte: u8 = bytes[i];
        if !visible_ascii(byte) {
            assert(!is_visible_ascii(bytes@[i as int]));
            return None;
        }
        out.push(byte as char);
        i += 1;
        assert(out@ =~= as_chars(bytes@.take(i as int)));
    }
    assert(bytes@.take(i as int) =~= bytes@);
    Some(out)
}

/// The text of a header value holds visible ASCII characters only, one for
/// each byte of the value.
pub proof fn lemma_header_text_is_visible(bytes: Seq<u8>)
    requires
        is_text(bytes),
    ensures
        header_text_of(bytes) == Some(as_chars(bytes)),
        as_chars(bytes).len() == bytes.len(),
        forall|i: int|
            0 <= i < bytes.len() ==> is_visible_char(#[trigger] as_chars(bytes)[i]) && as_chars(
                bytes,
            )[i] as u32 == bytes[i],
{
    assert forall|i: int| 0 <= i < bytes.len() implies is_visible_char(
        #[trigger] as_chars(bytes)[i],
    ) && as_chars(bytes)[i] as u32 == bytes[i] by {
        assert(is_visible_ascii(bytes[i]));
    }
}

} // verus!
