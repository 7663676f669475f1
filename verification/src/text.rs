//! Fixed text fields: sixty-four bytes of code page 437, padded with spaces.
//!
//! The byte-to-glyph table belongs to the `codepage_437` crate, in its
//! `CP437_WINGDINGS` dialect. The printable ASCII range and NUL stand for
//! themselves there; every other byte and glyph goes through the dialect's
//! table, which this module only names.

use codepage_437::{BorrowFromCp437, ToCp437, CP437_WINGDINGS};
use vstd::prelude::*;

verus! {

/// Width of a text field on the wire.
pub const TEXT_WIDTH: usize = 64;

/// The byte that fills a text field behind its text.
pub const PAD: u8 = 0x20;

/// The glyph that `Cp437Dialect::decode` gives to a byte that is not plain:
/// the entry of the byte in the table of the code page.
pub uninterp spec fn cp437_glyph(byte: u8) -> char;

/// The byte that `Cp437Dialect::encode` gives to a glyph that is not plain:
/// the byte under which the table of the code page holds the glyph, or
/// nothing where it holds it nowhere.
pub uninterp spec fn cp437_code(glyph: char) -> Option<u8>;

/// Bytes that mean the same character in the code page and in Unicode.
pub open spec fn is_plain_byte(byte: u8) -> bool {
    byte == 0 || (0x1F < byte && byte < 0x7F)
}

/// Characters that mean the same byte in Unicode and in the code page.
pub open spec fn is_plain_char(glyph: char) -> bool {
    glyph as u32 == 0 || (0x1F < glyph as u32 && (glyph as u32) < 0x7F)
}

/// The character that a byte of the code page stands for.
pub open spec fn glyph_of(byte: u8) -> char {
    if is_plain_byte(byte) {
        byte as char
    } else {
        cp437_glyph(byte)
    }
}

/// The byte that stands for a character in the code page, if there is one.
pub open spec fn code_of(glyph: char) -> Option<u8> {
    if is_plain_char(glyph) {
        Some(glyph as u8)
    } else {
        cp437_code(glyph)
    }
}

/// The text that a run of code page bytes stands for, byte by byte.
pub open spec fn glyphs_of(bytes: Seq<u8>) -> Seq<char> {
    Seq::new(bytes.len(), |i: int| glyph_of(bytes[i]))
}

/// Whether every character of the text has a byte in the code page.
pub open spec fn is_encodable(text: Seq<char>) -> bool {
    forall|i: int| 0 <= i < text.len() ==> code_of(#[trigger] text[i]) is Some
}

/// The code page bytes of an encodable text, character by character.
pub open spec fn codes_of(text: Seq<char>) -> Seq<u8> {
    Seq::new(text.len(), |i: int| code_of(text[i]).unwrap())
}

/// Converts code page bytes to text with `String::borrow_from_cp437` under
/// the `CP437_WINGDINGS` dialect. The result has one character per byte: the
/// byte itself where it is plain, the dialect's table entry otherwise.
#[verifier::external_body]
fn cp437_to_string(bytes: &[u8]) -> (text: String)
    ensures
        text@.len() == bytes@.len(),
        forall|i: int|
            0 <= i < bytes@.len() ==> #[trigger] text@[i] == (if is_plain_byte(bytes@[i]) {
                bytes@[i] as char
            } else {
                cp437_glyph(bytes@[i])
            }),
{
    String::borrow_from_cp437(bytes, &CP437_WINGDINGS)
}

/// Converts text to code page bytes with `to_cp437` under the
/// `CP437_WINGDINGS` dialect. The call succeeds exactly when every character
/// has a byte: its own where it is plain, the dialect's table entry
/// otherwise. The result then has one byte per character.
#[verifier::external_body]
fn string_to_cp437(text: &str) -> (bytes: Option<Vec<u8>>)
    ensures
        bytes is Some <==> (forall|i: int|
            0 <= i < text@.len() ==> (if is_plain_char(#[trigger] text@[i]) {
                Some(text@[i] as u8)
            } else {
                cp437_code(text@[i])
            }) is Some),
        bytes matches Some(found) ==> found@.len() == text@.len() && (forall|i: int|
            0 <= i < text@.len() ==> Some(#[trigger] found@[i]) == (if is_plain_char(text@[i]) {
                Some(text@[i] as u8)
            } else {
                cp437_code(text@[i])
            })),
{
    match text.to_cp437(&CP437_WINGDINGS) {
        Ok(found) => Some(found.into_owned()),
        Err(_) => None,
    }
}

/// The text that a run of code page bytes stands for.
pub fn decode_bytes(bytes: &[u8]) -> (text: String)
    ensures
        text@ == glyphs_of(bytes@),
{
    let text = cp437_to_string(bytes);
    assert(text@ =~= glyphs_of(bytes@));
    text
}

/// The code page bytes of a text, or nothing where a character has none.
pub fn encode_text(text: &str) -> (bytes: Option<Vec<u8>>)
    ensures
        bytes is Some <==> is_encodable(text@),
        bytes matches Some(found) ==> found@ == codes_of(text@),
{
    let bytes = string_to_cp437(text);
    proof {
        if bytes is Some {
            assert(bytes.unwrap()@ =~= codes_of(text@));
        }
    }
    bytes
}

/// The sixty-four bytes that carry an encodable text: its code page bytes,
/// cut after the sixty-fourth, then pad bytes up to the full width.
pub open spec fn field_of(text: Seq<char>) -> Seq<u8> {
    Seq::new(
        TEXT_WIDTH as nat,
        |i: int|
            if i < text.len() {
                code_of(text[i]).unwrap()
            } else {
                PAD
            },
    )
}

/// How many bytes are left when the pad bytes at the end are taken away.
pub open spec fn unpadded_len(bytes: Seq<u8>) -> nat
    decreases bytes.len(),
{
    if bytes.len() == 0 {
        0
    } else if bytes.last() == PAD {
        unpadded_len(bytes.drop_last())
    } else {
        bytes.len()
    }
}

/// The text that a field carries: the glyphs of its bytes up to the padding.
pub open spec fn text_of(field: Seq<u8>) -> Seq<char> {
    glyphs_of(field.take(unpadded_len(field) as int))
}

/// How many characters are left when the spaces at the end are taken away.
pub open spec fn unspaced_len(text: Seq<char>) -> nat
    decreases text.len(),
{
    if text.len() == 0 {
        0
    } else if text.last() == ' ' {
        unspaced_len(text.drop_last())
    } else {
        text.len()
    }
}

/// The text without the spaces at its end.
pub open spec fn without_trailing_spaces(text: Seq<char>) -> Seq<char> {
    text.take(unspaced_len(text) as int)
}

/// Whether a character comes back from the code page as itself.
pub open spec fn is_faithful(glyph: char) -> bool {
    code_of(glyph) matches Some(byte) && glyph_of(byte) == glyph
}

/// Whether every character of the text comes back from the code page as
/// itself.
pub open spec fn is_faithful_text(text: Seq<char>) -> bool {
    forall|i: int| 0 <= i < text.len() ==> is_faithful(#[trigger] text[i])
}

/// `count` is the unpadded length of `bytes` when only pad bytes follow it
/// and the byte before it is no pad byte.
pub proof fn lemma_unpadded_len_is(bytes: Seq<u8>, count: int)
    requires
        0 <= count <= bytes.len(),
        count == 0 || bytes[count - 1] != PAD,
        forall|i: int| count <= i < bytes.len() ==> bytes[i] == PAD,
    ensures
        unpadded_len(bytes) == count,
    decreases bytes.len(),
{
    if bytes.len() > count {
        lemma_unpadded_len_is(bytes.drop_last(), count);
    }
}

/// The unspaced length marks the place where the spaces at the end start.
pub proof fn lemma_unspaced_len_marks(text: Seq<char>)
    ensures
        unspaced_len(text) <= text.len(),
        unspaced_len(text) == 0 || text[unspaced_len(text) - 1] != ' ',
        forall|i: int| unspaced_len(text) <= i < text.len() ==> text[i] == ' ',
    decreases text.len(),
{
    if text.len() > 0 && text.last() == ' ' {
        let front = text.drop_last();
        lemma_unspaced_len_marks(front);
        assert forall|i: int| unspaced_len(text) <= i < text.len() implies text[i] == ' ' by {
            if i < front.len() {
                assert(front[i] == ' ');
            }
        }
    }
}

/// A field is always sixty-four bytes wide, and a text longer than that is
/// cut: the field then holds the first sixty-four of its code page bytes.
pub proof fn lemma_field_clips(text: Seq<char>)
    ensures
        field_of(text).len() == TEXT_WIDTH,
        text.len() >= TEXT_WIDTH ==> field_of(text) == codes_of(text).take(TEXT_WIDTH as int),
        text.len() <= TEXT_WIDTH ==> field_of(text).take(text.len() as int) == codes_of(text),
        forall|i: int| text.len() <= i < TEXT_WIDTH ==> field_of(text)[i] == PAD,
{
    if text.len() >= TEXT_WIDTH {
        assert(field_of(text) =~= codes_of(text).take(TEXT_WIDTH as int));
    }
    if text.len() <= TEXT_WIDTH {
        assert(field_of(text).take(text.len() as int) =~= codes_of(text));
    }
}

/// A text of at most sixty-four characters, each of which the code page
/// gives back as itself, comes back from its field without the spaces at its
/// end.
pub proof fn lemma_field_round_trip(text: Seq<char>)
    requires
        text.len() <= TEXT_WIDTH,
        is_faithful_text(text),
    ensures
        is_encodable(text),
        text_of(field_of(text)) == without_trailing_spaces(text),
{
    let field = field_of(text);
    let kept = unspaced_len(text) as int;
    lemma_unspaced_len_marks(text);
    assert forall|i: int| 0 <= i < text.len() implies code_of(#[trigger] text[i]) is Some by {
        assert(is_faithful(text[i]));
    }
    assert forall|i: int| kept <= i < field.len() implies field[i] == PAD by {
        if i < text.len() {
            assert(text[i] == ' ');
            assert(is_plain_char(' '));
        }
    }
    if kept > 0 {
        assert(is_faithful(text[kept - 1]));
        assert(is_plain_byte(PAD));
    }
    lemma_unpadded_len_is(field, kept);
    assert forall|i: int| 0 <= i < kept implies glyph_of(field.take(kept)[i]) == text[i] by {
        assert(is_faithful(text[i]));
    }
    assert(text_of(field) =~= without_trailing_spaces(text));
}

/// Appends the field of a text to `destination`, unless a character of the
/// text has no byte in the code page: then nothing is appended.
pub fn store_field(text: &str, destination: &mut Vec<u8>) -> (stored: bool)
    ensures
        stored == is_encodable(text@),
        stored ==> final(destination)@ == old(destination)@ + field_of(text@),
        !stored ==> final(destination)@ == old(destination)@,
{
    let Some(codes) = encode_text(text) else {
        return false;
    };
    let ghost before = destination@;
    let kept: usize = if codes.len() < TEXT_WIDTH {
        codes.len()
    } else {
        TEXT_WIDTH
    };
    let mut at: usize = 0;
    while at < TEXT_WIDTH
        invariant
            at <= TEXT_WIDTH,
            kept <= TEXT_WIDTH,
            kept <= codes@.len(),
            kept == codes@.len() || kept == TEXT_WIDTH,
            codes@ == codes_of(text@),
            destination@ == before + field_of(text@).take(at as int),
        decreases TEXT_WIDTH - at,
    {
        let byte: u8 = if at < kept {
            codes[at]
        } else {
            PAD
        };
        destination.push(byte);
        at = at + 1;
        assert(destination@ =~= before + field_of(text@).take(at as int));
    }
    assert(field_of(text@).take(TEXT_WIDTH as int) =~= field_of(text@));
    true
}

/// Reads the text that a field carries: the bytes up to the padding, each
/// turned into its glyph.
pub fn load_field(field: &[u8]) -> (text: String)
    ensures
        text@ == text_of(field@),
{
    let mut kept: usize = field.len();
    while kept > 0 && field[kept - 1] == PAD
        invariant
            kept <= field@.len(),
            forall|i: int| kept <= i < field@.len() ==> field@[i] == PAD,
        decreases kept,
    {
        kept = kept - 1;
    }
    proof {
        lemma_unpadded_len_is(field@, kept as int);
    }
    decode_bytes(vstd::slice::slice_subrange(field, 0, kept))
}

} // verus!
