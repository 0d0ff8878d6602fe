//! Text helpers shared by the telemetry readers.

use vstd::prelude::*;

verus! {

/// The character that Windows-1252 assigns to byte `b`.
///
/// Bytes below 0x80 and from 0xA0 upwards stand for the code point of the same
/// value; the range 0x80..=0x9F holds the typographic extras of the code page.
/// The five bytes that the code page leaves unassigned (0x81, 0x8D, 0x8F, 0x90,
/// 0x9D) stand for the C1 control of the same value, as the WHATWG encoding
/// standard maps them.
pub open spec fn cp1252_char(b: u8) -> char {
    if b < 0x80 || b >= 0xA0 {
        b as char
    } else if b == 0x80 { '\u{20AC}' }
    else if b == 0x82 { '\u{201A}' }
    else if b == 0x83 { '\u{0192}' }
    else if b == 0x84 { '\u{201E}' }
    else if b == 0x85 { '\u{2026}' }
    else if b == 0x86 { '\u{2020}' }
    else if b == 0x87 { '\u{2021}' }
    else if b == 0x88 { '\u{02C6}' }
    else if b == 0x89 { '\u{2030}' }
    else if b == 0x8A { '\u{0160}' }
    else if b == 0x8B { '\u{2039}' }
    else if b == 0x8C { '\u{0152}' }
    else if b == 0x8E { '\u{017D}' }
    else if b == 0x91 { '\u{2018}' }
    else if b == 0x92 { '\u{2019}' }
    else if b == 0x93 { '\u{201C}' }
    else if b == 0x94 { '\u{201D}' }
    else if b == 0x95 { '\u{2022}' }
    else if b == 0x96 { '\u{2013}' }
    else if b == 0x97 { '\u{2014}' }
    else if b == 0x98 { '\u{02DC}' }
    else if b == 0x99 { '\u{2122}' }
    else if b == 0x9A { '\u{0161}' }
    else if b == 0x9B { '\u{203A}' }
    else if b == 0x9C { '\u{0153}' }
    else if b == 0x9E { '\u{017E}' }
    else if b == 0x9F { '\u{0178}' }
    else {
        // 0x81, 0x8D, 0x8F, 0x90, 0x9D
        b as char
    }
}

/// Whether byte `b` is one of the 27 bytes to which Windows-1252 assigns a
/// typographic character in place of a C1 control.
pub open spec fn cp1252_remapped(b: u8) -> bool {
    0x80 <= b <= 0x9F && b != 0x81 && b != 0x8D && b != 0x8F && b != 0x90 && b != 0x9D
}

/// The Windows-1252 code page, stated as its table: every byte outside
/// 0x80..=0x9F, and each of the five unassigned bytes, stands for the code
/// point of its own value; each of the other 27 bytes stands for the character
/// listed here (e.g. 0x8A is U+0160 'Š' and 0x9A is U+0161 'š').
pub proof fn lemma_cp1252_table(b: u8)
    ensures
        !cp1252_remapped(b) ==> cp1252_char(b) as u32 == b as u32,
        b == 0x80 ==> cp1252_char(b) as u32 == 0x20AC,
        b == 0x82 ==> cp1252_char(b) as u32 == 0x201A,
        b == 0x83 ==> cp1252_char(b) as u32 == 0x0192,
        b == 0x84 ==> cp1252_char(b) as u32 == 0x201E,
        b == 0x85 ==> cp1252_char(b) as u32 == 0x2026,
        b == 0x86 ==> cp1252_char(b) as u32 == 0x2020,
        b == 0x87 ==> cp1252_char(b) as u32 == 0x2021,
        b == 0x88 ==> cp1252_char(b) as u32 == 0x02C6,
        b == 0x89 ==> cp1252_char(b) as u32 == 0x2030,
        b == 0x8A ==> cp1252_char(b) as u32 == 0x0160,
        b == 0x8B ==> cp1252_char(b) as u32 == 0x2039,
        b == 0x8C ==> cp1252_char(b) as u32 == 0x0152,
        b == 0x8E ==> cp1252_char(b) as u32 == 0x017D,
        b == 0x91 ==> cp1252_char(b) as u32 == 0x2018,
        b == 0x92 ==> cp1252_char(b) as u32 == 0x2019,
        b == 0x93 ==> cp1252_char(b) as u32 == 0x201C,
        b == 0x94 ==> cp1252_char(b) as u32 == 0x201D,
        b == 0x95 ==> cp1252_char(b) as u32 == 0x2022,
        b == 0x96 ==> cp1252_char(b) as u32 == 0x2013,
        b == 0x97 ==> cp1252_char(b) as u32 == 0x2014,
        b == 0x98 ==> cp1252_char(b) as u32 == 0x02DC,
        b == 0x99 ==> cp1252_char(b) as u32 == 0x2122,
        b == 0x9A ==> cp1252_char(b) as u32 == 0x0161,
        b == 0x9B ==> cp1252_char(b) as u32 == 0x203A,
        b == 0x9C ==> cp1252_char(b) as u32 == 0x0153,
        b == 0x9E ==> cp1252_char(b) as u32 == 0x017E,
        b == 0x9F ==> cp1252_char(b) as u32 == 0x0178,
        cp1252_remapped(b) ==> cp1252_char(b) as u32 > 0xFF,
{
}

/// Windows-1252 decoding loses nothing: distinct bytes decode to distinct
/// characters, so the text determines the bytes it came from.
pub proof fn lemma_cp1252_injective(a: u8, b: u8)
    ensures
        a != b ==> cp1252_char(a) != cp1252_char(b),
{
    lemma_cp1252_table(a);
    lemma_cp1252_table(b);
}

/// Windows-1252 decoding of one byte.
pub fn cp1252_decode_byte(b: u8) -> (c: char)
    ensures
        c == cp1252_char(b),
        !cp1252_remapped(b) ==> c as u32 == b as u32,
        cp1252_remapped(b) ==> c as u32 > 0xFF,
{
    if b < 0x80 || b >= 0xA0 {
        b as char
    } else if b == 0x80 { '\u{20AC}' }
    else if b == 0x82 { '\u{201A}' }
    else if b == 0x83 { '\u{0192}' }
    else if b == 0x84 { '\u{201E}' }
    else if b == 0x85 { '\u{2026}' }
    else if b == 0x86 { '\u{2020}' }
    else if b == 0x87 { '\u{2021}' }
    else if b == 0x88 { '\u{02C6}' }
    else if b == 0x89 { '\u{2030}' }
    else if b == 0x8A { '\u{0160}' }
    else if b == 0x8B { '\u{2039}' }
    else if b == 0x8C { '\u{0152}' }
    else if b == 0x8E { '\u{017D}' }
    else if b == 0x91 { '\u{2018}' }
    else if b == 0x92 { '\u{2019}' }
    else if b == 0x93 { '\u{201C}' }
    else if b == 0x94 { '\u{201D}' }
    else if b == 0x95 { '\u{2022}' }
    else if b == 0x96 { '\u{2013}' }
    else if b == 0x97 { '\u{2014}' }
    else if b == 0x98 { '\u{02DC}' }
    else if b == 0x99 { '\u{2122}' }
    else if b == 0x9A { '\u{0161}' }
    else if b == 0x9B { '\u{203A}' }
    else if b == 0x9C { '\u{0153}' }
    else if b == 0x9E { '\u{017E}' }
    else if b == 0x9F { '\u{0178}' }
    else {
        b as char
    }
}

/// The text that a NUL-terminated Windows-1252 buffer holds: the bytes before
/// the first NUL (all of them when there is none), each decoded on its own.
pub open spec fn cp1252_text(raw: Seq<u8>, text: Seq<char>) -> bool {
    &&& text.len() <= raw.len()
    &&& forall|i: int| #![trigger text[i]] 0 <= i < text.len() ==> (raw[i] != 0 && text[i] == cp1252_char(raw[i]))
    &&& text.len() < raw.len() ==> raw[text.len() as int] == 0
}

/// `String::push` from std: appends `c` at the end of `s`.
#[verifier::external_body]
fn string_push(s: &mut String, c: char)
    ensures
        final(s)@ == old(s)@.push(c),
{
    s.push(c);
}

/// Decodes a NUL-terminated Windows-1252 buffer, such as the session-info
/// block and the name fields of the shared-memory layout.
pub fn cp1252_to_string(raw: &[u8]) -> (text: String)
    ensures
        cp1252_text(raw@, text@),
{
    let mut text = String::new();
    let mut i: usize = 0;
    while i < raw.len() && raw[i] != 0
        invariant
            i <= raw@.len(),
            text@.len() == i,
            forall|k: int| 0 <= k < i ==> #[trigger] raw@[k] != 0u8,
            forall|k: int| 0 <= k < i ==> #[trigger] text@[k] == cp1252_char(raw@[k]),
        decreases raw@.len() - i,
    {
        let c = cp1252_decode_byte(raw[i]);
        let ghost before = text@;
        string_push(&mut text, c);
        assert(forall|k: int| 0 <= k < i ==> text@[k] == before[k]);
        i = i + 1;
    }
    text
}

} // verus!
