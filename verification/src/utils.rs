//! The text codec of name slots, the checksum validator and the byte
//! splitter.

use vstd::prelude::*;
use crate::addresses::{CHECKSUM_END_ADDR, CHECKSUM_RESULT, CHECKSUM_START_ADDR};
use crate::errors::CodecError;
use crate::text::charsOf;

verus! {

/// Code of the blank glyph, which also stands for every character and every
/// code that the table does not hold.
pub const BLANK_CODE: i16 = 0x50;

/// The codes that the character table holds.
pub open spec fn in_table(code: int) -> bool {
    code == 0x50 || 0x80 <= code <= 0xBA
}

/// The characters that the character table holds.
pub open spec fn encodable(c: char) -> bool {
    ||| 'A' <= c <= 'Z'
    ||| 'a' <= c <= 'z'
    ||| c == '(' || c == ')' || c == ':' || c == ';' || c == '[' || c == ']'
    ||| c == 'é'
    ||| c == ' '
}

/// Character of one code: upper case from 0x80, six punctuation marks from
/// 0x9A, lower case from 0xA0, the accented letter at 0xBA, and a space for
/// the blank code and for every code outside the table.
pub open spec fn decode_char(code: int) -> char {
    if 0x80 <= code <= 0x99 {
        (code - 0x80 + 'A' as int) as char
    } else if code == 0x9A {
        '('
    } else if code == 0x9B {
        ')'
    } else if code == 0x9C {
        ':'
    } else if code == 0x9D {
        ';'
    } else if code == 0x9E {
        '['
    } else if code == 0x9F {
        ']'
    } else if 0xA0 <= code <= 0xB9 {
        (code - 0xA0 + 'a' as int) as char
    } else if code == 0xBA {
        'é'
    } else {
        ' '
    }
}

/// Code of one character: the inverse of `decode_char` on the table, and the
/// blank code for every other character.
pub open spec fn encode_char(c: char) -> int {
    if 'A' <= c <= 'Z' {
        c as int - 'A' as int + 0x80
    } else if c == '(' {
        0x9A
    } else if c == ')' {
        0x9B
    } else if c == ':' {
        0x9C
    } else if c == ';' {
        0x9D
    } else if c == '[' {
        0x9E
    } else if c == ']' {
        0x9F
    } else if 'a' <= c <= 'z' {
        c as int - 'a' as int + 0xA0
    } else if c == 'é' {
        0xBA
    } else {
        0x50
    }
}

/// Text of a sequence of codes: one character for each code, in order.
pub open spec fn decode_text(codes: Seq<i16>) -> Seq<char> {
    Seq::new(codes.len(), |i: int| decode_char(codes[i] as int))
}

/// The eleven codes of a text: the codes of its first eleven characters,
/// padded with the blank code.
pub open spec fn encode_text(text: Seq<char>) -> Seq<i16> {
    Seq::new(
        11,
        |i: int|
            if i < text.len() {
                encode_char(text[i]) as i16
            } else {
                BLANK_CODE
            },
    )
}

/// Encoding gives a code of the table, and decoding gives a character of it.
pub proof fn lemma_codec_stays_in_table(code: int, c: char)
    ensures
        in_table(encode_char(c)),
        encodable(decode_char(code)),
{
}

/// On a code of the table, encoding undoes decoding.
pub proof fn lemma_encode_decode_char(code: int)
    requires
        in_table(code),
    ensures
        encode_char(decode_char(code)) == code,
{
}

/// On a character of the table, decoding undoes encoding.
pub proof fn lemma_decode_encode_char(c: char)
    requires
        encodable(c),
    ensures
        decode_char(encode_char(c)) == c,
{
}

/// Eleven codes of the table survive decoding and encoding unchanged.
pub proof fn lemma_encode_decode_text(codes: Seq<i16>)
    requires
        codes.len() == 11,
        forall|i: int| 0 <= i < 11 ==> in_table(#[trigger] codes[i] as int),
    ensures
        encode_text(decode_text(codes)) == codes,
{
    assert forall|i: int| 0 <= i < 11 implies encode_text(decode_text(codes))[i] == codes[i] by {
        assert(in_table(codes[i] as int));
        lemma_encode_decode_char(codes[i] as int);
    }
    assert(encode_text(decode_text(codes)) =~= codes);
}

/// A text of eleven characters of the table survives encoding and decoding
/// unchanged.
pub proof fn lemma_decode_encode_text(text: Seq<char>)
    requires
        text.len() == 11,
        forall|i: int| 0 <= i < 11 ==> encodable(#[trigger] text[i]),
    ensures
        decode_text(encode_text(text)) == text,
{
    assert forall|i: int| 0 <= i < 11 implies decode_text(encode_text(text))[i] == text[i] by {
        assert(encodable(text[i]));
        lemma_decode_encode_char(text[i]);
        lemma_codec_stays_in_table(0, text[i]);
    }
    assert(decode_text(encode_text(text)) =~= text);
}

/// Splits a byte into its high and its low nibble.
pub fn splitByte(unsignedByte: &u8) -> (halves: (u8, u8))
    ensures
        halves.0 == *unsignedByte / 16,
        halves.1 == *unsignedByte % 16,
{
    let b: u8 = *unsignedByte;
    assert(b >> 4 == b / 16 && b & 0x0F == b % 16) by (bit_vector);
    (b >> 4, b & 0x0F)
}

/// Decodes one code of the character table.
pub fn decodeChar(code: i16) -> (c: char)
    ensures
        c == decode_char(code as int),
{
    match code {
        0x80 => 'A',
        0x81 => 'B',
        0x82 => 'C',
        0x83 => 'D',
        0x84 => 'E',
        0x85 => 'F',
        0x86 => 'G',
        0x87 => 'H',
        0x88 => 'I',
        0x89 => 'J',
        0x8A => 'K',
        0x8B => 'L',
        0x8C => 'M',
        0x8D => 'N',
        0x8E => 'O',
        0x8F => 'P',
        0x90 => 'Q',
        0x91 => 'R',
        0x92 => 'S',
        0x93 => 'T',
        0x94 => 'U',
        0x95 => 'V',
        0x96 => 'W',
        0x97 => 'X',
        0x98 => 'Y',
        0x99 => 'Z',
        0x9A => '(',
        0x9B => ')',
        0x9C => ':',
        0x9D => ';',
        0x9E => '[',
        0x9F => ']',
        0xA0 => 'a',
        0xA1 => 'b',
        0xA2 => 'c',
        0xA3 => 'd',
        0xA4 => 'e',
        0xA5 => 'f',
        0xA6 => 'g',
        0xA7 => 'h',
        0xA8 => 'i',
        0xA9 => 'j',
        0xAA => 'k',
        0xAB => 'l',
        0xAC => 'm',
        0xAD => 'n',
        0xAE => 'o',
        0xAF => 'p',
        0xB0 => 'q',
        0xB1 => 'r',
        0xB2 => 's',
        0xB3 => 't',
        0xB4 => 'u',
        0xB5 => 'v',
        0xB6 => 'w',
        0xB7 => 'x',
        0xB8 => 'y',
        0xB9 => 'z',
        0xBA => 'é',
        0x50 => ' ',
        _ => ' ',
    }
}

/// Encodes one character with the character table.
pub fn encodeChar(c: char) -> (code: i16)
    ensures
        code == encode_char(c),
        in_table(code as int),
{
    match c {
        'A' => 0x80,
        'B' => 0x81,
        'C' => 0x82,
        'D' => 0x83,
        'E' => 0x84,
        'F' => 0x85,
        'G' => 0x86,
        'H' => 0x87,
        'I' => 0x88,
        'J' => 0x89,
        'K' => 0x8A,
        'L' => 0x8B,
        'M' => 0x8C,
        'N' => 0x8D,
        'O' => 0x8E,
        'P' => 0x8F,
        'Q' => 0x90,
        'R' => 0x91,
        'S' => 0x92,
        'T' => 0x93,
        'U' => 0x94,
        'V' => 0x95,
        'W' => 0x96,
        'X' => 0x97,
        'Y' => 0x98,
        'Z' => 0x99,
        '(' => 0x9A,
        ')' => 0x9B,
        ':' => 0x9C,
        ';' => 0x9D,
        '[' => 0x9E,
        ']' => 0x9F,
        'a' => 0xA0,
        'b' => 0xA1,
        'c' => 0xA2,
        'd' => 0xA3,
        'e' => 0xA4,
        'f' => 0xA5,
        'g' => 0xA6,
        'h' => 0xA7,
        'i' => 0xA8,
        'j' => 0xA9,
        'k' => 0xAA,
        'l' => 0xAB,
        'm' => 0xAC,
        'n' => 0xAD,
        'o' => 0xAE,
        'p' => 0xAF,
        'q' => 0xB0,
        'r' => 0xB1,
        's' => 0xB2,
        't' => 0xB3,
        'u' => 0xB4,
        'v' => 0xB5,
        'w' => 0xB6,
        'x' => 0xB7,
        'y' => 0xB8,
        'z' => 0xB9,
        'é' => 0xBA,
        ' ' => 0x50,
        _ => 0x50,
    }
}

/// Decodes the eleven codes of a name slot into text. There is no terminator:
/// each code gives one character, so the text always has eleven characters.
pub fn textDecode(encoded: &[i16; 11]) -> (text: String)
    ensures
        text@ == decode_text(encoded@),
        text@.len() == 11,
{
    let mut text = String::new();
    let mut index: usize = 0;
    while index < 11
        invariant
            index <= 11,
            text@ == decode_text(encoded@.subrange(0, index as int)),
        decreases 11 - index,
    {
        let c = decodeChar(encoded[index]);
        text.push(c);
        index += 1;
        assert(text@ =~= decode_text(encoded@.subrange(0, index as int)));
    }
    assert(encoded@.subrange(0, 11) =~= encoded@);
    text
}

/// Encodes text into the eleven codes of a name slot: the codes of the first
/// eleven characters, then blank codes up to the slot's width.
pub fn textEncode(decoded: &String) -> (encoded: [i16; 11])
    ensures
        encoded@ == encode_text(decoded@),
{
    let mut encoded: [i16; 11] = [BLANK_CODE; 11];
    let chars = charsOf(decoded.as_str());
    let mut index: usize = 0;
    while index < 11 && index < chars.len()
        invariant
            index <= 11,
            chars@ == decoded@,
            forall|i: int| 0 <= i < index ==> encoded@[i] == #[trigger] encode_text(decoded@)[i],
            forall|i: int| index <= i < 11 ==> encoded@[i] == BLANK_CODE,
        decreases 11 - index,
    {
        encoded[index] = encodeChar(chars[index]);
        index += 1;
    }
    assert(encoded@ =~= encode_text(decoded@));
    encoded
}

/// Encodes a name for its slot, and rejects a name of more than eleven
/// characters, which the slot cannot hold.
pub fn encodeName(decoded: &String) -> (encoded: Result<[i16; 11], CodecError>)
    ensures
        decoded@.len() <= 11 ==> encoded is Ok && encoded->Ok_0@ == encode_text(decoded@),
        decoded@.len() > 11 ==> encoded == Err::<[i16; 11], CodecError>(
            CodecError::FieldOutOfRange,
        ),
{
    if decoded.as_str().unicode_len() > 11 {
        return Err(CodecError::FieldOutOfRange);
    }
    Ok(textEncode(decoded))
}

/// Plain sum of the bytes of a region.
pub open spec fn byte_sum(bytes: Seq<u8>) -> int
    decreases bytes.len(),
{
    if bytes.len() == 0 {
        0
    } else {
        byte_sum(bytes.drop_last()) + bytes.last() as int
    }
}

/// The byte that a valid image stores for a region: the one's complement of
/// the region's sum, taken modulo 256.
pub open spec fn checksum_of(bytes: Seq<u8>) -> int {
    255 - byte_sum(bytes) % 256
}

/// Whether the byte at `result` is the checksum of the region
/// `[start, end)` of `image`. A region or a result address outside the image
/// makes the image invalid.
pub open spec fn checksum_valid(image: Seq<u8>, start: int, end: int, result: int) -> bool {
    &&& 0 <= start <= end <= image.len()
    &&& 0 <= result < image.len()
    &&& image[result] as int == checksum_of(image.subrange(start, end))
}

/// Whether `image` has the checksum of a first-generation save image.
pub open spec fn has_integrity(image: Seq<u8>) -> bool {
    checksum_valid(
        image,
        CHECKSUM_START_ADDR as int,
        CHECKSUM_END_ADDR as int,
        CHECKSUM_RESULT as int,
    )
}

/// An empty region sums to 0, so that its checksum is 0xFF.
pub proof fn lemma_checksum_of_empty_region()
    ensures
        checksum_of(Seq::<u8>::empty()) == 0xFF,
{
}

/// For a region that sums, modulo 256, to 0x10, the image is valid with the
/// result byte 0xEF and with no other.
pub proof fn lemma_checksum_of_sum_0x10(image: Seq<u8>, start: int, end: int, result: int)
    requires
        0 <= start <= end <= image.len(),
        0 <= result < image.len(),
        byte_sum(image.subrange(start, end)) % 256 == 0x10,
    ensures
        checksum_valid(image, start, end, result) <==> image[result] == 0xEF,
{
}

/// The result byte decides validity alone: two images that differ at most at
/// `result`, which lies outside the region, are valid for the same stored
/// byte.
pub proof fn lemma_checksum_ignores_other_bytes(
    image: Seq<u8>,
    start: int,
    end: int,
    result: int,
    stored: u8,
)
    requires
        0 <= start <= end <= image.len(),
        0 <= result < image.len(),
        !(start <= result < end),
    ensures
        checksum_valid(image.update(result, stored), start, end, result) <==> stored as int
            == checksum_of(image.subrange(start, end)),
{
    assert(image.update(result, stored).subrange(start, end) =~= image.subrange(start, end));
}

/// Validates the checksum of the region `[start, end)` of `image` against the
/// byte stored at `result`: the bytes of the region are added up with
/// wrap-around in eight bits, and the image is valid if and only if the
/// one's complement of that sum is the stored byte.
pub fn checksumValid(image: &Vec<u8>, start: usize, end: usize, result: usize) -> (valid: bool)
    ensures
        valid == checksum_valid(image@, start as int, end as int, result as int),
{
    if start > end || end > image.len() || result >= image.len() {
        return false;
    }
    let mut sum: u8 = 0;
    let mut index: usize = start;
    while index < end
        invariant
            start <= index <= end <= image.len(),
            sum as int == byte_sum(image@.subrange(start as int, index as int)) % 256,
        decreases end - index,
    {
        let ghost before = image@.subrange(start as int, index as int);
        let ghost after = image@.subrange(start as int, index + 1);
        assert(after.drop_last() =~= before);
        assert(after.last() == image@[index as int]);
        sum = sum.wrapping_add(image[index]);
        index += 1;
    }
    let stored: u8 = image[result];
    assert(!sum == 255 - sum) by (bit_vector);
    !sum == stored
}

/// Whether a save image has the checksum of a first-generation game: the
/// main data checksum is valid. An image too short to hold the checksum
/// region and its result byte is not valid.
pub fn integrityCheck(saveFile: &Vec<u8>) -> (valid: bool)
    ensures
        valid == has_integrity(saveFile@),
{
    checksumValid(saveFile, CHECKSUM_START_ADDR, CHECKSUM_END_ADDR, CHECKSUM_RESULT)
}

/// Start of every error message: the word "Error" in red, then a colon.
pub open spec fn error_prefix() -> Seq<char> {
    "\u{1b}[0;31mError\u{1b}[0m: "@
}

/// The text of an error with the given message.
pub open spec fn error_text(message: Seq<char>) -> Seq<char> {
    error_prefix() + message
}

/// Marks a message as an error.
pub fn formatError(message: String) -> (text: String)
    ensures
        text@ == error_text(message@),
{
    String::from_str("\u{1b}[0;31mError\u{1b}[0m: ").concat(message.as_str())
}

} // verus!
