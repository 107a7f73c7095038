//! Building blocks for the texts the library produces and reads: characters
//! of a string, decimal numerals, padding.

use vstd::prelude::*;
use vstd::std_specs::iter::IteratorSpec;

verus! {

/// `String::push` of std appends one character: afterwards the string holds
/// the characters it held before, and then `c`.
pub assume_specification[ String::push ](s: &mut String, c: char)
    ensures
        final(s)@ == old(s)@.push(c),
;

/// The characters of a string, in order.
pub fn charsOf(s: &str) -> (chars: Vec<char>)
    ensures
        chars@ == s@,
{
    broadcast use vstd::string::group_string_axioms;

    let mut rest = s.chars();
    let mut chars: Vec<char> = Vec::new();
    loop
        invariant
            chars@ + rest.remaining() == s@,
            rest.decrease() is Some,
        ensures
            chars@ == s@,
        decreases rest.decrease()->0,
    {
        let ghost before = rest.remaining();
        match rest.next() {
            Some(c) => {
                chars.push(c);
                assert(chars@ + rest.remaining() =~= s@) by {
                    assert(before =~= seq![c] + before.drop_first());
                }
            },
            None => {
                assert(chars@ + before =~= chars@);
                break ;
            },
        }
    }
    chars
}

/// The string made of the given characters, in order.
pub fn stringOf(chars: &Vec<char>) -> (s: String)
    ensures
        s@ == chars@,
{
    let mut s = String::new();
    let mut index: usize = 0;
    while index < chars.len()
        invariant
            index <= chars.len(),
            s@ == chars@.subrange(0, index as int),
        decreases chars.len() - index,
    {
        s.push(chars[index]);
        index += 1;
        assert(s@ =~= chars@.subrange(0, index as int));
    }
    assert(chars@.subrange(0, chars.len() as int) =~= chars@);
    s
}

/// The numeral of one digit below sixteen, letters in upper case.
pub open spec fn digit_char(d: int) -> char {
    if d < 10 {
        (d + '0' as int) as char
    } else {
        (d - 10 + 'A' as int) as char
    }
}

/// The decimal numeral of `n`, without leading zeros.
pub open spec fn decimal(n: nat) -> Seq<char>
    decreases n,
{
    if n < 10 {
        seq![digit_char(n as int)]
    } else {
        decimal(n / 10).push(digit_char((n % 10) as int))
    }
}

/// The decimal numeral of `i`, with a minus sign if it is negative.
pub open spec fn signed_decimal(i: int) -> Seq<char> {
    if i < 0 {
        seq!['-'] + decimal((-i) as nat)
    } else {
        decimal(i as nat)
    }
}

/// The hexadecimal numeral of `n`, letters in upper case, without leading
/// zeros.
pub open spec fn upper_hex(n: nat) -> Seq<char>
    decreases n,
{
    if n < 16 {
        seq![digit_char(n as int)]
    } else {
        upper_hex(n / 16).push(digit_char((n % 16) as int))
    }
}

/// Number of bytes that a text takes in a string, as a machine word.
pub open spec fn byte_length(text: Seq<char>) -> usize {
    vstd::utf8::encode_utf8(text).len() as usize
}

/// `count` copies of `c`.
pub open spec fn repeated(c: char, count: int) -> Seq<char> {
    Seq::new(
        if count < 0 {
            0nat
        } else {
            count as nat
        },
        |i: int| c,
    )
}

/// `text` filled up with `fill` on the left to `width` characters.
pub open spec fn padded_left(text: Seq<char>, fill: char, width: int) -> Seq<char> {
    repeated(fill, width - text.len()) + text
}

/// `text` filled up with spaces on the right to `width` characters.
pub open spec fn padded_right(text: Seq<char>, width: int) -> Seq<char> {
    text + repeated(' ', width - text.len())
}

/// The numeral of one digit.
fn digitChar(d: u8) -> (c: char)
    requires
        d < 16,
    ensures
        c == digit_char(d as int),
{
    match d {
        0 => '0',
        1 => '1',
        2 => '2',
        3 => '3',
        4 => '4',
        5 => '5',
        6 => '6',
        7 => '7',
        8 => '8',
        9 => '9',
        10 => 'A',
        11 => 'B',
        12 => 'C',
        13 => 'D',
        14 => 'E',
        _ => 'F',
    }
}

/// Appends the decimal numeral of `n`.
pub fn pushDecimal(out: &mut String, n: u64)
    ensures
        final(out)@ == old(out)@ + decimal(n as nat),
    decreases n,
{
    if n >= 10 {
        pushDecimal(out, n / 10);
    }
    let d: u64 = n % 10;
    out.push(digitChar(d as u8));
    assert(out@ =~= old(out)@ + decimal(n as nat));
}

/// Appends the hexadecimal numeral of `n`.
pub fn pushUpperHex(out: &mut String, n: u64)
    ensures
        final(out)@ == old(out)@ + upper_hex(n as nat),
    decreases n,
{
    if n >= 16 {
        pushUpperHex(out, n / 16);
    }
    let d: u64 = n % 16;
    out.push(digitChar(d as u8));
    assert(out@ =~= old(out)@ + upper_hex(n as nat));
}

/// Appends `count` copies of `c`.
pub fn pushRepeated(out: &mut String, c: char, count: usize)
    ensures
        final(out)@ == old(out)@ + repeated(c, count as int),
{
    let mut done: usize = 0;
    while done < count
        invariant
            done <= count,
            out@ == old(out)@ + repeated(c, done as int),
        decreases count - done,
    {
        out.push(c);
        done += 1;
        assert(out@ =~= old(out)@ + repeated(c, done as int));
    }
}

/// The decimal numeral of `n`.
pub fn decimalText(n: u64) -> (text: String)
    ensures
        text@ == decimal(n as nat),
{
    let mut text = String::new();
    pushDecimal(&mut text, n);
    assert(text@ =~= decimal(n as nat));
    text
}

/// The decimal numeral of `i`, with a minus sign if it is negative.
pub fn signedDecimalText(i: i64) -> (text: String)
    ensures
        text@ == signed_decimal(i as int),
{
    let mut text = String::new();
    if i < 0 {
        text.push('-');
        let magnitude: u64 = (-(i + 1)) as u64 + 1;
        pushDecimal(&mut text, magnitude);
    } else {
        pushDecimal(&mut text, i as u64);
    }
    assert(text@ =~= signed_decimal(i as int));
    text
}

/// `digits` filled up with zeros on the left to `width` characters.
pub fn zeroPadded(digits: &str, width: usize) -> (text: String)
    ensures
        text@ == padded_left(digits@, '0', width as int),
{
    let length: usize = digits.unicode_len();
    let mut text = String::new();
    if length < width {
        pushRepeated(&mut text, '0', width - length);
    }
    text.append(digits);
    assert(text@ =~= padded_left(digits@, '0', width as int));
    text
}

/// Number of bytes that a string takes.
pub fn byteLength(text: &str) -> (length: usize)
    ensures
        length == byte_length(text@),
{
    text.len()
}

/// `text` filled up with spaces on the right to `width` characters.
pub fn paddedRight(text: &str, width: usize) -> (padded: String)
    ensures
        padded@ == padded_right(text@, width as int),
{
    let mut padded = String::from_str(text);
    let length: usize = text.unicode_len();
    if length < width {
        pushRepeated(&mut padded, ' ', width - length);
    }
    assert(padded@ =~= padded_right(text@, width as int));
    padded
}

} // verus!
