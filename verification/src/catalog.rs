//! Reading a reference catalog: a text of lines, each a list of fields, in
//! which an entry is found by a key that its line contains.

use vstd::prelude::*;

verus! {

/// Place of the first `c` in `s` at or after `from`; the length of `s` if
/// there is none.
pub open spec fn find_from(s: Seq<char>, c: char, from: int) -> int
    decreases s.len() - from,
{
    if from < 0 || from >= s.len() {
        s.len() as int
    } else if s[from] == c {
        from
    } else {
        find_from(s, c, from + 1)
    }
}

/// Whether `key` stands in `line` at place `i`.
pub open spec fn part_at(line: Seq<char>, key: Seq<char>, i: int) -> bool {
    0 <= i && i + key.len() <= line.len() && line.subrange(i, i + key.len()) == key
}

/// Whether `key` stands somewhere in `line`.
pub open spec fn has_part(line: Seq<char>, key: Seq<char>) -> bool {
    exists|i: int| part_at(line, key, i)
}

/// The line of `text` that starts at `from`: the characters up to the next
/// line feed or the end of the text, without a carriage return that stands
/// directly before the line feed.
pub open spec fn line_at(text: Seq<char>, from: int) -> Seq<char> {
    let end = find_from(text, '\n', from);
    if end < text.len() && from < end && text[end - 1] == '\r' {
        text.subrange(from, end - 1)
    } else {
        text.subrange(from, end)
    }
}

/// The first line of `text`, among those that start at or after `from`,
/// in which `key` stands.
pub open spec fn first_line_with(text: Seq<char>, key: Seq<char>, from: int) -> Option<Seq<char>>
    decreases text.len() - from,
{
    if from < 0 || from >= text.len() {
        None
    } else if has_part(line_at(text, from), key) {
        Some(line_at(text, from))
    } else if from <= find_from(text, '\n', from) < text.len() {
        first_line_with(text, key, find_from(text, '\n', from) + 1)
    } else {
        None
    }
}

/// The first line of `text` in which `key` stands.
pub open spec fn entry_line(text: Seq<char>, key: Seq<char>) -> Option<Seq<char>> {
    first_line_with(text, key, 0)
}

/// Field `n` of the part of `line` that starts at `from`, where `sep` parts
/// two fields; `None` if that part has no more than `n` fields.
pub open spec fn field_from(line: Seq<char>, sep: char, from: int, n: nat) -> Option<Seq<char>>
    decreases n,
{
    if from < 0 || from > line.len() {
        None
    } else if n == 0 {
        Some(line.subrange(from, find_from(line, sep, from)))
    } else if find_from(line, sep, from) >= line.len() {
        None
    } else {
        field_from(line, sep, find_from(line, sep, from) + 1, (n - 1) as nat)
    }
}

/// Field `n` of `line`, counted from 0.
pub open spec fn field(line: Seq<char>, sep: char, n: nat) -> Option<Seq<char>> {
    field_from(line, sep, 0, n)
}

/// Place of the first character of `s` at or after `from` that is not `c`;
/// the length of `s` if there is none.
pub open spec fn skip_leading(s: Seq<char>, c: char, from: int) -> int
    decreases s.len() - from,
{
    if from < 0 || from >= s.len() {
        s.len() as int
    } else if s[from] != c {
        from
    } else {
        skip_leading(s, c, from + 1)
    }
}

/// One past the place of the last character of `s` before `to` that is not
/// `c`; 0 if there is none.
pub open spec fn skip_trailing(s: Seq<char>, c: char, to: int) -> int
    decreases to,
{
    if to <= 0 || to > s.len() {
        0
    } else if s[to - 1] != c {
        to
    } else {
        skip_trailing(s, c, to - 1)
    }
}

/// `s` without the `c`s at its start and at its end.
pub open spec fn trimmed(s: Seq<char>, c: char) -> Seq<char> {
    let start = skip_leading(s, c, 0);
    let end = skip_trailing(s, c, s.len() as int);
    if start < end {
        s.subrange(start, end)
    } else {
        Seq::empty()
    }
}

/// `s` with its first `from` replaced by `to`.
pub open spec fn first_replaced(s: Seq<char>, from: char, to: char) -> Seq<char> {
    let place = find_from(s, from, 0);
    if place < s.len() {
        s.update(place, to)
    } else {
        s
    }
}

/// Whether `c` is a decimal digit.
pub open spec fn is_digit(c: char) -> bool {
    '0' <= c <= '9'
}

/// The number that a text of decimal digits spells; 0 for the empty text.
pub open spec fn digits_value(s: Seq<char>) -> nat
    decreases s.len(),
{
    if s.len() == 0 {
        0
    } else {
        (digits_value(s.drop_last()) * 10 + (s.last() as int - '0' as int)) as nat
    }
}

/// Whether `s` is one or more decimal digits.
pub open spec fn is_number(s: Seq<char>) -> bool {
    s.len() > 0 && forall|i: int| 0 <= i < s.len() ==> is_digit(#[trigger] s[i])
}

/// The number of sixteen bits that `s` spells: decimal digits after an
/// optional sign, with a value from -32768 to 32767. `None` for any other
/// text.
pub open spec fn parsed_i16(s: Seq<char>) -> Option<int> {
    let signed = s.len() > 0 && (s[0] == '-' || s[0] == '+');
    let digits = if signed {
        s.subrange(1, s.len() as int)
    } else {
        s
    };
    let value = if signed && s[0] == '-' {
        -(digits_value(digits) as int)
    } else {
        digits_value(digits) as int
    };
    if is_number(digits) && -32768 <= value <= 32767 {
        Some(value)
    } else {
        None
    }
}

/// The value of a text of digits is at least the value of each of its
/// prefixes.
pub proof fn lemma_digits_value_grows(s: Seq<char>, k: int)
    requires
        0 <= k <= s.len(),
        forall|i: int| 0 <= i < s.len() ==> is_digit(#[trigger] s[i]),
    ensures
        digits_value(s.subrange(0, k)) <= digits_value(s),
    decreases s.len(),
{
    if k == s.len() {
        assert(s.subrange(0, k) =~= s);
    } else {
        assert(s.drop_last().subrange(0, k) =~= s.subrange(0, k));
        assert(is_digit(s[s.len() - 1]));
        lemma_digits_value_grows(s.drop_last(), k);
    }
}

/// Place of the first `c` in `s` at or after `from`; the length of `s` if
/// there is none.
pub fn findFrom(s: &Vec<char>, c: char, from: usize) -> (place: usize)
    ensures
        place == find_from(s@, c, from as int),
        place <= s.len(),
        from <= s.len() ==> from <= place,
{
    let mut place: usize = if from < s.len() {
        from
    } else {
        s.len()
    };
    while place < s.len() && s[place] != c
        invariant
            place <= s.len(),
            from <= s.len() ==> from <= place,
            find_from(s@, c, from as int) == find_from(s@, c, place as int),
        decreases s.len() - place,
    {
        place += 1;
    }
    place
}

/// The characters of `s` from `from` up to `to`.
pub(crate) fn partOf(s: &Vec<char>, from: usize, to: usize) -> (part: Vec<char>)
    requires
        from <= to <= s.len(),
    ensures
        part@ == s@.subrange(from as int, to as int),
{
    let mut part: Vec<char> = Vec::new();
    let mut index: usize = from;
    while index < to
        invariant
            from <= index <= to <= s.len(),
            part@ == s@.subrange(from as int, index as int),
        decreases to - index,
    {
        part.push(s[index]);
        index += 1;
        assert(part@ =~= s@.subrange(from as int, index as int));
    }
    part
}

/// Whether `key` stands in `line` at place `at`.
fn partAt(line: &Vec<char>, key: &Vec<char>, at: usize) -> (found: bool)
    requires
        at + key.len() <= line.len(),
    ensures
        found == part_at(line@, key@, at as int),
{
    let mut matched: usize = 0;
    while matched < key.len()
        invariant
            matched <= key.len(),
            at + key.len() <= line.len(),
            line@.subrange(at as int, at + matched) == key@.subrange(0, matched as int),
        decreases key.len() - matched,
    {
        if line[at + matched] != key[matched] {
            assert(line@.subrange(at as int, at + key.len())[matched as int]
                != key@[matched as int]);
            return false;
        }
        matched += 1;
        assert(line@.subrange(at as int, at + matched) =~= key@.subrange(0, matched as int)) by {
            assert(line@.subrange(at as int, at + matched - 1) == key@.subrange(
                0,
                matched - 1,
            ));
            assert forall|i: int| 0 <= i < matched implies line@.subrange(
                at as int,
                at + matched,
            )[i] == key@.subrange(0, matched as int)[i] by {
                if i < matched - 1 {
                    assert(line@.subrange(at as int, at + matched - 1)[i] == key@.subrange(
                        0,
                        matched - 1,
                    )[i]);
                }
            }
        }
    }
    assert(key@.subrange(0, key.len() as int) =~= key@);
    true
}

/// Whether `key` stands somewhere in `line`.
pub fn hasPart(line: &Vec<char>, key: &Vec<char>) -> (found: bool)
    ensures
        found == has_part(line@, key@),
{
    if key.len() > line.len() {
        assert(forall|i: int| !part_at(line@, key@, i));
        return false;
    }
    let last: usize = line.len() - key.len();
    let mut at: usize = 0;
    loop
        invariant
            at <= last,
            last == line.len() - key.len(),
            forall|i: int| 0 <= i < at ==> !part_at(line@, key@, i),
        decreases last - at,
    {
        if partAt(line, key, at) {
            return true;
        }
        if at == last {
            assert(forall|i: int| !part_at(line@, key@, i));
            return false;
        }
        at += 1;
    }
}

/// The first line of `text` in which `key` stands.
pub fn entryLine(text: &Vec<char>, key: &Vec<char>) -> (line: Option<Vec<char>>)
    ensures
        match entry_line(text@, key@) {
            Some(found) => line is Some && line->Some_0@ == found,
            None => line is None,
        },
{
    let mut from: usize = 0;
    while from < text.len()
        invariant
            from <= text.len(),
            entry_line(text@, key@) == first_line_with(text@, key@, from as int),
        decreases text.len() - from,
    {
        let end: usize = findFrom(text, '\n', from);
        let stop: usize = if end < text.len() && from < end && text[end - 1] == '\r' {
            end - 1
        } else {
            end
        };
        let line = partOf(text, from, stop);
        if hasPart(&line, key) {
            return Some(line);
        }
        if end >= text.len() {
            return None;
        }
        from = end + 1;
    }
    None
}

/// Field `n` of `line`, counted from 0, where `sep` parts two fields.
pub fn fieldOf(line: &Vec<char>, sep: char, n: usize) -> (found: Option<Vec<char>>)
    ensures
        match field(line@, sep, n as nat) {
            Some(text) => found is Some && found->Some_0@ == text,
            None => found is None,
        },
{
    let mut from: usize = 0;
    let mut left: usize = n;
    while left > 0
        invariant
            from <= line.len(),
            left <= n,
            field(line@, sep, n as nat) == field_from(line@, sep, from as int, left as nat),
        decreases left,
    {
        let end: usize = findFrom(line, sep, from);
        if end >= line.len() {
            return None;
        }
        from = end + 1;
        left -= 1;
    }
    let end: usize = findFrom(line, sep, from);
    Some(partOf(line, from, end))
}

/// `s` without the `c`s at its start and at its end.
pub fn trimOf(s: &Vec<char>, c: char) -> (rest: Vec<char>)
    ensures
        rest@ == trimmed(s@, c),
{
    let mut start: usize = 0;
    while start < s.len() && s[start] == c
        invariant
            start <= s.len(),
            skip_leading(s@, c, 0) == skip_leading(s@, c, start as int),
        decreases s.len() - start,
    {
        start += 1;
    }
    let mut end: usize = s.len();
    while end > 0 && s[end - 1] == c
        invariant
            end <= s.len(),
            skip_trailing(s@, c, s.len() as int) == skip_trailing(s@, c, end as int),
        decreases end,
    {
        end -= 1;
    }
    if start < end {
        partOf(s, start, end)
    } else {
        Vec::new()
    }
}

/// `s` with its first `from` replaced by `to`.
pub fn replaceFirst(s: &Vec<char>, from: char, to: char) -> (replaced: Vec<char>)
    ensures
        replaced@ == first_replaced(s@, from, to),
{
    let place: usize = findFrom(s, from, 0);
    let mut replaced = partOf(s, 0, s.len());
    assert(replaced@ =~= s@);
    if place < s.len() {
        replaced.set(place, to);
    }
    replaced
}

/// The number of sixteen bits that `s` spells, if it spells one.
#[verifier::loop_isolation(false)]
pub fn parseI16(s: &Vec<char>) -> (parsed: Option<i16>)
    ensures
        match parsed_i16(s@) {
            Some(value) => parsed == Some(value as i16) && -32768 <= value <= 32767,
            None => parsed is None,
        },
{
    let signed: bool = s.len() > 0 && (s[0] == '-' || s[0] == '+');
    let negative: bool = signed && s[0] == '-';
    let start: usize = if signed {
        1
    } else {
        0
    };
    if start >= s.len() {
        return None;
    }
    let ghost digits = s@.subrange(start as int, s.len() as int);
    assert(!signed ==> digits =~= s@);
    let mut value: i32 = 0;
    let mut index: usize = start;
    while index < s.len()
        invariant
            start <= index <= s.len(),
            digits == s@.subrange(start as int, s.len() as int),
            forall|i: int| 0 <= i < index - start ==> is_digit(#[trigger] digits[i]),
            value == digits_value(digits.subrange(0, index - start)),
            0 <= value <= 32768,
        decreases s.len() - index,
    {
        let c: char = s[index];
        if c < '0' || c > '9' {
            assert(!is_digit(digits[index - start]));
            return None;
        }
        let digit: i32 = (c as u32 - '0' as u32) as i32;
        let ghost shorter = digits.subrange(0, index - start);
        let ghost longer = digits.subrange(0, index - start + 1);
        assert(longer.drop_last() =~= shorter);
        assert(longer.last() == c);
        if value * 10 + digit > 32768 {
            proof {
                if is_number(digits) {
                    lemma_digits_value_grows(digits, index - start + 1);
                }
            }
            return None;
        }
        value = value * 10 + digit;
        index += 1;
    }
    assert(digits.subrange(0, digits.len() as int) =~= digits);
    assert(is_number(digits));
    if negative {
        Some((-value) as i16)
    } else if value > 32767 {
        None
    } else {
        Some(value as i16)
    }
}

} // verus!
