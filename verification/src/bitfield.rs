//! Values packed into parts of bytes: the PP pair of a move slot, the
//! individual values of a creature, big-endian words and packed decimal
//! digits.

use vstd::prelude::*;
use crate::errors::CodecError;

verus! {

/// Largest current PP that a move slot holds.
pub const MAX_PP: u8 = 63;

/// Largest PP-Up count that a move slot holds.
pub const MAX_PP_UP: u8 = 3;

/// Largest individual value.
pub const MAX_IV: u16 = 15;

/// PP-Up count of a packed PP byte: its top two bits.
pub open spec fn pp_up_of(byte: u8) -> int {
    byte as int / 64
}

/// Current PP of a packed PP byte: its bottom six bits.
pub open spec fn pp_of(byte: u8) -> int {
    byte as int % 64
}

/// The byte that packs a PP-Up count and a current PP.
pub open spec fn packed_pp(pp_up: int, pp: int) -> int {
    pp_up * 64 + pp
}

/// The five individual values that two bytes hold, in the order HP, Attack,
/// Defense, Speed, Special. Attack and Defense are the nibbles of the first
/// byte, Speed and Special those of the second. HP is not stored: its four
/// bits are the lowest bits of Attack, Defense, Speed and Special, in this
/// order, the first of them the most significant.
pub open spec fn ivs_of(first: u8, second: u8) -> Seq<u16> {
    let atk = first as int / 16;
    let def = first as int % 16;
    let spd = second as int / 16;
    let spc = second as int % 16;
    let hp = (atk % 2) * 8 + (def % 2) * 4 + (spd % 2) * 2 + spc % 2;
    seq![hp as u16, atk as u16, def as u16, spd as u16, spc as u16]
}

/// The two bytes that hold the four stored individual values.
pub open spec fn packed_ivs(atk: int, def: int, spd: int, spc: int) -> (int, int) {
    (atk * 16 + def, spd * 16 + spc)
}

/// The unsigned value of two bytes, the first the more significant.
pub open spec fn word_of(high: u8, low: u8) -> int {
    high as int * 256 + low as int
}

/// The value of two bytes, the first the more significant, read as a signed
/// number of sixteen bits.
pub open spec fn signed_word_of(high: u8, low: u8) -> int {
    if high >= 128 {
        word_of(high, low) - 0x10000
    } else {
        word_of(high, low)
    }
}

/// Whether both nibbles of a byte are decimal digits.
pub open spec fn is_decimal_pair(byte: u8) -> bool {
    byte as int / 16 <= 9 && byte as int % 16 <= 9
}

/// The number that the two decimal digits of a byte spell.
pub open spec fn decimal_pair_of(byte: u8) -> int {
    (byte as int / 16) * 10 + byte as int % 16
}

/// The amount that three bytes of packed decimal digits spell, if each
/// nibble is a decimal digit.
pub open spec fn money_of(first: u8, second: u8, third: u8) -> Option<int> {
    if is_decimal_pair(first) && is_decimal_pair(second) && is_decimal_pair(third) {
        Some(
            decimal_pair_of(first) * 10000 + decimal_pair_of(second) * 100 + decimal_pair_of(
                third,
            ),
        )
    } else {
        None
    }
}

/// Packing undoes unpacking of a PP byte, and both parts of a PP byte are in
/// their ranges.
pub proof fn lemma_pp_unpack_pack(byte: u8)
    ensures
        0 <= pp_up_of(byte) <= MAX_PP_UP,
        0 <= pp_of(byte) <= MAX_PP,
        packed_pp(pp_up_of(byte), pp_of(byte)) == byte,
{
}

/// Unpacking undoes packing of a PP pair in range.
pub proof fn lemma_pp_pack_unpack(pp_up: u8, pp: u8)
    requires
        pp_up <= MAX_PP_UP,
        pp <= MAX_PP,
    ensures
        0 <= packed_pp(pp_up as int, pp as int) <= 255,
        pp_up_of(packed_pp(pp_up as int, pp as int) as u8) == pp_up,
        pp_of(packed_pp(pp_up as int, pp as int) as u8) == pp,
{
}

/// Every individual value that two bytes hold is at most 15, and the HP
/// value is the one that the other four fix.
pub proof fn lemma_ivs_in_range(first: u8, second: u8)
    ensures
        ivs_of(first, second).len() == 5,
        forall|i: int| 0 <= i < 5 ==> #[trigger] ivs_of(first, second)[i] <= MAX_IV,
        ivs_of(first, second)[0] == (ivs_of(first, second)[1] % 2) * 8 + (ivs_of(first, second)[2]
            % 2) * 4 + (ivs_of(first, second)[3] % 2) * 2 + ivs_of(first, second)[4] % 2,
{
}

/// Unpacking the bytes that pack four individual values in range gives them
/// back.
pub proof fn lemma_ivs_pack_unpack(atk: u16, def: u16, spd: u16, spc: u16)
    requires
        atk <= MAX_IV,
        def <= MAX_IV,
        spd <= MAX_IV,
        spc <= MAX_IV,
    ensures
        ({
            let (first, second) = packed_ivs(atk as int, def as int, spd as int, spc as int);
            &&& 0 <= first <= 255
            &&& 0 <= second <= 255
            &&& ivs_of(first as u8, second as u8)[1] == atk
            &&& ivs_of(first as u8, second as u8)[2] == def
            &&& ivs_of(first as u8, second as u8)[3] == spd
            &&& ivs_of(first as u8, second as u8)[4] == spc
        }),
{
}

/// Packed decimal digits never spell more than 999,999.
pub proof fn lemma_money_in_range(first: u8, second: u8, third: u8)
    ensures
        money_of(first, second, third) matches Some(amount) ==> 0 <= amount <= 999_999,
{
}

/// Unpacks a PP byte into the PP-Up count and the current PP.
pub fn decodePP(byte: u8) -> (pair: (u8, u8))
    ensures
        pair.0 == pp_up_of(byte),
        pair.1 == pp_of(byte),
        pair.0 <= MAX_PP_UP,
        pair.1 <= MAX_PP,
{
    assert(byte >> 6 == byte / 64 && byte & 0x3F == byte % 64) by (bit_vector);
    (byte >> 6, byte & 0x3F)
}

/// Packs a PP-Up count and a current PP into one byte. A count above 3 or a
/// current PP above 63 is rejected.
pub fn encodePP(ppUp: u8, pp: u8) -> (packed: Result<u8, CodecError>)
    ensures
        ppUp <= MAX_PP_UP && pp <= MAX_PP ==> packed == Ok::<u8, CodecError>(
            packed_pp(ppUp as int, pp as int) as u8,
        ) && packed_pp(ppUp as int, pp as int) <= 255,
        ppUp > MAX_PP_UP || pp > MAX_PP ==> packed == Err::<u8, CodecError>(
            CodecError::FieldOutOfRange,
        ),
{
    if ppUp > MAX_PP_UP || pp > MAX_PP {
        return Err(CodecError::FieldOutOfRange);
    }
    assert((ppUp << 6) | (pp & 0x3F) == ppUp * 64 + pp) by (bit_vector)
        requires
            ppUp <= 3,
            pp <= 63,
    ;
    Ok((ppUp << 6) | (pp & 0x3F))
}

/// Unpacks the individual values that two bytes hold, in the order HP,
/// Attack, Defense, Speed, Special.
pub fn decodeIVs(first: u8, second: u8) -> (ivs: [u16; 5])
    ensures
        ivs@ == ivs_of(first, second),
{
    let atk: u16 = (first >> 4) as u16;
    let def: u16 = (first & 0x0F) as u16;
    let spd: u16 = (second >> 4) as u16;
    let spc: u16 = (second & 0x0F) as u16;
    assert(first >> 4 == first / 16 && first & 0x0F == first % 16) by (bit_vector);
    assert(second >> 4 == second / 16 && second & 0x0F == second % 16) by (bit_vector);
    let hp: u16 = (atk & 1) << 3 | (def & 1) << 2 | (spd & 1) << 1 | (spc & 1);
    assert((atk & 1) << 3 | (def & 1) << 2 | (spd & 1) << 1 | (spc & 1) == (atk % 2) * 8 + (def
        % 2) * 4 + (spd % 2) * 2 + spc % 2) by (bit_vector)
        requires
            atk <= 15,
            def <= 15,
            spd <= 15,
            spc <= 15,
    ;
    let ivs: [u16; 5] = [hp, atk, def, spd, spc];
    assert(ivs@ =~= ivs_of(first, second));
    ivs
}

/// Packs the four stored individual values into two bytes. A value above 15
/// is rejected. The HP value has no place of its own in the bytes: it is
/// whatever the lowest bits of the four values make it.
pub fn encodeIVs(atk: u16, def: u16, spd: u16, spc: u16) -> (packed: Result<(u8, u8), CodecError>)
    ensures
        atk <= MAX_IV && def <= MAX_IV && spd <= MAX_IV && spc <= MAX_IV ==> packed is Ok && (
            packed->Ok_0.0 as int,
            packed->Ok_0.1 as int,
        ) == packed_ivs(atk as int, def as int, spd as int, spc as int),
        atk > MAX_IV || def > MAX_IV || spd > MAX_IV || spc > MAX_IV ==> packed == Err::<
            (u8, u8),
            CodecError,
        >(CodecError::FieldOutOfRange),
{
    if atk > MAX_IV || def > MAX_IV || spd > MAX_IV || spc > MAX_IV {
        return Err(CodecError::FieldOutOfRange);
    }
    let first: u8 = (atk * 16 + def) as u8;
    let second: u8 = (spd * 16 + spc) as u8;
    Ok((first, second))
}

/// The unsigned value of two bytes, the first the more significant.
pub fn wordOf(high: u8, low: u8) -> (word: u16)
    ensures
        word == word_of(high, low),
{
    let word: u16 = (high as u16) << 8 | (low as u16);
    assert((high as u16) << 8 | (low as u16) == high * 256 + low) by (bit_vector);
    word
}

/// The value of two bytes, the first the more significant, read as a signed
/// number of sixteen bits.
pub fn signedWordOf(high: u8, low: u8) -> (word: i16)
    ensures
        word == signed_word_of(high, low),
{
    let wide: i32 = high as i32 * 256 + low as i32;
    if high >= 128 {
        (wide - 0x10000) as i16
    } else {
        wide as i16
    }
}

/// The amount that three bytes of packed decimal digits spell. A nibble that
/// is no decimal digit is rejected.
pub fn decodeMoney(first: u8, second: u8, third: u8) -> (amount: Result<u32, CodecError>)
    ensures
        match money_of(first, second, third) {
            Some(value) => amount == Ok::<u32, CodecError>(value as u32) && value <= 999_999,
            None => amount == Err::<u32, CodecError>(CodecError::MalformedMoney),
        },
{
    let bytes: [u8; 3] = [first, second, third];
    let mut amount: u32 = 0;
    let mut index: usize = 0;
    while index < 3
        invariant
            index <= 3,
            bytes@ == seq![first, second, third],
            forall|i: int| 0 <= i < index ==> is_decimal_pair(#[trigger] bytes@[i]),
            index == 0 ==> amount == 0,
            index == 1 ==> amount == decimal_pair_of(first),
            index == 2 ==> amount == decimal_pair_of(first) * 100 + decimal_pair_of(second),
            index == 3 ==> amount == decimal_pair_of(first) * 10000 + decimal_pair_of(second) * 100
                + decimal_pair_of(third),
        decreases 3 - index,
    {
        let byte: u8 = bytes[index];
        let high: u8 = byte / 16;
        let low: u8 = byte % 16;
        if high > 9 || low > 9 {
            assert(!is_decimal_pair(bytes@[index as int]));
            return Err(CodecError::MalformedMoney);
        }
        amount = amount * 100 + (high * 10 + low) as u32;
        index += 1;
    }
    assert(is_decimal_pair(bytes@[0]) && is_decimal_pair(bytes@[1]) && is_decimal_pair(bytes@[2]));
    Ok(amount)
}

} // verus!
