//! The decoder of a save image: from the raw bytes to the trainer, the party
//! and the storage boxes, with every creature as the image stores it.
//! Species and moves are numbers here; their names come from a catalog.

use vstd::prelude::*;
use crate::addresses::{
    BOX_CAPACITY,
    BOX_COUNT,
    EV_OFF,
    HP_OFF,
    ID_ADDR,
    IV_OFF,
    MIN_SAVE_LEN,
    MONEY_ADDR,
    MOVE_OFF,
    NAME_ADDR,
    NAME_LEN,
    NICK_OFF,
    OTN_OFF,
    OT_OFF,
    PARTY_ADDR,
    PARTY_CAPACITY,
    PARTY_HEADER,
    PARTY_LEVEL_OFF,
    PARTY_STRIDE,
    PC_LEVEL_OFF,
    PC_NICK_OFF,
    PC_PKMN_OFF,
    PC_STRIDE,
    PC_TRAINER_OFF,
    PP_OFF,
    STAT_OFF,
    CHECKSUM_END_ADDR,
    CHECKSUM_RESULT,
    CHECKSUM_START_ADDR,
    boxAddress,
    gen1_box_address,
    lemma_box_region_in_image,
};
use crate::bitfield::{
    MAX_IV,
    MAX_PP,
    MAX_PP_UP,
    decodeIVs,
    decodeMoney,
    decodePP,
    ivs_of,
    lemma_ivs_in_range,
    lemma_money_in_range,
    money_of,
    pp_of,
    pp_up_of,
    signedWordOf,
    signed_word_of,
    wordOf,
    word_of,
};
use crate::errors::CodecError;
use crate::utils::{
    decode_text,
    has_integrity,
    integrityCheck,
    lemma_checksum_ignores_other_bytes,
    textDecode,
};

verus! {

/// A move slot as the image stores it: the number of the move, 0 for an
/// empty slot, the current PP and the PP-Up count.
#[derive(Debug, Clone, Copy, PartialEq, Eq, Structural)]
pub struct MoveSlot {
    pub index: u16,
    pub pp: u16,
    pub ppup: u8,
}

/// The trainer of a save.
#[derive(Debug)]
pub struct Trainer {
    pub name: String,
    pub id: u16,
    pub money: u32,
}

/// What a trainer is.
pub struct TrainerView {
    pub name: Seq<char>,
    pub id: u16,
    pub money: u32,
}

impl View for Trainer {
    type V = TrainerView;

    open spec fn view(&self) -> TrainerView {
        TrainerView { name: self.name@, id: self.id, money: self.money }
    }
}

/// A creature as the image stores it.
#[derive(Debug)]
pub struct CreatureRecord {
    pub species: i16,
    pub level: i8,
    pub nickname: String,
    pub moves: [MoveSlot; 4],
    /// Original Trainer ID
    pub ot: u16,
    /// Original Trainer Name
    pub otn: String,
    pub hp: i16,
    pub evs: [u16; 5],
    pub ivs: [u16; 5],
    pub stats: [u16; 5],
}

/// What a stored creature is.
pub struct CreatureView {
    pub species: i16,
    pub level: i8,
    pub nickname: Seq<char>,
    pub moves: Seq<MoveSlot>,
    pub ot: u16,
    pub otn: Seq<char>,
    pub hp: i16,
    pub evs: Seq<u16>,
    pub ivs: Seq<u16>,
    pub stats: Seq<u16>,
}

impl View for CreatureRecord {
    type V = CreatureView;

    open spec fn view(&self) -> CreatureView {
        CreatureView {
            species: self.species,
            level: self.level,
            nickname: self.nickname@,
            moves: self.moves@,
            ot: self.ot,
            otn: self.otn@,
            hp: self.hp,
            evs: self.evs@,
            ivs: self.ivs@,
            stats: self.stats@,
        }
    }
}

/// What a list of stored creatures is.
pub open spec fn records_view(records: Seq<CreatureRecord>) -> Seq<CreatureView> {
    Seq::new(records.len(), |i: int| records[i]@)
}

/// What a list of boxes is.
pub open spec fn boxes_view(boxes: Seq<Vec<CreatureRecord>>) -> Seq<Seq<CreatureView>> {
    Seq::new(boxes.len(), |i: int| records_view(boxes[i]@))
}

/// The read model of a save image.
#[derive(Debug)]
pub struct SaveModel {
    pub trainer: Trainer,
    pub party: Vec<CreatureRecord>,
    pub boxes: Vec<Vec<CreatureRecord>>,
}

/// What a save holds.
pub struct SaveModelView {
    pub trainer: TrainerView,
    pub party: Seq<CreatureView>,
    pub boxes: Seq<Seq<CreatureView>>,
}

impl View for SaveModel {
    type V = SaveModelView;

    open spec fn view(&self) -> SaveModelView {
        SaveModelView {
            trainer: self.trainer@,
            party: records_view(self.party@),
            boxes: boxes_view(self.boxes@),
        }
    }
}

/// What decoding gives: the read model, and whether the checksum of the
/// image does not match. A mismatch does not stand in the way of the model.
#[derive(Debug)]
pub struct Decoded {
    pub model: SaveModel,
    pub checksum_mismatch: bool,
}

/// Whether an image holds the `count` bytes that start at `addr`.
pub open spec fn holds(image: Seq<u8>, addr: int, count: int) -> bool {
    addr + count <= image.len()
}

/// The eleven codes of the name slot at `addr`.
pub open spec fn codes_at(image: Seq<u8>, addr: int) -> Seq<i16> {
    Seq::new(11, |i: int| image[addr + i] as i16)
}

/// The text of the name slot at `addr`.
pub open spec fn name_at(image: Seq<u8>, addr: int) -> Seq<char> {
    decode_text(codes_at(image, addr))
}

/// The word of sixteen bits at `addr`, the first byte the more significant.
pub open spec fn word_at(image: Seq<u8>, addr: int) -> u16 {
    word_of(image[addr], image[addr + 1]) as u16
}

/// The five words that start at `addr`.
pub open spec fn words_at(image: Seq<u8>, addr: int) -> Seq<u16> {
    Seq::new(5, |k: int| word_at(image, addr + 2 * k))
}

/// A byte read as a signed number.
pub open spec fn signed_byte(byte: u8) -> i8 {
    if byte >= 128 {
        (byte - 256) as i8
    } else {
        byte as i8
    }
}

/// Move slot `k` of the creature whose record starts at `addr`.
pub open spec fn slot_at(image: Seq<u8>, addr: int, k: int) -> MoveSlot {
    MoveSlot {
        index: image[addr + MOVE_OFF + k] as u16,
        pp: pp_of(image[addr + PP_OFF + k]) as u16,
        ppup: pp_up_of(image[addr + PP_OFF + k]) as u8,
    }
}

/// The four move slots of the creature whose record starts at `addr`.
pub open spec fn slots_at(image: Seq<u8>, addr: int) -> Seq<MoveSlot> {
    Seq::new(4, |k: int| slot_at(image, addr, k))
}

/// The individual values of the creature whose record starts at `addr`.
pub open spec fn ivs_at(image: Seq<u8>, addr: int) -> Seq<u16> {
    ivs_of(image[addr + IV_OFF], image[addr + IV_OFF + 1])
}

/// The creature whose record starts at `addr`, with its level at `level`,
/// its nickname at `nick` and the name of its original trainer at `otn`.
/// A record in a box holds no battle stats: there they are all 0.
pub open spec fn record_at(
    image: Seq<u8>,
    addr: int,
    level: int,
    nick: int,
    otn: int,
    boxed: bool,
) -> CreatureView {
    CreatureView {
        species: image[addr] as i16,
        level: signed_byte(image[level]),
        nickname: name_at(image, nick),
        moves: slots_at(image, addr),
        ot: word_at(image, addr + OT_OFF),
        otn: name_at(image, otn),
        hp: signed_word_of(image[addr + HP_OFF], image[addr + HP_OFF + 1]) as i16,
        evs: words_at(image, addr + EV_OFF),
        ivs: ivs_at(image, addr),
        stats: if boxed {
            seq![0u16, 0u16, 0u16, 0u16, 0u16]
        } else {
            words_at(image, addr + STAT_OFF)
        },
    }
}

/// Where record `i` of the party starts.
pub open spec fn party_record_addr(i: int) -> int {
    PARTY_ADDR + PARTY_HEADER + i * PARTY_STRIDE
}

/// Creature `i` of the party.
pub open spec fn party_record(image: Seq<u8>, i: int) -> CreatureView {
    record_at(
        image,
        party_record_addr(i),
        party_record_addr(i) + PARTY_LEVEL_OFF,
        PARTY_ADDR + NICK_OFF + i * NAME_LEN,
        party_record_addr(i) + OTN_OFF,
        false,
    )
}

/// Where record `i` of box `b` starts.
pub open spec fn boxed_record_addr(b: int, i: int) -> int {
    gen1_box_address(b) + PC_PKMN_OFF + PC_STRIDE * i
}

/// Creature `i` of box `b`.
pub open spec fn boxed_record(image: Seq<u8>, b: int, i: int) -> CreatureView {
    record_at(
        image,
        boxed_record_addr(b, i),
        boxed_record_addr(b, i) + PC_LEVEL_OFF,
        gen1_box_address(b) + PC_NICK_OFF + i * NAME_LEN,
        gen1_box_address(b) + PC_TRAINER_OFF + i * NAME_LEN,
        true,
    )
}

/// The smaller of a stored count and the capacity that bounds it.
pub open spec fn capped(count: u8, capacity: usize) -> int {
    if count as int > capacity as int {
        capacity as int
    } else {
        count as int
    }
}

/// The party of an image: as many creatures as its count byte says, but no
/// more than six.
pub open spec fn decoded_party(image: Seq<u8>) -> Seq<CreatureView> {
    Seq::new(
        capped(image[PARTY_ADDR as int], PARTY_CAPACITY) as nat,
        |i: int| party_record(image, i),
    )
}

/// Box `b` of an image: as many creatures as the byte at its base address
/// says, but no more than twenty.
pub open spec fn decoded_box(image: Seq<u8>, b: int) -> Seq<CreatureView> {
    Seq::new(
        capped(image[gen1_box_address(b)], BOX_CAPACITY) as nat,
        |i: int| boxed_record(image, b, i),
    )
}

/// The twelve boxes of an image.
pub open spec fn decoded_boxes(image: Seq<u8>) -> Seq<Seq<CreatureView>> {
    Seq::new(BOX_COUNT as nat, |b: int| decoded_box(image, b))
}

/// The money of an image, if it is stored as decimal digits.
pub open spec fn decoded_money(image: Seq<u8>) -> Option<int> {
    money_of(image[MONEY_ADDR as int], image[MONEY_ADDR + 1], image[MONEY_ADDR + 2])
}

/// The read model of an image: `Truncated` for an image of less than
/// `MIN_SAVE_LEN` bytes, `MalformedMoney` for one whose money is not stored
/// as decimal digits, and else the trainer, the party and the boxes.
pub open spec fn decoded(image: Seq<u8>) -> Result<SaveModelView, CodecError> {
    if image.len() < MIN_SAVE_LEN {
        Err(CodecError::Truncated)
    } else if decoded_money(image) is None {
        Err(CodecError::MalformedMoney)
    } else {
        Ok(
            SaveModelView {
                trainer: TrainerView {
                    name: name_at(image, NAME_ADDR as int),
                    id: word_at(image, ID_ADDR as int),
                    money: decoded_money(image)->Some_0 as u32,
                },
                party: decoded_party(image),
                boxes: decoded_boxes(image),
            },
        )
    }
}

/// Whether two images hold the same bytes from `low` up to `high`.
pub open spec fn same_bytes(first: Seq<u8>, second: Seq<u8>, low: int, high: int) -> bool {
    forall|a: int| low <= a < high ==> first[a] == second[a]
}

/// A record read from bytes that two images share is the same in both.
pub proof fn lemma_record_of_same_bytes(
    first: Seq<u8>,
    second: Seq<u8>,
    low: int,
    high: int,
    addr: int,
    level: int,
    nick: int,
    otn: int,
    boxed: bool,
)
    requires
        same_bytes(first, second, low, high),
        low <= addr,
        addr + STAT_OFF + 10 <= high,
        low <= level < high,
        low <= nick,
        nick + NAME_LEN <= high,
        low <= otn,
        otn + NAME_LEN <= high,
    ensures
        record_at(first, addr, level, nick, otn, boxed) == record_at(
            second,
            addr,
            level,
            nick,
            otn,
            boxed,
        ),
{
    assert(codes_at(first, nick) =~= codes_at(second, nick));
    assert(codes_at(first, otn) =~= codes_at(second, otn));
    assert(slots_at(first, addr) =~= slots_at(second, addr));
    assert(words_at(first, addr + EV_OFF) =~= words_at(second, addr + EV_OFF));
    assert(words_at(first, addr + STAT_OFF) =~= words_at(second, addr + STAT_OFF));
}

/// The model does not depend on the byte that stores the checksum: an image
/// with any other byte there decodes to the same trainer, party and boxes.
pub proof fn lemma_model_ignores_checksum_byte(image: Seq<u8>, stored: u8)
    requires
        image.len() > CHECKSUM_RESULT,
    ensures
        decoded(image.update(CHECKSUM_RESULT as int, stored)) == decoded(image),
{
    let other = image.update(CHECKSUM_RESULT as int, stored);
    if image.len() >= MIN_SAVE_LEN {
        assert(same_bytes(other, image, 0, CHECKSUM_RESULT as int));
        assert(same_bytes(other, image, CHECKSUM_RESULT + 1, image.len() as int));
        assert(codes_at(other, NAME_ADDR as int) =~= codes_at(image, NAME_ADDR as int));
        assert(decoded_party(other) =~= decoded_party(image)) by {
            assert forall|i: int| 0 <= i < PARTY_CAPACITY implies party_record(other, i)
                == party_record(image, i) by {
                lemma_record_of_same_bytes(
                    other,
                    image,
                    0,
                    CHECKSUM_RESULT as int,
                    party_record_addr(i),
                    party_record_addr(i) + PARTY_LEVEL_OFF,
                    PARTY_ADDR + NICK_OFF + i * NAME_LEN,
                    party_record_addr(i) + OTN_OFF,
                    false,
                );
            }
        }
        assert forall|b: int| 0 <= b < BOX_COUNT implies decoded_box(other, b) == decoded_box(
            image,
            b,
        ) by {
            lemma_box_region_in_image(b);
            assert forall|i: int| 0 <= i < BOX_CAPACITY implies boxed_record(other, b, i)
                == boxed_record(image, b, i) by {
                lemma_record_of_same_bytes(
                    other,
                    image,
                    CHECKSUM_RESULT + 1,
                    image.len() as int,
                    boxed_record_addr(b, i),
                    boxed_record_addr(b, i) + PC_LEVEL_OFF,
                    gen1_box_address(b) + PC_NICK_OFF + i * NAME_LEN,
                    gen1_box_address(b) + PC_TRAINER_OFF + i * NAME_LEN,
                    true,
                );
            }
            assert(decoded_box(other, b) =~= decoded_box(image, b));
        }
        assert(decoded_boxes(other) =~= decoded_boxes(image));
    }
}

/// Decoding and validating are independent: an image that decodes, with a
/// checksum byte that is made wrong, still decodes to the same model, and
/// its checksum no longer matches.
pub proof fn lemma_corrupted_checksum_still_decodes(image: Seq<u8>, stored: u8)
    requires
        decoded(image) is Ok,
        has_integrity(image),
        stored != image[CHECKSUM_RESULT as int],
    ensures
        decoded(image.update(CHECKSUM_RESULT as int, stored)) == decoded(image),
        !has_integrity(image.update(CHECKSUM_RESULT as int, stored)),
{
    lemma_model_ignores_checksum_byte(image, stored);
    lemma_checksum_ignores_other_bytes(
        image,
        CHECKSUM_START_ADDR as int,
        CHECKSUM_END_ADDR as int,
        CHECKSUM_RESULT as int,
        stored,
    );
}

/// Whether a stored creature has what every record has: names of eleven
/// characters, four move slots with a PP of at most 63 and a PP-Up count of
/// at most 3, five values in each block of stats, and individual values of
/// at most 15, of which the one for HP is made of the lowest bits of the
/// other four.
pub open spec fn record_in_range(record: CreatureView) -> bool {
    &&& record.nickname.len() == NAME_LEN
    &&& record.otn.len() == NAME_LEN
    &&& record.moves.len() == 4
    &&& forall|k: int|
        0 <= k < 4 ==> (#[trigger] record.moves[k]).pp <= MAX_PP && record.moves[k].ppup
            <= MAX_PP_UP
    &&& record.evs.len() == 5
    &&& record.stats.len() == 5
    &&& record.ivs.len() == 5
    &&& forall|k: int| 0 <= k < 5 ==> #[trigger] record.ivs[k] <= MAX_IV
    &&& record.ivs[0] == (record.ivs[1] % 2) * 8 + (record.ivs[2] % 2) * 4 + (record.ivs[3] % 2)
        * 2 + record.ivs[4] % 2
}

/// Whether a model has what every model has: a trainer's name of eleven
/// characters, money of at most 999,999, a party of at most six creatures
/// and twelve boxes of at most twenty, and every creature in range.
pub open spec fn model_in_range(model: SaveModelView) -> bool {
    &&& model.trainer.name.len() == NAME_LEN
    &&& model.trainer.money <= 999_999
    &&& model.party.len() <= PARTY_CAPACITY
    &&& forall|i: int| 0 <= i < model.party.len() ==> record_in_range(#[trigger] model.party[i])
    &&& model.boxes.len() == BOX_COUNT
    &&& forall|b: int|
        0 <= b < model.boxes.len() ==> (#[trigger] model.boxes[b]).len() <= BOX_CAPACITY
    &&& forall|b: int, i: int|
        0 <= b < model.boxes.len() && 0 <= i < model.boxes[b].len() ==> record_in_range(
            #[trigger] model.boxes[b][i],
        )
}

/// Every record of an image is in range, whatever its bytes are.
pub proof fn lemma_record_in_range(
    image: Seq<u8>,
    addr: int,
    level: int,
    nick: int,
    otn: int,
    boxed: bool,
)
    ensures
        record_in_range(record_at(image, addr, level, nick, otn, boxed)),
{
    lemma_ivs_in_range(image[addr + IV_OFF], image[addr + IV_OFF + 1]);
}

/// Every model that decoding gives is in range.
pub proof fn lemma_decoded_in_range(image: Seq<u8>)
    ensures
        decoded(image) matches Ok(model) ==> model_in_range(model),
{
    if decoded(image) is Ok {
        let model = decoded(image)->Ok_0;
        lemma_money_in_range(
            image[MONEY_ADDR as int],
            image[MONEY_ADDR + 1],
            image[MONEY_ADDR + 2],
        );
        assert forall|i: int| 0 <= i < model.party.len() implies record_in_range(
            #[trigger] model.party[i],
        ) by {
            lemma_record_in_range(
                image,
                party_record_addr(i),
                party_record_addr(i) + PARTY_LEVEL_OFF,
                PARTY_ADDR + NICK_OFF + i * NAME_LEN,
                party_record_addr(i) + OTN_OFF,
                false,
            );
        }
        assert forall|b: int, i: int|
            0 <= b < model.boxes.len() && 0 <= i < model.boxes[b].len() implies record_in_range(
            #[trigger] model.boxes[b][i],
        ) by {
            lemma_record_in_range(
                image,
                boxed_record_addr(b, i),
                boxed_record_addr(b, i) + PC_LEVEL_OFF,
                gen1_box_address(b) + PC_NICK_OFF + i * NAME_LEN,
                gen1_box_address(b) + PC_TRAINER_OFF + i * NAME_LEN,
                true,
            );
        }
    }
}

/// Whether an image holds the `count` bytes that start at `addr`.
pub fn inside(image: &Vec<u8>, addr: usize, count: usize) -> (held: bool)
    ensures
        held == holds(image@, addr as int, count as int),
        held ==> addr + count <= usize::MAX,
{
    count <= image.len() && addr <= image.len() - count
}

/// The eleven codes of the name slot at `addr`.
pub(crate) fn codesAt(image: &Vec<u8>, addr: usize) -> (codes: [i16; 11])
    requires
        addr + NAME_LEN <= image.len(),
    ensures
        codes@ == codes_at(image@, addr as int),
{
    let mut codes: [i16; 11] = [0;11];
    let mut num: usize = 0;
    while num < 11
        invariant
            num <= 11,
            addr + NAME_LEN <= image.len(),
            forall|i: int| 0 <= i < num ==> codes@[i] == image@[addr + i] as i16,
        decreases 11 - num,
    {
        codes[num] = image[addr + num] as i16;
        num += 1;
    }
    assert(codes@ =~= codes_at(image@, addr as int));
    codes
}

/// The text of the name slot at `addr`.
pub(crate) fn nameAt(image: &Vec<u8>, addr: usize) -> (name: String)
    requires
        addr + NAME_LEN <= image.len(),
    ensures
        name@ == name_at(image@, addr as int),
{
    textDecode(&codesAt(image, addr))
}

/// The word of sixteen bits at `addr`, the first byte the more significant.
pub(crate) fn wordAt(image: &Vec<u8>, addr: usize) -> (word: u16)
    requires
        addr + 2 <= image.len(),
    ensures
        word == word_at(image@, addr as int),
{
    wordOf(image[addr], image[addr + 1])
}

/// The five words that start at `addr`.
pub(crate) fn wordsAt(image: &Vec<u8>, addr: usize) -> (words: [u16; 5])
    requires
        addr + 10 <= image.len(),
    ensures
        words@ == words_at(image@, addr as int),
{
    let mut words: [u16; 5] = [0x0;5];
    let mut stat: usize = 0;
    while stat < 5
        invariant
            stat <= 5,
            addr + 10 <= image.len(),
            forall|k: int| 0 <= k < stat ==> words@[k] == word_at(image@, addr + 2 * k),
        decreases 5 - stat,
    {
        words[stat] = wordAt(image, addr + stat * 2);
        stat += 1;
    }
    assert(words@ =~= words_at(image@, addr as int));
    words
}

/// A byte read as a signed number.
pub fn signedByte(byte: u8) -> (value: i8)
    ensures
        value == signed_byte(byte),
{
    if byte >= 128 {
        (byte as i16 - 256) as i8
    } else {
        byte as i8
    }
}

/// The four move slots of the creature whose record starts at `addr`.
pub(crate) fn slotsAt(image: &Vec<u8>, addr: usize) -> (slots: [MoveSlot; 4])
    requires
        addr + PP_OFF + 4 <= image.len(),
    ensures
        slots@ == slots_at(image@, addr as int),
{
    let mut slots: [MoveSlot; 4] = [MoveSlot { index: 0, pp: 0, ppup: 0 };4];
    let mut k: usize = 0;
    while k < 4
        invariant
            k <= 4,
            addr + PP_OFF + 4 <= image.len(),
            forall|j: int| 0 <= j < k ==> slots@[j] == slot_at(image@, addr as int, j),
        decreases 4 - k,
    {
        let (ppup, pp) = decodePP(image[addr + PP_OFF + k]);
        slots[k] = MoveSlot { index: image[addr + MOVE_OFF + k] as u16, pp: pp as u16, ppup };
        k += 1;
    }
    assert(slots@ =~= slots_at(image@, addr as int));
    slots
}

/// The creature whose record starts at `addr`, with its level at `level`,
/// its nickname at `nick` and the name of its original trainer at `otn`.
pub(crate) fn recordAt(
    image: &Vec<u8>,
    addr: usize,
    level: usize,
    nick: usize,
    otn: usize,
    boxed: bool,
) -> (record: CreatureRecord)
    requires
        addr + PP_OFF + 4 <= image.len(),
        !boxed ==> addr + STAT_OFF + 10 <= image.len(),
        level < image.len(),
        nick + NAME_LEN <= image.len(),
        otn + NAME_LEN <= image.len(),
    ensures
        record@ == record_at(image@, addr as int, level as int, nick as int, otn as int, boxed),
{
    let stats: [u16; 5] = if boxed {
        let blank: [u16; 5] = [0, 0, 0, 0, 0];
        assert(blank@ =~= seq![0u16, 0u16, 0u16, 0u16, 0u16]);
        blank
    } else {
        wordsAt(image, addr + STAT_OFF)
    };
    CreatureRecord {
        species: image[addr] as i16,
        level: signedByte(image[level]),
        nickname: nameAt(image, nick),
        moves: slotsAt(image, addr),
        ot: wordAt(image, addr + OT_OFF),
        otn: nameAt(image, otn),
        hp: signedWordOf(image[addr + HP_OFF], image[addr + HP_OFF + 1]),
        evs: wordsAt(image, addr + EV_OFF),
        ivs: decodeIVs(image[addr + IV_OFF], image[addr + IV_OFF + 1]),
        stats,
    }
}

/// The smaller of a stored count and the capacity that bounds it.
pub fn cappedCount(count: u8, capacity: usize) -> (capped_count: usize)
    ensures
        capped_count == capped(count, capacity),
{
    if count as usize > capacity {
        capacity
    } else {
        count as usize
    }
}

/// Decodes the party of an image.
pub(crate) fn decodeParty(image: &Vec<u8>) -> (party: Vec<CreatureRecord>)
    requires
        image.len() >= MIN_SAVE_LEN,
    ensures
        records_view(party@) == decoded_party(image@),
{
    let count: usize = cappedCount(image[PARTY_ADDR], PARTY_CAPACITY);
    let mut party: Vec<CreatureRecord> = Vec::new();
    let mut creature: usize = 0;
    while creature < count
        invariant
            creature <= count <= PARTY_CAPACITY,
            image.len() >= MIN_SAVE_LEN,
            party@.len() == creature,
            forall|i: int| 0 <= i < creature ==> party@[i]@ == party_record(image@, i),
        decreases count - creature,
    {
        let pkmnAddress: usize = PARTY_ADDR + PARTY_HEADER + (creature * PARTY_STRIDE);
        let nickAddress: usize = PARTY_ADDR + NICK_OFF + (creature * NAME_LEN);
        party.push(
            recordAt(
                image,
                pkmnAddress,
                pkmnAddress + PARTY_LEVEL_OFF,
                nickAddress,
                pkmnAddress + OTN_OFF,
                false,
            ),
        );
        creature += 1;
    }
    assert(records_view(party@) =~= decoded_party(image@));
    party
}

/// Decodes box `pcBox` of an image.
pub(crate) fn decodeBox(image: &Vec<u8>, pcBox: usize) -> (records: Vec<CreatureRecord>)
    requires
        image.len() >= MIN_SAVE_LEN,
        pcBox < BOX_COUNT,
    ensures
        records_view(records@) == decoded_box(image@, pcBox as int),
{
    let currAddr: usize = boxAddress(pcBox);
    let pkmnInBox: usize = cappedCount(image[currAddr], BOX_CAPACITY);
    let mut currBox: Vec<CreatureRecord> = Vec::new();
    let mut creature: usize = 0;
    while creature < pkmnInBox
        invariant
            creature <= pkmnInBox <= BOX_CAPACITY,
            image.len() >= MIN_SAVE_LEN,
            currAddr == gen1_box_address(pcBox as int),
            currAddr + PC_NICK_OFF + BOX_CAPACITY * NAME_LEN <= MIN_SAVE_LEN,
            currBox@.len() == creature,
            forall|i: int| 0 <= i < creature ==> currBox@[i]@ == boxed_record(
                image@,
                pcBox as int,
                i,
            ),
        decreases pkmnInBox - creature,
    {
        let pkmnAddress: usize = currAddr + PC_PKMN_OFF + (PC_STRIDE * creature);
        let nickAddress: usize = currAddr + PC_NICK_OFF + (creature * NAME_LEN);
        let otnAddress: usize = currAddr + PC_TRAINER_OFF + (creature * NAME_LEN);
        currBox.push(
            recordAt(image, pkmnAddress, pkmnAddress + PC_LEVEL_OFF, nickAddress, otnAddress, true),
        );
        creature += 1;
    }
    assert(records_view(currBox@) =~= decoded_box(image@, pcBox as int));
    currBox
}

/// Decodes the twelve boxes of an image.
pub(crate) fn decodeBoxes(image: &Vec<u8>) -> (boxes: Vec<Vec<CreatureRecord>>)
    requires
        image.len() >= MIN_SAVE_LEN,
    ensures
        boxes_view(boxes@) == decoded_boxes(image@),
{
    let mut boxes: Vec<Vec<CreatureRecord>> = Vec::new();
    let mut pcBox: usize = 0;
    while pcBox < BOX_COUNT
        invariant
            pcBox <= BOX_COUNT,
            image.len() >= MIN_SAVE_LEN,
            boxes@.len() == pcBox,
            forall|b: int| 0 <= b < pcBox ==> records_view(boxes@[b]@) == decoded_box(image@, b),
        decreases BOX_COUNT - pcBox,
    {
        boxes.push(decodeBox(image, pcBox));
        pcBox += 1;
    }
    assert(boxes_view(boxes@) =~= decoded_boxes(image@));
    boxes
}

/// Decodes the money of an image.
pub(crate) fn decodeMoneyAt(image: &Vec<u8>) -> (money: Result<u32, CodecError>)
    requires
        image.len() >= MIN_SAVE_LEN,
    ensures
        match decoded_money(image@) {
            Some(amount) => money == Ok::<u32, CodecError>(amount as u32) && amount <= 999_999,
            None => money == Err::<u32, CodecError>(CodecError::MalformedMoney),
        },
{
    decodeMoney(image[MONEY_ADDR], image[MONEY_ADDR + 1], image[MONEY_ADDR + 2])
}

/// Decodes a save image into its read model, and validates its checksum.
/// An image of less than `MIN_SAVE_LEN` bytes is `Truncated`; no byte past
/// the end of the image is ever read. A checksum that does not match is
/// reported beside the model and does not stand in its way.
pub fn decode(image: &Vec<u8>) -> (result: Result<Decoded, CodecError>)
    ensures
        match decoded(image@) {
            Ok(model) => result is Ok && result->Ok_0.model@ == model
                && result->Ok_0.checksum_mismatch == !has_integrity(image@),
            Err(error) => result == Err::<Decoded, CodecError>(error),
        },
        result == Err::<Decoded, CodecError>(CodecError::Truncated) <==> image.len() < MIN_SAVE_LEN,
        result is Ok ==> model_in_range(result->Ok_0.model@),
{
    proof {
        lemma_decoded_in_range(image@);
    }
    if image.len() < MIN_SAVE_LEN {
        return Err(CodecError::Truncated);
    }
    let money: u32 = match decodeMoneyAt(image) {
        Ok(amount) => amount,
        Err(error) => {
            return Err(error);
        },
    };
    let trainer = Trainer { name: nameAt(image, NAME_ADDR), id: wordAt(image, ID_ADDR), money };
    let party = decodeParty(image);
    let boxes = decodeBoxes(image);
    let checksum_mismatch: bool = !integrityCheck(image);
    Ok(Decoded { model: SaveModel { trainer, party, boxes }, checksum_mismatch })
}

} // verus!
