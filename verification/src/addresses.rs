//! Absolute byte offsets and region boundaries of a first-generation save
//! image, and the resolver for the base address of a storage box.

use vstd::prelude::*;

verus! {

// General starting addresses
pub const MONEY_ADDR: usize = 0x25F3;

pub const ID_ADDR: usize = 0x2605;

pub const NAME_ADDR: usize = 0x2598;

pub const PARTY_ADDR: usize = 0x2F2C;

pub const PC_ADDR: usize = 0x4000;

// Checksum region [start, end) and the byte that holds its result
pub const CHECKSUM_START_ADDR: usize = 0x2598;

pub const CHECKSUM_END_ADDR: usize = 0x3523;

pub const CHECKSUM_RESULT: usize = 0x3523;

// Party layout
/// Bytes between the party count and the first party record.
pub const PARTY_HEADER: usize = 0x8;

/// Distance between two party records.
pub const PARTY_STRIDE: usize = 0x2C;

/// Level of a party record, from the record's start.
pub const PARTY_LEVEL_OFF: usize = 0x21;

/// Most creatures a party holds.
pub const PARTY_CAPACITY: usize = 6;

// PC layout
/// Pokemon Species Index
pub const PC_PKMN_OFF: usize = 0x16;

/// Original Trainer Name
pub const PC_TRAINER_OFF: usize = 0x2AA;

/// Pokemon Nickname Offset
pub const PC_NICK_OFF: usize = 0x386;

/// Distance between two records of a box.
pub const PC_STRIDE: usize = 0x21;

/// Level of a boxed record, from the record's start.
pub const PC_LEVEL_OFF: usize = 0x03;

/// Distance between the bases of two neighbouring boxes of one bank.
pub const BOX_STRIDE: usize = 0x462;

/// Modulus that wraps the box stride back to the start of a bank.
pub const BOX_WRAP: usize = 0x1A4C;

/// Size of a memory bank.
pub const BANK_SIZE: usize = 0x2000;

/// Boxes held by one bank.
pub const BOXES_PER_BANK: usize = 6;

/// Boxes of a save image.
pub const BOX_COUNT: usize = 12;

/// Most creatures a box holds.
pub const BOX_CAPACITY: usize = 20;

// Pokemon data offsets
pub const NICK_OFF: usize = 0x152;

pub const HP_OFF: usize = 0x01;

pub const MOVE_OFF: usize = 0x08;

pub const PP_OFF: usize = 0x1D;

pub const OT_OFF: usize = 0x0C;

pub const OTN_OFF: usize = 0x110;

pub const EV_OFF: usize = 0x11;

pub const STAT_OFF: usize = 0x22;

pub const IV_OFF: usize = 0x1B;

/// Width of a name slot.
pub const NAME_LEN: usize = 11;

/// Length below which an image is truncated: one past the last byte that
/// decoding may read, the end of the nickname table of the last box.
pub const MIN_SAVE_LEN: usize = 0x7A4C;

/// Base address of box `i` for a layout with base address `base`, per-box
/// stride `stride`, wrap modulus `wrap`, bank size `bank` and `per_bank` boxes
/// in each bank.
pub open spec fn box_address(
    base: int,
    stride: int,
    wrap: int,
    bank: int,
    per_bank: int,
    i: int,
) -> int {
    base + (stride * i) % wrap + bank * (i / per_bank)
}

/// Base address of box `i` in a first-generation image.
pub open spec fn gen1_box_address(i: int) -> int {
    box_address(
        PC_ADDR as int,
        BOX_STRIDE as int,
        BOX_WRAP as int,
        BANK_SIZE as int,
        BOXES_PER_BANK as int,
        i,
    )
}

/// Box 0 sits at the base address, whatever the layout's other constants.
pub proof fn lemma_first_box_at_base(base: int, stride: int, wrap: int, bank: int, per_bank: int)
    requires
        wrap > 0,
        per_bank > 0,
    ensures
        box_address(base, stride, wrap, bank, per_bank, 0) == base,
{
    assert(stride * 0 == 0) by (nonlinear_arith);
    assert(bank * 0 == 0) by (nonlinear_arith);
}

/// Every box of an image lies in the PC banks, and its whole region ends
/// before `MIN_SAVE_LEN`.
pub proof fn lemma_box_region_in_image(i: int)
    requires
        0 <= i < BOX_COUNT,
    ensures
        PC_ADDR <= gen1_box_address(i),
        gen1_box_address(i) + PC_NICK_OFF + BOX_CAPACITY * NAME_LEN <= MIN_SAVE_LEN,
{
    assert(forall|k: int| 0 <= k < 12 ==> 0 <= #[trigger] ((0x462 * k) % 0x1A4C) < 0x1A4C);
    if i < 6 {
        assert(i / 6 == 0);
    } else {
        assert(i / 6 == 1);
        assert(0x462 * i <= 0x462 * 11);
        assert((0x462 * i) % 0x1A4C == 0x462 * i - 0x1A4C);
    }
}

/// Computes the base address of storage box `index`.
pub fn boxAddress(index: usize) -> (addr: usize)
    requires
        index < BOX_COUNT,
    ensures
        addr == gen1_box_address(index as int),
        PC_ADDR <= addr,
        addr + PC_NICK_OFF + BOX_CAPACITY * NAME_LEN <= MIN_SAVE_LEN,
{
    proof {
        lemma_box_region_in_image(index as int);
    }
    PC_ADDR + (BOX_STRIDE * index) % BOX_WRAP + BANK_SIZE * (index / BOXES_PER_BANK)
}

} // verus!
