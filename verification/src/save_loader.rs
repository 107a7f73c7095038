//! A save: the trainer, the party and the PC boxes, loaded from the bytes of
//! a save image and edited through range-checked setters.

use vstd::prelude::*;
use crate::addresses::{
    CHECKSUM_RESULT,
    EV_OFF,
    HP_OFF,
    ID_ADDR,
    IV_OFF,
    MIN_SAVE_LEN,
    MONEY_ADDR,
    NAME_ADDR,
    NAME_LEN,
    OT_OFF,
    PP_OFF,
    STAT_OFF,
};
use crate::bitfield::{MAX_IV, decodeIVs, decodeMoney, signedWordOf, signed_word_of};
use crate::creature_data::pokemon::{
    BLANK_SPECIES,
    MAX_LEVEL,
    MAX_NAME_BYTES,
    MIN_LEVEL,
    Pokemon,
    PokemonView,
    blank_pokemon,
    details_text,
    getPokemonMoves,
    level_over_text,
    level_under_text,
    moves_view,
    nickname_error_text,
    otn_error_text,
};
use crate::creature_data::pokemon_move::Move;
use crate::creature_data::pokemon_species::{
    SpeciesView,
    species_entry,
    species_not_found_text,
};
use crate::creature_data::pokemon_stats::{ATK, DEF, HP, SPC, SPD, iv_error_text};
use crate::decoder::{
    codesAt,
    codes_at,
    decode,
    decodeBoxes,
    decodeParty,
    decoded,
    decoded_boxes,
    decoded_money,
    decoded_party,
    holds,
    inside,
    ivs_at,
    lemma_corrupted_checksum_still_decodes,
    lemma_model_ignores_checksum_byte,
    nameAt,
    name_at,
    slots_at,
    wordAt,
    word_at,
    wordsAt,
    words_at,
};
use crate::errors::CodecError;
use crate::resolve::{
    party_view,
    pc_view,
    resolveAll,
    resolveBoxes,
    resolved_all,
    resolved_boxes,
    resolved_moves,
};
use crate::text::{byteLength, byte_length, decimal, pushDecimal};
use crate::utils::{error_text, formatError, has_integrity};

verus! {

/// Most bytes that the name of a trainer takes.
pub const MAX_TRAINER_BYTES: usize = 7;

/// Most money that a trainer holds.
pub const MAX_MONEY: u32 = 999_999;

/// Most creatures of the party that `print` shows.
pub const SHOWN_PARTY: usize = 5;

/// What a save is.
pub struct SaveView {
    pub trainer: Seq<char>,
    pub money: u32,
    pub id: u16,
    pub party: Seq<PokemonView>,
    pub pc: Seq<Seq<PokemonView>>,
}

impl SaveView {
    /// Whether a slot of the party holds a creature.
    pub open spec fn has_member(self, slot: usize) -> bool {
        slot < self.party.len()
    }

    /// The creature in a slot of the party.
    pub open spec fn member(self, slot: usize) -> PokemonView {
        self.party[slot as int]
    }

    /// This save with the creature in one slot of its party replaced.
    pub open spec fn with_member(self, slot: usize, member: PokemonView) -> SaveView {
        SaveView { party: self.party.update(slot as int, member), ..self }
    }
}

/// The text that `{:?}` gives for a save.
pub uninterp spec fn debug_text(save: SaveView) -> Seq<char>;

/// The blank save: a trainer called Null with no money and the ID 0, a party
/// of one blank Pokemon of the given species, and no boxes.
pub open spec fn blank_save(species: SpeciesView) -> SaveView {
    SaveView {
        trainer: "Null"@,
        money: 0,
        id: 0,
        party: seq![blank_pokemon(species)],
        pc: Seq::empty(),
    }
}

/// The message for an image that ends before a field that is read.
pub open spec fn truncated_text() -> Seq<char> {
    error_text(CodecError::Truncated.message_text())
}

/// The save that an image and the two catalogs give, or the message that
/// says why there is none: the message of the error that stops decoding,
/// or else the message of the first lookup that fails, the PC boxes looked
/// up before the party. The checksum of the image has no part in it.
pub open spec fn loaded(image: Seq<u8>, species: Seq<char>, moves: Seq<char>) -> Result<
    SaveView,
    Seq<char>,
> {
    match decoded(image) {
        Err(error) => Err(error_text(error.message_text())),
        Ok(model) => match resolved_boxes(model.boxes, species, moves) {
            Err(error) => Err(error),
            Ok(pc) => match resolved_all(model.party, species, moves) {
                Err(error) => Err(error),
                Ok(party) => Ok(
                    SaveView {
                        trainer: model.trainer.name,
                        money: model.trainer.money,
                        id: model.trainer.id,
                        party,
                        pc,
                    },
                ),
            },
        },
    }
}

/// Loading and validating are independent: an image with any other byte
/// in the place of its checksum loads to the same save, or fails with the
/// same message.
pub proof fn lemma_load_ignores_checksum_byte(
    image: Seq<u8>,
    stored: u8,
    species: Seq<char>,
    moves: Seq<char>,
)
    requires
        image.len() > CHECKSUM_RESULT,
    ensures
        loaded(image.update(CHECKSUM_RESULT as int, stored), species, moves) == loaded(
            image,
            species,
            moves,
        ),
{
    lemma_model_ignores_checksum_byte(image, stored);
}

/// An image that loads, with a checksum byte that is made wrong, still
/// loads to the same save, and its checksum no longer matches.
pub proof fn lemma_corrupted_checksum_still_loads(
    image: Seq<u8>,
    stored: u8,
    species: Seq<char>,
    moves: Seq<char>,
)
    requires
        loaded(image, species, moves) is Ok,
        has_integrity(image),
        stored != image[CHECKSUM_RESULT as int],
    ensures
        loaded(image.update(CHECKSUM_RESULT as int, stored), species, moves) == loaded(
            image,
            species,
            moves,
        ),
        !has_integrity(image.update(CHECKSUM_RESULT as int, stored)),
{
    lemma_corrupted_checksum_still_decodes(image, stored);
}

/// The message that rejects the name of a trainer of more than seven bytes.
pub open spec fn trainer_name_error_text(name: Seq<char>) -> Seq<char> {
    error_text("Name \""@ + name + "\" is over 7 characters."@)
}

/// The message that rejects more money than 999,999.
pub open spec fn money_error_text(amount: u32) -> Seq<char> {
    error_text(
        "Amount \""@ + decimal(amount as nat) + "\" is over allowed maximum 999,999."@,
    )
}

/// The message for a party slot that holds no creature.
pub open spec fn no_pokemon_text(slot: usize) -> Seq<char> {
    error_text("There is no Pokemon in party slot "@ + decimal(slot as nat))
}

/// The text that shows the first `count` creatures of a party, a line
/// break after each.
pub open spec fn party_text(party: Seq<PokemonView>, count: nat) -> Seq<char>
    decreases count,
{
    if count == 0 {
        Seq::empty()
    } else {
        party_text(party, (count - 1) as nat) + details_text(party[count - 1]) + "\n"@
    }
}

/// Number of creatures that `print` shows: those of the party, but no more
/// than five.
pub open spec fn shown_count(save: SaveView) -> nat {
    if save.party.len() > SHOWN_PARTY {
        SHOWN_PARTY as nat
    } else {
        save.party.len()
    }
}

/// The text that `print` gives: the trainer's name, ID and money, then the
/// creatures of the party, but no more than five.
pub open spec fn print_text(save: SaveView) -> Seq<char> {
    "\n=== Save Info ===\n"@ + "Name: "@ + save.trainer + "\nPlayer ID: "@ + decimal(
        save.id as nat,
    ) + "\nMoney: "@ + decimal(save.money as nat) + "\n"@ + "=================\n"@
        + "\n=== Party ===\n"@ + party_text(save.party, shown_count(save))
        + "=================\n\n"@
}

/// What loading gives: the save, and whether the checksum of the image
/// does not match.
#[derive(Debug)]
pub struct Loaded {
    pub save: Save,
    pub checksum_mismatch: bool,
}

#[derive(Debug)]
pub struct Save {
    trainer: String,
    money: u32,
    id: u16,
    party: Vec<Pokemon>,
    /// Each save file has 12 boxes, which hold 20 pokemon each.
    pc: Vec<Vec<Pokemon>>,
}

impl View for Save {
    type V = SaveView;

    closed spec fn view(&self) -> SaveView {
        SaveView {
            trainer: self.trainer@,
            money: self.money,
            id: self.id,
            party: party_view(self.party@),
            pc: pc_view(self.pc@),
        }
    }
}

/// `format!` of std with `{:?}`, on a save with its derived `Debug`: the
/// text is a function of what the save holds, and nothing more is said of
/// it.
#[verifier::external_body]
fn debugText(save: &Save) -> (text: String)
    ensures
        text@ == debug_text(save@),
{
    format!("{:?}", save)
}

/// The error for a party slot that holds no creature.
fn noPokemon(partyPokemon: usize) -> (message: String)
    ensures
        message@ == no_pokemon_text(partyPokemon),
{
    let mut message = String::from_str("There is no Pokemon in party slot ");
    pushDecimal(&mut message, partyPokemon as u64);
    formatError(message)
}

impl Save {
    /// A save for trying things out: the blank save, whose one Pokemon has
    /// the species with index 0x99 of the species catalog.
    pub fn new(speciesCatalog: &str) -> (save: Result<Save, String>)
        ensures
            match species_entry(speciesCatalog@, BLANK_SPECIES) {
                Some(species) => save is Ok && save->Ok_0@ == blank_save(species),
                None => save is Err && save->Err_0@ == species_not_found_text(BLANK_SPECIES),
            },
    {
        let pokemon = match Pokemon::new(speciesCatalog) {
            Ok(pokemon) => pokemon,
            Err(message) => {
                return Err(message);
            },
        };
        let mut party: Vec<Pokemon> = Vec::new();
        party.push(pokemon);
        let save = Save {
            trainer: String::from_str("Null"),
            money: 0,
            id: 0,
            party,
            pc: Vec::new(),
        };
        assert(save@.party =~= blank_save(
            species_entry(speciesCatalog@, BLANK_SPECIES)->Some_0,
        ).party);
        assert(save@.pc =~= Seq::empty());
        return Ok(save);
    }

    /// Loads a save from the bytes of a save image. The names of species
    /// and moves are looked up in the texts of the two catalogs. An image
    /// that is too short, or whose money is not stored as decimal digits,
    /// is refused, and so is a species or a move that its catalog does not
    /// describe. A checksum that does not match is reported beside the
    /// save and does not stand in its way: the caller decides what to make
    /// of it.
    pub fn load(save: &Vec<u8>, speciesCatalog: &str, moveCatalog: &str) -> (loaded_save: Result<
        Loaded,
        String,
    >)
        ensures
            match loaded(save@, speciesCatalog@, moveCatalog@) {
                Ok(model) => loaded_save is Ok && loaded_save->Ok_0.save@ == model
                    && loaded_save->Ok_0.checksum_mismatch == !has_integrity(save@),
                Err(error) => loaded_save is Err && loaded_save->Err_0@ == error,
            },
    {
        let decoded = match decode(save) {
            Ok(decoded) => decoded,
            Err(error) => {
                return Err(formatError(error.message()));
            },
        };
        let pc = match resolveBoxes(&decoded.model.boxes, speciesCatalog, moveCatalog) {
            Ok(boxes) => boxes,
            Err(message) => {
                return Err(message);
            },
        };
        let party: Vec<Pokemon> = match resolveAll(
            &decoded.model.party,
            speciesCatalog,
            moveCatalog,
        ) {
            Ok(creatures) => creatures,
            Err(message) => {
                return Err(message);
            },
        };
        let save = Save {
            trainer: decoded.model.trainer.name.clone(),
            money: decoded.model.trainer.money,
            id: decoded.model.trainer.id,
            party,
            pc,
        };
        return Ok(Loaded { save, checksum_mismatch: decoded.checksum_mismatch });
    }

    /// The text that `{:?}` gives for the save.
    pub fn to_string(&self) -> (text: String)
        ensures
            text@ == debug_text(self@),
    {
        return debugText(self);
    }

    /// The text that shows the first `count` creatures of the party.
    fn partyText(&self, count: usize) -> (text: String)
        requires
            self@.party.len() >= count,
        ensures
            text@ == party_text(self@.party, count as nat),
    {
        let mut text = String::new();
        let mut pokemon: usize = 0;
        while pokemon < count
            invariant
                pokemon <= count <= self@.party.len(),
                text@ == party_text(self@.party, pokemon as nat),
            decreases count - pokemon,
        {
            assert(self@.party[pokemon as int] == self.party@[pokemon as int]@);
            let details = self.party[pokemon].getDetails();
            text.append(details.as_str());
            text.append("\n");
            pokemon += 1;
        }
        return text;
    }

    /// The text that shows the save file data: the trainer, then the
    /// creatures of the party, but no more than five.
    pub fn print(&self) -> (text: String)
        ensures
            text@ == print_text(self@),
    {
        let shown: usize = if self.party.len() > SHOWN_PARTY {
            SHOWN_PARTY
        } else {
            self.party.len()
        };
        let mut text = String::from_str("\n=== Save Info ===\n");
        text.append("Name: ");
        text.append(self.trainer.as_str());
        text.append("\nPlayer ID: ");
        pushDecimal(&mut text, self.id as u64);
        text.append("\nMoney: ");
        pushDecimal(&mut text, self.money as u64);
        text.append("\n");
        text.append("=================\n");
        text.append("\n=== Party ===\n");
        text.append(self.partyText(shown).as_str());
        text.append("=================\n\n");
        return text;
    }

    // ========   GETTERS   ========
    /// Getter for Trainer Name in Save
    pub fn getTrainerName(&self) -> (trainer: &String)
        ensures
            trainer@ == self@.trainer,
    {
        return &self.trainer;
    }

    /// Getter for Money in Save
    pub fn getMoney(&self) -> (money: &u32)
        ensures
            *money == self@.money,
    {
        return &self.money;
    }

    /// Getter for Trainer ID in Save
    pub fn getTrainerID(&self) -> (id: &u16)
        ensures
            *id == self@.id,
    {
        return &self.id;
    }

    /// Getter for Party Pokemon
    pub fn getParty(&self) -> (party: &Vec<Pokemon>)
        ensures
            party_view(party@) == self@.party,
    {
        return &self.party;
    }

    /// Getter for PC Boxes
    pub fn getPCBoxes(&self) -> (pc: &Vec<Vec<Pokemon>>)
        ensures
            pc_view(pc@) == self@.pc,
    {
        return &self.pc;
    }

    // ========   SETTERS   ========
    /// Setter for Trainer Name in Save: a name of more than seven bytes is
    /// rejected.
    pub fn setTrainerName(&mut self, name: String) -> (changed: Result<bool, String>)
        ensures
            byte_length(name@) <= MAX_TRAINER_BYTES ==> changed == Ok::<bool, String>(true)
                && final(self)@ == (SaveView { trainer: name@, ..old(self)@ }),
            byte_length(name@) > MAX_TRAINER_BYTES ==> changed is Err && changed->Err_0@
                == trainer_name_error_text(name@) && final(self)@ == old(self)@,
    {
        // First let's check that the length is correct.
        if byteLength(name.as_str()) > MAX_TRAINER_BYTES {
            let mut message = String::from_str("Name \"");
            message.append(name.as_str());
            message.append("\" is over 7 characters.");
            return Err(formatError(message));
        }
        // Now that the check is over, set the name

        self.trainer = name;
        // And return True
        return Ok(true);
    }

    /// Setter for Money amount in Save: more than 999,999 is rejected.
    pub fn setMoney(&mut self, amount: u32) -> (changed: Result<bool, String>)
        ensures
            amount <= MAX_MONEY ==> changed == Ok::<bool, String>(true) && final(self)@
                == (SaveView { money: amount, ..old(self)@ }),
            amount > MAX_MONEY ==> changed is Err && changed->Err_0@ == money_error_text(amount)
                && final(self)@ == old(self)@,
    {
        // First let's check that the amount is correct
        // Cannot be more than 999,999
        if amount > MAX_MONEY {
            let mut message = String::from_str("Amount \"");
            pushDecimal(&mut message, amount as u64);
            message.append("\" is over allowed maximum 999,999.");
            return Err(formatError(message));
        }
        // We do not need to check for minimum as it is unsigned.
        // Now that the check is over, set the amount

        self.money = amount;
        // And return True
        return Ok(true);
    }

    /// Setter for Trainer ID
    ///
    /// **Note**: There is no validation in this function: the type
    /// provides the range of the value.
    pub fn setID(&mut self, newID: u16)
        ensures
            final(self)@ == (SaveView { id: newID, ..old(self)@ }),
    {
        self.id = newID;
    }

    /// Party Pokemon Setter for Nickname.
    ///
    /// This is an abstraction for pokemon::Pokemon::setNickname
    pub fn setPartyPokemonNick(&mut self, partyPokemon: usize, newNickname: String) -> (changed:
        Result<bool, String>)
        ensures
            !old(self)@.has_member(partyPokemon) ==> changed is Err && changed->Err_0@
                == no_pokemon_text(partyPokemon) && final(self)@ == old(self)@,
            old(self)@.has_member(partyPokemon) && byte_length(newNickname@) <= MAX_NAME_BYTES
                ==> changed == Ok::<bool, String>(true) && final(self)@ == old(self)@.with_member(
                partyPokemon,
                old(self)@.member(partyPokemon).with_nickname(newNickname@),
            ),
            old(self)@.has_member(partyPokemon) && byte_length(newNickname@) > MAX_NAME_BYTES
                ==> changed is Err && changed->Err_0@ == nickname_error_text(newNickname@)
                && final(self)@ == old(self)@,
    {
        // First we check that there is a Pokemon in the party at the index
        if partyPokemon >= self.party.len() {
            return Err(noPokemon(partyPokemon));
        }
        // Then we perform the change, and hand on its result

        let changeResult = self.party[partyPokemon].setNickname(newNickname);
        proof {
            if changeResult is Ok {
                assert(self@.party =~= old(self)@.with_member(
                    partyPokemon,
                    old(self)@.member(partyPokemon).with_nickname(newNickname@),
                ).party);
            } else {
                assert(self@.party =~= old(self)@.party);
            }
        }
        return changeResult;
    }

    /// Party Pokemon Setter for Level
    ///
    /// This is an abstraction for pokemon::Pokemon::setLevel
    pub fn setPartyPokemonLevel(&mut self, partyPokemon: usize, newLevel: i8) -> (changed: Result<
        bool,
        String,
    >)
        ensures
            !old(self)@.has_member(partyPokemon) ==> changed is Err && changed->Err_0@
                == no_pokemon_text(partyPokemon) && final(self)@ == old(self)@,
            old(self)@.has_member(partyPokemon) && MIN_LEVEL <= newLevel <= MAX_LEVEL ==> changed
                == Ok::<bool, String>(true) && final(self)@ == old(self)@.with_member(
                partyPokemon,
                old(self)@.member(partyPokemon).with_level(newLevel),
            ),
            old(self)@.has_member(partyPokemon) && newLevel > MAX_LEVEL ==> changed is Err
                && changed->Err_0@ == level_over_text(newLevel) && final(self)@ == old(self)@,
            old(self)@.has_member(partyPokemon) && newLevel < MIN_LEVEL ==> changed is Err
                && changed->Err_0@ == level_under_text(newLevel) && final(self)@ == old(self)@,
    {
        // First we check that there is a Pokemon in the party at the index
        if partyPokemon >= self.party.len() {
            return Err(noPokemon(partyPokemon));
        }
        // Then we perform the change, and hand on its result

        let changeResult = self.party[partyPokemon].setLevel(newLevel);
        proof {
            if changeResult is Ok {
                assert(self@.party =~= old(self)@.with_member(
                    partyPokemon,
                    old(self)@.member(partyPokemon).with_level(newLevel),
                ).party);
            } else {
                assert(self@.party =~= old(self)@.party);
            }
        }
        return changeResult;
    }

    /// Party Pokemon Setter for OTID
    ///
    /// This is an abstraction for pokemon::Pokemon::setOTID
    pub fn setPartyPokemonOTID(&mut self, partyPokemon: usize, newOTID: u16) -> (changed: Result<
        bool,
        String,
    >)
        ensures
            !old(self)@.has_member(partyPokemon) ==> changed is Err && changed->Err_0@
                == no_pokemon_text(partyPokemon) && final(self)@ == old(self)@,
            old(self)@.has_member(partyPokemon) ==> changed == Ok::<bool, String>(true)
                && final(self)@ == old(self)@.with_member(
                partyPokemon,
                old(self)@.member(partyPokemon).with_ot(newOTID),
            ),
    {
        // First we check that there is a Pokemon in the party at the index
        if partyPokemon >= self.party.len() {
            return Err(noPokemon(partyPokemon));
        }
        // Then we perform the change

        self.party[partyPokemon].setOTID(newOTID);
        assert(self@.party =~= old(self)@.with_member(
            partyPokemon,
            old(self)@.member(partyPokemon).with_ot(newOTID),
        ).party);
        // And return a success
        return Ok(true);
    }

    /// Party Pokemon Setter for OT Nickname
    ///
    /// This is an abstraction for pokemon::Pokemon::setOTN
    pub fn setPartyPokemonOTN(&mut self, partyPokemon: usize, newOTN: String) -> (changed: Result<
        bool,
        String,
    >)
        ensures
            !old(self)@.has_member(partyPokemon) ==> changed is Err && changed->Err_0@
                == no_pokemon_text(partyPokemon) && final(self)@ == old(self)@,
            old(self)@.has_member(partyPokemon) && byte_length(newOTN@) <= MAX_NAME_BYTES
                ==> changed == Ok::<bool, String>(true) && final(self)@ == old(self)@.with_member(
                partyPokemon,
                old(self)@.member(partyPokemon).with_otn(newOTN@),
            ),
            old(self)@.has_member(partyPokemon) && byte_length(newOTN@) > MAX_NAME_BYTES
                ==> changed is Err && changed->Err_0@ == otn_error_text(newOTN@) && final(self)@
                == old(self)@,
    {
        // First we check that there is a Pokemon in the party at the index
        if partyPokemon >= self.party.len() {
            return Err(noPokemon(partyPokemon));
        }
        // Then we perform the change, and hand on its result

        let changeResult = self.party[partyPokemon].setOTN(newOTN);
        proof {
            if changeResult is Ok {
                assert(self@.party =~= old(self)@.with_member(
                    partyPokemon,
                    old(self)@.member(partyPokemon).with_otn(newOTN@),
                ).party);
            } else {
                assert(self@.party =~= old(self)@.party);
            }
        }
        return changeResult;
    }

    /// Party Pokemon Setter for HP EV
    ///
    /// This is an abstraction for pokemon::Pokemon::setEV_HP
    pub fn setPartyPokemonEV_HP(&mut self, partyPokemon: usize, newHP: u16) -> (changed: Result<
        bool,
        String,
    >)
        ensures
            !old(self)@.has_member(partyPokemon) ==> changed is Err && changed->Err_0@
                == no_pokemon_text(partyPokemon) && final(self)@ == old(self)@,
            old(self)@.has_member(partyPokemon) ==> changed == Ok::<bool, String>(true)
                && final(self)@ == old(self)@.with_member(
                partyPokemon,
                old(self)@.member(partyPokemon).with_ev(HP as int, newHP),
            ),
    {
        // First we check that there is a Pokemon in the party at the index
        if partyPokemon >= self.party.len() {
            return Err(noPokemon(partyPokemon));
        }
        // Then we perform the change

        self.party[partyPokemon].setEV_HP(newHP);
        assert(self@.party =~= old(self)@.with_member(
            partyPokemon,
            old(self)@.member(partyPokemon).with_ev(HP as int, newHP),
        ).party);
        // And return a success
        return Ok(true);
    }

    /// Party Pokemon Setter for ATK EV
    ///
    /// This is an abstraction for pokemon::Pokemon::setEV_ATK
    pub fn setPartyPokemonEV_ATK(&mut self, partyPokemon: usize, newATK: u16) -> (changed: Result<
        bool,
        String,
    >)
        ensures
            !old(self)@.has_member(partyPokemon) ==> changed is Err && changed->Err_0@
                == no_pokemon_text(partyPokemon) && final(self)@ == old(self)@,
            old(self)@.has_member(partyPokemon) ==> changed == Ok::<bool, String>(true)
                && final(self)@ == old(self)@.with_member(
                partyPokemon,
                old(self)@.member(partyPokemon).with_ev(ATK as int, newATK),
            ),
    {
        // First we check that there is a Pokemon in the party at the index
        if partyPokemon >= self.party.len() {
            return Err(noPokemon(partyPokemon));
        }
        // Then we perform the change

        self.party[partyPokemon].setEV_ATK(newATK);
        assert(self@.party =~= old(self)@.with_member(
            partyPokemon,
            old(self)@.member(partyPokemon).with_ev(ATK as int, newATK),
        ).party);
        // And return a success
        return Ok(true);
    }

    /// Party Pokemon Setter for DEF EV
    ///
    /// This is an abstraction for pokemon::Pokemon::setEV_DEF
    pub fn setPartyPokemonEV_DEF(&mut self, partyPokemon: usize, newDEF: u16) -> (changed: Result<
        bool,
        String,
    >)
        ensures
            !old(self)@.has_member(partyPokemon) ==> changed is Err && changed->Err_0@
                == no_pokemon_text(partyPokemon) && final(self)@ == old(self)@,
            old(self)@.has_member(partyPokemon) ==> changed == Ok::<bool, String>(true)
                && final(self)@ == old(self)@.with_member(
                partyPokemon,
                old(self)@.member(partyPokemon).with_ev(DEF as int, newDEF),
            ),
    {
        // First we check that there is a Pokemon in the party at the index
        if partyPokemon >= self.party.len() {
            return Err(noPokemon(partyPokemon));
        }
        // Then we perform the change

        self.party[partyPokemon].setEV_DEF(newDEF);
        assert(self@.party =~= old(self)@.with_member(
            partyPokemon,
            old(self)@.member(partyPokemon).with_ev(DEF as int, newDEF),
        ).party);
        // And return a success
        return Ok(true);
    }

    /// Party Pokemon Setter for SPD EV
    ///
    /// This is an abstraction for pokemon::Pokemon::setEV_SPD
    pub fn setPartyPokemonEV_SPD(&mut self, partyPokemon: usize, newSPD: u16) -> (changed: Result<
        bool,
        String,
    >)
        ensures
            !old(self)@.has_member(partyPokemon) ==> changed is Err && changed->Err_0@
                == no_pokemon_text(partyPokemon) && final(self)@ == old(self)@,
            old(self)@.has_member(partyPokemon) ==> changed == Ok::<bool, String>(true)
                && final(self)@ == old(self)@.with_member(
                partyPokemon,
                old(self)@.member(partyPokemon).with_ev(SPD as int, newSPD),
            ),
    {
        // First we check that there is a Pokemon in the party at the index
        if partyPokemon >= self.party.len() {
            return Err(noPokemon(partyPokemon));
        }
        // Then we perform the change

        self.party[partyPokemon].setEV_SPD(newSPD);
        assert(self@.party =~= old(self)@.with_member(
            partyPokemon,
            old(self)@.member(partyPokemon).with_ev(SPD as int, newSPD),
        ).party);
        // And return a success
        return Ok(true);
    }

    /// Party Pokemon Setter for SPC EV
    ///
    /// This is an abstraction for pokemon::Pokemon::setEV_SPC
    pub fn setPartyPokemonEV_SPC(&mut self, partyPokemon: usize, newSPC: u16) -> (changed: Result<
        bool,
        String,
    >)
        ensures
            !old(self)@.has_member(partyPokemon) ==> changed is Err && changed->Err_0@
                == no_pokemon_text(partyPokemon) && final(self)@ == old(self)@,
            old(self)@.has_member(partyPokemon) ==> changed == Ok::<bool, String>(true)
                && final(self)@ == old(self)@.with_member(
                partyPokemon,
                old(self)@.member(partyPokemon).with_ev(SPC as int, newSPC),
            ),
    {
        // First we check that there is a Pokemon in the party at the index
        if partyPokemon >= self.party.len() {
            return Err(noPokemon(partyPokemon));
        }
        // Then we perform the change

        self.party[partyPokemon].setEV_SPC(newSPC);
        assert(self@.party =~= old(self)@.with_member(
            partyPokemon,
            old(self)@.member(partyPokemon).with_ev(SPC as int, newSPC),
        ).party);
        // And return a success
        return Ok(true);
    }

    /// Party Pokemon Setter for HP IV
    ///
    /// This is an abstraction for pokemon::Pokemon::setIV_HP
    pub fn setPartyPokemonIV_HP(&mut self, partyPokemon: usize, newHP: u16) -> (changed: Result<
        bool,
        String,
    >)
        ensures
            !old(self)@.has_member(partyPokemon) ==> changed is Err && changed->Err_0@
                == no_pokemon_text(partyPokemon) && final(self)@ == old(self)@,
            old(self)@.has_member(partyPokemon) && newHP <= MAX_IV ==> changed
                == Ok::<bool, String>(true) && final(self)@ == old(self)@.with_member(
                partyPokemon,
                old(self)@.member(partyPokemon).with_iv(HP as int, newHP),
            ),
            old(self)@.has_member(partyPokemon) && newHP > MAX_IV ==> changed is Err
                && changed->Err_0@ == iv_error_text("HP"@, newHP) && final(self)@ == old(self)@,
    {
        // First we check that there is a Pokemon in the party at the index
        if partyPokemon >= self.party.len() {
            return Err(noPokemon(partyPokemon));
        }
        // Then we perform the change, and hand on its result

        let changeResult = self.party[partyPokemon].setIV_HP(newHP);
        proof {
            if changeResult is Ok {
                assert(self@.party =~= old(self)@.with_member(
                    partyPokemon,
                    old(self)@.member(partyPokemon).with_iv(HP as int, newHP),
                ).party);
            } else {
                assert(self@.party =~= old(self)@.party);
            }
        }
        return changeResult;
    }

    /// Party Pokemon Setter for ATK IV
    ///
    /// This is an abstraction for pokemon::Pokemon::setIV_ATK
    pub fn setPartyPokemonIV_ATK(&mut self, partyPokemon: usize, newATK: u16) -> (changed: Result<
        bool,
        String,
    >)
        ensures
            !old(self)@.has_member(partyPokemon) ==> changed is Err && changed->Err_0@
                == no_pokemon_text(partyPokemon) && final(self)@ == old(self)@,
            old(self)@.has_member(partyPokemon) && newATK <= MAX_IV ==> changed
                == Ok::<bool, String>(true) && final(self)@ == old(self)@.with_member(
                partyPokemon,
                old(self)@.member(partyPokemon).with_iv(ATK as int, newATK),
            ),
            old(self)@.has_member(partyPokemon) && newATK > MAX_IV ==> changed is Err
                && changed->Err_0@ == iv_error_text("ATK"@, newATK) && final(self)@ == old(self)@,
    {
        // First we check that there is a Pokemon in the party at the index
        if partyPokemon >= self.party.len() {
            return Err(noPokemon(partyPokemon));
        }
        // Then we perform the change, and hand on its result

        let changeResult = self.party[partyPokemon].setIV_ATK(newATK);
        proof {
            if changeResult is Ok {
                assert(self@.party =~= old(self)@.with_member(
                    partyPokemon,
                    old(self)@.member(partyPokemon).with_iv(ATK as int, newATK),
                ).party);
            } else {
                assert(self@.party =~= old(self)@.party);
            }
        }
        return changeResult;
    }

    /// Party Pokemon Setter for DEF IV
    ///
    /// This is an abstraction for pokemon::Pokemon::setIV_DEF
    pub fn setPartyPokemonIV_DEF(&mut self, partyPokemon: usize, newDEF: u16) -> (changed: Result<
        bool,
        String,
    >)
        ensures
            !old(self)@.has_member(partyPokemon) ==> changed is Err && changed->Err_0@
                == no_pokemon_text(partyPokemon) && final(self)@ == old(self)@,
            old(self)@.has_member(partyPokemon) && newDEF <= MAX_IV ==> changed
                == Ok::<bool, String>(true) && final(self)@ == old(self)@.with_member(
                partyPokemon,
                old(self)@.member(partyPokemon).with_iv(DEF as int, newDEF),
            ),
            old(self)@.has_member(partyPokemon) && newDEF > MAX_IV ==> changed is Err
                && changed->Err_0@ == iv_error_text("DEF"@, newDEF) && final(self)@ == old(self)@,
    {
        // First we check that there is a Pokemon in the party at the index
        if partyPokemon >= self.party.len() {
            return Err(noPokemon(partyPokemon));
        }
        // Then we perform the change, and hand on its result

        let changeResult = self.party[partyPokemon].setIV_DEF(newDEF);
        proof {
            if changeResult is Ok {
                assert(self@.party =~= old(self)@.with_member(
                    partyPokemon,
                    old(self)@.member(partyPokemon).with_iv(DEF as int, newDEF),
                ).party);
            } else {
                assert(self@.party =~= old(self)@.party);
            }
        }
        return changeResult;
    }

    /// Party Pokemon Setter for SPD IV
    ///
    /// This is an abstraction for pokemon::Pokemon::setIV_SPD
    pub fn setPartyPokemonIV_SPD(&mut self, partyPokemon: usize, newSPD: u16) -> (changed: Result<
        bool,
        String,
    >)
        ensures
            !old(self)@.has_member(partyPokemon) ==> changed is Err && changed->Err_0@
                == no_pokemon_text(partyPokemon) && final(self)@ == old(self)@,
            old(self)@.has_member(partyPokemon) && newSPD <= MAX_IV ==> changed
                == Ok::<bool, String>(true) && final(self)@ == old(self)@.with_member(
                partyPokemon,
                old(self)@.member(partyPokemon).with_iv(SPD as int, newSPD),
            ),
            old(self)@.has_member(partyPokemon) && newSPD > MAX_IV ==> changed is Err
                && changed->Err_0@ == iv_error_text("SPD"@, newSPD) && final(self)@ == old(self)@,
    {
        // First we check that there is a Pokemon in the party at the index
        if partyPokemon >= self.party.len() {
            return Err(noPokemon(partyPokemon));
        }
        // Then we perform the change, and hand on its result

        let changeResult = self.party[partyPokemon].setIV_SPD(newSPD);
        proof {
            if changeResult is Ok {
                assert(self@.party =~= old(self)@.with_member(
                    partyPokemon,
                    old(self)@.member(partyPokemon).with_iv(SPD as int, newSPD),
                ).party);
            } else {
                assert(self@.party =~= old(self)@.party);
            }
        }
        return changeResult;
    }

    /// Party Pokemon Setter for SPC IV
    ///
    /// This is an abstraction for pokemon::Pokemon::setIV_SPC
    pub fn setPartyPokemonIV_SPC(&mut self, partyPokemon: usize, newSPC: u16) -> (changed: Result<
        bool,
        String,
    >)
        ensures
            !old(self)@.has_member(partyPokemon) ==> changed is Err && changed->Err_0@
                == no_pokemon_text(partyPokemon) && final(self)@ == old(self)@,
            old(self)@.has_member(partyPokemon) && newSPC <= MAX_IV ==> changed
                == Ok::<bool, String>(true) && final(self)@ == old(self)@.with_member(
                partyPokemon,
                old(self)@.member(partyPokemon).with_iv(SPC as int, newSPC),
            ),
            old(self)@.has_member(partyPokemon) && newSPC > MAX_IV ==> changed is Err
                && changed->Err_0@ == iv_error_text("SPC"@, newSPC) && final(self)@ == old(self)@,
    {
        // First we check that there is a Pokemon in the party at the index
        if partyPokemon >= self.party.len() {
            return Err(noPokemon(partyPokemon));
        }
        // Then we perform the change, and hand on its result

        let changeResult = self.party[partyPokemon].setIV_SPC(newSPC);
        proof {
            if changeResult is Ok {
                assert(self@.party =~= old(self)@.with_member(
                    partyPokemon,
                    old(self)@.member(partyPokemon).with_iv(SPC as int, newSPC),
                ).party);
            } else {
                assert(self@.party =~= old(self)@.party);
            }
        }
        return changeResult;
    }

    // ========   SAVE FILE RETRIEVAL    ========
    /// Retrieves the codes of the trainer's name from the save file
    pub fn getNameFromSave(save: &Vec<u8>) -> (name: Result<[i16; 11], CodecError>)
        ensures
            holds(save@, NAME_ADDR as int, NAME_LEN as int) ==> name is Ok && name->Ok_0@
                == codes_at(save@, NAME_ADDR as int),
            !holds(save@, NAME_ADDR as int, NAME_LEN as int) ==> name == Err::<
                [i16; 11],
                CodecError,
            >(CodecError::Truncated),
    {
        if !inside(save, NAME_ADDR, NAME_LEN) {
            return Err(CodecError::Truncated);
        }
        return Ok(codesAt(save, NAME_ADDR));
    }

    /// Retrieves the amount of money the player has: three bytes of packed
    /// decimal digits.
    pub fn getMoneyFromSave(save: &Vec<u8>) -> (money: Result<u32, CodecError>)
        ensures
            !holds(save@, MONEY_ADDR as int, 3) ==> money == Err::<u32, CodecError>(
                CodecError::Truncated,
            ),
            holds(save@, MONEY_ADDR as int, 3) ==> match decoded_money(save@) {
                Some(amount) => money == Ok::<u32, CodecError>(amount as u32) && amount
                    <= MAX_MONEY,
                None => money == Err::<u32, CodecError>(CodecError::MalformedMoney),
            },
    {
        if !inside(save, MONEY_ADDR, 3) {
            return Err(CodecError::Truncated);
        }
        return decodeMoney(save[MONEY_ADDR], save[MONEY_ADDR + 1], save[MONEY_ADDR + 2]);
    }

    /// Retrieves the trainer ID
    pub fn getTrainerIDFromSave(save: &Vec<u8>) -> (trainerID: Result<u16, CodecError>)
        ensures
            holds(save@, ID_ADDR as int, 2) ==> trainerID == Ok::<u16, CodecError>(
                word_at(save@, ID_ADDR as int),
            ),
            !holds(save@, ID_ADDR as int, 2) ==> trainerID == Err::<u16, CodecError>(
                CodecError::Truncated,
            ),
    {
        if !inside(save, ID_ADDR, 2) {
            return Err(CodecError::Truncated);
        }
        return Ok(wordAt(save, ID_ADDR));
    }

    /// Retrieves the players party of Pokemon
    pub fn getPartyFromSave(save: &Vec<u8>, speciesCatalog: &str, moveCatalog: &str) -> (party:
        Result<Vec<Pokemon>, String>)
        ensures
            save.len() < MIN_SAVE_LEN ==> party is Err && party->Err_0@ == truncated_text(),
            save.len() >= MIN_SAVE_LEN ==> match resolved_all(
                decoded_party(save@),
                speciesCatalog@,
                moveCatalog@,
            ) {
                Ok(creatures) => party is Ok && party_view(party->Ok_0@) == creatures,
                Err(error) => party is Err && party->Err_0@ == error,
            },
    {
        if save.len() < MIN_SAVE_LEN {
            return Err(formatError(CodecError::Truncated.message()));
        }
        return resolveAll(&decodeParty(save), speciesCatalog, moveCatalog);
    }

    /// Retrieves all of the players PC boxes
    pub fn getPCBoxesFromSave(save: &Vec<u8>, speciesCatalog: &str, moveCatalog: &str) -> (boxes:
        Result<Vec<Vec<Pokemon>>, String>)
        ensures
            save.len() < MIN_SAVE_LEN ==> boxes is Err && boxes->Err_0@ == truncated_text(),
            save.len() >= MIN_SAVE_LEN ==> match resolved_boxes(
                decoded_boxes(save@),
                speciesCatalog@,
                moveCatalog@,
            ) {
                Ok(creatures) => boxes is Ok && pc_view(boxes->Ok_0@) == creatures,
                Err(error) => boxes is Err && boxes->Err_0@ == error,
            },
    {
        if save.len() < MIN_SAVE_LEN {
            return Err(formatError(CodecError::Truncated.message()));
        }
        return resolveBoxes(&decodeBoxes(save), speciesCatalog, moveCatalog);
    }

    /// Function for retrieving a Pokemons Original Trainers ID
    pub fn getPokemonOTIDFromSave(save: &Vec<u8>, currAddr: &usize) -> (pokemonOTID: Result<
        u16,
        CodecError,
    >)
        ensures
            holds(save@, *currAddr as int, OT_OFF + 2) ==> pokemonOTID == Ok::<u16, CodecError>(
                word_at(save@, *currAddr + OT_OFF),
            ),
            !holds(save@, *currAddr as int, OT_OFF + 2) ==> pokemonOTID == Err::<u16, CodecError>(
                CodecError::Truncated,
            ),
    {
        if !inside(save, *currAddr, OT_OFF + 2) {
            return Err(CodecError::Truncated);
        }
        return Ok(wordAt(save, *currAddr + OT_OFF));
    }

    /// Function for retrieving a Pokemons Original Trainers Name. Each of
    /// the eleven bytes gives one character; nothing ends the name early.
    pub fn getPokemonOTNameFromSave(save: &Vec<u8>, currAddr: &usize) -> (name: Result<
        String,
        CodecError,
    >)
        ensures
            holds(save@, *currAddr as int, NAME_LEN as int) ==> name is Ok && name->Ok_0@
                == name_at(save@, *currAddr as int),
            !holds(save@, *currAddr as int, NAME_LEN as int) ==> name == Err::<String, CodecError>(
                CodecError::Truncated,
            ),
    {
        if !inside(save, *currAddr, NAME_LEN) {
            return Err(CodecError::Truncated);
        }
        return Ok(nameAt(save, *currAddr));
    }

    /// Function for retrieving the Pokemons current Health Points
    pub fn getPokemonHPFromSave(save: &Vec<u8>, currAddr: &usize) -> (pokemonHP: Result<
        i16,
        CodecError,
    >)
        ensures
            holds(save@, *currAddr as int, HP_OFF + 2) ==> pokemonHP == Ok::<i16, CodecError>(
                signed_word_of(save@[*currAddr + HP_OFF], save@[*currAddr + HP_OFF + 1]) as i16,
            ),
            !holds(save@, *currAddr as int, HP_OFF + 2) ==> pokemonHP == Err::<i16, CodecError>(
                CodecError::Truncated,
            ),
    {
        if !inside(save, *currAddr, HP_OFF + 2) {
            return Err(CodecError::Truncated);
        }
        return Ok(signedWordOf(save[*currAddr + HP_OFF], save[*currAddr + HP_OFF + 1]));
    }

    /// Function for retrieving a Pokemons Nickname.
    ///
    /// **Note**: This function will automatically decode it into a String
    pub fn getPokemonNickFromSave(save: &Vec<u8>, currAddr: &usize) -> (nickname: Result<
        String,
        CodecError,
    >)
        ensures
            holds(save@, *currAddr as int, NAME_LEN as int) ==> nickname is Ok && nickname->Ok_0@
                == name_at(save@, *currAddr as int),
            !holds(save@, *currAddr as int, NAME_LEN as int) ==> nickname == Err::<
                String,
                CodecError,
            >(CodecError::Truncated),
    {
        if !inside(save, *currAddr, NAME_LEN) {
            return Err(CodecError::Truncated);
        }
        return Ok(nameAt(save, *currAddr));
    }

    /// Function for retrieving a Pokemons base stats
    pub fn getPokemonStatsFromSave(save: &Vec<u8>, currAddr: &usize) -> (stats: Result<
        [u16; 5],
        CodecError,
    >)
        ensures
            holds(save@, *currAddr as int, STAT_OFF + 10) ==> stats is Ok && stats->Ok_0@
                == words_at(save@, *currAddr + STAT_OFF),
            !holds(save@, *currAddr as int, STAT_OFF + 10) ==> stats == Err::<
                [u16; 5],
                CodecError,
            >(CodecError::Truncated),
    {
        if !inside(save, *currAddr, STAT_OFF + 10) {
            return Err(CodecError::Truncated);
        }
        return Ok(wordsAt(save, *currAddr + STAT_OFF));
    }

    /// Function for retrieving a Pokemons Effort Values
    pub fn getPokemonEVsFromSave(save: &Vec<u8>, currAddr: &usize) -> (evs: Result<
        [u16; 5],
        CodecError,
    >)
        ensures
            holds(save@, *currAddr as int, EV_OFF + 10) ==> evs is Ok && evs->Ok_0@ == words_at(
                save@,
                *currAddr + EV_OFF,
            ),
            !holds(save@, *currAddr as int, EV_OFF + 10) ==> evs == Err::<[u16; 5], CodecError>(
                CodecError::Truncated,
            ),
    {
        if !inside(save, *currAddr, EV_OFF + 10) {
            return Err(CodecError::Truncated);
        }
        return Ok(wordsAt(save, *currAddr + EV_OFF));
    }

    /// Function for retrieving data about Pokemons moves.
    pub fn getPokemonMovesFromSave(save: &Vec<u8>, currAddr: &usize, moveCatalog: &str) -> (moves:
        Result<Vec<Move>, String>)
        ensures
            !holds(save@, *currAddr as int, PP_OFF + 4) ==> moves is Err && moves->Err_0@
                == truncated_text(),
            holds(save@, *currAddr as int, PP_OFF + 4) ==> match resolved_moves(
                slots_at(save@, *currAddr as int),
                moveCatalog@,
            ) {
                Ok(known) => moves is Ok && moves_view(moves->Ok_0@) == known,
                Err(error) => moves is Err && moves->Err_0@ == error,
            },
    {
        return getPokemonMoves(save, currAddr, moveCatalog);
    }

    /// Function for retrieving a Pokemons Individual Values, also known as
    /// Determinant Values
    pub fn getPokemonIVsFromSave(save: &Vec<u8>, currAddr: &usize) -> (ivs: Result<
        [u16; 5],
        CodecError,
    >)
        ensures
            holds(save@, *currAddr as int, IV_OFF + 2) ==> ivs is Ok && ivs->Ok_0@ == ivs_at(
                save@,
                *currAddr as int,
            ),
            !holds(save@, *currAddr as int, IV_OFF + 2) ==> ivs == Err::<[u16; 5], CodecError>(
                CodecError::Truncated,
            ),
    {
        if !inside(save, *currAddr, IV_OFF + 2) {
            return Err(CodecError::Truncated);
        }
        return Ok(decodeIVs(save[*currAddr + IV_OFF], save[*currAddr + IV_OFF + 1]));
    }
}

} // verus!
