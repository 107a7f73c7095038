//! A creature: its species, its names, its level, its moves and its stats.

use vstd::prelude::*;
use crate::bitfield::MAX_IV;
use crate::creature_data::pokemon_move::{Move, MoveView, empty_move, move_text};
use crate::creature_data::pokemon_species::{
    Species,
    SpeciesView,
    species_entry,
    species_not_found_text,
};
use crate::creature_data::pokemon_stats::{
    ATK,
    DEF,
    EVs,
    HP,
    IVs,
    SPC,
    SPD,
    Stats,
    evs_text,
    iv_error_text,
    ivs_text,
    stats_text,
};
use crate::text::{
    byteLength,
    byte_length,
    paddedRight,
    padded_right,
    signedDecimalText,
    signed_decimal,
};
use crate::addresses::PP_OFF;
use crate::decoder::{holds, inside, slotsAt, slots_at};
use crate::errors::CodecError;
use crate::resolve::{resolveMoves, resolved_moves};
use crate::utils::{error_text, formatError};

verus! {

/// Index of the species of the blank Pokemon.
pub const BLANK_SPECIES: i16 = 0x99;

/// Lowest level of a creature.
pub const MIN_LEVEL: i8 = 1;

/// Highest level of a creature.
pub const MAX_LEVEL: i8 = 100;

/// Most bytes that a nickname or the name of an original trainer takes.
pub const MAX_NAME_BYTES: usize = 10;

/// What a creature is.
pub struct PokemonView {
    pub nickname: Seq<char>,
    pub species: SpeciesView,
    pub level: i8,
    pub moves: Seq<MoveView>,
    /// Original Trainer ID
    pub ot: u16,
    /// Original Trainer Name
    pub otn: Seq<char>,
    pub hp: i16,
    pub evs: Seq<u16>,
    pub ivs: Seq<u16>,
    pub stats: Seq<u16>,
}

impl PokemonView {
    /// This creature with another nickname.
    pub open spec fn with_nickname(self, nickname: Seq<char>) -> PokemonView {
        PokemonView { nickname, ..self }
    }

    /// This creature at another level.
    pub open spec fn with_level(self, level: i8) -> PokemonView {
        PokemonView { level, ..self }
    }

    /// This creature with another ID of its original trainer.
    pub open spec fn with_ot(self, ot: u16) -> PokemonView {
        PokemonView { ot, ..self }
    }

    /// This creature with another name of its original trainer.
    pub open spec fn with_otn(self, otn: Seq<char>) -> PokemonView {
        PokemonView { otn, ..self }
    }

    /// This creature with one of its effort values replaced.
    pub open spec fn with_ev(self, place: int, value: u16) -> PokemonView {
        PokemonView { evs: self.evs.update(place, value), ..self }
    }

    /// This creature with one of its individual values replaced.
    pub open spec fn with_iv(self, place: int, value: u16) -> PokemonView {
        PokemonView { ivs: self.ivs.update(place, value), ..self }
    }
}

/// What a list of moves is.
pub open spec fn moves_view(moves: Seq<Move>) -> Seq<MoveView> {
    Seq::new(moves.len(), |i: int| moves[i]@)
}

/// The blank Pokemon of a species.
pub open spec fn blank_pokemon(species: SpeciesView) -> PokemonView {
    PokemonView {
        nickname: "Bobsaur"@,
        species,
        level: 10,
        moves: seq![empty_move(), empty_move(), empty_move(), empty_move()],
        ot: 2,
        otn: "Test Ketchum"@,
        hp: 100,
        evs: seq![0u16, 0u16, 0u16, 0u16, 0u16],
        ivs: seq![0u16, 0u16, 0u16, 0u16, 0u16],
        stats: seq![0u16, 0u16, 0u16, 0u16, 0u16],
    }
}

/// The text that shows a creature: a line with its species, nickname, level
/// and HP, a line for each of its four moves, then its stats, effort values
/// and individual values.
pub open spec fn details_text(shown: PokemonView) -> Seq<char> {
    padded_right(shown.species.name, 12) + " "@ + padded_right(shown.nickname, 12) + " LVL:"@
        + signed_decimal(shown.level as int) + " Current HP: "@ + signed_decimal(shown.hp as int)
        + "\n"@ + "\t"@ + move_text(shown.moves[0]) + "\n\t"@ + move_text(shown.moves[1])
        + "\n\t"@ + move_text(shown.moves[2]) + "\n\t"@ + move_text(shown.moves[3]) + "\n\n"@
        + "\n"@ + stats_text(shown.stats) + "\n"@ + evs_text(shown.evs) + "\n"@ + ivs_text(
        shown.ivs,
    )
}

/// The message that rejects a nickname of more than ten bytes.
pub open spec fn nickname_error_text(nickname: Seq<char>) -> Seq<char> {
    error_text("Length of nickname \""@ + nickname + "\" is over 10 characters."@)
}

/// The message that rejects the name of an original trainer of more than
/// ten bytes.
pub open spec fn otn_error_text(otn: Seq<char>) -> Seq<char> {
    error_text("OTN \""@ + otn + "\" is over 7 characters."@)
}

/// The message that rejects a level above 100.
pub open spec fn level_over_text(level: i8) -> Seq<char> {
    error_text(
        "Value of new level \""@ + signed_decimal(level as int)
            + "\" is over allowed maximum 100"@,
    )
}

/// The message that rejects a level below 1.
pub open spec fn level_under_text(level: i8) -> Seq<char> {
    error_text(
        "Value of new level \""@ + signed_decimal(level as int)
            + "\" is under allowed minimum 1"@,
    )
}

#[derive(Debug)]
pub struct Pokemon {
    nickname: String,
    species: Species,
    level: i8,
    moves: Vec<Move>,
    /// Original Trainer ID
    ot: u16,
    /// Original Trainer Name
    otn: String,
    hp: i16,
    evs: EVs,
    ivs: IVs,
    stats: Stats,
}

impl View for Pokemon {
    type V = PokemonView;

    closed spec fn view(&self) -> PokemonView {
        PokemonView {
            nickname: self.nickname@,
            species: self.species@,
            level: self.level,
            moves: moves_view(self.moves@),
            ot: self.ot,
            otn: self.otn@,
            hp: self.hp,
            evs: self.evs@,
            ivs: self.ivs@,
            stats: self.stats@,
        }
    }
}

impl Pokemon {
    /// Every creature has four move slots.
    #[verifier::type_invariant]
    spec fn four_moves(self) -> bool {
        self.moves@.len() == 4
    }

    /// Constructor for a Pokemon, when being read from a save file, with the
    /// moves of its four move slots. The species with the given index is
    /// looked up in the text of the species catalog; if the catalog does
    /// not describe it, the message that the species was not found comes
    /// back.
    pub fn get(
        speciesCatalog: &str,
        index: i16,
        level: i8,
        nickname: String,
        moves: Vec<Move>,
        ot: u16,
        otn: String,
        hp: i16,
        evArr: [u16; 5],
        ivArr: [u16; 5],
        statArr: [u16; 5],
    ) -> (pokemon: Result<Pokemon, String>)
        requires
            moves@.len() == 4,
        ensures
            match species_entry(speciesCatalog@, index) {
                Some(species) => pokemon is Ok && pokemon->Ok_0@ == (PokemonView {
                    nickname: nickname@,
                    species,
                    level,
                    moves: moves_view(moves@),
                    ot,
                    otn: otn@,
                    hp,
                    evs: evArr@,
                    ivs: ivArr@,
                    stats: statArr@,
                }),
                None => pokemon is Err && pokemon->Err_0@ == species_not_found_text(index),
            },
    {
        let species = match Species::parse(speciesCatalog, index) {
            Ok(species) => species,
            Err(message) => {
                return Err(message);
            },
        };
        let evs = EVs::setAll(evArr);
        let ivs = IVs::setAll(ivArr);
        let stats = Stats {
            hp: statArr[0],
            atk: statArr[1],
            def: statArr[2],
            spd: statArr[3],
            spc: statArr[4],
        };
        assert(stats@ =~= statArr@);
        return Ok(Pokemon { nickname, species, level, moves, ot, otn, hp, evs, ivs, stats });
    }

    /// Function for making a blank Pokemon: one of the species with index
    /// 0x99, looked up in the text of the species catalog, at level 10 and
    /// with four empty move slots.
    pub fn new(speciesCatalog: &str) -> (pokemon: Result<Pokemon, String>)
        ensures
            match species_entry(speciesCatalog@, BLANK_SPECIES) {
                Some(species) => pokemon is Ok && pokemon->Ok_0@ == blank_pokemon(species),
                None => pokemon is Err && pokemon->Err_0@ == species_not_found_text(
                    BLANK_SPECIES,
                ),
            },
    {
        let mut moves: Vec<Move> = Vec::new();
        moves.push(Move::empty());
        moves.push(Move::empty());
        moves.push(Move::empty());
        moves.push(Move::empty());
        assert(moves_view(moves@) =~= seq![empty_move(), empty_move(), empty_move(), empty_move()]);
        let blank: [u16; 5] = [0;5];
        assert(blank@ =~= seq![0u16, 0u16, 0u16, 0u16, 0u16]);
        return Pokemon::get(
            speciesCatalog,
            BLANK_SPECIES,
            10,
            String::from_str("Bobsaur"),
            moves,
            2,
            String::from_str("Test Ketchum"),
            100,
            blank,
            blank,
            blank,
        );
    }

    // ========   GETTERS   ========
    /// Returns a string with all of the Pokemon's details, such as:
    ///
    /// - Species
    /// - Nickname
    /// - Level
    /// - Current HP
    /// - EVs
    /// - IVs
    /// - Stats
    pub fn getDetails(&self) -> (details: String)
        ensures
            details@ == details_text(self@),
            self@.moves.len() == 4,
    {
        proof {
            use_type_invariant(self);
        }
        let mut details = paddedRight(self.species.getName().as_str(), 12);
        details.append(" ");
        details.append(paddedRight(self.nickname.as_str(), 12).as_str());
        details.append(" LVL:");
        details.append(signedDecimalText(self.level as i64).as_str());
        details.append(" Current HP: ");
        details.append(signedDecimalText(self.hp as i64).as_str());
        details.append("\n");
        details.append("\t");
        details.append(self.moves[0].to_string().as_str());
        details.append("\n\t");
        details.append(self.moves[1].to_string().as_str());
        details.append("\n\t");
        details.append(self.moves[2].to_string().as_str());
        details.append("\n\t");
        details.append(self.moves[3].to_string().as_str());
        details.append("\n\n");
        details.append("\n");
        details.append(self.stats.to_string().as_str());
        details.append("\n");
        details.append(self.evs.to_string().as_str());
        details.append("\n");
        details.append(self.ivs.to_string().as_str());
        return details;
    }

    pub fn getNickname(&self) -> (nickname: &String)
        ensures
            nickname@ == self@.nickname,
    {
        return &self.nickname;
    }

    pub fn getSpecies(&self) -> (species: &Species)
        ensures
            species@ == self@.species,
    {
        return &self.species;
    }

    pub fn getLevel(&self) -> (level: &i8)
        ensures
            *level == self@.level,
    {
        return &self.level;
    }

    pub fn getMoves(&self) -> (moves: &Vec<Move>)
        ensures
            moves_view(moves@) == self@.moves,
            moves@.len() == 4,
    {
        proof {
            use_type_invariant(self);
        }
        return &self.moves;
    }

    pub fn getOTID(&self) -> (ot: &u16)
        ensures
            *ot == self@.ot,
    {
        return &self.ot;
    }

    /// Getter for the Original Trainer ID: the same as `getOTID`.
    pub fn getOT(&self) -> (ot: &u16)
        ensures
            *ot == self@.ot,
    {
        return &self.ot;
    }

    pub fn getOTN(&self) -> (otn: &String)
        ensures
            otn@ == self@.otn,
    {
        return &self.otn;
    }

    pub fn getHP(&self) -> (hp: &i16)
        ensures
            *hp == self@.hp,
    {
        return &self.hp;
    }

    pub fn getEVs(&self) -> (evs: &EVs)
        ensures
            evs@ == self@.evs,
    {
        return &self.evs;
    }

    pub fn getIVs(&self) -> (ivs: &IVs)
        ensures
            ivs@ == self@.ivs,
    {
        return &self.ivs;
    }

    pub fn getStats(&self) -> (stats: &Stats)
        ensures
            stats@ == self@.stats,
    {
        return &self.stats;
    }

    // ========   SETTERS   ========
    /// Setter for Pokemon Nickname: a nickname of more than ten bytes is
    /// rejected.
    pub fn setNickname(&mut self, newNickname: String) -> (changed: Result<bool, String>)
        ensures
            byte_length(newNickname@) <= MAX_NAME_BYTES ==> changed == Ok::<bool, String>(true)
                && final(self)@ == old(self)@.with_nickname(newNickname@),
            byte_length(newNickname@) > MAX_NAME_BYTES ==> changed is Err && changed->Err_0@
                == nickname_error_text(newNickname@) && final(self)@ == old(self)@,
    {
        proof {
            use_type_invariant(&*self);
        }
        // First we check if the nickname is over 10 bytes
        if byteLength(newNickname.as_str()) > MAX_NAME_BYTES {
            let mut message = String::from_str("Length of nickname \"");
            message.append(newNickname.as_str());
            message.append("\" is over 10 characters.");
            return Err(formatError(message));
        }
        // Now that the check is complete, we change the nickname

        self.nickname = newNickname;
        return Ok(true);
    }

    /// Setter Pokemon Level: a level above 100 or below 1 is rejected.
    pub fn setLevel(&mut self, newLevel: i8) -> (changed: Result<bool, String>)
        ensures
            MIN_LEVEL <= newLevel <= MAX_LEVEL ==> changed == Ok::<bool, String>(true)
                && final(self)@ == old(self)@.with_level(newLevel),
            newLevel > MAX_LEVEL ==> changed is Err && changed->Err_0@ == level_over_text(newLevel)
                && final(self)@ == old(self)@,
            newLevel < MIN_LEVEL ==> changed is Err && changed->Err_0@ == level_under_text(
                newLevel,
            ) && final(self)@ == old(self)@,
    {
        proof {
            use_type_invariant(&*self);
        }
        // First we check that the level is not over 100
        // Then we check if it is under 1
        if newLevel > MAX_LEVEL {
            let mut message = String::from_str("Value of new level \"");
            message.append(signedDecimalText(newLevel as i64).as_str());
            message.append("\" is over allowed maximum 100");
            return Err(formatError(message));
        } else if newLevel < MIN_LEVEL {
            let mut message = String::from_str("Value of new level \"");
            message.append(signedDecimalText(newLevel as i64).as_str());
            message.append("\" is under allowed minimum 1");
            return Err(formatError(message));
        }
        // Now that the checks are complete, we can set the new level

        self.level = newLevel;
        // And return an Ok()
        return Ok(true);
    }

    /// Setter for Pokemon OT ID
    ///
    /// No validation is required in the function as the
    /// typing restrictions handle the minimum and maximum values.
    pub fn setOTID(&mut self, newOTID: u16)
        ensures
            final(self)@ == old(self)@.with_ot(newOTID),
    {
        proof {
            use_type_invariant(&*self);
        }
        self.ot = newOTID;
    }

    /// Setter for Pokemon OT Nickname: a name of more than ten bytes is
    /// rejected.
    pub fn setOTN(&mut self, newOTN: String) -> (changed: Result<bool, String>)
        ensures
            byte_length(newOTN@) <= MAX_NAME_BYTES ==> changed == Ok::<bool, String>(true)
                && final(self)@ == old(self)@.with_otn(newOTN@),
            byte_length(newOTN@) > MAX_NAME_BYTES ==> changed is Err && changed->Err_0@
                == otn_error_text(newOTN@) && final(self)@ == old(self)@,
    {
        proof {
            use_type_invariant(&*self);
        }
        // First we check that the length is correct
        if byteLength(newOTN.as_str()) > MAX_NAME_BYTES {
            let mut message = String::from_str("OTN \"");
            message.append(newOTN.as_str());
            message.append("\" is over 7 characters.");
            return Err(formatError(message));
        }
        // Now that we've checked the length, we set the name

        self.otn = newOTN;
        // and return an Ok
        return Ok(true);
    }

    // SETTERS FOR EVs
    /// Setter for Pokemon HP EV
    pub fn setEV_HP(&mut self, newHP: u16)
        ensures
            final(self)@ == old(self)@.with_ev(HP as int, newHP),
    {
        proof {
            use_type_invariant(&*self);
        }
        let mut evs = self.evs;
        evs.setHP(newHP);
        self.evs = evs;
    }

    /// Setter for Pokemon ATK EV
    pub fn setEV_ATK(&mut self, newATK: u16)
        ensures
            final(self)@ == old(self)@.with_ev(ATK as int, newATK),
    {
        proof {
            use_type_invariant(&*self);
        }
        let mut evs = self.evs;
        evs.setATK(newATK);
        self.evs = evs;
    }

    /// Setter for Pokemon DEF EV
    pub fn setEV_DEF(&mut self, newDEF: u16)
        ensures
            final(self)@ == old(self)@.with_ev(DEF as int, newDEF),
    {
        proof {
            use_type_invariant(&*self);
        }
        let mut evs = self.evs;
        evs.setDEF(newDEF);
        self.evs = evs;
    }

    /// Setter for Pokemon SPD EV
    pub fn setEV_SPD(&mut self, newSPD: u16)
        ensures
            final(self)@ == old(self)@.with_ev(SPD as int, newSPD),
    {
        proof {
            use_type_invariant(&*self);
        }
        let mut evs = self.evs;
        evs.setSPD(newSPD);
        self.evs = evs;
    }

    /// Setter for Pokemon SPC EV
    pub fn setEV_SPC(&mut self, newSPC: u16)
        ensures
            final(self)@ == old(self)@.with_ev(SPC as int, newSPC),
    {
        proof {
            use_type_invariant(&*self);
        }
        let mut evs = self.evs;
        evs.setSPC(newSPC);
        self.evs = evs;
    }

    // SETTERS FOR IVs
    /// Setter for Pokemon HP IV: a value above 15 is rejected.
    pub fn setIV_HP(&mut self, newHP: u16) -> (changed: Result<bool, String>)
        ensures
            newHP <= MAX_IV ==> changed == Ok::<bool, String>(true) && final(self)@ == old(
                self,
            )@.with_iv(HP as int, newHP),
            newHP > MAX_IV ==> changed is Err && changed->Err_0@ == iv_error_text("HP"@, newHP)
                && final(self)@ == old(self)@,
    {
        proof {
            use_type_invariant(&*self);
        }
        let mut ivs = self.ivs;
        let changed = ivs.setHP(newHP);
        self.ivs = ivs;
        return changed;
    }

    /// Setter for Pokemon ATK IV: a value above 15 is rejected.
    pub fn setIV_ATK(&mut self, newATK: u16) -> (changed: Result<bool, String>)
        ensures
            newATK <= MAX_IV ==> changed == Ok::<bool, String>(true) && final(self)@ == old(
                self,
            )@.with_iv(ATK as int, newATK),
            newATK > MAX_IV ==> changed is Err && changed->Err_0@ == iv_error_text("ATK"@, newATK)
                && final(self)@ == old(self)@,
    {
        proof {
            use_type_invariant(&*self);
        }
        let mut ivs = self.ivs;
        let changed = ivs.setATK(newATK);
        self.ivs = ivs;
        return changed;
    }

    /// Setter for Pokemon DEF IV: a value above 15 is rejected.
    pub fn setIV_DEF(&mut self, newDEF: u16) -> (changed: Result<bool, String>)
        ensures
            newDEF <= MAX_IV ==> changed == Ok::<bool, String>(true) && final(self)@ == old(
                self,
            )@.with_iv(DEF as int, newDEF),
            newDEF > MAX_IV ==> changed is Err && changed->Err_0@ == iv_error_text("DEF"@, newDEF)
                && final(self)@ == old(self)@,
    {
        proof {
            use_type_invariant(&*self);
        }
        let mut ivs = self.ivs;
        let changed = ivs.setDEF(newDEF);
        self.ivs = ivs;
        return changed;
    }

    /// Setter for Pokemon SPD IV: a value above 15 is rejected.
    pub fn setIV_SPD(&mut self, newSPD: u16) -> (changed: Result<bool, String>)
        ensures
            newSPD <= MAX_IV ==> changed == Ok::<bool, String>(true) && final(self)@ == old(
                self,
            )@.with_iv(SPD as int, newSPD),
            newSPD > MAX_IV ==> changed is Err && changed->Err_0@ == iv_error_text("SPD"@, newSPD)
                && final(self)@ == old(self)@,
    {
        proof {
            use_type_invariant(&*self);
        }
        let mut ivs = self.ivs;
        let changed = ivs.setSPD(newSPD);
        self.ivs = ivs;
        return changed;
    }

    /// Setter for Pokemon SPC IV: a value above 15 is rejected.
    pub fn setIV_SPC(&mut self, newSPC: u16) -> (changed: Result<bool, String>)
        ensures
            newSPC <= MAX_IV ==> changed == Ok::<bool, String>(true) && final(self)@ == old(
                self,
            )@.with_iv(SPC as int, newSPC),
            newSPC > MAX_IV ==> changed is Err && changed->Err_0@ == iv_error_text("SPC"@, newSPC)
                && final(self)@ == old(self)@,
    {
        proof {
            use_type_invariant(&*self);
        }
        let mut ivs = self.ivs;
        let changed = ivs.setSPC(newSPC);
        self.ivs = ivs;
        return changed;
    }
}

/// Function for retrieving data about Pokemons moves: the four move slots
/// of the creature whose record starts at `currAddr`, each looked up in the
/// text of the move catalog. An image that ends before the slots is
/// refused.
pub fn getPokemonMoves(save: &Vec<u8>, currAddr: &usize, moveCatalog: &str) -> (moves: Result<
    Vec<Move>,
    String,
>)
    ensures
        !holds(save@, *currAddr as int, PP_OFF + 4) ==> moves is Err && moves->Err_0@ == error_text(
            CodecError::Truncated.message_text(),
        ),
        holds(save@, *currAddr as int, PP_OFF + 4) ==> match resolved_moves(
            slots_at(save@, *currAddr as int),
            moveCatalog@,
        ) {
            Ok(known) => moves is Ok && moves_view(moves->Ok_0@) == known,
            Err(error) => moves is Err && moves->Err_0@ == error,
        },
{
    if !inside(save, *currAddr, PP_OFF + 4) {
        return Err(formatError(CodecError::Truncated.message()));
    }
    return resolveMoves(&slotsAt(save, *currAddr), moveCatalog);
}

} // verus!
