//! A move of a creature, as the move catalog describes it, with the PP the
//! creature has left for it.

use vstd::prelude::*;
use crate::catalog::{
    entryLine,
    entry_line,
    field,
    fieldOf,
    first_replaced,
    parseI16,
    parsed_i16,
    replaceFirst,
};
use crate::creature_data::pokemon_type::{Type, type_of};
use crate::text::{charsOf, decimal, decimalText, padded_left, pushDecimal, stringOf, zeroPadded};

verus! {

/// What a move is.
pub struct MoveView {
    pub index: u16,
    pub typing: Type,
    pub name: Seq<char>,
    pub pp: u16,
    pub ppup: u8,
}

/// The key of a move in the catalog: its index in decimal, with at least
/// three digits.
pub open spec fn move_key(index: u16) -> Seq<char> {
    padded_left(decimal(index as nat), '0', 3)
}

/// The message for a move that the catalog does not describe.
pub open spec fn move_not_found_text(index: u16) -> Seq<char> {
    "Move with ID "@ + decimal(index as nat) + " not found."@
}

/// The name and the type that a line of the catalog gives a move: its
/// fields, parted by spaces, are the index, the name, in which the first
/// plus sign stands for a space, and the number of the type.
pub open spec fn move_of_line(line: Seq<char>) -> Option<(Seq<char>, Type)> {
    let name = field(line, ' ', 1);
    let typing = field(line, ' ', 2);
    if name is Some && typing is Some && parsed_i16(typing->Some_0) is Some {
        Some((first_replaced(name->Some_0, '+', ' '), type_of(parsed_i16(typing->Some_0)->Some_0)))
    } else {
        None
    }
}

/// The move with the given index in a catalog, with the given PP and PP-Up
/// count: what the first line that holds the key of the index describes.
pub open spec fn move_entry(catalog: Seq<char>, index: u16, pp: u16, ppup: u8) -> Option<MoveView> {
    match entry_line(catalog, move_key(index)) {
        Some(line) => match move_of_line(line) {
            Some((name, typing)) => Some(MoveView { index, typing, name, pp, ppup }),
            None => None,
        },
        None => None,
    }
}

/// The move of an empty slot.
pub open spec fn empty_move() -> MoveView {
    MoveView { index: 0, typing: Type::Null, name: "Null"@, pp: 0, ppup: 0 }
}

/// The text that shows a move.
pub open spec fn move_text(shown: MoveView) -> Seq<char> {
    shown.name + " PP: "@ + decimal(shown.pp as nat) + " PP Up: "@ + decimal(shown.ppup as nat)
}

#[derive(Debug)]
pub struct Move {
    index: u16,
    typing: Type,
    name: String,
    pp: u16,
    ppup: u8,
}

impl View for Move {
    type V = MoveView;

    closed spec fn view(&self) -> MoveView {
        MoveView {
            index: self.index,
            typing: self.typing,
            name: self.name@,
            pp: self.pp,
            ppup: self.ppup,
        }
    }
}

/// The key of a move in the catalog.
pub fn moveKey(index: u16) -> (key: String)
    ensures
        key@ == move_key(index),
{
    let digits = decimalText(index as u64);
    zeroPadded(digits.as_str(), 3)
}

impl Move {
    /// Constructor for a Move, given an input move index: looks the move up
    /// in the text of the move catalog. The move is the one of the first
    /// line that holds the key of the index; a catalog without such a
    /// line, or with one that does not describe a move, gives the message
    /// that the move was not found.
    pub fn get(catalog: &str, index: u16, pp: u16, ppup: u8) -> (found: Result<Move, String>)
        ensures
            match move_entry(catalog@, index, pp, ppup) {
                Some(entry) => found is Ok && found->Ok_0@ == entry,
                None => found is Err && found->Err_0@ == move_not_found_text(index),
            },
    {
        let strIndex = moveKey(index);
        match Self::parseLine(&charsOf(catalog), &charsOf(strIndex.as_str())) {
            Some((name, typing)) => Ok(Move { index, typing, name, pp, ppup }),
            None => {
                let mut message = String::from_str("Move with ID ");
                pushDecimal(&mut message, index as u64);
                message.append(" not found.");
                Err(message)
            },
        }
    }

    /// The name and the type that the first line with the key gives.
    fn parseLine(catalog: &Vec<char>, key: &Vec<char>) -> (entry: Option<(String, Type)>)
        ensures
            match entry_line(catalog@, key@) {
                Some(line) => match move_of_line(line) {
                    Some((name, typing)) => entry is Some && entry->Some_0.0@ == name
                        && entry->Some_0.1 == typing,
                    None => entry is None,
                },
                None => entry is None,
            },
    {
        let moveLine = match entryLine(catalog, key) {
            Some(line) => line,
            None => {
                return None;
            },
        };
        let second = match fieldOf(&moveLine, ' ', 1) {
            Some(part) => part,
            None => {
                return None;
            },
        };
        let third = match fieldOf(&moveLine, ' ', 2) {
            Some(part) => part,
            None => {
                return None;
            },
        };
        let number: i16 = match parseI16(&third) {
            Some(number) => number,
            None => {
                return None;
            },
        };
        let name = stringOf(&replaceFirst(&second, '+', ' '));
        Some((name, Type::get(&number)))
    }

    /// Constructor for an empty Move slot
    pub fn empty() -> (slot: Move)
        ensures
            slot@ == empty_move(),
    {
        return Move { index: 0, typing: Type::Null, name: String::from_str("Null"), pp: 0, ppup: 0 }
    }

    /// Returns the info on a Pokemons moves for printing
    pub fn to_string(&self) -> (text: String)
        ensures
            text@ == move_text(self@),
    {
        let mut text = String::from_str(self.name.as_str());
        text.append(" PP: ");
        pushDecimal(&mut text, self.pp as u64);
        text.append(" PP Up: ");
        pushDecimal(&mut text, self.ppup as u64);
        text
    }

    pub fn getIndex(&self) -> (index: &u16)
        ensures
            *index == self@.index,
    {
        return &self.index;
    }

    pub fn getTyping(&self) -> (typing: &Type)
        ensures
            *typing == self@.typing,
    {
        return &self.typing;
    }

    pub fn getName(&self) -> (name: &String)
        ensures
            name@ == self@.name,
    {
        return &self.name;
    }

    pub fn getPP(&self) -> (pp: &u16)
        ensures
            *pp == self@.pp,
    {
        return &self.pp;
    }

    pub fn getPPUp(&self) -> (ppup: &u8)
        ensures
            *ppup == self@.ppup,
    {
        return &self.ppup;
    }
}

} // verus!
