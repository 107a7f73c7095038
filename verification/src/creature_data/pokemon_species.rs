//! The species of a creature, as the species catalog describes it.

use vstd::prelude::*;
use crate::catalog::{
    entryLine,
    entry_line,
    field,
    fieldOf,
    parseI16,
    parsed_i16,
    trimOf,
    trimmed,
};
use crate::creature_data::pokemon_type::{Type, type_of};
use crate::text::{charsOf, padded_left, pushUpperHex, stringOf, upper_hex, zeroPadded};

verus! {

/// What a species is.
pub struct SpeciesView {
    pub index: i16,
    pub pokedex: i16,
    pub name: Seq<char>,
    pub typing: Seq<Type>,
}

/// The sixteen bits of a signed number, read as an unsigned one.
pub open spec fn bits_of(index: i16) -> nat {
    if index < 0 {
        (index + 0x10000) as nat
    } else {
        index as nat
    }
}

/// The key of a species in the catalog: `0x`, then the index in
/// hexadecimal, in upper case and with at least two digits.
pub open spec fn species_key(index: i16) -> Seq<char> {
    "0x"@ + padded_left(upper_hex(bits_of(index)), '0', 2)
}

/// The message for a species that the catalog does not describe.
pub open spec fn species_not_found_text(index: i16) -> Seq<char> {
    "Species with ID "@ + species_key(index) + " not found."@
}

/// The two types that a text such as `{5,6}` names: two numbers, parted by
/// a comma, inside braces.
pub open spec fn typing_of(text: Seq<char>) -> Option<Seq<Type>> {
    let inner = trimmed(trimmed(text, '{'), '}');
    let first = field(inner, ',', 0);
    let second = field(inner, ',', 1);
    if first is Some && second is Some && parsed_i16(first->Some_0) is Some && parsed_i16(
        second->Some_0,
    ) is Some {
        Some(
            seq![
                type_of(parsed_i16(first->Some_0)->Some_0),
                type_of(parsed_i16(second->Some_0)->Some_0),
            ],
        )
    } else {
        None
    }
}

/// The species that a line of the catalog describes: its fields, parted by
/// spaces, are the Pokedex number, the index, the name and the two types.
pub open spec fn species_of_line(line: Seq<char>, index: i16) -> Option<SpeciesView> {
    let pokedex = field(line, ' ', 0);
    let name = field(line, ' ', 2);
    let types = field(line, ' ', 3);
    if pokedex is Some && name is Some && types is Some && parsed_i16(pokedex->Some_0) is Some
        && typing_of(types->Some_0) is Some {
        Some(
            SpeciesView {
                index,
                pokedex: parsed_i16(pokedex->Some_0)->Some_0 as i16,
                name: name->Some_0,
                typing: typing_of(types->Some_0)->Some_0,
            },
        )
    } else {
        None
    }
}

/// The species with the given index in a catalog: what the first line that
/// holds the key of the index describes.
pub open spec fn species_entry(catalog: Seq<char>, index: i16) -> Option<SpeciesView> {
    match entry_line(catalog, species_key(index)) {
        Some(line) => species_of_line(line, index),
        None => None,
    }
}

/**
 * The object that stores a the Pokemon Species
 * index: The index given to a pokemon sprite (0x01 being Rhydon)
 * pokedex: The number of the pokemon in the pokedex
 * name: The string name of the species
 * typing: an array holding the two types of a species
 */
#[derive(Debug)]
pub struct Species {
    index: i16,
    pokedex: i16,
    pub name: String,
    typing: [Type; 2],
}

impl View for Species {
    type V = SpeciesView;

    closed spec fn view(&self) -> SpeciesView {
        SpeciesView {
            index: self.index,
            pokedex: self.pokedex,
            name: self.name@,
            typing: self.typing@,
        }
    }
}

/// The key of a species in the catalog.
pub fn speciesKey(index: i16) -> (key: String)
    ensures
        key@ == species_key(index),
{
    let bits: u64 = if index < 0 {
        (index as i32 + 0x10000) as u64
    } else {
        index as u64
    };
    let mut digits = String::new();
    pushUpperHex(&mut digits, bits);
    assert(digits@ =~= upper_hex(bits_of(index)));
    let padded = zeroPadded(digits.as_str(), 2);
    String::from_str("0x").concat(padded.as_str())
}

/// The two types that a text such as `{5,6}` names.
fn typingOf(text: &Vec<char>) -> (typing: Option<[Type; 2]>)
    ensures
        match typing_of(text@) {
            Some(types) => typing is Some && typing->Some_0@ == types,
            None => typing is None,
        },
{
    let inner = trimOf(&trimOf(text, '{'), '}');
    let first = match fieldOf(&inner, ',', 0) {
        Some(part) => part,
        None => {
            return None;
        },
    };
    let second = match fieldOf(&inner, ',', 1) {
        Some(part) => part,
        None => {
            return None;
        },
    };
    let firstNumber: i16 = match parseI16(&first) {
        Some(number) => number,
        None => {
            return None;
        },
    };
    let secondNumber: i16 = match parseI16(&second) {
        Some(number) => number,
        None => {
            return None;
        },
    };
    let typing: [Type; 2] = [Type::get(&firstNumber), Type::get(&secondNumber)];
    assert(typing@ =~= typing_of(text@)->Some_0);
    Some(typing)
}

impl Species {
    /// A species has two types.
    pub proof fn lemma_two_types(self)
        ensures
            self@.typing.len() == 2,
    {
    }

    /// Looks a species up in the text of the species catalog. The species
    /// is the one of the first line that holds the key of the index; a
    /// catalog without such a line, or with one that does not describe a
    /// species, gives the message that the species was not found.
    pub fn parse(catalog: &str, index: i16) -> (species: Result<Species, String>)
        ensures
            match species_entry(catalog@, index) {
                Some(entry) => species is Ok && species->Ok_0@ == entry,
                None => species is Err && species->Err_0@ == species_not_found_text(index),
            },
    {
        let hexIndex = speciesKey(index);
        match Self::parseLine(&charsOf(catalog), &charsOf(hexIndex.as_str()), index) {
            Some(species) => Ok(species),
            None => {
                let mut message = String::from_str("Species with ID ");
                message.append(hexIndex.as_str());
                message.append(" not found.");
                Err(message)
            },
        }
    }

    /// The species that the first line with the key describes.
    fn parseLine(catalog: &Vec<char>, key: &Vec<char>, index: i16) -> (species: Option<Species>)
        ensures
            match entry_line(catalog@, key@) {
                Some(line) => match species_of_line(line, index) {
                    Some(entry) => species is Some && species->Some_0@ == entry,
                    None => species is None,
                },
                None => species is None,
            },
    {
        let parsedSpecies = match entryLine(catalog, key) {
            Some(line) => line,
            None => {
                return None;
            },
        };
        let first = match fieldOf(&parsedSpecies, ' ', 0) {
            Some(part) => part,
            None => {
                return None;
            },
        };
        let name = match fieldOf(&parsedSpecies, ' ', 2) {
            Some(part) => part,
            None => {
                return None;
            },
        };
        let types = match fieldOf(&parsedSpecies, ' ', 3) {
            Some(part) => part,
            None => {
                return None;
            },
        };
        let pokedex: i16 = match parseI16(&first) {
            Some(number) => number,
            None => {
                return None;
            },
        };
        let typing: [Type; 2] = match typingOf(&types) {
            Some(pair) => pair,
            None => {
                return None;
            },
        };
        Some(Species { index, pokedex, name: stringOf(&name), typing })
    }

    pub fn getIndex(&self) -> (index: &i16)
        ensures
            *index == self@.index,
    {
        return &self.index;
    }

    pub fn getPokedex(&self) -> (pokedex: &i16)
        ensures
            *pokedex == self@.pokedex,
    {
        return &self.pokedex;
    }

    pub fn getName(&self) -> (name: &String)
        ensures
            name@ == self@.name,
    {
        return &self.name;
    }

    pub fn getTyping(&self) -> (typing: &[Type; 2])
        ensures
            typing@ == self@.typing,
    {
        return &self.typing;
    }
}

} // verus!
