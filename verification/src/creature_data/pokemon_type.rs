//! The elemental types.

use vstd::prelude::*;

verus! {

#[derive(Debug, Clone, Copy, PartialEq, Eq, Structural)]
pub enum Type {
    Normal,
    Fire,
    Fighting,
    Water,
    Flying,
    Grass,
    Poison,
    Electric,
    Ground,
    Psychic,
    Rock,
    Ice,
    Bug,
    Dragon,
    /// The type of spectres.
    GhostType,
    Dark,
    Steel,
    Fairy,
    /// For single type pokemon
    Null,
}

/// The types with a number, each at its number.
pub open spec fn type_table() -> Seq<Type> {
    seq![
        Type::Normal,
        Type::Fire,
        Type::Fighting,
        Type::Water,
        Type::Flying,
        Type::Grass,
        Type::Poison,
        Type::Electric,
        Type::Ground,
        Type::Psychic,
        Type::Rock,
        Type::Ice,
        Type::Bug,
        Type::Dragon,
        Type::GhostType,
        Type::Dark,
        Type::Steel,
        Type::Fairy,
    ]
}

/// The type with the given number; `Null` for a number that no type has.
pub open spec fn type_of(index: int) -> Type {
    if 0 <= index < 18 {
        type_table()[index]
    } else {
        Type::Null
    }
}

impl Type {
    /// The type with the given number.
    pub fn get(index: &i16) -> (typing: Type)
        ensures
            typing == type_of(*index as int),
    {
        let returnType = match *index {
            0 => Type::Normal,
            1 => Type::Fire,
            2 => Type::Fighting,
            3 => Type::Water,
            4 => Type::Flying,
            5 => Type::Grass,
            6 => Type::Poison,
            7 => Type::Electric,
            8 => Type::Ground,
            9 => Type::Psychic,
            10 => Type::Rock,
            11 => Type::Ice,
            12 => Type::Bug,
            13 => Type::Dragon,
            14 => Type::GhostType,
            15 => Type::Dark,
            16 => Type::Steel,
            17 => Type::Fairy,
            18 => Type::Null,
            _ => Type::Null,
        };
        returnType
    }
}

} // verus!
