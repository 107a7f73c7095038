#![allow(non_snake_case)]

use pkrust::creature_data::pokemon::Pokemon;
use pkrust::creature_data::pokemon_move::Move;
use pkrust::creature_data::pokemon_species::Species;
use pkrust::creature_data::pokemon_type::Type;
use pkrust::utils::textDecode;

/// The text of a species catalog: Pokedex number, index, name and types.
fn species_catalog() -> String {
    String::from("112 0x01 Rhydon {8,10}\n115 0x02 Kangaskhan {0,18}\n1 0x99 Bulbasaur {5,6}\n4 0xB0 Charmander {1,18}\n")
}

#[test]
fn Pkmn_getDetails() {
    // Test Pokemon is a Bulbasaur at level 10
    let testPkmn:Pokemon = Pokemon::get(
        &species_catalog(),
        0x99,
        10,
        "Testy".to_string(),
        vec![Move::empty(), Move::empty(), Move::empty(), Move::empty()],
        2, "Test Ketchum".to_string(),
        100,
        [0;5],
        [0;5],
        [0;5]
    ).unwrap();

    let stringPokemon:String = testPkmn.getDetails();
    let actualString = "Bulbasaur    Testy        LVL:10 Current HP: 100\n\tNull PP: 0 PP Up: 0\n\tNull PP: 0 PP Up: 0\n\tNull PP: 0 PP Up: 0\n\tNull PP: 0 PP Up: 0\n\n\n\tHP: 0\n\tATK: 0\n\tDEF:0\n\tSPD: 0\n\tSPCL: 0\n\n\tHP EV: 0\n\tATK EV: 0\n\tDEF EV:0\n\tSPD EV: 0\n\tSPCL EV: 0\n\n\tATK IV: 0\n\tDEF IV:0\n\tSPD IV: 0\n\tSPCL IV: 0\n";
    assert_eq!(stringPokemon, actualString);
}

#[test]
fn PkmnSpecies_parse_testCorrectPokemon() {
    // Id of the pokemon
    let id = 0x99;
    let parsedSpecies: Species = Species::parse(&species_catalog(), id).unwrap();

    let correctIndex: i16 = 0x99;
    let correctPokedex: i16 = 1;
    let correctName: String = "Bulbasaur".to_string();
    let correctTyping: [Type; 2] = [Type::Grass, Type::Poison];

    // Assert Name
    assert_eq!(&correctName, parsedSpecies.getName());
    // Assert Species ID
    assert_eq!(&correctIndex, parsedSpecies.getIndex());
    // Assert Pokedex
    assert_eq!(&correctPokedex, parsedSpecies.getPokedex());
    // Assert Typing
    assert_eq!(&correctTyping, parsedSpecies.getTyping());
}

#[test]
fn utils_textDecode_UppercaseLetter() {
    // Letter "P"
    let mut letterList: [i16; 11] = [0x00; 11];
    letterList[0] = 0x8F;
    assert_eq!(textDecode(&letterList),"P          ");
}

#[test]
fn textDecpde_CapitalWord() {
    // Word "POKEMON"
    let word: [i16; 11] = [0x8F, 0x8E, 0x8A, 0x84, 0x8C, 0x8E, 0x8D, 0x00, 0x00, 0x00, 0x00];
    assert_eq!(textDecode(&word), "POKEMON    ");
}

#[test]
fn utils_textDecode_LowercaseLetter() {
    // Letter "p"
    let mut letterList: [i16; 11] = [0x00; 11];
    letterList[0] = 0xAF;
    assert_eq!(textDecode(&letterList), "p          ");
}

#[test]
fn utils_textDecode_LowercaseWord() {
    // Word "pokemon"
    let word: [i16; 11] = [0xAF, 0xAE, 0xAA, 0xA4, 0xAC, 0xAE, 0xAD, 0x00, 0x00, 0x00, 0x00];
    assert_eq!(textDecode(&word), "pokemon    ");
}

#[test]
fn utils_textDecode_MixedcaseWord() {
    // Word "Pokemon"
    let word: [i16; 11] = [0x8F, 0xAE, 0xAA, 0xA4, 0xAC, 0xAE, 0xAD, 0x00, 0x00, 0x00, 0x00];
    assert_eq!(textDecode(&word), "Pokemon    ");
}
