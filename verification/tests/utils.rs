#![allow(non_snake_case)]

use pkrust::utils::{textDecode, textEncode};

#[test]
fn textDecode_UppercaseLetter() {
    // Letter "P"
    let mut letterList: [i16; 11] = [0x50; 11];
    letterList[0] = 0x8F;
    assert_eq!(textDecode(&letterList),"P          ");
}

#[test]
fn textDecode_CapitalWord() {
    // Word "POKEMON"
    let word: [i16; 11] = [0x8F, 0x8E, 0x8A, 0x84, 0x8C, 0x8E, 0x8D, 0x50, 0x50, 0x50, 0x50];
    assert_eq!(textDecode(&word), "POKEMON    ");
}

#[test]
fn textDecode_LowercaseLetter() {
    // Letter "p"
    let mut letterList: [i16; 11] = [0x50; 11];
    letterList[0] = 0xAF;
    assert_eq!(textDecode(&letterList), "p          ");
}

#[test]
fn textDecode_LowercaseWord() {
    // Word "pokemon"
    let word: [i16; 11] = [0xAF, 0xAE, 0xAA, 0xA4, 0xAC, 0xAE, 0xAD, 0x50, 0x50, 0x50, 0x50];
    assert_eq!(textDecode(&word), "pokemon    ");
}

#[test]
fn textDecode_MixedcaseWord() {
    // Word "Pokemon"
    let word: [i16; 11] = [0x8F, 0xAE, 0xAA, 0xA4, 0xAC, 0xAE, 0xAD, 0x50, 0x50, 0x50, 0x50];
    assert_eq!(textDecode(&word), "Pokemon    ");
}

#[test]
fn textDecode_SpecialChar() {
    // Word "Pokemon"
    let word: [i16; 11] = [0x8F, 0xAE, 0xAA, 0xBA, 0xAC, 0xAE, 0xAD, 0x50, 0x50, 0x50, 0x50];
    assert_eq!(textDecode(&word), "Pokémon    ");
}

#[test]
fn textEncode_UppercaseLetter() {
    // Letter "P"
    let decodedText = String::from("P          ");

    let mut letterList: [i16; 11] = [0x50; 11];
    letterList[0] = 0x8F;
    assert_eq!(textEncode(&decodedText), letterList);
}

#[test]
fn textEncode_CapitalWord() {
    // Word "POKEMON"
    let decodedText = String::from("POKEMON    ");
    let word: [i16; 11] = [0x8F, 0x8E, 0x8A, 0x84, 0x8C, 0x8E, 0x8D, 0x50, 0x50, 0x50, 0x50];

    assert_eq!(textEncode(&decodedText), word);
}

#[test]
fn textEncode_LowercaseLetter() {
    // Letter "p"
    let decodedText = String::from("p          ");

    let mut letterList: [i16; 11] = [0x50; 11];
    letterList[0] = 0xAF;
    assert_eq!(textEncode(&decodedText), letterList);
}

#[test]
fn textEncode_LowercaseWord() {
    // Word "pokemon"
    let decodedText = String::from("pokemon    ");

    let word: [i16; 11] = [0xAF, 0xAE, 0xAA, 0xA4, 0xAC, 0xAE, 0xAD, 0x50, 0x50, 0x50, 0x50];
    assert_eq!(textEncode(&decodedText), word);
}

#[test]
fn textEncode_MixedcaseWord() {
    // Word "Pokemon"
    let decodedText = String::from("Pokemon    ");

    let word: [i16; 11] = [0x8F, 0xAE, 0xAA, 0xA4, 0xAC, 0xAE, 0xAD, 0x50, 0x50, 0x50, 0x50];
    assert_eq!(textEncode(&decodedText), word);
}

#[test]
fn textEncode_SpecialChar() {
    // Word "Pokemon"
    let decodedText = String::from("Pokémon    ");

    let word: [i16; 11] = [0x8F, 0xAE, 0xAA, 0xBA, 0xAC, 0xAE, 0xAD, 0x50, 0x50, 0x50, 0x50];
    assert_eq!(textEncode(&decodedText), word);
}
