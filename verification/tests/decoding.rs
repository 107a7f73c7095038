#![allow(non_snake_case)]

use pkrust::addresses::{boxAddress, MIN_SAVE_LEN};
use pkrust::creature_data::pokemon::getPokemonMoves;
use pkrust::creature_data::pokemon_type::Type;
use pkrust::decoder::{decode, MoveSlot};
use pkrust::errors::CodecError;
use pkrust::save_loader::Save;
use pkrust::utils::{integrityCheck, textEncode};

const PARTY_ADDR: usize = 0x2F2C;
const CHECKSUM_RESULT: usize = 0x3523;

/// The text of a species catalog: Pokedex number, index, name and types.
fn species_catalog() -> String {
    String::from("112 0x01 Rhydon {8,10}\n115 0x02 Kangaskhan {0,18}\n1 0x99 Bulbasaur {5,6}\n4 0xB0 Charmander {1,18}\n")
}

/// The text of a move catalog: index, name and type.
fn move_catalog() -> String {
    String::from("001 Pound 0\n002 Karate+Chop 2\n033 Tackle 0\n045 Growl 0\n")
}

/// Stores the checksum of the image.
fn seal(image: &mut Vec<u8>) {
    let mut sum: u8 = 0;
    for address in 0x2598..0x3523 {
        sum = sum.wrapping_add(image[address]);
    }
    image[CHECKSUM_RESULT] = !sum;
}

/// Writes a name into the slot at the address.
fn put_name(image: &mut Vec<u8>, address: usize, name: &str) {
    let codes = textEncode(&String::from(name));
    for place in 0..11 {
        image[address + place] = codes[place] as u8;
    }
}

/// Writes the fields of a record that the party and the boxes store alike:
/// a Bulbasaur with the moves Tackle and Growl.
fn put_record(image: &mut Vec<u8>, address: usize) {
    image[address] = 0x99;
    // Current HP: 0x0123
    image[address + 0x01] = 0x01;
    image[address + 0x02] = 0x23;
    // Moves: Tackle, Growl, none, none
    image[address + 0x08] = 33;
    image[address + 0x09] = 45;
    // Original trainer: 0xBEEF
    image[address + 0x0C] = 0xBE;
    image[address + 0x0D] = 0xEF;
    // Effort values: 0x0102, 0x0304, 0x0506, 0x0708, 0xFFFF
    for (place, byte) in [1u8, 2, 3, 4, 5, 6, 7, 8, 0xFF, 0xFF].iter().enumerate() {
        image[address + 0x11 + place] = *byte;
    }
    // Individual values
    image[address + 0x1B] = 0x9C;
    image[address + 0x1C] = 0x6D;
    // PP: 35 of Tackle with one PP Up, 40 of Growl with three
    image[address + 0x1D] = 0x40 | 35;
    image[address + 0x1E] = 0xC0 | 40;
}

/// An image with a trainer, two creatures in the party and one creature
/// each in the boxes 0 and 7, and a checksum that matches.
fn image() -> Vec<u8> {
    let mut image: Vec<u8> = vec![0; 0x8000];
    put_name(&mut image, 0x2598, "RED");
    image[0x2605] = 0x30;
    image[0x2606] = 0x39;
    image[0x25F3] = 0x12;
    image[0x25F4] = 0x34;
    image[0x25F5] = 0x56;
    image[PARTY_ADDR] = 2;
    for slot in 0..2 {
        let address = PARTY_ADDR + 0x8 + slot * 0x2C;
        put_record(&mut image, address);
        image[address + 0x21] = 5 + slot as u8;
        // Battle stats: 0x0014, 0x000B, 0x000C, 0x000D, 0x010E
        for (place, byte) in [0u8, 0x14, 0, 0x0B, 0, 0x0C, 0, 0x0D, 1, 0x0E].iter().enumerate() {
            image[address + 0x22 + place] = *byte;
        }
        put_name(&mut image, address + 0x110, "ASH");
        put_name(&mut image, PARTY_ADDR + 0x152 + slot * 0xB, "Bulby");
    }
    image[PARTY_ADDR + 0x8 + 0x2C] = 0xB0;
    for pcBox in [0usize, 7] {
        let base = boxAddress(pcBox);
        image[base] = 1;
        put_record(&mut image, base + 0x16);
        image[base + 0x16 + 0x03] = 42;
        put_name(&mut image, base + 0x2AA, "GARY");
        put_name(&mut image, base + 0x386, "Boxed");
    }
    seal(&mut image);
    image
}

#[test]
fn decode_of_an_image_without_data() {
    let mut blank: Vec<u8> = vec![0; 0x8000];
    seal(&mut blank);
    let decoded = decode(&blank).unwrap();
    assert!(!decoded.checksum_mismatch);
    assert_eq!(decoded.model.trainer.name, "           ");
    assert_eq!(decoded.model.trainer.id, 0);
    assert_eq!(decoded.model.trainer.money, 0);
    assert!(decoded.model.party.is_empty());
    assert_eq!(decoded.model.boxes.len(), 12);
    for stored in &decoded.model.boxes {
        assert!(stored.is_empty());
    }
}

#[test]
fn decode_of_the_trainer() {
    let decoded = decode(&image()).unwrap();
    assert!(!decoded.checksum_mismatch);
    assert_eq!(decoded.model.trainer.name, "RED        ");
    assert_eq!(decoded.model.trainer.id, 12345);
    assert_eq!(decoded.model.trainer.money, 123_456);
}

#[test]
fn decode_of_the_party() {
    let decoded = decode(&image()).unwrap();
    let party = &decoded.model.party;
    assert_eq!(party.len(), 2);
    let first = &party[0];
    assert_eq!(first.species, 0x99);
    assert_eq!(first.level, 5);
    assert_eq!(first.nickname, "Bulby      ");
    assert_eq!(first.ot, 0xBEEF);
    assert_eq!(first.otn, "ASH        ");
    assert_eq!(first.hp, 0x0123);
    assert_eq!(
        first.moves,
        [
            MoveSlot { index: 33, pp: 35, ppup: 1 },
            MoveSlot { index: 45, pp: 40, ppup: 3 },
            MoveSlot { index: 0, pp: 0, ppup: 0 },
            MoveSlot { index: 0, pp: 0, ppup: 0 },
        ]
    );
    assert_eq!(first.evs, [0x0102, 0x0304, 0x0506, 0x0708, 0xFFFF]);
    assert_eq!(first.ivs, [9, 9, 12, 6, 13]);
    assert_eq!(first.stats, [0x0014, 0x000B, 0x000C, 0x000D, 0x010E]);
    let second = &party[1];
    assert_eq!(second.species, 0xB0);
    assert_eq!(second.level, 6);
    assert_eq!(second.nickname, "Bulby      ");
    assert_eq!(second.otn, "ASH        ");
}

#[test]
fn decode_of_the_boxes() {
    let decoded = decode(&image()).unwrap();
    let boxes = &decoded.model.boxes;
    assert_eq!(boxes.len(), 12);
    for pcBox in 0..12 {
        if pcBox == 0 || pcBox == 7 {
            assert_eq!(boxes[pcBox].len(), 1);
            let stored = &boxes[pcBox][0];
            assert_eq!(stored.species, 0x99);
            assert_eq!(stored.level, 42);
            assert_eq!(stored.nickname, "Boxed      ");
            assert_eq!(stored.otn, "GARY       ");
            assert_eq!(stored.ot, 0xBEEF);
            assert_eq!(stored.hp, 0x0123);
            assert_eq!(stored.moves[0], MoveSlot { index: 33, pp: 35, ppup: 1 });
            assert_eq!(stored.moves.len(), 4);
            assert_eq!(stored.evs, [0x0102, 0x0304, 0x0506, 0x0708, 0xFFFF]);
            assert_eq!(stored.ivs, [9, 9, 12, 6, 13]);
            // A box stores no battle stats
            assert_eq!(stored.stats, [0, 0, 0, 0, 0]);
        } else {
            assert!(boxes[pcBox].is_empty());
        }
    }
}

#[test]
fn decode_reads_signed_levels_and_hp() {
    let mut image = image();
    image[PARTY_ADDR + 0x8 + 0x21] = 0xFF;
    image[PARTY_ADDR + 0x8 + 0x01] = 0x80;
    image[PARTY_ADDR + 0x8 + 0x02] = 0x00;
    let decoded = decode(&image).unwrap();
    assert_eq!(decoded.model.party[0].level, -1);
    assert_eq!(decoded.model.party[0].hp, -32768);
}

#[test]
fn decode_caps_the_counts() {
    let mut image = image();
    image[PARTY_ADDR] = 200;
    image[boxAddress(3)] = 255;
    image[boxAddress(11)] = 21;
    let decoded = decode(&image).unwrap();
    assert_eq!(decoded.model.party.len(), 6);
    assert_eq!(decoded.model.boxes[3].len(), 20);
    assert_eq!(decoded.model.boxes[11].len(), 20);
    image[PARTY_ADDR] = 6;
    image[boxAddress(3)] = 20;
    let decoded = decode(&image).unwrap();
    assert_eq!(decoded.model.party.len(), 6);
    assert_eq!(decoded.model.boxes[3].len(), 20);
}

#[test]
fn decode_of_a_truncated_image() {
    assert_eq!(decode(&Vec::new()).unwrap_err(), CodecError::Truncated);
    assert_eq!(decode(&vec![0; 1]).unwrap_err(), CodecError::Truncated);
    assert_eq!(decode(&vec![0; 0x3524]).unwrap_err(), CodecError::Truncated);
    let mut image = image();
    image.truncate(MIN_SAVE_LEN - 1);
    assert_eq!(decode(&image).unwrap_err(), CodecError::Truncated);
    // With full boxes every byte up to the minimum length is read
    let mut shortest: Vec<u8> = vec![0; MIN_SAVE_LEN];
    shortest[PARTY_ADDR] = 6;
    for pcBox in 0..12 {
        shortest[boxAddress(pcBox)] = 20;
    }
    shortest[MIN_SAVE_LEN - 1] = 0x80;
    let decoded = decode(&shortest).unwrap();
    assert_eq!(decoded.model.boxes[11][19].nickname, "          A");
}

#[test]
fn decode_of_money_that_is_no_decimal_number() {
    let mut image = image();
    image[0x25F4] = 0x3A;
    seal(&mut image);
    assert_eq!(decode(&image).unwrap_err(), CodecError::MalformedMoney);
}

#[test]
fn decode_does_not_depend_on_the_checksum() {
    let valid = image();
    let reference = decode(&valid).unwrap();
    assert!(!reference.checksum_mismatch);
    for stored in 0..=255u8 {
        let mut corrupted = valid.clone();
        corrupted[CHECKSUM_RESULT] = stored;
        let decoded = decode(&corrupted).unwrap();
        assert_eq!(decoded.checksum_mismatch, stored != valid[CHECKSUM_RESULT]);
        assert_eq!(decoded.checksum_mismatch, !integrityCheck(&corrupted));
        assert_eq!(format!("{:?}", decoded.model), format!("{:?}", reference.model));
    }
}

#[test]
fn load_ValidFile() {
    let saveFile = Save::load(&image(), &species_catalog(), &move_catalog());

    assert!(saveFile.is_ok());
    assert!(!saveFile.unwrap().checksum_mismatch);
}

#[test]
fn load_InvalidFile() {
    let mut corrupted = image();
    corrupted[CHECKSUM_RESULT] ^= 0x01;
    let saveFile = Save::load(&corrupted, &species_catalog(), &move_catalog());

    // A checksum that does not match is reported beside the save
    assert!(saveFile.is_ok());
    let loaded = saveFile.unwrap();
    assert!(loaded.checksum_mismatch);
    let reference = Save::load(&image(), &species_catalog(), &move_catalog()).unwrap();
    assert_eq!(loaded.save.to_string(), reference.save.to_string());
    assert_eq!(loaded.save.getParty().len(), 2);
    assert_eq!(loaded.save.getPCBoxes().len(), 12);
    assert_eq!(loaded.save.getTrainerName(), "RED        ");
}

#[test]
fn load_does_not_depend_on_the_checksum() {
    let valid = image();
    let reference = Save::load(&valid, &species_catalog(), &move_catalog()).unwrap();
    assert!(!reference.checksum_mismatch);
    for stored in 0..=255u8 {
        let mut corrupted = valid.clone();
        corrupted[CHECKSUM_RESULT] = stored;
        let loaded = Save::load(&corrupted, &species_catalog(), &move_catalog()).unwrap();
        assert_eq!(loaded.checksum_mismatch, stored != valid[CHECKSUM_RESULT]);
        assert_eq!(loaded.checksum_mismatch, !integrityCheck(&corrupted));
        assert_eq!(loaded.save.to_string(), reference.save.to_string());
    }
    // A lookup that fails does so with or without a checksum that matches
    let mut corrupted = valid.clone();
    corrupted[CHECKSUM_RESULT] ^= 0xFF;
    assert_eq!(
        Save::load(&corrupted, "", &move_catalog()).unwrap_err(),
        Save::load(&valid, "", &move_catalog()).unwrap_err()
    );
}

#[test]
fn load_of_a_truncated_image() {
    let saveFile = Save::load(&vec![0; 100], &species_catalog(), &move_catalog());
    assert_eq!(
        saveFile.unwrap_err(),
        "\u{1b}[0;31mError\u{1b}[0m: Save is shorter than a first generation save image"
    );
}

#[test]
fn load_gives_the_save() {
    let loaded = Save::load(&image(), &species_catalog(), &move_catalog()).unwrap();
    assert!(!loaded.checksum_mismatch);
    let save = loaded.save;
    assert_eq!(save.getTrainerName(), "RED        ");
    assert_eq!(save.getTrainerID(), &12345);
    assert_eq!(save.getMoney(), &123_456);
    let party = save.getParty();
    assert_eq!(party.len(), 2);
    assert_eq!(party[0].getSpecies().getName(), "Bulbasaur");
    assert_eq!(party[0].getSpecies().getIndex(), &0x99);
    assert_eq!(party[0].getSpecies().getPokedex(), &1);
    assert_eq!(party[0].getSpecies().getTyping(), &[Type::Grass, Type::Poison]);
    assert_eq!(party[0].getNickname(), "Bulby      ");
    assert_eq!(party[0].getLevel(), &5);
    assert_eq!(party[0].getOTID(), &0xBEEF);
    assert_eq!(party[0].getOT(), &0xBEEF);
    assert_eq!(party[0].getOTN(), "ASH        ");
    assert_eq!(party[0].getHP(), &0x0123);
    let moves = party[0].getMoves();
    assert_eq!(moves.len(), 4);
    assert_eq!(moves[0].to_string(), "Tackle PP: 35 PP Up: 1");
    assert_eq!(moves[1].to_string(), "Growl PP: 40 PP Up: 3");
    assert_eq!(moves[2].to_string(), "Null PP: 0 PP Up: 0");
    assert_eq!(moves[3].to_string(), "Null PP: 0 PP Up: 0");
    assert_eq!(party[0].getEVs().getHP(), &0x0102);
    assert_eq!(party[0].getEVs().getATK(), &0x0304);
    assert_eq!(party[0].getEVs().getDEF(), &0x0506);
    assert_eq!(party[0].getEVs().getSPD(), &0x0708);
    assert_eq!(party[0].getEVs().getSPC(), &0xFFFF);
    assert_eq!(party[0].getIVs().getHP(), &9);
    assert_eq!(party[0].getIVs().getATK(), &9);
    assert_eq!(party[0].getIVs().getDEF(), &12);
    assert_eq!(party[0].getIVs().getSPD(), &6);
    assert_eq!(party[0].getIVs().getSPC(), &13);
    assert_eq!(party[0].getStats().hp, 0x0014);
    assert_eq!(party[0].getStats().atk, 0x000B);
    assert_eq!(party[0].getStats().def, 0x000C);
    assert_eq!(party[0].getStats().spd, 0x000D);
    assert_eq!(party[0].getStats().spc, 0x010E);
    assert_eq!(party[1].getSpecies().getName(), "Charmander");
    let boxes = save.getPCBoxes();
    assert_eq!(boxes.len(), 12);
    assert_eq!(boxes[0].len(), 1);
    assert_eq!(boxes[7].len(), 1);
    assert_eq!(boxes[1].len(), 0);
    assert_eq!(boxes[7][0].getNickname(), "Boxed      ");
    assert_eq!(boxes[7][0].getOTN(), "GARY       ");
    assert_eq!(boxes[7][0].getLevel(), &42);
    assert_eq!(boxes[7][0].getStats().hp, 0);
}

#[test]
fn load_without_a_species_or_a_move() {
    let save = Save::load(&image(), "1 0x99 Bulbasaur {5,6}\n", &move_catalog());
    assert_eq!(save.unwrap_err(), "Species with ID 0xB0 not found.");
    let save = Save::load(&image(), &species_catalog(), "033 Tackle 0\n");
    assert_eq!(save.unwrap_err(), "Move with ID 45 not found.");
    // The boxes are looked up before the party
    let save = Save::load(&image(), "4 0xB0 Charmander {1,18}\n", &move_catalog());
    assert_eq!(save.unwrap_err(), "Species with ID 0x99 not found.");
    // The moves are looked up before the species
    let save = Save::load(&image(), "", "");
    assert_eq!(save.unwrap_err(), "Move with ID 33 not found.");
}

#[test]
fn load_of_money_that_is_no_decimal_number() {
    let mut image = image();
    image[0x25F3] = 0xF0;
    seal(&mut image);
    let save = Save::load(&image, &species_catalog(), &move_catalog());
    assert_eq!(
        save.unwrap_err(),
        "\u{1b}[0;31mError\u{1b}[0m: Money is not stored as decimal digits"
    );
    // Decoding stops before any lookup
    let save = Save::load(&image, "", "");
    assert_eq!(
        save.unwrap_err(),
        "\u{1b}[0;31mError\u{1b}[0m: Money is not stored as decimal digits"
    );
}

#[test]
fn readers_of_a_truncated_image() {
    let short: Vec<u8> = vec![0; 0x2F50];
    let address: usize = PARTY_ADDR + 0x8;
    assert_eq!(Save::getNameFromSave(&vec![0; 0x25A2]), Err(CodecError::Truncated));
    assert!(Save::getNameFromSave(&vec![0; 0x25A3]).is_ok());
    assert_eq!(Save::getMoneyFromSave(&vec![0; 0x25F5]), Err(CodecError::Truncated));
    assert_eq!(Save::getMoneyFromSave(&vec![0; 0x25F6]), Ok(0));
    assert_eq!(Save::getTrainerIDFromSave(&vec![0; 0x2606]), Err(CodecError::Truncated));
    assert_eq!(Save::getTrainerIDFromSave(&vec![0; 0x2607]), Ok(0));
    assert_eq!(Save::getPokemonOTIDFromSave(&short, &address), Ok(0));
    assert_eq!(Save::getPokemonOTIDFromSave(&short, &0x2F42), Ok(0));
    assert_eq!(Save::getPokemonOTIDFromSave(&short, &0x2F43), Err(CodecError::Truncated));
    assert_eq!(Save::getPokemonOTIDFromSave(&short, &usize::MAX), Err(CodecError::Truncated));
    assert_eq!(Save::getPokemonHPFromSave(&short, &0x2F4D), Ok(0));
    assert_eq!(Save::getPokemonHPFromSave(&short, &0x2F4E), Err(CodecError::Truncated));
    assert!(Save::getPokemonNickFromSave(&short, &0x2F45).is_ok());
    assert_eq!(Save::getPokemonNickFromSave(&short, &0x2F46), Err(CodecError::Truncated));
    assert!(Save::getPokemonOTNameFromSave(&short, &0x2F45).is_ok());
    assert_eq!(Save::getPokemonOTNameFromSave(&short, &0x2F46), Err(CodecError::Truncated));
    assert_eq!(Save::getPokemonStatsFromSave(&short, &address), Err(CodecError::Truncated));
    assert_eq!(Save::getPokemonStatsFromSave(&short, &(address - 0x10)), Ok([0; 5]));
    assert_eq!(Save::getPokemonEVsFromSave(&short, &address), Ok([0; 5]));
    assert_eq!(Save::getPokemonEVsFromSave(&short, &(address + 2)), Err(CodecError::Truncated));
    assert_eq!(Save::getPokemonIVsFromSave(&short, &address), Err(CodecError::Truncated));
    assert_eq!(Save::getPokemonIVsFromSave(&short, &(address - 1)), Ok([0; 5]));
    let truncated = "\u{1b}[0;31mError\u{1b}[0m: Save is shorter than a first generation save image";
    assert_eq!(
        Save::getPokemonMovesFromSave(&short, &address, &move_catalog()).unwrap_err(),
        truncated
    );
    assert_eq!(getPokemonMoves(&short, &address, &move_catalog()).unwrap_err(), truncated);
    assert_eq!(
        Save::getPartyFromSave(&short, &species_catalog(), &move_catalog()).unwrap_err(),
        truncated
    );
    assert_eq!(
        Save::getPCBoxesFromSave(&short, &species_catalog(), &move_catalog()).unwrap_err(),
        truncated
    );
}

#[test]
fn readers_of_the_trainer() {
    let image = image();
    let codes: [i16; 11] = [0x91, 0x84, 0x83, 0x50, 0x50, 0x50, 0x50, 0x50, 0x50, 0x50, 0x50];
    assert_eq!(Save::getNameFromSave(&image), Ok(codes));
    assert_eq!(Save::getMoneyFromSave(&image), Ok(123_456));
    assert_eq!(Save::getTrainerIDFromSave(&image), Ok(12345));
    let party = Save::getPartyFromSave(&image, &species_catalog(), &move_catalog()).unwrap();
    assert_eq!(party.len(), 2);
    assert_eq!(party[1].getSpecies().getName(), "Charmander");
    let boxes = Save::getPCBoxesFromSave(&image, &species_catalog(), &move_catalog()).unwrap();
    assert_eq!(boxes.len(), 12);
    assert_eq!(boxes[0][0].getSpecies().getName(), "Bulbasaur");
}

#[test]
fn readers_of_a_creature() {
    let image = image();
    let address: usize = PARTY_ADDR + 0x8;
    assert_eq!(
        Save::getPokemonNickFromSave(&image, &(PARTY_ADDR + 0x152)).unwrap(),
        "Bulby      "
    );
    assert_eq!(
        Save::getPokemonOTNameFromSave(&image, &(address + 0x110)).unwrap(),
        "ASH        "
    );
    assert_eq!(Save::getPokemonIVsFromSave(&image, &address), Ok([9, 9, 12, 6, 13]));
    let moves = getPokemonMoves(&image, &address, &move_catalog()).unwrap();
    assert_eq!(moves.len(), 4);
    assert_eq!(moves[0].getName(), "Tackle");
    assert_eq!(moves[1].getName(), "Growl");
    assert_eq!(moves[2].getName(), "Null");
    assert_eq!(
        getPokemonMoves(&image, &address, "033 Tackle 0").unwrap_err(),
        "Move with ID 45 not found."
    );
}

#[test]
fn getTrainerIDFromSave_BitManipTest() {
    let mut testSave = image();

    for (high, low) in [(0x30u8, 0x39u8), (0x00, 0x00), (0xFF, 0xFF), (0x80, 0x01), (0x0A, 0xB0)] {
        testSave[0x2605] = high;
        testSave[0x2606] = low;

        // Get the ID with bit manipulation
        let readID = Save::getTrainerIDFromSave(&testSave).unwrap();
        // Get the expected ID with the simpled String-radix method
        let expectedlID = u16::from_str_radix(&format!("{:02X}{:02X}",testSave[0x2605],testSave[0x2606]), 16).unwrap();

        assert_eq!(readID, expectedlID);
    }
}

#[test]
fn getPokemonOTIDFromSave_BitManipTest() {
    let mut testSave = image();
    let testPkmnAddress: usize = PARTY_ADDR + 0x8 + 0x2C;

    for (high, low) in [(0xBEu8, 0xEFu8), (0x00, 0x00), (0xFF, 0xFF), (0x80, 0x01), (0x0A, 0xB0)] {
        testSave[testPkmnAddress + 0x0C] = high;
        testSave[testPkmnAddress + 0x0D] = low;

        // Get the ID with bit manipulation
        let readID = Save::getPokemonOTIDFromSave(&testSave, &testPkmnAddress).unwrap();
        // Get the expected ID with the simpled String-radix method
        let expectedlID = u16::from_str_radix(&format!("{:02X}{:02X}", testSave[testPkmnAddress+0x0C],testSave[testPkmnAddress+0x0C+1]),16).unwrap();

        assert_eq!(readID, expectedlID);
    }
}

#[test]
fn getPokemonHPFromSave_BitManipTest() {
    let mut testSave = image();
    let testPkmnAddress: usize = PARTY_ADDR + 0x8 + 0x2C;

    for (high, low) in [(0x01u8, 0x23u8), (0x00, 0x00), (0x7F, 0xFF), (0x00, 0x64), (0x0A, 0xB0)] {
        testSave[testPkmnAddress + 0x01] = high;
        testSave[testPkmnAddress + 0x02] = low;

        // Get the HP with bit manipulation
        let readHP = Save::getPokemonHPFromSave(&testSave, &testPkmnAddress).unwrap();
        // Get the expected HP with the simpled String-radix method
        let expectedHP = i16::from_str_radix(&format!("{:02X}{:02X}",testSave[testPkmnAddress+0x01],testSave[testPkmnAddress+0x01+1]), 16).unwrap();

        assert_eq!(readHP, expectedHP);
    }
}

#[test]
fn getPokemonStatsFromSave_BitManipTest() {
    let testSave = image();
    let testPkmnAddress: usize = PARTY_ADDR + 0x8 + 0x2C;

    // Get the stats with bit manipulation
    let readStats = Save::getPokemonStatsFromSave(&testSave, &testPkmnAddress).unwrap();

    // Get the expected stats with the simpled String-radix method
    let mut expectedStats: [u16;5] = [12345; 5];
    for stat in 0..5 {
        let currAddr = testPkmnAddress+0x22+(stat*2);
        expectedStats[stat] = u16::from_str_radix(
                                        &format!("{:02X}{:02X}",testSave[currAddr],testSave[currAddr+1]),
                                        16
                                    ).unwrap();
    }

    assert_eq!(readStats, expectedStats);
    assert_eq!(readStats, [0x0014, 0x000B, 0x000C, 0x000D, 0x010E]);
}

#[test]
fn getPokemonEVsFromSave_BitManipTest() {
    let testSave = image();
    let testPkmnAddress: usize = PARTY_ADDR + 0x8 + 0x2C;

    // Get the stats with bit manipulation
    let readEVs = Save::getPokemonEVsFromSave(&testSave, &testPkmnAddress).unwrap();

    // Get the expected stats with the simpled String-radix method
    let mut expectedEVs: [u16;5] = [12345; 5];
    for ev in 0..5 {
        let currAddr = testPkmnAddress+0x11+(ev*2);
        expectedEVs[ev] = u16::from_str_radix(
                                        &format!("{:02X}{:02X}",testSave[currAddr],testSave[currAddr+1]),
                                        16
                                    ).unwrap();
    }

    assert_eq!(readEVs, expectedEVs);
    assert_eq!(readEVs, [0x0102, 0x0304, 0x0506, 0x0708, 0xFFFF]);
}

#[test]
fn getPokemonMovesFromSave_BitManipTest() {
    let testSave = image();
    let testPkmnAddress: usize = PARTY_ADDR + 0x8 + 0x2C;

    // First, let's get the PP values the old string way
    let mut expectedPPArr: [u16; 4] = [0; 4];
    let mut expectedPPUpArr: [u8; 4] = [0; 4];
    let moveAddr = testPkmnAddress + 0x08;

    for moves in 0..4 {
        let moveIndex = testSave[moveAddr+moves] as u16;
        let ppStr = format!("{:08b}",testSave[testPkmnAddress+0x1D+moves]);
        let (ppUp,pp) = ppStr.split_at(2);
        if moveIndex != 0 {
            expectedPPArr[moves] = u16::from_str_radix(pp, 2).unwrap();
            expectedPPUpArr[moves] = u8::from_str_radix(ppUp, 2).unwrap();
        }
    }

    // Now we do it the new way
    let actualMoves = Save::getPokemonMovesFromSave(&testSave, &testPkmnAddress, &move_catalog()).unwrap();

    let mut actualPPArr: [u16; 4] = [0; 4];
    let mut actualPPUpArr: [u8; 4] = [0; 4];

    for index in 0..4 {
        actualPPArr[index] = *actualMoves[index].getPP();
        actualPPUpArr[index] = *actualMoves[index].getPPUp();
    }

    // And finally, we assert that all these values are the same
    assert_eq!(actualPPArr,expectedPPArr);
    assert_eq!(actualPPUpArr,expectedPPUpArr);
    assert_eq!(actualPPArr, [35, 40, 0, 0]);
    assert_eq!(actualPPUpArr, [1, 3, 0, 0]);
}
