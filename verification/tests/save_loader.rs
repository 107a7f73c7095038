#![allow(non_snake_case)]

use pkrust::save_loader::Save;

/// The text of a species catalog: Pokedex number, index, name and types.
fn species_catalog() -> String {
    String::from("112 0x01 Rhydon {8,10}\n115 0x02 Kangaskhan {0,18}\n1 0x99 Bulbasaur {5,6}\n4 0xB0 Charmander {1,18}\n")
}

#[test]
fn setTrainerName_Correct() {
    // This is the save we'll be testing with
    let mut currSave = Save::new(&species_catalog()).unwrap();

    // This is the trainer name we'll be setting
    let newName = String::from("Brock");

    // Now we change the name
    let nameChangeResult = currSave.setTrainerName(newName);

    // Once Gotten, we expect it to be Ok() and not Err()
    assert!(nameChangeResult.is_ok());
    // And we expect the unwrapped version of the name to be true
    assert_eq!(nameChangeResult.unwrap(), true);
}

#[test]
fn setTrainerName_Incorrect() {
    // This is the save we'll be testing with
    let mut currSave = Save::new(&species_catalog()).unwrap();

    // This is the trainer name we'll be setting.
    // The maximum length for a name in gen 1 is 7 chars.
    // Thus we will be testing with more than 7
    let newName = String::from("Professor Oak");

    // Now we change the name
    let nameChangeResult = currSave.setTrainerName(newName);

    // Once Gotten, we expect it to be Ok() and not Err()
    assert!(nameChangeResult.is_err());
    // And we expect the unwrapped version of the name to be true
    assert_eq!(nameChangeResult.unwrap_err(), "\u{1b}[0;31mError\u{1b}[0m: Name \"Professor Oak\" is over 7 characters.");
}

#[test]
fn setMoney_Correct() {
    let mut testSave = Save::new(&species_catalog()).unwrap();

    let newMoneyAmount:u32 = 1000;

    let moneyChangeResult = testSave.setMoney(newMoneyAmount);

    assert!(moneyChangeResult.is_ok());
    assert_eq!(moneyChangeResult.unwrap(), true);
}

#[test]
fn setMoney_Incorrect() {
    let mut testSave = Save::new(&species_catalog()).unwrap();

    let newMoneyAmount:u32 = 1_000_000;

    let moneyChangeResult = testSave.setMoney(newMoneyAmount);

    assert!(moneyChangeResult.is_err());
    assert_eq!(moneyChangeResult.unwrap_err(), "\u{1b}[0;31mError\u{1b}[0m: Amount \"1000000\" is over allowed maximum 999,999.") 
}

#[test]
fn setID_Correct() {
    let mut testSave = Save::new(&species_catalog()).unwrap();

    let newID:u16 = 12345;

    testSave.setID(newID);

    assert_eq!(testSave.getTrainerID(), &newID);
}

#[test]
fn setPartyPokemonNick_CorrectIndex() {
    let mut testSave = Save::new(&species_catalog()).unwrap();

    let newNickname = String::from("Jimsaur");

    let nicknameChangeResult = testSave.setPartyPokemonNick(0, newNickname);

    assert!(nicknameChangeResult.is_ok());
    assert_eq!(nicknameChangeResult.unwrap(), true);
}

#[test]
fn setPartyPokemonNick_IncorrectIndex() {
    let mut testSave = Save::new(&species_catalog()).unwrap();

    let newNickname = String::from("Charmander");

    // We'll try to edit a pokemon that doesn't exist
    let nicknameChangeResult = testSave.setPartyPokemonNick(1, newNickname);

    assert!(nicknameChangeResult.is_err());
    assert_eq!(nicknameChangeResult.unwrap_err(), "\u{1b}[0;31mError\u{1b}[0m: There is no Pokemon in party slot 1");
}

#[test]
fn setPartyPokemonNick_CorrectLength() {
    let mut testSave = Save::new(&species_catalog()).unwrap();

    // Length 10, boundary value
    let newNickname = String::from("Jimbosarus");

    let nicknameChangeResult = testSave.setPartyPokemonNick(0, newNickname);

    assert!(nicknameChangeResult.is_ok());
    assert_eq!(nicknameChangeResult.unwrap(), true);
}

#[test]
fn setPartyPokemonNick_IncorrectLength() {
    let mut testSave = Save::new(&species_catalog()).unwrap();

    // Length 15, too high
    let newNickname = String::from("Jimbosaurus Rex");

    let nicknameChangeResult = testSave.setPartyPokemonNick(0, newNickname);

    assert!(nicknameChangeResult.is_err());
    assert_eq!(nicknameChangeResult.unwrap_err(), "\u{1b}[0;31mError\u{1b}[0m: Length of nickname \"Jimbosaurus Rex\" is over 10 characters.");
}

#[test]
fn setPartyPokemonLevel_Correct() {
    let mut testSave = Save::new(&species_catalog()).unwrap();

    let newLevel:i8 = 100;

    let levelChangeResult = testSave.setPartyPokemonLevel(0, newLevel);

    assert!(levelChangeResult.is_ok());
    assert_eq!(levelChangeResult.unwrap(), true); 
}

#[test]
fn setPartyPokemonLevel_IncorrectIndex() {
    let mut testSave = Save::new(&species_catalog()).unwrap();

    let newLevel:i8 = 100;

    let levelChangeResult = testSave.setPartyPokemonLevel(1, newLevel);

    assert!(levelChangeResult.is_err());
    assert_eq!(levelChangeResult.unwrap_err(), "\u{1b}[0;31mError\u{1b}[0m: There is no Pokemon in party slot 1"); 
}

#[test]
fn setPartyPokemonLevel_IncorrectUnder() {
    let mut testSave = Save::new(&species_catalog()).unwrap();

    let newLevel:i8 = 0;

    let levelChangeResult = testSave.setPartyPokemonLevel(0, newLevel);

    assert!(levelChangeResult.is_err());
    assert_eq!(levelChangeResult.unwrap_err(), "\u{1b}[0;31mError\u{1b}[0m: Value of new level \"0\" is under allowed minimum 1"); 
}

#[test]
fn setPartyPokemonLevel_IncorrectOver() {
    let mut testSave = Save::new(&species_catalog()).unwrap();

    let newLevel:i8 = 101;

    let levelChangeResult = testSave.setPartyPokemonLevel(0, newLevel);

    assert!(levelChangeResult.is_err());
    assert_eq!(levelChangeResult.unwrap_err(), "\u{1b}[0;31mError\u{1b}[0m: Value of new level \"101\" is over allowed maximum 100"); 
}

#[test]
fn setPartyPokemonOTID_Correct() {
    let mut testSave = Save::new(&species_catalog()).unwrap();

    let newOTID = u16::MAX;

    let changeOTIDResult = testSave.setPartyPokemonOTID(0, newOTID);

    assert!(changeOTIDResult.is_ok());
    assert_eq!(changeOTIDResult.unwrap(), true);
}

#[test]
fn setPartyPokemonOTID_IncorrectIndex() {
    let mut testSave = Save::new(&species_catalog()).unwrap();

    let newOTID = u16::MAX;

    let changeOTIDResult = testSave.setPartyPokemonOTID(1, newOTID);

    assert!(changeOTIDResult.is_err());
    assert_eq!(changeOTIDResult.unwrap_err(), "\u{1b}[0;31mError\u{1b}[0m: There is no Pokemon in party slot 1");
}

#[test]
fn setPartyPokemonOTN_CorrectIndex() {
    let mut testSave = Save::new(&species_catalog()).unwrap();

    let newOTN = String::from("Brock");

    let nicknameChangeResult = testSave.setPartyPokemonOTN(0, newOTN);

    assert!(nicknameChangeResult.is_ok());
    assert_eq!(nicknameChangeResult.unwrap(), true);
}

#[test]
fn setPartyPokemonOTN_IncorrectIndex() {
    let mut testSave = Save::new(&species_catalog()).unwrap();

    let newOTN = String::from("Brock");

    let nicknameChangeResult = testSave.setPartyPokemonOTN(1, newOTN);

    assert!(nicknameChangeResult.is_err());
    assert_eq!(nicknameChangeResult.unwrap_err(), "\u{1b}[0;31mError\u{1b}[0m: There is no Pokemon in party slot 1");
}

#[test]
fn setPartyPokemonOTN_CorrectLength() {
    let mut testSave = Save::new(&species_catalog()).unwrap();

    let newOTN = String::from("Brock");

    let nicknameChangeResult = testSave.setPartyPokemonOTN(0, newOTN);

    assert!(nicknameChangeResult.is_ok());
    assert_eq!(nicknameChangeResult.unwrap(), true);
}

#[test]
fn setPartyPokemonOTN_IncorrectLength() {
    let mut testSave = Save::new(&species_catalog()).unwrap();

    let newOTN = String::from("Professor Oak");

    let nicknameChangeResult = testSave.setPartyPokemonOTN(0, newOTN);

    assert!(nicknameChangeResult.is_err());
    assert_eq!(nicknameChangeResult.unwrap_err(), "\u{1b}[0;31mError\u{1b}[0m: OTN \"Professor Oak\" is over 7 characters.");
}

#[test]
fn setPartyPokemonEV_HP_Correct() {
    let mut testSave = Save::new(&species_catalog()).unwrap();

    let newHP: u16 = 65_535;

    let changeHPResult = testSave.setPartyPokemonEV_HP(0, newHP);

    assert!(changeHPResult.is_ok());
    assert_eq!(changeHPResult.unwrap(), true); 
}

#[test]
fn setPartyPokemonEV_HP_IncorrectIndex() {
    let mut testSave = Save::new(&species_catalog()).unwrap();

    let newHP: u16 = 65_535;

    let changeHPResult = testSave.setPartyPokemonEV_HP(1, newHP);

    assert!(changeHPResult.is_err());
    assert_eq!(changeHPResult.unwrap_err(), "\u{1b}[0;31mError\u{1b}[0m: There is no Pokemon in party slot 1"); 
}

#[test]
fn setPartyPokemonEV_ATK_Correct() {
    let mut testSave = Save::new(&species_catalog()).unwrap();

    let newATK: u16 = 65_535;

    let changeATKResult = testSave.setPartyPokemonEV_ATK(0, newATK);

    assert!(changeATKResult.is_ok());
    assert_eq!(changeATKResult.unwrap(), true); 
}

#[test]
fn setPartyPokemonEV_ATK_IncorrectIndex() {
    let mut testSave = Save::new(&species_catalog()).unwrap();

    let newATK: u16 = 65_535;

    let changeATKResult = testSave.setPartyPokemonEV_ATK(1, newATK);

    assert!(changeATKResult.is_err());
    assert_eq!(changeATKResult.unwrap_err(), "\u{1b}[0;31mError\u{1b}[0m: There is no Pokemon in party slot 1"); 
}

#[test]
fn setPartyPokemonEV_DEF_Correct() {
    let mut testSave = Save::new(&species_catalog()).unwrap();

    let newDEF: u16 = 65_535;

    let changeDEFResult = testSave.setPartyPokemonEV_HP(0, newDEF);

    assert!(changeDEFResult.is_ok());
    assert_eq!(changeDEFResult.unwrap(), true); 
}

#[test]
fn setPartyPokemonEV_DEF_IncorrectIndex() {
    let mut testSave = Save::new(&species_catalog()).unwrap();

    let newDEF: u16 = 65_535;

    let changeDEFResult = testSave.setPartyPokemonEV_DEF(1, newDEF);

    assert!(changeDEFResult.is_err());
    assert_eq!(changeDEFResult.unwrap_err(), "\u{1b}[0;31mError\u{1b}[0m: There is no Pokemon in party slot 1"); 
}

#[test]
fn setPartyPokemonEV_SPD_Correct() {
    let mut testSave = Save::new(&species_catalog()).unwrap();

    let newSPD: u16 = 65_535;

    let changeSPDResult = testSave.setPartyPokemonEV_SPD(0, newSPD);

    assert!(changeSPDResult.is_ok());
    assert_eq!(changeSPDResult.unwrap(), true); 
}

#[test]
fn setPartyPokemonEV_SPD_IncorrectIndex() {
    let mut testSave = Save::new(&species_catalog()).unwrap();

    let newSPD: u16 = 65_535;

    let changeSPDResult = testSave.setPartyPokemonEV_SPD(1, newSPD);

    assert!(changeSPDResult.is_err());
    assert_eq!(changeSPDResult.unwrap_err(), "\u{1b}[0;31mError\u{1b}[0m: There is no Pokemon in party slot 1"); 
}

#[test]
fn setPartyPokemonEV_SPC_Correct() {
    let mut testSave = Save::new(&species_catalog()).unwrap();

    let newSPC: u16 = 65_535;

    let changeSPCResult = testSave.setPartyPokemonEV_SPC(0, newSPC);

    assert!(changeSPCResult.is_ok());
    assert_eq!(changeSPCResult.unwrap(), true); 
}

#[test]
fn setPartyPokemonEV_SPC_IncorrectIndex() {
    let mut testSave = Save::new(&species_catalog()).unwrap();

    let newSPC: u16 = 65_535;

    let changeSPCResult = testSave.setPartyPokemonEV_SPC(1, newSPC);

    assert!(changeSPCResult.is_err());
    assert_eq!(changeSPCResult.unwrap_err(), "\u{1b}[0;31mError\u{1b}[0m: There is no Pokemon in party slot 1"); 
}

#[test]
fn setPartyPokemonIV_HP_Correct() {
    let mut testSave = Save::new(&species_catalog()).unwrap();

    let newHP:u16 = 15;

    let changeHPResult = testSave.setPartyPokemonIV_HP(0, newHP);

    assert!(changeHPResult.is_ok());
    assert_eq!(changeHPResult.unwrap(), true);
}

#[test]
fn setPartyPokemonIV_HP_IncorrectIndex() {
    let mut testSave = Save::new(&species_catalog()).unwrap();

    let newHP:u16 = 15;

    let changeHPResult = testSave.setPartyPokemonIV_HP(1, newHP);

    assert!(changeHPResult.is_err());
    assert_eq!(changeHPResult.unwrap_err(), "\u{1b}[0;31mError\u{1b}[0m: There is no Pokemon in party slot 1");
}

#[test]
fn setPartyPokemonIV_HP_IncorrectOver() {
    let mut testSave = Save::new(&species_catalog()).unwrap();

    // Over the limit of 15
    let newHP:u16 = 16;

    let changeHPResult = testSave.setPartyPokemonIV_HP(0, newHP);

    assert!(changeHPResult.is_err());
    assert_eq!(changeHPResult.unwrap_err(), "\u{1b}[0;31mError\u{1b}[0m: HP IV value is \"16\", which is over max value 15");
}

#[test]
fn setPartyPokemonIV_ATK_Correct() {
    let mut testSave = Save::new(&species_catalog()).unwrap();

    let newATK:u16 = 15;

    let changeATKResult = testSave.setPartyPokemonIV_ATK(0, newATK);

    assert!(changeATKResult.is_ok());
    assert_eq!(changeATKResult.unwrap(), true);
}

#[test]
fn setPartyPokemonIV_ATK_IncorrectIndex() {
    let mut testSave = Save::new(&species_catalog()).unwrap();

    let newATK:u16 = 15;

    let changeATKResult = testSave.setPartyPokemonIV_ATK(1, newATK);

    assert!(changeATKResult.is_err());
    assert_eq!(changeATKResult.unwrap_err(), "\u{1b}[0;31mError\u{1b}[0m: There is no Pokemon in party slot 1");
}

#[test]
fn setPartyPokemonIV_ATK_IncorrectOver() {
    let mut testSave = Save::new(&species_catalog()).unwrap();

    // Over the limit of 15
    let newATK:u16 = 16;

    let changeATKResult = testSave.setPartyPokemonIV_ATK(0, newATK);

    assert!(changeATKResult.is_err());
    assert_eq!(changeATKResult.unwrap_err(), "\u{1b}[0;31mError\u{1b}[0m: ATK IV value is \"16\", which is over max value 15");
}

#[test]
fn setPartyPokemonIV_DEF_Correct() {
    let mut testSave = Save::new(&species_catalog()).unwrap();

    let newDEF:u16 = 15;

    let changeDEFResult = testSave.setPartyPokemonIV_DEF(0, newDEF);

    assert!(changeDEFResult.is_ok());
    assert_eq!(changeDEFResult.unwrap(), true);
}

#[test]
fn setPartyPokemonIV_DEF_IncorrectIndex() {
    let mut testSave = Save::new(&species_catalog()).unwrap();

    let newDEF:u16 = 15;

    let changeDEFResult = testSave.setPartyPokemonIV_DEF(1, newDEF);

    assert!(changeDEFResult.is_err());
    assert_eq!(changeDEFResult.unwrap_err(), "\u{1b}[0;31mError\u{1b}[0m: There is no Pokemon in party slot 1");
}

#[test]
fn setPartyPokemonIV_DEF_IncorrectOver() {
    let mut testSave = Save::new(&species_catalog()).unwrap();

    // Over the limit of 15
    let newDEF:u16 = 16;

    let changeDEFResult = testSave.setPartyPokemonIV_DEF(0, newDEF);

    assert!(changeDEFResult.is_err());
    assert_eq!(changeDEFResult.unwrap_err(), "\u{1b}[0;31mError\u{1b}[0m: DEF IV value is \"16\", which is over max value 15");
}

#[test]
fn setPartyPokemonIV_SPD_Correct() {
    let mut testSave = Save::new(&species_catalog()).unwrap();

    let newSPD:u16 = 15;

    let changeSPDResult = testSave.setPartyPokemonIV_SPD(0, newSPD);

    assert!(changeSPDResult.is_ok());
    assert_eq!(changeSPDResult.unwrap(), true);
}

#[test]
fn setPartyPokemonIV_SPD_IncorrectIndex() {
    let mut testSave = Save::new(&species_catalog()).unwrap();

    let newSPD:u16 = 15;

    let changeSPDResult = testSave.setPartyPokemonIV_SPD(1, newSPD);

    assert!(changeSPDResult.is_err());
    assert_eq!(changeSPDResult.unwrap_err(), "\u{1b}[0;31mError\u{1b}[0m: There is no Pokemon in party slot 1");
}

#[test]
fn setPartyPokemonIV_SPD_IncorrectOver() {
    let mut testSave = Save::new(&species_catalog()).unwrap();

    // Over the limit of 15
    let newSPD:u16 = 16;

    let changeSPDResult = testSave.setPartyPokemonIV_SPD(0, newSPD);

    assert!(changeSPDResult.is_err());
    assert_eq!(changeSPDResult.unwrap_err(), "\u{1b}[0;31mError\u{1b}[0m: SPD IV value is \"16\", which is over max value 15");
}

#[test]
fn setPartyPokemonIV_SPC_Correct() {
    let mut testSave = Save::new(&species_catalog()).unwrap();

    let newSPC:u16 = 15;

    let changeSPCResult = testSave.setPartyPokemonIV_SPC(0, newSPC);

    assert!(changeSPCResult.is_ok());
    assert_eq!(changeSPCResult.unwrap(), true);
}

#[test]
fn setPartyPokemonIV_SPC_IncorrectIndex() {
    let mut testSave = Save::new(&species_catalog()).unwrap();

    let newSPC:u16 = 15;

    let changeSPCResult = testSave.setPartyPokemonIV_SPC(1, newSPC);

    assert!(changeSPCResult.is_err());
    assert_eq!(changeSPCResult.unwrap_err(), "\u{1b}[0;31mError\u{1b}[0m: There is no Pokemon in party slot 1");
}

#[test]
fn setPartyPokemonIV_SPC_IncorrectOver() {
    let mut testSave = Save::new(&species_catalog()).unwrap();

    // Over the limit of 15
    let newSPC:u16 = 16;

    let changeSPCResult = testSave.setPartyPokemonIV_SPC(0, newSPC);

    assert!(changeSPCResult.is_err());
    assert_eq!(changeSPCResult.unwrap_err(), "\u{1b}[0;31mError\u{1b}[0m: SPC IV value is \"16\", which is over max value 15");
}
