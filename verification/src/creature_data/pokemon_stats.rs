//! The three blocks of five stats of a creature: battle stats, individual
//! values and effort values.

use vstd::prelude::*;
use crate::bitfield::MAX_IV;
use crate::text::{decimal, pushDecimal};
use crate::utils::{error_text, formatError};

verus! {

/// Place of the HP value in a block of stats.
pub const HP: usize = 0;

/// Place of the Attack value in a block of stats.
pub const ATK: usize = 1;

/// Place of the Defense value in a block of stats.
pub const DEF: usize = 2;

/// Place of the Speed value in a block of stats.
pub const SPD: usize = 3;

/// Place of the Special value in a block of stats.
pub const SPC: usize = 4;

/// Appends a label and the decimal numeral of a value.
fn pushLabelled(out: &mut String, label: &str, value: u16)
    ensures
        final(out)@ == old(out)@ + label@ + decimal(value as nat),
{
    out.append(label);
    pushDecimal(out, value as u64);
}

/// The text that shows a block of battle stats.
pub open spec fn stats_text(stats: Seq<u16>) -> Seq<char> {
    "\tHP: "@ + decimal(stats[0] as nat) + "\n\tATK: "@ + decimal(stats[1] as nat) + "\n\tDEF:"@
        + decimal(stats[2] as nat) + "\n\tSPD: "@ + decimal(stats[3] as nat) + "\n\tSPCL: "@
        + decimal(stats[4] as nat) + "\n"@
}

/// The text that shows a block of individual values. The HP value is not
/// shown.
pub open spec fn ivs_text(ivs: Seq<u16>) -> Seq<char> {
    "\tATK IV: "@ + decimal(ivs[1] as nat) + "\n\tDEF IV:"@ + decimal(ivs[2] as nat)
        + "\n\tSPD IV: "@ + decimal(ivs[3] as nat) + "\n\tSPCL IV: "@ + decimal(ivs[4] as nat)
        + "\n"@
}

/// The text that shows a block of effort values.
pub open spec fn evs_text(evs: Seq<u16>) -> Seq<char> {
    "\tHP EV: "@ + decimal(evs[0] as nat) + "\n\tATK EV: "@ + decimal(evs[1] as nat)
        + "\n\tDEF EV:"@ + decimal(evs[2] as nat) + "\n\tSPD EV: "@ + decimal(evs[3] as nat)
        + "\n\tSPCL EV: "@ + decimal(evs[4] as nat) + "\n"@
}

/// The message that rejects an individual value above 15.
pub open spec fn iv_error_text(stat: Seq<char>, value: u16) -> Seq<char> {
    error_text(
        stat + " IV value is \""@ + decimal(value as nat) + "\", which is over max value 15"@,
    )
}

/// Whether every value of a block is an individual value, at most 15.
pub open spec fn ivs_in_range(ivs: Seq<u16>) -> bool {
    forall|i: int| 0 <= i < ivs.len() ==> #[trigger] ivs[i] <= MAX_IV
}

/// Accepts an individual value of at most 15, and rejects any other with
/// the message that names the stat.
fn checkIV(stat: &str, value: u16) -> (checked: Result<bool, String>)
    ensures
        value <= MAX_IV ==> checked == Ok::<bool, String>(true),
        value > MAX_IV ==> checked is Err && checked->Err_0@ == iv_error_text(stat@, value),
{
    if value > MAX_IV {
        let mut message = String::from_str(stat);
        pushLabelled(&mut message, " IV value is \"", value);
        message.append("\", which is over max value 15");
        return Err(formatError(message));
    }
    Ok(true)
}

#[derive(Debug)]
pub struct Stats {
    pub hp: u16,
    pub atk: u16,
    pub def: u16,
    pub spd: u16,
    pub spc: u16,
}

impl View for Stats {
    type V = Seq<u16>;

    open spec fn view(&self) -> Seq<u16> {
        seq![self.hp, self.atk, self.def, self.spd, self.spc]
    }
}

impl Stats {
    /// Returns a string to display all stats
    pub fn to_string(&self) -> (text: String)
        ensures
            text@ == stats_text(self@),
    {
        let mut text = String::new();
        pushLabelled(&mut text, "\tHP: ", self.hp);
        pushLabelled(&mut text, "\n\tATK: ", self.atk);
        pushLabelled(&mut text, "\n\tDEF:", self.def);
        pushLabelled(&mut text, "\n\tSPD: ", self.spd);
        pushLabelled(&mut text, "\n\tSPCL: ", self.spc);
        text.append("\n");
        assert(text@ =~= stats_text(self@));
        text
    }
}

#[derive(Debug, Clone, Copy)]
pub struct IVs {
    hp: u16,
    atk: u16,
    def: u16,
    spd: u16,
    spc: u16,
}

impl View for IVs {
    type V = Seq<u16>;

    closed spec fn view(&self) -> Seq<u16> {
        seq![self.hp, self.atk, self.def, self.spd, self.spc]
    }
}

impl IVs {
    /// A block of individual values has five values.
    pub broadcast proof fn lemma_len(self)
        ensures
            #[trigger] self@.len() == 5,
    {
    }

    /// Returns a blank IV Struct
    pub fn new() -> (ivs: IVs)
        ensures
            ivs@ == seq![0u16, 0u16, 0u16, 0u16, 0u16],
    {
        return IVs { hp: 0, atk: 0, def: 0, spd: 0, spc: 0 };
    }

    /// Returns a string to display all stats
    pub fn to_string(&self) -> (text: String)
        ensures
            text@ == ivs_text(self@),
    {
        let mut text = String::new();
        pushLabelled(&mut text, "\tATK IV: ", self.atk);
        pushLabelled(&mut text, "\n\tDEF IV:", self.def);
        pushLabelled(&mut text, "\n\tSPD IV: ", self.spd);
        pushLabelled(&mut text, "\n\tSPCL IV: ", self.spc);
        text.append("\n");
        assert(text@ =~= ivs_text(self@));
        text
    }

    // ========   GETTERS   ========
    /// Getter for HP IV
    pub fn getHP(&self) -> (value: &u16)
        ensures
            *value == self@[HP as int],
    {
        return &self.hp;
    }

    /// Getter for ATK IV
    pub fn getATK(&self) -> (value: &u16)
        ensures
            *value == self@[ATK as int],
    {
        return &self.atk;
    }

    /// Getter for DEF IV
    pub fn getDEF(&self) -> (value: &u16)
        ensures
            *value == self@[DEF as int],
    {
        return &self.def;
    }

    /// Getter for SPD IV
    pub fn getSPD(&self) -> (value: &u16)
        ensures
            *value == self@[SPD as int],
    {
        return &self.spd;
    }

    /// Getter for SPC IV
    pub fn getSPC(&self) -> (value: &u16)
        ensures
            *value == self@[SPC as int],
    {
        return &self.spc;
    }

    // ========   SETTERS   ========
    /// Returns a full IV object from an array of values, in the order HP,
    /// Attack, Defense, Speed, Special. The values are taken as they are.
    pub fn setAll(ivArr: [u16; 5]) -> (ivs: IVs)
        ensures
            ivs@ == ivArr@,
            ivs@.len() == 5,
    {
        let ivs = IVs { hp: ivArr[0], atk: ivArr[1], def: ivArr[2], spd: ivArr[3], spc: ivArr[4] };
        assert(ivs@ =~= ivArr@);
        return ivs;
    }

    /// Setter for HP IV
    ///
    /// IV's can only be values 0-15. The value is stored as it is given,
    /// whether or not the lowest bits of the other four values spell it.
    pub fn setHP(&mut self, newHP: u16) -> (changed: Result<bool, String>)
        ensures
            newHP <= MAX_IV ==> changed == Ok::<bool, String>(true) && final(self)@ == old(
                self,
            )@.update(HP as int, newHP),
            newHP > MAX_IV ==> changed is Err && changed->Err_0@ == iv_error_text("HP"@, newHP)
                && final(self)@ == old(self)@,
            ivs_in_range(old(self)@) ==> ivs_in_range(final(self)@),
    {
        match checkIV("HP", newHP) {
            Ok(_) => {},
            Err(message) => {
                return Err(message);
            },
        }
        self.hp = newHP;
        assert(self@ =~= old(self)@.update(HP as int, newHP));
        return Ok(true);
    }

    /// Setter for Attack IV
    ///
    /// IV's can only be values 0-15
    pub fn setATK(&mut self, newATK: u16) -> (changed: Result<bool, String>)
        ensures
            newATK <= MAX_IV ==> changed == Ok::<bool, String>(true) && final(self)@ == old(
                self,
            )@.update(ATK as int, newATK),
            newATK > MAX_IV ==> changed is Err && changed->Err_0@ == iv_error_text("ATK"@, newATK)
                && final(self)@ == old(self)@,
            ivs_in_range(old(self)@) ==> ivs_in_range(final(self)@),
    {
        match checkIV("ATK", newATK) {
            Ok(_) => {},
            Err(message) => {
                return Err(message);
            },
        }
        self.atk = newATK;
        assert(self@ =~= old(self)@.update(ATK as int, newATK));
        return Ok(true);
    }

    /// Setter for Defence IV
    ///
    /// IV's can only be values 0-15
    pub fn setDEF(&mut self, newDEF: u16) -> (changed: Result<bool, String>)
        ensures
            newDEF <= MAX_IV ==> changed == Ok::<bool, String>(true) && final(self)@ == old(
                self,
            )@.update(DEF as int, newDEF),
            newDEF > MAX_IV ==> changed is Err && changed->Err_0@ == iv_error_text("DEF"@, newDEF)
                && final(self)@ == old(self)@,
            ivs_in_range(old(self)@) ==> ivs_in_range(final(self)@),
    {
        match checkIV("DEF", newDEF) {
            Ok(_) => {},
            Err(message) => {
                return Err(message);
            },
        }
        self.def = newDEF;
        assert(self@ =~= old(self)@.update(DEF as int, newDEF));
        return Ok(true);
    }

    /// Setter for Speed IV
    ///
    /// IV's can only be values 0-15
    pub fn setSPD(&mut self, newSPD: u16) -> (changed: Result<bool, String>)
        ensures
            newSPD <= MAX_IV ==> changed == Ok::<bool, String>(true) && final(self)@ == old(
                self,
            )@.update(SPD as int, newSPD),
            newSPD > MAX_IV ==> changed is Err && changed->Err_0@ == iv_error_text("SPD"@, newSPD)
                && final(self)@ == old(self)@,
            ivs_in_range(old(self)@) ==> ivs_in_range(final(self)@),
    {
        match checkIV("SPD", newSPD) {
            Ok(_) => {},
            Err(message) => {
                return Err(message);
            },
        }
        self.spd = newSPD;
        assert(self@ =~= old(self)@.update(SPD as int, newSPD));
        return Ok(true);
    }

    /// Setter for Special IV
    ///
    /// IV's can only be values 0-15
    pub fn setSPC(&mut self, newSPC: u16) -> (changed: Result<bool, String>)
        ensures
            newSPC <= MAX_IV ==> changed == Ok::<bool, String>(true) && final(self)@ == old(
                self,
            )@.update(SPC as int, newSPC),
            newSPC > MAX_IV ==> changed is Err && changed->Err_0@ == iv_error_text("SPC"@, newSPC)
                && final(self)@ == old(self)@,
            ivs_in_range(old(self)@) ==> ivs_in_range(final(self)@),
    {
        match checkIV("SPC", newSPC) {
            Ok(_) => {},
            Err(message) => {
                return Err(message);
            },
        }
        self.spc = newSPC;
        assert(self@ =~= old(self)@.update(SPC as int, newSPC));
        return Ok(true);
    }
}

#[derive(Debug, Clone, Copy)]
pub struct EVs {
    hp: u16,
    atk: u16,
    def: u16,
    spd: u16,
    spc: u16,
}

impl View for EVs {
    type V = Seq<u16>;

    closed spec fn view(&self) -> Seq<u16> {
        seq![self.hp, self.atk, self.def, self.spd, self.spc]
    }
}

impl EVs {
    /// A block of effort values has five values.
    pub broadcast proof fn lemma_len(self)
        ensures
            #[trigger] self@.len() == 5,
    {
    }

    /// Returns a string to display all EVs
    pub fn to_string(&self) -> (text: String)
        ensures
            text@ == evs_text(self@),
    {
        let mut text = String::new();
        pushLabelled(&mut text, "\tHP EV: ", self.hp);
        pushLabelled(&mut text, "\n\tATK EV: ", self.atk);
        pushLabelled(&mut text, "\n\tDEF EV:", self.def);
        pushLabelled(&mut text, "\n\tSPD EV: ", self.spd);
        pushLabelled(&mut text, "\n\tSPCL EV: ", self.spc);
        text.append("\n");
        assert(text@ =~= evs_text(self@));
        text
    }

    /// Returns a blank EV Struct
    pub fn new() -> (evs: EVs)
        ensures
            evs@ == seq![0u16, 0u16, 0u16, 0u16, 0u16],
    {
        return EVs { hp: 0, atk: 0, def: 0, spd: 0, spc: 0 };
    }

    // ========   GETTERS   ========
    /// Getter for HP EV
    pub fn getHP(&self) -> (value: &u16)
        ensures
            *value == self@[HP as int],
    {
        return &self.hp;
    }

    /// Getter for ATK EV
    pub fn getATK(&self) -> (value: &u16)
        ensures
            *value == self@[ATK as int],
    {
        return &self.atk;
    }

    /// Getter for DEF EV
    pub fn getDEF(&self) -> (value: &u16)
        ensures
            *value == self@[DEF as int],
    {
        return &self.def;
    }

    /// Getter for SPD EV
    pub fn getSPD(&self) -> (value: &u16)
        ensures
            *value == self@[SPD as int],
    {
        return &self.spd;
    }

    /// Getter for SPC EV
    pub fn getSPC(&self) -> (value: &u16)
        ensures
            *value == self@[SPC as int],
    {
        return &self.spc;
    }

    // ========   SETTERS   ========
    /// Returns a full EV object from an array of values, in the order HP,
    /// Attack, Defense, Speed, Special.
    pub fn setAll(evArr: [u16; 5]) -> (evs: EVs)
        ensures
            evs@ == evArr@,
            evs@.len() == 5,
    {
        let evs = EVs { hp: evArr[0], atk: evArr[1], def: evArr[2], spd: evArr[3], spc: evArr[4] };
        assert(evs@ =~= evArr@);
        return evs;
    }

    /// Setter for HP EV
    ///
    /// The limit for an EV is 65_535, so every value of the type is in range.
    pub fn setHP(&mut self, newHP: u16)
        ensures
            final(self)@ == old(self)@.update(HP as int, newHP),
    {
        self.hp = newHP;
        assert(self@ =~= old(self)@.update(HP as int, newHP));
    }

    /// Setter for Attack EV
    ///
    /// The limit for an EV is 65_535, so every value of the type is in range.
    pub fn setATK(&mut self, newATK: u16)
        ensures
            final(self)@ == old(self)@.update(ATK as int, newATK),
    {
        self.atk = newATK;
        assert(self@ =~= old(self)@.update(ATK as int, newATK));
    }

    /// Setter for Defence EV
    ///
    /// The limit for an EV is 65_535, so every value of the type is in range.
    pub fn setDEF(&mut self, newDEF: u16)
        ensures
            final(self)@ == old(self)@.update(DEF as int, newDEF),
    {
        self.def = newDEF;
        assert(self@ =~= old(self)@.update(DEF as int, newDEF));
    }

    /// Setter for Speed EV
    ///
    /// The limit for an EV is 65_535, so every value of the type is in range.
    pub fn setSPD(&mut self, newSPD: u16)
        ensures
            final(self)@ == old(self)@.update(SPD as int, newSPD),
    {
        self.spd = newSPD;
        assert(self@ =~= old(self)@.update(SPD as int, newSPD));
    }

    /// Setter for Special EV
    ///
    /// The limit for an EV is 65_535, so every value of the type is in range.
    pub fn setSPC(&mut self, newSPC: u16)
        ensures
            final(self)@ == old(self)@.update(SPC as int, newSPC),
    {
        self.spc = newSPC;
        assert(self@ =~= old(self)@.update(SPC as int, newSPC));
    }
}

} // verus!
