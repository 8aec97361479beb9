//! The six ability scores of a character and the modifiers derived from them.

use vstd::prelude::*;
use crate::text::{ascii_lower, lowercase, str_eq, to_lowercase};
use vstd::utf8::is_ascii_chars;

verus! {

/// The six abilities.
#[derive(Debug, Clone, Copy, PartialEq, Eq, Hash, Structural)]
pub enum Ability {
    Strength,
    Dexterity,
    Constitution,
    Intelligence,
    Wisdom,
    Charisma,
}

impl Ability {
    /// Three-letter abbreviation, as printed on a character sheet.
    pub open spec fn spec_abbreviation(self) -> Seq<char> {
        match self {
            Ability::Strength => "STR"@,
            Ability::Dexterity => "DEX"@,
            Ability::Constitution => "CON"@,
            Ability::Intelligence => "INT"@,
            Ability::Wisdom => "WIS"@,
            Ability::Charisma => "CHA"@,
        }
    }

    /// Full name of the ability.
    pub open spec fn spec_name(self) -> Seq<char> {
        match self {
            Ability::Strength => "Strength"@,
            Ability::Dexterity => "Dexterity"@,
            Ability::Constitution => "Constitution"@,
            Ability::Intelligence => "Intelligence"@,
            Ability::Wisdom => "Wisdom"@,
            Ability::Charisma => "Charisma"@,
        }
    }

    pub fn abbreviation(&self) -> (r: &'static str)
        ensures
            r@ == self.spec_abbreviation(),
    {
        match self {
            Ability::Strength => "STR",
            Ability::Dexterity => "DEX",
            Ability::Constitution => "CON",
            Ability::Intelligence => "INT",
            Ability::Wisdom => "WIS",
            Ability::Charisma => "CHA",
        }
    }

    pub fn name(&self) -> (r: &'static str)
        ensures
            r@ == self.spec_name(),
    {
        match self {
            Ability::Strength => "Strength",
            Ability::Dexterity => "Dexterity",
            Ability::Constitution => "Constitution",
            Ability::Intelligence => "Intelligence",
            Ability::Wisdom => "Wisdom",
            Ability::Charisma => "Charisma",
        }
    }

    /// All six abilities, in sheet order.
    pub fn all() -> (r: [Ability; 6])
        ensures
            r@ == seq![
                Ability::Strength,
                Ability::Dexterity,
                Ability::Constitution,
                Ability::Intelligence,
                Ability::Wisdom,
                Ability::Charisma,
            ],
    {
        let r = [
            Ability::Strength,
            Ability::Dexterity,
            Ability::Constitution,
            Ability::Intelligence,
            Ability::Wisdom,
            Ability::Charisma,
        ];
        assert(r@ =~= seq![
            Ability::Strength,
            Ability::Dexterity,
            Ability::Constitution,
            Ability::Intelligence,
            Ability::Wisdom,
            Ability::Charisma,
        ]);
        r
    }

    /// Text of the ability as the game shows it (its abbreviation).
    pub fn to_text(&self) -> (r: String)
        ensures
            r@ == self.spec_abbreviation(),
    {
        String::from_str(self.abbreviation())
    }
}

/// The ability an already lower-cased name or abbreviation stands for.
pub open spec fn spec_ability_from_lowercase(s: Seq<char>) -> Option<Ability> {
    if s == "strength"@ || s == "str"@ {
        Some(Ability::Strength)
    } else if s == "dexterity"@ || s == "dex"@ {
        Some(Ability::Dexterity)
    } else if s == "constitution"@ || s == "con"@ {
        Some(Ability::Constitution)
    } else if s == "intelligence"@ || s == "int"@ {
        Some(Ability::Intelligence)
    } else if s == "wisdom"@ || s == "wis"@ {
        Some(Ability::Wisdom)
    } else if s == "charisma"@ || s == "cha"@ {
        Some(Ability::Charisma)
    } else {
        None
    }
}

/// Reading the name or the abbreviation of an ability, in any case, gives
/// the ability back.
pub proof fn law_ability_names_parse(a: Ability)
    ensures
        is_ascii_chars(a.spec_name()),
        is_ascii_chars(a.spec_abbreviation()),
        spec_ability_from_lowercase(ascii_lower(a.spec_name())) == Some(a),
        spec_ability_from_lowercase(ascii_lower(a.spec_abbreviation())) == Some(a),
{
    reveal_strlit("Strength"); reveal_strlit("strength"); reveal_strlit("STR"); reveal_strlit("str");
    reveal_strlit("Dexterity"); reveal_strlit("dexterity"); reveal_strlit("DEX"); reveal_strlit("dex");
    reveal_strlit("Constitution"); reveal_strlit("constitution"); reveal_strlit("CON"); reveal_strlit("con");
    reveal_strlit("Intelligence"); reveal_strlit("intelligence"); reveal_strlit("INT"); reveal_strlit("int");
    reveal_strlit("Wisdom"); reveal_strlit("wisdom"); reveal_strlit("WIS"); reveal_strlit("wis");
    reveal_strlit("Charisma"); reveal_strlit("charisma"); reveal_strlit("CHA"); reveal_strlit("cha");
    match a {
        Ability::Strength => {
            assert(ascii_lower("Strength"@) =~= "strength"@);
            assert(ascii_lower("STR"@) =~= "str"@);
            
        },
        Ability::Dexterity => {
            assert(ascii_lower("Dexterity"@) =~= "dexterity"@);
            assert(ascii_lower("DEX"@) =~= "dex"@);
            assert("dex"@[0] != "str"@[0]);
        },
        Ability::Constitution => {
            assert(ascii_lower("Constitution"@) =~= "constitution"@);
            assert(ascii_lower("CON"@) =~= "con"@);
            assert("con"@[0] != "str"@[0]);
            assert("con"@[0] != "dex"@[0]);
        },
        Ability::Intelligence => {
            assert(ascii_lower("Intelligence"@) =~= "intelligence"@);
            assert(ascii_lower("INT"@) =~= "int"@);
            assert("intelligence"@[0] != "constitution"@[0]);
            assert("int"@[0] != "str"@[0]);
            assert("int"@[0] != "dex"@[0]);
            assert("int"@[0] != "con"@[0]);
        },
        Ability::Wisdom => {
            assert(ascii_lower("Wisdom"@) =~= "wisdom"@);
            assert(ascii_lower("WIS"@) =~= "wis"@);
            assert("wis"@[0] != "str"@[0]);
            assert("wis"@[0] != "dex"@[0]);
            assert("wis"@[0] != "con"@[0]);
            assert("wis"@[0] != "int"@[0]);
        },
        Ability::Charisma => {
            assert(ascii_lower("Charisma"@) =~= "charisma"@);
            assert(ascii_lower("CHA"@) =~= "cha"@);
            assert("charisma"@[0] != "strength"@[0]);
            assert("cha"@[0] != "str"@[0]);
            assert("cha"@[0] != "dex"@[0]);
            assert("cha"@[1] != "con"@[1]);
            assert("cha"@[0] != "int"@[0]);
            assert("cha"@[0] != "wis"@[0]);
        },
    }
}

/// Reads an ability from text that is already in lower case.
pub fn ability_from_lowercase(s: &str) -> (r: Option<Ability>)
    ensures
        r == spec_ability_from_lowercase(s@),
{
    if str_eq(s, "strength") || str_eq(s, "str") {
        Some(Ability::Strength)
    } else if str_eq(s, "dexterity") || str_eq(s, "dex") {
        Some(Ability::Dexterity)
    } else if str_eq(s, "constitution") || str_eq(s, "con") {
        Some(Ability::Constitution)
    } else if str_eq(s, "intelligence") || str_eq(s, "int") {
        Some(Ability::Intelligence)
    } else if str_eq(s, "wisdom") || str_eq(s, "wis") {
        Some(Ability::Wisdom)
    } else if str_eq(s, "charisma") || str_eq(s, "cha") {
        Some(Ability::Charisma)
    } else {
        None
    }
}

/// Reads an ability from its name or abbreviation, in any case.
pub fn parse_ability(name: &str) -> (r: Option<Ability>)
    ensures
        r == spec_ability_from_lowercase(lowercase(name@)),
        is_ascii_chars(name@) ==> r == spec_ability_from_lowercase(ascii_lower(name@)),
{
    let lower = to_lowercase(name);
    ability_from_lowercase(lower.as_str())
}

/// The modifier of a score: `(score - 10) / 2` rounded down, where the score is
/// first read as a signed byte.
pub open spec fn score_modifier(score: u8) -> int {
    ((score as i8) as int - 10) / 2
}

/// Scores below 128 read the same as signed bytes.
pub proof fn lemma_small_score(score: u8)
    requires
        score < 128,
    ensures
        (score as i8) as int == score as int,
{
    assert((score < 128) ==> (score as i8) as int == score as int) by (bit_vector);
}

/// Every two points of score add one to the modifier.
pub proof fn law_modifier_rises_every_two_points(score: u8)
    requires
        score + 2 < 128,
    ensures
        score_modifier((score + 2) as u8) == score_modifier(score) + 1,
{
    lemma_small_score(score);
    lemma_small_score((score + 2) as u8);
}

/// A higher score never has a lower modifier.
pub proof fn law_modifier_is_monotone(low: u8, high: u8)
    requires
        low <= high < 128,
    ensures
        score_modifier(low) <= score_modifier(high),
{
    lemma_small_score(low);
    lemma_small_score(high);
    assert(((low as int) - 10) / 2 <= ((high as int) - 10) / 2) by (nonlinear_arith)
        requires low <= high;
}

/// The six scores of a character.
#[derive(Debug, Clone, Copy)]
pub struct AbilityScores {
    pub strength: u8,
    pub dexterity: u8,
    pub constitution: u8,
    pub intelligence: u8,
    pub wisdom: u8,
    pub charisma: u8,
}

impl AbilityScores {
    /// The score of one ability.
    pub open spec fn spec_get(&self, ability: Ability) -> u8 {
        match ability {
            Ability::Strength => self.strength,
            Ability::Dexterity => self.dexterity,
            Ability::Constitution => self.constitution,
            Ability::Intelligence => self.intelligence,
            Ability::Wisdom => self.wisdom,
            Ability::Charisma => self.charisma,
        }
    }

    /// A score reads as a signed byte without overflowing when ten is taken
    /// off it (scores 128 to 137 do not).
    pub open spec fn modifier_defined(&self, ability: Ability) -> bool {
        (self.spec_get(ability) as i8) as int >= -118
    }

    pub fn new(str: u8, dex: u8, con: u8, intel: u8, wis: u8, cha: u8) -> (r: Self)
        ensures
            r.strength == str,
            r.dexterity == dex,
            r.constitution == con,
            r.intelligence == intel,
            r.wisdom == wis,
            r.charisma == cha,
    {
        AbilityScores {
            strength: str,
            dexterity: dex,
            constitution: con,
            intelligence: intel,
            wisdom: wis,
            charisma: cha,
        }
    }

    /// The standard array: 15, 14, 13, 12, 10, 8.
    pub fn standard_array() -> (r: Self)
        ensures
            r.strength == 15,
            r.dexterity == 14,
            r.constitution == 13,
            r.intelligence == 12,
            r.wisdom == 10,
            r.charisma == 8,
    {
        Self::new(15, 14, 13, 12, 10, 8)
    }

    pub fn get(&self, ability: Ability) -> (r: u8)
        ensures
            r == self.spec_get(ability),
    {
        match ability {
            Ability::Strength => self.strength,
            Ability::Dexterity => self.dexterity,
            Ability::Constitution => self.constitution,
            Ability::Intelligence => self.intelligence,
            Ability::Wisdom => self.wisdom,
            Ability::Charisma => self.charisma,
        }
    }

    pub fn set(&mut self, ability: Ability, value: u8)
        ensures
            final(self).spec_get(ability) == value,
            forall|other: Ability|
                other != ability ==> #[trigger] final(self).spec_get(other) == old(self).spec_get(other),
    {
        match ability {
            Ability::Strength => self.strength = value,
            Ability::Dexterity => self.dexterity = value,
            Ability::Constitution => self.constitution = value,
            Ability::Intelligence => self.intelligence = value,
            Ability::Wisdom => self.wisdom = value,
            Ability::Charisma => self.charisma = value,
        }
    }

    /// `(score - 10) / 2`, rounded down.
    pub fn modifier(&self, ability: Ability) -> (r: i8)
        requires
            self.modifier_defined(ability),
        ensures
            r as int == score_modifier(self.spec_get(ability)),
    {
        let score = self.get(ability) as i8;
        let d: i16 = score as i16 - 10;
        // d + 128 is not negative, so halving it rounds down.
        let shifted: i16 = (d + 128) / 2;
        (shifted - 64) as i8
    }
}

impl Default for AbilityScores {
    /// Every score 10.
    fn default() -> (r: Self)
        ensures
            r.strength == 10,
            r.dexterity == 10,
            r.constitution == 10,
            r.intelligence == 10,
            r.wisdom == 10,
            r.charisma == 10,
    {
        Self::new(10, 10, 10, 10, 10, 10)
    }
}

} // verus!
