//! Ability checks, saving throws and skill checks: a d20 roll, kept by
//! advantage, plus a modifier, against a difficulty class.
//!
//! The two d20 faces rolled are arguments; which one counts depends on
//! advantage.

use vstd::prelude::*;
use crate::abilities::{score_modifier, Ability};
use crate::conditions::Condition;
use crate::ids::CharacterId;
use crate::intent::{Advantage, Skill};
use crate::rules::{Effect, Resolution, RollResult, RulesEngine};
use crate::text::{int_text, push_int, push_str};
use crate::world::{has_condition_in, proficiency_for_level, Character, GameWorld};

verus! {

/// The face that counts of two d20 rolled: the higher with advantage, the
/// lower with disadvantage, the first otherwise.
pub open spec fn kept_face(advantage: Advantage, d20: (i32, i32)) -> i32 {
    match advantage {
        Advantage::Normal => d20.0,
        Advantage::Advantage => if d20.0 >= d20.1 { d20.0 } else { d20.1 },
        Advantage::Disadvantage => if d20.0 <= d20.1 { d20.0 } else { d20.1 },
    }
}

/// Both faces of a d20 roll are between 1 and 20.
pub open spec fn d20_faces(d20: (i32, i32)) -> bool {
    1 <= d20.0 <= 20 && 1 <= d20.1 <= 20
}

/// Advantage and disadvantage together cancel; either alone stands.
pub open spec fn combined(a: Advantage, b: Advantage) -> Advantage {
    match (a, b) {
        (Advantage::Normal, x) => x,
        (x, Advantage::Normal) => x,
        (Advantage::Advantage, Advantage::Advantage) => Advantage::Advantage,
        (Advantage::Disadvantage, Advantage::Disadvantage) => Advantage::Disadvantage,
        _ => Advantage::Normal,
    }
}

/// Advantage and disadvantage cancel, in either order; either one combined
/// with itself or with a normal roll stays as it is.
pub proof fn law_advantage_and_disadvantage_cancel(a: Advantage, b: Advantage)
    ensures
        combined(a, b) == combined(b, a),
        combined(Advantage::Advantage, Advantage::Disadvantage) == Advantage::Normal,
        combined(a, Advantage::Normal) == a,
        combined(a, a) == a,
{
}

/// With advantage the face kept is never below the first one rolled; with
/// disadvantage never above it; either way it is one of the two faces.
pub proof fn law_advantage_keeps_the_better_face(d20: (i32, i32))
    ensures
        kept_face(Advantage::Advantage, d20) >= d20.0,
        kept_face(Advantage::Disadvantage, d20) <= d20.0,
        kept_face(Advantage::Advantage, d20) >= kept_face(Advantage::Disadvantage, d20),
        forall|a: Advantage| #[trigger] kept_face(a, d20) == d20.0 || kept_face(a, d20) == d20.1,
{
}

impl Advantage {
    /// Both kinds of advantage at once.
    pub fn combine(self, other: Advantage) -> (r: Advantage)
        ensures
            r == combined(self, other),
    {
        match (self, other) {
            (Advantage::Normal, x) => x,
            (x, Advantage::Normal) => x,
            (Advantage::Advantage, Advantage::Advantage) => Advantage::Advantage,
            (Advantage::Disadvantage, Advantage::Disadvantage) => Advantage::Disadvantage,
            _ => Advantage::Normal,
        }
    }
}

/// The d20 roll a check records: "1d20+m", its total and whether the kept
/// face is a natural 20 or 1.
pub open spec fn is_check_roll(roll: RollResult, modifier: int, face: i32) -> bool {
    &&& roll.expression@ == "1d20+"@ + int_text(modifier)
    &&& roll.total == face + modifier
    &&& roll.natural_20 == (face == 20)
    &&& roll.natural_1 == (face == 1)
}

/// The verdict of a check: success or failure, with its type, total and DC.
pub open spec fn is_verdict(e: Effect, success: bool, check_type: Seq<char>, total: int, dc: i32) -> bool {
    if success {
        e matches Effect::CheckSucceeded { check_type: t, roll, dc: d } && t@ == check_type && roll == total && d == dc
    } else {
        e matches Effect::CheckFailed { check_type: t, roll, dc: d } && t@ == check_type && roll == total && d == dc
    }
}

/// An unconscious creature fails Strength and Dexterity checks and saves.
pub open spec fn fails_while_unconscious(c: Character, ability: Ability) -> bool {
    has_condition_in(c.conditions@, Condition::Unconscious)
        && (ability == Ability::Strength || ability == Ability::Dexterity)
}

/// The saving throw modifier: the ability modifier, plus the proficiency
/// bonus when proficient in that save.
pub open spec fn save_modifier(c: Character, ability: Ability) -> int {
    let m = score_modifier(c.ability_scores.spec_get(ability));
    if c.saving_throw_proficiencies@.contains(ability) { m + proficiency_for_level(c.level) } else { m }
}

/// The skill modifier: the modifier of the skill's ability, plus the
/// proficiency bonus when proficient in the skill.
pub open spec fn skill_modifier(c: Character, skill: Skill) -> int {
    let m = score_modifier(c.ability_scores.spec_get(skill.spec_ability()));
    if c.skill_proficiencies@.contains(skill) { m + proficiency_for_level(c.level) } else { m }
}

/// "succeeds" or "fails".
pub open spec fn verdict_word(success: bool) -> Seq<char> {
    if success { "succeeds"@ } else { "fails"@ }
}

impl Skill {
    /// The ability each skill draws on.
    pub open spec fn spec_ability(self) -> Ability {
        match self {
            Skill::Athletics => Ability::Strength,
            Skill::Acrobatics | Skill::SleightOfHand | Skill::Stealth => Ability::Dexterity,
            Skill::Arcana | Skill::History | Skill::Investigation | Skill::Nature | Skill::Religion => Ability::Intelligence,
            Skill::AnimalHandling | Skill::Insight | Skill::Medicine | Skill::Perception | Skill::Survival => Ability::Wisdom,
            Skill::Deception | Skill::Intimidation | Skill::Performance | Skill::Persuasion => Ability::Charisma,
        }
    }

    pub open spec fn spec_name(self) -> Seq<char> {
        match self {
            Skill::Acrobatics => "Acrobatics"@,
            Skill::AnimalHandling => "Animal Handling"@,
            Skill::Arcana => "Arcana"@,
            Skill::Athletics => "Athletics"@,
            Skill::Deception => "Deception"@,
            Skill::History => "History"@,
            Skill::Insight => "Insight"@,
            Skill::Intimidation => "Intimidation"@,
            Skill::Investigation => "Investigation"@,
            Skill::Medicine => "Medicine"@,
            Skill::Nature => "Nature"@,
            Skill::Perception => "Perception"@,
            Skill::Performance => "Performance"@,
            Skill::Persuasion => "Persuasion"@,
            Skill::Religion => "Religion"@,
            Skill::SleightOfHand => "Sleight of Hand"@,
            Skill::Stealth => "Stealth"@,
            Skill::Survival => "Survival"@,
        }
    }

    pub fn ability(&self) -> (r: Ability)
        ensures
            r == self.spec_ability(),
    {
        match self {
            Skill::Athletics => Ability::Strength,
            Skill::Acrobatics | Skill::SleightOfHand | Skill::Stealth => Ability::Dexterity,
            Skill::Arcana | Skill::History | Skill::Investigation | Skill::Nature | Skill::Religion => Ability::Intelligence,
            Skill::AnimalHandling | Skill::Insight | Skill::Medicine | Skill::Perception | Skill::Survival => Ability::Wisdom,
            Skill::Deception | Skill::Intimidation | Skill::Performance | Skill::Persuasion => Ability::Charisma,
        }
    }

    pub fn name(&self) -> (r: &'static str)
        ensures
            r@ == self.spec_name(),
    {
        match self {
            Skill::Acrobatics => "Acrobatics",
            Skill::AnimalHandling => "Animal Handling",
            Skill::Arcana => "Arcana",
            Skill::Athletics => "Athletics",
            Skill::Deception => "Deception",
            Skill::History => "History",
            Skill::Insight => "Insight",
            Skill::Intimidation => "Intimidation",
            Skill::Investigation => "Investigation",
            Skill::Medicine => "Medicine",
            Skill::Nature => "Nature",
            Skill::Perception => "Perception",
            Skill::Performance => "Performance",
            Skill::Persuasion => "Persuasion",
            Skill::Religion => "Religion",
            Skill::SleightOfHand => "Sleight of Hand",
            Skill::Stealth => "Stealth",
            Skill::Survival => "Survival",
        }
    }
}

pub(crate) fn keep(advantage: Advantage, d20: (i32, i32)) -> (r: i32)
    ensures
        r == kept_face(advantage, d20),
{
    match advantage {
        Advantage::Normal => d20.0,
        Advantage::Advantage => if d20.0 >= d20.1 { d20.0 } else { d20.1 },
        Advantage::Disadvantage => if d20.0 <= d20.1 { d20.0 } else { d20.1 },
    }
}

pub(crate) fn check_roll(modifier: i32, face: i32) -> (r: RollResult)
    requires
        1 <= face <= 20,
        -1000 <= modifier <= 1000,
    ensures
        is_check_roll(r, modifier as int, face),
{
    let mut expression = String::new();
    push_str(&mut expression, "1d20+");
    push_int(&mut expression, modifier as i64);
    RollResult { expression, total: face + modifier, natural_20: face == 20, natural_1: face == 1 }
}

fn verdict(success: bool, check_type: String, total: i32, dc: i32) -> (e: Effect)
    ensures
        is_verdict(e, success, check_type@, total as int, dc),
{
    if success {
        Effect::CheckSucceeded { check_type, roll: total, dc }
    } else {
        Effect::CheckFailed { check_type, roll: total, dc }
    }
}

/// The advantage a skill check is rolled with: heavy armor adds
/// disadvantage to Stealth.
pub open spec fn skill_advantage(c: Character, skill: Skill, advantage: Advantage) -> Advantage {
    if skill == Skill::Stealth && (c.equipment.armor matches Some(a) && a.stealth_disadvantage) {
        combined(advantage, Advantage::Disadvantage)
    } else {
        advantage
    }
}

impl RulesEngine {
    /// When `resolve_ability_check` may be called.
    pub open spec fn ability_check_allowed(
        world: GameWorld,
        _character_id: CharacterId,
        ability: Ability,
        dc: i32,
        advantage: Advantage,
        description: Seq<char>,
        d20: (i32, i32),
    ) -> bool {
        &&& d20_faces(d20)
        &&& world.player_character.ability_scores.modifier_defined(ability)
    }

    /// What `resolve_ability_check` gives.
    pub open spec fn ability_check_outcome(
        world: GameWorld,
        _character_id: CharacterId,
        ability: Ability,
        dc: i32,
        advantage: Advantage,
        description: Seq<char>,
        d20: (i32, i32),
        r: Resolution,
    ) -> bool {
        &&& ({
                let c = world.player_character;
                let abbr = ability.spec_abbreviation();
                let m = score_modifier(c.ability_scores.spec_get(ability));
                let face = kept_face(advantage, d20);
                let total = face + m;
                if fails_while_unconscious(c, ability) {
                    &&& r.narrative@ =~= c.name@ + " is unconscious and automatically fails the "@ + abbr + " check!"@
                    &&& r.effects@.len() == 1
                    &&& is_verdict(r.effects@[0], false, abbr + " check"@, 0, dc)
                } else {
                    &&& r.narrative@ =~= c.name@ + " "@ + verdict_word(total >= dc) + " ("@ + abbr + " check: "@
                        + int_text(total) + " vs DC "@ + int_text(dc as int) + ")"@
                    &&& r.effects@.len() == 2
                    &&& r.effects@[0] matches Effect::DiceRolled { roll, purpose }
                        && is_check_roll(roll, m, face) && purpose@ =~= abbr + " check - "@ + description
                    &&& is_verdict(r.effects@[1], total >= dc, abbr, total, dc)
                }
            })
    }

    /// A raw ability check: an unconscious creature fails Strength and
    /// Dexterity checks outright; otherwise the kept d20 plus the ability
    /// modifier must reach the DC.
    pub fn resolve_ability_check(
        &self,
        world: &GameWorld,
        _character_id: CharacterId,
        ability: Ability,
        dc: i32,
        advantage: Advantage,
        description: &str,
        d20: (i32, i32),
    ) -> (r: Resolution)
        requires
            Self::ability_check_allowed(*world, _character_id, ability, dc, advantage, description@, d20),
        ensures
            Self::ability_check_outcome(*world, _character_id, ability, dc, advantage, description@, d20, r),
    {
        let c = &world.player_character;
        let abbr = ability.abbreviation();
        let strength_or_dex = ability == Ability::Strength || ability == Ability::Dexterity;
        if strength_or_dex && c.has_condition(Condition::Unconscious) {
            let mut s = String::new();
            push_str(&mut s, c.name.as_str());
            push_str(&mut s, " is unconscious and automatically fails the ");
            push_str(&mut s, abbr);
            push_str(&mut s, " check!");
            let mut kind = String::new();
            push_str(&mut kind, abbr);
            push_str(&mut kind, " check");
            return Resolution::new(s).with_effect(verdict(false, kind, 0, dc));
        }
        let m = c.ability_scores.modifier(ability) as i32;
        let face = keep(advantage, d20);
        let total = face + m;
        let success = total >= dc;
        let mut s = String::new();
        push_str(&mut s, c.name.as_str());
        push_str(&mut s, " ");
        push_str(&mut s, if success { "succeeds" } else { "fails" });
        push_str(&mut s, " (");
        push_str(&mut s, abbr);
        push_str(&mut s, " check: ");
        push_int(&mut s, total as i64);
        push_str(&mut s, " vs DC ");
        push_int(&mut s, dc as i64);
        push_str(&mut s, ")");
        let mut purpose = String::new();
        push_str(&mut purpose, abbr);
        push_str(&mut purpose, " check - ");
        push_str(&mut purpose, description);
        Resolution::new(s)
            .with_effect(Effect::DiceRolled { roll: check_roll(m, face), purpose })
            .with_effect(verdict(success, String::from_str(abbr), total, dc))
    }

    /// When `resolve_saving_throw` may be called.
    pub open spec fn saving_throw_allowed(
        world: GameWorld,
        _character_id: CharacterId,
        ability: Ability,
        dc: i32,
        advantage: Advantage,
        source: Seq<char>,
        d20: (i32, i32),
    ) -> bool {
        &&& d20_faces(d20)
        &&& world.player_character.ability_scores.modifier_defined(ability)
    }

    /// What `resolve_saving_throw` gives.
    pub open spec fn saving_throw_outcome(
        world: GameWorld,
        _character_id: CharacterId,
        ability: Ability,
        dc: i32,
        advantage: Advantage,
        source: Seq<char>,
        d20: (i32, i32),
        r: Resolution,
    ) -> bool {
        &&& ({
                let c = world.player_character;
                let abbr = ability.spec_abbreviation();
                let kind = abbr + " save"@;
                let m = save_modifier(c, ability);
                let face = kept_face(advantage, d20);
                let total = face + m;
                if fails_while_unconscious(c, ability) {
                    &&& r.narrative@ =~= c.name@ + " is unconscious and automatically fails the "@ + abbr
                        + " saving throw!"@
                    &&& r.effects@.len() == 1
                    &&& is_verdict(r.effects@[0], false, kind, 0, dc)
                } else {
                    &&& r.narrative@ =~= c.name@ + " "@ + verdict_word(total >= dc) + " on "@ + abbr + " saving throw ("@
                        + int_text(total) + " vs DC "@ + int_text(dc as int) + ")"@
                    &&& r.effects@.len() == 2
                    &&& r.effects@[0] matches Effect::DiceRolled { roll, purpose }
                        && is_check_roll(roll, m, face) && purpose@ =~= abbr + " save vs "@ + source
                    &&& is_verdict(r.effects@[1], total >= dc, kind, total, dc)
                }
            })
    }

    /// A saving throw: an unconscious creature fails Strength and Dexterity
    /// saves outright; otherwise the kept d20 plus the ability modifier, and
    /// the proficiency bonus when proficient in the save, must reach the DC.
    pub fn resolve_saving_throw(
        &self,
        world: &GameWorld,
        _character_id: CharacterId,
        ability: Ability,
        dc: i32,
        advantage: Advantage,
        source: &str,
        d20: (i32, i32),
    ) -> (r: Resolution)
        requires
            Self::saving_throw_allowed(*world, _character_id, ability, dc, advantage, source@, d20),
        ensures
            Self::saving_throw_outcome(*world, _character_id, ability, dc, advantage, source@, d20, r),
    {
        let c = &world.player_character;
        let abbr = ability.abbreviation();
        let mut kind = String::new();
        push_str(&mut kind, abbr);
        push_str(&mut kind, " save");
        let strength_or_dex = ability == Ability::Strength || ability == Ability::Dexterity;
        if strength_or_dex && c.has_condition(Condition::Unconscious) {
            let mut s = String::new();
            push_str(&mut s, c.name.as_str());
            push_str(&mut s, " is unconscious and automatically fails the ");
            push_str(&mut s, abbr);
            push_str(&mut s, " saving throw!");
            return Resolution::new(s).with_effect(verdict(false, kind, 0, dc));
        }
        let base = c.ability_scores.modifier(ability) as i32;
        let m: i32 = if c.is_proficient_in_save(ability) { base + c.proficiency_bonus() as i32 } else { base };
        let face = keep(advantage, d20);
        let total = face + m;
        let success = total >= dc;
        let mut s = String::new();
        push_str(&mut s, c.name.as_str());
        push_str(&mut s, " ");
        push_str(&mut s, if success { "succeeds" } else { "fails" });
        push_str(&mut s, " on ");
        push_str(&mut s, abbr);
        push_str(&mut s, " saving throw (");
        push_int(&mut s, total as i64);
        push_str(&mut s, " vs DC ");
        push_int(&mut s, dc as i64);
        push_str(&mut s, ")");
        let mut purpose = String::new();
        push_str(&mut purpose, abbr);
        push_str(&mut purpose, " save vs ");
        push_str(&mut purpose, source);
        Resolution::new(s)
            .with_effect(Effect::DiceRolled { roll: check_roll(m, face), purpose })
            .with_effect(verdict(success, kind, total, dc))
    }
    /// When `resolve_skill_check` may be called.
    pub open spec fn skill_check_allowed(
        world: GameWorld,
        _character_id: CharacterId,
        skill: Skill,
        dc: i32,
        advantage: Advantage,
        description: Seq<char>,
        d20: (i32, i32),
    ) -> bool {
        &&& d20_faces(d20)
        &&& world.player_character.ability_scores.modifier_defined(skill.spec_ability())
    }

    /// What `resolve_skill_check` gives.
    pub open spec fn skill_check_outcome(
        world: GameWorld,
        _character_id: CharacterId,
        skill: Skill,
        dc: i32,
        advantage: Advantage,
        description: Seq<char>,
        d20: (i32, i32),
        r: Resolution,
    ) -> bool {
        &&& ({
                let c = world.player_character;
                let name = skill.spec_name();
                let m = skill_modifier(c, skill);
                let effective = skill_advantage(c, skill, advantage);
                let face = kept_face(effective, d20);
                let total = face + m;
                let note = if skill == Skill::Stealth && effective != advantage && effective == Advantage::Disadvantage {
                    " [armor disadvantage]"@
                } else {
                    ""@
                };
                if fails_while_unconscious(c, skill.spec_ability()) {
                    &&& r.narrative@ =~= c.name@ + " is unconscious and automatically fails the "@ + name + " check!"@
                    &&& r.effects@.len() == 1
                    &&& is_verdict(r.effects@[0], false, name, 0, dc)
                } else {
                    &&& r.narrative@ =~= c.name@ + " "@ + verdict_word(total >= dc) + " ("@ + name + " check: "@
                        + int_text(total) + " vs DC "@ + int_text(dc as int) + ")"@ + note
                    &&& r.effects@.len() == 2
                    &&& r.effects@[0] matches Effect::DiceRolled { roll, purpose }
                        && is_check_roll(roll, m, face) && purpose@ =~= name + " check - "@ + description
                    &&& is_verdict(r.effects@[1], total >= dc, name, total, dc)
                }
            })
    }

    /// A skill check: an unconscious creature fails checks of Strength and
    /// Dexterity skills outright; otherwise the kept d20 plus the skill
    /// modifier must reach the DC. Armor that hinders stealth adds
    /// disadvantage to Stealth, and the line says so when that changed the
    /// roll to disadvantage.
    pub fn resolve_skill_check(
        &self,
        world: &GameWorld,
        _character_id: CharacterId,
        skill: Skill,
        dc: i32,
        advantage: Advantage,
        description: &str,
        d20: (i32, i32),
    ) -> (r: Resolution)
        requires
            Self::skill_check_allowed(*world, _character_id, skill, dc, advantage, description@, d20),
        ensures
            Self::skill_check_outcome(*world, _character_id, skill, dc, advantage, description@, d20, r),
    {
        let c = &world.player_character;
        let name = skill.name();
        let ability = skill.ability();
        let strength_or_dex = ability == Ability::Strength || ability == Ability::Dexterity;
        if strength_or_dex && c.has_condition(Condition::Unconscious) {
            let mut s = String::new();
            push_str(&mut s, c.name.as_str());
            push_str(&mut s, " is unconscious and automatically fails the ");
            push_str(&mut s, name);
            push_str(&mut s, " check!");
            return Resolution::new(s).with_effect(verdict(false, String::from_str(name), 0, dc));
        }
        let base = c.ability_scores.modifier(ability) as i32;
        let m: i32 = if c.is_proficient_in_skill(skill) { base + c.proficiency_bonus() as i32 } else { base };
        let hindered = match &c.equipment.armor {
            Some(a) => skill == Skill::Stealth && a.stealth_disadvantage,
            None => false,
        };
        let effective = if hindered { advantage.combine(Advantage::Disadvantage) } else { advantage };
        let face = keep(effective, d20);
        let total = face + m;
        let success = total >= dc;
        let mut s = String::new();
        push_str(&mut s, c.name.as_str());
        push_str(&mut s, " ");
        push_str(&mut s, if success { "succeeds" } else { "fails" });
        push_str(&mut s, " (");
        push_str(&mut s, name);
        push_str(&mut s, " check: ");
        push_int(&mut s, total as i64);
        push_str(&mut s, " vs DC ");
        push_int(&mut s, dc as i64);
        push_str(&mut s, ")");
        let noted = skill == Skill::Stealth && effective != advantage && effective == Advantage::Disadvantage;
        push_str(&mut s, if noted { " [armor disadvantage]" } else { "" });
        let mut purpose = String::new();
        push_str(&mut purpose, name);
        push_str(&mut purpose, " check - ");
        push_str(&mut purpose, description);
        Resolution::new(s)
            .with_effect(Effect::DiceRolled { roll: check_roll(m, face), purpose })
            .with_effect(verdict(success, String::from_str(name), total, dc))
    }
}


/// What rolling dice notation gave: the roll and its text as the dice show
/// it, or why the notation could not be rolled.
#[derive(Debug, Clone)]
pub enum DiceOutcome {
    Rolled { roll: RollResult, shown: String },
    Failed { error: String },
}

impl RulesEngine {
    /// What `resolve_roll_dice` gives.
    pub open spec fn roll_dice_outcome(
        notation: Seq<char>,
        purpose: Seq<char>,
        outcome: DiceOutcome,
        r: Resolution,
    ) -> bool {
        &&& match outcome {
                DiceOutcome::Rolled { roll, shown } => {
                    &&& r.narrative@ =~= "Rolling "@ + notation + " for "@ + purpose + ": "@ + shown@
                    &&& r.effects@.len() == 1
                    &&& r.effects@[0] matches Effect::DiceRolled { roll: x, purpose: p } && x == roll && p@ =~= purpose
                },
                DiceOutcome::Failed { error } => {
                    &&& r.narrative@ =~= "Failed to roll "@ + notation + ": "@ + error@
                    &&& r.effects@.len() == 0
                },
            }
    }

    /// A roll no mechanic asked for: reports what the dice gave, or why
    /// they could not be rolled.
    pub fn resolve_roll_dice(&self, notation: &str, purpose: &str, outcome: DiceOutcome) -> (r: Resolution)
        ensures
            Self::roll_dice_outcome(notation@, purpose@, outcome, r),
    {
        match outcome {
            DiceOutcome::Rolled { roll, shown } => {
                let mut s = String::new();
                push_str(&mut s, "Rolling ");
                push_str(&mut s, notation);
                push_str(&mut s, " for ");
                push_str(&mut s, purpose);
                push_str(&mut s, ": ");
                push_str(&mut s, shown.as_str());
                Resolution::new(s).with_effect(Effect::DiceRolled { roll, purpose: String::from_str(purpose) })
            },
            DiceOutcome::Failed { error } => {
                let mut s = String::new();
                push_str(&mut s, "Failed to roll ");
                push_str(&mut s, notation);
                push_str(&mut s, ": ");
                push_str(&mut s, error.as_str());
                Resolution::new(s)
            },
        }
    }
}

/// A saving throw adds the ability modifier, and the proficiency bonus
/// exactly when the character is proficient in that save, to the kept d20;
/// it succeeds exactly when that total reaches the DC.
pub proof fn law_saves_add_proficiency_only_when_proficient(
    world: GameWorld,
    character_id: CharacterId,
    ability: Ability,
    dc: i32,
    advantage: Advantage,
    source: Seq<char>,
    d20: (i32, i32),
    r: Resolution,
)
    requires
        RulesEngine::saving_throw_outcome(world, character_id, ability, dc, advantage, source, d20, r),
        !(has_condition_in(world.player_character.conditions@, Condition::Unconscious)
            && (ability == Ability::Strength || ability == Ability::Dexterity)),
    ensures
        ({
            let c = world.player_character;
            let proficient = c.saving_throw_proficiencies@.contains(ability);
            let m = score_modifier(c.ability_scores.spec_get(ability))
                + if proficient { proficiency_for_level(c.level) } else { 0 };
            let total = kept_face(advantage, d20) + m;
            &&& r.effects@[0] matches Effect::DiceRolled { roll, .. }
                && roll.expression@ == "1d20+"@ + int_text(m) && roll.total == total
            &&& (r.effects@[1] is CheckSucceeded <==> total >= dc)
            &&& (r.effects@[1] is CheckSucceeded || r.effects@[1] is CheckFailed)
        }),
{
}

/// A raw ability check adds the ability modifier alone, never the
/// proficiency bonus, to the kept d20, and succeeds exactly when that total
/// reaches the DC.
pub proof fn law_ability_checks_add_the_ability_modifier_alone(
    world: GameWorld,
    character_id: CharacterId,
    ability: Ability,
    dc: i32,
    advantage: Advantage,
    description: Seq<char>,
    d20: (i32, i32),
    r: Resolution,
)
    requires
        RulesEngine::ability_check_outcome(world, character_id, ability, dc, advantage, description, d20, r),
        !(has_condition_in(world.player_character.conditions@, Condition::Unconscious)
            && (ability == Ability::Strength || ability == Ability::Dexterity)),
    ensures
        ({
            let m = score_modifier(world.player_character.ability_scores.spec_get(ability));
            let total = kept_face(advantage, d20) + m;
            &&& r.effects@[0] matches Effect::DiceRolled { roll, .. } && roll.total == total
            &&& (r.effects@[1] is CheckSucceeded <==> total >= dc)
        }),
{
}

/// A skill check adds the modifier of the skill's ability, and the
/// proficiency bonus exactly when the character is proficient in the skill,
/// and succeeds exactly when the total reaches the DC. Without armor that
/// hinders stealth, the face kept is the one the advantage given picks.
pub proof fn law_skill_checks_add_proficiency_only_when_proficient(
    world: GameWorld,
    character_id: CharacterId,
    skill: Skill,
    dc: i32,
    advantage: Advantage,
    description: Seq<char>,
    d20: (i32, i32),
    r: Resolution,
)
    requires
        RulesEngine::skill_check_outcome(world, character_id, skill, dc, advantage, description, d20, r),
        !has_condition_in(world.player_character.conditions@, Condition::Unconscious),
        !(world.player_character.equipment.armor matches Some(a) && a.stealth_disadvantage),
    ensures
        ({
            let c = world.player_character;
            let m = score_modifier(c.ability_scores.spec_get(skill.spec_ability()))
                + if c.skill_proficiencies@.contains(skill) { proficiency_for_level(c.level) } else { 0 };
            let total = kept_face(advantage, d20) + m;
            &&& r.effects@[0] matches Effect::DiceRolled { roll, .. } && roll.total == total
            &&& (r.effects@[1] is CheckSucceeded <==> total >= dc)
        }),
{
}

} // verus!
