//! The vocabulary of the rules engine: the effects a resolved intent has on
//! the game, and the resolution that carries them with a narrative line.

use vstd::prelude::*;
use crate::abilities::Ability;
use crate::conditions::Condition;
use crate::ids::CharacterId;
use crate::text::{ascii_lower, lowercase, str_eq, to_lowercase};
use vstd::utf8::is_ascii_chars;

verus! {

/// Kinds of state that can be asserted for an entity.
#[derive(Debug, Clone, Copy, PartialEq, Eq, Structural)]
pub enum StateType {
    /// Attitude toward the player.
    Disposition,
    /// Where the entity is.
    Location,
    /// Alive, dead, injured, missing, ...
    Status,
    /// What the entity knows.
    Knowledge,
    /// Relationship to another entity.
    Relationship,
}

/// The state type an already lower-cased word names.
pub open spec fn spec_state_type_from_lowercase(s: Seq<char>) -> Option<StateType> {
    if s == "disposition"@ {
        Some(StateType::Disposition)
    } else if s == "location"@ {
        Some(StateType::Location)
    } else if s == "status"@ {
        Some(StateType::Status)
    } else if s == "knowledge"@ {
        Some(StateType::Knowledge)
    } else if s == "relationship"@ {
        Some(StateType::Relationship)
    } else {
        None
    }
}

impl StateType {
    pub open spec fn spec_name(self) -> Seq<char> {
        match self {
            StateType::Disposition => "disposition"@,
            StateType::Location => "location"@,
            StateType::Status => "status"@,
            StateType::Knowledge => "knowledge"@,
            StateType::Relationship => "relationship"@,
        }
    }

    /// Reads a state type from a word already in lower case.
    pub fn from_lowercase(s: &str) -> (r: Option<Self>)
        ensures
            r == spec_state_type_from_lowercase(s@),
    {
        if str_eq(s, "disposition") {
            Some(StateType::Disposition)
        } else if str_eq(s, "location") {
            Some(StateType::Location)
        } else if str_eq(s, "status") {
            Some(StateType::Status)
        } else if str_eq(s, "knowledge") {
            Some(StateType::Knowledge)
        } else if str_eq(s, "relationship") {
            Some(StateType::Relationship)
        } else {
            None
        }
    }

    /// Reads a state type in any case.
    pub fn parse(s: &str) -> (r: Option<Self>)
        ensures
            r == spec_state_type_from_lowercase(lowercase(s@)),
            is_ascii_chars(s@) ==> r == spec_state_type_from_lowercase(ascii_lower(s@)),
    {
        let lower = to_lowercase(s);
        Self::from_lowercase(lower.as_str())
    }

    pub fn name(&self) -> (r: &'static str)
        ensures
            r@ == self.spec_name(),
    {
        match self {
            StateType::Disposition => "disposition",
            StateType::Location => "location",
            StateType::Status => "status",
            StateType::Knowledge => "knowledge",
            StateType::Relationship => "relationship",
        }
    }
}

/// Reading the name of a state type gives the state type back.
pub proof fn law_state_type_name_parses(t: StateType)
    ensures
        is_ascii_chars(t.spec_name()),
        spec_state_type_from_lowercase(ascii_lower(t.spec_name())) == Some(t),
{
    reveal_strlit("disposition");
    reveal_strlit("location");
    reveal_strlit("status");
    reveal_strlit("knowledge");
    reveal_strlit("relationship");
    crate::text::lemma_lowercase_fixed(t.spec_name());
}

/// A creature entering a fight.
#[derive(Debug, Clone)]
pub struct CombatantInit {
    pub id: CharacterId,
    pub name: String,
    pub is_player: bool,
    pub is_ally: bool,
    pub current_hp: i32,
    pub max_hp: i32,
    pub armor_class: u8,
    /// Added to the initiative roll (usually the Dexterity modifier).
    pub initiative_modifier: i8,
}

/// The damage types of the rules.
#[derive(Debug, Clone, Copy, PartialEq, Eq, Structural)]
pub enum DamageType {
    Slashing,
    Piercing,
    Bludgeoning,
    Fire,
    Cold,
    Lightning,
    Thunder,
    Acid,
    Poison,
    Necrotic,
    Radiant,
    Force,
    Psychic,
}

impl DamageType {
    pub open spec fn spec_name(self) -> Seq<char> {
        match self {
            DamageType::Slashing => "slashing"@,
            DamageType::Piercing => "piercing"@,
            DamageType::Bludgeoning => "bludgeoning"@,
            DamageType::Fire => "fire"@,
            DamageType::Cold => "cold"@,
            DamageType::Lightning => "lightning"@,
            DamageType::Thunder => "thunder"@,
            DamageType::Acid => "acid"@,
            DamageType::Poison => "poison"@,
            DamageType::Necrotic => "necrotic"@,
            DamageType::Radiant => "radiant"@,
            DamageType::Force => "force"@,
            DamageType::Psychic => "psychic"@,
        }
    }

    pub fn name(&self) -> (r: &'static str)
        ensures
            r@ == self.spec_name(),
    {
        match self {
            DamageType::Slashing => "slashing",
            DamageType::Piercing => "piercing",
            DamageType::Bludgeoning => "bludgeoning",
            DamageType::Fire => "fire",
            DamageType::Cold => "cold",
            DamageType::Lightning => "lightning",
            DamageType::Thunder => "thunder",
            DamageType::Acid => "acid",
            DamageType::Poison => "poison",
            DamageType::Necrotic => "necrotic",
            DamageType::Radiant => "radiant",
            DamageType::Force => "force",
            DamageType::Psychic => "psychic",
        }
    }
}

/// Short or long rest.
#[derive(Debug, Clone, Copy, PartialEq, Eq, Structural)]
pub enum RestType {
    Short,
    Long,
}

/// A dice roll as the effects record it: the expression that was rolled
/// (in dice notation) and its total.
#[derive(Debug, Clone)]
pub struct RollResult {
    pub expression: String,
    pub total: i32,
    pub natural_20: bool,
    pub natural_1: bool,
}

/// A concrete change to the game, produced by resolving an intent.
#[derive(Debug, Clone)]
pub enum Effect {
    DiceRolled { roll: RollResult, purpose: String },
    SneakAttackUsed { character_id: CharacterId, damage_dice: u8 },
    HpChanged { target_id: CharacterId, amount: i32, new_current: i32, new_max: i32, dropped_to_zero: bool },
    ConditionApplied { target_id: CharacterId, condition: Condition, source: String, duration_rounds: Option<u32> },
    ConditionRemoved { target_id: CharacterId, condition: Condition },
    CombatStarted,
    CombatEnded,
    TurnAdvanced { round: u32, current_combatant: String },
    InitiativeRolled { character_id: CharacterId, name: String, roll: i32, total: i32 },
    CombatantAdded {
        id: CharacterId,
        name: String,
        initiative: i32,
        is_ally: bool,
        current_hp: i32,
        max_hp: i32,
        armor_class: u8,
    },
    TimeAdvanced { minutes: u32 },
    ExperienceGained { amount: u32, new_total: u32 },
    LevelUp { new_level: u8 },
    FeatureUsed { feature_name: String, uses_remaining: u8 },
    SpellSlotUsed { level: u8, remaining: u8 },
    RestCompleted { rest_type: RestType },
    CheckSucceeded { check_type: String, roll: i32, dc: i32 },
    CheckFailed { check_type: String, roll: i32, dc: i32 },
    AttackHit { attacker_name: String, target_name: String, attack_roll: i32, target_ac: u8, is_critical: bool },
    AttackMissed { attacker_name: String, target_name: String, attack_roll: i32, target_ac: u8 },
    /// `importance_bits` holds the bits of the `f32` importance (0.0 to 1.0).
    FactRemembered {
        subject_name: String,
        subject_type: String,
        fact: String,
        category: String,
        related_entities: Vec<String>,
        importance_bits: u32,
    },
    ItemAdded { item_name: String, quantity: u32, new_total: u32 },
    ItemRemoved { item_name: String, quantity: u32, remaining: u32 },
    ItemEquipped { item_name: String, slot: String },
    ItemUnequipped { item_name: String, slot: String },
    ItemUsed { item_name: String, result: String },
    GoldChanged { amount: i32, new_total: i32, reason: String },
    SilverChanged { amount: i32, new_total: i32, reason: String },
    AcChanged { new_ac: u8, source: String },
    DeathSaveFailure { target_id: CharacterId, failures: u8, total_failures: u8, source: String },
    DeathSavesReset { target_id: CharacterId },
    CharacterDied { target_id: CharacterId, cause: String },
    DeathSaveSuccess { target_id: CharacterId, roll: i32, total_successes: u8 },
    Stabilized { target_id: CharacterId },
    ConcentrationBroken { character_id: CharacterId, spell_name: String, damage_taken: i32, roll: i32, dc: i32 },
    ConcentrationMaintained { character_id: CharacterId, spell_name: String, roll: i32, dc: i32 },
    LocationChanged { previous_location: String, new_location: String },
    ConsequenceRegistered {
        consequence_id: String,
        trigger_description: String,
        consequence_description: String,
        severity: String,
    },
    ConsequenceTriggered { consequence_id: String, consequence_description: String },
    ClassResourceUsed { character_name: String, resource_name: String, description: String },
    RageStarted { character_id: CharacterId, damage_bonus: i8 },
    RageEnded { character_id: CharacterId, reason: String },
    QuestCreated {
        name: String,
        description: String,
        giver: Option<String>,
        objectives: Vec<(String, bool)>,
        rewards: Vec<String>,
    },
    QuestObjectiveAdded { quest_name: String, objective: String, optional: bool },
    QuestObjectiveCompleted { quest_name: String, objective_description: String },
    QuestCompleted { quest_name: String, completion_note: Option<String> },
    QuestFailed { quest_name: String, failure_reason: String },
    QuestUpdated { quest_name: String, new_description: Option<String>, add_rewards: Vec<String> },
    NpcCreated { name: String, location: Option<String> },
    NpcUpdated { npc_name: String, changes: String },
    NpcMoved { npc_name: String, from_location: Option<String>, to_location: String },
    NpcRemoved { npc_name: String, reason: String },
    LocationCreated { name: String, location_type: String },
    LocationsConnected { from: String, to: String, direction: Option<String> },
    LocationUpdated { location_name: String, changes: String },
    AbilityScoreModified { ability: Ability, modifier: i8, source: String },
    SpellSlotRestored { level: u8, new_remaining: u8 },
    StateAsserted {
        entity_name: String,
        state_type: StateType,
        old_value: Option<String>,
        new_value: String,
        reason: String,
        target_entity: Option<String>,
    },
    KnowledgeShared {
        knowing_entity: String,
        content: String,
        source: String,
        verification: String,
        context: Option<String>,
    },
    EventScheduled { description: String, trigger_description: String, location: Option<String>, visibility: String },
    EventCancelled { description: String, reason: String },
    EventTriggered { description: String, location: Option<String> },
}

/// The outcome of resolving an intent: its effects, in order, and a line of
/// narrative for the narrator.
#[derive(Debug, Clone)]
pub struct Resolution {
    pub effects: Vec<Effect>,
    pub narrative: String,
}

impl Resolution {
    /// A resolution with no effects yet.
    pub fn new(narrative: String) -> (r: Self)
        ensures
            r.narrative == narrative,
            r.effects@.len() == 0,
    {
        Resolution { effects: Vec::new(), narrative }
    }

    /// Appends one effect.
    pub fn with_effect(self, effect: Effect) -> (r: Self)
        ensures
            r.narrative == self.narrative,
            r.effects@ == self.effects@.push(effect),
    {
        let mut r = self;
        r.effects.push(effect);
        r
    }

    /// Appends effects, in order.
    pub fn with_effects(self, effects: Vec<Effect>) -> (r: Self)
        ensures
            r.narrative == self.narrative,
            r.effects@ == self.effects@ + effects@,
    {
        let mut r = self;
        let mut more = effects;
        r.effects.append(&mut more);
        r
    }
}

/// Resolves intents into effects by the rules.
#[derive(Debug, Clone, Copy)]
pub struct RulesEngine;

impl RulesEngine {
    /// The engine holds no state: every resolution depends only on its
    /// arguments.
    pub fn new() -> (r: Self)
        ensures
            r == RulesEngine,
    {
        RulesEngine
    }
}

impl Default for RulesEngine {
    fn default() -> (r: Self) {
        Self::new()
    }
}

/// Number of d6 of Sneak Attack at a Rogue level: half the level, rounded up.
pub open spec fn sneak_attack_dice_at(rogue_level: u8) -> int {
    (rogue_level as int + 1) / 2
}

/// Sneak Attack starts at one die at level 1 and gains a die at every odd
/// level, and only there.
pub proof fn law_sneak_attack_grows_at_odd_levels(rogue_level: u8)
    requires
        1 <= rogue_level,
    ensures
        sneak_attack_dice_at(1) == 1,
        sneak_attack_dice_at(rogue_level) == sneak_attack_dice_at((rogue_level - 1) as u8)
            + (if rogue_level % 2 == 1 { 1int } else { 0int }),
{
}

/// Number of d6 of Sneak Attack at a Rogue level: one at level 1, one more
/// at every odd level (half the level, rounded up).
pub fn sneak_attack_dice(rogue_level: u8) -> (r: u8)
    ensures
        r as int == sneak_attack_dice_at(rogue_level),
{
    rogue_level / 2 + rogue_level % 2
}


/// The roll to use when dice notation may fail to roll: what rolling
/// `notation` gave (`rolled`, `None` when it could not be rolled), else what
/// rolling `fallback` gave, else a minimal result of 1 recorded under the
/// fallback notation.
pub fn roll_with_fallback(
    _notation: &str,
    fallback: &str,
    rolled: Option<RollResult>,
    fallback_rolled: Option<RollResult>,
) -> (r: RollResult)
    ensures
        match rolled {
            Some(x) => r == x,
            None => match fallback_rolled {
                Some(y) => r == y,
                None => r.expression@ == fallback@ && r.total == 1 && !r.natural_20 && !r.natural_1,
            },
        },
{
    match rolled {
        Some(x) => x,
        None => match fallback_rolled {
            Some(y) => y,
            None => RollResult { expression: String::from_str(fallback), total: 1, natural_20: false, natural_1: false },
        },
    }
}

} // verus!
