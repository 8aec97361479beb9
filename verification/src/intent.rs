//! Intents: what the narrator model says a character wants to do, before the
//! rules decide what happens.

use vstd::prelude::*;
use crate::abilities::Ability;
use crate::conditions::Condition;
use crate::ids::CharacterId;
use crate::rules::{CombatantInit, DamageType, StateType};

verus! {

/// The skills of the game.
#[derive(Debug, Clone, Copy, PartialEq, Eq, Structural)]
pub enum Skill {
    Acrobatics,
    AnimalHandling,
    Arcana,
    Athletics,
    Deception,
    History,
    Insight,
    Intimidation,
    Investigation,
    Medicine,
    Nature,
    Perception,
    Performance,
    Persuasion,
    Religion,
    SleightOfHand,
    Stealth,
    Survival,
}

/// How a d20 is rolled: once, or twice keeping the higher or the lower.
#[derive(Debug, Clone, Copy, PartialEq, Eq, Structural)]
pub enum Advantage {
    Normal,
    Advantage,
    Disadvantage,
}

/// What a character wants to do. The model proposes intents; the rules
/// engine resolves them into effects.
#[derive(Debug, Clone)]
pub enum Intent {
    /// Attack a target with a weapon.
    Attack { attacker_id: CharacterId, target_id: CharacterId, weapon_name: String, advantage: Advantage },
    /// Cast a spell, at targets known by id or only by name.
    CastSpell {
        caster_id: CharacterId,
        spell_name: String,
        targets: Vec<CharacterId>,
        spell_level: u8,
        target_names: Vec<String>,
    },
    /// A skill check against a difficulty class.
    SkillCheck { character_id: CharacterId, skill: Skill, dc: i32, advantage: Advantage, description: String },
    /// A raw ability check.
    AbilityCheck { character_id: CharacterId, ability: Ability, dc: i32, advantage: Advantage, description: String },
    /// A saving throw.
    SavingThrow { character_id: CharacterId, ability: Ability, dc: i32, advantage: Advantage, source: String },
    Damage { target_id: CharacterId, amount: i32, damage_type: DamageType, source: String },
    Heal { target_id: CharacterId, amount: i32, source: String },
    ApplyCondition { target_id: CharacterId, condition: Condition, source: String, duration_rounds: Option<u32> },
    RemoveCondition { target_id: CharacterId, condition: Condition },
    Move { character_id: CharacterId, destination: String, distance_feet: u32 },
    ShortRest,
    LongRest,
    StartCombat { combatants: Vec<CombatantInit> },
    EndCombat,
    NextTurn,
    RollInitiative { character_id: CharacterId, name: String, modifier: i8, is_player: bool },
    /// A roll that no mechanic asked for.
    RollDice { notation: String, purpose: String },
    AdvanceTime { minutes: u32 },
    GainExperience { amount: u32 },
    UseFeature { character_id: CharacterId, feature_name: String },
    /// A fact to keep for the story; its importance is the bits of an `f32`
    /// between 0 and 1.
    RememberFact {
        subject_name: String,
        subject_type: String,
        fact: String,
        category: String,
        related_entities: Vec<String>,
        importance_bits: u32,
    },
    /// An item for the player; weight and value in gold are the bits of
    /// `f32`s.
    AddItem {
        item_name: String,
        quantity: u32,
        item_type: Option<String>,
        description: Option<String>,
        magical: bool,
        weight_bits: Option<u32>,
        value_gp_bits: Option<u32>,
    },
    RemoveItem { item_name: String, quantity: u32 },
    EquipItem { item_name: String },
    UnequipItem { slot: String },
    UseItem { item_name: String, target_id: Option<CharacterId> },
    AdjustGold { amount: i32, reason: String },
    AdjustSilver { amount: i32, reason: String },
    DeathSave { character_id: CharacterId },
    ConcentrationCheck { character_id: CharacterId, damage_taken: i32, spell_name: String },
    ChangeLocation { new_location: String, location_type: Option<String>, description: Option<String> },
    /// A consequence to fire later; its importance is the bits of an `f32`
    /// between 0 and 1, and it lapses after `expires_in_turns` if given.
    RegisterConsequence {
        trigger_description: String,
        consequence_description: String,
        severity: String,
        related_entities: Vec<String>,
        importance_bits: u32,
        expires_in_turns: Option<u32>,
    },
    UseRage { character_id: CharacterId },
    EndRage { character_id: CharacterId, reason: String },
    UseKi { character_id: CharacterId, points: u8, ability: String },
    UseLayOnHands {
        character_id: CharacterId,
        target_name: String,
        hp_amount: u32,
        cure_disease: bool,
        neutralize_poison: bool,
    },
    UseDivineSmite { character_id: CharacterId, spell_slot_level: u8, target_is_undead_or_fiend: bool },
    UseWildShape { character_id: CharacterId, beast_form: String, beast_hp: i32, beast_ac: Option<u8> },
    EndWildShape { character_id: CharacterId, reason: String, excess_damage: i32 },
    UseChannelDivinity { character_id: CharacterId, option: String, targets: Vec<String> },
    UseBardicInspiration { character_id: CharacterId, target_name: String, die_size: String },
    UseActionSurge { character_id: CharacterId, action_taken: String },
    UseSecondWind { character_id: CharacterId },
    UseSorceryPoints {
        character_id: CharacterId,
        points: u8,
        metamagic: String,
        spell_name: Option<String>,
        slot_level: Option<u8>,
    },
    /// A new quest; objectives are (description, optional) pairs.
    CreateQuest {
        name: String,
        description: String,
        giver: Option<String>,
        objectives: Vec<(String, bool)>,
        rewards: Vec<String>,
    },
    AddQuestObjective { quest_name: String, objective: String, optional: bool },
    CompleteObjective { quest_name: String, objective_description: String },
    CompleteQuest { quest_name: String, completion_note: Option<String> },
    FailQuest { quest_name: String, failure_reason: String },
    UpdateQuest { quest_name: String, new_description: Option<String>, add_rewards: Vec<String> },
    CreateNpc {
        name: String,
        description: String,
        personality: String,
        occupation: Option<String>,
        disposition: String,
        location: Option<String>,
        known_information: Vec<String>,
    },
    UpdateNpc {
        npc_name: String,
        disposition: Option<String>,
        add_information: Vec<String>,
        new_description: Option<String>,
        new_personality: Option<String>,
    },
    MoveNpc { npc_name: String, destination: String, reason: Option<String> },
    RemoveNpc { npc_name: String, reason: String, permanent: bool },
    CreateLocation {
        name: String,
        location_type: String,
        description: String,
        parent_location: Option<String>,
        items: Vec<String>,
        npcs_present: Vec<String>,
    },
    ConnectLocations {
        from_location: String,
        to_location: String,
        direction: Option<String>,
        travel_time_minutes: Option<u32>,
        bidirectional: bool,
    },
    UpdateLocation {
        location_name: String,
        new_description: Option<String>,
        add_items: Vec<String>,
        remove_items: Vec<String>,
        add_npcs: Vec<String>,
        remove_npcs: Vec<String>,
    },
    ModifyAbilityScore { ability: Ability, modifier: i8, source: String, duration: Option<String> },
    RestoreSpellSlot { slot_level: u8, source: String },
    /// A declared change of an entity's state.
    AssertState {
        entity_name: String,
        state_type: StateType,
        new_value: String,
        reason: String,
        target_entity: Option<String>,
    },
    /// Something an entity comes to know.
    ShareKnowledge {
        knowing_entity: String,
        content: String,
        source: String,
        verification: String,
        context: Option<String>,
    },
    /// An event for later: after a time from now, at a date, or daily.
    ScheduleEvent {
        description: String,
        minutes: Option<u32>,
        hours: Option<u32>,
        day: Option<u8>,
        month: Option<u8>,
        year: Option<i32>,
        hour: Option<u8>,
        daily_hour: Option<u8>,
        daily_minute: Option<u8>,
        location: Option<String>,
        involved_entities: Vec<String>,
        visibility: String,
        repeating: bool,
    },
    CancelEvent { event_description: String, reason: String },
}

} // verus!
