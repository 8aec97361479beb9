//! The rules engine's entry point: one intent in, its resolution out.
//!
//! Everything the dice and the item and spell lists decide comes in as
//! arguments, so the dispatch is proved for every outcome of them.

use vstd::prelude::*;
use crate::attack::WeaponStats;
use crate::checks::DiceOutcome;
use crate::intent::Intent;
use crate::rules::{Resolution, RulesEngine};
use crate::spells::{SpellData, SpellRolls};
use crate::text::{opt_str_view, opt_view};
use crate::world::GameWorld;

verus! {

/// The dice one resolution may roll.
#[derive(Debug)]
pub struct DiceOutcomes {
    /// Two d20 faces: attacks, ability checks, saves and skill checks keep
    /// one by advantage.
    pub d20: (i32, i32),
    /// A weapon's damage dice.
    pub damage: i32,
    /// Sneak Attack dice.
    pub sneak_attack: i32,
    /// A spell's attack d20 and its damage and healing dice.
    pub spell: SpellRolls,
    /// The d20 of a death saving throw.
    pub death_save: i32,
    /// The d20 of a concentration check.
    pub concentration: i32,
    /// The d20 of a single initiative roll.
    pub initiative: i32,
    /// One initiative d20 per combatant when a fight starts.
    pub combat_initiatives: Vec<i32>,
    /// Divine Smite dice.
    pub smite: i32,
    /// Second Wind healing dice.
    pub second_wind: i32,
    /// A potion's healing dice.
    pub potion: i32,
    /// A roll no mechanic asked for.
    pub free_roll: DiceOutcome,
}

/// What the item and spell lists say about the intent at hand, and the
/// importance of a consequence as written for people.
#[derive(Debug, Clone)]
pub struct Lookups {
    /// The weapon the item list gives under the attack's weapon name;
    /// `None` when it lists none (the attack then uses the weapon held, or a
    /// bare fist).
    pub weapon: Option<WeaponStats>,
    /// The record of the spell cast; `None`: not a known spell.
    pub spell: Option<SpellData>,
    /// The item equipped is listed as a two-handed weapon.
    pub two_handed: bool,
    /// The Strength the item equipped asks for as armor.
    pub strength_requirement: Option<u8>,
    /// A consequence's importance, written with one decimal.
    pub importance_shown: String,
}

/// Whether an intent may be resolved with these dice and records: the
/// precondition of the resolver it goes to.
pub open spec fn may_resolve(world: GameWorld, intent: Intent, rolls: DiceOutcomes, lookups: Lookups) -> bool {
    match intent {
        Intent::Attack { attacker_id, target_id, weapon_name, advantage } => RulesEngine::attack_allowed(
            world, attacker_id, target_id, weapon_name@, advantage, lookups.weapon, rolls.d20,
            rolls.damage, rolls.sneak_attack,
        ),
        Intent::CastSpell {
            caster_id, spell_name, spell_level, target_names, ..
        } => RulesEngine::cast_spell_allowed(
            world, caster_id, spell_name@, lookups.spell, spell_level, target_names@, rolls.spell,
        ),
        Intent::SkillCheck {
            character_id, skill, dc, advantage, description
        } => RulesEngine::skill_check_allowed(
            world, character_id, skill, dc, advantage, description@, rolls.d20,
        ),
        Intent::AbilityCheck {
            character_id, ability, dc, advantage, description
        } => RulesEngine::ability_check_allowed(
            world, character_id, ability, dc, advantage, description@, rolls.d20,
        ),
        Intent::SavingThrow {
            character_id, ability, dc, advantage, source
        } => RulesEngine::saving_throw_allowed(
            world, character_id, ability, dc, advantage, source@, rolls.d20,
        ),
        Intent::Damage { target_id, amount, damage_type, source } => RulesEngine::damage_allowed(
            world, target_id, amount, damage_type, source@,
        ),
        Intent::Heal { target_id, amount, source } => RulesEngine::heal_allowed(
            world, target_id, amount, source@,
        ),
        Intent::StartCombat { combatants } => RulesEngine::start_combat_allowed(
            world, combatants, rolls.combat_initiatives@,
        ),
        Intent::NextTurn => RulesEngine::next_turn_allowed(world),
        Intent::RollInitiative {
            character_id, name, modifier, is_player
        } => RulesEngine::roll_initiative_allowed(
            character_id, name@, modifier, is_player, rolls.initiative,
        ),
        Intent::GainExperience { amount } => RulesEngine::gain_experience_allowed(world, amount),
        Intent::AddItem {
            item_name, quantity, item_type, description, magical, ..
        } => RulesEngine::add_item_allowed(
            world, item_name@, quantity, opt_view(item_type), opt_view(description), magical,
        ),
        Intent::UseItem { item_name, target_id } => RulesEngine::use_item_allowed(
            world, item_name@, target_id, rolls.potion,
        ),
        Intent::AdjustGold { amount, reason } => RulesEngine::adjust_gold_allowed(world, amount, reason@),
        Intent::AdjustSilver { amount, reason } => RulesEngine::adjust_silver_allowed(world, amount, reason@),
        Intent::DeathSave { character_id } => RulesEngine::death_save_allowed(
            world, character_id, rolls.death_save,
        ),
        Intent::ConcentrationCheck {
            character_id, damage_taken, spell_name
        } => RulesEngine::concentration_check_allowed(
            world, character_id, damage_taken, spell_name@, rolls.concentration,
        ),
        Intent::UseLayOnHands {
            character_id, target_name, hp_amount, cure_disease, neutralize_poison
        } => RulesEngine::use_lay_on_hands_allowed(
            world, character_id, target_name@, hp_amount, cure_disease, neutralize_poison,
        ),
        Intent::EndWildShape { character_id, reason, excess_damage } => RulesEngine::end_wild_shape_allowed(
            world, character_id, reason@, excess_damage,
        ),
        Intent::UseSecondWind { character_id } => RulesEngine::use_second_wind_allowed(
            world, character_id, rolls.second_wind,
        ),
        Intent::RestoreSpellSlot { slot_level, source } => RulesEngine::restore_spell_slot_allowed(
            world, slot_level, source@,
        ),
        Intent::ScheduleEvent {
            description, minutes, hours, day, month, year, hour, daily_hour, daily_minute,
            location, visibility, repeating, ..
        } => RulesEngine::schedule_event_allowed(
            world, description@, minutes, hours, day, month, year, hour, daily_hour, daily_minute,
            opt_view(location), visibility@, repeating,
        ),
        _ => true,
    }
}

fn opt_str(o: &Option<String>) -> (r: Option<&str>)
    ensures
        opt_str_view(r) == opt_view(*o),
{
    match o {
        Some(s) => Some(s.as_str()),
        None => None,
    }
}

impl RulesEngine {
    /// Resolves an intent by the rules that govern it: the resolution is
    /// exactly what that intent's resolver gives on the same world, the
    /// intent's arguments, the dice and the records. Moving is not handled
    /// yet and says so.
    pub fn resolve(&self, world: &GameWorld, intent: Intent, rolls: DiceOutcomes, lookups: Lookups) -> (r: Resolution)
        requires
            may_resolve(*world, intent, rolls, lookups),
        ensures
            match intent {
                Intent::Attack {
                    attacker_id, target_id, weapon_name, advantage
                } => RulesEngine::attack_outcome(
                    *world, attacker_id, target_id, weapon_name@, advantage, lookups.weapon,
                    rolls.d20, rolls.damage, rolls.sneak_attack, r,
                ),
                Intent::Move { .. } => r.narrative@ =~= "Intent not yet implemented"@ && r.effects@.len() == 0,
                Intent::CastSpell {
                    caster_id, spell_name, spell_level, target_names, ..
                } => RulesEngine::cast_spell_outcome(
                    *world, caster_id, spell_name@, lookups.spell, spell_level, target_names@,
                    rolls.spell, r,
                ),
                Intent::SkillCheck {
                    character_id, skill, dc, advantage, description
                } => RulesEngine::skill_check_outcome(
                    *world, character_id, skill, dc, advantage, description@, rolls.d20, r,
                ),
                Intent::AbilityCheck {
                    character_id, ability, dc, advantage, description
                } => RulesEngine::ability_check_outcome(
                    *world, character_id, ability, dc, advantage, description@, rolls.d20, r,
                ),
                Intent::SavingThrow {
                    character_id, ability, dc, advantage, source
                } => RulesEngine::saving_throw_outcome(
                    *world, character_id, ability, dc, advantage, source@, rolls.d20, r,
                ),
                Intent::Damage { target_id, amount, damage_type, source } => RulesEngine::damage_outcome(
                    *world, target_id, amount, damage_type, source@, r,
                ),
                Intent::Heal { target_id, amount, source } => RulesEngine::heal_outcome(
                    *world, target_id, amount, source@, r,
                ),
                Intent::ApplyCondition {
                    target_id, condition, source, duration_rounds
                } => RulesEngine::apply_condition_outcome(
                    *world, target_id, condition, source@, duration_rounds, r,
                ),
                Intent::RemoveCondition { target_id, condition } => RulesEngine::remove_condition_outcome(
                    *world, target_id, condition, r,
                ),
                Intent::ShortRest => RulesEngine::short_rest_outcome(*world, r),
                Intent::LongRest => RulesEngine::long_rest_outcome(*world, r),
                Intent::StartCombat { combatants } => RulesEngine::start_combat_outcome(
                    *world, combatants, rolls.combat_initiatives@, r,
                ),
                Intent::EndCombat => RulesEngine::end_combat_outcome(*world, r),
                Intent::NextTurn => RulesEngine::next_turn_outcome(*world, r),
                Intent::RollInitiative {
                    character_id, name, modifier, is_player
                } => RulesEngine::roll_initiative_outcome(
                    character_id, name@, modifier, is_player, rolls.initiative, r,
                ),
                Intent::RollDice { notation, purpose } => RulesEngine::roll_dice_outcome(
                    notation@, purpose@, rolls.free_roll, r,
                ),
                Intent::AdvanceTime { minutes } => RulesEngine::advance_time_outcome(minutes, r),
                Intent::GainExperience { amount } => RulesEngine::gain_experience_outcome(*world, amount, r),
                Intent::UseFeature { character_id, feature_name } => RulesEngine::use_feature_outcome(
                    *world, character_id, feature_name@, r,
                ),
                Intent::RememberFact {
                    subject_name, subject_type, fact, category, related_entities, importance_bits
                } => RulesEngine::remember_fact_outcome(
                    subject_name@, subject_type@, fact@, category@, related_entities@,
                    importance_bits, r,
                ),
                Intent::AddItem {
                    item_name, quantity, item_type, description, magical, ..
                } => RulesEngine::add_item_outcome(
                    *world, item_name@, quantity, opt_view(item_type), opt_view(description),
                    magical, r,
                ),
                Intent::RemoveItem { item_name, quantity } => RulesEngine::remove_item_outcome(
                    *world, item_name@, quantity, r,
                ),
                Intent::EquipItem { item_name } => RulesEngine::equip_item_outcome(
                    *world, item_name@, lookups.two_handed, lookups.strength_requirement, r,
                ),
                Intent::UnequipItem { slot } => RulesEngine::unequip_item_outcome(*world, slot@, r),
                Intent::UseItem { item_name, target_id } => RulesEngine::use_item_outcome(
                    *world, item_name@, target_id, rolls.potion, r,
                ),
                Intent::AdjustGold { amount, reason } => RulesEngine::adjust_gold_outcome(
                    *world, amount, reason@, r,
                ),
                Intent::AdjustSilver { amount, reason } => RulesEngine::adjust_silver_outcome(
                    *world, amount, reason@, r,
                ),
                Intent::DeathSave { character_id } => RulesEngine::death_save_outcome(
                    *world, character_id, rolls.death_save, r,
                ),
                Intent::ConcentrationCheck {
                    character_id, damage_taken, spell_name
                } => RulesEngine::concentration_check_outcome(
                    *world, character_id, damage_taken, spell_name@, rolls.concentration, r,
                ),
                Intent::ChangeLocation {
                    new_location, location_type, description
                } => RulesEngine::change_location_outcome(
                    *world, new_location@, location_type, description, r,
                ),
                Intent::RegisterConsequence {
                    trigger_description, consequence_description, severity, related_entities,
                    expires_in_turns, ..
                } => RulesEngine::register_consequence_outcome(
                    trigger_description@, consequence_description@, severity@, related_entities@,
                    lookups.importance_shown@, expires_in_turns, r,
                ),
                Intent::UseRage { character_id } => RulesEngine::use_rage_outcome(*world, character_id, r),
                Intent::EndRage { character_id, reason } => RulesEngine::end_rage_outcome(
                    *world, character_id, reason@, r,
                ),
                Intent::UseKi { character_id, points, ability } => RulesEngine::use_ki_outcome(
                    *world, character_id, points, ability@, r,
                ),
                Intent::UseLayOnHands {
                    character_id, target_name, hp_amount, cure_disease, neutralize_poison
                } => RulesEngine::use_lay_on_hands_outcome(
                    *world, character_id, target_name@, hp_amount, cure_disease, neutralize_poison,
                    r,
                ),
                Intent::UseDivineSmite {
                    character_id, spell_slot_level, target_is_undead_or_fiend
                } => RulesEngine::use_divine_smite_outcome(
                    *world, character_id, spell_slot_level, target_is_undead_or_fiend, rolls.smite,
                    r,
                ),
                Intent::UseWildShape {
                    character_id, beast_form, beast_hp, beast_ac
                } => RulesEngine::use_wild_shape_outcome(
                    *world, character_id, beast_form@, beast_hp, beast_ac, r,
                ),
                Intent::EndWildShape {
                    character_id, reason, excess_damage
                } => RulesEngine::end_wild_shape_outcome(
                    *world, character_id, reason@, excess_damage, r,
                ),
                Intent::UseChannelDivinity {
                    character_id, option, targets
                } => RulesEngine::use_channel_divinity_outcome(
                    *world, character_id, option@, targets@, r,
                ),
                Intent::UseBardicInspiration {
                    character_id, target_name, die_size
                } => RulesEngine::use_bardic_inspiration_outcome(
                    *world, character_id, target_name@, die_size@, r,
                ),
                Intent::UseActionSurge {
                    character_id, action_taken
                } => RulesEngine::use_action_surge_outcome(
                    *world, character_id, action_taken@, r,
                ),
                Intent::UseSecondWind { character_id } => RulesEngine::use_second_wind_outcome(
                    *world, character_id, rolls.second_wind, r,
                ),
                Intent::UseSorceryPoints {
                    character_id, points, metamagic, spell_name, slot_level
                } => RulesEngine::use_sorcery_points_outcome(
                    *world, character_id, points, metamagic@, opt_view(spell_name), slot_level, r,
                ),
                Intent::CreateQuest {
                    name, description, giver, objectives, rewards
                } => RulesEngine::create_quest_outcome(
                    name@, description@, opt_view(giver), objectives@, rewards@, r,
                ),
                Intent::AddQuestObjective {
                    quest_name, objective, optional
                } => RulesEngine::add_quest_objective_outcome(
                    quest_name@, objective@, optional, r,
                ),
                Intent::CompleteObjective {
                    quest_name, objective_description
                } => RulesEngine::complete_objective_outcome(
                    quest_name@, objective_description@, r,
                ),
                Intent::CompleteQuest { quest_name, completion_note } => RulesEngine::complete_quest_outcome(
                    quest_name@, opt_view(completion_note), r,
                ),
                Intent::FailQuest { quest_name, failure_reason } => RulesEngine::fail_quest_outcome(
                    quest_name@, failure_reason@, r,
                ),
                Intent::UpdateQuest {
                    quest_name, new_description, add_rewards
                } => RulesEngine::update_quest_outcome(
                    quest_name@, opt_view(new_description), add_rewards@, r,
                ),
                Intent::CreateNpc {
                    name, description, personality, occupation, disposition, location,
                    known_information
                } => RulesEngine::create_npc_outcome(
                    *world, name@, description@, personality@, opt_view(occupation), disposition@,
                    opt_view(location), known_information@, r,
                ),
                Intent::UpdateNpc {
                    npc_name, disposition, add_information, new_description, new_personality
                } => RulesEngine::update_npc_outcome(
                    *world, npc_name@, opt_view(disposition), add_information@,
                    opt_view(new_description), opt_view(new_personality), r,
                ),
                Intent::MoveNpc { npc_name, destination, reason } => RulesEngine::move_npc_outcome(
                    *world, npc_name@, destination@, opt_view(reason), r,
                ),
                Intent::RemoveNpc { npc_name, reason, permanent } => RulesEngine::remove_npc_outcome(
                    npc_name@, reason@, permanent, r,
                ),
                Intent::CreateLocation {
                    name, location_type, description, parent_location, items, npcs_present
                } => RulesEngine::create_location_outcome(
                    name@, location_type@, description@, opt_view(parent_location), items@,
                    npcs_present@, r,
                ),
                Intent::ConnectLocations {
                    from_location, to_location, direction, travel_time_minutes, bidirectional
                } => RulesEngine::connect_locations_outcome(
                    from_location@, to_location@, opt_view(direction), travel_time_minutes,
                    bidirectional, r,
                ),
                Intent::UpdateLocation {
                    location_name, new_description, add_items, remove_items, add_npcs, remove_npcs
                } => RulesEngine::update_location_outcome(
                    *world, location_name@, opt_view(new_description), add_items@, remove_items@,
                    add_npcs@, remove_npcs@, r,
                ),
                Intent::ModifyAbilityScore {
                    ability, modifier, source, duration
                } => RulesEngine::modify_ability_score_outcome(
                    ability, modifier, source@, opt_view(duration), r,
                ),
                Intent::RestoreSpellSlot { slot_level, source } => RulesEngine::restore_spell_slot_outcome(
                    *world, slot_level, source@, r,
                ),
                Intent::AssertState {
                    entity_name, state_type, new_value, reason, target_entity
                } => RulesEngine::assert_state_outcome(
                    *world, entity_name@, state_type, new_value@, reason@, opt_view(target_entity),
                    r,
                ),
                Intent::ShareKnowledge {
                    knowing_entity, content, source, verification, context
                } => RulesEngine::share_knowledge_outcome(
                    knowing_entity@, content@, source@, verification@, opt_view(context), r,
                ),
                Intent::ScheduleEvent {
                    description, minutes, hours, day, month, year, hour, daily_hour, daily_minute,
                    location, visibility, repeating, ..
                } => RulesEngine::schedule_event_outcome(
                    *world, description@, minutes, hours, day, month, year, hour, daily_hour,
                    daily_minute, opt_view(location), visibility@, repeating, r,
                ),
                Intent::CancelEvent { event_description, reason } => RulesEngine::cancel_event_outcome(
                    event_description@, reason@, r,
                ),
            },
    {
        match intent {
            Intent::Attack { attacker_id, target_id, weapon_name, advantage } => self.resolve_attack(
                world, attacker_id, target_id, weapon_name.as_str(), advantage, lookups.weapon,
                rolls.d20, rolls.damage, rolls.sneak_attack,
            ),
            Intent::CastSpell {
                caster_id, spell_name, spell_level, target_names, ..
            } => self.resolve_cast_spell(
                world, caster_id, spell_name.as_str(), lookups.spell, spell_level,
                target_names.as_slice(), &rolls.spell,
            ),
            Intent::SkillCheck {
                character_id, skill, dc, advantage, description
            } => self.resolve_skill_check(
                world, character_id, skill, dc, advantage, description.as_str(), rolls.d20,
            ),
            Intent::AbilityCheck {
                character_id, ability, dc, advantage, description
            } => self.resolve_ability_check(
                world, character_id, ability, dc, advantage, description.as_str(), rolls.d20,
            ),
            Intent::SavingThrow { character_id, ability, dc, advantage, source } => self.resolve_saving_throw(
                world, character_id, ability, dc, advantage, source.as_str(), rolls.d20,
            ),
            Intent::Damage { target_id, amount, damage_type, source } => self.resolve_damage(
                world, target_id, amount, damage_type, source.as_str(),
            ),
            Intent::Heal { target_id, amount, source } => self.resolve_heal(
                world, target_id, amount, source.as_str(),
            ),
            Intent::ApplyCondition {
                target_id, condition, source, duration_rounds
            } => self.resolve_apply_condition(
                world, target_id, condition, source.as_str(), duration_rounds,
            ),
            Intent::RemoveCondition { target_id, condition } => self.resolve_remove_condition(
                world, target_id, condition,
            ),
            Intent::Move { .. } => Resolution::new(String::from_str("Intent not yet implemented")),
            Intent::ShortRest => self.resolve_short_rest(world),
            Intent::LongRest => self.resolve_long_rest(world),
            Intent::StartCombat { combatants } => self.resolve_start_combat(
                world, combatants, &rolls.combat_initiatives,
            ),
            Intent::EndCombat => self.resolve_end_combat(world),
            Intent::NextTurn => self.resolve_next_turn(world),
            Intent::RollInitiative {
                character_id, name, modifier, is_player
            } => self.resolve_roll_initiative(
                character_id, name.as_str(), modifier, is_player, rolls.initiative,
            ),
            Intent::RollDice { notation, purpose } => self.resolve_roll_dice(
                notation.as_str(), purpose.as_str(), rolls.free_roll,
            ),
            Intent::AdvanceTime { minutes } => self.resolve_advance_time(minutes),
            Intent::GainExperience { amount } => self.resolve_gain_experience(world, amount),
            Intent::UseFeature { character_id, feature_name } => self.resolve_use_feature(
                world, character_id, feature_name.as_str(),
            ),
            Intent::RememberFact {
                subject_name, subject_type, fact, category, related_entities, importance_bits
            } => self.resolve_remember_fact(
                subject_name.as_str(), subject_type.as_str(), fact.as_str(), category.as_str(),
                related_entities.as_slice(), importance_bits,
            ),
            Intent::AddItem {
                item_name, quantity, item_type, description, magical, ..
            } => self.resolve_add_item(
                world, item_name.as_str(), quantity, opt_str(&item_type), opt_str(&description),
                magical,
            ),
            Intent::RemoveItem { item_name, quantity } => self.resolve_remove_item(
                world, item_name.as_str(), quantity,
            ),
            Intent::EquipItem { item_name } => self.resolve_equip_item(
                world, item_name.as_str(), lookups.two_handed, lookups.strength_requirement,
            ),
            Intent::UnequipItem { slot } => self.resolve_unequip_item(world, slot.as_str()),
            Intent::UseItem { item_name, target_id } => self.resolve_use_item(
                world, item_name.as_str(), target_id, rolls.potion,
            ),
            Intent::AdjustGold { amount, reason } => self.resolve_adjust_gold(world, amount, reason.as_str()),
            Intent::AdjustSilver { amount, reason } => self.resolve_adjust_silver(
                world, amount, reason.as_str(),
            ),
            Intent::DeathSave { character_id } => self.resolve_death_save(
                world, character_id, rolls.death_save,
            ),
            Intent::ConcentrationCheck {
                character_id, damage_taken, spell_name
            } => self.resolve_concentration_check(
                world, character_id, damage_taken, spell_name.as_str(), rolls.concentration,
            ),
            Intent::ChangeLocation {
                new_location, location_type, description
            } => self.resolve_change_location(
                world, new_location.as_str(), location_type, description,
            ),
            Intent::RegisterConsequence {
                trigger_description, consequence_description, severity, related_entities,
                expires_in_turns, ..
            } => self.resolve_register_consequence(
                trigger_description.as_str(), consequence_description.as_str(), severity.as_str(),
                related_entities.as_slice(), lookups.importance_shown.as_str(), expires_in_turns,
            ),
            Intent::UseRage { character_id } => self.resolve_use_rage(world, character_id),
            Intent::EndRage { character_id, reason } => self.resolve_end_rage(
                world, character_id, reason.as_str(),
            ),
            Intent::UseKi { character_id, points, ability } => self.resolve_use_ki(
                world, character_id, points, ability.as_str(),
            ),
            Intent::UseLayOnHands {
                character_id, target_name, hp_amount, cure_disease, neutralize_poison
            } => self.resolve_use_lay_on_hands(
                world, character_id, target_name.as_str(), hp_amount, cure_disease,
                neutralize_poison,
            ),
            Intent::UseDivineSmite {
                character_id, spell_slot_level, target_is_undead_or_fiend
            } => self.resolve_use_divine_smite(
                world, character_id, spell_slot_level, target_is_undead_or_fiend, rolls.smite,
            ),
            Intent::UseWildShape {
                character_id, beast_form, beast_hp, beast_ac
            } => self.resolve_use_wild_shape(
                world, character_id, beast_form.as_str(), beast_hp, beast_ac,
            ),
            Intent::EndWildShape { character_id, reason, excess_damage } => self.resolve_end_wild_shape(
                world, character_id, reason.as_str(), excess_damage,
            ),
            Intent::UseChannelDivinity { character_id, option, targets } => self.resolve_use_channel_divinity(
                world, character_id, option.as_str(), targets.as_slice(),
            ),
            Intent::UseBardicInspiration {
                character_id, target_name, die_size
            } => self.resolve_use_bardic_inspiration(
                world, character_id, target_name.as_str(), die_size.as_str(),
            ),
            Intent::UseActionSurge { character_id, action_taken } => self.resolve_use_action_surge(
                world, character_id, action_taken.as_str(),
            ),
            Intent::UseSecondWind { character_id } => self.resolve_use_second_wind(
                world, character_id, rolls.second_wind,
            ),
            Intent::UseSorceryPoints {
                character_id, points, metamagic, spell_name, slot_level
            } => self.resolve_use_sorcery_points(
                world, character_id, points, metamagic.as_str(), opt_str(&spell_name), slot_level,
            ),
            Intent::CreateQuest {
                name, description, giver, objectives, rewards
            } => self.resolve_create_quest(
                name.as_str(), description.as_str(), opt_str(&giver), objectives.as_slice(),
                rewards.as_slice(),
            ),
            Intent::AddQuestObjective { quest_name, objective, optional } => self.resolve_add_quest_objective(
                quest_name.as_str(), objective.as_str(), optional,
            ),
            Intent::CompleteObjective {
                quest_name, objective_description
            } => self.resolve_complete_objective(
                quest_name.as_str(), objective_description.as_str(),
            ),
            Intent::CompleteQuest { quest_name, completion_note } => self.resolve_complete_quest(
                quest_name.as_str(), opt_str(&completion_note),
            ),
            Intent::FailQuest { quest_name, failure_reason } => self.resolve_fail_quest(
                quest_name.as_str(), failure_reason.as_str(),
            ),
            Intent::UpdateQuest { quest_name, new_description, add_rewards } => self.resolve_update_quest(
                quest_name.as_str(), opt_str(&new_description), add_rewards.as_slice(),
            ),
            Intent::CreateNpc {
                name, description, personality, occupation, disposition, location,
                known_information
            } => self.resolve_create_npc(
                world, name.as_str(), description.as_str(), personality.as_str(),
                opt_str(&occupation), disposition.as_str(), opt_str(&location),
                known_information.as_slice(),
            ),
            Intent::UpdateNpc {
                npc_name, disposition, add_information, new_description, new_personality
            } => self.resolve_update_npc(
                world, npc_name.as_str(), opt_str(&disposition), add_information.as_slice(),
                opt_str(&new_description), opt_str(&new_personality),
            ),
            Intent::MoveNpc { npc_name, destination, reason } => self.resolve_move_npc(
                world, npc_name.as_str(), destination.as_str(), opt_str(&reason),
            ),
            Intent::RemoveNpc { npc_name, reason, permanent } => self.resolve_remove_npc(
                npc_name.as_str(), reason.as_str(), permanent,
            ),
            Intent::CreateLocation {
                name, location_type, description, parent_location, items, npcs_present
            } => self.resolve_create_location(
                name.as_str(), location_type.as_str(), description.as_str(),
                opt_str(&parent_location), items.as_slice(), npcs_present.as_slice(),
            ),
            Intent::ConnectLocations {
                from_location, to_location, direction, travel_time_minutes, bidirectional
            } => self.resolve_connect_locations(
                from_location.as_str(), to_location.as_str(), opt_str(&direction),
                travel_time_minutes, bidirectional,
            ),
            Intent::UpdateLocation {
                location_name, new_description, add_items, remove_items, add_npcs, remove_npcs
            } => self.resolve_update_location(
                world, location_name.as_str(), opt_str(&new_description), add_items.as_slice(),
                remove_items.as_slice(), add_npcs.as_slice(), remove_npcs.as_slice(),
            ),
            Intent::ModifyAbilityScore {
                ability, modifier, source, duration
            } => self.resolve_modify_ability_score(
                ability, modifier, source.as_str(), opt_str(&duration),
            ),
            Intent::RestoreSpellSlot { slot_level, source } => self.resolve_restore_spell_slot(
                world, slot_level, source.as_str(),
            ),
            Intent::AssertState {
                entity_name, state_type, new_value, reason, target_entity
            } => self.resolve_assert_state(
                world, entity_name.as_str(), state_type, new_value.as_str(), reason.as_str(),
                opt_str(&target_entity),
            ),
            Intent::ShareKnowledge {
                knowing_entity, content, source, verification, context
            } => self.resolve_share_knowledge(
                knowing_entity.as_str(), content.as_str(), source.as_str(), verification.as_str(),
                opt_str(&context),
            ),
            Intent::ScheduleEvent {
                description, minutes, hours, day, month, year, hour, daily_hour, daily_minute,
                location, visibility, repeating, ..
            } => self.resolve_schedule_event(
                world, description.as_str(), minutes, hours, day, month, year, hour, daily_hour,
                daily_minute, opt_str(&location), visibility.as_str(), repeating,
            ),
            Intent::CancelEvent { event_description, reason } => self.resolve_cancel_event(
                event_description.as_str(), reason.as_str(),
            ),
        }
    }
}

} // verus!
