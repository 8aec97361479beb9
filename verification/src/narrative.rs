//! The line of narrative each effect produces for the player to read.

use vstd::prelude::*;
use crate::rules::{Effect, RestType};
use crate::text::{int_text, opt_view, push_int, push_nat, push_str, str_eq};

verus! {

/// How a line of narrative is shown.
#[derive(Debug, Clone, Copy, PartialEq, Eq, Structural)]
pub enum NarrativeType {
    /// Game bookkeeping.
    System,
    /// Blows, wounds and death.
    Combat,
}

/// A line of narrative with an optional status message.
#[derive(Debug, Clone)]
pub struct NarrativeOutput {
    pub text: String,
    pub narrative_type: NarrativeType,
    pub status: Option<String>,
}

/// A line shown with no status message.
pub open spec fn line(text: Seq<char>, t: NarrativeType) -> Option<(Seq<char>, NarrativeType, Option<Seq<char>>)> {
    Some((text, t, None))
}

/// A line shown with a status message.
pub open spec fn line_with(text: Seq<char>, t: NarrativeType, status: Seq<char>) -> Option<(Seq<char>, NarrativeType, Option<Seq<char>>)> {
    Some((text, t, Some(status)))
}

/// " {prefix}{s}" for a present string, nothing for an absent one.
pub open spec fn opt_suffix(prefix: Seq<char>, o: Option<String>, close: Seq<char>) -> Seq<char> {
    match o {
        Some(s) => prefix + s@ + close,
        None => Seq::empty(),
    }
}

/// "{n} x " for more than one item, nothing for one.
pub open spec fn quantity_text(quantity: u32) -> Seq<char> {
    if quantity > 1 { int_text(quantity as int) + " x "@ } else { Seq::empty() }
}

/// Gained or spent coins.
pub open spec fn coins_text(amount: i32, new_total: i32, reason: Seq<char>, unit: Seq<char>) -> Seq<char> {
    (if amount >= 0 { "Gained"@ } else { "Spent"@ }) + " "@ + int_text(if amount >= 0 { amount as int } else { -amount })
        + " "@ + unit + " ("@ + reason + "). Total: "@ + int_text(new_total as int) + " "@ + unit
}

/// The note on how trustworthy shared knowledge is.
pub open spec fn verification_note(v: Seq<char>) -> Seq<char> {
    if v == "true"@ {
        " (verified)"@
    } else if v == "false"@ {
        " (false information)"@
    } else if v == "partial"@ {
        " (partially true)"@
    } else if v == "outdated"@ {
        " (outdated)"@
    } else {
        ""@
    }
}

/// Time that passes, in hours and minutes once it reaches an hour.
pub open spec fn time_passes_text(minutes: u32) -> Seq<char> {
    if minutes >= 60 {
        if minutes % 60 > 0 {
            int_text((minutes / 60) as int) + " hours and "@ + int_text((minutes % 60) as int) + " minutes pass."@
        } else {
            int_text((minutes / 60) as int) + " hours pass."@
        }
    } else {
        int_text(minutes as int) + " minutes pass."@
    }
}

/// Whether narrating an effect stays within `i32`: amounts that are negated
/// are not `i32::MIN`.
pub open spec fn narratable(e: Effect) -> bool {
    match e {
        Effect::HpChanged { amount, .. } => amount > i32::MIN,
        Effect::GoldChanged { amount, .. } => amount > i32::MIN,
        Effect::SilverChanged { amount, .. } => amount > i32::MIN,
        _ => true,
    }
}

/// Narrative of the effects of part 1.
pub open spec fn narrative_part1(e: Effect) -> Option<(Seq<char>, NarrativeType, Option<Seq<char>>)> {
    match e {
        Effect::DiceRolled { roll, purpose } => line(
            purpose@ + ": "@ + roll.expression@ + " = "@ + int_text(roll.total as int), NarrativeType::System),
        Effect::AttackHit { attacker_name, target_name, attack_roll, target_ac, is_critical } => if is_critical {
            line("CRITICAL HIT! "@ + attacker_name@ + " rolls "@ + int_text(attack_roll as int) + " vs AC "@
                + int_text(target_ac as int) + " and strikes "@ + target_name@ + "!"@, NarrativeType::Combat)
        } else {
            line(attacker_name@ + " rolls "@ + int_text(attack_roll as int) + " vs AC "@ + int_text(target_ac as int)
                + " and hits "@ + target_name@ + "!"@, NarrativeType::Combat)
        },
        Effect::AttackMissed { attacker_name, target_name, attack_roll, target_ac } => line(
            attacker_name@ + " rolls "@ + int_text(attack_roll as int) + " vs AC "@ + int_text(target_ac as int)
                + " and misses "@ + target_name@ + "!"@, NarrativeType::Combat),
        Effect::HpChanged { amount, new_current, dropped_to_zero, .. } => if amount == 0 {
            None
        } else {
            Some((
                if amount < 0 {
                    "Takes "@ + int_text(-amount) + " damage! (HP: "@ + int_text(new_current as int) + ")"@
                } else {
                    "Heals "@ + int_text(amount as int) + " HP! (HP: "@ + int_text(new_current as int) + ")"@
                },
                if amount < 0 { NarrativeType::Combat } else { NarrativeType::System },
                if dropped_to_zero { Some("You fall unconscious!"@) } else { None },
            ))
        },
        Effect::ConditionApplied { condition, source, .. } => line(
            "Now "@ + condition.spec_text() + " from "@ + source@ + "!"@, NarrativeType::Combat),
        Effect::ConditionRemoved { condition, .. } => line(
            "No longer "@ + condition.spec_text() + "."@, NarrativeType::System),
        Effect::CombatStarted => line_with("Combat begins!"@, NarrativeType::Combat, "Roll for initiative!"@),
        Effect::CombatEnded => line("Combat ends."@, NarrativeType::System),
        Effect::TurnAdvanced { round, current_combatant } => line(
            "Round "@ + int_text(round as int) + " - "@ + current_combatant@ + "'s turn."@, NarrativeType::Combat),
        Effect::InitiativeRolled { name, roll, total, .. } => line(
            name@ + " rolls "@ + int_text(roll as int) + " for initiative (total: "@ + int_text(total as int) + ")"@,
            NarrativeType::System),
        Effect::CombatantAdded { name, initiative, .. } => line(
            name@ + " enters combat with initiative "@ + int_text(initiative as int) + "."@, NarrativeType::Combat),
        _ => None,
    }
}

/// Narrative of the effects of part 2.
pub open spec fn narrative_part2(e: Effect) -> Option<(Seq<char>, NarrativeType, Option<Seq<char>>)> {
    match e {
        Effect::TimeAdvanced { minutes } => line(time_passes_text(minutes), NarrativeType::System),
        Effect::ExperienceGained { amount, new_total } => line(
            "Gained "@ + int_text(amount as int) + " XP! (Total: "@ + int_text(new_total as int) + " XP)"@,
            NarrativeType::System),
        Effect::LevelUp { new_level } => line_with(
            "LEVEL UP! You are now level "@ + int_text(new_level as int) + "!"@, NarrativeType::System,
            "Level up! Now level "@ + int_text(new_level as int) + "!"@),
        Effect::FeatureUsed { feature_name, uses_remaining } => line(
            "Used "@ + feature_name@ + ". ("@ + int_text(uses_remaining as int) + " uses remaining)"@,
            NarrativeType::System),
        Effect::SpellSlotUsed { level, remaining } => line(
            "Used a level "@ + int_text(level as int) + " spell slot. ("@ + int_text(remaining as int) + " remaining)"@,
            NarrativeType::System),
        Effect::RestCompleted { rest_type } => line(
            "Completed a "@ + (match rest_type { RestType::Short => "short"@, RestType::Long => "long"@ }) + " rest."@,
            NarrativeType::System),
        Effect::CheckSucceeded { check_type, roll, dc } => line(
            check_type@ + " check succeeded! ("@ + int_text(roll as int) + " vs DC "@ + int_text(dc as int) + ")"@,
            NarrativeType::System),
        Effect::CheckFailed { check_type, roll, dc } => line(
            check_type@ + " check failed. ("@ + int_text(roll as int) + " vs DC "@ + int_text(dc as int) + ")"@,
            NarrativeType::System),
        Effect::FactRemembered { .. } => None,
        Effect::ConsequenceRegistered { .. } => None,
        Effect::ConsequenceTriggered { consequence_description, .. } => line(
            "CONSEQUENCE: "@ + consequence_description@, NarrativeType::System),
        _ => None,
    }
}

/// Narrative of the effects of part 3.
pub open spec fn narrative_part3(e: Effect) -> Option<(Seq<char>, NarrativeType, Option<Seq<char>>)> {
    match e {
        Effect::ItemAdded { item_name, quantity, new_total } => line(
            "Received "@ + quantity_text(quantity) + item_name@ + "! (now have "@ + int_text(new_total as int) + ")"@,
            NarrativeType::System),
        Effect::ItemRemoved { item_name, quantity, remaining } => line(
            if remaining > 0 {
                "Lost "@ + quantity_text(quantity) + item_name@ + ". ("@ + int_text(remaining as int) + " remaining)"@
            } else {
                "Lost "@ + quantity_text(quantity) + item_name@ + "."@
            },
            NarrativeType::System),
        Effect::ItemEquipped { item_name, slot } => line(
            "Equipped "@ + item_name@ + " in "@ + slot@ + " slot."@, NarrativeType::System),
        Effect::ItemUnequipped { item_name, slot } => line(
            "Unequipped "@ + item_name@ + " from "@ + slot@ + " slot."@, NarrativeType::System),
        Effect::ItemUsed { item_name, result } => line("Used "@ + item_name@ + ". "@ + result@, NarrativeType::System),
        Effect::GoldChanged { amount, new_total, reason } => line(
            coins_text(amount, new_total, reason@, "gp"@), NarrativeType::System),
        Effect::SilverChanged { amount, new_total, reason } => line(
            coins_text(amount, new_total, reason@, "sp"@), NarrativeType::System),
        Effect::AcChanged { new_ac, source } => line(
            "AC changed to "@ + int_text(new_ac as int) + " ("@ + source@ + ")"@, NarrativeType::System),
        Effect::DeathSaveFailure { total_failures, source, .. } => line_with(
            "DEATH SAVE FAILURE from "@ + source@ + "! ("@ + int_text(total_failures as int) + "/3 failures)"@,
            NarrativeType::Combat,
            if total_failures >= 3 {
                "You have died!"@
            } else {
                "Death saves: "@ + int_text(total_failures as int) + "/3 failures"@
            }),
        Effect::DeathSavesReset { .. } => line("Death saves reset - you're stable!"@, NarrativeType::System),
        Effect::CharacterDied { cause, .. } => line_with(
            "YOU HAVE DIED! Cause: "@ + cause@, NarrativeType::Combat, "GAME OVER - Your character has died."@),
        _ => None,
    }
}

/// Narrative of the effects of part 4.
pub open spec fn narrative_part4(e: Effect) -> Option<(Seq<char>, NarrativeType, Option<Seq<char>>)> {
    match e {
        Effect::DeathSaveSuccess { roll, total_successes, .. } => line_with(
            "Death save SUCCESS! Rolled "@ + int_text(roll as int) + " ("@ + int_text(total_successes as int)
                + "/3 successes)"@,
            NarrativeType::Combat,
            "Death saves: "@ + int_text(total_successes as int) + "/3 successes"@),
        Effect::Stabilized { .. } => line_with(
            "You have stabilized! No longer dying."@, NarrativeType::Combat, "Stabilized - unconscious but stable"@),
        Effect::ConcentrationBroken { spell_name, damage_taken, roll, dc, .. } => line_with(
            "CONCENTRATION BROKEN! Took "@ + int_text(damage_taken as int) + " damage, rolled "@ + int_text(roll as int)
                + " vs DC "@ + int_text(dc as int) + " - "@ + spell_name@ + " ends!"@,
            NarrativeType::Combat,
            "Lost concentration on "@ + spell_name@ + "!"@),
        Effect::ConcentrationMaintained { spell_name, roll, dc, .. } => line(
            "Concentration maintained! Rolled "@ + int_text(roll as int) + " vs DC "@ + int_text(dc as int) + " - "@
                + spell_name@ + " continues."@,
            NarrativeType::System),
        Effect::LocationChanged { previous_location, new_location } => line_with(
            "You travel from "@ + previous_location@ + " to "@ + new_location@ + "."@, NarrativeType::System,
            "Now at: "@ + new_location@),
        Effect::ClassResourceUsed { character_name, resource_name, description } => line(
            character_name@ + " uses "@ + resource_name@ + ": "@ + description@, NarrativeType::System),
        Effect::RageStarted { damage_bonus, .. } => line_with(
            "RAGE! +"@ + int_text(damage_bonus as int) + " damage to melee attacks, resistance to physical damage"@,
            NarrativeType::System, "Raging!"@),
        Effect::RageEnded { reason, .. } => line("Rage ended: "@ + reason@, NarrativeType::System),
        Effect::QuestCreated { name, giver, .. } => line_with(
            "NEW QUEST"@ + opt_suffix(" from "@, giver, ""@) + ": "@ + name@, NarrativeType::System,
            "Quest started: "@ + name@),
        Effect::QuestObjectiveAdded { quest_name, objective, .. } => line(
            "New objective for \""@ + quest_name@ + "\": "@ + objective@, NarrativeType::System),
        Effect::QuestObjectiveCompleted { quest_name, objective_description } => line_with(
            "Objective completed: "@ + objective_description@, NarrativeType::System,
            "Progress on \""@ + quest_name@ + "\""@),
        _ => None,
    }
}

/// Narrative of the effects of part 5.
pub open spec fn narrative_part5(e: Effect) -> Option<(Seq<char>, NarrativeType, Option<Seq<char>>)> {
    match e {
        Effect::QuestCompleted { quest_name, .. } => line_with(
            "QUEST COMPLETED: "@ + quest_name@ + "!"@, NarrativeType::System, "Completed: "@ + quest_name@),
        Effect::QuestFailed { quest_name, failure_reason } => line_with(
            "QUEST FAILED: "@ + quest_name@ + " - "@ + failure_reason@, NarrativeType::System,
            "Failed: "@ + quest_name@),
        Effect::QuestUpdated { quest_name, .. } => line(
            "Quest \""@ + quest_name@ + "\" updated."@, NarrativeType::System),
        Effect::SneakAttackUsed { damage_dice, .. } => line(
            "SNEAK ATTACK! ("@ + int_text(damage_dice as int) + "d6 extra damage)"@, NarrativeType::Combat),
        Effect::NpcCreated { name, location } => line(
            name@ + " enters the story"@ + opt_suffix(" at "@, location, ""@) + "."@, NarrativeType::System),
        Effect::NpcUpdated { npc_name, changes } => line(npc_name@ + ": "@ + changes@, NarrativeType::System),
        Effect::NpcMoved { npc_name, to_location, .. } => line(
            npc_name@ + " moves to "@ + to_location@ + "."@, NarrativeType::System),
        Effect::NpcRemoved { npc_name, reason } => line(
            npc_name@ + " leaves the story: "@ + reason@, NarrativeType::System),
        Effect::LocationCreated { name, location_type } => line_with(
            "Discovered new "@ + location_type@ + ": "@ + name@, NarrativeType::System, "New location: "@ + name@),
        Effect::LocationsConnected { from, to, direction } => line(
            "Path discovered: "@ + from@ + " \u{2194} "@ + to@ + opt_suffix(" ("@, direction, ")"@),
            NarrativeType::System),
        Effect::LocationUpdated { location_name, changes } => line(
            location_name@ + ": "@ + changes@, NarrativeType::System),
        _ => None,
    }
}

/// Narrative of the effects of part 6.
pub open spec fn narrative_part6(e: Effect) -> Option<(Seq<char>, NarrativeType, Option<Seq<char>>)> {
    match e {
        Effect::AbilityScoreModified { ability, modifier, source } => line_with(
            ability.spec_name() + " "@ + (if modifier >= 0 { "+"@ } else { Seq::empty() }) + int_text(modifier as int)
                + " ("@ + source@ + ")"@,
            NarrativeType::System,
            ability.spec_name() + " modified!"@),
        Effect::SpellSlotRestored { level, new_remaining } => line(
            "Level "@ + int_text(level as int) + " spell slot restored! ("@ + int_text(new_remaining as int)
                + " available)"@,
            NarrativeType::System),
        Effect::StateAsserted { entity_name, state_type, new_value, reason, .. } => line(
            "["@ + entity_name@ + " "@ + state_type.spec_name() + " is now "@ + new_value@ + " - "@ + reason@ + "]"@,
            NarrativeType::System),
        Effect::KnowledgeShared { knowing_entity, content, source, verification, .. } => line(
            "["@ + knowing_entity@ + " learns from "@ + source@ + ": \""@ + content@ + "\""@
                + verification_note(verification@) + "]"@,
            NarrativeType::System),
        Effect::EventScheduled { description, trigger_description, location, .. } => line(
            "[Event scheduled: \""@ + description@ + "\" "@ + trigger_description@
                + opt_suffix(" at "@, location, ""@) + "]"@,
            NarrativeType::System),
        Effect::EventCancelled { description, reason } => line(
            "[Event cancelled: \""@ + description@ + "\" - "@ + reason@ + "]"@, NarrativeType::System),
        Effect::EventTriggered { description, location } => line_with(
            "[EVENT: "@ + description@ + opt_suffix(" at "@, location, ""@) + "]"@, NarrativeType::System,
            description@),
        _ => None,
    }
}

/// The narrative of an effect: its text, how it is shown, and its status
/// message; none for effects that are only bookkeeping.
pub open spec fn spec_narrative(e: Effect) -> Option<(Seq<char>, NarrativeType, Option<Seq<char>>)> {
    match e {
        Effect::DiceRolled { .. } | Effect::AttackHit { .. } | Effect::AttackMissed { .. } | Effect::HpChanged { .. } | Effect::ConditionApplied { .. } | Effect::ConditionRemoved { .. } | Effect::CombatStarted | Effect::CombatEnded | Effect::TurnAdvanced { .. } | Effect::InitiativeRolled { .. } | Effect::CombatantAdded { .. } => narrative_part1(e),
        Effect::TimeAdvanced { .. } | Effect::ExperienceGained { .. } | Effect::LevelUp { .. } | Effect::FeatureUsed { .. } | Effect::SpellSlotUsed { .. } | Effect::RestCompleted { .. } | Effect::CheckSucceeded { .. } | Effect::CheckFailed { .. } | Effect::FactRemembered { .. } | Effect::ConsequenceRegistered { .. } | Effect::ConsequenceTriggered { .. } => narrative_part2(e),
        Effect::ItemAdded { .. } | Effect::ItemRemoved { .. } | Effect::ItemEquipped { .. } | Effect::ItemUnequipped { .. } | Effect::ItemUsed { .. } | Effect::GoldChanged { .. } | Effect::SilverChanged { .. } | Effect::AcChanged { .. } | Effect::DeathSaveFailure { .. } | Effect::DeathSavesReset { .. } | Effect::CharacterDied { .. } => narrative_part3(e),
        Effect::DeathSaveSuccess { .. } | Effect::Stabilized { .. } | Effect::ConcentrationBroken { .. } | Effect::ConcentrationMaintained { .. } | Effect::LocationChanged { .. } | Effect::ClassResourceUsed { .. } | Effect::RageStarted { .. } | Effect::RageEnded { .. } | Effect::QuestCreated { .. } | Effect::QuestObjectiveAdded { .. } | Effect::QuestObjectiveCompleted { .. } => narrative_part4(e),
        Effect::QuestCompleted { .. } | Effect::QuestFailed { .. } | Effect::QuestUpdated { .. } | Effect::SneakAttackUsed { .. } | Effect::NpcCreated { .. } | Effect::NpcUpdated { .. } | Effect::NpcMoved { .. } | Effect::NpcRemoved { .. } | Effect::LocationCreated { .. } | Effect::LocationsConnected { .. } | Effect::LocationUpdated { .. } => narrative_part5(e),
        Effect::AbilityScoreModified { .. } | Effect::SpellSlotRestored { .. } | Effect::StateAsserted { .. } | Effect::KnowledgeShared { .. } | Effect::EventScheduled { .. } | Effect::EventCancelled { .. } | Effect::EventTriggered { .. } => narrative_part6(e),
    }
}

/// Only bookkeeping gives no narrative: remembered facts, registered
/// consequences and a change of zero hit points. Every other effect is told.
#[verifier::spinoff_prover]
pub proof fn law_only_bookkeeping_is_silent(e: Effect)
    ensures
        spec_narrative(e) is None <==> (e is FactRemembered || e is ConsequenceRegistered
            || (e matches Effect::HpChanged { amount, .. } && amount == 0)),
{
}

fn out(text: String, narrative_type: NarrativeType) -> (r: Option<NarrativeOutput>)
    ensures
        r matches Some(o) && o.text == text && o.narrative_type == narrative_type && o.status is None,
{
    Some(NarrativeOutput { text, narrative_type, status: None })
}

fn out_with(text: String, narrative_type: NarrativeType, status: String) -> (r: Option<NarrativeOutput>)
    ensures
        r matches Some(o) && o.text == text && o.narrative_type == narrative_type && o.status == Some(status),
{
    Some(NarrativeOutput { text, narrative_type, status: Some(status) })
}

fn push_opt(s: &mut String, prefix: &str, o: &Option<String>, close: &str)
    ensures
        final(s)@ == old(s)@ + opt_suffix(prefix@, *o, close@),
{
    match o {
        Some(x) => {
            push_str(s, prefix);
            push_str(s, x.as_str());
            push_str(s, close);
        },
        None => {},
    }
}

fn push_quantity(s: &mut String, quantity: u32)
    ensures
        final(s)@ == old(s)@ + quantity_text(quantity),
{
    if quantity > 1 {
        push_nat(s, quantity as u64);
        push_str(s, " x ");
    }
}

fn coins(amount: i32, new_total: i32, reason: &str, unit: &str) -> (r: String)
    requires
        amount > i32::MIN,
    ensures
        r@ == coins_text(amount, new_total, reason@, unit@),
{
    let mut s = String::from_str(if amount >= 0 { "Gained" } else { "Spent" });
    push_str(&mut s, " ");
    push_int(&mut s, if amount >= 0 { amount as i64 } else { -(amount as i64) });
    push_str(&mut s, " ");
    push_str(&mut s, unit);
    push_str(&mut s, " (");
    push_str(&mut s, reason);
    push_str(&mut s, "). Total: ");
    push_int(&mut s, new_total as i64);
    push_str(&mut s, " ");
    push_str(&mut s, unit);
    s
}

/// Builds a string from pieces of text and integers, in order.
fn text2(a: &str, b: &str) -> (r: String)
    ensures
        r@ == a@ + b@,
{
    let mut s = String::from_str(a);
    push_str(&mut s, b);
    s
}

fn text3(a: &str, b: &str, c: &str) -> (r: String)
    ensures
        r@ == a@ + b@ + c@,
{
    let mut s = text2(a, b);
    push_str(&mut s, c);
    s
}

fn text4(a: &str, b: &str, c: &str, d: &str) -> (r: String)
    ensures
        r@ == a@ + b@ + c@ + d@,
{
    let mut s = text3(a, b, c);
    push_str(&mut s, d);
    s
}

#[verifier::spinoff_prover]
fn narrative_part1_of(effect: &Effect) -> (r: Option<NarrativeOutput>)
    requires
        narratable(*effect),
    ensures
        match r {
            None => narrative_part1(*effect) is None,
            Some(o) => narrative_part1(*effect) == Some((o.text@, o.narrative_type, opt_view(o.status))),
        },
{
    match effect {
        Effect::DiceRolled { roll, purpose } => {
            let mut s = text3(purpose.as_str(), ": ", roll.expression.as_str());
            push_str(&mut s, " = ");
            push_int(&mut s, roll.total as i64);
            out(s, NarrativeType::System)
        },
        Effect::AttackHit { attacker_name, target_name, attack_roll, target_ac, is_critical } => {
            let mut s = if *is_critical { text2("CRITICAL HIT! ", attacker_name.as_str()) } else { String::from_str(attacker_name.as_str()) };
            push_str(&mut s, " rolls ");
            push_int(&mut s, *attack_roll as i64);
            push_str(&mut s, " vs AC ");
            push_nat(&mut s, *target_ac as u64);
            push_str(&mut s, if *is_critical { " and strikes " } else { " and hits " });
            push_str(&mut s, target_name.as_str());
            push_str(&mut s, "!");
            out(s, NarrativeType::Combat)
        },
        Effect::AttackMissed { attacker_name, target_name, attack_roll, target_ac } => {
            let mut s = text2(attacker_name.as_str(), " rolls ");
            push_int(&mut s, *attack_roll as i64);
            push_str(&mut s, " vs AC ");
            push_nat(&mut s, *target_ac as u64);
            push_str(&mut s, " and misses ");
            push_str(&mut s, target_name.as_str());
            push_str(&mut s, "!");
            out(s, NarrativeType::Combat)
        },
        Effect::HpChanged { amount, new_current, dropped_to_zero, .. } => {
            if *amount == 0 {
                return None;
            }
            let mut s = if *amount < 0 { String::from_str("Takes ") } else { String::from_str("Heals ") };
            if *amount < 0 {
                push_int(&mut s, -(*amount as i64));
                push_str(&mut s, " damage! (HP: ");
            } else {
                push_int(&mut s, *amount as i64);
                push_str(&mut s, " HP! (HP: ");
            }
            push_int(&mut s, *new_current as i64);
            push_str(&mut s, ")");
            let t = if *amount < 0 { NarrativeType::Combat } else { NarrativeType::System };
            if *dropped_to_zero {
                out_with(s, t, String::from_str("You fall unconscious!"))
            } else {
                out(s, t)
            }
        },
        Effect::ConditionApplied { condition, source, .. } => {
            let mut s = String::from_str("Now ");
            let c = condition.to_text();
            push_str(&mut s, c.as_str());
            push_str(&mut s, " from ");
            push_str(&mut s, source.as_str());
            push_str(&mut s, "!");
            out(s, NarrativeType::Combat)
        },
        Effect::ConditionRemoved { condition, .. } => {
            let c = condition.to_text();
            out(text3("No longer ", c.as_str(), "."), NarrativeType::System)
        },
        Effect::CombatStarted => out_with(
            String::from_str("Combat begins!"), NarrativeType::Combat, String::from_str("Roll for initiative!")),
        Effect::CombatEnded => out(String::from_str("Combat ends."), NarrativeType::System),
        Effect::TurnAdvanced { round, current_combatant } => {
            let mut s = String::from_str("Round ");
            push_nat(&mut s, *round as u64);
            push_str(&mut s, " - ");
            push_str(&mut s, current_combatant.as_str());
            push_str(&mut s, "'s turn.");
            out(s, NarrativeType::Combat)
        },
        Effect::InitiativeRolled { name, roll, total, .. } => {
            let mut s = text2(name.as_str(), " rolls ");
            push_int(&mut s, *roll as i64);
            push_str(&mut s, " for initiative (total: ");
            push_int(&mut s, *total as i64);
            push_str(&mut s, ")");
            out(s, NarrativeType::System)
        },
        Effect::CombatantAdded { name, initiative, .. } => {
            let mut s = text2(name.as_str(), " enters combat with initiative ");
            push_int(&mut s, *initiative as i64);
            push_str(&mut s, ".");
            out(s, NarrativeType::Combat)
        },
        _ => None,
    }
}

#[verifier::spinoff_prover]
fn narrative_part2_of(effect: &Effect) -> (r: Option<NarrativeOutput>)
    requires
        narratable(*effect),
    ensures
        match r {
            None => narrative_part2(*effect) is None,
            Some(o) => narrative_part2(*effect) == Some((o.text@, o.narrative_type, opt_view(o.status))),
        },
{
    match effect {
        Effect::TimeAdvanced { minutes } => {
            let mut s = String::new();
            if *minutes >= 60 {
                push_nat(&mut s, (*minutes / 60) as u64);
                if *minutes % 60 > 0 {
                    push_str(&mut s, " hours and ");
                    push_nat(&mut s, (*minutes % 60) as u64);
                    push_str(&mut s, " minutes pass.");
                } else {
                    push_str(&mut s, " hours pass.");
                }
            } else {
                push_nat(&mut s, *minutes as u64);
                push_str(&mut s, " minutes pass.");
            }
            out(s, NarrativeType::System)
        },
        Effect::ExperienceGained { amount, new_total } => {
            let mut s = String::from_str("Gained ");
            push_nat(&mut s, *amount as u64);
            push_str(&mut s, " XP! (Total: ");
            push_nat(&mut s, *new_total as u64);
            push_str(&mut s, " XP)");
            out(s, NarrativeType::System)
        },
        Effect::LevelUp { new_level } => {
            let mut s = String::from_str("LEVEL UP! You are now level ");
            push_nat(&mut s, *new_level as u64);
            push_str(&mut s, "!");
            let mut st = String::from_str("Level up! Now level ");
            push_nat(&mut st, *new_level as u64);
            push_str(&mut st, "!");
            out_with(s, NarrativeType::System, st)
        },
        Effect::FeatureUsed { feature_name, uses_remaining } => {
            let mut s = text3("Used ", feature_name.as_str(), ". (");
            push_nat(&mut s, *uses_remaining as u64);
            push_str(&mut s, " uses remaining)");
            out(s, NarrativeType::System)
        },
        Effect::SpellSlotUsed { level, remaining } => {
            let mut s = String::from_str("Used a level ");
            push_nat(&mut s, *level as u64);
            push_str(&mut s, " spell slot. (");
            push_nat(&mut s, *remaining as u64);
            push_str(&mut s, " remaining)");
            out(s, NarrativeType::System)
        },
        Effect::RestCompleted { rest_type } => {
            let name = match rest_type { RestType::Short => "short", RestType::Long => "long" };
            out(text3("Completed a ", name, " rest."), NarrativeType::System)
        },
        Effect::CheckSucceeded { check_type, roll, dc } => {
            let mut s = text2(check_type.as_str(), " check succeeded! (");
            push_int(&mut s, *roll as i64);
            push_str(&mut s, " vs DC ");
            push_int(&mut s, *dc as i64);
            push_str(&mut s, ")");
            out(s, NarrativeType::System)
        },
        Effect::CheckFailed { check_type, roll, dc } => {
            let mut s = text2(check_type.as_str(), " check failed. (");
            push_int(&mut s, *roll as i64);
            push_str(&mut s, " vs DC ");
            push_int(&mut s, *dc as i64);
            push_str(&mut s, ")");
            out(s, NarrativeType::System)
        },
        Effect::FactRemembered { .. } => None,
        Effect::ConsequenceRegistered { .. } => None,
        Effect::ConsequenceTriggered { consequence_description, .. } => out(
            text2("CONSEQUENCE: ", consequence_description.as_str()), NarrativeType::System),
        _ => None,
    }
}

#[verifier::spinoff_prover]
fn narrative_part3_of(effect: &Effect) -> (r: Option<NarrativeOutput>)
    requires
        narratable(*effect),
    ensures
        match r {
            None => narrative_part3(*effect) is None,
            Some(o) => narrative_part3(*effect) == Some((o.text@, o.narrative_type, opt_view(o.status))),
        },
{
    match effect {
        Effect::ItemAdded { item_name, quantity, new_total } => {
            let mut s = String::from_str("Received ");
            push_quantity(&mut s, *quantity);
            push_str(&mut s, item_name.as_str());
            push_str(&mut s, "! (now have ");
            push_nat(&mut s, *new_total as u64);
            push_str(&mut s, ")");
            out(s, NarrativeType::System)
        },
        Effect::ItemRemoved { item_name, quantity, remaining } => {
            let mut s = String::from_str("Lost ");
            push_quantity(&mut s, *quantity);
            push_str(&mut s, item_name.as_str());
            if *remaining > 0 {
                push_str(&mut s, ". (");
                push_nat(&mut s, *remaining as u64);
                push_str(&mut s, " remaining)");
            } else {
                push_str(&mut s, ".");
            }
            out(s, NarrativeType::System)
        },
        Effect::ItemEquipped { item_name, slot } => {
            let mut s = text4("Equipped ", item_name.as_str(), " in ", slot.as_str());
            push_str(&mut s, " slot.");
            out(s, NarrativeType::System)
        },
        Effect::ItemUnequipped { item_name, slot } => {
            let mut s = text4("Unequipped ", item_name.as_str(), " from ", slot.as_str());
            push_str(&mut s, " slot.");
            out(s, NarrativeType::System)
        },
        Effect::ItemUsed { item_name, result } => out(
            text4("Used ", item_name.as_str(), ". ", result.as_str()), NarrativeType::System),
        Effect::GoldChanged { amount, new_total, reason } => out(
            coins(*amount, *new_total, reason.as_str(), "gp"), NarrativeType::System),
        Effect::SilverChanged { amount, new_total, reason } => out(
            coins(*amount, *new_total, reason.as_str(), "sp"), NarrativeType::System),
        Effect::AcChanged { new_ac, source } => {
            let mut s = String::from_str("AC changed to ");
            push_nat(&mut s, *new_ac as u64);
            push_str(&mut s, " (");
            push_str(&mut s, source.as_str());
            push_str(&mut s, ")");
            out(s, NarrativeType::System)
        },
        Effect::DeathSaveFailure { total_failures, source, .. } => {
            let mut s = text3("DEATH SAVE FAILURE from ", source.as_str(), "! (");
            push_nat(&mut s, *total_failures as u64);
            push_str(&mut s, "/3 failures)");
            let st = if *total_failures >= 3 {
                String::from_str("You have died!")
            } else {
                let mut st = String::from_str("Death saves: ");
                push_nat(&mut st, *total_failures as u64);
                push_str(&mut st, "/3 failures");
                st
            };
            out_with(s, NarrativeType::Combat, st)
        },
        Effect::DeathSavesReset { .. } => out(String::from_str("Death saves reset - you're stable!"), NarrativeType::System),
        Effect::CharacterDied { cause, .. } => out_with(
            text2("YOU HAVE DIED! Cause: ", cause.as_str()),
            NarrativeType::Combat,
            String::from_str("GAME OVER - Your character has died."),
        ),
        _ => None,
    }
}

#[verifier::spinoff_prover]
fn narrative_part4_of(effect: &Effect) -> (r: Option<NarrativeOutput>)
    requires
        narratable(*effect),
    ensures
        match r {
            None => narrative_part4(*effect) is None,
            Some(o) => narrative_part4(*effect) == Some((o.text@, o.narrative_type, opt_view(o.status))),
        },
{
    match effect {
        Effect::DeathSaveSuccess { roll, total_successes, .. } => {
            let mut s = String::from_str("Death save SUCCESS! Rolled ");
            push_int(&mut s, *roll as i64);
            push_str(&mut s, " (");
            push_nat(&mut s, *total_successes as u64);
            push_str(&mut s, "/3 successes)");
            let mut st = String::from_str("Death saves: ");
            push_nat(&mut st, *total_successes as u64);
            push_str(&mut st, "/3 successes");
            out_with(s, NarrativeType::Combat, st)
        },
        Effect::Stabilized { .. } => out_with(
            String::from_str("You have stabilized! No longer dying."),
            NarrativeType::Combat,
            String::from_str("Stabilized - unconscious but stable"),
        ),
        Effect::ConcentrationBroken { spell_name, damage_taken, roll, dc, .. } => {
            let mut s = String::from_str("CONCENTRATION BROKEN! Took ");
            push_int(&mut s, *damage_taken as i64);
            push_str(&mut s, " damage, rolled ");
            push_int(&mut s, *roll as i64);
            push_str(&mut s, " vs DC ");
            push_int(&mut s, *dc as i64);
            push_str(&mut s, " - ");
            push_str(&mut s, spell_name.as_str());
            push_str(&mut s, " ends!");
            out_with(s, NarrativeType::Combat, text3("Lost concentration on ", spell_name.as_str(), "!"))
        },
        Effect::ConcentrationMaintained { spell_name, roll, dc, .. } => {
            let mut s = String::from_str("Concentration maintained! Rolled ");
            push_int(&mut s, *roll as i64);
            push_str(&mut s, " vs DC ");
            push_int(&mut s, *dc as i64);
            push_str(&mut s, " - ");
            push_str(&mut s, spell_name.as_str());
            push_str(&mut s, " continues.");
            out(s, NarrativeType::System)
        },
        Effect::LocationChanged { previous_location, new_location } => {
            let mut s = text4("You travel from ", previous_location.as_str(), " to ", new_location.as_str());
            push_str(&mut s, ".");
            out_with(s, NarrativeType::System, text2("Now at: ", new_location.as_str()))
        },
        Effect::ClassResourceUsed { character_name, resource_name, description } => {
            let mut s = text4(character_name.as_str(), " uses ", resource_name.as_str(), ": ");
            push_str(&mut s, description.as_str());
            out(s, NarrativeType::System)
        },
        Effect::RageStarted { damage_bonus, .. } => {
            let mut s = String::from_str("RAGE! +");
            push_int(&mut s, *damage_bonus as i64);
            push_str(&mut s, " damage to melee attacks, resistance to physical damage");
            out_with(s, NarrativeType::System, String::from_str("Raging!"))
        },
        Effect::RageEnded { reason, .. } => out(text2("Rage ended: ", reason.as_str()), NarrativeType::System),
        Effect::QuestCreated { name, giver, .. } => {
            let mut s = String::from_str("NEW QUEST");
            push_opt(&mut s, " from ", giver, "");
            push_str(&mut s, ": ");
            push_str(&mut s, name.as_str());
            out_with(s, NarrativeType::System, text2("Quest started: ", name.as_str()))
        },
        Effect::QuestObjectiveAdded { quest_name, objective, .. } => out(
            text4("New objective for \"", quest_name.as_str(), "\": ", objective.as_str()), NarrativeType::System),
        Effect::QuestObjectiveCompleted { quest_name, objective_description } => out_with(
            text2("Objective completed: ", objective_description.as_str()),
            NarrativeType::System,
            text3("Progress on \"", quest_name.as_str(), "\""),
        ),
        _ => None,
    }
}

#[verifier::spinoff_prover]
fn narrative_part5_of(effect: &Effect) -> (r: Option<NarrativeOutput>)
    requires
        narratable(*effect),
    ensures
        match r {
            None => narrative_part5(*effect) is None,
            Some(o) => narrative_part5(*effect) == Some((o.text@, o.narrative_type, opt_view(o.status))),
        },
{
    match effect {
        Effect::QuestCompleted { quest_name, .. } => out_with(
            text3("QUEST COMPLETED: ", quest_name.as_str(), "!"),
            NarrativeType::System,
            text2("Completed: ", quest_name.as_str()),
        ),
        Effect::QuestFailed { quest_name, failure_reason } => out_with(
            text4("QUEST FAILED: ", quest_name.as_str(), " - ", failure_reason.as_str()),
            NarrativeType::System,
            text2("Failed: ", quest_name.as_str()),
        ),
        Effect::QuestUpdated { quest_name, .. } => out(
            text3("Quest \"", quest_name.as_str(), "\" updated."), NarrativeType::System),
        Effect::SneakAttackUsed { damage_dice, .. } => {
            let mut s = String::from_str("SNEAK ATTACK! (");
            push_nat(&mut s, *damage_dice as u64);
            push_str(&mut s, "d6 extra damage)");
            out(s, NarrativeType::Combat)
        },
        Effect::NpcCreated { name, location } => {
            let mut s = text2(name.as_str(), " enters the story");
            push_opt(&mut s, " at ", location, "");
            push_str(&mut s, ".");
            out(s, NarrativeType::System)
        },
        Effect::NpcUpdated { npc_name, changes } => out(
            text3(npc_name.as_str(), ": ", changes.as_str()), NarrativeType::System),
        Effect::NpcMoved { npc_name, to_location, .. } => {
            let mut s = text3(npc_name.as_str(), " moves to ", to_location.as_str());
            push_str(&mut s, ".");
            out(s, NarrativeType::System)
        },
        Effect::NpcRemoved { npc_name, reason } => out(
            text3(npc_name.as_str(), " leaves the story: ", reason.as_str()), NarrativeType::System),
        Effect::LocationCreated { name, location_type } => out_with(
            text4("Discovered new ", location_type.as_str(), ": ", name.as_str()),
            NarrativeType::System,
            text2("New location: ", name.as_str()),
        ),
        Effect::LocationsConnected { from, to, direction } => {
            let mut s = text4("Path discovered: ", from.as_str(), " \u{2194} ", to.as_str());
            push_opt(&mut s, " (", direction, ")");
            out(s, NarrativeType::System)
        },
        Effect::LocationUpdated { location_name, changes } => out(
            text3(location_name.as_str(), ": ", changes.as_str()), NarrativeType::System),
        _ => None,
    }
}

#[verifier::spinoff_prover]
fn narrative_part6_of(effect: &Effect) -> (r: Option<NarrativeOutput>)
    requires
        narratable(*effect),
    ensures
        match r {
            None => narrative_part6(*effect) is None,
            Some(o) => narrative_part6(*effect) == Some((o.text@, o.narrative_type, opt_view(o.status))),
        },
{
    match effect {
        Effect::AbilityScoreModified { ability, modifier, source } => {
            let mut s = text2(ability.name(), " ");
            if *modifier >= 0 {
                push_str(&mut s, "+");
            }
            push_int(&mut s, *modifier as i64);
            push_str(&mut s, " (");
            push_str(&mut s, source.as_str());
            push_str(&mut s, ")");
            out_with(s, NarrativeType::System, text2(ability.name(), " modified!"))
        },
        Effect::SpellSlotRestored { level, new_remaining } => {
            let mut s = String::from_str("Level ");
            push_nat(&mut s, *level as u64);
            push_str(&mut s, " spell slot restored! (");
            push_nat(&mut s, *new_remaining as u64);
            push_str(&mut s, " available)");
            out(s, NarrativeType::System)
        },
        Effect::StateAsserted { entity_name, state_type, new_value, reason, .. } => {
            let mut s = text4("[", entity_name.as_str(), " ", state_type.name());
            push_str(&mut s, " is now ");
            push_str(&mut s, new_value.as_str());
            push_str(&mut s, " - ");
            push_str(&mut s, reason.as_str());
            push_str(&mut s, "]");
            out(s, NarrativeType::System)
        },
        Effect::KnowledgeShared { knowing_entity, content, source, verification, .. } => {
            let v = verification.as_str();
            let note = if str_eq(v, "true") {
                " (verified)"
            } else if str_eq(v, "false") {
                " (false information)"
            } else if str_eq(v, "partial") {
                " (partially true)"
            } else if str_eq(v, "outdated") {
                " (outdated)"
            } else {
                ""
            };
            let mut s = text4("[", knowing_entity.as_str(), " learns from ", source.as_str());
            push_str(&mut s, ": \"");
            push_str(&mut s, content.as_str());
            push_str(&mut s, "\"");
            push_str(&mut s, note);
            push_str(&mut s, "]");
            out(s, NarrativeType::System)
        },
        Effect::EventScheduled { description, trigger_description, location, .. } => {
            let mut s = text4("[Event scheduled: \"", description.as_str(), "\" ", trigger_description.as_str());
            push_opt(&mut s, " at ", location, "");
            push_str(&mut s, "]");
            out(s, NarrativeType::System)
        },
        Effect::EventCancelled { description, reason } => {
            let mut s = text4("[Event cancelled: \"", description.as_str(), "\" - ", reason.as_str());
            push_str(&mut s, "]");
            out(s, NarrativeType::System)
        },
        Effect::EventTriggered { description, location } => {
            let mut s = text2("[EVENT: ", description.as_str());
            push_opt(&mut s, " at ", location, "");
            push_str(&mut s, "]");
            out_with(s, NarrativeType::System, description.clone())
        },
        _ => None,
    }
}

proof fn lemma_part1_text_not_empty(e: Effect)
    ensures
        narrative_part1(e) matches Some(x) ==> x.0.len() > 0,
{
    reveal_strlit(": ");
    reveal_strlit(" = ");
    reveal_strlit("CRITICAL HIT! ");
    reveal_strlit(" rolls ");
    reveal_strlit(" vs AC ");
    reveal_strlit(" and strikes ");
    reveal_strlit("!");
    reveal_strlit(" and hits ");
    reveal_strlit(" and misses ");
    reveal_strlit("Takes ");
    reveal_strlit(" damage! (HP: ");
    reveal_strlit(")");
    reveal_strlit("Heals ");
    reveal_strlit(" HP! (HP: ");
    reveal_strlit("You fall unconscious!");
    reveal_strlit("Now ");
    reveal_strlit(" from ");
    reveal_strlit("No longer ");
    reveal_strlit(".");
    reveal_strlit("Combat begins!");
    reveal_strlit("Roll for initiative!");
    reveal_strlit("Combat ends.");
    reveal_strlit("Round ");
    reveal_strlit(" - ");
    reveal_strlit("'s turn.");
    reveal_strlit(" for initiative (total: ");
    reveal_strlit(" enters combat with initiative ");
}

proof fn lemma_part2_text_not_empty(e: Effect)
    ensures
        narrative_part2(e) matches Some(x) ==> x.0.len() > 0,
{
    reveal_strlit("Gained ");
    reveal_strlit(" XP! (Total: ");
    reveal_strlit(" XP)");
    reveal_strlit("LEVEL UP! You are now level ");
    reveal_strlit("!");
    reveal_strlit("Level up! Now level ");
    reveal_strlit("Used ");
    reveal_strlit(". (");
    reveal_strlit(" uses remaining)");
    reveal_strlit("Used a level ");
    reveal_strlit(" spell slot. (");
    reveal_strlit(" remaining)");
    reveal_strlit("Completed a ");
    reveal_strlit("short");
    reveal_strlit("long");
    reveal_strlit(" rest.");
    reveal_strlit(" check succeeded! (");
    reveal_strlit(" vs DC ");
    reveal_strlit(")");
    reveal_strlit(" check failed. (");
    reveal_strlit("CONSEQUENCE: ");
    reveal_strlit(" hours and ");
    reveal_strlit(" minutes pass.");
    reveal_strlit(" hours pass.");
}

proof fn lemma_part3_text_not_empty(e: Effect)
    ensures
        narrative_part3(e) matches Some(x) ==> x.0.len() > 0,
{
    reveal_strlit("Received ");
    reveal_strlit("! (now have ");
    reveal_strlit(")");
    reveal_strlit("Lost ");
    reveal_strlit(". (");
    reveal_strlit(" remaining)");
    reveal_strlit(".");
    reveal_strlit("Equipped ");
    reveal_strlit(" in ");
    reveal_strlit(" slot.");
    reveal_strlit("Unequipped ");
    reveal_strlit(" from ");
    reveal_strlit("Used ");
    reveal_strlit(". ");
    reveal_strlit("gp");
    reveal_strlit("sp");
    reveal_strlit("AC changed to ");
    reveal_strlit(" (");
    reveal_strlit("DEATH SAVE FAILURE from ");
    reveal_strlit("! (");
    reveal_strlit("/3 failures)");
    reveal_strlit("You have died!");
    reveal_strlit("Death saves: ");
    reveal_strlit("/3 failures");
    reveal_strlit("Death saves reset - you're stable!");
    reveal_strlit("YOU HAVE DIED! Cause: ");
    reveal_strlit("GAME OVER - Your character has died.");
    reveal_strlit(" x ");
    reveal_strlit("Gained");
    reveal_strlit("Spent");
    reveal_strlit(" ");
    reveal_strlit("). Total: ");
}

proof fn lemma_part4_text_not_empty(e: Effect)
    ensures
        narrative_part4(e) matches Some(x) ==> x.0.len() > 0,
{
    reveal_strlit("Death save SUCCESS! Rolled ");
    reveal_strlit(" (");
    reveal_strlit("/3 successes)");
    reveal_strlit("Death saves: ");
    reveal_strlit("/3 successes");
    reveal_strlit("You have stabilized! No longer dying.");
    reveal_strlit("Stabilized - unconscious but stable");
    reveal_strlit("CONCENTRATION BROKEN! Took ");
    reveal_strlit(" damage, rolled ");
    reveal_strlit(" vs DC ");
    reveal_strlit(" - ");
    reveal_strlit(" ends!");
    reveal_strlit("Lost concentration on ");
    reveal_strlit("!");
    reveal_strlit("Concentration maintained! Rolled ");
    reveal_strlit(" continues.");
    reveal_strlit("You travel from ");
    reveal_strlit(" to ");
    reveal_strlit(".");
    reveal_strlit("Now at: ");
    reveal_strlit(" uses ");
    reveal_strlit(": ");
    reveal_strlit("RAGE! +");
    reveal_strlit(" damage to melee attacks, resistance to physical damage");
    reveal_strlit("Raging!");
    reveal_strlit("Rage ended: ");
    reveal_strlit("NEW QUEST");
    reveal_strlit(" from ");
    reveal_strlit("Quest started: ");
    reveal_strlit("New objective for \"");
    reveal_strlit("\": ");
    reveal_strlit("Objective completed: ");
    reveal_strlit("Progress on \"");
    reveal_strlit("\"");
}

proof fn lemma_part5_text_not_empty(e: Effect)
    ensures
        narrative_part5(e) matches Some(x) ==> x.0.len() > 0,
{
    reveal_strlit("QUEST COMPLETED: ");
    reveal_strlit("!");
    reveal_strlit("Completed: ");
    reveal_strlit("QUEST FAILED: ");
    reveal_strlit(" - ");
    reveal_strlit("Failed: ");
    reveal_strlit("Quest \"");
    reveal_strlit("\" updated.");
    reveal_strlit("SNEAK ATTACK! (");
    reveal_strlit("d6 extra damage)");
    reveal_strlit(" enters the story");
    reveal_strlit(" at ");
    reveal_strlit(".");
    reveal_strlit(": ");
    reveal_strlit(" moves to ");
    reveal_strlit(" leaves the story: ");
    reveal_strlit("Discovered new ");
    reveal_strlit("New location: ");
    reveal_strlit("Path discovered: ");
    reveal_strlit(" \u{2194} ");
    reveal_strlit(" (");
    reveal_strlit(")");
}

proof fn lemma_part6_text_not_empty(e: Effect)
    ensures
        narrative_part6(e) matches Some(x) ==> x.0.len() > 0,
{
    reveal_strlit(" ");
    reveal_strlit("+");
    reveal_strlit(" (");
    reveal_strlit(")");
    reveal_strlit(" modified!");
    reveal_strlit("Level ");
    reveal_strlit(" spell slot restored! (");
    reveal_strlit(" available)");
    reveal_strlit("[");
    reveal_strlit(" is now ");
    reveal_strlit(" - ");
    reveal_strlit("]");
    reveal_strlit(" learns from ");
    reveal_strlit(": \"");
    reveal_strlit("\"");
    reveal_strlit("[Event scheduled: \"");
    reveal_strlit("\" ");
    reveal_strlit(" at ");
    reveal_strlit("[Event cancelled: \"");
    reveal_strlit("\" - ");
    reveal_strlit("[EVENT: ");
    reveal_strlit("true");
    reveal_strlit(" (verified)");
    reveal_strlit("false");
    reveal_strlit(" (false information)");
    reveal_strlit("partial");
    reveal_strlit(" (partially true)");
    reveal_strlit("outdated");
    reveal_strlit(" (outdated)");
}

/// Every effect that is narrated is narrated with some text.
pub proof fn law_narrated_text_is_never_empty(e: Effect)
    ensures
        spec_narrative(e) matches Some(x) ==> x.0.len() > 0,
{
    lemma_part1_text_not_empty(e);
    lemma_part2_text_not_empty(e);
    lemma_part3_text_not_empty(e);
    lemma_part4_text_not_empty(e);
    lemma_part5_text_not_empty(e);
    lemma_part6_text_not_empty(e);
}

/// The narrative an effect produces, or `None` for effects that are only
/// bookkeeping.
pub fn narrative_for_effect(effect: &Effect) -> (r: Option<NarrativeOutput>)
    requires
        narratable(*effect),
    ensures
        match r {
            None => spec_narrative(*effect) is None,
            Some(o) => spec_narrative(*effect) == Some((o.text@, o.narrative_type, opt_view(o.status))),
        },
{
    match effect {
        Effect::DiceRolled { .. } | Effect::AttackHit { .. } | Effect::AttackMissed { .. } | Effect::HpChanged { .. } | Effect::ConditionApplied { .. } | Effect::ConditionRemoved { .. } | Effect::CombatStarted | Effect::CombatEnded | Effect::TurnAdvanced { .. } | Effect::InitiativeRolled { .. } | Effect::CombatantAdded { .. } => narrative_part1_of(effect),
        Effect::TimeAdvanced { .. } | Effect::ExperienceGained { .. } | Effect::LevelUp { .. } | Effect::FeatureUsed { .. } | Effect::SpellSlotUsed { .. } | Effect::RestCompleted { .. } | Effect::CheckSucceeded { .. } | Effect::CheckFailed { .. } | Effect::FactRemembered { .. } | Effect::ConsequenceRegistered { .. } | Effect::ConsequenceTriggered { .. } => narrative_part2_of(effect),
        Effect::ItemAdded { .. } | Effect::ItemRemoved { .. } | Effect::ItemEquipped { .. } | Effect::ItemUnequipped { .. } | Effect::ItemUsed { .. } | Effect::GoldChanged { .. } | Effect::SilverChanged { .. } | Effect::AcChanged { .. } | Effect::DeathSaveFailure { .. } | Effect::DeathSavesReset { .. } | Effect::CharacterDied { .. } => narrative_part3_of(effect),
        Effect::DeathSaveSuccess { .. } | Effect::Stabilized { .. } | Effect::ConcentrationBroken { .. } | Effect::ConcentrationMaintained { .. } | Effect::LocationChanged { .. } | Effect::ClassResourceUsed { .. } | Effect::RageStarted { .. } | Effect::RageEnded { .. } | Effect::QuestCreated { .. } | Effect::QuestObjectiveAdded { .. } | Effect::QuestObjectiveCompleted { .. } => narrative_part4_of(effect),
        Effect::QuestCompleted { .. } | Effect::QuestFailed { .. } | Effect::QuestUpdated { .. } | Effect::SneakAttackUsed { .. } | Effect::NpcCreated { .. } | Effect::NpcUpdated { .. } | Effect::NpcMoved { .. } | Effect::NpcRemoved { .. } | Effect::LocationCreated { .. } | Effect::LocationsConnected { .. } | Effect::LocationUpdated { .. } => narrative_part5_of(effect),
        Effect::AbilityScoreModified { .. } | Effect::SpellSlotRestored { .. } | Effect::StateAsserted { .. } | Effect::KnowledgeShared { .. } | Effect::EventScheduled { .. } | Effect::EventCancelled { .. } | Effect::EventTriggered { .. } => narrative_part6_of(effect),
    }
}

} // verus!
