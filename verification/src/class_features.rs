//! How class features resolve: rage, ki, lay on hands, divine smite, wild
//! shape, channel divinity, bardic inspiration, action surge, second wind,
//! sorcery points, and limited features in general.
//!
//! Where a feature rolls dice, the total rolled is an argument.

use vstd::prelude::*;
use crate::ids::CharacterId;
use crate::rules::{Effect, Resolution, RollResult, RulesEngine};
use crate::text::{int_text, joined, lowercase, opt_str_view, push_int, push_joined, push_nat, push_str, str_eq, strings_view, to_lowercase};
use crate::world::{Character, CharacterClass, ClassLevel, Feature, GameWorld};

verus! {

/// Position of the first feature at or after `i` called exactly `name`.
pub open spec fn feature_position_from(features: Seq<Feature>, name: Seq<char>, i: int) -> Option<int>
    decreases features.len() - i,
{
    if i < 0 || i >= features.len() {
        None
    } else if features[i].name@ == name {
        Some(i)
    } else {
        feature_position_from(features, name, i + 1)
    }
}

/// The character's first feature called exactly `name`.
pub open spec fn feature_named(c: Character, name: Seq<char>) -> Option<Feature> {
    match feature_position_from(c.features@, name, 0) {
        Some(i) => Some(c.features@[i]),
        None => None,
    }
}

/// The character has the feature, it is limited, and no use is left.
pub open spec fn out_of_uses(c: Character, name: Seq<char>) -> bool {
    feature_named(c, name) matches Some(f) && f.uses matches Some(u) && u.current == 0
}

/// Position of the first entry at or after `i` for a class.
pub open spec fn class_position_from(classes: Seq<ClassLevel>, class: CharacterClass, i: int) -> Option<int>
    decreases classes.len() - i,
{
    if i < 0 || i >= classes.len() {
        None
    } else if classes[i].class == class {
        Some(i)
    } else {
        class_position_from(classes, class, i + 1)
    }
}

/// The character's level in a class, from its first entry for that class.
pub open spec fn class_level(c: Character, class: CharacterClass) -> Option<u8> {
    match class_position_from(c.classes@, class, 0) {
        Some(i) => Some(c.classes@[i].level),
        None => None,
    }
}

/// The effect that a class resource was used.
pub open spec fn resource_used(e: Effect, who: Seq<char>, resource: Seq<char>, description: Seq<char>) -> bool {
    e matches Effect::ClassResourceUsed { character_name, resource_name, description: d }
        && character_name@ == who && resource_name@ == resource && d@ == description
}

/// The effect that a limited feature was spent.
pub open spec fn feature_spent(e: Effect, feature: Seq<char>) -> bool {
    e matches Effect::FeatureUsed { feature_name, uses_remaining } && feature_name@ == feature && uses_remaining == 0
}

/// "s" after any count but one.
pub open spec fn plural(n: int) -> Seq<char> {
    if n == 1 { ""@ } else { "s"@ }
}

/// Extra rage damage by Barbarian level: +2 up to level 8, +3 up to 15,
/// +4 beyond (and for a level of 0).
pub open spec fn rage_bonus(level: u8) -> i8 {
    if 1 <= level <= 8 { 2 } else if 9 <= level <= 15 { 3 } else { 4 }
}

/// Why a rage ends, in words.
pub open spec fn rage_end_text(reason: Seq<char>) -> Seq<char> {
    if reason == "duration_expired"@ {
        "Rage ended (1 minute duration expired)."@
    } else if reason == "unconscious"@ {
        "Rage ended (knocked unconscious)."@
    } else if reason == "no_combat_action"@ {
        "Rage ended (turn ended without attacking or taking damage)."@
    } else if reason == "voluntary"@ {
        "Rage ended voluntarily."@
    } else {
        "Rage ended."@
    }
}

/// What a ki ability does, for the ones the rules know; else its own name.
pub open spec fn ki_text(ability: Seq<char>) -> Seq<char> {
    if ability == "flurry_of_blows"@ {
        "Flurry of Blows: Make two unarmed strikes as a bonus action."@
    } else if ability == "patient_defense"@ {
        "Patient Defense: Take the Dodge action as a bonus action."@
    } else if ability == "step_of_the_wind"@ {
        "Step of the Wind: Disengage or Dash as a bonus action, jump distance doubled."@
    } else if ability == "stunning_strike"@ {
        "Stunning Strike: Target must make a CON save or be Stunned until the end of your next turn."@
    } else {
        ability
    }
}

/// Points Lay on Hands costs: the hit points restored, and 5 for each
/// disease cured or poison neutralized.
pub open spec fn lay_on_hands_cost(hp_amount: u32, cure_disease: bool, neutralize_poison: bool) -> int {
    hp_amount + (if cure_disease { 5int } else { 0int }) + (if neutralize_poison { 5int } else { 0int })
}

/// What Lay on Hands does, in order.
pub open spec fn lay_on_hands_parts(hp_amount: u32, cure_disease: bool, neutralize_poison: bool) -> Seq<Seq<char>> {
    (if hp_amount > 0 { seq!["restores "@ + int_text(hp_amount as int) + " HP"@] } else { Seq::empty() })
        + (if cure_disease { seq!["cures one disease"@] } else { Seq::empty() })
        + (if neutralize_poison { seq!["neutralizes one poison"@] } else { Seq::empty() })
}

/// Dice of Divine Smite: 2d8 and one more per slot level above the first,
/// at most 5d8; one more against undead and fiends, at most 6d8.
pub open spec fn smite_dice(slot_level: u8, undead_or_fiend: bool) -> int {
    let above = if slot_level >= 1 { slot_level - 1 } else { 0 };
    let base = 2 + if above < 3 { above } else { 3 };
    if undead_or_fiend { if base + 1 < 6 { base + 1 } else { 6 } } else { if base < 5 { base } else { 5 } }
}

/// Rage damage never shrinks as a Barbarian gains levels, and stays
/// between +2 and +4.
pub proof fn law_rage_bonus_grows_with_level(low: u8, high: u8)
    requires
        1 <= low <= high,
    ensures
        rage_bonus(low) <= rage_bonus(high),
        2 <= rage_bonus(high) <= 4,
{
}

/// A higher slot never smites with fewer dice; a smite rolls 2 to 5 d8, one
/// more against undead and fiends, and never more than 6.
pub proof fn law_smite_dice_grow_with_slot_level(low: u8, high: u8, undead_or_fiend: bool)
    requires
        low <= high,
    ensures
        smite_dice(low, undead_or_fiend) <= smite_dice(high, undead_or_fiend),
        2 <= smite_dice(high, false) <= 5,
        smite_dice(high, true) == smite_dice(high, false) + 1,
{
}

/// A caster with no slot left of the level a smite would spend.
pub open spec fn no_smite_slot(c: Character, slot_level: u8) -> bool {
    let idx = if slot_level >= 1 { slot_level - 1 } else { 0 };
    c.spellcasting matches Some(sc) && idx < 9 && sc.spell_slots.slots@[idx].spec_available() == 0
}

/// Why Wild Shape ends, in words.
pub open spec fn wild_shape_end_text(reason: Seq<char>, excess_damage: i32) -> Seq<char> {
    if reason == "duration_expired"@ {
        "Wild Shape ended (duration expired)."@
    } else if reason == "hp_zero"@ {
        if excess_damage > 0 {
            "Wild Shape ended (beast HP dropped to 0). "@ + int_text(excess_damage as int)
                + " excess damage carries over to normal form!"@
        } else {
            "Wild Shape ended (beast HP dropped to 0)."@
        }
    } else if reason == "voluntary"@ {
        "Wild Shape ended voluntarily as a bonus action."@
    } else if reason == "incapacitated"@ {
        "Wild Shape ended (druid became incapacitated)."@
    } else {
        "Wild Shape ended."@
    }
}

/// What a Channel Divinity option does, for the ones the rules know (named
/// in any case); else the option itself.
pub open spec fn channel_divinity_text(option: Seq<char>) -> Seq<char> {
    let o = lowercase(option);
    if o == "turn undead"@ {
        "Turn Undead: Each undead within 30 feet must make a WIS save. On failure, they must spend their turns moving away and cannot take reactions for 1 minute."@
    } else if o == "divine spark"@ {
        "Divine Spark: Either deal 1d8 radiant damage to one creature within 30 feet (DEX save for half), or restore 1d8 HP to one creature within 30 feet."@
    } else if o == "sacred weapon"@ {
        "Sacred Weapon: Your weapon becomes magical for 1 minute, +CHA to attack rolls, and sheds bright light."@
    } else {
        option
    }
}

/// What a metamagic option does, for the ones the rules know (named in any
/// case); else the option itself.
pub open spec fn metamagic_text(metamagic: Seq<char>) -> Seq<char> {
    let m = lowercase(metamagic);
    if m == "careful"@ {
        "Careful Spell: Protect allies from your spell's area effect."@
    } else if m == "distant"@ {
        "Distant Spell: Double the spell's range (or 30 ft if touch)."@
    } else if m == "empowered"@ {
        "Empowered Spell: Reroll up to CHA mod damage dice."@
    } else if m == "extended"@ {
        "Extended Spell: Double the spell's duration (max 24 hours)."@
    } else if m == "heightened"@ {
        "Heightened Spell: Target has disadvantage on first save."@
    } else if m == "quickened"@ {
        "Quickened Spell: Cast as a bonus action instead of an action."@
    } else if m == "subtle"@ {
        "Subtle Spell: Cast without verbal or somatic components."@
    } else if m == "twinned"@ {
        "Twinned Spell: Target a second creature with a single-target spell."@
    } else {
        metamagic
    }
}

fn find_feature<'a>(c: &'a Character, name: &str) -> (r: Option<&'a Feature>)
    ensures
        match r {
            Some(f) => feature_named(*c, name@) == Some(*f),
            None => feature_named(*c, name@) is None,
        },
{
    let mut i: usize = 0;
    while i < c.features.len()
        invariant
            0 <= i <= c.features@.len(),
            feature_position_from(c.features@, name@, 0) == feature_position_from(c.features@, name@, i as int),
        decreases c.features@.len() - i,
    {
        if str_eq(c.features[i].name.as_str(), name) {
            assert(feature_position_from(c.features@, name@, i as int) == Some(i as int));
            return Some(&c.features[i]);
        }
        i = i + 1;
    }
    None
}

fn has_no_uses_left(c: &Character, name: &str) -> (r: bool)
    ensures
        r == out_of_uses(*c, name@),
{
    match find_feature(c, name) {
        Some(f) => match f.uses {
            Some(u) => u.current == 0,
            None => false,
        },
        None => false,
    }
}

pub(crate) fn level_in(c: &Character, class: CharacterClass) -> (r: Option<u8>)
    ensures
        r == class_level(*c, class),
{
    let mut i: usize = 0;
    while i < c.classes.len()
        invariant
            0 <= i <= c.classes@.len(),
            class_position_from(c.classes@, class, 0) == class_position_from(c.classes@, class, i as int),
        decreases c.classes@.len() - i,
    {
        if c.classes[i].class == class {
            assert(class_position_from(c.classes@, class, i as int) == Some(i as int));
            return Some(c.classes[i].level);
        }
        i = i + 1;
    }
    None
}

fn resource(who: &str, resource_name: &str, description: String) -> (e: Effect)
    ensures
        resource_used(e, who@, resource_name@, description@),
{
    Effect::ClassResourceUsed {
        character_name: String::from_str(who),
        resource_name: String::from_str(resource_name),
        description,
    }
}

fn spent(feature: &str) -> (e: Effect)
    ensures
        feature_spent(e, feature@),
{
    Effect::FeatureUsed { feature_name: String::from_str(feature), uses_remaining: 0 }
}

/// `name` followed by `rest`.
fn line(name: &str, rest: &str) -> (r: String)
    ensures
        r@ == name@ + rest@,
{
    let mut s = String::new();
    push_str(&mut s, name);
    push_str(&mut s, rest);
    s
}

fn text_of(t: &str) -> (r: String)
    ensures
        r@ == t@,
{
    String::from_str(t)
}

impl RulesEngine {
    /// What `resolve_use_rage` gives.
    pub open spec fn use_rage_outcome(world: GameWorld, _character_id: CharacterId, r: Resolution) -> bool {
        &&& ({
                let c = world.player_character;
                let bonus = rage_bonus(match class_level(c, CharacterClass::Barbarian) { Some(l) => l, None => 1 });
                if c.class_resources.rage_active {
                    r.narrative@ =~= c.name@ + " is already raging!"@ && r.effects@.len() == 0
                } else if out_of_uses(c, "Rage"@) {
                    r.narrative@ =~= c.name@ + " has no rage uses remaining! (Recovers on long rest)"@ && r.effects@.len() == 0
                } else {
                    &&& r.narrative@ =~= c.name@ + " enters a RAGE! Gains: advantage on STR checks/saves, +"@ + int_text(bonus as int)
                        + " rage damage to melee attacks, resistance to bludgeoning/piercing/slashing damage. Cannot cast spells or concentrate while raging."@
                    &&& r.effects@.len() == 3
                    &&& r.effects@[0] matches Effect::RageStarted { character_id, damage_bonus }
                        && character_id == c.id && damage_bonus == bonus
                    &&& resource_used(r.effects@[1], c.name@, "Rage"@,
                        "Entered rage (1 minute, +"@ + int_text(bonus as int) + " damage)"@)
                    &&& feature_spent(r.effects@[2], "Rage"@)
                }
            })
    }

    /// A Barbarian rages, unless already raging or out of rages; the bonus
    /// damage grows with Barbarian level (level 1 when the class is not
    /// recorded).
    pub fn resolve_use_rage(&self, world: &GameWorld, _character_id: CharacterId) -> (r: Resolution)
        ensures
            Self::use_rage_outcome(*world, _character_id, r),
    {
        let c = &world.player_character;
        if c.class_resources.rage_active {
            return Resolution::new(line(c.name.as_str(), " is already raging!"));
        }
        if has_no_uses_left(c, "Rage") {
            return Resolution::new(line(c.name.as_str(), " has no rage uses remaining! (Recovers on long rest)"));
        }
        let level = match level_in(c, CharacterClass::Barbarian) {
            Some(l) => l,
            None => 1,
        };
        let bonus: i8 = if 1 <= level && level <= 8 { 2 } else if 9 <= level && level <= 15 { 3 } else { 4 };
        let mut s = String::new();
        push_str(&mut s, c.name.as_str());
        push_str(&mut s, " enters a RAGE! Gains: advantage on STR checks/saves, +");
        push_int(&mut s, bonus as i64);
        push_str(&mut s, " rage damage to melee attacks, resistance to bludgeoning/piercing/slashing damage. Cannot cast spells or concentrate while raging.");
        let mut d = String::new();
        push_str(&mut d, "Entered rage (1 minute, +");
        push_int(&mut d, bonus as i64);
        push_str(&mut d, " damage)");
        Resolution::new(s)
            .with_effect(Effect::RageStarted { character_id: c.id, damage_bonus: bonus })
            .with_effect(resource(c.name.as_str(), "Rage", d))
            .with_effect(spent("Rage"))
    }

    /// What `resolve_end_rage` gives.
    pub open spec fn end_rage_outcome(
        world: GameWorld,
        _character_id: CharacterId,
        reason: Seq<char>,
        r: Resolution,
    ) -> bool {
        &&& ({
                let c = world.player_character;
                if !c.class_resources.rage_active {
                    r.narrative@ =~= c.name@ + " is not currently raging."@ && r.effects@.len() == 0
                } else {
                    &&& r.narrative@ =~= c.name@ + "'s rage ends. "@ + rage_end_text(reason)
                    &&& r.effects@.len() == 2
                    &&& r.effects@[0] matches Effect::RageEnded { character_id, reason: w }
                        && character_id == c.id && w@ =~= rage_end_text(reason)
                    &&& resource_used(r.effects@[1], c.name@, "Rage"@, rage_end_text(reason))
                }
            })
    }

    /// A rage ends, for a reason the rules put in words.
    pub fn resolve_end_rage(&self, world: &GameWorld, _character_id: CharacterId, reason: &str) -> (r: Resolution)
        ensures
            Self::end_rage_outcome(*world, _character_id, reason@, r),
    {
        let c = &world.player_character;
        if !c.class_resources.rage_active {
            return Resolution::new(line(c.name.as_str(), " is not currently raging."));
        }
        let text: &str = if str_eq(reason, "duration_expired") {
            "Rage ended (1 minute duration expired)."
        } else if str_eq(reason, "unconscious") {
            "Rage ended (knocked unconscious)."
        } else if str_eq(reason, "no_combat_action") {
            "Rage ended (turn ended without attacking or taking damage)."
        } else if str_eq(reason, "voluntary") {
            "Rage ended voluntarily."
        } else {
            "Rage ended."
        };
        let mut s = String::new();
        push_str(&mut s, c.name.as_str());
        push_str(&mut s, "'s rage ends. ");
        push_str(&mut s, text);
        Resolution::new(s)
            .with_effect(Effect::RageEnded { character_id: c.id, reason: text_of(text) })
            .with_effect(resource(c.name.as_str(), "Rage", text_of(text)))
    }

    /// What `resolve_use_ki` gives.
    pub open spec fn use_ki_outcome(
        world: GameWorld,
        _character_id: CharacterId,
        points: u8,
        ability: Seq<char>,
        r: Resolution,
    ) -> bool {
        &&& ({
                let c = world.player_character;
                let pool = c.class_resources.ki_points;
                if pool < points {
                    &&& r.narrative@ =~= c.name@ + " doesn't have enough ki points! Has "@ + int_text(pool as int)
                        + " but needs "@ + int_text(points as int) + "."@
                    &&& r.effects@.len() == 0
                } else {
                    &&& r.narrative@ =~= c.name@ + " spends "@ + int_text(points as int) + " ki point"@
                        + plural(points as int) + ". "@ + ki_text(ability)
                    &&& r.effects@.len() == 1
                    &&& resource_used(r.effects@[0], c.name@, "Ki Points"@,
                        "Spent "@ + int_text(points as int) + " ki for "@ + ability)
                }
            })
    }

    /// A Monk spends ki on an ability, if the pool holds enough.
    pub fn resolve_use_ki(&self, world: &GameWorld, _character_id: CharacterId, points: u8, ability: &str) -> (r: Resolution)
        ensures
            Self::use_ki_outcome(*world, _character_id, points, ability@, r),
    {
        let c = &world.player_character;
        let pool = c.class_resources.ki_points;
        let mut s = String::new();
        push_str(&mut s, c.name.as_str());
        if pool < points {
            push_str(&mut s, " doesn't have enough ki points! Has ");
            push_nat(&mut s, pool as u64);
            push_str(&mut s, " but needs ");
            push_nat(&mut s, points as u64);
            push_str(&mut s, ".");
            return Resolution::new(s);
        }
        push_str(&mut s, " spends ");
        push_nat(&mut s, points as u64);
        push_str(&mut s, " ki point");
        push_str(&mut s, if points == 1 { "" } else { "s" });
        push_str(&mut s, ". ");
        if str_eq(ability, "flurry_of_blows") {
            push_str(&mut s, "Flurry of Blows: Make two unarmed strikes as a bonus action.");
        } else if str_eq(ability, "patient_defense") {
            push_str(&mut s, "Patient Defense: Take the Dodge action as a bonus action.");
        } else if str_eq(ability, "step_of_the_wind") {
            push_str(&mut s, "Step of the Wind: Disengage or Dash as a bonus action, jump distance doubled.");
        } else if str_eq(ability, "stunning_strike") {
            push_str(&mut s, "Stunning Strike: Target must make a CON save or be Stunned until the end of your next turn.");
        } else {
            push_str(&mut s, ability);
        }
        let mut d = String::new();
        push_str(&mut d, "Spent ");
        push_nat(&mut d, points as u64);
        push_str(&mut d, " ki for ");
        push_str(&mut d, ability);
        Resolution::new(s).with_effect(resource(c.name.as_str(), "Ki Points", d))
    }

    /// When `resolve_use_lay_on_hands` may be called.
    pub open spec fn use_lay_on_hands_allowed(
        world: GameWorld,
        _character_id: CharacterId,
        target_name: Seq<char>,
        hp_amount: u32,
        cure_disease: bool,
        neutralize_poison: bool,
    ) -> bool {
        &&& lay_on_hands_cost(hp_amount, cure_disease, neutralize_poison) <= u32::MAX
    }

    /// What `resolve_use_lay_on_hands` gives.
    pub open spec fn use_lay_on_hands_outcome(
        world: GameWorld,
        _character_id: CharacterId,
        target_name: Seq<char>,
        hp_amount: u32,
        cure_disease: bool,
        neutralize_poison: bool,
        r: Resolution,
    ) -> bool {
        &&& ({
                let c = world.player_character;
                let pool = c.class_resources.lay_on_hands_pool;
                let cost = lay_on_hands_cost(hp_amount, cure_disease, neutralize_poison);
                if pool < cost {
                    &&& r.narrative@ =~= c.name@ + " doesn't have enough in their Lay on Hands pool! Has "@
                        + int_text(pool as int) + " HP but needs "@ + int_text(cost) + "."@
                    &&& r.effects@.len() == 0
                } else {
                    &&& r.narrative@ =~= c.name@ + " uses Lay on Hands on "@ + target_name + ": "@
                        + joined(lay_on_hands_parts(hp_amount, cure_disease, neutralize_poison), ", "@) + ". ("@
                        + int_text(pool - cost) + " HP remaining in pool)"@
                    &&& r.effects@.len() == 1
                    &&& resource_used(r.effects@[0], c.name@, "Lay on Hands"@,
                        "Used "@ + int_text(cost) + " points on "@ + target_name)
                }
            })
    }

    /// A Paladin heals, cures or neutralizes from the Lay on Hands pool, if
    /// it holds enough.
    pub fn resolve_use_lay_on_hands(
        &self,
        world: &GameWorld,
        _character_id: CharacterId,
        target_name: &str,
        hp_amount: u32,
        cure_disease: bool,
        neutralize_poison: bool,
    ) -> (r: Resolution)
        requires
            Self::use_lay_on_hands_allowed(
                *world, _character_id, target_name@, hp_amount, cure_disease, neutralize_poison,
            ),
        ensures
            Self::use_lay_on_hands_outcome(
                *world, _character_id, target_name@, hp_amount, cure_disease, neutralize_poison, r,
            ),
    {
        let c = &world.player_character;
        let pool = c.class_resources.lay_on_hands_pool;
        let cost: u32 = hp_amount + if cure_disease { 5 } else { 0 } + if neutralize_poison { 5 } else { 0 };
        let mut s = String::new();
        push_str(&mut s, c.name.as_str());
        if pool < cost {
            push_str(&mut s, " doesn't have enough in their Lay on Hands pool! Has ");
            push_nat(&mut s, pool as u64);
            push_str(&mut s, " HP but needs ");
            push_nat(&mut s, cost as u64);
            push_str(&mut s, ".");
            return Resolution::new(s);
        }
        let mut parts: Vec<String> = Vec::new();
        if hp_amount > 0 {
            let mut p = String::new();
            push_str(&mut p, "restores ");
            push_nat(&mut p, hp_amount as u64);
            push_str(&mut p, " HP");
            parts.push(p);
        }
        assert(strings_view(parts@) =~= lay_on_hands_parts(hp_amount, false, false));
        if cure_disease {
            let ghost before = parts@;
            parts.push(String::from_str("cures one disease"));
            assert(strings_view(parts@) =~= strings_view(before).push("cures one disease"@));
        }
        assert(strings_view(parts@) =~= lay_on_hands_parts(hp_amount, cure_disease, false));
        if neutralize_poison {
            let ghost before = parts@;
            parts.push(String::from_str("neutralizes one poison"));
            assert(strings_view(parts@) =~= strings_view(before).push("neutralizes one poison"@));
        }
        assert(strings_view(parts@) =~= lay_on_hands_parts(hp_amount, cure_disease, neutralize_poison));
        push_str(&mut s, " uses Lay on Hands on ");
        push_str(&mut s, target_name);
        push_str(&mut s, ": ");
        push_joined(&mut s, parts.as_slice(), ", ");
        push_str(&mut s, ". (");
        push_nat(&mut s, (pool - cost) as u64);
        push_str(&mut s, " HP remaining in pool)");
        let mut d = String::new();
        push_str(&mut d, "Used ");
        push_nat(&mut d, cost as u64);
        push_str(&mut d, " points on ");
        push_str(&mut d, target_name);
        Resolution::new(s).with_effect(resource(c.name.as_str(), "Lay on Hands", d))
    }
    /// What `resolve_use_divine_smite` gives.
    pub open spec fn use_divine_smite_outcome(
        world: GameWorld,
        _character_id: CharacterId,
        spell_slot_level: u8,
        target_is_undead_or_fiend: bool,
        damage_total: i32,
        r: Resolution,
    ) -> bool {
        &&& ({
                let c = world.player_character;
                let dice = smite_dice(spell_slot_level, target_is_undead_or_fiend);
                if no_smite_slot(c, spell_slot_level) {
                    &&& r.narrative@ =~= c.name@ + " has no level "@ + int_text(spell_slot_level as int)
                        + " spell slots remaining!"@
                    &&& r.effects@.len() == 0
                } else {
                    &&& r.narrative@ =~= c.name@ + " channels divine power into their strike! Divine Smite deals "@
                        + int_text(dice) + "d8 = "@ + int_text(damage_total as int) + " radiant damage"@
                        + (if target_is_undead_or_fiend { " (extra damage vs undead/fiend)"@ } else { ""@ })
                        + ". (Level "@ + int_text(spell_slot_level as int) + " slot expended)"@
                    &&& r.effects@.len() == 2
                    &&& r.effects@[0] matches Effect::DiceRolled { roll, purpose }
                        && roll.expression@ =~= int_text(dice) + "d8"@ && roll.total == damage_total
                        && !roll.natural_20 && !roll.natural_1 && purpose@ =~= "Divine Smite damage"@
                    &&& resource_used(r.effects@[1], c.name@, "Divine Smite"@,
                        "Used level "@ + int_text(spell_slot_level as int) + " slot for smite"@)
                }
            })
    }

    /// A Paladin smites with a spell slot; `damage_total` is what the smite
    /// dice rolled. A caster with no slot left of that level cannot smite.
    pub fn resolve_use_divine_smite(
        &self,
        world: &GameWorld,
        _character_id: CharacterId,
        spell_slot_level: u8,
        target_is_undead_or_fiend: bool,
        damage_total: i32,
    ) -> (r: Resolution)
        ensures
            Self::use_divine_smite_outcome(
                *world, _character_id, spell_slot_level, target_is_undead_or_fiend, damage_total,
                r,
            ),
    {
        let c = &world.player_character;
        let idx: u8 = if spell_slot_level >= 1 { spell_slot_level - 1 } else { 0 };
        match &c.spellcasting {
            Some(sc) => {
                if idx < 9 && sc.spell_slots.slots[idx as usize].available() == 0 {
                    let mut s = String::new();
                    push_str(&mut s, c.name.as_str());
                    push_str(&mut s, " has no level ");
                    push_nat(&mut s, spell_slot_level as u64);
                    push_str(&mut s, " spell slots remaining!");
                    return Resolution::new(s);
                }
            },
            None => {},
        }
        let base: u8 = 2 + if idx < 3 { idx } else { 3 };
        let dice: u8 = if target_is_undead_or_fiend {
            if base + 1 < 6 { base + 1 } else { 6 }
        } else {
            if base < 5 { base } else { 5 }
        };
        let mut expression = String::new();
        push_nat(&mut expression, dice as u64);
        push_str(&mut expression, "d8");
        let mut s = String::new();
        push_str(&mut s, c.name.as_str());
        push_str(&mut s, " channels divine power into their strike! Divine Smite deals ");
        push_nat(&mut s, dice as u64);
        push_str(&mut s, "d8 = ");
        push_int(&mut s, damage_total as i64);
        push_str(&mut s, " radiant damage");
        push_str(&mut s, if target_is_undead_or_fiend { " (extra damage vs undead/fiend)" } else { "" });
        push_str(&mut s, ". (Level ");
        push_nat(&mut s, spell_slot_level as u64);
        push_str(&mut s, " slot expended)");
        let mut d = String::new();
        push_str(&mut d, "Used level ");
        push_nat(&mut d, spell_slot_level as u64);
        push_str(&mut d, " slot for smite");
        let roll = RollResult { expression, total: damage_total, natural_20: false, natural_1: false };
        Resolution::new(s)
            .with_effect(Effect::DiceRolled { roll, purpose: String::from_str("Divine Smite damage") })
            .with_effect(resource(c.name.as_str(), "Divine Smite", d))
    }

    /// What `resolve_use_wild_shape` gives.
    pub open spec fn use_wild_shape_outcome(
        world: GameWorld,
        _character_id: CharacterId,
        beast_form: Seq<char>,
        beast_hp: i32,
        _beast_ac: Option<u8>,
        r: Resolution,
    ) -> bool {
        &&& ({
                let c = world.player_character;
                let hours = (match class_level(c, CharacterClass::Druid) { Some(l) => l, None => 2 }) / 2;
                if c.class_resources.wild_shape_form is Some {
                    r.narrative@ =~= c.name@ + " is already in Wild Shape form!"@ && r.effects@.len() == 0
                } else if out_of_uses(c, "Wild Shape"@) {
                    &&& r.narrative@ =~= c.name@ + " has no Wild Shape uses remaining! (Recovers on short/long rest)"@
                    &&& r.effects@.len() == 0
                } else {
                    &&& r.narrative@ =~= c.name@ + " transforms into a "@ + beast_form + "! Beast form has "@
                        + int_text(beast_hp as int) + " HP. Duration: "@ + int_text(hours as int) + " hour"@
                        + plural(hours as int)
                        + ". Mental stats, proficiencies, and features retained. Cannot cast spells but can maintain concentration."@
                    &&& r.effects@.len() == 2
                    &&& resource_used(r.effects@[0], c.name@, "Wild Shape"@,
                        "Transformed into "@ + beast_form + " ("@ + int_text(beast_hp as int) + " HP)"@)
                    &&& feature_spent(r.effects@[1], "Wild Shape"@)
                }
            })
    }

    /// A Druid takes a beast's form, unless already transformed or out of
    /// uses; it lasts an hour per two Druid levels (level 2 when the class is
    /// not recorded).
    pub fn resolve_use_wild_shape(
        &self,
        world: &GameWorld,
        _character_id: CharacterId,
        beast_form: &str,
        beast_hp: i32,
        _beast_ac: Option<u8>,
    ) -> (r: Resolution)
        ensures
            Self::use_wild_shape_outcome(*world, _character_id, beast_form@, beast_hp, _beast_ac, r),
    {
        let c = &world.player_character;
        if c.class_resources.wild_shape_form.is_some() {
            return Resolution::new(line(c.name.as_str(), " is already in Wild Shape form!"));
        }
        if has_no_uses_left(c, "Wild Shape") {
            return Resolution::new(line(c.name.as_str(), " has no Wild Shape uses remaining! (Recovers on short/long rest)"));
        }
        let level = match level_in(c, CharacterClass::Druid) {
            Some(l) => l,
            None => 2,
        };
        let hours = level / 2;
        let mut s = String::new();
        push_str(&mut s, c.name.as_str());
        push_str(&mut s, " transforms into a ");
        push_str(&mut s, beast_form);
        push_str(&mut s, "! Beast form has ");
        push_int(&mut s, beast_hp as i64);
        push_str(&mut s, " HP. Duration: ");
        push_nat(&mut s, hours as u64);
        push_str(&mut s, " hour");
        push_str(&mut s, if hours == 1 { "" } else { "s" });
        push_str(&mut s, ". Mental stats, proficiencies, and features retained. Cannot cast spells but can maintain concentration.");
        let mut d = String::new();
        push_str(&mut d, "Transformed into ");
        push_str(&mut d, beast_form);
        push_str(&mut d, " (");
        push_int(&mut d, beast_hp as i64);
        push_str(&mut d, " HP)");
        Resolution::new(s).with_effect(resource(c.name.as_str(), "Wild Shape", d)).with_effect(spent("Wild Shape"))
    }

    /// When `resolve_end_wild_shape` may be called.
    pub open spec fn end_wild_shape_allowed(
        world: GameWorld,
        _character_id: CharacterId,
        reason: Seq<char>,
        excess_damage: i32,
    ) -> bool {
        &&& world.player_character.class_resources.wild_shape_form is Some && excess_damage > 0
                ==> world.player_character.hit_points.current - excess_damage >= i32::MIN
    }

    /// What `resolve_end_wild_shape` gives.
    pub open spec fn end_wild_shape_outcome(
        world: GameWorld,
        _character_id: CharacterId,
        reason: Seq<char>,
        excess_damage: i32,
        r: Resolution,
    ) -> bool {
        &&& ({
                let c = world.player_character;
                let why = wild_shape_end_text(reason, excess_damage);
                let left = c.hit_points.current - excess_damage;
                if c.class_resources.wild_shape_form is None {
                    r.narrative@ =~= c.name@ + " is not currently in Wild Shape form."@ && r.effects@.len() == 0
                } else {
                    &&& r.narrative@ =~= c.name@ + " reverts to their normal form. "@ + why
                    &&& r.effects@.len() == if excess_damage > 0 { 2int } else { 1int }
                    &&& resource_used(r.effects@[0], c.name@, "Wild Shape"@, why)
                    &&& excess_damage > 0 ==> (r.effects@[1] matches Effect::HpChanged {
                        target_id,
                        amount,
                        new_current,
                        new_max,
                        dropped_to_zero,
                    } && target_id == c.id && amount == -excess_damage
                        && new_current == (if left > 0 { left } else { 0 }) && new_max == c.hit_points.maximum
                        && dropped_to_zero == (left <= 0))
                }
            })
    }

    /// A Druid returns to normal form; damage beyond the beast's hit points
    /// carries over.
    pub fn resolve_end_wild_shape(&self, world: &GameWorld, _character_id: CharacterId, reason: &str, excess_damage: i32) -> (r: Resolution)
        requires
            Self::end_wild_shape_allowed(*world, _character_id, reason@, excess_damage),
        ensures
            Self::end_wild_shape_outcome(*world, _character_id, reason@, excess_damage, r),
    {
        let c = &world.player_character;
        if c.class_resources.wild_shape_form.is_none() {
            return Resolution::new(line(c.name.as_str(), " is not currently in Wild Shape form."));
        }
        let mut why = String::new();
        if str_eq(reason, "duration_expired") {
            push_str(&mut why, "Wild Shape ended (duration expired).");
        } else if str_eq(reason, "hp_zero") {
            if excess_damage > 0 {
                push_str(&mut why, "Wild Shape ended (beast HP dropped to 0). ");
                push_int(&mut why, excess_damage as i64);
                push_str(&mut why, " excess damage carries over to normal form!");
            } else {
                push_str(&mut why, "Wild Shape ended (beast HP dropped to 0).");
            }
        } else if str_eq(reason, "voluntary") {
            push_str(&mut why, "Wild Shape ended voluntarily as a bonus action.");
        } else if str_eq(reason, "incapacitated") {
            push_str(&mut why, "Wild Shape ended (druid became incapacitated).");
        } else {
            push_str(&mut why, "Wild Shape ended.");
        }
        let mut s = String::new();
        push_str(&mut s, c.name.as_str());
        push_str(&mut s, " reverts to their normal form. ");
        push_str(&mut s, why.as_str());
        let mut resolution = Resolution::new(s).with_effect(resource(c.name.as_str(), "Wild Shape", why));
        if excess_damage > 0 {
            let left = c.hit_points.current - excess_damage;
            resolution = resolution.with_effect(Effect::HpChanged {
                target_id: c.id,
                amount: -excess_damage,
                new_current: if left > 0 { left } else { 0 },
                new_max: c.hit_points.maximum,
                dropped_to_zero: left <= 0,
            });
        }
        resolution
    }
    /// What `resolve_use_channel_divinity` gives.
    pub open spec fn use_channel_divinity_outcome(
        world: GameWorld,
        _character_id: CharacterId,
        option: Seq<char>,
        targets: Seq<String>,
        r: Resolution,
    ) -> bool {
        &&& ({
                let c = world.player_character;
                if out_of_uses(c, "Channel Divinity"@) {
                    &&& r.narrative@ =~= c.name@ + " has no Channel Divinity uses remaining! (Recovers on short/long rest)"@
                    &&& r.effects@.len() == 0
                } else {
                    &&& r.narrative@ =~= c.name@ + " uses Channel Divinity: "@ + channel_divinity_text(option) + "."@
                        + (if targets.len() == 0 { ""@ } else { " Targets: "@ + joined(strings_view(targets), ", "@) + "."@ })
                    &&& r.effects@.len() == 2
                    &&& resource_used(r.effects@[0], c.name@, "Channel Divinity"@, option)
                    &&& feature_spent(r.effects@[1], "Channel Divinity"@)
                }
            })
    }

    /// A Cleric or Paladin channels divinity, unless out of uses; known
    /// options are described, others named as given.
    pub fn resolve_use_channel_divinity(
        &self,
        world: &GameWorld,
        _character_id: CharacterId,
        option: &str,
        targets: &[String],
    ) -> (r: Resolution)
        ensures
            Self::use_channel_divinity_outcome(*world, _character_id, option@, targets@, r),
    {
        let c = &world.player_character;
        if has_no_uses_left(c, "Channel Divinity") {
            return Resolution::new(line(c.name.as_str(), " has no Channel Divinity uses remaining! (Recovers on short/long rest)"));
        }
        let lower = to_lowercase(option);
        let o = lower.as_str();
        let mut s = String::new();
        push_str(&mut s, c.name.as_str());
        push_str(&mut s, " uses Channel Divinity: ");
        if str_eq(o, "turn undead") {
            push_str(&mut s, "Turn Undead: Each undead within 30 feet must make a WIS save. On failure, they must spend their turns moving away and cannot take reactions for 1 minute.");
        } else if str_eq(o, "divine spark") {
            push_str(&mut s, "Divine Spark: Either deal 1d8 radiant damage to one creature within 30 feet (DEX save for half), or restore 1d8 HP to one creature within 30 feet.");
        } else if str_eq(o, "sacred weapon") {
            push_str(&mut s, "Sacred Weapon: Your weapon becomes magical for 1 minute, +CHA to attack rolls, and sheds bright light.");
        } else {
            push_str(&mut s, option);
        }
        push_str(&mut s, ".");
        if targets.len() == 0 {
            push_str(&mut s, "");
        } else {
            push_str(&mut s, " Targets: ");
            push_joined(&mut s, targets, ", ");
            push_str(&mut s, ".");
        }
        Resolution::new(s)
            .with_effect(resource(c.name.as_str(), "Channel Divinity", text_of(option)))
            .with_effect(spent("Channel Divinity"))
    }

    /// What `resolve_use_bardic_inspiration` gives.
    pub open spec fn use_bardic_inspiration_outcome(
        world: GameWorld,
        _character_id: CharacterId,
        target_name: Seq<char>,
        die_size: Seq<char>,
        r: Resolution,
    ) -> bool {
        &&& ({
                let c = world.player_character;
                if out_of_uses(c, "Bardic Inspiration"@) {
                    &&& r.narrative@ =~= c.name@
                        + " has no Bardic Inspiration uses remaining! (Recovers on long rest, or short rest at level 5+)"@
                    &&& r.effects@.len() == 0
                } else {
                    &&& r.narrative@ =~= c.name@ + " inspires "@ + target_name + " with a rousing performance! "@
                        + target_name + " gains a "@ + die_size
                        + " Bardic Inspiration die they can add to one ability check, attack roll, or saving throw within the next 10 minutes."@
                    &&& r.effects@.len() == 2
                    &&& resource_used(r.effects@[0], c.name@, "Bardic Inspiration"@,
                        "Inspired "@ + target_name + " with a "@ + die_size)
                    &&& feature_spent(r.effects@[1], "Bardic Inspiration"@)
                }
            })
    }

    /// A Bard inspires someone, unless out of uses.
    pub fn resolve_use_bardic_inspiration(
        &self,
        world: &GameWorld,
        _character_id: CharacterId,
        target_name: &str,
        die_size: &str,
    ) -> (r: Resolution)
        ensures
            Self::use_bardic_inspiration_outcome(*world, _character_id, target_name@, die_size@, r),
    {
        let c = &world.player_character;
        if has_no_uses_left(c, "Bardic Inspiration") {
            return Resolution::new(line(
                c.name.as_str(),
                " has no Bardic Inspiration uses remaining! (Recovers on long rest, or short rest at level 5+)",
            ));
        }
        let mut s = String::new();
        push_str(&mut s, c.name.as_str());
        push_str(&mut s, " inspires ");
        push_str(&mut s, target_name);
        push_str(&mut s, " with a rousing performance! ");
        push_str(&mut s, target_name);
        push_str(&mut s, " gains a ");
        push_str(&mut s, die_size);
        push_str(&mut s, " Bardic Inspiration die they can add to one ability check, attack roll, or saving throw within the next 10 minutes.");
        let mut d = String::new();
        push_str(&mut d, "Inspired ");
        push_str(&mut d, target_name);
        push_str(&mut d, " with a ");
        push_str(&mut d, die_size);
        Resolution::new(s)
            .with_effect(resource(c.name.as_str(), "Bardic Inspiration", d))
            .with_effect(spent("Bardic Inspiration"))
    }

    /// What `resolve_use_action_surge` gives.
    pub open spec fn use_action_surge_outcome(
        world: GameWorld,
        _character_id: CharacterId,
        action_taken: Seq<char>,
        r: Resolution,
    ) -> bool {
        &&& ({
                let c = world.player_character;
                if c.class_resources.action_surge_used {
                    &&& r.narrative@ =~= c.name@ + " has already used Action Surge! (Recovers on short/long rest)"@
                    &&& r.effects@.len() == 0
                } else {
                    &&& r.narrative@ =~= c.name@ + " surges with renewed vigor! Takes an additional action this turn: "@
                        + action_taken
                    &&& r.effects@.len() == 2
                    &&& resource_used(r.effects@[0], c.name@, "Action Surge"@, action_taken)
                    &&& feature_spent(r.effects@[1], "Action Surge"@)
                }
            })
    }

    /// A Fighter takes one more action, unless Action Surge is spent.
    pub fn resolve_use_action_surge(&self, world: &GameWorld, _character_id: CharacterId, action_taken: &str) -> (r: Resolution)
        ensures
            Self::use_action_surge_outcome(*world, _character_id, action_taken@, r),
    {
        let c = &world.player_character;
        if c.class_resources.action_surge_used {
            return Resolution::new(line(c.name.as_str(), " has already used Action Surge! (Recovers on short/long rest)"));
        }
        let mut s = String::new();
        push_str(&mut s, c.name.as_str());
        push_str(&mut s, " surges with renewed vigor! Takes an additional action this turn: ");
        push_str(&mut s, action_taken);
        Resolution::new(s)
            .with_effect(resource(c.name.as_str(), "Action Surge", text_of(action_taken)))
            .with_effect(spent("Action Surge"))
    }

    /// When `resolve_use_second_wind` may be called.
    pub open spec fn use_second_wind_allowed(
        world: GameWorld,
        _character_id: CharacterId,
        healing: i32,
    ) -> bool {
        &&& !world.player_character.class_resources.second_wind_used
                ==> world.player_character.hit_points.current + healing <= i32::MAX
                && world.player_character.hit_points.current + healing >= i32::MIN
    }

    /// What `resolve_use_second_wind` gives.
    pub open spec fn use_second_wind_outcome(
        world: GameWorld,
        _character_id: CharacterId,
        healing: i32,
        r: Resolution,
    ) -> bool {
        &&& ({
                let c = world.player_character;
                let level = match class_level(c, CharacterClass::Fighter) { Some(l) => l, None => 1 };
                let raised = c.hit_points.current + healing;
                let new_hp = if raised < c.hit_points.maximum { raised } else { c.hit_points.maximum as int };
                if c.class_resources.second_wind_used {
                    &&& r.narrative@ =~= c.name@ + " has already used Second Wind! (Recovers on short/long rest)"@
                    &&& r.effects@.len() == 0
                } else {
                    &&& r.narrative@ =~= c.name@ + " catches their breath with Second Wind! Regains 1d10+"@
                        + int_text(level as int) + " = "@ + int_text(healing as int) + " HP. (Now at "@ + int_text(new_hp)
                        + "/"@ + int_text(c.hit_points.maximum as int) + ")"@
                    &&& r.effects@.len() == 4
                    &&& r.effects@[0] matches Effect::DiceRolled { roll, purpose }
                        && roll.expression@ =~= "1d10+"@ + int_text(level as int) && roll.total == healing
                        && !roll.natural_20 && !roll.natural_1 && purpose@ =~= "Second Wind healing"@
                    &&& r.effects@[1] matches Effect::HpChanged { target_id, amount, new_current, new_max, dropped_to_zero }
                        && target_id == c.id && amount == healing && new_current == new_hp
                        && new_max == c.hit_points.maximum && !dropped_to_zero
                    &&& resource_used(r.effects@[2], c.name@, "Second Wind"@, "Healed "@ + int_text(healing as int) + " HP"@)
                    &&& feature_spent(r.effects@[3], "Second Wind"@)
                }
            })
    }

    /// A Fighter regains 1d10 + Fighter level hit points (level 1 when the
    /// class is not recorded), up to the maximum, unless Second Wind is
    /// spent; `healing` is the total rolled.
    pub fn resolve_use_second_wind(&self, world: &GameWorld, _character_id: CharacterId, healing: i32) -> (r: Resolution)
        requires
            Self::use_second_wind_allowed(*world, _character_id, healing),
        ensures
            Self::use_second_wind_outcome(*world, _character_id, healing, r),
    {
        let c = &world.player_character;
        if c.class_resources.second_wind_used {
            return Resolution::new(line(c.name.as_str(), " has already used Second Wind! (Recovers on short/long rest)"));
        }
        let level = match level_in(c, CharacterClass::Fighter) {
            Some(l) => l,
            None => 1,
        };
        let raised = c.hit_points.current + healing;
        let new_hp = if raised < c.hit_points.maximum { raised } else { c.hit_points.maximum };
        let mut expression = String::new();
        push_str(&mut expression, "1d10+");
        push_nat(&mut expression, level as u64);
        let mut s = String::new();
        push_str(&mut s, c.name.as_str());
        push_str(&mut s, " catches their breath with Second Wind! Regains 1d10+");
        push_nat(&mut s, level as u64);
        push_str(&mut s, " = ");
        push_int(&mut s, healing as i64);
        push_str(&mut s, " HP. (Now at ");
        push_int(&mut s, new_hp as i64);
        push_str(&mut s, "/");
        push_int(&mut s, c.hit_points.maximum as i64);
        push_str(&mut s, ")");
        let mut d = String::new();
        push_str(&mut d, "Healed ");
        push_int(&mut d, healing as i64);
        push_str(&mut d, " HP");
        let roll = RollResult { expression, total: healing, natural_20: false, natural_1: false };
        Resolution::new(s)
            .with_effect(Effect::DiceRolled { roll, purpose: String::from_str("Second Wind healing") })
            .with_effect(Effect::HpChanged {
                target_id: c.id,
                amount: healing,
                new_current: new_hp,
                new_max: c.hit_points.maximum,
                dropped_to_zero: false,
            })
            .with_effect(resource(c.name.as_str(), "Second Wind", d))
            .with_effect(spent("Second Wind"))
    }
    /// What `resolve_use_sorcery_points` gives.
    pub open spec fn use_sorcery_points_outcome(
        world: GameWorld,
        _character_id: CharacterId,
        points: u8,
        metamagic: Seq<char>,
        spell_name: Option<Seq<char>>,
        slot_level: Option<u8>,
        r: Resolution,
    ) -> bool {
        &&& ({
                let c = world.player_character;
                let pool = c.class_resources.sorcery_points;
                if metamagic == "convert_to_slot"@ && slot_level is Some {
                    let level = slot_level.unwrap();
                    if pool < level {
                        &&& r.narrative@ =~= c.name@ + " doesn't have enough sorcery points! Has "@ + int_text(pool as int)
                            + " but needs "@ + int_text(level as int) + " to create a level "@ + int_text(level as int)
                            + " slot."@
                        &&& r.effects@.len() == 0
                    } else {
                        &&& r.narrative@ =~= c.name@ + " converts "@ + int_text(level as int)
                            + " sorcery points into a level "@ + int_text(level as int) + " spell slot."@
                        &&& r.effects@.len() == 1
                        &&& resource_used(r.effects@[0], c.name@, "Sorcery Points"@,
                            "Created level "@ + int_text(level as int) + " spell slot"@)
                    }
                } else if metamagic == "convert_from_slot"@ && slot_level is Some {
                    let level = slot_level.unwrap();
                    &&& r.narrative@ =~= c.name@ + " converts a level "@ + int_text(level as int) + " spell slot into "@
                        + int_text(level as int) + " sorcery points."@
                    &&& r.effects@.len() == 1
                    &&& resource_used(r.effects@[0], c.name@, "Sorcery Points"@,
                        "Gained "@ + int_text(level as int) + " points from slot"@)
                } else if pool < points {
                    &&& r.narrative@ =~= c.name@ + " doesn't have enough sorcery points! Has "@ + int_text(pool as int)
                        + " but needs "@ + int_text(points as int) + "."@
                    &&& r.effects@.len() == 0
                } else {
                    &&& r.narrative@ =~= c.name@ + " uses "@ + metamagic_text(metamagic)
                        + (match spell_name { Some(n) => " on "@ + n, None => Seq::empty() })
                        + " ("@ + int_text(points as int) + " sorcery point"@ + plural(points as int) + ")."@
                    &&& r.effects@.len() == 1
                    &&& resource_used(r.effects@[0], c.name@, "Sorcery Points"@,
                        "Used "@ + int_text(points as int) + " for "@ + metamagic)
                }
            })
    }

    /// A Sorcerer converts points into a spell slot (costing the slot's
    /// level) or a slot into points, or spends points on metamagic; known
    /// metamagic is described, other kinds named as given.
    pub fn resolve_use_sorcery_points(
        &self,
        world: &GameWorld,
        _character_id: CharacterId,
        points: u8,
        metamagic: &str,
        spell_name: Option<&str>,
        slot_level: Option<u8>,
    ) -> (r: Resolution)
        ensures
            Self::use_sorcery_points_outcome(
                *world, _character_id, points, metamagic@, opt_str_view(spell_name), slot_level, r,
            ),
    {
        let c = &world.player_character;
        let pool = c.class_resources.sorcery_points;
        let mut s = String::new();
        push_str(&mut s, c.name.as_str());
        if str_eq(metamagic, "convert_to_slot") {
            if let Some(level) = slot_level {
                if pool < level {
                    push_str(&mut s, " doesn't have enough sorcery points! Has ");
                    push_nat(&mut s, pool as u64);
                    push_str(&mut s, " but needs ");
                    push_nat(&mut s, level as u64);
                    push_str(&mut s, " to create a level ");
                    push_nat(&mut s, level as u64);
                    push_str(&mut s, " slot.");
                    return Resolution::new(s);
                }
                push_str(&mut s, " converts ");
                push_nat(&mut s, level as u64);
                push_str(&mut s, " sorcery points into a level ");
                push_nat(&mut s, level as u64);
                push_str(&mut s, " spell slot.");
                let mut d = String::new();
                push_str(&mut d, "Created level ");
                push_nat(&mut d, level as u64);
                push_str(&mut d, " spell slot");
                return Resolution::new(s).with_effect(resource(c.name.as_str(), "Sorcery Points", d));
            }
        }
        if str_eq(metamagic, "convert_from_slot") {
            if let Some(level) = slot_level {
                push_str(&mut s, " converts a level ");
                push_nat(&mut s, level as u64);
                push_str(&mut s, " spell slot into ");
                push_nat(&mut s, level as u64);
                push_str(&mut s, " sorcery points.");
                let mut d = String::new();
                push_str(&mut d, "Gained ");
                push_nat(&mut d, level as u64);
                push_str(&mut d, " points from slot");
                return Resolution::new(s).with_effect(resource(c.name.as_str(), "Sorcery Points", d));
            }
        }
        if pool < points {
            push_str(&mut s, " doesn't have enough sorcery points! Has ");
            push_nat(&mut s, pool as u64);
            push_str(&mut s, " but needs ");
            push_nat(&mut s, points as u64);
            push_str(&mut s, ".");
            return Resolution::new(s);
        }
        push_str(&mut s, " uses ");
        let lower = to_lowercase(metamagic);
        let m = lower.as_str();
        if str_eq(m, "careful") {
            push_str(&mut s, "Careful Spell: Protect allies from your spell's area effect.");
        } else if str_eq(m, "distant") {
            push_str(&mut s, "Distant Spell: Double the spell's range (or 30 ft if touch).");
        } else if str_eq(m, "empowered") {
            push_str(&mut s, "Empowered Spell: Reroll up to CHA mod damage dice.");
        } else if str_eq(m, "extended") {
            push_str(&mut s, "Extended Spell: Double the spell's duration (max 24 hours).");
        } else if str_eq(m, "heightened") {
            push_str(&mut s, "Heightened Spell: Target has disadvantage on first save.");
        } else if str_eq(m, "quickened") {
            push_str(&mut s, "Quickened Spell: Cast as a bonus action instead of an action.");
        } else if str_eq(m, "subtle") {
            push_str(&mut s, "Subtle Spell: Cast without verbal or somatic components.");
        } else if str_eq(m, "twinned") {
            push_str(&mut s, "Twinned Spell: Target a second creature with a single-target spell.");
        } else {
            push_str(&mut s, metamagic);
        }
        match spell_name {
            Some(n) => {
                push_str(&mut s, " on ");
                push_str(&mut s, n);
            },
            None => {
                assert(s@ + Seq::<char>::empty() =~= s@);
            },
        }
        push_str(&mut s, " (");
        push_nat(&mut s, points as u64);
        push_str(&mut s, " sorcery point");
        push_str(&mut s, if points == 1 { "" } else { "s" });
        push_str(&mut s, ").");
        let mut d = String::new();
        push_str(&mut d, "Used ");
        push_nat(&mut d, points as u64);
        push_str(&mut d, " for ");
        push_str(&mut d, metamagic);
        Resolution::new(s).with_effect(resource(c.name.as_str(), "Sorcery Points", d))
    }

    /// What `resolve_use_feature` gives.
    pub open spec fn use_feature_outcome(
        world: GameWorld,
        _character_id: CharacterId,
        feature_name: Seq<char>,
        r: Resolution,
    ) -> bool {
        &&& ({
                let c = world.player_character;
                match feature_named(c, feature_name) {
                    None => r.narrative@ =~= c.name@ + " does not have the feature "@ + feature_name && r.effects@.len() == 0,
                    Some(f) => match f.uses {
                        None => r.narrative@ =~= c.name@ + " uses "@ + feature_name && r.effects@.len() == 0,
                        Some(u) => if u.current > 0 {
                            &&& r.narrative@ =~= c.name@ + " uses "@ + feature_name + " ("@ + int_text(u.current - 1)
                                + " uses remaining)"@
                            &&& r.effects@.len() == 1
                            &&& r.effects@[0] matches Effect::FeatureUsed { feature_name: n, uses_remaining }
                                && n@ =~= feature_name && uses_remaining == u.current - 1
                        } else {
                            r.narrative@ =~= c.name@ + " has no uses of "@ + feature_name + " remaining"@ && r.effects@.len() == 0
                        },
                    },
                }
            })
    }

    /// A feature is used: a limited one spends a use if one is left.
    pub fn resolve_use_feature(&self, world: &GameWorld, _character_id: CharacterId, feature_name: &str) -> (r: Resolution)
        ensures
            Self::use_feature_outcome(*world, _character_id, feature_name@, r),
    {
        let c = &world.player_character;
        let mut s = String::new();
        push_str(&mut s, c.name.as_str());
        match find_feature(c, feature_name) {
            Some(f) => match f.uses {
                Some(u) => {
                    if u.current > 0 {
                        push_str(&mut s, " uses ");
                        push_str(&mut s, feature_name);
                        push_str(&mut s, " (");
                        push_nat(&mut s, (u.current - 1) as u64);
                        push_str(&mut s, " uses remaining)");
                        Resolution::new(s).with_effect(Effect::FeatureUsed {
                            feature_name: String::from_str(feature_name),
                            uses_remaining: u.current - 1,
                        })
                    } else {
                        push_str(&mut s, " has no uses of ");
                        push_str(&mut s, feature_name);
                        push_str(&mut s, " remaining");
                        Resolution::new(s)
                    }
                },
                None => {
                    push_str(&mut s, " uses ");
                    push_str(&mut s, feature_name);
                    Resolution::new(s)
                },
            },
            None => {
                push_str(&mut s, " does not have the feature ");
                push_str(&mut s, feature_name);
                Resolution::new(s)
            },
        }
    }
}

/// Divine Smite with a slot of level L (1 to 9) is refused exactly when the
/// caster has no slot of level L left; otherwise it rolls 2 d8, one more
/// per slot level above the first up to 5, and one more against undead and
/// fiends.
pub proof fn law_smite_needs_a_slot_of_its_level(
    world: GameWorld,
    character_id: CharacterId,
    slot_level: u8,
    undead_or_fiend: bool,
    damage_total: i32,
    r: Resolution,
)
    requires
        RulesEngine::use_divine_smite_outcome(world, character_id, slot_level, undead_or_fiend, damage_total, r),
        1 <= slot_level <= 9,
        world.player_character.spellcasting is Some,
    ensures
        ({
            let left = world.player_character.spellcasting.unwrap().spell_slots.slots@[slot_level - 1].spec_available();
            let above = slot_level - 1;
            let dice = 2 + (if above < 3 { above } else { 3 }) + (if undead_or_fiend { 1int } else { 0int });
            &&& (r.effects@.len() == 0 <==> left == 0)
            &&& left > 0 ==> (r.effects@[0] matches Effect::DiceRolled { roll, .. }
                && roll.expression@ == int_text(dice) + "d8"@ && roll.total == damage_total)
        }),
{
}

} // verus!
