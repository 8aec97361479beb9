//! Weapon attacks: a d20 against the target's armor class, then damage with
//! doubled dice on a critical hit, rage damage and Sneak Attack.
//!
//! The dice are arguments: the two d20 faces rolled, the damage total and
//! the Sneak Attack total. The damage rolls record the expression asked for.

use vstd::prelude::*;
use crate::abilities::{score_modifier, Ability};
use crate::checks::{check_roll, d20_faces, is_check_roll, keep, kept_face};
use crate::class_features::{class_level, level_in};
use crate::conditions::Condition;
use crate::ids::CharacterId;
use crate::intent::Advantage;
use crate::rules::{sneak_attack_dice, sneak_attack_dice_at, Effect, Resolution, RollResult, RulesEngine};
use crate::text::{int_text, nat_text, push_int, push_nat, push_str};
use crate::world::{has_condition_in, proficiency_for_level, Character, CharacterClass, Combatant, GameWorld, HeldWeapon};

verus! {

/// How much damage a weapon deals: a number of dice of one size, or a flat
/// amount.
#[derive(Debug, Clone, Copy, PartialEq, Eq, Structural)]
pub enum DamageDice {
    Dice { count: u32, sides: u32 },
    Flat(u32),
}

impl DamageDice {
    /// Dice notation: "{count}d{sides}", or the flat amount.
    pub open spec fn spec_text(self) -> Seq<char> {
        match self {
            DamageDice::Dice { count, sides } => nat_text(count as nat) + "d"@ + nat_text(sides as nat),
            DamageDice::Flat(n) => nat_text(n as nat),
        }
    }

    /// The notation with the number of dice, or the flat amount, doubled.
    pub open spec fn spec_doubled_text(self) -> Seq<char> {
        match self {
            DamageDice::Dice { count, sides } => nat_text(2 * count as nat) + "d"@ + nat_text(sides as nat),
            DamageDice::Flat(n) => nat_text(2 * n as nat),
        }
    }

    /// The damage notation, doubled on a critical hit.
    pub fn notation(&self, doubled: bool) -> (r: String)
        ensures
            r@ == (if doubled { self.spec_doubled_text() } else { self.spec_text() }),
    {
        let mut s = String::new();
        match *self {
            DamageDice::Dice { count, sides } => {
                push_nat(&mut s, if doubled { 2 * (count as u64) } else { count as u64 });
                push_str(&mut s, "d");
                push_nat(&mut s, sides as u64);
            },
            DamageDice::Flat(n) => {
                push_nat(&mut s, if doubled { 2 * (n as u64) } else { n as u64 });
            },
        }
        s
    }
}

/// What an attack reads of a weapon.
#[derive(Debug, Clone, Copy)]
pub struct WeaponStats {
    pub damage: DamageDice,
    /// May be wielded with Dexterity instead of Strength.
    pub finesse: bool,
    /// Fired or thrown from a distance: wielded with Dexterity.
    pub ranged: bool,
}

/// What an attack reads of a weapon held in the main hand.
pub open spec fn held_stats(h: HeldWeapon) -> WeaponStats {
    WeaponStats { damage: h.damage, finesse: h.finesse, ranged: h.ranged }
}

/// The weapon an attack uses: the one the item list gives under the
/// weapon's name, else the one held in the main hand, else an unarmed
/// strike (1 damage, neither finesse nor ranged).
pub open spec fn weapon_used(listed: Option<WeaponStats>, c: Character) -> WeaponStats {
    match listed {
        Some(w) => w,
        None => match c.equipment.main_hand {
            Some(h) => held_stats(h),
            None => WeaponStats { damage: DamageDice::Flat(1), finesse: false, ranged: false },
        },
    }
}

/// Position of the first combatant at or after `i` with an id.
pub open spec fn combatant_position_from(cs: Seq<Combatant>, id: CharacterId, i: int) -> Option<int>
    decreases cs.len() - i,
{
    if i < 0 || i >= cs.len() {
        None
    } else if cs[i].id == id {
        Some(i)
    } else {
        combatant_position_from(cs, id, i + 1)
    }
}

/// The armor class an attack must reach: the player's own when the player is
/// the target, else that of the first combatant with the target's id, else
/// 10 (an unknown target, or no fight going on).
pub open spec fn target_ac(world: GameWorld, target_id: CharacterId) -> u8 {
    if target_id == world.player_character.id {
        world.player_character.armor_class
    } else {
        match world.combat {
            Some(combat) => match combatant_position_from(combat.combatants@, target_id, 0) {
                Some(i) => combat.combatants@[i].armor_class,
                None => 10,
            },
            None => 10,
        }
    }
}

/// A melee attack that uses Strength: not ranged, and for a finesse weapon
/// Strength is at least as good as Dexterity.
pub open spec fn strength_melee(w: WeaponStats, str_mod: int, dex_mod: int) -> bool {
    !w.ranged && (!w.finesse || str_mod >= dex_mod)
}

/// The ability modifier an attack adds: Dexterity when ranged, the better
/// of Strength and Dexterity with a finesse weapon, Strength otherwise.
pub open spec fn attack_ability_modifier(w: WeaponStats, str_mod: int, dex_mod: int) -> int {
    if w.ranged {
        dex_mod
    } else if w.finesse {
        if str_mod >= dex_mod { str_mod } else { dex_mod }
    } else {
        str_mod
    }
}

/// Rage damage: added to Strength melee attacks while raging.
pub open spec fn rage_extra(c: Character, strength_melee: bool) -> int {
    if strength_melee && c.class_resources.rage_active { c.class_resources.rage_damage_bonus as int } else { 0 }
}

/// An ally of the player other than the target, still standing, is in the
/// fight.
pub open spec fn ally_engaged(world: GameWorld, target_id: CharacterId) -> bool {
    world.combat matches Some(combat) && exists|i: int|
        0 <= i < combat.combatants@.len() && #[trigger] engaged_ally(combat.combatants@[i], target_id)
}

/// A standing ally of the player, not the player, other than the target.
pub open spec fn engaged_ally(x: Combatant, target_id: CharacterId) -> bool {
    x.is_ally && !x.is_player && x.current_hp > 0 && x.id != target_id
}

/// Sneak Attack has not been used this turn (always so outside a fight).
pub open spec fn sneak_attack_available(world: GameWorld) -> bool {
    match world.combat {
        Some(combat) => !combat.sneak_attack_used@.contains(world.player_character.id),
        None => true,
    }
}

/// The player's Rogue level, 0 without the class.
pub open spec fn rogue_level(c: Character) -> u8 {
    match class_level(c, CharacterClass::Rogue) {
        Some(l) => l,
        None => 0,
    }
}

/// Sneak Attack adds its dice to a hit: a Rogue, with a finesse or ranged
/// weapon, not yet used this turn, attacking with advantage or beside an
/// engaged ally.
pub open spec fn sneak_attack_applies(world: GameWorld, w: WeaponStats, advantage: Advantage, target_id: CharacterId) -> bool {
    &&& rogue_level(world.player_character) > 0
    &&& (w.finesse || w.ranged)
    &&& sneak_attack_available(world)
    &&& (advantage == Advantage::Advantage || ally_engaged(world, target_id))
}

/// A d20 attack hits unless the kept face is a 1, when the total reaches the
/// armor class or the face is a 20.
pub open spec fn attack_hits(face: int, total: int, ac: int) -> bool {
    face != 1 && (total >= ac || face == 20)
}

/// A natural 1 misses whatever the total; a natural 20 hits whatever the
/// armor class; any other face hits exactly when the total reaches it.
pub proof fn law_natural_one_misses_and_natural_twenty_hits(face: int, total: int, ac: int)
    ensures
        !attack_hits(1, total, ac),
        attack_hits(20, total, ac),
        face != 1 && face != 20 ==> (attack_hits(face, total, ac) <==> total >= ac),
{
}

/// A damage-style roll: the expression asked for and the total rolled, with
/// no natural d20 face.
pub open spec fn is_plain_roll(roll: RollResult, expression: Seq<char>, total: i32) -> bool {
    roll.expression@ == expression && roll.total == total && !roll.natural_20 && !roll.natural_1
}

fn find_combatant_ac(cs: &Vec<Combatant>, id: CharacterId) -> (r: Option<u8>)
    ensures
        r == (match combatant_position_from(cs@, id, 0) {
            Some(i) => Some(cs@[i].armor_class),
            None => None::<u8>,
        }),
{
    let mut i: usize = 0;
    while i < cs.len()
        invariant
            0 <= i <= cs@.len(),
            combatant_position_from(cs@, id, 0) == combatant_position_from(cs@, id, i as int),
        decreases cs@.len() - i,
    {
        if cs[i].id == id {
            return Some(cs[i].armor_class);
        }
        i = i + 1;
    }
    None
}

fn armor_class_of(world: &GameWorld, target_id: CharacterId) -> (r: u8)
    ensures
        r == target_ac(*world, target_id),
{
    if target_id == world.player_character.id {
        world.player_character.armor_class
    } else {
        match &world.combat {
            Some(combat) => match find_combatant_ac(&combat.combatants, target_id) {
                Some(ac) => ac,
                None => 10,
            },
            None => 10,
        }
    }
}

fn has_engaged_ally(world: &GameWorld, target_id: CharacterId) -> (r: bool)
    ensures
        r == ally_engaged(*world, target_id),
{
    match &world.combat {
        Some(combat) => {
            let cs = &combat.combatants;
            let mut i: usize = 0;
            while i < cs.len()
                invariant
                    0 <= i <= cs@.len(),
                    cs@ == combat.combatants@,
                    world.combat == Some(*combat),
                    forall|j: int| 0 <= j < i ==> !#[trigger] engaged_ally(cs@[j], target_id),
                decreases cs@.len() - i,
            {
                let x = &cs[i];
                if x.is_ally && !x.is_player && x.current_hp > 0 && x.id != target_id {
                    assert(engaged_ally(combat.combatants@[i as int], target_id));
                    assert(world.combat->0 == *combat);
                    return true;
                }
                i = i + 1;
            }
            false
        },
        None => false,
    }
}

fn sneak_attack_unused(world: &GameWorld) -> (r: bool)
    ensures
        r == sneak_attack_available(*world),
{
    match &world.combat {
        Some(combat) => {
            let used = &combat.sneak_attack_used;
            let id = world.player_character.id;
            let mut i: usize = 0;
            while i < used.len()
                invariant
                    0 <= i <= used@.len(),
                    used@ == combat.sneak_attack_used@,
                    id == world.player_character.id,
                    world.combat == Some(*combat),
                    forall|j: int| 0 <= j < i ==> used@[j] != id,
                decreases used@.len() - i,
            {
                if used[i] == id {
                    assert(used@[i as int] == id);
                    assert(combat.sneak_attack_used@.contains(world.player_character.id));
                    return false;
                }
                i = i + 1;
            }
            true
        },
        None => true,
    }
}

impl RulesEngine {
    /// When `resolve_attack` may be called.
    pub open spec fn attack_allowed(
        world: GameWorld,
        _attacker_id: CharacterId,
        target_id: CharacterId,
        weapon_name: Seq<char>,
        advantage: Advantage,
        weapon: Option<WeaponStats>,
        d20: (i32, i32),
        damage_total: i32,
        sneak_total: i32,
    ) -> bool {
        &&& d20_faces(d20)
        &&& world.player_character.ability_scores.modifier_defined(Ability::Strength)
        &&& world.player_character.ability_scores.modifier_defined(Ability::Dexterity)
    }

    /// What `resolve_attack` gives.
    pub open spec fn attack_outcome(
        world: GameWorld,
        _attacker_id: CharacterId,
        target_id: CharacterId,
        weapon_name: Seq<char>,
        advantage: Advantage,
        weapon: Option<WeaponStats>,
        d20: (i32, i32),
        damage_total: i32,
        sneak_total: i32,
        r: Resolution,
    ) -> bool {
        &&& ({
                let c = world.player_character;
                let w = weapon_used(weapon, c);
                let sm = score_modifier(c.ability_scores.strength);
                let dm = score_modifier(c.ability_scores.dexterity);
                let am = attack_ability_modifier(w, sm, dm);
                let atk = am + proficiency_for_level(c.level);
                let face = kept_face(advantage, d20);
                let total = face + atk;
                let ac = target_ac(world, target_id);
                let crit = face == 20;
                let damage_mod = am + rage_extra(c, strength_melee(w, sm, dm));
                let dice_text = if crit { w.damage.spec_doubled_text() } else { w.damage.spec_text() };
                let sneak_dice = sneak_attack_dice_at(rogue_level(c));
                let sneak_count = if crit { 2 * sneak_dice } else { sneak_dice };
                if has_condition_in(c.conditions@, Condition::Unconscious) {
                    &&& r.narrative@ =~= c.name@ + " is unconscious and cannot attack!"@
                    &&& r.effects@.len() == 0
                } else {
                    &&& r.narrative@ =~= c.name@ + " attacks with "@ + weapon_name + " (roll: "@ + int_text(total)
                        + " vs AC "@ + int_text(ac as int) + ")"@
                    &&& r.effects@[0] matches Effect::DiceRolled { roll, purpose }
                        && is_check_roll(roll, atk, face) && purpose@ =~= "Attack with "@ + weapon_name
                    &&& if attack_hits(face as int, total, ac as int) {
                        &&& r.effects@[1] matches Effect::AttackHit { attacker_name, target_name, attack_roll, target_ac: t, is_critical }
                            && attacker_name@ =~= c.name@ && target_name@ =~= "target"@ && attack_roll == total
                            && t == ac && is_critical == crit
                        &&& r.effects@[2] matches Effect::DiceRolled { roll, purpose }
                            && is_plain_roll(roll, dice_text + "+"@ + int_text(damage_mod), damage_total)
                            && purpose@ =~= "Damage"@
                        &&& if sneak_attack_applies(world, w, advantage, target_id) {
                            &&& r.effects@.len() == 5
                            &&& r.effects@[3] matches Effect::DiceRolled { roll, purpose }
                                && is_plain_roll(roll, nat_text(sneak_count as nat) + "d6"@, sneak_total)
                                && purpose@ =~= "Sneak Attack"@
                            &&& r.effects@[4] matches Effect::SneakAttackUsed { character_id, damage_dice }
                                && character_id == c.id && damage_dice == sneak_dice
                        } else {
                            r.effects@.len() == 3
                        }
                    } else {
                        &&& r.effects@.len() == 2
                        &&& r.effects@[1] matches Effect::AttackMissed { attacker_name, target_name, attack_roll, target_ac: t }
                            && attacker_name@ =~= c.name@ && target_name@ =~= "target"@ && attack_roll == total
                            && t == ac
                    }
                }
            })
    }

    /// The player attacks a target with a weapon: `weapon` is what the item
    /// list gives under `weapon_name` (`None` when it lists nothing), and
    /// without it the weapon held in the main hand is used, or else a bare
    /// fist. An unconscious attacker cannot attack. Otherwise the kept d20 plus the ability
    /// modifier and the proficiency bonus is compared with the target's
    /// armor class: a natural 1 misses, a natural 20 hits and is critical.
    /// A hit deals the weapon's damage (dice doubled on a critical hit) plus
    /// the ability modifier and any rage damage; a Rogue may add Sneak
    /// Attack dice (doubled on a critical hit). `damage_total` and
    /// `sneak_total` are what those dice rolled.
    pub fn resolve_attack(
        &self,
        world: &GameWorld,
        _attacker_id: CharacterId,
        target_id: CharacterId,
        weapon_name: &str,
        advantage: Advantage,
        weapon: Option<WeaponStats>,
        d20: (i32, i32),
        damage_total: i32,
        sneak_total: i32,
    ) -> (r: Resolution)
        requires
            Self::attack_allowed(
                *world, _attacker_id, target_id, weapon_name@, advantage, weapon, d20,
                damage_total, sneak_total,
            ),
        ensures
            Self::attack_outcome(
                *world, _attacker_id, target_id, weapon_name@, advantage, weapon, d20,
                damage_total, sneak_total, r,
            ),
    {
        let c = &world.player_character;
        if c.has_condition(Condition::Unconscious) {
            let mut s = String::new();
            push_str(&mut s, c.name.as_str());
            push_str(&mut s, " is unconscious and cannot attack!");
            return Resolution::new(s);
        }
        let ac = armor_class_of(world, target_id);
        let w = match weapon {
            Some(w) => w,
            None => match &c.equipment.main_hand {
                Some(h) => WeaponStats { damage: h.damage, finesse: h.finesse, ranged: h.ranged },
                None => WeaponStats { damage: DamageDice::Flat(1), finesse: false, ranged: false },
            },
        };
        let sm = c.ability_scores.modifier(Ability::Strength);
        let dm = c.ability_scores.modifier(Ability::Dexterity);
        let is_strength_melee = !w.ranged && (!w.finesse || sm >= dm);
        let am: i8 = if w.ranged { dm } else if w.finesse { if sm >= dm { sm } else { dm } } else { sm };
        let atk: i32 = am as i32 + c.proficiency_bonus() as i32;
        let face = keep(advantage, d20);
        let total = face + atk;
        let crit = face == 20;
        let mut s = String::new();
        push_str(&mut s, c.name.as_str());
        push_str(&mut s, " attacks with ");
        push_str(&mut s, weapon_name);
        push_str(&mut s, " (roll: ");
        push_int(&mut s, total as i64);
        push_str(&mut s, " vs AC ");
        push_int(&mut s, ac as i64);
        push_str(&mut s, ")");
        let mut purpose = String::new();
        push_str(&mut purpose, "Attack with ");
        push_str(&mut purpose, weapon_name);
        let resolution = Resolution::new(s).with_effect(Effect::DiceRolled { roll: check_roll(atk, face), purpose });
        let hits = face != 1 && (total >= ac as i32 || crit);
        if !hits {
            return resolution.with_effect(Effect::AttackMissed {
                attacker_name: c.name.clone(),
                target_name: String::from_str("target"),
                attack_roll: total,
                target_ac: ac,
            });
        }
        let resolution = resolution.with_effect(Effect::AttackHit {
            attacker_name: c.name.clone(),
            target_name: String::from_str("target"),
            attack_roll: total,
            target_ac: ac,
            is_critical: crit,
        });
        let rage: i32 = if is_strength_melee && c.class_resources.rage_active {
            c.class_resources.rage_damage_bonus as i32
        } else {
            0
        };
        let mut expression = w.damage.notation(crit);
        push_str(&mut expression, "+");
        push_int(&mut expression, (am as i32 + rage) as i64);
        let damage = RollResult { expression, total: damage_total, natural_20: false, natural_1: false };
        let resolution = resolution.with_effect(Effect::DiceRolled { roll: damage, purpose: String::from_str("Damage") });
        let level = match level_in(c, CharacterClass::Rogue) {
            Some(l) => l,
            None => 0,
        };
        if level > 0 && (w.finesse || w.ranged) && sneak_attack_unused(world)
            && (advantage == Advantage::Advantage || has_engaged_ally(world, target_id)) {
            let dice = sneak_attack_dice(level);
            let mut expression = String::new();
            push_nat(&mut expression, if crit { 2 * (dice as u64) } else { dice as u64 });
            push_str(&mut expression, "d6");
            let roll = RollResult { expression, total: sneak_total, natural_20: false, natural_1: false };
            resolution
                .with_effect(Effect::DiceRolled { roll, purpose: String::from_str("Sneak Attack") })
                .with_effect(Effect::SneakAttackUsed { character_id: c.id, damage_dice: dice })
        } else {
            resolution
        }
    }
}

/// A ranged weapon is aimed with Dexterity, whatever the Strength: the
/// attack roll is the kept d20 plus the Dexterity modifier and the
/// proficiency bonus, it hits when that reaches the target's armor class
/// (a natural 1 never, a natural 20 always), and the damage adds the
/// Dexterity modifier and nothing for rage.
pub proof fn law_ranged_attacks_use_dexterity(
    world: GameWorld,
    attacker_id: CharacterId,
    target_id: CharacterId,
    weapon_name: Seq<char>,
    advantage: Advantage,
    w: WeaponStats,
    d20: (i32, i32),
    damage_total: i32,
    sneak_total: i32,
    r: Resolution,
)
    requires
        RulesEngine::attack_outcome(world, attacker_id, target_id, weapon_name, advantage, Some(w), d20, damage_total,
            sneak_total, r),
        w.ranged,
        !has_condition_in(world.player_character.conditions@, Condition::Unconscious),
    ensures
        ({
            let c = world.player_character;
            let dex = score_modifier(c.ability_scores.dexterity);
            let bonus = dex + proficiency_for_level(c.level);
            let face = kept_face(advantage, d20);
            let hit = face != 1 && (face + bonus >= target_ac(world, target_id) as int || face == 20);
            let dice = if face == 20 { w.damage.spec_doubled_text() } else { w.damage.spec_text() };
            &&& r.effects@[0] matches Effect::DiceRolled { roll, .. }
                && roll.expression@ == "1d20+"@ + int_text(bonus) && roll.total == face + bonus
            &&& (r.effects@[1] is AttackHit <==> hit)
            &&& hit ==> (r.effects@[2] matches Effect::DiceRolled { roll, .. }
                && roll.expression@ == dice + "+"@ + int_text(dex) && roll.total == damage_total)
        }),
{
}

/// A melee weapon is swung with Strength, or with the better of Strength
/// and Dexterity when it is a finesse weapon; the same modifier goes into
/// the attack roll (with the proficiency bonus) and into the damage, and a
/// raging character adds rage damage only when the modifier is Strength's.
pub proof fn law_melee_attacks_use_strength_or_the_better_of_two(
    world: GameWorld,
    attacker_id: CharacterId,
    target_id: CharacterId,
    weapon_name: Seq<char>,
    advantage: Advantage,
    w: WeaponStats,
    d20: (i32, i32),
    damage_total: i32,
    sneak_total: i32,
    r: Resolution,
)
    requires
        RulesEngine::attack_outcome(world, attacker_id, target_id, weapon_name, advantage, Some(w), d20, damage_total,
            sneak_total, r),
        !w.ranged,
        !has_condition_in(world.player_character.conditions@, Condition::Unconscious),
    ensures
        ({
            let c = world.player_character;
            let str = score_modifier(c.ability_scores.strength);
            let dex = score_modifier(c.ability_scores.dexterity);
            let uses_dex = w.finesse && dex > str;
            let m = if uses_dex { dex } else { str };
            let rage = if !uses_dex && c.class_resources.rage_active { c.class_resources.rage_damage_bonus as int } else { 0 };
            let face = kept_face(advantage, d20);
            let hit = face != 1 && (face + m + proficiency_for_level(c.level) >= target_ac(world, target_id) as int || face == 20);
            let dice = if face == 20 { w.damage.spec_doubled_text() } else { w.damage.spec_text() };
            &&& r.effects@[0] matches Effect::DiceRolled { roll, .. }
                && roll.total == face + m + proficiency_for_level(c.level)
            &&& (r.effects@[1] is AttackHit <==> hit)
            &&& hit ==> (r.effects@[2] matches Effect::DiceRolled { roll, .. }
                && roll.expression@ == dice + "+"@ + int_text(m + rage))
        }),
{
}

} // verus!
