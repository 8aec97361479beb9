//! Casting a spell: which slot it takes, and what it does: a spell attack, a
//! saving throw, healing, or something described in words.
//!
//! The spell's record and the dice rolled are arguments.

use vstd::prelude::*;
use crate::abilities::{score_modifier, Ability};
use crate::attack::{attack_hits, is_plain_roll, DamageDice};
use crate::checks::{check_roll, is_check_roll};
use crate::ids::CharacterId;
use crate::rules::{DamageType, Effect, Resolution, RollResult, RulesEngine};
use crate::text::{ascii_lower, eq_ignore_ascii_case, int_text, joined, nat_text, push_int, push_joined, push_nat, push_str, strings_view};
use crate::world::{proficiency_for_level, Character, Combatant, GameWorld};

verus! {

/// How a spell attack is delivered.
#[derive(Debug, Clone, Copy, PartialEq, Eq, Structural)]
pub enum SpellAttackType {
    Melee,
    Ranged,
}

impl SpellAttackType {
    pub open spec fn spec_word(self) -> Seq<char> {
        match self {
            SpellAttackType::Melee => "melee"@,
            SpellAttackType::Ranged => "ranged"@,
        }
    }

    /// "melee" or "ranged".
    pub fn word(&self) -> (r: &'static str)
        ensures
            r@ == self.spec_word(),
    {
        match self {
            SpellAttackType::Melee => "melee",
            SpellAttackType::Ranged => "ranged",
        }
    }
}

/// What casting reads of a spell.
#[derive(Debug, Clone)]
pub struct SpellData {
    pub name: String,
    /// 0 for a cantrip.
    pub level: u8,
    pub concentration: bool,
    /// Set for spells that make a spell attack.
    pub attack_type: Option<SpellAttackType>,
    /// The ability of the saving throw the spell forces, if any.
    pub save_type: Option<Ability>,
    /// What a successful save does ("half damage", ...).
    pub save_effect: Option<String>,
    pub damage_type: Option<DamageType>,
    /// The damage dice of this casting, with cantrip scaling and upcasting
    /// already applied.
    pub damage_dice: Option<DamageDice>,
    /// Healing dice in dice notation, for healing spells.
    pub healing_dice: Option<String>,
    pub description: String,
}

/// The dice of one casting: the d20 face of a spell attack, and the totals
/// of the damage and healing dice (`None` when those dice could not be
/// rolled).
#[derive(Debug, Clone, Copy)]
pub struct SpellRolls {
    pub attack_d20: i32,
    pub damage: Option<i32>,
    pub healing: Option<i32>,
}

/// The caster's spellcasting ability modifier, 0 for a non-caster.
pub open spec fn spell_modifier(c: Character) -> int {
    match c.spellcasting {
        Some(sc) => score_modifier(c.ability_scores.spec_get(sc.ability)),
        None => 0,
    }
}

/// The caster can compute a spellcasting modifier.
pub open spec fn spell_modifier_defined(c: Character) -> bool {
    c.spellcasting matches Some(sc) ==> c.ability_scores.modifier_defined(sc.ability)
}

/// The slot a casting takes: none for a cantrip, the spell's own level when
/// no slot is named, the named slot otherwise.
pub open spec fn effective_slot(level: u8, slot_level: u8) -> u8 {
    if level == 0 { 0 } else if slot_level == 0 { level } else { slot_level }
}

/// Why a spell cannot be cast, in words: unknown, a slot below the spell's
/// level, an impossible slot, no slot of that level left, or no
/// spellcasting at all (cantrips need none).
pub open spec fn cast_refusal(c: Character, spell_name: Seq<char>, spell: Option<SpellData>, slot_level: u8) -> Option<Seq<char>> {
    match spell {
        None => Some("Unknown spell: '"@ + spell_name + "'. The spell is not in the database."@),
        Some(s) => {
            let eff = effective_slot(s.level, slot_level);
            if s.level > 0 && slot_level != 0 && slot_level < s.level {
                Some("Cannot cast "@ + s.name@ + " using a level "@ + nat_text(slot_level as nat)
                    + " slot - requires at least level "@ + nat_text(s.level as nat) + "."@)
            } else if s.level == 0 {
                None
            } else {
                match c.spellcasting {
                    Some(sc) => if eff > 9 {
                        Some("Invalid spell slot level."@)
                    } else if sc.spell_slots.slots@[eff - 1].spec_available() == 0 {
                        Some(c.name@ + " has no level "@ + nat_text(eff as nat) + " spell slots remaining!"@)
                    } else {
                        None
                    },
                    None => Some(c.name@ + " doesn't have spellcasting ability!"@),
                }
            }
        },
    }
}

/// How the slot is named after "casts {spell}": nothing for a cantrip.
pub open spec fn slot_text(level: u8, eff: u8) -> Seq<char> {
    if level == 0 {
        Seq::empty()
    } else if eff > level {
        " (upcast at level "@ + nat_text(eff as nat) + ")"@
    } else {
        " (level "@ + nat_text(eff as nat) + " slot)"@
    }
}

/// The first target named, or "target".
pub open spec fn first_target(target_names: Seq<String>) -> Seq<char> {
    if target_names.len() > 0 { target_names[0]@ } else { "target"@ }
}

/// Position of the first combatant at or after `i` whose name matches,
/// ignoring ASCII case.
pub open spec fn combatant_named_from(cs: Seq<Combatant>, name: Seq<char>, i: int) -> Option<int>
    decreases cs.len() - i,
{
    if i < 0 || i >= cs.len() {
        None
    } else if ascii_lower(cs[i].name@) == ascii_lower(name) {
        Some(i)
    } else {
        combatant_named_from(cs, name, i + 1)
    }
}

/// The armor class of the combatant a spell attack targets by name: 10
/// when no combatant has that name or no fight is going on.
pub open spec fn named_target_ac(world: GameWorld, name: Seq<char>) -> u8 {
    match world.combat {
        Some(combat) => match combatant_named_from(combat.combatants@, name, 0) {
            Some(i) => combat.combatants@[i].armor_class,
            None => 10,
        },
        None => 10,
    }
}

/// The damage type in words, "magical" when the spell names none.
pub open spec fn damage_word(s: SpellData) -> Seq<char> {
    match s.damage_type {
        Some(t) => t.spec_name(),
        None => "magical"@,
    }
}

/// Damage dice on a critical spell attack: the number of dice doubled; a
/// flat amount stays.
pub open spec fn crit_dice_text(d: DamageDice) -> Seq<char> {
    match d {
        DamageDice::Dice { .. } => d.spec_doubled_text(),
        DamageDice::Flat(_) => d.spec_text(),
    }
}

/// The spell save DC: 8 plus the spellcasting modifier and the proficiency
/// bonus, never below 8.
pub open spec fn spell_save_dc(c: Character) -> int {
    let dc = 8 + spell_modifier(c) + proficiency_for_level(c.level);
    if dc >= 8 { dc } else { 8 }
}

/// The lines a spell attack adds, with the kept `face` and `total`.
pub open spec fn attack_lines(s: SpellData, t: SpellAttackType, target: Seq<char>, ac: u8, face: i32, total: int, rolls: SpellRolls) -> Seq<Seq<char>> {
    let first = seq!["Makes a "@ + t.spec_word() + " spell attack against "@ + target + ": "@ + int_text(total)
        + " vs AC "@ + int_text(ac as int) + "."@];
    if attack_hits(face as int, total, ac as int) {
        let damage = match (s.damage_dice, rolls.damage) {
            (Some(_), Some(x)) => seq!["Deals "@ + int_text(x as int) + " "@ + damage_word(s) + " damage."@],
            _ => Seq::empty(),
        };
        first + seq!["Hit!"@] + damage
    } else {
        first + seq!["Miss!"@]
    }
}

/// The effects of a spell attack.
pub open spec fn attack_effects(es: Seq<Effect>, c: Character, s: SpellData, t: SpellAttackType, target: Seq<char>, ac: u8, face: i32, total: int, bonus: int, rolls: SpellRolls) -> bool {
    &&& es[0] matches Effect::DiceRolled { roll, purpose }
        && is_check_roll(roll, bonus, face) && purpose@ == t.spec_word() + " spell attack"@
    &&& if attack_hits(face as int, total, ac as int) {
        &&& es[1] matches Effect::AttackHit { attacker_name, target_name, attack_roll, target_ac, is_critical }
            && attacker_name@ == c.name@ && target_name@ == target && attack_roll == total && target_ac == ac
            && is_critical == (face == 20)
        &&& match (s.damage_dice, rolls.damage) {
            (Some(d), Some(x)) => {
                &&& es.len() == 3
                &&& es[2] matches Effect::DiceRolled { roll, purpose }
                    && is_plain_roll(roll, if face == 20 { crit_dice_text(d) } else { d.spec_text() }, x)
                    && purpose@ == s.name@ + " damage"@
            },
            _ => es.len() == 2,
        }
    } else {
        &&& es.len() == 2
        &&& es[1] matches Effect::AttackMissed { attacker_name, target_name, attack_roll, target_ac }
            && attacker_name@ == c.name@ && target_name@ == target && attack_roll == total && target_ac == ac
    }
}

/// The lines of a spell without an attack: a saving throw, healing, or the
/// spell's description.
pub open spec fn other_lines(c: Character, s: SpellData, target: Seq<char>, rolls: SpellRolls) -> Seq<Seq<char>> {
    match s.save_type {
        Some(ab) => {
            let effect = match s.save_effect {
                Some(e) => e@,
                None => "negates effect"@,
            };
            let first = seq!["Targets must make a DC "@ + int_text(spell_save_dc(c)) + " "@ + ab.spec_name()
                + " saving throw ("@ + effect + " on success)."@];
            match (s.damage_dice, rolls.damage) {
                (Some(_), Some(x)) => first + seq!["On a failed save: "@ + int_text(x as int) + " "@ + damage_word(s) + " damage."@],
                _ => first,
            }
        },
        None => match (s.healing_dice, rolls.healing) {
            (Some(_), Some(x)) => seq![c.name@ + " heals "@ + target + " for "@ + int_text(x as int) + " HP."@],
            (Some(_), None) => Seq::empty(),
            (None, _) => seq![s.description@],
        },
    }
}

/// The effects of a spell without an attack: the damage of a saving-throw
/// spell, or the healing rolled.
pub open spec fn other_effects(es: Seq<Effect>, c: Character, s: SpellData, rolls: SpellRolls) -> bool {
    match s.save_type {
        Some(_) => match (s.damage_dice, rolls.damage) {
            (Some(d), Some(x)) => {
                &&& es.len() == 1
                &&& es[0] matches Effect::DiceRolled { roll, purpose }
                    && is_plain_roll(roll, d.spec_text(), x) && purpose@ == s.name@ + " damage"@
            },
            _ => es.len() == 0,
        },
        None => match (s.healing_dice, rolls.healing) {
            (Some(h), Some(x)) => {
                &&& es.len() == 1
                &&& es[0] matches Effect::DiceRolled { roll, purpose }
                    && is_plain_roll(roll, h@ + "+"@ + int_text(spell_modifier(c)), x)
                    && purpose@ == s.name@ + " healing"@
            },
            _ => es.len() == 0,
        },
    }
}

fn find_named_ac(cs: &Vec<Combatant>, name: &str) -> (r: u8)
    ensures
        r == (match combatant_named_from(cs@, name@, 0) {
            Some(i) => cs@[i].armor_class,
            None => 10u8,
        }),
{
    let mut i: usize = 0;
    while i < cs.len()
        invariant
            0 <= i <= cs@.len(),
            combatant_named_from(cs@, name@, 0) == combatant_named_from(cs@, name@, i as int),
        decreases cs@.len() - i,
    {
        if eq_ignore_ascii_case(cs[i].name.as_str(), name) {
            return cs[i].armor_class;
        }
        i = i + 1;
    }
    10
}

fn text(t: &str) -> (r: String)
    ensures
        r@ == t@,
{
    String::from_str(t)
}

fn spell_attack(
    world: &GameWorld,
    s: &SpellData,
    t: SpellAttackType,
    target: &str,
    bonus: i32,
    rolls: SpellRolls,
) -> (out: (Vec<String>, Vec<Effect>))
    requires
        1 <= rolls.attack_d20 <= 20,
        -1000 <= bonus <= 1000,
    ensures
        ({
            let ac = named_target_ac(*world, target@);
            let face = rolls.attack_d20;
            let total = face + bonus;
            &&& strings_view(out.0@) == attack_lines(*s, t, target@, ac, face, total, rolls)
            &&& attack_effects(out.1@, world.player_character, *s, t, target@, ac, face, total, bonus as int, rolls)
        }),
{
    let c = &world.player_character;
    let ac: u8 = match &world.combat {
        Some(combat) => find_named_ac(&combat.combatants, target),
        None => 10,
    };
    let face = rolls.attack_d20;
    let total = face + bonus;
    let mut parts: Vec<String> = Vec::new();
    let mut effects: Vec<Effect> = Vec::new();
    let mut purpose = String::new();
    push_str(&mut purpose, t.word());
    push_str(&mut purpose, " spell attack");
    effects.push(Effect::DiceRolled { roll: check_roll(bonus, face), purpose });
    let mut line = String::new();
    push_str(&mut line, "Makes a ");
    push_str(&mut line, t.word());
    push_str(&mut line, " spell attack against ");
    push_str(&mut line, target);
    push_str(&mut line, ": ");
    push_int(&mut line, total as i64);
    push_str(&mut line, " vs AC ");
    push_int(&mut line, ac as i64);
    push_str(&mut line, ".");
    parts.push(line);
    let crit = face == 20;
    if face != 1 && (total >= ac as i32 || crit) {
        parts.push(text("Hit!"));
        effects.push(Effect::AttackHit {
            attacker_name: c.name.clone(),
            target_name: text(target),
            attack_roll: total,
            target_ac: ac,
            is_critical: crit,
        });
        match (s.damage_dice, rolls.damage) {
            (Some(d), Some(x)) => {
                let doubled = crit && match d {
                    DamageDice::Dice { .. } => true,
                    DamageDice::Flat(_) => false,
                };
                let formula = d.notation(doubled);
                let mut line = String::new();
                push_str(&mut line, "Deals ");
                push_int(&mut line, x as i64);
                push_str(&mut line, " ");
                push_str(&mut line, damage_name(s));
                push_str(&mut line, " damage.");
                parts.push(line);
                let mut purpose = String::new();
                push_str(&mut purpose, s.name.as_str());
                push_str(&mut purpose, " damage");
                effects.push(Effect::DiceRolled {
                    roll: RollResult { expression: formula, total: x, natural_20: false, natural_1: false },
                    purpose,
                });
            },
            _ => {},
        }
    } else {
        parts.push(text("Miss!"));
        effects.push(Effect::AttackMissed {
            attacker_name: c.name.clone(),
            target_name: text(target),
            attack_roll: total,
            target_ac: ac,
        });
    }
    proof {
        assert(ac == named_target_ac(*world, target@));
        assert(strings_view(parts@) =~= attack_lines(*s, t, target@, ac, face, total as int, rolls));
    }
    (parts, effects)
}

fn damage_name(s: &SpellData) -> (r: &'static str)
    ensures
        r@ == damage_word(*s),
{
    match &s.damage_type {
        Some(t) => t.name(),
        None => "magical",
    }
}

fn other_outcome(c: &Character, s: &SpellData, target: &str, spell_mod: i8, rolls: SpellRolls) -> (out: (Vec<String>, Vec<Effect>))
    requires
        spell_mod as int == spell_modifier(*c),
        -100 <= spell_mod <= 100,
    ensures
        strings_view(out.0@) == other_lines(*c, *s, target@, rolls),
        other_effects(out.1@, *c, *s, rolls),
{
    let mut parts: Vec<String> = Vec::new();
    let mut effects: Vec<Effect> = Vec::new();
    match s.save_type {
        Some(ab) => {
            let prof = c.proficiency_bonus();
            let raw: i32 = 8 + spell_mod as i32 + prof as i32;
            let dc: i32 = if raw >= 8 { raw } else { 8 };
            let mut line = String::new();
            push_str(&mut line, "Targets must make a DC ");
            push_int(&mut line, dc as i64);
            push_str(&mut line, " ");
            push_str(&mut line, ab.name());
            push_str(&mut line, " saving throw (");
            match &s.save_effect {
                Some(e) => push_str(&mut line, e.as_str()),
                None => push_str(&mut line, "negates effect"),
            }
            push_str(&mut line, " on success).");
            parts.push(line);
            match (s.damage_dice, rolls.damage) {
                (Some(d), Some(x)) => {
                    let mut line = String::new();
                    push_str(&mut line, "On a failed save: ");
                    push_int(&mut line, x as i64);
                    push_str(&mut line, " ");
                    push_str(&mut line, damage_name(s));
                    push_str(&mut line, " damage.");
                    parts.push(line);
                    let mut purpose = String::new();
                    push_str(&mut purpose, s.name.as_str());
                    push_str(&mut purpose, " damage");
                    effects.push(Effect::DiceRolled {
                        roll: RollResult { expression: d.notation(false), total: x, natural_20: false, natural_1: false },
                        purpose,
                    });
                },
                _ => {},
            }
        },
        None => match (&s.healing_dice, rolls.healing) {
            (Some(h), Some(x)) => {
                let mut formula = String::new();
                push_str(&mut formula, h.as_str());
                push_str(&mut formula, "+");
                push_int(&mut formula, spell_mod as i64);
                let mut line = String::new();
                push_str(&mut line, c.name.as_str());
                push_str(&mut line, " heals ");
                push_str(&mut line, target);
                push_str(&mut line, " for ");
                push_int(&mut line, x as i64);
                push_str(&mut line, " HP.");
                parts.push(line);
                let mut purpose = String::new();
                push_str(&mut purpose, s.name.as_str());
                push_str(&mut purpose, " healing");
                effects.push(Effect::DiceRolled {
                    roll: RollResult { expression: formula, total: x, natural_20: false, natural_1: false },
                    purpose,
                });
            },
            (Some(_), None) => {},
            (None, _) => {
                parts.push(s.description.clone());
            },
        },
    }
    proof {
        assert(strings_view(parts@) =~= other_lines(*c, *s, target@, rolls));
    }
    (parts, effects)
}

impl RulesEngine {
    /// When `resolve_cast_spell` may be called.
    pub open spec fn cast_spell_allowed(
        world: GameWorld,
        _caster_id: CharacterId,
        spell_name: Seq<char>,
        spell: Option<SpellData>,
        slot_level: u8,
        target_names: Seq<String>,
        rolls: SpellRolls,
    ) -> bool {
        &&& 1 <= rolls.attack_d20 <= 20
        &&& spell_modifier_defined(world.player_character)
    }

    /// What `resolve_cast_spell` gives.
    pub open spec fn cast_spell_outcome(
        world: GameWorld,
        _caster_id: CharacterId,
        spell_name: Seq<char>,
        spell: Option<SpellData>,
        slot_level: u8,
        target_names: Seq<String>,
        rolls: SpellRolls,
        r: Resolution,
    ) -> bool {
        &&& ({
                let c = world.player_character;
                match cast_refusal(c, spell_name, spell, slot_level) {
                    Some(refusal) => r.narrative@ =~= refusal && r.effects@.len() == 0,
                    None => {
                        let s = spell->0;
                        let eff = effective_slot(s.level, slot_level);
                        let target = first_target(target_names);
                        let head = seq![c.name@ + " casts "@ + s.name@ + slot_text(s.level, eff) + "!"@]
                            + (if s.concentration { seq!["(Concentration)"@] } else { Seq::empty() });
                        let bonus = spell_modifier(c) + proficiency_for_level(c.level);
                        let face = rolls.attack_d20;
                        let total = face + bonus;
                        let ac = named_target_ac(world, target);
                        let slot_used = s.level > 0;
                        let n = r.effects@.len() - (if slot_used { 1int } else { 0int });
                        let body = r.effects@.take(n);
                        &&& n >= 0
                        &&& slot_used ==> (r.effects@.last() matches Effect::SpellSlotUsed { level, remaining }
                            && level == eff && remaining == 0)
                        &&& match s.attack_type {
                            Some(t) => {
                                &&& r.narrative@ =~= joined(head + attack_lines(s, t, target, ac, face, total, rolls), " "@)
                                &&& attack_effects(body, c, s, t, target, ac, face, total, bonus, rolls)
                            },
                            None => {
                                &&& r.narrative@ =~= joined(head + other_lines(c, s, target, rolls), " "@)
                                &&& other_effects(body, c, s, rolls)
                            },
                        }
                    },
                }
            })
    }

    /// Casts a spell (`None`: not a known spell) with a slot (0: the
    /// spell's own level). Refuses an unknown spell, a slot below the
    /// spell's level, an impossible slot, a used-up slot level and, for
    /// levelled spells, a caster without spellcasting. Otherwise announces
    /// the casting ("upcast" when the slot is above the spell's level),
    /// notes concentration, then makes the spell attack, calls for the
    /// saving throw, heals the first target, or describes the spell; a
    /// levelled spell finally uses one slot of the level cast at.
    #[verifier::rlimit(40)]
    pub fn resolve_cast_spell(
        &self,
        world: &GameWorld,
        _caster_id: CharacterId,
        spell_name: &str,
        spell: Option<SpellData>,
        slot_level: u8,
        target_names: &[String],
        rolls: &SpellRolls,
    ) -> (r: Resolution)
        requires
            Self::cast_spell_allowed(
                *world, _caster_id, spell_name@, spell, slot_level, target_names@, *rolls,
            ),
        ensures
            Self::cast_spell_outcome(
                *world, _caster_id, spell_name@, spell, slot_level, target_names@, *rolls, r,
            ),
    {
        let c = &world.player_character;
        let s = match spell {
            Some(s) => s,
            None => {
                let mut m = String::new();
                push_str(&mut m, "Unknown spell: '");
                push_str(&mut m, spell_name);
                push_str(&mut m, "'. The spell is not in the database.");
                return Resolution::new(m);
            },
        };
        let eff: u8 = if s.level == 0 {
            0
        } else if slot_level == 0 {
            s.level
        } else if slot_level < s.level {
            let mut m = String::new();
            push_str(&mut m, "Cannot cast ");
            push_str(&mut m, s.name.as_str());
            push_str(&mut m, " using a level ");
            push_nat(&mut m, slot_level as u64);
            push_str(&mut m, " slot - requires at least level ");
            push_nat(&mut m, s.level as u64);
            push_str(&mut m, ".");
            return Resolution::new(m);
        } else {
            slot_level
        };
        if s.level > 0 {
            match &c.spellcasting {
                Some(sc) => {
                    if eff > 9 {
                        return Resolution::new(text("Invalid spell slot level."));
                    }
                    if sc.spell_slots.slots[(eff - 1) as usize].available() == 0 {
                        let mut m = String::new();
                        push_str(&mut m, c.name.as_str());
                        push_str(&mut m, " has no level ");
                        push_nat(&mut m, eff as u64);
                        push_str(&mut m, " spell slots remaining!");
                        return Resolution::new(m);
                    }
                },
                None => {
                    let mut m = String::new();
                    push_str(&mut m, c.name.as_str());
                    push_str(&mut m, " doesn't have spellcasting ability!");
                    return Resolution::new(m);
                },
            }
        }
        let spell_mod: i8 = match &c.spellcasting {
            Some(sc) => c.ability_scores.modifier(sc.ability),
            None => 0,
        };
        let bonus: i32 = spell_mod as i32 + c.proficiency_bonus() as i32;
        let target: &str = if target_names.len() > 0 { target_names[0].as_str() } else { "target" };
        let mut parts: Vec<String> = Vec::new();
        let mut first = String::new();
        push_str(&mut first, c.name.as_str());
        push_str(&mut first, " casts ");
        push_str(&mut first, s.name.as_str());
        if s.level > 0 {
            if eff > s.level {
                push_str(&mut first, " (upcast at level ");
                push_nat(&mut first, eff as u64);
                push_str(&mut first, ")");
            } else {
                push_str(&mut first, " (level ");
                push_nat(&mut first, eff as u64);
                push_str(&mut first, " slot)");
            }
        }
        push_str(&mut first, "!");
        assert(first@ =~= c.name@ + " casts "@ + s.name@ + slot_text(s.level, eff) + "!"@);
        parts.push(first);
        if s.concentration {
            parts.push(text("(Concentration)"));
        }
        let ghost head = strings_view(parts@);
        assert(head =~= seq![c.name@ + " casts "@ + s.name@ + slot_text(s.level, eff) + "!"@]
            + (if s.concentration { seq!["(Concentration)"@] } else { Seq::empty() }));
        let (mut more, effects) = match s.attack_type {
            Some(t) => spell_attack(world, &s, t, target, bonus, *rolls),
            None => other_outcome(c, &s, target, spell_mod, *rolls),
        };
        let ghost body = effects@;
        parts.append(&mut more);
        let mut narrative = String::new();
        push_joined(&mut narrative, parts.as_slice(), " ");
        let r = Resolution::new(narrative).with_effects(effects);
        assert(r.effects@ == body);
        let r = if s.level > 0 {
            r.with_effect(Effect::SpellSlotUsed { level: eff, remaining: 0 })
        } else {
            r
        };
        proof {
            assert(spell == Some(s));
            assert(cast_refusal(*c, spell_name@, spell, slot_level) is None);
            assert(eff == effective_slot(s.level, slot_level));
            assert(target@ == first_target(target_names@));
            assert(spell_mod as int == spell_modifier(*c));
            assert(strings_view(parts@) =~= head + (match s.attack_type {
                Some(t) => attack_lines(s, t, first_target(target_names@), named_target_ac(*world, first_target(target_names@)),
                    rolls.attack_d20, rolls.attack_d20 + bonus, *rolls),
                None => other_lines(*c, s, first_target(target_names@), *rolls),
            }));
            if s.level > 0 {
                assert(r.effects@.take(r.effects@.len() - 1) =~= body);
            } else {
                assert(r.effects@.take(r.effects@.len() as int) =~= body);
            }
        }
        r
    }
}

/// A levelled spell cast at slot level L (the spell's own level when no
/// slot is named) is refused, with nothing happening, exactly when no slot
/// of level L is left; slots of other levels do not matter. When one is
/// left, the casting uses a slot of level L.
pub proof fn law_casting_needs_a_slot_of_the_level_used(
    world: GameWorld,
    caster_id: CharacterId,
    spell_name: Seq<char>,
    s: SpellData,
    slot_level: u8,
    target_names: Seq<String>,
    rolls: SpellRolls,
    r: Resolution,
)
    requires
        RulesEngine::cast_spell_outcome(world, caster_id, spell_name, Some(s), slot_level, target_names, rolls, r),
        s.level > 0,
        slot_level == 0 || slot_level >= s.level,
        world.player_character.spellcasting is Some,
        (if slot_level == 0 { s.level } else { slot_level }) <= 9,
    ensures
        ({
            let c = world.player_character;
            let level = if slot_level == 0 { s.level } else { slot_level };
            let left = c.spellcasting.unwrap().spell_slots.slots@[level - 1].spec_available();
            if left == 0 {
                &&& r.effects@.len() == 0
                &&& r.narrative@ == c.name@ + " has no level "@ + nat_text(level as nat) + " spell slots remaining!"@
            } else {
                &&& r.effects@.len() > 0
                &&& r.effects@.last() matches Effect::SpellSlotUsed { level: used, .. } && used == level
            }
        }),
{
}

/// A cantrip never uses a slot; a levelled spell named with a slot below
/// its own level is refused with nothing happening.
pub proof fn law_cantrips_use_no_slot_and_low_slots_are_refused(
    world: GameWorld,
    caster_id: CharacterId,
    spell_name: Seq<char>,
    s: SpellData,
    slot_level: u8,
    target_names: Seq<String>,
    rolls: SpellRolls,
    r: Resolution,
)
    requires
        RulesEngine::cast_spell_outcome(world, caster_id, spell_name, Some(s), slot_level, target_names, rolls, r),
    ensures
        s.level == 0 ==> forall|i: int| 0 <= i < r.effects@.len() ==> !(#[trigger] r.effects@[i] is SpellSlotUsed),
        s.level > 0 && slot_level != 0 && slot_level < s.level ==> r.effects@.len() == 0,
{
    if s.level == 0 {
        let c = world.player_character;
        let target = first_target(target_names);
        let bonus = spell_modifier(c) + proficiency_for_level(c.level);
        let face = rolls.attack_d20;
        assert(r.effects@.take(r.effects@.len() as int) =~= r.effects@);
        match s.attack_type {
            Some(t) => {
                let ac = named_target_ac(world, target);
                assert forall|i: int| 0 <= i < r.effects@.len() implies !(#[trigger] r.effects@[i] is SpellSlotUsed) by {
                    if attack_hits(face as int, face + bonus, ac as int) {
                        assert(r.effects@[1] is AttackHit);
                    }
                }
            },
            None => {},
        }
    }
}

} // verus!
