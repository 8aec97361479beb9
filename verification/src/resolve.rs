//! How the rules engine resolves intents into effects and a narrative line.
//!
//! Where an intent calls for a die roll, the roll is an argument: the
//! resolution is decided for every value it can take.

use vstd::prelude::*;
use crate::conditions::Condition;
use crate::ids::CharacterId;
use crate::rules::{Effect, Resolution, RestType, RulesEngine};
use crate::text::{
    copy_strings, int_text, joined, opt_str_view, opt_view, push_int, push_joined, push_nat,
    push_str, str_eq, strings_view, to_opt_string,
};
use crate::world::{npc_location_name, npc_named, proficiency_for_level, GameWorld};
use crate::rules::StateType;
use crate::abilities::{score_modifier, Ability};
use crate::rules::CombatantInit;
use crate::health::{after_damage, damage_drops_to_zero, healed_current, take_damage_fits, HitPoints};
use crate::rules::DamageType;

verus! {

/// Experience needed for each level, from level 1 to level 20.
pub open spec fn xp_thresholds() -> Seq<u32> {
    seq![0u32, 300, 900, 2700, 6500, 14000, 23000, 34000, 48000, 64000, 85000, 100000, 120000,
        140000, 165000, 195000, 225000, 265000, 305000, 355000]
}

/// One more than the position of the last threshold at or below `i` that
/// `xp` meets (1 when none but the first does).
pub open spec fn level_reached_from(xp: u32, i: int) -> int
    decreases i,
{
    if i <= 0 {
        1
    } else if xp >= xp_thresholds()[i] {
        i + 1
    } else {
        level_reached_from(xp, i - 1)
    }
}

/// The level a total of experience reaches: the highest whose threshold it meets.
pub open spec fn level_for_xp(xp: u32) -> int {
    level_reached_from(xp, 19)
}

/// " (related: a, b)", or nothing when there are no related entities.
pub open spec fn related_text(related: Seq<Seq<char>>) -> Seq<char> {
    if related.len() == 0 { Seq::empty() } else { " (related: "@ + joined(related, ", "@) + ")"@ }
}

/// "+m" for a modifier of zero or more, "m" (with its minus sign) below.
pub open spec fn signed_text(m: i8) -> Seq<char> {
    if m >= 0 { "+"@ + int_text(m as int) } else { int_text(m as int) }
}

/// " for d", or " permanently" when no duration is given.
pub open spec fn duration_text(duration: Option<Seq<char>>) -> Seq<char> {
    match duration {
        Some(d) => " for "@ + d,
        None => " permanently"@,
    }
}

/// Slots of a level available after one is restored, as the character's
/// spell slots show them (zero for a character who does not cast).
pub open spec fn restored_remaining(world: GameWorld, slot_level: u8) -> int {
    match world.player_character.spellcasting {
        Some(sc) => (sc.spell_slots.slots@[slot_level - 1].spec_available() + 1) as int,
        None => 0,
    }
}

/// A list introduced by a label, or nothing when the list is empty.
pub open spec fn listed_text(label: Seq<char>, items: Seq<Seq<char>>) -> Seq<char> {
    if items.len() == 0 { Seq::empty() } else { label + joined(items, ", "@) }
}

/// An optional part written as `before + text + after`, or nothing.
pub open spec fn opt_text(before: Seq<char>, o: Option<Seq<char>>, after: Seq<char>) -> Seq<char> {
    match o {
        Some(t) => before + t + after,
        None => Seq::empty(),
    }
}

/// A number of at most two digits written with two, as `{:02}` does.
pub open spec fn two_digits(n: u8) -> Seq<char> {
    if n < 10 { "0"@ + int_text(n as int) } else { int_text(n as int) }
}

/// Whether a schedule gives a daily time (hour and minute).
pub open spec fn has_daily(daily_hour: Option<u8>, daily_minute: Option<u8>) -> bool {
    daily_hour is Some && daily_minute is Some
}

/// Whether a schedule gives a full date (day, month and year).
pub open spec fn has_date(day: Option<u8>, month: Option<u8>, year: Option<i32>) -> bool {
    day is Some && month is Some && year is Some
}

/// Minutes from now given as minutes and hours.
pub open spec fn relative_minutes(minutes: Option<u32>, hours: Option<u32>) -> int {
    minutes.unwrap_or(0) + hours.unwrap_or(0) * 60
}

/// A time of day, as "hh:mm".
pub open spec fn clock_text(hour: u8, minute: u8) -> Seq<char> {
    two_digits(hour) + ":"@ + two_digits(minute)
}

/// A date, as "on m/d/y", with " at hh:00" when the hour is given.
pub open spec fn date_text(day: u8, month: u8, year: i32, hour: Option<u8>) -> Seq<char> {
    let date = "on "@ + int_text(month as int) + "/"@ + int_text(day as int) + "/"@ + int_text(year as int);
    match hour {
        Some(h) => date + " at "@ + two_digits(h) + ":00"@,
        None => date,
    }
}

/// A span from now: minutes under an hour, hours (and minutes) under a day,
/// else whole days.
pub open spec fn span_text(total: int) -> Seq<char> {
    if total < 60 {
        "in "@ + int_text(total) + " minutes"@
    } else if total < 1440 {
        if total % 60 > 0 {
            "in "@ + int_text(total / 60) + " hours and "@ + int_text(total % 60) + " minutes"@
        } else {
            "in "@ + int_text(total / 60) + " hours"@
        }
    } else {
        "in "@ + int_text(total / 1440) + " days"@
    }
}

/// When a scheduled event fires, in words: daily (or once) at a time of
/// day; on a date, at an hour if given; after a span of minutes, hours or
/// days; or at no time in particular. The first of these that the schedule
/// gives decides.
pub open spec fn schedule_text(
    minutes: Option<u32>,
    hours: Option<u32>,
    day: Option<u8>,
    month: Option<u8>,
    year: Option<i32>,
    hour: Option<u8>,
    daily_hour: Option<u8>,
    daily_minute: Option<u8>,
    repeating: bool,
) -> Seq<char> {
    if has_daily(daily_hour, daily_minute) {
        let clock = clock_text(daily_hour.unwrap(), daily_minute.unwrap());
        if repeating { "daily at "@ + clock } else { "at "@ + clock }
    } else if has_date(day, month, year) {
        date_text(day.unwrap(), month.unwrap(), year.unwrap(), hour)
    } else if minutes is Some || hours is Some {
        span_text(relative_minutes(minutes, hours))
    } else {
        "at an unspecified time"@
    }
}

/// How a visibility shows in the schedule line: private (or secret), hinted,
/// or not at all.
pub open spec fn visibility_note(visibility: Seq<char>) -> Seq<char> {
    if visibility == "private"@ || visibility == "secret"@ {
        " (private)"@
    } else if visibility == "hinted"@ {
        " (hinted)"@
    } else {
        Seq::empty()
    }
}

/// What an NPC update changes, in order.
pub open spec fn npc_change_list(disposition: bool, information: bool, description: bool, personality: bool) -> Seq<Seq<char>> {
    (if disposition { seq!["disposition changed"@] } else { Seq::empty() })
        + (if information { seq!["new information learned"@] } else { Seq::empty() })
        + (if description { seq!["description updated"@] } else { Seq::empty() })
        + (if personality { seq!["personality updated"@] } else { Seq::empty() })
}

/// What an NPC update says changed, joined by commas, or "no changes".
pub open spec fn npc_changes(disposition: bool, information: bool, description: bool, personality: bool) -> Seq<char> {
    let changes = npc_change_list(disposition, information, description, personality);
    if changes.len() == 0 { "no changes"@ } else { joined(changes, ", "@) }
}

/// The line of a state assertion, by the kind of state.
pub open spec fn state_text(
    entity: Seq<char>,
    state_type: StateType,
    value: Seq<char>,
    reason: Seq<char>,
    target: Option<Seq<char>>,
) -> Seq<char> {
    let why = " (reason: "@ + reason + ")"@;
    match state_type {
        StateType::Disposition => entity + "'s disposition is now "@ + value + why,
        StateType::Location => entity + " is now at "@ + value + why,
        StateType::Status => entity + "'s status is now "@ + value + why,
        StateType::Knowledge => entity + " now knows: "@ + value + why,
        StateType::Relationship => match target {
            Some(t) => entity + "'s relationship with "@ + t + " is now "@ + value + why,
            None => entity + "'s relationship status: "@ + value + why,
        },
    }
}

/// What the world held before a state assertion: an NPC's disposition, or
/// the place where the NPC is; nothing for other kinds of state or unknown
/// entities.
pub open spec fn prior_state(world: GameWorld, entity: Seq<char>, state_type: StateType) -> Option<Seq<char>> {
    match npc_named(world, entity) {
        Some(npc) => match state_type {
            StateType::Disposition => Some(npc.disposition.spec_word()),
            StateType::Location => npc_location_name(world, npc),
            _ => None,
        },
        None => None,
    }
}

/// The line of a change of money in a coin ("gp" or "sp"): refused when the
/// purse would go below zero, else gained or spent with the new total.
pub open spec fn coin_text(name: Seq<char>, coin: Seq<char>, word: Seq<char>, held: i32, amount: i32, reason: Seq<char>) -> Seq<char> {
    let total = held + amount;
    if total < 0 {
        name + " doesn't have enough "@ + word + " (has "@ + int_text(held as int) + " "@ + coin + ", needs "@
            + int_text(-amount) + " "@ + coin + ")"@
    } else {
        name + (if amount >= 0 { " gains "@ } else { " spends "@ }) + int_text(if amount >= 0 { amount as int } else { -amount })
            + " "@ + coin + " "@ + reason + " (now has "@ + int_text(total) + " "@ + coin + ")"@
    }
}

/// A change of money stays within `i32`.
pub open spec fn coin_change_fits(held: i32, amount: i32) -> bool {
    amount > i32::MIN && i32::MIN <= held + amount <= i32::MAX
}

/// The characters of objective descriptions, with their optional flags.
pub open spec fn objectives_view(v: Seq<(String, bool)>) -> Seq<(Seq<char>, bool)> {
    v.map_values(|p: (String, bool)| (p.0@, p.1))
}

fn copy_objectives(v: &[(String, bool)]) -> (r: Vec<(String, bool)>)
    ensures
        objectives_view(r@) == objectives_view(v@),
{
    let mut r: Vec<(String, bool)> = Vec::new();
    let mut i: usize = 0;
    while i < v.len()
        invariant
            0 <= i <= v@.len(),
            r@.len() == i,
            forall|j: int| 0 <= j < i ==> #[trigger] r@[j].0@ == v@[j].0@ && r@[j].1 == v@[j].1,
        decreases v@.len() - i,
    {
        let (name, optional) = &v[i];
        r.push((name.clone(), *optional));
        i = i + 1;
    }
    assert(objectives_view(r@) =~= objectives_view(v@));
    r
}

/// Text of a span of minutes: hours and minutes, hours, or minutes.
pub open spec fn time_span_text(minutes: u32) -> Seq<char> {
    let hours = minutes / 60;
    let mins = minutes % 60;
    if hours > 0 && mins > 0 {
        int_text(hours as int) + " hours and "@ + int_text(mins as int) + " minutes"@
    } else if hours > 0 {
        int_text(hours as int) + " hours"@
    } else {
        int_text(mins as int) + " minutes"@
    }
}

/// What a condition being applied says: who, which condition, from what, and
/// for how many rounds if that is known.
pub open spec fn condition_applied_text(name: Seq<char>, condition: Condition, source: Seq<char>, rounds: Option<u32>) -> Seq<char> {
    name + " is now "@ + condition.spec_name() + " ("@ + source + ")"@ + match rounds {
        Some(d) => " for "@ + int_text(d as int) + " rounds"@,
        None => Seq::empty(),
    }
}


/// The effect that a creature died, with its cause.
pub open spec fn is_died(e: Effect, id: CharacterId, cause: Seq<char>) -> bool {
    e matches Effect::CharacterDied { target_id, cause: c } && target_id == id && c@ == cause
}

/// The effect of failed death saves.
pub open spec fn is_death_save_failure(e: Effect, id: CharacterId, failures: u8, total: int, source: Seq<char>) -> bool {
    e matches Effect::DeathSaveFailure { target_id, failures: f, total_failures: t, source: s }
        && target_id == id && f == failures && t == total && s@ == source
}

/// `a / b` rounded toward zero, as integer division does in Rust.
pub open spec fn trunc_div(a: int, b: int) -> int {
    if a >= 0 { a / b } else { -((-a) / b) }
}

/// "c/m" of hit points.
pub open spec fn hp_fraction(current: int, maximum: int) -> Seq<char> {
    int_text(current) + "/"@ + int_text(maximum)
}

/// How a hit leaves a creature that was standing: dead outright, down, badly
/// hurt (a quarter of its maximum or less), bloodied (half or less), or fine.
pub open spec fn hp_status_text(after: HitPoints, dropped: bool, instant_death: bool, overflow: int) -> Seq<char> {
    if instant_death {
        " (INSTANT DEATH! Massive damage ("@ + int_text(overflow) + " overflow) exceeds max HP of "@
            + int_text(after.maximum as int) + ")"@
    } else if dropped {
        " (HP: 0/"@ + int_text(after.maximum as int)
            + " - UNCONSCIOUS! Character falls and begins making death saving throws)"@
    } else if after.current <= trunc_div(after.maximum as int, 4) {
        " (HP: "@ + hp_fraction(after.current as int, after.maximum as int) + " - critically wounded)"@
    } else if after.current <= trunc_div(after.maximum as int, 2) {
        " (HP: "@ + hp_fraction(after.current as int, after.maximum as int) + " - bloodied)"@
    } else {
        " (HP: "@ + hp_fraction(after.current as int, after.maximum as int) + ")"@
    }
}

/// Damage beyond what the creature had left when a hit drops it.
pub open spec fn damage_overflow(hp: HitPoints, amount: i32) -> int {
    if damage_drops_to_zero(hp, amount) { amount - (hp.current + hp.temporary) } else { 0 }
}

/// Whether `resolve_damage` stays within `i32` and `u8` on this target.
pub open spec fn damage_fits(hp: HitPoints, failures: u8, amount: i32) -> bool {
    if hp.current <= 0 {
        failures < 255
    } else {
        &&& take_damage_fits(hp, amount)
        &&& amount > i32::MIN
        &&& damage_drops_to_zero(hp, amount) ==> i32::MIN <= hp.current + hp.temporary <= i32::MAX
            && i32::MIN <= amount - (hp.current + hp.temporary) <= i32::MAX
    }
}

/// "{name} takes {amount} {type} damage from {source}".
pub open spec fn takes_damage_text(name: Seq<char>, amount: i32, damage_type: DamageType, source: Seq<char>) -> Seq<char> {
    name + " takes "@ + int_text(amount as int) + " "@ + damage_type.spec_name() + " damage from "@ + source
}

/// How healing leaves a creature: back on its feet, at full health, or with
/// its new hit points.
pub open spec fn heal_status_text(was_unconscious: bool, current: int, maximum: int) -> Seq<char> {
    if was_unconscious && current > 0 {
        " (HP: "@ + hp_fraction(current, maximum) + " - regains consciousness!)"@
    } else if current == maximum {
        " (HP: "@ + hp_fraction(current, maximum) + " - fully healed)"@
    } else {
        " (HP: "@ + hp_fraction(current, maximum) + ")"@
    }
}

fn push_takes_damage(s: &mut String, name: &str, amount: i32, damage_type: DamageType, source: &str)
    ensures
        final(s)@ == old(s)@ + takes_damage_text(name@, amount, damage_type, source@),
{
    push_str(s, name);
    push_str(s, " takes ");
    push_int(s, amount as i64);
    push_str(s, " ");
    push_str(s, damage_type.name());
    push_str(s, " damage from ");
    push_str(s, source);
}

fn push_hp_fraction(s: &mut String, current: i32, maximum: i32)
    ensures
        final(s)@ == old(s)@ + hp_fraction(current as int, maximum as int),
{
    push_int(s, current as i64);
    push_str(s, "/");
    push_int(s, maximum as i64);
}

fn trunc_div_i32(a: i32, b: i32) -> (r: i32)
    requires
        b > 0,
    ensures
        r == trunc_div(a as int, b as int),
{
    let wide: i64 = a as i64;
    if wide >= 0 {
        (wide / (b as i64)) as i32
    } else {
        (-((-wide) / (b as i64))) as i32
    }
}


/// The effect of a successful death save.
pub open spec fn is_death_save_success(e: Effect, id: CharacterId, roll: i32, total: int) -> bool {
    e == (Effect::DeathSaveSuccess { target_id: id, roll, total_successes: total as u8 }) && 0 <= total <= 255
}

/// Whether `resolve_death_save` stays within `u8` for these saves.
pub open spec fn death_save_fits(successes: u8, failures: u8) -> bool {
    successes < 255 && failures < 254
}

/// The save a concentration check needs: half the damage (rounded toward
/// zero), at least 10.
pub open spec fn concentration_dc(damage_taken: i32) -> int {
    let half = trunc_div(damage_taken as int, 2);
    if half > 10 { half } else { 10 }
}

/// The bonus to a concentration save: the Constitution modifier, plus the
/// proficiency bonus when proficient in Constitution saves.
pub open spec fn concentration_bonus(world: GameWorld) -> int {
    let c = world.player_character;
    let con = score_modifier(c.ability_scores.constitution);
    if c.saving_throw_proficiencies@.contains(Ability::Constitution) {
        con + proficiency_for_level(c.level)
    } else {
        con
    }
}

/// The initiative modifier of a creature entering a fight: the player
/// character's own, anyone else's as given.
pub open spec fn init_modifier(world: GameWorld, init: CombatantInit) -> int {
    if init.is_player { score_modifier(world.player_character.ability_scores.dexterity) } else { init.initiative_modifier as int }
}

/// The two effects of a creature entering a fight with initiative roll `roll`.
pub open spec fn entered_combat(world: GameWorld, init: CombatantInit, roll: i32, rolled: Effect, added: Effect) -> bool {
    let total = roll + init_modifier(world, init);
    &&& rolled matches Effect::InitiativeRolled { character_id, name, roll: x, total: t }
        && character_id == init.id && name@ == init.name@ && x == roll && t == total
    &&& added matches Effect::CombatantAdded { id, name, initiative, is_ally, current_hp, max_hp, armor_class }
        && id == init.id && name@ == init.name@ && initiative == total && is_ally == init.is_ally
        && current_hp == init.current_hp && max_hp == init.max_hp && armor_class == init.armor_class
}

fn push_two_digits(s: &mut String, n: u8)
    ensures
        final(s)@ == old(s)@ + two_digits(n),
{
    if n < 10 {
        push_str(s, "0");
    }
    push_nat(s, n as u64);
}

fn push_listed(s: &mut String, label: &str, items: &[String])
    ensures
        final(s)@ == old(s)@ + listed_text(label@, strings_view(items@)),
{
    if items.len() > 0 {
        push_str(s, label);
        push_joined(s, items, ", ");
    } else {
        assert(old(s)@ + listed_text(label@, strings_view(items@)) =~= old(s)@);
    }
}

fn push_opt(s: &mut String, before: &str, o: Option<&str>, after: &str)
    ensures
        final(s)@ == old(s)@ + opt_text(before@, opt_str_view(o), after@),
{
    match o {
        Some(t) => {
            push_str(s, before);
            push_str(s, t);
            push_str(s, after);
        },
        None => {
            assert(old(s)@ + opt_text(before@, opt_str_view(o), after@) =~= old(s)@);
        },
    }
}

fn push_clock(s: &mut String, hour: u8, minute: u8)
    ensures
        final(s)@ == old(s)@ + clock_text(hour, minute),
{
    push_two_digits(s, hour);
    push_str(s, ":");
    push_two_digits(s, minute);
}

fn push_date(s: &mut String, day: u8, month: u8, year: i32, hour: Option<u8>)
    ensures
        final(s)@ == old(s)@ + date_text(day, month, year, hour),
{
    push_str(s, "on ");
    push_nat(s, month as u64);
    push_str(s, "/");
    push_nat(s, day as u64);
    push_str(s, "/");
    push_int(s, year as i64);
    match hour {
        Some(h) => {
            push_str(s, " at ");
            push_two_digits(s, h);
            push_str(s, ":00");
        },
        None => {},
    }
}

fn push_span(s: &mut String, total: u32)
    ensures
        final(s)@ == old(s)@ + span_text(total as int),
{
    push_str(s, "in ");
    if total < 60 {
        push_nat(s, total as u64);
        push_str(s, " minutes");
    } else if total < 1440 {
        push_nat(s, (total / 60) as u64);
        if total % 60 > 0 {
            push_str(s, " hours and ");
            push_nat(s, (total % 60) as u64);
            push_str(s, " minutes");
        } else {
            push_str(s, " hours");
        }
    } else {
        push_nat(s, (total / 1440) as u64);
        push_str(s, " days");
    }
}

fn push_schedule_text(
    s: &mut String,
    minutes: Option<u32>,
    hours: Option<u32>,
    day: Option<u8>,
    month: Option<u8>,
    year: Option<i32>,
    hour: Option<u8>,
    daily_hour: Option<u8>,
    daily_minute: Option<u8>,
    repeating: bool,
)
    requires
        !has_daily(daily_hour, daily_minute) && !has_date(day, month, year)
            ==> relative_minutes(minutes, hours) <= u32::MAX,
    ensures
        final(s)@ == old(s)@ + schedule_text(minutes, hours, day, month, year, hour, daily_hour, daily_minute, repeating),
{
    if let (Some(dh), Some(dm)) = (daily_hour, daily_minute) {
        if repeating {
            push_str(s, "daily at ");
        } else {
            push_str(s, "at ");
        }
        push_clock(s, dh, dm);
    } else if let (Some(d), Some(m), Some(y)) = (day, month, year) {
        push_date(s, d, m, y, hour);
    } else if minutes.is_some() || hours.is_some() {
        let m: u32 = match minutes { Some(x) => x, None => 0 };
        let h: u32 = match hours { Some(x) => x, None => 0 };
        push_span(s, m + h * 60);
    } else {
        push_str(s, "at an unspecified time");
    }
}

fn push_coin_text(s: &mut String, name: &str, coin: &str, word: &str, held: i32, amount: i32, reason: &str)
    requires
        coin_change_fits(held, amount),
    ensures
        final(s)@ == old(s)@ + coin_text(name@, coin@, word@, held, amount, reason@),
{
    let total = held + amount;
    push_str(s, name);
    if total < 0 {
        push_str(s, " doesn't have enough ");
        push_str(s, word);
        push_str(s, " (has ");
        push_int(s, held as i64);
        push_str(s, " ");
        push_str(s, coin);
        push_str(s, ", needs ");
        push_int(s, -(amount as i64));
        push_str(s, " ");
        push_str(s, coin);
        push_str(s, ")");
    } else {
        push_str(s, if amount >= 0 { " gains " } else { " spends " });
        push_int(s, if amount >= 0 { amount as i64 } else { -(amount as i64) });
        push_str(s, " ");
        push_str(s, coin);
        push_str(s, " ");
        push_str(s, reason);
        push_str(s, " (now has ");
        push_int(s, total as i64);
        push_str(s, " ");
        push_str(s, coin);
        push_str(s, ")");
    }
}

impl RulesEngine {
    /// What `resolve_short_rest` gives.
    pub open spec fn short_rest_outcome(world: GameWorld, r: Resolution) -> bool {
        &&& world.combat is Some ==> r.narrative@ =~= "Cannot take a short rest while in combat!"@
                && r.effects@.len() == 0
        &&& world.combat is None ==> r.narrative@ =~= "The party takes a short rest, spending 1 hour resting."@
                && r.effects@ =~= seq![Effect::TimeAdvanced { minutes: 60 }, Effect::RestCompleted { rest_type: RestType::Short }]
    }

    /// A short rest takes an hour; not during a fight.
    pub fn resolve_short_rest(&self, world: &GameWorld) -> (r: Resolution)
        ensures
            Self::short_rest_outcome(*world, r),
    {
        if world.combat.is_some() {
            return Resolution::new(String::from_str("Cannot take a short rest while in combat!"));
        }
        Resolution::new(String::from_str("The party takes a short rest, spending 1 hour resting."))
            .with_effect(Effect::TimeAdvanced { minutes: 60 })
            .with_effect(Effect::RestCompleted { rest_type: RestType::Short })
    }

    /// What `resolve_long_rest` gives.
    pub open spec fn long_rest_outcome(world: GameWorld, r: Resolution) -> bool {
        &&& world.combat is Some ==> r.narrative@ =~= "Cannot take a long rest while in combat!"@
                && r.effects@.len() == 0
        &&& world.combat is None ==> r.narrative@ =~= "The party takes a long rest, spending 8 hours resting."@
                && r.effects@ =~= seq![Effect::TimeAdvanced { minutes: 480 }, Effect::RestCompleted { rest_type: RestType::Long }]
    }

    /// A long rest takes eight hours; not during a fight.
    pub fn resolve_long_rest(&self, world: &GameWorld) -> (r: Resolution)
        ensures
            Self::long_rest_outcome(*world, r),
    {
        if world.combat.is_some() {
            return Resolution::new(String::from_str("Cannot take a long rest while in combat!"));
        }
        Resolution::new(String::from_str("The party takes a long rest, spending 8 hours resting."))
            .with_effect(Effect::TimeAdvanced { minutes: 480 })
            .with_effect(Effect::RestCompleted { rest_type: RestType::Long })
    }

    /// What `resolve_advance_time` gives.
    pub open spec fn advance_time_outcome(minutes: u32, r: Resolution) -> bool {
        &&& r.narrative@ =~= time_span_text(minutes) + " pass."@
        &&& r.effects@ =~= seq![Effect::TimeAdvanced { minutes }]
    }

    /// Time passes.
    pub fn resolve_advance_time(&self, minutes: u32) -> (r: Resolution)
        ensures
            Self::advance_time_outcome(minutes, r),
    {
        let hours = minutes / 60;
        let mins = minutes % 60;
        let mut s = String::new();
        if hours > 0 && mins > 0 {
            push_nat(&mut s, hours as u64);
            push_str(&mut s, " hours and ");
            push_nat(&mut s, mins as u64);
            push_str(&mut s, " minutes");
        } else if hours > 0 {
            push_nat(&mut s, hours as u64);
            push_str(&mut s, " hours");
        } else {
            push_nat(&mut s, mins as u64);
            push_str(&mut s, " minutes");
        }
        push_str(&mut s, " pass.");
        Resolution::new(s).with_effect(Effect::TimeAdvanced { minutes })
    }

    /// What `resolve_apply_condition` gives.
    pub open spec fn apply_condition_outcome(
        world: GameWorld,
        target_id: CharacterId,
        condition: Condition,
        source: Seq<char>,
        duration_rounds: Option<u32>,
        r: Resolution,
    ) -> bool {
        &&& r.narrative@ =~= condition_applied_text(world.player_character.name@, condition, source, duration_rounds)
        &&& r.effects@.len() == 1
        &&& r.effects@[0] matches Effect::ConditionApplied { target_id: t, condition: c, source: s, duration_rounds: d }
                && t == target_id && c == condition && s@ =~= source && d == duration_rounds
    }

    /// A condition is applied to the player character.
    pub fn resolve_apply_condition(
        &self,
        world: &GameWorld,
        target_id: CharacterId,
        condition: Condition,
        source: &str,
        duration_rounds: Option<u32>,
    ) -> (r: Resolution)
        ensures
            Self::apply_condition_outcome(*world, target_id, condition, source@, duration_rounds, r),
    {
        let mut s = String::new();
        push_str(&mut s, world.player_character.name.as_str());
        push_str(&mut s, " is now ");
        push_str(&mut s, condition.name());
        push_str(&mut s, " (");
        push_str(&mut s, source);
        push_str(&mut s, ")");
        match duration_rounds {
            Some(d) => {
                push_str(&mut s, " for ");
                push_nat(&mut s, d as u64);
                push_str(&mut s, " rounds");
            },
            None => {},
        }
        Resolution::new(s).with_effect(Effect::ConditionApplied {
            target_id,
            condition,
            source: String::from_str(source),
            duration_rounds,
        })
    }

    /// What `resolve_remove_condition` gives.
    pub open spec fn remove_condition_outcome(
        world: GameWorld,
        target_id: CharacterId,
        condition: Condition,
        r: Resolution,
    ) -> bool {
        &&& r.narrative@ =~= world.player_character.name@ + " is no longer "@ + condition.spec_name()
        &&& r.effects@ =~= seq![Effect::ConditionRemoved { target_id, condition }]
    }

    /// A condition ends on the player character.
    pub fn resolve_remove_condition(&self, world: &GameWorld, target_id: CharacterId, condition: Condition) -> (r: Resolution)
        ensures
            Self::remove_condition_outcome(*world, target_id, condition, r),
    {
        let mut s = String::new();
        push_str(&mut s, world.player_character.name.as_str());
        push_str(&mut s, " is no longer ");
        push_str(&mut s, condition.name());
        Resolution::new(s).with_effect(Effect::ConditionRemoved { target_id, condition })
    }

    /// When `resolve_damage` may be called.
    pub open spec fn damage_allowed(
        world: GameWorld,
        target_id: CharacterId,
        amount: i32,
        damage_type: DamageType,
        source: Seq<char>,
    ) -> bool {
        &&& damage_fits(world.player_character.hit_points, world.player_character.death_saves.failures, amount)
    }

    /// What `resolve_damage` gives.
    pub open spec fn damage_outcome(
        world: GameWorld,
        target_id: CharacterId,
        amount: i32,
        damage_type: DamageType,
        source: Seq<char>,
        r: Resolution,
    ) -> bool {
        &&& ({
                let c = world.player_character;
                let hp = c.hit_points;
                let head = takes_damage_text(c.name@, amount, damage_type, source);
                let failures = c.death_saves.failures + 1;
                if hp.current <= 0 {
                    if amount >= hp.maximum {
                        &&& r.narrative@ =~= head + " while unconscious - INSTANT DEATH! (Damage "@ + int_text(amount as int)
                            + " >= max HP "@ + int_text(hp.maximum as int) + ")"@
                        &&& r.effects@.len() == 1
                        &&& is_died(r.effects@[0], target_id, "Massive damage while unconscious from "@ + source)
                    } else if failures >= 3 {
                        &&& r.narrative@ =~= head + " while unconscious - death save failure! Total failures: 3 - "@ + c.name@ + " DIES!"@
                        &&& r.effects@.len() == 2
                        &&& is_death_save_failure(r.effects@[0], target_id, 1, failures, source)
                        &&& is_died(r.effects@[1], target_id, "Failed 3 death saving throws"@)
                    } else {
                        &&& r.narrative@ =~= head + " while unconscious - death save failure! (Failures: "@ + int_text(failures) + "/3)"@
                        &&& r.effects@.len() == 1
                        &&& is_death_save_failure(r.effects@[0], target_id, 1, failures, source)
                    }
                } else {
                    let after = after_damage(hp, amount);
                    let dropped = damage_drops_to_zero(hp, amount);
                    let overflow = damage_overflow(hp, amount);
                    let instant_death = dropped && overflow >= after.maximum;
                    &&& r.narrative@ =~= head + hp_status_text(after, dropped, instant_death, overflow)
                    &&& r.effects@.len() == if instant_death { 2int } else { 1int }
                    &&& r.effects@[0] == (Effect::HpChanged {
                        target_id,
                        amount: -amount as i32,
                        new_current: after.current,
                        new_max: after.maximum,
                        dropped_to_zero: dropped,
                    })
                    &&& instant_death ==> is_died(r.effects@[1], target_id, "Massive damage from "@ + source)
                }
            })
    }

    /// The player character takes damage. At zero hit points any damage is a
    /// failed death save, and damage of at least the maximum kills outright;
    /// otherwise temporary hit points soak it first, and a hit that drops the
    /// character with overflow of at least the maximum also kills.
    pub fn resolve_damage(
        &self,
        world: &GameWorld,
        target_id: CharacterId,
        amount: i32,
        damage_type: DamageType,
        source: &str,
    ) -> (r: Resolution)
        requires
            Self::damage_allowed(*world, target_id, amount, damage_type, source@),
        ensures
            Self::damage_outcome(*world, target_id, amount, damage_type, source@, r),
    {
        let target = &world.player_character;
        if target.hit_points.current <= 0 {
            if amount >= target.hit_points.maximum {
                let mut s = String::new();
                push_takes_damage(&mut s, target.name.as_str(), amount, damage_type, source);
                push_str(&mut s, " while unconscious - INSTANT DEATH! (Damage ");
                push_int(&mut s, amount as i64);
                push_str(&mut s, " >= max HP ");
                push_int(&mut s, target.hit_points.maximum as i64);
                push_str(&mut s, ")");
                let mut cause = String::from_str("Massive damage while unconscious from ");
                push_str(&mut cause, source);
                return Resolution::new(s).with_effect(Effect::CharacterDied { target_id, cause });
            }
            let new_failures: u8 = target.death_saves.failures + 1;
            if new_failures >= 3 {
                let mut s = String::new();
                push_takes_damage(&mut s, target.name.as_str(), amount, damage_type, source);
                push_str(&mut s, " while unconscious - death save failure! Total failures: 3 - ");
                push_str(&mut s, target.name.as_str());
                push_str(&mut s, " DIES!");
                return Resolution::new(s)
                    .with_effect(Effect::DeathSaveFailure {
                        target_id,
                        failures: 1,
                        total_failures: new_failures,
                        source: String::from_str(source),
                    })
                    .with_effect(Effect::CharacterDied {
                        target_id,
                        cause: String::from_str("Failed 3 death saving throws"),
                    });
            }
            let mut s = String::new();
            push_takes_damage(&mut s, target.name.as_str(), amount, damage_type, source);
            push_str(&mut s, " while unconscious - death save failure! (Failures: ");
            push_nat(&mut s, new_failures as u64);
            push_str(&mut s, "/3)");
            return Resolution::new(s).with_effect(Effect::DeathSaveFailure {
                target_id,
                failures: 1,
                total_failures: new_failures,
                source: String::from_str(source),
            });
        }
        let mut hp = target.hit_points;
        let result = hp.take_damage(amount);
        let overflow_damage: i32 = if result.dropped_to_zero {
            amount - (target.hit_points.current + target.hit_points.temporary)
        } else {
            0
        };
        let instant_death = result.dropped_to_zero && overflow_damage >= hp.maximum;
        let mut s = String::new();
        push_takes_damage(&mut s, target.name.as_str(), amount, damage_type, source);
        if instant_death {
            push_str(&mut s, " (INSTANT DEATH! Massive damage (");
            push_int(&mut s, overflow_damage as i64);
            push_str(&mut s, " overflow) exceeds max HP of ");
            push_int(&mut s, hp.maximum as i64);
            push_str(&mut s, ")");
        } else if result.dropped_to_zero {
            push_str(&mut s, " (HP: 0/");
            push_int(&mut s, hp.maximum as i64);
            push_str(&mut s, " - UNCONSCIOUS! Character falls and begins making death saving throws)");
        } else if hp.current <= trunc_div_i32(hp.maximum, 4) {
            push_str(&mut s, " (HP: ");
            push_hp_fraction(&mut s, hp.current, hp.maximum);
            push_str(&mut s, " - critically wounded)");
        } else if hp.current <= trunc_div_i32(hp.maximum, 2) {
            push_str(&mut s, " (HP: ");
            push_hp_fraction(&mut s, hp.current, hp.maximum);
            push_str(&mut s, " - bloodied)");
        } else {
            push_str(&mut s, " (HP: ");
            push_hp_fraction(&mut s, hp.current, hp.maximum);
            push_str(&mut s, ")");
        }
        let mut resolution = Resolution::new(s).with_effect(Effect::HpChanged {
            target_id,
            amount: -amount,
            new_current: hp.current,
            new_max: hp.maximum,
            dropped_to_zero: result.dropped_to_zero,
        });
        if instant_death {
            let mut cause = String::from_str("Massive damage from ");
            push_str(&mut cause, source);
            resolution = resolution.with_effect(Effect::CharacterDied { target_id, cause });
        }
        resolution
    }

    /// When `resolve_heal` may be called.
    pub open spec fn heal_allowed(
        world: GameWorld,
        target_id: CharacterId,
        amount: i32,
        source: Seq<char>,
    ) -> bool {
        &&& i32::MIN <= world.player_character.hit_points.current + amount <= i32::MAX
        &&& i32::MIN <= healed_current(world.player_character.hit_points, amount)
                - world.player_character.hit_points.current <= i32::MAX
    }

    /// What `resolve_heal` gives.
    pub open spec fn heal_outcome(
        world: GameWorld,
        target_id: CharacterId,
        amount: i32,
        source: Seq<char>,
        r: Resolution,
    ) -> bool {
        &&& ({
                let c = world.player_character;
                let hp = c.hit_points;
                let now = healed_current(hp, amount);
                let healed = now - hp.current;
                &&& r.narrative@ =~= c.name@ + " heals "@ + int_text(healed) + " hit points from "@ + source
                    + heal_status_text(hp.current <= 0, now, hp.maximum as int)
                &&& r.effects@ =~= seq![Effect::HpChanged {
                    target_id,
                    amount: healed as i32,
                    new_current: now as i32,
                    new_max: hp.maximum,
                    dropped_to_zero: false,
                }]
            })
    }

    /// The player character heals, up to the maximum.
    pub fn resolve_heal(&self, world: &GameWorld, target_id: CharacterId, amount: i32, source: &str) -> (r: Resolution)
        requires
            Self::heal_allowed(*world, target_id, amount, source@),
        ensures
            Self::heal_outcome(*world, target_id, amount, source@, r),
    {
        let target = &world.player_character;
        let mut hp = target.hit_points;
        let was_unconscious = hp.current <= 0;
        let healed = hp.heal(amount);
        let mut s = String::new();
        push_str(&mut s, target.name.as_str());
        push_str(&mut s, " heals ");
        push_int(&mut s, healed as i64);
        push_str(&mut s, " hit points from ");
        push_str(&mut s, source);
        push_str(&mut s, " (HP: ");
        push_hp_fraction(&mut s, hp.current, hp.maximum);
        if was_unconscious && hp.current > 0 {
            push_str(&mut s, " - regains consciousness!)");
        } else if hp.current == hp.maximum {
            push_str(&mut s, " - fully healed)");
        } else {
            push_str(&mut s, ")");
        }
        Resolution::new(s).with_effect(Effect::HpChanged {
            target_id,
            amount: healed,
            new_current: hp.current,
            new_max: hp.maximum,
            dropped_to_zero: false,
        })
    }

    /// When `resolve_death_save` may be called.
    pub open spec fn death_save_allowed(world: GameWorld, character_id: CharacterId, roll: i32) -> bool {
        &&& 1 <= roll <= 20
        &&& death_save_fits(world.player_character.death_saves.successes, world.player_character.death_saves.failures)
    }

    /// What `resolve_death_save` gives.
    pub open spec fn death_save_outcome(
        world: GameWorld,
        character_id: CharacterId,
        roll: i32,
        r: Resolution,
    ) -> bool {
        &&& ({
                let c = world.player_character;
                let name = c.name@;
                let saves = c.death_saves;
                if c.hit_points.current > 0 {
                    &&& r.narrative@ =~= name + " is not dying and doesn't need to make a death save."@
                    &&& r.effects@.len() == 0
                } else if roll == 20 {
                    &&& r.narrative@ =~= name
                        + " rolls a NATURAL 20 on their death save! They regain 1 HP and become conscious!"@
                    &&& r.effects@ =~= seq![
                        Effect::DeathSavesReset { target_id: character_id },
                        Effect::HpChanged {
                            target_id: character_id,
                            amount: 1,
                            new_current: 1,
                            new_max: c.hit_points.maximum,
                            dropped_to_zero: false,
                        },
                        Effect::ConditionRemoved { target_id: character_id, condition: Condition::Unconscious },
                    ]
                } else if roll == 1 {
                    let failures = saves.failures + 2;
                    if failures >= 3 {
                        &&& r.narrative@ =~= name + " rolls a NATURAL 1 on their death save! Two failures! "@ + name + " has died!"@
                        &&& r.effects@.len() == 2
                        &&& is_death_save_failure(r.effects@[0], character_id, 2, if failures < 3 { failures } else { 3 }, "Natural 1 on death save"@)
                        &&& is_died(r.effects@[1], character_id, "Failed death saves"@)
                    } else {
                        &&& r.narrative@ =~= name + " rolls a NATURAL 1 on their death save! That counts as TWO failures! ("@
                            + int_text(failures) + "/3)"@
                        &&& r.effects@.len() == 1
                        &&& is_death_save_failure(r.effects@[0], character_id, 2, failures, "Natural 1 on death save"@)
                    }
                } else if roll >= 10 {
                    let successes = saves.successes + 1;
                    if successes >= 3 {
                        &&& r.narrative@ =~= name + " rolls "@ + int_text(roll as int)
                            + " on their death save - SUCCESS! With 3 successes, "@ + name + " is now STABLE!"@
                        &&& r.effects@ =~= seq![
                            Effect::DeathSaveSuccess { target_id: character_id, roll, total_successes: 3 },
                            Effect::Stabilized { target_id: character_id },
                        ]
                    } else {
                        &&& r.narrative@ =~= name + " rolls "@ + int_text(roll as int) + " on their death save - SUCCESS! ("@
                            + int_text(successes) + "/3 successes)"@
                        &&& r.effects@.len() == 1
                        &&& is_death_save_success(r.effects@[0], character_id, roll, successes)
                    }
                } else {
                    let failures = saves.failures + 1;
                    if failures >= 3 {
                        &&& r.narrative@ =~= name + " rolls "@ + int_text(roll as int)
                            + " on their death save - FAILURE! With 3 failures, "@ + name + " has DIED!"@
                        &&& r.effects@.len() == 2
                        &&& is_death_save_failure(r.effects@[0], character_id, 1, 3, "Death save"@)
                        &&& is_died(r.effects@[1], character_id, "Failed death saves"@)
                    } else {
                        &&& r.narrative@ =~= name + " rolls "@ + int_text(roll as int) + " on their death save - FAILURE! ("@
                            + int_text(failures) + "/3 failures)"@
                        &&& r.effects@.len() == 1
                        &&& is_death_save_failure(r.effects@[0], character_id, 1, failures, "Death save"@)
                    }
                }
            })
    }

    /// A death saving throw with the d20 showing `roll`. Only a character at
    /// zero hit points makes one. A natural 20 brings it back with 1 hit point;
    /// a natural 1 counts as two failures; otherwise 10 or more succeeds.
    /// Three successes stabilize, three failures kill.
    pub fn resolve_death_save(&self, world: &GameWorld, character_id: CharacterId, roll: i32) -> (r: Resolution)
        requires
            Self::death_save_allowed(*world, character_id, roll),
        ensures
            Self::death_save_outcome(*world, character_id, roll, r),
    {
        let character = &world.player_character;
        let name = character.name.as_str();
        if character.hit_points.current > 0 {
            let mut s = String::from_str(name);
            push_str(&mut s, " is not dying and doesn't need to make a death save.");
            return Resolution::new(s);
        }
        if roll == 20 {
            let mut s = String::from_str(name);
            push_str(&mut s, " rolls a NATURAL 20 on their death save! They regain 1 HP and become conscious!");
            return Resolution::new(s)
                .with_effect(Effect::DeathSavesReset { target_id: character_id })
                .with_effect(Effect::HpChanged {
                    target_id: character_id,
                    amount: 1,
                    new_current: 1,
                    new_max: character.hit_points.maximum,
                    dropped_to_zero: false,
                })
                .with_effect(Effect::ConditionRemoved { target_id: character_id, condition: Condition::Unconscious });
        }
        if roll == 1 {
            let new_failures: u8 = character.death_saves.failures + 2;
            if new_failures >= 3 {
                let mut s = String::from_str(name);
                push_str(&mut s, " rolls a NATURAL 1 on their death save! Two failures! ");
                push_str(&mut s, name);
                push_str(&mut s, " has died!");
                let capped: u8 = if new_failures < 3 { new_failures } else { 3 };
                return Resolution::new(s)
                    .with_effect(Effect::DeathSaveFailure {
                        target_id: character_id,
                        failures: 2,
                        total_failures: capped,
                        source: String::from_str("Natural 1 on death save"),
                    })
                    .with_effect(Effect::CharacterDied {
                        target_id: character_id,
                        cause: String::from_str("Failed death saves"),
                    });
            } else {
                let mut s = String::from_str(name);
                push_str(&mut s, " rolls a NATURAL 1 on their death save! That counts as TWO failures! (");
                push_nat(&mut s, new_failures as u64);
                push_str(&mut s, "/3)");
                return Resolution::new(s).with_effect(Effect::DeathSaveFailure {
                    target_id: character_id,
                    failures: 2,
                    total_failures: new_failures,
                    source: String::from_str("Natural 1 on death save"),
                });
            }
        }
        if roll >= 10 {
            let new_successes: u8 = character.death_saves.successes + 1;
            let mut s = String::from_str(name);
            push_str(&mut s, " rolls ");
            push_int(&mut s, roll as i64);
            if new_successes >= 3 {
                push_str(&mut s, " on their death save - SUCCESS! With 3 successes, ");
                push_str(&mut s, name);
                push_str(&mut s, " is now STABLE!");
                Resolution::new(s)
                    .with_effect(Effect::DeathSaveSuccess { target_id: character_id, roll, total_successes: 3 })
                    .with_effect(Effect::Stabilized { target_id: character_id })
            } else {
                push_str(&mut s, " on their death save - SUCCESS! (");
                push_nat(&mut s, new_successes as u64);
                push_str(&mut s, "/3 successes)");
                Resolution::new(s).with_effect(Effect::DeathSaveSuccess {
                    target_id: character_id,
                    roll,
                    total_successes: new_successes,
                })
            }
        } else {
            let new_failures: u8 = character.death_saves.failures + 1;
            let mut s = String::from_str(name);
            push_str(&mut s, " rolls ");
            push_int(&mut s, roll as i64);
            if new_failures >= 3 {
                push_str(&mut s, " on their death save - FAILURE! With 3 failures, ");
                push_str(&mut s, name);
                push_str(&mut s, " has DIED!");
                Resolution::new(s)
                    .with_effect(Effect::DeathSaveFailure {
                        target_id: character_id,
                        failures: 1,
                        total_failures: 3,
                        source: String::from_str("Death save"),
                    })
                    .with_effect(Effect::CharacterDied {
                        target_id: character_id,
                        cause: String::from_str("Failed death saves"),
                    })
            } else {
                push_str(&mut s, " on their death save - FAILURE! (");
                push_nat(&mut s, new_failures as u64);
                push_str(&mut s, "/3 failures)");
                Resolution::new(s).with_effect(Effect::DeathSaveFailure {
                    target_id: character_id,
                    failures: 1,
                    total_failures: new_failures,
                    source: String::from_str("Death save"),
                })
            }
        }
    }

    /// When `resolve_concentration_check` may be called.
    pub open spec fn concentration_check_allowed(
        world: GameWorld,
        character_id: CharacterId,
        damage_taken: i32,
        spell_name: Seq<char>,
        d20: i32,
    ) -> bool {
        &&& 1 <= d20 <= 20
        &&& world.player_character.ability_scores.modifier_defined(Ability::Constitution)
        &&& -128 <= concentration_bonus(world) <= 127
    }

    /// What `resolve_concentration_check` gives.
    pub open spec fn concentration_check_outcome(
        world: GameWorld,
        character_id: CharacterId,
        damage_taken: i32,
        spell_name: Seq<char>,
        d20: i32,
        r: Resolution,
    ) -> bool {
        &&& ({
                let total = d20 + concentration_bonus(world);
                let dc = concentration_dc(damage_taken);
                let head = world.player_character.name@ + " makes a DC "@ + int_text(dc)
                    + " Constitution save to maintain concentration on "@ + spell_name + ". Rolls "@ + int_text(total);
                if total >= dc {
                    &&& r.narrative@ =~= head + " - SUCCESS! Concentration maintained."@
                    &&& r.effects@.len() == 1
                    &&& r.effects@[0] matches Effect::ConcentrationMaintained { character_id: id, spell_name: n, roll: t, dc: d }
                        && id == character_id && n@ =~= spell_name && t == total && d == dc
                } else {
                    &&& r.narrative@ =~= head + " - FAILED! Concentration is broken!"@
                    &&& r.effects@.len() == 1
                    &&& r.effects@[0] matches Effect::ConcentrationBroken { character_id: id, spell_name: n, damage_taken: g, roll: t, dc: d }
                        && id == character_id && n@ =~= spell_name && g == damage_taken && t == total && d == dc
                }
            })
    }

    /// A Constitution save to keep concentrating on a spell after taking
    /// damage, with the d20 showing `d20`: the total is the die plus the
    /// Constitution modifier, plus proficiency when proficient in
    /// Constitution saves, against `concentration_dc`.
    pub fn resolve_concentration_check(
        &self,
        world: &GameWorld,
        character_id: CharacterId,
        damage_taken: i32,
        spell_name: &str,
        d20: i32,
    ) -> (r: Resolution)
        requires
            Self::concentration_check_allowed(*world, character_id, damage_taken, spell_name@, d20),
        ensures
            Self::concentration_check_outcome(*world, character_id, damage_taken, spell_name@, d20, r),
    {
        let character = &world.player_character;
        let half = trunc_div_i32(damage_taken, 2);
        let dc: i32 = if half > 10 { half } else { 10 };
        let con_mod = character.ability_scores.modifier(Ability::Constitution);
        let proficiency = character.proficiency_bonus();
        let save_mod: i32 = if character.is_proficient_in_save(Ability::Constitution) {
            con_mod as i32 + proficiency as i32
        } else {
            con_mod as i32
        };
        let roll_total: i32 = d20 + save_mod;
        let mut s = String::from_str(character.name.as_str());
        push_str(&mut s, " makes a DC ");
        push_int(&mut s, dc as i64);
        push_str(&mut s, " Constitution save to maintain concentration on ");
        push_str(&mut s, spell_name);
        push_str(&mut s, ". Rolls ");
        push_int(&mut s, roll_total as i64);
        if roll_total >= dc {
            push_str(&mut s, " - SUCCESS! Concentration maintained.");
            Resolution::new(s).with_effect(Effect::ConcentrationMaintained {
                character_id,
                spell_name: String::from_str(spell_name),
                roll: roll_total,
                dc,
            })
        } else {
            push_str(&mut s, " - FAILED! Concentration is broken!");
            Resolution::new(s).with_effect(Effect::ConcentrationBroken {
                character_id,
                spell_name: String::from_str(spell_name),
                damage_taken,
                roll: roll_total,
                dc,
            })
        }
    }

    /// When `resolve_roll_initiative` may be called.
    pub open spec fn roll_initiative_allowed(
        character_id: CharacterId,
        name: Seq<char>,
        modifier: i8,
        is_player: bool,
        roll: i32,
    ) -> bool {
        &&& 1 <= roll <= 20
    }

    /// What `resolve_roll_initiative` gives.
    pub open spec fn roll_initiative_outcome(
        character_id: CharacterId,
        name: Seq<char>,
        modifier: i8,
        is_player: bool,
        roll: i32,
        r: Resolution,
    ) -> bool {
        &&& r.narrative@ =~= name + " rolls initiative: "@ + int_text(roll as int) + " + "@ + int_text(modifier as int)
                + " = "@ + int_text(roll + modifier)
        &&& r.effects@.len() == 2
        &&& r.effects@[0] matches Effect::DiceRolled { roll: d, purpose: p }
                && d.expression@ =~= "1d20"@ && d.total == roll && d.natural_20 == (roll == 20)
                && d.natural_1 == (roll == 1) && p@ =~= "Initiative"@
        &&& r.effects@[1] matches Effect::InitiativeRolled { character_id: id, name: n, roll: x, total: t }
                && id == character_id && n@ =~= name && x == roll && t == roll + modifier
    }

    /// A creature rolls initiative with the d20 showing `roll`.
    pub fn resolve_roll_initiative(
        &self,
        character_id: CharacterId,
        name: &str,
        modifier: i8,
        is_player: bool,
        roll: i32,
    ) -> (r: Resolution)
        requires
            Self::roll_initiative_allowed(character_id, name@, modifier, is_player, roll),
        ensures
            Self::roll_initiative_outcome(character_id, name@, modifier, is_player, roll, r),
    {
        let total: i32 = roll + modifier as i32;
        let mut s = String::from_str(name);
        push_str(&mut s, " rolls initiative: ");
        push_int(&mut s, roll as i64);
        push_str(&mut s, " + ");
        push_int(&mut s, modifier as i64);
        push_str(&mut s, " = ");
        push_int(&mut s, total as i64);
        Resolution::new(s)
            .with_effect(Effect::DiceRolled {
                roll: crate::rules::RollResult {
                    expression: String::from_str("1d20"),
                    total: roll,
                    natural_20: roll == 20,
                    natural_1: roll == 1,
                },
                purpose: String::from_str("Initiative"),
            })
            .with_effect(Effect::InitiativeRolled {
                character_id,
                name: String::from_str(name),
                roll,
                total,
            })
    }

    /// When `resolve_next_turn` may be called.
    pub open spec fn next_turn_allowed(world: GameWorld) -> bool {
        &&& world.combat matches Some(c) ==> c.round < u32::MAX && c.turn_index < usize::MAX
    }

    /// What `resolve_next_turn` gives.
    pub open spec fn next_turn_outcome(world: GameWorld, r: Resolution) -> bool {
        &&& match world.combat {
                None => r.narrative@ =~= "No combat in progress"@ && r.effects@.len() == 0,
                Some(c) => {
                    let (t, round) = crate::world::next_turn_of(c.turn_index, c.round, c.combatants@.len());
                    let current = if t < c.combatants@.len() { c.combatants@[t as int].name@ } else { "Unknown"@ };
                    &&& r.narrative@ =~= "Next turn: "@ + current + " (Round "@ + int_text(round as int) + ")"@
                    &&& r.effects@.len() == 1
                    &&& r.effects@[0] matches Effect::TurnAdvanced { round: n, current_combatant: who }
                        && n == round && who@ =~= current
                },
            }
    }

    /// The turn passes in the fight, if there is one.
    pub fn resolve_next_turn(&self, world: &GameWorld) -> (r: Resolution)
        requires
            Self::next_turn_allowed(*world),
        ensures
            Self::next_turn_outcome(*world, r),
    {
        match &world.combat {
            Some(combat) => {
                let n = combat.combatants.len();
                let (t, round) = if combat.turn_index + 1 >= n {
                    (0usize, combat.round + 1)
                } else {
                    (combat.turn_index + 1, combat.round)
                };
                let current = if t < n {
                    combat.combatants[t].name.clone()
                } else {
                    String::from_str("Unknown")
                };
                let mut s = String::from_str("Next turn: ");
                push_str(&mut s, current.as_str());
                push_str(&mut s, " (Round ");
                push_nat(&mut s, round as u64);
                push_str(&mut s, ")");
                Resolution::new(s).with_effect(Effect::TurnAdvanced { round, current_combatant: current })
            },
            None => Resolution::new(String::from_str("No combat in progress")),
        }
    }

    /// When `resolve_start_combat` may be called.
    pub open spec fn start_combat_allowed(
        world: GameWorld,
        combatants: Vec<CombatantInit>,
        rolls: Seq<i32>,
    ) -> bool {
        &&& rolls.len() == combatants@.len()
        &&& forall|i: int| 0 <= i < rolls.len() ==> 1 <= #[trigger] rolls[i] <= 20
        &&& world.player_character.ability_scores.modifier_defined(Ability::Dexterity)
    }

    /// What `resolve_start_combat` gives.
    pub open spec fn start_combat_outcome(
        world: GameWorld,
        combatants: Vec<CombatantInit>,
        rolls: Seq<i32>,
        r: Resolution,
    ) -> bool {
        &&& r.narrative@ =~= "Combat begins! Roll for initiative."@
        &&& r.effects@.len() == 1 + 2 * combatants@.len()
        &&& r.effects@[0] == Effect::CombatStarted
        &&& forall|i: int| 0 <= i < combatants@.len() ==> entered_combat(
                world,
                #[trigger] combatants@[i],
                rolls[i],
                r.effects@[1 + 2 * i],
                r.effects@[2 + 2 * i],
            )
    }

    /// A fight begins: each creature rolls initiative, the i-th one with the
    /// d20 showing `rolls[i]`, and is added to the order with its total.
    pub fn resolve_start_combat(&self, world: &GameWorld, combatants: Vec<CombatantInit>, rolls: &Vec<i32>) -> (r: Resolution)
        requires
            Self::start_combat_allowed(*world, combatants, rolls@),
        ensures
            Self::start_combat_outcome(*world, combatants, rolls@, r),
    {
        let mut resolution = Resolution::new(String::from_str("Combat begins! Roll for initiative."))
            .with_effect(Effect::CombatStarted);
        let mut i: usize = 0;
        while i < combatants.len()
            invariant
                0 <= i <= combatants@.len(),
                rolls@.len() == combatants@.len(),
                forall|k: int| 0 <= k < rolls@.len() ==> 1 <= #[trigger] rolls@[k] <= 20,
                world.player_character.ability_scores.modifier_defined(Ability::Dexterity),
                resolution.narrative@ == "Combat begins! Roll for initiative."@,
                resolution.effects@.len() == 1 + 2 * i,
                resolution.effects@[0] == Effect::CombatStarted,
                forall|k: int| 0 <= k < i ==> entered_combat(
                    *world,
                    #[trigger] combatants@[k],
                    rolls@[k],
                    resolution.effects@[1 + 2 * k],
                    resolution.effects@[2 + 2 * k],
                ),
            decreases combatants@.len() - i,
        {
            let init = &combatants[i];
            let modifier: i8 = if init.is_player {
                world.player_character.initiative_modifier()
            } else {
                init.initiative_modifier
            };
            let roll = rolls[i];
            let total: i32 = roll + modifier as i32;
            let ghost before = resolution.effects@;
            resolution = resolution.with_effect(Effect::InitiativeRolled {
                character_id: init.id,
                name: init.name.clone(),
                roll,
                total,
            });
            resolution = resolution.with_effect(Effect::CombatantAdded {
                id: init.id,
                name: init.name.clone(),
                initiative: total,
                is_ally: init.is_ally,
                current_hp: init.current_hp,
                max_hp: init.max_hp,
                armor_class: init.armor_class,
            });
            assert forall|k: int| 0 <= k < i + 1 implies entered_combat(
                *world,
                #[trigger] combatants@[k],
                rolls@[k],
                resolution.effects@[1 + 2 * k],
                resolution.effects@[2 + 2 * k],
            ) by {
                if k < i {
                    assert(resolution.effects@[1 + 2 * k] == before[1 + 2 * k]);
                    assert(resolution.effects@[2 + 2 * k] == before[2 + 2 * k]);
                }
            }
            i = i + 1;
        }
        resolution
    }

    /// What `resolve_end_combat` gives.
    pub open spec fn end_combat_outcome(world: GameWorld, r: Resolution) -> bool {
        &&& r.narrative@ =~= "Combat ends."@
        &&& r.effects@ =~= seq![Effect::CombatEnded]
    }

    /// The fight ends.
    pub fn resolve_end_combat(&self, world: &GameWorld) -> (r: Resolution)
        ensures
            Self::end_combat_outcome(*world, r),
    {
        Resolution::new(String::from_str("Combat ends.")).with_effect(Effect::CombatEnded)
    }

    /// What `resolve_create_quest` gives.
    pub open spec fn create_quest_outcome(
        name: Seq<char>,
        description: Seq<char>,
        giver: Option<Seq<char>>,
        objectives: Seq<(String, bool)>,
        rewards: Seq<String>,
        r: Resolution,
    ) -> bool {
        &&& r.narrative@ =~= "Quest Started: \""@ + name + "\""@ + match giver {
                Some(g) => " (from "@ + g + ")"@,
                None => Seq::empty(),
            }
        &&& r.effects@.len() == 1
        &&& r.effects@[0] matches Effect::QuestCreated { name: n, description: d, giver: g, objectives: o, rewards: w }
                && n@ =~= name && d@ =~= description && opt_view(g) == giver
                && objectives_view(o@) == objectives_view(objectives) && strings_view(w@) =~= strings_view(rewards)
    }

    /// A quest begins.
    pub fn resolve_create_quest(
        &self,
        name: &str,
        description: &str,
        giver: Option<&str>,
        objectives: &[(String, bool)],
        rewards: &[String],
    ) -> (r: Resolution)
        ensures
            Self::create_quest_outcome(name@, description@, opt_str_view(giver), objectives@, rewards@, r),
    {
        let mut s = String::from_str("Quest Started: \"");
        push_str(&mut s, name);
        push_str(&mut s, "\"");
        match giver {
            Some(g) => {
                push_str(&mut s, " (from ");
                push_str(&mut s, g);
                push_str(&mut s, ")");
            },
            None => {},
        }
        Resolution::new(s).with_effect(Effect::QuestCreated {
            name: String::from_str(name),
            description: String::from_str(description),
            giver: to_opt_string(giver),
            objectives: copy_objectives(objectives),
            rewards: copy_strings(rewards),
        })
    }

    /// What `resolve_add_quest_objective` gives.
    pub open spec fn add_quest_objective_outcome(
        quest_name: Seq<char>,
        objective: Seq<char>,
        optional: bool,
        r: Resolution,
    ) -> bool {
        &&& r.narrative@ =~= "New objective for \""@ + quest_name + "\": "@ + objective
                + (if optional { " (optional)"@ } else { Seq::empty() })
        &&& r.effects@.len() == 1
        &&& r.effects@[0] matches Effect::QuestObjectiveAdded { quest_name: q, objective: o, optional: p }
                && q@ =~= quest_name && o@ =~= objective && p == optional
    }

    /// An objective joins a quest.
    pub fn resolve_add_quest_objective(&self, quest_name: &str, objective: &str, optional: bool) -> (r: Resolution)
        ensures
            Self::add_quest_objective_outcome(quest_name@, objective@, optional, r),
    {
        let mut s = String::from_str("New objective for \"");
        push_str(&mut s, quest_name);
        push_str(&mut s, "\": ");
        push_str(&mut s, objective);
        if optional {
            push_str(&mut s, " (optional)");
        }
        Resolution::new(s).with_effect(Effect::QuestObjectiveAdded {
            quest_name: String::from_str(quest_name),
            objective: String::from_str(objective),
            optional,
        })
    }

    /// What `resolve_complete_objective` gives.
    pub open spec fn complete_objective_outcome(
        quest_name: Seq<char>,
        objective_description: Seq<char>,
        r: Resolution,
    ) -> bool {
        &&& r.narrative@ =~= "Objective completed for \""@ + quest_name + "\": "@ + objective_description
        &&& r.effects@.len() == 1
        &&& r.effects@[0] matches Effect::QuestObjectiveCompleted { quest_name: q, objective_description: o }
                && q@ =~= quest_name && o@ =~= objective_description
    }

    /// An objective of a quest is done.
    pub fn resolve_complete_objective(&self, quest_name: &str, objective_description: &str) -> (r: Resolution)
        ensures
            Self::complete_objective_outcome(quest_name@, objective_description@, r),
    {
        let mut s = String::from_str("Objective completed for \"");
        push_str(&mut s, quest_name);
        push_str(&mut s, "\": ");
        push_str(&mut s, objective_description);
        Resolution::new(s).with_effect(Effect::QuestObjectiveCompleted {
            quest_name: String::from_str(quest_name),
            objective_description: String::from_str(objective_description),
        })
    }

    /// What `resolve_complete_quest` gives.
    pub open spec fn complete_quest_outcome(
        quest_name: Seq<char>,
        completion_note: Option<Seq<char>>,
        r: Resolution,
    ) -> bool {
        &&& r.narrative@ =~= "Quest Completed: \""@ + quest_name + "\""@ + match completion_note {
                Some(n) => " - "@ + n,
                None => Seq::empty(),
            }
        &&& r.effects@.len() == 1
        &&& r.effects@[0] matches Effect::QuestCompleted { quest_name: q, completion_note: n }
                && q@ =~= quest_name && opt_view(n) == completion_note
    }

    /// A quest is completed.
    pub fn resolve_complete_quest(&self, quest_name: &str, completion_note: Option<&str>) -> (r: Resolution)
        ensures
            Self::complete_quest_outcome(quest_name@, opt_str_view(completion_note), r),
    {
        let mut s = String::from_str("Quest Completed: \"");
        push_str(&mut s, quest_name);
        push_str(&mut s, "\"");
        match completion_note {
            Some(n) => {
                push_str(&mut s, " - ");
                push_str(&mut s, n);
            },
            None => {},
        }
        Resolution::new(s).with_effect(Effect::QuestCompleted {
            quest_name: String::from_str(quest_name),
            completion_note: to_opt_string(completion_note),
        })
    }

    /// What `resolve_fail_quest` gives.
    pub open spec fn fail_quest_outcome(
        quest_name: Seq<char>,
        failure_reason: Seq<char>,
        r: Resolution,
    ) -> bool {
        &&& r.narrative@ =~= "Quest Failed: \""@ + quest_name + "\" - "@ + failure_reason
        &&& r.effects@.len() == 1
        &&& r.effects@[0] matches Effect::QuestFailed { quest_name: q, failure_reason: f }
                && q@ =~= quest_name && f@ =~= failure_reason
    }

    /// A quest is failed.
    pub fn resolve_fail_quest(&self, quest_name: &str, failure_reason: &str) -> (r: Resolution)
        ensures
            Self::fail_quest_outcome(quest_name@, failure_reason@, r),
    {
        let mut s = String::from_str("Quest Failed: \"");
        push_str(&mut s, quest_name);
        push_str(&mut s, "\" - ");
        push_str(&mut s, failure_reason);
        Resolution::new(s).with_effect(Effect::QuestFailed {
            quest_name: String::from_str(quest_name),
            failure_reason: String::from_str(failure_reason),
        })
    }

    /// What `resolve_update_quest` gives.
    pub open spec fn update_quest_outcome(
        quest_name: Seq<char>,
        new_description: Option<Seq<char>>,
        add_rewards: Seq<String>,
        r: Resolution,
    ) -> bool {
        &&& r.narrative@ =~= "Quest \""@ + quest_name + "\" updated"@
                + (if new_description is Some { "; description changed"@ } else { Seq::empty() })
                + (if add_rewards.len() > 0 {
                    "; rewards added: "@ + joined(strings_view(add_rewards), ", "@)
                } else {
                    Seq::empty()
                })
        &&& r.effects@.len() == 1
        &&& r.effects@[0] matches Effect::QuestUpdated { quest_name: q, new_description: d, add_rewards: w }
                && q@ =~= quest_name && opt_view(d) == new_description
                && strings_view(w@) =~= strings_view(add_rewards)
    }

    /// A quest's description or rewards change.
    pub fn resolve_update_quest(&self, quest_name: &str, new_description: Option<&str>, add_rewards: &[String]) -> (r: Resolution)
        ensures
            Self::update_quest_outcome(quest_name@, opt_str_view(new_description), add_rewards@, r),
    {
        let mut s = String::from_str("Quest \"");
        push_str(&mut s, quest_name);
        push_str(&mut s, "\" updated");
        if new_description.is_some() {
            push_str(&mut s, "; description changed");
        }
        if add_rewards.len() > 0 {
            push_str(&mut s, "; rewards added: ");
            push_joined(&mut s, add_rewards, ", ");
        }
        Resolution::new(s).with_effect(Effect::QuestUpdated {
            quest_name: String::from_str(quest_name),
            new_description: to_opt_string(new_description),
            add_rewards: copy_strings(add_rewards),
        })
    }
    /// When `resolve_gain_experience` may be called.
    pub open spec fn gain_experience_allowed(world: GameWorld, amount: u32) -> bool {
        &&& world.player_character.experience + amount <= u32::MAX
    }

    /// What `resolve_gain_experience` gives.
    pub open spec fn gain_experience_outcome(world: GameWorld, amount: u32, r: Resolution) -> bool {
        &&& ({
                let total = (world.player_character.experience + amount) as u32;
                &&& r.narrative@ =~= "Gained "@ + int_text(amount as int) + " experience points (Total: "@
                    + int_text(total as int) + ")"@
                &&& r.effects@ =~= if level_for_xp(total) > world.player_character.level {
                    seq![
                        Effect::ExperienceGained { amount, new_total: total },
                        Effect::LevelUp { new_level: level_for_xp(total) as u8 },
                    ]
                } else {
                    seq![Effect::ExperienceGained { amount, new_total: total }]
                }
            })
    }

    /// Experience is gained; the character levels up when the new total
    /// reaches a higher level than the current one.
    pub fn resolve_gain_experience(&self, world: &GameWorld, amount: u32) -> (r: Resolution)
        requires
            Self::gain_experience_allowed(*world, amount),
        ensures
            Self::gain_experience_outcome(*world, amount, r),
    {
        let new_total = world.player_character.experience + amount;
        let thresholds: [u32; 20] = [
            0, 300, 900, 2700, 6500, 14000, 23000, 34000, 48000, 64000, 85000, 100000, 120000,
            140000, 165000, 195000, 225000, 265000, 305000, 355000,
        ];
        assert(thresholds@ =~= xp_thresholds());
        let mut i: usize = 19;
        while i > 0 && new_total < thresholds[i]
            invariant
                i <= 19,
                thresholds@ == xp_thresholds(),
                level_for_xp(new_total) == level_reached_from(new_total, i as int),
            decreases i,
        {
            i = i - 1;
        }
        let new_level = (i + 1) as u8;
        let mut s = String::new();
        push_str(&mut s, "Gained ");
        push_nat(&mut s, amount as u64);
        push_str(&mut s, " experience points (Total: ");
        push_nat(&mut s, new_total as u64);
        push_str(&mut s, ")");
        let mut resolution = Resolution::new(s).with_effect(Effect::ExperienceGained { amount, new_total });
        if new_level > world.player_character.level {
            resolution = resolution.with_effect(Effect::LevelUp { new_level });
        }
        resolution
    }

    /// What `resolve_remember_fact` gives.
    pub open spec fn remember_fact_outcome(
        subject_name: Seq<char>,
        subject_type: Seq<char>,
        fact: Seq<char>,
        category: Seq<char>,
        related_entities: Seq<String>,
        importance_bits: u32,
        r: Resolution,
    ) -> bool {
        &&& r.narrative@ =~= "Noted: "@ + subject_name + " ("@ + subject_type + ") - "@ + fact
                + related_text(strings_view(related_entities))
        &&& r.effects@.len() == 1
        &&& r.effects@[0] matches Effect::FactRemembered {
                subject_name: n,
                subject_type: t,
                fact: f,
                category: c,
                related_entities: rel,
                importance_bits: i,
            } && n@ =~= subject_name && t@ =~= subject_type && f@ =~= fact && c@ =~= category
                && strings_view(rel@) =~= strings_view(related_entities) && i == importance_bits
    }

    /// A fact is noted for the story; storing it is the narrator's business.
    pub fn resolve_remember_fact(
        &self,
        subject_name: &str,
        subject_type: &str,
        fact: &str,
        category: &str,
        related_entities: &[String],
        importance_bits: u32,
    ) -> (r: Resolution)
        ensures
            Self::remember_fact_outcome(
                subject_name@, subject_type@, fact@, category@, related_entities@, importance_bits,
                r,
            ),
    {
        let mut s = String::new();
        push_str(&mut s, "Noted: ");
        push_str(&mut s, subject_name);
        push_str(&mut s, " (");
        push_str(&mut s, subject_type);
        push_str(&mut s, ") - ");
        push_str(&mut s, fact);
        if related_entities.len() > 0 {
            push_str(&mut s, " (related: ");
            push_joined(&mut s, related_entities, ", ");
            push_str(&mut s, ")");
        }
        Resolution::new(s).with_effect(Effect::FactRemembered {
            subject_name: String::from_str(subject_name),
            subject_type: String::from_str(subject_type),
            fact: String::from_str(fact),
            category: String::from_str(category),
            related_entities: copy_strings(related_entities),
            importance_bits,
        })
    }

    /// What `resolve_modify_ability_score` gives.
    pub open spec fn modify_ability_score_outcome(
        ability: Ability,
        modifier: i8,
        source: Seq<char>,
        duration: Option<Seq<char>>,
        r: Resolution,
    ) -> bool {
        &&& r.narrative@ =~= ability.spec_name() + " modified by "@ + signed_text(modifier)
                + duration_text(duration) + " from "@ + source
        &&& r.effects@.len() == 1
        &&& r.effects@[0] matches Effect::AbilityScoreModified { ability: a, modifier: m, source: s }
                && a == ability && m == modifier && s@ =~= source
    }

    /// An ability score is raised or lowered, for a while or for good.
    pub fn resolve_modify_ability_score(
        &self,
        ability: Ability,
        modifier: i8,
        source: &str,
        duration: Option<&str>,
    ) -> (r: Resolution)
        ensures
            Self::modify_ability_score_outcome(ability, modifier, source@, opt_str_view(duration), r),
    {
        let mut s = String::new();
        push_str(&mut s, ability.name());
        push_str(&mut s, " modified by ");
        if modifier >= 0 {
            push_str(&mut s, "+");
        }
        push_int(&mut s, modifier as i64);
        match duration {
            Some(d) => {
                push_str(&mut s, " for ");
                push_str(&mut s, d);
            },
            None => push_str(&mut s, " permanently"),
        }
        push_str(&mut s, " from ");
        push_str(&mut s, source);
        Resolution::new(s).with_effect(Effect::AbilityScoreModified {
            ability,
            modifier,
            source: String::from_str(source),
        })
    }

    /// When `resolve_restore_spell_slot` may be called.
    pub open spec fn restore_spell_slot_allowed(world: GameWorld, slot_level: u8, source: Seq<char>) -> bool {
        &&& 1 <= slot_level <= 9 ==> restored_remaining(world, slot_level) <= u8::MAX
    }

    /// What `resolve_restore_spell_slot` gives.
    pub open spec fn restore_spell_slot_outcome(
        world: GameWorld,
        slot_level: u8,
        source: Seq<char>,
        r: Resolution,
    ) -> bool {
        &&& slot_level == 0 || slot_level > 9 ==> r.narrative@ =~= "Invalid spell slot level: "@
                + int_text(slot_level as int) + ". Must be between 1 and 9."@ && r.effects@.len() == 0
        &&& 1 <= slot_level <= 9 ==> r.narrative@ =~= "Level "@ + int_text(slot_level as int)
                + " spell slot restored by "@ + source
                && r.effects@ =~= seq![Effect::SpellSlotRestored {
                    level: slot_level,
                    new_remaining: restored_remaining(world, slot_level) as u8,
                }]
    }

    /// A spell slot of level 1 to 9 comes back; any other level is refused
    /// with no effect.
    pub fn resolve_restore_spell_slot(&self, world: &GameWorld, slot_level: u8, source: &str) -> (r: Resolution)
        requires
            Self::restore_spell_slot_allowed(*world, slot_level, source@),
        ensures
            Self::restore_spell_slot_outcome(*world, slot_level, source@, r),
    {
        if slot_level == 0 || slot_level > 9 {
            let mut s = String::new();
            push_str(&mut s, "Invalid spell slot level: ");
            push_nat(&mut s, slot_level as u64);
            push_str(&mut s, ". Must be between 1 and 9.");
            return Resolution::new(s);
        }
        let new_remaining: u8 = match &world.player_character.spellcasting {
            Some(sc) => {
                let idx = (slot_level - 1) as usize;
                sc.spell_slots.slots[idx].available() + 1
            },
            None => 0,
        };
        let mut s = String::new();
        push_str(&mut s, "Level ");
        push_nat(&mut s, slot_level as u64);
        push_str(&mut s, " spell slot restored by ");
        push_str(&mut s, source);
        Resolution::new(s).with_effect(Effect::SpellSlotRestored { level: slot_level, new_remaining })
    }
    /// What `resolve_remove_npc` gives.
    pub open spec fn remove_npc_outcome(
        npc_name: Seq<char>,
        reason: Seq<char>,
        permanent: bool,
        r: Resolution,
    ) -> bool {
        &&& r.narrative@ =~= "NPC "@ + npc_name + " "@
                + (if permanent { "permanently"@ } else { "temporarily"@ }) + " removed: "@ + reason
        &&& r.effects@.len() == 1
        &&& r.effects@[0] matches Effect::NpcRemoved { npc_name: n, reason: w } && n@ =~= npc_name && w@ =~= reason
    }

    /// An NPC leaves the world, for good or for now.
    pub fn resolve_remove_npc(&self, npc_name: &str, reason: &str, permanent: bool) -> (r: Resolution)
        ensures
            Self::remove_npc_outcome(npc_name@, reason@, permanent, r),
    {
        let mut s = String::new();
        push_str(&mut s, "NPC ");
        push_str(&mut s, npc_name);
        push_str(&mut s, " ");
        push_str(&mut s, if permanent { "permanently" } else { "temporarily" });
        push_str(&mut s, " removed: ");
        push_str(&mut s, reason);
        Resolution::new(s).with_effect(Effect::NpcRemoved {
            npc_name: String::from_str(npc_name),
            reason: String::from_str(reason),
        })
    }

    /// What `resolve_create_location` gives.
    pub open spec fn create_location_outcome(
        name: Seq<char>,
        location_type: Seq<char>,
        description: Seq<char>,
        parent_location: Option<Seq<char>>,
        items: Seq<String>,
        npcs_present: Seq<String>,
        r: Resolution,
    ) -> bool {
        &&& r.narrative@ =~= "New location created: "@ + name + " ("@ + location_type + ")"@
                + opt_text(" in "@, parent_location, ""@)
                + listed_text(" with items: "@, strings_view(items))
                + listed_text(" featuring NPCs: "@, strings_view(npcs_present)) + " - "@ + description
        &&& r.effects@.len() == 1
        &&& r.effects@[0] matches Effect::LocationCreated { name: n, location_type: t }
                && n@ =~= name && t@ =~= location_type
    }

    /// A new place, with where it lies, what is there and who.
    pub fn resolve_create_location(
        &self,
        name: &str,
        location_type: &str,
        description: &str,
        parent_location: Option<&str>,
        items: &[String],
        npcs_present: &[String],
    ) -> (r: Resolution)
        ensures
            Self::create_location_outcome(
                name@, location_type@, description@, opt_str_view(parent_location), items@,
                npcs_present@, r,
            ),
    {
        let mut s = String::new();
        push_str(&mut s, "New location created: ");
        push_str(&mut s, name);
        push_str(&mut s, " (");
        push_str(&mut s, location_type);
        push_str(&mut s, ")");
        push_opt(&mut s, " in ", parent_location, "");
        push_listed(&mut s, " with items: ", items);
        push_listed(&mut s, " featuring NPCs: ", npcs_present);
        push_str(&mut s, " - ");
        push_str(&mut s, description);
        Resolution::new(s).with_effect(Effect::LocationCreated {
            name: String::from_str(name),
            location_type: String::from_str(location_type),
        })
    }

    /// What `resolve_connect_locations` gives.
    pub open spec fn connect_locations_outcome(
        from_location: Seq<char>,
        to_location: Seq<char>,
        direction: Option<Seq<char>>,
        travel_time_minutes: Option<u32>,
        bidirectional: bool,
        r: Resolution,
    ) -> bool {
        &&& r.narrative@ =~= "Locations connected: "@ + from_location + " to "@ + to_location
                + opt_text(" ("@, direction, " direction)"@)
                + (match travel_time_minutes {
                    Some(t) => ", "@ + int_text(t as int) + " minutes travel time"@,
                    None => Seq::empty(),
                })
                + (if bidirectional { " (bidirectional)"@ } else { " (one-way)"@ })
        &&& r.effects@.len() == 1
        &&& r.effects@[0] matches Effect::LocationsConnected { from, to, direction: d }
                && from@ =~= from_location && to@ =~= to_location && opt_view(d) == direction
    }

    /// A route between two places, one way or both.
    pub fn resolve_connect_locations(
        &self,
        from_location: &str,
        to_location: &str,
        direction: Option<&str>,
        travel_time_minutes: Option<u32>,
        bidirectional: bool,
    ) -> (r: Resolution)
        ensures
            Self::connect_locations_outcome(
                from_location@, to_location@, opt_str_view(direction), travel_time_minutes,
                bidirectional, r,
            ),
    {
        let mut s = String::new();
        push_str(&mut s, "Locations connected: ");
        push_str(&mut s, from_location);
        push_str(&mut s, " to ");
        push_str(&mut s, to_location);
        push_opt(&mut s, " (", direction, " direction)");
        match travel_time_minutes {
            Some(t) => {
                push_str(&mut s, ", ");
                push_nat(&mut s, t as u64);
                push_str(&mut s, " minutes travel time");
            },
            None => {},
        }
        push_str(&mut s, if bidirectional { " (bidirectional)" } else { " (one-way)" });
        Resolution::new(s).with_effect(Effect::LocationsConnected {
            from: String::from_str(from_location),
            to: String::from_str(to_location),
            direction: to_opt_string(direction),
        })
    }

    /// What `resolve_share_knowledge` gives.
    pub open spec fn share_knowledge_outcome(
        knowing_entity: Seq<char>,
        content: Seq<char>,
        source: Seq<char>,
        verification: Seq<char>,
        context: Option<Seq<char>>,
        r: Resolution,
    ) -> bool {
        &&& r.narrative@ =~= knowing_entity + " now knows: \""@ + content + "\" (from: "@ + source + ", "@
                + verification + ")"@ + opt_text(" ["@, context, "]"@)
        &&& r.effects@.len() == 1
        &&& r.effects@[0] matches Effect::KnowledgeShared { knowing_entity: k, content: c, source: s, verification: v, context: x }
                && k@ =~= knowing_entity && c@ =~= content && s@ =~= source && v@ =~= verification
                && opt_view(x) == context
    }

    /// An entity comes to know something.
    pub fn resolve_share_knowledge(
        &self,
        knowing_entity: &str,
        content: &str,
        source: &str,
        verification: &str,
        context: Option<&str>,
    ) -> (r: Resolution)
        ensures
            Self::share_knowledge_outcome(
                knowing_entity@, content@, source@, verification@, opt_str_view(context), r,
            ),
    {
        let mut s = String::new();
        push_str(&mut s, knowing_entity);
        push_str(&mut s, " now knows: \"");
        push_str(&mut s, content);
        push_str(&mut s, "\" (from: ");
        push_str(&mut s, source);
        push_str(&mut s, ", ");
        push_str(&mut s, verification);
        push_str(&mut s, ")");
        push_opt(&mut s, " [", context, "]");
        Resolution::new(s).with_effect(Effect::KnowledgeShared {
            knowing_entity: String::from_str(knowing_entity),
            content: String::from_str(content),
            source: String::from_str(source),
            verification: String::from_str(verification),
            context: to_opt_string(context),
        })
    }

    /// When `resolve_schedule_event` may be called.
    pub open spec fn schedule_event_allowed(
        _world: GameWorld,
        description: Seq<char>,
        minutes: Option<u32>,
        hours: Option<u32>,
        day: Option<u8>,
        month: Option<u8>,
        year: Option<i32>,
        hour: Option<u8>,
        daily_hour: Option<u8>,
        daily_minute: Option<u8>,
        location: Option<Seq<char>>,
        visibility: Seq<char>,
        repeating: bool,
    ) -> bool {
        &&& !has_daily(daily_hour, daily_minute) && !has_date(day, month, year)
                ==> relative_minutes(minutes, hours) <= u32::MAX
    }

    /// What `resolve_schedule_event` gives.
    pub open spec fn schedule_event_outcome(
        _world: GameWorld,
        description: Seq<char>,
        minutes: Option<u32>,
        hours: Option<u32>,
        day: Option<u8>,
        month: Option<u8>,
        year: Option<i32>,
        hour: Option<u8>,
        daily_hour: Option<u8>,
        daily_minute: Option<u8>,
        location: Option<Seq<char>>,
        visibility: Seq<char>,
        repeating: bool,
        r: Resolution,
    ) -> bool {
        &&& ({
                let when = schedule_text(minutes, hours, day, month, year, hour, daily_hour, daily_minute, repeating);
                &&& r.narrative@ =~= "Scheduled: \""@ + description + "\" "@ + when
                    + opt_text(" at "@, location, ""@) + visibility_note(visibility)
                &&& r.effects@.len() == 1
                &&& r.effects@[0] matches Effect::EventScheduled { description: d, trigger_description: t, location: l, visibility: v }
                    && d@ =~= description && t@ =~= when && opt_view(l) == location && v@ =~= visibility
            })
    }

    /// An event is put on the calendar; the line says when, where and how
    /// visible it is.
    pub fn resolve_schedule_event(
        &self,
        _world: &GameWorld,
        description: &str,
        minutes: Option<u32>,
        hours: Option<u32>,
        day: Option<u8>,
        month: Option<u8>,
        year: Option<i32>,
        hour: Option<u8>,
        daily_hour: Option<u8>,
        daily_minute: Option<u8>,
        location: Option<&str>,
        visibility: &str,
        repeating: bool,
    ) -> (r: Resolution)
        requires
            Self::schedule_event_allowed(
                *_world, description@, minutes, hours, day, month, year, hour, daily_hour,
                daily_minute, opt_str_view(location), visibility@, repeating,
            ),
        ensures
            Self::schedule_event_outcome(
                *_world, description@, minutes, hours, day, month, year, hour, daily_hour,
                daily_minute, opt_str_view(location), visibility@, repeating, r,
            ),
    {
        let mut when = String::new();
        push_schedule_text(&mut when, minutes, hours, day, month, year, hour, daily_hour, daily_minute, repeating);
        let mut s = String::new();
        push_str(&mut s, "Scheduled: \"");
        push_str(&mut s, description);
        push_str(&mut s, "\" ");
        push_str(&mut s, when.as_str());
        push_opt(&mut s, " at ", location, "");
        if str_eq(visibility, "private") || str_eq(visibility, "secret") {
            push_str(&mut s, " (private)");
        } else if str_eq(visibility, "hinted") {
            push_str(&mut s, " (hinted)");
        } else {
            assert(visibility_note(visibility@) =~= Seq::<char>::empty());
            assert(s@ + visibility_note(visibility@) =~= s@);
        }
        Resolution::new(s).with_effect(Effect::EventScheduled {
            description: String::from_str(description),
            trigger_description: when,
            location: to_opt_string(location),
            visibility: String::from_str(visibility),
        })
    }

    /// What `resolve_cancel_event` gives.
    pub open spec fn cancel_event_outcome(
        event_description: Seq<char>,
        reason: Seq<char>,
        r: Resolution,
    ) -> bool {
        &&& r.narrative@ =~= "Event cancelled: \""@ + event_description + "\" - "@ + reason
        &&& r.effects@.len() == 1
        &&& r.effects@[0] matches Effect::EventCancelled { description: d, reason: w }
                && d@ =~= event_description && w@ =~= reason
    }

    /// A scheduled event is called off.
    pub fn resolve_cancel_event(&self, event_description: &str, reason: &str) -> (r: Resolution)
        ensures
            Self::cancel_event_outcome(event_description@, reason@, r),
    {
        let mut s = String::new();
        push_str(&mut s, "Event cancelled: \"");
        push_str(&mut s, event_description);
        push_str(&mut s, "\" - ");
        push_str(&mut s, reason);
        Resolution::new(s).with_effect(Effect::EventCancelled {
            description: String::from_str(event_description),
            reason: String::from_str(reason),
        })
    }
    /// What `resolve_create_npc` gives.
    pub open spec fn create_npc_outcome(
        world: GameWorld,
        name: Seq<char>,
        _description: Seq<char>,
        _personality: Seq<char>,
        occupation: Option<Seq<char>>,
        disposition: Seq<char>,
        location: Option<Seq<char>>,
        _known_information: Seq<String>,
        r: Resolution,
    ) -> bool {
        &&& match npc_named(world, name) {
                Some(existing) => {
                    &&& r.narrative@ =~= "DUPLICATE NPC ERROR: An NPC named '"@ + existing.name@
                        + "' already exists (disposition: "@ + existing.disposition.spec_debug_name()
                        + "). Use 'update_npc' instead to modify their disposition, add information, or change their description. Do NOT call create_npc again for this character."@
                    &&& r.effects@.len() == 0
                },
                None => {
                    &&& r.narrative@ =~= "NPC "@ + name + " ("@ + disposition + ")"@
                        + opt_text(" ("@, occupation, ")"@)
                        + opt_text(" at "@, location, ""@) + "  enters the world"@
                    &&& r.effects@.len() == 1
                    &&& r.effects@[0] matches Effect::NpcCreated { name: n, location: l }
                        && n@ =~= name && opt_view(l) == location
                },
            }
    }

    /// A new NPC enters the world, unless one of that name (in any ASCII
    /// case) is already there: then nothing happens and the narrator is told
    /// to update the existing one instead.
    pub fn resolve_create_npc(
        &self,
        world: &GameWorld,
        name: &str,
        _description: &str,
        _personality: &str,
        occupation: Option<&str>,
        disposition: &str,
        location: Option<&str>,
        _known_information: &[String],
    ) -> (r: Resolution)
        ensures
            Self::create_npc_outcome(
                *world, name@, _description@, _personality@, opt_str_view(occupation),
                disposition@, opt_str_view(location), _known_information@, r,
            ),
    {
        match world.find_npc(name) {
            Some(existing) => {
                let mut s = String::new();
                push_str(&mut s, "DUPLICATE NPC ERROR: An NPC named '");
                push_str(&mut s, existing.name.as_str());
                push_str(&mut s, "' already exists (disposition: ");
                push_str(&mut s, existing.disposition.debug_name());
                push_str(&mut s, "). Use 'update_npc' instead to modify their disposition, add information, or change their description. Do NOT call create_npc again for this character.");
                Resolution::new(s)
            },
            None => {
                let mut s = String::new();
                push_str(&mut s, "NPC ");
                push_str(&mut s, name);
                push_str(&mut s, " (");
                push_str(&mut s, disposition);
                push_str(&mut s, ")");
                push_opt(&mut s, " (", occupation, ")");
                push_opt(&mut s, " at ", location, "");
                push_str(&mut s, "  enters the world");
                Resolution::new(s).with_effect(Effect::NpcCreated {
                    name: String::from_str(name),
                    location: to_opt_string(location),
                })
            },
        }
    }

    /// What `resolve_update_npc` gives.
    pub open spec fn update_npc_outcome(
        world: GameWorld,
        npc_name: Seq<char>,
        disposition: Option<Seq<char>>,
        add_information: Seq<String>,
        new_description: Option<Seq<char>>,
        new_personality: Option<Seq<char>>,
        r: Resolution,
    ) -> bool {
        &&& npc_named(world, npc_name) is None ==> r.narrative@ =~= "NPC '"@ + npc_name + "' not found in the world"@
                && r.effects@.len() == 0
        &&& npc_named(world, npc_name) is Some ==> ({
                let changes = npc_changes(disposition is Some, add_information.len() > 0, new_description is Some,
                    new_personality is Some);
                &&& r.narrative@ =~= "NPC "@ + npc_name + " updated: "@ + changes
                &&& r.effects@.len() == 1
                &&& r.effects@[0] matches Effect::NpcUpdated { npc_name: n, changes: c } && n@ =~= npc_name && c@ =~= changes
            })
    }

    /// An existing NPC changes; the line lists what changed.
    pub fn resolve_update_npc(
        &self,
        world: &GameWorld,
        npc_name: &str,
        disposition: Option<&str>,
        add_information: &[String],
        new_description: Option<&str>,
        new_personality: Option<&str>,
    ) -> (r: Resolution)
        ensures
            Self::update_npc_outcome(
                *world, npc_name@, opt_str_view(disposition), add_information@,
                opt_str_view(new_description), opt_str_view(new_personality), r,
            ),
    {
        if world.find_npc(npc_name).is_none() {
            let mut s = String::new();
            push_str(&mut s, "NPC '");
            push_str(&mut s, npc_name);
            push_str(&mut s, "' not found in the world");
            return Resolution::new(s);
        }
        let ghost d = disposition is Some;
        let ghost i = add_information@.len() > 0;
        let ghost e = new_description is Some;
        let ghost p = new_personality is Some;
        let mut changes: Vec<String> = Vec::new();
        if disposition.is_some() {
            changes.push(String::from_str("disposition changed"));
        }
        assert(strings_view(changes@) =~= npc_change_list(d, false, false, false));
        if add_information.len() > 0 {
            let ghost before = changes@;
            changes.push(String::from_str("new information learned"));
            assert(strings_view(changes@) =~= strings_view(before).push("new information learned"@));
        }
        assert(strings_view(changes@) =~= npc_change_list(d, i, false, false));
        if new_description.is_some() {
            let ghost before = changes@;
            changes.push(String::from_str("description updated"));
            assert(strings_view(changes@) =~= strings_view(before).push("description updated"@));
        }
        assert(strings_view(changes@) =~= npc_change_list(d, i, e, false));
        if new_personality.is_some() {
            let ghost before = changes@;
            changes.push(String::from_str("personality updated"));
            assert(strings_view(changes@) =~= strings_view(before).push("personality updated"@));
        }
        assert(strings_view(changes@) =~= npc_change_list(d, i, e, p));
        let mut changes_text = String::new();
        if changes.len() == 0 {
            push_str(&mut changes_text, "no changes");
        } else {
            push_joined(&mut changes_text, changes.as_slice(), ", ");
        }
        let mut s = String::new();
        push_str(&mut s, "NPC ");
        push_str(&mut s, npc_name);
        push_str(&mut s, " updated: ");
        push_str(&mut s, changes_text.as_str());
        Resolution::new(s).with_effect(Effect::NpcUpdated { npc_name: String::from_str(npc_name), changes: changes_text })
    }

    /// What `resolve_move_npc` gives.
    pub open spec fn move_npc_outcome(
        world: GameWorld,
        npc_name: Seq<char>,
        destination: Seq<char>,
        reason: Option<Seq<char>>,
        r: Resolution,
    ) -> bool {
        &&& r.narrative@ =~= "NPC "@ + npc_name + " moves to "@ + destination
                + opt_text(" ("@, reason, ")"@)
        &&& r.effects@.len() == 1
        &&& r.effects@[0] matches Effect::NpcMoved { npc_name: n, from_location: f, to_location: t }
                && n@ =~= npc_name && t@ =~= destination
                && opt_view(f) == (match npc_named(world, npc_name) {
                    Some(npc) => npc_location_name(world, npc),
                    None => None,
                })
    }

    /// An NPC goes somewhere; the effect records where from, when known.
    pub fn resolve_move_npc(&self, world: &GameWorld, npc_name: &str, destination: &str, reason: Option<&str>) -> (r: Resolution)
        ensures
            Self::move_npc_outcome(*world, npc_name@, destination@, opt_str_view(reason), r),
    {
        let from_location = match world.find_npc(npc_name) {
            Some(npc) => world.npc_location(npc),
            None => None,
        };
        let mut s = String::new();
        push_str(&mut s, "NPC ");
        push_str(&mut s, npc_name);
        push_str(&mut s, " moves to ");
        push_str(&mut s, destination);
        push_opt(&mut s, " (", reason, ")");
        Resolution::new(s).with_effect(Effect::NpcMoved {
            npc_name: String::from_str(npc_name),
            from_location,
            to_location: String::from_str(destination),
        })
    }

    /// What `resolve_assert_state` gives.
    pub open spec fn assert_state_outcome(
        world: GameWorld,
        entity_name: Seq<char>,
        state_type: StateType,
        new_value: Seq<char>,
        reason: Seq<char>,
        target_entity: Option<Seq<char>>,
        r: Resolution,
    ) -> bool {
        &&& r.narrative@ =~= state_text(entity_name, state_type, new_value, reason, target_entity)
        &&& r.effects@.len() == 1
        &&& r.effects@[0] matches Effect::StateAsserted {
                entity_name: e,
                state_type: t,
                old_value: o,
                new_value: v,
                reason: w,
                target_entity: x,
            } && e@ =~= entity_name && t == state_type && v@ =~= new_value && w@ =~= reason
                && opt_view(x) == target_entity
                && opt_view(o) == prior_state(world, entity_name, state_type)
    }

    /// A declared change of state; the effect carries what the world held
    /// before, when it knows.
    pub fn resolve_assert_state(
        &self,
        world: &GameWorld,
        entity_name: &str,
        state_type: StateType,
        new_value: &str,
        reason: &str,
        target_entity: Option<&str>,
    ) -> (r: Resolution)
        ensures
            Self::assert_state_outcome(
                *world, entity_name@, state_type, new_value@, reason@, opt_str_view(target_entity),
                r,
            ),
    {
        let old_value = match world.find_npc(entity_name) {
            Some(npc) => match state_type {
                StateType::Disposition => Some(String::from_str(npc.disposition.word())),
                StateType::Location => world.npc_location(npc),
                _ => None,
            },
            None => None,
        };
        let mut s = String::new();
        push_str(&mut s, entity_name);
        match state_type {
            StateType::Disposition => push_str(&mut s, "'s disposition is now "),
            StateType::Location => push_str(&mut s, " is now at "),
            StateType::Status => push_str(&mut s, "'s status is now "),
            StateType::Knowledge => push_str(&mut s, " now knows: "),
            StateType::Relationship => match target_entity {
                Some(t) => {
                    push_str(&mut s, "'s relationship with ");
                    push_str(&mut s, t);
                    push_str(&mut s, " is now ");
                },
                None => push_str(&mut s, "'s relationship status: "),
            },
        }
        push_str(&mut s, new_value);
        push_str(&mut s, " (reason: ");
        push_str(&mut s, reason);
        push_str(&mut s, ")");
        Resolution::new(s).with_effect(Effect::StateAsserted {
            entity_name: String::from_str(entity_name),
            state_type,
            old_value,
            new_value: String::from_str(new_value),
            reason: String::from_str(reason),
            target_entity: to_opt_string(target_entity),
        })
    }
    /// When `resolve_adjust_gold` may be called.
    pub open spec fn adjust_gold_allowed(world: GameWorld, amount: i32, reason: Seq<char>) -> bool {
        &&& coin_change_fits(world.player_character.inventory.gold, amount)
    }

    /// What `resolve_adjust_gold` gives.
    pub open spec fn adjust_gold_outcome(
        world: GameWorld,
        amount: i32,
        reason: Seq<char>,
        r: Resolution,
    ) -> bool {
        &&& ({
                let c = world.player_character;
                let total = c.inventory.gold + amount;
                &&& r.narrative@ =~= coin_text(c.name@, "gp"@, "gold"@, c.inventory.gold, amount, reason)
                &&& total < 0 ==> r.effects@.len() == 0
                &&& total >= 0 ==> r.effects@.len() == 1 && (r.effects@[0] matches Effect::GoldChanged { amount: a, new_total, reason: w }
                    && a == amount && new_total == total && w@ =~= reason)
            })
    }

    /// Gold is gained or spent; spending more than the purse holds is
    /// refused.
    pub fn resolve_adjust_gold(&self, world: &GameWorld, amount: i32, reason: &str) -> (r: Resolution)
        requires
            Self::adjust_gold_allowed(*world, amount, reason@),
        ensures
            Self::adjust_gold_outcome(*world, amount, reason@, r),
    {
        let c = &world.player_character;
        let mut s = String::new();
        push_coin_text(&mut s, c.name.as_str(), "gp", "gold", c.inventory.gold, amount, reason);
        let total = c.inventory.gold + amount;
        if total < 0 {
            Resolution::new(s)
        } else {
            Resolution::new(s).with_effect(Effect::GoldChanged { amount, new_total: total, reason: String::from_str(reason) })
        }
    }

    /// When `resolve_adjust_silver` may be called.
    pub open spec fn adjust_silver_allowed(world: GameWorld, amount: i32, reason: Seq<char>) -> bool {
        &&& coin_change_fits(world.player_character.inventory.silver, amount)
    }

    /// What `resolve_adjust_silver` gives.
    pub open spec fn adjust_silver_outcome(
        world: GameWorld,
        amount: i32,
        reason: Seq<char>,
        r: Resolution,
    ) -> bool {
        &&& ({
                let c = world.player_character;
                let total = c.inventory.silver + amount;
                &&& r.narrative@ =~= coin_text(c.name@, "sp"@, "silver"@, c.inventory.silver, amount, reason)
                &&& total < 0 ==> r.effects@.len() == 0
                &&& total >= 0 ==> r.effects@.len() == 1 && (r.effects@[0] matches Effect::SilverChanged { amount: a, new_total, reason: w }
                    && a == amount && new_total == total && w@ =~= reason)
            })
    }

    /// Silver is gained or spent; spending more than the purse holds is
    /// refused.
    pub fn resolve_adjust_silver(&self, world: &GameWorld, amount: i32, reason: &str) -> (r: Resolution)
        requires
            Self::adjust_silver_allowed(*world, amount, reason@),
        ensures
            Self::adjust_silver_outcome(*world, amount, reason@, r),
    {
        let c = &world.player_character;
        let mut s = String::new();
        push_coin_text(&mut s, c.name.as_str(), "sp", "silver", c.inventory.silver, amount, reason);
        let total = c.inventory.silver + amount;
        if total < 0 {
            Resolution::new(s)
        } else {
            Resolution::new(s).with_effect(Effect::SilverChanged { amount, new_total: total, reason: String::from_str(reason) })
        }
    }
}

/// The effects hold a death.
pub open spec fn reports_death(effects: Seq<Effect>) -> bool {
    exists|i: int| 0 <= i < effects.len() && #[trigger] effects[i] is CharacterDied
}

/// A dying character dies exactly when a death save brings the failures to
/// three: a natural 1 adds two failures, any other roll under 10 one; a
/// natural 20 and rolls of 10 or more never kill.
pub proof fn law_the_third_failure_kills(world: GameWorld, character_id: CharacterId, roll: i32, r: Resolution)
    requires
        RulesEngine::death_save_allowed(world, character_id, roll),
        RulesEngine::death_save_outcome(world, character_id, roll, r),
        world.player_character.hit_points.current <= 0,
    ensures
        reports_death(r.effects@) <==> (roll != 20 && roll < 10
            && world.player_character.death_saves.failures + (if roll == 1 { 2int } else { 1int }) >= 3),
{
    let f = world.player_character.death_saves.failures;
    let e = r.effects@;
    if roll != 20 && roll < 10 && f + (if roll == 1 { 2int } else { 1int }) >= 3 {
        assert(e[1] is CharacterDied);
    } else {
        assert forall|i: int| 0 <= i < e.len() implies !(#[trigger] e[i] is CharacterDied) by {
            if roll == 20 {
                assert(e[0] is DeathSavesReset && e[1] is HpChanged && e[2] is ConditionRemoved);
            } else if roll >= 10 && world.player_character.death_saves.successes + 1 >= 3 {
                assert(e[0] is DeathSaveSuccess && e[1] is Stabilized);
            }
        }
    }
}

/// A dying character who rolls 10 to 19 gains a success and becomes stable
/// exactly on the third success; such a roll never adds a failure.
pub proof fn law_the_third_success_stabilizes(world: GameWorld, character_id: CharacterId, roll: i32, r: Resolution)
    requires
        RulesEngine::death_save_allowed(world, character_id, roll),
        RulesEngine::death_save_outcome(world, character_id, roll, r),
        world.player_character.hit_points.current <= 0,
        10 <= roll <= 19,
    ensures
        r.effects@[0] matches Effect::DeathSaveSuccess { total_successes, .. }
            && total_successes == if world.player_character.death_saves.successes + 1 >= 3 { 3 }
                else { world.player_character.death_saves.successes + 1 },
        (exists|i: int| 0 <= i < r.effects@.len() && #[trigger] r.effects@[i] is Stabilized)
            <==> world.player_character.death_saves.successes + 1 >= 3,
        !reports_death(r.effects@),
{
    let e = r.effects@;
    if world.player_character.death_saves.successes + 1 >= 3 {
        assert(e[1] is Stabilized);
        assert forall|i: int| 0 <= i < e.len() implies !(#[trigger] e[i] is CharacterDied) by {
            assert(e[0] is DeathSaveSuccess && e[1] is Stabilized);
        }
    } else {
        assert(e.len() == 1 && e[0] is DeathSaveSuccess);
        assert forall|i: int| 0 <= i < e.len() implies !(#[trigger] e[i] is Stabilized) by {}
    }
}

} // verus!
