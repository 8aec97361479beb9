//! The state of a game the rules read and change: the player character, the
//! mode of play and the combat in progress.

use vstd::prelude::*;
use crate::abilities::{Ability, AbilityScores};
use crate::conditions::{ActiveCondition, Condition};
use crate::health::{DeathSaves, HitPoints};
use crate::ids::{CharacterId, v4_bits, v4_mask};
use crate::spellcasting::SpellcastingData;
use crate::intent::Skill;
use crate::attack::DamageDice;
use crate::rules::DamageType;
use crate::text::{ascii_lower, eq_ignore_ascii_case, opt_view};

verus! {

/// The classes a character can take levels in.
#[derive(Debug, Clone, Copy, PartialEq, Eq, Structural)]
pub enum CharacterClass {
    Barbarian,
    Bard,
    Cleric,
    Druid,
    Fighter,
    Monk,
    Paladin,
    Ranger,
    Rogue,
    Sorcerer,
    Warlock,
    Wizard,
}

/// Levels taken in one class.
#[derive(Debug, Clone)]
pub struct ClassLevel {
    pub class: CharacterClass,
    pub level: u8,
    pub subclass: Option<String>,
}

/// Uses left of a limited feature.
#[derive(Debug, Clone, Copy)]
pub struct FeatureUses {
    pub current: u8,
}

/// A class or racial feature; `uses` is `None` for features without a limit.
#[derive(Debug, Clone)]
pub struct Feature {
    pub name: String,
    pub uses: Option<FeatureUses>,
}

/// The pools and switches of class features.
#[derive(Debug, Clone)]
pub struct ClassResources {
    pub rage_active: bool,
    /// Extra melee damage while raging.
    pub rage_damage_bonus: i8,
    pub ki_points: u8,
    pub lay_on_hands_pool: u32,
    /// The beast a druid has become, while in Wild Shape.
    pub wild_shape_form: Option<String>,
    pub action_surge_used: bool,
    pub second_wind_used: bool,
    pub sorcery_points: u8,
}

impl ClassResources {
    /// Nothing in the pools, nothing spent and nothing active.
    pub open spec fn is_fresh(self) -> bool {
        &&& !self.rage_active && self.rage_damage_bonus == 0 && self.ki_points == 0 && self.lay_on_hands_pool == 0
        &&& self.wild_shape_form is None
        &&& !self.action_surge_used && !self.second_wind_used && self.sorcery_points == 0
    }

    pub fn new() -> (r: Self)
        ensures
            r.is_fresh(),
    {
        ClassResources {
            rage_active: false,
            rage_damage_bonus: 0,
            ki_points: 0,
            lay_on_hands_pool: 0,
            wild_shape_form: None,
            action_surge_used: false,
            second_wind_used: false,
            sorcery_points: 0,
        }
    }
}

/// How heavy a suit of armor is.
#[derive(Debug, Clone, Copy, PartialEq, Eq, Structural)]
pub enum ArmorType {
    Light,
    Medium,
    Heavy,
}

impl ArmorType {
    pub open spec fn spec_word(self) -> Seq<char> {
        match self {
            ArmorType::Light => "Light"@,
            ArmorType::Medium => "Medium"@,
            ArmorType::Heavy => "Heavy"@,
        }
    }

    /// "Light", "Medium" or "Heavy".
    pub fn word(&self) -> (r: &'static str)
        ensures
            r@ == self.spec_word(),
    {
        match self {
            ArmorType::Light => "Light",
            ArmorType::Medium => "Medium",
            ArmorType::Heavy => "Heavy",
        }
    }
}

/// Worn armor.
#[derive(Debug, Clone)]
pub struct Armor {
    pub name: String,
    pub armor_type: ArmorType,
    /// Armor class it gives before the Dexterity modifier.
    pub base_ac: u8,
    /// Heavy armor makes Stealth checks harder.
    pub stealth_disadvantage: bool,
}

/// Kinds of items, as far as the rules tell them apart.
#[derive(Debug, Clone, Copy, PartialEq, Eq, Structural)]
pub enum ItemType {
    Weapon,
    Armor,
    Shield,
    Potion,
    Scroll,
    /// Any other gear.
    Other,
}

/// A stack of items carried.
#[derive(Debug, Clone)]
pub struct InventoryItem {
    pub name: String,
    pub quantity: u32,
    pub item_type: ItemType,
    /// Worth of one, in gold pieces: the bits of an `f32`.
    pub value_gp_bits: u32,
    /// Weight of one, in pounds: the bits of an `f32`.
    pub weight_bits: u32,
}

/// The character's money and belongings.
#[derive(Debug, Clone)]
pub struct Inventory {
    /// Gold pieces.
    pub gold: i32,
    /// Silver pieces.
    pub silver: i32,
    /// Items carried; a lookup by name takes the first that matches.
    pub items: Vec<InventoryItem>,
}

/// A weapon held in the main hand.
#[derive(Debug, Clone)]
pub struct HeldWeapon {
    pub name: String,
    pub damage: DamageDice,
    pub damage_type: DamageType,
    /// May be wielded with Dexterity instead of Strength.
    pub finesse: bool,
    /// Fired or thrown from a distance.
    pub ranged: bool,
    pub two_handed: bool,
}

/// What is worn and held, slot by slot.
#[derive(Debug, Clone)]
pub struct Equipment {
    pub armor: Option<Armor>,
    pub shield: Option<String>,
    pub main_hand: Option<HeldWeapon>,
    pub off_hand: Option<String>,
}

/// The player's character, as far as the rules read it.
#[derive(Debug, Clone)]
pub struct Character {
    pub id: CharacterId,
    pub name: String,
    /// Character level, 1 to 20.
    pub level: u8,
    pub ability_scores: AbilityScores,
    pub hit_points: HitPoints,
    pub death_saves: DeathSaves,
    pub conditions: Vec<ActiveCondition>,
    /// Abilities whose saving throws add the proficiency bonus.
    pub saving_throw_proficiencies: Vec<Ability>,
    /// Experience points earned so far.
    pub experience: u32,
    /// Spells and slots, for characters who cast.
    pub spellcasting: Option<SpellcastingData>,
    /// Levels by class.
    pub classes: Vec<ClassLevel>,
    pub features: Vec<Feature>,
    pub class_resources: ClassResources,
    pub inventory: Inventory,
    /// Skills whose checks add the proficiency bonus.
    pub skill_proficiencies: Vec<Skill>,
    /// Armor class as the character stands now.
    pub armor_class: u8,
    pub equipment: Equipment,
}

/// Whether a list of active conditions holds a condition.
pub open spec fn has_condition_in(conditions: Seq<ActiveCondition>, condition: Condition) -> bool {
    exists|i: int| 0 <= i < conditions.len() && #[trigger] conditions[i].condition == condition
}

/// The proficiency bonus of a level: +2 at levels 1 to 4, one more every four levels.
pub open spec fn proficiency_for_level(level: u8) -> int {
    if level == 0 { 2 } else { 2 + (level - 1) / 4 }
}

impl Character {
    /// A level 1 character with every score 10, 10 hit points, armor class 10
    /// and nothing else.
    pub fn new(name: &str) -> (r: Self)
        ensures
            r.id.0 & v4_mask() == v4_bits(),
            r.name@ == name@,
            r.level == 1,
            r.hit_points == (HitPoints { current: 10, maximum: 10, temporary: 0 }),
            r.death_saves == (DeathSaves { successes: 0, failures: 0 }),
            r.conditions@.len() == 0,
            r.saving_throw_proficiencies@.len() == 0,
            r.experience == 0,
            r.spellcasting is None,
            r.classes@.len() == 0,
            r.features@.len() == 0,
            r.class_resources.is_fresh(),
            r.inventory.gold == 0 && r.inventory.silver == 0 && r.inventory.items@.len() == 0,
            r.skill_proficiencies@.len() == 0,
            r.armor_class == 10,
            r.equipment.armor is None && r.equipment.shield is None,
            r.equipment.main_hand is None && r.equipment.off_hand is None,
    {
        Character {
            id: CharacterId::new(),
            name: String::from_str(name),
            level: 1,
            ability_scores: AbilityScores::default(),
            hit_points: HitPoints::new(10),
            death_saves: DeathSaves::default(),
            conditions: Vec::new(),
            saving_throw_proficiencies: Vec::new(),
            experience: 0,
            spellcasting: None,
            classes: Vec::new(),
            features: Vec::new(),
            class_resources: ClassResources::new(),
            inventory: Inventory { gold: 0, silver: 0, items: Vec::new() },
            skill_proficiencies: Vec::new(),
            armor_class: 10,
            equipment: Equipment { armor: None, shield: None, main_hand: None, off_hand: None },
        }
    }

    pub fn has_condition(&self, condition: Condition) -> (r: bool)
        ensures
            r == has_condition_in(self.conditions@, condition),
    {
        let mut i: usize = 0;
        while i < self.conditions.len()
            invariant
                0 <= i <= self.conditions@.len(),
                forall|j: int| 0 <= j < i ==> self.conditions@[j].condition != condition,
            decreases self.conditions@.len() - i,
        {
            if self.conditions[i].condition == condition {
                return true;
            }
            i = i + 1;
        }
        false
    }

    /// The proficiency bonus of the character's level.
    pub fn proficiency_bonus(&self) -> (r: i8)
        ensures
            r as int == proficiency_for_level(self.level),
    {
        if self.level == 0 { 2 } else { (2 + (self.level - 1) / 4) as i8 }
    }

    /// Added to initiative rolls: the Dexterity modifier.
    pub fn initiative_modifier(&self) -> (r: i8)
        requires
            self.ability_scores.modifier_defined(Ability::Dexterity),
        ensures
            r as int == crate::abilities::score_modifier(self.ability_scores.dexterity),
    {
        self.ability_scores.modifier(Ability::Dexterity)
    }

    /// Whether the character adds proficiency to checks of a skill.
    pub fn is_proficient_in_skill(&self, skill: Skill) -> (r: bool)
        ensures
            r == self.skill_proficiencies@.contains(skill),
    {
        let mut i: usize = 0;
        while i < self.skill_proficiencies.len()
            invariant
                0 <= i <= self.skill_proficiencies@.len(),
                forall|j: int| 0 <= j < i ==> self.skill_proficiencies@[j] != skill,
            decreases self.skill_proficiencies@.len() - i,
        {
            if self.skill_proficiencies[i] == skill {
                return true;
            }
            i = i + 1;
        }
        false
    }

    /// Whether the character adds proficiency to saving throws of an ability.
    pub fn is_proficient_in_save(&self, ability: Ability) -> (r: bool)
        ensures
            r == self.saving_throw_proficiencies@.contains(ability),
    {
        let mut i: usize = 0;
        while i < self.saving_throw_proficiencies.len()
            invariant
                0 <= i <= self.saving_throw_proficiencies@.len(),
                forall|j: int| 0 <= j < i ==> self.saving_throw_proficiencies@[j] != ability,
            decreases self.saving_throw_proficiencies@.len() - i,
        {
            if self.saving_throw_proficiencies[i] == ability {
                return true;
            }
            i = i + 1;
        }
        false
    }
}

/// A level 1 fighter with the standard array (strength first), 11 hit points
/// and proficiency in Strength and Constitution saving throws.
pub fn create_sample_fighter(name: &str) -> (r: Character)
    ensures
        r.name@ == name@,
        r.level == 1,
        r.ability_scores.strength == 15 && r.ability_scores.dexterity == 14,
        r.ability_scores.constitution == 13 && r.ability_scores.intelligence == 12,
        r.ability_scores.wisdom == 10 && r.ability_scores.charisma == 8,
        r.hit_points == (HitPoints { current: 11, maximum: 11, temporary: 0 }),
        r.death_saves == (DeathSaves { successes: 0, failures: 0 }),
        r.conditions@.len() == 0,
        r.saving_throw_proficiencies@ == seq![Ability::Strength, Ability::Constitution],
        r.experience == 0,
        r.spellcasting is None,
        r.classes@.len() == 1,
        r.classes@[0].class == CharacterClass::Fighter && r.classes@[0].level == 1 && r.classes@[0].subclass is None,
{
    let mut c = Character::new(name);
    c.ability_scores = AbilityScores::standard_array();
    c.hit_points = HitPoints::new(11);
    c.classes.push(ClassLevel { class: CharacterClass::Fighter, level: 1, subclass: None });
    c.saving_throw_proficiencies.push(Ability::Strength);
    c.saving_throw_proficiencies.push(Ability::Constitution);
    c
}

/// How the game is being played at the moment.
#[derive(Debug, Clone, Copy, PartialEq, Eq, Structural)]
pub enum GameMode {
    Exploration,
    Combat,
}

/// A creature in the initiative order.
#[derive(Debug, Clone)]
pub struct Combatant {
    pub id: CharacterId,
    pub name: String,
    pub initiative: i32,
    pub is_player: bool,
    pub is_ally: bool,
    pub current_hp: i32,
    pub max_hp: i32,
    pub armor_class: u8,
}

/// A fight in progress.
#[derive(Debug, Clone)]
pub struct CombatState {
    pub active: bool,
    /// Round number, from 1.
    pub round: u32,
    /// Whose turn it is, as a position in `combatants`.
    pub turn_index: usize,
    pub combatants: Vec<Combatant>,
    /// Who has used Sneak Attack this turn.
    pub sneak_attack_used: Vec<CharacterId>,
}

/// The turn after `(turn_index, round)` among `n` combatants: the next one,
/// wrapping to the first and starting a new round after the last.
pub open spec fn next_turn_of(turn_index: usize, round: u32, n: nat) -> (usize, u32) {
    if turn_index + 1 >= n { (0, (round + 1) as u32) } else { ((turn_index + 1) as usize, round) }
}

/// Where the turn stands after `k` passes from `(turn_index, round)`.
pub open spec fn turns_after(k: nat, turn_index: usize, round: u32, n: nat) -> (usize, u32)
    decreases k,
{
    if k == 0 {
        (turn_index, round)
    } else {
        let (t, r) = turns_after((k - 1) as nat, turn_index, round, n);
        next_turn_of(t, r, n)
    }
}

/// Where the turn stands after `k` passes, at most one round on.
proof fn lemma_turns_after(k: nat, turn_index: usize, round: u32, n: nat)
    requires
        turn_index < n <= usize::MAX,
        k <= n,
        round < u32::MAX,
    ensures
        turns_after(k, turn_index, round, n) == (if turn_index + k < n {
            ((turn_index + k) as usize, round)
        } else {
            ((turn_index + k - n) as usize, (round + 1) as u32)
        }),
    decreases k,
{
    if k > 0 {
        lemma_turns_after((k - 1) as nat, turn_index, round, n);
    }
}

/// With `n` combatants, `n` passes of the turn come back to the same
/// combatant, one round later; the turn never leaves the order.
pub proof fn law_turns_cycle_through_the_order(turn_index: usize, round: u32, n: nat)
    requires
        turn_index < n <= usize::MAX,
        round < u32::MAX,
    ensures
        turns_after(n, turn_index, round, n) == (turn_index, (round + 1) as u32),
        forall|k: nat| k <= n ==> (#[trigger] turns_after(k, turn_index, round, n)).0 < n,
{
    lemma_turns_after(n, turn_index, round, n);
    assert forall|k: nat| k <= n implies (#[trigger] turns_after(k, turn_index, round, n)).0 < n by {
        lemma_turns_after(k, turn_index, round, n);
    }
}

impl CombatState {
    /// A fight at round 1, first turn, with nobody in it yet.
    pub fn new() -> (r: Self)
        ensures
            r.active,
            r.round == 1,
            r.turn_index == 0,
            r.combatants@.len() == 0,
            r.sneak_attack_used@.len() == 0,
    {
        CombatState {
            active: true,
            round: 1,
            turn_index: 0,
            combatants: Vec::new(),
            sneak_attack_used: Vec::new(),
        }
    }

    /// Passes the turn to the next combatant; Sneak Attack becomes available again.
    pub fn next_turn(&mut self)
        requires
            old(self).round < u32::MAX,
            old(self).turn_index < usize::MAX,
        ensures
            (final(self).turn_index, final(self).round) == next_turn_of(
                old(self).turn_index,
                old(self).round,
                old(self).combatants@.len(),
            ),
            final(self).active == old(self).active,
            final(self).combatants == old(self).combatants,
            final(self).sneak_attack_used@.len() == 0,
    {
        if self.turn_index + 1 >= self.combatants.len() {
            self.turn_index = 0;
            self.round = self.round + 1;
        } else {
            self.turn_index = self.turn_index + 1;
        }
        self.sneak_attack_used = Vec::new();
    }

    /// The combatant whose turn it is.
    pub fn current_combatant(&self) -> (r: Option<&Combatant>)
        ensures
            r == (if self.turn_index < self.combatants@.len() {
                Some(&self.combatants@[self.turn_index as int])
            } else {
                None
            }),
    {
        if self.turn_index < self.combatants.len() {
            Some(&self.combatants[self.turn_index])
        } else {
            None
        }
    }
}

/// Identifies a place of the world.
#[derive(Debug, Clone, Copy, PartialEq, Eq, Hash, Structural)]
pub struct LocationId(pub u128);

/// A place the world knows of.
#[derive(Debug, Clone)]
pub struct Location {
    pub id: LocationId,
    pub name: String,
}

/// How an NPC feels about the player.
#[derive(Debug, Clone, Copy, PartialEq, Eq, Structural)]
pub enum Disposition {
    Hostile,
    Unfriendly,
    Neutral,
    Friendly,
    Helpful,
}

impl Disposition {
    /// The word for the disposition, in lower case.
    pub open spec fn spec_word(self) -> Seq<char> {
        match self {
            Disposition::Hostile => "hostile"@,
            Disposition::Unfriendly => "unfriendly"@,
            Disposition::Neutral => "neutral"@,
            Disposition::Friendly => "friendly"@,
            Disposition::Helpful => "helpful"@,
        }
    }

    /// The name of the variant, as `Debug` prints it.
    pub open spec fn spec_debug_name(self) -> Seq<char> {
        match self {
            Disposition::Hostile => "Hostile"@,
            Disposition::Unfriendly => "Unfriendly"@,
            Disposition::Neutral => "Neutral"@,
            Disposition::Friendly => "Friendly"@,
            Disposition::Helpful => "Helpful"@,
        }
    }

    pub fn word(&self) -> (r: &'static str)
        ensures
            r@ == self.spec_word(),
    {
        match self {
            Disposition::Hostile => "hostile",
            Disposition::Unfriendly => "unfriendly",
            Disposition::Neutral => "neutral",
            Disposition::Friendly => "friendly",
            Disposition::Helpful => "helpful",
        }
    }

    pub fn debug_name(&self) -> (r: &'static str)
        ensures
            r@ == self.spec_debug_name(),
    {
        match self {
            Disposition::Hostile => "Hostile",
            Disposition::Unfriendly => "Unfriendly",
            Disposition::Neutral => "Neutral",
            Disposition::Friendly => "Friendly",
            Disposition::Helpful => "Helpful",
        }
    }
}

/// A character of the world other than the player's.
#[derive(Debug, Clone)]
pub struct Npc {
    pub name: String,
    pub disposition: Disposition,
    pub occupation: Option<String>,
    /// Where the NPC is, when known.
    pub location_id: Option<LocationId>,
    /// What the NPC knows, one fact per line.
    pub known_information: Vec<String>,
}

/// The game as the rules see it.
#[derive(Debug, Clone)]
pub struct GameWorld {
    pub campaign_name: String,
    pub player_character: Character,
    pub mode: GameMode,
    pub combat: Option<CombatState>,
    /// The NPCs of the world; a lookup by name takes the first that matches.
    pub npcs: Vec<Npc>,
    /// The places the world knows of; a lookup by id takes the first.
    pub known_locations: Vec<Location>,
    /// Where the player is.
    pub current_location: Location,
}

/// Two names are the same when they are equal once put in ASCII lower case.
pub open spec fn same_name(a: Seq<char>, b: Seq<char>) -> bool {
    ascii_lower(a) == ascii_lower(b)
}

/// Position of the first NPC at or after `i` named `name`.
pub open spec fn npc_position_from(npcs: Seq<Npc>, name: Seq<char>, i: int) -> Option<int>
    decreases npcs.len() - i,
{
    if i < 0 || i >= npcs.len() {
        None
    } else if same_name(npcs[i].name@, name) {
        Some(i)
    } else {
        npc_position_from(npcs, name, i + 1)
    }
}

/// The first NPC of the world named `name`, in any ASCII case.
pub open spec fn npc_named(world: GameWorld, name: Seq<char>) -> Option<Npc> {
    match npc_position_from(world.npcs@, name, 0) {
        Some(i) => Some(world.npcs@[i]),
        None => None,
    }
}

/// Position of the first known place at or after `i` with id `id`.
pub open spec fn location_position_from(locations: Seq<Location>, id: LocationId, i: int) -> Option<int>
    decreases locations.len() - i,
{
    if i < 0 || i >= locations.len() {
        None
    } else if locations[i].id == id {
        Some(i)
    } else {
        location_position_from(locations, id, i + 1)
    }
}

/// The name of the known place with id `id`.
pub open spec fn location_name_of(world: GameWorld, id: LocationId) -> Option<Seq<char>> {
    match location_position_from(world.known_locations@, id, 0) {
        Some(i) => Some(world.known_locations@[i].name@),
        None => None,
    }
}

/// The name of the place where an NPC is, when both are known.
pub open spec fn npc_location_name(world: GameWorld, npc: Npc) -> Option<Seq<char>> {
    match npc.location_id {
        Some(id) => location_name_of(world, id),
        None => None,
    }
}

impl GameWorld {
    /// A campaign starting out of combat, at a place not yet named
    /// ("Unknown", id 0).
    pub fn new(campaign_name: &str, player_character: Character) -> (r: Self)
        ensures
            r.current_location.id == LocationId(0) && r.current_location.name@ == "Unknown"@,
            r.campaign_name@ == campaign_name@,
            r.player_character == player_character,
            r.mode == GameMode::Exploration,
            r.combat is None,
            r.npcs@.len() == 0,
            r.known_locations@.len() == 0,
    {
        GameWorld {
            campaign_name: String::from_str(campaign_name),
            player_character,
            mode: GameMode::Exploration,
            combat: None,
            npcs: Vec::new(),
            known_locations: Vec::new(),
            current_location: Location { id: LocationId(0), name: String::from_str("Unknown") },
        }
    }

    /// The first NPC named `name`, in any ASCII case.
    pub fn find_npc(&self, name: &str) -> (r: Option<&Npc>)
        ensures
            match r {
                Some(n) => npc_named(*self, name@) == Some(*n),
                None => npc_named(*self, name@) is None,
            },
    {
        let mut i: usize = 0;
        while i < self.npcs.len()
            invariant
                0 <= i <= self.npcs@.len(),
                npc_position_from(self.npcs@, name@, 0) == npc_position_from(self.npcs@, name@, i as int),
            decreases self.npcs@.len() - i,
        {
            if eq_ignore_ascii_case(self.npcs[i].name.as_str(), name) {
                assert(npc_position_from(self.npcs@, name@, i as int) == Some(i as int));
                return Some(&self.npcs[i]);
            }
            i = i + 1;
        }
        None
    }

    /// The name of the known place with id `id`.
    pub fn location_name(&self, id: LocationId) -> (r: Option<String>)
        ensures
            opt_view(r) == location_name_of(*self, id),
    {
        let mut i: usize = 0;
        while i < self.known_locations.len()
            invariant
                0 <= i <= self.known_locations@.len(),
                location_position_from(self.known_locations@, id, 0)
                    == location_position_from(self.known_locations@, id, i as int),
            decreases self.known_locations@.len() - i,
        {
            if self.known_locations[i].id == id {
                assert(location_position_from(self.known_locations@, id, i as int) == Some(i as int));
                return Some(self.known_locations[i].name.clone());
            }
            i = i + 1;
        }
        None
    }

    /// The name of the place where an NPC is, when both are known.
    pub fn npc_location(&self, npc: &Npc) -> (r: Option<String>)
        ensures
            opt_view(r) == npc_location_name(*self, *npc),
    {
        match npc.location_id {
            Some(id) => self.location_name(id),
            None => None,
        }
    }
}

/// Starts a fight: the game enters combat mode with a fresh combat state,
/// which is returned for filling in.
pub fn start_combat(world: &mut GameWorld) -> (r: &mut CombatState)
    ensures
        *final(world) == (GameWorld { mode: GameMode::Combat, combat: Some(*final(r)), ..*old(world) }),
        r.active && r.round == 1 && r.turn_index == 0,
        r.combatants@.len() == 0 && r.sneak_attack_used@.len() == 0,
{
    world.mode = GameMode::Combat;
    world.combat.insert(CombatState::new())
}

/// Ends the fight and returns to exploration.
pub fn end_combat(world: &mut GameWorld)
    ensures
        *final(world) == (GameWorld { combat: None, mode: GameMode::Exploration, ..*old(world) }),
{
    world.combat = None;
    world.mode = GameMode::Exploration;
}

/// Passes the turn in the fight, if there is one, and returns whose turn it
/// now is.
pub fn next_turn(world: &mut GameWorld) -> (r: Option<usize>)
    requires
        old(world).combat matches Some(c) ==> c.round < u32::MAX && c.turn_index < usize::MAX,
    ensures
        match old(world).combat {
            None => r is None && *final(world) == *old(world),
            Some(c) => {
                let (t, n) = next_turn_of(c.turn_index, c.round, c.combatants@.len());
                &&& r == Some(t)
                &&& final(world).combat matches Some(d) && d.turn_index == t && d.round == n
                    && d.combatants == c.combatants && d.active == c.active && d.sneak_attack_used@.len() == 0
                &&& *final(world) == (GameWorld { combat: final(world).combat, ..*old(world) })
            },
        },
{
    match &mut world.combat {
        Some(combat) => {
            combat.next_turn();
            Some(combat.turn_index)
        },
        None => None,
    }
}

} // verus!
