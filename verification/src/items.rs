//! Items: gaining and losing them, equipping and unequipping, and using
//! potions and scrolls.
//!
//! Items are looked up by name, ignoring ASCII case. What the item list
//! knows of a weapon or armor, and what a potion's healing dice rolled, are
//! arguments.

use vstd::prelude::*;
use crate::conditions::Condition;
use crate::ids::CharacterId;
use crate::rules::{Effect, Resolution, RulesEngine};
use crate::text::{int_text, lowercase, nat_text, push_int, push_nat, push_str, to_lowercase};
use crate::world::{has_condition_in, same_name, Character, GameWorld, InventoryItem, ItemType};
use crate::attack::DamageDice;
use crate::text::{eq_ignore_ascii_case, opt_str_view};

verus! {

/// Position of the first item at or after `i` named `name`, in any ASCII case.
pub open spec fn item_position_from(items: Seq<InventoryItem>, name: Seq<char>, i: int) -> Option<int>
    decreases items.len() - i,
{
    if i < 0 || i >= items.len() {
        None
    } else if same_name(items[i].name@, name) {
        Some(i)
    } else {
        item_position_from(items, name, i + 1)
    }
}

/// The first item the character carries named `name`.
pub open spec fn item_named(c: Character, name: Seq<char>) -> Option<InventoryItem> {
    match item_position_from(c.inventory.items@, name, 0) {
        Some(i) => Some(c.inventory.items@[i]),
        None => None,
    }
}

/// How many of an item the character carries.
pub open spec fn held_quantity(c: Character, name: Seq<char>) -> nat {
    match item_named(c, name) {
        Some(item) => item.quantity as nat,
        None => 0,
    }
}

/// "{n} x " before an item name when more than one changes hands.
pub open spec fn count_prefix(quantity: u32) -> Seq<char> {
    if quantity > 1 { nat_text(quantity as nat) + " x "@ } else { Seq::empty() }
}

/// The slot an item type goes in: weapons in the main hand, armor, shields.
pub open spec fn slot_of(t: ItemType) -> Option<Seq<char>> {
    match t {
        ItemType::Weapon => Some("main_hand"@),
        ItemType::Armor => Some("armor"@),
        ItemType::Shield => Some("shield"@),
        _ => None,
    }
}

/// The name of what is in an equipment slot, by the slot's lower-case
/// name; `None` for a slot that does not exist.
pub open spec fn slot_content(c: Character, slot: Seq<char>) -> Option<Option<Seq<char>>> {
    if slot == "armor"@ {
        Some(match c.equipment.armor { Some(a) => Some(a.name@), None => None })
    } else if slot == "shield"@ {
        Some(match c.equipment.shield { Some(n) => Some(n@), None => None })
    } else if slot == "main_hand"@ || slot == "weapon"@ {
        Some(match c.equipment.main_hand { Some(w) => Some(w.name@), None => None })
    } else if slot == "off_hand"@ {
        Some(match c.equipment.off_hand { Some(n) => Some(n@), None => None })
    } else {
        None
    }
}

/// The effect that items were removed.
pub open spec fn is_removal(e: Effect, item: Seq<char>, quantity: u32, remaining: int) -> bool {
    e matches Effect::ItemRemoved { item_name, quantity: q, remaining: rest }
        && item_name@ == item && q == quantity && rest == remaining
}

/// The armor line of an inventory listing.
pub open spec fn armor_line(c: Character) -> Seq<char> {
    match c.equipment.armor {
        Some(a) => "  Armor: "@ + a.name@ + " ("@ + a.armor_type.spec_word() + " armor, base AC "@
            + nat_text(a.base_ac as nat) + ")"@
            + (if a.stealth_disadvantage { " [Stealth Disadvantage]"@ } else { Seq::empty() }) + "\n"@,
        None => "  Armor: None (unarmored)\n"@,
    }
}

/// The shield line of an inventory listing.
pub open spec fn shield_line(c: Character) -> Seq<char> {
    match c.equipment.shield {
        Some(n) => "  Shield: "@ + n@ + " (+2 AC)\n"@,
        None => "  Shield: None\n"@,
    }
}

/// The main hand line of an inventory listing.
pub open spec fn main_hand_line(c: Character) -> Seq<char> {
    match c.equipment.main_hand {
        Some(w) => "  Main Hand: "@ + w.name@ + " ("@ + w.damage.spec_text() + " "@ + w.damage_type.spec_name() + ")"@
            + (if w.two_handed { " [Two-Handed]"@ } else { Seq::empty() }) + "\n"@,
        None => "  Main Hand: Empty\n"@,
    }
}

/// The off hand line of an inventory listing, when something is there.
pub open spec fn off_hand_line(c: Character) -> Seq<char> {
    match c.equipment.off_hand {
        Some(n) => "  Off Hand: "@ + n@ + "\n"@,
        None => Seq::empty(),
    }
}

/// The shield, main hand and off hand lines of an inventory listing.
pub open spec fn held_lines(c: Character) -> Seq<char> {
    shield_line(c) + main_hand_line(c) + off_hand_line(c)
}

/// The worth written for the item at position `i`, if any.
pub open spec fn value_at(values: Seq<Option<String>>, i: int) -> Option<Seq<char>> {
    if 0 <= i < values.len() {
        match values[i] {
            Some(v) => Some(v@),
            None => None,
        }
    } else {
        None
    }
}

/// One line per item: its name, how many when more than one, and its worth.
pub open spec fn item_lines(items: Seq<InventoryItem>, values: Seq<Option<String>>) -> Seq<char>
    decreases items.len(),
{
    if items.len() == 0 {
        Seq::empty()
    } else {
        let i = items.len() - 1;
        let item = items[i];
        item_lines(items.drop_last(), values) + "  - "@ + item.name@
            + (if item.quantity > 1 { " (x"@ + nat_text(item.quantity as nat) + ")"@ } else { Seq::empty() })
            + (match value_at(values, i) {
                Some(v) => " ["@ + v + " gp]"@,
                None => Seq::empty(),
            }) + "\n"@
    }
}

/// What the character carries, worn and held, as the inventory tool shows
/// it.
pub open spec fn inventory_listing(c: Character, values: Seq<Option<String>>, total_weight: Seq<char>) -> Seq<char> {
    "=== "@ + c.name@ + "'s Inventory ===\n\n"@
        + "Currency: "@ + int_text(c.inventory.gold as int) + " gp, "@ + int_text(c.inventory.silver as int) + " sp\n\n"@
        + "Current AC: "@ + nat_text(c.armor_class as nat) + "\n\n"@
        + "Equipment:\n"@ + armor_line(c) + held_lines(c)
        + (if c.inventory.items@.len() == 0 {
            "\nInventory: Empty\n"@
        } else {
            "\nInventory:\n"@ + item_lines(c.inventory.items@, values)
        })
        + "\nTotal Weight: "@ + total_weight + " lb\n"@
}

/// Lists what the player carries, wears and holds. `values` holds, by
/// position, the worth of each item in gold written without decimals, for
/// items worth anything; `total_weight` is the weight carried, written with
/// one decimal.
fn push_armor_line(s: &mut String, c: &Character)
    ensures
        final(s)@ == old(s)@ + armor_line(*c),
{
    match &c.equipment.armor {
        Some(a) => {
            push_str(s, "  Armor: ");
            push_str(s, a.name.as_str());
            push_str(s, " (");
            push_str(s, a.armor_type.word());
            push_str(s, " armor, base AC ");
            push_nat(s, a.base_ac as u64);
            push_str(s, ")");
            if a.stealth_disadvantage {
                push_str(s, " [Stealth Disadvantage]");
            }
            push_str(s, "\n");
        },
        None => push_str(s, "  Armor: None (unarmored)\n"),
    }
    assert(final(s)@ =~= old(s)@ + armor_line(*c));
}

fn push_shield_line(s: &mut String, c: &Character)
    ensures
        final(s)@ == old(s)@ + shield_line(*c),
{
    match &c.equipment.shield {
        Some(n) => {
            push_str(s, "  Shield: ");
            push_str(s, n.as_str());
            push_str(s, " (+2 AC)\n");
        },
        None => push_str(s, "  Shield: None\n"),
    }
    assert(final(s)@ =~= old(s)@ + shield_line(*c));
}

fn push_main_hand_line(s: &mut String, c: &Character)
    ensures
        final(s)@ == old(s)@ + main_hand_line(*c),
{
    match &c.equipment.main_hand {
        Some(w) => {
            push_str(s, "  Main Hand: ");
            push_str(s, w.name.as_str());
            push_str(s, " (");
            let dice = w.damage.notation(false);
            push_str(s, dice.as_str());
            push_str(s, " ");
            push_str(s, w.damage_type.name());
            push_str(s, ")");
            if w.two_handed {
                push_str(s, " [Two-Handed]");
            }
            push_str(s, "\n");
        },
        None => push_str(s, "  Main Hand: Empty\n"),
    }
    assert(final(s)@ =~= old(s)@ + main_hand_line(*c));
}

fn push_off_hand_line(s: &mut String, c: &Character)
    ensures
        final(s)@ == old(s)@ + off_hand_line(*c),
{
    match &c.equipment.off_hand {
        Some(n) => {
            push_str(s, "  Off Hand: ");
            push_str(s, n.as_str());
            push_str(s, "\n");
        },
        None => {},
    }
    assert(final(s)@ =~= old(s)@ + off_hand_line(*c));
}

fn push_item_lines(s: &mut String, items: &Vec<InventoryItem>, values: &[Option<String>])
    ensures
        final(s)@ == old(s)@ + item_lines(items@, values@),
{
    let ghost start = s@;
    let mut i: usize = 0;
    while i < items.len()
        invariant
            0 <= i <= items@.len(),
            s@ == start + item_lines(items@.take(i as int), values@),
        decreases items@.len() - i,
    {
        let item = &items[i];
        push_str(s, "  - ");
        push_str(s, item.name.as_str());
        if item.quantity > 1 {
            push_str(s, " (x");
            push_nat(s, item.quantity as u64);
            push_str(s, ")");
        }
        if i < values.len() {
            match &values[i] {
                Some(v) => {
                    push_str(s, " [");
                    push_str(s, v.as_str());
                    push_str(s, " gp]");
                },
                None => {},
            }
        }
        push_str(s, "\n");
        proof {
            let t = items@.take(i + 1);
            assert(t.drop_last() =~= items@.take(i as int));
            assert(t[i as int] == items@[i as int]);
            assert(s@ =~= start + item_lines(t, values@));
        }
        i = i + 1;
    }
    assert(items@.take(items@.len() as int) =~= items@);
}

/// Lists what the player carries, wears and holds. `values` holds, by
/// position, the worth of each item in gold written without decimals, for
/// items worth anything; `total_weight` is the weight carried, written with
/// one decimal.
pub fn format_inventory(world: &GameWorld, values: &[Option<String>], total_weight: &str) -> (r: String)
    ensures
        r@ == inventory_listing(world.player_character, values@, total_weight@),
{
    let c = &world.player_character;
    let mut s = String::new();
    push_str(&mut s, "=== ");
    push_str(&mut s, c.name.as_str());
    push_str(&mut s, "'s Inventory ===\n\n");
    push_str(&mut s, "Currency: ");
    push_int(&mut s, c.inventory.gold as i64);
    push_str(&mut s, " gp, ");
    push_int(&mut s, c.inventory.silver as i64);
    push_str(&mut s, " sp\n\n");
    push_str(&mut s, "Current AC: ");
    push_nat(&mut s, c.armor_class as u64);
    push_str(&mut s, "\n\n");
    push_str(&mut s, "Equipment:\n");
    push_armor_line(&mut s, c);
    push_shield_line(&mut s, c);
    push_main_hand_line(&mut s, c);
    push_off_hand_line(&mut s, c);
    if c.inventory.items.len() == 0 {
        push_str(&mut s, "\nInventory: Empty\n");
    } else {
        push_str(&mut s, "\nInventory:\n");
        push_item_lines(&mut s, &c.inventory.items, values);
    }
    push_str(&mut s, "\nTotal Weight: ");
    push_str(&mut s, total_weight);
    push_str(&mut s, " lb\n");
    assert(s@ =~= inventory_listing(*c, values@, total_weight@));
    s
}

fn find_item<'a>(c: &'a Character, name: &str) -> (r: Option<&'a InventoryItem>)
    ensures
        match r {
            Some(item) => item_named(*c, name@) == Some(*item),
            None => item_named(*c, name@) is None,
        },
{
    let items = &c.inventory.items;
    let mut i: usize = 0;
    while i < items.len()
        invariant
            0 <= i <= items@.len(),
            items@ == c.inventory.items@,
            item_position_from(items@, name@, 0) == item_position_from(items@, name@, i as int),
        decreases items@.len() - i,
    {
        if eq_ignore_ascii_case(items[i].name.as_str(), name) {
            return Some(&items[i]);
        }
        i = i + 1;
    }
    None
}

fn push_count(s: &mut String, quantity: u32)
    ensures
        final(s)@ == old(s)@ + count_prefix(quantity),
{
    if quantity > 1 {
        push_nat(s, quantity as u64);
        push_str(s, " x ");
    }
    assert(final(s)@ =~= old(s)@ + count_prefix(quantity));
}

fn copy_name(n: &Option<String>) -> (r: Option<String>)
    ensures
        match (r, *n) {
            (Some(a), Some(b)) => a@ == b@,
            (None, None) => true,
            _ => false,
        },
{
    match n {
        Some(x) => Some(x.clone()),
        None => None,
    }
}

fn text(t: &str) -> (r: String)
    ensures
        r@ == t@,
{
    String::from_str(t)
}

impl RulesEngine {
    /// When `resolve_add_item` may be called.
    pub open spec fn add_item_allowed(
        world: GameWorld,
        item_name: Seq<char>,
        quantity: u32,
        _item_type: Option<Seq<char>>,
        _description: Option<Seq<char>>,
        _magical: bool,
    ) -> bool {
        &&& held_quantity(world.player_character, item_name) + quantity <= u32::MAX
    }

    /// What `resolve_add_item` gives.
    pub open spec fn add_item_outcome(
        world: GameWorld,
        item_name: Seq<char>,
        quantity: u32,
        _item_type: Option<Seq<char>>,
        _description: Option<Seq<char>>,
        _magical: bool,
        r: Resolution,
    ) -> bool {
        &&& ({
                let c = world.player_character;
                let total = (held_quantity(c, item_name) + quantity) as nat;
                &&& r.narrative@ =~= c.name@ + " receives "@ + count_prefix(quantity) + item_name + " (now has "@
                    + nat_text(total) + " total)"@
                &&& r.effects@.len() == 1
                &&& r.effects@[0] matches Effect::ItemAdded { item_name: n, quantity: q, new_total }
                    && n@ =~= item_name && q == quantity && new_total == total
            })
    }

    /// The character receives items; the total counts what was carried.
    /// The kind, description and magic of the item are not read here.
    pub fn resolve_add_item(
        &self,
        world: &GameWorld,
        item_name: &str,
        quantity: u32,
        _item_type: Option<&str>,
        _description: Option<&str>,
        _magical: bool,
    ) -> (r: Resolution)
        requires
            Self::add_item_allowed(
                *world, item_name@, quantity, opt_str_view(_item_type), opt_str_view(_description),
                _magical,
            ),
        ensures
            Self::add_item_outcome(
                *world, item_name@, quantity, opt_str_view(_item_type), opt_str_view(_description),
                _magical, r,
            ),
    {
        let c = &world.player_character;
        let existing: u32 = match find_item(c, item_name) {
            Some(item) => item.quantity,
            None => 0,
        };
        let total = existing + quantity;
        let mut s = String::new();
        push_str(&mut s, c.name.as_str());
        push_str(&mut s, " receives ");
        push_count(&mut s, quantity);
        push_str(&mut s, item_name);
        push_str(&mut s, " (now has ");
        push_nat(&mut s, total as u64);
        push_str(&mut s, " total)");
        Resolution::new(s).with_effect(Effect::ItemAdded { item_name: text(item_name), quantity, new_total: total })
    }

    /// What `resolve_remove_item` gives.
    pub open spec fn remove_item_outcome(
        world: GameWorld,
        item_name: Seq<char>,
        quantity: u32,
        r: Resolution,
    ) -> bool {
        &&& ({
                let c = world.player_character;
                match item_named(c, item_name) {
                    Some(item) => if item.quantity >= quantity {
                        &&& r.narrative@ =~= c.name@ + " loses "@ + count_prefix(quantity) + item_name + " ("@
                            + nat_text((item.quantity - quantity) as nat) + " remaining)"@
                        &&& r.effects@.len() == 1
                        &&& is_removal(r.effects@[0], item_name, quantity, item.quantity - quantity)
                    } else {
                        &&& r.narrative@ =~= c.name@ + " doesn't have enough "@ + item_name + " (has "@
                            + nat_text(item.quantity as nat) + ", needs "@ + nat_text(quantity as nat) + ")"@
                        &&& r.effects@.len() == 0
                    },
                    None => {
                        &&& r.narrative@ =~= c.name@ + " doesn't have any "@ + item_name
                        &&& r.effects@.len() == 0
                    },
                }
            })
    }

    /// The character loses items, when carrying enough of them.
    pub fn resolve_remove_item(&self, world: &GameWorld, item_name: &str, quantity: u32) -> (r: Resolution)
        ensures
            Self::remove_item_outcome(*world, item_name@, quantity, r),
    {
        let c = &world.player_character;
        let mut s = String::new();
        push_str(&mut s, c.name.as_str());
        match find_item(c, item_name) {
            Some(item) => {
                if item.quantity >= quantity {
                    let remaining = item.quantity - quantity;
                    push_str(&mut s, " loses ");
                    push_count(&mut s, quantity);
                    push_str(&mut s, item_name);
                    push_str(&mut s, " (");
                    push_nat(&mut s, remaining as u64);
                    push_str(&mut s, " remaining)");
                    Resolution::new(s).with_effect(Effect::ItemRemoved { item_name: text(item_name), quantity, remaining })
                } else {
                    push_str(&mut s, " doesn't have enough ");
                    push_str(&mut s, item_name);
                    push_str(&mut s, " (has ");
                    push_nat(&mut s, item.quantity as u64);
                    push_str(&mut s, ", needs ");
                    push_nat(&mut s, quantity as u64);
                    push_str(&mut s, ")");
                    Resolution::new(s)
                }
            },
            None => {
                push_str(&mut s, " doesn't have any ");
                push_str(&mut s, item_name);
                Resolution::new(s)
            },
        }
    }

    /// What `resolve_equip_item` gives.
    pub open spec fn equip_item_outcome(
        world: GameWorld,
        item_name: Seq<char>,
        two_handed: bool,
        strength_requirement: Option<u8>,
        r: Resolution,
    ) -> bool {
        &&& ({
                let c = world.player_character;
                let equipped = |slot: Seq<char>| r.effects@.len() == 1 && (r.effects@[0] matches Effect::ItemEquipped { item_name: n, slot: s }
                    && n@ =~= item_name && s@ =~= slot);
                match item_named(c, item_name) {
                    None => r.narrative@ =~= c.name@ + " doesn't have "@ + item_name + " in their inventory"@
                        && r.effects@.len() == 0,
                    Some(item) => match slot_of(item.item_type) {
                        None => r.narrative@ =~= item_name + " cannot be equipped (not a weapon, armor, or shield)"@
                            && r.effects@.len() == 0,
                        Some(slot) => if item.item_type == ItemType::Shield && (c.equipment.main_hand matches Some(w) && w.two_handed) {
                            r.narrative@ =~= "Cannot equip "@ + item_name + " - "@ + c.equipment.main_hand.unwrap().name@
                                + " requires two hands"@ && r.effects@.len() == 0
                        } else if item.item_type == ItemType::Weapon && two_handed && c.equipment.shield is Some {
                            r.narrative@ =~= "Cannot equip "@ + item_name
                                + " - it requires two hands but a shield is equipped. Unequip the shield first."@
                                && r.effects@.len() == 0
                        } else if item.item_type == ItemType::Armor && (strength_requirement matches Some(req) && c.ability_scores.strength < req) {
                            &&& r.narrative@ =~= c.name@ + " equips "@ + item_name + " but doesn't meet the Strength "@
                                + nat_text(strength_requirement.unwrap() as nat) + " requirement (has "@
                                + nat_text(c.ability_scores.strength as nat) + "). Movement speed reduced by 10 feet."@
                            &&& equipped(slot)
                        } else {
                            &&& r.narrative@ =~= c.name@ + " equips "@ + item_name + " in "@ + slot + " slot"@
                            &&& equipped(slot)
                        },
                    },
                }
            })
    }

    /// The character equips a carried weapon (main hand), armor or shield.
    /// A shield cannot join a two-handed weapon, nor a two-handed weapon a
    /// shield; armor heavier than the character's Strength is worn with a
    /// warning. `two_handed` and `strength_requirement` are what the item
    /// list records of the item as a weapon and as armor.
    pub fn resolve_equip_item(
        &self,
        world: &GameWorld,
        item_name: &str,
        two_handed: bool,
        strength_requirement: Option<u8>,
    ) -> (r: Resolution)
        ensures
            Self::equip_item_outcome(*world, item_name@, two_handed, strength_requirement, r),
    {
        let c = &world.player_character;
        let item = match find_item(c, item_name) {
            Some(item) => item,
            None => {
                let mut s = String::new();
                push_str(&mut s, c.name.as_str());
                push_str(&mut s, " doesn't have ");
                push_str(&mut s, item_name);
                push_str(&mut s, " in their inventory");
                return Resolution::new(s);
            },
        };
        let slot: &str = match item.item_type {
            ItemType::Weapon => "main_hand",
            ItemType::Armor => "armor",
            ItemType::Shield => "shield",
            _ => {
                let mut s = String::new();
                push_str(&mut s, item_name);
                push_str(&mut s, " cannot be equipped (not a weapon, armor, or shield)");
                return Resolution::new(s);
            },
        };
        let is_shield = match item.item_type { ItemType::Shield => true, _ => false };
        let is_weapon = match item.item_type { ItemType::Weapon => true, _ => false };
        let is_armor = match item.item_type { ItemType::Armor => true, _ => false };
        if is_shield {
            match &c.equipment.main_hand {
                Some(w) => {
                    if w.two_handed {
                        let mut s = String::new();
                        push_str(&mut s, "Cannot equip ");
                        push_str(&mut s, item_name);
                        push_str(&mut s, " - ");
                        push_str(&mut s, w.name.as_str());
                        push_str(&mut s, " requires two hands");
                        return Resolution::new(s);
                    }
                },
                None => {},
            }
        }
        if is_weapon && two_handed && c.equipment.shield.is_some() {
            let mut s = String::new();
            push_str(&mut s, "Cannot equip ");
            push_str(&mut s, item_name);
            push_str(&mut s, " - it requires two hands but a shield is equipped. Unequip the shield first.");
            return Resolution::new(s);
        }
        let effect = Effect::ItemEquipped { item_name: text(item_name), slot: text(slot) };
        if is_armor {
            match strength_requirement {
                Some(req) => {
                    if c.ability_scores.strength < req {
                        let mut s = String::new();
                        push_str(&mut s, c.name.as_str());
                        push_str(&mut s, " equips ");
                        push_str(&mut s, item_name);
                        push_str(&mut s, " but doesn't meet the Strength ");
                        push_nat(&mut s, req as u64);
                        push_str(&mut s, " requirement (has ");
                        push_nat(&mut s, c.ability_scores.strength as u64);
                        push_str(&mut s, "). Movement speed reduced by 10 feet.");
                        return Resolution::new(s).with_effect(effect);
                    }
                },
                None => {},
            }
        }
        let mut s = String::new();
        push_str(&mut s, c.name.as_str());
        push_str(&mut s, " equips ");
        push_str(&mut s, item_name);
        push_str(&mut s, " in ");
        push_str(&mut s, slot);
        push_str(&mut s, " slot");
        Resolution::new(s).with_effect(effect)
    }

    /// What `resolve_unequip_item` gives.
    pub open spec fn unequip_item_outcome(world: GameWorld, slot: Seq<char>, r: Resolution) -> bool {
        &&& ({
                let c = world.player_character;
                match slot_content(c, lowercase(slot)) {
                    None => r.narrative@ =~= "Unknown equipment slot: "@ + slot
                        + ". Valid slots: armor, shield, main_hand, off_hand"@ && r.effects@.len() == 0,
                    Some(None) => r.narrative@ =~= "Nothing equipped in "@ + slot + " slot"@ && r.effects@.len() == 0,
                    Some(Some(name)) => {
                        &&& r.narrative@ =~= c.name@ + " unequips "@ + name
                        &&& r.effects@.len() == 1
                        &&& r.effects@[0] matches Effect::ItemUnequipped { item_name, slot: s }
                            && item_name@ =~= name && s@ =~= slot
                    },
                }
            })
    }

    /// The character takes off what is in a slot, named in any case
    /// ("weapon" also names the main hand).
    pub fn resolve_unequip_item(&self, world: &GameWorld, slot: &str) -> (r: Resolution)
        ensures
            Self::unequip_item_outcome(*world, slot@, r),
    {
        let c = &world.player_character;
        let key = to_lowercase(slot);
        let k = key.as_str();
        let held: Option<String> = if crate::text::str_eq(k, "armor") {
            match &c.equipment.armor {
                Some(a) => Some(a.name.clone()),
                None => None,
            }
        } else if crate::text::str_eq(k, "shield") {
            copy_name(&c.equipment.shield)
        } else if crate::text::str_eq(k, "main_hand") || crate::text::str_eq(k, "weapon") {
            match &c.equipment.main_hand {
                Some(w) => Some(w.name.clone()),
                None => None,
            }
        } else if crate::text::str_eq(k, "off_hand") {
            copy_name(&c.equipment.off_hand)
        } else {
            let mut s = String::new();
            push_str(&mut s, "Unknown equipment slot: ");
            push_str(&mut s, slot);
            push_str(&mut s, ". Valid slots: armor, shield, main_hand, off_hand");
            return Resolution::new(s);
        };
        match held {
            Some(name) => {
                let mut s = String::new();
                push_str(&mut s, c.name.as_str());
                push_str(&mut s, " unequips ");
                push_str(&mut s, name.as_str());
                Resolution::new(s).with_effect(Effect::ItemUnequipped { item_name: name, slot: text(slot) })
            },
            None => {
                let mut s = String::new();
                push_str(&mut s, "Nothing equipped in ");
                push_str(&mut s, slot);
                push_str(&mut s, " slot");
                Resolution::new(s)
            },
        }
    }

    /// When `resolve_use_item` may be called.
    pub open spec fn use_item_allowed(
        world: GameWorld,
        item_name: Seq<char>,
        _target_id: Option<CharacterId>,
        heal_total: i32,
    ) -> bool {
        &&& i32::MIN <= world.player_character.hit_points.current + heal_total <= i32::MAX
    }

    /// What `resolve_use_item` gives.
    pub open spec fn use_item_outcome(
        world: GameWorld,
        item_name: Seq<char>,
        _target_id: Option<CharacterId>,
        heal_total: i32,
        r: Resolution,
    ) -> bool {
        &&& ({
                let c = world.player_character;
                if has_condition_in(c.conditions@, Condition::Unconscious) {
                    r.narrative@ =~= c.name@ + " is unconscious and cannot use items!"@ && r.effects@.len() == 0
                } else {
                    match item_named(c, item_name) {
                        None => r.narrative@ =~= c.name@ + " doesn't have "@ + item_name + " in their inventory"@
                            && r.effects@.len() == 0,
                        Some(item) => {
                            let left = if item.quantity >= 1 { item.quantity - 1 } else { 0 };
                            match item.item_type {
                                ItemType::Potion => {
                                    let healed = c.hit_points.current + heal_total;
                                    &&& r.narrative@ =~= c.name@ + " drinks "@ + item_name + " and heals for "@
                                        + int_text(heal_total as int) + " HP"@
                                    &&& r.effects@.len() == 3
                                    &&& r.effects@[0] matches Effect::ItemUsed { item_name: n, result }
                                        && n@ =~= item_name && result@ =~= "Healed "@ + int_text(heal_total as int) + " HP"@
                                    &&& r.effects@[1] matches Effect::HpChanged { target_id, amount, new_current, new_max, dropped_to_zero }
                                        && target_id == c.id && amount == heal_total
                                        && new_current == (if healed <= c.hit_points.maximum { healed } else { c.hit_points.maximum as int })
                                        && new_max == c.hit_points.maximum && !dropped_to_zero
                                    &&& is_removal(r.effects@[2], item_name, 1, left)
                                },
                                ItemType::Scroll => {
                                    &&& r.narrative@ =~= c.name@ + " reads "@ + item_name + " and it crumbles to dust"@
                                    &&& r.effects@.len() == 2
                                    &&& r.effects@[0] matches Effect::ItemUsed { item_name: n, result }
                                        && n@ =~= item_name && result@ =~= "Scroll consumed"@
                                    &&& is_removal(r.effects@[1], item_name, 1, left)
                                },
                                _ => r.narrative@ =~= item_name + " is not a consumable item"@ && r.effects@.len() == 0,
                            }
                        },
                    }
                }
            })
    }

    /// The character drinks a potion or reads a scroll; either is used up.
    /// An unconscious character cannot. `heal_total` is what the potion's
    /// healing dice rolled; healing stops at the maximum.
    pub fn resolve_use_item(&self, world: &GameWorld, item_name: &str, _target_id: Option<CharacterId>, heal_total: i32) -> (r: Resolution)
        requires
            Self::use_item_allowed(*world, item_name@, _target_id, heal_total),
        ensures
            Self::use_item_outcome(*world, item_name@, _target_id, heal_total, r),
    {
        let c = &world.player_character;
        if c.has_condition(Condition::Unconscious) {
            let mut s = String::new();
            push_str(&mut s, c.name.as_str());
            push_str(&mut s, " is unconscious and cannot use items!");
            return Resolution::new(s);
        }
        let item = match find_item(c, item_name) {
            Some(item) => item,
            None => {
                let mut s = String::new();
                push_str(&mut s, c.name.as_str());
                push_str(&mut s, " doesn't have ");
                push_str(&mut s, item_name);
                push_str(&mut s, " in their inventory");
                return Resolution::new(s);
            },
        };
        let left: u32 = if item.quantity >= 1 { item.quantity - 1 } else { 0 };
        let removal = Effect::ItemRemoved { item_name: text(item_name), quantity: 1, remaining: left };
        match item.item_type {
            ItemType::Potion => {
                let healed = c.hit_points.current + heal_total;
                let new_current = if healed <= c.hit_points.maximum { healed } else { c.hit_points.maximum };
                let mut s = String::new();
                push_str(&mut s, c.name.as_str());
                push_str(&mut s, " drinks ");
                push_str(&mut s, item_name);
                push_str(&mut s, " and heals for ");
                push_int(&mut s, heal_total as i64);
                push_str(&mut s, " HP");
                let mut result = String::new();
                push_str(&mut result, "Healed ");
                push_int(&mut result, heal_total as i64);
                push_str(&mut result, " HP");
                Resolution::new(s)
                    .with_effect(Effect::ItemUsed { item_name: text(item_name), result })
                    .with_effect(Effect::HpChanged {
                        target_id: c.id,
                        amount: heal_total,
                        new_current,
                        new_max: c.hit_points.maximum,
                        dropped_to_zero: false,
                    })
                    .with_effect(removal)
            },
            ItemType::Scroll => {
                let mut s = String::new();
                push_str(&mut s, c.name.as_str());
                push_str(&mut s, " reads ");
                push_str(&mut s, item_name);
                push_str(&mut s, " and it crumbles to dust");
                Resolution::new(s)
                    .with_effect(Effect::ItemUsed { item_name: text(item_name), result: text("Scroll consumed") })
                    .with_effect(removal)
            },
            _ => {
                let mut s = String::new();
                push_str(&mut s, item_name);
                push_str(&mut s, " is not a consumable item");
                Resolution::new(s)
            },
        }
    }
}

} // verus!
