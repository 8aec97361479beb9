//! Reading tool calls: the narrator model names a tool and passes JSON
//! arguments; each parser here turns the calls of its domain into an intent,
//! or into nothing when the tool is not its own or a required argument is
//! missing or of the wrong kind.

use vstd::prelude::*;
use crate::abilities::{parse_ability, spec_ability_from_lowercase};
use crate::ids::CharacterId;
use crate::intent::Intent;
use crate::rules::{spec_state_type_from_lowercase, StateType};
use crate::json::{
    field_bool, field_bool_of, field_f32_bits, field_f32_bits_of, field_i64, field_i64_of, field_str,
    field_str_of, field_strings, field_strings_of, field_u64, field_u64_of, JsonValue,
};
use crate::text::{lowercase, opt_view, str_eq, strings_view};
use crate::world::GameWorld;

verus! {

/// The text given, or a default when none is.
pub open spec fn str_or(o: Option<Seq<char>>, default: Seq<char>) -> Seq<char> {
    match o {
        Some(s) => s,
        None => default,
    }
}

/// A number read as a `u8`, keeping its low 8 bits.
pub open spec fn low_u8(o: Option<u64>) -> Option<u8> {
    match o {
        Some(n) => Some(n as u8),
        None => None,
    }
}

/// A number read as a `u32`, keeping its low 32 bits.
pub open spec fn low_u32(o: Option<u64>) -> Option<u32> {
    match o {
        Some(n) => Some(n as u32),
        None => None,
    }
}

/// A signed number read as an `i32`, keeping its low 32 bits.
pub open spec fn low_i32(o: Option<i64>) -> Option<i32> {
    match o {
        Some(n) => Some(n as i32),
        None => None,
    }
}

fn string_or(o: Option<String>, default: &str) -> (r: String)
    ensures
        r@ == str_or(opt_view(o), default@),
{
    match o {
        Some(s) => s,
        None => String::from_str(default),
    }
}

fn to_low_u8(o: Option<u64>) -> (r: Option<u8>)
    ensures
        r == low_u8(o),
{
    match o {
        Some(n) => Some(n as u8),
        None => None,
    }
}

fn to_low_u32(o: Option<u64>) -> (r: Option<u32>)
    ensures
        r == low_u32(o),
{
    match o {
        Some(n) => Some(n as u32),
        None => None,
    }
}

fn to_low_i32(o: Option<i64>) -> (r: Option<i32>)
    ensures
        r == low_i32(o),
{
    match o {
        Some(n) => Some(n as i32),
        None => None,
    }
}

// ---------------------------------------------------------------------------
// Class features
// ---------------------------------------------------------------------------

/// The intent a class-feature tool call stands for, always on behalf of the
/// player character `id`.
pub open spec fn class_feature_intent(name: Seq<char>, input: JsonValue, id: CharacterId, r: Option<Intent>) -> bool {
    if name == "use_rage"@ {
        r matches Some(Intent::UseRage { character_id }) && character_id == id
    } else if name == "end_rage"@ {
        r matches Some(Intent::EndRage { character_id, reason }) && character_id == id
            && reason@ == str_or(field_str_of(input, "reason"@), "voluntary"@)
    } else if name == "use_ki"@ {
        match (field_u64_of(input, "points"@), field_str_of(input, "ability"@)) {
            (Some(p), Some(a)) => r matches Some(Intent::UseKi { character_id, points, ability })
                && character_id == id && points == p as u8 && ability@ == a,
            _ => r is None,
        }
    } else if name == "use_lay_on_hands"@ {
        match field_str_of(input, "target"@) {
            Some(t) => r matches Some(Intent::UseLayOnHands {
                character_id,
                target_name,
                hp_amount,
                cure_disease,
                neutralize_poison,
            }) && character_id == id && target_name@ == t
                && hp_amount == field_u64_of(input, "hp_amount"@).unwrap_or(0) as u32
                && cure_disease == field_bool_of(input, "cure_disease"@).unwrap_or(false)
                && neutralize_poison == field_bool_of(input, "neutralize_poison"@).unwrap_or(false),
            None => r is None,
        }
    } else if name == "use_divine_smite"@ {
        match field_u64_of(input, "spell_slot_level"@) {
            Some(l) => r matches Some(Intent::UseDivineSmite { character_id, spell_slot_level, target_is_undead_or_fiend })
                && character_id == id && spell_slot_level == l as u8
                && target_is_undead_or_fiend == field_bool_of(input, "target_is_undead_or_fiend"@).unwrap_or(false),
            None => r is None,
        }
    } else if name == "use_wild_shape"@ {
        match (field_str_of(input, "beast_form"@), field_i64_of(input, "beast_hp"@)) {
            (Some(f), Some(hp)) => r matches Some(Intent::UseWildShape { character_id, beast_form, beast_hp, beast_ac })
                && character_id == id && beast_form@ == f && beast_hp == hp as i32
                && beast_ac == low_u8(field_u64_of(input, "beast_ac"@)),
            _ => r is None,
        }
    } else if name == "end_wild_shape"@ {
        match field_str_of(input, "reason"@) {
            Some(why) => r matches Some(Intent::EndWildShape { character_id, reason, excess_damage })
                && character_id == id && reason@ == why
                && excess_damage == field_i64_of(input, "excess_damage"@).unwrap_or(0) as i32,
            None => r is None,
        }
    } else if name == "use_channel_divinity"@ {
        match field_str_of(input, "option"@) {
            Some(o) => r matches Some(Intent::UseChannelDivinity { character_id, option, targets })
                && character_id == id && option@ == o
                && strings_view(targets@) == field_strings_of(input, "targets"@),
            None => r is None,
        }
    } else if name == "use_bardic_inspiration"@ {
        match (field_str_of(input, "target"@), field_str_of(input, "die_size"@)) {
            (Some(t), Some(d)) => r matches Some(Intent::UseBardicInspiration { character_id, target_name, die_size })
                && character_id == id && target_name@ == t && die_size@ == d,
            _ => r is None,
        }
    } else if name == "use_action_surge"@ {
        match field_str_of(input, "action_taken"@) {
            Some(a) => r matches Some(Intent::UseActionSurge { character_id, action_taken })
                && character_id == id && action_taken@ == a,
            None => r is None,
        }
    } else if name == "use_second_wind"@ {
        r matches Some(Intent::UseSecondWind { character_id }) && character_id == id
    } else if name == "use_sorcery_points"@ {
        match (field_u64_of(input, "points"@), field_str_of(input, "metamagic"@)) {
            (Some(p), Some(m)) => r matches Some(Intent::UseSorceryPoints {
                character_id,
                points,
                metamagic,
                spell_name,
                slot_level,
            }) && character_id == id && points == p as u8 && metamagic@ == m
                && opt_view(spell_name) == field_str_of(input, "spell_name"@)
                && slot_level == low_u8(field_u64_of(input, "slot_level"@)),
            _ => r is None,
        }
    } else {
        r is None
    }
}

/// Reads a class-feature tool call (rage, ki, lay on hands, divine smite,
/// wild shape, channel divinity, bardic inspiration, action surge, second
/// wind, sorcery points) for the player character.
pub fn parse_class_features_tool(name: &str, input: &JsonValue, world: &GameWorld) -> (r: Option<Intent>)
    ensures
        class_feature_intent(name@, *input, world.player_character.id, r),
{
    let id = world.player_character.id;
    if str_eq(name, "use_rage") {
        Some(Intent::UseRage { character_id: id })
    } else if str_eq(name, "end_rage") {
        let reason = string_or(field_str(input, "reason"), "voluntary");
        Some(Intent::EndRage { character_id: id, reason })
    } else if str_eq(name, "use_ki") {
        match (field_u64(input, "points"), field_str(input, "ability")) {
            (Some(p), Some(ability)) => Some(Intent::UseKi { character_id: id, points: p as u8, ability }),
            _ => None,
        }
    } else if str_eq(name, "use_lay_on_hands") {
        match field_str(input, "target") {
            Some(target_name) => {
                let hp = match field_u64(input, "hp_amount") {
                    Some(n) => n,
                    None => 0,
                };
                let cure_disease = match field_bool(input, "cure_disease") {
                    Some(b) => b,
                    None => false,
                };
                let neutralize_poison = match field_bool(input, "neutralize_poison") {
                    Some(b) => b,
                    None => false,
                };
                Some(Intent::UseLayOnHands {
                    character_id: id,
                    target_name,
                    hp_amount: hp as u32,
                    cure_disease,
                    neutralize_poison,
                })
            },
            None => None,
        }
    } else if str_eq(name, "use_divine_smite") {
        match field_u64(input, "spell_slot_level") {
            Some(l) => {
                let undead = match field_bool(input, "target_is_undead_or_fiend") {
                    Some(b) => b,
                    None => false,
                };
                Some(Intent::UseDivineSmite {
                    character_id: id,
                    spell_slot_level: l as u8,
                    target_is_undead_or_fiend: undead,
                })
            },
            None => None,
        }
    } else if str_eq(name, "use_wild_shape") {
        match (field_str(input, "beast_form"), field_i64(input, "beast_hp")) {
            (Some(beast_form), Some(hp)) => Some(Intent::UseWildShape {
                character_id: id,
                beast_form,
                beast_hp: hp as i32,
                beast_ac: to_low_u8(field_u64(input, "beast_ac")),
            }),
            _ => None,
        }
    } else if str_eq(name, "end_wild_shape") {
        match field_str(input, "reason") {
            Some(reason) => {
                let excess = match field_i64(input, "excess_damage") {
                    Some(n) => n,
                    None => 0,
                };
                Some(Intent::EndWildShape { character_id: id, reason, excess_damage: excess as i32 })
            },
            None => None,
        }
    } else if str_eq(name, "use_channel_divinity") {
        match field_str(input, "option") {
            Some(option) => Some(Intent::UseChannelDivinity {
                character_id: id,
                option,
                targets: field_strings(input, "targets"),
            }),
            None => None,
        }
    } else if str_eq(name, "use_bardic_inspiration") {
        match (field_str(input, "target"), field_str(input, "die_size")) {
            (Some(target_name), Some(die_size)) => Some(Intent::UseBardicInspiration {
                character_id: id,
                target_name,
                die_size,
            }),
            _ => None,
        }
    } else if str_eq(name, "use_action_surge") {
        match field_str(input, "action_taken") {
            Some(action_taken) => Some(Intent::UseActionSurge { character_id: id, action_taken }),
            None => None,
        }
    } else if str_eq(name, "use_second_wind") {
        Some(Intent::UseSecondWind { character_id: id })
    } else if str_eq(name, "use_sorcery_points") {
        match (field_u64(input, "points"), field_str(input, "metamagic")) {
            (Some(p), Some(metamagic)) => Some(Intent::UseSorceryPoints {
                character_id: id,
                points: p as u8,
                metamagic,
                spell_name: field_str(input, "spell_name"),
                slot_level: to_low_u8(field_u64(input, "slot_level")),
            }),
            _ => None,
        }
    } else {
        None
    }
}

// ---------------------------------------------------------------------------
// Inventory
// ---------------------------------------------------------------------------

/// The intent an inventory tool call stands for.
pub open spec fn inventory_intent(name: Seq<char>, input: JsonValue, r: Option<Intent>) -> bool {
    if name == "give_item"@ {
        match field_str_of(input, "item_name"@) {
            Some(n) => r matches Some(Intent::AddItem {
                item_name,
                quantity,
                item_type,
                description,
                magical,
                weight_bits,
                value_gp_bits,
            }) && item_name@ == n
                && quantity == field_u64_of(input, "quantity"@).unwrap_or(1) as u32
                && opt_view(item_type) == field_str_of(input, "item_type"@)
                && opt_view(description) == field_str_of(input, "description"@)
                && magical == field_bool_of(input, "magical"@).unwrap_or(false)
                && weight_bits == field_f32_bits_of(input, "weight"@)
                && value_gp_bits == field_f32_bits_of(input, "value_gp"@),
            None => r is None,
        }
    } else if name == "remove_item"@ {
        match field_str_of(input, "item_name"@) {
            Some(n) => r matches Some(Intent::RemoveItem { item_name, quantity }) && item_name@ == n
                && quantity == field_u64_of(input, "quantity"@).unwrap_or(1) as u32,
            None => r is None,
        }
    } else if name == "use_item"@ {
        match field_str_of(input, "item_name"@) {
            Some(n) => r matches Some(Intent::UseItem { item_name, target_id }) && item_name@ == n
                && target_id is None,
            None => r is None,
        }
    } else if name == "equip_item"@ {
        match field_str_of(input, "item_name"@) {
            Some(n) => r matches Some(Intent::EquipItem { item_name }) && item_name@ == n,
            None => r is None,
        }
    } else if name == "unequip_item"@ {
        match field_str_of(input, "slot"@) {
            Some(s) => r matches Some(Intent::UnequipItem { slot }) && slot@ == s,
            None => r is None,
        }
    } else if name == "adjust_gold"@ {
        match field_i64_of(input, "amount"@) {
            Some(a) => r matches Some(Intent::AdjustGold { amount, reason }) && amount == a as i32
                && reason@ == str_or(field_str_of(input, "reason"@), "gold adjustment"@),
            None => r is None,
        }
    } else if name == "adjust_silver"@ {
        match field_i64_of(input, "amount"@) {
            Some(a) => r matches Some(Intent::AdjustSilver { amount, reason }) && amount == a as i32
                && reason@ == str_or(field_str_of(input, "reason"@), "silver adjustment"@),
            None => r is None,
        }
    } else {
        r is None
    }
}

/// Reads an inventory tool call: giving, removing, using, equipping and
/// unequipping items, and adjusting gold and silver. A missing quantity is
/// one; showing the inventory is not an intent.
pub fn parse_inventory_tool(name: &str, input: &JsonValue) -> (r: Option<Intent>)
    ensures
        inventory_intent(name@, *input, r),
{
    if str_eq(name, "give_item") {
        match field_str(input, "item_name") {
            Some(item_name) => {
                let quantity = match field_u64(input, "quantity") {
                    Some(q) => q,
                    None => 1,
                };
                let magical = match field_bool(input, "magical") {
                    Some(b) => b,
                    None => false,
                };
                Some(Intent::AddItem {
                    item_name,
                    quantity: quantity as u32,
                    item_type: field_str(input, "item_type"),
                    description: field_str(input, "description"),
                    magical,
                    weight_bits: field_f32_bits(input, "weight"),
                    value_gp_bits: field_f32_bits(input, "value_gp"),
                })
            },
            None => None,
        }
    } else if str_eq(name, "remove_item") {
        match field_str(input, "item_name") {
            Some(item_name) => {
                let quantity = match field_u64(input, "quantity") {
                    Some(q) => q,
                    None => 1,
                };
                Some(Intent::RemoveItem { item_name, quantity: quantity as u32 })
            },
            None => None,
        }
    } else if str_eq(name, "use_item") {
        match field_str(input, "item_name") {
            Some(item_name) => Some(Intent::UseItem { item_name, target_id: None }),
            None => None,
        }
    } else if str_eq(name, "equip_item") {
        match field_str(input, "item_name") {
            Some(item_name) => Some(Intent::EquipItem { item_name }),
            None => None,
        }
    } else if str_eq(name, "unequip_item") {
        match field_str(input, "slot") {
            Some(slot) => Some(Intent::UnequipItem { slot }),
            None => None,
        }
    } else if str_eq(name, "adjust_gold") {
        match field_i64(input, "amount") {
            Some(a) => Some(Intent::AdjustGold {
                amount: a as i32,
                reason: string_or(field_str(input, "reason"), "gold adjustment"),
            }),
            None => None,
        }
    } else if str_eq(name, "adjust_silver") {
        match field_i64(input, "amount") {
            Some(a) => Some(Intent::AdjustSilver {
                amount: a as i32,
                reason: string_or(field_str(input, "reason"), "silver adjustment"),
            }),
            None => None,
        }
    } else {
        None
    }
}

// ---------------------------------------------------------------------------
// People and places
// ---------------------------------------------------------------------------

/// The intent an NPC tool call stands for.
pub open spec fn npc_intent(name: Seq<char>, input: JsonValue, r: Option<Intent>) -> bool {
    if name == "create_npc"@ {
        match (field_str_of(input, "name"@), field_str_of(input, "description"@), field_str_of(input, "personality"@)) {
            (Some(n), Some(d), Some(p)) => r matches Some(Intent::CreateNpc {
                name,
                description,
                personality,
                occupation,
                disposition,
                location,
                known_information,
            }) && name@ == n && description@ == d && personality@ == p
                && opt_view(occupation) == field_str_of(input, "occupation"@)
                && disposition@ == str_or(field_str_of(input, "disposition"@), "neutral"@)
                && opt_view(location) == field_str_of(input, "location"@)
                && strings_view(known_information@) == field_strings_of(input, "known_information"@),
            _ => r is None,
        }
    } else if name == "update_npc"@ {
        match field_str_of(input, "npc_name"@) {
            Some(n) => r matches Some(Intent::UpdateNpc {
                npc_name,
                disposition,
                add_information,
                new_description,
                new_personality,
            }) && npc_name@ == n
                && opt_view(disposition) == field_str_of(input, "disposition"@)
                && strings_view(add_information@) == field_strings_of(input, "add_information"@)
                && opt_view(new_description) == field_str_of(input, "new_description"@)
                && opt_view(new_personality) == field_str_of(input, "new_personality"@),
            None => r is None,
        }
    } else if name == "move_npc"@ {
        match (field_str_of(input, "npc_name"@), field_str_of(input, "destination"@)) {
            (Some(n), Some(d)) => r matches Some(Intent::MoveNpc { npc_name, destination, reason })
                && npc_name@ == n && destination@ == d && opt_view(reason) == field_str_of(input, "reason"@),
            _ => r is None,
        }
    } else if name == "remove_npc"@ {
        match (field_str_of(input, "npc_name"@), field_str_of(input, "reason"@)) {
            (Some(n), Some(why)) => r matches Some(Intent::RemoveNpc { npc_name, reason, permanent })
                && npc_name@ == n && reason@ == why
                && permanent == field_bool_of(input, "permanent"@).unwrap_or(false),
            _ => r is None,
        }
    } else {
        r is None
    }
}

/// Reads an NPC tool call: creating, updating, moving and removing
/// characters of the world. A new NPC is neutral unless told otherwise.
pub fn parse_npc_tool(name: &str, input: &JsonValue) -> (r: Option<Intent>)
    ensures
        npc_intent(name@, *input, r),
{
    if str_eq(name, "create_npc") {
        match (field_str(input, "name"), field_str(input, "description"), field_str(input, "personality")) {
            (Some(npc_name), Some(description), Some(personality)) => Some(Intent::CreateNpc {
                name: npc_name,
                description,
                personality,
                occupation: field_str(input, "occupation"),
                disposition: string_or(field_str(input, "disposition"), "neutral"),
                location: field_str(input, "location"),
                known_information: field_strings(input, "known_information"),
            }),
            _ => None,
        }
    } else if str_eq(name, "update_npc") {
        match field_str(input, "npc_name") {
            Some(npc_name) => Some(Intent::UpdateNpc {
                npc_name,
                disposition: field_str(input, "disposition"),
                add_information: field_strings(input, "add_information"),
                new_description: field_str(input, "new_description"),
                new_personality: field_str(input, "new_personality"),
            }),
            None => None,
        }
    } else if str_eq(name, "move_npc") {
        match (field_str(input, "npc_name"), field_str(input, "destination")) {
            (Some(npc_name), Some(destination)) => Some(Intent::MoveNpc {
                npc_name,
                destination,
                reason: field_str(input, "reason"),
            }),
            _ => None,
        }
    } else if str_eq(name, "remove_npc") {
        match (field_str(input, "npc_name"), field_str(input, "reason")) {
            (Some(npc_name), Some(reason)) => {
                let permanent = match field_bool(input, "permanent") {
                    Some(b) => b,
                    None => false,
                };
                Some(Intent::RemoveNpc { npc_name, reason, permanent })
            },
            _ => None,
        }
    } else {
        None
    }
}

/// The intent a location tool call stands for.
pub open spec fn location_intent(name: Seq<char>, input: JsonValue, r: Option<Intent>) -> bool {
    if name == "create_location"@ {
        match (field_str_of(input, "name"@), field_str_of(input, "location_type"@), field_str_of(input, "description"@)) {
            (Some(n), Some(t), Some(d)) => r matches Some(Intent::CreateLocation {
                name,
                location_type,
                description,
                parent_location,
                items,
                npcs_present,
            }) && name@ == n && location_type@ == t && description@ == d
                && opt_view(parent_location) == field_str_of(input, "parent_location"@)
                && strings_view(items@) == field_strings_of(input, "items"@)
                && strings_view(npcs_present@) == field_strings_of(input, "npcs_present"@),
            _ => r is None,
        }
    } else if name == "connect_locations"@ {
        match (field_str_of(input, "from_location"@), field_str_of(input, "to_location"@)) {
            (Some(f), Some(t)) => r matches Some(Intent::ConnectLocations {
                from_location,
                to_location,
                direction,
                travel_time_minutes,
                bidirectional,
            }) && from_location@ == f && to_location@ == t
                && opt_view(direction) == field_str_of(input, "direction"@)
                && travel_time_minutes == low_u32(field_u64_of(input, "travel_time_minutes"@))
                && bidirectional == field_bool_of(input, "bidirectional"@).unwrap_or(true),
            _ => r is None,
        }
    } else if name == "update_location"@ {
        match field_str_of(input, "location_name"@) {
            Some(n) => r matches Some(Intent::UpdateLocation {
                location_name,
                new_description,
                add_items,
                remove_items,
                add_npcs,
                remove_npcs,
            }) && location_name@ == n
                && opt_view(new_description) == field_str_of(input, "new_description"@)
                && strings_view(add_items@) == field_strings_of(input, "add_items"@)
                && strings_view(remove_items@) == field_strings_of(input, "remove_items"@)
                && strings_view(add_npcs@) == field_strings_of(input, "add_npcs"@)
                && strings_view(remove_npcs@) == field_strings_of(input, "remove_npcs"@),
            None => r is None,
        }
    } else {
        r is None
    }
}

/// Reads a location tool call: creating, connecting and updating places.
/// A connection runs both ways unless told otherwise.
pub fn parse_locations_tool(name: &str, input: &JsonValue) -> (r: Option<Intent>)
    ensures
        location_intent(name@, *input, r),
{
    if str_eq(name, "create_location") {
        match (field_str(input, "name"), field_str(input, "location_type"), field_str(input, "description")) {
            (Some(location_name), Some(location_type), Some(description)) => Some(Intent::CreateLocation {
                name: location_name,
                location_type,
                description,
                parent_location: field_str(input, "parent_location"),
                items: field_strings(input, "items"),
                npcs_present: field_strings(input, "npcs_present"),
            }),
            _ => None,
        }
    } else if str_eq(name, "connect_locations") {
        match (field_str(input, "from_location"), field_str(input, "to_location")) {
            (Some(from_location), Some(to_location)) => {
                let bidirectional = match field_bool(input, "bidirectional") {
                    Some(b) => b,
                    None => true,
                };
                Some(Intent::ConnectLocations {
                    from_location,
                    to_location,
                    direction: field_str(input, "direction"),
                    travel_time_minutes: to_low_u32(field_u64(input, "travel_time_minutes")),
                    bidirectional,
                })
            },
            _ => None,
        }
    } else if str_eq(name, "update_location") {
        match field_str(input, "location_name") {
            Some(location_name) => Some(Intent::UpdateLocation {
                location_name,
                new_description: field_str(input, "new_description"),
                add_items: field_strings(input, "add_items"),
                remove_items: field_strings(input, "remove_items"),
                add_npcs: field_strings(input, "add_npcs"),
                remove_npcs: field_strings(input, "remove_npcs"),
            }),
            None => None,
        }
    } else {
        None
    }
}

// ---------------------------------------------------------------------------
// Gameplay, state, knowledge and schedule
// ---------------------------------------------------------------------------

/// The intent a gameplay tool call stands for.
pub open spec fn gameplay_intent(name: Seq<char>, input: JsonValue, r: Option<Intent>) -> bool {
    if name == "modify_ability_score"@ {
        match (field_str_of(input, "ability"@), field_i64_of(input, "modifier"@), field_str_of(input, "source"@)) {
            (Some(a), Some(m), Some(s)) => match spec_ability_from_lowercase(lowercase(a)) {
                Some(which) => r matches Some(Intent::ModifyAbilityScore { ability, modifier, source, duration })
                    && ability == which && modifier == m as i8 && source@ == s
                    && opt_view(duration) == field_str_of(input, "duration"@),
                None => r is None,
            },
            _ => r is None,
        }
    } else if name == "advance_time"@ {
        match field_u64_of(input, "minutes"@) {
            Some(m) => r matches Some(Intent::AdvanceTime { minutes }) && minutes == m as u32,
            None => r is None,
        }
    } else if name == "restore_spell_slot"@ {
        match (field_u64_of(input, "slot_level"@), field_str_of(input, "source"@)) {
            (Some(l), Some(s)) => if 1 <= (l as u8) <= 9 {
                r matches Some(Intent::RestoreSpellSlot { slot_level, source }) && slot_level == l as u8
                    && source@ == s
            } else {
                r is None
            },
            _ => r is None,
        }
    } else {
        r is None
    }
}

/// Reads a gameplay tool call: modifying an ability score (the ability by
/// name or abbreviation, in any case), advancing time, and restoring a spell
/// slot of level 1 to 9.
pub fn parse_gameplay_tool(name: &str, input: &JsonValue, _world: &GameWorld) -> (r: Option<Intent>)
    ensures
        gameplay_intent(name@, *input, r),
{
    if str_eq(name, "modify_ability_score") {
        match (field_str(input, "ability"), field_i64(input, "modifier"), field_str(input, "source")) {
            (Some(a), Some(m), Some(source)) => match parse_ability(a.as_str()) {
                Some(ability) => Some(Intent::ModifyAbilityScore {
                    ability,
                    modifier: m as i8,
                    source,
                    duration: field_str(input, "duration"),
                }),
                None => None,
            },
            _ => None,
        }
    } else if str_eq(name, "advance_time") {
        match field_u64(input, "minutes") {
            Some(m) => Some(Intent::AdvanceTime { minutes: m as u32 }),
            None => None,
        }
    } else if str_eq(name, "restore_spell_slot") {
        match (field_u64(input, "slot_level"), field_str(input, "source")) {
            (Some(l), Some(source)) => {
                let slot_level = l as u8;
                if 1 <= slot_level && slot_level <= 9 {
                    Some(Intent::RestoreSpellSlot { slot_level, source })
                } else {
                    None
                }
            },
            _ => None,
        }
    } else {
        None
    }
}

/// The intent a state tool call stands for.
pub open spec fn state_intent(name: Seq<char>, input: JsonValue, r: Option<Intent>) -> bool {
    if name == "assert_state"@ {
        match (
            field_str_of(input, "entity_name"@),
            field_str_of(input, "state_type"@),
            field_str_of(input, "new_value"@),
            field_str_of(input, "reason"@),
        ) {
            (Some(e), Some(t), Some(v), Some(why)) => match spec_state_type_from_lowercase(lowercase(t)) {
                Some(kind) => r matches Some(Intent::AssertState {
                    entity_name,
                    state_type,
                    new_value,
                    reason,
                    target_entity,
                }) && entity_name@ == e && state_type == kind && new_value@ == v && reason@ == why
                    && opt_view(target_entity) == field_str_of(input, "target_entity"@),
                None => r is None,
            },
            _ => r is None,
        }
    } else {
        r is None
    }
}

/// Reads a state assertion: an entity's disposition, location, status,
/// knowledge or relationship changes, the kind named in any case.
pub fn parse_state_tool(name: &str, input: &JsonValue) -> (r: Option<Intent>)
    ensures
        state_intent(name@, *input, r),
{
    if str_eq(name, "assert_state") {
        match (
            field_str(input, "entity_name"),
            field_str(input, "state_type"),
            field_str(input, "new_value"),
            field_str(input, "reason"),
        ) {
            (Some(entity_name), Some(t), Some(new_value), Some(reason)) => match StateType::parse(t.as_str()) {
                Some(state_type) => Some(Intent::AssertState {
                    entity_name,
                    state_type,
                    new_value,
                    reason,
                    target_entity: field_str(input, "target_entity"),
                }),
                None => None,
            },
            _ => None,
        }
    } else {
        None
    }
}

/// The intent a knowledge tool call stands for.
pub open spec fn knowledge_intent(name: Seq<char>, input: JsonValue, r: Option<Intent>) -> bool {
    if name == "share_knowledge"@ {
        match (
            field_str_of(input, "knowing_entity"@),
            field_str_of(input, "content"@),
            field_str_of(input, "source"@),
        ) {
            (Some(k), Some(c), Some(s)) => r matches Some(Intent::ShareKnowledge {
                knowing_entity,
                content,
                source,
                verification,
                context,
            }) && knowing_entity@ == k && content@ == c && source@ == s
                && verification@ == str_or(field_str_of(input, "verification"@), "unknown"@)
                && opt_view(context) == field_str_of(input, "context"@),
            _ => r is None,
        }
    } else {
        r is None
    }
}

/// Reads a knowledge tool call: something an entity comes to know, from a
/// source, unverified unless said otherwise.
pub fn parse_knowledge_tool(name: &str, input: &JsonValue) -> (r: Option<Intent>)
    ensures
        knowledge_intent(name@, *input, r),
{
    if str_eq(name, "share_knowledge") {
        match (field_str(input, "knowing_entity"), field_str(input, "content"), field_str(input, "source")) {
            (Some(knowing_entity), Some(content), Some(source)) => Some(Intent::ShareKnowledge {
                knowing_entity,
                content,
                source,
                verification: string_or(field_str(input, "verification"), "unknown"),
                context: field_str(input, "context"),
            }),
            _ => None,
        }
    } else {
        None
    }
}

/// The intent a schedule tool call stands for. Any mix of times may be
/// given, or none (the event then waits for something other than time).
pub open spec fn schedule_intent(name: Seq<char>, input: JsonValue, r: Option<Intent>) -> bool {
    if name == "schedule_event"@ {
        match field_str_of(input, "description"@) {
            Some(d) => r matches Some(Intent::ScheduleEvent {
                description,
                minutes,
                hours,
                day,
                month,
                year,
                hour,
                daily_hour,
                daily_minute,
                location,
                involved_entities,
                visibility,
                repeating,
            }) && description@ == d
                && minutes == low_u32(field_u64_of(input, "minutes"@))
                && hours == low_u32(field_u64_of(input, "hours"@))
                && day == low_u8(field_u64_of(input, "day"@))
                && month == low_u8(field_u64_of(input, "month"@))
                && year == low_i32(field_i64_of(input, "year"@))
                && hour == low_u8(field_u64_of(input, "hour"@))
                && daily_hour == low_u8(field_u64_of(input, "daily_hour"@))
                && daily_minute == low_u8(field_u64_of(input, "daily_minute"@))
                && opt_view(location) == field_str_of(input, "location"@)
                && strings_view(involved_entities@) == field_strings_of(input, "involved_entities"@)
                && visibility@ == str_or(field_str_of(input, "visibility"@), "public"@)
                && repeating == field_bool_of(input, "repeating"@).unwrap_or(false),
            None => r is None,
        }
    } else if name == "cancel_event"@ {
        match (field_str_of(input, "event_description"@), field_str_of(input, "reason"@)) {
            (Some(d), Some(why)) => r matches Some(Intent::CancelEvent { event_description, reason })
                && event_description@ == d && reason@ == why,
            _ => r is None,
        }
    } else {
        r is None
    }
}

/// Reads a schedule tool call: scheduling an event (after minutes or hours,
/// on a date, or daily; public and one-time unless said otherwise) or
/// cancelling one.
pub fn parse_schedule_tool(name: &str, input: &JsonValue) -> (r: Option<Intent>)
    ensures
        schedule_intent(name@, *input, r),
{
    if str_eq(name, "schedule_event") {
        match field_str(input, "description") {
            Some(description) => {
                let repeating = match field_bool(input, "repeating") {
                    Some(b) => b,
                    None => false,
                };
                Some(Intent::ScheduleEvent {
                    description,
                    minutes: to_low_u32(field_u64(input, "minutes")),
                    hours: to_low_u32(field_u64(input, "hours")),
                    day: to_low_u8(field_u64(input, "day")),
                    month: to_low_u8(field_u64(input, "month")),
                    year: to_low_i32(field_i64(input, "year")),
                    hour: to_low_u8(field_u64(input, "hour")),
                    daily_hour: to_low_u8(field_u64(input, "daily_hour")),
                    daily_minute: to_low_u8(field_u64(input, "daily_minute")),
                    location: field_str(input, "location"),
                    involved_entities: field_strings(input, "involved_entities"),
                    visibility: string_or(field_str(input, "visibility"), "public"),
                    repeating,
                })
            },
            None => None,
        }
    } else if str_eq(name, "cancel_event") {
        match (field_str(input, "event_description"), field_str(input, "reason")) {
            (Some(event_description), Some(reason)) => Some(Intent::CancelEvent { event_description, reason }),
            _ => None,
        }
    } else {
        None
    }
}

// ---------------------------------------------------------------------------
// The domains together
// ---------------------------------------------------------------------------

/// Whether the class feature parser reads a tool of this name.
pub open spec fn is_class_feature_tool(name: Seq<char>) -> bool {
    name == "use_rage"@
        || name == "end_rage"@
        || name == "use_ki"@
        || name == "use_lay_on_hands"@
        || name == "use_divine_smite"@
        || name == "use_wild_shape"@
        || name == "end_wild_shape"@
        || name == "use_channel_divinity"@
        || name == "use_bardic_inspiration"@
        || name == "use_action_surge"@
        || name == "use_second_wind"@
        || name == "use_sorcery_points"@
}

/// Whether the inventory parser reads a tool of this name.
pub open spec fn is_inventory_tool(name: Seq<char>) -> bool {
    name == "give_item"@
        || name == "remove_item"@
        || name == "use_item"@
        || name == "equip_item"@
        || name == "unequip_item"@
        || name == "adjust_gold"@
        || name == "adjust_silver"@
}

/// Whether the NPC parser reads a tool of this name.
pub open spec fn is_npc_tool(name: Seq<char>) -> bool {
    name == "create_npc"@
        || name == "update_npc"@
        || name == "move_npc"@
        || name == "remove_npc"@
}

/// Whether the location parser reads a tool of this name.
pub open spec fn is_location_tool(name: Seq<char>) -> bool {
    name == "create_location"@
        || name == "connect_locations"@
        || name == "update_location"@
}

/// Whether the gameplay parser reads a tool of this name.
pub open spec fn is_gameplay_tool(name: Seq<char>) -> bool {
    name == "modify_ability_score"@
        || name == "advance_time"@
        || name == "restore_spell_slot"@
}

/// Whether the state parser reads a tool of this name.
pub open spec fn is_state_tool(name: Seq<char>) -> bool {
    name == "assert_state"@
}

/// Whether the knowledge parser reads a tool of this name.
pub open spec fn is_knowledge_tool(name: Seq<char>) -> bool {
    name == "share_knowledge"@
}

/// Whether the schedule parser reads a tool of this name.
pub open spec fn is_schedule_tool(name: Seq<char>) -> bool {
    name == "schedule_event"@
        || name == "cancel_event"@
}

/// How many domains claim a tool name.
pub open spec fn domains_claiming(name: Seq<char>) -> int {
    (if is_class_feature_tool(name) { 1int } else { 0int })
        + (if is_inventory_tool(name) { 1int } else { 0int })
        + (if is_npc_tool(name) { 1int } else { 0int })
        + (if is_location_tool(name) { 1int } else { 0int })
        + (if is_gameplay_tool(name) { 1int } else { 0int })
        + (if is_state_tool(name) { 1int } else { 0int })
        + (if is_knowledge_tool(name) { 1int } else { 0int })
        + (if is_schedule_tool(name) { 1int } else { 0int })
}

/// A tool name's length, second character and last character: no two tools
/// of different domains share these.
pub open spec fn tool_fingerprint(name: Seq<char>) -> (nat, char, char) {
    (name.len(), name[1], name[name.len() - 1])
}

proof fn lemma_tool_fingerprints(name: Seq<char>)
    ensures
        is_class_feature_tool(name) ==> {
            let f = tool_fingerprint(name);
            ||| f == (6nat, 's', 'i')
            ||| f == (8nat, 'n', 'e')
            ||| f == (8nat, 's', 'e')
            ||| f == (14nat, 'n', 'e')
            ||| f == (14nat, 's', 'e')
            ||| f == (15nat, 's', 'd')
            ||| f == (16nat, 's', 'e')
            ||| f == (16nat, 's', 's')
            ||| f == (18nat, 's', 's')
            ||| f == (20nat, 's', 'y')
            ||| f == (22nat, 's', 'n')
        },
        is_inventory_tool(name) ==> {
            let f = tool_fingerprint(name);
            ||| f == (8nat, 's', 'm')
            ||| f == (9nat, 'i', 'm')
            ||| f == (10nat, 'q', 'm')
            ||| f == (11nat, 'd', 'd')
            ||| f == (11nat, 'e', 'm')
            ||| f == (12nat, 'n', 'm')
            ||| f == (13nat, 'd', 'r')
        },
        is_npc_tool(name) ==> {
            let f = tool_fingerprint(name);
            ||| f == (8nat, 'o', 'c')
            ||| f == (10nat, 'e', 'c')
            ||| f == (10nat, 'p', 'c')
            ||| f == (10nat, 'r', 'c')
        },
        is_location_tool(name) ==> {
            let f = tool_fingerprint(name);
            ||| f == (15nat, 'p', 'n')
            ||| f == (15nat, 'r', 'n')
            ||| f == (17nat, 'o', 's')
        },
        is_gameplay_tool(name) ==> {
            let f = tool_fingerprint(name);
            ||| f == (12nat, 'd', 'e')
            ||| f == (18nat, 'e', 't')
            ||| f == (20nat, 'o', 'e')
        },
        is_state_tool(name) ==> {
            let f = tool_fingerprint(name);
            ||| f == (12nat, 's', 'e')
        },
        is_knowledge_tool(name) ==> {
            let f = tool_fingerprint(name);
            ||| f == (15nat, 'h', 'e')
        },
        is_schedule_tool(name) ==> {
            let f = tool_fingerprint(name);
            ||| f == (12nat, 'a', 't')
            ||| f == (14nat, 'c', 't')
        },
{
    reveal_strlit("use_rage");
    reveal_strlit("end_rage");
    reveal_strlit("use_ki");
    reveal_strlit("use_lay_on_hands");
    reveal_strlit("use_divine_smite");
    reveal_strlit("use_wild_shape");
    reveal_strlit("end_wild_shape");
    reveal_strlit("use_channel_divinity");
    reveal_strlit("use_bardic_inspiration");
    reveal_strlit("use_action_surge");
    reveal_strlit("use_second_wind");
    reveal_strlit("use_sorcery_points");
    reveal_strlit("give_item");
    reveal_strlit("remove_item");
    reveal_strlit("use_item");
    reveal_strlit("equip_item");
    reveal_strlit("unequip_item");
    reveal_strlit("adjust_gold");
    reveal_strlit("adjust_silver");
    reveal_strlit("create_npc");
    reveal_strlit("update_npc");
    reveal_strlit("move_npc");
    reveal_strlit("remove_npc");
    reveal_strlit("create_location");
    reveal_strlit("connect_locations");
    reveal_strlit("update_location");
    reveal_strlit("modify_ability_score");
    reveal_strlit("advance_time");
    reveal_strlit("restore_spell_slot");
    reveal_strlit("assert_state");
    reveal_strlit("share_knowledge");
    reveal_strlit("schedule_event");
    reveal_strlit("cancel_event");
}

/// Each parser answers only the tools of its own domain, and no tool name
/// belongs to two domains: trying the parsers in turn, in any order, gives
/// the same intent.
pub proof fn law_tool_domains_do_not_overlap(
    name: Seq<char>,
    input: JsonValue,
    id: CharacterId,
    r: Option<Intent>,
)
    ensures
        domains_claiming(name) <= 1,
        class_feature_intent(name, input, id, r) && r is Some ==> is_class_feature_tool(name),
        inventory_intent(name, input, r) && r is Some ==> is_inventory_tool(name),
        npc_intent(name, input, r) && r is Some ==> is_npc_tool(name),
        location_intent(name, input, r) && r is Some ==> is_location_tool(name),
        gameplay_intent(name, input, r) && r is Some ==> is_gameplay_tool(name),
        state_intent(name, input, r) && r is Some ==> is_state_tool(name),
        knowledge_intent(name, input, r) && r is Some ==> is_knowledge_tool(name),
        schedule_intent(name, input, r) && r is Some ==> is_schedule_tool(name),
{
    lemma_tool_fingerprints(name);
}

} // verus!
