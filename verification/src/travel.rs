//! Travelling between places, changes to a place, and consequences that
//! are to fire later.

use vstd::prelude::*;
use crate::ids::{random_uuid, uuid_text, uuid_to_text, v4_bits, v4_mask};
use crate::rules::{Effect, Resolution, RulesEngine};
use crate::text::{joined, lowercase, nat_text, push_joined, push_nat, push_str, str_eq, strings_view, to_lowercase};
use crate::world::{same_name, GameWorld, Location};
use crate::text::{eq_ignore_ascii_case, opt_str_view};

verus! {

/// A place of that name, in any ASCII case, is known or is where the
/// player stands.
pub open spec fn place_known(world: GameWorld, name: Seq<char>) -> bool {
    (exists|i: int| 0 <= i < world.known_locations@.len() && #[trigger] same_name(world.known_locations@[i].name@, name))
        || same_name(world.current_location.name@, name)
}

/// "{label}: a, b, c" when the list is not empty.
pub open spec fn listed(label: Seq<char>, names: Seq<String>) -> Seq<Seq<char>> {
    if names.len() == 0 { Seq::empty() } else { seq![label + joined(strings_view(names), ", "@)] }
}

/// The changes to a place, in words.
pub open spec fn place_changes(
    new_description: bool,
    add_items: Seq<String>,
    remove_items: Seq<String>,
    add_npcs: Seq<String>,
    remove_npcs: Seq<String>,
) -> Seq<Seq<char>> {
    (if new_description { seq!["description updated"@] } else { Seq::empty() })
        + listed("added items: "@, add_items) + listed("removed items: "@, remove_items)
        + listed("NPCs arrived: "@, add_npcs) + listed("NPCs left: "@, remove_npcs)
}

/// The severities a consequence can have; anything else counts as
/// "moderate".
pub open spec fn severity_word(lower: Seq<char>) -> Seq<char> {
    if lower == "minor"@ || lower == "major"@ || lower == "critical"@ { lower } else { "moderate"@ }
}

fn knows_place(world: &GameWorld, name: &str) -> (r: bool)
    ensures
        r == place_known(*world, name@),
{
    let places = &world.known_locations;
    let mut i: usize = 0;
    while i < places.len()
        invariant
            0 <= i <= places@.len(),
            places@ == world.known_locations@,
            forall|j: int| 0 <= j < i ==> !#[trigger] same_name(places@[j].name@, name@),
        decreases places@.len() - i,
    {
        if eq_ignore_ascii_case(places[i].name.as_str(), name) {
            assert(same_name(world.known_locations@[i as int].name@, name@));
            return true;
        }
        i = i + 1;
    }
    eq_ignore_ascii_case(world.current_location.name.as_str(), name)
}

fn push_listed(parts: &mut Vec<String>, label: &str, names: &[String])
    ensures
        strings_view(final(parts)@) == strings_view(old(parts)@) + listed(label@, names@),
{
    if names.len() > 0 {
        let mut s = String::new();
        push_str(&mut s, label);
        push_joined(&mut s, names, ", ");
        parts.push(s);
    }
    assert(strings_view(final(parts)@) =~= strings_view(old(parts)@) + listed(label@, names@));
}

fn text(t: &str) -> (r: String)
    ensures
        r@ == t@,
{
    String::from_str(t)
}

impl RulesEngine {
    /// What `resolve_change_location` gives.
    pub open spec fn change_location_outcome(
        world: GameWorld,
        new_location: Seq<char>,
        _location_type: Option<String>,
        _description: Option<String>,
        r: Resolution,
    ) -> bool {
        &&& r.narrative@ =~= "You travel from "@ + world.current_location.name@ + " to "@ + new_location + "."@
        &&& r.effects@.len() == 1
        &&& r.effects@[0] matches Effect::LocationChanged { previous_location, new_location: n }
                && previous_location@ =~= world.current_location.name@ && n@ =~= new_location
    }

    /// The player travels from where they stand to a new place.
    pub fn resolve_change_location(
        &self,
        world: &GameWorld,
        new_location: &str,
        _location_type: Option<String>,
        _description: Option<String>,
    ) -> (r: Resolution)
        ensures
            Self::change_location_outcome(*world, new_location@, _location_type, _description, r),
    {
        let previous = world.current_location.name.clone();
        let mut s = String::new();
        push_str(&mut s, "You travel from ");
        push_str(&mut s, previous.as_str());
        push_str(&mut s, " to ");
        push_str(&mut s, new_location);
        push_str(&mut s, ".");
        Resolution::new(s).with_effect(Effect::LocationChanged { previous_location: previous, new_location: text(new_location) })
    }

    /// What `resolve_update_location` gives.
    pub open spec fn update_location_outcome(
        world: GameWorld,
        location_name: Seq<char>,
        new_description: Option<Seq<char>>,
        add_items: Seq<String>,
        remove_items: Seq<String>,
        add_npcs: Seq<String>,
        remove_npcs: Seq<String>,
        r: Resolution,
    ) -> bool {
        &&& ({
                let changes = place_changes(new_description is Some, add_items, remove_items, add_npcs, remove_npcs);
                let text = if changes.len() == 0 { "no changes"@ } else { joined(changes, "; "@) };
                if place_known(world, location_name) {
                    &&& r.narrative@ =~= "Location "@ + location_name + " updated: "@ + text
                    &&& r.effects@.len() == 1
                    &&& r.effects@[0] matches Effect::LocationUpdated { location_name: n, changes: c }
                        && n@ =~= location_name && c@ =~= text
                } else {
                    &&& r.narrative@ =~= "Location '"@ + location_name + "' not found in the world"@
                    &&& r.effects@.len() == 0
                }
            })
    }

    /// Records changes to a known place (or the one where the player
    /// stands): a new description, items and NPCs that came or went.
    pub fn resolve_update_location(
        &self,
        world: &GameWorld,
        location_name: &str,
        new_description: Option<&str>,
        add_items: &[String],
        remove_items: &[String],
        add_npcs: &[String],
        remove_npcs: &[String],
    ) -> (r: Resolution)
        ensures
            Self::update_location_outcome(
                *world, location_name@, opt_str_view(new_description), add_items@, remove_items@,
                add_npcs@, remove_npcs@, r,
            ),
    {
        if !knows_place(world, location_name) {
            let mut s = String::new();
            push_str(&mut s, "Location '");
            push_str(&mut s, location_name);
            push_str(&mut s, "' not found in the world");
            return Resolution::new(s);
        }
        let mut changes: Vec<String> = Vec::new();
        if new_description.is_some() {
            changes.push(text("description updated"));
        }
        assert(strings_view(changes@) =~= (if new_description is Some { seq!["description updated"@] } else { Seq::<Seq<char>>::empty() }));
        push_listed(&mut changes, "added items: ", add_items);
        push_listed(&mut changes, "removed items: ", remove_items);
        push_listed(&mut changes, "NPCs arrived: ", add_npcs);
        push_listed(&mut changes, "NPCs left: ", remove_npcs);
        let mut summary = String::new();
        if changes.len() == 0 {
            push_str(&mut summary, "no changes");
        } else {
            push_joined(&mut summary, changes.as_slice(), "; ");
        }
        let mut s = String::new();
        push_str(&mut s, "Location ");
        push_str(&mut s, location_name);
        push_str(&mut s, " updated: ");
        push_str(&mut s, summary.as_str());
        Resolution::new(s).with_effect(Effect::LocationUpdated { location_name: text(location_name), changes: summary })
    }

    /// What `register_consequence_with_id` gives.
    pub open spec fn register_consequence_with_id_outcome(
        consequence_id: String,
        trigger_description: Seq<char>,
        consequence_description: Seq<char>,
        severity: Seq<char>,
        importance_shown: Seq<char>,
        expires_in_turns: Option<u32>,
        r: Resolution,
    ) -> bool {
        &&& ({
                let word = severity_word(lowercase(severity));
                let expiry = match expires_in_turns {
                    Some(t) => " (expires in "@ + nat_text(t as nat) + " turns)"@,
                    None => Seq::empty(),
                };
                &&& r.narrative@ =~= "Consequence registered: If "@ + trigger_description + ", then "@
                    + consequence_description + " ("@ + word + " severity, importance "@ + importance_shown + ")"@
                    + expiry
                &&& r.effects@.len() == 1
                &&& r.effects@[0] matches Effect::ConsequenceRegistered { consequence_id: id, trigger_description: t,
                    consequence_description: c, severity: s }
                    && id@ =~= consequence_id@ && t@ =~= trigger_description && c@ =~= consequence_description
                    && s@ =~= word
            })
    }

    /// Registers a consequence under a given id. `importance_shown` is the
    /// importance written with one decimal; the severity is read in any
    /// case and defaults to "moderate".
    pub fn register_consequence_with_id(
        &self,
        consequence_id: String,
        trigger_description: &str,
        consequence_description: &str,
        severity: &str,
        importance_shown: &str,
        expires_in_turns: Option<u32>,
    ) -> (r: Resolution)
        ensures
            Self::register_consequence_with_id_outcome(
                consequence_id, trigger_description@, consequence_description@, severity@,
                importance_shown@, expires_in_turns, r,
            ),
    {
        let lower = to_lowercase(severity);
        let l = lower.as_str();
        let word: &str = if str_eq(l, "minor") {
            "minor"
        } else if str_eq(l, "moderate") {
            "moderate"
        } else if str_eq(l, "major") {
            "major"
        } else if str_eq(l, "critical") {
            "critical"
        } else {
            "moderate"
        };
        let mut s = String::new();
        push_str(&mut s, "Consequence registered: If ");
        push_str(&mut s, trigger_description);
        push_str(&mut s, ", then ");
        push_str(&mut s, consequence_description);
        push_str(&mut s, " (");
        push_str(&mut s, word);
        push_str(&mut s, " severity, importance ");
        push_str(&mut s, importance_shown);
        push_str(&mut s, ")");
        match expires_in_turns {
            Some(t) => {
                push_str(&mut s, " (expires in ");
                push_nat(&mut s, t as u64);
                push_str(&mut s, " turns)");
            },
            None => {},
        }
        Resolution::new(s).with_effect(Effect::ConsequenceRegistered {
            consequence_id,
            trigger_description: text(trigger_description),
            consequence_description: text(consequence_description),
            severity: text(word),
        })
    }

    /// What `resolve_register_consequence` gives.
    pub open spec fn register_consequence_outcome(
        trigger_description: Seq<char>,
        consequence_description: Seq<char>,
        severity: Seq<char>,
        _related_entities: Seq<String>,
        importance_shown: Seq<char>,
        expires_in_turns: Option<u32>,
        r: Resolution,
    ) -> bool {
        &&& exists|bits: u128| bits & v4_mask() == v4_bits() && {
                let id = #[trigger] uuid_text(bits);
                r.effects@.len() == 1 && (r.effects@[0] matches Effect::ConsequenceRegistered { consequence_id, .. }
                    && consequence_id@ =~= id)
            }
        &&& ({
                let word = severity_word(lowercase(severity));
                let expiry = match expires_in_turns {
                    Some(t) => " (expires in "@ + nat_text(t as nat) + " turns)"@,
                    None => Seq::empty(),
                };
                &&& r.narrative@ =~= "Consequence registered: If "@ + trigger_description + ", then "@
                    + consequence_description + " ("@ + word + " severity, importance "@ + importance_shown + ")"@
                    + expiry
                &&& r.effects@[0] matches Effect::ConsequenceRegistered { trigger_description: t,
                    consequence_description: c, severity: s, .. }
                    && t@ =~= trigger_description && c@ =~= consequence_description && s@ =~= word
            })
    }

    /// Registers a consequence under a fresh random (version 4) id, written
    /// in hyphenated hexadecimal; the rest is `register_consequence_with_id`.
    pub fn resolve_register_consequence(
        &self,
        trigger_description: &str,
        consequence_description: &str,
        severity: &str,
        _related_entities: &[String],
        importance_shown: &str,
        expires_in_turns: Option<u32>,
    ) -> (r: Resolution)
        ensures
            Self::register_consequence_outcome(
                trigger_description@, consequence_description@, severity@, _related_entities@,
                importance_shown@, expires_in_turns, r,
            ),
    {
        let bits = random_uuid();
        let id = uuid_to_text(bits);
        let r = self.register_consequence_with_id(id, trigger_description, consequence_description, severity,
            importance_shown, expires_in_turns);
        r
    }
}

} // verus!
