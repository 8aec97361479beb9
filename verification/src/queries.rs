//! Questions the narrator asks about the world, answered as text: what state
//! an NPC is in and what it knows.

use vstd::prelude::*;
use crate::json::{field_str, field_str_of, JsonValue};
use crate::relevance::{contains_text, find};
use crate::text::{lowercase, opt_view, push_str, str_eq, to_lowercase};
use crate::world::{npc_location_name, npc_named, GameWorld, Npc};

verus! {

/// The text given, or "Unknown".
pub open spec fn or_unknown(o: Option<Seq<char>>) -> Seq<char> {
    match o {
        Some(s) => s,
        None => "Unknown"@,
    }
}

/// One "  - item" line per item.
pub open spec fn bullet_lines(items: Seq<Seq<char>>) -> Seq<char>
    decreases items.len(),
{
    if items.len() == 0 {
        Seq::empty()
    } else {
        bullet_lines(items.drop_last()) + "  - "@ + items.last() + "\n"@
    }
}

/// What an NPC knows, as lines.
pub open spec fn known_lines(npc: Npc) -> Seq<Seq<char>> {
    npc.known_information@.map_values(|s: String| s@)
}

/// The answer when no NPC has the name asked for.
pub open spec fn no_entity_text(name: Seq<char>) -> Seq<char> {
    "No entity found with name '"@ + name + "'. Check spelling or create the NPC first."@
}

/// The report on an NPC's state: its disposition, its location, its
/// knowledge, or (for any other kind asked) all of these with its occupation.
pub open spec fn state_report(world: GameWorld, npc: Npc, state_type: Seq<char>) -> Seq<char> {
    let head = "=== State of "@ + npc.name@ + " ===\n\n"@;
    let disposition = "Disposition: "@ + npc.disposition.spec_word() + "\n"@;
    let location = "Location: "@ + or_unknown(npc_location_name(world, npc)) + "\n"@;
    let known = known_lines(npc);
    if state_type == "disposition"@ {
        head + disposition
    } else if state_type == "location"@ {
        head + location
    } else if state_type == "knowledge"@ {
        head + if known.len() == 0 { "Knowledge: (none recorded)\n"@ } else { "Knowledge:\n"@ + bullet_lines(known) }
    } else {
        head + disposition + location + "Occupation: "@ + or_unknown(opt_view(npc.occupation)) + "\n"@
            + if known.len() == 0 { Seq::empty() } else { "Knowledge:\n"@ + bullet_lines(known) }
    }
}

/// The answer to a state query: the report on the NPC named (in any ASCII
/// case), or why there is none.
pub open spec fn state_answer(input: JsonValue, world: GameWorld) -> Seq<char> {
    match field_str_of(input, "entity_name"@) {
        None => "Error: entity_name is required"@,
        Some(name) => match npc_named(world, name) {
            Some(npc) => state_report(world, npc, match field_str_of(input, "state_type"@) {
                Some(t) => t,
                None => "all"@,
            }),
            None => no_entity_text(name),
        },
    }
}

fn push_bullets(s: &mut String, items: &Vec<String>)
    ensures
        final(s)@ == old(s)@ + bullet_lines(items@.map_values(|x: String| x@)),
{
    let ghost start = s@;
    let mut i: usize = 0;
    while i < items.len()
        invariant
            0 <= i <= items@.len(),
            s@ == start + bullet_lines(items@.map_values(|x: String| x@).take(i as int)),
        decreases items@.len() - i,
    {
        proof {
            let v = items@.map_values(|x: String| x@);
            assert(v.take(i + 1).drop_last() =~= v.take(i as int));
        }
        push_str(s, "  - ");
        push_str(s, items[i].as_str());
        push_str(s, "\n");
        i = i + 1;
    }
    assert(items@.map_values(|x: String| x@).take(items@.len() as int) =~= items@.map_values(|x: String| x@));
}

fn push_location_line(s: &mut String, world: &GameWorld, npc: &Npc)
    ensures
        final(s)@ == old(s)@ + "Location: "@ + or_unknown(npc_location_name(*world, *npc)) + "\n"@,
{
    push_str(s, "Location: ");
    match world.npc_location(npc) {
        Some(name) => push_str(s, name.as_str()),
        None => push_str(s, "Unknown"),
    }
    push_str(s, "\n");
}

fn push_no_entity(s: &mut String, name: &str)
    ensures
        final(s)@ == old(s)@ + no_entity_text(name@),
{
    push_str(s, "No entity found with name '");
    push_str(s, name);
    push_str(s, "'. Check spelling or create the NPC first.");
}

/// Reports the state of an NPC: `entity_name` names it, `state_type`
/// ("disposition", "location", "knowledge", or anything else for all) says
/// what to report.
pub fn query_entity_state(input: &JsonValue, world: &GameWorld) -> (r: String)
    ensures
        r@ == state_answer(*input, *world),
{
    let entity_name = match field_str(input, "entity_name") {
        Some(name) => name,
        None => return String::from_str("Error: entity_name is required"),
    };
    let state_type = match field_str(input, "state_type") {
        Some(t) => t,
        None => String::from_str("all"),
    };
    let mut s = String::new();
    match world.find_npc(entity_name.as_str()) {
        Some(npc) => {
            push_str(&mut s, "=== State of ");
            push_str(&mut s, npc.name.as_str());
            push_str(&mut s, " ===\n\n");
            let t = state_type.as_str();
            if str_eq(t, "disposition") {
                push_str(&mut s, "Disposition: ");
                push_str(&mut s, npc.disposition.word());
                push_str(&mut s, "\n");
            } else if str_eq(t, "location") {
                push_location_line(&mut s, world, npc);
            } else if str_eq(t, "knowledge") {
                if npc.known_information.len() == 0 {
                    push_str(&mut s, "Knowledge: (none recorded)\n");
                } else {
                    push_str(&mut s, "Knowledge:\n");
                    push_bullets(&mut s, &npc.known_information);
                }
            } else {
                push_str(&mut s, "Disposition: ");
                push_str(&mut s, npc.disposition.word());
                push_str(&mut s, "\n");
                push_location_line(&mut s, world, npc);
                push_str(&mut s, "Occupation: ");
                match &npc.occupation {
                    Some(o) => push_str(&mut s, o.as_str()),
                    None => push_str(&mut s, "Unknown"),
                }
                push_str(&mut s, "\n");
                if npc.known_information.len() > 0 {
                    push_str(&mut s, "Knowledge:\n");
                    push_bullets(&mut s, &npc.known_information);
                } else {
                    assert(s@ + Seq::<char>::empty() =~= s@);
                }
            }
        },
        None => push_no_entity(&mut s, entity_name.as_str()),
    }
    s
}

/// The items that mention a topic, ignoring case, in order.
pub open spec fn about_topic(items: Seq<Seq<char>>, topic: Seq<char>) -> Seq<Seq<char>>
    decreases items.len(),
{
    if items.len() == 0 {
        Seq::empty()
    } else {
        let rest = about_topic(items.drop_last(), topic);
        if find(lowercase(items.last()), lowercase(topic)) is Some { rest.push(items.last()) } else { rest }
    }
}

/// The report on what an NPC knows, about a topic if one is given.
pub open spec fn knowledge_report(npc: Npc, topic: Option<Seq<char>>) -> Seq<char> {
    let head = "=== Knowledge of "@ + npc.name@ + " ===\n\n"@;
    let known = known_lines(npc);
    if known.len() == 0 {
        head + "No recorded knowledge.\n"@
    } else {
        let shown = match topic {
            Some(t) => about_topic(known, t),
            None => known,
        };
        if shown.len() == 0 {
            head + match topic {
                Some(t) => "No knowledge about '"@ + t + "'.\n"@,
                None => "No recorded knowledge.\n"@,
            }
        } else {
            head + npc.name@ + " knows:\n"@ + bullet_lines(shown)
        }
    }
}

/// The answer to a knowledge query about the NPC named (in any ASCII case).
pub open spec fn knowledge_answer(input: JsonValue, world: GameWorld) -> Seq<char> {
    match field_str_of(input, "entity_name"@) {
        None => "Error: entity_name is required"@,
        Some(name) => match npc_named(world, name) {
            Some(npc) => knowledge_report(npc, field_str_of(input, "topic"@)),
            None => no_entity_text(name),
        },
    }
}

fn select_about(items: &Vec<String>, topic: &str) -> (r: Vec<String>)
    ensures
        r@.map_values(|x: String| x@) == about_topic(items@.map_values(|x: String| x@), topic@),
{
    let topic_lower = to_lowercase(topic);
    let mut r: Vec<String> = Vec::new();
    let mut i: usize = 0;
    while i < items.len()
        invariant
            0 <= i <= items@.len(),
            topic_lower@ == lowercase(topic@),
            r@.map_values(|x: String| x@) == about_topic(items@.map_values(|x: String| x@).take(i as int), topic@),
        decreases items@.len() - i,
    {
        proof {
            let v = items@.map_values(|x: String| x@);
            assert(v.take(i + 1).drop_last() =~= v.take(i as int));
            assert(v.take(i + 1).last() == items@[i as int]@);
        }
        let lower = to_lowercase(items[i].as_str());
        if contains_text(lower.as_str(), topic_lower.as_str()) {
            let ghost before = r@;
            r.push(items[i].clone());
            assert(r@.map_values(|x: String| x@) =~= before.map_values(|x: String| x@).push(items@[i as int]@));
        }
        i = i + 1;
    }
    assert(items@.map_values(|x: String| x@).take(items@.len() as int) =~= items@.map_values(|x: String| x@));
    r
}

/// Reports what an NPC knows: `entity_name` names it, and `topic`, when
/// given, keeps only what mentions it (ignoring case).
pub fn query_entity_knowledge(input: &JsonValue, world: &GameWorld) -> (r: String)
    ensures
        r@ == knowledge_answer(*input, *world),
{
    let entity_name = match field_str(input, "entity_name") {
        Some(name) => name,
        None => return String::from_str("Error: entity_name is required"),
    };
    let topic = field_str(input, "topic");
    let mut s = String::new();
    match world.find_npc(entity_name.as_str()) {
        Some(npc) => {
            push_str(&mut s, "=== Knowledge of ");
            push_str(&mut s, npc.name.as_str());
            push_str(&mut s, " ===\n\n");
            if npc.known_information.len() == 0 {
                push_str(&mut s, "No recorded knowledge.\n");
            } else {
                let shown = match &topic {
                    Some(t) => select_about(&npc.known_information, t.as_str()),
                    None => npc.known_information.clone(),
                };
                assert(shown@.map_values(|x: String| x@) =~= match opt_view(topic) {
                    Some(t) => about_topic(known_lines(*npc), t),
                    None => known_lines(*npc),
                });
                if shown.len() == 0 {
                    match &topic {
                        Some(t) => {
                            push_str(&mut s, "No knowledge about '");
                            push_str(&mut s, t.as_str());
                            push_str(&mut s, "'.\n");
                        },
                        None => push_str(&mut s, "No recorded knowledge.\n"),
                    }
                } else {
                    push_str(&mut s, npc.name.as_str());
                    push_str(&mut s, " knows:\n");
                    push_bullets(&mut s, &shown);
                }
            }
        },
        None => push_no_entity(&mut s, entity_name.as_str()),
    }
    s
}

} // verus!
