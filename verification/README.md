# chronicler

The rules core of a solo tabletop role-playing game whose narrator is a
language model. The model proposes *intents* (attack, heal, create an NPC,
schedule an event, ...) by calling tools with JSON arguments; the rules here
decide what actually happens and describe it as *effects* and a line of
narrative. The code under `src/` is verified with Verus, except four
trusted wrappers whose contracts Verus takes on faith:

- `ids::random_uuid` (`uuid::Uuid::new_v4`) and `ids::uuid_to_text`
  (`Uuid::from_u128` and its hyphenated text);
- `text::to_lowercase` (`str::to_lowercase`), whose result is named by the
  uninterpreted `text::lowercase`, stated exactly only for ASCII text;
- `text::push_char` (`String::push`).

## Layout

- `src/text.rs`: decimal rendering, string comparison, lower-casing.
- `src/abilities.rs`, `conditions.rs`, `health.rs`, `spellcasting.rs`:
  character mechanics (scores and modifiers, conditions, hit points and hit
  dice, death saves, spell slots).
- `src/world.rs`: the game state the rules read: the player character, NPCs,
  known places, combat and turn order.
- `src/quests.rs`, `scheduled_event.rs`, `knowledge.rs`, `ids.rs`: story
  bookkeeping and identifiers.
- `src/rules.rs`, `intent.rs`: intents, effects and resolutions.
- `src/engine.rs`: the entry point, from an intent to its resolution, proved
  to give exactly what the resolver of that intent gives.
- `src/resolve.rs`, `class_features.rs`, `checks.rs`, `attack.rs`,
  `spells.rs`, `items.rs`, `travel.rs`: how each intent resolves: damage,
  healing, death saves, combat turns, rests, experience, quests, NPCs,
  places, story memory, class features, ability checks, saving throws,
  skill checks, weapon attacks, spell casting, items and equipment, travel
  and consequences. The dice rolled, and what the item and spell lists say,
  are arguments, so each resolution is proved for every outcome of them.
- `src/narrative.rs`: the line of narrative each effect produces.
- `src/json.rs`, `tool_parsing.rs`, `queries.rs`: reading tool calls from
  JSON arguments, and answering questions about NPCs.
- `src/relevance.rs`: results of relevance checks, pulling JSON out of a
  model's reply, and the question about implied state changes.
- `src/input.rs`: the player's input line.
- `app/`: the unverified edge: converting `serde_json` values, reading the
  model's JSON answers to relevance and state-inference questions, and the
  computations that need floating point (item worths and weights for the
  inventory listing, the inference confidence, the hit point ratio).
- `tests/`: tests on concrete values, run with the real outside crates.
