//! Game rules, character state and story bookkeeping for a solo tabletop
//! role-playing game whose narrator is a language model.
//!
//! The model expresses intents; the rules here decide what actually happens.

pub mod text;
pub mod abilities;
pub mod conditions;
pub mod health;
pub mod spellcasting;
pub mod ids;
pub mod quests;
pub mod scheduled_event;
pub mod knowledge;
pub mod relevance;
pub mod world;
pub mod rules;
pub mod input;
pub mod resolve;
pub mod narrative;
pub mod json;
pub mod intent;
pub mod tool_parsing;
pub mod queries;
pub mod class_features;
pub mod checks;
pub mod attack;
pub mod spells;
pub mod items;
pub mod travel;
pub mod engine;
