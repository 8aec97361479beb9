//! The standard conditions a creature can suffer.

use vstd::prelude::*;
use crate::text::{int_text, push_nat, push_str};

verus! {

/// A condition from the rules.
#[derive(Debug, Clone, Copy, PartialEq, Eq, Hash, Structural)]
pub enum Condition {
    Blinded,
    Charmed,
    Deafened,
    Frightened,
    Grappled,
    Incapacitated,
    Invisible,
    Paralyzed,
    Petrified,
    Poisoned,
    Prone,
    Restrained,
    Stunned,
    Unconscious,
    Exhaustion(u8),
}

impl Condition {
    pub open spec fn spec_name(self) -> Seq<char> {
        match self {
            Condition::Blinded => "Blinded"@,
            Condition::Charmed => "Charmed"@,
            Condition::Deafened => "Deafened"@,
            Condition::Frightened => "Frightened"@,
            Condition::Grappled => "Grappled"@,
            Condition::Incapacitated => "Incapacitated"@,
            Condition::Invisible => "Invisible"@,
            Condition::Paralyzed => "Paralyzed"@,
            Condition::Petrified => "Petrified"@,
            Condition::Poisoned => "Poisoned"@,
            Condition::Prone => "Prone"@,
            Condition::Restrained => "Restrained"@,
            Condition::Stunned => "Stunned"@,
            Condition::Unconscious => "Unconscious"@,
            Condition::Exhaustion(_) => "Exhaustion"@,
        }
    }

    /// The conditions under which a creature can take no actions.
    pub open spec fn spec_is_incapacitating(self) -> bool {
        ||| self is Incapacitated
        ||| self is Paralyzed
        ||| self is Petrified
        ||| self is Stunned
        ||| self is Unconscious
    }

    /// How a condition is shown: its name, with the level for exhaustion,
    /// e.g. "Exhaustion (3)".
    pub open spec fn spec_text(self) -> Seq<char> {
        match self {
            Condition::Exhaustion(level) => "Exhaustion ("@ + int_text(level as int) + ")"@,
            _ => self.spec_name(),
        }
    }

    pub fn name(&self) -> (r: &'static str)
        ensures
            r@ == self.spec_name(),
    {
        match self {
            Condition::Blinded => "Blinded",
            Condition::Charmed => "Charmed",
            Condition::Deafened => "Deafened",
            Condition::Frightened => "Frightened",
            Condition::Grappled => "Grappled",
            Condition::Incapacitated => "Incapacitated",
            Condition::Invisible => "Invisible",
            Condition::Paralyzed => "Paralyzed",
            Condition::Petrified => "Petrified",
            Condition::Poisoned => "Poisoned",
            Condition::Prone => "Prone",
            Condition::Restrained => "Restrained",
            Condition::Stunned => "Stunned",
            Condition::Unconscious => "Unconscious",
            Condition::Exhaustion(_) => "Exhaustion",
        }
    }

    pub fn is_incapacitating(&self) -> (r: bool)
        ensures
            r == self.spec_is_incapacitating(),
    {
        match self {
            Condition::Incapacitated
            | Condition::Paralyzed
            | Condition::Petrified
            | Condition::Stunned
            | Condition::Unconscious => true,
            _ => false,
        }
    }

    /// The text the game shows for the condition.
    pub fn to_text(&self) -> (r: String)
        ensures
            r@ == self.spec_text(),
    {
        match self {
            Condition::Exhaustion(level) => {
                let mut s = String::from_str("Exhaustion (");
                push_nat(&mut s, *level as u64);
                push_str(&mut s, ")");
                s
            },
            _ => String::from_str(self.name()),
        }
    }
}

/// A condition on a creature, with where it came from and how long it lasts.
#[derive(Debug, Clone)]
pub struct ActiveCondition {
    pub condition: Condition,
    pub source: String,
    pub duration_rounds: Option<u32>,
}

impl ActiveCondition {
    pub fn new(condition: Condition, source: &str) -> (r: Self)
        ensures
            r.condition == condition,
            r.source@ == source@,
            r.duration_rounds is None,
    {
        ActiveCondition { condition, source: String::from_str(source), duration_rounds: None }
    }

    pub fn with_duration(self, rounds: u32) -> (r: Self)
        ensures
            r.condition == self.condition,
            r.source == self.source,
            r.duration_rounds == Some(rounds),
    {
        let mut s = self;
        s.duration_rounds = Some(rounds);
        s
    }
}

} // verus!
