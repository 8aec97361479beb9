//! Events scheduled to happen at a time in the story, whether or not the
//! player is there.

use vstd::prelude::*;
use crate::text::{ascii_lower, lowercase, str_eq, to_lowercase};
use vstd::utf8::is_ascii_chars;

verus! {

/// Identifies a scheduled event.
#[derive(Debug, Clone, Copy, PartialEq, Eq, Hash, Structural)]
pub struct ScheduledEventId(pub u32);

/// When an event fires.
#[derive(Debug, Clone, PartialEq)]
pub enum EventTrigger {
    /// At a date (and optionally hour) of the game calendar.
    AtTime { year: i32, month: u8, day: u8, hour: Option<u8> },
    /// A number of minutes after it was scheduled.
    AfterDuration {
        /// Minutes from when the event was scheduled.
        minutes_from_creation: u32,
        /// The absolute minute count at which it fires.
        trigger_at_minute: u64,
    },
    /// Every day at a time of day.
    TimeOfDay { hour: u8, minute: u8 },
}

/// What the player knows of an event.
#[derive(Debug, Clone, Copy, PartialEq, Eq, Structural)]
pub enum EventVisibility {
    /// The player knows about it.
    Public,
    /// The player does not know it will happen.
    Private,
    /// The player knows something will happen, not what.
    Hinted,
}

/// The visibility named by an already lower-cased word.
pub open spec fn spec_visibility_from_lowercase(s: Seq<char>) -> Option<EventVisibility> {
    if s == "public"@ {
        Some(EventVisibility::Public)
    } else if s == "private"@ || s == "secret"@ {
        Some(EventVisibility::Private)
    } else if s == "hinted"@ || s == "hint"@ {
        Some(EventVisibility::Hinted)
    } else {
        None
    }
}

impl EventVisibility {
    pub open spec fn spec_text(self) -> Seq<char> {
        match self {
            EventVisibility::Public => "public"@,
            EventVisibility::Private => "private"@,
            EventVisibility::Hinted => "hinted"@,
        }
    }

    /// Reads a visibility from a word already in lower case.
    pub fn from_lowercase(s: &str) -> (r: Option<Self>)
        ensures
            r == spec_visibility_from_lowercase(s@),
    {
        if str_eq(s, "public") {
            Some(EventVisibility::Public)
        } else if str_eq(s, "private") || str_eq(s, "secret") {
            Some(EventVisibility::Private)
        } else if str_eq(s, "hinted") || str_eq(s, "hint") {
            Some(EventVisibility::Hinted)
        } else {
            None
        }
    }

    /// Reads a visibility in any case: "public"; "private" or "secret";
    /// "hinted" or "hint".
    pub fn parse(s: &str) -> (r: Option<Self>)
        ensures
            r == spec_visibility_from_lowercase(lowercase(s@)),
            is_ascii_chars(s@) ==> r == spec_visibility_from_lowercase(ascii_lower(s@)),
    {
        let lower = to_lowercase(s);
        Self::from_lowercase(lower.as_str())
    }

    /// The word for the visibility.
    pub fn to_text(&self) -> (r: String)
        ensures
            r@ == self.spec_text(),
    {
        match self {
            EventVisibility::Public => String::from_str("public"),
            EventVisibility::Private => String::from_str("private"),
            EventVisibility::Hinted => String::from_str("hinted"),
        }
    }
}

/// Reading the word for a visibility gives the visibility back.
pub proof fn law_visibility_text_parses(v: EventVisibility)
    ensures
        is_ascii_chars(v.spec_text()),
        spec_visibility_from_lowercase(ascii_lower(v.spec_text())) == Some(v),
{
    reveal_strlit("public");
    reveal_strlit("private");
    reveal_strlit("hinted");
    reveal_strlit("secret");
    reveal_strlit("hint");
    crate::text::lemma_lowercase_fixed(v.spec_text());
    match v {
        EventVisibility::Public => {
            assert(true);
        },
        EventVisibility::Private => {
            assert(true);
        },
        EventVisibility::Hinted => {
            assert("hinted"@[0] != "public"@[0]);
            assert("hinted"@[0] != "secret"@[0]);
        },
    }
}

/// Where an event stands.
#[derive(Debug, Clone, Copy, PartialEq, Eq, Structural)]
pub enum EventStatus {
    /// Waiting to fire.
    Scheduled,
    /// Has fired.
    Triggered,
    /// Called off before it fired.
    Cancelled,
}

/// An event that fires on time.
#[derive(Debug, Clone)]
pub struct ScheduledEvent {
    pub id: ScheduledEventId,
    /// What happens.
    pub description: String,
    /// When it happens.
    pub trigger: EventTrigger,
    /// Where it happens, if anywhere in particular.
    pub location: Option<String>,
    /// Who takes part.
    pub involved_entities: Vec<String>,
    /// What the player knows of it.
    pub visibility: EventVisibility,
    /// Whether it happens again after firing.
    pub repeating: bool,
    /// Minutes between repeats.
    pub repeat_interval_minutes: Option<u32>,
    pub status: EventStatus,
    /// Story turn at which it was scheduled.
    pub scheduled_at_turn: u32,
    /// Game minute at which it was scheduled.
    pub scheduled_at_minute: u64,
}

impl ScheduledEvent {
    /// The same event with another status.
    pub open spec fn with_status(self, status: EventStatus) -> Self {
        ScheduledEvent { status, ..self }
    }

    /// The event after it is rescheduled at `new_trigger_minute`: a repeating
    /// event is scheduled again, and one that fires after a duration moves its
    /// firing minute; a one-time event stays as it is.
    pub open spec fn rescheduled(self, new_trigger_minute: u64) -> Self {
        if !self.repeating {
            self
        } else {
            ScheduledEvent {
                status: EventStatus::Scheduled,
                trigger: match self.trigger {
                    EventTrigger::AfterDuration { minutes_from_creation, .. } => EventTrigger::AfterDuration {
                        minutes_from_creation,
                        trigger_at_minute: new_trigger_minute,
                    },
                    other => other,
                },
                ..self
            }
        }
    }

    /// A public, one-time, scheduled event with no location or participants.
    pub fn new(
        id: ScheduledEventId,
        description: &str,
        trigger: EventTrigger,
        current_turn: u32,
        current_minute: u64,
    ) -> (r: Self)
        ensures
            r.id == id,
            r.description@ == description@,
            r.trigger == trigger,
            r.location is None,
            r.involved_entities@.len() == 0,
            r.visibility == EventVisibility::Public,
            !r.repeating,
            r.repeat_interval_minutes is None,
            r.status == EventStatus::Scheduled,
            r.scheduled_at_turn == current_turn,
            r.scheduled_at_minute == current_minute,
    {
        ScheduledEvent {
            id,
            description: String::from_str(description),
            trigger,
            location: None,
            involved_entities: Vec::new(),
            visibility: EventVisibility::default(),
            repeating: false,
            repeat_interval_minutes: None,
            status: EventStatus::default(),
            scheduled_at_turn: current_turn,
            scheduled_at_minute: current_minute,
        }
    }

    pub fn with_location(self, location: &str) -> (r: Self)
        ensures
            r.location matches Some(l) && l@ == location@,
            r == (ScheduledEvent { location: r.location, ..self }),
    {
        let mut e = self;
        e.location = Some(String::from_str(location));
        e
    }

    pub fn with_entities(self, entities: Vec<String>) -> (r: Self)
        ensures
            r == (ScheduledEvent { involved_entities: entities, ..self }),
    {
        let mut e = self;
        e.involved_entities = entities;
        e
    }

    pub fn with_visibility(self, visibility: EventVisibility) -> (r: Self)
        ensures
            r == (ScheduledEvent { visibility, ..self }),
    {
        let mut e = self;
        e.visibility = visibility;
        e
    }

    /// Makes the event repeat every `interval_minutes`.
    pub fn repeating(self, interval_minutes: u32) -> (r: Self)
        ensures
            r == (ScheduledEvent { repeating: true, repeat_interval_minutes: Some(interval_minutes), ..self }),
    {
        let mut e = self;
        e.repeating = true;
        e.repeat_interval_minutes = Some(interval_minutes);
        e
    }

    pub fn is_pending(&self) -> (r: bool)
        ensures
            r == (self.status == EventStatus::Scheduled),
    {
        self.status == EventStatus::Scheduled
    }

    pub fn trigger(&mut self)
        ensures
            *final(self) == old(self).with_status(EventStatus::Triggered),
    {
        self.status = EventStatus::Triggered;
    }

    pub fn cancel(&mut self)
        ensures
            *final(self) == old(self).with_status(EventStatus::Cancelled),
    {
        self.status = EventStatus::Cancelled;
    }

    /// After a repeating event fires it is scheduled again; an event that
    /// fires after a duration moves its firing minute to `new_trigger_minute`.
    /// A one-time event is left as it is.
    pub fn reschedule(&mut self, new_trigger_minute: u64)
        ensures
            *final(self) == old(self).rescheduled(new_trigger_minute),
    {
        if self.repeating {
            self.status = EventStatus::Scheduled;
            let next = match &self.trigger {
                EventTrigger::AfterDuration { minutes_from_creation, .. } => Some(*minutes_from_creation),
                _ => None,
            };
            if let Some(m) = next {
                self.trigger = EventTrigger::AfterDuration {
                    minutes_from_creation: m,
                    trigger_at_minute: new_trigger_minute,
                };
            }
        }
    }
}

/// An event that fires and is rescheduled is pending again exactly when it
/// repeats; one that is cancelled stays off whatever the minute given to it.
pub proof fn law_only_repeating_events_come_back(e: ScheduledEvent, minute: u64)
    ensures
        (e.with_status(EventStatus::Triggered).rescheduled(minute).status == EventStatus::Scheduled)
            <==> e.repeating,
        !e.repeating ==> e.with_status(EventStatus::Cancelled).rescheduled(minute).status
            == EventStatus::Cancelled,
        e.with_status(EventStatus::Triggered).rescheduled(minute).description == e.description,
        e.with_status(EventStatus::Triggered).rescheduled(minute).id == e.id,
{
}

impl Default for EventVisibility {
    /// Public, unless said otherwise.
    fn default() -> (r: Self)
        ensures
            r == EventVisibility::Public,
    {
        EventVisibility::Public
    }
}

impl Default for EventStatus {
    fn default() -> (r: Self)
        ensures
            r == EventStatus::Scheduled,
    {
        EventStatus::Scheduled
    }
}

} // verus!
