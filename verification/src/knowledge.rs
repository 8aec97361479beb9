//! Who knows what in the story: knowledge entries, how trustworthy they are,
//! and where they came from.

use vstd::prelude::*;
use crate::ids::{random_uuid, uuid_text, uuid_to_text, v4_bits, v4_mask, EntityId, FactId};
use crate::text::{ascii_lower, lowercase, push_str, str_eq, to_lowercase};
use vstd::utf8::is_ascii_chars;

verus! {

/// Identifies a knowledge entry.
#[derive(Debug, Clone, Copy, PartialEq, Eq, Hash, Structural)]
pub struct KnowledgeId(pub u128);

impl KnowledgeId {
    /// A fresh random identifier.
    pub fn new() -> (r: Self)
        ensures
            r.0 & v4_mask() == v4_bits(),
    {
        KnowledgeId(random_uuid())
    }

    /// The hyphenated text of the identifier.
    pub fn to_text(&self) -> (r: String)
        ensures
            r@ == uuid_text(self.0),
    {
        uuid_to_text(self.0)
    }
}

/// How far a piece of knowledge can be trusted.
#[derive(Debug, Clone, Copy, PartialEq, Eq, Structural)]
pub enum VerificationStatus {
    /// True, as the story has it.
    True,
    /// A lie or misinformation.
    False,
    /// Partly true.
    PartiallyTrue,
    /// Rumor or hearsay.
    Unknown,
    /// Was true, no longer is.
    Outdated,
}

/// The status named by an already lower-cased word; anything unrecognised
/// is a rumor.
pub open spec fn spec_status_from_lowercase(s: Seq<char>) -> VerificationStatus {
    if s == "true"@ || s == "verified"@ || s == "fact"@ {
        VerificationStatus::True
    } else if s == "false"@ || s == "lie"@ || s == "misinformation"@ {
        VerificationStatus::False
    } else if s == "partial"@ || s == "partially_true"@ || s == "partially true"@ {
        VerificationStatus::PartiallyTrue
    } else if s == "outdated"@ || s == "stale"@ {
        VerificationStatus::Outdated
    } else {
        VerificationStatus::Unknown
    }
}

impl VerificationStatus {
    pub open spec fn spec_name(self) -> Seq<char> {
        match self {
            VerificationStatus::True => "verified"@,
            VerificationStatus::False => "false"@,
            VerificationStatus::PartiallyTrue => "partially true"@,
            VerificationStatus::Unknown => "unverified"@,
            VerificationStatus::Outdated => "outdated"@,
        }
    }

    /// Reads a status from a word already in lower case.
    pub fn from_lowercase(s: &str) -> (r: Self)
        ensures
            r == spec_status_from_lowercase(s@),
    {
        if str_eq(s, "true") || str_eq(s, "verified") || str_eq(s, "fact") {
            VerificationStatus::True
        } else if str_eq(s, "false") || str_eq(s, "lie") || str_eq(s, "misinformation") {
            VerificationStatus::False
        } else if str_eq(s, "partial") || str_eq(s, "partially_true") || str_eq(s, "partially true") {
            VerificationStatus::PartiallyTrue
        } else if str_eq(s, "outdated") || str_eq(s, "stale") {
            VerificationStatus::Outdated
        } else {
            VerificationStatus::Unknown
        }
    }

    /// Reads a status in any case.
    pub fn parse(s: &str) -> (r: Self)
        ensures
            r == spec_status_from_lowercase(lowercase(s@)),
            is_ascii_chars(s@) ==> r == spec_status_from_lowercase(ascii_lower(s@)),
    {
        let lower = to_lowercase(s);
        Self::from_lowercase(lower.as_str())
    }

    pub fn name(&self) -> (r: &'static str)
        ensures
            r@ == self.spec_name(),
    {
        match self {
            VerificationStatus::True => "verified",
            VerificationStatus::False => "false",
            VerificationStatus::PartiallyTrue => "partially true",
            VerificationStatus::Unknown => "unverified",
            VerificationStatus::Outdated => "outdated",
        }
    }
}

/// Reading the name of a verification status gives the status back.
pub proof fn law_status_name_parses(v: VerificationStatus)
    ensures
        is_ascii_chars(v.spec_name()),
        spec_status_from_lowercase(ascii_lower(v.spec_name())) == v,
{
    reveal_strlit("verified");
    reveal_strlit("false");
    reveal_strlit("partially true");
    reveal_strlit("unverified");
    reveal_strlit("outdated");
    reveal_strlit("true");
    reveal_strlit("fact");
    reveal_strlit("lie");
    reveal_strlit("misinformation");
    reveal_strlit("partial");
    reveal_strlit("partially_true");
    reveal_strlit("stale");
    crate::text::lemma_lowercase_fixed(v.spec_name());
    match v {
        VerificationStatus::True => {
            assert(true);
        },
        VerificationStatus::False => {
            assert(true);
        },
        VerificationStatus::PartiallyTrue => {
            assert("partially true"@[0] != "misinformation"@[0]);
            assert("partially true"@[9] != "partially_true"@[9]);
        },
        VerificationStatus::Unknown => {
            assert(true);
        },
        VerificationStatus::Outdated => {
            assert("outdated"@[0] != "verified"@[0]);
        },
    }
}

/// Where a piece of knowledge came from.
#[derive(Debug, Clone)]
pub enum KnowledgeSource {
    /// Another entity told them.
    Entity(EntityId),
    /// They saw it.
    Observation,
    /// They read it.
    WrittenSource(String),
    /// The player told them.
    Player,
    /// They always knew.
    Background,
    /// Not recorded.
    Unknown,
}

/// The source read from a word `s` whose lower-case form is `lower`: the
/// kind of source a keyword names, else the given entity, else a written
/// source of that name.
pub open spec fn spec_source(s: Seq<char>, lower: Seq<char>, entity_id: Option<EntityId>, r: KnowledgeSource) -> bool {
    if lower == "observation"@ || lower == "observed"@ || lower == "witnessed"@ {
        r is Observation
    } else if lower == "player"@ || lower == "the player"@ || lower == "pc"@ {
        r is Player
    } else if lower == "background"@ || lower == "always knew"@ {
        r is Background
    } else if lower == "unknown"@ || lower == ""@ {
        r is Unknown
    } else {
        match entity_id {
            Some(id) => r == KnowledgeSource::Entity(id),
            None => r matches KnowledgeSource::WrittenSource(w) && w@ == s,
        }
    }
}

impl KnowledgeSource {
    pub open spec fn spec_description(self) -> Seq<char> {
        match self {
            KnowledgeSource::Entity(_) => "from another entity"@,
            KnowledgeSource::Observation => "from direct observation"@,
            KnowledgeSource::WrittenSource(s) => "from written source: "@ + s@,
            KnowledgeSource::Player => "from the player"@,
            KnowledgeSource::Background => "background knowledge"@,
            KnowledgeSource::Unknown => "unknown source"@,
        }
    }

    /// Reads a source from a word and its lower-case form.
    pub fn from_lowercase(s: &str, lower: &str, entity_id: Option<EntityId>) -> (r: Self)
        ensures
            spec_source(s@, lower@, entity_id, r),
    {
        if str_eq(lower, "observation") || str_eq(lower, "observed") || str_eq(lower, "witnessed") {
            KnowledgeSource::Observation
        } else if str_eq(lower, "player") || str_eq(lower, "the player") || str_eq(lower, "pc") {
            KnowledgeSource::Player
        } else if str_eq(lower, "background") || str_eq(lower, "always knew") {
            KnowledgeSource::Background
        } else if str_eq(lower, "unknown") || str_eq(lower, "") {
            KnowledgeSource::Unknown
        } else {
            match entity_id {
                Some(id) => KnowledgeSource::Entity(id),
                None => KnowledgeSource::WrittenSource(String::from_str(s)),
            }
        }
    }

    /// Reads a source word in any case; a word that names no kind of source
    /// is the given entity, or else a written source of that name.
    pub fn from_str(s: &str, entity_id: Option<EntityId>) -> (r: Self)
        ensures
            spec_source(s@, lowercase(s@), entity_id, r),
            is_ascii_chars(s@) ==> spec_source(s@, ascii_lower(s@), entity_id, r),
    {
        let lower = to_lowercase(s);
        Self::from_lowercase(s, lower.as_str(), entity_id)
    }

    pub fn description(&self) -> (r: String)
        ensures
            r@ == self.spec_description(),
    {
        match self {
            KnowledgeSource::Entity(_) => String::from_str("from another entity"),
            KnowledgeSource::Observation => String::from_str("from direct observation"),
            KnowledgeSource::WrittenSource(s) => {
                let mut d = String::from_str("from written source: ");
                push_str(&mut d, s.as_str());
                d
            },
            KnowledgeSource::Player => String::from_str("from the player"),
            KnowledgeSource::Background => String::from_str("background knowledge"),
            KnowledgeSource::Unknown => String::from_str("unknown source"),
        }
    }
}

/// A record that an entity knows something.
#[derive(Debug, Clone)]
pub struct KnowledgeEntry {
    pub id: KnowledgeId,
    /// Who knows it.
    pub knowing_entity: EntityId,
    /// What they know.
    pub content: String,
    /// The story fact it is about, if any.
    pub fact_id: Option<FactId>,
    /// Story turn at which they learned it.
    pub learned_at_turn: u32,
    /// Where they learned it.
    pub learned_from: Option<KnowledgeSource>,
    pub verification_status: VerificationStatus,
    /// False once newer knowledge replaced it.
    pub is_current: bool,
    /// How it was shared.
    pub context: Option<String>,
}

impl KnowledgeEntry {
    pub fn new(
        knowing_entity: EntityId,
        content: &str,
        verification_status: VerificationStatus,
        current_turn: u32,
    ) -> (r: Self)
        ensures
            r.id.0 & v4_mask() == v4_bits(),
            r.knowing_entity == knowing_entity,
            r.content@ == content@,
            r.fact_id is None,
            r.learned_at_turn == current_turn,
            r.learned_from is None,
            r.verification_status == verification_status,
            r.is_current,
            r.context is None,
    {
        KnowledgeEntry {
            id: KnowledgeId::new(),
            knowing_entity,
            content: String::from_str(content),
            fact_id: None,
            learned_at_turn: current_turn,
            learned_from: None,
            verification_status,
            is_current: true,
            context: None,
        }
    }

    pub fn with_source(self, source: KnowledgeSource) -> (r: Self)
        ensures
            r == (KnowledgeEntry { learned_from: Some(source), ..self }),
    {
        let mut e = self;
        e.learned_from = Some(source);
        e
    }

    pub fn with_fact(self, fact_id: FactId) -> (r: Self)
        ensures
            r == (KnowledgeEntry { fact_id: Some(fact_id), ..self }),
    {
        let mut e = self;
        e.fact_id = Some(fact_id);
        e
    }

    pub fn with_context(self, context: &str) -> (r: Self)
        ensures
            r.context matches Some(c) && c@ == context@,
            r == (KnowledgeEntry { context: r.context, ..self }),
    {
        let mut e = self;
        e.context = Some(String::from_str(context));
        e
    }

    /// Marks the entry as replaced by newer knowledge.
    pub fn supersede(&mut self)
        ensures
            *final(self) == (KnowledgeEntry { is_current: false, ..*old(self) }),
    {
        self.is_current = false;
    }

    pub fn update_verification(&mut self, status: VerificationStatus)
        ensures
            *final(self) == (KnowledgeEntry { verification_status: status, ..*old(self) }),
    {
        self.verification_status = status;
    }
}

} // verus!
