//! Quests and their objectives.

use vstd::prelude::*;
use crate::ids::{random_uuid, v4_bits, v4_mask};

verus! {

/// Where a quest stands.
#[derive(Debug, Clone, Copy, PartialEq, Eq)]
pub enum QuestStatus {
    Active,
    Completed,
    Failed,
    Abandoned,
}

/// One step of a quest.
#[derive(Debug, Clone)]
pub struct QuestObjective {
    pub description: String,
    pub completed: bool,
    pub optional: bool,
}

/// A quest: what to do, for whom, and for what reward.
#[derive(Debug, Clone)]
pub struct Quest {
    /// Random version 4 UUID, as 128 bits.
    pub id: u128,
    pub name: String,
    pub description: String,
    pub status: QuestStatus,
    pub objectives: Vec<QuestObjective>,
    pub rewards: Vec<String>,
    pub giver: Option<String>,
}

/// A quest is complete when it has objectives and every one of them,
/// optional ones included, is done.
pub open spec fn all_objectives_done(objectives: Seq<QuestObjective>) -> bool {
    objectives.len() > 0 && forall|i: int| 0 <= i < objectives.len() ==> #[trigger] objectives[i].completed
}

/// An objective that is not done keeps a quest from being complete, and
/// adding a done objective to a complete quest keeps it complete.
pub proof fn law_open_objectives_block_completion(objectives: Seq<QuestObjective>, o: QuestObjective)
    ensures
        !o.completed ==> !all_objectives_done(objectives.push(o)),
        o.completed && all_objectives_done(objectives) ==> all_objectives_done(objectives.push(o)),
        !all_objectives_done(Seq::<QuestObjective>::empty()),
{
    if !o.completed {
        assert(objectives.push(o)[objectives.len() as int] == o);
    }
    if o.completed && all_objectives_done(objectives) {
        assert forall|i: int| 0 <= i < objectives.push(o).len() implies #[trigger] objectives.push(o)[i].completed by {
            if i < objectives.len() {
                assert(objectives.push(o)[i] == objectives[i]);
            }
        }
    }
}

impl Quest {
    /// A new active quest, with no objectives, rewards or giver.
    pub fn new(name: &str, description: &str) -> (r: Self)
        ensures
            r.id & v4_mask() == v4_bits(),
            r.name@ == name@,
            r.description@ == description@,
            r.status == QuestStatus::Active,
            r.objectives@.len() == 0,
            r.rewards@.len() == 0,
            r.giver is None,
    {
        Quest {
            id: random_uuid(),
            name: String::from_str(name),
            description: String::from_str(description),
            status: QuestStatus::Active,
            objectives: Vec::new(),
            rewards: Vec::new(),
            giver: None,
        }
    }

    pub fn is_complete(&self) -> (r: bool)
        ensures
            r == all_objectives_done(self.objectives@),
    {
        if self.objectives.len() == 0 {
            return false;
        }
        let mut i: usize = 0;
        while i < self.objectives.len()
            invariant
                0 <= i <= self.objectives@.len(),
                forall|j: int| 0 <= j < i ==> #[trigger] self.objectives@[j].completed,
            decreases self.objectives@.len() - i,
        {
            if !self.objectives[i].completed {
                return false;
            }
            i = i + 1;
        }
        true
    }
}

} // verus!
