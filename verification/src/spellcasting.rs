//! Spellcasting ability, spell save DC, attack bonus and spell slots.

use vstd::prelude::*;
use crate::abilities::{score_modifier, Ability, AbilityScores};

verus! {

/// What a spellcaster knows and can cast.
#[derive(Debug, Clone)]
pub struct SpellcastingData {
    pub ability: Ability,
    pub spells_known: Vec<String>,
    pub spells_prepared: Vec<String>,
    pub cantrips_known: Vec<String>,
    pub spell_slots: SpellSlots,
}

impl SpellcastingData {
    /// `8 + proficiency + modifier`, never below zero.
    pub fn spell_save_dc(&self, ability_scores: &AbilityScores, proficiency: i8) -> (r: u8)
        requires
            ability_scores.modifier_defined(self.ability),
            8 + proficiency <= 127,
            -128 <= 8 + proficiency + score_modifier(ability_scores.spec_get(self.ability)) <= 127,
        ensures
            r as int == if 8 + proficiency + score_modifier(ability_scores.spec_get(self.ability)) >= 0 {
                8 + proficiency + score_modifier(ability_scores.spec_get(self.ability))
            } else {
                0
            },
    {
        let ability_mod = ability_scores.modifier(self.ability);
        let dc: i8 = 8 + proficiency + ability_mod;
        if dc >= 0 { dc as u8 } else { 0 }
    }

    /// `modifier + proficiency`.
    pub fn spell_attack_bonus(&self, ability_scores: &AbilityScores, proficiency: i8) -> (r: i8)
        requires
            ability_scores.modifier_defined(self.ability),
            -128 <= score_modifier(ability_scores.spec_get(self.ability)) + proficiency <= 127,
        ensures
            r as int == score_modifier(ability_scores.spec_get(self.ability)) + proficiency,
    {
        ability_scores.modifier(self.ability) + proficiency
    }
}

/// Slots of one spell level.
#[derive(Debug, Clone, Copy)]
pub struct SlotInfo {
    pub total: u8,
    pub used: u8,
}

/// A slot record built in specifications.
pub open spec fn slot_info(total: u8, used: u8) -> SlotInfo {
    SlotInfo { total, used }
}

impl SlotInfo {
    pub open spec fn spec_available(self) -> nat {
        if self.used <= self.total { (self.total - self.used) as nat } else { 0 }
    }

    /// Slots left; zero when more were used than there are.
    pub fn available(&self) -> (r: u8)
        ensures
            r == self.spec_available(),
    {
        self.total.saturating_sub(self.used)
    }
}

/// A level whose slots were used `k` times after a rest.
pub open spec fn used_after_rest(total: u8, k: nat) -> SlotInfo {
    slot_info(total, k as u8)
}

/// Using a slot takes exactly one from those left, and after a rest a level
/// offers exactly its total: `k` uses leave `total - k`.
pub proof fn law_slots_count_down_from_the_total(s: SlotInfo, total: u8, k: nat)
    requires
        k <= total,
    ensures
        s.spec_available() > 0 ==> slot_info(s.total, (s.used + 1) as u8).spec_available() == s.spec_available() - 1,
        slot_info(total, 0).spec_available() == total,
        used_after_rest(total, k).spec_available() == total - k,
{
}

/// Slots for spell levels 1 to 9 (index 0 is level 1).
#[derive(Debug, Clone)]
pub struct SpellSlots {
    pub slots: [SlotInfo; 9],
}

impl SpellSlots {
    /// No slots at any level.
    pub fn new() -> (r: Self)
        ensures
            forall|i: int| 0 <= i < 9 ==> #[trigger] r.slots@[i] == slot_info(0, 0),
    {
        SpellSlots { slots: [SlotInfo { total: 0, used: 0 }; 9] }
    }

    /// Spends a slot of the given level; false when the level is not 1 to 9
    /// or no slot of it is left.
    pub fn use_slot(&mut self, level: u8) -> (r: bool)
        ensures
            r == (1 <= level <= 9 && old(self).slots@[level - 1].spec_available() > 0),
            r ==> final(self).slots@ == old(self).slots@.update(
                level - 1,
                slot_info(old(self).slots@[level - 1].total, (old(self).slots@[level - 1].used + 1) as u8),
            ),
            !r ==> final(self).slots@ == old(self).slots@,
    {
        if 1 <= level && level <= 9 {
            let i = (level - 1) as usize;
            let slot = self.slots[i];
            if slot.available() > 0 {
                self.slots[i] = SlotInfo { total: slot.total, used: slot.used + 1 };
                return true;
            }
        }
        false
    }

    /// After a long rest every slot is back.
    pub fn recover_all(&mut self)
        ensures
            forall|i: int| 0 <= i < 9 ==> #[trigger] final(self).slots@[i] == slot_info(old(self).slots@[i].total, 0),
    {
        let mut i: usize = 0;
        while i < 9
            invariant
                0 <= i <= 9,
                forall|j: int| 0 <= j < i ==> #[trigger] self.slots@[j] == slot_info(old(self).slots@[j].total, 0),
                forall|j: int| i <= j < 9 ==> #[trigger] self.slots@[j] == old(self).slots@[j],
            decreases 9 - i,
        {
            let t = self.slots[i].total;
            self.slots[i] = SlotInfo { total: t, used: 0 };
            i = i + 1;
        }
    }
}

impl Default for SpellSlots {
    /// No slots at any level.
    fn default() -> (r: Self)
        ensures
            forall|i: int| 0 <= i < 9 ==> #[trigger] r.slots@[i] == slot_info(0, 0),
    {
        Self::new()
    }
}

} // verus!
