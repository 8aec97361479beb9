//! Hit points, hit dice and death saving throws.

use vstd::prelude::*;

verus! {

/// Hit points of a creature.
#[derive(Debug, Clone, Copy)]
pub struct HitPoints {
    pub current: i32,
    pub maximum: i32,
    pub temporary: i32,
}

/// What a hit did.
#[derive(Debug, Clone, Copy)]
pub struct DamageResult {
    pub damage_taken: i32,
    pub dropped_to_zero: bool,
}

/// Whether `take_damage(amount)` stays within `i32` on these hit points.
pub open spec fn take_damage_fits(hp: HitPoints, amount: i32) -> bool {
    if hp.temporary > 0 && hp.temporary >= amount {
        i32::MIN <= hp.temporary - amount <= i32::MAX
    } else if hp.temporary > 0 {
        i32::MIN <= hp.current - (amount - hp.temporary) <= i32::MAX
    } else {
        i32::MIN <= hp.current - amount <= i32::MAX
    }
}

/// Hit points after a hit: temporary points soak damage first, the rest comes
/// off the current points.
pub open spec fn after_damage(hp: HitPoints, amount: i32) -> HitPoints {
    if hp.temporary > 0 && hp.temporary >= amount {
        HitPoints { temporary: (hp.temporary - amount) as i32, ..hp }
    } else if hp.temporary > 0 {
        HitPoints { current: (hp.current - (amount - hp.temporary)) as i32, temporary: 0, ..hp }
    } else {
        HitPoints { current: (hp.current - amount) as i32, ..hp }
    }
}

/// Whether a hit drops the creature to zero: only when the temporary points
/// do not soak it all, and the current points end at or below zero.
pub open spec fn damage_drops_to_zero(hp: HitPoints, amount: i32) -> bool {
    !(hp.temporary > 0 && hp.temporary >= amount) && after_damage(hp, amount).current <= 0
}

/// Current points after healing, capped at the maximum.
pub open spec fn healed_current(hp: HitPoints, amount: i32) -> int {
    if hp.current + amount < hp.maximum { hp.current + amount } else { hp.maximum as int }
}

/// Temporary hit points after being offered `amount`: the larger is kept.
pub open spec fn with_temporary(temporary: i32, amount: i32) -> i32 {
    if temporary >= amount { temporary } else { amount }
}

/// A hit takes exactly its damage off the pool of current and temporary
/// hit points together; the maximum does not change.
pub proof fn law_damage_comes_off_the_pool(hp: HitPoints, amount: i32)
    requires
        take_damage_fits(hp, amount),
    ensures
        after_damage(hp, amount).current + after_damage(hp, amount).temporary == hp.current + hp.temporary - amount,
        after_damage(hp, amount).maximum == hp.maximum,
        hp.temporary >= 0 ==> after_damage(hp, amount).temporary >= 0,
{
}

/// Healing never raises current hit points above the maximum, and healing
/// by a non-negative amount never lowers them when they were at or below it.
pub proof fn law_healing_is_capped(hp: HitPoints, amount: i32)
    ensures
        healed_current(hp, amount) <= hp.maximum,
        amount >= 0 && hp.current <= hp.maximum ==> hp.current <= healed_current(hp, amount),
{
}

/// Temporary hit points do not stack, so the order in which two grants
/// arrive does not matter.
pub proof fn law_temporary_grants_commute(temporary: i32, a: i32, b: i32)
    ensures
        with_temporary(with_temporary(temporary, a), b) == with_temporary(with_temporary(temporary, b), a),
{
}

impl HitPoints {
    /// A creature at full health.
    pub fn new(maximum: i32) -> (r: Self)
        ensures
            r.current == maximum,
            r.maximum == maximum,
            r.temporary == 0,
    {
        HitPoints { current: maximum, maximum, temporary: 0 }
    }

    /// Takes damage, temporary points first.
    pub fn take_damage(&mut self, amount: i32) -> (r: DamageResult)
        requires
            take_damage_fits(*old(self), amount),
        ensures
            *final(self) == after_damage(*old(self), amount),
            r.damage_taken == amount,
            r.dropped_to_zero == damage_drops_to_zero(*old(self), amount),
    {
        let mut remaining = amount;
        if self.temporary > 0 {
            if self.temporary >= remaining {
                self.temporary = self.temporary - remaining;
                return DamageResult { damage_taken: amount, dropped_to_zero: false };
            } else {
                remaining = remaining - self.temporary;
                self.temporary = 0;
            }
        }
        self.current = self.current - remaining;
        DamageResult { damage_taken: amount, dropped_to_zero: self.current <= 0 }
    }

    /// Heals up to the maximum and returns how much the current points changed.
    pub fn heal(&mut self, amount: i32) -> (r: i32)
        requires
            i32::MIN <= old(self).current + amount <= i32::MAX,
            i32::MIN <= healed_current(*old(self), amount) - old(self).current <= i32::MAX,
        ensures
            final(self).current == healed_current(*old(self), amount),
            final(self).maximum == old(self).maximum,
            final(self).temporary == old(self).temporary,
            r == final(self).current - old(self).current,
    {
        let old_current = self.current;
        let raised = self.current + amount;
        self.current = if raised < self.maximum { raised } else { self.maximum };
        self.current - old_current
    }

    /// Temporary hit points do not stack: the larger amount is kept.
    pub fn add_temp_hp(&mut self, amount: i32)
        ensures
            final(self).temporary == with_temporary(old(self).temporary, amount),
            final(self).current == old(self).current,
            final(self).maximum == old(self).maximum,
    {
        if amount > self.temporary {
            self.temporary = amount;
        }
    }

    pub fn is_unconscious(&self) -> (r: bool)
        ensures
            r == (self.current <= 0),
    {
        self.current <= 0
    }
}

/// The dice of the game.
#[derive(Debug, Clone, Copy, PartialEq, Eq, Hash, Structural)]
pub enum DieType {
    D4,
    D6,
    D8,
    D10,
    D12,
    D20,
    D100,
}

impl DieType {
    /// Position of the die in the hit dice table.
    pub open spec fn spec_index(self) -> int {
        match self {
            DieType::D4 => 0,
            DieType::D6 => 1,
            DieType::D8 => 2,
            DieType::D10 => 3,
            DieType::D12 => 4,
            DieType::D20 => 5,
            DieType::D100 => 6,
        }
    }

    pub open spec fn spec_sides(self) -> nat {
        match self {
            DieType::D4 => 4,
            DieType::D6 => 6,
            DieType::D8 => 8,
            DieType::D10 => 10,
            DieType::D12 => 12,
            DieType::D20 => 20,
            DieType::D100 => 100,
        }
    }

    /// The die at a position of the hit dice table.
    pub open spec fn at_index(j: int) -> DieType {
        if j == 0 { DieType::D4 } else if j == 1 { DieType::D6 } else if j == 2 { DieType::D8 }
        else if j == 3 { DieType::D10 } else if j == 4 { DieType::D12 } else if j == 5 { DieType::D20 }
        else { DieType::D100 }
    }

    fn index(&self) -> (r: usize)
        ensures
            r == self.spec_index(),
    {
        match self {
            DieType::D4 => 0,
            DieType::D6 => 1,
            DieType::D8 => 2,
            DieType::D10 => 3,
            DieType::D12 => 4,
            DieType::D20 => 5,
            DieType::D100 => 6,
        }
    }

    /// Number of faces.
    pub fn sides(&self) -> (r: u8)
        ensures
            r == self.spec_sides(),
    {
        match self {
            DieType::D4 => 4,
            DieType::D6 => 6,
            DieType::D8 => 8,
            DieType::D10 => 10,
            DieType::D12 => 12,
            DieType::D20 => 20,
            DieType::D100 => 100,
        }
    }
}

/// The hit dice a character owns and how many are left to spend, per die
/// type. A die type that was never added has no entry.
#[derive(Debug, Clone)]
pub struct HitDice {
    counts: [Option<(u8, u8)>; 7],
}

/// Half of a count, rounded up.
pub open spec fn half_up(n: u8) -> int {
    (n as int + 1) / 2
}

/// A `(total, remaining)` entry after gaining `count` dice.
pub open spec fn added_entry(e: Option<(u8, u8)>, count: u8) -> Option<(u8, u8)> {
    match e {
        Some(e) => Some(((e.0 + count) as u8, (e.1 + count) as u8)),
        None => Some((count, count)),
    }
}

/// An entry after spending one die, when one is left.
pub open spec fn spent_entry(e: Option<(u8, u8)>) -> Option<(u8, u8)> {
    match e {
        Some(e) => if e.1 > 0 { Some((e.0, (e.1 - 1) as u8)) } else { Some(e) },
        None => None,
    }
}

/// An entry after a long rest: half the total back, rounded up, never more
/// than the total.
pub open spec fn recovered_entry(e: Option<(u8, u8)>) -> Option<(u8, u8)> {
    match e {
        Some(e) => Some((e.0, if e.1 + half_up(e.0) < e.0 { (e.1 + half_up(e.0)) as u8 } else { e.0 })),
        None => None,
    }
}

/// No more dice left than owned.
pub open spec fn entry_consistent(e: Option<(u8, u8)>) -> bool {
    e matches Some(e) ==> e.1 <= e.0
}

/// Adding, spending and recovering hit dice never leave more dice to spend
/// than the character owns.
pub proof fn law_hit_dice_within_total(e: Option<(u8, u8)>, count: u8)
    requires
        entry_consistent(e),
        e matches Some(x) ==> x.0 + count <= 255,
    ensures
        entry_consistent(added_entry(e, count)),
        entry_consistent(spent_entry(e)),
        entry_consistent(recovered_entry(e)),
{
}

/// Recovering twice in a row is no different from recovering once, when
/// half the total already brings every die back; in any case recovery never
/// takes dice away.
pub proof fn law_recovery_never_loses_dice(e: Option<(u8, u8)>)
    requires
        e matches Some(x) ==> x.1 + half_up(x.0) <= 255,
    ensures
        match (e, recovered_entry(e)) {
            (Some(before), Some(after)) => after.0 == before.0 && (before.1 <= before.0 ==> before.1 <= after.1),
            (None, None) => true,
            _ => false,
        },
{
}

impl HitDice {
    /// `(total, remaining)` for a die type, if it was ever added.
    pub closed spec fn entry(self, die: DieType) -> Option<(u8, u8)> {
        self.counts@[die.spec_index()]
    }

    /// No hit dice at all.
    pub open spec fn spec_is_empty(self) -> bool {
        forall|d: DieType| #[trigger] self.entry(d) is None
    }

    pub fn new() -> (r: Self)
        ensures
            r.spec_is_empty(),
    {
        let r = HitDice { counts: [None; 7] };
        assert forall|d: DieType| #[trigger] r.entry(d) is None by {
            assert(0 <= d.spec_index() < 7);
        }
        r
    }

    /// Total dice of a type owned, if any were added.
    pub fn total(&self, die: DieType) -> (r: Option<u8>)
        ensures
            r == (match self.entry(die) { Some(e) => Some(e.0), None => None }),
    {
        match self.counts[die.index()] {
            Some(e) => Some(e.0),
            None => None,
        }
    }

    /// Dice of a type left to spend, if any were added.
    pub fn remaining(&self, die: DieType) -> (r: Option<u8>)
        ensures
            r == (match self.entry(die) { Some(e) => Some(e.1), None => None }),
    {
        match self.counts[die.index()] {
            Some(e) => Some(e.1),
            None => None,
        }
    }

    pub fn is_empty(&self) -> (r: bool)
        ensures
            r == self.spec_is_empty(),
    {
        let mut i: usize = 0;
        while i < 7
            invariant
                0 <= i <= 7,
                self.counts@.len() == 7,
                forall|j: int| 0 <= j < i ==> self.counts@[j] is None,
            decreases 7 - i,
        {
            if self.counts[i].is_some() {
                let ghost d = DieType::at_index(i as int);
                assert(self.entry(d) is Some);
                return false;
            }
            i = i + 1;
        }
        assert forall|d: DieType| #[trigger] self.entry(d) is None by {
            assert(0 <= d.spec_index() < 7);
        }
        true
    }

    /// Gains `count` dice of a type, both to the total and to those left.
    pub fn add(&mut self, die: DieType, count: u8)
        requires
            old(self).entry(die) matches Some(e) ==> e.0 + count <= 255 && e.1 + count <= 255,
        ensures
            final(self).entry(die) == added_entry(old(self).entry(die), count),
            forall|d: DieType| d != die ==> #[trigger] final(self).entry(d) == old(self).entry(d),
    {
        let i = die.index();
        let next = match self.counts[i] {
            Some(e) => Some((e.0 + count, e.1 + count)),
            None => Some((count, count)),
        };
        self.counts[i] = next;
        proof {
            assert forall|d: DieType| d != die implies #[trigger] self.entry(d) == old(self).entry(d) by {
                assert(d.spec_index() != die.spec_index());
            }
        }
    }

    /// Spends one die of a type; false when none of that type is left.
    pub fn spend(&mut self, die: DieType) -> (r: bool)
        ensures
            r == (old(self).entry(die) matches Some(e) && e.1 > 0),
            final(self).entry(die) == spent_entry(old(self).entry(die)),
            forall|d: DieType| d != die ==> #[trigger] final(self).entry(d) == old(self).entry(d),
    {
        let i = die.index();
        match self.counts[i] {
            Some(e) => {
                if e.1 > 0 {
                    self.counts[i] = Some((e.0, e.1 - 1));
                    proof {
                        assert forall|d: DieType| d != die implies #[trigger] self.entry(d) == old(self).entry(d) by {
                            assert(d.spec_index() != die.spec_index());
                        }
                    }
                    true
                } else {
                    false
                }
            },
            None => false,
        }
    }

    /// After a long rest: each type regains half its total, rounded up,
    /// never more than the total.
    pub fn recover_half(&mut self)
        requires
            forall|d: DieType| #[trigger] old(self).entry(d) matches Some(e) ==> e.1 + half_up(e.0) <= 255,
        ensures
            forall|d: DieType| #[trigger] final(self).entry(d) == recovered_entry(old(self).entry(d)),
    {
        let ghost before = self.counts@;
        assert forall|j: int| 0 <= j < 7 implies (#[trigger] before[j] matches Some(e) ==> e.1 + half_up(e.0) <= 255) by {
            assert(old(self).entry(DieType::at_index(j)) == before[j]);
        }
        let mut i: usize = 0;
        while i < 7
            invariant
                0 <= i <= 7,
                self.counts@.len() == 7,
                before.len() == 7,
                forall|j: int| 0 <= j < 7 ==> (#[trigger] before[j] matches Some(e) ==> e.1 + half_up(e.0) <= 255),
                forall|j: int| i <= j < 7 ==> self.counts@[j] == before[j],
                forall|j: int| 0 <= j < i ==> self.counts@[j] == recovered_entry(before[j]),
            decreases 7 - i,
        {
            match self.counts[i] {
                Some(e) => {
                    let to_recover: u8 = (e.0 / 2) + (e.0 % 2);
                    assert(to_recover == half_up(e.0));
                    let raised: u8 = e.1 + to_recover;
                    let kept: u8 = if raised < e.0 { raised } else { e.0 };
                    self.counts[i] = Some((e.0, kept));
                },
                None => {},
            }
            i = i + 1;
        }
        proof {
            assert forall|d: DieType| #[trigger] old(self).entry(d) matches Some(e) ==> e.1 + half_up(e.0) <= 255 by {}
            assert forall|d: DieType| #[trigger] self.entry(d) == recovered_entry(old(self).entry(d)) by {
                assert(0 <= d.spec_index() < 7);
            }
        }
    }
}

/// Death saving throws made while dying.
#[derive(Debug, Clone, Copy)]
pub struct DeathSaves {
    pub successes: u8,
    pub failures: u8,
}

impl DeathSaves {
    /// Counts a success; true once there are three (the creature is stable).
    pub fn add_success(&mut self) -> (r: bool)
        requires
            old(self).successes < 255,
        ensures
            final(self).successes == old(self).successes + 1,
            final(self).failures == old(self).failures,
            r == (final(self).successes >= 3),
    {
        self.successes = self.successes + 1;
        self.successes >= 3
    }

    /// Counts a failure; true once there are three (the creature dies).
    pub fn add_failure(&mut self) -> (r: bool)
        requires
            old(self).failures < 255,
        ensures
            final(self).failures == old(self).failures + 1,
            final(self).successes == old(self).successes,
            r == (final(self).failures >= 3),
    {
        self.failures = self.failures + 1;
        self.failures >= 3
    }

    pub fn reset(&mut self)
        ensures
            final(self).successes == 0,
            final(self).failures == 0,
    {
        self.successes = 0;
        self.failures = 0;
    }
}

impl Default for DeathSaves {
    /// No successes and no failures.
    fn default() -> (r: Self)
        ensures
            r.successes == 0,
            r.failures == 0,
    {
        DeathSaves { successes: 0, failures: 0 }
    }
}

impl Default for HitDice {
    /// No hit dice.
    fn default() -> (r: Self)
        ensures
            r.spec_is_empty(),
    {
        Self::new()
    }
}

} // verus!
