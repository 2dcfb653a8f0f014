//! Bounded death-save progression for a player combatant at zero hit
//! points: three successes stabilize, three failures are terminal.
use vstd::prelude::*;

verus! {

#[derive(Debug, Clone, Copy, PartialEq, Eq, Structural)]
pub struct DeathSaves {
    pub successes: u8,
    pub failures: u8,
    pub is_stable: bool,
}

#[derive(Debug, Clone, Copy, PartialEq, Eq, Structural)]
pub enum DeathSaveOutcome {
    Ongoing,
    Stabilized,
    Died,
    Revived,
}

impl DeathSaves {
    /// Both counters are capped at three.
    pub open spec fn wf(self) -> bool {
        self.successes <= 3 && self.failures <= 3
    }

    /// The record a combatant starts with when it first drops to zero
    /// hit points.
    pub open spec fn spec_fresh() -> DeathSaves {
        DeathSaves { successes: 0, failures: 0, is_stable: false }
    }

    /// Counters after one successful save.
    pub open spec fn after_success(self) -> DeathSaves {
        DeathSaves {
            successes: if self.successes < 3 {
                (self.successes + 1) as u8
            } else {
                self.successes
            },
            failures: self.failures,
            is_stable: if self.successes >= 2 {
                true
            } else {
                self.is_stable
            },
        }
    }

    /// Counters after `count` failed saves; a critical failure counts
    /// twice, and the total is capped at three.
    pub open spec fn after_failure(self, count: int) -> DeathSaves {
        DeathSaves {
            successes: self.successes,
            failures: if self.failures + count <= 3 {
                (self.failures + count) as u8
            } else {
                3u8
            },
            is_stable: false,
        }
    }

    pub fn add_success(&mut self) -> (r: DeathSaveOutcome)
        requires
            old(self).wf(),
        ensures
            *final(self) == old(self).after_success(),
            final(self).wf(),
            r == (if final(self).successes >= 3 {
                DeathSaveOutcome::Stabilized
            } else {
                DeathSaveOutcome::Ongoing
            }),
    {
        if self.successes < 3 {
            self.successes += 1;
        }
        if self.successes >= 3 {
            self.is_stable = true;
            DeathSaveOutcome::Stabilized
        } else {
            DeathSaveOutcome::Ongoing
        }
    }

    pub fn add_failure(&mut self, count: u8) -> (r: DeathSaveOutcome)
        requires
            old(self).wf(),
            count <= 2,
        ensures
            *final(self) == old(self).after_failure(count as int),
            final(self).wf(),
            r == (if final(self).failures >= 3 {
                DeathSaveOutcome::Died
            } else {
                DeathSaveOutcome::Ongoing
            }),
    {
        self.is_stable = false;
        let total = self.failures + count;
        self.failures = if total <= 3 {
            total
        } else {
            3
        };
        if self.failures >= 3 {
            DeathSaveOutcome::Died
        } else {
            DeathSaveOutcome::Ongoing
        }
    }
}

impl Default for DeathSaves {
    /// A fresh record: no successes, no failures, not stable.
    fn default() -> (r: Self)
        ensures
            r == Self::spec_fresh(),
    {
        DeathSaves { successes: 0, failures: 0, is_stable: false }
    }
}

} // verus!
