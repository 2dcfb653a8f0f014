//! The health, status and concentration rule engine for one participant.
use vstd::prelude::*;

use crate::concentration::ConcentrationInfo;
use crate::death_saves::{DeathSaveOutcome, DeathSaves};
use crate::status::{tick, ConditionType, StatusEffect};

verus! {

/// A status effect after one round of end-of-turn book-keeping.
pub open spec fn ticked(e: StatusEffect) -> StatusEffect {
    StatusEffect {
        condition: e.condition,
        duration: tick(e.duration as int) as i32,
        source: e.source,
    }
}

/// One round of book-keeping over a whole effect list: every duration
/// ticks down and expired effects are dropped.
pub open spec fn decremented_effects(s: Seq<StatusEffect>) -> Seq<StatusEffect> {
    s.map_values(|e: StatusEffect| ticked(e)).filter(|e: StatusEffect| e.duration >= 0)
}

/// At most one effect per condition.
pub open spec fn unique_conditions(s: Seq<StatusEffect>) -> bool {
    forall|i: int, j: int|
        0 <= i < j < s.len() ==> (#[trigger] s[i]).condition != (#[trigger] s[j]).condition
}

/// Index of the first effect with the given condition, or -1.
pub open spec fn find_condition(s: Seq<StatusEffect>, c: ConditionType) -> int
    decreases s.len(),
{
    if s.len() == 0 {
        -1
    } else if s[0].condition == c {
        0
    } else {
        let r = find_condition(s.skip(1), c);
        if r < 0 {
            -1
        } else {
            r + 1
        }
    }
}

pub proof fn lemma_find_condition(s: Seq<StatusEffect>, c: ConditionType)
    ensures
        find_condition(s, c) == -1 ==> (forall|j: int|
            0 <= j < s.len() ==> (#[trigger] s[j]).condition != c),
        find_condition(s, c) >= 0 ==> {
            let r = find_condition(s, c);
            &&& 0 <= r < s.len()
            &&& s[r].condition == c
            &&& (forall|j: int| 0 <= j < r ==> (#[trigger] s[j]).condition != c)
        },
    decreases s.len(),
{
    if s.len() > 0 && s[0].condition != c {
        lemma_find_condition(s.skip(1), c);
        let r1 = find_condition(s.skip(1), c);
        if r1 == -1 {
            assert forall|j: int| 0 <= j < s.len() implies (#[trigger] s[j]).condition != c by {
                if j > 0 {
                    assert(s.skip(1)[j - 1] == s[j]);
                    assert(s.skip(1)[j - 1].condition != c);
                }
            }
        } else {
            assert(s[r1 + 1] == s.skip(1)[r1]);
            assert forall|j: int| 0 <= j < r1 + 1 implies (#[trigger] s[j]).condition != c by {
                if j > 0 {
                    assert(s.skip(1)[j - 1] == s[j]);
                    assert(s.skip(1)[j - 1].condition != c);
                }
            }
        }
    }
}

#[derive(Debug)]
pub struct Combatant {
    pub name: String,
    pub initiative: i32,
    pub hp_current: i32,
    pub hp_max: i32,
    pub temp_hp: i32,
    pub armor_class: i32,
    pub is_player: bool,
    pub status_effects: Vec<StatusEffect>,
    pub death_saves: Option<DeathSaves>,
    pub concentration: Option<ConcentrationInfo>,
}

impl Combatant {
    /// Validity of one combatant: hit points never negative and never
    /// above the maximum (save for the one-point revival of a combatant
    /// whose maximum is zero), a non-negative temporary pool, a
    /// well-formed death-save record held only by a player who is still
    /// at zero hit points, and at most one status effect per condition.
    pub open spec fn wf(self) -> bool {
        &&& self.hp_max >= 0
        &&& 0 <= self.hp_current
        &&& (self.hp_current <= self.hp_max || self.hp_current == 1)
        &&& self.temp_hp >= 0
        &&& match self.death_saves {
            Some(d) => d.wf() && self.is_player && self.hp_current == 0,
            None => true,
        }
        &&& unique_conditions(self.status_effects@)
    }

    /// The identity and stat-block fields, which health book-keeping
    /// never touches.
    pub open spec fn same_identity(self, other: Self) -> bool {
        &&& self.name == other.name
        &&& self.initiative == other.initiative
        &&& self.hp_max == other.hp_max
        &&& self.armor_class == other.armor_class
        &&& self.is_player == other.is_player
    }

    /// Dead means three death-save failures on record.
    pub open spec fn spec_is_dead(self) -> bool {
        match self.death_saves {
            Some(d) => d.failures >= 3,
            None => false,
        }
    }

    pub fn new(name: String, initiative: i32, hp_max: i32, armor_class: i32, is_player: bool) -> (r:
        Self)
        requires
            hp_max >= 0,
        ensures
            r.name == name,
            r.initiative == initiative,
            r.hp_current == hp_max,
            r.hp_max == hp_max,
            r.temp_hp == 0,
            r.armor_class == armor_class,
            r.is_player == is_player,
            r.status_effects@ =~= Seq::<StatusEffect>::empty(),
            r.death_saves is None,
            r.concentration is None,
            r.wf(),
    {
        Self {
            name,
            initiative,
            hp_current: hp_max,
            hp_max,
            temp_hp: 0,
            armor_class,
            is_player,
            status_effects: Vec::new(),
            death_saves: None,
            concentration: None,
        }
    }

    /// The temporary pool absorbs damage first; the remainder drives the
    /// current hit points toward zero and never below it.
    pub fn take_damage(&mut self, damage: i32)
        requires
            old(self).wf(),
            damage >= 0,
        ensures
            final(self).temp_hp == if old(self).temp_hp - damage >= 0 {
                old(self).temp_hp - damage
            } else {
                0
            },
            final(self).hp_current as int == {
                let spill = if damage - old(self).temp_hp >= 0 {
                    damage - old(self).temp_hp
                } else {
                    0
                };
                if old(self).hp_current - spill >= 0 {
                    old(self).hp_current - spill
                } else {
                    0
                }
            },
            final(self).same_identity(*old(self)),
            final(self).status_effects == old(self).status_effects,
            final(self).death_saves == old(self).death_saves,
            final(self).concentration == old(self).concentration,
            final(self).wf(),
    {
        let mut remaining = damage;
        if self.temp_hp > 0 {
            let absorbed = if self.temp_hp < remaining {
                self.temp_hp
            } else {
                remaining
            };
            self.temp_hp -= absorbed;
            remaining -= absorbed;
        }
        if remaining > 0 {
            let reduced = self.hp_current - remaining;
            self.hp_current = if reduced > 0 {
                reduced
            } else {
                0
            };
        }
    }

    /// Healing adds to current hit points, capped at the maximum; it
    /// never produces `hp_current > hp_max`. Healing to any positive
    /// total clears an in-progress death-save record.
    pub fn heal(&mut self, amount: i32)
        requires
            old(self).wf(),
            amount >= 0,
        ensures
            final(self).hp_current as int == if old(self).hp_current + amount
                <= old(self).hp_max {
                old(self).hp_current + amount
            } else {
                old(self).hp_max as int
            },
            final(self).hp_current <= final(self).hp_max,
            final(self).temp_hp == old(self).temp_hp,
            final(self).same_identity(*old(self)),
            final(self).status_effects == old(self).status_effects,
            final(self).death_saves == (if final(self).hp_current > 0 {
                Option::<DeathSaves>::None
            } else {
                old(self).death_saves
            }),
            final(self).concentration == old(self).concentration,
            final(self).wf(),
    {
        let sum = self.hp_current as i64 + amount as i64;
        self.hp_current = if sum <= self.hp_max as i64 {
            sum as i32
        } else {
            self.hp_max
        };
        if self.hp_current > 0 {
            self.death_saves = None;
        }
    }

    /// Adding an effect of a condition already present replaces that
    /// entry instead of stacking a duplicate.
    pub fn add_status_effect(&mut self, effect: StatusEffect)
        requires
            old(self).wf(),
        ensures
            final(self).status_effects@ == {
                let s = old(self).status_effects@;
                let k = find_condition(s, effect.condition);
                if k >= 0 {
                    s.update(k, effect)
                } else {
                    s.push(effect)
                }
            },
            final(self).same_identity(*old(self)),
            final(self).hp_current == old(self).hp_current,
            final(self).temp_hp == old(self).temp_hp,
            final(self).death_saves == old(self).death_saves,
            final(self).concentration == old(self).concentration,
            final(self).wf(),
    {
        let ghost s = self.status_effects@;
        let ghost c = effect.condition;
        proof {
            lemma_find_condition(s, c);
        }
        let n = self.status_effects.len();
        let mut i: usize = 0;
        while i < n
            invariant
                0 <= i <= n,
                n == s.len(),
                s == self.status_effects@,
                c == effect.condition,
                forall|j: int| 0 <= j < i ==> (#[trigger] s[j]).condition != c,
                *self == *old(self),
                old(self).wf(),
            decreases n - i,
        {
            if self.status_effects[i].condition == effect.condition {
                proof {
                    lemma_find_condition(s, c);
                    let r = find_condition(s, c);
                    assert(r >= 0);
                    assert(r == i);
                }
                self.status_effects[i] = effect;
                proof {
                    assert(unique_conditions(s));
                    assert(s[i as int].condition == c);
                    let s2 = s.update(i as int, effect);
                    assert forall|a: int, b: int| 0 <= a < b < s2.len() implies (#[trigger] s2[a])
                        .condition != (#[trigger] s2[b]).condition by {
                        assert(s[a].condition != s[b].condition);
                        assert(s2[a] == if a == i {
                            effect
                        } else {
                            s[a]
                        });
                        assert(s2[b] == if b == i {
                            effect
                        } else {
                            s[b]
                        });
                    }
                }
                return ;
            }
            i += 1;
        }
        proof {
            lemma_find_condition(s, c);
        }
        self.status_effects.push(effect);
    }

    pub fn remove_status_effect(&mut self, index: usize)
        requires
            old(self).wf(),
        ensures
            final(self).status_effects@ == if index < old(self).status_effects@.len() {
                old(self).status_effects@.remove(index as int)
            } else {
                old(self).status_effects@
            },
            final(self).same_identity(*old(self)),
            final(self).hp_current == old(self).hp_current,
            final(self).temp_hp == old(self).temp_hp,
            final(self).death_saves == old(self).death_saves,
            final(self).concentration == old(self).concentration,
            final(self).wf(),
    {
        if index < self.status_effects.len() {
            self.status_effects.remove(index);
            proof {
                let s = old(self).status_effects@;
                assert forall|a: int, b: int|
                    0 <= a < b < s.remove(index as int).len() implies (#[trigger] s.remove(
                    index as int,
                )[a]).condition != (#[trigger] s.remove(index as int)[b]).condition by {
                    s.remove_ensures(index as int);
                }
            }
        }
    }

    /// Every effect's duration ticks down once and now-expired effects
    /// are removed; indefinite effects are untouched.
    pub fn decrement_status_effects(&mut self)
        requires
            old(self).wf(),
        ensures
            final(self).status_effects@ == decremented_effects(old(self).status_effects@),
            final(self).same_identity(*old(self)),
            final(self).hp_current == old(self).hp_current,
            final(self).temp_hp == old(self).temp_hp,
            final(self).death_saves == old(self).death_saves,
            final(self).concentration == old(self).concentration,
            final(self).wf(),
    {
        let ghost s0 = self.status_effects@;
        let n = self.status_effects.len();
        let mut i: usize = 0;
        while i < n
            invariant
                0 <= i <= n,
                n == self.status_effects@.len(),
                s0.len() == n,
                forall|k: int| 0 <= k < i ==> self.status_effects@[k] == ticked(#[trigger] s0[k]),
                forall|k: int| i <= k < n ==> self.status_effects@[k] == #[trigger] s0[k],
                self.hp_current == old(self).hp_current,
                self.temp_hp == old(self).temp_hp,
                self.death_saves == old(self).death_saves,
                self.concentration == old(self).concentration,
                self.name == old(self).name,
                self.initiative == old(self).initiative,
                self.hp_max == old(self).hp_max,
                self.armor_class == old(self).armor_class,
                self.is_player == old(self).is_player,
                s0 == old(self).status_effects@,
            decreases n - i,
        {
            let d = self.status_effects[i].duration;
            if d > 0 {
                let nd = if d == 1 {
                    -1
                } else {
                    d - 1
                };
                self.status_effects[i].duration = nd;
            }
            i += 1;
        }
        let ghost t = s0.map_values(|e: StatusEffect| ticked(e));
        proof {
            assert(self.status_effects@ =~= t);
        }
        let ghost keep = |e: StatusEffect| e.duration >= 0;
        let mut j: usize = 0;
        let ghost m: int = 0;
        while j < self.status_effects.len()
            invariant
                0 <= m <= t.len(),
                j as int == t.subrange(0, m).filter(keep).len(),
                self.status_effects@ =~= t.subrange(0, m).filter(keep) + t.skip(m),
                keep == |e: StatusEffect| e.duration >= 0,
                t == s0.map_values(|e: StatusEffect| ticked(e)),
                s0 == old(self).status_effects@,
                self.hp_current == old(self).hp_current,
                self.temp_hp == old(self).temp_hp,
                self.death_saves == old(self).death_saves,
                self.concentration == old(self).concentration,
                self.name == old(self).name,
                self.initiative == old(self).initiative,
                self.hp_max == old(self).hp_max,
                self.armor_class == old(self).armor_class,
                self.is_player == old(self).is_player,
            decreases t.len() - m,
        {
            let ghost pre = t.subrange(0, m).filter(keep);
            proof {
                reveal(Seq::filter);
                Seq::lemma_filter_len(t.subrange(0, m), keep);
                assert(t.subrange(0, m + 1).drop_last() =~= t.subrange(0, m));
                assert(self.status_effects@[j as int] == t[m]);
            }
            if self.status_effects[j].duration < 0 {
                self.status_effects.remove(j);
                proof {
                    assert(t.subrange(0, m + 1).filter(keep) =~= pre);
                    assert(self.status_effects@ =~= pre + t.skip(m + 1));
                }
            } else {
                proof {
                    assert(t.subrange(0, m + 1).filter(keep) =~= pre.push(t[m]));
                    assert(self.status_effects@ =~= pre.push(t[m]) + t.skip(m + 1));
                }
                j += 1;
            }
            proof {
                m = m + 1;
            }
        }
        proof {
            assert(t.subrange(0, t.len() as int) =~= t);
            assert(t.skip(t.len() as int) =~= Seq::<StatusEffect>::empty());
            assert(self.status_effects@ =~= t.filter(keep));
            assert(self.status_effects@ == decremented_effects(s0));
            lemma_unique_after_decrement(s0);
        }
    }

    pub fn is_unconscious(&self) -> (r: bool)
        ensures
            r == (self.hp_current <= 0),
    {
        self.hp_current <= 0
    }

    pub fn is_dead(&self) -> (r: bool)
        ensures
            r == self.spec_is_dead(),
    {
        match &self.death_saves {
            Some(d) => d.failures >= 3,
            None => false,
        }
    }

    /// A player who has no record yet gets a fresh one the moment it is
    /// first needed; a record only ever opens at zero hit points.
    pub fn ensure_death_saves(&mut self)
        requires
            old(self).wf(),
            old(self).is_player && old(self).death_saves is None ==> old(self).hp_current == 0,
        ensures
            final(self).death_saves == if old(self).is_player && old(self).death_saves is None {
                Some(DeathSaves::spec_fresh())
            } else {
                old(self).death_saves
            },
            final(self).same_identity(*old(self)),
            final(self).hp_current == old(self).hp_current,
            final(self).temp_hp == old(self).temp_hp,
            final(self).status_effects == old(self).status_effects,
            final(self).concentration == old(self).concentration,
            final(self).wf(),
    {
        if self.is_player && self.death_saves.is_none() {
            self.death_saves = Some(DeathSaves::default());
        }
    }

    pub fn clear_death_saves(&mut self)
        requires
            old(self).wf(),
        ensures
            final(self).death_saves is None,
            final(self).same_identity(*old(self)),
            final(self).hp_current == old(self).hp_current,
            final(self).temp_hp == old(self).temp_hp,
            final(self).status_effects == old(self).status_effects,
            final(self).concentration == old(self).concentration,
            final(self).wf(),
    {
        self.death_saves = None;
    }

    /// The record after one rolled death save: a critical failure counts
    /// double, ten or more is a success, anything else one failure.
    pub open spec fn rolled_saves(d: DeathSaves, roll: int) -> DeathSaves {
        if roll == 1 {
            d.after_failure(2)
        } else if roll >= 10 {
            d.after_success()
        } else {
            d.after_failure(1)
        }
    }

    /// The outcome reported for that save.
    pub open spec fn rolled_outcome(d: DeathSaves, roll: int) -> DeathSaveOutcome {
        let d1 = Self::rolled_saves(d, roll);
        if roll == 1 || roll < 10 {
            if d1.failures >= 3 {
                DeathSaveOutcome::Died
            } else {
                DeathSaveOutcome::Ongoing
            }
        } else {
            if d1.successes >= 3 {
                DeathSaveOutcome::Stabilized
            } else {
                DeathSaveOutcome::Ongoing
            }
        }
    }

    /// Applies one death-save roll. A natural 20 revives at one hit
    /// point and discards the record regardless of prior progress; only
    /// a player at zero hit points rolls at all.
    pub fn apply_death_save_roll(&mut self, roll: i32) -> (r: DeathSaveOutcome)
        requires
            old(self).wf(),
        ensures
            final(self).wf(),
            final(self).same_identity(*old(self)),
            final(self).temp_hp == old(self).temp_hp,
            final(self).status_effects == old(self).status_effects,
            final(self).concentration == old(self).concentration,
            (!old(self).is_player || old(self).hp_current > 0) ==> *final(self) == *old(self) && r
                == DeathSaveOutcome::Ongoing,
            (old(self).is_player && old(self).hp_current <= 0 && roll == 20) ==> {
                &&& final(self).hp_current == 1
                &&& final(self).death_saves is None
                &&& r == DeathSaveOutcome::Revived
            },
            (old(self).is_player && old(self).hp_current <= 0 && roll != 20) ==> {
                let d0 = match old(self).death_saves {
                    Some(d) => d,
                    None => DeathSaves::spec_fresh(),
                };
                &&& final(self).hp_current == old(self).hp_current
                &&& final(self).death_saves == Some(Self::rolled_saves(d0, roll as int))
                &&& r == Self::rolled_outcome(d0, roll as int)
            },
    {
        if !self.is_player || self.hp_current > 0 {
            return DeathSaveOutcome::Ongoing;
        }
        self.ensure_death_saves();
        if roll == 20 {
            self.hp_current = 1;
            self.death_saves = None;
            return DeathSaveOutcome::Revived;
        }
        match &mut self.death_saves {
            Some(saves) => {
                if roll == 1 {
                    saves.add_failure(2)
                } else if roll >= 10 {
                    saves.add_success()
                } else {
                    saves.add_failure(1)
                }
            },
            None => DeathSaveOutcome::Ongoing,
        }
    }

    /// Damage taken while already down counts as one automatic failure.
    pub fn fail_death_save_from_damage(&mut self) -> (r: DeathSaveOutcome)
        requires
            old(self).wf(),
            old(self).is_player ==> old(self).hp_current == 0,
        ensures
            final(self).wf(),
            final(self).same_identity(*old(self)),
            final(self).hp_current == old(self).hp_current,
            final(self).temp_hp == old(self).temp_hp,
            final(self).status_effects == old(self).status_effects,
            final(self).concentration == old(self).concentration,
            !old(self).is_player ==> *final(self) == *old(self) && r == DeathSaveOutcome::Ongoing,
            old(self).is_player ==> {
                let d0 = match old(self).death_saves {
                    Some(d) => d,
                    None => DeathSaves::spec_fresh(),
                };
                let d1 = d0.after_failure(1);
                &&& final(self).death_saves == Some(d1)
                &&& r == (if d1.failures >= 3 {
                    DeathSaveOutcome::Died
                } else {
                    DeathSaveOutcome::Ongoing
                })
            },
    {
        if !self.is_player {
            return DeathSaveOutcome::Ongoing;
        }
        self.ensure_death_saves();
        match &mut self.death_saves {
            Some(saves) => saves.add_failure(1),
            None => DeathSaveOutcome::Ongoing,
        }
    }

    pub fn clear_concentration(&mut self)
        requires
            old(self).wf(),
        ensures
            final(self).concentration is None,
            final(self).same_identity(*old(self)),
            final(self).hp_current == old(self).hp_current,
            final(self).temp_hp == old(self).temp_hp,
            final(self).status_effects == old(self).status_effects,
            final(self).death_saves == old(self).death_saves,
            final(self).wf(),
    {
        self.concentration = None;
    }

    pub fn set_concentration(&mut self, info: ConcentrationInfo)
        requires
            old(self).wf(),
        ensures
            final(self).concentration == Some(info),
            final(self).same_identity(*old(self)),
            final(self).hp_current == old(self).hp_current,
            final(self).temp_hp == old(self).temp_hp,
            final(self).status_effects == old(self).status_effects,
            final(self).death_saves == old(self).death_saves,
            final(self).wf(),
    {
        self.concentration = Some(info);
    }

    /// Decides validity of a combatant handed in from outside, such as
    /// one read back from a saved encounter.
    pub fn check_wf(&self) -> (r: bool)
        ensures
            r == self.wf(),
    {
        if !(self.hp_max >= 0 && 0 <= self.hp_current && (self.hp_current <= self.hp_max
            || self.hp_current == 1) && self.temp_hp >= 0) {
            return false;
        }
        match &self.death_saves {
            Some(d) => {
                if !(d.successes <= 3 && d.failures <= 3 && self.is_player && self.hp_current
                    == 0) {
                    return false;
                }
            },
            None => {},
        }
        let n = self.status_effects.len();
        let mut i: usize = 0;
        while i < n
            invariant
                0 <= i <= n,
                n == self.status_effects@.len(),
                forall|a: int, b: int|
                    0 <= a < b < n && a < i ==> (#[trigger] self.status_effects@[a]).condition != (
                    #[trigger] self.status_effects@[b]).condition,
            decreases n - i,
        {
            let mut j: usize = i + 1;
            while j < n
                invariant
                    i < j <= n,
                    i < n,
                    n == self.status_effects@.len(),
                    forall|b: int|
                        i < b < j ==> (#[trigger] self.status_effects@[b]).condition
                            != self.status_effects@[i as int].condition,
                decreases n - j,
            {
                if self.status_effects[i].condition == self.status_effects[j].condition {
                    return false;
                }
                j += 1;
            }
            i += 1;
        }
        true
    }

    /// Temporary pools never stack: the larger of the existing pool and
    /// the grant wins.
    pub fn grant_temp_hp(&mut self, amount: i32)
        requires
            old(self).wf(),
        ensures
            final(self).temp_hp == granted_temp(old(self).temp_hp as int, amount as int),
            final(self).same_identity(*old(self)),
            final(self).hp_current == old(self).hp_current,
            final(self).status_effects == old(self).status_effects,
            final(self).death_saves == old(self).death_saves,
            final(self).concentration == old(self).concentration,
            final(self).wf(),
    {
        if amount > self.temp_hp {
            self.temp_hp = amount;
        }
    }
}

/// The temporary pool after a grant: the larger of the pool and the
/// grant wins.
pub open spec fn granted_temp(t: int, a: int) -> int {
    if a > t {
        a
    } else {
        t
    }
}

/// Granting temporary hit points twice, starting from none, leaves the
/// larger of the two grants — never their sum.
pub proof fn lemma_temp_hp_never_stacks(a: int, b: int)
    requires
        a >= 0,
        b >= 0,
    ensures
        granted_temp(granted_temp(0, a), b) == if a > b {
            a
        } else {
            b
        },
        a > 0 && b > 0 ==> granted_temp(granted_temp(0, a), b) < a + b,
{
}

/// The same character repeated.
pub open spec fn repeat_char(c: char, n: int) -> Seq<char>
    decreases n,
{
    if n <= 0 {
        Seq::empty()
    } else {
        repeat_char(c, n - 1).push(c)
    }
}

/// How many of the twelve health-bar segments are filled: the rounded
/// share of current hit points against the maximum, empty when the
/// maximum is zero.
pub open spec fn hp_bar_filled(hp: int, max: int) -> int {
    if max <= 0 {
        0
    } else {
        let c = if hp < 0 {
            0
        } else if hp > max {
            max
        } else {
            hp
        };
        (24 * c + max) / (2 * max)
    }
}

pub proof fn lemma_hp_bar_filled_range(hp: int, max: int)
    ensures
        0 <= hp_bar_filled(hp, max) <= 12,
{
    if max > 0 {
        let c = if hp < 0 {
            0
        } else if hp > max {
            max
        } else {
            hp
        };
        vstd::arithmetic::div_mod::lemma_div_is_ordered(0, 24 * c + max, 2 * max);
        vstd::arithmetic::div_mod::lemma_div_is_ordered(24 * c + max, 25 * max, 2 * max);
        vstd::arithmetic::div_mod::lemma_fundamental_div_mod_converse(25 * max, 2 * max, 12, max);
        assert(0int / (2 * max) == 0) by {
            vstd::arithmetic::div_mod::lemma_fundamental_div_mod_converse(0int, 2 * max, 0, 0);
        }
    }
}

/// A twelve-segment text health bar: `#` for the filled share of the
/// maximum, `.` for the rest, in brackets.
pub fn hp_bar(combatant: &Combatant) -> (r: String)
    ensures
        r@ == seq!['['] + repeat_char('#', hp_bar_filled(combatant.hp_current as int, combatant.hp_max as int))
            + repeat_char('.', 12 - hp_bar_filled(combatant.hp_current as int, combatant.hp_max as int))
            + seq![']'],
{
    let hp = combatant.hp_current as i64;
    let max = combatant.hp_max as i64;
    let filled: i64 = if max <= 0 {
        0
    } else {
        let c = if hp < 0 {
            0
        } else if hp > max {
            max
        } else {
            hp
        };
        (24 * c + max) / (2 * max)
    };
    proof {
        lemma_hp_bar_filled_range(combatant.hp_current as int, combatant.hp_max as int);
        assert(filled == hp_bar_filled(combatant.hp_current as int, combatant.hp_max as int));
    }
    let mut s = String::from_str("[");
    let ghost open_view = s@;
    proof {
        reveal_strlit("[");
        assert(open_view =~= seq!['[']);
    }
    let mut i: i64 = 0;
    while i < filled
        invariant
            0 <= i <= filled <= 12,
            s@ == seq!['['] + repeat_char('#', i as int),
        decreases filled - i,
    {
        crate::text::push_char(&mut s, '#');
        i += 1;
    }
    let mut j: i64 = filled;
    while j < 12
        invariant
            filled <= j <= 12,
            0 <= filled,
            s@ == seq!['['] + repeat_char('#', filled as int) + repeat_char(
                '.',
                j - filled,
            ),
        decreases 12 - j,
    {
        crate::text::push_char(&mut s, '.');
        j += 1;
    }
    crate::text::push_char(&mut s, ']');
    s
}

/// End-of-turn book-keeping keeps the one-effect-per-condition rule:
/// ticking durations changes no condition and dropping expired effects
/// only removes entries.
pub proof fn lemma_unique_after_decrement(s: Seq<StatusEffect>)
    requires
        unique_conditions(s),
    ensures
        unique_conditions(decremented_effects(s)),
    decreases s.len(),
{
    reveal(Seq::filter);
    let t = s.map_values(|e: StatusEffect| ticked(e));
    let keep = |e: StatusEffect| e.duration >= 0;
    if s.len() > 0 {
        let s0 = s.drop_last();
        assert(unique_conditions(s0));
        lemma_unique_after_decrement(s0);
        let t0 = s0.map_values(|e: StatusEffect| ticked(e));
        assert(t.drop_last() =~= t0);
        let f0 = t0.filter(keep);
        assert(decremented_effects(s0) == f0);
        if keep(t.last()) {
            let f = f0.push(t.last());
            assert(t.filter(keep) == f);
            assert forall|i: int, j: int| 0 <= i < j < f.len() implies (#[trigger] f[i]).condition
                != (#[trigger] f[j]).condition by {
                if j < f.len() - 1 {
                    assert(f[i] == f0[i] && f[j] == f0[j]);
                } else {
                    lemma_filter_member(t0, keep, i);
                    let w = choose|w: int| 0 <= w < t0.len() && t0[w] == f0[i];
                    assert(t0[w].condition == s0[w].condition);
                    assert(t.last().condition == s.last().condition);
                    assert(s0[w].condition != s.last().condition);
                }
            }
        }
    }
}

/// Every element of a filtered sequence occurs in the original.
pub proof fn lemma_filter_member<A>(s: Seq<A>, pred: spec_fn(A) -> bool, i: int)
    requires
        0 <= i < s.filter(pred).len(),
    ensures
        exists|j: int| 0 <= j < s.len() && s[j] == s.filter(pred)[i],
    decreases s.len(),
{
    reveal(Seq::filter);
    if s.len() > 0 {
        let s0 = s.drop_last();
        if pred(s.last()) && i == s.filter(pred).len() - 1 {
            assert(s[s.len() - 1] == s.filter(pred)[i]);
        } else {
            lemma_filter_member(s0, pred, i);
            let j = choose|j: int| 0 <= j < s0.len() && s0[j] == s0.filter(pred)[i];
            assert(s[j] == s.filter(pred)[i]);
        }
    }
}

} // verus!
