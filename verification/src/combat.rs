//! Initiative ordering and turn/round progression over the roster of
//! combatants.
use vstd::prelude::*;

use crate::combatant::{decremented_effects, Combatant};

verus! {

/// Descending initiative order: higher initiative acts first.
pub open spec fn sorted_desc(s: Seq<Combatant>) -> bool {
    forall|i: int, j: int|
        0 <= i < j < s.len() ==> (#[trigger] s[i]).initiative >= (#[trigger] s[j]).initiative
}

/// The combatants with one given initiative, in roster order. Stable
/// sorting preserves each of these subsequences exactly.
pub open spec fn with_initiative(s: Seq<Combatant>, k: int) -> Seq<Combatant> {
    s.filter(|c: Combatant| c.initiative == k)
}

/// Cursor and round after one turn: the cursor advances, and wrapping
/// past the end of the roster starts the next round.
pub open spec fn advance(cursor: int, round: int, len: int) -> (int, int) {
    if cursor + 1 >= len {
        (0, round + 1)
    } else {
        (cursor + 1, round)
    }
}

/// Cursor and round after `n` turns.
pub open spec fn advance_n(cursor: int, round: int, len: int, n: nat) -> (int, int)
    decreases n,
{
    if n == 0 {
        (cursor, round)
    } else {
        let (c1, r1) = advance(cursor, round, len);
        advance_n(c1, r1, len, (n - 1) as nat)
    }
}

proof fn lemma_advance_no_wrap(cursor: int, round: int, len: int, n: nat)
    requires
        0 <= cursor,
        cursor + n < len,
    ensures
        advance_n(cursor, round, len, n) == (cursor + n, round),
    decreases n,
{
    if n > 0 {
        lemma_advance_no_wrap(cursor + 1, round, len, (n - 1) as nat);
    }
}

/// Taking exactly one turn per combatant returns the cursor to where it
/// started and advances the round number by exactly one.
pub proof fn lemma_full_round(cursor: int, round: int, len: int)
    requires
        0 <= cursor < len,
    ensures
        advance_n(cursor, round, len, len as nat) == (cursor, round + 1),
{
    let a = len - 1 - cursor;
    lemma_advance_no_wrap(cursor, round, len, a as nat);
    lemma_advance_compose(cursor, round, len, a as nat, (len - a) as nat);
    assert(advance_n(len - 1, round, len, 1 + cursor as nat) == advance_n(
        0,
        round + 1,
        len,
        cursor as nat,
    ));
    lemma_advance_no_wrap(0, round + 1, len, cursor as nat);
}

proof fn lemma_advance_compose(cursor: int, round: int, len: int, a: nat, b: nat)
    ensures
        advance_n(cursor, round, len, a + b) == {
            let (c1, r1) = advance_n(cursor, round, len, a);
            advance_n(c1, r1, len, b)
        },
    decreases a,
{
    if a > 0 {
        let (c1, r1) = advance(cursor, round, len);
        lemma_advance_compose(c1, r1, len, (a - 1) as nat, b);
        assert(a + b - 1 == (a - 1) as nat + b);
    }
}

/// Inserts a combatant into a roster already sorted by descending
/// initiative, after every entry of equal or higher initiative, so ties
/// keep their original relative order.
#[verifier::rlimit(50)]
fn insert_sorted(v: &mut Vec<Combatant>, c: Combatant)
    requires
        sorted_desc(old(v)@),
    ensures
        sorted_desc(final(v)@),
        final(v)@.len() == old(v)@.len() + 1,
        exists|k: int|
            {
                &&& 0 <= k <= old(v)@.len()
                &&& (forall|i: int|
                    0 <= i < k ==> (#[trigger] old(v)@[i]).initiative >= c.initiative)
                &&& (k < old(v)@.len() ==> old(v)@[k].initiative < c.initiative)
                &&& final(v)@ =~= old(v)@.subrange(0, k).push(c) + old(v)@.skip(k)
            },
        forall|j: int| #[trigger]
            with_initiative(final(v)@, j) == if j == c.initiative {
                with_initiative(old(v)@, j).push(c)
            } else {
                with_initiative(old(v)@, j)
            },
{
    let ghost s = v@;
    let n = v.len();
    let mut k: usize = 0;
    while k < n && v[k].initiative >= c.initiative
        invariant
            0 <= k <= n,
            n == s.len(),
            s == v@,
            forall|i: int| 0 <= i < k ==> (#[trigger] s[i]).initiative >= c.initiative,
        decreases n - k,
    {
        k += 1;
    }
    v.insert(k, c);
    proof {
        let a = s.subrange(0, k as int);
        let b = s.skip(k as int);
        assert(v@ =~= a.push(c) + b);
        assert(s =~= a + b);
        assert forall|i: int, j: int| 0 <= i < j < v@.len() implies (#[trigger] v@[i]).initiative
            >= (#[trigger] v@[j]).initiative by {
            assert(sorted_desc(s));
            if i < k && j == k {
                assert(v@[i] == s[i]);
            } else if i == k && j > k {
                assert(v@[j] == b[j - k - 1]);
                assert(b[j - k - 1] == s[j - 1]);
                assert(k < s.len() && s[k as int].initiative < c.initiative);
                assert(s[j - 1].initiative <= s[k as int].initiative);
            } else if i != k && j != k {
                assert(v@[i] == if i < k {
                    s[i]
                } else {
                    s[i - 1]
                });
                assert(v@[j] == if j < k {
                    s[j]
                } else {
                    s[j - 1]
                });
            }
        }
        assert forall|j: int| #[trigger]
            with_initiative(v@, j) == if j == c.initiative {
                with_initiative(s, j).push(c)
            } else {
                with_initiative(s, j)
            } by {
            let pred = |x: Combatant| x.initiative == j;
            Seq::filter_distributes_over_add(a.push(c), b, pred);
            Seq::filter_distributes_over_add(a, b, pred);
            reveal(Seq::filter);
            assert(a.push(c).drop_last() =~= a);
            assert(a.push(c).filter(pred) == if pred(c) {
                a.filter(pred).push(c)
            } else {
                a.filter(pred)
            });
            if j == c.initiative {
                // every element of the suffix has a strictly smaller
                // initiative, so its contribution to this class is empty
                assert forall|t: int| 0 <= t < b.len() implies !pred(#[trigger] b[t]) by {
                    assert(b[t] == s[k + t]);
                    if k < s.len() {
                        assert(s[k as int].initiative < c.initiative);
                        assert(s[k + t].initiative <= s[k as int].initiative);
                    }
                }
                lemma_filter_all_false(b, pred);
                assert(a.filter(pred).push(c) + Seq::<Combatant>::empty() =~= a.filter(pred).push(
                    c,
                ));
                assert(a.filter(pred) + Seq::<Combatant>::empty() =~= a.filter(pred));
                assert(with_initiative(v@, j) =~= with_initiative(s, j).push(c));
            } else {
                assert(with_initiative(v@, j) =~= with_initiative(s, j));
            }
        }
    }
}

/// A sequence none of whose elements satisfies the predicate filters to
/// the empty sequence.
proof fn lemma_filter_all_false<A>(s: Seq<A>, pred: spec_fn(A) -> bool)
    requires
        forall|i: int| 0 <= i < s.len() ==> !pred(#[trigger] s[i]),
    ensures
        s.filter(pred) =~= Seq::<A>::empty(),
    decreases s.len(),
{
    reveal(Seq::filter);
    if s.len() > 0 {
        lemma_filter_all_false(s.drop_last(), pred);
    }
}

/// Replacing one combatant with another of the same initiative keeps the
/// encounter valid: order, cursor and round are untouched.
pub proof fn lemma_replace_keeps_wf(e0: CombatEncounter, e1: CombatEncounter, index: int, c: Combatant)
    requires
        e0.wf(),
        0 <= index < e0.combatants@.len(),
        c.wf(),
        c.initiative == e0.combatants@[index].initiative,
        e1.combatants@ == e0.combatants@.update(index, c),
        e1.current_turn_index == e0.current_turn_index,
        e1.round_number == e0.round_number,
    ensures
        e1.wf(),
{
    let s = e0.combatants@;
    let t = e1.combatants@;
    assert forall|i: int, j: int| 0 <= i < j < t.len() implies (#[trigger] t[i]).initiative >= (
    #[trigger] t[j]).initiative by {
        assert(s[i].initiative >= s[j].initiative);
        assert(t[i] == if i == index {
            c
        } else {
            s[i]
        });
        assert(t[j] == if j == index {
            c
        } else {
            s[j]
        });
    }
    assert forall|i: int| 0 <= i < t.len() implies (#[trigger] t[i]).wf() by {
        assert(t[i] == if i == index {
            c
        } else {
            s[i]
        });
    }
}

/// A roster whose every adjacent pair is ordered is ordered throughout.
pub proof fn lemma_adjacent_sorted(s: Seq<Combatant>)
    requires
        forall|a: int|
            0 <= a < s.len() - 1 ==> (#[trigger] s[a]).initiative >= s[a + 1].initiative,
    ensures
        sorted_desc(s),
{
    assert forall|i: int, j: int| 0 <= i < j < s.len() implies (#[trigger] s[i]).initiative >= (
    #[trigger] s[j]).initiative by {
        lemma_initiative_chain(s, i, j);
    }
}

proof fn lemma_initiative_chain(s: Seq<Combatant>, i: int, j: int)
    requires
        forall|a: int|
            0 <= a < s.len() - 1 ==> (#[trigger] s[a]).initiative >= s[a + 1].initiative,
        0 <= i < j < s.len(),
    ensures
        s[i].initiative >= s[j].initiative,
    decreases j - i,
{
    if j > i + 1 {
        lemma_initiative_chain(s, i, j - 1);
        assert(s[j - 1].initiative >= s[j].initiative);
    }
}

/// Everything one forward turn step fixes on a non-empty roster: the
/// current combatant's statuses ticked, the cursor advanced per
/// `advance`, the round counter stepped (stopping at its machine limit).
pub open spec fn next_turn_outcome(pre: CombatEncounter, post: CombatEncounter) -> bool {
                let len = pre.combatants@.len() as int;
                let idx = pre.current_turn_index as int;
                let cur = pre.combatants@[idx];
                &&& post.combatants@.len() == len
                &&& (forall|j: int|
                    0 <= j < len && j != idx ==> post.combatants@[j] == pre.combatants@[j])
                &&& post.combatants@[idx].status_effects@ == decremented_effects(
                    cur.status_effects@,
                )
                &&& post.combatants@[idx].same_identity(cur)
                &&& post.combatants@[idx].hp_current == cur.hp_current
                &&& post.combatants@[idx].temp_hp == cur.temp_hp
                &&& post.combatants@[idx].death_saves == cur.death_saves
                &&& post.combatants@[idx].concentration == cur.concentration
                &&& post.current_turn_index as int == advance(
                    idx,
                    pre.round_number as int,
                    len,
                ).0
                &&& (pre.round_number < u32::MAX ==> post.round_number as int
                    == advance(idx, pre.round_number as int, len).1)
                &&& (pre.round_number == u32::MAX ==> post.round_number == pre.round_number)
            }


/// One end-of-turn tick applied to a combatant, leaving everything else
/// of it untouched.
pub open spec fn ticked_once(c0: Combatant, c1: Combatant) -> bool {
    &&& c1.status_effects@ == decremented_effects(c0.status_effects@)
    &&& c1.same_identity(c0)
    &&& c1.hp_current == c0.hp_current
    &&& c1.temp_hp == c0.temp_hp
    &&& c1.death_saves == c0.death_saves
    &&& c1.concentration == c0.concentration
}

/// A run of forward turn steps on a non-empty roster: every consecutive
/// pair of states is one `next_turn` outcome.
pub open spec fn turn_trace(tr: Seq<CombatEncounter>) -> bool {
    forall|k: int|
        0 <= k < tr.len() - 1 ==> (#[trigger] tr[k]).combatants@.len() > 0 && next_turn_outcome(
            tr[k],
            tr[k + 1],
        )
}

/// Whether roster position `j` has already had its turn after `k` steps
/// from cursor `c0` on a roster of `n`.
pub open spec fn turn_visited(c0: int, k: int, n: int, j: int) -> bool {
    (c0 <= j < c0 + k) || j < c0 + k - n
}

proof fn lemma_turn_trace_prefix(tr: Seq<CombatEncounter>, k: int)
    requires
        turn_trace(tr),
        tr.len() >= 2,
        1 <= k <= tr.len() - 1,
        tr.len() - 1 <= tr[0].combatants@.len(),
        tr[0].combatants@.len() > 0,
        tr[0].current_turn_index < tr[0].combatants@.len(),
        tr[0].round_number < u32::MAX,
    ensures
        ({
            let n = tr[0].combatants@.len() as int;
            let c0 = tr[0].current_turn_index as int;
            let r0 = tr[0].round_number as int;
            &&& tr[k].combatants@.len() == n
            &&& tr[k].current_turn_index as int == (if c0 + k < n {
                c0 + k
            } else {
                c0 + k - n
            })
            &&& tr[k].round_number as int == (if c0 + k < n {
                r0
            } else {
                r0 + 1
            })
            &&& (forall|j: int|
                0 <= j < n && turn_visited(c0, k, n, j) ==> ticked_once(
                    tr[0].combatants@[j],
                    #[trigger] tr[k].combatants@[j],
                ))
            &&& (forall|j: int|
                0 <= j < n && !turn_visited(c0, k, n, j) ==> #[trigger] tr[k].combatants@[j]
                    == tr[0].combatants@[j])
        }),
    decreases k,
{
    let n = tr[0].combatants@.len() as int;
    let c0 = tr[0].current_turn_index as int;
    if k > 1 {
        lemma_turn_trace_prefix(tr, k - 1);
    }
    let pre = tr[k - 1];
    let post = tr[k];
    assert(next_turn_outcome(pre, post));
    let cur = pre.current_turn_index as int;
    assert(!turn_visited(c0, k - 1, n, cur));
    assert forall|j: int| 0 <= j < n && turn_visited(c0, k, n, j) implies ticked_once(
        tr[0].combatants@[j],
        #[trigger] tr[k].combatants@[j],
    ) by {
        if j == cur {
            assert(pre.combatants@[j] == tr[0].combatants@[j]);
            assert(post.combatants@[j].status_effects@ == decremented_effects(
                pre.combatants@[j].status_effects@,
            ));
        } else {
            assert(turn_visited(c0, k - 1, n, j));
            assert(post.combatants@[j] == pre.combatants@[j]);
        }
    }
    assert forall|j: int| 0 <= j < n && !turn_visited(c0, k, n, j) implies #[trigger] tr[k].combatants@[j]
        == tr[0].combatants@[j] by {
        assert(j != cur);
        assert(!turn_visited(c0, k - 1, n, j));
        assert(post.combatants@[j] == pre.combatants@[j]);
    }
}

/// One full round of turns: after exactly one `next_turn` per combatant,
/// the cursor is back where it started, the round counter advanced by
/// exactly one, and every combatant's status effects were ticked exactly
/// once.
pub proof fn lemma_full_round_of_turns(tr: Seq<CombatEncounter>)
    requires
        turn_trace(tr),
        tr.len() >= 2,
        tr.len() - 1 == tr[0].combatants@.len(),
        tr[0].current_turn_index < tr[0].combatants@.len(),
        tr[0].round_number < u32::MAX,
    ensures
        tr.last().combatants@.len() == tr[0].combatants@.len(),
        tr.last().current_turn_index == tr[0].current_turn_index,
        tr.last().round_number == tr[0].round_number + 1,
        forall|j: int|
            0 <= j < tr[0].combatants@.len() ==> ticked_once(
                tr[0].combatants@[j],
                #[trigger] tr.last().combatants@[j],
            ),
{
    let n = tr[0].combatants@.len() as int;
    lemma_turn_trace_prefix(tr, n);
    assert(tr.last() == tr[n]);
    assert forall|j: int| 0 <= j < n implies turn_visited(
        tr[0].current_turn_index as int,
        n,
        n,
        j,
    ) by {}
}

/// An ordered roster of combatants with a turn cursor and a round
/// counter.
#[derive(Debug)]
pub struct CombatEncounter {
    pub combatants: Vec<Combatant>,
    pub current_turn_index: usize,
    pub round_number: u32,
}

impl CombatEncounter {
    /// Validity of the fields alone: every combatant valid, the cursor
    /// in bounds whenever the roster is non-empty, and rounds counted
    /// from one.
    pub open spec fn fields_wf(self) -> bool {
        &&& forall|i: int|
            0 <= i < self.combatants@.len() ==> (#[trigger] self.combatants@[i]).wf()
        &&& (self.combatants@.len() > 0 ==> self.current_turn_index < self.combatants@.len())
        &&& self.round_number >= 1
    }

    /// Full validity: the roster is also sorted by descending
    /// initiative, as it is after every insertion.
    pub open spec fn wf(self) -> bool {
        self.fields_wf() && sorted_desc(self.combatants@)
    }

    pub fn new() -> (r: Self)
        ensures
            r.combatants@ =~= Seq::<Combatant>::empty(),
            r.current_turn_index == 0,
            r.round_number == 1,
            r.wf(),
    {
        Self { combatants: Vec::new(), current_turn_index: 0, round_number: 1 }
    }

    /// Appends a combatant at its initiative rank, keeping the roster
    /// sorted (stable for ties) and pointing the cursor at the first
    /// entry when this is the first combatant.
    pub fn add_combatant(&mut self, combatant: Combatant)
        requires
            old(self).wf(),
            combatant.wf(),
        ensures
            final(self).wf(),
            final(self).combatants@.len() == old(self).combatants@.len() + 1,
            exists|k: int|
                {
                    &&& 0 <= k <= old(self).combatants@.len()
                    &&& (forall|i: int|
                        0 <= i < k ==> (#[trigger] old(self).combatants@[i]).initiative
                            >= combatant.initiative)
                    &&& (k < old(self).combatants@.len() ==> old(
                        self,
                    ).combatants@[k].initiative < combatant.initiative)
                    &&& final(self).combatants@ =~= old(self).combatants@.subrange(0, k).push(
                        combatant,
                    ) + old(self).combatants@.skip(k)
                },
            forall|j: int| #[trigger]
                with_initiative(final(self).combatants@, j) == if j == combatant.initiative {
                    with_initiative(old(self).combatants@, j).push(combatant)
                } else {
                    with_initiative(old(self).combatants@, j)
                },
            final(self).current_turn_index == if old(self).combatants@.len() == 0 {
                0
            } else {
                old(self).current_turn_index as int
            },
            final(self).round_number == old(self).round_number,
    {
        let was_empty = self.combatants.is_empty();
        insert_sorted(&mut self.combatants, combatant);
        if was_empty {
            self.current_turn_index = 0;
        }
    }

    /// Removes the combatant at `index`; a cursor left past the end of
    /// the shortened roster wraps to the first entry.
    pub fn remove_combatant(&mut self, index: usize)
        requires
            old(self).wf(),
        ensures
            final(self).wf(),
            index < old(self).combatants@.len() ==> {
                &&& final(self).combatants@ == old(self).combatants@.remove(index as int)
                &&& final(self).current_turn_index == if old(self).current_turn_index >= old(
                    self,
                ).combatants@.len() - 1 && old(self).combatants@.len() > 1 {
                    0
                } else {
                    old(self).current_turn_index as int
                }
            },
            index >= old(self).combatants@.len() ==> *final(self) == *old(self),
            final(self).round_number == old(self).round_number,
    {
        if index < self.combatants.len() {
            self.combatants.remove(index);
            proof {
                let s = old(self).combatants@;
                s.remove_ensures(index as int);
                assert(self.combatants@ =~= s.subrange(0, index as int) + s.skip(index + 1));
                assert forall|a: int, b: int| 0 <= a < b < self.combatants@.len() implies (
                #[trigger] self.combatants@[a]).initiative >= (
                #[trigger] self.combatants@[b]).initiative by {
                    assert(self.combatants@[a] == if a < index {
                        s[a]
                    } else {
                        s[a + 1]
                    });
                    assert(self.combatants@[b] == if b < index {
                        s[b]
                    } else {
                        s[b + 1]
                    });
                }
            }
            if self.current_turn_index >= self.combatants.len() && !self.combatants.is_empty() {
                self.current_turn_index = 0;
            }
        }
    }

    /// Re-sorts the whole roster by descending initiative with a stable
    /// insertion pass: each initiative class keeps its original order.
    pub fn sort_by_initiative(&mut self)
        requires
            old(self).fields_wf(),
        ensures
            final(self).wf(),
            final(self).combatants@.len() == old(self).combatants@.len(),
            forall|j: int| #[trigger]
                with_initiative(final(self).combatants@, j) == with_initiative(
                    old(self).combatants@,
                    j,
                ),
            final(self).current_turn_index == old(self).current_turn_index,
            final(self).round_number == old(self).round_number,
    {
        let ghost orig = self.combatants@;
        let mut out: Vec<Combatant> = Vec::new();
        proof {
            assert(forall|j: int| #[trigger]
                with_initiative(out@, j) =~= Seq::<Combatant>::empty());
        }
        while self.combatants.len() > 0
            invariant
                sorted_desc(out@),
                forall|j: int| #[trigger]
                    with_initiative(out@, j) + with_initiative(self.combatants@, j)
                        == with_initiative(orig, j),
                out@.len() + self.combatants@.len() == orig.len(),
                forall|i: int| 0 <= i < out@.len() ==> (#[trigger] out@[i]).wf(),
                forall|i: int|
                    0 <= i < self.combatants@.len() ==> (#[trigger] self.combatants@[i]).wf(),
                self.current_turn_index == old(self).current_turn_index,
                self.round_number == old(self).round_number,
                old(self).fields_wf(),
            decreases self.combatants@.len(),
        {
            let ghost rest = self.combatants@;
            let c = self.combatants.remove(0);
            proof {
                assert(self.combatants@ =~= rest.skip(1));
            }
            let ghost before = out@;
            insert_sorted(&mut out, c);
            proof {
                assert forall|j: int| #[trigger]
                    with_initiative(out@, j) + with_initiative(self.combatants@, j)
                        == with_initiative(orig, j) by {
                    let pred = |x: Combatant| x.initiative == j;
                    reveal_with_fuel(Seq::filter, 3);
                    assert(rest =~= seq![c] + rest.skip(1));
                    Seq::filter_distributes_over_add(seq![c], rest.skip(1), pred);
                    assert(seq![c].drop_last() =~= Seq::<Combatant>::empty());
                    assert(seq![c].filter(pred) == if pred(c) {
                        Seq::<Combatant>::empty().push(c)
                    } else {
                        Seq::<Combatant>::empty()
                    });
                    if j == c.initiative {
                        assert(with_initiative(out@, j) == with_initiative(before, j).push(c));
                        assert(with_initiative(before, j).push(c) + with_initiative(
                            rest.skip(1),
                            j,
                        ) =~= with_initiative(before, j) + (Seq::<Combatant>::empty().push(c)
                            + with_initiative(rest.skip(1), j)));
                    } else {
                        assert(Seq::<Combatant>::empty() + with_initiative(rest.skip(1), j)
                            =~= with_initiative(rest.skip(1), j));
                    }
                }
            }
        }
        proof {
            assert(forall|j: int| #[trigger]
                with_initiative(self.combatants@, j) =~= Seq::<Combatant>::empty());
            assert forall|j: int| #[trigger]
                with_initiative(out@, j) == with_initiative(orig, j) by {
                assert(with_initiative(out@, j) + with_initiative(self.combatants@, j)
                    == with_initiative(orig, j));
                assert(with_initiative(out@, j) + Seq::<Combatant>::empty() =~= with_initiative(
                    out@,
                    j,
                ));
            }
            assert(out@.len() == orig.len()) by {
                assert(self.combatants@.len() == 0);
            }
        }
        self.combatants = out;
    }

    /// Decrements the current combatant's status effects, then advances
    /// the cursor; wrapping past the last combatant starts a new round.
    /// Does nothing on an empty roster. The round counter stops at its
    /// machine limit rather than overflow.
    pub fn next_turn(&mut self)
        requires
            old(self).wf(),
        ensures
            final(self).wf(),
            old(self).combatants@.len() == 0 ==> *final(self) == *old(self),
            old(self).combatants@.len() > 0 ==> next_turn_outcome(*old(self), *final(self)),
    {
        if self.combatants.is_empty() {
            return ;
        }
        let idx = self.current_turn_index;
        self.combatants[idx].decrement_status_effects();
        let len = self.combatants.len();
        assert(idx < len);
        if idx + 1 >= len {
            self.current_turn_index = 0;
            if self.round_number < u32::MAX {
                self.round_number += 1;
            }
        } else {
            self.current_turn_index = idx + 1;
        }
    }

    /// Steps the cursor backwards, wrapping to the last combatant and
    /// ticking the round counter down, never below one. Status effects
    /// are not restored: backwards navigation is a convenience, not an
    /// inverse of `next_turn`.
    pub fn previous_turn(&mut self)
        requires
            old(self).wf(),
        ensures
            final(self).wf(),
            final(self).combatants == old(self).combatants,
            old(self).combatants@.len() == 0 ==> *final(self) == *old(self),
            old(self).combatants@.len() > 0 ==> {
                &&& final(self).current_turn_index as int == if old(self).current_turn_index == 0 {
                    old(self).combatants@.len() - 1
                } else {
                    old(self).current_turn_index - 1
                }
                &&& final(self).round_number as int == if old(self).current_turn_index == 0 && old(
                    self,
                ).round_number > 1 {
                    old(self).round_number - 1
                } else {
                    old(self).round_number as int
                }
            },
    {
        if self.combatants.is_empty() {
            return ;
        }
        if self.current_turn_index == 0 {
            self.current_turn_index = self.combatants.len() - 1;
            if self.round_number > 1 {
                self.round_number -= 1;
            }
        } else {
            self.current_turn_index -= 1;
        }
    }

    /// Decides validity of an encounter handed in from outside, such as
    /// one read back from a saved file.
    pub fn check_wf(&self) -> (r: bool)
        ensures
            r == self.wf(),
    {
        if self.round_number < 1 {
            return false;
        }
        let n = self.combatants.len();
        if n > 0 && self.current_turn_index >= n {
            return false;
        }
        let mut i: usize = 0;
        while i < n
            invariant
                0 <= i <= n,
                n == self.combatants@.len(),
                forall|a: int| 0 <= a < i ==> (#[trigger] self.combatants@[a]).wf(),
                forall|a: int|
                    0 <= a < i && a + 1 < n ==> (#[trigger] self.combatants@[a]).initiative
                        >= self.combatants@[a + 1].initiative,
            decreases n - i,
        {
            if !self.combatants[i].check_wf() {
                return false;
            }
            if i + 1 < n && self.combatants[i].initiative < self.combatants[i + 1].initiative {
                return false;
            }
            i += 1;
        }
        proof {
            lemma_adjacent_sorted(self.combatants@);
        }
        true
    }

    pub fn get_current_combatant(&self) -> (r: Option<&Combatant>)
        ensures
            self.combatants@.len() == 0 || self.current_turn_index >= self.combatants@.len()
                ==> r is None,
            self.current_turn_index < self.combatants@.len() ==> (r matches Some(c) && *c
                == self.combatants@[self.current_turn_index as int]),
    {
        if self.current_turn_index < self.combatants.len() {
            Some(&self.combatants[self.current_turn_index])
        } else {
            None
        }
    }
}

impl Default for CombatEncounter {
    /// An empty roster at round one.
    fn default() -> (r: Self)
        ensures
            r.combatants@ =~= Seq::<Combatant>::empty(),
            r.current_turn_index == 0,
            r.round_number == 1,
            r.wf(),
    {
        Self::new()
    }
}

} // verus!
