//! Obstacle patterns and the cycle in which the spawner plays them.

use vstd::prelude::*;
use crate::lanes::{LANE_COUNT, lane_of, rotate_lane, spawn_lane};
use crate::track::Track;

verus! {

/// One obstacle of a pattern: the lane number it is placed on and its extent
/// (kept by the caller, typically the start and end distance).
#[derive(Clone, Copy)]
pub struct Placement<T> {
    pub lane: usize,
    pub span: T,
}

/// A template of obstacle placements, in the order they were added.
pub struct Pattern<T> {
    placements: Vec<Placement<T>>,
}

impl<T> View for Pattern<T> {
    type V = Seq<Placement<T>>;

    closed spec fn view(&self) -> Seq<Placement<T>> {
        self.placements@
    }
}

/// The spans of `ps` whose lane number falls in lane `lane`, in order.
pub open spec fn spans_in_lane<T>(ps: Seq<Placement<T>>, lane: int) -> Seq<T>
    decreases ps.len(),
{
    if ps.len() == 0 {
        Seq::empty()
    } else {
        let rest = spans_in_lane(ps.drop_last(), lane);
        if lane_of(ps.last().lane as int) == lane {
            rest.push(ps.last().span)
        } else {
            rest
        }
    }
}

impl<T: Copy> Pattern<T> {
    /// A pattern with no obstacle.
    pub fn new() -> (r: Pattern<T>)
        ensures
            r@.len() == 0,
    {
        Pattern { placements: Vec::new() }
    }

    /// Adds an obstacle on lane number `lane` with extent `span`.
    pub fn add(&mut self, lane: usize, span: T)
        ensures
            final(self)@ == old(self)@.push(Placement { lane, span }),
    {
        self.placements.push(Placement { lane, span });
    }

    /// Turns every obstacle added so far by `offset` lanes; each lane number
    /// becomes the turned lane, taken modulo six. Extents and order stay.
    pub fn rotate(&mut self, offset: i32)
        ensures
            final(self)@.len() == old(self)@.len(),
            forall|i: int| 0 <= i < old(self)@.len() ==> {
                &&& (#[trigger] final(self)@[i]).lane as int
                    == lane_of(old(self)@[i].lane as int + offset as int)
                &&& final(self)@[i].span == old(self)@[i].span
            },
    {
        let mut i: usize = 0;
        while i < self.placements.len()
            invariant
                self@.len() == old(self)@.len(),
                forall|j: int| 0 <= j < i as int ==> {
                    &&& (#[trigger] self@[j]).lane as int
                        == lane_of(old(self)@[j].lane as int + offset as int)
                    &&& self@[j].span == old(self)@[j].span
                },
                forall|j: int| i as int <= j < self@.len() ==> #[trigger] self@[j] == old(self)@[j],
            decreases self@.len() - i,
        {
            let p = self.placements[i];
            let turned = Placement { lane: rotate_lane(p.lane, offset), span: p.span };
            self.placements.set(i, turned);
            i = i + 1;
        }
    }

    /// The obstacles of the pattern, in the order they were added.
    pub fn placements(&self) -> (r: &Vec<Placement<T>>)
        ensures
            r@ == self@,
    {
        &self.placements
    }
}

/// Appends every placement of `ps`, in order, to the queue of the lane its
/// lane number falls in.
pub fn spawn_all<T: Copy>(track: &mut Track<T>, ps: &Vec<Placement<T>>)
    requires
        old(track).wf(),
    ensures
        final(track).wf(),
        forall|l: int| 0 <= l < LANE_COUNT as int ==>
            #[trigger] final(track)@[l] == old(track)@[l] + spans_in_lane(ps@, l),
{
    let mut i: usize = 0;
    while i < ps.len()
        invariant
            track.wf(),
            i <= ps@.len(),
            forall|l: int| 0 <= l < LANE_COUNT as int ==>
                #[trigger] track@[l] == old(track)@[l] + spans_in_lane(ps@.subrange(0, i as int), l),
        decreases ps@.len() - i,
    {
        let p = ps[i];
        let ghost before = track@;
        track.spawn(p.lane, p.span);
        proof {
            let s = ps@.subrange(0, i as int + 1);
            assert(s.drop_last() =~= ps@.subrange(0, i as int));
            assert forall|l: int| 0 <= l < LANE_COUNT as int implies
                #[trigger] track@[l] == old(track)@[l] + spans_in_lane(s, l) by {
                if l == lane_of(p.lane as int) {
                    assert(track@[l] =~= old(track)@[l] + spans_in_lane(s, l));
                } else {
                    assert(track@[l] == before[l]);
                }
            }
        }
        i = i + 1;
    }
    assert(ps@.subrange(0, ps@.len() as int) =~= ps@);
}

/// Which pattern of a fixed, non-empty list plays now. Patterns are played in
/// list order and the list wraps around.
pub struct PatternCycle {
    current: usize,
    count: usize,
}

/// Index reached from `start` after `n` switches through `count` patterns.
pub open spec fn switched(start: int, count: int, n: nat) -> int
    decreases n,
{
    if n == 0 {
        start
    } else {
        (switched(start, count, (n - 1) as nat) + 1) % count
    }
}

impl PatternCycle {
    /// The cycle's index is within the list.
    pub open spec fn wf(&self) -> bool {
        self.count_spec() > 0 && self.current_spec() < self.count_spec()
    }

    pub closed spec fn current_spec(&self) -> nat {
        self.current as nat
    }

    pub closed spec fn count_spec(&self) -> nat {
        self.count as nat
    }

    /// A cycle through `count` patterns that starts at the first one.
    pub fn new(count: usize) -> (r: PatternCycle)
        requires
            count > 0,
        ensures
            r.wf(),
            r.current_spec() == 0,
            r.count_spec() == count,
    {
        PatternCycle { current: 0, count }
    }

    /// Index of the pattern that plays now.
    pub fn current(&self) -> (r: usize)
        ensures
            r == self.current_spec(),
    {
        self.current
    }

    /// Number of patterns in the cycle.
    pub fn count(&self) -> (r: usize)
        ensures
            r == self.count_spec(),
    {
        self.count
    }

    /// Switches to the next pattern, wrapping after the last one, and returns
    /// its index: the pattern whose obstacles spawn now.
    pub fn advance(&mut self) -> (r: usize)
        requires
            old(self).wf(),
        ensures
            final(self).wf(),
            final(self).count_spec() == old(self).count_spec(),
            r == final(self).current_spec(),
            r as int == (old(self).current_spec() as int + 1) % (old(self).count_spec() as int),
    {
        self.current = (self.current + 1) % self.count;
        self.current
    }
}

/// After `n` switches the cycle stands `n` places further, modulo the number
/// of patterns; after as many switches as there are patterns it is back where
/// it started.
pub proof fn lemma_cycle_period(start: int, count: int, n: nat)
    requires
        count > 0,
        0 <= start < count,
    ensures
        switched(start, count, n) == (start + n) % count,
        switched(start, count, count as nat) == start,
{
    lemma_cycle_n(start, count, n);
    lemma_cycle_n(start, count, count as nat);
    vstd::arithmetic::div_mod::lemma_mod_add_multiples_vanish(start, count);
    vstd::arithmetic::div_mod::lemma_small_mod(start as nat, count as nat);
}

proof fn lemma_cycle_n(start: int, count: int, n: nat)
    requires
        count > 0,
        0 <= start < count,
    ensures
        switched(start, count, n) == (start + n) % count,
    decreases n,
{
    if n == 0 {
        vstd::arithmetic::div_mod::lemma_small_mod(start as nat, count as nat);
    } else {
        lemma_cycle_n(start, count, (n - 1) as nat);
        vstd::arithmetic::div_mod::lemma_add_mod_noop_right(1, start + n - 1, count);
    }
}

} // verus!
