//! The six lanes of the track, each an ordered queue of obstacles: obstacles
//! are appended as they spawn and leave from the front as they expire.

use vstd::prelude::*;
use crate::lanes::{LANE_COUNT, lane_of, spawn_lane};

verus! {

/// Six ordered queues, one per lane. The obstacle type is left to the caller:
/// the track only decides where each obstacle is kept and in which order.
pub struct Track<T> {
    lanes: Vec<Vec<T>>,
}

impl<T> View for Track<T> {
    type V = Seq<Seq<T>>;

    closed spec fn view(&self) -> Seq<Seq<T>> {
        self.lanes@.map_values(|l: Vec<T>| l@)
    }
}

/// Every lane's queue, one after the other, in lane order.
pub open spec fn concat_lanes<T>(lanes: Seq<Seq<T>>) -> Seq<T>
    decreases lanes.len(),
{
    if lanes.len() == 0 {
        Seq::empty()
    } else {
        concat_lanes(lanes.drop_last()) + lanes.last()
    }
}

impl<T> Track<T> {
    /// The track holds exactly one queue per lane.
    pub open spec fn wf(&self) -> bool {
        self@.len() == LANE_COUNT as int
    }

    /// A track with six empty lanes.
    pub fn new() -> (r: Track<T>)
        ensures
            r.wf(),
            forall|i: int| 0 <= i < LANE_COUNT as int ==> (#[trigger] r@[i]).len() == 0,
    {
        let mut lanes: Vec<Vec<T>> = Vec::new();
        let mut i: usize = 0;
        while i < LANE_COUNT
            invariant
                i <= LANE_COUNT,
                lanes@.len() == i as int,
                forall|j: int| 0 <= j < i as int ==> (#[trigger] lanes@[j])@.len() == 0,
            decreases LANE_COUNT - i,
        {
            lanes.push(Vec::new());
            i = i + 1;
        }
        Track { lanes }
    }

    /// The queue of lane `lane`, oldest obstacle first.
    pub fn lane(&self, lane: usize) -> (r: &Vec<T>)
        requires
            self.wf(),
            lane < LANE_COUNT,
        ensures
            r@ == self@[lane as int],
    {
        &self.lanes[lane]
    }

    /// Appends `item` to the back of the queue of the lane that lane number
    /// `lane` falls in (taken modulo six); the other lanes are unchanged.
    pub fn spawn(&mut self, lane: usize, item: T)
        requires
            old(self).wf(),
        ensures
            final(self).wf(),
            final(self)@ == old(self)@.update(
                lane_of(lane as int),
                old(self)@[lane_of(lane as int)].push(item),
            ),
    {
        let l = spawn_lane(lane);
        self.lanes[l].push(item);
        assert(self@ =~= old(self)@.update(l as int, old(self)@[l as int].push(item)));
    }

    /// Replaces the queue of lane `lane` by `items`; the other lanes are
    /// unchanged.
    pub fn set_lane(&mut self, lane: usize, items: Vec<T>)
        requires
            old(self).wf(),
            lane < LANE_COUNT,
        ensures
            final(self).wf(),
            final(self)@ == old(self)@.update(lane as int, items@),
    {
        let ghost v = items@;
        self.lanes.set(lane, items);
        assert(self@ =~= old(self)@.update(lane as int, v));
    }

    /// Removes the `count` oldest obstacles of lane `lane`; the rest keep
    /// their order, and the other lanes are unchanged.
    pub fn expire_front(&mut self, lane: usize, count: usize)
        requires
            old(self).wf(),
            lane < LANE_COUNT,
            count <= old(self)@[lane as int].len(),
        ensures
            final(self).wf(),
            final(self)@ == old(self)@.update(
                lane as int,
                old(self)@[lane as int].subrange(count as int, old(self)@[lane as int].len() as int),
            ),
    {
        let ghost ol = old(self)@[lane as int];
        assert(self.lanes@.len() == LANE_COUNT);
        let mut k: usize = 0;
        assert(ol.subrange(0, ol.len() as int) =~= ol);
        while k < count
            invariant
                k <= count,
                count <= ol.len(),
                lane < LANE_COUNT,
                self.lanes@.len() == LANE_COUNT,
                ol == old(self)@[lane as int],
                self.lanes@[lane as int]@ == ol.subrange(k as int, ol.len() as int),
                forall|j: int| 0 <= j < LANE_COUNT && j != lane ==> #[trigger] self.lanes@[j] == old(self).lanes@[j],
            decreases count - k,
        {
            self.lanes[lane].remove(0);
            assert(self.lanes@[lane as int]@ =~= ol.subrange(k as int + 1, ol.len() as int));
            k = k + 1;
        }
        assert(self@ =~= old(self)@.update(lane as int, ol.subrange(count as int, ol.len() as int)));
    }

    /// Every obstacle of the track, lane by lane in lane order, each lane's
    /// queue oldest first.
    pub fn all_obstacles(&self) -> (r: Vec<T>)
        where T: Copy,
        requires
            self.wf(),
        ensures
            r@ == concat_lanes(self@),
    {
        let mut out: Vec<T> = Vec::new();
        let mut i: usize = 0;
        assert(self@.subrange(0, 0) =~= Seq::<Seq<T>>::empty());
        while i < LANE_COUNT
            invariant
                self.wf(),
                i <= LANE_COUNT,
                out@ == concat_lanes(self@.subrange(0, i as int)),
            decreases LANE_COUNT - i,
        {
            let q = &self.lanes[i];
            let ghost prefix = out@;
            let mut j: usize = 0;
            while j < q.len()
                invariant
                    j <= q@.len(),
                    out@ == prefix + q@.subrange(0, j as int),
                decreases q@.len() - j,
            {
                out.push(q[j]);
                assert(out@ =~= prefix + q@.subrange(0, j as int + 1));
                j = j + 1;
            }
            proof {
                let s = self@.subrange(0, i as int + 1);
                assert(s.drop_last() =~= self@.subrange(0, i as int));
                assert(q@.subrange(0, q@.len() as int) =~= q@);
                assert(q@ == self@[i as int]);
            }
            i = i + 1;
        }
        assert(self@.subrange(0, LANE_COUNT as int) =~= self@);
        out
    }
}

} // verus!
