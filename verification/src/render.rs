//! How a block of spatial events becomes per-frame source states: bundles are
//! grouped by the frame they belong to, and before each frame is written the
//! bundles of that frame are applied, in the order they arrived.
use std::collections::BTreeMap;
use vstd::prelude::*;
use crate::events::SpeBundle;
use crate::keys::lemma_keys_ordered;
use crate::source::Source;
use crate::sources::{frame_writes, SourcesMutator};

verus! {

broadcast use vstd::std_specs::btree::group_btree_axioms;

/// A timing map seen through the views of its lists.
pub open spec fn timing_view<T>(m: Map<u32, Vec<SpeBundle<T>>>) -> Map<u32, Seq<SpeBundle<T>>> {
    Map::new(|k: u32| m.contains_key(k), |k: u32| m[k]@)
}

/// The bundles waiting for frame `t`, in arrival order.
pub open spec fn bundles_at<T>(m: Map<u32, Seq<SpeBundle<T>>>, t: u32) -> Seq<SpeBundle<T>> {
    if m.contains_key(t) {
        m[t]
    } else {
        Seq::empty()
    }
}

/// The timing map after the bundles of a block have been added, each to the list of
/// its offset.
pub open spec fn scheduled<T>(m: Map<u32, Seq<SpeBundle<T>>>, events: Seq<(u32, SpeBundle<T>)>) -> Map<
    u32,
    Seq<SpeBundle<T>>,
>
    decreases events.len(),
{
    if events.len() == 0 {
        m
    } else {
        let r = scheduled(m, events.drop_last());
        let e = events.last();
        r.insert(e.0, bundles_at(r, e.0).push(e.1))
    }
}

/// The sources after applying bundles in order, each to the source it names.
pub open spec fn after_bundles<T>(cur: Seq<Source<T>>, bs: Seq<SpeBundle<T>>) -> Seq<Source<T>>
    decreases bs.len(),
{
    if bs.len() == 0 {
        cur
    } else {
        let c = after_bundles(cur, bs.drop_last());
        let b = bs.last();
        c.update(b.id as int, c[b.id as int].applied(b.msg))
    }
}

/// The sources once the bundles of the first `frames` frames have been applied.
pub open spec fn sources_through<T>(cur: Seq<Source<T>>, m: Map<u32, Seq<SpeBundle<T>>>, frames: nat) -> Seq<
    Source<T>,
>
    decreases frames,
{
    if frames == 0 {
        cur
    } else {
        after_bundles(sources_through(cur, m, (frames - 1) as nat), bundles_at(m, (frames - 1) as u32))
    }
}

/// Every bundle of the list names a source below `count`.
pub open spec fn ids_below<T>(bs: Seq<SpeBundle<T>>, count: usize) -> bool {
    forall|j: int| 0 <= j < bs.len() ==> (#[trigger] bs[j]).id < count
}

/// Applying bundles that name existing sources keeps the number of sources.
pub proof fn lemma_after_bundles_len<T>(cur: Seq<Source<T>>, bs: Seq<SpeBundle<T>>)
    requires
        ids_below(bs, cur.len() as usize),
        cur.len() <= usize::MAX,
    ensures
        after_bundles(cur, bs).len() == cur.len(),
    decreases bs.len(),
{
    if bs.len() > 0 {
        lemma_after_bundles_len(cur, bs.drop_last());
    }
}

/// The part of the render handler that turns spatial events into per-frame source states.
pub struct RenderHandler<T> {
    pub timing_map: BTreeMap<u32, Vec<SpeBundle<T>>>,
    pub sources_mutator: SourcesMutator<T>,
}

impl<T: Copy> RenderHandler<T> {
    /// A handler with nothing scheduled.
    pub fn new(sources_mutator: SourcesMutator<T>) -> (h: Self)
        ensures
            h.timing_map@ == Map::<u32, Vec<SpeBundle<T>>>::empty(),
            h.sources_mutator == sources_mutator,
    {
        RenderHandler { timing_map: BTreeMap::new(), sources_mutator }
    }

    /// Adds the bundles of a block to the lists of their offsets.
    pub fn schedule(&mut self, events: &Vec<(u32, SpeBundle<T>)>)
        ensures
            timing_view(final(self).timing_map@) == scheduled(timing_view(old(self).timing_map@), events@),
            final(self).sources_mutator == old(self).sources_mutator,
    {
        proof {
            lemma_keys_ordered();
        }
        let ghost m0 = timing_view(self.timing_map@);
        let mut i: usize = 0;
        while i < events.len()
            invariant
                i <= events.len(),
                timing_view(self.timing_map@) == scheduled(m0, events@.take(i as int)),
                self.sources_mutator == old(self).sources_mutator,
            decreases events.len() - i,
        {
            let (t, b) = events[i];
            assert(events@.take(i + 1).drop_last() =~= events@.take(i as int));
            assert(events@.take(i + 1).last() == events@[i as int]);
            let ghost before = timing_view(self.timing_map@);
            let mut list = match self.timing_map.remove(&t) {
                Some(v) => v,
                None => Vec::new(),
            };
            assert(list@ == bundles_at(before, t));
            list.push(b);
            self.timing_map.insert(t, list);
            assert(timing_view(self.timing_map@) =~= before.insert(t, bundles_at(before, t).push(b)));
            i = i + 1;
        }
        assert(events@.take(events.len() as int) =~= events@);
    }

    /// Applies the bundles waiting for frame `frame` to the sources, in arrival order.
    pub fn apply_frame(&mut self, frame: u32)
        requires
            old(self).sources_mutator.wf(),
            ids_below(
                bundles_at(timing_view(old(self).timing_map@), frame),
                old(self).sources_mutator.spec_source_count(),
            ),
        ensures
            final(self).sources_mutator.wf(),
            final(self).sources_mutator.spec_source_count() == old(self).sources_mutator.spec_source_count(),
            final(self).sources_mutator@ == after_bundles(
                old(self).sources_mutator@,
                bundles_at(timing_view(old(self).timing_map@), frame),
            ),
            final(self).timing_map == old(self).timing_map,
    {
        proof {
            lemma_keys_ordered();
        }
        let ghost bs = bundles_at(timing_view(self.timing_map@), frame);
        let ghost cur0 = self.sources_mutator@;
        match self.timing_map.get(&frame) {
            Some(bundles) => {
                assert(bundles@ == bs);
                let mut j: usize = 0;
                while j < bundles.len()
                    invariant
                        j <= bundles.len(),
                        bundles@ == bs,
                        self.timing_map == old(self).timing_map,
                        ids_below(bs, self.sources_mutator.spec_source_count()),
                        self.sources_mutator.wf(),
                        self.sources_mutator.spec_source_count() == old(self).sources_mutator.spec_source_count(),
                        self.sources_mutator@ == after_bundles(cur0, bs.take(j as int)),
                    decreases bundles.len() - j,
                {
                    let b = bundles[j];
                    assert(bs.take(j + 1).drop_last() =~= bs.take(j as int));
                    assert(bs.take(j + 1).last() == bs[j as int]);
                    assert(bs[j as int].id < self.sources_mutator.spec_source_count());
                    self.sources_mutator.apply_msg(b.id as usize, b.msg);
                    j = j + 1;
                }
                assert(bs.take(bundles.len() as int) =~= bs);
            },
            None => {
                assert(bs =~= Seq::<SpeBundle<T>>::empty());
            },
        }
    }

    /// The spatial side of rendering one block of `samples` frames: schedules the
    /// block's bundles, then for each frame applies that frame's bundles and takes the
    /// writes that store all sources into that frame's slots. Every list is emptied at
    /// the end. Returns the writes of each frame, frame after frame.
    pub fn render_sources(&mut self, events: &Vec<(u32, SpeBundle<T>)>, samples: usize) -> (writes: Vec<
        Vec<(usize, Source<T>)>,
    >)
        requires
            old(self).sources_mutator.wf(),
            old(self).sources_mutator.spec_source_count() * samples <= usize::MAX,
            forall|f: int|
                0 <= f < samples ==> ids_below(
                    #[trigger] bundles_at(scheduled(timing_view(old(self).timing_map@), events@), f as u32),
                    old(self).sources_mutator.spec_source_count(),
                ),
        ensures
            ({
                let m = scheduled(timing_view(old(self).timing_map@), events@);
                let n = old(self).sources_mutator.spec_source_count();
                &&& writes@.len() == samples
                &&& forall|f: int|
                    0 <= f < samples ==> (#[trigger] writes@[f])@ == frame_writes(
                        n,
                        f,
                        sources_through(old(self).sources_mutator@, m, (f + 1) as nat),
                    )
                &&& final(self).sources_mutator.wf()
                &&& final(self).sources_mutator.spec_source_count() == n
                &&& final(self).sources_mutator@ == sources_through(
                    old(self).sources_mutator@,
                    m,
                    samples as nat,
                )
                &&& final(self).timing_map@ == Map::<u32, Vec<SpeBundle<T>>>::empty()
            }),
    {
        self.schedule(events);
        let ghost m = timing_view(self.timing_map@);
        let ghost cur0 = self.sources_mutator@;
        let ghost n = self.sources_mutator.spec_source_count();
        let mut writes: Vec<Vec<(usize, Source<T>)>> = Vec::new();
        let mut f: usize = 0;
        while f < samples
            invariant
                f <= samples,
                n * samples <= usize::MAX,
                m == timing_view(self.timing_map@),
                forall|g: int| 0 <= g < samples ==> ids_below(#[trigger] bundles_at(m, g as u32), n),
                self.sources_mutator.wf(),
                self.sources_mutator.spec_source_count() == n,
                self.sources_mutator@ == sources_through(cur0, m, f as nat),
                writes@.len() == f,
                forall|g: int|
                    0 <= g < f ==> (#[trigger] writes@[g])@ == frame_writes(
                        n,
                        g,
                        sources_through(cur0, m, (g + 1) as nat),
                    ),
            decreases samples - f,
        {
            assert(ids_below(bundles_at(m, f as u32), n));
            self.apply_frame(f as u32);
            proof {
                assert(n * f + n <= n * samples) by (nonlinear_arith)
                    requires
                        f < samples,
                ;
            }
            let w = self.sources_mutator.write_current_sources(f);
            writes.push(w);
            f = f + 1;
        }
        self.timing_map.clear();
        writes
    }
}

/// The bundles of a block that carry offset `t`, in arrival order.
pub open spec fn bundles_with_offset<T>(events: Seq<(u32, SpeBundle<T>)>, t: u32) -> Seq<SpeBundle<T>>
    decreases events.len(),
{
    if events.len() == 0 {
        Seq::empty()
    } else {
        let rest = bundles_with_offset(events.drop_last(), t);
        if events.last().0 == t {
            rest.push(events.last().1)
        } else {
            rest
        }
    }
}

/// Scheduling appends, to the list of each offset, exactly the block's bundles with
/// that offset, in the order they arrived; every other list stays as it was.
pub proof fn lemma_scheduled_groups_by_offset<T>(
    m: Map<u32, Seq<SpeBundle<T>>>,
    events: Seq<(u32, SpeBundle<T>)>,
    t: u32,
)
    ensures
        bundles_at(scheduled(m, events), t) == bundles_at(m, t) + bundles_with_offset(events, t),
    decreases events.len(),
{
    if events.len() == 0 {
        assert(bundles_at(m, t) + Seq::<SpeBundle<T>>::empty() =~= bundles_at(m, t));
    } else {
        lemma_scheduled_groups_by_offset(m, events.drop_last(), t);
        let r = scheduled(m, events.drop_last());
        if events.last().0 == t {
            assert(bundles_at(m, t) + bundles_with_offset(events.drop_last(), t).push(events.last().1)
                =~= (bundles_at(m, t) + bundles_with_offset(events.drop_last(), t)).push(events.last().1));
        }
    }
}

/// Bundles waiting for a frame at or after the end of the block never reach the
/// sources written for the block's frames.
pub proof fn lemma_late_bundles_ignored<T>(
    cur: Seq<Source<T>>,
    m: Map<u32, Seq<SpeBundle<T>>>,
    t: u32,
    late: Seq<SpeBundle<T>>,
    frames: nat,
)
    requires
        frames <= t,
    ensures
        sources_through(cur, m.insert(t, late), frames) == sources_through(cur, m, frames),
    decreases frames,
{
    if frames > 0 {
        lemma_late_bundles_ignored(cur, m, t, late, (frames - 1) as nat);
        assert(bundles_at(m.insert(t, late), (frames - 1) as u32) == bundles_at(m, (frames - 1) as u32));
    }
}

/// One source after the messages of a bundle list that are addressed to it, applied
/// in list order; bundles for other sources leave it alone.
pub open spec fn source_after<T>(s: Source<T>, bs: Seq<SpeBundle<T>>, k: int) -> Source<T>
    decreases bs.len(),
{
    if bs.len() == 0 {
        s
    } else {
        let r = source_after(s, bs.drop_last(), k);
        if bs.last().id == k {
            r.applied(bs.last().msg)
        } else {
            r
        }
    }
}

/// Applying a frame's bundles gives every source exactly the messages addressed to
/// it, each of them, in arrival order: no bundle of the frame is lost, none reaches
/// another source, and the number of sources stays the same.
pub proof fn lemma_after_bundles_per_source<T>(cur: Seq<Source<T>>, bs: Seq<SpeBundle<T>>, k: int)
    requires
        ids_below(bs, cur.len() as usize),
        cur.len() <= usize::MAX,
        0 <= k < cur.len(),
    ensures
        after_bundles(cur, bs).len() == cur.len(),
        after_bundles(cur, bs)[k] == source_after(cur[k], bs, k),
    decreases bs.len(),
{
    lemma_after_bundles_len(cur, bs);
    if bs.len() > 0 {
        assert(ids_below(bs.drop_last(), cur.len() as usize)) by {
            assert forall|j: int| 0 <= j < bs.drop_last().len() implies (#[trigger] bs.drop_last()[j]).id
                < cur.len() as usize by {
                assert(bs.drop_last()[j] == bs[j]);
            }
        }
        lemma_after_bundles_per_source(cur, bs.drop_last(), k);
        lemma_after_bundles_len(cur, bs.drop_last());
    }
}

/// One more bundle in a frame's list is applied on top of all the bundles before it:
/// its source takes its message over the state the earlier bundles left, and every
/// other source keeps that state.
pub proof fn lemma_after_bundles_push<T>(cur: Seq<Source<T>>, bs: Seq<SpeBundle<T>>, b: SpeBundle<T>)
    ensures
        after_bundles(cur, bs.push(b)) == after_bundles(cur, bs).update(
            b.id as int,
            after_bundles(cur, bs)[b.id as int].applied(b.msg),
        ),
{
    assert(bs.push(b).drop_last() =~= bs);
}

} // verus!
