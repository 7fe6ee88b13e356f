//! The spatial state of all sources while rendering, and where each source of
//! each frame lives in the spatial ring buffer (frame after frame, `source_count`
//! sources per frame).
use vstd::prelude::*;
use crate::source::Source;
use crate::spe::Message;

verus! {

/// The current state of every source, as messages arrive.
pub struct SourcesMutator<T> {
    current: Vec<Source<T>>,
    source_count: usize,
}

impl<T> View for SourcesMutator<T> {
    type V = Seq<Source<T>>;

    /// The current sources, by source ID.
    closed spec fn view(&self) -> Seq<Source<T>> {
        self.current@
    }
}

/// The ring-buffer slot of source `source` in frame `frame`.
pub open spec fn slot(source_count: int, frame: int, source: int) -> int {
    source_count * frame + source
}

/// The writes that put the sources `cur` into their slots of frame `frame`.
pub open spec fn frame_writes<T>(source_count: usize, frame: int, cur: Seq<Source<T>>) -> Seq<
    (usize, Source<T>),
> {
    Seq::new(cur.len(), |i: int| (slot(source_count as int, frame, i) as usize, cur[i]))
}

impl<T> SourcesMutator<T> {
    /// There is one current source per source ID.
    pub closed spec fn wf(self) -> bool {
        self.current@.len() == self.source_count
    }

    /// The number of sources.
    pub closed spec fn spec_source_count(self) -> usize {
        self.source_count
    }

    /// A well-formed mutator has one current source per source ID.
    pub proof fn lemma_len(self)
        requires
            self.wf(),
        ensures
            self@.len() == self.spec_source_count(),
    {
    }

    /// The number of sources.
    pub fn source_count(&self) -> (n: usize)
        ensures
            n == self.spec_source_count(),
    {
        self.source_count
    }
}

impl<T: Copy> SourcesMutator<T> {
    /// `source_count` sources, all in the state `initial`.
    pub fn new(initial: Source<T>, source_count: usize) -> (m: Self)
        ensures
            m.wf(),
            m.spec_source_count() == source_count,
            m@ == Seq::new(source_count as nat, |i: int| initial),
    {
        let mut current: Vec<Source<T>> = Vec::new();
        let mut i: usize = 0;
        while i < source_count
            invariant
                i <= source_count,
                current@ == Seq::new(i as nat, |k: int| initial),
            decreases source_count - i,
        {
            current.push(initial);
            i = i + 1;
            assert(current@ =~= Seq::new(i as nat, |k: int| initial));
        }
        SourcesMutator { current, source_count }
    }

    /// Applies a message to the source with ID `id`.
    pub fn apply_msg(&mut self, id: usize, msg: Message<T>)
        requires
            old(self).wf(),
            id < old(self).spec_source_count(),
        ensures
            final(self).wf(),
            final(self).spec_source_count() == old(self).spec_source_count(),
            final(self)@ == old(self)@.update(id as int, old(self)@[id as int].applied(msg)),
    {
        let mut s = self.current[id];
        s.apply_message(msg);
        self.current.set(id, s);
    }

    /// The writes that store the current sources into their slots of frame `frame`,
    /// by increasing source ID.
    pub fn write_current_sources(&self, frame: usize) -> (w: Vec<(usize, Source<T>)>)
        requires
            self.wf(),
            self.spec_source_count() * frame + self.spec_source_count() <= usize::MAX,
        ensures
            w@ == frame_writes(self.spec_source_count(), frame as int, self@),
    {
        let mut w: Vec<(usize, Source<T>)> = Vec::new();
        let mut i: usize = 0;
        while i < self.source_count
            invariant
                self.wf(),
                i <= self.source_count,
                self.source_count * frame + self.source_count <= usize::MAX,
                w@ == frame_writes(self.source_count, frame as int, self@.take(i as int)),
            decreases self.source_count - i,
        {
            proof {
                assert(self.source_count * frame + i < self.source_count * frame + self.source_count);
            }
            w.push(((self.source_count * frame) + i, self.current[i]));
            i = i + 1;
            assert(w@ =~= frame_writes(self.source_count, frame as int, self@.take(i as int)));
        }
        assert(self@.take(i as int) =~= self@);
        w
    }

    /// How far the write position moves for `frames` frames.
    pub fn move_write_position(&self, frames: usize) -> (amount: usize)
        requires
            frames * self.spec_source_count() <= usize::MAX,
        ensures
            amount == frames * self.spec_source_count(),
    {
        frames * self.source_count
    }
}

/// Where the renderer finds each source of each frame.
pub struct SourcesViewer {
    source_count: usize,
}

impl SourcesViewer {
    /// The number of sources.
    pub closed spec fn spec_source_count(self) -> usize {
        self.source_count
    }

    /// A viewer for `source_count` sources per frame.
    pub fn new(source_count: usize) -> (v: Self)
        ensures
            v.spec_source_count() == source_count,
    {
        SourcesViewer { source_count }
    }

    /// The slot of source `source` in frame `frame`, relative to the read position.
    pub fn source(&self, source: usize, frame: usize) -> (i: usize)
        requires
            slot(self.spec_source_count() as int, frame as int, source as int) <= usize::MAX,
        ensures
            i == slot(self.spec_source_count() as int, frame as int, source as int),
    {
        (self.source_count * frame) + source
    }

    /// The number of sources.
    pub fn source_count(&self) -> (n: usize)
        ensures
            n == self.spec_source_count(),
    {
        self.source_count
    }

    /// How far the read position moves for `frames` frames.
    pub fn advance(&self, frames: usize) -> (amount: usize)
        requires
            frames * self.spec_source_count() <= usize::MAX,
        ensures
            amount == frames * self.spec_source_count(),
    {
        frames * self.source_count
    }

    /// How many whole frames `reads_available` readable slots hold.
    pub fn frames_available(&self, reads_available: usize) -> (n: Option<usize>)
        requires
            self.spec_source_count() > 0,
        ensures
            n == Some((reads_available / self.spec_source_count()) as usize),
    {
        Some(reads_available / self.source_count)
    }
}

/// What the mutator writes for source `i` of frame `f` lands in the slot where the
/// viewer looks for that source in that frame, and it is that source's current state;
/// the slots of two different (frame, source) pairs never coincide, so no write of a
/// block overwrites another.
pub proof fn lemma_writes_land_where_viewer_reads<T>(
    m: SourcesMutator<T>,
    v: SourcesViewer,
    f: int,
    i: int,
    g: int,
    j: int,
)
    requires
        m.wf(),
        v.spec_source_count() == m.spec_source_count(),
        0 <= f,
        0 <= g,
        0 <= i < m.spec_source_count(),
        0 <= j < m.spec_source_count(),
        slot(m.spec_source_count() as int, f, i) <= usize::MAX,
    ensures
        frame_writes(m.spec_source_count(), f, m@)[i].0 == slot(
            v.spec_source_count() as int,
            f,
            i,
        ),
        frame_writes(m.spec_source_count(), f, m@)[i].1 == m@[i],
        (f, i) != (g, j) ==> slot(m.spec_source_count() as int, f, i) != slot(
            m.spec_source_count() as int,
            g,
            j,
        ),
{
    let n = m.spec_source_count() as int;
    if (f, i) != (g, j) && slot(n, f, i) == slot(n, g, j) {
        if f < g {
            assert(n * f + n <= n * g) by (nonlinear_arith)
                requires
                    f < g,
                    n > 0,
            ;
        } else if g < f {
            assert(n * g + n <= n * f) by (nonlinear_arith)
                requires
                    g < f,
                    n > 0,
            ;
        }
    }
}

} // verus!
