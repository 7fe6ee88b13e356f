//! The spatial state of one audio source: a position and an extent along
//! three axes, and how an SPE message changes it.
use vstd::prelude::*;
use crate::spe::{
    axes_updated, axis_includes, axis_value_count, rearranged, AxisCombo, Message, Property,
};

verus! {

/// Position and extent of an audio source.
#[derive(Debug, Clone, Copy)]
pub struct Source<T> {
    pub pos_x: T,
    pub pos_y: T,
    pub pos_z: T,
    pub ext_x: T,
    pub ext_y: T,
    pub ext_z: T,
}

impl<T> Source<T> {
    /// The position as an (x, y, z) sequence.
    pub open spec fn pos_seq(self) -> Seq<T> {
        seq![self.pos_x, self.pos_y, self.pos_z]
    }

    /// The extent as an (x, y, z) sequence.
    pub open spec fn ext_seq(self) -> Seq<T> {
        seq![self.ext_x, self.ext_y, self.ext_z]
    }

    /// The source with the given position and extent sequences.
    pub open spec fn from_seqs(pos: Seq<T>, ext: Seq<T>) -> Source<T> {
        Source { pos_x: pos[0], pos_y: pos[1], pos_z: pos[2], ext_x: ext[0], ext_y: ext[1], ext_z: ext[2] }
    }

    /// The source after a message: the axes the message names of the property it
    /// names take, in order, the message's leading values; everything else stays.
    pub open spec fn applied(self, msg: Message<T>) -> Source<T> {
        match msg.property {
            Property::Position(axis) => Source::from_seqs(
                axes_updated(self.pos_seq(), axis, msg.values@),
                self.ext_seq(),
            ),
            Property::Extent(axis) => Source::from_seqs(
                self.pos_seq(),
                axes_updated(self.ext_seq(), axis, msg.values@),
            ),
        }
    }

    /// Sets the left/right position.
    pub fn set_pos_x(&mut self, x: T)
        ensures
            *final(self) == (Source { pos_x: x, ..*old(self) }),
    {
        self.pos_x = x;
    }

    /// Sets the backward/forward position.
    pub fn set_pos_y(&mut self, y: T)
        ensures
            *final(self) == (Source { pos_y: y, ..*old(self) }),
    {
        self.pos_y = y;
    }

    /// Sets the down/up position.
    pub fn set_pos_z(&mut self, z: T)
        ensures
            *final(self) == (Source { pos_z: z, ..*old(self) }),
    {
        self.pos_z = z;
    }

    /// Sets the left/right extent.
    pub fn set_ext_x(&mut self, x: T)
        ensures
            *final(self) == (Source { ext_x: x, ..*old(self) }),
    {
        self.ext_x = x;
    }

    /// Sets the backward/forward extent.
    pub fn set_ext_y(&mut self, y: T)
        ensures
            *final(self) == (Source { ext_y: y, ..*old(self) }),
    {
        self.ext_y = y;
    }

    /// Sets the down/up extent.
    pub fn set_ext_z(&mut self, z: T)
        ensures
            *final(self) == (Source { ext_z: z, ..*old(self) }),
    {
        self.ext_z = z;
    }
}

impl<T: Copy> Source<T> {
    /// The position as an array `[x, y, z]`.
    pub fn pos(&self) -> (p: [T; 3])
        ensures
            p@ == self.pos_seq(),
    {
        let p = [self.pos_x, self.pos_y, self.pos_z];
        assert(p@ =~= self.pos_seq());
        p
    }

    /// Left/right position.
    pub fn pos_x(&self) -> (v: T)
        ensures
            v == self.pos_x,
    {
        self.pos_x
    }

    /// Backward/forward position.
    pub fn pos_y(&self) -> (v: T)
        ensures
            v == self.pos_y,
    {
        self.pos_y
    }

    /// Down/up position.
    pub fn pos_z(&self) -> (v: T)
        ensures
            v == self.pos_z,
    {
        self.pos_z
    }

    /// Left/right extent.
    pub fn ext_x(&self) -> (v: T)
        ensures
            v == self.ext_x,
    {
        self.ext_x
    }

    /// Backward/forward extent.
    pub fn ext_y(&self) -> (v: T)
        ensures
            v == self.ext_y,
    {
        self.ext_y
    }

    /// Down/up extent.
    pub fn ext_z(&self) -> (v: T)
        ensures
            v == self.ext_z,
    {
        self.ext_z
    }

    /// Changes the source's properties to those carried by the message.
    pub fn apply_message(&mut self, msg: Message<T>)
        ensures
            *final(self) == old(self).applied(msg),
    {
        let v = msg.values;
        match msg.property {
            Property::Position(axis) => match axis {
                AxisCombo::X => self.set_pos_x(v[0]),
                AxisCombo::Y => self.set_pos_y(v[0]),
                AxisCombo::Z => self.set_pos_z(v[0]),
                AxisCombo::XY => {
                    self.set_pos_x(v[0]);
                    self.set_pos_y(v[1]);
                },
                AxisCombo::XZ => {
                    self.set_pos_x(v[0]);
                    self.set_pos_z(v[1]);
                },
                AxisCombo::YZ => {
                    self.set_pos_y(v[0]);
                    self.set_pos_z(v[1]);
                },
                AxisCombo::XYZ => {
                    self.set_pos_x(v[0]);
                    self.set_pos_y(v[1]);
                    self.set_pos_z(v[2]);
                },
            },
            Property::Extent(axis) => match axis {
                AxisCombo::X => self.set_ext_x(v[0]),
                AxisCombo::Y => self.set_ext_y(v[0]),
                AxisCombo::Z => self.set_ext_z(v[0]),
                AxisCombo::XY => {
                    self.set_ext_x(v[0]);
                    self.set_ext_y(v[1]);
                },
                AxisCombo::XZ => {
                    self.set_ext_x(v[0]);
                    self.set_ext_z(v[1]);
                },
                AxisCombo::YZ => {
                    self.set_ext_y(v[0]);
                    self.set_ext_z(v[1]);
                },
                AxisCombo::XYZ => {
                    self.set_ext_x(v[0]);
                    self.set_ext_y(v[1]);
                    self.set_ext_z(v[2]);
                },
            },
        }
        assert(*self == old(self).applied(msg));
    }
}

/// Writing the included axes from a message's values undoes the rearrangement a
/// message constructor made: axis `i` takes `p[i]` when included and keeps `old[i]` otherwise.
pub proof fn lemma_axes_updated_rearranged<T>(old: Seq<T>, axis: AxisCombo, p: Seq<T>, v: Seq<T>)
    requires
        old.len() == 3,
        p.len() == 3,
        v.len() == 4,
        forall|i: int| 0 <= i < axis_value_count(axis) ==> v[i] == rearranged(axis, p)[i],
    ensures
        axes_updated(old, axis, v).len() == 3,
        forall|i: int|
            0 <= i < 3 ==> axes_updated(old, axis, v)[i] == (if axis_includes(axis, i) {
                p[i]
            } else {
                old[i]
            }),
{
}

/// A position message built for the axes in `axis` from the triplet `p` moves a source
/// so that each included axis takes `p`'s value and every other coordinate, and the
/// extent, stay as they were.
pub proof fn lemma_position_message_applied<T: Copy + Default>(
    s: Source<T>,
    axis: AxisCombo,
    p: Seq<T>,
    msg: Message<T>,
)
    requires
        p.len() == 3,
        msg.property == Property::Position(axis),
        forall|i: int| 0 <= i < axis_value_count(axis) ==> msg.values@[i] == rearranged(axis, p)[i],
    ensures
        forall|i: int|
            0 <= i < 3 ==> #[trigger] s.applied(msg).pos_seq()[i] == (if axis_includes(axis, i) {
                p[i]
            } else {
                s.pos_seq()[i]
            }),
        s.applied(msg).ext_seq() == s.ext_seq(),
{
    lemma_axes_updated_rearranged(s.pos_seq(), axis, p, msg.values@);
    assert(s.applied(msg).ext_seq() =~= s.ext_seq());
}

/// An extent message built for the axes in `axis` from the triplet `e` sets each
/// included extent axis to `e`'s value and leaves everything else as it was.
pub proof fn lemma_extent_message_applied<T: Copy + Default>(
    s: Source<T>,
    axis: AxisCombo,
    e: Seq<T>,
    msg: Message<T>,
)
    requires
        e.len() == 3,
        msg.property == Property::Extent(axis),
        forall|i: int| 0 <= i < axis_value_count(axis) ==> msg.values@[i] == rearranged(axis, e)[i],
    ensures
        forall|i: int|
            0 <= i < 3 ==> #[trigger] s.applied(msg).ext_seq()[i] == (if axis_includes(axis, i) {
                e[i]
            } else {
                s.ext_seq()[i]
            }),
        s.applied(msg).pos_seq() == s.pos_seq(),
{
    lemma_axes_updated_rearranged(s.ext_seq(), axis, e, msg.values@);
    assert(s.applied(msg).pos_seq() =~= s.pos_seq());
}

/// Applying the same message twice leaves a source as applying it once.
pub proof fn lemma_apply_idempotent<T>(s: Source<T>, msg: Message<T>)
    ensures
        s.applied(msg).applied(msg) == s.applied(msg),
{
}

} // verus!
