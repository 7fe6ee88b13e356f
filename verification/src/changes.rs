//! The property changes of one source at one recorded sample, as a spatial
//! record stores them: each coordinate is either changed (with its new value)
//! or untouched.
use vstd::prelude::*;
use crate::spe::{
    axes_updated, axis_includes, axis_slot, axis_value_count, rearranged, AxisCombo, Message,
    Property,
};

verus! {

/// The coordinates of one source that changed at one sample, with their new values.
#[derive(Debug, Clone, Copy)]
pub struct Changes<T> {
    pub pos_x: Option<T>,
    pub pos_y: Option<T>,
    pub pos_z: Option<T>,
    pub ext_x: Option<T>,
    pub ext_y: Option<T>,
    pub ext_z: Option<T>,
}

/// Every value of a sequence wrapped in `Some`.
pub open spec fn all_some<T>(v: Seq<T>) -> Seq<Option<T>> {
    Seq::new(v.len(), |i: int| Some(v[i]))
}

impl<T> Changes<T> {
    /// No coordinate changed.
    pub open spec fn none() -> Changes<T> {
        Changes { pos_x: None, pos_y: None, pos_z: None, ext_x: None, ext_y: None, ext_z: None }
    }

    /// The position changes as an (x, y, z) sequence.
    pub open spec fn pos_seq(self) -> Seq<Option<T>> {
        seq![self.pos_x, self.pos_y, self.pos_z]
    }

    /// The extent changes as an (x, y, z) sequence.
    pub open spec fn ext_seq(self) -> Seq<Option<T>> {
        seq![self.ext_x, self.ext_y, self.ext_z]
    }

    /// The changes with the given position and extent sequences.
    pub open spec fn from_seqs(pos: Seq<Option<T>>, ext: Seq<Option<T>>) -> Changes<T> {
        Changes { pos_x: pos[0], pos_y: pos[1], pos_z: pos[2], ext_x: ext[0], ext_y: ext[1], ext_z: ext[2] }
    }

    /// The changes after a message: each axis the message names of the property it
    /// names becomes changed, to the message's value; everything else stays.
    pub open spec fn applied(self, msg: Message<T>) -> Changes<T> {
        match msg.property {
            Property::Position(axis) => Changes::from_seqs(
                axes_updated(self.pos_seq(), axis, all_some(msg.values@)),
                self.ext_seq(),
            ),
            Property::Extent(axis) => Changes::from_seqs(
                self.pos_seq(),
                axes_updated(self.ext_seq(), axis, all_some(msg.values@)),
            ),
        }
    }

    /// No coordinate changed.
    pub fn new() -> (c: Changes<T>)
        ensures
            c == Changes::<T>::none(),
    {
        Changes { pos_x: None, pos_y: None, pos_z: None, ext_x: None, ext_y: None, ext_z: None }
    }
}

impl<T> Default for Changes<T> {
    /// No coordinate changed.
    fn default() -> (c: Changes<T>)
        ensures
            c == Changes::<T>::none(),
    {
        Changes::new()
    }
}

impl<T: Copy> Changes<T> {
    /// Records the changes a message makes.
    pub fn apply_message(&mut self, msg: Message<T>)
        ensures
            *final(self) == old(self).applied(msg),
    {
        let v = msg.values;
        match msg.property {
            Property::Position(axis) => match axis {
                AxisCombo::X => self.pos_x = Some(v[0]),
                AxisCombo::Y => self.pos_y = Some(v[0]),
                AxisCombo::Z => self.pos_z = Some(v[0]),
                AxisCombo::XY => {
                    self.pos_x = Some(v[0]);
                    self.pos_y = Some(v[1]);
                },
                AxisCombo::XZ => {
                    self.pos_x = Some(v[0]);
                    self.pos_z = Some(v[1]);
                },
                AxisCombo::YZ => {
                    self.pos_y = Some(v[0]);
                    self.pos_z = Some(v[1]);
                },
                AxisCombo::XYZ => {
                    self.pos_x = Some(v[0]);
                    self.pos_y = Some(v[1]);
                    self.pos_z = Some(v[2]);
                },
            },
            Property::Extent(axis) => match axis {
                AxisCombo::X => self.ext_x = Some(v[0]),
                AxisCombo::Y => self.ext_y = Some(v[0]),
                AxisCombo::Z => self.ext_z = Some(v[0]),
                AxisCombo::XY => {
                    self.ext_x = Some(v[0]);
                    self.ext_y = Some(v[1]);
                },
                AxisCombo::XZ => {
                    self.ext_x = Some(v[0]);
                    self.ext_z = Some(v[1]);
                },
                AxisCombo::YZ => {
                    self.ext_y = Some(v[0]);
                    self.ext_z = Some(v[1]);
                },
                AxisCombo::XYZ => {
                    self.ext_x = Some(v[0]);
                    self.ext_y = Some(v[1]);
                    self.ext_z = Some(v[2]);
                },
            },
        }
        assert(*self == old(self).applied(msg));
    }
}

/// Recording the same message twice records what recording it once did.
pub proof fn lemma_changes_apply_idempotent<T>(c: Changes<T>, msg: Message<T>)
    ensures
        c.applied(msg).applied(msg) == c.applied(msg),
{
}

/// A recorded message marks the coordinates it names as changed, to its values.
pub proof fn lemma_changes_record_named_axes<T>(c: Changes<T>, msg: Message<T>)
    ensures
        forall|i: int|
            0 <= i < 3 ==> #[trigger] c.applied(msg).pos_seq()[i] == match msg.property {
                Property::Position(axis) => if crate::spe::axis_includes(axis, i) {
                    Some(msg.values@[crate::spe::axis_slot(axis, i)])
                } else {
                    c.pos_seq()[i]
                },
                Property::Extent(_) => c.pos_seq()[i],
            },
{
}

/// A recorded extent message marks the extent coordinates it names as changed, to
/// its values in order; every other coordinate keeps what was recorded before.
pub proof fn lemma_changes_record_named_extent<T>(c: Changes<T>, msg: Message<T>)
    ensures
        forall|i: int|
            0 <= i < 3 ==> #[trigger] c.applied(msg).ext_seq()[i] == match msg.property {
                Property::Extent(axis) => if axis_includes(axis, i) {
                    Some(msg.values@[axis_slot(axis, i)])
                } else {
                    c.ext_seq()[i]
                },
                Property::Position(_) => c.ext_seq()[i],
            },
{
}

/// Recording a position message built for the axes in `axis` from the triplet `p`
/// marks each included position coordinate as changed to `p`'s value; the other
/// coordinates, and the whole extent, keep what was recorded before.
pub proof fn lemma_changes_record_position_message<T>(
    c: Changes<T>,
    axis: AxisCombo,
    p: Seq<T>,
    msg: Message<T>,
)
    requires
        p.len() == 3,
        msg.property == Property::Position(axis),
        forall|i: int| 0 <= i < axis_value_count(axis) ==> msg.values@[i] == rearranged(axis, p)[i],
    ensures
        forall|i: int|
            0 <= i < 3 ==> #[trigger] c.applied(msg).pos_seq()[i] == (if axis_includes(axis, i) {
                Some(p[i])
            } else {
                c.pos_seq()[i]
            }),
        c.applied(msg).ext_seq() == c.ext_seq(),
{
    assert(c.applied(msg).ext_seq() =~= c.ext_seq());
}

/// Recording an extent message built for the axes in `axis` from the triplet `e`
/// marks each included extent coordinate as changed to `e`'s value; the other
/// coordinates, and the whole position, keep what was recorded before.
pub proof fn lemma_changes_record_extent_message<T>(
    c: Changes<T>,
    axis: AxisCombo,
    e: Seq<T>,
    msg: Message<T>,
)
    requires
        e.len() == 3,
        msg.property == Property::Extent(axis),
        forall|i: int| 0 <= i < axis_value_count(axis) ==> msg.values@[i] == rearranged(axis, e)[i],
    ensures
        forall|i: int|
            0 <= i < 3 ==> #[trigger] c.applied(msg).ext_seq()[i] == (if axis_includes(axis, i) {
                Some(e[i])
            } else {
                c.ext_seq()[i]
            }),
        c.applied(msg).pos_seq() == c.pos_seq(),
{
    assert(c.applied(msg).pos_seq() =~= c.pos_seq());
}

} // verus!
