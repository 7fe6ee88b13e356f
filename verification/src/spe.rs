//! The Spatial Property Exchange (SPE) message model: which axes a message
//! touches, which property it updates, and the values it carries.
use vstd::prelude::*;

verus! {

/// The cartesian axis or axes of the property that a message updates.
#[derive(Debug, Clone, Copy, PartialEq, Eq, Structural)]
pub enum AxisCombo {
    X,
    Y,
    XY,
    Z,
    XZ,
    YZ,
    XYZ,
}

/// The wire code of an axis combination.
pub open spec fn axis_code(axis: AxisCombo) -> u8 {
    match axis {
        AxisCombo::X => 0,
        AxisCombo::Y => 1,
        AxisCombo::XY => 2,
        AxisCombo::Z => 3,
        AxisCombo::XZ => 4,
        AxisCombo::YZ => 5,
        AxisCombo::XYZ => 6,
    }
}

/// The axis combination with the given wire code, if there is one.
pub open spec fn axis_of_code(code: u8) -> Option<AxisCombo> {
    if code == 0 {
        Some(AxisCombo::X)
    } else if code == 1 {
        Some(AxisCombo::Y)
    } else if code == 2 {
        Some(AxisCombo::XY)
    } else if code == 3 {
        Some(AxisCombo::Z)
    } else if code == 4 {
        Some(AxisCombo::XZ)
    } else if code == 5 {
        Some(AxisCombo::YZ)
    } else if code == 6 {
        Some(AxisCombo::XYZ)
    } else {
        None
    }
}

/// Whether the combination includes axis `i` (0 is x, 1 is y, 2 is z).
pub open spec fn axis_includes(axis: AxisCombo, i: int) -> bool {
    match axis {
        AxisCombo::X => i == 0,
        AxisCombo::Y => i == 1,
        AxisCombo::XY => i == 0 || i == 1,
        AxisCombo::Z => i == 2,
        AxisCombo::XZ => i == 0 || i == 2,
        AxisCombo::YZ => i == 1 || i == 2,
        AxisCombo::XYZ => 0 <= i < 3,
    }
}

/// The slot of a message's values that holds axis `i`, for an included axis.
pub open spec fn axis_slot(axis: AxisCombo, i: int) -> int {
    match axis {
        AxisCombo::X | AxisCombo::Y | AxisCombo::Z => 0,
        AxisCombo::XY => i,
        AxisCombo::XZ => if i == 0 {
            0
        } else {
            1
        },
        AxisCombo::YZ => if i == 1 {
            0
        } else {
            1
        },
        AxisCombo::XYZ => i,
    }
}

/// How many values a message on this combination carries.
pub open spec fn axis_value_count(axis: AxisCombo) -> usize {
    match axis {
        AxisCombo::X | AxisCombo::Y | AxisCombo::Z => 1,
        AxisCombo::XY | AxisCombo::XZ | AxisCombo::YZ => 2,
        AxisCombo::XYZ => 3,
    }
}

/// Every axis combination is read back from its wire code, and no byte above six
/// names one.
pub proof fn lemma_axis_code_roundtrip(axis: AxisCombo, byte: u8)
    ensures
        axis_of_code(axis_code(axis)) == Some(axis),
        byte > 6 ==> axis_of_code(byte) is None,
        axis_of_code(byte) matches Some(a) ==> axis_code(a) == byte,
{
}

/// The three change flags read as a number: bit `i` is set when axis `i` changed.
pub open spec fn changes_code(changes: Seq<bool>) -> int {
    (if changes[0] { 1int } else { 0int }) + (if changes[1] { 2int } else { 0int }) + (if changes[2] {
        4int
    } else {
        0int
    })
}

/// The axis combination made of exactly the changed axes; `None` when none changed.
pub open spec fn spec_axis_from_changes(changes: Seq<bool>) -> Option<AxisCombo> {
    if changes_code(changes) == 0 {
        None
    } else {
        axis_of_code((changes_code(changes) - 1) as u8)
    }
}

/// The triplet moved so that the values of the included axes come first
/// (the order in which a message stores them).
pub open spec fn rearranged<T>(axis: AxisCombo, p: Seq<T>) -> Seq<T> {
    match axis {
        AxisCombo::Y | AxisCombo::YZ => seq![p[1], p[2], p[0]],
        AxisCombo::Z => seq![p[2], p[1], p[2]],
        AxisCombo::XZ => seq![p[0], p[2], p[2]],
        _ => p,
    }
}

/// The triplet `old` with the included axes set, in order, from the leading values of `v`.
pub open spec fn axes_updated<T>(old: Seq<T>, axis: AxisCombo, v: Seq<T>) -> Seq<T> {
    match axis {
        AxisCombo::X => old.update(0, v[0]),
        AxisCombo::Y => old.update(1, v[0]),
        AxisCombo::Z => old.update(2, v[0]),
        AxisCombo::XY => old.update(0, v[0]).update(1, v[1]),
        AxisCombo::XZ => old.update(0, v[0]).update(2, v[1]),
        AxisCombo::YZ => old.update(1, v[0]).update(2, v[1]),
        AxisCombo::XYZ => old.update(0, v[0]).update(1, v[1]).update(2, v[2]),
    }
}

/// The wire code of the axis combination that `xpans_spe::AxisCombo::from_changes`
/// builds from three change flags. Trusted claim about that function: the code is
/// the flags read as a three-bit number (bit `i` for axis `i`) minus one, and no
/// set flag gives `None`.
#[verifier::external_body]
fn outside_axis_code_from_changes(changes: [bool; 3]) -> (code: Option<u8>)
    ensures
        code == (if changes_code(changes@) == 0 {
            None::<u8>
        } else {
            Some((changes_code(changes@) - 1) as u8)
        }),
{
    match xpans_spe::AxisCombo::from_changes(changes) {
        Some(axis) => Some(axis as u8),
        None => None,
    }
}

impl AxisCombo {
    /// The axis combination with the given wire code; `None` for a code above six.
    pub fn try_from_byte(byte: u8) -> (r: Option<AxisCombo>)
        ensures
            r == axis_of_code(byte),
    {
        match byte {
            0 => Some(AxisCombo::X),
            1 => Some(AxisCombo::Y),
            2 => Some(AxisCombo::XY),
            3 => Some(AxisCombo::Z),
            4 => Some(AxisCombo::XZ),
            5 => Some(AxisCombo::YZ),
            6 => Some(AxisCombo::XYZ),
            _ => None,
        }
    }

    /// The combination of exactly the axes whose flag is set; `None` when no flag is set.
    pub fn from_changes(changes: [bool; 3]) -> (r: Option<AxisCombo>)
        ensures
            r == spec_axis_from_changes(changes@),
    {
        match outside_axis_code_from_changes(changes) {
            Some(code) => AxisCombo::try_from_byte(code),
            None => None,
        }
    }

    /// How many values a message on this combination carries.
    pub fn value_count(&self) -> (n: usize)
        ensures
            n == axis_value_count(*self),
    {
        match self {
            AxisCombo::X | AxisCombo::Y | AxisCombo::Z => 1,
            AxisCombo::XY | AxisCombo::XZ | AxisCombo::YZ => 2,
            AxisCombo::XYZ => 3,
        }
    }
}

/// The property that a message updates.
#[derive(Debug, Clone, Copy, PartialEq, Eq, Structural)]
pub enum Property {
    Position(AxisCombo),
    Extent(AxisCombo),
}

/// The axis combination of a property.
pub open spec fn property_axis(p: Property) -> AxisCombo {
    match p {
        Property::Position(a) => a,
        Property::Extent(a) => a,
    }
}

impl Property {
    /// How many values a message on this property carries.
    pub fn value_count(&self) -> (n: usize)
        ensures
            n == axis_value_count(property_axis(*self)),
    {
        match self {
            Property::Position(axis) => axis.value_count(),
            Property::Extent(axis) => axis.value_count(),
        }
    }
}

/// A message describing a change of one property of one source at one point in time.
/// Only the first `value_count` values are meaningful.
#[derive(Debug, Clone, Copy)]
pub struct Message<T> {
    pub property: Property,
    pub values: [T; 4],
}

impl<T: Copy + Default> Message<T> {
    /// A message on `property` whose meaningful values are the leading values of `values`;
    /// the remaining slots all hold one and the same value returned by `T::default()`.
    pub fn new(property: Property, values: [T; 3]) -> (m: Message<T>)
        ensures
            m.property == property,
            forall|i: int|
                0 <= i < axis_value_count(property_axis(property)) ==> m.values@[i] == values@[i],
            forall|i: int, j: int|
                axis_value_count(property_axis(property)) <= i < 4 && axis_value_count(
                    property_axis(property),
                ) <= j < 4 ==> m.values@[i] == m.values@[j],
            forall|i: int|
                axis_value_count(property_axis(property)) <= i < 4 ==> call_ensures(
                    T::default,
                    (),
                    #[trigger] m.values@[i],
                ),
    {
        let fill = T::default();
        let mut buf = [fill, fill, fill, fill];
        let count = property.value_count();
        let mut i: usize = 0;
        while i < count
            invariant
                count == axis_value_count(property_axis(property)),
                count <= 3,
                i <= count,
                forall|j: int| 0 <= j < i ==> buf@[j] == values@[j],
                forall|j: int| count <= j < 4 ==> buf@[j] == fill,
            decreases count - i,
        {
            buf[i] = values[i];
            i = i + 1;
        }
        Message { property, values: buf }
    }

    /// A position message for the axes in `axis`, taking their values from `position`;
    /// the unused slots hold the value `T::default()` returns.
    pub fn position(axis: &AxisCombo, position: [T; 3]) -> (m: Message<T>)
        ensures
            m.property == Property::Position(*axis),
            forall|i: int|
                0 <= i < axis_value_count(*axis) ==> m.values@[i] == rearranged(
                    *axis,
                    position@,
                )[i],
            forall|i: int, j: int|
                axis_value_count(*axis) <= i < 4 && axis_value_count(*axis) <= j < 4
                    ==> m.values@[i] == m.values@[j],
            forall|i: int|
                axis_value_count(*axis) <= i < 4 ==> call_ensures(
                    T::default,
                    (),
                    #[trigger] m.values@[i],
                ),
    {
        let values = rearrange_values(axis, position);
        Message::new(Property::Position(*axis), values)
    }

    /// An extent message for the axes in `axis`, taking their values from `extent`;
    /// the unused slots hold the value `T::default()` returns.
    pub fn extent(axis: &AxisCombo, extent: [T; 3]) -> (m: Message<T>)
        ensures
            m.property == Property::Extent(*axis),
            forall|i: int|
                0 <= i < axis_value_count(*axis) ==> m.values@[i] == rearranged(*axis, extent@)[i],
            forall|i: int, j: int|
                axis_value_count(*axis) <= i < 4 && axis_value_count(*axis) <= j < 4
                    ==> m.values@[i] == m.values@[j],
            forall|i: int|
                axis_value_count(*axis) <= i < 4 ==> call_ensures(
                    T::default,
                    (),
                    #[trigger] m.values@[i],
                ),
    {
        let values = rearrange_values(axis, extent);
        Message::new(Property::Extent(*axis), values)
    }
}

/// Moves the values of the included axes to the front of the triplet.
fn rearrange_values<T: Copy>(axis: &AxisCombo, triplet: [T; 3]) -> (r: [T; 3])
    ensures
        r@ == rearranged(*axis, triplet@),
{
    let r = match axis {
        AxisCombo::Y | AxisCombo::YZ => [triplet[1], triplet[2], triplet[0]],
        AxisCombo::Z => [triplet[2], triplet[1], triplet[2]],
        AxisCombo::XZ => [triplet[0], triplet[2], triplet[2]],
        _ => triplet,
    };
    assert(r@ =~= rearranged(*axis, triplet@));
    r
}

} // verus!
