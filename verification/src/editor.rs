//! The scene editor: it announces the position and extent of the source it edits,
//! sends a message whenever they change, and forwards the bundles of every
//! other source.
use vstd::prelude::*;
use vstd::std_specs::cmp::PartialEqSpec;
use crate::spe::{axis_includes, spec_axis_from_changes, AxisCombo, Message, Property};
use crate::source::{lemma_extent_message_applied, lemma_position_message_applied, Source};
use crate::events::{msg_to_event, passthru_of, spe_editor_passthru, NoteEvent, SpeBundle};

verus! {

/// The change flags of two sequences under their type's equality: flag `i` is set
/// when the `i`-th values differ.
pub open spec fn spec_changes<T: PartialEq>(lhs: Seq<T>, rhs: Seq<T>) -> Seq<bool> {
    Seq::new(lhs.len(), |i: int| !lhs[i].eq_spec(&rhs[i]))
}

/// For each position, whether the two arrays differ there (by `!=`).
pub fn changes<T: PartialEq, const N: usize>(lhs: [T; N], rhs: [T; N]) -> (r: [bool; N])
    ensures
        T::obeys_eq_spec() ==> r@ == spec_changes(lhs@, rhs@),
{
    let mut r = [false; N];
    let mut i: usize = 0;
    while i < N
        invariant
            i <= N,
            r@.len() == N,
            lhs@.len() == N,
            rhs@.len() == N,
            T::obeys_eq_spec() ==> forall|j: int| 0 <= j < i ==> r@[j] == !lhs@[j].eq_spec(&rhs@[j]),
        decreases N - i,
    {
        r[i] = lhs[i] != rhs[i];
        i = i + 1;
    }
    assert(T::obeys_eq_spec() ==> r@ =~= spec_changes(lhs@, rhs@));
    r
}

/// What a diff message built by `msg` from change flags `c` may be: none when no
/// flag is set, otherwise one that `msg` can return for the combination of the
/// changed axes and the new triplet.
pub open spec fn diff_msg_for<T, F: Fn(&AxisCombo, [T; 3]) -> Message<T>>(
    c: Seq<bool>,
    new: [T; 3],
    msg: F,
    r: Option<Message<T>>,
) -> bool {
    match spec_axis_from_changes(c) {
        None => r is None,
        Some(axis) => r matches Some(m) && call_ensures(msg, (&axis, new), m),
    }
}

/// A message for the axes on which `new` differs from `old`, built by `msg` from
/// that axis combination and `new`; `None` when nothing changed.
pub fn cartestian_changes_msg<T: PartialEq + Copy, F: Fn(&AxisCombo, [T; 3]) -> Message<T>>(
    old: [T; 3],
    new: [T; 3],
    msg: F,
) -> (r: Option<Message<T>>)
    requires
        forall|a: AxisCombo| call_requires(msg, (&a, new)),
    ensures
        exists|c: Seq<bool>|
            {
                &&& c.len() == 3
                &&& T::obeys_eq_spec() ==> c == spec_changes(old@, new@)
                &&& diff_msg_for(c, new, msg, r)
            },
{
    let changes = changes(old, new);
    let axis_opt = AxisCombo::from_changes(changes);
    match axis_opt {
        None => {
            assert(diff_msg_for(changes@, new, msg, None::<Message<T>>));
            assert(changes@.len() == 3);
            None
        },
        Some(axis) => {
            let m = msg(&axis, new);
            assert(diff_msg_for(changes@, new, msg, Some(m)));
            assert(changes@.len() == 3);
            Some(m)
        },
    }
}

/// The position and extent the editor last reported.
#[derive(Debug, Clone, Copy)]
pub struct Record<T> {
    pub pos: [T; 3],
    pub ext: [T; 3],
}

/// The editor's state between two processing blocks.
#[derive(Debug, Clone, Copy)]
pub struct SceneEditor<T> {
    pub was_stopped: bool,
    pub record: Record<T>,
}

/// The events an editor sends in one block, before its own change messages:
/// the full position and extent of its source when playback has just begun,
/// then the forwarded bundles of the other sources.
pub open spec fn editor_leading_events<T>(
    just_began: bool,
    id: u16,
    all_pos: Message<T>,
    all_ext: Message<T>,
    incoming: Seq<NoteEvent<SpeBundle<T>>>,
) -> Seq<NoteEvent<SpeBundle<T>>> {
    let announce = if just_began {
        seq![
            NoteEvent::MidiSysEx { timing: 0, message: SpeBundle { id, msg: all_pos } },
            NoteEvent::MidiSysEx { timing: 0, message: SpeBundle { id, msg: all_ext } },
        ]
    } else {
        Seq::empty()
    };
    announce + passthru_of(incoming, seq![id])
}

/// The event that carries an optional change message about source `id`, as a sequence.
pub open spec fn change_event<T>(id: u16, m: Option<Message<T>>) -> Seq<NoteEvent<SpeBundle<T>>> {
    match m {
        Some(msg) => seq![NoteEvent::MidiSysEx { timing: 0, message: SpeBundle { id, msg } }],
        None => Seq::empty(),
    }
}

impl<T: PartialEq + Copy + Default> SceneEditor<T> {
    /// Whether playback started since the previous block.
    pub fn just_began_playing(&self, playing: bool) -> (b: bool)
        ensures
            b == (self.was_stopped && playing),
    {
        self.was_stopped && playing
    }

    /// A position message for all three axes; its unused fourth value is what
    /// `T::default()` returns.
    pub fn all_pos(pos: [T; 3]) -> (m: Message<T>)
        ensures
            m.property == Property::Position(AxisCombo::XYZ),
            m.values@.take(3) == pos@,
            call_ensures(T::default, (), m.values@[3]),
    {
        let m = Message::position(&AxisCombo::XYZ, pos);
        assert(m.values@.take(3) =~= pos@);
        m
    }

    /// An extent message for all three axes; its unused fourth value is what
    /// `T::default()` returns.
    pub fn all_ext(ext: [T; 3]) -> (m: Message<T>)
        ensures
            m.property == Property::Extent(AxisCombo::XYZ),
            m.values@.take(3) == ext@,
            call_ensures(T::default, (), m.values@[3]),
    {
        let m = Message::extent(&AxisCombo::XYZ, ext);
        assert(m.values@.take(3) =~= ext@);
        m
    }

    /// The full position and extent messages, in that order.
    pub fn all_property_msgs(pos: [T; 3], ext: [T; 3]) -> (ms: [Message<T>; 2])
        ensures
            ms@[0].property == Property::Position(AxisCombo::XYZ),
            ms@[0].values@.take(3) == pos@,
            call_ensures(T::default, (), ms@[0].values@[3]),
            ms@[1].property == Property::Extent(AxisCombo::XYZ),
            ms@[1].values@.take(3) == ext@,
            call_ensures(T::default, (), ms@[1].values@[3]),
    {
        [Self::all_pos(pos), Self::all_ext(ext)]
    }

    /// The position message for the axes that moved since the last report, if any.
    pub fn changed_pos_msg(&self, pos: [T; 3]) -> (r: Option<Message<T>>)
        ensures
            exists|c: Seq<bool>|
                {
                    &&& c.len() == 3
                    &&& T::obeys_eq_spec() ==> c == spec_changes(self.record.pos@, pos@)
                    &&& diff_msg_for(c, pos, Message::<T>::position, r)
                },
    {
        cartestian_changes_msg(self.record.pos, pos, Message::<T>::position)
    }

    /// The extent message for the axes that changed since the last report, if any.
    pub fn changed_ext_msg(&self, ext: [T; 3]) -> (r: Option<Message<T>>)
        ensures
            exists|c: Seq<bool>|
                {
                    &&& c.len() == 3
                    &&& T::obeys_eq_spec() ==> c == spec_changes(self.record.ext@, ext@)
                    &&& diff_msg_for(c, ext, Message::<T>::extent, r)
                },
    {
        cartestian_changes_msg(self.record.ext, ext, Message::<T>::extent)
    }
}


/// One processing block of an editor, from state `before` to state `after`: the
/// events `out` are sent, in order: the full position and extent of source `id`
/// when playback has just begun, the forwarded bundles of all other sources, then
/// a position message and an extent message for whatever changed since the last
/// block. The current position and extent become the new record.
pub open spec fn editor_block<T: PartialEq + Copy + Default>(
    before: SceneEditor<T>,
    after: SceneEditor<T>,
    playing: bool,
    id: u16,
    pos: [T; 3],
    ext: [T; 3],
    incoming: Seq<NoteEvent<SpeBundle<T>>>,
    out: Seq<NoteEvent<SpeBundle<T>>>,
) -> bool {
    &&& after.record == (Record { pos, ext })
    &&& after.was_stopped == !playing
    &&& exists|a1: Message<T>, a2: Message<T>, pm: Option<Message<T>>, em: Option<Message<T>>|
        {
            &&& a1.property == Property::Position(AxisCombo::XYZ)
            &&& a1.values@.take(3) == pos@
            &&& call_ensures(T::default, (), a1.values@[3])
            &&& a2.property == Property::Extent(AxisCombo::XYZ)
            &&& a2.values@.take(3) == ext@
            &&& call_ensures(T::default, (), a2.values@[3])
            &&& exists|c: Seq<bool>|
                {
                    &&& c.len() == 3
                    &&& T::obeys_eq_spec() ==> c == spec_changes(before.record.pos@, pos@)
                    &&& diff_msg_for(c, pos, Message::<T>::position, pm)
                }
            &&& exists|c: Seq<bool>|
                {
                    &&& c.len() == 3
                    &&& T::obeys_eq_spec() ==> c == spec_changes(before.record.ext@, ext@)
                    &&& diff_msg_for(c, ext, Message::<T>::extent, em)
                }
            &&& out == editor_leading_events(
                before.was_stopped && playing,
                id,
                a1,
                a2,
                incoming,
            ) + change_event(id, pm) + change_event(id, em)
        }
}

impl<T: PartialEq + Copy + Default> SceneEditor<T> {
    /// One processing block. Returns the events to send, in order: the full
    /// position and extent of source `id` when playback has just begun, the
    /// forwarded bundles of all other sources, then a position message and an
    /// extent message for whatever changed since the last block. The current
    /// position and extent become the new record.
    pub fn process(
        &mut self,
        playing: bool,
        id: u16,
        pos: [T; 3],
        ext: [T; 3],
        incoming: &Vec<NoteEvent<SpeBundle<T>>>,
    ) -> (out: Vec<NoteEvent<SpeBundle<T>>>)
        ensures
            editor_block(*old(self), *final(self), playing, id, pos, ext, incoming@, out@),
    {
        let just_began = self.just_began_playing(playing);
        let msgs = Self::all_property_msgs(pos, ext);
        let mut out: Vec<NoteEvent<SpeBundle<T>>> = Vec::new();
        if just_began {
            out.push(msg_to_event(0, id, msgs[0]));
            out.push(msg_to_event(0, id, msgs[1]));
        }
        let ids = [id];
        let mut forwarded = spe_editor_passthru(incoming, &ids);
        assert(ids@ =~= seq![id]);
        out.append(&mut forwarded);
        let pm = self.changed_pos_msg(pos);
        let em = self.changed_ext_msg(ext);
        let ghost lead = out@;
        if let Some(m) = pm {
            out.push(msg_to_event(0, id, m));
        }
        let ghost mid = out@;
        if let Some(m) = em {
            out.push(msg_to_event(0, id, m));
        }
        assert(lead =~= editor_leading_events(just_began, id, msgs@[0], msgs@[1], incoming@));
        assert(mid =~= lead + change_event(id, pm));
        assert(out@ =~= lead + change_event(id, pm) + change_event(id, em));
        self.record = Record { pos, ext };
        self.was_stopped = !playing;
        out
    }
}

/// Each change flag is set exactly when the axis combination built from the
/// flags includes that axis; no combination is built when no flag is set.
pub proof fn lemma_axis_from_changes(c: Seq<bool>)
    requires
        c.len() == 3,
    ensures
        spec_axis_from_changes(c) is None <==> (!c[0] && !c[1] && !c[2]),
        spec_axis_from_changes(c) matches Some(a) ==> forall|i: int|
            0 <= i < 3 ==> axis_includes(a, i) == c[i],
{
    if c[0] {
        if c[1] {
            if c[2] {
            } else {
            }
        } else {
            if c[2] {
            } else {
            }
        }
    } else {
        if c[1] {
            if c[2] {
            } else {
            }
        } else {
            if c[2] {
            } else {
            }
        }
    }
}

/// A receiver that holds the old position and applies the editor's position diff
/// ends up at the new position, with its extent untouched; when no diff is sent
/// the position did not change. Stated for scalar types whose `==` is equality.
pub proof fn lemma_position_diff_updates_receiver<T: PartialEq + Copy + Default>(
    s: Source<T>,
    old: [T; 3],
    new: [T; 3],
    r: Option<Message<T>>,
)
    requires
        T::obeys_eq_spec(),
        forall|a: T, b: T| a.eq_spec(&b) <==> a == b,
        s.pos_seq() == old@,
        diff_msg_for(spec_changes(old@, new@), new, Message::<T>::position, r),
    ensures
        match r {
            None => new@ == old@,
            Some(m) => s.applied(m).pos_seq() == new@ && s.applied(m).ext_seq() == s.ext_seq(),
        },
{
    let c = spec_changes(old@, new@);
    lemma_axis_from_changes(c);
    assert(old@[0].eq_spec(&new@[0]) <==> old@[0] == new@[0]);
    assert(old@[1].eq_spec(&new@[1]) <==> old@[1] == new@[1]);
    assert(old@[2].eq_spec(&new@[2]) <==> old@[2] == new@[2]);
    match r {
        None => {
            assert(new@ =~= old@);
        },
        Some(m) => {
            let axis = spec_axis_from_changes(c)->0;
            lemma_position_message_applied(s, axis, new@, m);
            assert(s.applied(m).pos_seq()[0] == new@[0]);
            assert(s.applied(m).pos_seq()[1] == new@[1]);
            assert(s.applied(m).pos_seq()[2] == new@[2]);
            assert(s.applied(m).pos_seq() =~= new@);
        },
    }
}

/// The same for the extent: applying the extent diff to a receiver that holds the
/// old extent gives the new extent and leaves the position untouched.
pub proof fn lemma_extent_diff_updates_receiver<T: PartialEq + Copy + Default>(
    s: Source<T>,
    old: [T; 3],
    new: [T; 3],
    r: Option<Message<T>>,
)
    requires
        T::obeys_eq_spec(),
        forall|a: T, b: T| a.eq_spec(&b) <==> a == b,
        s.ext_seq() == old@,
        diff_msg_for(spec_changes(old@, new@), new, Message::<T>::extent, r),
    ensures
        match r {
            None => new@ == old@,
            Some(m) => s.applied(m).ext_seq() == new@ && s.applied(m).pos_seq() == s.pos_seq(),
        },
{
    let c = spec_changes(old@, new@);
    lemma_axis_from_changes(c);
    assert(old@[0].eq_spec(&new@[0]) <==> old@[0] == new@[0]);
    assert(old@[1].eq_spec(&new@[1]) <==> old@[1] == new@[1]);
    assert(old@[2].eq_spec(&new@[2]) <==> old@[2] == new@[2]);
    match r {
        None => {
            assert(new@ =~= old@);
        },
        Some(m) => {
            let axis = spec_axis_from_changes(c)->0;
            lemma_extent_message_applied(s, axis, new@, m);
            assert(s.applied(m).ext_seq()[0] == new@[0]);
            assert(s.applied(m).ext_seq()[1] == new@[1]);
            assert(s.applied(m).ext_seq()[2] == new@[2]);
            assert(s.applied(m).ext_seq() =~= new@);
        },
    }
}

/// A block that follows a block while playing, with the same parameters and no
/// incoming events, sends nothing and leaves the editor as it was. Stated for
/// scalar types whose `==` is reflexive (not for a NaN float).
pub proof fn lemma_repeated_block_is_quiet<T: PartialEq + Copy + Default>(
    s0: SceneEditor<T>,
    s1: SceneEditor<T>,
    s2: SceneEditor<T>,
    id: u16,
    pos: [T; 3],
    ext: [T; 3],
    incoming: Seq<NoteEvent<SpeBundle<T>>>,
    out1: Seq<NoteEvent<SpeBundle<T>>>,
    out2: Seq<NoteEvent<SpeBundle<T>>>,
)
    requires
        T::obeys_eq_spec(),
        forall|a: T| #[trigger] a.eq_spec(&a),
        editor_block(s0, s1, true, id, pos, ext, incoming, out1),
        editor_block(s1, s2, true, id, pos, ext, Seq::empty(), out2),
    ensures
        out2.len() == 0,
        s2 == s1,
{
    let (a1, a2, pm, em) = choose|a1: Message<T>, a2: Message<T>, pm: Option<Message<T>>, em: Option<Message<T>>|
        {
            &&& a1.property == Property::Position(AxisCombo::XYZ)
            &&& a1.values@.take(3) == pos@
            &&& call_ensures(T::default, (), a1.values@[3])
            &&& a2.property == Property::Extent(AxisCombo::XYZ)
            &&& a2.values@.take(3) == ext@
            &&& call_ensures(T::default, (), a2.values@[3])
            &&& exists|c: Seq<bool>|
                {
                    &&& c.len() == 3
                    &&& T::obeys_eq_spec() ==> c == spec_changes(s1.record.pos@, pos@)
                    &&& diff_msg_for(c, pos, Message::<T>::position, pm)
                }
            &&& exists|c: Seq<bool>|
                {
                    &&& c.len() == 3
                    &&& T::obeys_eq_spec() ==> c == spec_changes(s1.record.ext@, ext@)
                    &&& diff_msg_for(c, ext, Message::<T>::extent, em)
                }
            &&& out2 == editor_leading_events(s1.was_stopped && true, id, a1, a2, Seq::empty())
                + change_event(id, pm) + change_event(id, em)
        };
    let cp = spec_changes(pos@, pos@);
    let ce = spec_changes(ext@, ext@);
    assert(pos@[0].eq_spec(&pos@[0]) && pos@[1].eq_spec(&pos@[1]) && pos@[2].eq_spec(&pos@[2]));
    assert(ext@[0].eq_spec(&ext@[0]) && ext@[1].eq_spec(&ext@[1]) && ext@[2].eq_spec(&ext@[2]));
    lemma_axis_from_changes(cp);
    lemma_axis_from_changes(ce);
    assert(pm is None);
    assert(em is None);
    assert(passthru_of(Seq::<NoteEvent<SpeBundle<T>>>::empty(), seq![id]) =~= Seq::empty());
    assert(out2 =~= Seq::<NoteEvent<SpeBundle<T>>>::empty());
}

} // verus!
