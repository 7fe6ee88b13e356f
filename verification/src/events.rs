//! Host events as the plugins see them, SPE bundles carried in SysEx events,
//! and the filters the plugins apply to the event stream.
use vstd::prelude::*;
use crate::spe::Message;

verus! {

/// An event from or to the host. SysEx events carry a message; all other kinds
/// of note event are only told apart from them.
#[derive(Debug, Clone, Copy)]
pub enum NoteEvent<S> {
    MidiSysEx { timing: u32, message: S },
    Other { timing: u32 },
}

/// An SPE message together with the ID of the source it is about.
#[derive(Debug, Clone, Copy)]
pub struct SpeBundle<T> {
    pub id: u16,
    pub msg: Message<T>,
}

impl<T> SpeBundle<T> {
    /// Bundles a message with its source ID.
    pub fn new(id: u16, msg: Message<T>) -> (b: Self)
        ensures
            b == (SpeBundle { id, msg }),
    {
        SpeBundle { id, msg }
    }
}

/// Wraps a bundle in a SysEx event at the given timing.
pub fn bundle_to_event<T>(timing: u32, bundle: SpeBundle<T>) -> (e: NoteEvent<SpeBundle<T>>)
    ensures
        e == (NoteEvent::MidiSysEx { timing, message: bundle }),
{
    NoteEvent::MidiSysEx { timing, message: bundle }
}

/// Wraps a message about source `id` in a SysEx event at the given timing.
pub fn msg_to_event<T>(timing: u32, id: u16, msg: Message<T>) -> (e: NoteEvent<SpeBundle<T>>)
    ensures
        e == (NoteEvent::MidiSysEx { timing, message: SpeBundle { id, msg } }),
{
    let bundle = SpeBundle::new(id, msg);
    bundle_to_event(timing, bundle)
}

/// The (timing, message) pairs of the SysEx events in `events`, in order.
pub open spec fn sysex_of<S>(events: Seq<NoteEvent<S>>) -> Seq<(u32, S)>
    decreases events.len(),
{
    if events.len() == 0 {
        Seq::empty()
    } else {
        let rest = sysex_of(events.drop_last());
        match events.last() {
            NoteEvent::MidiSysEx { timing, message } => rest.push((timing, message)),
            NoteEvent::Other { .. } => rest,
        }
    }
}

/// Whether `id` is one of the IDs in `ids`.
pub open spec fn id_listed(ids: Seq<u16>, id: u16) -> bool {
    exists|j: int| 0 <= j < ids.len() && ids[j] == id
}

/// The events an editor forwards: the SysEx events whose bundle is about a source
/// that is not being edited, in order. Every other event is dropped.
pub open spec fn passthru_of<T>(events: Seq<NoteEvent<SpeBundle<T>>>, ids: Seq<u16>) -> Seq<
    NoteEvent<SpeBundle<T>>,
>
    decreases events.len(),
{
    if events.len() == 0 {
        Seq::empty()
    } else {
        let rest = passthru_of(events.drop_last(), ids);
        match events.last() {
            NoteEvent::MidiSysEx { timing, message } => if id_listed(ids, message.id) {
                rest
            } else {
                rest.push(events.last())
            },
            NoteEvent::Other { .. } => rest,
        }
    }
}

/// The SysEx messages among the events, with their timings, in the order they came.
pub fn sysex<S: Copy>(events: &Vec<NoteEvent<S>>) -> (r: Vec<(u32, S)>)
    ensures
        r@ == sysex_of(events@),
{
    let mut r: Vec<(u32, S)> = Vec::new();
    let mut i: usize = 0;
    while i < events.len()
        invariant
            i <= events.len(),
            r@ == sysex_of(events@.take(i as int)),
        decreases events.len() - i,
    {
        assert(events@.take(i + 1).drop_last() =~= events@.take(i as int));
        match events[i] {
            NoteEvent::MidiSysEx { timing, message } => r.push((timing, message)),
            NoteEvent::Other { .. } => {},
        }
        i = i + 1;
    }
    assert(events@.take(events.len() as int) =~= events@);
    r
}

/// Whether `id` is in `ids`.
fn id_collides(ids: &[u16], id: u16) -> (c: bool)
    ensures
        c == id_listed(ids@, id),
{
    let mut collision = false;
    let mut j: usize = 0;
    while j < ids.len()
        invariant
            j <= ids.len(),
            collision == (exists|k: int| 0 <= k < j && ids@[k] == id),
        decreases ids.len() - j,
    {
        collision = collision || ids[j] == id;
        j = j + 1;
    }
    collision
}

/// The events a scene editor lets through while editing the sources in
/// `editing_ids`: SysEx bundles about any other source, in order. Bundles about an
/// edited source, and all events that are not SysEx, are dropped.
pub fn spe_editor_passthru<T: Copy>(
    events: &Vec<NoteEvent<SpeBundle<T>>>,
    editing_ids: &[u16],
) -> (r: Vec<NoteEvent<SpeBundle<T>>>)
    ensures
        r@ == passthru_of(events@, editing_ids@),
{
    let mut r: Vec<NoteEvent<SpeBundle<T>>> = Vec::new();
    let mut i: usize = 0;
    while i < events.len()
        invariant
            i <= events.len(),
            r@ == passthru_of(events@.take(i as int), editing_ids@),
        decreases events.len() - i,
    {
        assert(events@.take(i + 1).drop_last() =~= events@.take(i as int));
        let event = events[i];
        match event {
            NoteEvent::MidiSysEx { timing: _, message } => {
                let collision = id_collides(editing_ids, message.id);
                if !collision {
                    r.push(event);
                }
            },
            NoteEvent::Other { .. } => {},
        }
        i = i + 1;
    }
    assert(events@.take(events.len() as int) =~= events@);
    r
}

/// Filtering twice through the same IDs gives what filtering once gave.
pub proof fn lemma_passthru_idempotent<T>(events: Seq<NoteEvent<SpeBundle<T>>>, ids: Seq<u16>)
    ensures
        passthru_of(passthru_of(events, ids), ids) == passthru_of(events, ids),
    decreases events.len(),
{
    if events.len() > 0 {
        lemma_passthru_idempotent(events.drop_last(), ids);
        let rest = passthru_of(events.drop_last(), ids);
        match events.last() {
            NoteEvent::MidiSysEx { timing, message } => {
                if !id_listed(ids, message.id) {
                    assert(rest.push(events.last()).drop_last() =~= rest);
                }
            },
            NoteEvent::Other { .. } => {},
        }
    }
}

/// Everything forwarded is a SysEx bundle about a source that is not being edited,
/// and it was among the incoming events.
pub proof fn lemma_passthru_forwards_only_others<T>(
    events: Seq<NoteEvent<SpeBundle<T>>>,
    ids: Seq<u16>,
)
    ensures
        forall|k: int|
            0 <= k < passthru_of(events, ids).len() ==> {
                &&& #[trigger] passthru_of(events, ids)[k] matches NoteEvent::MidiSysEx {
                    message,
                    ..
                } && !id_listed(ids, message.id)
                &&& events.contains(passthru_of(events, ids)[k])
            },
    decreases events.len(),
{
    if events.len() > 0 {
        lemma_passthru_forwards_only_others(events.drop_last(), ids);
        let rest = passthru_of(events.drop_last(), ids);
        assert forall|k: int| 0 <= k < rest.len() implies events.contains(#[trigger] rest[k]) by {
            let j = choose|j: int| 0 <= j < events.drop_last().len() && events.drop_last()[j] == rest[k];
            assert(events[j] == rest[k]);
        }
        assert(events[events.len() - 1] == events.last());
    }
}

/// Whether an editor editing the sources `ids` lets `e` through: exactly the SysEx
/// bundles about a source outside `ids`.
pub open spec fn forwarded<T>(ids: Seq<u16>, e: NoteEvent<SpeBundle<T>>) -> bool {
    e matches NoteEvent::MidiSysEx { message, .. } && !id_listed(ids, message.id)
}

/// The editor forwards precisely the incoming events it lets through, all of them,
/// in the order they came: its output is the incoming sequence filtered by
/// `forwarded`. In particular as many events go out as there are incoming SysEx
/// bundles about sources that are not edited.
pub proof fn lemma_passthru_is_filter<T>(events: Seq<NoteEvent<SpeBundle<T>>>, ids: Seq<u16>)
    ensures
        passthru_of(events, ids) == events.filter(|e: NoteEvent<SpeBundle<T>>| forwarded(ids, e)),
    decreases events.len(),
{
    reveal(Seq::filter);
    if events.len() > 0 {
        lemma_passthru_is_filter(events.drop_last(), ids);
    }
}

/// The (timing, message) pair that a SysEx event carries.
pub open spec fn sysex_pair<S>(e: NoteEvent<S>) -> (u32, S)
    recommends
        e is MidiSysEx,
{
    match e {
        NoteEvent::MidiSysEx { timing, message } => (timing, message),
        NoteEvent::Other { timing } => (timing, arbitrary()),
    }
}

/// The SysEx messages taken from a block are those of all its SysEx events, each
/// with its own timing, in the order they came, and nothing else.
pub proof fn lemma_sysex_is_filter<S>(events: Seq<NoteEvent<S>>)
    ensures
        sysex_of(events) == events.filter(|e: NoteEvent<S>| e is MidiSysEx).map_values(
            |e: NoteEvent<S>| sysex_pair(e),
        ),
    decreases events.len(),
{
    reveal(Seq::filter);
    if events.len() > 0 {
        lemma_sysex_is_filter(events.drop_last());
        let f = events.drop_last().filter(|e: NoteEvent<S>| e is MidiSysEx);
        assert(f.push(events.last()).map_values(|e: NoteEvent<S>| sysex_pair(e)) =~= f.map_values(
            |e: NoteEvent<S>| sysex_pair(e),
        ).push(sysex_pair(events.last())));
    }
}

} // verus!
