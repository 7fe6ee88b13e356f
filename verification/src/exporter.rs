//! The scene exporter: it follows the current state of every source, records
//! the changes that happen inside the scene range while an export is armed, and
//! decides when the recording is finished and has to be written out.
use std::collections::BTreeMap;
use vstd::prelude::*;
use crate::changes::Changes;
use crate::events::SpeBundle;
use crate::spe::Message;
use crate::ui::FromEditorMessage;
use crate::keys::lemma_keys_ordered;
use vstd::std_specs::iter::IteratorSpec;
use vstd::std_specs::cmp::OrdSpec;

verus! {

broadcast use vstd::std_specs::btree::group_btree_axioms;

/// Copies a path.
/// Calls `std::path::PathBuf::clone`; claimed: the copy is the same path.
#[verifier::external_body]
fn clone_path(p: &std::path::PathBuf) -> (r: std::path::PathBuf)
    ensures
        r == *p,
{
    p.clone()
}

/// What the plugin has to do outside the exporter after a processing block.
#[derive(Debug)]
pub enum ExporterAction {
    /// Store the new scene start where the editor reads it.
    SceneStartSet(i64),
    /// Store the new scene end where the editor reads it.
    SceneEndSet(i64),
    /// Store the new export path and tell the editor about it.
    ExportPathSet(std::path::PathBuf),
    /// Tell the editor that the export is no longer armed.
    ExportUnarmed,
    /// Write the record to the export path (and clear it once the file is open).
    WriteRecord,
}

/// The recorded changes of one source at one sample, or no change when there are none.
pub open spec fn changes_at<K, T>(m: Map<K, Changes<T>>, k: K) -> Changes<T> {
    if m.contains_key(k) {
        m[k]
    } else {
        Changes::none()
    }
}

/// The changes recorded at one sample, by source ID (empty when nothing is recorded there).
pub open spec fn sample_at<T>(r: Map<i64, Map<u16, Changes<T>>>, s: i64) -> Map<u16, Changes<T>> {
    if r.contains_key(s) {
        r[s]
    } else {
        Map::empty()
    }
}

/// The per-source changes after one more message about source `id`.
pub open spec fn with_event<T>(m: Map<u16, Changes<T>>, id: u16, msg: Message<T>) -> Map<
    u16,
    Changes<T>,
> {
    m.insert(id, changes_at(m, id).applied(msg))
}

/// A nested record seen through the views of its inner maps.
pub open spec fn record_view<T>(r: Map<i64, BTreeMap<u16, Changes<T>>>) -> Map<
    i64,
    Map<u16, Changes<T>>,
> {
    Map::new(|k: i64| r.contains_key(k), |k: i64| r[k]@)
}

/// The current state of every source after a list of bundles.
pub open spec fn current_after<T>(cur: Map<u16, Changes<T>>, events: Seq<(u32, SpeBundle<T>)>) -> Map<
    u16,
    Changes<T>,
>
    decreases events.len(),
{
    if events.len() == 0 {
        cur
    } else {
        let e = events.last();
        with_event(current_after(cur, events.drop_last()), e.1.id, e.1.msg)
    }
}

/// The record after recording a list of bundles, each at the block's first sample
/// plus its offset.
pub open spec fn record_after<T>(
    rec: Map<i64, Map<u16, Changes<T>>>,
    first: i64,
    events: Seq<(u32, SpeBundle<T>)>,
) -> Map<i64, Map<u16, Changes<T>>>
    decreases events.len(),
{
    if events.len() == 0 {
        rec
    } else {
        let e = events.last();
        let r = record_after(rec, first, events.drop_last());
        let s = (first + e.0) as i64;
        r.insert(s, with_event(sample_at(r, s), e.1.id, e.1.msg))
    }
}

/// Scene start, scene end, arming and export path after the editor's messages,
/// with `cs` the sample the block starts at.
pub open spec fn settings_after(
    start: i64,
    end: i64,
    exporting: bool,
    path: std::path::PathBuf,
    msgs: Seq<FromEditorMessage>,
    cs: i64,
) -> (i64, i64, bool, std::path::PathBuf)
    decreases msgs.len(),
{
    if msgs.len() == 0 {
        (start, end, exporting, path)
    } else {
        let (s, e, x, p) = settings_after(start, end, exporting, path, msgs.drop_last(), cs);
        match msgs.last() {
            FromEditorMessage::SetSceneStart => (cs, e, x, p),
            FromEditorMessage::SetSceneEnd => (s, cs, x, p),
            FromEditorMessage::ExportArm => (s, e, true, p),
            FromEditorMessage::ExportUnarm => (s, e, false, p),
            FromEditorMessage::SetExportPath(q) => (s, e, x, q),
        }
    }
}

/// What has to be done outside the exporter for the editor's messages, in order.
pub open spec fn ui_actions(msgs: Seq<FromEditorMessage>, cs: i64) -> Seq<ExporterAction>
    decreases msgs.len(),
{
    if msgs.len() == 0 {
        Seq::empty()
    } else {
        let rest = ui_actions(msgs.drop_last(), cs);
        match msgs.last() {
            FromEditorMessage::SetSceneStart => rest.push(ExporterAction::SceneStartSet(cs)),
            FromEditorMessage::SetSceneEnd => rest.push(ExporterAction::SceneEndSet(cs)),
            FromEditorMessage::ExportArm => rest,
            FromEditorMessage::ExportUnarm => rest,
            FromEditorMessage::SetExportPath(q) => rest.push(ExporterAction::ExportPathSet(q)),
        }
    }
}

/// The exporter's state between processing blocks.
pub struct SceneExporter<T> {
    pub sample_rate: u64,
    pub previous_sample_pos: i64,
    pub current: BTreeMap<u16, Changes<T>>,
    pub record_map: BTreeMap<i64, BTreeMap<u16, Changes<T>>>,
    pub was_playing: bool,
    pub exporting: bool,
    pub was_in_export_range: bool,
    pub export_path: std::path::PathBuf,
    pub scene_start: i64,
    pub scene_end: i64,
}

impl<T: Copy> SceneExporter<T> {
    /// A fresh exporter: nothing recorded, not armed, scene from sample zero to zero.
    pub fn new(export_path: std::path::PathBuf) -> (e: Self)
        ensures
            e.sample_rate == 0,
            e.previous_sample_pos == 0,
            e.current@ == Map::<u16, Changes<T>>::empty(),
            e.record_map@ == Map::<i64, BTreeMap<u16, Changes<T>>>::empty(),
            !e.was_playing,
            !e.exporting,
            !e.was_in_export_range,
            e.export_path == export_path,
            e.scene_start == 0,
            e.scene_end == 0,
    {
        SceneExporter {
            sample_rate: 0,
            previous_sample_pos: 0,
            current: BTreeMap::new(),
            record_map: BTreeMap::new(),
            was_playing: false,
            exporting: false,
            was_in_export_range: false,
            export_path,
            scene_start: 0,
            scene_end: 0,
        }
    }

    /// Takes the scene range stored with the plugin's state.
    pub fn initialize(&mut self, scene_start: i64, scene_end: i64)
        ensures
            *final(self) == (SceneExporter { scene_start, scene_end, ..*old(self) }),
    {
        self.scene_start = scene_start;
        self.scene_end = scene_end;
    }

    /// Follows a message about a source in the current state of the sources.
    pub fn add_current_event(&mut self, source: u16, event: Message<T>)
        ensures
            final(self).current@ == with_event(old(self).current@, source, event),
            *final(self) == (SceneExporter { current: final(self).current, ..*old(self) }),
    {
        proof {
            lemma_keys_ordered();
        }
        let mut c = match self.current.remove(&source) {
            Some(c) => c,
            None => Changes::new(),
        };
        c.apply_message(event);
        self.current.insert(source, c);
        assert(self.current@ =~= with_event(old(self).current@, source, event));
    }

    /// Records a message about a source at a sample.
    pub fn record_event(&mut self, sample: i64, source: u16, event: Message<T>)
        ensures
            record_view(final(self).record_map@) == record_view(old(self).record_map@).insert(
                sample,
                with_event(sample_at(record_view(old(self).record_map@), sample), source, event),
            ),
            *final(self) == (SceneExporter { record_map: final(self).record_map, ..*old(self) }),
    {
        proof {
            lemma_keys_ordered();
        }
        let ghost before = record_view(self.record_map@);
        let mut inner = match self.record_map.remove(&sample) {
            Some(m) => m,
            None => BTreeMap::new(),
        };
        assert(inner@ == sample_at(before, sample));
        let mut c = match inner.remove(&source) {
            Some(c) => c,
            None => Changes::new(),
        };
        c.apply_message(event);
        inner.insert(source, c);
        assert(inner@ =~= with_event(sample_at(before, sample), source, event));
        self.record_map.insert(sample, inner);
        assert(record_view(self.record_map@) =~= before.insert(
            sample,
            with_event(sample_at(before, sample), source, event),
        ));
    }
}

impl<T: Copy> SceneExporter<T> {
    /// Copies the current state of every source into the record at sample `at`,
    /// over whatever is recorded there for the same sources.
    pub fn snapshot_current(&mut self, at: i64)
        ensures
            record_view(final(self).record_map@) == record_view(old(self).record_map@).insert(
                at,
                sample_at(record_view(old(self).record_map@), at).union_prefer_right(
                    old(self).current@,
                ),
            ),
            *final(self) == (SceneExporter { record_map: final(self).record_map, ..*old(self) }),
    {
        proof {
            lemma_keys_ordered();
        }
        let ghost before = record_view(self.record_map@);
        let mut inner = match self.record_map.remove(&at) {
            Some(m) => m,
            None => BTreeMap::new(),
        };
        let ghost base = inner@;
        assert(base == sample_at(before, at));
        let ghost cur = self.current@;
        let ghost mut done: Map<u16, Changes<T>> = Map::empty();
        for kv in it: self.current.iter()
            invariant
                inner@ == base.union_prefer_right(done),
                forall|i: int| 0 <= i < it.seq().len() ==> cur.contains_key(*it.seq()[i].0)
                    && cur[*it.seq()[i].0] == *it.seq()[i].1,
                forall|k: u16| #[trigger] done.contains_key(k) ==> cur.contains_key(k) && done[k] == cur[k],
                forall|k: u16| #[trigger] cur.contains_key(k) ==> done.contains_key(k) || exists|j: int|
                    it.index() <= j < it.seq().len() && *it.seq()[j].0 == k,
        {
            let (id, c) = kv;
            proof {
                done = done.insert(*id, *c);
            }
            inner.insert(*id, *c);
            assert(inner@ =~= base.union_prefer_right(done));
        }
        assert(done =~= cur);
        self.record_map.insert(at, inner);
        assert(record_view(self.record_map@) =~= before.insert(
            at,
            sample_at(before, at).union_prefer_right(cur),
        ));
    }
}

impl<T: Copy> SceneExporter<T> {
    /// Moves the scene start to `sample`.
    pub fn set_scene_start(&mut self, sample: i64) -> (action: ExporterAction)
        ensures
            *final(self) == (SceneExporter { scene_start: sample, ..*old(self) }),
            action == ExporterAction::SceneStartSet(sample),
    {
        self.scene_start = sample;
        ExporterAction::SceneStartSet(sample)
    }

    /// Moves the scene end to `sample`.
    pub fn set_scene_end(&mut self, sample: i64) -> (action: ExporterAction)
        ensures
            *final(self) == (SceneExporter { scene_end: sample, ..*old(self) }),
            action == ExporterAction::SceneEndSet(sample),
    {
        self.scene_end = sample;
        ExporterAction::SceneEndSet(sample)
    }

    /// Makes `path` the export path.
    pub fn set_export_path(&mut self, path: std::path::PathBuf) -> (action: ExporterAction)
        ensures
            *final(self) == (SceneExporter { export_path: path, ..*old(self) }),
            action == ExporterAction::ExportPathSet(path),
    {
        let copy = clone_path(&path);
        self.export_path = path;
        ExporterAction::ExportPathSet(copy)
    }

    /// Disarms the export.
    pub fn unarm_export(&mut self) -> (action: ExporterAction)
        ensures
            *final(self) == (SceneExporter { exporting: false, ..*old(self) }),
            action == ExporterAction::ExportUnarmed,
    {
        self.exporting = false;
        ExporterAction::ExportUnarmed
    }

    /// Takes in the editor's messages in order, with `current_sample` the sample the
    /// block starts at. Returns what has to be done outside, in order.
    pub fn apply_ui_messages(&mut self, msgs: Vec<FromEditorMessage>, current_sample: i64) -> (actions:
        Vec<ExporterAction>)
        ensures
            (final(self).scene_start, final(self).scene_end, final(self).exporting,
                final(self).export_path) == settings_after(
                old(self).scene_start,
                old(self).scene_end,
                old(self).exporting,
                old(self).export_path,
                msgs@,
                current_sample,
            ),
            actions@ == ui_actions(msgs@, current_sample),
            final(self).current == old(self).current,
            final(self).record_map == old(self).record_map,
            final(self).sample_rate == old(self).sample_rate,
            final(self).previous_sample_pos == old(self).previous_sample_pos,
            final(self).was_playing == old(self).was_playing,
            final(self).was_in_export_range == old(self).was_in_export_range,
    {
        let mut msgs = msgs;
        let ghost all = msgs@;
        assert(all.len() == msgs.len());
        let mut actions: Vec<ExporterAction> = Vec::new();
        let mut i: usize = 0;
        while msgs.len() > 0
            invariant
                i <= all.len(),
                all.len() <= usize::MAX,
                msgs@ == all.skip(i as int),
                (self.scene_start, self.scene_end, self.exporting, self.export_path)
                    == settings_after(
                    old(self).scene_start,
                    old(self).scene_end,
                    old(self).exporting,
                    old(self).export_path,
                    all.take(i as int),
                    current_sample,
                ),
                actions@ == ui_actions(all.take(i as int), current_sample),
                self.current == old(self).current,
                self.record_map == old(self).record_map,
                self.sample_rate == old(self).sample_rate,
                self.previous_sample_pos == old(self).previous_sample_pos,
                self.was_playing == old(self).was_playing,
                self.was_in_export_range == old(self).was_in_export_range,
            decreases msgs.len(),
        {
            let msg = msgs.remove(0);
            assert(all.take(i + 1).drop_last() =~= all.take(i as int));
            assert(all.take(i + 1).last() == all[i as int]);
            match msg {
                FromEditorMessage::SetSceneStart => {
                    let a = self.set_scene_start(current_sample);
                    actions.push(a);
                },
                FromEditorMessage::SetSceneEnd => {
                    let a = self.set_scene_end(current_sample);
                    actions.push(a);
                },
                FromEditorMessage::ExportArm => self.exporting = true,
                FromEditorMessage::ExportUnarm => self.exporting = false,
                FromEditorMessage::SetExportPath(path) => {
                    let a = self.set_export_path(path);
                    actions.push(a);
                },
            }
            i = i + 1;
            assert(msgs@ =~= all.skip(i as int));
        }
        assert(all.take(i as int) =~= all);
        actions
    }
}

/// Whether a sample lies in the scene range, ends included.
pub open spec fn in_scene(start: i64, end: i64, sample: i64) -> bool {
    start <= sample && sample <= end
}

impl<T: Copy> SceneExporter<T> {
    /// One processing block that starts at `current_sample`, with the editor's
    /// messages and the SPE bundles of the block (each with its offset into it).
    ///
    /// When playback has just started, everything followed and recorded so far is
    /// dropped. The editor's messages are taken in next. When the block start has
    /// just entered the scene range, the current state of all sources is copied
    /// into the record at the scene start. Every bundle updates the current state,
    /// and while the export is armed and the block start lies in the scene range it
    /// is recorded too, at the block start plus its offset. Once the block start
    /// reaches the scene end with the export armed, the export is disarmed and the
    /// record has to be written. Returns what has to be done outside, in order.
    pub fn process(
        &mut self,
        sample_rate: u64,
        current_sample: i64,
        is_playing: bool,
        ui_msgs: Vec<FromEditorMessage>,
        events: &Vec<(u32, SpeBundle<T>)>,
    ) -> (actions: Vec<ExporterAction>)
        requires
            forall|i: int| 0 <= i < events.len() ==> current_sample + #[trigger] events@[i].0 <= i64::MAX,
        ensures
            ({
                let jp = !old(self).was_playing && is_playing;
                let cur0 = if jp {
                    Map::<u16, Changes<T>>::empty()
                } else {
                    old(self).current@
                };
                let rec0 = if jp {
                    Map::<i64, Map<u16, Changes<T>>>::empty()
                } else {
                    record_view(old(self).record_map@)
                };
                let st = settings_after(
                    old(self).scene_start,
                    old(self).scene_end,
                    old(self).exporting,
                    old(self).export_path,
                    ui_msgs@,
                    current_sample,
                );
                let in_range = in_scene(st.0, st.1, current_sample);
                let rec1 = if !old(self).was_in_export_range && in_range {
                    rec0.insert(st.0, sample_at(rec0, st.0).union_prefer_right(cur0))
                } else {
                    rec0
                };
                let finish = st.2 && current_sample >= st.1;
                &&& final(self).current@ == current_after(cur0, events@)
                &&& record_view(final(self).record_map@) == if st.2 && in_range {
                    record_after(rec1, current_sample, events@)
                } else {
                    rec1
                }
                &&& final(self).scene_start == st.0
                &&& final(self).scene_end == st.1
                &&& final(self).export_path == st.3
                &&& final(self).exporting == (st.2 && !finish)
                &&& final(self).was_in_export_range == in_range
                &&& final(self).was_playing == is_playing
                &&& final(self).previous_sample_pos == current_sample
                &&& final(self).sample_rate == sample_rate
                &&& actions@ == ui_actions(ui_msgs@, current_sample) + if finish {
                    seq![ExporterAction::ExportUnarmed, ExporterAction::WriteRecord]
                } else {
                    Seq::empty()
                }
            }),
    {
        self.sample_rate = sample_rate;
        let just_started_playing = !self.was_playing && is_playing;
        if just_started_playing {
            self.current.clear();
            self.record_map.clear();
            assert(record_view(self.record_map@) =~= Map::<i64, Map<u16, Changes<T>>>::empty());
        }
        let mut actions = self.apply_ui_messages(ui_msgs, current_sample);
        let starting_sample = self.scene_start;
        let ending_sample = self.scene_end;
        let in_export_range = starting_sample <= current_sample && current_sample <= ending_sample;
        let just_entered_export_range = !self.was_in_export_range && in_export_range;
        if just_entered_export_range {
            self.snapshot_current(starting_sample);
        }
        let ghost cur1 = self.current@;
        let ghost rec1 = record_view(self.record_map@);
        let ghost s1 = *self;
        let recording = self.exporting && in_export_range;
        let mut i: usize = 0;
        while i < events.len()
            invariant
                i <= events.len(),
                forall|j: int| 0 <= j < events.len() ==> current_sample + #[trigger] events@[j].0 <= i64::MAX,
                recording == (self.exporting && in_export_range),
                self.current@ == current_after(cur1, events@.take(i as int)),
                record_view(self.record_map@) == if recording {
                    record_after(rec1, current_sample, events@.take(i as int))
                } else {
                    rec1
                },
                self.exporting == s1.exporting,
                self.scene_start == s1.scene_start,
                self.scene_end == s1.scene_end,
                self.export_path == s1.export_path,
                self.sample_rate == s1.sample_rate,
                self.was_playing == s1.was_playing,
                self.was_in_export_range == s1.was_in_export_range,
            decreases events.len() - i,
        {
            let (offset, bundle) = events[i];
            assert(events@.take(i + 1).drop_last() =~= events@.take(i as int));
            assert(events@.take(i + 1).last() == events@[i as int]);
            let event_sample = current_sample + offset as i64;
            self.add_current_event(bundle.id, bundle.msg);
            if self.exporting && in_export_range {
                self.record_event(event_sample, bundle.id, bundle.msg);
            }
            i = i + 1;
        }
        assert(events@.take(events.len() as int) =~= events@);
        if self.exporting && current_sample >= ending_sample {
            let a = self.unarm_export();
            actions.push(a);
            actions.push(ExporterAction::WriteRecord);
        }
        self.was_in_export_range = in_export_range;
        self.was_playing = is_playing;
        self.previous_sample_pos = current_sample;
        actions
    }

    /// Empties the record, once it has been written.
    pub fn clear_record(&mut self)
        ensures
            final(self).record_map@ == Map::<i64, BTreeMap<u16, Changes<T>>>::empty(),
            *final(self) == (SceneExporter { record_map: final(self).record_map, ..*old(self) }),
    {
        self.record_map.clear();
    }
}

/// The changes of one source at one sample of a written record.
#[derive(Debug, Clone, Copy)]
pub struct Event<T> {
    pub id: u16,
    pub changes: Changes<T>,
}

/// All changes at one sample of a written record.
#[derive(Debug)]
pub struct Sample<T> {
    pub sample: i64,
    pub events: Vec<Event<T>>,
}

/// The events list exactly the changes of a sample, by increasing source ID.
pub open spec fn events_match<T>(evs: Seq<Event<T>>, m: Map<u16, Changes<T>>) -> bool {
    &&& forall|a: int, b: int| 0 <= a < b < evs.len() ==> evs[a].id < evs[b].id
    &&& forall|a: int|
        0 <= a < evs.len() ==> m.contains_key(#[trigger] evs[a].id) && m[evs[a].id]
            == evs[a].changes
    &&& forall|k: u16| #[trigger]
        m.contains_key(k) ==> exists|a: int| 0 <= a < evs.len() && evs[a].id == k
}

/// The samples list exactly the record, by increasing sample position.
pub open spec fn samples_match<T>(
    samples: Seq<Sample<T>>,
    r: Map<i64, Map<u16, Changes<T>>>,
) -> bool {
    &&& forall|a: int, b: int| 0 <= a < b < samples.len() ==> samples[a].sample < samples[b].sample
    &&& forall|a: int|
        0 <= a < samples.len() ==> r.contains_key(#[trigger] samples[a].sample) && events_match(
            samples[a].events@,
            r[samples[a].sample],
        )
    &&& forall|k: i64| #[trigger]
        r.contains_key(k) ==> exists|a: int| 0 <= a < samples.len() && samples[a].sample == k
}

/// The changes of one sample as a list by increasing source ID.
fn sample_events<T: Copy>(m: &BTreeMap<u16, Changes<T>>) -> (evs: Vec<Event<T>>)
    ensures
        events_match(evs@, m@),
{
    proof {
        lemma_keys_ordered();
    }
    let ghost mv = m@;
    let mut evs: Vec<Event<T>> = Vec::new();
    let iter = m.iter();
    proof {
        let ks = iter.remaining().map_values(|kv: (&u16, &Changes<T>)| *kv.0);
        assert(vstd::std_specs::btree::increasing_seq(ks));
        assert forall|a: int, b: int| 0 <= a < b < iter.remaining().len() implies *iter.remaining()[a].0
            < *iter.remaining()[b].0 by {
            assert(ks[a].cmp_spec(&ks[b]) is Less);
        }
    }
    for kv in it: iter
        invariant
            evs@.len() == it.index(),
            forall|i: int| 0 <= i < it.seq().len() ==> mv.contains_key(*it.seq()[i].0)
                && mv[*it.seq()[i].0] == *it.seq()[i].1,
            forall|a: int, b: int| 0 <= a < b < it.seq().len() ==> *it.seq()[a].0 < *it.seq()[b].0,
            forall|a: int| 0 <= a < evs@.len() ==> evs@[a].id == *it.seq()[a].0 && evs@[a].changes == *it.seq()[a].1,
            forall|k: u16| #[trigger] mv.contains_key(k) ==> exists|j: int|
                0 <= j < it.seq().len() && *it.seq()[j].0 == k,
    {
        let (id, changes) = kv;
        evs.push(Event { id: *id, changes: *changes });
    }
    evs
}

impl<T: Copy> SceneExporter<T> {
    /// The record as the list a record file holds: samples by increasing position,
    /// each with its changes by increasing source ID.
    pub fn record_samples(&self) -> (samples: Vec<Sample<T>>)
        ensures
            samples_match(samples@, record_view(self.record_map@)),
    {
        proof {
            lemma_keys_ordered();
        }
        let ghost rv = record_view(self.record_map@);
        let mut samples: Vec<Sample<T>> = Vec::new();
        let iter = self.record_map.iter();
        proof {
            let ks = iter.remaining().map_values(|kv: (&i64, &BTreeMap<u16, Changes<T>>)| *kv.0);
            assert(vstd::std_specs::btree::increasing_seq(ks));
            assert forall|a: int, b: int| 0 <= a < b < iter.remaining().len() implies *iter.remaining()[a].0
                < *iter.remaining()[b].0 by {
                assert(ks[a].cmp_spec(&ks[b]) is Less);
            }
        }
        for kv in it: iter
            invariant
                rv == record_view(self.record_map@),
                samples@.len() == it.index(),
                forall|i: int| 0 <= i < it.seq().len() ==> self.record_map@.contains_key(*it.seq()[i].0)
                    && self.record_map@[*it.seq()[i].0] == *it.seq()[i].1,
                forall|a: int, b: int| 0 <= a < b < it.seq().len() ==> *it.seq()[a].0 < *it.seq()[b].0,
                forall|a: int| 0 <= a < samples@.len() ==> samples@[a].sample == *it.seq()[a].0
                    && events_match(samples@[a].events@, rv[samples@[a].sample]),
                forall|k: i64| #[trigger] self.record_map@.contains_key(k) ==> exists|j: int|
                    0 <= j < it.seq().len() && *it.seq()[j].0 == k,
        {
            let (sample, events) = kv;
            let evs = sample_events(events);
            samples.push(Sample { sample: *sample, events: evs });
        }
        samples
    }
}

/// What each editor message does to the exporter's settings, on top of the messages
/// before it: a scene button moves that end of the scene to the block's sample, arm
/// and unarm set the arming, a path replaces the export path, and every other
/// setting stays as the earlier messages left it.
pub proof fn lemma_settings_message_step(
    start: i64,
    end: i64,
    exporting: bool,
    path: std::path::PathBuf,
    msgs: Seq<FromEditorMessage>,
    m: FromEditorMessage,
    cs: i64,
)
    ensures
        ({
            let before = settings_after(start, end, exporting, path, msgs, cs);
            let after = settings_after(start, end, exporting, path, msgs.push(m), cs);
            match m {
                FromEditorMessage::SetSceneStart => after == (cs, before.1, before.2, before.3),
                FromEditorMessage::SetSceneEnd => after == (before.0, cs, before.2, before.3),
                FromEditorMessage::ExportArm => after == (before.0, before.1, true, before.3),
                FromEditorMessage::ExportUnarm => after == (before.0, before.1, false, before.3),
                FromEditorMessage::SetExportPath(q) => after == (before.0, before.1, before.2, q),
            }
        }),
{
    assert(msgs.push(m).drop_last() =~= msgs);
}

/// An unarm message from the editor always leaves the export disarmed, whatever
/// came before it; then the block records nothing and asks for no file.
pub proof fn lemma_unarm_disarms(
    start: i64,
    end: i64,
    exporting: bool,
    path: std::path::PathBuf,
    msgs: Seq<FromEditorMessage>,
    cs: i64,
)
    ensures
        settings_after(start, end, exporting, path, msgs.push(FromEditorMessage::ExportUnarm), cs).2
            == false,
{
    lemma_settings_message_step(start, end, exporting, path, msgs, FromEditorMessage::ExportUnarm, cs);
}

/// What each editor message adds to the list of things to do outside: a scene
/// button asks to store the new end of the scene (at the block's sample), a path asks
/// to store and announce that path, and arming or unarming asks for nothing.
pub proof fn lemma_ui_actions_step(msgs: Seq<FromEditorMessage>, m: FromEditorMessage, cs: i64)
    ensures
        ui_actions(msgs.push(m), cs) == match m {
            FromEditorMessage::SetSceneStart => ui_actions(msgs, cs).push(
                ExporterAction::SceneStartSet(cs),
            ),
            FromEditorMessage::SetSceneEnd => ui_actions(msgs, cs).push(
                ExporterAction::SceneEndSet(cs),
            ),
            FromEditorMessage::ExportArm => ui_actions(msgs, cs),
            FromEditorMessage::ExportUnarm => ui_actions(msgs, cs),
            FromEditorMessage::SetExportPath(q) => ui_actions(msgs, cs).push(
                ExporterAction::ExportPathSet(q),
            ),
        },
{
    assert(msgs.push(m).drop_last() =~= msgs);
}

/// The changes of one source after the messages of a bundle list that are about it,
/// in list order; bundles about other sources leave them alone.
pub open spec fn changes_after<T>(c: Changes<T>, events: Seq<(u32, SpeBundle<T>)>, k: u16) -> Changes<
    T,
>
    decreases events.len(),
{
    if events.len() == 0 {
        c
    } else {
        let r = changes_after(c, events.drop_last(), k);
        if events.last().1.id == k {
            r.applied(events.last().1.msg)
        } else {
            r
        }
    }
}

/// Following a block's bundles gives every source exactly the messages about it, in
/// order, on top of its state before the block; a source is followed afterwards
/// exactly when it was before or a bundle of the block is about it.
pub proof fn lemma_current_after_per_source<T>(
    cur: Map<u16, Changes<T>>,
    events: Seq<(u32, SpeBundle<T>)>,
    k: u16,
)
    ensures
        changes_at(current_after(cur, events), k) == changes_after(changes_at(cur, k), events, k),
        current_after(cur, events).contains_key(k) <==> (cur.contains_key(k) || exists|j: int|
            0 <= j < events.len() && (#[trigger] events[j]).1.id == k),
    decreases events.len(),
{
    if events.len() > 0 {
        let rest = events.drop_last();
        lemma_current_after_per_source(cur, rest, k);
        if exists|j: int| 0 <= j < rest.len() && (#[trigger] rest[j]).1.id == k {
            let j = choose|j: int| 0 <= j < rest.len() && (#[trigger] rest[j]).1.id == k;
            assert(events[j] == rest[j]);
        }
        if exists|j: int| 0 <= j < events.len() && (#[trigger] events[j]).1.id == k {
            let j = choose|j: int| 0 <= j < events.len() && (#[trigger] events[j]).1.id == k;
            if j < rest.len() {
                assert(rest[j] == events[j]);
            }
        }
    }
}

/// The changes recorded for source `k` at sample `s` after a list of bundles, each
/// recorded at `first` plus its offset: the messages about `k` whose sample is `s`,
/// applied in list order.
pub open spec fn recorded_after<T>(
    c: Changes<T>,
    first: i64,
    events: Seq<(u32, SpeBundle<T>)>,
    s: i64,
    k: u16,
) -> Changes<T>
    decreases events.len(),
{
    if events.len() == 0 {
        c
    } else {
        let r = recorded_after(c, first, events.drop_last(), s, k);
        let e = events.last();
        if (first + e.0) as i64 == s && e.1.id == k {
            r.applied(e.1.msg)
        } else {
            r
        }
    }
}

/// Recording a block's bundles adds to the changes of each source at each sample
/// exactly the messages about that source that fall on that sample, in order; no
/// other entry of the record changes.
pub proof fn lemma_record_after_per_entry<T>(
    rec: Map<i64, Map<u16, Changes<T>>>,
    first: i64,
    events: Seq<(u32, SpeBundle<T>)>,
    s: i64,
    k: u16,
)
    ensures
        changes_at(sample_at(record_after(rec, first, events), s), k) == recorded_after(
            changes_at(sample_at(rec, s), k),
            first,
            events,
            s,
            k,
        ),
    decreases events.len(),
{
    if events.len() > 0 {
        lemma_record_after_per_entry(rec, first, events.drop_last(), s, k);
    }
}

} // verus!
