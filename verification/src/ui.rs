//! The scene exporter's editor: the messages it exchanges with the plugin and
//! how it reacts to the buttons the user presses.
use vstd::prelude::*;

verus! {

/// A file system path, carried through unchanged.
#[verifier::external_type_specification]
#[verifier::external_body]
pub struct ExPathBuf(std::path::PathBuf);

/// Messages from the editor to the plugin.
#[derive(Debug)]
pub enum FromEditorMessage {
    SetSceneStart,
    SetSceneEnd,
    ExportArm,
    ExportUnarm,
    SetExportPath(std::path::PathBuf),
}

/// Messages from the plugin to the editor.
#[derive(Debug)]
pub enum ToEditorMessage {
    ExportUnarm,
    SetExportPath(std::path::PathBuf),
}

/// What the user did in the editor.
#[derive(Debug, Clone, Copy, PartialEq, Eq, Structural)]
pub enum UiMessage {
    SetSceneStart,
    SetSceneEnd,
    SetExportPath,
    ExportScene,
    Poll,
}

/// What the editor has to do after reacting to a user action.
#[derive(Debug)]
pub enum UiAction {
    /// Send this message to the plugin.
    Send(FromEditorMessage),
    /// Ask the user for an export path, off the UI thread.
    PickTarget,
    /// Take in every message the plugin has sent.
    DrainMessages,
}

/// The editor's own state: where to export to, and whether an export is armed.
pub struct State {
    pub export_path: std::path::PathBuf,
    pub exporting: bool,
}

/// The editor state after taking in the plugin's messages in order: the last
/// path sent becomes the export path, and an unarm message disarms the export.
pub open spec fn after_editor_messages(
    path: std::path::PathBuf,
    exporting: bool,
    msgs: Seq<ToEditorMessage>,
) -> (std::path::PathBuf, bool)
    decreases msgs.len(),
{
    if msgs.len() == 0 {
        (path, exporting)
    } else {
        let (p, e) = after_editor_messages(path, exporting, msgs.drop_last());
        match msgs.last() {
            ToEditorMessage::ExportUnarm => (p, false),
            ToEditorMessage::SetExportPath(q) => (q, e),
        }
    }
}

/// The arming after a user action: pressing export toggles it, nothing else touches it.
pub open spec fn exporting_after(exporting: bool, event: UiMessage) -> bool {
    if event == UiMessage::ExportScene {
        !exporting
    } else {
        exporting
    }
}

/// The action the editor takes for a user action, given the arming before it.
pub open spec fn ui_action_for(exporting: bool, event: UiMessage, action: UiAction) -> bool {
    match event {
        UiMessage::SetExportPath => action is PickTarget,
        UiMessage::ExportScene => if exporting {
            action matches UiAction::Send(FromEditorMessage::ExportUnarm)
        } else {
            action matches UiAction::Send(FromEditorMessage::ExportArm)
        },
        UiMessage::SetSceneStart => action matches UiAction::Send(FromEditorMessage::SetSceneStart),
        UiMessage::SetSceneEnd => action matches UiAction::Send(FromEditorMessage::SetSceneEnd),
        UiMessage::Poll => action is DrainMessages,
    }
}

impl State {
    /// An editor state with the given path and arming.
    pub fn new(export_path: std::path::PathBuf, exporting: bool) -> (s: State)
        ensures
            s.export_path == export_path,
            s.exporting == exporting,
    {
        State { export_path, exporting }
    }

    /// Takes in the plugin's messages, in the order they were sent.
    pub fn update_with_messages(&mut self, msgs: Vec<ToEditorMessage>)
        ensures
            (final(self).export_path, final(self).exporting) == after_editor_messages(
                old(self).export_path,
                old(self).exporting,
                msgs@,
            ),
    {
        let mut msgs = msgs;
        let ghost all = msgs@;
        assert(all.len() == msgs.len());
        let mut i: usize = 0;
        while msgs.len() > 0
            invariant
                i <= all.len(),
                all.len() <= usize::MAX,
                msgs@ == all.skip(i as int),
                (self.export_path, self.exporting) == after_editor_messages(
                    old(self).export_path,
                    old(self).exporting,
                    all.take(i as int),
                ),
            decreases msgs.len(),
        {
            let msg = msgs.remove(0);
            assert(all.take(i + 1).drop_last() =~= all.take(i as int));
            assert(all.take(i + 1).last() == all[i as int]);
            match msg {
                ToEditorMessage::ExportUnarm => self.exporting = false,
                ToEditorMessage::SetExportPath(path) => self.export_path = path,
            }
            i = i + 1;
            assert(msgs@ =~= all.skip(i as int));
        }
        assert(all.take(i as int) =~= all);
    }

    /// Reacts to what the user did: pressing export toggles the arming and tells the
    /// plugin, the scene buttons are passed on to the plugin, choosing a path opens a
    /// picker, and a poll takes in the plugin's messages.
    pub fn update(&mut self, event: UiMessage) -> (action: UiAction)
        ensures
            final(self).export_path == old(self).export_path,
            final(self).exporting == exporting_after(old(self).exporting, event),
            ui_action_for(old(self).exporting, event, action),
    {
        match event {
            UiMessage::SetExportPath => UiAction::PickTarget,
            UiMessage::ExportScene => {
                if self.exporting {
                    self.exporting = false;
                    return UiAction::Send(FromEditorMessage::ExportUnarm);
                }
                self.exporting = true;
                UiAction::Send(FromEditorMessage::ExportArm)
            },
            UiMessage::SetSceneStart => UiAction::Send(FromEditorMessage::SetSceneStart),
            UiMessage::SetSceneEnd => UiAction::Send(FromEditorMessage::SetSceneEnd),
            UiMessage::Poll => UiAction::DrainMessages,
        }
    }
}

/// Pressing export twice leaves the arming as it was; of the two presses one
/// arms and the other disarms, starting with whichever the arming called for.
pub proof fn lemma_export_toggle_twice(exporting: bool, a1: UiAction, a2: UiAction)
    requires
        ui_action_for(exporting, UiMessage::ExportScene, a1),
        ui_action_for(exporting_after(exporting, UiMessage::ExportScene), UiMessage::ExportScene, a2),
    ensures
        exporting_after(exporting_after(exporting, UiMessage::ExportScene), UiMessage::ExportScene)
            == exporting,
        !exporting ==> (a1 matches UiAction::Send(FromEditorMessage::ExportArm)) && (a2 matches UiAction::Send(FromEditorMessage::ExportUnarm)),
        exporting ==> (a1 matches UiAction::Send(FromEditorMessage::ExportUnarm)) && (a2 matches UiAction::Send(FromEditorMessage::ExportArm)),
{
}

/// After the plugin has sent an unarm message, and only a path after it, the editor
/// shows the export as disarmed.
pub proof fn lemma_unarm_message_disarms(
    path: std::path::PathBuf,
    exporting: bool,
    msgs: Seq<ToEditorMessage>,
)
    requires
        msgs.len() > 0,
        msgs.last() is ExportUnarm,
    ensures
        after_editor_messages(path, exporting, msgs).1 == false,
{
}

/// What each message from the plugin does to the editor's state, on top of the
/// messages before it: a path replaces the export path and leaves the arming as it
/// was; an unarm message disarms and leaves the path as it was.
pub proof fn lemma_editor_message_step(
    path: std::path::PathBuf,
    exporting: bool,
    msgs: Seq<ToEditorMessage>,
    m: ToEditorMessage,
)
    ensures
        ({
            let before = after_editor_messages(path, exporting, msgs);
            let after = after_editor_messages(path, exporting, msgs.push(m));
            match m {
                ToEditorMessage::SetExportPath(q) => after == (q, before.1),
                ToEditorMessage::ExportUnarm => after == (before.0, false),
            }
        }),
{
    assert(msgs.push(m).drop_last() =~= msgs);
}

/// The editor shows the export as armed after the plugin's messages exactly when it
/// was armed before them and none of them was an unarm message; path messages never
/// change the arming.
pub proof fn lemma_editor_arming_after_messages(
    path: std::path::PathBuf,
    exporting: bool,
    msgs: Seq<ToEditorMessage>,
)
    ensures
        after_editor_messages(path, exporting, msgs).1 == (exporting && !exists|i: int|
            0 <= i < msgs.len() && (#[trigger] msgs[i]) is ExportUnarm),
    decreases msgs.len(),
{
    if msgs.len() > 0 {
        let rest = msgs.drop_last();
        lemma_editor_arming_after_messages(path, exporting, rest);
        lemma_editor_message_step(path, exporting, rest, msgs.last());
        assert(rest.push(msgs.last()) =~= msgs);
        if exists|i: int| 0 <= i < rest.len() && (#[trigger] rest[i]) is ExportUnarm {
            let i = choose|i: int| 0 <= i < rest.len() && (#[trigger] rest[i]) is ExportUnarm;
            assert(msgs[i] == rest[i]);
        }
        if exists|i: int| 0 <= i < msgs.len() && (#[trigger] msgs[i]) is ExportUnarm {
            let i = choose|i: int| 0 <= i < msgs.len() && (#[trigger] msgs[i]) is ExportUnarm;
            if i < rest.len() {
                assert(rest[i] == msgs[i]);
            }
        }
    }
}

} // verus!
