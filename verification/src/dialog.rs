//! What the editor's modal dialogs do when their buttons are clicked.
//!
//! A dialog closes when one of its buttons ends it or when the modal itself
//! asks to close (Escape or a click outside).
use crate::file_name::{file_name_is_valid, file_name_ok, is_blank, is_blank_spec};
use crate::tracks::TrackType;
use uuid::Uuid;
use vstd::prelude::*;

verus! {

/// A dialog that the editor is asked to show. `P` is the type of paths.
pub enum DialogType<P> {
    AddTrack,
    /// Ask before replacing the file shown in a code editor panel.
    ChangeCodeBuffer { panel_id: Uuid, path: P },
    /// Ask before closing a modified code buffer.
    CloseCodeBuffer { panel_id: Uuid },
    RenameFile { path: P },
}

/// The dialog shown, with what the user has typed into it.
pub enum DialogState<P> {
    /// No dialog is shown.
    Closed,
    AddTrack { selected_track_type: TrackType, name: String },
    ChangeCodeBuffer { panel_id: Uuid, path: P },
    CloseCodeBuffer { panel_id: Uuid },
    RenameFile { path: P, new_name: String },
}

impl<P> DialogState<P> {
    /// Opens the dialog asked for. The track dialog starts on an audio track
    /// with an empty name; the rename dialog starts from `initial_name`, the
    /// current name of the item.
    pub fn open(dialog_type: DialogType<P>, initial_name: String) -> (state: Self)
        ensures
            match dialog_type {
                DialogType::AddTrack => state matches DialogState::AddTrack { selected_track_type, name }
                    && selected_track_type == TrackType::Audio && name@.len() == 0,
                DialogType::ChangeCodeBuffer { panel_id, path } => state == DialogState::ChangeCodeBuffer {
                    panel_id,
                    path,
                },
                DialogType::CloseCodeBuffer { panel_id } => state == DialogState::<P>::CloseCodeBuffer { panel_id },
                DialogType::RenameFile { path } => state matches DialogState::RenameFile { path: p, new_name }
                    && p == path && new_name@ == initial_name@,
            },
    {
        match dialog_type {
            DialogType::AddTrack => DialogState::AddTrack {
                selected_track_type: TrackType::Audio,
                name: String::new(),
            },
            DialogType::ChangeCodeBuffer { panel_id, path } => DialogState::ChangeCodeBuffer { panel_id, path },
            DialogType::CloseCodeBuffer { panel_id } => DialogState::CloseCodeBuffer { panel_id },
            DialogType::RenameFile { path } => DialogState::RenameFile { path, new_name: initial_name },
        }
    }
}

/// The button clicked in the "Unsaved Changes" dialog shown before closing
/// a modified code buffer.
#[derive(Clone, Copy, Debug, PartialEq, Eq, Structural)]
pub enum UnsavedChangesButton {
    NoClick,
    Cancel,
    DontSave,
    Save,
}

/// An action queued on the code buffer of the panel.
#[derive(Clone, Copy, Debug, PartialEq, Eq, Structural)]
pub enum CodeBufferAction {
    Save,
    Close,
}

/// The actions queued by the "Unsaved Changes" dialog and whether it closes.
pub open spec fn unsaved_changes_spec(button: UnsavedChangesButton, modal_closing: bool) -> (Seq<CodeBufferAction>, bool) {
    match button {
        UnsavedChangesButton::NoClick => (Seq::empty(), modal_closing),
        UnsavedChangesButton::Cancel => (Seq::empty(), true),
        UnsavedChangesButton::DontSave => (seq![CodeBufferAction::Close], true),
        UnsavedChangesButton::Save => (seq![CodeBufferAction::Save, CodeBufferAction::Close], true),
    }
}

/// Decides the "Unsaved Changes" dialog: "Don't Save" closes the buffer,
/// "Save" saves then closes it, "Cancel" does nothing; each ends the dialog.
pub fn unsaved_changes_outcome(button: UnsavedChangesButton, modal_closing: bool) -> (res: (Vec<CodeBufferAction>, bool))
    ensures
        (res.0@, res.1) == unsaved_changes_spec(button, modal_closing),
{
    let mut actions: Vec<CodeBufferAction> = Vec::new();
    let close = match button {
        UnsavedChangesButton::NoClick => modal_closing,
        UnsavedChangesButton::Cancel => true,
        UnsavedChangesButton::DontSave => {
            actions.push(CodeBufferAction::Close);
            true
        },
        UnsavedChangesButton::Save => {
            actions.push(CodeBufferAction::Save);
            actions.push(CodeBufferAction::Close);
            true
        },
    };
    assert(actions@ =~= unsaved_changes_spec(button, modal_closing).0);
    (actions, close)
}

/// What the "Rename Item" dialog does this frame.
#[derive(Clone, Copy, Debug, PartialEq, Eq, Structural)]
pub struct RenameOutcome {
    /// Whether the "Rename" button is enabled.
    pub rename_enabled: bool,
    /// Whether to move the item to its new name in the same directory, then
    /// refresh the cached file tree.
    pub move_item: bool,
    /// Whether the dialog closes.
    pub close: bool,
}

/// Decides the "Rename Item" dialog on a platform whose path separator is
/// `separator`. The "Rename" button is enabled when the typed name is a
/// valid file name (not blank, no separator, no leading dot); a click on it
/// moves the item when it has a parent directory (and otherwise does
/// nothing, leaving the dialog open); "Cancel" closes the dialog.
pub fn rename_outcome(
    new_name: &str,
    separator: char,
    cancel_clicked: bool,
    rename_clicked: bool,
    has_parent: bool,
    modal_closing: bool,
) -> (res: RenameOutcome)
    ensures
        res.rename_enabled == file_name_ok(new_name@, separator),
        res.move_item == (res.rename_enabled && rename_clicked && has_parent),
        res.close == (cancel_clicked || res.move_item || modal_closing),
{
    let rename_enabled = file_name_is_valid(new_name, separator);
    let move_item = rename_enabled && rename_clicked && has_parent;
    RenameOutcome { rename_enabled, move_item, close: cancel_clicked || move_item || modal_closing }
}

/// What the "Add Track" dialog does this frame.
#[derive(Clone, Copy, Debug, PartialEq, Eq, Structural)]
pub struct AddTrackOutcome {
    /// Whether the "Create Track" button is enabled.
    pub create_enabled: bool,
    /// Whether to add a track of the chosen kind with the typed name.
    pub add_track: bool,
    /// Whether the dialog closes.
    pub close: bool,
}

/// Decides the "Add Track" dialog: "Create Track" is enabled when the name
/// is not blank and adds the track; it and "Cancel" both close the dialog.
pub fn add_track_outcome(name: &str, cancel_clicked: bool, create_clicked: bool, modal_closing: bool) -> (res: AddTrackOutcome)
    ensures
        res.create_enabled == !is_blank_spec(name@),
        res.add_track == (res.create_enabled && create_clicked),
        res.close == (cancel_clicked || res.add_track || modal_closing),
{
    let create_enabled = !is_blank(name);
    let add_track = create_enabled && create_clicked;
    AddTrackOutcome { create_enabled, add_track, close: cancel_clicked || add_track || modal_closing }
}

} // verus!
