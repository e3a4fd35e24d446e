use kadent::background::{status_message, BackgroundOutcome};
use kadent::dialog::{DialogState, DialogType, add_track_outcome, rename_outcome, unsaved_changes_outcome, CodeBufferAction, UnsavedChangesButton};
use kadent::edge_drag::{ghost_release_actions, update_edge_drag, EdgeAction, ReleaseTarget};
use kadent::editor::{edit_settled, AudioResultStep, EditorState, TransportCommand};
use kadent::keyboard::{keyboard_commands, removal_for, KeyCommand, KeyInput, RemoveAction, Selection};
use kadent::tracks::{choose_audio_track, plan_region_move, RegionMovePlan, TrackChoice, TrackType};

fn keys() -> KeyInput {
    KeyInput {
        wants_keyboard_input: false,
        delete: false,
        backspace: false,
        save: false,
        space: false,
        arrow_right: false,
        arrow_left: false,
    }
}

#[test]
fn modified_project_marks_an_edit() {
    let mut state: EditorState<u8, String> = EditorState::new();
    assert!(state.actions.last_edit_time.is_none());
    state.modified_project();
    assert!(state.actions.last_edit_time.is_some());
    // A fresh edit has not settled yet.
    assert!(!state.take_settled_edit());
    assert!(state.actions.last_edit_time.is_some());
    let earlier = std::time::Instant::now().checked_sub(std::time::Duration::from_millis(400));
    if earlier.is_none() {
        return;
    }
    state.actions.last_edit_time = earlier;
    assert!(state.take_settled_edit());
    assert!(state.actions.last_edit_time.is_none());
    assert!(!state.take_settled_edit());
}

#[test]
fn settle_threshold_is_strict() {
    assert!(!edit_settled(300_000_000));
    assert!(edit_settled(300_000_001));
    assert!(!edit_settled(0));
}

#[test]
fn one_export_at_a_time() {
    let mut state: EditorState<u8, String> = EditorState::new();
    assert!(state.actions.try_begin_export("a.wav".to_string()));
    assert!(!state.actions.try_begin_export("b.wav".to_string()));
    assert_eq!(state.actions.pending_export_path.as_deref(), Some("a.wav"));
    assert_eq!(state.actions.finish_export(), Some("a.wav".to_string()));
    assert_eq!(state.actions.finish_export(), None);
    assert!(state.actions.try_begin_export("b.wav".to_string()));
}

#[test]
fn transport_follows_sent_commands() {
    let mut state: EditorState<u8, String> = EditorState::new();
    state.transport_command_sent(TransportCommand::Play, false);
    assert!(!state.transport.is_playing);
    state.transport_command_sent(TransportCommand::Play, true);
    assert!(state.transport.is_playing);
    state.transport_command_sent(TransportCommand::Seek, true);
    assert!(state.transport.is_playing);
    state.transport_command_sent(TransportCommand::Pause, false);
    assert!(state.transport.is_playing);
    state.transport_command_sent(TransportCommand::Pause, true);
    assert!(!state.transport.is_playing);
}

type Sel = Selection<u32, u32, u32, u32>;
type Cmd = KeyCommand<u32, u32, u32, u32>;

#[test]
fn keyboard_shortcuts() {
    let all = KeyInput { delete: true, save: true, space: true, arrow_right: true, arrow_left: true, ..keys() };
    let region: Sel = Selection::Region(1, 2);
    assert_eq!(
        keyboard_commands(all, &region, false),
        vec![Cmd::Remove(RemoveAction::RemoveRegion(1, 2)), Cmd::SaveAll, Cmd::Play, Cmd::SeekToEnd, Cmd::SeekToStart]
    );
    let track: Sel = Selection::Track(1);
    assert_eq!(
        keyboard_commands(all, &track, true),
        vec![Cmd::SaveAll, Cmd::Pause, Cmd::SeekToEnd, Cmd::SeekToStart]
    );
    let focused = KeyInput { wants_keyboard_input: true, ..all };
    assert!(keyboard_commands(focused, &region, true).is_empty());
    let backspace = KeyInput { backspace: true, ..keys() };
    let note: Sel = Selection::Note(1, 2, 3);
    assert_eq!(keyboard_commands(backspace, &note, false), vec![Cmd::Remove(RemoveAction::RemoveNote(1, 2, 3))]);
    assert!(keyboard_commands(keys(), &region, false).is_empty());
    let nothing: Sel = Selection::Nothing;
    assert!(keyboard_commands(backspace, &nothing, false).is_empty());
}

#[test]
fn delete_removes_the_selection() {
    let node: Sel = Selection::Node(4, 5);
    let key: Sel = Selection::Keyframe(4, 5, 6);
    assert_eq!(removal_for(&node), Some(RemoveAction::RemoveNode(4, 5)));
    assert_eq!(removal_for(&key), Some(RemoveAction::RemoveKeyframe(4, 5, 6)));
    assert_eq!(removal_for(&Sel::Region(7, 8)), Some(RemoveAction::RemoveRegion(7, 8)));
    assert_eq!(removal_for(&Sel::Note(1, 2, 3)), Some(RemoveAction::RemoveNote(1, 2, 3)));
    assert_eq!(removal_for(&Sel::Track(1)), None);
    assert_eq!(removal_for(&Sel::Nothing), None);
}

#[test]
fn space_toggles_playback() {
    let space = KeyInput { space: true, ..keys() };
    let nothing: Sel = Selection::Nothing;
    assert_eq!(keyboard_commands(space, &nothing, false), vec![Cmd::Play]);
    assert_eq!(keyboard_commands(space, &nothing, true), vec![Cmd::Pause]);
}

#[test]
fn background_messages() {
    assert_eq!(status_message(BackgroundOutcome::SavedProject(true)), Some("Saved project"));
    assert_eq!(status_message(BackgroundOutcome::SavedProject(false)), Some("Failed to save project"));
    assert_eq!(status_message(BackgroundOutcome::OpenedProject(true)), Some("Opened project"));
    assert_eq!(status_message(BackgroundOutcome::OpenedProject(false)), Some("Failed to open project"));
    assert_eq!(status_message(BackgroundOutcome::WroteWav(true)), Some("Exported project"));
    assert_eq!(status_message(BackgroundOutcome::WroteWav(false)), Some("Failed to export project"));
    assert_eq!(status_message(BackgroundOutcome::ImportedAudio(true)), Some("Imported audio"));
    assert_eq!(status_message(BackgroundOutcome::ImportedAudio(false)), Some("Failed to import audio"));
    assert_eq!(status_message(BackgroundOutcome::GeneratedWaveform), None);
    assert_eq!(status_message(BackgroundOutcome::LintedKasl), None);
}

#[test]
fn import_track_choice() {
    let tracks = vec![(1u32, TrackType::Note), (2, TrackType::Audio), (3, TrackType::Audio)];
    assert_eq!(choose_audio_track(Some(7u32), &tracks), TrackChoice::Selected(7));
    assert_eq!(choose_audio_track(None, &tracks), TrackChoice::Existing(2));
    assert_eq!(choose_audio_track(None, &vec![(1u32, TrackType::Note)]), TrackChoice::CreateNew);
    assert_eq!(choose_audio_track::<u32>(None, &vec![]), TrackChoice::CreateNew);
}

#[test]
fn region_moves() {
    assert_eq!(plan_region_move(false, true, Some(TrackType::Audio), Some(TrackType::Audio)), RegionMovePlan::Abort);
    assert_eq!(plan_region_move(true, true, Some(TrackType::Audio), None), RegionMovePlan::SetBounds);
    assert_eq!(plan_region_move(true, true, None, None), RegionMovePlan::Abort);
    assert_eq!(plan_region_move(true, false, Some(TrackType::Audio), Some(TrackType::Note)), RegionMovePlan::Reject);
    assert_eq!(plan_region_move(true, false, Some(TrackType::Note), Some(TrackType::Note)), RegionMovePlan::Transfer);
    assert_eq!(plan_region_move(true, false, Some(TrackType::Note), None), RegionMovePlan::Abort);
}

#[test]
fn ghost_edge_release() {
    let lifted = Some((1u32, 0usize, 2u32, 1usize));
    let (actions, clear) = ghost_release_actions(false, ReleaseTarget::Port(3u32, 0), (1, 0), lifted);
    assert!(actions.is_empty() && !clear);
    let (actions, clear) = ghost_release_actions(true, ReleaseTarget::Port(3u32, 0), (1, 0), lifted);
    assert!(clear);
    assert_eq!(actions, vec![EdgeAction::Remove { to: (2, 1) }, EdgeAction::Add { from: (1, 0), to: (3, 0) }]);
    let (actions, clear) = ghost_release_actions(true, ReleaseTarget::Empty, (1u32, 0), lifted);
    assert!(clear);
    assert_eq!(actions, vec![EdgeAction::Remove { to: (2, 1) }]);
    let (actions, clear) = ghost_release_actions(true, ReleaseTarget::Unavailable, (1u32, 0), lifted);
    assert!(clear && actions.is_empty());
    let (actions, _) = ghost_release_actions(true, ReleaseTarget::Port(3u32, 2), (1, 0), None);
    assert_eq!(actions, vec![EdgeAction::Add { from: (1, 0), to: (3, 2) }]);
}

#[test]
fn ghost_edge_follows_cursor() {
    let mut ghost: Option<((u32, usize), (i32, i32))> = Some(((1, 0), (0, 0)));
    let mut dragged: Option<u8> = Some(9);
    update_edge_drag(&mut ghost, &mut dragged, Some((5, 6)), false);
    assert_eq!(ghost, Some(((1, 0), (5, 6))));
    update_edge_drag(&mut ghost, &mut dragged, None, false);
    assert_eq!(ghost, Some(((1, 0), (5, 6))));
    assert_eq!(dragged, Some(9));
    update_edge_drag(&mut ghost, &mut dragged, Some((7, 7)), true);
    assert_eq!(ghost, None);
    assert_eq!(dragged, None);
    let mut idle: Option<((u32, usize), (i32, i32))> = None;
    let mut kept: Option<u8> = Some(1);
    update_edge_drag(&mut idle, &mut kept, Some((1, 1)), true);
    assert_eq!(idle, None);
    assert_eq!(kept, Some(1));
}

#[test]
fn unsaved_changes_dialog() {
    assert_eq!(unsaved_changes_outcome(UnsavedChangesButton::Save, false), (vec![CodeBufferAction::Save, CodeBufferAction::Close], true));
    assert_eq!(unsaved_changes_outcome(UnsavedChangesButton::DontSave, false), (vec![CodeBufferAction::Close], true));
    assert_eq!(unsaved_changes_outcome(UnsavedChangesButton::Cancel, false), (vec![], true));
    assert_eq!(unsaved_changes_outcome(UnsavedChangesButton::NoClick, false), (vec![], false));
    assert_eq!(unsaved_changes_outcome(UnsavedChangesButton::NoClick, true), (vec![], true));
}

#[test]
fn rename_dialog() {
    let ok = rename_outcome("new.kasl", '/', false, true, true, false);
    assert!(ok.rename_enabled && ok.move_item && ok.close);
    let no_parent = rename_outcome("new.kasl", '/', false, true, false, false);
    assert!(no_parent.rename_enabled && !no_parent.move_item && !no_parent.close);
    let hidden = rename_outcome(".new", '/', false, true, true, false);
    assert!(!hidden.rename_enabled && !hidden.move_item && !hidden.close);
    let cancel = rename_outcome("", '/', true, false, true, false);
    assert!(!cancel.move_item && cancel.close);
    let nested = rename_outcome("a/b", '/', false, true, true, false);
    assert!(!nested.rename_enabled && !nested.move_item && !nested.close);
    let windows = rename_outcome("a/b", '\\', false, true, true, false);
    assert!(windows.rename_enabled && windows.move_item && windows.close);
}

#[test]
fn add_track_dialog() {
    let add = add_track_outcome("Drums", false, true, false);
    assert!(add.create_enabled && add.add_track && add.close);
    let blank = add_track_outcome("   ", false, true, false);
    assert!(!blank.create_enabled && !blank.add_track && !blank.close);
    let cancel = add_track_outcome("Bass", true, false, false);
    assert!(cancel.create_enabled && !cancel.add_track && cancel.close);
}

#[test]
fn actions_run_in_queue_order() {
    let mut state: EditorState<u8, String> = EditorState::new();
    state.actions.push_action(3);
    state.actions.push_action(1);
    state.modified_project();
    state.actions.push_action(2);
    assert_eq!(state.actions.drain_actions(), vec![3, 1, 2]);
    assert!(state.actions.drain_actions().is_empty());
    assert!(state.actions.last_edit_time.is_some());
}

#[test]
fn dialogs_open_with_initial_contents() {
    let id = uuid::Uuid::from_u128(7);
    match DialogState::<String>::open(DialogType::AddTrack, "ignored".to_string()) {
        DialogState::AddTrack { selected_track_type, name } => {
            assert_eq!(selected_track_type, TrackType::Audio);
            assert_eq!(name, "");
        }
        _ => panic!("expected the track dialog"),
    }
    match DialogState::open(DialogType::RenameFile { path: "dir/a.kasl".to_string() }, "a.kasl".to_string()) {
        DialogState::RenameFile { path, new_name } => {
            assert_eq!(path, "dir/a.kasl");
            assert_eq!(new_name, "a.kasl");
        }
        _ => panic!("expected the rename dialog"),
    }
    match DialogState::<String>::open(DialogType::CloseCodeBuffer { panel_id: id }, String::new()) {
        DialogState::CloseCodeBuffer { panel_id } => assert_eq!(panel_id, id),
        _ => panic!("expected the close dialog"),
    }
    match DialogState::open(DialogType::ChangeCodeBuffer { panel_id: id, path: "b".to_string() }, String::new()) {
        DialogState::ChangeCodeBuffer { panel_id, path } => {
            assert_eq!(panel_id, id);
            assert_eq!(path, "b");
        }
        _ => panic!("expected the change dialog"),
    }
}

#[test]
fn audio_results_finish_the_export() {
    let mut state: EditorState<u8, String> = EditorState::new();
    assert!(matches!(state.actions.on_audio_result(true), AudioResultStep::Stop));
    state.actions.try_begin_export("out.wav".to_string());
    assert!(matches!(state.actions.on_audio_result(false), AudioResultStep::Ignore));
    assert_eq!(state.actions.pending_export_path.as_deref(), Some("out.wav"));
    match state.actions.on_audio_result(true) {
        AudioResultStep::WriteWav(path) => assert_eq!(path, "out.wav"),
        _ => panic!("expected the export file"),
    }
    assert!(state.actions.pending_export_path.is_none());
}

#[test]
fn settling_after_a_given_rest() {
    let mut state: EditorState<u8, String> = EditorState::new();
    assert!(!state.settle_edit_after(1_000_000_000));
    state.modified_project();
    assert!(!state.settle_edit_after(300_000_000));
    assert!(state.actions.last_edit_time.is_some());
    assert!(state.settle_edit_after(300_000_001));
    assert!(state.actions.last_edit_time.is_none());
}
