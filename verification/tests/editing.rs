use kadent::automation::{bound_applies, AutomationTrackType, IntRange, KeyframeValueKind};
use kadent::grid::{ruler_seek_step, RulerSeekStep, note_grid_beats, note_grid_rows, ruler_marks, ruler_subdivisions, snap_interval, RulerMark};
use kadent::piano::{content_end_ticks, default_note_duration, resized_duration, split_preview_notes, update_preview_notes};
use std::time::{Duration, Instant};

#[test]
fn automation_bounds() {
    let r = IntRange::default_int();
    assert_eq!(r, IntRange { start: 0, end: 100 });
    assert_eq!(r.with_max(50), IntRange { start: 0, end: 50 });
    assert_eq!(r.with_max(-5), IntRange { start: 0, end: 0 });
    assert_eq!(r.with_min(20), IntRange { start: 20, end: 100 });
    assert_eq!(r.with_min(200), IntRange { start: 100, end: 100 });
    let inverted = IntRange { start: 10, end: 3 };
    assert_eq!(inverted.with_max(7), IntRange { start: 10, end: 10 });
    assert_eq!(inverted.with_min(7), IntRange { start: 3, end: 3 });
    assert_eq!(r.with_max(50).with_max(50), r.with_max(50));
}

#[test]
fn automation_bound_kinds() {
    assert!(bound_applies(AutomationTrackType::Int, KeyframeValueKind::Int));
    assert!(bound_applies(AutomationTrackType::Float, KeyframeValueKind::Float));
    assert!(!bound_applies(AutomationTrackType::Int, KeyframeValueKind::Float));
    assert!(!bound_applies(AutomationTrackType::Bool, KeyframeValueKind::Bool));
}

#[test]
fn snapping_intervals() {
    let expected = [(-3, 1), (0, 1), (1, 1), (2, 2), (3, 4), (4, 4), (5, 8), (9, 16), (16, 16), (17, 32), (32, 32), (33, 64), (100, 128)];
    for (raw, snapped) in expected {
        assert_eq!(snap_interval(raw), snapped, "raw {}", raw);
    }
    let mut prev = snap_interval(-10);
    for raw in -10..300 {
        let s = snap_interval(raw);
        assert!(s >= prev && s >= raw);
        prev = s;
    }
}

#[test]
fn ruler_subdivision_thresholds() {
    assert_eq!(ruler_subdivisions(1, 240), 8);
    assert_eq!(ruler_subdivisions(1, 239), 4);
    assert_eq!(ruler_subdivisions(1, 120), 4);
    assert_eq!(ruler_subdivisions(1, 60), 2);
    assert_eq!(ruler_subdivisions(1, 59), 1);
    assert_eq!(ruler_subdivisions(2, 1000), 1);
}

#[test]
fn ruler_marks_layout() {
    // Beats 0..=2, labels every beat, each beat cut in two, short lines shown.
    let marks = ruler_marks(0, -1, 2, 1, 2, true);
    assert_eq!(
        marks,
        vec![
            RulerMark::Major { unit: 0, label: 0 },
            RulerMark::Minor { unit: 1 },
            RulerMark::Major { unit: 2, label: 1 },
            RulerMark::Minor { unit: 3 },
            RulerMark::Major { unit: 4, label: 2 },
        ]
    );
    // Labels every 4 beats, no short lines.
    let marks = ruler_marks(-8, -8, 0, 4, 1, false);
    assert_eq!(
        marks,
        vec![
            RulerMark::Major { unit: -8, label: -8 },
            RulerMark::Major { unit: -4, label: -4 },
            RulerMark::Major { unit: 0, label: 0 },
        ]
    );
    assert!(ruler_marks(0, 3, 2, 1, 1, true).is_empty());
}

#[test]
fn ruler_labels_match_units() {
    for m in ruler_marks(-7, -7, 9, 2, 4, true) {
        if let RulerMark::Major { unit, label } = m {
            assert_eq!(label * 4, unit);
        }
    }
}

#[test]
fn piano_roll_beat_lines() {
    let (major, minor) = note_grid_beats(9, 4, 40);
    assert_eq!(major, vec![0, 4, 8]);
    assert_eq!(minor, vec![1, 2, 3, 5, 6, 7, 9]);
    let (major, minor) = note_grid_beats(9, 4, 29);
    assert_eq!(major, vec![0, 4, 8]);
    assert!(minor.is_empty());
    let (major, minor) = note_grid_beats(3, 1, 100);
    assert_eq!(major, vec![0, 1, 2, 3]);
    assert!(minor.is_empty());
    let (major, _) = note_grid_beats(-1, 2, 100);
    assert!(major.is_empty());
}

#[test]
fn piano_roll_note_rows() {
    let octaves = note_grid_rows(false);
    assert_eq!(octaves.iter().map(|r| r.note).collect::<Vec<_>>(), (0..=128).step_by(12).collect::<Vec<u32>>());
    assert!(octaves.iter().all(|r| r.octave));
    let all = note_grid_rows(true);
    assert_eq!(all.len(), 129);
    assert!(all[12].octave && !all[13].octave);
}

#[test]
fn content_extent() {
    assert_eq!(content_end_ticks(960, &vec![]), 960);
    assert_eq!(content_end_ticks(960, &vec![(0, 480), (900, 200)]), 1100);
    assert_eq!(content_end_ticks(960, &vec![(0, 480), (100, 100)]), 960);
    assert_eq!(content_end_ticks(-50, &vec![(-100, 20)]), -50);
    assert_eq!(content_end_ticks(-100, &vec![(-100, 20)]), -80);
}

#[test]
fn note_durations() {
    assert_eq!(resized_duration(480, 120), 600);
    assert_eq!(resized_duration(480, -600), 0);
    assert_eq!(default_note_duration(Some(240), 960), 240);
    assert_eq!(default_note_duration(None, 960), 960);
}

#[test]
fn preview_note_split() {
    let t = Instant::now();
    let notes = vec![(60u8, t), (64u8, t), (67u8, t)];
    let (kept, released) = split_preview_notes(notes, &vec![499_999_999, 500_000_000, 10]);
    assert_eq!(kept.iter().map(|n| n.0).collect::<Vec<_>>(), vec![60, 67]);
    assert_eq!(released, vec![64]);
}

#[test]
fn preview_notes_expire_after_half_a_second() {
    let now = Instant::now();
    let old = now.checked_sub(Duration::from_millis(800)).unwrap_or(now);
    let mut notes = vec![(60u8, old), (62u8, now)];
    let released = update_preview_notes(&mut notes, &now);
    if old != now {
        assert_eq!(released, vec![60]);
        assert_eq!(notes.iter().map(|n| n.0).collect::<Vec<_>>(), vec![62]);
    }
    assert_eq!(released.len() + notes.len(), 2);
}

#[test]
fn ruler_seek_gesture() {
    // A press inside the ruler starts a gesture for the next frame.
    assert_eq!(ruler_seek_step(false, true, true, false, Some(10)), RulerSeekStep { seek_to: None, drag_ended: false, seeking: true });
    // While dragging, the playhead follows the pointer.
    assert_eq!(ruler_seek_step(true, false, true, false, Some(20)), RulerSeekStep { seek_to: Some(20), drag_ended: false, seeking: true });
    // Releasing ends the gesture at the pointer.
    assert_eq!(ruler_seek_step(true, false, false, true, Some(30)), RulerSeekStep { seek_to: Some(30), drag_ended: true, seeking: false });
    // Releasing outside the window ends it without a position.
    assert_eq!(ruler_seek_step(true, false, false, true, None), RulerSeekStep { seek_to: None, drag_ended: false, seeking: false });
    // Finding the button up ends a stale gesture.
    assert_eq!(ruler_seek_step(true, false, false, false, Some(5)), RulerSeekStep { seek_to: None, drag_ended: false, seeking: false });
    assert_eq!(ruler_seek_step(false, false, true, false, Some(5)), RulerSeekStep { seek_to: None, drag_ended: false, seeking: false });
}
