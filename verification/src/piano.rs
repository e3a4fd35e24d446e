//! Arithmetic of the piano roll: the extent of a note region, note resizing,
//! the length of a new note, and the notes played back as feedback.
//!
//! Times are in ticks, the engine's whole-number musical time unit.
use crate::clock::nanos_between;
use std::time::Instant;
use vstd::prelude::*;

verus! {

/// The tick at which a note of the given start and duration ends.
pub open spec fn note_end(note: (i64, i64)) -> int {
    note.0 + note.1
}

/// The latest end among the first `n >= 1` notes.
pub open spec fn max_note_end(notes: Seq<(i64, i64)>, n: int) -> int
    decreases n,
{
    if n <= 1 {
        note_end(notes[0])
    } else {
        let prev = max_note_end(notes, n - 1);
        let e = note_end(notes[n - 1]);
        if prev >= e {
            prev
        } else {
            e
        }
    }
}

/// The end of the last note of a region, or 0 when it holds no note.
pub open spec fn last_note_end(notes: Seq<(i64, i64)>) -> int {
    if notes.len() == 0 {
        0
    } else {
        max_note_end(notes, notes.len() as int)
    }
}

/// The number of ticks that the piano roll must show for a region: its
/// duration, or further when a note ends later.
pub open spec fn content_end_spec(region_duration: int, notes: Seq<(i64, i64)>) -> int {
    let last = last_note_end(notes);
    if region_duration >= last {
        region_duration
    } else {
        last
    }
}

/// Whether every note's end fits in `i64`.
pub open spec fn note_ends_fit(notes: Seq<(i64, i64)>) -> bool {
    forall|i: int| 0 <= i < notes.len() ==> i64::MIN <= #[trigger] note_end(notes[i]) <= i64::MAX
}

/// The number of ticks that the piano roll shows for a region of duration
/// `region_duration` holding `notes`, each given as `(start, duration)`.
pub fn content_end_ticks(region_duration: i64, notes: &Vec<(i64, i64)>) -> (end: i64)
    requires
        note_ends_fit(notes@),
    ensures
        end == content_end_spec(region_duration as int, notes@),
{
    let mut last: i64 = 0;
    let mut i: usize = 0;
    while i < notes.len()
        invariant
            note_ends_fit(notes@),
            i <= notes@.len(),
            last == if i == 0 {
                0
            } else {
                max_note_end(notes@, i as int)
            },
        decreases notes@.len() - i,
    {
        let (start, duration) = notes[i];
        assert(i64::MIN <= note_end(notes@[i as int]) <= i64::MAX);
        let end = start + duration;
        if i == 0 || end > last {
            last = end;
        }
        i += 1;
    }
    if region_duration >= last {
        region_duration
    } else {
        last
    }
}

/// The region shown always reaches the region's end and the end of every
/// note.
pub proof fn lemma_content_covers_notes(region_duration: int, notes: Seq<(i64, i64)>, i: int)
    requires
        0 <= i < notes.len(),
    ensures
        content_end_spec(region_duration, notes) >= region_duration,
        content_end_spec(region_duration, notes) >= note_end(notes[i]),
{
    lemma_max_note_end_bounds(notes, notes.len() as int, i);
}

proof fn lemma_max_note_end_bounds(notes: Seq<(i64, i64)>, n: int, i: int)
    requires
        0 <= i < n <= notes.len(),
    ensures
        max_note_end(notes, n) >= note_end(notes[i]),
    decreases n,
{
    if n > 1 && i < n - 1 {
        lemma_max_note_end_bounds(notes, n - 1, i);
    }
}

/// The duration of a note after dragging its right edge by `delta` ticks,
/// never below zero.
pub open spec fn resized_duration_spec(duration: int, delta: int) -> int {
    if duration + delta >= 0 {
        duration + delta
    } else {
        0
    }
}

/// The duration of a note of `duration` ticks after dragging its right
/// edge by `delta` ticks.
pub fn resized_duration(duration: i64, delta: i64) -> (resized: i64)
    requires
        i64::MIN <= duration + delta <= i64::MAX,
    ensures
        resized == resized_duration_spec(duration as int, delta as int),
        resized >= 0,
{
    let d = duration + delta;
    if d >= 0 {
        d
    } else {
        0
    }
}

/// The duration of a note added by double-clicking: that of the last note
/// edited, or one beat of `resolution` ticks when none was.
pub fn default_note_duration(last_edited: Option<i64>, resolution: u64) -> (duration: i64)
    ensures
        duration == match last_edited {
            Some(d) => d,
            None => resolution as i64,
        },
{
    match last_edited {
        Some(d) => d,
        None => resolution as i64,
    }
}

/// How long a note played as feedback sounds: half a second.
pub open spec fn preview_nanos() -> int {
    500_000_000
}

/// Whether a feedback note that has sounded for `elapsed` nanoseconds is
/// over.
pub open spec fn preview_over(elapsed: u128) -> bool {
    elapsed >= preview_nanos()
}

/// The feedback notes among the first `n` that still sound, in order.
pub open spec fn kept_previews(notes: Seq<(u8, Instant)>, elapsed: Seq<u128>, n: int) -> Seq<(u8, Instant)>
    decreases n,
{
    if n <= 0 {
        Seq::empty()
    } else {
        let prev = kept_previews(notes, elapsed, n - 1);
        if preview_over(elapsed[n - 1]) {
            prev
        } else {
            prev.push(notes[n - 1])
        }
    }
}

/// The pitches of the feedback notes among the first `n` that are over,
/// in order.
pub open spec fn released_previews(notes: Seq<(u8, Instant)>, elapsed: Seq<u128>, n: int) -> Seq<u8>
    decreases n,
{
    if n <= 0 {
        Seq::empty()
    } else {
        let prev = released_previews(notes, elapsed, n - 1);
        if preview_over(elapsed[n - 1]) {
            prev.push(notes[n - 1].0)
        } else {
            prev
        }
    }
}

/// Splits the feedback notes, each `(pitch, started_at)` and having sounded
/// for `elapsed[i]` nanoseconds, into those that still sound and the pitches
/// of those that are over, both in order.
pub fn split_preview_notes(notes: Vec<(u8, Instant)>, elapsed: &Vec<u128>) -> (split: (Vec<(u8, Instant)>, Vec<u8>))
    requires
        elapsed@.len() == notes@.len(),
    ensures
        split.0@ == kept_previews(notes@, elapsed@, notes@.len() as int),
        split.1@ == released_previews(notes@, elapsed@, notes@.len() as int),
{
    let mut kept: Vec<(u8, Instant)> = Vec::new();
    let mut released: Vec<u8> = Vec::new();
    let mut i: usize = 0;
    while i < notes.len()
        invariant
            elapsed@.len() == notes@.len(),
            i <= notes@.len(),
            kept@ == kept_previews(notes@, elapsed@, i as int),
            released@ == released_previews(notes@, elapsed@, i as int),
        decreases notes@.len() - i,
    {
        let entry = notes[i];
        if elapsed[i] >= 500_000_000 {
            released.push(entry.0);
        } else {
            kept.push(entry);
        }
        i += 1;
    }
    (kept, released)
}

/// Ends the feedback notes that have sounded for half a second at `now`:
/// keeps the others in `notes` and returns the pitches to silence, in order.
pub fn update_preview_notes(notes: &mut Vec<(u8, Instant)>, now: &Instant) -> (released: Vec<u8>)
    ensures
        exists|elapsed: Seq<u128>|
            elapsed.len() == old(notes)@.len() && final(notes)@ == #[trigger] kept_previews(
                old(notes)@,
                elapsed,
                old(notes)@.len() as int,
            ) && released@ == released_previews(old(notes)@, elapsed, old(notes)@.len() as int),
{
    let mut elapsed: Vec<u128> = Vec::new();
    let mut i: usize = 0;
    while i < notes.len()
        invariant
            notes@ == old(notes)@,
            i <= notes@.len(),
            elapsed@.len() == i,
        decreases notes@.len() - i,
    {
        elapsed.push(nanos_between(now, &notes[i].1));
        i += 1;
    }
    let mut taken: Vec<(u8, Instant)> = Vec::new();
    std::mem::swap(&mut taken, notes);
    let (kept, released) = split_preview_notes(taken, &elapsed);
    *notes = kept;
    released
}

/// No feedback note is lost or doubled: every note is either kept or
/// released, so the two counts add up to the number of notes.
pub proof fn lemma_previews_partition(notes: Seq<(u8, Instant)>, elapsed: Seq<u128>, n: int)
    requires
        0 <= n <= notes.len(),
        elapsed.len() == notes.len(),
    ensures
        kept_previews(notes, elapsed, n).len() + released_previews(notes, elapsed, n).len() == n,
    decreases n,
{
    if n > 0 {
        lemma_previews_partition(notes, elapsed, n - 1);
    }
}

} // verus!
