//! Value ranges of automation tracks.
//!
//! An automation node drives a parameter along keyframes; an integer track
//! keeps its values within an inclusive range whose bounds the inspector
//! edits. Float tracks follow the same rules on floating-point bounds.
use vstd::prelude::*;

verus! {

/// The value type of an automation track.
#[derive(Clone, Copy, Debug, PartialEq, Eq, Structural)]
pub enum AutomationTrackType {
    Float,
    Int,
    Bool,
}

/// The value type of a value typed into the inspector.
#[derive(Clone, Copy, Debug, PartialEq, Eq, Structural)]
pub enum KeyframeValueKind {
    Float,
    Int,
    Bool,
}

/// An inclusive range of integer values, `start..=end`.
#[derive(Clone, Copy, Debug, PartialEq, Eq, Structural)]
pub struct IntRange {
    pub start: i32,
    pub end: i32,
}

pub open spec fn max_i32(a: i32, b: i32) -> i32 {
    if a >= b {
        a
    } else {
        b
    }
}

pub open spec fn min_i32(a: i32, b: i32) -> i32 {
    if a <= b {
        a
    } else {
        b
    }
}

/// The range with its upper bound set to `max_value`, raised to the lower
/// bound when it falls below it.
pub open spec fn with_max_spec(range: IntRange, max_value: i32) -> IntRange {
    IntRange { start: range.start, end: max_i32(max_value, range.start) }
}

/// The range with its lower bound set to `min_value`, lowered to the upper
/// bound when it rises above it.
pub open spec fn with_min_spec(range: IntRange, min_value: i32) -> IntRange {
    IntRange { start: min_i32(min_value, range.end), end: range.end }
}

impl IntRange {
    /// The range a new integer track starts with: `0..=100`.
    pub fn default_int() -> (range: IntRange)
        ensures
            range == (IntRange { start: 0, end: 100 }),
    {
        IntRange { start: 0, end: 100 }
    }

    /// The range with its upper bound set to `max_value`, raised to the lower
    /// bound when it falls below it.
    pub fn with_max(&self, max_value: i32) -> (range: IntRange)
        ensures
            range == with_max_spec(*self, max_value),
    {
        let end = if max_value >= self.start {
            max_value
        } else {
            self.start
        };
        IntRange { start: self.start, end }
    }

    /// The range with its lower bound set to `min_value`, lowered to the
    /// upper bound when it rises above it.
    pub fn with_min(&self, min_value: i32) -> (range: IntRange)
        ensures
            range == with_min_spec(*self, min_value),
    {
        let start = if min_value <= self.end {
            min_value
        } else {
            self.end
        };
        IntRange { start, end: self.end }
    }
}

/// Whether a bound typed as `value` applies to a track of type `track`: only
/// a float bound on a float track and an integer bound on an integer track
/// change anything, and a boolean track has no bounds.
pub open spec fn bound_applies_spec(track: AutomationTrackType, value: KeyframeValueKind) -> bool {
    (track == AutomationTrackType::Float && value == KeyframeValueKind::Float) || (track
        == AutomationTrackType::Int && value == KeyframeValueKind::Int)
}

/// Whether setting a bound of kind `value` on a track of type `track` takes
/// effect (and so marks the project modified).
pub fn bound_applies(track: AutomationTrackType, value: KeyframeValueKind) -> (applies: bool)
    ensures
        applies == bound_applies_spec(track, value),
{
    match (track, value) {
        (AutomationTrackType::Float, KeyframeValueKind::Float) => true,
        (AutomationTrackType::Int, KeyframeValueKind::Int) => true,
        _ => false,
    }
}

/// Editing either bound always leaves a non-empty range, whatever range it
/// started from; each edit keeps the other bound, and sets its own bound
/// exactly when the new value does not cross the other bound.
pub proof fn lemma_bounds_keep_range_non_empty(range: IntRange, value: i32)
    ensures
        with_max_spec(range, value).start <= with_max_spec(range, value).end,
        with_max_spec(range, value).start == range.start,
        value >= range.start ==> with_max_spec(range, value).end == value,
        with_min_spec(range, value).start <= with_min_spec(range, value).end,
        with_min_spec(range, value).end == range.end,
        value <= range.end ==> with_min_spec(range, value).start == value,
{
}

/// Setting the same bound twice is the same as setting it once.
pub proof fn lemma_bounds_idempotent(range: IntRange, value: i32)
    ensures
        with_max_spec(with_max_spec(range, value), value) == with_max_spec(range, value),
        with_min_spec(with_min_spec(range, value), value) == with_min_spec(range, value),
{
}

} // verus!
