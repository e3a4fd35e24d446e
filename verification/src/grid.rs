//! Layout of the beat ruler above the timeline and the piano roll, and of
//! the grid lines behind the piano-roll notes.
//!
//! The drawing code measures the view in floating-point pixels; what it
//! hands over here is already whole numbers: beat and unit indices, the
//! pixels-per-beat zoom rounded down, and the decisions it took on pixel
//! sizes.
use vstd::prelude::*;

verus! {

/// The sequence of values `f(lo), ..., f(hi)` that are present, in order.
pub open spec fn collect_range<T>(lo: int, hi: int, f: spec_fn(int) -> Option<T>) -> Seq<T>
    decreases hi - lo + 1,
{
    if hi < lo {
        Seq::empty()
    } else {
        let prev = collect_range(lo, hi - 1, f);
        match f(hi) {
            Some(x) => prev.push(x),
            None => prev,
        }
    }
}

/// Every value that `collect_range` yields is `f` of some point of the range.
pub proof fn lemma_collect_range_members<T>(lo: int, hi: int, f: spec_fn(int) -> Option<T>, k: int)
    requires
        0 <= k < collect_range(lo, hi, f).len(),
    ensures
        exists|u: int| lo <= u <= hi && #[trigger] f(u) == Some(collect_range(lo, hi, f)[k]),
    decreases hi - lo,
{
    let prev = collect_range(lo, hi - 1, f);
    if k < prev.len() {
        lemma_collect_range_members(lo, hi - 1, f, k);
        let u = choose|u: int| lo <= u <= hi - 1 && #[trigger] f(u) == Some(prev[k]);
        assert(f(u) == Some(collect_range(lo, hi, f)[k]));
    } else {
        assert(f(hi) == Some(collect_range(lo, hi, f)[k]));
    }
}

/// The remainder of `a` divided by `b > 0` as Rust computes it on integers:
/// rounded toward zero, so that it takes the sign of `a`.
pub open spec fn trunc_rem(a: int, b: int) -> int {
    if a >= 0 {
        a % b
    } else {
        -((-a) % b)
    }
}

/// The quotient of `a` by `b > 0` as Rust computes it on integers: rounded
/// toward zero.
pub open spec fn trunc_div(a: int, b: int) -> int {
    if a >= 0 {
        a / b
    } else {
        -((-a) / b)
    }
}

/// How many beats apart the labelled lines stand, given the raw number of
/// beats that keeps lines readable: the next of 1, 2, 4, 8 or 16, and past
/// 16 the next multiple of 32.
pub open spec fn snap_interval_spec(raw: int) -> int {
    if raw <= 1 {
        1
    } else if raw <= 2 {
        2
    } else if raw <= 4 {
        4
    } else if raw <= 8 {
        8
    } else if raw <= 16 {
        16
    } else {
        ((raw + 31) / 32) * 32
    }
}

/// Rounds a raw beat interval up to the interval between labelled lines.
pub fn snap_interval(raw_interval: i32) -> (interval: i32)
    requires
        raw_interval <= i32::MAX - 31,
    ensures
        interval == snap_interval_spec(raw_interval as int),
        interval >= 1,
        interval >= raw_interval,
        raw_interval > 16 ==> interval % 32 == 0 && interval - raw_interval < 32,
{
    if raw_interval <= 1 {
        1
    } else if raw_interval <= 2 {
        2
    } else if raw_interval <= 4 {
        4
    } else if raw_interval <= 8 {
        8
    } else if raw_interval <= 16 {
        16
    } else {
        let r = ((raw_interval + 31) / 32) * 32;
        assert(r % 32 == 0 && r >= raw_interval && r - raw_interval < 32) by (nonlinear_arith)
            requires
                r == ((raw_interval + 31) / 32) * 32,
                raw_interval > 16,
        ;
        r
    }
}

/// A coarser zoom never gives a finer interval: the snapped interval grows
/// with the raw one.
pub proof fn lemma_snap_interval_monotonic(a: int, b: int)
    requires
        a <= b,
    ensures
        snap_interval_spec(a) <= snap_interval_spec(b),
{
    if a > 16 {
        assert((a + 31) / 32 <= (b + 31) / 32) by (nonlinear_arith)
            requires
                a <= b,
        ;
        assert(((a + 31) / 32) * 32 <= ((b + 31) / 32) * 32) by (nonlinear_arith)
            requires
                (a + 31) / 32 <= (b + 31) / 32,
        ;
    } else if b > 16 {
        assert(((b + 31) / 32) * 32 >= 32) by (nonlinear_arith)
            requires
                b > 16,
        ;
    }
}

/// The number of ruler units per beat: a ruler labelled on every beat is
/// cut into 8, 4 or 2 units when a beat is at least 240, 120 or 60 pixels
/// wide; otherwise one unit is one beat.
pub open spec fn subdivisions_spec(beats_per_label: int, ppb_floor: int) -> int {
    if beats_per_label == 1 {
        if ppb_floor >= 240 {
            8
        } else if ppb_floor >= 120 {
            4
        } else if ppb_floor >= 60 {
            2
        } else {
            1
        }
    } else {
        1
    }
}

/// The number of ruler units per beat, given the interval between labels
/// and the width of a beat in pixels rounded down.
pub fn ruler_subdivisions(beats_per_label: i32, ppb_floor: i64) -> (subdivisions: i32)
    ensures
        subdivisions == subdivisions_spec(beats_per_label as int, ppb_floor as int),
        1 <= subdivisions <= 8,
{
    if beats_per_label == 1 {
        if ppb_floor >= 240 {
            8
        } else if ppb_floor >= 120 {
            4
        } else if ppb_floor >= 60 {
            2
        } else {
            1
        }
    } else {
        1
    }
}

/// A line of the beat ruler.
#[derive(Clone, Copy, Debug, PartialEq, Eq, Structural)]
pub enum RulerMark {
    /// A full-height line at `unit`, labelled with the beat number `label`.
    Major { unit: i32, label: i32 },
    /// A short line at `unit`.
    Minor { unit: i32 },
}

/// The mark drawn at ruler unit `u`: a labelled line on every `major_units`
/// units, a short line elsewhere when short lines are shown.
pub open spec fn ruler_mark_at(major_units: int, subdivisions: int, show_minor: bool) -> spec_fn(int) -> Option<RulerMark> {
    |u: int|
        if trunc_rem(u, major_units) == 0 {
            Some(RulerMark::Major { unit: u as i32, label: trunc_div(u, subdivisions) as i32 })
        } else if show_minor {
            Some(RulerMark::Minor { unit: u as i32 })
        } else {
            None
        }
}

/// The first ruler unit drawn: the left edge of the view, but never before
/// the start of the content.
pub open spec fn first_unit_spec(start_beat: int, left_beat: int, subdivisions: int) -> int {
    let a = left_beat * subdivisions;
    let b = start_beat * subdivisions;
    if a >= b {
        a
    } else {
        b
    }
}

/// Whether the products that the ruler computes fit in `i32`.
pub open spec fn ruler_fits(start_beat: int, left_beat: int, right_beat: int, beats_per_label: int, subdivisions: int) -> bool {
    &&& i32::MIN <= left_beat * subdivisions <= i32::MAX
    &&& i32::MIN <= start_beat * subdivisions <= i32::MAX
    &&& i32::MIN <= right_beat * subdivisions <= i32::MAX
    &&& i32::MIN <= beats_per_label * subdivisions <= i32::MAX
}

/// The marks of the beat ruler, from left to right. The content starts at
/// beat `start_beat`, the view spans beats `left_beat` to `right_beat`,
/// labels stand every `beats_per_label` beats and each beat holds
/// `subdivisions` units; `show_minor` tells whether a unit is wide enough
/// for a short line.
pub fn ruler_marks(
    start_beat: i32,
    left_beat: i32,
    right_beat: i32,
    beats_per_label: i32,
    subdivisions: i32,
    show_minor: bool,
) -> (marks: Vec<RulerMark>)
    requires
        beats_per_label >= 1,
        subdivisions >= 1,
        ruler_fits(
            start_beat as int,
            left_beat as int,
            right_beat as int,
            beats_per_label as int,
            subdivisions as int,
        ),
    ensures
        marks@ == collect_range(
            first_unit_spec(start_beat as int, left_beat as int, subdivisions as int),
            right_beat * subdivisions,
            ruler_mark_at(beats_per_label * subdivisions, subdivisions as int, show_minor),
        ),
{
    let major_units = beats_per_label * subdivisions;
    let a = left_beat * subdivisions;
    let b = start_beat * subdivisions;
    let start_unit = if a >= b {
        a
    } else {
        b
    };
    let end_unit = right_beat * subdivisions;
    assert(major_units >= 1) by (nonlinear_arith)
        requires
            major_units == beats_per_label * subdivisions,
            beats_per_label >= 1,
            subdivisions >= 1,
    ;
    let ghost f = ruler_mark_at(major_units as int, subdivisions as int, show_minor);
    let mut marks: Vec<RulerMark> = Vec::new();
    let mut unit: i64 = start_unit as i64;
    while unit <= end_unit as i64
        invariant
            start_unit <= unit <= end_unit as i64 + 1 || (unit == start_unit && start_unit > end_unit),
            major_units >= 1,
            subdivisions >= 1,
            f == ruler_mark_at(major_units as int, subdivisions as int, show_minor),
            marks@ == collect_range(start_unit as int, unit - 1, f),
        decreases end_unit - unit + 1,
    {
        let u = unit as i32;
        let ghost prev = marks@;
        if u % major_units == 0 {
            marks.push(RulerMark::Major { unit: u, label: u / subdivisions });
        } else if show_minor {
            marks.push(RulerMark::Minor { unit: u });
        }
        assert(marks@ == match f(u as int) {
            Some(m) => prev.push(m),
            None => prev,
        });
        unit = unit + 1;
    }
    marks
}

/// A natural number divisible by `beats_per_label * subdivisions` is a
/// whole number of `subdivisions`.
proof fn lemma_divisible_by_product(x: int, beats_per_label: int, subdivisions: int)
    requires
        x >= 0,
        beats_per_label >= 1,
        subdivisions >= 1,
        x % (beats_per_label * subdivisions) == 0,
    ensures
        (x / subdivisions) * subdivisions == x,
{
    let m = beats_per_label * subdivisions;
    assert(m > 0) by (nonlinear_arith)
        requires
            m == beats_per_label * subdivisions,
            beats_per_label >= 1,
            subdivisions >= 1,
    ;
    vstd::arithmetic::div_mod::lemma_fundamental_div_mod(x, m);
    let q = x / m;
    assert(x == subdivisions * (beats_per_label * q)) by (nonlinear_arith)
        requires
            x == m * q,
            m == beats_per_label * subdivisions,
    ;
    vstd::arithmetic::div_mod::lemma_div_multiples_vanish(beats_per_label * q, subdivisions);
    assert((x / subdivisions) * subdivisions == x) by (nonlinear_arith)
        requires
            x / subdivisions == beats_per_label * q,
            x == subdivisions * (beats_per_label * q),
    ;
}

/// Every labelled line of the ruler carries the number of its beat: the
/// label times the units per beat is the unit.
pub proof fn lemma_major_marks_label_beats(lo: int, hi: int, beats_per_label: int, subdivisions: int, show_minor: bool, k: int)
    requires
        beats_per_label >= 1,
        subdivisions >= 1,
        i32::MIN <= lo,
        hi <= i32::MAX,
        0 <= k < collect_range(lo, hi, ruler_mark_at(beats_per_label * subdivisions, subdivisions, show_minor)).len(),
    ensures
        collect_range(lo, hi, ruler_mark_at(beats_per_label * subdivisions, subdivisions, show_minor))[k] matches RulerMark::Major { unit, label } ==> label * subdivisions == unit,
{
    let f = ruler_mark_at(beats_per_label * subdivisions, subdivisions, show_minor);
    lemma_collect_range_members(lo, hi, f, k);
    let u = choose|u: int| lo <= u <= hi && #[trigger] f(u) == Some(collect_range(lo, hi, f)[k]);
    if trunc_rem(u, beats_per_label * subdivisions) == 0 {
        if u >= 0 {
            lemma_divisible_by_product(u, beats_per_label, subdivisions);
            assert(0 <= u / subdivisions <= u) by (nonlinear_arith)
                requires
                    u >= 0,
                    subdivisions >= 1,
            ;
            let label = trunc_div(u, subdivisions);
            assert(label == u / subdivisions);
            assert((label as i32) as int == label);
            assert((u as i32) as int == u);
            assert(label * subdivisions == u);
        } else {
            assert((-u) % (beats_per_label * subdivisions) == 0);
            lemma_divisible_by_product(-u, beats_per_label, subdivisions);
            assert(0 <= (-u) / subdivisions <= -u) by (nonlinear_arith)
                requires
                    -u >= 0,
                    subdivisions >= 1,
            ;
            let label = trunc_div(u, subdivisions);
            assert(label == -((-u) / subdivisions));
            assert((label as i32) as int == label);
            assert((u as i32) as int == u);
            assert(label * subdivisions == u) by (nonlinear_arith)
                requires
                    label == -((-u) / subdivisions),
                    ((-u) / subdivisions) * subdivisions == -u,
            ;
        }
    }
}

/// Every value that `f` gives on the range is in `collect_range`.
pub proof fn lemma_collect_range_contains<T>(lo: int, hi: int, f: spec_fn(int) -> Option<T>, u: int)
    requires
        lo <= u <= hi,
        f(u) is Some,
    ensures
        collect_range(lo, hi, f).contains(f(u)->0),
    decreases hi - lo,
{
    let prev = collect_range(lo, hi - 1, f);
    if u == hi {
        let s = collect_range(lo, hi, f);
        assert(s == prev.push(f(u)->0));
        assert(s[s.len() - 1] == f(u)->0);
    } else {
        lemma_collect_range_contains(lo, hi - 1, f, u);
        let k = choose|k: int| 0 <= k < prev.len() && prev[k] == f(u)->0;
        match f(hi) {
            Some(x) => assert(collect_range(lo, hi, f)[k] == prev.push(x)[k]),
            None => {},
        }
    }
}

/// The unit a ruler mark stands at.
pub open spec fn mark_unit(mark: RulerMark) -> i32 {
    match mark {
        RulerMark::Major { unit, .. } => unit,
        RulerMark::Minor { unit } => unit,
    }
}

/// For `m > 0`, Rust's remainder is zero exactly when `m` divides `u`.
proof fn lemma_trunc_rem_zero(u: int, m: int)
    requires
        m > 0,
    ensures
        (trunc_rem(u, m) == 0) == (u % m == 0),
{
    if u < 0 {
        vstd::arithmetic::div_mod::lemma_fundamental_div_mod(-u, m);
        vstd::arithmetic::div_mod::lemma_fundamental_div_mod(u, m);
        if (-u) % m == 0 {
            let q = (-u) / m;
            assert(u == m * (-q)) by (nonlinear_arith)
                requires
                    -u == m * q + 0,
            ;
            vstd::arithmetic::div_mod::lemma_mod_multiples_basic(-q, m);
            assert(u == (-q) * m) by (nonlinear_arith)
                requires
                    u == m * (-q),
            ;
        }
        if u % m == 0 {
            let q = u / m;
            assert(-u == (-q) * m) by (nonlinear_arith)
                requires
                    u == m * q + 0,
            ;
            vstd::arithmetic::div_mod::lemma_mod_multiples_basic(-q, m);
        }
    }
}

/// The beat ruler marks every unit of its range, in order: a unit that is a
/// multiple of the label interval (`beats_per_label * subdivisions` units)
/// carries a labelled line whose label is its beat, and, when short lines
/// are shown, every other unit carries a short line; without short lines the
/// other units carry nothing. The marks stand in increasing order of unit,
/// one per unit at most.
pub proof fn lemma_ruler_marks_every_unit(
    lo: int,
    hi: int,
    beats_per_label: int,
    subdivisions: int,
    show_minor: bool,
    u: int,
)
    requires
        beats_per_label >= 1,
        subdivisions >= 1,
        i32::MIN <= lo,
        hi <= i32::MAX,
        lo <= u <= hi,
    ensures
        u % (beats_per_label * subdivisions) == 0 ==> collect_range(
            lo,
            hi,
            ruler_mark_at(beats_per_label * subdivisions, subdivisions, show_minor),
        ).contains(RulerMark::Major { unit: u as i32, label: (u / subdivisions) as i32 }),
        u % (beats_per_label * subdivisions) != 0 && show_minor ==> collect_range(
            lo,
            hi,
            ruler_mark_at(beats_per_label * subdivisions, subdivisions, show_minor),
        ).contains(RulerMark::Minor { unit: u as i32 }),
        u % (beats_per_label * subdivisions) != 0 && !show_minor ==> forall|k: int|
            0 <= k < collect_range(
                lo,
                hi,
                ruler_mark_at(beats_per_label * subdivisions, subdivisions, show_minor),
            ).len() ==> mark_unit(
                #[trigger] collect_range(
                    lo,
                    hi,
                    ruler_mark_at(beats_per_label * subdivisions, subdivisions, show_minor),
                )[k],
            ) != u,
{
    let m = beats_per_label * subdivisions;
    assert(m >= 1) by (nonlinear_arith)
        requires
            m == beats_per_label * subdivisions,
            beats_per_label >= 1,
            subdivisions >= 1,
    ;
    let f = ruler_mark_at(m, subdivisions, show_minor);
    lemma_trunc_rem_zero(u, m);
    if u % m == 0 {
        lemma_collect_range_contains(lo, hi, f, u);
        // The label is the exact quotient, whichever way it rounds.
        if u >= 0 {
            lemma_divisible_by_product(u, beats_per_label, subdivisions);
        } else {
            assert((-u) % m == 0) by {
                lemma_trunc_rem_zero(u, m);
            }
            lemma_divisible_by_product(-u, beats_per_label, subdivisions);
            vstd::arithmetic::div_mod::lemma_fundamental_div_mod(u, subdivisions);
            let q = (-u) / subdivisions;
            assert(u == subdivisions * (-q)) by (nonlinear_arith)
                requires
                    q * subdivisions == -u,
            ;
            vstd::arithmetic::div_mod::lemma_div_multiples_vanish(-q, subdivisions);
        }
    } else if show_minor {
        lemma_collect_range_contains(lo, hi, f, u);
    } else {
        let marks = collect_range(lo, hi, f);
        assert forall|k: int| 0 <= k < marks.len() implies mark_unit(#[trigger] marks[k]) != u by {
            lemma_collect_range_members(lo, hi, f, k);
            let w = choose|w: int| lo <= w <= hi && #[trigger] f(w) == Some(marks[k]);
            lemma_trunc_rem_zero(w, m);
            assert((w as i32) as int == w);
        }
    }
}

/// The units of the ruler marks strictly increase from left to right.
pub proof fn lemma_ruler_marks_in_order(lo: int, hi: int, major_units: int, subdivisions: int, show_minor: bool)
    requires
        i32::MIN <= lo,
        hi <= i32::MAX,
    ensures
        forall|i: int, j: int|
            0 <= i < j < collect_range(lo, hi, ruler_mark_at(major_units, subdivisions, show_minor)).len()
                ==> mark_unit(#[trigger] collect_range(lo, hi, ruler_mark_at(major_units, subdivisions, show_minor))[i])
                < mark_unit(#[trigger] collect_range(lo, hi, ruler_mark_at(major_units, subdivisions, show_minor))[j]),
        forall|k: int|
            0 <= k < collect_range(lo, hi, ruler_mark_at(major_units, subdivisions, show_minor)).len()
                ==> lo <= mark_unit(#[trigger] collect_range(lo, hi, ruler_mark_at(major_units, subdivisions, show_minor))[k]) <= hi,
    decreases hi - lo + 1,
{
    let f = ruler_mark_at(major_units, subdivisions, show_minor);
    let s = collect_range(lo, hi, f);
    if hi >= lo {
        lemma_ruler_marks_in_order(lo, hi - 1, major_units, subdivisions, show_minor);
        let prev = collect_range(lo, hi - 1, f);
        match f(hi) {
            Some(x) => {
                assert(s == prev.push(x));
                assert(mark_unit(x) == hi);
                assert forall|k: int| 0 <= k < s.len() implies lo <= mark_unit(#[trigger] s[k]) <= hi by {
                    if k < prev.len() {
                        assert(s[k] == prev[k]);
                    }
                }
                assert forall|i: int, j: int| 0 <= i < j < s.len() implies mark_unit(#[trigger] s[i]) < mark_unit(#[trigger] s[j]) by {
                    assert(s[i] == prev[i]);
                    if j < prev.len() {
                        assert(s[j] == prev[j]);
                    }
                }
            },
            None => {
                assert(s == prev);
            },
        }
    }
}

/// The beats that carry a full grid line behind the piano roll: every
/// `beats_per_line`-th beat from 0 up to `total_beats`.
pub open spec fn major_beats_spec(total_beats: int, beats_per_line: int) -> Seq<i32> {
    let count = if total_beats >= 0 {
        total_beats / beats_per_line + 1
    } else {
        0
    };
    Seq::new(count as nat, |i: int| (i * beats_per_line) as i32)
}

/// The beat at `b` carries a faint line when it carries no full one.
pub open spec fn minor_beat_at(beats_per_line: int) -> spec_fn(int) -> Option<i32> {
    |b: int|
        if b % beats_per_line != 0 {
            Some(b as i32)
        } else {
            None
        }
}

/// Whether faint lines are drawn between the full ones: when the full lines
/// are more than a beat apart and a beat is at least 30 pixels wide.
pub open spec fn show_minor_beats_spec(beats_per_line: int, ppb_floor: int) -> bool {
    ppb_floor >= 30 && beats_per_line > 1
}

/// The vertical grid lines behind the piano roll: the beats with a full line
/// and the beats with a faint line, from left to right. The content spans
/// `total_beats` beats, full lines stand every `beats_per_line` beats, and
/// `ppb_floor` is the width of a beat in pixels rounded down.
pub fn note_grid_beats(total_beats: i32, beats_per_line: i32, ppb_floor: i64) -> (lines: (Vec<i32>, Vec<i32>))
    requires
        beats_per_line >= 1,
        total_beats + beats_per_line <= i32::MAX,
    ensures
        lines.0@ == major_beats_spec(total_beats as int, beats_per_line as int),
        lines.1@ == if show_minor_beats_spec(beats_per_line as int, ppb_floor as int) {
            collect_range(0, total_beats as int, minor_beat_at(beats_per_line as int))
        } else {
            Seq::empty()
        },
{
    let mut major: Vec<i32> = Vec::new();
    let mut beat: i32 = 0;
    assert(beat == major@.len() * beats_per_line) by (nonlinear_arith)
        requires
            major@.len() == 0,
            beat == 0,
    ;
    while beat <= total_beats
        invariant
            beats_per_line >= 1,
            total_beats + beats_per_line <= i32::MAX,
            0 <= beat,
            beat == major@.len() * beats_per_line,
            major@.len() == 0 || (major@.len() - 1) * beats_per_line <= total_beats,
            major@ == Seq::new(major@.len(), |i: int| (i * beats_per_line) as i32),
        decreases total_beats - beat + beats_per_line,
    {
        let ghost k = major@.len();
        major.push(beat);
        assert(beat + beats_per_line == (k + 1) * beats_per_line) by (nonlinear_arith)
            requires
                beat == k * beats_per_line,
        ;
        beat = beat + beats_per_line;
        assert(major@ =~= Seq::new(major@.len(), |i: int| (i * beats_per_line) as i32));
    }
    proof {
        let k = major@.len() as int;
        if total_beats >= 0 {
            assert(k >= 1) by {
                if k == 0 {
                    assert(beat == 0) by (nonlinear_arith)
                        requires
                            beat == k * beats_per_line,
                            k == 0,
                    ;
                }
            }
            assert(k - 1 == total_beats / beats_per_line) by (nonlinear_arith)
                requires
                    (k - 1) * beats_per_line <= total_beats,
                    total_beats < k * beats_per_line,
                    beats_per_line >= 1,
                    total_beats >= 0,
            {
                vstd::arithmetic::div_mod::lemma_fundamental_div_mod(total_beats as int, beats_per_line as int);
            }
        } else {
            assert(k == 0) by (nonlinear_arith)
                requires
                    k >= 0,
                    k == 0 || (k - 1) * beats_per_line <= total_beats,
                    total_beats < 0,
                    beats_per_line >= 1,
            ;
        }
    }
    let mut minor: Vec<i32> = Vec::new();
    if ppb_floor >= 30 && beats_per_line > 1 {
        let ghost f = minor_beat_at(beats_per_line as int);
        let mut sub_beat: i64 = 0;
        while sub_beat <= total_beats as i64
            invariant
                0 <= sub_beat,
                sub_beat <= total_beats as i64 + 1 || sub_beat == 0,
                beats_per_line >= 1,
                f == minor_beat_at(beats_per_line as int),
                minor@ == collect_range(0, sub_beat - 1, f),
            decreases total_beats - sub_beat + 1,
        {
            let b = sub_beat as i32;
            let ghost prev = minor@;
            if b % beats_per_line != 0 {
                minor.push(b);
            }
            assert(minor@ == match f(b as int) {
                Some(m) => prev.push(m),
                None => prev,
            });
            sub_beat = sub_beat + 1;
        }
    }
    (major, minor)
}

/// The faint lines stand strictly between the full ones: every faint beat
/// lies within the content and is not a multiple of the full-line interval.
pub proof fn lemma_minor_beats_between_major(total_beats: int, beats_per_line: int, k: int)
    requires
        beats_per_line >= 1,
        total_beats <= i32::MAX,
        0 <= k < collect_range(0, total_beats, minor_beat_at(beats_per_line)).len(),
    ensures
        0 <= collect_range(0, total_beats, minor_beat_at(beats_per_line))[k] <= total_beats,
        (collect_range(0, total_beats, minor_beat_at(beats_per_line))[k] as int) % beats_per_line != 0,
{
    let f = minor_beat_at(beats_per_line);
    lemma_collect_range_members(0, total_beats, f, k);
    let u = choose|u: int| 0 <= u <= total_beats && #[trigger] f(u) == Some(collect_range(0, total_beats, f)[k]);
    assert((u as i32) as int == u);
}

/// A horizontal line of the piano-roll grid, at the bottom edge of the
/// row of MIDI note `note`.
#[derive(Clone, Copy, Debug, PartialEq, Eq, Structural)]
pub struct GridRow {
    pub note: u32,
    /// Whether the line is an octave boundary, drawn stronger.
    pub octave: bool,
}

/// The line at MIDI note `n`: an octave line on every C, a note line
/// elsewhere when rows are tall enough to show them.
pub open spec fn grid_row_at(show_per_note: bool) -> spec_fn(int) -> Option<GridRow> {
    |n: int|
        if n % 12 == 0 {
            Some(GridRow { note: n as u32, octave: true })
        } else if show_per_note {
            Some(GridRow { note: n as u32, octave: false })
        } else {
            None
        }
}

/// The horizontal lines of the piano-roll grid for notes 0 to 128, from
/// the lowest; `show_per_note` tells whether rows are tall enough for a line
/// between every two notes.
pub fn note_grid_rows(show_per_note: bool) -> (rows: Vec<GridRow>)
    ensures
        rows@ == collect_range(0, 128, grid_row_at(show_per_note)),
{
    let ghost f = grid_row_at(show_per_note);
    let mut rows: Vec<GridRow> = Vec::new();
    let mut midi_note: u32 = 0;
    while midi_note <= 128
        invariant
            midi_note <= 129,
            f == grid_row_at(show_per_note),
            rows@ == collect_range(0, midi_note - 1, f),
        decreases 129 - midi_note,
    {
        let ghost prev = rows@;
        if midi_note % 12 == 0 {
            rows.push(GridRow { note: midi_note, octave: true });
        } else if show_per_note {
            rows.push(GridRow { note: midi_note, octave: false });
        }
        assert(rows@ == match f(midi_note as int) {
            Some(m) => prev.push(m),
            None => prev,
        });
        midi_note = midi_note + 1;
    }
    rows
}

/// One frame of seeking by pressing and dragging on the ruler.
#[derive(Clone, Copy, Debug, PartialEq, Eq, Structural)]
pub struct RulerSeekStep {
    /// The tick to move the playhead to this frame, if any.
    pub seek_to: Option<i64>,
    /// Whether the seek gesture ended this frame with a position.
    pub drag_ended: bool,
    /// Whether a seek gesture is under way for the next frame.
    pub seeking: bool,
}

/// Decides one frame of the ruler's seek gesture. `seeking` tells whether a
/// gesture was under way at the start of the frame; `pressed_inside` whether
/// the primary button was pressed this frame with its press inside the
/// ruler; `down` and `released` the state of the primary button; and
/// `hover_ticks` the tick under the pointer, when it is over the window.
/// While a gesture is under way the playhead follows the pointer; releasing
/// the button, or finding it up, ends the gesture.
pub fn ruler_seek_step(
    seeking: bool,
    pressed_inside: bool,
    down: bool,
    released: bool,
    hover_ticks: Option<i64>,
) -> (s: RulerSeekStep)
    ensures
        s.seek_to == if seeking && (down || released) {
            hover_ticks
        } else {
            None
        },
        s.drag_ended == (seeking && released && hover_ticks is Some),
        s.seeking == if seeking && (released || !down) {
            false
        } else {
            seeking || pressed_inside
        },
{
    let mut next = seeking;
    if pressed_inside {
        next = true;
    }
    let mut seek_to: Option<i64> = None;
    let mut drag_ended = false;
    if seeking {
        if down {
            if let Some(t) = hover_ticks {
                seek_to = Some(t);
            }
        }
        if released {
            if let Some(t) = hover_ticks {
                seek_to = Some(t);
                drag_ended = true;
            }
            next = false;
        }
        if !down {
            next = false;
        }
    }
    RulerSeekStep { seek_to, drag_ended, seeking: next }
}

} // verus!
