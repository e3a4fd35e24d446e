//! Decisions about tracks: where an imported audio file goes, and whether a
//! region may be moved to another track.
use vstd::prelude::*;

verus! {

/// The kind of a track.
#[derive(Clone, Copy, Debug, PartialEq, Eq, Structural)]
pub enum TrackType {
    Audio,
    Note,
}

/// The track an imported audio file is placed on.
#[derive(Clone, Copy, Debug, PartialEq, Eq)]
pub enum TrackChoice<Id> {
    /// The selected track.
    Selected(Id),
    /// The first audio track of the project.
    Existing(Id),
    /// No track fits: a new audio track is created.
    CreateNew,
}

/// The identifier of the first audio track in `tracks`, if any.
pub open spec fn first_audio<Id>(tracks: Seq<(Id, TrackType)>) -> Option<Id>
    decreases tracks.len(),
{
    if tracks.len() == 0 {
        None
    } else if tracks[0].1 == TrackType::Audio {
        Some(tracks[0].0)
    } else {
        first_audio(tracks.drop_first())
    }
}

/// The track chosen for an import: the selected track when there is one,
/// else the first audio track, else a new track.
pub open spec fn audio_track_choice_spec<Id>(selected: Option<Id>, tracks: Seq<(Id, TrackType)>) -> TrackChoice<Id> {
    match selected {
        Some(id) => TrackChoice::Selected(id),
        None => match first_audio(tracks) {
            Some(id) => TrackChoice::Existing(id),
            None => TrackChoice::CreateNew,
        },
    }
}

proof fn lemma_first_audio_skip<Id>(tracks: Seq<(Id, TrackType)>, i: int)
    requires
        0 <= i < tracks.len(),
        tracks[i].1 != TrackType::Audio,
    ensures
        first_audio(tracks.skip(i)) == first_audio(tracks.skip(i + 1)),
{
    assert(tracks.skip(i).drop_first() =~= tracks.skip(i + 1));
}

/// Chooses the track for an imported audio file. `tracks` lists the tracks
/// of the project with their kinds, in the order the project keeps them.
pub fn choose_audio_track<Id: Copy>(selected: Option<Id>, tracks: &Vec<(Id, TrackType)>) -> (choice: TrackChoice<Id>)
    ensures
        choice == audio_track_choice_spec(selected, tracks@),
{
    if let Some(id) = selected {
        return TrackChoice::Selected(id);
    }
    let mut i: usize = 0;
    assert(tracks@.skip(0) =~= tracks@);
    while i < tracks.len()
        invariant
            selected is None,
            i <= tracks@.len(),
            first_audio(tracks@) == first_audio(tracks@.skip(i as int)),
        decreases tracks@.len() - i,
    {
        if tracks[i].1 == TrackType::Audio {
            let id = tracks[i].0;
            assert(tracks@.skip(i as int)[0] == tracks@[i as int]);
            assert(first_audio(tracks@.skip(i as int)) == Some(tracks@[i as int].0));
            assert(id == tracks@[i as int].0);
            return TrackChoice::Existing(id);
        }
        proof {
            lemma_first_audio_skip(tracks@, i as int);
        }
        i += 1;
    }
    assert(tracks@.skip(i as int).len() == 0);
    TrackChoice::CreateNew
}

/// The first audio track is an audio track, and no track before it is.
pub proof fn lemma_first_audio_is_first<Id>(tracks: Seq<(Id, TrackType)>)
    ensures
        first_audio(tracks) is None ==> forall|j: int| 0 <= j < tracks.len() ==> tracks[j].1 != TrackType::Audio,
        first_audio(tracks) is Some ==> exists|i: int|
            0 <= i < tracks.len() && tracks[i].1 == TrackType::Audio && tracks[i].0 == first_audio(tracks)->0
                && forall|j: int| 0 <= j < i ==> tracks[j].1 != TrackType::Audio,
    decreases tracks.len(),
{
    if tracks.len() > 0 && tracks[0].1 != TrackType::Audio {
        let rest = tracks.drop_first();
        lemma_first_audio_is_first(rest);
        if first_audio(rest) is Some {
            let i = choose|i: int|
                0 <= i < rest.len() && rest[i].1 == TrackType::Audio && rest[i].0 == first_audio(rest)->0
                    && forall|j: int| 0 <= j < i ==> rest[j].1 != TrackType::Audio;
            assert(tracks[i + 1] == rest[i]);
            assert forall|j: int| 0 <= j < i + 1 implies tracks[j].1 != TrackType::Audio by {
                if j > 0 {
                    assert(tracks[j] == rest[j - 1]);
                }
            }
        } else {
            assert forall|j: int| 0 <= j < tracks.len() implies tracks[j].1 != TrackType::Audio by {
                if j > 0 {
                    assert(tracks[j] == rest[j - 1]);
                }
            }
        }
    } else if tracks.len() > 0 {
        assert(tracks[0].1 == TrackType::Audio);
    }
}

/// What moving a region does.
#[derive(Clone, Copy, Debug, PartialEq, Eq, Structural)]
pub enum RegionMovePlan {
    /// Something is missing; nothing changes.
    Abort,
    /// The region stays on its track and only its bounds change.
    SetBounds,
    /// The tracks are of different kinds; the move is refused with a status
    /// message.
    Reject,
    /// The region moves to the other track with its new bounds.
    Transfer,
}

/// The plan for moving a region. `region_found` tells whether the region
/// exists on its track; `same_track` whether the destination is the track it
/// is on; `original` and `destination` are the kinds of the two tracks as the
/// project metadata records them, `None` when the metadata has no such track.
pub open spec fn region_move_plan_spec(
    region_found: bool,
    same_track: bool,
    original: Option<TrackType>,
    destination: Option<TrackType>,
) -> RegionMovePlan {
    if !region_found || original is None {
        RegionMovePlan::Abort
    } else if same_track {
        RegionMovePlan::SetBounds
    } else if destination is None {
        RegionMovePlan::Abort
    } else if original != destination {
        RegionMovePlan::Reject
    } else {
        RegionMovePlan::Transfer
    }
}

/// Plans the move of a region (see `region_move_plan_spec`).
pub fn plan_region_move(
    region_found: bool,
    same_track: bool,
    original: Option<TrackType>,
    destination: Option<TrackType>,
) -> (plan: RegionMovePlan)
    ensures
        plan == region_move_plan_spec(region_found, same_track, original, destination),
{
    if !region_found {
        return RegionMovePlan::Abort;
    }
    match original {
        None => RegionMovePlan::Abort,
        Some(original_type) => {
            if same_track {
                RegionMovePlan::SetBounds
            } else {
                match destination {
                    None => RegionMovePlan::Abort,
                    Some(destination_type) => {
                        if original_type == destination_type {
                            RegionMovePlan::Transfer
                        } else {
                            RegionMovePlan::Reject
                        }
                    },
                }
            }
        },
    }
}

/// A region only ever moves between tracks of the same kind.
pub proof fn lemma_transfer_keeps_kind(
    region_found: bool,
    same_track: bool,
    original: Option<TrackType>,
    destination: Option<TrackType>,
)
    requires
        region_move_plan_spec(region_found, same_track, original, destination) == RegionMovePlan::Transfer,
    ensures
        original is Some && original == destination && !same_track,
{
}

/// What a move does, case by case: a region that is missing, or whose
/// track has no metadata, does not move; on its own track only its bounds
/// change; onto another track whose metadata exists it moves when both
/// tracks are of the same kind, whichever kind that is, and is refused when
/// the kinds differ.
pub proof fn lemma_region_move_cases(
    region_found: bool,
    same_track: bool,
    original: Option<TrackType>,
    destination: Option<TrackType>,
)
    ensures
        !region_found || original is None ==> region_move_plan_spec(region_found, same_track, original, destination)
            == RegionMovePlan::Abort,
        region_found && same_track && original is Some ==> region_move_plan_spec(
            region_found,
            same_track,
            original,
            destination,
        ) == RegionMovePlan::SetBounds,
        region_found && !same_track && original is Some && original == destination ==> region_move_plan_spec(
            region_found,
            same_track,
            original,
            destination,
        ) == RegionMovePlan::Transfer,
        region_found && !same_track && original is Some && destination is Some && original != destination
            ==> region_move_plan_spec(region_found, same_track, original, destination) == RegionMovePlan::Reject,
        region_found && !same_track && original is Some && destination is None ==> region_move_plan_spec(
            region_found,
            same_track,
            original,
            destination,
        ) == RegionMovePlan::Abort,
{
}

} // verus!
