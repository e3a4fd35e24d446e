//! The status messages shown when background work finishes.
use vstd::prelude::*;

verus! {

/// The outcome of a job of the background thread; the flag tells whether
/// it succeeded.
#[derive(Clone, Copy, Debug, PartialEq, Eq, Structural)]
pub enum BackgroundOutcome {
    SavedProject(bool),
    OpenedProject(bool),
    WroteWav(bool),
    ImportedAudio(bool),
    GeneratedWaveform,
    LintedKasl,
}

/// The temporary status shown for an outcome; waveforms and lint results
/// are applied silently.
pub open spec fn status_message_spec(outcome: BackgroundOutcome) -> Option<Seq<char>> {
    match outcome {
        BackgroundOutcome::SavedProject(ok) => Some(
            if ok {
                "Saved project"@
            } else {
                "Failed to save project"@
            },
        ),
        BackgroundOutcome::OpenedProject(ok) => Some(
            if ok {
                "Opened project"@
            } else {
                "Failed to open project"@
            },
        ),
        BackgroundOutcome::WroteWav(ok) => Some(
            if ok {
                "Exported project"@
            } else {
                "Failed to export project"@
            },
        ),
        BackgroundOutcome::ImportedAudio(ok) => Some(
            if ok {
                "Imported audio"@
            } else {
                "Failed to import audio"@
            },
        ),
        BackgroundOutcome::GeneratedWaveform => None,
        BackgroundOutcome::LintedKasl => None,
    }
}

/// The temporary status to show when a background job ends.
pub fn status_message(outcome: BackgroundOutcome) -> (message: Option<&'static str>)
    ensures
        match message {
            Some(m) => status_message_spec(outcome) == Some(m@),
            None => status_message_spec(outcome) is None,
        },
{
    match outcome {
        BackgroundOutcome::SavedProject(ok) => Some(
            if ok {
                "Saved project"
            } else {
                "Failed to save project"
            },
        ),
        BackgroundOutcome::OpenedProject(ok) => Some(
            if ok {
                "Opened project"
            } else {
                "Failed to open project"
            },
        ),
        BackgroundOutcome::WroteWav(ok) => Some(
            if ok {
                "Exported project"
            } else {
                "Failed to export project"
            },
        ),
        BackgroundOutcome::ImportedAudio(ok) => Some(
            if ok {
                "Imported audio"
            } else {
                "Failed to import audio"
            },
        ),
        BackgroundOutcome::GeneratedWaveform => None,
        BackgroundOutcome::LintedKasl => None,
    }
}

} // verus!
