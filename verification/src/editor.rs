//! The editor state that the frame loop reads and updates: when the project
//! was last edited, the export in progress, and whether playback runs.
//!
//! Each frame the editor queues actions and runs them at the end; an edit
//! marks the project modified, and once edits have settled for 300 ms the
//! project is sent to the audio thread.
use crate::clock::{elapsed_nanos, now};
use std::time::Instant;
use vstd::prelude::*;

verus! {

/// The queue-side state of the editor: the actions queued this frame, the
/// time of the last edit not yet sent to the audio thread, and the file an
/// export in progress writes to. `A` is the type of actions.
pub struct ActionDispatcher<A, P> {
    pub pending: Vec<A>,
    pub last_edit_time: Option<Instant>,
    pub pending_export_path: Option<P>,
}

/// The playback state shown by the transport.
#[derive(Clone, Copy, Debug, PartialEq, Eq, Structural)]
pub struct TransportState {
    pub is_playing: bool,
}

/// The editor state; `A` is the type of actions and `P` that of file paths.
pub struct EditorState<A, P> {
    pub actions: ActionDispatcher<A, P>,
    pub transport: TransportState,
}

/// How long edits must rest before the project is sent to the audio thread:
/// 300 ms, in nanoseconds.
pub open spec fn settle_nanos() -> int {
    300_000_000
}

/// Whether a rest of `elapsed` nanoseconds is longer than 300 ms.
pub open spec fn rested(elapsed: u128) -> bool {
    elapsed > settle_nanos()
}

/// Whether edits that rested for `elapsed` nanoseconds have settled: the
/// rest must be strictly longer than 300 ms.
pub fn edit_settled(elapsed: u128) -> (settled: bool)
    ensures
        settled == (elapsed > settle_nanos()),
{
    elapsed > 300_000_000
}

impl<A, P> ActionDispatcher<A, P> {
    /// A dispatcher with no action queued, no edit pending and no export in
    /// progress.
    pub fn new() -> (d: Self)
        ensures
            d.pending@.len() == 0,
            d.last_edit_time is None,
            d.pending_export_path is None,
    {
        ActionDispatcher { pending: Vec::new(), last_edit_time: None, pending_export_path: None }
    }

    /// Queues `action`, to run at the end of the frame after those queued
    /// before it.
    pub fn push_action(&mut self, action: A)
        ensures
            final(self).pending@ == old(self).pending@.push(action),
            final(self).last_edit_time == old(self).last_edit_time,
            final(self).pending_export_path == old(self).pending_export_path,
    {
        self.pending.push(action);
    }

    /// Takes every queued action, in the order queued, leaving the queue
    /// empty.
    pub fn drain_actions(&mut self) -> (actions: Vec<A>)
        ensures
            actions@ == old(self).pending@,
            final(self).pending@.len() == 0,
            final(self).last_edit_time == old(self).last_edit_time,
            final(self).pending_export_path == old(self).pending_export_path,
    {
        let mut actions: Vec<A> = Vec::new();
        std::mem::swap(&mut actions, &mut self.pending);
        actions
    }

    /// Marks the project as modified now.
    pub fn modified_project(&mut self)
        ensures
            final(self).last_edit_time is Some,
            final(self).pending_export_path == old(self).pending_export_path,
            final(self).pending@ == old(self).pending@,
    {
        self.last_edit_time = Some(now());
    }

    /// Starts an export to `path` unless one is in progress; returns whether
    /// it started. An export in progress is left as it is.
    pub fn try_begin_export(&mut self, path: P) -> (started: bool)
        ensures
            started == old(self).pending_export_path is None,
            started ==> final(self).pending_export_path == Some(path),
            !started ==> final(self).pending_export_path == old(self).pending_export_path,
            final(self).last_edit_time == old(self).last_edit_time,
            final(self).pending@ == old(self).pending@,
    {
        if self.pending_export_path.is_some() {
            false
        } else {
            self.pending_export_path = Some(path);
            true
        }
    }

    /// Ends the export in progress when its audio has been rendered: returns
    /// the file to write, if an export was in progress, and clears it.
    pub fn finish_export(&mut self) -> (path: Option<P>)
        ensures
            path == old(self).pending_export_path,
            final(self).pending_export_path is None,
            final(self).last_edit_time == old(self).last_edit_time,
            final(self).pending@ == old(self).pending@,
    {
        self.pending_export_path.take()
    }
}

/// What to do with one result read from the audio thread.
pub enum AudioResultStep<P> {
    /// Rendered audio of the export in progress: write it to this file.
    WriteWav(P),
    /// Rendered audio with no export in progress: stop reading results for
    /// this frame.
    Stop,
    /// A failed render: skip it.
    Ignore,
}

impl<A, P> ActionDispatcher<A, P> {
    /// Decides what to do with a result of the audio thread; `exported`
    /// tells whether it is rendered export audio (as opposed to an error).
    /// Rendered audio ends the export in progress.
    pub fn on_audio_result(&mut self, exported: bool) -> (step: AudioResultStep<P>)
        ensures
            !exported ==> step is Ignore && final(self).pending_export_path == old(self).pending_export_path,
            exported ==> final(self).pending_export_path is None && match old(self).pending_export_path {
                Some(p) => step == AudioResultStep::WriteWav(p),
                None => step is Stop,
            },
            final(self).last_edit_time == old(self).last_edit_time,
            final(self).pending@ == old(self).pending@,
    {
        if !exported {
            return AudioResultStep::Ignore;
        }
        match self.finish_export() {
            Some(path) => AudioResultStep::WriteWav(path),
            None => AudioResultStep::Stop,
        }
    }
}

impl<A, P> EditorState<A, P> {
    /// An editor state with nothing pending and playback stopped.
    pub fn new() -> (s: Self)
        ensures
            s.actions.pending@.len() == 0,
            s.actions.last_edit_time is None,
            s.actions.pending_export_path is None,
            !s.transport.is_playing,
    {
        EditorState { actions: ActionDispatcher::new(), transport: TransportState { is_playing: false } }
    }

    /// Marks the project as modified now; it is sent to the audio thread
    /// once edits have settled.
    pub fn modified_project(&mut self)
        ensures
            final(self).actions.last_edit_time is Some,
            final(self).actions.pending_export_path == old(self).actions.pending_export_path,
            final(self).actions.pending@ == old(self).actions.pending@,
            final(self).transport == old(self).transport,
    {
        self.actions.modified_project();
    }

    /// Decides, for a pending edit that has rested `elapsed` nanoseconds,
    /// whether the project must be sent to the audio thread now: when an edit
    /// is pending and has rested for more than 300 ms, it is cleared and
    /// `true` is returned; otherwise nothing changes.
    pub fn settle_edit_after(&mut self, elapsed: u128) -> (send: bool)
        ensures
            send == (old(self).actions.last_edit_time is Some && rested(elapsed)),
            send ==> final(self).actions.last_edit_time is None,
            !send ==> final(self).actions.last_edit_time == old(self).actions.last_edit_time,
            final(self).actions.pending_export_path == old(self).actions.pending_export_path,
            final(self).actions.pending@ == old(self).actions.pending@,
            final(self).transport == old(self).transport,
    {
        if self.actions.last_edit_time.is_some() && edit_settled(elapsed) {
            self.actions.last_edit_time = None;
            true
        } else {
            false
        }
    }

    /// Decides whether the project must be sent to the audio thread now:
    /// when an edit is pending and has rested for more than 300 ms by the
    /// system clock, it is cleared and `true` is returned; otherwise nothing
    /// changes. The time read from the clock is not stated: the result holds
    /// for whatever rest the clock gave (see `settle_edit_after`).
    pub fn take_settled_edit(&mut self) -> (send: bool)
        ensures
            old(self).actions.last_edit_time is None ==> !send,
            send ==> final(self).actions.last_edit_time is None,
            !send ==> final(self).actions.last_edit_time == old(self).actions.last_edit_time,
            final(self).actions.pending_export_path == old(self).actions.pending_export_path,
            final(self).actions.pending@ == old(self).actions.pending@,
            final(self).transport == old(self).transport,
    {
        let elapsed = match &self.actions.last_edit_time {
            Some(t) => elapsed_nanos(t),
            None => 0,
        };
        self.settle_edit_after(elapsed)
    }

    /// Records the outcome of sending a transport command to the audio
    /// thread: a play or pause that went through starts or stops playback; a
    /// failed one, or a seek, leaves it as it was.
    pub fn transport_command_sent(&mut self, command: TransportCommand, sent: bool)
        ensures
            final(self).transport.is_playing == match command {
                TransportCommand::Play => if sent {
                    true
                } else {
                    old(self).transport.is_playing
                },
                TransportCommand::Pause => if sent {
                    false
                } else {
                    old(self).transport.is_playing
                },
                TransportCommand::Seek => old(self).transport.is_playing,
            },
            final(self).actions.last_edit_time == old(self).actions.last_edit_time,
            final(self).actions.pending_export_path == old(self).actions.pending_export_path,
            final(self).actions.pending@ == old(self).actions.pending@,
    {
        if sent {
            match command {
                TransportCommand::Play => self.transport.is_playing = true,
                TransportCommand::Pause => self.transport.is_playing = false,
                TransportCommand::Seek => {},
            }
        }
    }
}

/// The commands the transport sends to the audio thread.
#[derive(Clone, Copy, Debug, PartialEq, Eq, Structural)]
pub enum TransportCommand {
    Play,
    Pause,
    Seek,
}

} // verus!
