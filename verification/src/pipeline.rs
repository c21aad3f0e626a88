//! The pipeline as a state machine. Each method of [`AppContext`] takes what
//! happened outside (the clipboard changed, a file was decoded, the encoder
//! returned, the artifact was written, the clipboard was replaced or
//! restored, a revert was asked for) and answers with the next state and the
//! [`Action`] to perform.

use crate::action::{
    AbortReason, Action, ActionView, ArtifactView, ClipboardFault, DecodeFault, EncodeFault,
    OptimizedArtifact, SkipReason, WriteFault,
};
use crate::codec::stream_view;
use crate::guard::ProcessingGuard;
use crate::paths::{artifact_path, artifact_path_of};
use crate::raster::{ProcessableImage, RawImage, Raster};
use crate::revert::RevertState;
use crate::snapshot::{
    ClipboardSnapshot, DecodedFile, DecodedView, OriginalSizeInfo, SnapshotView, Source,
    SourceView,
};
use vstd::prelude::*;

verus! {

/// Where a run stands.
#[derive(Clone, Copy, Debug, PartialEq, Eq)]
pub enum Phase {
    /// No run is in flight.
    Idle,
    /// A file is being decoded.
    Decoding,
    /// The image is being compressed.
    Encoding { original: OriginalSizeInfo },
    /// The artifact is being written.
    Writing { original: OriginalSizeInfo, new_size: u64 },
    /// The clipboard is being replaced.
    Replacing { original: OriginalSizeInfo, new_size: u64 },
    /// A revert is putting the stored original back on the clipboard.
    Restoring,
}

/// An [`AppContext`] as contracts see it.
pub struct ContextView {
    /// The application's private data directory.
    pub data_dir: Seq<char>,
    /// Whether the processing guard is held.
    pub guard_held: bool,
    /// Where the run in flight stands.
    pub phase: Phase,
    /// The original that a revert would restore.
    pub stored: Option<Raster>,
}

impl ContextView {
    /// The state at startup.
    pub open spec fn initial(data_dir: Seq<char>) -> ContextView {
        ContextView { data_dir, guard_held: false, phase: Phase::Idle, stored: None }
    }

    /// The guard is held exactly while a run or a revert is in flight.
    pub open spec fn consistent(self) -> bool {
        self.guard_held <==> !(self.phase is Idle)
    }

    /// Nothing is in flight and the guard is free.
    pub open spec fn is_idle(self) -> bool {
        !self.guard_held && self.phase is Idle
    }

    /// The state after a run or a revert has ended.
    pub open spec fn finished(self) -> ContextView {
        ContextView { guard_held: false, phase: Phase::Idle, ..self }
    }

    /// The state in which a run waits for the outcome of its next action.
    pub open spec fn moved_to(self, phase: Phase) -> ContextView {
        ContextView { phase, ..self }
    }

    /// The answer to a clipboard-change notification. In this order: a
    /// snapshot of this system's own artifact is skipped; so is one without
    /// an image; while the guard is held the trigger is dropped; otherwise
    /// the guard is taken and a run starts. A bitmap is kept for a revert and
    /// goes to the compressor without its alpha channel; a file goes to the
    /// decoder.
    pub open spec fn clipboard_changed(self, snapshot: SnapshotView, advertised: Option<u64>) -> (
        ContextView,
        ActionView,
    ) {
        if snapshot.is_self_trigger(self.data_dir) {
            (self, ActionView::Skip { reason: SkipReason::SelfTrigger })
        } else {
            match snapshot.source(advertised) {
                SourceView::Absent => (self, ActionView::Skip { reason: SkipReason::NoImage }),
                SourceView::File { path } => if self.guard_held {
                    (self, ActionView::Skip { reason: SkipReason::Busy })
                } else {
                    (
                        ContextView { guard_held: true, phase: Phase::Decoding, ..self },
                        ActionView::DecodeFile { path },
                    )
                },
                SourceView::Raw { original, size } => if self.guard_held {
                    (self, ActionView::Skip { reason: SkipReason::Busy })
                } else {
                    (
                        ContextView {
                            guard_held: true,
                            phase: Phase::Encoding { original: size },
                            stored: Some(original),
                            ..self
                        },
                        ActionView::Compress { image: original.without_alpha() },
                    )
                },
            }
        }
    }

    /// The answer to the decoder's report. A decoded image whose buffer
    /// matches its dimensions goes to the compressor; anything else ends the
    /// run.
    pub open spec fn file_decoded(self, outcome: Result<DecodedView, DecodeFault>) -> (
        ContextView,
        ActionView,
    ) {
        if !(self.phase is Decoding) {
            (self, ActionView::Skip { reason: SkipReason::OutOfTurn })
        } else {
            match outcome {
                Ok(decoded) => if decoded.raster().is_rgb() {
                    (
                        self.moved_to(
                            Phase::Encoding {
                                original: OriginalSizeInfo::OnDisk(decoded.file_size),
                            },
                        ),
                        ActionView::Compress { image: decoded.raster() },
                    )
                } else {
                    (self.finished(), ActionView::Abort { cause: AbortReason::MalformedImage })
                },
                Err(fault) => (
                    self.finished(),
                    ActionView::Abort { cause: AbortReason::Decode(fault) },
                ),
            }
        }
    }

    /// The answer to the compressor's report. A stream that is not empty is
    /// written to the artifact path; a fault or an empty stream ends the run
    /// with nothing written.
    pub open spec fn encoded(self, outcome: Result<Seq<u8>, EncodeFault>) -> (
        ContextView,
        ActionView,
    ) {
        match self.phase {
            Phase::Encoding { original } => match outcome {
                Ok(bytes) => if bytes.len() > 0 {
                    (
                        self.moved_to(Phase::Writing { original, new_size: bytes.len() as u64 }),
                        ActionView::WriteArtifact {
                            directory: self.data_dir,
                            path: artifact_path_of(self.data_dir),
                            bytes,
                        },
                    )
                } else {
                    (self.finished(), ActionView::Abort { cause: AbortReason::EmptyEncoding })
                },
                Err(fault) => (
                    self.finished(),
                    ActionView::Abort { cause: AbortReason::Encode(fault) },
                ),
            },
            _ => (self, ActionView::Skip { reason: SkipReason::OutOfTurn }),
        }
    }

    /// The answer to the outcome of the write. Only once the artifact is on
    /// disk is the clipboard touched.
    pub open spec fn artifact_written(self, outcome: Result<(), WriteFault>) -> (
        ContextView,
        ActionView,
    ) {
        match self.phase {
            Phase::Writing { original, new_size } => match outcome {
                Ok(_) => (
                    self.moved_to(Phase::Replacing { original, new_size }),
                    ActionView::ReplaceClipboard { path: artifact_path_of(self.data_dir) },
                ),
                Err(fault) => (
                    self.finished(),
                    ActionView::Abort { cause: AbortReason::Write(fault) },
                ),
            },
            _ => (self, ActionView::Skip { reason: SkipReason::OutOfTurn }),
        }
    }

    /// The answer to the outcome of the clipboard replacement. Either way the
    /// run is over.
    pub open spec fn clipboard_replaced(self, outcome: Result<(), ClipboardFault>) -> (
        ContextView,
        ActionView,
    ) {
        match self.phase {
            Phase::Replacing { original, new_size } => match outcome {
                Ok(_) => (
                    self.finished(),
                    ActionView::Complete {
                        artifact: ArtifactView {
                            path: artifact_path_of(self.data_dir),
                            byte_size: new_size,
                        },
                        original_size: original.spec_bytes(),
                    },
                ),
                Err(fault) => (
                    self.finished(),
                    ActionView::Abort { cause: AbortReason::Clipboard(fault) },
                ),
            },
            _ => (self, ActionView::Skip { reason: SkipReason::OutOfTurn }),
        }
    }

    /// The answer to a revert command. With nothing stored there is nothing
    /// to do; while the guard is held the command is dropped; otherwise the
    /// guard is taken and the stored original goes back on the clipboard.
    /// The original stays stored.
    pub open spec fn revert_requested(self) -> (ContextView, ActionView) {
        match self.stored {
            None => (self, ActionView::Skip { reason: SkipReason::NothingStored }),
            Some(original) => if self.guard_held {
                (self, ActionView::Skip { reason: SkipReason::Busy })
            } else {
                (
                    ContextView { guard_held: true, phase: Phase::Restoring, ..self },
                    ActionView::RestoreOriginal { original },
                )
            },
        }
    }

    /// The answer to the outcome of putting the original back. Either way
    /// the revert is over.
    pub open spec fn clipboard_restored(self, outcome: Result<(), ClipboardFault>) -> (
        ContextView,
        ActionView,
    ) {
        if !(self.phase is Restoring) {
            (self, ActionView::Skip { reason: SkipReason::OutOfTurn })
        } else {
            match outcome {
                Ok(_) => (self.finished(), ActionView::Reverted),
                Err(fault) => (
                    self.finished(),
                    ActionView::Abort { cause: AbortReason::Clipboard(fault) },
                ),
            }
        }
    }
}

/// The state that the watcher thread and the command handlers share: the data
/// directory, the processing guard, the run in flight and the revert store.
#[derive(Debug)]
pub struct AppContext {
    data_dir: String,
    guard: ProcessingGuard,
    phase: Phase,
    revert: RevertState,
}

impl View for AppContext {
    type V = ContextView;

    closed spec fn view(&self) -> ContextView {
        ContextView {
            data_dir: self.data_dir@,
            guard_held: self.guard.is_held(),
            phase: self.phase,
            stored: self.revert@,
        }
    }
}

impl AppContext {
    /// The context at startup, for the data directory `data_dir`.
    pub fn new(data_dir: String) -> (context: AppContext)
        ensures
            context@ == ContextView::initial(data_dir@),
    {
        AppContext {
            data_dir,
            guard: ProcessingGuard::new(),
            phase: Phase::Idle,
            revert: RevertState::new(),
        }
    }

    /// The application's private data directory.
    pub fn data_dir(&self) -> (dir: &str)
        ensures
            dir@ == self@.data_dir,
    {
        self.data_dir.as_str()
    }

    /// The path of the optimized artifact.
    pub fn artifact_path(&self) -> (path: String)
        ensures
            path@ == artifact_path_of(self@.data_dir),
    {
        artifact_path(self.data_dir.as_str())
    }

    /// Whether the guard is held: a run or a revert is in flight.
    pub fn is_busy(&self) -> (busy: bool)
        ensures
            busy == self@.guard_held,
    {
        self.guard.held()
    }

    /// Where the run in flight stands.
    pub fn phase(&self) -> (phase: Phase)
        ensures
            phase == self@.phase,
    {
        self.phase
    }

    /// Whether a revert would restore an image.
    pub fn can_revert(&self) -> (can: bool)
        ensures
            can == self@.stored is Some,
    {
        self.revert.original().is_some()
    }

    fn finish(&mut self)
        ensures
            final(self)@ == old(self)@.finished(),
    {
        self.phase = Phase::Idle;
        self.guard.release();
    }

    /// Answers a clipboard-change notification.
    ///
    /// A snapshot of this system's own artifact changes nothing, whatever
    /// the state. While the guard is held, no snapshot starts a run.
    pub fn on_clipboard_change(
        &mut self,
        snapshot: ClipboardSnapshot,
        advertised_size: Option<u64>,
    ) -> (action: Action)
        ensures
            final(self)@ == old(self)@.clipboard_changed(snapshot@, advertised_size).0,
            action@ == old(self)@.clipboard_changed(snapshot@, advertised_size).1,
            snapshot@.is_self_trigger(old(self)@.data_dir) ==> final(self)@ == old(self)@
                && action@ == (ActionView::Skip { reason: SkipReason::SelfTrigger }),
            old(self)@.guard_held ==> final(self)@ == old(self)@ && action@ is Skip,
    {
        if snapshot.is_self_trigger(self.data_dir.as_str()) {
            return Action::Skip { reason: SkipReason::SelfTrigger };
        }
        match snapshot.resolve(advertised_size) {
            Source::Absent => Action::Skip { reason: SkipReason::NoImage },
            Source::File { path } => {
                if self.guard.try_acquire() {
                    self.phase = Phase::Decoding;
                    Action::DecodeFile { path }
                } else {
                    Action::Skip { reason: SkipReason::Busy }
                }
            },
            Source::Raw { original, size } => {
                if self.guard.try_acquire() {
                    let image: ProcessableImage = original.to_rgb();
                    self.revert.store(original);
                    self.phase = Phase::Encoding { original: size };
                    Action::Compress { image }
                } else {
                    Action::Skip { reason: SkipReason::Busy }
                }
            },
        }
    }

    /// Answers the decoder's report.
    pub fn on_file_decoded(&mut self, outcome: Result<DecodedFile, DecodeFault>) -> (action: Action)
        ensures
            final(self)@ == old(self)@.file_decoded(outcome_view(outcome)).0,
            action@ == old(self)@.file_decoded(outcome_view(outcome)).1,
    {
        match self.phase {
            Phase::Decoding => {},
            _ => {
                return Action::Skip { reason: SkipReason::OutOfTurn };
            },
        }
        match outcome {
            Ok(decoded) => match decoded.confirm() {
                Ok((image, size)) => {
                    self.phase = Phase::Encoding { original: size };
                    Action::Compress { image }
                },
                Err(_) => {
                    self.finish();
                    Action::Abort { cause: AbortReason::MalformedImage }
                },
            },
            Err(fault) => {
                self.finish();
                Action::Abort { cause: AbortReason::Decode(fault) }
            },
        }
    }

    /// Answers the compressor's report.
    pub fn on_encoded(&mut self, outcome: Result<Vec<u8>, EncodeFault>) -> (action: Action)
        ensures
            final(self)@ == old(self)@.encoded(stream_view(outcome)).0,
            action@ == old(self)@.encoded(stream_view(outcome)).1,
    {
        match self.phase {
            Phase::Encoding { original } => match outcome {
                Ok(bytes) => {
                    if bytes.len() > 0 {
                        let new_size: u64 = bytes.len() as u64;
                        self.phase = Phase::Writing { original, new_size };
                        Action::WriteArtifact {
                            directory: self.data_dir.clone(),
                            path: artifact_path(self.data_dir.as_str()),
                            bytes,
                        }
                    } else {
                        self.finish();
                        Action::Abort { cause: AbortReason::EmptyEncoding }
                    }
                },
                Err(fault) => {
                    self.finish();
                    Action::Abort { cause: AbortReason::Encode(fault) }
                },
            },
            _ => Action::Skip { reason: SkipReason::OutOfTurn },
        }
    }

    /// Answers the outcome of the write.
    pub fn on_artifact_written(&mut self, outcome: Result<(), WriteFault>) -> (action: Action)
        ensures
            final(self)@ == old(self)@.artifact_written(outcome).0,
            action@ == old(self)@.artifact_written(outcome).1,
    {
        match self.phase {
            Phase::Writing { original, new_size } => match outcome {
                Ok(_) => {
                    self.phase = Phase::Replacing { original, new_size };
                    Action::ReplaceClipboard { path: artifact_path(self.data_dir.as_str()) }
                },
                Err(fault) => {
                    self.finish();
                    Action::Abort { cause: AbortReason::Write(fault) }
                },
            },
            _ => Action::Skip { reason: SkipReason::OutOfTurn },
        }
    }

    /// Answers the outcome of the clipboard replacement.
    pub fn on_clipboard_replaced(&mut self, outcome: Result<(), ClipboardFault>) -> (action:
        Action)
        ensures
            final(self)@ == old(self)@.clipboard_replaced(outcome).0,
            action@ == old(self)@.clipboard_replaced(outcome).1,
    {
        match self.phase {
            Phase::Replacing { original, new_size } => match outcome {
                Ok(_) => {
                    self.finish();
                    Action::Complete {
                        artifact: OptimizedArtifact {
                            path: artifact_path(self.data_dir.as_str()),
                            byte_size: new_size,
                        },
                        original_size: original.bytes(),
                    }
                },
                Err(fault) => {
                    self.finish();
                    Action::Abort { cause: AbortReason::Clipboard(fault) }
                },
            },
            _ => Action::Skip { reason: SkipReason::OutOfTurn },
        }
    }

    /// Answers a revert command. The stored original stays stored, so the
    /// command can be repeated.
    pub fn on_revert_requested(&mut self) -> (action: Action)
        ensures
            final(self)@ == old(self)@.revert_requested().0,
            action@ == old(self)@.revert_requested().1,
    {
        let original: RawImage = match self.revert.original() {
            Some(image) => image.clone(),
            None => {
                return Action::Skip { reason: SkipReason::NothingStored };
            },
        };
        if self.guard.try_acquire() {
            self.phase = Phase::Restoring;
            Action::RestoreOriginal { original }
        } else {
            Action::Skip { reason: SkipReason::Busy }
        }
    }

    /// Answers the outcome of putting the original back on the clipboard.
    pub fn on_clipboard_restored(&mut self, outcome: Result<(), ClipboardFault>) -> (action:
        Action)
        ensures
            final(self)@ == old(self)@.clipboard_restored(outcome).0,
            action@ == old(self)@.clipboard_restored(outcome).1,
    {
        match self.phase {
            Phase::Restoring => {},
            _ => {
                return Action::Skip { reason: SkipReason::OutOfTurn };
            },
        }
        self.finish();
        match outcome {
            Ok(_) => Action::Reverted,
            Err(fault) => Action::Abort { cause: AbortReason::Clipboard(fault) },
        }
    }

    /// The original that a revert would restore, if one is stored.
    pub fn stored_original(&self) -> (stored: Option<&RawImage>)
        ensures
            match stored {
                Some(image) => self@.stored == Some(image@),
                None => self@.stored is None,
            },
    {
        self.revert.original()
    }
}

/// The decoder's report as contracts see it.
pub open spec fn outcome_view(outcome: Result<DecodedFile, DecodeFault>) -> Result<
    DecodedView,
    DecodeFault,
> {
    match outcome {
        Ok(decoded) => Ok(decoded@),
        Err(fault) => Err(fault),
    }
}

} // verus!
