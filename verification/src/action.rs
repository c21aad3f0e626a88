//! What the pipeline asks of its caller, and what the caller may report
//! back as having gone wrong.

use crate::raster::{ProcessableImage, Raster, RawImage};
use vstd::prelude::*;

verus! {

/// Why an image file could not be turned into pixels.
#[derive(Clone, Copy, Debug, PartialEq, Eq)]
pub enum DecodeFault {
    /// The file could not be read.
    Unreadable,
    /// Its content is not an image that the decoder understands.
    Undecodable,
}

/// Why the compressor returned no JPEG.
#[derive(Clone, Copy, Debug, PartialEq, Eq)]
pub enum EncodeFault {
    /// The encoder refused the image.
    Rejected,
    /// The encoder terminated abnormally and was stopped at the boundary.
    Crashed,
}

/// Why the artifact is not on disk.
#[derive(Clone, Copy, Debug, PartialEq, Eq)]
pub enum WriteFault {
    /// The data directory could not be created.
    Directory,
    /// The file could not be written.
    File,
}

/// Why the clipboard does not hold the artifact.
#[derive(Clone, Copy, Debug, PartialEq, Eq)]
pub enum ClipboardFault {
    /// The clipboard could not be cleared.
    Clearing,
    /// The clipboard was cleared, but the file list could not be set.
    Setting,
}

/// Why an event started no run or was passed over.
#[derive(Clone, Copy, Debug, PartialEq, Eq)]
pub enum SkipReason {
    /// The clipboard holds this system's own artifact.
    SelfTrigger,
    /// The clipboard holds no processable image.
    NoImage,
    /// The guard is held: the trigger, or the command, is dropped.
    Busy,
    /// The event answers no action that is outstanding.
    OutOfTurn,
    /// A revert was asked for, and no original is stored.
    NothingStored,
}

/// Why a run that had started was given up.
#[derive(Clone, Copy, Debug, PartialEq, Eq)]
pub enum AbortReason {
    /// The file could not be decoded.
    Decode(DecodeFault),
    /// The decoder reported a buffer that does not match its dimensions.
    MalformedImage,
    /// The compressor failed.
    Encode(EncodeFault),
    /// The compressor returned an empty stream.
    EmptyEncoding,
    /// The artifact could not be written.
    Write(WriteFault),
    /// The clipboard could not be replaced.
    Clipboard(ClipboardFault),
}

/// The optimized JPEG on disk.
#[derive(Debug, PartialEq, Eq)]
pub struct OptimizedArtifact {
    pub path: String,
    pub byte_size: u64,
}

/// An [`OptimizedArtifact`] as contracts see it.
pub struct ArtifactView {
    pub path: Seq<char>,
    pub byte_size: u64,
}

impl View for OptimizedArtifact {
    type V = ArtifactView;

    open spec fn view(&self) -> ArtifactView {
        ArtifactView { path: self.path@, byte_size: self.byte_size }
    }
}

/// What the caller is to do next.
#[derive(Debug, PartialEq, Eq)]
pub enum Action {
    /// Nothing. The state is as it was.
    Skip { reason: SkipReason },
    /// Read the file at `path`, decode its content, and report the pixels
    /// with the file's size on disk, or the fault.
    DecodeFile { path: String },
    /// Signal `optimization-start`, then compress `image` and report the
    /// byte stream, or the fault; an abnormal termination of the codec is
    /// reported as `EncodeFault::Crashed`.
    Compress { image: ProcessableImage },
    /// Create `directory` if it is absent, then write `bytes` to `path`,
    /// over any file that is there.
    WriteArtifact { directory: String, path: String, bytes: Vec<u8> },
    /// Clear the clipboard, then set it to the file list of exactly `path`.
    ReplaceClipboard { path: String },
    /// Signal `optimization-complete` with `original_size` and the
    /// artifact's size. The run is over.
    Complete { artifact: OptimizedArtifact, original_size: u64 },
    /// Nothing more: the run, or the revert, is over, without a signal.
    Abort { cause: AbortReason },
    /// Clear the clipboard, then set it to `original`.
    RestoreOriginal { original: RawImage },
    /// Nothing more: the clipboard holds the original again.
    Reverted,
}

/// An [`Action`] as contracts see it.
pub enum ActionView {
    Skip { reason: SkipReason },
    DecodeFile { path: Seq<char> },
    Compress { image: Raster },
    WriteArtifact { directory: Seq<char>, path: Seq<char>, bytes: Seq<u8> },
    ReplaceClipboard { path: Seq<char> },
    Complete { artifact: ArtifactView, original_size: u64 },
    Abort { cause: AbortReason },
    RestoreOriginal { original: Raster },
    Reverted,
}

impl View for Action {
    type V = ActionView;

    open spec fn view(&self) -> ActionView {
        match self {
            Action::Skip { reason } => ActionView::Skip { reason: *reason },
            Action::DecodeFile { path } => ActionView::DecodeFile { path: path@ },
            Action::Compress { image } => ActionView::Compress { image: image@ },
            Action::WriteArtifact { directory, path, bytes } => ActionView::WriteArtifact {
                directory: directory@,
                path: path@,
                bytes: bytes@,
            },
            Action::ReplaceClipboard { path } => ActionView::ReplaceClipboard { path: path@ },
            Action::Complete { artifact, original_size } => ActionView::Complete {
                artifact: artifact@,
                original_size: *original_size,
            },
            Action::Abort { cause } => ActionView::Abort { cause: *cause },
            Action::RestoreOriginal { original } => ActionView::RestoreOriginal {
                original: original@,
            },
            Action::Reverted => ActionView::Reverted,
        }
    }
}

impl Action {
    /// The signal to emit when the action is performed, if any:
    /// `optimization-start` before compression, `optimization-complete`
    /// with both sizes at the end of a run that succeeded.
    pub fn signal(&self) -> (signal: Option<Signal>)
        ensures
            signal == self@.signal(),
    {
        match self {
            Action::Compress { .. } => Some(Signal::Start),
            Action::Complete { artifact, original_size } => Some(
                Signal::Complete { original_size: *original_size, new_size: artifact.byte_size },
            ),
            _ => None,
        }
    }

    /// The output size that the action reports: that of the artifact where a
    /// run completed, zero otherwise.
    pub fn reported_size(&self) -> (size: u64)
        ensures
            size == self@.reported_size(),
    {
        match self {
            Action::Complete { artifact, .. } => artifact.byte_size,
            _ => 0,
        }
    }
}

/// A signal to the user interface.
#[derive(Clone, Copy, Debug, PartialEq, Eq)]
pub enum Signal {
    /// `optimization-start`
    Start,
    /// `optimization-complete`
    Complete { original_size: u64, new_size: u64 },
}

impl ActionView {
    /// Whether performing the action writes a file.
    pub open spec fn writes_file(self) -> bool {
        self is WriteArtifact
    }

    /// Whether performing the action changes the clipboard.
    pub open spec fn writes_clipboard(self) -> bool {
        self is ReplaceClipboard || self is RestoreOriginal
    }

    /// The signal that performing the action emits, if any.
    pub open spec fn signal(self) -> Option<Signal> {
        match self {
            ActionView::Compress { .. } => Some(Signal::Start),
            ActionView::Complete { artifact, original_size } => Some(
                Signal::Complete { original_size, new_size: artifact.byte_size },
            ),
            _ => None,
        }
    }

    /// Whether performing the action leaves disk, clipboard and user
    /// interface as they were.
    pub open spec fn is_silent(self) -> bool {
        !self.writes_file() && !self.writes_clipboard() && self.signal() is None
    }

    /// The output size that the action reports: that of the artifact where a
    /// run completed, zero otherwise.
    pub open spec fn reported_size(self) -> u64 {
        match self {
            ActionView::Complete { artifact, .. } => artifact.byte_size,
            _ => 0,
        }
    }
}

} // verus!
