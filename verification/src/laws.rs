//! What holds of the pipeline in every state: the laws that its transitions
//! obey one by one, and those of a whole run.

use crate::action::{
    ActionView, ArtifactView, ClipboardFault, DecodeFault, EncodeFault, SkipReason, WriteFault,
};
use crate::codec::compressed;
use crate::paths::{
    artifact_path_of, lemma_artifact_path, lemma_directory_names_no_image, names_image, parent_of,
};
use crate::pipeline::{ContextView, Phase};
use crate::pixels::lemma_rgb_of_rgba;
use crate::raster::Raster;
use crate::snapshot::{DecodedView, ListedView, OriginalSizeInfo, SnapshotView};
use vstd::prelude::*;

verus! {

/// What one transition may be handed from outside: a snapshot of the
/// clipboard, or the report of the work that an action asked for.
pub struct Reports {
    pub snapshot: SnapshotView,
    pub advertised: Option<u64>,
    pub decoded: Result<DecodedView, DecodeFault>,
    pub encoded: Result<Seq<u8>, EncodeFault>,
    pub written: Result<(), WriteFault>,
    pub replaced: Result<(), ClipboardFault>,
    pub restored: Result<(), ClipboardFault>,
}

/// What the outside world answers in the course of one run: the snapshot
/// that the clipboard held, whether the codec terminated abnormally while
/// compressing, and the outcome of each other action that the run may come
/// to ask for.
pub struct RunInput {
    pub snapshot: SnapshotView,
    pub advertised: Option<u64>,
    pub decoded: Result<DecodedView, DecodeFault>,
    pub crashed: bool,
    pub written: Result<(), WriteFault>,
    pub replaced: Result<(), ClipboardFault>,
}

/// What a driver reports for the action `asked`, if `asked` is a request to
/// compress: the compressor's own result for the image, unless the codec
/// terminated abnormally.
pub open spec fn compressor_report(asked: ActionView, crashed: bool) -> Result<
    Seq<u8>,
    EncodeFault,
> {
    if crashed {
        Err(EncodeFault::Crashed)
    } else {
        compressed(asked->Compress_image)
    }
}

/// One run of the pipeline, as its driver performs it: the notification is
/// answered, and each action that asks for outside work is followed by the
/// report of that work, until an action asks for none. The result is the
/// state at the end and the actions in the order in which they were issued.
pub open spec fn run(start: ContextView, input: RunInput) -> (ContextView, Seq<ActionView>) {
    let (s1, a1) = start.clipboard_changed(input.snapshot, input.advertised);
    let t1 = seq![a1];
    let (s2, t2) = if t1.last() is DecodeFile {
        let (s, a) = s1.file_decoded(input.decoded);
        (s, t1.push(a))
    } else {
        (s1, t1)
    };
    let (s3, t3) = if t2.last() is Compress {
        let (s, a) = s2.encoded(compressor_report(t2.last(), input.crashed));
        (s, t2.push(a))
    } else {
        (s2, t2)
    };
    let (s4, t4) = if t3.last() is WriteArtifact {
        let (s, a) = s3.artifact_written(input.written);
        (s, t3.push(a))
    } else {
        (s3, t3)
    };
    if t4.last() is ReplaceClipboard {
        let (s, a) = s4.clipboard_replaced(input.replaced);
        (s, t4.push(a))
    } else {
        (s4, t4)
    }
}

/// A snapshot of this system's own output short-circuits: whatever the state,
/// the state stays as it is, no file is written, the clipboard is not
/// touched and no signal is emitted.
pub proof fn law_self_trigger_has_no_effect(
    state: ContextView,
    snapshot: SnapshotView,
    advertised: Option<u64>,
)
    requires
        snapshot.is_self_trigger(state.data_dir),
    ensures
        state.clipboard_changed(snapshot, advertised).0 == state,
        state.clipboard_changed(snapshot, advertised).1 == (ActionView::Skip {
            reason: SkipReason::SelfTrigger,
        }),
        state.clipboard_changed(snapshot, advertised).1.is_silent(),
{
}

/// While the guard is held, by a run or by a revert, a trigger is dropped:
/// whatever the clipboard holds, the state stays as it is, no file is
/// written, the clipboard is not touched and no signal is emitted.
pub proof fn law_held_guard_drops_trigger(
    state: ContextView,
    snapshot: SnapshotView,
    advertised: Option<u64>,
)
    requires
        state.guard_held,
    ensures
        state.clipboard_changed(snapshot, advertised).0 == state,
        state.clipboard_changed(snapshot, advertised).1 is Skip,
        state.clipboard_changed(snapshot, advertised).1.is_silent(),
{
}

/// The guard has one holder at a time: while it is held, a revert command
/// gets past it no more than a trigger does, and leaves the state as it is.
pub proof fn law_held_guard_drops_revert(state: ContextView)
    requires
        state.guard_held,
    ensures
        state.revert_requested().0 == state,
        state.revert_requested().1 is Skip,
        state.revert_requested().1.is_silent(),
{
}

/// The clipboard content that a completed run leaves behind, the file list
/// of the artifact alone, is recognized as this system's own: the
/// notification that the replacement causes starts no further run.
pub proof fn law_own_output_is_self_trigger(state: ContextView, advertised: Option<u64>)
    ensures
        SnapshotView::FileList(seq![artifact_path_of(state.data_dir)]).is_self_trigger(
            state.data_dir,
        ),
        state.clipboard_changed(
            SnapshotView::FileList(seq![artifact_path_of(state.data_dir)]),
            advertised,
        ) == (state, ActionView::Skip { reason: SkipReason::SelfTrigger }),
{
    lemma_artifact_path(state.data_dir);
    let listed = seq![artifact_path_of(state.data_dir)];
    assert(listed.len() == 1 && listed[0] == artifact_path_of(state.data_dir));
}

/// A file list of several entries, or of none, is never taken for an image,
/// whatever its entries are.
pub proof fn law_only_single_files_are_sources(
    state: ContextView,
    paths: Seq<Seq<char>>,
    advertised: Option<u64>,
)
    requires
        paths.len() != 1,
    ensures
        state.clipboard_changed(SnapshotView::FileList(paths), advertised) == (
            state,
            ActionView::Skip { reason: SkipReason::NoImage },
        ),
{
}

/// A directory is never taken for an image, whatever it is called: a
/// clipboard that lists one directory starts no run and changes nothing.
pub proof fn law_directories_are_no_images(
    state: ContextView,
    entry: ListedView,
    bitmap: Option<Raster>,
    advertised: Option<u64>,
)
    requires
        entry.is_directory,
    ensures
        state.clipboard_changed(SnapshotView::assembled(seq![entry], bitmap), advertised).0
            == state,
        state.clipboard_changed(SnapshotView::assembled(seq![entry], bitmap), advertised).1
            is Skip,
{
    let listed = seq![entry];
    assert(listed.len() == 1 && listed[0] == entry);
    lemma_directory_names_no_image(entry.entry);
}

/// The guard is held exactly while a run or a revert is in flight: this
/// holds at startup, and every transition keeps it.
pub proof fn law_guard_tracks_run(state: ContextView, reports: Reports)
    requires
        state.consistent(),
    ensures
        ContextView::initial(state.data_dir).consistent(),
        state.clipboard_changed(reports.snapshot, reports.advertised).0.consistent(),
        state.file_decoded(reports.decoded).0.consistent(),
        state.encoded(reports.encoded).0.consistent(),
        state.artifact_written(reports.written).0.consistent(),
        state.clipboard_replaced(reports.replaced).0.consistent(),
        state.revert_requested().0.consistent(),
        state.clipboard_restored(reports.restored).0.consistent(),
{
}

/// What [`law_every_exit_frees_guard`] states of one transition.
pub open spec fn exit_frees_guard(before: ContextView, step: (ContextView, ActionView)) -> bool {
    &&& step.1 is Abort || step.1 is Complete || step.1 is Reverted ==> step.0.is_idle()
    &&& step.1 is Skip ==> step.0 == before
}

/// An action that ends a run or a revert frees the guard, and an action
/// that skips an event leaves the state as it was: no transition ends with
/// the guard held and nothing outstanding.
pub proof fn law_every_exit_frees_guard(state: ContextView, reports: Reports)
    ensures
        exit_frees_guard(state, state.clipboard_changed(reports.snapshot, reports.advertised)),
        exit_frees_guard(state, state.file_decoded(reports.decoded)),
        exit_frees_guard(state, state.encoded(reports.encoded)),
        exit_frees_guard(state, state.artifact_written(reports.written)),
        exit_frees_guard(state, state.clipboard_replaced(reports.replaced)),
        exit_frees_guard(state, state.revert_requested()),
        exit_frees_guard(state, state.clipboard_restored(reports.restored)),
{
}

/// In a run, the clipboard is replaced only after the artifact is on disk:
/// the one transition that asks for the replacement is the answer to a
/// successful write, and a failed write ends the run with the clipboard
/// untouched.
pub proof fn law_no_clipboard_write_before_disk_write(state: ContextView, reports: Reports)
    ensures
        !state.clipboard_changed(reports.snapshot, reports.advertised).1.writes_clipboard(),
        !state.file_decoded(reports.decoded).1.writes_clipboard(),
        !state.encoded(reports.encoded).1.writes_clipboard(),
        !state.clipboard_replaced(reports.replaced).1.writes_clipboard(),
        state.artifact_written(reports.written).1.writes_clipboard() ==> reports.written is Ok
            && state.phase is Writing,
        reports.written is Err ==> state.artifact_written(reports.written).1.is_silent(),
{
}

/// No file is written unless the compressor returned a stream that is not
/// empty: a fault or an empty stream ends the run with no write, no
/// clipboard change, no signal and a reported size of zero.
pub proof fn law_failed_encoding_writes_nothing(state: ContextView, reports: Reports)
    ensures
        !state.clipboard_changed(reports.snapshot, reports.advertised).1.writes_file(),
        !state.file_decoded(reports.decoded).1.writes_file(),
        !state.artifact_written(reports.written).1.writes_file(),
        !state.clipboard_replaced(reports.replaced).1.writes_file(),
        !state.revert_requested().1.writes_file(),
        !state.clipboard_restored(reports.restored).1.writes_file(),
        state.encoded(reports.encoded).1.writes_file() ==> (reports.encoded matches Ok(bytes)
            && bytes.len() > 0 && state.phase is Encoding),
        !(reports.encoded matches Ok(bytes) && bytes.len() > 0) ==> state.encoded(
            reports.encoded,
        ).1.is_silent() && state.encoded(reports.encoded).1.reported_size() == 0,
{
}

/// Completion is signalled only after the clipboard has been replaced, and
/// with the sizes of this run: the size that was determined for the
/// original, and the length of the stream that was written.
pub proof fn law_completion_reports_the_run(state: ContextView, reports: Reports)
    ensures
        !(state.clipboard_changed(reports.snapshot, reports.advertised).1 is Complete),
        !(state.file_decoded(reports.decoded).1 is Complete),
        !(state.encoded(reports.encoded).1 is Complete),
        !(state.artifact_written(reports.written).1 is Complete),
        !(state.revert_requested().1 is Complete),
        !(state.clipboard_restored(reports.restored).1 is Complete),
        state.clipboard_replaced(reports.replaced).1 matches ActionView::Complete {
            artifact,
            original_size,
        } ==> reports.replaced is Ok && artifact.path == artifact_path_of(state.data_dir) && (
        state.phase matches Phase::Replacing { original, new_size } && artifact.byte_size
            == new_size && original_size == original.spec_bytes()),
{
}

/// There is one artifact: the data directory never changes, and whatever is
/// written, put on the clipboard or reported as complete is the one path
/// under it.
pub proof fn law_one_artifact_path(state: ContextView, reports: Reports)
    ensures
        state.clipboard_changed(reports.snapshot, reports.advertised).0.data_dir
            == state.data_dir,
        state.file_decoded(reports.decoded).0.data_dir == state.data_dir,
        state.encoded(reports.encoded).0.data_dir == state.data_dir,
        state.artifact_written(reports.written).0.data_dir == state.data_dir,
        state.clipboard_replaced(reports.replaced).0.data_dir == state.data_dir,
        state.revert_requested().0.data_dir == state.data_dir,
        state.clipboard_restored(reports.restored).0.data_dir == state.data_dir,
        state.encoded(reports.encoded).1 matches ActionView::WriteArtifact {
            directory,
            path,
            ..
        } ==> directory == state.data_dir && path == artifact_path_of(state.data_dir),
        state.artifact_written(reports.written).1 matches ActionView::ReplaceClipboard { path }
            ==> path == artifact_path_of(state.data_dir),
        state.clipboard_replaced(reports.replaced).1 matches ActionView::Complete {
            artifact,
            ..
        } ==> artifact.path == artifact_path_of(state.data_dir),
{
}

/// Until a run on a bitmap has begun, there is nothing to revert to: at
/// startup a revert command does nothing.
pub proof fn law_nothing_to_revert_at_startup(data_dir: Seq<char>)
    ensures
        ContextView::initial(data_dir).revert_requested() == (
            ContextView::initial(data_dir),
            ActionView::Skip { reason: SkipReason::NothingStored },
        ),
{
}

/// Once an original is stored, one stays stored: no transition empties the
/// revert store, and only the start of a run on a bitmap replaces what it
/// holds.
pub proof fn law_stored_original_persists(state: ContextView, reports: Reports)
    requires
        state.stored is Some,
    ensures
        state.clipboard_changed(reports.snapshot, reports.advertised).0.stored is Some,
        state.file_decoded(reports.decoded).0.stored == state.stored,
        state.encoded(reports.encoded).0.stored == state.stored,
        state.artifact_written(reports.written).0.stored == state.stored,
        state.clipboard_replaced(reports.replaced).0.stored == state.stored,
        state.revert_requested().0.stored == state.stored,
        state.clipboard_restored(reports.restored).0.stored == state.stored,
{
}

/// What goes to the compressor holds exactly three bytes for every pixel:
/// a bitmap of four bytes per pixel loses one byte per pixel, and a decoded
/// file is passed on only if its buffer matches its dimensions.
pub proof fn law_compressor_input_is_rgb(
    state: ContextView,
    bitmap: Raster,
    advertised: Option<u64>,
    decoded: Result<DecodedView, DecodeFault>,
)
    requires
        bitmap.is_rgba(),
    ensures
        state.clipboard_changed(SnapshotView::RawImage(bitmap), advertised).1 matches ActionView::Compress {
            image,
        } ==> image.is_rgb() && image == bitmap.without_alpha(),
        state.file_decoded(decoded).1 matches ActionView::Compress { image } ==> image.is_rgb(),
{
    lemma_rgb_of_rgba(bitmap.bytes, bitmap.width, bitmap.height);
}

/// A run that starts with the guard free ends with the guard free, whatever
/// the clipboard held and whatever the outside work reported.
pub proof fn law_run_ends_idle(start: ContextView, input: RunInput)
    requires
        start.is_idle(),
    ensures
        run(start, input).0.is_idle(),
        run(start, input).0.data_dir == start.data_dir,
{
}

/// The signals of a run: a run that is skipped at the notification does
/// nothing at all; `optimization-start` is emitted at most once;
/// `optimization-complete` is emitted only by the last action of a run,
/// after `optimization-start`, a write and a clipboard replacement.
pub proof fn law_signals_of_a_run(start: ContextView, input: RunInput)
    ensures
        ({
            let (end, trace) = run(start, input);
            &&& 1 <= trace.len() <= 5
            &&& trace[0] is Skip ==> trace.len() == 1 && end == start
            &&& forall|i: int, j: int|
                0 <= i < j < trace.len() && #[trigger] trace[i] is Compress ==> !(
                #[trigger] trace[j] is Compress)
            &&& forall|i: int|
                0 <= i < trace.len() && #[trigger] trace[i] is Complete ==> {
                    &&& i == trace.len() - 1
                    &&& i >= 3
                    &&& trace[i - 3] is Compress
                    &&& trace[i - 2] is WriteArtifact
                    &&& trace[i - 1] is ReplaceClipboard
                }
        }),
{
    let (s1, a1) = start.clipboard_changed(input.snapshot, input.advertised);
    if a1 is DecodeFile {
        let (s2, a2) = s1.file_decoded(input.decoded);
        if a2 is Compress {
            let (s3, a3) = s2.encoded(compressor_report(a2, input.crashed));
            if a3 is WriteArtifact {
                let (s4, a4) = s3.artifact_written(input.written);
                if a4 is ReplaceClipboard {
                    let (s5, a5) = s4.clipboard_replaced(input.replaced);
                    assert(run(start, input).1 =~= seq![a1, a2, a3, a4, a5]);
                } else {
                    assert(run(start, input).1 =~= seq![a1, a2, a3, a4]);
                }
            } else {
                assert(run(start, input).1 =~= seq![a1, a2, a3]);
            }
        } else {
            assert(run(start, input).1 =~= seq![a1, a2]);
        }
    } else if a1 is Compress {
        let (s3, a3) = s1.encoded(compressor_report(a1, input.crashed));
        if a3 is WriteArtifact {
            let (s4, a4) = s3.artifact_written(input.written);
            if a4 is ReplaceClipboard {
                let (s5, a5) = s4.clipboard_replaced(input.replaced);
                assert(run(start, input).1 =~= seq![a1, a3, a4, a5]);
            } else {
                assert(run(start, input).1 =~= seq![a1, a3, a4]);
            }
        } else {
            assert(run(start, input).1 =~= seq![a1, a3]);
        }
    } else {
        assert(run(start, input).1 =~= seq![a1]);
    }
}

/// A run on a bitmap in which every step succeeds, told in full: the image
/// goes to the compressor without its alpha channel; the stream that the
/// encoder makes of it at the fixed quality is written to the artifact path
/// under the data directory; the clipboard is replaced by that one path;
/// completion reports the advertised size (zero if there was none) and the
/// length of the stream. At the end the guard is free, and the bitmap is
/// stored for a revert.
pub proof fn law_bitmap_run(start: ContextView, bitmap: Raster, jpeg: Seq<u8>, input: RunInput)
    requires
        start.is_idle(),
        input.snapshot == SnapshotView::RawImage(bitmap),
        !input.crashed,
        compressed(bitmap.without_alpha()) == Ok::<Seq<u8>, EncodeFault>(jpeg),
        0 < jpeg.len() <= u64::MAX,
        input.written is Ok,
        input.replaced is Ok,
    ensures
        run(start, input).1 == seq![
            ActionView::Compress { image: bitmap.without_alpha() },
            ActionView::WriteArtifact {
                directory: start.data_dir,
                path: artifact_path_of(start.data_dir),
                bytes: jpeg,
            },
            ActionView::ReplaceClipboard { path: artifact_path_of(start.data_dir) },
            ActionView::Complete {
                artifact: ArtifactView {
                    path: artifact_path_of(start.data_dir),
                    byte_size: jpeg.len() as u64,
                },
                original_size: OriginalSizeInfo::spec_of_raw(input.advertised).spec_bytes(),
            },
        ],
        run(start, input).0 == (ContextView { stored: Some(bitmap), ..start }),
{
    let (s1, a1) = start.clipboard_changed(input.snapshot, input.advertised);
    let (s2, a2) = s1.encoded(compressor_report(a1, input.crashed));
    let (s3, a3) = s2.artifact_written(input.written);
    let (s4, a4) = s3.clipboard_replaced(input.replaced);
    assert(run(start, input).1 =~= seq![a1, a2, a3, a4]);
}

/// A run on an image file in which every step succeeds, told in full: the
/// file goes to the decoder, its pixels to the compressor; completion
/// reports the file's size on disk. The clipboard ends up with the artifact,
/// not with the file that it listed, and the revert store is as it was.
pub proof fn law_file_run(
    start: ContextView,
    path: Seq<char>,
    decoded: DecodedView,
    jpeg: Seq<u8>,
    input: RunInput,
)
    requires
        start.is_idle(),
        names_image(path),
        parent_of(path) != Some(start.data_dir),
        input.snapshot == SnapshotView::FileList(seq![path]),
        input.decoded == Ok::<DecodedView, DecodeFault>(decoded),
        decoded.raster().is_rgb(),
        !input.crashed,
        compressed(decoded.raster()) == Ok::<Seq<u8>, EncodeFault>(jpeg),
        0 < jpeg.len() <= u64::MAX,
        input.written is Ok,
        input.replaced is Ok,
    ensures
        run(start, input).1 == seq![
            ActionView::DecodeFile { path },
            ActionView::Compress { image: decoded.raster() },
            ActionView::WriteArtifact {
                directory: start.data_dir,
                path: artifact_path_of(start.data_dir),
                bytes: jpeg,
            },
            ActionView::ReplaceClipboard { path: artifact_path_of(start.data_dir) },
            ActionView::Complete {
                artifact: ArtifactView {
                    path: artifact_path_of(start.data_dir),
                    byte_size: jpeg.len() as u64,
                },
                original_size: decoded.file_size,
            },
        ],
        run(start, input).0 == start,
        artifact_path_of(start.data_dir) != path,
{
    let listed = seq![path];
    assert(listed.len() == 1 && listed[0] == path);
    let (s1, a1) = start.clipboard_changed(input.snapshot, input.advertised);
    let (s2, a2) = s1.file_decoded(input.decoded);
    let (s3, a3) = s2.encoded(compressor_report(a2, input.crashed));
    let (s4, a4) = s3.artifact_written(input.written);
    let (s5, a5) = s4.clipboard_replaced(input.replaced);
    assert(run(start, input).1 =~= seq![a1, a2, a3, a4, a5]);
    lemma_artifact_path(start.data_dir);
}

/// Running the pipeline twice in a row on the same source issues the same
/// actions both times, provided that the outside work (reading and decoding
/// a file, writing the artifact, replacing the clipboard) reports the same
/// both times: the same image goes to the compressor, which makes the same
/// stream of it; the same bytes are written to the same path, and the same
/// sizes are reported. The second run also ends in the state in which it
/// began.
pub proof fn law_repeated_run_is_idempotent(start: ContextView, input: RunInput)
    ensures
        run(run(start, input).0, input).1 == run(start, input).1,
        run(run(start, input).0, input).0 == run(start, input).0,
{
}

/// A revert restores exactly the bitmap that the latest run on a bitmap
/// found on the clipboard, whether or not that run went on to succeed; and
/// once the clipboard has been restored, the state is as it was before the
/// command, so that the command can be repeated with the same result.
pub proof fn law_revert_restores_latest_bitmap(
    start: ContextView,
    bitmap: Raster,
    input: RunInput,
    restored: Result<(), ClipboardFault>,
)
    requires
        start.is_idle(),
        input.snapshot == SnapshotView::RawImage(bitmap),
    ensures
        run(start, input).0.revert_requested().1 == (ActionView::RestoreOriginal {
            original: bitmap,
        }),
        run(start, input).0.revert_requested().0.clipboard_restored(restored).0 == run(
            start,
            input,
        ).0,
        restored is Ok ==> run(start, input).0.revert_requested().0.clipboard_restored(
            restored,
        ).1 is Reverted,
{
}

} // verus!
