//! What the clipboard held at one instant, and what in it can be processed.

use crate::paths::{
    is_image_path, listed_path_of, local_path, names_image, parent_is, parent_of,
};
use crate::raster::{ImageError, ProcessableImage, Raster, RawImage};
use vstd::prelude::*;

verus! {

/// One point-in-time read of the clipboard.
#[derive(Debug, PartialEq, Eq)]
pub enum ClipboardSnapshot {
    /// Nothing that the pipeline reads.
    Empty,
    /// A list of absolute paths, in clipboard order. The path of a directory
    /// ends in a separator.
    FileList(Vec<String>),
    /// A bitmap.
    RawImage(RawImage),
}

/// A [`ClipboardSnapshot`] as contracts see it.
pub enum SnapshotView {
    Empty,
    FileList(Seq<Seq<char>>),
    RawImage(Raster),
}

impl View for ClipboardSnapshot {
    type V = SnapshotView;

    open spec fn view(&self) -> SnapshotView {
        match self {
            ClipboardSnapshot::Empty => SnapshotView::Empty,
            ClipboardSnapshot::FileList(paths) => SnapshotView::FileList(paths.deep_view()),
            ClipboardSnapshot::RawImage(image) => SnapshotView::RawImage(image@),
        }
    }
}

/// The byte size of the representation that an optimization replaces.
#[derive(Clone, Copy, Debug, PartialEq, Eq)]
pub enum OriginalSizeInfo {
    /// The size on disk of the file that the clipboard referred to.
    OnDisk(u64),
    /// The size that the clipboard advertised for a compressed form of the
    /// bitmap it held. An approximation.
    Advertised(u64),
    /// The clipboard advertised no such size.
    Unknown,
}

impl OriginalSizeInfo {
    /// The number of bytes to report; zero where none could be determined.
    pub open spec fn spec_bytes(self) -> u64 {
        match self {
            OriginalSizeInfo::OnDisk(n) => n,
            OriginalSizeInfo::Advertised(n) => n,
            OriginalSizeInfo::Unknown => 0,
        }
    }

    /// The number of bytes to report; zero where none could be determined.
    #[verifier::when_used_as_spec(spec_bytes)]
    pub fn bytes(self) -> (n: u64)
        ensures
            n == self.spec_bytes(),
    {
        match self {
            OriginalSizeInfo::OnDisk(n) => n,
            OriginalSizeInfo::Advertised(n) => n,
            OriginalSizeInfo::Unknown => 0,
        }
    }

    /// The size of a bitmap source, from what the clipboard advertised.
    pub open spec fn spec_of_raw(advertised: Option<u64>) -> OriginalSizeInfo {
        match advertised {
            Some(n) => OriginalSizeInfo::Advertised(n),
            None => OriginalSizeInfo::Unknown,
        }
    }

    /// The size of a bitmap source, from what the clipboard advertised.
    #[verifier::when_used_as_spec(spec_of_raw)]
    pub fn of_raw(advertised: Option<u64>) -> (info: OriginalSizeInfo)
        ensures
            info == Self::spec_of_raw(advertised),
    {
        match advertised {
            Some(n) => OriginalSizeInfo::Advertised(n),
            None => OriginalSizeInfo::Unknown,
        }
    }
}

/// What a snapshot offers for compression.
#[derive(Debug, PartialEq, Eq)]
pub enum Source {
    /// No image.
    Absent,
    /// One image file, still to be read and decoded.
    File { path: String },
    /// A bitmap, as the clipboard held it.
    Raw { original: RawImage, size: OriginalSizeInfo },
}

/// A [`Source`] as contracts see it.
pub enum SourceView {
    Absent,
    File { path: Seq<char> },
    Raw { original: Raster, size: OriginalSizeInfo },
}

impl View for Source {
    type V = SourceView;

    open spec fn view(&self) -> SourceView {
        match self {
            Source::Absent => SourceView::Absent,
            Source::File { path } => SourceView::File { path: path@ },
            Source::Raw { original, size } => SourceView::Raw { original: original@, size: *size },
        }
    }
}

/// One entry of the clipboard's file list, as it was read: the entry itself,
/// and whether what it refers to is a directory.
#[derive(Debug, PartialEq, Eq)]
pub struct ListedEntry {
    pub entry: String,
    pub is_directory: bool,
}

/// A [`ListedEntry`] as contracts see it.
pub struct ListedView {
    pub entry: Seq<char>,
    pub is_directory: bool,
}

impl View for ListedEntry {
    type V = ListedView;

    open spec fn view(&self) -> ListedView {
        ListedView { entry: self.entry@, is_directory: self.is_directory }
    }
}

/// A file list, entry by entry, as contracts see it.
pub open spec fn listed_views(entries: Seq<ListedEntry>) -> Seq<ListedView> {
    Seq::new(entries.len(), |i: int| entries[i]@)
}

impl SnapshotView {
    /// The snapshot for what was read from the clipboard: its file list,
    /// where it has one, each entry as the path it stands for, a directory
    /// with a separator at its end; else its bitmap, where it has one; else
    /// nothing.
    pub open spec fn assembled(entries: Seq<ListedView>, bitmap: Option<Raster>) -> SnapshotView {
        if entries.len() > 0 {
            SnapshotView::FileList(
                Seq::new(
                    entries.len(),
                    |i: int| listed_path_of(entries[i].entry, entries[i].is_directory),
                ),
            )
        } else {
            match bitmap {
                Some(raster) => SnapshotView::RawImage(raster),
                None => SnapshotView::Empty,
            }
        }
    }

    /// The path of a file list with exactly one entry.
    pub open spec fn single_path(self) -> Option<Seq<char>> {
        match self {
            SnapshotView::FileList(paths) => if paths.len() == 1 {
                Some(paths[0])
            } else {
                None
            },
            _ => None,
        }
    }

    /// Whether the snapshot is what this system itself put on the clipboard:
    /// a single file that lies directly in `data_dir`.
    pub open spec fn is_self_trigger(self, data_dir: Seq<char>) -> bool {
        match self.single_path() {
            Some(path) => parent_of(path) == Some(data_dir),
            None => false,
        }
    }

    /// What the snapshot offers for compression: the one file of a
    /// single-entry list, if its extension is that of an image; a bitmap;
    /// nothing otherwise. A list of several entries offers nothing, whatever
    /// its entries are.
    pub open spec fn source(self, advertised: Option<u64>) -> SourceView {
        match self {
            SnapshotView::Empty => SourceView::Absent,
            SnapshotView::FileList(paths) => if paths.len() == 1 && names_image(paths[0]) {
                SourceView::File { path: paths[0] }
            } else {
                SourceView::Absent
            },
            SnapshotView::RawImage(raster) => SourceView::Raw {
                original: raster,
                size: OriginalSizeInfo::spec_of_raw(advertised),
            },
        }
    }
}

impl ClipboardSnapshot {
    /// A bitmap snapshot of `width * height` RGBA pixels. A buffer of any
    /// other length is refused.
    pub fn raw_image(width: u32, height: u32, bytes: Vec<u8>) -> (made: Result<
        ClipboardSnapshot,
        ImageError,
    >)
        ensures
            match made {
                Ok(snapshot) => snapshot@ == SnapshotView::RawImage(
                    Raster { width, height, bytes: bytes@ },
                ) && (Raster { width, height, bytes: bytes@ }).is_rgba(),
                Err(e) => e == ImageError::LengthMismatch && !(Raster {
                    width,
                    height,
                    bytes: bytes@,
                }).is_rgba(),
            },
    {
        match RawImage::new(width, height, bytes) {
            Ok(image) => Ok(ClipboardSnapshot::RawImage(image)),
            Err(e) => Err(e),
        }
    }

    /// The snapshot for what was read from the clipboard: the entries of its
    /// file list, in clipboard order, and its bitmap. A file list comes
    /// before a bitmap. A directory is listed with a separator at its end,
    /// so that it is never taken for a file.
    pub fn assemble(entries: Vec<ListedEntry>, bitmap: Option<RawImage>) -> (snapshot:
        ClipboardSnapshot)
        ensures
            snapshot@ == SnapshotView::assembled(
                listed_views(entries@),
                match bitmap {
                    Some(image) => Some(image@),
                    None => None,
                },
            ),
    {
        if entries.len() > 0 {
            let mut paths: Vec<String> = Vec::new();
            let mut i: usize = 0;
            while i < entries.len()
                invariant
                    i <= entries.len(),
                    paths.len() == i,
                    forall|j: int|
                        0 <= j < i ==> #[trigger] paths[j]@ == listed_path_of(
                            entries[j].entry@,
                            entries[j].is_directory,
                        ),
                decreases entries.len() - i,
            {
                let mut path: String = local_path(entries[i].entry.as_str());
                if entries[i].is_directory {
                    path.append("/");
                    proof {
                        reveal_strlit("/");
                        assert("/"@ =~= seq!['/']);
                    }
                }
                paths.push(path);
                i = i + 1;
            }
            assert(paths.deep_view() =~= Seq::new(
                entries.len() as nat,
                |i: int|
                    listed_path_of(
                        listed_views(entries@)[i].entry,
                        listed_views(entries@)[i].is_directory,
                    ),
            )) by {
                assert forall|j: int| 0 <= j < paths.len() implies paths.deep_view()[j]
                    == listed_path_of(
                    listed_views(entries@)[j].entry,
                    listed_views(entries@)[j].is_directory,
                ) by {
                    assert(paths.deep_view()[j] == paths[j]@);
                }
            }
            ClipboardSnapshot::FileList(paths)
        } else {
            match bitmap {
                Some(image) => ClipboardSnapshot::RawImage(image),
                None => ClipboardSnapshot::Empty,
            }
        }
    }

    /// Whether the snapshot is what this system itself put on the clipboard.
    pub fn is_self_trigger(&self, data_dir: &str) -> (echo: bool)
        ensures
            echo == self@.is_self_trigger(data_dir@),
    {
        match self {
            ClipboardSnapshot::FileList(paths) => {
                if paths.len() == 1 {
                    assert(paths.deep_view()[0] == paths[0]@);
                    parent_is(paths[0].as_str(), data_dir)
                } else {
                    false
                }
            },
            _ => false,
        }
    }

    /// Resolves the snapshot to what it offers for compression.
    /// `advertised_size` is the size that the clipboard advertised for a
    /// compressed form of its bitmap, if it advertised one.
    pub fn resolve(self, advertised_size: Option<u64>) -> (source: Source)
        ensures
            source@ == self@.source(advertised_size),
    {
        match self {
            ClipboardSnapshot::Empty => Source::Absent,
            ClipboardSnapshot::FileList(mut paths) => {
                if paths.len() == 1 {
                    assert(paths.deep_view()[0] == paths[0]@);
                    if is_image_path(paths[0].as_str()) {
                        let path: String = paths.remove(0);
                        Source::File { path }
                    } else {
                        Source::Absent
                    }
                } else {
                    Source::Absent
                }
            },
            ClipboardSnapshot::RawImage(original) => Source::Raw {
                original,
                size: OriginalSizeInfo::of_raw(advertised_size),
            },
        }
    }
}

/// A decoded image file, as the decoder reported it.
#[derive(Debug, PartialEq, Eq)]
pub struct DecodedFile {
    pub width: u32,
    pub height: u32,
    /// The pixels, three bytes each.
    pub rgb: Vec<u8>,
    /// The size of the file on disk.
    pub file_size: u64,
}

/// A [`DecodedFile`] as contracts see it.
pub struct DecodedView {
    pub width: u32,
    pub height: u32,
    pub rgb: Seq<u8>,
    pub file_size: u64,
}

impl View for DecodedFile {
    type V = DecodedView;

    open spec fn view(&self) -> DecodedView {
        DecodedView {
            width: self.width,
            height: self.height,
            rgb: self.rgb@,
            file_size: self.file_size,
        }
    }
}

impl DecodedView {
    /// The decoded pixels with their dimensions.
    pub open spec fn raster(self) -> Raster {
        Raster { width: self.width, height: self.height, bytes: self.rgb }
    }
}

impl DecodedFile {
    /// Confirms a decoded file as a source: its buffer must hold exactly
    /// `width * height` RGB pixels. The size to report is that of the file.
    pub fn confirm(self) -> (confirmed: Result<(ProcessableImage, OriginalSizeInfo), ImageError>)
        ensures
            match confirmed {
                Ok((image, size)) => self@.raster().is_rgb() && image@ == self@.raster() && size
                    == OriginalSizeInfo::OnDisk(self.file_size),
                Err(e) => e == ImageError::LengthMismatch && !self@.raster().is_rgb(),
            },
    {
        let size: OriginalSizeInfo = OriginalSizeInfo::OnDisk(self.file_size);
        match ProcessableImage::new(self.width, self.height, self.rgb) {
            Ok(image) => Ok((image, size)),
            Err(e) => Err(e),
        }
    }
}

} // verus!
