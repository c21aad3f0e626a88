use clip_optimizer::formats::{best_format, names_image_format};
use clip_optimizer::paths::local_path;
use clip_optimizer::action::{AbortReason, Action, OptimizedArtifact, Signal, SkipReason};
use clip_optimizer::raster::RawImage;
use clip_optimizer::snapshot::{ClipboardSnapshot, ListedEntry, Source};

fn names(tags: &[&str]) -> Vec<String> {
    tags.iter().map(|t| t.to_string()).collect()
}

#[test]
fn image_formats_are_image_slash_type() {
    assert!(names_image_format("image/png"));
    assert!(names_image_format("image/jpg"));
    assert!(names_image_format("image/jpeg"));
    assert!(names_image_format("image/bmp"));
    assert!(names_image_format("image/tiff"));
    assert!(names_image_format("image/webp"));
    assert!(names_image_format("IMAGE/PNG"));
    assert!(names_image_format("Image/Jpeg"));
}

#[test]
fn other_formats_are_no_image_formats() {
    assert!(!names_image_format(""));
    assert!(!names_image_format("image/"));
    assert!(!names_image_format("image"));
    assert!(!names_image_format("image/gif"));
    assert!(!names_image_format("image/svg+xml"));
    assert!(!names_image_format("image/pngx"));
    assert!(!names_image_format("text/png"));
    assert!(!names_image_format("imagex/png"));
    assert!(!names_image_format("png"));
    assert!(!names_image_format("x-image/png"));
    assert!(!names_image_format("UTF8_STRING"));
    assert!(!names_image_format("text/uri-list"));
}

#[test]
fn best_format_is_the_first_image_format() {
    assert_eq!(best_format(&names(&["TARGETS", "image/png", "image/jpeg"])), Some(1));
    assert_eq!(best_format(&names(&["image/jpeg", "image/png"])), Some(0));
    assert_eq!(best_format(&names(&["text/plain", "UTF8_STRING", "image/bmp"])), Some(2));
    assert_eq!(best_format(&names(&["image/gif", "IMAGE/WEBP"])), Some(1));
}

#[test]
fn best_format_of_no_image_format_is_none() {
    assert_eq!(best_format(&names(&[])), None);
    assert_eq!(best_format(&names(&["text/plain", "text/html", "image/gif"])), None);
}

#[test]
fn local_path_drops_the_file_scheme() {
    assert_eq!(local_path("file:///tmp/photo.jpg"), "/tmp/photo.jpg");
    assert_eq!(local_path("file://C:/pictures/a.png"), "C:/pictures/a.png");
    assert_eq!(local_path("file://"), "");
    assert_eq!(local_path("file:///données/été.png"), "/données/été.png");
}

#[test]
fn local_path_keeps_what_has_no_file_scheme() {
    assert_eq!(local_path("/tmp/photo.jpg"), "/tmp/photo.jpg");
    assert_eq!(local_path("C:\\pictures\\a.png"), "C:\\pictures\\a.png");
    assert_eq!(local_path(""), "");
    assert_eq!(local_path("file:/"), "file:/");
    assert_eq!(local_path("file:/tmp/a.png"), "file:/tmp/a.png");
    assert_eq!(local_path("FILE:///tmp/a.png"), "FILE:///tmp/a.png");
    assert_eq!(local_path("/file:///tmp/a.png"), "/file:///tmp/a.png");
    assert_eq!(local_path("http://host/a.png"), "http://host/a.png");
}

fn listed(entries: &[(&str, bool)]) -> Vec<ListedEntry> {
    entries
        .iter()
        .map(|(entry, is_directory)| ListedEntry {
            entry: entry.to_string(),
            is_directory: *is_directory,
        })
        .collect()
}

#[test]
fn assemble_prefers_the_file_list() {
    let bitmap = RawImage::new(1, 1, vec![1, 2, 3, 4]).unwrap();
    assert_eq!(
        ClipboardSnapshot::assemble(
            listed(&[("file:///tmp/a.png", false), ("/tmp/b.png", false)]),
            Some(bitmap.clone())
        ),
        ClipboardSnapshot::FileList(names(&["/tmp/a.png", "/tmp/b.png"]))
    );
    assert_eq!(
        ClipboardSnapshot::assemble(listed(&[("file:///tmp/a.png", false)]), None),
        ClipboardSnapshot::FileList(names(&["/tmp/a.png"]))
    );
}

#[test]
fn assemble_without_files() {
    let bitmap = RawImage::new(1, 1, vec![1, 2, 3, 4]).unwrap();
    assert_eq!(
        ClipboardSnapshot::assemble(Vec::new(), Some(bitmap.clone())),
        ClipboardSnapshot::RawImage(bitmap)
    );
    assert_eq!(ClipboardSnapshot::assemble(Vec::new(), None), ClipboardSnapshot::Empty);
}

#[test]
fn assemble_lists_a_directory_with_a_separator_at_its_end() {
    assert_eq!(
        ClipboardSnapshot::assemble(listed(&[("file:///tmp/album.png", true)]), None),
        ClipboardSnapshot::FileList(names(&["/tmp/album.png/"]))
    );
    assert_eq!(
        ClipboardSnapshot::assemble(
            listed(&[("/tmp/album", true), ("/tmp/a.png", false), ("C:\\pictures", true)]),
            None
        ),
        ClipboardSnapshot::FileList(names(&["/tmp/album/", "/tmp/a.png", "C:\\pictures/"]))
    );
}

#[test]
fn a_directory_is_never_a_source() {
    let snapshot = ClipboardSnapshot::assemble(listed(&[("/tmp/album.png", true)]), None);
    assert_eq!(snapshot.resolve(None), Source::Absent);
    let snapshot = ClipboardSnapshot::assemble(listed(&[("/tmp/album.png", false)]), None);
    assert_eq!(snapshot.resolve(None), Source::File { path: "/tmp/album.png".to_string() });

    let mut ctx = clip_optimizer::pipeline::AppContext::new("/data/app".to_string());
    for entry in ["/tmp/album.jpg", "/data/app/album.jpg", "/data/app", "/data"] {
        let snapshot = ClipboardSnapshot::assemble(listed(&[(entry, true)]), None);
        assert!(matches!(ctx.on_clipboard_change(snapshot, None), Action::Skip { .. }));
        assert!(!ctx.is_busy());
    }
}

#[test]
fn only_a_completed_run_reports_a_size() {
    let complete = Action::Complete {
        artifact: OptimizedArtifact { path: "/data/optimized.jpg".to_string(), byte_size: 1234 },
        original_size: 99,
    };
    assert_eq!(complete.reported_size(), 1234);
    assert_eq!(Action::Skip { reason: SkipReason::Busy }.reported_size(), 0);
    assert_eq!(Action::Abort { cause: AbortReason::EmptyEncoding }.reported_size(), 0);
    assert_eq!(Action::DecodeFile { path: "/tmp/a.png".to_string() }.reported_size(), 0);
    assert_eq!(
        Action::WriteArtifact {
            directory: "/data".to_string(),
            path: "/data/optimized.jpg".to_string(),
            bytes: vec![1, 2, 3],
        }
        .reported_size(),
        0
    );
}

#[test]
fn signals_of_actions() {
    let image = clip_optimizer::raster::ProcessableImage::new(1, 1, vec![1, 2, 3]).unwrap();
    assert_eq!(Action::Compress { image }.signal(), Some(Signal::Start));
    let complete = Action::Complete {
        artifact: OptimizedArtifact { path: "/data/optimized.jpg".to_string(), byte_size: 1234 },
        original_size: 99,
    };
    assert_eq!(
        complete.signal(),
        Some(Signal::Complete { original_size: 99, new_size: 1234 })
    );
    assert_eq!(Action::Skip { reason: SkipReason::SelfTrigger }.signal(), None);
    assert_eq!(Action::Skip { reason: SkipReason::Busy }.signal(), None);
    assert_eq!(Action::Skip { reason: SkipReason::NoImage }.signal(), None);
    assert_eq!(Action::Abort { cause: AbortReason::MalformedImage }.signal(), None);
    assert_eq!(Action::DecodeFile { path: "/tmp/a.png".to_string() }.signal(), None);
    assert_eq!(Action::ReplaceClipboard { path: "/data/optimized.jpg".to_string() }.signal(), None);
    assert_eq!(Action::Reverted.signal(), None);
    assert_eq!(
        Action::RestoreOriginal { original: RawImage::new(1, 1, vec![0; 4]).unwrap() }.signal(),
        None
    );
}
