use clip_optimizer::raster::{ImageError, RawImage};
use clip_optimizer::snapshot::{ClipboardSnapshot, DecodedFile, OriginalSizeInfo, Source};

fn files(paths: &[&str]) -> ClipboardSnapshot {
    ClipboardSnapshot::FileList(paths.iter().map(|p| p.to_string()).collect())
}

#[test]
fn raw_image_snapshot_checks_the_stride() {
    assert_eq!(
        ClipboardSnapshot::raw_image(1, 1, vec![1, 2, 3, 4]),
        Ok(ClipboardSnapshot::RawImage(RawImage::new(1, 1, vec![1, 2, 3, 4]).unwrap()))
    );
    assert_eq!(ClipboardSnapshot::raw_image(1, 1, vec![1, 2, 3]), Err(ImageError::LengthMismatch));
    assert_eq!(ClipboardSnapshot::raw_image(2, 2, vec![0; 12]), Err(ImageError::LengthMismatch));
}

#[test]
fn self_trigger_is_a_single_file_in_the_data_dir() {
    assert!(files(&["/data/app/optimized.jpg"]).is_self_trigger("/data/app"));
    assert!(files(&["/data/app/anything.txt"]).is_self_trigger("/data/app"));
    assert!(!files(&["/tmp/photo.jpg"]).is_self_trigger("/data/app"));
    assert!(!files(&["/data/app/sub/optimized.jpg"]).is_self_trigger("/data/app"));
    assert!(!files(&["/data/optimized.jpg"]).is_self_trigger("/data/app"));
}

#[test]
fn self_trigger_needs_exactly_one_entry() {
    assert!(!files(&[]).is_self_trigger("/data/app"));
    assert!(!files(&["/data/app/optimized.jpg", "/data/app/optimized.jpg"]).is_self_trigger("/data/app"));
    assert!(!files(&["/data/app/optimized.jpg", "/tmp/b.png"]).is_self_trigger("/data/app"));
}

#[test]
fn other_snapshots_are_no_self_trigger() {
    assert!(!ClipboardSnapshot::Empty.is_self_trigger("/data/app"));
    assert!(!ClipboardSnapshot::raw_image(1, 1, vec![0; 4]).unwrap().is_self_trigger("/data/app"));
}

#[test]
fn resolve_empty_is_absent() {
    assert_eq!(ClipboardSnapshot::Empty.resolve(None), Source::Absent);
    assert_eq!(ClipboardSnapshot::Empty.resolve(Some(10)), Source::Absent);
}

#[test]
fn resolve_single_image_file() {
    assert_eq!(
        files(&["/tmp/photo.jpg"]).resolve(None),
        Source::File { path: "/tmp/photo.jpg".to_string() }
    );
    assert_eq!(
        files(&["/tmp/Scan.TIFF"]).resolve(Some(5)),
        Source::File { path: "/tmp/Scan.TIFF".to_string() }
    );
}

#[test]
fn resolve_single_other_file_is_absent() {
    assert_eq!(files(&["/tmp/notes.txt"]).resolve(None), Source::Absent);
    assert_eq!(files(&["/tmp/pictures"]).resolve(None), Source::Absent);
}

#[test]
fn resolve_several_files_is_absent() {
    assert_eq!(files(&["/tmp/a.png", "/tmp/b.png"]).resolve(None), Source::Absent);
    assert_eq!(files(&["/tmp/a.png", "/tmp/notes.txt"]).resolve(None), Source::Absent);
    assert_eq!(files(&[]).resolve(None), Source::Absent);
}

#[test]
fn resolve_bitmap_keeps_the_original() {
    let snapshot = ClipboardSnapshot::raw_image(1, 2, vec![1, 2, 3, 4, 5, 6, 7, 8]).unwrap();
    assert_eq!(
        snapshot.resolve(Some(1234)),
        Source::Raw {
            original: RawImage::new(1, 2, vec![1, 2, 3, 4, 5, 6, 7, 8]).unwrap(),
            size: OriginalSizeInfo::Advertised(1234),
        }
    );
    let snapshot = ClipboardSnapshot::raw_image(1, 1, vec![1, 2, 3, 4]).unwrap();
    assert_eq!(
        snapshot.resolve(None),
        Source::Raw {
            original: RawImage::new(1, 1, vec![1, 2, 3, 4]).unwrap(),
            size: OriginalSizeInfo::Unknown,
        }
    );
}

#[test]
fn original_size_in_bytes() {
    assert_eq!(OriginalSizeInfo::OnDisk(2_097_152).bytes(), 2_097_152);
    assert_eq!(OriginalSizeInfo::Advertised(77).bytes(), 77);
    assert_eq!(OriginalSizeInfo::Unknown.bytes(), 0);
    assert_eq!(OriginalSizeInfo::of_raw(Some(9)), OriginalSizeInfo::Advertised(9));
    assert_eq!(OriginalSizeInfo::of_raw(Some(0)), OriginalSizeInfo::Advertised(0));
    assert_eq!(OriginalSizeInfo::of_raw(None), OriginalSizeInfo::Unknown);
}

#[test]
fn confirm_decoded_file() {
    let decoded = DecodedFile { width: 2, height: 1, rgb: vec![1, 2, 3, 4, 5, 6], file_size: 999 };
    let (image, size) = decoded.confirm().unwrap();
    assert_eq!(image.width(), 2);
    assert_eq!(image.height(), 1);
    assert_eq!(image.rgb_bytes(), &[1, 2, 3, 4, 5, 6]);
    assert_eq!(size, OriginalSizeInfo::OnDisk(999));
}

#[test]
fn confirm_refuses_a_buffer_that_does_not_match() {
    let decoded = DecodedFile { width: 2, height: 1, rgb: vec![1, 2, 3, 4, 5, 6, 7, 8], file_size: 999 };
    assert_eq!(decoded.confirm(), Err(ImageError::LengthMismatch));
    let decoded = DecodedFile { width: 2, height: 2, rgb: vec![1, 2, 3], file_size: 1 };
    assert_eq!(decoded.confirm(), Err(ImageError::LengthMismatch));
}
