use clip_optimizer::paths::{artifact_path, chars_of, is_image_path, parent_is};

#[test]
fn chars_of_keeps_every_character() {
    assert_eq!(chars_of("a/b.png"), vec!['a', '/', 'b', '.', 'p', 'n', 'g']);
    assert_eq!(chars_of(""), Vec::<char>::new());
    assert_eq!(chars_of("é/ß"), vec!['é', '/', 'ß']);
}

#[test]
fn parent_is_everything_before_the_last_separator() {
    assert!(parent_is("/tmp/photo.jpg", "/tmp"));
    assert!(parent_is("/home/user/.local/share/app/optimized.jpg", "/home/user/.local/share/app"));
    assert!(!parent_is("/tmp/photo.jpg", "/tmp/"));
    assert!(!parent_is("/tmp/photo.jpg", "/tm"));
    assert!(!parent_is("/tmp/photo.jpg", "/tmq"));
    assert!(!parent_is("/tmp/photo.jpg", "/"));
    assert!(!parent_is("/tmp/sub/photo.jpg", "/tmp"));
    assert!(parent_is("/tmp/sub/photo.jpg", "/tmp/sub"));
}

#[test]
fn parent_of_a_bare_name_is_none() {
    assert!(!parent_is("photo.jpg", ""));
    assert!(!parent_is("photo.jpg", "photo.jpg"));
    assert!(!parent_is("", ""));
}

#[test]
fn parent_of_a_root_entry_is_empty() {
    assert!(parent_is("/photo.jpg", ""));
    assert!(!parent_is("/photo.jpg", "/"));
}

#[test]
fn parent_with_backslashes() {
    assert!(parent_is("C:\\Users\\me\\AppData\\app\\optimized.jpg", "C:\\Users\\me\\AppData\\app"));
    assert!(!parent_is("C:\\Users\\me\\AppData\\app\\optimized.jpg", "C:\\Users\\me\\AppData"));
    assert!(parent_is("C:\\data/optimized.jpg", "C:\\data"));
}

#[test]
fn parent_with_a_trailing_separator() {
    assert!(parent_is("/tmp/dir/", "/tmp/dir"));
    assert!(parent_is("/tmp//photo.jpg", "/tmp/"));
}

#[test]
fn parent_with_characters_beyond_ascii() {
    assert!(parent_is("/données/été/photo.jpg", "/données/été"));
    assert!(!parent_is("/données/été/photo.jpg", "/donnees/ete"));
}

#[test]
fn every_recognized_extension() {
    assert!(is_image_path("/tmp/a.png"));
    assert!(is_image_path("/tmp/a.jpg"));
    assert!(is_image_path("/tmp/a.jpeg"));
    assert!(is_image_path("/tmp/a.bmp"));
    assert!(is_image_path("/tmp/a.tiff"));
    assert!(is_image_path("/tmp/a.webp"));
}

#[test]
fn extensions_in_any_case() {
    assert!(is_image_path("/tmp/a.PNG"));
    assert!(is_image_path("/tmp/a.Jpg"));
    assert!(is_image_path("/tmp/a.jPeG"));
    assert!(is_image_path("/tmp/a.BMP"));
    assert!(is_image_path("/tmp/a.TiFF"));
    assert!(is_image_path("C:\\pictures\\a.WEBP"));
}

#[test]
fn other_extensions() {
    assert!(!is_image_path("/tmp/a.gif"));
    assert!(!is_image_path("/tmp/a.tif"));
    assert!(!is_image_path("/tmp/a.txt"));
    assert!(!is_image_path("/tmp/a.pngx"));
    assert!(!is_image_path("/tmp/a.pn"));
    assert!(!is_image_path("/tmp/a.jpg.bak"));
    assert!(!is_image_path("/tmp/a.svg"));
    assert!(!is_image_path("/tmp/a.p\u{212A}g"));
}

#[test]
fn paths_without_an_extension() {
    assert!(!is_image_path(""));
    assert!(!is_image_path("/tmp/png"));
    assert!(!is_image_path("/tmp/a."));
    assert!(!is_image_path("/tmp/.png"));
    assert!(!is_image_path("/tmp/dir.png/file"));
    assert!(!is_image_path("/tmp/dir.png/"));
    assert!(!is_image_path("png"));
}

#[test]
fn the_last_dot_decides() {
    assert!(is_image_path("/tmp/archive.tar.png"));
    assert!(is_image_path("/tmp/.hidden.jpg"));
    assert!(is_image_path("a.b.c.webp"));
    assert!(is_image_path("photo.jpg"));
}

#[test]
fn artifact_path_is_fixed_under_the_data_dir() {
    assert_eq!(artifact_path("/home/user/.local/share/app"), "/home/user/.local/share/app/optimized.jpg");
    assert_eq!(artifact_path(""), "/optimized.jpg");
    assert_eq!(artifact_path("C:\\data"), "C:\\data/optimized.jpg");
}

#[test]
fn artifact_lies_in_the_data_dir_and_names_an_image() {
    for dir in ["/data", "", "/a/b/c", "C:\\Users\\me", "/trailing/", "rel/dir"] {
        let path = artifact_path(dir);
        assert!(parent_is(&path, dir));
        assert!(is_image_path(&path));
    }
}
