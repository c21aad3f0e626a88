use clip_optimizer::pixels::{has_buffer_len, strip_alpha, RGBA_CHANNELS, RGB_CHANNELS};

#[test]
fn strip_alpha_drops_every_fourth_byte() {
    let rgba: Vec<u8> = vec![1, 2, 3, 4, 5, 6, 7, 8, 9, 10, 11, 12];
    assert_eq!(strip_alpha(&rgba), vec![1, 2, 3, 5, 6, 7, 9, 10, 11]);
}

#[test]
fn strip_alpha_of_nothing_is_nothing() {
    let rgba: Vec<u8> = Vec::new();
    assert_eq!(strip_alpha(&rgba), Vec::<u8>::new());
}

#[test]
fn strip_alpha_ignores_a_trailing_partial_pixel() {
    let rgba: Vec<u8> = vec![10, 20, 30, 40, 50, 60];
    assert_eq!(strip_alpha(&rgba), vec![10, 20, 30]);
    let short: Vec<u8> = vec![10, 20, 30];
    assert_eq!(strip_alpha(&short), Vec::<u8>::new());
}

#[test]
fn strip_alpha_keeps_three_of_every_four_bytes() {
    let width: usize = 7;
    let height: usize = 5;
    let mut rgba: Vec<u8> = Vec::new();
    for i in 0..width * height * 4 {
        rgba.push((i % 251) as u8);
    }
    let rgb = strip_alpha(&rgba);
    assert_eq!(rgb.len(), width * height * 3);
    for p in 0..width * height {
        for c in 0..3 {
            assert_eq!(rgb[3 * p + c], rgba[4 * p + c]);
        }
    }
}

#[test]
fn channel_counts() {
    assert_eq!(RGBA_CHANNELS, 4);
    assert_eq!(RGB_CHANNELS, 3);
}

#[test]
fn has_buffer_len_is_exact() {
    assert!(has_buffer_len(20_000, 100, 50, 4));
    assert!(has_buffer_len(15_000, 100, 50, 3));
    assert!(!has_buffer_len(19_999, 100, 50, 4));
    assert!(!has_buffer_len(20_001, 100, 50, 4));
    assert!(!has_buffer_len(15_000, 100, 50, 4));
    assert!(has_buffer_len(0, 0, 50, 4));
    assert!(has_buffer_len(0, 100, 0, 4));
    assert!(!has_buffer_len(1, 0, 0, 4));
}

#[test]
fn has_buffer_len_does_not_wrap() {
    // 65536 * 65536 * 4 is 2^34; a length that agrees with it only modulo
    // 2^32 is not that length.
    assert!(!has_buffer_len(0, 65_536, 65_536, 4));
    assert!(!has_buffer_len(0, u32::MAX, u32::MAX, 4));
    assert!(!has_buffer_len(4, u32::MAX, u32::MAX, 4));
}
