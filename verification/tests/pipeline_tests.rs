use photowall::config::{duration_ticks, Config};
use photowall::frame::{flip_rows, frame_byte_len};
use photowall::orientation::{rotated_dims, rotation_for_orientation, ExifRotation};
use photowall::paths::{sort_names, supported_extension};

#[test]
fn frame_byte_len_counts_four_bytes_per_pixel() {
    let cfg = Config::standard();
    assert_eq!(frame_byte_len(&cfg), 1920 * 1080 * 4);
}

#[test]
fn flip_rows_reverses_the_row_order_exactly() {
    // a 2-pixel-wide, 3-row frame with distinct bytes
    let mut frame: Vec<u8> = Vec::new();
    for b in 0..24u8 {
        frame.push(b);
    }
    let flipped = flip_rows(&frame, 2, 3);
    assert_eq!(flipped.len(), 24);
    // output row 0 is input row 2, byte for byte
    assert_eq!(&flipped[0..8], &frame[16..24]);
    assert_eq!(&flipped[8..16], &frame[8..16]);
    assert_eq!(&flipped[16..24], &frame[0..8]);
}

#[test]
fn flip_rows_twice_restores_the_frame() {
    let mut frame: Vec<u8> = Vec::new();
    for i in 0..(4 * 5 * 4) {
        frame.push((i * 37 % 251) as u8);
    }
    let once = flip_rows(&frame, 4, 5);
    let twice = flip_rows(&once, 4, 5);
    assert_eq!(twice, frame);
}

#[test]
fn accepted_image_extensions() {
    for good in ["png", "jpg", "jpeg", "bmp", "gif", "PNG", "JPG", "Jpeg", "GIF"] {
        assert!(supported_extension(&good.as_bytes().to_vec()), "{}", good);
    }
    for bad in ["", "txt", "jp", "jpgx", "mp4", "pn", "jpe"] {
        assert!(!supported_extension(&bad.as_bytes().to_vec()), "{}", bad);
    }
}

#[test]
fn names_sort_ascending_byte_wise() {
    let names: Vec<Vec<u8>> = ["b.png", "a.png", "aa.png", "A.png"]
        .iter()
        .map(|s| s.as_bytes().to_vec())
        .collect();
    let sorted = sort_names(names);
    let got: Vec<String> = sorted
        .iter()
        .map(|n| String::from_utf8(n.clone()).unwrap())
        .collect();
    // capital letters order before lower-case ones in byte order
    assert_eq!(got, vec!["A.png", "a.png", "aa.png", "b.png"]);
}

#[test]
fn sorting_keeps_duplicates() {
    let names: Vec<Vec<u8>> = ["x", "a", "x", "a"].iter().map(|s| s.as_bytes().to_vec()).collect();
    let sorted = sort_names(names);
    let got: Vec<String> = sorted
        .iter()
        .map(|n| String::from_utf8(n.clone()).unwrap())
        .collect();
    assert_eq!(got, vec!["a", "a", "x", "x"]);
}

#[test]
fn orientation_tags_map_to_their_rotations() {
    assert_eq!(rotation_for_orientation(1), ExifRotation::Deg0);
    assert_eq!(rotation_for_orientation(3), ExifRotation::Deg180);
    assert_eq!(rotation_for_orientation(6), ExifRotation::Cw90);
    assert_eq!(rotation_for_orientation(8), ExifRotation::Ccw90);
    // flips and unknown values fall back to the unrotated image
    assert_eq!(rotation_for_orientation(2), ExifRotation::Deg0);
    assert_eq!(rotation_for_orientation(7), ExifRotation::Deg0);
    assert_eq!(rotation_for_orientation(0), ExifRotation::Deg0);
}

#[test]
fn quarter_turns_swap_the_pixel_extents() {
    assert_eq!(rotated_dims(800, 600, ExifRotation::Cw90), (600, 800));
    assert_eq!(rotated_dims(800, 600, ExifRotation::Ccw90), (600, 800));
    assert_eq!(rotated_dims(800, 600, ExifRotation::Deg0), (800, 600));
    assert_eq!(rotated_dims(800, 600, ExifRotation::Deg180), (800, 600));
}

#[test]
fn duration_ticks_rounds_to_the_nearest_frame() {
    // the standard phase durations in milliseconds at 60 fps
    assert_eq!(duration_ticks(60, 2000), 120);
    assert_eq!(duration_ticks(60, 500), 30);
    assert_eq!(duration_ticks(60, 200), 12);
    // 60 fps over 25 ms is 1.5 frames: rounds up
    assert_eq!(duration_ticks(60, 25), 2);
    assert_eq!(duration_ticks(60, 24), 1);
}

#[test]
fn standard_config_matches_the_show_defaults() {
    let cfg = Config::standard();
    assert_eq!(cfg.render_width, 1920);
    assert_eq!(cfg.render_height, 1080);
    assert_eq!(cfg.fps, 60);
    assert_eq!(cfg.display_ticks as u64, duration_ticks(cfg.fps, 2000));
    assert_eq!(cfg.animation_ticks as u64, duration_ticks(cfg.fps, 500));
    assert_eq!(cfg.cleanup_ticks as u64, duration_ticks(cfg.fps, 200));
}
