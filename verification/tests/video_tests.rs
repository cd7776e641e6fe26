use waylandcraft::video::prepare_frame;

fn frame(w: u32, h: u32) -> Vec<u8> {
    // Pixel (x, y) is [y, x, 0, 255].
    let mut v = Vec::new();
    for y in 0..h {
        for x in 0..w {
            v.extend_from_slice(&[y as u8, x as u8, 0, 255]);
        }
    }
    v
}

#[test]
fn odd_frame_drops_last_column_and_row() {
    let f = prepare_frame(&frame(3, 3), 3, 3, false).unwrap();
    assert_eq!((f.width, f.height), (2, 2));
    assert_eq!(f.data, vec![0, 0, 0, 255, 0, 1, 0, 255, 1, 0, 0, 255, 1, 1, 0, 255]);
}

#[test]
fn flipped_frame_reads_rows_bottom_up() {
    let f = prepare_frame(&frame(2, 3), 2, 3, true).unwrap();
    assert_eq!((f.width, f.height), (2, 2));
    // Output rows 0 and 1 come from source rows 2 and 1.
    assert_eq!(f.data, vec![2, 0, 0, 255, 2, 1, 0, 255, 1, 0, 0, 255, 1, 1, 0, 255]);
}

#[test]
fn frame_errors() {
    assert_eq!(prepare_frame(&[], 0, 5, false), Err("[h264] invalid dimensions 0x5".to_string()));
    assert_eq!(
        prepare_frame(&[], 3841, 10, false),
        Err("[h264] resolution 3841x10 exceeds OpenH264 max".to_string())
    );
    assert_eq!(prepare_frame(&[0; 8], 1, 2, false), Err("[h264] resolution too small 1x2".to_string()));
    assert_eq!(
        prepare_frame(&[0; 15], 2, 2, false),
        Err("[h264] rgba buffer too small: 15 < 16 (2x2)".to_string())
    );
}

#[test]
fn largest_frame_is_accepted() {
    let data = vec![7u8; 3840 * 2160 * 4];
    let f = prepare_frame(&data, 3840, 2160, true).unwrap();
    assert_eq!((f.width, f.height), (3840, 2160));
    assert_eq!(f.data.len(), data.len());
}
