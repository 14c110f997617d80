use termcad::readback::{padded_bytes_per_row, unpad_rows};

#[test]
fn rows_are_padded_to_256_bytes() {
    assert_eq!(padded_bytes_per_row(1), 256);
    assert_eq!(padded_bytes_per_row(64), 256);
    assert_eq!(padded_bytes_per_row(65), 512);
    assert_eq!(padded_bytes_per_row(800), 3328);
}

#[test]
fn unpadding_drops_row_tails() {
    let data: Vec<u8> = (0u8..24).collect();
    // two rows of 12 bytes, of which the first 8 are pixels
    assert_eq!(
        unpad_rows(&data, 2, 2, 12),
        vec![0, 1, 2, 3, 4, 5, 6, 7, 12, 13, 14, 15, 16, 17, 18, 19]
    );
    assert!(unpad_rows(&data, 2, 0, 12).is_empty());
}
