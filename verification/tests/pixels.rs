use thumbnail_generator::pixels::rgba_to_bgra;

#[test]
fn swaps_red_and_blue_of_each_pixel() {
    let rgba = [1u8, 2, 3, 4, 10, 20, 30, 40];
    assert_eq!(rgba_to_bgra(&rgba), vec![3, 2, 1, 4, 30, 20, 10, 40]);
}

#[test]
fn keeps_bytes_after_the_last_pixel() {
    assert_eq!(rgba_to_bgra(&[1, 2, 3, 4, 5, 6]), vec![3, 2, 1, 4, 5, 6]);
    assert_eq!(rgba_to_bgra(&[9, 8, 7]), vec![9, 8, 7]);
    assert_eq!(rgba_to_bgra(&[]), Vec::<u8>::new());
}

#[test]
fn swapping_twice_restores_the_pixels() {
    let rgba: Vec<u8> = (0..=255u8).collect();
    assert_eq!(rgba_to_bgra(&rgba_to_bgra(&rgba)), rgba);
}
