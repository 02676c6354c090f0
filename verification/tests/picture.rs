use pomme_screenshare::picture::RgbaPicture;

#[test]
fn a_picture_needs_its_pixels() {
    assert!(RgbaPicture::from_raw(2, 1, vec![0; 7]).is_none());
    let picture = RgbaPicture::from_raw(2, 1, vec![1, 2, 3, 4, 5, 6, 7, 8]).unwrap();
    assert_eq!((picture.width, picture.height), (2, 1));
    assert_eq!(picture.pixels, vec![1, 2, 3, 4, 5, 6, 7, 8]);
    assert_eq!(RgbaPicture::from_raw(1, 1, vec![0; 9]).unwrap().pixels.len(), 9);
    assert!(RgbaPicture::from_raw(0, 5, vec![]).is_some());
    assert!(RgbaPicture::from_raw(u32::MAX, u32::MAX, vec![0; 16]).is_none());
}

#[test]
fn red_and_blue_trade_places() {
    let mut picture = RgbaPicture::from_raw(2, 1, vec![1, 2, 3, 4, 5, 6, 7, 8, 9, 10, 11]).unwrap();
    picture.swap_red_and_blue();
    assert_eq!(picture.pixels, vec![3, 2, 1, 4, 7, 6, 5, 8, 9, 10, 11]);
    picture.swap_red_and_blue();
    assert_eq!(picture.pixels, vec![1, 2, 3, 4, 5, 6, 7, 8, 9, 10, 11]);
}
