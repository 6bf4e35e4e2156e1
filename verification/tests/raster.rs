use rust_resemble::raster::{pixel_count, Raster, Rgba8};

fn px(r: u8, g: u8, b: u8, a: u8) -> Rgba8 {
    Rgba8 { r, g, b, a }
}

#[test]
fn new_raster_is_zeroed() {
    let img = Raster::new(2, 3).unwrap();
    assert_eq!(img.dimensions(), (2, 3));
    assert_eq!(img.width(), 2);
    assert_eq!(img.height(), 3);
    assert_eq!(img.get_pixel(0, 0), Some(px(0, 0, 0, 0)));
    assert_eq!(img.get_pixel(1, 2), Some(px(0, 0, 0, 0)));
}

#[test]
fn get_pixel_outside_is_none() {
    let img = Raster::new(2, 3).unwrap();
    assert_eq!(img.get_pixel(2, 0), None);
    assert_eq!(img.get_pixel(0, 3), None);
    assert_eq!(img.get_pixel(u32::MAX, u32::MAX), None);
}

#[test]
fn new_raster_too_large_is_none() {
    assert!(Raster::new(u32::MAX, u32::MAX).is_none());
}

#[test]
fn empty_raster_has_no_pixels() {
    let img = Raster::new(0, 0).unwrap();
    assert_eq!(img.dimensions(), (0, 0));
    assert_eq!(img.get_pixel(0, 0), None);
    let wide = Raster::new(5, 0).unwrap();
    assert_eq!(wide.dimensions(), (5, 0));
    assert_eq!(wide.get_pixel(0, 0), None);
}

#[test]
fn put_pixel_stores_one_pixel() {
    let mut img = Raster::new(3, 2).unwrap();
    assert!(img.put_pixel(2, 1, px(9, 8, 7, 6)));
    assert_eq!(img.get_pixel(2, 1), Some(px(9, 8, 7, 6)));
    assert_eq!(img.get_pixel(1, 1), Some(px(0, 0, 0, 0)));
    assert_eq!(img.get_pixel(2, 0), Some(px(0, 0, 0, 0)));
    assert_eq!(img.dimensions(), (3, 2));
}

#[test]
fn put_pixel_outside_changes_nothing() {
    let mut img = Raster::new(2, 2).unwrap();
    assert!(!img.put_pixel(2, 0, px(1, 1, 1, 1)));
    assert!(!img.put_pixel(0, 2, px(1, 1, 1, 1)));
    assert_eq!(img.into_raw(), vec![0u8; 16]);
}

#[test]
fn from_raw_reads_rows_in_order() {
    let data: Vec<u8> = (0u8..24).collect();
    let img = Raster::from_raw(3, 2, data).unwrap();
    assert_eq!(img.dimensions(), (3, 2));
    assert_eq!(img.get_pixel(0, 0), Some(px(0, 1, 2, 3)));
    assert_eq!(img.get_pixel(1, 0), Some(px(4, 5, 6, 7)));
    assert_eq!(img.get_pixel(2, 0), Some(px(8, 9, 10, 11)));
    assert_eq!(img.get_pixel(0, 1), Some(px(12, 13, 14, 15)));
    assert_eq!(img.get_pixel(2, 1), Some(px(20, 21, 22, 23)));
}

#[test]
fn from_raw_rejects_short_data() {
    assert!(Raster::from_raw(2, 2, vec![0u8; 15]).is_none());
    assert!(Raster::from_raw(2, 2, vec![0u8; 16]).is_some());
    assert!(Raster::from_raw(u32::MAX, u32::MAX, vec![0u8; 16]).is_none());
}

#[test]
fn from_raw_accepts_longer_data() {
    let img = Raster::from_raw(1, 1, vec![1, 2, 3, 4, 5, 6]).unwrap();
    assert_eq!(img.dimensions(), (1, 1));
    assert_eq!(img.get_pixel(0, 0), Some(px(1, 2, 3, 4)));
    assert_eq!(img.get_pixel(1, 0), None);
}

#[test]
fn into_raw_gives_the_samples_back() {
    let mut img = Raster::new(2, 2).unwrap();
    assert!(img.put_pixel(1, 0, px(1, 2, 3, 4)));
    assert!(img.put_pixel(0, 1, px(5, 6, 7, 8)));
    assert_eq!(img.into_raw(), vec![0, 0, 0, 0, 1, 2, 3, 4, 5, 6, 7, 8, 0, 0, 0, 0]);
}

#[test]
fn raster_from_an_image_buffer() {
    let mut source = image::RgbaImage::from_pixel(2, 2, image::Rgba([1, 2, 3, 4]));
    source.put_pixel(1, 1, image::Rgba([50, 60, 70, 80]));
    let img = Raster::from_raw(source.width(), source.height(), source.into_raw()).unwrap();
    assert_eq!(img.get_pixel(0, 0), Some(px(1, 2, 3, 4)));
    assert_eq!(img.get_pixel(1, 1), Some(px(50, 60, 70, 80)));
}

#[test]
fn image_buffer_from_a_raster() {
    let mut img = Raster::new(2, 1).unwrap();
    assert!(img.put_pixel(1, 0, px(255, 0, 255, 255)));
    let back = image::RgbaImage::from_raw(2, 1, img.into_raw()).unwrap();
    assert_eq!(back.get_pixel(0, 0), &image::Rgba([0, 0, 0, 0]));
    assert_eq!(back.get_pixel(1, 0), &image::Rgba([255, 0, 255, 255]));
}

#[test]
fn channels_of_a_pixel() {
    let p = px(1, 2, 3, 4);
    assert_eq!(p.r(), 1);
    assert_eq!(p.g(), 2);
    assert_eq!(p.b(), 3);
    assert_eq!(p.a(), 4);
}

#[test]
fn pixel_count_is_the_product() {
    assert_eq!(pixel_count(0, 7), 0);
    assert_eq!(pixel_count(3, 7), 21);
    assert_eq!(pixel_count(u32::MAX, u32::MAX), 18446744065119617025);
}

#[test]
fn wide_empty_raster_needs_a_countable_row() {
    // four samples for each pixel of one row must fit in a usize, even where
    // there is no row at all
    let width: u32 = 0x4000_0000;
    let countable: bool = 4u128 * (width as u128) <= usize::MAX as u128;
    let made = Raster::new(width, 0);
    assert_eq!(made.is_some(), countable);
    if let Some(img) = made {
        assert_eq!(img.dimensions(), (width, 0));
        assert_eq!(img.get_pixel(0, 0), None);
    }
    let raw = Raster::from_raw(width, 0, Vec::new());
    assert_eq!(raw.is_some(), countable);
    if let Some(img) = raw {
        assert_eq!(img.dimensions(), (width, 0));
    }
}

#[test]
fn narrow_empty_raster_always_exists() {
    let width: u32 = 0x3fff_ffff;
    assert_eq!(Raster::new(width, 0).unwrap().dimensions(), (width, 0));
    assert_eq!(Raster::from_raw(width, 0, Vec::new()).unwrap().dimensions(), (width, 0));
    assert_eq!(Raster::new(0, u32::MAX).unwrap().dimensions(), (0, u32::MAX));
    assert_eq!(Raster::from_raw(0, u32::MAX, Vec::new()).unwrap().dimensions(), (0, u32::MAX));
}
