use rust_resemble::antialias::is_antialiased;
use rust_resemble::color::{
    abs_sub, get_brightness, get_hue, is_alpha_similar, is_high_contrast, is_hue_different,
    is_pixel_brightness_similar, is_rgb_same, is_rgb_similar, is_similar, Hue,
};
use rust_resemble::compare::{compare_pixel, mismatch_pixel, xy_from_index};
use rust_resemble::options::{ComparisonOptions, Profile, Tolerance};
use rust_resemble::raster::{Raster, Rgba8};

fn rgb(r: u8, g: u8, b: u8) -> Rgba8 {
    Rgba8 { r, g, b, a: 255 }
}

fn grid(width: u32, height: u32, pixels: &[Rgba8]) -> Raster {
    let mut data: Vec<u8> = Vec::new();
    for p in pixels {
        data.push(p.r);
        data.push(p.g);
        data.push(p.b);
        data.push(p.a);
    }
    Raster::from_raw(width, height, data).unwrap()
}

#[test]
fn abs_sub_is_the_distance() {
    assert_eq!(abs_sub(3, 10), 7);
    assert_eq!(abs_sub(10, 3), 7);
    assert_eq!(abs_sub(-5, 5), 10);
    assert_eq!(abs_sub(4, 4), 0);
    assert_eq!(abs_sub(i32::MIN, i32::MAX), u32::MAX);
}

#[test]
fn is_similar_bound_is_inclusive() {
    assert!(is_similar(10, 26, 16));
    assert!(is_similar(26, 10, 16));
    assert!(!is_similar(10, 27, 16));
    assert!(is_similar(5, 5, 0));
    assert!(!is_similar(5, 6, 0));
    assert!(!is_similar(5, 5, -1));
}

#[test]
fn brightness_is_the_weighted_sum() {
    assert_eq!(get_brightness(&rgb(0, 0, 0)), 0);
    assert_eq!(get_brightness(&rgb(255, 255, 255)), 25500);
    assert_eq!(get_brightness(&rgb(100, 0, 0)), 3000);
    assert_eq!(get_brightness(&rgb(0, 100, 0)), 5900);
    assert_eq!(get_brightness(&rgb(0, 0, 100)), 1100);
    assert_eq!(get_brightness(&rgb(10, 20, 30)), 1810);
}

#[test]
fn hue_of_gray_is_zero() {
    assert_eq!(get_hue(&rgb(0, 0, 0)), Hue { num: 0, den: 1 });
    assert_eq!(get_hue(&rgb(77, 77, 77)), Hue { num: 0, den: 1 });
}

#[test]
fn hue_when_red_is_largest() {
    // green at least blue: (g - b) / d / 6
    assert_eq!(get_hue(&rgb(255, 0, 0)), Hue { num: 0, den: 1530 });
    assert_eq!(get_hue(&rgb(200, 150, 100)), Hue { num: 50, den: 600 });
    // green below blue: ((g - b) / d + 6) / 6
    assert_eq!(get_hue(&rgb(200, 100, 150)), Hue { num: 550, den: 600 });
    // red ties with green: the red sector is chosen
    assert_eq!(get_hue(&rgb(200, 200, 100)), Hue { num: 100, den: 600 });
}

#[test]
fn hue_when_green_is_largest() {
    assert_eq!(get_hue(&rgb(0, 255, 0)), Hue { num: 510, den: 1530 });
    assert_eq!(get_hue(&rgb(90, 110, 110)), Hue { num: 60, den: 120 });
    assert_eq!(get_hue(&rgb(6, 10, 5)), Hue { num: 9, den: 30 });
}

#[test]
fn hue_when_blue_is_largest() {
    assert_eq!(get_hue(&rgb(0, 0, 255)), Hue { num: 1020, den: 1530 });
    assert_eq!(get_hue(&rgb(10, 20, 30)), Hue { num: 70, den: 120 });
}

#[test]
fn hue_difference_bound_is_exclusive() {
    let gray = get_hue(&rgb(50, 50, 50));
    // exactly three tenths away
    assert!(!is_hue_different(gray, get_hue(&rgb(6, 10, 5))));
    assert!(!is_hue_different(get_hue(&rgb(6, 10, 5)), gray));
    // a third away
    assert!(is_hue_different(gray, get_hue(&rgb(0, 255, 0))));
    assert!(is_hue_different(get_hue(&rgb(0, 255, 0)), gray));
    assert!(!is_hue_different(gray, gray));
    assert!(is_hue_different(Hue { num: 31, den: 100 }, Hue { num: 0, den: 1 }));
    assert!(!is_hue_different(Hue { num: 30, den: 100 }, Hue { num: 0, den: 1 }));
}

#[test]
fn rgb_same_ignores_alpha() {
    let p = Rgba8 { r: 1, g: 2, b: 3, a: 4 };
    let q = Rgba8 { r: 1, g: 2, b: 3, a: 200 };
    assert!(is_rgb_same(&p, &q));
    assert!(!is_rgb_same(&p, &Rgba8 { r: 1, g: 2, b: 4, a: 4 }));
    assert!(!is_rgb_same(&p, &Rgba8 { r: 1, g: 3, b: 3, a: 4 }));
    assert!(!is_rgb_same(&p, &Rgba8 { r: 0, g: 2, b: 3, a: 4 }));
}

#[test]
fn rgb_similar_checks_each_channel() {
    let t = ComparisonOptions::with_profile(Profile::Default).tolerance;
    let p = rgb(100, 100, 100);
    assert!(is_rgb_similar(&p, &rgb(116, 84, 116), &t));
    assert!(!is_rgb_similar(&p, &rgb(117, 100, 100), &t));
    assert!(!is_rgb_similar(&p, &rgb(100, 83, 100), &t));
    assert!(!is_rgb_similar(&p, &rgb(100, 100, 117), &t));
    let own = Tolerance { alpha: 0, max_brightness: 0, min_brightness: 0, red: 1, green: 2, blue: 3 };
    assert!(is_rgb_similar(&p, &rgb(101, 102, 103), &own));
    assert!(!is_rgb_similar(&p, &rgb(102, 102, 103), &own));
}

#[test]
fn brightness_similar_bound_is_inclusive() {
    let t = ComparisonOptions::with_profile(Profile::Default).tolerance;
    assert!(is_pixel_brightness_similar(&rgb(0, 0, 0), &rgb(16, 16, 16), &t));
    assert!(!is_pixel_brightness_similar(&rgb(0, 0, 0), &rgb(17, 16, 16), &t));
    assert!(is_pixel_brightness_similar(&rgb(100, 0, 0), &rgb(0, 50, 0), &t));
}

#[test]
fn high_contrast_bound_is_exclusive() {
    let t = ComparisonOptions::with_profile(Profile::IgnoreAntialiasing).tolerance;
    assert!(!is_high_contrast(&rgb(0, 0, 0), &rgb(96, 96, 96), &t));
    assert!(is_high_contrast(&rgb(0, 0, 0), &rgb(97, 96, 96), &t));
    assert!(is_high_contrast(&rgb(97, 96, 96), &rgb(0, 0, 0), &t));
}

#[test]
fn alpha_at_the_tolerance_matches() {
    let opt = ComparisonOptions::new().ignore_less();
    let img = Raster::new(1, 1).unwrap();
    let p1 = Rgba8 { r: 10, g: 20, b: 30, a: 200 };
    let p2 = Rgba8 { r: 10, g: 20, b: 30, a: 216 };
    let p3 = Rgba8 { r: 10, g: 20, b: 30, a: 217 };
    assert!(is_alpha_similar(&p1, &p2, &opt.tolerance));
    assert!(!is_alpha_similar(&p1, &p3, &opt.tolerance));
    assert!(compare_pixel(&p1, &p2, &img, &img, (0, 0), &opt));
    assert!(!compare_pixel(&p1, &p3, &img, &img, (0, 0), &opt));
}

#[test]
fn alpha_beyond_tolerance_never_matches() {
    let img = Raster::new(1, 1).unwrap();
    let p1 = Rgba8 { r: 10, g: 20, b: 30, a: 255 };
    let p2 = Rgba8 { r: 10, g: 20, b: 30, a: 0 };
    let profiles = [
        Profile::Exact,
        Profile::Default,
        Profile::IgnoreAntialiasing,
        Profile::IgnoreColors,
    ];
    for profile in profiles {
        let opt = ComparisonOptions::with_profile(profile);
        assert!(!compare_pixel(&p1, &p2, &img, &img, (0, 0), &opt));
        assert!(!compare_pixel(&p2, &p1, &img, &img, (0, 0), &opt));
    }
}

#[test]
fn ignoring_colors_compares_brightness_only() {
    let img = Raster::new(1, 1).unwrap();
    let colors = ComparisonOptions::new().ignore_colors();
    let less = ComparisonOptions::new().ignore_less();
    let red = rgb(100, 0, 0);
    let green = rgb(0, 50, 0);
    assert!(compare_pixel(&red, &green, &img, &img, (0, 0), &colors));
    assert!(!compare_pixel(&red, &green, &img, &img, (0, 0), &less));
    // same hue family, brightness too far apart
    assert!(!compare_pixel(&rgb(0, 0, 0), &rgb(17, 16, 16), &img, &img, (0, 0), &colors));
}

#[test]
fn antialiased_pixels_still_need_similar_brightness() {
    // a lone pixel has no neighbor of its own color, so it counts as anti-aliased
    let a = grid(1, 1, &[rgb(100, 100, 100)]);
    let near = rgb(140, 100, 100);
    let far = rgb(100, 255, 100);
    let opt = ComparisonOptions::new().ignore_antialiasing();
    let less = ComparisonOptions::new().ignore_less();
    let b_near = grid(1, 1, &[near]);
    let b_far = grid(1, 1, &[far]);
    assert!(compare_pixel(&rgb(100, 100, 100), &near, &a, &b_near, (0, 0), &opt));
    assert!(!compare_pixel(&rgb(100, 100, 100), &near, &a, &b_near, (0, 0), &less));
    assert!(!compare_pixel(&rgb(100, 100, 100), &far, &a, &b_far, (0, 0), &opt));
}

#[test]
fn solid_fill_is_not_antialiased() {
    let c = rgb(100, 100, 100);
    let img = grid(3, 3, &[c; 9]);
    let t = ComparisonOptions::new().ignore_antialiasing().tolerance;
    assert!(!is_antialiased(&c, &img, &(1, 1), &t));
    assert!(!is_antialiased(&c, &img, &(0, 0), &t));
    assert!(!is_antialiased(&c, &img, &(2, 1), &t));
}

#[test]
fn two_equal_neighbors_outweigh_single_outliers() {
    let c = rgb(100, 100, 100);
    let other = rgb(101, 101, 101);
    let dark = rgb(0, 0, 0);
    let cyan = rgb(90, 110, 110);
    // one neighbor of high contrast, one of another hue, two of the same color
    let img = grid(3, 3, &[c, dark, other, c, c, other, cyan, other, other]);
    let t = ComparisonOptions::new().ignore_antialiasing().tolerance;
    assert!(is_high_contrast(&c, &dark, &t));
    assert!(!is_high_contrast(&c, &cyan, &t));
    assert!(is_hue_different(get_hue(&c), get_hue(&cyan)));
    assert!(!is_hue_different(get_hue(&c), get_hue(&dark)));
    assert!(!is_antialiased(&c, &img, &(1, 1), &t));
}

#[test]
fn two_high_contrast_neighbors_flag_the_pixel() {
    let c = rgb(100, 100, 100);
    let other = rgb(101, 101, 101);
    let dark = rgb(0, 0, 0);
    let img = grid(3, 3, &[c, dark, other, c, c, other, dark, other, other]);
    let t = ComparisonOptions::new().ignore_antialiasing().tolerance;
    assert!(is_antialiased(&c, &img, &(1, 1), &t));
}

#[test]
fn two_neighbors_of_another_hue_flag_the_pixel() {
    let c = rgb(100, 100, 100);
    let other = rgb(101, 101, 101);
    let cyan = rgb(90, 110, 110);
    let img = grid(3, 3, &[c, cyan, other, c, c, other, cyan, other, other]);
    let t = ComparisonOptions::new().ignore_antialiasing().tolerance;
    assert!(is_antialiased(&c, &img, &(1, 1), &t));
}

#[test]
fn fewer_than_two_equal_neighbors_flag_the_pixel() {
    let c = rgb(100, 100, 100);
    let other = rgb(101, 101, 101);
    let img = grid(3, 3, &[c, other, other, other, c, other, other, other, other]);
    let t = ComparisonOptions::new().ignore_antialiasing().tolerance;
    assert!(is_antialiased(&c, &img, &(1, 1), &t));
    let lone = grid(1, 1, &[c]);
    assert!(is_antialiased(&c, &lone, &(0, 0), &t));
}

#[test]
fn corner_scans_only_the_cells_inside() {
    let c = rgb(100, 100, 100);
    let dark = rgb(0, 0, 0);
    // around the corner (0, 0): two equal neighbors and one dark one;
    // the dark pixels further away are out of reach
    let img = grid(3, 3, &[c, c, dark, c, dark, dark, dark, dark, dark]);
    let t = ComparisonOptions::new().ignore_antialiasing().tolerance;
    assert!(!is_antialiased(&c, &img, &(0, 0), &t));
    // around (1, 0) the scan reaches three dark pixels
    assert!(is_antialiased(&c, &img, &(1, 0), &t));
}

#[test]
fn position_outside_the_image_scans_what_is_near() {
    let c = rgb(100, 100, 100);
    let img = grid(2, 2, &[c; 4]);
    let t = ComparisonOptions::new().ignore_antialiasing().tolerance;
    // one column to the right of the image: both pixels of the last column are near
    assert!(!is_antialiased(&c, &img, &(2, 0), &t));
    // far away nothing is near
    assert!(is_antialiased(&c, &img, &(9, 9), &t));
    assert!(is_antialiased(&c, &img, &(u32::MAX, u32::MAX), &t));
}

#[test]
fn mismatch_pixel_is_magenta() {
    assert_eq!(mismatch_pixel(), Rgba8 { r: 255, g: 0, b: 255, a: 255 });
}

#[test]
fn xy_from_index_is_row_major() {
    assert_eq!(xy_from_index(7, 0), (0, 0));
    assert_eq!(xy_from_index(7, 6), (6, 0));
    assert_eq!(xy_from_index(7, 7), (0, 1));
    assert_eq!(xy_from_index(7, 23), (2, 3));
    assert_eq!(xy_from_index(1, 5), (0, 5));
}

#[test]
fn presets_hold_the_table_values() {
    let exact = ComparisonOptions::with_profile(Profile::Exact);
    assert_eq!(
        exact.tolerance,
        Tolerance { alpha: 0, max_brightness: 255, min_brightness: 0, red: 0, green: 0, blue: 0 }
    );
    assert!(!exact.ignore_antialiasing && !exact.ignore_colors);
    let default = ComparisonOptions::with_profile(Profile::Default);
    assert_eq!(
        default.tolerance,
        Tolerance { alpha: 16, max_brightness: 240, min_brightness: 16, red: 16, green: 16, blue: 16 }
    );
    assert!(!default.ignore_antialiasing && !default.ignore_colors);
    let aa = ComparisonOptions::with_profile(Profile::IgnoreAntialiasing);
    assert_eq!(
        aa.tolerance,
        Tolerance { alpha: 32, max_brightness: 96, min_brightness: 64, red: 32, green: 32, blue: 32 }
    );
    assert!(aa.ignore_antialiasing && !aa.ignore_colors);
    let colors = ComparisonOptions::with_profile(Profile::IgnoreColors);
    assert_eq!(colors.tolerance.alpha, 16);
    assert_eq!(colors.tolerance.min_brightness, 16);
    assert_eq!(colors.tolerance.max_brightness, 240);
    assert!(!colors.ignore_antialiasing && colors.ignore_colors);
}

#[test]
fn selectors_replace_earlier_settings() {
    let opt = ComparisonOptions::new();
    assert_eq!(opt, ComparisonOptions::with_profile(Profile::Default));
    assert_eq!(ComparisonOptions::default(), ComparisonOptions::with_profile(Profile::Default));
    assert_eq!(opt.ignore_nothing(), ComparisonOptions::with_profile(Profile::Exact));
    assert_eq!(opt.ignore_less(), ComparisonOptions::with_profile(Profile::Default));
    assert_eq!(
        opt.ignore_antialiasing(),
        ComparisonOptions::with_profile(Profile::IgnoreAntialiasing)
    );
    assert_eq!(opt.ignore_colors(), ComparisonOptions::with_profile(Profile::IgnoreColors));
    assert_eq!(
        opt.ignore_antialiasing().ignore_colors(),
        ComparisonOptions::with_profile(Profile::IgnoreColors)
    );
    assert_eq!(
        opt.ignore_colors().ignore_antialiasing().ignore_nothing(),
        ComparisonOptions::with_profile(Profile::Exact)
    );
}
