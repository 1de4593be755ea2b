use my_ray_tracer::basics::image::{ImageErr, Img, ImgPixel, PixelErr, Sample};
use std::cmp::Ordering;

fn sample(x: f64) -> Sample {
    Sample { bits: x.to_bits(), scaled: (x * 255.999).round() as u16 }
}

fn text(img: &Img) -> String {
    String::from_utf8(img.produce().unwrap()).unwrap()
}

#[test]
fn zero_width_or_height_is_refused() {
    for n in [0usize, 1, 2, 300, usize::MAX] {
        assert!(matches!(Img::new_from(0, n), Err(ImageErr::InvalidImgParamErr)));
        assert!(matches!(Img::new_from(n, 0), Err(ImageErr::InvalidImgParamErr)));
    }
    let img = Img::new_from(300, 200).unwrap();
    assert_eq!(img.get_w(), 300);
    assert_eq!(img.get_h(), 200);
    assert_eq!(img.count(), 0);
}

#[test]
fn channel_above_one_is_refused_and_nothing_is_appended() {
    let mut img = Img::new_from(2, 2).unwrap();
    img.append(sample(0.25), sample(0.5), sample(0.75)).unwrap();
    let r = img.append(sample(1.5), sample(0.0), sample(0.0));
    assert!(matches!(r, Err(PixelErr::Image(ImageErr::InvalidRgbInputErr))));
    assert_eq!(img.count(), 1);
    let r = img.append(sample(0.0), sample(-0.5), sample(0.0));
    assert!(matches!(r, Err(PixelErr::Image(ImageErr::InvalidRgbInputErr))));
    let r = img.append(sample(0.0), sample(0.0), sample(f64::INFINITY));
    assert!(matches!(r, Err(PixelErr::Image(ImageErr::InvalidRgbInputErr))));
    assert_eq!(img.count(), 1);
    assert_eq!(img.index_of(1, 1).unwrap().get_g(), 0.5f64.to_bits());
}

#[test]
fn channel_that_is_not_a_number_is_refused_and_nothing_is_appended() {
    let mut img = Img::new_from(2, 2).unwrap();
    match img.append(sample(f64::NAN), sample(0.0), sample(0.0)) {
        Err(PixelErr::NaN(e)) => {
            assert_eq!(e.details(), "NaN found when checking ImgPixel::new_from");
            assert_eq!(e.message(), "Err[NaN found when checking ImgPixel::new_from]");
        }
        _ => panic!("the colour was not refused as it should be"),
    }
    assert_eq!(img.count(), 0);
    assert!(matches!(img.append(sample(0.0), sample(0.0), sample(-f64::NAN)), Err(PixelErr::NaN(_))));
    assert_eq!(img.count(), 0);
}

#[test]
fn range_is_looked_at_before_any_channel_is_tested_for_a_number() {
    let r = ImgPixel::new_from(sample(f64::NAN), sample(1.5), sample(0.0));
    assert!(matches!(r, Err(PixelErr::Image(ImageErr::InvalidRgbInputErr))));
    let r = ImgPixel::new_from(sample(0.0), sample(f64::NAN), sample(-1.0));
    assert!(matches!(r, Err(PixelErr::Image(ImageErr::InvalidRgbInputErr))));
}

#[test]
fn bounds_of_the_range_are_accepted() {
    let p = ImgPixel::new_from(sample(0.0), sample(-0.0), sample(1.0)).unwrap();
    assert_eq!(p.get_r(), 0.0f64.to_bits());
    assert_eq!(p.get_g(), (-0.0f64).to_bits());
    assert_eq!(p.get_b(), 1.0f64.to_bits());
    assert_eq!(p.scale_rgb(), (0, 0, 255));
    let just_above = f64::from_bits(1.0f64.to_bits() + 1);
    assert!(ImgPixel::new_from(sample(just_above), sample(0.0), sample(0.0)).is_err());
    let just_below = -f64::from_bits(1);
    assert!(ImgPixel::new_from(sample(just_below), sample(0.0), sample(0.0)).is_err());
    assert!(ImgPixel::new_from(sample(f64::from_bits(1)), sample(0.0), sample(0.0)).is_ok());
}

#[test]
fn validation_agrees_with_the_hardware_comparison() {
    let mut state: u64 = 0x9E37_79B9_7F4A_7C15;
    for _ in 0..20000 {
        state = state.wrapping_mul(6364136223846793005).wrapping_add(1442695040888963407);
        let bits = state ^ (state >> 29);
        let x = f64::from_bits(bits);
        let r = ImgPixel::new_from(sample(x), sample(0.5), sample(0.5));
        if x > 1.0 || x < 0.0 {
            assert!(matches!(r, Err(PixelErr::Image(ImageErr::InvalidRgbInputErr))));
        } else if x.is_nan() {
            assert!(matches!(r, Err(PixelErr::NaN(_))));
        } else {
            assert!(r.is_ok());
        }
    }
}

#[test]
fn levels_follow_the_scaled_channel() {
    let p = ImgPixel::new_from(sample(0.5), sample(0.25), sample(0.999)).unwrap();
    assert_eq!(p.scale_rgb(), (128, 64, 255));
    let p = ImgPixel::new_from(sample(1.0), sample(0.0), sample(0.002)).unwrap();
    assert_eq!(p.scale_rgb(), (255, 0, 1));
    let odd = Sample { bits: 0.5f64.to_bits(), scaled: 300 };
    let p = ImgPixel::new_from(odd, odd, odd).unwrap();
    assert_eq!(p.scale_rgb(), (44, 44, 44));
}

#[test]
fn setters_replace_valid_channels_and_keep_the_rest() {
    let mut p = ImgPixel::new_from(sample(0.1), sample(0.2), sample(0.3)).unwrap();
    p.set_r(sample(0.4)).unwrap();
    p.set_g(sample(0.5)).unwrap();
    p.set_b(sample(0.6)).unwrap();
    assert_eq!((p.get_r(), p.get_g(), p.get_b()), (0.4f64.to_bits(), 0.5f64.to_bits(), 0.6f64.to_bits()));
    p.set(sample(1.0), sample(0.0), sample(0.5)).unwrap();
    assert_eq!(p.scale_rgb(), (255, 0, 128));
}

#[test]
fn setters_refuse_invalid_channels_and_change_nothing() {
    let mut p = ImgPixel::new_from(sample(0.1), sample(0.2), sample(0.3)).unwrap();
    let before = p;
    assert!(matches!(p.set_r(sample(1.5)), Err(PixelErr::Image(ImageErr::InvalidRgbInputErr))));
    assert!(matches!(p.set_g(sample(-1.5)), Err(PixelErr::Image(ImageErr::InvalidRgbInputErr))));
    match p.set_b(sample(f64::NAN)) {
        Err(PixelErr::NaN(e)) => assert_eq!(e.details(), "NaN found when checking ImgPixel::set_b"),
        _ => panic!("the channel was not refused as it should be"),
    }
    match p.set_r(sample(f64::NAN)) {
        Err(PixelErr::NaN(e)) => assert_eq!(e.details(), "NaN found when checking ImgPixel::set_r"),
        _ => panic!("the channel was not refused as it should be"),
    }
    match p.set_g(sample(f64::NAN)) {
        Err(PixelErr::NaN(e)) => assert_eq!(e.details(), "NaN found when checking ImgPixel::set_g"),
        _ => panic!("the channel was not refused as it should be"),
    }
    match p.set(sample(f64::NAN), sample(0.5), sample(0.5)) {
        Err(PixelErr::NaN(e)) => assert_eq!(e.details(), "NaN found when checking ImgPixel::set"),
        _ => panic!("the colour was not refused as it should be"),
    }
    assert!(matches!(
        p.set(sample(0.5), sample(f64::NAN), sample(2.0)),
        Err(PixelErr::Image(ImageErr::InvalidRgbInputErr))
    ));
    assert_eq!(p, before);
}

#[test]
fn set_takes_channels_over_up_to_the_first_that_is_not_a_number() {
    let mut p = ImgPixel::new_from(sample(0.1), sample(0.2), sample(0.3)).unwrap();
    assert!(matches!(p.set(sample(0.5), sample(f64::NAN), sample(0.7)), Err(PixelErr::NaN(_))));
    assert_eq!((p.get_r(), p.get_g(), p.get_b()), (0.5f64.to_bits(), 0.2f64.to_bits(), 0.3f64.to_bits()));
    assert!(matches!(p.set(sample(0.6), sample(0.7), sample(f64::NAN)), Err(PixelErr::NaN(_))));
    assert_eq!((p.get_r(), p.get_g(), p.get_b()), (0.6f64.to_bits(), 0.7f64.to_bits(), 0.3f64.to_bits()));
    assert!(matches!(p.set(sample(f64::NAN), sample(0.0), sample(0.0)), Err(PixelErr::NaN(_))));
    assert_eq!((p.get_r(), p.get_g(), p.get_b()), (0.6f64.to_bits(), 0.7f64.to_bits(), 0.3f64.to_bits()));
    assert_eq!(p.scale_rgb(), (154, 179, 77));
}

#[test]
fn full_white_image_of_two_by_two() {
    let mut img = Img::new_from(2, 2).unwrap();
    for _ in 0..4 {
        img.append(sample(1.0), sample(1.0), sample(1.0)).unwrap();
    }
    assert_eq!(text(&img), "P3\n2 2\n255\n255 255 255\n255 255 255\n255 255 255\n255 255 255\n");
}

#[test]
fn image_text_keeps_the_order_of_arrival() {
    let mut img = Img::new_from(3, 1).unwrap();
    img.append(sample(0.0), sample(0.5), sample(1.0)).unwrap();
    img.append(sample(0.04), sample(0.4), sample(0.8)).unwrap();
    img.append(sample(1.0), sample(0.0), sample(0.0)).unwrap();
    assert_eq!(text(&img), "P3\n3 1\n255\n0 128 255\n10 102 205\n255 0 0\n");
}

#[test]
fn image_text_of_a_wide_image_writes_every_digit() {
    let mut img = Img::new_from(1200, 1).unwrap();
    for _ in 0..1200 {
        img.append(sample(0.0), sample(0.0), sample(0.0)).unwrap();
    }
    let t = text(&img);
    assert!(t.starts_with("P3\n1200 1\n255\n0 0 0\n"));
    assert_eq!(t.lines().count(), 1203);
}

#[test]
fn image_missing_a_pixel_gives_no_text() {
    let mut img = Img::new_from(2, 2).unwrap();
    for _ in 0..3 {
        img.append(sample(1.0), sample(1.0), sample(1.0)).unwrap();
    }
    assert!(matches!(img.check(), Err(ImageErr::InvalidPixelsErr)));
    assert!(matches!(img.produce(), Err(ImageErr::InvalidPixelsErr)));
    img.append(sample(1.0), sample(1.0), sample(1.0)).unwrap();
    assert!(img.check().is_ok());
    img.append(sample(1.0), sample(1.0), sample(1.0)).unwrap();
    assert!(matches!(img.produce(), Err(ImageErr::InvalidPixelsErr)));
}

#[test]
fn pixels_are_found_by_row_and_column() {
    let mut img = Img::new_from(3, 2).unwrap();
    for i in 0..5u16 {
        let s = Sample { bits: (f64::from(i) / 8.0).to_bits(), scaled: i };
        img.append(s, s, s).unwrap();
    }
    assert_eq!(img.index_of(1, 1).unwrap().scale_rgb(), (0, 0, 0));
    assert_eq!(img.index_of(1, 3).unwrap().scale_rgb(), (2, 2, 2));
    assert_eq!(img.index_of(2, 1).unwrap().scale_rgb(), (3, 3, 3));
    assert_eq!(img.index_of(2, 2).unwrap().scale_rgb(), (4, 4, 4));
    assert!(matches!(img.index_of(2, 3), Err(ImageErr::InvalidPixelIdxErr)));
    assert!(matches!(img.index_of(0, 1), Err(ImageErr::InvalidPixelIdxErr)));
    assert!(matches!(img.index_of(1, 0), Err(ImageErr::InvalidPixelIdxErr)));
    assert!(matches!(img.index_of(3, 1), Err(ImageErr::InvalidPixelIdxErr)));
    assert!(matches!(img.index_of(usize::MAX, usize::MAX), Err(ImageErr::InvalidPixelIdxErr)));
    assert!(matches!(img.index_of(2, usize::MAX), Err(ImageErr::InvalidPixelIdxErr)));
}

#[test]
fn filling_is_compared_with_the_grid() {
    let mut img = Img::new_from(2, 2).unwrap();
    assert_eq!(img.last(), (1, 0, Ordering::Less));
    for _ in 0..3 {
        img.append(sample(0.5), sample(0.5), sample(0.5)).unwrap();
    }
    assert_eq!(img.last(), (2, 1, Ordering::Less));
    img.append(sample(0.5), sample(0.5), sample(0.5)).unwrap();
    assert_eq!(img.last(), (3, 0, Ordering::Equal));
    img.append(sample(0.5), sample(0.5), sample(0.5)).unwrap();
    assert_eq!(img.last(), (3, 1, Ordering::Greater));
    let huge = Img::new_from(usize::MAX, usize::MAX).unwrap();
    assert_eq!(huge.last(), (1, 0, Ordering::Less));
    assert!(matches!(huge.produce(), Err(ImageErr::InvalidPixelsErr)));
}

#[test]
fn walk_hands_out_the_pixels_in_their_order() {
    let mut img = Img::new_from(2, 2).unwrap();
    img.append(sample(0.0), sample(0.0), sample(0.0)).unwrap();
    img.append(sample(0.5), sample(0.5), sample(0.5)).unwrap();
    img.append(sample(1.0), sample(1.0), sample(1.0)).unwrap();
    let mut walk = img.iter();
    assert_eq!(walk.next().unwrap().scale_rgb(), (0, 0, 0));
    assert_eq!(walk.next().unwrap().scale_rgb(), (128, 128, 128));
    assert_eq!(walk.next().unwrap().scale_rgb(), (255, 255, 255));
    assert!(walk.next().is_none());
    assert!(walk.next().is_none());
    assert_eq!(img.count(), 3);
    assert!(Img::new_from(1, 1).unwrap().iter().next().is_none());
}

#[test]
fn pixels_are_equal_as_numbers() {
    let a = ImgPixel::new_from(sample(0.0), sample(0.5), sample(1.0)).unwrap();
    let b = ImgPixel::new_from(sample(-0.0), sample(0.5), sample(1.0)).unwrap();
    let c = ImgPixel::new_from(sample(0.0), sample(0.5), sample(0.75)).unwrap();
    assert!(a == b);
    assert!(a != c);
}
