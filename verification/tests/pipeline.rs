use image::imageops::FilterType;
use image::{DynamicImage, GenericImageView, GrayImage, Luma, Pixel, Rgb, RgbImage};
use moon_art::{render, Dimensions, Gamma, Raster, ToneCurve};

fn resample(img: &DynamicImage, width: u32, height: u32) -> Raster {
    let dims = Dimensions::new(width, height).unwrap();
    let resized = img.resize_exact(width, height, FilterType::Triangle);
    let filtered = resized.filter3x3(&[0.0, 0.0, 0.0, -1.0, 0.0, 1.0, 0.0, 0.0, 0.0]);
    let luma = resized.into_luma8();
    let gradient: Vec<u8> = luma
        .enumerate_pixels()
        .map(|(x, y, _)| filtered.get_pixel(x, y).to_luma_alpha().0[0])
        .collect();
    Raster::new(dims, luma.into_raw(), gradient).unwrap()
}

fn rows_of(ramp: [u8; 5], height: u32) -> DynamicImage {
    DynamicImage::ImageLuma8(GrayImage::from_fn(5, height, |x, _| Luma([ramp[x as usize]])))
}

#[test]
fn black_file_image_end_to_end() {
    let img = DynamicImage::ImageLuma8(GrayImage::from_pixel(30, 30, Luma([0])));
    let raster = resample(&img, 30, 30);
    assert_eq!(raster.luma(), &vec![0u8; 900]);
    assert_eq!(raster.gradient(), &vec![0u8; 900]);
    let text = render(&raster, &ToneCurve::exact(&Gamma::unit()).unwrap());
    let lines: Vec<&str> = text.lines().collect();
    assert_eq!(lines.len(), 30);
    assert!(lines.iter().all(|line| *line == "🌑".repeat(30)));
}

#[test]
fn white_file_image_end_to_end() {
    let img = DynamicImage::ImageRgb8(RgbImage::from_pixel(30, 30, Rgb([255, 255, 255])));
    let raster = resample(&img, 30, 30);
    assert_eq!(raster.luma(), &vec![255u8; 900]);
    assert_eq!(raster.gradient(), &vec![0u8; 900]);
    let text = render(&raster, &ToneCurve::exact(&Gamma::unit()).unwrap());
    let lines: Vec<&str> = text.lines().collect();
    assert_eq!(lines.len(), 30);
    assert!(lines.iter().all(|line| *line == "🌕".repeat(30)));
}

#[test]
fn grid_has_the_requested_size_whatever_the_image_shape() {
    let img = DynamicImage::ImageRgb8(RgbImage::from_pixel(60, 20, Rgb([255, 255, 255])));
    for (width, height) in [(30u32, 30u32), (10, 4), (1, 1), (3, 17)] {
        let raster = resample(&img, width, height);
        assert_eq!(raster.dimensions().width(), width);
        assert_eq!(raster.dimensions().height(), height);
        let text = render(&raster, &ToneCurve::linear());
        let lines: Vec<&str> = text.lines().collect();
        assert_eq!(lines.len(), height as usize);
        for line in lines {
            assert_eq!(line, "🌕".repeat(width as usize));
        }
    }
}

#[test]
fn rising_ramp_takes_the_waxing_moons() {
    let raster = resample(&rows_of([0, 50, 100, 150, 200], 3), 5, 3);
    assert_eq!(raster.luma()[5..10], [0, 50, 100, 150, 200]);
    assert_eq!(raster.gradient()[5..10], [0, 100, 100, 100, 0]);
    assert_eq!(raster.gradient()[0..5], [0, 0, 0, 0, 0]);
    let text = render(&raster, &ToneCurve::linear());
    assert_eq!(text, "🌑🌘🌗🌖🌕\n🌑🌒🌓🌔🌕\n🌑🌘🌗🌖🌕");
}

#[test]
fn falling_ramp_takes_the_waning_moons() {
    let raster = resample(&rows_of([200, 150, 100, 50, 0], 3), 5, 3);
    assert_eq!(raster.gradient(), &vec![0u8; 15]);
    let text = render(&raster, &ToneCurve::linear());
    assert_eq!(text, "🌕🌖🌗🌘🌑\n🌕🌖🌗🌘🌑\n🌕🌖🌗🌘🌑");
}

#[test]
fn gamma_other_than_one_goes_through_the_power_law() {
    let gamma = Gamma::from_bits(2.0f32.to_bits()).unwrap();
    assert_eq!(ToneCurve::exact(&gamma), None);
    let mut steps = [0u8; 256];
    for luma in 0..=255u8 {
        let normal = luma as f32 / 255.0;
        steps[luma as usize] = (normal.powf(f32::from_bits(gamma.bits())) * 5.0).round() as u8;
    }
    let raster = resample(&rows_of([0, 100, 150, 200, 255], 1), 5, 1);
    let text = render(&raster, &ToneCurve::from_steps(steps));
    assert_eq!(text, "🌑🌘🌗🌖🌕");
}
