use image::{DynamicImage, Rgb, RgbImage};
use rknpu2::implementation::to_layout;
use rknpu2::markers::{Layout, I8, NCHW, NHWC};

// Build a tiny RGB with distinctive channels:
// base(x,y) = 10*x + y
// R = base
// G = 100 + base
// B = 200 + base
fn make_distinct_rgb(w: u32, h: u32) -> DynamicImage {
    let mut img = RgbImage::new(w, h);
    for y in 0..h {
        for x in 0..w {
            let base = (10 * x + y) as u8;
            img.put_pixel(x, y, Rgb([base, 100 + base, 200 + base]));
        }
    }
    DynamicImage::ImageRgb8(img)
}

// the channel values of an image as 32-bit floats, pixel by pixel
fn float_values(img: &DynamicImage) -> (usize, usize, Vec<u32>) {
    let rgb = img.to_rgb8();
    let (w, h) = rgb.dimensions();
    let values = rgb.as_raw().iter().map(|&v| (v as f32).to_bits()).collect();
    (w as usize, h as usize, values)
}

#[test]
fn nhwc_flatten_2x2_nonorm_f32() {
    let img = make_distinct_rgb(2, 2);
    let (w, h, values) = float_values(&img);
    let v: Vec<f32> = to_layout::<NHWC, u32>(w, h, &values)
        .into_iter()
        .map(f32::from_bits)
        .collect();

    // NHWC order: (0,0),(1,0),(0,1),(1,1) with channels R,G,B
    let mut exp = Vec::<f32>::new();
    for (x, y) in [(0, 0), (1, 0), (0, 1), (1, 1)] {
        let base = (10 * x + y) as f32;
        exp.extend_from_slice(&[base, 100.0 + base, 200.0 + base]);
    }

    assert_eq!(v, exp, "NHWC flatten mismatch");
}

#[test]
fn nchw_flatten_2x2_nonorm_f32() {
    let img = make_distinct_rgb(2, 2);
    let (w, h, values) = float_values(&img);
    let v: Vec<f32> = to_layout::<NCHW, u32>(w, h, &values)
        .into_iter()
        .map(f32::from_bits)
        .collect();

    // NCHW: channel planes
    let mut exp = Vec::<f32>::new();

    // R plane
    for (y, x) in [(0, 0), (0, 1), (1, 0), (1, 1)] {
        exp.push((10 * x + y) as f32);
    }
    // G plane
    for (y, x) in [(0, 0), (0, 1), (1, 0), (1, 1)] {
        exp.push(100.0 + (10 * x + y) as f32);
    }
    // B plane
    for (y, x) in [(0, 0), (0, 1), (1, 0), (1, 1)] {
        exp.push(200.0 + (10 * x + y) as f32);
    }

    assert_eq!(v, exp, "NCHW flatten mismatch");
}

#[test]
fn layout_indices() {
    assert_eq!(<NHWC as Layout>::CHANNELS, 3);
    assert_eq!(<NCHW as Layout>::CHANNELS, 3);
    // NHWC: (y * w + x) * 3 + c
    assert_eq!(NHWC::index(4, 3, 0, 0, 0), 0);
    assert_eq!(NHWC::index(4, 3, 1, 0, 2), 5);
    assert_eq!(NHWC::index(4, 3, 3, 2, 2), 35);
    assert_eq!(NHWC::index(224, 224, 17, 5, 1), (5 * 224 + 17) * 3 + 1);
    // NCHW: c * (w * h) + y * w + x
    assert_eq!(NCHW::index(4, 3, 0, 0, 0), 0);
    assert_eq!(NCHW::index(4, 3, 1, 0, 2), 25);
    assert_eq!(NCHW::index(4, 3, 3, 2, 2), 35);
    assert_eq!(NCHW::index(224, 224, 17, 5, 1), 224 * 224 + 5 * 224 + 17);
}

#[test]
fn layout_indices_fill_the_buffer_without_collision() {
    let (w, h) = (5usize, 4usize);
    let mut nhwc = vec![false; w * h * 3];
    let mut nchw = vec![false; w * h * 3];
    for y in 0..h {
        for x in 0..w {
            for c in 0..3 {
                let i = NHWC::index(w, h, x, y, c);
                assert!(!nhwc[i]);
                nhwc[i] = true;
                let i = NCHW::index(w, h, x, y, c);
                assert!(!nchw[i]);
                nchw[i] = true;
            }
        }
    }
    assert!(nhwc.iter().all(|&b| b));
    assert!(nchw.iter().all(|&b| b));
}

#[test]
fn to_layout_of_a_wider_image() {
    let (w, h) = (3usize, 2usize);
    let values: Vec<u8> = (0..(w * h * 3) as u8).collect();
    assert_eq!(to_layout::<NHWC, u8>(w, h, &values), values);
    assert_eq!(
        to_layout::<NCHW, u8>(w, h, &values),
        [0, 3, 6, 9, 12, 15, 1, 4, 7, 10, 13, 16, 2, 5, 8, 11, 14, 17]
    );
}

#[test]
fn to_layout_of_an_empty_image() {
    let values: Vec<i8> = Vec::new();
    assert_eq!(to_layout::<NCHW, i8>(0, 0, &values), values);
    assert_eq!(to_layout::<NHWC, i8>(0, 7, &values), values);
    assert_eq!(to_layout::<NCHW, i8>(7, 0, &values), values);
}

#[test]
fn quantize_adds_the_zero_point_and_cuts_to_range() {
    assert_eq!(I8::quantize(0, 0), 0);
    assert_eq!(I8::quantize(10, -14), -4);
    assert_eq!(I8::quantize(100, 27), 127);
    assert_eq!(I8::quantize(100, 28), 127);
    assert_eq!(I8::quantize(-100, -28), -128);
    assert_eq!(I8::quantize(-100, -29), -128);
    assert_eq!(I8::quantize(i32::MAX, i32::MAX), 127);
    assert_eq!(I8::quantize(i32::MIN, i32::MIN), -128);
    assert_eq!(I8::quantize(i32::MAX, i32::MIN), -1);
    // the quantization of a MobileNet input: scale 0.018658448, zero point -14
    let rounded = (1.0f32 / 0.018658448f32).round() as i32;
    assert_eq!(rounded, 54);
    assert_eq!(I8::quantize(rounded, -14), 40);
}
