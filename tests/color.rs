use raytracer::color::assemble_frame;
use raytracer::color::quantize_channel;
use raytracer::color::write_color;
use raytracer::color::Color;
use raytracer::color::CHANNEL_ONE;
use raytracer::ppm::PPMPixel;

#[test]
fn full_intensity_quantizes_to_255() {
    assert_eq!(quantize_channel(CHANNEL_ONE), 255);
}

#[test]
fn zero_intensity_quantizes_to_0() {
    assert_eq!(quantize_channel(0), 0);
}

#[test]
fn half_intensity_quantizes_to_127() {
    assert_eq!(quantize_channel(CHANNEL_ONE / 2), 127);
}

#[test]
fn no_channel_in_range_reaches_256() {
    let mut n: u32 = 0;
    while n <= CHANNEL_ONE {
        assert!(quantize_channel(n) <= 255);
        n += 4099;
    }
    assert!(quantize_channel(CHANNEL_ONE - 1) <= 255);
}

#[test]
fn channels_above_full_intensity_quantize_past_255() {
    assert_eq!(quantize_channel(CHANNEL_ONE + CHANNEL_ONE / 100), 258);
    assert_eq!(quantize_channel(u32::MAX), 65535);
}

#[test]
fn quantization_boundary_uses_255_999() {
    // 255.999 * 0.0039 = 0.998..., 255.999 * 0.00391 = 1.0009...
    assert_eq!(quantize_channel(65430), 0);
    assert_eq!(quantize_channel(65600), 1);
}

#[test]
fn write_color_quantizes_each_channel() {
    let c = Color { r: CHANNEL_ONE, g: 0, b: CHANNEL_ONE / 2 };
    assert_eq!(write_color(c), PPMPixel { r: 255, g: 0, b: 127 });
}

#[test]
fn assemble_frame_is_row_major() {
    let one = CHANNEL_ONE;
    let colors = vec![
        Color { r: one, g: 0, b: 0 },
        Color { r: 0, g: one, b: 0 },
        Color { r: 0, g: 0, b: one },
        Color { r: one / 2, g: one / 2, b: one },
        Color { r: 0, g: 0, b: 0 },
        Color { r: one, g: one, b: one },
    ];
    let img = assemble_frame(3, 2, &colors);
    assert_eq!(img.width, 3);
    assert_eq!(img.height, 2);
    assert_eq!(img.data.len(), 2);
    assert_eq!(
        img.data[0],
        vec![
            PPMPixel { r: 255, g: 0, b: 0 },
            PPMPixel { r: 0, g: 255, b: 0 },
            PPMPixel { r: 0, g: 0, b: 255 }
        ]
    );
    assert_eq!(
        img.data[1],
        vec![
            PPMPixel { r: 127, g: 127, b: 255 },
            PPMPixel { r: 0, g: 0, b: 0 },
            PPMPixel { r: 255, g: 255, b: 255 }
        ]
    );
}

#[test]
fn assemble_frame_of_no_pixels() {
    let img = assemble_frame(0, 0, &vec![]);
    assert!(img.data.is_empty());
    let img = assemble_frame(4, 0, &vec![]);
    assert!(img.data.is_empty());
    let img = assemble_frame(0, 2, &vec![]);
    assert_eq!(img.data, vec![vec![], vec![]]);
}
