use vstd::prelude::*;

use crate::ppm::PPMImage;
use crate::ppm::PPMPixel;

verus! {

/// A color whose channels are fixed-point fractions of `CHANNEL_ONE`:
/// `CHANNEL_ONE` is full intensity, 0 is none.
#[derive(Clone, Copy, Debug, PartialEq, Eq, Structural)]
pub struct Color {
    pub r: u32,
    pub g: u32,
    pub b: u32,
}

/// The fixed-point value that stands for full intensity (1.0) of a channel.
pub const CHANNEL_ONE: u32 = 16777216;

/// The quantization factor 255.999, in thousandths.
pub const QUANT_FACTOR_MILLI: u64 = 255999;

/// `1000 * CHANNEL_ONE`: the denominator that turns thousandths of a
/// fixed-point channel back into whole intensities.
pub const QUANT_DENOM: u64 = 16777216000;

/// `floor(255.999 * c)` for the channel value `c = n / CHANNEL_ONE`.
pub open spec fn quantize_spec(n: u32) -> int {
    (QUANT_FACTOR_MILLI * n) as int / QUANT_DENOM as int
}

/// Quantizes one fixed-point channel to an 8-bit intensity.
pub fn quantize_channel(n: u32) -> (q: u32)
    ensures
        q as int == quantize_spec(n),
        n <= CHANNEL_ONE ==> q <= 255,
        n == CHANNEL_ONE ==> q == 255,
        n == 0 ==> q == 0,
{
    let wide: u64 = QUANT_FACTOR_MILLI * (n as u64);
    assert(wide / QUANT_DENOM <= 65535) by (nonlinear_arith)
        requires wide == QUANT_FACTOR_MILLI * (n as u64), n <= u32::MAX;
    if n <= CHANNEL_ONE {
        assert(wide / QUANT_DENOM <= 255) by (nonlinear_arith)
            requires wide == QUANT_FACTOR_MILLI * (n as u64), n <= CHANNEL_ONE;
    }
    (wide / QUANT_DENOM) as u32
}

/// The pixel that a color quantizes to, channel by channel.
pub open spec fn pixel_of(c: Color) -> PPMPixel {
    PPMPixel {
        r: quantize_spec(c.r) as u32,
        g: quantize_spec(c.g) as u32,
        b: quantize_spec(c.b) as u32,
    }
}

/// A color with every channel at most full intensity.
pub open spec fn in_unit_range(c: Color) -> bool {
    c.r <= CHANNEL_ONE && c.g <= CHANNEL_ONE && c.b <= CHANNEL_ONE
}

/// Quantizes each channel of `color` to an 8-bit intensity.
pub fn write_color(color: Color) -> (p: PPMPixel)
    ensures
        p == pixel_of(color),
        in_unit_range(color) ==> p.r <= 255 && p.g <= 255 && p.b <= 255,
{
    PPMPixel { r: quantize_channel(color.r), g: quantize_channel(color.g), b: quantize_channel(color.b) }
}

/// The image of `width` by `height` pixels whose pixel in row `j`, column `i`
/// is the quantized `colors[j * width + i]`.
pub fn assemble_frame(width: u32, height: u32, colors: &Vec<Color>) -> (image: PPMImage)
    requires
        colors@.len() == width * height,
    ensures
        image.width == width,
        image.height == height,
        image.well_formed(),
        forall|j: int, i: int|
            0 <= j < height && 0 <= i < width ==> #[trigger] image.data@[j]@[i] == pixel_of(
                colors@[j * width + i],
            ),
{
    let n: usize = colors.len();
    let mut data: Vec<Vec<PPMPixel>> = Vec::new();
    let mut j: u32 = 0;
    while j < height
        invariant
            j <= height,
            colors@.len() == width * height,
            n == colors@.len(),
            data@.len() == j,
            forall|jj: int| 0 <= jj < j ==> (#[trigger] data@[jj])@.len() == width,
            forall|jj: int, i: int|
                0 <= jj < j && 0 <= i < width ==> #[trigger] data@[jj]@[i] == pixel_of(
                    colors@[jj * width + i],
                ),
        decreases height - j,
    {
        let mut row: Vec<PPMPixel> = Vec::new();
        let mut i: u32 = 0;
        while i < width
            invariant
                i <= width,
                j < height,
                colors@.len() == width * height,
                n == colors@.len(),
                row@.len() == i,
                forall|k: int| 0 <= k < i ==> #[trigger] row@[k] == pixel_of(colors@[j * width + k]),
            decreases width - i,
        {
            proof {
                assert(j * width + i < width * height) by (nonlinear_arith)
                    requires j < height, i < width;
                assert(0 <= j * width) by (nonlinear_arith);
            }
            let idx: usize = (j as usize) * (width as usize) + (i as usize);
            row.push(write_color(colors[idx]));
            i = i + 1;
        }
        data.push(row);
        j = j + 1;
    }
    PPMImage { width, height, data }
}

} // verus!
