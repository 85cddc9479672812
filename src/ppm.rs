use vstd::prelude::*;

verus! {

/// One pixel of a plain-text (P3) portable pixmap: three channel intensities.
#[derive(Clone, Copy, Debug, PartialEq, Eq, Structural)]
pub struct PPMPixel {
    pub r: u32,
    pub g: u32,
    pub b: u32,
}

/// A pixel grid in row-major order, row 0 at the top.
#[derive(Debug)]
pub struct PPMImage {
    pub width: u32,
    pub height: u32,
    pub data: Vec<Vec<PPMPixel>>,
}

pub const ASCII_ZERO: u8 = 48;

pub const ASCII_SPACE: u8 = 32;

pub const ASCII_NEWLINE: u8 = 10;

pub const ASCII_P: u8 = 80;

pub const ASCII_THREE: u8 = 51;

/// The decimal digits of `n`, most significant first, without leading zeros.
pub open spec fn decimal(n: nat) -> Seq<u8>
    decreases n,
{
    if n < 10 {
        seq![(ASCII_ZERO + n) as u8]
    } else {
        decimal(n / 10) + seq![(ASCII_ZERO + n % 10) as u8]
    }
}

/// The text of one pixel: its three channels, each followed by a space.
pub open spec fn pixel_text(p: PPMPixel) -> Seq<u8> {
    decimal(p.r as nat) + seq![ASCII_SPACE] + decimal(p.g as nat) + seq![ASCII_SPACE]
        + decimal(p.b as nat) + seq![ASCII_SPACE]
}

/// The text of the first pixels of a row, in order.
pub open spec fn row_text(row: Seq<PPMPixel>) -> Seq<u8>
    decreases row.len(),
{
    if row.len() == 0 {
        Seq::empty()
    } else {
        row_text(row.drop_last()) + pixel_text(row.last())
    }
}

/// The text of the rows of a grid, each row ended by a newline.
pub open spec fn rows_text(rows: Seq<Seq<PPMPixel>>) -> Seq<u8>
    decreases rows.len(),
{
    if rows.len() == 0 {
        Seq::empty()
    } else {
        rows_text(rows.drop_last()) + row_text(rows.last()) + seq![ASCII_NEWLINE]
    }
}

/// The header: the magic `P3`, the dimensions, and the maximal channel value 255.
pub open spec fn header_text(width: u32, height: u32) -> Seq<u8> {
    seq![ASCII_P, ASCII_THREE, ASCII_NEWLINE] + decimal(width as nat) + seq![ASCII_SPACE]
        + decimal(height as nat) + seq![ASCII_NEWLINE] + decimal(255) + seq![ASCII_NEWLINE]
}

impl PPMImage {
    /// The rows of the grid as sequences of pixels.
    pub open spec fn rows(&self) -> Seq<Seq<PPMPixel>> {
        self.data@.map_values(|row: Vec<PPMPixel>| row@)
    }

    /// The grid has `height` rows of `width` pixels each.
    pub open spec fn well_formed(&self) -> bool {
        &&& self.data@.len() == self.height
        &&& forall|j: int| 0 <= j < self.data@.len() ==> #[trigger] self.data@[j]@.len() == self.width
    }
}

/// The whole file: the header, then every row.
pub open spec fn ppm_text(image: PPMImage) -> Seq<u8> {
    header_text(image.width, image.height) + rows_text(image.rows())
}

/// Appends the decimal digits of `n` to `out`.
pub fn push_decimal(out: &mut Vec<u8>, n: u32)
    ensures
        final(out)@ == old(out)@ + decimal(n as nat),
    decreases n,
{
    if n >= 10 {
        push_decimal(out, n / 10);
    }
    out.push(ASCII_ZERO + (n % 10) as u8);
    proof {
        if n < 10 {
            assert(decimal(n as nat) =~= seq![(ASCII_ZERO + n) as u8]);
        }
    }
    assert(out@ =~= old(out)@ + decimal(n as nat));
}

/// Appends the text of one pixel to `out`.
pub fn push_pixel(out: &mut Vec<u8>, p: &PPMPixel)
    ensures
        final(out)@ == old(out)@ + pixel_text(*p),
{
    push_decimal(out, p.r);
    out.push(ASCII_SPACE);
    push_decimal(out, p.g);
    out.push(ASCII_SPACE);
    push_decimal(out, p.b);
    out.push(ASCII_SPACE);
    assert(out@ =~= old(out)@ + pixel_text(*p));
}

/// Appends the text of one row to `out`, ended by a newline.
pub fn push_row(out: &mut Vec<u8>, row: &Vec<PPMPixel>)
    ensures
        final(out)@ == old(out)@ + row_text(row@) + seq![ASCII_NEWLINE],
{
    let ghost start = out@;
    let mut i: usize = 0;
    while i < row.len()
        invariant
            i <= row@.len(),
            out@ == start + row_text(row@.subrange(0, i as int)),
        decreases row@.len() - i,
    {
        let ghost before = out@;
        push_pixel(out, &row[i]);
        proof {
            let s = row@.subrange(0, i + 1);
            assert(s.drop_last() =~= row@.subrange(0, i as int));
            assert(out@ =~= start + row_text(s));
        }
        i = i + 1;
    }
    assert(row@.subrange(0, row@.len() as int) =~= row@);
    out.push(ASCII_NEWLINE);
}

/// The plain-text pixmap file of `image`: the header, then one line per row,
/// each pixel written as three decimal channels followed by spaces.
pub fn encode_ppm(image: &PPMImage) -> (bytes: Vec<u8>)
    ensures
        bytes@ == ppm_text(*image),
{
    let mut out: Vec<u8> = Vec::new();
    out.push(ASCII_P);
    out.push(ASCII_THREE);
    out.push(ASCII_NEWLINE);
    push_decimal(&mut out, image.width);
    out.push(ASCII_SPACE);
    push_decimal(&mut out, image.height);
    out.push(ASCII_NEWLINE);
    push_decimal(&mut out, 255);
    out.push(ASCII_NEWLINE);
    assert(out@ =~= header_text(image.width, image.height));
    let ghost head = out@;
    let mut j: usize = 0;
    while j < image.data.len()
        invariant
            j <= image.data@.len(),
            out@ == head + rows_text(image.rows().subrange(0, j as int)),
        decreases image.data@.len() - j,
    {
        push_row(&mut out, &image.data[j]);
        proof {
            let s = image.rows().subrange(0, j + 1);
            assert(s.drop_last() =~= image.rows().subrange(0, j as int));
            assert(s.last() == image.data@[j as int]@);
            assert(out@ =~= head + rows_text(s));
        }
        j = j + 1;
    }
    assert(image.rows().subrange(0, image.data@.len() as int) =~= image.rows());
    out
}

} // verus!
