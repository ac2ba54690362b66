//! The rendered picture: eight-bit pixels in raster order, and their plain
//! text form.
//!
//! The text form is the plain portable pixmap: the line that names the
//! format, a line with the width and the height, the line `255`, then one
//! line of three numbers for each pixel, the top row first and each row from
//! left to right. All numbers are decimal without leading zeros.

use vstd::prelude::*;

verus! {

/// The byte of the digit zero.
pub const DIGIT_ZERO: u8 = 48;

/// The byte of a space.
pub const SPACE: u8 = 32;

/// The byte that ends a line.
pub const NEWLINE: u8 = 10;

/// A pixel: red, green and blue, each from 0 to 255.
#[derive(Clone, Copy, Debug, PartialEq, Eq, Structural)]
pub struct Pixel {
    pub r: u8,
    pub g: u8,
    pub b: u8,
}

/// A picture of `width` by `height` pixels. `pixels` holds the rows one
/// after the other, the top row first.
#[derive(Debug)]
pub struct Image {
    pub width: usize,
    pub height: usize,
    pub pixels: Vec<Pixel>,
}

/// A channel level brought into the range of a byte.
pub open spec fn clamped(level: i64) -> u8 {
    if level < 0 {
        0
    } else if level > 255 {
        255
    } else {
        level as u8
    }
}

/// The decimal digits of `n`, as bytes.
pub open spec fn decimal(n: nat) -> Seq<u8>
    decreases n,
{
    if n < 10 {
        seq![(DIGIT_ZERO + n) as u8]
    } else {
        decimal(n / 10).push((DIGIT_ZERO + n % 10) as u8)
    }
}

/// The number that a row of digit bytes writes.
pub open spec fn decimal_value(digits: Seq<u8>) -> nat
    decreases digits.len(),
{
    if digits.len() == 0 {
        0
    } else {
        (decimal_value(digits.drop_last()) * 10 + (digits.last() - DIGIT_ZERO)) as nat
    }
}

/// The three lines before the pixels.
pub open spec fn header(width: nat, height: nat) -> Seq<u8> {
    seq![80u8, 51u8, NEWLINE] + decimal(width) + seq![SPACE] + decimal(height) + seq![
        NEWLINE,
        50u8,
        53u8,
        53u8,
        NEWLINE,
    ]
}

/// The line of one pixel.
pub open spec fn line(pixel: Pixel) -> Seq<u8> {
    decimal(pixel.r as nat) + seq![SPACE] + decimal(pixel.g as nat) + seq![SPACE] + decimal(
        pixel.b as nat,
    ) + seq![NEWLINE]
}

/// The lines of a row of pixels, in their order.
pub open spec fn lines(pixels: Seq<Pixel>) -> Seq<u8>
    decreases pixels.len(),
{
    if pixels.len() == 0 {
        Seq::empty()
    } else {
        lines(pixels.drop_last()) + line(pixels.last())
    }
}

/// The digits of `n` are digits, there is at least one, they write `n`, and
/// they start with a zero only for zero itself.
pub proof fn lemma_decimal(n: nat)
    ensures
        decimal(n).len() >= 1,
        forall|i: int| 0 <= i < decimal(n).len() ==> DIGIT_ZERO <= #[trigger] decimal(n)[i] <= DIGIT_ZERO + 9,
        decimal_value(decimal(n)) == n,
        decimal(n)[0] == DIGIT_ZERO ==> n == 0,
    decreases n,
{
    if n < 10 {
        assert(decimal(n).drop_last() =~= Seq::empty());
        assert(decimal_value(decimal(n).drop_last()) == 0);
    } else {
        lemma_decimal(n / 10);
        assert(decimal(n).drop_last() =~= decimal(n / 10));
        assert(decimal(n).last() == DIGIT_ZERO + n % 10);
        assert(decimal(n)[0] == decimal(n / 10)[0]);
    }
}

/// A channel level as a byte: what is below 0 becomes 0, what is above 255
/// becomes 255.
pub fn quantize(level: i64) -> (r: u8)
    ensures
        r == clamped(level),
{
    if level < 0 {
        0
    } else if level > 255 {
        255
    } else {
        level as u8
    }
}

/// The row of the viewport that a row of pixels shows. Pixel rows are
/// counted from the top and viewport rows from the bottom, so the top row of
/// pixels shows the highest viewport row.
pub fn viewport_row(height: usize, row: usize) -> (r: usize)
    requires
        row < height,
    ensures
        r == height - 1 - row,
{
    height - 1 - row
}

/// Appends the decimal digits of `n`.
fn push_decimal(out: &mut Vec<u8>, n: u64)
    ensures
        final(out)@ == old(out)@ + decimal(n as nat),
    decreases n,
{
    if n >= 10 {
        push_decimal(out, n / 10);
    }
    out.push(DIGIT_ZERO + (n % 10) as u8);
}

/// Appends the line of one pixel.
fn push_line(out: &mut Vec<u8>, pixel: Pixel)
    ensures
        final(out)@ == old(out)@ + line(pixel),
{
    push_decimal(out, pixel.r as u64);
    out.push(SPACE);
    push_decimal(out, pixel.g as u64);
    out.push(SPACE);
    push_decimal(out, pixel.b as u64);
    out.push(NEWLINE);
}

impl Pixel {
    /// The pixel of three channel levels, each brought into range.
    pub fn from_levels(r: i64, g: i64, b: i64) -> (pixel: Pixel)
        ensures
            pixel == (Pixel { r: clamped(r), g: clamped(g), b: clamped(b) }),
    {
        Pixel { r: quantize(r), g: quantize(g), b: quantize(b) }
    }
}

impl Image {
    /// There is one pixel for each place.
    pub open spec fn wf(&self) -> bool {
        self.pixels@.len() == self.width * self.height
    }

    /// The text form of the picture.
    pub open spec fn ppm(&self) -> Seq<u8> {
        header(self.width as nat, self.height as nat) + lines(self.pixels@)
    }

    /// The picture of the given size and pixels, if there are as many pixels
    /// as the size asks for.
    pub fn new(width: usize, height: usize, pixels: Vec<Pixel>) -> (r: Option<Image>)
        ensures
            r is Some <==> pixels@.len() == width * height,
            r matches Some(image) ==> image.wf() && image.width == width && image.height == height
                && image.pixels@ == pixels@,
    {
        assert(width * height <= u128::MAX) by (nonlinear_arith)
            requires
                width <= u64::MAX,
                height <= u64::MAX,
        ;
        let area: u128 = (width as u128) * (height as u128);
        if area == pixels.len() as u128 {
            Some(Image { width, height, pixels })
        } else {
            None
        }
    }

    /// The pixel in row `row`, counted from the top, and column `column`,
    /// counted from the left.
    pub fn get(&self, row: usize, column: usize) -> (r: Pixel)
        requires
            self.wf(),
            row < self.height,
            column < self.width,
        ensures
            r == self.pixels@[row * self.width + column],
    {
        // The pixels fit a vector, so every index below their number fits.
        let count: usize = self.pixels.len();
        assert(count == self.width * self.height);
        assert(0 <= row * self.width && row * self.width + column < self.width * self.height)
            by (nonlinear_arith)
            requires
                row < self.height,
                column < self.width,
        ;
        self.pixels[row * self.width + column]
    }

    /// Writes the picture out as text.
    pub fn encode(&self) -> (out: Vec<u8>)
        ensures
            out@ == self.ppm(),
    {
        let mut out: Vec<u8> = Vec::new();
        out.push(80u8);
        out.push(51u8);
        out.push(NEWLINE);
        push_decimal(&mut out, self.width as u64);
        out.push(SPACE);
        push_decimal(&mut out, self.height as u64);
        out.push(NEWLINE);
        out.push(50u8);
        out.push(53u8);
        out.push(53u8);
        out.push(NEWLINE);
        assert(out@ =~= header(self.width as nat, self.height as nat));
        let mut i: usize = 0;
        while i < self.pixels.len()
            invariant
                i <= self.pixels@.len(),
                out@ == header(self.width as nat, self.height as nat) + lines(self.pixels@.take(i as int)),
            decreases self.pixels@.len() - i,
        {
            push_line(&mut out, self.pixels[i]);
            proof {
                let done = self.pixels@.take(i as int);
                let next = self.pixels@.take(i + 1);
                assert(next.drop_last() =~= done);
                assert(next.last() == self.pixels@[i as int]);
                assert(lines(next) == lines(done) + line(self.pixels@[i as int]));
            }
            i += 1;
        }
        assert(self.pixels@.take(i as int) =~= self.pixels@);
        out
    }
}

} // verus!
