//! Monochrome image packing.
//!
//! A grayscale raster is packed into the printer's bitmap format: the
//! width is padded up to the next multiple of 8, each output byte holds
//! 8 horizontal pixels (most-significant bit leftmost), and a sample
//! value of at most 128 packs as a set (printed) bit. Padding pixels
//! beyond the original width are never set.

use vstd::prelude::*;
use crate::Error;

verus! {

/// A rectangular grid of 8-bit grayscale samples, row-major.
pub struct Raster {
    /// Width in pixels.
    pub width: u32,
    /// Height in pixels.
    pub height: u32,
    /// Row-major samples; one byte per pixel.
    pub samples: Vec<u8>,
}

impl Raster {
    /// A raster is well formed when it holds exactly one sample per pixel.
    pub open spec fn wf(&self) -> bool {
        self.samples@.len() == self.width * self.height
    }

    /// Build a raster from its dimensions and row-major samples; refused
    /// when the sample count does not match the dimensions.
    pub fn new(width: u32, height: u32, samples: Vec<u8>) -> (r: Option<Raster>)
        ensures
            match r {
                Some(img) => {
                    &&& img.width == width
                    &&& img.height == height
                    &&& img.samples@ == samples@
                    &&& img.wf()
                },
                None => samples@.len() != width * height,
            },
    {
        proof {
            assert(width * height <= u32::MAX * u32::MAX) by (nonlinear_arith)
                requires
                    width <= u32::MAX,
                    height <= u32::MAX,
            ;
        }
        let len: u64 = (width as u64) * (height as u64);
        if samples.len() as u64 != len {
            return None;
        }
        Some(Raster { width, height, samples })
    }
}

/// Width in bytes of a packed row: the pixel width rounded up to the
/// next multiple of 8, divided by 8.
pub open spec fn width_bytes(w: nat) -> nat {
    (w + 7) / 8
}

/// Pixel width after padding up to the next multiple of 8.
pub open spec fn padded_width(w: nat) -> nat {
    8 * width_bytes(w)
}

/// Whether the pixel at `(x, y)` packs as a set (printed) bit: it lies
/// inside the raster and its sample is at most 128. Padding pixels past
/// the raster bound are never set.
pub open spec fn pixel_black(img: Raster, x: int, y: int) -> bool {
    &&& 0 <= x < img.width
    &&& 0 <= y < img.height
    &&& img.samples@[y * img.width + x] <= 128
}

/// The single-bit mask of bit position `b` within a packed byte;
/// position 0 is the most significant bit (the leftmost pixel).
pub open spec fn bit_mask(b: u8) -> u8 {
    128u8 >> b
}

/// The low `nbits` pixels of byte `xb` of row `y`, packed.
pub open spec fn block_partial(img: Raster, y: int, xb: int, nbits: int) -> u8
    decreases nbits,
{
    if nbits <= 0 {
        0u8
    } else {
        block_partial(img, y, xb, nbits - 1) | (if pixel_black(img, 8 * xb + (nbits - 1), y) {
            bit_mask((nbits - 1) as u8)
        } else {
            0u8
        })
    }
}

/// Byte `xb` of row `y` of the packed bitmap.
pub open spec fn block_of(img: Raster, y: int, xb: int) -> u8 {
    block_partial(img, y, xb, 8)
}

/// The whole packed bitmap: rows in order, each row `width_bytes` bytes.
pub open spec fn packed_bitmap(img: Raster) -> Seq<u8> {
    Seq::new(
        (img.height * width_bytes(img.width as nat)) as nat,
        |i: int|
            block_of(
                img,
                i / width_bytes(img.width as nat) as int,
                i % width_bytes(img.width as nat) as int,
            ),
    )
}

/// Reading one pixel back out of a packed bitmap with `wbytes` bytes
/// per row: the bit for pixel `(x, y)`.
pub open spec fn packed_bit(pixels: Seq<u8>, wbytes: nat, x: int, y: int) -> bool {
    pixels[y * wbytes + x / 8] & bit_mask((x % 8) as u8) != 0
}

/// The device's packed monochrome bitmap: each byte holds 8 horizontal
/// pixels, one bit each.
pub struct ImageBuffer {
    /// Width of a row in bytes.
    pub width: u16,
    /// Height in pixel rows.
    pub height: u16,
    /// Packed rows, top to bottom.
    pub pixels: Vec<u8>,
}

impl ImageBuffer {
    /// Pack a grayscale raster into the printer's monochrome bitmap.
    ///
    /// Fails with a size-limit error, producing no buffer, exactly when
    /// the packed width in bytes or the height exceeds the 16-bit range.
    pub fn pack(img: &Raster) -> (r: Result<ImageBuffer, Error>)
        requires
            img.wf(),
        ensures
            match r {
                Ok(b) => {
                    &&& width_bytes(img.width as nat) <= u16::MAX
                    &&& img.height <= u16::MAX
                    &&& b.width == width_bytes(img.width as nat)
                    &&& b.height == img.height
                    &&& b.pixels@ == packed_bitmap(*img)
                },
                Err(e) => {
                    &&& e == Error::ImageTooLarge
                    &&& (width_bytes(img.width as nat) > u16::MAX || img.height > u16::MAX)
                },
            },
    {
        let wb64: u64 = (img.width as u64 + 7) / 8;
        if wb64 > 65535 || img.height > 65535 {
            return Err(Error::ImageTooLarge);
        }
        let wb: usize = wb64 as usize;
        let height: usize = img.height as usize;
        let width: usize = img.width as usize;
        let nsamples: usize = img.samples.len();
        let mut pixels: Vec<u8> = Vec::new();
        let mut y: usize = 0;
        while y < height
            invariant
                img.wf(),
                wb == width_bytes(img.width as nat),
                height == img.height,
                width == img.width,
                nsamples == img.samples@.len(),
                wb <= 65535,
                y <= height,
                pixels@.len() == y * wb,
                forall|i: int|
                    0 <= i < y * wb ==> pixels@[i] == block_of(*img, i / (wb as int), i % (wb as int)),
            decreases height - y,
        {
            let mut xb: usize = 0;
            while xb < wb
                invariant
                    img.wf(),
                    wb == width_bytes(img.width as nat),
                    height == img.height,
                    width == img.width,
                    nsamples == img.samples@.len(),
                    wb <= 65535,
                    y < height,
                    xb <= wb,
                    pixels@.len() == y * wb + xb,
                    forall|i: int|
                        0 <= i < y * wb + xb ==> pixels@[i] == block_of(*img, i / (wb as int), i % (wb as int)),
                decreases wb - xb,
            {
                let mut block: u8 = 0;
                let mut bit: usize = 0;
                while bit < 8
                    invariant
                        img.wf(),
                        height == img.height,
                        width == img.width,
                        nsamples == img.samples@.len(),
                        y < height,
                        xb < wb,
                        wb <= 65535,
                        bit <= 8,
                        block == block_partial(*img, y as int, xb as int, bit as int),
                    decreases 8 - bit,
                {
                    let x: usize = xb * 8 + bit;
                    if x < width {
                        proof {
                            assert(y * width + x < img.width * img.height)
                                by (nonlinear_arith)
                                requires
                                    0 <= y < img.height,
                                    0 <= x < img.width,
                                    width == img.width,
                            ;
                        }
                        let idx: usize = y * width + x;
                        if img.samples[idx] <= 128 {
                            block = block | (128u8 >> (bit as u8));
                        } else {
                            proof {
                                lemma_or_zero(block);
                            }
                        }
                    } else {
                        proof {
                            lemma_or_zero(block);
                        }
                    }
                    bit = bit + 1;
                }
                pixels.push(block);
                proof {
                    lemma_div_mod_decompose(y as int, xb as int, wb as int);
                }
                xb = xb + 1;
            }
            proof {
                assert((y + 1) * wb == y * wb + wb) by (nonlinear_arith);
            }
            y = y + 1;
        }
        proof {
            assert(pixels@ =~= packed_bitmap(*img));
        }
        Ok(ImageBuffer { width: wb as u16, height: img.height as u16, pixels })
    }
}

/// Padding a width rounds it up to the nearest multiple of 8, and packing
/// is idempotent in the dimensions: a raster whose width is already padded
/// packs to the same width in bytes, and padding again changes nothing.
pub proof fn lemma_padded_width(w: nat)
    ensures
        padded_width(w) % 8 == 0,
        w <= padded_width(w) < w + 8,
        width_bytes(padded_width(w)) == width_bytes(w),
        padded_width(padded_width(w)) == padded_width(w),
{
    let q = ((w + 7) / 8) as int;
    vstd::arithmetic::div_mod::lemma_fundamental_div_mod((w + 7) as int, 8);
    assert(0 <= (w + 7) as int % 8 < 8) by (nonlinear_arith);
    assert((8 * q) % 8 == 0) by (nonlinear_arith)
        requires
            q >= 0,
    ;
    assert((8 * q + 7) / 8 == q) by (nonlinear_arith)
        requires
            q >= 0,
    ;
}

/// Bit `b` of a packed byte is set exactly when the corresponding pixel
/// packs as black, for the low `n` bit positions.
proof fn lemma_block_partial_bit(img: Raster, y: int, xb: int, n: int, b: u8)
    requires
        0 <= n <= 8,
        b < 8,
    ensures
        (block_partial(img, y, xb, n) & bit_mask(b) != 0) <==> (b < n && pixel_black(
            img,
            8 * xb + b,
            y,
        )),
    decreases n,
{
    if n <= 0 {
        assert(0u8 & (128u8 >> b) == 0) by (bit_vector);
    } else {
        lemma_block_partial_bit(img, y, xb, n - 1, b);
        let prev = block_partial(img, y, xb, n - 1);
        let nb: u8 = (n - 1) as u8;
        if pixel_black(img, 8 * xb + (n - 1), y) {
            if b == nb {
                assert((prev | (128u8 >> b)) & (128u8 >> b) != 0) by (bit_vector)
                    requires
                        b < 8,
                ;
            } else {
                assert(((prev | (128u8 >> nb)) & (128u8 >> b) != 0) == (prev & (128u8 >> b) != 0))
                    by (bit_vector)
                    requires
                        b < 8,
                        nb < 8,
                        b != nb,
                ;
            }
        } else {
            lemma_or_zero(prev);
        }
    }
}

/// Reading pixel `(x, y)` back out of the packed bitmap gives exactly
/// whether that pixel packed as black.
pub proof fn lemma_packed_bit(img: Raster, x: int, y: int)
    requires
        0 <= x < padded_width(img.width as nat),
        0 <= y < img.height,
    ensures
        packed_bit(packed_bitmap(img), width_bytes(img.width as nat), x, y) <==> pixel_black(
            img,
            x,
            y,
        ),
{
    let wb = width_bytes(img.width as nat) as int;
    let xb = x / 8;
    let b = x % 8;
    vstd::arithmetic::div_mod::lemma_fundamental_div_mod(x, 8);
    assert(0 <= xb < wb) by (nonlinear_arith)
        requires
            0 <= x < 8 * wb,
            xb == x / 8,
    ;
    let i = y * wb + xb;
    lemma_div_mod_decompose(y, xb, wb);
    assert(0 <= i < img.height * wb) by (nonlinear_arith)
        requires
            0 <= y < img.height,
            0 <= xb < wb,
            i == y * wb + xb,
    ;
    assert(packed_bitmap(img)[i] == block_of(img, y, xb));
    lemma_block_partial_bit(img, y, xb, 8, b as u8);
}

/// Packing never sets a bit for a padding column beyond the original
/// raster width, at any height.
pub proof fn lemma_padding_bits_clear(img: Raster, x: int, y: int)
    requires
        img.width <= x < padded_width(img.width as nat),
        0 <= y < img.height,
    ensures
        !packed_bit(packed_bitmap(img), width_bytes(img.width as nat), x, y),
{
    lemma_packed_bit(img, x, y);
}

/// Bitwise-or with zero changes nothing.
proof fn lemma_or_zero(x: u8)
    ensures
        x | 0u8 == x,
{
    assert(x | 0u8 == x) by (bit_vector);
}

/// Splitting a flat row-major index back into its row and column.
proof fn lemma_div_mod_decompose(y: int, xb: int, wb: int)
    requires
        0 <= y,
        0 <= xb < wb,
    ensures
        (y * wb + xb) / wb == y,
        (y * wb + xb) % wb == xb,
{
    assert((y * wb + xb) / wb == y && (y * wb + xb) % wb == xb) by (nonlinear_arith)
        requires
            0 <= y,
            0 <= xb < wb,
    ;
}

} // verus!
