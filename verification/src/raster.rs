//! Packs the coverage of a bitmap into the one-bit-per-dot rows that the
//! printer takes.
//!
//! A dot is inked where the coverage of its pixel exceeds the threshold. Eight
//! dots make one byte, the leftmost dot in the highest bit; a row whose width
//! is no multiple of eight ends in a byte whose low bits are zero.

use crate::encoding::{encode_image_header, image_header_bytes};
use crate::picture::{
    alpha_channel, has_integer_samples, image_is_readable, image_size, image_view,
};
use crate::status::PrintError;
use image::DynamicImage;
use vstd::arithmetic::div_mod::lemma_fundamental_div_mod_converse;
use vstd::prelude::*;

verus! {

/// Widest image the device prints, in dots.
pub const MAX_WIDTH: u32 = 1024;

/// Tallest image the device prints, in dots.
pub const MAX_HEIGHT: u32 = 4095;

/// A pixel is inked where its coverage is above this value.
pub const INK_THRESHOLD: u8 = 129;

/// A rectangle of coverage values, one per pixel, row after row.
#[derive(Debug, PartialEq, Eq)]
pub struct Bitmap {
    width: u32,
    height: u32,
    alpha: Vec<u8>,
}

/// What a bitmap holds: its size and the coverage of each pixel, the pixel in
/// column `x` of row `y` at index `y * width + x`.
pub struct BitmapView {
    pub width: nat,
    pub height: nat,
    pub alpha: Seq<u8>,
}

/// Whether a pixel of this coverage is printed.
pub open spec fn is_ink(alpha: u8) -> bool {
    alpha > INK_THRESHOLD
}

/// Bytes in a packed row of `width` dots.
pub open spec fn byte_width(width: nat) -> nat {
    (width + 7) / 8
}

/// Why an image of this size cannot be printed, if it cannot.
pub open spec fn size_error(width: nat, height: nat) -> Option<PrintError> {
    if width > MAX_WIDTH {
        Some(PrintError::TooWide)
    } else if height > MAX_HEIGHT {
        Some(PrintError::TooTall)
    } else {
        None
    }
}

/// The value of bit `bit` of a packed byte, counted from the left.
pub open spec fn bit_weight(bit: int) -> int {
    if bit == 0 {
        128
    } else if bit == 1 {
        64
    } else if bit == 2 {
        32
    } else if bit == 3 {
        16
    } else if bit == 4 {
        8
    } else if bit == 5 {
        4
    } else if bit == 6 {
        2
    } else if bit == 7 {
        1
    } else {
        0
    }
}

impl BitmapView {
    /// There is one coverage value for each pixel.
    pub open spec fn wf(self) -> bool {
        self.alpha.len() == self.height * self.width
    }

    /// 1 where column `col` lies inside the row and its pixel is inked, else 0.
    pub open spec fn dot(self, row: int, col: int) -> int {
        if 0 <= col < self.width && is_ink(self.alpha[row * self.width + col]) {
            1
        } else {
            0
        }
    }

    /// Byte `k` of packed row `row`: its eight dots, the leftmost worth most.
    pub open spec fn packed_byte(self, row: int, k: int) -> int {
        128 * self.dot(row, 8 * k) + 64 * self.dot(row, 8 * k + 1) + 32 * self.dot(row, 8 * k + 2)
            + 16 * self.dot(row, 8 * k + 3) + 8 * self.dot(row, 8 * k + 4) + 4 * self.dot(
            row,
            8 * k + 5,
        ) + 2 * self.dot(row, 8 * k + 6) + self.dot(row, 8 * k + 7)
    }

    /// The leftmost `bits` dots of byte `k` of row `row`.
    pub open spec fn partial_byte(self, row: int, k: int, bits: int) -> int
        decreases bits,
    {
        if bits <= 0 {
            0
        } else {
            self.partial_byte(row, k, bits - 1) + bit_weight(bits - 1) * self.dot(
                row,
                8 * k + bits - 1,
            )
        }
    }
}

/// The packed rows of an image, top row first.
pub open spec fn raster_rows(image: BitmapView) -> Seq<u8> {
    Seq::new(
        image.height * byte_width(image.width),
        |i: int|
            image.packed_byte(
                i / (byte_width(image.width) as int),
                i % (byte_width(image.width) as int),
            ) as u8,
    )
}

/// The raster-image command for an image: the header with the row length in
/// bytes and the number of rows, then the packed rows.
pub open spec fn image_bytes(image: BitmapView) -> Seq<u8> {
    image_header_bytes(byte_width(image.width) as u16, image.height as u16) + raster_rows(image)
}

/// All eight dots of a byte are its packed value.
pub proof fn lemma_partial_byte_full(image: BitmapView, row: int, k: int)
    ensures
        image.partial_byte(row, k, 8) == image.packed_byte(row, k),
        0 <= image.packed_byte(row, k) <= 255,
{
    reveal_with_fuel(BitmapView::partial_byte, 9);
}

/// Whether `value` has nothing but zeros to the right of its leftmost `bits`
/// bits.
spec fn low_bits_clear(value: int, bits: int) -> bool {
    if bits == 0 {
        value == 0
    } else if bits == 1 {
        value % 128 == 0
    } else if bits == 2 {
        value % 64 == 0
    } else if bits == 3 {
        value % 32 == 0
    } else if bits == 4 {
        value % 16 == 0
    } else if bits == 5 {
        value % 8 == 0
    } else if bits == 6 {
        value % 4 == 0
    } else if bits == 7 {
        value % 2 == 0
    } else {
        true
    }
}

/// The dots packed so far leave the bits to their right clear.
proof fn lemma_partial_byte_aligned(image: BitmapView, row: int, k: int, bits: int)
    requires
        0 <= bits <= 8,
    ensures
        0 <= image.partial_byte(row, k, bits) <= 255,
        low_bits_clear(image.partial_byte(row, k, bits), bits),
    decreases bits,
{
    if bits > 0 {
        lemma_partial_byte_aligned(image, row, k, bits - 1);
    }
}

/// Setting a bit that is clear adds its weight.
proof fn lemma_set_bit(byte: u8, bit: u8)
    requires
        bit < 8,
        low_bits_clear(byte as int, bit as int),
    ensures
        (byte | (1u8 << ((7 - bit) as u8))) as int == byte + bit_weight(bit as int),
{
    if bit == 0 {
        assert(0u8 | (1u8 << 7u8) == 128u8) by (bit_vector);
    } else if bit == 1 {
        assert(byte | (1u8 << 6u8) == byte + 64) by (bit_vector)
            requires
                byte % 128 == 0,
        ;
    } else if bit == 2 {
        assert(byte | (1u8 << 5u8) == byte + 32) by (bit_vector)
            requires
                byte % 64 == 0,
        ;
    } else if bit == 3 {
        assert(byte | (1u8 << 4u8) == byte + 16) by (bit_vector)
            requires
                byte % 32 == 0,
        ;
    } else if bit == 4 {
        assert(byte | (1u8 << 3u8) == byte + 8) by (bit_vector)
            requires
                byte % 16 == 0,
        ;
    } else if bit == 5 {
        assert(byte | (1u8 << 2u8) == byte + 4) by (bit_vector)
            requires
                byte % 8 == 0,
        ;
    } else if bit == 6 {
        assert(byte | (1u8 << 1u8) == byte + 2) by (bit_vector)
            requires
                byte % 4 == 0,
        ;
    } else {
        assert(byte | (1u8 << 0u8) == byte + 1) by (bit_vector)
            requires
                byte % 2 == 0,
        ;
    }
}

/// A pixel inside the image has its coverage inside the buffer.
proof fn lemma_pixel_index(width: int, height: int, row: int, col: int)
    requires
        0 <= row < height,
        0 <= col < width,
    ensures
        0 <= row * width + col < height * width,
{
    assert(row * width + width == (row + 1) * width) by (nonlinear_arith);
    assert((row + 1) * width <= height * width) by (nonlinear_arith)
        requires
            row + 1 <= height,
            0 <= width,
    ;
    assert(0 <= row * width) by (nonlinear_arith)
        requires
            0 <= row,
            0 <= width,
    ;
}

impl View for Bitmap {
    type V = BitmapView;

    closed spec fn view(&self) -> BitmapView {
        BitmapView {
            width: self.width as nat,
            height: self.height as nat,
            alpha: self.alpha@,
        }
    }
}

impl Bitmap {
    #[verifier::type_invariant]
    spec fn complete(self) -> bool {
        self.alpha@.len() == self.height * self.width
    }

    /// A bitmap of `width` by `height` pixels with the given coverage values,
    /// row after row; `None` unless there is exactly one value per pixel.
    pub fn new(width: u32, height: u32, alpha: Vec<u8>) -> (bitmap: Option<Bitmap>)
        ensures
            alpha@.len() == height * width ==> bitmap is Some && bitmap->0@ == (BitmapView {
                width: width as nat,
                height: height as nat,
                alpha: alpha@,
            }),
            alpha@.len() != height * width ==> bitmap is None,
            bitmap is Some ==> bitmap->0@.wf(),
    {
        assert(height * width <= 0xFFFF_FFFF * 0xFFFF_FFFF) by (nonlinear_arith)
            requires
                0 <= height <= 0xFFFF_FFFF,
                0 <= width <= 0xFFFF_FFFF,
        ;
        let pixels: u64 = (height as u64) * (width as u64);
        if alpha.len() as u64 == pixels {
            Some(Bitmap { width, height, alpha })
        } else {
            None
        }
    }

    /// The size and the coverage of an image of the `image` crate.
    ///
    /// An image that the device does not print for its size is refused as
    /// `check_size` says, before any of its pixels is read. An image of a
    /// printable size must have integer samples; `try_from_image` tests that.
    pub fn from_image(image: &DynamicImage) -> (result: Result<Bitmap, PrintError>)
        requires
            image_is_readable(*image),
        ensures
            match size_error(image_size(*image).0, image_size(*image).1) {
                Some(error) => result == Err::<Bitmap, PrintError>(error),
                None => result is Ok && result->Ok_0@ == image_view(*image),
            },
            result is Ok ==> result->Ok_0@.wf(),
    {
        let width: u32 = image.width();
        let height: u32 = image.height();
        match check_size(width, height) {
            Err(error) => {
                return Err(error);
            },
            Ok(()) => {},
        }
        let alpha: Vec<u8> = alpha_channel(image);
        Ok(Bitmap { width, height, alpha })
    }

    /// The size and the coverage of any image of the `image` crate, as
    /// `from_image` gives them, or `None` for an image that the library does
    /// not read: one of a printable size with floating-point samples.
    pub fn try_from_image(image: &DynamicImage) -> (result: Option<Result<Bitmap, PrintError>>)
        ensures
            result is Some <==> image_is_readable(*image),
            result matches Some(converted) ==> match size_error(
                image_size(*image).0,
                image_size(*image).1,
            ) {
                Some(error) => converted == Err::<Bitmap, PrintError>(error),
                None => converted is Ok && converted->Ok_0@ == image_view(*image),
            },
            result matches Some(Ok(bitmap)) ==> bitmap@.wf(),
    {
        if is_readable(image) {
            Some(Bitmap::from_image(image))
        } else {
            None
        }
    }

    /// Pixels in a row.
    pub fn width(&self) -> (width: u32)
        ensures
            width == self@.width,
    {
        self.width
    }

    /// Number of rows.
    pub fn height(&self) -> (height: u32)
        ensures
            height == self@.height,
    {
        self.height
    }

    /// Packs the eight dots of byte `k` of row `row`.
    fn pack_byte(&self, row: usize, k: usize) -> (byte: u8)
        requires
            self@.width <= MAX_WIDTH,
            self@.height <= MAX_HEIGHT,
            row < self@.height,
            k < byte_width(self@.width),
        ensures
            byte == self@.packed_byte(row as int, k as int),
    {
        proof {
            use_type_invariant(self);
        }
        let width: usize = self.width as usize;
        let mut byte: u8 = 0;
        let mut bit: u8 = 0;
        while bit < 8
            invariant
                bit <= 8,
                width == self@.width,
                self@.width <= MAX_WIDTH,
                self@.height <= MAX_HEIGHT,
                row < self@.height,
                k < byte_width(self@.width),
                self.alpha@.len() == self@.height * self@.width,
                byte == self@.partial_byte(row as int, k as int, bit as int),
            decreases 8 - bit,
        {
            let col: usize = 8 * k + bit as usize;
            proof {
                lemma_partial_byte_aligned(self@, row as int, k as int, bit as int);
                lemma_set_bit(byte, bit);
            }
            if col < width {
                proof {
                    lemma_pixel_index(width as int, self@.height as int, row as int, col as int);
                    assert(self@.height * width <= 4095 * 1024) by (nonlinear_arith)
                        requires
                            self@.height <= 4095,
                            width <= 1024,
                    ;
                }
                if self.alpha[row * width + col] > INK_THRESHOLD {
                    byte = byte | (1u8 << (7 - bit));
                }
            }
            bit = bit + 1;
        }
        proof {
            lemma_partial_byte_full(self@, row as int, k as int);
        }
        byte
    }
}

/// Whether the library reads the image: whether its size alone refuses it or
/// its samples are integers.
pub fn is_readable(image: &DynamicImage) -> (readable: bool)
    ensures
        readable == image_is_readable(*image),
{
    match check_size(image.width(), image.height()) {
        Err(_) => true,
        Ok(()) => has_integer_samples(image),
    }
}

/// Whether the device prints an image of this size: one wider than
/// `MAX_WIDTH` is refused as `TooWide`, one that fits in width but is taller
/// than `MAX_HEIGHT` as `TooTall`.
pub fn check_size(width: u32, height: u32) -> (result: Result<(), PrintError>)
    ensures
        result == match size_error(width as nat, height as nat) {
            Some(error) => Err::<(), PrintError>(error),
            None => Ok::<(), PrintError>(()),
        },
{
    if width > MAX_WIDTH {
        Err(PrintError::TooWide)
    } else if height > MAX_HEIGHT {
        Err(PrintError::TooTall)
    } else {
        Ok(())
    }
}

/// Packs an image into rows of one bit per dot.
///
/// An image that the device does not print for its size is refused as
/// `check_size` says.
pub fn rasterize(image: &Bitmap) -> (result: Result<Vec<u8>, PrintError>)
    ensures
        match size_error(image@.width, image@.height) {
            Some(error) => result == Err::<Vec<u8>, PrintError>(error),
            None => result is Ok && result->Ok_0@ == raster_rows(image@),
        },
{
    match check_size(image.width, image.height) {
        Err(error) => {
            return Err(error);
        },
        Ok(()) => {},
    }
    let height: usize = image.height as usize;
    let row_bytes: usize = (image.width as usize + 7) / 8;
    let mut rows: Vec<u8> = Vec::new();
    let mut row: usize = 0;
    while row < height
        invariant
            row <= height,
            height == image@.height,
            row_bytes == byte_width(image@.width),
            image@.width <= MAX_WIDTH,
            image@.height <= MAX_HEIGHT,
            rows@.len() == row * row_bytes,
            forall|i: int|
                0 <= i < rows@.len() ==> rows@[i] == image@.packed_byte(
                    i / (row_bytes as int),
                    i % (row_bytes as int),
                ),
        decreases height - row,
    {
        let mut k: usize = 0;
        while k < row_bytes
            invariant
                row < height,
                k <= row_bytes,
                height == image@.height,
                row_bytes == byte_width(image@.width),
                image@.width <= MAX_WIDTH,
                image@.height <= MAX_HEIGHT,
                rows@.len() == row * row_bytes + k,
                forall|i: int|
                    0 <= i < rows@.len() ==> rows@[i] == image@.packed_byte(
                        i / (row_bytes as int),
                        i % (row_bytes as int),
                    ),
            decreases row_bytes - k,
        {
            let byte: u8 = image.pack_byte(row, k);
            proof {
                lemma_fundamental_div_mod_converse(
                    row * row_bytes + k,
                    row_bytes as int,
                    row as int,
                    k as int,
                );
            }
            rows.push(byte);
            k = k + 1;
        }
        proof {
            assert(row * row_bytes + row_bytes == (row + 1) * row_bytes) by (nonlinear_arith);
        }
        row = row + 1;
    }
    proof {
        assert forall|i: int| 0 <= i < rows@.len() implies rows@[i] == raster_rows(image@)[i] by {
            lemma_row_of_index(i, height as int, row_bytes as int);
            lemma_partial_byte_full(
                image@,
                i / (row_bytes as int),
                i % (row_bytes as int),
            );
        }
        assert(rows@ =~= raster_rows(image@));
    }
    Ok(rows)
}

/// An index into the packed rows lies in one of the rows.
proof fn lemma_row_of_index(i: int, height: int, row_bytes: int)
    requires
        0 <= i < height * row_bytes,
        0 <= row_bytes,
    ensures
        row_bytes > 0,
        0 <= i / row_bytes < height,
        0 <= i % row_bytes < row_bytes,
{
    assert(row_bytes > 0) by (nonlinear_arith)
        requires
            0 <= i < height * row_bytes,
            0 <= row_bytes,
    ;
    vstd::arithmetic::div_mod::lemma_fundamental_div_mod(i, row_bytes);
    vstd::arithmetic::div_mod::lemma_mod_bound(i, row_bytes);
    let q: int = i / row_bytes;
    assert(q < height) by (nonlinear_arith)
        requires
            row_bytes * q + i % row_bytes == i,
            0 <= i % row_bytes,
            i < height * row_bytes,
            row_bytes > 0,
    ;
    assert(0 <= q) by (nonlinear_arith)
        requires
            row_bytes * q + i % row_bytes == i,
            i % row_bytes < row_bytes,
            0 <= i,
            row_bytes > 0,
    ;
}

/// The raster-image command for an image, header and packed rows.
///
/// Refuses the images that `rasterize` refuses.
pub fn encode_image(image: &Bitmap) -> (result: Result<Vec<u8>, PrintError>)
    ensures
        match size_error(image@.width, image@.height) {
            Some(error) => result == Err::<Vec<u8>, PrintError>(error),
            None => result is Ok && result->Ok_0@ == image_bytes(image@),
        },
{
    match rasterize(image) {
        Err(error) => Err(error),
        Ok(mut rows) => {
            let row_bytes: u16 = ((image.width + 7) / 8) as u16;
            let mut bytes: Vec<u8> = encode_image_header(row_bytes, image.height as u16);
            bytes.append(&mut rows);
            Ok(bytes)
        },
    }
}

} // verus!
