//! The raster file that the sink writes for each converted frame.
//!
//! The file is a binary pixmap: a short ASCII header with the format's magic
//! number, the width and the height in decimal and the largest sample value
//! 255, followed by the samples, three bytes for each pixel, row after row,
//! with nothing between the rows.

use vstd::prelude::*;
use crate::frame::{FrameInfo, PixelFormat};

verus! {

/// A frame with its samples: one plane, rows `stride` bytes apart.
#[derive(Clone, Debug, PartialEq, Eq)]
pub struct Image {
    pub format: PixelFormat,
    pub width: u32,
    pub height: u32,
    /// The distance in bytes from the start of one row to the start of the
    /// next; rows may be padded at the end.
    pub stride: usize,
    pub data: Vec<u8>,
}

/// Why an image cannot be written.
#[derive(Clone, Copy, Debug, PartialEq, Eq, Structural)]
pub enum ImageError {
    /// The samples are not packed RGB.
    NotRgb24,
    /// A row of `stride` bytes cannot hold `width` pixels.
    RowTooShort,
    /// The buffer does not hold `height` rows.
    BufferTooShort,
}

/// A file for the sink: its name and its contents.
#[derive(Clone, Debug, PartialEq, Eq)]
pub struct RasterFile {
    pub name: Vec<u8>,
    pub bytes: Vec<u8>,
}

/// The decimal digits of `n`, most significant first, in ASCII.
pub open spec fn decimal(n: nat) -> Seq<u8>
    decreases n,
{
    if n < 10 {
        seq![(48 + n) as u8]
    } else {
        decimal(n / 10).push((48 + n % 10) as u8)
    }
}

/// The number that a string of ASCII digits denotes.
pub open spec fn decimal_value(digits: Seq<u8>) -> nat
    decreases digits.len(),
{
    if digits.len() == 0 {
        0
    } else {
        (10 * decimal_value(digits.drop_last()) + (digits.last() - 48)) as nat
    }
}

/// The magic number `P` `6`, a line feed, the width, a space, the height, a
/// line feed, `255`, a line feed.
pub open spec fn header(width: nat, height: nat) -> Seq<u8> {
    seq![80u8, 54, 10] + decimal(width) + seq![32u8] + decimal(height) + seq![10u8, 50, 53, 53, 10]
}

/// `frame`, the index in decimal, `.ppm`.
pub open spec fn file_name(index: nat) -> Seq<u8> {
    seq![102u8, 114, 97, 109, 101] + decimal(index) + seq![46u8, 112, 112, 109]
}

impl Image {
    /// The number of sample bytes in one row.
    pub open spec fn row_len(&self) -> nat {
        (3 * self.width) as nat
    }

    /// Format and size, without the samples.
    pub open spec fn info(&self) -> FrameInfo {
        FrameInfo { format: self.format, width: self.width, height: self.height }
    }

    /// The samples are packed RGB and every row lies within the buffer.
    pub open spec fn valid(&self) -> bool {
        &&& self.format == PixelFormat::Rgb24
        &&& self.row_len() <= self.stride
        &&& self.stride * self.height <= self.data@.len()
    }

    /// The `k`-th sample byte of the picture, rows taken without their padding.
    pub open spec fn sample(&self, k: int) -> u8 {
        self.data@[(k / self.row_len() as int) * self.stride + k % self.row_len() as int]
    }

    /// All sample bytes: `3 * width * height` of them.
    pub open spec fn samples(&self) -> Seq<u8> {
        Seq::new((self.row_len() * self.height) as nat, |k: int| self.sample(k))
    }

    /// The whole file.
    pub open spec fn encoding(&self) -> Seq<u8> {
        header(self.width as nat, self.height as nat) + self.samples()
    }

    /// What is wrong with the image, if anything: the first of the three
    /// conditions of `valid` that fails.
    pub open spec fn defect(&self) -> Option<ImageError> {
        if self.format != PixelFormat::Rgb24 {
            Some(ImageError::NotRgb24)
        } else if self.row_len() > self.stride {
            Some(ImageError::RowTooShort)
        } else if self.stride * self.height > self.data@.len() {
            Some(ImageError::BufferTooShort)
        } else {
            None
        }
    }
}

/// Appends the decimal digits of `n`.
pub fn push_decimal(out: &mut Vec<u8>, n: u64)
    ensures
        final(out)@ == old(out)@ + decimal(n as nat),
    decreases n,
{
    if n >= 10 {
        push_decimal(out, n / 10);
    }
    let digit: u8 = (n % 10) as u8;
    out.push(48 + digit);
}

/// The header of a picture of `width` by `height` pixels.
pub fn encode_header(width: u32, height: u32) -> (out: Vec<u8>)
    ensures
        out@ == header(width as nat, height as nat),
{
    let mut out: Vec<u8> = Vec::new();
    out.push(80);
    out.push(54);
    out.push(10);
    push_decimal(&mut out, width as u64);
    out.push(32);
    push_decimal(&mut out, height as u64);
    out.push(10);
    out.push(50);
    out.push(53);
    out.push(53);
    out.push(10);
    out
}

/// The name of the file that holds the frame with this index.
pub fn encode_file_name(index: u64) -> (out: Vec<u8>)
    ensures
        out@ == file_name(index as nat),
{
    let mut out: Vec<u8> = Vec::new();
    out.push(102);
    out.push(114);
    out.push(97);
    out.push(109);
    out.push(101);
    push_decimal(&mut out, index);
    out.push(46);
    out.push(112);
    out.push(112);
    out.push(109);
    out
}

impl Image {
    /// Format and size, without the samples.
    pub fn describe(&self) -> (info: FrameInfo)
        ensures
            info == self.info(),
    {
        FrameInfo { format: self.format, width: self.width, height: self.height }
    }

    /// Says whether the image can be written, and if not, why not.
    pub fn validate(&self) -> (r: Result<(), ImageError>)
        ensures
            r is Ok <==> self.valid(),
            r matches Err(e) ==> self.defect() == Some(e),
    {
        match self.format {
            PixelFormat::Rgb24 => {},
            _ => { return Err(ImageError::NotRgb24); },
        }
        let row: u64 = 3 * (self.width as u64);
        if row > self.stride as u64 {
            return Err(ImageError::RowTooShort);
        }
        let rows: u128 = self.height as u128;
        let stride: u128 = self.stride as u128;
        assert(stride * rows <= 0xffff_ffff_ffff_ffff * 0xffff_ffff) by (nonlinear_arith)
            requires
                0 <= stride <= 0xffff_ffff_ffff_ffff,
                0 <= rows <= 0xffff_ffff,
        ;
        if stride * rows > self.data.len() as u128 {
            return Err(ImageError::BufferTooShort);
        }
        Ok(())
    }

    /// The contents of the file for this image: the header, then the samples
    /// row by row without padding. Fails, and says why, where the image is not
    /// valid.
    pub fn encode(&self) -> (r: Result<Vec<u8>, ImageError>)
        ensures
            r is Ok <==> self.valid(),
            match r {
                Ok(bytes) => bytes@ == self.encoding(),
                Err(e) => self.defect() == Some(e),
            },
    {
        match self.validate() {
            Err(e) => { return Err(e); },
            Ok(_) => {},
        }
        let mut out = encode_header(self.width, self.height);
        let ghost head = out@;
        let row: usize = 3 * (self.width as usize);
        let rows: usize = self.height as usize;
        let stride: usize = self.stride;
        let len: usize = self.data.len();
        let mut r: usize = 0;
        while r < rows
            invariant
                self.valid(),
                len == self.data@.len(),
                row == self.row_len(),
                rows == self.height,
                stride == self.stride,
                r <= rows,
                out@ == head + Seq::new((row * r) as nat, |k: int| self.sample(k)),
            decreases rows - r,
        {
            assert(stride * r + stride <= stride * rows) by (nonlinear_arith)
                requires
                    r < rows,
                    0 <= stride,
            ;
            assert(row * r + row <= row * rows) by (nonlinear_arith)
                requires
                    r < rows,
                    0 <= row,
            ;
            let start: usize = stride * r;
            let mut c: usize = 0;
            while c < row
                invariant
                    self.valid(),
                    len == self.data@.len(),
                    row == self.row_len(),
                    stride == self.stride,
                    start == stride * r,
                    start + stride <= self.data@.len(),
                    row <= stride,
                    c <= row,
                    out@ == head + Seq::new((row * r + c) as nat, |k: int| self.sample(k)),
                decreases row - c,
            {
                let byte = self.data[start + c];
                proof {
                    let k = (row * r + c) as int;
                    vstd::arithmetic::div_mod::lemma_fundamental_div_mod_converse(k, row as int, r as int, c as int);
                    assert(k == r * row + c) by (nonlinear_arith)
                        requires
                            k == row * r + c,
                    ;
                    assert(self.sample(k) == byte) by {
                        assert((k / row as int) * stride == stride * r) by (nonlinear_arith)
                            requires
                                k / row as int == r,
                        ;
                    }
                }
                out.push(byte);
                c = c + 1;
            }
            proof {
                assert(row * r + row == row * (r + 1)) by (nonlinear_arith);
            }
            r = r + 1;
        }
        assert(out@ =~= self.encoding());
        Ok(out)
    }

    /// The file for this image as frame number `index`: its name and its
    /// contents.
    pub fn to_file(&self, index: u64) -> (r: Result<RasterFile, ImageError>)
        ensures
            r is Ok <==> self.valid(),
            match r {
                Ok(file) => file.name@ == file_name(index as nat) && file.bytes@ == self.encoding(),
                Err(e) => self.defect() == Some(e),
            },
    {
        match self.encode() {
            Ok(bytes) => Ok(RasterFile { name: encode_file_name(index), bytes }),
            Err(e) => Err(e),
        }
    }
}

/// The decimal digits of a number denote that number, and no other string of
/// digits is chosen for it: there is at least one digit, each is an ASCII
/// digit, and the first is `0` only for the number zero.
pub proof fn law_decimal_denotes(n: nat)
    ensures
        decimal_value(decimal(n)) == n,
        decimal(n).len() >= 1,
        forall|i: int| 0 <= i < decimal(n).len() ==> 48 <= #[trigger] decimal(n)[i] <= 57,
        decimal(n)[0] == 48 <==> n == 0,
    decreases n,
{
    if n >= 10 {
        law_decimal_denotes(n / 10);
        assert(decimal(n).drop_last() =~= decimal(n / 10));
    } else {
        assert(decimal_value(decimal(n).drop_last()) == 0);
    }
}

/// The samples of a valid image are its rows, one after the other, each cut
/// to three bytes a pixel: row `r` of the file is the start of row `r` of the
/// buffer, and the padding is left out.
pub proof fn law_rows_are_unpadded(image: Image, r: int)
    requires
        image.valid(),
        0 <= r < image.height,
    ensures
        image.samples().len() == 3 * image.width * image.height,
        (r + 1) * image.row_len() <= image.samples().len(),
        r * image.stride + image.row_len() <= image.data@.len(),
        image.samples().subrange(r * image.row_len(), (r + 1) * image.row_len()) == image.data@.subrange(
            r * image.stride as int,
            r * image.stride + image.row_len(),
        ),
{
    let row = image.row_len() as int;
    let stride = image.stride as int;
    let height = image.height as int;
    assert((r + 1) * row <= row * height) by (nonlinear_arith)
        requires
            0 <= r < height,
            0 <= row,
    ;
    assert(r * stride + stride <= stride * height) by (nonlinear_arith)
        requires
            0 <= r < height,
            0 <= stride,
    ;
    assert((r + 1) * row == r * row + row) by (nonlinear_arith);
    assert(0 <= r * row) by (nonlinear_arith)
        requires
            0 <= r,
            0 <= row,
    ;
    assert(0 <= r * stride) by (nonlinear_arith)
        requires
            0 <= r,
            0 <= stride,
    ;
    let left = image.samples().subrange(r * row, (r + 1) * row);
    let right = image.data@.subrange(r * stride, r * stride + row);
    assert forall|c: int| 0 <= c < row implies left[c] == right[c] by {
        vstd::arithmetic::div_mod::lemma_fundamental_div_mod_converse(r * row + c, row, r, c);
    }
    assert(left =~= right);
}

} // verus!
