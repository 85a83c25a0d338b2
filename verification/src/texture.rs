//! Texture formats and sampling parameters, and how they map to GL.

use vstd::prelude::*;
use crate::gl;

verus! {

/// Pixel formats of a 2D texture.
#[derive(Debug, PartialEq, Eq, Clone, Copy, Hash, Structural)]
pub enum Texture2DFormat {
    RGB8,
    RGBA8,
    DepthU16,
    DepthF32,
}

/// Number of bytes one pixel of `format` occupies.
pub open spec fn bytes_per_pixel(format: Texture2DFormat) -> nat {
    match format {
        Texture2DFormat::RGB8 => 3,
        Texture2DFormat::RGBA8 => 4,
        Texture2DFormat::DepthU16 => 2,
        Texture2DFormat::DepthF32 => 4,
    }
}

impl Texture2DFormat {
    /// Returns the size in bytes of texture with `dimensions`.
    pub fn data_size(self, width: u32, height: u32) -> (r: u32)
        requires
            bytes_per_pixel(self) * width * height <= u32::MAX,
        ensures
            r == bytes_per_pixel(self) * width * height,
    {
        proof {
            let k = bytes_per_pixel(self);
            assert(width * height <= k * width * height) by (nonlinear_arith)
                requires k >= 2;
            assert(k * width * height == k * (width * height)) by (nonlinear_arith);
        }
        let square = width * height;
        match self {
            Texture2DFormat::RGB8 => 3 * square,
            Texture2DFormat::RGBA8 => 4 * square,
            Texture2DFormat::DepthU16 => 2 * square,
            Texture2DFormat::DepthF32 => 4 * square,
        }
    }

    /// Whether the size in bytes of a texture with `dimensions` fits in a
    /// `u32`, that is, whether `data_size` may be asked for it.
    pub fn data_size_fits(self, width: u32, height: u32) -> (r: bool)
        ensures
            r == (bytes_per_pixel(self) * width * height <= u32::MAX),
    {
        let k: u64 = match self {
            Texture2DFormat::RGB8 => 3,
            Texture2DFormat::RGBA8 => 4,
            Texture2DFormat::DepthU16 => 2,
            Texture2DFormat::DepthF32 => 4,
        };
        proof {
            assert((width as int) * (height as int) <= 0xffff_ffff * 0xffff_ffff) by (nonlinear_arith)
                requires width <= 0xffff_ffffu32, height <= 0xffff_ffffu32;
        }
        let square: u64 = (width as u64) * (height as u64);
        proof {
            let m: int = 0xffff_ffff;
            assert(k * square <= m <==> square <= m / k as int) by (nonlinear_arith)
                requires 2 <= k <= 4, square >= 0;
            assert(k * width * height == k * square) by (nonlinear_arith)
                requires square == width * height;
        }
        square <= 0xffff_ffffu64 / k
    }
}

/// Sets the wrap parameter for texture.
#[derive(Debug, PartialEq, Eq, Clone, Copy, Structural)]
pub enum TextureWrap {
    /// Samples at coord x + 1 map to coord x.
    Repeat,
    /// Samples at coord x + 1 map to coord 1 - x.
    Mirror,
    /// Samples at coord x + 1 map to coord 1.
    Clamp,
}

/// Texture sampling filter.
#[derive(Clone, Copy, Debug, PartialEq, Eq, Hash, Structural)]
pub enum FilterMode {
    Linear,
    Nearest,
}

/// The GL value of a wrap mode, as set for both `TEXTURE_WRAP_S` and `TEXTURE_WRAP_T`.
pub fn gl_wrap(wrap: TextureWrap) -> (r: u32)
    ensures
        r == match wrap {
            TextureWrap::Repeat => gl::REPEAT,
            TextureWrap::Mirror => gl::MIRRORED_REPEAT,
            TextureWrap::Clamp => gl::CLAMP_TO_EDGE,
        },
{
    match wrap {
        TextureWrap::Repeat => gl::REPEAT,
        TextureWrap::Mirror => gl::MIRRORED_REPEAT,
        TextureWrap::Clamp => gl::CLAMP_TO_EDGE,
    }
}

/// The GL value of a sampling filter.
pub fn gl_filter(filter: FilterMode) -> (r: u32)
    ensures
        r == match filter {
            FilterMode::Nearest => gl::NEAREST,
            FilterMode::Linear => gl::LINEAR,
        },
{
    match filter {
        FilterMode::Nearest => gl::NEAREST,
        FilterMode::Linear => gl::LINEAR,
    }
}

/// The `(internal format, format, pixel type)` triple under which a texture of
/// `format` is allocated.
pub fn gl_texture_format(format: Texture2DFormat) -> (r: (u32, u32, u32))
    ensures
        r == match format {
            Texture2DFormat::RGB8 => (gl::RGB, gl::RGB, gl::UNSIGNED_BYTE),
            Texture2DFormat::RGBA8 => (gl::RGBA, gl::RGBA, gl::UNSIGNED_BYTE),
            Texture2DFormat::DepthU16 => (gl::DEPTH_COMPONENT16, gl::DEPTH_COMPONENT, gl::UNSIGNED_SHORT),
            Texture2DFormat::DepthF32 => (gl::DEPTH_COMPONENT32F, gl::DEPTH_COMPONENT, gl::FLOAT),
        },
{
    match format {
        Texture2DFormat::RGB8 => (gl::RGB, gl::RGB, gl::UNSIGNED_BYTE),
        Texture2DFormat::RGBA8 => (gl::RGBA, gl::RGBA, gl::UNSIGNED_BYTE),
        Texture2DFormat::DepthU16 => (gl::DEPTH_COMPONENT16, gl::DEPTH_COMPONENT, gl::UNSIGNED_SHORT),
        Texture2DFormat::DepthF32 => (gl::DEPTH_COMPONENT32F, gl::DEPTH_COMPONENT, gl::FLOAT),
    }
}

/// The channel layout of a decoded image.
#[derive(Debug, PartialEq, Eq, Clone, Copy, Structural)]
pub enum ImageColorType {
    L8,
    La8,
    Rgb8,
    Rgba8,
    L16,
    La16,
    Rgb16,
    Rgba16,
    Rgb32F,
    Rgba32F,
}

/// The texture format an image of color type `color` is uploaded as, or the
/// color type itself where it is refused.
pub open spec fn format_of_color(color: ImageColorType) -> Result<Texture2DFormat, ImageColorType> {
    match color {
        ImageColorType::Rgb8 => Ok(Texture2DFormat::RGB8),
        ImageColorType::Rgba8 => Ok(Texture2DFormat::RGBA8),
        ImageColorType::L16 => Ok(Texture2DFormat::DepthU16),
        other => Err(other),
    }
}

/// The texture format an image of color type `color` is uploaded as; images
/// of any other color type are refused and their color type handed back.
pub fn texture_format_of_color(color: ImageColorType) -> (r: Result<Texture2DFormat, ImageColorType>)
    ensures
        r == format_of_color(color),
{
    match color {
        ImageColorType::Rgb8 => Ok(Texture2DFormat::RGB8),
        ImageColorType::Rgba8 => Ok(Texture2DFormat::RGBA8),
        ImageColorType::L16 => Ok(Texture2DFormat::DepthU16),
        other => Err(other),
    }
}

/// The first `height` rows of `row_len` bytes of `bytes`, last row first.
pub open spec fn rows_reversed(bytes: Seq<u8>, row_len: nat, height: nat) -> Seq<u8> {
    Seq::new(
        row_len * height,
        |i: int| bytes[(height - 1 - i / (row_len as int)) * row_len + i % (row_len as int)],
    )
}

/// Byte `k` of an image of `height` rows of `row_len` bytes lies in row
/// `k / row_len`, column `k % row_len`, and the same column of the mirrored
/// row lies inside the image.
proof fn lemma_mirrored_index(k: int, row_len: int, height: int)
    requires
        0 <= k < row_len * height,
        row_len > 0,
    ensures
        0 <= k / row_len < height,
        0 <= k % row_len < row_len,
        0 <= (height - 1 - k / row_len) * row_len + k % row_len < row_len * height,
{
    let q = k / row_len;
    let r = k % row_len;
    vstd::arithmetic::div_mod::lemma_fundamental_div_mod(k, row_len);
    assert(0 <= r < row_len);
    assert(k == row_len * q + r);
    assert(0 <= q < height) by (nonlinear_arith)
        requires
            k == row_len * q + r,
            0 <= r < row_len,
            0 <= k < row_len * height,
            row_len > 0;
    assert(0 <= (height - 1 - q) * row_len + r < row_len * height) by (nonlinear_arith)
        requires
            0 <= q < height,
            0 <= r < row_len,
            row_len > 0;
}

/// The image of `height` rows of `row_len` bytes at the start of `bytes`,
/// turned upside down: the last row comes first.
pub fn flip_rows(bytes: &[u8], row_len: usize, height: usize) -> (r: Vec<u8>)
    requires
        row_len * height <= bytes@.len(),
    ensures
        r@ == rows_reversed(bytes@, row_len as nat, height as nat),
{
    let byte_count = bytes.len();
    proof {
        assert(row_len * height <= byte_count);
    }
    let n: usize = row_len * height;
    let mut out: Vec<u8> = Vec::new();
    let mut k: usize = 0;
    while k < n
        invariant
            n == row_len * height,
            n <= bytes@.len(),
            k <= n,
            out@ =~= rows_reversed(bytes@, row_len as nat, height as nat).take(k as int),
        decreases n - k,
    {
        proof {
            assert(row_len > 0) by (nonlinear_arith)
                requires k < n, n == row_len * height;
            lemma_mirrored_index(k as int, row_len as int, height as int);
        }
        let row = k / row_len;
        let col = k % row_len;
        let from = (height - 1 - row) * row_len + col;
        out.push(bytes[from]);
        k = k + 1;
    }
    out
}

/// Number of bytes one pixel of `format` occupies.
fn format_bytes_per_pixel(format: Texture2DFormat) -> (r: usize)
    ensures
        r == bytes_per_pixel(format),
{
    match format {
        Texture2DFormat::RGB8 => 3,
        Texture2DFormat::RGBA8 => 4,
        Texture2DFormat::DepthU16 => 2,
        Texture2DFormat::DepthF32 => 4,
    }
}

/// What is uploaded for a decoded image of color type `color`, `width` by
/// `height` pixels, whose pixel bytes start `bytes`: the texture format it
/// is uploaded as and its rows last first, as GL expects them (row 0 at the
/// bottom). An image of a color type that has no texture format is refused
/// with that color type.
pub fn texture_upload(color: ImageColorType, width: u32, height: u32, bytes: &[u8]) -> (r: Result<
    (Texture2DFormat, Vec<u8>),
    ImageColorType,
>)
    requires
        format_of_color(color) matches Ok(f) ==> bytes_per_pixel(f) * width * height
            <= bytes@.len(),
    ensures
        match format_of_color(color) {
            Ok(f) => r matches Ok((g, data)) && g == f && data@ == rows_reversed(
                bytes@,
                bytes_per_pixel(f) * (width as nat),
                height as nat,
            ),
            Err(c) => r matches Err(d) && d == c,
        },
{
    let format = match texture_format_of_color(color) {
        Ok(format) => format,
        Err(c) => return Err(c),
    };
    let bpp = format_bytes_per_pixel(format);
    if height == 0 {
        let data: Vec<u8> = Vec::new();
        proof {
            assert(rows_reversed(bytes@, bytes_per_pixel(format) * (width as nat), 0) =~= data@);
        }
        return Ok((format, data));
    }
    let byte_count = bytes.len();
    proof {
        assert(bpp * width <= bpp * width * height) by (nonlinear_arith)
            requires height >= 1, bpp >= 0, width >= 0;
        assert(bpp * width * height == (bpp * width) * height) by (nonlinear_arith);
        assert(bpp * width <= byte_count);
    }
    let row_len: usize = bpp * (width as usize);
    let data = flip_rows(bytes, row_len, height as usize);
    Ok((format, data))
}


/// Number of bytes one pixel of a decoded image of color type `color` holds.
pub open spec fn image_bytes_per_pixel(color: ImageColorType) -> nat {
    match color {
        ImageColorType::L8 => 1,
        ImageColorType::La8 => 2,
        ImageColorType::Rgb8 => 3,
        ImageColorType::Rgba8 => 4,
        ImageColorType::L16 => 2,
        ImageColorType::La16 => 4,
        ImageColorType::Rgb16 => 6,
        ImageColorType::Rgba16 => 8,
        ImageColorType::Rgb32F => 12,
        ImageColorType::Rgba32F => 16,
    }
}

/// Which images are uploaded, for every color type: exactly 8-bit RGB,
/// 8-bit RGBA and 16-bit luminance images are accepted, each in a texture
/// format whose pixels are as large as the image's, so that the image's
/// bytes are uploaded unchanged in size; every other color type, 16-bit
/// RGB and RGBA included, is refused with that color type.
pub proof fn lemma_accepted_images_keep_their_pixels(color: ImageColorType)
    ensures
        format_of_color(color) is Ok <==> (color == ImageColorType::Rgb8 || color
            == ImageColorType::Rgba8 || color == ImageColorType::L16),
        format_of_color(color) matches Ok(f) ==> bytes_per_pixel(f) == image_bytes_per_pixel(
            color,
        ),
        format_of_color(color) matches Err(c) ==> c == color,
{
}


/// What turning an image upside down does, for every image of `height` rows
/// of `row_len` bytes: the result has the image's size, and its row `j` is
/// row `height - 1 - j` of the image, byte for byte.
pub proof fn lemma_rows_reversed_rows(bytes: Seq<u8>, row_len: nat, height: nat)
    ensures
        rows_reversed(bytes, row_len, height).len() == row_len * height,
        forall|j: int, k: int|
            0 <= j < height && 0 <= k < row_len ==> #[trigger] rows_reversed(
                bytes,
                row_len,
                height,
            )[j * row_len + k] == bytes[(height - 1 - j) * row_len + k],
{
    assert forall|j: int, k: int| 0 <= j < height && 0 <= k < row_len implies #[trigger] rows_reversed(
        bytes,
        row_len,
        height,
    )[j * row_len + k] == bytes[(height - 1 - j) * row_len + k] by {
        let idx = j * row_len + k;
        assert(0 <= idx < row_len * height) by (nonlinear_arith)
            requires
                idx == j * row_len + k,
                0 <= j < height,
                0 <= k < row_len,
        ;
        vstd::arithmetic::div_mod::lemma_fundamental_div_mod_converse(idx, row_len as int, j, k);
    }
}

} // verus!
