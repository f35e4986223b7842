use vstd::prelude::*;
use crate::color::{Color, white};

verus! {

/// The error type of the `image` crate.
#[verifier::external_type_specification]
#[verifier::external_body]
pub struct ExImageError(image::ImageError);

/// An image file format of the `image` crate.
#[verifier::external_type_specification]
#[verifier::external_body]
pub struct ExImageFormat(image::ImageFormat);

/// What the `image` crate decodes an image file's bytes into, read as
/// `format`: the width, the height and the RGBA bytes (four per pixel,
/// row-major), or nothing when it cannot decode the bytes in that format.
pub uninterp spec fn spec_decode_rgba(bytes: Seq<u8>, format: image::ImageFormat) -> Option<(u32, u32, Seq<u8>)>;

/// Decodes image bytes with `image::load_from_memory_with_format` (the
/// crate's default limits) and converts the image with `to_rgba8`, `width`,
/// `height` and `into_raw`.
/// Trusted: decoding is deterministic, so the result is the named function
/// of the bytes and the format; an error stands for there being no decoding;
/// a decoded RGBA buffer holds exactly four bytes per pixel (`to_rgba8`
/// builds a buffer of `width * height` pixels). What the pixels are is not
/// stated beyond the name.
#[verifier::external_body]
fn decode_rgba(bytes: &[u8], format: image::ImageFormat) -> (r: Result<(u32, u32, Vec<u8>), image::ImageError>)
    ensures
        match r {
            Ok((w, h, px)) => spec_decode_rgba(bytes@, format) == Some((w, h, px@))
                && px@.len() == 4 * (w * h),
            Err(_) => spec_decode_rgba(bytes@, format) is None,
        },
{
    let img = image::load_from_memory_with_format(bytes, format)?;
    Ok((img.width(), img.height(), img.to_rgba8().into_raw()))
}

/// Side length, in texels, of the procedural grid texture.
pub const GRID_SIZE: u32 = 64;

/// The colour of texel `(x, y)` of the procedural grid: a dark border two
/// texels wide, a dark cross four texels wide through the middle, and a
/// checkerboard of 16x16 squares in two aqua tones elsewhere.
pub open spec fn grid_color(x: int, y: int) -> Color {
    let is_border = x < 2 || x >= 62 || y < 2 || y >= 62;
    let is_cross = (30 <= x <= 33) || (30 <= y <= 33);
    let checker = ((x / 16) + (y / 16)) % 2 == 0;
    if is_border || is_cross {
        Color { r: 25, g: 90, b: 80 }
    } else if checker {
        Color { r: 60, g: 230, b: 205 }
    } else {
        Color { r: 40, g: 185, b: 165 }
    }
}

/// The texels of the grid in row-major order.
pub open spec fn grid_pixels() -> Seq<Color> {
    Seq::new(4096, |i: int| grid_color(i % 64, i / 64))
}

/// The colours of an RGBA byte buffer: one per complete group of four
/// bytes, the alpha byte dropped.
pub open spec fn rgba_colors(bytes: Seq<u8>) -> Seq<Color> {
    Seq::new(
        bytes.len() / 4,
        |i: int| Color { r: bytes[4 * i], g: bytes[4 * i + 1], b: bytes[4 * i + 2] },
    )
}

/// `v` held to the range `0..n`, for `n > 0`.
pub open spec fn clamp_below(v: u32, n: u32) -> int {
    if v < n { v as int } else { n - 1 }
}

/// An image in row-major order: texel `(x, y)` is `pixels[y * width + x]`.
#[derive(Debug, Clone)]
pub struct Texture {
    pub width: u32,
    pub height: u32,
    pub pixels: Vec<Color>,
}

impl Texture {
    /// A texture has nothing to sample when a dimension or the pixel list is empty.
    pub open spec fn is_blank(&self) -> bool {
        self.width == 0 || self.height == 0 || self.pixels@.len() == 0
    }

    /// The row-major index that sampling `(x, y)` reads, coordinates held to the image.
    pub open spec fn sample_index(&self, x: u32, y: u32) -> int {
        clamp_below(y, self.height) * self.width + clamp_below(x, self.width)
    }

    /// Sampling can compute its index: it fits in 32 bits.
    pub open spec fn can_sample(&self, x: u32, y: u32) -> bool {
        self.is_blank() || self.sample_index(x, y) <= u32::MAX
    }

    /// The colour that sampling texel `(x, y)` gives.
    pub open spec fn spec_texel(&self, x: u32, y: u32) -> Color {
        if self.is_blank() {
            white()
        } else if self.sample_index(x, y) < self.pixels@.len() {
            self.pixels@[self.sample_index(x, y)]
        } else {
            white()
        }
    }

    pub fn new(width: u32, height: u32, pixels: Vec<Color>) -> (t: Texture)
        ensures
            t.width == width,
            t.height == height,
            t.pixels@ == pixels@,
    {
        Texture { width, height, pixels }
    }

    /// A texture from decoded RGBA bytes (four per texel, row-major).
    pub fn from_rgba(width: u32, height: u32, rgba: &[u8]) -> (t: Texture)
        ensures
            t.width == width,
            t.height == height,
            t.pixels@ == rgba_colors(rgba@),
    {
        let n = rgba.len() / 4;
        let mut pixels: Vec<Color> = Vec::new();
        let mut i: usize = 0;
        while i < n
            invariant
                n == rgba@.len() / 4,
                i <= n,
                pixels@ =~= rgba_colors(rgba@).take(i as int),
            decreases n - i,
        {
            proof {
                vstd::arithmetic::div_mod::lemma_fundamental_div_mod(rgba@.len() as int, 4);
                assert(4 * i + 4 <= rgba.len());
            }
            let k = 4 * i;
            pixels.push(Color::new(rgba[k], rgba[k + 1], rgba[k + 2]));
            i = i + 1;
        }
        Texture { width, height, pixels }
    }

    /// A texture from the bytes of an image file in `format`: the decoded
    /// image's size, and its RGBA bytes as texels, one per pixel; the
    /// decoder's error when it cannot decode them.
    pub fn from_image_bytes(bytes: &[u8], format: image::ImageFormat) -> (r: Result<Texture, image::ImageError>)
        ensures
            match r {
                Ok(t) => spec_decode_rgba(bytes@, format) matches Some((w, h, px)) && t.width == w
                    && t.height == h && t.pixels@ == rgba_colors(px)
                    && t.pixels@.len() == w * h,
                Err(_) => spec_decode_rgba(bytes@, format) is None,
            },
    {
        match decode_rgba(bytes, format) {
            Ok((width, height, rgba)) => Ok(Texture::from_rgba(width, height, rgba.as_slice())),
            Err(e) => Err(e),
        }
    }

    /// The procedural 64x64 grid used when no texture file can be loaded.
    pub fn default_grid() -> (t: Texture)
        ensures
            t.width == GRID_SIZE,
            t.height == GRID_SIZE,
            t.pixels@ == grid_pixels(),
    {
        let width: u32 = GRID_SIZE;
        let height: u32 = GRID_SIZE;
        let mut pixels: Vec<Color> = Vec::new();
        let mut y: u32 = 0;
        while y < height
            invariant
                width == 64,
                height == 64,
                y <= 64,
                pixels@ =~= grid_pixels().take(64 * y),
            decreases 64 - y,
        {
            let mut x: u32 = 0;
            while x < width
                invariant
                    width == 64,
                    height == 64,
                    y < 64,
                    x <= 64,
                    pixels@ =~= grid_pixels().take(64 * y + x),
                decreases 64 - x,
            {
                let is_border = x < 2 || x >= width - 2 || y < 2 || y >= height - 2;
                let is_cross = (x >= 30 && x <= 33) || (y >= 30 && y <= 33);
                let checker = ((x / 16) + (y / 16)) % 2 == 0;
                let color = if is_border || is_cross {
                    Color::new(25, 90, 80)
                } else if checker {
                    Color::new(60, 230, 205)
                } else {
                    Color::new(40, 185, 165)
                };
                proof {
                    let k = 64 * y + x;
                    vstd::arithmetic::div_mod::lemma_fundamental_div_mod_converse(
                        k as int, 64, y as int, x as int);
                    assert(grid_pixels()[k as int] == color);
                }
                pixels.push(color);
                x = x + 1;
            }
            y = y + 1;
        }
        Texture { width, height, pixels }
    }

    /// The texel at `(x, y)`, each coordinate held to the last column or row.
    /// A blank texture, or an index past the pixel list, gives white.
    pub fn texel(&self, x: u32, y: u32) -> (c: Color)
        requires
            self.can_sample(x, y),
        ensures
            c == self.spec_texel(x, y),
    {
        if self.width == 0 || self.height == 0 || self.pixels.len() == 0 {
            return Color::new(255, 255, 255);
        }
        let xc: u32 = if x < self.width { x } else { self.width - 1 };
        let yc: u32 = if y < self.height { y } else { self.height - 1 };
        assert(yc * self.width + xc == self.sample_index(x, y));
        let index: u32 = yc * self.width + xc;
        if (index as usize) < self.pixels.len() {
            self.pixels[index as usize]
        } else {
            Color::new(255, 255, 255)
        }
    }
}

/// Sampling the procedural grid inside its 64x64 texels gives the grid's
/// pattern at that texel.
pub proof fn lemma_grid_sampling(t: Texture, x: u32, y: u32)
    requires
        t.width == GRID_SIZE,
        t.height == GRID_SIZE,
        t.pixels@ == grid_pixels(),
        x < GRID_SIZE,
        y < GRID_SIZE,
    ensures
        t.can_sample(x, y),
        t.spec_texel(x, y) == grid_color(x as int, y as int),
{
    let k = y * 64 + x;
    vstd::arithmetic::div_mod::lemma_fundamental_div_mod_converse(k as int, 64, y as int, x as int);
    assert(t.sample_index(x, y) == k);
}

/// Coordinates past the last column or row sample the texel on the edge.
pub proof fn lemma_sampling_clamps_to_edge(t: Texture, x: u32, y: u32)
    requires
        !t.is_blank(),
        t.can_sample(x, y),
    ensures
        t.spec_texel(x, y) == t.spec_texel(
            clamp_below(x, t.width) as u32,
            clamp_below(y, t.height) as u32,
        ),
{
}

/// A texture built from RGBA bytes for a `width` x `height` image gives back,
/// at each texel inside the image, the colour of that texel's four bytes
/// (where the texel's index fits in 32 bits, as sampling needs).
pub proof fn lemma_rgba_texel_round_trip(width: u32, height: u32, rgba: Seq<u8>, t: Texture, x: u32, y: u32)
    requires
        rgba.len() == 4 * (width * height),
        t.width == width,
        t.height == height,
        t.pixels@ == rgba_colors(rgba),
        x < width,
        y < height,
        t.can_sample(x, y),
    ensures
        t.spec_texel(x, y) == (Color {
            r: rgba[4 * (y * width + x)],
            g: rgba[4 * (y * width + x) + 1],
            b: rgba[4 * (y * width + x) + 2],
        }),
{
    let k = y * width + x;
    assert(0 <= k < width * height) by (nonlinear_arith)
        requires
            x < width,
            y < height,
            k == y * width + x,
    ;
    assert(rgba.len() / 4 == width * height);
    assert(t.sample_index(x, y) == k);
}

/// The dark colour of the grid's border and cross.
pub open spec fn grid_dark() -> Color {
    Color { r: 25, g: 90, b: 80 }
}

/// The procedural grid, sampled inside its 64x64 texels:
/// - every texel within two texels of an edge is dark (the border);
/// - every texel in columns or rows 30 to 33 is dark (the cross);
/// - the grid looks the same mirrored across its diagonal and turned half
///   a turn;
/// - the checker squares on the diagonal are the light tone, and every
///   texel is dark, light or mid tone;
/// - two texels 16 columns apart, neither on the border or the cross, lie in
///   neighbouring checker squares and differ.
pub proof fn lemma_grid_shape(t: Texture, x: u32, y: u32)
    requires
        t.width == GRID_SIZE,
        t.height == GRID_SIZE,
        t.pixels@ == grid_pixels(),
        x < GRID_SIZE,
        y < GRID_SIZE,
    ensures
        (x < 2 || x >= 62 || y < 2 || y >= 62) ==> t.spec_texel(x, y) == grid_dark(),
        (30 <= x <= 33 || 30 <= y <= 33) ==> t.spec_texel(x, y) == grid_dark(),
        t.spec_texel(x, y) == t.spec_texel(y, x),
        t.spec_texel(x, y) == t.spec_texel((63 - x) as u32, (63 - y) as u32),
        (2 <= x < 62 && 2 <= y < 62 && !(30 <= x <= 33) && !(30 <= y <= 33) && x / 16 == y / 16)
            ==> t.spec_texel(x, y) == (Color { r: 60, g: 230, b: 205 }),
        t.spec_texel(x, y) == grid_dark() || t.spec_texel(x, y) == (Color { r: 60, g: 230, b: 205 })
            || t.spec_texel(x, y) == (Color { r: 40, g: 185, b: 165 }),
        (2 <= x && x + 16 < 62 && 2 <= y < 62 && !(30 <= y <= 33) && !(30 <= x <= 33)
            && !(30 <= x + 16 <= 33)) ==> t.spec_texel(x, y) != t.spec_texel((x + 16) as u32, y),
{
    lemma_grid_sampling(t, x, y);
    lemma_grid_sampling(t, y, x);
    lemma_grid_sampling(t, (63 - x) as u32, (63 - y) as u32);
    if x + 16 < 64 {
        lemma_grid_sampling(t, (x + 16) as u32, y);
    }
    assert((63 - x) / 16 == 3 - x / 16);
    assert((63 - y) / 16 == 3 - y / 16);
    assert((x + 16) / 16 == x / 16 + 1);
}

/// Sampling, spelled out: a blank texture gives white; inside the image the
/// texel at `(x, y)` is `pixels[y * width + x]` (white past the pixel list);
/// a column or row past the image samples the last column or row.
pub proof fn lemma_texel_addressing(t: Texture, x: u32, y: u32)
    requires
        t.can_sample(x, y),
    ensures
        t.width == 0 || t.height == 0 || t.pixels@.len() == 0 ==> t.spec_texel(x, y) == (Color {
            r: 255,
            g: 255,
            b: 255,
        }),
        t.pixels@.len() > 0 && x < t.width && y < t.height && y * t.width + x < t.pixels@.len()
            ==> t.spec_texel(x, y) == t.pixels@[y * t.width + x],
        t.pixels@.len() > 0 && x < t.width && y < t.height && y * t.width + x >= t.pixels@.len()
            ==> t.spec_texel(x, y) == (Color { r: 255, g: 255, b: 255 }),
        t.pixels@.len() > 0 && t.height > 0 && x >= t.width && t.width > 0 ==> t.can_sample(
            (t.width - 1) as u32,
            y,
        ) && t.spec_texel(x, y) == t.spec_texel((t.width - 1) as u32, y),
        t.pixels@.len() > 0 && t.width > 0 && y >= t.height && t.height > 0 ==> t.can_sample(
            x,
            (t.height - 1) as u32,
        ) && t.spec_texel(x, y) == t.spec_texel(x, (t.height - 1) as u32),
{
}

} // verus!
