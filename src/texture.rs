use vstd::prelude::*;

verus! {

/// Largest width or height that a texture upload accepts (its size parameters are `i32`).
pub const MAX_TEXTURE_SIDE: usize = 0x7fff_ffff;

/// Largest encoded image that the decoder is handed (it takes the length as a C `int`).
pub const MAX_ENCODED_BYTES: usize = 0x7fff_ffff;

/// What the image decoder makes of `bytes` when asked for `depth` channels per pixel:
/// width, height and pixel bytes, or nothing when it cannot decode them.
pub uninterp spec fn stb_decoded(bytes: Seq<u8>, depth: usize) -> Option<(usize, usize, Seq<u8>)>;

/// Pixels as the decoder hands them out, row by row, `depth` bytes per pixel.
pub struct DecodedImage {
    pub width: usize,
    pub height: usize,
    pub data: Vec<u8>,
}

/// Relies on stb_image::image::load_from_memory_with_depth with HDR conversion on:
/// it yields 8-bit pixels with exactly `depth` channels each, or an error.
#[verifier::external_body]
fn decode_with_depth(bytes: &[u8], depth: usize) -> (r: Option<DecodedImage>)
    requires
        1 <= depth <= 4,
        bytes@.len() <= MAX_ENCODED_BYTES,
    ensures
        match r {
            Some(img) => stb_decoded(bytes@, depth) == Some((img.width, img.height, img.data@))
                && img.data@.len() == img.width * img.height * depth,
            None => stb_decoded(bytes@, depth) is None,
        },
{
    match stb_image::image::load_from_memory_with_depth(bytes, depth, true) {
        stb_image::image::LoadResult::ImageU8(img) => Some(
            DecodedImage { width: img.width, height: img.height, data: img.data },
        ),
        stb_image::image::LoadResult::ImageF32(_) => None,
        stb_image::image::LoadResult::Error(_) => None,
    }
}

#[derive(Clone, Copy, Debug, PartialEq, Eq, Structural)]
pub enum PixelFormat {
    Rgb,
    Rgba,
}

pub open spec fn depth_of(f: PixelFormat) -> usize {
    match f {
        PixelFormat::Rgb => 3,
        PixelFormat::Rgba => 4,
    }
}

impl PixelFormat {
    /// Bytes per pixel.
    pub fn depth(self) -> (r: usize)
        ensures
            r == depth_of(self),
    {
        match self {
            PixelFormat::Rgb => 3,
            PixelFormat::Rgba => 4,
        }
    }
}

#[derive(Clone, Copy, Debug, PartialEq, Eq, Structural)]
pub enum Wrap {
    ClampToEdge,
}

#[derive(Clone, Copy, Debug, PartialEq, Eq, Structural)]
pub enum Filter {
    Linear,
}

/// How a texture is sampled.
#[derive(Clone, Copy, Debug, PartialEq, Eq, Structural)]
pub struct Sampling {
    pub wrap_s: Wrap,
    pub wrap_t: Wrap,
    pub min_filter: Filter,
    pub mag_filter: Filter,
}

/// Every texture clamps at its edges and filters linearly both ways.
pub fn sampling() -> (r: Sampling)
    ensures
        r == (Sampling {
            wrap_s: Wrap::ClampToEdge,
            wrap_t: Wrap::ClampToEdge,
            min_filter: Filter::Linear,
            mag_filter: Filter::Linear,
        }),
{
    Sampling {
        wrap_s: Wrap::ClampToEdge,
        wrap_t: Wrap::ClampToEdge,
        min_filter: Filter::Linear,
        mag_filter: Filter::Linear,
    }
}

#[derive(Clone, Copy, Debug, PartialEq, Eq, Structural)]
pub enum TextureError {
    /// The image could not be decoded (missing, corrupt or unsupported).
    DecodeFailed,
    /// The encoded image or a side of the decoded one is too large to hand on.
    TooLarge,
    /// The decoded pixels are not width times height pixels of the requested depth.
    SizeMismatch,
}

/// Decoded pixels ready for upload: `width * height` pixels of `format`.
pub struct TextureImage {
    pub width: i32,
    pub height: i32,
    pub format: PixelFormat,
    pub data: Vec<u8>,
}

/// What a texture becomes from a decode outcome `d` in `format`.
pub open spec fn texture_outcome(d: Option<(usize, usize, Seq<u8>)>, format: PixelFormat) -> Result<
    (i32, i32, Seq<u8>),
    TextureError,
> {
    match d {
        None => Err(TextureError::DecodeFailed),
        Some((w, h, data)) => if w > MAX_TEXTURE_SIDE || h > MAX_TEXTURE_SIDE {
            Err(TextureError::TooLarge)
        } else if data.len() != w * h * depth_of(format) {
            Err(TextureError::SizeMismatch)
        } else {
            Ok((w as i32, h as i32, data))
        },
    }
}

pub open spec fn matches_outcome(
    r: Result<TextureImage, TextureError>,
    o: Result<(i32, i32, Seq<u8>), TextureError>,
    format: PixelFormat,
) -> bool {
    match (r, o) {
        (Ok(t), Ok((w, h, data))) => t.width == w && t.height == h && t.data@ == data && t.format
            == format,
        (Err(e), Err(f)) => e == f,
        _ => false,
    }
}

/// Checks a decode outcome and turns it into an uploadable texture.
pub fn texture_from_decoded(decoded: Option<DecodedImage>, format: PixelFormat) -> (r: Result<
    TextureImage,
    TextureError,
>)
    ensures
        matches_outcome(
            r,
            texture_outcome(
                match decoded {
                    Some(img) => Some((img.width, img.height, img.data@)),
                    None => None,
                },
                format,
            ),
            format,
        ),
{
    match decoded {
        None => Err(TextureError::DecodeFailed),
        Some(img) => {
            if img.width > MAX_TEXTURE_SIDE || img.height > MAX_TEXTURE_SIDE {
                return Err(TextureError::TooLarge);
            }
            let depth = format.depth();
            proof {
                assert(img.width * img.height <= 0x7fff_ffff * 0x7fff_ffff) by (nonlinear_arith)
                    requires
                        img.width <= MAX_TEXTURE_SIDE,
                        img.height <= MAX_TEXTURE_SIDE,
                ;
            }
            let pixels = img.width as u64 * img.height as u64;
            let len = img.data.len();
            if len as u64 / depth as u64 != pixels || len % depth != 0 {
                proof {
                    let d = depth as int;
                    let l = len as int;
                    assert(l != pixels * d) by (nonlinear_arith)
                        requires
                            l / d != pixels as int || l % d != 0,
                            d > 0,
                    ;
                }
                return Err(TextureError::SizeMismatch);
            }
            proof {
                let d = depth as int;
                let l = len as int;
                assert(l == pixels * d) by (nonlinear_arith)
                    requires
                        l / d == pixels as int && l % d == 0,
                        d > 0,
                ;
            }
            Ok(
                TextureImage {
                    width: img.width as i32,
                    height: img.height as i32,
                    format,
                    data: img.data,
                },
            )
        },
    }
}

/// Decodes an encoded image (PNG, JPEG, ...) into a texture of `format`.
/// A failed decode is `DecodeFailed`; the texture then does not exist.
pub fn decode_texture(bytes: &[u8], format: PixelFormat) -> (r: Result<TextureImage, TextureError>)
    ensures
        bytes@.len() > MAX_ENCODED_BYTES ==> r == Err::<TextureImage, TextureError>(
            TextureError::TooLarge,
        ),
        bytes@.len() <= MAX_ENCODED_BYTES ==> matches_outcome(
            r,
            texture_outcome(stb_decoded(bytes@, depth_of(format)), format),
            format,
        ),
{
    if bytes.len() > MAX_ENCODED_BYTES {
        return Err(TextureError::TooLarge);
    }
    let decoded = decode_with_depth(bytes, format.depth());
    texture_from_decoded(decoded, format)
}

} // verus!
