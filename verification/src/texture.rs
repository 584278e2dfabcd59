//! Plain-value description of the logo texture upload.
//!
//! The demo copies a decoded RGBA image into a freshly made texture. The
//! texture's descriptor and the copy's data layout are arithmetic on the
//! image's dimensions; the unverified shell passes the results to the GPU.

use vstd::prelude::*;
use crate::gpu::TextureUsage;

verus! {

/// Bytes per pixel of an RGBA image with one byte per channel.
pub const RGBA_PIXEL_BYTES: u32 = 4;

/// A texture's size in texels.
#[derive(Clone, Copy, Debug, PartialEq, Eq, Structural)]
pub struct Extent {
    /// Width in texels.
    pub width: u32,
    /// Height in texels.
    pub height: u32,
    /// Depth, or how many array layers: one for a flat image.
    pub depth_or_array_layers: u32,
}

/// The pixel formats the demo names.
#[derive(Clone, Copy, Debug, PartialEq, Eq, Structural)]
pub enum TextureFormat {
    /// Blue, green, red, alpha; one byte each; sRGB.
    Bgra8UnormSrgb,
}

/// The format of the logo texture.
pub fn logo_texture_format() -> (f: TextureFormat)
    ensures
        f == TextureFormat::Bgra8UnormSrgb,
{
    TextureFormat::Bgra8UnormSrgb
}

/// Everything the texture for a logo image is made with.
pub struct LogoTextureDesc {
    /// The texture's debug label.
    pub label: String,
    /// The texture's size: the image's, one layer deep.
    pub size: Extent,
    /// How many mip levels: the full image only.
    pub mip_level_count: u32,
    /// How many samples per texel: no multisampling.
    pub sample_count: u32,
    /// Whether the texture is two-dimensional: it is.
    pub two_dimensional: bool,
    /// The texture's pixel format.
    pub format: TextureFormat,
    /// What the texture may be used for: sampling, and receiving the copy.
    pub usage: TextureUsage,
}

/// Lays out the texture for a logo image of the given size.
pub fn logo_texture_desc(width: u32, height: u32) -> (d: LogoTextureDesc)
    ensures
        d.label@ == "conrod_rust_logo_texture"@,
        d.size == (Extent { width, height, depth_or_array_layers: 1u32 }),
        d.mip_level_count == 1,
        d.sample_count == 1,
        d.two_dimensional,
        d.format == TextureFormat::Bgra8UnormSrgb,
        d.usage == (TextureUsage { render_attachment: false, sampled: true, copy_dst: true }),
{
    LogoTextureDesc {
        label: "conrod_rust_logo_texture".to_owned(),
        size: Extent { width, height, depth_or_array_layers: 1 },
        mip_level_count: 1,
        sample_count: 1,
        two_dimensional: true,
        format: TextureFormat::Bgra8UnormSrgb,
        usage: TextureUsage { render_attachment: false, sampled: true, copy_dst: true },
    }
}

/// How the image's bytes lie in the copy: tightly packed rows of pixels.
/// A row pitch or row count of zero is left unsaid, as the copy call wants.
#[derive(Clone, Copy, Debug, PartialEq, Eq, Structural)]
pub struct UploadLayout {
    /// Where the pixel data starts in the buffer.
    pub offset: u64,
    /// Bytes from one row to the next, when there is a row.
    pub bytes_per_row: Option<u32>,
    /// Rows in one image, when there is a row.
    pub rows_per_image: Option<u32>,
}

/// Where the copy lands in the texture: the whole of its one mip level.
#[derive(Clone, Copy, Debug, PartialEq, Eq, Structural)]
pub struct CopyTarget {
    /// The mip level written: the first.
    pub mip_level: u32,
    /// The texel the copy starts at: the origin.
    pub origin_x: u32,
    /// See `origin_x`.
    pub origin_y: u32,
    /// See `origin_x`.
    pub origin_z: u32,
}

/// Lays out the copy of a logo image's bytes into its texture.
pub fn logo_upload_layout(width: u32, height: u32) -> (l: UploadLayout)
    requires
        RGBA_PIXEL_BYTES * width <= u32::MAX,
    ensures
        l.offset == 0,
        l.bytes_per_row == if width == 0 { Option::<u32>::None } else {
            Option::Some((RGBA_PIXEL_BYTES * width) as u32)
        },
        l.rows_per_image == if height == 0 { Option::<u32>::None } else { Option::Some(height) },
{
    let bytes_per_row: Option<u32> = if width == 0 {
        Option::None
    } else {
        Option::Some(RGBA_PIXEL_BYTES * width)
    };
    let rows_per_image: Option<u32> = if height == 0 {
        Option::None
    } else {
        Option::Some(height)
    };
    UploadLayout { offset: 0, bytes_per_row, rows_per_image }
}

/// Where the logo copy lands: the first mip level, starting at the origin.
pub fn logo_copy_target() -> (t: CopyTarget)
    ensures
        t == (CopyTarget { mip_level: 0u32, origin_x: 0u32, origin_y: 0u32, origin_z: 0u32 }),
{
    CopyTarget { mip_level: 0, origin_x: 0, origin_y: 0, origin_z: 0 }
}

/// How many bytes a logo image of the given size holds: four per pixel.
pub fn logo_data_len(width: u32, height: u32) -> (n: u128)
    ensures
        n == RGBA_PIXEL_BYTES * width * height,
{
    proof {
        assert((RGBA_PIXEL_BYTES as int) * width * height < u128::MAX) by (nonlinear_arith)
            requires
                width <= u32::MAX,
                height <= u32::MAX,
        ;
    }
    (RGBA_PIXEL_BYTES as u128) * (width as u128) * (height as u128)
}

} // verus!
