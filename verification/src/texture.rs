use vstd::prelude::*;
use crate::texture_format::TextureFormat;

verus! {

/// Width, height and layer count of a texture.
#[derive(Clone, Copy, Debug, PartialEq, Eq, Structural)]
pub struct Extent3d {
    pub width: u32,
    pub height: u32,
    pub depth_or_array_layers: u32,
}

/// Dimensionality of a texture.
#[derive(Clone, Copy, Debug, PartialEq, Eq, Structural)]
pub enum TextureDimension {
    D1,
    D2,
    D3,
}

/// The ways a texture may be used.
#[derive(Clone, Copy, Debug, PartialEq, Eq, Structural)]
pub struct TextureUsages {
    pub texture_binding: bool,
    pub copy_dst: bool,
    pub render_attachment: bool,
}

/// Everything the device needs to create a texture.
#[derive(Debug)]
pub struct TextureDesc {
    pub label: String,
    pub size: Extent3d,
    pub mip_level_count: u32,
    pub sample_count: u32,
    pub dimension: TextureDimension,
    pub format: TextureFormat,
    pub usage: TextureUsages,
}

/// A default view over a whole texture: same format, same extent.
#[derive(Clone, Copy, Debug, PartialEq, Eq, Structural)]
pub struct TextureViewDesc {
    pub format: TextureFormat,
    pub size: Extent3d,
}

/// How the bytes of one texture write are laid out: tightly packed rows of
/// four-byte RGBA pixels.
#[derive(Clone, Copy, Debug, PartialEq, Eq, Structural)]
pub struct TexelLayout {
    pub offset: u64,
    pub bytes_per_row: u32,
    pub rows_per_image: u32,
}

/// How sampling beyond a texture edge wraps.
#[derive(Clone, Copy, Debug, PartialEq, Eq, Structural)]
pub enum AddressMode {
    ClampToEdge,
    Repeat,
    MirrorRepeat,
}

/// Texel filtering when minifying or magnifying.
#[derive(Clone, Copy, Debug, PartialEq, Eq, Structural)]
pub enum FilterMode {
    Nearest,
    Linear,
}

/// Everything the device needs to create a sampler.
#[derive(Clone, Copy, Debug, PartialEq, Eq, Structural)]
pub struct SamplerDesc {
    pub address_mode_u: AddressMode,
    pub address_mode_v: AddressMode,
    pub address_mode_w: AddressMode,
    pub mag_filter: FilterMode,
    pub min_filter: FilterMode,
}

} // verus!
