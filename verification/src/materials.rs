use vstd::prelude::*;
use vstd::string::StringExecFns;
use crate::bind_group::{self, BindGroupDesc, BindGroupEntry, BindingResource};
use crate::bind_group_layout::{bgl_eq, copy_bgl, BindGroupLayoutDesc};
use crate::texture::{
    AddressMode, Extent3d, FilterMode, SamplerDesc, TexelLayout, TextureDesc, TextureDimension,
    TextureUsages, TextureViewDesc,
};
use crate::texture_format::TextureFormat;

verus! {

/// A decoded image, 8-bit RGBA: four bytes per pixel, rows tightly packed.
#[derive(Debug)]
pub struct ImageData {
    pub width: u32,
    pub height: u32,
    pub pixels: Vec<u8>,
}

/// What decoding an in-memory image file to 8-bit RGBA yields: `None` when
/// the bytes are not a decodable image, otherwise the width, height and
/// RGBA pixel bytes. The decoding is a function of the bytes alone.
pub uninterp spec fn rgba_decoding_of(bytes: Seq<u8>) -> Option<(u32, u32, Seq<u8>)>;

impl ImageData {
    /// The pixel buffer holds exactly four bytes per pixel.
    pub open spec fn wf(self) -> bool {
        self.pixels@.len() == 4 * self.width * self.height
    }

    /// Decodes an in-memory image file to 8-bit RGBA: succeeds exactly when
    /// the bytes decode, and then returns that decoding.
    pub fn decode(bytes: &Vec<u8>) -> (r: Result<ImageData, LoadError>)
        ensures
            r is Ok <==> rgba_decoding_of(bytes@) is Some,
            r matches Ok(d) ==> rgba_decoding_of(bytes@) == Some((d.width, d.height, d.pixels@))
                && d.wf(),
    {
        decode_image_rgba(bytes)
    }

    /// Reads and decodes an image file to 8-bit RGBA.
    pub fn load(path: &str) -> (r: Result<ImageData, LoadError>)
        ensures
            r matches Ok(d) ==> d.wf(),
    {
        open_image_rgba(path)
    }

    /// How this image's pixels are laid out for one texture write: from
    /// byte zero, four bytes per pixel per row, one image of all rows.
    pub fn texel_layout(&self) -> (r: TexelLayout)
        requires
            4 * self.width <= u32::MAX,
        ensures
            r.offset == 0,
            r.bytes_per_row == 4 * self.width,
            r.rows_per_image == self.height,
    {
        TexelLayout { offset: 0, bytes_per_row: 4 * self.width, rows_per_image: self.height }
    }
}

/// A file could not be read or decoded as an image; the message names the
/// failing path and step.
#[derive(Debug)]
pub struct LoadError {
    pub message: String,
}

impl LoadError {
    /// The human-readable context of the failure.
    pub fn message(&self) -> (r: &String)
        ensures
            r@ == self.message@,
    {
        &self.message
    }
}

/// Relies on image::open, which reads the file at the path and decodes it,
/// and on DynamicImage::to_rgba8 with ImageBuffer::{width, height,
/// into_raw}: the returned RGBA buffer holds exactly four bytes for each of
/// its width times height pixels. What the file holds decides success, so
/// nothing more is claimed.
#[verifier::external_body]
fn open_image_rgba(path: &str) -> (r: Result<ImageData, LoadError>)
    ensures
        r matches Ok(d) ==> d.wf(),
{
    match image::open(path) {
        Ok(img) => {
            let rgba = img.to_rgba8();
            let (width, height) = (rgba.width(), rgba.height());
            Ok(ImageData { width, height, pixels: rgba.into_raw() })
        },
        Err(e) => Err(LoadError { message: format!("failed to load image {path}: {e}") }),
    }
}

/// Relies on image::load_from_memory, which decodes an image file held in
/// bytes, and on DynamicImage::to_rgba8 with ImageBuffer::{width, height,
/// into_raw}: the result is a function of the bytes alone, named
/// `rgba_decoding_of`; it succeeds exactly when the bytes decode, and the
/// returned RGBA buffer holds exactly four bytes for each of its width
/// times height pixels.
#[verifier::external_body]
fn decode_image_rgba(bytes: &Vec<u8>) -> (r: Result<ImageData, LoadError>)
    ensures
        r is Ok <==> rgba_decoding_of(bytes@) is Some,
        r matches Ok(d) ==> rgba_decoding_of(bytes@) == Some((d.width, d.height, d.pixels@))
            && d.wf(),
{
    match image::load_from_memory(bytes.as_slice()) {
        Ok(img) => {
            let rgba = img.to_rgba8();
            let (width, height) = (rgba.width(), rgba.height());
            Ok(ImageData { width, height, pixels: rgba.into_raw() })
        },
        Err(e) => Err(LoadError { message: format!("failed to decode image: {e}") }),
    }
}

/// The sampler every material uses: repeat addressing on all axes, nearest
/// minification, linear magnification.
pub open spec fn material_sampler() -> SamplerDesc {
    SamplerDesc {
        address_mode_u: AddressMode::Repeat,
        address_mode_v: AddressMode::Repeat,
        address_mode_w: AddressMode::Repeat,
        mag_filter: FilterMode::Linear,
        min_filter: FilterMode::Nearest,
    }
}

/// The usage every material texture is created with: bound by shaders and
/// written once from the queue.
pub open spec fn material_texture_usage() -> TextureUsages {
    TextureUsages { texture_binding: true, copy_dst: true, render_attachment: false }
}

/// A material texture is the 2-D, one-mip, single-sample RGBA texture of
/// exactly the image's pixel dimensions.
pub open spec fn texture_matches(t: TextureDesc, label: Seq<char>, width: u32, height: u32) -> bool {
    &&& t.label@ == label
    &&& t.size == (Extent3d { width, height, depth_or_array_layers: 1 })
    &&& t.mip_level_count == 1
    &&& t.sample_count == 1
    &&& t.dimension == TextureDimension::D2
    &&& t.format == TextureFormat::Rgba8Unorm
    &&& t.usage == material_texture_usage()
}

/// The default view of a material texture.
pub open spec fn material_view(width: u32, height: u32) -> TextureViewDesc {
    TextureViewDesc {
        format: TextureFormat::Rgba8Unorm,
        size: Extent3d { width, height, depth_or_array_layers: 1 },
    }
}

/// One surface appearance: a texture holding one decoded image, its default
/// view, its sampler, and the bind group binding view then sampler.
#[derive(Debug)]
pub struct Material {
    pub label: String,
    pub image: ImageData,
    pub texture: TextureDesc,
    pub view: TextureViewDesc,
    pub sampler: SamplerDesc,
    pub bind_group: BindGroupDesc,
}

impl Material {
    /// The material's resources all describe its own image: the texture is
    /// sized exactly to the image, the view covers it, the sampler is the
    /// material sampler, and the bind group holds exactly two entries, the
    /// texture view at binding 0 and the sampler at binding 1.
    pub open spec fn wf(self) -> bool {
        &&& self.image.wf()
        &&& texture_matches(self.texture, self.label@, self.image.width, self.image.height)
        &&& self.view == material_view(self.image.width, self.image.height)
        &&& self.sampler == material_sampler()
        &&& self.bind_group.label@ == self.label@
        &&& self.bind_group.entries@ == seq![
            BindGroupEntry { binding: 0, resource: BindingResource::TextureView(self.view) },
            BindGroupEntry { binding: 1, resource: BindingResource::Sampler(self.sampler) },
        ]
    }

    /// Builds a material from an already decoded image: a texture of
    /// exactly the image's dimensions, its default view, the material
    /// sampler, and a bind group of two entries against the given layout.
    pub fn from_rgba(label: &str, image: ImageData, layout: &BindGroupLayoutDesc) -> (m: Material)
        requires
            image.wf(),
        ensures
            m.wf(),
            m.label@ == label@,
            m.image == image,
            bgl_eq(m.bind_group.layout, *layout),
    {
        let texture = TextureDesc {
            label: String::from_str(label),
            size: Extent3d { width: image.width, height: image.height, depth_or_array_layers: 1 },
            mip_level_count: 1,
            sample_count: 1,
            dimension: TextureDimension::D2,
            format: TextureFormat::Rgba8Unorm,
            usage: TextureUsages { texture_binding: true, copy_dst: true, render_attachment: false },
        };
        let view = TextureViewDesc {
            format: TextureFormat::Rgba8Unorm,
            size: Extent3d { width: image.width, height: image.height, depth_or_array_layers: 1 },
        };
        let sampler = SamplerDesc {
            address_mode_u: AddressMode::Repeat,
            address_mode_v: AddressMode::Repeat,
            address_mode_w: AddressMode::Repeat,
            mag_filter: FilterMode::Linear,
            min_filter: FilterMode::Nearest,
        };
        let mut builder = bind_group::Builder::new();
        builder.set_layout(copy_bgl(layout));
        builder.add_material(view, sampler);
        let bind_group = builder.build(label);
        proof {
            assert(bind_group.entries@ =~= seq![
                BindGroupEntry { binding: 0, resource: BindingResource::TextureView(view) },
                BindGroupEntry { binding: 1, resource: BindingResource::Sampler(sampler) },
            ]);
        }
        Material { label: String::from_str(label), image, texture, view, sampler, bind_group }
    }

    /// Loads a material from an image file: fails with a load error when
    /// the file is missing or cannot be decoded, and then constructs no
    /// resources; otherwise builds the material from the decoded pixels
    /// against the given layout, labelled with the file name.
    pub fn new(filename: &str, layout: &BindGroupLayoutDesc) -> (r: Result<Material, LoadError>)
        ensures
            r matches Ok(m) ==> m.wf() && m.label@ == filename@ && bgl_eq(
                m.bind_group.layout,
                *layout,
            ),
    {
        match open_image_rgba(filename) {
            Ok(img) => Ok(Material::from_rgba(filename, img, layout)),
            Err(e) => Err(e),
        }
    }
}

} // verus!
