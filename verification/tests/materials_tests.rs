use std::io::Cursor;

use fuji_engine::bind_group::BindingResource;
use fuji_engine::bind_group_layout::Builder;
use fuji_engine::materials::{ImageData, Material};
use fuji_engine::texture::{AddressMode, Extent3d, FilterMode, TextureDimension};
use fuji_engine::texture_format::TextureFormat;

fn material_layout() -> fuji_engine::bind_group_layout::BindGroupLayoutDesc {
    let mut builder = Builder::new();
    builder.add_material();
    builder.build("material layout")
}

fn png_bytes(width: u32, height: u32) -> Vec<u8> {
    let mut img = image::RgbaImage::new(width, height);
    for y in 0..height {
        for x in 0..width {
            img.put_pixel(x, y, image::Rgba([x as u8, y as u8, 7, 255]));
        }
    }
    let mut bytes = Vec::new();
    img.write_to(&mut Cursor::new(&mut bytes), image::ImageFormat::Png)
        .expect("encoding a png in memory cannot fail");
    bytes
}

#[test]
fn decode_reads_dimensions_and_pixels() {
    let bytes = png_bytes(2, 3);
    let data = ImageData::decode(&bytes).expect("a valid png decodes");
    assert_eq!(data.width, 2);
    assert_eq!(data.height, 3);
    assert_eq!(data.pixels.len(), 2 * 3 * 4);
    // The pixel at (1, 2) was written as [1, 2, 7, 255]; rows are tightly
    // packed, so it starts at byte (2 * 2 + 1) * 4.
    let at = (2 * 2 + 1) * 4;
    assert_eq!(&data.pixels[at..at + 4], &[1, 2, 7, 255]);
}

#[test]
fn decode_is_a_function_of_the_bytes() {
    let bytes = png_bytes(3, 2);
    let first = ImageData::decode(&bytes).expect("a valid png decodes");
    let second = ImageData::decode(&bytes).expect("the same bytes decode again");
    assert_eq!(first.width, second.width);
    assert_eq!(first.height, second.height);
    assert_eq!(first.pixels, second.pixels);
}

#[test]
fn texel_layout_covers_the_image_rows() {
    let bytes = png_bytes(5, 4);
    let data = ImageData::decode(&bytes).expect("a valid png decodes");
    let layout = data.texel_layout();
    assert_eq!(layout.offset, 0);
    assert_eq!(layout.bytes_per_row, 20);
    assert_eq!(layout.rows_per_image, 4);
    assert_eq!(
        layout.bytes_per_row as usize * layout.rows_per_image as usize,
        data.pixels.len()
    );
}

#[test]
fn decode_rejects_garbage() {
    let bytes = vec![0u8, 1, 2, 3, 4, 5, 6, 7];
    let r = ImageData::decode(&bytes);
    assert!(r.is_err());
    assert!(!r.err().unwrap().message.is_empty());
}

#[test]
fn material_from_valid_image_sizes_texture_exactly() {
    let bytes = png_bytes(5, 4);
    let data = ImageData::decode(&bytes).expect("a valid png decodes");
    let layout = material_layout();
    let m = Material::from_rgba("checker", data, &layout);

    assert_eq!(
        m.texture.size,
        Extent3d { width: 5, height: 4, depth_or_array_layers: 1 }
    );
    assert_eq!(m.texture.mip_level_count, 1);
    assert_eq!(m.texture.sample_count, 1);
    assert_eq!(m.texture.dimension, TextureDimension::D2);
    assert_eq!(m.texture.format, TextureFormat::Rgba8Unorm);
    assert!(m.texture.usage.texture_binding);
    assert!(m.texture.usage.copy_dst);
    assert!(!m.texture.usage.render_attachment);

    assert_eq!(m.bind_group.entries.len(), 2);
    assert!(matches!(m.bind_group.entries[0].resource, BindingResource::TextureView(_)));
    assert!(matches!(m.bind_group.entries[1].resource, BindingResource::Sampler(_)));
    assert_eq!(m.bind_group.entries[0].binding, 0);
    assert_eq!(m.bind_group.entries[1].binding, 1);

    assert_eq!(m.sampler.address_mode_u, AddressMode::Repeat);
    assert_eq!(m.sampler.address_mode_v, AddressMode::Repeat);
    assert_eq!(m.sampler.address_mode_w, AddressMode::Repeat);
    assert_eq!(m.sampler.min_filter, FilterMode::Nearest);
    assert_eq!(m.sampler.mag_filter, FilterMode::Linear);

    assert_eq!(m.view.size.width, 5);
    assert_eq!(m.view.size.height, 4);
}

#[test]
fn material_from_missing_file_fails_with_load_error() {
    let layout = material_layout();
    let r = Material::new("no-such-directory/no-such-image.png", &layout);
    match r {
        Ok(_) => panic!("loading a missing file must fail"),
        Err(e) => assert!(e.message().contains("no-such-image.png")),
    }
}
