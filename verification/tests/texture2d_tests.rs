use typed_gpu::bind_group::{BindGroupData, TypedBindGroupGen, TypedBindGroupInit};
use typed_gpu::layout::{
    BindGroupLayoutEntry, BindingType, ImageDimension, SamplerBindingType, ShaderStages,
    StorageTextureAccess, TextureFormat, TextureSampleType, TextureViewDimension,
};
use typed_gpu::pixels::Pixels;
use typed_gpu::resource::{BindGroupEntry, BindingResource};
use typed_gpu::texture::{Extent3d, TextureUsages};
use typed_gpu::texture2d::{Tex2dFragBindGroup, Tex2dFragBindGroupInit, Texture2D};

fn fragment_layout() -> Vec<BindGroupLayoutEntry> {
    vec![
        BindGroupLayoutEntry {
            binding: 0,
            visibility: ShaderStages { vertex: false, fragment: true, compute: false },
            ty: BindingType::Texture {
                sample_type: TextureSampleType::Float { filterable: true },
                view_dimension: TextureViewDimension::D2,
                multisampled: false,
            },
            count: None,
        },
        BindGroupLayoutEntry {
            binding: 1,
            visibility: ShaderStages { vertex: false, fragment: true, compute: false },
            ty: BindingType::Sampler(SamplerBindingType::Filtering),
            count: None,
        },
    ]
}

#[test]
fn fragment_group_declares_a_texture_and_a_sampler() {
    assert_eq!(Tex2dFragBindGroupInit.label(), "texture2d_fragment:BindGroup");
    assert_eq!(Tex2dFragBindGroupInit.entries(), fragment_layout());
}

#[test]
fn layout_data_is_what_was_declared() {
    let data = BindGroupData::from_init(Tex2dFragBindGroupInit);
    assert_eq!(data.label(), "texture2d_fragment:BindGroup");
    assert_eq!(data.layout(), &fragment_layout());
}

#[test]
fn fragment_group_binds_the_view_and_the_sampler_of_a_texture() {
    let maker = Tex2dFragBindGroup::new(Tex2dFragBindGroupInit);
    assert_eq!(maker.layout(), &fragment_layout());
    let cat = Texture2D::create_uninit(31, "cat.jpg", false, (64, 48));
    let group = maker.create(&cat);
    assert_eq!(group.label, "cat.jpg");
    assert_eq!(group.layout, fragment_layout());
    assert_eq!(
        group.entries,
        vec![
            BindGroupEntry { binding: 0, resource: BindingResource::TextureView(31) },
            BindGroupEntry { binding: 1, resource: BindingResource::Sampler(31) },
        ]
    );
}

#[test]
fn texture_for_compute_may_be_stored_to() {
    let tex = Texture2D::create_uninit(1, "bufftex", true, (512, 512));
    assert_eq!(tex.id(), 1);
    assert_eq!(tex.label(), "bufftex");
    assert_eq!(tex.size(), Extent3d { width: 512, height: 512, depth_or_array_layers: 1 });
    let d = tex.texture_descriptor();
    assert_eq!(d.mip_level_count, 1);
    assert_eq!(d.sample_count, 1);
    assert_eq!(d.dimension, ImageDimension::D2);
    assert_eq!(d.format, TextureFormat::Rgba8Unorm);
    assert_eq!(
        d.usage,
        TextureUsages {
            copy_src: false,
            copy_dst: true,
            texture_binding: true,
            storage_binding: true,
            render_attachment: false,
        }
    );
}

#[test]
fn texture_not_for_compute_may_not_be_stored_to() {
    let tex = Texture2D::create_uninit(1, "cat", false, (4, 4));
    assert_eq!(
        tex.texture_descriptor().usage,
        TextureUsages {
            copy_src: false,
            copy_dst: true,
            texture_binding: true,
            storage_binding: false,
            render_attachment: false,
        }
    );
    assert_eq!(tex.sampler_descriptor(), Texture2D::create_uninit(2, "x", true, (1, 1)).sampler_descriptor());
}

#[test]
fn texture_made_from_pixels_is_uploaded_whole() {
    let img = Pixels::new(4, 2, vec![3u8; 32]).unwrap();
    let (tex, write) = Texture2D::create(5, &img, "cat", false);
    assert_eq!(tex.size(), Extent3d { width: 4, height: 2, depth_or_array_layers: 1 });
    assert_eq!(write, tex.write_image(&img));
    assert_eq!(write.texture, 5);
    assert_eq!(write.mip_level, 0);
    assert_eq!(write.layout.offset, 0);
    assert_eq!(write.layout.bytes_per_row, Some(16));
    assert_eq!(write.layout.rows_per_image, Some(2));
    assert_eq!(write.size, tex.size());
}

#[test]
fn texture_is_a_storage_texture_to_compute_shaders() {
    let tex = Texture2D::create_uninit(1, "bufftex", true, (512, 512));
    assert_eq!(
        tex.layout_entry_compute(1, StorageTextureAccess::WriteOnly),
        BindGroupLayoutEntry {
            binding: 1,
            visibility: ShaderStages { vertex: false, fragment: false, compute: true },
            ty: BindingType::StorageTexture {
                access: StorageTextureAccess::WriteOnly,
                format: TextureFormat::Rgba8Unorm,
                view_dimension: TextureViewDimension::D2,
            },
            count: None,
        }
    );
    assert_eq!(
        tex.bind_group_entry(1),
        BindGroupEntry { binding: 1, resource: BindingResource::TextureView(1) }
    );
}
