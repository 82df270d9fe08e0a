//! Two-dimensional textures, and the bind group that offers one to a fragment shader.

use vstd::prelude::*;
use crate::bind_group::{BindGroupData, TypedBindGroupGenInner, TypedBindGroupInit};
use crate::layout::{
    BindGroupLayoutEntry, BindingType, ImageDimension, SamplerBindingType, ShaderStages,
    StorageTextureAccess, TextureFormat, TextureSampleType, TextureViewDimension,
};
use crate::pixels::Pixels;
use crate::resource::{BindGroupEntry, BindingResource};
use crate::texture::{
    default_sampler, AddressMode, Extent3d, FilterMode, ImageDataLayout, Origin3d,
    SamplerDescriptor, TextureDescriptor, TextureUsages, TextureWrite,
};

verus! {

/// The declaration of the bind group that offers a texture and its sampler to a
/// fragment shader.
#[derive(Debug, Clone, Copy)]
pub struct Tex2dFragBindGroupInit;

/// The entries of the layout of that bind group: a filterable two-dimensional texture
/// at slot 0 and a filtering sampler at slot 1, both read by the fragment stage alone.
pub open spec fn tex2d_frag_entries() -> Seq<BindGroupLayoutEntry> {
    seq![
        BindGroupLayoutEntry {
            binding: 0,
            visibility: ShaderStages { vertex: false, fragment: true, compute: false },
            ty: BindingType::Texture {
                sample_type: TextureSampleType::Float { filterable: true },
                view_dimension: TextureViewDimension::D2,
                multisampled: false,
            },
            count: None,
        },
        BindGroupLayoutEntry {
            binding: 1,
            visibility: ShaderStages { vertex: false, fragment: true, compute: false },
            ty: BindingType::Sampler(SamplerBindingType::Filtering),
            count: None,
        },
    ]
}

impl TypedBindGroupInit for Tex2dFragBindGroupInit {
    open spec fn spec_label(&self) -> Seq<char> {
        "texture2d_fragment:BindGroup"@
    }

    open spec fn spec_entries(&self) -> Seq<BindGroupLayoutEntry> {
        tex2d_frag_entries()
    }

    fn label(&self) -> (label: &'static str) {
        "texture2d_fragment:BindGroup"
    }

    fn entries(&self) -> (entries: Vec<BindGroupLayoutEntry>) {
        let mut entries: Vec<BindGroupLayoutEntry> = Vec::new();
        entries.push(
            BindGroupLayoutEntry {
                binding: 0,
                visibility: ShaderStages::fragment(),
                ty: BindingType::Texture {
                    sample_type: TextureSampleType::Float { filterable: true },
                    view_dimension: TextureViewDimension::D2,
                    multisampled: false,
                },
                count: None,
            },
        );
        entries.push(
            BindGroupLayoutEntry {
                binding: 1,
                visibility: ShaderStages::fragment(),
                ty: BindingType::Sampler(SamplerBindingType::Filtering),
                count: None,
            },
        );
        assert(entries@ =~= tex2d_frag_entries());
        entries
    }
}

/// A two-dimensional image with its sampler and its default view.
pub struct Texture2D {
    id: u64,
    label: String,
    size: Extent3d,
    for_compute: bool,
}

/// The maker of bind groups that offer a `Texture2D` to a fragment shader.
pub struct Tex2dFragBindGroup(BindGroupData);

impl TypedBindGroupGenInner<Tex2dFragBindGroupInit, Texture2D> for Tex2dFragBindGroup {
    closed spec fn spec_bind_group_data(&self) -> BindGroupData {
        self.0
    }

    open spec fn spec_label(data: &Texture2D) -> Seq<char> {
        data.spec_label()
    }

    open spec fn spec_entries_from_data(&self, data: &Texture2D) -> Seq<BindGroupEntry> {
        seq![
            BindGroupEntry { binding: 0, resource: BindingResource::TextureView(data.spec_id()) },
            BindGroupEntry { binding: 1, resource: BindingResource::Sampler(data.spec_id()) },
        ]
    }

    fn from_bind_group_data(_init: Tex2dFragBindGroupInit, data: BindGroupData) -> (maker: Self) {
        Tex2dFragBindGroup(data)
    }

    fn bind_group_data(&self) -> (data: &BindGroupData) {
        &self.0
    }

    fn entries_from_data(&self, data: &Texture2D) -> (entries: Vec<BindGroupEntry>) {
        let mut entries: Vec<BindGroupEntry> = Vec::new();
        entries.push(
            BindGroupEntry { binding: 0, resource: BindingResource::TextureView(data.id()) },
        );
        entries.push(BindGroupEntry { binding: 1, resource: BindingResource::Sampler(data.id()) });
        assert(entries@ =~= self.spec_entries_from_data(data));
        entries
    }

    fn label(data: &Texture2D) -> (label: &str) {
        data.label()
    }
}

impl Texture2D {
    /// The name under which the backend image is known.
    pub closed spec fn spec_id(&self) -> u64 {
        self.id
    }

    /// The label of the image.
    pub closed spec fn spec_label(&self) -> Seq<char> {
        self.label@
    }

    /// The extent of the image.
    pub closed spec fn spec_size(&self) -> Extent3d {
        self.size
    }

    /// Whether compute shaders may store to the image.
    pub closed spec fn spec_for_compute(&self) -> bool {
        self.for_compute
    }

    /// An image named `id` of `extent.0` by `extent.1` texels, its texels not yet written.
    pub fn create_uninit(id: u64, label: &str, for_compute: bool, extent: (u32, u32)) -> (tex: Self)
        ensures
            tex.spec_id() == id,
            tex.spec_label() == label@,
            tex.spec_for_compute() == for_compute,
            tex.spec_size() == (Extent3d {
                width: extent.0,
                height: extent.1,
                depth_or_array_layers: 1,
            }),
    {
        Texture2D {
            id,
            label: label.to_owned(),
            size: Extent3d { width: extent.0, height: extent.1, depth_or_array_layers: 1 },
            for_compute,
        }
    }

    /// The name under which the backend image is known.
    pub fn id(&self) -> (id: u64)
        ensures
            id == self.spec_id(),
    {
        self.id
    }

    /// The label of the image.
    pub fn label(&self) -> (label: &str)
        ensures
            label@ == self.spec_label(),
    {
        self.label.as_str()
    }

    /// The extent of the image.
    pub fn size(&self) -> (size: Extent3d)
        ensures
            size == self.spec_size(),
    {
        self.size
    }

    /// What the backend needs to allocate the image: one level, one sample per texel,
    /// four 8-bit channels, usable as a texture and as the target of copies, and as a
    /// storage texture where the image is for compute.
    pub fn texture_descriptor(&self) -> (d: TextureDescriptor)
        ensures
            d == (TextureDescriptor {
                size: self.spec_size(),
                mip_level_count: 1,
                sample_count: 1,
                dimension: ImageDimension::D2,
                format: TextureFormat::Rgba8Unorm,
                usage: TextureUsages {
                    copy_src: false,
                    copy_dst: true,
                    texture_binding: true,
                    storage_binding: self.spec_for_compute(),
                    render_attachment: false,
                },
            }),
    {
        TextureDescriptor {
            size: self.size,
            mip_level_count: 1,
            sample_count: 1,
            dimension: ImageDimension::D2,
            format: TextureFormat::Rgba8Unorm,
            usage: TextureUsages {
                copy_src: false,
                copy_dst: true,
                texture_binding: true,
                storage_binding: self.for_compute,
                render_attachment: false,
            },
        }
    }

    /// What the backend needs to make the image's sampler.
    pub fn sampler_descriptor(&self) -> (d: SamplerDescriptor)
        ensures
            d == default_sampler(),
    {
        SamplerDescriptor {
            address_mode_u: AddressMode::ClampToEdge,
            address_mode_v: AddressMode::ClampToEdge,
            address_mode_w: AddressMode::ClampToEdge,
            mag_filter: FilterMode::Linear,
            min_filter: FilterMode::Linear,
            mipmap_filter: FilterMode::Nearest,
        }
    }

    /// An image named `id` as large as `img`, together with the upload of `img` into it.
    pub fn create(id: u64, img: &Pixels, label: &str, for_compute: bool) -> (r: (Self, TextureWrite))
        requires
            img.spec_width() * 4 <= u32::MAX,
        ensures
            r.0.spec_id() == id,
            r.0.spec_label() == label@,
            r.0.spec_for_compute() == for_compute,
            r.0.spec_size() == (Extent3d {
                width: img.spec_width(),
                height: img.spec_height(),
                depth_or_array_layers: 1,
            }),
            r.1 == r.0.spec_write_image(img),
    {
        let this = Self::create_uninit(id, label, for_compute, img.dimensions());
        let write = this.write_image(img);
        (this, write)
    }

    /// The overwrite of the whole image by `img`: rows of four bytes per texel, one
    /// after the other.
    pub open spec fn spec_write_image(&self, img: &Pixels) -> TextureWrite {
        TextureWrite {
            texture: self.spec_id(),
            mip_level: 0,
            origin: Origin3d { x: 0, y: 0, z: 0 },
            layout: ImageDataLayout {
                offset: 0,
                bytes_per_row: Some((img.spec_width() * 4) as u32),
                rows_per_image: Some(img.spec_height()),
            },
            size: self.spec_size(),
        }
    }

    /// The overwrite of the whole image by `img`.
    pub fn write_image(&self, img: &Pixels) -> (w: TextureWrite)
        requires
            img.spec_width() * 4 <= u32::MAX,
        ensures
            w == self.spec_write_image(img),
    {
        let (width, height) = img.dimensions();
        TextureWrite {
            texture: self.id,
            mip_level: 0,
            origin: Origin3d { x: 0, y: 0, z: 0 },
            layout: ImageDataLayout {
                offset: 0,
                bytes_per_row: Some(width * 4),
                rows_per_image: Some(height),
            },
            size: self.size,
        }
    }

    /// The layout entry of slot `binding` for the image as a storage texture of a
    /// compute shader.
    pub fn layout_entry_compute(&self, binding: u32, access: StorageTextureAccess) -> (entry:
        BindGroupLayoutEntry)
        ensures
            entry == (BindGroupLayoutEntry {
                binding,
                visibility: ShaderStages { vertex: false, fragment: false, compute: true },
                ty: BindingType::StorageTexture {
                    access,
                    format: TextureFormat::Rgba8Unorm,
                    view_dimension: TextureViewDimension::D2,
                },
                count: None,
            }),
    {
        BindGroupLayoutEntry {
            binding,
            visibility: ShaderStages::compute(),
            ty: BindingType::StorageTexture {
                access,
                format: TextureFormat::Rgba8Unorm,
                view_dimension: TextureViewDimension::D2,
            },
            count: None,
        }
    }

    /// The bind group entry that binds the image's view to slot `binding`.
    pub fn bind_group_entry(&self, binding: u32) -> (entry: BindGroupEntry)
        ensures
            entry == (BindGroupEntry {
                binding,
                resource: BindingResource::TextureView(self.spec_id()),
            }),
    {
        BindGroupEntry { binding, resource: BindingResource::TextureView(self.id) }
    }
}

} // verus!
