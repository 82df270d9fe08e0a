//! Typed images: one image, one sampler and one view, offered under three capabilities.

use vstd::prelude::*;
use vstd::arithmetic::div_mod::lemma_fundamental_div_mod;
use std::marker::PhantomData;
use crate::layout::{
    BindingType, ImageDimension, ParitalBindGroupLayoutEntry, SamplerBindingType,
    StorageTextureAccess, TextureFormat, TextureSampleType, TextureViewDimension,
};
use crate::pixels::Pixels;
use crate::resource::{IsRepresentedByLayout, Resource};

verus! {

/// The size of an image in texels.
#[derive(Clone, Copy, Debug, PartialEq, Eq, Structural)]
pub struct Extent3d {
    pub width: u32,
    pub height: u32,
    pub depth_or_array_layers: u32,
}

/// A texel position in an image.
#[derive(Clone, Copy, Debug, PartialEq, Eq, Structural)]
pub struct Origin3d {
    pub x: u32,
    pub y: u32,
    pub z: u32,
}

/// The roles in which the backend may use an image.
#[derive(Clone, Copy, Debug, PartialEq, Eq, Structural)]
pub struct TextureUsages {
    pub copy_src: bool,
    pub copy_dst: bool,
    pub texture_binding: bool,
    pub storage_binding: bool,
    pub render_attachment: bool,
}

/// What the backend needs to allocate an image.
#[derive(Clone, Copy, Debug, PartialEq, Eq, Structural)]
pub struct TextureDescriptor {
    pub size: Extent3d,
    pub mip_level_count: u32,
    pub sample_count: u32,
    pub dimension: ImageDimension,
    pub format: TextureFormat,
    pub usage: TextureUsages,
}

/// What a sampler does beyond the edge of an image.
#[derive(Clone, Copy, Debug, PartialEq, Eq, Structural)]
pub enum AddressMode {
    ClampToEdge,
    Repeat,
    MirrorRepeat,
    ClampToBorder,
}

/// How a sampler picks between texels.
#[derive(Clone, Copy, Debug, PartialEq, Eq, Structural)]
pub enum FilterMode {
    Nearest,
    Linear,
}

/// What the backend needs to make a sampler.
#[derive(Clone, Copy, Debug, PartialEq, Eq, Structural)]
pub struct SamplerDescriptor {
    pub address_mode_u: AddressMode,
    pub address_mode_v: AddressMode,
    pub address_mode_w: AddressMode,
    pub mag_filter: FilterMode,
    pub min_filter: FilterMode,
    pub mipmap_filter: FilterMode,
}

/// Where the rows of an upload lie in its bytes.
#[derive(Clone, Copy, Debug, PartialEq, Eq, Structural)]
pub struct ImageDataLayout {
    pub offset: u64,
    pub bytes_per_row: Option<u32>,
    pub rows_per_image: Option<u32>,
}

/// An overwrite of an image from its origin on.
#[derive(Clone, Copy, Debug, PartialEq, Eq, Structural)]
pub struct TextureWrite {
    pub texture: u64,
    pub mip_level: u32,
    pub origin: Origin3d,
    pub layout: ImageDataLayout,
    pub size: Extent3d,
}

/// The bytes of an image, row after row and four for each texel, once the upload `w` of
/// `data` is carried out: each row is read from `data` where the layout of `w` says
/// that it lies.
pub open spec fn uploaded(w: TextureWrite, data: Seq<u8>) -> Seq<u8> {
    let row = 4 * w.size.width;
    Seq::new(
        (row * w.size.height) as nat,
        |i: int| data[w.layout.offset + (i / row) * w.layout.bytes_per_row->0 + i % row],
    )
}

/// The sampler that every image here comes with: clamped at the edges, linear within
/// a level, nearest between levels.
pub open spec fn default_sampler() -> SamplerDescriptor {
    SamplerDescriptor {
        address_mode_u: AddressMode::ClampToEdge,
        address_mode_v: AddressMode::ClampToEdge,
        address_mode_w: AddressMode::ClampToEdge,
        mag_filter: FilterMode::Linear,
        min_filter: FilterMode::Linear,
        mipmap_filter: FilterMode::Nearest,
    }
}

/// The dimensionality of an image, as a type.
pub trait TextureDimension {
    /// The extent of an image of this dimensionality.
    type ExtentND;

    /// The extent in three dimensions that `extent_nd` stands for.
    spec fn spec_convert_extent(extent_nd: Self::ExtentND) -> Extent3d;

    /// The shape in which such an image is allocated.
    spec fn spec_dimension() -> ImageDimension;

    /// The shape under which a shader sees such an image.
    spec fn spec_view_dimension() -> TextureViewDimension;

    /// The extent in three dimensions that `extent_nd` stands for.
    fn convert_extent(extent_nd: Self::ExtentND) -> (e: Extent3d)
        ensures
            e == Self::spec_convert_extent(extent_nd),
    ;

    /// The shape in which such an image is allocated.
    fn dimension() -> (d: ImageDimension)
        ensures
            d == Self::spec_dimension(),
    ;

    /// The shape under which a shader sees such an image.
    fn view_dimension() -> (d: TextureViewDimension)
        ensures
            d == Self::spec_view_dimension(),
    ;
}

/// Two dimensions: a width and a height.
#[allow(non_camel_case_types)]
pub struct _2D;

impl TextureDimension for _2D {
    type ExtentND = (u32, u32);

    open spec fn spec_convert_extent(extent_nd: (u32, u32)) -> Extent3d {
        Extent3d { width: extent_nd.0, height: extent_nd.1, depth_or_array_layers: 1 }
    }

    open spec fn spec_dimension() -> ImageDimension {
        ImageDimension::D2
    }

    open spec fn spec_view_dimension() -> TextureViewDimension {
        TextureViewDimension::D2
    }

    fn convert_extent(extent_nd: (u32, u32)) -> (e: Extent3d) {
        Extent3d { width: extent_nd.0, height: extent_nd.1, depth_or_array_layers: 1 }
    }

    fn dimension() -> (d: ImageDimension) {
        ImageDimension::D2
    }

    fn view_dimension() -> (d: TextureViewDimension) {
        TextureViewDimension::D2
    }
}

/// The capabilities under which an image can be bound.
pub trait TexInfoType {

}

/// The image's sampler.
pub struct TISampler;

/// The image as a texture to sample from.
pub struct TITexture;

/// The image as a storage texture.
pub struct TIStorageTexture;

impl TexInfoType for TISampler {

}

impl TexInfoType for TITexture {

}

impl TexInfoType for TIStorageTexture {

}

/// The declaration of a slot that takes an image of dimensionality `Dim` under
/// capability `Type`.
pub struct TexInfo<Dim: TextureDimension, Type: TexInfoType>(PhantomData<(Dim, Type)>);

impl<Dim: TextureDimension> TexInfo<Dim, TISampler> {
    /// The layout entry of a sampler slot.
    pub fn bind_group_layout_entry(data: SamplerBindingType) -> (entry: ParitalBindGroupLayoutEntry)
        ensures
            entry.count is None,
            entry.ty == BindingType::Sampler(data),
    {
        ParitalBindGroupLayoutEntry { count: None, ty: BindingType::Sampler(data) }
    }
}

impl<Dim: TextureDimension> TexInfo<Dim, TITexture> {
    /// The layout entry of a slot for a texture to sample from, one sample per texel.
    pub fn bind_group_layout_entry(data: TextureSampleType) -> (entry: ParitalBindGroupLayoutEntry)
        ensures
            entry.count is None,
            entry.ty == (BindingType::Texture {
                sample_type: data,
                view_dimension: Dim::spec_view_dimension(),
                multisampled: false,
            }),
    {
        ParitalBindGroupLayoutEntry {
            count: None,
            ty: BindingType::Texture {
                sample_type: data,
                view_dimension: Dim::view_dimension(),
                multisampled: false,
            },
        }
    }
}

impl<Dim: TextureDimension> TexInfo<Dim, TIStorageTexture> {
    /// The layout entry of a slot for a storage texture of four 8-bit channels.
    pub fn bind_group_layout_entry(data: StorageTextureAccess) -> (entry:
        ParitalBindGroupLayoutEntry)
        ensures
            entry.count is None,
            entry.ty == (BindingType::StorageTexture {
                access: data,
                format: TextureFormat::Rgba8Unorm,
                view_dimension: Dim::spec_view_dimension(),
            }),
    {
        ParitalBindGroupLayoutEntry {
            count: None,
            ty: BindingType::StorageTexture {
                access: data,
                format: TextureFormat::Rgba8Unorm,
                view_dimension: Dim::view_dimension(),
            },
        }
    }
}

/// A type with one value only.
pub trait ZSTValue: Sized {
    /// The value of the type.
    fn it() -> Self;
}

impl<Dim: TextureDimension, Type: TexInfoType> ZSTValue for TexInfo<Dim, Type> {
    fn it() -> Self {
        TexInfo(PhantomData)
    }
}

/// One image with its sampler and its default view.
pub struct Tex<Dim: TextureDimension> {
    id: u64,
    label: String,
    size: Extent3d,
    _phantom_: PhantomData<Dim>,
}

/// An image offered to a slot under one of its capabilities.
pub enum TexResource<'a, Dim: TextureDimension, Type: TexInfoType> {
    StorageTexture(&'a Tex<Dim>, PhantomData<Type>),
    Sampler(&'a Tex<Dim>, PhantomData<Type>),
    Texture(&'a Tex<Dim>, PhantomData<Type>),
}

impl<'a, Dim: TextureDimension, Type: TexInfoType> IsRepresentedByLayout<
    'a,
    TexInfo<Dim, Type>,
> for TexResource<'a, Dim, Type> {
    open spec fn spec_resource(&self) -> Resource {
        match *self {
            TexResource::Sampler(v, _) => Resource::Sampler {
                image: v.spec_id(),
                dim: Dim::spec_view_dimension(),
            },
            TexResource::Texture(v, _) => Resource::Texture {
                image: v.spec_id(),
                dim: Dim::spec_view_dimension(),
            },
            TexResource::StorageTexture(v, _) => Resource::StorageTexture {
                image: v.spec_id(),
                dim: Dim::spec_view_dimension(),
            },
        }
    }

    fn resource(&self) -> (r: Resource) {
        match self {
            TexResource::Sampler(v, _) => Resource::Sampler {
                image: v.id(),
                dim: Dim::view_dimension(),
            },
            TexResource::Texture(v, _) => Resource::Texture {
                image: v.id(),
                dim: Dim::view_dimension(),
            },
            TexResource::StorageTexture(v, _) => Resource::StorageTexture {
                image: v.id(),
                dim: Dim::view_dimension(),
            },
        }
    }
}

impl<Dim: TextureDimension> Tex<Dim> {
    /// The name under which the backend image is known.
    pub closed spec fn spec_id(&self) -> u64 {
        self.id
    }

    /// The label of the image.
    pub closed spec fn spec_label(&self) -> Seq<char> {
        self.label@
    }

    /// The extent of the image.
    pub closed spec fn spec_size(&self) -> Extent3d {
        self.size
    }

    /// An image named `id` of the extent given, its texels not yet written.
    pub fn create_uninit(id: u64, label: &str, extent_nd: Dim::ExtentND) -> (tex: Self)
        ensures
            tex.spec_id() == id,
            tex.spec_label() == label@,
            tex.spec_size() == Dim::spec_convert_extent(extent_nd),
    {
        Tex {
            id,
            label: label.to_owned(),
            size: Dim::convert_extent(extent_nd),
            _phantom_: PhantomData,
        }
    }

    /// The name under which the backend image is known.
    pub fn id(&self) -> (id: u64)
        ensures
            id == self.spec_id(),
    {
        self.id
    }

    /// The label of the image.
    pub fn label(&self) -> (label: &str)
        ensures
            label@ == self.spec_label(),
    {
        self.label.as_str()
    }

    /// The extent of the image.
    pub fn size(&self) -> (size: Extent3d)
        ensures
            size == self.spec_size(),
    {
        self.size
    }

    /// What the backend needs to allocate the image: one level, one sample per texel,
    /// four 8-bit channels, usable as a texture, as a storage texture and in copies.
    pub fn texture_descriptor(&self) -> (d: TextureDescriptor)
        ensures
            d == (TextureDescriptor {
                size: self.spec_size(),
                mip_level_count: 1,
                sample_count: 1,
                dimension: Dim::spec_dimension(),
                format: TextureFormat::Rgba8Unorm,
                usage: TextureUsages {
                    copy_src: true,
                    copy_dst: true,
                    texture_binding: true,
                    storage_binding: true,
                    render_attachment: false,
                },
            }),
    {
        TextureDescriptor {
            size: self.size,
            mip_level_count: 1,
            sample_count: 1,
            dimension: Dim::dimension(),
            format: TextureFormat::Rgba8Unorm,
            usage: TextureUsages {
                copy_src: true,
                copy_dst: true,
                texture_binding: true,
                storage_binding: true,
                render_attachment: false,
            },
        }
    }

    /// What the backend needs to make the image's sampler.
    pub fn sampler_descriptor(&self) -> (d: SamplerDescriptor)
        ensures
            d == default_sampler(),
    {
        SamplerDescriptor {
            address_mode_u: AddressMode::ClampToEdge,
            address_mode_v: AddressMode::ClampToEdge,
            address_mode_w: AddressMode::ClampToEdge,
            mag_filter: FilterMode::Linear,
            min_filter: FilterMode::Linear,
            mipmap_filter: FilterMode::Nearest,
        }
    }

    /// The image as a storage texture.
    pub fn binding_storage(&self) -> (r: TexResource<'_, Dim, TIStorageTexture>)
        ensures
            r == TexResource::<Dim, TIStorageTexture>::StorageTexture(self, PhantomData),
    {
        TexResource::StorageTexture(self, PhantomData)
    }

    /// The image's sampler.
    pub fn binding_sampler(&self) -> (r: TexResource<'_, Dim, TISampler>)
        ensures
            r == TexResource::<Dim, TISampler>::Sampler(self, PhantomData),
    {
        TexResource::Sampler(self, PhantomData)
    }

    /// The image as a texture to sample from.
    pub fn binding_texture(&self) -> (r: TexResource<'_, Dim, TITexture>)
        ensures
            r == TexResource::<Dim, TITexture>::Texture(self, PhantomData),
    {
        TexResource::Texture(self, PhantomData)
    }
}

impl Tex<_2D> {
    /// An image named `id` as large as `img`, together with the upload of `img` into it.
    pub fn create(id: u64, img: &Pixels, label: &str) -> (r: (Self, TextureWrite))
        requires
            img.spec_width() * 4 <= u32::MAX,
        ensures
            r.0.spec_id() == id,
            r.0.spec_label() == label@,
            r.0.spec_size() == (Extent3d {
                width: img.spec_width(),
                height: img.spec_height(),
                depth_or_array_layers: 1,
            }),
            r.1 == r.0.spec_write_image(img),
    {
        let this = Self::create_uninit(id, label, img.dimensions());
        let write = this.write_image(img);
        (this, write)
    }

    /// The overwrite of the whole image by `img`: rows of four bytes per texel, one
    /// after the other.
    pub open spec fn spec_write_image(&self, img: &Pixels) -> TextureWrite {
        TextureWrite {
            texture: self.spec_id(),
            mip_level: 0,
            origin: Origin3d { x: 0, y: 0, z: 0 },
            layout: ImageDataLayout {
                offset: 0,
                bytes_per_row: Some((img.spec_width() * 4) as u32),
                rows_per_image: Some(img.spec_height()),
            },
            size: self.spec_size(),
        }
    }

    /// An image that is overwritten by pixels of its own extent holds the bytes of those
    /// pixels: what is read back from it is what was written.
    pub proof fn lemma_write_then_read(&self, img: &Pixels)
        requires
            img.wf(),
            img.spec_width() * 4 <= u32::MAX,
            self.spec_size() == (Extent3d {
                width: img.spec_width(),
                height: img.spec_height(),
                depth_or_array_layers: 1,
            }),
        ensures
            uploaded(self.spec_write_image(img), img.spec_data()) == img.spec_data(),
    {
        img.lemma_holds_its_texels();
        let w = self.spec_write_image(img);
        let row = 4 * img.spec_width();
        let rows = img.spec_height() as int;
        let data = img.spec_data();
        assert(row * rows == 4 * img.spec_width() * img.spec_height()) by (nonlinear_arith)
            requires
                row == 4 * img.spec_width(),
                rows == img.spec_height(),
        ;
        assert forall|i: int| 0 <= i < row * rows implies uploaded(w, data)[i] == data[i] by {
            assert(row > 0) by (nonlinear_arith)
                requires
                    0 <= i < row * rows,
                    0 <= rows,
                    0 <= row,
            ;
            lemma_fundamental_div_mod(i, row);
            assert((i / row) * row == row * (i / row)) by (nonlinear_arith);
        }
        assert(uploaded(w, data) =~= data);
    }

    /// The overwrite of the whole image by `img`.
    pub fn write_image(&self, img: &Pixels) -> (w: TextureWrite)
        requires
            img.spec_width() * 4 <= u32::MAX,
        ensures
            w == self.spec_write_image(img),
    {
        let (width, height) = img.dimensions();
        TextureWrite {
            texture: self.id,
            mip_level: 0,
            origin: Origin3d { x: 0, y: 0, z: 0 },
            layout: ImageDataLayout {
                offset: 0,
                bytes_per_row: Some(width * 4),
                rows_per_image: Some(height),
            },
            size: self.size,
        }
    }
}

} // verus!
