//! Declared shape of a bind group: stages, slot kinds and layout entries.

use vstd::prelude::*;

verus! {

/// The shader stages that may read a slot.
#[derive(Clone, Copy, Debug, PartialEq, Eq, Structural)]
pub struct ShaderStages {
    pub vertex: bool,
    pub fragment: bool,
    pub compute: bool,
}

impl ShaderStages {
    /// No stage at all.
    pub fn none() -> (s: Self)
        ensures
            s == (ShaderStages { vertex: false, fragment: false, compute: false }),
    {
        ShaderStages { vertex: false, fragment: false, compute: false }
    }

    /// The vertex stage alone.
    pub fn vertex() -> (s: Self)
        ensures
            s == (ShaderStages { vertex: true, fragment: false, compute: false }),
    {
        ShaderStages { vertex: true, fragment: false, compute: false }
    }

    /// The fragment stage alone.
    pub fn fragment() -> (s: Self)
        ensures
            s == (ShaderStages { vertex: false, fragment: true, compute: false }),
    {
        ShaderStages { vertex: false, fragment: true, compute: false }
    }

    /// The compute stage alone.
    pub fn compute() -> (s: Self)
        ensures
            s == (ShaderStages { vertex: false, fragment: false, compute: true }),
    {
        ShaderStages { vertex: false, fragment: false, compute: true }
    }

    /// The stages of `self` together with those of `other`.
    pub open spec fn spec_union(self, other: Self) -> Self {
        ShaderStages {
            vertex: self.vertex || other.vertex,
            fragment: self.fragment || other.fragment,
            compute: self.compute || other.compute,
        }
    }

    /// The stages of `self` together with those of `other`.
    pub fn union(self, other: Self) -> (s: Self)
        ensures
            s == self.spec_union(other),
    {
        ShaderStages {
            vertex: self.vertex || other.vertex,
            fragment: self.fragment || other.fragment,
            compute: self.compute || other.compute,
        }
    }
}

/// How a shader reads a buffer slot.
#[derive(Clone, Copy, Debug, PartialEq, Eq, Structural)]
pub enum BufferBindingType {
    Uniform,
    Storage { read_only: bool },
}

/// How a shader uses a sampler slot.
#[derive(Clone, Copy, Debug, PartialEq, Eq, Structural)]
pub enum SamplerBindingType {
    Filtering,
    NonFiltering,
    Comparison,
}

/// What a sampled texture yields.
#[derive(Clone, Copy, Debug, PartialEq, Eq, Structural)]
pub enum TextureSampleType {
    Float { filterable: bool },
    Depth,
    Sint,
    Uint,
}

/// How a shader reaches a storage texture.
#[derive(Clone, Copy, Debug, PartialEq, Eq, Structural)]
pub enum StorageTextureAccess {
    WriteOnly,
    ReadOnly,
    ReadWrite,
}

/// The shape under which a shader sees a texture.
#[derive(Clone, Copy, Debug, PartialEq, Eq, Structural)]
pub enum TextureViewDimension {
    D1,
    D2,
    D2Array,
    Cube,
    CubeArray,
    D3,
}

/// The shape in which an image is allocated.
#[derive(Clone, Copy, Debug, PartialEq, Eq, Structural)]
pub enum ImageDimension {
    D1,
    D2,
    D3,
}

/// Texel formats of images.  Images here are always four 8-bit channels.
#[derive(Clone, Copy, Debug, PartialEq, Eq, Structural)]
pub enum TextureFormat {
    Rgba8Unorm,
}

/// The resource shape that a backend layout entry asks for.
#[derive(Clone, Copy, Debug, PartialEq, Eq, Structural)]
pub enum BindingType {
    Buffer { ty: BufferBindingType, has_dynamic_offset: bool, min_binding_size: Option<u64> },
    Sampler(SamplerBindingType),
    Texture { sample_type: TextureSampleType, view_dimension: TextureViewDimension, multisampled: bool },
    StorageTexture {
        access: StorageTextureAccess,
        format: TextureFormat,
        view_dimension: TextureViewDimension,
    },
}

/// A layout entry without its slot and its stages.
#[derive(Clone, Copy, Debug, PartialEq, Eq, Structural)]
pub struct ParitalBindGroupLayoutEntry {
    pub count: Option<u32>,
    pub ty: BindingType,
}

/// One entry of a backend bind group layout.
#[derive(Clone, Copy, Debug, PartialEq, Eq, Structural)]
pub struct BindGroupLayoutEntry {
    pub binding: u32,
    pub visibility: ShaderStages,
    pub ty: BindingType,
    pub count: Option<u32>,
}

/// The category of resource that a slot takes.
#[derive(Clone, Copy, Debug, PartialEq, Eq, Structural)]
pub enum Category {
    UniformBuffer,
    StorageBuffer,
    SampledTexture,
    StorageTexture,
    Sampler,
}

impl BindingType {
    /// The category of resource that a slot of this shape takes.
    pub open spec fn spec_category(self) -> Category {
        match self {
            BindingType::Buffer { ty, has_dynamic_offset, min_binding_size } => match ty {
                BufferBindingType::Uniform => Category::UniformBuffer,
                BufferBindingType::Storage { read_only } => Category::StorageBuffer,
            },
            BindingType::Sampler(ty) => Category::Sampler,
            BindingType::Texture { sample_type, view_dimension, multisampled } =>
                Category::SampledTexture,
            BindingType::StorageTexture { access, format, view_dimension } =>
                Category::StorageTexture,
        }
    }

    /// The category of resource that a slot of this shape takes.
    pub fn category(self) -> (c: Category)
        ensures
            c == self.spec_category(),
    {
        match self {
            BindingType::Buffer { ty, has_dynamic_offset, min_binding_size } => match ty {
                BufferBindingType::Uniform => Category::UniformBuffer,
                BufferBindingType::Storage { read_only } => Category::StorageBuffer,
            },
            BindingType::Sampler(ty) => Category::Sampler,
            BindingType::Texture { sample_type, view_dimension, multisampled } =>
                Category::SampledTexture,
            BindingType::StorageTexture { access, format, view_dimension } =>
                Category::StorageTexture,
        }
    }

    /// Whether the shape asks for bindings of no bytes at all, which no backend offers.
    pub open spec fn spec_is_zero_sized(self) -> bool {
        self matches BindingType::Buffer { min_binding_size: Some(size), .. } && size == 0
    }

    /// Whether the shape asks for bindings of no bytes at all.
    pub fn is_zero_sized(self) -> (zero: bool)
        ensures
            zero == self.spec_is_zero_sized(),
    {
        match self {
            BindingType::Buffer { ty, has_dynamic_offset, min_binding_size } => match min_binding_size {
                Some(size) => size == 0,
                None => false,
            },
            _ => false,
        }
    }
}

/// What one slot of a bind group asks for: its index, the stages that read it, and the
/// shape of the resource it takes.
#[derive(Clone, Copy, Debug, PartialEq, Eq, Structural)]
pub struct LayoutDescriptor {
    pub slot: u32,
    pub visibility: ShaderStages,
    pub ty: BindingType,
    pub count: Option<u32>,
}

impl LayoutDescriptor {
    /// The declaration of slot `slot`, read by the stages `visibility`, of the shape `shape`.
    pub fn describe(slot: u32, visibility: ShaderStages, shape: ParitalBindGroupLayoutEntry) -> (d:
        Self)
        ensures
            d == (LayoutDescriptor { slot, visibility, ty: shape.ty, count: shape.count }),
    {
        LayoutDescriptor { slot, visibility, ty: shape.ty, count: shape.count }
    }

    /// The backend layout entry that declares the slot.
    pub open spec fn spec_to_backend_entry(self) -> BindGroupLayoutEntry {
        BindGroupLayoutEntry {
            binding: self.slot,
            visibility: self.visibility,
            ty: self.ty,
            count: self.count,
        }
    }

    /// The backend layout entry that declares the slot.
    pub fn to_backend_entry(self) -> (e: BindGroupLayoutEntry)
        ensures
            e == self.spec_to_backend_entry(),
    {
        BindGroupLayoutEntry {
            binding: self.slot,
            visibility: self.visibility,
            ty: self.ty,
            count: self.count,
        }
    }

    /// The category of resource that the slot takes.
    pub fn category(self) -> (c: Category)
        ensures
            c == self.ty.spec_category(),
    {
        self.ty.category()
    }
}

} // verus!
