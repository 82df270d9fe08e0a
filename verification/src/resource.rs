//! Resources as a bind group takes them: tagged by what they can stand for.

use vstd::prelude::*;
use vstd::layout::size_of;
use crate::layout::{BindingType, Category, TextureViewDimension};
use crate::region::{BuffInfo, BuffSlice};

verus! {

/// What a backend bind group entry points at.
#[derive(Clone, Copy, Debug, PartialEq, Eq, Structural)]
pub enum BindingResource {
    /// `size` bytes of buffer `buffer` from byte `offset` on; all that follow if `size` is `None`.
    Buffer { buffer: u64, offset: u64, size: Option<u64> },
    /// The sampler of image `0`.
    Sampler(u64),
    /// The default view of image `0`.
    TextureView(u64),
}

/// One entry of a backend bind group.
#[derive(Clone, Copy, Debug, PartialEq, Eq, Structural)]
pub struct BindGroupEntry {
    pub binding: u32,
    pub resource: BindingResource,
}

/// A resource offered to a slot, tagged with what it is.
#[derive(Clone, Copy, Debug, PartialEq, Eq, Structural)]
pub enum Resource {
    /// `size` bytes from byte `offset` on of a buffer whose elements take `elt_size` bytes.
    Buffer { buffer: u64, elt_size: u64, offset: u64, size: u64 },
    /// The sampler of an image.
    Sampler { image: u64, dim: TextureViewDimension },
    /// An image to sample from.
    Texture { image: u64, dim: TextureViewDimension },
    /// An image to load from and store to.
    StorageTexture { image: u64, dim: TextureViewDimension },
}

impl Resource {
    /// What the backend is handed for this resource.
    pub open spec fn spec_binding(self) -> BindingResource {
        match self {
            Resource::Buffer { buffer, elt_size, offset, size } => BindingResource::Buffer {
                buffer,
                offset,
                size: Some(size),
            },
            Resource::Sampler { image, dim } => BindingResource::Sampler(image),
            Resource::Texture { image, dim } => BindingResource::TextureView(image),
            Resource::StorageTexture { image, dim } => BindingResource::TextureView(image),
        }
    }

    /// What the backend is handed for this resource.
    pub fn binding(self) -> (b: BindingResource)
        ensures
            b == self.spec_binding(),
    {
        match self {
            Resource::Buffer { buffer, elt_size, offset, size } => BindingResource::Buffer {
                buffer,
                offset,
                size: Some(size),
            },
            Resource::Sampler { image, dim } => BindingResource::Sampler(image),
            Resource::Texture { image, dim } => BindingResource::TextureView(image),
            Resource::StorageTexture { image, dim } => BindingResource::TextureView(image),
        }
    }
}

impl Resource {
    /// Whether the resource is of the category given.  A buffer is of both buffer
    /// categories: it is the slot that says how its bytes are read.
    pub open spec fn spec_satisfies(self, category: Category) -> bool {
        match self {
            Resource::Buffer { buffer, elt_size, offset, size } => category
                == Category::UniformBuffer || category == Category::StorageBuffer,
            Resource::Sampler { image, dim } => category == Category::Sampler,
            Resource::Texture { image, dim } => category == Category::SampledTexture,
            Resource::StorageTexture { image, dim } => category == Category::StorageTexture,
        }
    }

    /// Whether the resource is of the category given.
    pub fn satisfies(self, category: Category) -> (ok: bool)
        ensures
            ok == self.spec_satisfies(category),
    {
        match self {
            Resource::Buffer { buffer, elt_size, offset, size } => category
                == Category::UniformBuffer || category == Category::StorageBuffer,
            Resource::Sampler { image, dim } => category == Category::Sampler,
            Resource::Texture { image, dim } => category == Category::SampledTexture,
            Resource::StorageTexture { image, dim } => category == Category::StorageTexture,
        }
    }
}

/// Whether `resource` may fill a slot of the shape `ty`: it is of the slot's category,
/// and its elements are as large, or its dimensionality is the same, as the slot asks.
pub open spec fn compatible(ty: BindingType, resource: Resource) -> bool {
    match ty {
        BindingType::Buffer { ty, has_dynamic_offset, min_binding_size } => match resource {
            Resource::Buffer { buffer, elt_size, offset, size } => match min_binding_size {
                Some(min) => min == elt_size,
                None => true,
            },
            _ => false,
        },
        BindingType::Sampler(ty) => resource is Sampler,
        BindingType::Texture { sample_type, view_dimension, multisampled } => match resource {
            Resource::Texture { image, dim } => dim == view_dimension,
            _ => false,
        },
        BindingType::StorageTexture { access, format, view_dimension } => match resource {
            Resource::StorageTexture { image, dim } => dim == view_dimension,
            _ => false,
        },
    }
}

/// Whether `resource` may fill a slot of the shape `ty`.
pub fn is_compatible(ty: BindingType, resource: Resource) -> (ok: bool)
    ensures
        ok == compatible(ty, resource),
{
    match ty {
        BindingType::Buffer { ty, has_dynamic_offset, min_binding_size } => match resource {
            Resource::Buffer { buffer, elt_size, offset, size } => match min_binding_size {
                Some(min) => min == elt_size,
                None => true,
            },
            _ => false,
        },
        BindingType::Sampler(ty) => match resource {
            Resource::Sampler { image, dim } => true,
            _ => false,
        },
        BindingType::Texture { sample_type, view_dimension, multisampled } => match resource {
            Resource::Texture { image, dim } => dim == view_dimension,
            _ => false,
        },
        BindingType::StorageTexture { access, format, view_dimension } => match resource {
            Resource::StorageTexture { image, dim } => dim == view_dimension,
            _ => false,
        },
    }
}

/// A resource of another category than the slot's never fills it.
pub proof fn lemma_compatible_satisfies(ty: BindingType, resource: Resource)
    ensures
        compatible(ty, resource) ==> resource.spec_satisfies(ty.spec_category()),
{
}

/// A value that can fill a slot declared by `T`.
pub trait IsRepresentedByLayout<'data, T> {
    /// The resource that the value stands for.
    spec fn spec_resource(&self) -> Resource;

    /// The resource that the value stands for.
    fn resource(&self) -> (r: Resource)
        ensures
            r == self.spec_resource(),
    ;
}

impl<'a, T> IsRepresentedByLayout<'a, BuffInfo<T>> for BuffSlice<'a, T> {
    open spec fn spec_resource(&self) -> Resource {
        Resource::Buffer {
            buffer: self.spec_buff().spec_id(),
            elt_size: size_of::<T>() as u64,
            offset: self.spec_offset() as u64,
            size: self.spec_len() as u64,
        }
    }

    fn resource(&self) -> (r: Resource) {
        let elt_size: u64 = self.buff().elt_size();
        Resource::Buffer {
            buffer: self.buff().id(),
            elt_size,
            offset: self.offset(),
            size: self.len(),
        }
    }
}

} // verus!
