//! One-dimensional buffers declared together with the stages that read them.

use vstd::prelude::*;
use vstd::layout::size_of;
use std::marker::PhantomData;
use crate::layout::{BindGroupLayoutEntry, BindingType, BufferBindingType, ShaderStages};
use crate::region::{range_count, range_start, Bound, BufferDescriptor, BufferUsages, BufferWrite};
use crate::resource::{BindGroupEntry, BindingResource};
use crate::vertex::{VertexAttribute, VertexBufferLayout, VertexStepMode};

verus! {

/// A size in bytes as a backend takes it: `None` where there are no bytes.
pub open spec fn nonzero(size: int) -> Option<u64> {
    if size == 0 {
        None
    } else {
        Some(size as u64)
    }
}

/// The size in bytes of a binding of `size` bytes of elements: never none at all, since
/// no backend binds nothing.
pub open spec fn at_least_one(size: int) -> u64 {
    if size == 0 {
        1
    } else {
        size as u64
    }
}

/// A range of bytes of a buffer; all that follow `offset` where `size` is `None`.
#[derive(Clone, Copy, Debug, PartialEq, Eq, Structural)]
pub struct ByteSlice {
    pub buffer: u64,
    pub offset: u64,
    pub size: Option<u64>,
}

/// The declaration of buffers of at least `dims_min` elements of type `T`.
pub struct BufferInfo1d<T> {
    dims_min: usize,
    visibility: ShaderStages,
    _phantom_: PhantomData<T>,
}

/// A buffer of elements of type `T`.
pub struct Buffer1d<T> {
    _info: BufferInfo1d<T>,
    id: u64,
    len: usize,
    descriptor: BufferDescriptor,
}

impl<T> Clone for BufferInfo1d<T> {
    fn clone(&self) -> (c: Self)
        ensures
            c == *self,
    {
        BufferInfo1d { dims_min: self.dims_min, visibility: self.visibility, _phantom_: PhantomData }
    }
}

impl<T> BufferInfo1d<T> {
    /// The least number of elements of a binding.
    pub closed spec fn spec_dims_min(&self) -> usize {
        self.dims_min
    }

    /// The stages that read the buffers.
    pub closed spec fn spec_visibility(&self) -> ShaderStages {
        self.visibility
    }

    /// The declaration of buffers of at least `dims_min` elements, read by `visibility`.
    pub fn new(dims_min: usize, visibility: ShaderStages) -> (info: Self)
        ensures
            info.spec_dims_min() == dims_min,
            info.spec_visibility() == visibility,
    {
        BufferInfo1d { dims_min, visibility, _phantom_: PhantomData }
    }

    /// The least number of elements of a binding.
    pub fn dims_min(&self) -> (dims_min: usize)
        ensures
            dims_min == self.spec_dims_min(),
    {
        self.dims_min
    }

    /// The stages that read the buffers.
    pub fn visibility(&self) -> (visibility: ShaderStages)
        ensures
            visibility == self.spec_visibility(),
    {
        self.visibility
    }

    /// The layout entry of slot `binding` for such a buffer, read as `ty` says: bindings
    /// hold at least the bytes of `dims_min` elements, or any number where that is none.
    pub fn layout_entry(&self, binding: u32, ty: BufferBindingType) -> (entry: BindGroupLayoutEntry)
        requires
            size_of::<T>() * self.spec_dims_min() <= usize::MAX,
        ensures
            entry == (BindGroupLayoutEntry {
                binding,
                visibility: self.spec_visibility(),
                ty: BindingType::Buffer {
                    ty,
                    has_dynamic_offset: false,
                    min_binding_size: nonzero(size_of::<T>() * self.spec_dims_min()),
                },
                count: None,
            }),
    {
        let bytes: usize = std::mem::size_of::<T>() * self.dims_min;
        BindGroupLayoutEntry {
            binding,
            visibility: self.visibility,
            ty: BindingType::Buffer {
                ty,
                has_dynamic_offset: false,
                min_binding_size: if bytes == 0 {
                    None
                } else {
                    Some(bytes as u64)
                },
            },
            count: None,
        }
    }

    /// The layout of a vertex stream of elements of `T` with the attributes given.
    pub fn layout_vertex(&self, attributes: Vec<VertexAttribute>, step_mode: VertexStepMode) -> (l:
        VertexBufferLayout)
        ensures
            l.array_stride as nat == size_of::<T>(),
            l.step_mode == step_mode,
            l.attributes@ == attributes@,
    {
        VertexBufferLayout { array_stride: std::mem::size_of::<T>() as u64, attributes, step_mode }
    }

    /// What the backend needs to allocate a buffer for the elements of `data`: their
    /// bytes, and every role but that of an index stream.
    pub fn create_buffer(&self, data: &[T]) -> (d: BufferDescriptor)
        ensures
            d.size == size_of::<T>() * data@.len(),
            d.usage == (BufferUsages {
                copy_src: true,
                copy_dst: true,
                index: false,
                vertex: true,
                uniform: true,
                storage: true,
            }),
    {
        broadcast use vstd::layout::layout_of_slices;

        let bytes: usize = std::mem::size_of_val(data);
        assert(bytes == size_of::<T>() * data@.len()) by (nonlinear_arith)
            requires
                bytes == data@.len() * size_of::<T>(),
        ;
        BufferDescriptor {
            size: bytes as u64,
            usage: BufferUsages {
                copy_src: true,
                copy_dst: true,
                index: false,
                vertex: true,
                uniform: true,
                storage: true,
            },
        }
    }

    /// A buffer named `id` for the elements of `data`.
    pub fn create(&self, id: u64, data: &[T]) -> (buffer: Buffer1d<T>)
        ensures
            buffer.wf(),
            buffer.spec_id() == id,
            buffer.spec_len() == data@.len(),
            buffer.spec_info() == *self,
    {
        Buffer1d { _info: self.clone(), id, len: data.len(), descriptor: self.create_buffer(data) }
    }
}

impl<T> Buffer1d<T> {
    /// The buffer is allocated with the bytes of its elements, for every role but that
    /// of an index stream.
    pub closed spec fn wf(&self) -> bool {
        &&& self.descriptor.size == size_of::<T>() * self.len
        &&& self.descriptor.usage == (BufferUsages {
            copy_src: true,
            copy_dst: true,
            index: false,
            vertex: true,
            uniform: true,
            storage: true,
        })
    }

    #[verifier::type_invariant]
    spec fn inv(&self) -> bool {
        self.wf()
    }

    /// The name under which the backend allocation is known.
    pub closed spec fn spec_id(&self) -> u64 {
        self.id
    }

    /// The number of elements that the buffer holds.
    pub closed spec fn spec_len(&self) -> usize {
        self.len
    }

    /// The declaration that the buffer was made from.
    pub closed spec fn spec_info(&self) -> BufferInfo1d<T> {
        self._info
    }

    /// The name under which the backend allocation is known.
    pub fn id(&self) -> (id: u64)
        ensures
            id == self.spec_id(),
    {
        self.id
    }

    /// What the backend needs to allocate the buffer: the bytes of its elements, and
    /// every role but that of an index stream.
    pub fn descriptor(&self) -> (d: BufferDescriptor)
        ensures
            d.size == size_of::<T>() * self.spec_len(),
            d.usage == (BufferUsages {
                copy_src: true,
                copy_dst: true,
                index: false,
                vertex: true,
                uniform: true,
                storage: true,
            }),
    {
        proof {
            use_type_invariant(self);
        }
        self.descriptor
    }

    /// The number of elements that the buffer holds.
    pub fn len(&self) -> (len: usize)
        ensures
            len == self.spec_len(),
    {
        self.len
    }

    /// Whether `count` elements can be written from element `offset` on.
    pub fn can_write(&self, offset: u64, count: usize) -> (ok: bool)
        ensures
            ok <==> offset + count <= self.spec_len(),
    {
        offset <= self.len as u64 && count <= self.len - offset as usize
    }

    /// The overwrite of the elements from `offset` on by those of `data`.
    pub fn write(&self, offset: u64, data: &[T]) -> (w: BufferWrite)
        requires
            offset + data@.len() <= self.spec_len(),
        ensures
            w.buffer == self.spec_id(),
            w.offset == size_of::<T>() * offset,
            w.size == size_of::<T>() * data@.len(),
    {
        let elt: u64 = std::mem::size_of::<T>() as u64;
        proof {
            use_type_invariant(self);
            let total = self.len as int;
            assert(elt * offset <= elt * total) by (nonlinear_arith)
                requires
                    0 <= elt,
                    offset <= total,
            ;
            assert(elt * data@.len() <= elt * total) by (nonlinear_arith)
                requires
                    0 <= elt,
                    data@.len() <= total,
            ;
        }
        BufferWrite { buffer: self.id, offset: elt * offset, size: elt * (data.len() as u64) }
    }

    /// Whether a range that starts at `start` can be bound: whether the byte at which it
    /// starts can be counted.
    pub fn can_bind(&self, start: Bound) -> (ok: bool)
        ensures
            ok <==> range_start(start) <= u64::MAX && size_of::<T>() * range_start(start)
                <= u64::MAX,
    {
        let elt: u64 = std::mem::size_of::<T>() as u64;
        let first: u64 = match start {
            Bound::Included(v) => v,
            Bound::Excluded(v) => if v == u64::MAX {
                return false;
            } else {
                v + 1
            },
            Bound::Unbounded => 0,
        };
        if elt == 0 {
            assert(size_of::<T>() * first == 0) by (nonlinear_arith)
                requires
                    size_of::<T>() == 0,
            ;
            return true;
        }
        let ok: bool = first <= u64::MAX / elt;
        assert(ok <==> elt * first <= u64::MAX) by (nonlinear_arith)
            requires
                elt >= 1,
                0 <= first,
                ok <==> first <= (u64::MAX as int) / (elt as int),
        ;
        ok
    }

    /// The bind group entry that binds the elements from `start` to `end`, the end
    /// clamped to the buffer's length, to slot `binding`.  A range of no element still
    /// binds one byte.
    pub fn bind_group_entry(&self, binding: u32, start: Bound, end: Bound) -> (entry: BindGroupEntry)
        requires
            range_start(start) <= u64::MAX,
            size_of::<T>() * range_start(start) <= u64::MAX,
        ensures
            entry == (BindGroupEntry {
                binding,
                resource: BindingResource::Buffer {
                    buffer: self.spec_id(),
                    offset: (size_of::<T>() * range_start(start)) as u64,
                    size: Some(
                        at_least_one(
                            size_of::<T>() * range_count(start, end, self.spec_len() as int),
                        ),
                    ),
                },
            }),
    {
        proof {
            use_type_invariant(self);
        }
        let elt: u64 = std::mem::size_of::<T>() as u64;
        let total: u64 = self.len as u64;
        let first: u64 = match start {
            Bound::Included(v) => v,
            Bound::Excluded(v) => v + 1,
            Bound::Unbounded => 0,
        };
        let asked: u64 = match end {
            Bound::Included(v) => if v < total {
                v + 1
            } else {
                total
            },
            Bound::Excluded(v) => v,
            Bound::Unbounded => total,
        };
        let last: u64 = if asked <= total {
            asked
        } else {
            total
        };
        let count: u64 = if last >= first {
            last - first
        } else {
            0
        };
        assert(count == range_count(start, end, self.spec_len() as int));
        proof {
            assert(elt * count <= elt * total) by (nonlinear_arith)
                requires
                    0 <= elt,
                    count <= total,
            ;
        }
        let bytes: u64 = elt * count;
        BindGroupEntry {
            binding,
            resource: BindingResource::Buffer {
                buffer: self.id,
                offset: elt * first,
                size: Some(if bytes == 0 {
                    1
                } else {
                    bytes
                }),
            },
        }
    }

    /// Whether the bytes from `start` to `end` can be sliced: there is at least one.
    pub open spec fn spec_can_slice(start: Bound, end: Bound) -> bool {
        &&& range_start(start) <= u64::MAX
        &&& match end {
            Bound::Included(v) => range_start(start) <= v < u64::MAX,
            Bound::Excluded(v) => range_start(start) < v,
            Bound::Unbounded => true,
        }
    }

    /// Whether the bytes from `start` to `end` can be sliced.
    pub fn can_slice(start: Bound, end: Bound) -> (ok: bool)
        ensures
            ok == Self::spec_can_slice(start, end),
    {
        let offset: u64 = match start {
            Bound::Included(v) => v,
            Bound::Excluded(v) => if v == u64::MAX {
                return false;
            } else {
                v + 1
            },
            Bound::Unbounded => 0,
        };
        match end {
            Bound::Included(v) => offset <= v && v < u64::MAX,
            Bound::Excluded(v) => offset < v,
            Bound::Unbounded => true,
        }
    }

    /// The bytes of the buffer from `start` to `end`, as a vertex or an index stream
    /// takes them; all that follow `start` where the range has no end.
    pub fn slice(&self, start: Bound, end: Bound) -> (s: ByteSlice)
        requires
            Self::spec_can_slice(start, end),
        ensures
            s.buffer == self.spec_id(),
            s.offset == range_start(start),
            s.size == match end {
                Bound::Included(v) => Some((v + 1 - range_start(start)) as u64),
                Bound::Excluded(v) => Some((v - range_start(start)) as u64),
                Bound::Unbounded => None,
            },
    {
        let offset: u64 = match start {
            Bound::Included(v) => v,
            Bound::Excluded(v) => v + 1,
            Bound::Unbounded => 0,
        };
        let size: Option<u64> = match end {
            Bound::Included(v) => Some(v + 1 - offset),
            Bound::Excluded(v) => Some(v - offset),
            Bound::Unbounded => None,
        };
        ByteSlice { buffer: self.id, offset, size }
    }
}

} // verus!
