//! Typed memory regions: element-typed buffers, slices of them and writes into them.

use vstd::prelude::*;
use vstd::layout::size_of;
use std::marker::PhantomData;
use crate::layout::{BindingType, BufferBindingType, ParitalBindGroupLayoutEntry};
use crate::vertex::{VertexAttribute, VertexBufferLayout, VertexLayoutInfo, VertexStepMode};

verus! {

/// Why a declaration cannot be turned into a backend object.
#[derive(Clone, Copy, Debug, PartialEq, Eq, Structural)]
pub enum ConstructionError {
    /// The element type of a buffer occupies no bytes.
    ZeroSizedElement,
    /// The slot at `index` of a scheme asks for bindings of no bytes.
    ZeroSizedBinding { index: usize },
    /// The slot at `index` of a scheme has the slot index of one declared before it.
    DuplicateSlot { index: usize },
}

/// One end of a range of elements.
#[derive(Clone, Copy, Debug, PartialEq, Eq, Structural)]
pub enum Bound {
    Included(u64),
    Excluded(u64),
    Unbounded,
}

/// The first element that a range starting at `start` holds.
pub open spec fn range_start(start: Bound) -> int {
    match start {
        Bound::Included(v) => v as int,
        Bound::Excluded(v) => v + 1,
        Bound::Unbounded => 0,
    }
}

/// One past the last element that a range ending at `end` holds in a region of `len` elements.
pub open spec fn range_end(end: Bound, len: int) -> int {
    let asked = match end {
        Bound::Included(v) => v + 1,
        Bound::Excluded(v) => v as int,
        Bound::Unbounded => len,
    };
    if asked <= len {
        asked
    } else {
        len
    }
}

/// The number of elements of a region of `len` elements that the range holds.
pub open spec fn range_count(start: Bound, end: Bound, len: int) -> int {
    if range_end(end, len) >= range_start(start) {
        range_end(end, len) - range_start(start)
    } else {
        0
    }
}

/// The bytes bound for `count` elements of `elt` bytes each: never none at all.
pub open spec fn bound_bytes(elt: int, count: int) -> int {
    if count == 0 {
        1
    } else {
        elt * count
    }
}

/// The whole of a region is as long as the region.
pub proof fn lemma_slice_whole(len: int)
    requires
        0 <= len,
    ensures
        range_start(Bound::Unbounded) == 0,
        range_count(Bound::Unbounded, Bound::Unbounded, len) == len,
{
}

/// A half-open range that lies within the region is as long as its ends are apart.
pub proof fn lemma_slice_within(a: u64, b: u64, len: int)
    requires
        a <= b <= len,
    ensures
        range_start(Bound::Included(a)) == a,
        range_count(Bound::Included(a), Bound::Excluded(b), len) == b - a,
{
}

/// A closed range that lies within the region holds both its ends.
pub proof fn lemma_slice_closed(a: u64, b: u64, len: int)
    requires
        a <= b < len,
    ensures
        range_count(Bound::Included(a), Bound::Included(b), len) == b - a + 1,
{
}

/// A range that ends beyond the region is cut off where the region ends.
pub proof fn lemma_slice_clamped(a: u64, b: u64, len: int)
    requires
        a <= len < b,
    ensures
        range_end(Bound::Excluded(b), len) == len,
        range_count(Bound::Included(a), Bound::Excluded(b), len) == len - a,
        range_count(Bound::Included(a), Bound::Excluded(b), len) == range_count(
            Bound::Included(a),
            Bound::Unbounded,
            len,
        ),
{
}

/// A range from an element to itself holds no element, and still binds a byte.
pub proof fn lemma_slice_empty(a: u64, len: int, elt: int)
    requires
        0 <= len,
        0 < elt,
    ensures
        range_count(Bound::Included(a), Bound::Excluded(a), len) == 0,
        bound_bytes(elt, range_count(Bound::Included(a), Bound::Excluded(a), len)) == 1,
{
}

/// A range that ends where it starts, or before, holds no element and still binds a
/// byte, whatever its ends are.
pub proof fn lemma_slice_without_elements(start: Bound, end: Bound, len: int, elt: int)
    requires
        0 <= len,
        0 < elt,
        range_end(end, len) <= range_start(start),
    ensures
        range_count(start, end, len) == 0,
        bound_bytes(elt, range_count(start, end, len)) == 1,
{
}

/// No slice holds more elements than its region, and every slice binds at least one byte.
pub proof fn lemma_slice_bounds(start: Bound, end: Bound, len: int, elt: int)
    requires
        0 <= len,
        0 < elt,
    ensures
        0 <= range_count(start, end, len) <= len,
        range_start(start) + range_count(start, end, len) <= len || range_count(start, end, len)
            == 0,
        bound_bytes(elt, range_count(start, end, len)) >= 1,
{
    let count = range_count(start, end, len);
    assert(count > 0 ==> elt * count >= 1) by (nonlinear_arith)
        requires
            0 < elt,
    ;
}

/// The bytes that a write of `count` elements from element `offset` on overwrites are
/// the bytes that the slice of those elements binds.
pub proof fn lemma_write_covers_slice(offset: u64, count: int, len: int, elt: int)
    requires
        0 < count,
        offset + count <= len,
        len <= u64::MAX,
        0 < elt,
    ensures
        elt * offset == elt * range_start(Bound::Included(offset)),
        elt * count == bound_bytes(
            elt,
            range_count(Bound::Included(offset), Bound::Excluded((offset + count) as u64), len),
        ),
{
}

/// The roles in which the backend may use a buffer.
#[derive(Clone, Copy, Debug, PartialEq, Eq, Structural)]
pub struct BufferUsages {
    pub copy_src: bool,
    pub copy_dst: bool,
    pub index: bool,
    pub vertex: bool,
    pub uniform: bool,
    pub storage: bool,
}

/// What the backend needs to allocate a buffer.
#[derive(Clone, Copy, Debug, PartialEq, Eq, Structural)]
pub struct BufferDescriptor {
    pub size: u64,
    pub usage: BufferUsages,
}

/// An overwrite of part of a buffer, in bytes.
#[derive(Clone, Copy, Debug, PartialEq, Eq, Structural)]
pub struct BufferWrite {
    pub buffer: u64,
    pub offset: u64,
    pub size: u64,
}

/// A range of bytes of a buffer, as a vertex or an index stream takes it.
#[derive(Clone, Copy, Debug, PartialEq, Eq, Structural)]
pub struct BufferRange {
    pub buffer: u64,
    pub start: u64,
    pub end: u64,
}

/// The bytes of a buffer that held `contents` once the overwrite `w` with `bytes` is
/// carried out.
pub open spec fn overwritten(contents: Seq<u8>, w: BufferWrite, bytes: Seq<u8>) -> Seq<u8> {
    Seq::new(
        contents.len(),
        |i: int|
            if w.offset <= i < w.offset + w.size {
                bytes[i - w.offset]
            } else {
                contents[i]
            },
    )
}

/// The bytes of a buffer that holds `contents` in the range `r`.
pub open spec fn bytes_in(contents: Seq<u8>, r: BufferRange) -> Seq<u8> {
    contents.subrange(r.start as int, r.end as int)
}

/// What is written into a range of a buffer is what is read back from that range, and
/// the bytes outside the range stay as they were.
pub proof fn lemma_write_then_read(
    contents: Seq<u8>,
    w: BufferWrite,
    r: BufferRange,
    bytes: Seq<u8>,
)
    requires
        bytes.len() == w.size,
        r.start == w.offset,
        r.end == w.offset + w.size,
        r.end <= contents.len(),
    ensures
        bytes_in(overwritten(contents, w, bytes), r) == bytes,
        forall|i: int|
            0 <= i < contents.len() && !(r.start <= i < r.end) ==> overwritten(
                contents,
                w,
                bytes,
            )[i] == contents[i],
{
    assert(bytes_in(overwritten(contents, w, bytes), r) =~= bytes);
}

/// The declaration of buffers whose elements are of type `D`.
pub struct BuffInfo<D> {
    elt: u64,
    _phantom_: PhantomData<D>,
}

impl<D> BuffInfo<D> {
    /// The declaration records the size of `D`, which is not zero.
    pub closed spec fn wf(&self) -> bool {
        &&& self.elt as nat == size_of::<D>()
        &&& self.elt != 0
    }

    #[verifier::type_invariant]
    spec fn inv(&self) -> bool {
        self.wf()
    }

    /// Declares buffers of `D`, unless `D` occupies no bytes.
    pub fn new() -> (r: Result<Self, ConstructionError>)
        ensures
            r is Ok <==> size_of::<D>() != 0,
            r is Ok ==> r->Ok_0.wf(),
            r is Err ==> r->Err_0 == ConstructionError::ZeroSizedElement,
    {
        let size: usize = std::mem::size_of::<D>();
        if size == 0 {
            Err(ConstructionError::ZeroSizedElement)
        } else {
            Ok(BuffInfo { elt: size as u64, _phantom_: PhantomData })
        }
    }

    /// The size of one element in bytes.
    pub fn elt_size(&self) -> (size: u64)
        ensures
            size as nat == size_of::<D>(),
            size != 0,
    {
        proof {
            use_type_invariant(self);
        }
        self.elt
    }

    /// The layout entry of a slot that takes one or more elements of `D`.
    pub fn bind_group_layout_entry(&self, data: BufferBindingType) -> (entry:
        ParitalBindGroupLayoutEntry)
        ensures
            entry.count is None,
            entry.ty == (BindingType::Buffer {
                ty: data,
                has_dynamic_offset: false,
                min_binding_size: Some(size_of::<D>() as u64),
            }),
    {
        proof {
            use_type_invariant(self);
        }
        ParitalBindGroupLayoutEntry {
            count: None,
            ty: BindingType::Buffer {
                ty: data,
                has_dynamic_offset: false,
                min_binding_size: Some(self.elt),
            },
        }
    }
}

impl<D> BuffInfo<D> {
    /// The layout of a vertex stream of elements of `D` with the attributes given:
    /// one element per step.
    pub fn layout_vertex_with(
        &self,
        step_mode: VertexStepMode,
        attributes: Vec<VertexAttribute>,
    ) -> (l: VertexBufferLayout)
        ensures
            l.array_stride as nat == size_of::<D>(),
            l.step_mode == step_mode,
            l.attributes@ == attributes@,
    {
        proof {
            use_type_invariant(self);
        }
        VertexBufferLayout { array_stride: self.elt, step_mode, attributes }
    }
}

impl<D: VertexLayoutInfo> BuffInfo<D> {
    /// The layout of a vertex stream of elements of `D`, with the attributes that `D`
    /// gives for itself: one element per step.
    pub fn layout_vertex(&self, step_mode: VertexStepMode) -> (l: VertexBufferLayout)
        ensures
            l.array_stride as nat == size_of::<D>(),
            l.step_mode == step_mode,
            l.attributes@ == D::spec_attributes(),
    {
        self.layout_vertex_with(step_mode, D::attributes())
    }
}

/// A region of backend memory that holds a fixed number of elements of type `T`.
pub struct Buff<T> {
    id: u64,
    len: u64,
    elt: u64,
    size: u64,
    _phantom_: PhantomData<T>,
}

/// A range of the elements of a region, ready to be bound or streamed.
pub struct BuffSlice<'a, T> {
    buff: &'a Buff<T>,
    first: u64,
    count: u64,
    offset: u64,
    len: u64,
}

/// `elt * a <= elt * b` whenever `a <= b`.
proof fn lemma_scale_le(elt: int, a: int, b: int)
    requires
        0 <= elt,
        a <= b,
    ensures
        elt * a <= elt * b,
{
    assert(elt * a <= elt * b) by (nonlinear_arith)
        requires
            0 <= elt,
            a <= b,
    ;
}

impl<T> Buff<T> {
    /// The region records the size of `T`, which is not zero, and the number of its bytes.
    pub closed spec fn wf(&self) -> bool {
        &&& self.elt as nat == size_of::<T>()
        &&& self.elt != 0
        &&& self.size == self.elt * self.len
    }

    #[verifier::type_invariant]
    spec fn inv(&self) -> bool {
        self.wf()
    }

    /// The name under which the backend allocation is known.
    pub closed spec fn spec_id(&self) -> u64 {
        self.id
    }

    /// The number of elements that the region holds.
    pub closed spec fn spec_len(&self) -> u64 {
        self.len
    }

    /// The number of bytes that the region holds.
    pub open spec fn spec_size(&self) -> int {
        size_of::<T>() * self.spec_len()
    }

    /// A region named `id` for the elements of `data`.
    pub fn new(id: u64, spec: &BuffInfo<T>, data: &[T]) -> (buff: Self)
        ensures
            buff.wf(),
            buff.spec_id() == id,
            buff.spec_len() == data@.len(),
    {
        broadcast use vstd::layout::layout_of_slices;

        let elt: u64 = spec.elt_size();
        let bytes: usize = std::mem::size_of_val(data);
        assert(bytes == elt * data@.len()) by (nonlinear_arith)
            requires
                bytes == data@.len() * size_of::<T>(),
                elt == size_of::<T>(),
        ;
        Buff { id, len: data.len() as u64, elt, size: bytes as u64, _phantom_: PhantomData }
    }

    /// The name under which the backend allocation is known.
    pub fn id(&self) -> (id: u64)
        ensures
            id == self.spec_id(),
    {
        self.id
    }

    /// The size of one element in bytes.
    pub fn elt_size(&self) -> (size: u64)
        ensures
            size as nat == size_of::<T>(),
            size != 0,
    {
        proof {
            use_type_invariant(self);
        }
        self.elt
    }

    /// The number of elements that the region holds.  Their bytes can be counted.
    pub fn len(&self) -> (len: u64)
        ensures
            len == self.spec_len(),
            self.spec_size() <= u64::MAX,
            0 < size_of::<T>(),
    {
        proof {
            use_type_invariant(self);
        }
        self.len
    }

    /// What the backend needs to allocate the region: its bytes, and every role but
    /// that of an index stream.
    pub fn descriptor(&self) -> (d: BufferDescriptor)
        ensures
            d.size == self.spec_size(),
            d.usage == (BufferUsages {
                copy_src: true,
                copy_dst: true,
                index: false,
                vertex: true,
                uniform: true,
                storage: true,
            }),
    {
        proof {
            use_type_invariant(self);
        }
        BufferDescriptor {
            size: self.size,
            usage: BufferUsages {
                copy_src: true,
                copy_dst: true,
                index: false,
                vertex: true,
                uniform: true,
                storage: true,
            },
        }
    }

    /// Whether `count` elements can be written from element `offset` on.
    pub fn can_write(&self, offset: u64, count: usize) -> (ok: bool)
        ensures
            ok <==> offset + count <= self.spec_len(),
    {
        offset <= self.len && count as u64 <= self.len - offset
    }

    /// The overwrite of the elements from `offset` on by those of `data`.
    pub fn write(&self, offset: u64, data: &[T]) -> (w: BufferWrite)
        requires
            offset + data@.len() <= self.spec_len(),
        ensures
            w.buffer == self.spec_id(),
            w.offset == size_of::<T>() * offset,
            w.size == size_of::<T>() * data@.len(),
    {
        proof {
            use_type_invariant(self);
            lemma_scale_le(self.elt as int, offset as int, self.len as int);
            lemma_scale_le(self.elt as int, data@.len() as int, self.len as int);
        }
        BufferWrite {
            buffer: self.id,
            offset: self.elt * offset,
            size: self.elt * (data.len() as u64),
        }
    }

    /// Whether the range from `start` to `end` can be sliced: whether the bytes that it
    /// binds can be counted.
    pub open spec fn spec_can_slice(&self, start: Bound, end: Bound) -> bool {
        size_of::<T>() * range_start(start) + bound_bytes(
            size_of::<T>() as int,
            range_count(start, end, self.spec_len() as int),
        ) <= u64::MAX
    }

    /// Every range that starts at an element of the region can be sliced, and so can
    /// every range that starts at the end of a region of fewer bytes than can be counted.
    pub proof fn lemma_can_slice(&self, start: Bound, end: Bound)
        requires
            0 < size_of::<T>(),
            self.spec_size() <= u64::MAX,
            range_start(start) < self.spec_len() || (range_start(start) == self.spec_len()
                && self.spec_size() < u64::MAX),
        ensures
            self.spec_can_slice(start, end),
    {
        let elt = size_of::<T>() as int;
        let first = range_start(start);
        let total = self.spec_len() as int;
        let count = range_count(start, end, total);
        if first == total {
        } else if count == 0 {
            lemma_scale_le(elt, first, total - 1);
            assert(elt * (total - 1) == elt * total - elt) by (nonlinear_arith);
        } else {
            lemma_scale_le(elt, first + count, total);
            assert(elt * (first + count) == elt * first + elt * count) by (nonlinear_arith);
        }
    }

    /// Whether the range from `start` to `end` can be sliced.
    pub fn can_slice(&self, start: Bound, end: Bound) -> (ok: bool)
        ensures
            ok == self.spec_can_slice(start, end),
    {
        proof {
            use_type_invariant(self);
        }
        let ghost elt = self.elt as int;
        let ghost total = self.len as int;
        let first: u64 = match start {
            Bound::Included(v) => v,
            Bound::Excluded(v) => if v == u64::MAX {
                assert(elt * (v + 1) > u64::MAX) by (nonlinear_arith)
                    requires
                        elt >= 1,
                        v == u64::MAX,
                ;
                return false;
            } else {
                v + 1
            },
            Bound::Unbounded => 0,
        };
        assert(first == range_start(start));
        if first > u64::MAX / self.elt {
            assert(elt * first > u64::MAX) by (nonlinear_arith)
                requires
                    elt >= 1,
                    first > u64::MAX / (elt as u64),
                    u64::MAX / (elt as u64) == u64::MAX as int / elt,
            ;
            return false;
        }
        assert(elt * first <= u64::MAX) by (nonlinear_arith)
            requires
                elt >= 1,
                0 <= first <= u64::MAX / (elt as u64),
                u64::MAX / (elt as u64) == u64::MAX as int / elt,
        ;
        let offset: u64 = self.elt * first;
        let asked: u64 = match end {
            Bound::Included(v) => if v < self.len {
                v + 1
            } else {
                self.len
            },
            Bound::Excluded(v) => v,
            Bound::Unbounded => self.len,
        };
        let last: u64 = if asked <= self.len {
            asked
        } else {
            self.len
        };
        let count: u64 = if last >= first {
            last - first
        } else {
            0
        };
        assert(count == range_count(start, end, total));
        proof {
            lemma_scale_le(elt, count as int, total);
        }
        let len: u64 = if count == 0 {
            1
        } else {
            self.elt * count
        };
        len <= u64::MAX - offset
    }

    /// The elements from `start` to `end`, the end clamped to the region's length.
    pub fn slice(&self, start: Bound, end: Bound) -> (s: BuffSlice<'_, T>)
        requires
            self.spec_can_slice(start, end),
        ensures
            s.wf(),
            *s.spec_buff() == *self,
            s.spec_first() == range_start(start),
            s.spec_count() == range_count(start, end, self.spec_len() as int),
    {
        proof {
            use_type_invariant(self);
        }
        let ghost elt = self.elt as int;
        let ghost total = self.len as int;
        assert(elt * range_start(start) >= range_start(start)) by (nonlinear_arith)
            requires
                elt >= 1,
                range_start(start) >= 0,
        ;
        let first: u64 = match start {
            Bound::Included(v) => v,
            Bound::Excluded(v) => v + 1,
            Bound::Unbounded => 0,
        };
        let asked: u64 = match end {
            Bound::Included(v) => if v < self.len {
                v + 1
            } else {
                self.len
            },
            Bound::Excluded(v) => v,
            Bound::Unbounded => self.len,
        };
        let last: u64 = if asked <= self.len {
            asked
        } else {
            self.len
        };
        assert(last == range_end(end, total));
        let count: u64 = if last >= first {
            last - first
        } else {
            0
        };
        proof {
            lemma_scale_le(elt, count as int, total);
        }
        let len: u64 = if count == 0 {
            1
        } else {
            self.elt * count
        };
        assert(len != 0) by (nonlinear_arith)
            requires
                len == if count == 0 { 1 } else { elt * count },
                elt >= 1,
                count >= 0,
        ;
        BuffSlice { buff: self, first, count, offset: self.elt * first, len }
    }
}

impl<'a, T> BuffSlice<'a, T> {
    /// The slice binds at least one byte, from the first of its elements on, and the
    /// bytes of all its elements where it has any; its elements are elements of its region.
    pub closed spec fn wf(&self) -> bool {
        &&& self.buff.wf()
        &&& self.offset == size_of::<T>() * self.first
        &&& self.len == bound_bytes(size_of::<T>() as int, self.count as int)
        &&& self.offset + self.len <= u64::MAX
        &&& self.count == 0 || self.first + self.count <= self.buff.len
    }

    #[verifier::type_invariant]
    spec fn inv(&self) -> bool {
        self.wf()
    }

    /// The region that the slice is taken from.
    pub closed spec fn spec_buff(&self) -> &'a Buff<T> {
        self.buff
    }

    /// The first element of the slice.
    pub closed spec fn spec_first(&self) -> u64 {
        self.first
    }

    /// The number of elements of the slice.
    pub closed spec fn spec_count(&self) -> u64 {
        self.count
    }

    /// The byte at which the slice starts.
    pub open spec fn spec_offset(&self) -> int {
        size_of::<T>() * self.spec_first()
    }

    /// The number of bytes that the slice binds.
    pub open spec fn spec_len(&self) -> int {
        bound_bytes(size_of::<T>() as int, self.spec_count() as int)
    }

    /// The region that the slice is taken from.
    pub fn buff(&self) -> (buff: &'a Buff<T>)
        ensures
            buff == self.spec_buff(),
    {
        self.buff
    }

    /// The number of elements of the slice: none, or elements that the region holds.
    pub fn count(&self) -> (count: u64)
        ensures
            count == self.spec_count(),
            count == 0 || self.spec_first() + count <= self.spec_buff().spec_len(),
    {
        proof {
            use_type_invariant(self);
        }
        self.count
    }

    /// Whether the slice has no element.
    pub fn is_empty(&self) -> (empty: bool)
        ensures
            empty <==> self.spec_count() == 0,
    {
        self.count == 0
    }

    /// The byte at which the slice starts.
    pub fn offset(&self) -> (offset: u64)
        ensures
            offset == self.spec_offset(),
    {
        proof {
            use_type_invariant(self);
        }
        self.offset
    }

    /// The number of bytes that the slice binds: never zero.
    pub fn len(&self) -> (len: u64)
        ensures
            len == self.spec_len(),
            len != 0,
    {
        proof {
            use_type_invariant(self);
            use_type_invariant(self.buff);
            let elt = size_of::<T>() as int;
            let count = self.count as int;
            assert(bound_bytes(elt, count) != 0) by (nonlinear_arith)
                requires
                    elt >= 1,
                    count >= 0,
                    bound_bytes(elt, count) == if count == 0 { 1 } else { elt * count },
            ;
        }
        self.len
    }

    /// The bytes of the slice as a vertex or an index stream takes them: bytes of the
    /// region, unless the slice is empty.
    pub fn buffer_range(&self) -> (r: BufferRange)
        ensures
            r.buffer == self.spec_buff().spec_id(),
            r.start == self.spec_offset(),
            r.end == self.spec_offset() + self.spec_len(),
            r.start < r.end,
            self.spec_count() == 0 || r.end <= self.spec_buff().spec_size(),
    {
        proof {
            use_type_invariant(self);
            use_type_invariant(self.buff);
            let elt = size_of::<T>() as int;
            let first = self.first as int;
            let count = self.count as int;
            let total = self.buff.len as int;
            if count != 0 {
                assert(elt * first + elt * count == elt * (first + count)) by (nonlinear_arith);
                lemma_scale_le(elt, first + count, total);
                assert(elt * count >= 1) by (nonlinear_arith)
                    requires
                        elt >= 1,
                        count >= 1,
                ;
            }
        }
        BufferRange { buffer: self.buff.id, start: self.offset, end: self.offset + self.len }
    }
}

} // verus!
