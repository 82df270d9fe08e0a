//! Pipeline schemes: shader stages, vertex streams and bind group schemes fixed once,
//! and draws and dispatches that are checked against them.

use vstd::prelude::*;
use vstd::layout::size_of;
use std::marker::PhantomData;
use std::ops::Range;
use crate::layout::LayoutDescriptor;
use crate::region::{BuffInfo, BuffSlice, BufferRange};
use crate::scheme::{copy_descriptors, BindGroupScheme, BindingInstance, SchemeKey};
use crate::vertex::{VertexAttribute, VertexBufferLayout, VertexStepMode};

verus! {

/// Why a set of bind groups does not fit a pipeline.
#[derive(Clone, Copy, Debug, PartialEq, Eq, Structural)]
pub enum PipelineError {
    /// The pipeline was built with `expected` schemes and `found` bind groups were offered.
    CountMismatch { expected: usize, found: usize },
    /// The bind group at `index` was not made by the scheme at `index`, but by one of
    /// another name or of other slots; those before it were made by theirs.
    SchemeMismatch { index: usize },
}

/// The size of the blocks of an ASTC format, in texels.
#[derive(Clone, Copy, Debug, PartialEq, Eq, Structural)]
pub enum AstcBlock {
    B4x4,
    B5x4,
    B5x5,
    B6x5,
    B6x6,
    B8x5,
    B8x6,
    B8x8,
    B10x5,
    B10x6,
    B10x8,
    B10x10,
    B12x10,
    B12x12,
}

/// How the channels of an ASTC format are read.
#[derive(Clone, Copy, Debug, PartialEq, Eq, Structural)]
pub enum AstcChannel {
    Unorm,
    UnormSrgb,
    Hdr,
}

/// The texel formats of the targets of a render pipeline: every format that a backend
/// may report for a surface or an image.
#[derive(Clone, Copy, Debug, PartialEq, Eq, Structural)]
pub enum TargetFormat {
    R8Unorm,
    R8Snorm,
    R8Uint,
    R8Sint,
    R16Uint,
    R16Sint,
    R16Unorm,
    R16Snorm,
    R16Float,
    Rg8Unorm,
    Rg8Snorm,
    Rg8Uint,
    Rg8Sint,
    R32Uint,
    R32Sint,
    R32Float,
    Rg16Uint,
    Rg16Sint,
    Rg16Unorm,
    Rg16Snorm,
    Rg16Float,
    Rgba8Unorm,
    Rgba8UnormSrgb,
    Rgba8Snorm,
    Rgba8Uint,
    Rgba8Sint,
    Bgra8Unorm,
    Bgra8UnormSrgb,
    Rgb9e5Ufloat,
    Rgb10a2Unorm,
    Rg11b10Float,
    Rg32Uint,
    Rg32Sint,
    Rg32Float,
    Rgba16Uint,
    Rgba16Sint,
    Rgba16Unorm,
    Rgba16Snorm,
    Rgba16Float,
    Rgba32Uint,
    Rgba32Sint,
    Rgba32Float,
    Stencil8,
    Depth16Unorm,
    Depth24Plus,
    Depth24PlusStencil8,
    Depth32Float,
    Depth32FloatStencil8,
    Bc1RgbaUnorm,
    Bc1RgbaUnormSrgb,
    Bc2RgbaUnorm,
    Bc2RgbaUnormSrgb,
    Bc3RgbaUnorm,
    Bc3RgbaUnormSrgb,
    Bc4RUnorm,
    Bc4RSnorm,
    Bc5RgUnorm,
    Bc5RgSnorm,
    Bc6hRgbUfloat,
    Bc6hRgbFloat,
    Bc7RgbaUnorm,
    Bc7RgbaUnormSrgb,
    Etc2Rgb8Unorm,
    Etc2Rgb8UnormSrgb,
    Etc2Rgb8A1Unorm,
    Etc2Rgb8A1UnormSrgb,
    Etc2Rgba8Unorm,
    Etc2Rgba8UnormSrgb,
    EacR11Unorm,
    EacR11Snorm,
    EacRg11Unorm,
    EacRg11Snorm,
    Astc { block: AstcBlock, channel: AstcChannel },
}

/// The width of the indices of an index stream.
#[derive(Clone, Copy, Debug, PartialEq, Eq, Structural)]
pub enum IndexFormat {
    Uint16,
    Uint32,
}

/// One stage of a pipeline: a compiled shader module and the function to enter it by.
#[derive(Debug)]
pub struct ShaderStage {
    pub module: u64,
    pub entry_point: String,
}

/// An indexed draw, ready to be recorded: bind group `i` is set at index `i` for each
/// `i` below `bind_groups`, then the streams, then the draw.
#[derive(Clone, Copy, Debug, PartialEq, Eq, Structural)]
pub struct DrawIndexed {
    pub bind_groups: usize,
    pub index_buffer: BufferRange,
    pub index_format: IndexFormat,
    pub vertex_buffer: BufferRange,
    pub first_index: u32,
    pub end_index: u32,
    pub base_vertex: i32,
    pub first_instance: u32,
    pub end_instance: u32,
}

/// A compute dispatch, ready to be recorded: bind group `i` is set at index `i` for each
/// `i` below `bind_groups`, then the work groups are started.
#[derive(Clone, Copy, Debug, PartialEq, Eq, Structural)]
pub struct Dispatch {
    pub bind_groups: usize,
    pub x: u32,
    pub y: u32,
    pub z: u32,
}

/// The schemes held in `schemes`, each as what tells its bind groups from others.
pub open spec fn keys_of(schemes: Seq<(u64, Vec<LayoutDescriptor>)>) -> Seq<SchemeKey> {
    Seq::new(schemes.len(), |i: int| SchemeKey { id: schemes[i].0, slots: schemes[i].1@ })
}

/// Whether the bind groups before `end` were made by the schemes at their places.
pub open spec fn made_by_before(
    schemes: Seq<SchemeKey>,
    bindings: Seq<&BindingInstance>,
    end: int,
) -> bool {
    forall|i: int| 0 <= i < end ==> (#[trigger] bindings[i]).spec_key() == schemes[i]
}

/// Whether `bindings` holds one bind group for each of `schemes`, each made by the
/// scheme at its place.
pub open spec fn made_by(schemes: Seq<SchemeKey>, bindings: Seq<&BindingInstance>) -> bool {
    &&& bindings.len() == schemes.len()
    &&& made_by_before(schemes, bindings, schemes.len() as int)
}

/// Whether two layouts declare the same slots in the same order.
fn same_layout(a: &Vec<LayoutDescriptor>, b: &Vec<LayoutDescriptor>) -> (same: bool)
    ensures
        same <==> a@ == b@,
{
    if a.len() != b.len() {
        return false;
    }
    let mut i: usize = 0;
    while i < a.len()
        invariant
            i <= a.len(),
            a.len() == b.len(),
            forall|k: int| 0 <= k < i ==> a@[k] == b@[k],
        decreases a.len() - i,
    {
        if a[i] != b[i] {
            return false;
        }
        i += 1;
    }
    assert(a@ =~= b@);
    true
}

/// The names and the slots of `schemes`, in order.
fn collect_schemes(schemes: &Vec<&BindGroupScheme>) -> (kept: Vec<(u64, Vec<LayoutDescriptor>)>)
    ensures
        kept@.len() == schemes@.len(),
        forall|i: int| 0 <= i < schemes@.len() ==> #[trigger] keys_of(kept@)[i] == schemes@[i].spec_key(),
{
    let mut kept: Vec<(u64, Vec<LayoutDescriptor>)> = Vec::new();
    let mut i: usize = 0;
    while i < schemes.len()
        invariant
            i <= schemes.len(),
            kept@.len() == i,
            forall|k: int| 0 <= k < i ==> #[trigger] keys_of(kept@)[k] == schemes@[k].spec_key(),
        decreases schemes.len() - i,
    {
        let ghost before = kept@;
        kept.push((schemes[i].id(), copy_descriptors(schemes[i].descriptors())));
        assert forall|k: int| 0 <= k < i + 1 implies #[trigger] keys_of(kept@)[k] == schemes@[
            k
        ].spec_key() by {
            if k < i {
                assert(kept@[k] == before[k]);
                assert(keys_of(before)[k] == schemes@[k].spec_key());
            }
        }
        i += 1;
    }
    kept
}

/// Checks `bindings` against the schemes that a pipeline was built with.
fn check_bindings(schemes: &Vec<(u64, Vec<LayoutDescriptor>)>, bindings: &Vec<&BindingInstance>) -> (r:
    Result<(), PipelineError>)
    ensures
        r is Ok <==> made_by(keys_of(schemes@), bindings@),
        match r {
            Ok(()) => made_by(keys_of(schemes@), bindings@),
            Err(PipelineError::CountMismatch { expected, found }) => {
                &&& bindings@.len() != schemes@.len()
                &&& expected == schemes@.len()
                &&& found == bindings@.len()
            },
            Err(PipelineError::SchemeMismatch { index }) => {
                &&& bindings@.len() == schemes@.len()
                &&& index < bindings@.len()
                &&& bindings@[index as int].spec_key() != keys_of(schemes@)[index as int]
                &&& made_by_before(keys_of(schemes@), bindings@, index as int)
            },
        },
{
    if bindings.len() != schemes.len() {
        return Err(PipelineError::CountMismatch { expected: schemes.len(), found: bindings.len() });
    }
    let mut i: usize = 0;
    while i < schemes.len()
        invariant
            i <= schemes.len(),
            bindings@.len() == schemes@.len(),
            made_by_before(keys_of(schemes@), bindings@, i as int),
        decreases schemes.len() - i,
    {
        if bindings[i].scheme() != schemes[i].0 || !same_layout(bindings[i].layout(), &schemes[i].1) {
            return Err(PipelineError::SchemeMismatch { index: i });
        }
        i += 1;
    }
    Ok(())
}

/// A render pipeline whose vertex stream holds elements of type `V`.
pub struct RenderPipelineScheme<V> {
    vertex: ShaderStage,
    fragment: ShaderStage,
    targets: Vec<Option<TargetFormat>>,
    vertex_layout: VertexBufferLayout,
    schemes: Vec<(u64, Vec<LayoutDescriptor>)>,
    _phantom_: PhantomData<V>,
}

impl<V> RenderPipelineScheme<V> {
    /// The schemes that the pipeline was built with, in order.
    pub closed spec fn spec_schemes(&self) -> Seq<SchemeKey> {
        keys_of(self.schemes@)
    }

    /// The vertex stage.
    pub closed spec fn spec_vertex(&self) -> ShaderStage {
        self.vertex
    }

    /// The fragment stage.
    pub closed spec fn spec_fragment(&self) -> ShaderStage {
        self.fragment
    }

    /// The formats of the color targets.
    pub closed spec fn spec_targets(&self) -> Seq<Option<TargetFormat>> {
        self.targets@
    }

    /// The layout of the vertex stream.
    pub closed spec fn spec_vertex_layout(&self) -> VertexBufferLayout {
        self.vertex_layout
    }

    /// A pipeline of the two stages that draws into `targets`, reads one vertex stream
    /// of elements of `V` with the attributes given, and takes one bind group for each
    /// of `schemes`, in order.
    pub fn new(
        vertex: ShaderStage,
        fragment: ShaderStage,
        targets: Vec<Option<TargetFormat>>,
        vertex_info: &BuffInfo<V>,
        step_mode: VertexStepMode,
        attributes: Vec<VertexAttribute>,
        schemes: &Vec<&BindGroupScheme>,
    ) -> (pipeline: Self)
        ensures
            pipeline.spec_vertex() == vertex,
            pipeline.spec_fragment() == fragment,
            pipeline.spec_targets() == targets@,
            pipeline.spec_vertex_layout().array_stride as nat == size_of::<V>(),
            pipeline.spec_vertex_layout().step_mode == step_mode,
            pipeline.spec_vertex_layout().attributes@ == attributes@,
            pipeline.spec_schemes().len() == schemes@.len(),
            forall|i: int| 0 <= i < schemes@.len() ==> #[trigger] pipeline.spec_schemes()[i] == schemes@[i].spec_key(),
    {
        let vertex_layout = vertex_info.layout_vertex_with(step_mode, attributes);
        let kept = collect_schemes(schemes);
        RenderPipelineScheme {
            vertex,
            fragment,
            targets,
            vertex_layout,
            schemes: kept,
            _phantom_: PhantomData,
        }
    }

    /// The vertex stage.
    pub fn vertex(&self) -> (stage: &ShaderStage)
        ensures
            *stage == self.spec_vertex(),
    {
        &self.vertex
    }

    /// The fragment stage.
    pub fn fragment(&self) -> (stage: &ShaderStage)
        ensures
            *stage == self.spec_fragment(),
    {
        &self.fragment
    }

    /// The formats of the color targets.
    pub fn targets(&self) -> (targets: &Vec<Option<TargetFormat>>)
        ensures
            targets@ == self.spec_targets(),
    {
        &self.targets
    }

    /// The layout of the vertex stream.
    pub fn vertex_layout(&self) -> (layout: &VertexBufferLayout)
        ensures
            *layout == self.spec_vertex_layout(),
    {
        &self.vertex_layout
    }

    /// The names and the slots of the schemes that the pipeline was built with, in order.
    pub fn schemes(&self) -> (schemes: &Vec<(u64, Vec<LayoutDescriptor>)>)
        ensures
            keys_of(schemes@) == self.spec_schemes(),
    {
        &self.schemes
    }

    /// The indexed draw of the indices `indices` for the instances `instances`, with
    /// 16-bit indices from `index_slice` and vertices from `vertex_slice`, if `bindings`
    /// holds one bind group for each scheme of the pipeline, each made by the scheme at
    /// its place.  Otherwise the error says how the counts differ, or names the first
    /// bind group that another scheme made.
    pub fn draw_indexed(
        &self,
        indices: Range<u32>,
        instances: Range<u32>,
        index_slice: &BuffSlice<'_, u16>,
        vertex_slice: &BuffSlice<'_, V>,
        bindings: &Vec<&BindingInstance>,
    ) -> (r: Result<DrawIndexed, PipelineError>)
        ensures
            r is Ok <==> made_by(self.spec_schemes(), bindings@),
            match r {
                Ok(draw) => {
                    &&& made_by(self.spec_schemes(), bindings@)
                    &&& draw == (DrawIndexed {
                        bind_groups: bindings@.len() as usize,
                        index_buffer: BufferRange {
                            buffer: index_slice.spec_buff().spec_id(),
                            start: index_slice.spec_offset() as u64,
                            end: (index_slice.spec_offset() + index_slice.spec_len()) as u64,
                        },
                        index_format: IndexFormat::Uint16,
                        vertex_buffer: BufferRange {
                            buffer: vertex_slice.spec_buff().spec_id(),
                            start: vertex_slice.spec_offset() as u64,
                            end: (vertex_slice.spec_offset() + vertex_slice.spec_len()) as u64,
                        },
                        first_index: indices.start,
                        end_index: indices.end,
                        base_vertex: 0,
                        first_instance: instances.start,
                        end_instance: instances.end,
                    })
                },
                Err(PipelineError::CountMismatch { expected, found }) => {
                    &&& bindings@.len() != self.spec_schemes().len()
                    &&& expected == self.spec_schemes().len()
                    &&& found == bindings@.len()
                },
                Err(PipelineError::SchemeMismatch { index }) => {
                    &&& bindings@.len() == self.spec_schemes().len()
                    &&& index < bindings@.len()
                    &&& bindings@[index as int].spec_key() != self.spec_schemes()[index as int]
                    &&& made_by_before(self.spec_schemes(), bindings@, index as int)
                },
            },
    {
        match check_bindings(&self.schemes, bindings) {
            Err(e) => Err(e),
            Ok(()) => Ok(
                DrawIndexed {
                    bind_groups: bindings.len(),
                    index_buffer: index_slice.buffer_range(),
                    index_format: IndexFormat::Uint16,
                    vertex_buffer: vertex_slice.buffer_range(),
                    first_index: indices.start,
                    end_index: indices.end,
                    base_vertex: 0,
                    first_instance: instances.start,
                    end_instance: instances.end,
                },
            ),
        }
    }
}

/// A compute pipeline.
pub struct ComputePipelineScheme {
    stage: ShaderStage,
    schemes: Vec<(u64, Vec<LayoutDescriptor>)>,
}

impl ComputePipelineScheme {
    /// The schemes that the pipeline was built with, in order.
    pub closed spec fn spec_schemes(&self) -> Seq<SchemeKey> {
        keys_of(self.schemes@)
    }

    /// The compute stage.
    pub closed spec fn spec_stage(&self) -> ShaderStage {
        self.stage
    }

    /// A pipeline of the stage given that takes one bind group for each of `schemes`,
    /// in order.
    pub fn new(stage: ShaderStage, schemes: &Vec<&BindGroupScheme>) -> (pipeline: Self)
        ensures
            pipeline.spec_stage() == stage,
            pipeline.spec_schemes().len() == schemes@.len(),
            forall|i: int| 0 <= i < schemes@.len() ==> #[trigger] pipeline.spec_schemes()[i] == schemes@[i].spec_key(),
    {
        let kept = collect_schemes(schemes);
        ComputePipelineScheme { stage, schemes: kept }
    }

    /// The compute stage.
    pub fn stage(&self) -> (stage: &ShaderStage)
        ensures
            *stage == self.spec_stage(),
    {
        &self.stage
    }

    /// The names and the slots of the schemes that the pipeline was built with, in order.
    pub fn schemes(&self) -> (schemes: &Vec<(u64, Vec<LayoutDescriptor>)>)
        ensures
            keys_of(schemes@) == self.spec_schemes(),
    {
        &self.schemes
    }

    /// The dispatch of `workgroups` work groups along the three axes, if `bindings` holds
    /// one bind group for each scheme of the pipeline, each made by the scheme at its
    /// place.  Otherwise the error says how the counts differ, or names the first bind
    /// group that another scheme made.
    pub fn dispatch(&self, workgroups: (u32, u32, u32), bindings: &Vec<&BindingInstance>) -> (r:
        Result<Dispatch, PipelineError>)
        ensures
            r is Ok <==> made_by(self.spec_schemes(), bindings@),
            match r {
                Ok(dispatch) => {
                    &&& made_by(self.spec_schemes(), bindings@)
                    &&& dispatch == (Dispatch {
                        bind_groups: bindings@.len() as usize,
                        x: workgroups.0,
                        y: workgroups.1,
                        z: workgroups.2,
                    })
                },
                Err(PipelineError::CountMismatch { expected, found }) => {
                    &&& bindings@.len() != self.spec_schemes().len()
                    &&& expected == self.spec_schemes().len()
                    &&& found == bindings@.len()
                },
                Err(PipelineError::SchemeMismatch { index }) => {
                    &&& bindings@.len() == self.spec_schemes().len()
                    &&& index < bindings@.len()
                    &&& bindings@[index as int].spec_key() != self.spec_schemes()[index as int]
                    &&& made_by_before(self.spec_schemes(), bindings@, index as int)
                },
            },
    {
        match check_bindings(&self.schemes, bindings) {
            Err(e) => Err(e),
            Ok(()) => Ok(
                Dispatch {
                    bind_groups: bindings.len(),
                    x: workgroups.0,
                    y: workgroups.1,
                    z: workgroups.2,
                },
            ),
        }
    }
}

} // verus!
