//! Vertex stream declarations.

use vstd::prelude::*;

verus! {

/// The shape of one vertex attribute.
#[derive(Clone, Copy, Debug, PartialEq, Eq, Structural)]
pub enum VertexFormat {
    Uint8x2,
    Uint8x4,
    Sint8x2,
    Sint8x4,
    Unorm8x2,
    Unorm8x4,
    Snorm8x2,
    Snorm8x4,
    Uint16x2,
    Uint16x4,
    Sint16x2,
    Sint16x4,
    Unorm16x2,
    Unorm16x4,
    Snorm16x2,
    Snorm16x4,
    Float16x2,
    Float16x4,
    Float32,
    Float32x2,
    Float32x3,
    Float32x4,
    Uint32,
    Uint32x2,
    Uint32x3,
    Uint32x4,
    Sint32,
    Sint32x2,
    Sint32x3,
    Sint32x4,
    Float64,
    Float64x2,
    Float64x3,
    Float64x4,
}

/// Whether a vertex stream advances per vertex or per instance.
#[derive(Clone, Copy, Debug, PartialEq, Eq, Structural)]
pub enum VertexStepMode {
    Vertex,
    Instance,
}

/// One attribute of an element of a vertex stream.
#[derive(Clone, Copy, Debug, PartialEq, Eq, Structural)]
pub struct VertexAttribute {
    pub format: VertexFormat,
    pub offset: u64,
    pub shader_location: u32,
}

/// How a pipeline reads one vertex stream.
#[derive(Debug)]
pub struct VertexBufferLayout {
    pub array_stride: u64,
    pub step_mode: VertexStepMode,
    pub attributes: Vec<VertexAttribute>,
}

/// An element type that says how a vertex shader reads it.
pub trait VertexLayoutInfo {
    /// The attributes of one element.
    spec fn spec_attributes() -> Seq<VertexAttribute>;

    /// The attributes of one element.
    fn attributes() -> (attributes: Vec<VertexAttribute>)
        ensures
            attributes@ == Self::spec_attributes(),
    ;
}

/// The attributes of an element that is one attribute of the format `format`, read at
/// location 0.
pub open spec fn single_attribute(format: VertexFormat) -> Seq<VertexAttribute> {
    seq![VertexAttribute { format, offset: 0, shader_location: 0 }]
}

/// The attributes of an element that is one attribute of the format `format`.
fn single(format: VertexFormat) -> (attributes: Vec<VertexAttribute>)
    ensures
        attributes@ == single_attribute(format),
{
    let attributes: Vec<VertexAttribute> = vec![
        VertexAttribute { format, offset: 0, shader_location: 0 },
    ];
    assert(attributes@ =~= single_attribute(format));
    attributes
}

impl VertexLayoutInfo for u32 {
    open spec fn spec_attributes() -> Seq<VertexAttribute> {
        single_attribute(VertexFormat::Uint32)
    }

    fn attributes() -> (attributes: Vec<VertexAttribute>) {
        single(VertexFormat::Uint32)
    }
}

impl VertexLayoutInfo for [u32; 2] {
    open spec fn spec_attributes() -> Seq<VertexAttribute> {
        single_attribute(VertexFormat::Uint32x2)
    }

    fn attributes() -> (attributes: Vec<VertexAttribute>) {
        single(VertexFormat::Uint32x2)
    }
}

impl VertexLayoutInfo for [u32; 3] {
    open spec fn spec_attributes() -> Seq<VertexAttribute> {
        single_attribute(VertexFormat::Uint32x3)
    }

    fn attributes() -> (attributes: Vec<VertexAttribute>) {
        single(VertexFormat::Uint32x3)
    }
}

impl VertexLayoutInfo for [u32; 4] {
    open spec fn spec_attributes() -> Seq<VertexAttribute> {
        single_attribute(VertexFormat::Uint32x4)
    }

    fn attributes() -> (attributes: Vec<VertexAttribute>) {
        single(VertexFormat::Uint32x4)
    }
}

impl VertexLayoutInfo for i32 {
    open spec fn spec_attributes() -> Seq<VertexAttribute> {
        single_attribute(VertexFormat::Sint32)
    }

    fn attributes() -> (attributes: Vec<VertexAttribute>) {
        single(VertexFormat::Sint32)
    }
}

impl VertexLayoutInfo for [i32; 2] {
    open spec fn spec_attributes() -> Seq<VertexAttribute> {
        single_attribute(VertexFormat::Sint32x2)
    }

    fn attributes() -> (attributes: Vec<VertexAttribute>) {
        single(VertexFormat::Sint32x2)
    }
}

impl VertexLayoutInfo for [i32; 3] {
    open spec fn spec_attributes() -> Seq<VertexAttribute> {
        single_attribute(VertexFormat::Sint32x3)
    }

    fn attributes() -> (attributes: Vec<VertexAttribute>) {
        single(VertexFormat::Sint32x3)
    }
}

impl VertexLayoutInfo for [i32; 4] {
    open spec fn spec_attributes() -> Seq<VertexAttribute> {
        single_attribute(VertexFormat::Sint32x4)
    }

    fn attributes() -> (attributes: Vec<VertexAttribute>) {
        single(VertexFormat::Sint32x4)
    }
}

impl VertexLayoutInfo for [u8; 2] {
    open spec fn spec_attributes() -> Seq<VertexAttribute> {
        single_attribute(VertexFormat::Uint8x2)
    }

    fn attributes() -> (attributes: Vec<VertexAttribute>) {
        single(VertexFormat::Uint8x2)
    }
}

impl VertexLayoutInfo for [u8; 4] {
    open spec fn spec_attributes() -> Seq<VertexAttribute> {
        single_attribute(VertexFormat::Uint8x4)
    }

    fn attributes() -> (attributes: Vec<VertexAttribute>) {
        single(VertexFormat::Uint8x4)
    }
}

impl VertexLayoutInfo for [i8; 2] {
    open spec fn spec_attributes() -> Seq<VertexAttribute> {
        single_attribute(VertexFormat::Sint8x2)
    }

    fn attributes() -> (attributes: Vec<VertexAttribute>) {
        single(VertexFormat::Sint8x2)
    }
}

impl VertexLayoutInfo for [i8; 4] {
    open spec fn spec_attributes() -> Seq<VertexAttribute> {
        single_attribute(VertexFormat::Sint8x4)
    }

    fn attributes() -> (attributes: Vec<VertexAttribute>) {
        single(VertexFormat::Sint8x4)
    }
}

impl VertexLayoutInfo for [u16; 2] {
    open spec fn spec_attributes() -> Seq<VertexAttribute> {
        single_attribute(VertexFormat::Uint16x2)
    }

    fn attributes() -> (attributes: Vec<VertexAttribute>) {
        single(VertexFormat::Uint16x2)
    }
}

impl VertexLayoutInfo for [u16; 4] {
    open spec fn spec_attributes() -> Seq<VertexAttribute> {
        single_attribute(VertexFormat::Uint16x4)
    }

    fn attributes() -> (attributes: Vec<VertexAttribute>) {
        single(VertexFormat::Uint16x4)
    }
}

impl VertexLayoutInfo for [i16; 2] {
    open spec fn spec_attributes() -> Seq<VertexAttribute> {
        single_attribute(VertexFormat::Sint16x2)
    }

    fn attributes() -> (attributes: Vec<VertexAttribute>) {
        single(VertexFormat::Sint16x2)
    }
}

impl VertexLayoutInfo for [i16; 4] {
    open spec fn spec_attributes() -> Seq<VertexAttribute> {
        single_attribute(VertexFormat::Sint16x4)
    }

    fn attributes() -> (attributes: Vec<VertexAttribute>) {
        single(VertexFormat::Sint16x4)
    }
}

} // verus!
