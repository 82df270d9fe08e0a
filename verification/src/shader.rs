//! Shader modules from GLSL sources, and the faults of sources that do not compile.
//!
//! A source is compiled in three steps.  Its text is first transformed line by line
//! (`source_text::transform_source`).  The transformed text is then parsed by a GLSL
//! front end, which the caller runs: a front end may give up on a text in ways that no
//! function here could answer for.  What the front end hands back, a module or its
//! diagnostics, is last turned into a shader module descriptor or into compile errors
//! (`include_glsl_fn`).

use vstd::prelude::*;
use vstd::utf8::encode_utf8;

verus! {

/// A parsed shader module.
#[verifier::external_type_specification]
#[verifier::external_body]
pub struct ExModule(naga::Module);

/// A fault that the parser found: where in the text it lies, and what is wrong there.
/// Lines and positions in a line count from 1; `offset` and `length` are in bytes.
#[derive(Debug)]
pub struct Diagnostic {
    pub line_number: u32,
    pub line_position: u32,
    pub offset: u32,
    pub length: u32,
    pub message: String,
}

impl Diagnostic {
    /// The fault at the place given, with the text given.
    pub fn new(line_number: u32, line_position: u32, offset: u32, length: u32, message: String) -> (d:
        Self)
        ensures
            d == (Diagnostic { line_number, line_position, offset, length, message }),
    {
        Diagnostic { line_number, line_position, offset, length, message }
    }
}

/// A `Diagnostic` as a value.
pub ghost struct DiagnosticView {
    pub line_number: u32,
    pub line_position: u32,
    pub offset: u32,
    pub length: u32,
    pub message: Seq<char>,
}

impl View for Diagnostic {
    type V = DiagnosticView;

    open spec fn view(&self) -> DiagnosticView {
        DiagnosticView {
            line_number: self.line_number,
            line_position: self.line_position,
            offset: self.offset,
            length: self.length,
            message: self.message@,
        }
    }
}

/// A fault of a shader source: the line and the column at which it lies, what is wrong
/// there, and the bytes of the text that it is about.
#[derive(Debug)]
pub struct CompileError {
    pub line: u32,
    pub column: u32,
    pub message: String,
    pub excerpt: Vec<u8>,
}

/// A `CompileError` as a value.
pub ghost struct CompileErrorView {
    pub line: u32,
    pub column: u32,
    pub message: Seq<char>,
    pub excerpt: Seq<u8>,
}

impl View for CompileError {
    type V = CompileErrorView;

    open spec fn view(&self) -> CompileErrorView {
        CompileErrorView {
            line: self.line,
            column: self.column,
            message: self.message@,
            excerpt: self.excerpt@,
        }
    }
}

/// A source that does not compile, with its faults in the order in which they were found.
#[derive(Debug)]
pub struct ShaderCompilationError {
    pub errors: Vec<CompileError>,
}

/// What the backend needs to make a shader module.
pub struct ShaderModuleDescriptor<'a> {
    pub label: Option<&'a str>,
    pub source: naga::Module,
}

/// The diagnostics held in `found`, as values.
pub open spec fn diagnostic_views(found: Seq<Diagnostic>) -> Seq<DiagnosticView> {
    Seq::new(found.len(), |i: int| found[i]@)
}

/// The compile errors held in `errors`, as values.
pub open spec fn error_views(errors: Seq<CompileError>) -> Seq<CompileErrorView> {
    Seq::new(errors.len(), |i: int| errors[i]@)
}

/// The bytes of `source` that the diagnostic `d` is about; none where it points beyond
/// the text.
pub open spec fn excerpt_of(source: Seq<u8>, d: DiagnosticView) -> Seq<u8> {
    if d.offset + d.length <= source.len() {
        source.subrange(d.offset as int, d.offset + d.length)
    } else {
        Seq::empty()
    }
}

/// The compile error that the diagnostic `d` of the text `source` stands for.
pub open spec fn explained(source: Seq<u8>, d: DiagnosticView) -> CompileErrorView {
    CompileErrorView {
        line: d.line_number,
        column: d.line_position,
        message: d.message,
        excerpt: excerpt_of(source, d),
    }
}

/// The compile errors that the diagnostics `found` of the text `source` stand for.
pub open spec fn explained_all(source: Seq<u8>, found: Seq<DiagnosticView>) -> Seq<CompileErrorView> {
    Seq::new(found.len(), |i: int| explained(source, found[i]))
}

/// The compile error that the diagnostic `d` of the text `source` stands for.
pub fn explain(source: &[u8], d: &Diagnostic) -> (e: CompileError)
    ensures
        e@ == explained(source@, d@),
{
    let mut excerpt: Vec<u8> = Vec::new();
    let from: usize = d.offset as usize;
    let count: usize = d.length as usize;
    if from <= source.len() && count <= source.len() - from {
        let mut i: usize = 0;
        while i < count
            invariant
                i <= count,
                from + count <= source@.len(),
                source@.len() <= usize::MAX,
                excerpt@ == source@.subrange(from as int, from + i),
            decreases count - i,
        {
            excerpt.push(source[from + i]);
            i += 1;
            assert(excerpt@ =~= source@.subrange(from as int, from + i));
        }
    }
    assert(excerpt@ =~= excerpt_of(source@, d@));
    CompileError { line: d.line_number, column: d.line_position, message: d.message.clone(), excerpt }
}

/// The compile errors that the diagnostics `found` of the text `source` stand for, in
/// the same order.
pub fn explain_all(source: &str, found: &Vec<Diagnostic>) -> (errors: Vec<CompileError>)
    ensures
        error_views(errors@) == explained_all(encode_utf8(source@), diagnostic_views(found@)),
{
    let bytes = source.as_bytes();
    let mut errors: Vec<CompileError> = Vec::new();
    let mut i: usize = 0;
    while i < found.len()
        invariant
            i <= found.len(),
            bytes@ == encode_utf8(source@),
            errors@.len() == i,
            forall|k: int| 0 <= k < i ==> (#[trigger] errors@[k])@ == explained(bytes@, found@[k]@),
        decreases found.len() - i,
    {
        errors.push(explain(bytes, &found[i]));
        i += 1;
    }
    assert(error_views(errors@) =~= explained_all(
        encode_utf8(source@),
        diagnostic_views(found@),
    ));
    errors
}

/// What becomes of a source whose transformed text is `text`, once a GLSL front end has
/// handed back `parsed` for it.  A module becomes the descriptor of a shader module
/// labelled `label`.  Diagnostics become compile errors in the same order, each with the
/// bytes of `text` that it is about.
pub fn include_glsl_fn<'a>(
    label: Option<&'a str>,
    text: &str,
    parsed: Result<naga::Module, Vec<Diagnostic>>,
) -> (r: Result<ShaderModuleDescriptor<'a>, ShaderCompilationError>)
    ensures
        match parsed {
            Ok(module) => {
                &&& r is Ok
                &&& r->Ok_0.label == label
                &&& r->Ok_0.source == module
            },
            Err(found) => {
                &&& r is Err
                &&& r->Err_0.errors@.len() == found@.len()
                &&& error_views(r->Err_0.errors@) == explained_all(
                    encode_utf8(text@),
                    diagnostic_views(found@),
                )
            },
        },
{
    match parsed {
        Ok(module) => Ok(ShaderModuleDescriptor { label, source: module }),
        Err(found) => {
            let errors = explain_all(text, &found);
            assert(error_views(errors@).len() == errors@.len());
            Err(ShaderCompilationError { errors })
        },
    }
}

} // verus!
