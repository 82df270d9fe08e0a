use naga::ShaderStage as Stage;
use typed_gpu::shader::{
    explain, explain_all, include_glsl_fn, Diagnostic, ShaderCompilationError,
    ShaderModuleDescriptor,
};
use typed_gpu::source_text::transform_source;

const VERTEX: &str = "#version 450\nlayout(location = 0) in vec2 position;\nvoid main() {\n    gl_Position = vec4(position, 0.0, 1.0);\n}\n";

const FRAGMENT: &str = "#version 450\nlayout(location = 0) out vec4 color;\nvoid main() {\n    color = vec4(1.0, 0.0, 0.0, 1.0);\n}\n";

fn compile<'a>(
    label: Option<&'a str>,
    src: &str,
    stage: Stage,
) -> Result<ShaderModuleDescriptor<'a>, ShaderCompilationError> {
    let text = transform_source(src);
    let options = naga::front::glsl::Options::from(stage);
    let parsed = naga::front::glsl::Frontend::default().parse(&options, &text).map_err(|errors| {
        errors
            .iter()
            .map(|e| {
                let at = e.meta.location(&text);
                Diagnostic::new(
                    at.line_number,
                    at.line_position,
                    at.offset,
                    at.length,
                    e.kind.to_string(),
                )
            })
            .collect()
    });
    include_glsl_fn(label, &text, parsed)
}

fn fault(line: u32, column: u32, offset: u32, length: u32, message: &str) -> Diagnostic {
    Diagnostic::new(line, column, offset, length, message.to_string())
}

#[test]
fn sources_that_are_valid_compile() {
    let vertex = compile(Some("draw.vert"), VERTEX, Stage::Vertex);
    assert!(vertex.is_ok());
    assert_eq!(vertex.ok().unwrap().label, Some("draw.vert"));
    let fragment = compile(None, FRAGMENT, Stage::Fragment);
    assert!(fragment.is_ok());
    assert_eq!(fragment.ok().unwrap().label, None);
    let compute = compile(
        None,
        "#version 450\nlayout(local_size_x = 16, local_size_y = 16) in;\nvoid main() {}\n",
        Stage::Compute,
    );
    assert!(compute.is_ok());
}

#[test]
fn compiled_module_has_the_entry_point_of_its_stage() {
    let vertex = compile(None, VERTEX, Stage::Vertex).ok().unwrap();
    assert_eq!(vertex.source.entry_points.len(), 1);
    assert_eq!(vertex.source.entry_points[0].name, "main");
    assert_eq!(vertex.source.entry_points[0].stage, naga::ShaderStage::Vertex);
    let fragment = compile(None, FRAGMENT, Stage::Fragment).ok().unwrap();
    assert_eq!(fragment.source.entry_points[0].stage, naga::ShaderStage::Fragment);
}

#[test]
fn source_with_a_fault_reports_where_it_lies() {
    let src = "#version 450\nvoid main() {\n    float x = nowhere;\n}\n";
    let errors = compile(None, src, Stage::Vertex).err().unwrap().errors;
    assert!(!errors.is_empty());
    assert_eq!(errors[0].line, 3);
    assert_eq!(errors[0].column, 11);
    assert_eq!(errors[0].excerpt, b"nowhere".to_vec());
    assert!(errors[0].message.contains("nowhere"));
}

#[test]
fn faults_are_placed_in_the_text_that_was_compiled() {
    let src = "#version 450\n        void main() {\n                float x = nowhere;\n}\n";
    let errors = compile(None, src, Stage::Fragment).err().unwrap().errors;
    assert_eq!(errors[0].line, 3);
    assert_eq!(errors[0].column, 11);
    assert_eq!(errors[0].excerpt, b"nowhere".to_vec());
}

#[test]
fn injected_lines_are_compiled() {
    let src = "#version 450\n//INJECT//void main() {}\n";
    assert!(compile(None, src, Stage::Vertex).is_ok());
    let without = "#version 450\n// void main() {}\n";
    assert!(compile(None, without, Stage::Vertex).is_err());
}

#[test]
fn replaced_lines_are_compiled_from_the_marker_on() {
    let src = "#version 450\nthis is no shader //REPLACE//void main() {}\n";
    assert!(compile(None, src, Stage::Vertex).is_ok());
    let without = "#version 450\nthis is no shader\n";
    assert!(compile(None, without, Stage::Vertex).is_err());
}

#[test]
fn explain_cuts_the_bytes_that_the_fault_is_about() {
    let e = explain(b"float x = nowhere;", &fault(3, 11, 10, 7, "unknown"));
    assert_eq!(e.line, 3);
    assert_eq!(e.column, 11);
    assert_eq!(e.message, "unknown");
    assert_eq!(e.excerpt, b"nowhere".to_vec());
    let whole = explain(b"abc", &fault(1, 1, 0, 3, "m"));
    assert_eq!(whole.excerpt, b"abc".to_vec());
    let none = explain(b"abc", &fault(1, 4, 3, 0, "m"));
    assert!(none.excerpt.is_empty());
}

#[test]
fn explain_cuts_nothing_beyond_the_text() {
    assert!(explain(b"abc", &fault(1, 1, 2, 2, "m")).excerpt.is_empty());
    assert!(explain(b"abc", &fault(1, 1, 4, 0, "m")).excerpt.is_empty());
    assert!(explain(b"", &fault(1, 1, 0, 1, "m")).excerpt.is_empty());
    assert!(explain(b"abc", &fault(1, 1, u32::MAX, u32::MAX, "m")).excerpt.is_empty());
}

#[test]
fn explain_all_keeps_the_order_of_the_faults() {
    let found = vec![fault(2, 1, 4, 1, "second"), fault(1, 2, 1, 2, "first")];
    let errors = explain_all("ab\u{e9}\ncd", &found);
    assert_eq!(errors.len(), 2);
    assert_eq!((errors[0].line, errors[0].column), (2, 1));
    assert_eq!(errors[0].message, "second");
    assert_eq!(errors[0].excerpt, vec![b'\n']);
    assert_eq!((errors[1].line, errors[1].column), (1, 2));
    assert_eq!(errors[1].excerpt, vec![b'b', 0xc3]);
    assert!(explain_all("", &Vec::new()).is_empty());
}

#[test]
fn module_handed_back_becomes_a_descriptor() {
    let r = include_glsl_fn(Some("empty"), "", Ok(naga::Module::default()));
    let descriptor = r.ok().unwrap();
    assert_eq!(descriptor.label, Some("empty"));
    assert!(descriptor.source.entry_points.is_empty());
    let unlabelled = include_glsl_fn(None, "void main() {}", Ok(naga::Module::default()));
    assert_eq!(unlabelled.ok().unwrap().label, None);
}

#[test]
fn diagnostics_handed_back_become_compile_errors() {
    let found = vec![fault(1, 3, 2, 3, "first"), fault(2, 1, 6, 1, "second")];
    let errors = include_glsl_fn(Some("x"), "a bcd\ne", Err(found)).err().unwrap().errors;
    assert_eq!(errors.len(), 2);
    assert_eq!((errors[0].line, errors[0].column), (1, 3));
    assert_eq!(errors[0].message, "first");
    assert_eq!(errors[0].excerpt, b"bcd".to_vec());
    assert_eq!((errors[1].line, errors[1].column), (2, 1));
    assert_eq!(errors[1].message, "second");
    assert_eq!(errors[1].excerpt, b"e".to_vec());
    let none = include_glsl_fn(None, "", Err(Vec::new())).err().unwrap().errors;
    assert!(none.is_empty());
}
