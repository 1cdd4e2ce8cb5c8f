use gears::annotation::{AnnotationErrorKind, BindgenFieldType, BindgenStruct};
use gears::layout::GlslType;
use gears::lexer::{lex, number, Lexeme};
use gears::registry::{Direction, RegistryError, StructRegistry};
use gears::stage::ModuleType;

fn chars(text: &str) -> Vec<char> {
    text.chars().collect()
}

#[test]
fn automatic_slots_are_the_lowest_free() {
    let mut registry = StructRegistry::new();
    assert_eq!(registry.register(ModuleType::Vertex, "a", Direction::In, 1, None), Ok(0));
    assert_eq!(registry.register(ModuleType::Vertex, "b", Direction::In, 2, None), Ok(1));
    assert_eq!(registry.register(ModuleType::Vertex, "c", Direction::In, 1, None), Ok(3));
    assert_eq!(registry.len(), 3);
    let second = registry.field(1).unwrap();
    assert_eq!(second.name, "b");
    assert_eq!(second.stage, ModuleType::Vertex);
    assert_eq!(second.direction, Direction::In);
    assert_eq!((second.slot, second.width), (1, 2));
    assert!(registry.field(3).is_none());
    assert!(registry.contains(ModuleType::Vertex, "b"));
    assert!(!registry.contains(ModuleType::Fragment, "b"));
    assert!(!registry.contains(ModuleType::Vertex, "d"));
}

#[test]
fn automatic_slots_fill_holes() {
    let mut registry = StructRegistry::new();
    assert_eq!(registry.register(ModuleType::Vertex, "a", Direction::In, 1, Some(1)), Ok(1));
    assert_eq!(registry.register(ModuleType::Vertex, "b", Direction::In, 1, Some(4)), Ok(4));
    assert_eq!(registry.register(ModuleType::Vertex, "c", Direction::In, 1, None), Ok(0));
    assert_eq!(registry.register(ModuleType::Vertex, "d", Direction::In, 2, None), Ok(2));
    assert_eq!(registry.register(ModuleType::Vertex, "e", Direction::In, 2, None), Ok(5));
}

#[test]
fn slots_are_counted_for_each_class_and_stage() {
    let mut registry = StructRegistry::new();
    assert_eq!(registry.register(ModuleType::Vertex, "a", Direction::In, 1, None), Ok(0));
    assert_eq!(registry.register(ModuleType::Vertex, "b", Direction::Out, 1, None), Ok(0));
    assert_eq!(registry.register(ModuleType::Vertex, "c", Direction::Uniform, 1, Some(0)), Ok(0));
    registry.next_module();
    assert_eq!(registry.register(ModuleType::Fragment, "a", Direction::In, 1, None), Ok(0));
    assert_eq!(registry.register(ModuleType::Fragment, "c", Direction::Uniform, 1, Some(0)), Ok(0));
}

#[test]
fn a_name_is_registered_once_in_a_stage() {
    let mut registry = StructRegistry::new();
    assert_eq!(registry.register(ModuleType::Vertex, "a", Direction::In, 1, None), Ok(0));
    assert_eq!(
        registry.register(ModuleType::Vertex, "a", Direction::In, 1, None),
        Err(RegistryError::Redeclared)
    );
    assert_eq!(
        registry.register(ModuleType::Vertex, "a", Direction::Out, 1, Some(7)),
        Err(RegistryError::Redeclared)
    );
    assert_eq!(registry.register(ModuleType::Vertex, "b", Direction::In, 1, Some(9)), Ok(9));
    assert_eq!(
        registry.register(ModuleType::Vertex, "b", Direction::In, 1, None),
        Err(RegistryError::Redeclared)
    );
    registry.next_module();
    assert_eq!(
        registry.register(ModuleType::Vertex, "a", Direction::Uniform, 1, Some(3)),
        Err(RegistryError::Redeclared)
    );
    assert_eq!(registry.len(), 2);
}

#[test]
fn taken_slots_collide() {
    let mut registry = StructRegistry::new();
    assert_eq!(registry.register(ModuleType::Vertex, "a", Direction::In, 3, Some(2)), Ok(2));
    assert_eq!(
        registry.register(ModuleType::Vertex, "b", Direction::In, 1, Some(4)),
        Err(RegistryError::SlotCollision)
    );
    assert_eq!(
        registry.register(ModuleType::Vertex, "b", Direction::In, 2, Some(1)),
        Err(RegistryError::SlotCollision)
    );
    assert_eq!(registry.register(ModuleType::Vertex, "b", Direction::In, 2, Some(0)), Ok(0));
    assert_eq!(registry.register(ModuleType::Vertex, "c", Direction::In, 1, Some(5)), Ok(5));
    assert_eq!(registry.len(), 3);
}

#[test]
fn slots_beyond_the_number_range() {
    let mut registry = StructRegistry::new();
    assert_eq!(
        registry.register(ModuleType::Vertex, "a", Direction::In, 2, Some(usize::MAX)),
        Err(RegistryError::OutOfSlots)
    );
    assert_eq!(
        registry.register(ModuleType::Vertex, "a", Direction::In, usize::MAX, Some(0)),
        Ok(0)
    );
    assert_eq!(
        registry.register(ModuleType::Vertex, "b", Direction::In, 1, None),
        Err(RegistryError::OutOfSlots)
    );
}

#[test]
fn outputs_of_the_preceding_stage_are_found() {
    let mut registry = StructRegistry::new();
    registry.next_module();
    assert_eq!(registry.register(ModuleType::Vertex, "colour", Direction::Out, 1, Some(3)), Ok(3));
    assert_eq!(registry.register(ModuleType::Vertex, "pos", Direction::In, 1, None), Ok(0));
    assert_eq!(registry.matching_output("colour"), None);
    registry.next_module();
    assert_eq!(registry.matching_output("colour"), Some(3));
    assert_eq!(registry.matching_output("pos"), None);
    assert_eq!(registry.matching_output("other"), None);
    registry.next_module();
    assert_eq!(registry.matching_output("colour"), None);
}

#[test]
fn lexemes() {
    let found = lex(&chars("#[a_1(in)]\n x{ y;}"));
    let shown: Vec<String> = found
        .iter()
        .map(|l| match l {
            Lexeme::Word(w) => w.iter().collect::<String>(),
            Lexeme::Sym(c) => format!("<{}>", c),
        })
        .collect();
    assert_eq!(
        shown,
        vec!["<#>", "<[>", "a_1", "<(>", "in", "<)>", "<]>", "x", "<{>", "y", "<;>", "<}>"]
    );
    assert!(lex(&chars(" \t\n")).is_empty());
}

#[test]
fn numbers() {
    assert_eq!(number(&chars("0")), Some(0));
    assert_eq!(number(&chars("007")), Some(7));
    assert_eq!(number(&chars("1234")), Some(1234));
    assert_eq!(number(&chars("")), None);
    assert_eq!(number(&chars("12a")), None);
    assert_eq!(number(&chars(&usize::MAX.to_string())), Some(usize::MAX));
    assert_eq!(number(&chars(&format!("{}0", usize::MAX))), None);
}

#[test]
fn annotated_uniform_block() {
    let text = "#[gears_bindgen(uniform(binding = 2))]\nstruct UBO {\n    mat4 mvp;\n    float time;\n} ubo;";
    let mut block = BindgenStruct::parse(text, ModuleType::Fragment).unwrap();
    assert!(block.meta.bind);
    assert_eq!(block.meta.in_module, ModuleType::Fragment);
    assert_eq!(block.meta.bind_type, BindgenFieldType::Uniform(2));
    assert_eq!(block.struct_name, "UBO");
    assert_eq!(block.field_name, "ubo");
    assert_eq!(block.members.len(), 2);
    assert_eq!(block.members[0].ty, GlslType::Mat4);
    assert_eq!(block.members[0].name, "mvp");
    assert_eq!(block.members[1].ty, GlslType::Float);
    assert_eq!(block.members[1].name, "time");
    assert_eq!(block.slot, None);
    assert_eq!(block.direction(), Direction::Uniform);
    assert_eq!(block.width(), Some(1));
    assert_eq!(block.explicit(), Some(2));
    let mut registry = StructRegistry::new();
    assert_eq!(block.generate(&mut registry), Ok(()));
    assert_eq!(block.slot, Some(2));
    assert_eq!(
        block.to_glsl(),
        "\nlayout(binding = 2) uniform UBO {\n    mat4 mvp;\n    float time;\n} ubo;\n"
    );
}

#[test]
fn annotated_input_block() {
    let text = "#[gears_gen(in)] struct V { vec3 pos; mat3 basis; vec2 uv; } vin;";
    let mut block = BindgenStruct::parse(text, ModuleType::Vertex).unwrap();
    assert!(!block.meta.bind);
    assert_eq!(block.meta.bind_type, BindgenFieldType::In(None));
    assert_eq!(block.width(), Some(5));
    let mut registry = StructRegistry::new();
    assert_eq!(registry.register(ModuleType::Vertex, "other", Direction::In, 2, None), Ok(0));
    assert_eq!(block.generate(&mut registry), Ok(()));
    assert_eq!(block.slot, Some(2));
    assert_eq!(block.first_slot(), 2);
    assert_eq!(
        block.to_glsl(),
        "\nlayout(location = 2) in vec3 _vin_pos;\nlayout(location = 3) in mat3 _vin_basis;\nlayout(location = 6) in vec2 _vin_uv;\n"
    );
    assert_eq!(block.rename_pattern(), "\\bvin\\.\\b");
    assert_eq!(block.rename_prefix(), "_vin_");
}

#[test]
fn annotated_output_block_with_location() {
    let text = "#[gears_gen(out(location = 12))] struct F { vec4 colour; } fout;";
    let mut block = BindgenStruct::parse(text, ModuleType::Fragment).unwrap();
    assert_eq!(block.meta.bind_type, BindgenFieldType::Out(Some(12)));
    assert_eq!(block.first_slot(), 12);
    let mut registry = StructRegistry::new();
    assert_eq!(block.generate(&mut registry), Ok(()));
    assert_eq!(block.to_glsl(), "\nlayout(location = 12) out vec4 _fout_colour;\n");
}

#[test]
fn a_block_is_registered_once() {
    let text = "#[gears_gen(in)] struct V { vec3 pos; } vin;";
    let mut registry = StructRegistry::new();
    let mut first = BindgenStruct::parse(text, ModuleType::Vertex).unwrap();
    assert_eq!(first.generate(&mut registry), Ok(()));
    let mut second = BindgenStruct::parse(text, ModuleType::Vertex).unwrap();
    assert_eq!(second.generate(&mut registry), Err(RegistryError::Redeclared));
    assert_eq!(second.slot, None);
    let mut third =
        BindgenStruct::parse("#[gears_gen(out(location = 9))] struct W { float x; } vin;", ModuleType::Vertex)
            .unwrap();
    assert_eq!(third.generate(&mut registry), Err(RegistryError::Redeclared));
    let mut other = BindgenStruct::parse(text, ModuleType::Fragment).unwrap();
    assert_eq!(other.generate(&mut registry), Ok(()));
    assert_eq!(registry.len(), 2);
}

#[test]
fn malformed_annotations() {
    let cases = [
        ("", AnnotationErrorKind::Syntax, 0),
        ("[gears_gen(in)]", AnnotationErrorKind::Syntax, 0),
        ("#[gears_make(in)] struct V { } v;", AnnotationErrorKind::UnknownMarker, 2),
        ("#[gears_gen in] struct V { } v;", AnnotationErrorKind::Syntax, 3),
        ("#[gears_gen(inout)] struct V { } v;", AnnotationErrorKind::UnknownDirection, 4),
        ("#[gears_gen(uniform)] struct V { } v;", AnnotationErrorKind::Syntax, 5),
        ("#[gears_gen(uniform(location = 1))] struct V { } v;", AnnotationErrorKind::Syntax, 6),
        ("#[gears_gen(uniform(binding 1))] struct V { } v;", AnnotationErrorKind::Syntax, 7),
        ("#[gears_gen(uniform(binding = x))] struct V { } v;", AnnotationErrorKind::BadNumber, 8),
        ("#[gears_gen(uniform(binding = 1] struct V { } v;", AnnotationErrorKind::Syntax, 9),
        ("#[gears_gen(in] struct V { } v;", AnnotationErrorKind::Syntax, 5),
        ("#[gears_gen(in)) struct V { } v;", AnnotationErrorKind::Syntax, 6),
        ("#[gears_gen(in)] uniform V { } v;", AnnotationErrorKind::Syntax, 7),
        ("#[gears_gen(in)] struct { } v;", AnnotationErrorKind::Syntax, 8),
        ("#[gears_gen(in)] struct V v;", AnnotationErrorKind::Syntax, 9),
        ("#[gears_gen(in)] struct V { double x; } v;", AnnotationErrorKind::UnknownType, 10),
        ("#[gears_gen(in)] struct V { float; } v;", AnnotationErrorKind::Syntax, 11),
        ("#[gears_gen(in)] struct V { float x } v;", AnnotationErrorKind::Syntax, 12),
        ("#[gears_gen(in)] struct V { float x;", AnnotationErrorKind::Syntax, 13),
        ("#[gears_gen(in)] struct V { float x; };", AnnotationErrorKind::Syntax, 14),
        ("#[gears_gen(in)] struct V { float x; } v", AnnotationErrorKind::Syntax, 15),
        ("#[gears_gen(in)] struct V { float x; } v; int", AnnotationErrorKind::Syntax, 16),
    ];
    for (text, kind, at) in cases {
        let error = BindgenStruct::parse(text, ModuleType::Vertex).unwrap_err();
        assert_eq!((error.kind, error.at), (kind, at), "{}", text);
    }
}
