use gears::defines::DefinesInput;
use gears::module_input::{FileOutcome, ModuleInput, ShaderSource};
use gears::pipeline_input::{stage_of, PipelineInput};
use gears::stage::ModuleType;
use gears::defines::{punct_at, str_at};
use gears::module_input::{classify_field, FieldKey};
use gears::tokens::{location, Delimiter, InputError, InputErrorKind, Location, Token};

fn ident(name: &str, span: usize) -> Token {
    Token::Ident { name: name.to_string(), span }
}

fn punct(ch: char, span: usize) -> Token {
    Token::Punct { ch, span }
}

fn lit(value: &str, span: usize) -> Token {
    Token::Str { value: value.to_string(), span }
}

fn group(delimiter: Delimiter, stream: Vec<Token>, span: usize) -> Token {
    Token::Group { delimiter, stream, span }
}

fn source_stage(text: &str) -> Vec<Token> {
    vec![ident("source", 1), punct(':', 2), lit(text, 3)]
}

#[test]
fn stage_names() {
    assert_eq!(ModuleType::Vertex.name(), "VERT");
    assert_eq!(ModuleType::Fragment.name(), "FRAG");
}

#[test]
fn stage_aliases() {
    assert_eq!(stage_of("vs"), Some(ModuleType::Vertex));
    assert_eq!(stage_of("vertex"), Some(ModuleType::Vertex));
    assert_eq!(stage_of("vert"), Some(ModuleType::Vertex));
    assert_eq!(stage_of("fs"), Some(ModuleType::Fragment));
    assert_eq!(stage_of("fragment"), Some(ModuleType::Fragment));
    assert_eq!(stage_of("frag"), Some(ModuleType::Fragment));
    assert_eq!(stage_of("geometry"), None);
}

#[test]
fn defines_with_and_without_values() {
    let tokens = vec![
        lit("FRAGMENT", 0),
        punct(',', 1),
        lit("VALUE", 2),
        punct('=', 3),
        lit("2", 4),
    ];
    let defines = DefinesInput::parse(&tokens).unwrap();
    assert_eq!(
        defines.defines,
        vec![
            ("FRAGMENT".to_string(), None),
            ("VALUE".to_string(), Some("2".to_string())),
        ]
    );
}

#[test]
fn defines_trailing_comma_and_empty() {
    let tokens = vec![lit("A", 0), punct('=', 1), lit("1", 2), punct(',', 3)];
    let defines = DefinesInput::parse(&tokens).unwrap();
    assert_eq!(defines.defines, vec![("A".to_string(), Some("1".to_string()))]);
    let none = DefinesInput::parse(&Vec::new()).unwrap();
    assert!(none.defines.is_empty());
}

#[test]
fn defines_reject_other_punctuation() {
    let tokens = vec![lit("A", 0), punct(';', 7), lit("B", 2)];
    let error = DefinesInput::parse(&tokens).unwrap_err();
    assert_eq!(error.kind, InputErrorKind::InvalidPunct);
    assert_eq!(error.at, Location::At(7));
    assert_eq!(error.message(), "Invalid punctuation, only '=' and ',' are valid");
}

#[test]
fn defines_need_strings() {
    let error = DefinesInput::parse(&vec![ident("A", 4)]).unwrap_err();
    assert_eq!(error.kind, InputErrorKind::ExpectedString);
    assert_eq!(error.at, Location::At(4));
    let error = DefinesInput::parse(&vec![lit("A", 0), punct('=', 1)]).unwrap_err();
    assert_eq!(error.kind, InputErrorKind::ExpectedString);
    assert_eq!(error.at, Location::End);
    let error =
        DefinesInput::parse(&vec![lit("A", 0), punct('=', 1), lit("1", 2), lit("B", 3)]).unwrap_err();
    assert_eq!(error.kind, InputErrorKind::ExpectedComma);
    assert_eq!(error.at, Location::At(3));
    let error = DefinesInput::parse(&vec![lit("A", 0), lit("B", 9)]).unwrap_err();
    assert_eq!(error.kind, InputErrorKind::ExpectedPunct);
    assert_eq!(error.at, Location::At(9));
}

#[test]
fn defines_add_up() {
    let mut first = DefinesInput::parse(&vec![lit("A", 0)]).unwrap();
    let second = DefinesInput::parse(&vec![lit("B", 0), punct('=', 1), lit("x", 2)]).unwrap();
    first.add_assign(second);
    assert_eq!(
        first.defines,
        vec![("A".to_string(), None), ("B".to_string(), Some("x".to_string()))]
    );
}

#[test]
fn module_with_all_fields() {
    let tokens = vec![
        ident("src", 0),
        punct(':', 1),
        lit("void main() {}", 2),
        ident("include", 3),
        punct(':', 4),
        lit("shaders/", 5),
        ident("def", 6),
        punct(':', 7),
        group(Delimiter::Bracket, vec![lit("X", 8)], 9),
        ident("d", 10),
        punct(':', 11),
        group(Delimiter::Bracket, vec![lit("Y", 12), punct('=', 13), lit("3", 14)], 15),
        ident("na", 16),
        ident("entry", 17),
        punct(':', 18),
        lit("start", 19),
        ident("debug", 20),
    ];
    let module = ModuleInput::parse(&tokens).unwrap();
    assert!(matches!(&module.source, ShaderSource::Text(text) if text == "void main() {}"));
    assert_eq!(module.include_path, Some("shaders/".to_string()));
    assert_eq!(
        module.defines.defines,
        vec![("X".to_string(), None), ("Y".to_string(), Some("3".to_string()))]
    );
    assert!(!module.default_defines);
    assert_eq!(module.entry, Some("start".to_string()));
    assert!(module.debug);
    assert_eq!(module.span, Location::At(19));
    assert_eq!(module.source_text(), Some(&"void main() {}".to_string()));
    assert_eq!(module.pending_path(), None);
}

#[test]
fn module_defaults() {
    let module = ModuleInput::parse(&source_stage("x")).unwrap();
    assert_eq!(module.include_path, None);
    assert!(module.defines.defines.is_empty());
    assert!(module.default_defines);
    assert_eq!(module.entry, None);
    assert!(!module.debug);
    assert_eq!(module.span, Location::At(3));
}

#[test]
fn no_autodefine_in_three_tokens() {
    let mut tokens = source_stage("x");
    tokens.extend(vec![ident("no", 4), punct('-', 5), ident("autodefine", 6), ident("debug", 7)]);
    let module = ModuleInput::parse(&tokens).unwrap();
    assert!(!module.default_defines);
    assert!(module.debug);
    let mut tokens = source_stage("x");
    tokens.extend(vec![ident("no", 4), punct('-', 5), ident("defines", 6)]);
    let error = ModuleInput::parse(&tokens).unwrap_err();
    assert_eq!(error.kind, InputErrorKind::InvalidField);
    assert_eq!(error.at, Location::At(4));
    assert_eq!(error.message(), "Invalid field 'no'");
    let mut tokens = source_stage("x");
    tokens.extend(vec![ident("no", 4), punct('-', 5)]);
    assert_eq!(ModuleInput::parse(&tokens).unwrap_err().kind, InputErrorKind::InvalidField);
    let mut tokens = source_stage("x");
    tokens.push(ident("no-autodefine", 4));
    assert!(!ModuleInput::parse(&tokens).unwrap().default_defines);
}

#[test]
fn module_needs_a_source() {
    let error = ModuleInput::parse(&vec![ident("debug", 5)]).unwrap_err();
    assert_eq!(error.kind, InputErrorKind::MissingSource);
    assert_eq!(error.at, Location::At(5));
    assert_eq!(
        error.message(),
        "Missing shader source add either 'source' or 'path' field"
    );
    let error = ModuleInput::parse(&Vec::new()).unwrap_err();
    assert_eq!(error.kind, InputErrorKind::MissingSource);
    assert_eq!(error.at, Location::End);
}

#[test]
fn module_takes_one_source_only() {
    let mut tokens = source_stage("a");
    tokens.extend(vec![ident("path", 10), punct(':', 11), lit("b.glsl", 12)]);
    let error = ModuleInput::parse(&tokens).unwrap_err();
    assert_eq!(error.kind, InputErrorKind::SourceAlreadySpecified);
    assert_eq!(error.at, Location::At(10));
    assert_eq!(error.message(), "'source' or 'path' field already specified");
    let mut tokens = vec![ident("p", 0), punct(':', 1), lit("b.glsl", 2)];
    tokens.extend(vec![ident("s", 10), punct(':', 11), lit("text", 12)]);
    let error = ModuleInput::parse(&tokens).unwrap_err();
    assert_eq!(error.kind, InputErrorKind::SourceAlreadySpecified);
    assert_eq!(error.at, Location::At(10));
}

#[test]
fn module_rejects_unknown_fields() {
    let error = ModuleInput::parse(&vec![ident("colour", 3)]).unwrap_err();
    assert_eq!(error.kind, InputErrorKind::InvalidField);
    assert_eq!(error.at, Location::At(3));
    assert_eq!(error.detail, "colour");
    assert_eq!(error.message(), "Invalid field 'colour'");
}

#[test]
fn module_syntax_errors() {
    let error = ModuleInput::parse(&vec![lit("x", 1)]).unwrap_err();
    assert_eq!(error.kind, InputErrorKind::ExpectedIdent);
    assert_eq!(error.at, Location::At(1));
    let error = ModuleInput::parse(&vec![ident("source", 0), lit("x", 1)]).unwrap_err();
    assert_eq!(error.kind, InputErrorKind::ExpectedColon);
    assert_eq!(error.at, Location::At(1));
    let error = ModuleInput::parse(&vec![ident("source", 0), punct(':', 1)]).unwrap_err();
    assert_eq!(error.kind, InputErrorKind::ExpectedString);
    assert_eq!(error.at, Location::End);
    let error =
        ModuleInput::parse(&vec![ident("define", 0), punct(':', 1), lit("X", 2)]).unwrap_err();
    assert_eq!(error.kind, InputErrorKind::ExpectedGroup);
    assert_eq!(error.at, Location::At(2));
    let error = ModuleInput::parse(&vec![
        ident("define", 0),
        punct(':', 1),
        group(Delimiter::Bracket, vec![ident("X", 7)], 2),
    ])
    .unwrap_err();
    assert_eq!(error.kind, InputErrorKind::ExpectedString);
    assert_eq!(error.at, Location::At(7));
}

#[test]
fn path_seeds_the_include_directory() {
    let tokens = vec![ident("path", 0), punct(':', 1), lit("res/default.vert.glsl", 2)];
    let module = ModuleInput::parse(&tokens).unwrap();
    assert!(matches!(
        &module.source,
        ShaderSource::File { path, at: 2, seed_include: true } if path == "res/default.vert.glsl"
    ));
    assert_eq!(module.pending_path(), Some(&"res/default.vert.glsl".to_string()));
    assert_eq!(module.source_text(), None);
    let resolved = module
        .resolve(FileOutcome::Loaded { text: "void main() {}".to_string(), parent: Some("res".to_string()) })
        .unwrap();
    assert_eq!(resolved.source_text(), Some(&"void main() {}".to_string()));
    assert_eq!(resolved.include_path, Some("res".to_string()));
}

#[test]
fn include_overrides_the_directory_of_the_path() {
    let tokens = vec![
        ident("path", 0),
        punct(':', 1),
        lit("res/a.glsl", 2),
        ident("include", 3),
        punct(':', 4),
        lit("inc", 5),
    ];
    let module = ModuleInput::parse(&tokens).unwrap();
    let resolved = module
        .resolve(FileOutcome::Loaded { text: "t".to_string(), parent: Some("res".to_string()) })
        .unwrap();
    assert_eq!(resolved.include_path, Some("inc".to_string()));
    let tokens = vec![
        ident("include", 3),
        punct(':', 4),
        lit("inc", 5),
        ident("path", 6),
        punct(':', 7),
        lit("a.glsl", 8),
    ];
    let module = ModuleInput::parse(&tokens).unwrap();
    assert!(matches!(&module.source, ShaderSource::File { seed_include: false, .. }));
    let resolved = module.resolve(FileOutcome::Loaded { text: "t".to_string(), parent: None }).unwrap();
    assert_eq!(resolved.include_path, Some("inc".to_string()));
}

#[test]
fn file_errors() {
    let tokens = vec![ident("path", 0), punct(':', 1), lit("a.glsl", 2)];
    let error = ModuleInput::parse(&tokens).unwrap().resolve(FileOutcome::NotFound).unwrap_err();
    assert_eq!(error.kind, InputErrorKind::FileNotFound);
    assert_eq!(error.at, Location::At(2));
    assert_eq!(error.message(), "File not found");
    let error = ModuleInput::parse(&tokens).unwrap().resolve(FileOutcome::OpenFailed).unwrap_err();
    assert_eq!(error.kind, InputErrorKind::FileOpenFailed);
    assert_eq!(error.message(), "Could not open file");
    let error = ModuleInput::parse(&tokens).unwrap().resolve(FileOutcome::ReadFailed).unwrap_err();
    assert_eq!(error.kind, InputErrorKind::FileReadFailed);
    assert_eq!(error.message(), "Could not read from file");
    let error = ModuleInput::parse(&tokens)
        .unwrap()
        .resolve(FileOutcome::Loaded { text: "t".to_string(), parent: None })
        .unwrap_err();
    assert_eq!(error.kind, InputErrorKind::NoDirectory);
    assert_eq!(error.message(), "File does not have a directory");
}

#[test]
fn resolve_leaves_inline_text() {
    let module = ModuleInput::parse(&source_stage("inline")).unwrap();
    let resolved = module.resolve(FileOutcome::NotFound).unwrap();
    assert_eq!(resolved.source_text(), Some(&"inline".to_string()));
}

#[test]
fn pipeline_with_two_stages() {
    let tokens = vec![
        ident("vs", 0),
        punct(':', 1),
        group(Delimiter::Brace, source_stage("v"), 2),
        ident("fragment", 3),
        punct(':', 4),
        group(Delimiter::Brace, source_stage("f"), 5),
    ];
    let input = PipelineInput::parse(&tokens).unwrap();
    assert_eq!(input.modules.len(), 2);
    assert_eq!(input.modules[0].0, ModuleType::Vertex);
    assert_eq!(input.modules[1].0, ModuleType::Fragment);
    assert_eq!(input.modules[0].1.source_text(), Some(&"v".to_string()));
    assert_eq!(input.modules[1].1.source_text(), Some(&"f".to_string()));
    assert!(input.contains(ModuleType::Vertex));
    assert!(input.contains(ModuleType::Fragment));
}

#[test]
fn pipeline_rejects_a_stage_given_twice() {
    let tokens = vec![
        ident("vs", 0),
        punct(':', 1),
        group(Delimiter::Brace, source_stage("v"), 2),
        ident("vert", 3),
        punct(':', 4),
        group(Delimiter::Brace, source_stage("w"), 5),
    ];
    let error = PipelineInput::parse(&tokens).unwrap_err();
    assert_eq!(error.kind, InputErrorKind::DuplicateModule);
    assert_eq!(error.at, Location::At(3));
    assert_eq!(error.message(), "Duplicate shader module");
}

#[test]
fn pipeline_rejects_unknown_stages() {
    let tokens = vec![ident("compute", 6), punct(':', 1), group(Delimiter::Brace, source_stage("v"), 2)];
    let error = PipelineInput::parse(&tokens).unwrap_err();
    assert_eq!(error.kind, InputErrorKind::UnknownShaderType);
    assert_eq!(error.at, Location::At(6));
    assert_eq!(error.message(), "Unknown shader type: compute");
}

#[test]
fn pipeline_syntax_errors() {
    let error = PipelineInput::parse(&vec![punct(':', 1)]).unwrap_err();
    assert_eq!(error.kind, InputErrorKind::ExpectedIdent);
    let error = PipelineInput::parse(&vec![ident("vs", 0)]).unwrap_err();
    assert_eq!(error.kind, InputErrorKind::ExpectedColon);
    assert_eq!(error.at, Location::End);
    let error = PipelineInput::parse(&vec![ident("vs", 0), punct(':', 1), lit("x", 2)]).unwrap_err();
    assert_eq!(error.kind, InputErrorKind::ExpectedGroup);
    assert_eq!(error.at, Location::At(2));
    let error = PipelineInput::parse(&vec![
        ident("vs", 0),
        punct(':', 1),
        group(Delimiter::Brace, vec![ident("debug", 8)], 2),
    ])
    .unwrap_err();
    assert_eq!(error.kind, InputErrorKind::MissingSource);
    assert_eq!(error.at, Location::At(8));
}

#[test]
fn empty_pipeline_definition() {
    let input = PipelineInput::parse(&Vec::new()).unwrap();
    assert!(input.modules.is_empty());
}

#[test]
fn messages_of_the_kinds() {
    let all = [
        (InputErrorKind::ExpectedIdent, "expected identifier"),
        (InputErrorKind::ExpectedColon, "expected `:`"),
        (InputErrorKind::ExpectedString, "expected string literal"),
        (InputErrorKind::ExpectedGroup, "expected group token"),
        (InputErrorKind::ExpectedPunct, "expected punctuation token"),
        (InputErrorKind::ExpectedComma, "expected `,`"),
        (InputErrorKind::InvalidPunct, "Invalid punctuation, only '=' and ',' are valid"),
        (InputErrorKind::UnknownShaderType, "Unknown shader type: "),
        (InputErrorKind::DuplicateModule, "Duplicate shader module"),
        (InputErrorKind::SourceAlreadySpecified, "'source' or 'path' field already specified"),
        (InputErrorKind::InvalidField, "Invalid field "),
        (InputErrorKind::MissingSource, "Missing shader source add either 'source' or 'path' field"),
        (InputErrorKind::FileNotFound, "File not found"),
        (InputErrorKind::FileOpenFailed, "Could not open file"),
        (InputErrorKind::FileReadFailed, "Could not read from file"),
        (InputErrorKind::NoDirectory, "File does not have a directory"),
    ];
    for (kind, text) in all {
        assert_eq!(kind.text(), text);
    }
    let plain = InputError::plain(InputErrorKind::ExpectedComma, Location::At(3));
    assert_eq!(plain.kind, InputErrorKind::ExpectedComma);
    assert_eq!(plain.at, Location::At(3));
    assert_eq!(plain.detail, "");
    assert_eq!(plain.message(), "expected `,`");
}

#[test]
fn places_of_tokens() {
    let tokens = vec![
        ident("a", 4),
        punct(':', 5),
        lit("b", 6),
        Token::Literal { text: "1".to_string(), span: 7 },
        group(Delimiter::Parenthesis, Vec::new(), 8),
    ];
    for (i, token) in tokens.iter().enumerate() {
        assert_eq!(token.span(), 4 + i);
        assert_eq!(location(&tokens, i), Location::At(4 + i));
    }
    assert_eq!(location(&tokens, 5), Location::End);
    assert_eq!(location(&tokens, usize::MAX), Location::End);
    assert_eq!(str_at(&tokens, 2), Some(&"b".to_string()));
    assert_eq!(str_at(&tokens, 0), None);
    assert_eq!(str_at(&tokens, 9), None);
    assert!(punct_at(&tokens, 1, ':'));
    assert!(!punct_at(&tokens, 1, ','));
    assert!(!punct_at(&tokens, 2, ':'));
    assert!(!punct_at(&tokens, 9, ':'));
}

#[test]
fn field_names() {
    let all = [
        ("p", Some(FieldKey::Path)),
        ("path", Some(FieldKey::Path)),
        ("s", Some(FieldKey::Source)),
        ("src", Some(FieldKey::Source)),
        ("source", Some(FieldKey::Source)),
        ("i", Some(FieldKey::Include)),
        ("inc", Some(FieldKey::Include)),
        ("include", Some(FieldKey::Include)),
        ("d", Some(FieldKey::Define)),
        ("def", Some(FieldKey::Define)),
        ("define", Some(FieldKey::Define)),
        ("n", Some(FieldKey::NoAutodefine)),
        ("na", Some(FieldKey::NoAutodefine)),
        ("no-autodefine", Some(FieldKey::NoAutodefine)),
        ("e", Some(FieldKey::Entry)),
        ("ep", Some(FieldKey::Entry)),
        ("entry", Some(FieldKey::Entry)),
        ("debug", Some(FieldKey::Debug)),
        ("", None),
        ("Path", None),
        ("sources", None),
    ];
    for (name, key) in all {
        assert_eq!(classify_field(name), key, "{}", name);
    }
}
