//! What is handed to the shader compiler for one stage, and what is made of
//! its answer.

use vstd::prelude::*;
use crate::defines::{DefinesInput, MacroView, macro_view, macros_view};
use crate::report::{report, report_spec};
use crate::stage::ModuleType;
use crate::text::opt_text;

verus! {

/// The macros that are defined for `stage` unless the definition switches
/// them off: a marker of the stage, and the layout macros, of which the one
/// for values passed between the stages declares an output in the vertex
/// stage and an input in the fragment stage.
pub open spec fn default_macros_spec(stage: ModuleType) -> Seq<MacroView> {
    match stage {
        ModuleType::Vertex => seq![
            ("GEARS_VERTEX"@, None),
            ("GEARS_IN(_location, _data)"@, Some("layout(location = _location) in _data;"@)),
            ("GEARS_INOUT(_location, _data)"@, Some("layout(location = _location) out _data;"@)),
            ("GEARS_VERT_UBO(_location, _data)"@, Some("layout(binding = _location) _data;"@)),
        ],
        ModuleType::Fragment => seq![
            ("GEARS_FRAGMENT"@, None),
            ("GEARS_OUT(_location, _data)"@, Some("layout(location = _location) out _data;"@)),
            ("GEARS_INOUT(_location, _data)"@, Some("layout(location = _location) in _data;"@)),
        ],
    }
}

/// Returns the macros that are defined for `stage` by default.
pub fn default_macros(stage: ModuleType) -> (macros: Vec<(String, Option<String>)>)
    ensures
        macros_view(macros@) == default_macros_spec(stage),
{
    let mut macros: Vec<(String, Option<String>)> = Vec::new();
    match stage {
        ModuleType::Vertex => {
            macros.push(("GEARS_VERTEX".to_owned(), None));
            macros.push(
                (
                    "GEARS_IN(_location, _data)".to_owned(),
                    Some("layout(location = _location) in _data;".to_owned()),
                ),
            );
            macros.push(
                (
                    "GEARS_INOUT(_location, _data)".to_owned(),
                    Some("layout(location = _location) out _data;".to_owned()),
                ),
            );
            macros.push(
                (
                    "GEARS_VERT_UBO(_location, _data)".to_owned(),
                    Some("layout(binding = _location) _data;".to_owned()),
                ),
            );
        },
        ModuleType::Fragment => {
            macros.push(("GEARS_FRAGMENT".to_owned(), None));
            macros.push(
                (
                    "GEARS_OUT(_location, _data)".to_owned(),
                    Some("layout(location = _location) out _data;".to_owned()),
                ),
            );
            macros.push(
                (
                    "GEARS_INOUT(_location, _data)".to_owned(),
                    Some("layout(location = _location) in _data;".to_owned()),
                ),
            );
        },
    }
    assert(macros_view(macros@) =~= default_macros_spec(stage));
    macros
}

/// The macro definitions handed to the compiler, in order: the default
/// macros of the stage if they are wanted, then the definition's own. The
/// compiler lets a later definition of a name replace an earlier one.
pub open spec fn macro_table_spec(stage: ModuleType, default_defines: bool, defines: Seq<MacroView>) -> Seq<
    MacroView,
> {
    if default_defines {
        default_macros_spec(stage) + defines
    } else {
        defines
    }
}

/// Returns the macro definitions to hand to the compiler.
pub fn macro_table(stage: ModuleType, default_defines: bool, defines: &DefinesInput) -> (macros: Vec<
    (String, Option<String>),
>)
    ensures
        macros_view(macros@) == macro_table_spec(stage, default_defines, defines@),
{
    let mut macros = if default_defines {
        default_macros(stage)
    } else {
        Vec::new()
    };
    let ghost head = macros_view(macros@);
    let mut i: usize = 0;
    assert(defines@.take(0) =~= Seq::empty());
    assert(macros_view(macros@) =~= head + defines@.take(0));
    while i < defines.defines.len()
        invariant
            i <= defines.defines.len(),
            macros_view(macros@) == head + defines@.take(i as int),
        decreases defines.defines.len() - i,
    {
        let ghost before = macros_view(macros@);
        let entry = &defines.defines[i];
        let value = match &entry.1 {
            Some(v) => Some(v.clone()),
            None => None,
        };
        macros.push((entry.0.clone(), value));
        assert(macros_view(macros@) =~= before.push(macro_view(defines.defines@[i as int])));
        assert(defines@.take(i + 1) =~= defines@.take(i as int).push(defines@[i as int]));
        assert(macros_view(macros@) =~= head + defines@.take(i + 1));
        i = i + 1;
    }
    assert(defines@.take(defines.defines.len() as int) =~= defines@);
    proof {
        if !default_defines {
            assert(head =~= Seq::empty());
            assert(head + defines@ =~= defines@);
        }
    }
    macros
}

/// The entry point of `stage` where the definition names none.
pub open spec fn default_entry_spec(stage: ModuleType) -> Seq<char> {
    match stage {
        ModuleType::Vertex => "vert"@,
        ModuleType::Fragment => "frag"@,
    }
}

/// Returns the entry point of `stage` where the definition names none.
pub fn default_entry(stage: ModuleType) -> (entry: &'static str)
    ensures
        entry@ == default_entry_spec(stage),
{
    match stage {
        ModuleType::Vertex => "vert",
        ModuleType::Fragment => "frag",
    }
}

/// One call of the shader compiler.
#[derive(Debug)]
pub struct CompileRequest {
    pub stage: ModuleType,
    /// The source text, with the annotations already expanded.
    pub source: String,
    /// The name under which the compiler reports the source.
    pub name: String,
    pub entry: String,
    /// The directory against which include directives are resolved.
    pub include_path: Option<String>,
    pub macros: Vec<(String, Option<String>)>,
    /// Whether the source is only to be preprocessed, not compiled.
    pub debug: bool,
}

/// The mathematical value of a [`CompileRequest`].
pub struct CompileRequestView {
    pub stage: ModuleType,
    pub source: Seq<char>,
    pub name: Seq<char>,
    pub entry: Seq<char>,
    pub include_path: Option<Seq<char>>,
    pub macros: Seq<MacroView>,
    pub debug: bool,
}

impl View for CompileRequest {
    type V = CompileRequestView;

    open spec fn view(&self) -> CompileRequestView {
        CompileRequestView {
            stage: self.stage,
            source: self.source@,
            name: self.name@,
            entry: self.entry@,
            include_path: opt_text(self.include_path),
            macros: macros_view(self.macros@),
            debug: self.debug,
        }
    }
}

/// The call of the compiler for a stage with the given expanded source and
/// settings: reported under the stage's tag, with the stage's default entry
/// point where none is named.
pub open spec fn request_spec(
    stage: ModuleType,
    source: Seq<char>,
    entry: Option<Seq<char>>,
    include_path: Option<Seq<char>>,
    defines: Seq<MacroView>,
    default_defines: bool,
    debug: bool,
) -> CompileRequestView {
    CompileRequestView {
        stage,
        source,
        name: stage.name_spec(),
        entry: match entry {
            Some(e) => e,
            None => default_entry_spec(stage),
        },
        include_path,
        macros: macro_table_spec(stage, default_defines, defines),
        debug,
    }
}

impl CompileRequest {
    /// Puts together the call of the compiler for one stage.
    pub fn new(
        stage: ModuleType,
        source: String,
        entry: &Option<String>,
        include_path: &Option<String>,
        defines: &DefinesInput,
        default_defines: bool,
        debug: bool,
    ) -> (request: CompileRequest)
        ensures
            request@ == request_spec(
                stage,
                source@,
                opt_text(*entry),
                opt_text(*include_path),
                defines@,
                default_defines,
                debug,
            ),
    {
        let entry = match entry {
            Some(e) => e.clone(),
            None => default_entry(stage).to_owned(),
        };
        let include_path = match include_path {
            Some(p) => Some(p.clone()),
            None => None,
        };
        CompileRequest {
            stage,
            source,
            name: stage.name().to_owned(),
            entry,
            include_path,
            macros: macro_table(stage, default_defines, defines),
            debug,
        }
    }
}

/// What the compiler answered to a request.
#[derive(Debug)]
pub enum CompileOutcome {
    /// The compiled kernel.
    Binary(Vec<u8>),
    /// The preprocessed source of a request that asked for no more.
    Preprocessed(String),
    /// The compiler's diagnostics.
    Failed(String),
}

/// The compiled kernel of one stage.
#[derive(Debug)]
pub struct CompiledModule {
    pub spirv: Vec<u8>,
    pub module_type: ModuleType,
}

/// What is reported where a kernel comes back for a request that asked
/// for the preprocessed source only.
pub open spec fn unexpected_kernel_spec() -> Seq<char> {
    "The source was to be preprocessed only, but a kernel came back"@
}

/// What becomes of the request `request` on the compiler's answer: a kernel
/// is kept, unless the request asked for the preprocessed source only;
/// diagnostics, and a preprocessed source too, are reported as a failure
/// together with the numbered source. A request that asks for the
/// preprocessed source only never gives a kernel.
pub open spec fn outcome_spec(request: CompileRequestView, outcome: CompileOutcome) -> Result<
    (Seq<u8>, ModuleType),
    Seq<char>,
> {
    match outcome {
        CompileOutcome::Binary(bytes) => if request.debug {
            Err(report_spec(unexpected_kernel_spec(), request.source))
        } else {
            Ok((bytes@, request.stage))
        },
        CompileOutcome::Preprocessed(text) => Err(report_spec(text@, request.source)),
        CompileOutcome::Failed(message) => Err(report_spec(message@, request.source)),
    }
}

/// A request that asks for the preprocessed source only always fails; where
/// the source was preprocessed, the report holds the preprocessed text
/// after its heading.
pub proof fn lemma_debug_fails(request: CompileRequestView, outcome: CompileOutcome)
    requires
        request.debug,
    ensures
        outcome_spec(request, outcome) is Err,
        outcome matches CompileOutcome::Preprocessed(text) ==> outcome_spec(request, outcome)
            == Err::<(Seq<u8>, ModuleType), Seq<char>>(report_spec(text@, request.source)),
{
}

impl View for CompiledModule {
    type V = (Seq<u8>, ModuleType);

    open spec fn view(&self) -> (Seq<u8>, ModuleType) {
        (self.spirv@, self.module_type)
    }
}

/// Copies a list of bytes.
pub fn copy_bytes(bytes: &Vec<u8>) -> (copy: Vec<u8>)
    ensures
        copy@ == bytes@,
{
    let mut copy: Vec<u8> = Vec::new();
    let mut i: usize = 0;
    while i < bytes.len()
        invariant
            i <= bytes.len(),
            copy@ == bytes@.take(i as int),
        decreases bytes.len() - i,
    {
        copy.push(bytes[i]);
        assert(copy@ =~= bytes@.take(i + 1));
        i = i + 1;
    }
    assert(bytes@.take(bytes.len() as int) =~= bytes@);
    copy
}

impl CompiledModule {
    /// Turns the compiler's answer to `request` into the stage's kernel, or
    /// into the report of the failure.
    pub fn from_outcome(request: &CompileRequest, outcome: &CompileOutcome) -> (r: Result<
        CompiledModule,
        String,
    >)
        ensures
            match r {
                Ok(m) => outcome_spec(request@, *outcome) == Ok::<(Seq<u8>, ModuleType), Seq<char>>(
                    m@,
                ),
                Err(e) => outcome_spec(request@, *outcome) == Err::<
                    (Seq<u8>, ModuleType),
                    Seq<char>,
                >(e@),
            },
    {
        let source = request.source.as_str();
        match outcome {
            CompileOutcome::Binary(bytes) => if request.debug {
                Err(report("The source was to be preprocessed only, but a kernel came back", source))
            } else {
                Ok(CompiledModule { spirv: copy_bytes(bytes), module_type: request.stage })
            },
            CompileOutcome::Preprocessed(text) => Err(report(text.as_str(), source)),
            CompileOutcome::Failed(message) => Err(report(message.as_str(), source)),
        }
    }
}

} // verus!
