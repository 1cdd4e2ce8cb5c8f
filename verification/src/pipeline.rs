//! The build of a pipeline: from the definitions of its stages to the
//! requests for the compiler, and from the compiler's answers to the
//! kernels.

use vstd::prelude::*;
use crate::annotation::{BindgenStruct, BindgenStructView};
use crate::compile::{CompileOutcome, CompileRequest, CompileRequestView, CompiledModule, outcome_spec, request_spec};
use crate::module_input::{ModuleInputView, SourceView};
use crate::host::HostLayout;
use crate::pipeline_input::{PipelineInput, StageView, distinct_stages, has_stage};
use crate::preprocess::{BlockError, PreprocessError, glsl_attrib_macros, is_block_error, preprocess_spec, structs_view};
use crate::registry::{FieldView, StructRegistry};
use crate::stage::ModuleType;
use crate::tokens::Location;

verus! {

/// A stage that is ready for the compiler.
#[derive(Debug)]
pub struct PreparedModule {
    pub request: CompileRequest,
    /// The place that errors of the stage are reported at.
    pub span: Location,
}

/// A pipeline whose stages are ready for the compiler, in the order of
/// their definition, with the blocks for which host layouts are generated.
#[derive(Debug)]
pub struct PreparedPipeline {
    pub modules: Vec<PreparedModule>,
    pub bindgen_structs: Vec<BindgenStruct>,
}

/// The mathematical value of a [`PreparedPipeline`].
pub struct PreparedView {
    pub modules: Seq<(CompileRequestView, Location)>,
    pub bindgen_structs: Seq<BindgenStructView>,
}

impl View for PreparedPipeline {
    type V = PreparedView;

    open spec fn view(&self) -> PreparedView {
        PreparedView {
            modules: Seq::new(
                self.modules@.len(),
                |i: int| (self.modules@[i].request@, self.modules@[i].span),
            ),
            bindgen_structs: structs_view(self.bindgen_structs@),
        }
    }
}

/// Why a pipeline could not be prepared.
#[derive(Clone, Copy, Debug, PartialEq, Eq, Structural)]
pub enum PrepareError {
    /// The definition lacks the stage.
    MissingStage(ModuleType),
    /// The definition gives a stage twice.
    DuplicateStage,
    /// The source file of the stage of this number was not read yet.
    Unresolved(usize),
    /// The source of the stage of this number could not be expanded.
    Preprocess(usize, PreprocessError),
}

/// An error of the preparation as a value.
pub enum PrepareErrorView {
    MissingStage(ModuleType),
    DuplicateStage,
    Unresolved(int),
    Block(int, BlockError),
}

/// Whether the error `e` stands for the error value `v`.
pub open spec fn is_prepare_error(e: PrepareError, v: PrepareErrorView) -> bool {
    match e {
        PrepareError::MissingStage(stage) => v == PrepareErrorView::MissingStage(stage),
        PrepareError::DuplicateStage => v == PrepareErrorView::DuplicateStage,
        PrepareError::Unresolved(i) => v == PrepareErrorView::Unresolved(i as int),
        PrepareError::Preprocess(i, error) => v matches PrepareErrorView::Block(j, b) && j == i
            && is_block_error(error, b),
    }
}

/// The request for the stage `stage` with the definition `m`, whose source
/// expands to `text`.
pub open spec fn stage_request(stage: ModuleType, m: ModuleInputView, text: Seq<char>) -> CompileRequestView {
    request_spec(stage, text, m.entry, m.include_path, m.defines, m.default_defines, m.debug)
}

/// The preparation of the stages from number `i` on, after the stages
/// before them gave `acc`, with `fields` registered: each stage's source is
/// expanded, which registers its blocks, and put into a request.
pub open spec fn prepare_from(stages: Seq<StageView>, i: int, fields: Seq<FieldView>, acc: PreparedView) -> Result<
    PreparedView,
    PrepareErrorView,
>
    decreases stages.len() - i,
{
    if i < 0 || i >= stages.len() {
        Ok(acc)
    } else {
        match stages[i].1.source {
            SourceView::File { .. } => Err(PrepareErrorView::Unresolved(i)),
            SourceView::Text(source) => match preprocess_spec(source, stages[i].0, fields) {
                Err(b) => Err(PrepareErrorView::Block(i, b)),
                Ok((text, structs, next_fields)) => prepare_from(
                    stages,
                    i + 1,
                    next_fields,
                    PreparedView {
                        modules: acc.modules.push(
                            (stage_request(stages[i].0, stages[i].1, text), stages[i].1.span),
                        ),
                        bindgen_structs: acc.bindgen_structs + structs,
                    },
                ),
            },
        }
    }
}

/// The preparation of a pipeline with the stages `stages`: a pipeline
/// needs a vertex stage and a fragment stage, and takes none twice.
pub open spec fn prepare_spec(stages: Seq<StageView>) -> Result<PreparedView, PrepareErrorView> {
    if !has_stage(stages, ModuleType::Vertex) {
        Err(PrepareErrorView::MissingStage(ModuleType::Vertex))
    } else if !has_stage(stages, ModuleType::Fragment) {
        Err(PrepareErrorView::MissingStage(ModuleType::Fragment))
    } else if !distinct_stages(stages) {
        Err(PrepareErrorView::DuplicateStage)
    } else {
        prepare_from(
            stages,
            0,
            Seq::empty(),
            PreparedView { modules: Seq::empty(), bindgen_structs: Seq::empty() },
        )
    }
}

/// The compiled pipeline: the kernel of each stage, and the blocks for
/// which host layouts are generated.
#[derive(Debug)]
pub struct Pipeline {
    pub modules: Vec<(ModuleType, CompiledModule)>,
    pub bindgen_structs: Vec<BindgenStruct>,
}

/// The mathematical value of a [`Pipeline`].
pub struct PipelineView {
    pub modules: Seq<(Seq<u8>, ModuleType)>,
    pub bindgen_structs: Seq<BindgenStructView>,
}

/// The kernels of a list of compiled stages.
pub open spec fn kernels_view(modules: Seq<(ModuleType, CompiledModule)>) -> Seq<
    (Seq<u8>, ModuleType),
> {
    Seq::new(modules.len(), |i: int| modules[i].1@)
}

impl View for Pipeline {
    type V = PipelineView;

    open spec fn view(&self) -> PipelineView {
        PipelineView {
            modules: kernels_view(self.modules@),
            bindgen_structs: structs_view(self.bindgen_structs@),
        }
    }
}

/// Why a prepared pipeline gave no pipeline: a stage kind is lacking or
/// given twice, the compiler's answer for a stage is lacking, or the stage
/// failed, with the report of the failure.
#[derive(Debug)]
pub enum BuildError {
    MissingStage { kind: ModuleType },
    DuplicateStage,
    MissingOutcome { stage: usize, at: Location },
    Failed { stage: usize, at: Location, report: String },
}

/// An error of the build as a value.
pub enum BuildErrorView {
    MissingStage { kind: ModuleType },
    DuplicateStage,
    MissingOutcome { stage: int, at: Location },
    Failed { stage: int, at: Location, report: Seq<char> },
}

impl View for BuildError {
    type V = BuildErrorView;

    open spec fn view(&self) -> BuildErrorView {
        match *self {
            BuildError::MissingStage { kind } => BuildErrorView::MissingStage { kind },
            BuildError::DuplicateStage => BuildErrorView::DuplicateStage,
            BuildError::MissingOutcome { stage, at } => BuildErrorView::MissingOutcome {
                stage: stage as int,
                at,
            },
            BuildError::Failed { stage, at, report } => BuildErrorView::Failed {
                stage: stage as int,
                at,
                report: report@,
            },
        }
    }
}

/// The kernels of the stages from number `i` on, after the kernels `acc` of
/// those before: the answers belong to the stages in order, and the first
/// stage without a kernel ends the build with its error.
pub open spec fn build_from(
    modules: Seq<(CompileRequestView, Location)>,
    outcomes: Seq<CompileOutcome>,
    i: int,
    acc: Seq<(Seq<u8>, ModuleType)>,
) -> Result<Seq<(Seq<u8>, ModuleType)>, BuildErrorView>
    decreases modules.len() - i,
{
    if i < 0 || i >= modules.len() {
        Ok(acc)
    } else if i >= outcomes.len() {
        Err(BuildErrorView::MissingOutcome { stage: i, at: modules[i].1 })
    } else {
        match outcome_spec(modules[i].0, outcomes[i]) {
            Err(report) => Err(BuildErrorView::Failed { stage: i, at: modules[i].1, report }),
            Ok(kernel) => build_from(modules, outcomes, i + 1, acc.push(kernel)),
        }
    }
}

/// Whether one of the requests `modules` is for the stage kind `kind`.
pub open spec fn has_request(modules: Seq<(CompileRequestView, Location)>, kind: ModuleType) -> bool {
    exists|i: int| 0 <= i < modules.len() && (#[trigger] modules[i]).0.stage == kind
}

/// The pipeline that a prepared pipeline gives with the compiler's answers
/// `outcomes`: there is none unless the prepared stages are one vertex
/// stage and one fragment stage.
pub open spec fn build_spec(prepared: PreparedView, outcomes: Seq<CompileOutcome>) -> Result<
    PipelineView,
    BuildErrorView,
> {
    if !has_request(prepared.modules, ModuleType::Vertex) {
        Err(BuildErrorView::MissingStage { kind: ModuleType::Vertex })
    } else if !has_request(prepared.modules, ModuleType::Fragment) {
        Err(BuildErrorView::MissingStage { kind: ModuleType::Fragment })
    } else if prepared.modules.len() != 2 {
        Err(BuildErrorView::DuplicateStage)
    } else {
        match build_from(prepared.modules, outcomes, 0, Seq::empty()) {
            Err(e) => Err(e),
            Ok(modules) => Ok(PipelineView { modules, bindgen_structs: prepared.bindgen_structs }),
        }
    }
}

/// Once the stages are counted, the preparation fails only on a stage of
/// its own: for a source that was not read, or for a block.
pub proof fn lemma_prepare_from_errors(
    stages: Seq<StageView>,
    i: int,
    fields: Seq<FieldView>,
    acc: PreparedView,
)
    ensures
        prepare_from(stages, i, fields, acc) matches Err(e) ==> e is Unresolved || e is Block,
    decreases stages.len() - i,
{
    if 0 <= i < stages.len() {
        if let SourceView::Text(source) = stages[i].1.source {
            if let Ok((text, structs, next_fields)) = preprocess_spec(source, stages[i].0, fields) {
                lemma_prepare_from_errors(
                    stages,
                    i + 1,
                    next_fields,
                    PreparedView {
                        modules: acc.modules.push(
                            (stage_request(stages[i].0, stages[i].1, text), stages[i].1.span),
                        ),
                        bindgen_structs: acc.bindgen_structs + structs,
                    },
                );
            }
        }
    }
}

/// With both stage kinds present, more than two stages hold one kind
/// twice, and fewer than two cannot be.
pub proof fn lemma_three_stages(stages: Seq<StageView>)
    requires
        has_stage(stages, ModuleType::Vertex),
        has_stage(stages, ModuleType::Fragment),
        stages.len() != 2,
    ensures
        !distinct_stages(stages),
{
    let v = choose|i: int| 0 <= i < stages.len() && (#[trigger] stages[i]).0 == ModuleType::Vertex;
    let f = choose|i: int|
        0 <= i < stages.len() && (#[trigger] stages[i]).0 == ModuleType::Fragment;
    assert(v != f);
    assert(stages.len() >= 3);
    let a = stages[0].0;
    let b = stages[1].0;
    let c = stages[2].0;
    assert(a == b || a == c || b == c);
}

/// Two stages that hold both stage kinds hold none twice.
pub proof fn lemma_two_stages(stages: Seq<StageView>)
    requires
        has_stage(stages, ModuleType::Vertex),
        has_stage(stages, ModuleType::Fragment),
        stages.len() == 2,
    ensures
        distinct_stages(stages),
{
    let v = choose|i: int| 0 <= i < stages.len() && (#[trigger] stages[i]).0 == ModuleType::Vertex;
    let f = choose|i: int|
        0 <= i < stages.len() && (#[trigger] stages[i]).0 == ModuleType::Fragment;
    assert(v != f);
}

impl PreparedPipeline {
    /// Tells whether one of the prepared stages is of the kind `kind`.
    pub fn contains(&self, kind: ModuleType) -> (found: bool)
        ensures
            found == has_request(self@.modules, kind),
    {
        let mut i: usize = 0;
        while i < self.modules.len()
            invariant
                i <= self.modules.len(),
                forall|k: int| 0 <= k < i ==> (#[trigger] self@.modules[k]).0.stage != kind,
            decreases self.modules.len() - i,
        {
            if self.modules[i].request.stage == kind {
                assert(self@.modules[i as int].0.stage == kind);
                return true;
            }
            i = i + 1;
        }
        false
    }
}

impl Pipeline {
    /// Whether the pipeline holds the kernels of one vertex stage and one
    /// fragment stage, each under the kind of its stage.
    pub open spec fn wf(&self) -> bool {
        &&& self.modules@.len() == 2
        &&& forall|i: int|
            0 <= i < self.modules@.len() ==> (#[trigger] self.modules@[i]).0
                == self.modules@[i].1.module_type
        &&& exists|i: int|
            0 <= i < self.modules@.len() && (#[trigger] self.modules@[i]).0 == ModuleType::Vertex
        &&& exists|i: int|
            0 <= i < self.modules@.len() && (#[trigger] self.modules@[i]).0 == ModuleType::Fragment
    }

    /// Computes the host layouts of the blocks for which bindings are
    /// generated, in the order of the blocks. There is none where the size
    /// of a block is beyond the machine's number range.
    pub fn layouts(&self) -> (layouts: Option<Vec<HostLayout>>)
        ensures
            layouts matches Some(l) ==> l@.len() == self@.bindgen_structs.len() && forall|i: int|
                0 <= i < l@.len() ==> (#[trigger] l@[i]).is_layout_of(self@.bindgen_structs[i]),
            layouts is None ==> exists|i: int|
                0 <= i < self@.bindgen_structs.len() && crate::host::host_size_spec(
                    #[trigger] self@.bindgen_structs[i],
                ) > usize::MAX,
    {
        let mut layouts: Vec<HostLayout> = Vec::new();
        let mut i: usize = 0;
        while i < self.bindgen_structs.len()
            invariant
                i <= self.bindgen_structs.len(),
                layouts@.len() == i,
                forall|k: int|
                    0 <= k < i ==> (#[trigger] layouts@[k]).is_layout_of(self@.bindgen_structs[k]),
            decreases self.bindgen_structs.len() - i,
        {
            match self.bindgen_structs[i].host_layout() {
                Some(layout) => {
                    layouts.push(layout);
                },
                None => {
                    assert(self@.bindgen_structs[i as int] == self.bindgen_structs@[i as int]@);
                    return None;
                },
            }
            i = i + 1;
        }
        Some(layouts)
    }

    /// Prepares the stages of a pipeline definition for the compiler.
    ///
    /// A definition that lacks a stage or gives one twice is refused before
    /// anything else is done. After that the stages are expanded in order,
    /// and the first that fails ends the preparation with its error.
    pub fn prepare(input: &PipelineInput) -> (r: Result<PreparedPipeline, PrepareError>)
        ensures
            match r {
                Ok(p) => prepare_spec(input@) == Ok::<PreparedView, PrepareErrorView>(p@),
                Err(e) => prepare_spec(input@) is Err && is_prepare_error(
                    e,
                    prepare_spec(input@)->Err_0,
                ),
            },
            prepare_spec(input@) matches Err(PrepareErrorView::MissingStage(stage)) ==> r == Err::<
                PreparedPipeline,
                PrepareError,
            >(PrepareError::MissingStage(stage)),
            prepare_spec(input@) == Err::<PreparedView, PrepareErrorView>(
                PrepareErrorView::DuplicateStage,
            ) ==> r == Err::<PreparedPipeline, PrepareError>(PrepareError::DuplicateStage),
    {
        if !input.contains(ModuleType::Vertex) {
            return Err(PrepareError::MissingStage(ModuleType::Vertex));
        }
        if !input.contains(ModuleType::Fragment) {
            return Err(PrepareError::MissingStage(ModuleType::Fragment));
        }
        if input.modules.len() != 2 {
            proof {
                lemma_three_stages(input@);
            }
            return Err(PrepareError::DuplicateStage);
        }
        proof {
            lemma_two_stages(input@);
            lemma_prepare_from_errors(
                input@,
                0,
                Seq::empty(),
                PreparedView { modules: Seq::empty(), bindgen_structs: Seq::empty() },
            );
        }
        let mut struct_reg = StructRegistry::new();
        let mut prepared = PreparedPipeline { modules: Vec::new(), bindgen_structs: Vec::new() };
        let mut i: usize = 0;
        assert(prepared@.modules =~= Seq::empty());
        assert(prepared@.bindgen_structs =~= Seq::empty());
        while i < input.modules.len()
            invariant
                i <= input.modules.len(),
                struct_reg.wf(),
                has_stage(input@, ModuleType::Vertex),
                has_stage(input@, ModuleType::Fragment),
                distinct_stages(input@),
                prepare_spec(input@) matches Err(e) ==> e is Unresolved || e is Block,
                prepare_spec(input@) == prepare_from(input@, i as int, struct_reg.fields(), prepared@),
            decreases input.modules.len() - i,
        {
            let ghost before = prepared@;
            let stage = input.modules[i].0;
            let module = &input.modules[i].1;
            assert(input@[i as int] == (stage, module@));
            let source = match module.source_text() {
                Some(source) => source,
                None => {
                    return Err(PrepareError::Unresolved(i));
                },
            };
            let (text, mut structs) = match glsl_attrib_macros(source.as_str(), stage, &mut struct_reg) {
                Ok(expanded) => expanded,
                Err(e) => {
                    return Err(PrepareError::Preprocess(i, e));
                },
            };
            let ghost added = structs_view(structs@);
            let request = CompileRequest::new(
                stage,
                text,
                &module.entry,
                &module.include_path,
                &module.defines,
                module.default_defines,
                module.debug,
            );
            let ghost request_view = request@;
            prepared.modules.push(PreparedModule { request, span: module.span });
            prepared.bindgen_structs.append(&mut structs);
            assert(prepared@.modules =~= before.modules.push((request_view, module.span)));
            assert(prepared@.bindgen_structs =~= before.bindgen_structs + added);
            i = i + 1;
        }
        Ok(prepared)
    }

    /// Puts the pipeline together from its prepared stages and the
    /// compiler's answers, which belong to the stages in order.
    ///
    /// There is no pipeline unless the prepared stages are one vertex stage
    /// and one fragment stage, and every stage has its kernel.
    pub fn new(prepared: PreparedPipeline, outcomes: &Vec<CompileOutcome>) -> (r: Result<
        Pipeline,
        BuildError,
    >)
        ensures
            match r {
                Ok(p) => build_spec(prepared@, outcomes@) == Ok::<PipelineView, BuildErrorView>(p@)
                    && p.wf(),
                Err(e) => build_spec(prepared@, outcomes@) == Err::<PipelineView, BuildErrorView>(e@),
            },
    {
        if !prepared.contains(ModuleType::Vertex) {
            return Err(BuildError::MissingStage { kind: ModuleType::Vertex });
        }
        if !prepared.contains(ModuleType::Fragment) {
            return Err(BuildError::MissingStage { kind: ModuleType::Fragment });
        }
        if prepared.modules.len() != 2 {
            return Err(BuildError::DuplicateStage);
        }
        let mut modules: Vec<(ModuleType, CompiledModule)> = Vec::new();
        let n = prepared.modules.len();
        let mut i: usize = 0;
        assert(kernels_view(modules@) =~= Seq::empty());
        while i < n
            invariant
                i <= n,
                n == prepared.modules.len(),
                n == 2,
                has_request(prepared@.modules, ModuleType::Vertex),
                has_request(prepared@.modules, ModuleType::Fragment),
                modules@.len() == i,
                forall|k: int|
                    0 <= k < i ==> (#[trigger] modules@[k]).0 == modules@[k].1.module_type
                        && modules@[k].0 == prepared@.modules[k].0.stage,
                build_from(prepared@.modules, outcomes@, 0, Seq::empty()) == build_from(
                    prepared@.modules,
                    outcomes@,
                    i as int,
                    kernels_view(modules@),
                ),
            decreases n - i,
        {
            let at = prepared.modules[i].span;
            let request = &prepared.modules[i].request;
            assert(prepared@.modules[i as int] == (request@, at));
            if i >= outcomes.len() {
                return Err(BuildError::MissingOutcome { stage: i, at });
            }
            match CompiledModule::from_outcome(request, &outcomes[i]) {
                Ok(module) => {
                    let ghost kernel = module@;
                    let ghost before = kernels_view(modules@);
                    modules.push((module.module_type, module));
                    assert(kernels_view(modules@) =~= before.push(kernel));
                },
                Err(report) => {
                    return Err(BuildError::Failed { stage: i, at, report });
                },
            }
            i = i + 1;
        }
        proof {
            let v = choose|k: int|
                0 <= k < prepared@.modules.len() && (#[trigger] prepared@.modules[k]).0.stage
                    == ModuleType::Vertex;
            let f = choose|k: int|
                0 <= k < prepared@.modules.len() && (#[trigger] prepared@.modules[k]).0.stage
                    == ModuleType::Fragment;
            assert(modules@[v].0 == ModuleType::Vertex);
            assert(modules@[f].0 == ModuleType::Fragment);
        }
        Ok(Pipeline { modules, bindgen_structs: prepared.bindgen_structs })
    }
}

} // verus!
