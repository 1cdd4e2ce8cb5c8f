//! A pipeline definition: one stage definition per stage kind.

use vstd::prelude::*;
use crate::defines::{is_group_at, is_punct_at, punct_at};
use crate::module_input::{ModuleInput, ModuleInputView, module_spec};
use crate::stage::ModuleType;
use crate::text::same_text;
use crate::tokens::{InputError, InputErrorKind, InputErrorView, Location, Token, location, location_spec, plain_error};

verus! {

/// The stage kind that the identifier `name` selects, if any.
pub open spec fn stage_of_spec(name: Seq<char>) -> Option<ModuleType> {
    if name == "vs"@ || name == "vertex"@ || name == "vert"@ {
        Some(ModuleType::Vertex)
    } else if name == "fs"@ || name == "fragment"@ || name == "frag"@ {
        Some(ModuleType::Fragment)
    } else {
        None
    }
}

/// Returns the stage kind that the identifier `name` selects, if any.
pub fn stage_of(name: &str) -> (stage: Option<ModuleType>)
    ensures
        stage == stage_of_spec(name@),
{
    if same_text(name, "vs") || same_text(name, "vertex") || same_text(name, "vert") {
        Some(ModuleType::Vertex)
    } else if same_text(name, "fs") || same_text(name, "fragment") || same_text(name, "frag") {
        Some(ModuleType::Fragment)
    } else {
        None
    }
}

/// A stage kind with the definition given for it.
pub type StageView = (ModuleType, ModuleInputView);

/// Whether `stages` holds a definition for `stage`.
pub open spec fn has_stage(stages: Seq<StageView>, stage: ModuleType) -> bool {
    exists|i: int| 0 <= i < stages.len() && (#[trigger] stages[i]).0 == stage
}

/// Whether no stage kind occurs twice in `stages`.
pub open spec fn distinct_stages(stages: Seq<StageView>) -> bool {
    forall|i: int, j: int|
        0 <= i < j < stages.len() ==> (#[trigger] stages[i]).0 != (#[trigger] stages[j]).0
}

/// The pipeline definition written in `tokens` from position `pos` on,
/// after the stages `acc` read so far.
///
/// A stage is written as a stage name, a colon and a group that holds the
/// stage's definition. A name that selects no stage kind is an error, and so
/// is a second stage of a kind already read.
pub open spec fn pipeline_from(tokens: Seq<Token>, pos: int, acc: Seq<StageView>) -> Result<
    Seq<StageView>,
    InputErrorView,
>
    decreases tokens.len() - pos,
{
    if pos < 0 || pos >= tokens.len() {
        Ok(acc)
    } else {
        match tokens[pos] {
            Token::Ident { name, span } => {
                if !is_punct_at(tokens, pos + 1, ':') {
                    Err(plain_error(InputErrorKind::ExpectedColon, location_spec(tokens, pos + 1)))
                } else if !is_group_at(tokens, pos + 2) {
                    Err(plain_error(InputErrorKind::ExpectedGroup, location_spec(tokens, pos + 2)))
                } else {
                    match stage_of_spec(name@) {
                        None => Err(
                            InputErrorView {
                                kind: InputErrorKind::UnknownShaderType,
                                at: Location::At(span),
                                detail: name@,
                            },
                        ),
                        Some(stage) => {
                            if has_stage(acc, stage) {
                                Err(
                                    plain_error(
                                        InputErrorKind::DuplicateModule,
                                        Location::At(span),
                                    ),
                                )
                            } else {
                                match module_spec(tokens[pos + 2]->stream@) {
                                    Err(e) => Err(e),
                                    Ok(m) => pipeline_from(tokens, pos + 3, acc.push((stage, m))),
                                }
                            }
                        },
                    }
                }
            },
            _ => Err(plain_error(InputErrorKind::ExpectedIdent, location_spec(tokens, pos))),
        }
    }
}

/// The pipeline definition written in `tokens`.
pub open spec fn pipeline_spec(tokens: Seq<Token>) -> Result<Seq<StageView>, InputErrorView> {
    pipeline_from(tokens, 0, Seq::empty())
}

/// The stages of a pipeline definition, in the order written.
#[derive(Debug)]
pub struct PipelineInput {
    pub modules: Vec<(ModuleType, ModuleInput)>,
}

impl View for PipelineInput {
    type V = Seq<StageView>;

    open spec fn view(&self) -> Seq<StageView> {
        Seq::new(self.modules@.len(), |i: int| (self.modules@[i].0, self.modules@[i].1@))
    }
}

impl PipelineInput {
    /// Whether the definition gives each stage kind at most once.
    pub open spec fn wf(&self) -> bool {
        distinct_stages(self@)
    }

    /// Tells whether a definition for `stage` is held.
    pub fn contains(&self, stage: ModuleType) -> (found: bool)
        ensures
            found == has_stage(self@, stage),
    {
        let mut i: usize = 0;
        while i < self.modules.len()
            invariant
                i <= self.modules.len(),
                forall|k: int| 0 <= k < i ==> (#[trigger] self@[k]).0 != stage,
            decreases self.modules.len() - i,
        {
            if self.modules[i].0 == stage {
                assert(self@[i as int].0 == stage);
                return true;
            }
            i = i + 1;
        }
        false
    }

    /// Reads a pipeline definition.
    pub fn parse(tokens: &Vec<Token>) -> (r: Result<PipelineInput, InputError>)
        ensures
            match r {
                Ok(p) => pipeline_spec(tokens@) == Ok::<Seq<StageView>, InputErrorView>(p@) && p.wf(),
                Err(e) => pipeline_spec(tokens@) == Err::<Seq<StageView>, InputErrorView>(e@),
            },
    {
        let mut input = PipelineInput { modules: Vec::new() };
        let n = tokens.len();
        let mut pos: usize = 0;
        assert(input@ =~= Seq::empty());
        while pos < n
            invariant
                n == tokens.len(),
                pos <= n,
                input.wf(),
                pipeline_spec(tokens@) == pipeline_from(tokens@, pos as int, input@),
            decreases n - pos,
        {
            let ghost before = input@;
            let (name, span) = match &tokens[pos] {
                Token::Ident { name, span } => (name, *span),
                other => {
                    return Err(InputError::plain(InputErrorKind::ExpectedIdent, location(tokens, pos)));
                },
            };
            if !punct_at(tokens, pos + 1, ':') {
                return Err(InputError::plain(InputErrorKind::ExpectedColon, location(tokens, pos + 1)));
            }
            if pos + 2 >= n {
                return Err(InputError::plain(InputErrorKind::ExpectedGroup, Location::End));
            }
            let stream = match &tokens[pos + 2] {
                Token::Group { stream, .. } => stream,
                other => {
                    return Err(
                        InputError::plain(InputErrorKind::ExpectedGroup, location(tokens, pos + 2)),
                    );
                },
            };
            let stage = match stage_of(name.as_str()) {
                Some(stage) => stage,
                None => {
                    return Err(
                        InputError {
                            kind: InputErrorKind::UnknownShaderType,
                            at: Location::At(span),
                            detail: name.clone(),
                        },
                    );
                },
            };
            if input.contains(stage) {
                return Err(InputError::plain(InputErrorKind::DuplicateModule, Location::At(span)));
            }
            match ModuleInput::parse(stream) {
                Ok(module) => {
                    let ghost m = module@;
                    input.modules.push((stage, module));
                    assert(input@ =~= before.push((stage, m)));
                },
                Err(e) => {
                    return Err(e);
                },
            }
            pos = pos + 3;
        }
        Ok(input)
    }
}

/// A second stage of a kind already read is always an error: whatever
/// follows, reading a well-formed stage header whose kind is among the
/// stages read so far fails as a duplicate, at the header's name.
pub proof fn lemma_duplicate_stage_rejected(tokens: Seq<Token>, pos: int, acc: Seq<StageView>)
    requires
        0 <= pos < tokens.len(),
        tokens[pos] is Ident,
        is_punct_at(tokens, pos + 1, ':'),
        is_group_at(tokens, pos + 2),
        stage_of_spec(tokens[pos]->name@) is Some,
        has_stage(acc, stage_of_spec(tokens[pos]->name@)->0),
    ensures
        pipeline_from(tokens, pos, acc) == Err::<Seq<StageView>, InputErrorView>(
            plain_error(InputErrorKind::DuplicateModule, Location::At(tokens[pos].span_spec())),
        ),
{
}

/// A pipeline definition that is read without error gives each stage kind
/// at most once.
pub proof fn lemma_stages_distinct(tokens: Seq<Token>, pos: int, acc: Seq<StageView>)
    requires
        distinct_stages(acc),
    ensures
        pipeline_from(tokens, pos, acc) matches Ok(stages) ==> distinct_stages(stages),
    decreases tokens.len() - pos,
{
    if 0 <= pos < tokens.len() {
        if let Token::Ident { name, span } = tokens[pos] {
            if is_punct_at(tokens, pos + 1, ':') && is_group_at(tokens, pos + 2) {
                if let Some(stage) = stage_of_spec(name@) {
                    if !has_stage(acc, stage) {
                        if let Ok(m) = module_spec(tokens[pos + 2]->stream@) {
                            lemma_stages_distinct(tokens, pos + 3, acc.push((stage, m)));
                        }
                    }
                }
            }
        }
    }
}

} // verus!
