//! The expansion of the annotated blocks of a stage's source.

use vstd::prelude::*;
use crate::annotation::{AnnotationError, BindgenStruct, BindgenStructView, ErrorView, annotation_spec};
use crate::bindgen::{generate_spec, generated_fields, glsl_spec, rename_pattern_spec, rename_prefix_spec};
use crate::matching::{find_all, regex_accepted, regex_matches, regex_pieces, regex_replaced, replace_all, split_all, strings_view, weave, weave_spec};
use crate::registry::{Direction, FieldView, RegistryError, StructRegistry};
use crate::stage::ModuleType;

verus! {

/// The regular expression that finds comments: from two slashes to the end
/// of the line, or from a slash and a star to the next star and slash, so
/// that each comment is found on its own.
pub open spec fn comment_pattern_spec() -> Seq<char> {
    "(//.*)|(/\\*(.|(\\r?\\n))*?\\*/)"@
}

/// Returns the regular expression that finds comments.
pub fn comment_pattern() -> (pattern: &'static str)
    ensures
        pattern@ == comment_pattern_spec(),
{
    "(//.*)|(/\\*(.|(\\r?\\n))*?\\*/)"
}

/// The regular expression that finds annotated blocks: a marker with its
/// argument, then on the same or the next line the head of a block, its
/// members in braces, and what follows up to a semicolon.
pub open spec fn block_pattern_spec() -> Seq<char> {
    "#\\[gears_(bind)?(gen)\\(.+\\)\\]((\\r?\\n)?.+)\\{([^}]+)*(\\r?\\n)?\\}.+;"@
}

/// Returns the regular expression that finds annotated blocks.
pub fn block_pattern() -> (pattern: &'static str)
    ensures
        pattern@ == block_pattern_spec(),
{
    "#\\[gears_(bind)?(gen)\\(.+\\)\\]((\\r?\\n)?.+)\\{([^}]+)*(\\r?\\n)?\\}.+;"
}

/// Why the source of a stage could not be expanded.
#[derive(Clone, Copy, Debug, PartialEq, Eq, Structural)]
pub enum PreprocessError {
    /// A regular expression was not accepted.
    Pattern,
    /// The annotated block of the given number is malformed.
    Annotation { index: usize, error: AnnotationError },
    /// The annotated block of the given number could not be registered.
    Registry { index: usize, reason: RegistryError },
}

/// An error of the expansion as a value.
pub enum BlockError {
    Pattern,
    Annotation(int, ErrorView),
    Registry(int, RegistryError),
}

/// A rule that renames accesses: a pattern, and what replaces its matches.
pub type RenameView = (Seq<char>, Seq<char>);

/// What the blocks of a stage expand to.
pub struct ExpansionView {
    /// The declaration that replaces each block.
    pub replacements: Seq<Seq<char>>,
    /// The blocks for which a host layout is generated.
    pub structs: Seq<BindgenStructView>,
    /// The rules that rename the accesses to input and output blocks.
    pub renames: Seq<RenameView>,
    /// The registered fields.
    pub fields: Seq<FieldView>,
}

/// The expansion of no block, with the fields `fields` registered.
pub open spec fn no_expansion(fields: Seq<FieldView>) -> ExpansionView {
    ExpansionView {
        replacements: Seq::empty(),
        structs: Seq::empty(),
        renames: Seq::empty(),
        fields,
    }
}

/// The expansion `acc` after the block `block`, registered at `slot`, is
/// added: its declaration, the block itself if a host layout is wanted,
/// and a rename rule unless it is a uniform block.
pub open spec fn with_block(acc: ExpansionView, block: BindgenStructView, slot: nat) -> ExpansionView {
    let placed = BindgenStructView { slot: Some(slot as usize), ..block };
    ExpansionView {
        replacements: acc.replacements.push(glsl_spec(placed)),
        structs: if block.meta.bind {
            acc.structs.push(placed)
        } else {
            acc.structs
        },
        renames: if block.direction() != Direction::Uniform {
            acc.renames.push(
                (rename_pattern_spec(block.field_name), rename_prefix_spec(block.field_name)),
            )
        } else {
            acc.renames
        },
        fields: generated_fields(block, acc.fields),
    }
}

/// The expansion of the blocks `found` of the stage `module` from number
/// `i` on, after the expansion `acc` of those before: each block is read
/// and registered in turn, and the first that fails ends the expansion
/// with its error.
pub open spec fn expand_from(module: ModuleType, found: Seq<Seq<char>>, i: int, acc: ExpansionView) -> Result<
    ExpansionView,
    BlockError,
>
    decreases found.len() - i,
{
    if i < 0 || i >= found.len() {
        Ok(acc)
    } else {
        match annotation_spec(found[i], module) {
            Err(e) => Err(BlockError::Annotation(i, e)),
            Ok(block) => match generate_spec(block, acc.fields) {
                Err(e) => Err(BlockError::Registry(i, e)),
                Ok(slot) => expand_from(module, found, i + 1, with_block(acc, block, slot)),
            },
        }
    }
}

/// The expansion of the blocks `found` of the stage `module`, with the
/// fields `fields` registered before.
pub open spec fn expand_spec(module: ModuleType, found: Seq<Seq<char>>, fields: Seq<FieldView>) -> Result<
    ExpansionView,
    BlockError,
> {
    expand_from(module, found, 0, no_expansion(fields))
}

/// The fields that are registered after the blocks `found` from number `i`
/// on are expanded, with `fields` registered before: the fields of every
/// block up to the first that fails are added.
pub open spec fn expand_fields_from(module: ModuleType, found: Seq<Seq<char>>, i: int, fields: Seq<FieldView>) -> Seq<
    FieldView,
>
    decreases found.len() - i,
{
    if i < 0 || i >= found.len() {
        fields
    } else {
        match annotation_spec(found[i], module) {
            Err(_) => fields,
            Ok(block) => match generate_spec(block, fields) {
                Err(_) => fields,
                Ok(_) => expand_fields_from(module, found, i + 1, generated_fields(block, fields)),
            },
        }
    }
}

/// The fields that are registered after the blocks `found` are expanded,
/// whether all of them or only the first ones succeed.
pub open spec fn expand_fields(module: ModuleType, found: Seq<Seq<char>>, fields: Seq<FieldView>) -> Seq<
    FieldView,
> {
    expand_fields_from(module, found, 0, fields)
}

/// What the blocks of a stage expand to.
#[derive(Debug)]
pub struct Expansion {
    pub replacements: Vec<String>,
    pub structs: Vec<BindgenStruct>,
    pub renames: Vec<(String, String)>,
}

/// The values of a list of blocks.
pub open spec fn structs_view(v: Seq<BindgenStruct>) -> Seq<BindgenStructView> {
    Seq::new(v.len(), |i: int| v[i]@)
}

/// The values of a list of rename rules.
pub open spec fn renames_view(v: Seq<(String, String)>) -> Seq<RenameView> {
    Seq::new(v.len(), |i: int| (v[i].0@, v[i].1@))
}

impl Expansion {
    /// The expansion's value, with the registered fields `fields`.
    pub open spec fn view_with(&self, fields: Seq<FieldView>) -> ExpansionView {
        ExpansionView {
            replacements: strings_view(self.replacements@),
            structs: structs_view(self.structs@),
            renames: renames_view(self.renames@),
            fields,
        }
    }
}

/// Whether the error `e` stands for the block error `b`.
pub open spec fn is_block_error(e: PreprocessError, b: BlockError) -> bool {
    match e {
        PreprocessError::Pattern => b == BlockError::Pattern,
        PreprocessError::Annotation { index, error } => b == BlockError::Annotation(
            index as int,
            error.pair(),
        ),
        PreprocessError::Registry { index, reason } => b == BlockError::Registry(index as int, reason),
    }
}

/// Expands the annotated blocks `found` of the stage `module`, in order:
/// each is read, registered, and turned into its plain declaration. The
/// first block that fails ends the expansion; the blocks before it stay
/// registered.
pub fn expand_blocks(module: ModuleType, found: &Vec<String>, registry: &mut StructRegistry) -> (r:
    Result<Expansion, PreprocessError>)
    requires
        old(registry).wf(),
    ensures
        final(registry).wf(),
        final(registry).stage_start() == old(registry).stage_start(),
        final(registry).previous_start() == old(registry).previous_start(),
        final(registry).fields() == expand_fields(
            module,
            strings_view(found@),
            old(registry).fields(),
        ),
        match r {
            Ok(x) => expand_spec(module, strings_view(found@), old(registry).fields()) == Ok::<
                ExpansionView,
                BlockError,
            >(x.view_with(final(registry).fields())),
            Err(e) => expand_spec(module, strings_view(found@), old(registry).fields()) is Err
                && is_block_error(
                e,
                expand_spec(module, strings_view(found@), old(registry).fields())->Err_0,
            ),
        },
{
    let mut x = Expansion { replacements: Vec::new(), structs: Vec::new(), renames: Vec::new() };
    let mut i: usize = 0;
    assert(x.view_with(registry.fields()) =~= no_expansion(registry.fields())) by {
        assert(strings_view(x.replacements@) =~= Seq::empty());
        assert(structs_view(x.structs@) =~= Seq::empty());
        assert(renames_view(x.renames@) =~= Seq::empty());
    }
    while i < found.len()
        invariant
            i <= found.len(),
            registry.wf(),
            registry.stage_start() == old(registry).stage_start(),
            registry.previous_start() == old(registry).previous_start(),
            expand_spec(module, strings_view(found@), old(registry).fields()) == expand_from(
                module,
                strings_view(found@),
                i as int,
                x.view_with(registry.fields()),
            ),
            expand_fields(module, strings_view(found@), old(registry).fields())
                == expand_fields_from(module, strings_view(found@), i as int, registry.fields()),
        decreases found.len() - i,
    {
        let ghost acc = x.view_with(registry.fields());
        let mut block = match BindgenStruct::parse(found[i].as_str(), module) {
            Ok(block) => block,
            Err(error) => {
                return Err(PreprocessError::Annotation { index: i, error });
            },
        };
        let ghost parsed = block@;
        match block.generate(registry) {
            Ok(()) => {},
            Err(reason) => {
                return Err(PreprocessError::Registry { index: i, reason });
            },
        }
        let ghost slot = generate_spec(parsed, acc.fields)->Ok_0;
        let ghost next = with_block(acc, parsed, slot);
        let glsl = block.to_glsl();
        x.replacements.push(glsl);
        assert(strings_view(x.replacements@) =~= next.replacements);
        if block.direction() != Direction::Uniform {
            x.renames.push((block.rename_pattern(), block.rename_prefix()));
        }
        assert(renames_view(x.renames@) =~= next.renames);
        if block.meta.bind {
            x.structs.push(block);
        }
        assert(structs_view(x.structs@) =~= next.structs);
        i = i + 1;
    }
    Ok(x)
}

/// `text` after the first `n` of the rename rules `renames` are applied in
/// turn: each replaces the matches of its pattern.
pub open spec fn renamed(text: Seq<char>, renames: Seq<RenameView>, n: int) -> Seq<char>
    decreases n,
{
    if n <= 0 {
        text
    } else {
        regex_replaced(renames[n - 1].0, renamed(text, renames, n - 1), renames[n - 1].1)
    }
}

/// Whether the pattern of every rename rule is accepted as a regular
/// expression.
pub open spec fn all_accepted(renames: Seq<RenameView>) -> bool {
    forall|k: int| 0 <= k < renames.len() ==> regex_accepted((#[trigger] renames[k]).0)
}

/// `source` with a space in place of every comment.
pub open spec fn stripped_spec(source: Seq<char>) -> Seq<char> {
    regex_replaced(comment_pattern_spec(), source, " "@)
}

/// What the source `source` of the stage `module` expands to, with the
/// fields `fields` registered before: the text handed to the compiler, the
/// blocks for which a host layout is generated, and the fields registered
/// after.
///
/// Comments give way to a space each. Every annotated block is replaced by
/// its plain declaration, and the accesses to the members of input and
/// output blocks are renamed after the variables that stand for the
/// members. The expansion fails on the first block that is malformed or
/// cannot be registered, and with `Pattern` where a regular expression is
/// not accepted: that for comments or that for blocks before anything is
/// done, that of a rename rule once all blocks are expanded.
pub open spec fn preprocess_spec(source: Seq<char>, module: ModuleType, fields: Seq<FieldView>) -> Result<
    (Seq<char>, Seq<BindgenStructView>, Seq<FieldView>),
    BlockError,
> {
    if !regex_accepted(comment_pattern_spec()) || !regex_accepted(block_pattern_spec()) {
        Err(BlockError::Pattern)
    } else {
        let stripped = stripped_spec(source);
        match expand_spec(module, regex_matches(block_pattern_spec(), stripped), fields) {
            Err(e) => Err(e),
            Ok(x) => if !all_accepted(x.renames) {
                Err(BlockError::Pattern)
            } else {
                Ok(
                    (
                        renamed(
                            weave_spec(regex_pieces(block_pattern_spec(), stripped), x.replacements),
                            x.renames,
                            x.renames.len() as int,
                        ),
                        x.structs,
                        x.fields,
                    ),
                )
            },
        }
    }
}

/// The fields that are registered after the source `source` of the stage
/// `module` is expanded, whether the expansion succeeds or not: those of
/// every block up to the first that fails.
pub open spec fn preprocess_fields(source: Seq<char>, module: ModuleType, fields: Seq<FieldView>) -> Seq<
    FieldView,
> {
    if !regex_accepted(comment_pattern_spec()) || !regex_accepted(block_pattern_spec()) {
        fields
    } else {
        expand_fields(module, regex_matches(block_pattern_spec(), stripped_spec(source)), fields)
    }
}

/// Applies rename rules to `text`, in order.
///
/// There is a result exactly where the pattern of every rule is accepted as
/// a regular expression; without rules the text comes back as it is.
pub fn apply_renames(text: String, renames: &Vec<(String, String)>) -> (r: Option<String>)
    ensures
        r is Some <==> all_accepted(renames_view(renames@)),
        r matches Some(out) ==> out@ == renamed(
            text@,
            renames_view(renames@),
            renames@.len() as int,
        ),
        renames@.len() == 0 ==> r is Some && r->0@ == text@,
{
    let mut out = text;
    let mut i: usize = 0;
    while i < renames.len()
        invariant
            i <= renames.len(),
            out@ == renamed(text@, renames_view(renames@), i as int),
            forall|k: int| 0 <= k < i ==> regex_accepted((#[trigger] renames_view(renames@)[k]).0),
        decreases renames.len() - i,
    {
        out = match replace_all(renames[i].0.as_str(), out.as_str(), renames[i].1.as_str()) {
            Some(next) => next,
            None => {
                assert(!regex_accepted(renames_view(renames@)[i as int].0));
                return None;
            },
        };
        i = i + 1;
    }
    Some(out)
}

/// Expands the source of the stage `module`: begins the stage in the
/// registry, strips the comments, replaces every annotated block by its
/// plain declaration and renames the accesses to the blocks' members.
/// Returns the text for the compiler and the blocks for which a host
/// layout is generated.
///
/// Fails on the first block that is malformed or cannot be registered, and
/// with `Pattern` where a regular expression is not accepted. The blocks
/// before a failure stay registered.
pub fn glsl_attrib_macros(source: &str, module: ModuleType, struct_reg: &mut StructRegistry) -> (r:
    Result<(String, Vec<BindgenStruct>), PreprocessError>)
    requires
        old(struct_reg).wf(),
    ensures
        final(struct_reg).wf(),
        final(struct_reg).previous_start() == old(struct_reg).stage_start(),
        final(struct_reg).stage_start() == old(struct_reg).fields().len(),
        final(struct_reg).fields() == preprocess_fields(source@, module, old(struct_reg).fields()),
        match r {
            Ok((text, structs)) => preprocess_spec(source@, module, old(struct_reg).fields()) == Ok::<
                (Seq<char>, Seq<BindgenStructView>, Seq<FieldView>),
                BlockError,
            >((text@, structs_view(structs@), final(struct_reg).fields())),
            Err(e) => preprocess_spec(source@, module, old(struct_reg).fields()) is Err
                && is_block_error(
                e,
                preprocess_spec(source@, module, old(struct_reg).fields())->Err_0,
            ),
        },
{
    struct_reg.next_module();
    let stripped = match replace_all(comment_pattern(), source, " ") {
        Some(stripped) => stripped,
        None => {
            return Err(PreprocessError::Pattern);
        },
    };
    let found = match find_all(block_pattern(), stripped.as_str()) {
        Some(found) => found,
        None => {
            return Err(PreprocessError::Pattern);
        },
    };
    let pieces = match split_all(block_pattern(), stripped.as_str()) {
        Some(pieces) => pieces,
        None => {
            return Err(PreprocessError::Pattern);
        },
    };
    let x = match expand_blocks(module, &found, struct_reg) {
        Ok(x) => x,
        Err(e) => {
            return Err(e);
        },
    };
    let woven = weave(&pieces, &x.replacements);
    match apply_renames(woven, &x.renames) {
        Some(text) => Ok((text, x.structs)),
        None => Err(PreprocessError::Pattern),
    }
}

} // verus!
