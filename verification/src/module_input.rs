//! The definition of one shader stage: where its source comes from and how
//! it is to be compiled.

use vstd::prelude::*;
use crate::defines::{DefinesInput, MacroView, defines_spec, is_group_at, is_punct_at, is_str_at, punct_at, str_at};
use crate::text::{opt_text, same_text};
use crate::tokens::{InputError, InputErrorKind, InputErrorView, Location, Token, location, location_spec, plain_error};

verus! {

/// The fields that a stage's definition may hold.
#[derive(Clone, Copy, Debug, PartialEq, Eq, Structural)]
pub enum FieldKey {
    Path,
    Source,
    Include,
    Define,
    NoAutodefine,
    Entry,
    Debug,
}

/// The field that `name` selects, if any.
pub open spec fn field_key(name: Seq<char>) -> Option<FieldKey> {
    if name == "p"@ || name == "path"@ {
        Some(FieldKey::Path)
    } else if name == "s"@ || name == "src"@ || name == "source"@ {
        Some(FieldKey::Source)
    } else if name == "i"@ || name == "inc"@ || name == "include"@ {
        Some(FieldKey::Include)
    } else if name == "d"@ || name == "def"@ || name == "define"@ {
        Some(FieldKey::Define)
    } else if name == "n"@ || name == "na"@ || name == "no-autodefine"@ {
        Some(FieldKey::NoAutodefine)
    } else if name == "e"@ || name == "ep"@ || name == "entry"@ {
        Some(FieldKey::Entry)
    } else if name == "debug"@ {
        Some(FieldKey::Debug)
    } else {
        None
    }
}

/// Whether the three tokens from `pos` on spell `no-autodefine`: the names
/// `no` and `autodefine` with a minus sign between them.
pub open spec fn is_no_autodefine_at(tokens: Seq<Token>, pos: int) -> bool {
    &&& 0 <= pos && pos + 2 < tokens.len()
    &&& tokens[pos] is Ident && tokens[pos]->name@ == "no"@
    &&& is_punct_at(tokens, pos + 1, '-')
    &&& tokens[pos + 2] is Ident && tokens[pos + 2]->name@ == "autodefine"@
}

/// Tells whether the three tokens from `pos` on spell `no-autodefine`.
pub fn no_autodefine_at(tokens: &Vec<Token>, pos: usize) -> (r: bool)
    ensures
        r == is_no_autodefine_at(tokens@, pos as int),
{
    if pos >= tokens.len() || tokens.len() - pos < 3 {
        return false;
    }
    let first = match &tokens[pos] {
        Token::Ident { name, .. } => same_text(name.as_str(), "no"),
        _ => false,
    };
    let last = match &tokens[pos + 2] {
        Token::Ident { name, .. } => same_text(name.as_str(), "autodefine"),
        _ => false,
    };
    first && punct_at(tokens, pos + 1, '-') && last
}

/// Returns the field that `name` selects, if any.
pub fn classify_field(name: &str) -> (key: Option<FieldKey>)
    ensures
        key == field_key(name@),
{
    if same_text(name, "p") || same_text(name, "path") {
        Some(FieldKey::Path)
    } else if same_text(name, "s") || same_text(name, "src") || same_text(name, "source") {
        Some(FieldKey::Source)
    } else if same_text(name, "i") || same_text(name, "inc") || same_text(name, "include") {
        Some(FieldKey::Include)
    } else if same_text(name, "d") || same_text(name, "def") || same_text(name, "define") {
        Some(FieldKey::Define)
    } else if same_text(name, "n") || same_text(name, "na") || same_text(name, "no-autodefine") {
        Some(FieldKey::NoAutodefine)
    } else if same_text(name, "e") || same_text(name, "ep") || same_text(name, "entry") {
        Some(FieldKey::Entry)
    } else if same_text(name, "debug") {
        Some(FieldKey::Debug)
    } else {
        None
    }
}

/// Where a stage's source text comes from.
#[derive(Debug)]
pub enum ShaderSource {
    /// The text itself.
    Text(String),
    /// A file still to be read: its path, the span of the path literal, and
    /// whether the file's directory is to become the include directory
    /// (no `include` field stood before the `path` field).
    File { path: String, at: usize, seed_include: bool },
}

/// The mathematical value of a [`ShaderSource`].
pub enum SourceView {
    Text(Seq<char>),
    File { path: Seq<char>, at: usize, seed_include: bool },
}

impl View for ShaderSource {
    type V = SourceView;

    open spec fn view(&self) -> SourceView {
        match *self {
            ShaderSource::Text(text) => SourceView::Text(text@),
            ShaderSource::File { path, at, seed_include } => SourceView::File {
                path: path@,
                at,
                seed_include,
            },
        }
    }
}

/// The value of an optional source.
pub open spec fn opt_source(o: Option<ShaderSource>) -> Option<SourceView> {
    match o {
        Some(s) => Some(s@),
        None => None,
    }
}

/// The definition of one shader stage.
#[derive(Debug)]
pub struct ModuleInput {
    pub source: ShaderSource,
    pub include_path: Option<String>,
    pub defines: DefinesInput,
    pub default_defines: bool,
    pub entry: Option<String>,
    pub debug: bool,
    /// The place that errors of the whole stage are reported at: the last
    /// value read.
    pub span: Location,
}

/// The mathematical value of a [`ModuleInput`].
pub struct ModuleInputView {
    pub source: SourceView,
    pub include_path: Option<Seq<char>>,
    pub defines: Seq<MacroView>,
    pub default_defines: bool,
    pub entry: Option<Seq<char>>,
    pub debug: bool,
    pub span: Location,
}

impl View for ModuleInput {
    type V = ModuleInputView;

    open spec fn view(&self) -> ModuleInputView {
        ModuleInputView {
            source: self.source@,
            include_path: opt_text(self.include_path),
            defines: self.defines@,
            default_defines: self.default_defines,
            entry: opt_text(self.entry),
            debug: self.debug,
            span: self.span,
        }
    }
}

/// The fields of a stage's definition read so far.
pub struct ModuleFields {
    pub source: Option<SourceView>,
    pub include_path: Option<Seq<char>>,
    pub defines: Seq<MacroView>,
    pub default_defines: bool,
    pub entry: Option<Seq<char>>,
    pub debug: bool,
    pub span: Location,
}

/// The state before any field is read: no source, default macros on, the
/// entry point and include directory unset, errors reported at the first
/// token.
pub open spec fn no_fields(tokens: Seq<Token>) -> ModuleFields {
    ModuleFields {
        source: None,
        include_path: None,
        defines: Seq::empty(),
        default_defines: true,
        entry: None,
        debug: false,
        span: location_spec(tokens, 0),
    }
}

/// The fields after the string-valued field `key`, whose literal at span
/// `at` holds `value`, is added to `st`.
pub open spec fn with_value(st: ModuleFields, key: FieldKey, value: Seq<char>, at: usize) -> ModuleFields {
    match key {
        FieldKey::Path => ModuleFields {
            source: Some(SourceView::File { path: value, at, seed_include: st.include_path is None }),
            span: Location::At(at),
            ..st
        },
        FieldKey::Source => ModuleFields {
            source: Some(SourceView::Text(value)),
            span: Location::At(at),
            ..st
        },
        FieldKey::Include => ModuleFields { include_path: Some(value), span: Location::At(at), ..st },
        FieldKey::Entry => ModuleFields { entry: Some(value), span: Location::At(at), ..st },
        _ => st,
    }
}

/// The fields of the stage definition written in `tokens` from position
/// `pos` on, after the fields `st` read so far.
///
/// A field is a name, and for all but `no-autodefine` and `debug` a colon
/// and a value: a string literal, or for `define` a group holding a macro
/// list. The name `no-autodefine` may be written as one identifier or as
/// the tokens that it falls into. Only one of `path` and `source` may
/// occur, and only once; the other fields may be repeated, the last value
/// standing (macro lists add up).
pub open spec fn module_fields(tokens: Seq<Token>, pos: int, st: ModuleFields) -> Result<
    ModuleFields,
    InputErrorView,
>
    decreases tokens.len() - pos,
{
    if pos < 0 || pos >= tokens.len() {
        Ok(st)
    } else {
        match tokens[pos] {
            Token::Ident { name, span } => {
                match field_key(name@) {
                    None => if is_no_autodefine_at(tokens, pos) {
                        module_fields(tokens, pos + 3, ModuleFields { default_defines: false, ..st })
                    } else {
                        Err(
                            InputErrorView {
                                kind: InputErrorKind::InvalidField,
                                at: Location::At(span),
                                detail: name@,
                            },
                        )
                    },
                    Some(FieldKey::NoAutodefine) => module_fields(
                        tokens,
                        pos + 1,
                        ModuleFields { default_defines: false, ..st },
                    ),
                    Some(FieldKey::Debug) => module_fields(
                        tokens,
                        pos + 1,
                        ModuleFields { debug: true, ..st },
                    ),
                    Some(key) => {
                        if !is_punct_at(tokens, pos + 1, ':') {
                            Err(
                                plain_error(
                                    InputErrorKind::ExpectedColon,
                                    location_spec(tokens, pos + 1),
                                ),
                            )
                        } else if key == FieldKey::Define {
                            if !is_group_at(tokens, pos + 2) {
                                Err(
                                    plain_error(
                                        InputErrorKind::ExpectedGroup,
                                        location_spec(tokens, pos + 2),
                                    ),
                                )
                            } else {
                                match defines_spec(tokens[pos + 2]->stream@) {
                                    Err(e) => Err(e),
                                    Ok(more) => module_fields(
                                        tokens,
                                        pos + 3,
                                        ModuleFields {
                                            defines: st.defines + more,
                                            span: Location::At(tokens[pos + 2].span_spec()),
                                            ..st
                                        },
                                    ),
                                }
                            }
                        } else if (key == FieldKey::Path || key == FieldKey::Source)
                            && st.source is Some {
                            Err(
                                plain_error(
                                    InputErrorKind::SourceAlreadySpecified,
                                    Location::At(span),
                                ),
                            )
                        } else if !is_str_at(tokens, pos + 2) {
                            Err(
                                plain_error(
                                    InputErrorKind::ExpectedString,
                                    location_spec(tokens, pos + 2),
                                ),
                            )
                        } else {
                            module_fields(
                                tokens,
                                pos + 3,
                                with_value(
                                    st,
                                    key,
                                    tokens[pos + 2]->value@,
                                    tokens[pos + 2].span_spec(),
                                ),
                            )
                        }
                    },
                }
            },
            _ => Err(plain_error(InputErrorKind::ExpectedIdent, location_spec(tokens, pos))),
        }
    }
}

/// The stage definition written in `tokens`: its fields, of which a source
/// must be one.
pub open spec fn module_spec(tokens: Seq<Token>) -> Result<ModuleInputView, InputErrorView> {
    match module_fields(tokens, 0, no_fields(tokens)) {
        Err(e) => Err(e),
        Ok(st) => match st.source {
            None => Err(plain_error(InputErrorKind::MissingSource, st.span)),
            Some(source) => Ok(
                ModuleInputView {
                    source,
                    include_path: st.include_path,
                    defines: st.defines,
                    default_defines: st.default_defines,
                    entry: st.entry,
                    debug: st.debug,
                    span: st.span,
                },
            ),
        },
    }
}

/// What reading the file of a `path` field gave.
#[derive(Debug)]
pub enum FileOutcome {
    /// There is no file at the path.
    NotFound,
    /// The file could not be opened.
    OpenFailed,
    /// The file could not be read as text.
    ReadFailed,
    /// The file's text, and the directory that holds the file, if it has one.
    Loaded { text: String, parent: Option<String> },
}

/// The definition `m` once the file of its `path` field has been read with
/// the given outcome.
///
/// A definition that holds its text stays as it is. Otherwise a failed read
/// is an error at the path literal; a file without a directory is one too
/// where that directory was to serve for includes; else the text replaces
/// the path, and the directory becomes the include directory unless an
/// `include` field gave one.
pub open spec fn resolve_spec(m: ModuleInputView, outcome: FileOutcome) -> Result<
    ModuleInputView,
    InputErrorView,
> {
    match m.source {
        SourceView::Text(_) => Ok(m),
        SourceView::File { path, at, seed_include } => match outcome {
            FileOutcome::NotFound => Err(
                plain_error(InputErrorKind::FileNotFound, Location::At(at)),
            ),
            FileOutcome::OpenFailed => Err(
                plain_error(InputErrorKind::FileOpenFailed, Location::At(at)),
            ),
            FileOutcome::ReadFailed => Err(
                plain_error(InputErrorKind::FileReadFailed, Location::At(at)),
            ),
            FileOutcome::Loaded { text, parent } => {
                if seed_include && parent is None {
                    Err(plain_error(InputErrorKind::NoDirectory, Location::At(at)))
                } else {
                    Ok(
                        ModuleInputView {
                            source: SourceView::Text(text@),
                            include_path: if seed_include && m.include_path is None {
                                opt_text(parent)
                            } else {
                                m.include_path
                            },
                            ..m
                        },
                    )
                }
            },
        },
    }
}

impl ModuleInput {
    /// Returns the path of the file that still has to be read, if the
    /// definition names one.
    pub fn pending_path(&self) -> (path: Option<&String>)
        ensures
            match self@.source {
                SourceView::Text(_) => path is None,
                SourceView::File { path: p, .. } => path is Some && path->0@ == p,
            },
    {
        match &self.source {
            ShaderSource::Text(_) => None,
            ShaderSource::File { path, .. } => Some(path),
        }
    }

    /// Returns the source text, if the definition holds it.
    pub fn source_text(&self) -> (text: Option<&String>)
        ensures
            match self@.source {
                SourceView::Text(t) => text is Some && text->0@ == t,
                SourceView::File { .. } => text is None,
            },
    {
        match &self.source {
            ShaderSource::Text(text) => Some(text),
            ShaderSource::File { .. } => None,
        }
    }

    /// Completes the definition with what reading its file gave.
    pub fn resolve(self, outcome: FileOutcome) -> (r: Result<ModuleInput, InputError>)
        ensures
            match r {
                Ok(m) => resolve_spec(self@, outcome) == Ok::<ModuleInputView, InputErrorView>(m@),
                Err(e) => resolve_spec(self@, outcome) == Err::<ModuleInputView, InputErrorView>(e@),
            },
    {
        let ModuleInput { source, include_path, defines, default_defines, entry, debug, span } = self;
        match source {
            ShaderSource::Text(text) => Ok(
                ModuleInput {
                    source: ShaderSource::Text(text),
                    include_path,
                    defines,
                    default_defines,
                    entry,
                    debug,
                    span,
                },
            ),
            ShaderSource::File { path, at, seed_include } => match outcome {
                FileOutcome::NotFound => Err(
                    InputError::plain(InputErrorKind::FileNotFound, Location::At(at)),
                ),
                FileOutcome::OpenFailed => Err(
                    InputError::plain(InputErrorKind::FileOpenFailed, Location::At(at)),
                ),
                FileOutcome::ReadFailed => Err(
                    InputError::plain(InputErrorKind::FileReadFailed, Location::At(at)),
                ),
                FileOutcome::Loaded { text, parent } => {
                    if seed_include && parent.is_none() {
                        Err(InputError::plain(InputErrorKind::NoDirectory, Location::At(at)))
                    } else {
                        let include_path = if seed_include && include_path.is_none() {
                            parent
                        } else {
                            include_path
                        };
                        Ok(
                            ModuleInput {
                                source: ShaderSource::Text(text),
                                include_path,
                                defines,
                                default_defines,
                                entry,
                                debug,
                                span,
                            },
                        )
                    }
                },
            },
        }
    }

    /// The fields held while a definition is being read.
    pub open spec fn fields_spec(
        source: Option<ShaderSource>,
        include_path: Option<String>,
        defines: DefinesInput,
        default_defines: bool,
        entry: Option<String>,
        debug: bool,
        span: Location,
    ) -> ModuleFields {
        ModuleFields {
            source: opt_source(source),
            include_path: opt_text(include_path),
            defines: defines@,
            default_defines,
            entry: opt_text(entry),
            debug,
            span,
        }
    }

    /// Reads a stage's definition from the tokens between its braces.
    pub fn parse(tokens: &Vec<Token>) -> (r: Result<ModuleInput, InputError>)
        ensures
            match r {
                Ok(m) => module_spec(tokens@) == Ok::<ModuleInputView, InputErrorView>(m@),
                Err(e) => module_spec(tokens@) == Err::<ModuleInputView, InputErrorView>(e@),
            },
    {
        let mut span = location(tokens, 0);
        let mut source: Option<ShaderSource> = None;
        let mut include_path: Option<String> = None;
        let mut defines = DefinesInput { defines: Vec::new() };
        let mut default_defines = true;
        let mut entry: Option<String> = None;
        let mut debug = false;
        let n = tokens.len();
        let mut pos: usize = 0;
        assert(defines@ =~= Seq::empty());
        while pos < n
            invariant
                n == tokens.len(),
                pos <= n,
                module_fields(tokens@, 0, no_fields(tokens@)) == module_fields(
                    tokens@,
                    pos as int,
                    Self::fields_spec(source, include_path, defines, default_defines, entry, debug, span),
                ),
            decreases n - pos,
        {
            let ghost st = Self::fields_spec(
                source,
                include_path,
                defines,
                default_defines,
                entry,
                debug,
                span,
            );
            let (name, field_span) = match &tokens[pos] {
                Token::Ident { name, span } => (name, *span),
                other => {
                    return Err(InputError::plain(InputErrorKind::ExpectedIdent, location(tokens, pos)));
                },
            };
            let key = match classify_field(name.as_str()) {
                Some(key) => key,
                None => {
                    if no_autodefine_at(tokens, pos) {
                        default_defines = false;
                        pos = pos + 3;
                        continue ;
                    }
                    return Err(
                        InputError {
                            kind: InputErrorKind::InvalidField,
                            at: Location::At(field_span),
                            detail: name.clone(),
                        },
                    );
                },
            };
            match key {
                FieldKey::NoAutodefine => {
                    default_defines = false;
                    pos = pos + 1;
                },
                FieldKey::Debug => {
                    debug = true;
                    pos = pos + 1;
                },
                _ => {
                    if !punct_at(tokens, pos + 1, ':') {
                        return Err(
                            InputError::plain(InputErrorKind::ExpectedColon, location(tokens, pos + 1)),
                        );
                    }
                    match key {
                        FieldKey::Define => {
                            if pos + 2 >= n {
                                return Err(
                                    InputError::plain(InputErrorKind::ExpectedGroup, Location::End),
                                );
                            }
                            match &tokens[pos + 2] {
                                Token::Group { stream, span: group_span, .. } => {
                                    match DefinesInput::parse(stream) {
                                        Ok(more) => {
                                            defines.add_assign(more);
                                        },
                                        Err(e) => {
                                            return Err(e);
                                        },
                                    }
                                    span = Location::At(*group_span);
                                },
                                other => {
                                    return Err(
                                        InputError::plain(
                                            InputErrorKind::ExpectedGroup,
                                            location(tokens, pos + 2),
                                        ),
                                    );
                                },
                            }
                        },
                        _ => {
                            if (key == FieldKey::Path || key == FieldKey::Source) && source.is_some() {
                                return Err(
                                    InputError::plain(
                                        InputErrorKind::SourceAlreadySpecified,
                                        Location::At(field_span),
                                    ),
                                );
                            }
                            let value = match str_at(tokens, pos + 2) {
                                Some(value) => value,
                                None => {
                                    return Err(
                                        InputError::plain(
                                            InputErrorKind::ExpectedString,
                                            location(tokens, pos + 2),
                                        ),
                                    );
                                },
                            };
                            let at = tokens[pos + 2].span();
                            span = Location::At(at);
                            match key {
                                FieldKey::Path => {
                                    source = Some(
                                        ShaderSource::File {
                                            path: value.clone(),
                                            at,
                                            seed_include: include_path.is_none(),
                                        },
                                    );
                                },
                                FieldKey::Source => {
                                    source = Some(ShaderSource::Text(value.clone()));
                                },
                                FieldKey::Include => {
                                    include_path = Some(value.clone());
                                },
                                _ => {
                                    entry = Some(value.clone());
                                },
                            }
                        },
                    }
                    pos = pos + 3;
                },
            }
        }
        match source {
            None => Err(InputError::plain(InputErrorKind::MissingSource, span)),
            Some(source) => Ok(
                ModuleInput { source, include_path, defines, default_defines, entry, debug, span },
            ),
        }
    }
}

} // verus!
