//! Annotated block declarations: the marker that precedes a block in shader
//! source, and the block itself.

use vstd::prelude::*;
use crate::layout::GlslType;
use crate::lexer::{Lexeme, LexemeView, lex, lex_spec, lexemes_view, number, number_spec, sign, sign_at, spells, word, word_at};
use crate::stage::ModuleType;
use crate::text::{chars_of, string_of};

verus! {

/// How a block is bound: as a uniform block at a binding, or as the stage's
/// inputs or outputs, from a given location on or wherever there is room.
#[derive(Clone, Copy, Debug, PartialEq, Eq, Structural)]
pub enum BindgenFieldType {
    Uniform(usize),
    In(Option<usize>),
    Out(Option<usize>),
}

/// What the marker of a block says, and the stage that the block stands in.
#[derive(Clone, Copy, Debug, PartialEq, Eq, Structural)]
pub struct BindgenMeta {
    pub in_module: ModuleType,
    pub bind_type: BindgenFieldType,
    /// Whether a host layout is generated for the block.
    pub bind: bool,
}

/// A member of a block.
#[derive(Debug)]
pub struct Member {
    pub ty: GlslType,
    pub name: String,
}

/// A member as a value: its type and its name.
pub type MemberView = (GlslType, Seq<char>);

/// The values of a list of members.
pub open spec fn members_view(members: Seq<Member>) -> Seq<MemberView> {
    Seq::new(members.len(), |i: int| (members[i].ty, members[i].name@))
}

/// An annotated block.
#[derive(Debug)]
pub struct BindgenStruct {
    pub meta: BindgenMeta,
    /// The name of the block's type.
    pub struct_name: String,
    /// The name under which the shader refers to the block.
    pub field_name: String,
    pub members: Vec<Member>,
    /// The first slot of the block, once it is registered.
    pub slot: Option<usize>,
}

/// The mathematical value of a [`BindgenStruct`].
pub struct BindgenStructView {
    pub meta: BindgenMeta,
    pub struct_name: Seq<char>,
    pub field_name: Seq<char>,
    pub members: Seq<MemberView>,
    pub slot: Option<usize>,
}

impl View for BindgenStruct {
    type V = BindgenStructView;

    open spec fn view(&self) -> BindgenStructView {
        BindgenStructView {
            meta: self.meta,
            struct_name: self.struct_name@,
            field_name: self.field_name@,
            members: members_view(self.members@),
            slot: self.slot,
        }
    }
}

/// What is wrong with an annotated block.
#[derive(Clone, Copy, Debug, PartialEq, Eq, Structural)]
pub enum AnnotationErrorKind {
    /// Another lexeme was expected.
    Syntax,
    /// The marker is neither `gears_bindgen` nor `gears_gen`.
    UnknownMarker,
    /// The marker's argument is none of `in`, `out` and `uniform`.
    UnknownDirection,
    /// A member's type is not known.
    UnknownType,
    /// A slot is no decimal number, or too large a one.
    BadNumber,
}

/// An error of an annotated block, with the place of the offending lexeme
/// (the number of lexemes where the text ends too early).
#[derive(Clone, Copy, Debug, PartialEq, Eq, Structural)]
pub struct AnnotationError {
    pub kind: AnnotationErrorKind,
    pub at: usize,
}

/// An error as a value: its kind and its place.
pub type ErrorView = (AnnotationErrorKind, int);

impl AnnotationError {
    /// The error's kind and place.
    pub open spec fn pair(self) -> ErrorView {
        (self.kind, self.at as int)
    }
}

/// The slot written as `(key = N)` from place 5 on.
pub open spec fn slot_arg_spec(lx: Seq<LexemeView>, key: Seq<char>) -> Result<usize, ErrorView> {
    if !sign_at(lx, 5, '(') {
        Err((AnnotationErrorKind::Syntax, 5))
    } else if word_at(lx, 6) != Some(key) {
        Err((AnnotationErrorKind::Syntax, 6))
    } else if !sign_at(lx, 7, '=') {
        Err((AnnotationErrorKind::Syntax, 7))
    } else {
        match word_at(lx, 8) {
            None => Err((AnnotationErrorKind::Syntax, 8)),
            Some(w) => match number_spec(w) {
                None => Err((AnnotationErrorKind::BadNumber, 8)),
                Some(n) => if !sign_at(lx, 9, ')') {
                    Err((AnnotationErrorKind::Syntax, 9))
                } else {
                    Ok(n)
                },
            },
        }
    }
}

/// The marker's argument, from place 4 on, and the place after it:
/// `uniform(binding = N)`, or `in` or `out`, each alone or followed by
/// `(location = N)`.
pub open spec fn bind_type_spec(lx: Seq<LexemeView>) -> Result<(BindgenFieldType, int), ErrorView> {
    match word_at(lx, 4) {
        None => Err((AnnotationErrorKind::Syntax, 4)),
        Some(d) => {
            if d == "uniform"@ {
                match slot_arg_spec(lx, "binding"@) {
                    Err(e) => Err(e),
                    Ok(n) => Ok((BindgenFieldType::Uniform(n), 10)),
                }
            } else if d == "in"@ || d == "out"@ {
                if sign_at(lx, 5, '(') {
                    match slot_arg_spec(lx, "location"@) {
                        Err(e) => Err(e),
                        Ok(n) => Ok(
                            (
                                if d == "in"@ {
                                    BindgenFieldType::In(Some(n))
                                } else {
                                    BindgenFieldType::Out(Some(n))
                                },
                                10,
                            ),
                        ),
                    }
                } else {
                    Ok(
                        (
                            if d == "in"@ {
                                BindgenFieldType::In(None)
                            } else {
                                BindgenFieldType::Out(None)
                            },
                            5,
                        ),
                    )
                }
            } else {
                Err((AnnotationErrorKind::UnknownDirection, 4))
            }
        },
    }
}

/// The marker `#[gears_bindgen(..)]` or `#[gears_gen(..)]` at the start of
/// `lx`: whether a host layout is wanted, how the block is bound, and the
/// place after the marker.
pub open spec fn header_spec(lx: Seq<LexemeView>) -> Result<(bool, BindgenFieldType, int), ErrorView> {
    if !sign_at(lx, 0, '#') {
        Err((AnnotationErrorKind::Syntax, 0))
    } else if !sign_at(lx, 1, '[') {
        Err((AnnotationErrorKind::Syntax, 1))
    } else {
        match word_at(lx, 2) {
            None => Err((AnnotationErrorKind::Syntax, 2)),
            Some(m) => {
                if m != "gears_bindgen"@ && m != "gears_gen"@ {
                    Err((AnnotationErrorKind::UnknownMarker, 2))
                } else if !sign_at(lx, 3, '(') {
                    Err((AnnotationErrorKind::Syntax, 3))
                } else {
                    match bind_type_spec(lx) {
                        Err(e) => Err(e),
                        Ok((bind_type, p)) => {
                            if !sign_at(lx, p, ')') {
                                Err((AnnotationErrorKind::Syntax, p))
                            } else if !sign_at(lx, p + 1, ']') {
                                Err((AnnotationErrorKind::Syntax, p + 1))
                            } else {
                                Ok((m == "gears_bindgen"@, bind_type, p + 2))
                            }
                        },
                    }
                }
            },
        }
    }
}

/// The members written from place `pos` on, after the members `acc`, and
/// the place of the brace that closes the block. A member is a type, a name
/// and a semicolon.
pub open spec fn members_from(lx: Seq<LexemeView>, pos: int, acc: Seq<MemberView>) -> Result<
    (Seq<MemberView>, int),
    ErrorView,
>
    decreases lx.len() - pos,
{
    if pos < 0 || pos >= lx.len() {
        Err((AnnotationErrorKind::Syntax, lx.len() as int))
    } else if sign_at(lx, pos, '}') {
        Ok((acc, pos))
    } else {
        match word_at(lx, pos) {
            None => Err((AnnotationErrorKind::Syntax, pos)),
            Some(t) => match GlslType::from_name_spec(t) {
                None => Err((AnnotationErrorKind::UnknownType, pos)),
                Some(ty) => match word_at(lx, pos + 1) {
                    None => Err((AnnotationErrorKind::Syntax, pos + 1)),
                    Some(name) => if !sign_at(lx, pos + 2, ';') {
                        Err((AnnotationErrorKind::Syntax, pos + 2))
                    } else {
                        members_from(lx, pos + 3, acc.push((ty, name)))
                    },
                },
            },
        }
    }
}

/// The annotated block that the lexemes `lx` write within the stage
/// `module`: a marker, the word `struct`, the name of the block's type, the
/// members in braces, the name of the block and a semicolon, and nothing
/// after that. The block has no slot yet.
pub open spec fn block_spec(lx: Seq<LexemeView>, module: ModuleType) -> Result<
    BindgenStructView,
    ErrorView,
> {
    match header_spec(lx) {
        Err(e) => Err(e),
        Ok((bind, bind_type, p)) => {
            if word_at(lx, p) != Some("struct"@) {
                Err((AnnotationErrorKind::Syntax, p))
            } else {
                match word_at(lx, p + 1) {
                    None => Err((AnnotationErrorKind::Syntax, p + 1)),
                    Some(struct_name) => {
                        if !sign_at(lx, p + 2, '{') {
                            Err((AnnotationErrorKind::Syntax, p + 2))
                        } else {
                            match members_from(lx, p + 3, Seq::empty()) {
                                Err(e) => Err(e),
                                Ok((members, q)) => match word_at(lx, q + 1) {
                                    None => Err((AnnotationErrorKind::Syntax, q + 1)),
                                    Some(field_name) => {
                                        if !sign_at(lx, q + 2, ';') {
                                            Err((AnnotationErrorKind::Syntax, q + 2))
                                        } else if lx.len() != q + 3 {
                                            Err((AnnotationErrorKind::Syntax, q + 3))
                                        } else {
                                            Ok(
                                                BindgenStructView {
                                                    meta: BindgenMeta {
                                                        in_module: module,
                                                        bind_type,
                                                        bind,
                                                    },
                                                    struct_name,
                                                    field_name,
                                                    members,
                                                    slot: None,
                                                },
                                            )
                                        }
                                    },
                                },
                            }
                        }
                    },
                }
            }
        },
    }
}

/// The annotated block that `text` writes within the stage `module`.
pub open spec fn annotation_spec(text: Seq<char>, module: ModuleType) -> Result<
    BindgenStructView,
    ErrorView,
> {
    block_spec(lex_spec(text), module)
}

/// An error of the kind `Syntax` at place `at`.
fn syntax(at: usize) -> (e: AnnotationError)
    ensures
        e.pair() == (AnnotationErrorKind::Syntax, at as int),
{
    AnnotationError { kind: AnnotationErrorKind::Syntax, at }
}

/// Tells whether the word `text` stands at place `i`.
fn word_is(lx: &Vec<Lexeme>, i: usize, text: &str) -> (r: bool)
    ensures
        r == (word_at(lexemes_view(lx@), i as int) == Some(text@)),
{
    match word(lx, i) {
        Some(w) => spells(w, text),
        None => false,
    }
}

/// Reads a slot written as `(key = N)` from place 5 on.
fn slot_arg(lx: &Vec<Lexeme>, key: &str) -> (r: Result<usize, AnnotationError>)
    ensures
        match r {
            Ok(n) => slot_arg_spec(lexemes_view(lx@), key@) == Ok::<usize, ErrorView>(n),
            Err(e) => slot_arg_spec(lexemes_view(lx@), key@) == Err::<usize, ErrorView>(e.pair()),
        },
{
    if !sign(lx, 5, '(') {
        return Err(syntax(5));
    }
    if !word_is(lx, 6, key) {
        return Err(syntax(6));
    }
    if !sign(lx, 7, '=') {
        return Err(syntax(7));
    }
    let digits = match word(lx, 8) {
        Some(w) => w,
        None => {
            return Err(syntax(8));
        },
    };
    let n = match number(digits) {
        Some(n) => n,
        None => {
            return Err(AnnotationError { kind: AnnotationErrorKind::BadNumber, at: 8 });
        },
    };
    if !sign(lx, 9, ')') {
        return Err(syntax(9));
    }
    Ok(n)
}

/// Reads the marker's argument from place 4 on.
fn bind_type(lx: &Vec<Lexeme>) -> (r: Result<(BindgenFieldType, usize), AnnotationError>)
    ensures
        match r {
            Ok((b, p)) => bind_type_spec(lexemes_view(lx@)) == Ok::<(BindgenFieldType, int), ErrorView>(
                (b, p as int),
            ),
            Err(e) => bind_type_spec(lexemes_view(lx@)) == Err::<(BindgenFieldType, int), ErrorView>(
                e.pair(),
            ),
        },
{
    let d = match word(lx, 4) {
        Some(d) => d,
        None => {
            return Err(syntax(4));
        },
    };
    if spells(d, "uniform") {
        match slot_arg(lx, "binding") {
            Ok(n) => Ok((BindgenFieldType::Uniform(n), 10)),
            Err(e) => Err(e),
        }
    } else {
        let input = spells(d, "in");
        if input || spells(d, "out") {
            let slot = if sign(lx, 5, '(') {
                match slot_arg(lx, "location") {
                    Ok(n) => Some(n),
                    Err(e) => {
                        return Err(e);
                    },
                }
            } else {
                None
            };
            let next: usize = if slot.is_some() {
                10
            } else {
                5
            };
            if input {
                Ok((BindgenFieldType::In(slot), next))
            } else {
                Ok((BindgenFieldType::Out(slot), next))
            }
        } else {
            Err(AnnotationError { kind: AnnotationErrorKind::UnknownDirection, at: 4 })
        }
    }
}

/// Reads the marker at the start of the lexemes.
fn header(lx: &Vec<Lexeme>) -> (r: Result<(bool, BindgenFieldType, usize), AnnotationError>)
    ensures
        match r {
            Ok((bind, b, p)) => header_spec(lexemes_view(lx@)) == Ok::<
                (bool, BindgenFieldType, int),
                ErrorView,
            >((bind, b, p as int)) && p <= lx.len(),
            Err(e) => header_spec(lexemes_view(lx@)) == Err::<
                (bool, BindgenFieldType, int),
                ErrorView,
            >(e.pair()),
        },
{
    if !sign(lx, 0, '#') {
        return Err(syntax(0));
    }
    if !sign(lx, 1, '[') {
        return Err(syntax(1));
    }
    let marker = match word(lx, 2) {
        Some(m) => m,
        None => {
            return Err(syntax(2));
        },
    };
    let bind = spells(marker, "gears_bindgen");
    if !bind && !spells(marker, "gears_gen") {
        return Err(AnnotationError { kind: AnnotationErrorKind::UnknownMarker, at: 2 });
    }
    if !sign(lx, 3, '(') {
        return Err(syntax(3));
    }
    let (b, p) = match bind_type(lx) {
        Ok(found) => found,
        Err(e) => {
            return Err(e);
        },
    };
    if !sign(lx, p, ')') {
        return Err(syntax(p));
    }
    if !sign(lx, p + 1, ']') {
        return Err(syntax(p + 1));
    }
    Ok((bind, b, p + 2))
}

/// A list of members grows by one at its end.
proof fn lemma_members_push(old_list: Seq<Member>, member: Member)
    ensures
        members_view(old_list.push(member)) == members_view(old_list).push(
            (member.ty, member.name@),
        ),
{
    assert(members_view(old_list.push(member)) =~= members_view(old_list).push(
        (member.ty, member.name@),
    ));
}

/// Reads the members of a block from place `start` on.
fn members(lx: &Vec<Lexeme>, start: usize) -> (r: Result<(Vec<Member>, usize), AnnotationError>)
    requires
        start <= lx.len(),
    ensures
        match r {
            Ok((members, q)) => members_from(lexemes_view(lx@), start as int, Seq::empty()) == Ok::<
                (Seq<MemberView>, int),
                ErrorView,
            >((members_view(members@), q as int)) && q < lx.len(),
            Err(e) => members_from(lexemes_view(lx@), start as int, Seq::empty()) == Err::<
                (Seq<MemberView>, int),
                ErrorView,
            >(e.pair()),
        },
{
    let mut members: Vec<Member> = Vec::new();
    let mut pos = start;
    let n = lx.len();
    assert(members_view(members@) =~= Seq::empty());
    loop
        invariant
            n == lx.len(),
            pos <= n,
            members_from(lexemes_view(lx@), start as int, Seq::empty()) == members_from(
                lexemes_view(lx@),
                pos as int,
                members_view(members@),
            ),
        decreases n - pos,
    {
        if pos >= n {
            return Err(syntax(n));
        }
        if sign(lx, pos, '}') {
            return Ok((members, pos));
        }
        let kind_word = match word(lx, pos) {
            Some(w) => w,
            None => {
                return Err(syntax(pos));
            },
        };
        let ty = match GlslType::from_name(string_of(kind_word).as_str()) {
            Some(ty) => ty,
            None => {
                return Err(AnnotationError { kind: AnnotationErrorKind::UnknownType, at: pos });
            },
        };
        let name = match word(lx, pos + 1) {
            Some(w) => w,
            None => {
                return Err(syntax(pos + 1));
            },
        };
        if !sign(lx, pos + 2, ';') {
            return Err(syntax(pos + 2));
        }
        let member = Member { ty, name: string_of(name) };
        proof {
            lemma_members_push(members@, member);
        }
        members.push(member);
        pos = pos + 3;
    }
}

impl BindgenStruct {
    /// Reads the annotated block that `text` writes within the stage
    /// `module`.
    pub fn parse(text: &str, module: ModuleType) -> (r: Result<BindgenStruct, AnnotationError>)
        ensures
            match r {
                Ok(s) => annotation_spec(text@, module) == Ok::<BindgenStructView, ErrorView>(s@),
                Err(e) => annotation_spec(text@, module) == Err::<BindgenStructView, ErrorView>(
                    e.pair(),
                ),
            },
    {
        let lexemes = lex(&chars_of(text));
        let lx = &lexemes;
        let (bind, bind_type, p) = match header(lx) {
            Ok(found) => found,
            Err(e) => {
                return Err(e);
            },
        };
        if !word_is(lx, p, "struct") {
            return Err(syntax(p));
        }
        let struct_name = match word(lx, p + 1) {
            Some(w) => w,
            None => {
                return Err(syntax(p + 1));
            },
        };
        if !sign(lx, p + 2, '{') {
            return Err(syntax(p + 2));
        }
        let (members, q) = match members(lx, p + 3) {
            Ok(found) => found,
            Err(e) => {
                return Err(e);
            },
        };
        let field_name = match word(lx, q + 1) {
            Some(w) => w,
            None => {
                return Err(syntax(q + 1));
            },
        };
        if !sign(lx, q + 2, ';') {
            return Err(syntax(q + 2));
        }
        if lx.len() != q + 3 {
            return Err(syntax(q + 3));
        }
        Ok(
            BindgenStruct {
                meta: BindgenMeta { in_module: module, bind_type, bind },
                struct_name: string_of(struct_name),
                field_name: string_of(field_name),
                members,
                slot: None,
            },
        )
    }
}

} // verus!
