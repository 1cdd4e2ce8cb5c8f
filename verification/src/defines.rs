//! Lists of preprocessor macros, as a stage's definition gives them.

use vstd::prelude::*;
use crate::text::opt_text;
use crate::tokens::{InputError, InputErrorKind, InputErrorView, Location, Token, location, location_spec, plain_error};

verus! {

/// A macro as a value: its name, and its replacement text if it has one.
pub type MacroView = (Seq<char>, Option<Seq<char>>);

/// The value of one macro entry.
pub open spec fn macro_view(m: (String, Option<String>)) -> MacroView {
    (m.0@, opt_text(m.1))
}

/// The values of a list of macro entries, in order.
pub open spec fn macros_view(v: Seq<(String, Option<String>)>) -> Seq<MacroView> {
    Seq::new(v.len(), |i: int| macro_view(v[i]))
}

/// The macros that a stage's definition asks for, in the order written.
#[derive(Debug)]
pub struct DefinesInput {
    pub defines: Vec<(String, Option<String>)>,
}

impl View for DefinesInput {
    type V = Seq<MacroView>;

    open spec fn view(&self) -> Seq<MacroView> {
        macros_view(self.defines@)
    }
}

/// Whether the token at `pos` is a string literal.
pub open spec fn is_str_at(tokens: Seq<Token>, pos: int) -> bool {
    0 <= pos < tokens.len() && tokens[pos] is Str
}

/// Whether the token at `pos` is the punctuation character `c`.
pub open spec fn is_punct_at(tokens: Seq<Token>, pos: int, c: char) -> bool {
    0 <= pos < tokens.len() && tokens[pos] is Punct && tokens[pos]->ch == c
}

/// Whether the token at `pos` is a group.
pub open spec fn is_group_at(tokens: Seq<Token>, pos: int) -> bool {
    0 <= pos < tokens.len() && tokens[pos] is Group
}

/// The macro list written in `tokens` from position `pos` on, after the
/// entries `acc` read so far.
///
/// An entry is a string literal, optionally followed by `=` and a second
/// string literal; entries are separated by commas, and a comma may end the
/// list.
pub open spec fn defines_from(tokens: Seq<Token>, pos: int, acc: Seq<MacroView>) -> Result<
    Seq<MacroView>,
    InputErrorView,
>
    decreases tokens.len() - pos,
{
    if pos < 0 || pos >= tokens.len() {
        Ok(acc)
    } else {
        match tokens[pos] {
            Token::Str { value: name, .. } => {
                if pos + 1 >= tokens.len() {
                    Ok(acc.push((name@, None)))
                } else {
                    match tokens[pos + 1] {
                        Token::Punct { ch, span } => {
                            if ch == '=' {
                                if is_str_at(tokens, pos + 2) {
                                    let next = acc.push((name@, Some(tokens[pos + 2]->value@)));
                                    if pos + 3 >= tokens.len() {
                                        Ok(next)
                                    } else if is_punct_at(tokens, pos + 3, ',') {
                                        defines_from(tokens, pos + 4, next)
                                    } else {
                                        Err(
                                            plain_error(
                                                InputErrorKind::ExpectedComma,
                                                location_spec(tokens, pos + 3),
                                            ),
                                        )
                                    }
                                } else {
                                    Err(
                                        plain_error(
                                            InputErrorKind::ExpectedString,
                                            location_spec(tokens, pos + 2),
                                        ),
                                    )
                                }
                            } else if ch == ',' {
                                defines_from(tokens, pos + 2, acc.push((name@, None)))
                            } else {
                                Err(plain_error(InputErrorKind::InvalidPunct, Location::At(span)))
                            }
                        },
                        _ => Err(
                            plain_error(
                                InputErrorKind::ExpectedPunct,
                                location_spec(tokens, pos + 1),
                            ),
                        ),
                    }
                }
            },
            _ => Err(plain_error(InputErrorKind::ExpectedString, location_spec(tokens, pos))),
        }
    }
}

/// The macro list written in `tokens`.
pub open spec fn defines_spec(tokens: Seq<Token>) -> Result<Seq<MacroView>, InputErrorView> {
    defines_from(tokens, 0, Seq::empty())
}

/// Returns the value of the string literal at `pos`, if there is one.
pub fn str_at(tokens: &Vec<Token>, pos: usize) -> (r: Option<&String>)
    ensures
        r is Some == is_str_at(tokens@, pos as int),
        r matches Some(s) ==> tokens@[pos as int]->value == *s,
{
    if pos < tokens.len() {
        match &tokens[pos] {
            Token::Str { value, .. } => Some(value),
            _ => None,
        }
    } else {
        None
    }
}

/// Tells whether the token at `pos` is the punctuation character `c`.
pub fn punct_at(tokens: &Vec<Token>, pos: usize, c: char) -> (r: bool)
    ensures
        r == is_punct_at(tokens@, pos as int, c),
{
    if pos < tokens.len() {
        match &tokens[pos] {
            Token::Punct { ch, .. } => *ch == c,
            _ => false,
        }
    } else {
        false
    }
}

impl DefinesInput {
    /// Reads a macro list from the tokens between the brackets of a
    /// `define` field.
    pub fn parse(tokens: &Vec<Token>) -> (r: Result<DefinesInput, InputError>)
        ensures
            match r {
                Ok(d) => defines_spec(tokens@) == Ok::<Seq<MacroView>, InputErrorView>(d@),
                Err(e) => defines_spec(tokens@) == Err::<Seq<MacroView>, InputErrorView>(e@),
            },
    {
        let mut defines: Vec<(String, Option<String>)> = Vec::new();
        let mut pos: usize = 0;
        let n = tokens.len();
        assert(macros_view(defines@) =~= Seq::empty());
        while pos < n
            invariant
                n == tokens.len(),
                pos <= n,
                defines_spec(tokens@) == defines_from(tokens@, pos as int, macros_view(defines@)),
            decreases n - pos,
        {
            let ghost before = macros_view(defines@);
            let name = match &tokens[pos] {
                Token::Str { value, .. } => value,
                other => {
                    return Err(InputError::plain(InputErrorKind::ExpectedString, location(tokens, pos)));
                },
            };
            if pos + 1 >= n {
                defines.push((name.clone(), None));
                assert(macros_view(defines@) =~= before.push((name@, None)));
                return Ok(DefinesInput { defines });
            }
            match &tokens[pos + 1] {
                Token::Punct { ch, span } => {
                    if *ch == '=' {
                        match str_at(tokens, pos + 2) {
                            Some(value) => {
                                defines.push((name.clone(), Some(value.clone())));
                                assert(macros_view(defines@) =~= before.push((name@, Some(value@))));
                                if pos + 3 >= n {
                                    return Ok(DefinesInput { defines });
                                }
                                if !punct_at(tokens, pos + 3, ',') {
                                    return Err(
                                        InputError::plain(
                                            InputErrorKind::ExpectedComma,
                                            location(tokens, pos + 3),
                                        ),
                                    );
                                }
                                pos = pos + 4;
                            },
                            None => {
                                return Err(
                                    InputError::plain(
                                        InputErrorKind::ExpectedString,
                                        location(tokens, pos + 2),
                                    ),
                                );
                            },
                        }
                    } else if *ch == ',' {
                        defines.push((name.clone(), None));
                        assert(macros_view(defines@) =~= before.push((name@, None)));
                        pos = pos + 2;
                    } else {
                        return Err(InputError::plain(InputErrorKind::InvalidPunct, Location::At(*span)));
                    }
                },
                other => {
                    return Err(
                        InputError::plain(InputErrorKind::ExpectedPunct, location(tokens, pos + 1)),
                    );
                },
            }
        }
        Ok(DefinesInput { defines })
    }

    /// Appends the macros of `rhs` after those already held.
    pub fn add_assign(&mut self, rhs: DefinesInput)
        ensures
            final(self)@ == old(self)@ + rhs@,
    {
        let mut defines = rhs.defines;
        self.defines.append(&mut defines);
        assert(self@ =~= old(self)@ + rhs@);
    }
}

} // verus!
