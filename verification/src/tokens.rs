//! The token trees in which a pipeline definition is written, and the
//! errors of reading one.

use vstd::prelude::*;

verus! {

/// The brackets around a group of tokens.
#[derive(Clone, Copy, Debug, PartialEq, Eq, Structural)]
pub enum Delimiter {
    Parenthesis,
    Brace,
    Bracket,
    Invisible,
}

/// One token tree. Every token carries the number of the source span it was
/// read from, which errors hand back to the caller.
#[derive(Debug)]
pub enum Token {
    /// An identifier that is not a keyword.
    Ident { name: String, span: usize },
    /// A single punctuation character.
    Punct { ch: char, span: usize },
    /// A string literal, by its unescaped value.
    Str { value: String, span: usize },
    /// Any other literal, by its text.
    Literal { text: String, span: usize },
    /// A delimited sequence of tokens.
    Group { delimiter: Delimiter, stream: Vec<Token>, span: usize },
}

impl Token {
    /// The number of the span the token was read from.
    pub open spec fn span_spec(self) -> usize {
        match self {
            Token::Ident { span, .. } => span,
            Token::Punct { span, .. } => span,
            Token::Str { span, .. } => span,
            Token::Literal { span, .. } => span,
            Token::Group { span, .. } => span,
        }
    }

    /// Returns the number of the span the token was read from.
    pub fn span(&self) -> (span: usize)
        ensures
            span == self.span_spec(),
    {
        match self {
            Token::Ident { span, .. } => *span,
            Token::Punct { span, .. } => *span,
            Token::Str { span, .. } => *span,
            Token::Literal { span, .. } => *span,
            Token::Group { span, .. } => *span,
        }
    }
}

/// Where in the input an error was found: at a token's span, or at the end
/// of the enclosing stream.
#[derive(Clone, Copy, Debug, PartialEq, Eq, Structural)]
pub enum Location {
    At(usize),
    End,
}

/// The place of position `pos` in `tokens`: the span of the token there, or
/// the end of the stream.
pub open spec fn location_spec(tokens: Seq<Token>, pos: int) -> Location {
    if 0 <= pos < tokens.len() {
        Location::At(tokens[pos].span_spec())
    } else {
        Location::End
    }
}

/// Returns the place of position `pos` in `tokens`.
pub fn location(tokens: &Vec<Token>, pos: usize) -> (at: Location)
    ensures
        at == location_spec(tokens@, pos as int),
{
    if pos < tokens.len() {
        Location::At(tokens[pos].span())
    } else {
        Location::End
    }
}

/// What went wrong while reading a pipeline definition.
#[derive(Clone, Copy, Debug, PartialEq, Eq, Structural)]
pub enum InputErrorKind {
    ExpectedIdent,
    ExpectedColon,
    ExpectedString,
    ExpectedGroup,
    ExpectedPunct,
    ExpectedComma,
    InvalidPunct,
    UnknownShaderType,
    DuplicateModule,
    SourceAlreadySpecified,
    InvalidField,
    MissingSource,
    FileNotFound,
    FileOpenFailed,
    FileReadFailed,
    NoDirectory,
}

/// An error of a pipeline definition: what, where, and the offending name
/// for the kinds that quote one (empty otherwise).
#[derive(Debug)]
pub struct InputError {
    pub kind: InputErrorKind,
    pub at: Location,
    pub detail: String,
}

/// The mathematical value of an [`InputError`].
pub struct InputErrorView {
    pub kind: InputErrorKind,
    pub at: Location,
    pub detail: Seq<char>,
}

impl View for InputError {
    type V = InputErrorView;

    open spec fn view(&self) -> InputErrorView {
        InputErrorView { kind: self.kind, at: self.at, detail: self.detail@ }
    }
}

/// An error value without a quoted name.
pub open spec fn plain_error(kind: InputErrorKind, at: Location) -> InputErrorView {
    InputErrorView { kind, at, detail: Seq::empty() }
}

impl InputErrorKind {
    /// The fixed part of the error's message.
    pub open spec fn text_spec(self) -> Seq<char> {
        match self {
            InputErrorKind::ExpectedIdent => "expected identifier"@,
            InputErrorKind::ExpectedColon => "expected `:`"@,
            InputErrorKind::ExpectedString => "expected string literal"@,
            InputErrorKind::ExpectedGroup => "expected group token"@,
            InputErrorKind::ExpectedPunct => "expected punctuation token"@,
            InputErrorKind::ExpectedComma => "expected `,`"@,
            InputErrorKind::InvalidPunct => "Invalid punctuation, only '=' and ',' are valid"@,
            InputErrorKind::UnknownShaderType => "Unknown shader type: "@,
            InputErrorKind::DuplicateModule => "Duplicate shader module"@,
            InputErrorKind::SourceAlreadySpecified => "'source' or 'path' field already specified"@,
            InputErrorKind::InvalidField => "Invalid field "@,
            InputErrorKind::MissingSource => "Missing shader source add either 'source' or 'path' field"@,
            InputErrorKind::FileNotFound => "File not found"@,
            InputErrorKind::FileOpenFailed => "Could not open file"@,
            InputErrorKind::FileReadFailed => "Could not read from file"@,
            InputErrorKind::NoDirectory => "File does not have a directory"@,
        }
    }

    /// Returns the fixed part of the error's message.
    pub fn text(&self) -> (text: &'static str)
        ensures
            text@ == self.text_spec(),
    {
        match self {
            InputErrorKind::ExpectedIdent => "expected identifier",
            InputErrorKind::ExpectedColon => "expected `:`",
            InputErrorKind::ExpectedString => "expected string literal",
            InputErrorKind::ExpectedGroup => "expected group token",
            InputErrorKind::ExpectedPunct => "expected punctuation token",
            InputErrorKind::ExpectedComma => "expected `,`",
            InputErrorKind::InvalidPunct => "Invalid punctuation, only '=' and ',' are valid",
            InputErrorKind::UnknownShaderType => "Unknown shader type: ",
            InputErrorKind::DuplicateModule => "Duplicate shader module",
            InputErrorKind::SourceAlreadySpecified => "'source' or 'path' field already specified",
            InputErrorKind::InvalidField => "Invalid field ",
            InputErrorKind::MissingSource => "Missing shader source add either 'source' or 'path' field",
            InputErrorKind::FileNotFound => "File not found",
            InputErrorKind::FileOpenFailed => "Could not open file",
            InputErrorKind::FileReadFailed => "Could not read from file",
            InputErrorKind::NoDirectory => "File does not have a directory",
        }
    }
}

impl InputErrorView {
    /// The message of the error: the kind's text, followed by the quoted
    /// name where the kind has one (in single quotes for an invalid field).
    pub open spec fn message(self) -> Seq<char> {
        match self.kind {
            InputErrorKind::UnknownShaderType => self.kind.text_spec() + self.detail,
            InputErrorKind::InvalidField => self.kind.text_spec() + seq!['\''] + self.detail + seq!['\''],
            _ => self.kind.text_spec(),
        }
    }
}

impl InputError {
    /// An error without a quoted name.
    pub fn plain(kind: InputErrorKind, at: Location) -> (e: InputError)
        ensures
            e@ == plain_error(kind, at),
    {
        InputError { kind, at, detail: String::new() }
    }

    /// Returns the error's message.
    pub fn message(&self) -> (text: String)
        ensures
            text@ == self@.message(),
    {
        let mut text = self.kind.text().to_owned();
        match self.kind {
            InputErrorKind::UnknownShaderType => {
                text.append(self.detail.as_str());
            },
            InputErrorKind::InvalidField => {
                text.append("'");
                text.append(self.detail.as_str());
                text.append("'");
                proof {
                    reveal_strlit("'");
                    assert("'"@ =~= seq!['\'']);
                    assert(text@ =~= self@.message());
                }
            },
            _ => {},
        }
        text
    }
}

} // verus!
