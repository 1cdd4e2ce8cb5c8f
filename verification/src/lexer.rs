//! The words and signs of an annotated declaration.

use vstd::prelude::*;
use crate::report::{copy_range, is_white_space, white_space};
use crate::text::chars_of;

verus! {

/// A lexeme: a word, which is a run of letters, digits and underscores, or
/// any other single character that is no white space.
#[derive(Debug)]
pub enum Lexeme {
    Word(Vec<char>),
    Sym(char),
}

/// The mathematical value of a [`Lexeme`].
pub enum LexemeView {
    Word(Seq<char>),
    Sym(char),
}

impl View for Lexeme {
    type V = LexemeView;

    open spec fn view(&self) -> LexemeView {
        match *self {
            Lexeme::Word(w) => LexemeView::Word(w@),
            Lexeme::Sym(c) => LexemeView::Sym(c),
        }
    }
}

/// The values of a list of lexemes.
pub open spec fn lexemes_view(v: Seq<Lexeme>) -> Seq<LexemeView> {
    Seq::new(v.len(), |i: int| v[i]@)
}

/// Whether `c` can stand in a word: an ASCII letter, a digit or an
/// underscore.
pub open spec fn is_word_char(c: char) -> bool {
    let n = c as u32;
    (0x61 <= n <= 0x7a) || (0x41 <= n <= 0x5a) || (0x30 <= n <= 0x39) || n == 0x5f
}

/// Tells whether `c` can stand in a word.
pub fn word_char(c: char) -> (r: bool)
    ensures
        r == is_word_char(c),
{
    let n: u32 = c as u32;
    (0x61 <= n && n <= 0x7a) || (0x41 <= n && n <= 0x5a) || (0x30 <= n && n <= 0x39) || n == 0x5f
}

/// The part that a character plays in a declaration.
#[derive(Clone, Copy, Debug, PartialEq, Eq, Structural)]
pub enum CharClass {
    Space,
    Word,
    Sign,
}

/// The part that `c` plays: white space, a character of a word, or a sign
/// of its own.
#[verifier::opaque]
pub open spec fn class_of(c: char) -> CharClass {
    if is_white_space(c) {
        CharClass::Space
    } else if is_word_char(c) {
        CharClass::Word
    } else {
        CharClass::Sign
    }
}

/// Returns the part that `c` plays.
pub fn classify(c: char) -> (class: CharClass)
    ensures
        class == class_of(c),
{
    reveal(class_of);
    if white_space(c) {
        CharClass::Space
    } else if word_char(c) {
        CharClass::Word
    } else {
        CharClass::Sign
    }
}

/// The end of the run of word characters that starts at `from`.
pub open spec fn word_end(text: Seq<char>, from: int) -> int
    decreases text.len() - from,
{
    if from < 0 || from >= text.len() {
        text.len() as int
    } else if class_of(text[from]) != CharClass::Word {
        from
    } else {
        word_end(text, from + 1)
    }
}

/// The end of a word lies after its start, within the text.
pub proof fn lemma_word_end(text: Seq<char>, from: int)
    requires
        0 <= from <= text.len(),
    ensures
        from <= word_end(text, from) <= text.len(),
        from < text.len() && class_of(text[from]) == CharClass::Word ==> from < word_end(text, from),
    decreases text.len() - from,
{
    if from < text.len() && class_of(text[from]) == CharClass::Word {
        lemma_word_end(text, from + 1);
    }
}

/// If only word characters stand from `from` up to `end`, and none stands
/// at `end`, the word that starts at `from` ends at `end`.
pub proof fn lemma_word_end_is(text: Seq<char>, from: int, end: int)
    requires
        0 <= from <= end <= text.len(),
        forall|i: int| from <= i < end ==> class_of(#[trigger] text[i]) == CharClass::Word,
        end < text.len() ==> class_of(text[end]) != CharClass::Word,
    ensures
        word_end(text, from) == end,
    decreases end - from,
{
    if from < end {
        lemma_word_end_is(text, from + 1, end);
    }
}

/// The lexemes of `text` from position `pos` on: white space separates
/// lexemes and belongs to none, a word reaches as far as word characters
/// follow one another, and every other character stands for itself.
pub open spec fn lex_from(text: Seq<char>, pos: int) -> Seq<LexemeView>
    decreases text.len() - pos,
    via lex_from_decreases
{
    if pos < 0 || pos >= text.len() {
        Seq::empty()
    } else if class_of(text[pos]) == CharClass::Space {
        lex_from(text, pos + 1)
    } else if class_of(text[pos]) == CharClass::Word {
        seq![LexemeView::Word(text.subrange(pos, word_end(text, pos)))] + lex_from(
            text,
            word_end(text, pos),
        )
    } else {
        seq![LexemeView::Sym(text[pos])] + lex_from(text, pos + 1)
    }
}

#[via_fn]
proof fn lex_from_decreases(text: Seq<char>, pos: int) {
    if 0 <= pos < text.len() {
        lemma_word_end(text, pos);
    }
}

/// Putting a value before a sequence and the whole after `before` is the
/// same as putting the value at the end of `before` and the sequence after
/// that.
pub proof fn lemma_push_then_add<A>(before: Seq<A>, x: A, rest: Seq<A>)
    ensures
        before + (seq![x] + rest) == before.push(x) + rest,
{
    assert(before + (seq![x] + rest) =~= before.push(x) + rest);
}

/// The values of a list of lexemes that grew by one at its end.
pub proof fn lemma_view_push(old_list: Seq<Lexeme>, new_list: Seq<Lexeme>, x: Lexeme)
    requires
        new_list == old_list.push(x),
    ensures
        lexemes_view(new_list) == lexemes_view(old_list).push(x@),
{
    assert(lexemes_view(new_list) =~= lexemes_view(old_list).push(x@));
}

/// Whether the lexemes from `pos` on are the lexeme `first` and then the
/// lexemes from `next` on.
pub open spec fn lex_step(text: Seq<char>, pos: int, first: LexemeView, next: int) -> bool {
    lex_from(text, pos) == seq![first] + lex_from(text, next)
}

/// A character that is neither white space nor part of a word is a lexeme
/// of its own.
pub proof fn lemma_lex_sign(text: Seq<char>, pos: int)
    requires
        0 <= pos < text.len(),
        class_of(text[pos]) == CharClass::Sign,
    ensures
        lex_step(text, pos, LexemeView::Sym(text[pos]), pos + 1),
{
    let l = lex_from(text, pos);
    let r = seq![LexemeView::Sym(text[pos])] + lex_from(text, pos + 1);
    assert(l.len() == r.len());
    assert(l[0] == r[0]);
    assert(l =~= r);
}

/// A word character that follows no word begins a word, which is a
/// lexeme.
pub proof fn lemma_lex_word(text: Seq<char>, pos: int)
    requires
        0 <= pos < text.len(),
        class_of(text[pos]) == CharClass::Word,
    ensures
        lex_step(
            text,
            pos,
            LexemeView::Word(text.subrange(pos, word_end(text, pos))),
            word_end(text, pos),
        ),
{
    let l = lex_from(text, pos);
    let r = seq![LexemeView::Word(text.subrange(pos, word_end(text, pos)))] + lex_from(
        text,
        word_end(text, pos),
    );
    assert(l.len() == r.len());
    assert(l[0] == r[0]);
    assert(l =~= r);
}

/// One more lexeme read: what was read and what is still to read make up
/// the same sequence as before.
pub proof fn lemma_lex_advance(
    text: Seq<char>,
    pos: int,
    first: LexemeView,
    next: int,
    before: Seq<LexemeView>,
)
    requires
        lex_step(text, pos, first, next),
    ensures
        before + lex_from(text, pos) == before.push(first) + lex_from(text, next),
{
    lemma_push_then_add(before, first, lex_from(text, next));
}

/// Reading a sign moves it from what is still to read to what was read.
pub proof fn lemma_sign_step(text: Seq<char>, pos: int, old_list: Seq<Lexeme>, lexeme: Lexeme)
    requires
        0 <= pos < text.len(),
        class_of(text[pos]) == CharClass::Sign,
        lexeme == Lexeme::Sym(text[pos]),
    ensures
        lexemes_view(old_list) + lex_from(text, pos) == lexemes_view(old_list.push(lexeme))
            + lex_from(text, pos + 1),
{
    lemma_lex_sign(text, pos);
    lemma_lex_advance(text, pos, lexeme@, pos + 1, lexemes_view(old_list));
    lemma_view_push(old_list, old_list.push(lexeme), lexeme);
}

/// The lexemes of `text`.
pub open spec fn lex_spec(text: Seq<char>) -> Seq<LexemeView> {
    lex_from(text, 0)
}

/// Splits `text` into its lexemes.
pub fn lex(text: &Vec<char>) -> (lexemes: Vec<Lexeme>)
    ensures
        lexemes_view(lexemes@) == lex_spec(text@),
{
    let mut lexemes: Vec<Lexeme> = Vec::new();
    let n = text.len();
    let mut pos: usize = 0;
    assert(lexemes_view(lexemes@) =~= Seq::empty());
    while pos < n
        invariant
            n == text.len(),
            pos <= n,
            lex_spec(text@) == lexemes_view(lexemes@) + lex_from(text@, pos as int),
        decreases n - pos,
    {
        let ghost before = lexemes_view(lexemes@);
        let ghost old_list = lexemes@;
        let c = text[pos];
        let class = classify(c);
        if class == CharClass::Space {
            pos = pos + 1;
        } else if class == CharClass::Word {
            let mut end: usize = pos + 1;
            while end < n && classify(text[end]) == CharClass::Word
                invariant
                    n == text.len(),
                    pos < end <= n,
                    forall|i: int|
                        pos <= i < end ==> class_of(#[trigger] text@[i]) == CharClass::Word,
                decreases n - end,
            {
                end = end + 1;
            }
            let word = copy_range(text, pos, end);
            let lexeme = Lexeme::Word(word);
            proof {
                lemma_word_end_is(text@, pos as int, end as int);
                lemma_lex_word(text@, pos as int);
                lemma_lex_advance(text@, pos as int, lexeme@, end as int, before);
                lemma_view_push(old_list, old_list.push(lexeme), lexeme);
            }
            lexemes.push(lexeme);
            pos = end;
        } else {
            let lexeme = Lexeme::Sym(c);
            proof {
                lemma_sign_step(text@, pos as int, old_list, lexeme);
            }
            lexemes.push(lexeme);
            pos = pos + 1;
        }
    }
    assert(lex_from(text@, pos as int) =~= Seq::empty());
    lexemes
}

/// Whether `c` is a decimal digit.
pub open spec fn is_digit(c: char) -> bool {
    0x30 <= c as u32 <= 0x39
}

/// Whether every character of `word` is a decimal digit, and there is one.
pub open spec fn is_number(word: Seq<char>) -> bool {
    word.len() > 0 && forall|i: int| 0 <= i < word.len() ==> is_digit(#[trigger] word[i])
}

/// The number that the decimal digits `word` write.
pub open spec fn number_value(word: Seq<char>) -> nat
    decreases word.len(),
{
    if word.len() == 0 {
        0
    } else {
        number_value(word.drop_last()) * 10 + (word.last() as u32 - 0x30) as nat
    }
}

/// The number that `word` writes, if it is made of decimal digits and the
/// number fits the machine's number range.
pub open spec fn number_spec(word: Seq<char>) -> Option<usize> {
    if is_number(word) && number_value(word) <= usize::MAX {
        Some(number_value(word) as usize)
    } else {
        None
    }
}

/// The number written by the first digits of a numeral is not above the
/// number written by all of them.
pub proof fn lemma_number_prefix(word: Seq<char>, k: int)
    requires
        0 <= k <= word.len(),
    ensures
        number_value(word.take(k)) <= number_value(word),
    decreases word.len() - k,
{
    if k < word.len() {
        lemma_number_prefix(word, k + 1);
        assert(word.take(k + 1).drop_last() =~= word.take(k));
    } else {
        assert(word.take(k) =~= word);
    }
}

/// The word at place `i` of `lexemes`, if a word stands there.
pub open spec fn word_at(lexemes: Seq<LexemeView>, i: int) -> Option<Seq<char>> {
    if 0 <= i < lexemes.len() && lexemes[i] is Word {
        Some(lexemes[i]->Word_0)
    } else {
        None
    }
}

/// Whether the sign `c` stands at place `i` of `lexemes`.
pub open spec fn sign_at(lexemes: Seq<LexemeView>, i: int, c: char) -> bool {
    0 <= i < lexemes.len() && lexemes[i] == LexemeView::Sym(c)
}

/// Returns the word at place `i`, if a word stands there.
pub fn word(lexemes: &Vec<Lexeme>, i: usize) -> (r: Option<&Vec<char>>)
    ensures
        match r {
            Some(w) => word_at(lexemes_view(lexemes@), i as int) == Some(w@),
            None => word_at(lexemes_view(lexemes@), i as int) is None,
        },
{
    if i < lexemes.len() {
        match &lexemes[i] {
            Lexeme::Word(w) => Some(w),
            Lexeme::Sym(_) => None,
        }
    } else {
        None
    }
}

/// Tells whether the sign `c` stands at place `i`.
pub fn sign(lexemes: &Vec<Lexeme>, i: usize, c: char) -> (r: bool)
    ensures
        r == sign_at(lexemes_view(lexemes@), i as int, c),
{
    if i < lexemes.len() {
        match &lexemes[i] {
            Lexeme::Word(_) => false,
            Lexeme::Sym(s) => *s == c,
        }
    } else {
        false
    }
}

/// Tells whether `word` holds the characters of `text`.
pub fn spells(word: &Vec<char>, text: &str) -> (r: bool)
    ensures
        r == (word@ == text@),
{
    let other = chars_of(text);
    if word.len() != other.len() {
        return false;
    }
    let mut i: usize = 0;
    while i < word.len()
        invariant
            i <= word.len(),
            word.len() == other.len(),
            other@ == text@,
            forall|k: int| 0 <= k < i ==> word@[k] == other@[k],
        decreases word.len() - i,
    {
        if word[i] != other[i] {
            return false;
        }
        i = i + 1;
    }
    assert(word@ =~= text@);
    true
}

/// Reads `word` as a decimal number.
pub fn number(word: &Vec<char>) -> (r: Option<usize>)
    ensures
        r == number_spec(word@),
{
    if word.len() == 0 {
        return None;
    }
    let mut value: usize = 0;
    let mut i: usize = 0;
    assert(word@.take(0) =~= Seq::empty());
    while i < word.len()
        invariant
            i <= word.len(),
            forall|k: int| 0 <= k < i ==> is_digit(#[trigger] word@[k]),
            value == number_value(word@.take(i as int)),
        decreases word.len() - i,
    {
        let c = word[i];
        let code: u32 = c as u32;
        if !(0x30 <= code && code <= 0x39) {
            return None;
        }
        let d: usize = (code - 0x30) as usize;
        proof {
            assert(word@.take(i + 1).drop_last() =~= word@.take(i as int));
            lemma_number_prefix(word@, i + 1);
        }
        value = match value.checked_mul(10) {
            Some(v) => match v.checked_add(d) {
                Some(v) => v,
                None => {
                    return None;
                },
            },
            None => {
                return None;
            },
        };
        i = i + 1;
    }
    assert(word@.take(word.len() as int) =~= word@);
    Some(value)
}

} // verus!




