//! What a pipeline build hands out: the kernel of each stage as a named
//! constant, written in tokens, and the host layout of each block.

use vstd::prelude::*;
use crate::compile::CompiledModule;
use crate::pipeline::Pipeline;
use crate::report::{decimal, decimal_spec};
use crate::stage::ModuleType;
use crate::text::string_of;
use crate::tokens::{Delimiter, Token};

verus! {

/// Whether `t` is the identifier `name`.
pub open spec fn is_ident(t: Token, name: Seq<char>) -> bool {
    t matches Token::Ident { name: n, span } && n@ == name && span == 0
}

/// Whether `t` is the punctuation character `c`.
pub open spec fn is_punct(t: Token, c: char) -> bool {
    t matches Token::Punct { ch, span } && ch == c && span == 0
}

/// Whether `t` is the literal written `text`.
pub open spec fn is_literal(t: Token, text: Seq<char>) -> bool {
    t matches Token::Literal { text: x, span } && x@ == text && span == 0
}

/// Whether `stream` lists `bytes`: each as a decimal literal without
/// suffix, followed by a comma.
pub open spec fn is_byte_list(stream: Seq<Token>, bytes: Seq<u8>) -> bool {
    &&& stream.len() == 2 * bytes.len()
    &&& forall|i: int|
        0 <= i < bytes.len() ==> is_literal(#[trigger] stream[2 * i], decimal_spec(bytes[i] as nat))
    &&& forall|i: int| 0 <= i < bytes.len() ==> is_punct(#[trigger] stream[2 * i + 1], ',')
}

/// Whether `t` is `stream` in square brackets.
pub open spec fn is_bracketed(t: Token, stream: Seq<Token>) -> bool {
    t matches Token::Group { delimiter, stream: s, span } && delimiter == Delimiter::Bracket && s@
        == stream && span == 0
}

/// The name of the constant that holds the kernel of `stage`.
pub open spec fn kernel_name_spec(stage: ModuleType) -> Seq<char> {
    stage.name_spec() + "_KERNEL"@
}

/// Whether `tokens` declare the kernel of `stage` as a public constant of
/// the type `&[u8]`, whose value is a reference to the list of `bytes`.
pub open spec fn is_kernel_constant(tokens: Seq<Token>, stage: ModuleType, bytes: Seq<u8>) -> bool {
    &&& tokens.len() == 10
    &&& is_ident(tokens[0], "pub"@)
    &&& is_ident(tokens[1], "const"@)
    &&& is_ident(tokens[2], kernel_name_spec(stage))
    &&& is_punct(tokens[3], ':')
    &&& is_punct(tokens[4], '&')
    &&& tokens[5] is Group && is_bracketed(tokens[5], tokens[5]->stream@) && tokens[5]->stream@.len()
        == 1 && is_ident(tokens[5]->stream@[0], "u8"@)
    &&& is_punct(tokens[6], '=')
    &&& is_punct(tokens[7], '&')
    &&& tokens[8] is Group && is_bracketed(tokens[8], tokens[8]->stream@) && is_byte_list(
        tokens[8]->stream@,
        bytes,
    )
    &&& is_punct(tokens[9], ';')
}

/// Makes the identifier `name`.
fn ident(name: &str) -> (t: Token)
    ensures
        is_ident(t, name@),
{
    Token::Ident { name: name.to_owned(), span: 0 }
}

/// Makes the punctuation character `c`.
fn punct(c: char) -> (t: Token)
    ensures
        is_punct(t, c),
{
    Token::Punct { ch: c, span: 0 }
}

/// Makes the tokens that list `bytes`.
fn byte_list(bytes: &Vec<u8>) -> (stream: Vec<Token>)
    ensures
        is_byte_list(stream@, bytes@),
{
    let mut stream: Vec<Token> = Vec::new();
    let mut i: usize = 0;
    while i < bytes.len()
        invariant
            i <= bytes.len(),
            is_byte_list(stream@, bytes@.take(i as int)),
        decreases bytes.len() - i,
    {
        let ghost before = stream@;
        let text = string_of(&decimal(bytes[i] as usize));
        stream.push(Token::Literal { text, span: 0 });
        stream.push(punct(','));
        proof {
            let done = bytes@.take(i as int);
            let next = bytes@.take(i + 1);
            assert(stream@.len() == 2 * next.len());
            assert forall|k: int| 0 <= k < next.len() implies is_literal(
                #[trigger] stream@[2 * k],
                decimal_spec(next[k] as nat),
            ) by {
                if k < i {
                    assert(stream@[2 * k] == before[2 * k]);
                    assert(done[k] == next[k]);
                }
            }
            assert forall|k: int| 0 <= k < next.len() implies is_punct(
                #[trigger] stream@[2 * k + 1],
                ',',
            ) by {
                if k < i {
                    assert(stream@[2 * k + 1] == before[2 * k + 1]);
                }
            }
        }
        i = i + 1;
    }
    assert(bytes@.take(bytes.len() as int) =~= bytes@);
    stream
}

impl CompiledModule {
    /// Appends to `tokens` the declaration of the stage's kernel as a
    /// constant.
    pub fn to_tokens(&self, tokens: &mut Vec<Token>)
        ensures
            final(tokens)@.len() == old(tokens)@.len() + 10,
            final(tokens)@.subrange(0, old(tokens)@.len() as int) == old(tokens)@,
            is_kernel_constant(
                final(tokens)@.subrange(old(tokens)@.len() as int, final(tokens)@.len() as int),
                self.module_type,
                self.spirv@,
            ),
    {
        let mut name = self.module_type.name().to_owned();
        name.append("_KERNEL");
        let mut byte_type: Vec<Token> = Vec::new();
        byte_type.push(ident("u8"));
        let list = byte_list(&self.spirv);
        tokens.push(ident("pub"));
        tokens.push(ident("const"));
        tokens.push(ident(name.as_str()));
        tokens.push(punct(':'));
        tokens.push(punct('&'));
        tokens.push(Token::Group { delimiter: Delimiter::Bracket, stream: byte_type, span: 0 });
        tokens.push(punct('='));
        tokens.push(punct('&'));
        tokens.push(Token::Group { delimiter: Delimiter::Bracket, stream: list, span: 0 });
        tokens.push(punct(';'));
        proof {
            let n = old(tokens)@.len() as int;
            let added = tokens@.subrange(n, tokens@.len() as int);
            assert(tokens@.subrange(0, n) =~= old(tokens)@);
            assert(added[0] == tokens@[n]);
            assert(added[1] == tokens@[n + 1]);
            assert(added[2] == tokens@[n + 2]);
            assert(added[3] == tokens@[n + 3]);
            assert(added[4] == tokens@[n + 4]);
            assert(added[5] == tokens@[n + 5]);
            assert(added[6] == tokens@[n + 6]);
            assert(added[7] == tokens@[n + 7]);
            assert(added[8] == tokens@[n + 8]);
            assert(added[9] == tokens@[n + 9]);
        }
    }
}

/// Whether `tokens` hold, from place `start` on, the declarations of the
/// kernels of the first `n` of `modules`, one after the other.
pub open spec fn kernels_at(tokens: Seq<Token>, start: int, modules: Seq<(Seq<u8>, ModuleType)>, n: int) -> bool {
    forall|i: int|
        0 <= i < n ==> is_kernel_constant(
            #[trigger] tokens.subrange(start + 10 * i, start + 10 * i + 10),
            modules[i].1,
            modules[i].0,
        )
}

/// A part of a sequence stays what it was when the sequence grows at its
/// end.
proof fn lemma_prefix_kept(before: Seq<Token>, after: Seq<Token>, a: int, b: int)
    requires
        before.len() <= after.len(),
        after.subrange(0, before.len() as int) == before,
        0 <= a <= b <= before.len(),
    ensures
        after.subrange(a, b) == before.subrange(a, b),
{
    assert forall|j: int| 0 <= j < b - a implies after.subrange(a, b)[j] == before.subrange(
        a,
        b,
    )[j] by {
        assert(after.subrange(0, before.len() as int)[a + j] == after[a + j]);
    }
    assert(after.subrange(a, b) =~= before.subrange(a, b));
}

impl Pipeline {
    /// Appends to `tokens` the declarations of the kernels of all stages,
    /// in the order of the stages.
    pub fn to_tokens(&self, tokens: &mut Vec<Token>)
        ensures
            final(tokens)@.len() == old(tokens)@.len() + 10 * self@.modules.len(),
            final(tokens)@.subrange(0, old(tokens)@.len() as int) == old(tokens)@,
            kernels_at(
                final(tokens)@,
                old(tokens)@.len() as int,
                self@.modules,
                self@.modules.len() as int,
            ),
    {
        let ghost start = tokens@.len() as int;
        let mut i: usize = 0;
        assert(tokens@.subrange(0, start) =~= old(tokens)@);
        while i < self.modules.len()
            invariant
                i <= self.modules.len(),
                start == old(tokens)@.len(),
                tokens@.len() == start + 10 * i,
                tokens@.subrange(0, start) == old(tokens)@,
                kernels_at(tokens@, start, self@.modules, i as int),
            decreases self.modules.len() - i,
        {
            let ghost before = tokens@;
            self.modules[i].1.to_tokens(tokens);
            proof {
                lemma_prefix_kept(before, tokens@, 0, start);
                assert forall|k: int| 0 <= k < i + 1 implies is_kernel_constant(
                    #[trigger] tokens@.subrange(start + 10 * k, start + 10 * k + 10),
                    self@.modules[k].1,
                    self@.modules[k].0,
                ) by {
                    if k < i {
                        lemma_prefix_kept(before, tokens@, start + 10 * k, start + 10 * k + 10);
                    } else {
                        assert(self@.modules[k] == self.modules@[k].1@);
                    }
                }
            }
            i = i + 1;
        }
    }
}

} // verus!
