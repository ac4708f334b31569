//! From generated source text to a token stream.
//!
//! The library writes source text and hands it to the lexer in one piece.
//! What it proves is the text: of the tokens it says only that they were
//! lexed from that text, and of a failure only that the lexer refused it.

use vstd::prelude::*;
use vstd::string::StringExecFns;
use proc_macro2::TokenStream;
use crate::error::{ErrorView, StrongTypeError};
use crate::tokens::{lex, lexes_to, token_trees};

verus! {

broadcast use Seq::lemma_flatten_push;

/// The views of a list of texts.
pub open spec fn texts_of(sources: Seq<String>) -> Seq<Seq<char>> {
    sources.map_values(|source: String| source@)
}

/// Says that `outcome` comes from lexing `source`: a stream that was lexed
/// from it, or the error that tells that the lexer refused it.
pub open spec fn is_lexing_of(
    outcome: Result<TokenStream, StrongTypeError>,
    source: Seq<char>,
) -> bool {
    match outcome {
        Ok(stream) => lexes_to(source, token_trees(stream)),
        Err(error) => error@ == ErrorView::UnlexableCode,
    }
}

/// Lexes generated source text.
pub fn tokenize(source: &str) -> (outcome: Result<TokenStream, StrongTypeError>)
    ensures
        is_lexing_of(outcome, source@),
{
    match lex(source) {
        Ok(stream) => Ok(stream),
        Err(_) => Err(StrongTypeError::UnlexableCode),
    }
}

/// Joins source texts, in order, into one text.
pub fn join(sources: &Vec<String>) -> (text: String)
    ensures
        text@ == texts_of(sources@).flatten(),
{
    let ghost texts = texts_of(sources@);
    let mut text = String::new();
    let mut i: usize = 0;
    assert(texts.take(0).flatten() =~= Seq::<char>::empty());
    while i < sources.len()
        invariant
            i <= sources.len(),
            texts == texts_of(sources@),
            text@ == texts.take(i as int).flatten(),
        decreases sources.len() - i,
    {
        text.append(sources[i].as_str());
        proof {
            assert(texts.take(i + 1) =~= texts.take(i as int).push(texts[i as int]));
        }
        i += 1;
    }
    proof {
        assert(texts.take(i as int) =~= texts);
    }
    text
}

/// Joins generated source texts, in order, and lexes the whole.
pub fn tokenize_all(sources: &Vec<String>) -> (outcome: Result<TokenStream, StrongTypeError>)
    ensures
        is_lexing_of(outcome, texts_of(sources@).flatten()),
{
    let text = join(sources);
    tokenize(text.as_str())
}

} // verus!
