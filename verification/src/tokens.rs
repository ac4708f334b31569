//! Token streams of the Rust lexer, as `proc_macro2` and `syn` provide them.
//!
//! Nothing in this module is proved: it states what the library relies on.
//! A token stream is opaque to the verifier. Its contents are named by
//! [`token_trees`], and that a stream is an outcome of lexing a text is named
//! by [`lexes_to`]. Which lexer answers depends on the process: the
//! compiler's own inside a procedural macro, that of `proc_macro2` outside
//! one. So nothing here says that a text lexes, nor that it lexes to the
//! same tokens twice: only that what comes back came from lexing that text.

use vstd::prelude::*;

verus! {

#[verifier::external_type_specification]
#[verifier::external_body]
pub struct ExTokenStream(proc_macro2::TokenStream);

#[verifier::external_type_specification]
#[verifier::external_body]
pub struct ExSynError(syn::Error);

/// The top-level token trees of a stream, in order, each stood for by its
/// text.
pub uninterp spec fn token_trees(stream: proc_macro2::TokenStream) -> Seq<Seq<char>>;

/// Whether `trees` are token trees that
/// `syn::parse_str::<proc_macro2::TokenStream>` can hand back for the source
/// text `source`.
pub uninterp spec fn lexes_to(source: Seq<char>, trees: Seq<Seq<char>>) -> bool;

/// Calls `syn::parse_str::<proc_macro2::TokenStream>`, which lexes `source`
/// and, where the lexer in charge accepts the text, hands back every token
/// of it. Of a stream that comes back the contract says that it was lexed
/// from `source`; of an error it says nothing.
#[verifier::external_body]
pub(crate) fn lex(source: &str) -> (outcome: Result<proc_macro2::TokenStream, syn::Error>)
    ensures
        outcome matches Ok(stream) ==> lexes_to(source@, token_trees(stream)),
{
    syn::parse_str::<proc_macro2::TokenStream>(source)
}

} // verus!
