//! The parts of a directive that are written in Rust's own syntax:
//! visibilities, types and expressions.
//!
//! Their grammar is `syn`'s. Each function here asks `syn` to parse one such
//! construct at the head of a token sequence and reports the construct as
//! text together with the number of trees that follow it. What `syn` answers
//! depends on the trees alone, so each answer has a name that the contracts
//! of the directive grammars are stated over. The grammars read the number
//! of trees left as the length of what follows the construct, and refuse a
//! number larger than what they handed over.

use vstd::prelude::*;

verus! {

/// The visibility that `syn` parses at the head of `trees`, as text, and the
/// number of trees left after it; `None` where `syn` reports an error. An
/// absent visibility is the empty text with every tree left.
pub uninterp spec fn visibility_prefix(trees: Seq<proc_macro2::TokenTree>) -> Option<
    (Seq<char>, nat),
>;

/// The type path that `syn` parses at the head of `trees`, as text, and the
/// number of trees left after it; `None` where `syn` reports an error.
pub uninterp spec fn type_path_prefix(trees: Seq<proc_macro2::TokenTree>) -> Option<
    (Seq<char>, nat),
>;

/// The reference type that `syn` parses at the head of `trees` (its
/// lifetime, whether it is `mut`, the type referred to) and the number of
/// trees left after it; `None` where `syn` reports an error.
pub uninterp spec fn type_reference_prefix(trees: Seq<proc_macro2::TokenTree>) -> Option<
    (Option<Seq<char>>, bool, Seq<char>, nat),
>;

/// The expression that `syn` parses at the head of `trees`, as text, and the
/// number of trees left after it; `None` where `syn` reports an error.
pub uninterp spec fn expression_prefix(trees: Seq<proc_macro2::TokenTree>) -> Option<
    (Seq<char>, nat),
>;

/// Parses a `syn::Visibility` from the trees at `start` on, with
/// `syn::parse::Parser::parse2`, and takes what is left as a token stream.
/// The text is what `quote::ToTokens` prints for the visibility. The
/// contract names the outcome [`visibility_prefix`] and claims nothing else.
#[verifier::external_body]
pub(crate) fn visibility_at(tokens: &Vec<proc_macro2::TokenTree>, start: usize) -> (found: Option<
    (String, usize),
>)
    requires
        start <= tokens.len(),
    ensures
        found matches Some(p) ==> visibility_prefix(tokens@.skip(start as int)) == Some(
            (p.0@, p.1 as nat),
        ),
        found is None ==> visibility_prefix(tokens@.skip(start as int)) is None,
{
    let both = |input: syn::parse::ParseStream| -> syn::Result<
        (syn::Visibility, proc_macro2::TokenStream),
    > { Ok((input.parse()?, input.parse()?)) };
    match syn::parse::Parser::parse2(both, tokens[start..].iter().cloned().collect()) {
        Ok((vis, rest)) => Some(
            (quote::ToTokens::to_token_stream(&vis).to_string(), rest.into_iter().count()),
        ),
        Err(_) => None,
    }
}

/// Parses a `syn::TypePath` from the trees at `start` on, with
/// `syn::parse::Parser::parse2`, and takes what is left as a token stream.
/// The text is what `quote::ToTokens` prints for the path. The contract
/// names the outcome [`type_path_prefix`] and claims nothing else.
#[verifier::external_body]
pub(crate) fn type_path_at(tokens: &Vec<proc_macro2::TokenTree>, start: usize) -> (found: Option<
    (String, usize),
>)
    requires
        start <= tokens.len(),
    ensures
        found matches Some(p) ==> type_path_prefix(tokens@.skip(start as int)) == Some(
            (p.0@, p.1 as nat),
        ),
        found is None ==> type_path_prefix(tokens@.skip(start as int)) is None,
{
    let both = |input: syn::parse::ParseStream| -> syn::Result<
        (syn::TypePath, proc_macro2::TokenStream),
    > { Ok((input.parse()?, input.parse()?)) };
    match syn::parse::Parser::parse2(both, tokens[start..].iter().cloned().collect()) {
        Ok((path, rest)) => Some(
            (quote::ToTokens::to_token_stream(&path).to_string(), rest.into_iter().count()),
        ),
        Err(_) => None,
    }
}

/// Parses a `syn::TypeReference` from the trees at `start` on, with
/// `syn::parse::Parser::parse2`, and takes what is left as a token stream.
/// The result holds the reference's `lifetime` as `syn` prints it, whether
/// its `mutability` is present, and its `elem` as `quote::ToTokens` prints
/// it. The contract names the outcome [`type_reference_prefix`] and claims
/// nothing else.
#[verifier::external_body]
pub(crate) fn type_reference_at(tokens: &Vec<proc_macro2::TokenTree>, start: usize) -> (found:
    Option<(Option<String>, bool, String, usize)>)
    requires
        start <= tokens.len(),
    ensures
        found matches Some(p) ==> type_reference_prefix(tokens@.skip(start as int)) == Some(
            (
                match p.0 {
                    Some(l) => Some(l@),
                    None => None,
                },
                p.1,
                p.2@,
                p.3 as nat,
            ),
        ),
        found is None ==> type_reference_prefix(tokens@.skip(start as int)) is None,
{
    let both = |input: syn::parse::ParseStream| -> syn::Result<
        (syn::TypeReference, proc_macro2::TokenStream),
    > { Ok((input.parse()?, input.parse()?)) };
    match syn::parse::Parser::parse2(both, tokens[start..].iter().cloned().collect()) {
        Ok((r, rest)) => Some(
            (
                r.lifetime.as_ref().map(ToString::to_string),
                r.mutability.is_some(),
                quote::ToTokens::to_token_stream(&r.elem).to_string(),
                rest.into_iter().count(),
            ),
        ),
        Err(_) => None,
    }
}

/// Parses a `syn::Expr` from the trees at `start` on, with
/// `syn::parse::Parser::parse2`, and takes what is left as a token stream.
/// The text is what `quote::ToTokens` prints for the expression. The
/// contract names the outcome [`expression_prefix`] and claims nothing else.
#[verifier::external_body]
pub(crate) fn expression_at(tokens: &Vec<proc_macro2::TokenTree>, start: usize) -> (found: Option<
    (String, usize),
>)
    requires
        start <= tokens.len(),
    ensures
        found matches Some(p) ==> expression_prefix(tokens@.skip(start as int)) == Some(
            (p.0@, p.1 as nat),
        ),
        found is None ==> expression_prefix(tokens@.skip(start as int)) is None,
{
    let both = |input: syn::parse::ParseStream| -> syn::Result<
        (syn::Expr, proc_macro2::TokenStream),
    > { Ok((input.parse()?, input.parse()?)) };
    match syn::parse::Parser::parse2(both, tokens[start..].iter().cloned().collect()) {
        Ok((expr, rest)) => Some(
            (quote::ToTokens::to_token_stream(&expr).to_string(), rest.into_iter().count()),
        ),
        Err(_) => None,
    }
}

} // verus!
