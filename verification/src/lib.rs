//! Schema-driven generation of plugin registries around dynamically
//! dispatched interfaces.
//!
//! A declaration binds a record to an interface; [`dyn_inventory`] expands
//! it to the record, its registry and its collector. A registration site
//! names an implementor of the interface and the record's metadata;
//! [`emit`] checks it against its declaration and expands it to the
//! implementor type and the submission of one record. Both take the tokens
//! of the directive and give the expansion as source text, or the first rule
//! that the directive breaks.

pub mod args;
pub mod classify;
pub mod collect;
pub mod declare;
pub mod error;
pub mod expand;
pub mod naming;
pub mod registry;
pub mod syntax;
pub mod token;

use crate::args::{declaration_of, Args, ArgsView};
use crate::declare::{checked_emission, directive_of, emission_of, EmitArgs};
use crate::error::Error;
use crate::expand::{expansion_of, text_outcome};
use vstd::prelude::*;

verus! {

/// What the tokens of a declaration expand to.
pub open spec fn declaration_expansion(trees: Seq<proc_macro2::TokenTree>) -> Result<
    Seq<char>,
    Error,
> {
    match declaration_of(trees) {
        Err(e) => Err(e),
        Ok(args) => Ok(expansion_of(args)),
    }
}

/// What the tokens of a registration site that stands alone expand to
/// where the site registers with the declaration `schema`.
pub open spec fn site_expansion(trees: Seq<proc_macro2::TokenTree>, schema: ArgsView) -> Result<
    Seq<char>,
    Error,
> {
    match emission_of(trees) {
        Err(e) => Err(e),
        Ok(site) => checked_emission(site, schema),
    }
}

/// What the tokens of a registration directive of the declaration `schema`
/// expand to.
pub open spec fn directive_expansion(
    trees: Seq<proc_macro2::TokenTree>,
    schema: ArgsView,
) -> Result<Seq<char>, Error> {
    match directive_of(trees, schema) {
        Err(e) => Err(e),
        Ok(site) => checked_emission(site, schema),
    }
}

/// Expands a declaration: parses it and gives the record, the registry and
/// the collector as source text, or the diagnostic of the first rule that
/// the declaration breaks.
pub fn dyn_inventory(tok: &Vec<proc_macro2::TokenTree>) -> (outcome: Result<String, Error>)
    ensures
        text_outcome(outcome) == declaration_expansion(tok@),
{
    match Args::parse(tok) {
        Ok(args) => args.expand(),
        Err(e) => Err(e),
    }
}

/// Expands a registration site that stands alone and registers with the
/// declaration `schema`: parses it, checks its fields against the
/// declaration and gives the implementor type, its factory and the
/// submission of the record as source text, or the diagnostic of the first
/// rule that the site breaks.
pub fn emit(schema: &Args, tok: &Vec<proc_macro2::TokenTree>) -> (outcome: Result<String, Error>)
    ensures
        text_outcome(outcome) == site_expansion(tok@, schema@),
{
    match EmitArgs::parse(tok) {
        Ok(site) => site.expand(schema),
        Err(e) => Err(e),
    }
}

/// Expands a registration directive of the declaration `schema`: parses
/// it, checks its fields against the declaration and gives the implementor
/// type, its factory and the submission of the record as source text.
pub fn register(schema: &Args, tok: &Vec<proc_macro2::TokenTree>) -> (outcome: Result<
    String,
    Error,
>)
    ensures
        text_outcome(outcome) == directive_expansion(tok@, schema@),
{
    match EmitArgs::parse_directive(tok, schema) {
        Ok(site) => site.expand(schema),
        Err(e) => Err(e),
    }
}

} // verus!
