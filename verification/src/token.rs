//! Token trees as the lexer hands them over, and the plain facts the
//! grammars read off each of them.
//!
//! The tokens are `proc_macro2`'s and the notion of a usable identifier is
//! `syn`'s. This module gives what both say of a token a name, so that the
//! grammars can be stated over it, and turns each token into a [`Lexeme`]: a
//! plain value that holds all that the directive grammars look at. Lexing
//! itself is the caller's: which lexer `proc_macro2` runs depends on the
//! process, so the library starts from the token trees. The trees of one
//! directive come from one lexer, the one that the process runs.

use vstd::prelude::*;

verus! {

/// `proc_macro2::TokenTree`: one token, or a delimited group of tokens.
#[verifier::external_type_specification]
#[verifier::external_body]
pub struct ExTokenTree(proc_macro2::TokenTree);

/// What kind of token a tree is, as far as the grammars tell trees apart.
#[derive(Clone, Copy, Debug, PartialEq, Eq, Structural)]
pub enum TokenKind {
    /// An identifier or a keyword.
    Word,
    /// One punctuation character.
    Punct(char),
    /// A literal: string, character or number.
    Literal,
    /// A delimited group.
    Group,
}

/// The kind of a token tree.
pub uninterp spec fn token_kind(tree: proc_macro2::TokenTree) -> TokenKind;

/// The text that a token tree prints as.
pub uninterp spec fn token_text(tree: proc_macro2::TokenTree) -> Seq<char>;

/// Whether `syn` takes the tree for an identifier: a word that is no
/// reserved word.
pub uninterp spec fn token_is_name(tree: proc_macro2::TokenTree) -> bool;

/// The trees inside a group delimited by braces, `None` for any other tree.
pub uninterp spec fn braced_tokens(tree: proc_macro2::TokenTree) -> Option<
    Seq<proc_macro2::TokenTree>,
>;

/// Tells the variants of `proc_macro2::TokenTree` apart. For a punctuation
/// token the result carries `Punct::as_char`.
#[verifier::external_body]
pub(crate) fn kind_of(tree: &proc_macro2::TokenTree) -> (kind: TokenKind)
    ensures
        kind == token_kind(*tree),
{
    match tree {
        proc_macro2::TokenTree::Ident(_) => TokenKind::Word,
        proc_macro2::TokenTree::Punct(p) => TokenKind::Punct(p.as_char()),
        proc_macro2::TokenTree::Literal(_) => TokenKind::Literal,
        proc_macro2::TokenTree::Group(_) => TokenKind::Group,
    }
}

/// The tree's `Display` output, which `proc_macro2` implements for
/// `TokenTree`. The contract names that text [`token_text`].
#[verifier::external_body]
pub(crate) fn text_of(tree: &proc_macro2::TokenTree) -> (text: String)
    ensures
        text@ == token_text(*tree),
{
    tree.to_string()
}

/// Asks `syn::parse2::<syn::Ident>` whether the tree alone parses as an
/// identifier; `syn` refuses the reserved words and `_`. The contract names
/// the answer [`token_is_name`].
#[verifier::external_body]
pub(crate) fn is_name(tree: &proc_macro2::TokenTree) -> (accepted: bool)
    ensures
        accepted == token_is_name(*tree),
{
    syn::parse2::<syn::Ident>(proc_macro2::TokenStream::from(tree.clone())).is_ok()
}

/// For a `proc_macro2::Group` whose `delimiter` is `Delimiter::Brace`, the
/// trees of its `stream` in order; `None` for every other tree.
#[verifier::external_body]
pub(crate) fn braced(tree: &proc_macro2::TokenTree) -> (inner: Option<Vec<proc_macro2::TokenTree>>)
    ensures
        inner matches Some(v) ==> braced_tokens(*tree) == Some(v@),
        inner is None ==> braced_tokens(*tree) is None,
{
    match tree {
        proc_macro2::TokenTree::Group(g) if g.delimiter() == proc_macro2::Delimiter::Brace => {
            Some(g.stream().into_iter().collect())
        },
        _ => None,
    }
}

/// All that the directive grammars read of one token.
#[derive(Clone, Debug)]
pub struct Lexeme {
    /// The token's kind.
    pub kind: TokenKind,
    /// Whether the token is usable as an identifier.
    pub name: bool,
    /// The token as text.
    pub text: String,
}

/// The mathematical value of a [`Lexeme`].
pub struct LexemeView {
    pub kind: TokenKind,
    pub name: bool,
    pub text: Seq<char>,
}

impl View for Lexeme {
    type V = LexemeView;

    open spec fn view(&self) -> LexemeView {
        LexemeView { kind: self.kind, name: self.name, text: self.text@ }
    }
}

/// The lexeme that stands for a token tree.
pub open spec fn lexeme_of(tree: proc_macro2::TokenTree) -> LexemeView {
    LexemeView { kind: token_kind(tree), name: token_is_name(tree), text: token_text(tree) }
}

/// The lexemes that stand for a sequence of token trees, one for one.
pub open spec fn lexemes_of(trees: Seq<proc_macro2::TokenTree>) -> Seq<LexemeView> {
    trees.map_values(|t: proc_macro2::TokenTree| lexeme_of(t))
}

/// The values of a sequence of lexemes.
pub open spec fn lexeme_views(lexemes: Seq<Lexeme>) -> Seq<LexemeView> {
    lexemes.map_values(|l: Lexeme| l@)
}

/// Reads off one token what the grammars need of it.
pub fn read_lexeme(tree: &proc_macro2::TokenTree) -> (lexeme: Lexeme)
    ensures
        lexeme@ == lexeme_of(*tree),
{
    Lexeme { kind: kind_of(tree), name: is_name(tree), text: text_of(tree) }
}

/// Reads the lexemes of a token sequence.
pub fn read_lexemes(trees: &Vec<proc_macro2::TokenTree>) -> (lexemes: Vec<Lexeme>)
    ensures
        lexeme_views(lexemes@) == lexemes_of(trees@),
{
    let mut lexemes: Vec<Lexeme> = Vec::new();
    let mut i: usize = 0;
    while i < trees.len()
        invariant
            i <= trees.len(),
            lexemes.len() == i,
            forall|j: int| 0 <= j < i ==> (#[trigger] lexemes[j])@ == lexeme_of(trees[j]),
        decreases trees.len() - i,
    {
        lexemes.push(read_lexeme(&trees[i]));
        i += 1;
    }
    assert(lexeme_views(lexemes@) =~= lexemes_of(trees@));
    lexemes
}

} // verus!
