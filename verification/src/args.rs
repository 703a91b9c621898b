//! The declaration of a plugin record: its grammar, and the description
//! that a declaration parses into.
//!
//! A declaration names an interface, a record and a generic parameter,
//! lists the record's fields in braces, and may end in options that override
//! derived names. It comes in two surfaces:
//!
//! ```text
//! Interface: Record<Param> { fields }; options
//! Record<Param: Interface> { fields }; options
//! ```
//!
//! The field whose type is the generic parameter is the handle field; every
//! other field is a metadata field.

use crate::classify::{handle_fields, metadata_fields, schema_rule};
use crate::error::{Error, Location, Rule};
use crate::naming::{resolve, resolved, Overrides, OverridesView, Surface};
use crate::syntax::{
    type_path_at, type_path_prefix, type_reference_at, type_reference_prefix, visibility_at,
    visibility_prefix,
};
use crate::token::{
    braced, braced_tokens, is_name, kind_of, lexeme_views, lexemes_of, read_lexemes, text_of,
    token_is_name, token_kind, token_text, Lexeme, LexemeView, TokenKind,
};
use vstd::prelude::*;
use vstd::string::StringExecFns;

verus! {

/// A reference type: `&'lifetime mut elem`.
#[derive(Clone, Debug)]
pub struct Reference {
    /// The lifetime, with its quote, where one is written.
    pub lifetime: Option<String>,
    /// Whether the reference is `mut`.
    pub mutable: bool,
    /// The type referred to, as text.
    pub elem: String,
}

/// The declared type of a field: a type path, as text, or a reference to a
/// type.
#[derive(Clone, Debug)]
pub enum RefOrTy {
    Ty(String),
    Ref(Reference),
}

/// The mathematical value of a [`RefOrTy`].
pub enum RefOrTyView {
    Ty(Seq<char>),
    Ref { lifetime: Option<Seq<char>>, mutable: bool, elem: Seq<char> },
}

impl View for RefOrTy {
    type V = RefOrTyView;

    open spec fn view(&self) -> RefOrTyView {
        match self {
            RefOrTy::Ty(path) => RefOrTyView::Ty(path@),
            RefOrTy::Ref(r) => RefOrTyView::Ref {
                lifetime: match r.lifetime {
                    Some(l) => Some(l@),
                    None => None,
                },
                mutable: r.mutable,
                elem: r.elem@,
            },
        }
    }
}

/// One declared field: `visibility name: type`.
#[derive(Clone, Debug)]
pub struct Field {
    /// The visibility as text, empty where none is written.
    pub vis: String,
    /// The field's name.
    pub name: String,
    /// The declared type.
    pub ty: RefOrTy,
    /// The index of the name's token inside the braces.
    pub at: usize,
}

/// The mathematical value of a [`Field`].
pub struct FieldView {
    pub vis: Seq<char>,
    pub name: Seq<char>,
    pub ty: RefOrTyView,
    pub at: nat,
}

impl View for Field {
    type V = FieldView;

    open spec fn view(&self) -> FieldView {
        FieldView { vis: self.vis@, name: self.name@, ty: self.ty@, at: self.at as nat }
    }
}

/// The values of a sequence of fields.
pub open spec fn field_views(fields: Seq<Field>) -> Seq<FieldView> {
    fields.map_values(|f: Field| f@)
}

/// The head of a declaration: which surface it is written in, and the three
/// names it binds.
#[derive(Clone, Debug)]
pub struct Header {
    pub surface: Surface,
    pub trait_name: String,
    pub struct_name: String,
    pub generic_param: String,
}

/// The mathematical value of a [`Header`].
pub struct HeaderView {
    pub surface: Surface,
    pub trait_name: Seq<char>,
    pub struct_name: Seq<char>,
    pub generic_param: Seq<char>,
}

impl View for Header {
    type V = HeaderView;

    open spec fn view(&self) -> HeaderView {
        HeaderView {
            surface: self.surface,
            trait_name: self.trait_name@,
            struct_name: self.struct_name@,
            generic_param: self.generic_param@,
        }
    }
}

/// An option: a name that a declaration may override.
#[derive(Clone, Copy, Debug, PartialEq, Eq, Structural)]
pub enum ExtraOpts {
    /// The initialization name: `macro_name` in the interface-first surface,
    /// `init_name` in the record-first surface.
    InitName,
    /// The name of the default implementor type: `handle_name`, in the
    /// interface-first surface only.
    HandleName,
}

/// Whether an identifier stands at index `i`.
pub open spec fn name_at(lexemes: Seq<LexemeView>, i: int) -> bool {
    0 <= i < lexemes.len() && lexemes[i].name
}

/// Whether the punctuation character `c` stands at index `i`.
pub open spec fn punct_at(lexemes: Seq<LexemeView>, i: int, c: char) -> bool {
    0 <= i < lexemes.len() && lexemes[i].kind == TokenKind::Punct(c)
}

/// The diagnostic for a rule broken at a token of the directive.
pub open spec fn outer(rule: Rule, i: int) -> Error {
    Error { rule, at: Location::Outer(i as usize) }
}

/// The diagnostic for a rule broken at a token inside the braces.
pub open spec fn inner(rule: Rule, i: int) -> Error {
    Error { rule, at: Location::Inner(i as usize) }
}

/// The head that the first six tokens of a declaration spell, or the first
/// rule that they break.
pub open spec fn header_of(lexemes: Seq<LexemeView>) -> Result<HeaderView, Error> {
    if !name_at(lexemes, 0) {
        Err(outer(Rule::Identifier, 0))
    } else if punct_at(lexemes, 1, ':') {
        if !name_at(lexemes, 2) {
            Err(outer(Rule::Identifier, 2))
        } else if !punct_at(lexemes, 3, '<') {
            Err(outer(Rule::OpeningAngle, 3))
        } else if !name_at(lexemes, 4) {
            Err(outer(Rule::Identifier, 4))
        } else if !punct_at(lexemes, 5, '>') {
            Err(outer(Rule::ClosingAngle, 5))
        } else {
            Ok(
                HeaderView {
                    surface: Surface::InterfaceFirst,
                    trait_name: lexemes[0].text,
                    struct_name: lexemes[2].text,
                    generic_param: lexemes[4].text,
                },
            )
        }
    } else if punct_at(lexemes, 1, '<') {
        if !name_at(lexemes, 2) {
            Err(outer(Rule::Identifier, 2))
        } else if !punct_at(lexemes, 3, ':') {
            Err(outer(Rule::Colon, 3))
        } else if !name_at(lexemes, 4) {
            Err(outer(Rule::Identifier, 4))
        } else if !punct_at(lexemes, 5, '>') {
            Err(outer(Rule::ClosingAngle, 5))
        } else {
            Ok(
                HeaderView {
                    surface: Surface::RecordFirst,
                    trait_name: lexemes[4].text,
                    struct_name: lexemes[0].text,
                    generic_param: lexemes[2].text,
                },
            )
        }
    } else {
        Err(outer(Rule::ColonOrOpeningAngle, 1))
    }
}

/// The option that a key names in a surface, `None` for a key that the
/// surface does not know.
pub open spec fn option_key(surface: Surface, key: Seq<char>) -> Option<ExtraOpts> {
    match surface {
        Surface::InterfaceFirst => if key == "macro_name"@ {
            Some(ExtraOpts::InitName)
        } else if key == "handle_name"@ {
            Some(ExtraOpts::HandleName)
        } else {
            None
        },
        Surface::RecordFirst => if key == "init_name"@ {
            Some(ExtraOpts::InitName)
        } else {
            None
        },
    }
}

/// The overrides after one more option: a later option for the same name
/// replaces an earlier one.
pub open spec fn with_option(overrides: OverridesView, key: ExtraOpts, value: Seq<char>) -> OverridesView {
    match key {
        ExtraOpts::InitName => OverridesView { init_name: Some(value), ..overrides },
        ExtraOpts::HandleName => OverridesView { handle_name: Some(value), ..overrides },
    }
}

/// The option `key = value` that stands at index `i`, or the first rule
/// that the tokens there break.
pub open spec fn option_at(lexemes: Seq<LexemeView>, i: int, surface: Surface) -> Result<
    (ExtraOpts, Seq<char>),
    Error,
> {
    if !(0 <= i < lexemes.len() && lexemes[i].kind == TokenKind::Word && option_key(
        surface,
        lexemes[i].text,
    ) is Some) {
        Err(outer(Rule::KnownOption, i))
    } else if !punct_at(lexemes, i + 1, '=') {
        Err(outer(Rule::Equals, i + 1))
    } else if i + 2 >= lexemes.len() {
        Err(outer(Rule::Identifier, i + 2))
    } else if lexemes[i + 2].kind != TokenKind::Word {
        Err(outer(Rule::IdentifierValue, i + 2))
    } else if !lexemes[i + 2].name {
        Err(outer(Rule::UnreservedValue, i + 2))
    } else {
        Ok((option_key(surface, lexemes[i].text)->0, lexemes[i + 2].text))
    }
}

/// The overrides that the options from index `i` on add to `overrides`:
/// options separated by commas, the last of which may be followed by one.
pub open spec fn options_from(
    lexemes: Seq<LexemeView>,
    i: int,
    surface: Surface,
    overrides: OverridesView,
) -> Result<OverridesView, Error>
    decreases lexemes.len() - i,
{
    if i < 0 || i >= lexemes.len() {
        Ok(overrides)
    } else {
        match option_at(lexemes, i, surface) {
            Err(e) => Err(e),
            Ok((key, value)) => {
                let more = with_option(overrides, key, value);
                if i + 3 >= lexemes.len() {
                    Ok(more)
                } else if !punct_at(lexemes, i + 3, ',') {
                    Err(outer(Rule::Comma, i + 3))
                } else {
                    options_from(lexemes, i + 4, surface, more)
                }
            },
        }
    }
}

/// No override at all.
pub open spec fn no_overrides() -> OverridesView {
    OverridesView { init_name: None, handle_name: None }
}

/// The overrides that follow the braces of a declaration, which stand at
/// index 6. The interface-first surface asks for `;` after the braces; the
/// record-first surface asks for it only where something follows.
pub open spec fn options_of(lexemes: Seq<LexemeView>, surface: Surface) -> Result<
    OverridesView,
    Error,
> {
    if surface == Surface::RecordFirst && lexemes.len() <= 7 {
        Ok(no_overrides())
    } else if !punct_at(lexemes, 7, ';') {
        Err(outer(Rule::Semicolon, 7))
    } else {
        options_from(lexemes, 8, surface, no_overrides())
    }
}

/// The view of a parsed head or its diagnostic.
pub open spec fn header_outcome(outcome: Result<Header, Error>) -> Result<HeaderView, Error> {
    match outcome {
        Ok(h) => Ok(h@),
        Err(e) => Err(e),
    }
}

/// The view of parsed overrides or their diagnostic.
pub open spec fn overrides_outcome(outcome: Result<Overrides, Error>) -> Result<
    OverridesView,
    Error,
> {
    match outcome {
        Ok(o) => Ok(o@),
        Err(e) => Err(e),
    }
}

/// Whether `text` spells `word`.
fn spells(text: &String, word: &str) -> (same: bool)
    ensures
        same == (text@ == word@),
{
    let word = String::from_str(word);
    *text == word
}

/// Whether an identifier stands at index `i`.
fn has_name(lexemes: &Vec<Lexeme>, i: usize) -> (found: bool)
    ensures
        found == name_at(lexeme_views(lexemes@), i as int),
{
    i < lexemes.len() && lexemes[i].name
}

/// Whether the punctuation character `c` stands at index `i`.
fn has_punct(lexemes: &Vec<Lexeme>, i: usize, c: char) -> (found: bool)
    ensures
        found == punct_at(lexeme_views(lexemes@), i as int, c),
{
    i < lexemes.len() && lexemes[i].kind == TokenKind::Punct(c)
}

impl Header {
    /// Parses the head of a declaration from its first six tokens.
    pub fn parse(lexemes: &Vec<Lexeme>) -> (outcome: Result<Header, Error>)
        ensures
            header_outcome(outcome) == header_of(lexeme_views(lexemes@)),
    {
        if !has_name(lexemes, 0) {
            return Err(Error { rule: Rule::Identifier, at: Location::Outer(0) });
        }
        let interface_first = has_punct(lexemes, 1, ':');
        if !interface_first && !has_punct(lexemes, 1, '<') {
            return Err(Error { rule: Rule::ColonOrOpeningAngle, at: Location::Outer(1) });
        }
        if !has_name(lexemes, 2) {
            return Err(Error { rule: Rule::Identifier, at: Location::Outer(2) });
        }
        if interface_first {
            if !has_punct(lexemes, 3, '<') {
                return Err(Error { rule: Rule::OpeningAngle, at: Location::Outer(3) });
            }
        } else {
            if !has_punct(lexemes, 3, ':') {
                return Err(Error { rule: Rule::Colon, at: Location::Outer(3) });
            }
        }
        if !has_name(lexemes, 4) {
            return Err(Error { rule: Rule::Identifier, at: Location::Outer(4) });
        }
        if !has_punct(lexemes, 5, '>') {
            return Err(Error { rule: Rule::ClosingAngle, at: Location::Outer(5) });
        }
        let first = lexemes[0].text.clone();
        let second = lexemes[2].text.clone();
        let third = lexemes[4].text.clone();
        if interface_first {
            Ok(
                Header {
                    surface: Surface::InterfaceFirst,
                    trait_name: first,
                    struct_name: second,
                    generic_param: third,
                },
            )
        } else {
            Ok(
                Header {
                    surface: Surface::RecordFirst,
                    trait_name: third,
                    struct_name: first,
                    generic_param: second,
                },
            )
        }
    }
}

impl ExtraOpts {
    /// The option that `key` names in `surface`.
    pub fn of_key(surface: Surface, key: &String) -> (option: Option<ExtraOpts>)
        ensures
            option == option_key(surface, key@),
    {
        match surface {
            Surface::InterfaceFirst => {
                if spells(key, "macro_name") {
                    Some(ExtraOpts::InitName)
                } else if spells(key, "handle_name") {
                    Some(ExtraOpts::HandleName)
                } else {
                    None
                }
            },
            Surface::RecordFirst => {
                if spells(key, "init_name") {
                    Some(ExtraOpts::InitName)
                } else {
                    None
                }
            },
        }
    }

    /// Parses the option `key = value` that stands at index `i`.
    pub fn parse(lexemes: &Vec<Lexeme>, i: usize, surface: Surface) -> (outcome: Result<
        (ExtraOpts, String),
        Error,
    >)
        ensures
            match outcome {
                Ok((key, value)) => option_at(lexeme_views(lexemes@), i as int, surface) == Ok::<
                    (ExtraOpts, Seq<char>),
                    Error,
                >((key, value@)),
                Err(e) => option_at(lexeme_views(lexemes@), i as int, surface) == Err::<
                    (ExtraOpts, Seq<char>),
                    Error,
                >(e),
            },
    {
        let n = lexemes.len();
        if i >= n || lexemes[i].kind != TokenKind::Word {
            return Err(Error { rule: Rule::KnownOption, at: Location::Outer(i) });
        }
        let key = match ExtraOpts::of_key(surface, &lexemes[i].text) {
            Some(key) => key,
            None => {
                return Err(Error { rule: Rule::KnownOption, at: Location::Outer(i) });
            },
        };
        if n - i < 2 || lexemes[i + 1].kind != TokenKind::Punct('=') {
            return Err(Error { rule: Rule::Equals, at: Location::Outer(i + 1) });
        }
        if n - i < 3 {
            return Err(Error { rule: Rule::Identifier, at: Location::Outer(i + 2) });
        }
        if lexemes[i + 2].kind != TokenKind::Word {
            return Err(Error { rule: Rule::IdentifierValue, at: Location::Outer(i + 2) });
        }
        if !lexemes[i + 2].name {
            return Err(Error { rule: Rule::UnreservedValue, at: Location::Outer(i + 2) });
        }
        Ok((key, lexemes[i + 2].text.clone()))
    }
}

impl Overrides {
    /// No override at all.
    pub fn none() -> (overrides: Overrides)
        ensures
            overrides@ == no_overrides(),
    {
        Overrides { init_name: None, handle_name: None }
    }

    /// Parses what follows the braces of a declaration: the separator and
    /// the options.
    pub fn parse(lexemes: &Vec<Lexeme>, surface: Surface) -> (outcome: Result<Overrides, Error>)
        ensures
            overrides_outcome(outcome) == options_of(lexeme_views(lexemes@), surface),
    {
        let n = lexemes.len();
        let mut overrides = Overrides::none();
        if surface == Surface::RecordFirst && n <= 7 {
            return Ok(overrides);
        }
        if !has_punct(lexemes, 7, ';') {
            return Err(Error { rule: Rule::Semicolon, at: Location::Outer(7) });
        }
        let mut i: usize = 8;
        while i < n
            invariant
                n == lexemes.len(),
                8 <= i,
                options_of(lexeme_views(lexemes@), surface) == options_from(
                    lexeme_views(lexemes@),
                    i as int,
                    surface,
                    overrides@,
                ),
            decreases n - i,
        {
            let (key, value) = match ExtraOpts::parse(lexemes, i, surface) {
                Ok(option) => option,
                Err(e) => {
                    return Err(e);
                },
            };
            match key {
                ExtraOpts::InitName => {
                    overrides.init_name = Some(value);
                },
                ExtraOpts::HandleName => {
                    overrides.handle_name = Some(value);
                },
            }
            if n - i <= 3 {
                return Ok(overrides);
            }
            if !has_punct(lexemes, i + 3, ',') {
                return Err(Error { rule: Rule::Comma, at: Location::Outer(i + 3) });
            }
            i = i + 4;
        }
        Ok(overrides)
    }
}

/// The declared type that stands at index `p` inside the braces, and the
/// index after it: a reference type where `&` stands at `p`, a type path
/// elsewhere; `None` where `syn` finds none.
pub open spec fn type_at(trees: Seq<proc_macro2::TokenTree>, p: int) -> Option<(RefOrTyView, int)> {
    if 0 <= p < trees.len() && token_kind(trees[p]) == TokenKind::Punct('&') {
        match type_reference_prefix(trees.skip(p)) {
            Some((lifetime, mutable, elem, left)) => if left <= trees.len() - p {
                Some((RefOrTyView::Ref { lifetime, mutable, elem }, trees.len() - left))
            } else {
                None
            },
            None => None,
        }
    } else {
        match type_path_prefix(trees.skip(p)) {
            Some((path, left)) => if left <= trees.len() - p {
                Some((RefOrTyView::Ty(path), trees.len() - left))
            } else {
                None
            },
            None => None,
        }
    }
}

/// The field `visibility name: type` that starts at index `p` inside the
/// braces, and the index after it, or the first rule that the tokens there
/// break.
pub open spec fn field_at(trees: Seq<proc_macro2::TokenTree>, p: int) -> Result<
    (FieldView, int),
    Error,
> {
    match visibility_prefix(trees.skip(p)) {
        Some((vis, left)) => if left <= trees.len() - p {
            let n = trees.len() - left;
            if !(n < trees.len() && token_is_name(trees[n])) {
                Err(inner(Rule::Identifier, n))
            } else if !(n + 1 < trees.len() && token_kind(trees[n + 1]) == TokenKind::Punct(':')) {
                Err(inner(Rule::Colon, n + 1))
            } else {
                match type_at(trees, n + 2) {
                    Some((ty, next)) => Ok(
                        (FieldView { vis, name: token_text(trees[n]), ty, at: n as nat }, next),
                    ),
                    None => Err(inner(Rule::Type, n + 2)),
                }
            }
        } else {
            Err(inner(Rule::Visibility, p))
        },
        None => Err(inner(Rule::Visibility, p)),
    }
}

/// The fields that the tokens from index `p` on add to `fields`: fields
/// separated by commas, the last of which may be followed by one.
pub open spec fn fields_from(
    trees: Seq<proc_macro2::TokenTree>,
    p: int,
    fields: Seq<FieldView>,
) -> Result<Seq<FieldView>, Error>
    decreases trees.len() - p,
{
    if p < 0 || p >= trees.len() {
        Ok(fields)
    } else {
        match field_at(trees, p) {
            Err(e) => Err(e),
            Ok((field, next)) => {
                let more = fields.push(field);
                if next >= trees.len() {
                    Ok(more)
                } else if token_kind(trees[next]) != TokenKind::Punct(',') {
                    Err(inner(Rule::Comma, next))
                } else {
                    fields_from(trees, next + 1, more)
                }
            },
        }
    }
}

/// The fields that the tokens inside the braces of a declaration spell.
pub open spec fn fields_of(trees: Seq<proc_macro2::TokenTree>) -> Result<Seq<FieldView>, Error> {
    fields_from(trees, 0, Seq::empty())
}

impl RefOrTy {
    /// Parses the declared type that stands at index `p` inside the braces.
    pub fn parse(tokens: &Vec<proc_macro2::TokenTree>, p: usize) -> (found: Option<
        (RefOrTy, usize),
    >)
        requires
            p <= tokens.len(),
        ensures
            match found {
                Some((ty, next)) => type_at(tokens@, p as int) == Some((ty@, next as int)),
                None => type_at(tokens@, p as int) is None,
            },
    {
        let n = tokens.len();
        if p < n && kind_of(&tokens[p]) == TokenKind::Punct('&') {
            match type_reference_at(tokens, p) {
                Some((lifetime, mutable, elem, left)) => {
                    if left <= n - p {
                        Some((RefOrTy::Ref(Reference { lifetime, mutable, elem }), n - left))
                    } else {
                        None
                    }
                },
                None => None,
            }
        } else {
            match type_path_at(tokens, p) {
                Some((path, left)) => {
                    if left <= n - p {
                        Some((RefOrTy::Ty(path), n - left))
                    } else {
                        None
                    }
                },
                None => None,
            }
        }
    }
}

impl Field {
    /// Parses the field that starts at index `p` inside the braces.
    pub fn parse(tokens: &Vec<proc_macro2::TokenTree>, p: usize) -> (outcome: Result<
        (Field, usize),
        Error,
    >)
        requires
            p <= tokens.len(),
        ensures
            match outcome {
                Ok((field, next)) => field_at(tokens@, p as int) == Ok::<(FieldView, int), Error>(
                    (field@, next as int),
                ),
                Err(e) => field_at(tokens@, p as int) == Err::<(FieldView, int), Error>(e),
            },
            outcome matches Ok((_, next)) ==> p + 2 <= next <= tokens.len(),
    {
        let len = tokens.len();
        let (vis, left) = match visibility_at(tokens, p) {
            Some(found) => found,
            None => {
                return Err(Error { rule: Rule::Visibility, at: Location::Inner(p) });
            },
        };
        if left > len - p {
            return Err(Error { rule: Rule::Visibility, at: Location::Inner(p) });
        }
        let n = len - left;
        if n >= len || !is_name(&tokens[n]) {
            return Err(Error { rule: Rule::Identifier, at: Location::Inner(n) });
        }
        if len - n < 2 || kind_of(&tokens[n + 1]) != TokenKind::Punct(':') {
            return Err(Error { rule: Rule::Colon, at: Location::Inner(n + 1) });
        }
        match RefOrTy::parse(tokens, n + 2) {
            Some((ty, next)) => Ok((Field { vis, name: text_of(&tokens[n]), ty, at: n }, next)),
            None => Err(Error { rule: Rule::Type, at: Location::Inner(n + 2) }),
        }
    }

    /// Parses the fields that the tokens inside the braces spell.
    pub fn parse_all(tokens: &Vec<proc_macro2::TokenTree>) -> (outcome: Result<Vec<Field>, Error>)
        ensures
            match outcome {
                Ok(fields) => fields_of(tokens@) == Ok::<Seq<FieldView>, Error>(
                    field_views(fields@),
                ),
                Err(e) => fields_of(tokens@) == Err::<Seq<FieldView>, Error>(e),
            },
    {
        let len = tokens.len();
        let mut fields: Vec<Field> = Vec::new();
        let mut p: usize = 0;
        assert(field_views(fields@) =~= Seq::empty());
        while p < len
            invariant
                len == tokens.len(),
                fields_of(tokens@) == fields_from(tokens@, p as int, field_views(fields@)),
            decreases len - p,
        {
            let (field, next) = match Field::parse(tokens, p) {
                Ok(found) => found,
                Err(e) => {
                    return Err(e);
                },
            };
            let ghost before = field_views(fields@);
            fields.push(field);
            assert(field_views(fields@) =~= before.push(field@));
            if next >= len {
                return Ok(fields);
            }
            if kind_of(&tokens[next]) != TokenKind::Punct(',') {
                return Err(Error { rule: Rule::Comma, at: Location::Inner(next) });
            }
            p = next + 1;
        }
        Ok(fields)
    }
}

/// A declaration: which interface it binds to which record, the record's
/// fields, and the names that follow from them.
#[derive(Clone, Debug)]
pub struct Args {
    /// The surface that the declaration was written in.
    pub surface: Surface,
    /// The interface.
    pub trait_name: String,
    /// The record.
    pub struct_name: String,
    /// The generic parameter, which marks the handle field.
    pub generic_param: String,
    /// The fields in the order of their declaration.
    pub fields: Vec<Field>,
    /// The initialization name: the default, or what an option set.
    pub init_name: String,
    /// The name of the default implementor type: the default, or what an
    /// option set.
    pub handle_name: String,
}

/// The mathematical value of [`Args`].
pub struct ArgsView {
    pub surface: Surface,
    pub trait_name: Seq<char>,
    pub struct_name: Seq<char>,
    pub generic_param: Seq<char>,
    pub fields: Seq<FieldView>,
    pub init_name: Seq<char>,
    pub handle_name: Seq<char>,
}

impl View for Args {
    type V = ArgsView;

    open spec fn view(&self) -> ArgsView {
        ArgsView {
            surface: self.surface,
            trait_name: self.trait_name@,
            struct_name: self.struct_name@,
            generic_param: self.generic_param@,
            fields: field_views(self.fields@),
            init_name: self.init_name@,
            handle_name: self.handle_name@,
        }
    }
}

impl ArgsView {
    /// Whether the declaration keeps the rules beyond its grammar: its
    /// three names differ, no field clashes with a field of a generated
    /// record, and exactly one field is the handle field.
    pub open spec fn valid(self) -> bool {
        schema_rule(self) is Ok
    }

    /// The metadata fields, in the order of their declaration.
    pub open spec fn metadata(self) -> Seq<FieldView> {
        metadata_fields(self.fields, self.generic_param)
    }

    /// The handle fields, in the order of their declaration.
    pub open spec fn handles(self) -> Seq<FieldView> {
        handle_fields(self.fields, self.generic_param)
    }
}

/// The declaration with the given head and fields, its names resolved under
/// the given overrides.
pub open spec fn assembled(
    header: HeaderView,
    fields: Seq<FieldView>,
    overrides: OverridesView,
) -> ArgsView {
    let names = resolved(header.surface, header.trait_name, header.struct_name, overrides);
    ArgsView {
        surface: header.surface,
        trait_name: header.trait_name,
        struct_name: header.struct_name,
        generic_param: header.generic_param,
        fields,
        init_name: names.init_name,
        handle_name: names.handle_name,
    }
}

/// The declaration that a token sequence spells, or the first rule that it
/// breaks: the head, the braces at index 6 with the fields inside, the
/// separator and the options, and at last the rules beyond the grammar.
pub open spec fn declaration_of(trees: Seq<proc_macro2::TokenTree>) -> Result<ArgsView, Error> {
    let lexemes = lexemes_of(trees);
    match header_of(lexemes) {
        Err(e) => Err(e),
        Ok(header) => if !(6 < trees.len() && braced_tokens(trees[6]) is Some) {
            Err(outer(Rule::Braces, 6))
        } else {
            match fields_of(braced_tokens(trees[6])->0) {
                Err(e) => Err(e),
                Ok(fields) => match options_of(lexemes, header.surface) {
                    Err(e) => Err(e),
                    Ok(overrides) => match schema_rule(assembled(header, fields, overrides)) {
                        Err(e) => Err(e),
                        Ok(_) => Ok(assembled(header, fields, overrides)),
                    },
                },
            }
        },
    }
}

/// A declaration that parses keeps the rules beyond the grammar: it has
/// exactly one handle field, and its fields are in the order in which they
/// are written.
pub proof fn parsed_declarations_are_valid(trees: Seq<proc_macro2::TokenTree>)
    requires
        declaration_of(trees) is Ok,
    ensures
        declaration_of(trees)->Ok_0.valid(),
        declaration_of(trees)->Ok_0.handles().len() == 1,
        fields_of(braced_tokens(trees[6])->0) == Ok::<Seq<FieldView>, Error>(
            declaration_of(trees)->Ok_0.fields,
        ),
{
}

/// The view of a parsed declaration or its diagnostic.
pub open spec fn args_outcome(outcome: Result<Args, Error>) -> Result<ArgsView, Error> {
    match outcome {
        Ok(args) => Ok(args@),
        Err(e) => Err(e),
    }
}

impl Args {
    /// Parses a declaration from its tokens.
    pub fn parse(tokens: &Vec<proc_macro2::TokenTree>) -> (outcome: Result<Args, Error>)
        ensures
            args_outcome(outcome) == declaration_of(tokens@),
    {
        let lexemes = read_lexemes(tokens);
        let header = match Header::parse(&lexemes) {
            Ok(header) => header,
            Err(e) => {
                return Err(e);
            },
        };
        if tokens.len() <= 6 {
            return Err(Error { rule: Rule::Braces, at: Location::Outer(6) });
        }
        let inside = match braced(&tokens[6]) {
            Some(inside) => inside,
            None => {
                return Err(Error { rule: Rule::Braces, at: Location::Outer(6) });
            },
        };
        let fields = match Field::parse_all(&inside) {
            Ok(fields) => fields,
            Err(e) => {
                return Err(e);
            },
        };
        let overrides = match Overrides::parse(&lexemes, header.surface) {
            Ok(overrides) => overrides,
            Err(e) => {
                return Err(e);
            },
        };
        let names = resolve(
            header.surface,
            header.trait_name.as_str(),
            header.struct_name.as_str(),
            overrides,
        );
        let args = Args {
            surface: header.surface,
            trait_name: header.trait_name,
            struct_name: header.struct_name,
            generic_param: header.generic_param,
            fields,
            init_name: names.init_name,
            handle_name: names.handle_name,
        };
        match args.check() {
            Ok(_) => Ok(args),
            Err(e) => Err(e),
        }
    }
}

} // verus!
