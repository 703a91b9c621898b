//! Registration sites: the grammar of a site, the check of its fields
//! against the declaration it registers with, and what it expands to.
//!
//! A site names an implementor type and assigns an expression to each
//! metadata field. It is written in one of three ways:
//!
//! ```text
//! Implementor Interface as Record { field = expr, ... }
//! Implementor { field = expr; ... }
//! field = expr; ...
//! ```
//!
//! The first stands alone. The other two are the forms of the registration
//! directive that a declaration of the interface-first surface generates;
//! they are read against that declaration.

use crate::args::{field_views, inner, name_at, outer, Args, ArgsView};
use crate::classify::{among_first, field_names, fields_step, metadata_fields, text_views};
use crate::error::{Error, Location, Rule};
use crate::syntax::{expression_at, expression_prefix, visibility_at, visibility_prefix};
use crate::token::{
    braced, braced_tokens, is_name, kind_of, lexemes_of, read_lexemes, text_of, token_is_name,
    token_kind, token_text, LexemeView, TokenKind,
};
use crate::expand::{factory_type, text_outcome};
use crate::naming::{init, init_of};
use vstd::prelude::*;
use vstd::string::StringExecFns;

verus! {

/// How the assignments of a site are written.
#[derive(Clone, Copy, Debug, PartialEq, Eq, Structural)]
pub enum Site {
    /// Inside the braces of a site that stands alone, separated by commas.
    Listed,
    /// Inside the braces of a registration directive, each ended by `;`.
    Braced,
    /// As the whole of a registration directive, each ended by `;`.
    Bare,
}

/// One assignment of a site: `name = value`.
#[derive(Clone, Debug)]
pub struct Assignment {
    /// The field's name.
    pub name: String,
    /// The expression, as text.
    pub value: String,
    /// The index of the name's token among the tokens of the assignments.
    pub at: usize,
}

/// The mathematical value of an [`Assignment`].
pub struct AssignmentView {
    pub name: Seq<char>,
    pub value: Seq<char>,
    pub at: nat,
}

impl View for Assignment {
    type V = AssignmentView;

    open spec fn view(&self) -> AssignmentView {
        AssignmentView { name: self.name@, value: self.value@, at: self.at as nat }
    }
}

/// The values of a sequence of assignments.
pub open spec fn assignment_views(assignments: Seq<Assignment>) -> Seq<AssignmentView> {
    assignments.map_values(|a: Assignment| a@)
}

/// A registration site.
#[derive(Clone, Debug)]
pub struct EmitArgs {
    /// How the site's assignments are written.
    pub site: Site,
    /// The implementor type that the site declares.
    pub handle_name: String,
    /// The interface that the implementor is registered for.
    pub trait_name: String,
    /// The record that the site registers.
    pub plugin_name: String,
    /// The index of the site's braces among its tokens; 0 for a site
    /// without braces.
    pub body_at: usize,
    /// The assignments in the order in which they are written.
    pub fields: Vec<Assignment>,
}

/// The mathematical value of [`EmitArgs`].
pub struct EmitArgsView {
    pub site: Site,
    pub handle_name: Seq<char>,
    pub trait_name: Seq<char>,
    pub plugin_name: Seq<char>,
    pub body_at: nat,
    pub fields: Seq<AssignmentView>,
}

impl View for EmitArgs {
    type V = EmitArgsView;

    open spec fn view(&self) -> EmitArgsView {
        EmitArgsView {
            site: self.site,
            handle_name: self.handle_name@,
            trait_name: self.trait_name@,
            plugin_name: self.plugin_name@,
            body_at: self.body_at as nat,
            fields: assignment_views(self.fields@),
        }
    }
}

/// The diagnostic for a rule broken at a token of the assignments.
pub open spec fn among(site: Site, rule: Rule, i: int) -> Error {
    if site == Site::Bare {
        outer(rule, i)
    } else {
        inner(rule, i)
    }
}

/// The character that separates or ends the assignments.
pub open spec fn separator(site: Site) -> char {
    if site == Site::Listed {
        ','
    } else {
        ';'
    }
}

/// The rule that asks for the separator.
pub open spec fn separator_rule(site: Site) -> Rule {
    if site == Site::Listed {
        Rule::Comma
    } else {
        Rule::Semicolon
    }
}

/// The assignment `name = expression` that starts at index `p`, and the
/// index after it, or the first rule that the tokens there break.
pub open spec fn assignment_at(trees: Seq<proc_macro2::TokenTree>, p: int, site: Site) -> Result<
    (AssignmentView, int),
    Error,
> {
    if !(0 <= p < trees.len() && token_is_name(trees[p])) {
        Err(among(site, Rule::Identifier, p))
    } else if !(p + 1 < trees.len() && token_kind(trees[p + 1]) == TokenKind::Punct('=')) {
        Err(among(site, Rule::Equals, p + 1))
    } else {
        match expression_prefix(trees.skip(p + 2)) {
            Some((value, left)) => if left <= trees.len() - (p + 2) {
                Ok(
                    (
                        AssignmentView { name: token_text(trees[p]), value, at: p as nat },
                        trees.len() - left,
                    ),
                )
            } else {
                Err(among(site, Rule::Expression, p + 2))
            },
            None => Err(among(site, Rule::Expression, p + 2)),
        }
    }
}

/// The assignments that the tokens from index `p` on add to `found`. In a
/// site that stands alone they are separated by commas, and the last may be
/// followed by one; in a registration directive each is ended by `;`.
pub open spec fn assignments_from(
    trees: Seq<proc_macro2::TokenTree>,
    p: int,
    found: Seq<AssignmentView>,
    site: Site,
) -> Result<Seq<AssignmentView>, Error>
    decreases trees.len() - p,
{
    if p < 0 || p >= trees.len() {
        Ok(found)
    } else {
        match assignment_at(trees, p, site) {
            Err(e) => Err(e),
            Ok((assignment, next)) => {
                let more = found.push(assignment);
                if next >= trees.len() {
                    if site == Site::Listed {
                        Ok(more)
                    } else {
                        Err(among(site, Rule::Semicolon, next))
                    }
                } else if token_kind(trees[next]) != TokenKind::Punct(separator(site)) {
                    Err(among(site, separator_rule(site), next))
                } else {
                    assignments_from(trees, next + 1, more, site)
                }
            },
        }
    }
}

/// The assignments that a token sequence spells.
pub open spec fn assignments_of(trees: Seq<proc_macro2::TokenTree>, site: Site) -> Result<
    Seq<AssignmentView>,
    Error,
> {
    assignments_from(trees, 0, Seq::empty(), site)
}

/// Whether the word `as` stands at index `i`.
pub open spec fn as_at(lexemes: Seq<LexemeView>, i: int) -> bool {
    0 <= i < lexemes.len() && lexemes[i].kind == TokenKind::Word && lexemes[i].text == "as"@
}

/// The site that stands alone in a token sequence, or the first rule that
/// the sequence breaks: the implementor, the interface, `as`, the record,
/// the braces with the assignments inside, and nothing after them.
pub open spec fn emission_of(trees: Seq<proc_macro2::TokenTree>) -> Result<EmitArgsView, Error> {
    let lexemes = lexemes_of(trees);
    if !name_at(lexemes, 0) {
        Err(outer(Rule::Identifier, 0))
    } else if !name_at(lexemes, 1) {
        Err(outer(Rule::Identifier, 1))
    } else if !as_at(lexemes, 2) {
        Err(outer(Rule::As, 2))
    } else if !name_at(lexemes, 3) {
        Err(outer(Rule::Identifier, 3))
    } else if !(4 < trees.len() && braced_tokens(trees[4]) is Some) {
        Err(outer(Rule::Braces, 4))
    } else {
        match assignments_of(braced_tokens(trees[4])->0, Site::Listed) {
            Err(e) => Err(e),
            Ok(fields) => if trees.len() > 5 {
                Err(outer(Rule::End, 5))
            } else {
                Ok(
                    EmitArgsView {
                        site: Site::Listed,
                        handle_name: lexemes[0].text,
                        trait_name: lexemes[1].text,
                        plugin_name: lexemes[3].text,
                        body_at: 4,
                        fields,
                    },
                )
            },
        }
    }
}

/// The view of a parsed site or its diagnostic.
pub open spec fn emit_outcome(outcome: Result<EmitArgs, Error>) -> Result<EmitArgsView, Error> {
    match outcome {
        Ok(site) => Ok(site@),
        Err(e) => Err(e),
    }
}

/// The diagnostic for a rule broken at a token of the assignments.
fn broken(site: Site, rule: Rule, i: usize) -> (e: Error)
    ensures
        e == among(site, rule, i as int),
{
    match site {
        Site::Bare => Error { rule, at: Location::Outer(i) },
        _ => Error { rule, at: Location::Inner(i) },
    }
}

impl Assignment {
    /// Parses the assignment that starts at index `p`.
    pub fn parse(tokens: &Vec<proc_macro2::TokenTree>, p: usize, site: Site) -> (outcome: Result<
        (Assignment, usize),
        Error,
    >)
        requires
            p <= tokens.len(),
        ensures
            match outcome {
                Ok((a, next)) => assignment_at(tokens@, p as int, site) == Ok::<
                    (AssignmentView, int),
                    Error,
                >((a@, next as int)),
                Err(e) => assignment_at(tokens@, p as int, site) == Err::<
                    (AssignmentView, int),
                    Error,
                >(e),
            },
            outcome matches Ok((_, next)) ==> p + 2 <= next <= tokens.len(),
    {
        let len = tokens.len();
        if p >= len || !is_name(&tokens[p]) {
            return Err(broken(site, Rule::Identifier, p));
        }
        if len - p < 2 || kind_of(&tokens[p + 1]) != TokenKind::Punct('=') {
            return Err(broken(site, Rule::Equals, p + 1));
        }
        match expression_at(tokens, p + 2) {
            Some((value, left)) => {
                if left <= len - (p + 2) {
                    Ok((Assignment { name: text_of(&tokens[p]), value, at: p }, len - left))
                } else {
                    Err(broken(site, Rule::Expression, p + 2))
                }
            },
            None => Err(broken(site, Rule::Expression, p + 2)),
        }
    }

    /// Parses the assignments that a token sequence spells.
    pub fn parse_all(tokens: &Vec<proc_macro2::TokenTree>, site: Site) -> (outcome: Result<
        Vec<Assignment>,
        Error,
    >)
        ensures
            match outcome {
                Ok(found) => assignments_of(tokens@, site) == Ok::<Seq<AssignmentView>, Error>(
                    assignment_views(found@),
                ),
                Err(e) => assignments_of(tokens@, site) == Err::<Seq<AssignmentView>, Error>(e),
            },
    {
        let len = tokens.len();
        let mut found: Vec<Assignment> = Vec::new();
        let mut p: usize = 0;
        assert(assignment_views(found@) =~= Seq::empty());
        while p < len
            invariant
                len == tokens.len(),
                assignments_of(tokens@, site) == assignments_from(
                    tokens@,
                    p as int,
                    assignment_views(found@),
                    site,
                ),
            decreases len - p,
        {
            let (assignment, next) = match Assignment::parse(tokens, p, site) {
                Ok(parsed) => parsed,
                Err(e) => {
                    return Err(e);
                },
            };
            let ghost before = assignment_views(found@);
            found.push(assignment);
            assert(assignment_views(found@) =~= before.push(assignment@));
            if next >= len {
                match site {
                    Site::Listed => {
                        return Ok(found);
                    },
                    _ => {
                        return Err(broken(site, Rule::Semicolon, next));
                    },
                }
            }
            match site {
                Site::Listed => {
                    if kind_of(&tokens[next]) != TokenKind::Punct(',') {
                        return Err(broken(site, Rule::Comma, next));
                    }
                },
                _ => {
                    if kind_of(&tokens[next]) != TokenKind::Punct(';') {
                        return Err(broken(site, Rule::Semicolon, next));
                    }
                },
            }
            p = next + 1;
        }
        Ok(found)
    }
}

impl EmitArgs {
    /// Parses a site that stands alone.
    pub fn parse(tokens: &Vec<proc_macro2::TokenTree>) -> (outcome: Result<EmitArgs, Error>)
        ensures
            emit_outcome(outcome) == emission_of(tokens@),
    {
        let lexemes = read_lexemes(tokens);
        let n = lexemes.len();
        if !(0 < n && lexemes[0].name) {
            return Err(Error { rule: Rule::Identifier, at: Location::Outer(0) });
        }
        if !(1 < n && lexemes[1].name) {
            return Err(Error { rule: Rule::Identifier, at: Location::Outer(1) });
        }
        let word = String::from_str("as");
        if !(2 < n && lexemes[2].kind == TokenKind::Word && lexemes[2].text == word) {
            return Err(Error { rule: Rule::As, at: Location::Outer(2) });
        }
        if !(3 < n && lexemes[3].name) {
            return Err(Error { rule: Rule::Identifier, at: Location::Outer(3) });
        }
        if tokens.len() <= 4 {
            return Err(Error { rule: Rule::Braces, at: Location::Outer(4) });
        }
        let inside = match braced(&tokens[4]) {
            Some(inside) => inside,
            None => {
                return Err(Error { rule: Rule::Braces, at: Location::Outer(4) });
            },
        };
        let fields = match Assignment::parse_all(&inside, Site::Listed) {
            Ok(fields) => fields,
            Err(e) => {
                return Err(e);
            },
        };
        if tokens.len() > 5 {
            return Err(Error { rule: Rule::End, at: Location::Outer(5) });
        }
        Ok(
            EmitArgs {
                site: Site::Listed,
                handle_name: lexemes[0].text.clone(),
                trait_name: lexemes[1].text.clone(),
                plugin_name: lexemes[3].text.clone(),
                body_at: 4,
                fields,
            },
        )
    }
}

/// The names that assignments assign to.
pub open spec fn assigned_names(assignments: Seq<AssignmentView>) -> Seq<Seq<char>> {
    assignments.map_values(|a: AssignmentView| a.name)
}

/// The first assignment from index `i` on that assigns to no declared
/// metadata field, or to a field that an earlier assignment assigns to,
/// with its diagnostic.
pub open spec fn stray_from(
    assignments: Seq<AssignmentView>,
    declared: Seq<Seq<char>>,
    i: int,
    site: Site,
) -> Option<Error>
    decreases assignments.len() - i,
{
    if i < 0 || i >= assignments.len() {
        None
    } else if !declared.contains(assignments[i].name) {
        Some(among(site, Rule::DeclaredField, assignments[i].at as int))
    } else if assigned_names(assignments).take(i).contains(assignments[i].name) {
        Some(among(site, Rule::FieldOnce, assignments[i].at as int))
    } else {
        stray_from(assignments, declared, i + 1, site)
    }
}

/// Whether every declared name is assigned to.
pub open spec fn all_assigned(declared: Seq<Seq<char>>, assigned: Seq<Seq<char>>) -> bool {
    forall|j: int| 0 <= j < declared.len() ==> assigned.contains(#[trigger] declared[j])
}

/// The first assignment from index `i` on that is not the one for the
/// declared field of the same index, with its diagnostic.
pub open spec fn disorder_from(
    assignments: Seq<AssignmentView>,
    declared: Seq<Seq<char>>,
    i: int,
    site: Site,
) -> Option<Error>
    decreases assignments.len() - i,
{
    if i < 0 || i >= assignments.len() {
        None
    } else if i >= declared.len() || assignments[i].name != declared[i] {
        Some(among(site, Rule::FieldOrder, assignments[i].at as int))
    } else {
        disorder_from(assignments, declared, i + 1, site)
    }
}

/// The rule of the fields of a site: every assignment is for a metadata
/// field of the declaration, no field is assigned twice, every metadata
/// field is assigned, and in a registration directive the assignments come
/// in the order of the declaration. The diagnostic for a metadata field
/// that is left out stands at the site's braces.
pub open spec fn field_rule(site: EmitArgsView, schema: ArgsView) -> Result<(), Error> {
    let declared = field_names(schema.metadata());
    match stray_from(site.fields, declared, 0, site.site) {
        Some(e) => Err(e),
        None => if !all_assigned(declared, assigned_names(site.fields)) {
            Err(outer(Rule::EveryField, site.body_at as int))
        } else if site.site == Site::Listed {
            Ok(())
        } else {
            match disorder_from(site.fields, declared, 0, site.site) {
                Some(e) => Err(e),
                None => Ok(()),
            }
        },
    }
}

impl Args {
    /// The names of the metadata fields, in the order of their declaration.
    pub fn metadata_names(&self) -> (names: Vec<String>)
        ensures
            text_views(names@) == field_names(self@.metadata()),
    {
        let ghost all = field_views(self.fields@);
        let mut names: Vec<String> = Vec::new();
        let mut i: usize = 0;
        assert(all.take(0) =~= Seq::empty());
        assert(text_views(names@) =~= field_names(
            metadata_fields(all.take(0), self.generic_param@),
        ));
        while i < self.fields.len()
            invariant
                i <= self.fields.len(),
                all == field_views(self.fields@),
                text_views(names@) == field_names(
                    metadata_fields(all.take(i as int), self.generic_param@),
                ),
            decreases self.fields.len() - i,
        {
            proof {
                fields_step(all, self.generic_param@, i as int);
            }
            if !self.fields[i].is_handle(&self.generic_param) {
                let ghost before = text_views(names@);
                names.push(self.fields[i].name.clone());
                assert(text_views(names@) =~= before.push(self.fields[i as int].name@));
                assert(field_names(
                    metadata_fields(all.take(i as int), self.generic_param@).push(all[i as int]),
                ) =~= before.push(all[i as int].name));
            }
            i += 1;
        }
        assert(all.take(i as int) =~= all);
        names
    }
}

impl EmitArgs {
    /// The names that the site assigns to, in the order in which they are
    /// written.
    pub fn assigned_names(&self) -> (names: Vec<String>)
        ensures
            text_views(names@) == assigned_names(self@.fields),
    {
        let mut names: Vec<String> = Vec::new();
        let mut i: usize = 0;
        while i < self.fields.len()
            invariant
                i <= self.fields.len(),
                names.len() == i,
                forall|j: int| 0 <= j < i ==> (#[trigger] names[j])@ == self.fields[j].name@,
            decreases self.fields.len() - i,
        {
            names.push(self.fields[i].name.clone());
            i += 1;
        }
        assert(text_views(names@) =~= assigned_names(self@.fields));
        names
    }

    /// Checks the rule of the fields of a site against the declaration that
    /// the site registers with.
    pub fn check(&self, schema: &Args) -> (outcome: Result<(), Error>)
        ensures
            outcome == field_rule(self@, schema@),
    {
        let declared = schema.metadata_names();
        let assigned = self.assigned_names();
        let ghost d = field_names(schema@.metadata());
        let ghost a = self@.fields;
        let site = self.site;
        assert(text_views(declared@).take(declared.len() as int) =~= d);
        assert(text_views(assigned@).take(assigned.len() as int) =~= assigned_names(a));
        let mut i: usize = 0;
        while i < self.fields.len()
            invariant
                i <= self.fields.len(),
                a == self@.fields,
                d == field_names(schema@.metadata()),
                text_views(declared@) == d,
                text_views(assigned@) == assigned_names(a),
                assigned.len() == self.fields.len(),
                text_views(declared@).take(declared.len() as int) == d,
                site == self.site,
                stray_from(a, d, 0, site) == stray_from(a, d, i as int, site),
            decreases self.fields.len() - i,
        {
            let name = &self.fields[i].name;
            assert(a[i as int] == self.fields[i as int]@);
            if !among_first(&declared, declared.len(), name) {
                return Err(broken(site, Rule::DeclaredField, self.fields[i].at));
            }
            if among_first(&assigned, i, name) {
                return Err(broken(site, Rule::FieldOnce, self.fields[i].at));
            }
            i += 1;
        }
        let mut j: usize = 0;
        while j < declared.len()
            invariant
                j <= declared.len(),
                text_views(declared@) == d,
                text_views(assigned@) == assigned_names(a),
                text_views(assigned@).take(assigned.len() as int) == assigned_names(a),
                forall|k: int| 0 <= k < j ==> assigned_names(a).contains(#[trigger] d[k]),
                a == self@.fields,
                d == field_names(schema@.metadata()),
                site == self.site,
                stray_from(a, d, 0, site) is None,
            decreases declared.len() - j,
        {
            if !among_first(&assigned, assigned.len(), &declared[j]) {
                assert(d[j as int] == declared[j as int]@);
                return Err(Error { rule: Rule::EveryField, at: Location::Outer(self.body_at) });
            }
            assert(d[j as int] == declared[j as int]@);
            j += 1;
        }
        assert(all_assigned(d, assigned_names(a)));
        match site {
            Site::Listed => {
                return Ok(());
            },
            _ => {},
        }
        let mut k: usize = 0;
        while k < self.fields.len()
            invariant
                k <= self.fields.len(),
                a == self@.fields,
                text_views(declared@) == d,
                disorder_from(a, d, 0, site) == disorder_from(a, d, k as int, site),
                d == field_names(schema@.metadata()),
                site == self.site,
                site != Site::Listed,
                stray_from(a, d, 0, site) is None,
                all_assigned(d, assigned_names(a)),
            decreases self.fields.len() - k,
        {
            assert(a[k as int] == self.fields[k as int]@);
            if k >= declared.len() || self.fields[k].name != declared[k] {
                assert(k < declared.len() ==> d[k as int] == declared[k as int]@);
                return Err(broken(site, Rule::FieldOrder, self.fields[k].at));
            }
            assert(d[k as int] == declared[k as int]@);
            k += 1;
        }
        Ok(())
    }
}

/// The site that a registration directive spells for a declaration, or the
/// first rule that it breaks. A directive that is empty, or whose second
/// token is `=`, holds the assignments alone and registers the
/// declaration's default implementor type. Any other directive holds a
/// visibility, the implementor's name and the assignments in braces.
pub open spec fn directive_of(trees: Seq<proc_macro2::TokenTree>, schema: ArgsView) -> Result<
    EmitArgsView,
    Error,
> {
    if trees.len() == 0 || (1 < trees.len() && token_kind(trees[1]) == TokenKind::Punct('=')) {
        match assignments_of(trees, Site::Bare) {
            Err(e) => Err(e),
            Ok(fields) => Ok(
                EmitArgsView {
                    site: Site::Bare,
                    handle_name: schema.handle_name,
                    trait_name: schema.trait_name,
                    plugin_name: schema.struct_name,
                    body_at: 0,
                    fields,
                },
            ),
        }
    } else {
        match visibility_prefix(trees.skip(0)) {
            Some((vis, left)) => if left <= trees.len() {
                let n = trees.len() - left;
                if !(n < trees.len() && token_is_name(trees[n])) {
                    Err(outer(Rule::Identifier, n))
                } else if !(n + 1 < trees.len() && braced_tokens(trees[n + 1]) is Some) {
                    Err(outer(Rule::Braces, n + 1))
                } else {
                    match assignments_of(braced_tokens(trees[n + 1])->0, Site::Braced) {
                        Err(e) => Err(e),
                        Ok(fields) => if trees.len() > n + 2 {
                            Err(outer(Rule::End, n + 2))
                        } else {
                            Ok(
                                EmitArgsView {
                                    site: Site::Braced,
                                    handle_name: token_text(trees[n]),
                                    trait_name: schema.trait_name,
                                    plugin_name: schema.struct_name,
                                    body_at: (n + 1) as nat,
                                    fields,
                                },
                            )
                        },
                    }
                }
            } else {
                Err(outer(Rule::Visibility, 0))
            },
            None => Err(outer(Rule::Visibility, 0)),
        }
    }
}

/// The fields of the record that a site submits, as they are written in a
/// record expression: `name: value,` for each assignment.
pub open spec fn initializers(assignments: Seq<AssignmentView>) -> Seq<char>
    decreases assignments.len(),
{
    if assignments.len() == 0 {
        Seq::empty()
    } else {
        initializers(assignments.drop_last()) + (assignments.last().name + ": "@
            + assignments.last().value + ", "@)
    }
}

/// The fields of the record that a site submits, as they are handed to the
/// record's constructor: `value,` for each assignment.
pub open spec fn arguments(assignments: Seq<AssignmentView>) -> Seq<char>
    decreases assignments.len(),
{
    if assignments.len() == 0 {
        Seq::empty()
    } else {
        arguments(assignments.drop_last()) + (assignments.last().value + ", "@)
    }
}

/// The implementor type that a site declares, and the factory that boxes
/// an instance of it.
pub open spec fn implementor(site: EmitArgsView) -> Seq<char> {
    "struct "@ + site.handle_name + "; fn get() -> Box<dyn "@ + site.trait_name
        + "> { Box::new("@ + site.handle_name + ") } "@
}

/// What a site that keeps the rule of its fields expands to: the
/// implementor type, its factory, and the record with the site's
/// expressions and the factory, submitted to the registry. A site that stands alone writes the record of the record-first
/// surface out; a registration directive calls the constructor of the
/// record of the interface-first surface.
pub open spec fn emission_expansion(site: EmitArgsView) -> Seq<char> {
    if site.site == Site::Listed {
        implementor(site) + "inventory::submit! { "@ + init_of(site.plugin_name) + " { "@
            + initializers(site.fields) + "__get: get } }"@
    } else {
        implementor(site) + "inventory::submit! { "@ + site.plugin_name + "::<"@ + factory_type(
            site.trait_name,
        ) + ">::new( "@ + arguments(site.fields) + "get ) }"@
    }
}

/// What a site expands to where it registers with the declaration
/// `schema`: its expansion where its fields are the metadata fields of the
/// declaration, the diagnostic of the rule of the fields where they are
/// not.
pub open spec fn checked_emission(site: EmitArgsView, schema: ArgsView) -> Result<
    Seq<char>,
    Error,
> {
    match field_rule(site, schema) {
        Err(e) => Err(e),
        Ok(_) => Ok(emission_expansion(site)),
    }
}

impl EmitArgs {
    /// Parses a registration directive of the declaration `schema`.
    pub fn parse_directive(tokens: &Vec<proc_macro2::TokenTree>, schema: &Args) -> (outcome:
        Result<EmitArgs, Error>)
        ensures
            emit_outcome(outcome) == directive_of(tokens@, schema@),
    {
        let len = tokens.len();
        if len == 0 || (1 < len && kind_of(&tokens[1]) == TokenKind::Punct('=')) {
            let fields = match Assignment::parse_all(tokens, Site::Bare) {
                Ok(fields) => fields,
                Err(e) => {
                    return Err(e);
                },
            };
            return Ok(
                EmitArgs {
                    site: Site::Bare,
                    handle_name: schema.handle_name.clone(),
                    trait_name: schema.trait_name.clone(),
                    plugin_name: schema.struct_name.clone(),
                    body_at: 0,
                    fields,
                },
            );
        }
        let left = match visibility_at(tokens, 0) {
            Some((_, left)) => left,
            None => {
                return Err(Error { rule: Rule::Visibility, at: Location::Outer(0) });
            },
        };
        if left > len {
            return Err(Error { rule: Rule::Visibility, at: Location::Outer(0) });
        }
        let n = len - left;
        if n >= len || !is_name(&tokens[n]) {
            return Err(Error { rule: Rule::Identifier, at: Location::Outer(n) });
        }
        if len - n < 2 {
            return Err(Error { rule: Rule::Braces, at: Location::Outer(n + 1) });
        }
        let inside = match braced(&tokens[n + 1]) {
            Some(inside) => inside,
            None => {
                return Err(Error { rule: Rule::Braces, at: Location::Outer(n + 1) });
            },
        };
        let fields = match Assignment::parse_all(&inside, Site::Braced) {
            Ok(fields) => fields,
            Err(e) => {
                return Err(e);
            },
        };
        if len - n > 2 {
            return Err(Error { rule: Rule::End, at: Location::Outer(n + 2) });
        }
        Ok(
            EmitArgs {
                site: Site::Braced,
                handle_name: text_of(&tokens[n]),
                trait_name: schema.trait_name.clone(),
                plugin_name: schema.struct_name.clone(),
                body_at: n + 1,
                fields,
            },
        )
    }

    /// The fields of the submitted record as they are written in a record
    /// expression.
    fn initializers(&self) -> (text: String)
        ensures
            text@ == initializers(self@.fields),
    {
        let ghost all = self@.fields;
        let mut text = String::new();
        let mut i: usize = 0;
        assert(all.take(0) =~= Seq::empty());
        while i < self.fields.len()
            invariant
                i <= self.fields.len(),
                all == self@.fields,
                text@ == initializers(all.take(i as int)),
            decreases self.fields.len() - i,
        {
            assert(all.take(i + 1).drop_last() =~= all.take(i as int));
            assert(all.take(i + 1).last() == self.fields[i as int]@);
            let mut piece = self.fields[i].name.clone();
            piece.append(": ");
            piece.append(self.fields[i].value.as_str());
            piece.append(", ");
            text.append(piece.as_str());
            i += 1;
        }
        assert(all.take(i as int) =~= all);
        text
    }

    /// The fields of the submitted record as they are handed to the
    /// record's constructor.
    fn arguments(&self) -> (text: String)
        ensures
            text@ == arguments(self@.fields),
    {
        let ghost all = self@.fields;
        let mut text = String::new();
        let mut i: usize = 0;
        assert(all.take(0) =~= Seq::empty());
        while i < self.fields.len()
            invariant
                i <= self.fields.len(),
                all == self@.fields,
                text@ == arguments(all.take(i as int)),
            decreases self.fields.len() - i,
        {
            assert(all.take(i + 1).drop_last() =~= all.take(i as int));
            assert(all.take(i + 1).last() == self.fields[i as int]@);
            let mut piece = self.fields[i].value.clone();
            piece.append(", ");
            text.append(piece.as_str());
            i += 1;
        }
        assert(all.take(i as int) =~= all);
        text
    }

    /// What a site that keeps the rule of its fields expands to.
    fn expansion(&self) -> (text: String)
        ensures
            text@ == emission_expansion(self@),
    {
        let mut text = String::from_str("struct ");
        text.append(self.handle_name.as_str());
        text.append("; fn get() -> Box<dyn ");
        text.append(self.trait_name.as_str());
        text.append("> { Box::new(");
        text.append(self.handle_name.as_str());
        text.append(") } ");
        match self.site {
            Site::Listed => {
                text.append("inventory::submit! { ");
                text.append(init(self.plugin_name.as_str()).as_str());
                text.append(" { ");
                text.append(self.initializers().as_str());
                text.append("__get: get } }");
            },
            _ => {
                let mut factory = String::from_str("fn() -> Box<dyn ");
                factory.append(self.trait_name.as_str());
                factory.append(">");
                text.append("inventory::submit! { ");
                text.append(self.plugin_name.as_str());
                text.append("::<");
                text.append(factory.as_str());
                text.append(">::new( ");
                text.append(self.arguments().as_str());
                text.append("get ) }");
            },
        }
        text
    }

    /// What the site expands to where it registers with the declaration
    /// `schema`, or the diagnostic of the rule of the fields that it breaks.
    pub fn expand(&self, schema: &Args) -> (outcome: Result<String, Error>)
        ensures
            text_outcome(outcome) == checked_emission(self@, schema@),
    {
        match self.check(schema) {
            Ok(_) => Ok(self.expansion()),
            Err(e) => Err(e),
        }
    }

    /// Appends what the site expands to, where its fields are the metadata
    /// fields of the declaration `schema`; leaves the text as it is and
    /// gives the diagnostic where they are not.
    pub fn to_tokens(&self, schema: &Args, tokens: &mut String) -> (outcome: Result<(), Error>)
        ensures
            outcome == field_rule(self@, schema@),
            final(tokens)@ == match outcome {
                Ok(_) => old(tokens)@ + emission_expansion(self@),
                Err(_) => old(tokens)@,
            },
    {
        match self.expand(schema) {
            Ok(text) => {
                tokens.append(text.as_str());
                Ok(())
            },
            Err(e) => Err(e),
        }
    }
}

} // verus!
