//! Telling the handle field from the metadata fields.
//!
//! A field is the handle field where its declared type, as text, is the
//! generic parameter of the declaration. A declaration has exactly one, its
//! three names differ from each other, and no two fields of the records it
//! generates have the same name.

use crate::args::{
    field_views, inner, outer, Args, ArgsView, Field, FieldView, RefOrTy, RefOrTyView,
};
use crate::error::{Error, Location, Rule};
use crate::naming::Surface;
use vstd::prelude::*;
use vstd::string::StringExecFns;

verus! {

/// A declared type as text: a type path as it is, a reference type as `&`,
/// its lifetime, `mut` and the type referred to.
pub open spec fn type_text(ty: RefOrTyView) -> Seq<char> {
    match ty {
        RefOrTyView::Ty(path) => path,
        RefOrTyView::Ref { lifetime, mutable, elem } => "& "@ + (match lifetime {
            Some(l) => l + " "@,
            None => Seq::empty(),
        }) + (if mutable {
            "mut "@
        } else {
            Seq::empty()
        }) + elem,
    }
}

/// Whether a field is a handle field: its declared type, as text, is the
/// generic parameter.
pub open spec fn is_handle(field: FieldView, generic: Seq<char>) -> bool {
    type_text(field.ty) == generic
}

/// The handle fields among `fields`, in the order of their declaration.
pub open spec fn handle_fields(fields: Seq<FieldView>, generic: Seq<char>) -> Seq<FieldView>
    decreases fields.len(),
{
    if fields.len() == 0 {
        Seq::empty()
    } else if is_handle(fields.last(), generic) {
        handle_fields(fields.drop_last(), generic).push(fields.last())
    } else {
        handle_fields(fields.drop_last(), generic)
    }
}

/// The metadata fields among `fields`, in the order of their declaration.
pub open spec fn metadata_fields(fields: Seq<FieldView>, generic: Seq<char>) -> Seq<FieldView>
    decreases fields.len(),
{
    if fields.len() == 0 {
        Seq::empty()
    } else if is_handle(fields.last(), generic) {
        metadata_fields(fields.drop_last(), generic)
    } else {
        metadata_fields(fields.drop_last(), generic).push(fields.last())
    }
}

/// The rule of the single handle: a diagnostic at the braces where no field
/// is a handle field, at the second handle field where there are several.
pub open spec fn handle_rule(fields: Seq<FieldView>, generic: Seq<char>) -> Result<(), Error> {
    let handles = handle_fields(fields, generic);
    if handles.len() == 0 {
        Err(outer(Rule::SomeHandle, 6))
    } else if handles.len() > 1 {
        Err(inner(Rule::OneHandle, handles[1].at as int))
    } else {
        Ok(())
    }
}

/// The views of a sequence of texts.
pub open spec fn text_views(texts: Seq<String>) -> Seq<Seq<char>> {
    texts.map_values(|t: String| t@)
}

/// The names of declared fields.
pub open spec fn field_names(fields: Seq<FieldView>) -> Seq<Seq<char>> {
    fields.map_values(|f: FieldView| f.name)
}

/// The three names of a declaration in the order in which they are
/// written: at the tokens 0, 2 and 4.
pub open spec fn written_names(args: ArgsView) -> (Seq<char>, Seq<char>, Seq<char>) {
    match args.surface {
        Surface::InterfaceFirst => (args.trait_name, args.struct_name, args.generic_param),
        Surface::RecordFirst => (args.struct_name, args.generic_param, args.trait_name),
    }
}

/// The rule of the names: the interface, the record and the generic
/// parameter differ from each other. The diagnostic stands at the later of
/// two names that are the same.
pub open spec fn names_rule(args: ArgsView) -> Result<(), Error> {
    let (first, second, third) = written_names(args);
    if second == first {
        Err(outer(Rule::DistinctNames, 2))
    } else if third == first || third == second {
        Err(outer(Rule::DistinctNames, 4))
    } else {
        Ok(())
    }
}

/// The name that the record-first surface gives the factory in the record
/// before materialization.
pub open spec fn factory_name() -> Seq<char> {
    "__get"@
}

/// Whether the field with index `i` clashes with a field of a generated
/// record: it has the name of an earlier field, or it is a metadata field
/// of the record-first surface with the name of the factory.
pub open spec fn clashes(fields: Seq<FieldView>, generic: Seq<char>, surface: Surface, i: int) -> bool {
    ||| field_names(fields).take(i).contains(fields[i].name)
    ||| surface == Surface::RecordFirst && !is_handle(fields[i], generic) && fields[i].name
        == factory_name()
}

/// The first field from index `i` on that clashes, with its diagnostic.
pub open spec fn clash_from(
    fields: Seq<FieldView>,
    generic: Seq<char>,
    surface: Surface,
    i: int,
) -> Option<Error>
    decreases fields.len() - i,
{
    if i < 0 || i >= fields.len() {
        None
    } else if clashes(fields, generic, surface, i) {
        Some(inner(Rule::UniqueField, fields[i].at as int))
    } else {
        clash_from(fields, generic, surface, i + 1)
    }
}

/// The rules of a declaration beyond its grammar, in the order in which
/// they are checked: the rule of the names, the rule that no field clashes,
/// the rule of the single handle.
pub open spec fn schema_rule(args: ArgsView) -> Result<(), Error> {
    match names_rule(args) {
        Err(e) => Err(e),
        Ok(_) => match clash_from(args.fields, args.generic_param, args.surface, 0) {
            Some(e) => Err(e),
            None => handle_rule(args.fields, args.generic_param),
        },
    }
}

/// Where no field from index `i` on clashes, none of them does.
pub proof fn no_clash_from(
    fields: Seq<FieldView>,
    generic: Seq<char>,
    surface: Surface,
    i: int,
    k: int,
)
    requires
        0 <= i <= k < fields.len(),
        clash_from(fields, generic, surface, i) is None,
    ensures
        !clashes(fields, generic, surface, k),
    decreases k - i,
{
    if i < k {
        no_clash_from(fields, generic, surface, i + 1, k);
    }
}

/// A declaration that keeps its rules has three names that differ from
/// each other, fields whose names differ from each other, and exactly one
/// handle field.
pub proof fn valid_declarations_have_distinct_names(args: ArgsView)
    requires
        args.valid(),
    ensures
        args.trait_name != args.struct_name,
        args.trait_name != args.generic_param,
        args.struct_name != args.generic_param,
        field_names(args.fields).no_duplicates(),
        handle_fields(args.fields, args.generic_param).len() == 1,
{
    let names = field_names(args.fields);
    assert forall|i: int, j: int| 0 <= i < names.len() && 0 <= j < names.len() && i
        != j implies names[i] != names[j] by {
        let (low, high) = if i < j {
            (i, j)
        } else {
            (j, i)
        };
        no_clash_from(args.fields, args.generic_param, args.surface, 0, high);
        if names[low] == names[high] {
            assert(names.take(high)[low] == args.fields[high].name);
        }
    }
}

/// Every field is either a handle field or a metadata field.
pub proof fn fields_are_partitioned(fields: Seq<FieldView>, generic: Seq<char>)
    ensures
        handle_fields(fields, generic).len() + metadata_fields(fields, generic).len()
            == fields.len(),
    decreases fields.len(),
{
    if fields.len() > 0 {
        fields_are_partitioned(fields.drop_last(), generic);
    }
}

/// The handle fields of the first `k` fields are the first handle fields of
/// all of them.
proof fn handle_fields_grow(fields: Seq<FieldView>, generic: Seq<char>, k: int)
    requires
        0 <= k <= fields.len(),
    ensures
        handle_fields(fields.take(k), generic).len() <= handle_fields(fields, generic).len(),
        handle_fields(fields.take(k), generic) == handle_fields(fields, generic).take(
            handle_fields(fields.take(k), generic).len() as int,
        ),
    decreases fields.len(),
{
    if k == fields.len() {
        assert(fields.take(k) =~= fields);
        assert(handle_fields(fields, generic).take(handle_fields(fields, generic).len() as int)
            =~= handle_fields(fields, generic));
    } else {
        handle_fields_grow(fields.drop_last(), generic, k);
        assert(fields.drop_last().take(k) =~= fields.take(k));
        let shorter = handle_fields(fields.drop_last(), generic);
        let some = handle_fields(fields.take(k), generic);
        if is_handle(fields.last(), generic) {
            assert(shorter.push(fields.last()).take(some.len() as int) =~= shorter.take(
                some.len() as int,
            ));
        }
    }
}

/// One more field adds to the handle fields exactly where it is one.
pub proof fn fields_step(fields: Seq<FieldView>, generic: Seq<char>, i: int)
    requires
        0 <= i < fields.len(),
    ensures
        handle_fields(fields.take(i + 1), generic) == if is_handle(fields[i], generic) {
            handle_fields(fields.take(i), generic).push(fields[i])
        } else {
            handle_fields(fields.take(i), generic)
        },
        metadata_fields(fields.take(i + 1), generic) == if is_handle(fields[i], generic) {
            metadata_fields(fields.take(i), generic)
        } else {
            metadata_fields(fields.take(i), generic).push(fields[i])
        },
{
    assert(fields.take(i + 1).drop_last() =~= fields.take(i));
    assert(fields.take(i + 1).last() == fields[i]);
}

impl RefOrTy {
    /// Appends the declared type, as text.
    pub fn to_tokens(&self, tokens: &mut String)
        ensures
            final(tokens)@ == old(tokens)@ + type_text(self@),
    {
        match self {
            RefOrTy::Ty(path) => {
                tokens.append(path.as_str());
            },
            RefOrTy::Ref(r) => {
                let mut text = String::from_str("& ");
                match &r.lifetime {
                    Some(l) => {
                        text.append(l.as_str());
                        text.append(" ");
                    },
                    None => {
                        assert(text@ =~= "& "@ + Seq::<char>::empty());
                    },
                }
                if r.mutable {
                    text.append("mut ");
                } else {
                    assert(text@ =~= text@ + Seq::<char>::empty());
                }
                text.append(r.elem.as_str());
                assert(text@ == type_text(self@));
                tokens.append(text.as_str());
            },
        }
    }

    /// The declared type as text.
    pub fn text(&self) -> (text: String)
        ensures
            text@ == type_text(self@),
    {
        let mut text = String::new();
        self.to_tokens(&mut text);
        assert(text@ =~= type_text(self@));
        text
    }
}

impl Field {
    /// Whether the field is a handle field under the generic parameter
    /// `generic`.
    pub fn is_handle(&self, generic: &String) -> (handle: bool)
        ensures
            handle == is_handle(self@, generic@),
    {
        self.ty.text() == *generic
    }
}

/// Whether `text` is among the first `upto` of `texts`.
pub(crate) fn among_first(texts: &Vec<String>, upto: usize, text: &String) -> (found: bool)
    requires
        upto <= texts.len(),
    ensures
        found == text_views(texts@).take(upto as int).contains(text@),
{
    let ghost views = text_views(texts@).take(upto as int);
    let mut k: usize = 0;
    while k < upto
        invariant
            k <= upto <= texts.len(),
            views == text_views(texts@).take(upto as int),
            forall|j: int| 0 <= j < k ==> views[j] != text@,
        decreases upto - k,
    {
        if texts[k] == *text {
            assert(views[k as int] == text@);
            return true;
        }
        k += 1;
    }
    false
}

impl Args {
    /// The names of the fields, in the order of their declaration.
    pub fn field_names(&self) -> (names: Vec<String>)
        ensures
            text_views(names@) == field_names(self@.fields),
    {
        let mut names: Vec<String> = Vec::new();
        let mut i: usize = 0;
        while i < self.fields.len()
            invariant
                i <= self.fields.len(),
                names.len() == i,
                forall|j: int| 0 <= j < i ==> (#[trigger] names[j])@ == self.fields[j].name@,
            decreases self.fields.len() - i,
        {
            names.push(self.fields[i].name.clone());
            i += 1;
        }
        assert(text_views(names@) =~= field_names(self@.fields));
        names
    }

    /// Checks the rule of the names.
    pub fn check_names(&self) -> (outcome: Result<(), Error>)
        ensures
            outcome == names_rule(self@),
    {
        let (first, second, third) = match self.surface {
            Surface::InterfaceFirst => (&self.trait_name, &self.struct_name, &self.generic_param),
            Surface::RecordFirst => (&self.struct_name, &self.generic_param, &self.trait_name),
        };
        if *second == *first {
            Err(Error { rule: Rule::DistinctNames, at: Location::Outer(2) })
        } else if *third == *first || *third == *second {
            Err(Error { rule: Rule::DistinctNames, at: Location::Outer(4) })
        } else {
            Ok(())
        }
    }

    /// Checks that no field clashes with a field of a generated record.
    pub fn check_fields(&self) -> (outcome: Option<Error>)
        ensures
            outcome == clash_from(self@.fields, self.generic_param@, self.surface, 0),
    {
        let names = self.field_names();
        let reserved = String::from_str("__get");
        let ghost all = self@.fields;
        assert(names.len() == text_views(names@).len());
        assert(field_names(all).len() == self.fields.len());
        let mut i: usize = 0;
        while i < self.fields.len()
            invariant
                i <= self.fields.len(),
                all == self@.fields,
                names.len() == self.fields.len(),
                text_views(names@) == field_names(all),
                reserved@ == factory_name(),
                clash_from(all, self.generic_param@, self.surface, 0) == clash_from(
                    all,
                    self.generic_param@,
                    self.surface,
                    i as int,
                ),
            decreases self.fields.len() - i,
        {
            let field = &self.fields[i];
            assert(all[i as int] == field@);
            let taken = match self.surface {
                Surface::RecordFirst => !field.is_handle(&self.generic_param) && field.name
                    == reserved,
                Surface::InterfaceFirst => false,
            };
            if taken || among_first(&names, i, &field.name) {
                return Some(Error { rule: Rule::UniqueField, at: Location::Inner(field.at) });
            }
            i += 1;
        }
        None
    }

    /// Checks the rules of a declaration beyond its grammar.
    pub fn check(&self) -> (outcome: Result<(), Error>)
        ensures
            outcome == schema_rule(self@),
    {
        match self.check_names() {
            Ok(_) => {},
            Err(e) => {
                return Err(e);
            },
        }
        match self.check_fields() {
            Some(e) => {
                return Err(e);
            },
            None => {},
        }
        Args::check_handle(&self.fields, &self.generic_param)
    }

    /// Checks the rule of the single handle on declared fields.
    pub fn check_handle(fields: &Vec<Field>, generic: &String) -> (outcome: Result<(), Error>)
        ensures
            outcome == handle_rule(field_views(fields@), generic@),
    {
        let ghost all = field_views(fields@);
        let mut count: usize = 0;
        let mut i: usize = 0;
        assert(all.take(0) =~= Seq::empty());
        while i < fields.len()
            invariant
                i <= fields.len(),
                all == field_views(fields@),
                count <= 1,
                count == handle_fields(all.take(i as int), generic@).len(),
            decreases fields.len() - i,
        {
            proof {
                fields_step(all, generic@, i as int);
            }
            if fields[i].is_handle(generic) {
                if count == 1 {
                    proof {
                        handle_fields_grow(all, generic@, i + 1);
                        let seen = handle_fields(all.take(i + 1), generic@);
                        assert(seen.len() == 2);
                        assert(seen[1] == all[i as int]);
                        assert(handle_fields(all, generic@).take(2)[1] == seen[1]);
                        assert(all[i as int] == fields[i as int]@);
                    }
                    return Err(Error { rule: Rule::OneHandle, at: Location::Inner(fields[i].at) });
                }
                count = 1;
            }
            i += 1;
        }
        assert(all.take(i as int) =~= all);
        if count == 0 {
            Err(Error { rule: Rule::SomeHandle, at: Location::Outer(6) })
        } else {
            Ok(())
        }
    }
}

} // verus!
