//! Rendering the fields of a declaration: one piece of text for each field,
//! the pieces of the metadata fields first and those of the handle fields
//! after them.

use crate::args::{field_views, Args, Field, FieldView};
use crate::classify::{
    fields_step, handle_fields, is_handle, metadata_fields, text_views,
};
use vstd::prelude::*;
use vstd::string::StringExecFns;

verus! {

/// The pieces that `piece` gives for `fields`, one after the other.
pub open spec fn rendered(fields: Seq<FieldView>, piece: spec_fn(FieldView) -> Seq<char>) -> Seq<
    char,
>
    decreases fields.len(),
{
    if fields.len() == 0 {
        Seq::empty()
    } else {
        rendered(fields.drop_last(), piece) + piece(fields.last())
    }
}

/// The text for the fields of a declaration: the pieces that `metadata`
/// gives for the metadata fields, then the pieces that `handle` gives for
/// the handle fields.
pub open spec fn collected(
    fields: Seq<FieldView>,
    generic: Seq<char>,
    metadata: spec_fn(FieldView) -> Seq<char>,
    handle: spec_fn(FieldView) -> Seq<char>,
) -> Seq<char> {
    rendered(metadata_fields(fields, generic), metadata) + rendered(
        handle_fields(fields, generic),
        handle,
    )
}

/// Of one piece for each field, those of the handle fields or those of the
/// metadata fields, one after the other.
pub open spec fn selected(
    fields: Seq<FieldView>,
    generic: Seq<char>,
    pieces: Seq<Seq<char>>,
    handles: bool,
) -> Seq<char>
    decreases fields.len(),
{
    if fields.len() == 0 || pieces.len() != fields.len() {
        Seq::empty()
    } else if is_handle(fields.last(), generic) == handles {
        selected(fields.drop_last(), generic, pieces.drop_last(), handles) + pieces.last()
    } else {
        selected(fields.drop_last(), generic, pieces.drop_last(), handles)
    }
}

/// Whether `pieces` holds, for each field, a text that the function for
/// the field's class can give: `gh` for a handle field, `fh` for a metadata
/// field.
pub open spec fn pieces_of<F: Fn(&Field) -> String, G: Fn(&Field) -> String>(
    fields: Seq<Field>,
    generic: Seq<char>,
    fh: F,
    gh: G,
    pieces: Seq<String>,
) -> bool {
    &&& pieces.len() == fields.len()
    &&& forall|i: int|
        0 <= i < fields.len() ==> if is_handle(fields[i]@, generic) {
            call_ensures(gh, (&fields[i],), #[trigger] pieces[i])
        } else {
            call_ensures(fh, (&fields[i],), #[trigger] pieces[i])
        }
}

/// Whether a function on fields gives, for each field that it is called
/// on, the text that `piece` gives for the field's value.
pub open spec fn renders<F: Fn(&Field) -> String>(f: F, piece: spec_fn(FieldView) -> Seq<char>) -> bool {
    forall|field: &Field, text: String| #[trigger]
        call_ensures(f, (field,), text) ==> text@ == piece(field@)
}

/// One more field adds its piece.
pub proof fn rendered_push(
    fields: Seq<FieldView>,
    field: FieldView,
    piece: spec_fn(FieldView) -> Seq<char>,
)
    ensures
        rendered(fields.push(field), piece) == rendered(fields, piece) + piece(field),
{
    assert(fields.push(field).drop_last() =~= fields);
}

impl Args {
    /// Renders every field with the same function.
    pub fn collect_fields<F: Fn(&Field) -> String>(&self, f: &F, generic: &String) -> (text: String)
        requires
            forall|field: &Field| call_requires(*f, (field,)),
        ensures
            exists|pieces: Seq<String>| #[trigger]
                pieces_of(self.fields@, generic@, *f, *f, pieces) && text@ == selected(
                    field_views(self.fields@),
                    generic@,
                    text_views(pieces),
                    false,
                ) + selected(field_views(self.fields@), generic@, text_views(pieces), true),
            forall|piece: spec_fn(FieldView) -> Seq<char>| #[trigger]
                renders(*f, piece) ==> text@ == collected(
                    field_views(self.fields@),
                    generic@,
                    piece,
                    piece,
                ),
    {
        self.collect_fields_or_generic(f, f, generic.clone())
    }

    /// Renders the metadata fields with `fh` and the handle fields with
    /// `gh`, and puts the text for the handle fields last.
    pub fn collect_fields_or_generic<F: Fn(&Field) -> String, G: Fn(&Field) -> String>(
        &self,
        fh: &F,
        gh: &G,
        generic: String,
    ) -> (text: String)
        requires
            forall|field: &Field| call_requires(*fh, (field,)),
            forall|field: &Field| call_requires(*gh, (field,)),
        ensures
            exists|pieces: Seq<String>| #[trigger]
                pieces_of(self.fields@, generic@, *fh, *gh, pieces) && text@ == selected(
                    field_views(self.fields@),
                    generic@,
                    text_views(pieces),
                    false,
                ) + selected(field_views(self.fields@), generic@, text_views(pieces), true),
            forall|metadata: spec_fn(FieldView) -> Seq<char>, handle: spec_fn(FieldView) -> Seq<char>|
                #![trigger renders(*fh, metadata), renders(*gh, handle)]
                renders(*fh, metadata) && renders(*gh, handle) ==> text@ == collected(
                    field_views(self.fields@),
                    generic@,
                    metadata,
                    handle,
                ),
    {
        let ghost all = field_views(self.fields@);
        let ghost mut pieces: Seq<String> = Seq::empty();
        let mut tt = String::new();
        let mut gg = String::new();
        let mut i: usize = 0;
        assert(all.take(0) =~= Seq::empty());
        while i < self.fields.len()
            invariant
                i <= self.fields.len(),
                all == field_views(self.fields@),
                pieces_of(self.fields@.take(i as int), generic@, *fh, *gh, pieces),
                tt@ == selected(all.take(i as int), generic@, text_views(pieces), false),
                gg@ == selected(all.take(i as int), generic@, text_views(pieces), true),
                forall|field: &Field| call_requires(*fh, (field,)),
                forall|field: &Field| call_requires(*gh, (field,)),
                forall|metadata: spec_fn(FieldView) -> Seq<char>|
                    #![trigger renders(*fh, metadata)]
                    renders(*fh, metadata) ==> tt@ == rendered(
                        metadata_fields(all.take(i as int), generic@),
                        metadata,
                    ),
                forall|handle: spec_fn(FieldView) -> Seq<char>|
                    #![trigger renders(*gh, handle)]
                    renders(*gh, handle) ==> gg@ == rendered(
                        handle_fields(all.take(i as int), generic@),
                        handle,
                    ),
            decreases self.fields.len() - i,
        {
            let f = &self.fields[i];
            let ghost tt_before = tt@;
            let ghost gg_before = gg@;
            proof {
                fields_step(all, generic@, i as int);
            }
            let ghost before = pieces;
            if f.is_handle(&generic) {
                let piece = gh(f);
                gg.append(piece.as_str());
                proof {
                    pieces = pieces.push(piece);
                }
                assert forall|handle: spec_fn(FieldView) -> Seq<char>|
                    #![trigger renders(*gh, handle)]
                    renders(*gh, handle) implies gg@ == rendered(
                    handle_fields(all.take(i + 1), generic@),
                    handle,
                ) by {
                    rendered_push(handle_fields(all.take(i as int), generic@), f@, handle);
                }
            } else {
                let piece = fh(f);
                tt.append(piece.as_str());
                proof {
                    pieces = pieces.push(piece);
                }
                assert forall|metadata: spec_fn(FieldView) -> Seq<char>|
                    #![trigger renders(*fh, metadata)]
                    renders(*fh, metadata) implies tt@ == rendered(
                    metadata_fields(all.take(i + 1), generic@),
                    metadata,
                ) by {
                    rendered_push(metadata_fields(all.take(i as int), generic@), f@, metadata);
                }
            }
            proof {
                assert(all[i as int] == f@);
                assert(all.take(i + 1).drop_last() =~= all.take(i as int));
                assert(text_views(pieces).drop_last() =~= text_views(before));
                assert(text_views(pieces).last() == pieces.last()@);
                assert forall|k: int| 0 <= k < i + 1 implies if is_handle(
                    self.fields@.take(i + 1)[k]@,
                    generic@,
                ) {
                    call_ensures(*gh, (&self.fields@.take(i + 1)[k],), #[trigger] pieces[k])
                } else {
                    call_ensures(*fh, (&self.fields@.take(i + 1)[k],), #[trigger] pieces[k])
                } by {
                    if k < i {
                        assert(self.fields@.take(i as int)[k] == self.fields@.take(i + 1)[k]);
                        assert(before[k] == pieces[k]);
                    }
                }
            }
            i += 1;
        }
        assert(all.take(i as int) =~= all);
        assert(self.fields@.take(i as int) =~= self.fields@);
        tt.append(gg.as_str());
        assert(pieces_of(self.fields@, generic@, *fh, *gh, pieces));
        tt
    }
}

} // verus!
