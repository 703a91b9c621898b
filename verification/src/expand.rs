//! What a declaration expands to: the record before and after
//! materialization, the conversion between the two, the registry of the
//! record, and the collector that drains it.
//!
//! The expansion is source text. Its shape depends on the surface that the
//! declaration was written in.

use crate::args::{Args, ArgsView, Field, FieldView};
use crate::classify::{
    factory_name, field_names, fields_are_partitioned, handle_fields, is_handle, metadata_fields,
    no_clash_from, schema_rule, type_text, valid_declarations_have_distinct_names,
};
use crate::error::Error;
use crate::collect::{collected, rendered, renders};
use crate::naming::{collector_name, collector_name_of, Surface};
use vstd::prelude::*;
use vstd::string::StringExecFns;

verus! {

/// One field of a generated record: `visibility name: type`.
pub struct Slot {
    pub vis: Seq<char>,
    pub name: Seq<char>,
    pub ty: Seq<char>,
}

/// A generated field as text, with the comma that ends it.
pub open spec fn slot_text(slot: Slot) -> Seq<char> {
    slot.vis + " "@ + slot.name + ": "@ + slot.ty + ", "@
}

/// The type of a factory: a function without arguments that gives a boxed
/// instance of the interface.
pub open spec fn factory_type(interface: Seq<char>) -> Seq<char> {
    "fn() -> Box<dyn "@ + interface + ">"@
}

/// The type of a materialized handle: a boxed instance of the interface.
pub open spec fn boxed_type(interface: Seq<char>) -> Seq<char> {
    "Box<dyn "@ + interface + ">"@
}

/// A metadata field in a generated record: the field as it was declared.
pub open spec fn kept_slot(field: FieldView) -> Slot {
    Slot { vis: field.vis, name: field.name, ty: type_text(field.ty) }
}

/// The handle field in the record before materialization: a factory. In
/// the record-first surface the field is named `__get`; in the
/// interface-first surface it keeps its name.
pub open spec fn factory_slot(surface: Surface, interface: Seq<char>, field: FieldView) -> Slot {
    Slot {
        vis: field.vis,
        name: match surface {
            Surface::InterfaceFirst => field.name,
            Surface::RecordFirst => factory_name(),
        },
        ty: factory_type(interface),
    }
}

/// The handle field in the record after materialization: a boxed instance
/// of the interface, under the field's own name.
pub open spec fn boxed_slot(interface: Seq<char>, field: FieldView) -> Slot {
    Slot { vis: field.vis, name: field.name, ty: boxed_type(interface) }
}

/// The fields of the record before materialization: the metadata fields as
/// declared, then the handle field as a factory.
pub open spec fn raw_record(args: ArgsView) -> Seq<Slot> {
    args.metadata().map_values(|f: FieldView| kept_slot(f)) + args.handles().map_values(
        |f: FieldView| factory_slot(args.surface, args.trait_name, f),
    )
}

/// The fields of the record after materialization: the metadata fields as
/// declared, then the handle field as a boxed instance.
pub open spec fn final_record(args: ArgsView) -> Seq<Slot> {
    args.metadata().map_values(|f: FieldView| kept_slot(f)) + args.handles().map_values(
        |f: FieldView| boxed_slot(args.trait_name, f),
    )
}

/// The record before materialization and the record after it have one
/// field more than the declaration has metadata fields.
pub proof fn records_have_one_field_more_than_metadata(args: ArgsView)
    requires
        args.valid(),
    ensures
        raw_record(args).len() == args.metadata().len() + 1,
        final_record(args).len() == args.metadata().len() + 1,
        args.metadata().len() + 1 == args.fields.len(),
{
    fields_are_partitioned(args.fields, args.generic_param);
}

/// The names of generated fields.
pub open spec fn slot_names(slots: Seq<Slot>) -> Seq<Seq<char>> {
    slots.map_values(|s: Slot| s.name)
}

/// Where the names of the fields differ, so do the names of the metadata
/// fields and of the handle fields, among themselves and from each other;
/// and each metadata field is a field that is no handle field.
proof fn classes_keep_names_apart(fields: Seq<FieldView>, generic: Seq<char>)
    requires
        field_names(fields).no_duplicates(),
    ensures
        field_names(metadata_fields(fields, generic)).no_duplicates(),
        field_names(handle_fields(fields, generic)).no_duplicates(),
        forall|k: int|
            0 <= k < metadata_fields(fields, generic).len() ==> field_names(fields).contains(
                (#[trigger] metadata_fields(fields, generic)[k]).name,
            ) && fields.contains(metadata_fields(fields, generic)[k]) && !is_handle(
                metadata_fields(fields, generic)[k],
                generic,
            ),
        forall|k: int|
            0 <= k < handle_fields(fields, generic).len() ==> field_names(fields).contains(
                (#[trigger] handle_fields(fields, generic)[k]).name,
            ),
        forall|k: int, l: int|
            0 <= k < metadata_fields(fields, generic).len() && 0 <= l < handle_fields(
                fields,
                generic,
            ).len() ==> (#[trigger] metadata_fields(fields, generic)[k]).name != (
            #[trigger] handle_fields(fields, generic)[l]).name,
    decreases fields.len(),
{
    if fields.len() > 0 {
        let init = fields.drop_last();
        let last = fields.last();
        let names = field_names(fields);
        assert(field_names(init) =~= names.drop_last());
        assert(field_names(init).no_duplicates()) by {
            assert forall|i: int, j: int|
                0 <= i < field_names(init).len() && 0 <= j < field_names(init).len() && i
                    != j implies field_names(init)[i] != field_names(init)[j] by {
                assert(names[i] != names[j]);
            }
        }
        classes_keep_names_apart(init, generic);
        assert forall|field: FieldView| init.contains(field) implies fields.contains(field) by {
            let j = choose|j: int| 0 <= j < init.len() && init[j] == field;
            assert(fields[j] == field);
        }
        assert(!field_names(init).contains(last.name)) by {
            if field_names(init).contains(last.name) {
                let j = choose|j: int| 0 <= j < init.len() && field_names(init)[j] == last.name;
                assert(names[j] == names[fields.len() - 1]);
            }
        }
        let metadata = metadata_fields(init, generic);
        let handles = handle_fields(init, generic);
        assert forall|name: Seq<char>| field_names(init).contains(name) implies names.contains(
            name,
        ) by {
            let j = choose|j: int| 0 <= j < init.len() && field_names(init)[j] == name;
            assert(names[j] == name);
        }
        assert(names[fields.len() - 1] == last.name);
        if is_handle(last, generic) {
            let more = handles.push(last);
            assert forall|i: int, j: int|
                0 <= i < more.len() && 0 <= j < more.len() && i != j implies field_names(
                more,
            )[i] != field_names(more)[j] by {
                if i < handles.len() && j < handles.len() {
                    assert(field_names(handles)[i] != field_names(handles)[j]);
                } else if i < handles.len() {
                    assert(field_names(init).contains(handles[i].name));
                } else {
                    assert(field_names(init).contains(handles[j].name));
                }
            }
            assert forall|k: int, l: int|
                0 <= k < metadata.len() && 0 <= l < more.len() implies (#[trigger] metadata[k]).name
                != (#[trigger] more[l]).name by {
                if l == handles.len() {
                    assert(field_names(init).contains(metadata[k].name));
                }
            }
        } else {
            let more = metadata.push(last);
            assert forall|i: int, j: int|
                0 <= i < more.len() && 0 <= j < more.len() && i != j implies field_names(
                more,
            )[i] != field_names(more)[j] by {
                if i < metadata.len() && j < metadata.len() {
                    assert(field_names(metadata)[i] != field_names(metadata)[j]);
                } else if i < metadata.len() {
                    assert(field_names(init).contains(metadata[i].name));
                } else {
                    assert(field_names(init).contains(metadata[j].name));
                }
            }
            assert forall|k: int, l: int|
                0 <= k < more.len() && 0 <= l < handles.len() implies (#[trigger] more[k]).name != (
            #[trigger] handles[l]).name by {
                if k == metadata.len() {
                    assert(field_names(init).contains(handles[l].name));
                }
            }
            assert(fields[fields.len() - 1] == last);
        }
    }
}

/// In the record before materialization and in the record after it, each
/// field name occurs once.
pub proof fn records_name_each_field_once(args: ArgsView)
    requires
        args.valid(),
    ensures
        slot_names(raw_record(args)).no_duplicates(),
        slot_names(final_record(args)).no_duplicates(),
{
    let fields = args.fields;
    let generic = args.generic_param;
    valid_declarations_have_distinct_names(args);
    classes_keep_names_apart(fields, generic);
    let metadata = args.metadata();
    let handle = args.handles()[0];
    let raw = slot_names(raw_record(args));
    let done = slot_names(final_record(args));
    assert(raw.len() == metadata.len() + 1);
    assert forall|i: int, j: int| 0 <= i < raw.len() && 0 <= j < raw.len() && i
        != j implies raw[i] != raw[j] && done[i] != done[j] by {
        if i < metadata.len() && j < metadata.len() {
            assert(field_names(metadata)[i] != field_names(metadata)[j]);
        } else {
            let k = if i < metadata.len() {
                i
            } else {
                j
            };
            assert(metadata[k].name != handle.name);
            if args.surface == Surface::RecordFirst {
                let at = choose|at: int| 0 <= at < fields.len() && fields[at] == metadata[k];
                no_clash_from(fields, generic, args.surface, 0, at);
            }
        }
    }
}

/// Both records hold every metadata field as it was declared, in the order
/// of declaration.
pub proof fn records_keep_the_metadata_fields(args: ArgsView, i: int)
    requires
        0 <= i < args.metadata().len(),
    ensures
        raw_record(args)[i] == kept_slot(args.metadata()[i]),
        final_record(args)[i] == kept_slot(args.metadata()[i]),
{
}

/// The piece of a generated record for a metadata field.
pub open spec fn kept_piece() -> spec_fn(FieldView) -> Seq<char> {
    |f: FieldView| slot_text(kept_slot(f))
}

/// The piece of the record before materialization for a handle field.
pub open spec fn factory_piece(surface: Surface, interface: Seq<char>) -> spec_fn(FieldView) -> Seq<
    char,
> {
    |f: FieldView| slot_text(factory_slot(surface, interface, f))
}

/// The piece of the record after materialization for a handle field.
pub open spec fn boxed_piece(interface: Seq<char>) -> spec_fn(FieldView) -> Seq<char> {
    |f: FieldView| slot_text(boxed_slot(interface, f))
}

/// The piece of the conversion for a metadata field: the field is copied.
pub open spec fn copied_piece() -> spec_fn(FieldView) -> Seq<char> {
    |f: FieldView| f.name + ": value."@ + f.name + ", "@
}

/// The piece of the conversion for a handle field: the factory is called.
pub open spec fn called_piece() -> spec_fn(FieldView) -> Seq<char> {
    |f: FieldView| f.name + ": (value.__get)(), "@
}

/// The body of the record before materialization, as text.
pub open spec fn raw_body(args: ArgsView) -> Seq<char> {
    collected(
        args.fields,
        args.generic_param,
        kept_piece(),
        factory_piece(args.surface, args.trait_name),
    )
}

/// The body of the record after materialization, as text.
pub open spec fn final_body(args: ArgsView) -> Seq<char> {
    collected(args.fields, args.generic_param, kept_piece(), boxed_piece(args.trait_name))
}

/// The body of the conversion from the one record to the other, as text.
pub open spec fn conversion_body(args: ArgsView) -> Seq<char> {
    collected(args.fields, args.generic_param, copied_piece(), called_piece())
}

/// The collector of the record-first surface: a type that holds the
/// materialized records. It copies each entry of the registry, lets the
/// hook edit the copy, and converts what the hook left, so that a factory
/// that the hook replaces is the one that is called.
pub open spec fn record_first_collector(args: ArgsView) -> Seq<char> {
    "pub struct "@ + collector_name_of(args.struct_name) + " { pub plugins: Vec<"@
        + args.struct_name + "> } impl "@ + collector_name_of(args.struct_name)
        + " { pub fn new() -> Self { Self::new_with(|_| {}) } pub fn new_with<F: Fn(&mut "@
        + args.init_name
        + ")>(with: F) -> Self { let mut plugins = vec![]; for plugin in inventory::iter::<"@
        + args.init_name
        + "> { let mut plugin = plugin.clone(); with(&mut plugin); plugins.push(plugin.into()); } Self { plugins } } }"@
}

/// What a declaration of the record-first surface expands to: the record
/// before materialization, the conversion, the record after
/// materialization, the registry and the collector.
pub open spec fn record_first_expansion(args: ArgsView) -> Seq<char> {
    "#[derive(Clone)] pub struct "@ + args.init_name + " { "@ + raw_body(args)
        + "} impl From<"@ + args.init_name + "> for "@ + args.struct_name
        + " { fn from(value: "@ + args.init_name + ") -> Self { Self { "@ + conversion_body(
        args,
    ) + "} } } pub struct "@ + args.struct_name + " { "@ + final_body(args)
        + "} inventory::collect! { "@ + args.init_name + " } "@ + record_first_collector(args)
}

/// A generated field as text.
fn slot(vis: &String, name: &str, ty: &str) -> (text: String)
    ensures
        text@ == slot_text(Slot { vis: vis@, name: name@, ty: ty@ }),
{
    let mut text = vis.clone();
    text.append(" ");
    text.append(name);
    text.append(": ");
    text.append(ty);
    text.append(", ");
    text
}

/// Generated fields as text, one after the other.
pub open spec fn slots_text(slots: Seq<Slot>) -> Seq<char>
    decreases slots.len(),
{
    if slots.len() == 0 {
        Seq::empty()
    } else {
        slots_text(slots.drop_last()) + slot_text(slots.last())
    }
}

/// The text of two runs of generated fields is the text of the first
/// followed by the text of the second.
proof fn slots_text_of_two_runs(first: Seq<Slot>, second: Seq<Slot>)
    ensures
        slots_text(first + second) == slots_text(first) + slots_text(second),
    decreases second.len(),
{
    if second.len() == 0 {
        assert(first + second =~= first);
        assert(slots_text(first) + slots_text(second) =~= slots_text(first));
    } else {
        slots_text_of_two_runs(first, second.drop_last());
        assert((first + second).drop_last() =~= first + second.drop_last());
        assert((first + second).last() == second.last());
        assert(slots_text(first + second) =~= slots_text(first) + slots_text(second));
    }
}

/// Rendering fields by the text of a generated field is the text of the
/// generated fields.
proof fn rendered_as_slots(
    fields: Seq<FieldView>,
    piece: spec_fn(FieldView) -> Seq<char>,
    make: spec_fn(FieldView) -> Slot,
)
    requires
        forall|f: FieldView| #[trigger] piece(f) == slot_text(make(f)),
    ensures
        rendered(fields, piece) == slots_text(fields.map_values(make)),
    decreases fields.len(),
{
    if fields.len() > 0 {
        rendered_as_slots(fields.drop_last(), piece, make);
        assert(fields.map_values(make).drop_last() =~= fields.drop_last().map_values(make));
    }
}

/// The bodies of the two generated records spell the fields of the record
/// before materialization and of the record after it.
pub proof fn bodies_spell_the_records(args: ArgsView)
    ensures
        raw_body(args) == slots_text(raw_record(args)),
        final_body(args) == slots_text(final_record(args)),
{
    let kept = |f: FieldView| kept_slot(f);
    let factory = |f: FieldView| factory_slot(args.surface, args.trait_name, f);
    let boxed = |f: FieldView| boxed_slot(args.trait_name, f);
    rendered_as_slots(args.metadata(), kept_piece(), kept);
    rendered_as_slots(args.handles(), factory_piece(args.surface, args.trait_name), factory);
    rendered_as_slots(args.handles(), boxed_piece(args.trait_name), boxed);
    slots_text_of_two_runs(args.metadata().map_values(kept), args.handles().map_values(factory));
    slots_text_of_two_runs(args.metadata().map_values(kept), args.handles().map_values(boxed));
}

/// The piece of a generated record for a metadata field.
fn kept(field: &Field) -> (text: String)
    ensures
        text@ == kept_piece()(field@),
{
    let ty = field.ty.text();
    slot(&field.vis, field.name.as_str(), ty.as_str())
}

/// The piece of the conversion for a metadata field.
fn copied(field: &Field) -> (text: String)
    ensures
        text@ == copied_piece()(field@),
{
    let mut text = field.name.clone();
    text.append(": value.");
    text.append(field.name.as_str());
    text.append(", ");
    text
}

/// The piece of the conversion for a handle field.
fn called(field: &Field) -> (text: String)
    ensures
        text@ == called_piece()(field@),
{
    let mut text = field.name.clone();
    text.append(": (value.__get)(), ");
    text
}

/// The type of a factory of `interface`.
fn factory_type_of(interface: &String) -> (text: String)
    ensures
        text@ == factory_type(interface@),
{
    let mut text = String::from_str("fn() -> Box<dyn ");
    text.append(interface.as_str());
    text.append(">");
    text
}

/// The type of a materialized handle of `interface`.
fn boxed_type_of(interface: &String) -> (text: String)
    ensures
        text@ == boxed_type(interface@),
{
    let mut text = String::from_str("Box<dyn ");
    text.append(interface.as_str());
    text.append(">");
    text
}

impl Args {
    /// The name of the collector type.
    pub fn collector_name(&self) -> (name: String)
        ensures
            name@ == collector_name_of(self.struct_name@),
    {
        collector_name(self.struct_name.as_str())
    }

    /// The body of the record before materialization.
    pub fn raw_body(&self) -> (text: String)
        requires
            self@.valid(),
        ensures
            text@ == raw_body(self@),
    {
        let surface = self.surface;
        let ty = factory_type_of(&self.trait_name);
        let factory = |field: &Field| -> (text: String)
            ensures
                text@ == factory_piece(surface, self.trait_name@)(field@),
            {
                match surface {
                    Surface::InterfaceFirst => slot(&field.vis, field.name.as_str(), ty.as_str()),
                    Surface::RecordFirst => slot(&field.vis, "__get", ty.as_str()),
                }
            };
        assert(renders(kept, kept_piece()));
        assert(renders(factory, factory_piece(surface, self.trait_name@)));
        self.collect_fields_or_generic(&kept, &factory, self.generic_param.clone())
    }

    /// The body of the record after materialization.
    pub fn final_body(&self) -> (text: String)
        requires
            self@.valid(),
        ensures
            text@ == final_body(self@),
    {
        let ty = boxed_type_of(&self.trait_name);
        let boxed = |field: &Field| -> (text: String)
            ensures
                text@ == boxed_piece(self.trait_name@)(field@),
            { slot(&field.vis, field.name.as_str(), ty.as_str()) };
        assert(renders(kept, kept_piece()));
        assert(renders(boxed, boxed_piece(self.trait_name@)));
        self.collect_fields_or_generic(&kept, &boxed, self.generic_param.clone())
    }

    /// The body of the conversion from the record before materialization
    /// to the record after it.
    pub fn conversion_body(&self) -> (text: String)
        requires
            self@.valid(),
        ensures
            text@ == conversion_body(self@),
    {
        assert(renders(copied, copied_piece()));
        assert(renders(called, called_piece()));
        self.collect_fields_or_generic(&copied, &called, self.generic_param.clone())
    }

    /// The collector of the record-first surface.
    fn record_first_collector(&self) -> (text: String)
        ensures
            text@ == record_first_collector(self@),
    {
        let collector = self.collector_name();
        let raw = self.init_name.as_str();
        let mut text = String::from_str("pub struct ");
        text.append(collector.as_str());
        text.append(" { pub plugins: Vec<");
        text.append(self.struct_name.as_str());
        text.append("> } impl ");
        text.append(collector.as_str());
        text.append(
            " { pub fn new() -> Self { Self::new_with(|_| {}) } pub fn new_with<F: Fn(&mut ",
        );
        text.append(raw);
        text.append(
            ")>(with: F) -> Self { let mut plugins = vec![]; for plugin in inventory::iter::<",
        );
        text.append(raw);
        text.append(
            "> { let mut plugin = plugin.clone(); with(&mut plugin); plugins.push(plugin.into()); } Self { plugins } } }",
        );
        text
    }

    /// Expands a declaration of the record-first surface.
    fn expand_record_first(&self) -> (text: String)
        requires
            self@.valid(),
        ensures
            text@ == record_first_expansion(self@),
    {
        let init = self.init_name.as_str();
        let record = self.struct_name.as_str();
        let mut text = String::from_str("#[derive(Clone)] pub struct ");
        text.append(init);
        text.append(" { ");
        text.append(self.raw_body().as_str());
        text.append("} impl From<");
        text.append(init);
        text.append("> for ");
        text.append(record);
        text.append(" { fn from(value: ");
        text.append(init);
        text.append(") -> Self { Self { ");
        text.append(self.conversion_body().as_str());
        text.append("} } } pub struct ");
        text.append(record);
        text.append(" { ");
        text.append(self.final_body().as_str());
        text.append("} inventory::collect! { ");
        text.append(init);
        text.append(" } ");
        text.append(self.record_first_collector().as_str());
        text
    }
}

/// A field as an argument of the record's constructor: `name: type`.
pub open spec fn argument_piece() -> spec_fn(FieldView) -> Seq<char> {
    |f: FieldView| f.name + ": "@ + type_text(f.ty) + ", "@
}

/// A field as it is set in the record's constructor: `name: name`.
pub open spec fn assigned_piece() -> spec_fn(FieldView) -> Seq<char> {
    |f: FieldView| f.name + ": "@ + f.name + ", "@
}

/// A metadata field in the pattern of the registration directive:
/// `name = $name: expr;`.
pub open spec fn pattern_piece() -> spec_fn(FieldView) -> Seq<char> {
    |f: FieldView| f.name + " = $"@ + f.name + ": expr; "@
}

/// A metadata field where the registration directive calls itself:
/// `name = $name;`.
pub open spec fn forwarded_piece() -> spec_fn(FieldView) -> Seq<char> {
    |f: FieldView| f.name + " = $"@ + f.name + "; "@
}

/// A metadata field where the registration directive builds the record:
/// `$name,`.
pub open spec fn supplied_piece() -> spec_fn(FieldView) -> Seq<char> {
    |f: FieldView| "$"@ + f.name + ", "@
}

/// A metadata field where the collector builds the materialized record:
/// `plugin.name,`.
pub open spec fn taken_piece() -> spec_fn(FieldView) -> Seq<char> {
    |f: FieldView| "plugin."@ + f.name + ", "@
}

/// The handle field where the collector builds the materialized record:
/// the stored factory is called.
pub open spec fn materialized_piece() -> spec_fn(FieldView) -> Seq<char> {
    |f: FieldView| "(plugin."@ + f.name + ")() "@
}

/// The piece of a field that a text leaves out.
pub open spec fn no_piece() -> spec_fn(FieldView) -> Seq<char> {
    |f: FieldView| Seq::<char>::empty()
}

/// The text that one function gives for every field of a declaration.
pub open spec fn all_fields(args: ArgsView, piece: spec_fn(FieldView) -> Seq<char>) -> Seq<char> {
    collected(args.fields, args.generic_param, piece, piece)
}

/// The text that a function gives for the metadata fields of a
/// declaration.
pub open spec fn metadata_only(args: ArgsView, piece: spec_fn(FieldView) -> Seq<char>) -> Seq<
    char,
> {
    collected(args.fields, args.generic_param, piece, no_piece())
}

/// The record of the interface-first surface: one generic type for the
/// record before and after materialization, and its constructor.
pub open spec fn interface_first_record(args: ArgsView) -> Seq<char> {
    "#[derive(Clone)] pub struct "@ + args.struct_name + "<"@ + args.generic_param + "> { "@
        + all_fields(args, kept_piece()) + "} impl<"@ + args.generic_param + "> "@
        + args.struct_name + "<"@ + args.generic_param + "> { pub const fn new("@ + all_fields(
        args,
        argument_piece(),
    ) + ") -> Self { Self { "@ + all_fields(args, assigned_piece()) + "} } } "@
}

/// The record of the interface-first surface before materialization: the
/// generic record with a factory for its parameter.
pub open spec fn raw_record_type(args: ArgsView) -> Seq<char> {
    args.struct_name + "<"@ + factory_type(args.trait_name) + ">"@
}

/// The registry of the interface-first surface.
pub open spec fn interface_first_registry(args: ArgsView) -> Seq<char> {
    "inventory::collect! { "@ + raw_record_type(args) + " } "@
}

/// The registration directive of the interface-first surface. Its first
/// form takes the metadata fields alone and names the implementor type by
/// the handle name; its second form takes the implementor's name too,
/// declares the implementor type and its factory, and submits the record.
pub open spec fn interface_first_directive(args: ArgsView) -> Seq<char> {
    "#[macro_export] macro_rules! "@ + args.init_name + " { ( "@ + metadata_only(
        args,
        pattern_piece(),
    ) + ") => { "@ + args.init_name + "! { pub "@ + args.handle_name + " { "@ + metadata_only(
        args,
        forwarded_piece(),
    ) + "} } }; ( $vis: vis $plugin: ident { "@ + metadata_only(args, pattern_piece())
        + "} ) => { struct $plugin; fn get() -> Box<dyn "@ + args.trait_name
        + "> { Box::new($plugin) } inventory::submit! { "@ + args.struct_name + "::<"@
        + factory_type(args.trait_name) + ">::new( "@ + metadata_only(args, supplied_piece())
        + "get ) } } } "@
}

/// The collector of the interface-first surface.
pub open spec fn interface_first_collector(args: ArgsView) -> Seq<char> {
    "pub struct "@ + collector_name_of(args.struct_name) + " { pub plugins: Vec<"@
        + args.struct_name + "<"@ + boxed_type(args.trait_name) + ">> } impl "@
        + collector_name_of(args.struct_name)
        + " { pub fn new() -> Self { Self::new_with(|_| {}) } pub fn new_with<F: Fn(&mut "@
        + raw_record_type(args)
        + ")>(with: F) -> Self { let mut plugins = vec![]; for plugin in inventory::iter::<"@
        + raw_record_type(args)
        + "> { let mut plugin = plugin.clone(); with(&mut plugin); plugins.push("@
        + args.struct_name + "::new( "@ + collected(
        args.fields,
        args.generic_param,
        taken_piece(),
        materialized_piece(),
    ) + ")); } Self { plugins } } }"@
}

/// What a declaration of the interface-first surface expands to: the
/// record, the registry, the registration directive and the collector.
pub open spec fn interface_first_expansion(args: ArgsView) -> Seq<char> {
    interface_first_record(args) + interface_first_registry(args) + interface_first_directive(
        args,
    ) + interface_first_collector(args)
}

/// The view of an expansion or its diagnostic.
pub open spec fn text_outcome(outcome: Result<String, Error>) -> Result<Seq<char>, Error> {
    match outcome {
        Ok(text) => Ok(text@),
        Err(e) => Err(e),
    }
}

/// What a declaration expands to where it keeps its rules, and the
/// diagnostic of the first rule that it breaks where it does not.
pub open spec fn checked_expansion(args: ArgsView) -> Result<Seq<char>, Error> {
    match schema_rule(args) {
        Err(e) => Err(e),
        Ok(_) => Ok(expansion_of(args)),
    }
}

/// What a declaration that keeps its rules expands to.
pub open spec fn expansion_of(args: ArgsView) -> Seq<char> {
    match args.surface {
        Surface::InterfaceFirst => interface_first_expansion(args),
        Surface::RecordFirst => record_first_expansion(args),
    }
}

/// A field as an argument of the record's constructor.
fn argument(field: &Field) -> (text: String)
    ensures
        text@ == argument_piece()(field@),
{
    let mut text = field.name.clone();
    text.append(": ");
    text.append(field.ty.text().as_str());
    text.append(", ");
    text
}

/// A field as it is set in the record's constructor.
fn assigned(field: &Field) -> (text: String)
    ensures
        text@ == assigned_piece()(field@),
{
    let mut text = field.name.clone();
    text.append(": ");
    text.append(field.name.as_str());
    text.append(", ");
    text
}

/// A metadata field in the pattern of the registration directive.
fn pattern(field: &Field) -> (text: String)
    ensures
        text@ == pattern_piece()(field@),
{
    let mut text = field.name.clone();
    text.append(" = $");
    text.append(field.name.as_str());
    text.append(": expr; ");
    text
}

/// A metadata field where the registration directive calls itself.
fn forwarded(field: &Field) -> (text: String)
    ensures
        text@ == forwarded_piece()(field@),
{
    let mut text = field.name.clone();
    text.append(" = $");
    text.append(field.name.as_str());
    text.append("; ");
    text
}

/// A metadata field where the registration directive builds the record.
fn supplied(field: &Field) -> (text: String)
    ensures
        text@ == supplied_piece()(field@),
{
    let mut text = String::from_str("$");
    text.append(field.name.as_str());
    text.append(", ");
    text
}

/// A metadata field where the collector builds the materialized record.
fn taken(field: &Field) -> (text: String)
    ensures
        text@ == taken_piece()(field@),
{
    let mut text = String::from_str("plugin.");
    text.append(field.name.as_str());
    text.append(", ");
    text
}

/// The handle field where the collector builds the materialized record.
fn materialized(field: &Field) -> (text: String)
    ensures
        text@ == materialized_piece()(field@),
{
    let mut text = String::from_str("(plugin.");
    text.append(field.name.as_str());
    text.append(")() ");
    text
}

/// The piece of a field that a text leaves out.
fn nothing(field: &Field) -> (text: String)
    ensures
        text@ == no_piece()(field@),
{
    String::new()
}

impl Args {
    /// The record of the interface-first surface and its constructor.
    fn interface_first_record(&self) -> (text: String)
        requires
            self@.valid(),
        ensures
            text@ == interface_first_record(self@),
    {
        let record = self.struct_name.as_str();
        let generic = self.generic_param.as_str();
        assert(renders(kept, kept_piece()));
        assert(renders(argument, argument_piece()));
        assert(renders(assigned, assigned_piece()));
        let fields = self.collect_fields(&kept, &self.generic_param);
        let arguments = self.collect_fields(&argument, &self.generic_param);
        let assignments = self.collect_fields(&assigned, &self.generic_param);
        let mut text = String::from_str("#[derive(Clone)] pub struct ");
        text.append(record);
        text.append("<");
        text.append(generic);
        text.append("> { ");
        text.append(fields.as_str());
        text.append("} impl<");
        text.append(generic);
        text.append("> ");
        text.append(record);
        text.append("<");
        text.append(generic);
        text.append("> { pub const fn new(");
        text.append(arguments.as_str());
        text.append(") -> Self { Self { ");
        text.append(assignments.as_str());
        text.append("} } } ");
        text
    }

    /// The record of the interface-first surface before materialization.
    fn raw_record_type(&self) -> (text: String)
        ensures
            text@ == raw_record_type(self@),
    {
        let mut text = self.struct_name.clone();
        text.append("<");
        text.append(factory_type_of(&self.trait_name).as_str());
        text.append(">");
        text
    }

    /// The registry of the interface-first surface.
    fn interface_first_registry(&self) -> (text: String)
        ensures
            text@ == interface_first_registry(self@),
    {
        let mut text = String::from_str("inventory::collect! { ");
        text.append(self.raw_record_type().as_str());
        text.append(" } ");
        text
    }

    /// The registration directive of the interface-first surface.
    fn interface_first_directive(&self) -> (text: String)
        requires
            self@.valid(),
        ensures
            text@ == interface_first_directive(self@),
    {
        let directive = self.init_name.as_str();
        assert(renders(pattern, pattern_piece()));
        assert(renders(forwarded, forwarded_piece()));
        assert(renders(supplied, supplied_piece()));
        assert(renders(nothing, no_piece()));
        let patterns = self.collect_fields_or_generic(
            &pattern,
            &nothing,
            self.generic_param.clone(),
        );
        let forwards = self.collect_fields_or_generic(
            &forwarded,
            &nothing,
            self.generic_param.clone(),
        );
        let supplies = self.collect_fields_or_generic(
            &supplied,
            &nothing,
            self.generic_param.clone(),
        );
        let mut text = String::from_str("#[macro_export] macro_rules! ");
        text.append(directive);
        text.append(" { ( ");
        text.append(patterns.as_str());
        text.append(") => { ");
        text.append(directive);
        text.append("! { pub ");
        text.append(self.handle_name.as_str());
        text.append(" { ");
        text.append(forwards.as_str());
        text.append("} } }; ( $vis: vis $plugin: ident { ");
        text.append(patterns.as_str());
        text.append("} ) => { struct $plugin; fn get() -> Box<dyn ");
        text.append(self.trait_name.as_str());
        text.append("> { Box::new($plugin) } inventory::submit! { ");
        text.append(self.struct_name.as_str());
        text.append("::<");
        text.append(factory_type_of(&self.trait_name).as_str());
        text.append(">::new( ");
        text.append(supplies.as_str());
        text.append("get ) } } } ");
        text
    }

    /// The collector of the interface-first surface.
    fn interface_first_collector(&self) -> (text: String)
        requires
            self@.valid(),
        ensures
            text@ == interface_first_collector(self@),
    {
        let collector = self.collector_name();
        let raw = self.raw_record_type();
        assert(renders(taken, taken_piece()));
        assert(renders(materialized, materialized_piece()));
        let rebuilt = self.collect_fields_or_generic(
            &taken,
            &materialized,
            self.generic_param.clone(),
        );
        let mut text = String::from_str("pub struct ");
        text.append(collector.as_str());
        text.append(" { pub plugins: Vec<");
        text.append(self.struct_name.as_str());
        text.append("<");
        text.append(boxed_type_of(&self.trait_name).as_str());
        text.append(">> } impl ");
        text.append(collector.as_str());
        text.append(
            " { pub fn new() -> Self { Self::new_with(|_| {}) } pub fn new_with<F: Fn(&mut ",
        );
        text.append(raw.as_str());
        text.append(
            ")>(with: F) -> Self { let mut plugins = vec![]; for plugin in inventory::iter::<",
        );
        text.append(raw.as_str());
        text.append("> { let mut plugin = plugin.clone(); with(&mut plugin); plugins.push(");
        text.append(self.struct_name.as_str());
        text.append("::new( ");
        text.append(rebuilt.as_str());
        text.append(")); } Self { plugins } } }");
        text
    }

    /// Expands a declaration of the interface-first surface.
    fn expand_interface_first(&self) -> (text: String)
        requires
            self@.valid(),
        ensures
            text@ == interface_first_expansion(self@),
    {
        let mut text = self.interface_first_record();
        text.append(self.interface_first_registry().as_str());
        text.append(self.interface_first_directive().as_str());
        text.append(self.interface_first_collector().as_str());
        text
    }

    /// Appends what the declaration expands to, where the declaration
    /// keeps its rules; leaves the text as it is and gives the diagnostic
    /// where it breaks one.
    pub fn to_tokens(&self, tokens: &mut String) -> (outcome: Result<(), Error>)
        ensures
            outcome == schema_rule(self@),
            final(tokens)@ == match outcome {
                Ok(_) => old(tokens)@ + expansion_of(self@),
                Err(_) => old(tokens)@,
            },
    {
        match self.expand() {
            Ok(text) => {
                tokens.append(text.as_str());
                Ok(())
            },
            Err(e) => Err(e),
        }
    }

    /// What the declaration expands to, or the diagnostic of the first rule
    /// that the declaration breaks.
    pub fn expand(&self) -> (outcome: Result<String, Error>)
        ensures
            text_outcome(outcome) == checked_expansion(self@),
    {
        match self.check() {
            Ok(_) => {},
            Err(e) => {
                return Err(e);
            },
        }
        match self.surface {
            Surface::InterfaceFirst => Ok(self.expand_interface_first()),
            Surface::RecordFirst => Ok(self.expand_record_first()),
        }
    }
}

} // verus!
