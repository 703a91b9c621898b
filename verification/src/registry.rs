//! The registry and the collector at run time.
//!
//! Every registration site submits one record to the registry of its
//! declaration before the program's own logic starts. A record holds the
//! site's metadata and a factory for the implementor; the collector copies
//! each record, lets a hook edit the copy, calls the factory and keeps the
//! materialized record.

use crate::declare::{AssignmentView, EmitArgs, EmitArgsView};
use vstd::prelude::*;

verus! {

/// One metadata field of a record: the field's name and the expression
/// that a registration site assigned to it, as text.
#[derive(Clone, Debug)]
pub struct Datum {
    pub name: String,
    pub value: String,
}

/// The values of a record's metadata: pairs of name and value.
pub open spec fn data_views(data: Seq<Datum>) -> Seq<(Seq<char>, Seq<char>)> {
    data.map_values(|d: Datum| (d.name@, d.value@))
}

/// The metadata that the assignments of a site give a record.
pub open spec fn data_of(assignments: Seq<AssignmentView>) -> Seq<(Seq<char>, Seq<char>)> {
    assignments.map_values(|a: AssignmentView| (a.name, a.value))
}

/// A record before materialization: the metadata and a factory for the
/// handle.
pub struct RawRecord<F> {
    pub metadata: Vec<Datum>,
    pub factory: F,
}

/// A record after materialization: the metadata and the handle.
pub struct FinalRecord<H> {
    pub metadata: Vec<Datum>,
    pub handle: H,
}

/// The registry of one declaration: the records that were submitted, in
/// the order of their submission.
pub struct Registry<F> {
    entries: Vec<RawRecord<F>>,
}

/// The materialized records of a registry.
pub struct Collector<H> {
    pub plugins: Vec<FinalRecord<H>>,
}

/// Copies the metadata of a record.
fn copy_data(data: &Vec<Datum>) -> (copy: Vec<Datum>)
    ensures
        data_views(copy@) == data_views(data@),
{
    let mut copy: Vec<Datum> = Vec::new();
    let mut i: usize = 0;
    while i < data.len()
        invariant
            i <= data.len(),
            copy.len() == i,
            forall|j: int|
                0 <= j < i ==> (#[trigger] copy[j]).name@ == data[j].name@ && copy[j].value@
                    == data[j].value@,
        decreases data.len() - i,
    {
        copy.push(Datum { name: data[i].name.clone(), value: data[i].value.clone() });
        i += 1;
    }
    assert(data_views(copy@) =~= data_views(data@));
    copy
}

impl<F> RawRecord<F> {
    /// The metadata of the record.
    pub open spec fn data(&self) -> Seq<(Seq<char>, Seq<char>)> {
        data_views(self.metadata@)
    }

    /// Whether the record has the metadata and the factory of `other`.
    pub open spec fn same_as(&self, other: &RawRecord<F>) -> bool {
        self.data() == other.data() && self.factory == other.factory
    }
}

impl<H> FinalRecord<H> {
    /// The metadata of the record.
    pub open spec fn data(&self) -> Seq<(Seq<char>, Seq<char>)> {
        data_views(self.metadata@)
    }

    /// The value of the first field named `name`, if the record has such a
    /// field.
    pub fn get(&self, name: &str) -> (value: Option<&String>)
        ensures
            match value {
                Some(v) => exists|i: int|
                    0 <= i < self.data().len() && #[trigger] self.data()[i] == (name@, v@)
                        && forall|j: int| 0 <= j < i ==> self.data()[j].0 != name@,
                None => forall|i: int| 0 <= i < self.data().len() ==> self.data()[i].0 != name@,
            },
    {
        let wanted = name.to_owned();
        let mut i: usize = 0;
        while i < self.metadata.len()
            invariant
                i <= self.metadata.len(),
                wanted@ == name@,
                forall|j: int| 0 <= j < i ==> self.data()[j].0 != name@,
            decreases self.metadata.len() - i,
        {
            if self.metadata[i].name == wanted {
                assert(self.data()[i as int] == (name@, self.metadata[i as int].value@));
                return Some(&self.metadata[i].value);
            }
            i += 1;
        }
        None
    }
}

/// Whether `record` is what materializing `raw` can give: the metadata of
/// `raw`, and a handle that the factory of `raw` can return.
pub open spec fn materialized<H, F: Fn() -> H>(raw: &RawRecord<F>, record: &FinalRecord<H>) -> bool {
    record.data() == raw.data() && call_ensures(raw.factory, (), record.handle)
}

impl<H, F: Copy + Fn() -> H> RawRecord<F> {
    /// An independent copy of the record.
    pub fn copy(&self) -> (copy: RawRecord<F>)
        ensures
            copy.same_as(self),
    {
        RawRecord { metadata: copy_data(&self.metadata), factory: self.factory }
    }

    /// Materializes the record: keeps the metadata and calls the factory
    /// once for the handle.
    pub fn materialize(self) -> (record: FinalRecord<H>)
        requires
            call_requires(self.factory, ()),
        ensures
            materialized(&self, &record),
            record.metadata == self.metadata,
    {
        let factory = self.factory;
        let handle = factory();
        FinalRecord { metadata: self.metadata, handle }
    }
}

impl EmitArgs {
    /// The record that the site submits: the site's assignments as
    /// metadata, and the factory of the site's implementor.
    pub fn record<F>(&self, factory: F) -> (record: RawRecord<F>)
        ensures
            record.data() == data_of(self@.fields),
            record.factory == factory,
    {
        let mut metadata: Vec<Datum> = Vec::new();
        let mut i: usize = 0;
        while i < self.fields.len()
            invariant
                i <= self.fields.len(),
                metadata.len() == i,
                forall|j: int|
                    0 <= j < i ==> (#[trigger] metadata[j]).name@ == self.fields[j].name@
                        && metadata[j].value@ == self.fields[j].value@,
            decreases self.fields.len() - i,
        {
            metadata.push(
                Datum { name: self.fields[i].name.clone(), value: self.fields[i].value.clone() },
            );
            i += 1;
        }
        assert(data_views(metadata@) =~= data_of(self@.fields));
        RawRecord { metadata, factory }
    }
}

/// The metadata of the records of a registry, record by record.
pub open spec fn raw_data<F>(entries: Seq<RawRecord<F>>) -> Seq<Seq<(Seq<char>, Seq<char>)>> {
    entries.map_values(|r: RawRecord<F>| r.data())
}

/// The metadata of materialized records, record by record.
pub open spec fn final_data<H>(plugins: Seq<FinalRecord<H>>) -> Seq<Seq<(Seq<char>, Seq<char>)>> {
    plugins.map_values(|r: FinalRecord<H>| r.data())
}

/// Whether `plugins` are what collecting `entries` without a hook can
/// give: one materialized record for each entry, in the order of the
/// entries.
pub open spec fn collected_from<H, F: Fn() -> H>(
    entries: Seq<RawRecord<F>>,
    plugins: Seq<FinalRecord<H>>,
) -> bool {
    &&& plugins.len() == entries.len()
    &&& forall|i: int| 0 <= i < entries.len() ==> materialized(&entries[i], &#[trigger] plugins[i])
}

impl<H, F: Copy + Fn() -> H> Registry<F> {
    /// The records of the registry, in the order of their submission.
    pub closed spec fn view(&self) -> Seq<RawRecord<F>> {
        self.entries@
    }

    /// Whether the factory of every record can be called.
    pub open spec fn callable(&self) -> bool {
        forall|i: int| 0 <= i < self@.len() ==> call_requires((#[trigger] self@[i]).factory, ())
    }

    /// A registry without records.
    pub fn new() -> (registry: Registry<F>)
        ensures
            registry@ == Seq::<RawRecord<F>>::empty(),
            registry.callable(),
    {
        Registry { entries: Vec::new() }
    }

    /// The number of records.
    pub fn len(&self) -> (n: usize)
        ensures
            n == self@.len(),
    {
        self.entries.len()
    }

    /// Submits a record: the registry holds it after all earlier ones.
    pub fn register(&mut self, value: RawRecord<F>)
        requires
            call_requires(value.factory, ()),
            old(self).callable(),
        ensures
            final(self)@ == old(self)@.push(value),
            final(self).callable(),
    {
        self.entries.push(value);
        proof {
            assert forall|i: int| 0 <= i < self@.len() implies call_requires(
                (#[trigger] self@[i]).factory,
                (),
            ) by {
                if i < old(self)@.len() {
                    assert(self@[i] == old(self)@[i]);
                }
            }
        }
    }

    /// Independent copies of the records, in the order of their
    /// submission.
    pub fn iterate(&self) -> (records: Vec<RawRecord<F>>)
        ensures
            records.len() == self@.len(),
            forall|i: int| 0 <= i < self@.len() ==> (#[trigger] records[i]).same_as(&self@[i]),
    {
        let mut records: Vec<RawRecord<F>> = Vec::new();
        let mut i: usize = 0;
        while i < self.entries.len()
            invariant
                i <= self.entries.len(),
                records.len() == i,
                forall|j: int| 0 <= j < i ==> (#[trigger] records[j]).same_as(&self.entries[j]),
            decreases self.entries.len() - i,
        {
            records.push(self.entries[i].copy());
            i += 1;
        }
        records
    }
}

/// Whether `plugin` is what collecting `entry` with the hook `with` can
/// give: the materialization of what `with` can turn a copy of the entry
/// into.
pub open spec fn collected_one<H, F: Fn() -> H, W: Fn(RawRecord<F>) -> RawRecord<F>>(
    entry: &RawRecord<F>,
    with: W,
    plugin: &FinalRecord<H>,
) -> bool {
    exists|copy: RawRecord<F>, edited: RawRecord<F>|
        copy.same_as(entry) && #[trigger] call_ensures(with, (copy,), edited) && materialized(
            &edited,
            plugin,
        )
}

/// Whether `plugins` are what collecting `entries` with the hook `with`
/// can give: one materialized record for each entry, in the order of the
/// entries.
pub open spec fn collected_with<H, F: Fn() -> H, W: Fn(RawRecord<F>) -> RawRecord<F>>(
    entries: Seq<RawRecord<F>>,
    with: W,
    plugins: Seq<FinalRecord<H>>,
) -> bool {
    &&& plugins.len() == entries.len()
    &&& forall|i: int|
        0 <= i < entries.len() ==> collected_one(&entries[i], with, &#[trigger] plugins[i])
}

impl<H> Collector<H> {
    /// Materializes the records of a registry as they are.
    pub fn new<F: Copy + Fn() -> H>(registry: &Registry<F>) -> (collector: Collector<H>)
        requires
            registry.callable(),
        ensures
            collected_from(registry@, collector.plugins@),
    {
        let keep = |record: RawRecord<F>| -> (kept: RawRecord<F>)
            ensures
                kept == record,
            { record };
        let collector = Collector::new_with(registry, keep);
        assert forall|i: int| 0 <= i < registry@.len() implies materialized(
            &registry@[i],
            &#[trigger] collector.plugins@[i],
        ) by {
            assert(collected_one(&registry@[i], keep, &collector.plugins@[i]));
        }
        collector
    }

    /// Materializes the records of a registry: takes an independent copy
    /// of each record, in the order of the registry, hands the copy to
    /// `with`, and materializes what `with` gives back.
    pub fn new_with<F: Copy + Fn() -> H, W: Fn(RawRecord<F>) -> RawRecord<F>>(
        registry: &Registry<F>,
        with: W,
    ) -> (collector: Collector<H>)
        requires
            forall|record: RawRecord<F>| call_requires(with, (record,)),
            forall|record: RawRecord<F>, edited: RawRecord<F>|
                call_requires(record.factory, ()) && #[trigger] call_ensures(
                    with,
                    (record,),
                    edited,
                ) ==> call_requires(edited.factory, ()),
            registry.callable(),
        ensures
            collected_with(registry@, with, collector.plugins@),
    {
        let mut plugins: Vec<FinalRecord<H>> = Vec::new();
        let mut i: usize = 0;
        while i < registry.entries.len()
            invariant
                i <= registry.entries.len(),
                registry.callable(),
                forall|record: RawRecord<F>| call_requires(with, (record,)),
                forall|record: RawRecord<F>, edited: RawRecord<F>|
                    call_requires(record.factory, ()) && #[trigger] call_ensures(
                        with,
                        (record,),
                        edited,
                    ) ==> call_requires(edited.factory, ()),
                collected_with(registry@.take(i as int), with, plugins@),
            decreases registry.entries.len() - i,
        {
            let copy = registry.entries[i].copy();
            assert(call_requires(registry@[i as int].factory, ()));
            let edited = with(copy);
            let record = edited.materialize();
            let ghost before = plugins@;
            plugins.push(record);
            proof {
                let entries = registry@.take(i + 1);
                assert forall|k: int| 0 <= k < entries.len() implies collected_one(
                    &entries[k],
                    with,
                    &#[trigger] plugins@[k],
                ) by {
                    if k < i {
                        assert(registry@.take(i as int)[k] == entries[k]);
                        assert(before[k] == plugins@[k]);
                    } else {
                        assert(copy.same_as(&entries[k]) && call_ensures(with, (copy,), edited)
                            && materialized(&edited, &plugins@[k]));
                    }
                }
            }
            i += 1;
        }
        assert(registry@.take(i as int) =~= registry@);
        Collector { plugins }
    }
}

/// The records of a registry after `sites` were submitted to it one after
/// the other.
pub open spec fn submitted<F>(before: Seq<RawRecord<F>>, sites: Seq<RawRecord<F>>) -> Seq<
    RawRecord<F>,
>
    decreases sites.len(),
{
    if sites.len() == 0 {
        before
    } else {
        submitted(before, sites.drop_last()).push(sites.last())
    }
}

/// Submitting adds one record for each site.
pub proof fn submitting_adds_every_site<F>(before: Seq<RawRecord<F>>, sites: Seq<RawRecord<F>>)
    ensures
        submitted(before, sites).len() == before.len() + sites.len(),
    decreases sites.len(),
{
    if sites.len() > 0 {
        submitting_adds_every_site(before, sites.drop_last());
    }
}

/// A collector holds one materialized record for each registration site:
/// where the records of `sites` were submitted to an empty registry,
/// collecting the registry gives as many records as there are sites.
pub proof fn collecting_gives_one_record_for_each_site<H, F: Fn() -> H>(
    sites: Seq<RawRecord<F>>,
    plugins: Seq<FinalRecord<H>>,
)
    requires
        collected_from(submitted(Seq::empty(), sites), plugins),
    ensures
        plugins.len() == sites.len(),
{
    submitting_adds_every_site(Seq::<RawRecord<F>>::empty(), sites);
}

/// Materialization keeps the metadata: each field of the materialized
/// record of a site has the name and the value that the site assigned.
pub proof fn materializing_keeps_the_assignments<H, F: Fn() -> H>(
    site: EmitArgsView,
    raw: RawRecord<F>,
    record: FinalRecord<H>,
)
    requires
        raw.data() == data_of(site.fields),
        materialized(&raw, &record),
    ensures
        record.data().len() == site.fields.len(),
        forall|i: int|
            0 <= i < site.fields.len() ==> #[trigger] record.data()[i] == (
                site.fields[i].name,
                site.fields[i].value,
            ),
{
}

/// Collecting is repeatable: two collections of the same records have the
/// same number of records and the same metadata, taken as a multiset and
/// even record by record.
pub proof fn collecting_twice_gives_the_same_metadata<H, F: Fn() -> H>(
    entries: Seq<RawRecord<F>>,
    first: Seq<FinalRecord<H>>,
    second: Seq<FinalRecord<H>>,
)
    requires
        collected_from(entries, first),
        collected_from(entries, second),
    ensures
        first.len() == second.len(),
        final_data(first) == final_data(second),
        final_data(first).to_multiset() == final_data(second).to_multiset(),
{
    assert forall|i: int| 0 <= i < first.len() implies final_data(first)[i] == final_data(
        second,
    )[i] by {
        assert(materialized(&entries[i], &first[i]));
        assert(materialized(&entries[i], &second[i]));
    }
    assert(final_data(first) =~= final_data(second));
}

} // verus!
