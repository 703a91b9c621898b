use dyn_inventory::declare::EmitArgs;
use dyn_inventory::registry::{Collector, Datum, RawRecord, Registry};

fn tokens(src: &str) -> Result<Vec<proc_macro2::TokenTree>, proc_macro2::LexError> {
    Ok(src.parse::<proc_macro2::TokenStream>()?.into_iter().collect())
}

pub trait Greeter {
    fn greet(&self) -> String;
}

struct English;
struct French;

impl Greeter for English {
    fn greet(&self) -> String {
        "hello".to_string()
    }
}

impl Greeter for French {
    fn greet(&self) -> String {
        "bonjour".to_string()
    }
}

fn english() -> Box<dyn Greeter> {
    Box::new(English)
}

fn french() -> Box<dyn Greeter> {
    Box::new(French)
}

type Factory = fn() -> Box<dyn Greeter>;

fn site(src: &str) -> EmitArgs {
    EmitArgs::parse(&tokens(src).unwrap()).unwrap()
}

fn registry() -> Registry<Factory> {
    let mut registry: Registry<Factory> = Registry::new();
    registry.register(
        site("En Greeter as GreeterPlugin { name = \"english\", version = 1 }")
            .record(english as Factory),
    );
    registry.register(
        site("Fr Greeter as GreeterPlugin { name = \"french\", version = 2 }")
            .record(french as Factory),
    );
    registry
}

fn data(metadata: &Vec<Datum>) -> Vec<(String, String)> {
    metadata.iter().map(|d| (d.name.clone(), d.value.clone())).collect()
}

#[test]
fn empty_registry_collects_to_nothing() {
    let registry: Registry<Factory> = Registry::new();
    assert_eq!(registry.len(), 0);
    assert_eq!(Collector::new(&registry).plugins.len(), 0);
}

#[test]
fn collector_holds_one_record_for_each_site() {
    let registry = registry();
    assert_eq!(registry.len(), 2);
    let collected = Collector::new(&registry);
    assert_eq!(collected.plugins.len(), 2);
    assert_eq!(collected.plugins[0].handle.greet(), "hello");
    assert_eq!(collected.plugins[1].handle.greet(), "bonjour");
}

#[test]
fn materialization_keeps_the_metadata() {
    let site = site("En Greeter as GreeterPlugin { name = \"english\", version = 1 + 1 }");
    let raw = site.record(english as Factory);
    assert_eq!(
        data(&raw.metadata),
        vec![
            ("name".to_string(), "\"english\"".to_string()),
            ("version".to_string(), "1 + 1".to_string())
        ]
    );
    let record = raw.copy().materialize();
    assert_eq!(data(&record.metadata), data(&raw.metadata));
    assert_eq!(record.get("version"), Some(&"1 + 1".to_string()));
    assert_eq!(record.get("name"), Some(&"\"english\"".to_string()));
    assert_eq!(record.get("handle"), None);
    assert_eq!(record.handle.greet(), "hello");
}

#[test]
fn collecting_twice_gives_the_same_records() {
    let registry = registry();
    let first = Collector::new(&registry);
    let second = Collector::new(&registry);
    assert_eq!(first.plugins.len(), second.plugins.len());
    let mut a: Vec<_> = first.plugins.iter().map(|p| data(&p.metadata)).collect();
    let mut b: Vec<_> = second.plugins.iter().map(|p| data(&p.metadata)).collect();
    a.sort();
    b.sort();
    assert_eq!(a, b);
}

#[test]
fn hook_edits_a_copy_and_leaves_the_registry_alone() {
    let registry = registry();
    let collected = Collector::new_with(&registry, |mut record: RawRecord<Factory>| {
        record.metadata[0].value = "\"edited\"".to_string();
        record.factory = french as Factory;
        record
    });
    assert_eq!(collected.plugins.len(), 2);
    for plugin in &collected.plugins {
        assert_eq!(plugin.get("name"), Some(&"\"edited\"".to_string()));
        assert_eq!(plugin.handle.greet(), "bonjour");
    }
    let again = Collector::new(&registry);
    assert_eq!(again.plugins[0].get("name"), Some(&"\"english\"".to_string()));
    assert_eq!(again.plugins[0].handle.greet(), "hello");
    let copies = registry.iterate();
    assert_eq!(copies.len(), 2);
    assert_eq!(data(&copies[1].metadata)[0].1, "\"french\"");
}

#[test]
fn new_is_new_with_a_hook_that_does_nothing() {
    let registry = registry();
    let plain = Collector::new(&registry);
    let hooked = Collector::new_with(&registry, |record: RawRecord<Factory>| record);
    assert_eq!(plain.plugins.len(), hooked.plugins.len());
    for (a, b) in plain.plugins.iter().zip(hooked.plugins.iter()) {
        assert_eq!(data(&a.metadata), data(&b.metadata));
        assert_eq!(a.handle.greet(), b.handle.greet());
    }
}

#[test]
fn lookup_gives_the_first_field_of_a_name() {
    let record = RawRecord {
        metadata: vec![
            Datum { name: "a".to_string(), value: "1".to_string() },
            Datum { name: "a".to_string(), value: "2".to_string() },
        ],
        factory: english as Factory,
    }
    .materialize();
    assert_eq!(record.get("a"), Some(&"1".to_string()));
    assert_eq!(record.get("b"), None);
}
