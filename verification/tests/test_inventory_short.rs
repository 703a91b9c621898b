use dyn_inventory::args::Args;
use dyn_inventory::declare::{EmitArgs, Site};
use dyn_inventory::registry::{Collector, Registry};

fn tokens(src: &str) -> Result<Vec<proc_macro2::TokenTree>, proc_macro2::LexError> {
    Ok(src.parse::<proc_macro2::TokenStream>()?.into_iter().collect())
}

pub trait HandlesFlag {
    fn handle(&self);
}

struct Handle;

impl HandlesFlag for Handle {
    fn handle(&self) {}
}

fn get() -> Box<dyn HandlesFlag> {
    Box::new(Handle)
}

type Factory = fn() -> Box<dyn HandlesFlag>;

fn quoted(text: &str) -> String {
    format!("{:?}", text)
}

#[test]
fn test_inventory_short_e2e() {
    // the record-first surface
    let schema = Args::parse(
        &tokens(
            "Flag <Handle: HandlesFlag> {
                pub name: &'static str,
                handle: Handle
            };",
        )
        .unwrap(),
    )
    .unwrap();
    let site = EmitArgs::parse(
        &tokens(
            "Handle HandlesFlag as Flag {
                name = \"my flag for abc-cli\"
            }",
        )
        .unwrap(),
    )
    .unwrap();
    assert_eq!(site.check(&schema), Ok(()));
    let mut registry: Registry<Factory> = Registry::new();
    registry.register(site.record(get as Factory));
    let collected = Collector::new(&registry);
    assert_eq!(collected.plugins.len(), 1);
    for plugin in &collected.plugins {
        plugin.handle.handle();
        assert_eq!(plugin.get("name"), Some(&quoted("my flag for abc-cli")));
    }

    // the interface-first surface: the directive holds the assignments alone
    let schema = Args::parse(
        &tokens(
            "HandlesFlag: Flag<Handle> {
                pub name: &'static str,
                handle: Handle
            };
            macro_name = new_flag,
            handle_name = Handle",
        )
        .unwrap(),
    )
    .unwrap();
    assert_eq!(schema.init_name, "new_flag");
    assert_eq!(schema.handle_name, "Handle");
    let site =
        EmitArgs::parse_directive(&tokens("name = \"my flag for abc-cli\";").unwrap(), &schema)
            .unwrap();
    assert_eq!(site.site, Site::Bare);
    assert_eq!(site.handle_name, "Handle");
    assert_eq!(site.check(&schema), Ok(()));
    let mut registry: Registry<Factory> = Registry::new();
    registry.register(site.record(get as Factory));
    let collected = Collector::new(&registry);
    assert_eq!(collected.plugins.len(), 1);
    for plugin in &collected.plugins {
        plugin.handle.handle();
        assert_eq!(plugin.get("name"), Some(&quoted("my flag for abc-cli")));
    }
}
