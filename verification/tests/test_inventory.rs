use dyn_inventory::args::Args;
use dyn_inventory::declare::EmitArgs;
use dyn_inventory::naming::Surface;
use dyn_inventory::registry::{Collector, Registry};

fn tokens(src: &str) -> Result<Vec<proc_macro2::TokenTree>, proc_macro2::LexError> {
    Ok(src.parse::<proc_macro2::TokenStream>()?.into_iter().collect())
}

pub trait MyPlugin {
    fn value(&self) -> &'static str;
}

struct Handle;

impl MyPlugin for Handle {
    fn value(&self) -> &'static str {
        "some dynamic value"
    }
}

fn get() -> Box<dyn MyPlugin> {
    Box::new(Handle)
}

type Factory = fn() -> Box<dyn MyPlugin>;

fn quoted(text: &str) -> String {
    format!("{:?}", text)
}

#[test]
fn test_inventory_e2e() {
    // the record-first surface, with a registration site that stands alone
    let declaration = tokens(
        "Plugin<Handle: MyPlugin> {
            pub name: &'static str,
            pub desc: &'static str,
            handle: Handle
        };",
    )
    .unwrap();
    let schema = Args::parse(&declaration).unwrap();
    assert_eq!(schema.surface, Surface::RecordFirst);
    let site = EmitArgs::parse(
        &tokens(
            "Handle MyPlugin as Plugin {
                name = \"my plugin for abc-framework\",
                desc = \"implements my plugin by doing xyz\",
            }",
        )
        .unwrap(),
    )
    .unwrap();
    assert_eq!(site.check(&schema), Ok(()));

    let mut registry: Registry<Factory> = Registry::new();
    registry.register(site.record(get as Factory));
    let collected = Collector::new(&registry);
    assert_eq!(collected.plugins.len(), 1);
    for plugin in &collected.plugins {
        assert_eq!(plugin.handle.value(), "some dynamic value");
        assert_eq!(plugin.get("name"), Some(&quoted("my plugin for abc-framework")));
    }

    // the interface-first surface, with its registration directive
    let declaration = tokens(
        "MyPlugin: Plugin<Handle> {
            pub name: &'static str,
            desc: &'static str,
            handle: Handle
        };
        macro_name = new_plugin",
    )
    .unwrap();
    let schema = Args::parse(&declaration).unwrap();
    assert_eq!(schema.surface, Surface::InterfaceFirst);
    assert_eq!(schema.init_name, "new_plugin");
    let site = EmitArgs::parse_directive(
        &tokens(
            "Handle {
                name = \"my plugin for abc-framework\";
                desc = \"implements my plugin by doing xyz\";
            }",
        )
        .unwrap(),
        &schema,
    )
    .unwrap();
    assert_eq!(site.check(&schema), Ok(()));

    let mut registry: Registry<Factory> = Registry::new();
    registry.register(site.record(get as Factory));
    let collected = Collector::new(&registry);
    assert_eq!(collected.plugins.len(), 1);
    for plugin in &collected.plugins {
        assert_eq!(plugin.handle.value(), "some dynamic value");
        assert_eq!(plugin.get("name"), Some(&quoted("my plugin for abc-framework")));
    }
}
