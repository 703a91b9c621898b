use dyn_inventory::args::Args;
use dyn_inventory::{dyn_inventory, emit, register};

fn tokens(src: &str) -> Result<Vec<proc_macro2::TokenTree>, proc_macro2::LexError> {
    Ok(src.parse::<proc_macro2::TokenStream>()?.into_iter().collect())
}

fn flatten(stream: proc_macro2::TokenStream, out: &mut Vec<String>) {
    for tree in stream {
        match tree {
            proc_macro2::TokenTree::Group(group) => {
                out.push(format!("open {:?}", group.delimiter()));
                flatten(group.stream(), out);
                out.push(format!("close {:?}", group.delimiter()));
            },
            other => out.push(other.to_string()),
        }
    }
}

/// The tokens of a source text, whatever the spacing between them.
fn normal(src: &str) -> Vec<String> {
    let mut out = Vec::new();
    flatten(src.parse::<proc_macro2::TokenStream>().unwrap(), &mut out);
    out
}

fn is_rust(src: &str) -> bool {
    syn::parse_str::<syn::File>(src).is_ok()
}

#[test]
fn record_first_declaration_expands_to_two_records_and_a_collector() {
    let out = dyn_inventory(
        &tokens(
        "Plugin<Handle: MyPlugin> {
            pub name: &'static str,
            desc: &'static str,
            handle: Handle
        };",
        )
        .unwrap(),
    )
    .unwrap();
    let expected = "
        #[derive(Clone)]
        pub struct PluginInit {
            pub name: &'static str,
            desc: &'static str,
            __get: fn() -> Box<dyn MyPlugin>,
        }

        impl From<PluginInit> for Plugin {
            fn from(value: PluginInit) -> Self {
                Self {
                    name: value.name,
                    desc: value.desc,
                    handle: (value.__get)(),
                }
            }
        }

        pub struct Plugin {
            pub name: &'static str,
            desc: &'static str,
            handle: Box<dyn MyPlugin>,
        }

        inventory::collect! {
            PluginInit
        }

        pub struct PluginCollector {
            pub plugins: Vec<Plugin>
        }

        impl PluginCollector {
            pub fn new() -> Self {
                Self::new_with(|_| {})
            }

            pub fn new_with<F: Fn(&mut PluginInit)>(with: F) -> Self {
                let mut plugins = vec![];
                for plugin in inventory::iter::<PluginInit> {
                    let mut plugin = plugin.clone();
                    with(&mut plugin);
                    plugins.push(plugin.into());
                }
                Self { plugins }
            }
        }
    ";
    assert_eq!(normal(&out), normal(expected));
    assert!(is_rust(&out));
}

#[test]
fn interface_first_declaration_expands_to_a_record_a_directive_and_a_collector() {
    let out = dyn_inventory(
        &tokens(
        "MyPlugin: Plugin<Handle> {
            pub name: &'static str,
            handle: Handle,
            desc: &'static str,
        };
        macro_name = new_plugin",
        )
        .unwrap(),
    )
    .unwrap();
    let expected = "
        #[derive(Clone)]
        pub struct Plugin<Handle> {
            pub name: &'static str,
            desc: &'static str,
            handle: Handle,
        }

        impl<Handle> Plugin<Handle> {
            pub const fn new(
                name: &'static str,
                desc: &'static str,
                handle: Handle,
            ) -> Self {
                Self {
                    name: name,
                    desc: desc,
                    handle: handle,
                }
            }
        }

        inventory::collect! {
            Plugin<fn() -> Box<dyn MyPlugin>>
        }

        #[macro_export]
        macro_rules! new_plugin {
            (
                name = $name: expr;
                desc = $desc: expr;
            ) => {
                new_plugin! {
                    pub HandleMyPlugin {
                        name = $name;
                        desc = $desc;
                    }
                }
            };
            (
                $vis: vis $plugin: ident {
                    name = $name: expr;
                    desc = $desc: expr;
                }
            ) => {
                struct $plugin;

                fn get() -> Box<dyn MyPlugin> {
                    Box::new($plugin)
                }

                inventory::submit! {
                    Plugin::<fn() -> Box<dyn MyPlugin>>::new(
                        $name,
                        $desc,
                        get
                    )
                }
            }
        }

        pub struct PluginCollector {
            pub plugins: Vec<Plugin<Box<dyn MyPlugin>>>
        }

        impl PluginCollector {
            pub fn new() -> Self {
                Self::new_with(|_| {})
            }

            pub fn new_with<F: Fn(&mut Plugin<fn() -> Box<dyn MyPlugin>>)>(with: F) -> Self {
                let mut plugins = vec![];
                for plugin in inventory::iter::<Plugin<fn() -> Box<dyn MyPlugin>>> {
                    let mut plugin = plugin.clone();
                    with(&mut plugin);
                    plugins.push(Plugin::new(
                        plugin.name,
                        plugin.desc,
                        (plugin.handle)()
                    ));
                }
                Self { plugins }
            }
        }
    ";
    assert_eq!(normal(&out), normal(expected));
    assert!(is_rust(&out));
}

#[test]
fn site_expands_to_an_implementor_and_a_submission() {
    let schema = Args::parse(
        &tokens(
            "Plugin<Handle: MyPlugin> { name: &'static str, desc: &'static str, handle: Handle }",
        )
        .unwrap(),
    )
    .unwrap();
    let out = emit(
        &schema,
        &tokens(
        "Handle MyPlugin as Plugin {
            name = \"my plugin for abc-framework\",
            desc = \"implements my plugin by doing xyz\",
        }",
        )
        .unwrap(),
    )
    .unwrap();
    let expected = "
        struct Handle;

        fn get() -> Box<dyn MyPlugin> {
            Box::new(Handle)
        }

        inventory::submit! {
            PluginInit {
                name: \"my plugin for abc-framework\",
                desc: \"implements my plugin by doing xyz\",
                __get: get
            }
        }
    ";
    assert_eq!(normal(&out), normal(expected));
    assert!(is_rust(&out));
}

#[test]
fn directive_expands_to_an_implementor_and_a_submission() {
    let schema = Args::parse(
        &tokens("HandlesFlag: Flag<Handle> { pub name: &'static str, handle: Handle };").unwrap(),
    )
    .unwrap();
    let expected = |implementor: &str| {
        format!(
            "struct {0};
            fn get() -> Box<dyn HandlesFlag> {{ Box::new({0}) }}
            inventory::submit! {{
                Flag::<fn() -> Box<dyn HandlesFlag>>::new(\"my flag for abc-cli\", get)
            }}",
            implementor
        )
    };
    let out = register(&schema, &tokens("name = \"my flag for abc-cli\";").unwrap()).unwrap();
    assert_eq!(normal(&out), normal(&expected("HandleHandlesFlag")));
    assert!(is_rust(&out));
    let out = register(&schema, &tokens("pub MyFlag { name = \"my flag for abc-cli\"; }").unwrap()).unwrap();
    assert_eq!(normal(&out), normal(&expected("MyFlag")));
}

#[test]
fn to_tokens_appends_the_expansion() {
    let args = Args::parse(&tokens("Flag<H: HandlesFlag> { h: H }").unwrap()).unwrap();
    let mut out = String::from("mod flags;");
    assert_eq!(args.to_tokens(&mut out), Ok(()));
    assert_eq!(out, format!("mod flags;{}", args.expand().unwrap()));
    assert_eq!(dyn_inventory(&tokens("Flag<H: HandlesFlag> { h: H }").unwrap()), args.expand());
}

#[test]
fn bodies_hold_one_piece_for_each_field() {
    let args = Args::parse(
        &tokens("Plugin<H: Api> { pub name: &'static str, h: H, version: u32 }").unwrap(),
    )
    .unwrap();
    assert_eq!(
        args.raw_body(),
        "pub name: & 'static str,  version: u32,  __get: fn() -> Box<dyn Api>, "
    );
    assert_eq!(
        args.final_body(),
        "pub name: & 'static str,  version: u32,  h: Box<dyn Api>, "
    );
    assert_eq!(
        args.conversion_body(),
        "name: value.name, version: value.version, h: (value.__get)(), "
    );
    assert_eq!(args.metadata_names(), vec!["name".to_string(), "version".to_string()]);
}

#[test]
fn collecting_fields_puts_the_handle_last() {
    let args = Args::parse(&tokens("Plugin<H: Api> { a: u8, h: H, b: u8 }").unwrap()).unwrap();
    let names = args.collect_fields(&|f: &dyn_inventory::args::Field| format!("{} ", f.name), &args.generic_param);
    assert_eq!(names, "a b h ");
    let marked = args.collect_fields_or_generic(
        &|f: &dyn_inventory::args::Field| format!("{} ", f.name),
        &|f: &dyn_inventory::args::Field| format!("[{}] ", f.name),
        "H".to_string(),
    );
    assert_eq!(marked, "a b [h] ");
    // under another parameter no field is a handle
    let plain = args.collect_fields_or_generic(
        &|f: &dyn_inventory::args::Field| format!("{} ", f.name),
        &|f: &dyn_inventory::args::Field| format!("[{}] ", f.name),
        "T".to_string(),
    );
    assert_eq!(plain, "a h b ");
}
