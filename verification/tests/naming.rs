use dyn_inventory::args::Args;
use dyn_inventory::naming::{collector_name, init, resolve, Overrides, Surface};

fn tokens(src: &str) -> Result<Vec<proc_macro2::TokenTree>, proc_macro2::LexError> {
    Ok(src.parse::<proc_macro2::TokenStream>()?.into_iter().collect())
}

fn none() -> Overrides {
    Overrides { init_name: None, handle_name: None }
}

#[test]
fn defaults_follow_the_record_and_the_interface() {
    let names = resolve(Surface::InterfaceFirst, "MyPlugin", "Plugin", none());
    assert_eq!(names.init_name, "plugin");
    assert_eq!(names.handle_name, "HandleMyPlugin");
    assert_eq!(names.collector_name, "PluginCollector");
    let names = resolve(Surface::RecordFirst, "MyPlugin", "Plugin", none());
    assert_eq!(names.init_name, "PluginInit");
    assert_eq!(names.handle_name, "HandleMyPlugin");
    assert_eq!(names.collector_name, "PluginCollector");
}

#[test]
fn snake_case_splits_the_words_of_the_record() {
    let names = resolve(Surface::InterfaceFirst, "Greeter", "GreeterPlugin", none());
    assert_eq!(names.init_name, "greeter_plugin");
}

#[test]
fn overriding_the_initialization_name_changes_only_that_name() {
    let overrides = Overrides { init_name: Some("new_plugin".to_string()), handle_name: None };
    let names = resolve(Surface::InterfaceFirst, "MyPlugin", "Plugin", overrides);
    assert_eq!(names.init_name, "new_plugin");
    assert_eq!(names.handle_name, "HandleMyPlugin");
    assert_eq!(names.collector_name, "PluginCollector");
}

#[test]
fn overriding_the_handle_name_changes_only_that_name() {
    let overrides = Overrides { init_name: None, handle_name: Some("TheImpl".to_string()) };
    let names = resolve(Surface::InterfaceFirst, "MyPlugin", "Plugin", overrides);
    assert_eq!(names.init_name, "plugin");
    assert_eq!(names.handle_name, "TheImpl");
    assert_eq!(names.collector_name, "PluginCollector");
}

#[test]
fn derived_names_are_suffixed() {
    assert_eq!(init("Flag"), "FlagInit");
    assert_eq!(collector_name("Flag"), "FlagCollector");
}

#[test]
fn declarations_carry_their_names() {
    let args = Args::parse(&tokens("MyPlugin: Plugin<Handle> { handle: Handle };").unwrap())
        .unwrap();
    assert_eq!(args.init_name, "plugin");
    assert_eq!(args.handle_name, "HandleMyPlugin");
    assert_eq!(args.collector_name(), "PluginCollector");
    let args = Args::parse(
        &tokens("Plugin<Handle: MyPlugin> { handle: Handle }; init_name = Raw").unwrap(),
    )
    .unwrap();
    assert_eq!(args.init_name, "Raw");
    assert_eq!(args.handle_name, "HandleMyPlugin");
    assert_eq!(args.collector_name(), "PluginCollector");
}
