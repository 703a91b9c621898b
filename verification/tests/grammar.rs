use dyn_inventory::args::{Args, RefOrTy};
use dyn_inventory::declare::EmitArgs;
use dyn_inventory::error::{Error, ErrorKind, Location, Rule};
use dyn_inventory::naming::Surface;
use dyn_inventory::{dyn_inventory, emit, register};

fn tokens(src: &str) -> Result<Vec<proc_macro2::TokenTree>, proc_macro2::LexError> {
    Ok(src.parse::<proc_macro2::TokenStream>()?.into_iter().collect())
}

fn declared(src: &str) -> Result<Args, Error> {
    Args::parse(&tokens(src).unwrap())
}

fn rejects(src: &str, rule: Rule, at: Location) -> ErrorKind {
    let e = declared(src).err().unwrap();
    assert_eq!(e, Error { rule, at });
    assert_eq!(dyn_inventory(&tokens(src).unwrap()), Err(e));
    e.kind()
}

#[test]
fn both_surfaces_give_the_same_description() {
    let first = declared("Greeter: GreeterPlugin<T> { name: &'static str, version: u32, t: T, };")
        .unwrap();
    let second = declared("GreeterPlugin<T: Greeter> { name: &'static str, version: u32, t: T, }")
        .unwrap();
    assert_eq!(first.surface, Surface::InterfaceFirst);
    assert_eq!(second.surface, Surface::RecordFirst);
    for args in [&first, &second] {
        assert_eq!(args.trait_name, "Greeter");
        assert_eq!(args.struct_name, "GreeterPlugin");
        assert_eq!(args.generic_param, "T");
        assert_eq!(args.fields.len(), 3);
        assert_eq!(args.fields[0].name, "name");
        assert_eq!(args.fields[1].name, "version");
        assert_eq!(args.fields[2].name, "t");
        assert!(args.fields[2].is_handle(&args.generic_param));
        assert!(!args.fields[0].is_handle(&args.generic_param));
    }
}

#[test]
fn fields_hold_visibility_name_and_type() {
    let args = declared(
        "Plugin<H: Api> { pub(crate) name: &'a mut str, tags: std::vec::Vec<(u8, u8)>, pub h: H }",
    )
    .unwrap();
    assert_eq!(args.fields[0].vis, "pub (crate)");
    assert_eq!(args.fields[0].at, 2);
    match &args.fields[0].ty {
        RefOrTy::Ref(r) => {
            assert_eq!(r.lifetime.as_deref(), Some("'a"));
            assert!(r.mutable);
            assert_eq!(r.elem, "str");
        },
        RefOrTy::Ty(_) => panic!("a reference was declared"),
    }
    assert_eq!(args.fields[0].ty.text(), "& 'a mut str");
    assert_eq!(args.fields[1].vis, "");
    assert_eq!(args.fields[1].ty.text(), "std :: vec :: Vec < (u8 , u8) >");
    assert_eq!(args.fields[2].vis, "pub");
    assert_eq!(args.fields[2].ty.text(), "H");
}

#[test]
fn option_value_as_string_literal_is_rejected() {
    let kind = rejects(
        "LiteralRegistry<T: Plugin> { data: u64, t: T, }; init_name = \"MyInit\",",
        Rule::IdentifierValue,
        Location::Outer(10),
    );
    assert_eq!(kind, ErrorKind::Option);
    let kind = rejects(
        "Plugin: LiteralRegistry<T> { data: u64, t: T, }; macro_name = \"name\"",
        Rule::IdentifierValue,
        Location::Outer(10),
    );
    assert_eq!(kind, ErrorKind::Option);
    let kind = rejects(
        "Plugin: LiteralRegistry<T> { data: u64, t: T, }; handle_name = 7",
        Rule::IdentifierValue,
        Location::Outer(10),
    );
    assert_eq!(kind, ErrorKind::Option);
}

#[test]
fn unknown_option_key_is_rejected() {
    let kind = rejects(
        "UnknownKeyRegistry<T: PluginApi> { id: u32, t: T, }; unknown_kw = Bogus,",
        Rule::KnownOption,
        Location::Outer(8),
    );
    assert_eq!(kind, ErrorKind::Option);
    // each surface knows its own keys only
    let kind = rejects(
        "Registry<T: PluginApi> { id: u32, t: T, }; macro_name = register",
        Rule::KnownOption,
        Location::Outer(8),
    );
    assert_eq!(kind, ErrorKind::Option);
    let kind = rejects(
        "PluginApi: Registry<T> { id: u32, t: T, }; init_name = RegistryInit",
        Rule::KnownOption,
        Location::Outer(8),
    );
    assert_eq!(kind, ErrorKind::Option);
}

#[test]
fn reserved_word_as_option_value_is_rejected() {
    let kind = rejects(
        "Registry<T: PluginApi> { id: u32, t: T, }; init_name = struct",
        Rule::UnreservedValue,
        Location::Outer(10),
    );
    assert_eq!(kind, ErrorKind::Option);
}

#[test]
fn missing_punctuation_is_rejected() {
    let grammar = ErrorKind::Grammar;
    assert_eq!(rejects("", Rule::Identifier, Location::Outer(0)), grammar);
    assert_eq!(rejects("Api Registry", Rule::ColonOrOpeningAngle, Location::Outer(1)), grammar);
    assert_eq!(rejects("Api: Registry {}", Rule::OpeningAngle, Location::Outer(3)), grammar);
    assert_eq!(rejects("Registry<T Api> {}", Rule::Colon, Location::Outer(3)), grammar);
    assert_eq!(rejects("Registry<T: Api {}", Rule::ClosingAngle, Location::Outer(5)), grammar);
    assert_eq!(rejects("Registry<T: fn> {}", Rule::Identifier, Location::Outer(4)), grammar);
    assert_eq!(rejects("Registry<T: Api> (t: T)", Rule::Braces, Location::Outer(6)), grammar);
    assert_eq!(rejects("Registry<T: Api>", Rule::Braces, Location::Outer(6)), grammar);
    assert_eq!(
        rejects("Registry<T: Api> { t: T } init_name = A", Rule::Semicolon, Location::Outer(7)),
        grammar
    );
    assert_eq!(rejects("Api: Registry<T> { t: T }", Rule::Semicolon, Location::Outer(7)), grammar);
    assert_eq!(
        rejects("Registry<T: Api> { t: T }; init_name A", Rule::Equals, Location::Outer(9)),
        grammar
    );
    assert_eq!(
        rejects("Registry<T: Api> { t: T }; init_name =", Rule::Identifier, Location::Outer(10)),
        grammar
    );
    assert_eq!(
        rejects(
            "Api: Registry<T> { t: T }; macro_name = a handle_name = B",
            Rule::Comma,
            Location::Outer(11)
        ),
        grammar
    );
    assert_eq!(rejects("Registry<T: Api> { t T }", Rule::Colon, Location::Inner(1)), grammar);
    assert_eq!(rejects("Registry<T: Api> { t: }", Rule::Type, Location::Inner(2)), grammar);
    assert_eq!(rejects("Registry<T: Api> { 7: T }", Rule::Identifier, Location::Inner(0)), grammar);
    assert_eq!(
        rejects("Registry<T: Api> { a: u8 t: T }", Rule::Comma, Location::Inner(3)),
        grammar
    );
    assert_eq!(
        rejects("Registry<T: Api> { pub(in 7) t: T }", Rule::Visibility, Location::Inner(0)),
        grammar
    );
}

#[test]
fn names_of_a_declaration_differ() {
    let grammar = ErrorKind::Grammar;
    assert_eq!(rejects("Api: Api<T> { t: T };", Rule::DistinctNames, Location::Outer(2)), grammar);
    assert_eq!(rejects("Api: Plugin<Api> { t: Api };", Rule::DistinctNames, Location::Outer(4)), grammar);
    assert_eq!(rejects("Plugin<T: Plugin> { t: T }", Rule::DistinctNames, Location::Outer(4)), grammar);
    assert_eq!(rejects("Plugin<Plugin: Api> { t: T }", Rule::DistinctNames, Location::Outer(2)), grammar);
    assert_eq!(rejects("Plugin<T: T> { t: T }", Rule::DistinctNames, Location::Outer(4)), grammar);
    assert_eq!(
        rejects("P: P<P> { a: u8, a: u8, h: P };", Rule::DistinctNames, Location::Outer(2)),
        grammar
    );
}

#[test]
fn fields_of_a_record_have_different_names() {
    let grammar = ErrorKind::Grammar;
    assert_eq!(
        rejects("Plugin<T: Api> { a: u8, a: u8, h: T }", Rule::UniqueField, Location::Inner(4)),
        grammar
    );
    assert_eq!(
        rejects("Api: Plugin<T> { a: u8, h: T, h: u8 };", Rule::UniqueField, Location::Inner(8)),
        grammar
    );
    // the record-first surface names the factory `__get`
    assert_eq!(
        rejects("Plugin<T: Api> { __get: u8, h: T }", Rule::UniqueField, Location::Inner(0)),
        grammar
    );
    assert!(declared("Plugin<T: Api> { __get: T }").is_ok());
    assert!(declared("Api: Plugin<T> { __get: u8, h: T };").is_ok());
    // a clash is reported before a missing handle
    assert_eq!(
        rejects("Plugin<T: Api> { a: u8, a: u8 }", Rule::UniqueField, Location::Inner(4)),
        grammar
    );
}

#[test]
fn declarations_built_by_hand_are_checked() {
    let mut args = declared("Plugin<T: Api> { a: u8, h: T }").unwrap();
    assert_eq!(args.check(), Ok(()));
    assert!(args.expand().is_ok());
    args.fields.pop();
    let none = Error { rule: Rule::SomeHandle, at: Location::Outer(6) };
    assert_eq!(args.check(), Err(none));
    assert_eq!(args.expand(), Err(none));
    let mut text = String::from("kept");
    assert_eq!(args.to_tokens(&mut text), Err(none));
    assert_eq!(text, "kept");
    let mut args = declared("Plugin<T: Api> { a: u8, h: T }").unwrap();
    let again = args.fields[1].clone();
    let at = again.at;
    args.fields.push(again);
    let clash = Error { rule: Rule::UniqueField, at: Location::Inner(at) };
    assert_eq!(args.expand(), Err(clash));
    let mut args = declared("Plugin<T: Api> { g: T, h: T0 }").unwrap();
    args.fields[1].ty = args.fields[0].ty.clone();
    let at = args.fields[1].at;
    let many = Error { rule: Rule::OneHandle, at: Location::Inner(at) };
    assert_eq!(args.check(), Err(many));
    assert_eq!(many.kind(), ErrorKind::AmbiguousHandle);
    args.trait_name = "Plugin".to_string();
    assert_eq!(
        args.expand(),
        Err(Error { rule: Rule::DistinctNames, at: Location::Outer(4) })
    );
}

#[test]
fn exactly_one_handle_field_is_asked_for() {
    let kind = rejects("Registry<T: Api> { id: u32 }", Rule::SomeHandle, Location::Outer(6));
    assert_eq!(kind, ErrorKind::AmbiguousHandle);
    let kind = rejects("Registry<T: Api> { }", Rule::SomeHandle, Location::Outer(6));
    assert_eq!(kind, ErrorKind::AmbiguousHandle);
    let kind =
        rejects("Registry<T: Api> { a: T, id: u32, b: T }", Rule::OneHandle, Location::Inner(8));
    assert_eq!(kind, ErrorKind::AmbiguousHandle);
    // the match is textual: a reference to the parameter is no handle
    let kind = rejects("Registry<T: Api> { a: &T }", Rule::SomeHandle, Location::Outer(6));
    assert_eq!(kind, ErrorKind::AmbiguousHandle);
}

#[test]
fn later_options_replace_earlier_ones() {
    let args = declared(
        "Api: Registry<T> { t: T }; macro_name = first, handle_name = Impl, macro_name = second,",
    )
    .unwrap();
    assert_eq!(args.init_name, "second");
    assert_eq!(args.handle_name, "Impl");
}

#[test]
fn sites_are_parsed() {
    let site = EmitArgs::parse(
        &tokens("MyGreeter Greeter as GreeterPlugin { name = \"hello\", version = 1 + 2, }")
            .unwrap(),
    )
    .unwrap();
    assert_eq!(site.handle_name, "MyGreeter");
    assert_eq!(site.trait_name, "Greeter");
    assert_eq!(site.plugin_name, "GreeterPlugin");
    assert_eq!(site.fields.len(), 2);
    assert_eq!(site.fields[0].name, "name");
    assert_eq!(site.fields[0].value, "\"hello\"");
    assert_eq!(site.fields[1].name, "version");
    assert_eq!(site.fields[1].value, "1 + 2");
    assert_eq!(site.fields[1].at, 4);
}

fn site_error(src: &str) -> Error {
    let e = EmitArgs::parse(&tokens(src).unwrap()).err().unwrap();
    // a site that is malformed is rejected whatever it registers with
    assert_eq!(emit(&schema(), &tokens(src).unwrap()), Err(e));
    e
}

#[test]
fn malformed_sites_are_rejected() {
    let outer = |rule, i| Error { rule, at: Location::Outer(i) };
    let inner = |rule, i| Error { rule, at: Location::Inner(i) };
    assert_eq!(site_error("Handle"), outer(Rule::Identifier, 1));
    assert_eq!(site_error("Handle Api for Plugin {}"), outer(Rule::As, 2));
    assert_eq!(site_error("Handle Api as {}"), outer(Rule::Identifier, 3));
    assert_eq!(site_error("Handle Api as Plugin"), outer(Rule::Braces, 4));
    assert_eq!(site_error("Handle Api as Plugin {} more"), outer(Rule::End, 5));
    assert_eq!(site_error("Handle Api as Plugin { a 1 }"), inner(Rule::Equals, 1));
    assert_eq!(site_error("Handle Api as Plugin { a = }"), inner(Rule::Expression, 2));
    assert_eq!(site_error("Handle Api as Plugin { a = 1 b = 2 }"), inner(Rule::Comma, 3));
    assert_eq!(site_error("Handle Api as Plugin { a = 1; }"), inner(Rule::Comma, 3));
}

fn schema() -> Args {
    declared("Plugin<H: Api> { name: &'static str, desc: &'static str, handle: H }").unwrap()
}

#[test]
fn site_naming_an_undeclared_field_is_rejected() {
    let e = emit(
        &schema(),
        &tokens("Handle Api as Plugin { name = \"n\", title = \"t\" }").unwrap(),
    )
    .err()
    .unwrap();
    assert_eq!(e, Error { rule: Rule::DeclaredField, at: Location::Inner(4) });
    assert_eq!(e.kind(), ErrorKind::FieldMismatch);
    // the handle field is no metadata field
    let e = emit(&schema(), &tokens("Handle Api as Plugin { handle = get }").unwrap()).err().unwrap();
    assert_eq!(e, Error { rule: Rule::DeclaredField, at: Location::Inner(0) });
}

#[test]
fn site_leaving_a_field_out_is_rejected() {
    let e = emit(&schema(), &tokens("Handle Api as Plugin { desc = \"d\" }").unwrap()).err().unwrap();
    assert_eq!(e, Error { rule: Rule::EveryField, at: Location::Outer(4) });
    assert_eq!(e.kind(), ErrorKind::FieldMismatch);
}

#[test]
fn site_assigning_a_field_twice_is_rejected() {
    let e = emit(&schema(), &tokens("Handle Api as Plugin { name = \"a\", name = \"b\", desc = \"d\" }").unwrap())
        .err()
        .unwrap();
    assert_eq!(e, Error { rule: Rule::FieldOnce, at: Location::Inner(4) });
    assert_eq!(e.kind(), ErrorKind::FieldMismatch);
}

#[test]
fn site_that_breaks_the_rule_of_its_fields_expands_to_nothing() {
    let site =
        EmitArgs::parse(&tokens("Handle Api as Plugin { name = \"x\", bogus = 1 }").unwrap())
            .unwrap();
    let stray = Error { rule: Rule::DeclaredField, at: Location::Inner(4) };
    assert_eq!(site.expand(&schema()), Err(stray));
    let mut text = String::from("kept");
    assert_eq!(site.to_tokens(&schema(), &mut text), Err(stray));
    assert_eq!(text, "kept");
    let site = EmitArgs::parse(&tokens("Handle Api as Plugin { name = \"x\" }").unwrap()).unwrap();
    let missing = Error { rule: Rule::EveryField, at: Location::Outer(4) };
    assert_eq!(site.expand(&schema()), Err(missing));
    assert_eq!(site.to_tokens(&schema(), &mut text), Err(missing));
    assert_eq!(text, "kept");
    let site = EmitArgs::parse(
        &tokens("Handle Api as Plugin { name = \"x\", desc = \"y\" }").unwrap(),
    )
    .unwrap();
    assert_eq!(site.to_tokens(&schema(), &mut text), Ok(()));
    assert_eq!(text, format!("kept{}", site.expand(&schema()).unwrap()));
}

#[test]
fn site_may_assign_in_any_order() {
    assert!(emit(&schema(), &tokens("Handle Api as Plugin { desc = \"d\", name = \"n\" }").unwrap()).is_ok());
}

#[test]
fn directive_follows_the_declaration() {
    let schema =
        declared("Api: Plugin<H> { name: &'static str, desc: &'static str, handle: H };").unwrap();
    assert!(register(&schema, &tokens("name = \"n\"; desc = \"d\";").unwrap()).is_ok());
    assert!(register(&schema, &tokens("pub Mine { name = \"n\"; desc = \"d\"; }").unwrap()).is_ok());
    assert_eq!(
        register(&schema, &tokens("desc = \"d\"; name = \"n\";").unwrap()),
        Err(Error { rule: Rule::FieldOrder, at: Location::Outer(0) })
    );
    assert_eq!(
        register(&schema, &tokens("Mine { name = \"n\"; }").unwrap()),
        Err(Error { rule: Rule::EveryField, at: Location::Outer(1) })
    );
    assert_eq!(
        register(&schema, &tokens("Mine { name = \"n\"; other = 1; }").unwrap()),
        Err(Error { rule: Rule::DeclaredField, at: Location::Inner(4) })
    );
    assert_eq!(
        register(&schema, &tokens("name = \"n\"; desc = \"d\"").unwrap()),
        Err(Error { rule: Rule::Semicolon, at: Location::Outer(7) })
    );
    assert_eq!(
        register(&schema, &tokens("Mine { name = \"n\", desc = \"d\", }").unwrap()),
        Err(Error { rule: Rule::Semicolon, at: Location::Inner(3) })
    );
    assert_eq!(
        register(&schema, &tokens("Mine").unwrap()),
        Err(Error { rule: Rule::Braces, at: Location::Outer(1) })
    );
    assert_eq!(
        register(&schema, &tokens("Mine { name = \"n\"; desc = \"d\"; } more").unwrap()),
        Err(Error { rule: Rule::End, at: Location::Outer(2) })
    );
    assert_eq!(
        register(&schema, &tokens("{ name = \"n\"; desc = \"d\"; }").unwrap()),
        Err(Error { rule: Rule::Identifier, at: Location::Outer(0) })
    );
}

#[test]
fn every_rule_has_a_message() {
    let e = Error { rule: Rule::KnownOption, at: Location::Outer(8) };
    assert_eq!(e.message(), "unknown keyword");
    let e = Error { rule: Rule::Semicolon, at: Location::Outer(7) };
    assert_eq!(e.message(), "expected `;`");
    let e = Error { rule: Rule::Identifier, at: Location::Outer(0) };
    assert_eq!(e.message(), "expected identifier");
}
