//! The names that a declaration implies: the initialization name, the name
//! of the default implementor type and the name of the collector.
//!
//! Each has a default that is derived from the declaration's primary names,
//! and the first two can be overridden by an option.

use vstd::prelude::*;
use vstd::string::StringExecFns;

verus! {

/// The two surfaces of the declaration grammar.
#[derive(Clone, Copy, Debug, PartialEq, Eq, Structural)]
pub enum Surface {
    /// `Interface: Record<Param> { fields }; options`
    InterfaceFirst,
    /// `Record<Param: Interface> { fields } ; options`
    RecordFirst,
}

/// The names that options may override, each `None` where the default
/// stands.
#[derive(Clone, Debug)]
pub struct Overrides {
    /// The initialization name.
    pub init_name: Option<String>,
    /// The name of the default implementor type.
    pub handle_name: Option<String>,
}

/// The mathematical value of [`Overrides`].
pub struct OverridesView {
    pub init_name: Option<Seq<char>>,
    pub handle_name: Option<Seq<char>>,
}

/// The text of an optional string.
pub open spec fn optional_text(text: Option<String>) -> Option<Seq<char>> {
    match text {
        Some(t) => Some(t@),
        None => None,
    }
}

impl View for Overrides {
    type V = OverridesView;

    open spec fn view(&self) -> OverridesView {
        OverridesView {
            init_name: optional_text(self.init_name),
            handle_name: optional_text(self.handle_name),
        }
    }
}

/// The derived names of one declaration.
#[derive(Clone, Debug)]
pub struct Names {
    /// The initialization name: the registration directive of the
    /// interface-first surface, the pre-materialization record of the
    /// record-first surface.
    pub init_name: String,
    /// The name of the implementor type of a registration site that gives
    /// none.
    pub handle_name: String,
    /// The name of the collector type.
    pub collector_name: String,
}

/// The mathematical value of [`Names`].
pub struct NamesView {
    pub init_name: Seq<char>,
    pub handle_name: Seq<char>,
    pub collector_name: Seq<char>,
}

impl View for Names {
    type V = NamesView;

    open spec fn view(&self) -> NamesView {
        NamesView {
            init_name: self.init_name@,
            handle_name: self.handle_name@,
            collector_name: self.collector_name@,
        }
    }
}

/// What `convert_case` turns a name into for `Case::Snake`.
pub uninterp spec fn snake_case_of(name: Seq<char>) -> Seq<char>;

/// Converts with `convert_case::Casing::to_case` and `Case::Snake`, which
/// splits the name into words at its default boundaries, puts them in lower
/// case and joins them with `_`. The contract names the outcome
/// [`snake_case_of`] and claims nothing else.
#[verifier::external_body]
pub(crate) fn snake_case(name: &str) -> (out: String)
    ensures
        out@ == snake_case_of(name@),
{
    convert_case::Casing::to_case(&name, convert_case::Case::Snake)
}

/// The name of the pre-materialization record of the record-first surface:
/// the record's name followed by `Init`.
pub open spec fn init_of(record: Seq<char>) -> Seq<char> {
    record + "Init"@
}

/// The default initialization name of a declaration.
pub open spec fn default_init_name(surface: Surface, record: Seq<char>) -> Seq<char> {
    match surface {
        Surface::InterfaceFirst => snake_case_of(record),
        Surface::RecordFirst => init_of(record),
    }
}

/// The default name of the implementor type: `Handle` followed by the
/// interface's name.
pub open spec fn default_handle_name(interface: Seq<char>) -> Seq<char> {
    "Handle"@ + interface
}

/// The name of the collector type: the record's name followed by
/// `Collector`.
pub open spec fn collector_name_of(record: Seq<char>) -> Seq<char> {
    record + "Collector"@
}

/// The names of a declaration: each override where there is one, the
/// default elsewhere.
pub open spec fn resolved(
    surface: Surface,
    interface: Seq<char>,
    record: Seq<char>,
    overrides: OverridesView,
) -> NamesView {
    NamesView {
        init_name: match overrides.init_name {
            Some(name) => name,
            None => default_init_name(surface, record),
        },
        handle_name: match overrides.handle_name {
            Some(name) => name,
            None => default_handle_name(interface),
        },
        collector_name: collector_name_of(record),
    }
}

/// The name of the pre-materialization record that belongs to `record`.
pub fn init(record: &str) -> (name: String)
    ensures
        name@ == init_of(record@),
{
    String::from_str(record).concat("Init")
}

/// The name of the collector type that belongs to `record`.
pub fn collector_name(record: &str) -> (name: String)
    ensures
        name@ == collector_name_of(record@),
{
    String::from_str(record).concat("Collector")
}

/// Derives the names of a declaration from its primary names and the
/// overrides that its options gave.
pub fn resolve(surface: Surface, interface: &str, record: &str, overrides: Overrides) -> (names:
    Names)
    ensures
        names@ == resolved(surface, interface@, record@, overrides@),
{
    let init_name = match overrides.init_name {
        Some(name) => name,
        None => match surface {
            Surface::InterfaceFirst => snake_case(record),
            Surface::RecordFirst => init(record),
        },
    };
    let handle_name = match overrides.handle_name {
        Some(name) => name,
        None => String::from_str("Handle").concat(interface),
    };
    Names { init_name, handle_name, collector_name: collector_name(record) }
}

/// An override replaces exactly the name it is given for: all other names
/// are what they are without it.
pub proof fn overriding_one_name_keeps_the_others(
    surface: Surface,
    interface: Seq<char>,
    record: Seq<char>,
    overrides: OverridesView,
    name: Seq<char>,
)
    ensures
        ({
            let before = resolved(surface, interface, record, overrides);
            let after = resolved(
                surface,
                interface,
                record,
                OverridesView { init_name: Some(name), ..overrides },
            );
            &&& after.init_name == name
            &&& after.handle_name == before.handle_name
            &&& after.collector_name == before.collector_name
        }),
        ({
            let before = resolved(surface, interface, record, overrides);
            let after = resolved(
                surface,
                interface,
                record,
                OverridesView { handle_name: Some(name), ..overrides },
            );
            &&& after.handle_name == name
            &&& after.init_name == before.init_name
            &&& after.collector_name == before.collector_name
        }),
{
}

} // verus!
