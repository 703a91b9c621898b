//! The diagnostics of generation: which rule was broken, and where.

use vstd::prelude::*;
use vstd::string::StringExecFns;

verus! {

/// The four classes of diagnostics.
#[derive(Clone, Copy, Debug, PartialEq, Eq, Structural)]
pub enum ErrorKind {
    /// A malformed token sequence: a token of the wrong kind, or missing
    /// punctuation.
    Grammar,
    /// An unknown option key, or an option value that is no usable
    /// identifier.
    Option,
    /// No field, or more than one, has the generic parameter as its type.
    AmbiguousHandle,
    /// A registration site that supplies other fields than the metadata
    /// fields of its schema.
    FieldMismatch,
}

/// The rule that an input broke.
#[derive(Clone, Copy, Debug, PartialEq, Eq, Structural)]
pub enum Rule {
    /// An identifier stands here.
    Identifier,
    /// `:` stands here.
    Colon,
    /// `<` stands here.
    OpeningAngle,
    /// `>` stands here.
    ClosingAngle,
    /// After the first name comes `:` or `<`.
    ColonOrOpeningAngle,
    /// A group in braces stands here.
    Braces,
    /// `;` stands here.
    Semicolon,
    /// `=` stands here.
    Equals,
    /// `,` stands here.
    Comma,
    /// `as` stands here.
    As,
    /// A visibility stands here.
    Visibility,
    /// A type path or a reference type stands here.
    Type,
    /// An expression stands here.
    Expression,
    /// The directive ends here.
    End,
    /// The interface, the record and the generic parameter have different
    /// names.
    DistinctNames,
    /// No field has the name of another field of a generated record.
    UniqueField,
    /// An option's key is one of those that the declaration's form knows.
    KnownOption,
    /// An option's value is an identifier, not a literal or punctuation.
    IdentifierValue,
    /// An option's value is no reserved word.
    UnreservedValue,
    /// Some field has the generic parameter as its type.
    SomeHandle,
    /// No second field has the generic parameter as its type.
    OneHandle,
    /// A registration site assigns only metadata fields of its schema.
    DeclaredField,
    /// A registration site assigns no field twice.
    FieldOnce,
    /// A registration site assigns every metadata field of its schema.
    EveryField,
    /// A registration directive assigns the metadata fields in the order of
    /// their declaration.
    FieldOrder,
}

/// Where in a directive a rule was broken. An index that equals the number
/// of tokens stands for the end of the sequence.
#[derive(Clone, Copy, Debug, PartialEq, Eq, Structural)]
pub enum Location {
    /// At the token with this index in the directive.
    Outer(usize),
    /// At the token with this index inside the directive's braces.
    Inner(usize),
}

/// One diagnostic: generation stops at the first rule that is broken.
#[derive(Clone, Copy, Debug, PartialEq, Eq, Structural)]
pub struct Error {
    /// The rule that was broken.
    pub rule: Rule,
    /// The place of the offending token.
    pub at: Location,
}

/// The class of diagnostics that a broken rule belongs to.
pub open spec fn kind_of_rule(rule: Rule) -> ErrorKind {
    match rule {
        Rule::KnownOption | Rule::IdentifierValue | Rule::UnreservedValue => ErrorKind::Option,
        Rule::SomeHandle | Rule::OneHandle => ErrorKind::AmbiguousHandle,
        Rule::DeclaredField | Rule::FieldOnce | Rule::EveryField | Rule::FieldOrder => {
            ErrorKind::FieldMismatch
        },
        _ => ErrorKind::Grammar,
    }
}

/// What a diagnostic says of a broken rule.
pub open spec fn message_of_rule(rule: Rule) -> Seq<char> {
    match rule {
        Rule::Identifier => "expected identifier"@,
        Rule::Colon => "expected `:`"@,
        Rule::OpeningAngle => "expected `<`"@,
        Rule::ClosingAngle => "expected `>`"@,
        Rule::ColonOrOpeningAngle => "expected `:` or `<`"@,
        Rule::Braces => "expected curly braces"@,
        Rule::Semicolon => "expected `;`"@,
        Rule::Equals => "expected `=`"@,
        Rule::Comma => "expected `,`"@,
        Rule::As => "expected `as`"@,
        Rule::Visibility => "expected visibility"@,
        Rule::Type => "expected type"@,
        Rule::Expression => "expected expression"@,
        Rule::End => "unexpected token"@,
        Rule::DistinctNames => "the name is already taken by the declaration"@,
        Rule::UniqueField => "the name is already taken by a field of the record"@,
        Rule::KnownOption => "unknown keyword"@,
        Rule::IdentifierValue => "expected identifier as the option's value"@,
        Rule::UnreservedValue => "expected identifier, found keyword"@,
        Rule::SomeHandle => "no field has the generic parameter as its type"@,
        Rule::OneHandle => "more than one field has the generic parameter as its type"@,
        Rule::DeclaredField => "no such field in the declaration"@,
        Rule::FieldOnce => "field assigned more than once"@,
        Rule::EveryField => "missing field"@,
        Rule::FieldOrder => "fields are assigned in the order of their declaration"@,
    }
}

impl Error {
    /// The class of this diagnostic.
    pub open spec fn spec_kind(&self) -> ErrorKind {
        kind_of_rule(self.rule)
    }

    /// The class of this diagnostic.
    #[verifier::when_used_as_spec(spec_kind)]
    pub fn kind(&self) -> (kind: ErrorKind)
        ensures
            kind == kind_of_rule(self.rule),
    {
        match self.rule {
            Rule::KnownOption | Rule::IdentifierValue | Rule::UnreservedValue => ErrorKind::Option,
            Rule::SomeHandle | Rule::OneHandle => ErrorKind::AmbiguousHandle,
            Rule::DeclaredField | Rule::FieldOnce | Rule::EveryField | Rule::FieldOrder => {
                ErrorKind::FieldMismatch
            },
            _ => ErrorKind::Grammar,
        }
    }

    /// The diagnostic's message.
    pub fn message(&self) -> (text: String)
        ensures
            text@ == message_of_rule(self.rule),
    {
        let text: &str = match self.rule {
            Rule::Identifier => "expected identifier",
            Rule::Colon => "expected `:`",
            Rule::OpeningAngle => "expected `<`",
            Rule::ClosingAngle => "expected `>`",
            Rule::ColonOrOpeningAngle => "expected `:` or `<`",
            Rule::Braces => "expected curly braces",
            Rule::Semicolon => "expected `;`",
            Rule::Equals => "expected `=`",
            Rule::Comma => "expected `,`",
            Rule::As => "expected `as`",
            Rule::Visibility => "expected visibility",
            Rule::Type => "expected type",
            Rule::Expression => "expected expression",
            Rule::End => "unexpected token",
            Rule::DistinctNames => "the name is already taken by the declaration",
            Rule::UniqueField => "the name is already taken by a field of the record",
            Rule::KnownOption => "unknown keyword",
            Rule::IdentifierValue => "expected identifier as the option's value",
            Rule::UnreservedValue => "expected identifier, found keyword",
            Rule::SomeHandle => "no field has the generic parameter as its type",
            Rule::OneHandle => "more than one field has the generic parameter as its type",
            Rule::DeclaredField => "no such field in the declaration",
            Rule::FieldOnce => "field assigned more than once",
            Rule::EveryField => "missing field",
            Rule::FieldOrder => "fields are assigned in the order of their declaration",
        };
        String::from_str(text)
    }
}

} // verus!
