//! The immutable specification objects the resolver and the populator
//! consult: case rules, variant lists, fallback policies, field schemas,
//! and the error taxonomy.

use vstd::prelude::*;

use crate::text::{to_upper, upper_of};

verus! {

/// How a variant's display name is normalized before it is compared to a
/// stored value.
///
/// `Exact` compares the name unmodified; `Uppercase` and `Lowercase`
/// normalize the name (never the stored value) to that case; `Fold`
/// lowercases both sides, giving a case-insensitive match.
#[derive(Clone, Copy, Debug)]
pub enum CaseRule {
    Exact,
    Uppercase,
    Lowercase,
    Fold,
}

/// One candidate variant of a closed enumeration.
///
/// `case_rule` overrides the enumeration-wide default rule when present;
/// `ignored` variants are never matched, which suits sentinel variants
/// that only exist to be returned as a fallback.
#[derive(Clone, Debug)]
pub struct VariantSpec {
    pub display_name: String,
    pub case_rule: Option<CaseRule>,
    pub ignored: bool,
}

/// What the resolver does when no variant matches the stored value.
///
/// The `usize` of `ReturnMarker` and `ReturnDefault` is an index into the
/// resolver's variant list. A marker variant is excluded from matching;
/// a default variant is also the answer to "the default". `Fail` makes
/// the fallible entry point return an error; `Panic` is only meaningful
/// in a direct, value-returning accessor, which the fallible entry point
/// never emulates.
#[derive(Clone, Copy, Debug)]
pub enum FallbackPolicy {
    ReturnMarker(usize),
    ReturnDefault(usize),
    Fail,
    Panic,
}

/// The full configuration of one enumeration resolver: the variable it
/// reads, its candidate variants in declaration order, the variable-wide
/// default case rule, and its fallback policy.
#[derive(Clone, Debug)]
pub struct EnumResolver {
    pub var_name: String,
    pub variants: Vec<VariantSpec>,
    pub default_rule: Option<CaseRule>,
    pub fallback: FallbackPolicy,
}

impl EnumResolver {
    /// A resolver is well formed when its fallback policy only names
    /// variants that exist.
    pub open spec fn wf(self) -> bool {
        match self.fallback {
            FallbackPolicy::ReturnMarker(m) => m < self.variants@.len(),
            FallbackPolicy::ReturnDefault(d) => d < self.variants@.len(),
            FallbackPolicy::Fail => true,
            FallbackPolicy::Panic => true,
        }
    }

    /// Builds a resolver for an enumeration identifier: the variable it
    /// reads is the explicit override when one is given, else the
    /// identifier uppercased — the same naming convention struct fields
    /// follow.
    pub fn for_ident(
        ident: &str,
        var_override: Option<String>,
        variants: Vec<VariantSpec>,
        default_rule: Option<CaseRule>,
        fallback: FallbackPolicy,
    ) -> (r: EnumResolver)
        ensures
            r.var_name@ == (match var_override {
                Some(v) => v@,
                None => upper_of(ident@),
            }),
            r.variants == variants,
            r.default_rule == default_rule,
            r.fallback == fallback,
    {
        let var_name = match var_override {
            Some(v) => v,
            None => to_upper(ident),
        };
        EnumResolver { var_name, variants, default_rule, fallback }
    }
}

/// The primitive target types a struct field can have.
#[derive(Clone, Copy, Debug)]
pub enum PrimitiveType {
    Text,
    Numeric,
    Boolean,
}

/// What a struct field is resolved to: a primitive value, or a variant of
/// an enumeration with its own resolver.
#[derive(Clone, Debug)]
pub enum TargetKind {
    Primitive(PrimitiveType),
    Enumerated(EnumResolver),
}

/// One named, typed field of a configuration struct.
///
/// The variable read for a primitive field is `var_override` when
/// present, else the field's name uppercased. An enumerated field reads
/// the variable its resolver names. `literal_default` only applies to
/// primitive fields whose variable is absent or unparsable; an
/// enumerated field's absence is governed by its resolver's fallback
/// policy instead.
#[derive(Clone, Debug)]
pub struct FieldSpec {
    pub field_name: String,
    pub var_override: Option<String>,
    pub target: TargetKind,
    pub literal_default: Option<String>,
}

/// Why configuration extraction failed.
#[derive(Debug, PartialEq)]
pub enum ConfigError {
    /// A value was absent and nothing was configured to stand in for it.
    /// `name` is the queried variable name when a resolver reports it,
    /// and the field name when the populator reports a required field.
    MissingVariable { name: String },
    /// A value was present but matched no variant, and the resolver had
    /// no marker or default to fall back to.
    NoMatchingVariant { var_name: String, raw: String },
    /// An enumerated field whose resolver names no fallback variant, or
    /// names one outside its own variant list: such a field cannot
    /// absorb resolution errors, so the schema is rejected at setup.
    MisconfiguredSchema { field_name: String },
    /// A numeric value failed to parse and no usable fallback remained;
    /// `raw` is the string that failed last.
    CoercionFailure { field_name: String, raw: String },
}

/// The diagnostic line of a [`ConfigError`]: it always names the
/// offending variable or field, so misconfiguration stays diagnosable.
pub open spec fn message_of(e: ConfigError) -> Seq<char> {
    match e {
        ConfigError::MissingVariable { name } => "no environment variable or default value found for '"@
            + name@ + "'"@,
        ConfigError::NoMatchingVariant { var_name, raw } => "no variant of '"@ + var_name@
            + "' matches '"@ + raw@ + "'"@,
        ConfigError::MisconfiguredSchema { field_name } => "field '"@ + field_name@
            + "' has a resolver with no fallback variant"@,
        ConfigError::CoercionFailure { field_name, raw } => "cannot coerce '"@ + raw@
            + "' for field '"@ + field_name@ + "'"@,
    }
}

impl ConfigError {
    /// Renders the error as one diagnostic line, exactly as
    /// [`message_of`] describes it.
    pub fn message(&self) -> (m: String)
        ensures
            m@ == message_of(*self),
    {
        match self {
            ConfigError::MissingVariable { name } => String::from_str(
                "no environment variable or default value found for '",
            ).concat(name.as_str()).concat("'"),
            ConfigError::NoMatchingVariant { var_name, raw } => String::from_str(
                "no variant of '",
            ).concat(var_name.as_str()).concat("' matches '").concat(raw.as_str()).concat("'"),
            ConfigError::MisconfiguredSchema { field_name } => String::from_str("field '").concat(
                field_name.as_str(),
            ).concat("' has a resolver with no fallback variant"),
            ConfigError::CoercionFailure { field_name, raw } => String::from_str("cannot coerce '")
                .concat(raw.as_str()).concat("' for field '").concat(field_name.as_str()).concat(
                "'",
            ),
        }
    }
}

/// The spec-level shape of a [`ConfigError`], with every string taken as
/// its character sequence.
pub enum ErrorModel {
    Missing(Seq<char>),
    NoMatch(Seq<char>, Seq<char>),
    Misconfigured(Seq<char>),
    Coercion(Seq<char>, Seq<char>),
}

/// The model of a [`ConfigError`].
pub open spec fn error_model(e: ConfigError) -> ErrorModel {
    match e {
        ConfigError::MissingVariable { name } => ErrorModel::Missing(name@),
        ConfigError::NoMatchingVariant { var_name, raw } => ErrorModel::NoMatch(var_name@, raw@),
        ConfigError::MisconfiguredSchema { field_name } => ErrorModel::Misconfigured(field_name@),
        ConfigError::CoercionFailure { field_name, raw } => ErrorModel::Coercion(field_name@, raw@),
    }
}

} // verus!
