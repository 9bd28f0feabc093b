//! Extraction of process configuration from environment-variable strings.
//!
//! The crate turns a snapshot of environment variables into strongly typed
//! values. Its core is the enumeration resolver: it matches a stored string
//! against an ordered list of named variants under configurable
//! case-normalization rules and falls back deterministically (to a marker
//! variant, a default variant, or a typed failure) when nothing matches.
//! Around it, a struct-field populator resolves a whole schema of named,
//! typed fields, and a thin primitive coercion layer converts raw strings
//! to booleans, integers and text.
//!
//! Reading the real process environment is left to the caller: every entry
//! point here works on an [`envmap::EnvMap`] snapshot of name/value pairs.

pub mod coerce;
pub mod envmap;
pub mod laws;
pub mod populate;
pub mod record;
pub mod resolve;
pub mod schema;
pub mod text;

pub use coerce::coerce;
pub use envmap::EnvMap;
pub use populate::env_for_struct;
pub use record::{ConfigRecord, FieldValue};
pub use resolve::{default_index, enum_from_env, enum_value_or_default, resolve_raw};
pub use schema::{
    CaseRule, ConfigError, EnumResolver, FallbackPolicy, FieldSpec, PrimitiveType, TargetKind,
    VariantSpec,
};
