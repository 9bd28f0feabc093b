//! Primitive coercion: converts a raw stored string (or its absence)
//! into a typed field value.
//!
//! The three primitive kinds fail differently, and deliberately so: text
//! with no value and no default is a hard error, booleans silently
//! resolve to `false` on absence or a bad literal, and numbers fall back
//! to the declared default before erring.

use vstd::prelude::*;

use crate::record::{value_model, FieldValue, ValueModel};
use crate::schema::{error_model, ConfigError, ErrorModel, PrimitiveType};
use crate::text::{parse_bool, parse_i64, parsed_bool, parsed_i64, trim_ws, trimmed_of};

verus! {

/// The view of an optional owned string.
pub open spec fn opt_view(o: Option<String>) -> Option<Seq<char>> {
    match o {
        Some(s) => Some(s@),
        None => None,
    }
}

/// What coercing a raw value of primitive kind `prim` yields for field
/// `field`: the typed value, or the error the populator reports.
///
/// Text uses the raw value verbatim, else the default verbatim, else is
/// missing. Booleans parse the raw value and resolve to `false` on
/// absence or parse failure, never consulting the default and never
/// erring. Numbers trim the raw value and parse it, fall back to parsing
/// the (untrimmed) default, and err only when both fail or neither
/// exists.
pub open spec fn coerced(
    prim: PrimitiveType,
    field: Seq<char>,
    raw: Option<Seq<char>>,
    dflt: Option<Seq<char>>,
) -> Result<ValueModel, ErrorModel> {
    match prim {
        PrimitiveType::Text => match raw {
            Some(s) => Ok(ValueModel::Text(s)),
            None => match dflt {
                Some(d) => Ok(ValueModel::Text(d)),
                None => Err(ErrorModel::Missing(field)),
            },
        },
        PrimitiveType::Boolean => Ok(
            ValueModel::Boolean(
                match raw {
                    Some(s) => match parsed_bool(s) {
                        Some(b) => b,
                        None => false,
                    },
                    None => false,
                },
            ),
        ),
        PrimitiveType::Numeric => match (match raw {
            Some(s) => parsed_i64(trimmed_of(s)),
            None => None,
        }) {
            Some(n) => Ok(ValueModel::Numeric(n as int)),
            None => match dflt {
                Some(d) => match parsed_i64(d) {
                    Some(n) => Ok(ValueModel::Numeric(n as int)),
                    None => Err(ErrorModel::Coercion(field, d)),
                },
                None => match raw {
                    Some(s) => Err(ErrorModel::Coercion(field, s)),
                    None => Err(ErrorModel::Missing(field)),
                },
            },
        },
    }
}

/// Coerces a raw stored value to the primitive kind `prim`, exactly as
/// [`coerced`] describes.
pub fn coerce(
    prim: PrimitiveType,
    field_name: &String,
    raw: &Option<String>,
    literal_default: &Option<String>,
) -> (res: Result<FieldValue, ConfigError>)
    ensures
        match coerced(prim, field_name@, opt_view(*raw), opt_view(*literal_default)) {
            Ok(m) => res matches Ok(v) && value_model(v) == m,
            Err(em) => res matches Err(e) && error_model(e) == em,
        },
{
    match prim {
        PrimitiveType::Text => match raw {
            Some(s) => Ok(FieldValue::Text(s.clone())),
            None => match literal_default {
                Some(d) => Ok(FieldValue::Text(d.clone())),
                None => Err(ConfigError::MissingVariable { name: field_name.clone() }),
            },
        },
        PrimitiveType::Boolean => {
            let b = match raw {
                Some(s) => match parse_bool(s.as_str()) {
                    Some(b) => b,
                    None => false,
                },
                None => false,
            };
            Ok(FieldValue::Boolean(b))
        },
        PrimitiveType::Numeric => {
            let direct = match raw {
                Some(s) => {
                    let trimmed = trim_ws(s.as_str());
                    parse_i64(trimmed.as_str())
                },
                None => None,
            };
            match direct {
                Some(n) => Ok(FieldValue::Numeric(n)),
                None => match literal_default {
                    Some(d) => match parse_i64(d.as_str()) {
                        Some(n) => Ok(FieldValue::Numeric(n)),
                        None => Err(
                            ConfigError::CoercionFailure {
                                field_name: field_name.clone(),
                                raw: d.clone(),
                            },
                        ),
                    },
                    None => match raw {
                        Some(s) => Err(
                            ConfigError::CoercionFailure {
                                field_name: field_name.clone(),
                                raw: s.clone(),
                            },
                        ),
                        None => Err(ConfigError::MissingVariable { name: field_name.clone() }),
                    },
                },
            }
        },
    }
}

} // verus!
