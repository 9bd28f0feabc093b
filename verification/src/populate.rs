//! The struct-field populator: resolves every field of a schema against
//! one environment snapshot and builds the configuration record.
//!
//! Fields are resolved independently — no field's result depends on
//! another's. Enumerated fields are always populatable: a resolution
//! error degrades to the enumeration's own fallback variant, so a schema
//! whose resolver has no fallback variant is rejected as misconfigured
//! before any field is resolved. Primitive fields with no viable value
//! are fatal: the record is all-or-nothing.

use vstd::prelude::*;

use crate::coerce::{coerce, coerced, opt_view};
use crate::envmap::{lookup, EnvMap};
use crate::record::{value_model, ConfigRecord, FieldValue, ValueModel};
use crate::resolve::{default_index, enum_from_env, fallback_index, resolved};
use crate::schema::{error_model, ConfigError, EnumResolver, ErrorModel, FallbackPolicy, FieldSpec,
    TargetKind};
use crate::text::{to_upper, upper_of};

verus! {

/// The variable a primitive field reads: its explicit override, else its
/// field name uppercased.
pub open spec fn primitive_var(f: FieldSpec) -> Seq<char> {
    match f.var_override {
        Some(v) => v@,
        None => upper_of(f.field_name@),
    }
}

/// The variable a field reads. An enumerated field reads the variable
/// its own resolver names; the field-level override only applies to
/// primitive fields.
pub open spec fn field_var(f: FieldSpec) -> Seq<char> {
    match f.target {
        TargetKind::Enumerated(r) => r.var_name@,
        TargetKind::Primitive(_) => primitive_var(f),
    }
}

/// Whether a field can stand in a schema: an enumerated field's resolver
/// must stay within its variant list and always name a fallback variant,
/// so that resolution errors can degrade to it.
pub open spec fn field_ok(f: FieldSpec) -> bool {
    match f.target {
        TargetKind::Enumerated(r) => r.wf() && fallback_index(r) is Some,
        TargetKind::Primitive(_) => true,
    }
}

/// The first field at or after `i` that cannot stand in the schema.
pub open spec fn first_misconfigured_from(schema: Seq<FieldSpec>, i: int) -> Option<int>
    decreases schema.len() - i,
{
    if i < 0 || i >= schema.len() {
        None
    } else if !field_ok(schema[i]) {
        Some(i)
    } else {
        first_misconfigured_from(schema, i + 1)
    }
}

/// What resolving one field against the snapshot yields: a typed value,
/// or the error the populator reports.
pub open spec fn field_model(f: FieldSpec, env: Seq<(String, String)>) -> Result<
    ValueModel,
    ErrorModel,
> {
    match f.target {
        TargetKind::Primitive(p) => coerced(
            p,
            f.field_name@,
            lookup(env, primitive_var(f)),
            opt_view(f.literal_default),
        ),
        TargetKind::Enumerated(r) => match resolved(r, lookup(env, r.var_name@)) {
            Some(i) => Ok(ValueModel::Variant(i)),
            None => match fallback_index(r) {
                Some(d) => Ok(ValueModel::Variant(d)),
                None => Err(ErrorModel::Misconfigured(f.field_name@)),
            },
        },
    }
}

/// The first field at or after `i` whose resolution fails.
pub open spec fn first_failing_from(
    schema: Seq<FieldSpec>,
    env: Seq<(String, String)>,
    i: int,
) -> Option<int>
    decreases schema.len() - i,
{
    if i < 0 || i >= schema.len() {
        None
    } else if field_model(schema[i], env) is Err {
        Some(i)
    } else {
        first_failing_from(schema, env, i + 1)
    }
}

/// What populating a schema must return: the misconfiguration error for
/// the first field that cannot stand, else the resolution error of the
/// first field that fails, else the record whose values model every
/// field in order.
pub open spec fn population_ok(
    schema: Seq<FieldSpec>,
    env: Seq<(String, String)>,
    res: Result<ConfigRecord, ConfigError>,
) -> bool {
    match first_misconfigured_from(schema, 0) {
        Some(i) => res matches Err(e) && error_model(e) == ErrorModel::Misconfigured(
            schema[i].field_name@,
        ),
        None => match first_failing_from(schema, env, 0) {
            Some(i) => res matches Err(e) && (field_model(schema[i], env) matches Err(em)
                && error_model(e) == em),
            None => res matches Ok(rec) && rec.values@.len() == schema.len() && (forall|j: int|
                0 <= j < schema.len() ==> ((#[trigger] field_model(schema[j], env)) matches Ok(m)
                    && value_model(rec.values@[j]) == m)),
        },
    }
}

/// Populates a configuration record from a schema of named, typed
/// fields, resolving each against the snapshot independently and in
/// order.
///
/// The schema is validated first: a misconfigured enumerated field is
/// rejected before any field is resolved. Then each field resolves per
/// its kind, and the first primitive failure aborts the whole record
/// with that field's error.
pub fn env_for_struct(schema: &Vec<FieldSpec>, env: &EnvMap) -> (res: Result<
    ConfigRecord,
    ConfigError,
>)
    ensures
        population_ok(schema@, env@, res),
{
    let n = schema.len();
    for i in 0..n
        invariant
            n == schema@.len(),
            first_misconfigured_from(schema@, 0) == first_misconfigured_from(schema@, i as int),
            forall|j: int| 0 <= j < i ==> field_ok(#[trigger] schema@[j]),
    {
        let ok = match &schema[i].target {
            TargetKind::Enumerated(r) => match r.fallback {
                FallbackPolicy::ReturnMarker(m) => m < r.variants.len(),
                FallbackPolicy::ReturnDefault(d) => d < r.variants.len(),
                FallbackPolicy::Fail | FallbackPolicy::Panic => false,
            },
            TargetKind::Primitive(_) => true,
        };
        if !ok {
            proof {
                assert(!field_ok(schema@[i as int]));
                assert(first_misconfigured_from(schema@, i as int) == Some(i as int));
            }
            return Err(
                ConfigError::MisconfiguredSchema { field_name: schema[i].field_name.clone() },
            );
        }
        proof {
            assert(field_ok(schema@[i as int]));
            assert(first_misconfigured_from(schema@, i as int) == first_misconfigured_from(
                schema@,
                i as int + 1,
            ));
        }
    }
    let mut values: Vec<FieldValue> = Vec::new();
    for i in 0..n
        invariant
            n == schema@.len(),
            first_misconfigured_from(schema@, 0) is None,
            forall|j: int| 0 <= j < n ==> field_ok(#[trigger] schema@[j]),
            first_failing_from(schema@, env@, 0) == first_failing_from(schema@, env@, i as int),
            values@.len() == i,
            forall|j: int| 0 <= j < i ==> ((#[trigger] field_model(schema@[j], env@)) matches Ok(
                m,
            ) && value_model(values@[j]) == m),
    {
        let f = &schema[i];
        let value = match &f.target {
            TargetKind::Primitive(p) => {
                let var_name = match &f.var_override {
                    Some(v) => v.clone(),
                    None => to_upper(f.field_name.as_str()),
                };
                let raw = env.get(&var_name);
                match coerce(*p, &f.field_name, &raw, &f.literal_default) {
                    Ok(v) => v,
                    Err(e) => {
                        proof {
                            assert(field_model(schema@[i as int], env@) is Err);
                            assert(first_failing_from(schema@, env@, i as int) == Some(i as int));
                        }
                        return Err(e);
                    },
                }
            },
            TargetKind::Enumerated(r) => match enum_from_env(r, env) {
                Ok(idx) => FieldValue::Variant(idx),
                Err(_) => match default_index(r) {
                    Some(d) => FieldValue::Variant(d),
                    None => vstd::pervasive::unreached(),
                },
            },
        };
        proof {
            assert(field_model(schema@[i as int], env@) matches Ok(m) && value_model(value) == m);
            assert(first_failing_from(schema@, env@, i as int) == first_failing_from(
                schema@,
                env@,
                i as int + 1,
            ));
        }
        values.push(value);
    }
    Ok(ConfigRecord { values })
}

} // verus!
