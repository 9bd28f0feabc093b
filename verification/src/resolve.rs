//! The enumeration resolver: matches a stored environment value against
//! an ordered list of candidate variants under per-variant case rules,
//! and falls back per policy when nothing matches.
//!
//! Matching is first-wins over declaration order; ignored variants and a
//! designated marker variant are never matched; comparison is always
//! full-string equality after normalization, never a partial match.

use vstd::prelude::*;

use crate::envmap::{lookup, EnvMap};
use crate::schema::{error_model, CaseRule, ConfigError, EnumResolver, ErrorModel, FallbackPolicy,
    VariantSpec};
use crate::text::{lower_of, to_lower, to_upper, upper_of};

verus! {

/// The one case rule in effect for a variant: its own rule when it has
/// one, else the enumeration-wide default, else `Exact`.
pub open spec fn effective_rule(v: VariantSpec, default_rule: Option<CaseRule>) -> CaseRule {
    match v.case_rule {
        Some(rule) => rule,
        None => match default_rule {
            Some(rule) => rule,
            None => CaseRule::Exact,
        },
    }
}

/// Whether a display name, normalized per `rule`, equals the stored
/// value; only `Fold` also normalizes the stored value.
pub open spec fn name_matches(rule: CaseRule, display: Seq<char>, raw: Seq<char>) -> bool {
    match rule {
        CaseRule::Exact => display == raw,
        CaseRule::Uppercase => upper_of(display) == raw,
        CaseRule::Lowercase => lower_of(display) == raw,
        CaseRule::Fold => lower_of(display) == lower_of(raw),
    }
}

/// Whether variant `i` takes part in matching at all: ignored variants
/// and the policy's marker variant never do.
pub open spec fn matchable(r: EnumResolver, i: int) -> bool {
    &&& !r.variants@[i].ignored
    &&& !(r.fallback matches FallbackPolicy::ReturnMarker(m) && m == i)
}

/// Whether variant `i` matches the stored value `raw`.
pub open spec fn variant_matches(r: EnumResolver, i: int, raw: Seq<char>) -> bool {
    &&& matchable(r, i)
    &&& name_matches(
        effective_rule(r.variants@[i], r.default_rule),
        r.variants@[i].display_name@,
        raw,
    )
}

/// The first variant at or after `i` that matches `raw`, in declaration
/// order.
pub open spec fn first_match_from(r: EnumResolver, raw: Seq<char>, i: int) -> Option<int>
    decreases r.variants@.len() - i,
{
    if i < 0 || i >= r.variants@.len() {
        None
    } else if variant_matches(r, i, raw) {
        Some(i)
    } else {
        first_match_from(r, raw, i + 1)
    }
}

/// The first variant that matches `raw`.
pub open spec fn first_match(r: EnumResolver, raw: Seq<char>) -> Option<int> {
    first_match_from(r, raw, 0)
}

/// The variant the policy falls back to when nothing matches: the marker
/// or default variant, or none under `Fail` and `Panic`.
pub open spec fn fallback_index(r: EnumResolver) -> Option<int> {
    match r.fallback {
        FallbackPolicy::ReturnMarker(m) => Some(m as int),
        FallbackPolicy::ReturnDefault(d) => Some(d as int),
        FallbackPolicy::Fail => None,
        FallbackPolicy::Panic => None,
    }
}

/// The variant resolution yields for a stored value (`None` when the
/// variable was absent): the first match, else the policy's fallback
/// variant, else no variant at all.
pub open spec fn resolved(r: EnumResolver, raw: Option<Seq<char>>) -> Option<int> {
    match raw {
        Some(s) => match first_match(r, s) {
            Some(i) => Some(i),
            None => fallback_index(r),
        },
        None => fallback_index(r),
    }
}

/// The view of an optional borrowed string.
pub open spec fn raw_view(raw: Option<&String>) -> Option<Seq<char>> {
    match raw {
        Some(s) => Some(s@),
        None => None,
    }
}

/// What a fallible resolution must return for stored value `raw`: the
/// resolved variant when the model yields one, else the error that names
/// the queried variable and, when present, the unmatched raw value.
pub open spec fn resolution_ok(
    r: EnumResolver,
    raw: Option<Seq<char>>,
    res: Result<usize, ConfigError>,
) -> bool {
    match resolved(r, raw) {
        Some(i) => res matches Ok(j) && j == i,
        None => match raw {
            Some(s) => res matches Err(e) && error_model(e) == ErrorModel::NoMatch(
                r.var_name@,
                s,
            ),
            None => res matches Err(e) && error_model(e) == ErrorModel::Missing(r.var_name@),
        },
    }
}

/// Resolves an already-read stored value against the resolver's variant
/// list: the fallible path, which never panics and treats a `Panic`
/// policy exactly as `Fail`.
pub fn resolve_raw(r: &EnumResolver, raw: Option<&String>) -> (res: Result<usize, ConfigError>)
    ensures
        resolution_ok(*r, raw_view(raw), res),
        r.wf() ==> (res matches Ok(i) ==> i < r.variants@.len()),
{
    match raw {
        None => match r.fallback {
            FallbackPolicy::ReturnMarker(m) => Ok(m),
            FallbackPolicy::ReturnDefault(d) => Ok(d),
            FallbackPolicy::Fail | FallbackPolicy::Panic => Err(
                ConfigError::MissingVariable { name: r.var_name.clone() },
            ),
        },
        Some(s) => {
            let n = r.variants.len();
            for i in 0..n
                invariant
                    n == r.variants@.len(),
                    raw_view(raw) == Some(s@),
                    first_match(*r, s@) == first_match_from(*r, s@, i as int),
            {
                let v = &r.variants[i];
                let excluded = v.ignored || (match r.fallback {
                    FallbackPolicy::ReturnMarker(m) => m == i,
                    _ => false,
                });
                let mut hit = false;
                if !excluded {
                    hit = match (match v.case_rule {
                        Some(rule) => rule,
                        None => match r.default_rule {
                            Some(rule) => rule,
                            None => CaseRule::Exact,
                        },
                    }) {
                        CaseRule::Exact => v.display_name == *s,
                        CaseRule::Uppercase => to_upper(v.display_name.as_str()) == *s,
                        CaseRule::Lowercase => to_lower(v.display_name.as_str()) == *s,
                        CaseRule::Fold => to_lower(v.display_name.as_str()) == to_lower(
                            s.as_str(),
                        ),
                    };
                }
                if hit {
                    proof {
                        assert(variant_matches(*r, i as int, s@));
                        assert(first_match_from(*r, s@, i as int) == Some(i as int));
                    }
                    return Ok(i);
                }
                proof {
                    assert(!variant_matches(*r, i as int, s@));
                    assert(first_match_from(*r, s@, i as int) == first_match_from(
                        *r,
                        s@,
                        i as int + 1,
                    ));
                }
            }
            match r.fallback {
                FallbackPolicy::ReturnMarker(m) => Ok(m),
                FallbackPolicy::ReturnDefault(d) => Ok(d),
                FallbackPolicy::Fail | FallbackPolicy::Panic => Err(
                    ConfigError::NoMatchingVariant { var_name: r.var_name.clone(), raw: s.clone() },
                ),
            }
        },
    }
}

/// Resolves one enumeration from an environment snapshot: reads the
/// resolver's variable and delegates to [`resolve_raw`]. This is the
/// fallible accessor; a direct, abort-capable accessor is built on top
/// of it by panicking on the error it returns.
pub fn enum_from_env(r: &EnumResolver, env: &EnvMap) -> (res: Result<usize, ConfigError>)
    ensures
        resolution_ok(*r, lookup(env@, r.var_name@), res),
        r.wf() ==> (res matches Ok(i) ==> i < r.variants@.len()),
{
    match env.get(&r.var_name) {
        Some(v) => resolve_raw(r, Some(&v)),
        None => resolve_raw(r, None),
    }
}

/// The variant the resolver designates as "the default": the marker or
/// default variant, or none under `Fail` and `Panic`.
pub fn default_index(r: &EnumResolver) -> (res: Option<usize>)
    ensures
        match res {
            Some(i) => fallback_index(*r) == Some(i as int),
            None => fallback_index(*r) is None,
        },
{
    match r.fallback {
        FallbackPolicy::ReturnMarker(m) => Some(m),
        FallbackPolicy::ReturnDefault(d) => Some(d),
        FallbackPolicy::Fail | FallbackPolicy::Panic => None,
    }
}

/// The direct accessor for a resolver that always has a value to give:
/// with a marker or default variant configured, resolution cannot fail,
/// so no error channel is needed.
pub fn enum_value_or_default(r: &EnumResolver, env: &EnvMap) -> (v: usize)
    requires
        r.fallback matches FallbackPolicy::ReturnMarker(_) || r.fallback matches
            FallbackPolicy::ReturnDefault(_),
    ensures
        Some(v as int) == resolved(*r, lookup(env@, r.var_name@)),
{
    match enum_from_env(r, env) {
        Ok(i) => i,
        Err(_) => vstd::pervasive::unreached(),
    }
}

impl EnumResolver {
    /// The display name of variant `i`.
    pub fn display_of(&self, i: usize) -> (name: &String)
        requires
            i < self.variants@.len(),
        ensures
            name@ == self.variants@[i as int].display_name@,
    {
        &self.variants[i].display_name
    }
}

} // verus!
