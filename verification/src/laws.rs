//! Properties the resolver guarantees, stated and proved once over the
//! resolution model that [`crate::resolve`]'s contracts use.

use vstd::prelude::*;

use crate::populate::{field_model, field_ok};
use crate::resolve::{effective_rule, fallback_index, first_match, first_match_from, matchable,
    resolved, variant_matches};
use crate::schema::{CaseRule, EnumResolver, FallbackPolicy, FieldSpec, TargetKind};
use crate::text::lower_of;

verus! {

/// What the first match is: a matching variant before which nothing
/// matches, or nothing when no variant at or after `i` matches.
pub proof fn lemma_first_match_characterization(r: EnumResolver, raw: Seq<char>, i: int)
    requires
        0 <= i <= r.variants@.len(),
    ensures
        match first_match_from(r, raw, i) {
            Some(k) => i <= k < r.variants@.len() && variant_matches(r, k, raw) && (forall|m: int|
                i <= m < k ==> !variant_matches(r, m, raw)),
            None => forall|m: int| i <= m < r.variants@.len() ==> !variant_matches(r, m, raw),
        },
    decreases r.variants@.len() - i,
{
    if i < r.variants@.len() && !variant_matches(r, i, raw) {
        lemma_first_match_characterization(r, raw, i + 1);
    }
}

/// Matching is first-wins: when variant `i` matches the stored value and
/// no earlier variant does, resolution returns exactly variant `i`.
pub proof fn lemma_first_declared_match_wins(r: EnumResolver, raw: Seq<char>, i: int)
    requires
        0 <= i < r.variants@.len(),
    ensures
        (variant_matches(r, i, raw) && (forall|m: int| 0 <= m < i ==> !variant_matches(
            r,
            m,
            raw,
        ))) ==> resolved(r, Some(raw)) == Some(i),
{
    if variant_matches(r, i, raw) && (forall|m: int| 0 <= m < i ==> !variant_matches(r, m, raw)) {
        lemma_first_match_characterization(r, raw, 0);
        match first_match(r, raw) {
            Some(k) => {
                if k < i {
                    assert(!variant_matches(r, k, raw));
                } else if i < k {
                    assert(!variant_matches(r, i, raw));
                }
            },
            None => {
                assert(!variant_matches(r, i, raw));
            },
        }
    }
}

/// When two variants could both match the same stored value, the
/// earlier-declared one shadows the later: resolution never returns the
/// later of the two.
pub proof fn lemma_earlier_match_shadows(r: EnumResolver, raw: Seq<char>, i: int, j: int)
    requires
        0 <= i < j < r.variants@.len(),
    ensures
        variant_matches(r, i, raw) ==> resolved(r, Some(raw)) != Some(j),
{
    if variant_matches(r, i, raw) {
        lemma_first_match_characterization(r, raw, 0);
    }
}

/// When no variant matches the stored value, resolution falls back per
/// policy: to the marker or default variant, or to no variant at all
/// under `Fail` and `Panic`.
pub proof fn lemma_no_match_falls_back(r: EnumResolver, raw: Seq<char>)
    ensures
        (forall|m: int| 0 <= m < r.variants@.len() ==> !variant_matches(r, m, raw)) ==> resolved(
            r,
            Some(raw),
        ) == fallback_index(r),
{
    if forall|m: int| 0 <= m < r.variants@.len() ==> !variant_matches(r, m, raw) {
        lemma_first_match_characterization(r, raw, 0);
        match first_match(r, raw) {
            Some(k) => {
                assert(!variant_matches(r, k, raw));
            },
            None => {
            },
        }
    }
}

/// Under an effective `Exact` rule, the exact stored name returns that
/// variant (first declared wins), and a value that differs in any way —
/// another casing included — does not match it.
pub proof fn lemma_exact_rule(r: EnumResolver, raw: Seq<char>, i: int)
    requires
        0 <= i < r.variants@.len(),
        effective_rule(r.variants@[i], r.default_rule) is Exact,
    ensures
        (matchable(r, i) && r.variants@[i].display_name@ == raw && (forall|m: int|
            0 <= m < i ==> !variant_matches(r, m, raw))) ==> resolved(r, Some(raw)) == Some(i),
        r.variants@[i].display_name@ != raw ==> !variant_matches(r, i, raw),
{
    lemma_first_declared_match_wins(r, raw, i);
}

/// Under a `Fold` rule, any casing of the right name matches: only the
/// lowercased sides are compared, and the first declared match wins.
pub proof fn lemma_fold_rule(r: EnumResolver, raw: Seq<char>, i: int)
    requires
        0 <= i < r.variants@.len(),
        effective_rule(r.variants@[i], r.default_rule) is Fold,
    ensures
        (matchable(r, i) && lower_of(r.variants@[i].display_name@) == lower_of(raw) && (forall|
            m: int,
        | 0 <= m < i ==> !variant_matches(r, m, raw))) ==> resolved(r, Some(raw)) == Some(i),
{
    lemma_first_declared_match_wins(r, raw, i);
}

/// In a variant list resolved entirely under `Exact`, a stored value
/// that equals no variant's declared name — any other casing of one
/// included — falls back per policy.
pub proof fn lemma_exact_list_falls_back(r: EnumResolver, raw: Seq<char>)
    ensures
        ((forall|m: int|
            0 <= m < r.variants@.len() ==> effective_rule(
                #[trigger] r.variants@[m],
                r.default_rule,
            ) is Exact) && (forall|m: int|
            0 <= m < r.variants@.len() ==> (#[trigger] r.variants@[m]).display_name@ != raw))
            ==> resolved(r, Some(raw)) == fallback_index(r),
{
    if (forall|m: int|
        0 <= m < r.variants@.len() ==> effective_rule(
            #[trigger] r.variants@[m],
            r.default_rule,
        ) is Exact) && (forall|m: int|
        0 <= m < r.variants@.len() ==> (#[trigger] r.variants@[m]).display_name@ != raw) {
        assert(forall|m: int| 0 <= m < r.variants@.len() ==> !variant_matches(r, m, raw));
        lemma_no_match_falls_back(r, raw);
    }
}

/// With `ReturnDefault(x)` configured and no stored variable, resolution
/// returns exactly `x`.
pub proof fn lemma_default_when_absent(r: EnumResolver, x: usize)
    ensures
        r.fallback == FallbackPolicy::ReturnDefault(x) ==> resolved(r, None) == Some(x as int),
{
}

/// Under a `Fail` policy there is no fallback variant: a non-matching
/// stored value resolves to no variant at all, and the entry points'
/// contracts then force the error naming the variable and the raw value.
pub proof fn lemma_fail_policy_yields_no_variant(r: EnumResolver, raw: Seq<char>)
    ensures
        r.fallback is Fail ==> fallback_index(r) is None,
        (r.fallback is Fail && (forall|m: int| 0 <= m < r.variants@.len() ==> !variant_matches(
            r,
            m,
            raw,
        ))) ==> resolved(r, Some(raw)) is None,
{
    lemma_no_match_falls_back(r, raw);
}

/// The fallible path treats a `Panic` policy exactly as `Fail`: it
/// yields the first matching variant or no variant at all — being
/// verified, it never aborts — so callers can always opt into
/// recoverable handling.
pub proof fn lemma_panic_policy_result_path(r: EnumResolver, raw: Option<Seq<char>>)
    ensures
        r.fallback is Panic ==> resolved(r, raw) == (match raw {
            Some(s) => first_match(r, s),
            None => None::<int>,
        }),
{
}

/// An enumerated field that stands in a valid schema is always
/// populatable: with a fallback variant configured, its resolution
/// yields a value for every environment, so an enumeration error never
/// fails a whole record.
pub proof fn lemma_enum_fields_always_populatable(f: FieldSpec, env: Seq<(String, String)>)
    ensures
        (field_ok(f) && f.target matches TargetKind::Enumerated(_)) ==> field_model(f, env) is Ok,
{
}

} // verus!
