//! Resizing the volumes of a cluster: which claims to expand, what each attempt came to,
//! and the sizes of Kubernetes quantities.
use vstd::prelude::*;
use vstd::string::*;

use super::spec::{clone_opt_string, opt_view};
use super::statefulset::{template_views, TemplateView, VolumeClaimTemplate};
use crate::text::{
    all_digits, chars_of, decimal, digits_value, is_unicode_whitespace, lemma_trim_unpadded, parse_unsigned,
    parse_unsigned_bounded, trim, trim_chars, u64_to_decimal,
};

verus! {

fn lit(s: &str) -> (r: String)
    ensures
        r@ == s@,
{
    String::from_str(s)
}

/// The last template with the given name: a name-keyed map of the templates keeps it.
pub open spec fn last_named(ts: Seq<TemplateView>, n: Seq<char>) -> Option<TemplateView>
    decreases ts.len(),
{
    if ts.len() == 0 {
        None
    } else if ts.last().name == Some(n) {
        Some(ts.last())
    } else {
        last_named(ts.drop_last(), n)
    }
}

/// Whether the claim templates differ in a way that only recreating the StatefulSet can
/// apply: a name that only one side has, or a template whose storage class or size
/// changed. Templates are compared by name, not position.
pub open spec fn templates_changed_spec(existing: Seq<TemplateView>, desired: Seq<TemplateView>) -> bool {
    ||| exists|n: Seq<char>| #[trigger] last_named(existing, n) is Some != last_named(desired, n) is Some
    ||| exists|n: Seq<char>|
        #[trigger] last_named(desired, n) matches Some(d) && last_named(existing, n) matches Some(e) && (
        d.storage_class != e.storage_class || d.storage_request != e.storage_request)
}

proof fn lemma_last_named(ts: Seq<TemplateView>, n: Seq<char>)
    ensures
        last_named(ts, n) is Some <==> exists|i: int| 0 <= i < ts.len() && #[trigger] ts[i].name == Some(n),
        last_named(ts, n) matches Some(t) ==> t.name == Some(n),
    decreases ts.len(),
{
    if ts.len() > 0 {
        lemma_last_named(ts.drop_last(), n);
        if last_named(ts.drop_last(), n) is Some {
            let i = choose|i: int| 0 <= i < ts.drop_last().len() && #[trigger] ts.drop_last()[i].name == Some(n);
            assert(ts[i].name == Some(n));
        }
        if exists|i: int| 0 <= i < ts.len() && #[trigger] ts[i].name == Some(n) {
            let i = choose|i: int| 0 <= i < ts.len() && #[trigger] ts[i].name == Some(n);
            if i < ts.len() - 1 {
                assert(ts.drop_last()[i].name == Some(n));
            }
        }
    }
}

/// No two named templates share a name.
pub open spec fn distinct_names(ts: Seq<TemplateView>) -> bool {
    forall|i: int, j: int| 0 <= i < j < ts.len() && ts[i].name is Some ==> #[trigger] ts[i].name != #[trigger] ts[j].name
}

proof fn lemma_last_named_distinct(ts: Seq<TemplateView>, n: Seq<char>, i: int)
    requires
        distinct_names(ts),
        0 <= i < ts.len(),
        ts[i].name == Some(n),
    ensures
        last_named(ts, n) == Some(ts[i]),
    decreases ts.len(),
{
    if i < ts.len() - 1 {
        assert(ts[i].name != ts[ts.len() - 1].name);
        let d = ts.drop_last();
        assert(distinct_names(d)) by {
            assert forall|a: int, b: int| 0 <= a < b < d.len() && d[a].name is Some implies #[trigger] d[a].name
                != #[trigger] d[b].name by {
                assert(d[a] == ts[a] && d[b] == ts[b]);
            }
        }
        assert(d[i] == ts[i]);
        lemma_last_named_distinct(d, n, i);
    }
}

proof fn lemma_same_last_named(e: Seq<TemplateView>, d: Seq<TemplateView>, n: Seq<char>)
    requires
        distinct_names(e),
        distinct_names(d),
        e.to_multiset() =~= d.to_multiset(),
    ensures
        last_named(e, n) == last_named(d, n),
{
    broadcast use vstd::seq_lib::to_multiset_contains;
    lemma_last_named(e, n);
    lemma_last_named(d, n);
    if last_named(e, n) is Some {
        let i = choose|i: int| 0 <= i < e.len() && #[trigger] e[i].name == Some(n);
        lemma_last_named_distinct(e, n, i);
        assert(e.contains(e[i]));
        assert(e.to_multiset().count(e[i]) > 0);
        assert(d.to_multiset().count(e[i]) > 0);
        assert(d.contains(e[i]));
        let j = choose|j: int| 0 <= j < d.len() && d[j] == e[i];
        assert(d[j].name == Some(n));
        lemma_last_named_distinct(d, n, j);
    } else if last_named(d, n) is Some {
        let j = choose|j: int| 0 <= j < d.len() && #[trigger] d[j].name == Some(n);
        assert(d.contains(d[j]));
        assert(d.to_multiset().count(d[j]) > 0);
        assert(e.to_multiset().count(d[j]) > 0);
        assert(e.contains(d[j]));
        let i = choose|i: int| 0 <= i < e.len() && e[i] == d[j];
        assert(e[i].name == Some(n));
    }
}

/// Reordering the templates is no change: templates are compared by name, not position.
pub proof fn lemma_reordering_is_no_change(existing: Seq<TemplateView>, desired: Seq<TemplateView>)
    requires
        distinct_names(existing),
        distinct_names(desired),
        existing.to_multiset() =~= desired.to_multiset(),
    ensures
        !templates_changed_spec(existing, desired),
{
    assert forall|n: Seq<char>| #[trigger] last_named(existing, n) == last_named(desired, n) by {
        lemma_same_last_named(existing, desired, n);
    }
}

/// The comparison does not depend on the order of either StatefulSet's templates: reordering
/// the existing ones, or the desired ones, gives the same answer.
pub proof fn lemma_reordering_either_side(a: Seq<TemplateView>, a2: Seq<TemplateView>, b: Seq<TemplateView>, b2: Seq<TemplateView>)
    requires
        distinct_names(a),
        distinct_names(a2),
        distinct_names(b),
        distinct_names(b2),
        a.to_multiset() =~= a2.to_multiset(),
        b.to_multiset() =~= b2.to_multiset(),
    ensures
        templates_changed_spec(a, b) == templates_changed_spec(a2, b2),
{
    assert forall|n: Seq<char>| #[trigger] last_named(a, n) == last_named(a2, n) by {
        lemma_same_last_named(a, a2, n);
    }
    assert forall|n: Seq<char>| #[trigger] last_named(b, n) == last_named(b2, n) by {
        lemma_same_last_named(b, b2, n);
    }
    lemma_changed_by_names(a, b, a2, b2);
    lemma_changed_by_names(a2, b2, a, b);
}

proof fn lemma_changed_by_names(a: Seq<TemplateView>, b: Seq<TemplateView>, a2: Seq<TemplateView>, b2: Seq<TemplateView>)
    requires
        forall|n: Seq<char>| #[trigger] last_named(a, n) == last_named(a2, n),
        forall|n: Seq<char>| #[trigger] last_named(b, n) == last_named(b2, n),
    ensures
        templates_changed_spec(a, b) ==> templates_changed_spec(a2, b2),
{
    if templates_changed_spec(a, b) {
        if exists|n: Seq<char>| #[trigger] last_named(a, n) is Some != last_named(b, n) is Some {
            let n = choose|n: Seq<char>| #[trigger] last_named(a, n) is Some != last_named(b, n) is Some;
            assert(last_named(a2, n) == last_named(a, n));
            assert(last_named(b2, n) == last_named(b, n));
            assert(last_named(a2, n) is Some != last_named(b2, n) is Some);
        } else {
            let n = choose|n: Seq<char>|
                #[trigger] last_named(b, n) matches Some(d) && last_named(a, n) matches Some(e) && (
                d.storage_class != e.storage_class || d.storage_request != e.storage_request);
            assert(last_named(a2, n) == last_named(a, n));
            assert(last_named(b2, n) == last_named(b, n));
            assert(last_named(b2, n) matches Some(d) && last_named(a2, n) matches Some(e) && (d.storage_class
                != e.storage_class || d.storage_request != e.storage_request));
        }
    }
}

/// Comparing templates is symmetric: a change from one set to another is a change back.
pub proof fn lemma_templates_changed_symmetric(a: Seq<TemplateView>, b: Seq<TemplateView>)
    ensures
        templates_changed_spec(a, b) == templates_changed_spec(b, a),
{
    if templates_changed_spec(a, b) {
        if exists|n: Seq<char>| #[trigger] last_named(a, n) is Some != last_named(b, n) is Some {
            let n = choose|n: Seq<char>| #[trigger] last_named(a, n) is Some != last_named(b, n) is Some;
            assert(last_named(b, n) is Some != last_named(a, n) is Some);
        } else {
            let n = choose|n: Seq<char>|
                #[trigger] last_named(b, n) matches Some(d) && last_named(a, n) matches Some(e) && (
                d.storage_class != e.storage_class || d.storage_request != e.storage_request);
            assert(last_named(a, n) matches Some(d) && last_named(b, n) matches Some(e) && (d.storage_class
                != e.storage_class || d.storage_request != e.storage_request));
        }
    }
    if templates_changed_spec(b, a) {
        if exists|n: Seq<char>| #[trigger] last_named(b, n) is Some != last_named(a, n) is Some {
            let n = choose|n: Seq<char>| #[trigger] last_named(b, n) is Some != last_named(a, n) is Some;
            assert(last_named(a, n) is Some != last_named(b, n) is Some);
        } else {
            let n = choose|n: Seq<char>|
                #[trigger] last_named(a, n) matches Some(d) && last_named(b, n) matches Some(e) && (
                d.storage_class != e.storage_class || d.storage_request != e.storage_request);
            assert(last_named(b, n) matches Some(d) && last_named(a, n) matches Some(e) && (d.storage_class
                != e.storage_class || d.storage_request != e.storage_request));
        }
    }
}

/// A set of templates compared with itself is unchanged.
pub proof fn lemma_templates_unchanged_against_self(a: Seq<TemplateView>)
    ensures
        !templates_changed_spec(a, a),
{
}

/// Index of the last template with the given name.
fn last_index_named(ts: &Vec<VolumeClaimTemplate>, n: &String) -> (r: Option<usize>)
    ensures
        r is None <==> last_named(template_views(ts@), n@) is None,
        r matches Some(k) ==> k < ts@.len() && last_named(template_views(ts@), n@) == Some(template_views(ts@)[k as int]),
{
    let ghost all = template_views(ts@);
    let mut i: usize = ts.len();
    assert(all.subrange(0, ts@.len() as int) =~= all);
    while i > 0
        invariant
            i <= ts@.len(),
            all == template_views(ts@),
            last_named(all, n@) == last_named(all.subrange(0, i as int), n@),
        decreases i,
    {
        let ghost pre = all.subrange(0, i as int);
        assert(pre.last() == ts@[i - 1]@);
        assert(pre.drop_last() =~= all.subrange(0, i - 1));
        let found = match &ts[i - 1].name {
            Some(m) => *m == *n,
            None => false,
        };
        if found {
            return Some(i - 1);
        }
        i = i - 1;
    }
    None
}

fn opt_str_eq(a: &Option<String>, b: &Option<String>) -> (r: bool)
    ensures
        r == (opt_view(*a) == opt_view(*b)),
{
    match (a, b) {
        (Some(x), Some(y)) => *x == *y,
        (None, None) => true,
        _ => false,
    }
}

/// Whether the desired claim templates differ from the existing ones in name, storage class
/// or size, so that the StatefulSet must be orphaned and recreated.
pub fn volume_claim_templates_changed(existing: &Vec<VolumeClaimTemplate>, desired: &Vec<VolumeClaimTemplate>) -> (r: bool)
    ensures
        r == templates_changed_spec(template_views(existing@), template_views(desired@)),
{
    let ghost ev = template_views(existing@);
    let ghost dv = template_views(desired@);
    let mut i: usize = 0;
    while i < existing.len()
        invariant
            i <= existing@.len(),
            ev == template_views(existing@),
            dv == template_views(desired@),
            forall|j: int|
                0 <= j < i ==> (#[trigger] ev[j].name matches Some(n) ==> last_named(dv, n) is Some),
        decreases existing@.len() - i,
    {
        assert(ev[i as int] == existing@[i as int]@);
        match &existing[i].name {
            Some(n) => {
                if last_index_named(desired, n).is_none() {
                    proof {
                        lemma_last_named(ev, n@);
                        assert(ev[i as int].name == Some(n@));
                    }
                    return true;
                }
            },
            None => {},
        }
        i = i + 1;
    }
    let mut i: usize = 0;
    while i < desired.len()
        invariant
            i <= desired@.len(),
            ev == template_views(existing@),
            dv == template_views(desired@),
            forall|j: int|
                0 <= j < existing@.len() ==> (#[trigger] ev[j].name matches Some(n) ==> last_named(dv, n) is Some),
            forall|j: int|
                0 <= j < i ==> (#[trigger] dv[j].name matches Some(n) ==> {
                    &&& last_named(ev, n) matches Some(e)
                    &&& last_named(dv, n) matches Some(d)
                    &&& d.storage_class == e.storage_class
                    &&& d.storage_request == e.storage_request
                }),
        decreases desired@.len() - i,
    {
        assert(dv[i as int] == desired@[i as int]@);
        match &desired[i].name {
            Some(n) => {
                proof {
                    lemma_last_named(dv, n@);
                    lemma_last_named(ev, n@);
                    assert(dv[i as int].name == Some(n@));
                }
                match last_index_named(existing, n) {
                    None => {
                        return true;
                    },
                    Some(e) => {
                        let d = last_index_named(desired, n).unwrap();
                        assert(ev[e as int] == existing@[e as int]@);
                        assert(dv[d as int] == desired@[d as int]@);
                        if !opt_str_eq(&desired[d].storage_class, &existing[e].storage_class)
                            || !opt_str_eq(&desired[d].storage_request, &existing[e].storage_request) {
                            return true;
                        }
                    },
                }
            },
            None => {},
        }
        i = i + 1;
    }
    proof {
        assert forall|n: Seq<char>| #[trigger] last_named(ev, n) is Some == last_named(dv, n) is Some by {
            lemma_last_named(ev, n);
            lemma_last_named(dv, n);
            if last_named(ev, n) is Some {
                let j = choose|j: int| 0 <= j < ev.len() && #[trigger] ev[j].name == Some(n);
            }
            if last_named(dv, n) is Some {
                let j = choose|j: int| 0 <= j < dv.len() && #[trigger] dv[j].name == Some(n);
            }
        }
        assert forall|n: Seq<char>|
            !(#[trigger] last_named(dv, n) matches Some(d) && last_named(ev, n) matches Some(e) && (d.storage_class
                != e.storage_class || d.storage_request != e.storage_request)) by {
            lemma_last_named(dv, n);
            if last_named(dv, n) is Some {
                let j = choose|j: int| 0 <= j < dv.len() && #[trigger] dv[j].name == Some(n);
            }
        }
    }
    false
}

/// The unit suffixes of Kubernetes quantities, binary ones before the decimal ones that
/// they start with.
pub open spec fn suffix_at(k: int) -> Seq<char> {
    if k == 0 {
        seq!['E', 'i']
    } else if k == 1 {
        seq!['P', 'i']
    } else if k == 2 {
        seq!['T', 'i']
    } else if k == 3 {
        seq!['G', 'i']
    } else if k == 4 {
        seq!['M', 'i']
    } else if k == 5 {
        seq!['K', 'i']
    } else if k == 6 {
        seq!['E']
    } else if k == 7 {
        seq!['P']
    } else if k == 8 {
        seq!['T']
    } else if k == 9 {
        seq!['G']
    } else if k == 10 {
        seq!['M']
    } else {
        seq!['k']
    }
}

/// The number of bytes that one unit of the suffix stands for.
pub open spec fn factor_at(k: int) -> nat {
    if k == 0 {
        0x1000_0000_0000_0000
    } else if k == 1 {
        0x4_0000_0000_0000
    } else if k == 2 {
        0x100_0000_0000
    } else if k == 3 {
        0x4000_0000
    } else if k == 4 {
        0x10_0000
    } else if k == 5 {
        0x400
    } else if k == 6 {
        1_000_000_000_000_000_000
    } else if k == 7 {
        1_000_000_000_000_000
    } else if k == 8 {
        1_000_000_000_000
    } else if k == 9 {
        1_000_000_000
    } else if k == 10 {
        1_000_000
    } else {
        1_000
    }
}

pub const SUFFIX_COUNT: usize = 12;

pub open spec fn ends_with(s: Seq<char>, suffix: Seq<char>) -> bool {
    suffix.len() <= s.len() && s.subrange(s.len() - suffix.len(), s.len() as int) == suffix
}

/// The first suffix of the table, from position `k` on, that `s` ends with.
pub open spec fn first_suffix(s: Seq<char>, k: int) -> Option<int>
    decreases SUFFIX_COUNT - k,
{
    if k < 0 || k >= SUFFIX_COUNT {
        None
    } else if ends_with(s, suffix_at(k)) {
        Some(k)
    } else {
        first_suffix(s, k + 1)
    }
}

/// A quantity in bytes: the trimmed text, with a unit suffix whose number (trimmed again)
/// is multiplied by the unit as long as the product fits in 64 bits, or a plain number of
/// bytes.
pub open spec fn quantity_bytes(q: Seq<char>) -> Option<u64> {
    let s = trim(q);
    match first_suffix(s, 0) {
        Some(k) => {
            let num = trim(s.subrange(0, s.len() - suffix_at(k).len()));
            match parse_unsigned(num, u64::MAX as nat) {
                Some(v) => if v * factor_at(k) <= u64::MAX {
                    Some((v * factor_at(k)) as u64)
                } else {
                    None
                },
                None => None,
            }
        },
        None => match parse_unsigned(s, u64::MAX as nat) {
            Some(v) => Some(v as u64),
            None => None,
        },
    }
}

/// `n` bytes scaled by a unit of `f` bytes, where the product fits in 64 bits.
pub open spec fn scaled(n: nat, f: nat) -> Option<u64> {
    if n * f <= u64::MAX {
        Some((n * f) as u64)
    } else {
        None
    }
}

proof fn lemma_first_suffix_from(s: Seq<char>, j: int, k: int)
    requires
        0 <= j <= k < SUFFIX_COUNT,
        ends_with(s, suffix_at(k)),
        forall|i: int| j <= i < k ==> !ends_with(s, #[trigger] suffix_at(i)),
    ensures
        first_suffix(s, j) == Some(k),
    decreases k - j,
{
    if j < k {
        lemma_first_suffix_from(s, j + 1, k);
    }
}

proof fn lemma_first_suffix_none(s: Seq<char>, j: int)
    requires
        0 <= j <= SUFFIX_COUNT,
        forall|i: int| j <= i < SUFFIX_COUNT ==> !ends_with(s, #[trigger] suffix_at(i)),
    ensures
        first_suffix(s, j) is None,
    decreases SUFFIX_COUNT - j,
{
    if j < SUFFIX_COUNT {
        lemma_first_suffix_none(s, j + 1);
    }
}

/// A run of digits followed by the unit at position `k` of the table.
proof fn lemma_digits_with_unit(d: Seq<char>, k: int)
    requires
        d.len() > 0,
        all_digits(d),
        0 <= k < SUFFIX_COUNT,
    ensures
        quantity_bytes(d + suffix_at(k)) == scaled(digits_value(d), factor_at(k)),
{
    let u = suffix_at(k);
    let s = d + u;
    let n = s.len();
    assert(is_digit_char(d[0]));
    assert(is_digit_char(d[d.len() - 1]));
    assert(s[0] == d[0]);
    assert(s[n - 1] == u[u.len() - 1]);
    lemma_trim_unpadded(s);
    assert(s.subrange(n - u.len(), n as int) =~= u);
    assert forall|i: int| 0 <= i < k implies !ends_with(s, #[trigger] suffix_at(i)) by {
        let t = suffix_at(i);
        if ends_with(s, t) {
            let tail = s.subrange(n - t.len(), n as int);
            assert(tail[t.len() - 1] == s[n - 1]);
            if t.len() == 2 {
                assert(tail[0] == s[n - 2]);
                if u.len() == 2 {
                    assert(s[n - 2] == u[0]);
                }
            }
        }
    }
    lemma_first_suffix_from(s, 0, k);
    let num = s.subrange(0, n - u.len());
    assert(num =~= d);
    lemma_trim_unpadded(d);
    assert(factor_at(k) >= 1);
    if digits_value(d) > u64::MAX {
        assert(digits_value(d) * factor_at(k) >= digits_value(d)) by (nonlinear_arith)
            requires
                factor_at(k) >= 1,
        ;
    }
}

spec fn is_digit_char(c: char) -> bool {
    '0' <= c && c <= '9' && !is_unicode_whitespace(c)
}

/// A Kubernetes quantity in bytes: a plain number is that many bytes, and a number with a
/// unit is the number times the unit, where that fits in 64 bits: the binary units are
/// Ki = 2^10, Mi = 2^20, Gi = 2^30, Ti = 2^40, Pi = 2^50 and Ei = 2^60 bytes, the decimal
/// ones k = 10^3, M = 10^6, G = 10^9, T = 10^12, P = 10^15 and E = 10^18 bytes.
pub proof fn lemma_quantity_units(d: Seq<char>)
    requires
        d.len() > 0,
        all_digits(d),
    ensures
        quantity_bytes(d) == scaled(digits_value(d), 1),
        quantity_bytes(d + seq!['K', 'i']) == scaled(digits_value(d), 1024),
        quantity_bytes(d + seq!['M', 'i']) == scaled(digits_value(d), 1048576),
        quantity_bytes(d + seq!['G', 'i']) == scaled(digits_value(d), 1073741824),
        quantity_bytes(d + seq!['T', 'i']) == scaled(digits_value(d), 1099511627776),
        quantity_bytes(d + seq!['P', 'i']) == scaled(digits_value(d), 1125899906842624),
        quantity_bytes(d + seq!['E', 'i']) == scaled(digits_value(d), 1152921504606846976),
        quantity_bytes(d + seq!['k']) == scaled(digits_value(d), 1000),
        quantity_bytes(d + seq!['M']) == scaled(digits_value(d), 1000000),
        quantity_bytes(d + seq!['G']) == scaled(digits_value(d), 1000000000),
        quantity_bytes(d + seq!['T']) == scaled(digits_value(d), 1000000000000),
        quantity_bytes(d + seq!['P']) == scaled(digits_value(d), 1000000000000000),
        quantity_bytes(d + seq!['E']) == scaled(digits_value(d), 1000000000000000000),
{
    lemma_digits_with_unit(d, 0);
    lemma_digits_with_unit(d, 1);
    lemma_digits_with_unit(d, 2);
    lemma_digits_with_unit(d, 3);
    lemma_digits_with_unit(d, 4);
    lemma_digits_with_unit(d, 5);
    lemma_digits_with_unit(d, 6);
    lemma_digits_with_unit(d, 7);
    lemma_digits_with_unit(d, 8);
    lemma_digits_with_unit(d, 9);
    lemma_digits_with_unit(d, 10);
    lemma_digits_with_unit(d, 11);
    assert(is_digit_char(d[0]) && is_digit_char(d[d.len() - 1]));
    assert(!is_unicode_whitespace(d[0]) && !is_unicode_whitespace(d[d.len() - 1]));
    lemma_trim_unpadded(d);
    assert forall|i: int| 0 <= i < SUFFIX_COUNT implies !ends_with(d, #[trigger] suffix_at(i)) by {
        let t = suffix_at(i);
        if ends_with(d, t) {
            let tail = d.subrange(d.len() - t.len(), d.len() as int);
            assert(tail[t.len() - 1] == d[d.len() - 1]);
        }
    }
    lemma_first_suffix_none(d, 0);
}

fn suffix_entry(k: usize) -> (r: (Vec<char>, u64))
    requires
        k < SUFFIX_COUNT,
    ensures
        r.0@ == suffix_at(k as int),
        r.1 as nat == factor_at(k as int),
{
    let r = if k == 0 {
        (vec!['E', 'i'], 0x1000_0000_0000_0000u64)
    } else if k == 1 {
        (vec!['P', 'i'], 0x4_0000_0000_0000u64)
    } else if k == 2 {
        (vec!['T', 'i'], 0x100_0000_0000u64)
    } else if k == 3 {
        (vec!['G', 'i'], 0x4000_0000u64)
    } else if k == 4 {
        (vec!['M', 'i'], 0x10_0000u64)
    } else if k == 5 {
        (vec!['K', 'i'], 0x400u64)
    } else if k == 6 {
        (vec!['E'], 1_000_000_000_000_000_000u64)
    } else if k == 7 {
        (vec!['P'], 1_000_000_000_000_000u64)
    } else if k == 8 {
        (vec!['T'], 1_000_000_000_000u64)
    } else if k == 9 {
        (vec!['G'], 1_000_000_000u64)
    } else if k == 10 {
        (vec!['M'], 1_000_000u64)
    } else {
        (vec!['k'], 1_000u64)
    };
    assert(r.0@ =~= suffix_at(k as int));
    r
}

fn chars_end_with(s: &Vec<char>, suffix: &Vec<char>) -> (r: bool)
    ensures
        r == ends_with(s@, suffix@),
{
    if suffix.len() > s.len() {
        return false;
    }
    let off = s.len() - suffix.len();
    let mut i: usize = 0;
    while i < suffix.len()
        invariant
            off == s@.len() - suffix@.len(),
            suffix@.len() <= s@.len(),
            s@.len() == s.len(),
            i <= suffix@.len(),
            forall|j: int| 0 <= j < i ==> s@[off + j] == #[trigger] suffix@[j],
        decreases suffix@.len() - i,
    {
        if s[off + i] != suffix[i] {
            assert(s@.subrange(off as int, s@.len() as int)[i as int] != suffix@[i as int]);
            return false;
        }
        i = i + 1;
    }
    assert(s@.subrange(off as int, s@.len() as int) =~= suffix@);
    true
}

/// The size in bytes of a Kubernetes quantity such as `10Gi` or `500M`, or `None` where
/// the text is not one of the forms understood here or the size does not fit in 64 bits.
pub fn parse_quantity_bytes(q: &str) -> (r: Option<u64>)
    ensures
        r == quantity_bytes(q@),
{
    let s = trim_chars(chars_of(q).as_slice());
    let mut k: usize = 0;
    while k < SUFFIX_COUNT
        invariant
            s@ == trim(q@),
            k <= SUFFIX_COUNT,
            first_suffix(s@, 0) == first_suffix(s@, k as int),
        decreases SUFFIX_COUNT - k,
    {
        let (suffix, factor) = suffix_entry(k);
        if chars_end_with(&s, &suffix) {
            let mut num: Vec<char> = Vec::new();
            let mut i: usize = 0;
            let end = s.len() - suffix.len();
            while i < end
                invariant
                    end <= s@.len(),
                    i <= end,
                    num@ == s@.subrange(0, i as int),
                decreases end - i,
            {
                num.push(s[i]);
                i = i + 1;
            }
            let num = trim_chars(num.as_slice());
            return match parse_unsigned_bounded(num.as_slice(), u64::MAX) {
                Some(v) => v.checked_mul(factor),
                None => None,
            };
        }
        k = k + 1;
    }
    match parse_unsigned_bounded(s.as_slice(), u64::MAX) {
        Some(v) => Some(v),
        None => None,
    }
}

/// One claim whose size is to be changed: the claim `<template>-<set>-<ordinal>` of each
/// replica, for each template whose size was changed.
#[derive(Debug)]
pub struct ExpansionTarget {
    pub template_name: String,
    pub pvc_name: String,
    pub desired_size: String,
    /// The template's size before the change, where it had one.
    pub original_size: Option<String>,
}

pub struct TargetView {
    pub template_name: Seq<char>,
    pub pvc_name: Seq<char>,
    pub desired_size: Seq<char>,
    pub original_size: Option<Seq<char>>,
}

impl View for ExpansionTarget {
    type V = TargetView;

    open spec fn view(&self) -> TargetView {
        TargetView {
            template_name: self.template_name@,
            pvc_name: self.pvc_name@,
            desired_size: self.desired_size@,
            original_size: opt_view(self.original_size),
        }
    }
}

pub open spec fn target_views(s: Seq<ExpansionTarget>) -> Seq<TargetView> {
    s.map_values(|t: ExpansionTarget| t@)
}

/// Kubernetes cannot shrink a claim: a smaller size, where both sizes can be read, is left
/// alone.
pub open spec fn shrinks(desired: Seq<char>, existing: Seq<char>) -> bool {
    quantity_bytes(desired) matches Some(d) && quantity_bytes(existing) matches Some(e) && d < e
}

/// A desired template with a name and a size wants its claims expanded when the first
/// existing template of that name asks for another size that is not a larger one.
pub open spec fn wants_expansion(existing: Seq<TemplateView>, t: TemplateView) -> bool {
    t.name matches Some(n) && t.storage_request matches Some(d) && {
        let e = super::statefulset::first_named_request(existing, n);
        &&& e != Some(d)
        &&& !(e matches Some(es) && shrinks(d, es))
    }
}

pub open spec fn pvc_name_spec(template: Seq<char>, sts: Seq<char>, ordinal: nat) -> Seq<char> {
    template + "-"@ + sts + "-"@ + decimal(ordinal)
}

pub open spec fn target_spec(existing: Seq<TemplateView>, t: TemplateView, sts: Seq<char>, ordinal: nat) -> TargetView {
    TargetView {
        template_name: t.name->0,
        pvc_name: pvc_name_spec(t.name->0, sts, ordinal),
        desired_size: t.storage_request->0,
        original_size: super::statefulset::first_named_request(existing, t.name->0),
    }
}

pub open spec fn targets_for(existing: Seq<TemplateView>, t: TemplateView, sts: Seq<char>, replicas: i32) -> Seq<TargetView> {
    if wants_expansion(existing, t) && replicas > 0 {
        Seq::new(replicas as nat, |k: int| target_spec(existing, t, sts, k as nat))
    } else {
        Seq::empty()
    }
}

/// The claims to expand, template by template in the desired order, replica by replica.
pub open spec fn expansion_plan(existing: Seq<TemplateView>, desired: Seq<TemplateView>, sts: Seq<char>, replicas: i32) -> Seq<TargetView>
    decreases desired.len(),
{
    if desired.len() == 0 {
        Seq::empty()
    } else {
        expansion_plan(existing, desired.drop_last(), sts, replicas) + targets_for(existing, desired.last(), sts, replicas)
    }
}

/// Only claims of templates whose size was changed (and not shrunk), and only those of the
/// replicas that exist, are expanded: each planned claim is `<template>-<set>-<i>` for a
/// desired template that wants expansion and an ordinal `i` below the replica count.
pub proof fn lemma_plan_only_changed_templates(
    existing: Seq<TemplateView>,
    desired: Seq<TemplateView>,
    sts: Seq<char>,
    replicas: i32,
)
    ensures
        forall|k: int|
            #![trigger expansion_plan(existing, desired, sts, replicas)[k]]
            0 <= k < expansion_plan(existing, desired, sts, replicas).len() ==> exists|j: int, i: int|
                #![trigger desired[j], target_spec(existing, desired[j], sts, i as nat)]
                0 <= j < desired.len() && 0 <= i < replicas && wants_expansion(existing, desired[j])
                    && expansion_plan(existing, desired, sts, replicas)[k] == target_spec(existing, desired[j], sts, i as nat),
    decreases desired.len(),
{
    if desired.len() > 0 {
        let pre = desired.drop_last();
        lemma_plan_only_changed_templates(existing, pre, sts, replicas);
        let p0 = expansion_plan(existing, pre, sts, replicas);
        let extra = targets_for(existing, desired.last(), sts, replicas);
        let plan = expansion_plan(existing, desired, sts, replicas);
        assert(plan == p0 + extra);
        assert forall|k: int| #![trigger plan[k]] 0 <= k < plan.len() implies exists|j: int, i: int|
            #![trigger desired[j], target_spec(existing, desired[j], sts, i as nat)]
            0 <= j < desired.len() && 0 <= i < replicas && wants_expansion(existing, desired[j])
                && plan[k] == target_spec(existing, desired[j], sts, i as nat) by {
            if k < p0.len() {
                assert(plan[k] == p0[k]);
                let (j, i) = choose|j: int, i: int|
                    #![trigger pre[j], target_spec(existing, pre[j], sts, i as nat)]
                    0 <= j < pre.len() && 0 <= i < replicas && wants_expansion(existing, pre[j])
                        && p0[k] == target_spec(existing, pre[j], sts, i as nat);
                assert(pre[j] == desired[j]);
                assert(desired[j] == desired[j] && target_spec(existing, desired[j], sts, i as nat) == p0[k]);
            } else {
                let i = k - p0.len();
                let j = desired.len() - 1;
                assert(plan[k] == extra[i]);
                assert(desired[j] == desired.last());
                assert(target_spec(existing, desired[j], sts, i as nat) == extra[i]);
            }
        }
    }
}

fn first_request_of(ts: &Vec<VolumeClaimTemplate>, name: &String) -> (r: Option<String>)
    ensures
        opt_view(r) == super::statefulset::first_named_request(template_views(ts@), name@),
{
    let mut i: usize = 0;
    assert(template_views(ts@).subrange(0, ts@.len() as int) =~= template_views(ts@));
    while i < ts.len()
        invariant
            i <= ts@.len(),
            super::statefulset::first_named_request(template_views(ts@), name@)
                == super::statefulset::first_named_request(template_views(ts@).subrange(i as int, ts@.len() as int), name@),
        decreases ts@.len() - i,
    {
        let ghost rest = template_views(ts@).subrange(i as int, ts@.len() as int);
        assert(rest[0] == ts@[i as int]@);
        assert(rest.drop_first() =~= template_views(ts@).subrange(i + 1, ts@.len() as int));
        let found = match &ts[i].name {
            Some(n) => *n == *name,
            None => false,
        };
        if found {
            return clone_opt_string(&ts[i].storage_request);
        }
        i = i + 1;
    }
    None
}

fn pvc_name(template: &String, sts: &str, ordinal: i32) -> (r: String)
    requires
        ordinal >= 0,
    ensures
        r@ == pvc_name_spec(template@, sts@, ordinal as nat),
{
    let n = u64_to_decimal(ordinal as u64);
    template.clone().concat("-").concat(sts).concat("-").concat(n.as_str())
}

/// The claims to expand after the claim templates of a StatefulSet with `replicas`
/// replicas changed from `existing` to `desired`.
pub fn plan_expansions(existing: &Vec<VolumeClaimTemplate>, desired: &Vec<VolumeClaimTemplate>, sts_name: &str, replicas: i32) -> (plan: Vec<ExpansionTarget>)
    ensures
        target_views(plan@) == expansion_plan(template_views(existing@), template_views(desired@), sts_name@, replicas),
{
    let ghost ev = template_views(existing@);
    let ghost dv = template_views(desired@);
    let mut plan: Vec<ExpansionTarget> = Vec::new();
    let mut i: usize = 0;
    while i < desired.len()
        invariant
            i <= desired@.len(),
            ev == template_views(existing@),
            dv == template_views(desired@),
            target_views(plan@) == expansion_plan(ev, dv.subrange(0, i as int), sts_name@, replicas),
        decreases desired@.len() - i,
    {
        let ghost t = dv[i as int];
        assert(t == desired@[i as int]@);
        assert(dv.subrange(0, i + 1).drop_last() =~= dv.subrange(0, i as int));
        let ghost before = target_views(plan@);
        let wanted: bool = match (&desired[i].name, &desired[i].storage_request) {
            (Some(name), Some(size)) => {
                let existing_size = first_request_of(existing, name);
                if opt_str_eq(&existing_size, &desired[i].storage_request) {
                    false
                } else {
                    match &existing_size {
                        Some(es) => match (parse_quantity_bytes(size.as_str()), parse_quantity_bytes(es.as_str())) {
                            (Some(d), Some(e)) => !(d < e),
                            _ => true,
                        },
                        None => true,
                    }
                }
            },
            _ => false,
        };
        assert(wanted == wants_expansion(ev, t));
        if wanted && replicas > 0 {
            let name = desired[i].name.as_ref().unwrap();
            let size = desired[i].storage_request.as_ref().unwrap();
            let original = first_request_of(existing, name);
            let mut k: i32 = 0;
            while k < replicas
                invariant
                    0 <= k <= replicas,
                    wants_expansion(ev, t),
                    t.name == Some(name@),
                    t.storage_request == Some(size@),
                    opt_view(original) == super::statefulset::first_named_request(ev, name@),
                    target_views(plan@) == before + Seq::new(k as nat, |j: int| target_spec(ev, t, sts_name@, j as nat)),
                decreases replicas - k,
            {
                let target = ExpansionTarget {
                    template_name: name.clone(),
                    pvc_name: pvc_name(name, sts_name, k),
                    desired_size: size.clone(),
                    original_size: clone_opt_string(&original),
                };
                let ghost p0 = plan@;
                plan.push(target);
                proof {
                    assert(target_views(plan@) =~= target_views(p0).push(target_spec(ev, t, sts_name@, k as nat)));
                    assert(before + Seq::new((k + 1) as nat, |j: int| target_spec(ev, t, sts_name@, j as nat)) =~= (before
                        + Seq::new(k as nat, |j: int| target_spec(ev, t, sts_name@, j as nat))).push(
                        target_spec(ev, t, sts_name@, k as nat),
                    ));
                }
                k = k + 1;
            }
            assert(target_views(plan@) =~= before + targets_for(ev, t, sts_name@, replicas));
        } else {
            assert(target_views(plan@) =~= before + targets_for(ev, t, sts_name@, replicas));
        }
        i = i + 1;
    }
    assert(dv.subrange(0, desired@.len() as int) =~= dv);
    plan
}

/// What became of one claim that was to be expanded.
#[derive(Debug)]
pub enum PvcOutcome {
    /// The claim does not exist.
    Missing,
    /// The claim names no storage class and the cluster has no default one.
    NoStorageClass,
    /// The claim's storage class does not allow volumes to grow.
    NotExpandable { storage_class: String },
    /// The claim now asks for the new size.
    Expanded,
    /// The request to change the claim was refused.
    PatchFailed { reason: String },
}

/// A claim that could not be expanded, and the size its template is to be set back to.
#[derive(Debug)]
pub struct PvcExpansionFailure {
    pub template_name: String,
    pub pvc_name: String,
    pub original_size: String,
    pub reason: String,
}

pub struct FailureView {
    pub template_name: Seq<char>,
    pub pvc_name: Seq<char>,
    pub original_size: Seq<char>,
    pub reason: Seq<char>,
}

impl View for PvcExpansionFailure {
    type V = FailureView;

    open spec fn view(&self) -> FailureView {
        FailureView {
            template_name: self.template_name@,
            pvc_name: self.pvc_name@,
            original_size: self.original_size@,
            reason: self.reason@,
        }
    }
}

pub open spec fn failure_views(s: Seq<PvcExpansionFailure>) -> Seq<FailureView> {
    s.map_values(|f: PvcExpansionFailure| f@)
}

pub open spec fn name_views(s: Seq<String>) -> Seq<Seq<char>> {
    s.map_values(|n: String| n@)
}

/// The failures so far, and the templates of which at least one claim was expanded (each
/// once). The StatefulSet only needs recreating when some template was expanded.
#[derive(Debug)]
pub struct ExpansionReport {
    pub failures: Vec<PvcExpansionFailure>,
    pub expanded_templates: Vec<String>,
}

impl ExpansionReport {
    pub fn new() -> (r: ExpansionReport)
        ensures
            r.failures@.len() == 0,
            r.expanded_templates@.len() == 0,
    {
        ExpansionReport { failures: Vec::new(), expanded_templates: Vec::new() }
    }
}

pub open spec fn not_expandable_reason(storage_class: Seq<char>) -> Seq<char> {
    "storage class '"@ + storage_class + "' does not support volume expansion"@
}

/// The failure recorded for a claim, where its template had a size to go back to.
pub open spec fn failure_for(t: TargetView, reason: Seq<char>) -> Seq<FailureView> {
    match t.original_size {
        Some(o) => seq![FailureView { template_name: t.template_name, pvc_name: t.pvc_name, original_size: o, reason }],
        None => Seq::empty(),
    }
}

pub open spec fn no_duplicates(s: Seq<Seq<char>>) -> bool {
    forall|i: int, j: int| 0 <= i < j < s.len() ==> s[i] != s[j]
}

/// The report after one more claim: a refusal is a failure to revert (where the template
/// had a size); an expansion marks its template; a missing claim, or one without a storage
/// class, changes nothing.
pub open spec fn outcome_failures(t: TargetView, o: PvcOutcome) -> Seq<FailureView> {
    match o {
        PvcOutcome::NotExpandable { storage_class } => failure_for(t, not_expandable_reason(storage_class@)),
        PvcOutcome::PatchFailed { reason } => failure_for(t, reason@),
        _ => Seq::empty(),
    }
}

pub open spec fn outcome_expanded(expanded: Seq<Seq<char>>, t: TargetView, o: PvcOutcome) -> Seq<Seq<char>> {
    if o is Expanded && !expanded.contains(t.template_name) {
        expanded.push(t.template_name)
    } else {
        expanded
    }
}

fn contains_name(v: &Vec<String>, n: &String) -> (r: bool)
    ensures
        r == name_views(v@).contains(n@),
{
    let mut i: usize = 0;
    while i < v.len()
        invariant
            i <= v@.len(),
            forall|j: int| 0 <= j < i ==> name_views(v@)[j] != n@,
        decreases v@.len() - i,
    {
        if v[i] == *n {
            assert(name_views(v@)[i as int] == n@);
            return true;
        }
        i = i + 1;
    }
    false
}

impl ExpansionReport {
    /// Takes in what became of one claim of the plan.
    pub fn record(&mut self, target: &ExpansionTarget, outcome: PvcOutcome)
        ensures
            failure_views(final(self).failures@) == failure_views(old(self).failures@) + outcome_failures(target@, outcome),
            name_views(final(self).expanded_templates@) == outcome_expanded(
                name_views(old(self).expanded_templates@),
                target@,
                outcome,
            ),
            no_duplicates(name_views(old(self).expanded_templates@)) ==> no_duplicates(
                name_views(final(self).expanded_templates@),
            ),
    {
        let ghost f0 = failure_views(self.failures@);
        let ghost t = target@;
        let ghost o = outcome;
        let reason: Option<String> = match outcome {
            PvcOutcome::NotExpandable { storage_class } => Some(
                lit("storage class '").concat(storage_class.as_str()).concat("' does not support volume expansion"),
            ),
            PvcOutcome::PatchFailed { reason } => Some(reason),
            PvcOutcome::Expanded => {
                let ghost e0 = name_views(self.expanded_templates@);
                if !contains_name(&self.expanded_templates, &target.template_name) {
                    self.expanded_templates.push(target.template_name.clone());
                    assert(name_views(self.expanded_templates@) =~= e0.push(t.template_name));
                }
                None
            },
            _ => None,
        };
        match (reason, &target.original_size) {
            (Some(r), Some(orig)) => {
                let ghost rv = r@;
                self.failures.push(PvcExpansionFailure {
                    template_name: target.template_name.clone(),
                    pvc_name: target.pvc_name.clone(),
                    original_size: orig.clone(),
                    reason: r,
                });
                assert(failure_views(self.failures@) =~= f0 + failure_for(t, rv));
            },
            _ => {
                assert(failure_views(self.failures@) =~= f0 + Seq::<FailureView>::empty());
            },
        }
    }
}

/// The expanded templates after the first `n` claims of a plan and what became of them.
pub open spec fn expanded_upto(ts: Seq<TargetView>, os: Seq<PvcOutcome>, n: nat) -> Seq<Seq<char>>
    decreases n,
{
    if n == 0 {
        Seq::empty()
    } else {
        outcome_expanded(expanded_upto(ts, os, (n - 1) as nat), ts[n - 1], os[n - 1])
    }
}

/// The failures after the first `n` claims of a plan and what became of them.
pub open spec fn failures_upto(ts: Seq<TargetView>, os: Seq<PvcOutcome>, n: nat) -> Seq<FailureView>
    decreases n,
{
    if n == 0 {
        Seq::empty()
    } else {
        failures_upto(ts, os, (n - 1) as nat) + outcome_failures(ts[n - 1], os[n - 1])
    }
}

/// After any run of claims, a template is marked expanded exactly when some claim of it
/// was expanded, and no template is marked twice.
pub proof fn lemma_expanded_templates(ts: Seq<TargetView>, os: Seq<PvcOutcome>, n: nat)
    requires
        n <= ts.len(),
        n <= os.len(),
    ensures
        no_duplicates(expanded_upto(ts, os, n)),
        forall|name: Seq<char>| #![trigger expanded_upto(ts, os, n).contains(name)]
            expanded_upto(ts, os, n).contains(name) <==> exists|i: int|
                0 <= i < n && os[i] is Expanded && #[trigger] ts[i].template_name == name,
    decreases n,
{
    if n > 0 {
        let m = (n - 1) as nat;
        lemma_expanded_templates(ts, os, m);
        let prev = expanded_upto(ts, os, m);
        assert forall|name: Seq<char>| #![trigger expanded_upto(ts, os, n).contains(name)]
            expanded_upto(ts, os, n).contains(name) <==> exists|i: int|
                0 <= i < n && os[i] is Expanded && #[trigger] ts[i].template_name == name by {
            if os[m as int] is Expanded && ts[m as int].template_name == name {
                assert(0 <= m < n && os[m as int] is Expanded && ts[m as int].template_name == name);
                if !prev.contains(ts[m as int].template_name) {
                    assert(prev.push(ts[m as int].template_name)[prev.len() as int] == name);
                }
            }
            if prev.contains(name) {
                let i = choose|i: int| 0 <= i < m && os[i] is Expanded && #[trigger] ts[i].template_name == name;
                assert(0 <= i < n && os[i] is Expanded && ts[i].template_name == name);
                if os[m as int] is Expanded && !prev.contains(ts[m as int].template_name) {
                    let k = choose|k: int| 0 <= k < prev.len() && prev[k] == name;
                    assert(prev.push(ts[m as int].template_name)[k] == name);
                }
            }
            if expanded_upto(ts, os, n).contains(name) && !prev.contains(name) {
                assert(os[m as int] is Expanded && ts[m as int].template_name == name);
            }
            if exists|i: int| 0 <= i < n && os[i] is Expanded && #[trigger] ts[i].template_name == name {
                let i = choose|i: int| 0 <= i < n && os[i] is Expanded && #[trigger] ts[i].template_name == name;
                if i < m {
                    assert(prev.contains(name));
                }
            }
        }
        if os[m as int] is Expanded && !prev.contains(ts[m as int].template_name) {
            let e = prev.push(ts[m as int].template_name);
            assert forall|i: int, j: int| 0 <= i < j < e.len() implies e[i] != e[j] by {
                if j == prev.len() {
                    assert(prev[i] == e[i]);
                }
            }
        }
    }
}

/// The report of a whole plan, given what became of each of its claims in turn (the
/// claims are changed through the cluster's API, which hands back these outcomes).
pub fn expansion_report(plan: &Vec<ExpansionTarget>, outcomes: Vec<PvcOutcome>) -> (r: ExpansionReport)
    requires
        plan@.len() == outcomes@.len(),
    ensures
        failure_views(r.failures@) == failures_upto(target_views(plan@), outcomes@, plan@.len()),
        name_views(r.expanded_templates@) == expanded_upto(target_views(plan@), outcomes@, plan@.len()),
        no_duplicates(name_views(r.expanded_templates@)),
        forall|name: Seq<char>| #![trigger name_views(r.expanded_templates@).contains(name)]
            name_views(r.expanded_templates@).contains(name) <==> exists|i: int|
                0 <= i < plan@.len() && outcomes@[i] is Expanded && #[trigger] target_views(plan@)[i].template_name
                    == name,
{
    let ghost ts = target_views(plan@);
    let ghost os = outcomes@;
    let mut rest = outcomes;
    let mut report = ExpansionReport::new();
    let mut i: usize = 0;
    assert(name_views(report.expanded_templates@) =~= Seq::<Seq<char>>::empty());
    assert(failure_views(report.failures@) =~= Seq::<FailureView>::empty());
    while i < plan.len()
        invariant
            ts == target_views(plan@),
            os.len() == plan@.len(),
            i <= plan@.len(),
            rest@ == os.subrange(i as int, os.len() as int),
            failure_views(report.failures@) == failures_upto(ts, os, i as nat),
            name_views(report.expanded_templates@) == expanded_upto(ts, os, i as nat),
            no_duplicates(name_views(report.expanded_templates@)),
        decreases plan@.len() - i,
    {
        let outcome = rest.remove(0);
        assert(outcome == os[i as int]);
        assert(plan@[i as int]@ == ts[i as int]);
        report.record(&plan[i], outcome);
        assert(rest@ =~= os.subrange(i + 1, os.len() as int));
        i = i + 1;
    }
    proof {
        lemma_expanded_templates(ts, os, plan@.len());
    }
    report
}

/// The storage class that a claim names, unless it names none or an empty one; the
/// cluster's default class is looked up in that case.
pub fn named_storage_class(pvc_class: &Option<String>) -> (r: Option<String>)
    ensures
        opt_view(r) == (match opt_view(*pvc_class) {
            Some(c) => if c.len() > 0 { Some(c) } else { None },
            None => None,
        }),
{
    match pvc_class {
        Some(c) => if c.as_str().unicode_len() > 0 {
            Some(c.clone())
        } else {
            None
        },
        None => None,
    }
}

/// A StorageClass of the cluster, as far as expansion needs it.
#[derive(Debug)]
pub struct StorageClassInfo {
    pub name: Option<String>,
    /// The value of its `storageclass.kubernetes.io/is-default-class` annotation.
    pub is_default_class: Option<String>,
    pub allow_volume_expansion: Option<bool>,
}

pub open spec fn is_default_class(c: StorageClassInfo) -> bool {
    opt_view(c.is_default_class) == Some("true"@)
}

/// The name of the first class annotated as the cluster's default, if any.
pub open spec fn default_class_name(classes: Seq<StorageClassInfo>) -> Option<Seq<char>>
    decreases classes.len(),
{
    if classes.len() == 0 {
        None
    } else if is_default_class(classes[0]) {
        opt_view(classes[0].name)
    } else {
        default_class_name(classes.drop_first())
    }
}

pub fn find_default_storage_class_name(classes: &Vec<StorageClassInfo>) -> (r: Option<String>)
    ensures
        opt_view(r) == default_class_name(classes@),
{
    let t = lit("true");
    let mut i: usize = 0;
    assert(classes@.subrange(0, classes@.len() as int) =~= classes@);
    while i < classes.len()
        invariant
            i <= classes@.len(),
            t@ == "true"@,
            default_class_name(classes@) == default_class_name(classes@.subrange(i as int, classes@.len() as int)),
        decreases classes@.len() - i,
    {
        let ghost rest = classes@.subrange(i as int, classes@.len() as int);
        assert(rest[0] == classes@[i as int]);
        assert(rest.drop_first() =~= classes@.subrange(i + 1, classes@.len() as int));
        let is_default = match &classes[i].is_default_class {
            Some(v) => *v == t,
            None => false,
        };
        if is_default {
            return clone_opt_string(&classes[i].name);
        }
        i = i + 1;
    }
    None
}

/// Whether a storage class, where it exists, allows its volumes to grow.
pub fn allows_expansion(class: Option<&StorageClassInfo>) -> (r: bool)
    ensures
        r == (class matches Some(c) && c.allow_volume_expansion == Some(true)),
{
    match class {
        Some(c) => match c.allow_volume_expansion {
            Some(b) => b,
            None => false,
        },
        None => false,
    }
}

/// The volume of a cluster's spec whose size a template's size comes from.
#[derive(Clone, Copy, Debug, PartialEq, Eq, Structural)]
pub enum StorageVolume {
    Persistent,
    Logs,
    Snapshots,
}

/// The volume of the spec to set back after a failed expansion; none for a template the
/// operator does not make.
pub fn revert_target(template_name: &str) -> (r: Option<StorageVolume>)
    ensures
        r == (if template_name@ == "persistent"@ {
            Some(StorageVolume::Persistent)
        } else if template_name@ == "logs"@ {
            Some(StorageVolume::Logs)
        } else if template_name@ == "snapshots"@ {
            Some(StorageVolume::Snapshots)
        } else {
            None
        }),
{
    let n = lit(template_name);
    if n == lit("persistent") {
        Some(StorageVolume::Persistent)
    } else if n == lit("logs") {
        Some(StorageVolume::Logs)
    } else if n == lit("snapshots") {
        Some(StorageVolume::Snapshots)
    } else {
        None
    }
}

} // verus!
