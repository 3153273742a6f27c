use vstd::prelude::*;

use crate::ast::{ModuleItem, Resolution};
use crate::resolve::{
    dedup_first, module_names, module_reexports, resolved_names, resolved_reexports,
};

verus! {

// ---------------------------------------------------------------------------
// Properties of the resolution pass, stated and proved once over every input.
// ---------------------------------------------------------------------------

/// The index of the first occurrence of `x` in `s` (meaningful when `s`
/// contains `x`).
pub open spec fn first_index(s: Seq<Seq<char>>, x: Seq<char>) -> int
    decreases s.len(),
{
    if s.len() == 0 {
        0
    } else if s[0] == x {
        0
    } else {
        1 + first_index(s.drop_first(), x)
    }
}

proof fn lemma_contains_first(s: Seq<Seq<char>>, y: Seq<char>)
    requires
        s.len() > 0,
    ensures
        s.contains(y) <==> (s[0] == y || s.drop_first().contains(y)),
{
    if s.contains(y) && s[0] != y {
        let i = choose|i: int| 0 <= i < s.len() && s[i] == y;
        assert(s.drop_first()[i - 1] == y);
    }
    if s.drop_first().contains(y) {
        let j = choose|j: int| 0 <= j < s.drop_first().len() && s.drop_first()[j] == y;
        assert(s[j + 1] == y);
    }
}

proof fn lemma_contains_push(t: Seq<Seq<char>>, l: Seq<char>, x: Seq<char>)
    ensures
        t.push(l).contains(x) <==> (t.contains(x) || x == l),
{
    if t.push(l).contains(x) {
        let i = choose|i: int| 0 <= i < t.push(l).len() && t.push(l)[i] == x;
        if i < t.len() {
            assert(t[i] == x);
        }
    }
    if t.contains(x) {
        let i = choose|i: int| 0 <= i < t.len() && t[i] == x;
        assert(t.push(l)[i] == x);
    }
    if x == l {
        assert(t.push(l)[t.len() as int] == x);
    }
}

/// When `s` contains `x`, its first index is in range, holds `x`, and
/// nothing before it equals `x`.
pub proof fn lemma_first_index_properties(s: Seq<Seq<char>>, x: Seq<char>)
    requires
        s.contains(x),
    ensures
        0 <= first_index(s, x) < s.len(),
        s[first_index(s, x)] == x,
        forall|k: int| 0 <= k < first_index(s, x) ==> s[k] != x,
    decreases s.len(),
{
    if s[0] == x {
    } else {
        lemma_contains_first(s, x);
        lemma_first_index_properties(s.drop_first(), x);
        let f = first_index(s.drop_first(), x);
        assert(s[1 + f] == s.drop_first()[f]);
        assert forall|k: int| 0 <= k < 1 + f implies s[k] != x by {
            if k > 0 {
                assert(s[k] == s.drop_first()[k - 1]);
            }
        }
    }
}

/// Appending one entry does not move the first occurrence of anything
/// already present, and a fresh entry's first occurrence is the new slot.
proof fn lemma_first_index_push(s: Seq<Seq<char>>, x: Seq<char>, y: Seq<char>)
    ensures
        s.contains(y) ==> first_index(s.push(x), y) == first_index(s, y),
        !s.contains(y) && y == x ==> first_index(s.push(x), y) == s.len(),
    decreases s.len(),
{
    if s.len() == 0 {
        assert(s.push(x)[0] == x);
    } else {
        assert(s.push(x)[0] == s[0]);
        assert(s.push(x).drop_first() =~= s.drop_first().push(x));
        lemma_first_index_push(s.drop_first(), x, y);
        lemma_contains_first(s, y);
    }
}

/// Nothing appears twice after first-occurrence deduplication.
pub proof fn lemma_dedup_first_distinct(s: Seq<Seq<char>>)
    ensures
        forall|i: int, j: int|
            0 <= i < j < dedup_first(s).len() ==> dedup_first(s)[i] != dedup_first(s)[j],
    decreases s.len(),
{
    if s.len() > 0 {
        lemma_dedup_first_distinct(s.drop_last());
        let prefix = dedup_first(s.drop_last());
        if !prefix.contains(s.last()) {
            assert forall|i: int, j: int|
                0 <= i < j < dedup_first(s).len() implies dedup_first(s)[i] != dedup_first(
                s,
            )[j] by {
                if j == prefix.len() {
                    assert(dedup_first(s)[i] == prefix[i]);
                    assert(prefix.contains(prefix[i]));
                }
            }
        }
    }
}

/// Deduplication keeps exactly the values that were contributed.
pub proof fn lemma_dedup_first_membership(s: Seq<Seq<char>>, x: Seq<char>)
    ensures
        dedup_first(s).contains(x) <==> s.contains(x),
    decreases s.len(),
{
    if s.len() == 0 {
    } else {
        lemma_dedup_first_membership(s.drop_last(), x);
        let prefix = dedup_first(s.drop_last());
        assert(s =~= s.drop_last().push(s.last()));
        lemma_contains_push(s.drop_last(), s.last(), x);
        if !prefix.contains(s.last()) {
            lemma_contains_push(prefix, s.last(), x);
        } else {
            if x == s.last() {
                lemma_dedup_first_membership(s.drop_last(), s.last());
            }
        }
    }
}

/// Deduplication preserves first-seen order: entries of the deduplicated
/// sequence occur in the order of their first occurrences in the raw one.
pub proof fn lemma_dedup_first_order(s: Seq<Seq<char>>)
    ensures
        forall|i: int| 0 <= i < dedup_first(s).len() ==> s.contains(#[trigger] dedup_first(s)[i]),
        forall|i: int, j: int|
            0 <= i < j < dedup_first(s).len() ==> first_index(s, dedup_first(s)[i]) < first_index(
                s,
                dedup_first(s)[j],
            ),
    decreases s.len(),
{
    if s.len() == 0 {
    } else {
        let t = s.drop_last();
        let l = s.last();
        lemma_dedup_first_order(t);
        let d = dedup_first(t);
        assert(s =~= t.push(l));
        assert forall|y: Seq<char>| t.contains(y) implies first_index(s, y) == first_index(t, y)
            && s.contains(y) by {
            lemma_first_index_push(t, l, y);
            lemma_contains_push(t, l, y);
        }
        if d.contains(l) {
            assert(dedup_first(s) == d);
        } else {
            lemma_dedup_first_membership(t, l);
            assert(!t.contains(l));
            lemma_first_index_push(t, l, l);
            assert(first_index(s, l) == t.len());
            lemma_contains_push(t, l, l);
            assert(dedup_first(s) == d.push(l));
            assert forall|i: int|
                0 <= i < dedup_first(s).len() implies s.contains(
                #[trigger] dedup_first(s)[i],
            ) by {
                if i < d.len() {
                    assert(dedup_first(s)[i] == d[i]);
                    assert(t.contains(d[i]));
                } else {
                    assert(dedup_first(s)[i] == l);
                }
            }
            assert forall|i: int, j: int|
                0 <= i < j < dedup_first(s).len() implies first_index(s, dedup_first(s)[i])
                < first_index(s, dedup_first(s)[j]) by {
                if j < d.len() {
                    assert(dedup_first(s)[i] == d[i]);
                    assert(dedup_first(s)[j] == d[j]);
                } else {
                    assert(dedup_first(s)[j] == l);
                    assert(dedup_first(s)[i] == d[i]);
                    assert(t.contains(d[i]));
                    lemma_first_index_properties(t, d[i]);
                }
            }
        }
    }
}

// ---------------------------------------------------------------------------
// The same properties, read off a resolver result.
//
// Each lemma below takes a result that meets the resolver's contract for some
// item sequence; `resolve` returns exactly such a value.
// ---------------------------------------------------------------------------

/// Whether `r` is what the resolution pass yields for `items` — exactly the
/// resolver's postcondition.
pub open spec fn resolution_for(r: Resolution, items: Seq<ModuleItem>) -> bool {
    &&& r.export_names.deep_view() == resolved_names(items)
    &&& r.reexports.deep_view() == resolved_reexports(items)
}

/// Determinism, and idempotence over repeated calls: any two resolutions of
/// the same item sequence hold identical export names and identical
/// re-export specifiers — the result is a pure function of the syntax tree.
pub proof fn lemma_resolution_deterministic(
    items: Seq<ModuleItem>,
    r1: Resolution,
    r2: Resolution,
)
    requires
        resolution_for(r1, items),
        resolution_for(r2, items),
    ensures
        r1.export_names.deep_view() == r2.export_names.deep_view(),
        r1.reexports.deep_view() == r2.reexports.deep_view(),
{
}

/// Deduplication: no export name and no re-export specifier appears twice in
/// a resolution, however often the source contributed it.
pub proof fn lemma_resolution_deduplicated(items: Seq<ModuleItem>, r: Resolution)
    requires
        resolution_for(r, items),
    ensures
        forall|i: int, j: int|
            0 <= i < j < r.export_names.deep_view().len() ==> r.export_names.deep_view()[i]
                != r.export_names.deep_view()[j],
        forall|i: int, j: int|
            0 <= i < j < r.reexports.deep_view().len() ==> r.reexports.deep_view()[i]
                != r.reexports.deep_view()[j],
{
    lemma_dedup_first_distinct(module_names(items));
    lemma_dedup_first_distinct(module_reexports(items));
}

/// Exactness of membership: a name stands in the result if and only if some
/// top-level item contributes it, and likewise for re-export specifiers.
pub proof fn lemma_resolution_membership(items: Seq<ModuleItem>, r: Resolution, x: Seq<char>)
    requires
        resolution_for(r, items),
    ensures
        r.export_names.deep_view().contains(x) <==> module_names(items).contains(x),
        r.reexports.deep_view().contains(x) <==> module_reexports(items).contains(x),
{
    lemma_dedup_first_membership(module_names(items), x);
    lemma_dedup_first_membership(module_reexports(items), x);
}

/// Order preservation: the result lists distinct export names and re-export
/// specifiers in the order of their first occurrences among the
/// contributions of the top-level items.
pub proof fn lemma_resolution_order_preserved(items: Seq<ModuleItem>, r: Resolution)
    requires
        resolution_for(r, items),
    ensures
        forall|i: int, j: int|
            0 <= i < j < r.export_names.deep_view().len() ==> first_index(
                module_names(items),
                r.export_names.deep_view()[i],
            ) < first_index(module_names(items), r.export_names.deep_view()[j]),
        forall|i: int, j: int|
            0 <= i < j < r.reexports.deep_view().len() ==> first_index(
                module_reexports(items),
                r.reexports.deep_view()[i],
            ) < first_index(module_reexports(items), r.reexports.deep_view()[j]),
{
    lemma_dedup_first_order(module_names(items));
    lemma_dedup_first_order(module_reexports(items));
}

} // verus!
