use vstd::prelude::*;
use crate::text::chars_of;

verus! {

broadcast use {vstd::seq_lib::group_to_multiset_ensures, vstd::seq::group_seq_axioms};

/// Lexicographic order of character sequences from position `i` on,
/// comparing code points (the order of `String`'s `Ord`).
pub open spec fn lt_from(a: Seq<char>, b: Seq<char>, i: int) -> bool
    decreases b.len() - i,
{
    if i < 0 || i >= b.len() {
        false
    } else if i >= a.len() {
        true
    } else if a[i] != b[i] {
        (a[i] as u32) < (b[i] as u32)
    } else {
        lt_from(a, b, i + 1)
    }
}

/// `a` sorts strictly before `b`.
pub open spec fn str_lt(a: Seq<char>, b: Seq<char>) -> bool {
    lt_from(a, b, 0)
}

pub proof fn lemma_lt_irreflexive(a: Seq<char>, i: int)
    requires
        0 <= i,
    ensures
        !lt_from(a, a, i),
    decreases a.len() - i,
{
    if i < a.len() {
        lemma_lt_irreflexive(a, i + 1);
    }
}

pub proof fn lemma_lt_transitive(a: Seq<char>, b: Seq<char>, c: Seq<char>, i: int)
    requires
        0 <= i,
        lt_from(a, b, i),
        lt_from(b, c, i),
    ensures
        lt_from(a, c, i),
    decreases b.len() - i,
{
    if i < a.len() && a[i] == b[i] && b[i] == c[i] {
        lemma_lt_transitive(a, b, c, i + 1);
    }
}

pub proof fn lemma_lt_total(a: Seq<char>, b: Seq<char>, i: int)
    requires
        0 <= i <= a.len(),
        i <= b.len(),
        forall|k: int| 0 <= k < i ==> a[k] == b[k],
        a != b,
    ensures
        lt_from(a, b, i) || lt_from(b, a, i),
    decreases a.len() - i,
{
    if i == a.len() && i == b.len() {
        assert(a =~= b);
    } else if i < a.len() && i < b.len() && a[i] == b[i] {
        lemma_lt_total(a, b, i + 1);
    } else if i < a.len() && i < b.len() {
        let x = a[i] as u32;
        let y = b[i] as u32;
        vstd::utf8::char_u32_cast(a[i], x);
        vstd::utf8::char_u32_cast(b[i], y);
    }
}

pub proof fn lemma_lt_asymmetric(a: Seq<char>, b: Seq<char>, i: int)
    requires
        0 <= i,
        lt_from(a, b, i),
    ensures
        !lt_from(b, a, i),
{
    if lt_from(b, a, i) {
        lemma_lt_transitive(a, b, a, i);
        lemma_lt_irreflexive(a, i);
    }
}

/// The order on strings as a total order: the lemmas a sort needs.
pub proof fn law_str_order(a: Seq<char>, b: Seq<char>, c: Seq<char>)
    ensures
        !str_lt(a, a),
        str_lt(a, b) ==> !str_lt(b, a),
        str_lt(a, b) && str_lt(b, c) ==> str_lt(a, c),
        a != b ==> str_lt(a, b) || str_lt(b, a),
{
    lemma_lt_irreflexive(a, 0);
    if str_lt(a, b) {
        lemma_lt_asymmetric(a, b, 0);
    }
    if str_lt(a, b) && str_lt(b, c) {
        lemma_lt_transitive(a, b, c, 0);
    }
    if a != b {
        lemma_lt_total(a, b, 0);
    }
}

/// Whether `a` sorts strictly before `b`.
pub fn str_less(a: &str, b: &str) -> (r: bool)
    ensures
        r == str_lt(a@, b@),
{
    let va = chars_of(a);
    let vb = chars_of(b);
    let mut i: usize = 0;
    while i < va.len() && i < vb.len() && va[i] == vb[i]
        invariant
            i <= va@.len(),
            i <= vb@.len(),
            va@ == a@,
            vb@ == b@,
            str_lt(a@, b@) == lt_from(a@, b@, i as int),
        decreases va@.len() - i,
    {
        i = i + 1;
    }
    if i >= vb.len() {
        false
    } else if i >= va.len() {
        true
    } else {
        (va[i] as u32) < (vb[i] as u32)
    }
}

pub open spec fn views(v: Seq<String>) -> Seq<Seq<char>> {
    v.map_values(|s: String| s@)
}

/// Strictly ascending: sorted and without duplicates.
pub open spec fn strictly_sorted(s: Seq<Seq<char>>) -> bool {
    forall|i: int, j: int| 0 <= i < j < s.len() ==> str_lt(#[trigger] s[i], #[trigger] s[j])
}

/// Ascending, duplicates allowed.
pub open spec fn sorted(s: Seq<Seq<char>>) -> bool {
    forall|i: int, j: int| 0 <= i < j < s.len() ==> !str_lt(#[trigger] s[j], #[trigger] s[i])
}

/// Puts `x` into the ascending vector `v` at its place; with `dedup`, a
/// value already present is not added again.
pub fn insert_sorted(v: &mut Vec<String>, x: String, dedup: bool)
    requires
        dedup ==> strictly_sorted(views(old(v)@)),
        !dedup ==> sorted(views(old(v)@)),
    ensures
        dedup ==> strictly_sorted(views(final(v)@)),
        !dedup ==> sorted(views(final(v)@)),
        dedup && views(old(v)@).contains(x@) ==> views(final(v)@) == views(old(v)@),
        !(dedup && views(old(v)@).contains(x@)) ==> views(final(v)@).to_multiset()
            == views(old(v)@).to_multiset().insert(x@),
{
    let ghost old_views = views(v@);
    let n = v.len();
    let mut k: usize = 0;
    while k < n && str_less(v[k].as_str(), x.as_str())
        invariant
            k <= n,
            n == v@.len(),
            views(v@) == old_views,
            forall|t: int| 0 <= t < k ==> str_lt(#[trigger] old_views[t], x@),
        decreases n - k,
    {
        k = k + 1;
    }
    assert(k < n ==> !str_lt(old_views[k as int], x@));
    if dedup && k < n && v[k] == x {
        assert(old_views[k as int] == x@);
        return;
    }
    proof {
        if dedup && old_views.contains(x@) {
            let t = choose|t: int| 0 <= t < old_views.len() && old_views[t] == x@;
            if t < k {
                lemma_lt_irreflexive(x@, 0);
            } else if t > k {
                law_str_order(old_views[k as int], x@, x@);
                law_str_order(x@, old_views[k as int], old_views[t]);
            }
        }
    }
    v.insert(k, x);
    let ghost new_views = views(v@);
    assert(new_views =~= old_views.insert(k as int, x@));
    proof {
        vstd::seq_lib::to_multiset_insert(old_views, k as int, x@);
        if dedup {
            assert forall|i: int, j: int| 0 <= i < j < new_views.len() implies str_lt(
                #[trigger] new_views[i],
                #[trigger] new_views[j],
            ) by {
                if j < k {
                } else if j == k {
                } else if i < k {
                    if i + 1 < j {
                    }
                    law_str_order(old_views[i], x@, old_views[j - 1]);
                    if k < j - 1 {
                        law_str_order(old_views[k as int], x@, x@);
                        law_str_order(x@, old_views[k as int], old_views[j - 1]);
                    } else {
                        law_str_order(old_views[k as int], x@, x@);
                    }
                } else if i == k {
                    if k < j - 1 {
                        law_str_order(old_views[k as int], x@, x@);
                        law_str_order(x@, old_views[k as int], old_views[j - 1]);
                    } else {
                        law_str_order(old_views[k as int], x@, x@);
                    }
                } else {
                }
            }
        } else {
            assert forall|i: int, j: int| 0 <= i < j < new_views.len() implies !str_lt(
                #[trigger] new_views[j],
                #[trigger] new_views[i],
            ) by {
                if j < k {
                } else if j == k {
                    law_str_order(old_views[i], x@, x@);
                } else if i == k {
                    // x <= old[k] <= old[j - 1]
                    law_str_order(old_views[k as int], x@, x@);
                    law_str_order(old_views[j - 1], old_views[k as int], x@);
                    law_str_order(old_views[j - 1], x@, old_views[k as int]);
                    law_str_order(x@, old_views[k as int], old_views[j - 1]);
                } else if i < k {
                    law_str_order(old_views[i], x@, x@);
                    law_str_order(old_views[k as int], x@, x@);
                    law_str_order(old_views[j - 1], old_views[k as int], x@);
                    law_str_order(old_views[j - 1], x@, old_views[k as int]);
                    law_str_order(x@, old_views[k as int], old_views[j - 1]);
                    law_str_order(old_views[j - 1], old_views[i], x@);
                    law_str_order(old_views[j - 1], x@, old_views[i]);
                } else {
                }
            }
        }
    }
}

} // verus!
