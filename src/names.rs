//! Ordering and deduplicated sorted tables of entity names.

use vstd::prelude::*;

verus! {

/// Strict lexicographic order on names, compared character by character by
/// code point (for UTF-8 text this is the same order as comparing bytes).
pub open spec fn name_lt(a: Seq<char>, b: Seq<char>) -> bool
    decreases a.len(),
{
    if a.len() == 0 {
        b.len() > 0
    } else if b.len() == 0 {
        false
    } else if a[0] != b[0] {
        (a[0] as int) < (b[0] as int)
    } else {
        name_lt(a.drop_first(), b.drop_first())
    }
}

/// The names held by a sequence of strings.
pub open spec fn name_views(v: Seq<String>) -> Seq<Seq<char>> {
    v.map_values(|s: String| s@)
}

/// Every name is strictly smaller than every later one: sorted, no repeats.
pub open spec fn strictly_sorted(s: Seq<Seq<char>>) -> bool {
    forall|i: int, j: int| 0 <= i < j < s.len() ==> name_lt(#[trigger] s[i], #[trigger] s[j])
}

pub proof fn lemma_name_lt_irreflexive(a: Seq<char>)
    ensures
        !name_lt(a, a),
    decreases a.len(),
{
    if a.len() > 0 {
        lemma_name_lt_irreflexive(a.drop_first());
    }
}

pub proof fn lemma_name_lt_transitive(a: Seq<char>, b: Seq<char>, c: Seq<char>)
    requires
        name_lt(a, b),
        name_lt(b, c),
    ensures
        name_lt(a, c),
    decreases a.len(),
{
    if a.len() > 0 && a[0] == b[0] && b[0] == c[0] {
        lemma_name_lt_transitive(a.drop_first(), b.drop_first(), c.drop_first());
    }
}

pub proof fn lemma_name_lt_total(a: Seq<char>, b: Seq<char>)
    requires
        a != b,
    ensures
        name_lt(a, b) || name_lt(b, a),
    decreases a.len(),
{
    if a.len() == 0 && b.len() == 0 {
        assert(a =~= b);
    } else if a.len() > 0 && b.len() > 0 && a[0] == b[0] {
        if a.drop_first() == b.drop_first() {
            assert(a =~= seq![a[0]] + a.drop_first());
            assert(b =~= seq![b[0]] + b.drop_first());
        } else {
            lemma_name_lt_total(a.drop_first(), b.drop_first());
        }
    } else if a.len() > 0 && b.len() > 0 {
        assert((a[0] as int) != (b[0] as int));
    }
}

pub proof fn lemma_name_lt_asymmetric(a: Seq<char>, b: Seq<char>)
    requires
        name_lt(a, b),
    ensures
        !name_lt(b, a),
{
    if name_lt(b, a) {
        lemma_name_lt_transitive(a, b, a);
        lemma_name_lt_irreflexive(a);
    }
}

/// Two strictly sorted sequences that hold the same names are the same
/// sequence: the order of a name table depends only on its set of names.
pub proof fn lemma_sorted_unique(s: Seq<Seq<char>>, t: Seq<Seq<char>>)
    requires
        strictly_sorted(s),
        strictly_sorted(t),
        forall|x: Seq<char>| s.contains(x) <==> t.contains(x),
    ensures
        s == t,
    decreases s.len(),
{
    if s.len() == 0 {
        if t.len() > 0 {
            assert(t.contains(t[0]));
        }
        assert(s =~= t);
    } else {
        assert(s.contains(s[0]));
        let j = choose|j: int| 0 <= j < t.len() && t[j] == s[0];
        assert(t.contains(t[0]));
        let i = choose|i: int| 0 <= i < s.len() && s[i] == t[0];
        if j > 0 {
            assert(name_lt(t[0], t[j]));
            if i > 0 {
                assert(name_lt(s[0], s[i]));
                lemma_name_lt_asymmetric(s[0], s[i]);
            } else {
                lemma_name_lt_irreflexive(s[0]);
            }
        }
        assert(t[0] == s[0]);
        let s1 = s.drop_first();
        let t1 = t.drop_first();
        assert forall|x: Seq<char>| s1.contains(x) <==> t1.contains(x) by {
            if s1.contains(x) {
                let k = choose|k: int| 0 <= k < s1.len() && s1[k] == x;
                assert(s.contains(x)) by {
                    assert(s[k + 1] == x);
                }
                assert(name_lt(s[0], s[k + 1]));
                lemma_name_lt_irreflexive(x);
                let m = choose|m: int| 0 <= m < t.len() && t[m] == x;
                assert(m > 0);
                assert(t1[m - 1] == x);
            }
            if t1.contains(x) {
                let k = choose|k: int| 0 <= k < t1.len() && t1[k] == x;
                assert(t.contains(x)) by {
                    assert(t[k + 1] == x);
                }
                assert(name_lt(t[0], t[k + 1]));
                lemma_name_lt_irreflexive(x);
                let m = choose|m: int| 0 <= m < s.len() && s[m] == x;
                assert(m > 0);
                assert(s1[m - 1] == x);
            }
        }
        lemma_sorted_unique(s1, t1);
        assert(s =~= seq![s[0]] + s1);
        assert(t =~= seq![t[0]] + t1);
    }
}

/// Compares two names in the order `name_lt` states.
pub fn name_less(a: &str, b: &str) -> (r: bool)
    ensures
        r == name_lt(a@, b@),
{
    let la = a.unicode_len();
    let lb = b.unicode_len();
    let mut i: usize = 0;
    assert(a@.skip(0) =~= a@);
    assert(b@.skip(0) =~= b@);
    while i < la && i < lb
        invariant
            i <= la,
            i <= lb,
            la == a@.len(),
            lb == b@.len(),
            name_lt(a@, b@) == name_lt(a@.skip(i as int), b@.skip(i as int)),
        decreases la - i,
    {
        let ca = a.get_char(i);
        let cb = b.get_char(i);
        assert(a@.skip(i as int)[0] == ca);
        assert(b@.skip(i as int)[0] == cb);
        if ca != cb {
            return (ca as u32) < (cb as u32);
        }
        assert(a@.skip(i as int).drop_first() =~= a@.skip(i + 1));
        assert(b@.skip(i as int).drop_first() =~= b@.skip(i + 1));
        i += 1;
    }
    la < lb
}

/// Adds `name` to a strictly sorted table of names, keeping it strictly
/// sorted; a name already present leaves the table unchanged.
pub fn insert_name(table: &mut Vec<String>, name: &String)
    requires
        strictly_sorted(name_views(old(table)@)),
    ensures
        strictly_sorted(name_views(final(table)@)),
        forall|x: Seq<char>|
            name_views(final(table)@).contains(x) <==> (name_views(old(table)@).contains(x)
                || x == name@),
        final(table)@.len() <= old(table)@.len() + 1,
{
    let ghost before = name_views(table@);
    let mut p: usize = 0;
    while p < table.len() && name_less(table[p].as_str(), name.as_str())
        invariant
            p <= table@.len(),
            name_views(table@) == before,
            forall|k: int| 0 <= k < p ==> name_lt(#[trigger] before[k], name@),
        decreases table@.len() - p,
    {
        p += 1;
    }
    if p < table.len() && table[p] == *name {
        assert(before[p as int] == name@);
        return;
    }
    proof {
        if p < before.len() {
            assert(before[p as int] == table@[p as int]@);
            assert(before[p as int] != name@);
            lemma_name_lt_total(before[p as int], name@);
            assert(name_lt(name@, before[p as int]));
            assert forall|k: int| p < k < before.len() implies name_lt(name@, #[trigger] before[k]) by {
                assert(name_lt(before[p as int], before[k]));
                lemma_name_lt_transitive(name@, before[p as int], before[k]);
            }
        }
    }
    table.insert(p, name.clone());
    let ghost after = name_views(table@);
    assert(after =~= before.insert(p as int, name@));
    assert forall|x: Seq<char>| after.contains(x) <==> (before.contains(x) || x == name@) by {
        if after.contains(x) {
            let k = choose|k: int| 0 <= k < after.len() && after[k] == x;
            if k < p {
                assert(before[k] == x);
            } else if k > p {
                assert(before[k - 1] == x);
            }
        }
        if before.contains(x) {
            let k = choose|k: int| 0 <= k < before.len() && before[k] == x;
            if k < p {
                assert(after[k] == x);
            } else {
                assert(after[k + 1] == x);
            }
        }
        if x == name@ {
            assert(after[p as int] == x);
        }
    }
}

/// Finds the surrogate id of `name` in a table of names: its 1-based
/// position, or `None` when the table does not hold it.
pub fn name_id(table: &Vec<String>, name: &String) -> (r: Option<i32>)
    requires
        table@.len() < i32::MAX,
    ensures
        r is None <==> !name_views(table@).contains(name@),
        r matches Some(id) ==> 1 <= id <= table@.len() && name_views(table@)[id - 1] == name@,
        strictly_sorted(name_views(table@)) && name_views(table@).contains(name@) ==> r
            == Some(index_of_name(name_views(table@), name@) as i32),
{
    let mut k: usize = 0;
    while k < table.len()
        invariant
            k <= table@.len(),
            table@.len() < i32::MAX,
            forall|j: int| 0 <= j < k ==> #[trigger] name_views(table@)[j] != name@,
        decreases table@.len() - k,
    {
        if table[k] == *name {
            proof {
                assert(name_views(table@)[k as int] == name@);
                if strictly_sorted(name_views(table@)) {
                    lemma_index_of_name(name_views(table@), name@, k as int);
                }
            }
            return Some(k as i32 + 1);
        }
        k += 1;
    }
    assert(!name_views(table@).contains(name@));
    None
}

/// The 1-based position of a name held by a table.
pub open spec fn index_of_name(s: Seq<Seq<char>>, x: Seq<char>) -> int {
    (choose|k: int| 0 <= k < s.len() && s[k] == x) + 1
}

/// In a strictly sorted table each name stands at one position only.
pub proof fn lemma_index_of_name(s: Seq<Seq<char>>, x: Seq<char>, k: int)
    requires
        strictly_sorted(s),
        0 <= k < s.len(),
        s[k] == x,
    ensures
        index_of_name(s, x) == k + 1,
{
    assert(exists|c: int| 0 <= c < s.len() && s[c] == x);
    let c = index_of_name(s, x) - 1;
    assert(0 <= c < s.len() && s[c] == x);
    if c != k {
        lemma_name_lt_irreflexive(x);
        if c < k {
            assert(name_lt(s[c], s[k]));
        } else {
            assert(name_lt(s[k], s[c]));
        }
    }

}

} // verus!
