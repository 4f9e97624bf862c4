//! What holds of every normalization: its rows reference each other
//! consistently, shared names become one row, and the result is determined by
//! the document alone.

use vstd::prelude::*;
use crate::flatten::lemma_index_pairs_bounds;
use crate::model::{NormalizedRows, WeaponsData};
use crate::names::{index_of_name, lemma_sorted_unique, strictly_sorted};
use crate::normalize::{
    ammo_row_names, barrel_row_names, config_for, config_rows, dropoff_rows, flat_stats,
    flat_weapons, normalized, stat_at, stat_counts, stat_resolves,
};

verus! {

/// A name held by a table has a position in it.
proof fn lemma_index_in_range(s: Seq<Seq<char>>, x: Seq<char>)
    requires
        s.contains(x),
    ensures
        1 <= index_of_name(s, x) <= s.len(),
        s[index_of_name(s, x) - 1] == x,
{
}

/// Ids and references of the first `n` configurations and their dropoffs.
proof fn lemma_config_refs(doc: WeaponsData, b: Seq<Seq<char>>, a: Seq<Seq<char>>, n: nat)
    requires
        n <= flat_stats(doc).len(),
        flat_stats(doc).len() < i32::MAX,
        flat_weapons(doc).len() < i32::MAX,
        b.len() < i32::MAX,
        a.len() < i32::MAX,
    ensures
        config_rows(doc, b, a, n).len() <= n,
        forall|c: int|
            0 <= c < config_rows(doc, b, a, n).len() ==> {
                let row = #[trigger] config_rows(doc, b, a, n)[c];
                &&& row.config_id == c + 1
                &&& 1 <= row.weapon_id <= flat_weapons(doc).len()
                &&& 1 <= row.barrel_id <= b.len()
                &&& 1 <= row.ammo_id <= a.len()
            },
        forall|d: int|
            0 <= d < dropoff_rows(doc, b, a, n).len() ==> 1 <= (#[trigger] dropoff_rows(
                doc,
                b,
                a,
                n,
            )[d]).config_id <= config_rows(doc, b, a, n).len(),
    decreases n,
{
    if n > 0 {
        let m = (n - 1) as nat;
        lemma_config_refs(doc, b, a, m);
        if stat_resolves(doc, b, a, m as int) {
            let st = stat_at(doc, m as int);
            lemma_index_in_range(b, st.barrel_type@);
            lemma_index_in_range(a, st.ammo_type@);
            lemma_index_pairs_bounds(stat_counts(doc), m as int);
            let prev = dropoff_rows(doc, b, a, m);
            let cur = dropoff_rows(doc, b, a, n);
            assert forall|d: int| 0 <= d < cur.len() implies 1 <= (#[trigger] cur[d]).config_id
                <= config_rows(doc, b, a, n).len() by {
                if d < prev.len() {
                    assert(cur[d] == prev[d]);
                }
            }
        } else {
            assert(dropoff_rows(doc, b, a, n) == dropoff_rows(doc, b, a, m));
        }
    }
}

/// Where each of the first `n` configurations comes from, and where each
/// resolving stat among the first `n` went.
proof fn lemma_config_origin(doc: WeaponsData, b: Seq<Seq<char>>, a: Seq<Seq<char>>, n: nat)
    ensures
        forall|c: int|
            0 <= c < config_rows(doc, b, a, n).len() ==> exists|q: int|
                0 <= q < n && stat_resolves(doc, b, a, q) && #[trigger] config_rows(doc, b, a, n)[c]
                    == config_for(doc, b, a, q, c + 1),
        forall|q: int|
            0 <= q < n && #[trigger] stat_resolves(doc, b, a, q) ==> exists|c: int|
                0 <= c < config_rows(doc, b, a, n).len() && config_rows(doc, b, a, n)[c] == config_for(
                    doc,
                    b,
                    a,
                    q,
                    c + 1,
                ),
    decreases n,
{
    if n > 0 {
        let m = (n - 1) as nat;
        lemma_config_origin(doc, b, a, m);
        let prev = config_rows(doc, b, a, m);
        let cur = config_rows(doc, b, a, n);
        assert forall|c: int| 0 <= c < cur.len() implies exists|q: int|
            0 <= q < n && stat_resolves(doc, b, a, q) && #[trigger] cur[c] == config_for(
                doc,
                b,
                a,
                q,
                c + 1,
            ) by {
            if c < prev.len() {
                assert(cur[c] == prev[c]);
            } else {
                assert(cur[c] == config_for(doc, b, a, m as int, c + 1));
            }
        }
        assert forall|q: int| 0 <= q < n && #[trigger] stat_resolves(doc, b, a, q) implies exists|
            c: int,
        | 0 <= c < cur.len() && cur[c] == config_for(doc, b, a, q, c + 1) by {
            if q < m {
                let c = choose|c: int|
                    0 <= c < prev.len() && prev[c] == config_for(doc, b, a, q, c + 1);
                assert(cur[c] == prev[c]);
            } else {
                assert(cur[prev.len() as int] == config_for(doc, b, a, q, prev.len() as int + 1));
            }
        }
    }
}

/// Referential completeness: every weapon names an existing category; every
/// configuration an existing weapon, barrel and ammo type; every dropoff an
/// existing configuration; every ammo profile row an existing weapon and ammo
/// type. Ids are 1-based positions, so a reference exists exactly when it lies
/// between 1 and the referenced table's length.
pub proof fn law_references_resolve(doc: WeaponsData, rows: NormalizedRows)
    requires
        normalized(doc, rows),
    ensures
        forall|k: int|
            0 <= k < rows.weapons@.len() ==> 1 <= (#[trigger] rows.weapons@[k]).category_id
                <= rows.categories@.len(),
        forall|c: int|
            0 <= c < rows.configurations@.len() ==> {
                let row = #[trigger] rows.configurations@[c];
                &&& row.config_id == c + 1
                &&& 1 <= row.weapon_id <= rows.weapons@.len()
                &&& 1 <= row.barrel_id <= rows.barrels@.len()
                &&& 1 <= row.ammo_id <= rows.ammo_types@.len()
            },
        forall|d: int|
            0 <= d < rows.config_dropoffs@.len() ==> 1 <= (#[trigger] rows.config_dropoffs@[d]).config_id
                <= rows.configurations@.len(),
        forall|r: int|
            0 <= r < rows.weapon_ammo_stats@.len() ==> {
                let row = #[trigger] rows.weapon_ammo_stats@[r];
                &&& 1 <= row.weapon_id <= rows.weapons@.len()
                &&& 1 <= row.ammo_id <= rows.ammo_types@.len()
            },
{
    let bv = barrel_row_names(rows.barrels@);
    let av = ammo_row_names(rows.ammo_types@);
    let n = flat_stats(doc).len();
    assert forall|k: int| 0 <= k < rows.weapons@.len() implies 1 <= (
    #[trigger] rows.weapons@[k]).category_id <= rows.categories@.len() by {
        lemma_index_pairs_bounds(crate::normalize::weapon_counts(doc), k);
    }
    lemma_config_refs(doc, bv, av, n);
    assert forall|r: int| 0 <= r < rows.weapon_ammo_stats@.len() implies {
        let row = #[trigger] rows.weapon_ammo_stats@[r];
        &&& 1 <= row.weapon_id <= rows.weapons@.len()
        &&& 1 <= row.ammo_id <= rows.ammo_types@.len()
    } by {
        let e = crate::normalize::ammo_entry_at(doc, r);
        assert(crate::normalize::is_ammo_name(doc, e.0@));
        lemma_index_in_range(av, e.0@);
        lemma_index_pairs_bounds(crate::normalize::ammo_counts(doc), r);
    }
}

/// In a strictly sorted table a held name stands at exactly one position.
proof fn lemma_single_position(s: Seq<Seq<char>>, x: Seq<char>)
    requires
        strictly_sorted(s),
        s.contains(x),
    ensures
        forall|j: int| 0 <= j < s.len() && #[trigger] s[j] == x ==> j == index_of_name(s, x) - 1,
{
    lemma_index_in_range(s, x);
    let i = index_of_name(s, x) - 1;
    assert forall|j: int| 0 <= j < s.len() && #[trigger] s[j] == x implies j == i by {
        if j != i {
            crate::names::lemma_name_lt_irreflexive(x);
            if j < i {
                assert(crate::names::name_lt(s[j], s[i]));
            } else {
                assert(crate::names::name_lt(s[i], s[j]));
            }
        }
    }
}

/// Deduplication: when two stats name the same barrel, the barrel table holds
/// that name in exactly one row, and the configurations of both stats carry
/// that row's id.
#[verifier::rlimit(60)]
pub proof fn law_shared_barrel(doc: WeaponsData, rows: NormalizedRows, q1: int, q2: int)
    requires
        normalized(doc, rows),
        0 <= q1 < flat_stats(doc).len(),
        0 <= q2 < flat_stats(doc).len(),
        stat_at(doc, q1).barrel_type@ == stat_at(doc, q2).barrel_type@,
    ensures
        ({
            let x = stat_at(doc, q1).barrel_type@;
            let i = index_of_name(barrel_row_names(rows.barrels@), x) - 1;
            &&& 0 <= i < rows.barrels@.len()
            &&& rows.barrels@[i].barrel_name@ == x
            &&& forall|j: int|
                0 <= j < rows.barrels@.len() && (#[trigger] rows.barrels@[j]).barrel_name@ == x
                    ==> j == i
        }),
        ({
            let bv = barrel_row_names(rows.barrels@);
            let av = ammo_row_names(rows.ammo_types@);
            let i = index_of_name(bv, stat_at(doc, q1).barrel_type@) - 1;
            let cs = rows.configurations@;
            exists|c1: int, c2: int|
                0 <= c1 < cs.len() && 0 <= c2 < cs.len() && #[trigger] cs[c1] == config_for(
                    doc,
                    bv,
                    av,
                    q1,
                    c1 + 1,
                ) && #[trigger] cs[c2] == config_for(doc, bv, av, q2, c2 + 1) && cs[c1].barrel_id
                    == rows.barrels@[i].barrel_id && cs[c2].barrel_id == rows.barrels@[i].barrel_id
        }),
{
    let bv = barrel_row_names(rows.barrels@);
    let av = ammo_row_names(rows.ammo_types@);
    let n = flat_stats(doc).len();
    let x = stat_at(doc, q1).barrel_type@;
    assert(crate::normalize::is_barrel_name(doc, x));
    assert(bv.contains(x));
    lemma_index_in_range(bv, x);
    lemma_single_position(bv, x);
    let i = index_of_name(bv, x) - 1;
    assert forall|j: int|
        0 <= j < rows.barrels@.len() && (#[trigger] rows.barrels@[j]).barrel_name@ == x implies j
        == i by {
        assert(bv[j] == x);
    }
    assert(crate::normalize::is_ammo_name(doc, stat_at(doc, q1).ammo_type@));
    assert(crate::normalize::is_ammo_name(doc, stat_at(doc, q2).ammo_type@));
    lemma_config_origin(doc, bv, av, n);
    assert(stat_resolves(doc, bv, av, q1));
    assert(stat_resolves(doc, bv, av, q2));
    let cs = rows.configurations@;
    let c1 = choose|c: int| 0 <= c < cs.len() && cs[c] == config_for(doc, bv, av, q1, c + 1);
    let c2 = choose|c: int| 0 <= c < cs.len() && cs[c] == config_for(doc, bv, av, q2, c + 1);
    assert(rows.barrels@[i].barrel_id == i + 1);
}

/// Lenience on dangling names: every configuration comes from a stat whose
/// barrel and ammo names both resolve, so a stat whose barrel name is missing
/// from the barrel table yields no configuration (and no failure).
pub proof fn law_only_resolved_stats_yield_rows(
    doc: WeaponsData,
    b: Seq<Seq<char>>,
    a: Seq<Seq<char>>,
    n: nat,
)
    ensures
        forall|c: int|
            0 <= c < config_rows(doc, b, a, n).len() ==> exists|q: int|
                0 <= q < n && b.contains(stat_at(doc, q).barrel_type@) && a.contains(
                    stat_at(doc, q).ammo_type@,
                ) && #[trigger] config_rows(doc, b, a, n)[c] == config_for(doc, b, a, q, c + 1),
{
    lemma_config_origin(doc, b, a, n);
}

/// Determinism: two normalizations of the same document agree on every row.
/// In particular barrel and ammo ids follow the sorted order of the names,
/// whatever order the document lists them in.
pub proof fn law_deterministic(doc: WeaponsData, r1: NormalizedRows, r2: NormalizedRows)
    requires
        normalized(doc, r1),
        normalized(doc, r2),
    ensures
        r1.categories@.len() == r2.categories@.len(),
        forall|i: int|
            0 <= i < r1.categories@.len() ==> (#[trigger] r1.categories@[i]).category_id
                == r2.categories@[i].category_id && r1.categories@[i].category_name@
                == r2.categories@[i].category_name@,
        r1.weapons@.len() == r2.weapons@.len(),
        forall|k: int|
            0 <= k < r1.weapons@.len() ==> (#[trigger] r1.weapons@[k]).weapon_id == r2.weapons@[k].weapon_id
                && r1.weapons@[k].weapon_name@ == r2.weapons@[k].weapon_name@
                && r1.weapons@[k].category_id == r2.weapons@[k].category_id,
        barrel_row_names(r1.barrels@) == barrel_row_names(r2.barrels@),
        forall|i: int|
            0 <= i < r1.barrels@.len() ==> (#[trigger] r1.barrels@[i]).barrel_id == r2.barrels@[i].barrel_id,
        ammo_row_names(r1.ammo_types@) == ammo_row_names(r2.ammo_types@),
        forall|i: int|
            0 <= i < r1.ammo_types@.len() ==> (#[trigger] r1.ammo_types@[i]).ammo_id
                == r2.ammo_types@[i].ammo_id,
        r1.weapon_ammo_stats@ == r2.weapon_ammo_stats@,
        r1.configurations@ == r2.configurations@,
        r1.config_dropoffs@ == r2.config_dropoffs@,
{
    let b1 = barrel_row_names(r1.barrels@);
    let b2 = barrel_row_names(r2.barrels@);
    let a1 = ammo_row_names(r1.ammo_types@);
    let a2 = ammo_row_names(r2.ammo_types@);
    lemma_sorted_unique(b1, b2);
    lemma_sorted_unique(a1, a2);
    assert(r1.barrels@.len() == b1.len());
    assert(r1.ammo_types@.len() == a1.len());
    assert(r1.weapon_ammo_stats@ =~= r2.weapon_ammo_stats@);
}

} // verus!
