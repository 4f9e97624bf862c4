//! Turns a weapons document into relational rows with surrogate ids.
//!
//! Categories and weapons are numbered in document order; barrels and ammo
//! types by their position in the sorted, deduplicated set of names seen
//! anywhere in the document; configurations in the order their stats are met.

use vstd::prelude::*;
use crate::flatten::{index_pairs, lemma_index_pairs_bounds, pairs_of};
use crate::model::{
    AmmoStatData, AmmoType, Barrel, Category, ConfigDropoff, Configuration, NormalizedRows, StatData,
    Weapon, WeaponAmmoStats, WeaponData, WeaponsData,
};
use crate::names::{index_of_name, insert_name, name_id, name_views, strictly_sorted};

verus! {

/// Number of weapons in each category.
pub open spec fn weapon_counts(doc: WeaponsData) -> Seq<usize> {
    Seq::new(doc.categories@.len(), |i: int| doc.categories@[i].weapons@.len() as usize)
}

/// Every weapon of the document as (category index, index within category),
/// in document order; a weapon's surrogate id is its position here plus one.
pub open spec fn flat_weapons(doc: WeaponsData) -> Seq<(usize, usize)> {
    index_pairs(weapon_counts(doc))
}

/// The weapon at position `k` of `flat_weapons(doc)`.
pub open spec fn weapon_at(doc: WeaponsData, k: int) -> WeaponData {
    let p = flat_weapons(doc)[k];
    doc.categories@[p.0 as int].weapons@[p.1 as int]
}

pub open spec fn stat_counts(doc: WeaponsData) -> Seq<usize> {
    Seq::new(flat_weapons(doc).len(), |k: int| weapon_at(doc, k).stats@.len() as usize)
}

/// Every stat of the document as (weapon position, index within weapon).
pub open spec fn flat_stats(doc: WeaponsData) -> Seq<(usize, usize)> {
    index_pairs(stat_counts(doc))
}

/// The stat at position `q` of `flat_stats(doc)`.
pub open spec fn stat_at(doc: WeaponsData, q: int) -> StatData {
    let p = flat_stats(doc)[q];
    weapon_at(doc, p.0 as int).stats@[p.1 as int]
}

pub open spec fn ammo_counts(doc: WeaponsData) -> Seq<usize> {
    Seq::new(flat_weapons(doc).len(), |k: int| weapon_at(doc, k).ammo_stats@.len() as usize)
}

/// Every ammo profile of the document as (weapon position, index within weapon).
pub open spec fn flat_ammo_stats(doc: WeaponsData) -> Seq<(usize, usize)> {
    index_pairs(ammo_counts(doc))
}

/// The ammo profile at position `r` of `flat_ammo_stats(doc)`.
pub open spec fn ammo_entry_at(doc: WeaponsData, r: int) -> (String, AmmoStatData) {
    let p = flat_ammo_stats(doc)[r];
    weapon_at(doc, p.0 as int).ammo_stats@[p.1 as int]
}

/// `x` is the barrel type of some stat of the document.
pub open spec fn is_barrel_name(doc: WeaponsData, x: Seq<char>) -> bool {
    exists|q: int| 0 <= q < flat_stats(doc).len() && (#[trigger] stat_at(doc, q)).barrel_type@ == x
}

/// `x` is the ammo type of some stat, or names some ammo profile.
pub open spec fn is_ammo_name(doc: WeaponsData, x: Seq<char>) -> bool {
    (exists|q: int| 0 <= q < flat_stats(doc).len() && (#[trigger] stat_at(doc, q)).ammo_type@ == x)
        || (exists|r: int|
        0 <= r < flat_ammo_stats(doc).len() && (#[trigger] ammo_entry_at(doc, r)).0@ == x)
}

/// Surrogate ids of every kind fit in an `i32`.
pub open spec fn doc_fits(doc: WeaponsData) -> bool {
    &&& doc.categories@.len() < i32::MAX
    &&& flat_weapons(doc).len() < i32::MAX
    &&& flat_stats(doc).len() + flat_ammo_stats(doc).len() < i32::MAX
}

/// Both names of stat `q` resolve in the barrel and ammo tables.
pub open spec fn stat_resolves(doc: WeaponsData, b: Seq<Seq<char>>, a: Seq<Seq<char>>, q: int) -> bool {
    b.contains(stat_at(doc, q).barrel_type@) && a.contains(stat_at(doc, q).ammo_type@)
}

/// The configuration row that stat `q` yields under id `id`.
pub open spec fn config_for(
    doc: WeaponsData,
    b: Seq<Seq<char>>,
    a: Seq<Seq<char>>,
    q: int,
    id: int,
) -> Configuration {
    let st = stat_at(doc, q);
    Configuration {
        config_id: id as i32,
        weapon_id: (flat_stats(doc)[q].0 + 1) as i32,
        barrel_id: index_of_name(b, st.barrel_type@) as i32,
        ammo_id: index_of_name(a, st.ammo_type@) as i32,
        velocity: st.velocity,
        rpm_single: st.rpm_single,
        rpm_burst: st.rpm_burst,
        rpm_auto: st.rpm_auto,
    }
}

/// The dropoff rows of stat `q`, keyed to configuration `id`.
pub open spec fn dropoffs_for(doc: WeaponsData, q: int, id: int) -> Seq<ConfigDropoff> {
    let d = stat_at(doc, q).dropoffs@;
    Seq::new(d.len(), |i: int| ConfigDropoff { config_id: id as i32, range: d[i].range, damage_bits: d[i].damage_bits })
}

/// Configurations from the first `n` stats: a stat whose barrel or ammo name
/// does not resolve is skipped, the others are numbered 1, 2, ...
pub open spec fn config_rows(doc: WeaponsData, b: Seq<Seq<char>>, a: Seq<Seq<char>>, n: nat) -> Seq<
    Configuration,
>
    decreases n,
{
    if n == 0 {
        Seq::empty()
    } else {
        let prev = config_rows(doc, b, a, (n - 1) as nat);
        if stat_resolves(doc, b, a, n - 1) {
            prev.push(config_for(doc, b, a, n - 1, prev.len() as int + 1))
        } else {
            prev
        }
    }
}

/// Dropoff rows from the first `n` stats, skipping those that do not resolve.
pub open spec fn dropoff_rows(doc: WeaponsData, b: Seq<Seq<char>>, a: Seq<Seq<char>>, n: nat) -> Seq<
    ConfigDropoff,
>
    decreases n,
{
    if n == 0 {
        Seq::empty()
    } else {
        let prev = dropoff_rows(doc, b, a, (n - 1) as nat);
        if stat_resolves(doc, b, a, n - 1) {
            prev + dropoffs_for(doc, n - 1, config_rows(doc, b, a, (n - 1) as nat).len() as int + 1)
        } else {
            prev
        }
    }
}

proof fn lemma_config_rows_len(doc: WeaponsData, b: Seq<Seq<char>>, a: Seq<Seq<char>>, n: nat)
    ensures
        config_rows(doc, b, a, n).len() <= n,
    decreases n,
{
    if n > 0 {
        lemma_config_rows_len(doc, b, a, (n - 1) as nat);
    }
}

/// Lists the weapons of the document as (category, weapon) index pairs.
fn weapon_pairs(doc: &WeaponsData) -> (r: Vec<(usize, usize)>)
    ensures
        r@ == flat_weapons(*doc),
{
    let mut counts: Vec<usize> = Vec::new();
    let mut i: usize = 0;
    while i < doc.categories.len()
        invariant
            i <= doc.categories@.len(),
            counts@ == weapon_counts(*doc).take(i as int),
        decreases doc.categories@.len() - i,
    {
        counts.push(doc.categories[i].weapons.len());
        assert(counts@ =~= weapon_counts(*doc).take(i + 1));
        i += 1;
    }
    assert(counts@ =~= weapon_counts(*doc));
    pairs_of(&counts)
}

/// The weapon at position `k` of the flattened weapon list.
fn weapon_ref<'a>(doc: &'a WeaponsData, fw: &Vec<(usize, usize)>, k: usize) -> (w: &'a WeaponData)
    requires
        fw@ == flat_weapons(*doc),
        k < fw@.len(),
    ensures
        *w == weapon_at(*doc, k as int),
{
    let _n = doc.categories.len();
    proof {
        lemma_index_pairs_bounds(weapon_counts(*doc), k as int);
    }
    let (c, j) = fw[k];
    &doc.categories[c].weapons[j]
}

/// Lists the stats (`ammo == false`) or the ammo profiles (`ammo == true`) of
/// the document as (weapon position, index) pairs.
fn entry_pairs(doc: &WeaponsData, fw: &Vec<(usize, usize)>, ammo: bool) -> (r: Vec<(usize, usize)>)
    requires
        fw@ == flat_weapons(*doc),
    ensures
        !ammo ==> r@ == flat_stats(*doc),
        ammo ==> r@ == flat_ammo_stats(*doc),
{
    let ghost want = if ammo { ammo_counts(*doc) } else { stat_counts(*doc) };
    let mut counts: Vec<usize> = Vec::new();
    let mut k: usize = 0;
    while k < fw.len()
        invariant
            k <= fw@.len(),
            fw@ == flat_weapons(*doc),
            want == (if ammo { ammo_counts(*doc) } else { stat_counts(*doc) }),
            counts@ == want.take(k as int),
        decreases fw@.len() - k,
    {
        let w = weapon_ref(doc, fw, k);
        if ammo {
            counts.push(w.ammo_stats.len());
        } else {
            counts.push(w.stats.len());
        }
        assert(counts@ =~= want.take(k + 1));
        k += 1;
    }
    assert(counts@ =~= want);
    pairs_of(&counts)
}

/// The stat at position `q` of the flattened stat list.
fn stat_ref<'a>(
    doc: &'a WeaponsData,
    fw: &Vec<(usize, usize)>,
    fs: &Vec<(usize, usize)>,
    q: usize,
) -> (s: &'a StatData)
    requires
        fw@ == flat_weapons(*doc),
        fs@ == flat_stats(*doc),
        q < fs@.len(),
    ensures
        *s == stat_at(*doc, q as int),
{
    let _m = fw.len();
    proof {
        lemma_index_pairs_bounds(stat_counts(*doc), q as int);
    }
    let (k, j) = fs[q];
    let w = weapon_ref(doc, fw, k);
    &w.stats[j]
}

/// The ammo profile at position `r` of the flattened ammo profile list.
fn ammo_entry_ref<'a>(
    doc: &'a WeaponsData,
    fw: &Vec<(usize, usize)>,
    fa: &Vec<(usize, usize)>,
    r: usize,
) -> (e: &'a (String, AmmoStatData))
    requires
        fw@ == flat_weapons(*doc),
        fa@ == flat_ammo_stats(*doc),
        r < fa@.len(),
    ensures
        *e == ammo_entry_at(*doc, r as int),
{
    let _m = fw.len();
    proof {
        lemma_index_pairs_bounds(ammo_counts(*doc), r as int);
    }
    let (k, j) = fa[r];
    let w = weapon_ref(doc, fw, k);
    &w.ammo_stats[j]
}

/// The barrel names of all stats, sorted and deduplicated.
fn barrel_table(doc: &WeaponsData, fw: &Vec<(usize, usize)>, fs: &Vec<(usize, usize)>) -> (t: Vec<
    String,
>)
    requires
        fw@ == flat_weapons(*doc),
        fs@ == flat_stats(*doc),
    ensures
        strictly_sorted(name_views(t@)),
        forall|x: Seq<char>| name_views(t@).contains(x) <==> is_barrel_name(*doc, x),
        t@.len() <= fs@.len(),
{
    let mut t: Vec<String> = Vec::new();
    let mut q: usize = 0;
    while q < fs.len()
        invariant
            q <= fs@.len(),
            fw@ == flat_weapons(*doc),
            fs@ == flat_stats(*doc),
            strictly_sorted(name_views(t@)),
            t@.len() <= q,
            forall|x: Seq<char>|
                name_views(t@).contains(x) <==> exists|p: int|
                    0 <= p < q && (#[trigger] stat_at(*doc, p)).barrel_type@ == x,
        decreases fs@.len() - q,
    {
        let st = stat_ref(doc, fw, fs, q);
        insert_name(&mut t, &st.barrel_type);
        assert forall|x: Seq<char>|
            name_views(t@).contains(x) <==> exists|p: int|
                0 <= p < q + 1 && (#[trigger] stat_at(*doc, p)).barrel_type@ == x by {
            if exists|p: int| 0 <= p < q + 1 && (#[trigger] stat_at(*doc, p)).barrel_type@ == x {
                let p = choose|p: int| 0 <= p < q + 1 && (#[trigger] stat_at(*doc, p)).barrel_type@ == x;
                if p < q {
                    assert(exists|p: int| 0 <= p < q && (#[trigger] stat_at(*doc, p)).barrel_type@ == x);
                }
            }
            if x == st.barrel_type@ {
                assert(stat_at(*doc, q as int).barrel_type@ == x);
            }
        }
        q += 1;
    }
    t
}

/// The ammo names of all stats and ammo profiles, sorted and deduplicated.
fn ammo_table(
    doc: &WeaponsData,
    fw: &Vec<(usize, usize)>,
    fs: &Vec<(usize, usize)>,
    fa: &Vec<(usize, usize)>,
) -> (t: Vec<String>)
    requires
        fw@ == flat_weapons(*doc),
        fs@ == flat_stats(*doc),
        fa@ == flat_ammo_stats(*doc),
    ensures
        strictly_sorted(name_views(t@)),
        forall|x: Seq<char>| name_views(t@).contains(x) <==> is_ammo_name(*doc, x),
        t@.len() <= fs@.len() + fa@.len(),
{
    let mut t: Vec<String> = Vec::new();
    let mut q: usize = 0;
    while q < fs.len()
        invariant
            q <= fs@.len(),
            fw@ == flat_weapons(*doc),
            fs@ == flat_stats(*doc),
            strictly_sorted(name_views(t@)),
            t@.len() <= q,
            forall|x: Seq<char>|
                name_views(t@).contains(x) <==> exists|p: int|
                    0 <= p < q && (#[trigger] stat_at(*doc, p)).ammo_type@ == x,
        decreases fs@.len() - q,
    {
        let st = stat_ref(doc, fw, fs, q);
        insert_name(&mut t, &st.ammo_type);
        assert forall|x: Seq<char>|
            name_views(t@).contains(x) <==> exists|p: int|
                0 <= p < q + 1 && (#[trigger] stat_at(*doc, p)).ammo_type@ == x by {
            if exists|p: int| 0 <= p < q + 1 && (#[trigger] stat_at(*doc, p)).ammo_type@ == x {
                let p = choose|p: int| 0 <= p < q + 1 && (#[trigger] stat_at(*doc, p)).ammo_type@ == x;
                if p < q {
                    assert(exists|p: int| 0 <= p < q && (#[trigger] stat_at(*doc, p)).ammo_type@ == x);
                }
            }
            if x == st.ammo_type@ {
                assert(stat_at(*doc, q as int).ammo_type@ == x);
            }
        }
        q += 1;
    }
    let mut r: usize = 0;
    while r < fa.len()
        invariant
            r <= fa@.len(),
            fw@ == flat_weapons(*doc),
            fs@ == flat_stats(*doc),
            fa@ == flat_ammo_stats(*doc),
            strictly_sorted(name_views(t@)),
            t@.len() <= fs@.len() + r,
            forall|x: Seq<char>|
                name_views(t@).contains(x) <==> ((exists|p: int|
                    0 <= p < fs@.len() && (#[trigger] stat_at(*doc, p)).ammo_type@ == x) || (exists|
                    i: int,
                | 0 <= i < r && (#[trigger] ammo_entry_at(*doc, i)).0@ == x)),
        decreases fa@.len() - r,
    {
        let e = ammo_entry_ref(doc, fw, fa, r);
        insert_name(&mut t, &e.0);
        assert forall|x: Seq<char>|
            name_views(t@).contains(x) <==> ((exists|p: int|
                0 <= p < fs@.len() && (#[trigger] stat_at(*doc, p)).ammo_type@ == x) || (exists|i: int|
                0 <= i < r + 1 && (#[trigger] ammo_entry_at(*doc, i)).0@ == x)) by {
            if exists|i: int| 0 <= i < r + 1 && (#[trigger] ammo_entry_at(*doc, i)).0@ == x {
                let i = choose|i: int| 0 <= i < r + 1 && (#[trigger] ammo_entry_at(*doc, i)).0@ == x;
                if i < r {
                    assert(exists|i: int| 0 <= i < r && (#[trigger] ammo_entry_at(*doc, i)).0@ == x);
                }
            }
            if x == e.0@ {
                assert(ammo_entry_at(*doc, r as int).0@ == x);
            }
        }
        r += 1;
    }
    t
}

/// Builds the configuration and dropoff rows of every stat in order.
fn configurations_from(
    doc: &WeaponsData,
    fw: &Vec<(usize, usize)>,
    fs: &Vec<(usize, usize)>,
    b: &Vec<String>,
    a: &Vec<String>,
) -> (r: (Vec<Configuration>, Vec<ConfigDropoff>))
    requires
        fw@ == flat_weapons(*doc),
        fs@ == flat_stats(*doc),
        fw@.len() < i32::MAX,
        fs@.len() < i32::MAX,
        b@.len() < i32::MAX,
        a@.len() < i32::MAX,
        strictly_sorted(name_views(b@)),
        strictly_sorted(name_views(a@)),
    ensures
        r.0@ == config_rows(*doc, name_views(b@), name_views(a@), fs@.len()),
        r.1@ == dropoff_rows(*doc, name_views(b@), name_views(a@), fs@.len()),
{
    let ghost bv = name_views(b@);
    let ghost av = name_views(a@);
    let mut configs: Vec<Configuration> = Vec::new();
    let mut drops: Vec<ConfigDropoff> = Vec::new();
    let mut q: usize = 0;
    while q < fs.len()
        invariant
            q <= fs@.len(),
            fw@ == flat_weapons(*doc),
            fs@ == flat_stats(*doc),
            fw@.len() < i32::MAX,
            fs@.len() < i32::MAX,
            b@.len() < i32::MAX,
            a@.len() < i32::MAX,
            bv == name_views(b@),
            av == name_views(a@),
            strictly_sorted(bv),
            strictly_sorted(av),
            configs@ == config_rows(*doc, bv, av, q as nat),
            drops@ == dropoff_rows(*doc, bv, av, q as nat),
        decreases fs@.len() - q,
    {
        proof {
            lemma_config_rows_len(*doc, bv, av, q as nat);
            lemma_index_pairs_bounds(stat_counts(*doc), q as int);
        }
        let st = stat_ref(doc, fw, fs, q);
        let bid = name_id(b, &st.barrel_type);
        let aid = name_id(a, &st.ammo_type);
        match (bid, aid) {
            (Some(barrel_id), Some(ammo_id)) => {
                let id = configs.len() as i32 + 1;
                let row = Configuration {
                    config_id: id,
                    weapon_id: fs[q].0 as i32 + 1,
                    barrel_id,
                    ammo_id,
                    velocity: st.velocity,
                    rpm_single: st.rpm_single,
                    rpm_burst: st.rpm_burst,
                    rpm_auto: st.rpm_auto,
                };
                assert(row == config_for(*doc, bv, av, q as int, id as int));
                configs.push(row);
                let ghost base = drops@;
                let ghost want = dropoffs_for(*doc, q as int, id as int);
                let mut d: usize = 0;
                while d < st.dropoffs.len()
                    invariant
                        d <= st.dropoffs@.len(),
                        *st == stat_at(*doc, q as int),
                        want == dropoffs_for(*doc, q as int, id as int),
                        drops@ == base + want.take(d as int),
                    decreases st.dropoffs@.len() - d,
                {
                    let dd = st.dropoffs[d];
                    drops.push(ConfigDropoff { config_id: id, range: dd.range, damage_bits: dd.damage_bits });
                    assert(want.take(d + 1) =~= want.take(d as int).push(want[d as int]));
                    d += 1;
                }
                assert(want.take(d as int) =~= want);
            },
            _ => {},
        }
        q += 1;
    }
    (configs, drops)
}

/// Builds the configuration and dropoff rows of every stat of `doc`, walking
/// categories, weapons and stats in document order, with barrel and ammo ids
/// looked up in the given sorted name tables. A stat whose barrel or ammo name
/// is missing from its table yields no rows; the others get ids 1, 2, ...
/// Returns `None` when the weapons or stats are too many for `i32` ids.
pub fn assemble_configurations(
    doc: &WeaponsData,
    barrel_names: &Vec<String>,
    ammo_names: &Vec<String>,
) -> (r: Option<(Vec<Configuration>, Vec<ConfigDropoff>)>)
    requires
        barrel_names@.len() < i32::MAX,
        ammo_names@.len() < i32::MAX,
        strictly_sorted(name_views(barrel_names@)),
        strictly_sorted(name_views(ammo_names@)),
    ensures
        r is None <==> (flat_weapons(*doc).len() >= i32::MAX || flat_stats(*doc).len() >= i32::MAX),
        r matches Some(rows) ==> {
            let n = flat_stats(*doc).len();
            &&& rows.0@ == config_rows(*doc, name_views(barrel_names@), name_views(ammo_names@), n)
            &&& rows.1@ == dropoff_rows(*doc, name_views(barrel_names@), name_views(ammo_names@), n)
        },
{
    let fw = weapon_pairs(doc);
    let fs = entry_pairs(doc, &fw, false);
    if fw.len() >= i32::MAX as usize || fs.len() >= i32::MAX as usize {
        return None;
    }
    Some(configurations_from(doc, &fw, &fs, barrel_names, ammo_names))
}

/// The weapon/ammo profile row for ammo profile `r`.
pub open spec fn ammo_stat_row(doc: WeaponsData, a: Seq<Seq<char>>, r: int) -> WeaponAmmoStats {
    let e = ammo_entry_at(doc, r);
    WeaponAmmoStats {
        weapon_id: (flat_ammo_stats(doc)[r].0 + 1) as i32,
        ammo_id: index_of_name(a, e.0@) as i32,
        magazine_size: e.1.mag_size,
        empty_reload_bits: e.1.empty_reload_bits,
        tactical_reload_bits: e.1.tactical_reload_bits,
        headshot_multiplier_bits: e.1.headshot_multiplier_bits,
        pellet_count: e.1.pellet_count,
    }
}

/// The names of a list of barrel rows, in order.
pub open spec fn barrel_row_names(rows: Seq<Barrel>) -> Seq<Seq<char>> {
    rows.map_values(|r: Barrel| r.barrel_name@)
}

/// The names of a list of ammo type rows, in order.
pub open spec fn ammo_row_names(rows: Seq<AmmoType>) -> Seq<Seq<char>> {
    rows.map_values(|r: AmmoType| r.ammo_type_name@)
}

/// `rows` are the rows that normalizing `doc` yields.
pub open spec fn normalized(doc: WeaponsData, rows: NormalizedRows) -> bool {
    let fw = flat_weapons(doc);
    let bv = barrel_row_names(rows.barrels@);
    let av = ammo_row_names(rows.ammo_types@);
    let n = flat_stats(doc).len();
    &&& doc_fits(doc)
    &&& rows.barrels@.len() <= n
    &&& rows.ammo_types@.len() <= n + flat_ammo_stats(doc).len()
    &&& rows.categories@.len() == doc.categories@.len()
    &&& forall|i: int|
        0 <= i < rows.categories@.len() ==> (#[trigger] rows.categories@[i]).category_id == i + 1
            && rows.categories@[i].category_name@ == doc.categories@[i].name@
    &&& rows.weapons@.len() == fw.len()
    &&& forall|k: int|
        0 <= k < rows.weapons@.len() ==> (#[trigger] rows.weapons@[k]).weapon_id == k + 1
            && rows.weapons@[k].weapon_name@ == weapon_at(doc, k).name@
            && rows.weapons@[k].category_id == fw[k].0 + 1
    &&& strictly_sorted(bv)
    &&& forall|x: Seq<char>| bv.contains(x) <==> is_barrel_name(doc, x)
    &&& forall|i: int| 0 <= i < rows.barrels@.len() ==> (#[trigger] rows.barrels@[i]).barrel_id == i + 1
    &&& strictly_sorted(av)
    &&& forall|x: Seq<char>| av.contains(x) <==> is_ammo_name(doc, x)
    &&& forall|i: int| 0 <= i < rows.ammo_types@.len() ==> (#[trigger] rows.ammo_types@[i]).ammo_id == i + 1
    &&& rows.weapon_ammo_stats@ == Seq::new(flat_ammo_stats(doc).len(), |r: int| ammo_stat_row(doc, av, r))
    &&& rows.configurations@ == config_rows(doc, bv, av, n)
    &&& rows.config_dropoffs@ == dropoff_rows(doc, bv, av, n)
}

/// Normalizes `doc` into the rows of every table. Returns `None` exactly when
/// the document holds too many entities for `i32` surrogate ids.
pub fn normalize(doc: &WeaponsData) -> (r: Option<NormalizedRows>)
    ensures
        r is None <==> !doc_fits(*doc),
        r matches Some(rows) ==> normalized(*doc, rows),
{
    let fw = weapon_pairs(doc);
    let fs = entry_pairs(doc, &fw, false);
    let fa = entry_pairs(doc, &fw, true);
    if doc.categories.len() >= i32::MAX as usize || fw.len() >= i32::MAX as usize || fs.len()
        >= i32::MAX as usize || fa.len() >= i32::MAX as usize - fs.len() {
        return None;
    }
    let mut categories: Vec<Category> = Vec::new();
    let mut i: usize = 0;
    while i < doc.categories.len()
        invariant
            i <= doc.categories@.len(),
            doc.categories@.len() < i32::MAX,
            categories@.len() == i,
            forall|j: int|
                0 <= j < i ==> (#[trigger] categories@[j]).category_id == j + 1
                    && categories@[j].category_name@ == doc.categories@[j].name@,
        decreases doc.categories@.len() - i,
    {
        categories.push(
            Category { category_id: i as i32 + 1, category_name: doc.categories[i].name.clone() },
        );
        i += 1;
    }
    let mut weapons: Vec<Weapon> = Vec::new();
    let mut k: usize = 0;
    while k < fw.len()
        invariant
            k <= fw@.len(),
            fw@ == flat_weapons(*doc),
            fw@.len() < i32::MAX,
            doc.categories@.len() < i32::MAX,
            weapons@.len() == k,
            forall|j: int|
                0 <= j < k ==> (#[trigger] weapons@[j]).weapon_id == j + 1
                    && weapons@[j].weapon_name@ == weapon_at(*doc, j).name@
                    && weapons@[j].category_id == fw@[j].0 + 1,
        decreases fw@.len() - k,
    {
        proof {
            lemma_index_pairs_bounds(weapon_counts(*doc), k as int);
        }
        let w = weapon_ref(doc, &fw, k);
        weapons.push(
            Weapon { weapon_id: k as i32 + 1, weapon_name: w.name.clone(), category_id: fw[k].0 as i32 + 1 },
        );
        k += 1;
    }
    let btable = barrel_table(doc, &fw, &fs);
    let atable = ammo_table(doc, &fw, &fs, &fa);
    let ghost bv = name_views(btable@);
    let ghost av = name_views(atable@);
    let mut barrels: Vec<Barrel> = Vec::new();
    let mut i: usize = 0;
    while i < btable.len()
        invariant
            i <= btable@.len(),
            btable@.len() < i32::MAX,
            barrels@.len() == i,
            forall|j: int|
                0 <= j < i ==> (#[trigger] barrels@[j]).barrel_id == j + 1
                    && barrels@[j].barrel_name@ == btable@[j]@,
        decreases btable@.len() - i,
    {
        barrels.push(Barrel { barrel_id: i as i32 + 1, barrel_name: btable[i].clone() });
        i += 1;
    }
    assert(barrel_row_names(barrels@) =~= bv);
    let mut ammo_types: Vec<AmmoType> = Vec::new();
    let mut i: usize = 0;
    while i < atable.len()
        invariant
            i <= atable@.len(),
            atable@.len() < i32::MAX,
            ammo_types@.len() == i,
            forall|j: int|
                0 <= j < i ==> (#[trigger] ammo_types@[j]).ammo_id == j + 1
                    && ammo_types@[j].ammo_type_name@ == atable@[j]@,
        decreases atable@.len() - i,
    {
        ammo_types.push(AmmoType { ammo_id: i as i32 + 1, ammo_type_name: atable[i].clone() });
        i += 1;
    }
    assert(ammo_row_names(ammo_types@) =~= av);
    let mut weapon_ammo_stats: Vec<WeaponAmmoStats> = Vec::new();
    let mut r: usize = 0;
    while r < fa.len()
        invariant
            r <= fa@.len(),
            fw@ == flat_weapons(*doc),
            fa@ == flat_ammo_stats(*doc),
            fw@.len() < i32::MAX,
            atable@.len() < i32::MAX,
            av == name_views(atable@),
            strictly_sorted(av),
            forall|x: Seq<char>| av.contains(x) <==> is_ammo_name(*doc, x),
            weapon_ammo_stats@ == Seq::new(r as nat, |j: int| ammo_stat_row(*doc, av, j)),
        decreases fa@.len() - r,
    {
        proof {
            lemma_index_pairs_bounds(ammo_counts(*doc), r as int);
        }
        let e = ammo_entry_ref(doc, &fw, &fa, r);
        assert(ammo_entry_at(*doc, r as int).0@ == e.0@);
        assert(is_ammo_name(*doc, e.0@));
        match name_id(&atable, &e.0) {
            Some(ammo_id) => {
                let row = WeaponAmmoStats {
                    weapon_id: fa[r].0 as i32 + 1,
                    ammo_id,
                    magazine_size: e.1.mag_size,
                    empty_reload_bits: e.1.empty_reload_bits,
                    tactical_reload_bits: e.1.tactical_reload_bits,
                    headshot_multiplier_bits: e.1.headshot_multiplier_bits,
                    pellet_count: e.1.pellet_count,
                };
                weapon_ammo_stats.push(row);
                assert(weapon_ammo_stats@ =~= Seq::new((r + 1) as nat, |j: int| ammo_stat_row(*doc, av, j)));
            },
            None => {},
        }
        r += 1;
    }
    let (configurations, config_dropoffs) = configurations_from(doc, &fw, &fs, &btable, &atable);
    assert(doc_fits(*doc));
    Some(
        NormalizedRows {
            categories,
            weapons,
            barrels,
            ammo_types,
            weapon_ammo_stats,
            configurations,
            config_dropoffs,
        },
    )
}

} // verus!
