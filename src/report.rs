//! The integrity report built from row counts and orphan counts.

use vstd::prelude::*;
use crate::tables::{schema_order, schema_seq, table_name, Table};

verus! {

/// The four integrity checks, each counting rows with a dangling reference.
#[derive(Clone, Copy, Debug, PartialEq, Eq, Structural)]
pub enum IntegrityCheck {
    OrphanWeapons,
    OrphanConfigurations,
    OrphanDropoffs,
    OrphanAmmoStats,
}

pub open spec fn check_seq() -> Seq<IntegrityCheck> {
    seq![
        IntegrityCheck::OrphanWeapons,
        IntegrityCheck::OrphanConfigurations,
        IntegrityCheck::OrphanDropoffs,
        IntegrityCheck::OrphanAmmoStats,
    ]
}

pub open spec fn check_description(c: IntegrityCheck) -> Seq<char> {
    match c {
        IntegrityCheck::OrphanWeapons => "weapons reference non-existent categories"@,
        IntegrityCheck::OrphanConfigurations => "configurations have invalid references"@,
        IntegrityCheck::OrphanDropoffs => "dropoffs reference non-existent configurations"@,
        IntegrityCheck::OrphanAmmoStats => "ammo stats have invalid references"@,
    }
}

impl IntegrityCheck {
    /// What a nonzero count of this check means.
    pub fn description(&self) -> (r: &'static str)
        ensures
            r@ == check_description(*self),
    {
        match self {
            IntegrityCheck::OrphanWeapons => "weapons reference non-existent categories",
            IntegrityCheck::OrphanConfigurations => "configurations have invalid references",
            IntegrityCheck::OrphanDropoffs => "dropoffs reference non-existent configurations",
            IntegrityCheck::OrphanAmmoStats => "ammo stats have invalid references",
        }
    }
}

/// The checks in the order a report lists their issues.
pub fn check_order() -> (r: [IntegrityCheck; 4])
    ensures
        r@ == check_seq(),
{
    let r = [
        IntegrityCheck::OrphanWeapons,
        IntegrityCheck::OrphanConfigurations,
        IntegrityCheck::OrphanDropoffs,
        IntegrityCheck::OrphanAmmoStats,
    ];
    assert(r@ =~= check_seq());
    r
}

pub open spec fn digit_char(d: nat) -> char {
    if d == 0 {
        '0'
    } else if d == 1 {
        '1'
    } else if d == 2 {
        '2'
    } else if d == 3 {
        '3'
    } else if d == 4 {
        '4'
    } else if d == 5 {
        '5'
    } else if d == 6 {
        '6'
    } else if d == 7 {
        '7'
    } else if d == 8 {
        '8'
    } else {
        '9'
    }
}

/// Decimal digits of `n`, without leading zeros.
pub open spec fn decimal_text(n: nat) -> Seq<char>
    decreases n,
{
    if n < 10 {
        seq![digit_char(n)]
    } else {
        decimal_text(n / 10).push(digit_char(n % 10))
    }
}

/// Relies on `i64`'s `to_string` (its `Display`): a non-negative value is
/// written as its decimal digits, with no sign and no leading zeros.
#[verifier::external_body]
fn count_text(n: i64) -> (r: String)
    requires
        n >= 0,
    ensures
        r@ == decimal_text(n as nat),
{
    n.to_string()
}

/// The issue recorded for an empty table.
pub open spec fn empty_issue(name: Seq<char>) -> Seq<char> {
    "Table '"@ + name + "' is empty"@
}

/// The issue recorded for a check that found `count` violating rows.
pub open spec fn orphan_issue(count: i64, desc: Seq<char>) -> Seq<char> {
    decimal_text(count as nat) + " "@ + desc
}

/// Issues for the first `n` tables of the schema order.
pub open spec fn table_issues(counts: Seq<i64>, n: nat) -> Seq<Seq<char>>
    decreases n,
{
    if n == 0 {
        Seq::empty()
    } else {
        let prev = table_issues(counts, (n - 1) as nat);
        if counts[n - 1] == 0 {
            prev.push(empty_issue(table_name(schema_seq()[n - 1])))
        } else {
            prev
        }
    }
}

/// Issues for the first `n` integrity checks.
pub open spec fn check_issues(orphans: Seq<i64>, n: nat) -> Seq<Seq<char>>
    decreases n,
{
    if n == 0 {
        Seq::empty()
    } else {
        let prev = check_issues(orphans, (n - 1) as nat);
        if orphans[n - 1] > 0 {
            prev.push(orphan_issue(orphans[n - 1], check_description(check_seq()[n - 1])))
        } else {
            prev
        }
    }
}

/// Outcome of validating the store.
#[derive(Debug)]
pub struct ValidationReport {
    pub is_valid: bool,
    pub issues: Vec<String>,
    /// Row count of each table, in schema order.
    pub table_counts: Vec<(String, i64)>,
}

/// Builds the report from the row count of each table (in schema order) and
/// the violation count of each integrity check (in check order). An empty
/// table, and a check with a positive count, each add one issue; the store is
/// valid exactly when there is none.
pub fn build_report(counts: [i64; 7], orphans: [i64; 4]) -> (r: ValidationReport)
    ensures
        r.is_valid <==> (forall|i: int| 0 <= i < 7 ==> counts@[i] != 0) && (forall|j: int|
            0 <= j < 4 ==> orphans@[j] <= 0),
        r.is_valid <==> r.issues@.len() == 0,
        r.issues@.map_values(|s: String| s@) == table_issues(counts@, 7) + check_issues(orphans@, 4),
        r.table_counts@.len() == 7,
        forall|i: int|
            0 <= i < 7 ==> (#[trigger] r.table_counts@[i]).0@ == table_name(schema_seq()[i])
                && r.table_counts@[i].1 == counts@[i],
{
    let tables = schema_order();
    let mut issues: Vec<String> = Vec::new();
    let mut table_counts: Vec<(String, i64)> = Vec::new();
    let mut i: usize = 0;
    while i < 7
        invariant
            i <= 7,
            tables@ == schema_seq(),
            issues@.map_values(|s: String| s@) == table_issues(counts@, i as nat),
            issues@.len() == 0 <==> forall|k: int| 0 <= k < i ==> counts@[k] != 0,
            table_counts@.len() == i,
            forall|k: int|
                0 <= k < i ==> (#[trigger] table_counts@[k]).0@ == table_name(schema_seq()[k])
                    && table_counts@[k].1 == counts@[k],
        decreases 7 - i,
    {
        let name = tables[i].name();
        table_counts.push((String::from_str(name), counts[i]));
        if counts[i] == 0 {
            let mut text = String::from_str("Table '");
            text.append(name);
            text.append("' is empty");
            let ghost before = issues@;
            issues.push(text);
            assert(issues@.map_values(|s: String| s@) =~= before.map_values(|s: String| s@).push(
                text@,
            ));
        }
        i += 1;
    }
    let checks = check_order();
    let ghost table_part = issues@.map_values(|s: String| s@);
    let mut j: usize = 0;
    while j < 4
        invariant
            j <= 4,
            checks@ == check_seq(),
            table_part == table_issues(counts@, 7),
            issues@.map_values(|s: String| s@) == table_part + check_issues(orphans@, j as nat),
            issues@.len() == 0 <==> (forall|k: int| 0 <= k < 7 ==> counts@[k] != 0) && (forall|k: int|
                0 <= k < j ==> orphans@[k] <= 0),
        decreases 4 - j,
    {
        if orphans[j] > 0 {
            let mut text = count_text(orphans[j]);
            text.append(" ");
            text.append(checks[j].description());
            let ghost before = issues@;
            issues.push(text);
            assert(issues@.map_values(|s: String| s@) =~= before.map_values(|s: String| s@).push(
                text@,
            ));
            assert(table_part + check_issues(orphans@, (j + 1) as nat) =~= (table_part
                + check_issues(orphans@, j as nat)).push(text@));
        }
        j += 1;
    }
    let is_valid = issues.len() == 0;
    ValidationReport { is_valid, issues, table_counts }
}

/// A store whose tables are all empty (and so has no dangling references)
/// is reported invalid with exactly one issue per table, in schema order.
pub proof fn law_empty_store_report(counts: Seq<i64>, orphans: Seq<i64>)
    requires
        counts.len() == 7,
        orphans.len() == 4,
        forall|i: int| 0 <= i < 7 ==> counts[i] == 0,
        forall|j: int| 0 <= j < 4 ==> orphans[j] <= 0,
    ensures
        ({
            let issues = table_issues(counts, 7) + check_issues(orphans, 4);
            &&& issues.len() == 7
            &&& forall|i: int| 0 <= i < 7 ==> #[trigger] issues[i] == empty_issue(table_name(schema_seq()[i]))
        }),
{
    reveal_with_fuel(table_issues, 8);
    reveal_with_fuel(check_issues, 5);
    assert(check_issues(orphans, 4) =~= Seq::<Seq<char>>::empty());
    let issues = table_issues(counts, 7) + check_issues(orphans, 4);
    assert(issues =~= table_issues(counts, 7));
}

} // verus!
