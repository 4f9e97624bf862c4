use weapon_stats::report::{build_report, check_order, IntegrityCheck};
use weapon_stats::tables::{clear_order, load_order, schema_order, Table};

#[test]
fn example_report_flags_only_empty_ammo_stats() {
    let report = build_report([1, 1, 1, 1, 0, 1, 2], [0, 0, 0, 0]);
    assert!(!report.is_valid);
    assert_eq!(report.issues, vec!["Table 'weapon_ammo_stats' is empty".to_string()]);
    assert_eq!(report.table_counts[4], ("weapon_ammo_stats".to_string(), 0));
    assert_eq!(report.table_counts[6], ("config_dropoffs".to_string(), 2));
}

#[test]
fn cleared_store_report() {
    let report = build_report([0; 7], [0; 4]);
    assert!(!report.is_valid);
    assert_eq!(report.issues.len(), 7);
    assert_eq!(report.issues[0], "Table 'categories' is empty");
    assert_eq!(report.issues[6], "Table 'config_dropoffs' is empty");
    assert!(report.table_counts.iter().all(|(_, c)| *c == 0));
}

#[test]
fn populated_store_report_is_valid() {
    let report = build_report([2, 3, 1, 1, 4, 5, 9], [0, 0, 0, 0]);
    assert!(report.is_valid);
    assert!(report.issues.is_empty());
    let names: Vec<&str> = report.table_counts.iter().map(|(n, _)| n.as_str()).collect();
    assert_eq!(
        names,
        vec!["categories", "weapons", "barrels", "ammo_types", "weapon_ammo_stats", "configurations", "config_dropoffs"]
    );
}

#[test]
fn orphan_counts_become_issues() {
    let report = build_report([1; 7], [3, 0, 12, 0]);
    assert!(!report.is_valid);
    assert_eq!(
        report.issues,
        vec![
            "3 weapons reference non-existent categories".to_string(),
            "12 dropoffs reference non-existent configurations".to_string(),
        ]
    );
}

#[test]
fn table_orders() {
    assert_eq!(
        load_order(),
        [
            Table::Categories,
            Table::Barrels,
            Table::AmmoTypes,
            Table::Weapons,
            Table::WeaponAmmoStats,
            Table::Configurations,
            Table::ConfigDropoffs
        ]
    );
    assert_eq!(
        clear_order(),
        [
            Table::ConfigDropoffs,
            Table::Configurations,
            Table::WeaponAmmoStats,
            Table::Weapons,
            Table::AmmoTypes,
            Table::Barrels,
            Table::Categories
        ]
    );
    assert_eq!(schema_order()[1], Table::Weapons);
    assert_eq!(Table::AmmoTypes.name(), "ammo_types");
    assert_eq!(check_order()[3], IntegrityCheck::OrphanAmmoStats);
    assert_eq!(IntegrityCheck::OrphanConfigurations.description(), "configurations have invalid references");
}
