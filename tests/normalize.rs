use weapon_stats::model::{
    AmmoStatData, CategoryData, DropoffData, StatData, WeaponData, WeaponsData,
};
use weapon_stats::names::{insert_name, name_id, name_less};
use weapon_stats::normalize::{assemble_configurations, normalize};

fn stat(barrel: &str, ammo: &str, velocity: i16, dropoffs: Vec<(i16, f64)>) -> StatData {
    StatData {
        barrel_type: barrel.to_string(),
        ammo_type: ammo.to_string(),
        velocity,
        rpm_single: None,
        rpm_burst: None,
        rpm_auto: Some(800),
        dropoffs: dropoffs
            .into_iter()
            .map(|(range, damage)| DropoffData { range, damage_bits: damage.to_bits() })
            .collect(),
    }
}

fn weapon(name: &str, stats: Vec<StatData>) -> WeaponData {
    WeaponData { name: name.to_string(), stats, ammo_stats: Vec::new() }
}

fn category(name: &str, weapons: Vec<WeaponData>) -> CategoryData {
    CategoryData { name: name.to_string(), weapons }
}

fn example_doc() -> WeaponsData {
    WeaponsData {
        categories: vec![category(
            "Assault Rifles",
            vec![weapon("M4", vec![stat("Standard", "5.56mm", 800, vec![(10, 25.0), (50, 18.0)])])],
        )],
    }
}

#[test]
fn example_document_rows() {
    let rows = normalize(&example_doc()).unwrap();
    assert_eq!(rows.categories.len(), 1);
    assert_eq!(rows.categories[0].category_id, 1);
    assert_eq!(rows.categories[0].category_name, "Assault Rifles");
    assert_eq!(rows.weapons.len(), 1);
    assert_eq!(rows.weapons[0].weapon_id, 1);
    assert_eq!(rows.weapons[0].weapon_name, "M4");
    assert_eq!(rows.weapons[0].category_id, 1);
    assert_eq!(rows.barrels.len(), 1);
    assert_eq!(rows.barrels[0].barrel_id, 1);
    assert_eq!(rows.barrels[0].barrel_name, "Standard");
    assert_eq!(rows.ammo_types.len(), 1);
    assert_eq!(rows.ammo_types[0].ammo_id, 1);
    assert_eq!(rows.ammo_types[0].ammo_type_name, "5.56mm");
    assert!(rows.weapon_ammo_stats.is_empty());
    assert_eq!(rows.configurations.len(), 1);
    let c = rows.configurations[0];
    assert_eq!((c.config_id, c.weapon_id, c.barrel_id, c.ammo_id, c.velocity), (1, 1, 1, 1, 800));
    assert_eq!(c.rpm_auto, Some(800));
    assert_eq!(rows.config_dropoffs.len(), 2);
    assert_eq!(rows.config_dropoffs[0].config_id, 1);
    assert_eq!(rows.config_dropoffs[0].range, 10);
    assert_eq!(f64::from_bits(rows.config_dropoffs[0].damage_bits), 25.0);
    assert_eq!(rows.config_dropoffs[1].config_id, 1);
    assert_eq!(rows.config_dropoffs[1].range, 50);
    assert_eq!(f64::from_bits(rows.config_dropoffs[1].damage_bits), 18.0);
}

#[test]
fn barrel_and_ammo_ids_follow_sorted_names() {
    let doc = WeaponsData {
        categories: vec![
            category("SMG", vec![weapon("A", vec![stat("Long", "9mm", 400, vec![]), stat("Short", ".45", 350, vec![])])]),
            category("LMG", vec![weapon("B", vec![stat("Extended", "7.62mm", 700, vec![])])]),
        ],
    };
    let rows = normalize(&doc).unwrap();
    let barrels: Vec<(i32, &str)> =
        rows.barrels.iter().map(|b| (b.barrel_id, b.barrel_name.as_str())).collect();
    assert_eq!(barrels, vec![(1, "Extended"), (2, "Long"), (3, "Short")]);
    let ammo: Vec<(i32, &str)> =
        rows.ammo_types.iter().map(|a| (a.ammo_id, a.ammo_type_name.as_str())).collect();
    assert_eq!(ammo, vec![(1, ".45"), (2, "7.62mm"), (3, "9mm")]);
    let configs: Vec<(i32, i32, i32, i32)> = rows
        .configurations
        .iter()
        .map(|c| (c.config_id, c.weapon_id, c.barrel_id, c.ammo_id))
        .collect();
    assert_eq!(configs, vec![(1, 1, 2, 3), (2, 1, 3, 1), (3, 2, 1, 2)]);
    assert_eq!(rows.categories[1].category_id, 2);
    assert_eq!(rows.weapons[1].category_id, 2);
}

#[test]
fn normalizing_twice_gives_the_same_rows() {
    let doc = WeaponsData {
        categories: vec![
            category("SMG", vec![weapon("A", vec![stat("Long", "9mm", 400, vec![(5, 20.0)])])]),
            category("LMG", vec![weapon("B", vec![stat("Extended", "7.62mm", 700, vec![])])]),
        ],
    };
    let a = normalize(&doc).unwrap();
    let b = normalize(&doc).unwrap();
    assert_eq!(a.configurations, b.configurations);
    assert_eq!(a.config_dropoffs, b.config_dropoffs);
    let names_a: Vec<&String> = a.barrels.iter().map(|r| &r.barrel_name).collect();
    let names_b: Vec<&String> = b.barrels.iter().map(|r| &r.barrel_name).collect();
    assert_eq!(names_a, names_b);
}

#[test]
fn shared_barrel_becomes_one_row() {
    let doc = WeaponsData {
        categories: vec![category(
            "Assault Rifles",
            vec![
                weapon("M4", vec![stat("Standard", "5.56mm", 800, vec![])]),
                weapon("AK-24", vec![stat("Standard", "7.62mm", 750, vec![])]),
            ],
        )],
    };
    let rows = normalize(&doc).unwrap();
    assert_eq!(rows.barrels.len(), 1);
    assert_eq!(rows.configurations.len(), 2);
    assert_eq!(rows.configurations[0].barrel_id, rows.barrels[0].barrel_id);
    assert_eq!(rows.configurations[1].barrel_id, rows.barrels[0].barrel_id);
    assert_eq!(rows.configurations[1].weapon_id, 2);
}

#[test]
fn unresolved_barrel_is_skipped() {
    let doc = WeaponsData {
        categories: vec![category(
            "Assault Rifles",
            vec![weapon(
                "M4",
                vec![stat("Missing", "5.56mm", 800, vec![(10, 25.0)]), stat("Standard", "5.56mm", 810, vec![(20, 22.0)])],
            )],
        )],
    };
    let barrels = vec!["Standard".to_string()];
    let ammo = vec!["5.56mm".to_string()];
    let (configs, drops) = assemble_configurations(&doc, &barrels, &ammo).unwrap();
    assert_eq!(configs.len(), 1);
    assert_eq!(configs[0].config_id, 1);
    assert_eq!(configs[0].velocity, 810);
    assert_eq!(drops.len(), 1);
    assert_eq!(drops[0].config_id, 1);
    assert_eq!(drops[0].range, 20);
}

#[test]
fn unresolved_ammo_is_skipped() {
    let doc = example_doc();
    let barrels = vec!["Standard".to_string()];
    let ammo: Vec<String> = Vec::new();
    let (configs, drops) = assemble_configurations(&doc, &barrels, &ammo).unwrap();
    assert!(configs.is_empty());
    assert!(drops.is_empty());
}

#[test]
fn ammo_profiles_add_ammo_names_and_rows() {
    let mut w = weapon("Shotgun", vec![stat("Standard", "Buckshot", 400, vec![])]);
    w.ammo_stats.push((
        "Slug".to_string(),
        AmmoStatData {
            mag_size: 6,
            empty_reload_bits: Some(3.5f64.to_bits()),
            tactical_reload_bits: None,
            headshot_multiplier_bits: 1.5f64.to_bits(),
            pellet_count: 1,
        },
    ));
    let doc = WeaponsData { categories: vec![category("Shotguns", vec![weapon("First", vec![]), w])] };
    let rows = normalize(&doc).unwrap();
    let ammo: Vec<&str> = rows.ammo_types.iter().map(|a| a.ammo_type_name.as_str()).collect();
    assert_eq!(ammo, vec!["Buckshot", "Slug"]);
    assert_eq!(rows.weapon_ammo_stats.len(), 1);
    let s = rows.weapon_ammo_stats[0];
    assert_eq!((s.weapon_id, s.ammo_id, s.magazine_size, s.pellet_count), (2, 2, 6, 1));
    assert_eq!(s.empty_reload_bits.map(f64::from_bits), Some(3.5));
    assert_eq!(s.tactical_reload_bits, None);
    assert_eq!(f64::from_bits(s.headshot_multiplier_bits), 1.5);
}

#[test]
fn weapon_without_stats_yields_only_its_row() {
    let doc = WeaponsData { categories: vec![category("Melee", vec![weapon("Knife", vec![])])] };
    let rows = normalize(&doc).unwrap();
    assert_eq!(rows.weapons.len(), 1);
    assert!(rows.barrels.is_empty());
    assert!(rows.ammo_types.is_empty());
    assert!(rows.configurations.is_empty());
    assert!(rows.config_dropoffs.is_empty());
    assert!(rows.weapon_ammo_stats.is_empty());
}

#[test]
fn empty_document_yields_no_rows() {
    let rows = normalize(&WeaponsData { categories: Vec::new() }).unwrap();
    assert!(rows.categories.is_empty());
    assert!(rows.weapons.is_empty());
    assert!(rows.configurations.is_empty());
}

#[test]
fn names_compare_by_code_point() {
    assert!(name_less("Extended", "Long"));
    assert!(!name_less("Long", "Extended"));
    assert!(name_less("Long", "Longer"));
    assert!(!name_less("Long", "Long"));
    assert!(name_less("", "a"));
    assert!(name_less("Z", "a"));
}

#[test]
fn sorted_table_insert_and_lookup() {
    let mut table: Vec<String> = Vec::new();
    for n in ["Short", "Long", "Short", "Extended"] {
        insert_name(&mut table, &n.to_string());
    }
    assert_eq!(table, vec!["Extended", "Long", "Short"]);
    assert_eq!(name_id(&table, &"Long".to_string()), Some(2));
    assert_eq!(name_id(&table, &"Missing".to_string()), None);
}

#[test]
fn every_reference_names_an_existing_row() {
    let mut w = weapon("AK-24", vec![stat("Long", "7.62mm", 700, vec![(0, 30.0), (75, 21.0)])]);
    w.ammo_stats.push((
        "7.62mm".to_string(),
        AmmoStatData {
            mag_size: 30,
            empty_reload_bits: None,
            tactical_reload_bits: None,
            headshot_multiplier_bits: 1.4f64.to_bits(),
            pellet_count: 1,
        },
    ));
    let doc = WeaponsData {
        categories: vec![
            category("SMG", vec![weapon("PP-29", vec![stat("Short", "9mm", 400, vec![(10, 19.0)])])]),
            category("Assault Rifles", vec![w, weapon("M5A3", vec![stat("Long", "5.56mm", 800, vec![])])]),
        ],
    };
    let rows = normalize(&doc).unwrap();
    let within = |id: i32, len: usize| id >= 1 && (id as usize) <= len;
    for w in &rows.weapons {
        assert!(within(w.category_id, rows.categories.len()));
    }
    assert_eq!(rows.weapons[2].category_id, 2);
    for (i, c) in rows.configurations.iter().enumerate() {
        assert_eq!(c.config_id as usize, i + 1);
        assert!(within(c.weapon_id, rows.weapons.len()));
        assert!(within(c.barrel_id, rows.barrels.len()));
        assert!(within(c.ammo_id, rows.ammo_types.len()));
    }
    for d in &rows.config_dropoffs {
        assert!(within(d.config_id, rows.configurations.len()));
    }
    assert_eq!(rows.config_dropoffs.len(), 3);
    assert_eq!(rows.config_dropoffs[2].config_id, 2);
    for s in &rows.weapon_ammo_stats {
        assert!(within(s.weapon_id, rows.weapons.len()));
        assert!(within(s.ammo_id, rows.ammo_types.len()));
    }
    assert_eq!((rows.weapon_ammo_stats[0].weapon_id, rows.weapon_ammo_stats[0].ammo_id), (2, 2));
}
