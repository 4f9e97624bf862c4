//! The input document and the relational rows derived from it.
//!
//! Fractional quantities (damage, reload times, headshot multipliers) are
//! carried through unchanged as the IEEE-754 bit patterns of their `f64`
//! values; the library never computes with them.

use vstd::prelude::*;

verus! {

/// Damage at one range, as listed in the document.
#[derive(Clone, Copy, Debug)]
pub struct DropoffData {
    pub range: i16,
    pub damage_bits: u64,
}

/// Ballistics of one barrel/ammo combination of a weapon.
#[derive(Debug)]
pub struct StatData {
    pub barrel_type: String,
    pub ammo_type: String,
    pub velocity: i16,
    pub rpm_single: Option<i16>,
    pub rpm_burst: Option<i16>,
    pub rpm_auto: Option<i16>,
    pub dropoffs: Vec<DropoffData>,
}

/// Magazine and reload profile of a weapon with one ammo type.
#[derive(Clone, Copy, Debug)]
pub struct AmmoStatData {
    pub mag_size: i16,
    pub empty_reload_bits: Option<u64>,
    pub tactical_reload_bits: Option<u64>,
    pub headshot_multiplier_bits: u64,
    pub pellet_count: i16,
}

/// A weapon: its stats, and its ammo profiles keyed by ammo name.
#[derive(Debug)]
pub struct WeaponData {
    pub name: String,
    pub stats: Vec<StatData>,
    pub ammo_stats: Vec<(String, AmmoStatData)>,
}

/// A category and the weapons listed under it.
#[derive(Debug)]
pub struct CategoryData {
    pub name: String,
    pub weapons: Vec<WeaponData>,
}

/// The whole document: categories in document order.
#[derive(Debug)]
pub struct WeaponsData {
    pub categories: Vec<CategoryData>,
}

#[derive(Debug)]
pub struct Category {
    pub category_id: i32,
    pub category_name: String,
}

#[derive(Debug)]
pub struct Weapon {
    pub weapon_id: i32,
    pub weapon_name: String,
    pub category_id: i32,
}

#[derive(Debug)]
pub struct Barrel {
    pub barrel_id: i32,
    pub barrel_name: String,
}

#[derive(Debug)]
pub struct AmmoType {
    pub ammo_id: i32,
    pub ammo_type_name: String,
}

#[derive(Clone, Copy, Debug, PartialEq, Eq)]
pub struct WeaponAmmoStats {
    pub weapon_id: i32,
    pub ammo_id: i32,
    pub magazine_size: i16,
    pub empty_reload_bits: Option<u64>,
    pub tactical_reload_bits: Option<u64>,
    pub headshot_multiplier_bits: u64,
    pub pellet_count: i16,
}

#[derive(Clone, Copy, Debug, PartialEq, Eq)]
pub struct Configuration {
    pub config_id: i32,
    pub weapon_id: i32,
    pub barrel_id: i32,
    pub ammo_id: i32,
    pub velocity: i16,
    pub rpm_single: Option<i16>,
    pub rpm_burst: Option<i16>,
    pub rpm_auto: Option<i16>,
}

#[derive(Clone, Copy, Debug, PartialEq, Eq)]
pub struct ConfigDropoff {
    pub config_id: i32,
    pub range: i16,
    pub damage_bits: u64,
}

/// Every table's rows, surrogate ids assigned, ready to be inserted.
#[derive(Debug)]
pub struct NormalizedRows {
    pub categories: Vec<Category>,
    pub weapons: Vec<Weapon>,
    pub barrels: Vec<Barrel>,
    pub ammo_types: Vec<AmmoType>,
    pub weapon_ammo_stats: Vec<WeaponAmmoStats>,
    pub configurations: Vec<Configuration>,
    pub config_dropoffs: Vec<ConfigDropoff>,
}

} // verus!
