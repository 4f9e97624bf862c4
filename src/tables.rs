//! The seven tables, the references between them, and the orders in which
//! they are created, loaded, cleared and reported.

use vstd::prelude::*;

verus! {

#[derive(Clone, Copy, Debug, PartialEq, Eq, Structural)]
pub enum Table {
    Categories,
    Weapons,
    Barrels,
    AmmoTypes,
    WeaponAmmoStats,
    Configurations,
    ConfigDropoffs,
}

/// The table's name in the store.
pub open spec fn table_name(t: Table) -> Seq<char> {
    match t {
        Table::Categories => "categories"@,
        Table::Weapons => "weapons"@,
        Table::Barrels => "barrels"@,
        Table::AmmoTypes => "ammo_types"@,
        Table::WeaponAmmoStats => "weapon_ammo_stats"@,
        Table::Configurations => "configurations"@,
        Table::ConfigDropoffs => "config_dropoffs"@,
    }
}

/// `t` holds a foreign key into `u`.
pub open spec fn references(t: Table, u: Table) -> bool {
    match t {
        Table::Weapons => u == Table::Categories,
        Table::WeaponAmmoStats => u == Table::Weapons || u == Table::AmmoTypes,
        Table::Configurations => u == Table::Weapons || u == Table::Barrels || u == Table::AmmoTypes,
        Table::ConfigDropoffs => u == Table::Configurations,
        _ => false,
    }
}

/// Order of creation, and of the counts in a validation report.
pub open spec fn schema_seq() -> Seq<Table> {
    seq![
        Table::Categories,
        Table::Weapons,
        Table::Barrels,
        Table::AmmoTypes,
        Table::WeaponAmmoStats,
        Table::Configurations,
        Table::ConfigDropoffs,
    ]
}

/// Order in which a load inserts rows.
pub open spec fn load_seq() -> Seq<Table> {
    seq![
        Table::Categories,
        Table::Barrels,
        Table::AmmoTypes,
        Table::Weapons,
        Table::WeaponAmmoStats,
        Table::Configurations,
        Table::ConfigDropoffs,
    ]
}

/// Order in which tables are emptied or dropped: the reverse of creation.
pub open spec fn clear_seq() -> Seq<Table> {
    seq![
        Table::ConfigDropoffs,
        Table::Configurations,
        Table::WeaponAmmoStats,
        Table::Weapons,
        Table::AmmoTypes,
        Table::Barrels,
        Table::Categories,
    ]
}

/// Every table comes after the tables it references.
pub open spec fn respects_references(s: Seq<Table>) -> bool {
    forall|i: int, j: int| 0 <= i < s.len() && 0 <= j < s.len() && references(s[i], s[j]) ==> j < i
}

/// Every table comes before the tables it references.
pub open spec fn reverses_references(s: Seq<Table>) -> bool {
    forall|i: int, j: int| 0 <= i < s.len() && 0 <= j < s.len() && references(s[i], s[j]) ==> i < j
}

impl Table {
    /// The table's name in the store.
    pub fn name(&self) -> (r: &'static str)
        ensures
            r@ == table_name(*self),
    {
        match self {
            Table::Categories => "categories",
            Table::Weapons => "weapons",
            Table::Barrels => "barrels",
            Table::AmmoTypes => "ammo_types",
            Table::WeaponAmmoStats => "weapon_ammo_stats",
            Table::Configurations => "configurations",
            Table::ConfigDropoffs => "config_dropoffs",
        }
    }
}

/// Tables in order of creation; validation reports count them in this order.
pub fn schema_order() -> (r: [Table; 7])
    ensures
        r@ == schema_seq(),
{
    let r = [
        Table::Categories,
        Table::Weapons,
        Table::Barrels,
        Table::AmmoTypes,
        Table::WeaponAmmoStats,
        Table::Configurations,
        Table::ConfigDropoffs,
    ];
    assert(r@ =~= schema_seq());
    r
}

/// Tables in the order a load fills them.
pub fn load_order() -> (r: [Table; 7])
    ensures
        r@ == load_seq(),
{
    let r = [
        Table::Categories,
        Table::Barrels,
        Table::AmmoTypes,
        Table::Weapons,
        Table::WeaponAmmoStats,
        Table::Configurations,
        Table::ConfigDropoffs,
    ];
    assert(r@ =~= load_seq());
    r
}

/// Tables in the order they are emptied or dropped.
pub fn clear_order() -> (r: [Table; 7])
    ensures
        r@ == clear_seq(),
{
    let r = [
        Table::ConfigDropoffs,
        Table::Configurations,
        Table::WeaponAmmoStats,
        Table::Weapons,
        Table::AmmoTypes,
        Table::Barrels,
        Table::Categories,
    ];
    assert(r@ =~= clear_seq());
    r
}

/// Creating and loading insert no row before the rows it references can
/// exist; clearing and dropping remove no table while another still
/// references it.
pub proof fn law_orders_follow_references()
    ensures
        respects_references(schema_seq()),
        respects_references(load_seq()),
        reverses_references(clear_seq()),
{
}

} // verus!
