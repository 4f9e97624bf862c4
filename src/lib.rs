//! Normalization of a nested weapon-statistics document into relational rows
//! with deterministic surrogate ids, the orders in which the tables are
//! created, loaded and cleared, and the integrity report built from row
//! counts.

pub mod names;
pub mod flatten;
pub mod model;
pub mod normalize;
pub mod laws;
pub mod tables;
pub mod report;
