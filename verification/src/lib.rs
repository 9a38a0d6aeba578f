//! Item logistics for a colony simulation on a hexagonal grid.
//!
//! Structures move stacks of items between their inventories and the litter
//! lying on the ground, and advertise what they want and what they offer as
//! signals. Every rule is stated as a contract and proved.

pub mod construction;
pub mod geometry;
pub mod hash_maps;
pub mod identifiers;
pub mod inventories;
pub mod inventory;
pub mod items;
pub mod litter;
pub mod logistic_buildings;
pub mod organisms;
pub mod quantities;
pub mod recipe;
pub mod signals;
pub mod structure_manifest;
pub mod zoning;
