//! What the catalogue of structures records of living things.

use crate::geometry::Height;
use crate::identifiers::{name_hash, spec_name_hash};
use vstd::prelude::*;
use vstd::std_specs::convert::FromSpecImpl;

verus! {

/// Identifies a type of structure.
#[derive(Clone, Copy, Debug, PartialEq, Eq, Structural, Hash)]
pub struct StructureId {
    pub value: u64,
}

impl StructureId {
    /// The identifier of the structure called `name`.
    pub fn from_name(name: &str) -> (structure_id: Self)
        ensures
            structure_id.value == spec_name_hash(name@),
    {
        StructureId { value: name_hash(name) }
    }
}

/// Identifies a type of unit.
#[derive(Clone, Copy, Debug, PartialEq, Eq, Structural, Hash)]
pub struct UnitId {
    pub value: u64,
}

impl UnitId {
    /// The identifier of the unit called `name`.
    pub fn from_name(name: &str) -> (unit_id: Self)
        ensures
            unit_id.value == spec_name_hash(name@),
    {
        UnitId { value: name_hash(name) }
    }
}

/// A form that an organism can take.
#[derive(Clone, Copy, Debug, PartialEq, Eq, Structural, Hash)]
pub enum OrganismId {
    /// The organism is a structure of this type.
    Structure(StructureId),
    /// The organism is a unit of this type.
    Unit(UnitId),
}

/// A form of an organism as the files name it.
#[derive(Clone, Debug, PartialEq, Eq)]
pub enum RawOrganismId {
    /// A structure, by name.
    Structure(String),
    /// A unit, by name.
    Unit(String),
}

/// The form that `raw` names.
pub open spec fn spec_organism_id(raw: RawOrganismId) -> OrganismId {
    match raw {
        RawOrganismId::Structure(name) => OrganismId::Structure(
            StructureId { value: spec_name_hash(name@) },
        ),
        RawOrganismId::Unit(name) => OrganismId::Unit(UnitId { value: spec_name_hash(name@) }),
    }
}

impl OrganismId {
    /// The form that `raw` names.
    pub fn from_raw(raw: &RawOrganismId) -> (organism_id: Self)
        ensures
            organism_id == spec_organism_id(*raw),
    {
        match raw {
            RawOrganismId::Structure(name) => OrganismId::Structure(
                StructureId::from_name(name.as_str()),
            ),
            RawOrganismId::Unit(name) => OrganismId::Unit(UnitId::from_name(name.as_str())),
        }
    }
}

impl From<RawOrganismId> for OrganismId {
    fn from(raw: RawOrganismId) -> (organism_id: Self) {
        Self::from_raw(&raw)
    }
}

impl FromSpecImpl<RawOrganismId> for OrganismId {
    open spec fn obeys_from_spec() -> bool {
        true
    }

    open spec fn from_spec(raw: RawOrganismId) -> Self {
        spec_organism_id(raw)
    }
}

/// What is recorded of one variety of organism.
#[derive(Clone, Copy, Debug, PartialEq, Eq, Structural)]
pub struct OrganismVariety {
    /// The form by which the variety is shown to the player.
    pub prototypical_form: OrganismId,
}

impl OrganismVariety {
    /// A variety that is shown as the structure called `name`.
    pub fn simple(name: &str) -> (variety: Self)
        ensures
            variety == (OrganismVariety {
                prototypical_form: OrganismId::Structure(
                    StructureId { value: spec_name_hash(name@) },
                ),
            }),
    {
        OrganismVariety { prototypical_form: OrganismId::Structure(StructureId::from_name(name)) }
    }
}

impl OrganismVariety {
    /// The variety that `raw` states.
    pub fn from_raw(raw: &RawOrganismVariety) -> (variety: Self)
        ensures
            variety == (OrganismVariety {
                prototypical_form: spec_organism_id(raw.prototypical_form),
            }),
    {
        OrganismVariety { prototypical_form: OrganismId::from_raw(&raw.prototypical_form) }
    }
}

/// A variety of organism as the files name it.
#[derive(Clone, Debug, PartialEq, Eq)]
pub struct RawOrganismVariety {
    pub prototypical_form: RawOrganismId,
}

impl From<RawOrganismVariety> for OrganismVariety {
    fn from(raw: RawOrganismVariety) -> (variety: Self) {
        Self::from_raw(&raw)
    }
}

impl FromSpecImpl<RawOrganismVariety> for OrganismVariety {
    open spec fn obeys_from_spec() -> bool {
        true
    }

    open spec fn from_spec(raw: RawOrganismVariety) -> Self {
        OrganismVariety { prototypical_form: spec_organism_id(raw.prototypical_form) }
    }
}

/// How a structure spreads to the tiles around it.
#[derive(Clone, Copy, Debug, PartialEq, Eq, Structural)]
pub struct VegetativeReproduction {
    /// The time between two attempts to spread, in ticks.
    pub period: u32,
    /// The energy that the structure must hold to spread.
    pub energy_threshold: u32,
}

/// How a structure spreads, as the files state it.
#[derive(Clone, Copy, Debug, PartialEq, Eq, Structural)]
pub struct RawVegetativeReproduction {
    pub period: u32,
    pub energy_threshold: u32,
}

impl From<RawVegetativeReproduction> for VegetativeReproduction {
    fn from(raw: RawVegetativeReproduction) -> (reproduction: Self) {
        VegetativeReproduction { period: raw.period, energy_threshold: raw.energy_threshold }
    }
}

impl FromSpecImpl<RawVegetativeReproduction> for VegetativeReproduction {
    open spec fn obeys_from_spec() -> bool {
        true
    }

    open spec fn from_spec(raw: RawVegetativeReproduction) -> Self {
        VegetativeReproduction { period: raw.period, energy_threshold: raw.energy_threshold }
    }
}

/// The tiles that a structure reaches with its roots.
#[derive(Clone, Copy, Debug, PartialEq, Eq, Structural)]
pub struct RootZone {
    /// How deep the roots go.
    pub max_depth: Height,
    /// How many tiles away the roots reach.
    pub radius: u32,
}

} // verus!
