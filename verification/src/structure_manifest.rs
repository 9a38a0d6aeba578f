//! The catalogue of structures: what each type of structure is and how it is built.

use crate::construction::{
    ConstructionData, ConstructionStrategy, RawConstructionStrategy,
};
use crate::geometry::Footprint;
use crate::identifiers::spec_name_hash;
use crate::items::ItemId;
use crate::organisms::{
    spec_organism_id, OrganismId, OrganismVariety, RawOrganismVariety, RawVegetativeReproduction,
    RootZone, StructureId, VegetativeReproduction,
};
use crate::recipe::{spec_active_recipe, ActiveRecipe, RawActiveRecipe};
use crate::hash_maps::{
    raw_structure_entries, raw_structure_map_insert, raw_structure_map_iter,
    raw_structure_map_new, structure_entries, structure_map_get, structure_map_insert,
    structure_map_keys, structure_map_len, structure_map_new, RawStructureMap, StructureMap,
};
use vstd::prelude::*;
use vstd::std_specs::convert::FromSpecImpl;

verus! {

/// Marks the identifiers that name types of structure.
#[derive(Clone, Copy, Debug, PartialEq, Eq, Structural)]
pub struct Structure;

impl Structure {
    /// The identifier of the type of structure called `name`.
    pub fn id(name: &str) -> (structure_id: StructureId)
        ensures
            structure_id.value == spec_name_hash(name@),
    {
        StructureId::from_name(name)
    }
}

/// What set of parts a structure has.
#[derive(Debug, Clone, PartialEq, Eq)]
pub enum StructureKind {
    /// Stores items.
    Storage {
        /// The number of slots in the inventory.
        max_slot_count: usize,
        /// The one item that may be stored, or `None` where any may.
        reserved_for: Option<ItemId>,
    },
    /// Crafts items, turning inputs into outputs.
    Crafting {
        /// The recipe that the structure starts with.
        starting_recipe: ActiveRecipe,
    },
    /// A structure that can be walked over.
    Path,
    /// A structure that marks a special place of the world.
    Landmark,
    /// A structure that puts items out.
    Releaser,
    /// A structure that takes items in.
    Absorber,
}

/// A kind of structure as the files state it.
#[derive(Debug, Clone, PartialEq, Eq)]
pub enum RawStructureKind {
    /// Stores items.
    Storage {
        /// The number of slots in the inventory.
        max_slot_count: usize,
        /// The name of the one item that may be stored, or `None` where any may.
        reserved_for: Option<String>,
    },
    /// Crafts items, turning inputs into outputs.
    Crafting {
        /// The recipe that the structure starts with.
        starting_recipe: RawActiveRecipe,
    },
    /// A structure that can be walked over.
    Path,
    /// A structure that marks a special place of the world.
    Landmark,
    /// A structure that puts items out.
    Releaser,
    /// A structure that takes items in.
    Absorber,
}

/// The kind that `raw` states, with each name under its identifier.
pub open spec fn spec_structure_kind(raw: RawStructureKind) -> StructureKind {
    match raw {
        RawStructureKind::Storage { max_slot_count, reserved_for } => StructureKind::Storage {
            max_slot_count,
            reserved_for: match reserved_for {
                Some(name) => Some(ItemId { value: spec_name_hash(name@) }),
                None => None,
            },
        },
        RawStructureKind::Crafting { starting_recipe } => StructureKind::Crafting {
            starting_recipe: spec_active_recipe(starting_recipe),
        },
        RawStructureKind::Path => StructureKind::Path,
        RawStructureKind::Landmark => StructureKind::Landmark,
        RawStructureKind::Releaser => StructureKind::Releaser,
        RawStructureKind::Absorber => StructureKind::Absorber,
    }
}

impl StructureKind {
    /// The kind that `raw` states, with each name under its identifier.
    pub fn from_raw(raw: &RawStructureKind) -> (kind: Self)
        ensures
            kind == spec_structure_kind(*raw),
    {
        match raw {
            RawStructureKind::Storage { max_slot_count, reserved_for } => Self::Storage {
                max_slot_count: *max_slot_count,
                reserved_for: match reserved_for {
                    Some(name) => Some(ItemId::from_name(name.as_str())),
                    None => None,
                },
            },
            RawStructureKind::Crafting { starting_recipe } => Self::Crafting {
                starting_recipe: ActiveRecipe::from_raw(starting_recipe),
            },
            RawStructureKind::Path => Self::Path,
            RawStructureKind::Landmark => Self::Landmark,
            RawStructureKind::Releaser => Self::Releaser,
            RawStructureKind::Absorber => Self::Absorber,
        }
    }
}

impl From<RawStructureKind> for StructureKind {
    fn from(raw: RawStructureKind) -> (kind: Self) {
        Self::from_raw(&raw)
    }
}

impl FromSpecImpl<RawStructureKind> for StructureKind {
    open spec fn obeys_from_spec() -> bool {
        true
    }

    open spec fn from_spec(raw: RawStructureKind) -> Self {
        spec_structure_kind(raw)
    }
}

/// What the catalogue records of one type of structure.
#[derive(Debug, Clone)]
pub struct StructureData {
    /// What is recorded of the structure as a living thing, if it is one.
    pub organism_variety: Option<OrganismVariety>,
    /// What set of parts the structure has.
    pub kind: StructureKind,
    /// How new structures of this type come to be built.
    pub construction_strategy: ConstructionStrategy,
    /// How the structure spreads, if it does.
    pub vegetative_reproduction: Option<VegetativeReproduction>,
    /// How many workers can work at the structure at once.
    pub max_workers: u8,
    /// The places that the structure takes up.
    pub footprint: Footprint,
    /// The tiles that the structure reaches with its roots.
    pub root_zone: Option<RootZone>,
    /// Whether units can pass through the places that the structure takes up.
    pub can_walk_through: bool,
    /// Whether units can walk on top of the structure.
    pub can_walk_on_roof: bool,
}

/// A type of structure as the files state it.
#[derive(Debug, Clone)]
pub struct RawStructureData {
    /// What is recorded of the structure as a living thing, if it is one.
    pub organism_variety: Option<RawOrganismVariety>,
    /// What set of parts the structure has.
    pub kind: RawStructureKind,
    /// How new structures of this type come to be built.
    pub construction_strategy: RawConstructionStrategy,
    /// How the structure spreads, if it does.
    pub vegetative_reproduction: Option<RawVegetativeReproduction>,
    /// How many workers can work at the structure at once.
    pub max_workers: u8,
    /// The places that the structure takes up; one place where none is given.
    pub footprint: Option<Footprint>,
    /// The tiles that the structure reaches with its roots.
    pub root_zone: Option<RootZone>,
    /// Whether units can pass through the places that the structure takes up.
    pub can_walk_through: bool,
    /// Whether units can walk on top of the structure.
    pub can_walk_on_roof: bool,
}

impl StructureData {
    /// Whether this is a path of one place that is built as it is, for
    /// nothing, holds six workers and has no roof to walk on.
    pub open spec fn is_simple(
        &self,
        organism_variety: Option<OrganismVariety>,
        can_walk_through: bool,
    ) -> bool {
        &&& self.organism_variety == organism_variety
        &&& self.kind == StructureKind::Path
        &&& self.construction_strategy matches ConstructionStrategy::Direct(data)
        &&& data.work == None::<u32>
        &&& data.materials@.len() == 0
        &&& self.vegetative_reproduction == None::<VegetativeReproduction>
        &&& self.max_workers == 6
        &&& self.footprint.set@ == seq![crate::geometry::VoxelPos {
            hex: crate::geometry::Hex { x: 0, y: 0 },
            height: crate::geometry::Height { value: 0 },
        }]
        &&& self.root_zone == None::<RootZone>
        &&& self.can_walk_through == can_walk_through
        &&& !self.can_walk_on_roof
    }

    /// Whether this is what `raw` states, with each name under its identifier
    /// and one place for a footprint that is not given.
    pub open spec fn is_made_from(&self, raw: RawStructureData) -> bool {
        &&& self.organism_variety == match raw.organism_variety {
            Some(variety) => Some(
                OrganismVariety { prototypical_form: spec_organism_id(variety.prototypical_form) },
            ),
            None => None,
        }
        &&& self.kind == spec_structure_kind(raw.kind)
        &&& self.construction_strategy.is_made_from(raw.construction_strategy)
        &&& self.vegetative_reproduction == match raw.vegetative_reproduction {
            Some(reproduction) => Some(
                VegetativeReproduction {
                    period: reproduction.period,
                    energy_threshold: reproduction.energy_threshold,
                },
            ),
            None => None,
        }
        &&& self.max_workers == raw.max_workers
        &&& self.footprint.set@ == match raw.footprint {
            Some(footprint) => footprint.set@,
            None => seq![crate::geometry::VoxelPos {
                hex: crate::geometry::Hex { x: 0, y: 0 },
                height: crate::geometry::Height { value: 0 },
            }],
        }
        &&& self.root_zone == raw.root_zone
        &&& self.can_walk_through == raw.can_walk_through
        &&& self.can_walk_on_roof == raw.can_walk_on_roof
    }

    /// A simple organism.
    pub fn organism(name: &str) -> (data: Self)
        ensures
            data.is_simple(
                Some(
                    OrganismVariety {
                        prototypical_form: OrganismId::Structure(
                            StructureId { value: spec_name_hash(name@) },
                        ),
                    },
                ),
                true,
            ),
    {
        StructureData {
            organism_variety: Some(OrganismVariety::simple(name)),
            kind: StructureKind::Path,
            construction_strategy: ConstructionStrategy::Direct(ConstructionData::default()),
            vegetative_reproduction: None,
            max_workers: 6,
            footprint: Footprint::single(),
            root_zone: None,
            can_walk_through: true,
            can_walk_on_roof: false,
        }
    }

    /// A structure that can be walked through.
    pub fn passable() -> (data: Self)
        ensures
            data.is_simple(None, true),
    {
        StructureData {
            organism_variety: None,
            kind: StructureKind::Path,
            construction_strategy: ConstructionStrategy::Direct(ConstructionData::default()),
            vegetative_reproduction: None,
            max_workers: 6,
            footprint: Footprint::single(),
            root_zone: None,
            can_walk_through: true,
            can_walk_on_roof: false,
        }
    }

    /// A structure that cannot be walked through.
    pub fn impassable() -> (data: Self)
        ensures
            data.is_simple(None, false),
    {
        StructureData {
            organism_variety: None,
            kind: StructureKind::Path,
            construction_strategy: ConstructionStrategy::Direct(ConstructionData::default()),
            vegetative_reproduction: None,
            max_workers: 6,
            footprint: Footprint::single(),
            root_zone: None,
            can_walk_through: false,
            can_walk_on_roof: false,
        }
    }

    /// The recipe that the structure starts with; none where it does not craft.
    pub open spec fn spec_starting_recipe(&self) -> ActiveRecipe {
        match self.kind {
            StructureKind::Crafting { starting_recipe } => starting_recipe,
            _ => ActiveRecipe { recipe_id: None },
        }
    }

    /// The recipe that the structure starts with; none where it does not craft.
    pub fn starting_recipe(&self) -> (recipe: ActiveRecipe)
        ensures
            recipe == self.spec_starting_recipe(),
    {
        if let StructureKind::Crafting { starting_recipe } = &self.kind {
            *starting_recipe
        } else {
            ActiveRecipe::none()
        }
    }
}

impl StructureData {
    /// What `raw` states, with each name under its identifier and one place
    /// for a footprint that is not given.
    pub fn from_raw(raw: &RawStructureData) -> (data: Self)
        ensures
            data.is_made_from(*raw),
    {
        Self {
            organism_variety: match &raw.organism_variety {
                Some(variety) => Some(OrganismVariety::from_raw(variety)),
                None => None,
            },
            kind: StructureKind::from_raw(&raw.kind),
            construction_strategy: ConstructionStrategy::from_raw(&raw.construction_strategy),
            vegetative_reproduction: match raw.vegetative_reproduction {
                Some(reproduction) => Some(VegetativeReproduction::from(reproduction)),
                None => None,
            },
            max_workers: raw.max_workers,
            footprint: match &raw.footprint {
                Some(footprint) => footprint.clone(),
                None => Footprint::default(),
            },
            root_zone: raw.root_zone,
            can_walk_through: raw.can_walk_through,
            can_walk_on_roof: raw.can_walk_on_roof,
        }
    }
}

impl From<RawStructureData> for StructureData {
    fn from(raw: RawStructureData) -> (data: Self)
        ensures
            data.is_made_from(raw),
    {
        Self::from_raw(&raw)
    }
}

impl FromSpecImpl<RawStructureData> for StructureData {
    open spec fn obeys_from_spec() -> bool {
        false
    }

    open spec fn from_spec(raw: RawStructureData) -> Self {
        arbitrary()
    }
}

/// What the catalogue holds of one type of structure: its name, and what is recorded of it.
#[derive(Debug, Clone)]
pub struct StructureEntry {
    pub name: String,
    pub data: StructureData,
}

/// The form that a structure of the type `structure_id` is first built as,
/// found by going from seedling to seedling for at most `fuel` steps; `None`
/// where the catalogue lacks one of the types on the way, or the way is longer.
pub open spec fn spec_initial_form(
    entries: Map<u64, StructureEntry>,
    structure_id: StructureId,
    fuel: nat,
) -> Option<StructureId>
    decreases fuel,
{
    if !entries.contains_key(structure_id.value) {
        None
    } else {
        match entries[structure_id.value].data.construction_strategy {
            ConstructionStrategy::Seedling(seedling_id) => if fuel == 0 {
                None
            } else {
                spec_initial_form(entries, seedling_id, (fuel - 1) as nat)
            },
            _ => Some(structure_id),
        }
    }
}

/// The form that a structure is first built as is in the catalogue, and is
/// not itself a seedling.
pub proof fn lemma_initial_form_is_built(
    entries: Map<u64, StructureEntry>,
    structure_id: StructureId,
    fuel: nat,
)
    ensures
        spec_initial_form(entries, structure_id, fuel) matches Some(form) ==> {
            &&& entries.contains_key(form.value)
            &&& !(entries[form.value].data.construction_strategy is Seedling)
        },
    decreases fuel,
{
    if entries.contains_key(structure_id.value) {
        match entries[structure_id.value].data.construction_strategy {
            ConstructionStrategy::Seedling(seedling_id) => {
                if fuel > 0 {
                    lemma_initial_form_is_built(entries, seedling_id, (fuel - 1) as nat);
                }
            },
            _ => {},
        }
    }
}

/// Whether the type under `key` is one to show to the player: it is not a
/// landmark, and, where it is a living thing, it is the form by which its
/// variety is shown.
pub open spec fn spec_is_prototype(entries: Map<u64, StructureEntry>, key: u64) -> bool {
    &&& entries.contains_key(key)
    &&& match entries[key].data.organism_variety {
        None => true,
        Some(variety) => variety.prototypical_form == OrganismId::Structure(
            StructureId { value: key },
        ),
    }
    &&& entries[key].data.kind != StructureKind::Landmark
}

/// Whether `key` is one of the first `n` of `keys`.
pub open spec fn is_among(keys: Seq<u64>, n: int, key: u64) -> bool {
    exists|k: int| 0 <= k < n && keys[k] == key
}

/// Tells the keys of the types to show to the player from the others.
pub open spec fn shown_in(entries: Map<u64, StructureEntry>) -> spec_fn(u64) -> bool {
    |key: u64| spec_is_prototype(entries, key)
}

/// Makes an identifier of a key.
pub open spec fn as_structure_id() -> spec_fn(u64) -> StructureId {
    |key: u64| StructureId { value: key }
}

/// The catalogue of all types of structure, each under the number of its name.
pub struct StructureManifest {
    data_map: StructureMap,
}

impl View for StructureManifest {
    type V = Map<u64, StructureEntry>;

    closed spec fn view(&self) -> Map<u64, StructureEntry> {
        structure_entries(self.data_map)
    }
}

impl StructureManifest {
    /// Whether the way from `structure_id` to the form it is first built as
    /// stays within the catalogue and comes to an end.
    pub open spec fn resolves(&self, structure_id: StructureId) -> bool {
        spec_initial_form(self@, structure_id, self@.dom().len()) is Some
    }

    /// The form that a structure of the type `structure_id` is first built as.
    pub open spec fn spec_first_form(&self, structure_id: StructureId) -> StructureEntry {
        self@[spec_initial_form(self@, structure_id, self@.dom().len()).unwrap().value]
    }

    /// A catalogue without entries.
    pub fn new() -> (manifest: Self)
        ensures
            manifest@ == Map::<u64, StructureEntry>::empty(),
    {
        StructureManifest { data_map: structure_map_new() }
    }

    /// Records `data` for the type called `name`, in place of what was
    /// recorded under the number of that name.
    pub fn insert(&mut self, name: String, data: StructureData)
        ensures
            final(self)@ == old(self)@.insert(
                spec_name_hash(name@),
                StructureEntry { name, data },
            ),
    {
        let structure_id = StructureId::from_name(name.as_str());
        structure_map_insert(&mut self.data_map, structure_id.value, StructureEntry { name, data });
    }

    /// Whether the catalogue has an entry for `structure_id`.
    pub fn contains(&self, structure_id: StructureId) -> (known: bool)
        ensures
            known == self@.contains_key(structure_id.value),
    {
        structure_map_get(&self.data_map, structure_id.value).is_some()
    }

    /// What is recorded of the type `structure_id`.
    pub fn get(&self, structure_id: StructureId) -> (data: &StructureData)
        requires
            self@.contains_key(structure_id.value),
        ensures
            *data == self@[structure_id.value].data,
    {
        match structure_map_get(&self.data_map, structure_id.value) {
            Some(entry) => &entry.data,
            None => vstd::pervasive::unreached(),
        }
    }

    /// The name of the type `structure_id`.
    pub fn name(&self, structure_id: StructureId) -> (name: &str)
        requires
            self@.contains_key(structure_id.value),
        ensures
            name@ == self@[structure_id.value].name@,
    {
        match structure_map_get(&self.data_map, structure_id.value) {
            Some(entry) => entry.name.as_str(),
            None => vstd::pervasive::unreached(),
        }
    }

    /// The form that a structure of the type `structure_id` is first built
    /// as: the type itself, or the seedling that it grows out of, or the
    /// seedling of that, and so on. `None` where the catalogue lacks one of
    /// them, or where the seedlings go round in a circle.
    pub fn initial_form(&self, structure_id: StructureId) -> (form: Option<StructureId>)
        ensures
            form == spec_initial_form(self@, structure_id, self@.dom().len()),
            form matches Some(found) ==> {
                &&& self@.contains_key(found.value)
                &&& !(self@[found.value].data.construction_strategy is Seedling)
            },
    {
        proof {
            lemma_initial_form_is_built(self@, structure_id, self@.dom().len());
        }
        let mut current = structure_id;
        let mut fuel = structure_map_len(&self.data_map);
        loop
            invariant
                spec_initial_form(self@, current, fuel as nat) == spec_initial_form(
                    self@,
                    structure_id,
                    self@.dom().len(),
                ),
            decreases fuel,
        {
            match structure_map_get(&self.data_map, current.value) {
                None => {
                    return None;
                },
                Some(entry) => match &entry.data.construction_strategy {
                    ConstructionStrategy::Seedling(seedling_id) => {
                        if fuel == 0 {
                            return None;
                        }
                        current = *seedling_id;
                        fuel -= 1;
                    },
                    _ => {
                        return Some(current);
                    },
                },
            }
        }
    }

    /// What it takes to build a structure of the type `structure_id`.
    ///
    /// Where the structure grows out of a seedling, this is what it takes to
    /// build the seedling. For a landmark it is `None`.
    pub fn construction_data(&self, structure_id: StructureId) -> (data: Option<&ConstructionData>)
        requires
            self.resolves(structure_id),
        ensures
            match self.spec_first_form(structure_id).data.construction_strategy {
                ConstructionStrategy::Direct(direct) => data == Some(&direct),
                _ => data is None,
            },
    {
        match self.initial_form(structure_id) {
            Some(form) => {
                let initial_strategy = &self.get(form).construction_strategy;
                match initial_strategy {
                    ConstructionStrategy::Direct(data) => Some(data),
                    _ => None,
                }
            },
            None => None,
        }
    }

    /// The places that a structure of the type `structure_id` takes up when
    /// it is first built: its own, or those of the seedling it grows out of.
    pub fn footprint(&self, structure_id: StructureId) -> (footprint: &Footprint)
        requires
            self.resolves(structure_id),
        ensures
            *footprint == self.spec_first_form(structure_id).data.footprint,
    {
        match self.initial_form(structure_id) {
            Some(form) => &self.get(form).footprint,
            None => vstd::pervasive::unreached(),
        }
    }

    /// Whether the type under `key` is one to show to the player.
    pub fn is_prototype(&self, key: u64) -> (shown: bool)
        ensures
            shown == spec_is_prototype(self@, key),
    {
        match structure_map_get(&self.data_map, key) {
            None => false,
            Some(entry) => {
                let is_own_form = match &entry.data.organism_variety {
                    None => true,
                    Some(variety) => variety.prototypical_form == OrganismId::Structure(
                        StructureId { value: key },
                    ),
                };
                let is_landmark = match &entry.data.kind {
                    StructureKind::Landmark => true,
                    _ => false,
                };
                is_own_form && !is_landmark
            },
        }
    }

    /// Those of `keys` that are types to show to the player, in the order of `keys`.
    pub fn prototypes_among(&self, keys: &Vec<u64>) -> (prototypes: Vec<StructureId>)
        ensures
            prototypes@ == keys@.filter(shown_in(self@)).map_values(as_structure_id()),
            keys@.no_duplicates() ==> prototypes@.no_duplicates(),
            forall|structure_id: StructureId|
                prototypes@.contains(structure_id) <==> keys@.contains(structure_id.value)
                    && spec_is_prototype(self@, structure_id.value),
    {
        let ghost shown = shown_in(self@);
        let ghost named = as_structure_id();
        let mut prototypes: Vec<StructureId> = Vec::new();
        let mut i: usize = 0;
        assert(keys@.take(0).filter(shown) =~= Seq::<u64>::empty()) by {
            reveal(Seq::filter);
        }
        while i < keys.len()
            invariant
                i <= keys.len(),
                shown == shown_in(self@),
                named == as_structure_id(),
                prototypes@ == keys@.take(i as int).filter(shown).map_values(named),
                forall|j: int|
                    0 <= j < prototypes@.len() ==> is_among(
                        keys@,
                        i as int,
                        (#[trigger] prototypes@[j]).value,
                    ) && spec_is_prototype(self@, prototypes@[j].value),
                forall|k: int|
                    0 <= k < i && spec_is_prototype(self@, #[trigger] keys@[k])
                        ==> prototypes@.contains(StructureId { value: keys@[k] }),
                keys@.no_duplicates() ==> prototypes@.no_duplicates(),
            decreases keys.len() - i,
        {
            let key = keys[i];
            let ghost before = prototypes@;
            let ghost kept = keys@.take(i as int).filter(shown);
            proof {
                assert(keys@.take(i + 1) =~= keys@.take(i as int).push(key));
                keys@.take(i as int).lemma_filter_push(key, shown);
            }
            if self.is_prototype(key) {
                prototypes.push(StructureId { value: key });
                assert(kept.push(key).map_values(named) =~= kept.map_values(named).push(
                    named(key),
                ));
            }
            proof {
                assert forall|k: int|
                    0 <= k < i + 1 && spec_is_prototype(
                        self@,
                        #[trigger] keys@[k],
                    ) implies prototypes@.contains(StructureId { value: keys@[k] }) by {
                    if k < i {
                        let j = choose|j: int|
                            0 <= j < before.len() && before[j] == (StructureId { value: keys@[k] });
                        assert(prototypes@[j] == StructureId { value: keys@[k] });
                    } else {
                        assert(prototypes@[before.len() as int] == StructureId { value: keys@[k] });
                    }
                }
                assert forall|j: int| 0 <= j < prototypes@.len() implies is_among(
                    keys@,
                    i + 1,
                    (#[trigger] prototypes@[j]).value,
                ) && spec_is_prototype(self@, prototypes@[j].value) by {
                    if j < before.len() {
                        assert(prototypes@[j] == before[j]);
                        assert(is_among(keys@, i as int, before[j].value));
                        let k = choose|k: int| 0 <= k < i && keys@[k] == before[j].value;
                        assert(0 <= k < i + 1 && keys@[k] == prototypes@[j].value);
                    } else {
                        assert(0 <= i < i + 1 && keys@[i as int] == prototypes@[j].value);
                    }
                }
                if keys@.no_duplicates() {
                    assert forall|a: int, b: int|
                        0 <= a < prototypes@.len() && 0 <= b < prototypes@.len() && a
                            != b implies prototypes@[a] != prototypes@[b] by {
                        if a < before.len() && b < before.len() {
                            assert(before[a] != before[b]);
                        } else {
                            let old_one = if a < before.len() {
                                a
                            } else {
                                b
                            };
                            assert(prototypes@[old_one] == before[old_one]);
                            assert(is_among(keys@, i as int, before[old_one].value));
                            let k = choose|k: int| 0 <= k < i && keys@[k] == before[old_one].value;
                            assert(keys@[k] != keys@[i as int]);
                        }
                    }
                }
            }
            i += 1;
        }
        assert(keys@.take(keys@.len() as int) =~= keys@);
        assert forall|structure_id: StructureId|
            prototypes@.contains(structure_id) <==> keys@.contains(structure_id.value)
                && spec_is_prototype(self@, structure_id.value) by {
            if prototypes@.contains(structure_id) {
                let j = choose|j: int| 0 <= j < prototypes@.len() && prototypes@[j] == structure_id;
                assert(is_among(keys@, i as int, prototypes@[j].value));
                let k = choose|k: int| 0 <= k < i && keys@[k] == prototypes@[j].value;
                assert(keys@[k] == structure_id.value);
            }
            if keys@.contains(structure_id.value) && spec_is_prototype(self@, structure_id.value) {
                let k = choose|k: int| 0 <= k < keys@.len() && keys@[k] == structure_id.value;
                assert(spec_is_prototype(self@, keys@[k]));
            }
        }
        prototypes
    }

    /// The types to show to the player, each once, in no order that is told.
    pub fn prototypes(&self) -> (prototypes: Vec<StructureId>)
        ensures
            prototypes@.no_duplicates(),
            forall|structure_id: StructureId|
                prototypes@.contains(structure_id) <==> spec_is_prototype(
                    self@,
                    structure_id.value,
                ),
    {
        let keys = structure_map_keys(&self.data_map);
        self.prototypes_among(&keys)
    }

    /// The names of the given types, in their order.
    pub fn names_of(&self, structure_ids: &Vec<StructureId>) -> (names: Vec<&str>)
        requires
            forall|i: int|
                0 <= i < structure_ids@.len() ==> self@.contains_key(
                    (#[trigger] structure_ids@[i]).value,
                ),
        ensures
            names@.len() == structure_ids@.len(),
            forall|i: int|
                0 <= i < names@.len() ==> (#[trigger] names@[i])@
                    == self@[structure_ids@[i].value].name@,
    {
        let mut names: Vec<&str> = Vec::new();
        let mut i: usize = 0;
        while i < structure_ids.len()
            invariant
                i <= structure_ids.len(),
                names@.len() == i,
                forall|j: int|
                    0 <= j < structure_ids@.len() ==> self@.contains_key(
                        (#[trigger] structure_ids@[j]).value,
                    ),
                forall|j: int|
                    0 <= j < i ==> (#[trigger] names@[j])@ == self@[structure_ids@[j].value].name@,
            decreases structure_ids.len() - i,
        {
            names.push(self.name(structure_ids[i]));
            i += 1;
        }
        names
    }

    /// Whether `names` are the names of the types to show to the player, one
    /// for each type.
    pub open spec fn are_prototype_names(&self, names: Seq<&str>) -> bool {
        exists|prototypes: Seq<StructureId>|
            {
                &&& prototypes.no_duplicates()
                &&& forall|structure_id: StructureId|
                    prototypes.contains(structure_id) <==> spec_is_prototype(
                        self@,
                        structure_id.value,
                    )
                &&& #[trigger] prototypes.len() == names.len()
                &&& forall|i: int|
                    0 <= i < names.len() ==> (#[trigger] names[i])@
                        == self@[prototypes[i].value].name@
            }
    }

    /// The names of the types to show to the player, one for each type, in no
    /// order that is told.
    pub fn prototype_names(&self) -> (names: Vec<&str>)
        ensures
            self.are_prototype_names(names@),
    {
        let prototypes = self.prototypes();
        assert forall|i: int| 0 <= i < prototypes@.len() implies self@.contains_key(
            (#[trigger] prototypes@[i]).value,
        ) by {
            assert(prototypes@.contains(prototypes@[i]));
        }
        let names = self.names_of(&prototypes);
        assert(prototypes@.len() == names@.len());
        names
    }
}

/// The number under which the catalogue holds the `i`-th of `entries`.
pub open spec fn entry_key(entries: Seq<(&String, &RawStructureData)>, i: int) -> u64 {
    spec_name_hash(entries[i].0@)
}

/// Whether one of the first `n` of `entries` goes under `key`.
pub open spec fn key_is_among(entries: Seq<(&String, &RawStructureData)>, n: int, key: u64) -> bool {
    exists|i: int| 0 <= i < n && #[trigger] entry_key(entries, i) == key
}

/// Whether none of `entries` between the `i`-th and the `n`-th goes under
/// the same number as the `i`-th.
pub open spec fn is_last_before(entries: Seq<(&String, &RawStructureData)>, i: int, n: int) -> bool {
    forall|j: int| i < j < n ==> #[trigger] entry_key(entries, j) != entry_key(entries, i)
}

/// Whether `entry` is what the catalogue holds of the type called `name`, of
/// which a file states `raw`.
pub open spec fn records(entry: StructureEntry, name: Seq<char>, raw: RawStructureData) -> bool {
    &&& entry.name@ == name
    &&& entry.data.is_made_from(raw)
}

/// Whether, of the names in `raw`, only `name` goes under its number.
pub open spec fn is_alone_under_key(raw: Map<Seq<char>, RawStructureData>, name: Seq<char>) -> bool {
    forall|other: Seq<char>|
        #[trigger] raw.contains_key(other) && other != name ==> spec_name_hash(other)
            != spec_name_hash(name)
}

/// Whether `raw` holds a name that goes under `key`.
pub open spec fn names_key(raw: Map<Seq<char>, RawStructureData>, key: u64) -> bool {
    exists|name: Seq<char>| #[trigger] raw.contains_key(name) && spec_name_hash(name) == key
}

impl StructureManifest {
    /// The catalogue made of `entries`, taken in order: each is recorded
    /// under the number of its name, in place of an earlier one that went
    /// under the same number.
    pub fn from_entries(entries: &Vec<(&String, &RawStructureData)>) -> (manifest: Self)
        ensures
            forall|key: u64|
                manifest@.contains_key(key) <==> key_is_among(
                    entries@,
                    entries@.len() as int,
                    key,
                ),
            forall|i: int|
                0 <= i < entries@.len() && is_last_before(entries@, i, entries@.len() as int)
                    ==> records(
                    manifest@[#[trigger] entry_key(entries@, i)],
                    entries@[i].0@,
                    *entries@[i].1,
                ),
    {
        let mut manifest = StructureManifest::new();
        let mut i: usize = 0;
        while i < entries.len()
            invariant
                i <= entries.len(),
                forall|key: u64|
                    manifest@.contains_key(key) <==> key_is_among(entries@, i as int, key),
                forall|k: int|
                    0 <= k < i && is_last_before(entries@, k, i as int) ==> records(
                        manifest@[#[trigger] entry_key(entries@, k)],
                        entries@[k].0@,
                        *entries@[k].1,
                    ),
            decreases entries.len() - i,
        {
            let name = entries[i].0;
            let raw_data = entries[i].1;
            let data = StructureData::from_raw(raw_data);
            let ghost before = manifest@;
            let ghost new_key = entry_key(entries@, i as int);
            manifest.insert(name.clone(), data);
            proof {
                assert forall|key: u64|
                    manifest@.contains_key(key) <==> key_is_among(entries@, i + 1, key) by {
                    if key == new_key {
                        assert(entry_key(entries@, i as int) == key);
                    } else {
                        if before.contains_key(key) {
                            let k = choose|k: int|
                                0 <= k < i && #[trigger] entry_key(entries@, k) == key;
                            assert(0 <= k < i + 1 && entry_key(entries@, k) == key);
                        }
                        if key_is_among(entries@, i + 1, key) {
                            let k = choose|k: int|
                                0 <= k < i + 1 && #[trigger] entry_key(entries@, k) == key;
                            assert(0 <= k < i && entry_key(entries@, k) == key);
                        }
                    }
                }
                assert forall|k: int|
                    0 <= k < i + 1 && is_last_before(entries@, k, i + 1) implies records(
                    manifest@[#[trigger] entry_key(entries@, k)],
                    entries@[k].0@,
                    *entries@[k].1,
                ) by {
                    if k < i {
                        assert(entry_key(entries@, i as int) != entry_key(entries@, k));
                        assert(is_last_before(entries@, k, i as int));
                    }
                }
            }
            i += 1;
        }
        manifest
    }
}

/// The catalogue of structures as a file states it: what is stated of each
/// type, under its name.
pub struct RawStructureManifest {
    /// What is stated of each type of structure.
    pub structure_types: RawStructureMap,
}

impl View for RawStructureManifest {
    type V = Map<Seq<char>, RawStructureData>;

    closed spec fn view(&self) -> Map<Seq<char>, RawStructureData> {
        raw_structure_entries(self.structure_types)
    }
}

impl RawStructureManifest {
    /// A catalogue that states nothing.
    pub fn new() -> (raw: Self)
        ensures
            raw@ == Map::<Seq<char>, RawStructureData>::empty(),
    {
        RawStructureManifest { structure_types: raw_structure_map_new() }
    }

    /// States `data` of the type called `name`, in place of what was stated of it.
    pub fn insert(&mut self, name: String, data: RawStructureData)
        ensures
            final(self)@ == old(self)@.insert(name@, data),
    {
        raw_structure_map_insert(&mut self.structure_types, name, data);
    }

    /// Every name with what is stated of it, each name once, in no order that is told.
    pub fn entries(&self) -> (entries: Vec<(&String, &RawStructureData)>)
        ensures
            forall|i: int|
                0 <= i < entries@.len() ==> self@.contains_key((#[trigger] entries@[i]).0@)
                    && self@[entries@[i].0@] == *entries@[i].1,
            forall|i: int, j: int|
                0 <= i < j < entries@.len() ==> (#[trigger] entries@[i]).0@ != (
                #[trigger] entries@[j]).0@,
            forall|name: Seq<char>| #[trigger]
                self@.contains_key(name) ==> exists|i: int|
                    0 <= i < entries@.len() && (#[trigger] entries@[i]).0@ == name,
    {
        raw_structure_map_iter(&self.structure_types)
    }

    /// The catalogue that the game works with: every type that is stated
    /// here, under the number of its name and with each name that is stated
    /// of it under its number.
    ///
    /// Where two names go under one number, the catalogue holds one of the two.
    pub fn process(&self) -> (manifest: StructureManifest)
        ensures
            forall|key: u64| manifest@.contains_key(key) <==> names_key(self@, key),
            forall|name: Seq<char>|
                #[trigger] self@.contains_key(name) && is_alone_under_key(self@, name) ==> records(
                    manifest@[spec_name_hash(name)],
                    name,
                    self@[name],
                ),
    {
        let entries = self.entries();
        let manifest = StructureManifest::from_entries(&entries);
        proof {
            let len = entries@.len() as int;
            assert forall|key: u64| manifest@.contains_key(key) <==> names_key(self@, key) by {
                if manifest@.contains_key(key) {
                    let i = choose|i: int|
                        0 <= i < len && #[trigger] entry_key(entries@, i) == key;
                    assert(self@.contains_key(entries@[i].0@));
                }
                if names_key(self@, key) {
                    let name = choose|name: Seq<char>| #[trigger]
                        self@.contains_key(name) && spec_name_hash(name) == key;
                    let i = choose|i: int| 0 <= i < len && (#[trigger] entries@[i]).0@ == name;
                    assert(entry_key(entries@, i) == key);
                }
            }
            assert forall|name: Seq<char>| #[trigger]
                self@.contains_key(name) && is_alone_under_key(self@, name) implies records(
                manifest@[spec_name_hash(name)],
                name,
                self@[name],
            ) by {
                let i = choose|i: int| 0 <= i < len && (#[trigger] entries@[i]).0@ == name;
                assert forall|j: int| i < j < len implies #[trigger] entry_key(entries@, j)
                    != entry_key(entries@, i) by {
                    assert(entries@[i].0@ != entries@[j].0@);
                    assert(self@.contains_key(entries@[j].0@));
                }
                assert(is_last_before(entries@, i, len));
                assert(entry_key(entries@, i) == spec_name_hash(name));
            }
        }
        manifest
    }
}

} // verus!
