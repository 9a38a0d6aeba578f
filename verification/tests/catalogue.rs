use emergence_lib::construction::{
    ConstructionData, ConstructionStrategy, RawConstructionData, RawConstructionStrategy,
};
use emergence_lib::geometry::{Footprint, Height, Hex, VoxelPos};
use emergence_lib::identifiers::name_hash;
use emergence_lib::items::{ItemCount, ItemId};
use emergence_lib::organisms::{
    OrganismId, OrganismVariety, RawOrganismId, RawOrganismVariety, RawVegetativeReproduction,
    RootZone, StructureId, UnitId, VegetativeReproduction,
};
use emergence_lib::recipe::{ActiveRecipe, RawActiveRecipe, RecipeId};
use emergence_lib::structure_manifest::{
    RawStructureData, RawStructureKind, RawStructureManifest, Structure, StructureData,
    StructureKind, StructureManifest,
};
use emergence_lib::zoning::{
    is_pressed, set_selected_structure, SelectedStructure, TilePos, ZoningAction, ZoningKey,
};

fn seedling_of(name: &str) -> StructureData {
    let mut data = StructureData::passable();
    data.construction_strategy = ConstructionStrategy::Seedling(StructureId::from_name(name));
    data
}

fn built_with(work: u32, footprint_height: i32) -> StructureData {
    let mut data = StructureData::impassable();
    data.construction_strategy = ConstructionStrategy::Direct(ConstructionData {
        work: Some(work),
        materials: vec![ItemCount::new(ItemId::from_name("leaf"), 2)],
    });
    data.footprint = Footprint {
        set: vec![VoxelPos { hex: Hex { x: 0, y: 0 }, height: Height { value: footprint_height } }],
    };
    data
}

fn landmark() -> StructureData {
    let mut data = StructureData::impassable();
    data.kind = StructureKind::Landmark;
    data.construction_strategy = ConstructionStrategy::Landmark;
    data
}

fn raw(kind: RawStructureKind, strategy: RawConstructionStrategy) -> RawStructureData {
    RawStructureData {
        organism_variety: None,
        kind,
        construction_strategy: strategy,
        vegetative_reproduction: None,
        max_workers: 3,
        footprint: None,
        root_zone: None,
        can_walk_through: false,
        can_walk_on_roof: true,
    }
}

#[test]
fn names_become_numbers() {
    assert_eq!(name_hash("acacia"), name_hash("acacia"));
    assert_ne!(name_hash("acacia"), name_hash("leuco"));
    assert_ne!(name_hash(""), name_hash("a"));
    assert_eq!(ItemId::from_name("leaf").value, name_hash("leaf"));
    assert_eq!(StructureId::from_name("acacia").value, name_hash("acacia"));
    assert_eq!(Structure::id("acacia"), StructureId::from_name("acacia"));
    assert_eq!(UnitId::from_name("ant").value, name_hash("ant"));
    assert_eq!(RecipeId::from_name("brew").value, name_hash("brew"));
}

#[test]
fn simple_structures() {
    let passable = StructureData::passable();
    assert!(passable.organism_variety.is_none());
    assert_eq!(passable.kind, StructureKind::Path);
    assert!(matches!(passable.construction_strategy, ConstructionStrategy::Direct(_)));
    assert!(passable.vegetative_reproduction.is_none());
    assert_eq!(passable.max_workers, 6);
    assert_eq!(passable.footprint.set, vec![VoxelPos::zero()]);
    assert!(passable.root_zone.is_none());
    assert!(passable.can_walk_through);
    assert!(!passable.can_walk_on_roof);

    let impassable = StructureData::impassable();
    assert!(!impassable.can_walk_through);
    assert!(!impassable.can_walk_on_roof);
    assert_eq!(impassable.kind, StructureKind::Path);
    assert_eq!(impassable.max_workers, 6);

    let organism = StructureData::organism("acacia");
    assert_eq!(
        organism.organism_variety,
        Some(OrganismVariety {
            prototypical_form: OrganismId::Structure(StructureId::from_name("acacia"))
        })
    );
    assert_eq!(organism.organism_variety, Some(OrganismVariety::simple("acacia")));
    assert!(organism.can_walk_through);
    assert_eq!(organism.max_workers, 6);
    match organism.construction_strategy {
        ConstructionStrategy::Direct(data) => {
            assert_eq!(data.work, None);
            assert!(data.materials.is_empty());
        }
        _ => panic!("a simple organism is built as it is"),
    }
}

#[test]
fn starting_recipe_of_crafters_and_others() {
    let mut data = StructureData::passable();
    assert_eq!(data.starting_recipe(), ActiveRecipe::none());
    assert_eq!(data.starting_recipe().recipe_id(), None);
    let recipe = ActiveRecipe::new(RecipeId::from_name("brew"));
    data.kind = StructureKind::Crafting { starting_recipe: recipe };
    assert_eq!(data.starting_recipe(), recipe);
    data.kind = StructureKind::Storage { max_slot_count: 3, reserved_for: None };
    assert_eq!(data.starting_recipe(), ActiveRecipe { recipe_id: None });
}

#[test]
fn kinds_are_read_from_their_names() {
    assert_eq!(
        StructureKind::from(RawStructureKind::Storage {
            max_slot_count: 4,
            reserved_for: Some("leaf".to_string())
        }),
        StructureKind::Storage { max_slot_count: 4, reserved_for: Some(ItemId::from_name("leaf")) }
    );
    assert_eq!(
        StructureKind::from(RawStructureKind::Storage { max_slot_count: 0, reserved_for: None }),
        StructureKind::Storage { max_slot_count: 0, reserved_for: None }
    );
    assert_eq!(
        StructureKind::from(RawStructureKind::Crafting {
            starting_recipe: RawActiveRecipe { recipe_id: Some("brew".to_string()) }
        }),
        StructureKind::Crafting { starting_recipe: ActiveRecipe::new(RecipeId::from_name("brew")) }
    );
    assert_eq!(
        StructureKind::from(RawStructureKind::Crafting {
            starting_recipe: RawActiveRecipe { recipe_id: None }
        }),
        StructureKind::Crafting { starting_recipe: ActiveRecipe::none() }
    );
    assert_eq!(StructureKind::from(RawStructureKind::Path), StructureKind::Path);
    assert_eq!(StructureKind::from(RawStructureKind::Landmark), StructureKind::Landmark);
    assert_eq!(StructureKind::from(RawStructureKind::Releaser), StructureKind::Releaser);
    assert_eq!(StructureKind::from(RawStructureKind::Absorber), StructureKind::Absorber);
    assert_eq!(StructureKind::from_raw(&RawStructureKind::Absorber), StructureKind::Absorber);
}

#[test]
fn structure_data_is_read_from_what_a_file_states() {
    let stated = RawStructureData {
        organism_variety: Some(RawOrganismVariety {
            prototypical_form: RawOrganismId::Unit("ant".to_string()),
        }),
        kind: RawStructureKind::Releaser,
        construction_strategy: RawConstructionStrategy::Direct(RawConstructionData {
            work: Some(7),
            materials: vec![("leaf".to_string(), 2), ("twig".to_string(), 5)],
        }),
        vegetative_reproduction: Some(RawVegetativeReproduction { period: 30, energy_threshold: 9 }),
        max_workers: 2,
        footprint: Some(Footprint {
            set: vec![VoxelPos { hex: Hex { x: 1, y: 0 }, height: Height { value: 2 } }],
        }),
        root_zone: Some(RootZone { max_depth: Height { value: 3 }, radius: 1 }),
        can_walk_through: true,
        can_walk_on_roof: true,
    };
    let data = StructureData::from(stated);
    assert_eq!(
        data.organism_variety,
        Some(OrganismVariety { prototypical_form: OrganismId::Unit(UnitId::from_name("ant")) })
    );
    assert_eq!(data.kind, StructureKind::Releaser);
    match &data.construction_strategy {
        ConstructionStrategy::Direct(construction) => {
            assert_eq!(construction.work, Some(7));
            assert_eq!(
                construction.materials,
                vec![
                    ItemCount::new(ItemId::from_name("leaf"), 2),
                    ItemCount::new(ItemId::from_name("twig"), 5)
                ]
            );
        }
        _ => panic!("the structure is built as it is"),
    }
    assert_eq!(
        data.vegetative_reproduction,
        Some(VegetativeReproduction { period: 30, energy_threshold: 9 })
    );
    assert_eq!(data.max_workers, 2);
    assert_eq!(data.footprint.max_height(), Height { value: 2 });
    assert_eq!(data.root_zone, Some(RootZone { max_depth: Height { value: 3 }, radius: 1 }));
    assert!(data.can_walk_through);
    assert!(data.can_walk_on_roof);

    let plain = StructureData::from(raw(
        RawStructureKind::Path,
        RawConstructionStrategy::Seedling("sprout".to_string()),
    ));
    assert!(plain.organism_variety.is_none());
    assert_eq!(plain.footprint.set, vec![VoxelPos::zero()]);
    assert!(matches!(
        plain.construction_strategy,
        ConstructionStrategy::Seedling(id) if id == StructureId::from_name("sprout")
    ));
    assert_eq!(plain.max_workers, 3);
    assert!(!plain.can_walk_through);
    let mark = StructureData::from_raw(&raw(RawStructureKind::Landmark, RawConstructionStrategy::Landmark));
    assert!(matches!(mark.construction_strategy, ConstructionStrategy::Landmark));
    assert_eq!(ConstructionData::default().work, None);
}

#[test]
fn manifest_holds_what_was_inserted() {
    let mut manifest = StructureManifest::new();
    let tree = StructureId::from_name("tree");
    assert!(!manifest.contains(tree));
    manifest.insert("tree".to_string(), built_with(4, 3));
    assert!(manifest.contains(tree));
    assert!(!manifest.contains(StructureId::from_name("bush")));
    assert_eq!(manifest.name(tree), "tree");
    assert_eq!(manifest.get(tree).footprint.max_height(), Height { value: 3 });
    // A second entry under the same name takes the place of the first.
    manifest.insert("tree".to_string(), built_with(9, 5));
    assert_eq!(manifest.get(tree).footprint.max_height(), Height { value: 5 });
    assert_eq!(manifest.prototypes(), vec![tree]);
}

#[test]
fn construction_goes_by_the_seedling() {
    let mut manifest = StructureManifest::new();
    manifest.insert("tree".to_string(), seedling_of("sapling"));
    manifest.insert("sapling".to_string(), seedling_of("sprout"));
    manifest.insert("sprout".to_string(), built_with(4, 1));
    manifest.insert("rock".to_string(), landmark());
    let tree = StructureId::from_name("tree");
    let sprout = StructureId::from_name("sprout");
    let rock = StructureId::from_name("rock");

    assert_eq!(manifest.initial_form(tree), Some(sprout));
    assert_eq!(manifest.initial_form(sprout), Some(sprout));
    assert_eq!(manifest.initial_form(rock), Some(rock));
    let data = manifest.construction_data(tree).unwrap();
    assert_eq!(data.work, Some(4));
    assert_eq!(data.materials, vec![ItemCount::new(ItemId::from_name("leaf"), 2)]);
    assert_eq!(manifest.construction_data(sprout).unwrap().work, Some(4));
    assert!(manifest.construction_data(rock).is_none());
    assert_eq!(manifest.footprint(tree).max_height(), Height { value: 1 });
    assert_eq!(manifest.footprint(rock).set, vec![VoxelPos::zero()]);
}

#[test]
fn seedlings_that_lead_nowhere_have_no_initial_form() {
    let mut manifest = StructureManifest::new();
    manifest.insert("egg".to_string(), seedling_of("hen"));
    manifest.insert("hen".to_string(), seedling_of("egg"));
    manifest.insert("orphan".to_string(), seedling_of("nobody"));
    assert_eq!(manifest.initial_form(StructureId::from_name("egg")), None);
    assert_eq!(manifest.initial_form(StructureId::from_name("hen")), None);
    assert_eq!(manifest.initial_form(StructureId::from_name("orphan")), None);
    assert_eq!(manifest.initial_form(StructureId::from_name("nobody")), None);
}

#[test]
fn prototypes_are_own_forms_that_are_no_landmarks() {
    let mut manifest = StructureManifest::new();
    manifest.insert("path".to_string(), StructureData::passable());
    manifest.insert("acacia".to_string(), StructureData::organism("acacia"));
    // A sprout that is shown to the player as the grown acacia.
    manifest.insert("acacia_sprout".to_string(), StructureData::organism("acacia"));
    manifest.insert("rock".to_string(), landmark());

    let path = StructureId::from_name("path");
    let acacia = StructureId::from_name("acacia");
    assert!(manifest.is_prototype(path.value));
    assert!(manifest.is_prototype(acacia.value));
    assert!(!manifest.is_prototype(name_hash("acacia_sprout")));
    assert!(!manifest.is_prototype(name_hash("rock")));
    assert!(!manifest.is_prototype(name_hash("missing")));

    let mut prototypes = manifest.prototypes();
    prototypes.sort_by_key(|id| id.value);
    let mut expected = vec![path, acacia];
    expected.sort_by_key(|id| id.value);
    assert_eq!(prototypes, expected);

    let mut names = manifest.prototype_names();
    names.sort();
    assert_eq!(names, vec!["acacia", "path"]);

    let keys = vec![name_hash("rock"), acacia.value, name_hash("missing"), path.value, acacia.value];
    assert_eq!(manifest.prototypes_among(&keys), vec![acacia, path, acacia]);
    assert_eq!(manifest.names_of(&vec![path, acacia, path]), vec!["path", "acacia", "path"]);
}

#[test]
fn raw_manifest_is_processed_entry_by_entry() {
    let mut stated = RawStructureManifest::new();
    assert!(stated.process().prototypes().is_empty());
    stated.insert(
        "storage".to_string(),
        raw(
            RawStructureKind::Storage { max_slot_count: 2, reserved_for: Some("leaf".to_string()) },
            RawConstructionStrategy::Direct(RawConstructionData { work: None, materials: vec![] }),
        ),
    );
    stated.insert(
        "big_storage".to_string(),
        raw(
            RawStructureKind::Storage { max_slot_count: 9, reserved_for: None },
            RawConstructionStrategy::Seedling("storage".to_string()),
        ),
    );
    // Stated twice: the second takes the place of the first.
    stated.insert("spring".to_string(), raw(RawStructureKind::Path, RawConstructionStrategy::Landmark));
    stated.insert("spring".to_string(), raw(RawStructureKind::Landmark, RawConstructionStrategy::Landmark));

    let mut stated_names: Vec<String> =
        stated.entries().into_iter().map(|(name, _)| name.clone()).collect();
    stated_names.sort();
    assert_eq!(stated_names, vec!["big_storage", "spring", "storage"]);

    let manifest = stated.process();
    let storage = StructureId::from_name("storage");
    let big_storage = StructureId::from_name("big_storage");
    let spring = StructureId::from_name("spring");
    assert!(manifest.contains(storage));
    assert!(manifest.contains(big_storage));
    assert!(manifest.contains(spring));
    assert!(!manifest.contains(StructureId::from_name("path")));
    assert_eq!(manifest.name(big_storage), "big_storage");
    assert_eq!(
        manifest.get(storage).kind,
        StructureKind::Storage { max_slot_count: 2, reserved_for: Some(ItemId::from_name("leaf")) }
    );
    assert_eq!(manifest.get(storage).max_workers, 3);
    assert!(manifest.get(storage).can_walk_on_roof);
    assert_eq!(manifest.get(spring).kind, StructureKind::Landmark);
    assert_eq!(manifest.initial_form(big_storage), Some(storage));
    assert!(manifest.construction_data(big_storage).unwrap().materials.is_empty());
    let mut names = manifest.prototype_names();
    names.sort();
    assert_eq!(names, vec!["big_storage", "storage"]);

    let first = ("hut".to_string(), raw(RawStructureKind::Path, RawConstructionStrategy::Landmark));
    let second = ("hut".to_string(), raw(RawStructureKind::Releaser, RawConstructionStrategy::Landmark));
    let in_order = StructureManifest::from_entries(&vec![(&first.0, &first.1), (&second.0, &second.1)]);
    assert_eq!(in_order.get(StructureId::from_name("hut")).kind, StructureKind::Releaser);
}

#[test]
fn default_keys() {
    assert_eq!(
        ZoningAction::default_input_map(),
        vec![
            (ZoningKey::Q, ZoningAction::Pipette),
            (ZoningKey::Space, ZoningAction::Zone),
            (ZoningKey::Back, ZoningAction::ClearSelection),
            (ZoningKey::Delete, ZoningAction::ClearSelection),
        ]
    );
}

#[test]
fn picking_a_structure() {
    let ant = OrganismId::Unit(UnitId::from_name("ant"));
    let tree = OrganismId::Structure(StructureId::from_name("tree"));
    let bush = OrganismId::Structure(StructureId::from_name("bush"));
    let here = TilePos { x: 2, y: 5 };
    let there = TilePos { x: 5, y: 2 };
    let structures = vec![(there, ant), (here, tree), (here, bush)];
    let mut selected = SelectedStructure::default();
    assert_eq!(selected.maybe_structure, None);

    // The first structure on the tile is picked.
    set_selected_structure(&vec![ZoningAction::Pipette], &mut selected, Some(here), &structures);
    assert_eq!(selected.maybe_structure, Some(tree));
    // Other keys leave the choice alone.
    set_selected_structure(&vec![ZoningAction::Zone], &mut selected, Some(there), &structures);
    assert_eq!(selected.maybe_structure, Some(tree));
    set_selected_structure(&vec![], &mut selected, Some(there), &structures);
    assert_eq!(selected.maybe_structure, Some(tree));
    set_selected_structure(&vec![ZoningAction::Pipette], &mut selected, Some(there), &structures);
    assert_eq!(selected.maybe_structure, Some(ant));
    // The pipette on a tile without a structure picks nothing.
    set_selected_structure(&vec![ZoningAction::Pipette], &mut selected, Some(TilePos { x: 0, y: 0 }), &structures);
    assert_eq!(selected.maybe_structure, None);
    selected.maybe_structure = Some(bush);
    set_selected_structure(&vec![ZoningAction::Pipette], &mut selected, None, &structures);
    assert_eq!(selected.maybe_structure, None);
    // Clearing wins over picking.
    selected.maybe_structure = Some(bush);
    set_selected_structure(
        &vec![ZoningAction::Pipette, ZoningAction::ClearSelection],
        &mut selected,
        Some(here),
        &structures,
    );
    assert_eq!(selected.maybe_structure, None);
    assert!(is_pressed(&vec![ZoningAction::Zone, ZoningAction::Pipette], ZoningAction::Pipette));
    assert!(!is_pressed(&vec![ZoningAction::Zone], ZoningAction::Pipette));
}
