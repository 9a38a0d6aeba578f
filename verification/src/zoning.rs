//! Choosing a structure to place: what the player's keys mean, and which
//! structure they pick.

use crate::organisms::OrganismId;
use vstd::prelude::*;

verus! {

/// A tile of the map as the cursor sees it.
#[derive(Clone, Copy, Debug, PartialEq, Eq, Structural, Hash)]
pub struct TilePos {
    pub x: u32,
    pub y: u32,
}

/// Which organism the player has picked, if any.
#[derive(Clone, Copy, Debug, PartialEq, Eq, Structural)]
pub struct SelectedStructure {
    /// The organism that is picked.
    pub maybe_structure: Option<OrganismId>,
}

impl Default for SelectedStructure {
    fn default() -> (selected: Self)
        ensures
            selected.maybe_structure == None::<OrganismId>,
    {
        SelectedStructure { maybe_structure: None }
    }
}

/// What the player can do to pick and place structures.
#[derive(Clone, Copy, Debug, PartialEq, Eq, Structural, Hash)]
pub enum ZoningAction {
    /// Picks the structure on the tile under the cursor; where there is none,
    /// nothing is picked any more.
    Pipette,
    /// Picks nothing.
    ClearSelection,
    /// Marks every chosen tile for the structure that is picked.
    Zone,
}

/// The keys that the actions are bound to.
#[derive(Clone, Copy, Debug, PartialEq, Eq, Structural, Hash)]
pub enum ZoningKey {
    Q,
    Space,
    Back,
    Delete,
}

impl ZoningAction {
    /// The keys and what each of them does, unless the player binds them anew.
    pub fn default_input_map() -> (bindings: Vec<(ZoningKey, ZoningAction)>)
        ensures
            bindings@ == seq![
                (ZoningKey::Q, ZoningAction::Pipette),
                (ZoningKey::Space, ZoningAction::Zone),
                (ZoningKey::Back, ZoningAction::ClearSelection),
                (ZoningKey::Delete, ZoningAction::ClearSelection),
            ],
    {
        vec![
            (ZoningKey::Q, ZoningAction::Pipette),
            (ZoningKey::Space, ZoningAction::Zone),
            (ZoningKey::Back, ZoningAction::ClearSelection),
            (ZoningKey::Delete, ZoningAction::ClearSelection),
        ]
    }
}

/// The first of the structures from index `from` on that stands on the tile
/// under the cursor.
pub open spec fn structure_under_cursor(
    structures: Seq<(TilePos, OrganismId)>,
    cursor_pos: Option<TilePos>,
    from: int,
) -> Option<OrganismId>
    decreases structures.len() - from,
{
    if from < 0 || from >= structures.len() {
        None
    } else if Some(structures[from].0) == cursor_pos {
        Some(structures[from].1)
    } else {
        structure_under_cursor(structures, cursor_pos, from + 1)
    }
}

/// What is picked after the keys in `just_pressed` went down: nothing after
/// the key that clears; else, after the pipette, the structure under the
/// cursor; else what was picked before.
pub open spec fn selected_after(
    before: Option<OrganismId>,
    just_pressed: Seq<ZoningAction>,
    cursor_pos: Option<TilePos>,
    structures: Seq<(TilePos, OrganismId)>,
) -> Option<OrganismId> {
    if just_pressed.contains(ZoningAction::ClearSelection) {
        None
    } else if just_pressed.contains(ZoningAction::Pipette) {
        structure_under_cursor(structures, cursor_pos, 0)
    } else {
        before
    }
}

/// Whether `action` is one of `actions`.
pub fn is_pressed(actions: &Vec<ZoningAction>, action: ZoningAction) -> (pressed: bool)
    ensures
        pressed == actions@.contains(action),
{
    let mut i: usize = 0;
    while i < actions.len()
        invariant
            i <= actions.len(),
            forall|j: int| 0 <= j < i ==> actions@[j] != action,
        decreases actions.len() - i,
    {
        if actions[i] == action {
            assert(actions@[i as int] == action);
            return true;
        }
        i += 1;
    }
    false
}

/// Sets which structure the player has picked.
pub fn set_selected_structure(
    just_pressed: &Vec<ZoningAction>,
    selected_structure: &mut SelectedStructure,
    cursor_pos: Option<TilePos>,
    structures: &Vec<(TilePos, OrganismId)>,
)
    ensures
        final(selected_structure).maybe_structure == selected_after(
            old(selected_structure).maybe_structure,
            just_pressed@,
            cursor_pos,
            structures@,
        ),
{
    // Clearing comes before picking, where both keys went down at once.
    if is_pressed(just_pressed, ZoningAction::ClearSelection) {
        selected_structure.maybe_structure = None;
    } else if is_pressed(just_pressed, ZoningAction::Pipette) {
        let mut structure_under_cursor: Option<OrganismId> = None;
        let mut i: usize = 0;
        while i < structures.len()
            invariant_except_break
                i <= structures.len(),
                structure_under_cursor is None,
                self::structure_under_cursor(structures@, cursor_pos, 0)
                    == self::structure_under_cursor(structures@, cursor_pos, i as int),
            ensures
                structure_under_cursor == self::structure_under_cursor(structures@, cursor_pos, 0),
            decreases structures.len() - i,
        {
            let tile_pos = structures[i].0;
            let organism_type = structures[i].1;
            let on_it = match cursor_pos {
                Some(pos) => pos == tile_pos,
                None => false,
            };
            if on_it {
                structure_under_cursor = Some(organism_type);
                break ;
            }
            i += 1;
        }
        selected_structure.maybe_structure = structure_under_cursor;
    }
}

} // verus!
