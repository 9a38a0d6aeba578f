//! Where things stand on the map: tiles of a hexagonal grid, stacked in height.

use vstd::prelude::*;

verus! {

/// A height on the map, in whole steps.
#[derive(Clone, Copy, Debug, PartialEq, Eq, Structural, Hash)]
pub struct Height {
    pub value: i32,
}

/// A tile of the hexagonal grid, in axial coordinates.
#[derive(Clone, Copy, Debug, PartialEq, Eq, Structural, Hash)]
pub struct Hex {
    pub x: i32,
    pub y: i32,
}

/// One of the six directions that lead from a tile to its neighbors.
#[derive(Clone, Copy, Debug, PartialEq, Eq, Structural, Hash)]
pub enum Direction {
    East,
    NorthEast,
    NorthWest,
    West,
    SouthWest,
    SouthEast,
}

impl Direction {
    /// The step along the first axis that this direction takes.
    pub open spec fn spec_dx(self) -> int {
        match self {
            Direction::East | Direction::NorthEast => 1,
            Direction::West | Direction::SouthWest => -1,
            Direction::NorthWest | Direction::SouthEast => 0,
        }
    }

    /// The step along the second axis that this direction takes.
    pub open spec fn spec_dy(self) -> int {
        match self {
            Direction::NorthEast | Direction::NorthWest => -1,
            Direction::SouthWest | Direction::SouthEast => 1,
            Direction::East | Direction::West => 0,
        }
    }

    /// The step along the first axis that this direction takes.
    pub fn dx(self) -> (dx: i32)
        ensures
            dx == self.spec_dx(),
    {
        match self {
            Direction::East | Direction::NorthEast => 1,
            Direction::West | Direction::SouthWest => -1,
            Direction::NorthWest | Direction::SouthEast => 0,
        }
    }

    /// The step along the second axis that this direction takes.
    pub fn dy(self) -> (dy: i32)
        ensures
            dy == self.spec_dy(),
    {
        match self {
            Direction::NorthEast | Direction::NorthWest => -1,
            Direction::SouthWest | Direction::SouthEast => 1,
            Direction::East | Direction::West => 0,
        }
    }
}

/// A place on the map: a tile, and a height above it.
#[derive(Clone, Copy, Debug, PartialEq, Eq, Structural, Hash)]
pub struct VoxelPos {
    pub hex: Hex,
    pub height: Height,
}

impl VoxelPos {
    /// Whether the place is far enough from the edge of the numbers for
    /// each of its neighbors to have coordinates.
    pub open spec fn spec_has_neighbors(&self) -> bool {
        &&& i32::MIN < self.hex.x < i32::MAX
        &&& i32::MIN < self.hex.y < i32::MAX
    }

    /// The place one step away in `direction`, at the same height.
    pub open spec fn spec_neighbor(&self, direction: Direction) -> VoxelPos {
        VoxelPos {
            hex: Hex {
                x: (self.hex.x + direction.spec_dx()) as i32,
                y: (self.hex.y + direction.spec_dy()) as i32,
            },
            height: self.height,
        }
    }

    /// Whether the place is far enough from the edge of the numbers for
    /// each of its neighbors to have coordinates.
    pub fn has_neighbors(&self) -> (inside: bool)
        ensures
            inside == self.spec_has_neighbors(),
    {
        i32::MIN < self.hex.x && self.hex.x < i32::MAX && i32::MIN < self.hex.y && self.hex.y
            < i32::MAX
    }

    /// The place at the origin of the map, on the ground.
    pub fn zero() -> (pos: Self)
        ensures
            pos == (VoxelPos { hex: Hex { x: 0, y: 0 }, height: Height { value: 0 } }),
    {
        VoxelPos { hex: Hex { x: 0, y: 0 }, height: Height { value: 0 } }
    }

    /// The place one step away in `direction`, at the same height.
    pub fn neighbor(&self, direction: Direction) -> (pos: VoxelPos)
        requires
            self.spec_has_neighbors(),
        ensures
            pos == self.spec_neighbor(direction),
            pos.hex.x == self.hex.x + direction.spec_dx(),
            pos.hex.y == self.hex.y + direction.spec_dy(),
    {
        VoxelPos {
            hex: Hex { x: self.hex.x + direction.dx(), y: self.hex.y + direction.dy() },
            height: self.height,
        }
    }
}

/// The direction that a structure faces.
#[derive(Clone, Copy, Debug, PartialEq, Eq, Structural, Hash)]
pub struct Facing {
    pub direction: Direction,
}

/// How much water stands on or under a tile.
#[derive(Clone, Copy, Debug, PartialEq, Eq, Structural)]
pub enum WaterDepth {
    /// No water at all.
    Dry,
    /// Water below the ground, at this depth.
    Underground(Height),
    /// Water above the ground, up to this height.
    Flooded(Height),
}

impl WaterDepth {
    /// How high the water stands above the ground; nothing where it does not flood.
    pub open spec fn spec_surface_water_depth(&self) -> Height {
        match self {
            WaterDepth::Flooded(height) => *height,
            _ => Height { value: 0 },
        }
    }

    /// How high the water stands above the ground; nothing where it does not flood.
    pub fn surface_water_depth(&self) -> (depth: Height)
        ensures
            depth == self.spec_surface_water_depth(),
    {
        match self {
            WaterDepth::Flooded(height) => *height,
            _ => Height { value: 0 },
        }
    }
}

/// The greatest height among the first `n` places, and 0 where there is none above the ground.
pub open spec fn max_height_before(set: Seq<VoxelPos>, n: int) -> int
    decreases n,
{
    if n <= 0 {
        0
    } else {
        let rest = max_height_before(set, n - 1);
        if set[n - 1].height.value > rest {
            set[n - 1].height.value as int
        } else {
            rest
        }
    }
}

/// The places that a structure takes up, as seen from where it stands.
#[derive(Debug)]
pub struct Footprint {
    pub set: Vec<VoxelPos>,
}

impl Clone for Footprint {
    fn clone(&self) -> (copy: Self)
        ensures
            copy.set@ == self.set@,
    {
        let mut set: Vec<VoxelPos> = Vec::new();
        let mut i: usize = 0;
        while i < self.set.len()
            invariant
                i <= self.set.len(),
                set@ == self.set@.take(i as int),
            decreases self.set.len() - i,
        {
            set.push(self.set[i]);
            assert(self.set@.take(i + 1) =~= self.set@.take(i as int).push(self.set@[i as int]));
            i += 1;
        }
        assert(self.set@.take(self.set@.len() as int) =~= self.set@);
        Footprint { set }
    }
}

impl Footprint {
    /// How high the structure reaches.
    pub open spec fn spec_max_height(&self) -> Height {
        Height { value: max_height_before(self.set@, self.set@.len() as int) as i32 }
    }

    /// The footprint of a structure that takes up the one place where it stands.
    pub fn single() -> (footprint: Self)
        ensures
            footprint.set@ == seq![VoxelPos { hex: Hex { x: 0, y: 0 }, height: Height { value: 0 } }],
    {
        Footprint { set: vec![VoxelPos::zero()] }
    }

    /// How high the structure reaches.
    pub fn max_height(&self) -> (height: Height)
        ensures
            height == self.spec_max_height(),
    {
        let mut highest: i32 = 0;
        let mut i: usize = 0;
        while i < self.set.len()
            invariant
                i <= self.set.len(),
                highest == max_height_before(self.set@, i as int),
            decreases self.set.len() - i,
        {
            if self.set[i].height.value > highest {
                highest = self.set[i].height.value;
            }
            i += 1;
        }
        Height { value: highest }
    }
}

impl Default for Footprint {
    fn default() -> (footprint: Self)
        ensures
            footprint.set@ == seq![VoxelPos { hex: Hex { x: 0, y: 0 }, height: Height { value: 0 } }],
    {
        Footprint::single()
    }
}

} // verus!
