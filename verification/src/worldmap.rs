//! The tile map: its fixed dimensions and the biome grid.
//!
//! The grid itself is filled from an external tile sheet; only the mapping
//! from a sheet field to a biome and the bookkeeping of the grid are rules of
//! this crate. Reading the sheet and drawing tiles stay with outside
//! collaborators.

use vstd::prelude::*;

verus! {

/// Side length of the square map, in tiles.
pub const MAPSIZE: usize = 64;

/// Side length of one tile, in world units.
pub const TILESIZE: usize = 32;

/// What occupies one tile of the map.
#[derive(Clone, Copy, PartialEq, Eq, Structural, Debug)]
pub enum Biome {
    Free,
    Wall,
    Grass,
    Camp,
}

/// The biome grid together with its dimensions.
pub struct WorldMap {
    pub map_size: usize,
    pub tile_size: usize,
    pub biome_map: Vec<Vec<Biome>>,
}

impl WorldMap {
    /// The grid is exactly `MAPSIZE` by `MAPSIZE`.
    pub open spec fn wf(&self) -> bool {
        &&& self.map_size == MAPSIZE
        &&& self.tile_size == TILESIZE
        &&& self.biome_map@.len() == MAPSIZE
        &&& forall|r: int|
            0 <= r < MAPSIZE ==> (#[trigger] self.biome_map@[r])@.len() == MAPSIZE
    }

    /// The biome stored at one grid cell.
    pub open spec fn biome_at(&self, row: int, col: int) -> Biome {
        self.biome_map@[row]@[col]
    }

    /// Builds the map with every tile free.
    pub fn new_free() -> (m: WorldMap)
        ensures
            m.wf(),
            forall|r: int, c: int|
                0 <= r < MAPSIZE && 0 <= c < MAPSIZE ==> #[trigger] m.biome_at(r, c)
                    == Biome::Free,
    {
        let mut biome_map: Vec<Vec<Biome>> = Vec::new();
        let mut r: usize = 0;
        while r < MAPSIZE
            invariant
                r <= MAPSIZE,
                biome_map@.len() == r,
                forall|t: int|
                    0 <= t < r ==> (#[trigger] biome_map@[t])@.len() == MAPSIZE,
                forall|t: int, c: int|
                    0 <= t < r && 0 <= c < MAPSIZE ==> #[trigger] (biome_map@[t]@[c])
                        == Biome::Free,
            decreases MAPSIZE - r,
        {
            let mut row: Vec<Biome> = Vec::new();
            let mut c: usize = 0;
            while c < MAPSIZE
                invariant
                    c <= MAPSIZE,
                    row@.len() == c,
                    forall|t: int| 0 <= t < c ==> row@[t] == Biome::Free,
                decreases MAPSIZE - c,
            {
                row.push(Biome::Free);
                c = c + 1;
            }
            biome_map.push(row);
            r = r + 1;
        }
        WorldMap { map_size: MAPSIZE, tile_size: TILESIZE, biome_map }
    }
}

/// ASCII code of the letter marking a free tile.
pub const FIELD_FREE: u8 = 70;

/// ASCII code of the letter marking a wall tile.
pub const FIELD_WALL: u8 = 87;

/// ASCII code of the letter marking a grass tile.
pub const FIELD_GRASS: u8 = 71;

/// ASCII code of the letter marking a camp tile.
pub const FIELD_CAMP: u8 = 67;

/// The biome a one-letter tile-sheet field stands for, or `None` for a field
/// this map does not know, which leaves the tile as it was.
pub open spec fn field_biome(field: Seq<u8>) -> Option<Biome> {
    if field == seq![FIELD_FREE] {
        Some(Biome::Free)
    } else if field == seq![FIELD_WALL] {
        Some(Biome::Wall)
    } else if field == seq![FIELD_GRASS] {
        Some(Biome::Grass)
    } else if field == seq![FIELD_CAMP] {
        Some(Biome::Camp)
    } else {
        None
    }
}

/// Maps one tile-sheet field to its biome.
pub fn biome_from_field(field: &Vec<u8>) -> (r: Option<Biome>)
    ensures
        r == field_biome(field@),
{
    proof {
        if field@.len() == 1 {
            assert(field@ =~= seq![field@[0]]);
        }
    }
    if field.len() == 1 {
        let b = field[0];
        if b == FIELD_FREE {
            Some(Biome::Free)
        } else if b == FIELD_WALL {
            Some(Biome::Wall)
        } else if b == FIELD_GRASS {
            Some(Biome::Grass)
        } else if b == FIELD_CAMP {
            Some(Biome::Camp)
        } else {
            None
        }
    } else {
        proof {
            assert(field@ != seq![FIELD_FREE]);
            assert(field@ != seq![FIELD_WALL]);
            assert(field@ != seq![FIELD_GRASS]);
            assert(field@ != seq![FIELD_CAMP]);
        }
        None
    }
}

/// Stores `b` at tile `(row, col)`, leaving every other tile as it was.
fn set_tile(map: &mut WorldMap, row: usize, col: usize, b: Biome)
    requires
        old(map).wf(),
        row < MAPSIZE,
        col < MAPSIZE,
    ensures
        final(map).wf(),
        final(map).biome_at(row as int, col as int) == b,
        forall|r: int, c: int|
            0 <= r < MAPSIZE && 0 <= c < MAPSIZE && !(r == row && c == col)
                ==> #[trigger] final(map).biome_at(r, c) == old(map).biome_at(r, c),
{
    map.biome_map[row][col] = b;
}

/// Writes the biomes named by a sheet of records into the grid: record `r`,
/// field `c` addresses tile `(r, c)`; a field naming no biome leaves its tile
/// unchanged.
pub fn read_map(map: &mut WorldMap, records: &Vec<Vec<Vec<u8>>>)
    requires
        old(map).wf(),
        records@.len() <= MAPSIZE,
        forall|r: int|
            0 <= r < records@.len() ==> (#[trigger] records@[r])@.len() <= MAPSIZE,
    ensures
        final(map).wf(),
        forall|r: int, c: int|
            0 <= r < records@.len() && 0 <= c < records@[r]@.len()
                ==> #[trigger] final(map).biome_at(r, c) == match field_biome(
                records@[r]@[c]@,
            ) {
                Some(b) => b,
                None => old(map).biome_at(r, c),
            },
        forall|r: int, c: int|
            0 <= r < MAPSIZE && 0 <= c < MAPSIZE && !(0 <= r < records@.len() && 0 <= c
                < records@[r]@.len()) ==> #[trigger] final(map).biome_at(r, c) == old(
                map,
            ).biome_at(r, c),
{
    let nrows = records.len();
    let mut row: usize = 0;
    while row < nrows
        invariant
            row <= nrows,
            nrows == records@.len(),
            map.wf(),
            records@.len() <= MAPSIZE,
            forall|r: int|
                0 <= r < records@.len() ==> (#[trigger] records@[r])@.len() <= MAPSIZE,
            forall|r: int, c: int|
                0 <= r < row && 0 <= c < records@[r]@.len() ==> #[trigger] map.biome_at(
                    r,
                    c,
                ) == match field_biome(records@[r]@[c]@) {
                    Some(b) => b,
                    None => old(map).biome_at(r, c),
                },
            forall|r: int, c: int|
                0 <= r < MAPSIZE && 0 <= c < MAPSIZE && !(0 <= r < row && 0 <= c
                    < records@[r]@.len()) ==> #[trigger] map.biome_at(r, c) == old(
                    map,
                ).biome_at(r, c),
        decreases nrows - row,
    {
        let ncols = records[row].len();
        let mut col: usize = 0;
        while col < ncols
            invariant
                col <= ncols,
                row < nrows,
                nrows == records@.len(),
                ncols == records@[row as int]@.len(),
                map.wf(),
                records@.len() <= MAPSIZE,
                forall|r: int|
                    0 <= r < records@.len() ==> (#[trigger] records@[r])@.len()
                        <= MAPSIZE,
                forall|r: int, c: int|
                    0 <= r < row && 0 <= c < records@[r]@.len() ==> #[trigger] map.biome_at(
                        r,
                        c,
                    ) == match field_biome(records@[r]@[c]@) {
                        Some(b) => b,
                        None => old(map).biome_at(r, c),
                    },
                forall|c: int|
                    0 <= c < col ==> #[trigger] map.biome_at(row as int, c)
                        == match field_biome(records@[row as int]@[c]@) {
                        Some(b) => b,
                        None => old(map).biome_at(row as int, c),
                    },
                forall|r: int, c: int|
                    0 <= r < MAPSIZE && 0 <= c < MAPSIZE && !(0 <= r < row && 0 <= c
                        < records@[r]@.len()) && !(r == row && 0 <= c < col)
                        ==> #[trigger] map.biome_at(r, c) == old(map).biome_at(r, c),
            decreases ncols - col,
        {
            let record = &records[row];
            match biome_from_field(&record[col]) {
                Some(b) => {
                    set_tile(map, row, col, b);
                },
                None => {},
            }
            col = col + 1;
        }
        row = row + 1;
    }
}

/// True exactly when `x` lies in the closed interval from `lower` to `upper`.
pub fn is_between(x: &usize, lower: usize, upper: usize) -> (r: bool)
    ensures
        r == (lower <= *x <= upper),
{
    if *x <= upper && *x >= lower {
        true
    } else {
        false
    }
}

} // verus!
