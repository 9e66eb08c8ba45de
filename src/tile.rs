use vstd::prelude::*;

verus! {

/// Number of tiles in video RAM.
pub const NUM_TILES: usize = 384;

/// Bytes per tile: eight rows of two bytes.
pub const TILE_SIZE: usize = 16;

/// Bytes of tile data in video RAM.
pub const TILE_DATA_SIZE: usize = 0x1800;

/// Entries of a 32 x 32 tile map.
pub const TILE_MAP_SIZE: usize = 1024;

/// A two-bit colour index.
#[derive(Debug, Clone, Copy, PartialEq, Eq, Structural)]
pub enum Pixel {
    Color0,
    Color1,
    Color2,
    Color3,
}

pub open spec fn pixel_of(v: int) -> Pixel {
    if v == 0 {
        Pixel::Color0
    } else if v == 1 {
        Pixel::Color1
    } else if v == 2 {
        Pixel::Color2
    } else {
        Pixel::Color3
    }
}

pub open spec fn pixel_value(p: Pixel) -> u8 {
    match p {
        Pixel::Color0 => 0,
        Pixel::Color1 => 1,
        Pixel::Color2 => 2,
        Pixel::Color3 => 3,
    }
}

impl Default for Pixel {
    fn default() -> (r: Self)
        ensures
            r == Pixel::Color0,
    {
        Pixel::Color0
    }
}

impl Pixel {
    pub fn from_bits(v: u8) -> (r: Self)
        requires
            v < 4,
        ensures
            r == pixel_of(v as int),
    {
        if v == 0 {
            Pixel::Color0
        } else if v == 1 {
            Pixel::Color1
        } else if v == 2 {
            Pixel::Color2
        } else {
            Pixel::Color3
        }
    }

    pub fn value(self) -> (r: u8)
        ensures
            r == pixel_value(self),
    {
        match self {
            Pixel::Color0 => 0,
            Pixel::Color1 => 1,
            Pixel::Color2 => 2,
            Pixel::Color3 => 3,
        }
    }
}

/// The colour of pixel `index` (0 = leftmost) of a row whose low-bit plane
/// is `lo` and high-bit plane is `hi`.
pub open spec fn row_pixel(lo: u8, hi: u8, index: int) -> Pixel {
    let bit = (7 - index) as u8;
    pixel_of(
        (if (hi >> bit) & 1 != 0 {
            2int
        } else {
            0
        }) + (if (lo >> bit) & 1 != 0 {
            1int
        } else {
            0
        }),
    )
}

/// One row of a tile: the low-bit plane, then the high-bit plane.
#[derive(Debug, Clone, Copy)]
pub struct TileRow {
    pub bytes: [u8; 2],
}

impl Default for TileRow {
    fn default() -> (r: Self)
        ensures
            r.bytes@ == seq![0u8, 0u8],
    {
        TileRow { bytes: [0, 0] }
    }
}

impl TileRow {
    pub fn get_pixel(&self, index: u8) -> (r: Pixel)
        requires
            index < 8,
        ensures
            r == row_pixel(self.bytes@[0], self.bytes@[1], index as int),
    {
        let bit = 7 - index;
        let hi: u8 = if (self.bytes[1] >> bit) & 1 != 0 {
            2
        } else {
            0
        };
        let lo: u8 = if (self.bytes[0] >> bit) & 1 != 0 {
            1
        } else {
            0
        };
        Pixel::from_bits(hi + lo)
    }
}

/// An 8 x 8 tile.
#[derive(Debug, Clone, Copy)]
pub struct Tile {
    pub rows: [TileRow; 8],
}

impl Tile {
    /// Byte `address` of the tile's 16 bytes.
    pub fn get_byte(&self, address: u16) -> (r: u8)
        requires
            address < 16,
        ensures
            r == self.rows@[address as int / 2].bytes@[address as int % 2],
    {
        self.rows[(address / 2) as usize].bytes[(address % 2) as usize]
    }

    /// Writes byte `address` of the tile's 16 bytes.
    pub fn set_byte(&mut self, address: u16, value: u8)
        requires
            address < 16,
        ensures
            forall|k: int|
                0 <= k < 16 ==> #[trigger] final(self).rows@[k / 2].bytes@[k % 2] == if k == address {
                    value
                } else {
                    old(self).rows@[k / 2].bytes@[k % 2]
                },
    {
        self.rows[(address / 2) as usize].bytes[(address % 2) as usize] = value;
    }

    /// The pixel at `x` of row `y`.
    pub fn get_pixel(&self, y: usize, x: u8) -> (r: Pixel)
        requires
            y < 8,
            x < 8,
        ensures
            r == row_pixel(self.rows@[y as int].bytes@[0], self.rows@[y as int].bytes@[1], x as int),
    {
        self.rows[y].get_pixel(x)
    }
}

/// A 32 x 32 map of tile numbers.
#[derive(Debug, Clone)]
pub struct TileMap {
    pub tiles: Vec<u8>,
}

impl TileMap {
    pub open spec fn wf(&self) -> bool {
        self.tiles@.len() == TILE_MAP_SIZE
    }

    pub fn new() -> (r: Self)
        ensures
            r.wf(),
            forall|i: int| 0 <= i < TILE_MAP_SIZE ==> r.tiles@[i] == 0,
    {
        TileMap { tiles: zeros(TILE_MAP_SIZE) }
    }

    pub fn get_byte(&self, address: u16) -> (r: u8)
        requires
            self.wf(),
            address < 1024,
        ensures
            r == self.tiles@[address as int],
    {
        self.tiles[address as usize]
    }

    pub fn set_byte(&mut self, address: u16, value: u8)
        requires
            old(self).wf(),
            address < 1024,
        ensures
            final(self).tiles@ == old(self).tiles@.update(address as int, value),
    {
        self.tiles.set(address as usize, value);
    }
}

/// A vector of `n` zero bytes.
pub fn zeros(n: usize) -> (r: Vec<u8>)
    ensures
        r@.len() == n,
        forall|i: int| 0 <= i < n ==> r@[i] == 0,
{
    let mut v: Vec<u8> = Vec::new();
    let mut i: usize = 0;
    while i < n
        invariant
            i <= n,
            v@.len() == i,
            forall|j: int| 0 <= j < i ==> v@[j] == 0,
        decreases n - i,
    {
        v.push(0);
        i = i + 1;
    }
    v
}

/// The tile that number `n` selects: directly in the "8000" method, and
/// signed around tile 256 in the "8800" method.
pub open spec fn tile_index_of(tile_data_select: bool, n: u8) -> int {
    if tile_data_select {
        n as int
    } else if n < 128 {
        256 + n as int
    } else {
        n as int
    }
}

/// The 384 tiles of video RAM, as the 0x1800 bytes the bus sees.
#[derive(Debug, Clone)]
pub struct TileData {
    pub bytes: Vec<u8>,
}

impl TileData {
    pub open spec fn wf(&self) -> bool {
        self.bytes@.len() == TILE_DATA_SIZE
    }

    /// Whether `t` holds the 16 bytes of tile `index`.
    pub open spec fn holds_tile(&self, t: Tile, index: int) -> bool {
        forall|k: int|
            0 <= k < 16 ==> #[trigger] t.rows@[k / 2].bytes@[k % 2] == self.bytes@[index * 16 + k]
    }

    pub fn new() -> (r: Self)
        ensures
            r.wf(),
            forall|i: int| 0 <= i < TILE_DATA_SIZE ==> r.bytes@[i] == 0,
    {
        TileData { bytes: zeros(TILE_DATA_SIZE) }
    }

    pub fn tile_index(tile_data_select: bool, tile_number: u8) -> (r: usize)
        ensures
            r == tile_index_of(tile_data_select, tile_number),
            r < NUM_TILES,
    {
        if tile_data_select || tile_number >= 128 {
            tile_number as usize
        } else {
            256 + tile_number as usize
        }
    }

    /// The tile that `tile_number` selects under the addressing method.
    pub fn get_tile(&self, tile_data_select: bool, tile_number: u8) -> (r: Tile)
        requires
            self.wf(),
        ensures
            self.holds_tile(r, tile_index_of(tile_data_select, tile_number)),
    {
        let base = TileData::tile_index(tile_data_select, tile_number) * 16;
        let b = &self.bytes;
        let t = Tile {
            rows: [
                TileRow { bytes: [b[base], b[base + 1]] },
                TileRow { bytes: [b[base + 2], b[base + 3]] },
                TileRow { bytes: [b[base + 4], b[base + 5]] },
                TileRow { bytes: [b[base + 6], b[base + 7]] },
                TileRow { bytes: [b[base + 8], b[base + 9]] },
                TileRow { bytes: [b[base + 10], b[base + 11]] },
                TileRow { bytes: [b[base + 12], b[base + 13]] },
                TileRow { bytes: [b[base + 14], b[base + 15]] },
            ],
        };
        assert forall|k: int| 0 <= k < 16 implies #[trigger] t.rows@[k / 2].bytes@[k % 2]
            == self.bytes@[base + k] by {
            if k == 0 {} else if k == 1 {} else if k == 2 {} else if k == 3 {} else if k == 4 {
            } else if k == 5 {} else if k == 6 {} else if k == 7 {} else if k == 8 {} else if k
                == 9 {} else if k == 10 {} else if k == 11 {} else if k == 12 {} else if k
                == 13 {} else if k == 14 {} else {}
        }
        t
    }

    /// The pixel at (`x`, `y`) of the tile that `tile_number` selects.
    pub fn pixel(&self, tile_data_select: bool, tile_number: u8, y: u8, x: u8) -> (r: Pixel)
        requires
            self.wf(),
            y < 8,
            x < 8,
        ensures
            r == row_pixel(
                self.bytes@[tile_index_of(tile_data_select, tile_number) * 16 + 2 * y],
                self.bytes@[tile_index_of(tile_data_select, tile_number) * 16 + 2 * y + 1],
                x as int,
            ),
    {
        let base = TileData::tile_index(tile_data_select, tile_number) * 16 + 2 * (y as usize);
        let row = TileRow { bytes: [self.bytes[base], self.bytes[base + 1]] };
        row.get_pixel(x)
    }

    pub fn get_byte(&self, address: u16) -> (r: u8)
        requires
            self.wf(),
            address < 0x1800,
        ensures
            r == self.bytes@[address as int],
    {
        self.bytes[address as usize]
    }

    pub fn set_byte(&mut self, address: u16, value: u8)
        requires
            old(self).wf(),
            address < 0x1800,
        ensures
            final(self).bytes@ == old(self).bytes@.update(address as int, value),
    {
        self.bytes.set(address as usize, value);
    }
}

} // verus!
