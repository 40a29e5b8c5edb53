use vstd::prelude::*;
use crate::memory::memory_addresses::TILE_DATA_ADDRESS;
use crate::memory::Memory;

verus! {

/// The number of tiles in the tile data.
pub const TILE_COUNT: usize = 256;

/// The number of bytes that describe one tile.
pub const TILE_BYTES: usize = 16;

/// A tile: eight rows of eight pixels, two bytes per row.
#[derive(Debug, Clone, Copy)]
pub struct Tile {
    /// The bytes of the tile as they are in video memory.
    pub data: [u8; 16],
}

impl Tile {
    /// The colour, from 0 to 3, of the pixel in column `x` of row `y`, both
    /// counted modulo eight. The first byte of a row holds the low bits of
    /// its colours, the second the high bits; bit 7 is the leftmost pixel.
    pub open spec fn spec_pixel(self, x: u8, y: u8) -> u8 {
        let low = self.data@[2 * (y % 8)];
        let high = self.data@[2 * (y % 8) + 1];
        let shift = (7 - x % 8) as u8;
        (((high >> shift) & 1) << 1) | ((low >> shift) & 1)
    }

    /// A tile from its bytes.
    pub fn new(data: [u8; 16]) -> (tile: Tile)
        ensures
            tile.data == data,
    {
        Tile { data }
    }

    /// The colour of a pixel of the tile.
    pub fn pixel(&self, x: u8, y: u8) -> (colour: u8)
        ensures
            colour == self.spec_pixel(x, y),
            colour < 4,
    {
        let row = (y % 8) as usize;
        let low = self.data[2 * row];
        let high = self.data[2 * row + 1];
        let shift = 7 - x % 8;
        assert((((high >> shift) & 1) << 1) | ((low >> shift) & 1) < 4) by (bit_vector);
        (((high >> shift) & 1) << 1) | ((low >> shift) & 1)
    }
}

/// The address of a byte of a tile in video memory.
pub open spec fn tile_byte_address(tile: int, byte: int) -> u16 {
    (TILE_DATA_ADDRESS + 16 * tile + byte) as u16
}

/// What can be read out of video memory.
pub trait VideoFeatures {
    /// The byte of video memory at an address.
    spec fn video_byte(&self, address: u16) -> u8;

    /// Parse the tile data into a vector of its 256 tiles.
    fn get_tile_data(&self) -> (tiles: Vec<Tile>)
        ensures
            tiles@.len() == TILE_COUNT,
            forall|tile: int, byte: int|
                0 <= tile < TILE_COUNT && 0 <= byte < TILE_BYTES ==> #[trigger] tiles@[tile].data@[byte]
                    == self.video_byte(tile_byte_address(tile, byte)),
    ;
}

impl VideoFeatures for Memory {
    open spec fn video_byte(&self, address: u16) -> u8 {
        self.byte(address)
    }

    fn get_tile_data(&self) -> (tiles: Vec<Tile>) {
        let mut tiles: Vec<Tile> = Vec::new();
        let mut tile: usize = 0;
        while tile < TILE_COUNT
            invariant
                tile <= TILE_COUNT,
                tiles@.len() == tile,
                forall|t: int, b: int|
                    0 <= t < tile && 0 <= b < TILE_BYTES ==> #[trigger] tiles@[t].data@[b]
                        == self.byte(tile_byte_address(t, b)),
            decreases TILE_COUNT - tile,
        {
            let mut data = [0u8;16];
            let mut byte: usize = 0;
            while byte < TILE_BYTES
                invariant
                    tile < TILE_COUNT,
                    byte <= TILE_BYTES,
                    forall|b: int|
                        0 <= b < byte ==> #[trigger] data@[b] == self.byte(
                            tile_byte_address(tile as int, b),
                        ),
                decreases TILE_BYTES - byte,
            {
                let address = (TILE_DATA_ADDRESS as usize + 16 * tile + byte) as u16;
                data[byte] = self.get(address);
                byte = byte + 1;
            }
            tiles.push(Tile { data });
            tile = tile + 1;
        }
        tiles
    }
}

} // verus!
