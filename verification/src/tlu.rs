use vstd::prelude::*;

use crate::lcd::LCDC_ADDRESS;
use crate::palette::{spec_color_from_bits, Color};
use crate::ram::Ram;

verus! {

/// First address of the tile map the background is drawn from.
pub const TILE_MAP_START: u16 = 0x9800;

/// The 2-bit colour index of one pixel of a tile row stored as the byte pair
/// `(lo, hi)`: bit `7 - col` of `hi` above bit `7 - col` of `lo`.
pub open spec fn spec_pixel_bits(lo: u8, hi: u8, col: u8) -> u8 {
    ((((hi >> ((7 - col) as u8)) & 1) << 1) + ((lo >> ((7 - col) as u8)) & 1)) as u8
}

/// The low bitplane byte rebuilt from the eight 2-bit pixels of a row.
pub open spec fn spec_encode_low_plane(
    p0: u8,
    p1: u8,
    p2: u8,
    p3: u8,
    p4: u8,
    p5: u8,
    p6: u8,
    p7: u8,
) -> u8 {
    ((p0 & 1) << 7) | ((p1 & 1) << 6) | ((p2 & 1) << 5) | ((p3 & 1) << 4) | ((p4 & 1) << 3) | ((p5
        & 1) << 2) | ((p6 & 1) << 1) | (p7 & 1)
}

/// The high bitplane byte rebuilt from the eight 2-bit pixels of a row.
pub open spec fn spec_encode_high_plane(
    p0: u8,
    p1: u8,
    p2: u8,
    p3: u8,
    p4: u8,
    p5: u8,
    p6: u8,
    p7: u8,
) -> u8 {
    (((p0 >> 1) & 1) << 7) | (((p1 >> 1) & 1) << 6) | (((p2 >> 1) & 1) << 5) | (((p3 >> 1) & 1)
        << 4) | (((p4 >> 1) & 1) << 3) | (((p5 >> 1) & 1) << 2) | (((p6 >> 1) & 1) << 1) | ((p7
        >> 1) & 1)
}

/// A pixel's colour index is two bits.
pub proof fn lemma_pixel_bits_bound()
    by (bit_vector)
    ensures
        forall|lo: u8, hi: u8, col: u8| col < 8 ==> #[trigger] spec_pixel_bits(lo, hi, col) < 4,
{
}

/// Tile decode round trip: a byte pair `(lo, hi)` decodes to eight 2-bit
/// values whose re-encoding reproduces `(lo, hi)` exactly.
pub proof fn lemma_tile_row_roundtrip(lo: u8, hi: u8)
    by (bit_vector)
    ensures
        spec_encode_low_plane(
            spec_pixel_bits(lo, hi, 0),
            spec_pixel_bits(lo, hi, 1),
            spec_pixel_bits(lo, hi, 2),
            spec_pixel_bits(lo, hi, 3),
            spec_pixel_bits(lo, hi, 4),
            spec_pixel_bits(lo, hi, 5),
            spec_pixel_bits(lo, hi, 6),
            spec_pixel_bits(lo, hi, 7),
        ) == lo,
        spec_encode_high_plane(
            spec_pixel_bits(lo, hi, 0),
            spec_pixel_bits(lo, hi, 1),
            spec_pixel_bits(lo, hi, 2),
            spec_pixel_bits(lo, hi, 3),
            spec_pixel_bits(lo, hi, 4),
            spec_pixel_bits(lo, hi, 5),
            spec_pixel_bits(lo, hi, 6),
            spec_pixel_bits(lo, hi, 7),
        ) == hi,
{
}

/// Where a tile's 16 bytes start: with LCDC bit 4 set, the index counts
/// unsigned from 0x8000; otherwise it counts signed around 0x9000.
pub open spec fn spec_tile_base(data: Seq<u8>, tile_index: u8) -> int {
    if data[LCDC_ADDRESS as int] & 0x10 != 0 {
        0x8000 + tile_index * 16
    } else {
        if tile_index >= 128 {
            0x9000 - (256 - tile_index) * 16
        } else {
            0x9000 + tile_index * 16
        }
    }
}

/// The 2-bit colour index at `(row, col)` of the tile whose bytes start at
/// `base`: each row is two bytes, low bitplane first.
pub open spec fn spec_tile_pixel(data: Seq<u8>, base: int, row: int, col: int) -> u8 {
    spec_pixel_bits(data[base + 2 * row], data[base + 2 * row + 1], col as u8)
}

/// The colour at `(row, col)` of the tile named by `tile_index` under the
/// current addressing mode.
pub open spec fn spec_tile_color(data: Seq<u8>, tile_index: u8, row: int, col: int) -> Color {
    spec_color_from_bits(spec_tile_pixel(data, spec_tile_base(data, tile_index), row, col))
}

/// The tile render unit's snapshot: all 256 tiles laid out as 8 rows of 32,
/// and the 32x32 background resolved through the tile map, both as pixel
/// grids of colour indices.
#[derive(Debug)]
pub struct TLUData {
    pub tile_data: Vec<Vec<Color>>,
    pub background_data: Vec<Vec<Color>>,
}

/// What a snapshot holds, pixel by pixel: the tile grid shows tile
/// `(row/8)*32 + col/8` of the decode table, the background shows the tile
/// the map at 0x9800 names for that cell.
pub open spec fn tlu_data_matches(data: Seq<u8>, r: TLUData) -> bool {
    &&& r.tile_data@.len() == 64
    &&& forall|i: int| 0 <= i < 64 ==> (#[trigger] r.tile_data@[i])@.len() == 256
    &&& forall|row: int, col: int|
        0 <= row < 64 && 0 <= col < 256 ==> #[trigger] r.tile_data@[row]@[col] == spec_tile_color(
            data,
            ((row / 8) * 32 + col / 8) as u8,
            row % 8,
            col % 8,
        )
    &&& r.background_data@.len() == 256
    &&& forall|i: int| 0 <= i < 256 ==> (#[trigger] r.background_data@[i])@.len() == 256
    &&& forall|row: int, col: int|
        0 <= row < 256 && 0 <= col < 256 ==> #[trigger] r.background_data@[row]@[col]
            == spec_tile_color(
            data,
            data[TILE_MAP_START + (row / 8) * 32 + col / 8],
            row % 8,
            col % 8,
        )
}

/// The tile render unit.
pub struct TLU {}

impl TLU {
    /// Read one pixel's 2-bit colour index out of the tile starting at
    /// `base`.
    fn get_tile_pixel(ram: &Ram, base: u16, row: u16, col: u16) -> (r: u8)
        requires
            ram.wf(),
            base + 2 * row + 1 < crate::ram::RAM_SIZE,
            row < 8,
            col < 8,
        ensures
            r == spec_tile_pixel(ram@, base as int, row as int, col as int),
            r < 4,
    {
        proof {
            lemma_pixel_bits_bound();
        }
        let lo = ram.read(base + 2 * row);
        let hi = ram.read(base + 2 * row + 1);
        let sh = (7 - col) as u8;

        proof {
            assert((((hi >> sh) & 1) << 1) + ((lo >> sh) & 1) < 4) by (bit_vector);
        }
        (((hi >> sh) & 1) << 1) + ((lo >> sh) & 1)
    }

    /// Where the named tile's bytes start under the current addressing mode.
    fn get_tile_base(ram: &Ram, tile_index: u8) -> (r: u16)
        requires
            ram.wf(),
        ensures
            r == spec_tile_base(ram@, tile_index),
            0x8000 <= r <= 0x97F0,
    {
        let lcdc = ram.read(crate::lcd::LCDC_ADDRESS);
        if lcdc & 0x10 != 0 {
            0x8000 + (tile_index as u16) * 16
        } else {
            if tile_index >= 128 {
                0x9000 - (256 - (tile_index as u16)) * 16
            } else {
                0x9000 + (tile_index as u16) * 16
            }
        }
    }

    /// The colour at `(row, col)` of the tile named by `tile_index`.
    fn get_tile_color(ram: &Ram, tile_index: u8, row: u16, col: u16) -> (r: Color)
        requires
            ram.wf(),
            row < 8,
            col < 8,
        ensures
            r == spec_tile_color(ram@, tile_index, row as int, col as int),
    {
        let base = TLU::get_tile_base(ram, tile_index);
        let bits = TLU::get_tile_pixel(ram, base, row, col);
        Color::from_bits(bits)
    }

    /// Snapshot the decode table and the background into pixel grids.
    pub fn update(&self, ram: &Ram) -> (r: TLUData)
        requires
            ram.wf(),
        ensures
            tlu_data_matches(ram@, r),
    {
        let mut tile_data: Vec<Vec<Color>> = Vec::new();
        let mut row: usize = 0;
        while row < 64
            invariant
                ram.wf(),
                row <= 64,
                tile_data@.len() == row,
                forall|i: int| 0 <= i < row ==> (#[trigger] tile_data@[i])@.len() == 256,
                forall|i: int, j: int|
                    0 <= i < row && 0 <= j < 256 ==> #[trigger] tile_data@[i]@[j]
                        == spec_tile_color(
                        ram@,
                        ((i / 8) * 32 + j / 8) as u8,
                        i % 8,
                        j % 8,
                    ),
            decreases 64 - row,
        {
            let mut line: Vec<Color> = Vec::new();
            let mut col: usize = 0;
            while col < 256
                invariant
                    ram.wf(),
                    row < 64,
                    col <= 256,
                    line@.len() == col,
                    forall|j: int|
                        0 <= j < col ==> #[trigger] line@[j] == spec_tile_color(
                            ram@,
                            ((row / 8) * 32 + j / 8) as u8,
                            row as int % 8,
                            j % 8,
                        ),
                decreases 256 - col,
            {
                let tile_index = ((row / 8) * 32 + col / 8) as u8;
                let color = TLU::get_tile_color(ram, tile_index, (row % 8) as u16, (col % 8) as u16);
                line.push(color);
                col += 1;
            }
            tile_data.push(line);
            row += 1;
        }

        let mut background_data: Vec<Vec<Color>> = Vec::new();
        let mut row: usize = 0;
        while row < 256
            invariant
                ram.wf(),
                row <= 256,
                background_data@.len() == row,
                forall|i: int| 0 <= i < row ==> (#[trigger] background_data@[i])@.len() == 256,
                forall|i: int, j: int|
                    0 <= i < row && 0 <= j < 256 ==> #[trigger] background_data@[i]@[j]
                        == spec_tile_color(
                        ram@,
                        ram@[TILE_MAP_START + (i / 8) * 32 + j / 8],
                        i % 8,
                        j % 8,
                    ),
            decreases 256 - row,
        {
            let mut line: Vec<Color> = Vec::new();
            let mut col: usize = 0;
            while col < 256
                invariant
                    ram.wf(),
                    row < 256,
                    col <= 256,
                    line@.len() == col,
                    forall|j: int|
                        0 <= j < col ==> #[trigger] line@[j] == spec_tile_color(
                            ram@,
                            ram@[TILE_MAP_START + (row / 8) * 32 + j / 8],
                            row as int % 8,
                            j % 8,
                        ),
                decreases 256 - col,
            {
                let map_cell = TILE_MAP_START + ((row / 8) * 32 + col / 8) as u16;
                let tile_index = ram.read(map_cell);
                let color = TLU::get_tile_color(ram, tile_index, (row % 8) as u16, (col % 8) as u16);
                line.push(color);
                col += 1;
            }
            background_data.push(line);
            row += 1;
        }

        TLUData { tile_data, background_data }
    }
}

} // verus!
