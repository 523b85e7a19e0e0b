//! Video RAM: tile data (with its decoded rows), tile maps, CGB attribute
//! maps and the sprite attribute table (OAM) with its decoded sprites.
use vstd::prelude::*;
use super::LcdMode;
use crate::bits::lemma_u8_bits;
use crate::apu::duty::shift_div;

verus! {

/// Bytes of tile data per bank.
pub const TILESET_SIZE: usize = 0x1800;

/// Bytes of tile map (two 32x32 maps).
pub const TILEMAP_SIZE: usize = 0x800;

/// Tiles per bank.
pub const TILES_COUNT: usize = 0x180;

/// Bytes of OAM.
pub const OAM_SIZE: usize = 0xa0;

/// Sprites in OAM.
pub const SPRITE_COUNT: usize = 40;

/// Decoded tile rows per bank: two bytes of tile data per row.
pub const ROWS_PER_BANK: usize = 0xc00;

/// A two-bit pixel value of a tile.
#[derive(Clone, Copy, Debug, PartialEq, Eq, Structural)]
pub enum TileValue {
    B00,
    B01,
    B10,
    B11,
}

/// The pixel of column `x` (0 = leftmost) of a row given by its two bit planes.
pub open spec fn pixel(lo: u8, hi: u8, x: int) -> TileValue {
    let l = (lo as int / shift_div(7 - x)) % 2 == 1;
    let h = (hi as int / shift_div(7 - x)) % 2 == 1;
    if !h && !l {
        TileValue::B00
    } else if !h && l {
        TileValue::B01
    } else if h && !l {
        TileValue::B10
    } else {
        TileValue::B11
    }
}

fn decode_pixel(lo: u8, hi: u8, x: usize) -> (r: TileValue)
    requires
        x < 8,
    ensures
        r == pixel(lo, hi, x as int),
{
    let n = 7 - x;
    let d: u8 = if n == 0 {
        1
    } else if n == 1 {
        2
    } else if n == 2 {
        4
    } else if n == 3 {
        8
    } else if n == 4 {
        16
    } else if n == 5 {
        32
    } else if n == 6 {
        64
    } else {
        128
    };
    let l = (lo / d) % 2 == 1;
    let h = (hi / d) % 2 == 1;
    if !h && !l {
        TileValue::B00
    } else if !h && l {
        TileValue::B01
    } else if h && !l {
        TileValue::B10
    } else {
        TileValue::B11
    }
}

/// A decoded OAM entry. `y` and `x` are the raw OAM coordinates.
#[derive(Clone, Copy, Debug, PartialEq, Eq, Structural)]
pub struct Sprite {
    pub index: usize,
    pub x: i16,
    pub y: i16,
    pub tile_index: u8,
    pub above_bg: bool,
    pub flip_y: bool,
    pub flip_x: bool,
    pub palette: u8,
    pub vram_bank: u8,
}

/// The sprite that four OAM bytes describe.
pub open spec fn sprite_of(oam: Seq<u8>, i: int, cgb: bool) -> Sprite {
    let a = oam[4 * i + 3];
    Sprite {
        index: i as usize,
        y: oam[4 * i] as i16,
        x: oam[4 * i + 1] as i16,
        tile_index: oam[4 * i + 2],
        above_bg: a / 128 == 0,
        flip_y: (a / 64) % 2 == 1,
        flip_x: (a / 32) % 2 == 1,
        palette: if cgb {
            a % 8
        } else {
            (a / 16) % 2
        },
        vram_bank: if cgb {
            (a / 8) % 2
        } else {
            0
        },
    }
}

/// CGB background attributes of a tile map entry.
#[derive(Clone, Copy, Debug, PartialEq, Eq, Structural)]
pub struct BgAttr {
    pub raw: u8,
    pub bg_pal_index: u8,
    pub vram_bank: u8,
    pub flip_x: bool,
    pub flip_y: bool,
    pub above_all: bool,
}

impl BgAttr {
    pub open spec fn spec_from(data: u8) -> BgAttr {
        BgAttr {
            raw: data,
            bg_pal_index: data % 8,
            vram_bank: (data / 8) % 2,
            flip_x: (data / 32) % 2 == 1,
            flip_y: (data / 64) % 2 == 1,
            above_all: data / 128 == 1,
        }
    }

    /// Attributes of an all-zero byte.
    pub fn empty() -> (r: BgAttr)
        ensures
            r == BgAttr::spec_from(0),
    {
        BgAttr {
            raw: 0,
            bg_pal_index: 0,
            vram_bank: 0,
            flip_x: false,
            flip_y: false,
            above_all: false,
        }
    }

    pub fn from_u8(data: u8) -> (r: BgAttr)
        ensures
            r == BgAttr::spec_from(data),
    {
        proof {
            lemma_u8_bits();
        }
        BgAttr {
            raw: data,
            bg_pal_index: data & 0x07,
            vram_bank: if data & 0x08 != 0 {
                1
            } else {
                0
            },
            flip_x: (data & 0x20) != 0,
            flip_y: (data & 0x40) != 0,
            above_all: (data & 0x80) != 0,
        }
    }
}

pub struct VideoRam {
    pub sprite_table: Vec<u8>,
    pub sprites: Vec<Sprite>,
    /// Tile data of both banks, bank 1 after bank 0.
    pub tile_sets: Vec<u8>,
    /// Decoded tile rows: row `r` (bytes `2r` and `2r + 1` of `tile_sets`)
    /// has its eight pixels at `8r..8r + 8`.
    pub tiles: Vec<TileValue>,
    pub tile_map: Vec<u8>,
    pub attr_map: Vec<BgAttr>,
    pub vram_bank: usize,
    pub cgb: bool,
}

impl VideoRam {
    /// Sizes, and the decoded views (tile rows and sprites) agree with the bytes.
    pub open spec fn wf(&self) -> bool {
        &&& self.sprite_table@.len() == OAM_SIZE
        &&& self.sprites@.len() == SPRITE_COUNT
        &&& self.tile_sets@.len() == 2 * TILESET_SIZE
        &&& self.tiles@.len() == 16 * ROWS_PER_BANK
        &&& self.tile_map@.len() == TILEMAP_SIZE
        &&& self.attr_map@.len() == TILEMAP_SIZE
        &&& self.vram_bank < 2
        &&& forall|r: int, x: int|
            0 <= r < 2 * ROWS_PER_BANK && 0 <= x < 8 ==> #[trigger] self.tiles@[8 * r + x] == pixel(
                self.tile_sets@[2 * r],
                self.tile_sets@[2 * r + 1],
                x,
            )
        &&& forall|i: int|
            0 <= i < SPRITE_COUNT ==> #[trigger] self.sprites@[i] == sprite_of(
                self.sprite_table@,
                i,
                self.cgb,
            )
    }

    pub fn new(cgb: bool) -> (r: Self)
        ensures
            r.wf(),
            r.vram_bank == 0,
            r.cgb == cgb,
    {
        let mut sprites: Vec<Sprite> = Vec::new();
        let mut i: usize = 0;
        let sprite_table = vec![0u8; OAM_SIZE];
        let ghost table = sprite_table@;
        while i < SPRITE_COUNT
            invariant
                i <= SPRITE_COUNT,
                table.len() == OAM_SIZE,
                forall|k: int| 0 <= k < OAM_SIZE ==> #[trigger] table[k] == 0,
                sprites@.len() == i,
                forall|k: int| 0 <= k < i ==> #[trigger] sprites@[k] == sprite_of(table, k, cgb),
            decreases SPRITE_COUNT - i,
        {
            let s = Sprite {
                index: i,
                x: 0,
                y: 0,
                tile_index: 0,
                above_bg: true,
                flip_y: false,
                flip_x: false,
                palette: 0,
                vram_bank: 0,
            };
            assert(table[4 * i as int] == 0 && table[4 * i + 1] == 0 && table[4 * i + 2] == 0
                && table[4 * i + 3] == 0);
            assert(s == sprite_of(table, i as int, cgb));
            sprites.push(s);
            i = i + 1;
        }
        let tile_sets = vec![0u8; 2 * TILESET_SIZE];
        let tiles = vec![TileValue::B00; 16 * ROWS_PER_BANK];
        assert forall|r: int, x: int| 0 <= r < 2 * ROWS_PER_BANK && 0 <= x < 8 implies #[trigger] tiles@[8
            * r + x] == pixel(tile_sets@[2 * r], tile_sets@[2 * r + 1], x) by {
            assert(tile_sets@[2 * r] == 0 && tile_sets@[2 * r + 1] == 0);
            assert((0int / shift_div(7 - x)) % 2 == 0);
        }
        VideoRam {
            sprite_table,
            sprites,
            tile_sets,
            tiles,
            tile_map: vec![0u8; TILEMAP_SIZE],
            attr_map: vec![BgAttr::empty(); TILEMAP_SIZE],
            vram_bank: 0,
            cgb,
        }
    }

    /// VBK as read: the selected bank.
    pub fn bank(&self) -> (r: u8)
        requires
            self.wf(),
        ensures
            r == self.vram_bank,
    {
        self.vram_bank as u8
    }

    pub fn switch_bank(&mut self, data: u8)
        requires
            old(self).wf(),
        ensures
            final(self).wf(),
            *final(self) == (VideoRam { vram_bank: (data % 2) as usize, ..*old(self) }),
    {
        self.vram_bank = (data % 2) as usize;
    }

    /// The decoded sprites, in OAM order.
    pub fn sprites(&self) -> (r: &Vec<Sprite>)
        ensures
            r@ == self.sprites@,
    {
        &self.sprites
    }

    /// OAM bytes are readable only in HBlank and VBlank.
    pub fn read_sprite(&self, addr: usize, mode: LcdMode) -> (r: u8)
        requires
            self.wf(),
            addr < OAM_SIZE,
        ensures
            mode == LcdMode::HBlank || mode == LcdMode::VBlank ==> r == self.sprite_table@[addr as int],
            mode == LcdMode::OamSearch || mode == LcdMode::Transfer ==> r == 0xff,
    {
        if mode == LcdMode::VBlank || mode == LcdMode::HBlank {
            self.sprite_table[addr]
        } else {
            0xff
        }
    }

    /// OAM bytes are writable only in HBlank and VBlank; the sprite they
    /// belong to is decoded again.
    pub fn write_sprite(&mut self, addr: usize, data: u8, mode: LcdMode)
        requires
            old(self).wf(),
            addr < OAM_SIZE,
        ensures
            final(self).wf(),
            final(self).tile_sets == old(self).tile_sets,
            final(self).tile_map == old(self).tile_map,
            final(self).attr_map == old(self).attr_map,
            final(self).vram_bank == old(self).vram_bank,
            final(self).cgb == old(self).cgb,
            final(self).sprite_table@ == if mode == LcdMode::HBlank || mode == LcdMode::VBlank {
                old(self).sprite_table@.update(addr as int, data)
            } else {
                old(self).sprite_table@
            },
    {
        proof {
            lemma_u8_bits();
        }
        if mode == LcdMode::VBlank || mode == LcdMode::HBlank {
            self.sprite_table.set(addr, data);
            let i = addr / 4;
            let mut sprite = self.sprites[i];
            let field = addr % 4;
            if field == 0 {
                sprite.y = data as i16;
            } else if field == 1 {
                sprite.x = data as i16;
            } else if field == 2 {
                sprite.tile_index = data;
            } else {
                sprite.above_bg = (data & 0x80) == 0;
                sprite.flip_y = (data & 0x40) != 0;
                sprite.flip_x = (data & 0x20) != 0;
                if self.cgb {
                    sprite.palette = data & 0x07;
                    sprite.vram_bank = if data & 0x08 != 0 {
                        1
                    } else {
                        0
                    };
                } else {
                    sprite.palette = if data & 0x10 != 0 {
                        1
                    } else {
                        0
                    };
                    sprite.vram_bank = 0;
                }
            }
            self.sprites.set(i, sprite);
            proof {
                let t = self.sprite_table@;
                assert forall|k: int| 0 <= k < SPRITE_COUNT implies #[trigger] self.sprites@[k]
                    == sprite_of(t, k, self.cgb) by {
                    if k == i {
                        assert(addr == 4 * i + field);
                        assert(old(self).sprites@[k] == sprite_of(old(self).sprite_table@, k, self.cgb));
                    } else {
                        assert(t[4 * k] == old(self).sprite_table@[4 * k]);
                        assert(t[4 * k + 1] == old(self).sprite_table@[4 * k + 1]);
                        assert(t[4 * k + 2] == old(self).sprite_table@[4 * k + 2]);
                        assert(t[4 * k + 3] == old(self).sprite_table@[4 * k + 3]);
                    }
                }
            }
        }
    }

    /// The eight pixels of row `y` of tile `index` in a bank.
    pub fn tile(&self, bank: u8, index: usize, y: usize) -> (r: [TileValue; 8])
        requires
            self.wf(),
            bank < 2,
            index < TILES_COUNT,
            y < 8,
        ensures
            forall|x: int|
                0 <= x < 8 ==> #[trigger] r@[x] == {
                    let row = bank * ROWS_PER_BANK + index * 8 + y;
                    pixel(self.tile_sets@[2 * row], self.tile_sets@[2 * row + 1], x)
                },
    {
        let row = bank as usize * ROWS_PER_BANK + index * 8 + y;
        let b = 8 * row;
        proof {
            assert(self.tiles@[8 * row + 0] == pixel(self.tile_sets@[2 * row], self.tile_sets@[2 * row + 1], 0));
            assert(self.tiles@[8 * row + 7] == pixel(self.tile_sets@[2 * row], self.tile_sets@[2 * row + 1], 7));
        }
        let r = [
            self.tiles[b],
            self.tiles[b + 1],
            self.tiles[b + 2],
            self.tiles[b + 3],
            self.tiles[b + 4],
            self.tiles[b + 5],
            self.tiles[b + 6],
            self.tiles[b + 7],
        ];
        proof {
            assert forall|x: int| 0 <= x < 8 implies #[trigger] r@[x] == pixel(
                self.tile_sets@[2 * row],
                self.tile_sets@[2 * row + 1],
                x,
            ) by {
                assert(self.tiles@[8 * row + x] == pixel(self.tile_sets@[2 * row], self.tile_sets@[2 * row + 1], x));
            }
        }
        r
    }

    /// Tile data is unreadable during pixel transfer.
    pub fn read_tile(&self, addr: usize, mode: LcdMode) -> (r: u8)
        requires
            self.wf(),
            addr < TILESET_SIZE,
        ensures
            mode == LcdMode::Transfer ==> r == 0xff,
            mode != LcdMode::Transfer ==> r == self.tile_sets@[self.vram_bank * TILESET_SIZE + addr],
    {
        if mode != LcdMode::Transfer {
            self.tile_sets[self.vram_bank * TILESET_SIZE + addr]
        } else {
            0xff
        }
    }

    /// Writes tile data outside pixel transfer and decodes the row again.
    pub fn write_tile(&mut self, addr: usize, data: u8, mode: LcdMode)
        requires
            old(self).wf(),
            addr < TILESET_SIZE,
        ensures
            final(self).wf(),
            final(self).sprite_table == old(self).sprite_table,
            final(self).tile_map == old(self).tile_map,
            final(self).attr_map == old(self).attr_map,
            final(self).vram_bank == old(self).vram_bank,
            final(self).cgb == old(self).cgb,
            final(self).tile_sets@ == if mode == LcdMode::Transfer {
                old(self).tile_sets@
            } else {
                old(self).tile_sets@.update(old(self).vram_bank * TILESET_SIZE + addr, data)
            },
    {
        if mode == LcdMode::Transfer {
            return;
        }
        let p = self.vram_bank * TILESET_SIZE + addr;
        self.tile_sets.set(p, data);
        let row = p / 2;
        let lo = self.tile_sets[2 * row];
        let hi = self.tile_sets[2 * row + 1];
        let mut x: usize = 0;
        while x < 8
            invariant
                x <= 8,
                row == p / 2,
                p < 2 * TILESET_SIZE,
                lo == self.tile_sets@[2 * row],
                hi == self.tile_sets@[2 * row + 1],
                self.tiles@.len() == 16 * ROWS_PER_BANK,
                self.tile_sets@ == old(self).tile_sets@.update(p as int, data),
                self.sprite_table == old(self).sprite_table,
                self.sprites == old(self).sprites,
                self.tile_map == old(self).tile_map,
                self.attr_map == old(self).attr_map,
                self.vram_bank == old(self).vram_bank,
                self.cgb == old(self).cgb,
                forall|r: int, c: int|
                    0 <= r < 2 * ROWS_PER_BANK && 0 <= c < 8 && r != row ==> #[trigger] self.tiles@[8
                        * r + c] == old(self).tiles@[8 * r + c],
                forall|c: int| 0 <= c < x ==> #[trigger] self.tiles@[8 * row + c] == pixel(lo, hi, c),
            decreases 8 - x,
        {
            let v = decode_pixel(lo, hi, x);
            self.tiles.set(8 * row + x, v);
            x = x + 1;
        }
        proof {
            assert forall|r: int, c: int| 0 <= r < 2 * ROWS_PER_BANK && 0 <= c < 8 implies #[trigger] self.tiles@[8
                * r + c] == pixel(self.tile_sets@[2 * r], self.tile_sets@[2 * r + 1], c) by {
                if r != row {
                    assert(old(self).tiles@[8 * r + c] == pixel(
                        old(self).tile_sets@[2 * r],
                        old(self).tile_sets@[2 * r + 1],
                        c,
                    ));
                }
            }
        }
    }

    /// The tile number at a map index (both maps, 0x000-0x7ff).
    pub fn tilemap(&self, index: usize) -> (r: usize)
        requires
            self.wf(),
            index < TILEMAP_SIZE,
        ensures
            r == self.tile_map@[index as int],
            r < 256,
    {
        self.tile_map[index] as usize
    }

    /// The CGB attributes at a map index.
    pub fn attrmap(&self, index: usize) -> (r: BgAttr)
        requires
            self.wf(),
            index < TILEMAP_SIZE,
        ensures
            r == self.attr_map@[index as int],
    {
        self.attr_map[index]
    }

    /// Map bytes (bank 0) or attribute bytes (bank 1), unreadable during transfer.
    pub fn read_map(&self, addr: usize, mode: LcdMode) -> (r: u8)
        requires
            self.wf(),
            addr < TILEMAP_SIZE,
        ensures
            mode == LcdMode::Transfer ==> r == 0xff,
            mode != LcdMode::Transfer && self.vram_bank == 0 ==> r == self.tile_map@[addr as int],
            mode != LcdMode::Transfer && self.vram_bank == 1 ==> r == self.attr_map@[addr as int].raw,
    {
        if mode != LcdMode::Transfer {
            if self.vram_bank == 0 {
                self.tile_map[addr]
            } else {
                self.attr_map[addr].raw
            }
        } else {
            0xff
        }
    }

    /// Writes map bytes (bank 0) or attributes (bank 1) outside transfer.
    pub fn write_map(&mut self, addr: usize, data: u8, mode: LcdMode)
        requires
            old(self).wf(),
            addr < TILEMAP_SIZE,
        ensures
            final(self).wf(),
            final(self).tile_sets == old(self).tile_sets,
            final(self).sprite_table == old(self).sprite_table,
            final(self).vram_bank == old(self).vram_bank,
            final(self).cgb == old(self).cgb,
            mode != LcdMode::Transfer && old(self).vram_bank == 0 ==> final(self).tile_map@ == old(self).tile_map@.update(addr as int, data) && final(self).attr_map == old(self).attr_map,
            mode != LcdMode::Transfer && old(self).vram_bank == 1 ==> final(self).attr_map@ == old(self).attr_map@.update(addr as int, BgAttr::spec_from(data)) && final(self).tile_map == old(self).tile_map,
            mode == LcdMode::Transfer ==> final(self).tile_map == old(self).tile_map && final(self).attr_map == old(self).attr_map,
    {
        if mode != LcdMode::Transfer {
            if self.vram_bank == 0 {
                self.tile_map.set(addr, data);
            } else {
                self.attr_map.set(addr, BgAttr::from_u8(data));
            }
        }
    }
}

} // verus!
