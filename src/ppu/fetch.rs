//! The pixel fetcher of mode 3: background/window FIFO, sprite FIFO and
//! the pixel mix.
use vstd::prelude::*;
use super::{Ppu, LCDC_BG_MAP, LCDC_BG_ON, LCDC_BG_TILE_TABLE, LCDC_OBJECT_ON, LCDC_OBJECT_SIZE,
    LCDC_WINDOW_MAP, LCDC_WINDOW_ON};
use super::vram::{BgAttr, Sprite, TileValue, VideoRam, TILEMAP_SIZE, ROWS_PER_BANK, pixel};
use super::palette::tile_number;
use crate::GB_LCD_WIDTH;

verus! {

/// The four two-clock steps of a fetch.
#[derive(Clone, Copy, Debug, PartialEq, Eq, Structural)]
pub enum FetchState {
    ReadTile,
    ReadData0,
    ReadData1,
    Push,
}

pub struct Fetcher {
    pub ticks: usize,
    pub state: FetchState,
    pub window_start: bool,
    pub map_start: usize,
    pub tile_index: usize,
    pub tile_attr: BgAttr,
    pub fx: usize,
    pub fy: usize,
    pub scx: usize,
    pub bg_fifo: Vec<(BgAttr, TileValue)>,
    pub sprite_fetching: bool,
    pub sprite_index: usize,
    pub sprite_fifo: Vec<(Sprite, TileValue)>,
}

impl Fetcher {
    pub open spec fn wf(&self) -> bool {
        self.tile_index < 0x180
    }

    pub fn new() -> (r: Self)
        ensures
            r.wf(),
            r.state == FetchState::ReadTile,
            r.bg_fifo@.len() == 0 && r.sprite_fifo@.len() == 0,
    {
        Fetcher {
            ticks: 0,
            state: FetchState::ReadTile,
            window_start: false,
            map_start: 0,
            tile_index: 0,
            tile_attr: BgAttr::empty(),
            fx: 0,
            fy: 0,
            scx: 0,
            bg_fifo: Vec::new(),
            sprite_fetching: false,
            sprite_index: 0,
            sprite_fifo: Vec::new(),
        }
    }
}

/// A row of eight pixels, reversed when `flip` is set.
fn flipped(line: [TileValue; 8], flip: bool) -> (r: [TileValue; 8])
    ensures
        forall|i: int| 0 <= i < 8 ==> #[trigger] r@[i] == if flip {
            line@[7 - i]
        } else {
            line@[i]
        },
{
    if flip {
        [line[7], line[6], line[5], line[4], line[3], line[2], line[1], line[0]]
    } else {
        line
    }
}

/// Pixel `x` of row `y` of tile `index` in a VRAM bank.
pub open spec fn tile_pixel(v: VideoRam, bank: int, index: int, y: int, x: int) -> TileValue {
    let row = bank * ROWS_PER_BANK + index * 8 + y;
    pixel(v.tile_sets@[2 * row], v.tile_sets@[2 * row + 1], x)
}

/// The sprite FIFO after merging the first `n` pixels of a sprite's row:
/// pixels left of the screen edge are skipped, a transparent slot is taken
/// over, on CGB a lower OAM index with an opaque pixel wins, and missing
/// slots are appended.
pub open spec fn merged(
    fifo: Seq<(Sprite, TileValue)>,
    sp: Sprite,
    line: Seq<TileValue>,
    cgb: bool,
    n: int,
) -> Seq<(Sprite, TileValue)>
    decreases n,
{
    if n <= 0 {
        fifo
    } else {
        let f = merged(fifo, sp, line, cgb, n - 1);
        let i = n - 1;
        if sp.x + i < 8 {
            f
        } else if i < f.len() {
            if f[i].1 == TileValue::B00 || (cgb && sp.index < f[i].0.index && line[i] != TileValue::B00) {
                f.update(i, (sp, line[i]))
            } else {
                f
            }
        } else {
            f.push((sp, line[i]))
        }
    }
}

impl Ppu {
    /// The tile number fetched for a sprite: for 8x16 sprites the upper or
    /// lower tile of the pair, by the line within the sprite and Y flip.
    pub open spec fn sprite_tile(&self, sp: Sprite) -> int {
        let t = sp.tile_index as int;
        if self.lcdc & LCDC_OBJECT_SIZE != 0 {
            if sp.flip_y != (self.ly - sp.y < 8) {
                t - t % 2
            } else {
                t - t % 2 + 1
            }
        } else {
            t
        }
    }

    /// The eight pixels of a sprite's row on the current line, X flip applied.
    pub open spec fn sprite_line(&self, sp: Sprite) -> Seq<TileValue> {
        let dy = self.ly - sp.y;
        let sy = if dy < 0 {
            0
        } else {
            dy
        };
        let ty = if sp.flip_y {
            7 - sy % 8
        } else {
            sy % 8
        };
        let index = if self.fet.sprite_index < 0x180 {
            self.fet.sprite_index as int
        } else {
            0
        };
        Seq::new(
            8,
            |i: int|
                tile_pixel(
                    self.vram,
                    sp.vram_bank as int % 2,
                    index,
                    ty,
                    if sp.flip_x {
                        7 - i
                    } else {
                        i
                    },
                ),
        )
    }

    /// The eight background items pushed for the fetched tile: the row's
    /// pixels (X-flipped by the attribute), or colour 0 with empty attributes
    /// when a DMG background is off.
    pub open spec fn fetched_row(&self) -> Seq<(BgAttr, TileValue)> {
        let attr = self.fet.tile_attr;
        let ty = if attr.flip_y {
            7 - self.fet.fy as int % 8
        } else {
            self.fet.fy as int % 8
        };
        if self.cgb || self.lcdc & LCDC_BG_ON != 0 || self.fet.window_start {
            Seq::new(
                8,
                |i: int|
                    (attr, tile_pixel(
                        self.vram,
                        attr.vram_bank as int % 2,
                        self.fet.tile_index as int,
                        ty,
                        if attr.flip_x {
                            7 - i
                        } else {
                            i
                        },
                    )),
            )
        } else {
            Seq::new(8, |i: int| (BgAttr::spec_from(0), TileValue::B00))
        }
    }

    /// Whether a sprite fetch starts on this clock.
    pub open spec fn sprite_starts(&self) -> bool {
        !self.fet.sprite_fetching && self.lcdc & LCDC_OBJECT_ON != 0 && self.oam_buffer@.len() > 0
            && self.oam_buffer@[0].x <= self.current_x + 8
    }

    /// What pixel output depends on, besides the FIFOs, is unchanged.
    pub open spec fn context_kept(a: Ppu, b: Ppu) -> bool {
        &&& a.frame_buffer == b.frame_buffer
        &&& a.bg_palette == b.bg_palette && a.obj_palette == b.obj_palette
        &&& a.cgb == b.cgb && a.lcdc == b.lcdc && a.ly == b.ly && a.current_x == b.current_x
    }

    /// The state `mid` reached by the fetch half of a clock, from `old`.
    pub open spec fn fetched_from(old: Ppu, mid: Ppu) -> bool {
        let quiet = !old.fet.sprite_fetching && !old.sprite_starts();
        &&& Ppu::context_kept(old, mid)
        &&& quiet ==> !mid.fet.sprite_fetching && mid.fet.sprite_fifo == old.fet.sprite_fifo
        &&& quiet && old.fet.ticks == 0 ==> mid.fet.bg_fifo == old.fet.bg_fifo && mid.fet.scx
            == old.fet.scx
        &&& quiet && old.fet.ticks >= 1 && !old.window_starts() && old.fet.bg_fifo@.len() > 0
            ==> mid.fet.bg_fifo == old.fet.bg_fifo && mid.fet.scx == old.fet.scx
        &&& quiet && old.fet.ticks >= 1 && !old.window_starts() && old.fet.bg_fifo@.len() == 0
            && old.fet.state == FetchState::Push ==> mid.fet.bg_fifo@ == old.fetched_row()
            && mid.fet.scx == old.fet.scx
        &&& old.fet.sprite_fetching && old.fet.ticks >= 1 && old.oam_buffer@.len() > 0
            && old.fet.state == FetchState::Push ==> !mid.fet.sprite_fetching && mid.fet.sprite_fifo@
            == merged(
            old.fet.sprite_fifo@,
            old.oam_buffer@[0],
            old.sprite_line(old.oam_buffer@[0]),
            old.cgb,
            8,
        )
    }

    /// The output half of a clock: with no sprite fetch running and a
    /// background item ready, one item is shifted out: dropped while the
    /// fine scroll lasts, else drawn at (`current_x`, LY) in the mixed colour.
    pub open spec fn pixel_out(mid: Ppu, new: Ppu) -> bool {
        if !mid.fet.sprite_fetching && mid.fet.bg_fifo@.len() > 0 && mid.current_x < GB_LCD_WIDTH {
            &&& mid.fet.scx > 0 ==> new.fet.scx == mid.fet.scx - 1 && new.current_x == mid.current_x
                && new.frame_buffer == mid.frame_buffer
            &&& mid.fet.scx == 0 ==> new.current_x == mid.current_x + 1 && (mid.ly < 144
                ==> new.frame_buffer@.subrange(
                Ppu::pixel_offset(mid.ly as int, mid.current_x as int),
                Ppu::pixel_offset(mid.ly as int, mid.current_x as int) + 3,
            ) == mid.mixed_color(mid.fet.bg_fifo@[0], mid.fet.sprite_fifo@))
        } else {
            new.current_x == mid.current_x && new.frame_buffer == mid.frame_buffer
        }
    }

    /// The colour of an output pixel: the sprite pixel (from the front of the
    /// sprite FIFO) wins under CGB master priority, or when it is opaque and
    /// the background is colour 0 or yields to the sprite; else the
    /// background colour.
    pub open spec fn mixed_color(&self, bg: (BgAttr, TileValue), sprites: Seq<(Sprite, TileValue)>) -> Seq<u8> {
        let bg_color = self.bg_palette.rgb(bg.0.bg_pal_index as int % 8, tile_number(bg.1));
        if sprites.len() == 0 {
            bg_color
        } else {
            let sp = sprites[0].0;
            let t = sprites[0].1;
            if (self.cgb && self.lcdc & LCDC_BG_ON == 0) || (t != TileValue::B00 && (bg.1 == TileValue::B00 || (
            !bg.0.above_all && sp.above_bg))) {
                self.obj_palette.rgb(sp.palette as int % 8, tile_number(t))
            } else {
                bg_color
            }
        }
    }

    /// Byte offset in a frame of pixel (`x`, `y`).
    pub open spec fn pixel_offset(y: int, x: int) -> int {
        y * 480 + x * 3
    }

    /// What the output of a pixel depends on is the same in both states.
    pub open spec fn same_output(a: Ppu, b: Ppu) -> bool {
        &&& a.bg_palette == b.bg_palette
        &&& a.obj_palette == b.obj_palette
        &&& a.cgb == b.cgb
        &&& a.lcdc == b.lcdc
        &&& a.ly == b.ly
        &&& a.frame_buffer == b.frame_buffer
        &&& a.fet.sprite_fifo == b.fet.sprite_fifo
    }

    /// Whether the next background fetch switches to the window: it is
    /// enabled, has started vertically, and the line has reached WX - 7.
    pub open spec fn window_starts(&self) -> bool {
        !self.fet.window_start && self.lcdc & LCDC_WINDOW_ON != 0 && self.ly >= self.winy
            && self.current_x >= (if self.winx >= 7 {
            self.winx - 7
        } else {
            0
        })
    }

    /// Starts a line (`window_start` false) or switches the fetcher to the
    /// window: empties the background FIFO and points at the first tile of
    /// the map row for the line.
    pub fn pixel_fetch_reset(&mut self, window_start: bool)
        requires
            old(self).wf(),
        ensures
            final(self).wf(),
            final(self).fet.bg_fifo@.len() == 0,
            final(self).fet.window_start == window_start,
            final(self).fet.state == FetchState::ReadTile,
            !window_start ==> final(self).current_x == 0 && final(self).fet.sprite_fifo@.len() == 0,
            window_start ==> final(self).current_x == old(self).current_x,
            window_start ==> final(self).fet.sprite_fifo == old(self).fet.sprite_fifo,
            window_start ==> final(self).fet.sprite_fetching == old(self).fet.sprite_fetching,
            !window_start ==> !final(self).fet.sprite_fetching,
            final(self).frame_buffer == old(self).frame_buffer && final(self).bg_palette == old(self).bg_palette
                && final(self).obj_palette == old(self).obj_palette && final(self).vram == old(self).vram,
            final(self).oam_buffer == old(self).oam_buffer,
            final(self).clocks == old(self).clocks,
            final(self).mode == old(self).mode && final(self).ly == old(self).ly,
            final(self).lyc == old(self).lyc && final(self).ly_154 == old(self).ly_154,
            Ppu::regs_kept(*old(self), *final(self)),
            final(self).back_buffer == old(self).back_buffer,
            final(self).lcdc == old(self).lcdc && final(self).stat == old(self).stat,
    {
        self.fet.ticks = 0;
        self.fet.fx = 0;
        self.fet.tile_index = 0;
        self.fet.window_start = window_start;
        self.fet.state = FetchState::ReadTile;
        self.fet.bg_fifo.clear();
        let map: usize;
        if !window_start {
            self.current_x = 0;
            self.fet.sprite_fetching = false;
            self.fet.sprite_fifo.clear();
            map = if self.lcdc & LCDC_BG_MAP != 0 {
                1
            } else {
                0
            };
            self.fet.fy = self.ly.wrapping_add(self.scy) as usize;
            self.fet.scx = (self.scx % 8) as usize;
        } else {
            map = if self.lcdc & LCDC_WINDOW_MAP != 0 {
                1
            } else {
                0
            };
            self.fet.fy = self.ly.wrapping_sub(self.winy) as usize;
            self.fet.scx = 0;
        }
        self.fet.map_start = map * 0x400 + self.fet.fy / 8 * 32;
    }

    /// One clock of mode 3: maybe start a sprite fetch, run the fetcher every
    /// second clock, then (unless a sprite is being fetched) shift one
    /// background pixel out, dropping the first `SCX mod 8`, mixing it with
    /// the sprite FIFO and drawing it. Returns whether the line still has
    /// pixels to draw.
    #[verifier::rlimit(80)]
    pub fn pixel_fetch(&mut self) -> (r: bool)
        requires
            old(self).wf(),
        ensures
            final(self).wf(),
            r == (final(self).current_x < GB_LCD_WIDTH),
            final(self).current_x >= old(self).current_x,
            exists|mid: Ppu| #[trigger] Ppu::fetched_from(*old(self), mid) && Ppu::pixel_out(mid, *final(self)),
            !old(self).fet.sprite_fetching && !final(self).fet.sprite_fetching && !old(self).window_starts()
                && old(self).fet.bg_fifo@.len() > 0 && old(self).current_x < GB_LCD_WIDTH ==> {
                &&& old(self).fet.scx > 0 ==> final(self).fet.scx == old(self).fet.scx - 1 && final(self).current_x == old(self).current_x && final(self).frame_buffer == old(self).frame_buffer
                &&& old(self).fet.scx == 0 ==> final(self).current_x == old(self).current_x + 1 && (old(self).ly < 144 ==> final(self).frame_buffer@.subrange(
                    Ppu::pixel_offset(old(self).ly as int, old(self).current_x as int),
                    Ppu::pixel_offset(old(self).ly as int, old(self).current_x as int) + 3,
                ) == old(self).mixed_color(old(self).fet.bg_fifo@[0], old(self).fet.sprite_fifo@))
            },
            final(self).mode == old(self).mode && final(self).ly == old(self).ly,
            final(self).lyc == old(self).lyc && final(self).ly_154 == old(self).ly_154,
            Ppu::regs_kept(*old(self), *final(self)),
            final(self).back_buffer == old(self).back_buffer,
            final(self).lcdc == old(self).lcdc && final(self).stat == old(self).stat,
    {
        if !self.fet.sprite_fetching && self.lcdc & LCDC_OBJECT_ON != 0 {
            if self.oam_buffer.len() > 0 {
                let first = self.oam_buffer[0];
                if (first.x as i32) <= self.current_x as i32 + 8 {
                    self.fet.sprite_fetching = true;
                    self.fet.state = FetchState::ReadTile;
                    let mut sp = first;
                    sp.y = sp.y.wrapping_sub(16);
                    self.oam_buffer.set(0, sp);
                }
            }
        }
        if self.fet.ticks >= 1 {
            self.fet.ticks = 0;
            if self.fet.sprite_fetching {
                self.sprite_fetching();
            }
            if !self.fet.sprite_fetching {
                self.bg_fetching();
            }
        } else {
            self.fet.ticks = 1;
        }
        let ghost mid = *self;
        assert(Ppu::fetched_from(*old(self), mid));
        if !self.fet.sprite_fetching && self.fet.bg_fifo.len() > 0 && self.current_x < GB_LCD_WIDTH {
            self.shift_pixel();
        }
        assert(Ppu::pixel_out(mid, *self));
        self.current_x < GB_LCD_WIDTH
    }

    /// Shifts one pixel out of the background FIFO: dropped while SCX's fine
    /// scroll remains, else mixed with the sprite FIFO and drawn at
    /// (`current_x`, LY).
    fn shift_pixel(&mut self)
        requires
            old(self).wf(),
            old(self).fet.bg_fifo@.len() > 0,
            old(self).current_x < GB_LCD_WIDTH,
        ensures
            final(self).wf(),
            final(self).current_x == old(self).current_x || final(self).current_x == old(self).current_x + 1,
            final(self).mode == old(self).mode && final(self).ly == old(self).ly,
            final(self).lyc == old(self).lyc && final(self).ly_154 == old(self).ly_154,
            Ppu::regs_kept(*old(self), *final(self)),
            final(self).back_buffer == old(self).back_buffer,
            final(self).lcdc == old(self).lcdc && final(self).stat == old(self).stat,
            final(self).fet.sprite_fetching == old(self).fet.sprite_fetching,
            final(self).fet.bg_fifo@ == old(self).fet.bg_fifo@.subrange(1, old(self).fet.bg_fifo@.len() as int),
            old(self).fet.scx > 0 ==> final(self).fet.scx == old(self).fet.scx - 1 && final(self).current_x
                == old(self).current_x && final(self).frame_buffer == old(self).frame_buffer,
            old(self).fet.scx == 0 ==> final(self).current_x == old(self).current_x + 1 && (old(self).ly < 144
                ==> final(self).frame_buffer@.subrange(
                Ppu::pixel_offset(old(self).ly as int, old(self).current_x as int),
                Ppu::pixel_offset(old(self).ly as int, old(self).current_x as int) + 3,
            ) == old(self).mixed_color(old(self).fet.bg_fifo@[0], old(self).fet.sprite_fifo@)),
    {
        let (bg_attr, bg_tile) = self.fet.bg_fifo.remove(0);
        if self.fet.scx > 0 {
            self.fet.scx = self.fet.scx - 1;
        } else {
            let bg_color = self.bg_palette.color(bg_attr.bg_pal_index, bg_tile);
            let color = if self.fet.sprite_fifo.len() > 0 {
                let (sp, sp_tile) = self.fet.sprite_fifo.remove(0);
                let sp_color = self.obj_palette.color(sp.palette, sp_tile);
                let sp_priority = self.cgb && self.lcdc & LCDC_BG_ON == 0;
                if sp_priority || (sp_tile != TileValue::B00 && (bg_tile == TileValue::B00 || (
                !bg_attr.above_all && sp.above_bg))) {
                    sp_color
                } else {
                    bg_color
                }
            } else {
                bg_color
            };
            let offset = self.ly as usize * GB_LCD_WIDTH * 3 + self.current_x * 3;
            if offset + 3 <= self.frame_buffer.len() {
                self.frame_buffer.set(offset, color[0]);
                self.frame_buffer.set(offset + 1, color[1]);
                self.frame_buffer.set(offset + 2, color[2]);
                assert(self.frame_buffer@.subrange(offset as int, offset + 3) =~= color@);
            }
            self.current_x = self.current_x + 1;
        }
    }

    /// The sprite fetch: pick the tile (upper or lower half of a tall
    /// sprite), then merge the sprite's row into the sprite FIFO: a
    /// transparent slot is taken over, and on CGB a lower OAM index wins.
    #[verifier::rlimit(80)]
    pub fn sprite_fetching(&mut self)
        requires
            old(self).wf(),
        ensures
            final(self).wf(),
            final(self).current_x == old(self).current_x,
            final(self).mode == old(self).mode && final(self).ly == old(self).ly,
            final(self).lyc == old(self).lyc && final(self).ly_154 == old(self).ly_154,
            Ppu::regs_kept(*old(self), *final(self)),
            final(self).back_buffer == old(self).back_buffer,
            final(self).lcdc == old(self).lcdc && final(self).stat == old(self).stat,
            final(self).oam_buffer@.len() <= old(self).oam_buffer@.len(),
            Ppu::context_kept(*old(self), *final(self)),
            old(self).oam_buffer@.len() > 0 && old(self).fet.state == FetchState::ReadTile ==> final(self).fet.sprite_index == old(self).sprite_tile(old(self).oam_buffer@[0]),
            old(self).oam_buffer@.len() > 0 && old(self).fet.state == FetchState::Push ==> final(self).fet.sprite_fifo@ == merged(
                old(self).fet.sprite_fifo@,
                old(self).oam_buffer@[0],
                old(self).sprite_line(old(self).oam_buffer@[0]),
                old(self).cgb,
                8,
            ),
            old(self).oam_buffer@.len() > 0 && old(self).fet.state != FetchState::Push ==> final(self).fet.sprite_fetching == old(self).fet.sprite_fetching,
            old(self).oam_buffer@.len() > 0 ==> {
                &&& old(self).fet.state == FetchState::ReadTile ==> final(self).fet.state
                    == FetchState::ReadData0 && final(self).oam_buffer == old(self).oam_buffer
                &&& old(self).fet.state == FetchState::ReadData0 ==> final(self).fet.state
                    == FetchState::ReadData1 && final(self).oam_buffer == old(self).oam_buffer
                &&& old(self).fet.state == FetchState::ReadData1 ==> final(self).fet.state
                    == FetchState::Push && final(self).oam_buffer == old(self).oam_buffer
                &&& old(self).fet.state == FetchState::Push ==> final(self).fet.state
                    == FetchState::ReadTile && !final(self).fet.sprite_fetching && final(self).oam_buffer@ == old(self).oam_buffer@.subrange(1, old(self).oam_buffer@.len() as int)
            },
    {
        if self.oam_buffer.len() == 0 {
            self.fet.sprite_fetching = false;
            self.fet.state = FetchState::ReadTile;
            return;
        }
        match self.fet.state {
            FetchState::ReadTile => {
                let sp = self.oam_buffer[0];
                let upper = (self.ly as i32 - sp.y as i32) < 8;
                self.fet.sprite_index = if self.lcdc & LCDC_OBJECT_SIZE != 0 {
                    if sp.flip_y != upper {
                        (sp.tile_index - sp.tile_index % 2) as usize
                    } else {
                        (sp.tile_index - sp.tile_index % 2 + 1) as usize
                    }
                } else {
                    sp.tile_index as usize
                };
                self.fet.state = FetchState::ReadData0;
            },
            FetchState::ReadData0 => {
                self.fet.state = FetchState::ReadData1;
            },
            FetchState::ReadData1 => {
                self.fet.state = FetchState::Push;
            },
            FetchState::Push => {
                let sp = self.oam_buffer[0];
                let dy = self.ly as i32 - sp.y as i32;
                let sprite_y: usize = if dy < 0 {
                    0
                } else {
                    dy as usize
                };
                let tile_y = if sp.flip_y {
                    7 - sprite_y % 8
                } else {
                    sprite_y % 8
                };
                let index = if self.fet.sprite_index < 0x180 {
                    self.fet.sprite_index
                } else {
                    0
                };
                let row = self.vram.tile(sp.vram_bank % 2, index, tile_y);
                let line = flipped(row, sp.flip_x);
                assert(line@ =~= old(self).sprite_line(sp));
                let mut i: usize = 0;
                while i < 8
                    invariant
                        self.fet.sprite_fifo@ == merged(
                            old(self).fet.sprite_fifo@,
                            sp,
                            line@,
                            self.cgb,
                            i as int,
                        ),
                        sp == old(self).oam_buffer@[0],
                        Ppu::context_kept(*old(self), *self),
                        self.cgb == old(self).cgb,
                        i <= 8,
                        self.wf(),
                        self.current_x == old(self).current_x,
                        self.mode == old(self).mode && self.ly == old(self).ly,
                        self.lyc == old(self).lyc && self.ly_154 == old(self).ly_154,
                Ppu::regs_kept(*old(self), *self),

                        self.back_buffer == old(self).back_buffer,
                        self.lcdc == old(self).lcdc && self.stat == old(self).stat,
                        self.oam_buffer == old(self).oam_buffer,
                        self.oam_buffer@.len() > 0,
                        self.fet.state == FetchState::Push,
                    decreases 8 - i,
                {
                    if sp.x as i32 + (i as i32) >= 8 {
                        if i < self.fet.sprite_fifo.len() {
                            let (s, t) = self.fet.sprite_fifo[i];
                            if t == TileValue::B00 {
                                self.fet.sprite_fifo.set(i, (sp, line[i]));
                            } else if self.cgb {
                                if sp.index < s.index && line[i] != TileValue::B00 {
                                    self.fet.sprite_fifo.set(i, (sp, line[i]));
                                }
                            }
                        } else {
                            self.fet.sprite_fifo.push((sp, line[i]));
                        }
                    }
                    i = i + 1;
                }
                self.oam_buffer.remove(0);
                assert(self.oam_buffer@ =~= old(self).oam_buffer@.subrange(
                    1,
                    old(self).oam_buffer@.len() as int,
                ));
                self.fet.sprite_fetching = false;
                self.fet.state = FetchState::ReadTile;
            },
        }
    }

    /// The background/window fetch: switch to the window once it starts on
    /// this line, read the tile number and attributes, and push eight pixels
    /// when the FIFO is empty (waiting otherwise).
    #[verifier::rlimit(80)]
    pub fn bg_fetching(&mut self)
        requires
            old(self).wf(),
        ensures
            final(self).wf(),
            final(self).mode == old(self).mode && final(self).ly == old(self).ly,
            final(self).lyc == old(self).lyc && final(self).ly_154 == old(self).ly_154,
            Ppu::regs_kept(*old(self), *final(self)),
            final(self).back_buffer == old(self).back_buffer,
            final(self).lcdc == old(self).lcdc && final(self).stat == old(self).stat,
            final(self).current_x == old(self).current_x,
            final(self).oam_buffer == old(self).oam_buffer,
            Ppu::context_kept(*old(self), *final(self)),
            final(self).fet.sprite_fifo == old(self).fet.sprite_fifo,
            !old(self).fet.sprite_fetching ==> !final(self).fet.sprite_fetching,
            !old(self).window_starts() ==> {
                &&& old(self).fet.state == FetchState::ReadTile ==> final(self).fet.state
                    == FetchState::ReadData0
                &&& old(self).fet.state == FetchState::ReadData0 ==> final(self).fet.state
                    == FetchState::ReadData1
                &&& old(self).fet.state == FetchState::ReadData1 ==> final(self).fet.state
                    == FetchState::Push
                &&& old(self).fet.state == FetchState::Push && old(self).fet.bg_fifo@.len() == 0
                    ==> final(self).fet.state == FetchState::ReadTile && final(self).fet.bg_fifo@.len()
                    == 8
                &&& old(self).fet.state == FetchState::Push && old(self).fet.bg_fifo@.len() > 0
                    ==> final(self).fet.state == FetchState::Push && final(self).fet.bg_fifo
                    == old(self).fet.bg_fifo
            },
            old(self).window_starts() ==> final(self).fet.window_start && final(self).fet.state
                == FetchState::ReadData0,
            !old(self).window_starts() ==> Ppu::same_output(*old(self), *final(self)) && final(self).fet.scx
                == old(self).fet.scx,
            !old(self).window_starts() && old(self).fet.bg_fifo@.len() > 0 ==> final(self).fet.bg_fifo
                == old(self).fet.bg_fifo,
            !old(self).window_starts() && old(self).fet.state == FetchState::ReadTile ==> {
                let index = if old(self).fet.window_start {
                    old(self).fet.fx as int % 32
                } else {
                    (old(self).scx as int / 8 + old(self).fet.fx as int % 32) % 32
                };
                let m = (old(self).fet.map_start as int % 0x800 + index) % 0x800;
                let t = old(self).vram.tile_map@[m] as int;
                &&& final(self).fet.tile_index == if old(self).lcdc & LCDC_BG_TILE_TABLE == 0 && t < 0x80 {
                    t + 0x100
                } else {
                    t
                }
                &&& final(self).fet.tile_attr == old(self).vram.attr_map@[m]
            },
            !old(self).window_starts() && old(self).fet.state == FetchState::Push && old(self).fet.bg_fifo@.len() == 0 ==> {
                final(self).fet.bg_fifo@ == old(self).fetched_row()
            },
    {
        if !self.fet.window_start {
            if self.lcdc & LCDC_WINDOW_ON != 0 && self.ly >= self.winy {
                if self.current_x >= self.winx.saturating_sub(7) as usize {
                    self.pixel_fetch_reset(true);
                }
            }
        }
        match self.fet.state {
            FetchState::ReadTile => {
                let index = if self.fet.window_start {
                    self.fet.fx % 32
                } else {
                    (self.scx as usize / 8 + self.fet.fx % 32) % 32
                };
                let map_index = (self.fet.map_start % TILEMAP_SIZE + index) % TILEMAP_SIZE;
                let tile = self.vram.tilemap(map_index);
                let pattern_offset = self.lcdc & LCDC_BG_TILE_TABLE == 0;
                self.fet.tile_index = if pattern_offset && tile < 0x80 {
                    tile + 0x100
                } else {
                    tile
                };
                self.fet.tile_attr = self.vram.attrmap(map_index);
                self.fet.state = FetchState::ReadData0;
            },
            FetchState::ReadData0 => {
                self.fet.state = FetchState::ReadData1;
            },
            FetchState::ReadData1 => {
                self.fet.state = FetchState::Push;
            },
            FetchState::Push => {
                if self.fet.bg_fifo.len() == 0 {
                    let tile_y = if self.fet.tile_attr.flip_y {
                        7 - self.fet.fy % 8
                    } else {
                        self.fet.fy % 8
                    };
                    let row = if self.cgb || self.lcdc & LCDC_BG_ON != 0 || self.fet.window_start {
                        self.vram.tile(self.fet.tile_attr.vram_bank % 2, self.fet.tile_index, tile_y)
                    } else {
                        self.fet.tile_attr = BgAttr::empty();
                        [TileValue::B00; 8]
                    };
                    let line = flipped(row, self.fet.tile_attr.flip_x);
                    let attr = self.fet.tile_attr;
                    let mut i: usize = 0;
                    while i < 8
                        invariant
                            i <= 8,
                            self.fet.bg_fifo@ == Seq::new(i as nat, |k: int| (attr, line@[k])),
                            !old(self).fet.sprite_fetching ==> !self.fet.sprite_fetching,
                            Ppu::context_kept(*old(self), *self),
                            self.fet.sprite_fifo == old(self).fet.sprite_fifo,
                            self.fet.state == FetchState::Push,
                            self.oam_buffer == old(self).oam_buffer,
                            !old(self).window_starts() ==> Ppu::same_output(*old(self), *self)
                                && self.fet.scx == old(self).fet.scx && self.fet.tile_index == old(self).fet.tile_index && self.fet.fy == old(self).fet.fy && self.vram == old(self).vram && self.fet.window_start == old(self).fet.window_start,
                            self.wf(),
                            self.mode == old(self).mode && self.ly == old(self).ly,
                            self.lyc == old(self).lyc && self.ly_154 == old(self).ly_154,
                Ppu::regs_kept(*old(self), *self),

                            self.back_buffer == old(self).back_buffer,
                            self.lcdc == old(self).lcdc && self.stat == old(self).stat,
                            self.current_x == old(self).current_x,
                        decreases 8 - i,
                    {
                        self.fet.bg_fifo.push((attr, line[i]));
                        i = i + 1;
                        assert(self.fet.bg_fifo@ =~= Seq::new(i as nat, |k: int| (attr, line@[k])));
                    }
                    self.fet.fx = self.fet.fx.wrapping_add(1);
                    self.fet.state = FetchState::ReadTile;
                } else {
                    self.fet.state = FetchState::Push;
                    self.fet.ticks = 1;
                }
            },
        }
    }
}

} // verus!
