//! The picture unit: scanline state machine, pixel fetcher, palettes and VRAM.
use vstd::prelude::*;
use crate::interrupt::{Interrupt, InterruptHandler, interrupt_mask};
use crate::bits::lemma_u8_bits;
use crate::{GB_LCD_HEIGHT, GB_LCD_WIDTH};
use fetch::Fetcher;
use palette::Palette;
use vram::{Sprite, VideoRam, OAM_SIZE, SPRITE_COUNT, TILESET_SIZE, sprite_of};

pub mod fetch;
pub mod palette;
pub mod vram;

verus! {

/// Most sprites drawn on one line.
pub const MAX_SPRITE_PER_LINE: usize = 10;

/// Bytes of one RGB24 frame.
pub const FRAME_BUFFER_SIZE: usize = 160 * 144 * 3;

/// LCDC: display enable.
pub const LCDC_LCD_ON: u8 = 0x80;

/// LCDC: window map at 9C00 instead of 9800.
pub const LCDC_WINDOW_MAP: u8 = 0x40;

/// LCDC: window enable.
pub const LCDC_WINDOW_ON: u8 = 0x20;

/// LCDC: tile data at 8000 (unsigned numbers) instead of 8800.
pub const LCDC_BG_TILE_TABLE: u8 = 0x10;

/// LCDC: background map at 9C00 instead of 9800.
pub const LCDC_BG_MAP: u8 = 0x08;

/// LCDC: 8x16 sprites.
pub const LCDC_OBJECT_SIZE: u8 = 0x04;

/// LCDC: sprite enable.
pub const LCDC_OBJECT_ON: u8 = 0x02;

/// LCDC: background enable (on CGB: background priority).
pub const LCDC_BG_ON: u8 = 0x01;

/// STAT: LY == LYC interrupt enable.
pub const STAT_SCANLINE_INTERRUPT: u8 = 0x40;

/// STAT: OAM search interrupt enable.
pub const STAT_OAM_INTERRUPT: u8 = 0x20;

/// STAT: VBlank interrupt enable.
pub const STAT_VBLANK_INTERRUPT: u8 = 0x10;

/// STAT: HBlank interrupt enable.
pub const STAT_HBLANK_INTERRUPT: u8 = 0x08;

/// STAT: LY == LYC flag (read-only).
pub const STAT_COINCIDENCE: u8 = 0x04;

/// The four PPU modes, with STAT's mode numbers 0-3 in this order.
#[derive(Clone, Copy, Debug, PartialEq, Eq, Structural)]
pub enum LcdMode {
    HBlank,
    VBlank,
    OamSearch,
    Transfer,
}

/// STAT's mode number of a mode.
pub open spec fn mode_bits(m: LcdMode) -> u8 {
    match m {
        LcdMode::HBlank => 0,
        LcdMode::VBlank => 1,
        LcdMode::OamSearch => 2,
        LcdMode::Transfer => 3,
    }
}

fn mode_number(m: LcdMode) -> (r: u8)
    ensures
        r == mode_bits(m),
{
    match m {
        LcdMode::HBlank => 0,
        LcdMode::VBlank => 1,
        LcdMode::OamSearch => 2,
        LcdMode::Transfer => 3,
    }
}

pub struct Ppu {
    /// The frame being drawn.
    pub frame_buffer: Vec<u8>,
    /// The last complete frame, shown to the host.
    pub back_buffer: Vec<u8>,
    pub vram: VideoRam,
    pub lcdc: u8,
    /// STAT bits 2-6.
    pub stat: u8,
    pub mode: LcdMode,
    pub scy: u8,
    pub scx: u8,
    pub ly: u8,
    pub lyc: u8,
    pub winy: u8,
    pub winx: u8,
    pub win_ly: u8,
    pub hdma_avaliable: bool,
    pub bg_palette: Palette,
    pub obj_palette: Palette,
    pub cgb: bool,
    pub clocks: u32,
    pub current_x: usize,
    pub ly_154: bool,
    pub fet: Fetcher,
    /// The sprites of the current line, by X.
    pub oam_buffer: Vec<Sprite>,
}

/// The line timing after `clocks` T-cycles, as `update` leaves it.
pub open spec fn line_advanced(old: Ppu, new: Ppu, clocks: int) -> bool {
    let on = old.lcdc & LCDC_LCD_ON != 0;
    &&& !on ==> new.mode == old.mode && new.ly == old.ly
    &&& on && old.mode == LcdMode::OamSearch && old.clocks + clocks >= 80 ==> new.mode
        == LcdMode::Transfer
    &&& on && old.mode == LcdMode::Transfer ==> new.mode == LcdMode::Transfer || new.mode
        == LcdMode::HBlank
    &&& on && old.mode == LcdMode::HBlank && old.clocks + clocks >= 376 ==> new.ly == (old.ly + 1)
        % 256 && new.mode == if new.ly == 144 {
        LcdMode::VBlank
    } else {
        LcdMode::OamSearch
    }
    &&& new.ly != old.ly ==> ((new.stat & STAT_COINCIDENCE != 0) == (new.ly == new.lyc))
}

impl Ppu {
    pub open spec fn wf(&self) -> bool {
        &&& self.frame_buffer@.len() == FRAME_BUFFER_SIZE
        &&& self.back_buffer@.len() == FRAME_BUFFER_SIZE
        &&& self.vram.wf()
        &&& self.bg_palette.wf()
        &&& self.obj_palette.wf()
        &&& self.fet.wf()
        &&& self.current_x <= GB_LCD_WIDTH
        &&& self.vram.cgb == self.cgb
        &&& self.ly_154 && self.mode == LcdMode::VBlank ==> self.ly == 0
        &&& self.stat % 4 == 0 && self.stat < 0x80
    }

    /// The registers that only the CPU writes are the same in both states.
    pub open spec fn regs_kept(a: Ppu, b: Ppu) -> bool {
        &&& a.lyc == b.lyc && a.scy == b.scy && a.scx == b.scx
        &&& a.winy == b.winy && a.winx == b.winx && a.cgb == b.cgb
        &&& a.lcdc == b.lcdc
    }

    /// The frame shown to the host.
    pub open spec fn displayed(&self) -> Seq<u8> {
        self.back_buffer@
    }

    pub fn new(cgb: bool) -> (r: Ppu)
        ensures
            r.wf(),
            r.cgb == cgb,
            r.lcdc == 0 && r.stat == 0 && r.ly == 0 && r.mode == LcdMode::Transfer,
    {
        Ppu {
            frame_buffer: vec![0u8; FRAME_BUFFER_SIZE],
            back_buffer: vec![0u8; FRAME_BUFFER_SIZE],
            vram: VideoRam::new(cgb),
            lcdc: 0,
            stat: 0,
            mode: LcdMode::Transfer,
            scy: 0,
            scx: 0,
            ly: 0,
            lyc: 0,
            winy: 0,
            winx: 0,
            win_ly: 0,
            hdma_avaliable: false,
            bg_palette: Palette::build(cgb),
            obj_palette: Palette::build(cgb),
            cgb,
            clocks: 0,
            current_x: 0,
            ly_154: false,
            fet: Fetcher::new(),
            oam_buffer: Vec::new(),
        }
    }

    /// Collects the sprites on the current line: the first ten in OAM order
    /// that cover it, less those with X = 0, sorted by X (ties keep OAM order).
    #[verifier::rlimit(80)]
    pub fn oam_search(&mut self)
        requires
            old(self).wf(),
        ensures
            final(self).wf(),
            final(self).oam_buffer@.len() <= MAX_SPRITE_PER_LINE,
            forall|i: int, j: int|
                0 <= i < j < final(self).oam_buffer@.len() ==> #[trigger] final(self).oam_buffer@[i].x
                    <= #[trigger] final(self).oam_buffer@[j].x,
            final(self).mode == old(self).mode && final(self).ly == old(self).ly,
            final(self).back_buffer == old(self).back_buffer,
            final(self).lcdc == old(self).lcdc && final(self).stat == old(self).stat,
            final(self).current_x == old(self).current_x,
            forall|i: int|
                0 <= i < final(self).oam_buffer@.len() ==> taken_for_line(*old(self), #[trigger] final(self).oam_buffer@[i]),
            *final(self) == (Ppu { oam_buffer: final(self).oam_buffer, ..*old(self) }),
            final(self).oam_buffer@.len() == candidates(*old(self), SPRITE_COUNT as int).len(),
            forall|s: Sprite| #[trigger] candidates(*old(self), SPRITE_COUNT as int).contains(s) ==> final(self).oam_buffer@.contains(s),
            forall|a: int, b: int|
                0 <= a < b < final(self).oam_buffer@.len() && final(self).oam_buffer@[a].x == final(self).oam_buffer@[b].x ==> #[trigger] final(self).oam_buffer@[a].index < #[trigger] final(self).oam_buffer@[b].index,
    {
        let height: i16 = if self.lcdc & LCDC_OBJECT_SIZE != 0 {
            16
        } else {
            8
        };
        let ly = self.ly as i16;
        let mut found: usize = 0;
        let mut buf: Vec<Sprite> = Vec::new();
        let mut i: usize = 0;
        while i < SPRITE_COUNT && found < MAX_SPRITE_PER_LINE
            invariant
                i <= SPRITE_COUNT,
                found <= MAX_SPRITE_PER_LINE,
                buf@.len() <= found,
                self.wf(),
                0 <= ly <= 255,
                forall|a: int, b: int|
                    0 <= a < b < buf@.len() ==> #[trigger] buf@[a].x <= #[trigger] buf@[b].x,
                *self == *old(self),
                ly == self.ly as i16,
                height == if self.lcdc & LCDC_OBJECT_SIZE != 0 {
                    16i16
                } else {
                    8i16
                },
                forall|a: int| 0 <= a < buf@.len() ==> taken_for_line(*old(self), #[trigger] buf@[a]),
                found == cover_count(*old(self), i as int),
                buf@.len() == candidates(*old(self), i as int).len(),
                forall|s: Sprite| #[trigger] candidates(*old(self), i as int).contains(s) ==> buf@.contains(s),
                forall|a: int| 0 <= a < buf@.len() ==> #[trigger] buf@[a].index < i,
                forall|a: int, b: int|
                    0 <= a < b < buf@.len() && buf@[a].x == buf@[b].x ==> #[trigger] buf@[a].index
                        < #[trigger] buf@[b].index,
            decreases SPRITE_COUNT - i,
        {
            let sp = self.vram.sprites()[i];
            let ghost c0 = candidates(*old(self), i as int);
            let ghost buf0 = buf@;
            proof {
                assert(self.vram.sprites@[i as int] == sprite_of(self.vram.sprite_table@, i as int, self.cgb));
                assert(sp.index == i);
                assert(covers(*old(self), sp) == ((sp.y as i32) <= ly as i32 + 16 && (sp.y as i32) + (height as i32)
                    > ly as i32 + 16));
            }
            if (sp.y as i32) <= ly as i32 + 16 && (sp.y as i32) + (height as i32) > ly as i32 + 16 {
                found = found + 1;
                if sp.x > 0 {
                    let ghost before = buf@;
                    assert(self.vram.sprites@[i as int] == sprite_of(self.vram.sprite_table@, i as int, self.cgb));
                    insert_by_x(&mut buf, sp);
                    assert forall|a: int| 0 <= a < buf@.len() implies taken_for_line(*old(self), #[trigger] buf@[a]) by {
                        if buf@[a] == sp {
                            assert(sp.index == i);
                            assert(sp == old(self).vram.sprites@[i as int]);
                            assert(sp.y <= old(self).ly + 16 < sp.y + if old(self).lcdc & LCDC_OBJECT_SIZE != 0 {
                                16int
                            } else {
                                8
                            });
                        } else {
                            let j = choose|j: int| 0 <= j < before.len() && before[j] == buf@[a];
                            assert(taken_for_line(*old(self), before[j]));
                        }
                    }
                }
            }
            proof {
                let p = *old(self);
                let c1 = candidates(p, i as int + 1);
                assert forall|s: Sprite| #[trigger] c1.contains(s) implies buf@.contains(s) by {
                    if c1 != c0 {
                        assert(c1 == c0.push(sp));
                        if s != sp {
                            let j = choose|j: int| 0 <= j < c1.len() && c1[j] == s;
                            assert(c0[j] == s);
                            assert(c0.contains(s));
                        }
                    }
                }
            }
            i = i + 1;
        }
        proof {
            if i < SPRITE_COUNT {
                lemma_candidates_settled(*old(self), i as int, SPRITE_COUNT as int);
            }
        }
        self.oam_buffer = buf;
    }

    /// Advances the state machine by `clocks` T-cycles while the display is
    /// on: OAM search (80) into transfer (until the line's 160 pixels are
    /// out) into HBlank (to 456 per line), LY stepping with the LY=LYC check,
    /// VBlank at LY 144 with the frame swap, and the STAT interrupts.
    /// Line 153 reads as LY 0 after its first 4 T-cycles and still lasts
    /// 456 T-cycles.
    #[verifier::rlimit(80)]
    pub fn update(&mut self, clocks: u32, interrupts: &mut InterruptHandler)
        requires
            old(self).wf(),
            old(interrupts).wf(),
        ensures
            final(self).wf(),
            final(interrupts).wf(),
            final(interrupts).ie_port == old(interrupts).ie_port,
            old(self).lcdc & LCDC_LCD_ON == 0 ==> *final(self) == *old(self) && *final(interrupts)
                == *old(interrupts),
            final(self).lcdc == old(self).lcdc,
            line_advanced(*old(self), *final(self), clocks as int),
            Ppu::regs_kept(*old(self), *final(self)),
            final(self).stat & 0x78 == old(self).stat & 0x78,
            final(interrupts).if_port == old(interrupts).if_port | requested(*old(self), *final(self)),
            !(old(self).mode == LcdMode::HBlank && final(self).mode == LcdMode::VBlank) ==> final(self).displayed() == old(self).displayed(),
            old(self).lcdc & LCDC_LCD_ON != 0 && old(self).mode == LcdMode::OamSearch
                && old(self).clocks + clocks >= 80 ==> final(self).mode == LcdMode::Transfer
                && final(self).oam_buffer@.len() <= MAX_SPRITE_PER_LINE,
            old(self).lcdc & LCDC_LCD_ON != 0 && old(self).mode == LcdMode::HBlank
                && old(self).clocks + clocks >= 376 ==> final(self).ly == (old(self).ly + 1) % 256
                && final(self).mode == if final(self).ly == 144 {
                LcdMode::VBlank
            } else {
                LcdMode::OamSearch
            },
            old(self).mode == LcdMode::HBlank && final(self).mode == LcdMode::VBlank ==> final(self).displayed() == old(self).frame_buffer@ && final(interrupts).if_port & 0x01 != 0,
            final(self).ly != old(self).ly ==> ((final(self).stat & STAT_COINCIDENCE != 0) == (final(self).ly == final(self).lyc)),
            final(self).ly != old(self).ly && final(self).ly == final(self).lyc && old(self).stat
                & STAT_SCANLINE_INTERRUPT != 0 ==> final(interrupts).if_port & 0x02 != 0,
            final(self).mode != old(self).mode && old(self).stat & mode_source(final(self).mode) != 0
                ==> final(interrupts).if_port & 0x02 != 0,
            old(self).lcdc & LCDC_LCD_ON != 0 && old(self).mode == LcdMode::Transfer ==> (final(self).mode == LcdMode::Transfer || final(self).mode == LcdMode::HBlank),
            old(self).mode == LcdMode::Transfer && final(self).mode == LcdMode::HBlank ==> final(self).current_x == GB_LCD_WIDTH,
            old(self).lcdc & LCDC_LCD_ON != 0 && old(self).mode == LcdMode::Transfer && clocks > 0
                && final(self).mode == LcdMode::Transfer ==> final(self).current_x < GB_LCD_WIDTH,
            old(self).lcdc & LCDC_LCD_ON != 0 && old(self).mode == LcdMode::VBlank && !old(self).ly_154 && old(self).ly != 153 && old(self).clocks + clocks >= 456 ==> final(self).ly == (
            old(self).ly + 1) % 256 && final(self).mode == LcdMode::VBlank,
            old(self).lcdc & LCDC_LCD_ON != 0 && old(self).mode == LcdMode::VBlank && old(self).ly
                == 153 && old(self).clocks + clocks == 4 ==> final(self).ly == 0,
            old(self).lcdc & LCDC_LCD_ON != 0 && old(self).mode == LcdMode::VBlank && old(self).ly_154 && old(self).clocks + clocks >= 456 ==> final(self).ly == 0 && final(self).mode
                == LcdMode::OamSearch,
    {
        proof {
            lemma_u8_bits();
            lemma_stat_bits(self.stat);
            lemma_or_combos(interrupts.if_port);
        }
        if self.lcdc & LCDC_LCD_ON == 0 {
            return;
        }
        self.clocks = self.clocks.saturating_add(clocks);
        let mut stat_interrupt = false;
        match self.mode {
            LcdMode::OamSearch => {
                if self.clocks >= 80 {
                    self.clocks = self.clocks - 80;
                    self.mode = LcdMode::Transfer;
                    self.oam_search();
                    self.pixel_fetch_reset(false);
                }
            },
            LcdMode::Transfer => {
                let mut n: u32 = 0;
                while n < clocks
                    invariant
                        n <= clocks,
                        self.wf(),
                        interrupts.wf(),
                        interrupts.ie_port == old(interrupts).ie_port,
                        self.mode == LcdMode::Transfer || self.mode == LcdMode::HBlank,
                        self.back_buffer == old(self).back_buffer,
                        self.lcdc == old(self).lcdc,
                        self.ly == old(self).ly && self.stat == old(self).stat,
                        Ppu::regs_kept(*old(self), *self),
                        self.lyc == old(self).lyc,
                        *interrupts == *old(interrupts),
                        self.mode == LcdMode::HBlank ==> self.current_x == GB_LCD_WIDTH,
                        self.mode == LcdMode::Transfer && n > 0 ==> self.current_x < GB_LCD_WIDTH,
                        stat_interrupt ==> self.mode == LcdMode::HBlank && self.stat
                            & STAT_HBLANK_INTERRUPT != 0,
                        self.mode == LcdMode::HBlank ==> (stat_interrupt == (self.stat
                            & STAT_HBLANK_INTERRUPT != 0)),
                    ensures
                        self.mode == LcdMode::Transfer ==> n == clocks,
                    decreases clocks - n,
                {
                    if !self.pixel_fetch() {
                        self.mode = LcdMode::HBlank;
                        self.hdma_avaliable = true;
                        stat_interrupt = self.stat & STAT_HBLANK_INTERRUPT != 0;
                        break;
                    }
                    n = n + 1;
                }
            },
            LcdMode::HBlank => {
                if self.clocks >= 376 {
                    self.clocks = self.clocks - 376;
                    self.ly = self.ly.wrapping_add(1);
                    self.check_lyc(interrupts);
                    if self.ly == 144 {
                        self.mode = LcdMode::VBlank;
                        self.ly_154 = false;
                        interrupts.request_interrupt(Interrupt::VBlank);
                        stat_interrupt = self.stat & STAT_VBLANK_INTERRUPT != 0;
                        std::mem::swap(&mut self.frame_buffer, &mut self.back_buffer);
                    } else {
                        self.mode = LcdMode::OamSearch;
                        stat_interrupt = self.stat & STAT_OAM_INTERRUPT != 0;
                    }
                    self.hdma_avaliable = false;
                }
            },
            LcdMode::VBlank => {
                if self.ly == 153 && self.clocks == 4 {
                    self.ly = 0;
                    self.ly_154 = true;
                    self.check_lyc(interrupts);
                }
                if self.clocks >= 456 {
                    self.clocks = self.clocks - 456;
                    if self.ly_154 {
                        self.ly = 0;
                        self.win_ly = 0;
                        self.mode = LcdMode::OamSearch;
                        stat_interrupt = self.stat & STAT_OAM_INTERRUPT != 0;
                    } else {
                        self.ly = self.ly.wrapping_add(1);
                        self.check_lyc(interrupts);
                    }
                }
            },
        }
        if stat_interrupt {
            interrupts.request_interrupt(Interrupt::Lcd);
        }
    }

    /// Compares LY with LYC: sets or clears the coincidence flag and, on a
    /// match with the LY=LYC interrupt enabled, requests the LCD interrupt.
    pub fn check_lyc(&mut self, interrupts: &mut InterruptHandler)
        requires
            old(self).wf(),
            old(interrupts).wf(),
        ensures
            final(self).wf(),
            final(interrupts).wf(),
            final(interrupts).ie_port == old(interrupts).ie_port,
            final(self).stat == if old(self).ly == old(self).lyc {
                old(self).stat | STAT_COINCIDENCE
            } else {
                old(self).stat & !STAT_COINCIDENCE
            },
            final(interrupts).if_port == if old(self).ly == old(self).lyc && old(self).stat
                & STAT_SCANLINE_INTERRUPT != 0 {
                old(interrupts).if_port | interrupt_mask(Interrupt::Lcd)
            } else {
                old(interrupts).if_port
            },
            *final(self) == (Ppu { stat: final(self).stat, ..*old(self) }),
    {
        let coincidence = self.lyc == self.ly;
        if coincidence {
            self.stat = self.stat | STAT_COINCIDENCE;
        } else {
            self.stat = self.stat & !STAT_COINCIDENCE;
        }
        if self.stat & STAT_SCANLINE_INTERRUPT != 0 && coincidence {
            proof {
                lemma_stat_bits(old(self).stat);
            }
            interrupts.request_interrupt(Interrupt::Lcd);
        }
        proof {
            lemma_stat_bits(old(self).stat);
        }
    }

    /// Reads VRAM, OAM or a display register. VRAM reads 0xff during pixel
    /// transfer and OAM during OAM search and transfer.
    pub fn read(&self, addr: u16) -> (r: u8)
        requires
            self.wf(),
        ensures
            0x8000 <= addr <= 0x9fff && self.mode == LcdMode::Transfer ==> r == 0xff,
            0xfe00 <= addr <= 0xfe9f && (self.mode == LcdMode::OamSearch || self.mode
                == LcdMode::Transfer) ==> r == 0xff,
            0x8000 <= addr <= 0x97ff && self.mode != LcdMode::Transfer ==> r == self.vram.tile_sets@[
                self.vram.vram_bank * TILESET_SIZE + (addr - 0x8000)],
            0xfe00 <= addr <= 0xfe9f && (self.mode == LcdMode::HBlank || self.mode
                == LcdMode::VBlank) ==> r == self.vram.sprite_table@[addr - 0xfe00],
            addr == 0xff40 ==> r == self.lcdc,
            addr == 0xff41 ==> r == self.stat | mode_bits(self.mode),
            addr == 0xff42 ==> r == self.scy,
            addr == 0xff43 ==> r == self.scx,
            addr == 0xff44 ==> r == self.ly,
            addr == 0xff45 ==> r == self.lyc,
            addr == 0xff4a ==> r == self.winy,
            addr == 0xff4b ==> r == self.winx,
    {
        let a = addr as usize;
        if 0x8000 <= a && a <= 0x97ff {
            self.vram.read_tile(a - 0x8000, self.mode)
        } else if 0x9800 <= a && a <= 0x9fff {
            self.vram.read_map(a - 0x9800, self.mode)
        } else if 0xfe00 <= a && a <= 0xfe9f {
            self.vram.read_sprite(a - 0xfe00, self.mode)
        } else if a == 0xff40 {
            self.lcdc
        } else if a == 0xff41 {
            self.stat | mode_number(self.mode)
        } else if a == 0xff42 {
            self.scy
        } else if a == 0xff43 {
            self.scx
        } else if a == 0xff44 {
            self.ly
        } else if a == 0xff45 {
            self.lyc
        } else if a == 0xff47 {
            self.bg_palette.read_dmg(0)
        } else if a == 0xff48 {
            self.obj_palette.read_dmg(0)
        } else if a == 0xff49 {
            self.obj_palette.read_dmg(1)
        } else if a == 0xff4a {
            self.winy
        } else if a == 0xff4b {
            self.winx
        } else if a == 0xff4f && self.cgb {
            self.vram.bank() | 0xfe
        } else if a == 0xff68 && self.cgb {
            self.bg_palette.read_index()
        } else if a == 0xff69 && self.cgb {
            self.bg_palette.read_data()
        } else if a == 0xff6a && self.cgb {
            self.obj_palette.read_index()
        } else if a == 0xff6b && self.cgb {
            self.obj_palette.read_data()
        } else {
            0xff
        }
    }

    /// Writes VRAM, OAM or a display register. Turning the display off
    /// resets LY to 0 and the mode to HBlank; STAT keeps its coincidence flag.
    pub fn write(&mut self, addr: u16, b: u8)
        requires
            old(self).wf(),
        ensures
            final(self).wf(),
            final(self).displayed() == old(self).displayed(),
            final(self).cgb == old(self).cgb,
            addr == 0xff40 ==> final(self).lcdc == b,
            addr == 0xff40 && b & LCDC_LCD_ON == 0 && old(self).lcdc & LCDC_LCD_ON != 0 ==> final(self).ly == 0 && final(self).mode == LcdMode::HBlank && final(self).clocks == 0,
            addr == 0xff41 ==> final(self).stat == (old(self).stat & STAT_COINCIDENCE) | (b & 0x78),
            addr == 0xff42 ==> final(self).scy == b,
            addr == 0xff43 ==> final(self).scx == b,
            addr == 0xff45 ==> final(self).lyc == b,
            addr == 0xff4a ==> final(self).winy == b,
            addr == 0xff4b ==> final(self).winx == b,
            addr != 0xff40 ==> final(self).lcdc == old(self).lcdc,
            addr != 0xff40 ==> final(self).mode == old(self).mode && final(self).ly == old(self).ly
                && final(self).clocks == old(self).clocks && final(self).win_ly == old(self).win_ly,
            addr == 0xff40 ==> *final(self) == if b & LCDC_LCD_ON == 0 && old(self).lcdc & LCDC_LCD_ON != 0 {
                Ppu { lcdc: b, ly: 0, win_ly: 0, clocks: 0, mode: LcdMode::HBlank, ..*old(self) }
            } else {
                Ppu { lcdc: b, ..*old(self) }
            },
            addr != 0xff41 ==> final(self).stat == old(self).stat,
            addr != 0xff42 ==> final(self).scy == old(self).scy,
            addr != 0xff43 ==> final(self).scx == old(self).scx,
            addr != 0xff45 ==> final(self).lyc == old(self).lyc,
            addr != 0xff4a ==> final(self).winy == old(self).winy,
            addr != 0xff4b ==> final(self).winx == old(self).winx,
            (0xff40 <= addr <= 0xff46 || addr == 0xff4a || addr == 0xff4b) ==> final(self).vram == old(self).vram && final(self).bg_palette
                == old(self).bg_palette && final(self).obj_palette == old(self).obj_palette,
            final(self).frame_buffer == old(self).frame_buffer && final(self).fet == old(self).fet
                && final(self).oam_buffer == old(self).oam_buffer && final(self).current_x == old(self).current_x,
    {
        proof {
            lemma_stat_bits(self.stat);
        }
        let a = addr as usize;
        if 0x8000 <= a && a <= 0x97ff {
            self.vram.write_tile(a - 0x8000, b, self.mode);
        } else if 0x9800 <= a && a <= 0x9fff {
            self.vram.write_map(a - 0x9800, b, self.mode);
        } else if 0xfe00 <= a && a <= 0xfe9f {
            self.vram.write_sprite(a - 0xfe00, b, self.mode);
        } else if a == 0xff40 {
            if b & LCDC_LCD_ON == 0 && self.lcdc & LCDC_LCD_ON != 0 {
                self.ly = 0;
                self.win_ly = 0;
                self.clocks = 0;
                self.mode = LcdMode::HBlank;
            }
            self.lcdc = b;
        } else if a == 0xff41 {
            self.stat = (self.stat & STAT_COINCIDENCE) | (b & 0x78);
        } else if a == 0xff42 {
            self.scy = b;
        } else if a == 0xff43 {
            self.scx = b;
        } else if a == 0xff45 {
            self.lyc = b;
        } else if a == 0xff47 && !self.cgb {
            self.bg_palette.write_dmg(0, b);
        } else if a == 0xff48 && !self.cgb {
            self.obj_palette.write_dmg(0, b);
        } else if a == 0xff49 && !self.cgb {
            self.obj_palette.write_dmg(1, b);
        } else if a == 0xff4a {
            self.winy = b;
        } else if a == 0xff4b {
            self.winx = b;
        } else if a == 0xff4f && self.cgb {
            self.vram.switch_bank(b);
        } else if a == 0xff68 && self.cgb {
            self.bg_palette.write_index(b);
        } else if a == 0xff69 && self.cgb {
            self.bg_palette.write_data(b);
        } else if a == 0xff6a && self.cgb {
            self.obj_palette.write_index(b);
        } else if a == 0xff6b && self.cgb {
            self.obj_palette.write_data(b);
        }
    }

    /// The last complete frame, RGB24, 160 x 144.
    pub fn get_frame_buffer(&self) -> (r: &Vec<u8>)
        requires
            self.wf(),
        ensures
            r@ == self.displayed(),
            r@.len() == GB_LCD_WIDTH * GB_LCD_HEIGHT * 3,
    {
        &self.back_buffer
    }

    /// An OAM DMA byte: written whatever the mode.
    pub fn dma_write(&mut self, addr: u16, data: u8)
        requires
            old(self).wf(),
            addr < OAM_SIZE,
        ensures
            final(self).wf(),
            final(self).vram.sprite_table@ == old(self).vram.sprite_table@.update(addr as int, data),
            final(self).displayed() == old(self).displayed(),
            final(self).mode == old(self).mode && final(self).lcdc == old(self).lcdc,
            final(self).ly == old(self).ly && final(self).stat == old(self).stat && final(self).lyc == old(self).lyc,
    {
        self.vram.write_sprite(addr as usize, data, LcdMode::VBlank);
    }

    /// An HDMA byte into tile data or the maps: written whatever the mode.
    pub fn hdma_write(&mut self, addr: u16, data: u8)
        requires
            old(self).wf(),
            0x8000 <= addr <= 0x9fff,
        ensures
            final(self).wf(),
            final(self).displayed() == old(self).displayed(),
            final(self).mode == old(self).mode && final(self).lcdc == old(self).lcdc,
            final(self).ly == old(self).ly && final(self).stat == old(self).stat && final(self).lyc == old(self).lyc,
            addr <= 0x97ff ==> final(self).vram.tile_sets@ == old(self).vram.tile_sets@.update(
                old(self).vram.vram_bank * TILESET_SIZE + (addr - 0x8000),
                data,
            ),
    {
        let a = addr as usize;
        if a <= 0x97ff {
            self.vram.write_tile(a - 0x8000, data, LcdMode::VBlank);
        } else {
            self.vram.write_map(a - 0x9800, data, LcdMode::VBlank);
        }
    }

    /// Whether an HBlank began since the last call (HDMA moves one block per HBlank).
    pub fn hdma_avaliable(&mut self) -> (r: bool)
        ensures
            r == old(self).hdma_avaliable,
            *final(self) == (Ppu { hdma_avaliable: false, ..*old(self) }),
    {
        let ret = self.hdma_avaliable;
        self.hdma_avaliable = false;
        ret
    }
}

/// A sprite taken for line `ly`: it covers the line (raw OAM Y, sprites
/// start 16 lines above the screen), is not hidden at X = 0, and is the
/// decoded OAM entry of its index.
pub open spec fn taken_for_line(p: Ppu, sp: Sprite) -> bool {
    let height = if p.lcdc & LCDC_OBJECT_SIZE != 0 {
        16int
    } else {
        8
    };
    &&& sp.y <= p.ly + 16 < sp.y + height
    &&& sp.x > 0
    &&& sp.index < SPRITE_COUNT
    &&& p.vram.sprites@[sp.index as int] == sp
}

/// Whether a sprite (raw OAM Y) covers the current line.
pub open spec fn covers(p: Ppu, sp: Sprite) -> bool {
    let height = if p.lcdc & LCDC_OBJECT_SIZE != 0 {
        16int
    } else {
        8
    };
    sp.y <= p.ly + 16 < sp.y + height
}

/// How many of the first `n` OAM sprites cover the current line.
pub open spec fn cover_count(p: Ppu, n: int) -> int
    decreases n,
{
    if n <= 0 {
        0
    } else {
        cover_count(p, n - 1) + if covers(p, p.vram.sprites@[n - 1]) {
            1int
        } else {
            0
        }
    }
}

/// The sprites of the line, in OAM order: among the first ten that cover
/// it (looking at OAM entries below `n`), those not hidden at X = 0.
pub open spec fn candidates(p: Ppu, n: int) -> Seq<Sprite>
    decreases n,
{
    if n <= 0 {
        Seq::empty()
    } else {
        let c = candidates(p, n - 1);
        let sp = p.vram.sprites@[n - 1];
        if covers(p, sp) && cover_count(p, n - 1) < 10 && sp.x > 0 {
            c.push(sp)
        } else {
            c
        }
    }
}

proof fn lemma_candidates_settled(p: Ppu, i: int, n: int)
    requires
        0 <= i <= n,
        cover_count(p, i) >= 10,
    ensures
        candidates(p, n) == candidates(p, i),
        cover_count(p, n) >= 10,
    decreases n - i,
{
    if n > i {
        lemma_candidates_settled(p, i, n - 1);
    }
}

/// Inserts a sprite after every sprite of smaller or equal X.
fn insert_by_x(buf: &mut Vec<Sprite>, sp: Sprite)
    requires
        forall|a: int, b: int|
            0 <= a < b < old(buf)@.len() ==> #[trigger] old(buf)@[a].x <= #[trigger] old(buf)@[b].x,
        old(buf)@.len() < MAX_SPRITE_PER_LINE,
        forall|a: int, b: int|
            0 <= a < b < old(buf)@.len() && old(buf)@[a].x == old(buf)@[b].x ==> #[trigger] old(buf)@[a].index
                < #[trigger] old(buf)@[b].index,
        forall|a: int| 0 <= a < old(buf)@.len() ==> #[trigger] old(buf)@[a].index < sp.index,
    ensures
        final(buf)@.len() == old(buf)@.len() + 1,
        final(buf)@.contains(sp),
        forall|s: Sprite| old(buf)@.contains(s) ==> #[trigger] final(buf)@.contains(s),
        forall|a: int, b: int|
            0 <= a < b < final(buf)@.len() && final(buf)@[a].x == final(buf)@[b].x ==> #[trigger] final(buf)@[a].index < #[trigger] final(buf)@[b].index,
        forall|i: int|
            0 <= i < final(buf)@.len() ==> #[trigger] final(buf)@[i] == sp || old(buf)@.contains(
                final(buf)@[i],
            ),
        forall|a: int, b: int|
            0 <= a < b < final(buf)@.len() ==> #[trigger] final(buf)@[a].x <= #[trigger] final(buf)@[b].x,
{
    let mut k: usize = 0;
    while k < buf.len() && buf[k].x <= sp.x
        invariant
            k <= buf@.len(),
            buf@ == old(buf)@,
            forall|a: int| 0 <= a < k ==> #[trigger] buf@[a].x <= sp.x,
        decreases buf@.len() - k,
    {
        k = k + 1;
    }
    let ghost before = buf@;
    buf.insert(k, sp);
    proof {
        assert forall|i: int| 0 <= i < buf@.len() implies #[trigger] buf@[i] == sp || before.contains(
            buf@[i],
        ) by {
            if i < k {
                assert(buf@[i] == before[i]);
            } else if i > k {
                assert(buf@[i] == before[i - 1]);
            }
        }
        assert forall|a: int, b: int| 0 <= a < b < buf@.len() implies #[trigger] buf@[a].x
            <= #[trigger] buf@[b].x by {
            if b < k {
                assert(buf@[a] == before[a] && buf@[b] == before[b]);
            } else if b == k {
                assert(buf@[a] == before[a]);
            } else if a == k {
                assert(buf@[b] == before[b - 1]);
                assert(k == before.len() || before[k as int].x > sp.x);
                if b - 1 > k {
                    assert(before[k as int].x <= before[b - 1].x);
                }
            } else if a < k {
                assert(buf@[a] == before[a] && buf@[b] == before[b - 1]);
            } else {
                assert(buf@[a] == before[a - 1] && buf@[b] == before[b - 1]);
            }
        }
        assert(buf@[k as int] == sp);
        assert forall|s: Sprite| before.contains(s) implies #[trigger] buf@.contains(s) by {
            let j = choose|j: int| 0 <= j < before.len() && before[j] == s;
            if j < k {
                assert(buf@[j] == s);
            } else {
                assert(buf@[j + 1] == s);
            }
        }
        assert forall|a: int, b: int|
            0 <= a < b < buf@.len() && buf@[a].x == buf@[b].x implies #[trigger] buf@[a].index
                < #[trigger] buf@[b].index by {
            if b < k {
                assert(buf@[a] == before[a] && buf@[b] == before[b]);
            } else if b == k {
                assert(buf@[a] == before[a]);
            } else if a == k {
                assert(buf@[b] == before[b - 1]);
                assert(before[k as int].x > sp.x);
                if b - 1 > k {
                    assert(before[k as int].x <= before[b - 1].x);
                }
            } else if a < k {
                assert(buf@[a] == before[a] && buf@[b] == before[b - 1]);
            } else {
                assert(buf@[a] == before[a - 1] && buf@[b] == before[b - 1]);
            }
        }
    }
}

proof fn lemma_stat_bits(s: u8)
    ensures
        (s | STAT_COINCIDENCE) & 0x78 == s & 0x78,
        (s & !STAT_COINCIDENCE) & 0x78 == s & 0x78,
        (s | STAT_COINCIDENCE) & STAT_SCANLINE_INTERRUPT == s & STAT_SCANLINE_INTERRUPT,
        (s & !STAT_COINCIDENCE) & STAT_SCANLINE_INTERRUPT == s & STAT_SCANLINE_INTERRUPT,
        (s | STAT_COINCIDENCE) & STAT_HBLANK_INTERRUPT == s & STAT_HBLANK_INTERRUPT,
        (s & !STAT_COINCIDENCE) & STAT_HBLANK_INTERRUPT == s & STAT_HBLANK_INTERRUPT,
        (s | STAT_COINCIDENCE) & STAT_VBLANK_INTERRUPT == s & STAT_VBLANK_INTERRUPT,
        (s & !STAT_COINCIDENCE) & STAT_VBLANK_INTERRUPT == s & STAT_VBLANK_INTERRUPT,
        (s | STAT_COINCIDENCE) & STAT_OAM_INTERRUPT == s & STAT_OAM_INTERRUPT,
        (s & !STAT_COINCIDENCE) & STAT_OAM_INTERRUPT == s & STAT_OAM_INTERRUPT,
        (s | STAT_COINCIDENCE) & STAT_COINCIDENCE != 0,
        (s & !STAT_COINCIDENCE) & STAT_COINCIDENCE == 0,
        s % 4 == 0 && s < 0x80 ==> (s | STAT_COINCIDENCE) % 4 == 0 && (s | STAT_COINCIDENCE) < 0x80,
        s % 4 == 0 && s < 0x80 ==> (s & !STAT_COINCIDENCE) % 4 == 0 && (s & !STAT_COINCIDENCE) < 0x80,
        forall|b: u8| #![trigger ((s & STAT_COINCIDENCE) | (b & 0x78))] ((s & STAT_COINCIDENCE) | (b & 0x78)) % 4 == 0
            && ((s & STAT_COINCIDENCE) | (b & 0x78)) < 0x80,
{
    assert(s % 4 == 0 && s < 0x80 ==> (s | 0x04) % 4 == 0 && (s | 0x04) < 0x80 && (s & !0x04u8) % 4
        == 0 && (s & !0x04u8) < 0x80) by (bit_vector);
    assert forall|b: u8| #![trigger ((s & STAT_COINCIDENCE) | (b & 0x78))] ((s & STAT_COINCIDENCE) | (b
        & 0x78)) % 4 == 0 && ((s & STAT_COINCIDENCE) | (b & 0x78)) < 0x80 by {
        assert(((s & 0x04) | (b & 0x78)) % 4 == 0 && ((s & 0x04) | (b & 0x78)) < 0x80) by (bit_vector);
    }
    assert((s | 0x04) & 0x78 == s & 0x78 && (s & !0x04u8) & 0x78 == s & 0x78 && (s | 0x04) & 0x40
        == s & 0x40 && (s & !0x04u8) & 0x40 == s & 0x40 && (s | 0x04) & 0x08 == s & 0x08 && (s
        & !0x04u8) & 0x08 == s & 0x08 && (s | 0x04) & 0x10 == s & 0x10 && (s & !0x04u8) & 0x10 == s
        & 0x10 && (s | 0x04) & 0x20 == s & 0x20 && (s & !0x04u8) & 0x20 == s & 0x20 && (s | 0x04)
        & 0x04 != 0 && (s & !0x04u8) & 0x04 == 0) by (bit_vector);
}

/// Whether a state change raises the LCD interrupt: LY reaching LYC with
/// that source enabled, or entering a mode whose STAT source is enabled.
pub open spec fn lcd_request(old: Ppu, new: Ppu) -> bool {
    (new.ly != old.ly && new.ly == old.lyc && old.stat & STAT_SCANLINE_INTERRUPT != 0) || (new.mode
        != old.mode && old.stat & mode_source(new.mode) != 0)
}

/// The IF bits a state change requests: VBlank on entering VBlank, LCD as
/// `lcd_request` says.
pub open spec fn requested(old: Ppu, new: Ppu) -> u8 {
    ((if old.mode == LcdMode::HBlank && new.mode == LcdMode::VBlank {
        1int
    } else {
        0
    }) + (if lcd_request(old, new) {
        2int
    } else {
        0
    })) as u8
}

proof fn lemma_or_combos(x: u8)
    ensures
        (x | 2) | 1 == x | 3,
        (x | 1) | 2 == x | 3,
        ((x | 2) | 1) | 2 == x | 3,
        (x | 2) | 2 == x | 2,
        x | 0 == x,
{
    assert((x | 2) | 1 == x | 3 && (x | 1) | 2 == x | 3 && ((x | 2) | 1) | 2 == x | 3 && (x | 2) | 2
        == x | 2 && x | 0 == x) by (bit_vector);
}

/// The STAT enable bit of the interrupt raised on entering a mode (none for transfer).
pub open spec fn mode_source(m: LcdMode) -> u8 {
    match m {
        LcdMode::HBlank => STAT_HBLANK_INTERRUPT,
        LcdMode::VBlank => STAT_VBLANK_INTERRUPT,
        LcdMode::OamSearch => STAT_OAM_INTERRUPT,
        LcdMode::Transfer => 0,
    }
}

} // verus!
