//! Palettes: DMG shade indices over a fixed four-colour palette, and CGB
//! palette RAM (BGR555) with colour correction to RGB888.
use vstd::prelude::*;
use super::vram::TileValue;
use crate::bits::{lemma_u8_bits, lemma_u16_bits};

verus! {

/// The four DMG shades as RGB, lightest first.
pub open spec fn dmg_rgb(shade: int) -> Seq<u8> {
    if shade == 0 {
        seq![0xc4u8, 0xf0, 0xc2]
    } else if shade == 1 {
        seq![0x5au8, 0xb9, 0xa8]
    } else if shade == 2 {
        seq![0x1eu8, 0x60, 0x6e]
    } else {
        seq![0x2du8, 0x1b, 0x00]
    }
}

fn dmg_color(shade: usize) -> (r: [u8; 3])
    ensures
        r@ == dmg_rgb(shade as int),
{
    let r = if shade == 0 {
        [0xc4u8, 0xf0, 0xc2]
    } else if shade == 1 {
        [0x5au8, 0xb9, 0xa8]
    } else if shade == 2 {
        [0x1eu8, 0x60, 0x6e]
    } else {
        [0x2du8, 0x1b, 0x00]
    };
    assert(r@ =~= dmg_rgb(shade as int));
    r
}

/// Colour correction of a BGR555 colour: each channel is `min(960, mix) / 4`.
pub open spec fn corrected(color: u16) -> Seq<u8> {
    let r = color % 32;
    let g = (color / 32) % 32;
    let b = (color / 1024) % 32;
    seq![
        (min(960, 26 * r + 4 * g + 2 * b) / 4) as u8,
        (min(960, 24 * g + 8 * b) / 4) as u8,
        (min(960, 6 * r + 4 * g + 22 * b) / 4) as u8,
    ]
}

pub open spec fn min(a: int, b: int) -> int {
    if a < b {
        a
    } else {
        b
    }
}

/// The number of a tile value (0-3).
pub open spec fn tile_number(t: TileValue) -> int {
    match t {
        TileValue::B00 => 0,
        TileValue::B01 => 1,
        TileValue::B10 => 2,
        TileValue::B11 => 3,
    }
}

/// A DMG palette register: four 2-bit shade indices.
#[derive(Clone, Copy, Debug)]
pub struct PaletteIndex {
    pub raw: u8,
    pub pal: [usize; 4],
}

impl PaletteIndex {
    pub open spec fn spec_from(data: u8) -> Seq<usize> {
        seq![
            (data % 4) as usize,
            ((data / 4) % 4) as usize,
            ((data / 16) % 4) as usize,
            (data / 64) as usize,
        ]
    }

    /// The power-on value 0xe4: shades 0, 1, 2, 3.
    pub fn default() -> (r: PaletteIndex)
        ensures
            r.raw == 0xe4 && r.pal@ == PaletteIndex::spec_from(0xe4),
    {
        let r = PaletteIndex { raw: 0xe4, pal: [0, 1, 2, 3] };
        assert(r.pal@ =~= PaletteIndex::spec_from(0xe4));
        r
    }

    pub fn from_u8(data: u8) -> (r: PaletteIndex)
        ensures
            r.raw == data && r.pal@ == PaletteIndex::spec_from(data),
    {
        let r = PaletteIndex {
            raw: data,
            pal: [
                (data % 4) as usize,
                ((data / 4) % 4) as usize,
                ((data / 16) % 4) as usize,
                (data / 64) as usize,
            ],
        };
        assert(r.pal@ =~= PaletteIndex::spec_from(data));
        r
    }
}

pub struct Palette {
    pub palette_index: Vec<PaletteIndex>,
    /// RGB of 8 palettes x 4 colours, 3 bytes each.
    pub palettes_rgb: Vec<u8>,
    /// BGR555 of 8 palettes x 4 colours.
    pub palettes_555: Vec<u16>,
    pub data_index: usize,
    pub index_inc: bool,
}

impl Palette {
    pub open spec fn wf(&self) -> bool {
        &&& self.palette_index@.len() == 2
        &&& forall|i: int, k: int|
            0 <= i < 2 && 0 <= k < 4 ==> #[trigger] self.palette_index@[i].pal@[k] < 4
        &&& self.palettes_rgb@.len() == 96
        &&& self.palettes_555@.len() == 32
        &&& self.data_index < 64
    }

    /// The RGB bytes of colour `c` of palette `p`.
    pub open spec fn rgb(&self, p: int, c: int) -> Seq<u8> {
        self.palettes_rgb@.subrange(12 * p + 3 * c, 12 * p + 3 * c + 3)
    }

    pub open spec fn rgb_all(&self) -> Seq<u8> {
        self.palettes_rgb@
    }

    /// DMG palettes start as the fixed shades in order; CGB palettes as black.
    pub fn build(cgb: bool) -> (r: Self)
        ensures
            r.wf(),
            r.data_index == 0 && !r.index_inc,
            forall|i: int| 0 <= i < 32 ==> #[trigger] r.palettes_555@[i] == 0,
            !cgb ==> forall|p: int, c: int|
                0 <= p < 8 && 0 <= c < 4 ==> #[trigger] r.rgb(p, c) == dmg_rgb(c),
    {
        let d = PaletteIndex::default();
        let mut rgb: Vec<u8> = Vec::new();
        let mut k: usize = 0;
        while k < 32
            invariant
                k <= 32,
                rgb@.len() == 3 * k,
                forall|p: int, c: int|
                    0 <= p < 8 && 0 <= c < 4 && 4 * p + c < k && !cgb ==> #[trigger] rgb@.subrange(
                        12 * p + 3 * c,
                        12 * p + 3 * c + 3,
                    ) == dmg_rgb(c),
            decreases 32 - k,
        {
            let ghost before = rgb@;
            let col = if cgb {
                [0u8, 0, 0]
            } else {
                dmg_color(k % 4)
            };
            rgb.push(col[0]);
            rgb.push(col[1]);
            rgb.push(col[2]);
            proof {
                assert forall|p: int, c: int|
                    0 <= p < 8 && 0 <= c < 4 && 4 * p + c < k + 1 && !cgb implies #[trigger] rgb@.subrange(
                    12 * p + 3 * c,
                    12 * p + 3 * c + 3,
                ) == dmg_rgb(c) by {
                    if 4 * p + c < k {
                        assert(rgb@.subrange(12 * p + 3 * c, 12 * p + 3 * c + 3) =~= before.subrange(
                            12 * p + 3 * c,
                            12 * p + 3 * c + 3,
                        ));
                    } else {
                        assert(rgb@.subrange(12 * p + 3 * c, 12 * p + 3 * c + 3) =~= col@);
                    }
                }
            }
            k = k + 1;
        }
        let r = Palette {
            palette_index: vec![d, d],
            palettes_rgb: rgb,
            palettes_555: vec![0u16; 32],
            data_index: 0,
            index_inc: false,
        };
        proof {
            assert forall|i: int, k: int| 0 <= i < 2 && 0 <= k < 4 implies #[trigger] r.palette_index@[i].pal@[k]
                < 4 by {
                assert(r.palette_index@[i] == d);
            }
        }
        r
    }

    /// BCPS/OCPS as read: the index with the auto-increment flag in bit 7.
    pub fn read_index(&self) -> (r: u8)
        requires
            self.wf(),
        ensures
            r == self.data_index + if self.index_inc {
                0x80int
            } else {
                0
            },
    {
        self.data_index as u8 + if self.index_inc {
            0x80u8
        } else {
            0
        }
    }

    /// The palette RAM byte at the index: low or high byte of a BGR555 colour.
    pub fn read_data(&self) -> (r: u8)
        requires
            self.wf(),
        ensures
            r == if self.data_index % 2 == 0 {
                self.palettes_555@[self.data_index as int / 2] % 256
            } else {
                self.palettes_555@[self.data_index as int / 2] / 256
            },
    {
        let c = self.palettes_555[self.data_index / 2];
        if self.data_index % 2 == 0 {
            (c % 256) as u8
        } else {
            (c / 256) as u8
        }
    }

    pub fn write_index(&mut self, index: u8)
        requires
            old(self).wf(),
        ensures
            final(self).wf(),
            final(self).index_inc == (index >= 0x80),
            final(self).data_index == index % 64,
            final(self).palettes_555 == old(self).palettes_555,
            final(self).palettes_rgb == old(self).palettes_rgb,
    {
        self.index_inc = index >= 0x80;
        self.data_index = (index % 64) as usize;
    }

    /// Writes a palette RAM byte (bit 15 of a colour is dropped), converts
    /// the colour to RGB and advances the index when auto-increment is on.
    pub fn write_data(&mut self, data: u8)
        requires
            old(self).wf(),
        ensures
            final(self).wf(),
            ({
                let ci = old(self).data_index as int / 2;
                let old_c = old(self).palettes_555@[ci];
                let c = if old(self).data_index % 2 == 0 {
                    (old_c / 256) * 256 + data
                } else {
                    old_c % 256 + (data % 128) * 256
                };
                &&& final(self).palettes_555@ == old(self).palettes_555@.update(ci, c as u16)
                &&& final(self).rgb(ci / 4, ci % 4) == corrected(c as u16)
            }),
            final(self).data_index == if old(self).index_inc {
                (old(self).data_index + 1) % 64
            } else {
                old(self).data_index as int
            },
    {
        let ci = self.data_index / 2;
        let old_c = self.palettes_555[ci];
        let color: u16 = if self.data_index % 2 == 0 {
            (old_c / 256) * 256 + data as u16
        } else {
            old_c % 256 + (data % 128) as u16 * 256
        };
        self.palettes_555.set(ci, color);
        let r = color % 32;
        let g = (color / 32) % 32;
        let b = (color / 1024) % 32;
        let ra = r * 26 + g * 4 + b * 2;
        let ga = g * 24 + b * 8;
        let ba = r * 6 + g * 4 + b * 22;
        let rc = ((if ra < 960 {
            ra
        } else {
            960
        }) / 4) as u8;
        let gc = ((if ga < 960 {
            ga
        } else {
            960
        }) / 4) as u8;
        let bc = ((if ba < 960 {
            ba
        } else {
            960
        }) / 4) as u8;
        let base = 3 * ci;
        self.palettes_rgb.set(base, rc);
        self.palettes_rgb.set(base + 1, gc);
        self.palettes_rgb.set(base + 2, bc);
        proof {
            assert(self.rgb(ci as int / 4, ci as int % 4) =~= corrected(color));
        }
        if self.index_inc {
            self.data_index = (self.data_index + 1) % 64;
        }
    }

    /// A DMG palette register as last written.
    pub fn read_dmg(&self, pal: u8) -> (r: u8)
        requires
            self.wf(),
            pal < 2,
        ensures
            r == self.palette_index@[pal as int].raw,
    {
        self.palette_index[pal as usize].raw
    }

    /// Writes a DMG palette register and maps its four colours to shades.
    pub fn write_dmg(&mut self, pal: u8, data: u8)
        requires
            old(self).wf(),
            pal < 2,
        ensures
            final(self).wf(),
            final(self).palette_index@[pal as int].raw == data,
            forall|c: int|
                0 <= c < 4 ==> #[trigger] final(self).rgb(pal as int, c) == dmg_rgb(
                    PaletteIndex::spec_from(data)[c] as int,
                ),
    {
        let p = pal as usize;
        let idx = PaletteIndex::from_u8(data);
        self.palette_index.set(p, idx);
        let mut c: usize = 0;
        while c < 4
            invariant
                c <= 4,
                p < 2,
                idx.pal@ == PaletteIndex::spec_from(data),
                idx.raw == data,
                self.wf(),
                self.palette_index@[p as int] == idx,
                forall|k: int|
                    0 <= k < c ==> #[trigger] self.rgb_all().subrange(12 * p + 3 * k, 12 * p + 3 * k + 3)
                        == dmg_rgb(idx.pal@[k] as int),
            decreases 4 - c,
        {
            let col = dmg_color(idx.pal[c]);
            let base = 12 * p + 3 * c;
            let ghost before = self.palettes_rgb@;
            let ghost prev = self.rgb_all();
            self.palettes_rgb.set(base, col[0]);
            self.palettes_rgb.set(base + 1, col[1]);
            self.palettes_rgb.set(base + 2, col[2]);
            proof {
                assert forall|k: int| 0 <= k < c + 1 implies #[trigger] self.rgb_all().subrange(
                    12 * p + 3 * k,
                    12 * p + 3 * k + 3,
                ) == dmg_rgb(idx.pal@[k] as int) by {
                    if k < c {
                        assert(prev.subrange(12 * p + 3 * k, 12 * p + 3 * k + 3) == dmg_rgb(
                            idx.pal@[k] as int,
                        ));
                        assert(self.rgb(p as int, k) =~= before.subrange(
                            12 * p + 3 * k,
                            12 * p + 3 * k + 3,
                        ));
                    } else {
                        assert(self.rgb(p as int, k) =~= col@);
                    }
                }
            }
            c = c + 1;
        }
        proof {
            assert forall|i: int, k: int| 0 <= i < 2 && 0 <= k < 4 implies #[trigger] self.palette_index@[i].pal@[k]
                < 4 by {
                if i == p {
                    assert(PaletteIndex::spec_from(data)[k] < 4);
                }
            }
            assert forall|k: int| 0 <= k < 4 implies #[trigger] self.rgb(pal as int, k) == dmg_rgb(
                PaletteIndex::spec_from(data)[k] as int,
            ) by {
                assert(self.rgb_all().subrange(12 * p + 3 * k, 12 * p + 3 * k + 3) == dmg_rgb(
                    idx.pal@[k] as int,
                ));
            }
        }
    }

    /// The RGB bytes of a colour of a palette (the palette number is taken modulo 8).
    pub fn color(&self, pal: u8, color: TileValue) -> (r: [u8; 3])
        requires
            self.wf(),
        ensures
            r@ == self.rgb(pal as int % 8, tile_number(color)),
    {
        let c: usize = match color {
            TileValue::B00 => 0,
            TileValue::B01 => 1,
            TileValue::B10 => 2,
            TileValue::B11 => 3,
        };
        let base = 12 * (pal % 8) as usize + 3 * c;
        let r = [self.palettes_rgb[base], self.palettes_rgb[base + 1], self.palettes_rgb[base + 2]];
        assert(r@ =~= self.rgb(pal as int % 8, tile_number(color)));
        r
    }
}

} // verus!
