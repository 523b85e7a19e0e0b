//! The audio unit: two square channels, a wave channel and a noise channel,
//! clocked by a 512 Hz frame sequencer and mixed into stereo.
use vstd::prelude::*;
use crate::bits::lemma_u8_bits;
use frameseq::FrameSequencer;
use mixer::{Mixer, is_mix, mixed_of};
use noise::Noise;
use square::Square;
use square2::Square2;
use wave::Wave;

pub mod duty;
pub mod envelope;
pub mod frameseq;
pub mod lencounter;
pub mod lfsr;
pub mod mixer;
pub mod noise;
pub mod square;
pub mod square2;
pub mod wave;
pub mod sweep;
pub mod timer;
pub mod wavetable;

verus! {

/// Whether a channel is running.
#[derive(Clone, Copy, Debug, PartialEq, Eq, Structural)]
pub enum ChannelMode {
    On,
    Off,
}

/// Whether a channel's DAC is powered.
#[derive(Clone, Copy, Debug, PartialEq, Eq, Structural)]
pub enum DacMode {
    On,
    Off,
}

/// The frequency with its low byte replaced.
pub open spec fn spec_freq_low(freq: u32, data: u8) -> u32 {
    ((freq / 256) * 256 + data) as u32
}

/// The frequency with its three high bits replaced by the low bits of `data`.
pub open spec fn spec_freq_high(freq: u32, data: u8) -> u32 {
    (freq % 256 + (data % 8) * 256) as u32
}

pub fn freq_high(freq: u32, data: u8) -> (r: u32)
    requires
        freq < 2048,
    ensures
        r == spec_freq_high(freq, data),
        r < 2048,
{
    freq % 256 + (data % 8) as u32 * 256
}

pub fn freq_low(freq: u32, data: u8) -> (r: u32)
    requires
        freq < 2048,
    ensures
        r == spec_freq_low(freq, data),
        r < 2048,
{
    (freq / 256) * 256 + data as u32
}

/// Timer period, in CPU clocks, of a rate in Hz.
pub fn freq_to_period(freq: u32) -> (r: u32)
    requires
        freq > 0,
    ensures
        r == crate::GB_CLOCK_SPEED / freq,
{
    crate::GB_CLOCK_SPEED / freq
}

/// Bits that read back as one for each sound register (0xff10-0xff2f),
/// where the register is write-only or unused.
pub open spec fn read_mask(addr: u16) -> u8 {
    if addr == 0xff10 {
        0x80
    } else if addr == 0xff11 || addr == 0xff16 {
        0x3f
    } else if addr == 0xff12 || addr == 0xff17 || addr == 0xff21 || addr == 0xff22 || addr
        == 0xff24 || addr == 0xff25 {
        0x00
    } else if addr == 0xff14 || addr == 0xff19 || addr == 0xff1e || addr == 0xff23 {
        0xbf
    } else if addr == 0xff1a {
        0x7f
    } else if addr == 0xff1c {
        0x9f
    } else {
        0xff
    }
}

fn read_mask_of(addr: u16) -> (r: u8)
    ensures
        r == read_mask(addr),
{
    if addr == 0xff10 {
        0x80
    } else if addr == 0xff11 || addr == 0xff16 {
        0x3f
    } else if addr == 0xff12 || addr == 0xff17 || addr == 0xff21 || addr == 0xff22 || addr
        == 0xff24 || addr == 0xff25 {
        0x00
    } else if addr == 0xff14 || addr == 0xff19 || addr == 0xff1e || addr == 0xff23 {
        0xbf
    } else if addr == 0xff1a {
        0x7f
    } else if addr == 0xff1c {
        0x9f
    } else {
        0xff
    }
}

pub struct Apu {
    pub frameseq: FrameSequencer,
    pub square1: Square,
    pub square2: Square2,
    pub noise: Noise,
    pub wave: Wave,
    pub mixer: Mixer,
    /// The bytes last written to 0xff10-0xff3f.
    pub regs: Vec<u8>,
    pub sound_enable: bool,
    /// Mixed `(left, right)` samples, one per audio clock, not yet handed out.
    pub samples: Vec<(u8, u8)>,
    /// Samples mixed since power-on, handed out or not.
    pub mixed: Ghost<nat>,
}

/// The audio unit after `clocks` clocks, as `update` leaves it: one sample
/// appended per clock, each a mix of the channels while sound is on and
/// silence while it is off.
pub open spec fn advanced(old: Apu, new: Apu, clocks: int) -> bool {
    &&& new.sound_enable == old.sound_enable
    &&& new.regs == old.regs
    &&& new.mixer == old.mixer
    &&& new.samples@.len() == old.samples@.len() + clocks
    &&& new.mixed@ == old.mixed@ + clocks
    &&& new.samples@.subrange(0, old.samples@.len() as int) == old.samples@
    &&& forall|i: int|
        old.samples@.len() <= i < new.samples@.len() ==> if old.sound_enable {
            is_mix(old.mixer, #[trigger] new.samples@[i])
        } else {
            new.samples@[i] == (0u8, 0u8)
        }
}

impl Apu {
    pub open spec fn wf(&self) -> bool {
        &&& self.frameseq.wf()
        &&& self.square1.wf()
        &&& self.square2.wf()
        &&& self.noise.wf()
        &&& self.wave.wf()
        &&& self.mixer.wf()
        &&& self.regs@.len() == 0x30
    }

    /// NR52 without its unused bits: master enable and the four channels' on-states.
    pub open spec fn control(&self) -> u8 {
        ((if self.sound_enable {
            0x80int
        } else {
            0
        }) + (if self.noise.on() {
            0x08int
        } else {
            0
        }) + (if self.wave.on() {
            0x04int
        } else {
            0
        }) + (if self.square2.on() {
            0x02int
        } else {
            0
        }) + (if self.square1.on() {
            0x01int
        } else {
            0
        })) as u8
    }

    pub fn new() -> (r: Self)
        ensures
            r.wf(),
            !r.sound_enable,
            r.samples@.len() == 0,
            forall|i: int| 0 <= i < 0x30 ==> #[trigger] r.regs@[i] == 0,
    {
        Apu {
            frameseq: FrameSequencer::new(),
            square1: Square::new(),
            square2: Square2::new(),
            noise: Noise::new(),
            wave: Wave::new(),
            mixer: Mixer::new(),
            regs: vec![0u8; 0x30],
            sound_enable: false,
            samples: Vec::new(),
            mixed: Ghost(0),
        }
    }

    /// Reads a sound register: the byte last written with its unreadable
    /// bits set, NR52 from the live channel states, wave RAM from the table.
    pub fn read(&self, addr: u16) -> (r: u8)
        requires
            self.wf(),
            0xff10 <= addr <= 0xff3f,
        ensures
            addr < 0xff26 || 0xff26 < addr < 0xff30 ==> r == self.regs@[addr - 0xff10] | read_mask(
                addr,
            ),
            addr == 0xff26 ==> r == self.control() | 0x70,
            0xff30 <= addr && !self.wave.on() ==> r == self.wave.wave_table.wave_table@[2 * (addr
                - 0xff30)] * 16 + self.wave.wave_table.wave_table@[2 * (addr - 0xff30) + 1],
    {
        let offset = (addr - 0xff10) as usize;
        if addr == 0xff26 {
            self.read_control() | 0x70
        } else if addr >= 0xff30 {
            self.wave.read_wave(addr - 0xff30)
        } else {
            self.regs[offset] | read_mask_of(addr)
        }
    }

    /// Writes a sound register. While sound is off only NR41 and NR52 are
    /// accepted. Clearing NR52's bit 7 zeroes every other register and turns
    /// sound off; setting it turns sound on with the sequencer on step 7.
    pub fn write(&mut self, addr: u16, data: u8)
        requires
            old(self).wf(),
            0xff10 <= addr <= 0xff3f,
        ensures
            final(self).wf(),
            final(self).samples == old(self).samples,
            final(self).mixed == old(self).mixed,
            !old(self).sound_enable && addr != 0xff20 && addr != 0xff26 ==> *final(self) == *old(self),
            (old(self).sound_enable || addr == 0xff20) && addr != 0xff26 ==> final(self).regs@[addr
                - 0xff10] == data && final(self).sound_enable == old(self).sound_enable,
            addr == 0xff26 ==> final(self).sound_enable == (data >= 0x80),
            addr == 0xff26 && old(self).sound_enable && data < 0x80 ==> forall|i: int|
                0 <= i < 0x20 && i != 0x16 ==> #[trigger] final(self).regs@[i] == 0,
            addr == 0xff26 && !old(self).sound_enable && data >= 0x80 ==> final(self).frameseq.step == 7,
            old(self).sound_enable && addr == 0xff10 ==> square::x0_written(old(self).square1, final(self).square1, data),
            old(self).sound_enable && addr == 0xff11 ==> square::x1_written(old(self).square1, final(self).square1, data),
            old(self).sound_enable && addr == 0xff12 ==> square::x2_written(old(self).square1, final(self).square1, data),
            old(self).sound_enable && addr == 0xff13 ==> square::x3_written(old(self).square1, final(self).square1, data),
            old(self).sound_enable && addr == 0xff14 ==> square::x4_written(old(self).square1, final(self).square1, data),
            addr != 0xff26 && 0xff15 <= addr ==> final(self).square1 == old(self).square1,
    {
        proof {
            lemma_u8_bits();
        }
        if !self.sound_enable {
            if addr != 0xff20 && addr != 0xff26 {
                return;
            }
        }
        if addr == 0xff26 {
            self.regs.set((addr - 0xff10) as usize, data);
            if self.sound_enable && (data & 0x80 == 0) {
                self.sound_off();
            } else if !self.sound_enable && (data & 0x80 != 0) {
                self.frameseq.set_step(7);
                self.sound_enable = true;
            }
        } else {
            self.write_reg(addr, data);
        }
    }

    /// Stores a register other than NR52 and hands it to its channel.
    fn write_reg(&mut self, addr: u16, data: u8)
        requires
            old(self).wf(),
            0xff10 <= addr <= 0xff3f,
            addr != 0xff26,
        ensures
            final(self).wf(),
            final(self).regs@ == old(self).regs@.update(addr - 0xff10, data),
            final(self).sound_enable == old(self).sound_enable,
            final(self).samples == old(self).samples,
            final(self).mixed == old(self).mixed,
            final(self).frameseq == old(self).frameseq,
            addr == 0xff10 ==> square::x0_written(old(self).square1, final(self).square1, data),
            addr == 0xff11 ==> square::x1_written(old(self).square1, final(self).square1, data),
            addr == 0xff12 ==> square::x2_written(old(self).square1, final(self).square1, data),
            addr == 0xff13 ==> square::x3_written(old(self).square1, final(self).square1, data),
            addr == 0xff14 ==> square::x4_written(old(self).square1, final(self).square1, data),
            0xff15 <= addr ==> final(self).square1 == old(self).square1,
            addr < 0xff15 || 0xff1a <= addr ==> final(self).square2 == old(self).square2,
            addr < 0xff1a || 0xff1f <= addr < 0xff30 ==> final(self).wave == old(self).wave,
            addr < 0xff20 || 0xff23 < addr ==> final(self).noise == old(self).noise,
    {
        self.regs.set((addr - 0xff10) as usize, data);
        if addr == 0xff10 {
            self.square1.set_x0(data);
        } else if addr == 0xff11 {
            self.square1.set_x1(data);
        } else if addr == 0xff12 {
            self.square1.set_x2(data);
        } else if addr == 0xff13 {
            self.square1.set_x3(data);
        } else if addr == 0xff14 {
            self.square1.set_x4(data);
        } else if addr == 0xff16 {
            self.square2.set_x1(data);
        } else if addr == 0xff17 {
            self.square2.set_x2(data);
        } else if addr == 0xff18 {
            self.square2.set_x3(data);
        } else if addr == 0xff19 {
            self.square2.set_x4(data);
        } else if addr == 0xff1a {
            self.wave.set_x0(data);
        } else if addr == 0xff1b {
            self.wave.set_x1(data);
        } else if addr == 0xff1c {
            self.wave.set_x2(data);
        } else if addr == 0xff1d {
            self.wave.set_x3(data);
        } else if addr == 0xff1e {
            self.wave.set_x4(data);
        } else if addr == 0xff20 {
            self.noise.set_x1(data);
        } else if addr == 0xff21 {
            self.noise.set_x2(data);
        } else if addr == 0xff22 {
            self.noise.set_x3(data);
        } else if addr == 0xff23 {
            self.noise.set_x4(data);
        } else if addr == 0xff24 {
            self.mixer.set_volume(data);
        } else if addr == 0xff25 {
            self.mixer.set_output(data);
        } else if addr >= 0xff30 {
            self.wave.write_wave(addr - 0xff30, data);
        }
    }

    fn read_control(&self) -> (r: u8)
        ensures
            r == self.control(),
    {
        let mut r: u8 = 0;
        if self.sound_enable {
            r = r + 0x80;
        }
        if self.noise.is_on() {
            r = r + 0x08;
        }
        if self.wave.is_on() {
            r = r + 0x04;
        }
        if self.square2.is_on() {
            r = r + 0x02;
        }
        if self.square1.is_on() {
            r = r + 0x01;
        }
        r
    }

    /// Zeroes every sound register but NR52 through the channels, then
    /// turns sound off.
    fn sound_off(&mut self)
        requires
            old(self).wf(),
        ensures
            final(self).wf(),
            !final(self).sound_enable,
            final(self).samples == old(self).samples,
            final(self).mixed == old(self).mixed,
            final(self).regs@[0x16] == old(self).regs@[0x16],
            forall|i: int| 0 <= i < 0x20 && i != 0x16 ==> #[trigger] final(self).regs@[i] == 0,
    {
        let mut addr: u16 = 0xff10;
        while addr < 0xff30
            invariant
                0xff10 <= addr <= 0xff30,
                self.wf(),
                self.samples == old(self).samples,
                self.mixed == old(self).mixed,
                self.regs@[0x16] == old(self).regs@[0x16],
                forall|i: int| 0 <= i < addr - 0xff10 && i != 0x16 ==> #[trigger] self.regs@[i] == 0,
            decreases 0xff30 - addr,
        {
            if addr != 0xff26 {
                self.write_reg(addr, 0);
            }
            addr = addr + 1;
        }
        self.sound_enable = false;
    }

    /// Runs the audio unit for `clocks` clocks, appending one mixed sample
    /// per clock (silence, `(0, 0)`, while sound is off).
    #[verifier::rlimit(80)]
    pub fn update(&mut self, clocks: u32)
        requires
            old(self).wf(),
        ensures
            final(self).wf(),
            final(self).sound_enable == old(self).sound_enable,
            final(self).regs == old(self).regs,
            final(self).samples@.len() == old(self).samples@.len() + clocks,
            final(self).mixed@ == old(self).mixed@ + clocks,
            final(self).samples@.subrange(0, old(self).samples@.len() as int) == old(self).samples@,
            !old(self).sound_enable ==> forall|i: int|
                old(self).samples@.len() <= i < final(self).samples@.len() ==> #[trigger] final(self).samples@[i] == (0u8, 0u8),
            final(self).mixer == old(self).mixer,
            advanced(*old(self), *final(self), clocks as int),
            old(self).sound_enable ==> forall|i: int|
                old(self).samples@.len() <= i < final(self).samples@.len() ==> is_mix(
                    old(self).mixer,
                    #[trigger] final(self).samples@[i],
                ),
    {
        let mut n: u32 = 0;
        while n < clocks
            invariant
                n <= clocks,
                self.wf(),
                self.sound_enable == old(self).sound_enable,
                self.regs == old(self).regs,
                self.samples@.len() == old(self).samples@.len() + n,
                self.mixed@ == old(self).mixed@ + n,
                self.samples@.subrange(0, old(self).samples@.len() as int) == old(self).samples@,
                !old(self).sound_enable ==> forall|i: int|
                    old(self).samples@.len() <= i < self.samples@.len() ==> #[trigger] self.samples@[i]
                        == (0u8, 0u8),
                self.mixer == old(self).mixer,
                old(self).sound_enable ==> forall|i: int|
                    old(self).samples@.len() <= i < self.samples@.len() ==> is_mix(
                        old(self).mixer,
                        #[trigger] self.samples@[i],
                    ),
            decreases clocks - n,
        {
            let ghost before = self.samples@;
            if self.sound_enable {
                self.frame_sequence();
                let c1 = self.square1.next();
                let c2 = self.square2.next();
                let c3 = self.wave.next();
                let c4 = self.noise.next();
                let chs: [u8; 4] = [c1, c2, c3, c4];
                let (left, right) = self.mixer.mix(chs);
                proof {
                    assert(mixed_of(self.mixer, chs@) == (left, right));
                }
                self.samples.push((left, right));
            } else {
                self.samples.push((0, 0));
            }
            assert(self.samples@.subrange(0, old(self).samples@.len() as int) =~= before.subrange(
                0,
                old(self).samples@.len() as int,
            ));
            self.mixed = Ghost(self.mixed@ + 1);
            n = n + 1;
        }
    }

    /// Dispatches a frame sequencer step: length on even steps, sweep on 2
    /// and 6, envelopes on 7.
    fn frame_sequence(&mut self)
        requires
            old(self).wf(),
        ensures
            final(self).wf(),
            final(self).sound_enable == old(self).sound_enable,
            final(self).regs == old(self).regs,
            final(self).samples == old(self).samples,
            final(self).mixed == old(self).mixed,
            final(self).mixer == old(self).mixer,
    {
        if let Some(step) = self.frameseq.next() {
            if step % 2 == 0 {
                self.square1.tick_len_counter();
                self.square2.tick_len_counter();
                self.wave.tick_len_counter();
                self.noise.tick_len_counter();
            }
            if step == 2 || step == 6 {
                self.square1.tick_sweep();
            }
            if step == 7 {
                self.square1.tick_envelope();
                self.square2.tick_envelope();
                self.noise.tick_envelope();
            }
        }
    }

    /// Hands out the samples mixed since the last call, oldest first.
    pub fn output(&mut self) -> (r: Vec<(u8, u8)>)
        requires
            old(self).wf(),
        ensures
            final(self).wf(),
            *final(self) == (Apu { samples: final(self).samples, ..*old(self) }),
            r@ == old(self).samples@,
            final(self).samples@.len() == 0,
            final(self).regs == old(self).regs,
            final(self).sound_enable == old(self).sound_enable,
    {
        let mut out: Vec<(u8, u8)> = Vec::new();
        std::mem::swap(&mut out, &mut self.samples);
        out
    }
}

} // verus!
