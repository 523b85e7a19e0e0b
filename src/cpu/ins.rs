//! The instruction set: the primary opcode table, the CB-prefixed table and
//! the operations they share.
use vstd::prelude::*;
use super::{Cpu, CpuError, bus_spent, illegal, word_at, ram_addr};
use super::reg::flag_of;
use super::alu::{add_relative, adc_spec, add_hl_spec, add_spec, add_sp_spec, bit_set, daa,
    daa_spec, dec_spec, inc_spec, rl_spec, rlc_spec, rr_spec, rrc_spec, sbc_spec, sla_spec, sra_spec,
    srl_spec, sub_spec, swap_spec};
use super::reg::{Flag, Reg};
use crate::apu::duty::shift_div;
use crate::bus::Bus;

verus! {

/// Register operand `idx` of an opcode (B, C, D, E, H, L, -, A); 6 is
/// memory at HL and has no register value.
pub open spec fn reg_get(r: Reg, idx: int) -> u8 {
    if idx == 0 {
        r.b
    } else if idx == 1 {
        r.c
    } else if idx == 2 {
        r.d
    } else if idx == 3 {
        r.e
    } else if idx == 4 {
        r.h
    } else if idx == 5 {
        r.l
    } else if idx == 7 {
        r.a
    } else {
        0
    }
}

/// The registers with operand `idx` replaced (6, memory, leaves them as they are).
pub open spec fn reg_set(r: Reg, idx: int, v: u8) -> Reg {
    if idx == 0 {
        Reg { b: v, ..r }
    } else if idx == 1 {
        Reg { c: v, ..r }
    } else if idx == 2 {
        Reg { d: v, ..r }
    } else if idx == 3 {
        Reg { e: v, ..r }
    } else if idx == 4 {
        Reg { h: v, ..r }
    } else if idx == 5 {
        Reg { l: v, ..r }
    } else if idx == 7 {
        Reg { a: v, ..r }
    } else {
        r
    }
}

/// The registers after accumulator operation `kind` (ADD, ADC, SUB, SBC,
/// AND, XOR, OR, CP) with operand `v`.
pub open spec fn alu_result(kind: int, r: Reg, v: u8) -> Reg {
    if kind == 0 {
        Reg { a: add_spec(r.a, v).0, f: add_spec(r.a, v).1, ..r }
    } else if kind == 1 {
        Reg { a: adc_spec(r.a, v, r.f.carry).0, f: adc_spec(r.a, v, r.f.carry).1, ..r }
    } else if kind == 2 {
        Reg { a: sub_spec(r.a, v).0, f: sub_spec(r.a, v).1, ..r }
    } else if kind == 3 {
        Reg { a: sbc_spec(r.a, v, r.f.carry).0, f: sbc_spec(r.a, v, r.f.carry).1, ..r }
    } else if kind == 4 {
        Reg {
            a: r.a & v,
            f: Flag { zero: r.a & v == 0, substract: false, half_carry: true, carry: false },
            ..r
        }
    } else if kind == 5 {
        Reg {
            a: r.a ^ v,
            f: Flag { zero: r.a ^ v == 0, substract: false, half_carry: false, carry: false },
            ..r
        }
    } else if kind == 6 {
        Reg {
            a: r.a | v,
            f: Flag { zero: r.a | v == 0, substract: false, half_carry: false, carry: false },
            ..r
        }
    } else {
        Reg { f: sub_spec(r.a, v).1, ..r }
    }
}

/// The CB rotates and shifts by their number in bits 3-5: RLC, RRC, RL,
/// RR, SLA, SRA, SWAP, SRL.
pub open spec fn shift_op_spec(n: int, v: u8, c: bool) -> (u8, Flag) {
    if n == 0 {
        rlc_spec(v)
    } else if n == 1 {
        rrc_spec(v)
    } else if n == 2 {
        rl_spec(v, c)
    } else if n == 3 {
        rr_spec(v, c)
    } else if n == 4 {
        sla_spec(v)
    } else if n == 5 {
        sra_spec(v)
    } else if n == 6 {
        swap_spec(v)
    } else {
        srl_spec(v)
    }
}

/// The value with bit `n` cleared.
pub open spec fn res_spec(v: u8, n: int) -> u8 {
    if bit_set(v, n) {
        (v - shift_div(n)) as u8
    } else {
        v
    }
}

/// The value with bit `n` set.
pub open spec fn set_spec(v: u8, n: int) -> u8 {
    if bit_set(v, n) {
        v
    } else {
        (v + shift_div(n)) as u8
    }
}

/// `2^n` for a bit number `n < 8`.
fn bit_value(n: u8) -> (r: u8)
    requires
        n < 8,
    ensures
        r == shift_div(n as int),
{
    if n == 0 {
        1
    } else if n == 1 {
        2
    } else if n == 2 {
        4
    } else if n == 3 {
        8
    } else if n == 4 {
        16
    } else if n == 5 {
        32
    } else if n == 6 {
        64
    } else {
        128
    }
}

impl Cpu {
    /// Register operand `idx` of an opcode: B, C, D, E, H, L, (HL), A.
    fn get_r(&mut self, io: &mut Bus, idx: u8) -> (r: u8)
        requires
            old(io).wf(),
            idx < 8,
        ensures
            bus_spent(*old(io), *final(io), 4),
            *final(self) == *old(self),
            idx != 6 ==> r == reg_get(old(self).reg, idx as int),
            idx == 6 ==> (old(io).known_byte(old(self).reg.hl_spec()) matches Some(v) ==> r == v),
            idx != 6 ==> *final(io) == *old(io),
            final(io).mem == old(io).mem && final(io).cart == old(io).cart,
    {
        if idx == 0 {
            self.reg.b
        } else if idx == 1 {
            self.reg.c
        } else if idx == 2 {
            self.reg.d
        } else if idx == 3 {
            self.reg.e
        } else if idx == 4 {
            self.reg.h
        } else if idx == 5 {
            self.reg.l
        } else if idx == 6 {
            let hl = self.reg.hl();
            self.read(io, hl)
        } else {
            self.reg.a
        }
    }

    /// Stores into register operand `idx` (6 writes memory at HL).
    fn set_r(&mut self, io: &mut Bus, idx: u8, v: u8)
        requires
            old(io).wf(),
            idx < 8,
        ensures
            bus_spent(*old(io), *final(io), 4),
            *final(self) == (Cpu { reg: reg_set(old(self).reg, idx as int, v), ..*old(self) }),
            idx != 6 ==> *final(io) == *old(io),
            idx == 6 && ram_addr(old(self).reg.hl_spec()) ==> final(io).mem.byte(old(self).reg.hl_spec())
                == v,
    {
        if idx == 0 {
            self.reg.b = v;
        } else if idx == 1 {
            self.reg.c = v;
        } else if idx == 2 {
            self.reg.d = v;
        } else if idx == 3 {
            self.reg.e = v;
        } else if idx == 4 {
            self.reg.h = v;
        } else if idx == 5 {
            self.reg.l = v;
        } else if idx == 6 {
            let hl = self.reg.hl();
            self.write(io, hl, v);
        } else {
            self.reg.a = v;
        }
    }

    /// Executes one primary opcode (0xcb runs the prefixed table). Fails
    /// exactly on the eleven undefined opcodes.
    #[verifier::rlimit(80)]
    pub fn dispatch_op(&mut self, op: u8, io: &mut Bus) -> (r: Result<(), CpuError>)
        requires
            old(io).wf(),
        ensures
            bus_spent(*old(io), *final(io), 20),
            final(self).cgb == old(self).cgb,
            r is Err <==> illegal(op),
            r is Err ==> r == Err::<(), CpuError>(CpuError::InvalidOpcode(op)),
            r is Err ==> *final(self) == *old(self) && *final(io) == *old(io),
            op == 0xf1 ==> final(self).reg == (Reg {
                a: final(self).reg.a,
                f: final(self).reg.f,
                sp: ((old(self).reg.sp + 2) % 0x10000) as u16,
                ..old(self).reg
            }) && (word_at(*old(io), old(self).reg.sp) matches Some(w) ==> final(self).reg.a == (w / 256) as u8
                && final(self).reg.f == flag_of((w % 256) as u8)),
            op >= 0xc0 && op % 8 == 7 ==> ({
                let hi = ((old(self).reg.sp + 0xffff) % 0x10000) as u16;
                let lo = ((old(self).reg.sp + 0xfffe) % 0x10000) as u16;
                ram_addr(hi) && ram_addr(lo) ==> final(io).mem.byte(hi) == old(self).reg.pc / 256
                    && final(io).mem.byte(lo) == old(self).reg.pc % 256
            }),
            op >= 0xc0 && op % 8 == 7 ==> final(self).reg == (Reg {
                pc: (op - 0xc7) as u16,
                sp: ((old(self).reg.sp + 0x10000 - 2) % 0x10000) as u16,
                ..old(self).reg
            }),
            op == 0xf8 ==> (old(io).known_byte(old(self).reg.pc) matches Some(e) ==> final(self).reg == (Reg {
                h: (add_sp_spec(old(self).reg.sp, e).0 / 256) as u8,
                l: (add_sp_spec(old(self).reg.sp, e).0 % 256) as u8,
                f: add_sp_spec(old(self).reg.sp, e).1,
                pc: ((old(self).reg.pc + 1) % 0x10000) as u16,
                ..old(self).reg
            })),
            op == 0x27 ==> final(self).reg == (Reg {
                a: daa_spec(old(self).reg.a, old(self).reg.f).0,
                f: daa_spec(old(self).reg.a, old(self).reg.f).1,
                ..old(self).reg
            }),
            op == 0x10 ==> final(self).reg == (Reg {
                pc: ((old(self).reg.pc + 1) % 0x10000) as u16,
                ..old(self).reg
            }),
            op == 0x10 && old(self).cgb && old(io).prepare_speed_switch ==> final(io).speed_mode != old(io).speed_mode && !final(io).prepare_speed_switch,
            op == 0x10 && !(old(self).cgb && old(io).prepare_speed_switch) ==> final(io).speed_mode == old(io).speed_mode && final(io).prepare_speed_switch == old(io).prepare_speed_switch,
            0x80 <= op < 0xc0 && op % 8 == 6 ==> (old(io).known_byte(old(self).reg.hl_spec()) matches Some(
                v,
            ) ==> final(self).reg == alu_result((op as int / 8) % 8, old(self).reg, v)),
            0x40 <= op < 0x80 && op != 0x76 && op % 8 != 6 && (op / 8) % 8 != 6 ==> final(self).reg
                == reg_set(old(self).reg, (op as int / 8) % 8, reg_get(old(self).reg, op as int % 8)),
            op == 0x76 ==> final(self).halt && final(self).reg == old(self).reg,
            0x80 <= op < 0xc0 && op % 8 != 6 ==> final(self).reg == alu_result(
                (op as int / 8) % 8,
                old(self).reg,
                reg_get(old(self).reg, op as int % 8),
            ),
    {
        if op < 0x40 {
            self.dispatch_misc(op, io);
            Ok(())
        } else if op < 0x80 {
            self.dispatch_load(op, io);
            Ok(())
        } else if op < 0xc0 {
            let v = self.get_r(io, op % 8);
            self.alu((op / 8) % 8, v);
            Ok(())
        } else {
            self.dispatch_control(op, io)
        }
    }

    /// Opcodes 0x00-0x3f: 16-bit loads and arithmetic, INC/DEC/LD r,n,
    /// accumulator rotates, relative jumps, DAA, CPL, SCF, CCF, STOP.
    #[verifier::rlimit(80)]
    fn dispatch_misc(&mut self, op: u8, io: &mut Bus)
        requires
            old(io).wf(),
            op < 0x40,
        ensures
            bus_spent(*old(io), *final(io), 16),
            final(self).cgb == old(self).cgb,
            op == 0x27 ==> final(self).reg == (Reg {
                a: daa_spec(old(self).reg.a, old(self).reg.f).0,
                f: daa_spec(old(self).reg.a, old(self).reg.f).1,
                ..old(self).reg
            }),
            op == 0x10 ==> final(self).reg == (Reg {
                pc: ((old(self).reg.pc + 1) % 0x10000) as u16,
                ..old(self).reg
            }),
            op == 0x10 && old(self).cgb && old(io).prepare_speed_switch ==> final(io).speed_mode != old(io).speed_mode && !final(io).prepare_speed_switch,
            op == 0x10 && !(old(self).cgb && old(io).prepare_speed_switch) ==> final(io).speed_mode == old(io).speed_mode && final(io).prepare_speed_switch == old(io).prepare_speed_switch,
    {
        let idx = (op / 8) % 8;
        let low = op % 8;
        if low == 4 {
            let v = self.get_r(io, idx);
            let n = self.inc(v);
            self.set_r(io, idx, n);
        } else if low == 5 {
            let v = self.get_r(io, idx);
            let n = self.dec(v);
            self.set_r(io, idx, n);
        } else if low == 6 {
            let n = self.fetch_byte(io);
            self.set_r(io, idx, n);
        } else if op == 0x00 {
        } else if op == 0x01 {
            let w = self.fetch_word(io);
            self.reg.set_bc(w);
        } else if op == 0x02 {
            let bc = self.reg.bc();
            self.write(io, bc, self.reg.a);
        } else if op == 0x03 {
            let w = self.reg.bc().wrapping_add(1);
            self.reg.set_bc(w);
            self.internal(io);
        } else if op == 0x07 {
            let a = self.rlc(self.reg.a);
            self.reg.a = a;
            self.reg.f.zero = false;
        } else if op == 0x08 {
            let word = self.fetch_word(io);
            let sp = self.reg.sp;
            self.write_word(io, word, sp);
        } else if op == 0x09 {
            let v = self.reg.bc();
            self.add_hl(v);
            self.internal(io);
        } else if op == 0x0a {
            let bc = self.reg.bc();
            self.reg.a = self.read(io, bc);
        } else if op == 0x0b {
            let w = self.reg.bc().wrapping_sub(1);
            self.reg.set_bc(w);
            self.internal(io);
        } else if op == 0x0f {
            let a = self.rrc(self.reg.a);
            self.reg.a = a;
            self.reg.f.zero = false;
        } else if op == 0x10 {
            let _ = self.fetch_byte(io);
            if self.cgb {
                io.switch_mode();
            }
        } else if op == 0x11 {
            let w = self.fetch_word(io);
            self.reg.set_de(w);
        } else if op == 0x12 {
            let de = self.reg.de();
            self.write(io, de, self.reg.a);
        } else if op == 0x13 {
            let w = self.reg.de().wrapping_add(1);
            self.reg.set_de(w);
            self.internal(io);
        } else if op == 0x17 {
            let a = self.rl(self.reg.a);
            self.reg.a = a;
            self.reg.f.zero = false;
        } else if op == 0x18 {
            self.jump_relative(io);
        } else if op == 0x19 {
            let v = self.reg.de();
            self.add_hl(v);
            self.internal(io);
        } else if op == 0x1a {
            let de = self.reg.de();
            self.reg.a = self.read(io, de);
        } else if op == 0x1b {
            let w = self.reg.de().wrapping_sub(1);
            self.reg.set_de(w);
            self.internal(io);
        } else if op == 0x1f {
            let a = self.rr(self.reg.a);
            self.reg.a = a;
            self.reg.f.zero = false;
        } else if op == 0x20 {
            let cond = !self.reg.f.zero;
            self.jump_relative_cond(io, cond);
        } else if op == 0x21 {
            let w = self.fetch_word(io);
            self.reg.set_hl(w);
        } else if op == 0x22 {
            let hl = self.reg.hl();
            self.write(io, hl, self.reg.a);
            self.reg.set_hl(hl.wrapping_add(1));
        } else if op == 0x23 {
            let w = self.reg.hl().wrapping_add(1);
            self.reg.set_hl(w);
            self.internal(io);
        } else if op == 0x27 {
            self.daa();
        } else if op == 0x28 {
            let cond = self.reg.f.zero;
            self.jump_relative_cond(io, cond);
        } else if op == 0x29 {
            let v = self.reg.hl();
            self.add_hl(v);
            self.internal(io);
        } else if op == 0x2a {
            let hl = self.reg.hl();
            self.reg.a = self.read(io, hl);
            self.reg.set_hl(hl.wrapping_add(1));
        } else if op == 0x2b {
            let w = self.reg.hl().wrapping_sub(1);
            self.reg.set_hl(w);
            self.internal(io);
        } else if op == 0x2f {
            self.cpl();
        } else if op == 0x30 {
            let cond = !self.reg.f.carry;
            self.jump_relative_cond(io, cond);
        } else if op == 0x31 {
            self.reg.sp = self.fetch_word(io);
        } else if op == 0x32 {
            let hl = self.reg.hl();
            self.write(io, hl, self.reg.a);
            self.reg.set_hl(hl.wrapping_sub(1));
        } else if op == 0x33 {
            self.reg.sp = self.reg.sp.wrapping_add(1);
            self.internal(io);
        } else if op == 0x37 {
            self.scf();
        } else if op == 0x38 {
            let cond = self.reg.f.carry;
            self.jump_relative_cond(io, cond);
        } else if op == 0x39 {
            let v = self.reg.sp;
            self.add_hl(v);
            self.internal(io);
        } else if op == 0x3a {
            let hl = self.reg.hl();
            self.reg.a = self.read(io, hl);
            self.reg.set_hl(hl.wrapping_sub(1));
        } else if op == 0x3b {
            self.reg.sp = self.reg.sp.wrapping_sub(1);
            self.internal(io);
        } else {
            self.ccf();
        }
    }

    /// Opcodes 0x40-0x7f: `LD r, r'` (destination in bits 3-5, source in
    /// bits 0-2), and HALT at 0x76.
    fn dispatch_load(&mut self, op: u8, io: &mut Bus)
        requires
            old(io).wf(),
            0x40 <= op < 0x80,
        ensures
            bus_spent(*old(io), *final(io), 8),
            final(self).cgb == old(self).cgb,
            op == 0x76 ==> final(self).halt && final(self).reg == old(self).reg,
            op != 0x76 && op % 8 != 6 && (op / 8) % 8 != 6 ==> final(self).reg == reg_set(
                old(self).reg,
                (op as int / 8) % 8,
                reg_get(old(self).reg, op as int % 8),
            ),
    {
        if op == 0x76 {
            self.halt = true;
        } else {
            let v = self.get_r(io, op % 8);
            self.set_r(io, (op / 8) % 8, v);
        }
    }

    /// The eight accumulator operations: ADD, ADC, SUB, SBC, AND, XOR, OR, CP.
    fn alu(&mut self, kind: u8, v: u8)
        requires
            kind < 8,
        ensures
            *final(self) == (Cpu { reg: alu_result(kind as int, old(self).reg, v), ..*old(self) }),
    {
        if kind == 0 {
            self.add(v);
        } else if kind == 1 {
            self.adc(v);
        } else if kind == 2 {
            self.sub(v);
        } else if kind == 3 {
            self.sbc(v);
        } else if kind == 4 {
            self.and(v);
        } else if kind == 5 {
            self.xor(v);
        } else if kind == 6 {
            self.or(v);
        } else {
            self.cp(v);
        }
    }

    /// Opcodes 0xc0-0xff: returns, pops and pushes, jumps, calls, restarts,
    /// immediate ALU operations, high-page loads, SP arithmetic, DI/EI.
    #[verifier::rlimit(80)]
    fn dispatch_control(&mut self, op: u8, io: &mut Bus) -> (r: Result<(), CpuError>)
        requires
            old(io).wf(),
            op >= 0xc0,
        ensures
            bus_spent(*old(io), *final(io), 20),
            final(self).cgb == old(self).cgb,
            r is Err <==> illegal(op),
            r is Err ==> r == Err::<(), CpuError>(CpuError::InvalidOpcode(op)),
            r is Err ==> *final(self) == *old(self) && *final(io) == *old(io),
            op == 0xf1 ==> final(self).reg == (Reg {
                a: final(self).reg.a,
                f: final(self).reg.f,
                sp: ((old(self).reg.sp + 2) % 0x10000) as u16,
                ..old(self).reg
            }) && (word_at(*old(io), old(self).reg.sp) matches Some(w) ==> final(self).reg.a == (w / 256) as u8
                && final(self).reg.f == flag_of((w % 256) as u8)),
            op >= 0xc0 && op % 8 == 7 ==> ({
                let hi = ((old(self).reg.sp + 0xffff) % 0x10000) as u16;
                let lo = ((old(self).reg.sp + 0xfffe) % 0x10000) as u16;
                ram_addr(hi) && ram_addr(lo) ==> final(io).mem.byte(hi) == old(self).reg.pc / 256
                    && final(io).mem.byte(lo) == old(self).reg.pc % 256
            }),
            op >= 0xc0 && op % 8 == 7 ==> final(self).reg == (Reg {
                pc: (op - 0xc7) as u16,
                sp: ((old(self).reg.sp + 0x10000 - 2) % 0x10000) as u16,
                ..old(self).reg
            }),
            op == 0xf8 ==> (old(io).known_byte(old(self).reg.pc) matches Some(e) ==> final(self).reg == (Reg {
                h: (add_sp_spec(old(self).reg.sp, e).0 / 256) as u8,
                l: (add_sp_spec(old(self).reg.sp, e).0 % 256) as u8,
                f: add_sp_spec(old(self).reg.sp, e).1,
                pc: ((old(self).reg.pc + 1) % 0x10000) as u16,
                ..old(self).reg
            })),
    {
        if op == 0xd3 || op == 0xdb || op == 0xdd || op == 0xe3 || op == 0xe4 || op == 0xeb || op
            == 0xec || op == 0xed || op == 0xf4 || op == 0xfc || op == 0xfd {
            return Err(CpuError::InvalidOpcode(op));
        }
        let low = op % 8;
        if low == 6 {
            let n = self.fetch_byte(io);
            self.alu((op / 8) % 8, n);
        } else if low == 7 {
            self.internal(io);
            let pc = self.reg.pc;
            self.push(io, pc);
            self.reg.pc = (op - 0xc7) as u16;
        } else if op == 0xc0 {
            let cond = !self.reg.f.zero;
            self.ret_cond(io, cond);
        } else if op == 0xc1 {
            let w = self.pop(io);
            self.reg.set_bc(w);
        } else if op == 0xc2 {
            let cond = !self.reg.f.zero;
            self.jump_cond(io, cond);
        } else if op == 0xc3 {
            self.reg.pc = self.fetch_word(io);
            self.internal(io);
        } else if op == 0xc4 {
            let cond = !self.reg.f.zero;
            self.call_cond(io, cond);
        } else if op == 0xc5 {
            self.internal(io);
            let w = self.reg.bc();
            self.push(io, w);
        } else if op == 0xc8 {
            let cond = self.reg.f.zero;
            self.ret_cond(io, cond);
        } else if op == 0xc9 {
            self.ret(io);
        } else if op == 0xca {
            let cond = self.reg.f.zero;
            self.jump_cond(io, cond);
        } else if op == 0xcb {
            let cb = self.fetch_byte(io);
            self.dispatch_op_cb(cb, io);
        } else if op == 0xcc {
            let cond = self.reg.f.zero;
            self.call_cond(io, cond);
        } else if op == 0xcd {
            let word = self.fetch_word(io);
            self.call(io, word);
        } else if op == 0xd0 {
            let cond = !self.reg.f.carry;
            self.ret_cond(io, cond);
        } else if op == 0xd1 {
            let w = self.pop(io);
            self.reg.set_de(w);
        } else if op == 0xd2 {
            let cond = !self.reg.f.carry;
            self.jump_cond(io, cond);
        } else if op == 0xd4 {
            let cond = !self.reg.f.carry;
            self.call_cond(io, cond);
        } else if op == 0xd5 {
            self.internal(io);
            let w = self.reg.de();
            self.push(io, w);
        } else if op == 0xd8 {
            let cond = self.reg.f.carry;
            self.ret_cond(io, cond);
        } else if op == 0xd9 {
            self.reti(io);
        } else if op == 0xda {
            let cond = self.reg.f.carry;
            self.jump_cond(io, cond);
        } else if op == 0xdc {
            let cond = self.reg.f.carry;
            self.call_cond(io, cond);
        } else if op == 0xe0 {
            let port = self.fetch_byte(io);
            let a = self.reg.a;
            self.write_io(io, port, a);
        } else if op == 0xe1 {
            let w = self.pop(io);
            self.reg.set_hl(w);
        } else if op == 0xe2 {
            let port = self.reg.c;
            let a = self.reg.a;
            self.write_io(io, port, a);
        } else if op == 0xe5 {
            self.internal(io);
            let w = self.reg.hl();
            self.push(io, w);
        } else if op == 0xe8 {
            let byte = self.fetch_byte(io);
            self.add_sp(byte);
            self.internal(io);
            self.internal(io);
        } else if op == 0xe9 {
            self.reg.pc = self.reg.hl();
        } else if op == 0xea {
            let addr = self.fetch_word(io);
            self.write(io, addr, self.reg.a);
        } else if op == 0xf0 {
            let port = self.fetch_byte(io);
            self.reg.a = self.read_io(io, port);
        } else if op == 0xf1 {
            let w = self.pop(io);
            self.reg.set_af(w);
        } else if op == 0xf2 {
            let port = self.reg.c;
            self.reg.a = self.read_io(io, port);
        } else if op == 0xf3 {
            self.interrupt_master_enable = false;
        } else if op == 0xf5 {
            self.internal(io);
            let w = self.reg.af();
            self.push(io, w);
        } else if op == 0xf8 {
            let byte = self.fetch_byte(io);
            let sp = self.reg.sp;
            self.add_sp(byte);
            let hl = self.reg.sp;
            self.reg.set_hl(hl);
            self.reg.sp = sp;
            self.internal(io);
        } else if op == 0xf9 {
            self.reg.sp = self.reg.hl();
            self.internal(io);
        } else if op == 0xfa {
            let addr = self.fetch_word(io);
            self.reg.a = self.read(io, addr);
        } else {
            self.interrupt_enable_delay = true;
        }
        Ok(())
    }

    /// Executes one CB-prefixed opcode: rotates, shifts and SWAP (bits 6-7
    /// clear), BIT, RES and SET, on the register operand in bits 0-2.
    #[verifier::rlimit(80)]
    pub fn dispatch_op_cb(&mut self, op: u8, io: &mut Bus)
        requires
            old(io).wf(),
        ensures
            bus_spent(*old(io), *final(io), 8),
            final(self).cgb == old(self).cgb,
            ({
                let idx = op as int % 8;
                let n = (op as int / 8) % 8;
                let r0 = old(self).reg;
                let v = reg_get(r0, idx);
                &&& op < 0x40 && idx != 6 ==> final(self).reg == reg_set(
                    Reg { f: shift_op_spec(n, v, r0.f.carry).1, ..r0 },
                    idx,
                    shift_op_spec(n, v, r0.f.carry).0,
                )
                &&& 0x40 <= op < 0x80 && idx == 6 ==> (old(io).known_byte(r0.hl_spec()) matches Some(m)
                    ==> final(self).reg == Reg {
                    f: Flag {
                        zero: !bit_set(m, n),
                        substract: false,
                        half_carry: true,
                        carry: r0.f.carry,
                    },
                    ..r0
                })
                &&& 0x40 <= op < 0x80 && idx != 6 ==> final(self).reg == Reg {
                    f: Flag {
                        zero: !bit_set(v, n),
                        substract: false,
                        half_carry: true,
                        carry: r0.f.carry,
                    },
                    ..r0
                }
                &&& idx != 6 || (0x40 <= op < 0x80) ==> final(io).mem == old(io).mem && final(io).cart
                    == old(io).cart
                &&& idx != 6 ==> *final(io) == *old(io)
                &&& idx == 6 && ram_addr(r0.hl_spec()) ==> {
                    let m = old(io).mem.byte(r0.hl_spec());
                    &&& op < 0x40 ==> final(self).reg == Reg { f: shift_op_spec(n, m, r0.f.carry).1, ..r0 }
                        && final(io).mem.byte(r0.hl_spec()) == shift_op_spec(n, m, r0.f.carry).0
                    &&& 0x80 <= op < 0xc0 ==> final(self).reg == r0 && final(io).mem.byte(r0.hl_spec())
                        == res_spec(m, n)
                    &&& 0xc0 <= op ==> final(self).reg == r0 && final(io).mem.byte(r0.hl_spec())
                        == set_spec(m, n)
                }
                &&& 0x80 <= op < 0xc0 && idx != 6 ==> final(self).reg == reg_set(r0, idx, res_spec(v, n))
                &&& 0xc0 <= op && idx != 6 ==> final(self).reg == reg_set(r0, idx, set_spec(v, n))
            }),
    {
        let idx = op % 8;
        let n = (op / 8) % 8;
        let group = op / 64;
        let v = self.get_r(io, idx);
        if group == 0 {
            let r = self.shift_op(n, v);
            self.set_r(io, idx, r);
        } else if group == 1 {
            self.bit(n, v);
        } else if group == 2 {
            let r = self.res(n, v);
            self.set_r(io, idx, r);
        } else {
            let r = self.set(n, v);
            self.set_r(io, idx, r);
        }
    }

    /// A CB rotate or shift by its number (0-7).
    fn shift_op(&mut self, n: u8, v: u8) -> (r: u8)
        requires
            n < 8,
        ensures
            r == shift_op_spec(n as int, v, old(self).reg.f.carry).0,
            *final(self) == (Cpu {
                reg: Reg { f: shift_op_spec(n as int, v, old(self).reg.f.carry).1, ..old(self).reg },
                ..*old(self)
            }),
    {
        if n == 0 {
            self.rlc(v)
        } else if n == 1 {
            self.rrc(v)
        } else if n == 2 {
            self.rl(v)
        } else if n == 3 {
            self.rr(v)
        } else if n == 4 {
            self.sla(v)
        } else if n == 5 {
            self.sra(v)
        } else if n == 6 {
            self.swap(v)
        } else {
            self.srl(v)
        }
    }

    /// JR e: PC += e, one idle cycle.
    fn jump_relative(&mut self, io: &mut Bus)
        requires
            old(io).wf(),
        ensures
            bus_spent(*old(io), *final(io), 8),
            final(self).cgb == old(self).cgb,
    {
        let offset = self.fetch_byte(io);
        self.reg.pc = add_relative(self.reg.pc, offset);
        self.internal(io);
    }

    /// JR cc, e: the offset is always fetched; the jump and its idle cycle
    /// only when the condition holds.
    fn jump_relative_cond(&mut self, io: &mut Bus, cond: bool)
        requires
            old(io).wf(),
        ensures
            bus_spent(*old(io), *final(io), 8),
            final(self).cgb == old(self).cgb,
            !cond ==> final(self).reg.pc == (old(self).reg.pc + 1) % 0x10000,
    {
        let offset = self.fetch_byte(io);
        if cond {
            self.reg.pc = add_relative(self.reg.pc, offset);
            self.internal(io);
        }
    }

    /// JP cc, nn.
    fn jump_cond(&mut self, io: &mut Bus, cond: bool)
        requires
            old(io).wf(),
        ensures
            bus_spent(*old(io), *final(io), 12),
            final(self).cgb == old(self).cgb,
            !cond ==> final(self).reg.pc == (old(self).reg.pc + 2) % 0x10000,
    {
        let addr = self.fetch_word(io);
        if cond {
            self.reg.pc = addr;
            self.internal(io);
        }
    }

    /// RET: pop PC, one idle cycle.
    fn ret(&mut self, io: &mut Bus)
        requires
            old(io).wf(),
        ensures
            bus_spent(*old(io), *final(io), 12),
            final(self).cgb == old(self).cgb,
            final(self).interrupt_master_enable == old(self).interrupt_master_enable,
    {
        self.reg.pc = self.pop(io);
        self.internal(io);
    }

    /// RETI: RET and enable interrupts at once.
    fn reti(&mut self, io: &mut Bus)
        requires
            old(io).wf(),
        ensures
            bus_spent(*old(io), *final(io), 12),
            final(self).cgb == old(self).cgb,
            final(self).interrupt_master_enable,
    {
        self.ret(io);
        self.interrupt_master_enable = true;
    }

    /// RET cc: one idle cycle for the test, then RET when it holds.
    fn ret_cond(&mut self, io: &mut Bus, cond: bool)
        requires
            old(io).wf(),
        ensures
            bus_spent(*old(io), *final(io), 16),
            final(self).cgb == old(self).cgb,
            !cond ==> final(self).reg == old(self).reg,
    {
        self.internal(io);
        if cond {
            self.ret(io);
        }
    }

    /// CALL: one idle cycle, push PC, jump.
    fn call(&mut self, io: &mut Bus, addr: u16)
        requires
            old(io).wf(),
        ensures
            bus_spent(*old(io), *final(io), 12),
            final(self).cgb == old(self).cgb,
            final(self).reg.pc == addr,
    {
        self.internal(io);
        let pc = self.reg.pc;
        self.push(io, pc);
        self.reg.pc = addr;
    }

    /// CALL cc, nn: the address is always fetched; the call only when the
    /// condition holds.
    fn call_cond(&mut self, io: &mut Bus, cond: bool)
        requires
            old(io).wf(),
        ensures
            bus_spent(*old(io), *final(io), 20),
            final(self).cgb == old(self).cgb,
            !cond ==> final(self).reg.pc == (old(self).reg.pc + 2) % 0x10000,
    {
        let addr = self.fetch_word(io);
        if cond {
            self.call(io, addr);
        }
    }

    pub fn add(&mut self, right: u8)
        ensures
            *final(self) == (Cpu {
                reg: Reg {
                    a: add_spec(old(self).reg.a, right).0,
                    f: add_spec(old(self).reg.a, right).1,
                    ..old(self).reg
                },
                ..*old(self)
            }),
    {
        let left = self.reg.a;
        let sum = left as u16 + right as u16;
        let new = (sum % 256) as u8;
        self.reg.f = Flag {
            zero: new == 0,
            substract: false,
            half_carry: left % 16 + right % 16 > 15,
            carry: sum > 255,
        };
        self.reg.a = new;
    }

    pub fn adc(&mut self, right: u8)
        ensures
            *final(self) == (Cpu {
                reg: Reg {
                    a: adc_spec(old(self).reg.a, right, old(self).reg.f.carry).0,
                    f: adc_spec(old(self).reg.a, right, old(self).reg.f.carry).1,
                    ..old(self).reg
                },
                ..*old(self)
            }),
    {
        let left = self.reg.a;
        let c: u16 = if self.reg.f.carry {
            1
        } else {
            0
        };
        let sum = left as u16 + right as u16 + c;
        let new = (sum % 256) as u8;
        self.reg.f = Flag {
            zero: new == 0,
            substract: false,
            half_carry: (left % 16) as u16 + (right % 16) as u16 + c > 15,
            carry: sum > 255,
        };
        self.reg.a = new;
    }

    pub fn sub(&mut self, right: u8)
        ensures
            *final(self) == (Cpu {
                reg: Reg {
                    a: sub_spec(old(self).reg.a, right).0,
                    f: sub_spec(old(self).reg.a, right).1,
                    ..old(self).reg
                },
                ..*old(self)
            }),
    {
        let left = self.reg.a;
        let new = ((left as u16 + 256 - right as u16) % 256) as u8;
        self.reg.f = Flag {
            zero: new == 0,
            substract: true,
            half_carry: left % 16 < right % 16,
            carry: left < right,
        };
        self.reg.a = new;
    }

    pub fn sbc(&mut self, right: u8)
        ensures
            *final(self) == (Cpu {
                reg: Reg {
                    a: sbc_spec(old(self).reg.a, right, old(self).reg.f.carry).0,
                    f: sbc_spec(old(self).reg.a, right, old(self).reg.f.carry).1,
                    ..old(self).reg
                },
                ..*old(self)
            }),
    {
        let left = self.reg.a;
        let c: u16 = if self.reg.f.carry {
            1
        } else {
            0
        };
        let new = ((left as u16 + 512 - right as u16 - c) % 256) as u8;
        self.reg.f = Flag {
            zero: new == 0,
            substract: true,
            half_carry: ((left % 16) as u16) < (right % 16) as u16 + c,
            carry: (left as u16) < right as u16 + c,
        };
        self.reg.a = new;
    }

    pub fn and(&mut self, right: u8)
        ensures
            *final(self) == (Cpu {
                reg: Reg {
                    a: old(self).reg.a & right,
                    f: Flag {
                        zero: old(self).reg.a & right == 0,
                        substract: false,
                        half_carry: true,
                        carry: false,
                    },
                    ..old(self).reg
                },
                ..*old(self)
            }),
    {
        let new = self.reg.a & right;
        self.reg.f = Flag { zero: new == 0, substract: false, half_carry: true, carry: false };
        self.reg.a = new;
    }

    pub fn xor(&mut self, right: u8)
        ensures
            *final(self) == (Cpu {
                reg: Reg {
                    a: old(self).reg.a ^ right,
                    f: Flag {
                        zero: old(self).reg.a ^ right == 0,
                        substract: false,
                        half_carry: false,
                        carry: false,
                    },
                    ..old(self).reg
                },
                ..*old(self)
            }),
    {
        let new = self.reg.a ^ right;
        self.reg.f = Flag { zero: new == 0, substract: false, half_carry: false, carry: false };
        self.reg.a = new;
    }

    pub fn or(&mut self, right: u8)
        ensures
            *final(self) == (Cpu {
                reg: Reg {
                    a: old(self).reg.a | right,
                    f: Flag {
                        zero: old(self).reg.a | right == 0,
                        substract: false,
                        half_carry: false,
                        carry: false,
                    },
                    ..old(self).reg
                },
                ..*old(self)
            }),
    {
        let new = self.reg.a | right;
        self.reg.f = Flag { zero: new == 0, substract: false, half_carry: false, carry: false };
        self.reg.a = new;
    }

    pub fn cp(&mut self, right: u8)
        ensures
            *final(self) == (Cpu {
                reg: Reg { f: sub_spec(old(self).reg.a, right).1, ..old(self).reg },
                ..*old(self)
            }),
    {
        let left = self.reg.a;
        let new = ((left as u16 + 256 - right as u16) % 256) as u8;
        self.reg.f = Flag {
            zero: new == 0,
            substract: true,
            half_carry: left % 16 < right % 16,
            carry: left < right,
        };
    }

    pub fn inc(&mut self, value: u8) -> (r: u8)
        ensures
            r == inc_spec(value, old(self).reg.f.carry).0,
            *final(self) == (Cpu {
                reg: Reg { f: inc_spec(value, old(self).reg.f.carry).1, ..old(self).reg },
                ..*old(self)
            }),
    {
        let new = ((value as u16 + 1) % 256) as u8;
        self.reg.f.zero = new == 0;
        self.reg.f.substract = false;
        self.reg.f.half_carry = value % 16 == 15;
        new
    }

    pub fn dec(&mut self, value: u8) -> (r: u8)
        ensures
            r == dec_spec(value, old(self).reg.f.carry).0,
            *final(self) == (Cpu {
                reg: Reg { f: dec_spec(value, old(self).reg.f.carry).1, ..old(self).reg },
                ..*old(self)
            }),
    {
        let new = ((value as u16 + 255) % 256) as u8;
        self.reg.f.zero = new == 0;
        self.reg.f.substract = true;
        self.reg.f.half_carry = value % 16 == 0;
        new
    }

    pub fn rl(&mut self, value: u8) -> (r: u8)
        ensures
            r == rl_spec(value, old(self).reg.f.carry).0,
            *final(self) == (Cpu {
                reg: Reg { f: rl_spec(value, old(self).reg.f.carry).1, ..old(self).reg },
                ..*old(self)
            }),
    {
        let c: u8 = if self.reg.f.carry {
            1
        } else {
            0
        };
        let new = (value % 128) * 2 + c;
        self.reg.f = Flag { zero: new == 0, substract: false, half_carry: false, carry: value >= 128 };
        new
    }

    pub fn rr(&mut self, value: u8) -> (r: u8)
        ensures
            r == rr_spec(value, old(self).reg.f.carry).0,
            *final(self) == (Cpu {
                reg: Reg { f: rr_spec(value, old(self).reg.f.carry).1, ..old(self).reg },
                ..*old(self)
            }),
    {
        let c: u8 = if self.reg.f.carry {
            128
        } else {
            0
        };
        let new = value / 2 + c;
        self.reg.f = Flag { zero: new == 0, substract: false, half_carry: false, carry: value % 2 == 1 };
        new
    }

    pub fn rlc(&mut self, value: u8) -> (r: u8)
        ensures
            r == rlc_spec(value).0,
            *final(self) == (Cpu { reg: Reg { f: rlc_spec(value).1, ..old(self).reg }, ..*old(self) }),
    {
        let new = (value % 128) * 2 + value / 128;
        self.reg.f = Flag { zero: new == 0, substract: false, half_carry: false, carry: value >= 128 };
        new
    }

    pub fn rrc(&mut self, value: u8) -> (r: u8)
        ensures
            r == rrc_spec(value).0,
            *final(self) == (Cpu { reg: Reg { f: rrc_spec(value).1, ..old(self).reg }, ..*old(self) }),
    {
        let new = value / 2 + (value % 2) * 128;
        self.reg.f = Flag { zero: new == 0, substract: false, half_carry: false, carry: value % 2 == 1 };
        new
    }

    pub fn sla(&mut self, value: u8) -> (r: u8)
        ensures
            r == sla_spec(value).0,
            *final(self) == (Cpu { reg: Reg { f: sla_spec(value).1, ..old(self).reg }, ..*old(self) }),
    {
        let new = (value % 128) * 2;
        self.reg.f = Flag { zero: new == 0, substract: false, half_carry: false, carry: value >= 128 };
        new
    }

    pub fn sra(&mut self, value: u8) -> (r: u8)
        ensures
            r == sra_spec(value).0,
            *final(self) == (Cpu { reg: Reg { f: sra_spec(value).1, ..old(self).reg }, ..*old(self) }),
    {
        let top: u8 = if value >= 128 {
            128
        } else {
            0
        };
        let new = value / 2 + top;
        self.reg.f = Flag { zero: new == 0, substract: false, half_carry: false, carry: value % 2 == 1 };
        new
    }

    pub fn srl(&mut self, value: u8) -> (r: u8)
        ensures
            r == srl_spec(value).0,
            *final(self) == (Cpu { reg: Reg { f: srl_spec(value).1, ..old(self).reg }, ..*old(self) }),
    {
        let new = value / 2;
        self.reg.f = Flag { zero: new == 0, substract: false, half_carry: false, carry: value % 2 == 1 };
        new
    }

    pub fn swap(&mut self, value: u8) -> (r: u8)
        ensures
            r == swap_spec(value).0,
            *final(self) == (Cpu { reg: Reg { f: swap_spec(value).1, ..old(self).reg }, ..*old(self) }),
    {
        let new = (value % 16) * 16 + value / 16;
        self.reg.f = Flag { zero: new == 0, substract: false, half_carry: false, carry: false };
        new
    }

    /// BIT n: Z when the bit is clear, N clear, H set, C kept.
    pub fn bit(&mut self, n: u8, value: u8) -> (r: u8)
        requires
            n < 8,
        ensures
            r == value,
            *final(self) == (Cpu {
                reg: Reg {
                    f: Flag {
                        zero: !bit_set(value, n as int),
                        substract: false,
                        half_carry: true,
                        carry: old(self).reg.f.carry,
                    },
                    ..old(self).reg
                },
                ..*old(self)
            }),
    {
        let d = bit_value(n);
        self.reg.f.zero = (value / d) % 2 == 0;
        self.reg.f.substract = false;
        self.reg.f.half_carry = true;
        value
    }

    /// RES n: the value with bit n cleared.
    pub fn res(&self, n: u8, value: u8) -> (r: u8)
        requires
            n < 8,
        ensures
            r == if bit_set(value, n as int) {
                value - shift_div(n as int)
            } else {
                value as int
            },
    {
        let d = bit_value(n);
        if (value / d) % 2 == 1 {
            value - d
        } else {
            value
        }
    }

    /// SET n: the value with bit n set.
    pub fn set(&self, n: u8, value: u8) -> (r: u8)
        requires
            n < 8,
        ensures
            r == if bit_set(value, n as int) {
                value as int
            } else {
                value + shift_div(n as int)
            },
    {
        let d = bit_value(n);
        if (value / d) % 2 == 1 {
            value
        } else {
            proof {
                lemma_set_fits(value, d);
            }
            value + d
        }
    }

    pub fn add_hl(&mut self, right: u16)
        ensures
            ({
                let (r, f) = add_hl_spec(old(self).reg.hl_spec(), right, old(self).reg.f.zero);
                *final(self) == (Cpu {
                    reg: Reg { h: (r / 256) as u8, l: (r % 256) as u8, f, ..old(self).reg },
                    ..*old(self)
                })
            }),
    {
        let hl = self.reg.hl();
        let sum = hl as u32 + right as u32;
        self.reg.f.substract = false;
        self.reg.f.half_carry = hl % 4096 + right % 4096 > 4095;
        self.reg.f.carry = sum > 65535;
        self.reg.set_hl((sum % 65536) as u16);
    }

    pub fn add_sp(&mut self, signed: u8)
        ensures
            *final(self) == (Cpu {
                reg: Reg {
                    sp: add_sp_spec(old(self).reg.sp, signed).0,
                    f: add_sp_spec(old(self).reg.sp, signed).1,
                    ..old(self).reg
                },
                ..*old(self)
            }),
    {
        let old_sp = self.reg.sp;
        self.reg.sp = add_relative(old_sp, signed);
        self.reg.f = Flag {
            zero: false,
            substract: false,
            half_carry: old_sp % 16 + (signed % 16) as u16 > 15,
            carry: old_sp % 256 + signed as u16 > 255,
        };
    }

    /// DAA on A and the flags.
    pub fn daa(&mut self)
        ensures
            *final(self) == (Cpu {
                reg: Reg {
                    a: daa_spec(old(self).reg.a, old(self).reg.f).0,
                    f: daa_spec(old(self).reg.a, old(self).reg.f).1,
                    ..old(self).reg
                },
                ..*old(self)
            }),
    {
        let (a, f) = daa(self.reg.a, self.reg.f);
        self.reg.a = a;
        self.reg.f = f;
    }

    /// CPL: A inverted, N and H set.
    pub fn cpl(&mut self)
        ensures
            *final(self) == (Cpu {
                reg: Reg {
                    a: (255 - old(self).reg.a) as u8,
                    f: Flag { substract: true, half_carry: true, ..old(self).reg.f },
                    ..old(self).reg
                },
                ..*old(self)
            }),
    {
        self.reg.a = 255 - self.reg.a;
        self.reg.f.substract = true;
        self.reg.f.half_carry = true;
    }

    /// CCF: carry inverted, N and H cleared.
    pub fn ccf(&mut self)
        ensures
            *final(self) == (Cpu {
                reg: Reg {
                    f: Flag {
                        substract: false,
                        half_carry: false,
                        carry: !old(self).reg.f.carry,
                        ..old(self).reg.f
                    },
                    ..old(self).reg
                },
                ..*old(self)
            }),
    {
        let carry = !self.reg.f.carry;
        self.reg.f.substract = false;
        self.reg.f.half_carry = false;
        self.reg.f.carry = carry;
    }

    /// SCF: carry set, N and H cleared.
    pub fn scf(&mut self)
        ensures
            *final(self) == (Cpu {
                reg: Reg {
                    f: Flag { substract: false, half_carry: false, carry: true, ..old(self).reg.f },
                    ..old(self).reg
                },
                ..*old(self)
            }),
    {
        self.reg.f.substract = false;
        self.reg.f.half_carry = false;
        self.reg.f.carry = true;
    }
}

proof fn lemma_set_fits(value: u8, d: u8)
    requires
        d == 1 || d == 2 || d == 4 || d == 8 || d == 16 || d == 32 || d == 64 || d == 128,
        (value / d) % 2 == 0,
    ensures
        value + d <= 255,
{
    assert(value + d <= 255) by (nonlinear_arith)
        requires
            d == 1 || d == 2 || d == 4 || d == 8 || d == 16 || d == 32 || d == 64 || d == 128,
            (value / d) % 2 == 0,
            value <= 255,
    ;
}

} // verus!
