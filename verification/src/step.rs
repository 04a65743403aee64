//! The instruction interpreter: a single-step executor that fetches one
//! opcode at `PC`, advances `PC`, dispatches, and mutates the architectural
//! state. Every path is proved equal to the spec-level transition function
//! `spec_step`. Dispatch is by the four opcode quadrants, and within a
//! quadrant by the rows and columns of the 8080 opcode matrix.

use vstd::prelude::*;

use crate::flags::{get_cy, get_p, get_s, get_z, spec_p, spec_s, spec_z};
use crate::model::Cpu;
use crate::isa::{
    spec_alu, spec_alu_reg, spec_cond, spec_ctrl, spec_imm16, spec_misc, spec_mov, spec_pair_get,
    spec_pair_set, spec_reg_read, spec_reg_write, spec_step,
};
use crate::state::State8080;

verus! {

impl State8080 {
    /// The little-endian 16-bit immediate at `PC`.
    fn imm16(&self) -> (v: u16)
        requires
            self.wf(),
        ensures
            v == spec_imm16(self@),
    {
        let lo = self.rd(self.pc);
        let hi = self.rd(self.pc.wrapping_add(1));
        (hi as u16) * 256 + (lo as u16)
    }

    /// Read the source register of index `r` (6 reads the byte at `HL`).
    fn reg_src(&self, r: u8) -> (v: u8)
        requires
            self.wf(),
            r < 8,
        ensures
            v == spec_reg_read(self@, r as int),
    {
        match r {
            0 => self.b,
            1 => self.c,
            2 => self.d,
            3 => self.e,
            4 => self.h,
            5 => self.l,
            6 => self.rd(self.hl()),
            _ => self.a,
        }
    }

    /// Write `v` to the destination register of index `r` (6 writes the byte
    /// at `HL`).
    fn reg_dst_write(&mut self, r: u8, v: u8)
        requires
            old(self).wf(),
            r < 8,
        ensures
            final(self).wf(),
            final(self)@ == spec_reg_write(old(self)@, r as int, v),
    {
        match r {
            0 => self.b = v,
            1 => self.c = v,
            2 => self.d = v,
            3 => self.e = v,
            4 => self.h = v,
            5 => self.l = v,
            6 => {
                let addr = self.hl();
                self.wr(addr, v);
            },
            _ => self.a = v,
        }
    }

    /// Read register pair `rp`: BC, DE, HL or SP.
    fn pair_read(&self, rp: u8) -> (v: u16)
        requires
            self.wf(),
            rp < 4,
        ensures
            v == spec_pair_get(self@, rp as int),
    {
        match rp {
            0 => self.bc(),
            1 => self.de(),
            2 => self.hl(),
            _ => self.sp,
        }
    }

    /// Write `v` to register pair `rp`: BC, DE, HL or SP.
    fn pair_write(&mut self, rp: u8, v: u16)
        requires
            old(self).wf(),
            rp < 4,
        ensures
            final(self).wf(),
            final(self)@ == spec_pair_set(old(self)@, rp as int, v),
    {
        match rp {
            0 => self.update_bc(v),
            1 => self.update_de(v),
            2 => self.update_hl(v),
            _ => self.sp = v,
        }
    }

    /// Set Z, S, P from a logical result and force CY to 0 (AC is left
    /// alone: the ISA leaves it undefined for the logical group).
    fn logic_flags(&mut self, r: u8)
        ensures
            final(self)@ == (Cpu {
                z: spec_z(r),
                s: spec_s(r),
                p: spec_p(r),
                cy: 0,
                ..old(self)@
            }),
    {
        self.cc.z = get_z(r);
        self.cc.s = get_s(r);
        self.cc.p = get_p(r);
        self.cc.cy = 0;
    }

    /// Apply arithmetic/logical operation `kind` with operand `x` to the
    /// accumulator and flags.
    fn alu_apply(&mut self, kind: u8, x: u8)
        requires
            old(self).wf(),
            kind < 8,
        ensures
            final(self).wf(),
            final(self)@ == spec_alu(old(self)@, kind as int, x),
    {
        if kind == 0 {
            let a = self.a;
            let v = self.add(a, x);
            self.a = v;
        } else if kind == 1 {
            let a = self.a;
            let v = self.adc(a, x);
            self.a = v;
        } else if kind == 2 {
            let a = self.a;
            let v = self.sub(a, x);
            self.a = v;
        } else if kind == 3 {
            let a = self.a;
            let v = self.sbb(a, x);
            self.a = v;
        } else if kind == 4 {
            let v = self.a & x;
            self.a = v;
            self.logic_flags(v);
        } else if kind == 5 {
            let v = self.a ^ x;
            self.a = v;
            self.logic_flags(v);
        } else if kind == 6 {
            let v = self.a | x;
            self.a = v;
            self.logic_flags(v);
        } else {
            let a = self.a;
            let _r: u8 = self.sub(a, x);
        }
    }

    /// Test the branch predicate of row `row`: NZ, Z, NC, C, PO, PE, P, M.
    fn test_cond(&self, row: u8) -> (r: bool)
        requires
            self.wf(),
            row < 8,
        ensures
            r == spec_cond(self@, row as int),
    {
        match row {
            0 => self.cc.z == 0,
            1 => self.cc.z != 0,
            2 => self.cc.cy == 0,
            3 => self.cc.cy != 0,
            4 => self.cc.p == 0,
            5 => self.cc.p != 0,
            6 => self.cc.s == 0,
            _ => self.cc.s != 0,
        }
    }

    /// The opcode quadrant `0x00..0x40`.
    fn op_misc(&mut self, op: u8)
        requires
            old(self).wf(),
            op < 0x40,
        ensures
            final(self).wf(),
            final(self)@ == spec_misc(op, old(self)@),
    {
        let col = op % 8;
        let row = (op / 8) % 8;
        let rp = op / 16;
        if col == 0 {
            // NOP and its undocumented aliases
        } else if col == 1 {
            if op % 16 == 1 {
                // LXI rp,d16
                let v = self.imm16();
                self.pc = self.pc.wrapping_add(2);
                self.pair_write(rp, v);
            } else {
                // DAD rp
                let hl = self.hl();
                let other = self.pair_read(rp);
                let sum: u32 = hl as u32 + other as u32;
                let r: u16 = if sum > 0xFFFF {
                    (sum - 0x10000) as u16
                } else {
                    sum as u16
                };
                self.cc.cy = get_cy(sum > 0xFFFF);
                self.update_hl(r);
            }
        } else if col == 2 {
            if op == 0x02 {
                // STAX B
                let addr = self.bc();
                let v = self.a;
                self.wr(addr, v);
            } else if op == 0x12 {
                // STAX D
                let addr = self.de();
                let v = self.a;
                self.wr(addr, v);
            } else if op == 0x22 {
                // SHLD a16
                let addr = self.imm16();
                let l = self.l;
                let h = self.h;
                self.wr(addr, l);
                self.wr(addr.wrapping_add(1), h);
                self.pc = self.pc.wrapping_add(2);
            } else if op == 0x32 {
                // STA a16
                let addr = self.imm16();
                let v = self.a;
                self.wr(addr, v);
                self.pc = self.pc.wrapping_add(2);
            } else if op == 0x0A {
                // LDAX B
                let addr = self.bc();
                self.a = self.rd(addr);
            } else if op == 0x1A {
                // LDAX D
                let addr = self.de();
                self.a = self.rd(addr);
            } else if op == 0x2A {
                // LHLD a16
                let addr = self.imm16();
                self.l = self.rd(addr);
                self.h = self.rd(addr.wrapping_add(1));
                self.pc = self.pc.wrapping_add(2);
            } else {
                // LDA a16
                let addr = self.imm16();
                self.a = self.rd(addr);
                self.pc = self.pc.wrapping_add(2);
            }
        } else if col == 3 {
            if op % 16 == 3 {
                // INX rp
                let v = self.pair_read(rp);
                self.pair_write(rp, v.wrapping_add(1));
            } else {
                // DCX rp
                let v = self.pair_read(rp);
                self.pair_write(rp, v.wrapping_sub(1));
            }
        } else if col == 4 {
            // INR r
            let x = self.reg_src(row);
            let r: u8 = if x == 255 {
                0
            } else {
                x + 1
            };
            self.reg_dst_write(row, r);
            self.cc.z = get_z(r);
            self.cc.s = get_s(r);
            self.cc.p = get_p(r);
            self.cc.ac = if x % 16 == 15 {
                1
            } else {
                0
            };
        } else if col == 5 {
            // DCR r
            let x = self.reg_src(row);
            let r: u8 = if x == 0 {
                255
            } else {
                x - 1
            };
            self.reg_dst_write(row, r);
            self.cc.z = get_z(r);
            self.cc.s = get_s(r);
            self.cc.p = get_p(r);
            self.cc.ac = if x % 16 == 0 {
                1
            } else {
                0
            };
        } else if col == 6 {
            // MVI r,d8
            let v = self.rd(self.pc);
            self.reg_dst_write(row, v);
            self.pc = self.pc.wrapping_add(1);
        } else {
            if op == 0x07 {
                // RLC
                let a = self.a;
                self.a = (a % 128) * 2 + a / 128;
                self.cc.cy = a / 128;
            } else if op == 0x0F {
                // RRC
                let a = self.a;
                self.a = (a % 2) * 128 + a / 2;
                self.cc.cy = a % 2;
            } else if op == 0x17 {
                // RAL
                let a = self.a;
                let cin = self.cc.cy;
                self.a = (a % 128) * 2 + cin;
                self.cc.cy = a / 128;
            } else if op == 0x1F {
                // RAR
                let a = self.a;
                let cin = self.cc.cy;
                self.a = cin * 128 + a / 2;
                self.cc.cy = a % 2;
            } else if op == 0x27 {
                // DAA: not modelled, leaves the state unchanged
            } else if op == 0x2F {
                // CMA
                self.a = 255 - self.a;
            } else if op == 0x37 {
                // STC
                self.cc.cy = 1;
            } else {
                // CMC
                self.cc.cy = 1 - self.cc.cy;
            }
        }
    }

    /// The opcode quadrant `0x40..0x80`: MOV and HLT.
    fn op_mov(&mut self, op: u8)
        requires
            old(self).wf(),
            0x40 <= op < 0x80,
        ensures
            final(self).wf(),
            final(self)@ == spec_mov(op, old(self)@),
    {
        if op == 0x76 {
            // HLT
            self.halted = true;
        } else {
            let v = self.reg_src(op % 8);
            self.reg_dst_write((op / 8) % 8, v);
        }
    }

    /// The opcode quadrant `0x80..0xC0`: the register-operand ALU group.
    fn op_alu(&mut self, op: u8)
        requires
            old(self).wf(),
            0x80 <= op < 0xC0,
        ensures
            final(self).wf(),
            final(self)@ == spec_alu_reg(op, old(self)@),
    {
        let x = self.reg_src(op % 8);
        self.alu_apply((op / 8) % 8, x);
    }

    /// The opcode quadrant `0xC0..0x100`: branches, calls, returns, stack
    /// operations, immediates, restarts and machine control.
    fn op_ctrl(&mut self, op: u8)
        requires
            old(self).wf(),
            0xC0 <= op,
        ensures
            final(self).wf(),
            final(self)@ == spec_ctrl(op, old(self)@),
    {
        let col = op % 8;
        let row = (op / 8) % 8;
        let rp = (op / 16) % 4;
        if col == 0 {
            // Rcond
            if self.test_cond(row) {
                let v = self.pop16();
                self.pc = v;
            }
        } else if col == 1 {
            if op == 0xC9 {
                // RET
                let v = self.pop16();
                self.pc = v;
            } else if op == 0xD9 {
                // undocumented alias, a no-op
            } else if op == 0xE9 {
                // PCHL
                self.pc = self.hl();
            } else if op == 0xF9 {
                // SPHL
                self.sp = self.hl();
            } else {
                // POP rp
                let v = self.pop16();
                if rp == 0 {
                    self.update_bc(v);
                } else if rp == 1 {
                    self.update_de(v);
                } else if rp == 2 {
                    self.update_hl(v);
                } else {
                    // POP PSW: restore A and all five flag bits
                    self.a = (v / 256) as u8;
                    let f = (v % 256) as u8;
                    self.cc.s = (f / 128) % 2;
                    self.cc.z = (f / 64) % 2;
                    self.cc.ac = (f / 16) % 2;
                    self.cc.p = (f / 4) % 2;
                    self.cc.cy = f % 2;
                }
            }
        } else if col == 2 {
            // Jcond a16
            let addr = self.imm16();
            if self.test_cond(row) {
                self.pc = addr;
            } else {
                self.pc = self.pc.wrapping_add(2);
            }
        } else if col == 3 {
            if op == 0xC3 {
                // JMP a16
                self.pc = self.imm16();
            } else if op == 0xD3 || op == 0xDB {
                // OUT d8 / IN d8: no port-I/O callback configured, step over
                // the port byte
                self.pc = self.pc.wrapping_add(1);
            } else if op == 0xE3 {
                // XTHL
                let sp = self.sp;
                let sp1 = sp.wrapping_add(1);
                let new_l = self.rd(sp);
                let new_h = self.rd(sp1);
                let h = self.h;
                let l = self.l;
                self.wr(sp1, h);
                self.wr(sp, l);
                self.h = new_h;
                self.l = new_l;
            } else if op == 0xEB {
                // XCHG
                let th = self.h;
                let tl = self.l;
                self.h = self.d;
                self.l = self.e;
                self.d = th;
                self.e = tl;
            } else if op == 0xF3 {
                // DI
                self.int_enable = 0;
            } else if op == 0xFB {
                // EI
                self.int_enable = 1;
            } else {
                // 0xCB: undocumented alias, a no-op
            }
        } else if col == 4 {
            // Ccond a16
            let addr = self.imm16();
            if self.test_cond(row) {
                let ret = self.pc.wrapping_add(2);
                self.push16(ret);
                self.pc = addr;
            } else {
                self.pc = self.pc.wrapping_add(2);
            }
        } else if col == 5 {
            if op == 0xCD {
                // CALL a16
                let addr = self.imm16();
                let ret = self.pc.wrapping_add(2);
                self.push16(ret);
                self.pc = addr;
            } else if op == 0xDD || op == 0xED || op == 0xFD {
                // undocumented aliases, no-ops
            } else {
                // PUSH rp
                let v: u16 = if rp == 0 {
                    self.bc()
                } else if rp == 1 {
                    self.de()
                } else if rp == 2 {
                    self.hl()
                } else {
                    // PUSH PSW: A in the high byte, the packed flags below
                    let f: u8 = self.cc.s * 128 + self.cc.z * 64 + self.cc.ac * 16 + self.cc.p * 4
                        + 2 + self.cc.cy;
                    (self.a as u16) * 256 + (f as u16)
                };
                self.push16(v);
            }
        } else if col == 6 {
            // ADI, ACI, SUI, SBI, ANI, XRI, ORI, CPI
            let x = self.rd(self.pc);
            self.alu_apply(row, x);
            self.pc = self.pc.wrapping_add(1);
        } else {
            // RST n
            let ret = self.pc;
            self.push16(ret);
            self.pc = (row as u16) * 8;
        }
    }

    /// Execute exactly one instruction: fetch the opcode at `PC`, advance
    /// `PC` past it, then apply the opcode's effect. The whole transition
    /// equals the spec-level `spec_step` of the prior state.
    pub fn emulate_cycle(&mut self)
        requires
            old(self).wf(),
        ensures
            final(self).wf(),
            final(self)@ == spec_step(old(self)@),
    {
        let op = self.rd(self.pc);
        self.pc = self.pc.wrapping_add(1);
        if op < 0x40 {
            self.op_misc(op);
        } else if op < 0x80 {
            self.op_mov(op);
        } else if op < 0xC0 {
            self.op_alu(op);
        } else {
            self.op_ctrl(op);
        }
    }
}

} // verus!
