//! The executable architectural state: the register file, flag bank, 64 KiB
//! memory, halted bit and interrupt-enable bit, with accessors, register-pair
//! helpers, the stack push and pop, and the flag-setting 8-bit arithmetic
//! used by the interpreter.

use vstd::pervasive::VecAdditionalExecFns;
use vstd::prelude::*;

use crate::flags::{get_cy, get_p, get_s, get_z, spec_p, spec_s, spec_z};
use crate::model::{
    add16, add_carry, add_half, add_res, cpu_reset, cpu_wf, hi8, lo8, mem_at, mem_set, mk16,
    sub_borrow, sub_half, sub_res, Cpu, MEMORY_SIZE,
};
use crate::isa::{spec_push16, spec_stack_top};

verus! {

/// The condition-code bank. Each field holds a single bit (see
/// `State8080::wf`).
pub struct ConditionCodes {
    pub z: u8,
    pub s: u8,
    pub p: u8,
    pub cy: u8,
    pub ac: u8,
}

/// The architectural state of the 8080. Its mathematical view is a `Cpu`
/// value; every mutating operation of the interpreter is specified as a
/// function of that view.
pub struct State8080 {
    pub halted: bool,
    pub a: u8,
    pub b: u8,
    pub c: u8,
    pub d: u8,
    pub e: u8,
    pub h: u8,
    pub l: u8,
    pub sp: u16,
    pub pc: u16,
    pub memory: Vec<u8>,
    pub cc: ConditionCodes,
    pub int_enable: u8,
}

impl View for State8080 {
    type V = Cpu;

    open spec fn view(&self) -> Cpu {
        Cpu {
            halted: self.halted,
            a: self.a,
            b: self.b,
            c: self.c,
            d: self.d,
            e: self.e,
            h: self.h,
            l: self.l,
            sp: self.sp,
            pc: self.pc,
            z: self.cc.z,
            s: self.cc.s,
            p: self.cc.p,
            cy: self.cc.cy,
            ac: self.cc.ac,
            int_enable: self.int_enable,
            mem: self.memory@,
        }
    }
}

/// The error returned when a ROM image does not fit in memory from the load
/// offset.
#[derive(Clone, Copy, Debug, PartialEq, Eq, Structural)]
pub struct LoadError;

impl State8080 {
    /// Well-formedness: the memory covers the full 64 KiB address space and
    /// every condition-code field is a single bit. Constructed states have
    /// it, and every operation preserves it.
    pub open spec fn wf(&self) -> bool {
        cpu_wf(self@)
    }

    pub fn halted(&self) -> (r: bool)
        ensures
            r == self@.halted,
    {
        self.halted
    }

    pub fn c(&self) -> (r: u8)
        ensures
            r == self@.c,
    {
        self.c
    }

    pub fn d(&self) -> (r: u8)
        ensures
            r == self@.d,
    {
        self.d
    }

    pub fn e(&self) -> (r: u8)
        ensures
            r == self@.e,
    {
        self.e
    }

    pub fn pc(&self) -> (r: u16)
        ensures
            r == self@.pc,
    {
        self.pc
    }

    pub fn memory(&self) -> (m: &Vec<u8>)
        ensures
            m@ == self@.mem,
    {
        &self.memory
    }

    pub fn z(&self) -> (r: u8)
        ensures
            r == self@.z,
    {
        self.cc.z
    }

    pub fn s(&self) -> (r: u8)
        ensures
            r == self@.s,
    {
        self.cc.s
    }

    pub fn p(&self) -> (r: u8)
        ensures
            r == self@.p,
    {
        self.cc.p
    }

    pub fn cy(&self) -> (r: u8)
        ensures
            r == self@.cy,
    {
        self.cc.cy
    }

    pub fn ac(&self) -> (r: u8)
        ensures
            r == self@.ac,
    {
        self.cc.ac
    }

    pub fn int_enabled(&self) -> (r: u8)
        ensures
            r == self@.int_enable,
    {
        self.int_enable
    }

    /// The value of the BC register pair.
    pub fn bc(&self) -> (r: u16)
        ensures
            r == mk16(self@.b, self@.c),
    {
        (self.b as u16) * 256 + (self.c as u16)
    }

    /// The value of the DE register pair.
    pub fn de(&self) -> (r: u16)
        ensures
            r == mk16(self@.d, self@.e),
    {
        (self.d as u16) * 256 + (self.e as u16)
    }

    /// The value of the HL register pair.
    pub fn hl(&self) -> (r: u16)
        ensures
            r == mk16(self@.h, self@.l),
    {
        (self.h as u16) * 256 + (self.l as u16)
    }

    /// Split a 16-bit value into B (high byte) and C (low byte).
    pub fn update_bc(&mut self, bc: u16)
        ensures
            final(self)@ == (Cpu { b: hi8(bc), c: lo8(bc), ..old(self)@ }),
    {
        self.c = (bc % 256) as u8;
        self.b = (bc / 256) as u8;
    }

    /// Split a 16-bit value into D (high byte) and E (low byte).
    pub fn update_de(&mut self, de: u16)
        ensures
            final(self)@ == (Cpu { d: hi8(de), e: lo8(de), ..old(self)@ }),
    {
        self.e = (de % 256) as u8;
        self.d = (de / 256) as u8;
    }

    /// Split a 16-bit value into H (high byte) and L (low byte).
    pub fn update_hl(&mut self, hl: u16)
        ensures
            final(self)@ == (Cpu { h: hi8(hl), l: lo8(hl), ..old(self)@ }),
    {
        self.l = (hl % 256) as u8;
        self.h = (hl / 256) as u8;
    }

    /// The byte at address `addr`.
    pub(crate) fn rd(&self, addr: u16) -> (r: u8)
        requires
            self.wf(),
        ensures
            r == mem_at(self@, addr),
    {
        self.memory[addr as usize]
    }

    /// Store `v` at address `addr`.
    pub(crate) fn wr(&mut self, addr: u16, v: u8)
        requires
            old(self).wf(),
        ensures
            final(self).wf(),
            final(self)@ == (Cpu { mem: mem_set(old(self)@.mem, addr, v), ..old(self)@ }),
    {
        self.memory.set(addr as usize, v);
    }

    /// Write the high byte of `v` at `SP-1` and the low byte at `SP-2`, then
    /// decrement `SP` by 2, wrapping.
    pub fn push16(&mut self, v: u16)
        requires
            old(self).wf(),
        ensures
            final(self).wf(),
            final(self)@ == spec_push16(old(self)@, v),
    {
        let hi_addr = self.sp.wrapping_sub(1);
        let lo_addr = self.sp.wrapping_sub(2);
        self.wr(hi_addr, (v / 256) as u8);
        self.wr(lo_addr, (v % 256) as u8);
        self.sp = self.sp.wrapping_sub(2);
    }

    /// Read the low byte at `SP` and the high byte at `SP+1`, increment `SP`
    /// by 2, wrapping, and return the combined value.
    pub fn pop16(&mut self) -> (r: u16)
        requires
            old(self).wf(),
        ensures
            final(self).wf(),
            r == spec_stack_top(old(self)@),
            final(self)@ == (Cpu { sp: add16(old(self)@.sp, 2), ..old(self)@ }),
    {
        let lo = self.rd(self.sp);
        let hi = self.rd(self.sp.wrapping_add(1));
        self.sp = self.sp.wrapping_add(2);
        (hi as u16) * 256 + (lo as u16)
    }

    /// Add `lhs + rhs`, set Z, S, P from the result, CY from the carry out of
    /// bit 7 and AC from the carry out of bit 3, and return the 8-bit result.
    pub fn add(&mut self, lhs: u8, rhs: u8) -> (ans: u8)
        requires
            old(self).wf(),
        ensures
            final(self).wf(),
            ans == add_res(lhs, rhs, 0),
            final(self)@ == (Cpu {
                z: spec_z(add_res(lhs, rhs, 0)),
                s: spec_s(add_res(lhs, rhs, 0)),
                p: spec_p(add_res(lhs, rhs, 0)),
                cy: add_carry(lhs, rhs, 0),
                ac: add_half(lhs, rhs, 0),
                ..old(self)@
            }),
    {
        let sum: u16 = lhs as u16 + rhs as u16;
        let ans: u8 = if sum > 255 {
            (sum - 256) as u8
        } else {
            sum as u8
        };
        self.cc.z = get_z(ans);
        self.cc.s = get_s(ans);
        self.cc.p = get_p(ans);
        self.cc.cy = get_cy(sum > 255);
        self.cc.ac = if lhs % 16 + rhs % 16 > 15 {
            1
        } else {
            0
        };
        ans
    }

    /// Add `lhs + rhs` plus the incoming CY flag, set the flags as `add`
    /// does, and return the 8-bit result. The carry-in is read before the
    /// flags are overwritten.
    pub fn adc(&mut self, lhs: u8, rhs: u8) -> (ans: u8)
        requires
            old(self).wf(),
        ensures
            final(self).wf(),
            ans == add_res(lhs, rhs, old(self)@.cy),
            final(self)@ == (Cpu {
                z: spec_z(add_res(lhs, rhs, old(self)@.cy)),
                s: spec_s(add_res(lhs, rhs, old(self)@.cy)),
                p: spec_p(add_res(lhs, rhs, old(self)@.cy)),
                cy: add_carry(lhs, rhs, old(self)@.cy),
                ac: add_half(lhs, rhs, old(self)@.cy),
                ..old(self)@
            }),
    {
        let cin = self.cc.cy;
        let sum: u16 = lhs as u16 + rhs as u16 + cin as u16;
        let ans: u8 = if sum > 255 {
            (sum - 256) as u8
        } else {
            sum as u8
        };
        self.cc.z = get_z(ans);
        self.cc.s = get_s(ans);
        self.cc.p = get_p(ans);
        self.cc.cy = get_cy(sum > 255);
        self.cc.ac = if lhs % 16 + rhs % 16 + cin > 15 {
            1
        } else {
            0
        };
        ans
    }

    /// Subtract `lhs - rhs`, set Z, S, P from the result, CY from the borrow
    /// and AC from the half-borrow, and return the 8-bit result.
    pub fn sub(&mut self, lhs: u8, rhs: u8) -> (ans: u8)
        requires
            old(self).wf(),
        ensures
            final(self).wf(),
            ans == sub_res(lhs, rhs, 0),
            final(self)@ == (Cpu {
                z: spec_z(sub_res(lhs, rhs, 0)),
                s: spec_s(sub_res(lhs, rhs, 0)),
                p: spec_p(sub_res(lhs, rhs, 0)),
                cy: sub_borrow(lhs, rhs, 0),
                ac: sub_half(lhs, rhs, 0),
                ..old(self)@
            }),
    {
        let ans: u8 = if lhs >= rhs {
            lhs - rhs
        } else {
            ((lhs as u16 + 256) - rhs as u16) as u8
        };
        self.cc.z = get_z(ans);
        self.cc.s = get_s(ans);
        self.cc.p = get_p(ans);
        self.cc.cy = get_cy(lhs < rhs);
        self.cc.ac = if lhs % 16 < rhs % 16 {
            1
        } else {
            0
        };
        ans
    }

    /// Subtract `lhs - rhs` minus the incoming CY flag, set the flags as
    /// `sub` does, and return the 8-bit result. The borrow-in is read before
    /// the flags are overwritten.
    pub fn sbb(&mut self, lhs: u8, rhs: u8) -> (ans: u8)
        requires
            old(self).wf(),
        ensures
            final(self).wf(),
            ans == sub_res(lhs, rhs, old(self)@.cy),
            final(self)@ == (Cpu {
                z: spec_z(sub_res(lhs, rhs, old(self)@.cy)),
                s: spec_s(sub_res(lhs, rhs, old(self)@.cy)),
                p: spec_p(sub_res(lhs, rhs, old(self)@.cy)),
                cy: sub_borrow(lhs, rhs, old(self)@.cy),
                ac: sub_half(lhs, rhs, old(self)@.cy),
                ..old(self)@
            }),
    {
        let bin = self.cc.cy;
        let taken: u16 = rhs as u16 + bin as u16;
        let ans: u8 = if lhs as u16 >= taken {
            (lhs as u16 - taken) as u8
        } else {
            ((lhs as u16 + 256) - taken) as u8
        };
        self.cc.z = get_z(ans);
        self.cc.s = get_s(ans);
        self.cc.p = get_p(ans);
        self.cc.cy = get_cy((lhs as u16) < taken);
        self.cc.ac = if lhs % 16 < rhs % 16 + bin {
            1
        } else {
            0
        };
        ans
    }

    /// Set `PC` to the CP/M entry convention `0x0100` and plant a `RET` at
    /// address 5, so that BDOS syscalls at address 5 return immediately.
    pub fn init(&mut self)
        requires
            old(self).wf(),
        ensures
            final(self).wf(),
            final(self)@ == (Cpu {
                pc: 0x100,
                mem: mem_set(old(self)@.mem, 5, 0xC9),
                ..old(self)@
            }),
    {
        self.pc = 0x100;
        self.wr(5, 0xC9);
    }

    /// Copy a ROM image into memory starting at `0x0100`. Fails with
    /// `LoadError`, leaving the state untouched, exactly when the image does
    /// not fit in the address space from that offset.
    pub fn load_rom(&mut self, rom: &Vec<u8>) -> (r: Result<(), LoadError>)
        requires
            old(self).wf(),
        ensures
            final(self).wf(),
            r is Ok <==> rom@.len() <= MEMORY_SIZE - 0x100,
            r is Ok ==> final(self)@ == (Cpu {
                mem: Seq::new(
                    MEMORY_SIZE as nat,
                    |i: int|
                        if 0x100 <= i < 0x100 + rom@.len() {
                            rom@[i - 0x100]
                        } else {
                            old(self)@.mem[i]
                        },
                ),
                ..old(self)@
            }),
            r is Err ==> *final(self) == *old(self),
    {
        if rom.len() > MEMORY_SIZE - 0x100 {
            return Err(LoadError);
        }
        let mut i: usize = 0;
        while i < rom.len()
            invariant
                old(self).wf(),
                self.wf(),
                rom@.len() <= MEMORY_SIZE - 0x100,
                0 <= i <= rom@.len(),
                self@ == (Cpu { mem: self@.mem, ..old(self)@ }),
                self@.mem.len() == MEMORY_SIZE,
                forall|j: int| 0 <= j < i ==> self@.mem[0x100 + j] == rom@[j],
                forall|j: int|
                    0 <= j < MEMORY_SIZE && !(0x100 <= j < 0x100 + i) ==> self@.mem[j] == old(
                        self,
                    )@.mem[j],
            decreases rom@.len() - i,
        {
            self.memory.set(0x100 + i, rom[i]);
            i = i + 1;
        }
        proof {
            assert(self@.mem =~= Seq::new(
                MEMORY_SIZE as nat,
                |i: int|
                    if 0x100 <= i < 0x100 + rom@.len() {
                        rom@[i - 0x100]
                    } else {
                        old(self)@.mem[i]
                    },
            ));
        }
        Ok(())
    }
}

impl Default for State8080 {
    /// The reset state: every register, flag and memory byte zero, not
    /// halted, interrupts disabled.
    fn default() -> (s: Self)
        ensures
            s.wf(),
            s@ == cpu_reset(),
    {
        let mut memory: Vec<u8> = Vec::new();
        while memory.len() < MEMORY_SIZE
            invariant
                forall|j: int| 0 <= j < memory@.len() ==> memory@[j] == 0u8,
                memory@.len() <= MEMORY_SIZE,
            decreases MEMORY_SIZE - memory@.len(),
        {
            memory.push(0);
        }
        let s = State8080 {
            halted: false,
            a: 0,
            b: 0,
            c: 0,
            d: 0,
            e: 0,
            h: 0,
            l: 0,
            sp: 0,
            pc: 0,
            memory,
            cc: ConditionCodes { z: 0, s: 0, p: 0, cy: 0, ac: 0 },
            int_enable: 0,
        };
        proof {
            assert(s@.mem =~= Seq::new(MEMORY_SIZE as nat, |i: int| 0u8));
        }
        s
    }
}

} // verus!
