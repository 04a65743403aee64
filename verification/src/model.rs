//! The mathematical model of the 8080 architectural state, and the pure
//! arithmetic that the instruction semantics are written over: 16-bit
//! wrapping arithmetic, register-pair packing, and the 8-bit adder and
//! subtractor with their carry and half-carry bits.

use vstd::prelude::*;

use crate::flags::{spec_p, spec_s, spec_z};

verus! {

/// The size of the linear address space: 2^16 bytes.
pub const MEMORY_SIZE: usize = 65536;

/// The architectural state of the 8080: seven 8-bit registers, the 16-bit
/// stack pointer and program counter, the five condition-flag bits, the
/// 64 KiB memory, the halted bit, and the interrupt-enable bit.
///
/// Each flag field holds 0 or 1 (see `cpu_wf`).
#[verifier::ext_equal]
pub ghost struct Cpu {
    pub halted: bool,
    pub a: u8,
    pub b: u8,
    pub c: u8,
    pub d: u8,
    pub e: u8,
    pub h: u8,
    pub l: u8,
    pub sp: u16,
    pub pc: u16,
    pub z: u8,
    pub s: u8,
    pub p: u8,
    pub cy: u8,
    pub ac: u8,
    pub int_enable: u8,
    pub mem: Seq<u8>,
}

/// Well-formedness of the model: the memory covers the full address space
/// and every flag field is a single bit.
pub open spec fn cpu_wf(c: Cpu) -> bool {
    &&& c.mem.len() == MEMORY_SIZE
    &&& c.z <= 1
    &&& c.s <= 1
    &&& c.p <= 1
    &&& c.cy <= 1
    &&& c.ac <= 1
    &&& c.int_enable <= 1
}

/// The state at reset: every byte and bit zero, not halted.
pub open spec fn cpu_reset() -> Cpu {
    Cpu {
        halted: false,
        a: 0,
        b: 0,
        c: 0,
        d: 0,
        e: 0,
        h: 0,
        l: 0,
        sp: 0,
        pc: 0,
        z: 0,
        s: 0,
        p: 0,
        cy: 0,
        ac: 0,
        int_enable: 0,
        mem: Seq::new(MEMORY_SIZE as nat, |i: int| 0u8),
    }
}

/// 16-bit addition, wrapping modulo 2^16.
pub open spec fn add16(x: u16, y: u16) -> u16 {
    if x + y > 0xFFFF {
        (x + y - 0x10000) as u16
    } else {
        (x + y) as u16
    }
}

/// 16-bit subtraction, wrapping modulo 2^16.
pub open spec fn sub16(x: u16, y: u16) -> u16 {
    if x - y < 0 {
        (x - y + 0x10000) as u16
    } else {
        (x - y) as u16
    }
}

/// The 16-bit value formed by a high and a low byte.
pub open spec fn mk16(hi: u8, lo: u8) -> u16 {
    (hi * 256 + lo) as u16
}

/// The high byte of a 16-bit value.
pub open spec fn hi8(v: u16) -> u8 {
    (v / 256) as u8
}

/// The low byte of a 16-bit value.
pub open spec fn lo8(v: u16) -> u8 {
    (v % 256) as u8
}

/// The byte at address `addr`.
pub open spec fn mem_at(c: Cpu, addr: u16) -> u8 {
    c.mem[addr as int]
}

/// The memory with the byte at `addr` replaced by `v`.
pub open spec fn mem_set(m: Seq<u8>, addr: u16, v: u8) -> Seq<u8> {
    m.update(addr as int, v)
}

/// The 8-bit sum `x + y + cin` reduced modulo 256.
pub open spec fn add_res(x: u8, y: u8, cin: u8) -> u8 {
    if x + y + cin > 255 {
        (x + y + cin - 256) as u8
    } else {
        (x + y + cin) as u8
    }
}

/// The carry out of bit 7 of `x + y + cin`.
pub open spec fn add_carry(x: u8, y: u8, cin: u8) -> u8 {
    if x + y + cin > 255 {
        1
    } else {
        0
    }
}

/// The carry out of bit 3 (half-carry) of `x + y + cin`.
pub open spec fn add_half(x: u8, y: u8, cin: u8) -> u8 {
    if x % 16 + y % 16 + cin > 15 {
        1
    } else {
        0
    }
}

/// The 8-bit difference `x - y - bin` reduced modulo 256.
pub open spec fn sub_res(x: u8, y: u8, bin: u8) -> u8 {
    if x - y - bin < 0 {
        (x - y - bin + 256) as u8
    } else {
        (x - y - bin) as u8
    }
}

/// The borrow out of bit 7 of `x - y - bin`.
pub open spec fn sub_borrow(x: u8, y: u8, bin: u8) -> u8 {
    if x - y - bin < 0 {
        1
    } else {
        0
    }
}

/// The borrow out of bit 3 (half-borrow) of `x - y - bin`.
pub open spec fn sub_half(x: u8, y: u8, bin: u8) -> u8 {
    if x % 16 - y % 16 - bin < 0 {
        1
    } else {
        0
    }
}

/// The state with the Z, S, P flags derived from the 8-bit result `r`.
pub open spec fn with_zsp(c: Cpu, r: u8) -> Cpu {
    Cpu { z: spec_z(r), s: spec_s(r), p: spec_p(r), ..c }
}

} // verus!
