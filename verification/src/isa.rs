//! The instruction-set semantics: one spec-level transition function per
//! `emulate_cycle` call. `spec_step` fetches the opcode at `PC`, advances
//! `PC` by one, and dispatches on the opcode's quadrant; the interpreter in
//! `step` is proved to implement exactly this function.
//!
//! Opcodes are decoded by rows and columns of the 8080 opcode matrix:
//! for an opcode `op`, `op % 8` selects the column, `(op / 8) % 8` the row,
//! and `(op / 16) % 4` the register pair.

use vstd::prelude::*;

use crate::flags::{spec_p, spec_s, spec_z};
use crate::model::{
    add16, add_carry, add_half, add_res, hi8, lo8, mem_at, mem_set, mk16, sub16, sub_borrow,
    sub_half, sub_res, with_zsp, Cpu,
};

verus! {

/// The source value of register index `r`: B, C, D, E, H, L, M (the byte at
/// `HL`), A, in that order.
pub open spec fn spec_reg_read(c: Cpu, r: int) -> u8 {
    if r == 0 {
        c.b
    } else if r == 1 {
        c.c
    } else if r == 2 {
        c.d
    } else if r == 3 {
        c.e
    } else if r == 4 {
        c.h
    } else if r == 5 {
        c.l
    } else if r == 6 {
        mem_at(c, mk16(c.h, c.l))
    } else {
        c.a
    }
}

/// The state with register index `r` set to `v` (index 6 writes the byte at
/// `HL`).
pub open spec fn spec_reg_write(c: Cpu, r: int, v: u8) -> Cpu {
    if r == 0 {
        Cpu { b: v, ..c }
    } else if r == 1 {
        Cpu { c: v, ..c }
    } else if r == 2 {
        Cpu { d: v, ..c }
    } else if r == 3 {
        Cpu { e: v, ..c }
    } else if r == 4 {
        Cpu { h: v, ..c }
    } else if r == 5 {
        Cpu { l: v, ..c }
    } else if r == 6 {
        Cpu { mem: mem_set(c.mem, mk16(c.h, c.l), v), ..c }
    } else {
        Cpu { a: v, ..c }
    }
}

/// The value of register pair `rp`: BC, DE, HL, SP, in that order.
pub open spec fn spec_pair_get(c: Cpu, rp: int) -> u16 {
    if rp == 0 {
        mk16(c.b, c.c)
    } else if rp == 1 {
        mk16(c.d, c.e)
    } else if rp == 2 {
        mk16(c.h, c.l)
    } else {
        c.sp
    }
}

/// The state with register pair `rp` set to `v`.
pub open spec fn spec_pair_set(c: Cpu, rp: int, v: u16) -> Cpu {
    if rp == 0 {
        Cpu { b: hi8(v), c: lo8(v), ..c }
    } else if rp == 1 {
        Cpu { d: hi8(v), e: lo8(v), ..c }
    } else if rp == 2 {
        Cpu { h: hi8(v), l: lo8(v), ..c }
    } else {
        Cpu { sp: v, ..c }
    }
}

/// The little-endian 16-bit immediate at `PC` (low byte first).
pub open spec fn spec_imm16(c: Cpu) -> u16 {
    mk16(mem_at(c, add16(c.pc, 1)), mem_at(c, c.pc))
}

/// The stack push: high byte at `SP-1`, low byte at `SP-2`, then `SP`
/// decremented by 2, all wrapping.
pub open spec fn spec_push16(c: Cpu, v: u16) -> Cpu {
    Cpu {
        mem: mem_set(mem_set(c.mem, sub16(c.sp, 1), hi8(v)), sub16(c.sp, 2), lo8(v)),
        sp: sub16(c.sp, 2),
        ..c
    }
}

/// The 16-bit value on top of the stack: low byte at `SP`, high byte at
/// `SP+1`.
pub open spec fn spec_stack_top(c: Cpu) -> u16 {
    mk16(mem_at(c, add16(c.sp, 1)), mem_at(c, c.sp))
}

/// The return: `PC` popped from the stack, `SP` incremented by 2.
pub open spec fn spec_ret(c: Cpu) -> Cpu {
    Cpu { pc: spec_stack_top(c), sp: add16(c.sp, 2), ..c }
}

/// The call: the return address pushed, then `PC` set to `addr`.
pub open spec fn spec_call(c: Cpu, ret_pc: u16, addr: u16) -> Cpu {
    Cpu { pc: addr, ..spec_push16(c, ret_pc) }
}

/// The branch predicate of row `row`: NZ, Z, NC, C, PO, PE, P, M.
pub open spec fn spec_cond(c: Cpu, row: int) -> bool {
    if row == 0 {
        c.z == 0
    } else if row == 1 {
        c.z != 0
    } else if row == 2 {
        c.cy == 0
    } else if row == 3 {
        c.cy != 0
    } else if row == 4 {
        c.p == 0
    } else if row == 5 {
        c.p != 0
    } else if row == 6 {
        c.s == 0
    } else {
        c.s != 0
    }
}

/// The flag byte pushed by `PUSH PSW`:
/// bit 7 = S, bit 6 = Z, bit 5 = 0, bit 4 = AC, bit 3 = 0, bit 2 = P,
/// bit 1 = 1 (always), bit 0 = CY.
pub open spec fn spec_pack_flags(c: Cpu) -> u8 {
    (c.s * 128 + c.z * 64 + c.ac * 16 + c.p * 4 + 2 + c.cy) as u8
}

/// The state with the flags restored from a popped PSW flag byte.
pub open spec fn spec_unpack_flags(c: Cpu, f: u8) -> Cpu {
    Cpu {
        s: (f / 128) % 2,
        z: (f / 64) % 2,
        ac: (f / 16) % 2,
        p: (f / 4) % 2,
        cy: f % 2,
        ..c
    }
}

/// One arithmetic or logical operation on the accumulator.
/// `kind` is the operation row: ADD, ADC, SUB, SBB, ANA, XRA, ORA, CMP.
/// Arithmetic operations update Z, S, P, CY, AC; logical operations update
/// Z, S, P and force CY to 0 (AC is left alone, it is undefined for them);
/// CMP updates the flags of a subtraction and discards the result.
pub open spec fn spec_alu(c: Cpu, kind: int, x: u8) -> Cpu {
    if kind == 0 {
        let r = add_res(c.a, x, 0);
        Cpu { a: r, cy: add_carry(c.a, x, 0), ac: add_half(c.a, x, 0), ..with_zsp(c, r) }
    } else if kind == 1 {
        let r = add_res(c.a, x, c.cy);
        Cpu { a: r, cy: add_carry(c.a, x, c.cy), ac: add_half(c.a, x, c.cy), ..with_zsp(c, r) }
    } else if kind == 2 {
        let r = sub_res(c.a, x, 0);
        Cpu { a: r, cy: sub_borrow(c.a, x, 0), ac: sub_half(c.a, x, 0), ..with_zsp(c, r) }
    } else if kind == 3 {
        let r = sub_res(c.a, x, c.cy);
        Cpu { a: r, cy: sub_borrow(c.a, x, c.cy), ac: sub_half(c.a, x, c.cy), ..with_zsp(c, r) }
    } else if kind == 4 {
        let r = (c.a & x) as u8;
        Cpu { a: r, cy: 0, ..with_zsp(c, r) }
    } else if kind == 5 {
        let r = (c.a ^ x) as u8;
        Cpu { a: r, cy: 0, ..with_zsp(c, r) }
    } else if kind == 6 {
        let r = (c.a | x) as u8;
        Cpu { a: r, cy: 0, ..with_zsp(c, r) }
    } else {
        let r = sub_res(c.a, x, 0);
        Cpu { cy: sub_borrow(c.a, x, 0), ac: sub_half(c.a, x, 0), ..with_zsp(c, r) }
    }
}

/// The 16-bit add of `DAD rp`: `HL + rp`, with CY set on 16-bit overflow.
pub open spec fn spec_dad(c: Cpu, rp: int) -> Cpu {
    let sum = mk16(c.h, c.l) + spec_pair_get(c, rp);
    let r = if sum > 0xFFFF {
        (sum - 0x10000) as u16
    } else {
        sum as u16
    };
    Cpu {
        h: hi8(r),
        l: lo8(r),
        cy: if sum > 0xFFFF {
            1
        } else {
            0
        },
        ..c
    }
}

/// The opcode quadrant `0x00..0x40`: register-pair loads and arithmetic,
/// single-register increments, decrements and immediate loads, direct and
/// indirect loads and stores, rotates, and the carry and accumulator
/// complements. The eight column-0 opcodes are `NOP` and its undocumented
/// aliases. `DAA` (decimal adjust) is left as a no-op: BCD correction is
/// outside the modelled instruction behaviour.
pub open spec fn spec_misc(op: u8, c: Cpu) -> Cpu {
    let col = op % 8;
    let row = ((op / 8) % 8) as int;
    let rp = (op / 16) as int;
    if col == 0 {
        c
    } else if col == 1 {
        if op % 16 == 1 {
            // LXI rp,d16
            let v = spec_imm16(c);
            spec_pair_set(Cpu { pc: add16(c.pc, 2), ..c }, rp, v)
        } else {
            // DAD rp
            spec_dad(c, rp)
        }
    } else if col == 2 {
        if op == 0x02 {
            // STAX B
            Cpu { mem: mem_set(c.mem, mk16(c.b, c.c), c.a), ..c }
        } else if op == 0x12 {
            // STAX D
            Cpu { mem: mem_set(c.mem, mk16(c.d, c.e), c.a), ..c }
        } else if op == 0x22 {
            // SHLD a16
            let addr = spec_imm16(c);
            Cpu {
                mem: mem_set(mem_set(c.mem, addr, c.l), add16(addr, 1), c.h),
                pc: add16(c.pc, 2),
                ..c
            }
        } else if op == 0x32 {
            // STA a16
            Cpu { mem: mem_set(c.mem, spec_imm16(c), c.a), pc: add16(c.pc, 2), ..c }
        } else if op == 0x0A {
            // LDAX B
            Cpu { a: mem_at(c, mk16(c.b, c.c)), ..c }
        } else if op == 0x1A {
            // LDAX D
            Cpu { a: mem_at(c, mk16(c.d, c.e)), ..c }
        } else if op == 0x2A {
            // LHLD a16
            let addr = spec_imm16(c);
            Cpu { l: mem_at(c, addr), h: mem_at(c, add16(addr, 1)), pc: add16(c.pc, 2), ..c }
        } else {
            // LDA a16
            Cpu { a: mem_at(c, spec_imm16(c)), pc: add16(c.pc, 2), ..c }
        }
    } else if col == 3 {
        if op % 16 == 3 {
            // INX rp
            spec_pair_set(c, rp, add16(spec_pair_get(c, rp), 1))
        } else {
            // DCX rp
            spec_pair_set(c, rp, sub16(spec_pair_get(c, rp), 1))
        }
    } else if col == 4 {
        // INR r
        let x = spec_reg_read(c, row);
        let r = add_res(x, 1, 0);
        Cpu { z: spec_z(r), s: spec_s(r), p: spec_p(r), ac: add_half(x, 1, 0), ..spec_reg_write(
            c,
            row,
            r,
        ) }
    } else if col == 5 {
        // DCR r
        let x = spec_reg_read(c, row);
        let r = sub_res(x, 1, 0);
        Cpu { z: spec_z(r), s: spec_s(r), p: spec_p(r), ac: sub_half(x, 1, 0), ..spec_reg_write(
            c,
            row,
            r,
        ) }
    } else if col == 6 {
        // MVI r,d8
        let v = mem_at(c, c.pc);
        Cpu { pc: add16(c.pc, 1), ..spec_reg_write(c, row, v) }
    } else {
        if op == 0x07 {
            // RLC
            Cpu { a: ((c.a % 128) * 2 + c.a / 128) as u8, cy: c.a / 128, ..c }
        } else if op == 0x0F {
            // RRC
            Cpu { a: ((c.a % 2) * 128 + c.a / 2) as u8, cy: c.a % 2, ..c }
        } else if op == 0x17 {
            // RAL
            Cpu { a: ((c.a % 128) * 2 + c.cy) as u8, cy: c.a / 128, ..c }
        } else if op == 0x1F {
            // RAR
            Cpu { a: (c.cy * 128 + c.a / 2) as u8, cy: c.a % 2, ..c }
        } else if op == 0x27 {
            // DAA: decimal adjust is not modelled; the flags and A are left
            // unchanged, exactly as in the interpreter.
            c
        } else if op == 0x2F {
            // CMA
            Cpu { a: (255 - c.a) as u8, ..c }
        } else if op == 0x37 {
            // STC
            Cpu { cy: 1, ..c }
        } else {
            // CMC
            Cpu { cy: (1 - c.cy) as u8, ..c }
        }
    }
}

/// The opcode quadrant `0x40..0x80`: the 63 register-to-register moves, and
/// `HLT`.
pub open spec fn spec_mov(op: u8, c: Cpu) -> Cpu {
    if op == 0x76 {
        Cpu { halted: true, ..c }
    } else {
        spec_reg_write(c, ((op / 8) % 8) as int, spec_reg_read(c, (op % 8) as int))
    }
}

/// The opcode quadrant `0x80..0xC0`: the eight arithmetic and logical
/// operations, each over the eight register sources.
pub open spec fn spec_alu_reg(op: u8, c: Cpu) -> Cpu {
    spec_alu(c, ((op / 8) % 8) as int, spec_reg_read(c, (op % 8) as int))
}

/// The opcode quadrant `0xC0..0x100`: conditional and unconditional jumps,
/// calls and returns, the stack operations, the immediate arithmetic and
/// logical operations, the restarts, and the machine-control instructions.
/// `IN` and `OUT` advance `PC` over their port byte and do nothing further:
/// no port-I/O callback is modelled. The undocumented aliases `0xCB`,
/// `0xD9`, `0xDD`, `0xED` and `0xFD` are no-ops.
pub open spec fn spec_ctrl(op: u8, c: Cpu) -> Cpu {
    let col = op % 8;
    let row = ((op / 8) % 8) as int;
    let rp = ((op / 16) % 4) as int;
    if col == 0 {
        // Rcond
        if spec_cond(c, row) {
            spec_ret(c)
        } else {
            c
        }
    } else if col == 1 {
        if op == 0xC9 {
            // RET
            spec_ret(c)
        } else if op == 0xD9 {
            c
        } else if op == 0xE9 {
            // PCHL
            Cpu { pc: mk16(c.h, c.l), ..c }
        } else if op == 0xF9 {
            // SPHL
            Cpu { sp: mk16(c.h, c.l), ..c }
        } else {
            // POP rp
            let v = spec_stack_top(c);
            let c2 = Cpu { sp: add16(c.sp, 2), ..c };
            if rp == 0 {
                Cpu { b: hi8(v), c: lo8(v), ..c2 }
            } else if rp == 1 {
                Cpu { d: hi8(v), e: lo8(v), ..c2 }
            } else if rp == 2 {
                Cpu { h: hi8(v), l: lo8(v), ..c2 }
            } else {
                // POP PSW
                Cpu { a: hi8(v), ..spec_unpack_flags(c2, lo8(v)) }
            }
        }
    } else if col == 2 {
        // Jcond a16
        if spec_cond(c, row) {
            Cpu { pc: spec_imm16(c), ..c }
        } else {
            Cpu { pc: add16(c.pc, 2), ..c }
        }
    } else if col == 3 {
        if op == 0xC3 {
            // JMP a16
            Cpu { pc: spec_imm16(c), ..c }
        } else if op == 0xD3 || op == 0xDB {
            // OUT d8 / IN d8: no port-I/O callback is modelled, so they only
            // step over their port byte.
            Cpu { pc: add16(c.pc, 1), ..c }
        } else if op == 0xE3 {
            // XTHL
            Cpu {
                l: mem_at(c, c.sp),
                h: mem_at(c, add16(c.sp, 1)),
                mem: mem_set(mem_set(c.mem, add16(c.sp, 1), c.h), c.sp, c.l),
                ..c
            }
        } else if op == 0xEB {
            // XCHG
            Cpu { d: c.h, e: c.l, h: c.d, l: c.e, ..c }
        } else if op == 0xF3 {
            // DI
            Cpu { int_enable: 0, ..c }
        } else if op == 0xFB {
            // EI
            Cpu { int_enable: 1, ..c }
        } else {
            // 0xCB: undocumented alias, a no-op
            c
        }
    } else if col == 4 {
        // Ccond a16
        if spec_cond(c, row) {
            spec_call(c, add16(c.pc, 2), spec_imm16(c))
        } else {
            Cpu { pc: add16(c.pc, 2), ..c }
        }
    } else if col == 5 {
        if op == 0xCD {
            // CALL a16
            spec_call(c, add16(c.pc, 2), spec_imm16(c))
        } else if op == 0xDD || op == 0xED || op == 0xFD {
            c
        } else {
            // PUSH rp
            let v = if rp == 0 {
                mk16(c.b, c.c)
            } else if rp == 1 {
                mk16(c.d, c.e)
            } else if rp == 2 {
                mk16(c.h, c.l)
            } else {
                mk16(c.a, spec_pack_flags(c))
            };
            spec_push16(c, v)
        }
    } else if col == 6 {
        // ADI, ACI, SUI, SBI, ANI, XRI, ORI, CPI: the immediate operand
        let c2 = spec_alu(c, row, mem_at(c, c.pc));
        Cpu { pc: add16(c.pc, 1), ..c2 }
    } else {
        // RST n
        Cpu { pc: (row * 8) as u16, ..spec_push16(c, c.pc) }
    }
}

/// One instruction step: fetch the opcode at `PC`, advance `PC` by one, then
/// apply the opcode's effect. Every instruction's semantics sees `PC`
/// already pointing past the opcode byte.
pub open spec fn spec_step(c: Cpu) -> Cpu {
    let op = mem_at(c, c.pc);
    let c1 = Cpu { pc: add16(c.pc, 1), ..c };
    if op < 0x40 {
        spec_misc(op, c1)
    } else if op < 0x80 {
        spec_mov(op, c1)
    } else if op < 0xC0 {
        spec_alu_reg(op, c1)
    } else {
        spec_ctrl(op, c1)
    }
}

} // verus!
