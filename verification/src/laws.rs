//! General laws of the interpreter, stated over the spec-level transition
//! function and proved once and for all: determinism, flag coherence, the
//! stack and call round trips, and the wrapping boundary behaviour.

use vstd::prelude::*;

use crate::isa::{
    spec_alu, spec_alu_reg, spec_ctrl, spec_misc, spec_mov, spec_pack_flags, spec_pair_get,
    spec_pair_set, spec_stack_top, spec_step,
};
use crate::model::{add16, cpu_wf, hi8, lo8, mem_at, mem_set, mk16, sub16, Cpu};

verus! {

/// The two stack slots of one push are distinct, and popping them restores
/// the stack pointer: plumbing for the round-trip laws.
proof fn lemma_sp_stack_identities(sp: u16)
    ensures
        sub16(sp, 1) != sub16(sp, 2),
        add16(sub16(sp, 2), 1) == sub16(sp, 1),
        add16(sub16(sp, 2), 2) == sp,
{
}

/// Advancing the program counter byte by byte agrees with advancing it by
/// the instruction lengths: plumbing for the round-trip laws.
proof fn lemma_pc_chain(pc: u16)
    ensures
        add16(add16(pc, 1), 1) == add16(pc, 2),
        add16(add16(pc, 1), 2) == add16(pc, 3),
{
}

/// Splitting a 16-bit value into its bytes and reassembling them is the
/// identity.
proof fn lemma_mk16_split(v: u16)
    ensures
        mk16(hi8(v), lo8(v)) == v,
        hi8(mk16(hi8(v), lo8(v))) == hi8(v),
{
}

/// Packing the five flag bits into a PSW byte and unpacking them restores
/// every bit.
proof fn lemma_flags_pack_unpack(s: u8, z: u8, ac: u8, p: u8, cy: u8)
    requires
        s <= 1,
        z <= 1,
        ac <= 1,
        p <= 1,
        cy <= 1,
    ensures
        ({
            let f = (s * 128 + z * 64 + ac * 16 + p * 4 + 2 + cy) as u8;
            (f / 128) % 2 == s && (f / 64) % 2 == z && (f / 16) % 2 == ac && (f / 4) % 2 == p && f
                % 2 == cy
        }),
{
}

/// After any step, `PC` and `SP` lie in `[0, 65536)`: the program counter
/// and stack pointer are 16-bit values and every update wraps modulo 2^16.
pub proof fn lemma_step_pc_sp_bounds(c: Cpu)
    ensures
        0 <= spec_step(c).pc < 65536,
        0 <= spec_step(c).sp < 65536,
{
}

/// The quadrant `0x00..0x40` preserves well-formedness.
#[verifier::spinoff_prover]
#[verifier::rlimit(100)]
proof fn lemma_misc_preserves_wf(op: u8, c: Cpu)
    requires
        cpu_wf(c),
        op < 0x40,
    ensures
        cpu_wf(spec_misc(op, c)),
{
}

/// The quadrant `0x40..0x80` preserves well-formedness.
#[verifier::spinoff_prover]
proof fn lemma_mov_preserves_wf(op: u8, c: Cpu)
    requires
        cpu_wf(c),
        0x40 <= op < 0x80,
    ensures
        cpu_wf(spec_mov(op, c)),
{
}

/// The quadrant `0x80..0xC0` preserves well-formedness.
#[verifier::spinoff_prover]
proof fn lemma_alu_preserves_wf(op: u8, c: Cpu)
    requires
        cpu_wf(c),
        0x80 <= op < 0xC0,
    ensures
        cpu_wf(spec_alu_reg(op, c)),
{
}

/// The quadrant `0xC0..0x100` preserves well-formedness.
#[verifier::spinoff_prover]
#[verifier::rlimit(100)]
proof fn lemma_ctrl_preserves_wf(op: u8, c: Cpu)
    requires
        cpu_wf(c),
        0xC0 <= op,
    ensures
        cpu_wf(spec_ctrl(op, c)),
{
}

/// Stepping preserves well-formedness: from a well-formed state, every
/// opcode leaves the memory covering the full address space and every flag
/// a single bit.
pub proof fn lemma_step_preserves_wf(c: Cpu)
    requires
        cpu_wf(c),
    ensures
        cpu_wf(spec_step(c)),
{
    let op = mem_at(c, c.pc);
    let c1 = Cpu { pc: add16(c.pc, 1), ..c };
    if op < 0x40 {
        lemma_misc_preserves_wf(op, c1);
    } else if op < 0x80 {
        lemma_mov_preserves_wf(op, c1);
    } else if op < 0xC0 {
        lemma_alu_preserves_wf(op, c1);
    } else {
        lemma_ctrl_preserves_wf(op, c1);
    }
}

/// Executing any opcode is deterministic: the step relation is a function
/// of the architectural state, so equal states step to equal states.
pub proof fn lemma_step_deterministic(c1: Cpu, c2: Cpu)
    requires
        c1 == c2,
    ensures
        spec_step(c1) == spec_step(c2),
{
}

/// For every arithmetic or logical operation that stores its result in A
/// (all rows but CMP), the Z flag afterwards is set exactly when the stored
/// A is zero, and the S flag equals the high bit of the stored A.
pub proof fn lemma_alu_z_s(c: Cpu, kind: int, x: u8)
    requires
        0 <= kind < 7,
    ensures
        (spec_alu(c, kind, x).z == 1 <==> spec_alu(c, kind, x).a == 0),
        (spec_alu(c, kind, x).s == 1 <==> spec_alu(c, kind, x).a >= 128),
{
}

/// `PUSH rp` followed immediately by `POP rp` (the same pair, one of BC,
/// DE, HL) returns the pair and `SP` to their pre-push values and advances
/// `PC` past the two one-byte instructions, provided the pushed bytes do
/// not overwrite the `POP` opcode itself.
#[verifier::rlimit(60)]
#[verifier::spinoff_prover]
pub proof fn lemma_push_pop_roundtrip(c: Cpu, rp: int)
    requires
        cpu_wf(c),
        0 <= rp < 3,
        mem_at(c, c.pc) == 0xC5 + rp * 16,
        mem_at(c, add16(c.pc, 1)) == 0xC1 + rp * 16,
        sub16(c.sp, 1) != add16(c.pc, 1),
        sub16(c.sp, 2) != add16(c.pc, 1),
    ensures
        spec_pair_get(spec_step(spec_step(c)), rp) == spec_pair_get(c, rp),
        spec_step(spec_step(c)).sp == c.sp,
        spec_step(spec_step(c)).pc == add16(c.pc, 2),
{
    lemma_sp_stack_identities(c.sp);
    lemma_pc_chain(c.pc);
    let v = spec_pair_get(c, rp);
    lemma_mk16_split(v);
    let pushed = mem_set(mem_set(c.mem, sub16(c.sp, 1), hi8(v)), sub16(c.sp, 2), lo8(v));
    let c1 = spec_step(c);
    if rp == 0 {
        assert(c1 == (Cpu { pc: add16(c.pc, 1), sp: sub16(c.sp, 2), mem: pushed, ..c }));
    } else if rp == 1 {
        assert(c1 == (Cpu { pc: add16(c.pc, 1), sp: sub16(c.sp, 2), mem: pushed, ..c }));
    } else {
        assert(c1 == (Cpu { pc: add16(c.pc, 1), sp: sub16(c.sp, 2), mem: pushed, ..c }));
    }
    assert(mem_at(c1, c1.pc) == 0xC1 + rp * 16);
    assert(mem_at(c1, sub16(c.sp, 2)) == lo8(v));
    assert(mem_at(c1, sub16(c.sp, 1)) == hi8(v));
    assert(spec_stack_top(c1) == v);
    assert(hi8(v) == if rp == 0 { c.b } else if rp == 1 { c.d } else { c.h });
    assert(lo8(v) == if rp == 0 { c.c } else if rp == 1 { c.e } else { c.l });
}

/// `PUSH PSW` followed immediately by `POP PSW` returns A, all five flag
/// bits and `SP` to their pre-push values, under the same non-overlap
/// condition as the register-pair round trip.
#[verifier::rlimit(100)]
#[verifier::spinoff_prover]
pub proof fn lemma_push_pop_psw_roundtrip(c: Cpu)
    requires
        cpu_wf(c),
        mem_at(c, c.pc) == 0xF5,
        mem_at(c, add16(c.pc, 1)) == 0xF1,
        sub16(c.sp, 1) != add16(c.pc, 1),
        sub16(c.sp, 2) != add16(c.pc, 1),
    ensures
        spec_step(spec_step(c)).a == c.a,
        spec_step(spec_step(c)).z == c.z,
        spec_step(spec_step(c)).s == c.s,
        spec_step(spec_step(c)).p == c.p,
        spec_step(spec_step(c)).cy == c.cy,
        spec_step(spec_step(c)).ac == c.ac,
        spec_step(spec_step(c)).sp == c.sp,
        spec_step(spec_step(c)).pc == add16(c.pc, 2),
{
    lemma_sp_stack_identities(c.sp);
    lemma_pc_chain(c.pc);
    let f = spec_pack_flags(c);
    let v = mk16(c.a, f);
    lemma_mk16_split(v);
    lemma_flags_pack_unpack(c.s, c.z, c.ac, c.p, c.cy);
    let pushed = mem_set(mem_set(c.mem, sub16(c.sp, 1), hi8(v)), sub16(c.sp, 2), lo8(v));
    let c1 = spec_step(c);
    assert(c1 == (Cpu { pc: add16(c.pc, 1), sp: sub16(c.sp, 2), mem: pushed, ..c }));
    assert(mem_at(c1, c1.pc) == 0xF1);
    assert(mem_at(c1, sub16(c.sp, 2)) == lo8(v));
    assert(mem_at(c1, sub16(c.sp, 1)) == hi8(v));
    assert(spec_stack_top(c1) == v);
    assert(hi8(v) == c.a);
    assert(lo8(v) == f);
}

/// `CALL a` followed by `RET`, with no intervening stack manipulation,
/// returns `PC` to the instruction after the `CALL` and `SP` to its
/// pre-call value, provided the pushed return address does not overwrite
/// the `RET` opcode itself.
pub proof fn lemma_call_ret_roundtrip(c: Cpu)
    requires
        cpu_wf(c),
        mem_at(c, c.pc) == 0xCD,
        mem_at(c, mk16(mem_at(c, add16(c.pc, 2)), mem_at(c, add16(c.pc, 1)))) == 0xC9,
        sub16(c.sp, 1) != mk16(mem_at(c, add16(c.pc, 2)), mem_at(c, add16(c.pc, 1))),
        sub16(c.sp, 2) != mk16(mem_at(c, add16(c.pc, 2)), mem_at(c, add16(c.pc, 1))),
    ensures
        spec_step(spec_step(c)).pc == add16(c.pc, 3),
        spec_step(spec_step(c)).sp == c.sp,
{
    lemma_sp_stack_identities(c.sp);
    lemma_pc_chain(c.pc);
    let t = mk16(mem_at(c, add16(c.pc, 2)), mem_at(c, add16(c.pc, 1)));
    let ret = add16(c.pc, 3);
    lemma_mk16_split(ret);
    let pushed = mem_set(mem_set(c.mem, sub16(c.sp, 1), hi8(ret)), sub16(c.sp, 2), lo8(ret));
    let c1 = spec_step(c);
    assert(add16(add16(c.pc, 1), 2) == ret);
    assert(c1 == (Cpu { pc: t, sp: sub16(c.sp, 2), mem: pushed, ..c }));
    assert(mem_at(c1, c1.pc) == 0xC9);
    assert(mem_at(c1, sub16(c.sp, 2)) == lo8(ret));
    assert(mem_at(c1, sub16(c.sp, 1)) == hi8(ret));
    assert(spec_stack_top(c1) == ret);
}

/// `XRA A` zeroes the accumulator and sets Z to 1, S to 0 and CY to 0, from
/// any starting accumulator value.
pub proof fn lemma_xra_a(c: Cpu)
    requires
        mem_at(c, c.pc) == 0xAF,
    ensures
        spec_step(c).a == 0,
        spec_step(c).z == 1,
        spec_step(c).s == 0,
        spec_step(c).cy == 0,
{
    assert(c.a ^ c.a == 0) by (bit_vector);
}

/// `JMP a16` at any `PC` lands `PC` at exactly the little-endian target and
/// leaves every other part of the state unchanged.
pub proof fn lemma_jmp(c: Cpu)
    requires
        mem_at(c, c.pc) == 0xC3,
    ensures
        spec_step(c) == (Cpu {
            pc: mk16(mem_at(c, add16(c.pc, 2)), mem_at(c, add16(c.pc, 1))),
            ..c
        }),
{
}

/// `NOP` leaves all state unchanged except `PC`, which advances by exactly
/// one, wrapping.
pub proof fn lemma_nop(c: Cpu)
    requires
        mem_at(c, c.pc) == 0x00,
    ensures
        spec_step(c) == (Cpu { pc: add16(c.pc, 1), ..c }),
{
}

/// Writing a register pair and reading it back returns the written value:
/// the pair helpers split and reassemble 16-bit values without loss.
pub proof fn lemma_pair_roundtrip(c: Cpu, rp: int, v: u16)
    ensures
        spec_pair_get(spec_pair_set(c, rp, v), rp) == v,
{
}

/// `CMA; CMA` returns A to its original value, with the flags and all other
/// state unchanged; only `PC` advances by the two one-byte instructions.
pub proof fn lemma_cma_cma(c: Cpu)
    requires
        mem_at(c, c.pc) == 0x2F,
        mem_at(c, add16(c.pc, 1)) == 0x2F,
    ensures
        spec_step(spec_step(c)) == (Cpu { pc: add16(c.pc, 2), ..c }),
{
}

/// `CMC; CMC` returns CY to its original value, with all other state
/// unchanged; only `PC` advances by the two one-byte instructions.
pub proof fn lemma_cmc_cmc(c: Cpu)
    requires
        c.cy <= 1,
        mem_at(c, c.pc) == 0x3F,
        mem_at(c, add16(c.pc, 1)) == 0x3F,
    ensures
        spec_step(spec_step(c)) == (Cpu { pc: add16(c.pc, 2), ..c }),
{
}

/// `INX rp` at 0xFFFF wraps the pair to 0x0000.
pub proof fn lemma_inx_wrap(c: Cpu, rp: int)
    requires
        0 <= rp < 4,
        mem_at(c, c.pc) == 0x03 + rp * 16,
        spec_pair_get(c, rp) == 0xFFFF,
    ensures
        spec_pair_get(spec_step(c), rp) == 0,
{
}

/// `DCX rp` at 0x0000 wraps the pair to 0xFFFF.
#[verifier::rlimit(60)]
#[verifier::spinoff_prover]
pub proof fn lemma_dcx_wrap(c: Cpu, rp: int)
    requires
        0 <= rp < 4,
        mem_at(c, c.pc) == 0x0B + rp * 16,
        spec_pair_get(c, rp) == 0,
    ensures
        spec_pair_get(spec_step(c), rp) == 0xFFFF,
{
    if rp == 0 {
        assert(mem_at(c, c.pc) == 0x0B);
    } else if rp == 1 {
        assert(mem_at(c, c.pc) == 0x1B);
    } else if rp == 2 {
        assert(mem_at(c, c.pc) == 0x2B);
    } else {
        assert(mem_at(c, c.pc) == 0x3B);
    }
}

/// `PUSH B` at SP=0x0001 writes B to address 0x0000 and C to address
/// 0xFFFF: the stack wraps through the bottom of the address space.
pub proof fn lemma_push_wraps(c: Cpu)
    requires
        cpu_wf(c),
        c.sp == 1,
        mem_at(c, c.pc) == 0xC5,
    ensures
        spec_step(c).mem[0x0000] == c.b,
        spec_step(c).mem[0xFFFF] == c.c,
        spec_step(c).sp == 0xFFFF,
{
}

} // verus!
