// Scenario tests for the interpreter: each builds a small ROM, steps the
// state, and checks registers, flags, memory and the program counter.

use emu8080::state::State8080;

fn fresh() -> State8080 {
    let mut st: State8080 = Default::default();
    st.init();
    st
}

#[test]
fn nop_advances_pc_only() {
    let mut st = fresh();
    st.load_rom(&vec![0x00]).unwrap();
    st.emulate_cycle();
    assert_eq!(st.pc(), 0x0101);
    assert_eq!(st.a, 0);
    assert_eq!(st.b, 0);
    assert_eq!(st.sp, 0);
    assert_eq!(st.z(), 0);
    assert!(!st.halted());
}

#[test]
fn mvi_a_immediate() {
    let mut st = fresh();
    st.load_rom(&vec![0x3E, 0x42]).unwrap();
    st.emulate_cycle();
    assert_eq!(st.a, 0x42);
    assert_eq!(st.pc(), 0x0102);
}

#[test]
fn add_b_with_carry() {
    let mut st = fresh();
    st.a = 0xFF;
    st.b = 0x01;
    st.load_rom(&vec![0x80]).unwrap();
    st.emulate_cycle();
    assert_eq!(st.a, 0x00);
    assert_eq!(st.z(), 1);
    assert_eq!(st.s(), 0);
    assert_eq!(st.cy(), 1);
    assert_eq!(st.p(), 1);
}

#[test]
fn call_ret_round_trip() {
    let mut st = fresh();
    st.sp = 0x2400;
    let mut rom = vec![0u8; 0x101];
    rom[0] = 0xCD; // CALL 0x0200
    rom[1] = 0x00;
    rom[2] = 0x02;
    rom[0x100] = 0xC9; // RET at 0x0200
    st.load_rom(&rom).unwrap();
    st.emulate_cycle();
    assert_eq!(st.pc(), 0x0200);
    assert_eq!(st.sp, 0x23FE);
    assert_eq!(st.memory()[0x23FE], 0x03); // low byte of 0x0103
    assert_eq!(st.memory()[0x23FF], 0x01); // high byte of 0x0103
    st.emulate_cycle();
    assert_eq!(st.pc(), 0x0103);
    assert_eq!(st.sp, 0x2400);
}

#[test]
fn jz_not_taken() {
    let mut st = fresh();
    assert_eq!(st.z(), 0);
    st.load_rom(&vec![0xCA, 0x34, 0x12]).unwrap();
    st.emulate_cycle();
    assert_eq!(st.pc(), 0x0103);
}

#[test]
fn jz_taken() {
    let mut st = fresh();
    // XRA A sets Z, then JZ jumps
    st.load_rom(&vec![0xAF, 0xCA, 0x34, 0x12]).unwrap();
    st.emulate_cycle();
    assert_eq!(st.z(), 1);
    st.emulate_cycle();
    assert_eq!(st.pc(), 0x1234);
}

#[test]
fn xchg_swaps_pairs() {
    let mut st = fresh();
    st.d = 0x11;
    st.e = 0x22;
    st.h = 0x33;
    st.l = 0x44;
    st.load_rom(&vec![0xEB]).unwrap();
    st.emulate_cycle();
    assert_eq!(st.d, 0x33);
    assert_eq!(st.e, 0x44);
    assert_eq!(st.h, 0x11);
    assert_eq!(st.l, 0x22);
    assert_eq!(st.z(), 0);
    assert_eq!(st.s(), 0);
    assert_eq!(st.p(), 0);
    assert_eq!(st.cy(), 0);
}

#[test]
fn xra_a_clears_accumulator() {
    let mut st = fresh();
    st.a = 0x5A;
    st.load_rom(&vec![0xAF]).unwrap();
    st.emulate_cycle();
    assert_eq!(st.a, 0);
    assert_eq!(st.z(), 1);
    assert_eq!(st.s(), 0);
    assert_eq!(st.cy(), 0);
    assert_eq!(st.p(), 1);
}

#[test]
fn jmp_lands_exactly() {
    let mut st = fresh();
    st.a = 0x77;
    st.load_rom(&vec![0xC3, 0x00, 0x00]).unwrap();
    st.emulate_cycle();
    // a host watching for PC == 0 sees the conventional halt address
    assert_eq!(st.pc(), 0x0000);
    assert_eq!(st.a, 0x77);
    assert_eq!(st.sp, 0);
    assert!(!st.halted());
}

#[test]
fn cma_twice_restores_a() {
    let mut st = fresh();
    st.a = 0x5A;
    st.load_rom(&vec![0x2F, 0x2F]).unwrap();
    st.emulate_cycle();
    assert_eq!(st.a, 0xA5);
    assert_eq!(st.z(), 0);
    st.emulate_cycle();
    assert_eq!(st.a, 0x5A);
    assert_eq!(st.pc(), 0x0102);
}

#[test]
fn stc_and_cmc_twice() {
    let mut st = fresh();
    st.load_rom(&vec![0x37, 0x3F, 0x3F]).unwrap();
    st.emulate_cycle();
    assert_eq!(st.cy(), 1);
    st.emulate_cycle();
    assert_eq!(st.cy(), 0);
    st.emulate_cycle();
    assert_eq!(st.cy(), 1);
}

#[test]
fn inx_wraps_at_ffff() {
    let mut st = fresh();
    st.h = 0xFF;
    st.l = 0xFF;
    st.load_rom(&vec![0x23]).unwrap();
    st.emulate_cycle();
    assert_eq!(st.h, 0x00);
    assert_eq!(st.l, 0x00);
}

#[test]
fn dcx_wraps_at_zero() {
    let mut st = fresh();
    st.load_rom(&vec![0x2B]).unwrap();
    st.emulate_cycle();
    assert_eq!(st.h, 0xFF);
    assert_eq!(st.l, 0xFF);
}

#[test]
fn push_wraps_stack_through_zero() {
    let mut st = fresh();
    st.sp = 0x0001;
    st.b = 0xAB;
    st.c = 0xCD;
    st.load_rom(&vec![0xC5]).unwrap();
    st.emulate_cycle();
    assert_eq!(st.memory()[0x0000], 0xAB);
    assert_eq!(st.memory()[0xFFFF], 0xCD);
    assert_eq!(st.sp, 0xFFFF);
}

#[test]
fn push_pop_restores_pair_and_sp() {
    let mut st = fresh();
    st.sp = 0x2400;
    st.b = 0x12;
    st.c = 0x34;
    st.load_rom(&vec![0xC5, 0xC1]).unwrap();
    st.emulate_cycle();
    assert_eq!(st.sp, 0x23FE);
    st.emulate_cycle();
    assert_eq!(st.b, 0x12);
    assert_eq!(st.c, 0x34);
    assert_eq!(st.sp, 0x2400);
    assert_eq!(st.pc(), 0x0102);
}

#[test]
fn push_pop_psw_restores_flags() {
    let mut st = fresh();
    st.sp = 0x2400;
    st.a = 0xFF;
    st.b = 0x01;
    // ADD B sets Z=1, CY=1, P=1, S=0; then PUSH PSW / POP PSW
    st.load_rom(&vec![0x80, 0xF5, 0xF1]).unwrap();
    st.emulate_cycle();
    let (z, s, p, cy, ac) = (st.z(), st.s(), st.p(), st.cy(), st.ac());
    let a = st.a;
    st.emulate_cycle();
    st.emulate_cycle();
    assert_eq!(st.a, a);
    assert_eq!(st.z(), z);
    assert_eq!(st.s(), s);
    assert_eq!(st.p(), p);
    assert_eq!(st.cy(), cy);
    assert_eq!(st.ac(), ac);
    assert_eq!(st.sp, 0x2400);
}

#[test]
fn parity_counts_all_bits() {
    // ORA B leaves A = 0x03: two 1-bits, even parity, P = 1
    let mut st = fresh();
    st.a = 0x03;
    st.load_rom(&vec![0xB0]).unwrap();
    st.emulate_cycle();
    assert_eq!(st.p(), 1);
    // 0x07 has three 1-bits: odd parity, P = 0
    let mut st2 = fresh();
    st2.a = 0x07;
    st2.load_rom(&vec![0xB0]).unwrap();
    st2.emulate_cycle();
    assert_eq!(st2.p(), 0);
    assert_eq!(st2.s(), 0);
    assert_eq!(st2.z(), 0);
}

#[test]
fn adc_uses_incoming_carry() {
    let mut st = fresh();
    st.a = 0x05;
    // STC, then ACI 0: A becomes 5 + 0 + 1
    st.load_rom(&vec![0x37, 0xCE, 0x00]).unwrap();
    st.emulate_cycle();
    st.emulate_cycle();
    assert_eq!(st.a, 0x06);
    assert_eq!(st.cy(), 0);
}

#[test]
fn sbb_uses_incoming_borrow() {
    let mut st = fresh();
    st.a = 0x05;
    // STC, then SBI 0: A becomes 5 - 0 - 1
    st.load_rom(&vec![0x37, 0xDE, 0x00]).unwrap();
    st.emulate_cycle();
    st.emulate_cycle();
    assert_eq!(st.a, 0x04);
    assert_eq!(st.cy(), 0);
}

#[test]
fn hlt_sets_halted() {
    let mut st = fresh();
    st.load_rom(&vec![0x76]).unwrap();
    assert!(!st.halted());
    st.emulate_cycle();
    assert!(st.halted());
    assert_eq!(st.pc(), 0x0101);
}

#[test]
fn ei_di_toggle_interrupt_enable() {
    let mut st = fresh();
    st.load_rom(&vec![0xFB, 0xF3]).unwrap();
    assert_eq!(st.int_enabled(), 0);
    st.emulate_cycle();
    assert_eq!(st.int_enabled(), 1);
    st.emulate_cycle();
    assert_eq!(st.int_enabled(), 0);
}

#[test]
fn out_steps_over_port_byte() {
    let mut st = fresh();
    st.a = 0x99;
    st.load_rom(&vec![0xD3, 0x01]).unwrap();
    st.emulate_cycle();
    assert_eq!(st.pc(), 0x0102);
    assert_eq!(st.a, 0x99);
}

#[test]
fn mvi_m_writes_through_hl() {
    let mut st = fresh();
    st.h = 0x03;
    st.l = 0x00;
    st.load_rom(&vec![0x36, 0x77]).unwrap();
    st.emulate_cycle();
    assert_eq!(st.memory()[0x0300], 0x77);
    assert_eq!(st.pc(), 0x0102);
}

#[test]
fn shld_lhld_round_trip() {
    let mut st = fresh();
    st.h = 0x12;
    st.l = 0x34;
    // SHLD 0x0300, wipe HL with LXI H, then LHLD 0x0300
    st.load_rom(&vec![0x22, 0x00, 0x03, 0x21, 0x00, 0x00, 0x2A, 0x00, 0x03]).unwrap();
    st.emulate_cycle();
    assert_eq!(st.memory()[0x0300], 0x34);
    assert_eq!(st.memory()[0x0301], 0x12);
    st.emulate_cycle();
    assert_eq!(st.hl(), 0x0000);
    st.emulate_cycle();
    assert_eq!(st.h, 0x12);
    assert_eq!(st.l, 0x34);
    assert_eq!(st.pc(), 0x0109);
}

#[test]
fn rst_pushes_and_vectors() {
    let mut st = fresh();
    st.sp = 0x2400;
    st.load_rom(&vec![0xCF]).unwrap(); // RST 1
    st.emulate_cycle();
    assert_eq!(st.pc(), 0x0008);
    assert_eq!(st.sp, 0x23FE);
    assert_eq!(st.memory()[0x23FE], 0x01);
    assert_eq!(st.memory()[0x23FF], 0x01);
}

#[test]
fn conditional_call_taken_and_return() {
    let mut st = fresh();
    st.sp = 0x2400;
    // CNZ 0x0200 with Z = 0 is taken; RNZ at 0x0200 returns
    let mut rom = vec![0u8; 0x101];
    rom[0] = 0xC4;
    rom[1] = 0x00;
    rom[2] = 0x02;
    rom[0x100] = 0xC0; // RNZ
    st.load_rom(&rom).unwrap();
    st.emulate_cycle();
    assert_eq!(st.pc(), 0x0200);
    assert_eq!(st.sp, 0x23FE);
    st.emulate_cycle();
    assert_eq!(st.pc(), 0x0103);
    assert_eq!(st.sp, 0x2400);
}

#[test]
fn conditional_call_not_taken() {
    let mut st = fresh();
    st.sp = 0x2400;
    // CZ with Z = 0 is not taken
    st.load_rom(&vec![0xCC, 0x00, 0x02]).unwrap();
    st.emulate_cycle();
    assert_eq!(st.pc(), 0x0103);
    assert_eq!(st.sp, 0x2400);
}

#[test]
fn pchl_jumps_to_hl() {
    let mut st = fresh();
    st.sp = 0x2400;
    st.h = 0x12;
    st.l = 0x34;
    st.load_rom(&vec![0xE9]).unwrap();
    st.emulate_cycle();
    assert_eq!(st.pc(), 0x1234);
    // PCHL touches nothing else
    assert_eq!(st.sp, 0x2400);
    assert_eq!(st.memory()[0x23FE], 0x00);
    assert_eq!(st.memory()[0x23FF], 0x00);
}

#[test]
fn xthl_swaps_hl_with_stack_top() {
    let mut st = fresh();
    st.sp = 0x2400;
    st.h = 0x0B;
    st.l = 0x3C;
    st.load_rom(&vec![0xE3]).unwrap();
    st.emulate_cycle();
    // stack held zeros, so HL picks them up and memory takes old HL
    assert_eq!(st.h, 0x00);
    assert_eq!(st.l, 0x00);
    assert_eq!(st.memory()[0x2400], 0x3C);
    assert_eq!(st.memory()[0x2401], 0x0B);
    assert_eq!(st.sp, 0x2400);
}

#[test]
fn dad_sets_carry_on_16_bit_overflow() {
    let mut st = fresh();
    st.h = 0xFF;
    st.l = 0xFF;
    st.b = 0x00;
    st.c = 0x02;
    st.load_rom(&vec![0x09]).unwrap(); // DAD B
    st.emulate_cycle();
    assert_eq!(st.hl(), 0x0001);
    assert_eq!(st.cy(), 1);
}

#[test]
fn inr_dcr_leave_carry_alone() {
    let mut st = fresh();
    // STC, then INR B at 0xFF: wraps to 0, Z set, CY still 1
    st.b = 0xFF;
    st.load_rom(&vec![0x37, 0x04, 0x05]).unwrap();
    st.emulate_cycle();
    st.emulate_cycle();
    assert_eq!(st.b, 0x00);
    assert_eq!(st.z(), 1);
    assert_eq!(st.cy(), 1);
    st.emulate_cycle();
    assert_eq!(st.b, 0xFF);
    assert_eq!(st.s(), 1);
    assert_eq!(st.cy(), 1);
}

#[test]
fn cmp_discards_result_and_sets_borrow() {
    let mut st = fresh();
    st.a = 0x02;
    st.b = 0x05;
    st.load_rom(&vec![0xB8]).unwrap(); // CMP B
    st.emulate_cycle();
    assert_eq!(st.a, 0x02);
    assert_eq!(st.cy(), 1);
    assert_eq!(st.z(), 0);
}

#[test]
fn mov_between_registers_and_memory() {
    let mut st = fresh();
    st.b = 0x42;
    st.h = 0x03;
    st.l = 0x00;
    // MOV M,B then MOV A,M
    st.load_rom(&vec![0x70, 0x7E]).unwrap();
    st.emulate_cycle();
    assert_eq!(st.memory()[0x0300], 0x42);
    st.emulate_cycle();
    assert_eq!(st.a, 0x42);
}

#[test]
fn undocumented_aliases_are_nops() {
    for op in [0x08u8, 0x10, 0x18, 0x20, 0x28, 0x30, 0x38, 0xCB, 0xD9, 0xDD, 0xED, 0xFD] {
        let mut st = fresh();
        st.a = 0x55;
        st.sp = 0x2400;
        st.load_rom(&vec![op]).unwrap();
        st.emulate_cycle();
        assert_eq!(st.pc(), 0x0101);
        assert_eq!(st.a, 0x55);
        assert_eq!(st.sp, 0x2400);
        assert!(!st.halted());
    }
}

#[test]
fn lda_sta_direct() {
    let mut st = fresh();
    st.a = 0x9C;
    // STA 0x0400, clear A with XRA A, LDA 0x0400
    st.load_rom(&vec![0x32, 0x00, 0x04, 0xAF, 0x3A, 0x00, 0x04]).unwrap();
    st.emulate_cycle();
    assert_eq!(st.memory()[0x0400], 0x9C);
    st.emulate_cycle();
    assert_eq!(st.a, 0x00);
    st.emulate_cycle();
    assert_eq!(st.a, 0x9C);
}

#[test]
fn ldax_stax_through_pairs() {
    let mut st = fresh();
    st.a = 0x66;
    st.b = 0x04;
    st.c = 0x01;
    st.d = 0x04;
    st.e = 0x01;
    // STAX B, clear A, LDAX D (same address through DE)
    st.load_rom(&vec![0x02, 0xAF, 0x1A]).unwrap();
    st.emulate_cycle();
    assert_eq!(st.memory()[0x0401], 0x66);
    st.emulate_cycle();
    st.emulate_cycle();
    assert_eq!(st.a, 0x66);
}

#[test]
fn rotate_instructions() {
    let mut st = fresh();
    st.a = 0x81;
    // RLC: 1000_0001 -> 0000_0011, CY = 1
    st.load_rom(&vec![0x07, 0x0F, 0x17, 0x1F]).unwrap();
    st.emulate_cycle();
    assert_eq!(st.a, 0x03);
    assert_eq!(st.cy(), 1);
    // RRC: 0000_0011 -> 1000_0001, CY = 1
    st.emulate_cycle();
    assert_eq!(st.a, 0x81);
    assert_eq!(st.cy(), 1);
    // RAL: 1000_0001 with CY=1 -> 0000_0011, CY = 1
    st.emulate_cycle();
    assert_eq!(st.a, 0x03);
    assert_eq!(st.cy(), 1);
    // RAR: 0000_0011 with CY=1 -> 1000_0001, CY = 1
    st.emulate_cycle();
    assert_eq!(st.a, 0x81);
    assert_eq!(st.cy(), 1);
}

#[test]
fn ana_forces_carry_clear() {
    let mut st = fresh();
    st.a = 0x0F;
    st.b = 0x06;
    // STC first, then ANA B: CY forced back to 0
    st.load_rom(&vec![0x37, 0xA0]).unwrap();
    st.emulate_cycle();
    st.emulate_cycle();
    assert_eq!(st.a, 0x06);
    assert_eq!(st.cy(), 0);
    assert_eq!(st.p(), 1);
}

#[test]
fn sphl_and_lxi_sp() {
    let mut st = fresh();
    st.h = 0x24;
    st.l = 0x00;
    st.load_rom(&vec![0xF9, 0x31, 0xCD, 0xAB]).unwrap();
    st.emulate_cycle();
    assert_eq!(st.sp, 0x2400);
    st.emulate_cycle();
    assert_eq!(st.sp, 0xABCD);
    assert_eq!(st.pc(), 0x0104);
}
