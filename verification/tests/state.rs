// Tests of the architectural state: construction, initialisation, the ROM
// loader and the register-pair helpers.

use emu8080::model::MEMORY_SIZE;
use emu8080::state::{LoadError, State8080};

#[test]
fn default_state_is_all_zero() {
    let st: State8080 = Default::default();
    assert_eq!(st.a, 0);
    assert_eq!(st.b, 0);
    assert_eq!(st.c(), 0);
    assert_eq!(st.d(), 0);
    assert_eq!(st.e(), 0);
    assert_eq!(st.h, 0);
    assert_eq!(st.l, 0);
    assert_eq!(st.sp, 0);
    assert_eq!(st.pc(), 0);
    assert!(!st.halted());
    assert_eq!(st.int_enabled(), 0);
    assert_eq!(st.memory().len(), MEMORY_SIZE);
    assert!(st.memory().iter().all(|&b| b == 0));
}

#[test]
fn init_sets_entry_point_and_bdos_ret() {
    let mut st: State8080 = Default::default();
    st.init();
    assert_eq!(st.pc(), 0x0100);
    assert_eq!(st.memory()[5], 0xC9);
}

#[test]
fn load_rom_copies_at_offset() {
    let mut st: State8080 = Default::default();
    let rom = vec![0xDE, 0xAD, 0xBE, 0xEF];
    assert_eq!(st.load_rom(&rom), Ok(()));
    assert_eq!(st.memory()[0x100], 0xDE);
    assert_eq!(st.memory()[0x101], 0xAD);
    assert_eq!(st.memory()[0x102], 0xBE);
    assert_eq!(st.memory()[0x103], 0xEF);
    assert_eq!(st.memory()[0x0FF], 0x00);
    assert_eq!(st.memory()[0x104], 0x00);
}

#[test]
fn load_rom_accepts_exactly_full_span() {
    let mut st: State8080 = Default::default();
    let rom = vec![0x55u8; MEMORY_SIZE - 0x100];
    assert_eq!(st.load_rom(&rom), Ok(()));
    assert_eq!(st.memory()[0x100], 0x55);
    assert_eq!(st.memory()[0xFFFF], 0x55);
}

#[test]
fn load_rom_rejects_oversized_image() {
    let mut st: State8080 = Default::default();
    let rom = vec![0x55u8; MEMORY_SIZE - 0x100 + 1];
    assert_eq!(st.load_rom(&rom), Err(LoadError));
    // nothing was written
    assert!(st.memory().iter().all(|&b| b == 0));
}

#[test]
fn pair_helpers_round_trip() {
    let mut st: State8080 = Default::default();
    st.update_bc(0xABCD);
    assert_eq!(st.b, 0xAB);
    assert_eq!(st.c(), 0xCD);
    assert_eq!(st.bc(), 0xABCD);
    st.update_de(0x1234);
    assert_eq!(st.d(), 0x12);
    assert_eq!(st.e(), 0x34);
    assert_eq!(st.de(), 0x1234);
    st.update_hl(0xFF01);
    assert_eq!(st.h, 0xFF);
    assert_eq!(st.l, 0x01);
    assert_eq!(st.hl(), 0xFF01);
}

#[test]
fn push16_pop16_round_trip() {
    let mut st: State8080 = Default::default();
    st.sp = 0x2400;
    st.push16(0x1234);
    assert_eq!(st.sp, 0x23FE);
    assert_eq!(st.memory()[0x23FE], 0x34);
    assert_eq!(st.memory()[0x23FF], 0x12);
    let v = st.pop16();
    assert_eq!(v, 0x1234);
    assert_eq!(st.sp, 0x2400);
}

#[test]
fn flag_arithmetic_helpers() {
    let mut st: State8080 = Default::default();
    let r = st.add(0x3C, 0x3C);
    assert_eq!(r, 0x78);
    assert_eq!(st.z(), 0);
    assert_eq!(st.s(), 0);
    assert_eq!(st.cy(), 0);
    assert_eq!(st.ac(), 1); // 0xC + 0xC carries out of bit 3
    let r2 = st.sub(0x10, 0x20);
    assert_eq!(r2, 0xF0);
    assert_eq!(st.cy(), 1);
    assert_eq!(st.s(), 1);
    // adc consumes the borrow left in CY by the subtraction
    let r3 = st.adc(0x01, 0x01);
    assert_eq!(r3, 0x03);
    assert_eq!(st.cy(), 0);
    // seed CY again, then sbb consumes it
    st.sub(0x10, 0x20);
    let r4 = st.sbb(0x05, 0x02);
    assert_eq!(r4, 0x02);
    assert_eq!(st.cy(), 0);
}
