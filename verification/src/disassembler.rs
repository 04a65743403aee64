//! The disassembler: a linear decoder over a byte buffer that renders one
//! mnemonic line per instruction and advances by the instruction's length
//! (1, 2 or 3 bytes). Each line is proved equal, character for character, to
//! a spec-level rendering of the byte stream.
//!
//! Operand formatting is fixed and diff-stable: immediate
//! bytes and words render as lowercase hex behind `$` (with a `#` for the
//! register loads), and 16-bit words render high byte first. The twelve
//! undocumented opcodes are labelled `NOP`. A final instruction whose
//! operand bytes run past the end of the buffer produces no line.

use vstd::prelude::*;

use vstd::string::StringExecFns;

verus! {

/// The name of the 8-bit register of index `r` in mnemonic operands.
pub open spec fn spec_rname(r: int) -> Seq<char> {
    if r == 0 {
        "B"@
    } else if r == 1 {
        "C"@
    } else if r == 2 {
        "D"@
    } else if r == 3 {
        "E"@
    } else if r == 4 {
        "H"@
    } else if r == 5 {
        "L"@
    } else if r == 6 {
        "M"@
    } else {
        "A"@
    }
}

/// The mnemonic of the arithmetic/logical operation of row `k`.
pub open spec fn spec_alu_name(k: int) -> Seq<char> {
    if k == 0 {
        "ADD"@
    } else if k == 1 {
        "ADC"@
    } else if k == 2 {
        "SUB"@
    } else if k == 3 {
        "SBB"@
    } else if k == 4 {
        "ANA"@
    } else if k == 5 {
        "XRA"@
    } else if k == 6 {
        "ORA"@
    } else {
        "CMP"@
    }
}

/// The length in bytes of the instruction with opcode `op`: 3 for the
/// 16-bit-immediate group, 2 for the 8-bit-immediate group, 1 otherwise.
pub open spec fn spec_instr_len(op: u8) -> int {
    if op == 0x01 || op == 0x11 || op == 0x21 || op == 0x22 || op == 0x2A || op == 0x31 || op == 0x32 || op == 0x3A || op == 0xC2 || op == 0xC3 || op == 0xC4 || op == 0xCA || op == 0xCC || op == 0xCD || op == 0xD2 || op == 0xD4 || op == 0xDA || op == 0xDC || op == 0xE2 || op == 0xE4 || op == 0xEA || op == 0xEC || op == 0xF2 || op == 0xF4 || op == 0xFA || op == 0xFC {
        3
    } else if op == 0x06 || op == 0x0E || op == 0x16 || op == 0x1E || op == 0x26 || op == 0x2E || op == 0x36 || op == 0x3E || op == 0xC6 || op == 0xCE || op == 0xD3 || op == 0xD6 || op == 0xDB || op == 0xDE || op == 0xE6 || op == 0xEE || op == 0xF6 || op == 0xFE {
        2
    } else {
        1
    }
}

/// The lowercase hex digit of a nibble.
pub open spec fn spec_hex_digit(n: int) -> Seq<char> {
    if n == 0 {
        "0"@
    } else if n == 1 {
        "1"@
    } else if n == 2 {
        "2"@
    } else if n == 3 {
        "3"@
    } else if n == 4 {
        "4"@
    } else if n == 5 {
        "5"@
    } else if n == 6 {
        "6"@
    } else if n == 7 {
        "7"@
    } else if n == 8 {
        "8"@
    } else if n == 9 {
        "9"@
    } else if n == 10 {
        "a"@
    } else if n == 11 {
        "b"@
    } else if n == 12 {
        "c"@
    } else if n == 13 {
        "d"@
    } else if n == 14 {
        "e"@
    } else {
        "f"@
    }
}

/// Two lowercase hex digits of a byte, high nibble first.
pub open spec fn spec_hex2(b: u8) -> Seq<char> {
    spec_hex_digit((b / 16) as int) + spec_hex_digit((b % 16) as int)
}

/// The constant part of the mnemonic line of opcode `op`, up to but not
/// including any hex-rendered operand.
pub open spec fn spec_prefix(op: u8) -> Seq<char> {
    if op < 0x40 {
        spec_prefix_low(op)
    } else if op == 0x76 {
        "HLT"@
    } else if op < 0x80 {
        "MOV   "@ + spec_rname(((op / 8) % 8) as int) + ","@ + spec_rname((op % 8) as int)
    } else if op < 0xC0 {
        spec_alu_name(((op / 8) % 8) as int) + "   "@ + spec_rname((op % 8) as int)
    } else {
        spec_prefix_high(op)
    }
}

/// The constant line parts of the opcode quadrant `0x00..0x40`.
pub open spec fn spec_prefix_low(op: u8) -> Seq<char> {
    if op == 0x00 {
        "NOP"@
    } else if op == 0x01 {
        "LXI   B,#$"@
    } else if op == 0x02 {
        "STAX  B"@
    } else if op == 0x03 {
        "INX   B"@
    } else if op == 0x04 {
        "INR   B"@
    } else if op == 0x05 {
        "DCR   B"@
    } else if op == 0x06 {
        "MVI   B,#$"@
    } else if op == 0x07 {
        "RLC"@
    } else if op == 0x08 {
        "NOP"@
    } else if op == 0x09 {
        "DAD   B"@
    } else if op == 0x0A {
        "LDAX  B"@
    } else if op == 0x0B {
        "DCX   B"@
    } else if op == 0x0C {
        "INR   C"@
    } else if op == 0x0D {
        "DCR   C"@
    } else if op == 0x0E {
        "MVI   C,#$"@
    } else if op == 0x0F {
        "RRC"@
    } else if op == 0x10 {
        "NOP"@
    } else if op == 0x11 {
        "LXI   D,#$"@
    } else if op == 0x12 {
        "STAX  D"@
    } else if op == 0x13 {
        "INX   D"@
    } else if op == 0x14 {
        "INR   D"@
    } else if op == 0x15 {
        "DCR   D"@
    } else if op == 0x16 {
        "MVI   D,#$"@
    } else if op == 0x17 {
        "RAL"@
    } else if op == 0x18 {
        "NOP"@
    } else if op == 0x19 {
        "DAD   D"@
    } else if op == 0x1A {
        "LDAX  D"@
    } else if op == 0x1B {
        "DCX   D"@
    } else if op == 0x1C {
        "INR   E"@
    } else if op == 0x1D {
        "DCR   E"@
    } else if op == 0x1E {
        "MVI   E,#$"@
    } else if op == 0x1F {
        "RAR"@
    } else if op == 0x20 {
        "NOP"@
    } else if op == 0x21 {
        "LXI   H,#$"@
    } else if op == 0x22 {
        "SHLD  $"@
    } else if op == 0x23 {
        "INX   H"@
    } else if op == 0x24 {
        "INR   H"@
    } else if op == 0x25 {
        "DCR   H"@
    } else if op == 0x26 {
        "MVI   H,#$"@
    } else if op == 0x27 {
        "DAA"@
    } else if op == 0x28 {
        "NOP"@
    } else if op == 0x29 {
        "DAD   H"@
    } else if op == 0x2A {
        "LHLD  $"@
    } else if op == 0x2B {
        "DCX   H"@
    } else if op == 0x2C {
        "INR   L"@
    } else if op == 0x2D {
        "DCR   L"@
    } else if op == 0x2E {
        "MVI   L,#$"@
    } else if op == 0x2F {
        "CMA"@
    } else if op == 0x30 {
        "NOP"@
    } else if op == 0x31 {
        "LXI   SP,#$"@
    } else if op == 0x32 {
        "STA   $"@
    } else if op == 0x33 {
        "INX   SP"@
    } else if op == 0x34 {
        "INR   M"@
    } else if op == 0x35 {
        "DCR   M"@
    } else if op == 0x36 {
        "MVI   M,#$"@
    } else if op == 0x37 {
        "STC"@
    } else if op == 0x38 {
        "NOP"@
    } else if op == 0x39 {
        "DAD   SP"@
    } else if op == 0x3A {
        "LDA   $"@
    } else if op == 0x3B {
        "DCX   SP"@
    } else if op == 0x3C {
        "INR   A"@
    } else if op == 0x3D {
        "DCR   A"@
    } else if op == 0x3E {
        "MVI   A,#$"@
    } else {
        "CMC"@
    }
}

/// The constant line parts of the opcode quadrant `0xC0..0x100`.
pub open spec fn spec_prefix_high(op: u8) -> Seq<char> {
    if op == 0xC0 {
        "RNZ"@
    } else if op == 0xC1 {
        "POP   B"@
    } else if op == 0xC2 {
        "JNZ   $"@
    } else if op == 0xC3 {
        "JMP   $"@
    } else if op == 0xC4 {
        "CNZ   $"@
    } else if op == 0xC5 {
        "PUSH  B"@
    } else if op == 0xC6 {
        "ADI   $"@
    } else if op == 0xC7 {
        "RST   0"@
    } else if op == 0xC8 {
        "RZ"@
    } else if op == 0xC9 {
        "RET"@
    } else if op == 0xCA {
        "JZ    $"@
    } else if op == 0xCB {
        "NOP"@
    } else if op == 0xCC {
        "CZ    $"@
    } else if op == 0xCD {
        "CALL  $"@
    } else if op == 0xCE {
        "ACI   $"@
    } else if op == 0xCF {
        "RST   1"@
    } else if op == 0xD0 {
        "RNC"@
    } else if op == 0xD1 {
        "POP   D"@
    } else if op == 0xD2 {
        "JNC   $"@
    } else if op == 0xD3 {
        "OUT   $"@
    } else if op == 0xD4 {
        "CNC   $"@
    } else if op == 0xD5 {
        "PUSH  D"@
    } else if op == 0xD6 {
        "SUI   $"@
    } else if op == 0xD7 {
        "RST   2"@
    } else if op == 0xD8 {
        "RC"@
    } else if op == 0xD9 {
        "NOP"@
    } else if op == 0xDA {
        "JC    $"@
    } else if op == 0xDB {
        "IN    $"@
    } else if op == 0xDC {
        "CC    $"@
    } else if op == 0xDD {
        "NOP"@
    } else if op == 0xDE {
        "SBI   $"@
    } else if op == 0xDF {
        "RST   3"@
    } else if op == 0xE0 {
        "RPO"@
    } else if op == 0xE1 {
        "POP   H"@
    } else if op == 0xE2 {
        "JPO   $"@
    } else if op == 0xE3 {
        "XTHL"@
    } else if op == 0xE4 {
        "CPO   $"@
    } else if op == 0xE5 {
        "PUSH  H"@
    } else if op == 0xE6 {
        "ANI   $"@
    } else if op == 0xE7 {
        "RST   4"@
    } else if op == 0xE8 {
        "RPE"@
    } else if op == 0xE9 {
        "PCHL"@
    } else if op == 0xEA {
        "JPE   $"@
    } else if op == 0xEB {
        "XCHG"@
    } else if op == 0xEC {
        "CPE   $"@
    } else if op == 0xED {
        "NOP"@
    } else if op == 0xEE {
        "XRI   $"@
    } else if op == 0xEF {
        "RST   5"@
    } else if op == 0xF0 {
        "RP"@
    } else if op == 0xF1 {
        "POP   PSW"@
    } else if op == 0xF2 {
        "JP    $"@
    } else if op == 0xF3 {
        "DI"@
    } else if op == 0xF4 {
        "CP    $"@
    } else if op == 0xF5 {
        "PUSH  PSW"@
    } else if op == 0xF6 {
        "ORI   $"@
    } else if op == 0xF7 {
        "RST   6"@
    } else if op == 0xF8 {
        "RM"@
    } else if op == 0xF9 {
        "SPHL"@
    } else if op == 0xFA {
        "JM    $"@
    } else if op == 0xFB {
        "EI"@
    } else if op == 0xFC {
        "CM    $"@
    } else if op == 0xFD {
        "NOP"@
    } else if op == 0xFE {
        "CPI   $"@
    } else {
        "RST   7"@
    }
}

/// The full mnemonic line of the instruction at `pos`: the constant part,
/// then the hex-rendered immediate byte or little-endian word, high byte
/// first.
pub open spec fn spec_line(bytes: Seq<u8>, pos: int) -> Seq<char> {
    let op = bytes[pos];
    if spec_instr_len(op) == 1 {
        spec_prefix(op)
    } else if spec_instr_len(op) == 2 {
        spec_prefix(op) + spec_hex2(bytes[pos + 1])
    } else {
        spec_prefix(op) + spec_hex2(bytes[pos + 2]) + spec_hex2(bytes[pos + 1])
    }
}

/// The whole disassembly from `pos`: one line per instruction, stopping
/// when the buffer is exhausted or a final instruction's operand bytes run
/// past its end.
pub open spec fn spec_disasm(bytes: Seq<u8>, pos: int) -> Seq<Seq<char>>
    decreases bytes.len() - pos,
{
    if 0 <= pos && pos + spec_instr_len(bytes[pos]) <= bytes.len() {
        seq![spec_line(bytes, pos)] + spec_disasm(bytes, pos + spec_instr_len(bytes[pos]))
    } else {
        Seq::empty()
    }
}

/// The register name of index `r`.
fn rname(r: u8) -> (s: &'static str)
    requires
        r < 8,
    ensures
        s@ == spec_rname(r as int),
{
    match r {
        0 => "B",
        1 => "C",
        2 => "D",
        3 => "E",
        4 => "H",
        5 => "L",
        6 => "M",
        _ => "A",
    }
}

/// The ALU mnemonic of row `k`.
fn alu_name(k: u8) -> (s: &'static str)
    requires
        k < 8,
    ensures
        s@ == spec_alu_name(k as int),
{
    match k {
        0 => "ADD",
        1 => "ADC",
        2 => "SUB",
        3 => "SBB",
        4 => "ANA",
        5 => "XRA",
        6 => "ORA",
        _ => "CMP",
    }
}

/// The lowercase hex digit of a nibble.
fn hex_digit(n: u8) -> (s: &'static str)
    requires
        n < 16,
    ensures
        s@ == spec_hex_digit(n as int),
{
    match n {
        0 => "0",
        1 => "1",
        2 => "2",
        3 => "3",
        4 => "4",
        5 => "5",
        6 => "6",
        7 => "7",
        8 => "8",
        9 => "9",
        10 => "a",
        11 => "b",
        12 => "c",
        13 => "d",
        14 => "e",
        _ => "f",
    }
}

/// Append the two lowercase hex digits of `b`, high nibble first.
fn push_hex2(s: &mut String, b: u8)
    ensures
        final(s)@ == old(s)@ + spec_hex2(b),
{
    s.append(hex_digit(b / 16));
    s.append(hex_digit(b % 16));
}

/// The length in bytes of the instruction with opcode `op`.
pub fn instr_len(op: u8) -> (n: usize)
    ensures
        n == spec_instr_len(op),
{
    match op {
        0x01 | 0x11 | 0x21 | 0x22 | 0x2A | 0x31 | 0x32 | 0x3A | 0xC2 | 0xC3 | 0xC4 | 0xCA | 0xCC | 0xCD | 0xD2 | 0xD4 | 0xDA | 0xDC | 0xE2 | 0xE4 | 0xEA | 0xEC | 0xF2 | 0xF4 | 0xFA | 0xFC => 3,
        0x06 | 0x0E | 0x16 | 0x1E | 0x26 | 0x2E | 0x36 | 0x3E | 0xC6 | 0xCE | 0xD3 | 0xD6 | 0xDB | 0xDE | 0xE6 | 0xEE | 0xF6 | 0xFE => 2,
        _ => 1,
    }
}

/// Append the constant line part of the opcode quadrant `0x00..0x40`.
#[verifier::spinoff_prover]
#[verifier::rlimit(60)]
fn push_prefix_low(s: &mut String, op: u8)
    requires
        op < 0x40,
    ensures
        final(s)@ == old(s)@ + spec_prefix_low(op),
{
    match op {
        0x00 => s.append("NOP"),
        0x01 => s.append("LXI   B,#$"),
        0x02 => s.append("STAX  B"),
        0x03 => s.append("INX   B"),
        0x04 => s.append("INR   B"),
        0x05 => s.append("DCR   B"),
        0x06 => s.append("MVI   B,#$"),
        0x07 => s.append("RLC"),
        0x08 => s.append("NOP"),
        0x09 => s.append("DAD   B"),
        0x0A => s.append("LDAX  B"),
        0x0B => s.append("DCX   B"),
        0x0C => s.append("INR   C"),
        0x0D => s.append("DCR   C"),
        0x0E => s.append("MVI   C,#$"),
        0x0F => s.append("RRC"),
        0x10 => s.append("NOP"),
        0x11 => s.append("LXI   D,#$"),
        0x12 => s.append("STAX  D"),
        0x13 => s.append("INX   D"),
        0x14 => s.append("INR   D"),
        0x15 => s.append("DCR   D"),
        0x16 => s.append("MVI   D,#$"),
        0x17 => s.append("RAL"),
        0x18 => s.append("NOP"),
        0x19 => s.append("DAD   D"),
        0x1A => s.append("LDAX  D"),
        0x1B => s.append("DCX   D"),
        0x1C => s.append("INR   E"),
        0x1D => s.append("DCR   E"),
        0x1E => s.append("MVI   E,#$"),
        0x1F => s.append("RAR"),
        0x20 => s.append("NOP"),
        0x21 => s.append("LXI   H,#$"),
        0x22 => s.append("SHLD  $"),
        0x23 => s.append("INX   H"),
        0x24 => s.append("INR   H"),
        0x25 => s.append("DCR   H"),
        0x26 => s.append("MVI   H,#$"),
        0x27 => s.append("DAA"),
        0x28 => s.append("NOP"),
        0x29 => s.append("DAD   H"),
        0x2A => s.append("LHLD  $"),
        0x2B => s.append("DCX   H"),
        0x2C => s.append("INR   L"),
        0x2D => s.append("DCR   L"),
        0x2E => s.append("MVI   L,#$"),
        0x2F => s.append("CMA"),
        0x30 => s.append("NOP"),
        0x31 => s.append("LXI   SP,#$"),
        0x32 => s.append("STA   $"),
        0x33 => s.append("INX   SP"),
        0x34 => s.append("INR   M"),
        0x35 => s.append("DCR   M"),
        0x36 => s.append("MVI   M,#$"),
        0x37 => s.append("STC"),
        0x38 => s.append("NOP"),
        0x39 => s.append("DAD   SP"),
        0x3A => s.append("LDA   $"),
        0x3B => s.append("DCX   SP"),
        0x3C => s.append("INR   A"),
        0x3D => s.append("DCR   A"),
        0x3E => s.append("MVI   A,#$"),
        _ => s.append("CMC"),
    }
}

/// Append the constant line part of the opcode quadrant `0xC0..0x100`.
#[verifier::spinoff_prover]
#[verifier::rlimit(60)]
fn push_prefix_high(s: &mut String, op: u8)
    requires
        op >= 0xC0,
    ensures
        final(s)@ == old(s)@ + spec_prefix_high(op),
{
    match op {
        0xC0 => s.append("RNZ"),
        0xC1 => s.append("POP   B"),
        0xC2 => s.append("JNZ   $"),
        0xC3 => s.append("JMP   $"),
        0xC4 => s.append("CNZ   $"),
        0xC5 => s.append("PUSH  B"),
        0xC6 => s.append("ADI   $"),
        0xC7 => s.append("RST   0"),
        0xC8 => s.append("RZ"),
        0xC9 => s.append("RET"),
        0xCA => s.append("JZ    $"),
        0xCB => s.append("NOP"),
        0xCC => s.append("CZ    $"),
        0xCD => s.append("CALL  $"),
        0xCE => s.append("ACI   $"),
        0xCF => s.append("RST   1"),
        0xD0 => s.append("RNC"),
        0xD1 => s.append("POP   D"),
        0xD2 => s.append("JNC   $"),
        0xD3 => s.append("OUT   $"),
        0xD4 => s.append("CNC   $"),
        0xD5 => s.append("PUSH  D"),
        0xD6 => s.append("SUI   $"),
        0xD7 => s.append("RST   2"),
        0xD8 => s.append("RC"),
        0xD9 => s.append("NOP"),
        0xDA => s.append("JC    $"),
        0xDB => s.append("IN    $"),
        0xDC => s.append("CC    $"),
        0xDD => s.append("NOP"),
        0xDE => s.append("SBI   $"),
        0xDF => s.append("RST   3"),
        0xE0 => s.append("RPO"),
        0xE1 => s.append("POP   H"),
        0xE2 => s.append("JPO   $"),
        0xE3 => s.append("XTHL"),
        0xE4 => s.append("CPO   $"),
        0xE5 => s.append("PUSH  H"),
        0xE6 => s.append("ANI   $"),
        0xE7 => s.append("RST   4"),
        0xE8 => s.append("RPE"),
        0xE9 => s.append("PCHL"),
        0xEA => s.append("JPE   $"),
        0xEB => s.append("XCHG"),
        0xEC => s.append("CPE   $"),
        0xED => s.append("NOP"),
        0xEE => s.append("XRI   $"),
        0xEF => s.append("RST   5"),
        0xF0 => s.append("RP"),
        0xF1 => s.append("POP   PSW"),
        0xF2 => s.append("JP    $"),
        0xF3 => s.append("DI"),
        0xF4 => s.append("CP    $"),
        0xF5 => s.append("PUSH  PSW"),
        0xF6 => s.append("ORI   $"),
        0xF7 => s.append("RST   6"),
        0xF8 => s.append("RM"),
        0xF9 => s.append("SPHL"),
        0xFA => s.append("JM    $"),
        0xFB => s.append("EI"),
        0xFC => s.append("CM    $"),
        0xFD => s.append("NOP"),
        0xFE => s.append("CPI   $"),
        _ => s.append("RST   7"),
    }
}

/// Append the constant part of the mnemonic line of opcode `op`.
fn push_prefix(s: &mut String, op: u8)
    ensures
        final(s)@ == old(s)@ + spec_prefix(op),
{
    if op < 0x40 {
        push_prefix_low(s, op);
    } else if op == 0x76 {
        s.append("HLT");
    } else if op < 0x80 {
        s.append("MOV   ");
        s.append(rname((op / 8) % 8));
        s.append(",");
        s.append(rname(op % 8));
    } else if op < 0xC0 {
        s.append(alu_name((op / 8) % 8));
        s.append("   ");
        s.append(rname(op % 8));
    } else {
        push_prefix_high(s, op);
    }
}

/// Render the mnemonic line of the single instruction at `pos`. The whole
/// instruction, operands included, must lie inside the buffer.
pub fn disassemble_instruction(buffer: &Vec<u8>, pos: usize) -> (line: String)
    requires
        pos < buffer@.len(),
        pos + spec_instr_len(buffer@[pos as int]) <= buffer@.len(),
    ensures
        line@ == spec_line(buffer@, pos as int),
{
    let blen = buffer.len();
    let op = buffer[pos];
    let mut line = String::new();
    push_prefix(&mut line, op);
    let n = instr_len(op);
    proof {
        assert(pos + n <= blen);
    }
    if n == 2 {
        push_hex2(&mut line, buffer[pos + 1]);
    } else if n == 3 {
        push_hex2(&mut line, buffer[pos + 2]);
        push_hex2(&mut line, buffer[pos + 1]);
    }
    line
}

/// Whether a whole instruction starts at `pos`: the opcode and all its
/// operand bytes lie inside the buffer.
fn whole_instruction_at(buffer: &Vec<u8>, pos: usize) -> (b: bool)
    ensures
        b == (pos < buffer@.len() && pos + spec_instr_len(buffer@[pos as int]) <= buffer@.len()),
{
    pos < buffer.len() && instr_len(buffer[pos]) <= buffer.len() - pos
}

/// Disassemble a whole buffer: one mnemonic line per instruction, linearly
/// from the start, advancing by each instruction's length.
pub fn disassemble_buffer(buffer: &Vec<u8>) -> (lines: Vec<String>)
    ensures
        lines.deep_view() == spec_disasm(buffer@, 0),
{
    let mut lines: Vec<String> = Vec::new();
    let mut pos: usize = 0;
    while whole_instruction_at(buffer, pos)
        invariant
            0 <= pos,
            lines.deep_view() + spec_disasm(buffer@, pos as int) =~~= spec_disasm(buffer@, 0),
        decreases buffer@.len() - pos,
    {
        let ghost prev_lines = lines.deep_view();
        let ghost prev_pos = pos as int;
        let blen = buffer.len();
        let line = disassemble_instruction(buffer, pos);
        proof {
            assert(pos + spec_instr_len(buffer@[pos as int]) <= blen);
        }
        pos = pos + instr_len(buffer[pos]);
        lines.push(line);
        proof {
            assert(lines.deep_view() =~~= prev_lines + seq![spec_line(buffer@, prev_pos)]);
            assert(spec_disasm(buffer@, prev_pos) == seq![spec_line(buffer@, prev_pos)]
                + spec_disasm(buffer@, pos as int));
        }
    }
    lines
}

} // verus!
