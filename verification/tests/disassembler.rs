// Tests of the disassembler: exact mnemonic lines, operand formatting,
// instruction lengths, and the linear walk over a buffer.

use emu8080::disassembler::{disassemble_buffer, disassemble_instruction, instr_len};

fn lines_of(bytes: Vec<u8>) -> Vec<String> {
    disassemble_buffer(&bytes)
}

#[test]
fn single_byte_mnemonics() {
    assert_eq!(lines_of(vec![0x00]), vec!["NOP"]);
    assert_eq!(lines_of(vec![0xC9]), vec!["RET"]);
    assert_eq!(lines_of(vec![0x76]), vec!["HLT"]);
    assert_eq!(lines_of(vec![0xEB]), vec!["XCHG"]);
    assert_eq!(lines_of(vec![0x07]), vec!["RLC"]);
    assert_eq!(lines_of(vec![0xF1]), vec!["POP   PSW"]);
    assert_eq!(lines_of(vec![0xC5]), vec!["PUSH  B"]);
    assert_eq!(lines_of(vec![0x02]), vec!["STAX  B"]);
    assert_eq!(lines_of(vec![0x33]), vec!["INX   SP"]);
    assert_eq!(lines_of(vec![0xC7]), vec!["RST   0"]);
    assert_eq!(lines_of(vec![0xFF]), vec!["RST   7"]);
}

#[test]
fn mov_and_alu_operands() {
    assert_eq!(lines_of(vec![0x41]), vec!["MOV   B,C"]);
    assert_eq!(lines_of(vec![0x7E]), vec!["MOV   A,M"]);
    assert_eq!(lines_of(vec![0x70]), vec!["MOV   M,B"]);
    assert_eq!(lines_of(vec![0x80]), vec!["ADD   B"]);
    assert_eq!(lines_of(vec![0x8E]), vec!["ADC   M"]);
    assert_eq!(lines_of(vec![0x97]), vec!["SUB   A"]);
    assert_eq!(lines_of(vec![0xA8]), vec!["XRA   B"]);
    assert_eq!(lines_of(vec![0xBD]), vec!["CMP   L"]);
}

#[test]
fn immediate_byte_formats() {
    assert_eq!(lines_of(vec![0x3E, 0x37]), vec!["MVI   A,#$37"]);
    assert_eq!(lines_of(vec![0x06, 0x0A]), vec!["MVI   B,#$0a"]);
    assert_eq!(lines_of(vec![0xC6, 0xFF]), vec!["ADI   $ff"]);
    assert_eq!(lines_of(vec![0xFE, 0x00]), vec!["CPI   $00"]);
    assert_eq!(lines_of(vec![0xD3, 0x10]), vec!["OUT   $10"]);
    assert_eq!(lines_of(vec![0xDB, 0x02]), vec!["IN    $02"]);
}

#[test]
fn immediate_word_formats_high_byte_first() {
    assert_eq!(lines_of(vec![0x01, 0x00, 0x01]), vec!["LXI   B,#$0100"]);
    assert_eq!(lines_of(vec![0x31, 0xCD, 0xAB]), vec!["LXI   SP,#$abcd"]);
    assert_eq!(lines_of(vec![0xCD, 0x34, 0x12]), vec!["CALL  $1234"]);
    assert_eq!(lines_of(vec![0xC3, 0x00, 0x00]), vec!["JMP   $0000"]);
    assert_eq!(lines_of(vec![0x32, 0x21, 0x43]), vec!["STA   $4321"]);
    assert_eq!(lines_of(vec![0x2A, 0x0D, 0xF0]), vec!["LHLD  $f00d"]);
}

#[test]
fn standard_mnemonic_for_jm() {
    // 0xFA is JM (jump if minus) under standard Intel naming
    assert_eq!(lines_of(vec![0xFA, 0x34, 0x12]), vec!["JM    $1234"]);
    assert_eq!(lines_of(vec![0xFC, 0x34, 0x12]), vec!["CM    $1234"]);
    assert_eq!(lines_of(vec![0xF2, 0x34, 0x12]), vec!["JP    $1234"]);
}

#[test]
fn undocumented_opcodes_print_nop() {
    for op in [0x08u8, 0x10, 0x18, 0x20, 0x28, 0x30, 0x38, 0xCB, 0xD9, 0xDD, 0xED, 0xFD] {
        assert_eq!(lines_of(vec![op]), vec!["NOP"]);
    }
}

#[test]
fn instruction_lengths() {
    assert_eq!(instr_len(0x00), 1);
    assert_eq!(instr_len(0x3E), 2);
    assert_eq!(instr_len(0xC3), 3);
    assert_eq!(instr_len(0xD3), 2);
    assert_eq!(instr_len(0x22), 3);
    assert_eq!(instr_len(0x76), 1);
    // every opcode decodes to a length of 1, 2 or 3
    for op in 0..=255u8 {
        let n = instr_len(op);
        assert!(n >= 1 && n <= 3);
    }
}

#[test]
fn linear_walk_advances_by_length() {
    let rom = vec![
        0x01, 0x00, 0x01, // LXI   B,#$0100
        0x3E, 0x37, // MVI   A,#$37
        0xCD, 0x34, 0x12, // CALL  $1234
        0xC9, // RET
    ];
    let lines = lines_of(rom);
    assert_eq!(lines, vec!["LXI   B,#$0100", "MVI   A,#$37", "CALL  $1234", "RET"]);
}

#[test]
fn truncated_final_instruction_yields_no_line() {
    // a three-byte instruction with only one operand byte present
    assert_eq!(lines_of(vec![0x00, 0x01, 0x00]), vec!["NOP"]);
    assert_eq!(lines_of(vec![]), Vec::<String>::new());
}

#[test]
fn single_instruction_render() {
    let rom = vec![0x00, 0x3E, 0x42];
    assert_eq!(disassemble_instruction(&rom, 0), "NOP");
    assert_eq!(disassemble_instruction(&rom, 1), "MVI   A,#$42");
}
