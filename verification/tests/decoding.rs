use decode_8086::driver::disassemble;
use decode_8086::model::DecodeError;
use decode_8086::tables::{get_reg_code, get_rm_code_with_offset};

fn lines_of(bytes: Vec<u8>) -> Vec<String> {
    let (lines, err) = disassemble(bytes);
    assert!(err.is_none(), "unexpected decode error: {:?}", err);
    lines
}

#[test]
fn header_only_for_empty_stream() {
    let lines = lines_of(vec![]);
    assert_eq!(lines.len(), 1);
    assert_eq!(lines[0], "bits 16");
}

#[test]
fn mov_register_to_register() {
    let lines = lines_of(vec![0b10001001, 0b11011001]);
    assert_eq!(lines.len(), 2);
    assert_eq!(lines[1], "mov cx, bx");
}

#[test]
fn mov_register_to_register_direction_bit() {
    let lines = lines_of(vec![0x8b, 0xd9]);
    assert_eq!(lines[1], "mov bx, cx");
}

#[test]
fn mov_immediate_to_register_narrow() {
    let lines = lines_of(vec![0b10110001, 0b00000101]);
    assert_eq!(lines[1], "mov cl, 5");
}

#[test]
fn mov_immediate_to_register_wide() {
    let lines = lines_of(vec![0xb9, 0x34, 0x12]);
    assert_eq!(lines[1], "mov cx, 4660");
}

#[test]
fn add_register_to_register_narrow() {
    let lines = lines_of(vec![0b00000000, 0b11000001]);
    assert_eq!(lines.len(), 2);
    assert_eq!(lines[1], "add cl, al");
}

#[test]
fn sub_and_cmp_register_to_register() {
    let lines = lines_of(vec![0x29, 0xd9, 0x39, 0xd9]);
    assert_eq!(lines[1], "sub cx, bx");
    assert_eq!(lines[2], "cmp cx, bx");
}

#[test]
fn jump_with_positive_displacement() {
    let lines = lines_of(vec![0b01110100, 0b00000101]);
    assert_eq!(lines[1], "je 5");
}

#[test]
fn jump_with_negative_displacement() {
    let lines = lines_of(vec![0x74, 0xfb]);
    assert_eq!(lines[1], "je -5");
}

#[test]
fn all_fifteen_jump_mnemonics() {
    let table: Vec<(u8, &str)> = vec![
        (0x70, "jo"),
        (0x71, "jno"),
        (0x72, "jb"),
        (0x73, "jnb"),
        (0x74, "je"),
        (0x75, "jne"),
        (0x76, "jbe"),
        (0x77, "jnbe"),
        (0x78, "js"),
        (0x7a, "jp"),
        (0x7b, "jnp"),
        (0x7c, "jl"),
        (0x7d, "jnl"),
        (0x7e, "jle"),
        (0x7f, "jnle"),
    ];
    for (op, mn) in table {
        let lines = lines_of(vec![op, 0x01]);
        assert_eq!(lines[1], format!("{} 1", mn));
    }
}

#[test]
fn jump_gap_opcode_is_unsupported() {
    let (lines, err) = disassemble(vec![0x79, 0x05]);
    assert_eq!(lines.len(), 1);
    assert_eq!(err, Some(DecodeError::UnsupportedOpcode));
}

#[test]
fn truncated_stream_keeps_prior_lines() {
    let (lines, err) = disassemble(vec![0x89, 0xd9, 0xb9, 0x34]);
    assert_eq!(lines.len(), 2);
    assert_eq!(lines[0], "bits 16");
    assert_eq!(lines[1], "mov cx, bx");
    assert_eq!(err, Some(DecodeError::ShortRead));
}

#[test]
fn truncated_stream_missing_addressing_byte() {
    let (lines, err) = disassemble(vec![0x89]);
    assert_eq!(lines.len(), 1);
    assert_eq!(err, Some(DecodeError::ShortRead));
}

#[test]
fn truncated_stream_missing_displacement() {
    let (_, err) = disassemble(vec![0x88, 0x46]);
    assert_eq!(err, Some(DecodeError::ShortRead));
}

#[test]
fn truncated_stream_missing_direct_address_byte() {
    let (_, err) = disassemble(vec![0xa1, 0x10]);
    assert_eq!(err, Some(DecodeError::ShortRead));
}

#[test]
fn unknown_opcode_is_unsupported() {
    let (lines, err) = disassemble(vec![0x0f]);
    assert_eq!(lines.len(), 1);
    assert_eq!(err, Some(DecodeError::UnsupportedOpcode));
}

#[test]
fn decoding_is_deterministic_on_reruns() {
    let bytes = vec![0x89, 0xd9, 0x83, 0xc1, 0x05, 0x74, 0xfb];
    let first = disassemble(bytes.clone());
    let second = disassemble(bytes);
    assert_eq!(first.0, second.0);
    assert_eq!(first.1, second.1);
}

#[test]
fn multi_instruction_stream() {
    let lines = lines_of(vec![0x89, 0xd9, 0xb1, 0x05, 0x74, 0xfb]);
    assert_eq!(lines.len(), 4);
    assert_eq!(lines[1], "mov cx, bx");
    assert_eq!(lines[2], "mov cl, 5");
    assert_eq!(lines[3], "je -5");
}

#[test]
fn register_name_table_is_exact() {
    let wide = vec!["ax", "cx", "dx", "bx", "sp", "bp", "si", "di"];
    let narrow = vec!["al", "cl", "dl", "bl", "ah", "ch", "dh", "bh"];
    for i in 0..8u8 {
        assert_eq!(get_reg_code(i, true), wide[i as usize]);
        assert_eq!(get_reg_code(i, false), narrow[i as usize]);
    }
}

#[test]
fn offset_expression_table_is_exact() {
    assert_eq!(get_rm_code_with_offset(0, 5), "[bx + si + 5]");
    assert_eq!(get_rm_code_with_offset(1, 5), "[bx + di + 5]");
    assert_eq!(get_rm_code_with_offset(2, 5), "[bp + si + 5]");
    assert_eq!(get_rm_code_with_offset(3, 5), "[bp + di + 5]");
    assert_eq!(get_rm_code_with_offset(4, 5), "[si + 5]");
    assert_eq!(get_rm_code_with_offset(5, 5), "[di + 5]");
    assert_eq!(get_rm_code_with_offset(6, 5), "[bp + 5]");
    assert_eq!(get_rm_code_with_offset(7, 5), "[bx + 5]");
}
