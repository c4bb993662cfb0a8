use decode_8086::driver::disassemble;
use decode_8086::model::DecodeError;

fn lines_of(bytes: Vec<u8>) -> Vec<String> {
    let (lines, err) = disassemble(bytes);
    assert!(err.is_none(), "unexpected decode error: {:?}", err);
    lines
}

#[test]
fn plain_base_expressions_mod_zero() {
    assert_eq!(lines_of(vec![0x88, 0x00])[1], "mov [bx + si], al");
    assert_eq!(lines_of(vec![0x88, 0x01])[1], "mov [bx + di], al");
    assert_eq!(lines_of(vec![0x88, 0x02])[1], "mov [bp + si], al");
    assert_eq!(lines_of(vec![0x88, 0x03])[1], "mov [bp + di], al");
    assert_eq!(lines_of(vec![0x88, 0x04])[1], "mov [si], al");
    assert_eq!(lines_of(vec![0x88, 0x05])[1], "mov [di], al");
}

#[test]
fn rm_seven_quirk_renders_like_rm_zero() {
    let with_seven = lines_of(vec![0x88, 0x07]);
    let with_zero = lines_of(vec![0x88, 0x00]);
    assert_eq!(with_seven[1], "mov [bx + si], al");
    assert_eq!(with_seven[1], with_zero[1]);
}

#[test]
fn direct_address_exception_mod_zero_rm_six() {
    let lines = lines_of(vec![0x88, 0x06, 0x34, 0x12]);
    assert_eq!(lines[1], "mov [4660], al");
}

#[test]
fn eight_bit_displacement() {
    let lines = lines_of(vec![0x88, 0x44, 0x2a]);
    assert_eq!(lines[1], "mov [si + 42], al");
}

#[test]
fn zero_displacement_is_not_elided() {
    let lines = lines_of(vec![0x88, 0x46, 0x00]);
    assert_eq!(lines[1], "mov [bp + 0], al");
}

#[test]
fn sixteen_bit_displacement() {
    let lines = lines_of(vec![0x89, 0x81, 0xe8, 0x03]);
    assert_eq!(lines[1], "mov [bx + di + 1000], ax");
}

#[test]
fn mov_immediate_to_memory_with_byte_keyword() {
    let lines = lines_of(vec![0xc6, 0x06, 0x34, 0x12, 0x07]);
    assert_eq!(lines[1], "mov [4660], byte 7");
}

#[test]
fn mov_immediate_to_memory_with_word_keyword() {
    let lines = lines_of(vec![0xc7, 0x06, 0x34, 0x12, 0x07, 0x00]);
    assert_eq!(lines[1], "mov [4660], word 7");
}

#[test]
fn mov_immediate_to_register_operand_has_no_keyword() {
    let lines = lines_of(vec![0xc6, 0xc1, 0x05]);
    assert_eq!(lines[1], "mov cl, 5");
}

#[test]
fn memory_to_accumulator_both_widths() {
    assert_eq!(lines_of(vec![0xa1, 0x10, 0x00])[1], "mov ax, [16]");
    assert_eq!(lines_of(vec![0xa0, 0x10, 0x00])[1], "mov al, [16]");
}

#[test]
fn accumulator_to_memory_both_widths() {
    assert_eq!(lines_of(vec![0xa3, 0x10, 0x00])[1], "mov [16], ax");
    assert_eq!(lines_of(vec![0xa2, 0x10, 0x00])[1], "mov [16], al");
}

#[test]
fn arithmetic_immediate_to_accumulator() {
    assert_eq!(lines_of(vec![0x04, 0x09])[1], "add al, 9");
    assert_eq!(lines_of(vec![0x05, 0xe8, 0x03])[1], "add ax, 1000");
    assert_eq!(lines_of(vec![0x2d, 0x10, 0x27])[1], "sub ax, 10000");
    assert_eq!(lines_of(vec![0x3c, 0x07])[1], "cmp al, 7");
}

#[test]
fn arithmetic_group_sign_extended_single_byte() {
    let lines = lines_of(vec![0x83, 0xc1, 0x05]);
    assert_eq!(lines[1], "add cl, 5");
}

#[test]
fn arithmetic_group_sw_one_reads_two_bytes() {
    let lines = lines_of(vec![0x81, 0xe9, 0xe8, 0x03]);
    assert_eq!(lines[1], "sub cx, 1000");
}

#[test]
fn arithmetic_group_memory_destination_word_keyword() {
    let lines = lines_of(vec![0x83, 0x3e, 0x34, 0x12, 0x05]);
    assert_eq!(lines[1], "cmp [4660], word 5");
}

#[test]
fn arithmetic_group_memory_destination_byte_keyword() {
    let lines = lines_of(vec![0x80, 0x3e, 0x34, 0x12, 0x05]);
    assert_eq!(lines[1], "cmp [4660], byte 5");
}

#[test]
fn arithmetic_group_bad_extension_is_unsupported() {
    let (lines, err) = disassemble(vec![0x80, 0x08]);
    assert_eq!(lines.len(), 1);
    assert_eq!(err, Some(DecodeError::UnsupportedOpcode));
}

#[test]
fn register_direct_mode_consumes_no_extra_bytes() {
    let (lines, err) = disassemble(vec![0x89, 0xd9, 0x74, 0x01]);
    assert!(err.is_none());
    assert_eq!(lines.len(), 3);
    assert_eq!(lines[1], "mov cx, bx");
    assert_eq!(lines[2], "je 1");
}
