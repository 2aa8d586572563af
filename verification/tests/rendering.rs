use decoder_8086::instr::DecodeError;
use decoder_8086::instr::FieldContext;
use decoder_8086::instr::Instruction;
use decoder_8086::render::effective_address_calculation;
use decoder_8086::render::memory_operand_string;
use decoder_8086::render::register_field_encoding;
use decoder_8086::render::render_instruction;
use decoder_8086::render::render_program;
use decoder_8086::render::u16_to_decimal;

#[test]
fn byte_register_names() {
    let names = ["al", "cl", "dl", "bl", "ah", "ch", "dh", "bh"];
    for reg in 0..8u8 {
        assert_eq!(register_field_encoding(reg, 0), names[reg as usize]);
    }
}

#[test]
fn word_register_names() {
    let names = ["ax", "cx", "dx", "bx", "sp", "bp", "si", "di"];
    for reg in 0..8u8 {
        assert_eq!(register_field_encoding(reg, 1), names[reg as usize]);
    }
}

#[test]
fn decimal_rendering() {
    assert_eq!(u16_to_decimal(0).as_str(), "0");
    assert_eq!(u16_to_decimal(5).as_str(), "5");
    assert_eq!(u16_to_decimal(10).as_str(), "10");
    assert_eq!(u16_to_decimal(255).as_str(), "255");
    assert_eq!(u16_to_decimal(4660).as_str(), "4660");
    assert_eq!(u16_to_decimal(65535).as_str(), "65535");
}

#[test]
fn base_register_expressions() {
    let bases = ["bx + si", "bx + di", "bp + si", "bp + di", "si", "di", "bp", "bx"];
    for rm in 0..8u8 {
        let expected = format!("[{}]", bases[rm as usize]);
        assert_eq!(memory_operand_string(rm, 0, 0).as_str(), expected.as_str());
    }
}

#[test]
fn displacement_suffix_only_when_nonzero() {
    assert_eq!(memory_operand_string(2, 2, 0).as_str(), "[bp + si]");
    assert_eq!(memory_operand_string(2, 2, 1).as_str(), "[bp + si + 1]");
    assert_eq!(memory_operand_string(2, 2, 65535).as_str(), "[bp + si + 65535]");
}

#[test]
fn byte_displacement_sign_boundaries() {
    assert_eq!(memory_operand_string(2, 1, 0).as_str(), "[bp + si]");
    assert_eq!(memory_operand_string(2, 1, 127).as_str(), "[bp + si + 127]");
    assert_eq!(memory_operand_string(2, 1, 128).as_str(), "[bp + si - 128]");
    assert_eq!(memory_operand_string(2, 1, 251).as_str(), "[bp + si - 5]");
    assert_eq!(memory_operand_string(2, 1, 255).as_str(), "[bp + si - 1]");
}

#[test]
fn effective_address_direct() {
    let (s, p2) = effective_address_calculation(6, 0, &[0x34, 0x12], 0).unwrap();
    assert_eq!(s.as_str(), "4660");
    assert_eq!(p2, 2);
}

#[test]
fn effective_address_no_displacement() {
    let (s, p2) = effective_address_calculation(7, 0, &[], 0).unwrap();
    assert_eq!(s.as_str(), "[bx]");
    assert_eq!(p2, 0);
}

#[test]
fn effective_address_byte_displacement() {
    let (s, p2) = effective_address_calculation(6, 1, &[0x08], 0).unwrap();
    assert_eq!(s.as_str(), "[bp + 8]");
    assert_eq!(p2, 1);
}

#[test]
fn effective_address_byte_displacement_zero() {
    let (s, p2) = effective_address_calculation(0, 1, &[0x00], 0).unwrap();
    assert_eq!(s.as_str(), "[bx + si]");
    assert_eq!(p2, 1);
}

#[test]
fn effective_address_negative_byte_displacement() {
    let (s, p2) = effective_address_calculation(0, 1, &[0xFB], 0).unwrap();
    assert_eq!(s.as_str(), "[bx + si - 5]");
    assert_eq!(p2, 1);
}

#[test]
fn effective_address_word_displacement() {
    let (s, p2) = effective_address_calculation(5, 2, &[0xAA, 0x00, 0x01, 0xFF], 1).unwrap();
    assert_eq!(s.as_str(), "[di + 256]");
    assert_eq!(p2, 3);
}

#[test]
fn effective_address_truncated_direct() {
    let r = effective_address_calculation(6, 0, &[0x34], 0);
    assert_eq!(r, Err(DecodeError::TruncatedStream { context: FieldContext::DirectAddressByte }));
}

#[test]
fn effective_address_truncated_displacement() {
    let r = effective_address_calculation(3, 2, &[0x34], 0);
    assert_eq!(r, Err(DecodeError::TruncatedStream { context: FieldContext::DisplacementByte }));
}

#[test]
fn rendered_instruction_has_no_line_break() {
    let s = render_instruction(&Instruction::RegToReg { d: 1, w: 1, reg: 2, rm: 3 });
    assert_eq!(s.as_str(), "mov dx, bx");
}

#[test]
fn rendered_program_has_header_and_line_breaks() {
    let instrs = vec![
        Instruction::ImmToReg { w: 0, reg: 4, data: 7 },
        Instruction::RegMem { d: 0, w: 1, reg: 1, mode: 2, rm: 4, disp: 300 },
    ];
    let s = render_program(&instrs);
    assert_eq!(s.as_str(), "bits 16\nmov ah, 7\nmov [si + 300], cx\n");
}
