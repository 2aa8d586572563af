use decoder_8086::decode::decode_program;
use decoder_8086::disassemble;
use decoder_8086::instr::DecodeError;
use decoder_8086::instr::FieldContext;
use decoder_8086::instr::Instruction;

#[test]
fn empty_stream_gives_header_only() {
    let out = disassemble(&[]).unwrap();
    assert_eq!(out.as_str(), "bits 16\n");
}

#[test]
fn width_selection_byte_registers() {
    // RegMemToFromReg, d=0, w=0, mode=3, reg=000, rm=001.
    let out = disassemble(&[0b1000_1000, 0b1100_0001]).unwrap();
    assert_eq!(out.as_str(), "bits 16\nmov cl, al\n");
}

#[test]
fn width_selection_word_registers() {
    // Same mode/reg/r-m byte, w=1.
    let out = disassemble(&[0b1000_1001, 0b1100_0001]).unwrap();
    assert_eq!(out.as_str(), "bits 16\nmov cx, ax\n");
}

#[test]
fn direction_bit_swaps_register_operands() {
    let out = disassemble(&[0b1000_1010, 0b1100_0001]).unwrap();
    assert_eq!(out.as_str(), "bits 16\nmov al, cl\n");
}

#[test]
fn immediate_to_register_word_width() {
    let out = disassemble(&[0b1011_1000, 0x34, 0x12]).unwrap();
    assert_eq!(out.as_str(), "bits 16\nmov ax, 4660\n");
}

#[test]
fn immediate_to_register_byte_width() {
    let out = disassemble(&[0b1011_0001, 0x05]).unwrap();
    assert_eq!(out.as_str(), "bits 16\nmov cl, 5\n");
}

#[test]
fn immediate_byte_width_is_not_sign_extended() {
    let out = disassemble(&[0b1011_0001, 0xFF]).unwrap();
    assert_eq!(out.as_str(), "bits 16\nmov cl, 255\n");
}

#[test]
fn immediate_word_zero() {
    let out = disassemble(&[0b1011_1000, 0x00, 0x00]).unwrap();
    assert_eq!(out.as_str(), "bits 16\nmov ax, 0\n");
}

#[test]
fn immediate_word_maximum() {
    let out = disassemble(&[0b1011_1011, 0xFF, 0xFF]).unwrap();
    assert_eq!(out.as_str(), "bits 16\nmov bx, 65535\n");
}

#[test]
fn indexed_operand_with_zero_displacement_byte() {
    // mode=01, rm=000 (bx + si), displacement byte 0x00: the suffix is
    // suppressed.
    let out = disassemble(&[0b1000_1010, 0b0100_0000, 0x00]).unwrap();
    assert_eq!(out.as_str(), "bits 16\nmov al, [bx + si]\n");
}

#[test]
fn indexed_operand_with_nonzero_displacement_byte() {
    let out = disassemble(&[0b1000_1010, 0b0100_0000, 0x05]).unwrap();
    assert_eq!(out.as_str(), "bits 16\nmov al, [bx + si + 5]\n");
}

#[test]
fn indexed_operand_with_zero_word_displacement() {
    // mode=10, rm=001 (bx + di), displacement 0x0000: suppressed as well.
    let out = disassemble(&[0b1000_1011, 0b1000_0001, 0x00, 0x00]).unwrap();
    assert_eq!(out.as_str(), "bits 16\nmov ax, [bx + di]\n");
}

#[test]
fn indexed_operand_with_word_displacement() {
    let out = disassemble(&[0b1000_1011, 0b1000_0001, 0x00, 0x01]).unwrap();
    assert_eq!(out.as_str(), "bits 16\nmov ax, [bx + di + 256]\n");
}

#[test]
fn displacement_byte_renders_signed() {
    // mode=01, rm=100 (si): the displacement byte is signed, so 0x80 is the
    // most negative value, -128.
    let out = disassemble(&[0b1000_1010, 0b0100_0100, 0x80]).unwrap();
    assert_eq!(out.as_str(), "bits 16\nmov al, [si - 128]\n");
}

#[test]
fn negative_displacement_byte() {
    // Displacement byte 0xFB is -5.
    let out = disassemble(&[0b1000_1010, 0b0100_0000, 0xFB]).unwrap();
    assert_eq!(out.as_str(), "bits 16\nmov al, [bx + si - 5]\n");
}

#[test]
fn largest_positive_displacement_byte() {
    let out = disassemble(&[0b1000_1010, 0b0100_0100, 0x7F]).unwrap();
    assert_eq!(out.as_str(), "bits 16\nmov al, [si + 127]\n");
}

#[test]
fn word_displacement_high_bit_renders_unsigned() {
    // mode=10: the 16-bit displacement keeps its unsigned reading; the bits
    // re-encode identically either way.
    let out = disassemble(&[0b1000_1011, 0b1000_0001, 0x00, 0x80]).unwrap();
    assert_eq!(out.as_str(), "bits 16\nmov ax, [bx + di + 32768]\n");
}

#[test]
fn no_displacement_memory_operand() {
    // mode=00, rm=011 (bp + di): no displacement bytes are consumed.
    let out = disassemble(&[0b1000_1011, 0b0000_0011]).unwrap();
    assert_eq!(out.as_str(), "bits 16\nmov ax, [bp + di]\n");
}

#[test]
fn memory_destination_when_direction_clear() {
    let out = disassemble(&[0b1000_1001, 0b0000_0011]).unwrap();
    assert_eq!(out.as_str(), "bits 16\nmov [bp + di], ax\n");
}

#[test]
fn direct_address_renders_bare() {
    // mode=00, rm=110: a 16-bit direct address, rendered unbracketed.
    let out = disassemble(&[0b1000_1011, 0b0000_0110, 0x34, 0x12]).unwrap();
    assert_eq!(out.as_str(), "bits 16\nmov ax, 4660\n");
}

#[test]
fn direct_address_as_destination() {
    let out = disassemble(&[0b1000_1001, 0b0000_1110, 0x10, 0x00]).unwrap();
    assert_eq!(out.as_str(), "bits 16\nmov 16, cx\n");
}

#[test]
fn unrecognized_leading_byte_is_fatal() {
    let r = disassemble(&[0xF4]);
    assert_eq!(r, Err(DecodeError::UnrecognizedOpcode { byte: 0xF4, consumed: 1 }));
}

#[test]
fn unrecognized_leading_byte_halts_decoding() {
    // A valid instruction after the bad byte is never reached.
    let r = disassemble(&[0xF4, 0b1000_1000, 0b1100_0001]);
    assert_eq!(r, Err(DecodeError::UnrecognizedOpcode { byte: 0xF4, consumed: 1 }));
}

#[test]
fn unrecognized_byte_after_valid_instruction() {
    let r = disassemble(&[0b1000_1000, 0b1100_0001, 0xF4]);
    assert_eq!(r, Err(DecodeError::UnrecognizedOpcode { byte: 0xF4, consumed: 3 }));
}

#[test]
fn arithmetic_shape_has_no_rendering() {
    // The arithmetic-class byte shape is classified and its mode/reg/r-m
    // byte consumed, but no mnemonic is defined for it, so decoding stops.
    let r = disassemble(&[0b0000_0001, 0b1101_1001]);
    assert_eq!(r, Err(DecodeError::UnrecognizedOpcode { byte: 0x01, consumed: 2 }));
}

#[test]
fn truncated_mode_reg_rm_byte() {
    let r = disassemble(&[0b1000_1000]);
    assert_eq!(r, Err(DecodeError::TruncatedStream { context: FieldContext::ModRegRmByte }));
}

#[test]
fn truncated_immediate_byte() {
    let r = disassemble(&[0b1011_0001]);
    assert_eq!(r, Err(DecodeError::TruncatedStream { context: FieldContext::ImmediateByte }));
}

#[test]
fn truncated_immediate_high_byte() {
    let r = disassemble(&[0b1011_1000, 0x34]);
    assert_eq!(r, Err(DecodeError::TruncatedStream { context: FieldContext::ImmediateByte }));
}

#[test]
fn truncated_direct_address() {
    let r = disassemble(&[0b1000_1011, 0b0000_0110, 0x34]);
    assert_eq!(r, Err(DecodeError::TruncatedStream { context: FieldContext::DirectAddressByte }));
}

#[test]
fn truncated_displacement_byte() {
    let r = disassemble(&[0b1000_1011, 0b0100_0001]);
    assert_eq!(r, Err(DecodeError::TruncatedStream { context: FieldContext::DisplacementByte }));
}

#[test]
fn truncated_word_displacement() {
    let r = disassemble(&[0b1000_1011, 0b1000_0001, 0x00]);
    assert_eq!(r, Err(DecodeError::TruncatedStream { context: FieldContext::DisplacementByte }));
}

#[test]
fn several_instructions_in_source_order() {
    let bytes = [
        0b1000_1000, 0b1100_0001, // mov cl, al
        0b1011_1000, 0x34, 0x12, // mov ax, 4660
        0b1000_1010, 0b0100_0000, 0x05, // mov al, [bx + si + 5]
    ];
    let out = disassemble(&bytes).unwrap();
    assert_eq!(out.as_str(), "bits 16\nmov cl, al\nmov ax, 4660\nmov al, [bx + si + 5]\n");
}

#[test]
fn decoded_fields_of_register_mov() {
    let v = decode_program(&[0b1000_1000, 0b1100_0001]).unwrap();
    assert_eq!(v, vec![Instruction::RegToReg { d: 0, w: 0, reg: 0, rm: 1 }]);
}

#[test]
fn decoded_fields_of_immediate_mov() {
    let v = decode_program(&[0b1011_1000, 0x34, 0x12]).unwrap();
    assert_eq!(v, vec![Instruction::ImmToReg { w: 1, reg: 0, data: 0x1234 }]);
}

#[test]
fn decoded_fields_of_memory_mov() {
    let v = decode_program(&[0b1000_1010, 0b0100_0000, 0x05]).unwrap();
    assert_eq!(v, vec![Instruction::RegMem { d: 1, w: 0, reg: 0, mode: 1, rm: 0, disp: 5 }]);
}

#[test]
fn decoded_fields_of_direct_address_mov() {
    let v = decode_program(&[0b1000_1011, 0b0000_0110, 0x34, 0x12]).unwrap();
    assert_eq!(v, vec![Instruction::RegDirect { d: 1, w: 1, reg: 0, addr: 0x1234 }]);
}
