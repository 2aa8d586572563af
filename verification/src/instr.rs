//! Instruction data model: opcode families, decoded instructions, decode
//! errors, and the spec-level re-encoding of a decoded instruction back to
//! its exact byte form.
use vstd::prelude::*;

verus! {

/// Mask for the register/memory-to/from-register family.
pub const OP_REG_MEM_MASK: u8 = 0b1111_1100;

/// Pattern for the register/memory-to/from-register family.
pub const OP_REG_MEM_PATTERN: u8 = 0b1000_1000;

/// Mask for the immediate-to-register family.
pub const OP_IMM_REG_MASK: u8 = 0b1111_0000;

/// Pattern for the immediate-to-register family.
pub const OP_IMM_REG_PATTERN: u8 = 0b1011_0000;

/// Mask for the arithmetic-class register/memory byte shape.
pub const OP_ARITH_MASK: u8 = 0b1100_0100;

/// Pattern for the arithmetic-class register/memory byte shape.
pub const OP_ARITH_PATTERN: u8 = 0b0000_0000;

/// The opcode family of a leading byte.  Exactly one family matches a given
/// byte, or none does: the three mask/pattern pairs are mutually exclusive.
#[derive(Clone, Copy, Debug, PartialEq, Eq, Structural)]
pub enum Family {
    /// `mov` between a register and a register or memory operand.
    RegMemToFromReg,
    /// `mov` of an immediate into a register.
    ImmediateToReg,
    /// The generic arithmetic-class byte shape.  Its fields lay out exactly
    /// as in `RegMemToFromReg`, but no mnemonic rendering is defined for it
    /// here, so decoding it ends in an error after its mode/reg/r-m byte.
    GenericArithmeticShape,
}

/// Which field was being read when the byte stream ran out.
#[derive(Clone, Copy, Debug, PartialEq, Eq, Structural)]
pub enum FieldContext {
    /// The mode/reg/r-m byte that follows a register/memory leading byte.
    ModRegRmByte,
    /// A displacement byte of a memory operand.
    DisplacementByte,
    /// A byte of a direct (absolute) 16-bit address.
    DirectAddressByte,
    /// A byte of an immediate operand.
    ImmediateByte,
}

/// A fatal decode error.  Decoding stops at the first error; there is no
/// resynchronization.
#[derive(Clone, Copy, Debug, PartialEq, Eq, Structural)]
pub enum DecodeError {
    /// The leading byte matches no family whose rendering is defined, or the
    /// arithmetic-class shape whose mnemonic is out of scope.  `consumed` is
    /// the total number of bytes consumed when the error was raised.
    UnrecognizedOpcode { byte: u8, consumed: usize },
    /// The stream ended while `context` was being read.
    TruncatedStream { context: FieldContext },
}

/// One decoded instruction, holding every field that its exact byte encoding
/// depends on: the direction bit, width bit, and addressing mode are kept so
/// that `encode_instruction` reproduces the input bytes bit for bit.
#[derive(Clone, Copy, Debug, PartialEq, Eq, Structural)]
pub enum Instruction {
    /// Register-to-register `mov` (addressing mode 3).
    RegToReg { d: u8, w: u8, reg: u8, rm: u8 },
    /// `mov` between a register and a memory operand with a base-register
    /// expression (addressing modes 0, 1 and 2, except the direct-address
    /// case).  `disp` holds the displacement's raw bits: 0 for mode 0, one
    /// byte for mode 1 (a signed byte, interpreted at rendering), two
    /// little-endian bytes for mode 2.
    RegMem { d: u8, w: u8, reg: u8, mode: u8, rm: u8, disp: u16 },
    /// `mov` between a register and a direct (absolute) address
    /// (addressing mode 0 with r/m pattern 110).
    RegDirect { d: u8, w: u8, reg: u8, addr: u16 },
    /// `mov` of an immediate into a register.
    ImmToReg { w: u8, reg: u8, data: u16 },
}

/// Ordered classification of a leading byte: the first matching mask/pattern
/// pair wins, and a byte matching none is rejected.
pub open spec fn spec_classify(b: u8) -> Option<Family> {
    if b & OP_REG_MEM_MASK == OP_REG_MEM_PATTERN {
        Some(Family::RegMemToFromReg)
    } else if b & OP_IMM_REG_MASK == OP_IMM_REG_PATTERN {
        Some(Family::ImmediateToReg)
    } else if b & OP_ARITH_MASK == OP_ARITH_PATTERN {
        Some(Family::GenericArithmeticShape)
    } else {
        None
    }
}

/// Classify a leading byte into its opcode family.
pub fn classify(b: u8) -> (r: Option<Family>)
    ensures
        r == spec_classify(b),
{
    if b & OP_REG_MEM_MASK == OP_REG_MEM_PATTERN {
        Some(Family::RegMemToFromReg)
    } else if b & OP_IMM_REG_MASK == OP_IMM_REG_PATTERN {
        Some(Family::ImmediateToReg)
    } else if b & OP_ARITH_MASK == OP_ARITH_PATTERN {
        Some(Family::GenericArithmeticShape)
    } else {
        None
    }
}

/// Structural validity of a decoded instruction: every field fits its bit
/// width, the addressing mode is one the variant can carry, and the
/// displacement fits the byte count its mode consumes.
pub open spec fn wf_instruction(i: Instruction) -> bool {
    match i {
        Instruction::RegToReg { d, w, reg, rm } => d < 2 && w < 2 && reg < 8 && rm < 8,
        Instruction::RegMem { d, w, reg, mode, rm, disp } => d < 2 && w < 2 && reg < 8 && rm < 8
            && ((mode == 0 && rm != 6 && disp == 0) || (mode == 1 && disp < 256) || mode == 2),
        Instruction::RegDirect { d, w, reg, addr } => d < 2 && w < 2 && reg < 8,
        Instruction::ImmToReg { w, reg, data } => w < 2 && reg < 8 && (w == 0 ==> data < 256),
    }
}

/// A 16-bit value from its little-endian byte pair.
pub open spec fn le16(lo: u8, hi: u8) -> u16 {
    (lo as u16) | ((hi as u16) << 8)
}

/// The exact bytes a decoded instruction came from.  Decoding is the inverse
/// of this function on every stream it accepts.
pub open spec fn encode_instruction(i: Instruction) -> Seq<u8> {
    match i {
        Instruction::RegToReg { d, w, reg, rm } => seq![
            (OP_REG_MEM_PATTERN | (d << 1)) | w,
            ((3u8 << 6) | (reg << 3)) | rm,
        ],
        Instruction::RegMem { d, w, reg, mode, rm, disp } => {
            let head = seq![(OP_REG_MEM_PATTERN | (d << 1)) | w, ((mode << 6) | (reg << 3)) | rm];
            if mode == 0 {
                head
            } else if mode == 1 {
                head + seq![disp as u8]
            } else {
                head + seq![disp as u8, (disp >> 8) as u8]
            }
        },
        Instruction::RegDirect { d, w, reg, addr } => seq![
            (OP_REG_MEM_PATTERN | (d << 1)) | w,
            (reg << 3) | 6,
            addr as u8,
            (addr >> 8) as u8,
        ],
        Instruction::ImmToReg { w, reg, data } => {
            let head = seq![(OP_IMM_REG_PATTERN | (w << 3)) | reg, data as u8];
            if w == 0 {
                head
            } else {
                head + seq![(data >> 8) as u8]
            }
        },
    }
}

/// The byte stream that a sequence of decoded instructions came from: the
/// concatenation of each instruction's encoding, in order.
pub open spec fn encode_program(instrs: Seq<Instruction>) -> Seq<u8>
    decreases instrs.len(),
{
    if instrs.len() == 0 {
        Seq::empty()
    } else {
        encode_instruction(instrs[0]) + encode_program(instrs.drop_first())
    }
}

} // verus!
