//! The decode engine: a spec-level decoder that pins down, byte for byte,
//! what every input stream decodes to, a verified executable decoder proved
//! equal to it, and the round-trip law that re-encoding the decoded
//! instructions reproduces the input exactly.
use vstd::prelude::*;

use crate::instr::DecodeError;
use crate::instr::Family;
use crate::instr::FieldContext;
use crate::instr::Instruction;
use crate::instr::OP_IMM_REG_MASK;
use crate::instr::OP_IMM_REG_PATTERN;
use crate::instr::OP_REG_MEM_MASK;
use crate::instr::OP_REG_MEM_PATTERN;
use crate::instr::classify;
use crate::instr::encode_instruction;
use crate::instr::encode_program;
use crate::instr::le16;
use crate::instr::spec_classify;
use crate::instr::wf_instruction;

verus! {

/// What decoding one instruction at position `pos` yields: the instruction
/// and the position just past its last byte, or the error that stops the
/// run.  The number of bytes consumed is a function of the leading byte's
/// family, width and addressing mode alone.
pub open spec fn spec_decode_instruction(bytes: Seq<u8>, pos: int) -> Result<
    (Instruction, int),
    DecodeError,
>
    recommends
        0 <= pos < bytes.len(),
{
    let b1 = bytes[pos];
    match spec_classify(b1) {
        None => Err(DecodeError::UnrecognizedOpcode { byte: b1, consumed: (pos + 1) as usize }),
        Some(Family::ImmediateToReg) => {
            let w = (b1 & 0b1000) >> 3;
            let reg = b1 & 0b111;
            if w == 0 {
                if bytes.len() - pos < 2 {
                    Err(DecodeError::TruncatedStream { context: FieldContext::ImmediateByte })
                } else {
                    Ok(
                        (
                            Instruction::ImmToReg { w, reg, data: bytes[pos + 1] as u16 },
                            pos + 2,
                        ),
                    )
                }
            } else {
                if bytes.len() - pos < 3 {
                    Err(DecodeError::TruncatedStream { context: FieldContext::ImmediateByte })
                } else {
                    Ok(
                        (
                            Instruction::ImmToReg {
                                w,
                                reg,
                                data: le16(bytes[pos + 1], bytes[pos + 2]),
                            },
                            pos + 3,
                        ),
                    )
                }
            }
        },
        Some(fam) => {
            if bytes.len() - pos < 2 {
                Err(DecodeError::TruncatedStream { context: FieldContext::ModRegRmByte })
            } else if fam is GenericArithmeticShape {
                Err(DecodeError::UnrecognizedOpcode { byte: b1, consumed: (pos + 2) as usize })
            } else {
                let b2 = bytes[pos + 1];
                let d = (b1 & 0b10) >> 1;
                let w = b1 & 0b1;
                let mode = (b2 & 0b1100_0000) >> 6;
                let reg = (b2 & 0b0011_1000) >> 3;
                let rm = b2 & 0b111;
                if mode == 3 {
                    Ok((Instruction::RegToReg { d, w, reg, rm }, pos + 2))
                } else if mode == 0 && rm == 6 {
                    if bytes.len() - pos < 4 {
                        Err(
                            DecodeError::TruncatedStream {
                                context: FieldContext::DirectAddressByte,
                            },
                        )
                    } else {
                        Ok(
                            (
                                Instruction::RegDirect {
                                    d,
                                    w,
                                    reg,
                                    addr: le16(bytes[pos + 2], bytes[pos + 3]),
                                },
                                pos + 4,
                            ),
                        )
                    }
                } else if mode == 0 {
                    Ok((Instruction::RegMem { d, w, reg, mode, rm, disp: 0 }, pos + 2))
                } else if mode == 1 {
                    if bytes.len() - pos < 3 {
                        Err(
                            DecodeError::TruncatedStream {
                                context: FieldContext::DisplacementByte,
                            },
                        )
                    } else {
                        Ok(
                            (
                                Instruction::RegMem {
                                    d,
                                    w,
                                    reg,
                                    mode,
                                    rm,
                                    disp: bytes[pos + 2] as u16,
                                },
                                pos + 3,
                            ),
                        )
                    }
                } else {
                    if bytes.len() - pos < 4 {
                        Err(
                            DecodeError::TruncatedStream {
                                context: FieldContext::DisplacementByte,
                            },
                        )
                    } else {
                        Ok(
                            (
                                Instruction::RegMem {
                                    d,
                                    w,
                                    reg,
                                    mode,
                                    rm,
                                    disp: le16(bytes[pos + 2], bytes[pos + 3]),
                                },
                                pos + 4,
                            ),
                        )
                    }
                }
            }
        },
    }
}

/// On success, decoding one instruction moves the position strictly forward
/// and never past the end of the stream.
pub proof fn lemma_decode_instruction_bounds(bytes: Seq<u8>, pos: int)
    requires
        0 <= pos < bytes.len(),
        spec_decode_instruction(bytes, pos) is Ok,
    ensures
        pos < spec_decode_instruction(bytes, pos)->Ok_0.1 <= bytes.len(),
{
}

/// What decoding the whole remainder of the stream from `pos` yields: the
/// instructions in source order, or the first error.
pub open spec fn spec_decode_program(bytes: Seq<u8>, pos: int) -> Result<
    Seq<Instruction>,
    DecodeError,
>
    decreases bytes.len() - pos,
        when 0 <= pos <= bytes.len()
        via spec_decode_program_decreases
{
    if pos >= bytes.len() {
        Ok(Seq::empty())
    } else {
        match spec_decode_instruction(bytes, pos) {
            Err(e) => Err(e),
            Ok((i, p2)) => match spec_decode_program(bytes, p2) {
                Err(e) => Err(e),
                Ok(rest) => Ok(seq![i] + rest),
            },
        }
    }
}

#[via_fn]
proof fn spec_decode_program_decreases(bytes: Seq<u8>, pos: int) {
    if pos < bytes.len() && spec_decode_instruction(bytes, pos) is Ok {
        lemma_decode_instruction_bounds(bytes, pos);
    }
}

/// Decode one instruction starting at `pos`.
pub fn decode_instruction(bytes: &[u8], pos: usize) -> (r: Result<(Instruction, usize), DecodeError>)
    requires
        pos < bytes@.len(),
    ensures
        match r {
            Ok((i, p2)) => spec_decode_instruction(bytes@, pos as int) == Ok::<
                (Instruction, int),
                DecodeError,
            >((i, p2 as int)) && pos < p2 <= bytes@.len(),
            Err(e) => spec_decode_instruction(bytes@, pos as int) == Err::<
                (Instruction, int),
                DecodeError,
            >(e),
        },
{
    let n = bytes.len();
    let b1 = bytes[pos];
    match classify(b1) {
        None => Err(DecodeError::UnrecognizedOpcode { byte: b1, consumed: pos + 1 }),
        Some(Family::ImmediateToReg) => {
            let w = (b1 & 0b1000) >> 3;
            let reg = b1 & 0b111;
            if w == 0 {
                if n - pos < 2 {
                    Err(DecodeError::TruncatedStream { context: FieldContext::ImmediateByte })
                } else {
                    let data = bytes[pos + 1] as u16;
                    Ok((Instruction::ImmToReg { w, reg, data }, pos + 2))
                }
            } else {
                if n - pos < 3 {
                    Err(DecodeError::TruncatedStream { context: FieldContext::ImmediateByte })
                } else {
                    let data = (bytes[pos + 1] as u16) | ((bytes[pos + 2] as u16) << 8);
                    Ok((Instruction::ImmToReg { w, reg, data }, pos + 3))
                }
            }
        },
        Some(fam) => {
            if n - pos < 2 {
                Err(DecodeError::TruncatedStream { context: FieldContext::ModRegRmByte })
            } else if matches!(fam, Family::GenericArithmeticShape) {
                Err(DecodeError::UnrecognizedOpcode { byte: b1, consumed: pos + 2 })
            } else {
                let b2 = bytes[pos + 1];
                let d = (b1 & 0b10) >> 1;
                let w = b1 & 0b1;
                let mode = (b2 & 0b1100_0000) >> 6;
                let reg = (b2 & 0b0011_1000) >> 3;
                let rm = b2 & 0b111;
                if mode == 3 {
                    Ok((Instruction::RegToReg { d, w, reg, rm }, pos + 2))
                } else if mode == 0 && rm == 6 {
                    if n - pos < 4 {
                        Err(
                            DecodeError::TruncatedStream {
                                context: FieldContext::DirectAddressByte,
                            },
                        )
                    } else {
                        let addr = (bytes[pos + 2] as u16) | ((bytes[pos + 3] as u16) << 8);
                        Ok((Instruction::RegDirect { d, w, reg, addr }, pos + 4))
                    }
                } else if mode == 0 {
                    Ok((Instruction::RegMem { d, w, reg, mode, rm, disp: 0 }, pos + 2))
                } else if mode == 1 {
                    if n - pos < 3 {
                        Err(
                            DecodeError::TruncatedStream {
                                context: FieldContext::DisplacementByte,
                            },
                        )
                    } else {
                        let disp = bytes[pos + 2] as u16;
                        Ok((Instruction::RegMem { d, w, reg, mode, rm, disp }, pos + 3))
                    }
                } else {
                    if n - pos < 4 {
                        Err(
                            DecodeError::TruncatedStream {
                                context: FieldContext::DisplacementByte,
                            },
                        )
                    } else {
                        let disp = (bytes[pos + 2] as u16) | ((bytes[pos + 3] as u16) << 8);
                        Ok((Instruction::RegMem { d, w, reg, mode, rm, disp }, pos + 4))
                    }
                }
            }
        },
    }
}

/// Decode a whole byte stream into its instructions, in source order.
/// Success is owed exactly when the spec-level decoder accepts the stream,
/// and on failure the error is exactly the spec-level one.
pub fn decode_program(bytes: &[u8]) -> (r: Result<Vec<Instruction>, DecodeError>)
    ensures
        match r {
            Ok(v) => spec_decode_program(bytes@, 0) == Ok::<Seq<Instruction>, DecodeError>(v@),
            Err(e) => spec_decode_program(bytes@, 0) == Err::<Seq<Instruction>, DecodeError>(e),
        },
{
    let mut v: Vec<Instruction> = Vec::new();
    let mut pos: usize = 0;
    while pos < bytes.len()
        invariant
            pos <= bytes@.len(),
            match spec_decode_program(bytes@, pos as int) {
                Ok(rest) => spec_decode_program(bytes@, 0) == Ok::<Seq<Instruction>, DecodeError>(
                    v@ + rest,
                ),
                Err(e) => spec_decode_program(bytes@, 0) == Err::<Seq<Instruction>, DecodeError>(e),
            },
        decreases bytes@.len() - pos,
    {
        match decode_instruction(bytes, pos) {
            Err(e) => {
                return Err(e);
            },
            Ok((i, p2)) => {
                let ghost prev = v@;
                v.push(i);
                pos = p2;
                proof {
                    assert(v@ =~= prev + seq![i]);
                    match spec_decode_program(bytes@, pos as int) {
                        Ok(rest) => {
                            assert(prev + (seq![i] + rest) =~= v@ + rest);
                        },
                        Err(_) => {},
                    }
                }
            },
        }
    }
    proof {
        assert(v@ + Seq::<Instruction>::empty() =~= v@);
    }
    Ok(v)
}

/// On success, one decoded instruction is well formed and its re-encoding is
/// exactly the bytes it was decoded from.
pub proof fn lemma_decode_instruction_encodes(bytes: Seq<u8>, pos: int)
    requires
        0 <= pos < bytes.len(),
        spec_decode_instruction(bytes, pos) is Ok,
    ensures
        ({
            let (i, p2) = spec_decode_instruction(bytes, pos)->Ok_0;
            wf_instruction(i) && encode_instruction(i) == bytes.subrange(pos, p2)
        }),
{
    let b1 = bytes[pos];
    let (i, p2) = spec_decode_instruction(bytes, pos)->Ok_0;
    if b1 & OP_REG_MEM_MASK == OP_REG_MEM_PATTERN {
        let b2 = bytes[pos + 1];
        let d = (b1 & 0b10) >> 1;
        let w = b1 & 0b1;
        let mode = (b2 & 0b1100_0000) >> 6;
        let reg = (b2 & 0b0011_1000) >> 3;
        let rm = b2 & 0b111;
        assert(b1 & 0b1111_1100 == 0b1000_1000 ==> ((0b1000_1000u8 | (((b1 & 0b10) >> 1) << 1))
            | (b1 & 0b1)) == b1) by (bit_vector);
        assert(((b1 & 0b10) >> 1) < 2 && (b1 & 0b1) < 2 && ((b2 & 0b1100_0000) >> 6) < 4 && ((b2
            & 0b0011_1000) >> 3) < 8 && (b2 & 0b111) < 8) by (bit_vector);
        assert(((((b2 & 0b1100_0000) >> 6) << 6) | (((b2 & 0b0011_1000) >> 3) << 3)) | (b2 & 0b111)
            == b2) by (bit_vector);
        if mode == 3 {
            assert(encode_instruction(i) =~= bytes.subrange(pos, p2));
        } else if mode == 0 && rm == 6 {
            let lo = bytes[pos + 2];
            let hi = bytes[pos + 3];
            assert(le16(lo, hi) as u8 == lo) by (bit_vector);
            assert((le16(lo, hi) >> 8) as u8 == hi) by (bit_vector);
            assert((b2 & 0b1100_0000) >> 6 == 0 && b2 & 0b111 == 6 ==> ((((b2 & 0b0011_1000) >> 3)
                << 3) | 6) == b2) by (bit_vector);
            assert(encode_instruction(i) =~= bytes.subrange(pos, p2));
        } else if mode == 0 {
            assert(encode_instruction(i) =~= bytes.subrange(pos, p2));
        } else if mode == 1 {
            let b3 = bytes[pos + 2];
            assert((b3 as u16) as u8 == b3) by (bit_vector);
            assert((b3 as u16) < 256) by (bit_vector);
            assert(encode_instruction(i) =~= bytes.subrange(pos, p2));
        } else {
            let lo = bytes[pos + 2];
            let hi = bytes[pos + 3];
            assert(le16(lo, hi) as u8 == lo) by (bit_vector);
            assert((le16(lo, hi) >> 8) as u8 == hi) by (bit_vector);
            assert(encode_instruction(i) =~= bytes.subrange(pos, p2));
        }
    } else {
        // The immediate-to-register family: the only remaining one whose
        // decode can succeed.
        assert(b1 & OP_IMM_REG_MASK == OP_IMM_REG_PATTERN);
        let w = (b1 & 0b1000) >> 3;
        let reg = b1 & 0b111;
        assert(b1 & 0b1111_0000 == 0b1011_0000 ==> ((0b1011_0000u8 | (((b1 & 0b1000) >> 3) << 3))
            | (b1 & 0b111)) == b1) by (bit_vector);
        assert(((b1 & 0b1000) >> 3) < 2 && (b1 & 0b111) < 8) by (bit_vector);
        if w == 0 {
            let lo = bytes[pos + 1];
            assert((lo as u16) as u8 == lo) by (bit_vector);
            assert((lo as u16) < 256) by (bit_vector);
            assert(encode_instruction(i) =~= bytes.subrange(pos, p2));
        } else {
            let lo = bytes[pos + 1];
            let hi = bytes[pos + 2];
            assert(le16(lo, hi) as u8 == lo) by (bit_vector);
            assert((le16(lo, hi) >> 8) as u8 == hi) by (bit_vector);
            assert(encode_instruction(i) =~= bytes.subrange(pos, p2));
        }
    }
}

proof fn lemma_round_trip_from(bytes: Seq<u8>, pos: int, instrs: Seq<Instruction>)
    requires
        0 <= pos <= bytes.len(),
        spec_decode_program(bytes, pos) == Ok::<Seq<Instruction>, DecodeError>(instrs),
    ensures
        encode_program(instrs) == bytes.subrange(pos, bytes.len() as int),
        forall|k: int| 0 <= k < instrs.len() ==> wf_instruction(#[trigger] instrs[k]),
    decreases bytes.len() - pos,
{
    if pos >= bytes.len() {
        assert(bytes.subrange(pos, bytes.len() as int) =~= Seq::<u8>::empty());
    } else {
        let (i, p2) = spec_decode_instruction(bytes, pos)->Ok_0;
        let rest = spec_decode_program(bytes, p2)->Ok_0;
        lemma_decode_instruction_bounds(bytes, pos);
        lemma_decode_instruction_encodes(bytes, pos);
        lemma_round_trip_from(bytes, p2, rest);
        assert(instrs == seq![i] + rest);
        assert(instrs.drop_first() =~= rest);
        assert(instrs[0] == i);
        assert(encode_program(instrs) == encode_instruction(i) + encode_program(rest));
        assert(bytes.subrange(pos, p2) + bytes.subrange(p2, bytes.len() as int) =~= bytes.subrange(
            pos,
            bytes.len() as int,
        ));
    }
}

/// Law: round trip.  Whenever a byte stream decodes without error, the
/// concatenated re-encodings of the decoded instructions are exactly the
/// input bytes, and every decoded instruction is well formed.
pub proof fn lemma_round_trip(bytes: Seq<u8>, instrs: Seq<Instruction>)
    requires
        spec_decode_program(bytes, 0) == Ok::<Seq<Instruction>, DecodeError>(instrs),
    ensures
        encode_program(instrs) == bytes,
        forall|k: int| 0 <= k < instrs.len() ==> wf_instruction(#[trigger] instrs[k]),
{
    lemma_round_trip_from(bytes, 0, instrs);
    assert(bytes.subrange(0, bytes.len() as int) =~= bytes);
}

/// Law: a leading byte that matches no family stops the whole run with
/// `UnrecognizedOpcode`, reporting that byte and the count of bytes consumed
/// up to and including it.
pub proof fn lemma_unrecognized_opcode_halts(bytes: Seq<u8>, pos: usize)
    requires
        pos < bytes.len(),
        spec_classify(bytes[pos as int]) is None,
    ensures
        spec_decode_program(bytes, pos as int) == Err::<Seq<Instruction>, DecodeError>(
            (DecodeError::UnrecognizedOpcode { byte: bytes[pos as int], consumed: (pos + 1) as usize }),
        ),
{
}

} // verus!
