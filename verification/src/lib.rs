//! A disassembler for the 16-bit move-family machine code of the classic
//! 8086 encoding: raw bytes in, assembler-syntax text out, with the decoded
//! form provably re-encoding to the original bytes.
use vstd::prelude::*;

pub mod decode;
pub mod instr;
pub mod render;

use crate::decode::decode_program;
use crate::decode::lemma_round_trip;
use crate::decode::spec_decode_program;
use crate::instr::DecodeError;
use crate::render::render_program;
use crate::render::spec_listing;

verus! {

/// Disassemble a raw instruction stream into its full textual listing: the
/// 16-bit width header line, then one `mov` line per instruction.  The text
/// is exactly the rendering of the spec-level decode, and decoding fails
/// with exactly the spec-level error; re-assembling the decoded instructions
/// yields the input bytes again (`decode::lemma_round_trip`).
pub fn disassemble(bytes: &[u8]) -> (r: Result<String, DecodeError>)
    ensures
        match spec_decode_program(bytes@, 0) {
            Ok(instrs) => r is Ok && r->Ok_0@ == spec_listing(instrs),
            Err(e) => r == Err::<String, DecodeError>(e),
        },
{
    match decode_program(bytes) {
        Ok(instrs) => {
            proof {
                lemma_round_trip(bytes@, instrs@);
            }
            Ok(render_program(&instrs))
        },
        Err(e) => Err(e),
    }
}

} // verus!
