//! Rendering decoded instructions as assembler-syntax text: the register
//! name table, decimal literals, effective-address expressions (with
//! zero-displacement suppression and the direct-address special case), and
//! the final `mov <destination>, <source>` line shape.
use vstd::prelude::*;

use crate::instr::DecodeError;
use crate::instr::FieldContext;
use crate::instr::Instruction;
use crate::instr::le16;
use crate::instr::wf_instruction;

verus! {

/// The canonical register name for a 3-bit register field and a width flag:
/// the eight byte registers for width 0, the eight word registers for
/// width 1.
pub open spec fn spec_register_name(reg: u8, w: u8) -> Seq<char> {
    if w == 0 {
        if reg == 0 {
            "al"@
        } else if reg == 1 {
            "cl"@
        } else if reg == 2 {
            "dl"@
        } else if reg == 3 {
            "bl"@
        } else if reg == 4 {
            "ah"@
        } else if reg == 5 {
            "ch"@
        } else if reg == 6 {
            "dh"@
        } else {
            "bh"@
        }
    } else {
        if reg == 0 {
            "ax"@
        } else if reg == 1 {
            "cx"@
        } else if reg == 2 {
            "dx"@
        } else if reg == 3 {
            "bx"@
        } else if reg == 4 {
            "sp"@
        } else if reg == 5 {
            "bp"@
        } else if reg == 6 {
            "si"@
        } else {
            "di"@
        }
    }
}

/// Look up the register name for a register field and width flag.
pub fn register_field_encoding(reg: u8, w: u8) -> (r: &'static str)
    requires
        reg < 8,
        w < 2,
    ensures
        r@ == spec_register_name(reg, w),
{
    match (reg, w) {
        (0, 0) => "al",
        (0, _) => "ax",
        (1, 0) => "cl",
        (1, _) => "cx",
        (2, 0) => "dl",
        (2, _) => "dx",
        (3, 0) => "bl",
        (3, _) => "bx",
        (4, 0) => "ah",
        (4, _) => "sp",
        (5, 0) => "ch",
        (5, _) => "bp",
        (6, 0) => "dh",
        (6, _) => "si",
        (_, 0) => "bh",
        (_, _) => "di",
    }
}

/// The fixed base-register expression an r/m field selects inside a memory
/// operand.
pub open spec fn spec_ea_base(rm: u8) -> Seq<char> {
    if rm == 0 {
        "bx + si"@
    } else if rm == 1 {
        "bx + di"@
    } else if rm == 2 {
        "bp + si"@
    } else if rm == 3 {
        "bp + di"@
    } else if rm == 4 {
        "si"@
    } else if rm == 5 {
        "di"@
    } else if rm == 6 {
        "bp"@
    } else {
        "bx"@
    }
}

fn ea_base_str(rm: u8) -> (r: &'static str)
    requires
        rm < 8,
    ensures
        r@ == spec_ea_base(rm),
{
    match rm {
        0 => "bx + si",
        1 => "bx + di",
        2 => "bp + si",
        3 => "bp + di",
        4 => "si",
        5 => "di",
        6 => "bp",
        _ => "bx",
    }
}

/// The single character of a decimal digit.
pub open spec fn spec_digit(d: nat) -> Seq<char> {
    if d == 0 {
        "0"@
    } else if d == 1 {
        "1"@
    } else if d == 2 {
        "2"@
    } else if d == 3 {
        "3"@
    } else if d == 4 {
        "4"@
    } else if d == 5 {
        "5"@
    } else if d == 6 {
        "6"@
    } else if d == 7 {
        "7"@
    } else if d == 8 {
        "8"@
    } else {
        "9"@
    }
}

/// The decimal rendering of a number: its digits in order, with no sign and
/// no leading zeros (except the single digit of zero itself).
pub open spec fn spec_dec(n: nat) -> Seq<char>
    decreases n,
{
    if n < 10 {
        spec_digit(n)
    } else {
        spec_dec(n / 10) + spec_digit(n % 10)
    }
}

fn digit_str(d: u16) -> (r: &'static str)
    requires
        d < 10,
    ensures
        r@ == spec_digit(d as nat),
{
    match d {
        0 => "0",
        1 => "1",
        2 => "2",
        3 => "3",
        4 => "4",
        5 => "5",
        6 => "6",
        7 => "7",
        8 => "8",
        _ => "9",
    }
}

/// Render a number as an unsigned decimal literal.
pub fn u16_to_decimal(n: u16) -> (s: String)
    ensures
        s@ == spec_dec(n as nat),
    decreases n,
{
    if n < 10 {
        String::from_str(digit_str(n))
    } else {
        let s = u16_to_decimal(n / 10);
        s.concat(digit_str(n % 10))
    }
}

/// The arithmetic value of a displacement's raw bits.  An 8-bit
/// displacement (mode 1) is a signed byte, so its high half maps below
/// zero; a 16-bit displacement (mode 2) is taken as its unsigned bits,
/// which re-encode identically either way.
pub open spec fn spec_disp_value(mode: u8, disp: u16) -> int {
    if mode == 1 && disp >= 128 {
        disp - 256
    } else {
        disp as int
    }
}

/// The bracketed memory-operand expression for an r/m field, addressing
/// mode and raw displacement bits: the base-register expression, and the
/// displacement value with its sign only when it is not zero.
pub open spec fn spec_memory_operand(rm: u8, mode: u8, disp: u16) -> Seq<char> {
    let v = spec_disp_value(mode, disp);
    if v == 0 {
        "["@ + spec_ea_base(rm) + "]"@
    } else if v > 0 {
        "["@ + spec_ea_base(rm) + " + "@ + spec_dec(v as nat) + "]"@
    } else {
        "["@ + spec_ea_base(rm) + " - "@ + spec_dec((-v) as nat) + "]"@
    }
}

/// Render a bracketed memory operand from its raw displacement bits.
pub fn memory_operand_string(rm: u8, mode: u8, disp: u16) -> (s: String)
    requires
        rm < 8,
        mode == 1 ==> disp < 256,
    ensures
        s@ == spec_memory_operand(rm, mode, disp),
{
    let mut s = String::from_str("[");
    s.append(ea_base_str(rm));
    if mode == 1 && disp >= 128 {
        s.append(" - ");
        let d = u16_to_decimal(256 - disp);
        s.append(d.as_str());
    } else if disp != 0 {
        s.append(" + ");
        let d = u16_to_decimal(disp);
        s.append(d.as_str());
    }
    s.append("]");
    proof {
        assert(s@ =~= spec_memory_operand(rm, mode, disp));
    }
    s
}

/// One rendered instruction, without its line break.  The direction bit
/// picks the operand order: set means the register named by `reg` is the
/// destination, clear means it is the source.
pub open spec fn spec_render_instruction(i: Instruction) -> Seq<char> {
    match i {
        Instruction::RegToReg { d, w, reg, rm } => {
            let rname = spec_register_name(reg, w);
            let rmname = spec_register_name(rm, w);
            if d == 0 {
                "mov "@ + rmname + ", "@ + rname
            } else {
                "mov "@ + rname + ", "@ + rmname
            }
        },
        Instruction::RegMem { d, w, reg, mode, rm, disp } => {
            let rname = spec_register_name(reg, w);
            let mtext = spec_memory_operand(rm, mode, disp);
            if d == 0 {
                "mov "@ + mtext + ", "@ + rname
            } else {
                "mov "@ + rname + ", "@ + mtext
            }
        },
        Instruction::RegDirect { d, w, reg, addr } => {
            let rname = spec_register_name(reg, w);
            let atext = spec_dec(addr as nat);
            if d == 0 {
                "mov "@ + atext + ", "@ + rname
            } else {
                "mov "@ + rname + ", "@ + atext
            }
        },
        Instruction::ImmToReg { w, reg, data } => "mov "@ + spec_register_name(reg, w) + ", "@
            + spec_dec(data as nat),
    }
}

/// Render one instruction as its assembly text line, without a line break.
pub fn render_instruction(i: &Instruction) -> (s: String)
    requires
        wf_instruction(*i),
    ensures
        s@ == spec_render_instruction(*i),
{
    match i {
        Instruction::RegToReg { d, w, reg, rm } => {
            let rname = register_field_encoding(*reg, *w);
            let rmname = register_field_encoding(*rm, *w);
            let mut s = String::from_str("mov ");
            if *d == 0 {
                s.append(rmname);
                s.append(", ");
                s.append(rname);
            } else {
                s.append(rname);
                s.append(", ");
                s.append(rmname);
            }
            s
        },
        Instruction::RegMem { d, w, reg, mode, rm, disp } => {
            let rname = register_field_encoding(*reg, *w);
            let mtext = memory_operand_string(*rm, *mode, *disp);
            let mut s = String::from_str("mov ");
            if *d == 0 {
                s.append(mtext.as_str());
                s.append(", ");
                s.append(rname);
            } else {
                s.append(rname);
                s.append(", ");
                s.append(mtext.as_str());
            }
            s
        },
        Instruction::RegDirect { d, w, reg, addr } => {
            let rname = register_field_encoding(*reg, *w);
            let atext = u16_to_decimal(*addr);
            let mut s = String::from_str("mov ");
            if *d == 0 {
                s.append(atext.as_str());
                s.append(", ");
                s.append(rname);
            } else {
                s.append(rname);
                s.append(", ");
                s.append(atext.as_str());
            }
            s
        },
        Instruction::ImmToReg { w, reg, data } => {
            let rname = register_field_encoding(*reg, *w);
            let dtext = u16_to_decimal(*data);
            let mut s = String::from_str("mov ");
            s.append(rname);
            s.append(", ");
            s.append(dtext.as_str());
            s
        },
    }
}

/// The rendered lines of a sequence of instructions, each ended by a line
/// break.
pub open spec fn spec_render_lines(instrs: Seq<Instruction>) -> Seq<char>
    decreases instrs.len(),
{
    if instrs.len() == 0 {
        Seq::empty()
    } else {
        spec_render_instruction(instrs[0]) + "\n"@ + spec_render_lines(instrs.drop_first())
    }
}

/// The full output text for a decoded program: the fixed header line that
/// declares 16-bit instruction width, then one line per instruction, in
/// source order.
pub open spec fn spec_listing(instrs: Seq<Instruction>) -> Seq<char> {
    "bits 16\n"@ + spec_render_lines(instrs)
}

/// Render a whole decoded program, header line included.
pub fn render_program(instrs: &Vec<Instruction>) -> (s: String)
    requires
        forall|k: int| 0 <= k < instrs@.len() ==> wf_instruction(#[trigger] instrs@[k]),
    ensures
        s@ == spec_listing(instrs@),
{
    let mut s = String::from_str("bits 16\n");
    let mut k: usize = 0;
    proof {
        assert(instrs@.skip(0) =~= instrs@);
    }
    while k < instrs.len()
        invariant
            k <= instrs@.len(),
            forall|j: int| 0 <= j < instrs@.len() ==> wf_instruction(#[trigger] instrs@[j]),
            s@ + spec_render_lines(instrs@.skip(k as int)) == spec_listing(instrs@),
        decreases instrs@.len() - k,
    {
        let line = render_instruction(&instrs[k]);
        s.append(line.as_str());
        s.append("\n");
        proof {
            let tail = instrs@.skip(k as int);
            assert(tail[0] == instrs@[k as int]);
            assert(tail.drop_first() =~= instrs@.skip(k as int + 1));
            assert(s@ + spec_render_lines(instrs@.skip(k as int + 1)) == spec_listing(instrs@));
        }
        k = k + 1;
    }
    proof {
        assert(spec_render_lines(instrs@.skip(instrs@.len() as int)) =~= Seq::<char>::empty());
        assert(s@ + Seq::<char>::empty() =~= s@);
    }
    s
}

/// How many extra bytes a memory operand consumes after the mode/reg/r-m
/// byte: two for a direct address or a 16-bit displacement, one for an 8-bit
/// displacement, none otherwise.
pub open spec fn spec_ea_len(rm: u8, mode: u8) -> int {
    if mode == 0 {
        if rm == 6 {
            2
        } else {
            0
        }
    } else if mode == 1 {
        1
    } else {
        2
    }
}

/// The displacement or direct address a memory operand reads at `pos`.
pub open spec fn spec_ea_disp(bytes: Seq<u8>, pos: int, rm: u8, mode: u8) -> u16 {
    if mode == 0 {
        if rm == 6 {
            le16(bytes[pos], bytes[pos + 1])
        } else {
            0
        }
    } else if mode == 1 {
        bytes[pos] as u16
    } else {
        le16(bytes[pos], bytes[pos + 1])
    }
}

/// The rendered text of a memory operand: a bare decimal address for the
/// direct-address case, a bracketed base-register expression otherwise.
pub open spec fn spec_ea_text(rm: u8, mode: u8, disp: u16) -> Seq<char> {
    if mode == 0 && rm == 6 {
        spec_dec(disp as nat)
    } else {
        spec_memory_operand(rm, mode, disp)
    }
}

/// The field being read when a memory operand runs off the end of the
/// stream.
pub open spec fn spec_ea_context(rm: u8, mode: u8) -> FieldContext {
    if mode == 0 && rm == 6 {
        FieldContext::DirectAddressByte
    } else {
        FieldContext::DisplacementByte
    }
}

/// Resolve and render a memory operand from its r/m field and addressing
/// mode, consuming its displacement or direct-address bytes from `pos`.
/// Mode 3 is register-direct and is no memory operand, so it is excluded.
pub fn effective_address_calculation(rm: u8, mode: u8, bytes: &[u8], pos: usize) -> (r: Result<
    (String, usize),
    DecodeError,
>)
    requires
        rm < 8,
        mode < 3,
        pos <= bytes@.len(),
    ensures
        match r {
            Ok((s, p2)) => bytes@.len() - pos >= spec_ea_len(rm, mode) && p2 == pos + spec_ea_len(
                rm,
                mode,
            ) && s@ == spec_ea_text(rm, mode, spec_ea_disp(bytes@, pos as int, rm, mode)),
            Err(e) => bytes@.len() - pos < spec_ea_len(rm, mode) && e == (DecodeError::TruncatedStream {
                context: spec_ea_context(rm, mode),
            }),
        },
{
    let n = bytes.len();
    if rm == 6 && mode == 0 {
        if n - pos < 2 {
            return Err(DecodeError::TruncatedStream { context: FieldContext::DirectAddressByte });
        }
        let addr = (bytes[pos] as u16) | ((bytes[pos + 1] as u16) << 8);
        return Ok((u16_to_decimal(addr), pos + 2));
    }
    if mode == 0 {
        return Ok((memory_operand_string(rm, mode, 0), pos));
    }
    if mode == 1 {
        if n - pos < 1 {
            return Err(DecodeError::TruncatedStream { context: FieldContext::DisplacementByte });
        }
        let disp = bytes[pos] as u16;
        return Ok((memory_operand_string(rm, mode, disp), pos + 1));
    }
    if n - pos < 2 {
        return Err(DecodeError::TruncatedStream { context: FieldContext::DisplacementByte });
    }
    let disp = (bytes[pos] as u16) | ((bytes[pos + 1] as u16) << 8);
    Ok((memory_operand_string(rm, mode, disp), pos + 2))
}

/// True of exactly the ten decimal digit characters.
pub open spec fn is_dec_digit(c: char) -> bool {
    c == '0' || c == '1' || c == '2' || c == '3' || c == '4' || c == '5' || c == '6' || c == '7'
        || c == '8' || c == '9'
}

/// Every character of a decimal rendering is a digit, and there is at least
/// one.
pub proof fn lemma_dec_digits(n: nat)
    ensures
        spec_dec(n).len() >= 1,
        forall|k: int| 0 <= k < spec_dec(n).len() ==> is_dec_digit(#[trigger] spec_dec(n)[k]),
    decreases n,
{
    reveal_strlit("0");
    reveal_strlit("1");
    reveal_strlit("2");
    reveal_strlit("3");
    reveal_strlit("4");
    reveal_strlit("5");
    reveal_strlit("6");
    reveal_strlit("7");
    reveal_strlit("8");
    reveal_strlit("9");
    if n < 10 {
    } else {
        lemma_dec_digits(n / 10);
        let s = spec_dec(n / 10);
        let d = spec_digit(n % 10);
        assert forall|k: int| 0 <= k < spec_dec(n).len() implies is_dec_digit(
            #[trigger] spec_dec(n)[k],
        ) by {
            if k < s.len() {
                assert(spec_dec(n)[k] == s[k]);
            } else {
                assert(spec_dec(n)[k] == d[k - s.len()]);
            }
        }
    }
}

/// Law: zero-displacement suppression.  A memory operand whose addressing
/// mode consumes a displacement (mode 1 or 2) that turns out to be zero
/// renders as the bare bracketed base expression, with no displacement
/// suffix.
pub proof fn lemma_zero_displacement_suppression(rm: u8, mode: u8)
    requires
        rm < 8,
        mode == 1 || mode == 2,
    ensures
        spec_ea_text(rm, mode, 0) == "["@ + spec_ea_base(rm) + "]"@,
{
}

/// Law: the direct-address special case.  The operand for r/m pattern 110
/// in mode 0 renders as a bare decimal address: every character is a digit,
/// so it never begins with the bracket a base-register expression carries.
pub proof fn lemma_direct_address_bare(addr: u16)
    ensures
        spec_ea_text(6, 0, addr) == spec_dec(addr as nat),
        spec_dec(addr as nat).len() >= 1,
        forall|k: int| 0 <= k < spec_dec(addr as nat).len() ==> is_dec_digit(
            #[trigger] spec_dec(addr as nat)[k],
        ),
        spec_dec(addr as nat)[0] != '[',
{
    lemma_dec_digits(addr as nat);
}

} // verus!
