//! Dalvik bytecode instruction decoding.
//!
//! The decoding relation is stated in two layers. [`spec_step`] is a total
//! function from a code-unit sequence to either the number of units one
//! decode consumes or the error it reports; it captures the opcode-to-format
//! dispatch, every truncation and encoding check, and the size computation of
//! the three inline metadata tables. [`instr_matches`] then says which
//! [`Instruction`] value a successful decode produces, field by field from
//! the bit layout of the format. [`decode_one`] is verified against both.

use crate::Instruction;
use crate::spec_opcode;
use vstd::prelude::*;
use vstd::slice::slice_subrange;

verus! {

/// Decoding error.
#[derive(Debug, Clone, Copy, PartialEq, Eq, Structural)]
#[non_exhaustive]
pub enum Error {
    /// An instruction was truncated.
    ///
    /// More code units are needed to decode properly.
    Truncated,
    /// Instruction was not encoded correctly.
    Encoding,
    /// The bytecode was an inline metadata table (packed-switch payload,
    /// sparse-switch payload, or fill-array-data payload) and should be
    /// skipped over rather than decoded.
    Metadata {
        /// Length (in u16 code units) of the whole table, counted from the
        /// cursor position at which it was recognized.
        length: usize,
    },
}

/// The opcode: the low byte of the first code unit.
pub open spec fn op_of(s: Seq<u16>) -> u8 {
    s[0] as u8
}

/// The `AA` field: the high byte of the first code unit.
pub open spec fn aa_of(s: Seq<u16>) -> u8 {
    (s[0] >> 8) as u8
}

/// The `B` nibble of a `B|A|op` unit (bits 12..16).
pub open spec fn nib_b_of(s: Seq<u16>) -> u8 {
    ((s[0] >> 8) as u8) >> 4
}

/// The `A` nibble of a `B|A|op` unit (bits 8..12).
pub open spec fn nib_a_of(s: Seq<u16>) -> u8 {
    ((s[0] >> 8) as u8) & 0xf
}

/// The second code unit, used whole as a 16-bit operand.
pub open spec fn w1_of(s: Seq<u16>) -> u16 {
    s[1]
}

/// The `CC` byte of an `AA|op CC|BB` pair (high byte of the second unit).
pub open spec fn cc_of(s: Seq<u16>) -> u8 {
    (s[1] >> 8) as u8
}

/// The `BB` byte of an `AA|op CC|BB` pair (low byte of the second unit).
pub open spec fn bb_of(s: Seq<u16>) -> u8 {
    s[1] as u8
}

/// A 32-bit operand from the second and third code units, low unit first.
pub open spec fn b32_of(s: Seq<u16>) -> u32 {
    ((s[2] as u32) << 16) | (s[1] as u32)
}

/// The register-range start `CCCC` of a `AA|op CCCC BBBB` instruction
/// (the third code unit; the documented field order is an erratum).
pub open spec fn cccc3_of(s: Seq<u16>) -> u16 {
    (b32_of(s) >> 16) as u16
}

/// The index operand `BBBB` of a `AA|op CCCC BBBB` instruction
/// (the second code unit).
pub open spec fn bbbb3_of(s: Seq<u16>) -> u16 {
    b32_of(s) as u16
}

/// The argument-count nibble `A` of a `A|G|op BBBB F|E|D|C` instruction.
pub open spec fn a35_of(s: Seq<u16>) -> u8 {
    ((s[0] >> 12) & 0xf) as u8
}

/// The `G` argument nibble of a `A|G|op BBBB F|E|D|C` instruction.
pub open spec fn g_of(s: Seq<u16>) -> u8 {
    ((s[0] >> 8) & 0xf) as u8
}

/// The `F` argument nibble of a `A|G|op BBBB F|E|D|C` instruction.
pub open spec fn f_of(s: Seq<u16>) -> u8 {
    ((s[2] >> 12) & 0xf) as u8
}

/// The `E` argument nibble of a `A|G|op BBBB F|E|D|C` instruction.
pub open spec fn e_of(s: Seq<u16>) -> u8 {
    ((s[2] >> 8) & 0xf) as u8
}

/// The `D` argument nibble of a `A|G|op BBBB F|E|D|C` instruction.
pub open spec fn d_of(s: Seq<u16>) -> u8 {
    ((s[2] >> 4) & 0xf) as u8
}

/// The `C` argument nibble of a `A|G|op BBBB F|E|D|C` instruction.
pub open spec fn c_of(s: Seq<u16>) -> u8 {
    (s[2] & 0xf) as u8
}

/// A 64-bit operand from the second through fifth code units, low unit first.
pub open spec fn b64_of(s: Seq<u16>) -> u64 {
    ((s[4] as u64) << 48) | ((s[3] as u64) << 32) | ((s[2] as u64) << 16) | (s[1] as u64)
}

/// The element count of a fill-array-data table: a 32-bit value stored in the
/// third and fourth code units of the table, low unit first.
pub open spec fn fill_size_of(s: Seq<u16>) -> u32 {
    ((s[3] as u32) << 16) | (s[2] as u32)
}

/// The number of data code units of a fill-array-data table: element width
/// times element count, in bytes, rounded up to whole 16-bit units.
pub open spec fn fill_units(s: Seq<u16>) -> int {
    ((s[1] as int) * (fill_size_of(s) as int) + 1) / 2
}

/// A 4-bit literal sign-extended to 8 bits.
pub open spec fn sx4(b: u8) -> i8 {
    if b & 0x8 != 0 {
        (b | 0xf0) as i8
    } else {
        b as i8
    }
}

/// What one decoding step does on `s`: how many code units it consumes on
/// success, or which error it reports. Decoding never consumes on error; a
/// reported [`Error::Metadata`] length covers the whole inline table.
pub open spec fn spec_step(s: Seq<u16>) -> Result<usize, Error> {
    if s.len() < 1 {
        Err(Error::Truncated)
    } else {
        match op_of(s) {
        0x00 => {
            if aa_of(s) == 0 {
                Ok(1)
            } else if aa_of(s) == 1 {
                if s.len() < 4 {
                    Err(Error::Truncated)
                } else if s.len() - 4 < 2 * (s[1] as int) {
                    Err(Error::Truncated)
                } else {
                    Err(Error::Metadata { length: ((4 + 2 * (s[1] as int)) as usize) })
                }
            } else if aa_of(s) == 2 {
                if s.len() < 2 {
                    Err(Error::Truncated)
                } else if s.len() - 2 < 4 * (s[1] as int) {
                    Err(Error::Truncated)
                } else {
                    Err(Error::Metadata { length: ((2 + 4 * (s[1] as int)) as usize) })
                }
            } else if aa_of(s) == 3 {
                if s.len() < 4 {
                    Err(Error::Truncated)
                } else if s.len() - 4 < fill_units(s) {
                    Err(Error::Truncated)
                } else {
                    Err(Error::Metadata { length: ((4 + fill_units(s)) as usize) })
                }
            } else {
                Err(Error::Encoding)
            }
        },
        0x0e => if aa_of(s) != 0 { Err(Error::Encoding) } else { Ok(1) },
        0x01 | 0x04 | 0x07 | 0x0a | 0x0b | 0x0c | 0x0d | 0x0f | 0x10 | 0x11 | 0x12 | 0x1d | 0x1e | 
        0x21 | 0x27 | 0x28 | 0x7b | 0x7c | 0x7d | 0x7e | 0x7f | 0x80 | 0x81 | 0x82 | 0x83 | 0x84 | 
        0x85 | 0x86 | 0x87 | 0x88 | 0x89 | 0x8a | 0x8b | 0x8c | 0x8d | 0x8e | 0x8f | 0xb0 | 0xb1 | 
        0xb2 | 0xb3 | 0xb4 | 0xb5 | 0xb6 | 0xb7 | 0xb8 | 0xb9 | 0xba | 0xbb | 0xbc | 0xbd | 0xbe | 
        0xbf | 0xc0 | 0xc1 | 0xc2 | 0xc3 | 0xc4 | 0xc5 | 0xc6 | 0xc7 | 0xc8 | 0xc9 | 0xca | 0xcb | 
        0xcc | 0xcd | 0xce | 0xcf => Ok(1),
        0x02 | 0x05 | 0x08 | 0x13 | 0x15 | 0x16 | 0x19 | 0x1a | 0x1c | 0x1f | 0x20 | 0x22 | 0x23 | 
        0x2d | 0x2e | 0x2f | 0x30 | 0x31 | 0x32 | 0x33 | 0x34 | 0x35 | 0x36 | 0x37 | 0x38 | 0x39 | 
        0x3a | 0x3b | 0x3c | 0x3d | 0x44 | 0x45 | 0x46 | 0x47 | 0x48 | 0x49 | 0x4a | 0x4b | 0x4c | 
        0x4d | 0x4e | 0x4f | 0x50 | 0x51 | 0x52 | 0x53 | 0x54 | 0x55 | 0x56 | 0x57 | 0x58 | 0x59 | 
        0x5a | 0x5b | 0x5c | 0x5d | 0x5e | 0x5f | 0x60 | 0x61 | 0x62 | 0x63 | 0x64 | 0x65 | 0x66 | 
        0x67 | 0x68 | 0x69 | 0x6a | 0x6b | 0x6c | 0x6d | 0x90 | 0x91 | 0x92 | 0x93 | 0x94 | 0x95 | 
        0x96 | 0x97 | 0x98 | 0x99 | 0x9a | 0x9b | 0x9c | 0x9d | 0x9e | 0x9f | 0xa0 | 0xa1 | 0xa2 | 
        0xa3 | 0xa4 | 0xa5 | 0xa6 | 0xa7 | 0xa8 | 0xa9 | 0xaa | 0xab | 0xac | 0xad | 0xae | 0xaf | 
        0xd0 | 0xd1 | 0xd2 | 0xd3 | 0xd4 | 0xd5 | 0xd6 | 0xd7 | 0xd8 | 0xd9 | 0xda | 0xdb | 0xdc | 
        0xdd | 0xde | 0xdf | 0xe0 | 0xe1 | 0xe2 => if s.len() < 2 { Err(Error::Truncated) } else { Ok(2) },
        0x29 => if s.len() < 2 {
            Err(Error::Truncated)
        } else if aa_of(s) != 0 {
            Err(Error::Encoding)
        } else {
            Ok(2)
        },
        0x14 | 0x17 | 0x1b | 0x26 | 0x2b | 0x2c => if s.len() < 3 { Err(Error::Truncated) } else { Ok(3) },
        0x2a => if s.len() < 3 {
            Err(Error::Truncated)
        } else if aa_of(s) != 0 {
            Err(Error::Encoding)
        } else {
            Ok(3)
        },
        0x03 | 0x06 | 0x09 => if s.len() < 3 {
            Err(Error::Truncated)
        } else if aa_of(s) != 0 {
            Err(Error::Encoding)
        } else {
            Ok(3)
        },
        0x24 | 0x6e | 0x6f | 0x70 | 0x71 | 0x72 => if s.len() < 3 {
            Err(Error::Truncated)
        } else if a35_of(s) > 5 {
            Err(Error::Encoding)
        } else {
            Ok(3)
        },
        0x25 | 0x74 | 0x75 | 0x76 | 0x77 | 0x78 => if s.len() < 3 {
            Err(Error::Truncated)
        } else if cccc3_of(s) as int + aa_of(s) as int > 0x10000 {
            Err(Error::Encoding)
        } else {
            Ok(3)
        },
        0x18 => if s.len() < 5 { Err(Error::Truncated) } else { Ok(5) },
        _ => Err(Error::Encoding),
        }
    }
}

/// Which instruction a successful decode of `s` yields: for each opcode, the
/// variant and its fields as read from the documented bit layout. Meaningful
/// when `spec_step(s)` is `Ok`; argument vectors are pinned by their view.
pub open spec fn instr_matches(s: Seq<u16>, i: Instruction) -> bool {
    s.len() >= 1 && match op_of(s) {
        0x00 => i == Instruction::Nop,
        0x01 => i == (Instruction::Move(nib_a_of(s), nib_b_of(s))),
        0x02 => i == (Instruction::MoveFrom16(aa_of(s), w1_of(s))),
        0x03 => i == (Instruction::Move16(bbbb3_of(s), cccc3_of(s))),
        0x04 => i == (Instruction::MoveWide(nib_a_of(s), nib_b_of(s))),
        0x05 => i == (Instruction::MoveWideFrom16(aa_of(s), w1_of(s))),
        0x06 => i == (Instruction::MoveWide16(bbbb3_of(s), cccc3_of(s))),
        0x07 => i == (Instruction::MoveObject(nib_a_of(s), nib_b_of(s))),
        0x08 => i == (Instruction::MoveObjectFrom16(aa_of(s), w1_of(s))),
        0x09 => i == (Instruction::MoveObject16(bbbb3_of(s), cccc3_of(s))),
        0x0a => i == (Instruction::MoveResult(aa_of(s))),
        0x0b => i == (Instruction::MoveResultWide(aa_of(s))),
        0x0c => i == (Instruction::MoveResultObject(aa_of(s))),
        0x0d => i == (Instruction::MoveException(aa_of(s))),
        0x0e => i == Instruction::ReturnVoid,
        0x0f => i == (Instruction::Return(aa_of(s))),
        0x10 => i == (Instruction::ReturnWide(aa_of(s))),
        0x11 => i == (Instruction::ReturnObject(aa_of(s))),
        0x12 => i == (Instruction::Const4(nib_a_of(s), sx4(nib_b_of(s)))),
        0x13 => i == (Instruction::Const16(aa_of(s), w1_of(s) as i16)),
        0x14 => i == (Instruction::Const(aa_of(s), b32_of(s))),
        0x15 => i == (Instruction::ConstHigh16(aa_of(s), w1_of(s) as i16)),
        0x16 => i == (Instruction::ConstWide16(aa_of(s), w1_of(s) as i16)),
        0x17 => i == (Instruction::ConstWide32(aa_of(s), b32_of(s))),
        0x18 => i == (Instruction::ConstWide(aa_of(s), b64_of(s))),
        0x19 => i == (Instruction::ConstWideHigh16(aa_of(s), w1_of(s))),
        0x1a => i == (Instruction::ConstString(aa_of(s), w1_of(s))),
        0x1b => i == (Instruction::ConstStringJumbo(aa_of(s), b32_of(s))),
        0x1c => i == (Instruction::ConstClass(aa_of(s), w1_of(s))),
        0x1d => i == (Instruction::MonitorEnter(aa_of(s))),
        0x1e => i == (Instruction::MonitorExit(aa_of(s))),
        0x1f => i == (Instruction::CheckCast(aa_of(s), w1_of(s))),
        0x20 => i == (Instruction::InstanceOf(nib_a_of(s), nib_b_of(s), w1_of(s))),
        0x21 => i == (Instruction::ArrayLength(nib_b_of(s), nib_a_of(s))),
        0x22 => i == (Instruction::NewInstance(aa_of(s), w1_of(s))),
        0x23 => i == (Instruction::NewArray(nib_a_of(s), nib_b_of(s), w1_of(s))),
        0x24 => (i matches Instruction::FilledNewArray { ty, nargs, args } && ty == w1_of(s) && nargs == a35_of(s)
            && args@ =~= seq![c_of(s), d_of(s), e_of(s), f_of(s), g_of(s)]),
        0x25 => (i matches Instruction::FilledNewArrayRange { ty, args } && ty == bbbb3_of(s)
            && args@ =~= Seq::new(aa_of(s) as nat, |k: int| (cccc3_of(s) + k) as u16)),
        0x26 => i == (Instruction::FillArrayData(aa_of(s), b32_of(s) as i32)),
        0x27 => i == (Instruction::Throw(aa_of(s))),
        0x28 => i == (Instruction::Goto(aa_of(s) as i8)),
        0x29 => i == (Instruction::Goto16(w1_of(s) as i16)),
        0x2a => i == (Instruction::Goto32(b32_of(s) as i32)),
        0x2b => i == (Instruction::PackedSwitch(aa_of(s), b32_of(s) as i32)),
        0x2c => i == (Instruction::SparseSwitch(aa_of(s), b32_of(s) as i32)),
        0x2d => i == (Instruction::CmplFloat(aa_of(s), bb_of(s), cc_of(s))),
        0x2e => i == (Instruction::CmpgFloat(aa_of(s), bb_of(s), cc_of(s))),
        0x2f => i == (Instruction::CmplDouble(aa_of(s), bb_of(s), cc_of(s))),
        0x30 => i == (Instruction::CmpgDouble(aa_of(s), bb_of(s), cc_of(s))),
        0x31 => i == (Instruction::CmpLong(aa_of(s), bb_of(s), cc_of(s))),
        0x32 => i == (Instruction::IfEq(nib_a_of(s), nib_b_of(s), w1_of(s) as i16)),
        0x33 => i == (Instruction::IfNe(nib_a_of(s), nib_b_of(s), w1_of(s) as i16)),
        0x34 => i == (Instruction::IfLt(nib_a_of(s), nib_b_of(s), w1_of(s) as i16)),
        0x35 => i == (Instruction::IfGe(nib_a_of(s), nib_b_of(s), w1_of(s) as i16)),
        0x36 => i == (Instruction::IfGt(nib_a_of(s), nib_b_of(s), w1_of(s) as i16)),
        0x37 => i == (Instruction::IfLe(nib_a_of(s), nib_b_of(s), w1_of(s) as i16)),
        0x38 => i == (Instruction::IfEqz(aa_of(s), w1_of(s) as i16)),
        0x39 => i == (Instruction::IfNez(aa_of(s), w1_of(s) as i16)),
        0x3a => i == (Instruction::IfLtz(aa_of(s), w1_of(s) as i16)),
        0x3b => i == (Instruction::IfGez(aa_of(s), w1_of(s) as i16)),
        0x3c => i == (Instruction::IfGtz(aa_of(s), w1_of(s) as i16)),
        0x3d => i == (Instruction::IfLez(aa_of(s), w1_of(s) as i16)),
        0x44 => i == (Instruction::AGet(aa_of(s), bb_of(s), cc_of(s))),
        0x45 => i == (Instruction::AGetWide(aa_of(s), bb_of(s), cc_of(s))),
        0x46 => i == (Instruction::AGetObject(aa_of(s), bb_of(s), cc_of(s))),
        0x47 => i == (Instruction::AGetBoolean(aa_of(s), bb_of(s), cc_of(s))),
        0x48 => i == (Instruction::AGetByte(aa_of(s), bb_of(s), cc_of(s))),
        0x49 => i == (Instruction::AGetChar(aa_of(s), bb_of(s), cc_of(s))),
        0x4a => i == (Instruction::AGetShort(aa_of(s), bb_of(s), cc_of(s))),
        0x4b => i == (Instruction::APut(aa_of(s), bb_of(s), cc_of(s))),
        0x4c => i == (Instruction::APutWide(aa_of(s), bb_of(s), cc_of(s))),
        0x4d => i == (Instruction::APutObject(aa_of(s), bb_of(s), cc_of(s))),
        0x4e => i == (Instruction::APutBoolean(aa_of(s), bb_of(s), cc_of(s))),
        0x4f => i == (Instruction::APutByte(aa_of(s), bb_of(s), cc_of(s))),
        0x50 => i == (Instruction::APutChar(aa_of(s), bb_of(s), cc_of(s))),
        0x51 => i == (Instruction::APutShort(aa_of(s), bb_of(s), cc_of(s))),
        0x52 => i == (Instruction::IGet(nib_a_of(s), nib_b_of(s), w1_of(s))),
        0x53 => i == (Instruction::IGetWide(nib_a_of(s), nib_b_of(s), w1_of(s))),
        0x54 => i == (Instruction::IGetObject(nib_a_of(s), nib_b_of(s), w1_of(s))),
        0x55 => i == (Instruction::IGetBoolean(nib_a_of(s), nib_b_of(s), w1_of(s))),
        0x56 => i == (Instruction::IGetByte(nib_a_of(s), nib_b_of(s), w1_of(s))),
        0x57 => i == (Instruction::IGetChar(nib_a_of(s), nib_b_of(s), w1_of(s))),
        0x58 => i == (Instruction::IGetShort(nib_a_of(s), nib_b_of(s), w1_of(s))),
        0x59 => i == (Instruction::IPut(nib_a_of(s), nib_b_of(s), w1_of(s))),
        0x5a => i == (Instruction::IPutWide(nib_a_of(s), nib_b_of(s), w1_of(s))),
        0x5b => i == (Instruction::IPutObject(nib_a_of(s), nib_b_of(s), w1_of(s))),
        0x5c => i == (Instruction::IPutBoolean(nib_a_of(s), nib_b_of(s), w1_of(s))),
        0x5d => i == (Instruction::IPutByte(nib_a_of(s), nib_b_of(s), w1_of(s))),
        0x5e => i == (Instruction::IPutChar(nib_a_of(s), nib_b_of(s), w1_of(s))),
        0x5f => i == (Instruction::IPutShort(nib_a_of(s), nib_b_of(s), w1_of(s))),
        0x60 => i == (Instruction::SGet(aa_of(s), w1_of(s))),
        0x61 => i == (Instruction::SGetWide(aa_of(s), w1_of(s))),
        0x62 => i == (Instruction::SGetObject(aa_of(s), w1_of(s))),
        0x63 => i == (Instruction::SGetBoolean(aa_of(s), w1_of(s))),
        0x64 => i == (Instruction::SGetByte(aa_of(s), w1_of(s))),
        0x65 => i == (Instruction::SGetChar(aa_of(s), w1_of(s))),
        0x66 => i == (Instruction::SGetShort(aa_of(s), w1_of(s))),
        0x67 => i == (Instruction::SPut(aa_of(s), w1_of(s))),
        0x68 => i == (Instruction::SPutWide(aa_of(s), w1_of(s))),
        0x69 => i == (Instruction::SPutObject(aa_of(s), w1_of(s))),
        0x6a => i == (Instruction::SPutBoolean(aa_of(s), w1_of(s))),
        0x6b => i == (Instruction::SPutByte(aa_of(s), w1_of(s))),
        0x6c => i == (Instruction::SPutChar(aa_of(s), w1_of(s))),
        0x6d => i == (Instruction::SPutShort(aa_of(s), w1_of(s))),
        0x6e => (i matches Instruction::InvokeVirtual { method, nargs, args } && method == w1_of(s) && nargs == a35_of(s)
            && args@ =~= seq![c_of(s), d_of(s), e_of(s), f_of(s), g_of(s)]),
        0x6f => (i matches Instruction::InvokeSuper { method, nargs, args } && method == w1_of(s) && nargs == a35_of(s)
            && args@ =~= seq![c_of(s), d_of(s), e_of(s), f_of(s), g_of(s)]),
        0x70 => (i matches Instruction::InvokeDirect { method, nargs, args } && method == w1_of(s) && nargs == a35_of(s)
            && args@ =~= seq![c_of(s), d_of(s), e_of(s), f_of(s), g_of(s)]),
        0x71 => (i matches Instruction::InvokeStatic { method, nargs, args } && method == w1_of(s) && nargs == a35_of(s)
            && args@ =~= seq![c_of(s), d_of(s), e_of(s), f_of(s), g_of(s)]),
        0x72 => (i matches Instruction::InvokeInterface { method, nargs, args } && method == w1_of(s) && nargs == a35_of(s)
            && args@ =~= seq![c_of(s), d_of(s), e_of(s), f_of(s), g_of(s)]),
        0x74 => (i matches Instruction::InvokeVirtualRange { method, args } && method == bbbb3_of(s)
            && args@ =~= Seq::new(aa_of(s) as nat, |k: int| (cccc3_of(s) + k) as u16)),
        0x75 => (i matches Instruction::InvokeSuperRange { method, args } && method == bbbb3_of(s)
            && args@ =~= Seq::new(aa_of(s) as nat, |k: int| (cccc3_of(s) + k) as u16)),
        0x76 => (i matches Instruction::InvokeDirectRange { method, args } && method == bbbb3_of(s)
            && args@ =~= Seq::new(aa_of(s) as nat, |k: int| (cccc3_of(s) + k) as u16)),
        0x77 => (i matches Instruction::InvokeStaticRange { method, args } && method == bbbb3_of(s)
            && args@ =~= Seq::new(aa_of(s) as nat, |k: int| (cccc3_of(s) + k) as u16)),
        0x78 => (i matches Instruction::InvokeInterfaceRange { method, args } && method == bbbb3_of(s)
            && args@ =~= Seq::new(aa_of(s) as nat, |k: int| (cccc3_of(s) + k) as u16)),
        0x7b => i == (Instruction::NegInt(nib_a_of(s), nib_b_of(s))),
        0x7c => i == (Instruction::NotInt(nib_a_of(s), nib_b_of(s))),
        0x7d => i == (Instruction::NegLong(nib_a_of(s), nib_b_of(s))),
        0x7e => i == (Instruction::NotLong(nib_a_of(s), nib_b_of(s))),
        0x7f => i == (Instruction::NegFloat(nib_a_of(s), nib_b_of(s))),
        0x80 => i == (Instruction::NegDouble(nib_a_of(s), nib_b_of(s))),
        0x81 => i == (Instruction::IntToLong(nib_a_of(s), nib_b_of(s))),
        0x82 => i == (Instruction::IntToFloat(nib_a_of(s), nib_b_of(s))),
        0x83 => i == (Instruction::IntToDouble(nib_a_of(s), nib_b_of(s))),
        0x84 => i == (Instruction::LongToInt(nib_a_of(s), nib_b_of(s))),
        0x85 => i == (Instruction::LongToFloat(nib_a_of(s), nib_b_of(s))),
        0x86 => i == (Instruction::LongToDouble(nib_a_of(s), nib_b_of(s))),
        0x87 => i == (Instruction::FloatToInt(nib_a_of(s), nib_b_of(s))),
        0x88 => i == (Instruction::FloatToLong(nib_a_of(s), nib_b_of(s))),
        0x89 => i == (Instruction::FloatToDouble(nib_a_of(s), nib_b_of(s))),
        0x8a => i == (Instruction::DoubleToInt(nib_a_of(s), nib_b_of(s))),
        0x8b => i == (Instruction::DoubleToLong(nib_a_of(s), nib_b_of(s))),
        0x8c => i == (Instruction::DoubleToFloat(nib_a_of(s), nib_b_of(s))),
        0x8d => i == (Instruction::IntTobyte(nib_a_of(s), nib_b_of(s))),
        0x8e => i == (Instruction::IntTochar(nib_a_of(s), nib_b_of(s))),
        0x8f => i == (Instruction::IntToshort(nib_a_of(s), nib_b_of(s))),
        0x90 => i == (Instruction::AddInt(aa_of(s), bb_of(s), cc_of(s))),
        0x91 => i == (Instruction::SubInt(aa_of(s), bb_of(s), cc_of(s))),
        0x92 => i == (Instruction::MulInt(aa_of(s), bb_of(s), cc_of(s))),
        0x93 => i == (Instruction::DivInt(aa_of(s), bb_of(s), cc_of(s))),
        0x94 => i == (Instruction::RemInt(aa_of(s), bb_of(s), cc_of(s))),
        0x95 => i == (Instruction::AndInt(aa_of(s), bb_of(s), cc_of(s))),
        0x96 => i == (Instruction::OrInt(aa_of(s), bb_of(s), cc_of(s))),
        0x97 => i == (Instruction::XorInt(aa_of(s), bb_of(s), cc_of(s))),
        0x98 => i == (Instruction::ShlInt(aa_of(s), bb_of(s), cc_of(s))),
        0x99 => i == (Instruction::ShrInt(aa_of(s), bb_of(s), cc_of(s))),
        0x9a => i == (Instruction::UshrInt(aa_of(s), bb_of(s), cc_of(s))),
        0x9b => i == (Instruction::AddLong(aa_of(s), bb_of(s), cc_of(s))),
        0x9c => i == (Instruction::SubLong(aa_of(s), bb_of(s), cc_of(s))),
        0x9d => i == (Instruction::MulLong(aa_of(s), bb_of(s), cc_of(s))),
        0x9e => i == (Instruction::DivLong(aa_of(s), bb_of(s), cc_of(s))),
        0x9f => i == (Instruction::RemLong(aa_of(s), bb_of(s), cc_of(s))),
        0xa0 => i == (Instruction::AndLong(aa_of(s), bb_of(s), cc_of(s))),
        0xa1 => i == (Instruction::OrLong(aa_of(s), bb_of(s), cc_of(s))),
        0xa2 => i == (Instruction::XorLong(aa_of(s), bb_of(s), cc_of(s))),
        0xa3 => i == (Instruction::ShlLong(aa_of(s), bb_of(s), cc_of(s))),
        0xa4 => i == (Instruction::ShrLong(aa_of(s), bb_of(s), cc_of(s))),
        0xa5 => i == (Instruction::UshrLong(aa_of(s), bb_of(s), cc_of(s))),
        0xa6 => i == (Instruction::AddFloat(aa_of(s), bb_of(s), cc_of(s))),
        0xa7 => i == (Instruction::SubFloat(aa_of(s), bb_of(s), cc_of(s))),
        0xa8 => i == (Instruction::MulFloat(aa_of(s), bb_of(s), cc_of(s))),
        0xa9 => i == (Instruction::DivFloat(aa_of(s), bb_of(s), cc_of(s))),
        0xaa => i == (Instruction::RemFloat(aa_of(s), bb_of(s), cc_of(s))),
        0xab => i == (Instruction::AddDouble(aa_of(s), bb_of(s), cc_of(s))),
        0xac => i == (Instruction::SubDouble(aa_of(s), bb_of(s), cc_of(s))),
        0xad => i == (Instruction::MulDouble(aa_of(s), bb_of(s), cc_of(s))),
        0xae => i == (Instruction::DivDouble(aa_of(s), bb_of(s), cc_of(s))),
        0xaf => i == (Instruction::RemDouble(aa_of(s), bb_of(s), cc_of(s))),
        0xb0 => i == (Instruction::AddInt2(nib_a_of(s), nib_b_of(s))),
        0xb1 => i == (Instruction::SubInt2(nib_a_of(s), nib_b_of(s))),
        0xb2 => i == (Instruction::MulInt2(nib_a_of(s), nib_b_of(s))),
        0xb3 => i == (Instruction::DivInt2(nib_a_of(s), nib_b_of(s))),
        0xb4 => i == (Instruction::RemInt2(nib_a_of(s), nib_b_of(s))),
        0xb5 => i == (Instruction::AndInt2(nib_a_of(s), nib_b_of(s))),
        0xb6 => i == (Instruction::OrInt2(nib_a_of(s), nib_b_of(s))),
        0xb7 => i == (Instruction::XorInt2(nib_a_of(s), nib_b_of(s))),
        0xb8 => i == (Instruction::ShlInt2(nib_a_of(s), nib_b_of(s))),
        0xb9 => i == (Instruction::ShrInt2(nib_a_of(s), nib_b_of(s))),
        0xba => i == (Instruction::UShrInt2(nib_a_of(s), nib_b_of(s))),
        0xbb => i == (Instruction::AddLong2(nib_a_of(s), nib_b_of(s))),
        0xbc => i == (Instruction::SubLong2(nib_a_of(s), nib_b_of(s))),
        0xbd => i == (Instruction::MulLong2(nib_a_of(s), nib_b_of(s))),
        0xbe => i == (Instruction::DivLong2(nib_a_of(s), nib_b_of(s))),
        0xbf => i == (Instruction::RemLong2(nib_a_of(s), nib_b_of(s))),
        0xc0 => i == (Instruction::AndLong2(nib_a_of(s), nib_b_of(s))),
        0xc1 => i == (Instruction::OrLong2(nib_a_of(s), nib_b_of(s))),
        0xc2 => i == (Instruction::XorLong2(nib_a_of(s), nib_b_of(s))),
        0xc3 => i == (Instruction::ShlLong2(nib_a_of(s), nib_b_of(s))),
        0xc4 => i == (Instruction::ShrLong2(nib_a_of(s), nib_b_of(s))),
        0xc5 => i == (Instruction::UShrLong2(nib_a_of(s), nib_b_of(s))),
        0xc6 => i == (Instruction::AddFloat2(nib_a_of(s), nib_b_of(s))),
        0xc7 => i == (Instruction::SubFloat2(nib_a_of(s), nib_b_of(s))),
        0xc8 => i == (Instruction::MulFloat2(nib_a_of(s), nib_b_of(s))),
        0xc9 => i == (Instruction::DivFloat2(nib_a_of(s), nib_b_of(s))),
        0xca => i == (Instruction::RemFloat2(nib_a_of(s), nib_b_of(s))),
        0xcb => i == (Instruction::AddDouble2(nib_a_of(s), nib_b_of(s))),
        0xcc => i == (Instruction::SubDouble2(nib_a_of(s), nib_b_of(s))),
        0xcd => i == (Instruction::MulDouble2(nib_a_of(s), nib_b_of(s))),
        0xce => i == (Instruction::DivDouble2(nib_a_of(s), nib_b_of(s))),
        0xcf => i == (Instruction::RemDouble2(nib_a_of(s), nib_b_of(s))),
        0xd0 => i == (Instruction::AddInt16(nib_a_of(s), nib_b_of(s), w1_of(s) as i16)),
        0xd1 => i == (Instruction::RsubInt16(nib_a_of(s), nib_b_of(s), w1_of(s) as i16)),
        0xd2 => i == (Instruction::MulInt16(nib_a_of(s), nib_b_of(s), w1_of(s) as i16)),
        0xd3 => i == (Instruction::DivInt16(nib_a_of(s), nib_b_of(s), w1_of(s) as i16)),
        0xd4 => i == (Instruction::RemInt16(nib_a_of(s), nib_b_of(s), w1_of(s) as i16)),
        0xd5 => i == (Instruction::AndInt16(nib_a_of(s), nib_b_of(s), w1_of(s) as i16)),
        0xd6 => i == (Instruction::OrInt16(nib_a_of(s), nib_b_of(s), w1_of(s) as i16)),
        0xd7 => i == (Instruction::XorInt16(nib_a_of(s), nib_b_of(s), w1_of(s) as i16)),
        0xd8 => i == (Instruction::AddInt8(aa_of(s), bb_of(s), cc_of(s) as i8)),
        0xd9 => i == (Instruction::RsubInt8(aa_of(s), bb_of(s), cc_of(s) as i8)),
        0xda => i == (Instruction::MulInt8(aa_of(s), bb_of(s), cc_of(s) as i8)),
        0xdb => i == (Instruction::DivInt8(aa_of(s), bb_of(s), cc_of(s) as i8)),
        0xdc => i == (Instruction::RemInt8(aa_of(s), bb_of(s), cc_of(s) as i8)),
        0xdd => i == (Instruction::AndInt8(aa_of(s), bb_of(s), cc_of(s) as i8)),
        0xde => i == (Instruction::OrInt8(aa_of(s), bb_of(s), cc_of(s) as i8)),
        0xdf => i == (Instruction::XorInt8(aa_of(s), bb_of(s), cc_of(s) as i8)),
        0xe0 => i == (Instruction::ShlInt8(aa_of(s), bb_of(s), cc_of(s) as i8)),
        0xe1 => i == (Instruction::ShrInt8(aa_of(s), bb_of(s), cc_of(s) as i8)),
        0xe2 => i == (Instruction::UshrInt8(aa_of(s), bb_of(s), cc_of(s) as i8)),
        _ => false,
    }
}

/// Encoded instruction length in 16-bit code units, by variant.
pub open spec fn spec_len(i: Instruction) -> usize {
    match i {
        Instruction::Nop | Instruction::Move(..) | Instruction::MoveWide(..) | 
        Instruction::MoveObject(..) | Instruction::MoveResult(..) | Instruction::MoveResultWide(..) | 
        Instruction::MoveResultObject(..) | Instruction::MoveException(..) | Instruction::ReturnVoid | 
        Instruction::Return(..) | Instruction::ReturnWide(..) | Instruction::ReturnObject(..) | 
        Instruction::Const4(..) | Instruction::MonitorEnter(..) | Instruction::MonitorExit(..) | 
        Instruction::ArrayLength(..) | Instruction::Throw(..) | Instruction::Goto(..) | 
        Instruction::NegInt(..) | Instruction::NotInt(..) | Instruction::NegLong(..) | 
        Instruction::NotLong(..) | Instruction::NegFloat(..) | Instruction::NegDouble(..) | 
        Instruction::IntToLong(..) | Instruction::IntToFloat(..) | Instruction::IntToDouble(..) | 
        Instruction::LongToInt(..) | Instruction::LongToFloat(..) | Instruction::LongToDouble(..) | 
        Instruction::FloatToInt(..) | Instruction::FloatToLong(..) | Instruction::FloatToDouble(..) | 
        Instruction::DoubleToInt(..) | Instruction::DoubleToLong(..) | 
        Instruction::DoubleToFloat(..) | Instruction::IntTobyte(..) | Instruction::IntTochar(..) | 
        Instruction::IntToshort(..) | Instruction::AddInt2(..) | Instruction::SubInt2(..) | 
        Instruction::MulInt2(..) | Instruction::DivInt2(..) | Instruction::RemInt2(..) | 
        Instruction::AndInt2(..) | Instruction::OrInt2(..) | Instruction::XorInt2(..) | 
        Instruction::ShlInt2(..) | Instruction::ShrInt2(..) | Instruction::UShrInt2(..) | 
        Instruction::AddLong2(..) | Instruction::SubLong2(..) | Instruction::MulLong2(..) | 
        Instruction::DivLong2(..) | Instruction::RemLong2(..) | Instruction::AndLong2(..) | 
        Instruction::OrLong2(..) | Instruction::XorLong2(..) | Instruction::ShlLong2(..) | 
        Instruction::ShrLong2(..) | Instruction::UShrLong2(..) | Instruction::AddFloat2(..) | 
        Instruction::SubFloat2(..) | Instruction::MulFloat2(..) | Instruction::DivFloat2(..) | 
        Instruction::RemFloat2(..) | Instruction::AddDouble2(..) | Instruction::SubDouble2(..) | 
        Instruction::MulDouble2(..) | Instruction::DivDouble2(..) | Instruction::RemDouble2(..) => 1,
        Instruction::MoveFrom16(..) | Instruction::MoveWideFrom16(..) | 
        Instruction::MoveObjectFrom16(..) | Instruction::Const16(..) | Instruction::ConstHigh16(..) | 
        Instruction::ConstWide16(..) | Instruction::ConstWideHigh16(..) | 
        Instruction::ConstString(..) | Instruction::ConstClass(..) | Instruction::CheckCast(..) | 
        Instruction::InstanceOf(..) | Instruction::NewInstance(..) | Instruction::NewArray(..) | 
        Instruction::Goto16(..) | Instruction::CmplFloat(..) | Instruction::CmpgFloat(..) | 
        Instruction::CmplDouble(..) | Instruction::CmpgDouble(..) | Instruction::CmpLong(..) | 
        Instruction::IfEq(..) | Instruction::IfNe(..) | Instruction::IfLt(..) | 
        Instruction::IfGe(..) | Instruction::IfGt(..) | Instruction::IfLe(..) | 
        Instruction::IfEqz(..) | Instruction::IfNez(..) | Instruction::IfLtz(..) | 
        Instruction::IfGez(..) | Instruction::IfGtz(..) | Instruction::IfLez(..) | 
        Instruction::AGet(..) | Instruction::AGetWide(..) | Instruction::AGetObject(..) | 
        Instruction::AGetBoolean(..) | Instruction::AGetByte(..) | Instruction::AGetChar(..) | 
        Instruction::AGetShort(..) | Instruction::APut(..) | Instruction::APutWide(..) | 
        Instruction::APutObject(..) | Instruction::APutBoolean(..) | Instruction::APutByte(..) | 
        Instruction::APutChar(..) | Instruction::APutShort(..) | Instruction::IGet(..) | 
        Instruction::IGetWide(..) | Instruction::IGetObject(..) | Instruction::IGetBoolean(..) | 
        Instruction::IGetByte(..) | Instruction::IGetChar(..) | Instruction::IGetShort(..) | 
        Instruction::IPut(..) | Instruction::IPutWide(..) | Instruction::IPutObject(..) | 
        Instruction::IPutBoolean(..) | Instruction::IPutByte(..) | Instruction::IPutChar(..) | 
        Instruction::IPutShort(..) | Instruction::SGet(..) | Instruction::SGetWide(..) | 
        Instruction::SGetObject(..) | Instruction::SGetBoolean(..) | Instruction::SGetByte(..) | 
        Instruction::SGetChar(..) | Instruction::SGetShort(..) | Instruction::SPut(..) | 
        Instruction::SPutWide(..) | Instruction::SPutObject(..) | Instruction::SPutBoolean(..) | 
        Instruction::SPutByte(..) | Instruction::SPutChar(..) | Instruction::SPutShort(..) | 
        Instruction::AddInt(..) | Instruction::SubInt(..) | Instruction::MulInt(..) | 
        Instruction::DivInt(..) | Instruction::RemInt(..) | Instruction::AndInt(..) | 
        Instruction::OrInt(..) | Instruction::XorInt(..) | Instruction::ShlInt(..) | 
        Instruction::ShrInt(..) | Instruction::UshrInt(..) | Instruction::AddLong(..) | 
        Instruction::SubLong(..) | Instruction::MulLong(..) | Instruction::DivLong(..) | 
        Instruction::RemLong(..) | Instruction::AndLong(..) | Instruction::OrLong(..) | 
        Instruction::XorLong(..) | Instruction::ShlLong(..) | Instruction::ShrLong(..) | 
        Instruction::UshrLong(..) | Instruction::AddFloat(..) | Instruction::SubFloat(..) | 
        Instruction::MulFloat(..) | Instruction::DivFloat(..) | Instruction::RemFloat(..) | 
        Instruction::AddDouble(..) | Instruction::SubDouble(..) | Instruction::MulDouble(..) | 
        Instruction::DivDouble(..) | Instruction::RemDouble(..) | Instruction::AddInt16(..) | 
        Instruction::RsubInt16(..) | Instruction::MulInt16(..) | Instruction::DivInt16(..) | 
        Instruction::RemInt16(..) | Instruction::AndInt16(..) | Instruction::OrInt16(..) | 
        Instruction::XorInt16(..) | Instruction::AddInt8(..) | Instruction::RsubInt8(..) | 
        Instruction::MulInt8(..) | Instruction::DivInt8(..) | Instruction::RemInt8(..) | 
        Instruction::AndInt8(..) | Instruction::OrInt8(..) | Instruction::XorInt8(..) | 
        Instruction::ShlInt8(..) | Instruction::ShrInt8(..) | Instruction::UshrInt8(..) => 2,
        Instruction::Move16(..) | Instruction::MoveWide16(..) | Instruction::MoveObject16(..) | 
        Instruction::Const(..) | Instruction::ConstWide32(..) | Instruction::ConstStringJumbo(..) | 
        Instruction::FilledNewArray { .. } | Instruction::FilledNewArrayRange { .. } | 
        Instruction::FillArrayData(..) | Instruction::Goto32(..) | Instruction::PackedSwitch(..) | 
        Instruction::SparseSwitch(..) | Instruction::InvokeVirtual { .. } | 
        Instruction::InvokeSuper { .. } | Instruction::InvokeDirect { .. } | 
        Instruction::InvokeStatic { .. } | Instruction::InvokeInterface { .. } | 
        Instruction::InvokeVirtualRange { .. } | Instruction::InvokeSuperRange { .. } | 
        Instruction::InvokeDirectRange { .. } | Instruction::InvokeStaticRange { .. } | 
        Instruction::InvokeInterfaceRange { .. } => 3,
        Instruction::ConstWide(..) => 5,
    }
}

impl Instruction {
    /// Length in u16 code units needed to encode/decode this instruction.
    pub fn len(&self) -> (r: usize)
        ensures
            r == spec_len(*self),
    {
        match self {
        Instruction::Nop | Instruction::Move(..) | Instruction::MoveWide(..) | 
        Instruction::MoveObject(..) | Instruction::MoveResult(..) | Instruction::MoveResultWide(..) | 
        Instruction::MoveResultObject(..) | Instruction::MoveException(..) | Instruction::ReturnVoid | 
        Instruction::Return(..) | Instruction::ReturnWide(..) | Instruction::ReturnObject(..) | 
        Instruction::Const4(..) | Instruction::MonitorEnter(..) | Instruction::MonitorExit(..) | 
        Instruction::ArrayLength(..) | Instruction::Throw(..) | Instruction::Goto(..) | 
        Instruction::NegInt(..) | Instruction::NotInt(..) | Instruction::NegLong(..) | 
        Instruction::NotLong(..) | Instruction::NegFloat(..) | Instruction::NegDouble(..) | 
        Instruction::IntToLong(..) | Instruction::IntToFloat(..) | Instruction::IntToDouble(..) | 
        Instruction::LongToInt(..) | Instruction::LongToFloat(..) | Instruction::LongToDouble(..) | 
        Instruction::FloatToInt(..) | Instruction::FloatToLong(..) | Instruction::FloatToDouble(..) | 
        Instruction::DoubleToInt(..) | Instruction::DoubleToLong(..) | 
        Instruction::DoubleToFloat(..) | Instruction::IntTobyte(..) | Instruction::IntTochar(..) | 
        Instruction::IntToshort(..) | Instruction::AddInt2(..) | Instruction::SubInt2(..) | 
        Instruction::MulInt2(..) | Instruction::DivInt2(..) | Instruction::RemInt2(..) | 
        Instruction::AndInt2(..) | Instruction::OrInt2(..) | Instruction::XorInt2(..) | 
        Instruction::ShlInt2(..) | Instruction::ShrInt2(..) | Instruction::UShrInt2(..) | 
        Instruction::AddLong2(..) | Instruction::SubLong2(..) | Instruction::MulLong2(..) | 
        Instruction::DivLong2(..) | Instruction::RemLong2(..) | Instruction::AndLong2(..) | 
        Instruction::OrLong2(..) | Instruction::XorLong2(..) | Instruction::ShlLong2(..) | 
        Instruction::ShrLong2(..) | Instruction::UShrLong2(..) | Instruction::AddFloat2(..) | 
        Instruction::SubFloat2(..) | Instruction::MulFloat2(..) | Instruction::DivFloat2(..) | 
        Instruction::RemFloat2(..) | Instruction::AddDouble2(..) | Instruction::SubDouble2(..) | 
        Instruction::MulDouble2(..) | Instruction::DivDouble2(..) | Instruction::RemDouble2(..) => 1,
        Instruction::MoveFrom16(..) | Instruction::MoveWideFrom16(..) | 
        Instruction::MoveObjectFrom16(..) | Instruction::Const16(..) | Instruction::ConstHigh16(..) | 
        Instruction::ConstWide16(..) | Instruction::ConstWideHigh16(..) | 
        Instruction::ConstString(..) | Instruction::ConstClass(..) | Instruction::CheckCast(..) | 
        Instruction::InstanceOf(..) | Instruction::NewInstance(..) | Instruction::NewArray(..) | 
        Instruction::Goto16(..) | Instruction::CmplFloat(..) | Instruction::CmpgFloat(..) | 
        Instruction::CmplDouble(..) | Instruction::CmpgDouble(..) | Instruction::CmpLong(..) | 
        Instruction::IfEq(..) | Instruction::IfNe(..) | Instruction::IfLt(..) | 
        Instruction::IfGe(..) | Instruction::IfGt(..) | Instruction::IfLe(..) | 
        Instruction::IfEqz(..) | Instruction::IfNez(..) | Instruction::IfLtz(..) | 
        Instruction::IfGez(..) | Instruction::IfGtz(..) | Instruction::IfLez(..) | 
        Instruction::AGet(..) | Instruction::AGetWide(..) | Instruction::AGetObject(..) | 
        Instruction::AGetBoolean(..) | Instruction::AGetByte(..) | Instruction::AGetChar(..) | 
        Instruction::AGetShort(..) | Instruction::APut(..) | Instruction::APutWide(..) | 
        Instruction::APutObject(..) | Instruction::APutBoolean(..) | Instruction::APutByte(..) | 
        Instruction::APutChar(..) | Instruction::APutShort(..) | Instruction::IGet(..) | 
        Instruction::IGetWide(..) | Instruction::IGetObject(..) | Instruction::IGetBoolean(..) | 
        Instruction::IGetByte(..) | Instruction::IGetChar(..) | Instruction::IGetShort(..) | 
        Instruction::IPut(..) | Instruction::IPutWide(..) | Instruction::IPutObject(..) | 
        Instruction::IPutBoolean(..) | Instruction::IPutByte(..) | Instruction::IPutChar(..) | 
        Instruction::IPutShort(..) | Instruction::SGet(..) | Instruction::SGetWide(..) | 
        Instruction::SGetObject(..) | Instruction::SGetBoolean(..) | Instruction::SGetByte(..) | 
        Instruction::SGetChar(..) | Instruction::SGetShort(..) | Instruction::SPut(..) | 
        Instruction::SPutWide(..) | Instruction::SPutObject(..) | Instruction::SPutBoolean(..) | 
        Instruction::SPutByte(..) | Instruction::SPutChar(..) | Instruction::SPutShort(..) | 
        Instruction::AddInt(..) | Instruction::SubInt(..) | Instruction::MulInt(..) | 
        Instruction::DivInt(..) | Instruction::RemInt(..) | Instruction::AndInt(..) | 
        Instruction::OrInt(..) | Instruction::XorInt(..) | Instruction::ShlInt(..) | 
        Instruction::ShrInt(..) | Instruction::UshrInt(..) | Instruction::AddLong(..) | 
        Instruction::SubLong(..) | Instruction::MulLong(..) | Instruction::DivLong(..) | 
        Instruction::RemLong(..) | Instruction::AndLong(..) | Instruction::OrLong(..) | 
        Instruction::XorLong(..) | Instruction::ShlLong(..) | Instruction::ShrLong(..) | 
        Instruction::UshrLong(..) | Instruction::AddFloat(..) | Instruction::SubFloat(..) | 
        Instruction::MulFloat(..) | Instruction::DivFloat(..) | Instruction::RemFloat(..) | 
        Instruction::AddDouble(..) | Instruction::SubDouble(..) | Instruction::MulDouble(..) | 
        Instruction::DivDouble(..) | Instruction::RemDouble(..) | Instruction::AddInt16(..) | 
        Instruction::RsubInt16(..) | Instruction::MulInt16(..) | Instruction::DivInt16(..) | 
        Instruction::RemInt16(..) | Instruction::AndInt16(..) | Instruction::OrInt16(..) | 
        Instruction::XorInt16(..) | Instruction::AddInt8(..) | Instruction::RsubInt8(..) | 
        Instruction::MulInt8(..) | Instruction::DivInt8(..) | Instruction::RemInt8(..) | 
        Instruction::AndInt8(..) | Instruction::OrInt8(..) | Instruction::XorInt8(..) | 
        Instruction::ShlInt8(..) | Instruction::ShrInt8(..) | Instruction::UshrInt8(..) => 2,
        Instruction::Move16(..) | Instruction::MoveWide16(..) | Instruction::MoveObject16(..) | 
        Instruction::Const(..) | Instruction::ConstWide32(..) | Instruction::ConstStringJumbo(..) | 
        Instruction::FilledNewArray { .. } | Instruction::FilledNewArrayRange { .. } | 
        Instruction::FillArrayData(..) | Instruction::Goto32(..) | Instruction::PackedSwitch(..) | 
        Instruction::SparseSwitch(..) | Instruction::InvokeVirtual { .. } | 
        Instruction::InvokeSuper { .. } | Instruction::InvokeDirect { .. } | 
        Instruction::InvokeStatic { .. } | Instruction::InvokeInterface { .. } | 
        Instruction::InvokeVirtualRange { .. } | Instruction::InvokeSuperRange { .. } | 
        Instruction::InvokeDirectRange { .. } | Instruction::InvokeStaticRange { .. } | 
        Instruction::InvokeInterfaceRange { .. } => 3,
        Instruction::ConstWide(..) => 5,
        }
    }
}

/// Helper to consume a u16 and advance the slice.
fn consume_u16(bytecode: &mut &[u16]) -> (r: Result<u16, Error>)
    ensures
        old(bytecode)@.len() == 0 ==> (r == Err::<u16, Error>(Error::Truncated)
            && final(bytecode)@ =~= old(bytecode)@),
        old(bytecode)@.len() >= 1 ==> (r == Ok::<u16, Error>(old(bytecode)@[0])
            && final(bytecode)@ =~= old(bytecode)@.skip(1)),
{
    let cur: &[u16] = *bytecode;
    if cur.len() < 1 {
        return Err(Error::Truncated);
    }
    let a = cur[0];
    *bytecode = slice_subrange(cur, 1, cur.len());
    Ok(a)
}

/// Helper to consume a u32 stored as two code units, low unit first, and
/// advance the slice.
fn consume_u32(bytecode: &mut &[u16]) -> (r: Result<u32, Error>)
    ensures
        old(bytecode)@.len() < 2 ==> (r == Err::<u32, Error>(Error::Truncated)
            && final(bytecode)@ =~= old(bytecode)@),
        old(bytecode)@.len() >= 2 ==> (r == Ok::<u32, Error>(
            ((old(bytecode)@[1] as u32) << 16) | (old(bytecode)@[0] as u32),
        ) && final(bytecode)@ =~= old(bytecode)@.skip(2)),
{
    let cur: &[u16] = *bytecode;
    if cur.len() < 2 {
        return Err(Error::Truncated);
    }
    let al = cur[0];
    let ah = cur[1];
    *bytecode = slice_subrange(cur, 2, cur.len());
    Ok(((ah as u32) << 16) | (al as u32))
}

/// `AA|op`: returns `AA`. Decodes formats 11x, 10t.
fn aa_op(bytecode: &mut &[u16]) -> (r: Result<u8, Error>)
    ensures
        old(bytecode)@.len() == 0 ==> (r == Err::<u8, Error>(Error::Truncated)
            && final(bytecode)@ =~= old(bytecode)@),
        old(bytecode)@.len() >= 1 ==> (r == Ok::<u8, Error>(aa_of(old(bytecode)@))
            && final(bytecode)@ =~= old(bytecode)@.skip(1)),
{
    let cur: &[u16] = *bytecode;
    if cur.len() < 1 {
        return Err(Error::Truncated);
    }
    let a = cur[0];
    *bytecode = slice_subrange(cur, 1, cur.len());
    Ok((a >> 8) as u8)
}

/// `B|A|op`: returns `(B, A)`. Decodes format 12x.
fn ba_op(bytecode: &mut &[u16]) -> (r: Result<(u8, u8), Error>)
    ensures
        old(bytecode)@.len() == 0 ==> (r == Err::<(u8, u8), Error>(Error::Truncated)
            && final(bytecode)@ =~= old(bytecode)@),
        old(bytecode)@.len() >= 1 ==> (r == Ok::<(u8, u8), Error>(
            (nib_b_of(old(bytecode)@), nib_a_of(old(bytecode)@)),
        ) && final(bytecode)@ =~= old(bytecode)@.skip(1)),
{
    let ab = aa_op(bytecode)?;
    let b = ab >> 4;
    let a = ab & 0xf;
    Ok((b, a))
}

/// `|op`: returns `()`, rejecting a nonzero `AA` byte. Decodes format 10x.
fn zz_op(bytecode: &mut &[u16]) -> (r: Result<(), Error>)
    ensures
        old(bytecode)@.len() == 0 ==> (r == Err::<(), Error>(Error::Truncated)
            && final(bytecode)@ =~= old(bytecode)@),
        (old(bytecode)@.len() >= 1 && aa_of(old(bytecode)@) != 0) ==> (r == Err::<(), Error>(
            Error::Encoding,
        ) && final(bytecode)@ =~= old(bytecode)@.skip(1)),
        (old(bytecode)@.len() >= 1 && aa_of(old(bytecode)@) == 0) ==> (r == Ok::<(), Error>(())
            && final(bytecode)@ =~= old(bytecode)@.skip(1)),
{
    let aa = aa_op(bytecode)?;
    if aa != 0 {
        return Err(Error::Encoding);
    }
    Ok(())
}

/// `AA|op BBBB`: returns `(AA, BBBB)`. Decodes formats 22x, 21t, 21s, 21h, 21c.
fn aa_op_bbbb(bytecode: &mut &[u16]) -> (r: Result<(u8, u16), Error>)
    ensures
        old(bytecode)@.len() < 2 ==> (r == Err::<(u8, u16), Error>(Error::Truncated)
            && final(bytecode)@ =~= old(bytecode)@),
        old(bytecode)@.len() >= 2 ==> (r == Ok::<(u8, u16), Error>(
            (aa_of(old(bytecode)@), w1_of(old(bytecode)@)),
        ) && final(bytecode)@ =~= old(bytecode)@.skip(2)),
{
    let cur: &[u16] = *bytecode;
    if cur.len() < 2 {
        return Err(Error::Truncated);
    }
    let a = cur[0];
    let bbbb = cur[1];
    *bytecode = slice_subrange(cur, 2, cur.len());
    Ok(((a >> 8) as u8, bbbb))
}

/// `AA|op CC|BB`: returns `(AA, CC, BB)`. Decodes formats 23x, 22b.
fn aa_op_ccbb(bytecode: &mut &[u16]) -> (r: Result<(u8, u8, u8), Error>)
    ensures
        old(bytecode)@.len() < 2 ==> (r == Err::<(u8, u8, u8), Error>(Error::Truncated)
            && final(bytecode)@ =~= old(bytecode)@),
        old(bytecode)@.len() >= 2 ==> (r == Ok::<(u8, u8, u8), Error>(
            (aa_of(old(bytecode)@), cc_of(old(bytecode)@), bb_of(old(bytecode)@)),
        ) && final(bytecode)@ =~= old(bytecode)@.skip(2)),
{
    let (aa, ccbb) = aa_op_bbbb(bytecode)?;
    let cc = (ccbb >> 8) as u8;
    let bb = ccbb as u8;
    Ok((aa, cc, bb))
}

/// `B|A|op CCCC`: returns `(B, A, CCCC)`. Decodes formats 22t, 22s, 22c.
fn ba_op_cccc(bytecode: &mut &[u16]) -> (r: Result<(u8, u8, u16), Error>)
    ensures
        old(bytecode)@.len() < 2 ==> (r == Err::<(u8, u8, u16), Error>(Error::Truncated)
            && final(bytecode)@ =~= old(bytecode)@),
        old(bytecode)@.len() >= 2 ==> (r == Ok::<(u8, u8, u16), Error>(
            (nib_b_of(old(bytecode)@), nib_a_of(old(bytecode)@), w1_of(old(bytecode)@)),
        ) && final(bytecode)@ =~= old(bytecode)@.skip(2)),
{
    let (ba, cccc) = aa_op_bbbb(bytecode)?;
    let b = ba >> 4;
    let a = ba & 0xf;
    Ok((b, a, cccc))
}

/// `|op AAAA`: returns `AAAA`, rejecting a nonzero `AA` byte. Decodes format 20t.
fn zz_op_aaaa(bytecode: &mut &[u16]) -> (r: Result<u16, Error>)
    ensures
        old(bytecode)@.len() < 2 ==> (r == Err::<u16, Error>(Error::Truncated)
            && final(bytecode)@ =~= old(bytecode)@),
        (old(bytecode)@.len() >= 2 && aa_of(old(bytecode)@) != 0) ==> (r == Err::<u16, Error>(
            Error::Encoding,
        ) && final(bytecode)@ =~= old(bytecode)@.skip(2)),
        (old(bytecode)@.len() >= 2 && aa_of(old(bytecode)@) == 0) ==> (r == Ok::<u16, Error>(
            w1_of(old(bytecode)@),
        ) && final(bytecode)@ =~= old(bytecode)@.skip(2)),
{
    let (zz, aaaa) = aa_op_bbbb(bytecode)?;
    if zz != 0 {
        return Err(Error::Encoding);
    }
    Ok(aaaa)
}

/// `AA|op BBBBBBBB`: returns `(AA, BBBBBBBB)`. Decodes formats 31i, 31t, 31c.
fn aa_op_bbbbbbbb(bytecode: &mut &[u16]) -> (r: Result<(u8, u32), Error>)
    ensures
        old(bytecode)@.len() < 3 ==> (r == Err::<(u8, u32), Error>(Error::Truncated)
            && final(bytecode)@ =~= old(bytecode)@),
        old(bytecode)@.len() >= 3 ==> (r == Ok::<(u8, u32), Error>(
            (aa_of(old(bytecode)@), b32_of(old(bytecode)@)),
        ) && final(bytecode)@ =~= old(bytecode)@.skip(3)),
{
    let cur: &[u16] = *bytecode;
    if cur.len() < 3 {
        return Err(Error::Truncated);
    }
    let a = cur[0];
    let bl = cur[1];
    let bh = cur[2];
    *bytecode = slice_subrange(cur, 3, cur.len());
    Ok(((a >> 8) as u8, ((bh as u32) << 16) | (bl as u32)))
}

/// `|op AAAAAAAA`: returns `AAAAAAAA`, rejecting a nonzero `AA` byte.
/// Decodes format 30t.
fn zz_op_aaaaaaaa(bytecode: &mut &[u16]) -> (r: Result<u32, Error>)
    ensures
        old(bytecode)@.len() < 3 ==> (r == Err::<u32, Error>(Error::Truncated)
            && final(bytecode)@ =~= old(bytecode)@),
        (old(bytecode)@.len() >= 3 && aa_of(old(bytecode)@) != 0) ==> (r == Err::<u32, Error>(
            Error::Encoding,
        ) && final(bytecode)@ =~= old(bytecode)@.skip(3)),
        (old(bytecode)@.len() >= 3 && aa_of(old(bytecode)@) == 0) ==> (r == Ok::<u32, Error>(
            b32_of(old(bytecode)@),
        ) && final(bytecode)@ =~= old(bytecode)@.skip(3)),
{
    let (zz, aaaaaaaa) = aa_op_bbbbbbbb(bytecode)?;
    if zz != 0 {
        return Err(Error::Encoding);
    }
    Ok(aaaaaaaa)
}

/// `AA|op CCCC BBBB`: returns `(AA, BBBB, CCCC)`. Decodes format 3rc.
///
/// The "Dalvik executable instruction formats" manual documents this layout
/// as `AA|op BBBB|CCCC`; the actual unit order is count, `BBBB` index,
/// `CCCC` range start.
fn aa_op_ccccbbbb(bytecode: &mut &[u16]) -> (r: Result<(u8, u16, u16), Error>)
    ensures
        old(bytecode)@.len() < 3 ==> (r == Err::<(u8, u16, u16), Error>(Error::Truncated)
            && final(bytecode)@ =~= old(bytecode)@),
        old(bytecode)@.len() >= 3 ==> (r == Ok::<(u8, u16, u16), Error>(
            (aa_of(old(bytecode)@), bbbb3_of(old(bytecode)@), cccc3_of(old(bytecode)@)),
        ) && final(bytecode)@ =~= old(bytecode)@.skip(3)),
{
    let (aa, ccccbbbb) = aa_op_bbbbbbbb(bytecode)?;
    let cccc = (ccccbbbb >> 16) as u16;
    let bbbb = ccccbbbb as u16;
    Ok((aa, bbbb, cccc))
}

/// `A|G|op BBBB F|E|D|C`: returns `(A, G, BBBB, F, E, D, C)`. Decodes format 35c.
fn ag_op_bbbbfedc(bytecode: &mut &[u16]) -> (r: Result<(u8, u8, u16, u8, u8, u8, u8), Error>)
    ensures
        old(bytecode)@.len() < 3 ==> (r == Err::<(u8, u8, u16, u8, u8, u8, u8), Error>(
            Error::Truncated,
        ) && final(bytecode)@ =~= old(bytecode)@),
        old(bytecode)@.len() >= 3 ==> (r == Ok::<(u8, u8, u16, u8, u8, u8, u8), Error>(
            (
                a35_of(old(bytecode)@),
                g_of(old(bytecode)@),
                w1_of(old(bytecode)@),
                f_of(old(bytecode)@),
                e_of(old(bytecode)@),
                d_of(old(bytecode)@),
                c_of(old(bytecode)@),
            ),
        ) && final(bytecode)@ =~= old(bytecode)@.skip(3)),
{
    let cur: &[u16] = *bytecode;
    if cur.len() < 3 {
        return Err(Error::Truncated);
    }
    let agop = cur[0];
    let bbbb = cur[1];
    let fedc = cur[2];
    *bytecode = slice_subrange(cur, 3, cur.len());
    let a = ((agop >> 12) & 0xf) as u8;
    let g = ((agop >> 8) & 0xf) as u8;
    let f = ((fedc >> 12) & 0xf) as u8;
    let e = ((fedc >> 8) & 0xf) as u8;
    let d = ((fedc >> 4) & 0xf) as u8;
    let c = (fedc & 0xf) as u8;
    Ok((a, g, bbbb, f, e, d, c))
}

/// `|op AAAA BBBB`: returns `(AAAA, BBBB)`, rejecting a nonzero `AA` byte.
/// Decodes format 32x.
fn zz_op_aaaabbbb(bytecode: &mut &[u16]) -> (r: Result<(u16, u16), Error>)
    ensures
        old(bytecode)@.len() < 3 ==> (r == Err::<(u16, u16), Error>(Error::Truncated)
            && final(bytecode)@ =~= old(bytecode)@),
        (old(bytecode)@.len() >= 3 && aa_of(old(bytecode)@) != 0) ==> (r == Err::<
            (u16, u16),
            Error,
        >(Error::Encoding) && final(bytecode)@ =~= old(bytecode)@.skip(3)),
        (old(bytecode)@.len() >= 3 && aa_of(old(bytecode)@) == 0) ==> (r == Ok::<(u16, u16), Error>(
            (bbbb3_of(old(bytecode)@), cccc3_of(old(bytecode)@)),
        ) && final(bytecode)@ =~= old(bytecode)@.skip(3)),
{
    let (zz, aaaa, bbbb) = aa_op_ccccbbbb(bytecode)?;
    if zz != 0 {
        return Err(Error::Encoding);
    }
    Ok((aaaa, bbbb))
}

/// `AA|op BBBB BBBB BBBB BBBB`: returns `(AA, B..B)`. Decodes format 51l.
fn aa_op_bbbbbbbbbbbbbbbb(bytecode: &mut &[u16]) -> (r: Result<(u8, u64), Error>)
    ensures
        old(bytecode)@.len() < 5 ==> (r == Err::<(u8, u64), Error>(Error::Truncated)
            && final(bytecode)@ =~= old(bytecode)@),
        old(bytecode)@.len() >= 5 ==> (r == Ok::<(u8, u64), Error>(
            (aa_of(old(bytecode)@), b64_of(old(bytecode)@)),
        ) && final(bytecode)@ =~= old(bytecode)@.skip(5)),
{
    let cur: &[u16] = *bytecode;
    if cur.len() < 5 {
        return Err(Error::Truncated);
    }
    let aa = cur[0];
    let b0 = cur[1];
    let b1 = cur[2];
    let b2 = cur[3];
    let b3 = cur[4];
    *bytecode = slice_subrange(cur, 5, cur.len());
    let b = ((b3 as u64) << 48) | ((b2 as u64) << 32) | ((b1 as u64) << 16) | (b0 as u64);
    Ok(((aa >> 8) as u8, b))
}

/// The register list `CCCC .. CCCC+AA-1` of a range instruction, rejecting a
/// range that would run past the 16-bit register space.
fn range_regs(start: u16, count: u8) -> (r: Result<Vec<u16>, Error>)
    ensures
        start as int + count as int <= 0x10000 ==> (r matches Ok(v) && v@ =~= Seq::new(
            count as nat,
            |k: int| (start + k) as u16,
        )),
        start as int + count as int > 0x10000 ==> r == Err::<Vec<u16>, Error>(Error::Encoding),
{
    if (start as u32) + (count as u32) > 0x10000 {
        return Err(Error::Encoding);
    }
    let mut args: Vec<u16> = Vec::new();
    let mut k: usize = 0;
    while k < count as usize
        invariant
            k <= count as int,
            start as int + count as int <= 0x10000,
            args@ =~= Seq::new(k as nat, |j: int| (start + j) as u16),
        decreases count as int - k,
    {
        args.push(start + (k as u16));
        k += 1;
    }
    Ok(args)
}
fn decode_moves_returns(bytecode: &mut &[u16]) -> (r: Result<Instruction, Error>)
    requires
        old(bytecode)@.len() >= 1,
        op_of(old(bytecode)@) <= 0x11,
    ensures
        (r matches Ok(i) ==> spec_step(old(bytecode)@) is Ok && instr_matches(old(bytecode)@, i)
            && final(bytecode)@ =~= old(bytecode)@.skip(spec_step(old(bytecode)@)->Ok_0 as int)),
        (r matches Err(e) ==> spec_step(old(bytecode)@) == Err::<usize, Error>(e)
            && final(bytecode)@ =~= old(bytecode)@),
{
    let mut cur: &[u16] = *bytecode;
    let op = #[verifier::truncate] (cur[0] as u8);
    let inst = match op {
            0x00 => {
                let sel = aa_op(&mut cur)?;
                match sel {
                    0x00 => Instruction::Nop,
                    0x01 => {
                        let size = consume_u16(&mut cur)?;
                        let _first_key = consume_u32(&mut cur)?;
                        let num_codes = 2 * (size as usize);
                        if cur.len() < num_codes {
                            return Err(Error::Truncated);
                        }
                        return Err(Error::Metadata { length: 4 + num_codes });
                    }
                    0x02 => {
                        let size = consume_u16(&mut cur)?;
                        let num_codes = 4 * (size as usize);
                        if cur.len() < num_codes {
                            return Err(Error::Truncated);
                        }
                        return Err(Error::Metadata { length: 2 + num_codes });
                    }
                    0x03 => {
                        let element_width = consume_u16(&mut cur)?;
                        let size = consume_u32(&mut cur)?;
                        proof {
                            vstd::arithmetic::mul::lemma_mul_upper_bound(
                                element_width as int,
                                0xffff,
                                size as int,
                                0xffff_ffff,
                            );
                        }
                        let data_units = ((element_width as u64) * (size as u64) + 1) / 2;
                        if (cur.len() as u64) < data_units {
                            return Err(Error::Truncated);
                        }
                        return Err(Error::Metadata { length: 4 + (data_units as usize) });
                    }
                    _ => {
                        return Err(Error::Encoding);
                    }
                }
            }
            0x01 => {
                let (src, dst) = ba_op(&mut cur)?;
                Instruction::Move(dst, src)
            }
            0x02 => {
                let (dst, val) = aa_op_bbbb(&mut cur)?;
                Instruction::MoveFrom16(dst, val)
            }
            0x03 => {
                let (dst, src) = zz_op_aaaabbbb(&mut cur)?;
                Instruction::Move16(dst, src)
            }
            0x04 => {
                let (src, dst) = ba_op(&mut cur)?;
                Instruction::MoveWide(dst, src)
            }
            0x05 => {
                let (dst, val) = aa_op_bbbb(&mut cur)?;
                Instruction::MoveWideFrom16(dst, val)
            }
            0x06 => {
                let (dst, src) = zz_op_aaaabbbb(&mut cur)?;
                Instruction::MoveWide16(dst, src)
            }
            0x07 => {
                let (src, dst) = ba_op(&mut cur)?;
                Instruction::MoveObject(dst, src)
            }
            0x08 => {
                let (dst, val) = aa_op_bbbb(&mut cur)?;
                Instruction::MoveObjectFrom16(dst, val)
            }
            0x09 => {
                let (dst, src) = zz_op_aaaabbbb(&mut cur)?;
                Instruction::MoveObject16(dst, src)
            }
            0x0a => {
                let reg = aa_op(&mut cur)?;
                Instruction::MoveResult(reg)
            }
            0x0b => {
                let reg = aa_op(&mut cur)?;
                Instruction::MoveResultWide(reg)
            }
            0x0c => {
                let reg = aa_op(&mut cur)?;
                Instruction::MoveResultObject(reg)
            }
            0x0d => {
                let reg = aa_op(&mut cur)?;
                Instruction::MoveException(reg)
            }
            0x0e => {
                zz_op(&mut cur)?;
                Instruction::ReturnVoid
            }
            0x0f => {
                let reg = aa_op(&mut cur)?;
                Instruction::Return(reg)
            }
            0x10 => {
                let reg = aa_op(&mut cur)?;
                Instruction::ReturnWide(reg)
            }
            0x11 => {
                let reg = aa_op(&mut cur)?;
                Instruction::ReturnObject(reg)
            }
            _ => {
                return Err(Error::Encoding);
            }
        };
    *bytecode = cur;
    Ok(inst)
}

fn decode_consts(bytecode: &mut &[u16]) -> (r: Result<Instruction, Error>)
    requires
        old(bytecode)@.len() >= 1,
        op_of(old(bytecode)@) >= 0x12,
        op_of(old(bytecode)@) <= 0x2c,
    ensures
        (r matches Ok(i) ==> spec_step(old(bytecode)@) is Ok && instr_matches(old(bytecode)@, i)
            && final(bytecode)@ =~= old(bytecode)@.skip(spec_step(old(bytecode)@)->Ok_0 as int)),
        (r matches Err(e) ==> spec_step(old(bytecode)@) == Err::<usize, Error>(e)
            && final(bytecode)@ =~= old(bytecode)@),
{
    let mut cur: &[u16] = *bytecode;
    let op = #[verifier::truncate] (cur[0] as u8);
    let inst = match op {
            0x12 => {
                let (mut src, dst) = ba_op(&mut cur)?;
                if src & 0b1000 > 0 {
                    src = src | 0xf0;
                }
                Instruction::Const4(dst, src as i8)
            }
            0x13 => {
                let (dst, val) = aa_op_bbbb(&mut cur)?;
                Instruction::Const16(dst, val as i16)
            }
            0x14 => {
                let (dst, val) = aa_op_bbbbbbbb(&mut cur)?;
                Instruction::Const(dst, val)
            }
            0x15 => {
                let (dst, val) = aa_op_bbbb(&mut cur)?;
                Instruction::ConstHigh16(dst, val as i16)
            }
            0x16 => {
                let (dst, val) = aa_op_bbbb(&mut cur)?;
                Instruction::ConstWide16(dst, val as i16)
            }
            0x17 => {
                let (dst, val) = aa_op_bbbbbbbb(&mut cur)?;
                Instruction::ConstWide32(dst, val)
            }
            0x18 => {
                let (dst, val) = aa_op_bbbbbbbbbbbbbbbb(&mut cur)?;
                Instruction::ConstWide(dst, val)
            }
            0x19 => {
                let (dst, val) = aa_op_bbbb(&mut cur)?;
                Instruction::ConstWideHigh16(dst, val)
            }
            0x1a => {
                let (dst, val) = aa_op_bbbb(&mut cur)?;
                Instruction::ConstString(dst, val)
            }
            0x1b => {
                let (dst, val) = aa_op_bbbbbbbb(&mut cur)?;
                Instruction::ConstStringJumbo(dst, val)
            }
            0x1c => {
                let (dst, val) = aa_op_bbbb(&mut cur)?;
                Instruction::ConstClass(dst, val)
            }
            0x1d => {
                let reg = aa_op(&mut cur)?;
                Instruction::MonitorEnter(reg)
            }
            0x1e => {
                let reg = aa_op(&mut cur)?;
                Instruction::MonitorExit(reg)
            }
            0x1f => {
                let (dst, val) = aa_op_bbbb(&mut cur)?;
                Instruction::CheckCast(dst, val)
            }
            0x20 => {
                let (b, a, val) = ba_op_cccc(&mut cur)?;
                Instruction::InstanceOf(a, b, val)
            }
            0x21 => {
                let (dst, src) = ba_op(&mut cur)?;
                Instruction::ArrayLength(dst, src)
            }
            0x22 => {
                let (dst, val) = aa_op_bbbb(&mut cur)?;
                Instruction::NewInstance(dst, val)
            }
            0x23 => {
                let (b, a, val) = ba_op_cccc(&mut cur)?;
                Instruction::NewArray(a, b, val)
            }
            0x24 => {
                let (nargs, g, idx, f, e, d, c) = ag_op_bbbbfedc(&mut cur)?;
                if nargs > 5 {
                    return Err(Error::Encoding);
                }
                let args = [c, d, e, f, g];
                Instruction::FilledNewArray { ty: idx, nargs, args }
            }
            0x25 => {
                let (count, idx, start) = aa_op_ccccbbbb(&mut cur)?;
                let args = range_regs(start, count)?;
                Instruction::FilledNewArrayRange { ty: idx, args }
            }
            0x26 => {
                let (dst, val) = aa_op_bbbbbbbb(&mut cur)?;
                Instruction::FillArrayData(dst, val as i32)
            }
            0x27 => {
                let reg = aa_op(&mut cur)?;
                Instruction::Throw(reg)
            }
            0x28 => {
                let off = aa_op(&mut cur)?;
                Instruction::Goto(off as i8)
            }
            0x29 => {
                let off = zz_op_aaaa(&mut cur)?;
                Instruction::Goto16(off as i16)
            }
            0x2a => {
                let off = zz_op_aaaaaaaa(&mut cur)?;
                Instruction::Goto32(off as i32)
            }
            0x2b => {
                let (dst, val) = aa_op_bbbbbbbb(&mut cur)?;
                Instruction::PackedSwitch(dst, val as i32)
            }
            0x2c => {
                let (dst, val) = aa_op_bbbbbbbb(&mut cur)?;
                Instruction::SparseSwitch(dst, val as i32)
            }
            _ => {
                return Err(Error::Encoding);
            }
        };
    *bytecode = cur;
    Ok(inst)
}

fn decode_branches_arrays(bytecode: &mut &[u16]) -> (r: Result<Instruction, Error>)
    requires
        old(bytecode)@.len() >= 1,
        op_of(old(bytecode)@) >= 0x2d,
        op_of(old(bytecode)@) <= 0x51,
    ensures
        (r matches Ok(i) ==> spec_step(old(bytecode)@) is Ok && instr_matches(old(bytecode)@, i)
            && final(bytecode)@ =~= old(bytecode)@.skip(spec_step(old(bytecode)@)->Ok_0 as int)),
        (r matches Err(e) ==> spec_step(old(bytecode)@) == Err::<usize, Error>(e)
            && final(bytecode)@ =~= old(bytecode)@),
{
    let mut cur: &[u16] = *bytecode;
    let op = #[verifier::truncate] (cur[0] as u8);
    let inst = match op {
            0x2d => {
                let (dst, src2, src1) = aa_op_ccbb(&mut cur)?;
                Instruction::CmplFloat(dst, src1, src2)
            }
            0x2e => {
                let (dst, src2, src1) = aa_op_ccbb(&mut cur)?;
                Instruction::CmpgFloat(dst, src1, src2)
            }
            0x2f => {
                let (dst, src2, src1) = aa_op_ccbb(&mut cur)?;
                Instruction::CmplDouble(dst, src1, src2)
            }
            0x30 => {
                let (dst, src2, src1) = aa_op_ccbb(&mut cur)?;
                Instruction::CmpgDouble(dst, src1, src2)
            }
            0x31 => {
                let (dst, src2, src1) = aa_op_ccbb(&mut cur)?;
                Instruction::CmpLong(dst, src1, src2)
            }
            0x32 => {
                let (b, a, val) = ba_op_cccc(&mut cur)?;
                Instruction::IfEq(a, b, val as i16)
            }
            0x33 => {
                let (b, a, val) = ba_op_cccc(&mut cur)?;
                Instruction::IfNe(a, b, val as i16)
            }
            0x34 => {
                let (b, a, val) = ba_op_cccc(&mut cur)?;
                Instruction::IfLt(a, b, val as i16)
            }
            0x35 => {
                let (b, a, val) = ba_op_cccc(&mut cur)?;
                Instruction::IfGe(a, b, val as i16)
            }
            0x36 => {
                let (b, a, val) = ba_op_cccc(&mut cur)?;
                Instruction::IfGt(a, b, val as i16)
            }
            0x37 => {
                let (b, a, val) = ba_op_cccc(&mut cur)?;
                Instruction::IfLe(a, b, val as i16)
            }
            0x38 => {
                let (dst, val) = aa_op_bbbb(&mut cur)?;
                Instruction::IfEqz(dst, val as i16)
            }
            0x39 => {
                let (dst, val) = aa_op_bbbb(&mut cur)?;
                Instruction::IfNez(dst, val as i16)
            }
            0x3a => {
                let (dst, val) = aa_op_bbbb(&mut cur)?;
                Instruction::IfLtz(dst, val as i16)
            }
            0x3b => {
                let (dst, val) = aa_op_bbbb(&mut cur)?;
                Instruction::IfGez(dst, val as i16)
            }
            0x3c => {
                let (dst, val) = aa_op_bbbb(&mut cur)?;
                Instruction::IfGtz(dst, val as i16)
            }
            0x3d => {
                let (dst, val) = aa_op_bbbb(&mut cur)?;
                Instruction::IfLez(dst, val as i16)
            }
            0x44 => {
                let (dst, src2, src1) = aa_op_ccbb(&mut cur)?;
                Instruction::AGet(dst, src1, src2)
            }
            0x45 => {
                let (dst, src2, src1) = aa_op_ccbb(&mut cur)?;
                Instruction::AGetWide(dst, src1, src2)
            }
            0x46 => {
                let (dst, src2, src1) = aa_op_ccbb(&mut cur)?;
                Instruction::AGetObject(dst, src1, src2)
            }
            0x47 => {
                let (dst, src2, src1) = aa_op_ccbb(&mut cur)?;
                Instruction::AGetBoolean(dst, src1, src2)
            }
            0x48 => {
                let (dst, src2, src1) = aa_op_ccbb(&mut cur)?;
                Instruction::AGetByte(dst, src1, src2)
            }
            0x49 => {
                let (dst, src2, src1) = aa_op_ccbb(&mut cur)?;
                Instruction::AGetChar(dst, src1, src2)
            }
            0x4a => {
                let (dst, src2, src1) = aa_op_ccbb(&mut cur)?;
                Instruction::AGetShort(dst, src1, src2)
            }
            0x4b => {
                let (dst, src2, src1) = aa_op_ccbb(&mut cur)?;
                Instruction::APut(dst, src1, src2)
            }
            0x4c => {
                let (dst, src2, src1) = aa_op_ccbb(&mut cur)?;
                Instruction::APutWide(dst, src1, src2)
            }
            0x4d => {
                let (dst, src2, src1) = aa_op_ccbb(&mut cur)?;
                Instruction::APutObject(dst, src1, src2)
            }
            0x4e => {
                let (dst, src2, src1) = aa_op_ccbb(&mut cur)?;
                Instruction::APutBoolean(dst, src1, src2)
            }
            0x4f => {
                let (dst, src2, src1) = aa_op_ccbb(&mut cur)?;
                Instruction::APutByte(dst, src1, src2)
            }
            0x50 => {
                let (dst, src2, src1) = aa_op_ccbb(&mut cur)?;
                Instruction::APutChar(dst, src1, src2)
            }
            0x51 => {
                let (dst, src2, src1) = aa_op_ccbb(&mut cur)?;
                Instruction::APutShort(dst, src1, src2)
            }
            _ => {
                return Err(Error::Encoding);
            }
        };
    *bytecode = cur;
    Ok(inst)
}

fn decode_fields(bytecode: &mut &[u16]) -> (r: Result<Instruction, Error>)
    requires
        old(bytecode)@.len() >= 1,
        op_of(old(bytecode)@) >= 0x52,
        op_of(old(bytecode)@) <= 0x6d,
    ensures
        (r matches Ok(i) ==> spec_step(old(bytecode)@) is Ok && instr_matches(old(bytecode)@, i)
            && final(bytecode)@ =~= old(bytecode)@.skip(spec_step(old(bytecode)@)->Ok_0 as int)),
        (r matches Err(e) ==> spec_step(old(bytecode)@) == Err::<usize, Error>(e)
            && final(bytecode)@ =~= old(bytecode)@),
{
    let mut cur: &[u16] = *bytecode;
    let op = #[verifier::truncate] (cur[0] as u8);
    let inst = match op {
            0x52 => {
                let (b, a, val) = ba_op_cccc(&mut cur)?;
                Instruction::IGet(a, b, val)
            }
            0x53 => {
                let (b, a, val) = ba_op_cccc(&mut cur)?;
                Instruction::IGetWide(a, b, val)
            }
            0x54 => {
                let (b, a, val) = ba_op_cccc(&mut cur)?;
                Instruction::IGetObject(a, b, val)
            }
            0x55 => {
                let (b, a, val) = ba_op_cccc(&mut cur)?;
                Instruction::IGetBoolean(a, b, val)
            }
            0x56 => {
                let (b, a, val) = ba_op_cccc(&mut cur)?;
                Instruction::IGetByte(a, b, val)
            }
            0x57 => {
                let (b, a, val) = ba_op_cccc(&mut cur)?;
                Instruction::IGetChar(a, b, val)
            }
            0x58 => {
                let (b, a, val) = ba_op_cccc(&mut cur)?;
                Instruction::IGetShort(a, b, val)
            }
            0x59 => {
                let (b, a, val) = ba_op_cccc(&mut cur)?;
                Instruction::IPut(a, b, val)
            }
            0x5a => {
                let (b, a, val) = ba_op_cccc(&mut cur)?;
                Instruction::IPutWide(a, b, val)
            }
            0x5b => {
                let (b, a, val) = ba_op_cccc(&mut cur)?;
                Instruction::IPutObject(a, b, val)
            }
            0x5c => {
                let (b, a, val) = ba_op_cccc(&mut cur)?;
                Instruction::IPutBoolean(a, b, val)
            }
            0x5d => {
                let (b, a, val) = ba_op_cccc(&mut cur)?;
                Instruction::IPutByte(a, b, val)
            }
            0x5e => {
                let (b, a, val) = ba_op_cccc(&mut cur)?;
                Instruction::IPutChar(a, b, val)
            }
            0x5f => {
                let (b, a, val) = ba_op_cccc(&mut cur)?;
                Instruction::IPutShort(a, b, val)
            }
            0x60 => {
                let (dst, val) = aa_op_bbbb(&mut cur)?;
                Instruction::SGet(dst, val)
            }
            0x61 => {
                let (dst, val) = aa_op_bbbb(&mut cur)?;
                Instruction::SGetWide(dst, val)
            }
            0x62 => {
                let (dst, val) = aa_op_bbbb(&mut cur)?;
                Instruction::SGetObject(dst, val)
            }
            0x63 => {
                let (dst, val) = aa_op_bbbb(&mut cur)?;
                Instruction::SGetBoolean(dst, val)
            }
            0x64 => {
                let (dst, val) = aa_op_bbbb(&mut cur)?;
                Instruction::SGetByte(dst, val)
            }
            0x65 => {
                let (dst, val) = aa_op_bbbb(&mut cur)?;
                Instruction::SGetChar(dst, val)
            }
            0x66 => {
                let (dst, val) = aa_op_bbbb(&mut cur)?;
                Instruction::SGetShort(dst, val)
            }
            0x67 => {
                let (dst, val) = aa_op_bbbb(&mut cur)?;
                Instruction::SPut(dst, val)
            }
            0x68 => {
                let (dst, val) = aa_op_bbbb(&mut cur)?;
                Instruction::SPutWide(dst, val)
            }
            0x69 => {
                let (dst, val) = aa_op_bbbb(&mut cur)?;
                Instruction::SPutObject(dst, val)
            }
            0x6a => {
                let (dst, val) = aa_op_bbbb(&mut cur)?;
                Instruction::SPutBoolean(dst, val)
            }
            0x6b => {
                let (dst, val) = aa_op_bbbb(&mut cur)?;
                Instruction::SPutByte(dst, val)
            }
            0x6c => {
                let (dst, val) = aa_op_bbbb(&mut cur)?;
                Instruction::SPutChar(dst, val)
            }
            0x6d => {
                let (dst, val) = aa_op_bbbb(&mut cur)?;
                Instruction::SPutShort(dst, val)
            }
            _ => {
                return Err(Error::Encoding);
            }
        };
    *bytecode = cur;
    Ok(inst)
}

fn decode_invokes_unary(bytecode: &mut &[u16]) -> (r: Result<Instruction, Error>)
    requires
        old(bytecode)@.len() >= 1,
        op_of(old(bytecode)@) >= 0x6e,
        op_of(old(bytecode)@) <= 0x8f,
    ensures
        (r matches Ok(i) ==> spec_step(old(bytecode)@) is Ok && instr_matches(old(bytecode)@, i)
            && final(bytecode)@ =~= old(bytecode)@.skip(spec_step(old(bytecode)@)->Ok_0 as int)),
        (r matches Err(e) ==> spec_step(old(bytecode)@) == Err::<usize, Error>(e)
            && final(bytecode)@ =~= old(bytecode)@),
{
    let mut cur: &[u16] = *bytecode;
    let op = #[verifier::truncate] (cur[0] as u8);
    let inst = match op {
            0x6e => {
                let (nargs, g, idx, f, e, d, c) = ag_op_bbbbfedc(&mut cur)?;
                if nargs > 5 {
                    return Err(Error::Encoding);
                }
                let args = [c, d, e, f, g];
                Instruction::InvokeVirtual { method: idx, nargs, args }
            }
            0x6f => {
                let (nargs, g, idx, f, e, d, c) = ag_op_bbbbfedc(&mut cur)?;
                if nargs > 5 {
                    return Err(Error::Encoding);
                }
                let args = [c, d, e, f, g];
                Instruction::InvokeSuper { method: idx, nargs, args }
            }
            0x70 => {
                let (nargs, g, idx, f, e, d, c) = ag_op_bbbbfedc(&mut cur)?;
                if nargs > 5 {
                    return Err(Error::Encoding);
                }
                let args = [c, d, e, f, g];
                Instruction::InvokeDirect { method: idx, nargs, args }
            }
            0x71 => {
                let (nargs, g, idx, f, e, d, c) = ag_op_bbbbfedc(&mut cur)?;
                if nargs > 5 {
                    return Err(Error::Encoding);
                }
                let args = [c, d, e, f, g];
                Instruction::InvokeStatic { method: idx, nargs, args }
            }
            0x72 => {
                let (nargs, g, idx, f, e, d, c) = ag_op_bbbbfedc(&mut cur)?;
                if nargs > 5 {
                    return Err(Error::Encoding);
                }
                let args = [c, d, e, f, g];
                Instruction::InvokeInterface { method: idx, nargs, args }
            }
            0x74 => {
                let (count, idx, start) = aa_op_ccccbbbb(&mut cur)?;
                let args = range_regs(start, count)?;
                Instruction::InvokeVirtualRange { method: idx, args }
            }
            0x75 => {
                let (count, idx, start) = aa_op_ccccbbbb(&mut cur)?;
                let args = range_regs(start, count)?;
                Instruction::InvokeSuperRange { method: idx, args }
            }
            0x76 => {
                let (count, idx, start) = aa_op_ccccbbbb(&mut cur)?;
                let args = range_regs(start, count)?;
                Instruction::InvokeDirectRange { method: idx, args }
            }
            0x77 => {
                let (count, idx, start) = aa_op_ccccbbbb(&mut cur)?;
                let args = range_regs(start, count)?;
                Instruction::InvokeStaticRange { method: idx, args }
            }
            0x78 => {
                let (count, idx, start) = aa_op_ccccbbbb(&mut cur)?;
                let args = range_regs(start, count)?;
                Instruction::InvokeInterfaceRange { method: idx, args }
            }
            0x7b => {
                let (src, dst) = ba_op(&mut cur)?;
                Instruction::NegInt(dst, src)
            }
            0x7c => {
                let (src, dst) = ba_op(&mut cur)?;
                Instruction::NotInt(dst, src)
            }
            0x7d => {
                let (src, dst) = ba_op(&mut cur)?;
                Instruction::NegLong(dst, src)
            }
            0x7e => {
                let (src, dst) = ba_op(&mut cur)?;
                Instruction::NotLong(dst, src)
            }
            0x7f => {
                let (src, dst) = ba_op(&mut cur)?;
                Instruction::NegFloat(dst, src)
            }
            0x80 => {
                let (src, dst) = ba_op(&mut cur)?;
                Instruction::NegDouble(dst, src)
            }
            0x81 => {
                let (src, dst) = ba_op(&mut cur)?;
                Instruction::IntToLong(dst, src)
            }
            0x82 => {
                let (src, dst) = ba_op(&mut cur)?;
                Instruction::IntToFloat(dst, src)
            }
            0x83 => {
                let (src, dst) = ba_op(&mut cur)?;
                Instruction::IntToDouble(dst, src)
            }
            0x84 => {
                let (src, dst) = ba_op(&mut cur)?;
                Instruction::LongToInt(dst, src)
            }
            0x85 => {
                let (src, dst) = ba_op(&mut cur)?;
                Instruction::LongToFloat(dst, src)
            }
            0x86 => {
                let (src, dst) = ba_op(&mut cur)?;
                Instruction::LongToDouble(dst, src)
            }
            0x87 => {
                let (src, dst) = ba_op(&mut cur)?;
                Instruction::FloatToInt(dst, src)
            }
            0x88 => {
                let (src, dst) = ba_op(&mut cur)?;
                Instruction::FloatToLong(dst, src)
            }
            0x89 => {
                let (src, dst) = ba_op(&mut cur)?;
                Instruction::FloatToDouble(dst, src)
            }
            0x8a => {
                let (src, dst) = ba_op(&mut cur)?;
                Instruction::DoubleToInt(dst, src)
            }
            0x8b => {
                let (src, dst) = ba_op(&mut cur)?;
                Instruction::DoubleToLong(dst, src)
            }
            0x8c => {
                let (src, dst) = ba_op(&mut cur)?;
                Instruction::DoubleToFloat(dst, src)
            }
            0x8d => {
                let (src, dst) = ba_op(&mut cur)?;
                Instruction::IntTobyte(dst, src)
            }
            0x8e => {
                let (src, dst) = ba_op(&mut cur)?;
                Instruction::IntTochar(dst, src)
            }
            0x8f => {
                let (src, dst) = ba_op(&mut cur)?;
                Instruction::IntToshort(dst, src)
            }
            _ => {
                return Err(Error::Encoding);
            }
        };
    *bytecode = cur;
    Ok(inst)
}

fn decode_binops(bytecode: &mut &[u16]) -> (r: Result<Instruction, Error>)
    requires
        old(bytecode)@.len() >= 1,
        op_of(old(bytecode)@) >= 0x90,
        op_of(old(bytecode)@) <= 0xbf,
    ensures
        (r matches Ok(i) ==> spec_step(old(bytecode)@) is Ok && instr_matches(old(bytecode)@, i)
            && final(bytecode)@ =~= old(bytecode)@.skip(spec_step(old(bytecode)@)->Ok_0 as int)),
        (r matches Err(e) ==> spec_step(old(bytecode)@) == Err::<usize, Error>(e)
            && final(bytecode)@ =~= old(bytecode)@),
{
    let mut cur: &[u16] = *bytecode;
    let op = #[verifier::truncate] (cur[0] as u8);
    let inst = match op {
            0x90 => {
                let (dst, src2, src1) = aa_op_ccbb(&mut cur)?;
                Instruction::AddInt(dst, src1, src2)
            }
            0x91 => {
                let (dst, src2, src1) = aa_op_ccbb(&mut cur)?;
                Instruction::SubInt(dst, src1, src2)
            }
            0x92 => {
                let (dst, src2, src1) = aa_op_ccbb(&mut cur)?;
                Instruction::MulInt(dst, src1, src2)
            }
            0x93 => {
                let (dst, src2, src1) = aa_op_ccbb(&mut cur)?;
                Instruction::DivInt(dst, src1, src2)
            }
            0x94 => {
                let (dst, src2, src1) = aa_op_ccbb(&mut cur)?;
                Instruction::RemInt(dst, src1, src2)
            }
            0x95 => {
                let (dst, src2, src1) = aa_op_ccbb(&mut cur)?;
                Instruction::AndInt(dst, src1, src2)
            }
            0x96 => {
                let (dst, src2, src1) = aa_op_ccbb(&mut cur)?;
                Instruction::OrInt(dst, src1, src2)
            }
            0x97 => {
                let (dst, src2, src1) = aa_op_ccbb(&mut cur)?;
                Instruction::XorInt(dst, src1, src2)
            }
            0x98 => {
                let (dst, src2, src1) = aa_op_ccbb(&mut cur)?;
                Instruction::ShlInt(dst, src1, src2)
            }
            0x99 => {
                let (dst, src2, src1) = aa_op_ccbb(&mut cur)?;
                Instruction::ShrInt(dst, src1, src2)
            }
            0x9a => {
                let (dst, src2, src1) = aa_op_ccbb(&mut cur)?;
                Instruction::UshrInt(dst, src1, src2)
            }
            0x9b => {
                let (dst, src2, src1) = aa_op_ccbb(&mut cur)?;
                Instruction::AddLong(dst, src1, src2)
            }
            0x9c => {
                let (dst, src2, src1) = aa_op_ccbb(&mut cur)?;
                Instruction::SubLong(dst, src1, src2)
            }
            0x9d => {
                let (dst, src2, src1) = aa_op_ccbb(&mut cur)?;
                Instruction::MulLong(dst, src1, src2)
            }
            0x9e => {
                let (dst, src2, src1) = aa_op_ccbb(&mut cur)?;
                Instruction::DivLong(dst, src1, src2)
            }
            0x9f => {
                let (dst, src2, src1) = aa_op_ccbb(&mut cur)?;
                Instruction::RemLong(dst, src1, src2)
            }
            0xa0 => {
                let (dst, src2, src1) = aa_op_ccbb(&mut cur)?;
                Instruction::AndLong(dst, src1, src2)
            }
            0xa1 => {
                let (dst, src2, src1) = aa_op_ccbb(&mut cur)?;
                Instruction::OrLong(dst, src1, src2)
            }
            0xa2 => {
                let (dst, src2, src1) = aa_op_ccbb(&mut cur)?;
                Instruction::XorLong(dst, src1, src2)
            }
            0xa3 => {
                let (dst, src2, src1) = aa_op_ccbb(&mut cur)?;
                Instruction::ShlLong(dst, src1, src2)
            }
            0xa4 => {
                let (dst, src2, src1) = aa_op_ccbb(&mut cur)?;
                Instruction::ShrLong(dst, src1, src2)
            }
            0xa5 => {
                let (dst, src2, src1) = aa_op_ccbb(&mut cur)?;
                Instruction::UshrLong(dst, src1, src2)
            }
            0xa6 => {
                let (dst, src2, src1) = aa_op_ccbb(&mut cur)?;
                Instruction::AddFloat(dst, src1, src2)
            }
            0xa7 => {
                let (dst, src2, src1) = aa_op_ccbb(&mut cur)?;
                Instruction::SubFloat(dst, src1, src2)
            }
            0xa8 => {
                let (dst, src2, src1) = aa_op_ccbb(&mut cur)?;
                Instruction::MulFloat(dst, src1, src2)
            }
            0xa9 => {
                let (dst, src2, src1) = aa_op_ccbb(&mut cur)?;
                Instruction::DivFloat(dst, src1, src2)
            }
            0xaa => {
                let (dst, src2, src1) = aa_op_ccbb(&mut cur)?;
                Instruction::RemFloat(dst, src1, src2)
            }
            0xab => {
                let (dst, src2, src1) = aa_op_ccbb(&mut cur)?;
                Instruction::AddDouble(dst, src1, src2)
            }
            0xac => {
                let (dst, src2, src1) = aa_op_ccbb(&mut cur)?;
                Instruction::SubDouble(dst, src1, src2)
            }
            0xad => {
                let (dst, src2, src1) = aa_op_ccbb(&mut cur)?;
                Instruction::MulDouble(dst, src1, src2)
            }
            0xae => {
                let (dst, src2, src1) = aa_op_ccbb(&mut cur)?;
                Instruction::DivDouble(dst, src1, src2)
            }
            0xaf => {
                let (dst, src2, src1) = aa_op_ccbb(&mut cur)?;
                Instruction::RemDouble(dst, src1, src2)
            }
            0xb0 => {
                let (src, dst) = ba_op(&mut cur)?;
                Instruction::AddInt2(dst, src)
            }
            0xb1 => {
                let (src, dst) = ba_op(&mut cur)?;
                Instruction::SubInt2(dst, src)
            }
            0xb2 => {
                let (src, dst) = ba_op(&mut cur)?;
                Instruction::MulInt2(dst, src)
            }
            0xb3 => {
                let (src, dst) = ba_op(&mut cur)?;
                Instruction::DivInt2(dst, src)
            }
            0xb4 => {
                let (src, dst) = ba_op(&mut cur)?;
                Instruction::RemInt2(dst, src)
            }
            0xb5 => {
                let (src, dst) = ba_op(&mut cur)?;
                Instruction::AndInt2(dst, src)
            }
            0xb6 => {
                let (src, dst) = ba_op(&mut cur)?;
                Instruction::OrInt2(dst, src)
            }
            0xb7 => {
                let (src, dst) = ba_op(&mut cur)?;
                Instruction::XorInt2(dst, src)
            }
            0xb8 => {
                let (src, dst) = ba_op(&mut cur)?;
                Instruction::ShlInt2(dst, src)
            }
            0xb9 => {
                let (src, dst) = ba_op(&mut cur)?;
                Instruction::ShrInt2(dst, src)
            }
            0xba => {
                let (src, dst) = ba_op(&mut cur)?;
                Instruction::UShrInt2(dst, src)
            }
            0xbb => {
                let (src, dst) = ba_op(&mut cur)?;
                Instruction::AddLong2(dst, src)
            }
            0xbc => {
                let (src, dst) = ba_op(&mut cur)?;
                Instruction::SubLong2(dst, src)
            }
            0xbd => {
                let (src, dst) = ba_op(&mut cur)?;
                Instruction::MulLong2(dst, src)
            }
            0xbe => {
                let (src, dst) = ba_op(&mut cur)?;
                Instruction::DivLong2(dst, src)
            }
            0xbf => {
                let (src, dst) = ba_op(&mut cur)?;
                Instruction::RemLong2(dst, src)
            }
            _ => {
                return Err(Error::Encoding);
            }
        };
    *bytecode = cur;
    Ok(inst)
}

fn decode_binops_literals(bytecode: &mut &[u16]) -> (r: Result<Instruction, Error>)
    requires
        old(bytecode)@.len() >= 1,
        op_of(old(bytecode)@) >= 0xc0,
        op_of(old(bytecode)@) <= 0xff,
    ensures
        (r matches Ok(i) ==> spec_step(old(bytecode)@) is Ok && instr_matches(old(bytecode)@, i)
            && final(bytecode)@ =~= old(bytecode)@.skip(spec_step(old(bytecode)@)->Ok_0 as int)),
        (r matches Err(e) ==> spec_step(old(bytecode)@) == Err::<usize, Error>(e)
            && final(bytecode)@ =~= old(bytecode)@),
{
    let mut cur: &[u16] = *bytecode;
    let op = #[verifier::truncate] (cur[0] as u8);
    let inst = match op {
            0xc0 => {
                let (src, dst) = ba_op(&mut cur)?;
                Instruction::AndLong2(dst, src)
            }
            0xc1 => {
                let (src, dst) = ba_op(&mut cur)?;
                Instruction::OrLong2(dst, src)
            }
            0xc2 => {
                let (src, dst) = ba_op(&mut cur)?;
                Instruction::XorLong2(dst, src)
            }
            0xc3 => {
                let (src, dst) = ba_op(&mut cur)?;
                Instruction::ShlLong2(dst, src)
            }
            0xc4 => {
                let (src, dst) = ba_op(&mut cur)?;
                Instruction::ShrLong2(dst, src)
            }
            0xc5 => {
                let (src, dst) = ba_op(&mut cur)?;
                Instruction::UShrLong2(dst, src)
            }
            0xc6 => {
                let (src, dst) = ba_op(&mut cur)?;
                Instruction::AddFloat2(dst, src)
            }
            0xc7 => {
                let (src, dst) = ba_op(&mut cur)?;
                Instruction::SubFloat2(dst, src)
            }
            0xc8 => {
                let (src, dst) = ba_op(&mut cur)?;
                Instruction::MulFloat2(dst, src)
            }
            0xc9 => {
                let (src, dst) = ba_op(&mut cur)?;
                Instruction::DivFloat2(dst, src)
            }
            0xca => {
                let (src, dst) = ba_op(&mut cur)?;
                Instruction::RemFloat2(dst, src)
            }
            0xcb => {
                let (src, dst) = ba_op(&mut cur)?;
                Instruction::AddDouble2(dst, src)
            }
            0xcc => {
                let (src, dst) = ba_op(&mut cur)?;
                Instruction::SubDouble2(dst, src)
            }
            0xcd => {
                let (src, dst) = ba_op(&mut cur)?;
                Instruction::MulDouble2(dst, src)
            }
            0xce => {
                let (src, dst) = ba_op(&mut cur)?;
                Instruction::DivDouble2(dst, src)
            }
            0xcf => {
                let (src, dst) = ba_op(&mut cur)?;
                Instruction::RemDouble2(dst, src)
            }
            0xd0 => {
                let (b, a, val) = ba_op_cccc(&mut cur)?;
                Instruction::AddInt16(a, b, val as i16)
            }
            0xd1 => {
                let (b, a, val) = ba_op_cccc(&mut cur)?;
                Instruction::RsubInt16(a, b, val as i16)
            }
            0xd2 => {
                let (b, a, val) = ba_op_cccc(&mut cur)?;
                Instruction::MulInt16(a, b, val as i16)
            }
            0xd3 => {
                let (b, a, val) = ba_op_cccc(&mut cur)?;
                Instruction::DivInt16(a, b, val as i16)
            }
            0xd4 => {
                let (b, a, val) = ba_op_cccc(&mut cur)?;
                Instruction::RemInt16(a, b, val as i16)
            }
            0xd5 => {
                let (b, a, val) = ba_op_cccc(&mut cur)?;
                Instruction::AndInt16(a, b, val as i16)
            }
            0xd6 => {
                let (b, a, val) = ba_op_cccc(&mut cur)?;
                Instruction::OrInt16(a, b, val as i16)
            }
            0xd7 => {
                let (b, a, val) = ba_op_cccc(&mut cur)?;
                Instruction::XorInt16(a, b, val as i16)
            }
            0xd8 => {
                let (dst, lit, src) = aa_op_ccbb(&mut cur)?;
                Instruction::AddInt8(dst, src, lit as i8)
            }
            0xd9 => {
                let (dst, lit, src) = aa_op_ccbb(&mut cur)?;
                Instruction::RsubInt8(dst, src, lit as i8)
            }
            0xda => {
                let (dst, lit, src) = aa_op_ccbb(&mut cur)?;
                Instruction::MulInt8(dst, src, lit as i8)
            }
            0xdb => {
                let (dst, lit, src) = aa_op_ccbb(&mut cur)?;
                Instruction::DivInt8(dst, src, lit as i8)
            }
            0xdc => {
                let (dst, lit, src) = aa_op_ccbb(&mut cur)?;
                Instruction::RemInt8(dst, src, lit as i8)
            }
            0xdd => {
                let (dst, lit, src) = aa_op_ccbb(&mut cur)?;
                Instruction::AndInt8(dst, src, lit as i8)
            }
            0xde => {
                let (dst, lit, src) = aa_op_ccbb(&mut cur)?;
                Instruction::OrInt8(dst, src, lit as i8)
            }
            0xdf => {
                let (dst, lit, src) = aa_op_ccbb(&mut cur)?;
                Instruction::XorInt8(dst, src, lit as i8)
            }
            0xe0 => {
                let (dst, lit, src) = aa_op_ccbb(&mut cur)?;
                Instruction::ShlInt8(dst, src, lit as i8)
            }
            0xe1 => {
                let (dst, lit, src) = aa_op_ccbb(&mut cur)?;
                Instruction::ShrInt8(dst, src, lit as i8)
            }
            0xe2 => {
                let (dst, lit, src) = aa_op_ccbb(&mut cur)?;
                Instruction::UshrInt8(dst, src, lit as i8)
            }
            _ => {
                return Err(Error::Encoding);
            }
        };
    *bytecode = cur;
    Ok(inst)
}

/// Decode one [`Instruction`], advancing the given slice to the next
/// instruction.
///
/// On any error the slice is left unchanged, so a truncated decode never
/// partially consumes input. A reported [`Error::Metadata`] length counts
/// the whole inline table from the current position; the caller can skip it
/// by advancing that many code units.
pub fn decode_one(bytecode: &mut &[u16]) -> (r: Result<Instruction, Error>)
    ensures
        (r matches Ok(i) ==> spec_step(old(bytecode)@) is Ok && instr_matches(old(bytecode)@, i)
            && final(bytecode)@ =~= old(bytecode)@.skip(spec_step(old(bytecode)@)->Ok_0 as int)),
        (r matches Err(e) ==> spec_step(old(bytecode)@) == Err::<usize, Error>(e)
            && final(bytecode)@ =~= old(bytecode)@),
{
    let cur: &[u16] = *bytecode;
    if cur.len() == 0 {
        return Err(Error::Truncated);
    }
    let op = #[verifier::truncate] (cur[0] as u8);
    if op <= 0x11 {
        decode_moves_returns(bytecode)
    } else if op <= 0x2c {
        decode_consts(bytecode)
    } else if op <= 0x51 {
        decode_branches_arrays(bytecode)
    } else if op <= 0x6d {
        decode_fields(bytecode)
    } else if op <= 0x8f {
        decode_invokes_unary(bytecode)
    } else if op <= 0xbf {
        decode_binops(bytecode)
    } else {
        decode_binops_literals(bytecode)
    }
}

/// Every successful decode consumes at least one code unit and no more than
/// the input provides, and a reported metadata skip stays within the input.
pub proof fn lemma_step_bounds(s: Seq<u16>)
    requires
        s.len() <= usize::MAX,
    ensures
        (spec_step(s) matches Ok(n) ==> 1 <= n <= s.len()),
        (spec_step(s) matches Err(Error::Metadata { length }) ==> 1 <= length <= s.len()),
{
    if s.len() >= 1 && op_of(s) == 0 && aa_of(s) == 3 {
        vstd::arithmetic::mul::lemma_mul_nonnegative(s[1] as int, fill_size_of(s) as int);
        if s.len() >= 4 && s.len() - 4 >= fill_units(s) {
            assert(1 <= 4 + fill_units(s) <= s.len());
        }
    }
}

/// Round-trip length: the declared length of a decoded instruction equals
/// the number of code units the decoder consumed to produce it.
#[verifier::rlimit(100)]
#[verifier::spinoff_prover]
pub proof fn lemma_len_matches_consumed(s: Seq<u16>, i: Instruction)
    requires
        spec_step(s) is Ok,
        instr_matches(s, i),
    ensures
        spec_len(i) == spec_step(s)->Ok_0,
{
}

/// Exhaustive dispatch: a decoded instruction's variant is selected by the
/// opcode byte of its first code unit alone.
#[verifier::rlimit(100)]
#[verifier::spinoff_prover]
pub proof fn lemma_opcode_matches(s: Seq<u16>, i: Instruction)
    requires
        spec_step(s) is Ok,
        instr_matches(s, i),
    ensures
        spec_opcode(i) == op_of(s),
{
}

/// Structural agreement of two decodes of the same input: equal values,
/// except that the register vectors of the range instructions are compared
/// by contents rather than by vector identity.
pub open spec fn decoded_like(a: Instruction, b: Instruction) -> bool {
    match (a, b) {
        (
            Instruction::FilledNewArrayRange { ty: t1, args: a1 },
            Instruction::FilledNewArrayRange { ty: t2, args: a2 },
        ) => t1 == t2 && a1@ =~= a2@,
        (
            Instruction::InvokeVirtualRange { method: m1, args: a1 },
            Instruction::InvokeVirtualRange { method: m2, args: a2 },
        ) => m1 == m2 && a1@ =~= a2@,
        (
            Instruction::InvokeSuperRange { method: m1, args: a1 },
            Instruction::InvokeSuperRange { method: m2, args: a2 },
        ) => m1 == m2 && a1@ =~= a2@,
        (
            Instruction::InvokeDirectRange { method: m1, args: a1 },
            Instruction::InvokeDirectRange { method: m2, args: a2 },
        ) => m1 == m2 && a1@ =~= a2@,
        (
            Instruction::InvokeStaticRange { method: m1, args: a1 },
            Instruction::InvokeStaticRange { method: m2, args: a2 },
        ) => m1 == m2 && a1@ =~= a2@,
        (
            Instruction::InvokeInterfaceRange { method: m1, args: a1 },
            Instruction::InvokeInterfaceRange { method: m2, args: a2 },
        ) => m1 == m2 && a1@ =~= a2@,
        _ => a == b,
    }
}

/// Determinism: the same code units decode to the same instruction. For the
/// range instructions the two register vectors hold the same registers.
#[verifier::rlimit(100)]
#[verifier::spinoff_prover]
pub proof fn lemma_decode_deterministic(s: Seq<u16>, i1: Instruction, i2: Instruction)
    requires
        spec_step(s) is Ok,
        instr_matches(s, i1),
        instr_matches(s, i2),
    ensures
        decoded_like(i1, i2),
{
    broadcast use vstd::array::group_array_axioms;

    match (i1, i2) {
        (
            Instruction::FilledNewArray { args: x, .. },
            Instruction::FilledNewArray { args: y, .. },
        ) => {
            assert(x =~= y);
        },
        (Instruction::InvokeVirtual { args: x, .. }, Instruction::InvokeVirtual { args: y, .. }) => {
            assert(x =~= y);
        },
        (Instruction::InvokeSuper { args: x, .. }, Instruction::InvokeSuper { args: y, .. }) => {
            assert(x =~= y);
        },
        (Instruction::InvokeDirect { args: x, .. }, Instruction::InvokeDirect { args: y, .. }) => {
            assert(x =~= y);
        },
        (Instruction::InvokeStatic { args: x, .. }, Instruction::InvokeStatic { args: y, .. }) => {
            assert(x =~= y);
        },
        (
            Instruction::InvokeInterface { args: x, .. },
            Instruction::InvokeInterface { args: y, .. },
        ) => {
            assert(x =~= y);
        },
        _ => {},
    }
}

/// The emitted-instruction positions of a bulk decode: starting at `pos`
/// with room for `left` more instructions, either the positions at which
/// instructions are emitted (skipping metadata tables), or the error that
/// stops the decode. The two defensive `Encoding` branches are unreachable:
/// [`lemma_step_bounds`] shows a step stays within the input.
pub open spec fn spec_stream(s: Seq<u16>, pos: int, left: int) -> Result<Seq<int>, Error>
    decreases s.len() - pos,
{
    if pos < 0 || pos >= s.len() || left <= 0 {
        Ok(Seq::empty())
    } else {
        match spec_step(s.skip(pos)) {
            Ok(n) => if 1 <= n && pos + n <= s.len() {
                match spec_stream(s, pos + n, left - 1) {
                    Ok(ps) => Ok(seq![pos] + ps),
                    Err(e) => Err(e),
                }
            } else {
                Err(Error::Encoding)
            },
            Err(Error::Metadata { length }) => if 1 <= length && pos + length <= s.len() {
                spec_stream(s, pos + length, left)
            } else {
                Err(Error::Encoding)
            },
            Err(e) => Err(e),
        }
    }
}

/// Decode all instructions from a slice of code units, at most `until` of
/// them, transparently skipping inline metadata tables. The first
/// truncation or encoding error aborts the decode; [`Error::Metadata`] is
/// never surfaced.
pub fn decode_all(bytecode: &[u16], until: usize) -> (r: Result<Vec<Instruction>, Error>)
    ensures
        (r matches Ok(v) ==> spec_stream(bytecode@, 0, until as int) matches Ok(ps) && v@.len()
            == ps.len() && (forall|k: int|
            0 <= k < ps.len() ==> instr_matches(bytecode@.skip(ps[k]), #[trigger] v@[k]))),
        (r matches Err(e) ==> spec_stream(bytecode@, 0, until as int) == Err::<Seq<int>, Error>(e)
            && !(e is Metadata)),
{
    let ghost s = bytecode@;
    let _buflen: usize = bytecode.len();
    let mut ins: Vec<Instruction> = Vec::new();
    let mut rest: &[u16] = bytecode;
    let ghost mut acc: Seq<int> = Seq::empty();
    let ghost mut cur: int = 0;
    loop
        invariant
            s == bytecode@,
            s.len() <= usize::MAX,
            0 <= cur <= s.len(),
            rest@ =~= s.skip(cur),
            acc.len() == ins@.len(),
            ins@.len() <= until,
            forall|k: int| 0 <= k < acc.len() ==> instr_matches(s.skip(acc[k]), #[trigger] ins@[k]),
            (spec_stream(s, cur, until - ins@.len()) matches Ok(ps) ==> spec_stream(
                s,
                0,
                until as int,
            ) matches Ok(pall) && pall =~= acc + ps),
            (spec_stream(s, cur, until - ins@.len()) matches Err(e) ==> spec_stream(
                s,
                0,
                until as int,
            ) == Err::<Seq<int>, Error>(e)),
        decreases s.len() - cur,
    {
        if rest.len() == 0 || ins.len() >= until {
            proof {
                assert(spec_stream(s, cur, until - ins@.len()) == Ok::<Seq<int>, Error>(
                    Seq::empty(),
                ));
                assert(acc + Seq::<int>::empty() =~= acc);
            }
            return Ok(ins);
        }
        proof {
            lemma_step_bounds(s.skip(cur));
        }
        match decode_one(&mut rest) {
            Ok(i) => {
                let ghost n = spec_step(s.skip(cur))->Ok_0 as int;
                proof {
                    assert(s.skip(cur).skip(n) =~= s.skip(cur + n));
                    assert(acc.push(cur) + spec_stream(s, cur + n, until - ins@.len() - 1)->Ok_0
                        =~= acc + (seq![cur] + spec_stream(
                        s,
                        cur + n,
                        until - ins@.len() - 1,
                    )->Ok_0));
                }
                ins.push(i);
                proof {
                    acc = acc.push(cur);
                    cur = cur + n;
                }
            }
            Err(Error::Metadata { length }) => {
                let r2: &[u16] = rest;
                rest = slice_subrange(r2, length, r2.len());
                proof {
                    assert(s.skip(cur).skip(length as int) =~= s.skip(cur + length));
                    cur = cur + length;
                }
            }
            Err(e) => {
                return Err(e);
            }
        }
    }
}

/// Sign extension of the 4-bit literal format: the literal of a decoded
/// `const/4` is the two's complement reading of its nibble, so a nibble with
/// the high bit set becomes negative (nibble 0xf is literal -1).
pub proof fn lemma_sign_extend_nibble(s: Seq<u16>, i: Instruction)
    requires
        s.len() >= 1,
        op_of(s) == 0x12,
        instr_matches(s, i),
    ensures
        (i matches Instruction::Const4(_, lit) && lit as int == if nib_b_of(s) >= 8 {
            nib_b_of(s) - 16
        } else {
            nib_b_of(s) as int
        }),
{
    let u = s[0];
    let b = nib_b_of(s);
    assert(b < 16 && (b >= 8 <==> b & 0x8 != 0) && (b & 0x8 != 0 ==> ((b | 0xf0) as i8) as int == b
        - 16) && (b & 0x8 == 0 ==> (b as i8) as int == b as int)) by (bit_vector)
        requires
            b == ((u >> 8) as u8) >> 4,
    ;
}

/// Sign extension of the 8-bit literal format: the literal of a decoded
/// `add-int/lit8` is the two's complement reading of its byte, so a byte of
/// 0x80 or more becomes negative (byte 0xff is literal -1).
pub proof fn lemma_sign_extend_byte(s: Seq<u16>, i: Instruction)
    requires
        s.len() >= 2,
        op_of(s) == 0xd8,
        instr_matches(s, i),
    ensures
        (i matches Instruction::AddInt8(_, _, lit) && lit as int == if cc_of(s) >= 0x80 {
            cc_of(s) - 256
        } else {
            cc_of(s) as int
        }),
{
    let c = cc_of(s);
    assert((c as i8) as int == if c >= 0x80 {
        c - 256
    } else {
        c as int
    }) by (bit_vector);
}

/// Sign extension of the 16-bit literal format: the literal of a decoded
/// `const/16` is the two's complement reading of its code unit, so a unit of
/// 0x8000 or more becomes negative (unit 0xffff is literal -1).
pub proof fn lemma_sign_extend_unit(s: Seq<u16>, i: Instruction)
    requires
        s.len() >= 2,
        op_of(s) == 0x13,
        instr_matches(s, i),
    ensures
        (i matches Instruction::Const16(_, lit) && lit as int == if w1_of(s) >= 0x8000 {
            w1_of(s) - 0x10000
        } else {
            w1_of(s) as int
        }),
{
    let w = w1_of(s);
    assert((w as i16) as int == if w >= 0x8000 {
        w - 0x10000
    } else {
        w as int
    }) by (bit_vector);
}

} // verus!
