//! Dalvik bytecode instruction decoding and basic block analysis.
//!
//! The instruction stream is a sequence of 16-bit code units. [`decode::decode_one`]
//! lifts one encoded instruction into the closed [`Instruction`] type, and
//! [`blocks::basic_blocks`] partitions a whole method body into basic blocks by
//! simulating control flow. Rendering of instruction mnemonics, optionally with
//! symbol names resolved through [`render::PrettyPrint`], lives in [`render`].

use vstd::prelude::*;

pub mod blocks;
pub mod decode;
pub mod render;

pub use render::PrettyPrint;

verus! {

/// Dalvik instruction.
///
/// One variant per opcode (the hexadecimal opcode is noted beside each
/// variant). The ordering of the contained values matches the order of the
/// instruction mnemonic as read from left to right: destination register
/// first, then sources, then literals or symbol-table indices.
#[derive(Debug, PartialEq, Eq)]
#[allow(missing_docs)]
#[allow(inconsistent_fields)]
pub enum Instruction {
    Nop,                                                      // 0x00
    Move(u8, u8),                                             // 0x01
    MoveFrom16(u8, u16),                                      // 0x02
    Move16(u16, u16),                                         // 0x03
    MoveWide(u8, u8),                                         // 0x04
    MoveWideFrom16(u8, u16),                                  // 0x05
    MoveWide16(u16, u16),                                     // 0x06
    MoveObject(u8, u8),                                       // 0x07
    MoveObjectFrom16(u8, u16),                                // 0x08
    MoveObject16(u16, u16),                                   // 0x09
    MoveResult(u8),                                           // 0x0a
    MoveResultWide(u8),                                       // 0x0b
    MoveResultObject(u8),                                     // 0x0c
    MoveException(u8),                                        // 0x0d
    ReturnVoid,                                               // 0x0e
    Return(u8),                                               // 0x0f
    ReturnWide(u8),                                           // 0x10
    ReturnObject(u8),                                         // 0x11
    Const4(u8, i8),                                           // 0x12
    Const16(u8, i16),                                         // 0x13
    Const(u8, u32),                                           // 0x14
    ConstHigh16(u8, i16),                                     // 0x15
    ConstWide16(u8, i16),                                     // 0x16
    ConstWide32(u8, u32),                                     // 0x17
    ConstWide(u8, u64),                                       // 0x18
    ConstWideHigh16(u8, u16),                                 // 0x19
    ConstString(u8, u16),                                     // 0x1a
    ConstStringJumbo(u8, u32),                                // 0x1b
    ConstClass(u8, u16),                                      // 0x1c
    MonitorEnter(u8),                                         // 0x1d
    MonitorExit(u8),                                          // 0x1e
    CheckCast(u8, u16),                                       // 0x1f
    InstanceOf(u8, u8, u16),                                  // 0x20
    ArrayLength(u8, u8),                                      // 0x21
    NewInstance(u8, u16),                                     // 0x22
    NewArray(u8, u8, u16),                                    // 0x23
    FilledNewArray{ ty: u16, nargs: u8, args: [u8; 5] },      // 0x24
    FilledNewArrayRange{ ty: u16, args: Vec<u16> },           // 0x25
    FillArrayData(u8, i32),                                   // 0x26
    Throw(u8),                                                // 0x27
    Goto(i8),                                                 // 0x28
    Goto16(i16),                                              // 0x29
    Goto32(i32),                                              // 0x2a
    PackedSwitch(u8, i32),                                    // 0x2b
    SparseSwitch(u8, i32),                                    // 0x2c
    CmplFloat(u8, u8, u8),                                    // 0x2d
    CmpgFloat(u8, u8, u8),                                    // 0x2e
    CmplDouble(u8, u8, u8),                                   // 0x2f
    CmpgDouble(u8, u8, u8),                                   // 0x30
    CmpLong(u8, u8, u8),                                      // 0x31
    IfEq(u8, u8, i16),                                        // 0x32
    IfNe(u8, u8, i16),                                        // 0x33
    IfLt(u8, u8, i16),                                        // 0x34
    IfGe(u8, u8, i16),                                        // 0x35
    IfGt(u8, u8, i16),                                        // 0x36
    IfLe(u8, u8, i16),                                        // 0x37
    IfEqz(u8, i16),                                           // 0x38
    IfNez(u8, i16),                                           // 0x39
    IfLtz(u8, i16),                                           // 0x3a
    IfGez(u8, i16),                                           // 0x3b
    IfGtz(u8, i16),                                           // 0x3c
    IfLez(u8, i16),                                           // 0x3d
    AGet(u8, u8, u8),                                         // 0x44
    AGetWide(u8, u8, u8),                                     // 0x45
    AGetObject(u8, u8, u8),                                   // 0x46
    AGetBoolean(u8, u8, u8),                                  // 0x47
    AGetByte(u8, u8, u8),                                     // 0x48
    AGetChar(u8, u8, u8),                                     // 0x49
    AGetShort(u8, u8, u8),                                    // 0x4a
    APut(u8, u8, u8),                                         // 0x4b
    APutWide(u8, u8, u8),                                     // 0x4c
    APutObject(u8, u8, u8),                                   // 0x4d
    APutBoolean(u8, u8, u8),                                  // 0x4e
    APutByte(u8, u8, u8),                                     // 0x4f
    APutChar(u8, u8, u8),                                     // 0x50
    APutShort(u8, u8, u8),                                    // 0x51
    IGet(u8, u8, u16),                                        // 0x52
    IGetWide(u8, u8, u16),                                    // 0x53
    IGetObject(u8, u8, u16),                                  // 0x54
    IGetBoolean(u8, u8, u16),                                 // 0x55
    IGetByte(u8, u8, u16),                                    // 0x56
    IGetChar(u8, u8, u16),                                    // 0x57
    IGetShort(u8, u8, u16),                                   // 0x58
    IPut(u8, u8, u16),                                        // 0x59
    IPutWide(u8, u8, u16),                                    // 0x5a
    IPutObject(u8, u8, u16),                                  // 0x5b
    IPutBoolean(u8, u8, u16),                                 // 0x5c
    IPutByte(u8, u8, u16),                                    // 0x5d
    IPutChar(u8, u8, u16),                                    // 0x5e
    IPutShort(u8, u8, u16),                                   // 0x5f
    SGet(u8, u16),                                            // 0x60
    SGetWide(u8, u16),                                        // 0x61
    SGetObject(u8, u16),                                      // 0x62
    SGetBoolean(u8, u16),                                     // 0x63
    SGetByte(u8, u16),                                        // 0x64
    SGetChar(u8, u16),                                        // 0x65
    SGetShort(u8, u16),                                       // 0x66
    SPut(u8, u16),                                            // 0x67
    SPutWide(u8, u16),                                        // 0x68
    SPutObject(u8, u16),                                      // 0x69
    SPutBoolean(u8, u16),                                     // 0x6a
    SPutByte(u8, u16),                                        // 0x6b
    SPutChar(u8, u16),                                        // 0x6c
    SPutShort(u8, u16),                                       // 0x6d
    InvokeVirtual{ method: u16, nargs: u8, args: [u8; 5] },   // 0x6e
    InvokeSuper{ method: u16, nargs: u8, args: [u8; 5] },     // 0x6f
    InvokeDirect{ method: u16, nargs: u8, args: [u8; 5] },    // 0x70
    InvokeStatic{ method: u16, nargs: u8, args: [u8; 5] },    // 0x71
    InvokeInterface{ method: u16, nargs: u8, args: [u8; 5] }, // 0x72
    InvokeVirtualRange{ method: u16, args: Vec<u16> },        // 0x74
    InvokeSuperRange{ method: u16, args: Vec<u16> },          // 0x75
    InvokeDirectRange{ method: u16, args: Vec<u16> },         // 0x76
    InvokeStaticRange{ method: u16, args: Vec<u16> },         // 0x77
    InvokeInterfaceRange{ method: u16, args: Vec<u16> },      // 0x78
    NegInt(u8, u8),                                           // 0x7b
    NotInt(u8, u8),                                           // 0x7c
    NegLong(u8, u8),                                          // 0x7d
    NotLong(u8, u8),                                          // 0x7e
    NegFloat(u8, u8),                                         // 0x7f
    NegDouble(u8, u8),                                        // 0x80
    IntToLong(u8, u8),                                        // 0x81
    IntToFloat(u8, u8),                                       // 0x82
    IntToDouble(u8, u8),                                      // 0x83
    LongToInt(u8, u8),                                        // 0x84
    LongToFloat(u8, u8),                                      // 0x85
    LongToDouble(u8, u8),                                     // 0x86
    FloatToInt(u8, u8),                                       // 0x87
    FloatToLong(u8, u8),                                      // 0x88
    FloatToDouble(u8, u8),                                    // 0x89
    DoubleToInt(u8, u8),                                      // 0x8a
    DoubleToLong(u8, u8),                                     // 0x8b
    DoubleToFloat(u8, u8),                                    // 0x8c
    IntTobyte(u8, u8),                                        // 0x8d
    IntTochar(u8, u8),                                        // 0x8e
    IntToshort(u8, u8),                                       // 0x8f
    AddInt(u8, u8, u8),                                       // 0x90
    SubInt(u8, u8, u8),                                       // 0x91
    MulInt(u8, u8, u8),                                       // 0x92
    DivInt(u8, u8, u8),                                       // 0x93
    RemInt(u8, u8, u8),                                       // 0x94
    AndInt(u8, u8, u8),                                       // 0x95
    OrInt(u8, u8, u8),                                        // 0x96
    XorInt(u8, u8, u8),                                       // 0x97
    ShlInt(u8, u8, u8),                                       // 0x98
    ShrInt(u8, u8, u8),                                       // 0x99
    UshrInt(u8, u8, u8),                                      // 0x9a
    AddLong(u8, u8, u8),                                      // 0x9b
    SubLong(u8, u8, u8),                                      // 0x9c
    MulLong(u8, u8, u8),                                      // 0x9d
    DivLong(u8, u8, u8),                                      // 0x9e
    RemLong(u8, u8, u8),                                      // 0x9f
    AndLong(u8, u8, u8),                                      // 0xa0
    OrLong(u8, u8, u8),                                       // 0xa1
    XorLong(u8, u8, u8),                                      // 0xa2
    ShlLong(u8, u8, u8),                                      // 0xa3
    ShrLong(u8, u8, u8),                                      // 0xa4
    UshrLong(u8, u8, u8),                                     // 0xa5
    AddFloat(u8, u8, u8),                                     // 0xa6
    SubFloat(u8, u8, u8),                                     // 0xa7
    MulFloat(u8, u8, u8),                                     // 0xa8
    DivFloat(u8, u8, u8),                                     // 0xa9
    RemFloat(u8, u8, u8),                                     // 0xaa
    AddDouble(u8, u8, u8),                                    // 0xab
    SubDouble(u8, u8, u8),                                    // 0xac
    MulDouble(u8, u8, u8),                                    // 0xad
    DivDouble(u8, u8, u8),                                    // 0xae
    RemDouble(u8, u8, u8),                                    // 0xaf
    AddInt2(u8, u8),                                          // 0xb0
    SubInt2(u8, u8),                                          // 0xb1
    MulInt2(u8, u8),                                          // 0xb2
    DivInt2(u8, u8),                                          // 0xb3
    RemInt2(u8, u8),                                          // 0xb4
    AndInt2(u8, u8),                                          // 0xb5
    OrInt2(u8, u8),                                           // 0xb6
    XorInt2(u8, u8),                                          // 0xb7
    ShlInt2(u8, u8),                                          // 0xb8
    ShrInt2(u8, u8),                                          // 0xb9
    UShrInt2(u8, u8),                                         // 0xba
    AddLong2(u8, u8),                                         // 0xbb
    SubLong2(u8, u8),                                         // 0xbc
    MulLong2(u8, u8),                                         // 0xbd
    DivLong2(u8, u8),                                         // 0xbe
    RemLong2(u8, u8),                                         // 0xbf
    AndLong2(u8, u8),                                         // 0xc0
    OrLong2(u8, u8),                                          // 0xc1
    XorLong2(u8, u8),                                         // 0xc2
    ShlLong2(u8, u8),                                         // 0xc3
    ShrLong2(u8, u8),                                         // 0xc4
    UShrLong2(u8, u8),                                        // 0xc5
    AddFloat2(u8, u8),                                        // 0xc6
    SubFloat2(u8, u8),                                        // 0xc7
    MulFloat2(u8, u8),                                        // 0xc8
    DivFloat2(u8, u8),                                        // 0xc9
    RemFloat2(u8, u8),                                        // 0xca
    AddDouble2(u8, u8),                                       // 0xcb
    SubDouble2(u8, u8),                                       // 0xcc
    MulDouble2(u8, u8),                                       // 0xcd
    DivDouble2(u8, u8),                                       // 0xce
    RemDouble2(u8, u8),                                       // 0xcf
    AddInt16(u8, u8, i16),                                    // 0xd0
    RsubInt16(u8, u8, i16),                                   // 0xd1
    MulInt16(u8, u8, i16),                                    // 0xd2
    DivInt16(u8, u8, i16),                                    // 0xd3
    RemInt16(u8, u8, i16),                                    // 0xd4
    AndInt16(u8, u8, i16),                                    // 0xd5
    OrInt16(u8, u8, i16),                                     // 0xd6
    XorInt16(u8, u8, i16),                                    // 0xd7
    AddInt8(u8, u8, i8),                                      // 0xd8
    RsubInt8(u8, u8, i8),                                     // 0xd9
    MulInt8(u8, u8, i8),                                      // 0xda
    DivInt8(u8, u8, i8),                                      // 0xdb
    RemInt8(u8, u8, i8),                                      // 0xdc
    AndInt8(u8, u8, i8),                                      // 0xdd
    OrInt8(u8, u8, i8),                                       // 0xde
    XorInt8(u8, u8, i8),                                      // 0xdf
    ShlInt8(u8, u8, i8),                                      // 0xe0
    ShrInt8(u8, u8, i8),                                      // 0xe1
    UshrInt8(u8, u8, i8),                                     // 0xe2
}

/// Describes the possible control flow effects of an [`Instruction`].
#[derive(Debug, Clone, Copy, PartialEq, Eq, Hash, Structural)]
pub enum ControlFlow {
    /// Terminates the method (throw or return)
    Terminate,
    /// Jumps to the relative address
    GoTo(i32),
    /// Falls through, or jumps to the relative address
    Branch(i16),
    /// Proceeds to the next in sequence
    FallThrough,
}

/// The opcode byte that selects an [`Instruction`] variant.
pub open spec fn spec_opcode(i: Instruction) -> u8 {
    match i {
        Instruction::Nop => 0x00,
        Instruction::Move(..) => 0x01,
        Instruction::MoveFrom16(..) => 0x02,
        Instruction::Move16(..) => 0x03,
        Instruction::MoveWide(..) => 0x04,
        Instruction::MoveWideFrom16(..) => 0x05,
        Instruction::MoveWide16(..) => 0x06,
        Instruction::MoveObject(..) => 0x07,
        Instruction::MoveObjectFrom16(..) => 0x08,
        Instruction::MoveObject16(..) => 0x09,
        Instruction::MoveResult(..) => 0x0a,
        Instruction::MoveResultWide(..) => 0x0b,
        Instruction::MoveResultObject(..) => 0x0c,
        Instruction::MoveException(..) => 0x0d,
        Instruction::ReturnVoid => 0x0e,
        Instruction::Return(..) => 0x0f,
        Instruction::ReturnWide(..) => 0x10,
        Instruction::ReturnObject(..) => 0x11,
        Instruction::Const4(..) => 0x12,
        Instruction::Const16(..) => 0x13,
        Instruction::Const(..) => 0x14,
        Instruction::ConstHigh16(..) => 0x15,
        Instruction::ConstWide16(..) => 0x16,
        Instruction::ConstWide32(..) => 0x17,
        Instruction::ConstWide(..) => 0x18,
        Instruction::ConstWideHigh16(..) => 0x19,
        Instruction::ConstString(..) => 0x1a,
        Instruction::ConstStringJumbo(..) => 0x1b,
        Instruction::ConstClass(..) => 0x1c,
        Instruction::MonitorEnter(..) => 0x1d,
        Instruction::MonitorExit(..) => 0x1e,
        Instruction::CheckCast(..) => 0x1f,
        Instruction::InstanceOf(..) => 0x20,
        Instruction::ArrayLength(..) => 0x21,
        Instruction::NewInstance(..) => 0x22,
        Instruction::NewArray(..) => 0x23,
        Instruction::FilledNewArray { .. } => 0x24,
        Instruction::FilledNewArrayRange { .. } => 0x25,
        Instruction::FillArrayData(..) => 0x26,
        Instruction::Throw(..) => 0x27,
        Instruction::Goto(..) => 0x28,
        Instruction::Goto16(..) => 0x29,
        Instruction::Goto32(..) => 0x2a,
        Instruction::PackedSwitch(..) => 0x2b,
        Instruction::SparseSwitch(..) => 0x2c,
        Instruction::CmplFloat(..) => 0x2d,
        Instruction::CmpgFloat(..) => 0x2e,
        Instruction::CmplDouble(..) => 0x2f,
        Instruction::CmpgDouble(..) => 0x30,
        Instruction::CmpLong(..) => 0x31,
        Instruction::IfEq(..) => 0x32,
        Instruction::IfNe(..) => 0x33,
        Instruction::IfLt(..) => 0x34,
        Instruction::IfGe(..) => 0x35,
        Instruction::IfGt(..) => 0x36,
        Instruction::IfLe(..) => 0x37,
        Instruction::IfEqz(..) => 0x38,
        Instruction::IfNez(..) => 0x39,
        Instruction::IfLtz(..) => 0x3a,
        Instruction::IfGez(..) => 0x3b,
        Instruction::IfGtz(..) => 0x3c,
        Instruction::IfLez(..) => 0x3d,
        Instruction::AGet(..) => 0x44,
        Instruction::AGetWide(..) => 0x45,
        Instruction::AGetObject(..) => 0x46,
        Instruction::AGetBoolean(..) => 0x47,
        Instruction::AGetByte(..) => 0x48,
        Instruction::AGetChar(..) => 0x49,
        Instruction::AGetShort(..) => 0x4a,
        Instruction::APut(..) => 0x4b,
        Instruction::APutWide(..) => 0x4c,
        Instruction::APutObject(..) => 0x4d,
        Instruction::APutBoolean(..) => 0x4e,
        Instruction::APutByte(..) => 0x4f,
        Instruction::APutChar(..) => 0x50,
        Instruction::APutShort(..) => 0x51,
        Instruction::IGet(..) => 0x52,
        Instruction::IGetWide(..) => 0x53,
        Instruction::IGetObject(..) => 0x54,
        Instruction::IGetBoolean(..) => 0x55,
        Instruction::IGetByte(..) => 0x56,
        Instruction::IGetChar(..) => 0x57,
        Instruction::IGetShort(..) => 0x58,
        Instruction::IPut(..) => 0x59,
        Instruction::IPutWide(..) => 0x5a,
        Instruction::IPutObject(..) => 0x5b,
        Instruction::IPutBoolean(..) => 0x5c,
        Instruction::IPutByte(..) => 0x5d,
        Instruction::IPutChar(..) => 0x5e,
        Instruction::IPutShort(..) => 0x5f,
        Instruction::SGet(..) => 0x60,
        Instruction::SGetWide(..) => 0x61,
        Instruction::SGetObject(..) => 0x62,
        Instruction::SGetBoolean(..) => 0x63,
        Instruction::SGetByte(..) => 0x64,
        Instruction::SGetChar(..) => 0x65,
        Instruction::SGetShort(..) => 0x66,
        Instruction::SPut(..) => 0x67,
        Instruction::SPutWide(..) => 0x68,
        Instruction::SPutObject(..) => 0x69,
        Instruction::SPutBoolean(..) => 0x6a,
        Instruction::SPutByte(..) => 0x6b,
        Instruction::SPutChar(..) => 0x6c,
        Instruction::SPutShort(..) => 0x6d,
        Instruction::InvokeVirtual { .. } => 0x6e,
        Instruction::InvokeSuper { .. } => 0x6f,
        Instruction::InvokeDirect { .. } => 0x70,
        Instruction::InvokeStatic { .. } => 0x71,
        Instruction::InvokeInterface { .. } => 0x72,
        Instruction::InvokeVirtualRange { .. } => 0x74,
        Instruction::InvokeSuperRange { .. } => 0x75,
        Instruction::InvokeDirectRange { .. } => 0x76,
        Instruction::InvokeStaticRange { .. } => 0x77,
        Instruction::InvokeInterfaceRange { .. } => 0x78,
        Instruction::NegInt(..) => 0x7b,
        Instruction::NotInt(..) => 0x7c,
        Instruction::NegLong(..) => 0x7d,
        Instruction::NotLong(..) => 0x7e,
        Instruction::NegFloat(..) => 0x7f,
        Instruction::NegDouble(..) => 0x80,
        Instruction::IntToLong(..) => 0x81,
        Instruction::IntToFloat(..) => 0x82,
        Instruction::IntToDouble(..) => 0x83,
        Instruction::LongToInt(..) => 0x84,
        Instruction::LongToFloat(..) => 0x85,
        Instruction::LongToDouble(..) => 0x86,
        Instruction::FloatToInt(..) => 0x87,
        Instruction::FloatToLong(..) => 0x88,
        Instruction::FloatToDouble(..) => 0x89,
        Instruction::DoubleToInt(..) => 0x8a,
        Instruction::DoubleToLong(..) => 0x8b,
        Instruction::DoubleToFloat(..) => 0x8c,
        Instruction::IntTobyte(..) => 0x8d,
        Instruction::IntTochar(..) => 0x8e,
        Instruction::IntToshort(..) => 0x8f,
        Instruction::AddInt(..) => 0x90,
        Instruction::SubInt(..) => 0x91,
        Instruction::MulInt(..) => 0x92,
        Instruction::DivInt(..) => 0x93,
        Instruction::RemInt(..) => 0x94,
        Instruction::AndInt(..) => 0x95,
        Instruction::OrInt(..) => 0x96,
        Instruction::XorInt(..) => 0x97,
        Instruction::ShlInt(..) => 0x98,
        Instruction::ShrInt(..) => 0x99,
        Instruction::UshrInt(..) => 0x9a,
        Instruction::AddLong(..) => 0x9b,
        Instruction::SubLong(..) => 0x9c,
        Instruction::MulLong(..) => 0x9d,
        Instruction::DivLong(..) => 0x9e,
        Instruction::RemLong(..) => 0x9f,
        Instruction::AndLong(..) => 0xa0,
        Instruction::OrLong(..) => 0xa1,
        Instruction::XorLong(..) => 0xa2,
        Instruction::ShlLong(..) => 0xa3,
        Instruction::ShrLong(..) => 0xa4,
        Instruction::UshrLong(..) => 0xa5,
        Instruction::AddFloat(..) => 0xa6,
        Instruction::SubFloat(..) => 0xa7,
        Instruction::MulFloat(..) => 0xa8,
        Instruction::DivFloat(..) => 0xa9,
        Instruction::RemFloat(..) => 0xaa,
        Instruction::AddDouble(..) => 0xab,
        Instruction::SubDouble(..) => 0xac,
        Instruction::MulDouble(..) => 0xad,
        Instruction::DivDouble(..) => 0xae,
        Instruction::RemDouble(..) => 0xaf,
        Instruction::AddInt2(..) => 0xb0,
        Instruction::SubInt2(..) => 0xb1,
        Instruction::MulInt2(..) => 0xb2,
        Instruction::DivInt2(..) => 0xb3,
        Instruction::RemInt2(..) => 0xb4,
        Instruction::AndInt2(..) => 0xb5,
        Instruction::OrInt2(..) => 0xb6,
        Instruction::XorInt2(..) => 0xb7,
        Instruction::ShlInt2(..) => 0xb8,
        Instruction::ShrInt2(..) => 0xb9,
        Instruction::UShrInt2(..) => 0xba,
        Instruction::AddLong2(..) => 0xbb,
        Instruction::SubLong2(..) => 0xbc,
        Instruction::MulLong2(..) => 0xbd,
        Instruction::DivLong2(..) => 0xbe,
        Instruction::RemLong2(..) => 0xbf,
        Instruction::AndLong2(..) => 0xc0,
        Instruction::OrLong2(..) => 0xc1,
        Instruction::XorLong2(..) => 0xc2,
        Instruction::ShlLong2(..) => 0xc3,
        Instruction::ShrLong2(..) => 0xc4,
        Instruction::UShrLong2(..) => 0xc5,
        Instruction::AddFloat2(..) => 0xc6,
        Instruction::SubFloat2(..) => 0xc7,
        Instruction::MulFloat2(..) => 0xc8,
        Instruction::DivFloat2(..) => 0xc9,
        Instruction::RemFloat2(..) => 0xca,
        Instruction::AddDouble2(..) => 0xcb,
        Instruction::SubDouble2(..) => 0xcc,
        Instruction::MulDouble2(..) => 0xcd,
        Instruction::DivDouble2(..) => 0xce,
        Instruction::RemDouble2(..) => 0xcf,
        Instruction::AddInt16(..) => 0xd0,
        Instruction::RsubInt16(..) => 0xd1,
        Instruction::MulInt16(..) => 0xd2,
        Instruction::DivInt16(..) => 0xd3,
        Instruction::RemInt16(..) => 0xd4,
        Instruction::AndInt16(..) => 0xd5,
        Instruction::OrInt16(..) => 0xd6,
        Instruction::XorInt16(..) => 0xd7,
        Instruction::AddInt8(..) => 0xd8,
        Instruction::RsubInt8(..) => 0xd9,
        Instruction::MulInt8(..) => 0xda,
        Instruction::DivInt8(..) => 0xdb,
        Instruction::RemInt8(..) => 0xdc,
        Instruction::AndInt8(..) => 0xdd,
        Instruction::OrInt8(..) => 0xde,
        Instruction::XorInt8(..) => 0xdf,
        Instruction::ShlInt8(..) => 0xe0,
        Instruction::ShrInt8(..) => 0xe1,
        Instruction::UshrInt8(..) => 0xe2,
    }
}

/// The control flow effect of an instruction, as a function of its variant
/// and, for jumps and branches, its relative offset operand.
pub open spec fn spec_control_flow(i: Instruction) -> ControlFlow {
    match i {
        Instruction::ReturnVoid
        | Instruction::Return(_)
        | Instruction::ReturnWide(_)
        | Instruction::ReturnObject(_)
        | Instruction::Throw(_) => ControlFlow::Terminate,
        Instruction::Goto(t) => ControlFlow::GoTo(t as i32),
        Instruction::Goto16(t) => ControlFlow::GoTo(t as i32),
        Instruction::Goto32(t) => ControlFlow::GoTo(t),
        Instruction::IfEq(_, _, t)
        | Instruction::IfNe(_, _, t)
        | Instruction::IfLt(_, _, t)
        | Instruction::IfGe(_, _, t)
        | Instruction::IfGt(_, _, t)
        | Instruction::IfLe(_, _, t)
        | Instruction::IfEqz(_, t)
        | Instruction::IfNez(_, t)
        | Instruction::IfLtz(_, t)
        | Instruction::IfGez(_, t)
        | Instruction::IfGtz(_, t)
        | Instruction::IfLez(_, t) => ControlFlow::Branch(t),
        _ => ControlFlow::FallThrough,
    }
}

impl Instruction {
    /// Get the control flow behavior of the instruction.
    pub fn control_flow(&self) -> (r: ControlFlow)
        ensures
            r == spec_control_flow(*self),
    {
        match self {
            Instruction::ReturnVoid
            | Instruction::Return(_)
            | Instruction::ReturnWide(_)
            | Instruction::ReturnObject(_)
            | Instruction::Throw(_) => ControlFlow::Terminate,
            Instruction::Goto(t) => ControlFlow::GoTo(*t as i32),
            Instruction::Goto16(t) => ControlFlow::GoTo(*t as i32),
            Instruction::Goto32(t) => ControlFlow::GoTo(*t),
            Instruction::IfEq(_, _, t)
            | Instruction::IfNe(_, _, t)
            | Instruction::IfLt(_, _, t)
            | Instruction::IfGe(_, _, t)
            | Instruction::IfGt(_, _, t)
            | Instruction::IfLe(_, _, t)
            | Instruction::IfEqz(_, t)
            | Instruction::IfNez(_, t)
            | Instruction::IfLtz(_, t)
            | Instruction::IfGez(_, t)
            | Instruction::IfGtz(_, t)
            | Instruction::IfLez(_, t) => ControlFlow::Branch(*t),
            _ => ControlFlow::FallThrough,
        }
    }
}

} // verus!
