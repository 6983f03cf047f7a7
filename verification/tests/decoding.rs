use dalvik::Instruction;
use dalvik::decode::Error;
use dalvik::decode::decode_all;
use dalvik::decode::decode_one;

#[test]
fn truncated_buffer_consumes_nothing() {
    // move/from16 needs two code units; only one is present.
    let buf: [u16; 1] = [0x0108];
    let mut s: &[u16] = &buf;
    let r = decode_one(&mut s);
    assert!(matches!(r, Err(Error::Truncated)));
    assert_eq!(s.len(), 1);
}

#[test]
fn empty_buffer_is_truncated() {
    let buf: [u16; 0] = [];
    let mut s: &[u16] = &buf;
    assert!(matches!(decode_one(&mut s), Err(Error::Truncated)));
}

#[test]
fn truncated_wide_const() {
    // const-wide needs five code units.
    let buf: [u16; 4] = [0x0018, 0x1111, 0x2222, 0x3333];
    let mut s: &[u16] = &buf;
    assert!(matches!(decode_one(&mut s), Err(Error::Truncated)));
    assert_eq!(s.len(), 4);
}

#[test]
fn nonzero_padding_is_encoding_error() {
    // return-void requires the AA byte to be zero.
    let buf: [u16; 1] = [0x010e];
    let mut s: &[u16] = &buf;
    assert!(matches!(decode_one(&mut s), Err(Error::Encoding)));
    assert_eq!(s.len(), 1);
}

#[test]
fn unsupported_opcode_is_encoding_error() {
    let buf: [u16; 2] = [0x003e, 0x0000];
    let mut s: &[u16] = &buf;
    assert!(matches!(decode_one(&mut s), Err(Error::Encoding)));
}

#[test]
fn invoke_with_too_many_args_is_encoding_error() {
    // the argument-count nibble of a 35c instruction is at most five
    let buf: [u16; 3] = [0x606e, 0x0000, 0x0000];
    let mut s: &[u16] = &buf;
    assert!(matches!(decode_one(&mut s), Err(Error::Encoding)));
}

#[test]
fn range_past_register_space_is_encoding_error() {
    // two registers starting at v65535 would leave the 16-bit register space
    let buf: [u16; 3] = [0x0274, 0x1234, 0xffff];
    let mut s: &[u16] = &buf;
    assert!(matches!(decode_one(&mut s), Err(Error::Encoding)));
}

#[test]
fn invoke_register_extraction() {
    // invoke-static {v0, v3}: the argument list is [0, 3] in declared order,
    // independent of the nibble packing.
    let buf: [u16; 3] = [0x2071, 0x4455, 0x0030];
    let mut s: &[u16] = &buf;
    let inst = decode_one(&mut s).unwrap();
    match inst {
        Instruction::InvokeStatic { method, nargs, args } => {
            assert_eq!(method, 0x4455);
            assert_eq!(nargs, 2);
            assert_eq!(&args[..2], &[0, 3]);
        }
        other => panic!("decoded {:?}", other),
    }
    assert_eq!(s.len(), 0);
}

#[test]
fn const4_sign_extension() {
    // nibble 0xf sign-extends to literal -1
    let buf: [u16; 1] = [0xf012];
    let mut s: &[u16] = &buf;
    assert_eq!(decode_one(&mut s).unwrap(), Instruction::Const4(0, -1));
}

#[test]
fn lit8_sign_extension() {
    // byte 0xff sign-extends to literal -1
    let buf: [u16; 2] = [0x01d8, 0xff02];
    let mut s: &[u16] = &buf;
    assert_eq!(decode_one(&mut s).unwrap(), Instruction::AddInt8(1, 2, -1));
}

#[test]
fn const16_sign_extension() {
    // unit 0xffff sign-extends to literal -1
    let buf: [u16; 2] = [0x0013, 0xffff];
    let mut s: &[u16] = &buf;
    assert_eq!(decode_one(&mut s).unwrap(), Instruction::Const16(0, -1));
}

#[test]
fn decoding_is_deterministic() {
    let buf: [u16; 3] = [0x2071, 0x4455, 0x0030];
    let mut s1: &[u16] = &buf;
    let mut s2: &[u16] = &buf;
    assert_eq!(decode_one(&mut s1).unwrap(), decode_one(&mut s2).unwrap());
}

#[test]
fn declared_length_matches_consumed_units() {
    let cases: [(&[u16], usize); 5] = [
        (&[0x0108, 0x001f], 2),
        (&[0x040c], 1),
        (&[0x001b, 0x4ee5, 0x0021], 3),
        (&[0x0518, 0x1111, 0x2222, 0x3333, 0x4444], 5),
        (&[0x2071, 0x4455, 0x0030], 3),
    ];
    for (buf, expect) in cases {
        let mut s: &[u16] = buf;
        let before = s.len();
        let inst = decode_one(&mut s).unwrap();
        assert_eq!(inst.len(), expect);
        assert_eq!(before - s.len(), expect);
    }
}

#[test]
fn fill_array_data_skip_is_exact() {
    // fill-array-data table with element_width=2, size=3: the skip length is
    // (2*3+1)/2 + 4 = 7 code units, and decoding resumes right after it.
    let buf: [u16; 8] = [0x0300, 0x0002, 0x0003, 0x0000, 0xaaaa, 0xbbbb, 0xcccc, 0x000e];
    let mut s: &[u16] = &buf;
    assert!(matches!(decode_one(&mut s), Err(Error::Metadata { length: 7 })));
    assert_eq!(s.len(), 8);
    let all = decode_all(&buf, usize::MAX).unwrap();
    assert_eq!(all, vec![Instruction::ReturnVoid]);
}

#[test]
fn packed_switch_payload_skip() {
    // ident, size=2, first_key (2 units), 2*2 target units: 8 units in all
    let buf: [u16; 9] = [0x0100, 0x0002, 0x0000, 0x0000, 0x1, 0x0, 0x2, 0x0, 0x000e];
    let mut s: &[u16] = &buf;
    assert!(matches!(decode_one(&mut s), Err(Error::Metadata { length: 8 })));
    let all = decode_all(&buf, usize::MAX).unwrap();
    assert_eq!(all, vec![Instruction::ReturnVoid]);
}

#[test]
fn sparse_switch_payload_skip() {
    // ident, size=1, one key unit pair and one target unit pair: 6 units
    let buf: [u16; 7] = [0x0200, 0x0001, 0x5, 0x0, 0x9, 0x0, 0x000e];
    let mut s: &[u16] = &buf;
    assert!(matches!(decode_one(&mut s), Err(Error::Metadata { length: 6 })));
    let all = decode_all(&buf, usize::MAX).unwrap();
    assert_eq!(all, vec![Instruction::ReturnVoid]);
}

#[test]
fn truncated_payload_is_truncated_error() {
    // the fill-array-data table declares more data than the buffer holds
    let buf: [u16; 5] = [0x0300, 0x0002, 0x0003, 0x0000, 0xaaaa];
    let mut s: &[u16] = &buf;
    assert!(matches!(decode_one(&mut s), Err(Error::Truncated)));
}

#[test]
fn unknown_payload_selector_is_encoding_error() {
    let buf: [u16; 2] = [0x0400, 0x0000];
    let mut s: &[u16] = &buf;
    assert!(matches!(decode_one(&mut s), Err(Error::Encoding)));
}

#[test]
fn decode_all_respects_limit() {
    let buf: [u16; 3] = [0x0000, 0x0000, 0x0000];
    let got = decode_all(&buf, 2).unwrap();
    assert_eq!(got, vec![Instruction::Nop, Instruction::Nop]);
}

#[test]
fn decode_all_propagates_errors() {
    let buf: [u16; 2] = [0x0000, 0x0108];
    assert!(matches!(decode_all(&buf, usize::MAX), Err(Error::Truncated)));
}

#[test]
fn filled_new_array_range_registers() {
    let buf: [u16; 3] = [0x0225, 0x0042, 0x0007];
    let mut s: &[u16] = &buf;
    match decode_one(&mut s).unwrap() {
        Instruction::FilledNewArrayRange { ty, args } => {
            assert_eq!(ty, 0x42);
            assert_eq!(args, vec![7, 8]);
        }
        other => panic!("decoded {:?}", other),
    }
}
