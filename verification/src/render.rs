//! Textual rendering of instructions.
//!
//! [`Instruction::display`] renders the bare mnemonic with registers,
//! literals and raw symbol-table indices; its contract pins the exact
//! character sequence through [`spec_display`]. The [`PrettyPrint`] trait
//! lets a caller supply symbol lookups (method, field, string and type
//! names) so that [`PrettyPrint::print`] can resolve indices to names.

use crate::Instruction;
use vstd::prelude::*;
use vstd::string::StringExecFns;

verus! {

/// The lower-case digit character for a value below sixteen.
pub open spec fn digit_s(d: int) -> char {
    if d == 0 {
        '0'
    } else if d == 1 {
        '1'
    } else if d == 2 {
        '2'
    } else if d == 3 {
        '3'
    } else if d == 4 {
        '4'
    } else if d == 5 {
        '5'
    } else if d == 6 {
        '6'
    } else if d == 7 {
        '7'
    } else if d == 8 {
        '8'
    } else if d == 9 {
        '9'
    } else if d == 10 {
        'a'
    } else if d == 11 {
        'b'
    } else if d == 12 {
        'c'
    } else if d == 13 {
        'd'
    } else if d == 14 {
        'e'
    } else {
        'f'
    }
}

/// The decimal rendering of a non-negative number, most significant digit
/// first.
pub open spec fn dec_s(n: int) -> Seq<char>
    decreases n,
{
    if n <= 9 {
        seq![digit_s(n)]
    } else {
        dec_s(n / 10) + seq![digit_s(n % 10)]
    }
}

/// The lower-case hexadecimal rendering of a non-negative number, most
/// significant digit first, without a prefix.
pub open spec fn hex_s(n: int) -> Seq<char>
    decreases n,
{
    if n <= 15 {
        seq![digit_s(n)]
    } else {
        hex_s(n / 16) + seq![digit_s(n % 16)]
    }
}

/// The always-signed decimal rendering of a number: a `+` or `-` sign
/// followed by the digits of its magnitude.
pub open spec fn plus_s(v: int) -> Seq<char> {
    if v >= 0 {
        "+"@ + dec_s(v)
    } else {
        "-"@ + dec_s(-v)
    }
}

/// A register list as rendered inside braces: `v` before each register
/// number and `, ` between entries.
pub open spec fn args_s(regs: Seq<int>) -> Seq<char>
    decreases regs.len(),
{
    if regs.len() == 0 {
        Seq::empty()
    } else if regs.len() == 1 {
        "v"@ + dec_s(regs[0])
    } else {
        args_s(regs.drop_last()) + ", v"@ + dec_s(regs.last())
    }
}

/// The register numbers of a five-slot argument array, limited to the
/// declared argument count (itself clamped to the five slots).
pub open spec fn regs5(args: Seq<u8>, nargs: u8) -> Seq<int> {
    args.take(
        if nargs > 5 {
            5int
        } else {
            nargs as int
        },
    ).map_values(|x: u8| x as int)
}

/// The register numbers of a range-instruction register vector.
pub open spec fn regs16(args: Seq<u16>) -> Seq<int> {
    args.map_values(|x: u16| x as int)
}

/// `verb v1`
pub open spec fn one_regs_s(verb: Seq<char>, reg: int) -> Seq<char> {
    verb + " v"@ + dec_s(reg)
}

/// `verb v1, v2`
pub open spec fn two_regs_s(verb: Seq<char>, dst: int, src: int) -> Seq<char> {
    verb + " v"@ + dec_s(dst) + ", v"@ + dec_s(src)
}

/// `verb v1, v2, v3`
pub open spec fn three_regs_s(verb: Seq<char>, dst: int, src1: int, src2: int) -> Seq<char> {
    verb + " v"@ + dec_s(dst) + ", v"@ + dec_s(src1) + ", v"@ + dec_s(src2)
}

/// `verb v1, v2, field@f`
pub open spec fn igetters_s(verb: Seq<char>, dst: int, src: int, field: int) -> Seq<char> {
    verb + " v"@ + dec_s(dst) + ", v"@ + dec_s(src) + ", field@"@ + hex_s(field)
}

/// `verb v1, field@f`
pub open spec fn sgetters_s(verb: Seq<char>, dst: int, field: int) -> Seq<char> {
    verb + " v"@ + dec_s(dst) + ", field@"@ + hex_s(field)
}

/// `invoke-kind {v1, v2}, method@m`
pub open spec fn invoke_s(kind: Seq<char>, regs: Seq<int>, method: int) -> Seq<char> {
    "invoke-"@ + kind + " {"@ + args_s(regs) + "}, method@"@ + hex_s(method)
}

/// `invoke-kind/range {v1, v2}, method@m`
pub open spec fn invoke_range_s(kind: Seq<char>, regs: Seq<int>, method: int) -> Seq<char> {
    "invoke-"@ + kind + "/range {"@ + args_s(regs) + "}, method@"@ + hex_s(method)
}

/// `filled-new-array {v1, v2}, type@t`
pub open spec fn filled_s(regs: Seq<int>, ty: int) -> Seq<char> {
    "filled-new-array {"@ + args_s(regs) + "}, type@"@ + hex_s(ty)
}

/// `filled-new-array/range {v1, v2}, type@t`
pub open spec fn filled_range_s(regs: Seq<int>, ty: int) -> Seq<char> {
    "filled-new-array/range {"@ + args_s(regs) + "}, type@"@ + hex_s(ty)
}

/// `verb v1, "contents"`: a string constant with its resolved contents.
pub open spec fn string_const_s(verb: Seq<char>, dst: int, contents: Seq<char>) -> Seq<char> {
    verb + " v"@ + dec_s(dst) + ", \""@ + contents + "\""@
}

/// `verb v1, Type`: a type use with the resolved type name.
pub open spec fn type_use_s(verb: Seq<char>, dst: int, ty: Seq<char>) -> Seq<char> {
    verb + " v"@ + dec_s(dst) + ", "@ + ty
}

/// `verb v1, v2, Type`: a two-register type use with the resolved type name.
pub open spec fn type_use2_s(verb: Seq<char>, dst: int, src: int, ty: Seq<char>) -> Seq<char> {
    verb + " v"@ + dec_s(dst) + ", v"@ + dec_s(src) + ", "@ + ty
}

/// `filled-new-array {v1, v2}, Type`: with the resolved element type name.
pub open spec fn filled_resolved_s(regs: Seq<int>, ty: Seq<char>) -> Seq<char> {
    "filled-new-array {"@ + args_s(regs) + "}, "@ + ty
}

/// `filled-new-array/range {v1, v2}, Type`: with the resolved type name.
pub open spec fn filled_range_resolved_s(regs: Seq<int>, ty: Seq<char>) -> Seq<char> {
    "filled-new-array/range {"@ + args_s(regs) + "}, "@ + ty
}

/// `verb v1, 2, Class->name:Type` (without the `2, ` when there is no
/// object register): a field access with its resolved class, name and type.
pub open spec fn field_access_s(
    verb: Seq<char>,
    dst: int,
    src: Option<u8>,
    class: Seq<char>,
    fname: Seq<char>,
    ty: Seq<char>,
) -> Seq<char> {
    let base = verb + " v"@ + dec_s(dst) + ", "@;
    let base2 = if src is Some {
        base + dec_s(src->0 as int) + ", "@
    } else {
        base
    };
    base2 + class + "->"@ + fname + ":"@ + ty
}

/// `invoke-kind {v1, v2}, Class->name(Params)Return`: an invoke with its
/// resolved method signature.
pub open spec fn invoke_resolved_s(
    kind: Seq<char>,
    regs: Seq<int>,
    class: Seq<char>,
    fname: Seq<char>,
    params: Seq<char>,
    ret: Seq<char>,
) -> Seq<char> {
    "invoke-"@ + kind + " {"@ + args_s(regs) + "}, "@ + class + "->"@ + fname + "("@ + params
        + ")"@ + ret
}

/// `invoke-kind/range {v1, v2}, Class->name(Params)Return`: a range invoke
/// with its resolved method signature.
pub open spec fn invoke_range_resolved_s(
    kind: Seq<char>,
    regs: Seq<int>,
    class: Seq<char>,
    fname: Seq<char>,
    params: Seq<char>,
    ret: Seq<char>,
) -> Seq<char> {
    "invoke-"@ + kind + "/range {"@ + args_s(regs) + "}, "@ + class + "->"@ + fname + "("@
        + params + ")"@ + ret
}

fn push_digit(t: &mut String, d: u8)
    requires
        d < 16,
    ensures
        final(t)@ == old(t)@ + seq![digit_s(d as int)],
{
    if d == 0 {
        proof {
            reveal_strlit("0");
            assert("0"@ =~= seq![digit_s(0int)]);
        }
        t.append("0");
    } else if d == 1 {
        proof {
            reveal_strlit("1");
            assert("1"@ =~= seq![digit_s(1int)]);
        }
        t.append("1");
    } else if d == 2 {
        proof {
            reveal_strlit("2");
            assert("2"@ =~= seq![digit_s(2int)]);
        }
        t.append("2");
    } else if d == 3 {
        proof {
            reveal_strlit("3");
            assert("3"@ =~= seq![digit_s(3int)]);
        }
        t.append("3");
    } else if d == 4 {
        proof {
            reveal_strlit("4");
            assert("4"@ =~= seq![digit_s(4int)]);
        }
        t.append("4");
    } else if d == 5 {
        proof {
            reveal_strlit("5");
            assert("5"@ =~= seq![digit_s(5int)]);
        }
        t.append("5");
    } else if d == 6 {
        proof {
            reveal_strlit("6");
            assert("6"@ =~= seq![digit_s(6int)]);
        }
        t.append("6");
    } else if d == 7 {
        proof {
            reveal_strlit("7");
            assert("7"@ =~= seq![digit_s(7int)]);
        }
        t.append("7");
    } else if d == 8 {
        proof {
            reveal_strlit("8");
            assert("8"@ =~= seq![digit_s(8int)]);
        }
        t.append("8");
    } else if d == 9 {
        proof {
            reveal_strlit("9");
            assert("9"@ =~= seq![digit_s(9int)]);
        }
        t.append("9");
    } else if d == 10 {
        proof {
            reveal_strlit("a");
            assert("a"@ =~= seq![digit_s(10int)]);
        }
        t.append("a");
    } else if d == 11 {
        proof {
            reveal_strlit("b");
            assert("b"@ =~= seq![digit_s(11int)]);
        }
        t.append("b");
    } else if d == 12 {
        proof {
            reveal_strlit("c");
            assert("c"@ =~= seq![digit_s(12int)]);
        }
        t.append("c");
    } else if d == 13 {
        proof {
            reveal_strlit("d");
            assert("d"@ =~= seq![digit_s(13int)]);
        }
        t.append("d");
    } else if d == 14 {
        proof {
            reveal_strlit("e");
            assert("e"@ =~= seq![digit_s(14int)]);
        }
        t.append("e");
    } else {
        proof {
            reveal_strlit("f");
            assert("f"@ =~= seq![digit_s(15int)]);
        }
        t.append("f");
    }
}

fn push_dec(t: &mut String, n: u64)
    ensures
        final(t)@ == old(t)@ + dec_s(n as int),
    decreases n,
{
    if n >= 10 {
        push_dec(t, n / 10);
        push_digit(t, (n % 10) as u8);
        proof {
            assert(t@ =~= old(t)@ + dec_s(n as int));
        }
    } else {
        push_digit(t, n as u8);
    }
}

fn push_hex(t: &mut String, n: u64)
    ensures
        final(t)@ == old(t)@ + hex_s(n as int),
    decreases n,
{
    if n >= 16 {
        push_hex(t, n / 16);
        push_digit(t, (n % 16) as u8);
        proof {
            assert(t@ =~= old(t)@ + hex_s(n as int));
        }
    } else {
        push_digit(t, n as u8);
    }
}

fn push_plus(t: &mut String, v: i32)
    ensures
        final(t)@ == old(t)@ + plus_s(v as int),
{
    if v >= 0 {
        t.append("+");
        push_dec(t, v as u64);
        proof {
            assert(t@ =~= old(t)@ + plus_s(v as int));
        }
    } else {
        t.append("-");
        push_dec(t, (-(v as i64)) as u64);
        proof {
            assert(t@ =~= old(t)@ + plus_s(v as int));
        }
    }
}

fn push_args8(t: &mut String, args: &[u8; 5], nargs: u8)
    ensures
        final(t)@ == old(t)@ + args_s(regs5(args@, nargs)),
{
    let n: usize = if nargs > 5 {
        5
    } else {
        nargs as usize
    };
    proof {
        assert(regs5(args@, nargs).len() == n);
        assert(old(t)@ + args_s(regs5(args@, nargs).take(0)) =~= t@);
    }
    let mut k: usize = 0;
    while k < n
        invariant
            n <= 5,
            k <= n,
            n == regs5(args@, nargs).len(),
            t@ == old(t)@ + args_s(regs5(args@, nargs).take(k as int)),
        decreases n - k,
    {
        if k == 0 {
            t.append("v");
        } else {
            t.append(", v");
        }
        push_dec(t, args[k] as u64);
        proof {
            let regs = regs5(args@, nargs);
            assert(regs.take(k as int + 1).drop_last() =~= regs.take(k as int));
            assert(regs.take(k as int + 1).last() == args@[k as int] as int);
            assert(t@ =~= old(t)@ + args_s(regs.take(k as int + 1)));
        }
        k += 1;
    }
    proof {
        assert(regs5(args@, nargs).take(n as int) =~= regs5(args@, nargs));
    }
}

fn push_args16(t: &mut String, args: &Vec<u16>)
    ensures
        final(t)@ == old(t)@ + args_s(regs16(args@)),
{
    let n: usize = args.len();
    proof {
        assert(regs16(args@).len() == n);
        assert(old(t)@ + args_s(regs16(args@).take(0)) =~= t@);
    }
    let mut k: usize = 0;
    while k < n
        invariant
            k <= n,
            n == args@.len(),
            n == regs16(args@).len(),
            t@ == old(t)@ + args_s(regs16(args@).take(k as int)),
        decreases n - k,
    {
        if k == 0 {
            t.append("v");
        } else {
            t.append(", v");
        }
        push_dec(t, args[k] as u64);
        proof {
            let regs = regs16(args@);
            assert(regs.take(k as int + 1).drop_last() =~= regs.take(k as int));
            assert(regs.take(k as int + 1).last() == args@[k as int] as int);
            assert(t@ =~= old(t)@ + args_s(regs.take(k as int + 1)));
        }
        k += 1;
    }
    proof {
        assert(regs16(args@).take(n as int) =~= regs16(args@));
    }
}

fn one_regs_display(verb: &str, reg: u16) -> (r: String)
    ensures
        r@ == one_regs_s(verb@, reg as int),
{
    let mut t = String::from_str(verb);
    t.append(" v");
    push_dec(&mut t, reg as u64);
    t
}

fn two_regs_display(verb: &str, dst: u16, src: u16) -> (r: String)
    ensures
        r@ == two_regs_s(verb@, dst as int, src as int),
{
    let mut t = String::from_str(verb);
    t.append(" v");
    push_dec(&mut t, dst as u64);
    t.append(", v");
    push_dec(&mut t, src as u64);
    t
}

fn three_regs_display(verb: &str, dst: u16, src1: u16, src2: u16) -> (r: String)
    ensures
        r@ == three_regs_s(verb@, dst as int, src1 as int, src2 as int),
{
    let mut t = String::from_str(verb);
    t.append(" v");
    push_dec(&mut t, dst as u64);
    t.append(", v");
    push_dec(&mut t, src1 as u64);
    t.append(", v");
    push_dec(&mut t, src2 as u64);
    t
}

fn igetters_display(verb: &str, dst: u8, src: u8, field: u16) -> (r: String)
    ensures
        r@ == igetters_s(verb@, dst as int, src as int, field as int),
{
    let mut t = String::from_str(verb);
    t.append(" v");
    push_dec(&mut t, dst as u64);
    t.append(", v");
    push_dec(&mut t, src as u64);
    t.append(", field@");
    push_hex(&mut t, field as u64);
    t
}

fn sgetters_display(verb: &str, dst: u8, field: u16) -> (r: String)
    ensures
        r@ == sgetters_s(verb@, dst as int, field as int),
{
    let mut t = String::from_str(verb);
    t.append(" v");
    push_dec(&mut t, dst as u64);
    t.append(", field@");
    push_hex(&mut t, field as u64);
    t
}

fn invoke_display(args: &[u8; 5], nargs: u8, method: u16, kind: &str) -> (r: String)
    ensures
        r@ == invoke_s(kind@, regs5(args@, nargs), method as int),
{
    let mut t = String::from_str("invoke-");
    t.append(kind);
    t.append(" {");
    push_args8(&mut t, args, nargs);
    t.append("}, method@");
    push_hex(&mut t, method as u64);
    t
}

fn invoke_range_display(args: &Vec<u16>, method: u16, kind: &str) -> (r: String)
    ensures
        r@ == invoke_range_s(kind@, regs16(args@), method as int),
{
    let mut t = String::from_str("invoke-");
    t.append(kind);
    t.append("/range {");
    push_args16(&mut t, args);
    t.append("}, method@");
    push_hex(&mut t, method as u64);
    t
}

fn filled_display(args: &[u8; 5], nargs: u8, ty: u16) -> (r: String)
    ensures
        r@ == filled_s(regs5(args@, nargs), ty as int),
{
    let mut t = String::from_str("filled-new-array {");
    push_args8(&mut t, args, nargs);
    t.append("}, type@");
    push_hex(&mut t, ty as u64);
    t
}

fn filled_range_display(args: &Vec<u16>, ty: u16) -> (r: String)
    ensures
        r@ == filled_range_s(regs16(args@), ty as int),
{
    let mut t = String::from_str("filled-new-array/range {");
    push_args16(&mut t, args);
    t.append("}, type@");
    push_hex(&mut t, ty as u64);
    t
}

/// The exact mnemonic rendering of an instruction: the mnemonic verb, its
/// registers in mnemonic order, and literals in hexadecimal, offsets in
/// always-signed decimal, and symbol-table indices in bare hexadecimal
/// behind their kind tag.
pub open spec fn spec_display(i: Instruction) -> Seq<char> {
    match i {
        Instruction::Nop => "nop"@,
        Instruction::Move(dst, src) => two_regs_s("move"@, dst as int, src as int),
        Instruction::MoveFrom16(dst, src) => two_regs_s("move/from16"@, dst as int, src as int),
        Instruction::Move16(dst, src) => two_regs_s("move/16"@, dst as int, src as int),
        Instruction::MoveWide(dst, src) => two_regs_s("move-wide"@, dst as int, src as int),
        Instruction::MoveWideFrom16(dst, src) => two_regs_s("move-wide/from16"@, dst as int, src as int),
        Instruction::MoveWide16(dst, src) => two_regs_s("move-wide/16"@, dst as int, src as int),
        Instruction::MoveObject(dst, src) => two_regs_s("move-object"@, dst as int, src as int),
        Instruction::MoveObjectFrom16(dst, src) => two_regs_s("move-object/from16"@, dst as int, src as int),
        Instruction::MoveObject16(dst, src) => two_regs_s("move-object/16"@, dst as int, src as int),
        Instruction::MoveResult(reg) => one_regs_s("move-result"@, reg as int),
        Instruction::MoveResultWide(reg) => one_regs_s("move-result-wide"@, reg as int),
        Instruction::MoveResultObject(reg) => one_regs_s("move-result-object"@, reg as int),
        Instruction::MoveException(reg) => one_regs_s("move-exception"@, reg as int),
        Instruction::ReturnVoid => "return-void"@,
        Instruction::Return(reg) => one_regs_s("return"@, reg as int),
        Instruction::ReturnWide(reg) => one_regs_s("return-wide"@, reg as int),
        Instruction::ReturnObject(reg) => one_regs_s("return-object"@, reg as int),
        Instruction::Const4(dst, val) => "const/4 v"@ + dec_s(dst as int) + ", 0x"@ + hex_s((val as u8) as int),
        Instruction::Const16(dst, val) => "const/16 v"@ + dec_s(dst as int) + ", 0x"@ + hex_s((val as u16) as int),
        Instruction::Const(dst, val) => "const v"@ + dec_s(dst as int) + ", 0x"@ + hex_s(val as int),
        Instruction::ConstHigh16(dst, val) => "const/high16 v"@ + dec_s(dst as int) + ", 0x"@ + hex_s((val as u16) as int) + "0000"@,
        Instruction::ConstWide16(dst, val) => "const-wide/16 v"@ + dec_s(dst as int) + ", 0x"@ + hex_s((val as u16) as int),
        Instruction::ConstWide32(dst, val) => "const-wide/32 v"@ + dec_s(dst as int) + ", 0x"@ + hex_s(val as int),
        Instruction::ConstWide(dst, val) => "const-wide v"@ + dec_s(dst as int) + ", 0x"@ + hex_s(val as int),
        Instruction::ConstWideHigh16(dst, val) => "const-wide/high16 v"@ + dec_s(dst as int) + ", 0x"@ + hex_s(val as int),
        Instruction::ConstString(dst, idx) => "const-string v"@ + dec_s(dst as int) + ", string@"@ + hex_s(idx as int),
        Instruction::ConstStringJumbo(dst, idx) => "const-string/jumbo v"@ + dec_s(dst as int) + ", string@"@ + hex_s(idx as int),
        Instruction::ConstClass(dst, idx) => "const-class v"@ + dec_s(dst as int) + ", type@"@ + hex_s(idx as int),
        Instruction::MonitorEnter(reg) => one_regs_s("monitor-enter"@, reg as int),
        Instruction::MonitorExit(reg) => one_regs_s("monitor-exit"@, reg as int),
        Instruction::CheckCast(dst, idx) => "check-cast v"@ + dec_s(dst as int) + ", type@"@ + hex_s(idx as int),
        Instruction::InstanceOf(dst, src, idx) => "instance-of v"@ + dec_s(dst as int) + ", v"@ + dec_s(src as int) + ", type@"@ + hex_s(idx as int),
        Instruction::ArrayLength(dst, src) => two_regs_s("array-length"@, dst as int, src as int),
        Instruction::NewInstance(dst, idx) => "new-instance v"@ + dec_s(dst as int) + ", type@"@ + hex_s(idx as int),
        Instruction::NewArray(dst, src, idx) => "new-array v"@ + dec_s(dst as int) + ", v"@ + dec_s(src as int) + ", type@"@ + hex_s(idx as int),
        Instruction::FilledNewArray { ty, nargs, args } => filled_s(regs5(args@, nargs), ty as int),
        Instruction::FilledNewArrayRange { ty, args } => filled_range_s(regs16(args@), ty as int),
        Instruction::FillArrayData(reg, off) => "fill-array-data v"@ + dec_s(reg as int) + ", "@ + plus_s(off as int),
        Instruction::Throw(reg) => one_regs_s("throw"@, reg as int),
        Instruction::Goto(off) => "goto "@ + plus_s(off as int),
        Instruction::Goto16(off) => "goto/16 "@ + plus_s(off as int),
        Instruction::Goto32(off) => "goto/32 "@ + plus_s(off as int),
        Instruction::PackedSwitch(reg, off) => "packed-switch v"@ + dec_s(reg as int) + ", "@ + plus_s(off as int),
        Instruction::SparseSwitch(reg, off) => "sparse-switch v"@ + dec_s(reg as int) + ", "@ + plus_s(off as int),
        Instruction::CmplFloat(dst, src1, src2) => three_regs_s("cmpl-float"@, dst as int, src1 as int, src2 as int),
        Instruction::CmpgFloat(dst, src1, src2) => three_regs_s("cmpg-float"@, dst as int, src1 as int, src2 as int),
        Instruction::CmplDouble(dst, src1, src2) => three_regs_s("cmpl-double"@, dst as int, src1 as int, src2 as int),
        Instruction::CmpgDouble(dst, src1, src2) => three_regs_s("cmpg-double"@, dst as int, src1 as int, src2 as int),
        Instruction::CmpLong(dst, src1, src2) => three_regs_s("cmp-long"@, dst as int, src1 as int, src2 as int),
        Instruction::IfEq(a, b, off) => "if-eq v"@ + dec_s(a as int) + ", v"@ + dec_s(b as int) + " "@ + plus_s(off as int),
        Instruction::IfNe(a, b, off) => "if-ne v"@ + dec_s(a as int) + ", v"@ + dec_s(b as int) + " "@ + plus_s(off as int),
        Instruction::IfLt(a, b, off) => "if-lt v"@ + dec_s(a as int) + ", v"@ + dec_s(b as int) + " "@ + plus_s(off as int),
        Instruction::IfGe(a, b, off) => "if-ge v"@ + dec_s(a as int) + ", v"@ + dec_s(b as int) + " "@ + plus_s(off as int),
        Instruction::IfGt(a, b, off) => "if-gt v"@ + dec_s(a as int) + ", v"@ + dec_s(b as int) + " "@ + plus_s(off as int),
        Instruction::IfLe(a, b, off) => "if-le v"@ + dec_s(a as int) + ", v"@ + dec_s(b as int) + " "@ + plus_s(off as int),
        Instruction::IfEqz(reg, off) => "if-eqz v"@ + dec_s(reg as int) + ", "@ + plus_s(off as int),
        Instruction::IfNez(reg, off) => "if-nez v"@ + dec_s(reg as int) + ", "@ + plus_s(off as int),
        Instruction::IfLtz(reg, off) => "if-ltz v"@ + dec_s(reg as int) + ", "@ + plus_s(off as int),
        Instruction::IfGez(reg, off) => "if-gez v"@ + dec_s(reg as int) + ", "@ + plus_s(off as int),
        Instruction::IfGtz(reg, off) => "if-gtz v"@ + dec_s(reg as int) + ", "@ + plus_s(off as int),
        Instruction::IfLez(reg, off) => "if-lez v"@ + dec_s(reg as int) + ", "@ + plus_s(off as int),
        Instruction::AGet(dst, src1, src2) => three_regs_s("aget"@, dst as int, src1 as int, src2 as int),
        Instruction::AGetWide(dst, src1, src2) => three_regs_s("aget-wide"@, dst as int, src1 as int, src2 as int),
        Instruction::AGetObject(dst, src1, src2) => three_regs_s("aget-object"@, dst as int, src1 as int, src2 as int),
        Instruction::AGetBoolean(dst, src1, src2) => three_regs_s("aget-boolean"@, dst as int, src1 as int, src2 as int),
        Instruction::AGetByte(dst, src1, src2) => three_regs_s("aget-byte"@, dst as int, src1 as int, src2 as int),
        Instruction::AGetChar(dst, src1, src2) => three_regs_s("aget-char"@, dst as int, src1 as int, src2 as int),
        Instruction::AGetShort(dst, src1, src2) => three_regs_s("aget-short"@, dst as int, src1 as int, src2 as int),
        Instruction::APut(dst, src1, src2) => three_regs_s("aput"@, dst as int, src1 as int, src2 as int),
        Instruction::APutWide(dst, src1, src2) => three_regs_s("aput-wide"@, dst as int, src1 as int, src2 as int),
        Instruction::APutObject(dst, src1, src2) => three_regs_s("aput-object"@, dst as int, src1 as int, src2 as int),
        Instruction::APutBoolean(dst, src1, src2) => three_regs_s("aput-boolean"@, dst as int, src1 as int, src2 as int),
        Instruction::APutByte(dst, src1, src2) => three_regs_s("aput-byte"@, dst as int, src1 as int, src2 as int),
        Instruction::APutChar(dst, src1, src2) => three_regs_s("aput-char"@, dst as int, src1 as int, src2 as int),
        Instruction::APutShort(dst, src1, src2) => three_regs_s("aput-short"@, dst as int, src1 as int, src2 as int),
        Instruction::IGet(dst, src, field) => igetters_s("iget"@, dst as int, src as int, field as int),
        Instruction::IGetWide(dst, src, field) => igetters_s("iget-wide"@, dst as int, src as int, field as int),
        Instruction::IGetObject(dst, src, field) => igetters_s("iget-object"@, dst as int, src as int, field as int),
        Instruction::IGetBoolean(dst, src, field) => igetters_s("iget-boolean"@, dst as int, src as int, field as int),
        Instruction::IGetByte(dst, src, field) => igetters_s("iget-byte"@, dst as int, src as int, field as int),
        Instruction::IGetChar(dst, src, field) => igetters_s("iget-char"@, dst as int, src as int, field as int),
        Instruction::IGetShort(dst, src, field) => igetters_s("iget-short"@, dst as int, src as int, field as int),
        Instruction::IPut(dst, src, field) => igetters_s("iput"@, dst as int, src as int, field as int),
        Instruction::IPutWide(dst, src, field) => igetters_s("iput-wide"@, dst as int, src as int, field as int),
        Instruction::IPutObject(dst, src, field) => igetters_s("iput-object"@, dst as int, src as int, field as int),
        Instruction::IPutBoolean(dst, src, field) => igetters_s("iput-boolean"@, dst as int, src as int, field as int),
        Instruction::IPutByte(dst, src, field) => igetters_s("iput-byte"@, dst as int, src as int, field as int),
        Instruction::IPutChar(dst, src, field) => igetters_s("iput-char"@, dst as int, src as int, field as int),
        Instruction::IPutShort(dst, src, field) => igetters_s("iput-short"@, dst as int, src as int, field as int),
        Instruction::SGet(dst, field) => sgetters_s("sget"@, dst as int, field as int),
        Instruction::SGetWide(dst, field) => sgetters_s("sget-wide"@, dst as int, field as int),
        Instruction::SGetObject(dst, field) => sgetters_s("sget-object"@, dst as int, field as int),
        Instruction::SGetBoolean(dst, field) => sgetters_s("sget-boolean"@, dst as int, field as int),
        Instruction::SGetByte(dst, field) => sgetters_s("sget-byte"@, dst as int, field as int),
        Instruction::SGetChar(dst, field) => sgetters_s("sget-char"@, dst as int, field as int),
        Instruction::SGetShort(dst, field) => sgetters_s("sget-short"@, dst as int, field as int),
        Instruction::SPut(dst, field) => sgetters_s("sput"@, dst as int, field as int),
        Instruction::SPutWide(dst, field) => sgetters_s("sput-wide"@, dst as int, field as int),
        Instruction::SPutObject(dst, field) => sgetters_s("sput-object"@, dst as int, field as int),
        Instruction::SPutBoolean(dst, field) => sgetters_s("sput-boolean"@, dst as int, field as int),
        Instruction::SPutByte(dst, field) => sgetters_s("sput-byte"@, dst as int, field as int),
        Instruction::SPutChar(dst, field) => sgetters_s("sput-char"@, dst as int, field as int),
        Instruction::SPutShort(dst, field) => sgetters_s("sput-short"@, dst as int, field as int),
        Instruction::InvokeVirtual { method, nargs, args } => invoke_s("virtual"@, regs5(args@, nargs), method as int),
        Instruction::InvokeSuper { method, nargs, args } => invoke_s("super"@, regs5(args@, nargs), method as int),
        Instruction::InvokeDirect { method, nargs, args } => invoke_s("direct"@, regs5(args@, nargs), method as int),
        Instruction::InvokeStatic { method, nargs, args } => invoke_s("static"@, regs5(args@, nargs), method as int),
        Instruction::InvokeInterface { method, nargs, args } => invoke_s("interface"@, regs5(args@, nargs), method as int),
        Instruction::InvokeVirtualRange { method, args } => invoke_range_s("virtual"@, regs16(args@), method as int),
        Instruction::InvokeSuperRange { method, args } => invoke_range_s("super"@, regs16(args@), method as int),
        Instruction::InvokeDirectRange { method, args } => invoke_range_s("direct"@, regs16(args@), method as int),
        Instruction::InvokeStaticRange { method, args } => invoke_range_s("static"@, regs16(args@), method as int),
        Instruction::InvokeInterfaceRange { method, args } => invoke_range_s("interface"@, regs16(args@), method as int),
        Instruction::NegInt(dst, src) => two_regs_s("neg-int"@, dst as int, src as int),
        Instruction::NotInt(dst, src) => two_regs_s("not-int"@, dst as int, src as int),
        Instruction::NegLong(dst, src) => two_regs_s("neg-long"@, dst as int, src as int),
        Instruction::NotLong(dst, src) => two_regs_s("not-long"@, dst as int, src as int),
        Instruction::NegFloat(dst, src) => two_regs_s("neg-float"@, dst as int, src as int),
        Instruction::NegDouble(dst, src) => two_regs_s("neg-double"@, dst as int, src as int),
        Instruction::IntToLong(dst, src) => two_regs_s("int-to-long"@, dst as int, src as int),
        Instruction::IntToFloat(dst, src) => two_regs_s("int-to-float"@, dst as int, src as int),
        Instruction::IntToDouble(dst, src) => two_regs_s("int-to-double"@, dst as int, src as int),
        Instruction::LongToInt(dst, src) => two_regs_s("long-to-int"@, dst as int, src as int),
        Instruction::LongToFloat(dst, src) => two_regs_s("long-to-float"@, dst as int, src as int),
        Instruction::LongToDouble(dst, src) => two_regs_s("long-to-double"@, dst as int, src as int),
        Instruction::FloatToInt(dst, src) => two_regs_s("float-to-int"@, dst as int, src as int),
        Instruction::FloatToLong(dst, src) => two_regs_s("float-to-long"@, dst as int, src as int),
        Instruction::FloatToDouble(dst, src) => two_regs_s("float-to-double"@, dst as int, src as int),
        Instruction::DoubleToInt(dst, src) => two_regs_s("double-to-int"@, dst as int, src as int),
        Instruction::DoubleToLong(dst, src) => two_regs_s("double-to-long"@, dst as int, src as int),
        Instruction::DoubleToFloat(dst, src) => two_regs_s("double-to-float"@, dst as int, src as int),
        Instruction::IntTobyte(dst, src) => two_regs_s("int-to-byte"@, dst as int, src as int),
        Instruction::IntTochar(dst, src) => two_regs_s("int-to-char"@, dst as int, src as int),
        Instruction::IntToshort(dst, src) => two_regs_s("int-to-short"@, dst as int, src as int),
        Instruction::AddInt(dst, src1, src2) => three_regs_s("add-int"@, dst as int, src1 as int, src2 as int),
        Instruction::SubInt(dst, src1, src2) => three_regs_s("sub-int"@, dst as int, src1 as int, src2 as int),
        Instruction::MulInt(dst, src1, src2) => three_regs_s("mul-int"@, dst as int, src1 as int, src2 as int),
        Instruction::DivInt(dst, src1, src2) => three_regs_s("div-int"@, dst as int, src1 as int, src2 as int),
        Instruction::RemInt(dst, src1, src2) => three_regs_s("rem-int"@, dst as int, src1 as int, src2 as int),
        Instruction::AndInt(dst, src1, src2) => three_regs_s("and-int"@, dst as int, src1 as int, src2 as int),
        Instruction::OrInt(dst, src1, src2) => three_regs_s("or-int"@, dst as int, src1 as int, src2 as int),
        Instruction::XorInt(dst, src1, src2) => three_regs_s("xor-int"@, dst as int, src1 as int, src2 as int),
        Instruction::ShlInt(dst, src1, src2) => three_regs_s("shl-int"@, dst as int, src1 as int, src2 as int),
        Instruction::ShrInt(dst, src1, src2) => three_regs_s("shr-int"@, dst as int, src1 as int, src2 as int),
        Instruction::UshrInt(dst, src1, src2) => three_regs_s("ushr-int"@, dst as int, src1 as int, src2 as int),
        Instruction::AddLong(dst, src1, src2) => three_regs_s("add-long"@, dst as int, src1 as int, src2 as int),
        Instruction::SubLong(dst, src1, src2) => three_regs_s("sub-long"@, dst as int, src1 as int, src2 as int),
        Instruction::MulLong(dst, src1, src2) => three_regs_s("mul-long"@, dst as int, src1 as int, src2 as int),
        Instruction::DivLong(dst, src1, src2) => three_regs_s("div-long"@, dst as int, src1 as int, src2 as int),
        Instruction::RemLong(dst, src1, src2) => three_regs_s("rem-long"@, dst as int, src1 as int, src2 as int),
        Instruction::AndLong(dst, src1, src2) => three_regs_s("and-long"@, dst as int, src1 as int, src2 as int),
        Instruction::OrLong(dst, src1, src2) => three_regs_s("or-long"@, dst as int, src1 as int, src2 as int),
        Instruction::XorLong(dst, src1, src2) => three_regs_s("xor-long"@, dst as int, src1 as int, src2 as int),
        Instruction::ShlLong(dst, src1, src2) => three_regs_s("shl-long"@, dst as int, src1 as int, src2 as int),
        Instruction::ShrLong(dst, src1, src2) => three_regs_s("shr-long"@, dst as int, src1 as int, src2 as int),
        Instruction::UshrLong(dst, src1, src2) => three_regs_s("ushr-long"@, dst as int, src1 as int, src2 as int),
        Instruction::AddFloat(dst, src1, src2) => three_regs_s("add-float"@, dst as int, src1 as int, src2 as int),
        Instruction::SubFloat(dst, src1, src2) => three_regs_s("sub-float"@, dst as int, src1 as int, src2 as int),
        Instruction::MulFloat(dst, src1, src2) => three_regs_s("mul-float"@, dst as int, src1 as int, src2 as int),
        Instruction::DivFloat(dst, src1, src2) => three_regs_s("div-float"@, dst as int, src1 as int, src2 as int),
        Instruction::RemFloat(dst, src1, src2) => three_regs_s("rem-float"@, dst as int, src1 as int, src2 as int),
        Instruction::AddDouble(dst, src1, src2) => three_regs_s("add-double"@, dst as int, src1 as int, src2 as int),
        Instruction::SubDouble(dst, src1, src2) => three_regs_s("sub-double"@, dst as int, src1 as int, src2 as int),
        Instruction::MulDouble(dst, src1, src2) => three_regs_s("mul-double"@, dst as int, src1 as int, src2 as int),
        Instruction::DivDouble(dst, src1, src2) => three_regs_s("div-double"@, dst as int, src1 as int, src2 as int),
        Instruction::RemDouble(dst, src1, src2) => three_regs_s("rem-double"@, dst as int, src1 as int, src2 as int),
        Instruction::AddInt2(dst, src) => two_regs_s("add-int/2addr"@, dst as int, src as int),
        Instruction::SubInt2(dst, src) => two_regs_s("sub-int/2addr"@, dst as int, src as int),
        Instruction::MulInt2(dst, src) => two_regs_s("mul-int/2addr"@, dst as int, src as int),
        Instruction::DivInt2(dst, src) => two_regs_s("div-int/2addr"@, dst as int, src as int),
        Instruction::RemInt2(dst, src) => two_regs_s("rem-int/2addr"@, dst as int, src as int),
        Instruction::AndInt2(dst, src) => two_regs_s("and-int/2addr"@, dst as int, src as int),
        Instruction::OrInt2(dst, src) => two_regs_s("or-int/2addr"@, dst as int, src as int),
        Instruction::XorInt2(dst, src) => two_regs_s("xor-int/2addr"@, dst as int, src as int),
        Instruction::ShlInt2(dst, src) => two_regs_s("shl-int/2addr"@, dst as int, src as int),
        Instruction::ShrInt2(dst, src) => two_regs_s("shr-int/2addr"@, dst as int, src as int),
        Instruction::UShrInt2(dst, src) => two_regs_s("ushr-int/2addr"@, dst as int, src as int),
        Instruction::AddLong2(dst, src) => two_regs_s("add-long/2addr"@, dst as int, src as int),
        Instruction::SubLong2(dst, src) => two_regs_s("sub-long/2addr"@, dst as int, src as int),
        Instruction::MulLong2(dst, src) => two_regs_s("mul-long/2addr"@, dst as int, src as int),
        Instruction::DivLong2(dst, src) => two_regs_s("div-long/2addr"@, dst as int, src as int),
        Instruction::RemLong2(dst, src) => two_regs_s("rem-long/2addr"@, dst as int, src as int),
        Instruction::AndLong2(dst, src) => two_regs_s("and-long/2addr"@, dst as int, src as int),
        Instruction::OrLong2(dst, src) => two_regs_s("or-long/2addr"@, dst as int, src as int),
        Instruction::XorLong2(dst, src) => two_regs_s("xor-long/2addr"@, dst as int, src as int),
        Instruction::ShlLong2(dst, src) => two_regs_s("shl-long/2addr"@, dst as int, src as int),
        Instruction::ShrLong2(dst, src) => two_regs_s("shr-long/2addr"@, dst as int, src as int),
        Instruction::UShrLong2(dst, src) => two_regs_s("ushr-long/2addr"@, dst as int, src as int),
        Instruction::AddFloat2(dst, src) => two_regs_s("add-float/2addr"@, dst as int, src as int),
        Instruction::SubFloat2(dst, src) => two_regs_s("sub-float/2addr"@, dst as int, src as int),
        Instruction::MulFloat2(dst, src) => two_regs_s("mul-float/2addr"@, dst as int, src as int),
        Instruction::DivFloat2(dst, src) => two_regs_s("div-float/2addr"@, dst as int, src as int),
        Instruction::RemFloat2(dst, src) => two_regs_s("rem-float/2addr"@, dst as int, src as int),
        Instruction::AddDouble2(dst, src) => two_regs_s("add-double/2addr"@, dst as int, src as int),
        Instruction::SubDouble2(dst, src) => two_regs_s("sub-double/2addr"@, dst as int, src as int),
        Instruction::MulDouble2(dst, src) => two_regs_s("mul-double/2addr"@, dst as int, src as int),
        Instruction::DivDouble2(dst, src) => two_regs_s("div-double/2addr"@, dst as int, src as int),
        Instruction::RemDouble2(dst, src) => two_regs_s("rem-double/2addr"@, dst as int, src as int),
        Instruction::AddInt16(dst, src, lit) => "add-int/lit16 v"@ + dec_s(dst as int) + ", v"@ + dec_s(src as int) + ", 0x"@ + hex_s((lit as u16) as int),
        Instruction::RsubInt16(dst, src, lit) => "rsub-int/lit16 v"@ + dec_s(dst as int) + ", v"@ + dec_s(src as int) + ", 0x"@ + hex_s((lit as u16) as int),
        Instruction::MulInt16(dst, src, lit) => "mul-int/lit16 v"@ + dec_s(dst as int) + ", v"@ + dec_s(src as int) + ", 0x"@ + hex_s((lit as u16) as int),
        Instruction::DivInt16(dst, src, lit) => "div-int/lit16 v"@ + dec_s(dst as int) + ", v"@ + dec_s(src as int) + ", 0x"@ + hex_s((lit as u16) as int),
        Instruction::RemInt16(dst, src, lit) => "rem-int/lit16 v"@ + dec_s(dst as int) + ", v"@ + dec_s(src as int) + ", 0x"@ + hex_s((lit as u16) as int),
        Instruction::AndInt16(dst, src, lit) => "and-int/lit16 v"@ + dec_s(dst as int) + ", v"@ + dec_s(src as int) + ", 0x"@ + hex_s((lit as u16) as int),
        Instruction::OrInt16(dst, src, lit) => "or-int/lit16 v"@ + dec_s(dst as int) + ", v"@ + dec_s(src as int) + ", 0x"@ + hex_s((lit as u16) as int),
        Instruction::XorInt16(dst, src, lit) => "xor-int/lit16 v"@ + dec_s(dst as int) + ", v"@ + dec_s(src as int) + ", 0x"@ + hex_s((lit as u16) as int),
        Instruction::AddInt8(dst, src, lit) => "add-int/lit8 v"@ + dec_s(dst as int) + ", v"@ + dec_s(src as int) + ", 0x"@ + hex_s((lit as u8) as int),
        Instruction::RsubInt8(dst, src, lit) => "rsub-int/lit8 v"@ + dec_s(dst as int) + ", v"@ + dec_s(src as int) + ", 0x"@ + hex_s((lit as u8) as int),
        Instruction::MulInt8(dst, src, lit) => "mul-int/lit8 v"@ + dec_s(dst as int) + ", v"@ + dec_s(src as int) + ", 0x"@ + hex_s((lit as u8) as int),
        Instruction::DivInt8(dst, src, lit) => "div-int/lit8 v"@ + dec_s(dst as int) + ", v"@ + dec_s(src as int) + ", 0x"@ + hex_s((lit as u8) as int),
        Instruction::RemInt8(dst, src, lit) => "rem-int/lit8 v"@ + dec_s(dst as int) + ", v"@ + dec_s(src as int) + ", 0x"@ + hex_s((lit as u8) as int),
        Instruction::AndInt8(dst, src, lit) => "and-int/lit8 v"@ + dec_s(dst as int) + ", v"@ + dec_s(src as int) + ", 0x"@ + hex_s((lit as u8) as int),
        Instruction::OrInt8(dst, src, lit) => "or-int/lit8 v"@ + dec_s(dst as int) + ", v"@ + dec_s(src as int) + ", 0x"@ + hex_s((lit as u8) as int),
        Instruction::XorInt8(dst, src, lit) => "xor-int/lit8 v"@ + dec_s(dst as int) + ", v"@ + dec_s(src as int) + ", 0x"@ + hex_s((lit as u8) as int),
        Instruction::ShlInt8(dst, src, lit) => "shl-int/lit8 v"@ + dec_s(dst as int) + ", v"@ + dec_s(src as int) + ", 0x"@ + hex_s((lit as u8) as int),
        Instruction::ShrInt8(dst, src, lit) => "shr-int/lit8 v"@ + dec_s(dst as int) + ", v"@ + dec_s(src as int) + ", 0x"@ + hex_s((lit as u8) as int),
        Instruction::UshrInt8(dst, src, lit) => "ushr-int/lit8 v"@ + dec_s(dst as int) + ", v"@ + dec_s(src as int) + ", 0x"@ + hex_s((lit as u8) as int),
    }
}

impl Instruction {
    /// Render the instruction as its mnemonic with operands, for example
    /// `move-object/from16 v1, v31`. Symbol-table indices are shown as raw
    /// hexadecimal indices; [`PrettyPrint::print`] resolves them to names.
    #[verifier::rlimit(100)]
    #[verifier::spinoff_prover]
    pub fn display(&self) -> (r: String)
        ensures
            r@ == spec_display(*self),
    {
        match self {
            Instruction::Nop => String::from_str("nop"),
            Instruction::Move(dst, src) => two_regs_display("move", *dst as u16, *src as u16),
            Instruction::MoveFrom16(dst, src) => two_regs_display("move/from16", *dst as u16, *src as u16),
            Instruction::Move16(dst, src) => two_regs_display("move/16", *dst, *src),
            Instruction::MoveWide(dst, src) => two_regs_display("move-wide", *dst as u16, *src as u16),
            Instruction::MoveWideFrom16(dst, src) => two_regs_display("move-wide/from16", *dst as u16, *src as u16),
            Instruction::MoveWide16(dst, src) => two_regs_display("move-wide/16", *dst, *src),
            Instruction::MoveObject(dst, src) => two_regs_display("move-object", *dst as u16, *src as u16),
            Instruction::MoveObjectFrom16(dst, src) => two_regs_display("move-object/from16", *dst as u16, *src as u16),
            Instruction::MoveObject16(dst, src) => two_regs_display("move-object/16", *dst, *src),
            Instruction::MoveResult(reg) => one_regs_display("move-result", *reg as u16),
            Instruction::MoveResultWide(reg) => one_regs_display("move-result-wide", *reg as u16),
            Instruction::MoveResultObject(reg) => one_regs_display("move-result-object", *reg as u16),
            Instruction::MoveException(reg) => one_regs_display("move-exception", *reg as u16),
            Instruction::ReturnVoid => String::from_str("return-void"),
            Instruction::Return(reg) => one_regs_display("return", *reg as u16),
            Instruction::ReturnWide(reg) => one_regs_display("return-wide", *reg as u16),
            Instruction::ReturnObject(reg) => one_regs_display("return-object", *reg as u16),
            Instruction::Const4(dst, val) => {
                let mut t = String::from_str("const/4 v");
                push_dec(&mut t, *dst as u64);
                t.append(", 0x");
                push_hex(&mut t, (*val as u8) as u64);
                t
            },
            Instruction::Const16(dst, val) => {
                let mut t = String::from_str("const/16 v");
                push_dec(&mut t, *dst as u64);
                t.append(", 0x");
                push_hex(&mut t, (*val as u16) as u64);
                t
            },
            Instruction::Const(dst, val) => {
                let mut t = String::from_str("const v");
                push_dec(&mut t, *dst as u64);
                t.append(", 0x");
                push_hex(&mut t, *val as u64);
                t
            },
            Instruction::ConstHigh16(dst, val) => {
                let mut t = String::from_str("const/high16 v");
                push_dec(&mut t, *dst as u64);
                t.append(", 0x");
                push_hex(&mut t, (*val as u16) as u64);
                t.append("0000");
                t
            },
            Instruction::ConstWide16(dst, val) => {
                let mut t = String::from_str("const-wide/16 v");
                push_dec(&mut t, *dst as u64);
                t.append(", 0x");
                push_hex(&mut t, (*val as u16) as u64);
                t
            },
            Instruction::ConstWide32(dst, val) => {
                let mut t = String::from_str("const-wide/32 v");
                push_dec(&mut t, *dst as u64);
                t.append(", 0x");
                push_hex(&mut t, *val as u64);
                t
            },
            Instruction::ConstWide(dst, val) => {
                let mut t = String::from_str("const-wide v");
                push_dec(&mut t, *dst as u64);
                t.append(", 0x");
                push_hex(&mut t, *val);
                t
            },
            Instruction::ConstWideHigh16(dst, val) => {
                let mut t = String::from_str("const-wide/high16 v");
                push_dec(&mut t, *dst as u64);
                t.append(", 0x");
                push_hex(&mut t, *val as u64);
                t
            },
            Instruction::ConstString(dst, idx) => {
                let mut t = String::from_str("const-string v");
                push_dec(&mut t, *dst as u64);
                t.append(", string@");
                push_hex(&mut t, *idx as u64);
                t
            },
            Instruction::ConstStringJumbo(dst, idx) => {
                let mut t = String::from_str("const-string/jumbo v");
                push_dec(&mut t, *dst as u64);
                t.append(", string@");
                push_hex(&mut t, *idx as u64);
                t
            },
            Instruction::ConstClass(dst, idx) => {
                let mut t = String::from_str("const-class v");
                push_dec(&mut t, *dst as u64);
                t.append(", type@");
                push_hex(&mut t, *idx as u64);
                t
            },
            Instruction::MonitorEnter(reg) => one_regs_display("monitor-enter", *reg as u16),
            Instruction::MonitorExit(reg) => one_regs_display("monitor-exit", *reg as u16),
            Instruction::CheckCast(dst, idx) => {
                let mut t = String::from_str("check-cast v");
                push_dec(&mut t, *dst as u64);
                t.append(", type@");
                push_hex(&mut t, *idx as u64);
                t
            },
            Instruction::InstanceOf(dst, src, idx) => {
                let mut t = String::from_str("instance-of v");
                push_dec(&mut t, *dst as u64);
                t.append(", v");
                push_dec(&mut t, *src as u64);
                t.append(", type@");
                push_hex(&mut t, *idx as u64);
                t
            },
            Instruction::ArrayLength(dst, src) => two_regs_display("array-length", *dst as u16, *src as u16),
            Instruction::NewInstance(dst, idx) => {
                let mut t = String::from_str("new-instance v");
                push_dec(&mut t, *dst as u64);
                t.append(", type@");
                push_hex(&mut t, *idx as u64);
                t
            },
            Instruction::NewArray(dst, src, idx) => {
                let mut t = String::from_str("new-array v");
                push_dec(&mut t, *dst as u64);
                t.append(", v");
                push_dec(&mut t, *src as u64);
                t.append(", type@");
                push_hex(&mut t, *idx as u64);
                t
            },
            Instruction::FilledNewArray { ty, nargs, args } => filled_display(args, *nargs, *ty),
            Instruction::FilledNewArrayRange { ty, args } => filled_range_display(args, *ty),
            Instruction::FillArrayData(reg, off) => {
                let mut t = String::from_str("fill-array-data v");
                push_dec(&mut t, *reg as u64);
                t.append(", ");
                push_plus(&mut t, *off as i32);
                t
            },
            Instruction::Throw(reg) => one_regs_display("throw", *reg as u16),
            Instruction::Goto(off) => {
                let mut t = String::from_str("goto ");
                push_plus(&mut t, *off as i32);
                t
            },
            Instruction::Goto16(off) => {
                let mut t = String::from_str("goto/16 ");
                push_plus(&mut t, *off as i32);
                t
            },
            Instruction::Goto32(off) => {
                let mut t = String::from_str("goto/32 ");
                push_plus(&mut t, *off as i32);
                t
            },
            Instruction::PackedSwitch(reg, off) => {
                let mut t = String::from_str("packed-switch v");
                push_dec(&mut t, *reg as u64);
                t.append(", ");
                push_plus(&mut t, *off as i32);
                t
            },
            Instruction::SparseSwitch(reg, off) => {
                let mut t = String::from_str("sparse-switch v");
                push_dec(&mut t, *reg as u64);
                t.append(", ");
                push_plus(&mut t, *off as i32);
                t
            },
            Instruction::CmplFloat(dst, src1, src2) => three_regs_display("cmpl-float", *dst as u16, *src1 as u16, *src2 as u16),
            Instruction::CmpgFloat(dst, src1, src2) => three_regs_display("cmpg-float", *dst as u16, *src1 as u16, *src2 as u16),
            Instruction::CmplDouble(dst, src1, src2) => three_regs_display("cmpl-double", *dst as u16, *src1 as u16, *src2 as u16),
            Instruction::CmpgDouble(dst, src1, src2) => three_regs_display("cmpg-double", *dst as u16, *src1 as u16, *src2 as u16),
            Instruction::CmpLong(dst, src1, src2) => three_regs_display("cmp-long", *dst as u16, *src1 as u16, *src2 as u16),
            Instruction::IfEq(a, b, off) => {
                let mut t = String::from_str("if-eq v");
                push_dec(&mut t, *a as u64);
                t.append(", v");
                push_dec(&mut t, *b as u64);
                t.append(" ");
                push_plus(&mut t, *off as i32);
                t
            },
            Instruction::IfNe(a, b, off) => {
                let mut t = String::from_str("if-ne v");
                push_dec(&mut t, *a as u64);
                t.append(", v");
                push_dec(&mut t, *b as u64);
                t.append(" ");
                push_plus(&mut t, *off as i32);
                t
            },
            Instruction::IfLt(a, b, off) => {
                let mut t = String::from_str("if-lt v");
                push_dec(&mut t, *a as u64);
                t.append(", v");
                push_dec(&mut t, *b as u64);
                t.append(" ");
                push_plus(&mut t, *off as i32);
                t
            },
            Instruction::IfGe(a, b, off) => {
                let mut t = String::from_str("if-ge v");
                push_dec(&mut t, *a as u64);
                t.append(", v");
                push_dec(&mut t, *b as u64);
                t.append(" ");
                push_plus(&mut t, *off as i32);
                t
            },
            Instruction::IfGt(a, b, off) => {
                let mut t = String::from_str("if-gt v");
                push_dec(&mut t, *a as u64);
                t.append(", v");
                push_dec(&mut t, *b as u64);
                t.append(" ");
                push_plus(&mut t, *off as i32);
                t
            },
            Instruction::IfLe(a, b, off) => {
                let mut t = String::from_str("if-le v");
                push_dec(&mut t, *a as u64);
                t.append(", v");
                push_dec(&mut t, *b as u64);
                t.append(" ");
                push_plus(&mut t, *off as i32);
                t
            },
            Instruction::IfEqz(reg, off) => {
                let mut t = String::from_str("if-eqz v");
                push_dec(&mut t, *reg as u64);
                t.append(", ");
                push_plus(&mut t, *off as i32);
                t
            },
            Instruction::IfNez(reg, off) => {
                let mut t = String::from_str("if-nez v");
                push_dec(&mut t, *reg as u64);
                t.append(", ");
                push_plus(&mut t, *off as i32);
                t
            },
            Instruction::IfLtz(reg, off) => {
                let mut t = String::from_str("if-ltz v");
                push_dec(&mut t, *reg as u64);
                t.append(", ");
                push_plus(&mut t, *off as i32);
                t
            },
            Instruction::IfGez(reg, off) => {
                let mut t = String::from_str("if-gez v");
                push_dec(&mut t, *reg as u64);
                t.append(", ");
                push_plus(&mut t, *off as i32);
                t
            },
            Instruction::IfGtz(reg, off) => {
                let mut t = String::from_str("if-gtz v");
                push_dec(&mut t, *reg as u64);
                t.append(", ");
                push_plus(&mut t, *off as i32);
                t
            },
            Instruction::IfLez(reg, off) => {
                let mut t = String::from_str("if-lez v");
                push_dec(&mut t, *reg as u64);
                t.append(", ");
                push_plus(&mut t, *off as i32);
                t
            },
            Instruction::AGet(dst, src1, src2) => three_regs_display("aget", *dst as u16, *src1 as u16, *src2 as u16),
            Instruction::AGetWide(dst, src1, src2) => three_regs_display("aget-wide", *dst as u16, *src1 as u16, *src2 as u16),
            Instruction::AGetObject(dst, src1, src2) => three_regs_display("aget-object", *dst as u16, *src1 as u16, *src2 as u16),
            Instruction::AGetBoolean(dst, src1, src2) => three_regs_display("aget-boolean", *dst as u16, *src1 as u16, *src2 as u16),
            Instruction::AGetByte(dst, src1, src2) => three_regs_display("aget-byte", *dst as u16, *src1 as u16, *src2 as u16),
            Instruction::AGetChar(dst, src1, src2) => three_regs_display("aget-char", *dst as u16, *src1 as u16, *src2 as u16),
            Instruction::AGetShort(dst, src1, src2) => three_regs_display("aget-short", *dst as u16, *src1 as u16, *src2 as u16),
            Instruction::APut(dst, src1, src2) => three_regs_display("aput", *dst as u16, *src1 as u16, *src2 as u16),
            Instruction::APutWide(dst, src1, src2) => three_regs_display("aput-wide", *dst as u16, *src1 as u16, *src2 as u16),
            Instruction::APutObject(dst, src1, src2) => three_regs_display("aput-object", *dst as u16, *src1 as u16, *src2 as u16),
            Instruction::APutBoolean(dst, src1, src2) => three_regs_display("aput-boolean", *dst as u16, *src1 as u16, *src2 as u16),
            Instruction::APutByte(dst, src1, src2) => three_regs_display("aput-byte", *dst as u16, *src1 as u16, *src2 as u16),
            Instruction::APutChar(dst, src1, src2) => three_regs_display("aput-char", *dst as u16, *src1 as u16, *src2 as u16),
            Instruction::APutShort(dst, src1, src2) => three_regs_display("aput-short", *dst as u16, *src1 as u16, *src2 as u16),
            Instruction::IGet(dst, src, field) => igetters_display("iget", *dst, *src, *field),
            Instruction::IGetWide(dst, src, field) => igetters_display("iget-wide", *dst, *src, *field),
            Instruction::IGetObject(dst, src, field) => igetters_display("iget-object", *dst, *src, *field),
            Instruction::IGetBoolean(dst, src, field) => igetters_display("iget-boolean", *dst, *src, *field),
            Instruction::IGetByte(dst, src, field) => igetters_display("iget-byte", *dst, *src, *field),
            Instruction::IGetChar(dst, src, field) => igetters_display("iget-char", *dst, *src, *field),
            Instruction::IGetShort(dst, src, field) => igetters_display("iget-short", *dst, *src, *field),
            Instruction::IPut(dst, src, field) => igetters_display("iput", *dst, *src, *field),
            Instruction::IPutWide(dst, src, field) => igetters_display("iput-wide", *dst, *src, *field),
            Instruction::IPutObject(dst, src, field) => igetters_display("iput-object", *dst, *src, *field),
            Instruction::IPutBoolean(dst, src, field) => igetters_display("iput-boolean", *dst, *src, *field),
            Instruction::IPutByte(dst, src, field) => igetters_display("iput-byte", *dst, *src, *field),
            Instruction::IPutChar(dst, src, field) => igetters_display("iput-char", *dst, *src, *field),
            Instruction::IPutShort(dst, src, field) => igetters_display("iput-short", *dst, *src, *field),
            Instruction::SGet(dst, field) => sgetters_display("sget", *dst, *field),
            Instruction::SGetWide(dst, field) => sgetters_display("sget-wide", *dst, *field),
            Instruction::SGetObject(dst, field) => sgetters_display("sget-object", *dst, *field),
            Instruction::SGetBoolean(dst, field) => sgetters_display("sget-boolean", *dst, *field),
            Instruction::SGetByte(dst, field) => sgetters_display("sget-byte", *dst, *field),
            Instruction::SGetChar(dst, field) => sgetters_display("sget-char", *dst, *field),
            Instruction::SGetShort(dst, field) => sgetters_display("sget-short", *dst, *field),
            Instruction::SPut(dst, field) => sgetters_display("sput", *dst, *field),
            Instruction::SPutWide(dst, field) => sgetters_display("sput-wide", *dst, *field),
            Instruction::SPutObject(dst, field) => sgetters_display("sput-object", *dst, *field),
            Instruction::SPutBoolean(dst, field) => sgetters_display("sput-boolean", *dst, *field),
            Instruction::SPutByte(dst, field) => sgetters_display("sput-byte", *dst, *field),
            Instruction::SPutChar(dst, field) => sgetters_display("sput-char", *dst, *field),
            Instruction::SPutShort(dst, field) => sgetters_display("sput-short", *dst, *field),
            Instruction::InvokeVirtual { method, nargs, args } => invoke_display(args, *nargs, *method, "virtual"),
            Instruction::InvokeSuper { method, nargs, args } => invoke_display(args, *nargs, *method, "super"),
            Instruction::InvokeDirect { method, nargs, args } => invoke_display(args, *nargs, *method, "direct"),
            Instruction::InvokeStatic { method, nargs, args } => invoke_display(args, *nargs, *method, "static"),
            Instruction::InvokeInterface { method, nargs, args } => invoke_display(args, *nargs, *method, "interface"),
            Instruction::InvokeVirtualRange { method, args } => invoke_range_display(args, *method, "virtual"),
            Instruction::InvokeSuperRange { method, args } => invoke_range_display(args, *method, "super"),
            Instruction::InvokeDirectRange { method, args } => invoke_range_display(args, *method, "direct"),
            Instruction::InvokeStaticRange { method, args } => invoke_range_display(args, *method, "static"),
            Instruction::InvokeInterfaceRange { method, args } => invoke_range_display(args, *method, "interface"),
            Instruction::NegInt(dst, src) => two_regs_display("neg-int", *dst as u16, *src as u16),
            Instruction::NotInt(dst, src) => two_regs_display("not-int", *dst as u16, *src as u16),
            Instruction::NegLong(dst, src) => two_regs_display("neg-long", *dst as u16, *src as u16),
            Instruction::NotLong(dst, src) => two_regs_display("not-long", *dst as u16, *src as u16),
            Instruction::NegFloat(dst, src) => two_regs_display("neg-float", *dst as u16, *src as u16),
            Instruction::NegDouble(dst, src) => two_regs_display("neg-double", *dst as u16, *src as u16),
            Instruction::IntToLong(dst, src) => two_regs_display("int-to-long", *dst as u16, *src as u16),
            Instruction::IntToFloat(dst, src) => two_regs_display("int-to-float", *dst as u16, *src as u16),
            Instruction::IntToDouble(dst, src) => two_regs_display("int-to-double", *dst as u16, *src as u16),
            Instruction::LongToInt(dst, src) => two_regs_display("long-to-int", *dst as u16, *src as u16),
            Instruction::LongToFloat(dst, src) => two_regs_display("long-to-float", *dst as u16, *src as u16),
            Instruction::LongToDouble(dst, src) => two_regs_display("long-to-double", *dst as u16, *src as u16),
            Instruction::FloatToInt(dst, src) => two_regs_display("float-to-int", *dst as u16, *src as u16),
            Instruction::FloatToLong(dst, src) => two_regs_display("float-to-long", *dst as u16, *src as u16),
            Instruction::FloatToDouble(dst, src) => two_regs_display("float-to-double", *dst as u16, *src as u16),
            Instruction::DoubleToInt(dst, src) => two_regs_display("double-to-int", *dst as u16, *src as u16),
            Instruction::DoubleToLong(dst, src) => two_regs_display("double-to-long", *dst as u16, *src as u16),
            Instruction::DoubleToFloat(dst, src) => two_regs_display("double-to-float", *dst as u16, *src as u16),
            Instruction::IntTobyte(dst, src) => two_regs_display("int-to-byte", *dst as u16, *src as u16),
            Instruction::IntTochar(dst, src) => two_regs_display("int-to-char", *dst as u16, *src as u16),
            Instruction::IntToshort(dst, src) => two_regs_display("int-to-short", *dst as u16, *src as u16),
            Instruction::AddInt(dst, src1, src2) => three_regs_display("add-int", *dst as u16, *src1 as u16, *src2 as u16),
            Instruction::SubInt(dst, src1, src2) => three_regs_display("sub-int", *dst as u16, *src1 as u16, *src2 as u16),
            Instruction::MulInt(dst, src1, src2) => three_regs_display("mul-int", *dst as u16, *src1 as u16, *src2 as u16),
            Instruction::DivInt(dst, src1, src2) => three_regs_display("div-int", *dst as u16, *src1 as u16, *src2 as u16),
            Instruction::RemInt(dst, src1, src2) => three_regs_display("rem-int", *dst as u16, *src1 as u16, *src2 as u16),
            Instruction::AndInt(dst, src1, src2) => three_regs_display("and-int", *dst as u16, *src1 as u16, *src2 as u16),
            Instruction::OrInt(dst, src1, src2) => three_regs_display("or-int", *dst as u16, *src1 as u16, *src2 as u16),
            Instruction::XorInt(dst, src1, src2) => three_regs_display("xor-int", *dst as u16, *src1 as u16, *src2 as u16),
            Instruction::ShlInt(dst, src1, src2) => three_regs_display("shl-int", *dst as u16, *src1 as u16, *src2 as u16),
            Instruction::ShrInt(dst, src1, src2) => three_regs_display("shr-int", *dst as u16, *src1 as u16, *src2 as u16),
            Instruction::UshrInt(dst, src1, src2) => three_regs_display("ushr-int", *dst as u16, *src1 as u16, *src2 as u16),
            Instruction::AddLong(dst, src1, src2) => three_regs_display("add-long", *dst as u16, *src1 as u16, *src2 as u16),
            Instruction::SubLong(dst, src1, src2) => three_regs_display("sub-long", *dst as u16, *src1 as u16, *src2 as u16),
            Instruction::MulLong(dst, src1, src2) => three_regs_display("mul-long", *dst as u16, *src1 as u16, *src2 as u16),
            Instruction::DivLong(dst, src1, src2) => three_regs_display("div-long", *dst as u16, *src1 as u16, *src2 as u16),
            Instruction::RemLong(dst, src1, src2) => three_regs_display("rem-long", *dst as u16, *src1 as u16, *src2 as u16),
            Instruction::AndLong(dst, src1, src2) => three_regs_display("and-long", *dst as u16, *src1 as u16, *src2 as u16),
            Instruction::OrLong(dst, src1, src2) => three_regs_display("or-long", *dst as u16, *src1 as u16, *src2 as u16),
            Instruction::XorLong(dst, src1, src2) => three_regs_display("xor-long", *dst as u16, *src1 as u16, *src2 as u16),
            Instruction::ShlLong(dst, src1, src2) => three_regs_display("shl-long", *dst as u16, *src1 as u16, *src2 as u16),
            Instruction::ShrLong(dst, src1, src2) => three_regs_display("shr-long", *dst as u16, *src1 as u16, *src2 as u16),
            Instruction::UshrLong(dst, src1, src2) => three_regs_display("ushr-long", *dst as u16, *src1 as u16, *src2 as u16),
            Instruction::AddFloat(dst, src1, src2) => three_regs_display("add-float", *dst as u16, *src1 as u16, *src2 as u16),
            Instruction::SubFloat(dst, src1, src2) => three_regs_display("sub-float", *dst as u16, *src1 as u16, *src2 as u16),
            Instruction::MulFloat(dst, src1, src2) => three_regs_display("mul-float", *dst as u16, *src1 as u16, *src2 as u16),
            Instruction::DivFloat(dst, src1, src2) => three_regs_display("div-float", *dst as u16, *src1 as u16, *src2 as u16),
            Instruction::RemFloat(dst, src1, src2) => three_regs_display("rem-float", *dst as u16, *src1 as u16, *src2 as u16),
            Instruction::AddDouble(dst, src1, src2) => three_regs_display("add-double", *dst as u16, *src1 as u16, *src2 as u16),
            Instruction::SubDouble(dst, src1, src2) => three_regs_display("sub-double", *dst as u16, *src1 as u16, *src2 as u16),
            Instruction::MulDouble(dst, src1, src2) => three_regs_display("mul-double", *dst as u16, *src1 as u16, *src2 as u16),
            Instruction::DivDouble(dst, src1, src2) => three_regs_display("div-double", *dst as u16, *src1 as u16, *src2 as u16),
            Instruction::RemDouble(dst, src1, src2) => three_regs_display("rem-double", *dst as u16, *src1 as u16, *src2 as u16),
            Instruction::AddInt2(dst, src) => two_regs_display("add-int/2addr", *dst as u16, *src as u16),
            Instruction::SubInt2(dst, src) => two_regs_display("sub-int/2addr", *dst as u16, *src as u16),
            Instruction::MulInt2(dst, src) => two_regs_display("mul-int/2addr", *dst as u16, *src as u16),
            Instruction::DivInt2(dst, src) => two_regs_display("div-int/2addr", *dst as u16, *src as u16),
            Instruction::RemInt2(dst, src) => two_regs_display("rem-int/2addr", *dst as u16, *src as u16),
            Instruction::AndInt2(dst, src) => two_regs_display("and-int/2addr", *dst as u16, *src as u16),
            Instruction::OrInt2(dst, src) => two_regs_display("or-int/2addr", *dst as u16, *src as u16),
            Instruction::XorInt2(dst, src) => two_regs_display("xor-int/2addr", *dst as u16, *src as u16),
            Instruction::ShlInt2(dst, src) => two_regs_display("shl-int/2addr", *dst as u16, *src as u16),
            Instruction::ShrInt2(dst, src) => two_regs_display("shr-int/2addr", *dst as u16, *src as u16),
            Instruction::UShrInt2(dst, src) => two_regs_display("ushr-int/2addr", *dst as u16, *src as u16),
            Instruction::AddLong2(dst, src) => two_regs_display("add-long/2addr", *dst as u16, *src as u16),
            Instruction::SubLong2(dst, src) => two_regs_display("sub-long/2addr", *dst as u16, *src as u16),
            Instruction::MulLong2(dst, src) => two_regs_display("mul-long/2addr", *dst as u16, *src as u16),
            Instruction::DivLong2(dst, src) => two_regs_display("div-long/2addr", *dst as u16, *src as u16),
            Instruction::RemLong2(dst, src) => two_regs_display("rem-long/2addr", *dst as u16, *src as u16),
            Instruction::AndLong2(dst, src) => two_regs_display("and-long/2addr", *dst as u16, *src as u16),
            Instruction::OrLong2(dst, src) => two_regs_display("or-long/2addr", *dst as u16, *src as u16),
            Instruction::XorLong2(dst, src) => two_regs_display("xor-long/2addr", *dst as u16, *src as u16),
            Instruction::ShlLong2(dst, src) => two_regs_display("shl-long/2addr", *dst as u16, *src as u16),
            Instruction::ShrLong2(dst, src) => two_regs_display("shr-long/2addr", *dst as u16, *src as u16),
            Instruction::UShrLong2(dst, src) => two_regs_display("ushr-long/2addr", *dst as u16, *src as u16),
            Instruction::AddFloat2(dst, src) => two_regs_display("add-float/2addr", *dst as u16, *src as u16),
            Instruction::SubFloat2(dst, src) => two_regs_display("sub-float/2addr", *dst as u16, *src as u16),
            Instruction::MulFloat2(dst, src) => two_regs_display("mul-float/2addr", *dst as u16, *src as u16),
            Instruction::DivFloat2(dst, src) => two_regs_display("div-float/2addr", *dst as u16, *src as u16),
            Instruction::RemFloat2(dst, src) => two_regs_display("rem-float/2addr", *dst as u16, *src as u16),
            Instruction::AddDouble2(dst, src) => two_regs_display("add-double/2addr", *dst as u16, *src as u16),
            Instruction::SubDouble2(dst, src) => two_regs_display("sub-double/2addr", *dst as u16, *src as u16),
            Instruction::MulDouble2(dst, src) => two_regs_display("mul-double/2addr", *dst as u16, *src as u16),
            Instruction::DivDouble2(dst, src) => two_regs_display("div-double/2addr", *dst as u16, *src as u16),
            Instruction::RemDouble2(dst, src) => two_regs_display("rem-double/2addr", *dst as u16, *src as u16),
            Instruction::AddInt16(dst, src, lit) => {
                let mut t = String::from_str("add-int/lit16 v");
                push_dec(&mut t, *dst as u64);
                t.append(", v");
                push_dec(&mut t, *src as u64);
                t.append(", 0x");
                push_hex(&mut t, (*lit as u16) as u64);
                t
            },
            Instruction::RsubInt16(dst, src, lit) => {
                let mut t = String::from_str("rsub-int/lit16 v");
                push_dec(&mut t, *dst as u64);
                t.append(", v");
                push_dec(&mut t, *src as u64);
                t.append(", 0x");
                push_hex(&mut t, (*lit as u16) as u64);
                t
            },
            Instruction::MulInt16(dst, src, lit) => {
                let mut t = String::from_str("mul-int/lit16 v");
                push_dec(&mut t, *dst as u64);
                t.append(", v");
                push_dec(&mut t, *src as u64);
                t.append(", 0x");
                push_hex(&mut t, (*lit as u16) as u64);
                t
            },
            Instruction::DivInt16(dst, src, lit) => {
                let mut t = String::from_str("div-int/lit16 v");
                push_dec(&mut t, *dst as u64);
                t.append(", v");
                push_dec(&mut t, *src as u64);
                t.append(", 0x");
                push_hex(&mut t, (*lit as u16) as u64);
                t
            },
            Instruction::RemInt16(dst, src, lit) => {
                let mut t = String::from_str("rem-int/lit16 v");
                push_dec(&mut t, *dst as u64);
                t.append(", v");
                push_dec(&mut t, *src as u64);
                t.append(", 0x");
                push_hex(&mut t, (*lit as u16) as u64);
                t
            },
            Instruction::AndInt16(dst, src, lit) => {
                let mut t = String::from_str("and-int/lit16 v");
                push_dec(&mut t, *dst as u64);
                t.append(", v");
                push_dec(&mut t, *src as u64);
                t.append(", 0x");
                push_hex(&mut t, (*lit as u16) as u64);
                t
            },
            Instruction::OrInt16(dst, src, lit) => {
                let mut t = String::from_str("or-int/lit16 v");
                push_dec(&mut t, *dst as u64);
                t.append(", v");
                push_dec(&mut t, *src as u64);
                t.append(", 0x");
                push_hex(&mut t, (*lit as u16) as u64);
                t
            },
            Instruction::XorInt16(dst, src, lit) => {
                let mut t = String::from_str("xor-int/lit16 v");
                push_dec(&mut t, *dst as u64);
                t.append(", v");
                push_dec(&mut t, *src as u64);
                t.append(", 0x");
                push_hex(&mut t, (*lit as u16) as u64);
                t
            },
            Instruction::AddInt8(dst, src, lit) => {
                let mut t = String::from_str("add-int/lit8 v");
                push_dec(&mut t, *dst as u64);
                t.append(", v");
                push_dec(&mut t, *src as u64);
                t.append(", 0x");
                push_hex(&mut t, (*lit as u8) as u64);
                t
            },
            Instruction::RsubInt8(dst, src, lit) => {
                let mut t = String::from_str("rsub-int/lit8 v");
                push_dec(&mut t, *dst as u64);
                t.append(", v");
                push_dec(&mut t, *src as u64);
                t.append(", 0x");
                push_hex(&mut t, (*lit as u8) as u64);
                t
            },
            Instruction::MulInt8(dst, src, lit) => {
                let mut t = String::from_str("mul-int/lit8 v");
                push_dec(&mut t, *dst as u64);
                t.append(", v");
                push_dec(&mut t, *src as u64);
                t.append(", 0x");
                push_hex(&mut t, (*lit as u8) as u64);
                t
            },
            Instruction::DivInt8(dst, src, lit) => {
                let mut t = String::from_str("div-int/lit8 v");
                push_dec(&mut t, *dst as u64);
                t.append(", v");
                push_dec(&mut t, *src as u64);
                t.append(", 0x");
                push_hex(&mut t, (*lit as u8) as u64);
                t
            },
            Instruction::RemInt8(dst, src, lit) => {
                let mut t = String::from_str("rem-int/lit8 v");
                push_dec(&mut t, *dst as u64);
                t.append(", v");
                push_dec(&mut t, *src as u64);
                t.append(", 0x");
                push_hex(&mut t, (*lit as u8) as u64);
                t
            },
            Instruction::AndInt8(dst, src, lit) => {
                let mut t = String::from_str("and-int/lit8 v");
                push_dec(&mut t, *dst as u64);
                t.append(", v");
                push_dec(&mut t, *src as u64);
                t.append(", 0x");
                push_hex(&mut t, (*lit as u8) as u64);
                t
            },
            Instruction::OrInt8(dst, src, lit) => {
                let mut t = String::from_str("or-int/lit8 v");
                push_dec(&mut t, *dst as u64);
                t.append(", v");
                push_dec(&mut t, *src as u64);
                t.append(", 0x");
                push_hex(&mut t, (*lit as u8) as u64);
                t
            },
            Instruction::XorInt8(dst, src, lit) => {
                let mut t = String::from_str("xor-int/lit8 v");
                push_dec(&mut t, *dst as u64);
                t.append(", v");
                push_dec(&mut t, *src as u64);
                t.append(", 0x");
                push_hex(&mut t, (*lit as u8) as u64);
                t
            },
            Instruction::ShlInt8(dst, src, lit) => {
                let mut t = String::from_str("shl-int/lit8 v");
                push_dec(&mut t, *dst as u64);
                t.append(", v");
                push_dec(&mut t, *src as u64);
                t.append(", 0x");
                push_hex(&mut t, (*lit as u8) as u64);
                t
            },
            Instruction::ShrInt8(dst, src, lit) => {
                let mut t = String::from_str("shr-int/lit8 v");
                push_dec(&mut t, *dst as u64);
                t.append(", v");
                push_dec(&mut t, *src as u64);
                t.append(", 0x");
                push_hex(&mut t, (*lit as u8) as u64);
                t
            },
            Instruction::UshrInt8(dst, src, lit) => {
                let mut t = String::from_str("ushr-int/lit8 v");
                push_dec(&mut t, *dst as u64);
                t.append(", v");
                push_dec(&mut t, *src as u64);
                t.append(", 0x");
                push_hex(&mut t, (*lit as u8) as u64);
                t
            },
        }
    }
}

/// What [`PrettyPrint::print`] returns. For a variant that consults no
/// symbol lookup the rendering is exactly [`spec_display`]. For a
/// symbol-resolving variant the rendering follows the resolved template —
/// the verb, the registers and the punctuation are pinned — with some
/// looked-up strings spliced in; which strings come back is the lookup
/// implementation's affair, so they are existentially quantified.
pub open spec fn spec_print(i: Instruction, r: Seq<char>) -> bool {
    match i {
        Instruction::ConstString(dst, _) => exists|contents: Seq<char>|
            r == string_const_s("const-string"@, dst as int, contents),
        Instruction::ConstStringJumbo(dst, _) => exists|contents: Seq<char>|
            r == string_const_s("const-string/jumbo"@, dst as int, contents),
        Instruction::ConstClass(dst, _) => exists|ty: Seq<char>|
            r == type_use_s("const-class"@, dst as int, ty),
        Instruction::CheckCast(dst, _) => exists|ty: Seq<char>|
            r == type_use_s("check-cast"@, dst as int, ty),
        Instruction::InstanceOf(dst, src, _) => exists|ty: Seq<char>|
            r == type_use2_s("instance-of"@, dst as int, src as int, ty),
        Instruction::NewInstance(dst, _) => exists|ty: Seq<char>|
            r == type_use_s("new-instance"@, dst as int, ty),
        Instruction::NewArray(dst, src, _) => exists|ty: Seq<char>|
            r == type_use2_s("new-array"@, dst as int, src as int, ty),
        Instruction::FilledNewArray { nargs, args, .. } => exists|ty: Seq<char>|
            r == filled_resolved_s(regs5(args@, nargs), ty),
        Instruction::FilledNewArrayRange { args, .. } => exists|ty: Seq<char>|
            r == filled_range_resolved_s(regs16(args@), ty),
        Instruction::IGet(dst, src, _) => exists|cl: Seq<char>, nm: Seq<char>, ty: Seq<char>|
            r == field_access_s("iget"@, dst as int, Some(src), cl, nm, ty),
        Instruction::IGetWide(dst, src, _) => exists|cl: Seq<char>, nm: Seq<char>, ty: Seq<char>|
            r == field_access_s("iget-wide"@, dst as int, Some(src), cl, nm, ty),
        Instruction::IGetObject(dst, src, _) => exists|cl: Seq<char>, nm: Seq<char>, ty: Seq<char>|
            r == field_access_s("iget-object"@, dst as int, Some(src), cl, nm, ty),
        Instruction::IGetBoolean(dst, src, _) => exists|cl: Seq<char>, nm: Seq<char>, ty: Seq<char>|
            r == field_access_s("iget-boolean"@, dst as int, Some(src), cl, nm, ty),
        Instruction::IGetByte(dst, src, _) => exists|cl: Seq<char>, nm: Seq<char>, ty: Seq<char>|
            r == field_access_s("iget-byte"@, dst as int, Some(src), cl, nm, ty),
        Instruction::IGetChar(dst, src, _) => exists|cl: Seq<char>, nm: Seq<char>, ty: Seq<char>|
            r == field_access_s("iget-char"@, dst as int, Some(src), cl, nm, ty),
        Instruction::IGetShort(dst, src, _) => exists|cl: Seq<char>, nm: Seq<char>, ty: Seq<char>|
            r == field_access_s("iget-short"@, dst as int, Some(src), cl, nm, ty),
        Instruction::IPut(dst, src, _) => exists|cl: Seq<char>, nm: Seq<char>, ty: Seq<char>|
            r == field_access_s("iput"@, dst as int, Some(src), cl, nm, ty),
        Instruction::IPutWide(dst, src, _) => exists|cl: Seq<char>, nm: Seq<char>, ty: Seq<char>|
            r == field_access_s("iput-wide"@, dst as int, Some(src), cl, nm, ty),
        Instruction::IPutObject(dst, src, _) => exists|cl: Seq<char>, nm: Seq<char>, ty: Seq<char>|
            r == field_access_s("iput-object"@, dst as int, Some(src), cl, nm, ty),
        Instruction::IPutBoolean(dst, src, _) => exists|cl: Seq<char>, nm: Seq<char>, ty: Seq<char>|
            r == field_access_s("iput-boolean"@, dst as int, Some(src), cl, nm, ty),
        Instruction::IPutByte(dst, src, _) => exists|cl: Seq<char>, nm: Seq<char>, ty: Seq<char>|
            r == field_access_s("iput-byte"@, dst as int, Some(src), cl, nm, ty),
        Instruction::IPutChar(dst, src, _) => exists|cl: Seq<char>, nm: Seq<char>, ty: Seq<char>|
            r == field_access_s("iput-char"@, dst as int, Some(src), cl, nm, ty),
        Instruction::IPutShort(dst, src, _) => exists|cl: Seq<char>, nm: Seq<char>, ty: Seq<char>|
            r == field_access_s("iput-short"@, dst as int, Some(src), cl, nm, ty),
        Instruction::SGet(dst, _) => exists|cl: Seq<char>, nm: Seq<char>, ty: Seq<char>|
            r == field_access_s("sget"@, dst as int, None, cl, nm, ty),
        Instruction::SGetWide(dst, _) => exists|cl: Seq<char>, nm: Seq<char>, ty: Seq<char>|
            r == field_access_s("sget-wide"@, dst as int, None, cl, nm, ty),
        Instruction::SGetObject(dst, _) => exists|cl: Seq<char>, nm: Seq<char>, ty: Seq<char>|
            r == field_access_s("sget-object"@, dst as int, None, cl, nm, ty),
        Instruction::SGetBoolean(dst, _) => exists|cl: Seq<char>, nm: Seq<char>, ty: Seq<char>|
            r == field_access_s("sget-boolean"@, dst as int, None, cl, nm, ty),
        Instruction::SGetByte(dst, _) => exists|cl: Seq<char>, nm: Seq<char>, ty: Seq<char>|
            r == field_access_s("sget-byte"@, dst as int, None, cl, nm, ty),
        Instruction::SGetChar(dst, _) => exists|cl: Seq<char>, nm: Seq<char>, ty: Seq<char>|
            r == field_access_s("sget-char"@, dst as int, None, cl, nm, ty),
        Instruction::SGetShort(dst, _) => exists|cl: Seq<char>, nm: Seq<char>, ty: Seq<char>|
            r == field_access_s("sget-short"@, dst as int, None, cl, nm, ty),
        Instruction::SPut(dst, _) => exists|cl: Seq<char>, nm: Seq<char>, ty: Seq<char>|
            r == field_access_s("sput"@, dst as int, None, cl, nm, ty),
        Instruction::SPutWide(dst, _) => exists|cl: Seq<char>, nm: Seq<char>, ty: Seq<char>|
            r == field_access_s("sput-wide"@, dst as int, None, cl, nm, ty),
        Instruction::SPutObject(dst, _) => exists|cl: Seq<char>, nm: Seq<char>, ty: Seq<char>|
            r == field_access_s("sput-object"@, dst as int, None, cl, nm, ty),
        Instruction::SPutBoolean(dst, _) => exists|cl: Seq<char>, nm: Seq<char>, ty: Seq<char>|
            r == field_access_s("sput-boolean"@, dst as int, None, cl, nm, ty),
        Instruction::SPutByte(dst, _) => exists|cl: Seq<char>, nm: Seq<char>, ty: Seq<char>|
            r == field_access_s("sput-byte"@, dst as int, None, cl, nm, ty),
        Instruction::SPutChar(dst, _) => exists|cl: Seq<char>, nm: Seq<char>, ty: Seq<char>|
            r == field_access_s("sput-char"@, dst as int, None, cl, nm, ty),
        Instruction::SPutShort(dst, _) => exists|cl: Seq<char>, nm: Seq<char>, ty: Seq<char>|
            r == field_access_s("sput-short"@, dst as int, None, cl, nm, ty),
        Instruction::InvokeVirtual { nargs, args, .. } => exists|
            cl: Seq<char>,
            nm: Seq<char>,
            ps: Seq<char>,
            rt: Seq<char>,
        |
            r == invoke_resolved_s("virtual"@, regs5(args@, nargs), cl, nm, ps, rt),
        Instruction::InvokeSuper { nargs, args, .. } => exists|
            cl: Seq<char>,
            nm: Seq<char>,
            ps: Seq<char>,
            rt: Seq<char>,
        |
            r == invoke_resolved_s("super"@, regs5(args@, nargs), cl, nm, ps, rt),
        Instruction::InvokeDirect { nargs, args, .. } => exists|
            cl: Seq<char>,
            nm: Seq<char>,
            ps: Seq<char>,
            rt: Seq<char>,
        |
            r == invoke_resolved_s("direct"@, regs5(args@, nargs), cl, nm, ps, rt),
        Instruction::InvokeStatic { nargs, args, .. } => exists|
            cl: Seq<char>,
            nm: Seq<char>,
            ps: Seq<char>,
            rt: Seq<char>,
        |
            r == invoke_resolved_s("static"@, regs5(args@, nargs), cl, nm, ps, rt),
        Instruction::InvokeInterface { nargs, args, .. } => exists|
            cl: Seq<char>,
            nm: Seq<char>,
            ps: Seq<char>,
            rt: Seq<char>,
        |
            r == invoke_resolved_s("interface"@, regs5(args@, nargs), cl, nm, ps, rt),
        Instruction::InvokeVirtualRange { args, .. } => exists|
            cl: Seq<char>,
            nm: Seq<char>,
            ps: Seq<char>,
            rt: Seq<char>,
        |
            r == invoke_range_resolved_s("virtual"@, regs16(args@), cl, nm, ps, rt),
        Instruction::InvokeSuperRange { args, .. } => exists|
            cl: Seq<char>,
            nm: Seq<char>,
            ps: Seq<char>,
            rt: Seq<char>,
        |
            r == invoke_range_resolved_s("super"@, regs16(args@), cl, nm, ps, rt),
        Instruction::InvokeDirectRange { args, .. } => exists|
            cl: Seq<char>,
            nm: Seq<char>,
            ps: Seq<char>,
            rt: Seq<char>,
        |
            r == invoke_range_resolved_s("direct"@, regs16(args@), cl, nm, ps, rt),
        Instruction::InvokeStaticRange { args, .. } => exists|
            cl: Seq<char>,
            nm: Seq<char>,
            ps: Seq<char>,
            rt: Seq<char>,
        |
            r == invoke_range_resolved_s("static"@, regs16(args@), cl, nm, ps, rt),
        Instruction::InvokeInterfaceRange { args, .. } => exists|
            cl: Seq<char>,
            nm: Seq<char>,
            ps: Seq<char>,
            rt: Seq<char>,
        |
            r == invoke_range_resolved_s("interface"@, regs16(args@), cl, nm, ps, rt),
        no_lookup => r == spec_display(no_lookup),
    }
}

/// Trait for pretty printing dalvik instructions such that they include
/// method names, string literals, field names, etc.
///
/// The metadata required is usually in dex metadata, which this crate does
/// not parse; an implementation supplies the four lookups.
pub trait PrettyPrint {
    /// Method lookup. Should return (Class, Name, Params, Return).
    fn method(&self, index: u16) -> (String, String, String, String);

    /// Field lookup. Should return (Class, Name, Type).
    fn field(&self, index: u16) -> (String, String, String);

    /// String lookup. Should return contents of the string at the given index.
    fn string(&self, index: u32) -> String;

    /// Type lookup. Should return the encoded name of the type.
    fn type_str(&self, index: u16) -> String;

    /// Pretty print the instruction, resolving symbol-table indices through
    /// the lookups. No newline is added to the end.
    ///
    /// A variant that consults no lookup renders exactly as
    /// [`Instruction::display`] does; a symbol-resolving variant follows the
    /// resolved template with the looked-up names spliced in (see
    /// [`spec_print`]).
    #[verifier::rlimit(100)]
    #[verifier::spinoff_prover]
    fn print(&self, inst: &Instruction) -> (r: String)
        ensures
            spec_print(*inst, r@),
    {
        match inst {
            Instruction::ConstString(dst, idx) => {
                let looked = self.string(*idx as u32);
                render_string_const("const-string", *dst, looked.as_str())
            },
            Instruction::ConstStringJumbo(dst, idx) => {
                let looked = self.string(*idx);
                render_string_const("const-string/jumbo", *dst, looked.as_str())
            },
            Instruction::ConstClass(dst, idx) => {
                let looked = self.type_str(*idx);
                render_type_use("const-class", *dst, looked.as_str())
            },
            Instruction::CheckCast(dst, idx) => {
                let looked = self.type_str(*idx);
                render_type_use("check-cast", *dst, looked.as_str())
            },
            Instruction::InstanceOf(dst, src, idx) => {
                let looked = self.type_str(*idx);
                render_type_use2("instance-of", *dst, *src, looked.as_str())
            },
            Instruction::NewInstance(dst, idx) => {
                let looked = self.type_str(*idx);
                render_type_use("new-instance", *dst, looked.as_str())
            },
            Instruction::NewArray(dst, src, idx) => {
                let looked = self.type_str(*idx);
                render_type_use2("new-array", *dst, *src, looked.as_str())
            },
            Instruction::FilledNewArray { ty, nargs, args } => {
                let looked = self.type_str(*ty);
                render_filled(args, *nargs, looked.as_str())
            },
            Instruction::FilledNewArrayRange { ty, args } => {
                let looked = self.type_str(*ty);
                render_filled_range(args, looked.as_str())
            },
            Instruction::IGet(dst, src, field) => {
                let (class, name, ty) = self.field(*field);
                render_isgetters("iget", *dst, Some(*src), class.as_str(), name.as_str(), ty.as_str())
            },
            Instruction::IGetWide(dst, src, field) => {
                let (class, name, ty) = self.field(*field);
                render_isgetters("iget-wide", *dst, Some(*src), class.as_str(), name.as_str(), ty.as_str())
            },
            Instruction::IGetObject(dst, src, field) => {
                let (class, name, ty) = self.field(*field);
                render_isgetters("iget-object", *dst, Some(*src), class.as_str(), name.as_str(), ty.as_str())
            },
            Instruction::IGetBoolean(dst, src, field) => {
                let (class, name, ty) = self.field(*field);
                render_isgetters("iget-boolean", *dst, Some(*src), class.as_str(), name.as_str(), ty.as_str())
            },
            Instruction::IGetByte(dst, src, field) => {
                let (class, name, ty) = self.field(*field);
                render_isgetters("iget-byte", *dst, Some(*src), class.as_str(), name.as_str(), ty.as_str())
            },
            Instruction::IGetChar(dst, src, field) => {
                let (class, name, ty) = self.field(*field);
                render_isgetters("iget-char", *dst, Some(*src), class.as_str(), name.as_str(), ty.as_str())
            },
            Instruction::IGetShort(dst, src, field) => {
                let (class, name, ty) = self.field(*field);
                render_isgetters("iget-short", *dst, Some(*src), class.as_str(), name.as_str(), ty.as_str())
            },
            Instruction::IPut(dst, src, field) => {
                let (class, name, ty) = self.field(*field);
                render_isgetters("iput", *dst, Some(*src), class.as_str(), name.as_str(), ty.as_str())
            },
            Instruction::IPutWide(dst, src, field) => {
                let (class, name, ty) = self.field(*field);
                render_isgetters("iput-wide", *dst, Some(*src), class.as_str(), name.as_str(), ty.as_str())
            },
            Instruction::IPutObject(dst, src, field) => {
                let (class, name, ty) = self.field(*field);
                render_isgetters("iput-object", *dst, Some(*src), class.as_str(), name.as_str(), ty.as_str())
            },
            Instruction::IPutBoolean(dst, src, field) => {
                let (class, name, ty) = self.field(*field);
                render_isgetters("iput-boolean", *dst, Some(*src), class.as_str(), name.as_str(), ty.as_str())
            },
            Instruction::IPutByte(dst, src, field) => {
                let (class, name, ty) = self.field(*field);
                render_isgetters("iput-byte", *dst, Some(*src), class.as_str(), name.as_str(), ty.as_str())
            },
            Instruction::IPutChar(dst, src, field) => {
                let (class, name, ty) = self.field(*field);
                render_isgetters("iput-char", *dst, Some(*src), class.as_str(), name.as_str(), ty.as_str())
            },
            Instruction::IPutShort(dst, src, field) => {
                let (class, name, ty) = self.field(*field);
                render_isgetters("iput-short", *dst, Some(*src), class.as_str(), name.as_str(), ty.as_str())
            },
            Instruction::SGet(dst, field) => {
                let (class, name, ty) = self.field(*field);
                render_isgetters("sget", *dst, None, class.as_str(), name.as_str(), ty.as_str())
            },
            Instruction::SGetWide(dst, field) => {
                let (class, name, ty) = self.field(*field);
                render_isgetters("sget-wide", *dst, None, class.as_str(), name.as_str(), ty.as_str())
            },
            Instruction::SGetObject(dst, field) => {
                let (class, name, ty) = self.field(*field);
                render_isgetters("sget-object", *dst, None, class.as_str(), name.as_str(), ty.as_str())
            },
            Instruction::SGetBoolean(dst, field) => {
                let (class, name, ty) = self.field(*field);
                render_isgetters("sget-boolean", *dst, None, class.as_str(), name.as_str(), ty.as_str())
            },
            Instruction::SGetByte(dst, field) => {
                let (class, name, ty) = self.field(*field);
                render_isgetters("sget-byte", *dst, None, class.as_str(), name.as_str(), ty.as_str())
            },
            Instruction::SGetChar(dst, field) => {
                let (class, name, ty) = self.field(*field);
                render_isgetters("sget-char", *dst, None, class.as_str(), name.as_str(), ty.as_str())
            },
            Instruction::SGetShort(dst, field) => {
                let (class, name, ty) = self.field(*field);
                render_isgetters("sget-short", *dst, None, class.as_str(), name.as_str(), ty.as_str())
            },
            Instruction::SPut(dst, field) => {
                let (class, name, ty) = self.field(*field);
                render_isgetters("sput", *dst, None, class.as_str(), name.as_str(), ty.as_str())
            },
            Instruction::SPutWide(dst, field) => {
                let (class, name, ty) = self.field(*field);
                render_isgetters("sput-wide", *dst, None, class.as_str(), name.as_str(), ty.as_str())
            },
            Instruction::SPutObject(dst, field) => {
                let (class, name, ty) = self.field(*field);
                render_isgetters("sput-object", *dst, None, class.as_str(), name.as_str(), ty.as_str())
            },
            Instruction::SPutBoolean(dst, field) => {
                let (class, name, ty) = self.field(*field);
                render_isgetters("sput-boolean", *dst, None, class.as_str(), name.as_str(), ty.as_str())
            },
            Instruction::SPutByte(dst, field) => {
                let (class, name, ty) = self.field(*field);
                render_isgetters("sput-byte", *dst, None, class.as_str(), name.as_str(), ty.as_str())
            },
            Instruction::SPutChar(dst, field) => {
                let (class, name, ty) = self.field(*field);
                render_isgetters("sput-char", *dst, None, class.as_str(), name.as_str(), ty.as_str())
            },
            Instruction::SPutShort(dst, field) => {
                let (class, name, ty) = self.field(*field);
                render_isgetters("sput-short", *dst, None, class.as_str(), name.as_str(), ty.as_str())
            },
            Instruction::InvokeVirtual { method, nargs, args } => {
                let (class, name, params, ret) = self.method(*method);
                render_invoke(args, *nargs, "virtual", class.as_str(), name.as_str(), params.as_str(), ret.as_str())
            },
            Instruction::InvokeSuper { method, nargs, args } => {
                let (class, name, params, ret) = self.method(*method);
                render_invoke(args, *nargs, "super", class.as_str(), name.as_str(), params.as_str(), ret.as_str())
            },
            Instruction::InvokeDirect { method, nargs, args } => {
                let (class, name, params, ret) = self.method(*method);
                render_invoke(args, *nargs, "direct", class.as_str(), name.as_str(), params.as_str(), ret.as_str())
            },
            Instruction::InvokeStatic { method, nargs, args } => {
                let (class, name, params, ret) = self.method(*method);
                render_invoke(args, *nargs, "static", class.as_str(), name.as_str(), params.as_str(), ret.as_str())
            },
            Instruction::InvokeInterface { method, nargs, args } => {
                let (class, name, params, ret) = self.method(*method);
                render_invoke(args, *nargs, "interface", class.as_str(), name.as_str(), params.as_str(), ret.as_str())
            },
            Instruction::InvokeVirtualRange { method, args } => {
                let (class, name, params, ret) = self.method(*method);
                render_invoke_range(args, "virtual", class.as_str(), name.as_str(), params.as_str(), ret.as_str())
            },
            Instruction::InvokeSuperRange { method, args } => {
                let (class, name, params, ret) = self.method(*method);
                render_invoke_range(args, "super", class.as_str(), name.as_str(), params.as_str(), ret.as_str())
            },
            Instruction::InvokeDirectRange { method, args } => {
                let (class, name, params, ret) = self.method(*method);
                render_invoke_range(args, "direct", class.as_str(), name.as_str(), params.as_str(), ret.as_str())
            },
            Instruction::InvokeStaticRange { method, args } => {
                let (class, name, params, ret) = self.method(*method);
                render_invoke_range(args, "static", class.as_str(), name.as_str(), params.as_str(), ret.as_str())
            },
            Instruction::InvokeInterfaceRange { method, args } => {
                let (class, name, params, ret) = self.method(*method);
                render_invoke_range(args, "interface", class.as_str(), name.as_str(), params.as_str(), ret.as_str())
            },
            no_lookup => no_lookup.display(),
        }
    }
}

/// `verb v1, 2, Class->name:Type` (or without the `2, ` when there is no
/// object register): a field access rendered with its resolved class, field
/// name and type.
fn render_isgetters(
    verb: &str,
    dst: u8,
    src: Option<u8>,
    class: &str,
    name: &str,
    ty: &str,
) -> (r: String)
    ensures
        r@ == field_access_s(verb@, dst as int, src, class@, name@, ty@),
{
    let mut t = String::from_str(verb);
    t.append(" v");
    push_dec(&mut t, dst as u64);
    t.append(", ");
    match src {
        Some(s) => {
            push_dec(&mut t, s as u64);
            t.append(", ");
        },
        None => {},
    }
    t.append(class);
    t.append("->");
    t.append(name);
    t.append(":");
    t.append(ty);
    t
}

/// `invoke-kind {v1, v2}, Class->name(Params)Return`: an invoke rendered
/// with its resolved method signature.
fn render_invoke(args: &[u8; 5], nargs: u8, kind: &str, class: &str, name: &str, params: &str, ret: &str) -> (r: String)
    ensures
        r@ == invoke_resolved_s(kind@, regs5(args@, nargs), class@, name@, params@, ret@),
{
    let mut t = String::from_str("invoke-");
    t.append(kind);
    t.append(" {");
    push_args8(&mut t, args, nargs);
    t.append("}, ");
    t.append(class);
    t.append("->");
    t.append(name);
    t.append("(");
    t.append(params);
    t.append(")");
    t.append(ret);
    t
}

/// `invoke-kind/range {v1, v2}, Class->name(Params)Return`: a range invoke
/// rendered with its resolved method signature.
fn render_invoke_range(args: &Vec<u16>, kind: &str, class: &str, name: &str, params: &str, ret: &str) -> (r: String)
    ensures
        r@ == invoke_range_resolved_s(kind@, regs16(args@), class@, name@, params@, ret@),
{
    let mut t = String::from_str("invoke-");
    t.append(kind);
    t.append("/range {");
    push_args16(&mut t, args);
    t.append("}, ");
    t.append(class);
    t.append("->");
    t.append(name);
    t.append("(");
    t.append(params);
    t.append(")");
    t.append(ret);
    t
}

/// A string constant rendered with its resolved contents.
fn render_string_const(verb: &str, dst: u8, contents: &str) -> (r: String)
    ensures
        r@ == string_const_s(verb@, dst as int, contents@),
{
    let mut t = String::from_str(verb);
    t.append(" v");
    push_dec(&mut t, dst as u64);
    t.append(", \"");
    t.append(contents);
    t.append("\"");
    t
}

/// A type use rendered with its resolved type name.
fn render_type_use(verb: &str, dst: u8, ty: &str) -> (r: String)
    ensures
        r@ == type_use_s(verb@, dst as int, ty@),
{
    let mut t = String::from_str(verb);
    t.append(" v");
    push_dec(&mut t, dst as u64);
    t.append(", ");
    t.append(ty);
    t
}

/// A two-register type use rendered with its resolved type name.
fn render_type_use2(verb: &str, dst: u8, src: u8, ty: &str) -> (r: String)
    ensures
        r@ == type_use2_s(verb@, dst as int, src as int, ty@),
{
    let mut t = String::from_str(verb);
    t.append(" v");
    push_dec(&mut t, dst as u64);
    t.append(", v");
    push_dec(&mut t, src as u64);
    t.append(", ");
    t.append(ty);
    t
}

/// A filled-new-array rendered with its resolved element type name.
fn render_filled(args: &[u8; 5], nargs: u8, ty: &str) -> (r: String)
    ensures
        r@ == filled_resolved_s(regs5(args@, nargs), ty@),
{
    let mut t = String::from_str("filled-new-array {");
    push_args8(&mut t, args, nargs);
    t.append("}, ");
    t.append(ty);
    t
}

/// A filled-new-array/range rendered with its resolved type name.
fn render_filled_range(args: &Vec<u16>, ty: &str) -> (r: String)
    ensures
        r@ == filled_range_resolved_s(regs16(args@), ty@),
{
    let mut t = String::from_str("filled-new-array/range {");
    push_args16(&mut t, args);
    t.append("}, ");
    t.append(ty);
    t
}

} // verus!
