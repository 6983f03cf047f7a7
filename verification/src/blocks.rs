//! Basic block lifting.
//!
//! [`basic_blocks`] partitions a method's bytecode into maximal straight-line
//! instruction runs by a worklist discovery: starting from address 0 and the
//! supplied entry points, each pending address is decoded into a block whose
//! exit targets seed further pending addresses, smallest address first, until
//! no pending address is left.

use crate::ControlFlow;
use crate::Instruction;
use crate::decode::Error;
use crate::decode::decode_one;
use crate::decode::instr_matches;
use crate::decode::lemma_len_matches_consumed;
use crate::decode::lemma_step_bounds;
use crate::decode::spec_step;
use crate::spec_control_flow;
use std::collections::BTreeMap;
use vstd::prelude::*;
use vstd::seq_lib::*;
use vstd::set_lib::lemma_len_subset;
use vstd::set_lib::lemma_int_range;
use vstd::set_lib::set_int_range;
use vstd::slice::slice_subrange;

verus! {

broadcast use vstd::laws_cmp::group_laws_cmp;

/// A simple basic block of sequential instructions.
///
/// Unless an instruction raises an exception, every instruction except the
/// last in `instructions` is expected to fall through to the next after it
/// executes.
///
/// The final instruction may fall through to the next addressed instruction
/// (outside of this basic block), or it may have multiple jump locations
/// based on a conditional, or it may even return from the method,
/// terminating local control flow. The `next` field stores this information.
#[derive(Debug)]
pub struct BasicBlock {
    /// Instructions contained in this basic block
    pub instructions: Vec<Instruction>,
    /// Next branch targets from the last instruction of this block
    pub next: NextBranch,
}

/// Possible branch targets finalizing a basic block.
#[derive(Debug, Clone, Copy, PartialEq, Eq, Structural)]
pub enum NextBranch {
    /// Termination (e.g. return or throw)
    Terminal,
    /// Unconditional jump
    Goto(usize),
    /// Conditional jump
    Cond {
        /// Branch here if condition is true
        t: usize,
        /// Branch here if condition is false
        f: usize,
    },
}

impl NextBranch {
    /// The possible branch targets, in order: none for a terminal block, the
    /// single target of an unconditional jump, or the taken target followed
    /// by the not-taken target of a conditional branch.
    pub fn iter(&self) -> (r: Vec<usize>)
        ensures
            (*self is Terminal ==> r@ =~= Seq::<usize>::empty()),
            ((*self) matches NextBranch::Goto(t) ==> r@ =~= seq![t]),
            ((*self) matches NextBranch::Cond { t, f } ==> r@ =~= seq![t, f]),
    {
        match self {
            NextBranch::Terminal => Vec::new(),
            NextBranch::Goto(t) => vec![*t],
            NextBranch::Cond { t, f } => vec![*t, *f],
        }
    }
}

/// The address of the first actual instruction at or after `a`: skips any
/// inline metadata tables that sit at `a`. The range guard on the recursion
/// never fails for a skip reported by [`spec_step`] (see
/// [`lemma_step_bounds`]).
pub open spec fn next_insn(s: Seq<u16>, a: int) -> int
    decreases s.len() - a,
{
    if 0 <= a && a < s.len() {
        match spec_step(s.skip(a)) {
            Err(Error::Metadata { length }) => if 1 <= length && a + length <= s.len() {
                next_insn(s, a + length)
            } else {
                a
            },
            _ => a,
        }
    } else {
        a
    }
}

proof fn lemma_next_insn_ge(s: Seq<u16>, a: int)
    ensures
        a <= next_insn(s, a),
    decreases s.len() - a,
{
    if 0 <= a && a < s.len() {
        match spec_step(s.skip(a)) {
            Err(Error::Metadata { length }) => {
                if 1 <= length && a + length <= s.len() {
                    lemma_next_insn_ge(s, a + length);
                }
            },
            _ => {},
        }
    }
}

proof fn lemma_next_insn_le(s: Seq<u16>, a: int)
    requires
        a <= s.len(),
    ensures
        next_insn(s, a) <= s.len(),
    decreases s.len() - a,
{
    if 0 <= a && a < s.len() {
        match spec_step(s.skip(a)) {
            Err(Error::Metadata { length }) => {
                if 1 <= length && a + length <= s.len() {
                    lemma_next_insn_le(s, a + length);
                }
            },
            _ => {},
        }
    }
}

/// The number of code units one decode at `a` consumes, meaningful when
/// [`spec_step`] succeeds there.
pub open spec fn step_of(s: Seq<u16>, a: int) -> int {
    spec_step(s.skip(a))->Ok_0 as int
}

/// The address trace of a basic block found at `entry`: `addrs[k]` is the
/// address of the block's `k`-th instruction. The first instruction sits at
/// `entry` (past any metadata table there), each later one at the address
/// after its predecessor (again past metadata), and the exit descriptor
/// resolves the last instruction's control flow: a jump or branch target is
/// the last instruction's address plus its relative offset, and a
/// fall-through successor is the address right after the last instruction.
pub open spec fn block_run(s: Seq<u16>, entry: int, addrs: Seq<int>, bb: BasicBlock) -> bool {
    let insts = bb.instructions@;
    &&& addrs.len() == insts.len()
    &&& addrs.len() >= 1
    &&& addrs[0] == next_insn(s, entry)
    &&& (forall|k: int|
        0 <= k < addrs.len() ==> (0 <= #[trigger] addrs[k] < s.len() && spec_step(
            s.skip(addrs[k]),
        ) is Ok && instr_matches(s.skip(addrs[k]), insts[k])))
    &&& (forall|k: int|
        0 <= k < addrs.len() - 1 ==> #[trigger] addrs[k + 1] == next_insn(
            s,
            addrs[k] + step_of(s, addrs[k]),
        ))
    &&& {
        let last = addrs.last();
        match spec_control_flow(insts.last()) {
            ControlFlow::Terminate => bb.next is Terminal,
            ControlFlow::GoTo(t) => last + t >= 0 && bb.next == (NextBranch::Goto(
                (last + t) as usize,
            )),
            ControlFlow::Branch(t) => last + t >= 0 && bb.next == (NextBranch::Cond {
                t: ((last + t) as usize),
                f: ((last + step_of(s, last)) as usize),
            }),
            ControlFlow::FallThrough => bb.next == (NextBranch::Goto(
                ((last + step_of(s, last)) as usize),
            )),
        }
    }
}

/// Well-formedness of a basic block keyed at `addr` in the code `s`: it
/// holds at least one instruction, every instruction before the last falls
/// through, and some address trace ties the instructions and the exit
/// descriptor to the code (see [`block_run`]).
pub open spec fn block_wf(s: Seq<u16>, addr: usize, bb: BasicBlock) -> bool {
    let insts = bb.instructions@;
    &&& insts.len() >= 1
    &&& (forall|j: int|
        0 <= j < insts.len() - 1 ==> spec_control_flow(#[trigger] insts[j]) is FallThrough)
    &&& (exists|addrs: Seq<int>| block_run(s, addr as int, addrs, bb))
}

/// A witness that lifting fails with error `e` at the in-buffer address
/// `a`: either one decoding step at `a` reports `e`, or (for an encoding
/// error) the instruction at `a` jumps or branches to before address 0.
pub open spec fn fail_at(s: Seq<u16>, a: int, e: Error) -> bool {
    &&& 0 <= a <= s.len()
    &&& {
        ||| spec_step(s.skip(a)) == Err::<usize, Error>(e)
        ||| (e is Encoding && exists|i: Instruction|
            #[trigger] instr_matches(s.skip(a), i) && match spec_control_flow(i) {
                ControlFlow::GoTo(t) => a + t < 0,
                ControlFlow::Branch(t) => a + t < 0,
                _ => false,
            })
    }
}

/// One step of control flow between raw cursor positions: the instruction
/// sitting at `from` (past any metadata tables) either falls through to the
/// position right after itself, or jumps or branches to its address plus
/// its relative offset; a branch can also fall through. A terminating
/// instruction has no successor.
pub open spec fn reach_step(s: Seq<u16>, from: int, to: int) -> bool {
    let a = next_insn(s, from);
    &&& spec_step(s.skip(a)) is Ok
    &&& exists|i: Instruction|
        #[trigger] instr_matches(s.skip(a), i) && match spec_control_flow(i) {
            ControlFlow::FallThrough => to == a + step_of(s, a),
            ControlFlow::GoTo(t) => to == a + t,
            ControlFlow::Branch(t) => to == a + t || to == a + step_of(s, a),
            ControlFlow::Terminate => false,
        }
}

/// Whether control flow can run from position `from` to position `to` by a
/// chain of [`reach_step`]s (the empty chain reaches `from` itself).
pub open spec fn reachable_from(s: Seq<u16>, from: int, to: int) -> bool {
    exists|chain: Seq<int>|
        #![trigger chain.last()]
        chain.len() >= 1 && chain[0] == from && chain.last() == to && (forall|k: int|
            0 <= k < chain.len() - 1 ==> reach_step(s, #[trigger] chain[k], chain[k + 1]))
}

/// Whether lifting with the given entry points ever decodes at position
/// `a`: control flow runs there from address 0 or from one of the entries.
pub open spec fn lift_reachable(s: Seq<u16>, entries: Seq<usize>, a: int) -> bool {
    ||| reachable_from(s, 0, a)
    ||| exists|j: int| 0 <= j < entries.len() && reachable_from(s, #[trigger] entries[j] as int, a)
}

/// Whether decoding onward from raw cursor position `cp` fails with `e`:
/// positions past the end are clamped to the end, metadata tables at the
/// position are skipped, and the decode there fails as [`fail_at`] says.
pub open spec fn fail_from(s: Seq<u16>, cp: int, e: Error) -> bool {
    let c = if cp > s.len() {
        s.len() as int
    } else {
        cp
    };
    fail_at(s, next_insn(s, c), e)
}

proof fn lemma_reachable_trans(s: Seq<u16>, a: int, b: int, c: int)
    requires
        reachable_from(s, a, b),
        reachable_from(s, b, c),
    ensures
        reachable_from(s, a, c),
{
    let c1 = choose|c1: Seq<int>|
        #![trigger c1.last()]
        c1.len() >= 1 && c1[0] == a && c1.last() == b && (forall|k: int|
            0 <= k < c1.len() - 1 ==> reach_step(s, #[trigger] c1[k], c1[k + 1]));
    let c2 = choose|c2: Seq<int>|
        #![trigger c2.last()]
        c2.len() >= 1 && c2[0] == b && c2.last() == c && (forall|k: int|
            0 <= k < c2.len() - 1 ==> reach_step(s, #[trigger] c2[k], c2[k + 1]));
    let joined = c1 + c2.skip(1);
    assert(joined.len() >= 1);
    assert(joined[0] == a);
    assert(joined.last() == if c2.len() == 1 {
        b
    } else {
        c
    });
    assert forall|k: int| 0 <= k < joined.len() - 1 implies reach_step(
        s,
        #[trigger] joined[k],
        joined[k + 1],
    ) by {
        if k < c1.len() - 1 {
            assert(joined[k] == c1[k] && joined[k + 1] == c1[k + 1]);
        } else if k == c1.len() - 1 {
            assert(joined[k] == c1.last() && joined[k + 1] == c2[1]);
            assert(reach_step(s, c2[0], c2[1]));
        } else {
            assert(joined[k] == c2[k - c1.len() + 1] && joined[k + 1] == c2[k - c1.len() + 2]);
            assert(reach_step(s, c2[k - c1.len() + 1], c2[k - c1.len() + 2]));
        }
    };
    if c2.len() == 1 {
        assert(joined.last() == c);
    }
}

proof fn lemma_reachable_self(s: Seq<u16>, a: int)
    ensures
        reachable_from(s, a, a),
{
    let chain: Seq<int> = seq![a];
    assert(chain.last() == a);
}

proof fn lemma_reachable_extend(s: Seq<u16>, from: int, mid: int, to: int)
    requires
        reachable_from(s, from, mid),
        reach_step(s, mid, to),
    ensures
        reachable_from(s, from, to),
{
    let c1 = choose|c1: Seq<int>|
        #![trigger c1.last()]
        c1.len() >= 1 && c1[0] == from && c1.last() == mid && (forall|k: int|
            0 <= k < c1.len() - 1 ==> reach_step(s, #[trigger] c1[k], c1[k + 1]));
    let joined = c1.push(to);
    assert(joined.last() == to);
    assert(joined[0] == from);
    assert forall|k: int| 0 <= k < joined.len() - 1 implies reach_step(
        s,
        #[trigger] joined[k],
        joined[k + 1],
    ) by {
        if k < c1.len() - 1 {
            assert(joined[k] == c1[k] && joined[k + 1] == c1[k + 1]);
            assert(reach_step(s, c1[k], c1[k + 1]));
        } else {
            assert(joined[k] == c1.last() && joined[k + 1] == to);
        }
    };
}

proof fn lemma_lift_extend(s: Seq<u16>, entries: Seq<usize>, a: int, b: int)
    requires
        lift_reachable(s, entries, a),
        reachable_from(s, a, b),
    ensures
        lift_reachable(s, entries, b),
{
    if reachable_from(s, 0, a) {
        lemma_reachable_trans(s, 0, a, b);
    } else {
        let j = choose|j: int| 0 <= j < entries.len() && reachable_from(s, entries[j] as int, a);
        lemma_reachable_trans(s, entries[j] as int, a, b);
        assert(reachable_from(s, entries[j] as int, b));
    }
}

proof fn lemma_step_reaches(s: Seq<u16>, mark: int, cursor: int, i: Instruction)
    requires
        next_insn(s, mark) == next_insn(s, cursor),
        0 <= cursor <= s.len(),
        spec_step(s.skip(cursor)) is Ok,
        instr_matches(s.skip(cursor), i),
    ensures
        next_insn(s, cursor) == cursor,
        (spec_control_flow(i) is FallThrough ==> reach_step(s, mark, cursor + step_of(s, cursor))),
        (spec_control_flow(i) matches ControlFlow::GoTo(t) ==> reach_step(s, mark, cursor + t)),
        (spec_control_flow(i) matches ControlFlow::Branch(t) ==> reach_step(s, mark, cursor + t)
            && reach_step(s, mark, cursor + step_of(s, cursor))),
{
    assert(next_insn(s, cursor) == cursor);
    match spec_control_flow(i) {
        ControlFlow::FallThrough => {
            assert(reach_step(s, mark, cursor + step_of(s, cursor)));
        },
        ControlFlow::GoTo(t) => {
            assert(reach_step(s, mark, cursor + t));
        },
        ControlFlow::Branch(t) => {
            assert(reach_step(s, mark, cursor + t));
            assert(reach_step(s, mark, cursor + step_of(s, cursor)));
        },
        ControlFlow::Terminate => {},
    }
}

/// Whether `t` is one of the successor addresses named by an exit
/// descriptor.
pub open spec fn is_target(nb: NextBranch, t: usize) -> bool {
    match nb {
        NextBranch::Terminal => false,
        NextBranch::Goto(x) => t == x,
        NextBranch::Cond { t: a, f: b } => t == a || t == b,
    }
}

/// Whether `t` is a successor named by an actual jump or branch of the
/// block's last instruction — not by a synthetic fall-through `Goto`.
pub open spec fn hard_target(bb: BasicBlock, t: usize) -> bool {
    match bb.next {
        NextBranch::Terminal => false,
        NextBranch::Goto(x) => t == x && !(spec_control_flow(
            bb.instructions@.last(),
        ) is FallThrough),
        NextBranch::Cond { t: a, f: b } => t == a || t == b,
    }
}

/// Whether `t` is a forced block boundary of the map `m`: an address known
/// to begin a block independent of straight-line fall-through — the method
/// entry, a supplied entry point, or a jump or branch target of some block.
pub open spec fn boundary_of(m: Map<usize, BasicBlock>, entries: Seq<usize>, t: usize) -> bool {
    ||| t == 0
    ||| entries.contains(t)
    ||| exists|k: usize| m.contains_key(k) && #[trigger] hard_target(m[k], t)
}

proof fn lemma_boundary_mono(
    m1: Map<usize, BasicBlock>,
    m2: Map<usize, BasicBlock>,
    entries: Seq<usize>,
    t: usize,
)
    requires
        boundary_of(m1, entries, t),
        forall|k: usize| #[trigger] m1.contains_key(k) ==> m2.contains_key(k) && m2[k] == m1[k],
    ensures
        boundary_of(m2, entries, t),
{
    if t != 0 && !entries.contains(t) {
        let k = choose|k: usize| m1.contains_key(k) && #[trigger] hard_target(m1[k], t);
        assert(m2.contains_key(k) && hard_target(m2[k], t));
    }
}

/// Whether `v` holds the address `a`.
fn contains_addr(v: &Vec<usize>, a: usize) -> (r: bool)
    ensures
        r == v@.contains(a),
{
    let mut k: usize = 0;
    while k < v.len()
        invariant
            k <= v@.len(),
            forall|j: int| 0 <= j < k ==> v@[j] != a,
        decreases v@.len() - k,
    {
        if v[k] == a {
            return true;
        }
        k += 1;
    }
    false
}

/// The index of a smallest element of `v`.
fn min_index(v: &Vec<usize>) -> (r: usize)
    requires
        v@.len() >= 1,
    ensures
        r < v@.len(),
        forall|j: int| 0 <= j < v@.len() ==> v@[r as int] <= #[trigger] v@[j],
{
    let mut best: usize = 0;
    let mut k: usize = 1;
    while k < v.len()
        invariant
            best < k <= v@.len(),
            forall|j: int| 0 <= j < k ==> v@[best as int] <= #[trigger] v@[j],
        decreases v@.len() - k,
    {
        if v[k] < v[best] {
            best = k;
        }
        k += 1;
    }
    best
}

proof fn lemma_push_keeps(p: Seq<usize>, x: usize)
    requires
        p.no_duplicates(),
        !p.contains(x),
    ensures
        p.push(x).no_duplicates(),
        forall|y: usize| p.contains(y) ==> #[trigger] p.push(x).contains(y),
        p.push(x).contains(x),
        forall|y: usize| #[trigger] p.push(x).contains(y) ==> p.contains(y) || y == x,
{
    assert forall|y: usize| p.contains(y) implies #[trigger] p.push(x).contains(y) by {
        let j = choose|j: int| 0 <= j < p.len() && p[j] == y;
        assert(p.push(x)[j] == y);
    };
    assert(p.push(x)[p.len() as int] == x);
}

proof fn lemma_remove_keeps(p: Seq<usize>, i: int)
    requires
        0 <= i < p.len(),
        p.no_duplicates(),
    ensures
        p.remove(i).no_duplicates(),
        forall|y: usize| #[trigger] p.remove(i).contains(y) ==> p.contains(y),
        forall|y: usize| p.contains(y) && y != p[i] ==> #[trigger] p.remove(i).contains(y),
        !p.remove(i).contains(p[i]),
{
    p.remove_ensures(i);
    assert forall|y: usize| #[trigger] p.remove(i).contains(y) implies p.contains(y) by {
        let j = choose|j: int| 0 <= j < p.remove(i).len() && p.remove(i)[j] == y;
        if j < i {
            assert(p[j] == y);
        } else {
            assert(p[j + 1] == y);
        }
    };
    assert forall|y: usize| p.contains(y) && y != p[i] implies #[trigger] p.remove(i).contains(
        y,
    ) by {
        let j = choose|j: int| 0 <= j < p.len() && p[j] == y;
        if j < i {
            assert(p.remove(i)[j] == y);
        } else {
            assert(p.remove(i)[j - 1] == y);
        }
    };
    assert forall|a: int, b: int|
        0 <= a < p.remove(i).len() && 0 <= b < p.remove(i).len() && a != b implies p.remove(i)[a]
        != p.remove(i)[b] by {
        let a2: int = if a < i {
            a
        } else {
            a + 1
        };
        let b2: int = if b < i {
            b
        } else {
            b + 1
        };
        assert(p.remove(i)[a] == p[a2] && p.remove(i)[b] == p[b2]);
    };
    if p.remove(i).contains(p[i]) {
        let j = choose|j: int| 0 <= j < p.remove(i).len() && p.remove(i)[j] == p[i];
        if j < i {
            assert(p[j] == p[i]);
        } else {
            assert(p[j + 1] == p[i]);
        }
    }
}

/// Decode a single basic block starting at `entry_point`, stopping before
/// any address in `avoid` (the addresses still pending discovery): the
/// straight run ends when an instruction terminates, jumps or branches, or
/// when the address after a fall-through instruction is in `avoid`, in which
/// case the block is closed with a synthetic `Goto` to that address. Inline
/// metadata tables are skipped transparently. A jump or branch target before
/// address 0 is an encoding error.
#[verifier::rlimit(100)]
#[verifier::spinoff_prover]
pub(crate) fn decode_bb(bytecode: &[u16], entry_point: usize, avoid: &Vec<usize>) -> (r: Result<
    BasicBlock,
    Error,
>)
    requires
        bytecode@.len() <= 0x7fff_ffff,
    ensures
        (r matches Ok(bb) ==> block_wf(bytecode@, entry_point, bb) && entry_point < bytecode@.len()
            && (spec_control_flow(bb.instructions@.last()) is FallThrough ==> (bb.next matches
        NextBranch::Goto(t) && avoid@.contains(t))) && (forall|t2: usize|
            #[trigger] is_target(bb.next, t2) ==> reachable_from(
                bytecode@,
                entry_point as int,
                t2 as int,
            ))),
        (r matches Err(e) ==> !(e is Metadata) && exists|cp: int|
            reachable_from(bytecode@, entry_point as int, cp) && #[trigger] fail_from(
                bytecode@,
                cp,
                e,
            )),
{
    let ghost s = bytecode@;
    let mut instructions: Vec<Instruction> = Vec::new();
    let ghost mut addrs: Seq<int> = Seq::empty();
    let ghost mut mark: int = entry_point as int;
    let mut cursor = entry_point;
    if cursor > bytecode.len() {
        proof {
            assert(s.skip(s.len() as int) =~= Seq::<u16>::empty());
            assert(fail_at(s, s.len() as int, Error::Truncated));
            lemma_reachable_self(s, entry_point as int);
            assert(next_insn(s, s.len() as int) == s.len() as int);
            assert(fail_from(s, entry_point as int, Error::Truncated));
        }
        return Err(Error::Truncated);
    }
    proof {
        lemma_reachable_self(s, entry_point as int);
    }
    loop
        invariant
            s == bytecode@,
            s.len() <= 0x7fff_ffff,
            cursor <= s.len(),
            addrs.len() == instructions@.len(),
            0 <= mark <= s.len(),
            reachable_from(s, entry_point as int, mark),
            next_insn(s, mark) == next_insn(s, cursor as int),
            instructions@.len() == 0 ==> next_insn(s, entry_point as int) == next_insn(
                s,
                cursor as int,
            ),
            instructions@.len() >= 1 ==> (addrs[0] == next_insn(s, entry_point as int)
                && entry_point < s.len() && next_insn(
                s,
                addrs.last() + step_of(s, addrs.last()),
            ) == next_insn(s, cursor as int)),
            forall|k: int|
                0 <= k < addrs.len() ==> (spec_step(s.skip(#[trigger] addrs[k])) is Ok
                    && instr_matches(s.skip(addrs[k]), instructions@[k]) && 0 <= addrs[k]
                    < s.len()),
            forall|k: int|
                0 <= k < addrs.len() - 1 ==> #[trigger] addrs[k + 1] == next_insn(
                    s,
                    addrs[k] + step_of(s, addrs[k]),
                ),
            forall|j: int|
                0 <= j < instructions@.len() ==> spec_control_flow(
                    #[trigger] instructions@[j],
                ) is FallThrough,
        decreases s.len() - cursor,
    {
        let mut rest: &[u16] = slice_subrange(bytecode, cursor, bytecode.len());
        proof {
            assert(rest@ =~= s.skip(cursor as int));
            lemma_step_bounds(s.skip(cursor as int));
        }
        match decode_one(&mut rest) {
            Err(Error::Metadata { length }) => {
                proof {
                    assert(cursor + length <= s.len());
                }
                cursor = cursor + length;
            },
            Err(e) => {
                proof {
                    assert(fail_at(s, cursor as int, e));
                    assert(next_insn(s, cursor as int) == cursor as int);
                    assert(fail_from(s, mark, e));
                }
                return Err(e);
            },
            Ok(inst) => {
                let ghost gi = inst;
                let cf = inst.control_flow();
                let len_i = inst.len();
                proof {
                    lemma_len_matches_consumed(s.skip(cursor as int), gi);
                    assert(len_i == step_of(s, cursor as int) && 1 <= len_i <= s.len() - cursor);
                    lemma_next_insn_ge(s, entry_point as int);
                    lemma_step_reaches(s, mark, cursor as int, gi);
                    addrs = addrs.push(cursor as int);
                }
                instructions.push(inst);
                match cf {
                    ControlFlow::FallThrough => {
                        cursor = cursor + len_i;
                        proof {
                            lemma_reachable_extend(s, entry_point as int, mark, cursor as int);
                            mark = cursor as int;
                        }
                        if contains_addr(avoid, cursor) {
                            let bb = BasicBlock { instructions, next: NextBranch::Goto(cursor) };
                            proof {
                                assert(block_run(s, entry_point as int, addrs, bb));
                            }
                            return Ok(bb);
                        }
                    },
                    ControlFlow::GoTo(t) => {
                        let target = cursor as i64 + t as i64;
                        if target < 0 {
                            proof {
                                assert(instr_matches(s.skip(cursor as int), gi));
                                assert(fail_at(s, cursor as int, Error::Encoding));
                                assert(fail_from(s, mark, Error::Encoding));
                            }
                            return Err(Error::Encoding);
                        }
                        let bb = BasicBlock {
                            instructions,
                            next: NextBranch::Goto(target as usize),
                        };
                        proof {
                            assert(block_run(s, entry_point as int, addrs, bb));
                            lemma_reachable_extend(s, entry_point as int, mark, target as int);
                        }
                        return Ok(bb);
                    },
                    ControlFlow::Branch(t) => {
                        let target = cursor as i64 + t as i64;
                        if target < 0 {
                            proof {
                                assert(instr_matches(s.skip(cursor as int), gi));
                                assert(fail_at(s, cursor as int, Error::Encoding));
                                assert(fail_from(s, mark, Error::Encoding));
                            }
                            return Err(Error::Encoding);
                        }
                        let fall = cursor + len_i;
                        let bb = BasicBlock {
                            instructions,
                            next: NextBranch::Cond { t: target as usize, f: fall },
                        };
                        proof {
                            assert(block_run(s, entry_point as int, addrs, bb));
                            lemma_reachable_extend(s, entry_point as int, mark, target as int);
                            lemma_reachable_extend(s, entry_point as int, mark, fall as int);
                        }
                        return Ok(bb);
                    },
                    ControlFlow::Terminate => {
                        let bb = BasicBlock { instructions, next: NextBranch::Terminal };
                        proof {
                            assert(block_run(s, entry_point as int, addrs, bb));
                        }
                        return Ok(bb);
                    },
                }
            },
        }
    }
}

/// Parse a method's dalvik bytecode into [`BasicBlock`]s keyed by their
/// code-unit start address. `entries` should be all known entry points
/// within the method, for example the offsets of the exception handling
/// catch blocks; address 0 is always an entry.
///
/// Pending addresses are discovered from block exits and processed smallest
/// first. A branch target inside an already decoded block starts a new,
/// overlapping block rather than splitting the existing one. The first
/// decode failure aborts the whole analysis; no partial result is returned;
/// a jump or branch before address 0 counts as an encoding error.
///
/// On success the map covers address 0 and every supplied entry; every
/// block is well formed against the code; every exit target keys a block;
/// every key is reachable by control flow from the entries and is a forced
/// boundary (the method entry, a supplied entry, or a jump or branch target
/// of some block); and a block ends in a synthetic fall-through `Goto` only
/// at such a forced boundary.
///
/// The buffer may hold at most `0x7fff_ffff` code units: branch offsets are
/// 32-bit signed displacements, so no larger method body is addressable.
#[verifier::rlimit(100)]
#[verifier::spinoff_prover]
pub fn basic_blocks(bytecode: &[u16], entries: &[usize]) -> (r: Result<
    BTreeMap<usize, BasicBlock>,
    Error,
>)
    requires
        bytecode@.len() <= 0x7fff_ffff,
    ensures
        (r matches Ok(bbs) ==> bbs@.contains_key(0) && (forall|j: int|
            0 <= j < entries@.len() ==> bbs@.contains_key(#[trigger] entries@[j])) && (forall|
            k: usize,
        |
            bbs@.contains_key(k) ==> block_wf(bytecode@, k, #[trigger] bbs@[k])) && (forall|
            k: usize,
            t2: usize,
        |
            bbs@.contains_key(k) && #[trigger] is_target(bbs@[k].next, t2)
                ==> bbs@.contains_key(t2)) && (forall|k: usize|
            #[trigger] bbs@.contains_key(k) ==> boundary_of(bbs@, entries@, k)) && (forall|
            k: usize,
        |
            #[trigger] bbs@.contains_key(k) ==> lift_reachable(bytecode@, entries@, k as int))
            && (forall|k: usize|
            #![trigger bbs@[k]]
            (bbs@.contains_key(k) && spec_control_flow(
                bbs@[k].instructions@.last(),
            ) is FallThrough) ==> (bbs@[k].next matches NextBranch::Goto(t) && boundary_of(
                bbs@,
                entries@,
                t,
            )))),
        (r matches Err(e) ==> !(e is Metadata) && exists|cp: int|
            lift_reachable(bytecode@, entries@, cp) && #[trigger] fail_from(bytecode@, cp, e)),
{
    let ghost s = bytecode@;
    let mut bbs: BTreeMap<usize, BasicBlock> = BTreeMap::new();
    let mut pending: Vec<usize> = Vec::new();
    pending.push(0);
    proof {
        assert(pending@[0] == 0);
        lemma_reachable_self(s, 0);
    }
    let mut j: usize = 0;
    while j < entries.len()
        invariant
            s == bytecode@,
            j <= entries@.len(),
            pending@.no_duplicates(),
            pending@.contains(0),
            forall|x: int| 0 <= x < j ==> pending@.contains(#[trigger] entries@[x]),
            forall|x: int|
                0 <= x < pending@.len() ==> lift_reachable(s, entries@, #[trigger] pending@[x] as int),
            forall|x: int|
                0 <= x < pending@.len() ==> (pending@[x] == 0 || entries@.contains(
                    #[trigger] pending@[x],
                )),
        decreases entries@.len() - j,
    {
        let e = entries[j];
        if !contains_addr(&pending, e) {
            proof {
                lemma_push_keeps(pending@, e);
                lemma_reachable_self(s, e as int);
                assert(lift_reachable(s, entries@, e as int));
                assert(entries@.contains(entries@[j as int]));
            }
            pending.push(e);
        }
        j += 1;
    }
    let ghost mut done: Set<int> = Set::empty();
    loop
        invariant
            s == bytecode@,
            s.len() <= 0x7fff_ffff,
            pending@.no_duplicates(),
            forall|x: int| 0 <= x < pending@.len() ==> !bbs@.contains_key(#[trigger] pending@[x]),
            forall|k: usize| bbs@.contains_key(k) ==> block_wf(s, k, #[trigger] bbs@[k]),
            bbs@.contains_key(0) || pending@.contains(0),
            forall|x: int|
                0 <= x < entries@.len() ==> (bbs@.contains_key(#[trigger] entries@[x])
                    || pending@.contains(entries@[x])),
            forall|k: usize, t2: usize|
                bbs@.contains_key(k) && #[trigger] is_target(bbs@[k].next, t2)
                    ==> bbs@.contains_key(t2) || pending@.contains(t2),
            forall|x: int|
                0 <= x < pending@.len() ==> lift_reachable(s, entries@, #[trigger] pending@[x] as int),
            forall|x: int|
                0 <= x < pending@.len() ==> boundary_of(bbs@, entries@, #[trigger] pending@[x]),
            forall|k: usize| #[trigger] bbs@.contains_key(k) ==> boundary_of(bbs@, entries@, k),
            forall|k: usize|
                #[trigger] bbs@.contains_key(k) ==> lift_reachable(s, entries@, k as int),
            forall|k: usize|
                #![trigger bbs@[k]]
                (bbs@.contains_key(k) && spec_control_flow(
                    bbs@[k].instructions@.last(),
                ) is FallThrough) ==> (bbs@[k].next matches NextBranch::Goto(t) && boundary_of(
                    bbs@,
                    entries@,
                    t,
                )),
            done.finite(),
            forall|k: usize| bbs@.contains_key(k) <==> done.contains(k as int),
            forall|x: int| done.contains(x) ==> 0 <= x < s.len(),
        decreases s.len() - done.len(),
    {
        if pending.len() == 0 {
            return Ok(bbs);
        }
        let idx = min_index(&pending);
        let ghost before = pending@;
        let start_addr = pending.remove(idx);
        proof {
            lemma_remove_keeps(before, idx as int);
            assert(lift_reachable(s, entries@, start_addr as int));
            assert(boundary_of(bbs@, entries@, start_addr));
        }
        let ghost pend_at_call = pending@;
        match decode_bb(bytecode, start_addr, &pending) {
            Err(e) => {
                proof {
                    let cp = choose|cp: int|
                        reachable_from(s, start_addr as int, cp) && #[trigger] fail_from(s, cp, e);
                    lemma_lift_extend(s, entries@, start_addr as int, cp);
                }
                return Err(e);
            },
            Ok(bb) => {
                let ghost b0 = bbs@;
                let ghost gbb = bb;
                let ghost gnext = bb.next;
                let targets = bb.next.iter();
                proof {
                    assert forall|x: int| 0 <= x < targets@.len() implies #[trigger] is_target(
                        gnext,
                        targets@[x],
                    ) by {
                        match gnext {
                            NextBranch::Terminal => {},
                            NextBranch::Goto(t) => {
                                assert(targets@[0] == t);
                            },
                            NextBranch::Cond { t, f } => {
                                assert(targets@[0] == t && targets@[1] == f);
                            },
                        }
                    };
                    assert forall|t2: usize| is_target(gnext, t2) implies #[trigger] targets@.contains(
                        t2,
                    ) by {
                        match gnext {
                            NextBranch::Terminal => {},
                            NextBranch::Goto(x) => {
                                assert(targets@[0] == x);
                            },
                            NextBranch::Cond { t: x, f: y } => {
                                assert(targets@[0] == x && targets@[1] == y);
                            },
                        }
                    };
                }
                bbs.insert(start_addr, bb);
                proof {
                    done = done.insert(start_addr as int);
                    lemma_int_range(0, s.len() as int);
                    assert(done.subset_of(set_int_range(0, s.len() as int)));
                    lemma_len_subset(done, set_int_range(0, s.len() as int));
                    assert(forall|k: usize|
                        #[trigger] b0.contains_key(k) ==> bbs@.contains_key(k) && bbs@[k] == b0[k]);
                    assert forall|k: usize| #[trigger] bbs@.contains_key(k) implies boundary_of(
                        bbs@,
                        entries@,
                        k,
                    ) by {
                        lemma_boundary_mono(b0, bbs@, entries@, k);
                    };
                    assert forall|x: int| 0 <= x < pending@.len() implies boundary_of(
                        bbs@,
                        entries@,
                        #[trigger] pending@[x],
                    ) by {
                        lemma_boundary_mono(b0, bbs@, entries@, pending@[x]);
                    };
                    assert forall|k: usize|
                        #![trigger bbs@[k]]
                        (bbs@.contains_key(k) && spec_control_flow(
                            bbs@[k].instructions@.last(),
                        ) is FallThrough) implies (bbs@[k].next matches NextBranch::Goto(t)
                        && boundary_of(bbs@, entries@, t)) by {
                        if k == start_addr {
                            assert(bbs@[k] == gbb);
                            if spec_control_flow(gbb.instructions@.last()) is FallThrough {
                                let t = gbb.next->Goto_0;
                                assert(pend_at_call.contains(t));
                                lemma_boundary_mono(b0, bbs@, entries@, t);
                            }
                        } else {
                            assert(b0.contains_key(k) && b0[k] == bbs@[k]);
                            if spec_control_flow(bbs@[k].instructions@.last()) is FallThrough {
                                let t = bbs@[k].next->Goto_0;
                                lemma_boundary_mono(b0, bbs@, entries@, t);
                            }
                        }
                    };
                    assert forall|k: usize, t2: usize|
                        (bbs@.contains_key(k) && #[trigger] is_target(
                            bbs@[k].next,
                            t2,
                        )) implies (bbs@.contains_key(t2) || pending@.contains(t2) || (k
                        == start_addr && exists|x: int|
                        0 <= x < targets@.len() && targets@[x] == t2)) by {
                        if k == start_addr {
                            assert(bbs@[k] == gbb);
                            assert(targets@.contains(t2));
                        } else {
                            assert(b0.contains_key(k) && b0[k] == bbs@[k]);
                            if !b0.contains_key(t2) {
                                assert(before.contains(t2));
                                if t2 != start_addr {
                                    assert(pending@.contains(t2));
                                }
                            }
                        }
                    };
                }
                let mut ti: usize = 0;
                while ti < targets.len()
                    invariant
                        s == bytecode@,
                        ti <= targets@.len(),
                        pending@.no_duplicates(),
                        bbs@.contains_key(start_addr),
                        bbs@[start_addr] == gbb,
                        gbb.next == gnext,
                        forall|y: usize| pend_at_call.contains(y) ==> #[trigger] pending@.contains(y),
                        (spec_control_flow(gbb.instructions@.last()) is FallThrough ==> (gnext
                            matches NextBranch::Goto(t) && pend_at_call.contains(t))),
                        forall|x: int|
                            0 <= x < pending@.len() ==> !bbs@.contains_key(
                                #[trigger] pending@[x],
                            ),
                        bbs@.contains_key(0) || pending@.contains(0),
                        forall|x: int|
                            0 <= x < entries@.len() ==> (bbs@.contains_key(#[trigger] entries@[x])
                                || pending@.contains(entries@[x])),
                        forall|k: usize, t2: usize|
                            (bbs@.contains_key(k) && #[trigger] is_target(bbs@[k].next, t2)) ==> (
                            bbs@.contains_key(t2) || pending@.contains(t2) || (k == start_addr
                                && exists|x: int|
                                ti <= x < targets@.len() && targets@[x] == t2)),
                        forall|x: int|
                            0 <= x < ti ==> (bbs@.contains_key(#[trigger] targets@[x])
                                || pending@.contains(targets@[x])),
                        forall|x: int|
                            0 <= x < pending@.len() ==> lift_reachable(
                                s,
                                entries@,
                                #[trigger] pending@[x] as int,
                            ),
                        forall|x: int|
                            0 <= x < pending@.len() ==> boundary_of(
                                bbs@,
                                entries@,
                                #[trigger] pending@[x],
                            ),
                        lift_reachable(s, entries@, start_addr as int),
                        forall|x: int|
                            0 <= x < targets@.len() ==> #[trigger] is_target(gnext, targets@[x]),
                        forall|t2: usize|
                            #[trigger] is_target(gnext, t2) ==> reachable_from(
                                s,
                                start_addr as int,
                                t2 as int,
                            ),
                    decreases targets@.len() - ti,
                {
                    let tgt = targets[ti];
                    if !bbs.contains_key(&tgt) {
                        if !contains_addr(&pending, tgt) {
                            proof {
                                lemma_push_keeps(pending@, tgt);
                                assert(is_target(gnext, targets@[ti as int]));
                                lemma_lift_extend(s, entries@, start_addr as int, tgt as int);
                                // a synthetic fall-through goto's target would still be
                                // pending, so an unlisted target is a hard one
                                assert(hard_target(gbb, tgt)) by {
                                    match gnext {
                                        NextBranch::Terminal => {},
                                        NextBranch::Goto(x) => {
                                            if spec_control_flow(
                                                gbb.instructions@.last(),
                                            ) is FallThrough {
                                                assert(pend_at_call.contains(x));
                                                assert(pending@.contains(tgt));
                                                assert(false);
                                            }
                                        },
                                        NextBranch::Cond { t, f } => {},
                                    }
                                };
                                assert(boundary_of(bbs@, entries@, tgt));
                            }
                            pending.push(tgt);
                        }
                    }
                    ti += 1;
                }
            },
        }
    }
}

} // verus!
