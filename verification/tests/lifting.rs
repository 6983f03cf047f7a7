use dalvik::ControlFlow;
use dalvik::Instruction;
use dalvik::blocks::NextBranch;
use dalvik::blocks::basic_blocks;
use dalvik::decode::Error;

#[test]
fn control_flow_classification() {
    assert_eq!(Instruction::ReturnVoid.control_flow(), ControlFlow::Terminate);
    assert_eq!(Instruction::Throw(3).control_flow(), ControlFlow::Terminate);
    assert_eq!(Instruction::Goto(-4).control_flow(), ControlFlow::GoTo(-4));
    assert_eq!(Instruction::Goto16(260).control_flow(), ControlFlow::GoTo(260));
    assert_eq!(Instruction::Goto32(-70000).control_flow(), ControlFlow::GoTo(-70000));
    assert_eq!(Instruction::IfNez(0, 2).control_flow(), ControlFlow::Branch(2));
    assert_eq!(Instruction::IfLe(1, 2, -3).control_flow(), ControlFlow::Branch(-3));
    assert_eq!(Instruction::Move(0, 1).control_flow(), ControlFlow::FallThrough);
    assert_eq!(Instruction::Nop.control_flow(), ControlFlow::FallThrough);
}

#[test]
fn next_branch_iter() {
    assert_eq!(NextBranch::Terminal.iter(), Vec::<usize>::new());
    assert_eq!(NextBranch::Goto(7).iter(), vec![7]);
    assert_eq!(NextBranch::Cond { t: 4, f: 9 }.iter(), vec![4, 9]);
}

#[test]
fn block_termination() {
    // if-nez v0, +2 at address 0, return-void at address 2, nop at address 3:
    // two blocks, the first conditional with its taken target at
    // address_of_if + 2 and its fall-through at the next instruction.
    let code: [u16; 4] = [0x0039, 0x0002, 0x000e, 0x0000];
    let bbs = basic_blocks(&code, &[]).unwrap();
    assert_eq!(bbs.len(), 2);
    let first = &bbs[&0];
    assert_eq!(first.instructions, vec![Instruction::IfNez(0, 2)]);
    assert_eq!(first.next, NextBranch::Cond { t: 2, f: 2 });
    let second = &bbs[&2];
    assert_eq!(second.instructions, vec![Instruction::ReturnVoid]);
    assert_eq!(second.next, NextBranch::Terminal);
}

#[test]
fn entry_point_isolation() {
    // a straight-line run const/4; nop; return-void, with an entry supplied
    // in the middle: the run is cut exactly there and the first block ends
    // with a synthetic goto to the entry address.
    let code: [u16; 3] = [0x0012, 0x0000, 0x000e];
    let bbs = basic_blocks(&code, &[1]).unwrap();
    assert_eq!(bbs.len(), 2);
    let first = &bbs[&0];
    assert_eq!(first.instructions, vec![Instruction::Const4(0, 0)]);
    assert_eq!(first.next, NextBranch::Goto(1));
    let second = &bbs[&1];
    assert_eq!(second.instructions, vec![Instruction::Nop, Instruction::ReturnVoid]);
    assert_eq!(second.next, NextBranch::Terminal);
}

#[test]
fn goto_block_links_to_target() {
    // goto +2 jumps over a nop to a return-void
    let code: [u16; 3] = [0x0228, 0x0000, 0x000e];
    let bbs = basic_blocks(&code, &[]).unwrap();
    assert_eq!(bbs.len(), 2);
    assert_eq!(bbs[&0].instructions, vec![Instruction::Goto(2)]);
    assert_eq!(bbs[&0].next, NextBranch::Goto(2));
    assert_eq!(bbs[&2].instructions, vec![Instruction::ReturnVoid]);
    assert_eq!(bbs[&2].next, NextBranch::Terminal);
}

#[test]
fn backward_branch_discovers_earlier_block() {
    // 0: nop; 1: return-void; 2: goto -1 (to address 1)
    let code: [u16; 3] = [0x0000, 0x000e, 0xff28];
    let bbs = basic_blocks(&code, &[2]).unwrap();
    assert_eq!(bbs.len(), 3);
    assert_eq!(bbs[&2].next, NextBranch::Goto(1));
    assert_eq!(bbs[&1].instructions, vec![Instruction::ReturnVoid]);
    assert!(bbs.contains_key(&0));
}

#[test]
fn metadata_skipped_inside_block() {
    // a fill-array-data instruction whose table sits right after the code:
    // the table is skipped, never decoded into a block.
    // 0: fill-array-data v0, +4; 3: return-void; 4: table of 5 units
    let code: [u16; 9] = [0x0026, 0x0004, 0x0000, 0x000e, 0x0300, 0x0002, 0x0001, 0x0000, 0xaaaa];
    let bbs = basic_blocks(&code, &[]).unwrap();
    let first = &bbs[&0];
    assert_eq!(
        first.instructions,
        vec![Instruction::FillArrayData(0, 4), Instruction::ReturnVoid]
    );
    assert_eq!(first.next, NextBranch::Terminal);
}

#[test]
fn lifting_aborts_on_truncation() {
    // the conditional branch at address 0 is cut short
    let code: [u16; 1] = [0x0039];
    assert!(matches!(basic_blocks(&code, &[]), Err(Error::Truncated)));
}

#[test]
fn lifting_aborts_on_bad_entry() {
    let code: [u16; 1] = [0x000e];
    assert!(matches!(basic_blocks(&code, &[9]), Err(Error::Truncated)));
}

#[test]
fn lifting_aborts_on_negative_target() {
    // goto -5 at address 0 would jump before the method start
    let code: [u16; 1] = [0xfb28];
    assert!(matches!(basic_blocks(&code, &[]), Err(Error::Encoding)));
}

#[test]
fn all_entries_key_blocks() {
    let code: [u16; 4] = [0x0000, 0x0000, 0x0000, 0x000e];
    let bbs = basic_blocks(&code, &[1, 2, 3]).unwrap();
    for k in [0usize, 1, 2, 3] {
        assert!(bbs.contains_key(&k));
    }
    assert_eq!(bbs[&0].next, NextBranch::Goto(1));
    assert_eq!(bbs[&3].next, NextBranch::Terminal);
}
