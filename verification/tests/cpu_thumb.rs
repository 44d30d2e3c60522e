use tuiba_core::cpu::thumb::{ThumbKind, decode};

#[test]
fn mod_decodes_representative_encodings() {
    let cases = [
        (0x0000, ThumbKind::MoveShifted),     // lsl r0, r0, #0
        (0x1840, ThumbKind::AddSub),          // add r0, r0, r1
        (0x2001, ThumbKind::MovCmpAddSubImm), // mov r0, #1
        (0x4008, ThumbKind::AluOps),          // and r0, r1
        (0x4700, ThumbKind::HiRegBx),         // bx r0
        (0x4478, ThumbKind::HiRegBx),         // add r0, pc
        (0x4800, ThumbKind::LdrPcRel),        // ldr r0, [pc, #0]
        (0x5040, ThumbKind::LdrStrReg),       // str r0, [r0, r1]
        (0x5240, ThumbKind::LdrStrSignExt),   // strh r0, [r0, r1]
        (0x6800, ThumbKind::LdrStrImm),       // ldr r0, [r0]
        (0x8800, ThumbKind::LdrStrHalf),      // ldrh r0, [r0]
        (0x9000, ThumbKind::LdrStrSpRel),     // str r0, [sp]
        (0xA000, ThumbKind::LoadAddress),     // add r0, pc, #0
        (0xB080, ThumbKind::AddSp),           // sub sp, #0
        (0xB500, ThumbKind::PushPop),         // push {lr}
        (0xBD00, ThumbKind::PushPop),         // pop {pc}
        (0xB100, ThumbKind::Undefined),
        (0xC001, ThumbKind::LdmStm),     // stmia r0!, {r0}
        (0xD0FE, ThumbKind::CondBranch), // beq -2
        (0xDE00, ThumbKind::Undefined),
        (0xDF05, ThumbKind::Swi),    // swi 5
        (0xE7FE, ThumbKind::Branch), // b .
        (0xE800, ThumbKind::Undefined),
        (0xF000, ThumbKind::LongBranchLink),
        (0xF800, ThumbKind::LongBranchLink),
    ];
    for (op, kind) in cases {
        assert_eq!(decode(op), kind, "opcode {op:#06x}");
    }
}
