use tuiba_core::cpu::arm::{ArmKind, decode};

#[test]
fn arm_decodes_representative_encodings() {
    let cases = [
        (0xEA00_0000, ArmKind::Branch),             // b +0
        (0xEB00_0010, ArmKind::Branch),             // bl
        (0xE12F_FF10, ArmKind::BranchExchange),     // bx r0
        (0xE080_1002, ArmKind::DataProcessing),     // add r1, r0, r2
        (0xE3A0_0001, ArmKind::DataProcessing),     // mov r0, #1
        (0xE150_0001, ArmKind::DataProcessing),     // cmp r0, r1
        (0xE10F_0000, ArmKind::PsrTransfer),        // mrs r0, cpsr
        (0xE129_F000, ArmKind::PsrTransfer),        // msr cpsr_fc, r0
        (0xE328_F201, ArmKind::PsrTransfer),        // msr cpsr_f, #0x10000000
        (0xE000_0291, ArmKind::Multiply),           // mul r0, r1, r2
        (0xE081_0392, ArmKind::MultiplyLong),       // umull r0, r1, r2, r3
        (0xE100_0091, ArmKind::SingleDataSwap),     // swp r0, r1, [r0]
        (0xE1D0_00B0, ArmKind::HalfwordTransfer),   // ldrh r0, [r0]
        (0xE1D0_00D0, ArmKind::HalfwordTransfer),   // ldrsb r0, [r0]
        (0xE590_0000, ArmKind::SingleDataTransfer), // ldr r0, [r0]
        (0xE780_1002, ArmKind::SingleDataTransfer), // str r1, [r0, r2]
        (0xE780_1012, ArmKind::Undefined),          // reg offset with bit 4
        (0xE8BD_8000, ArmKind::BlockDataTransfer),  // ldmfd sp!, {pc}
        (0xEF00_0005, ArmKind::SoftwareInterrupt),  // swi 5
        (0xEE00_0000, ArmKind::Coprocessor),        // cdp
        (0xEC00_0000, ArmKind::Coprocessor),        // stc
    ];
    for (op, kind) in cases {
        assert_eq!(decode(op), kind, "opcode {op:#010x}");
    }
}
