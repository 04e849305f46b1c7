//! The exit-reason taxonomy: round-tripping of defined codes, the
//! explicit invalid variant for unknown codes, and the diagnostic
//! descriptions staying in lock-step with the defined set.

use rvm_svm::definitions::{SvmExitInfo, SvmExitReason, SvmInstructionError};
use rvm_svm::RvmError;

const DEFINED_CODES: [i32; 34] = [
    0x52, 0x60, 0x61, 0x62, 0x63, 0x64, 0x77, 0x78, 0x7f, 0x8f, 0x90, 0x91, 0x92, 0x93, 0x94,
    0x95, 0x96, 0x97, 0x98, 0x99, 0x9a, 0x9b, 0x9c, 0x9d, 0x9e, 0x9f, 0xa5, 0xa6, 0x400, 0x403,
    -1, -2, -3, -4,
];

#[test]
fn defined_codes_round_trip() {
    for &code in DEFINED_CODES.iter() {
        let reason = SvmExitReason::from_code(code);
        assert_eq!(reason.code(), code, "code {:#x} did not round-trip", code);
    }
}

#[test]
fn every_reason_decodes_from_its_code() {
    let reasons = [
        SvmExitReason::VMEXIT_MC,
        SvmExitReason::VMEXIT_INTR,
        SvmExitReason::VMEXIT_NMI,
        SvmExitReason::VMEXIT_SMI,
        SvmExitReason::VMEXIT_INIT,
        SvmExitReason::VMEXIT_VINTR,
        SvmExitReason::VMEXIT_PAUSE,
        SvmExitReason::VMEXIT_HLT,
        SvmExitReason::VMEXIT_SHUTDOWN,
        SvmExitReason::VMEXIT_EFER_WRITE_TRAP,
        SvmExitReason::VMEXIT_CR0_WRITE_TRAP,
        SvmExitReason::VMEXIT_CR1_WRITE_TRAP,
        SvmExitReason::VMEXIT_CR2_WRITE_TRAP,
        SvmExitReason::VMEXIT_CR3_WRITE_TRAP,
        SvmExitReason::VMEXIT_CR4_WRITE_TRAP,
        SvmExitReason::VMEXIT_CR5_WRITE_TRAP,
        SvmExitReason::VMEXIT_CR6_WRITE_TRAP,
        SvmExitReason::VMEXIT_CR7_WRITE_TRAP,
        SvmExitReason::VMEXIT_CR8_WRITE_TRAP,
        SvmExitReason::VMEXIT_CR9_WRITE_TRAP,
        SvmExitReason::VMEXIT_CR10_WRITE_TRAP,
        SvmExitReason::VMEXIT_CR11_WRITE_TRAP,
        SvmExitReason::VMEXIT_CR12_WRITE_TRAP,
        SvmExitReason::VMEXIT_CR13_WRITE_TRAP,
        SvmExitReason::VMEXIT_CR14_WRITE_TRAP,
        SvmExitReason::VMEXIT_CR15_WRITE_TRAP,
        SvmExitReason::VMEXIT_BUSLOCK,
        SvmExitReason::VMEXIT_IDLE_HLT,
        SvmExitReason::VMEXIT_NPF,
        SvmExitReason::VMEXIT_VMGEXIT,
        SvmExitReason::VMEXIT_INVALID,
        SvmExitReason::VMEXIT_BUSY,
        SvmExitReason::VMEXIT_IDLE_REQUIRED,
        SvmExitReason::VMEXIT_INVALID_PMC,
    ];
    for &reason in reasons.iter() {
        assert_eq!(SvmExitReason::from_code(reason.code()), reason);
    }
}

#[test]
fn specific_code_values() {
    assert_eq!(SvmExitReason::VMEXIT_MC.code(), 0x52);
    assert_eq!(SvmExitReason::VMEXIT_HLT.code(), 0x78);
    assert_eq!(SvmExitReason::VMEXIT_CR0_WRITE_TRAP.code(), 0x90);
    assert_eq!(SvmExitReason::VMEXIT_CR15_WRITE_TRAP.code(), 0x9f);
    assert_eq!(SvmExitReason::VMEXIT_NPF.code(), 0x400);
    assert_eq!(SvmExitReason::VMEXIT_VMGEXIT.code(), 0x403);
    assert_eq!(SvmExitReason::VMEXIT_INVALID.code(), -1);
    assert_eq!(SvmExitReason::VMEXIT_INVALID_PMC.code(), -4);
}

#[test]
fn undefined_codes_decode_to_invalid() {
    for &code in [
        0x00,
        0x01,
        0x51,
        0x53,
        0x65,
        0x76,
        0x79,
        0x8e,
        0xa0,
        0xa4,
        0xa7,
        0x3ff,
        0x401,
        0x404,
        -5,
        -100,
        i32::MIN,
        i32::MAX,
    ]
    .iter()
    {
        assert_eq!(
            SvmExitReason::from_code(code),
            SvmExitReason::VMEXIT_INVALID,
            "code {:#x} should decode to the invalid variant",
            code
        );
    }
}

#[test]
fn descriptions_match_documented_text() {
    assert_eq!(SvmInstructionError(0x52).as_str(), "Machine check exception");
    assert_eq!(SvmInstructionError(0x60).as_str(), "Physical INTR");
    assert_eq!(SvmInstructionError(0x77).as_str(), "PAUSE instruction");
    assert_eq!(SvmInstructionError(0x78).as_str(), "HLT instruction");
    assert_eq!(SvmInstructionError(0x7f).as_str(), "Shutdown");
    assert_eq!(SvmInstructionError(0x8f).as_str(), "EFER write trap");
    assert_eq!(SvmInstructionError(0x90).as_str(), "CR0 write trap");
    assert_eq!(SvmInstructionError(0x9a).as_str(), "CR10 write trap");
    assert_eq!(SvmInstructionError(0x9f).as_str(), "CR15 write trap");
    assert_eq!(SvmInstructionError(0xa5).as_str(), "Bus Lock Threshold");
    assert_eq!(SvmInstructionError(0xa6).as_str(), "HLT instruction of idle");
    assert_eq!(SvmInstructionError(0x400).as_str(), "Only if PFCODE[3] is 0");
    assert_eq!(SvmInstructionError(0x403).as_str(), "VMGEXIT instruction");
    assert_eq!(SvmInstructionError(-1).as_str(), "Invalid guest state");
    assert_eq!(SvmInstructionError(-2).as_str(), "Busy bit was set in VMSA");
    assert_eq!(
        SvmInstructionError(-3).as_str(),
        "The sibling thread is not idle"
    );
    assert_eq!(SvmInstructionError(-4).as_str(), "Invalid PMC state");
}

#[test]
fn descriptions_stay_in_lockstep_with_taxonomy() {
    for &code in DEFINED_CODES.iter() {
        assert_ne!(
            SvmInstructionError(code).as_str(),
            "[INVALID]",
            "defined code {:#x} must have a real description",
            code
        );
    }
    assert_eq!(SvmInstructionError(0x00).as_str(), "[INVALID]");
    assert_eq!(SvmInstructionError(0x1234).as_str(), "[INVALID]");
    assert_eq!(SvmInstructionError(-7).as_str(), "[INVALID]");
}

#[test]
fn exit_info_decodes_raw_fields() {
    let info = SvmExitInfo::from_exit(0x78, 1, 0x1000);
    assert!(!info.entry_failure);
    assert_eq!(info.exit_reason, SvmExitReason::VMEXIT_HLT);
    assert_eq!(info.exit_instruction_length, 1);
    assert_eq!(info.guest_rip, 0x1000);
    assert!(info.check_entry().is_ok());

    let failed = SvmExitInfo::from_exit(-1, 0, 0);
    assert!(failed.entry_failure);
    assert_eq!(failed.exit_reason, SvmExitReason::VMEXIT_INVALID);
    assert_eq!(failed.check_entry(), Err(RvmError::BadState));

    let wide = SvmExitInfo::from_exit(0x1_0000_0078, 0, 0);
    assert!(!wide.entry_failure);
    assert_eq!(
        wide.exit_reason,
        SvmExitReason::VMEXIT_INVALID,
        "a code wider than the taxonomy's range is undecodable"
    );
    assert_eq!(
        SvmExitInfo::from_exit(i64::MIN, 0, 0).exit_reason,
        SvmExitReason::VMEXIT_INVALID
    );
}
