use drriga_agent::jvm_integrity::{
    check_jvmti_env, finish_bytecode_check, finish_jit_check, is_unconditional_jump,
    IntegrityError, IntegrityProbe, IntegrityTarget, JvmIntegrityChecker, VerifyStep,
};
use std::collections::HashMap;

const ABC_SHA256: [u8; 32] = [
    186, 120, 22, 191, 143, 1, 207, 234, 65, 65, 64, 222, 93, 174, 34, 35, 176, 3, 97, 163, 150,
    23, 122, 156, 180, 16, 255, 97, 242, 0, 21, 173,
];

fn checker() -> JvmIntegrityChecker {
    let mut hashes = HashMap::new();
    hashes.insert(7u64, ABC_SHA256);
    JvmIntegrityChecker::new(hashes, (0x1000, 0x2000))
}

#[test]
fn bytecode_of_known_class_needs_its_bytecodes() {
    assert_eq!(
        checker().verify(IntegrityTarget::Bytecode(7)),
        Ok(VerifyStep::Probe(IntegrityProbe::Bytecodes { method_id: 7, expected: ABC_SHA256 }))
    );
}

#[test]
fn unknown_class_is_an_error() {
    assert_eq!(
        checker().verify(IntegrityTarget::Bytecode(8)),
        Err(IntegrityError::UnknownClassId(8))
    );
}

#[test]
fn matching_digest_passes() {
    assert_eq!(finish_bytecode_check(&ABC_SHA256, 0, Some(b"abc")), Ok(true));
}

#[test]
fn changed_bytecode_fails() {
    assert_eq!(finish_bytecode_check(&ABC_SHA256, 0, Some(b"abd")), Ok(false));
    assert_eq!(finish_bytecode_check(&ABC_SHA256, 0, Some(b"")), Ok(false));
}

#[test]
fn failed_fetch_is_jvmti_error() {
    assert_eq!(
        finish_bytecode_check(&ABC_SHA256, 112, Some(b"abc")),
        Err(IntegrityError::JvmtiCallFailed(112))
    );
    assert_eq!(
        finish_bytecode_check(&ABC_SHA256, 0, None),
        Err(IntegrityError::JvmtiCallFailed(0))
    );
}

#[test]
fn jit_method_without_metadata_is_structural_error() {
    assert_eq!(
        checker().verify(IntegrityTarget::JitCompiled(1)),
        Err(IntegrityError::StructuralCheckFailed("no metadata for method"))
    );
}

#[test]
fn jit_entry_outside_code_cache_is_suspicious() {
    let mut c = checker();
    c.record_jit_compilation(1, 0x2000, 64);
    assert_eq!(c.verify(IntegrityTarget::JitCompiled(1)), Ok(VerifyStep::Verdict(false)));
    c.record_jit_compilation(2, 0x0fff, 64);
    assert_eq!(c.verify(IntegrityTarget::JitCompiled(2)), Ok(VerifyStep::Verdict(false)));
}

#[test]
fn jit_entry_inside_code_cache_reads_prologue() {
    let mut c = checker();
    c.record_jit_compilation(1, 0x1000, 64);
    assert_eq!(
        c.verify(IntegrityTarget::JitCompiled(1)),
        Ok(VerifyStep::Probe(IntegrityProbe::Prologue { entry_point: 0x1000, len: 4 }))
    );
    c.record_jit_compilation(1, 0x1ff0, 2);
    assert_eq!(
        c.verify(IntegrityTarget::JitCompiled(1)),
        Ok(VerifyStep::Probe(IntegrityProbe::Prologue { entry_point: 0x1ff0, len: 2 }))
    );
}

#[test]
fn dispatch_table_check_is_not_available() {
    assert!(matches!(
        checker().verify(IntegrityTarget::DispatchTable(7)),
        Err(IntegrityError::StructuralCheckFailed(_))
    ));
}

#[test]
fn jumps_betray_hooks() {
    assert!(is_unconditional_jump(&[0xE9, 0, 0, 0]));
    assert!(is_unconditional_jump(&[0xFF, 0x25]));
    assert!(is_unconditional_jump(&[0xEB]));
    assert!(is_unconditional_jump(&[0xE8, 0x10, 0, 0]));
    assert!(!finish_jit_check(&[0xE8, 0x10, 0, 0]));
    assert!(!is_unconditional_jump(&[0x55, 0x48, 0x89, 0xE5]));
    assert!(!is_unconditional_jump(&[]));
    assert!(!finish_jit_check(&[0xE9, 1, 2, 3]));
    assert!(finish_jit_check(&[0x55, 0x48, 0x89, 0xE5]));
}

#[test]
fn jvmti_env_must_be_obtained() {
    assert_eq!(check_jvmti_env(true, 0, true), Ok(()));
    assert_eq!(check_jvmti_env(false, 0, true), Err(IntegrityError::JvmtiUnavailable));
    assert_eq!(check_jvmti_env(true, -2, true), Err(IntegrityError::JvmtiUnavailable));
    assert_eq!(check_jvmti_env(true, 0, false), Err(IntegrityError::JvmtiUnavailable));
}

#[test]
fn recording_compilations_keeps_other_checks() {
    let mut c = checker();
    let before = c.verify(IntegrityTarget::Bytecode(7));
    c.record_jit_compilation(7, 0x1800, 16);
    assert_eq!(c.verify(IntegrityTarget::Bytecode(7)), before);
    assert!(c.verify(IntegrityTarget::DispatchTable(7)).is_err());
}
