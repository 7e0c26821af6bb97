//! JVM integrity rules: immutable bytecode is compared by SHA-256 digest
//! with a known baseline; JIT-compiled code, which changes with every
//! optimisation, is checked structurally (inside the code cache, not
//! starting with a jump or call that would betray a hook) and never by hash.
//!
//! Reading bytecodes and compiled code needs JVMTI and raw memory access,
//! which stay outside this library: `verify` says which probe a target
//! needs, and the `finish_*` functions judge what the probe brought back.

use crate::primitives::{sha256, sha256_digest};
use std::collections::HashMap;
use vstd::prelude::*;

verus! {

broadcast use vstd::std_specs::hash::group_hash_axioms;

/// `JVMTI_ERROR_NONE`: the JVMTI call succeeded.
pub const JVMTI_ERROR_NONE: i32 = 0;

/// What to check.
#[derive(Clone, Copy, Debug, PartialEq, Eq, Structural)]
pub enum IntegrityTarget {
    /// The bytecode of a class, by class id.
    Bytecode(u64),
    /// The compiled code of a method, by method id.
    JitCompiled(u64),
    /// The dispatch table of a class, by class id.
    DispatchTable(u64),
}

/// Why an integrity check could not give a verdict.
#[derive(Debug, Clone, Copy, PartialEq, Eq)]
pub enum IntegrityError {
    JvmtiUnavailable,
    JvmtiCallFailed(i32),
    UnknownClassId(u64),
    HashMismatch,
    StructuralCheckFailed(&'static str),
}

/// Outside data that a check needs before it can give its verdict.
#[derive(Clone, Copy, Debug, PartialEq, Eq)]
pub enum IntegrityProbe {
    /// Fetch the bytecodes of `method_id` through JVMTI `GetBytecodes`; their
    /// SHA-256 digest must equal `expected`.
    Bytecodes { method_id: u64, expected: [u8; 32] },
    /// Read the first `len` bytes of compiled code at `entry_point`.
    Prologue { entry_point: usize, len: usize },
}

/// The first step of a check: a verdict, or a probe to run.
#[derive(Clone, Copy, Debug, PartialEq, Eq)]
pub enum VerifyStep {
    Verdict(bool),
    Probe(IntegrityProbe),
}

/// The abstract state of a checker.
pub struct IntegrityModel {
    /// class id -> SHA-256 of its known-good bytecode.
    pub known_bytecode_hashes: Map<u64, [u8; 32]>,
    /// The code cache's `[low, high)` bounds.
    pub code_cache_bounds: (usize, usize),
    /// method id -> (entry point, code size) from compilation events.
    pub jit_metadata: Map<u64, (usize, usize)>,
}

/// The JVM integrity checker's rules and data.
pub struct JvmIntegrityChecker {
    known_bytecode_hashes: HashMap<u64, [u8; 32]>,
    code_cache_bounds: (usize, usize),
    jit_metadata: HashMap<u64, (usize, usize)>,
}

impl View for JvmIntegrityChecker {
    type V = IntegrityModel;

    closed spec fn view(&self) -> IntegrityModel {
        IntegrityModel {
            known_bytecode_hashes: self.known_bytecode_hashes@,
            code_cache_bounds: self.code_cache_bounds,
            jit_metadata: self.jit_metadata@,
        }
    }
}

/// The message for a method with no compilation metadata.
pub open spec fn no_metadata_message() -> Seq<char> {
    "no metadata for method"@
}

/// The message for the dispatch-table check, which needs a bridge to the
/// HotSpot Serviceability Agent that this agent does not have.
pub open spec fn dispatch_table_message() -> Seq<char> {
    "dispatch table check requires HotSpot SA bridge — not implemented"@
}

/// The first byte encodes an unconditional transfer of control, which is
/// what a hook writes over a prologue: `E9` (JMP rel32), `EB` (JMP rel8),
/// `E8` (CALL rel32) or `FF` (indirect JMP or CALL; conservatively all of
/// it).
pub open spec fn starts_with_jump(bytes: Seq<u8>) -> bool {
    bytes.len() > 0 && (bytes[0] == 0xE9 || bytes[0] == 0xFF || bytes[0] == 0xEB || bytes[0]
        == 0xE8)
}

/// The entry point lies in the code cache `[low, high)`.
pub open spec fn in_code_cache(bounds: (usize, usize), entry_point: usize) -> bool {
    bounds.0 <= entry_point && entry_point < bounds.1
}

/// What `verify` decides for a target, before any probe.
pub open spec fn verify_plan(m: IntegrityModel, target: IntegrityTarget) -> Result<
    VerifyStep,
    IntegrityError,
> {
    match target {
        IntegrityTarget::Bytecode(class_id) => if m.known_bytecode_hashes.contains_key(class_id) {
            Ok(
                VerifyStep::Probe(
                    IntegrityProbe::Bytecodes {
                        method_id: class_id,
                        expected: m.known_bytecode_hashes[class_id],
                    },
                ),
            )
        } else {
            Err(IntegrityError::UnknownClassId(class_id))
        },
        IntegrityTarget::JitCompiled(method_id) => if m.jit_metadata.contains_key(method_id) {
            let (entry_point, size) = m.jit_metadata[method_id];
            if in_code_cache(m.code_cache_bounds, entry_point) {
                Ok(
                    VerifyStep::Probe(
                        IntegrityProbe::Prologue {
                            entry_point,
                            len: if size < 4 {
                                size
                            } else {
                                4
                            },
                        },
                    ),
                )
            } else {
                Ok(VerifyStep::Verdict(false))
            }
        } else {
            Err(IntegrityError::StructuralCheckFailed("no metadata for method"))
        },
        IntegrityTarget::DispatchTable(_) => Err(
            IntegrityError::StructuralCheckFailed(
                "dispatch table check requires HotSpot SA bridge — not implemented",
            ),
        ),
    }
}

/// Decides whether the JVMTI environment was obtained: `GetEnv` must exist
/// in the invocation interface, return `JVMTI_ERROR_NONE` and hand back a
/// non-null environment.
pub fn check_jvmti_env(get_env_present: bool, get_env_result: i32, env_present: bool) -> (r: Result<(), IntegrityError>)
    ensures
        r is Ok <==> (get_env_present && get_env_result == JVMTI_ERROR_NONE && env_present),
        r matches Err(e) ==> e == IntegrityError::JvmtiUnavailable,
{
    if !get_env_present {
        return Err(IntegrityError::JvmtiUnavailable);
    }
    if get_env_result != JVMTI_ERROR_NONE || !env_present {
        return Err(IntegrityError::JvmtiUnavailable);
    }
    Ok(())
}

/// The first byte is an unconditional jump or call, as a hook overwriting a
/// prologue would leave it.
pub fn is_unconditional_jump(bytes: &[u8]) -> (r: bool)
    ensures
        r == starts_with_jump(bytes@),
{
    match bytes.first() {
        Some(b) => *b == 0xE9 || *b == 0xFF || *b == 0xEB || *b == 0xE8,
        None => false,
    }
}

/// Judges fetched bytecodes: a failed fetch (an error code or no buffer)
/// is `JvmtiCallFailed` with the error code; otherwise the verdict is
/// whether their SHA-256 digest equals the expected one.
pub fn finish_bytecode_check(expected: &[u8; 32], jvmti_error: i32, bytecodes: Option<&[u8]>) -> (r: Result<bool, IntegrityError>)
    ensures
        (jvmti_error != JVMTI_ERROR_NONE || bytecodes is None) ==> r == Err::<bool, IntegrityError>(
            IntegrityError::JvmtiCallFailed(jvmti_error),
        ),
        (jvmti_error == JVMTI_ERROR_NONE && bytecodes is Some) ==> r == Ok::<bool, IntegrityError>(
            sha256(bytecodes->0@) == expected@,
        ),
{
    if jvmti_error != JVMTI_ERROR_NONE {
        return Err(IntegrityError::JvmtiCallFailed(jvmti_error));
    }
    match bytecodes {
        None => Err(IntegrityError::JvmtiCallFailed(jvmti_error)),
        Some(b) => {
            let actual = sha256_digest(b);
            let mut i: usize = 0;
            while i < 32
                invariant
                    i <= 32,
                    jvmti_error == JVMTI_ERROR_NONE,
                    bytecodes == Some(b),
                    actual@ == sha256(b@),
                    forall|j: int| 0 <= j < i ==> actual@[j] == expected@[j],
                decreases 32 - i,
            {
                if actual[i] != expected[i] {
                    return Ok(false);
                }
                i = i + 1;
            }
            assert(actual@ =~= expected@);
            Ok(true)
        },
    }
}

/// Judges the prologue read from compiled code: it passes unless it starts
/// with an unconditional jump or call.
pub fn finish_jit_check(prologue: &[u8]) -> (r: bool)
    ensures
        r == !starts_with_jump(prologue@),
{
    !is_unconditional_jump(prologue)
}

impl JvmIntegrityChecker {
    /// A checker with the known bytecode digests and the code cache bounds,
    /// and no compilation metadata yet.
    pub fn new(known_bytecode_hashes: HashMap<u64, [u8; 32]>, code_cache_bounds: (usize, usize)) -> (r: Self)
        ensures
            r@.known_bytecode_hashes == known_bytecode_hashes@,
            r@.code_cache_bounds == code_cache_bounds,
            r@.jit_metadata == Map::<u64, (usize, usize)>::empty(),
    {
        JvmIntegrityChecker { known_bytecode_hashes, code_cache_bounds, jit_metadata: HashMap::new() }
    }

    /// Records a compilation event: the method's entry point and code size
    /// replace whatever was recorded for it before.
    pub fn record_jit_compilation(&mut self, method_id: u64, entry_point: usize, code_size: usize)
        ensures
            final(self)@.jit_metadata == old(self)@.jit_metadata.insert(method_id, (entry_point, code_size)),
            final(self)@.known_bytecode_hashes == old(self)@.known_bytecode_hashes,
            final(self)@.code_cache_bounds == old(self)@.code_cache_bounds,
    {
        self.jit_metadata.insert(method_id, (entry_point, code_size));
    }

    /// The first step of checking `target`: an unknown class or method and
    /// the dispatch table give an error, compiled code outside the code
    /// cache is judged suspicious at once, and otherwise the probe to run
    /// is returned.
    pub fn verify(&self, target: IntegrityTarget) -> (r: Result<VerifyStep, IntegrityError>)
        ensures
            r == verify_plan(self@, target),
    {
        match target {
            IntegrityTarget::Bytecode(class_id) => self.verify_bytecode(class_id),
            IntegrityTarget::JitCompiled(method_id) => self.verify_jit_compiled(method_id),
            IntegrityTarget::DispatchTable(class_id) => self.verify_dispatch_table(class_id),
        }
    }

    fn verify_bytecode(&self, class_id: u64) -> (r: Result<VerifyStep, IntegrityError>)
        ensures
            r == verify_plan(self@, IntegrityTarget::Bytecode(class_id)),
    {
        match self.known_bytecode_hashes.get(&class_id) {
            None => Err(IntegrityError::UnknownClassId(class_id)),
            Some(expected) => Ok(
                VerifyStep::Probe(IntegrityProbe::Bytecodes { method_id: class_id, expected: *expected }),
            ),
        }
    }

    fn verify_jit_compiled(&self, method_id: u64) -> (r: Result<VerifyStep, IntegrityError>)
        ensures
            r == verify_plan(self@, IntegrityTarget::JitCompiled(method_id)),
    {
        let (entry_point, expected_size) = match self.jit_metadata.get(&method_id) {
            None => return Err(IntegrityError::StructuralCheckFailed("no metadata for method")),
            Some(meta) => *meta,
        };
        let (lo, hi) = self.code_cache_bounds;
        if entry_point < lo || entry_point >= hi {
            return Ok(VerifyStep::Verdict(false));
        }
        let len = if expected_size < 4 {
            expected_size
        } else {
            4
        };
        Ok(VerifyStep::Probe(IntegrityProbe::Prologue { entry_point, len }))
    }

    fn verify_dispatch_table(&self, _class_id: u64) -> (r: Result<VerifyStep, IntegrityError>)
        ensures
            r == verify_plan(self@, IntegrityTarget::DispatchTable(_class_id)),
    {
        Err(
            IntegrityError::StructuralCheckFailed(
                "dispatch table check requires HotSpot SA bridge — not implemented",
            ),
        )
    }
}

/// Once compilation metadata is recorded for a method, the check of its
/// compiled code goes by that metadata: outside the code cache it is
/// suspicious at once, inside it the first `min(4, size)` bytes at the
/// recorded entry point are examined. No digest is involved.
pub proof fn lemma_recorded_metadata_governs_jit_check(
    m: IntegrityModel,
    method_id: u64,
    entry_point: usize,
    code_size: usize,
)
    ensures
        ({
            let m2 = IntegrityModel {
                jit_metadata: m.jit_metadata.insert(method_id, (entry_point, code_size)),
                ..m
            };
            let len = if code_size < 4 {
                code_size
            } else {
                4
            };
            &&& !in_code_cache(m.code_cache_bounds, entry_point) ==> verify_plan(
                m2,
                IntegrityTarget::JitCompiled(method_id),
            ) == Ok::<VerifyStep, IntegrityError>(VerifyStep::Verdict(false))
            &&& in_code_cache(m.code_cache_bounds, entry_point) ==> verify_plan(
                m2,
                IntegrityTarget::JitCompiled(method_id),
            ) == Ok::<VerifyStep, IntegrityError>(
                VerifyStep::Probe(IntegrityProbe::Prologue { entry_point, len }),
            )
        }),
{
}

/// Recording compilation metadata does not change how bytecode or dispatch
/// tables are checked.
pub proof fn lemma_recording_keeps_other_checks(
    m: IntegrityModel,
    method_id: u64,
    entry_point: usize,
    code_size: usize,
    class_id: u64,
)
    ensures
        ({
            let m2 = IntegrityModel {
                jit_metadata: m.jit_metadata.insert(method_id, (entry_point, code_size)),
                ..m
            };
            &&& verify_plan(m2, IntegrityTarget::Bytecode(class_id)) == verify_plan(
                m,
                IntegrityTarget::Bytecode(class_id),
            )
            &&& verify_plan(m2, IntegrityTarget::DispatchTable(class_id)) == verify_plan(
                m,
                IntegrityTarget::DispatchTable(class_id),
            )
        }),
{
}


/// The hook test looks at the first byte only and flags exactly the
/// unconditional transfers of control a hook writes: a prologue is judged
/// hooked when it starts with 0xE9, 0xEB, 0xE8 or 0xFF, and every other
/// prologue, including an empty one, passes.
pub proof fn lemma_hook_test_flags_exactly_jumps_and_calls(prologue: Seq<u8>, other: Seq<u8>)
    ensures
        prologue.len() > 0 && (prologue[0] == 0xE9u8 || prologue[0] == 0xEBu8 || prologue[0]
            == 0xE8u8 || prologue[0] == 0xFFu8) ==> starts_with_jump(prologue),
        prologue.len() == 0 || (prologue[0] != 0xE9u8 && prologue[0] != 0xEBu8 && prologue[0]
            != 0xE8u8 && prologue[0] != 0xFFu8) ==> !starts_with_jump(prologue),
        prologue.len() > 0 && other.len() > 0 && prologue[0] == other[0] ==> starts_with_jump(
            prologue,
        ) == starts_with_jump(other),
{
}

/// A bytecode check fetches the bytecodes of exactly the requested id and
/// compares them with exactly that id's baseline digest; an id without a
/// baseline is refused with that same id. Ids are taken whole, for every
/// 64-bit value.
pub proof fn lemma_bytecode_probe_names_requested_class(m: IntegrityModel, class_id: u64)
    ensures
        m.known_bytecode_hashes.contains_key(class_id) ==> verify_plan(
            m,
            IntegrityTarget::Bytecode(class_id),
        ) == Ok::<VerifyStep, IntegrityError>(
            VerifyStep::Probe(
                IntegrityProbe::Bytecodes {
                    method_id: class_id,
                    expected: m.known_bytecode_hashes[class_id],
                },
            ),
        ),
        !m.known_bytecode_hashes.contains_key(class_id) ==> verify_plan(
            m,
            IntegrityTarget::Bytecode(class_id),
        ) == Err::<VerifyStep, IntegrityError>(IntegrityError::UnknownClassId(class_id)),
        verify_plan(m, IntegrityTarget::Bytecode(class_id)) matches Ok(
            VerifyStep::Probe(IntegrityProbe::Bytecodes { method_id, .. }),
        ) ==> method_id == class_id,
{
}

} // verus!
