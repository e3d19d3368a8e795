//! The two verified pipelines: validate (load, build the registry, summarize)
//! and compile (load, derive registry info and ap-change metadata, gate the
//! gas check, lower to CASM, render the text and the summary).
//!
//! Each stage fails fast.  The contracts say exactly when each pipeline
//! succeeds, which error kind and context chain each failing stage produces,
//! and pin the reported counts and the summary strings to the input text over
//! the named backend outcomes (`envelope_decodes`, `registry_builds`, ...).

use vstd::prelude::*;
use crate::backend::BackendFailureClass;
use crate::backend::LoadedProgram;
use crate::backend::artifact_counts;
use crate::backend::build_registry;
use crate::backend::calc_ap_change_metadata;
use crate::backend::casm_text;
use crate::backend::compile_casm;
use crate::backend::compile_failure_class;
use crate::backend::compiles;
use crate::backend::const_segment_count_of;
use crate::backend::counts_of;
use crate::backend::declared_version_of;
use crate::backend::decode_envelope;
use crate::backend::describe_compile_error;
use crate::backend::describe_json_error;
use crate::backend::describe_metadata_error;
use crate::backend::describe_registry_error;
use crate::backend::envelope_decodes;
use crate::backend::gas_costs_covered;
use crate::backend::gas_costs_cover_functions;
use crate::backend::instr_count_of;
use crate::backend::metadata_derives;
use crate::backend::probe_declared_version;
use crate::backend::program_counts;
use crate::backend::registry_builds;
use crate::backend::registry_info_builds;
use crate::backend::registry_info_new;
use crate::error::ErrorKind;
use crate::error::ErrorModel;
use crate::error::ToolError;
use crate::report::ProgramCounts;
use crate::report::compile_summary;
use crate::report::spec_compile_summary;
use crate::report::spec_validate_summary;
use crate::report::validate_summary;

verus! {

/// The one serialization format version this pipeline accepts.
pub const SUPPORTED_VERSION: u64 = 1;

/// Context written when the input is not a well-formed program envelope.
pub open spec fn ctx_parse_failed() -> Seq<char> {
    "failed parsing VersionedProgram JSON"@
}

/// Context written when the envelope declares an unsupported version.
pub open spec fn ctx_unsupported_version() -> Seq<char> {
    "unsupported Sierra program version for pinned toolchain"@
}

/// Context written when registry construction rejects the program.
pub open spec fn ctx_registry() -> Seq<char> {
    "ProgramRegistry validation failed"@
}

/// Context written when registry info derivation rejects the program.
pub open spec fn ctx_registry_info() -> Seq<char> {
    "failed creating ProgramRegistryInfo"@
}

/// Context written when ap-change metadata cannot be derived.
pub open spec fn ctx_metadata() -> Seq<char> {
    "failed computing metadata (ap-change only)"@
}

/// Context written when the gas-usage check was requested but the ap-change
/// -only metadata holds no gas bounds for the program's functions.
pub open spec fn ctx_gas_unprovable() -> Seq<char> {
    "gas usage check failed: no statically known gas bounds cover the program's functions"@
}

/// Context written when the backend fails to lower the program.
pub open spec fn ctx_compile() -> Seq<char> {
    "Sierra->CASM compilation failed"@
}

/// Whether a probed envelope version declares something other than the
/// supported version.  A missing or malformed version field is not an
/// unsupported version: it is a format failure.
pub open spec fn spec_version_unsupported(v: Option<u64>) -> bool {
    match v {
        Some(x) => x != SUPPORTED_VERSION,
        None => false,
    }
}

/// The error the load stage produces on the given text: an unsupported-version
/// rejection when the text declares a version other than the supported one,
/// otherwise a format failure carrying the parser's description as its cause.
pub open spec fn load_error_shape(e: ErrorModel, text: Seq<char>) -> bool {
    if spec_version_unsupported(declared_version_of(text)) {
        e.kind == ErrorKind::UnsupportedVersion && e.contexts == seq![ctx_unsupported_version()]
    } else {
        e.kind == ErrorKind::Format && e.contexts.len() == 2 && e.contexts[0] == ctx_parse_failed()
    }
}

/// The error the validation stage produces: a registry construction failure
/// carrying its human-readable cause.
pub open spec fn is_registry_error(e: ErrorModel) -> bool {
    e.kind == ErrorKind::Registry && e.contexts.len() == 2 && e.contexts[0] == ctx_registry()
}

/// The error kind under which a backend lowering failure of the given class is
/// reported.  A gas-class failure is a `GasCheck` error only when the check
/// was requested; without the flag the backend was run with gas tracking
/// disabled, so such a failure is reported as a plain lowering failure.
pub open spec fn kind_of_class(class: BackendFailureClass, gas_check: bool) -> ErrorKind {
    match class {
        BackendFailureClass::Registry => ErrorKind::Registry,
        BackendFailureClass::SizeLimit => ErrorKind::InstructionLimit,
        BackendFailureClass::Gas => if gas_check {
            ErrorKind::GasCheck
        } else {
            ErrorKind::Codegen
        },
        BackendFailureClass::Other => ErrorKind::Codegen,
    }
}

/// The error the compile pipeline produces on the given text and flag: the
/// first failing stage decides, and each stage's kind and context are pinned.
/// Only the last arm (a backend lowering failure) leaves the kind a choice
/// among the classifier's outcomes, the gas kind possible only under the flag.
pub open spec fn compile_error_shape(e: ErrorModel, text: Seq<char>, gas_check: bool) -> bool {
    if !envelope_decodes(text) {
        load_error_shape(e, text)
    } else if !registry_info_builds(text) {
        e.kind == ErrorKind::Registry && e.contexts.len() == 2 && e.contexts[0]
            == ctx_registry_info()
    } else if !metadata_derives(text) {
        e.kind == ErrorKind::Metadata && e.contexts.len() == 2 && e.contexts[0] == ctx_metadata()
    } else if gas_check && !gas_costs_covered(text) {
        e.kind == ErrorKind::GasCheck && e.contexts == seq![ctx_gas_unprovable()]
    } else {
        e.contexts.len() == 2 && e.contexts[0] == ctx_compile() && (e.kind == ErrorKind::Registry
            || e.kind == ErrorKind::InstructionLimit || e.kind == ErrorKind::Codegen || (gas_check
            && e.kind == ErrorKind::GasCheck))
    }
}

fn backend_error_kind(class: BackendFailureClass, gas_check: bool) -> (k: ErrorKind)
    ensures
        k == kind_of_class(class, gas_check),
{
    match class {
        BackendFailureClass::Registry => ErrorKind::Registry,
        BackendFailureClass::SizeLimit => ErrorKind::InstructionLimit,
        BackendFailureClass::Gas => if gas_check {
            ErrorKind::GasCheck
        } else {
            ErrorKind::Codegen
        },
        BackendFailureClass::Other => ErrorKind::Codegen,
    }
}

/// Decodes the version envelope and hands back the program it carries.
///
/// Succeeds exactly when the text decodes as a supported-version envelope.  On
/// failure the error says which gate refused the input: `UnsupportedVersion`
/// when the text is well-formed JSON declaring a version other than the
/// supported one, `Format` (with the parser's description as its cause)
/// otherwise.
pub fn load_program(text: &str) -> (r: Result<LoadedProgram, ToolError>)
    ensures
        (r is Ok) == envelope_decodes(text@),
        r matches Ok(lp) ==> lp.text() == text@,
        r matches Err(e) ==> load_error_shape(e@, text@),
{
    match decode_envelope(text) {
        Ok(lp) => Ok(lp),
        Err(parse_err) => {
            let declared_version = probe_declared_version(text);
            let unsupported: bool = match declared_version {
                Some(v) => v != SUPPORTED_VERSION,
                None => false,
            };
            if unsupported {
                Err(
                    ToolError::new(
                        ErrorKind::UnsupportedVersion,
                        "unsupported Sierra program version for pinned toolchain".to_owned(),
                    ),
                )
            } else {
                Err(
                    ToolError::new(
                        ErrorKind::Format,
                        "failed parsing VersionedProgram JSON".to_owned(),
                    ).with_cause(describe_json_error(&parse_err)),
                )
            }
        },
    }
}

/// What a successful validation reports: the program's counts and their JSON
/// summary.
#[derive(Debug)]
pub struct ValidationReport {
    pub counts: ProgramCounts,
    pub summary: String,
}

/// Validates the program text: loads it and builds the backend registry, whose
/// construction is the validation act.
///
/// Succeeds exactly when the text decodes and the registry builds; the
/// reported counts are then the decoded program's own, and the summary is
/// exactly their JSON rendering.
pub fn run_validate(text: &str) -> (r: Result<ValidationReport, ToolError>)
    ensures
        (r is Ok) == (envelope_decodes(text@) && registry_builds(text@)),
        r matches Ok(rep) ==> rep.counts == counts_of(text@) && rep.summary@
            == spec_validate_summary(rep.counts),
        r matches Err(e) ==> if !envelope_decodes(text@) {
            load_error_shape(e@, text@)
        } else {
            is_registry_error(e@)
        },
{
    let program = match load_program(text) {
        Ok(p) => p,
        Err(e) => {
            return Err(e);
        },
    };
    match build_registry(&program) {
        Ok(_) => {},
        Err(cause) => {
            return Err(
                ToolError::new(
                    ErrorKind::Registry,
                    "ProgramRegistry validation failed".to_owned(),
                ).with_cause(describe_registry_error(&cause)),
            );
        },
    }
    let counts = program_counts(&program);
    let summary = validate_summary(&counts);
    Ok(ValidationReport { counts, summary })
}

/// What a successful compilation hands back: the assembly text to write (with
/// its terminating newline), the JSON summary, and the two reported counts.
#[derive(Debug)]
pub struct CompileReport {
    pub casm_text: String,
    pub summary: String,
    pub instructions: usize,
    pub const_segments: usize,
}

/// Compiles the program text to assembly.
///
/// Succeeds exactly when the text decodes, registry info and ap-change
/// metadata derive, the gas gate passes (vacuously when the check is off), and
/// the backend lowers the program.  The reported counts are then the
/// artifact's own, the summary is exactly their JSON rendering with the output
/// path and the flag as supplied, and the assembly text is newline-terminated
/// (its characters are the backend's rendering, which depends on the
/// environment and so is not pinned).  On failure the error carries the first
/// stage that refused the input, and a `GasCheck` error can only arise when
/// the check was requested.
pub fn run_compile(text: &str, out_path: &str, gas_check: bool) -> (r: Result<
    CompileReport,
    ToolError,
>)
    ensures
        (r is Ok) == (envelope_decodes(text@) && registry_info_builds(text@) && metadata_derives(
            text@,
        ) && (gas_check ==> gas_costs_covered(text@)) && compiles(text@, gas_check)),
        r matches Ok(rep) ==> {
            &&& rep.instructions == instr_count_of(text@, gas_check)
            &&& rep.const_segments == const_segment_count_of(text@, gas_check)
            &&& rep.summary@ == spec_compile_summary(
                out_path@,
                rep.instructions,
                rep.const_segments,
                gas_check,
            )
            &&& rep.casm_text@.len() > 0
            &&& rep.casm_text@.last() == '\n'
        },
        r matches Err(e) ==> compile_error_shape(e@, text@, gas_check),
        r matches Err(e) ==> (e@.kind == ErrorKind::GasCheck ==> gas_check),
{
    let program = match load_program(text) {
        Ok(p) => p,
        Err(e) => {
            return Err(e);
        },
    };
    let info = match registry_info_new(&program) {
        Ok(i) => i,
        Err(cause) => {
            return Err(
                ToolError::new(
                    ErrorKind::Registry,
                    "failed creating ProgramRegistryInfo".to_owned(),
                ).with_cause(describe_registry_error(&cause)),
            );
        },
    };
    let metadata = match calc_ap_change_metadata(&program, &info) {
        Ok(m) => m,
        Err(cause) => {
            return Err(
                ToolError::new(
                    ErrorKind::Metadata,
                    "failed computing metadata (ap-change only)".to_owned(),
                ).with_cause(describe_metadata_error(&cause)),
            );
        },
    };
    if gas_check && !gas_costs_cover_functions(&program, &metadata) {
        return Err(
            ToolError::new(
                ErrorKind::GasCheck,
                "gas usage check failed: no statically known gas bounds cover the program's functions".to_owned(),
            ),
        );
    }
    let compiled = match compile_casm(&program, &info, &metadata, gas_check, usize::MAX) {
        Ok(c) => c,
        Err(cause) => {
            let class = compile_failure_class(&cause);
            let kind = backend_error_kind(class, gas_check);
            return Err(
                ToolError::new(kind, "Sierra->CASM compilation failed".to_owned()).with_cause(
                    describe_compile_error(&cause),
                ),
            );
        },
    };
    let mut casm = casm_text(&compiled);
    casm.append("\n");
    proof {
        reveal_strlit("\n");
        assert(casm@.last() == '\n');
    }
    let (instructions, const_segments) = artifact_counts(&compiled);
    let summary = compile_summary(out_path, instructions, const_segments, gas_check);
    Ok(CompileReport { casm_text: casm, summary, instructions, const_segments })
}

/// Determinism of the reported outcome, for the half of it the library can
/// state: the counts a validation reports and the counts and summary a
/// compilation reports are named functions of the input text (and flag), so
/// any two runs on the same input report the same values.  The assembly
/// characters themselves come from the backend's environment-dependent
/// rendering and are deliberately not covered.
pub proof fn lemma_reported_outcome_deterministic(
    text: Seq<char>,
    out_path: Seq<char>,
    gas_check: bool,
    v1: ProgramCounts,
    v2: ProgramCounts,
    c1: (usize, usize),
    c2: (usize, usize),
)
    requires
        v1 == counts_of(text),
        v2 == counts_of(text),
        c1.0 == instr_count_of(text, gas_check),
        c1.1 == const_segment_count_of(text, gas_check),
        c2.0 == instr_count_of(text, gas_check),
        c2.1 == const_segment_count_of(text, gas_check),
    ensures
        v1 == v2,
        spec_validate_summary(v1) == spec_validate_summary(v2),
        c1 == c2,
        spec_compile_summary(out_path, c1.0, c1.1, gas_check) == spec_compile_summary(
            out_path,
            c2.0,
            c2.1,
            gas_check,
        ),
{
}

} // verus!


