//! Trusted bindings to the Sierra compiler backend and to the JSON parser.
//!
//! Every item here is believed, not proved: each wrapper's body only makes the
//! named outside call and converts its arguments and result.  The backend's
//! values (programs, registries, metadata, compiled artifacts) are opaque to
//! the verifier, but each stage's *outcome* is a deterministic function of the
//! serialized program text it was derived from, so those outcomes are given
//! names (`envelope_decodes`, `registry_builds`, ...).  The structs below pair
//! each opaque backend value with the ghost text it came from; only the
//! bindings in this module construct them, so a later stage's contract can be
//! keyed to that text.  Nothing is promised that the outside source does not
//! show; the assembly rendering in particular gets no name, since it depends
//! on the environment.

use vstd::prelude::*;
use cairo_lang_sierra::program::Program;
use cairo_lang_sierra::program::VersionedProgram;
use cairo_lang_sierra::program_registry::ProgramRegistry;
use cairo_lang_sierra::program_registry::ProgramRegistryError;
use cairo_lang_sierra_to_casm::compiler::CairoProgram;
use cairo_lang_sierra_to_casm::compiler::CompilationError;
use cairo_lang_sierra_to_casm::compiler::SierraToCasmConfig;
use cairo_lang_sierra_to_casm::metadata::Metadata;
use cairo_lang_sierra_to_casm::metadata::MetadataError;
use cairo_lang_sierra_type_size::ProgramRegistryInfo;
use crate::report::ProgramCounts;

verus! {

#[verifier::external_type_specification]
#[verifier::external_body]
pub struct ExProgram(Program);

#[verifier::external_type_specification]
#[verifier::external_body]
pub struct ExProgramRegistryError(ProgramRegistryError);

#[verifier::external_type_specification]
#[verifier::external_body]
pub struct ExProgramRegistryInfo(ProgramRegistryInfo);

#[verifier::external_type_specification]
#[verifier::external_body]
pub struct ExMetadata(Metadata);

#[verifier::external_type_specification]
#[verifier::external_body]
pub struct ExMetadataError(MetadataError);

#[verifier::external_type_specification]
#[verifier::external_body]
pub struct ExCairoProgram(CairoProgram);

#[verifier::external_type_specification]
#[verifier::external_body]
pub struct ExCompilationError(CompilationError);

#[verifier::external_type_specification]
#[verifier::external_body]
pub struct ExJsonError(serde_json::Error);

/// Whether `serde_json::from_str::<VersionedProgram>` accepts the text: the
/// parse verdict is a function of the text alone.
pub uninterp spec fn envelope_decodes(text: Seq<char>) -> bool;

/// The `version` field a JSON reading of the text declares, when the text is
/// well-formed JSON holding one as an in-range unsigned integer; a function of
/// the text alone.
pub uninterp spec fn declared_version_of(text: Seq<char>) -> Option<u64>;

/// Whether `ProgramRegistry::new` succeeds on the program the text decodes
/// to: pure computation on the decoded program, so a function of the text.
pub uninterp spec fn registry_builds(text: Seq<char>) -> bool;

/// The four declaration-list lengths of the program the text decodes to.
pub uninterp spec fn counts_of(text: Seq<char>) -> ProgramCounts;

/// Whether `ProgramRegistryInfo::new` succeeds on the decoded program: the
/// registry build plus the per-type size map derivation, both pure.
pub uninterp spec fn registry_info_builds(text: Seq<char>) -> bool;

/// Whether `calc_metadata_ap_change_only` succeeds on the decoded program and
/// its registry info: pure computation, so a function of the text.
pub uninterp spec fn metadata_derives(text: Seq<char>) -> bool;

/// Whether the ap-change-only metadata of the decoded program holds a gas
/// cost entry for every function of the program; pure computation.
pub uninterp spec fn gas_costs_covered(text: Seq<char>) -> bool;

/// Whether the backend's `compile` succeeds on the decoded program, its
/// registry info and its ap-change-only metadata, with no bytecode size bound:
/// pure computation, a function of the text and the gas-check flag.
pub uninterp spec fn compiles(text: Seq<char>, gas_check: bool) -> bool;

/// The instruction count of the artifact that such a compilation produces;
/// deterministic per the backend's documented output guarantee.
pub uninterp spec fn instr_count_of(text: Seq<char>, gas_check: bool) -> usize;

/// The constant-segment count of that artifact; deterministic likewise.
pub uninterp spec fn const_segment_count_of(text: Seq<char>, gas_check: bool) -> usize;

/// A program decoded from its serialized text, paired with the ghost text it
/// was decoded from.  Only `decode_envelope` constructs a value, so whatever
/// `text()` says, the program really is what that text decodes to.
pub struct LoadedProgram {
    program: Program,
    source: Ghost<Seq<char>>,
}

impl LoadedProgram {
    /// The text this program was decoded from.
    pub closed spec fn text(&self) -> Seq<char> {
        self.source@
    }
}

/// The backend's registry-plus-type-sizes value, keyed to its source text.
pub struct RegistryInfo {
    info: ProgramRegistryInfo,
    source: Ghost<Seq<char>>,
}

impl RegistryInfo {
    /// The text the underlying program was decoded from.
    pub closed spec fn text(&self) -> Seq<char> {
        self.source@
    }
}

/// The backend's ap-change-only metadata, keyed to its source text.
pub struct DerivedMetadata {
    metadata: Metadata,
    source: Ghost<Seq<char>>,
}

impl DerivedMetadata {
    /// The text the underlying program was decoded from.
    pub closed spec fn text(&self) -> Seq<char> {
        self.source@
    }
}

/// A compiled artifact, keyed to its source text and the gas-check flag it
/// was compiled under.
pub struct CompiledProgram {
    artifact: CairoProgram,
    source: Ghost<Seq<char>>,
    gas: Ghost<bool>,
}

impl CompiledProgram {
    /// The text the compiled program was decoded from.
    pub closed spec fn text(&self) -> Seq<char> {
        self.source@
    }

    /// The gas-check flag the compilation ran under.
    pub closed spec fn gas_check(&self) -> bool {
        self.gas@
    }
}

/// The coarse class of a backend lowering failure, as the classifier below
/// reads it off the backend's error value.
#[derive(Clone, Copy, Debug, PartialEq, Eq, Structural)]
pub enum BackendFailureClass {
    /// The backend re-reported a registry (structural validation) failure.
    Registry,
    /// The failure concerns gas accounting.
    Gas,
    /// The emitted code went over the configured bytecode size bound.
    SizeLimit,
    /// Any other lowering failure.
    Other,
}

/// Relies on `serde_json::from_str::<VersionedProgram>`: parses the text as a
/// versioned program envelope, `Err` when the text does not match the schema.
/// `VersionedProgram` has the single variant `V1`, so a parsed envelope always
/// carries a v1 program.
#[verifier::external_body]
pub(crate) fn decode_envelope(text: &str) -> (r: Result<LoadedProgram, serde_json::Error>)
    ensures
        (r is Ok) == envelope_decodes(text@),
        r matches Ok(lp) ==> lp.text() == text@,
{
    match serde_json::from_str::<VersionedProgram>(text) {
        Ok(vp) => {
            let VersionedProgram::V1 { program: artifact, .. } = vp;
            Ok(LoadedProgram { program: artifact.program, source: Ghost(text@) })
        },
        Err(e) => Err(e),
    }
}

/// Relies on `serde_json::from_str::<serde_json::Value>`, `Value::get` and
/// `Value::as_u64`: the `version` field the text declares, `None` when the
/// text is not well-formed JSON, is not an object, lacks the field, or the
/// field is not an in-range unsigned integer.  A function of the text alone.
#[verifier::external_body]
pub(crate) fn probe_declared_version(text: &str) -> (r: Option<u64>)
    ensures
        r == declared_version_of(text@),
{
    match serde_json::from_str::<serde_json::Value>(text) {
        Ok(v) => match v.get("version") {
            Some(field) => field.as_u64(),
            None => None,
        },
        Err(_) => None,
    }
}

/// Relies on `serde_json::Error`'s `Display`: one line describing the parse
/// failure.
#[verifier::external_body]
pub(crate) fn describe_json_error(e: &serde_json::Error) -> (r: String) {
    format!("{e}")
}

/// Relies on `ProgramRegistry::<CoreType, CoreLibfunc>::new`: construction is
/// the validation act and returns `Err` exactly when some declared type or
/// libfunc cannot be specialized or some statement is ill-formed; whether it
/// succeeds is pure computation on the program.  The built registry itself is
/// not needed here and is dropped.
#[verifier::external_body]
pub(crate) fn build_registry(p: &LoadedProgram) -> (r: Result<(), Box<ProgramRegistryError>>)
    ensures
        (r is Ok) == registry_builds(p.text()),
{
    ProgramRegistry::<
        cairo_lang_sierra::extensions::core::CoreType,
        cairo_lang_sierra::extensions::core::CoreLibfunc,
    >::new(&p.program).map(|_registry| ())
}

/// Relies on `ProgramRegistryError`'s `Display`: one line naming the violating
/// declaration or statement.
#[verifier::external_body]
pub(crate) fn describe_registry_error(e: &ProgramRegistryError) -> (r: String) {
    format!("{e}")
}

/// Relies on `Vec::len` of the program's four declaration lists
/// (`type_declarations`, `libfunc_declarations`, `statements`, `funcs`).
#[verifier::external_body]
pub(crate) fn program_counts(p: &LoadedProgram) -> (r: ProgramCounts)
    ensures
        r == counts_of(p.text()),
{
    ProgramCounts {
        type_declarations: p.program.type_declarations.len(),
        libfunc_declarations: p.program.libfunc_declarations.len(),
        statements: p.program.statements.len(),
        functions: p.program.funcs.len(),
    }
}

/// Relies on `ProgramRegistryInfo::new`: builds the registry and the per-type
/// size map, `Err` exactly when registry construction or the size-map
/// derivation fails; pure computation on the program.
#[verifier::external_body]
pub(crate) fn registry_info_new(p: &LoadedProgram) -> (r: Result<
    RegistryInfo,
    Box<ProgramRegistryError>,
>)
    ensures
        (r is Ok) == registry_info_builds(p.text()),
        r matches Ok(ri) ==> ri.text() == p.text(),
{
    match ProgramRegistryInfo::new(&p.program) {
        Ok(info) => Ok(RegistryInfo { info, source: Ghost(p.text()) }),
        Err(e) => Err(e),
    }
}

/// Relies on `calc_metadata_ap_change_only`: derives ap-change metadata with
/// empty gas information, `Err` when some statement's ap-change cannot be
/// statically determined; pure computation on the program and its info.
#[verifier::external_body]
pub(crate) fn calc_ap_change_metadata(p: &LoadedProgram, info: &RegistryInfo) -> (r: Result<
    DerivedMetadata,
    MetadataError,
>)
    requires
        info.text() == p.text(),
    ensures
        (r is Ok) == metadata_derives(p.text()),
        r matches Ok(m) ==> m.text() == p.text(),
{
    match cairo_lang_sierra_to_casm::metadata::calc_metadata_ap_change_only(
        &p.program,
        &info.info,
    ) {
        Ok(metadata) => Ok(DerivedMetadata { metadata, source: Ghost(p.text()) }),
        Err(e) => Err(e),
    }
}

/// Relies on `MetadataError`'s `Display`: one line describing the ap-change
/// derivation failure.
#[verifier::external_body]
pub(crate) fn describe_metadata_error(e: &MetadataError) -> (r: String) {
    format!("{e}")
}

/// Relies on `GasInfo::function_costs`'s `contains_key` over the program's
/// `funcs`: true exactly when the metadata holds a gas cost entry for every
/// function of the program; pure computation on the two values.
#[verifier::external_body]
pub(crate) fn gas_costs_cover_functions(p: &LoadedProgram, m: &DerivedMetadata) -> (r: bool)
    requires
        m.text() == p.text(),
    ensures
        r == gas_costs_covered(p.text()),
{
    for func in &p.program.funcs {
        if !m.metadata.gas_info.function_costs.contains_key(&func.id) {
            return false;
        }
    }
    true
}

/// Relies on `cairo_lang_sierra_to_casm::compiler::compile`: lowers the
/// program to CASM under the given configuration, `Err` on any lowering
/// failure.  When the gas-usage check is set, the backend's annotation pass
/// indexes the metadata's function costs unchecked and would panic on a
/// missing entry, so that input is left out by `requires`.
#[verifier::external_body]
pub(crate) fn compile_casm(
    p: &LoadedProgram,
    info: &RegistryInfo,
    m: &DerivedMetadata,
    gas_usage_check: bool,
    max_bytecode_size: usize,
) -> (r: Result<CompiledProgram, Box<CompilationError>>)
    requires
        info.text() == p.text(),
        m.text() == p.text(),
        max_bytecode_size == usize::MAX,
        gas_usage_check ==> gas_costs_covered(p.text()),
    ensures
        (r is Ok) == compiles(p.text(), gas_usage_check),
        r matches Ok(c) ==> c.text() == p.text() && c.gas_check() == gas_usage_check,
{
    match cairo_lang_sierra_to_casm::compiler::compile(
        &p.program,
        &info.info,
        &m.metadata,
        SierraToCasmConfig { gas_usage_check, max_bytecode_size },
    ) {
        Ok(artifact) => Ok(
            CompiledProgram { artifact, source: Ghost(p.text()), gas: Ghost(gas_usage_check) },
        ),
        Err(e) => Err(e),
    }
}

/// Relies on the variants of `CompilationError`: tells the registry, gas and
/// size-limit failures apart from the rest, one arm each.
#[verifier::external_body]
pub(crate) fn compile_failure_class(e: &CompilationError) -> (r: BackendFailureClass) {
    match e {
        CompilationError::ProgramRegistryError(_) => BackendFailureClass::Registry,
        CompilationError::CodeSizeLimitExceeded => BackendFailureClass::SizeLimit,
        CompilationError::StatementNotSupportingGasVariables(_) => BackendFailureClass::Gas,
        CompilationError::MetadataNegativeGasVariable => BackendFailureClass::Gas,
        CompilationError::AnnotationError(
            cairo_lang_sierra_to_casm::annotations::AnnotationError::GasWalletError { .. },
        ) => BackendFailureClass::Gas,
        _ => BackendFailureClass::Other,
    }
}

/// Relies on `CompilationError`'s `Display`: one line describing the lowering
/// failure.
#[verifier::external_body]
pub(crate) fn describe_compile_error(e: &CompilationError) -> (r: String) {
    format!("{e}")
}

/// Relies on `CairoProgram`'s `Display`: the textual assembly rendering, one
/// instruction per line.  The backend widens the rendering when a debugging
/// environment variable is set, so the text is not a function of the artifact
/// alone and gets no name.
#[verifier::external_body]
pub(crate) fn casm_text(compiled: &CompiledProgram) -> (r: String) {
    format!("{}", compiled.artifact)
}

/// Relies on `Vec::len` of the artifact's `instructions` and on the length of
/// its `consts_info.segments` table; deterministic by the backend's documented
/// output guarantee, so the counts are named.
#[verifier::external_body]
pub(crate) fn artifact_counts(compiled: &CompiledProgram) -> (r: (usize, usize))
    ensures
        r.0 == instr_count_of(compiled.text(), compiled.gas_check()),
        r.1 == const_segment_count_of(compiled.text(), compiled.gas_check()),
{
    (compiled.artifact.instructions.len(), compiled.artifact.consts_info.segments.len())
}

} // verus!
