use sierra_toolchain::error::ErrorKind;
use sierra_toolchain::pipeline::run_compile;

fn minimal_program() -> String {
    let mut s = String::new();
    s.push_str("{\n");
    s.push_str("  \"version\": 1,\n");
    s.push_str("  \"type_declarations\": [],\n");
    s.push_str("  \"libfunc_declarations\": [],\n");
    s.push_str("  \"statements\": [ { \"Return\": [] } ],\n");
    s.push_str("  \"funcs\": [ {\n");
    s.push_str("    \"id\": { \"id\": 0, \"debug_name\": null },\n");
    s.push_str("    \"signature\": { \"param_types\": [], \"ret_types\": [] },\n");
    s.push_str("    \"params\": [],\n");
    s.push_str("    \"entry_point\": 0\n");
    s.push_str("  } ],\n");
    s.push_str("  \"debug_info\": null\n");
    s.push_str("}\n");
    s
}

#[test]
fn compile_minimal_program_succeeds() {
    let rep = run_compile(&minimal_program(), "out/prog.casm", false)
        .expect("minimal program should compile");
    assert_eq!(rep.casm_text, "ret;\n\n");
    assert_eq!(rep.instructions, 1);
    assert_eq!(rep.const_segments, 0);
    assert_eq!(
        rep.summary,
        "{\"compiled\":true,\"out_casm\":\"out/prog.casm\",\"instructions\":1,\
         \"const_segments\":0,\"gas_check\":false}"
    );
}

#[test]
fn compile_is_deterministic_across_runs() {
    let text = minimal_program();
    let first = run_compile(&text, "out/prog.casm", false).expect("first compile");
    let second = run_compile(&text, "out/prog.casm", false).expect("second compile");
    assert_eq!(first.casm_text, second.casm_text);
    assert_eq!(first.summary, second.summary);
    assert_eq!(first.instructions, second.instructions);
    assert_eq!(first.const_segments, second.const_segments);
}

#[test]
fn compile_escapes_the_output_path_in_the_summary() {
    let rep = run_compile(&minimal_program(), "a\"b\\c", false)
        .expect("minimal program should compile");
    assert_eq!(
        rep.summary,
        "{\"compiled\":true,\"out_casm\":\"a\\\"b\\\\c\",\"instructions\":1,\
         \"const_segments\":0,\"gas_check\":false}"
    );
}

#[test]
fn gas_check_fails_without_static_gas_bounds() {
    let text = minimal_program();
    let e = run_compile(&text, "out/prog.casm", true).unwrap_err();
    assert_eq!(e.kind(), ErrorKind::GasCheck);
    assert_eq!(
        e.render(),
        "gas usage check failed: no statically known gas bounds cover the program's functions"
    );
}

#[test]
fn same_input_compiles_when_gas_check_is_off() {
    let text = minimal_program();
    let rep = run_compile(&text, "out/prog.casm", false).expect("compile without gas check");
    assert_eq!(rep.summary.contains("\"gas_check\":false"), true);
}

#[test]
fn compile_reports_gas_check_flag_in_summary() {
    // The flag value is echoed as supplied; with the check on, the minimal
    // program fails before any summary exists, so only the off case has one.
    let rep = run_compile(&minimal_program(), "o.casm", false).expect("compile");
    assert!(rep.summary.ends_with(",\"gas_check\":false}"));
}

#[test]
fn compile_rejects_unsupported_version() {
    let text = minimal_program().replace("\"version\": 1", "\"version\": 3");
    let e = run_compile(&text, "out/prog.casm", false).unwrap_err();
    assert_eq!(e.kind(), ErrorKind::UnsupportedVersion);
}

#[test]
fn compile_rejects_malformed_text_as_format_error() {
    let e = run_compile("{", "out/prog.casm", false).unwrap_err();
    assert_eq!(e.kind(), ErrorKind::Format);
    assert_eq!(e.contexts()[0], "failed parsing VersionedProgram JSON");
}

#[test]
fn compile_rejects_bad_entry_point_as_registry_error() {
    let text = minimal_program().replace("\"entry_point\": 0", "\"entry_point\": 7");
    let e = run_compile(&text, "out/prog.casm", false).unwrap_err();
    assert_eq!(e.kind(), ErrorKind::Registry);
    assert_eq!(e.contexts()[0], "failed creating ProgramRegistryInfo");
    assert_eq!(e.contexts().len(), 2);
}

fn self_loop_program() -> String {
    let mut s = String::new();
    s.push_str("{\n");
    s.push_str("  \"version\": 1,\n");
    s.push_str("  \"type_declarations\": [],\n");
    s.push_str("  \"libfunc_declarations\": [ {\n");
    s.push_str("    \"id\": { \"id\": 0, \"debug_name\": null },\n");
    s.push_str("    \"long_id\": { \"generic_id\": \"jump\", \"generic_args\": [] }\n");
    s.push_str("  } ],\n");
    s.push_str("  \"statements\": [ { \"Invocation\": {\n");
    s.push_str("    \"libfunc_id\": { \"id\": 0, \"debug_name\": null },\n");
    s.push_str("    \"args\": [],\n");
    s.push_str("    \"branches\": [ { \"target\": { \"Statement\": 0 }, \"results\": [] } ]\n");
    s.push_str("  } } ],\n");
    s.push_str("  \"funcs\": [ {\n");
    s.push_str("    \"id\": { \"id\": 0, \"debug_name\": null },\n");
    s.push_str("    \"signature\": { \"param_types\": [], \"ret_types\": [] },\n");
    s.push_str("    \"params\": [],\n");
    s.push_str("    \"entry_point\": 0\n");
    s.push_str("  } ],\n");
    s.push_str("  \"debug_info\": null\n");
    s.push_str("}\n");
    s
}

#[test]
fn compile_lowers_a_jump_statement() {
    let rep = run_compile(&self_loop_program(), "out/loop.casm", false)
        .expect("self-looping program should compile");
    assert_eq!(rep.casm_text, "jmp rel 0;\n\n");
    assert_eq!(rep.instructions, 1);
    assert_eq!(rep.const_segments, 0);
}

fn empty_program() -> String {
    let mut s = String::new();
    s.push_str("{\n");
    s.push_str("  \"version\": 1,\n");
    s.push_str("  \"type_declarations\": [],\n");
    s.push_str("  \"libfunc_declarations\": [],\n");
    s.push_str("  \"statements\": [],\n");
    s.push_str("  \"funcs\": [],\n");
    s.push_str("  \"debug_info\": null\n");
    s.push_str("}\n");
    s
}

#[test]
fn compile_of_empty_program_passes_gas_check() {
    // With no functions there is nothing the gas bounds must cover, so the
    // check succeeds and the summary echoes the flag as supplied.
    let rep = run_compile(&empty_program(), "out/empty.casm", true)
        .expect("empty program should compile under the gas check");
    assert_eq!(rep.instructions, 0);
    assert_eq!(rep.const_segments, 0);
    assert_eq!(rep.casm_text, "\n");
    assert_eq!(
        rep.summary,
        "{\"compiled\":true,\"out_casm\":\"out/empty.casm\",\"instructions\":0,\
         \"const_segments\":0,\"gas_check\":true}"
    );
}

#[test]
fn compile_writes_newline_terminated_text() {
    let rep = run_compile(&minimal_program(), "out/prog.casm", false).expect("compile");
    assert!(rep.casm_text.ends_with('\n'));
}
