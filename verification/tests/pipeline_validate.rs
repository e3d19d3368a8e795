use sierra_toolchain::error::ErrorKind;
use sierra_toolchain::pipeline::run_validate;

fn minimal_program() -> String {
    let mut s = String::new();
    s.push_str("{\n");
    s.push_str("  \"version\": 1,\n");
    s.push_str("  \"type_declarations\": [],\n");
    s.push_str("  \"libfunc_declarations\": [],\n");
    s.push_str("  \"statements\": [ { \"Return\": [] } ],\n");
    s.push_str("  \"funcs\": [ {\n");
    s.push_str("    \"id\": { \"id\": 0, \"debug_name\": null },\n");
    s.push_str("    \"signature\": { \"param_types\": [], \"ret_types\": [] },\n");
    s.push_str("    \"params\": [],\n");
    s.push_str("    \"entry_point\": 0\n");
    s.push_str("  } ],\n");
    s.push_str("  \"debug_info\": null\n");
    s.push_str("}\n");
    s
}

#[test]
fn validate_minimal_program_reports_counts() {
    let rep = run_validate(&minimal_program()).expect("minimal program should validate");
    assert_eq!(rep.counts.type_declarations, 0);
    assert_eq!(rep.counts.libfunc_declarations, 0);
    assert_eq!(rep.counts.statements, 1);
    assert_eq!(rep.counts.functions, 1);
    assert_eq!(
        rep.summary,
        "{\"validated\":true,\"type_declarations\":0,\"libfunc_declarations\":0,\
         \"statements\":1,\"functions\":1}"
    );
}

#[test]
fn validate_counts_match_declarations_in_input() {
    let text = minimal_program().replace(
        "\"type_declarations\": []",
        "\"type_declarations\": [ {\n\
           \"id\": { \"id\": 0, \"debug_name\": null },\n\
           \"long_id\": { \"generic_id\": \"felt252\", \"generic_args\": [] },\n\
           \"declared_type_info\": null\n\
         } ]",
    );
    let rep = run_validate(&text).expect("program with one type declaration should validate");
    assert_eq!(rep.counts.type_declarations, 1);
    assert_eq!(rep.counts.libfunc_declarations, 0);
    assert_eq!(rep.counts.statements, 1);
    assert_eq!(rep.counts.functions, 1);
    assert_eq!(
        rep.summary,
        "{\"validated\":true,\"type_declarations\":1,\"libfunc_declarations\":0,\
         \"statements\":1,\"functions\":1}"
    );
}

#[test]
fn validate_counts_libfunc_declarations() {
    let text = minimal_program().replace(
        "\"libfunc_declarations\": []",
        "\"libfunc_declarations\": [ {\n\
           \"id\": { \"id\": 0, \"debug_name\": null },\n\
           \"long_id\": { \"generic_id\": \"jump\", \"generic_args\": [] }\n\
         } ]",
    );
    let rep = run_validate(&text).expect("program with one libfunc declaration should validate");
    assert_eq!(rep.counts.libfunc_declarations, 1);
    assert_eq!(
        rep.summary,
        "{\"validated\":true,\"type_declarations\":0,\"libfunc_declarations\":1,\
         \"statements\":1,\"functions\":1}"
    );
}

#[test]
fn validate_of_empty_program_reports_zero_counts() {
    let mut s = String::new();
    s.push_str("{ \"version\": 1, \"type_declarations\": [], \"libfunc_declarations\": [],");
    s.push_str(" \"statements\": [], \"funcs\": [], \"debug_info\": null }");
    let rep = run_validate(&s).expect("empty program should validate");
    assert_eq!(
        rep.summary,
        "{\"validated\":true,\"type_declarations\":0,\"libfunc_declarations\":0,\
         \"statements\":0,\"functions\":0}"
    );
}

#[test]
fn validate_rejects_malformed_text_as_format_error() {
    let e = run_validate("this is not json").unwrap_err();
    assert_eq!(e.kind(), ErrorKind::Format);
    assert_eq!(e.contexts()[0], "failed parsing VersionedProgram JSON");
    assert_eq!(e.contexts().len(), 2);
}

#[test]
fn validate_rejects_wrong_shape_with_supported_version_as_format_error() {
    let e = run_validate("{ \"version\": 1 }").unwrap_err();
    assert_eq!(e.kind(), ErrorKind::Format);
    assert_eq!(e.contexts()[0], "failed parsing VersionedProgram JSON");
}

#[test]
fn validate_rejects_unsupported_version() {
    let text = minimal_program().replace("\"version\": 1", "\"version\": 2");
    let e = run_validate(&text).unwrap_err();
    assert_eq!(e.kind(), ErrorKind::UnsupportedVersion);
    assert_eq!(e.render(), "unsupported Sierra program version for pinned toolchain");
}

#[test]
fn validate_rejects_bad_entry_point_as_registry_error() {
    let text = minimal_program().replace("\"entry_point\": 0", "\"entry_point\": 7");
    let e = run_validate(&text).unwrap_err();
    assert_eq!(e.kind(), ErrorKind::Registry);
    assert_eq!(e.contexts()[0], "ProgramRegistry validation failed");
    assert_eq!(e.contexts().len(), 2);
}

#[test]
fn validate_rejects_undeclared_libfunc_as_registry_error() {
    let text = minimal_program().replace(
        "\"statements\": [ { \"Return\": [] } ]",
        "\"statements\": [ {\n\
           \"Invocation\": {\n\
             \"libfunc_id\": { \"id\": 99, \"debug_name\": null },\n\
             \"args\": [],\n\
             \"branches\": [ { \"target\": \"Fallthrough\", \"results\": [] } ]\n\
           }\n\
         }, { \"Return\": [] } ]",
    );
    let e = run_validate(&text).unwrap_err();
    assert_eq!(e.kind(), ErrorKind::Registry);
    assert_eq!(e.contexts()[0], "ProgramRegistry validation failed");
}
