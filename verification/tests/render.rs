use swc_boundary::diag::{dec_string, Diagnostic, DiagnosticHandler, Severity};
use swc_boundary::registry::{compute_line_starts, line_index, FileName, SourceRegistry};

#[test]
fn line_starts_of_multiline_source() {
    let bytes = b"ab\nc\n\nd".to_vec();
    assert_eq!(compute_line_starts(&bytes), vec![0, 3, 5, 6]);
}

#[test]
fn line_starts_of_empty_source() {
    assert_eq!(compute_line_starts(&Vec::new()), vec![0]);
}

#[test]
fn line_starts_of_trailing_newline() {
    let bytes = b"x\n".to_vec();
    assert_eq!(compute_line_starts(&bytes), vec![0, 2]);
}

#[test]
fn line_index_finds_containing_line() {
    let starts = vec![0usize, 3, 5, 6];
    assert_eq!(line_index(&starts, 0), 0);
    assert_eq!(line_index(&starts, 2), 0);
    assert_eq!(line_index(&starts, 3), 1);
    assert_eq!(line_index(&starts, 4), 1);
    assert_eq!(line_index(&starts, 5), 2);
    assert_eq!(line_index(&starts, 6), 3);
    assert_eq!(line_index(&starts, 100), 3);
}

#[test]
fn dec_string_renders_decimal() {
    assert_eq!(dec_string(0), "0");
    assert_eq!(dec_string(7), "7");
    assert_eq!(dec_string(10), "10");
    assert_eq!(dec_string(90731), "90731");
}

#[test]
fn registry_is_append_only() {
    let mut reg = SourceRegistry::create();
    let a = reg.new_source_file(FileName::Anon, "one\n");
    let b = reg.new_source_file(FileName::Real("b.js".to_string()), "two");
    assert_eq!(a, 0);
    assert_eq!(b, 1);
    assert_eq!(reg.len(), 2);
    assert_eq!(reg.file(0).src, b"one\n".to_vec());
    assert!(matches!(reg.file(0).name, FileName::Anon));
    assert_eq!(reg.file(1).src, b"two".to_vec());
    match &reg.file(1).name {
        FileName::Real(p) => assert_eq!(p.as_str(), "b.js"),
        FileName::Anon => panic!("expected a real identity"),
    }
}

#[test]
fn registry_computes_line_starts_on_registration() {
    let mut reg = SourceRegistry::create();
    reg.new_source_file(FileName::Anon, "const x = 1;\nconst y;\n");
    assert_eq!(reg.file(0).line_starts, vec![0, 13, 22]);
}

#[test]
fn report_renders_each_diagnostic_in_order() {
    let mut reg = SourceRegistry::create();
    reg.new_source_file(FileName::Real("a.js".to_string()), "const x = 1;\nconst y;\n");
    let mut h = DiagnosticHandler::create();
    h.emit(Diagnostic {
        severity: Severity::Error,
        offset: Some(13),
        message: "missing initializer".to_string(),
    });
    h.emit(Diagnostic {
        severity: Severity::Warning,
        offset: None,
        message: "unused variable".to_string(),
    });
    let report = h.render_report(reg.file(0));
    assert_eq!(
        report,
        "error: missing initializer at a.js:2:1\nwarning: unused variable\n"
    );
}

#[test]
fn report_of_anonymous_source_uses_anon_marker() {
    let mut reg = SourceRegistry::create();
    reg.new_source_file(FileName::Anon, "{");
    let mut h = DiagnosticHandler::create();
    h.emit(Diagnostic {
        severity: Severity::Error,
        offset: Some(0),
        message: "Unexpected eof".to_string(),
    });
    let report = h.render_report(reg.file(0));
    assert_eq!(report, "error: Unexpected eof at <anon>:1:1\n");
}

#[test]
fn out_of_range_offset_renders_no_location() {
    let mut reg = SourceRegistry::create();
    reg.new_source_file(FileName::Anon, "x");
    let mut h = DiagnosticHandler::create();
    h.emit(Diagnostic {
        severity: Severity::Error,
        offset: Some(999),
        message: "boom".to_string(),
    });
    let report = h.render_report(reg.file(0));
    assert_eq!(report, "error: boom\n");
}

#[test]
fn empty_handler_renders_empty_report() {
    let mut reg = SourceRegistry::create();
    reg.new_source_file(FileName::Anon, "x");
    let h = DiagnosticHandler::create();
    assert_eq!(h.render_report(reg.file(0)), "");
}
