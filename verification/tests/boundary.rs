use swc_boundary::diag::{Diagnostic, Severity};
use swc_boundary::facade::{
    minify_begin, minify_finish, transform_begin, transform_finish, BoundaryError, EngineError,
    TransformOutput,
};
use swc_boundary::options::{DecodeError, FieldId};
use swc_boundary::scope::ContextScope;
use swc_boundary::task::Task;
use swc_boundary::value::{Field, Scalar, Value};

fn obj(fields: Vec<(&str, Scalar)>) -> Value {
    Value::Obj(
        fields
            .into_iter()
            .map(|(n, v)| Field {
                name: n.to_string(),
                value: v,
            })
            .collect(),
    )
}

fn transform_opts(filename: &str) -> Value {
    obj(vec![
        ("filename", Scalar::Text(filename.to_string())),
        ("development", Scalar::Bool(false)),
    ])
}

#[test]
fn transform_rejects_non_textual_source() {
    let r = transform_begin(&Value::Scalar(Scalar::Num(42)), &transform_opts("a.js"));
    assert!(matches!(r, Err(BoundaryError::NoSourceProvided)));
}

#[test]
fn transform_rejects_non_textual_source_whatever_the_options() {
    let malformed = Value::Scalar(Scalar::Null);
    let r = transform_begin(&Value::Scalar(Scalar::Num(42)), &malformed);
    assert!(matches!(r, Err(BoundaryError::NoSourceProvided)));
    let r2 = transform_begin(&Value::Scalar(Scalar::Bool(true)), &obj(vec![]));
    assert!(matches!(r2, Err(BoundaryError::NoSourceProvided)));
}

#[test]
fn transform_malformed_options_fail_before_engine() {
    let src = Value::Scalar(Scalar::Text("const x = 1;".to_string()));
    let r = transform_begin(&src, &obj(vec![("development", Scalar::Num(1))]));
    assert!(matches!(
        r,
        Err(BoundaryError::Decode(DecodeError::WrongFieldType(
            FieldId::Development
        )))
    ));
    let r2 = transform_begin(&src, &obj(vec![]));
    assert!(matches!(
        r2,
        Err(BoundaryError::Decode(DecodeError::MissingField(
            FieldId::Development
        )))
    ));
}

#[test]
fn minify_malformed_options_fail_before_engine() {
    let r = minify_begin("function f(){}", &obj(vec![("mangle", Scalar::Text("x".to_string()))]));
    assert!(matches!(
        r,
        Err(BoundaryError::Decode(DecodeError::WrongFieldType(
            FieldId::Mangle
        )))
    ));
}

#[test]
fn transform_success_marshals_output() {
    let src = Value::Scalar(Scalar::Text("const x = 1;".to_string()));
    let inv = transform_begin(&src, &transform_opts("a.js")).unwrap();
    assert_eq!(inv.options.filename, "a.js");
    assert_eq!(inv.handler.count(), 0);
    assert_eq!(inv.scope.len(), 0);
    let out = TransformOutput {
        code: "var x = 1;".to_string(),
        map: None,
    };
    let r = transform_finish(inv, Ok(out)).unwrap();
    let expected = obj(vec![
        ("code", Scalar::Text("var x = 1;".to_string())),
        ("map", Scalar::Null),
    ]);
    assert_eq!(r, expected);
}

#[test]
fn transform_output_with_source_map() {
    let src = Value::Scalar(Scalar::Text("const x = 1;".to_string()));
    let inv = transform_begin(&src, &transform_opts("")).unwrap();
    let out = TransformOutput {
        code: "var x = 1;".to_string(),
        map: Some("{\"mappings\":\"AAAA\"}".to_string()),
    };
    let r = transform_finish(inv, Ok(out)).unwrap();
    let expected = obj(vec![
        ("code", Scalar::Text("var x = 1;".to_string())),
        ("map", Scalar::Text("{\"mappings\":\"AAAA\"}".to_string())),
    ]);
    assert_eq!(r, expected);
}

#[test]
fn minify_compile_failure_renders_report() {
    let mut inv = minify_begin("{", &obj(vec![])).unwrap();
    inv.handler.emit(Diagnostic {
        severity: Severity::Error,
        offset: Some(0),
        message: "Unexpected eof".to_string(),
    });
    let r = minify_finish(
        inv,
        Err(EngineError {
            message: "failed to parse".to_string(),
        }),
    );
    match r {
        Err(BoundaryError::CompileFailed(report)) => {
            assert_eq!(report, "error: Unexpected eof at <anon>:1:1\n");
        }
        _ => panic!("expected CompileFailed"),
    }
}

#[test]
fn minify_engine_error_without_diagnostics_uses_context() {
    let inv = minify_begin("function f(){return   1+1;}", &obj(vec![])).unwrap();
    let r = minify_finish(
        inv,
        Err(EngineError {
            message: "unexpected failure".to_string(),
        }),
    );
    match r {
        Err(BoundaryError::CompileFailed(report)) => {
            assert_eq!(report, "failed to minify file: unexpected failure");
        }
        _ => panic!("expected CompileFailed"),
    }
}

#[test]
fn transform_engine_error_without_diagnostics_uses_context() {
    let src = Value::Scalar(Scalar::Text("const x = 1;".to_string()));
    let inv = transform_begin(&src, &transform_opts("a.js")).unwrap();
    let r = transform_finish(
        inv,
        Err(EngineError {
            message: "unexpected failure".to_string(),
        }),
    );
    match r {
        Err(BoundaryError::CompileFailed(report)) => {
            assert_eq!(report, "failed to process js file: unexpected failure");
        }
        _ => panic!("expected CompileFailed"),
    }
}

#[test]
fn minify_success_marshals_output() {
    let inv = minify_begin("function f(){return   1+1;}", &obj(vec![])).unwrap();
    assert!(inv.options.compress);
    assert!(inv.options.mangle);
    let out = TransformOutput {
        code: "function f(){return 1+1}".to_string(),
        map: None,
    };
    let r = minify_finish(inv, Ok(out)).unwrap();
    let expected = obj(vec![
        ("code", Scalar::Text("function f(){return 1+1}".to_string())),
        ("map", Scalar::Null),
    ]);
    assert_eq!(r, expected);
}

#[test]
fn repeated_calls_are_idempotent() {
    let src = Value::Scalar(Scalar::Text("const x = 1;".to_string()));
    let opts = transform_opts("a.js");
    let run = || {
        let inv = transform_begin(&src, &opts).unwrap();
        transform_finish(
            inv,
            Ok(TransformOutput {
                code: "var x = 1;".to_string(),
                map: None,
            }),
        )
    };
    assert_eq!(run(), run());
}

#[test]
fn repeated_failing_calls_are_idempotent() {
    let run = || {
        let mut inv = minify_begin("{", &obj(vec![])).unwrap();
        inv.handler.emit(Diagnostic {
            severity: Severity::Error,
            offset: Some(0),
            message: "Unexpected eof".to_string(),
        });
        minify_finish(
            inv,
            Err(EngineError {
                message: "failed to parse".to_string(),
            }),
        )
    };
    assert_eq!(run(), run());
}

#[test]
fn scope_of_one_call_is_not_visible_in_the_next() {
    let src = Value::Scalar(Scalar::Text("const x = 1;".to_string()));
    let mut first = transform_begin(&src, &transform_opts("a.js")).unwrap();
    first.scope.intern("x".to_string());
    first.handler.emit(Diagnostic {
        severity: Severity::Warning,
        offset: None,
        message: "noise".to_string(),
    });
    drop(first);
    let second = transform_begin(&src, &transform_opts("b.js")).unwrap();
    assert_eq!(second.scope.len(), 0);
    assert_eq!(second.handler.count(), 0);
}

#[test]
fn async_variant_resolves_to_sync_outcome() {
    let src = Value::Scalar(Scalar::Text("const x = 1;".to_string()));
    let sync_r = {
        let inv = transform_begin(&src, &transform_opts("a.js")).unwrap();
        transform_finish(
            inv,
            Ok(TransformOutput {
                code: "var x = 1;".to_string(),
                map: None,
            }),
        )
    };
    let task = Task::of_result(sync_r.clone());
    assert_eq!(task.resolve(), sync_r);
}

#[test]
fn async_variant_rejects_with_sync_error() {
    let sync_r = {
        let inv = minify_begin("{", &obj(vec![])).unwrap();
        minify_finish(
            inv,
            Err(EngineError {
                message: "failed to parse".to_string(),
            }),
        )
    };
    let task = Task::of_result(sync_r.clone());
    assert_eq!(task.resolve(), sync_r);
}

#[test]
fn boundary_error_messages() {
    assert_eq!(
        BoundaryError::NoSourceProvided.message(),
        "No source passed to transform"
    );
    assert_eq!(
        BoundaryError::Decode(DecodeError::NotAnObject).message(),
        "failed to decode options: options must be an object"
    );
    assert_eq!(
        BoundaryError::CompileFailed("boom".to_string()).message(),
        "boom"
    );
    assert_eq!(
        BoundaryError::SerializationFailed.message(),
        "failed to serialize result"
    );
}

#[test]
fn errors_become_textual_host_values() {
    let v = BoundaryError::NoSourceProvided.to_host_error();
    assert_eq!(
        v,
        Value::Scalar(Scalar::Text("No source passed to transform".to_string()))
    );
}

#[test]
fn scope_interns_in_order() {
    let mut s = ContextScope::enter();
    assert_eq!(s.len(), 0);
    assert_eq!(s.intern("a".to_string()), 0);
    assert_eq!(s.intern("b".to_string()), 1);
    assert_eq!(s.symbol(0).as_str(), "a");
    assert_eq!(s.symbol(1).as_str(), "b");
    assert_eq!(s.len(), 2);
}
