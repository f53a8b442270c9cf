//! The invocation façade.
//!
//! Every operation follows one template: decode the options, register the
//! source under its identity, establish a fresh scope and an empty
//! diagnostic handler, let the engine run, then marshal the outcome. The
//! engine itself is an external collaborator, so each operation is split in
//! two around it: `begin` does everything up to the engine call and hands
//! back a fully prepared invocation, `finish` consumes the invocation
//! together with the engine's answer and yields the host-facing result.
//! Decoding failures and a non-textual transform source stop a call before
//! any source is registered or any diagnostic can accumulate.

use vstd::prelude::*;

use vstd::string::StringSliceAdditionalSpecFns;
use vstd::utf8::encode_utf8;

use crate::diag::{spec_render_report, DiagnosticHandler, SpecDiagnostic};
use crate::options::{
    decode_minify, decode_transform, spec_decode_error_message, spec_decode_minify,
    spec_decode_transform, DecodeError, MinifyOptions, SpecTransformOptions, TransformOptions,
};
use crate::registry::{
    spec_source_file, FileName, SourceFile, SourceRegistry, SpecFileName, SpecSourceFile,
};
use crate::scope::ContextScope;
use crate::value::{spec_is_text, spec_text_of, Field, Scalar, SpecScalar, SpecValue, Value};

verus! {

/// A successful engine result: the emitted program text and, possibly, a
/// source map.
#[derive(Clone, Debug, PartialEq, Eq)]
pub struct TransformOutput {
    pub code: String,
    pub map: Option<String>,
}

/// The mathematical value of a `TransformOutput`.
pub struct SpecTransformOutput {
    pub code: Seq<char>,
    pub map: Option<Seq<char>>,
}

impl View for TransformOutput {
    type V = SpecTransformOutput;

    open spec fn view(&self) -> SpecTransformOutput {
        SpecTransformOutput {
            code: self.code@,
            map: match &self.map {
                Option::None => Option::None,
                Option::Some(m) => Option::Some(m@),
            },
        }
    }
}

/// An engine-level failure, as the engine states it.
#[derive(Clone, Debug)]
pub struct EngineError {
    pub message: String,
}

/// Every failure mode of the boundary, in one taxonomy.
#[derive(Clone, Debug, PartialEq, Eq)]
pub enum BoundaryError {
    /// The options payload was malformed.
    Decode(DecodeError),
    /// The transform operation was handed a non-textual source value.
    NoSourceProvided,
    /// The engine raised diagnostics; carries the rendered report.
    CompileFailed(String),
    /// The result could not be represented in host form.
    SerializationFailed,
}

/// The mathematical value of a `BoundaryError`.
pub enum SpecBoundaryError {
    Decode(DecodeError),
    NoSourceProvided,
    CompileFailed(Seq<char>),
    SerializationFailed,
}

impl View for BoundaryError {
    type V = SpecBoundaryError;

    open spec fn view(&self) -> SpecBoundaryError {
        match self {
            BoundaryError::Decode(e) => SpecBoundaryError::Decode(*e),
            BoundaryError::NoSourceProvided => SpecBoundaryError::NoSourceProvided,
            BoundaryError::CompileFailed(r) => SpecBoundaryError::CompileFailed(r@),
            BoundaryError::SerializationFailed => SpecBoundaryError::SerializationFailed,
        }
    }
}

/// The text the host sees for each failure mode.
pub open spec fn spec_boundary_message(e: SpecBoundaryError) -> Seq<char> {
    match e {
        SpecBoundaryError::Decode(d) => "failed to decode options: "@ + spec_decode_error_message(
            d,
        ),
        SpecBoundaryError::NoSourceProvided => "No source passed to transform"@,
        SpecBoundaryError::CompileFailed(r) => r,
        SpecBoundaryError::SerializationFailed => "failed to serialize result"@,
    }
}

impl BoundaryError {
    /// Renders the error as the single descriptive text the host receives.
    pub fn message(&self) -> (m: String)
        ensures
            m@ == spec_boundary_message(self@),
    {
        match self {
            BoundaryError::Decode(d) => {
                let dm = d.message();
                String::from_str("failed to decode options: ").concat(dm.as_str())
            },
            BoundaryError::NoSourceProvided => String::from_str("No source passed to transform"),
            BoundaryError::CompileFailed(r) => r.clone(),
            BoundaryError::SerializationFailed => String::from_str("failed to serialize result"),
        }
    }

    /// Converts the error into the opaque host error value: the host gets a
    /// single textual value, never a structured exception.
    pub fn to_host_error(&self) -> (v: Value)
        ensures
            v@ == SpecValue::Scalar(SpecScalar::Text(spec_boundary_message(self@))),
    {
        Value::Scalar(Scalar::Text(self.message()))
    }
}

/// How a successful engine result is marshalled into the host's record
/// shape: a `code` text field and a `map` field that is null when no source
/// map was produced.
pub open spec fn spec_serialize_output(o: SpecTransformOutput) -> SpecValue {
    SpecValue::Obj(
        seq![
            ("code"@, SpecScalar::Text(o.code)),
            (
                "map"@,
                match o.map {
                    Option::None => SpecScalar::Null,
                    Option::Some(m) => SpecScalar::Text(m),
                },
            ),
        ],
    )
}

/// Marshals a successful engine result into the host's record shape.
pub fn serialize_output(out: &TransformOutput) -> (v: Value)
    ensures
        v@ == spec_serialize_output(out@),
{
    let map_value = match &out.map {
        Option::None => Scalar::Null,
        Option::Some(m) => Scalar::Text(m.clone()),
    };
    let mut fields: Vec<Field> = Vec::new();
    fields.push(Field { name: String::from_str("code"), value: Scalar::Text(out.code.clone()) });
    fields.push(Field { name: String::from_str("map"), value: map_value });
    let v = Value::Obj(fields);
    proof {
        let s = v@->Obj_0;
        assert(s.len() == 2);
        assert(s[0] == ("code"@, SpecScalar::Text(out.code@)));
        assert(s[1] == (
            "map"@,
            match out@.map {
                Option::None => SpecScalar::Null,
                Option::Some(m) => SpecScalar::Text(m),
            },
        ));
        assert(s =~= spec_serialize_output(out@)->Obj_0);
    }
    v
}

/// The mathematical value of an engine answer.
pub open spec fn outcome_view(o: Result<TransformOutput, EngineError>) -> Result<
    SpecTransformOutput,
    Seq<char>,
> {
    match o {
        Result::Ok(t) => Result::Ok(t@),
        Result::Err(e) => Result::Err(e.message@),
    }
}

/// The mathematical value of a host-facing result.
pub open spec fn result_view(r: Result<Value, BoundaryError>) -> Result<
    SpecValue,
    SpecBoundaryError,
> {
    match r {
        Result::Ok(v) => Result::Ok(v@),
        Result::Err(e) => Result::Err(e@),
    }
}

/// The report a failed invocation carries: the rendered diagnostics when
/// any accumulated, otherwise the engine's own message under the
/// operation's context line.
pub open spec fn spec_report(
    diags: Seq<SpecDiagnostic>,
    f: SpecSourceFile,
    context: Seq<char>,
    engine_message: Seq<char>,
) -> Seq<char> {
    if diags.len() > 0 {
        spec_render_report(diags, f)
    } else {
        context + ": "@ + engine_message
    }
}

/// What `finish` yields for an engine answer: the marshalled result when
/// the engine succeeded (accumulated diagnostics are discarded), a compile
/// failure carrying the report when it did not.
pub open spec fn spec_conclude(
    diags: Seq<SpecDiagnostic>,
    f: SpecSourceFile,
    context: Seq<char>,
    outcome: Result<SpecTransformOutput, Seq<char>>,
) -> Result<SpecValue, SpecBoundaryError> {
    match outcome {
        Result::Ok(out) => Result::Ok(spec_serialize_output(out)),
        Result::Err(msg) => Result::Err(
            SpecBoundaryError::CompileFailed(spec_report(diags, f, context, msg)),
        ),
    }
}

/// The panic guard. Relies on `console_error_panic_hook::set_once`: its
/// first call installs a process-wide hook that reports an unhandled panic
/// to the host's console instead of letting the host crash; every later
/// call does nothing. Invoked at the start of each entry point so the hook
/// is active before any engine work, whatever the call order.
#[verifier::external_body]
fn install_panic_guard() {
    console_error_panic_hook::set_once()
}

/// The source identity a filename selects: empty means anonymous.
pub open spec fn spec_identity(filename: Seq<char>) -> SpecFileName {
    if filename.len() == 0 {
        SpecFileName::Anon
    } else {
        SpecFileName::Real(filename)
    }
}

/// What preparing a minify call yields: the decoded options and the one
/// anonymous source entry, or the decode error.
pub open spec fn spec_minify_begin(src_text: Seq<char>, opts: SpecValue) -> Result<
    (MinifyOptions, SpecSourceFile),
    SpecBoundaryError,
> {
    match spec_decode_minify(opts) {
        Result::Err(e) => Result::Err(SpecBoundaryError::Decode(e)),
        Result::Ok(o) => Result::Ok(
            (o, spec_source_file(SpecFileName::Anon, encode_utf8(src_text))),
        ),
    }
}

/// What preparing a transform call yields. A non-textual source fails
/// first, whatever the options payload holds; then the options are decoded;
/// then the source is registered under the identity its filename selects.
pub open spec fn spec_transform_begin(src: SpecValue, opts: SpecValue) -> Result<
    (SpecTransformOptions, SpecSourceFile),
    SpecBoundaryError,
> {
    if !spec_is_text(src) {
        Result::Err(SpecBoundaryError::NoSourceProvided)
    } else {
        match spec_decode_transform(opts) {
            Result::Err(e) => Result::Err(SpecBoundaryError::Decode(e)),
            Result::Ok(o) => Result::Ok(
                (o, spec_source_file(spec_identity(o.filename), encode_utf8(spec_text_of(src)))),
            ),
        }
    }
}

/// One prepared minify call: decoded options, the engine handle's registry
/// holding exactly the registered source, a fresh scope, an empty handler.
pub struct MinifyInvocation {
    pub options: MinifyOptions,
    pub registry: SourceRegistry,
    pub file: usize,
    pub scope: ContextScope,
    pub handler: DiagnosticHandler,
}

impl MinifyInvocation {
    /// One well-formed source entry, registered at index zero.
    pub open spec fn wf(self) -> bool {
        &&& self.registry@.len() == 1
        &&& self.file == 0
        &&& self.registry@[0].wf()
    }
}

/// One prepared transform call.
pub struct TransformInvocation {
    pub options: TransformOptions,
    pub registry: SourceRegistry,
    pub file: usize,
    pub scope: ContextScope,
    pub handler: DiagnosticHandler,
}

impl TransformInvocation {
    /// One well-formed source entry, registered at index zero.
    pub open spec fn wf(self) -> bool {
        &&& self.registry@.len() == 1
        &&& self.file == 0
        &&& self.registry@[0].wf()
    }
}

/// Prepares a minify call: decodes the options and, only if that succeeds,
/// registers the source anonymously inside a fresh scope with no
/// diagnostics yet.
pub fn minify_begin(src_text: &str, opts: &Value) -> (r: Result<MinifyInvocation, BoundaryError>)
    ensures
        match spec_minify_begin(src_text@, opts@) {
            Result::Err(e) => r matches Result::Err(be) && be@ == e,
            Result::Ok(pair) => r matches Result::Ok(inv) && inv.options == pair.0
                && inv.registry@ == seq![pair.1] && inv.file == 0 && inv.scope@ == Seq::<
                Seq<char>,
            >::empty() && inv.handler@ == Seq::<SpecDiagnostic>::empty() && inv.wf(),
        },
{
    install_panic_guard();
    let options = match decode_minify(opts) {
        Result::Err(e) => {
            return Result::Err(BoundaryError::Decode(e));
        },
        Result::Ok(o) => o,
    };
    let mut registry = SourceRegistry::create();
    let file = registry.new_source_file(FileName::Anon, src_text);
    proof {
        assert(registry@ =~= seq![spec_source_file(SpecFileName::Anon, src_text.spec_bytes())]);
    }
    let scope = ContextScope::enter();
    let handler = DiagnosticHandler::create();
    Result::Ok(MinifyInvocation { options, registry, file, scope, handler })
}

/// Prepares a transform call: rejects a non-textual source before anything
/// else, decodes the options, and registers the source under the identity
/// its filename selects, inside a fresh scope with no diagnostics yet.
pub fn transform_begin(src: &Value, opts: &Value) -> (r: Result<
    TransformInvocation,
    BoundaryError,
>)
    ensures
        match spec_transform_begin(src@, opts@) {
            Result::Err(e) => r matches Result::Err(be) && be@ == e,
            Result::Ok(pair) => r matches Result::Ok(inv) && inv.options@ == pair.0
                && inv.registry@ == seq![pair.1] && inv.file == 0 && inv.scope@ == Seq::<
                Seq<char>,
            >::empty() && inv.handler@ == Seq::<SpecDiagnostic>::empty() && inv.wf(),
        },
{
    install_panic_guard();
    let text: &String = match src {
        Value::Scalar(Scalar::Text(t)) => t,
        _ => {
            return Result::Err(BoundaryError::NoSourceProvided);
        },
    };
    let options = match decode_transform(opts) {
        Result::Err(e) => {
            return Result::Err(BoundaryError::Decode(e));
        },
        Result::Ok(o) => o,
    };
    let name = if options.filename.as_str().is_empty() {
        FileName::Anon
    } else {
        FileName::Real(options.filename.clone())
    };
    let ghost name_spec = name@;
    proof {
        assert(name_spec == spec_identity(options@.filename));
    }
    let mut registry = SourceRegistry::create();
    let file = registry.new_source_file(name, text.as_str());
    proof {
        assert(registry@ =~= seq![spec_source_file(name_spec, encode_utf8(spec_text_of(src@)))]);
    }
    let scope = ContextScope::enter();
    let handler = DiagnosticHandler::create();
    Result::Ok(TransformInvocation { options, registry, file, scope, handler })
}

/// Turns an engine answer into the host-facing result: the marshalled
/// output on success, otherwise a compile failure whose report renders the
/// accumulated diagnostics, or carries the engine's message under the
/// operation's context line when none accumulated.
fn conclude(
    handler: &DiagnosticHandler,
    file: &SourceFile,
    context: &str,
    outcome: Result<TransformOutput, EngineError>,
) -> (r: Result<Value, BoundaryError>)
    requires
        file@.wf(),
    ensures
        result_view(r) == spec_conclude(handler@, file@, context@, outcome_view(outcome)),
{
    match outcome {
        Result::Ok(out) => Result::Ok(serialize_output(&out)),
        Result::Err(e) => {
            let report: String = if handler.count() > 0 {
                handler.render_report(file)
            } else {
                String::from_str(context).concat(": ").concat(e.message.as_str())
            };
            Result::Err(BoundaryError::CompileFailed(report))
        },
    }
}

/// Concludes a minify call. The invocation is consumed on success and
/// failure alike, so its scope and registry never outlive the call.
pub fn minify_finish(inv: MinifyInvocation, outcome: Result<TransformOutput, EngineError>) -> (r:
    Result<Value, BoundaryError>)
    requires
        inv.wf(),
    ensures
        result_view(r) == spec_conclude(
            inv.handler@,
            inv.registry@[0],
            "failed to minify file"@,
            outcome_view(outcome),
        ),
{
    let file = inv.registry.file(0);
    conclude(&inv.handler, file, "failed to minify file", outcome)
}

/// Concludes a transform call. The invocation is consumed on success and
/// failure alike, so its scope and registry never outlive the call.
pub fn transform_finish(
    inv: TransformInvocation,
    outcome: Result<TransformOutput, EngineError>,
) -> (r: Result<Value, BoundaryError>)
    requires
        inv.wf(),
    ensures
        result_view(r) == spec_conclude(
            inv.handler@,
            inv.registry@[0],
            "failed to process js file"@,
            outcome_view(outcome),
        ),
{
    let file = inv.registry.file(0);
    conclude(&inv.handler, file, "failed to process js file", outcome)
}

/// The whole synchronous minify operation as one function of its inputs:
/// the begin phase composed with the conclusion, over the diagnostics the
/// engine emitted and its answer.
pub open spec fn spec_minify_sync(
    src_text: Seq<char>,
    opts: SpecValue,
    outcome: Result<SpecTransformOutput, Seq<char>>,
    diags: Seq<SpecDiagnostic>,
) -> Result<SpecValue, SpecBoundaryError> {
    match spec_minify_begin(src_text, opts) {
        Result::Err(e) => Result::Err(e),
        Result::Ok(pair) => spec_conclude(diags, pair.1, "failed to minify file"@, outcome),
    }
}

/// The whole synchronous transform operation as one function of its inputs.
pub open spec fn spec_transform_sync(
    src: SpecValue,
    opts: SpecValue,
    outcome: Result<SpecTransformOutput, Seq<char>>,
    diags: Seq<SpecDiagnostic>,
) -> Result<SpecValue, SpecBoundaryError> {
    match spec_transform_begin(src, opts) {
        Result::Err(e) => Result::Err(e),
        Result::Ok(pair) => spec_conclude(diags, pair.1, "failed to process js file"@, outcome),
    }
}

} // verus!
