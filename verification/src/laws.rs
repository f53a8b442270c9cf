//! The boundary's laws: what holds of every call, proved over the
//! mathematical model that the executable contracts are stated against.

use vstd::prelude::*;

use crate::facade::{
    spec_conclude, spec_identity, spec_minify_begin, spec_minify_sync, spec_transform_begin,
    spec_transform_sync, SpecBoundaryError, SpecTransformOutput,
};
use crate::diag::SpecDiagnostic;
use crate::options::{
    spec_decode_minify, spec_decode_transform, spec_valid_minify_payload,
    spec_valid_transform_payload, SpecTransformOptions,
};
use crate::registry::SpecSourceFile;
use crate::value::{spec_is_text, spec_lookup, SpecScalar, SpecValue};

verus! {

/// Decoding is total and succeeds exactly on the well-shaped minify
/// payloads: every valid payload decodes to a record, every other payload
/// to a decode error.
pub proof fn lemma_decode_minify_total(v: SpecValue)
    ensures
        spec_valid_minify_payload(v) <==> spec_decode_minify(v) is Ok,
{
}

/// Decoding is total and succeeds exactly on the well-shaped transform
/// payloads.
pub proof fn lemma_decode_transform_total(v: SpecValue)
    ensures
        spec_valid_transform_payload(v) <==> spec_decode_transform(v) is Ok,
{
}

/// Decoding a valid transform payload round-trips the filename: the record
/// carries exactly the filename the payload supplied, or the empty one —
/// implying anonymous identity — when the payload supplied none.
pub proof fn lemma_decode_transform_filename(v: SpecValue)
    requires
        spec_decode_transform(v) is Ok,
    ensures
        v is Obj,
        match spec_lookup(v->Obj_0, "filename"@) {
            Option::Some(s) => s == SpecScalar::Text(spec_decode_transform(v)->Ok_0.filename),
            Option::None => spec_decode_transform(v)->Ok_0.filename == Seq::<char>::empty(),
        },
{
}

/// Decoding a valid minify payload round-trips each flag: the record holds
/// exactly the supplied value, or the default when the field was absent.
pub proof fn lemma_decode_minify_fields(v: SpecValue)
    requires
        spec_decode_minify(v) is Ok,
    ensures
        v is Obj,
        match spec_lookup(v->Obj_0, "compress"@) {
            Option::Some(s) => s == SpecScalar::Bool(spec_decode_minify(v)->Ok_0.compress),
            Option::None => spec_decode_minify(v)->Ok_0.compress == true,
        },
        match spec_lookup(v->Obj_0, "mangle"@) {
            Option::Some(s) => s == SpecScalar::Bool(spec_decode_minify(v)->Ok_0.mangle),
            Option::None => spec_decode_minify(v)->Ok_0.mangle == true,
        },
{
}

/// A malformed options payload stops a minify call at the decoder: the
/// call fails with exactly that decode error, so no invocation exists — no
/// source is registered and no diagnostic can accumulate.
pub proof fn lemma_malformed_options_stop_minify(src_text: Seq<char>, opts: SpecValue)
    requires
        spec_decode_minify(opts) is Err,
    ensures
        spec_minify_begin(src_text, opts) == Result::<
            (crate::options::MinifyOptions, SpecSourceFile),
            SpecBoundaryError,
        >::Err(SpecBoundaryError::Decode(spec_decode_minify(opts)->Err_0)),
{
}

/// A malformed options payload stops a transform call at the decoder, the
/// same way, for any textual source.
pub proof fn lemma_malformed_options_stop_transform(src: SpecValue, opts: SpecValue)
    requires
        spec_is_text(src),
        spec_decode_transform(opts) is Err,
    ensures
        spec_transform_begin(src, opts) == Result::<
            (SpecTransformOptions, SpecSourceFile),
            SpecBoundaryError,
        >::Err(SpecBoundaryError::Decode(spec_decode_transform(opts)->Err_0)),
{
}

/// A non-textual source value fails a transform call immediately with
/// `NoSourceProvided`, whatever the options payload holds, before any
/// source could be registered.
pub proof fn lemma_non_textual_source_rejected(src: SpecValue, opts: SpecValue)
    requires
        !spec_is_text(src),
    ensures
        spec_transform_begin(src, opts) == Result::<
            (SpecTransformOptions, SpecSourceFile),
            SpecBoundaryError,
        >::Err(SpecBoundaryError::NoSourceProvided),
{
}

/// A transform call registers its source under the identity the decoded
/// filename selects: a real path when the filename is non-empty, anonymous
/// otherwise.
pub proof fn lemma_transform_identity(src: SpecValue, opts: SpecValue)
    requires
        spec_transform_begin(src, opts) is Ok,
    ensures
        spec_transform_begin(src, opts)->Ok_0.1.name == spec_identity(
            spec_transform_begin(src, opts)->Ok_0.0.filename,
        ),
{
}

/// The minify pipeline composes: a begin that fails decides the whole
/// synchronous operation, and a begin that succeeds leaves exactly the
/// conclusion over the engine's answer and the accumulated diagnostics.
pub proof fn lemma_minify_composition(
    src_text: Seq<char>,
    opts: SpecValue,
    outcome: Result<SpecTransformOutput, Seq<char>>,
    diags: Seq<SpecDiagnostic>,
)
    ensures
        match spec_minify_begin(src_text, opts) {
            Result::Err(e) => spec_minify_sync(src_text, opts, outcome, diags) == Result::<
                SpecValue,
                SpecBoundaryError,
            >::Err(e),
            Result::Ok(pair) => spec_minify_sync(src_text, opts, outcome, diags) == spec_conclude(
                diags,
                pair.1,
                "failed to minify file"@,
                outcome,
            ),
        },
{
}

/// The transform pipeline composes the same way.
pub proof fn lemma_transform_composition(
    src: SpecValue,
    opts: SpecValue,
    outcome: Result<SpecTransformOutput, Seq<char>>,
    diags: Seq<SpecDiagnostic>,
)
    ensures
        match spec_transform_begin(src, opts) {
            Result::Err(e) => spec_transform_sync(src, opts, outcome, diags) == Result::<
                SpecValue,
                SpecBoundaryError,
            >::Err(e),
            Result::Ok(pair) => spec_transform_sync(src, opts, outcome, diags) == spec_conclude(
                diags,
                pair.1,
                "failed to process js file"@,
                outcome,
            ),
        },
{
}

/// Repeated synchronous minify calls are idempotent: the whole operation
/// is a function of its inputs alone, so two calls that see the same
/// source, options, engine answer and diagnostics yield identical
/// results — no hidden cross-call state can tell them apart.
pub proof fn lemma_minify_sync_deterministic(
    src_text: Seq<char>,
    opts: SpecValue,
    outcome: Result<SpecTransformOutput, Seq<char>>,
    diags: Seq<SpecDiagnostic>,
    r1: Result<SpecValue, SpecBoundaryError>,
    r2: Result<SpecValue, SpecBoundaryError>,
)
    requires
        r1 == spec_minify_sync(src_text, opts, outcome, diags),
        r2 == spec_minify_sync(src_text, opts, outcome, diags),
    ensures
        r1 == r2,
{
}

/// Repeated synchronous transform calls are idempotent, the same way.
pub proof fn lemma_transform_sync_deterministic(
    src: SpecValue,
    opts: SpecValue,
    outcome: Result<SpecTransformOutput, Seq<char>>,
    diags: Seq<SpecDiagnostic>,
    r1: Result<SpecValue, SpecBoundaryError>,
    r2: Result<SpecValue, SpecBoundaryError>,
)
    requires
        r1 == spec_transform_sync(src, opts, outcome, diags),
        r2 == spec_transform_sync(src, opts, outcome, diags),
    ensures
        r1 == r2,
{
}

} // verus!
