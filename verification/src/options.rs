//! The option decoder: the sole input-validation boundary.
//!
//! A host payload is an arbitrary serializable value; decoding turns it into
//! one of two strongly typed configuration records or rejects it with a
//! typed error naming the offending field. Unknown fields are ignored;
//! nothing downstream re-validates shape.

use vstd::prelude::*;

use crate::value::{find_field, spec_lookup, Scalar, SpecScalar, SpecValue, Value};

verus! {

/// The configuration fields the decoder knows about.
#[derive(Clone, Copy, PartialEq, Eq, Structural, Debug)]
pub enum FieldId {
    Compress,
    Mangle,
    Filename,
    Development,
}

/// Why a host payload was rejected by the decoder.
#[derive(Clone, Copy, PartialEq, Eq, Structural, Debug)]
pub enum DecodeError {
    /// The payload is not a record at all.
    NotAnObject,
    /// A required field is absent.
    MissingField(FieldId),
    /// A field is present but holds a value of the wrong type.
    WrongFieldType(FieldId),
}

/// Validated configuration for the minify operation.
#[derive(Clone, Copy, PartialEq, Eq, Structural, Debug)]
pub struct MinifyOptions {
    pub compress: bool,
    pub mangle: bool,
}

/// Validated configuration for the transform operation.
///
/// An empty `filename` means the source is anonymous.
#[derive(Clone, Debug, PartialEq, Eq)]
pub struct TransformOptions {
    pub filename: String,
    pub development: bool,
}

/// The mathematical value of a `TransformOptions`.
pub struct SpecTransformOptions {
    pub filename: Seq<char>,
    pub development: bool,
}

impl View for TransformOptions {
    type V = SpecTransformOptions;

    open spec fn view(&self) -> SpecTransformOptions {
        SpecTransformOptions { filename: self.filename@, development: self.development }
    }
}

/// The display name of a configuration field.
pub open spec fn spec_field_name(f: FieldId) -> Seq<char> {
    match f {
        FieldId::Compress => "compress"@,
        FieldId::Mangle => "mangle"@,
        FieldId::Filename => "filename"@,
        FieldId::Development => "development"@,
    }
}

/// Reads an optional boolean field, with a default for an absent one.
pub open spec fn spec_bool_field(
    fields: Seq<(Seq<char>, SpecScalar)>,
    name: Seq<char>,
    id: FieldId,
    default: bool,
) -> Result<bool, DecodeError> {
    match spec_lookup(fields, name) {
        Option::None => Result::Ok(default),
        Option::Some(SpecScalar::Bool(b)) => Result::Ok(b),
        Option::Some(_) => Result::Err(DecodeError::WrongFieldType(id)),
    }
}

/// Reads a required boolean field.
pub open spec fn spec_required_bool_field(
    fields: Seq<(Seq<char>, SpecScalar)>,
    name: Seq<char>,
    id: FieldId,
) -> Result<bool, DecodeError> {
    match spec_lookup(fields, name) {
        Option::None => Result::Err(DecodeError::MissingField(id)),
        Option::Some(SpecScalar::Bool(b)) => Result::Ok(b),
        Option::Some(_) => Result::Err(DecodeError::WrongFieldType(id)),
    }
}

/// Reads an optional text field, empty for an absent one.
pub open spec fn spec_text_field(
    fields: Seq<(Seq<char>, SpecScalar)>,
    name: Seq<char>,
    id: FieldId,
) -> Result<Seq<char>, DecodeError> {
    match spec_lookup(fields, name) {
        Option::None => Result::Ok(Seq::empty()),
        Option::Some(SpecScalar::Text(t)) => Result::Ok(t),
        Option::Some(_) => Result::Err(DecodeError::WrongFieldType(id)),
    }
}

/// A well-shaped minify payload: a record whose known fields, where
/// present, hold booleans.
pub open spec fn spec_valid_minify_payload(v: SpecValue) -> bool {
    &&& v is Obj
    &&& match spec_lookup(v->Obj_0, "compress"@) {
        Option::None => true,
        Option::Some(s) => s is Bool,
    }
    &&& match spec_lookup(v->Obj_0, "mangle"@) {
        Option::None => true,
        Option::Some(s) => s is Bool,
    }
}

/// A well-shaped transform payload: a record whose `filename`, if present,
/// is text, and whose `development` is present and boolean.
pub open spec fn spec_valid_transform_payload(v: SpecValue) -> bool {
    &&& v is Obj
    &&& match spec_lookup(v->Obj_0, "filename"@) {
        Option::None => true,
        Option::Some(s) => s is Text,
    }
    &&& spec_lookup(v->Obj_0, "development"@) matches Option::Some(s) && s is Bool
}

/// What decoding a minify-options payload yields: fields are read in a fixed
/// order (`compress`, then `mangle`), both optional and true by default.
pub open spec fn spec_decode_minify(v: SpecValue) -> Result<MinifyOptions, DecodeError> {
    match v {
        SpecValue::Obj(fields) => match spec_bool_field(
            fields,
            "compress"@,
            FieldId::Compress,
            true,
        ) {
            Result::Err(e) => Result::Err(e),
            Result::Ok(compress) => match spec_bool_field(
                fields,
                "mangle"@,
                FieldId::Mangle,
                true,
            ) {
                Result::Err(e) => Result::Err(e),
                Result::Ok(mangle) => Result::Ok(MinifyOptions { compress, mangle }),
            },
        },
        _ => Result::Err(DecodeError::NotAnObject),
    }
}

/// What decoding a transform-options payload yields: `filename` is optional
/// (empty means anonymous), `development` is required; `filename` is read
/// first.
pub open spec fn spec_decode_transform(v: SpecValue) -> Result<SpecTransformOptions, DecodeError> {
    match v {
        SpecValue::Obj(fields) => match spec_text_field(fields, "filename"@, FieldId::Filename) {
            Result::Err(e) => Result::Err(e),
            Result::Ok(filename) => match spec_required_bool_field(
                fields,
                "development"@,
                FieldId::Development,
            ) {
                Result::Err(e) => Result::Err(e),
                Result::Ok(development) => Result::Ok(
                    SpecTransformOptions { filename, development },
                ),
            },
        },
        _ => Result::Err(DecodeError::NotAnObject),
    }
}

/// Decodes a host payload into minify configuration.
pub fn decode_minify(v: &Value) -> (r: Result<MinifyOptions, DecodeError>)
    ensures
        r == spec_decode_minify(v@),
{
    match v {
        Value::Obj(fields) => {
            let compress_key = String::from_str("compress");
            let compress: bool = match find_field(fields, &compress_key) {
                Option::None => true,
                Option::Some(Scalar::Bool(b)) => *b,
                Option::Some(_) => {
                    return Result::Err(DecodeError::WrongFieldType(FieldId::Compress));
                },
            };
            let mangle_key = String::from_str("mangle");
            let mangle: bool = match find_field(fields, &mangle_key) {
                Option::None => true,
                Option::Some(Scalar::Bool(b)) => *b,
                Option::Some(_) => {
                    return Result::Err(DecodeError::WrongFieldType(FieldId::Mangle));
                },
            };
            Result::Ok(MinifyOptions { compress, mangle })
        },
        Value::Scalar(_) => Result::Err(DecodeError::NotAnObject),
    }
}

/// Decodes a host payload into transform configuration.
pub fn decode_transform(v: &Value) -> (r: Result<TransformOptions, DecodeError>)
    ensures
        (r matches Result::Ok(o) ==> spec_decode_transform(v@) == Result::<
            SpecTransformOptions,
            DecodeError,
        >::Ok(o@)),
        (r matches Result::Err(e) ==> spec_decode_transform(v@) == Result::<
            SpecTransformOptions,
            DecodeError,
        >::Err(e)),
{
    match v {
        Value::Obj(fields) => {
            let filename_key = String::from_str("filename");
            let filename: String = match find_field(fields, &filename_key) {
                Option::None => String::new(),
                Option::Some(Scalar::Text(t)) => t.clone(),
                Option::Some(_) => {
                    return Result::Err(DecodeError::WrongFieldType(FieldId::Filename));
                },
            };
            let development_key = String::from_str("development");
            let development: bool = match find_field(fields, &development_key) {
                Option::None => {
                    return Result::Err(DecodeError::MissingField(FieldId::Development));
                },
                Option::Some(Scalar::Bool(b)) => *b,
                Option::Some(_) => {
                    return Result::Err(DecodeError::WrongFieldType(FieldId::Development));
                },
            };
            Result::Ok(TransformOptions { filename, development })
        },
        Value::Scalar(_) => Result::Err(DecodeError::NotAnObject),
    }
}

/// The name of a configuration field, for error reports.
pub fn field_name(f: FieldId) -> (r: &'static str)
    ensures
        r@ == spec_field_name(f),
{
    match f {
        FieldId::Compress => "compress",
        FieldId::Mangle => "mangle",
        FieldId::Filename => "filename",
        FieldId::Development => "development",
    }
}

/// The text of a decode error.
pub open spec fn spec_decode_error_message(e: DecodeError) -> Seq<char> {
    match e {
        DecodeError::NotAnObject => "options must be an object"@,
        DecodeError::MissingField(f) => "missing required field `"@ + spec_field_name(f) + "`"@,
        DecodeError::WrongFieldType(f) => "wrong type for field `"@ + spec_field_name(f) + "`"@,
    }
}

impl DecodeError {
    /// Renders the error as human-readable text.
    pub fn message(&self) -> (m: String)
        ensures
            m@ == spec_decode_error_message(*self),
    {
        match self {
            DecodeError::NotAnObject => String::from_str("options must be an object"),
            DecodeError::MissingField(f) => String::from_str("missing required field `").concat(
                field_name(*f),
            ).concat("`"),
            DecodeError::WrongFieldType(f) => String::from_str("wrong type for field `").concat(
                field_name(*f),
            ).concat("`"),
        }
    }
}

} // verus!
