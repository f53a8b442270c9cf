//! A model of the host's serializable values.
//!
//! The foreign host can only exchange plain data: primitives and
//! string-keyed records of primitives. Option payloads and the façade's
//! results are expressed in this shape, so the decoder and the result
//! marshalling can be specified and verified over it.

use vstd::prelude::*;

verus! {

/// A primitive host value: what a non-object host argument, or one field of
/// an option payload, can hold.
#[derive(Clone, Debug, PartialEq, Eq)]
pub enum Scalar {
    Null,
    Bool(bool),
    Num(i64),
    Text(String),
}

/// The mathematical value of a `Scalar`.
pub enum SpecScalar {
    Null,
    Bool(bool),
    Num(i64),
    Text(Seq<char>),
}

impl View for Scalar {
    type V = SpecScalar;

    open spec fn view(&self) -> SpecScalar {
        match self {
            Scalar::Null => SpecScalar::Null,
            Scalar::Bool(b) => SpecScalar::Bool(*b),
            Scalar::Num(n) => SpecScalar::Num(*n),
            Scalar::Text(s) => SpecScalar::Text(s@),
        }
    }
}

/// One named field of a host record.
#[derive(Clone, Debug, PartialEq, Eq)]
pub struct Field {
    pub name: String,
    pub value: Scalar,
}

impl View for Field {
    type V = (Seq<char>, SpecScalar);

    open spec fn view(&self) -> (Seq<char>, SpecScalar) {
        (self.name@, self.value@)
    }
}

/// A host value: a primitive, or a record of named primitives.
#[derive(Clone, Debug, PartialEq, Eq)]
pub enum Value {
    Scalar(Scalar),
    Obj(Vec<Field>),
}

/// The mathematical value of a `Value`.
pub enum SpecValue {
    Scalar(SpecScalar),
    Obj(Seq<(Seq<char>, SpecScalar)>),
}

impl View for Value {
    type V = SpecValue;

    open spec fn view(&self) -> SpecValue {
        match self {
            Value::Scalar(s) => SpecValue::Scalar(s@),
            Value::Obj(fields) => SpecValue::Obj(fields@.map_values(|f: Field| f@)),
        }
    }
}

/// Whether a host value is textual (a string), the shape the transform
/// operation demands of its source argument.
pub open spec fn spec_is_text(v: SpecValue) -> bool {
    v matches SpecValue::Scalar(SpecScalar::Text(_))
}

/// The text of a textual host value.
pub open spec fn spec_text_of(v: SpecValue) -> Seq<char>
    recommends
        spec_is_text(v),
{
    match v {
        SpecValue::Scalar(SpecScalar::Text(t)) => t,
        _ => Seq::empty(),
    }
}

/// The value of the first field named `name`, if any.
pub open spec fn spec_lookup(fields: Seq<(Seq<char>, SpecScalar)>, name: Seq<char>) -> Option<
    SpecScalar,
>
    decreases fields.len(),
{
    if fields.len() == 0 {
        None
    } else if fields[0].0 == name {
        Some(fields[0].1)
    } else {
        spec_lookup(fields.drop_first(), name)
    }
}

/// Finds the first field named `name` in a host record.
pub fn find_field<'a>(fields: &'a Vec<Field>, name: &String) -> (r: Option<&'a Scalar>)
    ensures
        match r {
            Some(s) => spec_lookup(fields@.map_values(|f: Field| f@), name@) == Some(s@),
            None => spec_lookup(fields@.map_values(|f: Field| f@), name@) is None,
        },
{
    let ghost all = fields@.map_values(|f: Field| f@);
    proof {
        assert(all.skip(0) =~= all);
    }
    let mut i: usize = 0;
    while i < fields.len()
        invariant
            i <= fields.len(),
            all == fields@.map_values(|f: Field| f@),
            spec_lookup(all, name@) == spec_lookup(all.skip(i as int), name@),
        decreases fields.len() - i,
    {
        if fields[i].name == *name {
            assert(all.skip(i as int)[0] == all[i as int]);
            return Some(&fields[i].value);
        }
        proof {
            assert(all.skip(i as int)[0] == all[i as int]);
            assert(all.skip(i as int).drop_first() =~= all.skip(i + 1));
        }
        i = i + 1;
    }
    proof {
        assert(all.skip(fields.len() as int).len() == 0);
    }
    None
}

} // verus!
