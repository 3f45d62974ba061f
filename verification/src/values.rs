//! The typed value model of the boundary.
//!
//! A cell or parameter value is one of five kinds: a 64-bit signed
//! integer, a 64-bit IEEE double (carried across the boundary as its raw
//! bit pattern, so that this crate never computes on floating point), a
//! UTF-8 text, an arbitrary byte blob, or the explicit null.  The kind
//! codes are part of the wire contract and must be preserved exactly.

use vstd::prelude::*;

verus! {

/// Wire code for an integer cell.
pub const KIND_INTEGER: i8 = 1;

/// Wire code for a double cell.
pub const KIND_REAL: i8 = 2;

/// Wire code for a text cell.
pub const KIND_TEXT: i8 = 3;

/// Wire code for a blob cell.
pub const KIND_BLOB: i8 = 4;

/// Wire code for a null cell.
pub const KIND_NULL: i8 = 5;

/// The mathematical model of a boundary value: payloads are byte
/// sequences, with no executable content.
#[verifier::ext_equal]
pub enum SpecValue {
    Null,
    Integer(i64),
    Real(u64),
    Text(Seq<u8>),
    Blob(Seq<u8>),
}

impl SpecValue {
    /// The wire kind code of this value.
    pub open spec fn kind(self) -> i8 {
        match self {
            SpecValue::Null => KIND_NULL,
            SpecValue::Integer(_) => KIND_INTEGER,
            SpecValue::Real(_) => KIND_REAL,
            SpecValue::Text(_) => KIND_TEXT,
            SpecValue::Blob(_) => KIND_BLOB,
        }
    }
}

/// One typed value crossing the boundary.
///
/// `Real` holds the raw IEEE-754 bit pattern of the double; the shim
/// converts with `f64::to_bits` / `f64::from_bits` at the edge.
pub enum Value {
    Null,
    Integer(i64),
    Real(u64),
    Text(Vec<u8>),
    Blob(Vec<u8>),
}

impl View for Value {
    type V = SpecValue;

    open spec fn view(&self) -> SpecValue {
        match *self {
            Value::Null => SpecValue::Null,
            Value::Integer(i) => SpecValue::Integer(i),
            Value::Real(b) => SpecValue::Real(b),
            Value::Text(b) => SpecValue::Text(b@),
            Value::Blob(b) => SpecValue::Blob(b@),
        }
    }
}

impl Value {
    /// Reports the wire kind code of this value.
    pub fn type_code(&self) -> (c: i8)
        ensures
            c == self@.kind(),
    {
        match self {
            Value::Null => KIND_NULL,
            Value::Integer(_) => KIND_INTEGER,
            Value::Real(_) => KIND_REAL,
            Value::Text(_) => KIND_TEXT,
            Value::Blob(_) => KIND_BLOB,
        }
    }
}

impl Clone for Value {
    /// Clones the value; the copy models the same boundary value.
    fn clone(&self) -> (r: Self)
        ensures
            r@ == self@,
    {
        let r = match self {
            Value::Null => Value::Null,
            Value::Integer(i) => Value::Integer(*i),
            Value::Real(b) => Value::Real(*b),
            Value::Text(b) => Value::Text(b.clone()),
            Value::Blob(b) => Value::Blob(b.clone()),
        };
        proof {
            assert(r@ =~= self@);
        }
        r
    }
}

} // verus!
