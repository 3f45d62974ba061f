//! The parameter accumulators.
//!
//! Two builder types collect typed values before a query or execute
//! call.  The positional accumulator is an ordered, index-addressable
//! list: binding an index past the current end extends the list and
//! fills the newly created slots with null.  The named accumulator is
//! an append-only list of (name, value) pairs; the same name may be
//! bound more than once, and what duplicates mean at query time is the
//! engine's decision — no binding here fails on a duplicate.
//!
//! A query call clones an accumulator's contents instead of consuming
//! it, so the same accumulator can be reused and must be freed
//! explicitly either way.

use vstd::prelude::*;
use vstd::utf8::valid_utf8;

use crate::errors::{message_of, recorded, ErrorKind, ErrorOut};
use crate::values::{SpecValue, Value};

verus! {

/// The contents of a positional accumulator after binding `v` at `idx`:
/// the list, padded with nulls up to `idx` if it was shorter, with slot
/// `idx` set to `v`.
pub open spec fn spec_bind(s: Seq<SpecValue>, idx: int, v: SpecValue) -> Seq<SpecValue> {
    let padded = if idx < s.len() {
        s
    } else {
        s + Seq::new((idx + 1 - s.len()) as nat, |j: int| SpecValue::Null)
    };
    padded.update(idx, v)
}

/// The ordered, index-addressable accumulator of positional parameters.
pub struct PositionalParams {
    values: Vec<Value>,
}

impl View for PositionalParams {
    type V = Seq<SpecValue>;

    closed spec fn view(&self) -> Seq<SpecValue> {
        self.values@.map_values(|v: Value| v@)
    }
}

impl PositionalParams {
    /// Creates an empty accumulator.
    pub fn new() -> (p: Self)
        ensures
            p@ == Seq::<SpecValue>::empty(),
    {
        let p = PositionalParams { values: Vec::new() };
        proof {
            assert(p@ =~= Seq::<SpecValue>::empty());
        }
        p
    }

    /// How many slots the accumulator holds.
    pub fn len(&self) -> (n: usize)
        ensures
            n == self@.len(),
    {
        self.values.len()
    }

    /// Binds `v` at `idx`, out of order if the caller likes: slots
    /// created between the old end and `idx` are filled with null.
    pub fn bind(&mut self, idx: u32, v: Value)
        ensures
            final(self)@ == spec_bind(old(self)@, idx as int, v@),
    {
        let i = idx as usize;
        let ghost base = self@;
        proof {
            assert(self@ =~= base + Seq::new(0, |j: int| SpecValue::Null));
        }
        while self.values.len() <= i
            invariant
                base.len() <= self@.len(),
                self@.len() <= i + 1 || self@.len() == base.len(),
                self@ == base + Seq::new((self@.len() - base.len()) as nat, |j: int| SpecValue::Null),
            decreases i + 1 - self.values.len(),
        {
            let ghost prev = self@;
            self.values.push(Value::Null);
            proof {
                assert(self@ =~= prev.push(SpecValue::Null));
                assert(self@ =~= base + Seq::new(
                    (self@.len() - base.len()) as nat,
                    |j: int| SpecValue::Null,
                ));
            }
        }
        let ghost padded = self@;
        self.values.set(i, v);
        proof {
            assert(self@ =~= padded.update(i as int, v@));
            assert(self@ =~= spec_bind(old(self)@, idx as int, v@));
        }
    }

    /// Binds a text parameter at `idx`: the bytes must be UTF-8, as
    /// the boundary's decode step demands, and a malformed value is
    /// rejected with status 2 and a decode message before anything is
    /// stored.
    pub fn bind_text(&mut self, idx: u32, bytes: Vec<u8>, err: &mut ErrorOut) -> (st: i32)
        ensures
            valid_utf8(bytes@) ==> st == 0 && final(self)@ == spec_bind(
                old(self)@,
                idx as int,
                SpecValue::Text(bytes@),
            ) && *final(err) == *old(err),
            !valid_utf8(bytes@) ==> st == 2 && final(self)@ == old(self)@ && recorded(
                *old(err),
                *final(err),
                message_of(ErrorKind::BadParamValue),
            ),
    {
        if !crate::text::validate_utf8(&bytes) {
            err.record(crate::errors::message_for(&ErrorKind::BadParamValue));
            return 2;
        }
        let ghost bytes_view = bytes@;
        self.bind(idx, Value::Text(bytes));
        proof {
            assert(self@ == spec_bind(old(self)@, idx as int, SpecValue::Text(bytes_view)));
        }
        0
    }

    /// Reads the value at `idx` back, if the list reaches it.
    pub fn get(&self, idx: u32) -> (r: Option<&Value>)
        ensures
            match r {
                Some(v) => idx < self@.len() && v@ == self@[idx as int],
                None => idx >= self@.len(),
            },
    {
        let i = idx as usize;
        if i < self.values.len() {
            Some(&self.values[i])
        } else {
            None
        }
    }

    /// Hands the collected values out for the engine call that clones
    /// them.
    pub fn values(&self) -> (r: &Vec<Value>)
        ensures
            r@.map_values(|v: Value| v@) == self@,
    {
        &self.values
    }
}

/// The append-only accumulator of named parameters.
pub struct NamedParams {
    pairs: Vec<(Vec<u8>, Value)>,
}

impl View for NamedParams {
    type V = Seq<(Seq<u8>, SpecValue)>;

    closed spec fn view(&self) -> Seq<(Seq<u8>, SpecValue)> {
        self.pairs@.map_values(|p: (Vec<u8>, Value)| (p.0@, p.1@))
    }
}

impl NamedParams {
    /// Creates an empty accumulator.
    pub fn new() -> (p: Self)
        ensures
            p@ == Seq::<(Seq<u8>, SpecValue)>::empty(),
    {
        let p = NamedParams { pairs: Vec::new() };
        proof {
            assert(p@ =~= Seq::<(Seq<u8>, SpecValue)>::empty());
        }
        p
    }

    /// How many bindings the accumulator holds.
    pub fn len(&self) -> (n: usize)
        ensures
            n == self@.len(),
    {
        self.pairs.len()
    }

    /// Appends a binding of `v` under `name`.  The name must be UTF-8:
    /// a malformed name is rejected with status 1 and a decode message,
    /// and nothing is stored.  Duplicate names are stored as given.
    pub fn bind(&mut self, name: Vec<u8>, v: Value, err: &mut ErrorOut) -> (st: i32)
        ensures
            valid_utf8(name@) ==> st == 0 && final(self)@ == old(self)@.push((name@, v@))
                && *final(err) == *old(err),
            !valid_utf8(name@) ==> st == 1 && final(self)@ == old(self)@ && recorded(
                *old(err),
                *final(err),
                message_of(ErrorKind::BadParamName),
            ),
    {
        if !crate::text::validate_utf8(&name) {
            err.record(crate::errors::message_for(&ErrorKind::BadParamName));
            return 1;
        }
        let ghost name_view = name@;
        let ghost value_view = v@;
        self.pairs.push((name, v));
        proof {
            assert(self@ =~= old(self)@.push((name_view, value_view)));
        }
        0
    }

    /// Appends a text binding under `name`: both the name and the value
    /// must be UTF-8.  A malformed value is rejected with status 1 and
    /// the value's decode message before the name is even considered;
    /// a malformed name with status 1 and the name's message.  Nothing
    /// is stored on either failure.
    pub fn bind_text(&mut self, name: Vec<u8>, bytes: Vec<u8>, err: &mut ErrorOut) -> (st: i32)
        ensures
            !valid_utf8(bytes@) ==> st == 1 && final(self)@ == old(self)@ && recorded(
                *old(err),
                *final(err),
                message_of(ErrorKind::BadParamValue),
            ),
            valid_utf8(bytes@) && !valid_utf8(name@) ==> st == 1 && final(self)@ == old(self)@
                && recorded(*old(err), *final(err), message_of(ErrorKind::BadParamName)),
            valid_utf8(bytes@) && valid_utf8(name@) ==> st == 0 && final(self)@ == old(
                self,
            )@.push((name@, SpecValue::Text(bytes@))) && *final(err) == *old(err),
    {
        if !crate::text::validate_utf8(&bytes) {
            err.record(crate::errors::message_for(&ErrorKind::BadParamValue));
            return 1;
        }
        self.bind(name, Value::Text(bytes), err)
    }

    /// Reads the binding at position `i` back.
    pub fn get(&self, i: usize) -> (r: Option<&(Vec<u8>, Value)>)
        ensures
            match r {
                Some(p) => i < self@.len() && (p.0@, p.1@) == self@[i as int],
                None => i >= self@.len(),
            },
    {
        if i < self.pairs.len() {
            Some(&self.pairs[i])
        } else {
            None
        }
    }

    /// Hands the collected bindings out for the engine call that clones
    /// them.
    pub fn pairs(&self) -> (r: &Vec<(Vec<u8>, Value)>)
        ensures
            r@.map_values(|p: (Vec<u8>, Value)| (p.0@, p.1@)) == self@,
    {
        &self.pairs
    }
}

/// Binding any index on an empty accumulator pads every slot below it
/// with null and stores the bound value at the index itself.
pub proof fn lemma_bind_on_empty(idx: int, v: SpecValue)
    requires
        idx >= 0,
    ensures
        spec_bind(Seq::<SpecValue>::empty(), idx, v).len() == idx + 1,
        forall|j: int| 0 <= j < idx ==> spec_bind(Seq::<SpecValue>::empty(), idx, v)[j]
            == SpecValue::Null,
        spec_bind(Seq::<SpecValue>::empty(), idx, v)[idx] == v,
{
}

} // verus!
