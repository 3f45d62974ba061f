//! The value marshaler: a materialized row snapshot, a result cursor's
//! column metadata, and the typed getters that convert one cell into a
//! boundary-safe primitive.
//!
//! Requesting a kind other than the cell's stored kind is a local
//! type-mismatch failure, never a coercion; an index outside the row is
//! a fetch failure; an index at or past the cursor's column count is a
//! bounds failure whose message names the valid count.  String and blob
//! getters hand the caller a freshly allocated buffer it owns.

use vstd::prelude::*;

use crate::errors::{
    column_range_message, message_of, recorded, ErrorKind, ErrorOut,
};
use crate::values::{SpecValue, Value};

verus! {

/// Why a typed getter failed: the cell holds another kind, the cell
/// could not be fetched at all (no such column in the row), or — for
/// the string getter alone — the text holds an interior nul byte that
/// no foreign string can carry.
pub enum GetError {
    WrongType,
    Fetch,
    InteriorNul,
}

/// The integer cell at `col`, or why there is none.
pub open spec fn int_cell(cells: Seq<SpecValue>, col: int) -> Result<i64, GetError> {
    if 0 <= col < cells.len() {
        match cells[col] {
            SpecValue::Integer(i) => Ok(i),
            _ => Err(GetError::WrongType),
        }
    } else {
        Err(GetError::Fetch)
    }
}

/// The double cell at `col` as its raw bit pattern, or why there is none.
pub open spec fn real_cell(cells: Seq<SpecValue>, col: int) -> Result<u64, GetError> {
    if 0 <= col < cells.len() {
        match cells[col] {
            SpecValue::Real(b) => Ok(b),
            _ => Err(GetError::WrongType),
        }
    } else {
        Err(GetError::Fetch)
    }
}

/// The text cell at `col`, or why there is none.  A text holding an
/// interior nul cannot cross the boundary as a string and is a failure
/// of its own, never a bare success.
pub open spec fn text_cell(cells: Seq<SpecValue>, col: int) -> Result<Seq<u8>, GetError> {
    if 0 <= col < cells.len() {
        match cells[col] {
            SpecValue::Text(b) => if has_nul(b) {
                Err(GetError::InteriorNul)
            } else {
                Ok(b)
            },
            _ => Err(GetError::WrongType),
        }
    } else {
        Err(GetError::Fetch)
    }
}

/// The blob cell at `col`, or why there is none.
pub open spec fn blob_cell(cells: Seq<SpecValue>, col: int) -> Result<Seq<u8>, GetError> {
    if 0 <= col < cells.len() {
        match cells[col] {
            SpecValue::Blob(b) => Ok(b),
            _ => Err(GetError::WrongType),
        }
    } else {
        Err(GetError::Fetch)
    }
}

/// One materialized row snapshot, owned by the caller until freed.
pub struct Row {
    cells: Vec<Value>,
}

impl View for Row {
    type V = Seq<SpecValue>;

    closed spec fn view(&self) -> Seq<SpecValue> {
        self.cells@.map_values(|v: Value| v@)
    }
}

impl Row {
    /// Materializes a row from its cell values.
    pub fn from_values(cells: Vec<Value>) -> (r: Row)
        ensures
            r@ == cells@.map_values(|v: Value| v@),
    {
        Row { cells }
    }

    /// How many cells the row holds.
    pub fn width(&self) -> (n: usize)
        ensures
            n == self@.len(),
    {
        self.cells.len()
    }

    /// Typed getter for an integer cell.  Status 0 hands the value out
    /// and leaves the error slot untouched; status 1 is a type mismatch,
    /// status 2 a fetch failure, each with its message.
    pub fn get_int(&self, col: i32, err: &mut ErrorOut) -> (r: (i32, Option<i64>))
        ensures
            match int_cell(self@, col as int) {
                Ok(i) => r.0 == 0 && r.1 == Some(i) && *final(err) == *old(err),
                Err(GetError::WrongType) => r.0 == 1 && r.1 is None && recorded(
                    *old(err),
                    *final(err),
                    message_of(ErrorKind::NotAnInteger),
                ),
                Err(GetError::Fetch) => r.0 == 2 && r.1 is None && recorded(
                    *old(err),
                    *final(err),
                    message_of(ErrorKind::ValueFetch),
                ),
                // this getter never reports an interior nul
                Err(GetError::InteriorNul) => false,
            },
    {
        if col < 0 || col as usize >= self.cells.len() {
            err.record(crate::errors::message_for(&ErrorKind::ValueFetch));
            return (2, None);
        }
        match &self.cells[col as usize] {
            Value::Integer(i) => (0, Some(*i)),
            _ => {
                err.record(crate::errors::message_for(&ErrorKind::NotAnInteger));
                (1, None)
            },
        }
    }

    /// Typed getter for a double cell, handed out as its raw IEEE-754
    /// bit pattern.
    pub fn get_float_bits(&self, col: i32, err: &mut ErrorOut) -> (r: (i32, Option<u64>))
        ensures
            match real_cell(self@, col as int) {
                Ok(b) => r.0 == 0 && r.1 == Some(b) && *final(err) == *old(err),
                Err(GetError::WrongType) => r.0 == 1 && r.1 is None && recorded(
                    *old(err),
                    *final(err),
                    message_of(ErrorKind::NotAFloat),
                ),
                Err(GetError::Fetch) => r.0 == 2 && r.1 is None && recorded(
                    *old(err),
                    *final(err),
                    message_of(ErrorKind::ValueFetch),
                ),
                // this getter never reports an interior nul
                Err(GetError::InteriorNul) => false,
            },
    {
        if col < 0 || col as usize >= self.cells.len() {
            err.record(crate::errors::message_for(&ErrorKind::ValueFetch));
            return (2, None);
        }
        match &self.cells[col as usize] {
            Value::Real(b) => (0, Some(*b)),
            _ => {
                err.record(crate::errors::message_for(&ErrorKind::NotAFloat));
                (1, None)
            },
        }
    }

    /// Typed getter for a text cell: the caller receives a fresh buffer
    /// holding exactly the cell's bytes, and owns it.  A text cell with
    /// an interior nul byte is status 3 with its own message, since the
    /// boundary's string convention could hand no buffer out for it.
    pub fn get_text(&self, col: i32, err: &mut ErrorOut) -> (r: (i32, Option<Vec<u8>>))
        ensures
            match text_cell(self@, col as int) {
                Ok(s) => r.0 == 0 && (r.1 matches Some(v) && v@ == s) && *final(err) == *old(err),
                Err(GetError::WrongType) => r.0 == 1 && r.1 is None && recorded(
                    *old(err),
                    *final(err),
                    message_of(ErrorKind::NotAString),
                ),
                Err(GetError::Fetch) => r.0 == 2 && r.1 is None && recorded(
                    *old(err),
                    *final(err),
                    message_of(ErrorKind::ValueFetch),
                ),
                Err(GetError::InteriorNul) => r.0 == 3 && r.1 is None && recorded(
                    *old(err),
                    *final(err),
                    message_of(ErrorKind::InvalidText),
                ),
            },
    {
        if col < 0 || col as usize >= self.cells.len() {
            err.record(crate::errors::message_for(&ErrorKind::ValueFetch));
            return (2, None);
        }
        match &self.cells[col as usize] {
            Value::Text(b) => {
                if contains_nul(b) {
                    err.record(crate::errors::message_for(&ErrorKind::InvalidText));
                    (3, None)
                } else {
                    (0, Some(b.clone()))
                }
            },
            _ => {
                err.record(crate::errors::message_for(&ErrorKind::NotAString));
                (1, None)
            },
        }
    }

    /// Typed getter for a blob cell: the caller receives a fresh buffer
    /// holding exactly the cell's bytes, and owns it.
    pub fn get_blob(&self, col: i32, err: &mut ErrorOut) -> (r: (i32, Option<Vec<u8>>))
        ensures
            match blob_cell(self@, col as int) {
                Ok(s) => r.0 == 0 && (r.1 matches Some(v) && v@ == s) && *final(err) == *old(err),
                Err(GetError::WrongType) => r.0 == 1 && r.1 is None && recorded(
                    *old(err),
                    *final(err),
                    message_of(ErrorKind::NotABlob),
                ),
                Err(GetError::Fetch) => r.0 == 2 && r.1 is None && recorded(
                    *old(err),
                    *final(err),
                    message_of(ErrorKind::ValueFetch),
                ),
                // this getter never reports an interior nul
                Err(GetError::InteriorNul) => false,
            },
    {
        if col < 0 || col as usize >= self.cells.len() {
            err.record(crate::errors::message_for(&ErrorKind::ValueFetch));
            return (2, None);
        }
        match &self.cells[col as usize] {
            Value::Blob(b) => (0, Some(b.clone())),
            _ => {
                err.record(crate::errors::message_for(&ErrorKind::NotABlob));
                (1, None)
            },
        }
    }
}

/// Whether a byte sequence holds an interior nul, which the foreign
/// string convention cannot carry.
pub open spec fn has_nul(s: Seq<u8>) -> bool {
    exists|i: int| 0 <= i < s.len() && s[i] == 0
}

/// Reports whether `bytes` holds a nul byte.
pub fn contains_nul(bytes: &Vec<u8>) -> (r: bool)
    ensures
        r == has_nul(bytes@),
{
    let n = bytes.len();
    let mut i: usize = 0;
    while i < n
        invariant
            i <= n,
            n == bytes@.len(),
            forall|j: int| 0 <= j < i ==> bytes@[j] != 0,
        decreases n - i,
    {
        if bytes[i] == 0 {
            return true;
        }
        i = i + 1;
    }
    false
}

/// A streaming result cursor's caller-visible metadata: the column
/// names, queried against the cursor and unaffected by iteration.
pub struct Cursor {
    names: Vec<Vec<u8>>,
}

impl Cursor {
    /// The column names of the cursor.
    pub closed spec fn names(self) -> Seq<Seq<u8>> {
        self.names@.map_values(|n: Vec<u8>| n@)
    }

    /// The column count fits the signed 32-bit count of the boundary.
    pub open spec fn wf(self) -> bool {
        self.names().len() <= i32::MAX
    }

    /// Builds the metadata for a cursor with the given column names.
    pub fn from_names(names: Vec<Vec<u8>>) -> (c: Cursor)
        requires
            names@.len() <= i32::MAX,
        ensures
            c.names() == names@.map_values(|n: Vec<u8>| n@),
            c.wf(),
    {
        Cursor { names }
    }

    /// The number of columns, a pure accessor with no error channel.
    pub fn column_count(&self) -> (n: i32)
        requires
            self.wf(),
        ensures
            n == self.names().len(),
    {
        self.names.len() as i32
    }

    /// Hands out one column's name as a fresh caller-owned buffer.
    /// Status 1 covers three failures: an index at or past the column
    /// count (the message names the count), a negative index, and a
    /// name no foreign string can carry (interior nul).
    pub fn column_name(&self, col: i32, err: &mut ErrorOut) -> (r: (i32, Option<Vec<u8>>))
        requires
            self.wf(),
        ensures
            ({
                let n = self.names().len() as int;
                &&& (col >= n ==> r.0 == 1 && r.1 is None && recorded(
                    *old(err),
                    *final(err),
                    column_range_message(col as int, n),
                ))
                &&& (col < 0 ==> r.0 == 1 && r.1 is None && recorded(
                    *old(err),
                    *final(err),
                    message_of(ErrorKind::ColumnNameMissing),
                ))
                &&& (0 <= col < n && has_nul(self.names()[col as int]) ==> r.0 == 1
                    && r.1 is None && recorded(
                    *old(err),
                    *final(err),
                    message_of(ErrorKind::InvalidColumnName),
                ))
                &&& (0 <= col < n && !has_nul(self.names()[col as int]) ==> r.0 == 0 && (
                r.1 matches Some(v)
                    && v@ == self.names()[col as int]) && *final(err) == *old(err))
            }),
    {
        let count = self.names.len() as i32;
        if col >= count {
            err.record(crate::errors::render_column_range(col, count));
            return (1, None);
        }
        if col < 0 {
            err.record(crate::errors::message_for(&ErrorKind::ColumnNameMissing));
            return (1, None);
        }
        let name = &self.names[col as usize];
        if contains_nul(name) {
            err.record(crate::errors::message_for(&ErrorKind::InvalidColumnName));
            return (1, None);
        }
        (0, Some(name.clone()))
    }

    /// The wire kind code of one cell, checked first against the
    /// cursor's column count (status 1, message with the count), then
    /// fetched from the row (status 2 if the row has no such cell).
    pub fn column_type(&self, row: &Row, col: i32, err: &mut ErrorOut) -> (r: (i32, Option<i8>))
        requires
            self.wf(),
        ensures
            ({
                let n = self.names().len() as int;
                &&& (col >= n ==> r.0 == 1 && r.1 is None && recorded(
                    *old(err),
                    *final(err),
                    column_range_message(col as int, n),
                ))
                &&& (col < n && !(0 <= col < row@.len()) ==> r.0 == 2 && r.1 is None && recorded(
                    *old(err),
                    *final(err),
                    message_of(ErrorKind::ValueFetch),
                ))
                &&& (col < n && 0 <= col < row@.len() ==> r.0 == 0 && r.1 == Some(
                    row@[col as int].kind(),
                ) && *final(err) == *old(err))
            }),
    {
        let count = self.names.len() as i32;
        if col >= count {
            err.record(crate::errors::render_column_range(col, count));
            return (1, None);
        }
        if col < 0 || col as usize >= row.cells.len() {
            err.record(crate::errors::message_for(&ErrorKind::ValueFetch));
            return (2, None);
        }
        let code = row.cells[col as usize].type_code();
        (0, Some(code))
    }
}

} // verus!
