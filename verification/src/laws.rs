//! Cross-cutting guarantees of the boundary, stated once over the
//! mathematical models and proved.
//!
//! The per-operation guarantees live in the contracts of the operations
//! themselves: every completion helper in `boundary` states that a
//! successful call yields its output with a zero status and an
//! untouched error slot, and that a failing call yields no output, a
//! nonzero status, and a message exactly when one was asked for.  The
//! lemmas here state what follows when operations are chained.

use vstd::prelude::*;

use crate::handles::{Handle, HandleTable};
use crate::params::spec_bind;
use crate::rows::{blob_cell, has_nul, int_cell, real_cell, text_cell, GetError};
use crate::values::{SpecValue, KIND_BLOB, KIND_INTEGER, KIND_REAL, KIND_TEXT};

verus! {

/// Binding a UTF-8 string, echoing it through a query, and reading it
/// back through the string getter yields byte-for-byte the original
/// bytes: if a result row's cell carries exactly the value that was
/// bound at `idx`, the getter returns exactly `b`.  A string with an
/// interior nul is left out: no foreign string can carry one, and the
/// getter rejects it instead of handing back a bare success.
pub proof fn lemma_text_round_trip(
    acc: Seq<SpecValue>,
    idx: int,
    b: Seq<u8>,
    row: Seq<SpecValue>,
    col: int,
)
    requires
        idx >= 0,
        !has_nul(b),
        0 <= col < row.len(),
        row[col] == spec_bind(acc, idx, SpecValue::Text(b))[idx],
    ensures
        text_cell(row, col) == Ok::<Seq<u8>, GetError>(b),
{
}

/// Binding a blob of length `n` and reading the echoed cell back
/// yields a buffer of exactly `n` bytes with identical content.
pub proof fn lemma_blob_round_trip(
    acc: Seq<SpecValue>,
    idx: int,
    b: Seq<u8>,
    n: int,
    row: Seq<SpecValue>,
    col: int,
)
    requires
        idx >= 0,
        b.len() == n,
        0 <= col < row.len(),
        row[col] == spec_bind(acc, idx, SpecValue::Blob(b))[idx],
    ensures
        blob_cell(row, col) == Ok::<Seq<u8>, GetError>(b),
        blob_cell(row, col)->Ok_0.len() == n,
{
}

/// Requesting a value of a kind other than the cell's stored kind
/// always fails, whichever getter is asked: no getter ever coerces.
pub proof fn lemma_no_coercion(cells: Seq<SpecValue>, col: int)
    requires
        0 <= col < cells.len(),
    ensures
        cells[col].kind() != KIND_INTEGER ==> int_cell(cells, col) is Err,
        cells[col].kind() != KIND_REAL ==> real_cell(cells, col) is Err,
        cells[col].kind() != KIND_TEXT ==> text_cell(cells, col) is Err,
        cells[col].kind() != KIND_BLOB ==> blob_cell(cells, col) is Err,
{
}

/// A committed (or rolled back) transaction handle is outlived by its
/// table, and an outlived handle is never live again, so handing the
/// same handle to a second commit cannot silently succeed: the consume
/// step reports the stale-handle failure instead.
pub proof fn lemma_consumed_handle_stays_dead<T>(t: HandleTable<T>, h: Handle)
    requires
        t.outlived(h),
    ensures
        !t.is_live(h),
{
}

} // verus!
