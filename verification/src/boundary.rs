//! The completion protocol of the boundary entry points.
//!
//! Every fallible call follows one shape: on success the primary output
//! (a fresh live handle, or a value) is produced, the status is zero,
//! and the error slot is left untouched; on failure nothing is
//! produced, the status is the call's own nonzero code, and the error
//! slot — if the caller asked for one — receives the operation label
//! followed by the engine's message.  The helpers here pin that shape
//! down once, for every constructor, value call and unit call, and
//! implement the consuming commit/rollback discipline of transaction
//! handles on top of the generation-checked table.

use vstd::prelude::*;
use vstd::string::StringSliceAdditionalSpecFns;

use crate::batch::BatchStep;
use crate::errors::{engine_message_of, recorded, ErrorKind, ErrorOut};
use crate::handles::{Handle, HandleTable};
use crate::rows::Row;
use crate::values::Value;

verus! {

/// Finishes a constructor call: a successful engine outcome is put into
/// the table and named by a fresh live handle with status zero and the
/// error slot untouched; a failure allocates nothing, reports
/// `fail_status`, and records the label and the engine's message.
pub fn complete_create<T>(
    table: &mut HandleTable<T>,
    outcome: Result<T, Vec<u8>>,
    fail_status: i32,
    kind: ErrorKind,
    err: &mut ErrorOut,
) -> (r: (i32, Option<Handle>))
    requires
        old(table).wf(),
        fail_status != 0,
    ensures
        final(table).wf(),
        forall|h2: Handle| old(table).outlived(h2) ==> final(table).outlived(h2),
        forall|h2: Handle|
            old(table).is_live(h2) ==> final(table).is_live(h2) && final(table).value_at(h2)
                == old(table).value_at(h2),
        match outcome {
            Ok(v) => r.0 == 0 && (r.1 matches Some(h) && final(table).is_live(h) && final(table).value_at(h) == v && !old(table).is_live(h) && !old(table).outlived(h)) && *final(err)
                == *old(err),
            Err(d) => r.0 == fail_status && r.1 is None && *final(table) == *old(table) && recorded(
                *old(err),
                *final(err),
                engine_message_of(kind, d@),
            ),
        },
    {
    match outcome {
        Ok(v) => {
            let h = table.allocate(v);
            (0, Some(h))
        },
        Err(d) => {
            err.record(crate::errors::engine_message_for(&kind, d.as_slice()));
            (fail_status, None)
        },
    }
}

/// Finishes a call that returns a plain value (a change count, the
/// sync report): the value is handed through on success with the error
/// slot untouched; a failure yields `fail_status` and the message.
pub fn complete_value<U>(
    outcome: Result<U, Vec<u8>>,
    fail_status: i32,
    kind: ErrorKind,
    err: &mut ErrorOut,
) -> (r: (i32, Option<U>))
    requires
        fail_status != 0,
    ensures
        match outcome {
            Ok(v) => r.0 == 0 && r.1 == Some(v) && *final(err) == *old(err),
            Err(d) => r.0 == fail_status && r.1 is None && recorded(
                *old(err),
                *final(err),
                engine_message_of(kind, d@),
            ),
        },
{
    match outcome {
        Ok(v) => (0, Some(v)),
        Err(d) => {
            err.record(crate::errors::engine_message_for(&kind, d.as_slice()));
            (fail_status, None)
        },
    }
}

/// Finishes a call with no output but its status.
pub fn complete_status(
    outcome: Result<(), Vec<u8>>,
    fail_status: i32,
    kind: ErrorKind,
    err: &mut ErrorOut,
) -> (st: i32)
    requires
        fail_status != 0,
    ensures
        match outcome {
            Ok(_) => st == 0 && *final(err) == *old(err),
            Err(d) => st == fail_status && recorded(
                *old(err),
                *final(err),
                engine_message_of(kind, d@),
            ),
        },
{
    match outcome {
        Ok(_) => 0,
        Err(d) => {
            err.record(crate::errors::engine_message_for(&kind, d.as_slice()));
            fail_status
        },
    }
}

/// Finishes one step of row iteration: a materialized row becomes a
/// fresh caller-owned handle with status zero; an exhausted cursor is
/// status zero with no handle; a failure is status one with the
/// message, and no handle.
pub fn complete_next_row(
    table: &mut HandleTable<Row>,
    outcome: Result<Option<Vec<Value>>, Vec<u8>>,
    err: &mut ErrorOut,
) -> (r: (i32, Option<Handle>))
    requires
        old(table).wf(),
    ensures
        final(table).wf(),
        forall|h2: Handle| old(table).outlived(h2) ==> final(table).outlived(h2),
        forall|h2: Handle|
            old(table).is_live(h2) ==> final(table).is_live(h2) && final(table).value_at(h2)
                == old(table).value_at(h2),
        match outcome {
            Ok(Some(cells)) => r.0 == 0 && (r.1 matches Some(h) && final(table).is_live(h)
                && final(table).value_at(h)@ == cells@.map_values(|v: Value| v@) && !old(table).is_live(h)) && *final(err) == *old(err),
            Ok(None) => r.0 == 0 && r.1 is None && *final(table) == *old(table) && *final(err)
                == *old(err),
            Err(d) => r.0 == 1 && r.1 is None && *final(table) == *old(table) && recorded(
                *old(err),
                *final(err),
                engine_message_of(ErrorKind::NextRowFailed, d@),
            ),
        },
{
    match outcome {
        Ok(opt) => match opt {
            Some(cells) => {
                let row = Row::from_values(cells);
                let h = table.allocate(row);
                (0, Some(h))
            },
            None => (0, None),
        },
        Err(d) => {
            err.record(crate::errors::engine_message_for(&ErrorKind::NextRowFailed, d.as_slice()));
            (1, None)
        },
    }
}

/// Finishes one pull of a batch iterator, fixing the boundary's status
/// encoding.  Both success states carry status zero: a consumed
/// statement (the third component true) hands out a fresh handle, or
/// none when the statement produced no result object; exhaustion (the
/// third component false) is the "no result" success signal.  The
/// batch's failure is status 2 with the statement message, and no
/// handle.
pub fn complete_batch_advance<T>(
    table: &mut HandleTable<T>,
    step: BatchStep<T>,
    err: &mut ErrorOut,
) -> (r: (i32, Option<Handle>, bool))
    requires
        old(table).wf(),
    ensures
        final(table).wf(),
        forall|h2: Handle| old(table).outlived(h2) ==> final(table).outlived(h2),
        forall|h2: Handle|
            old(table).is_live(h2) ==> final(table).is_live(h2) && final(table).value_at(h2)
                == old(table).value_at(h2),
        match step {
            BatchStep::Advanced(opt) => r.0 == 0 && r.2 && *final(err) == *old(err) && match opt {
                Some(v) => r.1 matches Some(h) && final(table).is_live(h) && final(table).value_at(h) == v && !old(table).is_live(h),
                None => r.1 is None && *final(table) == *old(table),
            },
            BatchStep::Exhausted => r.0 == 0 && r.1 is None && !r.2 && *final(table) == *old(table) && *final(err) == *old(err),
            BatchStep::Failed(m) => r.0 == 2 && r.1 is None && !r.2 && *final(table) == *old(table) && recorded(
                *old(err),
                *final(err),
                engine_message_of(ErrorKind::StatementFailed, m@),
            ),
        },
{
    match step {
        BatchStep::Advanced(opt) => match opt {
            Some(v) => {
                let h = table.allocate(v);
                (0, Some(h), true)
            },
            None => (0, None, true),
        },
        BatchStep::Exhausted => (0, None, false),
        BatchStep::Failed(m) => {
            err.record(
                crate::errors::engine_message_for(&ErrorKind::StatementFailed, m.as_slice()),
            );
            (2, None, false)
        },
    }
}

/// Takes a transaction out of its table so a commit or rollback can
/// consume it.  A live handle yields the transaction and retires the
/// handle — it is outlived from here on, so handing the same handle to
/// a second commit cannot silently succeed: it lands in the stale case
/// below.  A null or stale handle changes nothing and reports status
/// one with the operation's message.
pub fn consume_transaction<T>(
    table: &mut HandleTable<T>,
    h: Option<Handle>,
    kind: ErrorKind,
    err: &mut ErrorOut,
) -> (r: (i32, Option<T>))
    requires
        old(table).wf(),
    ensures
        final(table).wf(),
        forall|h2: Handle| old(table).outlived(h2) ==> final(table).outlived(h2),
        match h {
            Some(h0) => {
                &&& old(table).is_live(h0) ==> r.0 == 0 && r.1 == Some(old(table).value_at(h0))
                    && final(table).outlived(h0) && !final(table).is_live(h0) && *final(err)
                    == *old(err) && forall|h2: Handle|
                    h2 != h0 ==> final(table).is_live(h2) == old(table).is_live(h2)
                &&& !old(table).is_live(h0) ==> r.0 == 1 && r.1 is None && *final(table) == *old(table) && recorded(
                    *old(err),
                    *final(err),
                    engine_message_of(kind, "stale or null transaction handle".spec_bytes()),
                )
            },
            None => r.0 == 1 && r.1 is None && *final(table) == *old(table) && recorded(
                *old(err),
                *final(err),
                engine_message_of(kind, "stale or null transaction handle".spec_bytes()),
            ),
        },
{
    match h {
        Some(h0) => {
            match table.remove(h0) {
                Some(v) => (0, Some(v)),
                None => {
                    err.record(
                        crate::errors::engine_message_for(
                            &kind,
                            "stale or null transaction handle".as_bytes(),
                        ),
                    );
                    (1, None)
                },
            }
        },
        None => {
            err.record(
                crate::errors::engine_message_for(
                    &kind,
                    "stale or null transaction handle".as_bytes(),
                ),
            );
            (1, None)
        },
    }
}

} // verus!
