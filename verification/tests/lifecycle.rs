//! Handle lifecycle: allocation, generation checking, null-tolerant
//! free, the constructor completion protocol, and the consuming
//! commit/rollback discipline.

use libsql_bindings::boundary::{complete_create, complete_status, complete_value, consume_transaction};
use libsql_bindings::config::Replicated;
use libsql_bindings::errors::{ErrorKind, ErrorOut};
use libsql_bindings::handles::HandleTable;
use libsql_bindings::token::{decode_token, encode_handle};

#[test]
fn allocate_then_get() {
    let mut t: HandleTable<u64> = HandleTable::new();
    let h = t.allocate(42);
    assert!(t.contains(h));
    assert_eq!(t.get(h).copied(), Some(42));
}

#[test]
fn free_makes_handle_stale() {
    let mut t: HandleTable<u64> = HandleTable::new();
    let h = t.allocate(7);
    assert!(t.free(Some(h)));
    assert!(!t.contains(h));
    assert!(t.get(h).is_none());
}

#[test]
fn double_free_is_caught() {
    let mut t: HandleTable<u64> = HandleTable::new();
    let h = t.allocate(7);
    assert!(t.free(Some(h)));
    assert!(!t.free(Some(h)));
}

#[test]
fn free_on_null_handle_is_a_no_op() {
    let mut t: HandleTable<u64> = HandleTable::new();
    let h = t.allocate(9);
    assert!(!t.free(None));
    assert!(t.contains(h));
    assert_eq!(t.get(h).copied(), Some(9));
}

#[test]
fn stale_handle_never_revives_after_slot_reuse() {
    let mut t: HandleTable<u64> = HandleTable::new();
    let h1 = t.allocate(1);
    assert!(t.free(Some(h1)));
    let h2 = t.allocate(2);
    // the slot is reused, but the old handle stays dead
    assert_eq!(h2.index, h1.index);
    assert!(!t.contains(h1));
    assert!(t.get(h1).is_none());
    assert_eq!(t.get(h2).copied(), Some(2));
}

#[test]
fn borrow_mut_updates_in_place() {
    let mut t: HandleTable<u64> = HandleTable::new();
    let h = t.allocate(5);
    *t.borrow_mut(h) = 50;
    assert_eq!(t.get(h).copied(), Some(50));
}

#[test]
fn successful_constructor_yields_live_handle_and_untouched_error() {
    let mut t: HandleTable<u64> = HandleTable::new();
    let mut err = ErrorOut::wanted();
    let (st, h) = complete_create(&mut t, Ok(11), 6, ErrorKind::OpenFailed, &mut err);
    assert_eq!(st, 0);
    let h = h.expect("constructor must hand a handle out");
    assert!(t.contains(h));
    assert_eq!(t.get(h).copied(), Some(11));
    assert!(err.take_message().is_none());
}

#[test]
fn failing_constructor_writes_nothing_and_reports() {
    let mut t: HandleTable<u64> = HandleTable::new();
    let mut err = ErrorOut::wanted();
    let (st, h) = complete_create(
        &mut t,
        Err(b"no such file".to_vec()),
        6,
        ErrorKind::OpenFailed,
        &mut err,
    );
    assert_eq!(st, 6);
    assert!(h.is_none());
    let msg = err.take_message().expect("a wanted error slot is filled");
    assert_eq!(msg, b"Error opening URL: no such file".to_vec());
}

#[test]
fn failing_call_with_ignored_slot_discards_the_message() {
    let mut t: HandleTable<u64> = HandleTable::new();
    let mut err = ErrorOut::ignored();
    let (st, h) = complete_create(
        &mut t,
        Err(b"boom".to_vec()),
        1,
        ErrorKind::ConnectFailed,
        &mut err,
    );
    assert_eq!(st, 1);
    assert!(h.is_none());
    assert!(err.take_message().is_none());
}

#[test]
fn commit_consumes_the_transaction_handle() {
    let mut t: HandleTable<&'static str> = HandleTable::new();
    let h = t.allocate("tx");
    let mut err = ErrorOut::wanted();
    let (st, tx) = consume_transaction(&mut t, Some(h), ErrorKind::CommitFailed, &mut err);
    assert_eq!(st, 0);
    assert_eq!(tx, Some("tx"));
    assert!(err.take_message().is_none());
    assert!(!t.contains(h));
}

#[test]
fn second_commit_of_the_same_handle_fails() {
    let mut t: HandleTable<&'static str> = HandleTable::new();
    let h = t.allocate("tx");
    let mut err = ErrorOut::wanted();
    let (st, tx) = consume_transaction(&mut t, Some(h), ErrorKind::CommitFailed, &mut err);
    assert_eq!((st, tx), (0, Some("tx")));
    let _ = err.take_message();
    let (st2, tx2) = consume_transaction(&mut t, Some(h), ErrorKind::CommitFailed, &mut err);
    assert_eq!(st2, 1);
    assert!(tx2.is_none());
    let msg = err.take_message().expect("the stale reuse is reported");
    assert_eq!(
        msg,
        b"Transaction Commit: stale or null transaction handle".to_vec()
    );
}

#[test]
fn commit_of_null_handle_fails_without_crashing() {
    let mut t: HandleTable<&'static str> = HandleTable::new();
    let mut err = ErrorOut::ignored();
    let (st, tx) = consume_transaction(&mut t, None, ErrorKind::RollbackFailed, &mut err);
    assert_eq!(st, 1);
    assert!(tx.is_none());
}

#[test]
fn freeing_one_handle_leaves_the_others_alone() {
    let mut t: HandleTable<u64> = HandleTable::new();
    let h1 = t.allocate(1);
    let h2 = t.allocate(2);
    let h3 = t.allocate(3);
    assert!(t.free(Some(h2)));
    assert_eq!(t.get(h1).copied(), Some(1));
    assert!(t.get(h2).is_none());
    assert_eq!(t.get(h3).copied(), Some(3));
}

#[test]
fn sync_completion_hands_the_report_through() {
    let mut err = ErrorOut::wanted();
    let rep = Replicated { frame_no: 7, frames_synced: 3 };
    let (st, out) = complete_value(Ok(rep), 1, ErrorKind::SyncFailed, &mut err);
    assert_eq!(st, 0);
    assert_eq!(out, Some(rep));
    assert!(err.take_message().is_none());

    let (st, out) = complete_value::<Replicated>(
        Err(b"replica out of date".to_vec()),
        1,
        ErrorKind::SyncFailed,
        &mut err,
    );
    assert_eq!(st, 1);
    assert!(out.is_none());
    assert_eq!(
        err.take_message().unwrap(),
        b"Error syncing database: replica out of date".to_vec()
    );
}

#[test]
fn unit_completion_forwards_the_engine_message() {
    let mut err = ErrorOut::wanted();
    let st = complete_status(
        Err(b"disk full".to_vec()),
        6,
        ErrorKind::ExtensionFailed,
        &mut err,
    );
    assert_eq!(st, 6);
    assert_eq!(
        err.take_message().unwrap(),
        b"Error loading extension: disk full".to_vec()
    );
    let st_ok = complete_status(Ok(()), 6, ErrorKind::ExtensionFailed, &mut err);
    assert_eq!(st_ok, 0);
    assert!(err.take_message().is_none());
}

#[test]
fn tokens_round_trip_and_zero_is_null() {
    let mut t: HandleTable<u64> = HandleTable::new();
    let h = t.allocate(1);
    let token = encode_handle(h);
    assert_ne!(token, 0);
    assert_eq!(decode_token(token), Some(h));
    assert_eq!(decode_token(0), None);
}
