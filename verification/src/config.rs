//! Decoding of the flat configuration record and of the other textual
//! inputs a boundary call receives.
//!
//! Every textual field arrives as raw bytes and must be valid UTF-8;
//! the decode functions below reject a malformed field locally, before
//! anything reaches the engine, with the per-call status taxonomy of
//! the boundary: each field has its own nonzero code, checked in a
//! fixed order, and the first bad field wins.

use vstd::prelude::*;
use vstd::utf8::valid_utf8;

use crate::errors::{message_of, recorded, ErrorKind, ErrorOut};
use crate::text::validate_utf8;

verus! {

/// Wire code selecting a deferred transaction.
pub const TX_DEFERRED: i8 = 1;

/// Wire code selecting an immediate transaction.
pub const TX_IMMEDIATE: i8 = 2;

/// Wire code selecting an exclusive transaction.
pub const TX_EXCLUSIVE: i8 = 3;

/// Wire code selecting a read-only transaction.
pub const TX_READONLY: i8 = 4;

/// How a transaction is begun.
#[derive(Clone, Copy, PartialEq, Eq, Structural, Debug)]
pub enum TxBehavior {
    Deferred,
    Immediate,
    Exclusive,
    ReadOnly,
}

/// The behavior a wire code selects: exactly the four codes are
/// recognized, and any other code falls back to deferred.
pub open spec fn behavior_of(code: i32) -> TxBehavior {
    if code == TX_IMMEDIATE as i32 {
        TxBehavior::Immediate
    } else if code == TX_EXCLUSIVE as i32 {
        TxBehavior::Exclusive
    } else if code == TX_READONLY as i32 {
        TxBehavior::ReadOnly
    } else {
        TxBehavior::Deferred
    }
}

/// Decodes a transaction-behavior wire code.
pub fn behavior_from_code(code: i32) -> (b: TxBehavior)
    ensures
        b == behavior_of(code),
{
    if code == TX_IMMEDIATE as i32 {
        TxBehavior::Immediate
    } else if code == TX_EXCLUSIVE as i32 {
        TxBehavior::Exclusive
    } else if code == TX_READONLY as i32 {
        TxBehavior::ReadOnly
    } else {
        TxBehavior::Deferred
    }
}

/// The flat configuration record of a synced (primary-replica)
/// database: a local replica path, the primary's URL, an auth token, a
/// read-your-writes flag, an optional symmetric encryption key, the
/// periodic sync interval in seconds (zero or less disables it), and
/// the flag selecting the bundled TLS root store for outbound HTTPS.
pub struct Config {
    pub db_path: Vec<u8>,
    pub primary_url: Vec<u8>,
    pub auth_token: Vec<u8>,
    pub read_your_writes: bool,
    pub encryption_key: Option<Vec<u8>>,
    pub sync_interval: i32,
    pub with_webpki: bool,
}

impl Config {
    /// All textual fields of the record are valid UTF-8.
    pub open spec fn decoded(self) -> bool {
        &&& valid_utf8(self.db_path@)
        &&& valid_utf8(self.primary_url@)
        &&& valid_utf8(self.auth_token@)
        &&& match self.encryption_key {
            Some(k) => valid_utf8(k@),
            None => true,
        }
    }

    /// The status a decode of this record reports: the first bad field
    /// in boundary order decides, and zero means every field decoded.
    pub open spec fn decode_status(self) -> i32 {
        if !valid_utf8(self.db_path@) {
            1
        } else if !valid_utf8(self.primary_url@) {
            2
        } else if !valid_utf8(self.auth_token@) {
            3
        } else if self.encryption_key matches Some(k) && !valid_utf8(k@) {
            5
        } else {
            0
        }
    }

    /// The error kind a failing decode of this record reports.
    pub open spec fn decode_kind(self) -> ErrorKind {
        if !valid_utf8(self.db_path@) {
            ErrorKind::BadUrl
        } else if !valid_utf8(self.primary_url@) {
            ErrorKind::BadUrl
        } else if !valid_utf8(self.auth_token@) {
            ErrorKind::BadAuthToken
        } else {
            ErrorKind::BadEncryptionKey
        }
    }
}

/// Validates every textual field of a configuration record, in the
/// boundary's order.  Status zero passes the record through untouched
/// with the error slot unwritten; the first malformed field yields its
/// own status code and decode message, and nothing is handed on.
pub fn decode_config(cfg: Config, err: &mut ErrorOut) -> (r: (i32, Option<Config>))
    ensures
        r.0 == cfg.decode_status(),
        r.0 == 0 <==> cfg.decoded(),
        cfg.decode_status() == 0 ==> (r.1 matches Some(c) && c == cfg) && *final(err) == *old(err),
        cfg.decode_status() != 0 ==> r.1 is None && recorded(
            *old(err),
            *final(err),
            message_of(cfg.decode_kind()),
        ),
{
    if !validate_utf8(&cfg.db_path) {
        err.record(crate::errors::message_for(&ErrorKind::BadUrl));
        return (1, None);
    }
    if !validate_utf8(&cfg.primary_url) {
        err.record(crate::errors::message_for(&ErrorKind::BadUrl));
        return (2, None);
    }
    if !validate_utf8(&cfg.auth_token) {
        err.record(crate::errors::message_for(&ErrorKind::BadAuthToken));
        return (3, None);
    }
    match &cfg.encryption_key {
        Some(k) => {
            if !validate_utf8(k) {
                err.record(crate::errors::message_for(&ErrorKind::BadEncryptionKey));
                return (5, None);
            }
        },
        None => {},
    }
    (0, Some(cfg))
}

/// Validates one textual input of a boundary call: status zero and an
/// untouched error slot when the bytes are UTF-8, the given nonzero
/// status and the kind's decode message otherwise.
pub fn decode_text(bytes: &Vec<u8>, fail_status: i32, kind: ErrorKind, err: &mut ErrorOut) -> (st:
    i32)
    requires
        fail_status != 0,
    ensures
        valid_utf8(bytes@) ==> st == 0 && *final(err) == *old(err),
        !valid_utf8(bytes@) ==> st == fail_status && recorded(
            *old(err),
            *final(err),
            message_of(kind),
        ),
{
    if validate_utf8(bytes) {
        0
    } else {
        err.record(crate::errors::message_for(&kind));
        fail_status
    }
}

/// Validates the extension-load inputs: a malformed path is status 2,
/// a malformed entry point (when one is given) status 4.
pub fn decode_extension(path: &Vec<u8>, entry_point: &Option<Vec<u8>>, err: &mut ErrorOut) -> (st:
    i32)
    ensures
        !valid_utf8(path@) ==> st == 2 && recorded(
            *old(err),
            *final(err),
            message_of(ErrorKind::BadPath),
        ),
        valid_utf8(path@) && (entry_point matches Some(e) && !valid_utf8(e@)) ==> st == 4
            && recorded(*old(err), *final(err), message_of(ErrorKind::BadEntryPoint)),
        valid_utf8(path@) && (entry_point matches Some(e) ==> valid_utf8(e@)) ==> st == 0 && *final(err) == *old(err),
{
    if !validate_utf8(path) {
        err.record(crate::errors::message_for(&ErrorKind::BadPath));
        return 2;
    }
    match entry_point {
        Some(e) => {
            if !validate_utf8(e) {
                err.record(crate::errors::message_for(&ErrorKind::BadEntryPoint));
                return 4;
            }
        },
        None => {},
    }
    0
}

/// What one database sync reports back on success.
#[derive(Clone, Copy, PartialEq, Eq, Structural, Debug)]
pub struct Replicated {
    pub frame_no: i32,
    pub frames_synced: i32,
}

} // verus!
