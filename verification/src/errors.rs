//! The out-parameter error channel.
//!
//! Every fallible boundary operation reports failure through an integer
//! status code — zero on success, a per-call nonzero taxonomy otherwise —
//! and, when the caller supplied a place for it, a human-readable
//! message.  `ErrorOut` models that nullable message out-parameter: when
//! it is disabled (a null pointer at the foreign boundary) diagnostics
//! are discarded; when it is enabled, a failing call records its message
//! and a successful call leaves the slot untouched.

use vstd::prelude::*;
use vstd::slice::slice_to_vec;
use vstd::string::StringSliceAdditionalSpecFns;

verus! {

/// Everything a failing boundary call can report.
///
/// The first group are local decode errors, the second are boundary
/// contract errors of the value marshaler, and the third label failures
/// forwarded verbatim from the engine.
pub enum ErrorKind {
    BadUrl,
    BadAuthToken,
    BadEncryptionKey,
    BadPath,
    BadEntryPoint,
    BadSql,
    BadParamName,
    BadParamValue,
    NotAnInteger,
    NotAFloat,
    NotAString,
    NotABlob,
    InvalidText,
    ValueFetch,
    ColumnNameMissing,
    InvalidColumnName,
    SyncFailed,
    OpenFailed,
    ConnectFailed,
    ExtensionFailed,
    TransactionFailed,
    StatementFailed,
    PrepareFailed,
    NextRowFailed,
    CommitFailed,
    RollbackFailed,
}

/// The fixed message text of an error kind, as UTF-8 bytes.  For engine
/// failures it is the operation label that prefixes the engine's own
/// rendering.
pub open spec fn message_of(k: ErrorKind) -> Seq<u8> {
    match k {
        ErrorKind::BadUrl => "Wrong URL: invalid UTF-8".spec_bytes(),
        ErrorKind::BadAuthToken => "Wrong Auth Token: invalid UTF-8".spec_bytes(),
        ErrorKind::BadEncryptionKey => "Wrong encryption key: invalid UTF-8".spec_bytes(),
        ErrorKind::BadPath => "Wrong path: invalid UTF-8".spec_bytes(),
        ErrorKind::BadEntryPoint => "Wrong entry point: invalid UTF-8".spec_bytes(),
        ErrorKind::BadSql => "Wrong SQL: invalid UTF-8".spec_bytes(),
        ErrorKind::BadParamName => "Wrong named string: invalid UTF-8".spec_bytes(),
        ErrorKind::BadParamValue => "Wrong param value: invalid UTF-8".spec_bytes(),
        ErrorKind::NotAnInteger => "Value not an integer".spec_bytes(),
        ErrorKind::NotAFloat => "Value not a float".spec_bytes(),
        ErrorKind::NotAString => "Value not a string".spec_bytes(),
        ErrorKind::NotABlob => "Value not a blob".spec_bytes(),
        ErrorKind::InvalidText => "Invalid string: interior nul byte".spec_bytes(),
        ErrorKind::ValueFetch => "Error fetching value: no such column".spec_bytes(),
        ErrorKind::ColumnNameMissing => "Column should have valid index".spec_bytes(),
        ErrorKind::InvalidColumnName => "Invalid name: interior nul byte".spec_bytes(),
        ErrorKind::SyncFailed => "Error syncing database: ".spec_bytes(),
        ErrorKind::OpenFailed => "Error opening URL: ".spec_bytes(),
        ErrorKind::ConnectFailed => "Unable to connect: ".spec_bytes(),
        ErrorKind::ExtensionFailed => "Error loading extension: ".spec_bytes(),
        ErrorKind::TransactionFailed => "Error creating transaction: ".spec_bytes(),
        ErrorKind::StatementFailed => "Error executing statement: ".spec_bytes(),
        ErrorKind::PrepareFailed => "Error preparing statement: ".spec_bytes(),
        ErrorKind::NextRowFailed => "Error fetching next row: ".spec_bytes(),
        ErrorKind::CommitFailed => "Transaction Commit: ".spec_bytes(),
        ErrorKind::RollbackFailed => "Transaction Rollback: ".spec_bytes(),
    }
}

/// Renders the fixed message text of an error kind.
pub fn message_for(k: &ErrorKind) -> (m: Vec<u8>)
    ensures
        m@ == message_of(*k),
{
    match k {
        ErrorKind::BadUrl => slice_to_vec("Wrong URL: invalid UTF-8".as_bytes()),
        ErrorKind::BadAuthToken => slice_to_vec("Wrong Auth Token: invalid UTF-8".as_bytes()),
        ErrorKind::BadEncryptionKey => slice_to_vec(
            "Wrong encryption key: invalid UTF-8".as_bytes(),
        ),
        ErrorKind::BadPath => slice_to_vec("Wrong path: invalid UTF-8".as_bytes()),
        ErrorKind::BadEntryPoint => slice_to_vec("Wrong entry point: invalid UTF-8".as_bytes()),
        ErrorKind::BadSql => slice_to_vec("Wrong SQL: invalid UTF-8".as_bytes()),
        ErrorKind::BadParamName => slice_to_vec("Wrong named string: invalid UTF-8".as_bytes()),
        ErrorKind::BadParamValue => slice_to_vec("Wrong param value: invalid UTF-8".as_bytes()),
        ErrorKind::NotAnInteger => slice_to_vec("Value not an integer".as_bytes()),
        ErrorKind::NotAFloat => slice_to_vec("Value not a float".as_bytes()),
        ErrorKind::NotAString => slice_to_vec("Value not a string".as_bytes()),
        ErrorKind::NotABlob => slice_to_vec("Value not a blob".as_bytes()),
        ErrorKind::InvalidText => slice_to_vec("Invalid string: interior nul byte".as_bytes()),
        ErrorKind::ValueFetch => slice_to_vec("Error fetching value: no such column".as_bytes()),
        ErrorKind::ColumnNameMissing => slice_to_vec("Column should have valid index".as_bytes()),
        ErrorKind::InvalidColumnName => slice_to_vec("Invalid name: interior nul byte".as_bytes()),
        ErrorKind::SyncFailed => slice_to_vec("Error syncing database: ".as_bytes()),
        ErrorKind::OpenFailed => slice_to_vec("Error opening URL: ".as_bytes()),
        ErrorKind::ConnectFailed => slice_to_vec("Unable to connect: ".as_bytes()),
        ErrorKind::ExtensionFailed => slice_to_vec("Error loading extension: ".as_bytes()),
        ErrorKind::TransactionFailed => slice_to_vec("Error creating transaction: ".as_bytes()),
        ErrorKind::StatementFailed => slice_to_vec("Error executing statement: ".as_bytes()),
        ErrorKind::PrepareFailed => slice_to_vec("Error preparing statement: ".as_bytes()),
        ErrorKind::NextRowFailed => slice_to_vec("Error fetching next row: ".as_bytes()),
        ErrorKind::CommitFailed => slice_to_vec("Transaction Commit: ".as_bytes()),
        ErrorKind::RollbackFailed => slice_to_vec("Transaction Rollback: ".as_bytes()),
    }
}

/// Appends `more` to `out`.
pub fn append_bytes(out: &mut Vec<u8>, more: &[u8])
    ensures
        final(out)@ == old(out)@ + more@,
{
    let n = more.len();
    let mut i: usize = 0;
    proof {
        assert(out@ =~= old(out)@ + more@.take(0));
    }
    while i < n
        invariant
            i <= n,
            n == more@.len(),
            out@ == old(out)@ + more@.take(i as int),
        decreases n - i,
    {
        let b = more[i];
        out.push(b);
        proof {
            assert(out@ =~= old(out)@ + more@.take(i as int + 1));
        }
        i = i + 1;
    }
    proof {
        assert(more@.take(n as int) =~= more@);
    }
}

/// The decimal rendering of a non-negative number, as ASCII digits.
pub open spec fn dec_rep(n: int) -> Seq<u8>
    recommends
        n >= 0,
    decreases n,
{
    if n < 10 {
        seq![(48 + n) as u8]
    } else {
        dec_rep(n / 10).push((48 + n % 10) as u8)
    }
}

/// Appends the decimal rendering of `n` to `out`.
pub fn push_dec(out: &mut Vec<u8>, n: u32)
    ensures
        final(out)@ == old(out)@ + dec_rep(n as int),
    decreases n,
{
    if n < 10 {
        out.push(48 + (n as u8));
        proof {
            assert(out@ =~= old(out)@ + dec_rep(n as int));
        }
    } else {
        let q = n / 10;
        let r = n % 10;
        push_dec(out, q);
        out.push(48 + (r as u8));
        proof {
            assert(out@ =~= old(out)@ + dec_rep(n as int));
        }
    }
}

/// The bounds-error message of the value marshaler: it names the
/// requested index and the valid column count.
pub open spec fn column_range_message(col: int, count: int) -> Seq<u8> {
    "Column index too big - got index ".spec_bytes() + dec_rep(col) + " with ".spec_bytes()
        + dec_rep(count) + " columns".spec_bytes()
}

/// Renders the bounds-error message for a request of column `col`
/// against `count` columns.
pub fn render_column_range(col: i32, count: i32) -> (m: Vec<u8>)
    requires
        0 <= count <= col,
    ensures
        m@ == column_range_message(col as int, count as int),
{
    let mut m = slice_to_vec("Column index too big - got index ".as_bytes());
    push_dec(&mut m, col as u32);
    append_bytes(&mut m, " with ".as_bytes());
    push_dec(&mut m, count as u32);
    append_bytes(&mut m, " columns".as_bytes());
    proof {
        assert(m@ =~= column_range_message(col as int, count as int));
    }
    m
}

/// The message an engine failure reports: the operation label followed
/// by the engine's own rendering of the error.
pub open spec fn engine_message_of(k: ErrorKind, detail: Seq<u8>) -> Seq<u8> {
    message_of(k) + detail
}

/// Renders an engine failure message.
pub fn engine_message_for(k: &ErrorKind, detail: &[u8]) -> (m: Vec<u8>)
    ensures
        m@ == engine_message_of(*k, detail@),
{
    let mut m = message_for(k);
    append_bytes(&mut m, detail);
    m
}

/// Relates an error slot before and after a failing call that reported
/// the message `m`: the diagnostic is written exactly when the caller
/// asked for one, and discarded otherwise.
pub open spec fn recorded(pre: ErrorOut, post: ErrorOut, m: Seq<u8>) -> bool {
    &&& post.enabled() == pre.enabled()
    &&& post.msg() == if pre.enabled() {
        Some(m)
    } else {
        pre.msg()
    }
}

/// The nullable error-message out-parameter of one boundary call.
pub struct ErrorOut {
    enabled: bool,
    message: Option<Vec<u8>>,
}

impl ErrorOut {
    /// Whether the caller supplied a place for a diagnostic.
    pub closed spec fn enabled(self) -> bool {
        self.enabled
    }

    /// The recorded message, if one has been written.
    pub closed spec fn msg(self) -> Option<Seq<u8>> {
        match self.message {
            Some(m) => Some(m@),
            None => None,
        }
    }

    /// An error slot the caller wants filled on failure.
    pub fn wanted() -> (e: Self)
        ensures
            e.enabled(),
            e.msg() is None,
    {
        ErrorOut { enabled: true, message: None }
    }

    /// A discarded error slot: the caller passed no place for a message.
    pub fn ignored() -> (e: Self)
        ensures
            !e.enabled(),
            e.msg() is None,
    {
        ErrorOut { enabled: false, message: None }
    }

    /// Records a diagnostic: written only if the caller asked for one,
    /// exactly as the boundary convention writes through a non-null
    /// pointer and discards otherwise.
    pub fn record(&mut self, m: Vec<u8>)
        ensures
            final(self).enabled() == old(self).enabled(),
            final(self).msg() == if old(self).enabled() {
                Some(m@)
            } else {
                old(self).msg()
            },
    {
        if self.enabled {
            self.message = Some(m);
        }
    }

    /// Takes the recorded message out, for the shim to hand to the
    /// caller as an owned buffer.
    pub fn take_message(&mut self) -> (r: Option<Vec<u8>>)
        ensures
            final(self).enabled() == old(self).enabled(),
            final(self).msg() is None,
            match r {
                Some(m) => old(self).msg() == Some(m@),
                None => old(self).msg() is None,
            },
    {
        let mut out: Option<Vec<u8>> = None;
        core::mem::swap(&mut out, &mut self.message);
        out
    }
}

} // verus!
