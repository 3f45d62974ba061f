//! The batch result iterator.
//!
//! Executing a semicolon-delimited batch yields one result set per
//! statement, in order, until the batch either runs out of statements
//! or fails part-way.  The iterator below is a pull-based state machine
//! over that sequence: each `advance` consumes one statement's result
//! and moves strictly forward.  Three outcomes are possible: another
//! result set (itself possibly empty of rows), a "no more results"
//! signal that is still a success, or the batch's failure — which is
//! reported after every result produced before it, and from then on;
//! the statements behind the failure are never reached.

use vstd::prelude::*;

verus! {

/// What one `advance` of a batch iterator yields.
pub enum BatchStep<T> {
    /// The next statement's result set: `Some` when the statement
    /// produced rows, `None` when it produced none.
    Advanced(Option<T>),
    /// Every statement's result has been consumed; success, no result.
    Exhausted,
    /// The batch failed after the results already delivered, with the
    /// engine's message.
    Failed(Vec<u8>),
}

/// The ordered sequence of result sets of one batch execution.
pub struct BatchIter<T> {
    rest: Vec<Option<T>>,
    failure: Option<Vec<u8>>,
}

impl<T> BatchIter<T> {
    /// The results not yet delivered, next first.
    pub closed spec fn pending(self) -> Seq<Option<T>> {
        self.rest@
    }

    /// The failure that ended the batch early, if one did.
    pub closed spec fn failure_msg(self) -> Option<Seq<u8>> {
        match self.failure {
            Some(m) => Some(m@),
            None => None,
        }
    }

    /// Builds the iterator from the statement results the engine
    /// produced, in statement order, and the failure that stopped the
    /// batch, if any.
    pub fn new(results: Vec<Option<T>>, failure: Option<Vec<u8>>) -> (b: Self)
        ensures
            b.pending() == results@,
            b.failure_msg() == match failure {
                Some(m) => Some(m@),
                None => None,
            },
    {
        BatchIter { rest: results, failure }
    }

    /// Consumes the next statement's result and moves strictly forward:
    /// delivers every result produced before a failure, then the
    /// failure itself (again on every later call), or exhaustion.
    pub fn advance(&mut self) -> (r: BatchStep<T>)
        ensures
            final(self).failure_msg() == old(self).failure_msg(),
            old(self).pending().len() > 0 ==> (r matches BatchStep::Advanced(x) && x == old(
                self,
            ).pending()[0]) && final(self).pending() == old(self).pending().drop_first(),
            old(self).pending().len() == 0 ==> final(self).pending() == old(self).pending()
                && match old(self).failure_msg() {
                Some(m) => r matches BatchStep::Failed(v) && v@ == m,
                None => r matches BatchStep::Exhausted,
            },
    {
        if self.rest.len() > 0 {
            let x = self.rest.remove(0);
            proof {
                assert(self.pending() =~= old(self).pending().drop_first());
            }
            BatchStep::Advanced(x)
        } else {
            match &self.failure {
                Some(m) => BatchStep::Failed(m.clone()),
                None => BatchStep::Exhausted,
            }
        }
    }
}

} // verus!
