//! The query-execution discipline: every database operation borrows a
//! pooled connection for exactly the span of one prepare→execute→collect
//! sequence, and hands it back on every outcome — success, logical
//! failure, or infrastructure error.  The pool is modelled by acquire
//! and release counters, so the discipline is stated as: the two
//! counters advance together, and a run never changes how many
//! connections are outstanding.

use vstd::prelude::*;

use crate::errors::DbFailure;

verus! {

/// Attaches a companion value to either side of a result, so an owned
/// resource can travel alongside an outcome.
pub fn tack_on<T, E, A>(src: Result<T, E>, add: A) -> (r: Result<(T, A), (E, A)>)
    ensures
        match src {
            Ok(v) => r matches Ok(p) && p.0 == v && p.1 == add,
            Err(e) => r matches Err(p) && p.0 == e && p.1 == add,
        },
{
    match src {
        Ok(value) => Ok((value, add)),
        Err(err) => Err((err, add)),
    }
}

/// Instrumented view of the connection pool: how many connections it
/// has handed out and how many have come back.
#[derive(Debug, PartialEq, Eq, Structural, Clone, Copy)]
pub struct PoolCounters {
    pub acquired: u64,
    pub released: u64,
}

/// Proof that one connection is currently borrowed from the pool; only
/// `PoolCounters::acquire` creates one, and `release` consumes it.
pub struct Lease {
    held: (),
}

impl PoolCounters {
    /// Nothing released that was never acquired.
    pub open spec fn wf(&self) -> bool {
        self.released <= self.acquired
    }

    /// Connections currently out of the pool.
    pub open spec fn outstanding(&self) -> int {
        self.acquired - self.released
    }

    /// A fresh pool: nothing handed out.
    pub fn new() -> (p: PoolCounters)
        ensures
            p == (PoolCounters { acquired: 0, released: 0 }),
    {
        PoolCounters { acquired: 0, released: 0 }
    }

    /// One acquisition attempt; `granted` says whether the pool handed
    /// a connection out before its deadline.
    pub fn acquire(&mut self, granted: bool) -> (r: Option<Lease>)
        requires
            old(self).acquired < u64::MAX,
        ensures
            granted ==> r is Some && final(self).acquired == old(self).acquired + 1,
            granted ==> final(self).released == old(self).released,
            !granted ==> r is None && *final(self) == *old(self),
    {
        if granted {
            self.acquired = self.acquired + 1;
            Some(Lease { held: () })
        } else {
            None
        }
    }

    /// Returns a borrowed connection.
    pub fn release(&mut self, lease: Lease) -> (u: ())
        requires
            old(self).released < u64::MAX,
        ensures
            final(self).released == old(self).released + 1,
            final(self).acquired == old(self).acquired,
    {
        let Lease { held: _ } = lease;
        self.released = self.released + 1;
    }
}

/// One pooled query operation.  A connection is acquired before the
/// operation and released after it on every outcome; an acquisition
/// timeout surfaces, like any database fault, as the executor's single
/// failure kind.  An operation whose answer is "no rows" is a success
/// here: whether an absent row is an error is the caller's decision.
pub fn run_query<R>(pool: &mut PoolCounters, granted: bool, outcome: Result<R, String>) -> (r:
    Result<R, DbFailure>)
    requires
        old(pool).acquired < u64::MAX,
        old(pool).released < u64::MAX,
    ensures
        old(pool).wf() ==> final(pool).wf(),
        final(pool).outstanding() == old(pool).outstanding(),
        !granted ==> *final(pool) == *old(pool) && r == Err::<R, DbFailure>(DbFailure::TimedOut),
        granted ==> final(pool).acquired == old(pool).acquired + 1,
        granted ==> final(pool).released == old(pool).released + 1,
        granted ==> r == (match outcome {
            Ok(rows) => Ok::<R, DbFailure>(rows),
            Err(detail) => Err::<R, DbFailure>(DbFailure::Query(detail)),
        }),
{
    match pool.acquire(granted) {
        None => Err(DbFailure::TimedOut),
        Some(lease) => {
            let result = match outcome {
                Ok(rows) => Ok(rows),
                Err(detail) => Err(DbFailure::Query(detail)),
            };
            pool.release(lease);
            result
        },
    }
}

} // verus!
