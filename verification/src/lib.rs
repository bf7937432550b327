//! Core machinery of a replicated request-execution service: an at-most-once
//! execution layer that deduplicates client retries, and a primary-backup
//! replication layer that keeps a standby replica in sync and hands the
//! primary role over safely on reconfiguration.
//!
//! The transport, the view service and the timers are collaborators: the state
//! machines here record every message they hand out through context traits,
//! and their contracts say exactly which messages each transition emits.
use vstd::prelude::*;

pub mod amo;
pub mod pb;
pub mod table;

verus! {

/// An application operation. The payload is an opaque code; the protocol
/// never inspects it.
#[derive(Clone, Copy, Debug, PartialEq, Eq, Structural)]
pub struct Op(pub u64);

/// An application result.
#[derive(Clone, Copy, Debug, PartialEq, Eq, Structural)]
pub struct Res(pub u64);

/// The application state machine. It records every operation it has been
/// asked to execute, so that "executed at most once" is visible in its view.
#[derive(Debug)]
pub struct App {
    history: Vec<u64>,
}

impl View for App {
    type V = Seq<u64>;

    closed spec fn view(&self) -> Seq<u64> {
        self.history@
    }
}

impl App {
    pub fn new() -> (a: App)
        ensures
            a@ == Seq::<u64>::empty(),
    {
        App { history: Vec::new() }
    }

    /// Apply one operation. The result is a deterministic function of the
    /// operation alone; the history grows by exactly this operation.
    pub fn execute(&mut self, op: Op) -> (r: Res)
        ensures
            final(self)@ == old(self)@.push(op.0),
            r == Res(op.0),
    {
        self.history.push(op.0);
        Res(op.0)
    }

    /// How many operations have been executed so far.
    pub fn execution_count(&self) -> (n: usize)
        ensures
            n == self@.len(),
    {
        self.history.len()
    }
}

/// Marker for an invocation request handed to a client session.
#[derive(Clone, Copy, Debug)]
pub struct Invoke;

/// A client network address, for delivering replies.
#[derive(Clone, Copy, Debug, PartialEq, Eq, Structural)]
pub struct Addr(pub u64);

/// A replica or client identity.
#[derive(Clone, Copy, Debug, PartialEq, Eq, Structural)]
pub struct Id(pub u64);

} // verus!
