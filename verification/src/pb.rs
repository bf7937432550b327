//! Primary-backup replication: message shapes shared by clients and replicas,
//! and the replica role state machine in `replica`.
use vstd::prelude::*;

pub mod replica;

verus! {

/// A client's numbered operation, addressed to the current primary.
#[derive(Clone, Copy, Debug, PartialEq, Eq, Structural)]
pub struct Request {
    pub id: crate::Id,
    pub seq: u32,
    pub op: crate::Op,
    pub client_addr: crate::Addr,
}

/// The outcome of a numbered request.
#[derive(Clone, Copy, Debug, PartialEq, Eq, Structural)]
pub struct Reply {
    pub seq: u32,
    pub result: crate::Res,
}

/// A query for the current view, sent to the view service.
#[derive(Clone, Copy, Debug)]
pub struct Query;

/// A liveness probe carrying the sender's identity.
#[derive(Clone, Copy, Debug, PartialEq, Eq, Structural)]
pub struct Ping {
    pub id: crate::Id,
}

/// The view service's assignment of roles for one view number.
#[derive(Clone, Copy, Debug, PartialEq, Eq, Structural)]
pub struct ViewReply {
    pub num: u32,
    pub primary_id: crate::Id,
    pub backup_id: Option<crate::Id>,
}

} // verus!
