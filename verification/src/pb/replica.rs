//! The replica side of primary-backup replication: per-client typestates for
//! the primary and the backup, and the role state machine that governs
//! promotion and state transfer.
//!
//! The primary executes and replies as soon as the sync message for an
//! operation is handed to the transport; it does not wait for the backup's
//! acknowledgement (`SyncOkUpTo`), which only reports replication progress.
use vstd::prelude::*;

use crate::pb::{Reply, Request};
use crate::table::Table;

verus! {

/// One replicated operation, primary to backup.
#[derive(Clone, Copy, Debug, PartialEq, Eq, Structural)]
pub struct SyncOp {
    pub sync_seq: u32,
    pub client_id: crate::Id,
    pub op: crate::Op,
}

/// Replication progress acknowledgement, backup to primary.
#[derive(Clone, Copy, Debug, PartialEq, Eq, Structural)]
pub struct SyncOkUpTo {
    pub sync_seq: u32,
}

/// Full state transfer at promotion: the application snapshot and the
/// per-client reply cache.
#[derive(Debug)]
pub struct SyncApp {
    pub app: crate::App,
    pub replying: Table<BReplying>,
}

/// Everything a replica can hand to its transport, in sending order.
#[derive(Debug)]
pub enum Sent {
    SentReply(crate::Addr, Reply),
    SentSyncOp(crate::Id, SyncOp),
    SentSyncOk(crate::Id, SyncOkUpTo),
    SentSyncApp(crate::Id, crate::App, Table<BReplying>),
    SentSyncAppOk(crate::Id),
}

/// The transport a replica hands its outbound traffic to. Its view is the
/// sequence of messages sent so far; each method appends exactly one.
pub trait Context {
    spec fn log(&self) -> Seq<Sent>;

    fn send_reply(&mut self, addr: crate::Addr, reply: Reply)
        ensures
            final(self).log() == old(self).log().push(Sent::SentReply(addr, reply)),
    ;

    fn sync_op(&mut self, id: crate::Id, seq: u32, client_id: crate::Id, op: crate::Op)
        ensures
            final(self).log() == old(self).log().push(
                Sent::SentSyncOp(id, SyncOp { sync_seq: seq, client_id, op }),
            ),
    ;

    fn sync_op_ok(&mut self, id: crate::Id, up_to: u32)
        ensures
            final(self).log() == old(self).log().push(
                Sent::SentSyncOk(id, SyncOkUpTo { sync_seq: up_to }),
            ),
    ;

    fn sync_app(&mut self, id: crate::Id, app: crate::App, replying: Table<BReplying>)
        ensures
            final(self).log() == old(self).log().push(Sent::SentSyncApp(id, app, replying)),
    ;

    fn sync_app_ok(&mut self, id: crate::Id)
        ensures
            final(self).log() == old(self).log().push(Sent::SentSyncAppOk(id)),
    ;
}

/// A recording replica transport: it keeps every message instead of
/// delivering it.
#[derive(Debug)]
pub struct ReplicaOutbox {
    pub log: Vec<Sent>,
}

impl ReplicaOutbox {
    pub fn new() -> (c: ReplicaOutbox)
        ensures
            c.log() == Seq::<Sent>::empty(),
    {
        ReplicaOutbox { log: Vec::new() }
    }
}

impl Context for ReplicaOutbox {
    open spec fn log(&self) -> Seq<Sent> {
        self.log@
    }

    fn send_reply(&mut self, addr: crate::Addr, reply: Reply) {
        self.log.push(Sent::SentReply(addr, reply));
    }

    fn sync_op(&mut self, id: crate::Id, seq: u32, client_id: crate::Id, op: crate::Op) {
        self.log.push(Sent::SentSyncOp(id, SyncOp { sync_seq: seq, client_id, op }));
    }

    fn sync_op_ok(&mut self, id: crate::Id, up_to: u32) {
        self.log.push(Sent::SentSyncOk(id, SyncOkUpTo { sync_seq: up_to }));
    }

    fn sync_app(&mut self, id: crate::Id, app: crate::App, replying: Table<BReplying>) {
        self.log.push(Sent::SentSyncApp(id, app, replying));
    }

    fn sync_app_ok(&mut self, id: crate::Id) {
        self.log.push(Sent::SentSyncAppOk(id));
    }
}

/// Primary-side per-client state: the last sequence number answered for this
/// client, 0 before any.
#[derive(Clone, Copy, Debug, PartialEq, Eq, Structural)]
pub struct PReplied(pub u32);

/// Primary-side per-client state: a strictly newer operation accepted, its
/// sync message sent (when a backup exists), execution still pending.
#[derive(Clone, Copy, Debug, PartialEq, Eq, Structural)]
pub struct PBackingUp(pub u32, pub crate::Op, pub crate::Addr);

/// Primary-side per-client state: the operation executed and its result
/// cached for retransmissions.
#[derive(Clone, Copy, Debug, PartialEq, Eq, Structural)]
pub struct PReplying(pub u32, pub crate::Res);

/// Backup-side per-client state: an operation received from the primary's
/// sync stream, not yet applied.
#[derive(Clone, Copy, Debug, PartialEq, Eq, Structural)]
pub struct BBackingUp(pub u32, pub crate::Op);

/// Backup-side per-client state: the operation applied locally, its result
/// cached. No reply is sent while this replica remains a backup.
#[derive(Clone, Copy, Debug, PartialEq, Eq, Structural)]
pub struct BReplying(pub u32, pub crate::Res);

impl PReplied {
    pub fn new() -> (s: PReplied)
        ensures
            s == PReplied(0),
    {
        PReplied(0)
    }

    /// Accept a strictly newer request and stream its operation to the
    /// backup under the primary-local sync number.
    pub fn request<C: Context>(
        self,
        request: Request,
        sync_seq: u32,
        backup_id: crate::Id,
        context: &mut C,
    ) -> (s: PBackingUp)
        requires
            request.seq > self.0,
        ensures
            s == PBackingUp(request.seq, request.op, request.client_addr),
            final(context).log() == old(context).log().push(
                Sent::SentSyncOp(
                    backup_id,
                    SyncOp { sync_seq, client_id: request.id, op: request.op },
                ),
            ),
    {
        context.sync_op(backup_id, sync_seq, request.id, request.op);
        PBackingUp(request.seq, request.op, request.client_addr)
    }

    /// Accept a strictly newer request when the view has no backup: nothing
    /// to stream, no message sent.
    pub fn request_no_sync(self, request: Request) -> (s: PBackingUp)
        requires
            request.seq > self.0,
        ensures
            s == PBackingUp(request.seq, request.op, request.client_addr),
    {
        PBackingUp(request.seq, request.op, request.client_addr)
    }
}

impl PBackingUp {
    /// Execute the accepted operation, reply to the client, and cache the
    /// result.
    pub fn execute<C: Context>(self, app: &mut crate::App, context: &mut C) -> (s: PReplying)
        ensures
            s == PReplying(self.0, crate::Res(self.1.0)),
            final(app)@ == old(app)@.push(self.1.0),
            final(context).log() == old(context).log().push(
                Sent::SentReply(self.2, Reply { seq: self.0, result: crate::Res(self.1.0) }),
            ),
    {
        let PBackingUp(seq, op, addr) = self;
        let result = app.execute(op);
        let reply = Reply { seq, result };
        context.send_reply(addr, reply);
        PReplying(seq, result)
    }
}

impl BBackingUp {
    /// Adopt one operation from an inbound sync message.
    pub fn new(seq: u32, op: crate::Op) -> (s: BBackingUp)
        ensures
            s == BBackingUp(seq, op),
    {
        BBackingUp(seq, op)
    }

    /// Apply the operation locally. Unlike the primary, a backup sends
    /// nothing: only the primary answers clients.
    pub fn execute(self, app: &mut crate::App) -> (s: BReplying)
        ensures
            s == BReplying(self.0, crate::Res(self.1.0)),
            final(app)@ == old(app)@.push(self.1.0),
    {
        let BBackingUp(seq, op) = self;
        BReplying(seq, app.execute(op))
    }
}

impl PReplying {
    /// Resend the cached reply unchanged; the application is not consulted.
    pub fn reply<C: Context>(self, addr: crate::Addr, context: &mut C) -> (s: PReplying)
        ensures
            s == self,
            final(context).log() == old(context).log().push(
                Sent::SentReply(addr, Reply { seq: self.0, result: self.1 }),
            ),
    {
        let PReplying(seq, result) = self;
        let reply = Reply { seq, result };
        context.send_reply(addr, reply);
        PReplying(seq, result)
    }

    /// The client has moved past this result: collapse to the answered state
    /// at the same number, ready to admit the newer request.
    pub fn received(self) -> (s: PReplied)
        ensures
            s == PReplied(self.0),
    {
        PReplied(self.0)
    }

    /// Has the client moved past the cached result?
    pub fn is_received(&self, seq: u32) -> (r: bool)
        ensures
            r == (seq > self.0),
    {
        seq > self.0
    }

    /// Does this number repeat the cached result's request?
    pub fn is_replying(&self, seq: u32) -> (r: bool)
        ensures
            r == (seq == self.0),
    {
        seq == self.0
    }
}

/// What a backup-side cache entry becomes on promotion: the same sequence
/// number and the same result, lifted to the primary-side representation.
pub open spec fn promote_spec(b: BReplying) -> PReplying {
    PReplying(b.0, b.1)
}

/// A whole backup-side cache lifted to the primary side, entry by entry.
pub open spec fn promoted_cache(cache: Map<u64, BReplying>) -> Map<u64, PReplying> {
    Map::new(|k: u64| cache.contains_key(k), |k: u64| promote_spec(cache[k]))
}

impl BReplying {
    /// Lift this cached result into the primary-side representation, so a
    /// freshly promoted primary can answer a retry without re-executing.
    pub fn promote(self) -> (s: PReplying)
        ensures
            s == promote_spec(self),
    {
        let BReplying(seq, result) = self;
        PReplying(seq, result)
    }
}

/// Lift a whole backup-side cache to the primary side, entry by entry.
fn promote_table(t: Table<BReplying>) -> (r: Table<PReplying>)
    requires
        t.wf(),
    ensures
        r.wf(),
        r@ == promoted_cache(t@),
{
    let ghost t0 = t@;
    let entries = t.into_entries();
    let mut r = Table::<PReplying>::new();
    let n = entries.len();
    let mut i: usize = 0;
    while i < n
        invariant
            r.wf(),
            0 <= i <= n,
            n == entries@.len(),
            forall|p: int, q: int| 0 <= p < q < entries@.len() ==> entries@[p].0 != entries@[q].0,
            forall|p: int|
                0 <= p < entries@.len() ==> t0.contains_key(entries@[p].0) && t0[entries@[p].0]
                    == entries@[p].1,
            forall|k: u64|
                t0.contains_key(k) ==> exists|p: int|
                    0 <= p < entries@.len() && entries@[p].0 == k,
            forall|k: u64|
                r@.contains_key(k) ==> exists|p: int| 0 <= p < i && entries@[p].0 == k,
            forall|p: int|
                0 <= p < i ==> r@.contains_key(entries@[p].0) && r@[entries@[p].0] == promote_spec(
                    t0[entries@[p].0],
                ),
        decreases n - i,
    {
        let e = entries[i];
        r.set(e.0, e.1.promote());
        i = i + 1;
    }
    proof {
        assert forall|k: u64| #[trigger]
            r@.contains_key(k) == promoted_cache(t0).contains_key(k) by {
            if t0.contains_key(k) {
                let p = choose|p: int| 0 <= p < entries@.len() && entries@[p].0 == k;
                assert(r@.contains_key(entries@[p].0));
            }
            if r@.contains_key(k) {
                let p = choose|p: int| 0 <= p < n && entries@[p].0 == k;
                assert(t0.contains_key(entries@[p].0));
            }
        }
        assert forall|k: u64| r@.contains_key(k) implies r@[k] == promoted_cache(t0)[k] by {
            let p = choose|p: int| 0 <= p < n && entries@[p].0 == k;
            assert(r@[entries@[p].0] == promote_spec(t0[entries@[p].0]));
        }
        assert(r@ =~= promoted_cache(t0));
    }
    r
}

/// The active replica: it executes client operations, streams them to the
/// backup, and answers clients. The sync counters are local to this
/// incarnation: every way of becoming primary starts them at 0.
#[derive(Debug)]
pub struct Primary {
    pub prepared_seq: u32,
    pub committed_seq: u32,
    pub backing_up: Table<PBackingUp>,
    pub replying: Table<PReplying>,
}

/// The standby replica: it applies the primary's sync stream and keeps the
/// per-client results ready for a takeover.
#[derive(Debug)]
pub struct Backup {
    pub committed_seq: u32,
    pub backing_up: Table<BBackingUp>,
    pub replying: Table<BReplying>,
}

/// A backup that was named primary in a new view and has sent the full state
/// transfer to its successor backup, awaiting the acknowledgement.
#[derive(Debug)]
pub struct Promoting {
    pub backup_id: crate::Id,
    pub replying: Table<BReplying>,
}

/// A replica that serves no role yet; the only valid initial state.
#[derive(Clone, Copy, Debug)]
pub struct Idle;

impl Backup {
    /// Named primary in a new view that also assigns a successor backup:
    /// send it the full state transfer and park until it acknowledges.
    pub fn promote<C: Context>(
        self,
        backup_id: crate::Id,
        app: crate::App,
        replying: Table<BReplying>,
        context: &mut C,
    ) -> (p: Promoting)
        ensures
            p.backup_id == backup_id,
            p.replying == self.replying,
            final(context).log() == old(context).log().push(
                Sent::SentSyncApp(backup_id, app, replying),
            ),
    {
        context.sync_app(backup_id, app, replying);
        Promoting { backup_id, replying: self.replying }
    }

    /// Named primary in a new view that assigns no backup at all: upgrade
    /// every cached result directly, with fresh sync counters.
    pub fn promote_no_sync(self) -> (p: Primary)
        requires
            self.replying.wf(),
        ensures
            p.prepared_seq == 0,
            p.committed_seq == 0,
            p.backing_up@ == Map::<u64, PBackingUp>::empty(),
            p.backing_up.wf(),
            p.replying.wf(),
            p.replying@ == promoted_cache(self.replying@),
    {
        Primary {
            prepared_seq: 0,
            committed_seq: 0,
            backing_up: Table::new(),
            replying: promote_table(self.replying),
        }
    }
}

impl Promoting {
    /// The new backup acknowledged the state transfer: become primary,
    /// upgrading every cached result, with fresh sync counters.
    pub fn promoted(self) -> (p: Primary)
        requires
            self.replying.wf(),
        ensures
            p.prepared_seq == 0,
            p.committed_seq == 0,
            p.backing_up@ == Map::<u64, PBackingUp>::empty(),
            p.backing_up.wf(),
            p.replying.wf(),
            p.replying@ == promoted_cache(self.replying@),
    {
        Primary {
            prepared_seq: 0,
            committed_seq: 0,
            backing_up: Table::new(),
            replying: promote_table(self.replying),
        }
    }
}

impl Idle {
    /// Serve the very first view as primary, with nothing inherited.
    pub fn start_primary(self) -> (p: Primary)
        ensures
            p.prepared_seq == 0,
            p.committed_seq == 0,
            p.backing_up@ == Map::<u64, PBackingUp>::empty(),
            p.backing_up.wf(),
            p.replying@ == Map::<u64, PReplying>::empty(),
            p.replying.wf(),
    {
        Primary {
            prepared_seq: 0,
            committed_seq: 0,
            backing_up: Table::new(),
            replying: Table::new(),
        }
    }

    /// Adopt a full state transfer from a live primary: become its backup
    /// with exactly the transferred reply cache, and acknowledge it with one
    /// message.
    pub fn load<C: Context>(
        self,
        replying: Table<BReplying>,
        primary_id: crate::Id,
        context: &mut C,
    ) -> (b: Backup)
        ensures
            b.committed_seq == 0,
            b.backing_up@ == Map::<u64, BBackingUp>::empty(),
            b.backing_up.wf(),
            b.replying == replying,
            final(context).log() == old(context).log().push(Sent::SentSyncAppOk(primary_id)),
    {
        context.sync_app_ok(primary_id);
        Backup { committed_seq: 0, backing_up: Table::new(), replying }
    }
}

/// The one role a replica holds at any instant.
#[derive(Debug)]
pub enum RoleState {
    Idle(Idle),
    Primary(Primary),
    Backup(Backup),
    Promoting(Promoting),
}

/// One replica process: its identity, its current role, and the application
/// it owns.
#[derive(Debug)]
pub struct State {
    pub id: crate::Id,
    pub role: RoleState,
    pub app: crate::App,
}

impl State {
    pub fn new(id: crate::Id, app: crate::App) -> (s: State)
        ensures
            s.id == id,
            s.role is Idle,
            s.app@ == app@,
    {
        State { id, app, role: RoleState::Idle(Idle) }
    }
}

/// Promotion preserves answers: a client's cached backup-side result
/// survives promotion under the same sequence number with the identical
/// result, so a retransmission of that request repeats the cached reply
/// (`is_replying`, then `reply`) instead of re-executing.
pub proof fn lemma_promotion_preserves_answers(cache: Map<u64, BReplying>, client: u64)
    requires
        cache.contains_key(client),
    ensures
        promoted_cache(cache).contains_key(client),
        promoted_cache(cache)[client].0 == cache[client].0,
        promoted_cache(cache)[client].1 == cache[client].1,
{
}

} // verus!
