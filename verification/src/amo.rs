//! At-most-once execution: client sessions that number their requests, and a
//! server that executes each (client, seq) pair at most once, answering
//! retransmissions from a per-client reply cache.
use vstd::prelude::*;

verus! {

/// A client's numbered operation.
#[derive(Clone, Copy, Debug, PartialEq, Eq, Structural)]
pub struct Request {
    pub id: crate::Id,
    pub seq: u32,
    pub op: crate::Op,
    pub client_addr: crate::Addr,
}

/// The outcome of a numbered request.
#[derive(Clone, Copy, Debug, PartialEq, Eq, Structural)]
pub struct Reply {
    pub seq: u32,
    pub result: crate::Res,
}

/// Returned when a session transition is asked for from a state that does not
/// permit it.
#[derive(Clone, Copy, Debug, PartialEq, Eq, Structural)]
pub struct IllegalTransition;

/// The transport a client session hands its outbound traffic to. Its view is
/// the sequence of requests sent so far and the sequence of results delivered
/// to the invoker; each method appends to exactly one of them.
pub trait ClientContext {
    spec fn requests(&self) -> Seq<Request>;

    spec fn finalized(&self) -> Seq<crate::Res>;

    fn finalize_invoke(&mut self, result: crate::Res)
        ensures
            final(self).finalized() == old(self).finalized().push(result),
            final(self).requests() == old(self).requests(),
    ;

    fn send_to_server(&mut self, request: Request)
        ensures
            final(self).requests() == old(self).requests().push(request),
            final(self).finalized() == old(self).finalized(),
    ;
}

/// The transport a server hands replies to. Its view is the sequence of
/// (destination, reply) pairs sent so far.
pub trait ServerContext {
    spec fn sent(&self) -> Seq<(crate::Addr, Reply)>;

    fn send(&mut self, addr: crate::Addr, reply: Reply)
        ensures
            final(self).sent() == old(self).sent().push((addr, reply)),
    ;
}

/// A recording client transport: it keeps every message instead of delivering
/// it, so a caller can inspect exactly what a session emitted.
#[derive(Debug)]
pub struct ClientOutbox {
    pub requests: Vec<Request>,
    pub finalized: Vec<crate::Res>,
}

impl ClientOutbox {
    pub fn new() -> (c: ClientOutbox)
        ensures
            c.requests() == Seq::<Request>::empty(),
            c.finalized() == Seq::<crate::Res>::empty(),
    {
        ClientOutbox { requests: Vec::new(), finalized: Vec::new() }
    }
}

impl ClientContext for ClientOutbox {
    open spec fn requests(&self) -> Seq<Request> {
        self.requests@
    }

    open spec fn finalized(&self) -> Seq<crate::Res> {
        self.finalized@
    }

    fn finalize_invoke(&mut self, result: crate::Res) {
        self.finalized.push(result);
    }

    fn send_to_server(&mut self, request: Request) {
        self.requests.push(request);
    }
}

/// A recording server transport.
#[derive(Debug)]
pub struct ServerOutbox {
    pub sent: Vec<(crate::Addr, Reply)>,
}

impl ServerOutbox {
    pub fn new() -> (c: ServerOutbox)
        ensures
            c.sent() == Seq::<(crate::Addr, Reply)>::empty(),
    {
        ServerOutbox { sent: Vec::new() }
    }
}

impl ServerContext for ServerOutbox {
    open spec fn sent(&self) -> Seq<(crate::Addr, Reply)> {
        self.sent@
    }

    fn send(&mut self, addr: crate::Addr, reply: Reply) {
        self.sent.push((addr, reply));
    }
}

/// A session that has received the reply for its last request; `seq` is that
/// request's number, 0 before any request.
#[derive(Clone, Copy, Debug, PartialEq, Eq, Structural)]
pub struct Replied(pub u32);

/// A session with one request in flight: its number and its operation, kept
/// for resending.
#[derive(Clone, Copy, Debug, PartialEq, Eq, Structural)]
pub struct WaitingReply(pub u32, pub crate::Op);

impl Replied {
    pub fn new() -> (s: Replied)
        ensures
            s == Replied(0),
    {
        Replied(0)
    }

    /// Assign the next sequence number, send the numbered request, and wait
    /// for its reply. The one request sent is the one the successor state
    /// remembers.
    pub fn request<C: ClientContext>(
        self,
        id: crate::Id,
        op: crate::Op,
        client_addr: crate::Addr,
        context: &mut C,
    ) -> (s: WaitingReply)
        requires
            self.0 < u32::MAX,
        ensures
            s == WaitingReply((self.0 + 1) as u32, op),
            final(context).requests() == old(context).requests().push(
                Request { id, seq: (self.0 + 1) as u32, op, client_addr },
            ),
            final(context).finalized() == old(context).finalized(),
    {
        let seq = self.0 + 1;
        let request = Request { id, seq, op, client_addr };
        context.send_to_server(request);
        WaitingReply(seq, op)
    }
}

impl WaitingReply {
    /// Accept the matching reply: deliver the result to the invoker and
    /// settle at the same sequence number.
    pub fn replied<C: ClientContext>(self, result: crate::Res, context: &mut C) -> (s: Replied)
        ensures
            s == Replied(self.0),
            final(context).finalized() == old(context).finalized().push(result),
            final(context).requests() == old(context).requests(),
    {
        context.finalize_invoke(result);
        Replied(self.0)
    }

    /// Resend the outstanding request unchanged: same number, same operation.
    pub fn timeout<C: ClientContext>(
        self,
        id: crate::Id,
        client_addr: crate::Addr,
        context: &mut C,
    ) -> (s: WaitingReply)
        ensures
            s == self,
            final(context).requests() == old(context).requests().push(
                Request { id, seq: self.0, op: self.1, client_addr },
            ),
            final(context).finalized() == old(context).finalized(),
    {
        let WaitingReply(seq, op) = self;
        let request = Request { id, seq, op, client_addr };
        context.send_to_server(request);
        WaitingReply(seq, op)
    }

    /// Does this reply number answer the outstanding request?
    pub fn is_replied(&self, seq: u32) -> (r: bool)
        ensures
            r == (seq == self.0),
    {
        seq == self.0
    }
}

/// A server-side per-client cache entry: the highest sequence number executed
/// for the client, and its result, kept for retransmissions.
#[derive(Clone, Copy, Debug, PartialEq, Eq, Structural)]
pub struct Replying(pub u32, pub crate::Res);

impl Replied {
    /// Execute a strictly newer operation against the application, reply to
    /// the client, and cache the result under its sequence number. The caller
    /// vouches that the number advances; this is the only transition that
    /// touches the application.
    pub fn execute<C: ServerContext>(
        self,
        seq: u32,
        op: crate::Op,
        addr: crate::Addr,
        app: &mut crate::App,
        context: &mut C,
    ) -> (s: Replying)
        requires
            seq > self.0,
        ensures
            s == Replying(seq, crate::Res(op.0)),
            final(app)@ == old(app)@.push(op.0),
            final(context).sent() == old(context).sent().push(
                (addr, Reply { seq, result: crate::Res(op.0) }),
            ),
    {
        let result = app.execute(op);
        let reply = Reply { seq, result };
        context.send(addr, reply);
        Replying(seq, result)
    }
}

impl Replying {
    /// The client has moved past this result: collapse to the cleared state
    /// at the same number, ready to admit the newer request.
    pub fn received(self) -> (s: Replied)
        ensures
            s == Replied(self.0),
    {
        Replied(self.0)
    }

    /// Resend the cached reply unchanged; the application is not consulted.
    pub fn reply<C: ServerContext>(self, addr: crate::Addr, context: &mut C) -> (s: Replying)
        ensures
            s == self,
            final(context).sent() == old(context).sent().push(
                (addr, Reply { seq: self.0, result: self.1 }),
            ),
    {
        let Replying(seq, result) = self;
        let reply = Reply { seq, result };
        context.send(addr, reply);
        Replying(seq, result)
    }

    /// Has the client moved past the cached result?
    pub fn is_received(&self, seq: u32) -> (r: bool)
        ensures
            r == (seq > self.0),
    {
        seq > self.0
    }

    /// Does this number repeat the cached result's request?
    pub fn is_replying(&self, seq: u32) -> (r: bool)
        ensures
            r == (seq == self.0),
    {
        seq == self.0
    }
}

/// The abstract state of an at-most-once server: the operations the
/// application has executed, in order, and the per-client reply cache.
pub struct ServerModel {
    pub history: Seq<u64>,
    pub cache: Map<u64, Replying>,
}

/// The highest sequence number the server has executed for a client; 0 for a
/// client it has never served.
pub open spec fn stored_seq(cache: Map<u64, Replying>, client: u64) -> u32 {
    if cache.contains_key(client) {
        cache[client].0
    } else {
        0
    }
}

/// How one request moves the server's abstract state: a strictly newer
/// request executes and replaces the client's cache entry; anything else
/// leaves the state untouched.
pub open spec fn server_step(s: ServerModel, request: Request) -> ServerModel {
    if request.seq > stored_seq(s.cache, request.id.0) {
        ServerModel {
            history: s.history.push(request.op.0),
            cache: s.cache.insert(request.id.0, Replying(request.seq, crate::Res(request.op.0))),
        }
    } else {
        s
    }
}

/// The replies one request draws out: a strictly newer request is answered
/// with its fresh result; an older or repeated one with the cached reply, if
/// the client has one; a request below any cache entry, nothing.
pub open spec fn server_replies(s: ServerModel, request: Request) -> Seq<(crate::Addr, Reply)> {
    if request.seq > stored_seq(s.cache, request.id.0) {
        seq![(request.client_addr, Reply { seq: request.seq, result: crate::Res(request.op.0) })]
    } else if s.cache.contains_key(request.id.0) {
        seq![
            (
                request.client_addr,
                Reply { seq: s.cache[request.id.0].0, result: s.cache[request.id.0].1 },
            ),
        ]
    } else {
        Seq::empty()
    }
}

/// An at-most-once server: the application and the per-client reply cache.
#[derive(Debug)]
pub struct ServerState {
    pub app: crate::App,
    pub replying: crate::table::Table<Replying>,
}

impl View for ServerState {
    type V = ServerModel;

    open spec fn view(&self) -> ServerModel {
        ServerModel { history: self.app@, cache: self.replying@ }
    }
}

impl ServerState {
    pub open spec fn wf(&self) -> bool {
        self.replying.wf()
    }

    pub fn new(app: crate::App) -> (s: ServerState)
        ensures
            s.wf(),
            s@.history == app@,
            s@.cache == Map::<u64, Replying>::empty(),
    {
        ServerState { app, replying: crate::table::Table::new() }
    }

    /// Handle one client request: execute it exactly when its number is
    /// strictly above everything seen from that client, otherwise answer from
    /// the cache without touching the application.
    pub fn handle_request<C: ServerContext>(&mut self, request: Request, context: &mut C)
        requires
            old(self).wf(),
        ensures
            final(self).wf(),
            final(self)@ == server_step(old(self)@, request),
            final(context).sent() == old(context).sent() + server_replies(old(self)@, request),
    {
        let ghost s0 = self@;
        let ghost c0 = context.sent();
        let cached: Option<Replying> = match self.replying.get(request.id.0) {
            Some(state) => Some(*state),
            None => None,
        };
        match cached {
            Some(state) => {
                if state.is_received(request.seq) {
                    let state = state.received();
                    let state = state.execute(
                        request.seq,
                        request.op,
                        request.client_addr,
                        &mut self.app,
                        context,
                    );
                    self.replying.set(request.id.0, state);
                    proof {
                        assert(context.sent() =~= c0 + server_replies(s0, request));
                    }
                } else {
                    let state = state.reply(request.client_addr, context);
                    self.replying.set(request.id.0, state);
                    proof {
                        assert(self@.cache =~= s0.cache);
                        assert(context.sent() =~= c0 + server_replies(s0, request));
                    }
                }
            },
            None => {
                if request.seq > 0 {
                    let state = Replied::new().execute(
                        request.seq,
                        request.op,
                        request.client_addr,
                        &mut self.app,
                        context,
                    );
                    self.replying.set(request.id.0, state);
                    proof {
                        assert(context.sent() =~= c0 + server_replies(s0, request));
                    }
                } else {
                    proof {
                        assert(context.sent() =~= c0 + server_replies(s0, request));
                    }
                }
            },
        }
    }
}

/// Delivering the same request twice moves the server exactly as far as
/// delivering it once: the second delivery executes nothing and changes no
/// cache entry.
pub proof fn lemma_duplicate_step_changes_nothing(s: ServerModel, request: Request)
    ensures
        server_step(server_step(s, request), request) == server_step(s, request),
        server_step(server_step(s, request), request).history == server_step(s, request).history,
{
}

/// Where a delivery schedule leaves the server: the requests applied in
/// order.
pub open spec fn server_run(s: ServerModel, requests: Seq<Request>) -> ServerModel
    decreases requests.len(),
{
    if requests.len() == 0 {
        s
    } else {
        server_run(server_step(s, requests[0]), requests.drop_first())
    }
}

/// How many deliveries in the schedule reach the application as the given
/// (client, n) pair: those whose request carries that client and number at a
/// moment when the number is still strictly above the client's cache.
pub open spec fn executions_for(
    s: ServerModel,
    requests: Seq<Request>,
    client: u64,
    n: u32,
) -> nat
    decreases requests.len(),
{
    if requests.len() == 0 {
        0
    } else {
        let here: nat = if requests[0].id.0 == client && requests[0].seq == n && n > stored_seq(
            s.cache,
            client,
        ) {
            1
        } else {
            0
        };
        here + executions_for(server_step(s, requests[0]), requests.drop_first(), client, n)
    }
}

/// Once the client's cached number has reached n, no later delivery numbered
/// n can execute: the cache never moves backwards.
proof fn lemma_no_execution_once_reached(
    s: ServerModel,
    requests: Seq<Request>,
    client: u64,
    n: u32,
)
    requires
        stored_seq(s.cache, client) >= n,
    ensures
        executions_for(s, requests, client, n) == 0,
    decreases requests.len(),
{
    if requests.len() > 0 {
        lemma_monotonic_cache(s, requests[0], client);
        lemma_no_execution_once_reached(
            server_step(s, requests[0]),
            requests.drop_first(),
            client,
            n,
        );
    }
}

/// Exactly-once execution: whatever the delivery schedule — duplicates,
/// reorderings, interleavings with other clients — the application executes
/// a given (client, n) pair at most once.
pub proof fn lemma_exactly_once(s: ServerModel, requests: Seq<Request>, client: u64, n: u32)
    ensures
        executions_for(s, requests, client, n) <= 1,
    decreases requests.len(),
{
    if requests.len() > 0 {
        let s1 = server_step(s, requests[0]);
        if requests[0].id.0 == client && requests[0].seq == n && n > stored_seq(s.cache, client) {
            lemma_no_execution_once_reached(s1, requests.drop_first(), client, n);
        } else {
            lemma_exactly_once(s1, requests.drop_first(), client, n);
        }
    }
}

/// Resending a request after its reply was produced draws the identical
/// cached reply back out, without growing the execution history.
pub proof fn lemma_reply_idempotent(s: ServerModel, request: Request)
    requires
        request.seq > stored_seq(s.cache, request.id.0),
    ensures
        server_replies(server_step(s, request), request) == server_replies(s, request),
        server_step(server_step(s, request), request).history == server_step(s, request).history,
{
    assert(server_replies(server_step(s, request), request) =~= server_replies(s, request));
}

/// A client's cache entry survives any deliveries that do not advance the
/// client past it: requests from other clients never touch it, and the
/// client's own requests numbered at or below it never execute.
proof fn lemma_cache_entry_stable(s: ServerModel, mid: Seq<Request>, client: u64, entry: Replying)
    requires
        s.cache.contains_key(client),
        s.cache[client] == entry,
        forall|i: int| 0 <= i < mid.len() && mid[i].id.0 == client ==> mid[i].seq <= entry.0,
    ensures
        server_run(s, mid).cache.contains_key(client),
        server_run(s, mid).cache[client] == entry,
    decreases mid.len(),
{
    if mid.len() > 0 {
        let s1 = server_step(s, mid[0]);
        assert(s1.cache.contains_key(client) && s1.cache[client] == entry);
        assert(forall|i: int|
            0 <= i < mid.drop_first().len() && mid.drop_first()[i].id.0 == client
                ==> mid.drop_first()[i].seq <= entry.0);
        lemma_cache_entry_stable(s1, mid.drop_first(), client, entry);
    }
}

/// Reply idempotence under any delivery schedule: once a request's reply is
/// produced, resending it after any run of deliveries that do not move its
/// client further draws the identical cached reply back out.
pub proof fn lemma_reply_idempotent_run(s: ServerModel, mid: Seq<Request>, request: Request)
    requires
        request.seq > stored_seq(s.cache, request.id.0),
        forall|i: int|
            0 <= i < mid.len() && mid[i].id.0 == request.id.0 ==> mid[i].seq <= request.seq,
    ensures
        server_replies(server_run(server_step(s, request), mid), request) == server_replies(
            s,
            request,
        ),
{
    let entry = Replying(request.seq, crate::Res(request.op.0));
    lemma_cache_entry_stable(server_step(s, request), mid, request.id.0, entry);
    assert(server_replies(server_run(server_step(s, request), mid), request)
        =~= server_replies(s, request));
}

/// No request can move a client's cached sequence number backwards.
pub proof fn lemma_monotonic_cache(s: ServerModel, request: Request, client: u64)
    ensures
        stored_seq(server_step(s, request).cache, client) >= stored_seq(s.cache, client),
{
}

/// Monotonic cache under any delivery schedule: however requests are
/// reordered or duplicated, a client's cached sequence number never goes
/// down.
pub proof fn lemma_monotonic_cache_run(s: ServerModel, requests: Seq<Request>, client: u64)
    ensures
        stored_seq(server_run(s, requests).cache, client) >= stored_seq(s.cache, client),
    decreases requests.len(),
{
    if requests.len() > 0 {
        lemma_monotonic_cache(s, requests[0], client);
        lemma_monotonic_cache_run(server_step(s, requests[0]), requests.drop_first(), client);
    }
}

/// The two phases of a session's single outstanding request.
#[derive(Clone, Copy, Debug, PartialEq, Eq, Structural)]
pub enum ClientRequestState {
    Replied(Replied),
    WaitingReply(WaitingReply),
}

/// One client session: its identity, its reply address, and its outstanding
/// request tracking. A session has at most one request in flight.
#[derive(Debug)]
pub struct ClientState {
    pub id: crate::Id,
    pub addr: crate::Addr,
    pub request: ClientRequestState,
}

impl ClientState {
    pub fn new(id: crate::Id, addr: crate::Addr) -> (c: ClientState)
        ensures
            c.id == id,
            c.addr == addr,
            c.request == ClientRequestState::Replied(Replied(0)),
    {
        ClientState { id, addr, request: ClientRequestState::Replied(Replied::new()) }
    }

    /// Start the next operation. Legal only between requests: while a request
    /// is still in flight the session refuses and nothing changes.
    pub fn invoke<C: ClientContext>(&mut self, op: crate::Op, context: &mut C) -> (r: Result<
        (),
        IllegalTransition,
    >)
        requires
            old(self).request matches ClientRequestState::Replied(s) ==> s.0 < u32::MAX,
        ensures
            r is Ok <==> old(self).request is Replied,
            match old(self).request {
                ClientRequestState::Replied(s) => {
                    &&& final(self).request == ClientRequestState::WaitingReply(
                        WaitingReply((s.0 + 1) as u32, op),
                    )
                    &&& final(context).requests() == old(context).requests().push(
                        Request {
                            id: old(self).id,
                            seq: (s.0 + 1) as u32,
                            op,
                            client_addr: old(self).addr,
                        },
                    )
                },
                ClientRequestState::WaitingReply(_) => {
                    &&& final(self).request == old(self).request
                    &&& final(context).requests() == old(context).requests()
                },
            },
            final(context).finalized() == old(context).finalized(),
            final(self).id == old(self).id,
            final(self).addr == old(self).addr,
    {
        match self.request {
            ClientRequestState::Replied(state) => {
                let state = state.request(self.id, op, self.addr, context);
                self.request = ClientRequestState::WaitingReply(state);
                Ok(())
            },
            ClientRequestState::WaitingReply(_) => Err(IllegalTransition),
        }
    }

    /// Resend the outstanding request after a timer fired. Legal only while
    /// waiting: otherwise the session refuses and nothing changes.
    pub fn handle_timeout<C: ClientContext>(&mut self, context: &mut C) -> (r: Result<
        (),
        IllegalTransition,
    >)
        ensures
            r is Ok <==> old(self).request is WaitingReply,
            match old(self).request {
                ClientRequestState::WaitingReply(s) => {
                    &&& final(self).request == old(self).request
                    &&& final(context).requests() == old(context).requests().push(
                        Request {
                            id: old(self).id,
                            seq: s.0,
                            op: s.1,
                            client_addr: old(self).addr,
                        },
                    )
                },
                ClientRequestState::Replied(_) => {
                    &&& final(self).request == old(self).request
                    &&& final(context).requests() == old(context).requests()
                },
            },
            final(context).finalized() == old(context).finalized(),
            final(self).id == old(self).id,
            final(self).addr == old(self).addr,
    {
        match self.request {
            ClientRequestState::WaitingReply(state) => {
                let state = state.timeout(self.id, self.addr, context);
                self.request = ClientRequestState::WaitingReply(state);
                Ok(())
            },
            ClientRequestState::Replied(_) => Err(IllegalTransition),
        }
    }

    /// Accept a reply. Only the reply that answers the outstanding request
    /// finalizes the invocation; any other is silently discarded.
    pub fn handle_reply<C: ClientContext>(&mut self, reply: Reply, context: &mut C)
        ensures
            match old(self).request {
                ClientRequestState::WaitingReply(s) => {
                    if reply.seq == s.0 {
                        &&& final(self).request == ClientRequestState::Replied(Replied(s.0))
                        &&& final(context).finalized() == old(context).finalized().push(
                            reply.result,
                        )
                    } else {
                        &&& final(self).request == old(self).request
                        &&& final(context).finalized() == old(context).finalized()
                    }
                },
                ClientRequestState::Replied(_) => {
                    &&& final(self).request == old(self).request
                    &&& final(context).finalized() == old(context).finalized()
                },
            },
            final(context).requests() == old(context).requests(),
            final(self).id == old(self).id,
            final(self).addr == old(self).addr,
    {
        match self.request {
            ClientRequestState::WaitingReply(state) => {
                if state.is_replied(reply.seq) {
                    let state = state.replied(reply.result, context);
                    self.request = ClientRequestState::Replied(state);
                }
            },
            ClientRequestState::Replied(_) => {},
        }
    }
}

} // verus!
