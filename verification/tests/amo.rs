use amo_pb::amo::{
    ClientOutbox, ClientState, IllegalTransition, Reply, Request, ServerOutbox, ServerState,
};
use amo_pb::{Addr, App, Id, Op, Res};

fn request(id: u64, seq: u32, op: u64, addr: u64) -> Request {
    Request { id: Id(id), seq, op: Op(op), client_addr: Addr(addr) }
}

#[test]
fn client_invoke_sends_numbered_request() {
    let mut client = ClientState::new(Id(1), Addr(10));
    let mut ctx = ClientOutbox::new();
    let r = client.invoke(Op(5), &mut ctx);
    assert_eq!(r, Ok(()));
    assert_eq!(ctx.requests.len(), 1);
    assert_eq!(ctx.requests[0], request(1, 1, 5, 10));
    assert_eq!(ctx.finalized.len(), 0);
}

#[test]
fn client_invoke_while_waiting_is_refused() {
    let mut client = ClientState::new(Id(1), Addr(10));
    let mut ctx = ClientOutbox::new();
    assert_eq!(client.invoke(Op(5), &mut ctx), Ok(()));
    assert_eq!(client.invoke(Op(6), &mut ctx), Err(IllegalTransition));
    assert_eq!(ctx.requests.len(), 1);
}

#[test]
fn client_timeout_resends_same_request() {
    let mut client = ClientState::new(Id(1), Addr(10));
    let mut ctx = ClientOutbox::new();
    assert_eq!(client.invoke(Op(5), &mut ctx), Ok(()));
    assert_eq!(client.handle_timeout(&mut ctx), Ok(()));
    assert_eq!(client.handle_timeout(&mut ctx), Ok(()));
    assert_eq!(ctx.requests.len(), 3);
    assert_eq!(ctx.requests[1], ctx.requests[0]);
    assert_eq!(ctx.requests[2], ctx.requests[0]);
}

#[test]
fn client_timeout_while_not_waiting_is_refused() {
    let mut client = ClientState::new(Id(1), Addr(10));
    let mut ctx = ClientOutbox::new();
    assert_eq!(client.handle_timeout(&mut ctx), Err(IllegalTransition));
    assert_eq!(ctx.requests.len(), 0);
}

#[test]
fn client_reply_finalizes_matching_seq() {
    let mut client = ClientState::new(Id(1), Addr(10));
    let mut ctx = ClientOutbox::new();
    assert_eq!(client.invoke(Op(5), &mut ctx), Ok(()));
    client.handle_reply(Reply { seq: 1, result: Res(5) }, &mut ctx);
    assert_eq!(ctx.finalized, vec![Res(5)]);
    // The session is settled again: the next invocation takes number 2.
    assert_eq!(client.invoke(Op(6), &mut ctx), Ok(()));
    assert_eq!(ctx.requests[1], request(1, 2, 6, 10));
}

#[test]
fn client_stale_reply_is_discarded() {
    let mut client = ClientState::new(Id(1), Addr(10));
    let mut ctx = ClientOutbox::new();
    assert_eq!(client.invoke(Op(5), &mut ctx), Ok(()));
    client.handle_reply(Reply { seq: 0, result: Res(9) }, &mut ctx);
    client.handle_reply(Reply { seq: 2, result: Res(9) }, &mut ctx);
    assert_eq!(ctx.finalized.len(), 0);
    // Still waiting: a resend is legal, a new invocation is not.
    assert_eq!(client.handle_timeout(&mut ctx), Ok(()));
    assert_eq!(client.invoke(Op(6), &mut ctx), Err(IllegalTransition));
}

#[test]
fn client_reply_while_not_waiting_is_ignored() {
    let mut client = ClientState::new(Id(1), Addr(10));
    let mut ctx = ClientOutbox::new();
    client.handle_reply(Reply { seq: 1, result: Res(9) }, &mut ctx);
    assert_eq!(ctx.finalized.len(), 0);
}

#[test]
fn server_executes_new_request() {
    let mut server = ServerState::new(App::new());
    let mut ctx = ServerOutbox::new();
    server.handle_request(request(1, 1, 42, 10), &mut ctx);
    assert_eq!(server.app.execution_count(), 1);
    assert_eq!(ctx.sent.len(), 1);
    assert_eq!(ctx.sent[0], (Addr(10), Reply { seq: 1, result: Res(42) }));
}

#[test]
fn server_duplicate_replies_from_cache_without_reexecution() {
    let mut server = ServerState::new(App::new());
    let mut ctx = ServerOutbox::new();
    server.handle_request(request(1, 1, 42, 10), &mut ctx);
    server.handle_request(request(1, 1, 42, 10), &mut ctx);
    assert_eq!(server.app.execution_count(), 1);
    assert_eq!(ctx.sent.len(), 2);
    assert_eq!(ctx.sent[1], ctx.sent[0]);
}

#[test]
fn server_executes_each_pair_at_most_once() {
    let mut server = ServerState::new(App::new());
    let mut ctx = ServerOutbox::new();
    for _ in 0..3 {
        server.handle_request(request(1, 1, 42, 10), &mut ctx);
    }
    assert_eq!(server.app.execution_count(), 1);
    server.handle_request(request(1, 2, 43, 10), &mut ctx);
    for _ in 0..3 {
        server.handle_request(request(1, 2, 43, 10), &mut ctx);
    }
    assert_eq!(server.app.execution_count(), 2);
}

#[test]
fn server_old_request_repairs_lost_reply() {
    let mut server = ServerState::new(App::new());
    let mut ctx = ServerOutbox::new();
    server.handle_request(request(1, 3, 7, 10), &mut ctx);
    // A late duplicate of an older request draws the highest cached reply out.
    server.handle_request(request(1, 1, 5, 10), &mut ctx);
    assert_eq!(server.app.execution_count(), 1);
    assert_eq!(ctx.sent.len(), 2);
    assert_eq!(ctx.sent[1], (Addr(10), Reply { seq: 3, result: Res(7) }));
}

#[test]
fn server_cache_never_moves_backwards() {
    let mut server = ServerState::new(App::new());
    let mut ctx = ServerOutbox::new();
    server.handle_request(request(1, 2, 8, 10), &mut ctx);
    server.handle_request(request(1, 1, 5, 10), &mut ctx);
    let cached = server.replying.get(1).expect("client 1 has a cache entry");
    assert_eq!(cached.0, 2);
    assert_eq!(cached.1, Res(8));
}

#[test]
fn server_ignores_seq_zero_from_fresh_client() {
    let mut server = ServerState::new(App::new());
    let mut ctx = ServerOutbox::new();
    server.handle_request(request(1, 0, 5, 10), &mut ctx);
    assert_eq!(server.app.execution_count(), 0);
    assert_eq!(ctx.sent.len(), 0);
}

#[test]
fn server_keeps_clients_independent() {
    let mut server = ServerState::new(App::new());
    let mut ctx = ServerOutbox::new();
    server.handle_request(request(1, 1, 5, 10), &mut ctx);
    server.handle_request(request(2, 1, 6, 11), &mut ctx);
    assert_eq!(server.app.execution_count(), 2);
    assert_eq!(server.replying.get(1).unwrap().1, Res(5));
    assert_eq!(server.replying.get(2).unwrap().1, Res(6));
}

#[test]
fn server_handles_largest_sequence_number() {
    let mut server = ServerState::new(App::new());
    let mut ctx = ServerOutbox::new();
    server.handle_request(request(1, u32::MAX, 9, 10), &mut ctx);
    assert_eq!(server.app.execution_count(), 1);
    // Nothing can supersede it: every later number is at or below the cache.
    server.handle_request(request(1, 1, 5, 10), &mut ctx);
    server.handle_request(request(1, u32::MAX, 9, 10), &mut ctx);
    assert_eq!(server.app.execution_count(), 1);
    assert_eq!(ctx.sent.len(), 3);
    assert_eq!(ctx.sent[2], (Addr(10), Reply { seq: u32::MAX, result: Res(9) }));
}

#[test]
fn waiting_reply_matches_only_its_own_number() {
    let waiting = amo_pb::amo::WaitingReply(3, Op(1));
    assert!(waiting.is_replied(3));
    assert!(!waiting.is_replied(2));
    assert!(!waiting.is_replied(4));
}

#[test]
fn client_and_server_complete_a_round_trip() {
    let mut client = ClientState::new(Id(1), Addr(10));
    let mut cctx = ClientOutbox::new();
    let mut server = ServerState::new(App::new());
    let mut sctx = ServerOutbox::new();
    assert_eq!(client.invoke(Op(5), &mut cctx), Ok(()));
    server.handle_request(cctx.requests[0], &mut sctx);
    let (addr, reply) = sctx.sent[0];
    assert_eq!(addr, Addr(10));
    client.handle_reply(reply, &mut cctx);
    assert_eq!(cctx.finalized, vec![Res(5)]);
}
