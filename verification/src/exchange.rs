//! A service seen from above: several clients, one server, and the queues
//! between them as sequences of frames.
//!
//! The server reads the identity of a sender out of the bytes of a request
//! frame and puts its answer on the reply queue of that client. This module
//! writes those steps down over the frame functions and proves that, however
//! the clients and the server take turns, every client takes the answers to
//! its own requests, in the order in which it made them.
use crate::frame::{
    frame_image, frame_len, frame_sender, frame_value, law_frame_round_trip,
    law_sender_round_trip, wire_id,
};
use crate::yule::Wire;
use vstd::prelude::*;

verus! {

/// A request on the server's queue: who posted it, and the address at which
/// its frame was granted.
pub struct Request<A> {
    pub client: usize,
    pub start: int,
    pub value: A,
}

/// An answer on a client's reply queue, and the address of its frame.
pub struct Reply<R> {
    pub start: int,
    pub value: R,
}

/// The queues of a service, and what each client has posted and taken so far.
pub struct Net<A, R> {
    /// The server's queue, oldest request first.
    pub inbound: Seq<Request<A>>,
    /// One reply queue for each client, oldest answer first.
    pub replies: Seq<Seq<Reply<R>>>,
    /// What each client has posted, in order.
    pub posted: Seq<Seq<A>>,
    /// What each client has taken from its reply queue, in order.
    pub taken: Seq<Seq<R>>,
}

/// One turn of a client or of the server.
pub enum Step<A> {
    /// A client commits a request whose frame was granted at `start`.
    Post { client: usize, start: int, value: A },
    /// The server receives the oldest request and answers it in a frame
    /// granted at `start`.
    Serve { start: int },
    /// A client takes the oldest frame off its reply queue.
    Take { client: usize },
}

/// The bytes of a request frame: the image of the value under the identity
/// of the client that allocated it.
pub open spec fn request_frame<A: Wire>(req: Request<A>) -> Seq<u8> {
    frame_image(
        wire_id(req.client),
        req.start,
        A::wire_align() as int,
        req.value.to_wire(),
        frame_len(A::wire_size(), A::wire_align()) as int,
    )
}

/// The bytes of a reply frame on the queue of `client`.
pub open spec fn reply_frame<R: Wire>(client: usize, reply: Reply<R>) -> Seq<u8> {
    frame_image(
        wire_id(client),
        reply.start,
        R::wire_align() as int,
        reply.value.to_wire(),
        frame_len(R::wire_size(), R::wire_align()) as int,
    )
}

/// A service with `clients` clients before anything was posted.
pub open spec fn idle<A, R>(clients: nat) -> Net<A, R> {
    Net {
        inbound: Seq::empty(),
        replies: Seq::new(clients, |i: int| Seq::empty()),
        posted: Seq::new(clients, |i: int| Seq::empty()),
        taken: Seq::new(clients, |i: int| Seq::empty()),
    }
}

/// The service after a client has posted a request. A client that the server
/// has not attached posts nothing.
pub open spec fn after_post<A: Wire, R: Wire>(
    net: Net<A, R>,
    client: usize,
    start: int,
    value: A,
) -> Net<A, R> {
    if client < net.replies.len() && 0 <= start {
        Net {
            inbound: net.inbound.push(Request { client, start, value }),
            posted: net.posted.update(client as int, net.posted[client as int].push(value)),
            ..net
        }
    } else {
        net
    }
}

/// The service after the server has received once. The server learns the
/// sender and the value from the bytes of the oldest frame alone; the answer
/// goes on the reply queue of the sender that the bytes name. A frame that
/// is refused leaves the queue without an answer.
pub open spec fn after_serve<A: Wire, R: Wire>(
    net: Net<A, R>,
    start: int,
    handler: spec_fn(A) -> R,
) -> Net<A, R> {
    if net.inbound.len() == 0 || start < 0 {
        net
    } else {
        let bytes = request_frame(net.inbound[0]);
        let rest = net.inbound.skip(1);
        match (
            frame_sender(bytes, net.replies.len()),
            frame_value::<A>(net.inbound[0].start, bytes),
        ) {
            (Ok(to), Ok((_, value))) => Net {
                inbound: rest,
                replies: net.replies.update(
                    to as int,
                    net.replies[to as int].push(Reply { start, value: handler(value) }),
                ),
                ..net
            },
            _ => Net { inbound: rest, ..net },
        }
    }
}

/// The service after a client has taken the oldest frame off its reply
/// queue. The client learns the value from the bytes of the frame; a frame
/// that is refused is dropped.
pub open spec fn after_take<A: Wire, R: Wire>(net: Net<A, R>, client: usize) -> Net<A, R> {
    if client < net.replies.len() && net.replies[client as int].len() > 0 {
        let reply = net.replies[client as int][0];
        let rest = net.replies.update(client as int, net.replies[client as int].skip(1));
        match frame_value::<R>(reply.start, reply_frame(client, reply)) {
            Ok((_, value)) => Net {
                replies: rest,
                taken: net.taken.update(client as int, net.taken[client as int].push(value)),
                ..net
            },
            Err(_) => Net { replies: rest, ..net },
        }
    } else {
        net
    }
}

/// The service after one turn.
pub open spec fn after<A: Wire, R: Wire>(
    net: Net<A, R>,
    step: Step<A>,
    handler: spec_fn(A) -> R,
) -> Net<A, R> {
    match step {
        Step::Post { client, start, value } => after_post(net, client, start, value),
        Step::Serve { start } => after_serve(net, start, handler),
        Step::Take { client } => after_take(net, client),
    }
}

/// The service after the turns `steps`, taken in order from `net`.
pub open spec fn run<A: Wire, R: Wire>(
    net: Net<A, R>,
    steps: Seq<Step<A>>,
    handler: spec_fn(A) -> R,
) -> Net<A, R>
    decreases steps.len(),
{
    if steps.len() == 0 {
        net
    } else {
        after(run(net, steps.drop_last(), handler), steps.last(), handler)
    }
}

/// The answers that the requests of `client` on the server's queue will
/// get, oldest first.
pub open spec fn owed<A, R>(
    inbound: Seq<Request<A>>,
    client: int,
    handler: spec_fn(A) -> R,
) -> Seq<R>
    decreases inbound.len(),
{
    if inbound.len() == 0 {
        Seq::empty()
    } else if inbound.last().client == client {
        owed(inbound.drop_last(), client, handler).push(handler(inbound.last().value))
    } else {
        owed(inbound.drop_last(), client, handler)
    }
}

/// The answers on a reply queue, oldest first.
pub open spec fn waiting<R>(replies: Seq<Reply<R>>) -> Seq<R> {
    Seq::new(replies.len(), |k: int| replies[k].value)
}

/// The answers to what a client has posted, in the order of its posts.
pub open spec fn answers<A, R>(posted: Seq<A>, handler: spec_fn(A) -> R) -> Seq<R> {
    Seq::new(posted.len(), |k: int| handler(posted[k]))
}

/// Every client is accounted for: what it has taken, then what waits on its
/// reply queue, then what its requests on the server's queue will get, are
/// the answers to its posts, in order.
pub open spec fn settled<A, R>(net: Net<A, R>, handler: spec_fn(A) -> R) -> bool {
    &&& net.replies.len() <= usize::MAX
    &&& net.posted.len() == net.replies.len()
    &&& net.taken.len() == net.replies.len()
    &&& forall|k: int|
        0 <= k < net.inbound.len() ==> (#[trigger] net.inbound[k]).client < net.replies.len() && 0
            <= net.inbound[k].start
    &&& forall|i: int, k: int|
        0 <= i < net.replies.len() && 0 <= k < net.replies[i].len() ==> 0
            <= #[trigger] net.replies[i][k].start
    &&& forall|i: int|
        0 <= i < net.replies.len() ==> #[trigger] net.taken[i] + waiting(net.replies[i]) + owed(
            net.inbound,
            i,
            handler,
        ) == answers(net.posted[i], handler)
}

/// Taking the oldest request off the server's queue takes the first owed
/// answer from its sender, and nothing from any other client.
proof fn lemma_owed_front<A, R>(inbound: Seq<Request<A>>, client: int, handler: spec_fn(A) -> R)
    requires
        inbound.len() > 0,
    ensures
        owed(inbound, client, handler) == if inbound[0].client == client {
            seq![handler(inbound[0].value)] + owed(inbound.skip(1), client, handler)
        } else {
            owed(inbound.skip(1), client, handler)
        },
    decreases inbound.len(),
{
    let rest = inbound.skip(1);
    if inbound.len() == 1 {
        assert(inbound.drop_last() =~= Seq::empty());
        assert(rest =~= Seq::empty());
        assert(owed(inbound.drop_last(), client, handler) =~= Seq::empty());
        assert(owed(rest, client, handler) =~= Seq::empty());
        assert(seq![handler(inbound[0].value)] + Seq::<R>::empty() =~= Seq::<R>::empty().push(
            handler(inbound[0].value),
        ));
    } else {
        lemma_owed_front(inbound.drop_last(), client, handler);
        assert(inbound.drop_last().skip(1) =~= rest.drop_last());
        assert(rest.last() == inbound.last());
        assert(inbound.drop_last()[0] == inbound[0]);
        let before = owed(rest.drop_last(), client, handler);
        let first = seq![handler(inbound[0].value)];
        let last = handler(inbound.last().value);
        assert((first + before).push(last) =~= first + before.push(last));
    }
}

/// A turn keeps every client accounted for.
proof fn lemma_after_settled<A: Wire, R: Wire>(
    net: Net<A, R>,
    step: Step<A>,
    handler: spec_fn(A) -> R,
)
    requires
        settled(net, handler),
    ensures
        settled(after(net, step, handler), handler),
        after(net, step, handler).replies.len() == net.replies.len(),
{
    let next = after(net, step, handler);
    let clients = net.replies.len();
    match step {
        Step::Post { client, start, value } => {
            if client < clients && 0 <= start {
                let req = Request { client, start, value };
                assert(next.inbound.drop_last() =~= net.inbound);
                assert(next.inbound.last() == req);
                assert forall|i: int| 0 <= i < clients implies #[trigger] next.taken[i] + waiting(
                    next.replies[i],
                ) + owed(next.inbound, i, handler) == answers(next.posted[i], handler) by {
                    let sum = net.taken[i] + waiting(net.replies[i]) + owed(
                        net.inbound,
                        i,
                        handler,
                    );
                    assert(sum == answers(net.posted[i], handler));
                    if i == client {
                        assert(next.taken[i] + waiting(next.replies[i]) + owed(
                            next.inbound,
                            i,
                            handler,
                        ) =~= sum.push(handler(value)));
                        assert(answers(next.posted[i], handler) =~= answers(
                            net.posted[i],
                            handler,
                        ).push(handler(value)));
                    } else {
                        assert(owed(next.inbound, i, handler) == owed(net.inbound, i, handler));
                    }
                }
                assert forall|k: int| 0 <= k < next.inbound.len() implies (#[trigger] next.inbound[k]).client
                    < clients && 0 <= next.inbound[k].start by {
                    if k < net.inbound.len() {
                        assert(next.inbound[k] == net.inbound[k]);
                    }
                }
            }
        },
        Step::Serve { start } => {
            if net.inbound.len() > 0 && 0 <= start {
                let req = net.inbound[0];
                assert(0 <= req.start);
                law_sender_round_trip::<A>(req.client, clients, req.start, req.value);
                law_frame_round_trip::<A>(wire_id(req.client), req.start, req.value);
                let to = req.client as int;
                let answer = handler(req.value);
                assert(next.inbound == net.inbound.skip(1));
                assert(next.replies == net.replies.update(
                    to,
                    net.replies[to].push(Reply { start, value: answer }),
                ));
                assert forall|i: int| 0 <= i < clients implies #[trigger] next.taken[i] + waiting(
                    next.replies[i],
                ) + owed(next.inbound, i, handler) == answers(next.posted[i], handler) by {
                    lemma_owed_front(net.inbound, i, handler);
                    let sum = net.taken[i] + waiting(net.replies[i]) + owed(
                        net.inbound,
                        i,
                        handler,
                    );
                    assert(sum == answers(net.posted[i], handler));
                    if i == to {
                        assert(waiting(next.replies[i]) =~= waiting(net.replies[i]).push(answer));
                        assert(next.taken[i] + waiting(next.replies[i]) + owed(
                            next.inbound,
                            i,
                            handler,
                        ) =~= sum);
                    }
                }
                assert forall|k: int| 0 <= k < next.inbound.len() implies (#[trigger] next.inbound[k]).client
                    < clients && 0 <= next.inbound[k].start by {
                    assert(next.inbound[k] == net.inbound[k + 1]);
                }
            }
        },
        Step::Take { client } => {
            if client < clients && net.replies[client as int].len() > 0 {
                let queue = net.replies[client as int];
                let reply = queue[0];
                assert(0 <= reply.start);
                law_frame_round_trip::<R>(wire_id(client), reply.start, reply.value);
                assert(next.replies == net.replies.update(client as int, queue.skip(1)));
                assert(next.taken == net.taken.update(
                    client as int,
                    net.taken[client as int].push(reply.value),
                ));
                assert forall|i: int| 0 <= i < clients implies #[trigger] next.taken[i] + waiting(
                    next.replies[i],
                ) + owed(next.inbound, i, handler) == answers(next.posted[i], handler) by {
                    let sum = net.taken[i] + waiting(net.replies[i]) + owed(
                        net.inbound,
                        i,
                        handler,
                    );
                    assert(sum == answers(net.posted[i], handler));
                    if i == client {
                        assert(waiting(queue) =~= seq![reply.value] + waiting(queue.skip(1)));
                        assert(next.taken[i] + waiting(next.replies[i]) + owed(
                            next.inbound,
                            i,
                            handler,
                        ) =~= sum);
                    }
                }
                assert forall|i: int, k: int|
                    0 <= i < clients && 0 <= k < next.replies[i].len() implies 0
                    <= #[trigger] next.replies[i][k].start by {
                    if i == client {
                        assert(next.replies[i][k] == net.replies[i][k + 1]);
                        assert(0 <= net.replies[i][k + 1].start);
                    } else {
                        assert(0 <= net.replies[i][k].start);
                    }
                }
            }
        },
    }
}

/// Turns taken from an idle service keep every client accounted for.
proof fn lemma_run_settled<A: Wire, R: Wire>(
    clients: nat,
    steps: Seq<Step<A>>,
    handler: spec_fn(A) -> R,
)
    requires
        clients <= usize::MAX,
    ensures
        settled(run(idle::<A, R>(clients), steps, handler), handler),
        run(idle::<A, R>(clients), steps, handler).replies.len() == clients,
    decreases steps.len(),
{
    let start = idle::<A, R>(clients);
    if steps.len() == 0 {
        assert forall|i: int| 0 <= i < clients implies #[trigger] start.taken[i] + waiting(
            start.replies[i],
        ) + owed(start.inbound, i, handler) == answers(start.posted[i], handler) by {
            assert(start.taken[i] + waiting(start.replies[i]) + owed(start.inbound, i, handler)
                =~= answers(start.posted[i], handler));
        }
    } else {
        lemma_run_settled::<A, R>(clients, steps.drop_last(), handler);
        lemma_after_settled(run(start, steps.drop_last(), handler), steps.last(), handler);
    }
}

/// Each of several clients gets the answers to its own requests. However
/// the clients of one server and the server take turns, what a client has
/// taken from its reply queue is, one for one and in order, what the handler
/// makes of that client's own posts: the answer number `k` that the client
/// `client` takes answers its post number `k`, and never a post of another
/// client.
pub proof fn law_replies_reach_their_callers<A: Wire, R: Wire>(
    clients: nat,
    steps: Seq<Step<A>>,
    handler: spec_fn(A) -> R,
    client: usize,
    k: int,
)
    requires
        clients <= usize::MAX,
        client < clients,
        0 <= k < run(idle::<A, R>(clients), steps, handler).taken[client as int].len(),
    ensures
        ({
            let net = run(idle::<A, R>(clients), steps, handler);
            &&& net.taken[client as int].len() <= net.posted[client as int].len()
            &&& net.taken[client as int][k] == handler(net.posted[client as int][k])
        }),
{
    let net = run(idle::<A, R>(clients), steps, handler);
    lemma_run_settled::<A, R>(clients, steps, handler);
    let i = client as int;
    let sum = net.taken[i] + waiting(net.replies[i]) + owed(net.inbound, i, handler);
    assert(sum == answers(net.posted[i], handler));
    assert(sum.len() == net.posted[i].len());
    assert(sum[k] == net.taken[i][k]);
}

} // verus!
