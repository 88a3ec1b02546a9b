use crate::error::Error;
use crate::frame::{
    build_frame, client_id, decode_frame, frame_len, frame_size, frame_value, wire_id,
    sender_of, HEADER_LENGTH,
};
use crate::ring::{
    consumer_read, frame_addr, frame_bytes, grant_addr, grant_commit, grant_fill, grant_release,
    granted, producer_grant, queue_consumer, queue_new, queue_producer, signal_share, spin_hint,
    Consumer, GrantR, GrantW, Producer, Queue, MAX_FRAME,
};
use bbqueue::traits::coordination::{ReadGrantError, WriteGrantError};
use crate::transport::Recv;
use crate::yule::{zeros, Wire, Yule};
use std::marker::PhantomData;
use std::sync::atomic::AtomicUsize;
use std::sync::atomic::Ordering;
use std::sync::Arc;
use vstd::prelude::*;

verus! {

/// What a waiter does after a look at what it waits for.
#[derive(Debug, Clone, Copy, PartialEq, Eq, Structural)]
pub enum Wait {
    /// What it waits for is there: take it.
    Take,
    /// It is not there, and the rounds are used up: give up.
    GiveUp,
    /// It is not there, and rounds are left: spin once more.
    Spin,
}

/// The step of a waiter that has spun `spins` of at most `limit` rounds and
/// now sees whether what it waits for is there.
pub open spec fn wait_step_of(ready: bool, spins: u64, limit: u64) -> Wait {
    if ready {
        Wait::Take
    } else if spins >= limit {
        Wait::GiveUp
    } else {
        Wait::Spin
    }
}

/// Decides the next step of a waiter.
pub fn wait_step(ready: bool, spins: u64, limit: u64) -> (step: Wait)
    ensures
        step == wait_step_of(ready, spins, limit),
{
    if ready {
        Wait::Take
    } else if spins >= limit {
        Wait::GiveUp
    } else {
        Wait::Spin
    }
}

/// Waits until the counter is above zero, then takes one from it. The wait
/// is a busy poll of at most `limit` rounds after the first look; the result
/// says whether one was taken. What the counter holds at each look lies with
/// the producer, so nothing is promised of the result; what the waiter does
/// after each look is `wait_step`.
pub fn spin_wait(signal: &AtomicUsize, limit: u64) -> (taken: bool) {
    let mut spins: u64 = 0;
    loop
        invariant
            spins <= limit,
        decreases limit - spins,
    {
        match wait_step(signal.load(Ordering::Acquire) != 0, spins, limit) {
            Wait::Take => {
                signal.fetch_sub(1, Ordering::Release);
                return true;
            },
            Wait::GiveUp => {
                return false;
            },
            Wait::Spin => {
                spin_hint();
                spins += 1;
            },
        }
    }
}

/// A reserved frame of the length that carries one value of type `T`.
struct Slot<T: Yule> {
    grant: GrantW,
    len: usize,
    _phantom: PhantomData<T>,
}

impl<T: Yule> Slot<T> {
    #[verifier::type_invariant]
    spec fn wf(self) -> bool {
        &&& self.len == frame_len(T::wire_size(), T::wire_align())
        &&& granted(self.grant).len() == self.len
    }

    fn new(grant: GrantW, len: usize) -> (slot: Self)
        requires
            len == frame_len(T::wire_size(), T::wire_align()),
            granted(grant).len() == len,
        ensures
            slot.grant == grant,
            slot.len == len,
    {
        Slot { grant, len, _phantom: PhantomData }
    }

    /// Writes the frame that carries `value` for the sender `id` into the
    /// reserved room and hands it to the consumer.
    fn commit(self, id: u64, value: &T) {
        proof {
            use_type_invariant(&self);
        }
        let Slot { mut grant, len, _phantom } = self;
        let start = grant_addr(&grant);
        let frame = build_frame(id, start, value, len);
        grant_fill(&mut grant, frame.as_slice());
        grant_commit(grant, len);
    }
}

/// A write buffer of the ring-buffer transport: a reserved frame and the
/// value that will be written to it.
pub struct BufW<const N: usize, T: Yule> {
    slot: Slot<T>,
    value: T,
    sender: u64,
}

impl<const N: usize, T: Yule> BufW<N, T> {
    /// Number of bytes that are reserved in the queue for this buffer.
    pub closed spec fn room(&self) -> nat {
        granted(self.slot.grant).len()
    }

    /// The identity that the header of the frame will carry: that of the
    /// client whose queue end reserved the buffer.
    pub closed spec fn sender(&self) -> u64 {
        self.sender
    }

    /// The identity that the header of the frame will carry.
    pub fn sender_id(&self) -> (id: u64)
        ensures
            id == self.sender(),
    {
        self.sender
    }

    /// Wraps a grant of the length that a frame for `T` takes. The buffer
    /// starts out as the zero value.
    fn new(grant: GrantW, len: usize, sender: u64) -> (buf: Self)
        requires
            len == frame_len(T::wire_size(), T::wire_align()),
            granted(grant).len() == len,
        ensures
            buf@ == T::from_wire(zeros(T::wire_size())),
            buf.room() == len,
            buf.sender() == sender,
    {
        BufW { slot: Slot::new(grant, len), value: T::zeroed(), sender }
    }

    /// Writes the value to the reserved frame, under the identity the
    /// buffer was reserved for, and hands the frame to the consumer.
    fn commit(self) {
        let BufW { slot, value, sender } = self;
        slot.commit(sender, &value);
    }
}

impl<const N: usize, T: Yule> View for BufW<N, T> {
    type V = T;

    closed spec fn view(&self) -> T {
        self.value
    }
}

impl<const N: usize, T: Yule> crate::transport::BufR<T> for BufW<N, T> {
    open spec fn value(&self) -> T {
        self@
    }

    fn as_ref(&self) -> (r: &T) {
        &self.value
    }
}

impl<const N: usize, T: Yule> crate::transport::BufW<T> for BufW<N, T> {
    /// Writing the value changes neither the room that is reserved nor the
    /// identity the buffer was reserved for.
    fn as_mut(&mut self) -> (r: &mut T)
        ensures
            final(self).room() == old(self).room(),
            final(self).sender() == old(self).sender(),
    {
        &mut self.value
    }
}

/// A read buffer of the ring-buffer transport: the value of a frame that
/// passed validation.
pub struct BufR<const N: usize, T: Yule> {
    value: T,
    sender: u64,
}

impl<const N: usize, T: Yule> BufR<N, T> {
    /// Validates the payload of a frame whose first byte has the address
    /// `start`, and wraps its value. A frame that is too short or whose
    /// payload is not a valid `T` is refused.
    pub fn new(start: usize, frame: &[u8]) -> (r: Result<Self, Error>)
        requires
            start + frame@.len() <= usize::MAX,
        ensures
            match frame_value::<T>(start as int, frame@) {
                Ok((id, v)) => r matches Ok(buf) && buf@ == v && buf.sender() == id,
                Err(e) => r matches Err(f) && f == e,
            },
    {
        match decode_frame::<T>(start, frame) {
            Ok((sender, value)) => Ok(BufR { value, sender }),
            Err(e) => Err(e),
        }
    }

    /// The identity that the header of the frame carried.
    pub closed spec fn sender(&self) -> u64 {
        self.sender
    }

    /// The identity that the header of the frame carried.
    pub fn sender_id(&self) -> (id: u64)
        ensures
            id == self.sender(),
    {
        self.sender
    }
}

impl<const N: usize, T: Yule> View for BufR<N, T> {
    type V = T;

    closed spec fn view(&self) -> T {
        self.value
    }
}

impl<const N: usize, T: Yule> crate::transport::BufR<T> for BufR<N, T> {
    open spec fn value(&self) -> T {
        self@
    }

    fn as_ref(&self) -> (r: &T) {
        &self.value
    }
}

/// The producing end of one queue, with the counter that tells the consumer
/// how many frames wait for it.
pub struct Tx<const N: usize> {
    signal: Arc<AtomicUsize>,
    prod: Producer,
    id: usize,
}

/// The consuming end of one queue, with the counter that the producer
/// raises.
pub struct Rx<const N: usize> {
    signal: Arc<AtomicUsize>,
    cons: Consumer,
    spin_limit: u64,
}

/// A frame as it was taken from a queue: the address of its first byte, and
/// its bytes.
pub struct Frame {
    pub start: usize,
    pub bytes: Vec<u8>,
}

impl Frame {
    /// The frame lies within the address space.
    pub open spec fn in_memory(self) -> bool {
        self.start + self.bytes@.len() <= usize::MAX
    }
}

/// The errors that receiving and validating one frame can end in.
pub open spec fn receive_error(e: Error) -> bool {
    e == Error::RxFail || e == Error::BufferUnderflow || e == Error::InvalidMsg
}

/// What waiting for a frame gives: nothing where the wait ran out; else,
/// the counter lowered, the frame where the queue handed one out, and a
/// receive failure where it did not.
pub fn taken_frame(outcome: Option<Result<Frame, ReadGrantError>>) -> (r: Result<
    Option<Frame>,
    Error,
>)
    ensures
        outcome is None ==> r == Ok::<Option<Frame>, Error>(None),
        outcome matches Some(Ok(frame)) ==> r == Ok::<Option<Frame>, Error>(Some(frame)),
        outcome matches Some(Err(_)) ==> r == Err::<Option<Frame>, Error>(Error::RxFail),
{
    match outcome {
        None => Ok(None),
        Some(Ok(frame)) => Ok(Some(frame)),
        Some(Err(_)) => Err(Error::RxFail),
    }
}

/// What asking for a frame of `len` bytes for a `T` gives: a write buffer
/// that holds the zero value where the queue granted the room, a capacity
/// error where it did not.
fn granted_buf<const N: usize, T: Yule>(
    outcome: Result<GrantW, WriteGrantError>,
    len: usize,
    sender: u64,
) -> (r: Result<BufW<N, T>, Error>)
    requires
        len == frame_len(T::wire_size(), T::wire_align()),
        outcome matches Ok(grant) ==> granted(grant).len() == len,
    ensures
        outcome is Ok ==> (r matches Ok(buf) && buf@ == T::from_wire(zeros(T::wire_size()))
            && buf.room() == len && buf.sender() == sender),
        outcome is Err ==> (r matches Err(e) && e == Error::BufferOverflow),
{
    match outcome {
        Ok(grant) => Ok(BufW::new(grant, len, sender)),
        Err(_) => Err(Error::BufferOverflow),
    }
}

/// A queue of `N` bytes with its counter: the producing and the consuming
/// end. The producer writes its frames under the identity 0, and the
/// consumer waits without a limit.
pub fn channel<const N: usize>() -> (ends: (Tx<N>, Rx<N>))
    ensures
        ends.0.id() == 0,
        ends.1.spin_limit() == u64::MAX,
{
    let queue = queue_new(N);
    let signal = Arc::new(AtomicUsize::new(0));
    (
        Tx { prod: queue_producer(&queue), signal: signal_share(&signal), id: 0 },
        Rx { cons: queue_consumer(&queue), signal, spin_limit: u64::MAX },
    )
}

impl<const N: usize> Tx<N> {
    /// The identity of the client that this end belongs to: every frame
    /// that is reserved here carries it in its header.
    pub closed spec fn id(&self) -> usize {
        self.id
    }

    /// The identity of the client that this end belongs to.
    pub fn identity(&self) -> (id: usize)
        ensures
            id == self.id(),
    {
        self.id
    }

    /// The means to wake the consumer of this end after a reply to the
    /// client it belongs to.
    pub fn responder<Arg, Ret>(&self) -> (responder: Responder<N, Arg, Ret>)
        ensures
            responder.client() == self.id(),
    {
        Responder { signal: signal_share(&self.signal), client: self.id, _phantom: PhantomData }
    }

    /// Reserves a frame for one value of type `T`: room for the header, the
    /// value, and as many bytes of slack as its alignment. A type whose
    /// frame is longer than any queue can hold gets a capacity error
    /// without asking.
    pub fn allocate<T: Yule>(&self) -> (r: Result<BufW<N, T>, Error>)
        ensures
            r matches Ok(buf) ==> buf@ == T::from_wire(zeros(T::wire_size())),
            r matches Ok(buf) ==> buf.room() == frame_len(T::wire_size(), T::wire_align()),
            r matches Ok(buf) ==> buf.sender() == wire_id(self.id()),
            r matches Err(e) ==> e == Error::BufferOverflow,
            frame_len(T::wire_size(), T::wire_align()) > MAX_FRAME ==> r is Err,
    {
        match frame_size::<T>() {
            Some(len) => {
                if len > MAX_FRAME {
                    Err(Error::BufferOverflow)
                } else {
                    granted_buf(producer_grant(&self.prod, len), len, client_id(self.id))
                }
            },
            None => Err(Error::BufferOverflow),
        }
    }

    /// Tells the consumer that one more frame waits for it.
    fn signal(&self) {
        self.signal.fetch_add(1, Ordering::Release);
    }

    /// Writes the value of the buffer to its frame, under the identity the
    /// buffer was reserved for, commits the frame, and tells the consumer.
    pub fn send<T: Yule>(&self, msg: BufW<N, T>) {
        msg.commit();
        self.signal();
    }
}

impl<const N: usize> Rx<N> {
    /// How many rounds a wait for a frame may spin.
    pub closed spec fn spin_limit(&self) -> u64 {
        self.spin_limit
    }

    /// Bounds the wait for a frame to `limit` rounds.
    pub fn set_spin_limit(&mut self, limit: u64)
        ensures
            final(self).spin_limit() == limit,
    {
        self.spin_limit = limit;
    }

    /// Waits for the next frame and validates its payload as a `T`. The
    /// frame leaves the queue whether or not it is valid. Which frame
    /// comes, if any, lies with the queue; what is returned for it is
    /// `message_of`. It ends in no other error than a receive failure, an
    /// underflow or an invalid message.
    pub fn take<T: Yule>(&self) -> (r: Result<Option<BufR<N, T>>, Error>)
        ensures
            r matches Err(e) ==> receive_error(e),
    {
        let arrived = self.recv()?;
        message_of(arrived)
    }

    /// Waits for the producer's signal and takes the next frame out of the
    /// queue. `None` where no signal came within the spin limit.
    pub fn recv(&self) -> (r: Result<Option<Frame>, Error>)
        ensures
            r matches Ok(Some(frame)) ==> frame.in_memory(),
            r matches Err(e) ==> e == Error::RxFail,
    {
        let outcome = if spin_wait(&self.signal, self.spin_limit) {
            match consumer_read(&self.cons) {
                Ok(grant) => {
                    let frame = Frame { start: frame_addr(&grant), bytes: frame_bytes(&grant) };
                    grant_release(grant);
                    Some(Ok(frame))
                },
                Err(e) => Some(Err(e)),
            }
        } else {
            None
        };
        taken_frame(outcome)
    }
}

/// The serving side of a service: one inbound queue that all clients write
/// to, and one reply queue for each client, found by the client's identity.
pub struct Server<const N: usize, Arg, Ret> {
    queue: Queue,
    rx: Rx<N>,
    tx: Replies<N>,
    _phantom: PhantomData<(Arg, Ret)>,
}

/// The writing ends of the reply queues of a server: that of each client
/// stands at the place of the client's identity and carries that identity.
struct Replies<const N: usize> {
    ends: Vec<Tx<N>>,
}

impl<const N: usize> Replies<N> {
    #[verifier::type_invariant]
    spec fn wf(self) -> bool {
        forall|i: int| 0 <= i < self.ends@.len() ==> (#[trigger] self.ends@[i]).id == i
    }

    /// Number of clients.
    closed spec fn count(self) -> nat {
        self.ends@.len()
    }

    fn new() -> (replies: Self)
        ensures
            replies.count() == 0,
    {
        Replies { ends: Vec::new() }
    }

    fn len(&self) -> (n: usize)
        ensures
            n == self.count(),
    {
        self.ends.len()
    }

    /// Adds the reply queue of the next client, under the next identity.
    fn attach(&mut self, prod: Producer, signal: Arc<AtomicUsize>) -> (id: usize)
        ensures
            id == old(self).count(),
            final(self).count() == old(self).count() + 1,
    {
        let mut taken = Replies::new();
        std::mem::swap(self, &mut taken);
        proof {
            use_type_invariant(&taken);
        }
        let Replies { mut ends } = taken;
        let id = ends.len();
        ends.push(Tx { prod, signal, id });
        *self = Replies { ends };
        id
    }

    /// The reply queue of the client `id`.
    fn of(&self, id: usize) -> (tx: &Tx<N>)
        requires
            id < self.count(),
        ensures
            tx.id() == id,
    {
        proof {
            use_type_invariant(self);
        }
        &self.ends[id]
    }
}

/// Sends the reply to one request back to the client that asked.
pub struct Responder<const N: usize, Arg, Ret> {
    signal: Arc<AtomicUsize>,
    client: usize,
    _phantom: PhantomData<(Arg, Ret)>,
}

/// The calling side of a service: the shared inbound queue of the server to
/// write requests to, and this client's own reply queue.
pub struct Client<const N: usize, Arg, Ret> {
    tx: Tx<N>,
    rx: Rx<N>,
    _phantom: PhantomData<(Arg, Ret)>,
}

impl<const N: usize, Arg, Ret> Default for Server<N, Arg, Ret> {
    /// A server without clients, on an inbound queue of `N` bytes, that waits
    /// without a limit.
    fn default() -> (server: Self)
        ensures
            server.clients() == 0,
            server.spin_limit() == u64::MAX,
    {
        let queue = queue_new(N);
        let cons = queue_consumer(&queue);
        Server {
            queue,
            rx: Rx { cons, signal: Arc::new(AtomicUsize::new(0)), spin_limit: u64::MAX },
            tx: Replies::new(),
            _phantom: PhantomData,
        }
    }
}

impl<const N: usize, Arg, Ret> Server<N, Arg, Ret> {
    /// Number of clients attached so far.
    pub closed spec fn clients(&self) -> nat {
        self.tx.count()
    }

    /// How many rounds a wait for a request may spin.
    pub closed spec fn spin_limit(&self) -> u64 {
        self.rx.spin_limit()
    }

    /// Number of clients attached so far.
    pub fn client_count(&self) -> (n: usize)
        ensures
            n == self.clients(),
    {
        self.tx.len()
    }

    /// Bounds the wait for a request to `limit` rounds; `recv` then returns
    /// without a request when none came in that time.
    pub fn set_spin_limit(&mut self, limit: u64)
        ensures
            final(self).spin_limit() == limit,
            final(self).clients() == old(self).clients(),
    {
        self.rx.spin_limit = limit;
    }
}

impl<const N: usize, Arg: Yule, Ret: Yule> Server<N, Arg, Ret> {
    /// Attaches a new client. It gets the next identity, a writing end of
    /// the inbound queue, and a reply queue of its own of `N` bytes.
    pub fn client(&mut self) -> (client: Client<N, Arg, Ret>)
        ensures
            client.id() == old(self).clients(),
            client.spin_limit() == old(self).spin_limit(),
            final(self).clients() == old(self).clients() + 1,
            final(self).spin_limit() == old(self).spin_limit(),
    {
        let reply = queue_new(N);
        let signal = Arc::new(AtomicUsize::new(0));
        let id = self.tx.attach(queue_producer(&reply), signal_share(&signal));
        Client {
            tx: Tx {
                prod: queue_producer(&self.queue),
                signal: signal_share(&self.rx.signal),
                id,
            },
            rx: Rx { cons: queue_consumer(&reply), signal, spin_limit: self.rx.spin_limit },
            _phantom: PhantomData,
        }
    }
}

impl<const N: usize, Arg: Yule, Ret: Yule> crate::transport::ServiceRx for Server<N, Arg, Ret> {
    type Arg = Arg;

    type Ret = Ret;

    type Responder = Responder<N, Arg, Ret>;

    type BufR = BufR<N, Arg>;

    type BufW = BufW<N, Ret>;

    /// Waits for the next request frame. The frame names its sender; the
    /// reply buffer is reserved in that client's queue, under that client's
    /// identity, before the request is validated, and the responder wakes
    /// that client: request, reply buffer and responder name one client. Which frame comes, if
    /// any, and whether the reply can be reserved lie with the queues; the
    /// client is found by `sender_of`, and what is returned then is
    /// `request_of`.
    fn recv(&mut self) -> (r: Result<Option<Recv<BufW<N, Ret>, BufR<N, Arg>, Responder<N, Arg, Ret>>>, Error>)
        ensures
            final(self).clients() == old(self).clients(),
            final(self).spin_limit() == old(self).spin_limit(),
            r matches Ok(Some(recv)) ==> recv.responder.client() < old(self).clients(),
            r matches Ok(Some(recv)) ==> recv.req.sender() == wire_id(recv.responder.client()),
            r matches Ok(Some(recv)) ==> recv.resp.sender() == wire_id(recv.responder.client()),
            r matches Ok(Some(recv)) ==> recv.resp.room() == frame_len(
                Ret::wire_size(),
                Ret::wire_align(),
            ),
            r matches Err(e) ==> receive_error(e) || e == Error::BufferOverflow,
    {
        let frame = match self.rx.recv()? {
            Some(frame) => frame,
            None => {
                return Ok(None);
            },
        };
        let id = sender_of(frame.bytes.as_slice(), self.tx.len())?;
        let reply = self.tx.of(id);
        let reserved = reply.allocate::<Ret>();
        let responder = reply.responder();
        request_of(&frame, reserved, responder)
    }
}

/// What serving returns for the frame of a request once the client it names
/// is found: the failure to reserve the reply where there was one; else the
/// reason why the request is refused, or the validated request with the
/// reserved reply and the responder for that client.
pub fn request_of<const N: usize, Arg: Yule, Ret: Yule>(
    frame: &Frame,
    reserved: Result<BufW<N, Ret>, Error>,
    responder: Responder<N, Arg, Ret>,
) -> (r: Result<Option<Recv<BufW<N, Ret>, BufR<N, Arg>, Responder<N, Arg, Ret>>>, Error>)
    requires
        frame.in_memory(),
    ensures
        reserved matches Err(e) ==> (r matches Err(f) && f == e),
        reserved matches Ok(resp) ==> match frame_value::<Arg>(frame.start as int, frame.bytes@) {
            Ok((id, v)) => r matches Ok(Some(recv)) && recv.req@ == v && recv.req.sender() == id
                && recv.resp == resp && recv.responder == responder,
            Err(e) => r matches Err(f) && f == e,
        },
{
    let resp = match reserved {
        Ok(resp) => resp,
        Err(e) => {
            return Err(e);
        },
    };
    match BufR::new(frame.start, frame.bytes.as_slice()) {
        Ok(req) => Ok(Some(Recv { req, resp, responder })),
        Err(e) => Err(e),
    }
}

impl<const N: usize, Arg, Ret> Responder<N, Arg, Ret> {
    /// The identity of the client that the reply goes to.
    pub closed spec fn client(&self) -> usize {
        self.client
    }

    /// The identity of the client that the reply goes to.
    pub fn client_id(&self) -> (id: usize)
        ensures
            id == self.client(),
    {
        self.client
    }
}

impl<const N: usize, Arg: Yule, Ret: Yule> crate::transport::Responder for Responder<N, Arg, Ret> {
    type Ret = Ret;

    type BufW = BufW<N, Ret>;

    /// Commits the reply to the client's queue and raises the client's
    /// counter. This cannot fail.
    fn send(self, msg: BufW<N, Ret>) -> (r: Result<(), Error>)
        ensures
            r == Ok::<(), Error>(()),
    {
        msg.commit();
        self.signal.fetch_add(1, Ordering::Release);
        Ok(())
    }
}

impl<const N: usize, Arg, Ret> Client<N, Arg, Ret> {
    /// The identity the server gave this client.
    pub closed spec fn id(&self) -> usize {
        self.tx.id()
    }

    /// How many rounds a wait for a reply may spin.
    pub closed spec fn spin_limit(&self) -> u64 {
        self.rx.spin_limit()
    }

    /// The identity the server gave this client.
    pub fn identity(&self) -> (id: usize)
        ensures
            id == self.id(),
    {
        self.tx.identity()
    }

    /// Bounds the wait for a reply to `limit` rounds; `call` then fails when
    /// none came in that time.
    pub fn set_spin_limit(&mut self, limit: u64)
        ensures
            final(self).spin_limit() == limit,
            final(self).id() == old(self).id(),
    {
        self.rx.spin_limit = limit;
    }
}

impl<const N: usize, Arg: Yule, Ret: Yule> Client<N, Arg, Ret> {
    /// The first half of a call: writes the request under this client's
    /// identity, commits it, and wakes the server.
    pub fn post(&mut self, msg: BufW<N, Arg>)
        ensures
            final(self).id() == old(self).id(),
            final(self).spin_limit() == old(self).spin_limit(),
    {
        self.tx.send(msg);
    }

    /// The second half of a call, without the failure for a wait that ran
    /// out: the validated reply, or none where no reply came within the
    /// spin limit.
    pub fn poll(&mut self) -> (r: Result<Option<BufR<N, Ret>>, Error>)
        ensures
            final(self).id() == old(self).id(),
            final(self).spin_limit() == old(self).spin_limit(),
            r matches Err(e) ==> receive_error(e),
    {
        let arrived = self.rx.recv()?;
        message_of(arrived)
    }
}

/// What a call returns once the request is on its way: the validated reply
/// where a frame came back, a receive failure where the wait ran out.
pub fn reply_of<const N: usize, T: Yule>(arrived: Option<Frame>) -> (r: Result<BufR<N, T>, Error>)
    requires
        arrived matches Some(frame) ==> frame.in_memory(),
    ensures
        arrived is None ==> (r matches Err(e) && e == Error::RxFail),
        arrived matches Some(frame) ==> match frame_value::<T>(frame.start as int, frame.bytes@) {
            Ok((id, v)) => r matches Ok(buf) && buf@ == v && buf.sender() == id,
            Err(e) => r matches Err(f) && f == e,
        },
{
    match arrived {
        Some(frame) => BufR::new(frame.start, frame.bytes.as_slice()),
        None => Err(Error::RxFail),
    }
}

impl<const N: usize, Arg: Yule, Ret: Yule> crate::transport::ServiceTx for Client<N, Arg, Ret> {
    type Arg = Arg;

    type Ret = Ret;

    type BufW = BufW<N, Arg>;

    type BufR = BufR<N, Ret>;

    /// Writes the request under this client's identity, commits it, wakes
    /// the server, waits for the reply on this client's own queue and
    /// validates it.
    fn call(&mut self, msg: BufW<N, Arg>) -> (r: Result<BufR<N, Ret>, Error>)
        ensures
            final(self).id() == old(self).id(),
            final(self).spin_limit() == old(self).spin_limit(),
            r matches Err(e) ==> receive_error(e),
    {
        self.post(msg);
        let arrived = self.rx.recv()?;
        reply_of(arrived)
    }

    /// Reserves a request frame in the server's inbound queue.
    fn allocate(&mut self) -> (r: Result<BufW<N, Arg>, Error>)
        ensures
            final(self).id() == old(self).id(),
            final(self).spin_limit() == old(self).spin_limit(),
            r matches Ok(buf) ==> buf.room() == frame_len(Arg::wire_size(), Arg::wire_align()),
            r matches Ok(buf) ==> buf.sender() == wire_id(old(self).id()),
            frame_len(Arg::wire_size(), Arg::wire_align()) > MAX_FRAME ==> r is Err,
    {
        self.tx.allocate::<Arg>()
    }
}

/// The sending side of a bus over one ring buffer.
pub struct BusTx<const N: usize, Msg> {
    tx: Tx<N>,
    _phantom: PhantomData<Msg>,
}

/// The receiving side of a bus over one ring buffer.
pub struct BusRx<const N: usize, Msg> {
    rx: Rx<N>,
    _phantom: PhantomData<Msg>,
}

/// A bus over one ring buffer of `N` bytes: its sending and its receiving
/// side. The receiver waits without a limit.
pub fn bus<const N: usize, Msg: Yule>() -> (ends: (BusTx<N, Msg>, BusRx<N, Msg>))
    ensures
        ends.0.id() == 0,
        ends.1.spin_limit() == u64::MAX,
{
    let (tx, rx) = channel();
    (BusTx { tx, _phantom: PhantomData }, BusRx { rx, _phantom: PhantomData })
}

impl<const N: usize, Msg: Yule> crate::transport::BusTx for BusTx<N, Msg> {
    type Msg = Msg;

    type BufW = BufW<N, Msg>;

    /// Commits the message and wakes the receiver. This cannot fail.
    fn send(&mut self, msg: BufW<N, Msg>) -> (r: Result<(), Error>)
        ensures
            r == Ok::<(), Error>(()),
            final(self).id() == old(self).id(),
    {
        self.tx.send(msg);
        Ok(())
    }

    /// Reserves a message frame in the queue.
    fn allocate(&mut self) -> (r: Result<BufW<N, Msg>, Error>)
        ensures
            r matches Ok(buf) ==> buf.room() == frame_len(Msg::wire_size(), Msg::wire_align()),
            r matches Ok(buf) ==> buf.sender() == wire_id(old(self).id()),
            final(self).id() == old(self).id(),
            frame_len(Msg::wire_size(), Msg::wire_align()) > MAX_FRAME ==> r is Err,
    {
        self.tx.allocate::<Msg>()
    }
}

impl<const N: usize, Msg> BusTx<N, Msg> {
    /// The identity that the frames of this bus carry: 0 on a bus that `bus`
    /// made.
    pub closed spec fn id(&self) -> usize {
        self.tx.id()
    }
}

impl<const N: usize, Msg> BusRx<N, Msg> {
    /// How many rounds a wait for a message may spin.
    pub closed spec fn spin_limit(&self) -> u64 {
        self.rx.spin_limit()
    }

    /// Bounds the wait for a message to `limit` rounds; `recv` then returns
    /// without a message when none came in that time.
    pub fn set_spin_limit(&mut self, limit: u64)
        ensures
            final(self).spin_limit() == limit,
    {
        self.rx.spin_limit = limit;
    }
}

/// What a bus receiver returns for what came out of the queue: nothing
/// where the wait ran out, else the validated message or the reason why the
/// frame is refused.
pub fn message_of<const N: usize, T: Yule>(arrived: Option<Frame>) -> (r: Result<
    Option<BufR<N, T>>,
    Error,
>)
    requires
        arrived matches Some(frame) ==> frame.in_memory(),
    ensures
        arrived is None ==> r matches Ok(None),
        arrived matches Some(frame) ==> match frame_value::<T>(frame.start as int, frame.bytes@) {
            Ok((id, v)) => r matches Ok(Some(buf)) && buf@ == v && buf.sender() == id,
            Err(e) => r matches Err(f) && f == e,
        },
{
    match arrived {
        Some(frame) => {
            match BufR::new(frame.start, frame.bytes.as_slice()) {
                Ok(buf) => Ok(Some(buf)),
                Err(e) => Err(e),
            }
        },
        None => Ok(None),
    }
}

impl<const N: usize, Msg: Yule> crate::transport::BusRx for BusRx<N, Msg> {
    type Msg = Msg;

    type BufR = BufR<N, Msg>;

    /// Waits for the next message frame and validates it.
    fn recv(&mut self) -> (r: Result<Option<BufR<N, Msg>>, Error>)
        ensures
            final(self).spin_limit() == old(self).spin_limit(),
            r matches Err(e) ==> receive_error(e),
    {
        let arrived = self.rx.recv()?;
        message_of(arrived)
    }
}

} // verus!
