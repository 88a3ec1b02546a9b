use crate::bbq::{wait_step, Wait};
use crate::error::Error;
use crate::yule::{zeros, Wire, Yule};
use multiqueue::BroadcastReceiver;
use multiqueue::BroadcastSender;
use std::marker::PhantomData;
use std::sync::mpsc::TryRecvError;
use std::sync::mpsc::TrySendError;
use vstd::prelude::*;

verus! {

/// The largest capacity a broadcast queue is made with. The queue reserves
/// its slots at once, so the bound keeps that allocation in range; a queue
/// never holds more messages than this.
pub const MAX_CAPACITY: u64 = 0x10000;

/// `multiqueue::BroadcastSender`: the sending end of a broadcast queue.
#[verifier::external_type_specification]
#[verifier::external_body]
#[verifier::reject_recursive_types(T)]
pub struct ExBroadcastSender<T: Clone>(BroadcastSender<T>);

/// `multiqueue::BroadcastReceiver`: a receiving end of a broadcast queue.
#[verifier::external_type_specification]
#[verifier::external_body]
#[verifier::reject_recursive_types(T)]
pub struct ExBroadcastReceiver<T: Clone>(BroadcastReceiver<T>);

/// `std::sync::mpsc::TrySendError`: why a send did not go through. The queue
/// is full, or no receiver is left.
#[verifier::external_type_specification]
#[verifier::reject_recursive_types(T)]
pub struct ExTrySendError<T>(TrySendError<T>);

/// `std::sync::mpsc::TryRecvError`: why nothing was received. The queue is
/// empty, or no sender is left.
#[verifier::external_type_specification]
pub struct ExTryRecvError(TryRecvError);

/// `multiqueue::broadcast_queue`: a new broadcast queue with one sender and
/// one receiver. Nothing is claimed of it. The bound keeps the allocation of
/// its slots in range.
#[verifier::external_body]
fn queue_pair<T: Clone>(capacity: u64) -> (ends: (BroadcastSender<T>, BroadcastReceiver<T>))
    requires
        capacity <= MAX_CAPACITY,
{
    multiqueue::broadcast_queue(capacity)
}

/// `BroadcastSender::try_send`: offers `val` to every receiver, without
/// waiting. Whether it goes through depends on what the receivers have read.
#[verifier::external_body]
fn sender_try_send<T: Clone>(sender: &BroadcastSender<T>, val: T) -> (r: Result<
    (),
    TrySendError<T>,
>) {
    sender.try_send(val)
}

/// `BroadcastSender::clone`: a further sender on the same queue.
#[verifier::external_body]
fn sender_clone<T: Clone>(sender: &BroadcastSender<T>) -> (added: BroadcastSender<T>) {
    sender.clone()
}

/// `BroadcastReceiver::try_recv`: takes the next value for this receiver,
/// without waiting.
#[verifier::external_body]
fn receiver_try_recv<T: Clone>(receiver: &BroadcastReceiver<T>) -> (r: Result<T, TryRecvError>) {
    receiver.try_recv()
}

/// `BroadcastReceiver::add_stream`: a further receiver, which starts at the
/// position of this one.
#[verifier::external_body]
fn receiver_add_stream<T: Clone>(receiver: &BroadcastReceiver<T>) -> (added: BroadcastReceiver<T>) {
    receiver.add_stream()
}

/// A buffer of the broadcast transport: the message itself.
#[derive(Clone)]
pub struct Buf<T: Yule>(T);

impl<T: Yule> View for Buf<T> {
    type V = T;

    closed spec fn view(&self) -> T {
        self.0
    }
}

impl<T: Yule> crate::transport::BufR<T> for Buf<T> {
    open spec fn value(&self) -> T {
        self@
    }

    fn as_ref(&self) -> (r: &T) {
        &self.0
    }
}

impl<T: Yule> crate::transport::BufW<T> for Buf<T> {
    fn as_mut(&mut self) -> (r: &mut T) {
        &mut self.0
    }
}

/// The sending side of a broadcast bus.
#[verifier::reject_recursive_types(Msg)]
pub struct BusTx<Msg: Yule> {
    tx: BroadcastSender<Buf<Msg>>,
    _phantom: PhantomData<Msg>,
}

/// A subscriber of a broadcast bus.
#[verifier::reject_recursive_types(Msg)]
pub struct BusRx<Msg: Yule> {
    rx: BroadcastReceiver<Buf<Msg>>,
    spin_limit: u64,
    _phantom: PhantomData<Msg>,
}

/// A broadcast bus with room for `capacity` messages: its sending side and
/// its first subscriber, which waits without a limit.
pub fn pair<Msg: Yule>(capacity: u64) -> (ends: (BusTx<Msg>, BusRx<Msg>))
    requires
        capacity <= MAX_CAPACITY,
    ensures
        ends.1.spin_limit() == u64::MAX,
{
    let (tx, rx) = queue_pair(capacity);
    (BusTx { tx, _phantom: PhantomData }, BusRx { rx, spin_limit: u64::MAX, _phantom: PhantomData })
}

/// A broadcast bus with room for `capacity` messages, or none where
/// `capacity` is above `MAX_CAPACITY`.
pub fn try_pair<Msg: Yule>(capacity: u64) -> (ends: Option<(BusTx<Msg>, BusRx<Msg>)>)
    ensures
        ends is Some <==> capacity <= MAX_CAPACITY,
        ends matches Some(made) ==> made.1.spin_limit() == u64::MAX,
{
    if capacity <= MAX_CAPACITY {
        Some(pair(capacity))
    } else {
        None
    }
}

impl<Msg: Yule> Clone for BusTx<Msg> {
    /// A further sender on the same bus.
    fn clone(&self) -> (added: Self) {
        BusTx { tx: sender_clone(&self.tx), _phantom: PhantomData }
    }
}

/// What sending returns for what the queue answered: a send failure
/// whenever the message did not go through.
pub fn sent<T>(outcome: Result<(), TrySendError<T>>) -> (r: Result<(), Error>)
    ensures
        outcome is Ok ==> r == Ok::<(), Error>(()),
        outcome is Err ==> r == Err::<(), Error>(Error::TxFail),
{
    match outcome {
        Ok(()) => Ok(()),
        Err(_) => Err(Error::TxFail),
    }
}

impl<Msg: Yule> crate::transport::BusTx for BusTx<Msg> {
    type Msg = Msg;

    type BufW = Buf<Msg>;

    /// Offers the message to every subscriber.
    fn send(&mut self, msg: Buf<Msg>) -> (r: Result<(), Error>)
        ensures
            r matches Err(e) ==> e == Error::TxFail,
    {
        sent(sender_try_send(&self.tx, msg))
    }

    /// A buffer that holds the zero value. This cannot fail.
    fn allocate(&mut self) -> (r: Result<Buf<Msg>, Error>)
        ensures
            r is Ok,
    {
        Ok(Buf(Msg::zeroed()))
    }
}

impl<Msg: Yule> BusRx<Msg> {
    /// How many rounds a wait for a message may spin.
    pub closed spec fn spin_limit(&self) -> u64 {
        self.spin_limit
    }

    /// Bounds the wait for a message to `limit` rounds; `recv` then returns
    /// without a message when none came in that time.
    pub fn set_spin_limit(&mut self, limit: u64)
        ensures
            final(self).spin_limit() == limit,
    {
        self.spin_limit = limit;
    }

    /// A further subscriber with the same spin limit. It sees what is
    /// published from now on. The queue starts it where this subscriber
    /// stands; what was published before and waits there is taken off for it
    /// here, so that nothing is replayed to it.
    pub fn subscribe(&self) -> (added: Self)
        ensures
            added.spin_limit() == self.spin_limit(),
    {
        let rx = receiver_add_stream(&self.rx);
        let mut left: u64 = MAX_CAPACITY;
        while left > 0
            invariant
                left <= MAX_CAPACITY,
            decreases left,
        {
            left = backlog_left(polled(receiver_try_recv(&rx)), left);
        }
        BusRx { rx, spin_limit: self.spin_limit, _phantom: PhantomData }
    }
}

impl<Msg: Yule> Clone for BusRx<Msg> {
    fn clone(&self) -> (added: Self)
        ensures
            added.spin_limit() == self.spin_limit(),
    {
        self.subscribe()
    }
}

/// What one poll of the queue means for a subscriber.
pub enum Polled<T> {
    /// A message came.
    Message(T),
    /// Nothing is there yet.
    Empty,
    /// No sender is left.
    Closed,
}

/// Sorts the outcome of one poll.
pub fn polled<T>(outcome: Result<T, TryRecvError>) -> (p: Polled<T>)
    ensures
        outcome matches Ok(v) ==> p == Polled::Message(v),
        outcome matches Err(TryRecvError::Empty) ==> p == Polled::<T>::Empty,
        outcome matches Err(TryRecvError::Disconnected) ==> p == Polled::<T>::Closed,
{
    match outcome {
        Ok(v) => Polled::Message(v),
        Err(TryRecvError::Empty) => Polled::Empty,
        Err(TryRecvError::Disconnected) => Polled::Closed,
    }
}

/// How many messages of the backlog a new subscriber may still have to
/// skip after one poll: one less where a message was there, none where the
/// queue was empty or closed.
pub fn backlog_left<T>(polled: Polled<T>, left: u64) -> (now: u64)
    requires
        left > 0,
    ensures
        now == (if polled is Message {
            left - 1
        } else {
            0
        }),
{
    match polled {
        Polled::Message(_) => left - 1,
        _ => 0,
    }
}

impl<Msg: Yule> crate::transport::BusRx for BusRx<Msg> {
    type Msg = Msg;

    type BufR = Buf<Msg>;

    /// Polls for the next message, at most `spin_limit` rounds after the
    /// first look. A bus without a sender is a receive failure.
    fn recv(&mut self) -> (r: Result<Option<Buf<Msg>>, Error>)
        ensures
            final(self).spin_limit() == old(self).spin_limit(),
            r matches Err(e) ==> e == Error::RxFail,
    {
        let mut spins: u64 = 0;
        loop
            invariant
                spins <= self.spin_limit,
                self.spin_limit == old(self).spin_limit,
            decreases self.spin_limit - spins,
        {
            match polled(receiver_try_recv(&self.rx)) {
                Polled::Message(buf) => {
                    return Ok(Some(buf));
                },
                Polled::Closed => {
                    return Err(Error::RxFail);
                },
                Polled::Empty => {},
            }
            match wait_step(false, spins, self.spin_limit) {
                Wait::Spin => {
                    crate::ring::spin_hint();
                    spins += 1;
                },
                _ => {
                    return Ok(None);
                },
            }
        }
    }
}

} // verus!
