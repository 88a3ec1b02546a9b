use crate::error::Error;
use crate::yule::{zeros, Wire, Yule};
use vstd::prelude::*;

verus! {

/// A buffer that a transport hands out for reading a value of type `T`. The
/// bytes behind it passed validation when the buffer was made.
pub trait BufR<T: Yule> {
    /// The value the buffer holds.
    spec fn value(&self) -> T;

    /// The value, for reading.
    fn as_ref(&self) -> (r: &T)
        ensures
            *r == self.value(),
    ;
}

/// A buffer that a transport hands out for writing a value of type `T`. It
/// reaches the peer only when it is handed back to the transport.
pub trait BufW<T: Yule>: BufR<T> {
    /// The value, for writing: what is written through the reference is the
    /// value the buffer holds afterwards.
    fn as_mut(&mut self) -> (r: &mut T)
        ensures
            *r == old(self).value(),
            final(self).value() == *final(r),
    ;
}

/// The sending side of a service transport: request and reply, like a
/// function call. The buffers belong to the transport.
pub trait ServiceTx {
    type Arg: Yule;

    type Ret: Yule;

    /// The buffer a request is written to.
    type BufW: BufW<Self::Arg>;

    /// The buffer a reply is read from.
    type BufR: BufR<Self::Ret>;

    /// Sends the request and waits for its reply.
    fn call(&mut self, msg: Self::BufW) -> (r: Result<Self::BufR, Error>);

    /// Reserves a buffer for one request. It starts out as the zero value,
    /// and the only failure is a queue without room.
    fn allocate(&mut self) -> (r: Result<Self::BufW, Error>)
        ensures
            r matches Ok(buf) ==> buf.value() == Self::Arg::from_wire(
                zeros(Self::Arg::wire_size()),
            ),
            r matches Err(e) ==> e == Error::BufferOverflow,
    ;
}

/// Sends the reply to one received request.
pub trait Responder {
    type Ret: Yule;

    /// The buffer the reply was written to.
    type BufW: BufW<Self::Ret>;

    /// Commits the reply and wakes the client that asked.
    fn send(self, msg: Self::BufW) -> (r: Result<(), Error>);
}

/// A request together with the buffer for its reply and the means to send it.
pub struct Recv<BW, BR, R> {
    pub req: BR,
    pub resp: BW,
    pub responder: R,
}

/// The receiving side of a service transport.
pub trait ServiceRx {
    type Arg: Yule;

    type Ret: Yule;

    /// Sends the reply to a request received here.
    type Responder: Responder<Ret = Self::Ret, BufW = Self::BufW>;

    /// The buffer a request is read from.
    type BufR: BufR<Self::Arg>;

    /// The buffer a reply is written to.
    type BufW: BufW<Self::Ret>;

    /// Polls for the next request. With it come a reply buffer that holds the
    /// zero value, and the responder that sends it.
    fn recv(&mut self) -> (r: Result<Option<Recv<Self::BufW, Self::BufR, Self::Responder>>, Error>)
        ensures
            r matches Ok(Some(recv)) ==> recv.resp.value() == Self::Ret::from_wire(
                zeros(Self::Ret::wire_size()),
            ),
    ;
}

/// The sending side of a bus transport: one-way messages, no reply.
pub trait BusTx {
    type Msg: Yule;

    /// The buffer a message is written to.
    type BufW: BufW<Self::Msg>;

    /// Puts the message on the bus.
    fn send(&mut self, msg: Self::BufW) -> (r: Result<(), Error>);

    /// Reserves a buffer for one message. It starts out as the zero value,
    /// and the only failure is a queue without room.
    fn allocate(&mut self) -> (r: Result<Self::BufW, Error>)
        ensures
            r matches Ok(buf) ==> buf.value() == Self::Msg::from_wire(
                zeros(Self::Msg::wire_size()),
            ),
            r matches Err(e) ==> e == Error::BufferOverflow,
    ;
}

/// The receiving side of a bus transport.
pub trait BusRx {
    type Msg: Yule;

    /// The buffer a message is read from.
    type BufR: BufR<Self::Msg>;

    /// Polls for the next message.
    fn recv(&mut self) -> (r: Result<Option<Self::BufR>, Error>);
}

} // verus!
