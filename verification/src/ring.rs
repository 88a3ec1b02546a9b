use bbqueue::prod_cons::framed::{FramedConsumer, FramedGrantR, FramedGrantW, FramedProducer};
use bbqueue::traits::coordination::cas::AtomicCoord;
use bbqueue::traits::coordination::{ReadGrantError, WriteGrantError};
use bbqueue::traits::notifier::polling::Polling;
use bbqueue::traits::storage::BoxedSlice;
use bbqueue::traits::bbqhdl::BbqHandle;
use bbqueue::BBQueue;
use std::sync::atomic::AtomicUsize;
use std::sync::Arc;
use vstd::prelude::*;

verus! {

/// The largest frame that is ever asked of a queue.
pub const MAX_FRAME: usize = 0x3fff_ffff;

/// A `bbqueue::BBQueue` with its storage on the heap, lock-free
/// coordination and no notification, behind an `Arc`: a framed ring buffer
/// shared by its producers and its consumer. The queue is generic over
/// traits of its crate, so it is held here as a whole.
#[verifier::external_body]
pub struct Queue {
    inner: Arc<BBQueue<BoxedSlice, AtomicCoord, Polling>>,
}

/// A `bbqueue` `FramedProducer` with a length header of one machine word:
/// the writing end of a queue.
#[verifier::external_body]
pub struct Producer {
    inner: FramedProducer<Arc<BBQueue<BoxedSlice, AtomicCoord, Polling>>, usize>,
}

/// A `bbqueue` `FramedConsumer`: the reading end of a queue.
#[verifier::external_body]
pub struct Consumer {
    inner: FramedConsumer<Arc<BBQueue<BoxedSlice, AtomicCoord, Polling>>, usize>,
}

/// A `bbqueue` `FramedGrantW`: room for one frame, reserved in a queue and
/// not yet committed.
#[verifier::external_body]
pub struct GrantW {
    inner: FramedGrantW<Arc<BBQueue<BoxedSlice, AtomicCoord, Polling>>, usize>,
}

/// A `bbqueue` `FramedGrantR`: one frame, taken from a queue and not yet
/// released.
#[verifier::external_body]
pub struct GrantR {
    inner: FramedGrantR<Arc<BBQueue<BoxedSlice, AtomicCoord, Polling>>, usize>,
}

/// `bbqueue`'s `WriteGrantError`: why a queue refused a write grant.
#[verifier::external_type_specification]
#[verifier::external_body]
pub struct ExWriteGrantError(WriteGrantError);

/// `bbqueue`'s `ReadGrantError`: why a queue refused a read grant.
#[verifier::external_type_specification]
#[verifier::external_body]
pub struct ExReadGrantError(ReadGrantError);

/// The bytes that a write grant holds.
pub uninterp spec fn granted(grant: GrantW) -> Seq<u8>;

/// `BBQueue::new_with_storage` on `BoxedSlice::new(capacity)`: a new, empty
/// queue with room for `capacity` bytes. Nothing is claimed of it.
#[verifier::external_body]
pub(crate) fn queue_new(capacity: usize) -> (queue: Queue) {
    Queue { inner: Arc::new(BBQueue::new_with_storage(BoxedSlice::new(capacity))) }
}

/// `BbqHandle::framed_producer`: a writing end of the queue.
#[verifier::external_body]
pub(crate) fn queue_producer(queue: &Queue) -> (producer: Producer) {
    Producer { inner: BbqHandle::framed_producer(&queue.inner) }
}

/// `BbqHandle::framed_consumer`: a reading end of the queue.
#[verifier::external_body]
pub(crate) fn queue_consumer(queue: &Queue) -> (consumer: Consumer) {
    Consumer { inner: BbqHandle::framed_consumer(&queue.inner) }
}

/// `FramedProducer::grant`: asks for room for a frame of `len` bytes. Whether
/// room is granted depends on what the queue holds at that moment; a grant
/// that is made holds exactly `len` bytes. The bound on `len` keeps the
/// queue's own offset arithmetic in range.
#[verifier::external_body]
pub(crate) fn producer_grant(producer: &Producer, len: usize) -> (r: Result<
    GrantW,
    WriteGrantError,
>)
    requires
        len <= MAX_FRAME,
    ensures
        r matches Ok(grant) ==> granted(grant).len() == len,
{
    match producer.inner.grant(len) {
        Ok(grant) => Ok(GrantW { inner: grant }),
        Err(e) => Err(e),
    }
}

/// The address of the first byte of a write grant (`as_ptr` on the grant's
/// bytes). Nothing is claimed of it.
#[verifier::external_body]
pub(crate) fn grant_addr(grant: &GrantW) -> (addr: usize) {
    grant.inner.as_ptr() as usize
}

/// `copy_from_slice` on the grant's bytes: the grant then holds `frame`.
/// The two must have the same length.
#[verifier::external_body]
pub(crate) fn grant_fill(grant: &mut GrantW, frame: &[u8])
    requires
        frame@.len() == granted(*old(grant)).len(),
    ensures
        granted(*final(grant)) == frame@,
{
    grant.inner.copy_from_slice(frame);
}

/// `FramedGrantW::commit`: hands the first `used` bytes of the grant to the
/// consumer as one frame.
#[verifier::external_body]
pub(crate) fn grant_commit(grant: GrantW, used: usize) {
    grant.inner.commit(used);
}

/// The bytes of the frame that a read grant holds.
pub uninterp spec fn held(grant: GrantR) -> Seq<u8>;

/// `FramedConsumer::read`: takes the oldest frame that is not yet released,
/// if the queue holds one and no other read grant is out.
#[verifier::external_body]
pub(crate) fn consumer_read(consumer: &Consumer) -> (r: Result<GrantR, ReadGrantError>) {
    match consumer.inner.read() {
        Ok(grant) => Ok(GrantR { inner: grant }),
        Err(e) => Err(e),
    }
}

/// The address of the first byte of a read grant (`as_ptr` on the grant's
/// bytes). The bytes lie in memory, so their last address is one too.
#[verifier::external_body]
pub(crate) fn frame_addr(grant: &GrantR) -> (addr: usize)
    ensures
        addr + held(*grant).len() <= usize::MAX,
{
    grant.inner.as_ptr() as usize
}

/// A copy of the bytes of a read grant (`to_vec`). They are whatever the
/// producer committed.
#[verifier::external_body]
pub(crate) fn frame_bytes(grant: &GrantR) -> (bytes: Vec<u8>)
    ensures
        bytes@ == held(*grant),
{
    grant.inner.to_vec()
}

/// `FramedGrantR::release`: gives the room of the frame back to the queue.
#[verifier::external_body]
pub(crate) fn grant_release(grant: GrantR) {
    grant.inner.release();
}

/// `Arc::clone` on a signal counter: another handle to the same counter.
#[verifier::external_body]
pub(crate) fn signal_share(signal: &Arc<AtomicUsize>) -> (shared: Arc<AtomicUsize>) {
    signal.clone()
}

/// `std::hint::spin_loop`: tells the processor that this is a busy wait.
#[verifier::external_body]
pub(crate) fn spin_hint() {
    std::hint::spin_loop();
}

} // verus!
