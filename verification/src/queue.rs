use heapless::spsc::Queue;
use vstd::prelude::*;

use crate::axl::{AxlPacket, AxlPacketView};

verus! {

/// Segments that an outbound queue holds at most.
pub const QUEUE_CAPACITY: usize = 32;

/// heapless' `spsc::Queue`, a ring of `N` slots of which one always stays
/// free. The verifier sees nothing inside it.
#[verifier::external_type_specification]
#[verifier::external_body]
#[verifier::reject_recursive_types(T)]
pub struct ExQueue<T, const N: usize>(Queue<T, N>);

/// The segments in a queue of 33 slots, the oldest first.
pub uninterp spec fn queued(queue: Queue<AxlPacket, 33>) -> Seq<AxlPacket>;

/// A queue of `capacity` that holds `items` has room for one more.
pub open spec fn accepts<T>(items: Seq<T>, capacity: nat) -> bool {
    items.len() < capacity
}

/// The answer to the caller who offered `item`: nothing if there was room,
/// and else the item itself.
pub open spec fn answer<T>(room: bool, item: T) -> Result<(), T> {
    if room {
        Ok(())
    } else {
        Err(item)
    }
}

/// The contents after `item` was offered to a queue of `capacity` that held
/// `items`: it goes to the back if there is room, and else nothing changes.
pub open spec fn enqueued<T>(items: Seq<T>, capacity: nat, item: T) -> Seq<T> {
    if accepts(items, capacity) {
        items.push(item)
    } else {
        items
    }
}

/// The contents after each item of `batch` was offered in turn.
pub open spec fn enqueued_all<T>(items: Seq<T>, capacity: nat, batch: Seq<T>) -> Seq<T>
    decreases batch.len(),
{
    if batch.len() == 0 {
        items
    } else {
        enqueued_all(enqueued(items, capacity, batch[0]), capacity, batch.drop_first())
    }
}

/// The oldest of `items`, if there is any.
pub open spec fn front<T>(items: Seq<T>) -> Option<T> {
    if items.len() > 0 {
        Some(items[0])
    } else {
        None
    }
}

/// The contents after the oldest of `items` was taken out.
pub open spec fn dequeued<T>(items: Seq<T>) -> Seq<T> {
    if items.len() > 0 {
        items.drop_first()
    } else {
        items
    }
}

/// Calls heapless' `spsc::Queue::new`.
///
/// Trusted: that the new queue is empty.
#[verifier::external_body]
fn queue_new() -> (queue: Queue<AxlPacket, 33>)
    ensures
        queued(queue) == Seq::<AxlPacket>::empty(),
{
    Queue::new()
}

/// Calls heapless' `spsc::Queue::len`.
///
/// Trusted: that it counts the items in the queue, and that a queue of 33
/// slots never holds more than 32.
#[verifier::external_body]
fn queue_len(queue: &Queue<AxlPacket, 33>) -> (len: usize)
    ensures
        len == queued(*queue).len(),
        len <= QUEUE_CAPACITY,
{
    queue.len()
}

/// Calls heapless' `spsc::Queue::enqueue`.
///
/// Trusted: that a queue of 33 slots takes the item at its back while it
/// holds fewer than 32, and else stays as it is and gives the item back.
#[verifier::external_body]
fn queue_enqueue(queue: &mut Queue<AxlPacket, 33>, item: AxlPacket) -> (result: Result<
    (),
    AxlPacket,
>)
    ensures
        queued(*final(queue)) == enqueued(queued(*old(queue)), QUEUE_CAPACITY as nat, item),
        result == answer(accepts(queued(*old(queue)), QUEUE_CAPACITY as nat), item),
{
    queue.enqueue(item)
}

/// Calls heapless' `spsc::Queue::dequeue`.
///
/// Trusted: that it takes the item at the front out of the queue and returns
/// it, and returns nothing from an empty queue, which stays empty.
#[verifier::external_body]
fn queue_dequeue(queue: &mut Queue<AxlPacket, 33>) -> (item: Option<AxlPacket>)
    ensures
        queued(*final(queue)) == dequeued(queued(*old(queue))),
        item == front(queued(*old(queue))),
{
    queue.dequeue()
}

/// A bounded first-in, first-out queue of segments between the acquisition
/// pipeline and a consumer. Adding to a full queue neither blocks nor
/// overwrites: the segment comes back to the caller.
pub struct OutboundQueue {
    inner: Queue<AxlPacket, 33>,
}

impl View for OutboundQueue {
    type V = Seq<AxlPacketView>;

    /// The segments in the queue, the oldest first.
    closed spec fn view(&self) -> Seq<AxlPacketView> {
        queued(self.inner).map_values(|packet: AxlPacket| packet@)
    }
}

impl OutboundQueue {
    pub fn new() -> (queue: OutboundQueue)
        ensures
            queue@ == Seq::<AxlPacketView>::empty(),
    {
        OutboundQueue { inner: queue_new() }
    }

    pub fn capacity(&self) -> (capacity: usize)
        ensures
            capacity == QUEUE_CAPACITY,
    {
        QUEUE_CAPACITY
    }

    pub fn len(&self) -> (len: usize)
        ensures
            len == self@.len(),
            len <= QUEUE_CAPACITY,
    {
        queue_len(&self.inner)
    }

    pub fn is_full(&self) -> (full: bool)
        ensures
            full == !accepts(self@, QUEUE_CAPACITY as nat),
    {
        queue_len(&self.inner) >= QUEUE_CAPACITY
    }

    /// Offers `item` to the queue: it goes to the back, or comes back
    /// untouched if the queue is full.
    pub fn enqueue(&mut self, item: AxlPacket) -> (result: Result<(), AxlPacket>)
        ensures
            final(self)@ == enqueued(old(self)@, QUEUE_CAPACITY as nat, item@),
            result == answer(accepts(old(self)@, QUEUE_CAPACITY as nat), item),
    {
        queue_enqueue(&mut self.inner, item)
    }

    /// Takes the oldest item out, if there is one.
    pub fn dequeue(&mut self) -> (item: Option<AxlPacket>)
        ensures
            final(self)@ == dequeued(old(self)@),
            match item {
                Some(packet) => front(old(self)@) == Some(packet@),
                None => front(old(self)@) is None,
            },
    {
        queue_dequeue(&mut self.inner)
    }
}

/// Offering a batch that fits takes all of it, in order.
pub proof fn lemma_batch_fits<T>(items: Seq<T>, capacity: nat, batch: Seq<T>)
    requires
        items.len() + batch.len() <= capacity,
    ensures
        enqueued_all(items, capacity, batch) == items + batch,
    decreases batch.len(),
{
    if batch.len() > 0 {
        lemma_batch_fits(enqueued(items, capacity, batch[0]), capacity, batch.drop_first());
        assert(items.push(batch[0]) + batch.drop_first() =~= items + batch);
    } else {
        assert(items + batch =~= items);
    }
}

/// Backpressure. A queue of capacity N that is empty takes N items one after
/// the other, each of them finding room. It then refuses the next one, hands
/// it back as it came and is left as it was. Once the oldest item has been
/// taken out there is room again, and the next offer goes to the back.
pub proof fn lemma_backpressure<T>(capacity: nat, batch: Seq<T>, refused: T, next: T)
    requires
        0 < capacity,
        batch.len() == capacity,
    ensures
        forall|i: int|
            0 <= i < capacity ==> {
                &&& enqueued_all(Seq::empty(), capacity, #[trigger] batch.take(i)) == batch.take(i)
                &&& accepts(batch.take(i), capacity)
                &&& answer(accepts(batch.take(i), capacity), batch[i]) == Ok::<(), T>(())
            },
        enqueued_all(Seq::empty(), capacity, batch) == batch,
        !accepts(batch, capacity),
        answer(accepts(batch, capacity), refused) == Err::<(), T>(refused),
        enqueued(batch, capacity, refused) == batch,
        front(batch) == Some(batch[0]),
        accepts(dequeued(batch), capacity),
        answer(accepts(dequeued(batch), capacity), next) == Ok::<(), T>(()),
        enqueued(dequeued(batch), capacity, next) == batch.drop_first().push(next),
{
    assert forall|i: int| 0 <= i < capacity implies enqueued_all(
        Seq::empty(),
        capacity,
        #[trigger] batch.take(i),
    ) == batch.take(i) by {
        lemma_batch_fits(Seq::empty(), capacity, batch.take(i));
        assert(Seq::<T>::empty() + batch.take(i) =~= batch.take(i));
    }
    lemma_batch_fits(Seq::empty(), capacity, batch);
    assert(Seq::<T>::empty() + batch =~= batch);
}

/// First in, first out. Whatever a queue holds, what was offered while
/// there was room comes out after all of it, and in the order of the offers.
pub proof fn lemma_first_in_first_out<T>(items: Seq<T>, capacity: nat, batch: Seq<T>, i: int)
    requires
        items.len() + batch.len() <= capacity,
        0 <= i < batch.len(),
    ensures
        enqueued_all(items, capacity, batch).len() == items.len() + batch.len(),
        enqueued_all(items, capacity, batch).take(items.len() as int) == items,
        enqueued_all(items, capacity, batch)[items.len() + i] == batch[i],
{
    lemma_batch_fits(items, capacity, batch);
    assert((items + batch).take(items.len() as int) =~= items);
}

} // verus!
