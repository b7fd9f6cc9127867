use vstd::prelude::*;

use crate::axl::{AxlPacket, AxlPacketView, Header};
use crate::position::Degrees;
use crate::queue::{accepts, dequeued, enqueued, front, OutboundQueue, QUEUE_CAPACITY};
use crate::waves::{Waves, WavesView};

verus! {

/// What became of the buffer at one poll.
#[derive(Clone, Copy, Debug, PartialEq, Eq, Structural)]
pub enum Delivery {
    /// The buffer is not full yet.
    Pending,
    /// A segment went to the queue.
    Queued,
    /// A segment of this many samples was packaged and found the queue full:
    /// it is lost. The caller is told so that the loss can be logged.
    Dropped(usize),
}

/// The outcome of one poll.
#[derive(Clone, Copy, Debug, PartialEq, Eq, Structural)]
pub struct Polled {
    /// How many of the offered samples went into the buffer.
    pub taken: usize,
    pub delivery: Delivery,
}

/// The pipeline as plain values: the queue's segments, the oldest first, and
/// the sample buffer.
pub struct ImuView {
    pub queue: Seq<AxlPacketView>,
    pub waves: WavesView,
}

impl ImuView {
    /// What one poll reports of the buffer once `offered` was fed to it.
    pub open spec fn delivery(self, offered: Seq<u16>) -> Delivery {
        let fed = self.waves.fed(offered);
        if !fed.full() {
            Delivery::Pending
        } else if accepts(self.queue, QUEUE_CAPACITY as nat) {
            Delivery::Queued
        } else {
            Delivery::Dropped(fed.samples.len() as usize)
        }
    }

    /// The pipeline after one poll: `offered` is fed to the buffer, and a
    /// buffer that is full then is emptied into a segment under `header`,
    /// which the queue takes if it has room.
    pub open spec fn polled(self, offered: Seq<u16>, header: Header) -> ImuView {
        let fed = self.waves.fed(offered);
        if fed.full() {
            ImuView {
                queue: enqueued(self.queue, QUEUE_CAPACITY as nat, fed.packet(header)),
                waves: fed.taken(header),
            }
        } else {
            ImuView { queue: self.queue, waves: fed }
        }
    }

    /// The pipeline at the start of a new epoch under `header`.
    pub open spec fn reset(self, header: Header) -> ImuView {
        ImuView { queue: self.queue, waves: self.waves.cleared().taken(header) }
    }
}

/// The acquisition pipeline: it gathers filtered samples and hands each full
/// buffer to its queue as one segment.
pub struct Imu {
    pub queue: OutboundQueue,
    waves: Waves,
}

impl View for Imu {
    type V = ImuView;

    closed spec fn view(&self) -> ImuView {
        ImuView { queue: self.queue@, waves: self.waves@ }
    }
}

impl Imu {
    pub fn new(waves: Waves, queue: OutboundQueue) -> (imu: Imu)
        ensures
            imu@ == (ImuView { queue: queue@, waves: waves@ }),
            imu@.waves.wf(),
    {
        proof {
            use_type_invariant(&waves);
        }
        Imu { queue, waves }
    }

    /// How many more samples the buffer has room for: as many as are worth
    /// reading before the next poll.
    pub fn room(&self) -> (room: usize)
        ensures
            room == self@.waves.capacity - self@.waves.samples.len(),
    {
        self.waves.room()
    }

    /// One poll: feeds `samples`, as read and filtered since the last poll,
    /// to the buffer, and hands a buffer that is full then to the queue, as a
    /// segment stamped with the clock reading and position given.
    ///
    /// A segment that finds the queue full is dropped and reported. Samples
    /// that found no room are left to the caller.
    pub fn check_retrieve(
        &mut self,
        samples: &[u16],
        now: i64,
        position_time: u32,
        lon: Degrees,
        lat: Degrees,
    ) -> (polled: Polled)
        ensures
            final(self)@ == old(self)@.polled(
                samples@,
                Header { timestamp: now, position_time, lon, lat },
            ),
            polled.taken == old(self)@.waves.room_for(samples@.len()),
            polled.delivery == old(self)@.delivery(samples@),
            final(self)@.waves.wf(),
            !final(self)@.waves.full(),
    {
        proof {
            use_type_invariant(&self.waves);
        }
        let taken: usize = self.waves.feed(samples);
        if self.waves.is_full() {
            let pck = self.waves.take_buf(now, position_time, lon, lat);
            match self.queue.enqueue(pck) {
                Ok(()) => Polled { taken, delivery: Delivery::Queued },
                Err(pck) => Polled { taken, delivery: Delivery::Dropped(pck.data.len()) },
            }
        } else {
            Polled { taken, delivery: Delivery::Pending }
        }
    }

    /// The consumer's side: takes the oldest segment out of the queue, if
    /// there is one. The sample buffer is left alone.
    pub fn dequeue(&mut self) -> (item: Option<AxlPacket>)
        ensures
            final(self)@.queue == dequeued(old(self)@.queue),
            final(self)@.waves == old(self)@.waves,
            match item {
                Some(packet) => front(old(self)@.queue) == Some(packet@),
                None => front(old(self)@.queue) is None,
            },
    {
        self.queue.dequeue()
    }

    /// Starts a new epoch: drops the samples gathered so far and stamps the
    /// empty buffer with the clock reading and position given.
    pub fn reset(&mut self, now: i64, position_time: u32, lon: Degrees, lat: Degrees)
        ensures
            final(self)@ == old(self)@.reset(Header { timestamp: now, position_time, lon, lat }),
            final(self)@.waves.wf(),
            !final(self)@.waves.full(),
    {
        proof {
            use_type_invariant(&self.waves);
        }
        self.waves.reset();
        let _ = self.waves.take_buf(now, position_time, lon, lat);
    }
}

/// A buffer is packaged once. After any poll the buffer is not full, so a
/// poll that brings no new samples reports nothing and changes nothing.
pub proof fn lemma_packaged_once(imu: ImuView, offered: Seq<u16>, first: Header, second: Header)
    requires
        imu.waves.wf(),
    ensures
        imu.polled(offered, first).waves.wf(),
        !imu.polled(offered, first).waves.full(),
        imu.polled(offered, first).delivery(Seq::empty()) == Delivery::Pending,
        imu.polled(offered, first).polled(Seq::empty(), second) == imu.polled(offered, first),
{
    let after = imu.polled(offered, first);
    assert(after.waves.fed(Seq::empty()).samples =~= after.waves.samples);
}

} // verus!
