use vstd::prelude::*;

use crate::axl::{AxlPacket, AxlPacketView, Header};
use crate::position::Degrees;

verus! {

/// What a sample buffer holds, as plain values.
pub struct WavesView {
    pub samples: Seq<u16>,
    pub capacity: nat,
    /// The stamp that the buffer was last taken under.
    pub header: Header,
}

impl WavesView {
    /// There is room for at least one sample, and no more samples than room.
    pub open spec fn wf(self) -> bool {
        0 < self.capacity && self.samples.len() <= self.capacity
    }

    /// No room is left.
    pub open spec fn full(self) -> bool {
        self.samples.len() >= self.capacity
    }

    /// How many of `count` offered samples fit.
    pub open spec fn room_for(self, count: nat) -> nat {
        if self.samples.len() + count <= self.capacity {
            count
        } else {
            (self.capacity - self.samples.len()) as nat
        }
    }

    /// The buffer after `offered` was fed to it: the samples that fit are
    /// appended in order, the rest is left to the caller.
    pub open spec fn fed(self, offered: Seq<u16>) -> WavesView {
        WavesView {
            samples: self.samples + offered.take(self.room_for(offered.len()) as int),
            ..self
        }
    }

    /// The segment that the samples make under `header`.
    pub open spec fn packet(self, header: Header) -> AxlPacketView {
        AxlPacketView { header, data: self.samples }
    }

    /// The buffer after its samples were taken under `header`.
    pub open spec fn taken(self, header: Header) -> WavesView {
        WavesView { samples: Seq::empty(), header, ..self }
    }

    /// The buffer without its samples.
    pub open spec fn cleared(self) -> WavesView {
        WavesView { samples: Seq::empty(), ..self }
    }
}

/// The buffer that filtered samples gather in until they make a segment. Its
/// size is fixed when it is made and is never zero.
pub struct Waves {
    axl: Vec<u16>,
    capacity: usize,
    header: Header,
}

impl View for Waves {
    type V = WavesView;

    closed spec fn view(&self) -> WavesView {
        WavesView { samples: self.axl@, capacity: self.capacity as nat, header: self.header }
    }
}

impl Waves {
    #[verifier::type_invariant]
    pub open spec fn inv(&self) -> bool {
        self@.wf()
    }

    /// An empty buffer for `capacity` samples, stamped with zeros. There is
    /// no buffer without room.
    pub fn new(capacity: usize) -> (waves: Option<Waves>)
        ensures
            capacity == 0 <==> waves is None,
            waves matches Some(w) ==> w@ == (WavesView {
                samples: Seq::empty(),
                capacity: capacity as nat,
                header: Header {
                    timestamp: 0,
                    position_time: 0,
                    lon: Degrees::zero(),
                    lat: Degrees::zero(),
                },
            }),
    {
        if capacity == 0 {
            None
        } else {
            Some(
                Waves {
                    axl: Vec::new(),
                    capacity,
                    header: Header {
                        timestamp: 0,
                        position_time: 0,
                        lon: Degrees { bits: 0 },
                        lat: Degrees { bits: 0 },
                    },
                },
            )
        }
    }

    pub fn capacity(&self) -> (capacity: usize)
        ensures
            capacity == self@.capacity,
    {
        self.capacity
    }

    pub fn len(&self) -> (len: usize)
        ensures
            len == self@.samples.len(),
    {
        self.axl.len()
    }

    /// The stamp that the buffer was last taken under.
    pub fn header(&self) -> (header: Header)
        ensures
            header == self@.header,
    {
        self.header
    }

    pub fn is_full(&self) -> (full: bool)
        ensures
            full == self@.full(),
    {
        self.axl.len() >= self.capacity
    }

    /// How many more samples fit.
    pub fn room(&self) -> (room: usize)
        ensures
            room == self@.capacity - self@.samples.len(),
    {
        proof {
            use_type_invariant(self);
        }
        self.capacity - self.axl.len()
    }

    /// Appends the samples of `offered` that fit, in order, and returns how
    /// many that were.
    pub fn feed(&mut self, offered: &[u16]) -> (taken: usize)
        ensures
            final(self)@ == old(self)@.fed(offered@),
            taken == old(self)@.room_for(offered@.len()),
    {
        proof {
            use_type_invariant(&*self);
        }
        let room: usize = self.room();
        let count: usize = if offered.len() <= room {
            offered.len()
        } else {
            room
        };
        let mut axl: Vec<u16> = Vec::new();
        std::mem::swap(&mut self.axl, &mut axl);
        let mut i: usize = 0;
        while i < count
            invariant
                i <= count <= offered@.len(),
                old(self).axl@.len() + count <= self.capacity,
                axl@ == old(self).axl@ + offered@.take(i as int),
            decreases count - i,
        {
            axl.push(offered[i]);
            i += 1;
            assert(offered@.take(i as int) == offered@.take(i - 1).push(offered@[i - 1]));
        }
        self.axl = axl;
        count
    }

    /// Hands out the samples as a segment stamped with the values given,
    /// which the buffer keeps as its header, and leaves the buffer empty.
    pub fn take_buf(&mut self, now: i64, position_time: u32, lon: Degrees, lat: Degrees) -> (packet:
        AxlPacket)
        ensures
            packet@ == old(self)@.packet(Header { timestamp: now, position_time, lon, lat }),
            final(self)@ == old(self)@.taken(Header { timestamp: now, position_time, lon, lat }),
    {
        proof {
            use_type_invariant(&*self);
        }
        let mut data: Vec<u16> = Vec::new();
        std::mem::swap(&mut self.axl, &mut data);
        self.header = Header { timestamp: now, position_time, lon, lat };
        AxlPacket { timestamp: now, position_time, lat, lon, data }
    }

    /// Drops the samples gathered so far.
    pub fn reset(&mut self)
        ensures
            final(self)@ == old(self)@.cleared(),
    {
        proof {
            use_type_invariant(&*self);
        }
        self.axl = Vec::new();
    }
}

} // verus!
