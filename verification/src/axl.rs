use vstd::prelude::*;

use crate::position::Degrees;

verus! {

/// The clock reading and the position that a segment is stamped with.
#[derive(Clone, Copy, Debug, PartialEq, Eq, Structural)]
pub struct Header {
    /// Clock reading in milliseconds since 1970.
    pub timestamp: i64,
    /// Time of the position fix, in the communication module's epoch seconds.
    pub position_time: u32,
    pub lon: Degrees,
    pub lat: Degrees,
}

/// A finished segment: the samples of one full buffer under the stamp that it
/// was packaged with. A sample is the bit pattern of a half-precision number.
#[derive(Clone, Debug, PartialEq, Eq)]
pub struct AxlPacket {
    pub timestamp: i64,
    pub position_time: u32,
    pub lat: Degrees,
    pub lon: Degrees,
    pub data: Vec<u16>,
}

/// A segment as plain values.
pub struct AxlPacketView {
    pub header: Header,
    pub data: Seq<u16>,
}

impl View for AxlPacket {
    type V = AxlPacketView;

    open spec fn view(&self) -> AxlPacketView {
        AxlPacketView {
            header: Header {
                timestamp: self.timestamp,
                position_time: self.position_time,
                lon: self.lon,
                lat: self.lat,
            },
            data: self.data@,
        }
    }
}

} // verus!
