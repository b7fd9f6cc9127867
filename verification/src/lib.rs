//! Data-acquisition core of a drifting wave buoy: the location and time
//! synchronizer, the calendar adapter for on-media timestamps, the sample
//! buffer and the bounded hand-off queue between acquisition and its consumers.

pub mod axl;
pub mod calendar;
pub mod clock;
pub mod position;
pub mod queue;
pub mod waves;
pub mod imu;
pub mod location;

pub use axl::{AxlPacket, Header};
pub use clock::{CountClock, NullClock, Timestamp};
pub use imu::{Delivery, Imu, Polled};
pub use location::{Fix, Location, LocationFix, LocationState, TimeFix, LOCATION_DIFF, NEVER_ATTEMPTED,
};
pub use position::Degrees;
pub use queue::{OutboundQueue, QUEUE_CAPACITY};
pub use waves::Waves;
