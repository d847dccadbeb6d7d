//! Signed offsets between local civil time and UTC.
//!
//! [`UtcOffset`] is the value: a number of seconds, east of UTC positive.
//! The resolvers find the offset in force in the host's time zone, now or
//! at a given moment, from what the host's time-zone service answers; the
//! service itself is handed in by the caller. An offset is written and read
//! as text by a format string.

pub mod duration;
pub mod offset;
pub mod order;
pub mod platform;
pub mod resolve;
pub mod text;

pub use duration::Duration;
pub use offset::UtcOffset;
pub use platform::{CalendarMoment, DstStatus, SystemTime, TickTime, TimeZoneReport};
pub use text::ParseError;
