//! A compact codec for DOS-style packed times.
//!
//! A 16-bit packed DOS time value is decoded into validated hour, minute and
//! two-second-interval fields, and the result is re-encoded as a small ASN.1
//! DER value: a CHOICE whose context-specific tag is the hour and whose
//! contents are the minute as a DER INTEGER.

pub mod coarse;
pub mod serialize;
pub mod time;

pub use coarse::CompactTimeCoarse;
pub use coarse::to_coarse_choice;
pub use serialize::EncodeError;
pub use time::DecodeError;
pub use time::DosTime;
pub use time::RawDosTime;
pub use time::decode_raw_time;
