//! Decoding of the 16-bit packed DOS time-of-day value.
//!
//! Bit layout, most-significant bit first: bits 15-11 hold the hours (5
//! bits), bits 10-5 the minutes (6 bits), bits 4-0 the two-second intervals
//! (5 bits). Decoding extracts the three fields and rejects any value whose
//! hours exceed 23, minutes exceed 59, or intervals exceed 29.

use vstd::prelude::*;

verus! {

/// An undecoded 16-bit DOS time wire value. Any bit pattern is legal input.
#[derive(Clone, Copy, Debug, PartialEq, Eq, Structural)]
pub struct RawDosTime {
    pub value: u16,
}

impl RawDosTime {
    /// Interprets two wire bytes, big-endian, as a raw DOS time value.
    pub fn from_be_bytes(high: u8, low: u8) -> (r: RawDosTime)
        ensures
            r.value == high as u16 * 256 + low as u16,
    {
        proof {
            assert((high as u16) << 8 | low as u16 == high as u16 * 256 + low as u16)
                by (bit_vector);
        }
        RawDosTime { value: (high as u16) << 8 | low as u16 }
    }
}

/// The hours field of a raw value: its top five bits.
pub open spec fn extracted_hours(raw: u16) -> u8 {
    (((raw >> 11) & 0x1F) as u8)
}

/// The minutes field of a raw value: its middle six bits.
pub open spec fn extracted_minutes(raw: u16) -> u8 {
    (((raw >> 5) & 0x3F) as u8)
}

/// The two-second-intervals field of a raw value: its low five bits.
pub open spec fn extracted_intervals(raw: u16) -> u8 {
    ((raw & 0x1F) as u8)
}

/// A raw value decodes successfully exactly when all three extracted fields
/// are in range.
pub open spec fn raw_is_valid(raw: u16) -> bool {
    extracted_hours(raw) <= 23 && extracted_minutes(raw) <= 59 && extracted_intervals(raw) <= 29
}

/// The one way decoding fails: some extracted field is out of range.
#[derive(Clone, Copy, Debug, PartialEq, Eq, Structural)]
pub enum DecodeError {
    InvalidTime,
}

/// A validated time of day. Values exist only through [`decode_raw_time`],
/// so the three fields are always within their stated ranges.
#[derive(Clone, Copy, Debug, PartialEq, Eq, Structural)]
pub struct DosTime {
    hours: u8,
    minutes: u8,
    two_second_intervals: u8,
}

impl DosTime {
    /// The hours field, 0 to 23.
    pub closed spec fn spec_hours(self) -> u8 {
        self.hours
    }

    /// The minutes field, 0 to 59.
    pub closed spec fn spec_minutes(self) -> u8 {
        self.minutes
    }

    /// The two-second-intervals field, 0 to 29.
    pub closed spec fn spec_two_second_intervals(self) -> u8 {
        self.two_second_intervals
    }

    /// The invariant of a decoded time: every field within its range.
    pub open spec fn wf(self) -> bool {
        self.spec_hours() <= 23 && self.spec_minutes() <= 59
            && self.spec_two_second_intervals() <= 29
    }

    pub fn hours(&self) -> (r: u8)
        ensures
            r == self.spec_hours(),
    {
        self.hours
    }

    pub fn minutes(&self) -> (r: u8)
        ensures
            r == self.spec_minutes(),
    {
        self.minutes
    }

    pub fn two_second_intervals(&self) -> (r: u8)
        ensures
            r == self.spec_two_second_intervals(),
    {
        self.two_second_intervals
    }
}

/// The three field projections determine a time completely: two times that
/// agree on hours, minutes and two-second intervals are equal. With the
/// decoder's contract this makes decoding deterministic: two successful
/// decodes of the same raw value yield equal times.
pub proof fn lemma_time_determined_by_fields(a: DosTime, b: DosTime)
    requires
        a.spec_hours() == b.spec_hours(),
        a.spec_minutes() == b.spec_minutes(),
        a.spec_two_second_intervals() == b.spec_two_second_intervals(),
    ensures
        a == b,
{
}

/// Unpacks a raw 16-bit value into its hour, minute and interval fields and
/// validates their ranges. Succeeds exactly on the raw values whose fields
/// are all in range; any range violation yields `DecodeError::InvalidTime`.
pub fn decode_raw_time(raw: RawDosTime) -> (r: Result<DosTime, DecodeError>)
    ensures
        r is Ok <==> raw_is_valid(raw.value),
        r matches Ok(t) ==> {
            &&& t.wf()
            &&& t.spec_hours() == extracted_hours(raw.value)
            &&& t.spec_minutes() == extracted_minutes(raw.value)
            &&& t.spec_two_second_intervals() == extracted_intervals(raw.value)
        },
        r matches Err(e) ==> e == DecodeError::InvalidTime,
{
    let v = raw.value;
    proof {
        assert((v >> 11) & 0x1F < 256 && (v >> 5) & 0x3F < 256 && v & 0x1F < 256) by (bit_vector);
    }
    let hours: u8 = ((v >> 11) & 0x1F) as u8;
    let minutes: u8 = ((v >> 5) & 0x3F) as u8;
    let two_second_intervals: u8 = (v & 0x1F) as u8;

    if hours > 23 || minutes > 59 || two_second_intervals > 29 {
        return Err(DecodeError::InvalidTime);
    }

    Ok(DosTime { hours, minutes, two_second_intervals })
}

} // verus!
