//! The coarse choice representation of a decoded time.
//!
//! A validated time maps onto a 24-way tagged choice: the variant index is
//! the hour, and the single payload byte is the minute. The hour is thus
//! carried by the selector alone, which keeps the serialized form compact.

use vstd::prelude::*;

use crate::time::DosTime;

verus! {

/// A tagged choice over the 24 hours of a day. Variant `Hn` stands for hour
/// `n` and carries the minute as its payload byte.
#[derive(Clone, Copy, Debug, PartialEq, Eq, Structural)]
pub enum CompactTimeCoarse {
    H0(u8),
    H1(u8),
    H2(u8),
    H3(u8),
    H4(u8),
    H5(u8),
    H6(u8),
    H7(u8),
    H8(u8),
    H9(u8),
    H10(u8),
    H11(u8),
    H12(u8),
    H13(u8),
    H14(u8),
    H15(u8),
    H16(u8),
    H17(u8),
    H18(u8),
    H19(u8),
    H20(u8),
    H21(u8),
    H22(u8),
    H23(u8),
}

/// The hour a choice value stands for: the index of its variant.
pub open spec fn tag_of(c: CompactTimeCoarse) -> u8 {
    match c {
        CompactTimeCoarse::H0(_) => 0,
        CompactTimeCoarse::H1(_) => 1,
        CompactTimeCoarse::H2(_) => 2,
        CompactTimeCoarse::H3(_) => 3,
        CompactTimeCoarse::H4(_) => 4,
        CompactTimeCoarse::H5(_) => 5,
        CompactTimeCoarse::H6(_) => 6,
        CompactTimeCoarse::H7(_) => 7,
        CompactTimeCoarse::H8(_) => 8,
        CompactTimeCoarse::H9(_) => 9,
        CompactTimeCoarse::H10(_) => 10,
        CompactTimeCoarse::H11(_) => 11,
        CompactTimeCoarse::H12(_) => 12,
        CompactTimeCoarse::H13(_) => 13,
        CompactTimeCoarse::H14(_) => 14,
        CompactTimeCoarse::H15(_) => 15,
        CompactTimeCoarse::H16(_) => 16,
        CompactTimeCoarse::H17(_) => 17,
        CompactTimeCoarse::H18(_) => 18,
        CompactTimeCoarse::H19(_) => 19,
        CompactTimeCoarse::H20(_) => 20,
        CompactTimeCoarse::H21(_) => 21,
        CompactTimeCoarse::H22(_) => 22,
        CompactTimeCoarse::H23(_) => 23,
    }
}

/// The minute a choice value carries: its payload byte.
pub open spec fn payload_of(c: CompactTimeCoarse) -> u8 {
    match c {
        CompactTimeCoarse::H0(m) => m,
        CompactTimeCoarse::H1(m) => m,
        CompactTimeCoarse::H2(m) => m,
        CompactTimeCoarse::H3(m) => m,
        CompactTimeCoarse::H4(m) => m,
        CompactTimeCoarse::H5(m) => m,
        CompactTimeCoarse::H6(m) => m,
        CompactTimeCoarse::H7(m) => m,
        CompactTimeCoarse::H8(m) => m,
        CompactTimeCoarse::H9(m) => m,
        CompactTimeCoarse::H10(m) => m,
        CompactTimeCoarse::H11(m) => m,
        CompactTimeCoarse::H12(m) => m,
        CompactTimeCoarse::H13(m) => m,
        CompactTimeCoarse::H14(m) => m,
        CompactTimeCoarse::H15(m) => m,
        CompactTimeCoarse::H16(m) => m,
        CompactTimeCoarse::H17(m) => m,
        CompactTimeCoarse::H18(m) => m,
        CompactTimeCoarse::H19(m) => m,
        CompactTimeCoarse::H20(m) => m,
        CompactTimeCoarse::H21(m) => m,
        CompactTimeCoarse::H22(m) => m,
        CompactTimeCoarse::H23(m) => m,
    }
}

/// The choice value for a given hour and minute: the variant whose index is
/// the hour, carrying the minute.
pub open spec fn choice_of(hour: u8, minute: u8) -> CompactTimeCoarse
    recommends
        hour <= 23,
{
    if hour == 0 {
        CompactTimeCoarse::H0(minute)
    } else if hour == 1 {
        CompactTimeCoarse::H1(minute)
    } else if hour == 2 {
        CompactTimeCoarse::H2(minute)
    } else if hour == 3 {
        CompactTimeCoarse::H3(minute)
    } else if hour == 4 {
        CompactTimeCoarse::H4(minute)
    } else if hour == 5 {
        CompactTimeCoarse::H5(minute)
    } else if hour == 6 {
        CompactTimeCoarse::H6(minute)
    } else if hour == 7 {
        CompactTimeCoarse::H7(minute)
    } else if hour == 8 {
        CompactTimeCoarse::H8(minute)
    } else if hour == 9 {
        CompactTimeCoarse::H9(minute)
    } else if hour == 10 {
        CompactTimeCoarse::H10(minute)
    } else if hour == 11 {
        CompactTimeCoarse::H11(minute)
    } else if hour == 12 {
        CompactTimeCoarse::H12(minute)
    } else if hour == 13 {
        CompactTimeCoarse::H13(minute)
    } else if hour == 14 {
        CompactTimeCoarse::H14(minute)
    } else if hour == 15 {
        CompactTimeCoarse::H15(minute)
    } else if hour == 16 {
        CompactTimeCoarse::H16(minute)
    } else if hour == 17 {
        CompactTimeCoarse::H17(minute)
    } else if hour == 18 {
        CompactTimeCoarse::H18(minute)
    } else if hour == 19 {
        CompactTimeCoarse::H19(minute)
    } else if hour == 20 {
        CompactTimeCoarse::H20(minute)
    } else if hour == 21 {
        CompactTimeCoarse::H21(minute)
    } else if hour == 22 {
        CompactTimeCoarse::H22(minute)
    } else {
        CompactTimeCoarse::H23(minute)
    }
}

/// Maps a validated time onto its choice value: the variant whose index
/// equals the hour, with the minute as payload. Total on valid times; the
/// default arm is proven unreachable by the decoder's range invariant.
pub fn to_coarse_choice(time: DosTime) -> (r: CompactTimeCoarse)
    requires
        time.wf(),
    ensures
        r == choice_of(time.spec_hours(), time.spec_minutes()),
        tag_of(r) == time.spec_hours(),
        payload_of(r) == time.spec_minutes(),
{
    let m = time.minutes();
    match time.hours() {
        0 => CompactTimeCoarse::H0(m),
        1 => CompactTimeCoarse::H1(m),
        2 => CompactTimeCoarse::H2(m),
        3 => CompactTimeCoarse::H3(m),
        4 => CompactTimeCoarse::H4(m),
        5 => CompactTimeCoarse::H5(m),
        6 => CompactTimeCoarse::H6(m),
        7 => CompactTimeCoarse::H7(m),
        8 => CompactTimeCoarse::H8(m),
        9 => CompactTimeCoarse::H9(m),
        10 => CompactTimeCoarse::H10(m),
        11 => CompactTimeCoarse::H11(m),
        12 => CompactTimeCoarse::H12(m),
        13 => CompactTimeCoarse::H13(m),
        14 => CompactTimeCoarse::H14(m),
        15 => CompactTimeCoarse::H15(m),
        16 => CompactTimeCoarse::H16(m),
        17 => CompactTimeCoarse::H17(m),
        18 => CompactTimeCoarse::H18(m),
        19 => CompactTimeCoarse::H19(m),
        20 => CompactTimeCoarse::H20(m),
        21 => CompactTimeCoarse::H21(m),
        22 => CompactTimeCoarse::H22(m),
        23 => CompactTimeCoarse::H23(m),
        _ => {
            proof {
                assert(false);
            }
            CompactTimeCoarse::H0(m)
        },
    }
}

impl CompactTimeCoarse {
    /// The variant index and payload byte of this choice value.
    pub fn tag_and_payload(&self) -> (r: (u8, u8))
        ensures
            r.0 == tag_of(*self),
            r.1 == payload_of(*self),
    {
        match *self {
            CompactTimeCoarse::H0(m) => (0, m),
            CompactTimeCoarse::H1(m) => (1, m),
            CompactTimeCoarse::H2(m) => (2, m),
            CompactTimeCoarse::H3(m) => (3, m),
            CompactTimeCoarse::H4(m) => (4, m),
            CompactTimeCoarse::H5(m) => (5, m),
            CompactTimeCoarse::H6(m) => (6, m),
            CompactTimeCoarse::H7(m) => (7, m),
            CompactTimeCoarse::H8(m) => (8, m),
            CompactTimeCoarse::H9(m) => (9, m),
            CompactTimeCoarse::H10(m) => (10, m),
            CompactTimeCoarse::H11(m) => (11, m),
            CompactTimeCoarse::H12(m) => (12, m),
            CompactTimeCoarse::H13(m) => (13, m),
            CompactTimeCoarse::H14(m) => (14, m),
            CompactTimeCoarse::H15(m) => (15, m),
            CompactTimeCoarse::H16(m) => (16, m),
            CompactTimeCoarse::H17(m) => (17, m),
            CompactTimeCoarse::H18(m) => (18, m),
            CompactTimeCoarse::H19(m) => (19, m),
            CompactTimeCoarse::H20(m) => (20, m),
            CompactTimeCoarse::H21(m) => (21, m),
            CompactTimeCoarse::H22(m) => (22, m),
            CompactTimeCoarse::H23(m) => (23, m),
        }
    }
}

/// The hours 0 to 23 and the 24 choice variants are in bijection, with the
/// payload carried through unchanged: every variant's index is an hour in
/// range, a variant is determined by its index and payload, and for every
/// hour in range and every payload there is the variant with that index and
/// payload.
pub proof fn lemma_hour_choice_bijection()
    ensures
        forall|c: CompactTimeCoarse| #[trigger] tag_of(c) <= 23,
        forall|c: CompactTimeCoarse| choice_of(#[trigger] tag_of(c), payload_of(c)) == c,
        forall|h: u8, m: u8|
            h <= 23 ==> tag_of(#[trigger] choice_of(h, m)) == h && payload_of(choice_of(h, m))
                == m,
{
}

} // verus!
