use dos_coarse_time::CompactTimeCoarse;
use dos_coarse_time::DecodeError;
use dos_coarse_time::RawDosTime;
use dos_coarse_time::decode_raw_time;
use dos_coarse_time::to_coarse_choice;

#[test]
fn decode_zero_raw_value() {
    let t = decode_raw_time(RawDosTime { value: 0x0000 }).unwrap();
    assert_eq!(t.hours(), 0);
    assert_eq!(t.minutes(), 0);
    assert_eq!(t.two_second_intervals(), 0);
}

#[test]
fn decode_largest_valid_raw_value() {
    // hours 23, minutes 59, intervals 29: bits 10111 111011 11101.
    let t = decode_raw_time(RawDosTime { value: 0xBF7D }).unwrap();
    assert_eq!(t.hours(), 23);
    assert_eq!(t.minutes(), 59);
    assert_eq!(t.two_second_intervals(), 29);
}

#[test]
fn decode_rejects_hours_24() {
    let r = decode_raw_time(RawDosTime { value: 0xC000 });
    assert_eq!(r, Err(DecodeError::InvalidTime));
}

#[test]
fn decode_rejects_minutes_60() {
    // hours 0, minutes 60, intervals 0: 60 << 5.
    let r = decode_raw_time(RawDosTime { value: 60 << 5 });
    assert_eq!(r, Err(DecodeError::InvalidTime));
}

#[test]
fn decode_rejects_intervals_30() {
    let r = decode_raw_time(RawDosTime { value: 30 });
    assert_eq!(r, Err(DecodeError::InvalidTime));
}

#[test]
fn decode_succeeds_exactly_on_in_range_fields() {
    for raw in 0..=0xFFFFu32 {
        let raw = raw as u16;
        let hours = (raw >> 11) & 0x1F;
        let minutes = (raw >> 5) & 0x3F;
        let intervals = raw & 0x1F;
        let valid = hours <= 23 && minutes <= 59 && intervals <= 29;
        let r = decode_raw_time(RawDosTime { value: raw });
        if valid {
            let t = r.unwrap();
            assert_eq!(t.hours() as u16, hours);
            assert_eq!(t.minutes() as u16, minutes);
            assert_eq!(t.two_second_intervals() as u16, intervals);
        } else {
            assert_eq!(r, Err(DecodeError::InvalidTime));
        }
    }
}

#[test]
fn choice_variant_index_is_hour_for_every_hour() {
    for hour in 0..=23u16 {
        let raw = RawDosTime { value: (hour << 11) | (7 << 5) | 3 };
        let t = decode_raw_time(raw).unwrap();
        let c = to_coarse_choice(t);
        assert_eq!(c.tag_and_payload(), (hour as u8, 7));
    }
}

#[test]
fn choice_for_hour_five_minute_thirty() {
    let raw = RawDosTime { value: (5 << 11) | (30 << 5) };
    let t = decode_raw_time(raw).unwrap();
    let c = to_coarse_choice(t);
    assert_eq!(c, CompactTimeCoarse::H5(30));
}

#[test]
fn encoding_twice_gives_identical_bytes() {
    let t = decode_raw_time(RawDosTime { value: 0xBF7D }).unwrap();
    let b1 = to_coarse_choice(t).to_der_bytes().unwrap();
    let b2 = to_coarse_choice(t).to_der_bytes().unwrap();
    assert_eq!(b1, b2);
}

#[test]
fn end_to_end_zero_bytes() {
    let raw = RawDosTime::from_be_bytes(0x00, 0x00);
    assert_eq!(raw.value, 0);
    let t = decode_raw_time(raw).unwrap();
    let bytes = to_coarse_choice(t).to_der_bytes().unwrap();
    assert_eq!(bytes, vec![0x80, 0x01, 0x00]);
}

#[test]
fn end_to_end_hour_five_minute_thirty() {
    // raw = 5 << 11 | 30 << 5 = 0x2BC0, read as the bytes [0x2B, 0xC0].
    let raw = RawDosTime::from_be_bytes(0x2B, 0xC0);
    let t = decode_raw_time(raw).unwrap();
    assert_eq!(t.hours(), 5);
    assert_eq!(t.minutes(), 30);
    let bytes = to_coarse_choice(t).to_der_bytes().unwrap();
    assert_eq!(bytes, vec![0x85, 0x01, 0x1E]);
}

#[test]
fn end_to_end_largest_valid_time() {
    let raw = RawDosTime::from_be_bytes(0xBF, 0x7D);
    let t = decode_raw_time(raw).unwrap();
    let bytes = to_coarse_choice(t).to_der_bytes().unwrap();
    assert_eq!(bytes, vec![0x97, 0x01, 0x3B]);
}

#[test]
fn from_be_bytes_is_big_endian() {
    assert_eq!(RawDosTime::from_be_bytes(0xAB, 0xCD).value, 0xABCD);
    assert_eq!(RawDosTime::from_be_bytes(0x00, 0x01).value, 1);
    assert_eq!(RawDosTime::from_be_bytes(0x01, 0x00).value, 256);
}

#[test]
fn high_bit_payload_gets_leading_zero_octet() {
    // A payload of 0x80 or more must gain a 0x00 octet so the DER INTEGER
    // stays non-negative; such a payload never comes from a valid minute,
    // but the choice type itself admits any byte.
    let bytes = CompactTimeCoarse::H0(200).to_der_bytes().unwrap();
    assert_eq!(bytes, vec![0x80, 0x02, 0x00, 0xC8]);
    let bytes = CompactTimeCoarse::H23(0x80).to_der_bytes().unwrap();
    assert_eq!(bytes, vec![0x97, 0x02, 0x00, 0x80]);
}

#[test]
fn serialized_length_is_three_for_every_valid_time() {
    for raw in 0..=0xFFFFu32 {
        let raw = raw as u16;
        if let Ok(t) = decode_raw_time(RawDosTime { value: raw }) {
            let bytes = to_coarse_choice(t).to_der_bytes().unwrap();
            assert_eq!(bytes.len(), 3);
            assert_eq!(bytes[0], 0x80 + t.hours());
            assert_eq!(bytes[1], 0x01);
            assert_eq!(bytes[2], t.minutes());
        }
    }
}
