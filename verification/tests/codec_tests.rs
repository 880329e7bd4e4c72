use ntp_codec::error::{FieldName, ParseError};
use ntp_codec::fields::{LeapIndicator, Mode, Stratum, VersionNumber};
use ntp_codec::message::{NtpMessage, NtpServerResponse};
use ntp_codec::refid::{ExternalReferenceSource, KissODeathIdentifier, ReferenceIdentifier};
use ntp_codec::timestamp::{pad_int, NtpTimestamp, NtpTimestampError};

/// A 48-byte frame: li=0, version=4, mode=4 (server), stratum 2, with a
/// nonzero transmit timestamp of exactly the Unix epoch plus half a second.
fn base_frame() -> Vec<u8> {
    let mut b = vec![0u8; 48];
    b[0] = 0b00_100_100; // li=0, vn=4, mode=4
    b[1] = 2; // stratum: secondary
    b[2] = 6; // poll interval
    b[3] = 0xFA; // precision -6
    b[4..8].copy_from_slice(&[0, 0, 0, 50]); // root delay
    b[8..12].copy_from_slice(&[0, 0, 0, 20]); // root dispersion
    b[12..16].copy_from_slice(&[10, 0, 0, 1]); // reference identifier
    // transmit timestamp: 1970-01-01T00:00:00.5Z
    b[40..44].copy_from_slice(&[0x83, 0xAA, 0x7E, 0x80]);
    b[44..48].copy_from_slice(&[0x80, 0, 0, 0]);
    b
}

#[test]
fn short_inputs_fail_with_length_error() {
    for len in 0..48usize {
        let bytes = vec![0u8; len];
        assert_eq!(
            NtpMessage::decode(&bytes),
            Err(ParseError::LengthError),
            "length {len}"
        );
    }
}

#[test]
fn valid_base_frame_decodes() {
    let b = base_frame();
    let m = NtpMessage::decode(&b).unwrap();
    assert_eq!(m.li, LeapIndicator::NoWarning);
    assert_eq!(m.vn, VersionNumber::Four);
    assert_eq!(m.mode, Mode::Server);
    assert_eq!(m.stratum, Stratum::SecondaryReference);
    assert_eq!(m.poll_interval, 6);
    assert_eq!(m.precision, -6);
    assert_eq!(m.root_delay, 50);
    assert_eq!(m.root_dispersion, 20);
    assert_eq!(
        m.reference_identifier,
        Some(ReferenceIdentifier::UnknownIpVersion(0x0A000001))
    );
    assert_eq!(m.reference_timestamp, None);
    assert_eq!(m.originate_timestamp, None);
    assert_eq!(m.receive_timestamp, None);
    assert_eq!(m.transmit_timestamp, NtpTimestamp { secs: 0, nanos: 500_000_000 });
}

#[test]
fn flags_byte_splits_into_alarm_four_broadcast() {
    let mut b = base_frame();
    b[0] = 0b11_100_101; // li=3, version=4, mode=5
    let m = NtpMessage::decode(&b).unwrap();
    assert_eq!(m.li, LeapIndicator::AlarmConditionClockNotSynchronised);
    assert_eq!(m.vn, VersionNumber::Four);
    assert_eq!(m.mode, Mode::Broadcast);
}

#[test]
fn invalid_version_bits_rejected_regardless_of_neighbours() {
    for vn_bits in [0u8, 5, 6, 7] {
        for (li_bits, mode_bits) in [(0u8, 0u8), (1, 4), (3, 7), (2, 3)] {
            let mut b = base_frame();
            b[0] = (li_bits << 6) | (vn_bits << 3) | mode_bits;
            assert_eq!(
                NtpMessage::decode(&b),
                Err(ParseError::InvalidField(FieldName::VersionNumberField)),
                "vn {vn_bits} li {li_bits} mode {mode_bits}"
            );
        }
    }
}

#[test]
fn valid_version_bits_accepted() {
    for (vn_bits, vn) in [
        (1u8, VersionNumber::One),
        (2, VersionNumber::Two),
        (3, VersionNumber::Three),
        (4, VersionNumber::Four),
    ] {
        let mut b = base_frame();
        b[0] = (vn_bits << 3) | 4;
        assert_eq!(NtpMessage::decode(&b).unwrap().vn, vn);
    }
}

#[test]
fn gps_is_not_a_kiss_code() {
    // "GPS\0" is a valid primary source but the vocabulary is selected by
    // stratum, and at stratum 0 it is no Kiss-of-Death code.
    let mut b = base_frame();
    b[1] = 0;
    b[12..16].copy_from_slice(b"GPS\0");
    assert_eq!(NtpMessage::decode(&b), Err(ParseError::InvalidKissCode));
}

#[test]
fn kiss_code_rate_decodes() {
    let mut b = base_frame();
    b[1] = 0;
    b[12..16].copy_from_slice(b"RATE");
    let m = NtpMessage::decode(&b).unwrap();
    assert_eq!(m.stratum, Stratum::KissODeathMessage);
    assert_eq!(
        m.reference_identifier,
        Some(ReferenceIdentifier::KissODeath(KissODeathIdentifier::RATE))
    );
}

#[test]
fn unknown_primary_source_degrades_to_none() {
    let mut b = base_frame();
    b[1] = 1;
    b[12..16].copy_from_slice(b"ZZZZ");
    let m = NtpMessage::decode(&b).unwrap();
    assert_eq!(m.reference_identifier, Some(ReferenceIdentifier::Primary(None)));
}

#[test]
fn four_letter_primary_source_recognized() {
    let mut b = base_frame();
    b[1] = 1;
    b[12..16].copy_from_slice(b"WWVB");
    let m = NtpMessage::decode(&b).unwrap();
    assert_eq!(
        m.reference_identifier,
        Some(ReferenceIdentifier::Primary(Some(ExternalReferenceSource::WWVB)))
    );
}

#[test]
fn three_letter_primary_source_comes_back_unknown() {
    // Encoding writes "GPS\0", and the match on the way back in covers all
    // four bytes, so the three-letter name is not recognized again.
    let mut b = base_frame();
    b[1] = 1;
    b[12..16].copy_from_slice(b"GPS\0");
    let m = NtpMessage::decode(&b).unwrap();
    assert_eq!(m.reference_identifier, Some(ReferenceIdentifier::Primary(None)));
}

#[test]
fn client_mode_leaves_identifier_absent() {
    let mut b = base_frame();
    b[0] = 0b00_100_011; // mode 3: client
    b[1] = 0; // stratum 0 with garbage identifier bytes is not even looked at
    b[12..16].copy_from_slice(&[0xFF, 0xFE, 0xFD, 0xFC]);
    let m = NtpMessage::decode(&b).unwrap();
    assert_eq!(m.mode, Mode::Client);
    assert_eq!(m.reference_identifier, None);
}

#[test]
fn reserved_stratum_keeps_raw_identifier() {
    let mut b = base_frame();
    b[1] = 16;
    b[12..16].copy_from_slice(&[1, 2, 3, 4]);
    let m = NtpMessage::decode(&b).unwrap();
    assert_eq!(m.stratum, Stratum::Reserved);
    assert_eq!(
        m.reference_identifier,
        Some(ReferenceIdentifier::ReservedStratum(0x01020304))
    );
}

#[test]
fn stratum_classification_is_total() {
    for (byte, stratum) in [
        (0u8, Stratum::KissODeathMessage),
        (1, Stratum::PrimaryReference),
        (2, Stratum::SecondaryReference),
        (15, Stratum::SecondaryReference),
        (16, Stratum::Reserved),
        (255, Stratum::Reserved),
    ] {
        let mut b = base_frame();
        b[1] = byte;
        if byte == 0 {
            b[12..16].copy_from_slice(b"DENY");
        }
        assert_eq!(NtpMessage::decode(&b).unwrap().stratum, stratum, "byte {byte}");
    }
}

#[test]
fn zero_optional_timestamps_decode_absent() {
    let mut b = base_frame();
    // reference, originate and receive fields are already all zero
    let m = NtpMessage::decode(&b).unwrap();
    assert_eq!(m.reference_timestamp, None);
    assert_eq!(m.originate_timestamp, None);
    assert_eq!(m.receive_timestamp, None);
    // a nonzero receive field decodes present
    b[32..36].copy_from_slice(&[0x83, 0xAA, 0x7E, 0x81]);
    let m = NtpMessage::decode(&b).unwrap();
    assert_eq!(m.receive_timestamp, Some(NtpTimestamp { secs: 1, nanos: 0 }));
}

#[test]
fn zero_transmit_timestamp_fails_whole_decode() {
    let mut b = base_frame();
    b[40..48].copy_from_slice(&[0u8; 8]);
    assert_eq!(NtpMessage::decode(&b), Err(ParseError::InvalidTimestamp));
}

#[test]
fn unrepresentable_transmit_timestamp_fails_whole_decode() {
    // the largest fraction rounds up to a full second and cannot be
    // represented, which is fatal in the mandatory transmit field
    let mut b = base_frame();
    b[44..48].copy_from_slice(&[0xFF, 0xFF, 0xFF, 0xFF]);
    assert_eq!(NtpMessage::decode(&b), Err(ParseError::InvalidTimestamp));
}

#[test]
fn half_second_timestamp_encodes_exactly() {
    // 1970-01-01T00:00:00.5Z: wire seconds 2208988800, fraction 0x80000000.
    let ts = NtpTimestamp { secs: 0, nanos: 500_000_000 };
    let bytes = ts.to_bytes();
    assert_eq!(bytes, vec![0x83, 0xAA, 0x7E, 0x80, 0x80, 0x00, 0x00, 0x00]);
    assert_eq!(NtpTimestamp::decode_at(&bytes, 0), Ok(ts));
}

#[test]
fn timestamp_zero_sentinel_is_not_an_instant() {
    let zero = [0u8; 8];
    assert_eq!(NtpTimestamp::decode_at(&zero, 0), Err(NtpTimestampError::Zero));
    // the smallest nonzero fraction that still rounds to a nanosecond
    let tiny = [0, 0, 0, 0, 0, 0, 0, 3];
    assert_eq!(
        NtpTimestamp::decode_at(&tiny, 0),
        Ok(NtpTimestamp { secs: -2208988800, nanos: 1 })
    );
    // a fraction below half a nanosecond rounds down to the sentinel
    let below_half = [0, 0, 0, 0, 0, 0, 0, 2];
    assert_eq!(NtpTimestamp::decode_at(&below_half, 0), Err(NtpTimestampError::Zero));
}

#[test]
fn timestamp_fraction_rounding_to_full_second_is_invalid() {
    // the largest fraction rounds up to a full second, which no instant
    // with a sub-second remainder can represent
    let top = [0x83, 0xAA, 0x7E, 0x80, 0xFF, 0xFF, 0xFF, 0xFF];
    assert_eq!(NtpTimestamp::decode_at(&top, 0), Err(NtpTimestampError::Invalid));
}

#[test]
fn decode_encode_decode_is_decode() {
    let mut frames = vec![base_frame()];
    let mut kod = base_frame();
    kod[1] = 0;
    kod[12..16].copy_from_slice(b"DENY");
    frames.push(kod);
    let mut primary = base_frame();
    primary[1] = 1;
    primary[12..16].copy_from_slice(b"LOCL");
    frames.push(primary);
    let mut full = base_frame();
    full[16..20].copy_from_slice(&[0x83, 0xAA, 0x7E, 0x90]);
    full[24..28].copy_from_slice(&[0x83, 0xAA, 0x7E, 0xA0]);
    full[28..32].copy_from_slice(&[0x40, 0, 0, 0]);
    full[32..36].copy_from_slice(&[0x83, 0xAA, 0x7E, 0xB0]);
    frames.push(full);
    for (i, b) in frames.iter().enumerate() {
        let m = NtpMessage::decode(b).unwrap();
        let again = m.to_bytes();
        assert_eq!(NtpMessage::decode(&again), Ok(m), "frame {i}");
    }
}

#[test]
fn encode_writes_fixed_layout() {
    let b = base_frame();
    let m = NtpMessage::decode(&b).unwrap();
    let out = m.to_bytes();
    assert_eq!(out.len(), 48);
    // this frame is already in canonical form, so encoding reproduces it
    assert_eq!(out, b);
}

#[test]
fn server_response_forces_server_mode() {
    // response data that superficially resembles a client packet's fields
    let res = NtpServerResponse {
        leap_indicator: LeapIndicator::NoWarning,
        version_number: VersionNumber::Three,
        stratum: Stratum::SecondaryReference,
        poll_interval: 4,
        precision: -6,
        root_delay: 50,
        root_dispersion: 20,
        reference_identifier: ReferenceIdentifier::UnknownIpVersion(0x0A000001),
        reference_timestamp: NtpTimestamp { secs: 100, nanos: 0 },
        originate_timestamp: Some(NtpTimestamp { secs: 90, nanos: 250_000_000 }),
        receive_timestamp: NtpTimestamp { secs: 101, nanos: 0 },
        transmit_timestamp: None,
    };
    let now = NtpTimestamp { secs: 102, nanos: 750_000_000 };
    let m = NtpMessage::new_server_response_at(res, now);
    assert_eq!(m.mode, Mode::Server);
    assert_eq!(m.vn, VersionNumber::Three);
    assert_eq!(m.transmit_timestamp, now);
    assert_eq!(m.originate_timestamp, Some(NtpTimestamp { secs: 90, nanos: 250_000_000 }));
    assert_eq!(m.reference_timestamp, Some(NtpTimestamp { secs: 100, nanos: 0 }));
    assert_eq!(m.receive_timestamp, Some(NtpTimestamp { secs: 101, nanos: 0 }));

    let supplied = NtpTimestamp { secs: 103, nanos: 1 };
    let res2 = NtpServerResponse { transmit_timestamp: Some(supplied), ..res };
    let m2 = NtpMessage::new_server_response_at(res2, now);
    assert_eq!(m2.mode, Mode::Server);
    assert_eq!(m2.transmit_timestamp, supplied);
}

#[test]
fn server_response_with_clock_fallback_encodes() {
    let res = NtpServerResponse {
        leap_indicator: LeapIndicator::NoWarning,
        version_number: VersionNumber::Four,
        stratum: Stratum::PrimaryReference,
        poll_interval: 6,
        precision: -20,
        root_delay: 0,
        root_dispersion: 0,
        reference_identifier: ReferenceIdentifier::Primary(Some(ExternalReferenceSource::GPS)),
        reference_timestamp: NtpTimestamp { secs: 1_700_000_000, nanos: 0 },
        originate_timestamp: None,
        receive_timestamp: NtpTimestamp { secs: 1_700_000_001, nanos: 0 },
        transmit_timestamp: None,
    };
    let m = NtpMessage::new_server_response(res);
    assert_eq!(m.mode, Mode::Server);
    // the clock reading is a representable instant, so the reply encodes
    let out = m.to_bytes();
    assert_eq!(out.len(), 48);
    // a three-letter source is written with a trailing zero byte
    assert_eq!(&out[12..16], b"GPS\0");
}

#[test]
fn signed_fields_round_trip_through_two_complement() {
    let mut b = base_frame();
    b[3] = 0x80; // precision -128
    b[4..8].copy_from_slice(&[0xFF, 0xFF, 0xFF, 0xCE]); // root delay -50
    let m = NtpMessage::decode(&b).unwrap();
    assert_eq!(m.precision, -128);
    assert_eq!(m.root_delay, -50);
    let out = m.to_bytes();
    assert_eq!(&out[3..8], &b[3..8]);
}

#[test]
fn pad_int_scales_by_powers_of_ten() {
    assert_eq!(pad_int(123, 9), 123_000_000);
    assert_eq!(pad_int(0, 9), 0);
    assert_eq!(pad_int(987654321, 9), 987654321);
    assert_eq!(pad_int(12345678901, 9), 123456789);
    assert_eq!(pad_int(7, 1), 7);
    assert_eq!(pad_int(99, 1), 9);
}
