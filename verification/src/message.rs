//! The full 48-byte NTP frame: decoding it into a structured message,
//! encoding a message back into the same fixed layout, and building a
//! server-mode reply.
//!
//! Decoding is all-or-nothing: any fatal field failure aborts the whole
//! frame and no partial message is returned. Encoding always emits exactly
//! 48 bytes, writing the all-zero sentinel for every absent optional field.

use vstd::prelude::*;

use crate::error::{FieldName, ParseError};
use crate::fields::{
    lemma_li_round_trip, lemma_mode_round_trip, lemma_stratum_round_trip, lemma_vn_round_trip,
    spec_li_bits, spec_li_of_bits, spec_mode_bits, spec_mode_of_bits, spec_stratum_byte,
    spec_stratum_of_byte, spec_vn_bits, spec_vn_of_bits, LeapIndicator, Mode, Stratum,
    VersionNumber,
};
use crate::refid::{
    decode_refid, lemma_decode_refid_consistent, lemma_refid_bytes_len, lemma_refid_round_trip,
    push_refid, spec_decode_refid, spec_refid_bytes, spec_refid_consistent, ReferenceIdentifier,
};
use crate::timestamp::{
    lemma_decode_timestamp_ok, lemma_opt_ts_bytes_len, lemma_timestamp_round_trip,
    lemma_zero_bytes_decode, spec_decode_timestamp, spec_opt_timestamp, spec_opt_ts_bytes,
    write_opt_to, NtpTimestamp,
};
use crate::wire::{
    be32, be32_seq, flags_byte, flags_li_bits, flags_mode_bits, flags_vn_bits, i32_of_u32,
    i32_to_u32, i8_of_u8, i8_to_u8, lemma_be32_of_bytes, lemma_flags_bits_bounded,
    lemma_flags_split_of_byte, lemma_i32_u32_round_trip, lemma_i8_u8_round_trip, pack_flags,
    push_be32, read_be32, u32_of_i32, u32_to_i32, u8_of_i8, u8_to_i8,
};

verus! {

/// A decoded request or an assembled reply. The reference identifier is
/// absent exactly in client mode; the first three timestamps are optional,
/// the transmit timestamp is mandatory.
#[derive(Copy, Clone, Debug, PartialEq, Eq)]
pub struct NtpMessage {
    pub li: LeapIndicator,
    pub vn: VersionNumber,
    pub mode: Mode,
    pub stratum: Stratum,
    pub poll_interval: u8,
    pub precision: i8,
    pub root_delay: i32,
    pub root_dispersion: u32,
    pub reference_identifier: Option<ReferenceIdentifier>,
    pub reference_timestamp: Option<NtpTimestamp>,
    pub originate_timestamp: Option<NtpTimestamp>,
    pub receive_timestamp: Option<NtpTimestamp>,
    pub transmit_timestamp: NtpTimestamp,
}

/// Caller-supplied reply data, assembled from local reference-clock state
/// and the decoded request.
#[derive(Copy, Clone, Debug, PartialEq, Eq)]
pub struct NtpServerResponse {
    pub leap_indicator: LeapIndicator,
    pub version_number: VersionNumber,
    pub stratum: Stratum,
    pub poll_interval: u8,
    pub precision: i8,
    pub root_delay: i32,
    pub root_dispersion: u32,
    pub reference_identifier: ReferenceIdentifier,
    pub reference_timestamp: NtpTimestamp,
    pub originate_timestamp: Option<NtpTimestamp>,
    pub receive_timestamp: NtpTimestamp,
    pub transmit_timestamp: Option<NtpTimestamp>,
}

/// What a byte sequence decodes to: the message it spells, or the first
/// fatal failure in field order. Anything shorter than 48 bytes is
/// rejected outright.
pub open spec fn spec_decode(b: Seq<u8>) -> Result<NtpMessage, ParseError> {
    if b.len() < 48 {
        Err(ParseError::LengthError)
    } else {
        let flags = b[0];
        match spec_vn_of_bits(flags_vn_bits(flags)) {
            None => Err(ParseError::InvalidField(FieldName::VersionNumberField)),
            Some(vn) => {
                let li = spec_li_of_bits(flags_li_bits(flags));
                let mode = spec_mode_of_bits(flags_mode_bits(flags));
                let stratum = spec_stratum_of_byte(b[1]);
                match spec_decode_refid(mode, stratum, b[12], b[13], b[14], b[15]) {
                    Err(e) => Err(e),
                    Ok(rid) => match spec_decode_timestamp(b.subrange(40, 48)) {
                        Err(_) => Err(ParseError::InvalidTimestamp),
                        Ok(tts) => Ok(
                            NtpMessage {
                                li,
                                vn,
                                mode,
                                stratum,
                                poll_interval: b[2],
                                precision: i8_of_u8(b[3]),
                                root_delay: i32_of_u32(be32(b[4], b[5], b[6], b[7])),
                                root_dispersion: be32(b[8], b[9], b[10], b[11]),
                                reference_identifier: rid,
                                reference_timestamp: spec_opt_timestamp(b.subrange(16, 24)),
                                originate_timestamp: spec_opt_timestamp(b.subrange(24, 32)),
                                receive_timestamp: spec_opt_timestamp(b.subrange(32, 40)),
                                transmit_timestamp: tts,
                            },
                        ),
                    },
                }
            },
        }
    }
}

/// The 48 wire bytes of a message, in the fixed field order.
pub open spec fn spec_encode(m: NtpMessage) -> Seq<u8> {
    seq![
        flags_byte(spec_li_bits(m.li), spec_vn_bits(m.vn), spec_mode_bits(m.mode)),
        spec_stratum_byte(m.stratum),
        m.poll_interval,
        u8_of_i8(m.precision),
    ] + be32_seq(u32_of_i32(m.root_delay)) + be32_seq(m.root_dispersion) + spec_refid_bytes(
        m.reference_identifier,
    ) + spec_opt_ts_bytes(m.reference_timestamp) + spec_opt_ts_bytes(m.originate_timestamp)
        + spec_opt_ts_bytes(m.receive_timestamp) + m.transmit_timestamp.spec_to_bytes()
}

impl NtpMessage {
    /// What encoding needs: every present timestamp, and the mandatory
    /// transmit timestamp, is an instant the wire format can represent.
    pub open spec fn encodable(self) -> bool {
        &&& (self.reference_timestamp matches Some(t) ==> t.wf())
        &&& (self.originate_timestamp matches Some(t) ==> t.wf())
        &&& (self.receive_timestamp matches Some(t) ==> t.wf())
        &&& self.transmit_timestamp.wf()
    }

    /// The shapes that decoding guarantees: the identifier agrees with mode
    /// and stratum, every present timestamp is a well-formed non-sentinel
    /// instant, and the mandatory transmit timestamp likewise.
    pub open spec fn wf(self) -> bool {
        &&& spec_refid_consistent(self.reference_identifier, self.mode, self.stratum)
        &&& (self.reference_timestamp matches Some(t) ==> t.wf() && !t.is_epoch_zero())
        &&& (self.originate_timestamp matches Some(t) ==> t.wf() && !t.is_epoch_zero())
        &&& (self.receive_timestamp matches Some(t) ==> t.wf() && !t.is_epoch_zero())
        &&& self.transmit_timestamp.wf()
        &&& !self.transmit_timestamp.is_epoch_zero()
    }

    /// Whether every timestamp this message holds can be written to the
    /// wire.
    pub fn is_encodable(&self) -> (r: bool)
        ensures
            r == self.encodable(),
    {
        (match &self.reference_timestamp {
            Some(t) => t.is_wf(),
            None => true,
        }) && (match &self.originate_timestamp {
            Some(t) => t.is_wf(),
            None => true,
        }) && (match &self.receive_timestamp {
            Some(t) => t.is_wf(),
            None => true,
        }) && self.transmit_timestamp.is_wf()
    }

    /// Decodes one datagram. Exactly the inputs shorter than 48 bytes fail
    /// with `LengthError`; any other failure is the first fatal field error
    /// in field order, and every decoded message is well formed.
    pub fn decode(bytes: &[u8]) -> (r: Result<NtpMessage, ParseError>)
        ensures
            r == spec_decode(bytes@),
            bytes@.len() < 48 <==> r == Err::<NtpMessage, ParseError>(ParseError::LengthError),
            r matches Ok(m) ==> m.wf(),
    {
        proof {
            lemma_decode_wf(bytes@);
        }
        if bytes.len() < 48 {
            return Err(ParseError::LengthError);
        }
        let flags = bytes[0];
        proof {
            lemma_flags_bits_bounded(flags);
        }
        let li = LeapIndicator::from_bits(flags >> 6);
        let vn = match VersionNumber::from_bits((flags >> 3) & 0x07) {
            Some(v) => v,
            None => {
                return Err(ParseError::InvalidField(FieldName::VersionNumberField));
            },
        };
        let mode = Mode::from_bits(flags & 0x07);
        let stratum = Stratum::from_byte(bytes[1]);
        let poll_interval = bytes[2];
        let precision = u8_to_i8(bytes[3]);
        let root_delay = u32_to_i32(read_be32(bytes, 4));
        let root_dispersion = read_be32(bytes, 8);
        let reference_identifier = match decode_refid(
            mode,
            stratum,
            bytes[12],
            bytes[13],
            bytes[14],
            bytes[15],
        ) {
            Ok(rid) => rid,
            Err(e) => {
                return Err(e);
            },
        };
        let reference_timestamp = match NtpTimestamp::decode_at(bytes, 16) {
            Ok(t) => Some(t),
            Err(_) => None,
        };
        let originate_timestamp = match NtpTimestamp::decode_at(bytes, 24) {
            Ok(t) => Some(t),
            Err(_) => None,
        };
        let receive_timestamp = match NtpTimestamp::decode_at(bytes, 32) {
            Ok(t) => Some(t),
            Err(_) => None,
        };
        let transmit_timestamp = match NtpTimestamp::decode_at(bytes, 40) {
            Ok(t) => t,
            Err(_) => {
                return Err(ParseError::InvalidTimestamp);
            },
        };
        Ok(
            NtpMessage {
                li,
                vn,
                mode,
                stratum,
                poll_interval,
                precision,
                root_delay,
                root_dispersion,
                reference_identifier,
                reference_timestamp,
                originate_timestamp,
                receive_timestamp,
                transmit_timestamp,
            },
        )
    }

    /// Encodes this message as exactly 48 wire bytes.
    pub fn to_bytes(&self) -> (r: Vec<u8>)
        requires
            self.encodable(),
        ensures
            r@ == spec_encode(*self),
            r@.len() == 48,
    {
        let mut v: Vec<u8> = Vec::new();
        v.push(pack_flags(self.li.to_bits(), self.vn.to_bits(), self.mode.to_bits()));
        v.push(self.stratum.to_byte());
        v.push(self.poll_interval);
        v.push(i8_to_u8(self.precision));
        push_be32(&mut v, i32_to_u32(self.root_delay));
        push_be32(&mut v, self.root_dispersion);
        push_refid(&mut v, &self.reference_identifier);
        write_opt_to(&self.reference_timestamp, &mut v);
        write_opt_to(&self.originate_timestamp, &mut v);
        write_opt_to(&self.receive_timestamp, &mut v);
        self.transmit_timestamp.write_to(&mut v);
        proof {
            lemma_refid_bytes_len(self.reference_identifier);
            lemma_opt_ts_bytes_len(self.reference_timestamp);
            lemma_opt_ts_bytes_len(self.originate_timestamp);
            lemma_opt_ts_bytes_len(self.receive_timestamp);
            assert(v@ =~= spec_encode(*self));
        }
        v
    }

    /// Builds the reply for caller-supplied data, taking the clock reading
    /// to fall back on as an argument. The mode is forced to `Server`
    /// whatever the data resembles; all other fields pass through, and the
    /// transmit timestamp is the supplied one or else `now`.
    pub fn new_server_response_at(res: NtpServerResponse, now: NtpTimestamp) -> (r: NtpMessage)
        ensures
            r.mode == Mode::Server,
            r.li == res.leap_indicator,
            r.vn == res.version_number,
            r.stratum == res.stratum,
            r.poll_interval == res.poll_interval,
            r.precision == res.precision,
            r.root_delay == res.root_delay,
            r.root_dispersion == res.root_dispersion,
            r.reference_identifier == Some(res.reference_identifier),
            r.reference_timestamp == Some(res.reference_timestamp),
            r.originate_timestamp == res.originate_timestamp,
            r.receive_timestamp == Some(res.receive_timestamp),
            r.transmit_timestamp == (match res.transmit_timestamp {
                Some(t) => t,
                None => now,
            }),
    {
        NtpMessage {
            li: res.leap_indicator,
            vn: res.version_number,
            mode: Mode::Server,
            stratum: res.stratum,
            poll_interval: res.poll_interval,
            precision: res.precision,
            root_delay: res.root_delay,
            root_dispersion: res.root_dispersion,
            reference_identifier: Some(res.reference_identifier),
            reference_timestamp: Some(res.reference_timestamp),
            originate_timestamp: res.originate_timestamp,
            receive_timestamp: Some(res.receive_timestamp),
            transmit_timestamp: match res.transmit_timestamp {
                Some(t) => t,
                None => now,
            },
        }
    }

    /// Builds the reply for caller-supplied data, reading the clock for the
    /// transmit timestamp when none is supplied.
    pub fn new_server_response(res: NtpServerResponse) -> (r: NtpMessage)
        ensures
            r.mode == Mode::Server,
            r.li == res.leap_indicator,
            r.vn == res.version_number,
            r.stratum == res.stratum,
            r.poll_interval == res.poll_interval,
            r.precision == res.precision,
            r.root_delay == res.root_delay,
            r.root_dispersion == res.root_dispersion,
            r.reference_identifier == Some(res.reference_identifier),
            r.reference_timestamp == Some(res.reference_timestamp),
            r.originate_timestamp == res.originate_timestamp,
            r.receive_timestamp == Some(res.receive_timestamp),
            res.transmit_timestamp matches Some(t) ==> r.transmit_timestamp == t,
            res.transmit_timestamp is None ==> r.transmit_timestamp.wf(),
    {
        let now = crate::clock::now_timestamp();
        NtpMessage::new_server_response_at(res, now)
    }
}

/// Every message that decoding produces is well formed.
pub proof fn lemma_decode_wf(b: Seq<u8>)
    ensures
        spec_decode(b) matches Ok(m) ==> m.wf(),
{
    if b.len() >= 48 {
        let flags = b[0];
        let mode = spec_mode_of_bits(flags_mode_bits(flags));
        let stratum = spec_stratum_of_byte(b[1]);
        lemma_decode_refid_consistent(mode, stratum, b[12], b[13], b[14], b[15]);
        lemma_decode_timestamp_ok(b.subrange(16, 24));
        lemma_decode_timestamp_ok(b.subrange(24, 32));
        lemma_decode_timestamp_ok(b.subrange(32, 40));
        lemma_decode_timestamp_ok(b.subrange(40, 48));
    }
}

/// The encoding of a message is 48 bytes laid out field by field.
pub proof fn lemma_encode_pieces(m: NtpMessage)
    ensures
        spec_encode(m).len() == 48,
        spec_encode(m)[0] == flags_byte(spec_li_bits(m.li), spec_vn_bits(m.vn), spec_mode_bits(m.mode)),
        spec_encode(m)[1] == spec_stratum_byte(m.stratum),
        spec_encode(m)[2] == m.poll_interval,
        spec_encode(m)[3] == u8_of_i8(m.precision),
        spec_encode(m).subrange(4, 8) == be32_seq(u32_of_i32(m.root_delay)),
        spec_encode(m).subrange(8, 12) == be32_seq(m.root_dispersion),
        spec_encode(m).subrange(12, 16) == spec_refid_bytes(m.reference_identifier),
        spec_encode(m).subrange(16, 24) == spec_opt_ts_bytes(m.reference_timestamp),
        spec_encode(m).subrange(24, 32) == spec_opt_ts_bytes(m.originate_timestamp),
        spec_encode(m).subrange(32, 40) == spec_opt_ts_bytes(m.receive_timestamp),
        spec_encode(m).subrange(40, 48) == m.transmit_timestamp.spec_to_bytes(),
{
    lemma_refid_bytes_len(m.reference_identifier);
    lemma_opt_ts_bytes_len(m.reference_timestamp);
    lemma_opt_ts_bytes_len(m.originate_timestamp);
    lemma_opt_ts_bytes_len(m.receive_timestamp);
    let b = spec_encode(m);
    assert(b.subrange(4, 8) =~= be32_seq(u32_of_i32(m.root_delay)));
    assert(b.subrange(8, 12) =~= be32_seq(m.root_dispersion));
    assert(b.subrange(12, 16) =~= spec_refid_bytes(m.reference_identifier));
    assert(b.subrange(16, 24) =~= spec_opt_ts_bytes(m.reference_timestamp));
    assert(b.subrange(24, 32) =~= spec_opt_ts_bytes(m.originate_timestamp));
    assert(b.subrange(32, 40) =~= spec_opt_ts_bytes(m.receive_timestamp));
    assert(b.subrange(40, 48) =~= m.transmit_timestamp.spec_to_bytes());
}

/// Round trip: the 48 bytes written for any well-formed message decode to
/// exactly that message.
pub proof fn lemma_encode_decode(m: NtpMessage)
    requires
        m.wf(),
    ensures
        spec_decode(spec_encode(m)) == Ok::<NtpMessage, ParseError>(m),
{
    let b = spec_encode(m);
    lemma_encode_pieces(m);
    lemma_li_round_trip(m.li);
    lemma_vn_round_trip(m.vn);
    lemma_mode_round_trip(m.mode);
    lemma_flags_split_of_byte(spec_li_bits(m.li), spec_vn_bits(m.vn), spec_mode_bits(m.mode));
    lemma_stratum_round_trip(m.stratum);
    lemma_i8_u8_round_trip(m.precision);
    // root delay and dispersion come back through their four bytes
    let rd = u32_of_i32(m.root_delay);
    assert(b[4] == be32_seq(rd)[0] && b[5] == be32_seq(rd)[1] && b[6] == be32_seq(rd)[2] && b[7]
        == be32_seq(rd)[3]);
    lemma_be32_of_bytes(rd);
    lemma_i32_u32_round_trip(m.root_delay);
    let dp = m.root_dispersion;
    assert(b[8] == be32_seq(dp)[0] && b[9] == be32_seq(dp)[1] && b[10] == be32_seq(dp)[2] && b[11]
        == be32_seq(dp)[3]);
    lemma_be32_of_bytes(dp);
    // the identifier field
    let rb = spec_refid_bytes(m.reference_identifier);
    assert(b[12] == rb[0] && b[13] == rb[1] && b[14] == rb[2] && b[15] == rb[3]);
    lemma_refid_round_trip(m.reference_identifier, m.mode, m.stratum);
    // the four timestamp fields
    lemma_opt_ts_round_trip(m.reference_timestamp);
    lemma_opt_ts_round_trip(m.originate_timestamp);
    lemma_opt_ts_round_trip(m.receive_timestamp);
    lemma_timestamp_round_trip(m.transmit_timestamp);
}

/// Round trip of one optional timestamp field: re-encoding what was
/// decoded, present or absent, reads back the same way.
pub proof fn lemma_opt_ts_round_trip(o: Option<NtpTimestamp>)
    requires
        o matches Some(t) ==> t.wf() && !t.is_epoch_zero(),
    ensures
        spec_opt_timestamp(spec_opt_ts_bytes(o)) == o,
{
    match o {
        Some(t) => {
            lemma_timestamp_round_trip(t);
        },
        None => {
            lemma_zero_bytes_decode(spec_opt_ts_bytes(o));
        },
    }
}

/// Round trip of a whole frame: decoding, re-encoding and decoding again
/// reads the same message as decoding once.
pub proof fn lemma_decode_encode_round_trip(b: Seq<u8>, m: NtpMessage)
    requires
        spec_decode(b) == Ok::<NtpMessage, ParseError>(m),
    ensures
        spec_decode(spec_encode(m)) == spec_decode(b),
{
    lemma_decode_wf(b);
    lemma_encode_decode(m);
}

/// Anything shorter than 48 bytes is rejected with `LengthError`.
pub proof fn lemma_short_input_rejected(b: Seq<u8>)
    requires
        b.len() < 48,
    ensures
        spec_decode(b) == Err::<NtpMessage, ParseError>(ParseError::LengthError),
{
}

/// Version bits outside 1-4 are rejected as an invalid version field,
/// whatever the leap-indicator and mode bits around them hold.
pub proof fn lemma_invalid_version_rejected(b: Seq<u8>)
    requires
        b.len() >= 48,
        spec_vn_of_bits(flags_vn_bits(b[0])) is None,
    ensures
        spec_decode(b) == Err::<NtpMessage, ParseError>(
            ParseError::InvalidField(FieldName::VersionNumberField),
        ),
{
}

/// All-zero timestamp fields: each optional field reads back absent, and a
/// zero transmit field fails the whole frame once the earlier fields have
/// passed.
pub proof fn lemma_zero_timestamp_fields(b: Seq<u8>)
    requires
        b.len() >= 48,
    ensures
        spec_decode(b) matches Ok(m) ==> {
            &&& (forall|i: int| 16 <= i < 24 ==> b[i] == 0) ==> m.reference_timestamp is None
            &&& (forall|i: int| 24 <= i < 32 ==> b[i] == 0) ==> m.originate_timestamp is None
            &&& (forall|i: int| 32 <= i < 40 ==> b[i] == 0) ==> m.receive_timestamp is None
        },
        (forall|i: int| 40 <= i < 48 ==> b[i] == 0) && spec_vn_of_bits(flags_vn_bits(b[0])) is Some
            && spec_decode_refid(
            spec_mode_of_bits(flags_mode_bits(b[0])),
            spec_stratum_of_byte(b[1]),
            b[12],
            b[13],
            b[14],
            b[15],
        ) is Ok ==> spec_decode(b) == Err::<NtpMessage, ParseError>(ParseError::InvalidTimestamp),
{
    if forall|i: int| 16 <= i < 24 ==> b[i] == 0 {
        lemma_zero_bytes_decode(b.subrange(16, 24));
    }
    if forall|i: int| 24 <= i < 32 ==> b[i] == 0 {
        lemma_zero_bytes_decode(b.subrange(24, 32));
    }
    if forall|i: int| 32 <= i < 40 ==> b[i] == 0 {
        lemma_zero_bytes_decode(b.subrange(32, 40));
    }
    if forall|i: int| 40 <= i < 48 ==> b[i] == 0 {
        lemma_zero_bytes_decode(b.subrange(40, 48));
    }
}

} // verus!
