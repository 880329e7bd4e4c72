//! The 4-byte reference-identifier field, whose interpretation is keyed
//! strictly by the stratum classification: an ASCII Kiss-of-Death code at
//! stratum 0, an ASCII reference-clock name at stratum 1, and a raw 32-bit
//! value otherwise. In client mode the field is consumed but not
//! interpreted.
//!
//! Both vocabularies are matched against all four wire bytes, so a
//! three-letter clock name, which is written with a trailing zero byte,
//! never matches on the way back in: such names decode as `Primary(None)`,
//! a soft degrade. An unrecognized Kiss-of-Death code, by contrast, is a
//! hard failure of the whole frame.

use vstd::prelude::*;

use crate::error::ParseError;
use crate::fields::{Mode, Stratum};
use crate::wire::{be32, be32_seq, lemma_be32_of_bytes, push_be32};

verus! {

/// The fixed vocabulary of primary reference-clock names.
#[derive(Copy, Clone, Debug, PartialEq, Eq, Structural)]
pub enum ExternalReferenceSource {
    LOCL,
    CESM,
    RBDM,
    PPS,
    IRIG,
    ACTS,
    USNO,
    PTB,
    TDF,
    DCF,
    MSF,
    WWV,
    WWVB,
    WWVH,
    CHU,
    LORC,
    OMEG,
    GPS,
}

/// The fixed vocabulary of Kiss-of-Death codes.
#[derive(Copy, Clone, Debug, PartialEq, Eq, Structural)]
pub enum KissODeathIdentifier {
    ACST,
    AUTH,
    AUTO,
    BCST,
    CRYP,
    DENY,
    DROP,
    RSTR,
    INIT,
    MCST,
    NKEY,
    RATE,
    RMOT,
    STEP,
}

/// The decoded reference-identifier field. The variant is fully determined
/// by the stratum classification, never by any other field.
#[derive(Copy, Clone, Debug, PartialEq, Eq)]
pub enum ReferenceIdentifier {
    /// Stratum 0: a code from the Kiss-of-Death vocabulary.
    KissODeath(KissODeathIdentifier),
    /// Stratum 1: a known reference-clock name, or `None` when the four
    /// ASCII bytes match no known name.
    Primary(Option<ExternalReferenceSource>),
    /// Stratum 2-15: a raw 32-bit value; whether it embeds an IPv4 address
    /// or an IPv6/OSI hash is deliberately left unresolved.
    UnknownIpVersion(u32),
    /// Stratum 16 and above: a raw 32-bit value.
    ReservedStratum(u32),
}

/// The four wire bytes of a reference-clock name: its ASCII letters,
/// right-padded with zero bytes.
pub open spec fn spec_source_bytes(s: ExternalReferenceSource) -> Seq<u8> {
    match s {
        ExternalReferenceSource::LOCL => seq![76u8, 79u8, 67u8, 76u8],
        ExternalReferenceSource::CESM => seq![67u8, 69u8, 83u8, 77u8],
        ExternalReferenceSource::RBDM => seq![82u8, 66u8, 68u8, 77u8],
        ExternalReferenceSource::PPS => seq![80u8, 80u8, 83u8, 0u8],
        ExternalReferenceSource::IRIG => seq![73u8, 82u8, 73u8, 71u8],
        ExternalReferenceSource::ACTS => seq![65u8, 67u8, 84u8, 83u8],
        ExternalReferenceSource::USNO => seq![85u8, 83u8, 78u8, 79u8],
        ExternalReferenceSource::PTB => seq![80u8, 84u8, 66u8, 0u8],
        ExternalReferenceSource::TDF => seq![84u8, 68u8, 70u8, 0u8],
        ExternalReferenceSource::DCF => seq![68u8, 67u8, 70u8, 0u8],
        ExternalReferenceSource::MSF => seq![77u8, 83u8, 70u8, 0u8],
        ExternalReferenceSource::WWV => seq![87u8, 87u8, 86u8, 0u8],
        ExternalReferenceSource::WWVB => seq![87u8, 87u8, 86u8, 66u8],
        ExternalReferenceSource::WWVH => seq![87u8, 87u8, 86u8, 72u8],
        ExternalReferenceSource::CHU => seq![67u8, 72u8, 85u8, 0u8],
        ExternalReferenceSource::LORC => seq![76u8, 79u8, 82u8, 67u8],
        ExternalReferenceSource::OMEG => seq![79u8, 77u8, 69u8, 71u8],
        ExternalReferenceSource::GPS => seq![71u8, 80u8, 83u8, 0u8],
    }
}

/// The reference-clock name that four wire bytes spell, if any. All four
/// bytes take part in the match, so only the four-letter names are ever
/// recognized.
pub open spec fn spec_source_of(b0: u8, b1: u8, b2: u8, b3: u8) -> Option<
    ExternalReferenceSource,
> {
    if b0 == 76u8 && b1 == 79u8 && b2 == 67u8 && b3 == 76u8 {
        Some(ExternalReferenceSource::LOCL)
    } else if b0 == 67u8 && b1 == 69u8 && b2 == 83u8 && b3 == 77u8 {
        Some(ExternalReferenceSource::CESM)
    } else if b0 == 82u8 && b1 == 66u8 && b2 == 68u8 && b3 == 77u8 {
        Some(ExternalReferenceSource::RBDM)
    } else if b0 == 73u8 && b1 == 82u8 && b2 == 73u8 && b3 == 71u8 {
        Some(ExternalReferenceSource::IRIG)
    } else if b0 == 65u8 && b1 == 67u8 && b2 == 84u8 && b3 == 83u8 {
        Some(ExternalReferenceSource::ACTS)
    } else if b0 == 85u8 && b1 == 83u8 && b2 == 78u8 && b3 == 79u8 {
        Some(ExternalReferenceSource::USNO)
    } else if b0 == 87u8 && b1 == 87u8 && b2 == 86u8 && b3 == 66u8 {
        Some(ExternalReferenceSource::WWVB)
    } else if b0 == 87u8 && b1 == 87u8 && b2 == 86u8 && b3 == 72u8 {
        Some(ExternalReferenceSource::WWVH)
    } else if b0 == 76u8 && b1 == 79u8 && b2 == 82u8 && b3 == 67u8 {
        Some(ExternalReferenceSource::LORC)
    } else if b0 == 79u8 && b1 == 77u8 && b2 == 69u8 && b3 == 71u8 {
        Some(ExternalReferenceSource::OMEG)
    } else {
        None
    }
}

/// The four wire bytes of a Kiss-of-Death code; every code has exactly
/// four ASCII letters.
pub open spec fn spec_kod_bytes(k: KissODeathIdentifier) -> Seq<u8> {
    match k {
        KissODeathIdentifier::ACST => seq![65u8, 67u8, 83u8, 84u8],
        KissODeathIdentifier::AUTH => seq![65u8, 85u8, 84u8, 72u8],
        KissODeathIdentifier::AUTO => seq![65u8, 85u8, 84u8, 79u8],
        KissODeathIdentifier::BCST => seq![66u8, 67u8, 83u8, 84u8],
        KissODeathIdentifier::CRYP => seq![67u8, 82u8, 89u8, 80u8],
        KissODeathIdentifier::DENY => seq![68u8, 69u8, 78u8, 89u8],
        KissODeathIdentifier::DROP => seq![68u8, 82u8, 79u8, 80u8],
        KissODeathIdentifier::RSTR => seq![82u8, 83u8, 84u8, 82u8],
        KissODeathIdentifier::INIT => seq![73u8, 78u8, 73u8, 84u8],
        KissODeathIdentifier::MCST => seq![77u8, 67u8, 83u8, 84u8],
        KissODeathIdentifier::NKEY => seq![78u8, 75u8, 69u8, 89u8],
        KissODeathIdentifier::RATE => seq![82u8, 65u8, 84u8, 69u8],
        KissODeathIdentifier::RMOT => seq![82u8, 77u8, 79u8, 84u8],
        KissODeathIdentifier::STEP => seq![83u8, 84u8, 69u8, 80u8],
    }
}

/// The Kiss-of-Death code that four wire bytes spell, if any.
pub open spec fn spec_kod_of(b0: u8, b1: u8, b2: u8, b3: u8) -> Option<KissODeathIdentifier> {
    if b0 == 65u8 && b1 == 67u8 && b2 == 83u8 && b3 == 84u8 {
        Some(KissODeathIdentifier::ACST)
    } else if b0 == 65u8 && b1 == 85u8 && b2 == 84u8 && b3 == 72u8 {
        Some(KissODeathIdentifier::AUTH)
    } else if b0 == 65u8 && b1 == 85u8 && b2 == 84u8 && b3 == 79u8 {
        Some(KissODeathIdentifier::AUTO)
    } else if b0 == 66u8 && b1 == 67u8 && b2 == 83u8 && b3 == 84u8 {
        Some(KissODeathIdentifier::BCST)
    } else if b0 == 67u8 && b1 == 82u8 && b2 == 89u8 && b3 == 80u8 {
        Some(KissODeathIdentifier::CRYP)
    } else if b0 == 68u8 && b1 == 69u8 && b2 == 78u8 && b3 == 89u8 {
        Some(KissODeathIdentifier::DENY)
    } else if b0 == 68u8 && b1 == 82u8 && b2 == 79u8 && b3 == 80u8 {
        Some(KissODeathIdentifier::DROP)
    } else if b0 == 82u8 && b1 == 83u8 && b2 == 84u8 && b3 == 82u8 {
        Some(KissODeathIdentifier::RSTR)
    } else if b0 == 73u8 && b1 == 78u8 && b2 == 73u8 && b3 == 84u8 {
        Some(KissODeathIdentifier::INIT)
    } else if b0 == 77u8 && b1 == 67u8 && b2 == 83u8 && b3 == 84u8 {
        Some(KissODeathIdentifier::MCST)
    } else if b0 == 78u8 && b1 == 75u8 && b2 == 69u8 && b3 == 89u8 {
        Some(KissODeathIdentifier::NKEY)
    } else if b0 == 82u8 && b1 == 65u8 && b2 == 84u8 && b3 == 69u8 {
        Some(KissODeathIdentifier::RATE)
    } else if b0 == 82u8 && b1 == 77u8 && b2 == 79u8 && b3 == 84u8 {
        Some(KissODeathIdentifier::RMOT)
    } else if b0 == 83u8 && b1 == 84u8 && b2 == 69u8 && b3 == 80u8 {
        Some(KissODeathIdentifier::STEP)
    } else {
        None
    }
}

/// A reference-clock name decodes back from its own wire bytes exactly when
/// it has four letters; the three-letter names come back as "unknown".
pub open spec fn spec_source_reversible(s: ExternalReferenceSource) -> bool {
    {
        let b = spec_source_bytes(s);
        spec_source_of(b[0], b[1], b[2], b[3]) == Some(s)
    }
}

/// Every Kiss-of-Death code decodes back from its own wire bytes.
pub proof fn lemma_kod_round_trip(k: KissODeathIdentifier)
    ensures
        ({
            let b = spec_kod_bytes(k);
            spec_kod_of(b[0], b[1], b[2], b[3]) == Some(k)
        }),
{
}

/// A recognized name's wire bytes are exactly the four bytes it was
/// recognized from.
pub proof fn lemma_source_of_bytes_exact(b0: u8, b1: u8, b2: u8, b3: u8)
    ensures
        spec_source_of(b0, b1, b2, b3) matches Some(s) ==> spec_source_bytes(s) == seq![b0, b1, b2, b3]
            && spec_source_reversible(s),
{
    if spec_source_of(b0, b1, b2, b3) is Some {
        let s = spec_source_of(b0, b1, b2, b3)->Some_0;
        assert(spec_source_bytes(s) =~= seq![b0, b1, b2, b3]);
    }
}

impl ExternalReferenceSource {
    /// The four wire bytes of this name.
    pub fn to_wire(self) -> (r: (u8, u8, u8, u8))
        ensures
            seq![r.0, r.1, r.2, r.3] == spec_source_bytes(self),
    {
        let r = match self {
            ExternalReferenceSource::LOCL => (76u8, 79u8, 67u8, 76u8),
            ExternalReferenceSource::CESM => (67u8, 69u8, 83u8, 77u8),
            ExternalReferenceSource::RBDM => (82u8, 66u8, 68u8, 77u8),
            ExternalReferenceSource::PPS => (80u8, 80u8, 83u8, 0u8),
            ExternalReferenceSource::IRIG => (73u8, 82u8, 73u8, 71u8),
            ExternalReferenceSource::ACTS => (65u8, 67u8, 84u8, 83u8),
            ExternalReferenceSource::USNO => (85u8, 83u8, 78u8, 79u8),
            ExternalReferenceSource::PTB => (80u8, 84u8, 66u8, 0u8),
            ExternalReferenceSource::TDF => (84u8, 68u8, 70u8, 0u8),
            ExternalReferenceSource::DCF => (68u8, 67u8, 70u8, 0u8),
            ExternalReferenceSource::MSF => (77u8, 83u8, 70u8, 0u8),
            ExternalReferenceSource::WWV => (87u8, 87u8, 86u8, 0u8),
            ExternalReferenceSource::WWVB => (87u8, 87u8, 86u8, 66u8),
            ExternalReferenceSource::WWVH => (87u8, 87u8, 86u8, 72u8),
            ExternalReferenceSource::CHU => (67u8, 72u8, 85u8, 0u8),
            ExternalReferenceSource::LORC => (76u8, 79u8, 82u8, 67u8),
            ExternalReferenceSource::OMEG => (79u8, 77u8, 69u8, 71u8),
            ExternalReferenceSource::GPS => (71u8, 80u8, 83u8, 0u8),
        };
        assert(seq![r.0, r.1, r.2, r.3] =~= spec_source_bytes(self));
        r
    }

    /// The name that four wire bytes spell, if any.
    pub fn from_wire(b0: u8, b1: u8, b2: u8, b3: u8) -> (r: Option<ExternalReferenceSource>)
        ensures
            r == spec_source_of(b0, b1, b2, b3),
    {
        if b0 == 76u8 && b1 == 79u8 && b2 == 67u8 && b3 == 76u8 {
            Some(ExternalReferenceSource::LOCL)
        } else if b0 == 67u8 && b1 == 69u8 && b2 == 83u8 && b3 == 77u8 {
            Some(ExternalReferenceSource::CESM)
        } else if b0 == 82u8 && b1 == 66u8 && b2 == 68u8 && b3 == 77u8 {
            Some(ExternalReferenceSource::RBDM)
        } else if b0 == 73u8 && b1 == 82u8 && b2 == 73u8 && b3 == 71u8 {
            Some(ExternalReferenceSource::IRIG)
        } else if b0 == 65u8 && b1 == 67u8 && b2 == 84u8 && b3 == 83u8 {
            Some(ExternalReferenceSource::ACTS)
        } else if b0 == 85u8 && b1 == 83u8 && b2 == 78u8 && b3 == 79u8 {
            Some(ExternalReferenceSource::USNO)
        } else if b0 == 87u8 && b1 == 87u8 && b2 == 86u8 && b3 == 66u8 {
            Some(ExternalReferenceSource::WWVB)
        } else if b0 == 87u8 && b1 == 87u8 && b2 == 86u8 && b3 == 72u8 {
            Some(ExternalReferenceSource::WWVH)
        } else if b0 == 76u8 && b1 == 79u8 && b2 == 82u8 && b3 == 67u8 {
            Some(ExternalReferenceSource::LORC)
        } else if b0 == 79u8 && b1 == 77u8 && b2 == 69u8 && b3 == 71u8 {
            Some(ExternalReferenceSource::OMEG)
        } else {
            None
        }
    }
}

impl KissODeathIdentifier {
    /// The four wire bytes of this code.
    pub fn to_wire(self) -> (r: (u8, u8, u8, u8))
        ensures
            seq![r.0, r.1, r.2, r.3] == spec_kod_bytes(self),
    {
        let r = match self {
            KissODeathIdentifier::ACST => (65u8, 67u8, 83u8, 84u8),
            KissODeathIdentifier::AUTH => (65u8, 85u8, 84u8, 72u8),
            KissODeathIdentifier::AUTO => (65u8, 85u8, 84u8, 79u8),
            KissODeathIdentifier::BCST => (66u8, 67u8, 83u8, 84u8),
            KissODeathIdentifier::CRYP => (67u8, 82u8, 89u8, 80u8),
            KissODeathIdentifier::DENY => (68u8, 69u8, 78u8, 89u8),
            KissODeathIdentifier::DROP => (68u8, 82u8, 79u8, 80u8),
            KissODeathIdentifier::RSTR => (82u8, 83u8, 84u8, 82u8),
            KissODeathIdentifier::INIT => (73u8, 78u8, 73u8, 84u8),
            KissODeathIdentifier::MCST => (77u8, 67u8, 83u8, 84u8),
            KissODeathIdentifier::NKEY => (78u8, 75u8, 69u8, 89u8),
            KissODeathIdentifier::RATE => (82u8, 65u8, 84u8, 69u8),
            KissODeathIdentifier::RMOT => (82u8, 77u8, 79u8, 84u8),
            KissODeathIdentifier::STEP => (83u8, 84u8, 69u8, 80u8),
        };
        assert(seq![r.0, r.1, r.2, r.3] =~= spec_kod_bytes(self));
        r
    }

    /// The code that four wire bytes spell, if any.
    pub fn from_wire(b0: u8, b1: u8, b2: u8, b3: u8) -> (r: Option<KissODeathIdentifier>)
        ensures
            r == spec_kod_of(b0, b1, b2, b3),
    {
        if b0 == 65u8 && b1 == 67u8 && b2 == 83u8 && b3 == 84u8 {
            Some(KissODeathIdentifier::ACST)
        } else if b0 == 65u8 && b1 == 85u8 && b2 == 84u8 && b3 == 72u8 {
            Some(KissODeathIdentifier::AUTH)
        } else if b0 == 65u8 && b1 == 85u8 && b2 == 84u8 && b3 == 79u8 {
            Some(KissODeathIdentifier::AUTO)
        } else if b0 == 66u8 && b1 == 67u8 && b2 == 83u8 && b3 == 84u8 {
            Some(KissODeathIdentifier::BCST)
        } else if b0 == 67u8 && b1 == 82u8 && b2 == 89u8 && b3 == 80u8 {
            Some(KissODeathIdentifier::CRYP)
        } else if b0 == 68u8 && b1 == 69u8 && b2 == 78u8 && b3 == 89u8 {
            Some(KissODeathIdentifier::DENY)
        } else if b0 == 68u8 && b1 == 82u8 && b2 == 79u8 && b3 == 80u8 {
            Some(KissODeathIdentifier::DROP)
        } else if b0 == 82u8 && b1 == 83u8 && b2 == 84u8 && b3 == 82u8 {
            Some(KissODeathIdentifier::RSTR)
        } else if b0 == 73u8 && b1 == 78u8 && b2 == 73u8 && b3 == 84u8 {
            Some(KissODeathIdentifier::INIT)
        } else if b0 == 77u8 && b1 == 67u8 && b2 == 83u8 && b3 == 84u8 {
            Some(KissODeathIdentifier::MCST)
        } else if b0 == 78u8 && b1 == 75u8 && b2 == 69u8 && b3 == 89u8 {
            Some(KissODeathIdentifier::NKEY)
        } else if b0 == 82u8 && b1 == 65u8 && b2 == 84u8 && b3 == 69u8 {
            Some(KissODeathIdentifier::RATE)
        } else if b0 == 82u8 && b1 == 77u8 && b2 == 79u8 && b3 == 84u8 {
            Some(KissODeathIdentifier::RMOT)
        } else if b0 == 83u8 && b1 == 84u8 && b2 == 69u8 && b3 == 80u8 {
            Some(KissODeathIdentifier::STEP)
        } else {
            None
        }
    }
}

/// What the 4-byte identifier field means for a given mode and stratum: in
/// client mode nothing, otherwise the reading that the stratum selects.
pub open spec fn spec_decode_refid(mode: Mode, stratum: Stratum, b0: u8, b1: u8, b2: u8, b3: u8) -> Result<
    Option<ReferenceIdentifier>,
    ParseError,
> {
    if mode == Mode::Client {
        Ok(None)
    } else {
        match stratum {
            Stratum::KissODeathMessage => match spec_kod_of(b0, b1, b2, b3) {
                Some(k) => Ok(Some(ReferenceIdentifier::KissODeath(k))),
                None => Err(ParseError::InvalidKissCode),
            },
            Stratum::PrimaryReference => Ok(
                Some(ReferenceIdentifier::Primary(spec_source_of(b0, b1, b2, b3))),
            ),
            Stratum::SecondaryReference => Ok(
                Some(ReferenceIdentifier::UnknownIpVersion(be32(b0, b1, b2, b3))),
            ),
            Stratum::Reserved => Ok(
                Some(ReferenceIdentifier::ReservedStratum(be32(b0, b1, b2, b3))),
            ),
        }
    }
}

/// The four wire bytes of an identifier; an absent identifier and an
/// unknown primary source are both written as four zero bytes.
pub open spec fn spec_refid_bytes(rid: Option<ReferenceIdentifier>) -> Seq<u8> {
    match rid {
        None => seq![0u8, 0u8, 0u8, 0u8],
        Some(ReferenceIdentifier::KissODeath(k)) => spec_kod_bytes(k),
        Some(ReferenceIdentifier::Primary(Some(s))) => spec_source_bytes(s),
        Some(ReferenceIdentifier::Primary(None)) => seq![0u8, 0u8, 0u8, 0u8],
        Some(ReferenceIdentifier::UnknownIpVersion(x)) => be32_seq(x),
        Some(ReferenceIdentifier::ReservedStratum(x)) => be32_seq(x),
    }
}

/// The identifier shapes that decoding can produce for a given mode and
/// stratum: absent exactly in client mode, and otherwise the variant the
/// stratum selects, with a recognized primary name only if its bytes spell
/// it back.
pub open spec fn spec_refid_consistent(
    rid: Option<ReferenceIdentifier>,
    mode: Mode,
    stratum: Stratum,
) -> bool {
    match rid {
        None => mode == Mode::Client,
        Some(ReferenceIdentifier::KissODeath(_)) => mode != Mode::Client && stratum
            == Stratum::KissODeathMessage,
        Some(ReferenceIdentifier::Primary(os)) => mode != Mode::Client && stratum
            == Stratum::PrimaryReference && (os matches Some(s) ==> spec_source_reversible(s)),
        Some(ReferenceIdentifier::UnknownIpVersion(_)) => mode != Mode::Client && stratum
            == Stratum::SecondaryReference,
        Some(ReferenceIdentifier::ReservedStratum(_)) => mode != Mode::Client && stratum
            == Stratum::Reserved,
    }
}

/// An identifier field is always written as exactly four bytes.
pub proof fn lemma_refid_bytes_len(rid: Option<ReferenceIdentifier>)
    ensures
        spec_refid_bytes(rid).len() == 4,
{
}

/// Whatever an identifier field decodes to is consistent with the mode and
/// stratum it was decoded under.
pub proof fn lemma_decode_refid_consistent(
    mode: Mode,
    stratum: Stratum,
    b0: u8,
    b1: u8,
    b2: u8,
    b3: u8,
)
    ensures
        spec_decode_refid(mode, stratum, b0, b1, b2, b3) matches Ok(rid)
            ==> spec_refid_consistent(rid, mode, stratum),
{
    lemma_source_of_bytes_exact(b0, b1, b2, b3);
}

/// Round trip of the identifier field: re-encoding a consistent decoded
/// identifier and decoding it under the same mode and stratum yields the
/// identifier again.
pub proof fn lemma_refid_round_trip(rid: Option<ReferenceIdentifier>, mode: Mode, stratum: Stratum)
    requires
        spec_refid_consistent(rid, mode, stratum),
    ensures
        ({
            let b = spec_refid_bytes(rid);
            spec_decode_refid(mode, stratum, b[0], b[1], b[2], b[3]) == Ok::<
                Option<ReferenceIdentifier>,
                ParseError,
            >(rid)
        }),
{
    let b = spec_refid_bytes(rid);
    match rid {
        None => {},
        Some(ReferenceIdentifier::KissODeath(k)) => {
            lemma_kod_round_trip(k);
        },
        Some(ReferenceIdentifier::Primary(os)) => {
            match os {
                Some(s) => {},
                None => {
                    assert(spec_source_of(0, 0, 0, 0) is None);
                },
            }
        },
        Some(ReferenceIdentifier::UnknownIpVersion(x)) => {
            lemma_be32_of_bytes(x);
        },
        Some(ReferenceIdentifier::ReservedStratum(x)) => {
            lemma_be32_of_bytes(x);
        },
    }
}

/// Decodes the identifier field from its four wire bytes, under the mode
/// and stratum already read from the frame head.
pub fn decode_refid(mode: Mode, stratum: Stratum, b0: u8, b1: u8, b2: u8, b3: u8) -> (r: Result<
    Option<ReferenceIdentifier>,
    ParseError,
>)
    ensures
        r == spec_decode_refid(mode, stratum, b0, b1, b2, b3),
{
    if mode == Mode::Client {
        Ok(None)
    } else {
        match stratum {
            Stratum::KissODeathMessage => match KissODeathIdentifier::from_wire(b0, b1, b2, b3) {
                Some(k) => Ok(Some(ReferenceIdentifier::KissODeath(k))),
                None => Err(ParseError::InvalidKissCode),
            },
            Stratum::PrimaryReference => Ok(
                Some(
                    ReferenceIdentifier::Primary(ExternalReferenceSource::from_wire(b0, b1, b2, b3)),
                ),
            ),
            Stratum::SecondaryReference => Ok(
                Some(ReferenceIdentifier::UnknownIpVersion(crate::wire::be32_of(b0, b1, b2, b3))),
            ),
            Stratum::Reserved => Ok(
                Some(ReferenceIdentifier::ReservedStratum(crate::wire::be32_of(b0, b1, b2, b3))),
            ),
        }
    }
}

/// Appends the four wire bytes of an identifier to `v`.
pub fn push_refid(v: &mut Vec<u8>, rid: &Option<ReferenceIdentifier>)
    ensures
        final(v)@ == old(v)@ + spec_refid_bytes(*rid),
{
    match rid {
        None => {
            v.push(0u8);
            v.push(0u8);
            v.push(0u8);
            v.push(0u8);
        },
        Some(ReferenceIdentifier::KissODeath(k)) => {
            let (b0, b1, b2, b3) = k.to_wire();
            v.push(b0);
            v.push(b1);
            v.push(b2);
            v.push(b3);
        },
        Some(ReferenceIdentifier::Primary(Some(s))) => {
            let (b0, b1, b2, b3) = s.to_wire();
            v.push(b0);
            v.push(b1);
            v.push(b2);
            v.push(b3);
        },
        Some(ReferenceIdentifier::Primary(None)) => {
            v.push(0u8);
            v.push(0u8);
            v.push(0u8);
            v.push(0u8);
        },
        Some(ReferenceIdentifier::UnknownIpVersion(x)) => {
            push_be32(v, *x);
        },
        Some(ReferenceIdentifier::ReservedStratum(x)) => {
            push_be32(v, *x);
        },
    }
    assert(v@ =~= old(v)@ + spec_refid_bytes(*rid));
}

} // verus!
