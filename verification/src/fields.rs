//! The closed enumerations packed into the first two bytes of an NTP frame:
//! leap indicator, version number, mode and the stratum classification.
//!
//! Each enumeration comes with an explicit, total (or, for the version,
//! partial) mapping from its raw bit pattern, and the inverse mapping used by
//! the encoder.

use vstd::prelude::*;

verus! {

/// Two-bit leap-second warning, bits 7-6 of the flags byte. All four bit
/// patterns are valid.
#[derive(Copy, Clone, Debug, PartialEq, Eq, Structural)]
pub enum LeapIndicator {
    NoWarning,
    LastMinuteHas61Seconds,
    LastMinuteHas59Seconds,
    AlarmConditionClockNotSynchronised,
}

/// Three-bit protocol version, bits 5-3 of the flags byte. Only 1 through 4
/// are valid; 0 and 5-7 are rejected.
#[derive(Copy, Clone, Debug, PartialEq, Eq, Structural)]
pub enum VersionNumber {
    One,
    Two,
    Three,
    Four,
}

/// Three-bit association mode, bits 2-0 of the flags byte. All eight bit
/// patterns map to a named variant.
#[derive(Copy, Clone, Debug, PartialEq, Eq, Structural)]
pub enum Mode {
    Reserved,
    SymmetricActive,
    SymmetricPassive,
    Client,
    Server,
    Broadcast,
    ReservedForNtpControlMessage,
    ReservedForPrivateUse,
}

/// Classification of the stratum byte. The classification, not the raw
/// byte, drives the interpretation of the reference-identifier field.
#[derive(Copy, Clone, Debug, PartialEq, Eq, Structural)]
pub enum Stratum {
    KissODeathMessage,
    PrimaryReference,
    SecondaryReference,
    Reserved,
}

/// Total mapping from the two leap-indicator bits to their variant.
pub open spec fn spec_li_of_bits(bits: u8) -> LeapIndicator {
    if bits == 0 {
        LeapIndicator::NoWarning
    } else if bits == 1 {
        LeapIndicator::LastMinuteHas61Seconds
    } else if bits == 2 {
        LeapIndicator::LastMinuteHas59Seconds
    } else {
        LeapIndicator::AlarmConditionClockNotSynchronised
    }
}

/// The two bits that encode a leap indicator.
pub open spec fn spec_li_bits(li: LeapIndicator) -> u8 {
    match li {
        LeapIndicator::NoWarning => 0,
        LeapIndicator::LastMinuteHas61Seconds => 1,
        LeapIndicator::LastMinuteHas59Seconds => 2,
        LeapIndicator::AlarmConditionClockNotSynchronised => 3,
    }
}

/// Partial mapping from the three version bits: only 1-4 name a version.
pub open spec fn spec_vn_of_bits(bits: u8) -> Option<VersionNumber> {
    if bits == 1 {
        Some(VersionNumber::One)
    } else if bits == 2 {
        Some(VersionNumber::Two)
    } else if bits == 3 {
        Some(VersionNumber::Three)
    } else if bits == 4 {
        Some(VersionNumber::Four)
    } else {
        None
    }
}

/// The three bits that encode a version number.
pub open spec fn spec_vn_bits(vn: VersionNumber) -> u8 {
    match vn {
        VersionNumber::One => 1,
        VersionNumber::Two => 2,
        VersionNumber::Three => 3,
        VersionNumber::Four => 4,
    }
}

/// Total mapping from the three mode bits to their variant.
pub open spec fn spec_mode_of_bits(bits: u8) -> Mode {
    if bits == 0 {
        Mode::Reserved
    } else if bits == 1 {
        Mode::SymmetricActive
    } else if bits == 2 {
        Mode::SymmetricPassive
    } else if bits == 3 {
        Mode::Client
    } else if bits == 4 {
        Mode::Server
    } else if bits == 5 {
        Mode::Broadcast
    } else if bits == 6 {
        Mode::ReservedForNtpControlMessage
    } else {
        Mode::ReservedForPrivateUse
    }
}

/// The three bits that encode a mode.
pub open spec fn spec_mode_bits(mode: Mode) -> u8 {
    match mode {
        Mode::Reserved => 0,
        Mode::SymmetricActive => 1,
        Mode::SymmetricPassive => 2,
        Mode::Client => 3,
        Mode::Server => 4,
        Mode::Broadcast => 5,
        Mode::ReservedForNtpControlMessage => 6,
        Mode::ReservedForPrivateUse => 7,
    }
}

/// Total classification of the stratum byte: 0 is Kiss-of-Death, 1 a primary
/// reference, 2-15 secondary references, and everything from 16 up lands in
/// the Reserved bucket.
pub open spec fn spec_stratum_of_byte(byte: u8) -> Stratum {
    if byte == 0 {
        Stratum::KissODeathMessage
    } else if byte == 1 {
        Stratum::PrimaryReference
    } else if byte <= 15 {
        Stratum::SecondaryReference
    } else {
        Stratum::Reserved
    }
}

/// The representative byte written for a stratum classification.
pub open spec fn spec_stratum_byte(stratum: Stratum) -> u8 {
    match stratum {
        Stratum::KissODeathMessage => 0,
        Stratum::PrimaryReference => 1,
        Stratum::SecondaryReference => 2,
        Stratum::Reserved => 16,
    }
}

/// Classifying the representative byte of a stratum gives that stratum back.
pub proof fn lemma_stratum_round_trip(stratum: Stratum)
    ensures
        spec_stratum_of_byte(spec_stratum_byte(stratum)) == stratum,
{
}

/// A leap indicator's bits are in range and decode back to it.
pub proof fn lemma_li_round_trip(li: LeapIndicator)
    ensures
        spec_li_bits(li) < 4,
        spec_li_of_bits(spec_li_bits(li)) == li,
{
}

/// A version number's bits are in range and decode back to it.
pub proof fn lemma_vn_round_trip(vn: VersionNumber)
    ensures
        1 <= spec_vn_bits(vn) <= 4,
        spec_vn_of_bits(spec_vn_bits(vn)) == Some(vn),
{
}

/// A mode's bits are in range and decode back to it.
pub proof fn lemma_mode_round_trip(mode: Mode)
    ensures
        spec_mode_bits(mode) < 8,
        spec_mode_of_bits(spec_mode_bits(mode)) == mode,
{
}

impl LeapIndicator {
    /// Decodes the two leap-indicator bits; every pattern below 4 is valid.
    pub fn from_bits(bits: u8) -> (r: LeapIndicator)
        requires
            bits < 4,
        ensures
            r == spec_li_of_bits(bits),
    {
        if bits == 0 {
            LeapIndicator::NoWarning
        } else if bits == 1 {
            LeapIndicator::LastMinuteHas61Seconds
        } else if bits == 2 {
            LeapIndicator::LastMinuteHas59Seconds
        } else {
            LeapIndicator::AlarmConditionClockNotSynchronised
        }
    }

    /// The two bits that encode this leap indicator.
    pub fn to_bits(self) -> (r: u8)
        ensures
            r == spec_li_bits(self),
            r < 4,
    {
        match self {
            LeapIndicator::NoWarning => 0,
            LeapIndicator::LastMinuteHas61Seconds => 1,
            LeapIndicator::LastMinuteHas59Seconds => 2,
            LeapIndicator::AlarmConditionClockNotSynchronised => 3,
        }
    }
}

impl VersionNumber {
    /// Decodes the three version bits; only 1 through 4 name a version.
    pub fn from_bits(bits: u8) -> (r: Option<VersionNumber>)
        ensures
            r == spec_vn_of_bits(bits),
            r is Some <==> 1 <= bits <= 4,
    {
        if bits == 1 {
            Some(VersionNumber::One)
        } else if bits == 2 {
            Some(VersionNumber::Two)
        } else if bits == 3 {
            Some(VersionNumber::Three)
        } else if bits == 4 {
            Some(VersionNumber::Four)
        } else {
            None
        }
    }

    /// The three bits that encode this version number.
    pub fn to_bits(self) -> (r: u8)
        ensures
            r == spec_vn_bits(self),
            1 <= r <= 4,
    {
        match self {
            VersionNumber::One => 1,
            VersionNumber::Two => 2,
            VersionNumber::Three => 3,
            VersionNumber::Four => 4,
        }
    }
}

impl Mode {
    /// Decodes the three mode bits; every pattern below 8 is valid.
    pub fn from_bits(bits: u8) -> (r: Mode)
        requires
            bits < 8,
        ensures
            r == spec_mode_of_bits(bits),
    {
        if bits == 0 {
            Mode::Reserved
        } else if bits == 1 {
            Mode::SymmetricActive
        } else if bits == 2 {
            Mode::SymmetricPassive
        } else if bits == 3 {
            Mode::Client
        } else if bits == 4 {
            Mode::Server
        } else if bits == 5 {
            Mode::Broadcast
        } else if bits == 6 {
            Mode::ReservedForNtpControlMessage
        } else {
            Mode::ReservedForPrivateUse
        }
    }

    /// The three bits that encode this mode.
    pub fn to_bits(self) -> (r: u8)
        ensures
            r == spec_mode_bits(self),
            r < 8,
    {
        match self {
            Mode::Reserved => 0,
            Mode::SymmetricActive => 1,
            Mode::SymmetricPassive => 2,
            Mode::Client => 3,
            Mode::Server => 4,
            Mode::Broadcast => 5,
            Mode::ReservedForNtpControlMessage => 6,
            Mode::ReservedForPrivateUse => 7,
        }
    }
}

impl Stratum {
    /// Classifies a stratum byte; the mapping is total, no byte is rejected.
    pub fn from_byte(byte: u8) -> (r: Stratum)
        ensures
            r == spec_stratum_of_byte(byte),
    {
        if byte == 0 {
            Stratum::KissODeathMessage
        } else if byte == 1 {
            Stratum::PrimaryReference
        } else if byte <= 15 {
            Stratum::SecondaryReference
        } else {
            Stratum::Reserved
        }
    }

    /// The representative byte written for this classification.
    pub fn to_byte(self) -> (r: u8)
        ensures
            r == spec_stratum_byte(self),
    {
        match self {
            Stratum::KissODeathMessage => 0,
            Stratum::PrimaryReference => 1,
            Stratum::SecondaryReference => 2,
            Stratum::Reserved => 16,
        }
    }
}

} // verus!
