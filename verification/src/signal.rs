//! Signal-type classification of a record, and the set of navigation
//! modes a record may announce.

use vstd::prelude::*;

verus! {

/// How the producer derived a record: one of thirteen named surveillance
/// categories, or `Unknown` for the codes the format leaves unassigned.
#[derive(Debug, Clone, Copy, PartialEq, Eq, Structural)]
pub enum SignalType {
    AdsbIcao,
    AdsbIcaoNt,
    AdsrIcao,
    TisbIcao,
    Adsc,
    Mlat,
    Other,
    ModeS,
    AdsbOther,
    AdsrOther,
    TisbTrackfile,
    TisbOther,
    ModeAc,
    Unknown,
}

/// The variant that a 4-bit signal-type code selects; codes above 12 fall
/// back to `Unknown`.
pub open spec fn spec_signal_type(code: u8) -> SignalType {
    if code == 0 {
        SignalType::AdsbIcao
    } else if code == 1 {
        SignalType::AdsbIcaoNt
    } else if code == 2 {
        SignalType::AdsrIcao
    } else if code == 3 {
        SignalType::TisbIcao
    } else if code == 4 {
        SignalType::Adsc
    } else if code == 5 {
        SignalType::Mlat
    } else if code == 6 {
        SignalType::Other
    } else if code == 7 {
        SignalType::ModeS
    } else if code == 8 {
        SignalType::AdsbOther
    } else if code == 9 {
        SignalType::AdsrOther
    } else if code == 10 {
        SignalType::TisbTrackfile
    } else if code == 11 {
        SignalType::TisbOther
    } else if code == 12 {
        SignalType::ModeAc
    } else {
        SignalType::Unknown
    }
}

impl SignalType {
    /// Maps a 4-bit signal-type code to its variant.
    pub fn from_code(code: u8) -> (r: SignalType)
        ensures
            r == spec_signal_type(code),
    {
        match code {
            0 => SignalType::AdsbIcao,
            1 => SignalType::AdsbIcaoNt,
            2 => SignalType::AdsrIcao,
            3 => SignalType::TisbIcao,
            4 => SignalType::Adsc,
            5 => SignalType::Mlat,
            6 => SignalType::Other,
            7 => SignalType::ModeS,
            8 => SignalType::AdsbOther,
            9 => SignalType::AdsrOther,
            10 => SignalType::TisbTrackfile,
            11 => SignalType::TisbOther,
            12 => SignalType::ModeAc,
            _ => SignalType::Unknown,
        }
    }

    /// Whether the variant belongs to the ADS-B family.
    pub fn is_adsb(&self) -> (r: bool)
        ensures
            r == (*self == SignalType::AdsbIcao || *self == SignalType::AdsbIcaoNt || *self
                == SignalType::AdsbOther),
    {
        match self {
            SignalType::AdsbIcao => true,
            SignalType::AdsbIcaoNt => true,
            SignalType::AdsbOther => true,
            _ => false,
        }
    }

    /// Whether the variant belongs to the ADS-R family.
    pub fn is_adsr(&self) -> (r: bool)
        ensures
            r == (*self == SignalType::AdsrIcao || *self == SignalType::AdsrOther),
    {
        match self {
            SignalType::AdsrIcao => true,
            SignalType::AdsrOther => true,
            _ => false,
        }
    }

    /// Whether the variant belongs to the TIS-B family.
    pub fn is_tisb(&self) -> (r: bool)
        ensures
            r == (*self == SignalType::TisbIcao || *self == SignalType::TisbTrackfile || *self
                == SignalType::TisbOther),
    {
        match self {
            SignalType::TisbIcao => true,
            SignalType::TisbTrackfile => true,
            SignalType::TisbOther => true,
            _ => false,
        }
    }
}

/// The six navigation capabilities a record can announce. The whole set is
/// materialized only when its validity bit is on; otherwise it is empty.
#[derive(Debug, Clone, Copy, PartialEq, Eq, Structural)]
pub struct NavModes {
    pub autopilot: bool,
    pub vnav: bool,
    pub alt_hold: bool,
    pub approach: bool,
    pub lnav: bool,
    pub tcas: bool,
}

/// The empty capability set.
pub open spec fn spec_nav_modes_empty() -> NavModes {
    NavModes {
        autopilot: false,
        vnav: false,
        alt_hold: false,
        approach: false,
        lnav: false,
        tcas: false,
    }
}

/// The capability set encoded by the raw nav-mode byte, one bit per mode.
pub open spec fn spec_nav_modes(raw: u8) -> NavModes {
    NavModes {
        autopilot: raw & 1 != 0,
        vnav: raw & 2 != 0,
        alt_hold: raw & 4 != 0,
        approach: raw & 8 != 0,
        lnav: raw & 16 != 0,
        tcas: raw & 32 != 0,
    }
}

impl NavModes {
    /// The empty capability set.
    pub fn empty() -> (r: NavModes)
        ensures
            r == spec_nav_modes_empty(),
    {
        NavModes {
            autopilot: false,
            vnav: false,
            alt_hold: false,
            approach: false,
            lnav: false,
            tcas: false,
        }
    }

    /// Decodes the raw nav-mode byte into its capability set.
    pub fn from_raw(raw: u8) -> (r: NavModes)
        ensures
            r == spec_nav_modes(raw),
    {
        NavModes {
            autopilot: raw & 1 != 0,
            vnav: raw & 2 != 0,
            alt_hold: raw & 4 != 0,
            approach: raw & 8 != 0,
            lnav: raw & 16 != 0,
            tcas: raw & 32 != 0,
        }
    }
}

} // verus!
