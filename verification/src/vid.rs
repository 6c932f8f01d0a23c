//! Voltage-ID codes of the downstream device and the set-points they select.

use vstd::prelude::*;

verus! {

/// The core voltage that a sampled voltage-ID code selects, or `Invalid`
/// when the code selects none.
#[derive(Copy, Clone, Debug, PartialEq, Eq, Structural)]
pub enum Tofino2Vid {
    Invalid,
    V0P922,
    V0P893,
    V0P867,
    V0P847,
    V0P831,
    V0P815,
    V0P790,
    V0P759,
}

/// The set-point selected by a raw code: the eight codes `0b1000..=0b1111`
/// each select one voltage, every other byte selects none.
pub open spec fn vid_of_code(code: u8) -> Tofino2Vid {
    if code == 0b1111 {
        Tofino2Vid::V0P922
    } else if code == 0b1110 {
        Tofino2Vid::V0P893
    } else if code == 0b1101 {
        Tofino2Vid::V0P867
    } else if code == 0b1100 {
        Tofino2Vid::V0P847
    } else if code == 0b1011 {
        Tofino2Vid::V0P831
    } else if code == 0b1010 {
        Tofino2Vid::V0P815
    } else if code == 0b1001 {
        Tofino2Vid::V0P790
    } else if code == 0b1000 {
        Tofino2Vid::V0P759
    } else {
        Tofino2Vid::Invalid
    }
}

impl Tofino2Vid {
    /// The set-point in millivolts; `Invalid` has none.
    pub open spec fn spec_millivolts(self) -> Option<u32> {
        match self {
            Tofino2Vid::Invalid => None,
            Tofino2Vid::V0P922 => Some(922u32),
            Tofino2Vid::V0P893 => Some(893u32),
            Tofino2Vid::V0P867 => Some(867u32),
            Tofino2Vid::V0P847 => Some(847u32),
            Tofino2Vid::V0P831 => Some(831u32),
            Tofino2Vid::V0P815 => Some(815u32),
            Tofino2Vid::V0P790 => Some(790u32),
            Tofino2Vid::V0P759 => Some(759u32),
        }
    }

    /// Decodes a byte read from the voltage-ID register.
    pub fn from_code(code: u8) -> (vid: Tofino2Vid)
        ensures
            vid == vid_of_code(code),
    {
        match code {
            0b1111 => Tofino2Vid::V0P922,
            0b1110 => Tofino2Vid::V0P893,
            0b1101 => Tofino2Vid::V0P867,
            0b1100 => Tofino2Vid::V0P847,
            0b1011 => Tofino2Vid::V0P831,
            0b1010 => Tofino2Vid::V0P815,
            0b1001 => Tofino2Vid::V0P790,
            0b1000 => Tofino2Vid::V0P759,
            _ => Tofino2Vid::Invalid,
        }
    }

    /// The set-point in millivolts, or `None` for `Invalid`.
    #[verifier::when_used_as_spec(spec_millivolts)]
    pub fn millivolts(self) -> (mv: Option<u32>)
        ensures
            mv == self.spec_millivolts(),
    {
        match self {
            Tofino2Vid::Invalid => None,
            Tofino2Vid::V0P922 => Some(922),
            Tofino2Vid::V0P893 => Some(893),
            Tofino2Vid::V0P867 => Some(867),
            Tofino2Vid::V0P847 => Some(847),
            Tofino2Vid::V0P831 => Some(831),
            Tofino2Vid::V0P815 => Some(815),
            Tofino2Vid::V0P790 => Some(790),
            Tofino2Vid::V0P759 => Some(759),
        }
    }
}

} // verus!
