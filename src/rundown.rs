//! Rundowns (mission-tier groups) and the expedition numbering rule.

use vstd::prelude::*;

verus! {

/// A rundown, as the live build numbers them in its log.
#[derive(Debug, Clone, Copy, PartialEq, Eq, Hash, Structural)]
pub enum Rundown {
    Modded,
    R7,
    R1,
    R2,
    R3,
    R8,
    R4,
    R5,
    Tutorial,
    R6,
}

impl Default for Rundown {
    fn default() -> (r: Self)
        ensures
            r == Rundown::Modded,
    {
        Rundown::Modded
    }
}

/// The rundown that the build's numeric code stands for, if any.
pub open spec fn rundown_of_code(code: nat) -> Option<Rundown> {
    if code == 0 {
        Some(Rundown::Modded)
    } else if code == 31 {
        Some(Rundown::R7)
    } else if code == 32 {
        Some(Rundown::R1)
    } else if code == 33 {
        Some(Rundown::R2)
    } else if code == 34 {
        Some(Rundown::R3)
    } else if code == 35 {
        Some(Rundown::R8)
    } else if code == 37 {
        Some(Rundown::R4)
    } else if code == 38 {
        Some(Rundown::R5)
    } else if code == 39 {
        Some(Rundown::Tutorial)
    } else if code == 41 {
        Some(Rundown::R6)
    } else {
        None
    }
}

/// The rundown of a code, `Modded` for a code the build does not know.
pub open spec fn rundown_or_modded(code: nat) -> Rundown {
    match rundown_of_code(code) {
        Some(r) => r,
        None => Rundown::Modded,
    }
}

/// Tiers whose second expedition of R8 the game numbers without the offset.
pub open spec fn is_unshifted_r8_tier(tier: char) -> bool {
    tier == 'A' || tier == 'C' || tier == 'D' || tier == 'E'
}

/// The user-facing expedition number for a zero-based index in the log.
pub open spec fn corrected_index(rundown: Rundown, tier: char, raw: nat) -> nat {
    if rundown == Rundown::R8 && is_unshifted_r8_tier(tier) && raw == 2 {
        raw
    } else {
        raw + 1
    }
}

/// The name of a rundown, as `Debug` writes it.
pub open spec fn rundown_name(r: Rundown) -> Seq<char> {
    match r {
        Rundown::Modded => "Modded"@,
        Rundown::R7 => "R7"@,
        Rundown::R1 => "R1"@,
        Rundown::R2 => "R2"@,
        Rundown::R3 => "R3"@,
        Rundown::R8 => "R8"@,
        Rundown::R4 => "R4"@,
        Rundown::R5 => "R5"@,
        Rundown::Tutorial => "Tutorial"@,
        Rundown::R6 => "R6"@,
    }
}

impl Rundown {
    /// The rundown that a numeric code stands for, if the build knows it.
    pub fn from_repr(code: u16) -> (r: Option<Rundown>)
        ensures
            r == rundown_of_code(code as nat),
    {
        match code {
            0 => Some(Rundown::Modded),
            31 => Some(Rundown::R7),
            32 => Some(Rundown::R1),
            33 => Some(Rundown::R2),
            34 => Some(Rundown::R3),
            35 => Some(Rundown::R8),
            37 => Some(Rundown::R4),
            38 => Some(Rundown::R5),
            39 => Some(Rundown::Tutorial),
            41 => Some(Rundown::R6),
            _ => None,
        }
    }

    /// The rundown of a numeric code; an unknown code is `Modded`, never an error.
    pub fn from_code(code: u16) -> (r: Rundown)
        ensures
            r == rundown_or_modded(code as nat),
            rundown_of_code(code as nat) is None ==> r == Rundown::Modded,
    {
        match Rundown::from_repr(code) {
            Some(r) => r,
            None => Rundown::Modded,
        }
    }

    /// The rundown's name, as `Debug` writes it.
    pub fn name(&self) -> (r: &'static str)
        ensures
            r@ == rundown_name(*self),
    {
        match self {
            Rundown::Modded => "Modded",
            Rundown::R7 => "R7",
            Rundown::R1 => "R1",
            Rundown::R2 => "R2",
            Rundown::R3 => "R3",
            Rundown::R8 => "R8",
            Rundown::R4 => "R4",
            Rundown::R5 => "R5",
            Rundown::Tutorial => "Tutorial",
            Rundown::R6 => "R6",
        }
    }
}

/// The expedition number shown to players for the log's zero-based index:
/// the index itself for the second expedition of R8 tiers A, C, D and E,
/// where the game applies no offset, and the index plus one otherwise.
pub fn corrected_expedition(rundown: Rundown, tier: char, raw: u32) -> (r: usize)
    requires
        raw < u32::MAX,
    ensures
        r as nat == corrected_index(rundown, tier, raw as nat),
{
    if rundown == Rundown::R8 && (tier == 'A' || tier == 'C' || tier == 'D' || tier == 'E') && raw
        == 2 {
        raw as usize
    } else {
        raw as usize + 1
    }
}

} // verus!
