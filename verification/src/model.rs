//! The two enumerated fields of a header: play mode and speed class.

use vstd::prelude::*;

verus! {

/// Whether the games of a batch are rated or casual.
#[derive(Clone, Copy, Debug, PartialEq, Eq, Structural)]
pub enum Mode {
    Rated,
    Casual,
}

/// The time-control class of a batch of games, in its wire order:
/// `speed_code` assigns the six variants the codes 0 through 5.
#[derive(Clone, Copy, Debug, PartialEq, Eq, Structural)]
pub enum Speed {
    Ultrabullet,
    Bullet,
    Blitz,
    Rapid,
    Classical,
    Correspondence,
}

/// The single bit that encodes a mode: 1 for rated, 0 for casual.
pub open spec fn mode_bit(m: Mode) -> u8 {
    match m {
        Mode::Rated => 1,
        Mode::Casual => 0,
    }
}

/// The 3-bit code of a speed class on the wire.
pub open spec fn speed_code(s: Speed) -> u8 {
    match s {
        Speed::Ultrabullet => 0,
        Speed::Bullet => 1,
        Speed::Blitz => 2,
        Speed::Rapid => 3,
        Speed::Classical => 4,
        Speed::Correspondence => 5,
    }
}

/// The speed class a 3-bit code stands for; `None` for the two codes (6 and 7)
/// that no variant carries.
pub open spec fn speed_of_code(c: u8) -> Option<Speed> {
    if c == 0 {
        Some(Speed::Ultrabullet)
    } else if c == 1 {
        Some(Speed::Bullet)
    } else if c == 2 {
        Some(Speed::Blitz)
    } else if c == 3 {
        Some(Speed::Rapid)
    } else if c == 4 {
        Some(Speed::Classical)
    } else if c == 5 {
        Some(Speed::Correspondence)
    } else {
        None
    }
}

impl Mode {
    /// The mode that a rated-flag stands for.
    pub fn from_rated(rated: bool) -> (m: Mode)
        ensures
            m == (if rated { Mode::Rated } else { Mode::Casual }),
    {
        if rated {
            Mode::Rated
        } else {
            Mode::Casual
        }
    }

    /// Whether this mode is `Rated`.
    pub fn is_rated(&self) -> (r: bool)
        ensures
            r == (*self is Rated),
    {
        matches!(self, Mode::Rated)
    }
}

impl Speed {
    /// The 3-bit wire code of this speed class.
    pub fn code(&self) -> (c: u8)
        ensures
            c == speed_code(*self),
    {
        match self {
            Speed::Ultrabullet => 0,
            Speed::Bullet => 1,
            Speed::Blitz => 2,
            Speed::Rapid => 3,
            Speed::Classical => 4,
            Speed::Correspondence => 5,
        }
    }

    /// The speed class of a 3-bit wire code; `None` when the code is 6 or 7.
    pub fn from_code(c: u8) -> (r: Option<Speed>)
        ensures
            r == speed_of_code(c),
    {
        match c {
            0 => Some(Speed::Ultrabullet),
            1 => Some(Speed::Bullet),
            2 => Some(Speed::Blitz),
            3 => Some(Speed::Rapid),
            4 => Some(Speed::Classical),
            5 => Some(Speed::Correspondence),
            _ => None,
        }
    }
}

/// Encoding a speed class and reading the code back yields the same class.
pub proof fn lemma_speed_code_round(s: Speed)
    ensures
        speed_of_code(speed_code(s)) == Some(s),
{
}

} // verus!
