//! The packed header itself: one byte holding a mode, a speed class and a
//! count of games, with its codec.

use vstd::prelude::*;

use crate::model::{mode_bit, speed_code, speed_of_code, Mode, Speed};

verus! {

/// The decoded in-memory form of one packed metadata byte.
#[derive(Clone, Copy, Debug, PartialEq, Eq, Structural)]
pub struct Header {
    pub mode: Mode,
    pub speed: Speed,
    /// Count of games in the batch; the wire format holds 0 through 15.
    pub games: u8,
}

/// What can go wrong while reading a header.
#[derive(Clone, Copy, Debug, PartialEq, Eq, Structural)]
pub enum HeaderError {
    /// The input held no byte to read.
    UnexpectedEnd,
    /// The 3-bit speed field of the byte was 6 or 7, which no speed class carries.
    InvalidEncoding,
}

/// The byte that encodes a header: the mode in bit 0, the speed code in
/// bits 1-3, the games count in bits 4-7.
pub open spec fn spec_encode(h: Header) -> u8 {
    mode_bit(h.mode) | (speed_code(h.speed) << 1) | (h.games << 4)
}

/// The header a byte decodes to, or `None` when its speed field is invalid.
pub open spec fn spec_decode(b: u8) -> Option<Header> {
    match speed_of_code((b >> 1) & 7) {
        Some(speed) => Some(
            Header {
                mode: if b & 1 == 1 {
                    Mode::Rated
                } else {
                    Mode::Casual
                },
                speed,
                games: b >> 4,
            },
        ),
        None => None,
    }
}

impl Header {
    /// A header is well formed when its games count fits the 4-bit wire field.
    pub open spec fn wf(&self) -> bool {
        self.games <= 15
    }

    /// Packs this header into its single wire byte.
    ///
    /// The games count must already fit its 4-bit field: that bound is a
    /// checked precondition here, not a silent truncation.
    pub fn encode(&self) -> (b: u8)
        requires
            self.wf(),
        ensures
            b == spec_encode(*self),
    {
        let m: u8 = if self.mode.is_rated() {
            1
        } else {
            0
        };
        m | (self.speed.code() << 1) | (self.games << 4)
    }

    /// Unpacks a wire byte; fails exactly when the 3-bit speed field is 6 or 7.
    pub fn decode(b: u8) -> (r: Result<Header, HeaderError>)
        ensures
            r matches Ok(h) ==> spec_decode(b) == Some(h) && h.wf(),
            r matches Err(e) ==> spec_decode(b) is None && e == HeaderError::InvalidEncoding,
            r is Ok <==> (b >> 1) & 7 <= 5,
    {
        let field: u8 = (b >> 1) & 7;
        match Speed::from_code(field) {
            Some(speed) => {
                let games: u8 = b >> 4;
                proof {
                    assert(b >> 4 <= 15) by (bit_vector);
                }
                Ok(Header { mode: Mode::from_rated(b & 1 == 1), speed, games })
            },
            None => Err(HeaderError::InvalidEncoding),
        }
    }

    /// Reads one header from the front of `input`: fails with `UnexpectedEnd`
    /// on an empty input, and otherwise decodes the first byte.
    pub fn read(input: &[u8]) -> (r: Result<Header, HeaderError>)
        ensures
            input@.len() == 0 ==> (r matches Err(e) && e == HeaderError::UnexpectedEnd),
            input@.len() > 0 ==> {
                &&& (r matches Ok(h) ==> spec_decode(input@[0]) == Some(h) && h.wf())
                &&& (r matches Err(e) ==> spec_decode(input@[0]) is None && e
                    == HeaderError::InvalidEncoding)
                &&& (r is Ok <==> (input@[0] >> 1) & 7 <= 5)
            },
    {
        if input.len() == 0 {
            Err(HeaderError::UnexpectedEnd)
        } else {
            Self::decode(input[0])
        }
    }

    /// Appends this header's single wire byte to `out`.
    pub fn write(&self, out: &mut Vec<u8>)
        requires
            self.wf(),
        ensures
            final(out)@ == old(out)@.push(spec_encode(*self)),
    {
        let b: u8 = self.encode();
        out.push(b);
    }
}

/// Round trip: every well-formed header decodes back from its own encoding.
/// Quantified over all 2 modes, 6 speed classes and 16 game counts.
pub proof fn lemma_round_trip(h: Header)
    requires
        h.wf(),
    ensures
        spec_decode(spec_encode(h)) == Some(h),
{
    let m = mode_bit(h.mode);
    let s = speed_code(h.speed);
    let g = h.games;
    let b = spec_encode(h);
    assert(b & 1 == m && (b >> 1) & 7 == s && b >> 4 == g) by (bit_vector)
        requires
            m <= 1,
            s <= 5,
            g <= 15,
            b == m | (s << 1) | (g << 4),
    ;
    crate::model::lemma_speed_code_round(h.speed);
}

/// Bit isolation, one direction: two bytes that agree on the low nibble (mode
/// bit and speed field) decode to the same mode and speed, or both fail.
pub proof fn lemma_games_nibble_isolated(b1: u8, b2: u8)
    requires
        b1 & 0x0f == b2 & 0x0f,
    ensures
        spec_decode(b1) is Some <==> spec_decode(b2) is Some,
        spec_decode(b1) matches Some(h1) ==> spec_decode(b2) matches Some(h2) && h1.mode
            == h2.mode && h1.speed == h2.speed,
{
    assert(b1 & 1 == b2 & 1 && (b1 >> 1) & 7 == (b2 >> 1) & 7) by (bit_vector)
        requires
            b1 & 0x0f == b2 & 0x0f,
    ;
}

/// Bit isolation, the other direction: two bytes that agree on the high
/// nibble decode to the same games count, whenever both decode at all.
pub proof fn lemma_mode_speed_bits_isolated(b1: u8, b2: u8)
    requires
        b1 & 0xf0 == b2 & 0xf0,
    ensures
        spec_decode(b1) matches Some(h1) ==> spec_decode(b2) matches Some(h2) ==> h1.games
            == h2.games,
{
    assert(b1 >> 4 == b2 >> 4) by (bit_vector)
        requires
            b1 & 0xf0 == b2 & 0xf0,
    ;
}

} // verus!
