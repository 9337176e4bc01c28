use vstd::prelude::*;

use crate::error::FrameError;

verus! {

/// Value of the marker bit (bit 7) in every header this layer writes.
pub const FLAG_MARKER: u8 = 0x80;

/// Largest network-link identifier (bits 6 to 4).
pub const MAX_NLI: u8 = 7;

/// Largest transaction identifier (bits 3 to 0); 0 means "no response expected".
pub const MAX_TID: u8 = 15;

pub open spec fn valid_nli(nli: u8) -> bool {
    nli <= MAX_NLI
}

/// A transaction identifier field is either absent or in `1..=MAX_TID`.
pub open spec fn valid_tid(tid: Option<u8>) -> bool {
    match tid {
        None => true,
        Some(t) => 1 <= t && t <= MAX_TID,
    }
}

pub open spec fn tid_field(tid: Option<u8>) -> int {
    match tid {
        None => 0,
        Some(t) => t as int,
    }
}

/// The header byte: marker in bit 7, NLI in bits 6..4, TID in bits 3..0.
pub open spec fn header_byte(flag: bool, nli: u8, tid: Option<u8>) -> int {
    (if flag { 128int } else { 0int }) + nli * 16 + tid_field(tid)
}

pub open spec fn byte_flag(b: u8) -> bool {
    b >= 128
}

pub open spec fn byte_nli(b: u8) -> u8 {
    ((b / 16) % 8) as u8
}

pub open spec fn byte_tid(b: u8) -> Option<u8> {
    if b % 16 == 0 {
        None
    } else {
        Some((b % 16) as u8)
    }
}

pub open spec fn decoded(b: u8) -> (bool, u8, Option<u8>) {
    (byte_flag(b), byte_nli(b), byte_tid(b))
}

/// Packs a flag, a network-link identifier and an optional transaction
/// identifier into one header byte.
pub fn encode(flag: bool, nli: u8, tid: Option<u8>) -> (r: Result<u8, FrameError>)
    ensures
        valid_nli(nli) && valid_tid(tid) ==> r == Ok::<u8, FrameError>(
            header_byte(flag, nli, tid) as u8,
        ),
        !(valid_nli(nli) && valid_tid(tid)) ==> r == Err::<u8, FrameError>(
            FrameError::InvalidHeaderField,
        ),
{
    if nli > MAX_NLI {
        return Err(FrameError::InvalidHeaderField);
    }
    let t: u8 = match tid {
        None => 0,
        Some(t) => {
            if t == 0 || t > MAX_TID {
                return Err(FrameError::InvalidHeaderField);
            }
            t
        },
    };
    let marker: u8 = if flag { FLAG_MARKER } else { 0 };
    Ok(marker + nli * 16 + t)
}

/// Unpacks a header byte. Every byte decodes to some header.
pub fn decode(byte: u8) -> (r: (bool, u8, Option<u8>))
    ensures
        r == decoded(byte),
{
    (byte >= 128, (byte / 16) % 8, decode_tid(byte))
}

/// The transaction identifier of a header byte, if it carries one.
pub fn decode_tid(byte: u8) -> (r: Option<u8>)
    ensures
        r == byte_tid(byte),
{
    let t: u8 = byte % 16;
    if t == 0 {
        None
    } else {
        Some(t)
    }
}

/// Encoding a valid header and decoding the byte gives back the same fields.
pub proof fn lemma_header_round_trip(flag: bool, nli: u8, tid: Option<u8>)
    requires
        valid_nli(nli),
        valid_tid(tid),
    ensures
        0 <= header_byte(flag, nli, tid) < 256,
        decoded(header_byte(flag, nli, tid) as u8) == (flag, nli, tid),
{
}

/// A frame header, held as its wire byte. Every byte is a header.
#[derive(Debug, Clone, Copy, PartialEq, Eq, Structural)]
pub struct Header {
    byte: u8,
}

impl View for Header {
    type V = u8;

    closed spec fn view(&self) -> u8 {
        self.byte
    }
}

impl Header {
    /// A header with the marker bit set, for the given NLI and TID.
    pub fn new(nli: u8, tid: Option<u8>) -> (r: Result<Header, FrameError>)
        ensures
            valid_nli(nli) && valid_tid(tid) ==> r is Ok && r->Ok_0@ == header_byte(
                true,
                nli,
                tid,
            ),
            !(valid_nli(nli) && valid_tid(tid)) ==> r == Err::<Header, FrameError>(
                FrameError::InvalidHeaderField,
            ),
    {
        match encode(true, nli, tid) {
            Ok(byte) => Ok(Header { byte }),
            Err(e) => Err(e),
        }
    }

    /// The header that a wire byte holds.
    pub fn from_byte(byte: u8) -> (r: Header)
        ensures
            r@ == byte,
    {
        Header { byte }
    }

    pub fn to_byte(&self) -> (r: u8)
        ensures
            r == self@,
    {
        self.byte
    }

    pub fn flag(&self) -> (r: bool)
        ensures
            r == byte_flag(self@),
    {
        self.byte >= 128
    }

    pub fn nli(&self) -> (r: u8)
        ensures
            r == byte_nli(self@),
    {
        (self.byte / 16) % 8
    }

    pub fn tid(&self) -> (r: Option<u8>)
        ensures
            r == byte_tid(self@),
    {
        decode_tid(self.byte)
    }
}

} // verus!
