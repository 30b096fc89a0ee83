//! The frame codec: validation and decoding of one raw 8-byte frame.

use vstd::prelude::*;
use vstd::string::*;
use crate::text::{dec5, hex2, hex_list, push_dec5, push_hex2, push_hex_list};

verus! {

/// The value that byte 4 of every well-formed frame holds.
pub const TERMINATOR: u8 = 0x0D;

/// The checksum of a frame: the low 8 bits of the sum of bytes 0, 1 and 2.
pub open spec fn checksum_of(b: Seq<u8>) -> int {
    (b[0] as int + b[1] as int + b[2] as int) % 256
}

/// A frame passes validation when byte 4 is the terminator and byte 3 is its
/// checksum; bytes 5 to 7 are padding and are never looked at.
pub open spec fn frame_is_valid(b: Seq<u8>) -> bool {
    &&& b[4] == TERMINATOR
    &&& b[3] as int == checksum_of(b)
}

/// The 16-bit payload of a frame, byte 1 being its high half.
pub open spec fn payload_of(b: Seq<u8>) -> int {
    b[1] as int * 256 + b[2] as int
}

/// The record that a valid frame decodes to.
pub open spec fn record_of(b: Seq<u8>) -> Record {
    Record { op: b[0], low: payload_of(b) as u16 }
}

/// Whether byte 3 of `buf` is the checksum of bytes 0 to 2.
pub fn is_valid_checksum(buf: &[u8; 8]) -> (r: bool)
    ensures
        r == (buf@[3] as int == checksum_of(buf@)),
{
    let sum: u16 = buf[0] as u16 + buf[1] as u16 + buf[2] as u16;
    let low: u16 = sum & 0xFF;
    assert(low == sum % 256) by (bit_vector)
        requires
            low == sum & 0xFF,
    ;
    low as u8 == buf[3]
}

/// A decoded frame: the opcode and the 16-bit payload.
#[derive(Clone, Copy, Debug, PartialEq, Eq, Structural)]
pub struct Record {
    pub op: u8,
    pub low: u16,
}

/// A frame that failed validation, kept whole for diagnostics.
#[derive(Clone, Copy, Debug)]
pub struct FrameError {
    pub bytes: [u8; 8],
}

impl Record {
    pub open spec fn spec_describe(self) -> Seq<char> {
        "Record { op: 0x"@ + hex2(self.op) + ", val: "@ + dec5(self.low) + " }"@
    }

    /// A one-line description: the opcode in hexadecimal and the payload in
    /// decimal, right-aligned in five columns.
    pub fn describe(&self) -> (r: String)
        ensures
            r@ == self.spec_describe(),
    {
        let mut s = String::from_str("Record { op: 0x");
        push_hex2(&mut s, self.op);
        s.append(", val: ");
        push_dec5(&mut s, self.low);
        s.append(" }");
        s
    }
}

impl FrameError {
    pub open spec fn spec_message(self) -> Seq<char> {
        "Invalid bytes were read: ["@ + hex_list(self.bytes@) + "]"@
    }

    /// The diagnostic for the rejected frame, its bytes in hexadecimal.
    pub fn message(&self) -> (r: String)
        ensures
            r@ == self.spec_message(),
    {
        let mut s = String::from_str("Invalid bytes were read: [");
        push_hex_list(&mut s, self.bytes.as_slice());
        s.append("]");
        s
    }
}

/// Validates `buf` and decodes it into a `Record`.
///
/// Fails, carrying the raw bytes, when byte 4 is not the terminator or byte 3
/// is not the checksum of bytes 0 to 2; nothing else is checked.
pub fn parse_data(buf: &[u8; 8]) -> (r: Result<Record, FrameError>)
    ensures
        buf@[4] != TERMINATOR ==> r is Err,
        buf@[4] == TERMINATOR && buf@[3] as int != checksum_of(buf@) ==> r is Err,
        frame_is_valid(buf@) ==> r is Ok,
        r matches Ok(rec) ==> rec.op == buf@[0] && rec.low as int == payload_of(buf@),
        r matches Ok(rec) ==> rec == record_of(buf@),
        r matches Err(e) ==> e.bytes == *buf,
{
    if buf[4] != TERMINATOR || !is_valid_checksum(buf) {
        return Err(FrameError { bytes: *buf });
    }
    let op = buf[0];
    let high: u16 = buf[1] as u16;
    let low: u16 = high << 8 | buf[2] as u16;
    let lo = buf[2] as u16;
    assert(high << 8 | lo == high * 256 + lo) by (bit_vector)
        requires
            high < 256,
            lo < 256,
    ;
    Ok(Record { op, low })
}

} // verus!
