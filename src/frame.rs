//! Decoding of the sensor's fixed 32-byte frames.
use vstd::prelude::*;
use byteorder::{BigEndian, ByteOrder};

verus! {

/// Length of one frame of the sensor's serial protocol.
pub const FRAME_LEN: usize = 32;

/// First byte of a frame's start marker.
pub const START_BYTE_1: u8 = 0x42;

/// Second byte of a frame's start marker.
pub const START_BYTE_2: u8 = 0x4D;

/// The big-endian 16-bit value at positions `i` and `i + 1` of `b`.
pub open spec fn be_u16_at(b: Seq<u8>, i: int) -> int {
    b[i] as int * 256 + b[i + 1] as int
}

/// Sum of the first `n` bytes of `b`.
pub open spec fn byte_sum(b: Seq<u8>, n: nat) -> int
    decreases n,
{
    if n == 0 {
        0
    } else {
        byte_sum(b, (n - 1) as nat) + b[n - 1] as int
    }
}

/// A frame is valid when its trailing big-endian checksum equals the sum of
/// its first 30 bytes modulo 65536.
pub open spec fn frame_valid(b: Seq<u8>) -> bool {
    be_u16_at(b, 30) == byte_sum(b, 30) % 65536
}

/// One decoded frame: concentrations in µg/m³ for particle size classes
/// 1.0, 2.5 and 10 µm, under standard conditions and under atmospheric
/// conditions.
#[derive(Debug, Default, Clone, Copy, PartialEq, Eq, Structural)]
pub struct PmsMeasurement {
    pub pm1_0_std: u16,
    pub pm2_5_std: u16,
    pub pm10_std: u16,
    pub pm1_0_atm: u16,
    pub pm2_5_atm: u16,
    pub pm10_atm: u16,
}

/// The reading that a valid frame `b` carries.
pub open spec fn decoded(b: Seq<u8>) -> PmsMeasurement {
    PmsMeasurement {
        pm1_0_std: be_u16_at(b, 4) as u16,
        pm2_5_std: be_u16_at(b, 6) as u16,
        pm10_std: be_u16_at(b, 8) as u16,
        pm1_0_atm: be_u16_at(b, 10) as u16,
        pm2_5_atm: be_u16_at(b, 12) as u16,
        pm10_atm: be_u16_at(b, 14) as u16,
    }
}

/// Relies on byteorder's `BigEndian::read_u16`: the first two bytes of `buf`,
/// most significant first. It panics on fewer than two bytes.
#[verifier::external_body]
fn read_be_u16(buf: &[u8]) -> (r: u16)
    requires
        buf@.len() >= 2,
    ensures
        r as int == be_u16_at(buf@, 0),
{
    BigEndian::read_u16(buf)
}

/// Reads the big-endian value at `at` of a frame.
fn frame_u16(buffer: &[u8; 32], at: usize) -> (r: u16)
    requires
        at + 2 <= 32,
    ensures
        r as int == be_u16_at(buffer@, at as int),
{
    let part = &buffer.as_slice()[at..at + 2];
    let r = read_be_u16(part);
    assert(part@[0] == buffer@[at as int] && part@[1] == buffer@[at + 1]);
    r
}

/// Validates a frame by its checksum and decodes its six concentrations.
pub fn parse_sensor(buffer: &[u8; 32]) -> (r: Option<PmsMeasurement>)
    ensures
        r.is_some() <==> frame_valid(buffer@),
        r.is_some() ==> r.unwrap() == decoded(buffer@),
{
    let checksum_received = frame_u16(buffer, 30);
    let mut checksum_calculated: u16 = 0;
    let mut i: usize = 0;
    while i < 30
        invariant
            i <= 30,
            buffer@.len() == 32,
            checksum_calculated as int == byte_sum(buffer@, i as nat),
            byte_sum(buffer@, i as nat) <= 255 * i,
        decreases 30 - i,
    {
        checksum_calculated = checksum_calculated + buffer[i] as u16;
        i = i + 1;
    }
    if checksum_received != checksum_calculated {
        return None;
    }
    let pm1_0_std = frame_u16(buffer, 4);
    let pm2_5_std = frame_u16(buffer, 6);
    let pm10_std = frame_u16(buffer, 8);
    let pm1_0_atm = frame_u16(buffer, 10);
    let pm2_5_atm = frame_u16(buffer, 12);
    let pm10_atm = frame_u16(buffer, 14);
    Some(PmsMeasurement { pm1_0_std, pm2_5_std, pm10_std, pm1_0_atm, pm2_5_atm, pm10_atm })
}

} // verus!
