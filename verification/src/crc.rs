//! The two checksums of the Tello binary protocol.
//!
//! Both run least-significant-bit first: CRC-8 with reflected polynomial
//! `0x8c` and seed `0x77` over the three header bytes, and CRC-16 with
//! reflected polynomial `0x8408` and seed `0x3692` over the whole frame up to
//! the checksum itself.

use vstd::prelude::*;

verus! {

/// One shift-and-conditionally-xor round of the CRC-8 recurrence.
pub open spec fn crc8_round(c: u8) -> u8 {
    if c & 1 == 1 {
        (c >> 1) ^ 0x8c
    } else {
        c >> 1
    }
}

/// `n` rounds of the CRC-8 recurrence applied to `c`.
pub open spec fn crc8_rounds(c: u8, n: nat) -> u8
    decreases n,
{
    if n == 0 {
        c
    } else {
        crc8_round(crc8_rounds(c, (n - 1) as nat))
    }
}

/// Folding one byte into a CRC-8 accumulator.
pub open spec fn crc8_step(c: u8, b: u8) -> u8 {
    crc8_rounds(c ^ b, 8)
}

/// The CRC-8 of a byte sequence, seed `0x77`.
pub open spec fn spec_crc8(s: Seq<u8>) -> u8
    decreases s.len(),
{
    if s.len() == 0 {
        0x77
    } else {
        crc8_step(spec_crc8(s.drop_last()), s.last())
    }
}

/// One shift-and-conditionally-xor round of the CRC-16 recurrence.
pub open spec fn crc16_round(c: u16) -> u16 {
    if c & 1 == 1 {
        (c >> 1) ^ 0x8408
    } else {
        c >> 1
    }
}

/// `n` rounds of the CRC-16 recurrence applied to `c`.
pub open spec fn crc16_rounds(c: u16, n: nat) -> u16
    decreases n,
{
    if n == 0 {
        c
    } else {
        crc16_round(crc16_rounds(c, (n - 1) as nat))
    }
}

/// Folding one byte into a CRC-16 accumulator.
pub open spec fn crc16_step(c: u16, b: u8) -> u16 {
    crc16_rounds(c ^ (b as u16), 8)
}

/// The CRC-16 of a byte sequence, seed `0x3692`.
pub open spec fn spec_crc16(s: Seq<u8>) -> u16
    decreases s.len(),
{
    if s.len() == 0 {
        0x3692
    } else {
        crc16_step(spec_crc16(s.drop_last()), s.last())
    }
}

pub fn calculate_crc8(buf: &[u8]) -> (r: u8)
    ensures
        r == spec_crc8(buf@),
{
    let mut crc: u8 = 0x77;
    let mut i: usize = 0;
    while i < buf.len()
        invariant
            i <= buf@.len(),
            crc == spec_crc8(buf@.take(i as int)),
        decreases buf@.len() - i,
    {
        let mut c: u8 = crc ^ buf[i];
        let ghost c0 = c;
        let mut j: usize = 0;
        while j < 8
            invariant
                j <= 8,
                c == crc8_rounds(c0, j as nat),
            decreases 8 - j,
        {
            if c & 1 == 1 {
                c = (c >> 1) ^ 0x8c;
            } else {
                c = c >> 1;
            }
            j = j + 1;
        }
        proof {
            assert(buf@.take(i + 1).drop_last() =~= buf@.take(i as int));
            assert(buf@.take(i + 1).last() == buf@[i as int]);
        }
        crc = c;
        i = i + 1;
    }
    proof {
        assert(buf@.take(buf@.len() as int) =~= buf@);
    }
    crc
}

pub fn calculate_crc16(buf: &[u8]) -> (r: u16)
    ensures
        r == spec_crc16(buf@),
{
    let mut crc: u16 = 0x3692;
    let mut i: usize = 0;
    while i < buf.len()
        invariant
            i <= buf@.len(),
            crc == spec_crc16(buf@.take(i as int)),
        decreases buf@.len() - i,
    {
        let mut c: u16 = crc ^ (buf[i] as u16);
        let ghost c0 = c;
        let mut j: usize = 0;
        while j < 8
            invariant
                j <= 8,
                c == crc16_rounds(c0, j as nat),
            decreases 8 - j,
        {
            if c & 1 == 1 {
                c = (c >> 1) ^ 0x8408;
            } else {
                c = c >> 1;
            }
            j = j + 1;
        }
        proof {
            assert(buf@.take(i + 1).drop_last() =~= buf@.take(i as int));
            assert(buf@.take(i + 1).last() == buf@[i as int]);
        }
        crc = c;
        i = i + 1;
    }
    proof {
        assert(buf@.take(buf@.len() as int) =~= buf@);
    }
    crc
}

} // verus!
