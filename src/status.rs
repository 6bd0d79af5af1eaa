use vstd::prelude::*;

verus! {

/// The 6502 processor status register `P`, one field per bit of `NV1B DIZC`.
#[derive(Clone, Copy, Debug, PartialEq, Eq, Structural)]
pub struct Status {
    pub negative: bool,
    pub overflow: bool,
    pub reserved: bool,
    pub break_mode: bool,
    pub decimal: bool,
    pub interrupt: bool,
    pub zero: bool,
    pub carry: bool,
}

/// `mask` when the flag is set, else 0.
pub open spec fn flag_bits(b: bool, mask: u8) -> u8 {
    if b {
        mask
    } else {
        0u8
    }
}

/// The packed status byte. The reserved bit (bit 5) always reads as 1.
pub open spec fn pack(s: Status) -> u8 {
    flag_bits(s.negative, 0x80) | flag_bits(s.overflow, 0x40) | 0x20u8 | flag_bits(s.break_mode, 0x10)
        | flag_bits(s.decimal, 0x08) | flag_bits(s.interrupt, 0x04) | flag_bits(s.zero, 0x02)
        | flag_bits(s.carry, 0x01)
}

/// The flags held in a status byte. The reserved flag is always set.
pub open spec fn unpack(b: u8) -> Status {
    Status {
        negative: b & 0x80 != 0,
        overflow: b & 0x40 != 0,
        reserved: true,
        break_mode: b & 0x10 != 0,
        decimal: b & 0x08 != 0,
        interrupt: b & 0x04 != 0,
        zero: b & 0x02 != 0,
        carry: b & 0x01 != 0,
    }
}

fn flag_byte(b: bool, mask: u8) -> (r: u8)
    ensures
        r == flag_bits(b, mask),
{
    if b {
        mask
    } else {
        0
    }
}

impl From<Status> for u8 {
    fn from(s: Status) -> (r: u8) {
        flag_byte(s.negative, 0x80) | flag_byte(s.overflow, 0x40) | 0x20u8 | flag_byte(
            s.break_mode,
            0x10,
        ) | flag_byte(s.decimal, 0x08) | flag_byte(s.interrupt, 0x04) | flag_byte(s.zero, 0x02)
            | flag_byte(s.carry, 0x01)
    }
}

impl vstd::std_specs::convert::FromSpecImpl<Status> for u8 {
    open spec fn obeys_from_spec() -> bool {
        true
    }

    open spec fn from_spec(s: Status) -> u8 {
        pack(s)
    }
}

impl From<u8> for Status {
    fn from(b: u8) -> (r: Status) {
        Status {
            negative: b & 0x80 != 0,
            overflow: b & 0x40 != 0,
            reserved: true,
            break_mode: b & 0x10 != 0,
            decimal: b & 0x08 != 0,
            interrupt: b & 0x04 != 0,
            zero: b & 0x02 != 0,
            carry: b & 0x01 != 0,
        }
    }
}

impl vstd::std_specs::convert::FromSpecImpl<u8> for Status {
    open spec fn obeys_from_spec() -> bool {
        true
    }

    open spec fn from_spec(b: u8) -> Status {
        unpack(b)
    }
}

/// Packing the flags read from any byte gives the byte back with the reserved bit set.
pub proof fn lemma_status_round_trip(b: u8)
    ensures
        pack(unpack(b)) == b | 0x20,
{
    assert(flag_bits(b & 0x80 != 0, 0x80) | flag_bits(b & 0x40 != 0, 0x40) | 0x20u8 | flag_bits(
        b & 0x10 != 0,
        0x10,
    ) | flag_bits(b & 0x08 != 0, 0x08) | flag_bits(b & 0x04 != 0, 0x04) | flag_bits(
        b & 0x02 != 0,
        0x02,
    ) | flag_bits(b & 0x01 != 0, 0x01) == b | 0x20) by {
        let n: u8 = if b & 0x80 != 0 { 0x80u8 } else { 0u8 };
        let v: u8 = if b & 0x40 != 0 { 0x40u8 } else { 0u8 };
        let k: u8 = if b & 0x10 != 0 { 0x10u8 } else { 0u8 };
        let d: u8 = if b & 0x08 != 0 { 0x08u8 } else { 0u8 };
        let i: u8 = if b & 0x04 != 0 { 0x04u8 } else { 0u8 };
        let z: u8 = if b & 0x02 != 0 { 0x02u8 } else { 0u8 };
        let c: u8 = if b & 0x01 != 0 { 0x01u8 } else { 0u8 };
        assert(n | v | 0x20u8 | k | d | i | z | c == b | 0x20) by (bit_vector)
            requires
                n == (if b & 0x80 != 0 { 0x80u8 } else { 0u8 }),
                v == (if b & 0x40 != 0 { 0x40u8 } else { 0u8 }),
                k == (if b & 0x10 != 0 { 0x10u8 } else { 0u8 }),
                d == (if b & 0x08 != 0 { 0x08u8 } else { 0u8 }),
                i == (if b & 0x04 != 0 { 0x04u8 } else { 0u8 }),
                z == (if b & 0x02 != 0 { 0x02u8 } else { 0u8 }),
                c == (if b & 0x01 != 0 { 0x01u8 } else { 0u8 }),
        ;
    }
}

/// Unpacking a packed status gives every flag back, with the reserved flag set.
pub proof fn lemma_unpack_pack(s: Status)
    ensures
        unpack(pack(s)) == (Status { reserved: true, ..s }),
{
    let n = flag_bits(s.negative, 0x80);
    let v = flag_bits(s.overflow, 0x40);
    let k = flag_bits(s.break_mode, 0x10);
    let d = flag_bits(s.decimal, 0x08);
    let i = flag_bits(s.interrupt, 0x04);
    let z = flag_bits(s.zero, 0x02);
    let c = flag_bits(s.carry, 0x01);
    assert((n == 0x80u8 || n == 0u8) && (v == 0x40u8 || v == 0u8) && (k == 0x10u8 || k == 0u8)
        && (d == 0x08u8 || d == 0u8) && (i == 0x04u8 || i == 0u8) && (z == 0x02u8 || z == 0u8)
        && (c == 0x01u8 || c == 0u8));
    let b = n | v | 0x20u8 | k | d | i | z | c;
    assert(((b & 0x80 != 0) == (n == 0x80u8)) && ((b & 0x40 != 0) == (v == 0x40u8)) && ((b & 0x10
        != 0) == (k == 0x10u8)) && ((b & 0x08 != 0) == (d == 0x08u8)) && ((b & 0x04 != 0) == (i
        == 0x04u8)) && ((b & 0x02 != 0) == (z == 0x02u8)) && ((b & 0x01 != 0) == (c == 0x01u8)))
        by (bit_vector)
        requires
            (n == 0x80u8 || n == 0u8) && (v == 0x40u8 || v == 0u8) && (k == 0x10u8 || k == 0u8)
                && (d == 0x08u8 || d == 0u8) && (i == 0x04u8 || i == 0u8) && (z == 0x02u8 || z
                == 0u8) && (c == 0x01u8 || c == 0u8),
            b == n | v | 0x20u8 | k | d | i | z | c,
    ;
}

} // verus!
