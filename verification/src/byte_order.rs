//! Fixed-width integers as they lie in a byte buffer.
//!
//! The bus delivers numbers in the byte order of the machine that runs the
//! client. Every reader here takes the order as an argument, so that what it
//! returns is a function of the bytes alone; [`ByteOrder::native`] finds the
//! order of the running machine.

use vstd::prelude::*;

verus! {

/// The order in which the bytes of a multi-byte integer lie in memory.
#[derive(Clone, Copy, Debug, PartialEq, Eq, Structural)]
pub enum ByteOrder {
    /// Least significant byte first.
    LittleEndian,
    /// Most significant byte first.
    BigEndian,
}

/// Position, within a field of `width` bytes, of the byte that carries the
/// `k`-th least significant eight bits.
pub open spec fn lane(order: ByteOrder, width: int, k: int) -> int {
    match order {
        ByteOrder::LittleEndian => k,
        ByteOrder::BigEndian => width - 1 - k,
    }
}

/// The unsigned 16-bit integer that the two bytes at `at` form.
pub open spec fn u16_at(order: ByteOrder, bytes: Seq<u8>, at: int) -> u16 {
    (bytes[at + lane(order, 2, 0)] + 0x100 * bytes[at + lane(order, 2, 1)]) as u16
}

/// The unsigned 32-bit integer that the four bytes at `at` form.
pub open spec fn u32_at(order: ByteOrder, bytes: Seq<u8>, at: int) -> u32 {
    (bytes[at + lane(order, 4, 0)] + 0x100 * bytes[at + lane(order, 4, 1)] + 0x1_0000 * bytes[at
        + lane(order, 4, 2)] + 0x100_0000 * bytes[at + lane(order, 4, 3)]) as u32
}

/// The unsigned 64-bit integer that the eight bytes at `at` form.
pub open spec fn u64_at(order: ByteOrder, bytes: Seq<u8>, at: int) -> u64 {
    (bytes[at + lane(order, 8, 0)] + 0x100 * bytes[at + lane(order, 8, 1)] + 0x1_0000 * bytes[at
        + lane(order, 8, 2)] + 0x100_0000 * bytes[at + lane(order, 8, 3)] + 0x1_0000_0000 * bytes[at
        + lane(order, 8, 4)] + 0x100_0000_0000 * bytes[at + lane(order, 8, 5)] + 0x1_0000_0000_0000
        * bytes[at + lane(order, 8, 6)] + 0x100_0000_0000_0000 * bytes[at + lane(order, 8, 7)]) as u64
}

/// The two's complement reading of an unsigned 16-bit integer.
pub open spec fn signed16(value: u16) -> i16 {
    if value < 0x8000 {
        value as i16
    } else {
        (value - 0x1_0000) as i16
    }
}

/// The two's complement reading of an unsigned 32-bit integer.
pub open spec fn signed32(value: u32) -> i32 {
    if value < 0x8000_0000 {
        value as i32
    } else {
        (value - 0x1_0000_0000) as i32
    }
}

/// The signed 16-bit integer that the two bytes at `at` form.
pub open spec fn i16_at(order: ByteOrder, bytes: Seq<u8>, at: int) -> i16 {
    signed16(u16_at(order, bytes, at))
}

/// The signed 32-bit integer that the four bytes at `at` form.
pub open spec fn i32_at(order: ByteOrder, bytes: Seq<u8>, at: int) -> i32 {
    signed32(u32_at(order, bytes, at))
}

/// `u16::from_ne_bytes`: the integer that two bytes form in the byte order of
/// the running machine. The contract claims only that this is one of the two
/// orders; which one is not stated.
#[verifier::external_body]
fn native_u16(bytes: [u8; 2]) -> (value: u16)
    ensures
        value == u16_at(ByteOrder::LittleEndian, bytes@, 0) || value == u16_at(
            ByteOrder::BigEndian,
            bytes@,
            0,
        ),
{
    u16::from_ne_bytes(bytes)
}

impl ByteOrder {
    /// The byte that carries the `k`-th least significant eight bits of the
    /// field of `width` bytes that starts at `at`.
    fn lane_byte(self, buf: &[u8], at: usize, width: usize, k: usize) -> (byte: u8)
        requires
            k < width,
            at + width <= buf.len(),
        ensures
            byte == buf@[at + lane(self, width as int, k as int)],
    {
        match self {
            ByteOrder::LittleEndian => buf[at + k],
            ByteOrder::BigEndian => buf[at + (width - 1 - k)],
        }
    }

    /// The order under which the bytes `[1, 0]` were read as `probe`.
    pub fn from_probe(probe: u16) -> (order: ByteOrder)
        ensures
            order == if probe == 1 {
                ByteOrder::LittleEndian
            } else {
                ByteOrder::BigEndian
            },
    {
        if probe == 1 {
            ByteOrder::LittleEndian
        } else {
            ByteOrder::BigEndian
        }
    }

    /// The byte order of the running machine, found by reading the bytes
    /// `[1, 0]` as one integer.
    pub fn native() -> ByteOrder {
        let probe: u16 = native_u16([1, 0]);
        ByteOrder::from_probe(probe)
    }

    /// Reads the unsigned 16-bit integer at `at`.
    pub fn read_u16(self, buf: &[u8], at: usize) -> (value: u16)
        requires
            at + 2 <= buf.len(),
        ensures
            value == u16_at(self, buf@, at as int),
    {
        let b0: u16 = self.lane_byte(buf, at, 2, 0) as u16;
        let b1: u16 = self.lane_byte(buf, at, 2, 1) as u16;
        b0 + 0x100 * b1
    }

    /// Reads the signed 16-bit integer at `at`.
    pub fn read_i16(self, buf: &[u8], at: usize) -> (value: i16)
        requires
            at + 2 <= buf.len(),
        ensures
            value == i16_at(self, buf@, at as int),
    {
        let raw: u16 = self.read_u16(buf, at);
        if raw < 0x8000 {
            raw as i16
        } else {
            (raw as i32 - 0x1_0000) as i16
        }
    }

    /// Reads the unsigned 32-bit integer at `at`.
    pub fn read_u32(self, buf: &[u8], at: usize) -> (value: u32)
        requires
            at + 4 <= buf.len(),
        ensures
            value == u32_at(self, buf@, at as int),
    {
        let b0: u32 = self.lane_byte(buf, at, 4, 0) as u32;
        let b1: u32 = self.lane_byte(buf, at, 4, 1) as u32;
        let b2: u32 = self.lane_byte(buf, at, 4, 2) as u32;
        let b3: u32 = self.lane_byte(buf, at, 4, 3) as u32;
        b0 + 0x100 * b1 + 0x1_0000 * b2 + 0x100_0000 * b3
    }

    /// Reads the signed 32-bit integer at `at`.
    pub fn read_i32(self, buf: &[u8], at: usize) -> (value: i32)
        requires
            at + 4 <= buf.len(),
        ensures
            value == i32_at(self, buf@, at as int),
    {
        let raw: u32 = self.read_u32(buf, at);
        if raw < 0x8000_0000 {
            raw as i32
        } else {
            (raw as i64 - 0x1_0000_0000) as i32
        }
    }

    /// Reads the unsigned 64-bit integer at `at`.
    pub fn read_u64(self, buf: &[u8], at: usize) -> (value: u64)
        requires
            at + 8 <= buf.len(),
        ensures
            value == u64_at(self, buf@, at as int),
    {
        let b0: u64 = self.lane_byte(buf, at, 8, 0) as u64;
        let b1: u64 = self.lane_byte(buf, at, 8, 1) as u64;
        let b2: u64 = self.lane_byte(buf, at, 8, 2) as u64;
        let b3: u64 = self.lane_byte(buf, at, 8, 3) as u64;
        let b4: u64 = self.lane_byte(buf, at, 8, 4) as u64;
        let b5: u64 = self.lane_byte(buf, at, 8, 5) as u64;
        let b6: u64 = self.lane_byte(buf, at, 8, 6) as u64;
        let b7: u64 = self.lane_byte(buf, at, 8, 7) as u64;
        b0 + 0x100 * b1 + 0x1_0000 * b2 + 0x100_0000 * b3 + 0x1_0000_0000 * b4 + 0x100_0000_0000
            * b5 + 0x1_0000_0000_0000 * b6 + 0x100_0000_0000_0000 * b7
    }
}

} // verus!
