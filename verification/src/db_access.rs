//! The records of the bus, field by field.
//!
//! Each struct holds what the fixed part of one record layout carries: the
//! header fields, and the first value. Text fields are kept as the raw bytes
//! of their slot, floating-point fields as their bit patterns. A record is
//! taken from a buffer by the `decode` of its layout, see [`crate::dbr::Dbr`].

use vstd::prelude::*;
use crate::byte_order::{ByteOrder, i16_at, i32_at, u32_at, u64_at};

pub mod dbr_type_code;

verus! {

/// Width of a string value's slot.
pub const MAX_STRING_SIZE: usize = 40;

/// Width of the slot that names a value's engineering units.
pub const MAX_UNITS_SIZE: usize = 8;

/// Width of the slot of one enumeration label.
pub const MAX_ENUM_STRING_SIZE: usize = 26;

/// Number of label slots in an enumeration's control record.
pub const MAX_ENUM_STATES: usize = 16;

/// A time as the bus counts it: seconds and nanoseconds since its own epoch.
#[derive(Clone, Copy, Debug, PartialEq, Eq, Structural)]
pub struct EpicsTimeStamp {
    pub secs: u32,
    pub nsec: u32,
}

/// Alarm status and severity of a value.
#[derive(Clone, Copy, Debug, PartialEq, Eq, Structural)]
pub struct StatusSeverity {
    pub status: i16,
    pub severity: i16,
}

/// The eight limits that a control record carries, in wire order.
#[derive(Debug, PartialEq)]
pub struct CtrlLimits<T: Copy + Send> {
    pub upper_disp_limit: T,
    pub lower_disp_limit: T,
    pub upper_alarm_limit: T,
    pub upper_warning_limit: T,
    pub lower_warning_limit: T,
    pub lower_alarm_limit: T,
    pub upper_ctrl_limit: T,
    pub lower_ctrl_limit: T,
}

impl<T: Copy + Send> Clone for CtrlLimits<T> {
    fn clone(&self) -> (limits: Self)
        ensures
            limits == *self,
    {
        *self
    }
}

impl<T: Copy + Send> Copy for CtrlLimits<T> {

}

/// The bit pattern of a 32-bit floating-point number.
#[derive(Clone, Copy, Debug, PartialEq, Eq, Structural)]
pub struct FloatBits(pub u32);

/// The bit pattern of a 64-bit floating-point number.
#[derive(Clone, Copy, Debug, PartialEq, Eq, Structural)]
pub struct DoubleBits(pub u64);

/// The raw bytes of a string value's slot.
#[derive(Clone, Copy, Debug, PartialEq)]
pub struct EpicsString(pub [u8; MAX_STRING_SIZE]);

impl StatusSeverity {
    /// The status and severity that the four bytes at `at` hold.
    pub open spec fn at(order: ByteOrder, bytes: Seq<u8>, at: int) -> StatusSeverity {
        StatusSeverity { status: i16_at(order, bytes, at), severity: i16_at(order, bytes, at + 2) }
    }

    /// Reads status and severity from the four bytes at `at`.
    pub(crate) fn read(order: ByteOrder, buf: &[u8], at: usize) -> (header: StatusSeverity)
        requires
            at + 4 <= buf.len(),
        ensures
            header == StatusSeverity::at(order, buf@, at as int),
    {
        StatusSeverity { status: order.read_i16(buf, at), severity: order.read_i16(buf, at + 2) }
    }
}

impl EpicsTimeStamp {
    /// The raw stamp that the eight bytes at `at` hold.
    pub open spec fn at(order: ByteOrder, bytes: Seq<u8>, at: int) -> EpicsTimeStamp {
        EpicsTimeStamp { secs: u32_at(order, bytes, at), nsec: u32_at(order, bytes, at + 4) }
    }

    /// Reads a raw stamp from the eight bytes at `at`.
    pub(crate) fn read(order: ByteOrder, buf: &[u8], at: usize) -> (stamp: EpicsTimeStamp)
        requires
            at + 8 <= buf.len(),
        ensures
            stamp == EpicsTimeStamp::at(order, buf@, at as int),
    {
        EpicsTimeStamp { secs: order.read_u32(buf, at), nsec: order.read_u32(buf, at + 4) }
    }
}

impl EpicsString {
    /// Copies the slot of a string value that starts at `at`.
    pub(crate) fn read(buf: &[u8], at: usize) -> (slot: EpicsString)
        requires
            at + 40 <= buf.len(),
        ensures
            slot.0@ == buf@.subrange(at as int, at + 40),
    {
        let mut bytes: [u8; 40] = [0u8; 40];
        let mut i: usize = 0;
        while i < 40
            invariant
                i <= 40,
                at + 40 <= buf.len(),
                forall|k: int| 0 <= k < i ==> bytes@[k] == buf@[at + k],
            decreases 40 - i,
        {
            bytes[i] = buf[at + i];
            i += 1;
        }
        EpicsString(bytes)
    }
}

/// Copies the slot of a units name that starts at `at`.
pub(crate) fn read_units(buf: &[u8], at: usize) -> (units: [u8; 8])
    requires
        at + 8 <= buf.len(),
    ensures
        units@ == buf@.subrange(at as int, at + 8),
{
    let mut bytes: [u8; 8] = [0u8; 8];
    let mut i: usize = 0;
    while i < 8
        invariant
            i <= 8,
            at + 8 <= buf.len(),
            forall|k: int| 0 <= k < i ==> bytes@[k] == buf@[at + k],
        decreases 8 - i,
    {
        bytes[i] = buf[at + i];
        i += 1;
    }
    bytes
}

/// Copies the slot of one enumeration label that starts at `at`.
pub(crate) fn read_label(buf: &[u8], at: usize) -> (label: [u8; 26])
    requires
        at + 26 <= buf.len(),
    ensures
        label@ == buf@.subrange(at as int, at + 26),
{
    let mut bytes: [u8; 26] = [0u8; 26];
    let mut i: usize = 0;
    while i < 26
        invariant
            i <= 26,
            at + 26 <= buf.len(),
            forall|k: int| 0 <= k < i ==> bytes@[k] == buf@[at + k],
        decreases 26 - i,
    {
        bytes[i] = buf[at + i];
        i += 1;
    }
    bytes
}

/// Whether `labels` holds the sixteen label slots that follow one another from
/// `at` on.
pub open spec fn labels_at(labels: [[u8; 26]; 16], bytes: Seq<u8>, at: int) -> bool {
    forall|i: int|
        0 <= i < 16 ==> (#[trigger] labels@[i])@ == bytes.subrange(at + 26 * i, at + 26 * i + 26)
}

/// Copies the sixteen label slots that follow one another from `at` on.
pub(crate) fn read_labels(buf: &[u8], at: usize) -> (labels: [[u8; 26]; 16])
    requires
        at + 416 <= buf.len(),
    ensures
        labels_at(labels, buf@, at as int),
{
    let mut labels: [[u8; 26]; 16] = [[0u8; 26]; 16];
    let mut i: usize = 0;
    while i < 16
        invariant
            i <= 16,
            at + 416 <= buf.len(),
            forall|k: int|
                0 <= k < i ==> (#[trigger] labels@[k])@ == buf@.subrange(
                    at + 26 * k,
                    at + 26 * k + 26,
                ),
        decreases 16 - i,
    {
        labels[i] = read_label(buf, at + 26 * i);
        i += 1;
    }
    labels
}

impl CtrlLimits<u8> {
    /// The eight one-byte limits that the 8 bytes at `at` hold.
    pub open spec fn at(order: ByteOrder, bytes: Seq<u8>, at: int) -> CtrlLimits<u8> {
        CtrlLimits {
            upper_disp_limit: bytes[at],
            lower_disp_limit: bytes[at + 1],
            upper_alarm_limit: bytes[at + 2],
            upper_warning_limit: bytes[at + 3],
            lower_warning_limit: bytes[at + 4],
            lower_alarm_limit: bytes[at + 5],
            upper_ctrl_limit: bytes[at + 6],
            lower_ctrl_limit: bytes[at + 7],
        }
    }

    /// Reads eight one-byte limits from the 8 bytes at `at`.
    pub(crate) fn read(order: ByteOrder, buf: &[u8], at: usize) -> (limits: CtrlLimits<u8>)
        requires
            at + 8 <= buf.len(),
        ensures
            limits == CtrlLimits::<u8>::at(order, buf@, at as int),
    {
        CtrlLimits {
            upper_disp_limit: buf[at],
            lower_disp_limit: buf[at + 1],
            upper_alarm_limit: buf[at + 2],
            upper_warning_limit: buf[at + 3],
            lower_warning_limit: buf[at + 4],
            lower_alarm_limit: buf[at + 5],
            upper_ctrl_limit: buf[at + 6],
            lower_ctrl_limit: buf[at + 7],
        }
    }
}

impl CtrlLimits<i16> {
    /// The eight 16-bit limits that the 16 bytes at `at` hold.
    pub open spec fn at(order: ByteOrder, bytes: Seq<u8>, at: int) -> CtrlLimits<i16> {
        CtrlLimits {
            upper_disp_limit: i16_at(order, bytes, at),
            lower_disp_limit: i16_at(order, bytes, at + 2),
            upper_alarm_limit: i16_at(order, bytes, at + 4),
            upper_warning_limit: i16_at(order, bytes, at + 6),
            lower_warning_limit: i16_at(order, bytes, at + 8),
            lower_alarm_limit: i16_at(order, bytes, at + 10),
            upper_ctrl_limit: i16_at(order, bytes, at + 12),
            lower_ctrl_limit: i16_at(order, bytes, at + 14),
        }
    }

    /// Reads eight 16-bit limits from the 16 bytes at `at`.
    pub(crate) fn read(order: ByteOrder, buf: &[u8], at: usize) -> (limits: CtrlLimits<i16>)
        requires
            at + 16 <= buf.len(),
        ensures
            limits == CtrlLimits::<i16>::at(order, buf@, at as int),
    {
        CtrlLimits {
            upper_disp_limit: order.read_i16(buf, at),
            lower_disp_limit: order.read_i16(buf, at + 2),
            upper_alarm_limit: order.read_i16(buf, at + 4),
            upper_warning_limit: order.read_i16(buf, at + 6),
            lower_warning_limit: order.read_i16(buf, at + 8),
            lower_alarm_limit: order.read_i16(buf, at + 10),
            upper_ctrl_limit: order.read_i16(buf, at + 12),
            lower_ctrl_limit: order.read_i16(buf, at + 14),
        }
    }
}

impl CtrlLimits<i32> {
    /// The eight 32-bit limits that the 32 bytes at `at` hold.
    pub open spec fn at(order: ByteOrder, bytes: Seq<u8>, at: int) -> CtrlLimits<i32> {
        CtrlLimits {
            upper_disp_limit: i32_at(order, bytes, at),
            lower_disp_limit: i32_at(order, bytes, at + 4),
            upper_alarm_limit: i32_at(order, bytes, at + 8),
            upper_warning_limit: i32_at(order, bytes, at + 12),
            lower_warning_limit: i32_at(order, bytes, at + 16),
            lower_alarm_limit: i32_at(order, bytes, at + 20),
            upper_ctrl_limit: i32_at(order, bytes, at + 24),
            lower_ctrl_limit: i32_at(order, bytes, at + 28),
        }
    }

    /// Reads eight 32-bit limits from the 32 bytes at `at`.
    pub(crate) fn read(order: ByteOrder, buf: &[u8], at: usize) -> (limits: CtrlLimits<i32>)
        requires
            at + 32 <= buf.len(),
        ensures
            limits == CtrlLimits::<i32>::at(order, buf@, at as int),
    {
        CtrlLimits {
            upper_disp_limit: order.read_i32(buf, at),
            lower_disp_limit: order.read_i32(buf, at + 4),
            upper_alarm_limit: order.read_i32(buf, at + 8),
            upper_warning_limit: order.read_i32(buf, at + 12),
            lower_warning_limit: order.read_i32(buf, at + 16),
            lower_alarm_limit: order.read_i32(buf, at + 20),
            upper_ctrl_limit: order.read_i32(buf, at + 24),
            lower_ctrl_limit: order.read_i32(buf, at + 28),
        }
    }
}

impl CtrlLimits<FloatBits> {
    /// The eight single-precision limits that the 32 bytes at `at` hold.
    pub open spec fn at(order: ByteOrder, bytes: Seq<u8>, at: int) -> CtrlLimits<FloatBits> {
        CtrlLimits {
            upper_disp_limit: FloatBits(u32_at(order, bytes, at)),
            lower_disp_limit: FloatBits(u32_at(order, bytes, at + 4)),
            upper_alarm_limit: FloatBits(u32_at(order, bytes, at + 8)),
            upper_warning_limit: FloatBits(u32_at(order, bytes, at + 12)),
            lower_warning_limit: FloatBits(u32_at(order, bytes, at + 16)),
            lower_alarm_limit: FloatBits(u32_at(order, bytes, at + 20)),
            upper_ctrl_limit: FloatBits(u32_at(order, bytes, at + 24)),
            lower_ctrl_limit: FloatBits(u32_at(order, bytes, at + 28)),
        }
    }

    /// Reads eight single-precision limits from the 32 bytes at `at`.
    pub(crate) fn read(order: ByteOrder, buf: &[u8], at: usize) -> (limits: CtrlLimits<FloatBits>)
        requires
            at + 32 <= buf.len(),
        ensures
            limits == CtrlLimits::<FloatBits>::at(order, buf@, at as int),
    {
        CtrlLimits {
            upper_disp_limit: FloatBits(order.read_u32(buf, at)),
            lower_disp_limit: FloatBits(order.read_u32(buf, at + 4)),
            upper_alarm_limit: FloatBits(order.read_u32(buf, at + 8)),
            upper_warning_limit: FloatBits(order.read_u32(buf, at + 12)),
            lower_warning_limit: FloatBits(order.read_u32(buf, at + 16)),
            lower_alarm_limit: FloatBits(order.read_u32(buf, at + 20)),
            upper_ctrl_limit: FloatBits(order.read_u32(buf, at + 24)),
            lower_ctrl_limit: FloatBits(order.read_u32(buf, at + 28)),
        }
    }
}

impl CtrlLimits<DoubleBits> {
    /// The eight double-precision limits that the 64 bytes at `at` hold.
    pub open spec fn at(order: ByteOrder, bytes: Seq<u8>, at: int) -> CtrlLimits<DoubleBits> {
        CtrlLimits {
            upper_disp_limit: DoubleBits(u64_at(order, bytes, at)),
            lower_disp_limit: DoubleBits(u64_at(order, bytes, at + 8)),
            upper_alarm_limit: DoubleBits(u64_at(order, bytes, at + 16)),
            upper_warning_limit: DoubleBits(u64_at(order, bytes, at + 24)),
            lower_warning_limit: DoubleBits(u64_at(order, bytes, at + 32)),
            lower_alarm_limit: DoubleBits(u64_at(order, bytes, at + 40)),
            upper_ctrl_limit: DoubleBits(u64_at(order, bytes, at + 48)),
            lower_ctrl_limit: DoubleBits(u64_at(order, bytes, at + 56)),
        }
    }

    /// Reads eight double-precision limits from the 64 bytes at `at`.
    pub(crate) fn read(order: ByteOrder, buf: &[u8], at: usize) -> (limits: CtrlLimits<DoubleBits>)
        requires
            at + 64 <= buf.len(),
        ensures
            limits == CtrlLimits::<DoubleBits>::at(order, buf@, at as int),
    {
        CtrlLimits {
            upper_disp_limit: DoubleBits(order.read_u64(buf, at)),
            lower_disp_limit: DoubleBits(order.read_u64(buf, at + 8)),
            upper_alarm_limit: DoubleBits(order.read_u64(buf, at + 16)),
            upper_warning_limit: DoubleBits(order.read_u64(buf, at + 24)),
            lower_warning_limit: DoubleBits(order.read_u64(buf, at + 32)),
            lower_alarm_limit: DoubleBits(order.read_u64(buf, at + 40)),
            upper_ctrl_limit: DoubleBits(order.read_u64(buf, at + 48)),
            lower_ctrl_limit: DoubleBits(order.read_u64(buf, at + 56)),
        }
    }
}

/// The bare record of a string: the value and nothing else.
#[allow(non_camel_case_types)]
pub struct dbr_string {
    pub value: EpicsString,
}

/// The timed record of a string: status, severity and time stamp, then the value.
#[allow(non_camel_case_types)]
pub struct dbr_time_string {
    pub status_severity: StatusSeverity,
    pub raw_time: EpicsTimeStamp,
    pub value: EpicsString,
}

/// The bare record of a enumeration: the value and nothing else.
#[allow(non_camel_case_types)]
pub struct dbr_enum {
    pub value: u16,
}

/// The timed record of a enumeration: status, severity and time stamp, then padding up to byte 14, then the value.
#[allow(non_camel_case_types)]
pub struct dbr_time_enum {
    pub status_severity: StatusSeverity,
    pub raw_time: EpicsTimeStamp,
    pub value: u16,
}

/// The control record of an enumeration: status and severity, the number of labels, sixteen label slots, then the value.
#[allow(non_camel_case_types)]
pub struct dbr_ctrl_enum {
    pub status_severity: StatusSeverity,
    pub enum_count: i16,
    pub strings: [[u8; MAX_ENUM_STRING_SIZE]; MAX_ENUM_STATES],
    pub value: u16,
}

/// The bare record of a one-byte integer: the value and nothing else.
#[allow(non_camel_case_types)]
pub struct dbr_char {
    pub value: u8,
}

/// The timed record of a one-byte integer: status, severity and time stamp, then padding up to byte 15, then the value.
#[allow(non_camel_case_types)]
pub struct dbr_time_char {
    pub status_severity: StatusSeverity,
    pub raw_time: EpicsTimeStamp,
    pub value: u8,
}

/// The control record of a one-byte integer: status and severity, units, eight limits, one byte of padding, then the value.
#[allow(non_camel_case_types)]
pub struct dbr_ctrl_char {
    pub status_severity: StatusSeverity,
    pub units: [u8; MAX_UNITS_SIZE],
    pub ctrl_limits: CtrlLimits<u8>,
    pub value: u8,
}

/// The bare record of a 16-bit integer: the value and nothing else.
#[allow(non_camel_case_types)]
pub struct dbr_short {
    pub value: i16,
}

/// The timed record of a 16-bit integer: status, severity and time stamp, then padding up to byte 14, then the value.
#[allow(non_camel_case_types)]
pub struct dbr_time_short {
    pub status_severity: StatusSeverity,
    pub raw_time: EpicsTimeStamp,
    pub value: i16,
}

/// The control record of a 16-bit integer: status and severity, units, eight limits, then the value.
#[allow(non_camel_case_types)]
pub struct dbr_ctrl_short {
    pub status_severity: StatusSeverity,
    pub units: [u8; MAX_UNITS_SIZE],
    pub ctrl_limits: CtrlLimits<i16>,
    pub value: i16,
}

/// The bare record of a 32-bit integer: the value and nothing else.
#[allow(non_camel_case_types)]
pub struct dbr_long {
    pub value: i32,
}

/// The timed record of a 32-bit integer: status, severity and time stamp, then the value.
#[allow(non_camel_case_types)]
pub struct dbr_time_long {
    pub status_severity: StatusSeverity,
    pub raw_time: EpicsTimeStamp,
    pub value: i32,
}

/// The control record of a 32-bit integer: status and severity, units, eight limits, then the value.
#[allow(non_camel_case_types)]
pub struct dbr_ctrl_long {
    pub status_severity: StatusSeverity,
    pub units: [u8; MAX_UNITS_SIZE],
    pub ctrl_limits: CtrlLimits<i32>,
    pub value: i32,
}

/// The bare record of a single-precision number: the value and nothing else.
#[allow(non_camel_case_types)]
pub struct dbr_float {
    pub value: FloatBits,
}

/// The timed record of a single-precision number: status, severity and time stamp, then the value.
#[allow(non_camel_case_types)]
pub struct dbr_time_float {
    pub status_severity: StatusSeverity,
    pub raw_time: EpicsTimeStamp,
    pub value: FloatBits,
}

/// The control record of a single-precision number: status and severity, precision, two bytes of padding, units, eight limits, then the value.
#[allow(non_camel_case_types)]
pub struct dbr_ctrl_float {
    pub status_severity: StatusSeverity,
    pub precision: i16,
    pub units: [u8; MAX_UNITS_SIZE],
    pub ctrl_limits: CtrlLimits<FloatBits>,
    pub value: FloatBits,
}

/// The bare record of a double-precision number: the value and nothing else.
#[allow(non_camel_case_types)]
pub struct dbr_double {
    pub value: DoubleBits,
}

/// The timed record of a double-precision number: status, severity and time stamp, then padding up to byte 16, then the value.
#[allow(non_camel_case_types)]
pub struct dbr_time_double {
    pub status_severity: StatusSeverity,
    pub raw_time: EpicsTimeStamp,
    pub value: DoubleBits,
}

/// The control record of a double-precision number: status and severity, precision, two bytes of padding, units, eight limits, then the value.
#[allow(non_camel_case_types)]
pub struct dbr_ctrl_double {
    pub status_severity: StatusSeverity,
    pub precision: i16,
    pub units: [u8; MAX_UNITS_SIZE],
    pub ctrl_limits: CtrlLimits<DoubleBits>,
    pub value: DoubleBits,
}

} // verus!
