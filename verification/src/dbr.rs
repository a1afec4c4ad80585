//! From records to values: text, times, and the readout methods of every
//! record layout.

use vstd::prelude::*;
use vstd::utf8::{
    decode_first_scalar,
    decode_utf8,
    pop_first_scalar,
    valid_first_scalar,
    valid_utf8,
};
use crate::byte_order::{ByteOrder, i16_at, i32_at, u16_at, u32_at, u64_at};
use crate::db_access::{CtrlLimits, DoubleBits, EpicsTimeStamp, FloatBits, StatusSeverity};

mod chars;
mod doubles;
mod enums;
mod floats;
mod longs;
mod shorts;
mod strings;

verus! {

/// Length of the text in a slot: the position of the first zero byte, or the
/// slot's width where it holds none.
pub open spec fn text_end(bytes: Seq<u8>) -> int
    decreases bytes.len(),
{
    if bytes.len() == 0 || bytes[0] == 0 {
        0
    } else {
        1 + text_end(bytes.drop_first())
    }
}

/// `text_end` is the one position up to which no byte is zero and at which the
/// slot ends or holds a zero.
pub proof fn lemma_text_end(bytes: Seq<u8>)
    ensures
        0 <= text_end(bytes) <= bytes.len(),
        forall|i: int| 0 <= i < text_end(bytes) ==> bytes[i] != 0,
        text_end(bytes) < bytes.len() ==> bytes[text_end(bytes)] == 0,
    decreases bytes.len(),
{
    if bytes.len() == 0 || bytes[0] == 0 {
    } else {
        let rest = bytes.drop_first();
        lemma_text_end(rest);
        assert forall|i: int| 0 <= i < text_end(bytes) implies bytes[i] != 0 by {
            if i > 0 {
                assert(bytes[i] == rest[i - 1]);
            }
        }
        if text_end(bytes) < bytes.len() {
            assert(bytes[text_end(bytes)] == rest[text_end(rest)]);
        }
    }
}

/// A position with the two properties of `text_end` is `text_end`.
pub proof fn lemma_text_end_unique(bytes: Seq<u8>, n: int)
    requires
        0 <= n <= bytes.len(),
        forall|i: int| 0 <= i < n ==> bytes[i] != 0,
        n < bytes.len() ==> bytes[n] == 0,
    ensures
        text_end(bytes) == n,
{
    lemma_text_end(bytes);
    let m = text_end(bytes);
    if m < n {
        assert(bytes[m] != 0);
    } else if n < m {
        assert(bytes[n] == 0);
    }
}

/// The characters that `String::from_utf8_lossy` makes of bytes that are not
/// well-formed UTF-8, with a replacement character for each malformed piece.
pub uninterp spec fn repaired_text(bytes: Seq<u8>) -> Seq<char>;

/// The characters that bytes stand for, read leniently: their UTF-8 decoding
/// where they are well-formed, the repaired text where they are not.
pub open spec fn lossy_text(bytes: Seq<u8>) -> Seq<char> {
    if valid_utf8(bytes) {
        decode_utf8(bytes)
    } else {
        repaired_text(bytes)
    }
}

/// The characters of the text in a slot: what lies before the first zero byte,
/// read leniently.
pub open spec fn epics_text(slot: Seq<u8>) -> Seq<char> {
    lossy_text(slot.subrange(0, text_end(slot)))
}

/// Bytes below 128 are well-formed UTF-8 and stand, each for itself, for the
/// character with its number.
pub proof fn lemma_ascii_text(bytes: Seq<u8>)
    requires
        forall|i: int| 0 <= i < bytes.len() ==> bytes[i] < 0x80,
    ensures
        valid_utf8(bytes),
        lossy_text(bytes) == Seq::new(bytes.len(), |i: int| bytes[i] as char),
    decreases bytes.len(),
{
    let chars = Seq::new(bytes.len(), |i: int| bytes[i] as char);
    if bytes.len() == 0 {
        assert(decode_utf8(bytes) =~= chars);
    } else {
        let first = bytes[0];
        let rest = bytes.subrange(1, bytes.len() as int);
        assert((first & 0x7f) as u32 == first as u32) by (bit_vector)
            requires
                first < 0x80,
        ;
        assert(valid_first_scalar(bytes));
        assert(pop_first_scalar(bytes) == rest);
        lemma_ascii_text(rest);
        assert(decode_first_scalar(bytes) == first as u32);
        assert(decode_utf8(bytes) == seq![first as u32 as char] + decode_utf8(rest));
        assert(decode_utf8(bytes) =~= chars);
    }
}

/// The text of a slot that holds bytes below 128 only is the bytes before
/// its first zero byte, each as the character with its number.
pub proof fn lemma_ascii_slot_text(slot: Seq<u8>)
    requires
        forall|i: int| 0 <= i < slot.len() ==> slot[i] < 0x80,
    ensures
        0 <= text_end(slot) <= slot.len(),
        epics_text(slot) == Seq::new(text_end(slot) as nat, |i: int| slot[i] as char),
{
    lemma_text_end(slot);
    let prefix = slot.subrange(0, text_end(slot));
    lemma_ascii_text(prefix);
    assert(epics_text(slot) =~= Seq::new(text_end(slot) as nat, |i: int| slot[i] as char));
}

/// `String::from_utf8_lossy`, with its result made an owned `String`.
/// Well-formed UTF-8 comes back as the text it encodes; of anything else the
/// contract only names the result.
#[verifier::external_body]
fn utf8_lossy(bytes: &[u8]) -> (text: String)
    ensures
        valid_utf8(bytes@) ==> text@ == decode_utf8(bytes@),
        !valid_utf8(bytes@) ==> text@ == repaired_text(bytes@),
{
    String::from_utf8_lossy(bytes).into_owned()
}

/// Reads the text of a slot: the bytes before the first zero byte, or all of
/// them where none is zero, decoded leniently.
pub fn from_epics_string(string: &[u8]) -> (text: String)
    ensures
        text@ == epics_text(string@),
{
    let mut end: usize = 0;
    while end < string.len() && string[end] != 0
        invariant
            end <= string.len(),
            forall|i: int| 0 <= i < end ==> string@[i] != 0,
        decreases string.len() - end,
    {
        end += 1;
    }
    proof {
        lemma_text_end_unique(string@, end as int);
    }
    utf8_lossy(&string[0..end])
}

/// Seconds from the start of 1970 to the start of 1990, the epoch of the bus.
pub const EPICS_EPOCH_SECS: u64 = 631152000;

/// Nanoseconds in a second.
pub const NANOS_PER_SEC: u32 = 1_000_000_000;

/// A point in time, as whole seconds and nanoseconds since the start of 1970.
#[derive(Clone, Copy, Debug, PartialEq, Eq, Structural)]
pub struct UnixTime {
    pub secs: u64,
    pub nanos: u32,
}

impl UnixTime {
    /// The nanosecond part is less than a second.
    pub open spec fn wf(&self) -> bool {
        self.nanos < NANOS_PER_SEC
    }

    /// Nanoseconds since the start of 1970.
    pub open spec fn total_nanos(&self) -> int {
        self.secs * NANOS_PER_SEC + self.nanos
    }
}

/// The time that a raw stamp of the bus denotes.
pub open spec fn stamp_time(epics_time: EpicsTimeStamp) -> UnixTime {
    UnixTime {
        secs: (EPICS_EPOCH_SECS + epics_time.secs + epics_time.nsec / NANOS_PER_SEC) as u64,
        nanos: epics_time.nsec % NANOS_PER_SEC,
    }
}

/// Converts a raw stamp of the bus, counted from 1990, to time since 1970.
/// A nanosecond count of a second or more carries into the seconds.
pub fn from_raw_stamp(epics_time: &EpicsTimeStamp) -> (time: UnixTime)
    ensures
        time == stamp_time(*epics_time),
        time.wf(),
        time.total_nanos() == (EPICS_EPOCH_SECS + epics_time.secs) * NANOS_PER_SEC
            + epics_time.nsec,
{
    let carry: u64 = (epics_time.nsec / NANOS_PER_SEC) as u64;
    UnixTime {
        secs: EPICS_EPOCH_SECS + epics_time.secs as u64 + carry,
        nanos: epics_time.nsec % NANOS_PER_SEC,
    }
}

/// Conversion keeps the order of time: of two raw stamps, the one that is not
/// later converts to a time that is not later, and a stamp of zero converts
/// to the epoch of the bus. In particular the result grows with the seconds
/// of the stamp.
pub proof fn lemma_stamp_time_is_monotonic(a: EpicsTimeStamp, b: EpicsTimeStamp)
    ensures
        stamp_time(EpicsTimeStamp { secs: 0, nsec: 0 }) == (UnixTime {
            secs: EPICS_EPOCH_SECS,
            nanos: 0,
        }),
        stamp_time(a).wf(),
        stamp_time(a).total_nanos() == (EPICS_EPOCH_SECS + a.secs) * NANOS_PER_SEC + a.nsec,
        a.secs * NANOS_PER_SEC + a.nsec <= b.secs * NANOS_PER_SEC + b.nsec <==> stamp_time(
            a,
        ).total_nanos() <= stamp_time(b).total_nanos(),
        a.secs <= b.secs && a.nsec == b.nsec ==> stamp_time(a).secs <= stamp_time(b).secs
            && stamp_time(a).nanos == stamp_time(b).nanos,
{
}

/// The position of an enumeration's value among its labels.
#[derive(Clone, Copy, Debug, PartialEq, Eq, Structural)]
pub struct CaEnum(pub u16);

/// What a control record says of an integer value besides the value itself.
#[derive(Debug, PartialEq)]
pub struct FixedCtrl<T: Copy + Send> {
    /// The engineering units of the value.
    pub units: String,
    /// The limits of the value.
    pub limits: CtrlLimits<T>,
}

/// What a control record says of a floating-point value besides the value
/// itself.
#[derive(Debug, PartialEq)]
pub struct FloatCtrl<T: Copy + Send> {
    /// The engineering units of the value.
    pub units: String,
    /// The number of decimal places to show.
    pub precision: i16,
    /// The limits of the value.
    pub limits: CtrlLimits<T>,
}

/// The text of the string slot at `at`.
pub open spec fn text_at(bytes: Seq<u8>, at: int) -> Seq<char> {
    epics_text(bytes.subrange(at, at + 40))
}

/// The enumeration value that the two bytes at `at` hold.
pub open spec fn enum_at(order: ByteOrder, bytes: Seq<u8>, at: int) -> CaEnum {
    CaEnum(u16_at(order, bytes, at))
}

/// The bit pattern of the single-precision number in the four bytes at `at`.
pub open spec fn float_at(order: ByteOrder, bytes: Seq<u8>, at: int) -> FloatBits {
    FloatBits(u32_at(order, bytes, at))
}

/// The bit pattern of the double-precision number in the eight bytes at `at`.
pub open spec fn double_at(order: ByteOrder, bytes: Seq<u8>, at: int) -> DoubleBits {
    DoubleBits(u64_at(order, bytes, at))
}

/// The number of labels that an enumeration's control record holds, given the
/// count that it reports: the count itself, and all sixteen slots where the
/// count is negative or greater than their number.
pub open spec fn label_count(enum_count: i16) -> int {
    if 0 <= enum_count <= 16 {
        enum_count as int
    } else {
        16
    }
}

/// The number of bytes that a header of `offset` bytes and `count` values of
/// `width` bytes each take, where no values take the room of one.
pub open spec fn run_size(offset: nat, width: nat, count: nat) -> nat {
    offset + (if count == 0 {
        1
    } else {
        count
    }) * width
}

/// One record layout of the bus: how to take it from a buffer, and how to read
/// its value, a run of values, and what it carries besides.
pub trait Dbr: Sized {
    /// The type of one value of the record.
    type ResultType: Send;

    /// The type of what the record carries besides its value.
    type ExtraType: Send;

    /// The code by which the bus names this layout.
    spec fn datatype_code() -> i16;

    /// Number of bytes that precede the first value.
    spec fn value_offset() -> nat;

    /// Number of bytes that one value takes.
    spec fn value_width() -> nat;

    /// Whether this record is what the fixed part of `bytes` holds.
    spec fn wire_holds(&self, order: ByteOrder, bytes: Seq<u8>) -> bool;

    /// Whether `value` is the value that the slot at `at` holds.
    spec fn slot_is(order: ByteOrder, bytes: Seq<u8>, at: int, value: Self::ResultType) -> bool;

    /// Whether `value` is the value of this record.
    spec fn value_is(&self, value: Self::ResultType) -> bool;

    /// Whether `extra` is what this record carries besides its value.
    spec fn extra_is(&self, extra: Self::ExtraType) -> bool;

    /// The code by which the bus names this layout.
    fn datatype() -> (code: i16)
        ensures
            code == Self::datatype_code(),
    ;

    /// The number of bytes that a record with `count` values takes, where a
    /// record without values takes as many as one with a single value;
    /// `None` where the machine's word cannot hold the number.
    fn size_n(count: usize) -> (size: Option<usize>)
        ensures
            size is Some <==> run_size(Self::value_offset(), Self::value_width(), count as nat)
                <= usize::MAX,
            size matches Some(n) ==> n == run_size(
                Self::value_offset(),
                Self::value_width(),
                count as nat,
            ),
    ;

    /// Takes the fixed part of a record, header and first value, from the
    /// front of `buf`; `None` where the buffer is shorter than that.
    fn decode(order: ByteOrder, buf: &[u8]) -> (record: Option<Self>)
        ensures
            record is Some <==> Self::value_offset() + Self::value_width() <= buf@.len(),
            record matches Some(r) ==> r.wire_holds(order, buf@),
    ;

    /// The value of the record.
    fn get_value(&self) -> (value: Self::ResultType)
        ensures
            self.value_is(value),
    ;

    /// The first `count` values of the record that `buf` holds, which follow
    /// one another from the first value on; `None` where the buffer is too
    /// short to hold that many.
    fn get_value_vec(order: ByteOrder, buf: &[u8], count: usize) -> (values: Option<
        Vec<Self::ResultType>,
    >)
        ensures
            values is Some <==> Self::value_offset() + count * Self::value_width() <= buf@.len(),
            values matches Some(v) ==> v@.len() == count && forall|i: int|
                0 <= i < count ==> Self::slot_is(
                    order,
                    buf@,
                    Self::value_offset() + i * Self::value_width(),
                    #[trigger] v@[i],
                ),
    ;

    /// What the record carries besides its value.
    fn get_extra(&self) -> (extra: Self::ExtraType)
        ensures
            self.extra_is(extra),
    ;

    /// The value of a record is what its first slot holds.
    proof fn lemma_value_is_first_slot(
        &self,
        order: ByteOrder,
        bytes: Seq<u8>,
        value: Self::ResultType,
    )
        requires
            Self::value_offset() + Self::value_width() <= bytes.len(),
            self.wire_holds(order, bytes),
        ensures
            self.value_is(value) <==> Self::slot_is(order, bytes, Self::value_offset() as int, value),
    ;

    /// What a slot holds depends on the bytes of the slot alone.
    proof fn lemma_slot_is_local(order: ByteOrder, bytes: Seq<u8>, at: int, value: Self::ResultType)
        requires
            0 <= at,
            at + Self::value_width() <= bytes.len(),
        ensures
            Self::slot_is(order, bytes, at, value) <==> Self::slot_is(
                order,
                bytes.subrange(at, at + Self::value_width()),
                0,
                value,
            ),
    ;
}

/// The number of bytes that a record of layout `D` with `count` values takes:
/// its header and its values, and as many as with one value where it has
/// none.
pub open spec fn record_size<D: Dbr>(count: nat) -> nat {
    run_size(D::value_offset(), D::value_width(), count)
}

/// Reads `count` texts from string slots that follow one another from `at` on.
pub(crate) fn read_texts(buf: &[u8], at: usize, count: usize) -> (texts: Vec<String>)
    requires
        at + count * 40 <= buf.len(),
    ensures
        texts@.len() == count,
        forall|i: int| 0 <= i < count ==> (#[trigger] texts@[i])@ == text_at(buf@, at + i * 40),
{
    let mut texts: Vec<String> = Vec::new();
    let mut i: usize = 0;
    while i < count
        invariant
            i <= count,
            at + count * 40 <= buf.len(),
            texts@.len() == i,
            forall|k: int| 0 <= k < i ==> (#[trigger] texts@[k])@ == text_at(buf@, at + k * 40),
        decreases count - i,
    {
        let start: usize = at + i * 40;
        texts.push(from_epics_string(&buf[start..start + 40]));
        i += 1;
    }
    texts
}

/// Reads `count` enumeration values that follow one another from `at` on.
pub(crate) fn read_enums(order: ByteOrder, buf: &[u8], at: usize, count: usize) -> (values: Vec<CaEnum>)
    requires
        at + count * 2 <= buf.len(),
    ensures
        values@.len() == count,
        forall|i: int| 0 <= i < count ==> #[trigger] values@[i] == enum_at(order, buf@, at + i * 2),
{
    let mut values: Vec<CaEnum> = Vec::new();
    let mut i: usize = 0;
    while i < count
        invariant
            i <= count,
            at + count * 2 <= buf.len(),
            values@.len() == i,
            forall|k: int| 0 <= k < i ==> #[trigger] values@[k] == enum_at(order, buf@, at + k * 2),
        decreases count - i,
    {
        values.push(CaEnum(order.read_u16(buf, at + i * 2)));
        i += 1;
    }
    values
}

/// Reads `count` one-byte integers that follow one another from `at` on.
pub(crate) fn read_chars(buf: &[u8], at: usize, count: usize) -> (values: Vec<u8>)
    requires
        at + count <= buf.len(),
    ensures
        values@.len() == count,
        forall|i: int| 0 <= i < count ==> #[trigger] values@[i] == buf@[at + i],
{
    let mut values: Vec<u8> = Vec::new();
    let mut i: usize = 0;
    while i < count
        invariant
            i <= count,
            at + count <= buf.len(),
            values@.len() == i,
            forall|k: int| 0 <= k < i ==> #[trigger] values@[k] == buf@[at + k],
        decreases count - i,
    {
        values.push(buf[at + i]);
        i += 1;
    }
    values
}

/// Reads `count` 16-bit integers that follow one another from `at` on.
pub(crate) fn read_shorts(order: ByteOrder, buf: &[u8], at: usize, count: usize) -> (values: Vec<i16>)
    requires
        at + count * 2 <= buf.len(),
    ensures
        values@.len() == count,
        forall|i: int| 0 <= i < count ==> #[trigger] values@[i] == i16_at(order, buf@, at + i * 2),
{
    let mut values: Vec<i16> = Vec::new();
    let mut i: usize = 0;
    while i < count
        invariant
            i <= count,
            at + count * 2 <= buf.len(),
            values@.len() == i,
            forall|k: int| 0 <= k < i ==> #[trigger] values@[k] == i16_at(order, buf@, at + k * 2),
        decreases count - i,
    {
        values.push(order.read_i16(buf, at + i * 2));
        i += 1;
    }
    values
}

/// Reads `count` 32-bit integers that follow one another from `at` on.
pub(crate) fn read_longs(order: ByteOrder, buf: &[u8], at: usize, count: usize) -> (values: Vec<i32>)
    requires
        at + count * 4 <= buf.len(),
    ensures
        values@.len() == count,
        forall|i: int| 0 <= i < count ==> #[trigger] values@[i] == i32_at(order, buf@, at + i * 4),
{
    let mut values: Vec<i32> = Vec::new();
    let mut i: usize = 0;
    while i < count
        invariant
            i <= count,
            at + count * 4 <= buf.len(),
            values@.len() == i,
            forall|k: int| 0 <= k < i ==> #[trigger] values@[k] == i32_at(order, buf@, at + k * 4),
        decreases count - i,
    {
        values.push(order.read_i32(buf, at + i * 4));
        i += 1;
    }
    values
}

/// Reads `count` single-precision bit patterns that follow one another from `at` on.
pub(crate) fn read_floats(order: ByteOrder, buf: &[u8], at: usize, count: usize) -> (values: Vec<FloatBits>)
    requires
        at + count * 4 <= buf.len(),
    ensures
        values@.len() == count,
        forall|i: int| 0 <= i < count ==> #[trigger] values@[i] == float_at(order, buf@, at + i * 4),
{
    let mut values: Vec<FloatBits> = Vec::new();
    let mut i: usize = 0;
    while i < count
        invariant
            i <= count,
            at + count * 4 <= buf.len(),
            values@.len() == i,
            forall|k: int| 0 <= k < i ==> #[trigger] values@[k] == float_at(order, buf@, at + k * 4),
        decreases count - i,
    {
        values.push(FloatBits(order.read_u32(buf, at + i * 4)));
        i += 1;
    }
    values
}

/// Reads `count` double-precision bit patterns that follow one another from `at` on.
pub(crate) fn read_doubles(order: ByteOrder, buf: &[u8], at: usize, count: usize) -> (values: Vec<DoubleBits>)
    requires
        at + count * 8 <= buf.len(),
    ensures
        values@.len() == count,
        forall|i: int| 0 <= i < count ==> #[trigger] values@[i] == double_at(order, buf@, at + i * 8),
{
    let mut values: Vec<DoubleBits> = Vec::new();
    let mut i: usize = 0;
    while i < count
        invariant
            i <= count,
            at + count * 8 <= buf.len(),
            values@.len() == i,
            forall|k: int| 0 <= k < i ==> #[trigger] values@[k] == double_at(order, buf@, at + k * 8),
        decreases count - i,
    {
        values.push(DoubleBits(order.read_u64(buf, at + i * 8)));
        i += 1;
    }
    values
}

/// Reads the labels of an enumeration from its label slots: as many as
/// `enum_count` says, in slot order, and all sixteen where the count is
/// negative or greater than their number.
pub(crate) fn read_label_texts(strings: &[[u8; 26]; 16], enum_count: i16) -> (labels: Vec<String>)
    ensures
        labels@.len() == label_count(enum_count),
        forall|i: int|
            0 <= i < label_count(enum_count) ==> (#[trigger] labels@[i])@ == epics_text(
                strings@[i]@,
            ),
{
    let count: usize = if 0 <= enum_count && enum_count <= 16 {
        enum_count as usize
    } else {
        16
    };
    let mut labels: Vec<String> = Vec::new();
    let mut i: usize = 0;
    while i < count
        invariant
            i <= count <= 16,
            labels@.len() == i,
            forall|k: int| 0 <= k < i ==> (#[trigger] labels@[k])@ == epics_text(strings@[k]@),
        decreases count - i,
    {
        labels.push(from_epics_string(strings[i].as_slice()));
        i += 1;
    }
    labels
}

/// Whether `extra` is what the record at the front of `bytes` carries besides
/// its value.
pub open spec fn wire_extra_is<D: Dbr>(order: ByteOrder, bytes: Seq<u8>, extra: D::ExtraType) -> bool {
    exists|record: D| #[trigger] record.wire_holds(order, bytes) && record.extra_is(extra)
}

/// A type of value, with the three record layouts in which the bus delivers
/// it: bare, with status and time, and with control information.
pub trait DbrMap: Sized + Send {
    /// The bare layout.
    type ValueDbr: Dbr<ResultType = Self, ExtraType = ()>;

    /// The layout with status, severity and time stamp.
    type TimeDbr: Dbr<ResultType = Self, ExtraType = (StatusSeverity, UnixTime)>;

    /// The control information that belongs to a value of this type.
    type CtrlType: Send;

    /// The layout with status, severity and control information.
    type CtrlDbr: Dbr<ResultType = Self, ExtraType = (StatusSeverity, Self::CtrlType)>;
}

} // verus!
