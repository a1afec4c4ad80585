//! Records of double-precision numbers.

use vstd::prelude::*;
use crate::byte_order::{ByteOrder, i16_at, u64_at};
use crate::db_access::dbr_type_code::{DBR_CTRL_DOUBLE, DBR_DOUBLE, DBR_TIME_DOUBLE};
use crate::db_access::{
    CtrlLimits,
    DoubleBits,
    EpicsTimeStamp,
    StatusSeverity,
    dbr_ctrl_double,
    dbr_double,
    dbr_time_double,
    read_units,
};
use crate::dbr::{
    Dbr,
    DbrMap,
    FloatCtrl,
    UnixTime,
    double_at,
    epics_text,
    from_epics_string,
    from_raw_stamp,
    read_doubles,
    stamp_time,
};

verus! {

impl Dbr for dbr_double {
    type ResultType = DoubleBits;

    type ExtraType = ();

    open spec fn datatype_code() -> i16 {
        DBR_DOUBLE
    }

    open spec fn value_offset() -> nat {
        0
    }

    open spec fn value_width() -> nat {
        8
    }

    open spec fn wire_holds(&self, order: ByteOrder, bytes: Seq<u8>) -> bool {
        self.value == DoubleBits(u64_at(order, bytes, 0))
    }

    open spec fn slot_is(order: ByteOrder, bytes: Seq<u8>, at: int, value: DoubleBits) -> bool {
        value == double_at(order, bytes, at)
    }

    open spec fn value_is(&self, value: DoubleBits) -> bool {
        value == self.value
    }

    open spec fn extra_is(&self, extra: ()) -> bool {
        true
    }

    fn datatype() -> (code: i16) {
        DBR_DOUBLE
    }

    fn size_n(count: usize) -> (size: Option<usize>) {
        let values: usize = if count == 0 {
            1
        } else {
            count
        };
        if values > usize::MAX / 8 {
            None
        } else {
            Some(values * 8)
        }
    }

    fn decode(order: ByteOrder, buf: &[u8]) -> (record: Option<Self>) {
        if buf.len() < 8 {
            return None;
        }
        Some(dbr_double { value: DoubleBits(order.read_u64(buf, 0)) })
    }

    fn get_value(&self) -> (value: DoubleBits) {
        self.value
    }

    fn get_value_vec(order: ByteOrder, buf: &[u8], count: usize) -> (values: Option<Vec<DoubleBits>>) {
        if count > buf.len() / 8 {
            return None;
        }
        Some(read_doubles(order, buf, 0, count))
    }

    fn get_extra(&self) -> (extra: ()) {
        ()
    }

    proof fn lemma_value_is_first_slot(&self, order: ByteOrder, bytes: Seq<u8>, value: DoubleBits) {
    }

    proof fn lemma_slot_is_local(order: ByteOrder, bytes: Seq<u8>, at: int, value: DoubleBits) {
    }
}

impl Dbr for dbr_time_double {
    type ResultType = DoubleBits;

    type ExtraType = (StatusSeverity, UnixTime);

    open spec fn datatype_code() -> i16 {
        DBR_TIME_DOUBLE
    }

    open spec fn value_offset() -> nat {
        16
    }

    open spec fn value_width() -> nat {
        8
    }

    open spec fn wire_holds(&self, order: ByteOrder, bytes: Seq<u8>) -> bool {
        &&& self.status_severity == StatusSeverity::at(order, bytes, 0)
        &&& self.raw_time == EpicsTimeStamp::at(order, bytes, 4)
        &&& self.value == DoubleBits(u64_at(order, bytes, 16))
    }

    open spec fn slot_is(order: ByteOrder, bytes: Seq<u8>, at: int, value: DoubleBits) -> bool {
        value == double_at(order, bytes, at)
    }

    open spec fn value_is(&self, value: DoubleBits) -> bool {
        value == self.value
    }

    open spec fn extra_is(&self, extra: (StatusSeverity, UnixTime)) -> bool {
        extra == (self.status_severity, stamp_time(self.raw_time))
    }

    fn datatype() -> (code: i16) {
        DBR_TIME_DOUBLE
    }

    fn size_n(count: usize) -> (size: Option<usize>) {
        let values: usize = if count == 0 {
            1
        } else {
            count
        };
        if values > (usize::MAX - 16) / 8 {
            None
        } else {
            Some(16 + values * 8)
        }
    }

    fn decode(order: ByteOrder, buf: &[u8]) -> (record: Option<Self>) {
        if buf.len() < 24 {
            return None;
        }
        Some(
            dbr_time_double {
                status_severity: StatusSeverity::read(order, buf, 0),
                raw_time: EpicsTimeStamp::read(order, buf, 4),
                value: DoubleBits(order.read_u64(buf, 16)),
            },
        )
    }

    fn get_value(&self) -> (value: DoubleBits) {
        self.value
    }

    fn get_value_vec(order: ByteOrder, buf: &[u8], count: usize) -> (values: Option<Vec<DoubleBits>>) {
        if buf.len() < 16 || count > (buf.len() - 16) / 8 {
            return None;
        }
        Some(read_doubles(order, buf, 16, count))
    }

    fn get_extra(&self) -> (extra: (StatusSeverity, UnixTime)) {
        (self.status_severity, from_raw_stamp(&self.raw_time))
    }

    proof fn lemma_value_is_first_slot(&self, order: ByteOrder, bytes: Seq<u8>, value: DoubleBits) {
    }

    proof fn lemma_slot_is_local(order: ByteOrder, bytes: Seq<u8>, at: int, value: DoubleBits) {
    }
}

impl Dbr for dbr_ctrl_double {
    type ResultType = DoubleBits;

    type ExtraType = (StatusSeverity, FloatCtrl<DoubleBits>);

    open spec fn datatype_code() -> i16 {
        DBR_CTRL_DOUBLE
    }

    open spec fn value_offset() -> nat {
        80
    }

    open spec fn value_width() -> nat {
        8
    }

    open spec fn wire_holds(&self, order: ByteOrder, bytes: Seq<u8>) -> bool {
        &&& self.status_severity == StatusSeverity::at(order, bytes, 0)
        &&& self.precision == i16_at(order, bytes, 4)
        &&& self.units@ == bytes.subrange(8, 16)
        &&& self.ctrl_limits == CtrlLimits::<DoubleBits>::at(order, bytes, 16)
        &&& self.value == DoubleBits(u64_at(order, bytes, 80))
    }

    open spec fn slot_is(order: ByteOrder, bytes: Seq<u8>, at: int, value: DoubleBits) -> bool {
        value == double_at(order, bytes, at)
    }

    open spec fn value_is(&self, value: DoubleBits) -> bool {
        value == self.value
    }

    open spec fn extra_is(&self, extra: (StatusSeverity, FloatCtrl<DoubleBits>)) -> bool {
        &&& extra.0 == self.status_severity
        &&& extra.1.units@ == epics_text(self.units@)
        &&& extra.1.precision == self.precision
        &&& extra.1.limits == self.ctrl_limits
    }

    fn datatype() -> (code: i16) {
        DBR_CTRL_DOUBLE
    }

    fn size_n(count: usize) -> (size: Option<usize>) {
        let values: usize = if count == 0 {
            1
        } else {
            count
        };
        if values > (usize::MAX - 80) / 8 {
            None
        } else {
            Some(80 + values * 8)
        }
    }

    fn decode(order: ByteOrder, buf: &[u8]) -> (record: Option<Self>) {
        if buf.len() < 88 {
            return None;
        }
        Some(
            dbr_ctrl_double {
                status_severity: StatusSeverity::read(order, buf, 0),
                precision: order.read_i16(buf, 4),
                units: read_units(buf, 8),
                ctrl_limits: CtrlLimits::<DoubleBits>::read(order, buf, 16),
                value: DoubleBits(order.read_u64(buf, 80)),
            },
        )
    }

    fn get_value(&self) -> (value: DoubleBits) {
        self.value
    }

    fn get_value_vec(order: ByteOrder, buf: &[u8], count: usize) -> (values: Option<Vec<DoubleBits>>) {
        if buf.len() < 80 || count > (buf.len() - 80) / 8 {
            return None;
        }
        Some(read_doubles(order, buf, 80, count))
    }

    fn get_extra(&self) -> (extra: (StatusSeverity, FloatCtrl<DoubleBits>)) {
        (
            self.status_severity,
            FloatCtrl {
                units: from_epics_string(self.units.as_slice()),
                precision: self.precision,
                limits: self.ctrl_limits,
            },
        )
    }

    proof fn lemma_value_is_first_slot(&self, order: ByteOrder, bytes: Seq<u8>, value: DoubleBits) {
    }

    proof fn lemma_slot_is_local(order: ByteOrder, bytes: Seq<u8>, at: int, value: DoubleBits) {
    }
}

impl DbrMap for DoubleBits {
    type ValueDbr = dbr_double;

    type TimeDbr = dbr_time_double;

    type CtrlType = FloatCtrl<DoubleBits>;

    type CtrlDbr = dbr_ctrl_double;
}

} // verus!
