//! Records of single-precision numbers.

use vstd::prelude::*;
use crate::byte_order::{ByteOrder, i16_at, u32_at};
use crate::db_access::dbr_type_code::{DBR_CTRL_FLOAT, DBR_FLOAT, DBR_TIME_FLOAT};
use crate::db_access::{
    CtrlLimits,
    EpicsTimeStamp,
    FloatBits,
    StatusSeverity,
    dbr_ctrl_float,
    dbr_float,
    dbr_time_float,
    read_units,
};
use crate::dbr::{
    Dbr,
    DbrMap,
    FloatCtrl,
    UnixTime,
    epics_text,
    float_at,
    from_epics_string,
    from_raw_stamp,
    read_floats,
    stamp_time,
};

verus! {

impl Dbr for dbr_float {
    type ResultType = FloatBits;

    type ExtraType = ();

    open spec fn datatype_code() -> i16 {
        DBR_FLOAT
    }

    open spec fn value_offset() -> nat {
        0
    }

    open spec fn value_width() -> nat {
        4
    }

    open spec fn wire_holds(&self, order: ByteOrder, bytes: Seq<u8>) -> bool {
        self.value == FloatBits(u32_at(order, bytes, 0))
    }

    open spec fn slot_is(order: ByteOrder, bytes: Seq<u8>, at: int, value: FloatBits) -> bool {
        value == float_at(order, bytes, at)
    }

    open spec fn value_is(&self, value: FloatBits) -> bool {
        value == self.value
    }

    open spec fn extra_is(&self, extra: ()) -> bool {
        true
    }

    fn datatype() -> (code: i16) {
        DBR_FLOAT
    }

    fn size_n(count: usize) -> (size: Option<usize>) {
        let values: usize = if count == 0 {
            1
        } else {
            count
        };
        if values > usize::MAX / 4 {
            None
        } else {
            Some(values * 4)
        }
    }

    fn decode(order: ByteOrder, buf: &[u8]) -> (record: Option<Self>) {
        if buf.len() < 4 {
            return None;
        }
        Some(dbr_float { value: FloatBits(order.read_u32(buf, 0)) })
    }

    fn get_value(&self) -> (value: FloatBits) {
        self.value
    }

    fn get_value_vec(order: ByteOrder, buf: &[u8], count: usize) -> (values: Option<Vec<FloatBits>>) {
        if count > buf.len() / 4 {
            return None;
        }
        Some(read_floats(order, buf, 0, count))
    }

    fn get_extra(&self) -> (extra: ()) {
        ()
    }

    proof fn lemma_value_is_first_slot(&self, order: ByteOrder, bytes: Seq<u8>, value: FloatBits) {
    }

    proof fn lemma_slot_is_local(order: ByteOrder, bytes: Seq<u8>, at: int, value: FloatBits) {
    }
}

impl Dbr for dbr_time_float {
    type ResultType = FloatBits;

    type ExtraType = (StatusSeverity, UnixTime);

    open spec fn datatype_code() -> i16 {
        DBR_TIME_FLOAT
    }

    open spec fn value_offset() -> nat {
        12
    }

    open spec fn value_width() -> nat {
        4
    }

    open spec fn wire_holds(&self, order: ByteOrder, bytes: Seq<u8>) -> bool {
        &&& self.status_severity == StatusSeverity::at(order, bytes, 0)
        &&& self.raw_time == EpicsTimeStamp::at(order, bytes, 4)
        &&& self.value == FloatBits(u32_at(order, bytes, 12))
    }

    open spec fn slot_is(order: ByteOrder, bytes: Seq<u8>, at: int, value: FloatBits) -> bool {
        value == float_at(order, bytes, at)
    }

    open spec fn value_is(&self, value: FloatBits) -> bool {
        value == self.value
    }

    open spec fn extra_is(&self, extra: (StatusSeverity, UnixTime)) -> bool {
        extra == (self.status_severity, stamp_time(self.raw_time))
    }

    fn datatype() -> (code: i16) {
        DBR_TIME_FLOAT
    }

    fn size_n(count: usize) -> (size: Option<usize>) {
        let values: usize = if count == 0 {
            1
        } else {
            count
        };
        if values > (usize::MAX - 12) / 4 {
            None
        } else {
            Some(12 + values * 4)
        }
    }

    fn decode(order: ByteOrder, buf: &[u8]) -> (record: Option<Self>) {
        if buf.len() < 16 {
            return None;
        }
        Some(
            dbr_time_float {
                status_severity: StatusSeverity::read(order, buf, 0),
                raw_time: EpicsTimeStamp::read(order, buf, 4),
                value: FloatBits(order.read_u32(buf, 12)),
            },
        )
    }

    fn get_value(&self) -> (value: FloatBits) {
        self.value
    }

    fn get_value_vec(order: ByteOrder, buf: &[u8], count: usize) -> (values: Option<Vec<FloatBits>>) {
        if buf.len() < 12 || count > (buf.len() - 12) / 4 {
            return None;
        }
        Some(read_floats(order, buf, 12, count))
    }

    fn get_extra(&self) -> (extra: (StatusSeverity, UnixTime)) {
        (self.status_severity, from_raw_stamp(&self.raw_time))
    }

    proof fn lemma_value_is_first_slot(&self, order: ByteOrder, bytes: Seq<u8>, value: FloatBits) {
    }

    proof fn lemma_slot_is_local(order: ByteOrder, bytes: Seq<u8>, at: int, value: FloatBits) {
    }
}

impl Dbr for dbr_ctrl_float {
    type ResultType = FloatBits;

    type ExtraType = (StatusSeverity, FloatCtrl<FloatBits>);

    open spec fn datatype_code() -> i16 {
        DBR_CTRL_FLOAT
    }

    open spec fn value_offset() -> nat {
        48
    }

    open spec fn value_width() -> nat {
        4
    }

    open spec fn wire_holds(&self, order: ByteOrder, bytes: Seq<u8>) -> bool {
        &&& self.status_severity == StatusSeverity::at(order, bytes, 0)
        &&& self.precision == i16_at(order, bytes, 4)
        &&& self.units@ == bytes.subrange(8, 16)
        &&& self.ctrl_limits == CtrlLimits::<FloatBits>::at(order, bytes, 16)
        &&& self.value == FloatBits(u32_at(order, bytes, 48))
    }

    open spec fn slot_is(order: ByteOrder, bytes: Seq<u8>, at: int, value: FloatBits) -> bool {
        value == float_at(order, bytes, at)
    }

    open spec fn value_is(&self, value: FloatBits) -> bool {
        value == self.value
    }

    open spec fn extra_is(&self, extra: (StatusSeverity, FloatCtrl<FloatBits>)) -> bool {
        &&& extra.0 == self.status_severity
        &&& extra.1.units@ == epics_text(self.units@)
        &&& extra.1.precision == self.precision
        &&& extra.1.limits == self.ctrl_limits
    }

    fn datatype() -> (code: i16) {
        DBR_CTRL_FLOAT
    }

    fn size_n(count: usize) -> (size: Option<usize>) {
        let values: usize = if count == 0 {
            1
        } else {
            count
        };
        if values > (usize::MAX - 48) / 4 {
            None
        } else {
            Some(48 + values * 4)
        }
    }

    fn decode(order: ByteOrder, buf: &[u8]) -> (record: Option<Self>) {
        if buf.len() < 52 {
            return None;
        }
        Some(
            dbr_ctrl_float {
                status_severity: StatusSeverity::read(order, buf, 0),
                precision: order.read_i16(buf, 4),
                units: read_units(buf, 8),
                ctrl_limits: CtrlLimits::<FloatBits>::read(order, buf, 16),
                value: FloatBits(order.read_u32(buf, 48)),
            },
        )
    }

    fn get_value(&self) -> (value: FloatBits) {
        self.value
    }

    fn get_value_vec(order: ByteOrder, buf: &[u8], count: usize) -> (values: Option<Vec<FloatBits>>) {
        if buf.len() < 48 || count > (buf.len() - 48) / 4 {
            return None;
        }
        Some(read_floats(order, buf, 48, count))
    }

    fn get_extra(&self) -> (extra: (StatusSeverity, FloatCtrl<FloatBits>)) {
        (
            self.status_severity,
            FloatCtrl {
                units: from_epics_string(self.units.as_slice()),
                precision: self.precision,
                limits: self.ctrl_limits,
            },
        )
    }

    proof fn lemma_value_is_first_slot(&self, order: ByteOrder, bytes: Seq<u8>, value: FloatBits) {
    }

    proof fn lemma_slot_is_local(order: ByteOrder, bytes: Seq<u8>, at: int, value: FloatBits) {
    }
}

impl DbrMap for FloatBits {
    type ValueDbr = dbr_float;

    type TimeDbr = dbr_time_float;

    type CtrlType = FloatCtrl<FloatBits>;

    type CtrlDbr = dbr_ctrl_float;
}

} // verus!
