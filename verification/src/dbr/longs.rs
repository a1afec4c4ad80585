//! Records of 32-bit integers.

use vstd::prelude::*;
use crate::byte_order::{ByteOrder, i32_at};
use crate::db_access::dbr_type_code::{DBR_CTRL_LONG, DBR_LONG, DBR_TIME_LONG};
use crate::db_access::{
    CtrlLimits,
    EpicsTimeStamp,
    StatusSeverity,
    dbr_ctrl_long,
    dbr_long,
    dbr_time_long,
    read_units,
};
use crate::dbr::{
    Dbr,
    DbrMap,
    FixedCtrl,
    UnixTime,
    epics_text,
    from_epics_string,
    from_raw_stamp,
    read_longs,
    stamp_time,
};

verus! {

impl Dbr for dbr_long {
    type ResultType = i32;

    type ExtraType = ();

    open spec fn datatype_code() -> i16 {
        DBR_LONG
    }

    open spec fn value_offset() -> nat {
        0
    }

    open spec fn value_width() -> nat {
        4
    }

    open spec fn wire_holds(&self, order: ByteOrder, bytes: Seq<u8>) -> bool {
        self.value == i32_at(order, bytes, 0)
    }

    open spec fn slot_is(order: ByteOrder, bytes: Seq<u8>, at: int, value: i32) -> bool {
        value == i32_at(order, bytes, at)
    }

    open spec fn value_is(&self, value: i32) -> bool {
        value == self.value
    }

    open spec fn extra_is(&self, extra: ()) -> bool {
        true
    }

    fn datatype() -> (code: i16) {
        DBR_LONG
    }

    fn size_n(count: usize) -> (size: Option<usize>) {
        let values: usize = if count == 0 {
            1
        } else {
            count
        };
        if values > usize::MAX / 4 {
            None
        } else {
            Some(values * 4)
        }
    }

    fn decode(order: ByteOrder, buf: &[u8]) -> (record: Option<Self>) {
        if buf.len() < 4 {
            return None;
        }
        Some(dbr_long { value: order.read_i32(buf, 0) })
    }

    fn get_value(&self) -> (value: i32) {
        self.value
    }

    fn get_value_vec(order: ByteOrder, buf: &[u8], count: usize) -> (values: Option<Vec<i32>>) {
        if count > buf.len() / 4 {
            return None;
        }
        Some(read_longs(order, buf, 0, count))
    }

    fn get_extra(&self) -> (extra: ()) {
        ()
    }

    proof fn lemma_value_is_first_slot(&self, order: ByteOrder, bytes: Seq<u8>, value: i32) {
    }

    proof fn lemma_slot_is_local(order: ByteOrder, bytes: Seq<u8>, at: int, value: i32) {
    }
}

impl Dbr for dbr_time_long {
    type ResultType = i32;

    type ExtraType = (StatusSeverity, UnixTime);

    open spec fn datatype_code() -> i16 {
        DBR_TIME_LONG
    }

    open spec fn value_offset() -> nat {
        12
    }

    open spec fn value_width() -> nat {
        4
    }

    open spec fn wire_holds(&self, order: ByteOrder, bytes: Seq<u8>) -> bool {
        &&& self.status_severity == StatusSeverity::at(order, bytes, 0)
        &&& self.raw_time == EpicsTimeStamp::at(order, bytes, 4)
        &&& self.value == i32_at(order, bytes, 12)
    }

    open spec fn slot_is(order: ByteOrder, bytes: Seq<u8>, at: int, value: i32) -> bool {
        value == i32_at(order, bytes, at)
    }

    open spec fn value_is(&self, value: i32) -> bool {
        value == self.value
    }

    open spec fn extra_is(&self, extra: (StatusSeverity, UnixTime)) -> bool {
        extra == (self.status_severity, stamp_time(self.raw_time))
    }

    fn datatype() -> (code: i16) {
        DBR_TIME_LONG
    }

    fn size_n(count: usize) -> (size: Option<usize>) {
        let values: usize = if count == 0 {
            1
        } else {
            count
        };
        if values > (usize::MAX - 12) / 4 {
            None
        } else {
            Some(12 + values * 4)
        }
    }

    fn decode(order: ByteOrder, buf: &[u8]) -> (record: Option<Self>) {
        if buf.len() < 16 {
            return None;
        }
        Some(
            dbr_time_long {
                status_severity: StatusSeverity::read(order, buf, 0),
                raw_time: EpicsTimeStamp::read(order, buf, 4),
                value: order.read_i32(buf, 12),
            },
        )
    }

    fn get_value(&self) -> (value: i32) {
        self.value
    }

    fn get_value_vec(order: ByteOrder, buf: &[u8], count: usize) -> (values: Option<Vec<i32>>) {
        if buf.len() < 12 || count > (buf.len() - 12) / 4 {
            return None;
        }
        Some(read_longs(order, buf, 12, count))
    }

    fn get_extra(&self) -> (extra: (StatusSeverity, UnixTime)) {
        (self.status_severity, from_raw_stamp(&self.raw_time))
    }

    proof fn lemma_value_is_first_slot(&self, order: ByteOrder, bytes: Seq<u8>, value: i32) {
    }

    proof fn lemma_slot_is_local(order: ByteOrder, bytes: Seq<u8>, at: int, value: i32) {
    }
}

impl Dbr for dbr_ctrl_long {
    type ResultType = i32;

    type ExtraType = (StatusSeverity, FixedCtrl<i32>);

    open spec fn datatype_code() -> i16 {
        DBR_CTRL_LONG
    }

    open spec fn value_offset() -> nat {
        44
    }

    open spec fn value_width() -> nat {
        4
    }

    open spec fn wire_holds(&self, order: ByteOrder, bytes: Seq<u8>) -> bool {
        &&& self.status_severity == StatusSeverity::at(order, bytes, 0)
        &&& self.units@ == bytes.subrange(4, 12)
        &&& self.ctrl_limits == CtrlLimits::<i32>::at(order, bytes, 12)
        &&& self.value == i32_at(order, bytes, 44)
    }

    open spec fn slot_is(order: ByteOrder, bytes: Seq<u8>, at: int, value: i32) -> bool {
        value == i32_at(order, bytes, at)
    }

    open spec fn value_is(&self, value: i32) -> bool {
        value == self.value
    }

    open spec fn extra_is(&self, extra: (StatusSeverity, FixedCtrl<i32>)) -> bool {
        &&& extra.0 == self.status_severity
        &&& extra.1.units@ == epics_text(self.units@)
        &&& extra.1.limits == self.ctrl_limits
    }

    fn datatype() -> (code: i16) {
        DBR_CTRL_LONG
    }

    fn size_n(count: usize) -> (size: Option<usize>) {
        let values: usize = if count == 0 {
            1
        } else {
            count
        };
        if values > (usize::MAX - 44) / 4 {
            None
        } else {
            Some(44 + values * 4)
        }
    }

    fn decode(order: ByteOrder, buf: &[u8]) -> (record: Option<Self>) {
        if buf.len() < 48 {
            return None;
        }
        Some(
            dbr_ctrl_long {
                status_severity: StatusSeverity::read(order, buf, 0),
                units: read_units(buf, 4),
                ctrl_limits: CtrlLimits::<i32>::read(order, buf, 12),
                value: order.read_i32(buf, 44),
            },
        )
    }

    fn get_value(&self) -> (value: i32) {
        self.value
    }

    fn get_value_vec(order: ByteOrder, buf: &[u8], count: usize) -> (values: Option<Vec<i32>>) {
        if buf.len() < 44 || count > (buf.len() - 44) / 4 {
            return None;
        }
        Some(read_longs(order, buf, 44, count))
    }

    fn get_extra(&self) -> (extra: (StatusSeverity, FixedCtrl<i32>)) {
        (
            self.status_severity,
            FixedCtrl { units: from_epics_string(self.units.as_slice()), limits: self.ctrl_limits },
        )
    }

    proof fn lemma_value_is_first_slot(&self, order: ByteOrder, bytes: Seq<u8>, value: i32) {
    }

    proof fn lemma_slot_is_local(order: ByteOrder, bytes: Seq<u8>, at: int, value: i32) {
    }
}

impl DbrMap for i32 {
    type ValueDbr = dbr_long;

    type TimeDbr = dbr_time_long;

    type CtrlType = FixedCtrl<i32>;

    type CtrlDbr = dbr_ctrl_long;
}

} // verus!
