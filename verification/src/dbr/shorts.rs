//! Records of 16-bit integers.

use vstd::prelude::*;
use crate::byte_order::{ByteOrder, i16_at};
use crate::db_access::dbr_type_code::{DBR_CTRL_SHORT, DBR_SHORT, DBR_TIME_SHORT};
use crate::db_access::{
    CtrlLimits,
    EpicsTimeStamp,
    StatusSeverity,
    dbr_ctrl_short,
    dbr_short,
    dbr_time_short,
    read_units,
};
use crate::dbr::{
    Dbr,
    DbrMap,
    FixedCtrl,
    UnixTime,
    epics_text,
    from_epics_string,
    from_raw_stamp,
    read_shorts,
    stamp_time,
};

verus! {

impl Dbr for dbr_short {
    type ResultType = i16;

    type ExtraType = ();

    open spec fn datatype_code() -> i16 {
        DBR_SHORT
    }

    open spec fn value_offset() -> nat {
        0
    }

    open spec fn value_width() -> nat {
        2
    }

    open spec fn wire_holds(&self, order: ByteOrder, bytes: Seq<u8>) -> bool {
        self.value == i16_at(order, bytes, 0)
    }

    open spec fn slot_is(order: ByteOrder, bytes: Seq<u8>, at: int, value: i16) -> bool {
        value == i16_at(order, bytes, at)
    }

    open spec fn value_is(&self, value: i16) -> bool {
        value == self.value
    }

    open spec fn extra_is(&self, extra: ()) -> bool {
        true
    }

    fn datatype() -> (code: i16) {
        DBR_SHORT
    }

    fn size_n(count: usize) -> (size: Option<usize>) {
        let values: usize = if count == 0 {
            1
        } else {
            count
        };
        if values > usize::MAX / 2 {
            None
        } else {
            Some(values * 2)
        }
    }

    fn decode(order: ByteOrder, buf: &[u8]) -> (record: Option<Self>) {
        if buf.len() < 2 {
            return None;
        }
        Some(dbr_short { value: order.read_i16(buf, 0) })
    }

    fn get_value(&self) -> (value: i16) {
        self.value
    }

    fn get_value_vec(order: ByteOrder, buf: &[u8], count: usize) -> (values: Option<Vec<i16>>) {
        if count > buf.len() / 2 {
            return None;
        }
        Some(read_shorts(order, buf, 0, count))
    }

    fn get_extra(&self) -> (extra: ()) {
        ()
    }

    proof fn lemma_value_is_first_slot(&self, order: ByteOrder, bytes: Seq<u8>, value: i16) {
    }

    proof fn lemma_slot_is_local(order: ByteOrder, bytes: Seq<u8>, at: int, value: i16) {
    }
}

impl Dbr for dbr_time_short {
    type ResultType = i16;

    type ExtraType = (StatusSeverity, UnixTime);

    open spec fn datatype_code() -> i16 {
        DBR_TIME_SHORT
    }

    open spec fn value_offset() -> nat {
        14
    }

    open spec fn value_width() -> nat {
        2
    }

    open spec fn wire_holds(&self, order: ByteOrder, bytes: Seq<u8>) -> bool {
        &&& self.status_severity == StatusSeverity::at(order, bytes, 0)
        &&& self.raw_time == EpicsTimeStamp::at(order, bytes, 4)
        &&& self.value == i16_at(order, bytes, 14)
    }

    open spec fn slot_is(order: ByteOrder, bytes: Seq<u8>, at: int, value: i16) -> bool {
        value == i16_at(order, bytes, at)
    }

    open spec fn value_is(&self, value: i16) -> bool {
        value == self.value
    }

    open spec fn extra_is(&self, extra: (StatusSeverity, UnixTime)) -> bool {
        extra == (self.status_severity, stamp_time(self.raw_time))
    }

    fn datatype() -> (code: i16) {
        DBR_TIME_SHORT
    }

    fn size_n(count: usize) -> (size: Option<usize>) {
        let values: usize = if count == 0 {
            1
        } else {
            count
        };
        if values > (usize::MAX - 14) / 2 {
            None
        } else {
            Some(14 + values * 2)
        }
    }

    fn decode(order: ByteOrder, buf: &[u8]) -> (record: Option<Self>) {
        if buf.len() < 16 {
            return None;
        }
        Some(
            dbr_time_short {
                status_severity: StatusSeverity::read(order, buf, 0),
                raw_time: EpicsTimeStamp::read(order, buf, 4),
                value: order.read_i16(buf, 14),
            },
        )
    }

    fn get_value(&self) -> (value: i16) {
        self.value
    }

    fn get_value_vec(order: ByteOrder, buf: &[u8], count: usize) -> (values: Option<Vec<i16>>) {
        if buf.len() < 14 || count > (buf.len() - 14) / 2 {
            return None;
        }
        Some(read_shorts(order, buf, 14, count))
    }

    fn get_extra(&self) -> (extra: (StatusSeverity, UnixTime)) {
        (self.status_severity, from_raw_stamp(&self.raw_time))
    }

    proof fn lemma_value_is_first_slot(&self, order: ByteOrder, bytes: Seq<u8>, value: i16) {
    }

    proof fn lemma_slot_is_local(order: ByteOrder, bytes: Seq<u8>, at: int, value: i16) {
    }
}

impl Dbr for dbr_ctrl_short {
    type ResultType = i16;

    type ExtraType = (StatusSeverity, FixedCtrl<i16>);

    open spec fn datatype_code() -> i16 {
        DBR_CTRL_SHORT
    }

    open spec fn value_offset() -> nat {
        28
    }

    open spec fn value_width() -> nat {
        2
    }

    open spec fn wire_holds(&self, order: ByteOrder, bytes: Seq<u8>) -> bool {
        &&& self.status_severity == StatusSeverity::at(order, bytes, 0)
        &&& self.units@ == bytes.subrange(4, 12)
        &&& self.ctrl_limits == CtrlLimits::<i16>::at(order, bytes, 12)
        &&& self.value == i16_at(order, bytes, 28)
    }

    open spec fn slot_is(order: ByteOrder, bytes: Seq<u8>, at: int, value: i16) -> bool {
        value == i16_at(order, bytes, at)
    }

    open spec fn value_is(&self, value: i16) -> bool {
        value == self.value
    }

    open spec fn extra_is(&self, extra: (StatusSeverity, FixedCtrl<i16>)) -> bool {
        &&& extra.0 == self.status_severity
        &&& extra.1.units@ == epics_text(self.units@)
        &&& extra.1.limits == self.ctrl_limits
    }

    fn datatype() -> (code: i16) {
        DBR_CTRL_SHORT
    }

    fn size_n(count: usize) -> (size: Option<usize>) {
        let values: usize = if count == 0 {
            1
        } else {
            count
        };
        if values > (usize::MAX - 28) / 2 {
            None
        } else {
            Some(28 + values * 2)
        }
    }

    fn decode(order: ByteOrder, buf: &[u8]) -> (record: Option<Self>) {
        if buf.len() < 30 {
            return None;
        }
        Some(
            dbr_ctrl_short {
                status_severity: StatusSeverity::read(order, buf, 0),
                units: read_units(buf, 4),
                ctrl_limits: CtrlLimits::<i16>::read(order, buf, 12),
                value: order.read_i16(buf, 28),
            },
        )
    }

    fn get_value(&self) -> (value: i16) {
        self.value
    }

    fn get_value_vec(order: ByteOrder, buf: &[u8], count: usize) -> (values: Option<Vec<i16>>) {
        if buf.len() < 28 || count > (buf.len() - 28) / 2 {
            return None;
        }
        Some(read_shorts(order, buf, 28, count))
    }

    fn get_extra(&self) -> (extra: (StatusSeverity, FixedCtrl<i16>)) {
        (
            self.status_severity,
            FixedCtrl { units: from_epics_string(self.units.as_slice()), limits: self.ctrl_limits },
        )
    }

    proof fn lemma_value_is_first_slot(&self, order: ByteOrder, bytes: Seq<u8>, value: i16) {
    }

    proof fn lemma_slot_is_local(order: ByteOrder, bytes: Seq<u8>, at: int, value: i16) {
    }
}

impl DbrMap for i16 {
    type ValueDbr = dbr_short;

    type TimeDbr = dbr_time_short;

    type CtrlType = FixedCtrl<i16>;

    type CtrlDbr = dbr_ctrl_short;
}

} // verus!
