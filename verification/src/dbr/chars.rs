//! Records of one-byte integers.

use vstd::prelude::*;
use crate::byte_order::{ByteOrder};
use crate::db_access::dbr_type_code::{DBR_CHAR, DBR_CTRL_CHAR, DBR_TIME_CHAR};
use crate::db_access::{
    CtrlLimits,
    EpicsTimeStamp,
    StatusSeverity,
    dbr_char,
    dbr_ctrl_char,
    dbr_time_char,
    read_units,
};
use crate::dbr::{
    Dbr,
    DbrMap,
    FixedCtrl,
    UnixTime,
    epics_text,
    from_epics_string,
    from_raw_stamp,
    read_chars,
    stamp_time,
};

verus! {

impl Dbr for dbr_char {
    type ResultType = u8;

    type ExtraType = ();

    open spec fn datatype_code() -> i16 {
        DBR_CHAR
    }

    open spec fn value_offset() -> nat {
        0
    }

    open spec fn value_width() -> nat {
        1
    }

    open spec fn wire_holds(&self, order: ByteOrder, bytes: Seq<u8>) -> bool {
        self.value == bytes[0]
    }

    open spec fn slot_is(order: ByteOrder, bytes: Seq<u8>, at: int, value: u8) -> bool {
        value == bytes[at]
    }

    open spec fn value_is(&self, value: u8) -> bool {
        value == self.value
    }

    open spec fn extra_is(&self, extra: ()) -> bool {
        true
    }

    fn datatype() -> (code: i16) {
        DBR_CHAR
    }

    fn size_n(count: usize) -> (size: Option<usize>) {
        let values: usize = if count == 0 {
            1
        } else {
            count
        };
        Some(values)
    }

    fn decode(order: ByteOrder, buf: &[u8]) -> (record: Option<Self>) {
        if buf.len() < 1 {
            return None;
        }
        Some(dbr_char { value: buf[0] })
    }

    fn get_value(&self) -> (value: u8) {
        self.value
    }

    fn get_value_vec(order: ByteOrder, buf: &[u8], count: usize) -> (values: Option<Vec<u8>>) {
        if count > buf.len() {
            return None;
        }
        Some(read_chars(buf, 0, count))
    }

    fn get_extra(&self) -> (extra: ()) {
        ()
    }

    proof fn lemma_value_is_first_slot(&self, order: ByteOrder, bytes: Seq<u8>, value: u8) {
    }

    proof fn lemma_slot_is_local(order: ByteOrder, bytes: Seq<u8>, at: int, value: u8) {
    }
}

impl Dbr for dbr_time_char {
    type ResultType = u8;

    type ExtraType = (StatusSeverity, UnixTime);

    open spec fn datatype_code() -> i16 {
        DBR_TIME_CHAR
    }

    open spec fn value_offset() -> nat {
        15
    }

    open spec fn value_width() -> nat {
        1
    }

    open spec fn wire_holds(&self, order: ByteOrder, bytes: Seq<u8>) -> bool {
        &&& self.status_severity == StatusSeverity::at(order, bytes, 0)
        &&& self.raw_time == EpicsTimeStamp::at(order, bytes, 4)
        &&& self.value == bytes[15]
    }

    open spec fn slot_is(order: ByteOrder, bytes: Seq<u8>, at: int, value: u8) -> bool {
        value == bytes[at]
    }

    open spec fn value_is(&self, value: u8) -> bool {
        value == self.value
    }

    open spec fn extra_is(&self, extra: (StatusSeverity, UnixTime)) -> bool {
        extra == (self.status_severity, stamp_time(self.raw_time))
    }

    fn datatype() -> (code: i16) {
        DBR_TIME_CHAR
    }

    fn size_n(count: usize) -> (size: Option<usize>) {
        let values: usize = if count == 0 {
            1
        } else {
            count
        };
        if values > usize::MAX - 15 {
            None
        } else {
            Some(15 + values)
        }
    }

    fn decode(order: ByteOrder, buf: &[u8]) -> (record: Option<Self>) {
        if buf.len() < 16 {
            return None;
        }
        Some(
            dbr_time_char {
                status_severity: StatusSeverity::read(order, buf, 0),
                raw_time: EpicsTimeStamp::read(order, buf, 4),
                value: buf[15],
            },
        )
    }

    fn get_value(&self) -> (value: u8) {
        self.value
    }

    fn get_value_vec(order: ByteOrder, buf: &[u8], count: usize) -> (values: Option<Vec<u8>>) {
        if buf.len() < 15 || count > buf.len() - 15 {
            return None;
        }
        Some(read_chars(buf, 15, count))
    }

    fn get_extra(&self) -> (extra: (StatusSeverity, UnixTime)) {
        (self.status_severity, from_raw_stamp(&self.raw_time))
    }

    proof fn lemma_value_is_first_slot(&self, order: ByteOrder, bytes: Seq<u8>, value: u8) {
    }

    proof fn lemma_slot_is_local(order: ByteOrder, bytes: Seq<u8>, at: int, value: u8) {
    }
}

impl Dbr for dbr_ctrl_char {
    type ResultType = u8;

    type ExtraType = (StatusSeverity, FixedCtrl<u8>);

    open spec fn datatype_code() -> i16 {
        DBR_CTRL_CHAR
    }

    open spec fn value_offset() -> nat {
        21
    }

    open spec fn value_width() -> nat {
        1
    }

    open spec fn wire_holds(&self, order: ByteOrder, bytes: Seq<u8>) -> bool {
        &&& self.status_severity == StatusSeverity::at(order, bytes, 0)
        &&& self.units@ == bytes.subrange(4, 12)
        &&& self.ctrl_limits == CtrlLimits::<u8>::at(order, bytes, 12)
        &&& self.value == bytes[21]
    }

    open spec fn slot_is(order: ByteOrder, bytes: Seq<u8>, at: int, value: u8) -> bool {
        value == bytes[at]
    }

    open spec fn value_is(&self, value: u8) -> bool {
        value == self.value
    }

    open spec fn extra_is(&self, extra: (StatusSeverity, FixedCtrl<u8>)) -> bool {
        &&& extra.0 == self.status_severity
        &&& extra.1.units@ == epics_text(self.units@)
        &&& extra.1.limits == self.ctrl_limits
    }

    fn datatype() -> (code: i16) {
        DBR_CTRL_CHAR
    }

    fn size_n(count: usize) -> (size: Option<usize>) {
        let values: usize = if count == 0 {
            1
        } else {
            count
        };
        if values > usize::MAX - 21 {
            None
        } else {
            Some(21 + values)
        }
    }

    fn decode(order: ByteOrder, buf: &[u8]) -> (record: Option<Self>) {
        if buf.len() < 22 {
            return None;
        }
        Some(
            dbr_ctrl_char {
                status_severity: StatusSeverity::read(order, buf, 0),
                units: read_units(buf, 4),
                ctrl_limits: CtrlLimits::<u8>::read(order, buf, 12),
                value: buf[21],
            },
        )
    }

    fn get_value(&self) -> (value: u8) {
        self.value
    }

    fn get_value_vec(order: ByteOrder, buf: &[u8], count: usize) -> (values: Option<Vec<u8>>) {
        if buf.len() < 21 || count > buf.len() - 21 {
            return None;
        }
        Some(read_chars(buf, 21, count))
    }

    fn get_extra(&self) -> (extra: (StatusSeverity, FixedCtrl<u8>)) {
        (
            self.status_severity,
            FixedCtrl { units: from_epics_string(self.units.as_slice()), limits: self.ctrl_limits },
        )
    }

    proof fn lemma_value_is_first_slot(&self, order: ByteOrder, bytes: Seq<u8>, value: u8) {
    }

    proof fn lemma_slot_is_local(order: ByteOrder, bytes: Seq<u8>, at: int, value: u8) {
    }
}

impl DbrMap for u8 {
    type ValueDbr = dbr_char;

    type TimeDbr = dbr_time_char;

    type CtrlType = FixedCtrl<u8>;

    type CtrlDbr = dbr_ctrl_char;
}

} // verus!
