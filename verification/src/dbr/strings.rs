//! Records of text.

use vstd::prelude::*;
use crate::byte_order::{ByteOrder};
use crate::db_access::dbr_type_code::{DBR_STRING, DBR_TIME_STRING};
use crate::db_access::{EpicsString, EpicsTimeStamp, StatusSeverity, dbr_string, dbr_time_string};
use crate::dbr::{
    Dbr,
    DbrMap,
    UnixTime,
    epics_text,
    from_epics_string,
    from_raw_stamp,
    read_texts,
    stamp_time,
    text_at,
};

verus! {

impl Dbr for dbr_string {
    type ResultType = String;

    type ExtraType = ();

    open spec fn datatype_code() -> i16 {
        DBR_STRING
    }

    open spec fn value_offset() -> nat {
        0
    }

    open spec fn value_width() -> nat {
        40
    }

    open spec fn wire_holds(&self, order: ByteOrder, bytes: Seq<u8>) -> bool {
        self.value.0@ == bytes.subrange(0, 40)
    }

    open spec fn slot_is(order: ByteOrder, bytes: Seq<u8>, at: int, value: String) -> bool {
        value@ == text_at(bytes, at)
    }

    open spec fn value_is(&self, value: String) -> bool {
        value@ == epics_text(self.value.0@)
    }

    open spec fn extra_is(&self, extra: ()) -> bool {
        true
    }

    fn datatype() -> (code: i16) {
        DBR_STRING
    }

    fn size_n(count: usize) -> (size: Option<usize>) {
        let values: usize = if count == 0 {
            1
        } else {
            count
        };
        if values > usize::MAX / 40 {
            None
        } else {
            Some(values * 40)
        }
    }

    fn decode(order: ByteOrder, buf: &[u8]) -> (record: Option<Self>) {
        if buf.len() < 40 {
            return None;
        }
        Some(dbr_string { value: EpicsString::read(buf, 0) })
    }

    fn get_value(&self) -> (value: String) {
        from_epics_string(self.value.0.as_slice())
    }

    fn get_value_vec(order: ByteOrder, buf: &[u8], count: usize) -> (values: Option<Vec<String>>) {
        if count > buf.len() / 40 {
            return None;
        }
        Some(read_texts(buf, 0, count))
    }

    fn get_extra(&self) -> (extra: ()) {
        ()
    }

    proof fn lemma_value_is_first_slot(&self, order: ByteOrder, bytes: Seq<u8>, value: String) {
    }

    proof fn lemma_slot_is_local(order: ByteOrder, bytes: Seq<u8>, at: int, value: String) {
        assert(bytes.subrange(at, at + 40).subrange(0, 40) == bytes.subrange(at, at + 40));
    }
}

impl Dbr for dbr_time_string {
    type ResultType = String;

    type ExtraType = (StatusSeverity, UnixTime);

    open spec fn datatype_code() -> i16 {
        DBR_TIME_STRING
    }

    open spec fn value_offset() -> nat {
        12
    }

    open spec fn value_width() -> nat {
        40
    }

    open spec fn wire_holds(&self, order: ByteOrder, bytes: Seq<u8>) -> bool {
        &&& self.status_severity == StatusSeverity::at(order, bytes, 0)
        &&& self.raw_time == EpicsTimeStamp::at(order, bytes, 4)
        &&& self.value.0@ == bytes.subrange(12, 52)
    }

    open spec fn slot_is(order: ByteOrder, bytes: Seq<u8>, at: int, value: String) -> bool {
        value@ == text_at(bytes, at)
    }

    open spec fn value_is(&self, value: String) -> bool {
        value@ == epics_text(self.value.0@)
    }

    open spec fn extra_is(&self, extra: (StatusSeverity, UnixTime)) -> bool {
        extra == (self.status_severity, stamp_time(self.raw_time))
    }

    fn datatype() -> (code: i16) {
        DBR_TIME_STRING
    }

    fn size_n(count: usize) -> (size: Option<usize>) {
        let values: usize = if count == 0 {
            1
        } else {
            count
        };
        if values > (usize::MAX - 12) / 40 {
            None
        } else {
            Some(12 + values * 40)
        }
    }

    fn decode(order: ByteOrder, buf: &[u8]) -> (record: Option<Self>) {
        if buf.len() < 52 {
            return None;
        }
        Some(
            dbr_time_string {
                status_severity: StatusSeverity::read(order, buf, 0),
                raw_time: EpicsTimeStamp::read(order, buf, 4),
                value: EpicsString::read(buf, 12),
            },
        )
    }

    fn get_value(&self) -> (value: String) {
        from_epics_string(self.value.0.as_slice())
    }

    fn get_value_vec(order: ByteOrder, buf: &[u8], count: usize) -> (values: Option<Vec<String>>) {
        if buf.len() < 12 || count > (buf.len() - 12) / 40 {
            return None;
        }
        Some(read_texts(buf, 12, count))
    }

    fn get_extra(&self) -> (extra: (StatusSeverity, UnixTime)) {
        (self.status_severity, from_raw_stamp(&self.raw_time))
    }

    proof fn lemma_value_is_first_slot(&self, order: ByteOrder, bytes: Seq<u8>, value: String) {
    }

    proof fn lemma_slot_is_local(order: ByteOrder, bytes: Seq<u8>, at: int, value: String) {
        assert(bytes.subrange(at, at + 40).subrange(0, 40) == bytes.subrange(at, at + 40));
    }
}

impl DbrMap for String {
    type ValueDbr = dbr_string;

    type TimeDbr = dbr_time_string;

    type CtrlType = UnixTime;

    type CtrlDbr = dbr_time_string;
}

} // verus!
