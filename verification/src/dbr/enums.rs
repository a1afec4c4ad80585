//! Records of enumerations.

use vstd::prelude::*;
use crate::byte_order::{ByteOrder, i16_at, u16_at};
use crate::db_access::dbr_type_code::{DBR_CTRL_ENUM, DBR_ENUM, DBR_TIME_ENUM};
use crate::db_access::{
    EpicsTimeStamp,
    StatusSeverity,
    dbr_ctrl_enum,
    dbr_enum,
    dbr_time_enum,
    labels_at,
    read_labels,
};
use crate::dbr::{
    CaEnum,
    Dbr,
    DbrMap,
    UnixTime,
    enum_at,
    epics_text,
    from_raw_stamp,
    label_count,
    read_enums,
    read_label_texts,
    stamp_time,
};

verus! {

impl Dbr for dbr_enum {
    type ResultType = CaEnum;

    type ExtraType = ();

    open spec fn datatype_code() -> i16 {
        DBR_ENUM
    }

    open spec fn value_offset() -> nat {
        0
    }

    open spec fn value_width() -> nat {
        2
    }

    open spec fn wire_holds(&self, order: ByteOrder, bytes: Seq<u8>) -> bool {
        self.value == u16_at(order, bytes, 0)
    }

    open spec fn slot_is(order: ByteOrder, bytes: Seq<u8>, at: int, value: CaEnum) -> bool {
        value == enum_at(order, bytes, at)
    }

    open spec fn value_is(&self, value: CaEnum) -> bool {
        value == CaEnum(self.value)
    }

    open spec fn extra_is(&self, extra: ()) -> bool {
        true
    }

    fn datatype() -> (code: i16) {
        DBR_ENUM
    }

    fn size_n(count: usize) -> (size: Option<usize>) {
        let values: usize = if count == 0 {
            1
        } else {
            count
        };
        if values > usize::MAX / 2 {
            None
        } else {
            Some(values * 2)
        }
    }

    fn decode(order: ByteOrder, buf: &[u8]) -> (record: Option<Self>) {
        if buf.len() < 2 {
            return None;
        }
        Some(dbr_enum { value: order.read_u16(buf, 0) })
    }

    fn get_value(&self) -> (value: CaEnum) {
        CaEnum(self.value)
    }

    fn get_value_vec(order: ByteOrder, buf: &[u8], count: usize) -> (values: Option<Vec<CaEnum>>) {
        if count > buf.len() / 2 {
            return None;
        }
        Some(read_enums(order, buf, 0, count))
    }

    fn get_extra(&self) -> (extra: ()) {
        ()
    }

    proof fn lemma_value_is_first_slot(&self, order: ByteOrder, bytes: Seq<u8>, value: CaEnum) {
    }

    proof fn lemma_slot_is_local(order: ByteOrder, bytes: Seq<u8>, at: int, value: CaEnum) {
    }
}

impl Dbr for dbr_time_enum {
    type ResultType = CaEnum;

    type ExtraType = (StatusSeverity, UnixTime);

    open spec fn datatype_code() -> i16 {
        DBR_TIME_ENUM
    }

    open spec fn value_offset() -> nat {
        14
    }

    open spec fn value_width() -> nat {
        2
    }

    open spec fn wire_holds(&self, order: ByteOrder, bytes: Seq<u8>) -> bool {
        &&& self.status_severity == StatusSeverity::at(order, bytes, 0)
        &&& self.raw_time == EpicsTimeStamp::at(order, bytes, 4)
        &&& self.value == u16_at(order, bytes, 14)
    }

    open spec fn slot_is(order: ByteOrder, bytes: Seq<u8>, at: int, value: CaEnum) -> bool {
        value == enum_at(order, bytes, at)
    }

    open spec fn value_is(&self, value: CaEnum) -> bool {
        value == CaEnum(self.value)
    }

    open spec fn extra_is(&self, extra: (StatusSeverity, UnixTime)) -> bool {
        extra == (self.status_severity, stamp_time(self.raw_time))
    }

    fn datatype() -> (code: i16) {
        DBR_TIME_ENUM
    }

    fn size_n(count: usize) -> (size: Option<usize>) {
        let values: usize = if count == 0 {
            1
        } else {
            count
        };
        if values > (usize::MAX - 14) / 2 {
            None
        } else {
            Some(14 + values * 2)
        }
    }

    fn decode(order: ByteOrder, buf: &[u8]) -> (record: Option<Self>) {
        if buf.len() < 16 {
            return None;
        }
        Some(
            dbr_time_enum {
                status_severity: StatusSeverity::read(order, buf, 0),
                raw_time: EpicsTimeStamp::read(order, buf, 4),
                value: order.read_u16(buf, 14),
            },
        )
    }

    fn get_value(&self) -> (value: CaEnum) {
        CaEnum(self.value)
    }

    fn get_value_vec(order: ByteOrder, buf: &[u8], count: usize) -> (values: Option<Vec<CaEnum>>) {
        if buf.len() < 14 || count > (buf.len() - 14) / 2 {
            return None;
        }
        Some(read_enums(order, buf, 14, count))
    }

    fn get_extra(&self) -> (extra: (StatusSeverity, UnixTime)) {
        (self.status_severity, from_raw_stamp(&self.raw_time))
    }

    proof fn lemma_value_is_first_slot(&self, order: ByteOrder, bytes: Seq<u8>, value: CaEnum) {
    }

    proof fn lemma_slot_is_local(order: ByteOrder, bytes: Seq<u8>, at: int, value: CaEnum) {
    }
}

impl Dbr for dbr_ctrl_enum {
    type ResultType = CaEnum;

    type ExtraType = (StatusSeverity, Vec<String>);

    open spec fn datatype_code() -> i16 {
        DBR_CTRL_ENUM
    }

    open spec fn value_offset() -> nat {
        422
    }

    open spec fn value_width() -> nat {
        2
    }

    open spec fn wire_holds(&self, order: ByteOrder, bytes: Seq<u8>) -> bool {
        &&& self.status_severity == StatusSeverity::at(order, bytes, 0)
        &&& self.enum_count == i16_at(order, bytes, 4)
        &&& labels_at(self.strings, bytes, 6)
        &&& self.value == u16_at(order, bytes, 422)
    }

    open spec fn slot_is(order: ByteOrder, bytes: Seq<u8>, at: int, value: CaEnum) -> bool {
        value == enum_at(order, bytes, at)
    }

    open spec fn value_is(&self, value: CaEnum) -> bool {
        value == CaEnum(self.value)
    }

    open spec fn extra_is(&self, extra: (StatusSeverity, Vec<String>)) -> bool {
        &&& extra.0 == self.status_severity
        &&& extra.1@.len() == label_count(self.enum_count)
        &&& forall|i: int|
            0 <= i < label_count(self.enum_count) ==> (#[trigger] extra.1@[i])@ == epics_text(
                self.strings@[i]@,
            )
    }

    fn datatype() -> (code: i16) {
        DBR_CTRL_ENUM
    }

    fn size_n(count: usize) -> (size: Option<usize>) {
        let values: usize = if count == 0 {
            1
        } else {
            count
        };
        if values > (usize::MAX - 422) / 2 {
            None
        } else {
            Some(422 + values * 2)
        }
    }

    fn decode(order: ByteOrder, buf: &[u8]) -> (record: Option<Self>) {
        if buf.len() < 424 {
            return None;
        }
        Some(
            dbr_ctrl_enum {
                status_severity: StatusSeverity::read(order, buf, 0),
                enum_count: order.read_i16(buf, 4),
                strings: read_labels(buf, 6),
                value: order.read_u16(buf, 422),
            },
        )
    }

    fn get_value(&self) -> (value: CaEnum) {
        CaEnum(self.value)
    }

    fn get_value_vec(order: ByteOrder, buf: &[u8], count: usize) -> (values: Option<Vec<CaEnum>>) {
        if buf.len() < 422 || count > (buf.len() - 422) / 2 {
            return None;
        }
        Some(read_enums(order, buf, 422, count))
    }

    fn get_extra(&self) -> (extra: (StatusSeverity, Vec<String>)) {
        (self.status_severity, read_label_texts(&self.strings, self.enum_count))
    }

    proof fn lemma_value_is_first_slot(&self, order: ByteOrder, bytes: Seq<u8>, value: CaEnum) {
    }

    proof fn lemma_slot_is_local(order: ByteOrder, bytes: Seq<u8>, at: int, value: CaEnum) {
    }
}

impl DbrMap for CaEnum {
    type ValueDbr = dbr_enum;

    type TimeDbr = dbr_time_enum;

    type CtrlType = Vec<String>;

    type CtrlDbr = dbr_ctrl_enum;
}

} // verus!
