//! Values whose type is known only once a channel is connected.
//!
//! A caller that does not fix the type of a result gets it as one of seven
//! variants, chosen by the type that the channel reported when it connected.

use vstd::prelude::*;
use vstd::utf8::{decode_utf8, valid_utf8};
use crate::byte_order::ByteOrder;
use crate::caget::CA;
use crate::db_access::dbr_type_code::{
    DBR_CHAR,
    DBR_DOUBLE,
    DBR_ENUM,
    DBR_FLOAT,
    DBR_LONG,
    DBR_SHORT,
    DBR_STRING,
};
use crate::db_access::{
    DoubleBits,
    FloatBits,
    dbr_char,
    dbr_double,
    dbr_enum,
    dbr_float,
    dbr_long,
    dbr_short,
    dbr_string,
};
use crate::dbr::{CaEnum, Dbr, FixedCtrl, FloatCtrl, UnixTime, text_end};

mod shapes;

verus! {

/// The seven basic types of a process variable's value.
#[derive(Clone, Copy, Debug, PartialEq, Eq, Structural)]
pub enum BasicDbrType {
    DbrString,
    DbrEnum,
    DbrChar,
    DbrShort,
    DbrLong,
    DbrFloat,
    DbrDouble,
}

impl BasicDbrType {
    /// The code by which the bus names the bare layout of this type.
    pub open spec fn code(self) -> i16 {
        match self {
            BasicDbrType::DbrString => DBR_STRING,
            BasicDbrType::DbrEnum => DBR_ENUM,
            BasicDbrType::DbrChar => DBR_CHAR,
            BasicDbrType::DbrShort => DBR_SHORT,
            BasicDbrType::DbrLong => DBR_LONG,
            BasicDbrType::DbrFloat => DBR_FLOAT,
            BasicDbrType::DbrDouble => DBR_DOUBLE,
        }
    }

    /// The number of bytes that one value of this type takes in a buffer.
    pub open spec fn width(self) -> nat {
        match self {
            BasicDbrType::DbrString => 40,
            BasicDbrType::DbrEnum => 2,
            BasicDbrType::DbrChar => 1,
            BasicDbrType::DbrShort => 2,
            BasicDbrType::DbrLong => 4,
            BasicDbrType::DbrFloat => 4,
            BasicDbrType::DbrDouble => 8,
        }
    }
}

/// The basic type that a field type code names, if it names one.
pub open spec fn field_type_of(field_type: i16) -> Option<BasicDbrType> {
    if field_type == DBR_STRING {
        Some(BasicDbrType::DbrString)
    } else if field_type == DBR_ENUM {
        Some(BasicDbrType::DbrEnum)
    } else if field_type == DBR_CHAR {
        Some(BasicDbrType::DbrChar)
    } else if field_type == DBR_SHORT {
        Some(BasicDbrType::DbrShort)
    } else if field_type == DBR_LONG {
        Some(BasicDbrType::DbrLong)
    } else if field_type == DBR_FLOAT {
        Some(BasicDbrType::DbrFloat)
    } else if field_type == DBR_DOUBLE {
        Some(BasicDbrType::DbrDouble)
    } else {
        None
    }
}

/// Maps the field type code that the bus reports for a channel to a basic
/// type. Any other code, such as the one that the bus reports for a channel
/// that is no longer connected, gives `None`.
pub fn get_field_type(field_type: i16) -> (basic: Option<BasicDbrType>)
    ensures
        basic == field_type_of(field_type),
        basic is Some <==> 0 <= field_type <= 6,
        basic matches Some(t) ==> t.code() == field_type,
{
    if field_type == DBR_STRING {
        Some(BasicDbrType::DbrString)
    } else if field_type == DBR_ENUM {
        Some(BasicDbrType::DbrEnum)
    } else if field_type == DBR_CHAR {
        Some(BasicDbrType::DbrChar)
    } else if field_type == DBR_SHORT {
        Some(BasicDbrType::DbrShort)
    } else if field_type == DBR_LONG {
        Some(BasicDbrType::DbrLong)
    } else if field_type == DBR_FLOAT {
        Some(BasicDbrType::DbrFloat)
    } else if field_type == DBR_DOUBLE {
        Some(BasicDbrType::DbrDouble)
    } else {
        None
    }
}

/// Every basic type is the one that its code names, and no other code names
/// it.
pub proof fn lemma_code_names_its_type(datatype: BasicDbrType, field_type: i16)
    ensures
        field_type_of(datatype.code()) == Some(datatype),
        field_type_of(field_type) == Some(datatype) <==> field_type == datatype.code(),
{
}

/// One value, of whichever type the channel has.
#[derive(Clone, Debug, PartialEq)]
pub enum CaUnion {
    CaString(String),
    CaEnum(CaEnum),
    CaChar(u8),
    CaShort(i16),
    CaLong(i32),
    CaFloat(FloatBits),
    CaDouble(DoubleBits),
}

/// A run of values, of whichever type the channel has.
#[derive(Clone, Debug, PartialEq)]
pub enum CaUnionVec {
    CaString(Vec<String>),
    CaEnum(Vec<CaEnum>),
    CaChar(Vec<u8>),
    CaShort(Vec<i16>),
    CaLong(Vec<i32>),
    CaFloat(Vec<FloatBits>),
    CaDouble(Vec<DoubleBits>),
}

/// One value with the control information that belongs to its type.
#[derive(Debug, PartialEq)]
pub enum CaUnionCtrl {
    CaString(String, UnixTime),
    CaEnum(CaEnum, Vec<String>),
    CaChar(u8, FixedCtrl<u8>),
    CaShort(i16, FixedCtrl<i16>),
    CaLong(i32, FixedCtrl<i32>),
    CaFloat(FloatBits, FloatCtrl<FloatBits>),
    CaDouble(DoubleBits, FloatCtrl<DoubleBits>),
}

/// A run of values with the control information that belongs to their type.
#[derive(Debug, PartialEq)]
pub enum CaUnionCtrlVec {
    CaString(Vec<String>, UnixTime),
    CaEnum(Vec<CaEnum>, Vec<String>),
    CaChar(Vec<u8>, FixedCtrl<u8>),
    CaShort(Vec<i16>, FixedCtrl<i16>),
    CaLong(Vec<i32>, FixedCtrl<i32>),
    CaFloat(Vec<FloatBits>, FloatCtrl<FloatBits>),
    CaDouble(Vec<DoubleBits>, FloatCtrl<DoubleBits>),
}

impl CaUnion {
    /// The basic type of the value.
    pub open spec fn datatype(self) -> BasicDbrType {
        match self {
            CaUnion::CaString(_) => BasicDbrType::DbrString,
            CaUnion::CaEnum(_) => BasicDbrType::DbrEnum,
            CaUnion::CaChar(_) => BasicDbrType::DbrChar,
            CaUnion::CaShort(_) => BasicDbrType::DbrShort,
            CaUnion::CaLong(_) => BasicDbrType::DbrLong,
            CaUnion::CaFloat(_) => BasicDbrType::DbrFloat,
            CaUnion::CaDouble(_) => BasicDbrType::DbrDouble,
        }
    }

    /// Whether the value is the zero of its type: the number zero, the first
    /// enumeration state, the bit pattern of positive zero, the empty text.
    pub open spec fn is_zero(self) -> bool {
        match self {
            CaUnion::CaString(text) => text@.len() == 0,
            CaUnion::CaEnum(state) => state.0 == 0,
            CaUnion::CaChar(value) => value == 0,
            CaUnion::CaShort(value) => value == 0,
            CaUnion::CaLong(value) => value == 0,
            CaUnion::CaFloat(bits) => bits.0 == 0,
            CaUnion::CaDouble(bits) => bits.0 == 0,
        }
    }
}

impl CaUnionVec {
    /// The basic type of the values.
    pub open spec fn datatype(self) -> BasicDbrType {
        match self {
            CaUnionVec::CaString(_) => BasicDbrType::DbrString,
            CaUnionVec::CaEnum(_) => BasicDbrType::DbrEnum,
            CaUnionVec::CaChar(_) => BasicDbrType::DbrChar,
            CaUnionVec::CaShort(_) => BasicDbrType::DbrShort,
            CaUnionVec::CaLong(_) => BasicDbrType::DbrLong,
            CaUnionVec::CaFloat(_) => BasicDbrType::DbrFloat,
            CaUnionVec::CaDouble(_) => BasicDbrType::DbrDouble,
        }
    }

    /// The number of values.
    pub open spec fn len(self) -> nat {
        match self {
            CaUnionVec::CaString(values) => values@.len(),
            CaUnionVec::CaEnum(values) => values@.len(),
            CaUnionVec::CaChar(values) => values@.len(),
            CaUnionVec::CaShort(values) => values@.len(),
            CaUnionVec::CaLong(values) => values@.len(),
            CaUnionVec::CaFloat(values) => values@.len(),
            CaUnionVec::CaDouble(values) => values@.len(),
        }
    }

    /// The value at position `i`.
    pub open spec fn element(self, i: int) -> CaUnion {
        match self {
            CaUnionVec::CaString(values) => CaUnion::CaString(values@[i]),
            CaUnionVec::CaEnum(values) => CaUnion::CaEnum(values@[i]),
            CaUnionVec::CaChar(values) => CaUnion::CaChar(values@[i]),
            CaUnionVec::CaShort(values) => CaUnion::CaShort(values@[i]),
            CaUnionVec::CaLong(values) => CaUnion::CaLong(values@[i]),
            CaUnionVec::CaFloat(values) => CaUnion::CaFloat(values@[i]),
            CaUnionVec::CaDouble(values) => CaUnion::CaDouble(values@[i]),
        }
    }
}

/// A buffer of zero bytes, as wide as one value, reads as the zero of each
/// type.
pub proof fn lemma_zero_buffer_reads_as_zero(
    order: ByteOrder,
    datatype: BasicDbrType,
    bytes: Seq<u8>,
    value: CaUnion,
)
    requires
        bytes.len() == datatype.width(),
        forall|i: int| 0 <= i < bytes.len() ==> bytes[i] == 0,
        <CaUnion as CA>::response_is(order, datatype, bytes, 1, value),
    ensures
        <CaUnion as CA>::fits(datatype, bytes, 1),
        value.datatype() == datatype,
        value.is_zero(),
{
    match value {
        CaUnion::CaString(text) => {
            let slot = bytes.subrange(0, 40);
            assert(text_end(slot) == 0);
            assert(slot.subrange(0, 0).len() == 0);
            assert(valid_utf8(slot.subrange(0, 0)));
            assert(decode_utf8(slot.subrange(0, 0)).len() == 0);
        },
        _ => {},
    }
}

/// A run of values that is read from a buffer has as many values as were
/// asked for, and each of them is what reading one value gives on the bytes
/// of its own slot.
pub proof fn lemma_vector_elements_are_values(
    order: ByteOrder,
    datatype: BasicDbrType,
    bytes: Seq<u8>,
    count: nat,
    values: CaUnionVec,
    i: int,
)
    requires
        <CaUnionVec as CA>::fits(datatype, bytes, count),
        <CaUnionVec as CA>::response_is(order, datatype, bytes, count, values),
        0 <= i < count,
    ensures
        values.len() == count,
        values.datatype() == datatype,
        <CaUnion as CA>::fits(
            datatype,
            bytes.subrange(i * datatype.width(), i * datatype.width() + datatype.width()),
            1,
        ),
        <CaUnion as CA>::response_is(
            order,
            datatype,
            bytes.subrange(i * datatype.width(), i * datatype.width() + datatype.width()),
            1,
            values.element(i),
        ),
{
    match values {
        CaUnionVec::CaString(texts) => {
            assert(i * 40 + 40 <= bytes.len());
            assert(bytes.subrange(i * 40, i * 40 + 40).len() == 40);
            dbr_string::lemma_slot_is_local(order, bytes, i * 40, texts@[i]);
        },
        CaUnionVec::CaEnum(states) => {
            assert(i * 2 + 2 <= bytes.len());
            assert(bytes.subrange(i * 2, i * 2 + 2).len() == 2);
            dbr_enum::lemma_slot_is_local(order, bytes, i * 2, states@[i]);
        },
        CaUnionVec::CaChar(numbers) => {
            assert(i + 1 <= bytes.len());
            assert(bytes.subrange(i, i + 1).len() == 1);
            dbr_char::lemma_slot_is_local(order, bytes, i, numbers@[i]);
        },
        CaUnionVec::CaShort(numbers) => {
            assert(i * 2 + 2 <= bytes.len());
            assert(bytes.subrange(i * 2, i * 2 + 2).len() == 2);
            dbr_short::lemma_slot_is_local(order, bytes, i * 2, numbers@[i]);
        },
        CaUnionVec::CaLong(numbers) => {
            assert(i * 4 + 4 <= bytes.len());
            assert(bytes.subrange(i * 4, i * 4 + 4).len() == 4);
            dbr_long::lemma_slot_is_local(order, bytes, i * 4, numbers@[i]);
        },
        CaUnionVec::CaFloat(numbers) => {
            assert(i * 4 + 4 <= bytes.len());
            assert(bytes.subrange(i * 4, i * 4 + 4).len() == 4);
            dbr_float::lemma_slot_is_local(order, bytes, i * 4, numbers@[i]);
        },
        CaUnionVec::CaDouble(numbers) => {
            assert(i * 8 + 8 <= bytes.len());
            assert(bytes.subrange(i * 8, i * 8 + 8).len() == 8);
            dbr_double::lemma_slot_is_local(order, bytes, i * 8, numbers@[i]);
        },
    }
}

} // verus!
