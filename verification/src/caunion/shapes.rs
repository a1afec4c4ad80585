//! The shapes of result whose type follows the channel: for each, the read
//! to issue and the reading of the response, by the type of the channel's
//! values.

use vstd::prelude::*;
use crate::byte_order::ByteOrder;
use crate::caget::{CA, CaCtrl, CaGetCore, ReadRequest};
use crate::caunion::{BasicDbrType, CaUnion, CaUnionCtrl, CaUnionCtrlVec, CaUnionVec};
use crate::db_access::{DoubleBits, FloatBits, StatusSeverity};
use crate::dbr::{CaEnum, DbrMap, UnixTime};

verus! {

/// A value or a run of values with status, severity and time.
type Timed<V> = (V, StatusSeverity, UnixTime);

/// A value or a run of values of type `T` with status, severity and the
/// control information that belongs to `T`.
type WithCtrl<V, T> = (V, StatusSeverity, CaCtrl<<T as DbrMap>::CtrlType>);

/// One value of the channel's type.
impl CA for CaUnion {
    open spec fn request_of(datatype: BasicDbrType) -> ReadRequest {
        match datatype {
            BasicDbrType::DbrString => <String as CaGetCore>::request_of(),
            BasicDbrType::DbrEnum => <CaEnum as CaGetCore>::request_of(),
            BasicDbrType::DbrChar => <u8 as CaGetCore>::request_of(),
            BasicDbrType::DbrShort => <i16 as CaGetCore>::request_of(),
            BasicDbrType::DbrLong => <i32 as CaGetCore>::request_of(),
            BasicDbrType::DbrFloat => <FloatBits as CaGetCore>::request_of(),
            BasicDbrType::DbrDouble => <DoubleBits as CaGetCore>::request_of(),
        }
    }

    open spec fn fits(datatype: BasicDbrType, bytes: Seq<u8>, count: nat) -> bool {
        match datatype {
            BasicDbrType::DbrString => <String as CaGetCore>::fits(bytes, count),
            BasicDbrType::DbrEnum => <CaEnum as CaGetCore>::fits(bytes, count),
            BasicDbrType::DbrChar => <u8 as CaGetCore>::fits(bytes, count),
            BasicDbrType::DbrShort => <i16 as CaGetCore>::fits(bytes, count),
            BasicDbrType::DbrLong => <i32 as CaGetCore>::fits(bytes, count),
            BasicDbrType::DbrFloat => <FloatBits as CaGetCore>::fits(bytes, count),
            BasicDbrType::DbrDouble => <DoubleBits as CaGetCore>::fits(bytes, count),
        }
    }

    open spec fn response_is(
        order: ByteOrder,
        datatype: BasicDbrType,
        bytes: Seq<u8>,
        count: nat,
        result: Self,
    ) -> bool {
        match result {
            CaUnion::CaString(value) => {
                &&& datatype == BasicDbrType::DbrString
                &&& <String as CaGetCore>::response_is(order, bytes, count, value)
            },
            CaUnion::CaEnum(value) => {
                &&& datatype == BasicDbrType::DbrEnum
                &&& <CaEnum as CaGetCore>::response_is(order, bytes, count, value)
            },
            CaUnion::CaChar(value) => {
                &&& datatype == BasicDbrType::DbrChar
                &&& <u8 as CaGetCore>::response_is(order, bytes, count, value)
            },
            CaUnion::CaShort(value) => {
                &&& datatype == BasicDbrType::DbrShort
                &&& <i16 as CaGetCore>::response_is(order, bytes, count, value)
            },
            CaUnion::CaLong(value) => {
                &&& datatype == BasicDbrType::DbrLong
                &&& <i32 as CaGetCore>::response_is(order, bytes, count, value)
            },
            CaUnion::CaFloat(value) => {
                &&& datatype == BasicDbrType::DbrFloat
                &&& <FloatBits as CaGetCore>::response_is(order, bytes, count, value)
            },
            CaUnion::CaDouble(value) => {
                &&& datatype == BasicDbrType::DbrDouble
                &&& <DoubleBits as CaGetCore>::response_is(order, bytes, count, value)
            },
        }
    }

    open spec fn response_size(datatype: BasicDbrType, count: nat) -> nat {
        match datatype {
            BasicDbrType::DbrString => <String as CaGetCore>::response_size(count),
            BasicDbrType::DbrEnum => <CaEnum as CaGetCore>::response_size(count),
            BasicDbrType::DbrChar => <u8 as CaGetCore>::response_size(count),
            BasicDbrType::DbrShort => <i16 as CaGetCore>::response_size(count),
            BasicDbrType::DbrLong => <i32 as CaGetCore>::response_size(count),
            BasicDbrType::DbrFloat => <FloatBits as CaGetCore>::response_size(count),
            BasicDbrType::DbrDouble => <DoubleBits as CaGetCore>::response_size(count),
        }
    }

    fn request(datatype: BasicDbrType) -> (request: ReadRequest) {
        match datatype {
            BasicDbrType::DbrString => <String as CaGetCore>::request(),
            BasicDbrType::DbrEnum => <CaEnum as CaGetCore>::request(),
            BasicDbrType::DbrChar => <u8 as CaGetCore>::request(),
            BasicDbrType::DbrShort => <i16 as CaGetCore>::request(),
            BasicDbrType::DbrLong => <i32 as CaGetCore>::request(),
            BasicDbrType::DbrFloat => <FloatBits as CaGetCore>::request(),
            BasicDbrType::DbrDouble => <DoubleBits as CaGetCore>::request(),
        }
    }

    fn response_len(datatype: BasicDbrType, count: usize) -> (len: Option<usize>) {
        match datatype {
            BasicDbrType::DbrString => <String as CaGetCore>::response_len(count),
            BasicDbrType::DbrEnum => <CaEnum as CaGetCore>::response_len(count),
            BasicDbrType::DbrChar => <u8 as CaGetCore>::response_len(count),
            BasicDbrType::DbrShort => <i16 as CaGetCore>::response_len(count),
            BasicDbrType::DbrLong => <i32 as CaGetCore>::response_len(count),
            BasicDbrType::DbrFloat => <FloatBits as CaGetCore>::response_len(count),
            BasicDbrType::DbrDouble => <DoubleBits as CaGetCore>::response_len(count),
        }
    }

    fn from_response(order: ByteOrder, datatype: BasicDbrType, buf: &[u8], count: usize) -> (result:
        Option<Self>) {
        match datatype {
            BasicDbrType::DbrString => {
                match <String as CaGetCore>::from_response(order, buf, count) {
                    Some(value) => Some(CaUnion::CaString(value)),
                    None => None,
                }
            },
            BasicDbrType::DbrEnum => {
                match <CaEnum as CaGetCore>::from_response(order, buf, count) {
                    Some(value) => Some(CaUnion::CaEnum(value)),
                    None => None,
                }
            },
            BasicDbrType::DbrChar => {
                match <u8 as CaGetCore>::from_response(order, buf, count) {
                    Some(value) => Some(CaUnion::CaChar(value)),
                    None => None,
                }
            },
            BasicDbrType::DbrShort => {
                match <i16 as CaGetCore>::from_response(order, buf, count) {
                    Some(value) => Some(CaUnion::CaShort(value)),
                    None => None,
                }
            },
            BasicDbrType::DbrLong => {
                match <i32 as CaGetCore>::from_response(order, buf, count) {
                    Some(value) => Some(CaUnion::CaLong(value)),
                    None => None,
                }
            },
            BasicDbrType::DbrFloat => {
                match <FloatBits as CaGetCore>::from_response(order, buf, count) {
                    Some(value) => Some(CaUnion::CaFloat(value)),
                    None => None,
                }
            },
            BasicDbrType::DbrDouble => {
                match <DoubleBits as CaGetCore>::from_response(order, buf, count) {
                    Some(value) => Some(CaUnion::CaDouble(value)),
                    None => None,
                }
            },
        }
    }

    proof fn lemma_response_fits(datatype: BasicDbrType, bytes: Seq<u8>, count: nat) {
        match datatype {
            BasicDbrType::DbrString => {
                <String as CaGetCore>::lemma_response_fits(bytes, count);
            },
            BasicDbrType::DbrEnum => {
                <CaEnum as CaGetCore>::lemma_response_fits(bytes, count);
            },
            BasicDbrType::DbrChar => {
                <u8 as CaGetCore>::lemma_response_fits(bytes, count);
            },
            BasicDbrType::DbrShort => {
                <i16 as CaGetCore>::lemma_response_fits(bytes, count);
            },
            BasicDbrType::DbrLong => {
                <i32 as CaGetCore>::lemma_response_fits(bytes, count);
            },
            BasicDbrType::DbrFloat => {
                <FloatBits as CaGetCore>::lemma_response_fits(bytes, count);
            },
            BasicDbrType::DbrDouble => {
                <DoubleBits as CaGetCore>::lemma_response_fits(bytes, count);
            },
        }
    }
}

/// One value of the channel's type, with its status, severity and time.
impl CA for (CaUnion, StatusSeverity, UnixTime) {
    open spec fn request_of(datatype: BasicDbrType) -> ReadRequest {
        match datatype {
            BasicDbrType::DbrString => <Timed<String> as CaGetCore>::request_of(),
            BasicDbrType::DbrEnum => <Timed<CaEnum> as CaGetCore>::request_of(),
            BasicDbrType::DbrChar => <Timed<u8> as CaGetCore>::request_of(),
            BasicDbrType::DbrShort => <Timed<i16> as CaGetCore>::request_of(),
            BasicDbrType::DbrLong => <Timed<i32> as CaGetCore>::request_of(),
            BasicDbrType::DbrFloat => <Timed<FloatBits> as CaGetCore>::request_of(),
            BasicDbrType::DbrDouble => <Timed<DoubleBits> as CaGetCore>::request_of(),
        }
    }

    open spec fn fits(datatype: BasicDbrType, bytes: Seq<u8>, count: nat) -> bool {
        match datatype {
            BasicDbrType::DbrString => <Timed<String> as CaGetCore>::fits(bytes, count),
            BasicDbrType::DbrEnum => <Timed<CaEnum> as CaGetCore>::fits(bytes, count),
            BasicDbrType::DbrChar => <Timed<u8> as CaGetCore>::fits(bytes, count),
            BasicDbrType::DbrShort => <Timed<i16> as CaGetCore>::fits(bytes, count),
            BasicDbrType::DbrLong => <Timed<i32> as CaGetCore>::fits(bytes, count),
            BasicDbrType::DbrFloat => <Timed<FloatBits> as CaGetCore>::fits(bytes, count),
            BasicDbrType::DbrDouble => <Timed<DoubleBits> as CaGetCore>::fits(bytes, count),
        }
    }

    open spec fn response_is(
        order: ByteOrder,
        datatype: BasicDbrType,
        bytes: Seq<u8>,
        count: nat,
        result: Self,
    ) -> bool {
        match result.0 {
            CaUnion::CaString(value) => {
                &&& datatype == BasicDbrType::DbrString
                &&& <Timed<String> as CaGetCore>::response_is(order, bytes, count, (value, result.1, result.2))
            },
            CaUnion::CaEnum(value) => {
                &&& datatype == BasicDbrType::DbrEnum
                &&& <Timed<CaEnum> as CaGetCore>::response_is(order, bytes, count, (value, result.1, result.2))
            },
            CaUnion::CaChar(value) => {
                &&& datatype == BasicDbrType::DbrChar
                &&& <Timed<u8> as CaGetCore>::response_is(order, bytes, count, (value, result.1, result.2))
            },
            CaUnion::CaShort(value) => {
                &&& datatype == BasicDbrType::DbrShort
                &&& <Timed<i16> as CaGetCore>::response_is(order, bytes, count, (value, result.1, result.2))
            },
            CaUnion::CaLong(value) => {
                &&& datatype == BasicDbrType::DbrLong
                &&& <Timed<i32> as CaGetCore>::response_is(order, bytes, count, (value, result.1, result.2))
            },
            CaUnion::CaFloat(value) => {
                &&& datatype == BasicDbrType::DbrFloat
                &&& <Timed<FloatBits> as CaGetCore>::response_is(order, bytes, count, (value, result.1, result.2))
            },
            CaUnion::CaDouble(value) => {
                &&& datatype == BasicDbrType::DbrDouble
                &&& <Timed<DoubleBits> as CaGetCore>::response_is(order, bytes, count, (value, result.1, result.2))
            },
        }
    }

    open spec fn response_size(datatype: BasicDbrType, count: nat) -> nat {
        match datatype {
            BasicDbrType::DbrString => <Timed<String> as CaGetCore>::response_size(count),
            BasicDbrType::DbrEnum => <Timed<CaEnum> as CaGetCore>::response_size(count),
            BasicDbrType::DbrChar => <Timed<u8> as CaGetCore>::response_size(count),
            BasicDbrType::DbrShort => <Timed<i16> as CaGetCore>::response_size(count),
            BasicDbrType::DbrLong => <Timed<i32> as CaGetCore>::response_size(count),
            BasicDbrType::DbrFloat => <Timed<FloatBits> as CaGetCore>::response_size(count),
            BasicDbrType::DbrDouble => <Timed<DoubleBits> as CaGetCore>::response_size(count),
        }
    }

    fn request(datatype: BasicDbrType) -> (request: ReadRequest) {
        match datatype {
            BasicDbrType::DbrString => <Timed<String> as CaGetCore>::request(),
            BasicDbrType::DbrEnum => <Timed<CaEnum> as CaGetCore>::request(),
            BasicDbrType::DbrChar => <Timed<u8> as CaGetCore>::request(),
            BasicDbrType::DbrShort => <Timed<i16> as CaGetCore>::request(),
            BasicDbrType::DbrLong => <Timed<i32> as CaGetCore>::request(),
            BasicDbrType::DbrFloat => <Timed<FloatBits> as CaGetCore>::request(),
            BasicDbrType::DbrDouble => <Timed<DoubleBits> as CaGetCore>::request(),
        }
    }

    fn response_len(datatype: BasicDbrType, count: usize) -> (len: Option<usize>) {
        match datatype {
            BasicDbrType::DbrString => <Timed<String> as CaGetCore>::response_len(count),
            BasicDbrType::DbrEnum => <Timed<CaEnum> as CaGetCore>::response_len(count),
            BasicDbrType::DbrChar => <Timed<u8> as CaGetCore>::response_len(count),
            BasicDbrType::DbrShort => <Timed<i16> as CaGetCore>::response_len(count),
            BasicDbrType::DbrLong => <Timed<i32> as CaGetCore>::response_len(count),
            BasicDbrType::DbrFloat => <Timed<FloatBits> as CaGetCore>::response_len(count),
            BasicDbrType::DbrDouble => <Timed<DoubleBits> as CaGetCore>::response_len(count),
        }
    }

    fn from_response(order: ByteOrder, datatype: BasicDbrType, buf: &[u8], count: usize) -> (result:
        Option<Self>) {
        match datatype {
            BasicDbrType::DbrString => {
                match <Timed<String> as CaGetCore>::from_response(order, buf, count) {
                    Some((value, status, time)) => Some((CaUnion::CaString(value), status, time)),
                    None => None,
                }
            },
            BasicDbrType::DbrEnum => {
                match <Timed<CaEnum> as CaGetCore>::from_response(order, buf, count) {
                    Some((value, status, time)) => Some((CaUnion::CaEnum(value), status, time)),
                    None => None,
                }
            },
            BasicDbrType::DbrChar => {
                match <Timed<u8> as CaGetCore>::from_response(order, buf, count) {
                    Some((value, status, time)) => Some((CaUnion::CaChar(value), status, time)),
                    None => None,
                }
            },
            BasicDbrType::DbrShort => {
                match <Timed<i16> as CaGetCore>::from_response(order, buf, count) {
                    Some((value, status, time)) => Some((CaUnion::CaShort(value), status, time)),
                    None => None,
                }
            },
            BasicDbrType::DbrLong => {
                match <Timed<i32> as CaGetCore>::from_response(order, buf, count) {
                    Some((value, status, time)) => Some((CaUnion::CaLong(value), status, time)),
                    None => None,
                }
            },
            BasicDbrType::DbrFloat => {
                match <Timed<FloatBits> as CaGetCore>::from_response(order, buf, count) {
                    Some((value, status, time)) => Some((CaUnion::CaFloat(value), status, time)),
                    None => None,
                }
            },
            BasicDbrType::DbrDouble => {
                match <Timed<DoubleBits> as CaGetCore>::from_response(order, buf, count) {
                    Some((value, status, time)) => Some((CaUnion::CaDouble(value), status, time)),
                    None => None,
                }
            },
        }
    }

    proof fn lemma_response_fits(datatype: BasicDbrType, bytes: Seq<u8>, count: nat) {
        match datatype {
            BasicDbrType::DbrString => {
                <Timed<String> as CaGetCore>::lemma_response_fits(bytes, count);
            },
            BasicDbrType::DbrEnum => {
                <Timed<CaEnum> as CaGetCore>::lemma_response_fits(bytes, count);
            },
            BasicDbrType::DbrChar => {
                <Timed<u8> as CaGetCore>::lemma_response_fits(bytes, count);
            },
            BasicDbrType::DbrShort => {
                <Timed<i16> as CaGetCore>::lemma_response_fits(bytes, count);
            },
            BasicDbrType::DbrLong => {
                <Timed<i32> as CaGetCore>::lemma_response_fits(bytes, count);
            },
            BasicDbrType::DbrFloat => {
                <Timed<FloatBits> as CaGetCore>::lemma_response_fits(bytes, count);
            },
            BasicDbrType::DbrDouble => {
                <Timed<DoubleBits> as CaGetCore>::lemma_response_fits(bytes, count);
            },
        }
    }
}

/// A run of values of the channel's type.
impl CA for CaUnionVec {
    open spec fn request_of(datatype: BasicDbrType) -> ReadRequest {
        match datatype {
            BasicDbrType::DbrString => <Vec<String> as CaGetCore>::request_of(),
            BasicDbrType::DbrEnum => <Vec<CaEnum> as CaGetCore>::request_of(),
            BasicDbrType::DbrChar => <Vec<u8> as CaGetCore>::request_of(),
            BasicDbrType::DbrShort => <Vec<i16> as CaGetCore>::request_of(),
            BasicDbrType::DbrLong => <Vec<i32> as CaGetCore>::request_of(),
            BasicDbrType::DbrFloat => <Vec<FloatBits> as CaGetCore>::request_of(),
            BasicDbrType::DbrDouble => <Vec<DoubleBits> as CaGetCore>::request_of(),
        }
    }

    open spec fn fits(datatype: BasicDbrType, bytes: Seq<u8>, count: nat) -> bool {
        match datatype {
            BasicDbrType::DbrString => <Vec<String> as CaGetCore>::fits(bytes, count),
            BasicDbrType::DbrEnum => <Vec<CaEnum> as CaGetCore>::fits(bytes, count),
            BasicDbrType::DbrChar => <Vec<u8> as CaGetCore>::fits(bytes, count),
            BasicDbrType::DbrShort => <Vec<i16> as CaGetCore>::fits(bytes, count),
            BasicDbrType::DbrLong => <Vec<i32> as CaGetCore>::fits(bytes, count),
            BasicDbrType::DbrFloat => <Vec<FloatBits> as CaGetCore>::fits(bytes, count),
            BasicDbrType::DbrDouble => <Vec<DoubleBits> as CaGetCore>::fits(bytes, count),
        }
    }

    open spec fn response_is(
        order: ByteOrder,
        datatype: BasicDbrType,
        bytes: Seq<u8>,
        count: nat,
        result: Self,
    ) -> bool {
        match result {
            CaUnionVec::CaString(values) => {
                &&& datatype == BasicDbrType::DbrString
                &&& <Vec<String> as CaGetCore>::response_is(order, bytes, count, values)
            },
            CaUnionVec::CaEnum(values) => {
                &&& datatype == BasicDbrType::DbrEnum
                &&& <Vec<CaEnum> as CaGetCore>::response_is(order, bytes, count, values)
            },
            CaUnionVec::CaChar(values) => {
                &&& datatype == BasicDbrType::DbrChar
                &&& <Vec<u8> as CaGetCore>::response_is(order, bytes, count, values)
            },
            CaUnionVec::CaShort(values) => {
                &&& datatype == BasicDbrType::DbrShort
                &&& <Vec<i16> as CaGetCore>::response_is(order, bytes, count, values)
            },
            CaUnionVec::CaLong(values) => {
                &&& datatype == BasicDbrType::DbrLong
                &&& <Vec<i32> as CaGetCore>::response_is(order, bytes, count, values)
            },
            CaUnionVec::CaFloat(values) => {
                &&& datatype == BasicDbrType::DbrFloat
                &&& <Vec<FloatBits> as CaGetCore>::response_is(order, bytes, count, values)
            },
            CaUnionVec::CaDouble(values) => {
                &&& datatype == BasicDbrType::DbrDouble
                &&& <Vec<DoubleBits> as CaGetCore>::response_is(order, bytes, count, values)
            },
        }
    }

    open spec fn response_size(datatype: BasicDbrType, count: nat) -> nat {
        match datatype {
            BasicDbrType::DbrString => <Vec<String> as CaGetCore>::response_size(count),
            BasicDbrType::DbrEnum => <Vec<CaEnum> as CaGetCore>::response_size(count),
            BasicDbrType::DbrChar => <Vec<u8> as CaGetCore>::response_size(count),
            BasicDbrType::DbrShort => <Vec<i16> as CaGetCore>::response_size(count),
            BasicDbrType::DbrLong => <Vec<i32> as CaGetCore>::response_size(count),
            BasicDbrType::DbrFloat => <Vec<FloatBits> as CaGetCore>::response_size(count),
            BasicDbrType::DbrDouble => <Vec<DoubleBits> as CaGetCore>::response_size(count),
        }
    }

    fn request(datatype: BasicDbrType) -> (request: ReadRequest) {
        match datatype {
            BasicDbrType::DbrString => <Vec<String> as CaGetCore>::request(),
            BasicDbrType::DbrEnum => <Vec<CaEnum> as CaGetCore>::request(),
            BasicDbrType::DbrChar => <Vec<u8> as CaGetCore>::request(),
            BasicDbrType::DbrShort => <Vec<i16> as CaGetCore>::request(),
            BasicDbrType::DbrLong => <Vec<i32> as CaGetCore>::request(),
            BasicDbrType::DbrFloat => <Vec<FloatBits> as CaGetCore>::request(),
            BasicDbrType::DbrDouble => <Vec<DoubleBits> as CaGetCore>::request(),
        }
    }

    fn response_len(datatype: BasicDbrType, count: usize) -> (len: Option<usize>) {
        match datatype {
            BasicDbrType::DbrString => <Vec<String> as CaGetCore>::response_len(count),
            BasicDbrType::DbrEnum => <Vec<CaEnum> as CaGetCore>::response_len(count),
            BasicDbrType::DbrChar => <Vec<u8> as CaGetCore>::response_len(count),
            BasicDbrType::DbrShort => <Vec<i16> as CaGetCore>::response_len(count),
            BasicDbrType::DbrLong => <Vec<i32> as CaGetCore>::response_len(count),
            BasicDbrType::DbrFloat => <Vec<FloatBits> as CaGetCore>::response_len(count),
            BasicDbrType::DbrDouble => <Vec<DoubleBits> as CaGetCore>::response_len(count),
        }
    }

    fn from_response(order: ByteOrder, datatype: BasicDbrType, buf: &[u8], count: usize) -> (result:
        Option<Self>) {
        match datatype {
            BasicDbrType::DbrString => {
                match <Vec<String> as CaGetCore>::from_response(order, buf, count) {
                    Some(values) => Some(CaUnionVec::CaString(values)),
                    None => None,
                }
            },
            BasicDbrType::DbrEnum => {
                match <Vec<CaEnum> as CaGetCore>::from_response(order, buf, count) {
                    Some(values) => Some(CaUnionVec::CaEnum(values)),
                    None => None,
                }
            },
            BasicDbrType::DbrChar => {
                match <Vec<u8> as CaGetCore>::from_response(order, buf, count) {
                    Some(values) => Some(CaUnionVec::CaChar(values)),
                    None => None,
                }
            },
            BasicDbrType::DbrShort => {
                match <Vec<i16> as CaGetCore>::from_response(order, buf, count) {
                    Some(values) => Some(CaUnionVec::CaShort(values)),
                    None => None,
                }
            },
            BasicDbrType::DbrLong => {
                match <Vec<i32> as CaGetCore>::from_response(order, buf, count) {
                    Some(values) => Some(CaUnionVec::CaLong(values)),
                    None => None,
                }
            },
            BasicDbrType::DbrFloat => {
                match <Vec<FloatBits> as CaGetCore>::from_response(order, buf, count) {
                    Some(values) => Some(CaUnionVec::CaFloat(values)),
                    None => None,
                }
            },
            BasicDbrType::DbrDouble => {
                match <Vec<DoubleBits> as CaGetCore>::from_response(order, buf, count) {
                    Some(values) => Some(CaUnionVec::CaDouble(values)),
                    None => None,
                }
            },
        }
    }

    proof fn lemma_response_fits(datatype: BasicDbrType, bytes: Seq<u8>, count: nat) {
        match datatype {
            BasicDbrType::DbrString => {
                <Vec<String> as CaGetCore>::lemma_response_fits(bytes, count);
            },
            BasicDbrType::DbrEnum => {
                <Vec<CaEnum> as CaGetCore>::lemma_response_fits(bytes, count);
            },
            BasicDbrType::DbrChar => {
                <Vec<u8> as CaGetCore>::lemma_response_fits(bytes, count);
            },
            BasicDbrType::DbrShort => {
                <Vec<i16> as CaGetCore>::lemma_response_fits(bytes, count);
            },
            BasicDbrType::DbrLong => {
                <Vec<i32> as CaGetCore>::lemma_response_fits(bytes, count);
            },
            BasicDbrType::DbrFloat => {
                <Vec<FloatBits> as CaGetCore>::lemma_response_fits(bytes, count);
            },
            BasicDbrType::DbrDouble => {
                <Vec<DoubleBits> as CaGetCore>::lemma_response_fits(bytes, count);
            },
        }
    }
}

/// A run of values of the channel's type, with their status, severity and time.
impl CA for (CaUnionVec, StatusSeverity, UnixTime) {
    open spec fn request_of(datatype: BasicDbrType) -> ReadRequest {
        match datatype {
            BasicDbrType::DbrString => <Timed<Vec<String>> as CaGetCore>::request_of(),
            BasicDbrType::DbrEnum => <Timed<Vec<CaEnum>> as CaGetCore>::request_of(),
            BasicDbrType::DbrChar => <Timed<Vec<u8>> as CaGetCore>::request_of(),
            BasicDbrType::DbrShort => <Timed<Vec<i16>> as CaGetCore>::request_of(),
            BasicDbrType::DbrLong => <Timed<Vec<i32>> as CaGetCore>::request_of(),
            BasicDbrType::DbrFloat => <Timed<Vec<FloatBits>> as CaGetCore>::request_of(),
            BasicDbrType::DbrDouble => <Timed<Vec<DoubleBits>> as CaGetCore>::request_of(),
        }
    }

    open spec fn fits(datatype: BasicDbrType, bytes: Seq<u8>, count: nat) -> bool {
        match datatype {
            BasicDbrType::DbrString => <Timed<Vec<String>> as CaGetCore>::fits(bytes, count),
            BasicDbrType::DbrEnum => <Timed<Vec<CaEnum>> as CaGetCore>::fits(bytes, count),
            BasicDbrType::DbrChar => <Timed<Vec<u8>> as CaGetCore>::fits(bytes, count),
            BasicDbrType::DbrShort => <Timed<Vec<i16>> as CaGetCore>::fits(bytes, count),
            BasicDbrType::DbrLong => <Timed<Vec<i32>> as CaGetCore>::fits(bytes, count),
            BasicDbrType::DbrFloat => <Timed<Vec<FloatBits>> as CaGetCore>::fits(bytes, count),
            BasicDbrType::DbrDouble => <Timed<Vec<DoubleBits>> as CaGetCore>::fits(bytes, count),
        }
    }

    open spec fn response_is(
        order: ByteOrder,
        datatype: BasicDbrType,
        bytes: Seq<u8>,
        count: nat,
        result: Self,
    ) -> bool {
        match result.0 {
            CaUnionVec::CaString(values) => {
                &&& datatype == BasicDbrType::DbrString
                &&& <Timed<Vec<String>> as CaGetCore>::response_is(order, bytes, count, (values, result.1, result.2))
            },
            CaUnionVec::CaEnum(values) => {
                &&& datatype == BasicDbrType::DbrEnum
                &&& <Timed<Vec<CaEnum>> as CaGetCore>::response_is(order, bytes, count, (values, result.1, result.2))
            },
            CaUnionVec::CaChar(values) => {
                &&& datatype == BasicDbrType::DbrChar
                &&& <Timed<Vec<u8>> as CaGetCore>::response_is(order, bytes, count, (values, result.1, result.2))
            },
            CaUnionVec::CaShort(values) => {
                &&& datatype == BasicDbrType::DbrShort
                &&& <Timed<Vec<i16>> as CaGetCore>::response_is(order, bytes, count, (values, result.1, result.2))
            },
            CaUnionVec::CaLong(values) => {
                &&& datatype == BasicDbrType::DbrLong
                &&& <Timed<Vec<i32>> as CaGetCore>::response_is(order, bytes, count, (values, result.1, result.2))
            },
            CaUnionVec::CaFloat(values) => {
                &&& datatype == BasicDbrType::DbrFloat
                &&& <Timed<Vec<FloatBits>> as CaGetCore>::response_is(order, bytes, count, (values, result.1, result.2))
            },
            CaUnionVec::CaDouble(values) => {
                &&& datatype == BasicDbrType::DbrDouble
                &&& <Timed<Vec<DoubleBits>> as CaGetCore>::response_is(order, bytes, count, (values, result.1, result.2))
            },
        }
    }

    open spec fn response_size(datatype: BasicDbrType, count: nat) -> nat {
        match datatype {
            BasicDbrType::DbrString => <Timed<Vec<String>> as CaGetCore>::response_size(count),
            BasicDbrType::DbrEnum => <Timed<Vec<CaEnum>> as CaGetCore>::response_size(count),
            BasicDbrType::DbrChar => <Timed<Vec<u8>> as CaGetCore>::response_size(count),
            BasicDbrType::DbrShort => <Timed<Vec<i16>> as CaGetCore>::response_size(count),
            BasicDbrType::DbrLong => <Timed<Vec<i32>> as CaGetCore>::response_size(count),
            BasicDbrType::DbrFloat => <Timed<Vec<FloatBits>> as CaGetCore>::response_size(count),
            BasicDbrType::DbrDouble => <Timed<Vec<DoubleBits>> as CaGetCore>::response_size(count),
        }
    }

    fn request(datatype: BasicDbrType) -> (request: ReadRequest) {
        match datatype {
            BasicDbrType::DbrString => <Timed<Vec<String>> as CaGetCore>::request(),
            BasicDbrType::DbrEnum => <Timed<Vec<CaEnum>> as CaGetCore>::request(),
            BasicDbrType::DbrChar => <Timed<Vec<u8>> as CaGetCore>::request(),
            BasicDbrType::DbrShort => <Timed<Vec<i16>> as CaGetCore>::request(),
            BasicDbrType::DbrLong => <Timed<Vec<i32>> as CaGetCore>::request(),
            BasicDbrType::DbrFloat => <Timed<Vec<FloatBits>> as CaGetCore>::request(),
            BasicDbrType::DbrDouble => <Timed<Vec<DoubleBits>> as CaGetCore>::request(),
        }
    }

    fn response_len(datatype: BasicDbrType, count: usize) -> (len: Option<usize>) {
        match datatype {
            BasicDbrType::DbrString => <Timed<Vec<String>> as CaGetCore>::response_len(count),
            BasicDbrType::DbrEnum => <Timed<Vec<CaEnum>> as CaGetCore>::response_len(count),
            BasicDbrType::DbrChar => <Timed<Vec<u8>> as CaGetCore>::response_len(count),
            BasicDbrType::DbrShort => <Timed<Vec<i16>> as CaGetCore>::response_len(count),
            BasicDbrType::DbrLong => <Timed<Vec<i32>> as CaGetCore>::response_len(count),
            BasicDbrType::DbrFloat => <Timed<Vec<FloatBits>> as CaGetCore>::response_len(count),
            BasicDbrType::DbrDouble => <Timed<Vec<DoubleBits>> as CaGetCore>::response_len(count),
        }
    }

    fn from_response(order: ByteOrder, datatype: BasicDbrType, buf: &[u8], count: usize) -> (result:
        Option<Self>) {
        match datatype {
            BasicDbrType::DbrString => {
                match <Timed<Vec<String>> as CaGetCore>::from_response(order, buf, count) {
                    Some((values, status, time)) => Some((CaUnionVec::CaString(values), status, time)),
                    None => None,
                }
            },
            BasicDbrType::DbrEnum => {
                match <Timed<Vec<CaEnum>> as CaGetCore>::from_response(order, buf, count) {
                    Some((values, status, time)) => Some((CaUnionVec::CaEnum(values), status, time)),
                    None => None,
                }
            },
            BasicDbrType::DbrChar => {
                match <Timed<Vec<u8>> as CaGetCore>::from_response(order, buf, count) {
                    Some((values, status, time)) => Some((CaUnionVec::CaChar(values), status, time)),
                    None => None,
                }
            },
            BasicDbrType::DbrShort => {
                match <Timed<Vec<i16>> as CaGetCore>::from_response(order, buf, count) {
                    Some((values, status, time)) => Some((CaUnionVec::CaShort(values), status, time)),
                    None => None,
                }
            },
            BasicDbrType::DbrLong => {
                match <Timed<Vec<i32>> as CaGetCore>::from_response(order, buf, count) {
                    Some((values, status, time)) => Some((CaUnionVec::CaLong(values), status, time)),
                    None => None,
                }
            },
            BasicDbrType::DbrFloat => {
                match <Timed<Vec<FloatBits>> as CaGetCore>::from_response(order, buf, count) {
                    Some((values, status, time)) => Some((CaUnionVec::CaFloat(values), status, time)),
                    None => None,
                }
            },
            BasicDbrType::DbrDouble => {
                match <Timed<Vec<DoubleBits>> as CaGetCore>::from_response(order, buf, count) {
                    Some((values, status, time)) => Some((CaUnionVec::CaDouble(values), status, time)),
                    None => None,
                }
            },
        }
    }

    proof fn lemma_response_fits(datatype: BasicDbrType, bytes: Seq<u8>, count: nat) {
        match datatype {
            BasicDbrType::DbrString => {
                <Timed<Vec<String>> as CaGetCore>::lemma_response_fits(bytes, count);
            },
            BasicDbrType::DbrEnum => {
                <Timed<Vec<CaEnum>> as CaGetCore>::lemma_response_fits(bytes, count);
            },
            BasicDbrType::DbrChar => {
                <Timed<Vec<u8>> as CaGetCore>::lemma_response_fits(bytes, count);
            },
            BasicDbrType::DbrShort => {
                <Timed<Vec<i16>> as CaGetCore>::lemma_response_fits(bytes, count);
            },
            BasicDbrType::DbrLong => {
                <Timed<Vec<i32>> as CaGetCore>::lemma_response_fits(bytes, count);
            },
            BasicDbrType::DbrFloat => {
                <Timed<Vec<FloatBits>> as CaGetCore>::lemma_response_fits(bytes, count);
            },
            BasicDbrType::DbrDouble => {
                <Timed<Vec<DoubleBits>> as CaGetCore>::lemma_response_fits(bytes, count);
            },
        }
    }
}

/// One value of the channel's type, with its control information, and its status
/// and severity.
impl CA for (CaUnionCtrl, StatusSeverity) {
    open spec fn request_of(datatype: BasicDbrType) -> ReadRequest {
        match datatype {
            BasicDbrType::DbrString => <WithCtrl<String, String> as CaGetCore>::request_of(),
            BasicDbrType::DbrEnum => <WithCtrl<CaEnum, CaEnum> as CaGetCore>::request_of(),
            BasicDbrType::DbrChar => <WithCtrl<u8, u8> as CaGetCore>::request_of(),
            BasicDbrType::DbrShort => <WithCtrl<i16, i16> as CaGetCore>::request_of(),
            BasicDbrType::DbrLong => <WithCtrl<i32, i32> as CaGetCore>::request_of(),
            BasicDbrType::DbrFloat => <WithCtrl<FloatBits, FloatBits> as CaGetCore>::request_of(),
            BasicDbrType::DbrDouble => <WithCtrl<DoubleBits, DoubleBits> as CaGetCore>::request_of(),
        }
    }

    open spec fn fits(datatype: BasicDbrType, bytes: Seq<u8>, count: nat) -> bool {
        match datatype {
            BasicDbrType::DbrString => <WithCtrl<String, String> as CaGetCore>::fits(bytes, count),
            BasicDbrType::DbrEnum => <WithCtrl<CaEnum, CaEnum> as CaGetCore>::fits(bytes, count),
            BasicDbrType::DbrChar => <WithCtrl<u8, u8> as CaGetCore>::fits(bytes, count),
            BasicDbrType::DbrShort => <WithCtrl<i16, i16> as CaGetCore>::fits(bytes, count),
            BasicDbrType::DbrLong => <WithCtrl<i32, i32> as CaGetCore>::fits(bytes, count),
            BasicDbrType::DbrFloat => <WithCtrl<FloatBits, FloatBits> as CaGetCore>::fits(bytes, count),
            BasicDbrType::DbrDouble => <WithCtrl<DoubleBits, DoubleBits> as CaGetCore>::fits(bytes, count),
        }
    }

    open spec fn response_is(
        order: ByteOrder,
        datatype: BasicDbrType,
        bytes: Seq<u8>,
        count: nat,
        result: Self,
    ) -> bool {
        match result.0 {
            CaUnionCtrl::CaString(value, ctrl) => {
                &&& datatype == BasicDbrType::DbrString
                &&& <WithCtrl<String, String> as CaGetCore>::response_is(order, bytes, count, (value, result.1, CaCtrl(ctrl)))
            },
            CaUnionCtrl::CaEnum(value, ctrl) => {
                &&& datatype == BasicDbrType::DbrEnum
                &&& <WithCtrl<CaEnum, CaEnum> as CaGetCore>::response_is(order, bytes, count, (value, result.1, CaCtrl(ctrl)))
            },
            CaUnionCtrl::CaChar(value, ctrl) => {
                &&& datatype == BasicDbrType::DbrChar
                &&& <WithCtrl<u8, u8> as CaGetCore>::response_is(order, bytes, count, (value, result.1, CaCtrl(ctrl)))
            },
            CaUnionCtrl::CaShort(value, ctrl) => {
                &&& datatype == BasicDbrType::DbrShort
                &&& <WithCtrl<i16, i16> as CaGetCore>::response_is(order, bytes, count, (value, result.1, CaCtrl(ctrl)))
            },
            CaUnionCtrl::CaLong(value, ctrl) => {
                &&& datatype == BasicDbrType::DbrLong
                &&& <WithCtrl<i32, i32> as CaGetCore>::response_is(order, bytes, count, (value, result.1, CaCtrl(ctrl)))
            },
            CaUnionCtrl::CaFloat(value, ctrl) => {
                &&& datatype == BasicDbrType::DbrFloat
                &&& <WithCtrl<FloatBits, FloatBits> as CaGetCore>::response_is(order, bytes, count, (value, result.1, CaCtrl(ctrl)))
            },
            CaUnionCtrl::CaDouble(value, ctrl) => {
                &&& datatype == BasicDbrType::DbrDouble
                &&& <WithCtrl<DoubleBits, DoubleBits> as CaGetCore>::response_is(order, bytes, count, (value, result.1, CaCtrl(ctrl)))
            },
        }
    }

    open spec fn response_size(datatype: BasicDbrType, count: nat) -> nat {
        match datatype {
            BasicDbrType::DbrString => <WithCtrl<String, String> as CaGetCore>::response_size(count),
            BasicDbrType::DbrEnum => <WithCtrl<CaEnum, CaEnum> as CaGetCore>::response_size(count),
            BasicDbrType::DbrChar => <WithCtrl<u8, u8> as CaGetCore>::response_size(count),
            BasicDbrType::DbrShort => <WithCtrl<i16, i16> as CaGetCore>::response_size(count),
            BasicDbrType::DbrLong => <WithCtrl<i32, i32> as CaGetCore>::response_size(count),
            BasicDbrType::DbrFloat => <WithCtrl<FloatBits, FloatBits> as CaGetCore>::response_size(count),
            BasicDbrType::DbrDouble => <WithCtrl<DoubleBits, DoubleBits> as CaGetCore>::response_size(count),
        }
    }

    fn request(datatype: BasicDbrType) -> (request: ReadRequest) {
        match datatype {
            BasicDbrType::DbrString => <WithCtrl<String, String> as CaGetCore>::request(),
            BasicDbrType::DbrEnum => <WithCtrl<CaEnum, CaEnum> as CaGetCore>::request(),
            BasicDbrType::DbrChar => <WithCtrl<u8, u8> as CaGetCore>::request(),
            BasicDbrType::DbrShort => <WithCtrl<i16, i16> as CaGetCore>::request(),
            BasicDbrType::DbrLong => <WithCtrl<i32, i32> as CaGetCore>::request(),
            BasicDbrType::DbrFloat => <WithCtrl<FloatBits, FloatBits> as CaGetCore>::request(),
            BasicDbrType::DbrDouble => <WithCtrl<DoubleBits, DoubleBits> as CaGetCore>::request(),
        }
    }

    fn response_len(datatype: BasicDbrType, count: usize) -> (len: Option<usize>) {
        match datatype {
            BasicDbrType::DbrString => <WithCtrl<String, String> as CaGetCore>::response_len(count),
            BasicDbrType::DbrEnum => <WithCtrl<CaEnum, CaEnum> as CaGetCore>::response_len(count),
            BasicDbrType::DbrChar => <WithCtrl<u8, u8> as CaGetCore>::response_len(count),
            BasicDbrType::DbrShort => <WithCtrl<i16, i16> as CaGetCore>::response_len(count),
            BasicDbrType::DbrLong => <WithCtrl<i32, i32> as CaGetCore>::response_len(count),
            BasicDbrType::DbrFloat => <WithCtrl<FloatBits, FloatBits> as CaGetCore>::response_len(count),
            BasicDbrType::DbrDouble => <WithCtrl<DoubleBits, DoubleBits> as CaGetCore>::response_len(count),
        }
    }

    fn from_response(order: ByteOrder, datatype: BasicDbrType, buf: &[u8], count: usize) -> (result:
        Option<Self>) {
        match datatype {
            BasicDbrType::DbrString => {
                match <WithCtrl<String, String> as CaGetCore>::from_response(order, buf, count) {
                    Some((value, status, CaCtrl(ctrl))) => Some((CaUnionCtrl::CaString(value, ctrl), status)),
                    None => None,
                }
            },
            BasicDbrType::DbrEnum => {
                match <WithCtrl<CaEnum, CaEnum> as CaGetCore>::from_response(order, buf, count) {
                    Some((value, status, CaCtrl(ctrl))) => Some((CaUnionCtrl::CaEnum(value, ctrl), status)),
                    None => None,
                }
            },
            BasicDbrType::DbrChar => {
                match <WithCtrl<u8, u8> as CaGetCore>::from_response(order, buf, count) {
                    Some((value, status, CaCtrl(ctrl))) => Some((CaUnionCtrl::CaChar(value, ctrl), status)),
                    None => None,
                }
            },
            BasicDbrType::DbrShort => {
                match <WithCtrl<i16, i16> as CaGetCore>::from_response(order, buf, count) {
                    Some((value, status, CaCtrl(ctrl))) => Some((CaUnionCtrl::CaShort(value, ctrl), status)),
                    None => None,
                }
            },
            BasicDbrType::DbrLong => {
                match <WithCtrl<i32, i32> as CaGetCore>::from_response(order, buf, count) {
                    Some((value, status, CaCtrl(ctrl))) => Some((CaUnionCtrl::CaLong(value, ctrl), status)),
                    None => None,
                }
            },
            BasicDbrType::DbrFloat => {
                match <WithCtrl<FloatBits, FloatBits> as CaGetCore>::from_response(order, buf, count) {
                    Some((value, status, CaCtrl(ctrl))) => Some((CaUnionCtrl::CaFloat(value, ctrl), status)),
                    None => None,
                }
            },
            BasicDbrType::DbrDouble => {
                match <WithCtrl<DoubleBits, DoubleBits> as CaGetCore>::from_response(order, buf, count) {
                    Some((value, status, CaCtrl(ctrl))) => Some((CaUnionCtrl::CaDouble(value, ctrl), status)),
                    None => None,
                }
            },
        }
    }

    proof fn lemma_response_fits(datatype: BasicDbrType, bytes: Seq<u8>, count: nat) {
        match datatype {
            BasicDbrType::DbrString => {
                <WithCtrl<String, String> as CaGetCore>::lemma_response_fits(bytes, count);
            },
            BasicDbrType::DbrEnum => {
                <WithCtrl<CaEnum, CaEnum> as CaGetCore>::lemma_response_fits(bytes, count);
            },
            BasicDbrType::DbrChar => {
                <WithCtrl<u8, u8> as CaGetCore>::lemma_response_fits(bytes, count);
            },
            BasicDbrType::DbrShort => {
                <WithCtrl<i16, i16> as CaGetCore>::lemma_response_fits(bytes, count);
            },
            BasicDbrType::DbrLong => {
                <WithCtrl<i32, i32> as CaGetCore>::lemma_response_fits(bytes, count);
            },
            BasicDbrType::DbrFloat => {
                <WithCtrl<FloatBits, FloatBits> as CaGetCore>::lemma_response_fits(bytes, count);
            },
            BasicDbrType::DbrDouble => {
                <WithCtrl<DoubleBits, DoubleBits> as CaGetCore>::lemma_response_fits(bytes, count);
            },
        }
    }
}

/// A run of values of the channel's type, with their control information, and
/// their status and severity.
impl CA for (CaUnionCtrlVec, StatusSeverity) {
    open spec fn request_of(datatype: BasicDbrType) -> ReadRequest {
        match datatype {
            BasicDbrType::DbrString => <WithCtrl<Vec<String>, String> as CaGetCore>::request_of(),
            BasicDbrType::DbrEnum => <WithCtrl<Vec<CaEnum>, CaEnum> as CaGetCore>::request_of(),
            BasicDbrType::DbrChar => <WithCtrl<Vec<u8>, u8> as CaGetCore>::request_of(),
            BasicDbrType::DbrShort => <WithCtrl<Vec<i16>, i16> as CaGetCore>::request_of(),
            BasicDbrType::DbrLong => <WithCtrl<Vec<i32>, i32> as CaGetCore>::request_of(),
            BasicDbrType::DbrFloat => <WithCtrl<Vec<FloatBits>, FloatBits> as CaGetCore>::request_of(),
            BasicDbrType::DbrDouble => <WithCtrl<Vec<DoubleBits>, DoubleBits> as CaGetCore>::request_of(),
        }
    }

    open spec fn fits(datatype: BasicDbrType, bytes: Seq<u8>, count: nat) -> bool {
        match datatype {
            BasicDbrType::DbrString => <WithCtrl<Vec<String>, String> as CaGetCore>::fits(bytes, count),
            BasicDbrType::DbrEnum => <WithCtrl<Vec<CaEnum>, CaEnum> as CaGetCore>::fits(bytes, count),
            BasicDbrType::DbrChar => <WithCtrl<Vec<u8>, u8> as CaGetCore>::fits(bytes, count),
            BasicDbrType::DbrShort => <WithCtrl<Vec<i16>, i16> as CaGetCore>::fits(bytes, count),
            BasicDbrType::DbrLong => <WithCtrl<Vec<i32>, i32> as CaGetCore>::fits(bytes, count),
            BasicDbrType::DbrFloat => <WithCtrl<Vec<FloatBits>, FloatBits> as CaGetCore>::fits(bytes, count),
            BasicDbrType::DbrDouble => <WithCtrl<Vec<DoubleBits>, DoubleBits> as CaGetCore>::fits(bytes, count),
        }
    }

    open spec fn response_is(
        order: ByteOrder,
        datatype: BasicDbrType,
        bytes: Seq<u8>,
        count: nat,
        result: Self,
    ) -> bool {
        match result.0 {
            CaUnionCtrlVec::CaString(values, ctrl) => {
                &&& datatype == BasicDbrType::DbrString
                &&& <WithCtrl<Vec<String>, String> as CaGetCore>::response_is(order, bytes, count, (values, result.1, CaCtrl(ctrl)))
            },
            CaUnionCtrlVec::CaEnum(values, ctrl) => {
                &&& datatype == BasicDbrType::DbrEnum
                &&& <WithCtrl<Vec<CaEnum>, CaEnum> as CaGetCore>::response_is(order, bytes, count, (values, result.1, CaCtrl(ctrl)))
            },
            CaUnionCtrlVec::CaChar(values, ctrl) => {
                &&& datatype == BasicDbrType::DbrChar
                &&& <WithCtrl<Vec<u8>, u8> as CaGetCore>::response_is(order, bytes, count, (values, result.1, CaCtrl(ctrl)))
            },
            CaUnionCtrlVec::CaShort(values, ctrl) => {
                &&& datatype == BasicDbrType::DbrShort
                &&& <WithCtrl<Vec<i16>, i16> as CaGetCore>::response_is(order, bytes, count, (values, result.1, CaCtrl(ctrl)))
            },
            CaUnionCtrlVec::CaLong(values, ctrl) => {
                &&& datatype == BasicDbrType::DbrLong
                &&& <WithCtrl<Vec<i32>, i32> as CaGetCore>::response_is(order, bytes, count, (values, result.1, CaCtrl(ctrl)))
            },
            CaUnionCtrlVec::CaFloat(values, ctrl) => {
                &&& datatype == BasicDbrType::DbrFloat
                &&& <WithCtrl<Vec<FloatBits>, FloatBits> as CaGetCore>::response_is(order, bytes, count, (values, result.1, CaCtrl(ctrl)))
            },
            CaUnionCtrlVec::CaDouble(values, ctrl) => {
                &&& datatype == BasicDbrType::DbrDouble
                &&& <WithCtrl<Vec<DoubleBits>, DoubleBits> as CaGetCore>::response_is(order, bytes, count, (values, result.1, CaCtrl(ctrl)))
            },
        }
    }

    open spec fn response_size(datatype: BasicDbrType, count: nat) -> nat {
        match datatype {
            BasicDbrType::DbrString => <WithCtrl<Vec<String>, String> as CaGetCore>::response_size(count),
            BasicDbrType::DbrEnum => <WithCtrl<Vec<CaEnum>, CaEnum> as CaGetCore>::response_size(count),
            BasicDbrType::DbrChar => <WithCtrl<Vec<u8>, u8> as CaGetCore>::response_size(count),
            BasicDbrType::DbrShort => <WithCtrl<Vec<i16>, i16> as CaGetCore>::response_size(count),
            BasicDbrType::DbrLong => <WithCtrl<Vec<i32>, i32> as CaGetCore>::response_size(count),
            BasicDbrType::DbrFloat => <WithCtrl<Vec<FloatBits>, FloatBits> as CaGetCore>::response_size(count),
            BasicDbrType::DbrDouble => <WithCtrl<Vec<DoubleBits>, DoubleBits> as CaGetCore>::response_size(count),
        }
    }

    fn request(datatype: BasicDbrType) -> (request: ReadRequest) {
        match datatype {
            BasicDbrType::DbrString => <WithCtrl<Vec<String>, String> as CaGetCore>::request(),
            BasicDbrType::DbrEnum => <WithCtrl<Vec<CaEnum>, CaEnum> as CaGetCore>::request(),
            BasicDbrType::DbrChar => <WithCtrl<Vec<u8>, u8> as CaGetCore>::request(),
            BasicDbrType::DbrShort => <WithCtrl<Vec<i16>, i16> as CaGetCore>::request(),
            BasicDbrType::DbrLong => <WithCtrl<Vec<i32>, i32> as CaGetCore>::request(),
            BasicDbrType::DbrFloat => <WithCtrl<Vec<FloatBits>, FloatBits> as CaGetCore>::request(),
            BasicDbrType::DbrDouble => <WithCtrl<Vec<DoubleBits>, DoubleBits> as CaGetCore>::request(),
        }
    }

    fn response_len(datatype: BasicDbrType, count: usize) -> (len: Option<usize>) {
        match datatype {
            BasicDbrType::DbrString => <WithCtrl<Vec<String>, String> as CaGetCore>::response_len(count),
            BasicDbrType::DbrEnum => <WithCtrl<Vec<CaEnum>, CaEnum> as CaGetCore>::response_len(count),
            BasicDbrType::DbrChar => <WithCtrl<Vec<u8>, u8> as CaGetCore>::response_len(count),
            BasicDbrType::DbrShort => <WithCtrl<Vec<i16>, i16> as CaGetCore>::response_len(count),
            BasicDbrType::DbrLong => <WithCtrl<Vec<i32>, i32> as CaGetCore>::response_len(count),
            BasicDbrType::DbrFloat => <WithCtrl<Vec<FloatBits>, FloatBits> as CaGetCore>::response_len(count),
            BasicDbrType::DbrDouble => <WithCtrl<Vec<DoubleBits>, DoubleBits> as CaGetCore>::response_len(count),
        }
    }

    fn from_response(order: ByteOrder, datatype: BasicDbrType, buf: &[u8], count: usize) -> (result:
        Option<Self>) {
        match datatype {
            BasicDbrType::DbrString => {
                match <WithCtrl<Vec<String>, String> as CaGetCore>::from_response(order, buf, count) {
                    Some((values, status, CaCtrl(ctrl))) => Some((CaUnionCtrlVec::CaString(values, ctrl), status)),
                    None => None,
                }
            },
            BasicDbrType::DbrEnum => {
                match <WithCtrl<Vec<CaEnum>, CaEnum> as CaGetCore>::from_response(order, buf, count) {
                    Some((values, status, CaCtrl(ctrl))) => Some((CaUnionCtrlVec::CaEnum(values, ctrl), status)),
                    None => None,
                }
            },
            BasicDbrType::DbrChar => {
                match <WithCtrl<Vec<u8>, u8> as CaGetCore>::from_response(order, buf, count) {
                    Some((values, status, CaCtrl(ctrl))) => Some((CaUnionCtrlVec::CaChar(values, ctrl), status)),
                    None => None,
                }
            },
            BasicDbrType::DbrShort => {
                match <WithCtrl<Vec<i16>, i16> as CaGetCore>::from_response(order, buf, count) {
                    Some((values, status, CaCtrl(ctrl))) => Some((CaUnionCtrlVec::CaShort(values, ctrl), status)),
                    None => None,
                }
            },
            BasicDbrType::DbrLong => {
                match <WithCtrl<Vec<i32>, i32> as CaGetCore>::from_response(order, buf, count) {
                    Some((values, status, CaCtrl(ctrl))) => Some((CaUnionCtrlVec::CaLong(values, ctrl), status)),
                    None => None,
                }
            },
            BasicDbrType::DbrFloat => {
                match <WithCtrl<Vec<FloatBits>, FloatBits> as CaGetCore>::from_response(order, buf, count) {
                    Some((values, status, CaCtrl(ctrl))) => Some((CaUnionCtrlVec::CaFloat(values, ctrl), status)),
                    None => None,
                }
            },
            BasicDbrType::DbrDouble => {
                match <WithCtrl<Vec<DoubleBits>, DoubleBits> as CaGetCore>::from_response(order, buf, count) {
                    Some((values, status, CaCtrl(ctrl))) => Some((CaUnionCtrlVec::CaDouble(values, ctrl), status)),
                    None => None,
                }
            },
        }
    }

    proof fn lemma_response_fits(datatype: BasicDbrType, bytes: Seq<u8>, count: nat) {
        match datatype {
            BasicDbrType::DbrString => {
                <WithCtrl<Vec<String>, String> as CaGetCore>::lemma_response_fits(bytes, count);
            },
            BasicDbrType::DbrEnum => {
                <WithCtrl<Vec<CaEnum>, CaEnum> as CaGetCore>::lemma_response_fits(bytes, count);
            },
            BasicDbrType::DbrChar => {
                <WithCtrl<Vec<u8>, u8> as CaGetCore>::lemma_response_fits(bytes, count);
            },
            BasicDbrType::DbrShort => {
                <WithCtrl<Vec<i16>, i16> as CaGetCore>::lemma_response_fits(bytes, count);
            },
            BasicDbrType::DbrLong => {
                <WithCtrl<Vec<i32>, i32> as CaGetCore>::lemma_response_fits(bytes, count);
            },
            BasicDbrType::DbrFloat => {
                <WithCtrl<Vec<FloatBits>, FloatBits> as CaGetCore>::lemma_response_fits(bytes, count);
            },
            BasicDbrType::DbrDouble => {
                <WithCtrl<Vec<DoubleBits>, DoubleBits> as CaGetCore>::lemma_response_fits(bytes, count);
            },
        }
    }
}

} // verus!
