//! From the shape of result that a caller asks for to the read that fetches
//! it, and from the buffer that the read delivers to the result.
//!
//! A read is issued with a layout code and an element count, and answered
//! with a buffer and the number of elements in it. The shape of the result
//! that the caller wants decides both what is asked and how the answer is
//! read: a value or a run of values, bare, with status and time, or with
//! control information.

use vstd::prelude::*;
use crate::byte_order::ByteOrder;
use crate::caunion::BasicDbrType;
use crate::db_access::StatusSeverity;
use crate::dbr::{Dbr, DbrMap, UnixTime, record_size, wire_extra_is};

verus! {

/// What to ask of the bus in one read: the code of the layout in which to
/// deliver, and the number of elements, where zero asks for all that the
/// channel has.
#[derive(Clone, Copy, Debug, PartialEq, Eq, Structural)]
pub struct ReadRequest {
    pub datatype: i64,
    pub count: u64,
}

/// One value or a run of values of the layout `D`: how many elements to ask
/// for, and how to take the result from the buffer that is delivered.
pub trait GetResult<D: Dbr>: Sized + Send {
    /// The element count to ask for.
    spec fn count_code() -> u64;

    /// Whether a buffer that is said to hold `count` elements is long enough
    /// to take the result from.
    spec fn fits(bytes: Seq<u8>, count: nat) -> bool;

    /// Whether `result` is what a buffer of `count` elements holds.
    spec fn result_is(order: ByteOrder, bytes: Seq<u8>, count: nat, result: Self) -> bool;

    /// The element count to ask for: one for a single value, zero, which asks
    /// for all, for a run.
    fn count() -> (code: u64)
        ensures
            code == Self::count_code(),
    ;

    /// Takes the result from a buffer that holds `count` elements; `None`
    /// where the buffer is too short.
    fn get_result(order: ByteOrder, buf: &[u8], count: usize) -> (result: Option<Self>)
        ensures
            result is Some <==> Self::fits(buf@, count as nat),
            result matches Some(r) ==> Self::result_is(order, buf@, count as nat, r),
    ;
}

impl<R, D> GetResult<D> for R where R: DbrMap, D: Dbr<ResultType = R> {
    open spec fn count_code() -> u64 {
        1
    }

    open spec fn fits(bytes: Seq<u8>, count: nat) -> bool {
        D::value_offset() + D::value_width() <= bytes.len()
    }

    open spec fn result_is(order: ByteOrder, bytes: Seq<u8>, count: nat, result: Self) -> bool {
        D::slot_is(order, bytes, D::value_offset() as int, result)
    }

    fn count() -> (code: u64) {
        1
    }

    /// The first value, however many the buffer holds.
    fn get_result(order: ByteOrder, buf: &[u8], count: usize) -> (result: Option<Self>) {
        match D::decode(order, buf) {
            Some(record) => {
                let value = record.get_value();
                proof {
                    record.lemma_value_is_first_slot(order, buf@, value);
                }
                Some(value)
            },
            None => None,
        }
    }
}

impl<R, D> GetResult<D> for Vec<R> where R: DbrMap, D: Dbr<ResultType = R> {
    open spec fn count_code() -> u64 {
        0
    }

    open spec fn fits(bytes: Seq<u8>, count: nat) -> bool {
        D::value_offset() + count * D::value_width() <= bytes.len()
    }

    open spec fn result_is(order: ByteOrder, bytes: Seq<u8>, count: nat, result: Self) -> bool {
        &&& result@.len() == count
        &&& forall|i: int|
            0 <= i < count ==> D::slot_is(
                order,
                bytes,
                D::value_offset() + i * D::value_width(),
                #[trigger] result@[i],
            )
    }

    fn count() -> (code: u64) {
        0
    }

    /// All `count` values, in the order in which they lie in the buffer.
    fn get_result(order: ByteOrder, buf: &[u8], count: usize) -> (result: Option<Self>) {
        D::get_value_vec(order, buf, count)
    }
}

/// The read that fetches a result of shape `T` in the layout `D`.
pub fn caget_request<D, T>() -> (request: ReadRequest) where D: Dbr, T: GetResult<D>
    ensures
        request == (ReadRequest { datatype: D::datatype_code() as i64, count: T::count_code() }),
{
    ReadRequest { datatype: D::datatype() as i64, count: T::count() }
}

/// What the callback of a read makes of the buffer that it is handed: the
/// result of shape `T`, and what the record carries besides its values.
/// `count` is the number of elements that the buffer is said to hold. The
/// buffer has to hold the fixed part of the record, with its first value, and
/// the result; where it is shorter, nothing is made of it.
pub fn caget_callback<D, T>(order: ByteOrder, buf: &[u8], count: usize) -> (result: Option<
    (T, D::ExtraType),
>) where D: Dbr, T: GetResult<D>
    ensures
        result is Some <==> T::fits(buf@, count as nat) && D::value_offset() + D::value_width()
            <= buf@.len(),
        result matches Some(r) ==> T::result_is(order, buf@, count as nat, r.0) && wire_extra_is::<
            D,
        >(order, buf@, r.1),
{
    match D::decode(order, buf) {
        Some(record) => {
            match T::get_result(order, buf, count) {
                Some(values) => Some((values, record.get_extra())),
                None => None,
            }
        },
        None => None,
    }
}

/// Control information, marked as such in the shape of a result.
#[derive(Debug, PartialEq)]
pub struct CaCtrl<T>(pub T);

impl<T: Clone> Clone for CaCtrl<T> {
    fn clone(&self) -> (copy: Self)
        ensures
            cloned::<T>(self.0, copy.0),
    {
        CaCtrl(self.0.clone())
    }
}

impl<T: Copy> Copy for CaCtrl<T> {

}

/// A record with `count` values has room for its fixed part and for a run of
/// `count` values.
pub proof fn lemma_run_fits_in_record<D: Dbr>(count: nat)
    ensures
        D::value_offset() + D::value_width() <= record_size::<D>(count),
        D::value_offset() + count * D::value_width() <= record_size::<D>(count),
{
    let width = D::value_width();
    if count == 0 {
        assert(count * width == 0) by (nonlinear_arith)
            requires
                count == 0,
        ;
    } else {
        assert(width <= count * width) by (nonlinear_arith)
            requires
                count >= 1,
        ;
    }
}

/// A shape of result that one read of a value of known type delivers: the
/// read to issue, and how to take the result from the response.
pub trait CaGetCore: Sized {
    /// The read that fetches a result of this shape.
    spec fn request_of() -> ReadRequest;

    /// Whether a response that is said to hold `count` elements is long
    /// enough to take the result from.
    spec fn fits(bytes: Seq<u8>, count: nat) -> bool;

    /// Whether `result` is what a response of `count` elements holds.
    spec fn response_is(order: ByteOrder, bytes: Seq<u8>, count: nat, result: Self) -> bool;

    /// The number of bytes that a response of `count` elements takes.
    spec fn response_size(count: nat) -> nat;

    /// The read that fetches a result of this shape.
    fn request() -> (request: ReadRequest)
        ensures
            request == Self::request_of(),
    ;

    /// The number of bytes that a response of `count` elements takes; `None`
    /// where the machine's word cannot hold the number.
    fn response_len(count: usize) -> (len: Option<usize>)
        ensures
            len is Some <==> Self::response_size(count as nat) <= usize::MAX,
            len matches Some(n) ==> n == Self::response_size(count as nat),
    ;

    /// Takes the result from the response to that read: a buffer, and the
    /// number of elements that it is said to hold. `None` where the buffer
    /// is too short for the fixed part of its record or for the result.
    fn from_response(order: ByteOrder, buf: &[u8], count: usize) -> (result: Option<Self>)
        ensures
            result is Some <==> Self::fits(buf@, count as nat),
            result matches Some(r) ==> Self::response_is(order, buf@, count as nat, r),
    ;

    /// A response of the size that its element count asks for is long enough
    /// to take the result from.
    proof fn lemma_response_fits(bytes: Seq<u8>, count: nat)
        requires
            bytes.len() >= Self::response_size(count),
        ensures
            Self::fits(bytes, count),
    ;
}

/// A bare value.
impl<T> CaGetCore for T where T: DbrMap {
    open spec fn request_of() -> ReadRequest {
        ReadRequest { datatype: T::ValueDbr::datatype_code() as i64, count: 1 }
    }

    open spec fn fits(bytes: Seq<u8>, count: nat) -> bool {
        T::ValueDbr::value_offset() + T::ValueDbr::value_width() <= bytes.len()
    }

    open spec fn response_is(order: ByteOrder, bytes: Seq<u8>, count: nat, result: Self) -> bool {
        T::ValueDbr::slot_is(order, bytes, T::ValueDbr::value_offset() as int, result)
    }

    open spec fn response_size(count: nat) -> nat {
        record_size::<T::ValueDbr>(count)
    }

    fn request() -> (request: ReadRequest) {
        caget_request::<T::ValueDbr, T>()
    }

    fn from_response(order: ByteOrder, buf: &[u8], count: usize) -> (result: Option<Self>) {
        match caget_callback::<T::ValueDbr, T>(order, buf, count) {
            Some(r) => Some(r.0),
            None => None,
        }
    }

    fn response_len(count: usize) -> (len: Option<usize>) {
        T::ValueDbr::size_n(count)
    }

    proof fn lemma_response_fits(bytes: Seq<u8>, count: nat) {
        lemma_run_fits_in_record::<T::ValueDbr>(count);
    }
}

/// A run of bare values.
impl<T> CaGetCore for Vec<T> where T: DbrMap {
    open spec fn request_of() -> ReadRequest {
        ReadRequest { datatype: T::ValueDbr::datatype_code() as i64, count: 0 }
    }

    open spec fn fits(bytes: Seq<u8>, count: nat) -> bool {
        &&& T::ValueDbr::value_offset() + T::ValueDbr::value_width() <= bytes.len()
        &&& T::ValueDbr::value_offset() + count * T::ValueDbr::value_width() <= bytes.len()
    }

    open spec fn response_is(order: ByteOrder, bytes: Seq<u8>, count: nat, result: Self) -> bool {
        <Vec<T> as GetResult<T::ValueDbr>>::result_is(order, bytes, count, result)
    }

    open spec fn response_size(count: nat) -> nat {
        record_size::<T::ValueDbr>(count)
    }

    fn request() -> (request: ReadRequest) {
        caget_request::<T::ValueDbr, Vec<T>>()
    }

    fn from_response(order: ByteOrder, buf: &[u8], count: usize) -> (result: Option<Self>) {
        match caget_callback::<T::ValueDbr, Vec<T>>(order, buf, count) {
            Some(r) => Some(r.0),
            None => None,
        }
    }

    fn response_len(count: usize) -> (len: Option<usize>) {
        T::ValueDbr::size_n(count)
    }

    proof fn lemma_response_fits(bytes: Seq<u8>, count: nat) {
        lemma_run_fits_in_record::<T::ValueDbr>(count);
    }
}

/// A value with its status, severity and time.
impl<T> CaGetCore for (T, StatusSeverity, UnixTime) where T: DbrMap {
    open spec fn request_of() -> ReadRequest {
        ReadRequest { datatype: T::TimeDbr::datatype_code() as i64, count: 1 }
    }

    open spec fn fits(bytes: Seq<u8>, count: nat) -> bool {
        T::TimeDbr::value_offset() + T::TimeDbr::value_width() <= bytes.len()
    }

    open spec fn response_is(order: ByteOrder, bytes: Seq<u8>, count: nat, result: Self) -> bool {
        &&& T::TimeDbr::slot_is(order, bytes, T::TimeDbr::value_offset() as int, result.0)
        &&& wire_extra_is::<T::TimeDbr>(order, bytes, (result.1, result.2))
    }

    open spec fn response_size(count: nat) -> nat {
        record_size::<T::TimeDbr>(count)
    }

    fn request() -> (request: ReadRequest) {
        caget_request::<T::TimeDbr, T>()
    }

    fn from_response(order: ByteOrder, buf: &[u8], count: usize) -> (result: Option<Self>) {
        match caget_callback::<T::TimeDbr, T>(order, buf, count) {
            Some((v, (s, t))) => Some((v, s, t)),
            None => None,
        }
    }

    fn response_len(count: usize) -> (len: Option<usize>) {
        T::TimeDbr::size_n(count)
    }

    proof fn lemma_response_fits(bytes: Seq<u8>, count: nat) {
        lemma_run_fits_in_record::<T::TimeDbr>(count);
    }
}

/// A run of values with their status, severity and time.
impl<T> CaGetCore for (Vec<T>, StatusSeverity, UnixTime) where T: DbrMap {
    open spec fn request_of() -> ReadRequest {
        ReadRequest { datatype: T::TimeDbr::datatype_code() as i64, count: 0 }
    }

    open spec fn fits(bytes: Seq<u8>, count: nat) -> bool {
        &&& T::TimeDbr::value_offset() + T::TimeDbr::value_width() <= bytes.len()
        &&& T::TimeDbr::value_offset() + count * T::TimeDbr::value_width() <= bytes.len()
    }

    open spec fn response_is(order: ByteOrder, bytes: Seq<u8>, count: nat, result: Self) -> bool {
        &&& <Vec<T> as GetResult<T::TimeDbr>>::result_is(order, bytes, count, result.0)
        &&& wire_extra_is::<T::TimeDbr>(order, bytes, (result.1, result.2))
    }

    open spec fn response_size(count: nat) -> nat {
        record_size::<T::TimeDbr>(count)
    }

    fn request() -> (request: ReadRequest) {
        caget_request::<T::TimeDbr, Vec<T>>()
    }

    fn from_response(order: ByteOrder, buf: &[u8], count: usize) -> (result: Option<Self>) {
        match caget_callback::<T::TimeDbr, Vec<T>>(order, buf, count) {
            Some((v, (s, t))) => Some((v, s, t)),
            None => None,
        }
    }

    fn response_len(count: usize) -> (len: Option<usize>) {
        T::TimeDbr::size_n(count)
    }

    proof fn lemma_response_fits(bytes: Seq<u8>, count: nat) {
        lemma_run_fits_in_record::<T::TimeDbr>(count);
    }
}

/// A value with its status, severity and control information.
impl<T> CaGetCore for (T, StatusSeverity, CaCtrl<T::CtrlType>) where T: DbrMap {
    open spec fn request_of() -> ReadRequest {
        ReadRequest { datatype: T::CtrlDbr::datatype_code() as i64, count: 1 }
    }

    open spec fn fits(bytes: Seq<u8>, count: nat) -> bool {
        T::CtrlDbr::value_offset() + T::CtrlDbr::value_width() <= bytes.len()
    }

    open spec fn response_is(order: ByteOrder, bytes: Seq<u8>, count: nat, result: Self) -> bool {
        &&& T::CtrlDbr::slot_is(order, bytes, T::CtrlDbr::value_offset() as int, result.0)
        &&& wire_extra_is::<T::CtrlDbr>(order, bytes, (result.1, result.2.0))
    }

    open spec fn response_size(count: nat) -> nat {
        record_size::<T::CtrlDbr>(count)
    }

    fn request() -> (request: ReadRequest) {
        caget_request::<T::CtrlDbr, T>()
    }

    fn from_response(order: ByteOrder, buf: &[u8], count: usize) -> (result: Option<Self>) {
        match caget_callback::<T::CtrlDbr, T>(order, buf, count) {
            Some((v, (s, c))) => Some((v, s, CaCtrl(c))),
            None => None,
        }
    }

    fn response_len(count: usize) -> (len: Option<usize>) {
        T::CtrlDbr::size_n(count)
    }

    proof fn lemma_response_fits(bytes: Seq<u8>, count: nat) {
        lemma_run_fits_in_record::<T::CtrlDbr>(count);
    }
}

/// A run of values with their status, severity and control information.
impl<T> CaGetCore for (Vec<T>, StatusSeverity, CaCtrl<T::CtrlType>) where T: DbrMap {
    open spec fn request_of() -> ReadRequest {
        ReadRequest { datatype: T::CtrlDbr::datatype_code() as i64, count: 0 }
    }

    open spec fn fits(bytes: Seq<u8>, count: nat) -> bool {
        &&& T::CtrlDbr::value_offset() + T::CtrlDbr::value_width() <= bytes.len()
        &&& T::CtrlDbr::value_offset() + count * T::CtrlDbr::value_width() <= bytes.len()
    }

    open spec fn response_is(order: ByteOrder, bytes: Seq<u8>, count: nat, result: Self) -> bool {
        &&& <Vec<T> as GetResult<T::CtrlDbr>>::result_is(order, bytes, count, result.0)
        &&& wire_extra_is::<T::CtrlDbr>(order, bytes, (result.1, result.2.0))
    }

    open spec fn response_size(count: nat) -> nat {
        record_size::<T::CtrlDbr>(count)
    }

    fn request() -> (request: ReadRequest) {
        caget_request::<T::CtrlDbr, Vec<T>>()
    }

    fn from_response(order: ByteOrder, buf: &[u8], count: usize) -> (result: Option<Self>) {
        match caget_callback::<T::CtrlDbr, Vec<T>>(order, buf, count) {
            Some((v, (s, c))) => Some((v, s, CaCtrl(c))),
            None => None,
        }
    }

    fn response_len(count: usize) -> (len: Option<usize>) {
        T::CtrlDbr::size_n(count)
    }

    proof fn lemma_response_fits(bytes: Seq<u8>, count: nat) {
        lemma_run_fits_in_record::<T::CtrlDbr>(count);
    }
}

/// A shape of result that a read of a named process variable delivers, once
/// the type of the variable's values is known from its channel: the read to
/// issue, and how to take the result from the response.
pub trait CA: Sized {
    /// The read that fetches a result of this shape from a channel whose
    /// values have type `datatype`.
    spec fn request_of(datatype: BasicDbrType) -> ReadRequest;

    /// Whether a response that is said to hold `count` elements is long
    /// enough to take the result from.
    spec fn fits(datatype: BasicDbrType, bytes: Seq<u8>, count: nat) -> bool;

    /// Whether `result` is what a response of `count` elements holds.
    spec fn response_is(
        order: ByteOrder,
        datatype: BasicDbrType,
        bytes: Seq<u8>,
        count: nat,
        result: Self,
    ) -> bool;

    /// The number of bytes that a response of `count` elements takes.
    spec fn response_size(datatype: BasicDbrType, count: nat) -> nat;

    /// The read that fetches a result of this shape from a channel whose
    /// values have type `datatype`.
    fn request(datatype: BasicDbrType) -> (request: ReadRequest)
        ensures
            request == Self::request_of(datatype),
    ;

    /// The number of bytes that a response of `count` elements takes; `None`
    /// where the machine's word cannot hold the number.
    fn response_len(datatype: BasicDbrType, count: usize) -> (len: Option<usize>)
        ensures
            len is Some <==> Self::response_size(datatype, count as nat) <= usize::MAX,
            len matches Some(n) ==> n == Self::response_size(datatype, count as nat),
    ;

    /// Takes the result from the response to that read: a buffer, and the
    /// number of elements that it is said to hold. `None` where the buffer
    /// is too short for the fixed part of its record or for the result.
    fn from_response(order: ByteOrder, datatype: BasicDbrType, buf: &[u8], count: usize) -> (result:
        Option<Self>)
        ensures
            result is Some <==> Self::fits(datatype, buf@, count as nat),
            result matches Some(r) ==> Self::response_is(order, datatype, buf@, count as nat, r),
    ;

    /// A response of the size that its element count asks for is long enough
    /// to take the result from.
    proof fn lemma_response_fits(datatype: BasicDbrType, bytes: Seq<u8>, count: nat)
        requires
            bytes.len() >= Self::response_size(datatype, count),
        ensures
            Self::fits(datatype, bytes, count),
    ;
}

/// A result of a type that the caller fixes is read as that type, whatever
/// the type of the channel's values: the bus converts.
impl<T> CA for T where T: CaGetCore {
    open spec fn request_of(datatype: BasicDbrType) -> ReadRequest {
        <T as CaGetCore>::request_of()
    }

    open spec fn fits(datatype: BasicDbrType, bytes: Seq<u8>, count: nat) -> bool {
        <T as CaGetCore>::fits(bytes, count)
    }

    open spec fn response_is(
        order: ByteOrder,
        datatype: BasicDbrType,
        bytes: Seq<u8>,
        count: nat,
        result: Self,
    ) -> bool {
        <T as CaGetCore>::response_is(order, bytes, count, result)
    }

    open spec fn response_size(datatype: BasicDbrType, count: nat) -> nat {
        <T as CaGetCore>::response_size(count)
    }

    fn request(datatype: BasicDbrType) -> (request: ReadRequest) {
        <T as CaGetCore>::request()
    }

    fn response_len(datatype: BasicDbrType, count: usize) -> (len: Option<usize>) {
        <T as CaGetCore>::response_len(count)
    }

    fn from_response(order: ByteOrder, datatype: BasicDbrType, buf: &[u8], count: usize) -> (result:
        Option<Self>) {
        <T as CaGetCore>::from_response(order, buf, count)
    }

    proof fn lemma_response_fits(datatype: BasicDbrType, bytes: Seq<u8>, count: nat) {
        <T as CaGetCore>::lemma_response_fits(bytes, count);
    }
}

} // verus!
