use epics_ca::byte_order::ByteOrder;
use epics_ca::caget::{caget_callback, caget_request, CaCtrl, CaGetCore, GetResult, ReadRequest, CA};
use epics_ca::caunion::{
    get_field_type, BasicDbrType, CaUnion, CaUnionCtrl, CaUnionCtrlVec, CaUnionVec,
};
use epics_ca::db_access::{
    dbr_short, dbr_time_double, CtrlLimits, DoubleBits, FloatBits, StatusSeverity,
};
use epics_ca::dbr::{CaEnum, FixedCtrl, FloatCtrl, UnixTime};

const LE: ByteOrder = ByteOrder::LittleEndian;

const ALL_TYPES: [BasicDbrType; 7] = [
    BasicDbrType::DbrString,
    BasicDbrType::DbrEnum,
    BasicDbrType::DbrChar,
    BasicDbrType::DbrShort,
    BasicDbrType::DbrLong,
    BasicDbrType::DbrFloat,
    BasicDbrType::DbrDouble,
];

fn put(buf: &mut [u8], at: usize, bytes: &[u8]) {
    buf[at..at + bytes.len()].copy_from_slice(bytes);
}

fn width(datatype: BasicDbrType) -> usize {
    match datatype {
        BasicDbrType::DbrString => 40,
        BasicDbrType::DbrEnum => 2,
        BasicDbrType::DbrChar => 1,
        BasicDbrType::DbrShort => 2,
        BasicDbrType::DbrLong => 4,
        BasicDbrType::DbrFloat => 4,
        BasicDbrType::DbrDouble => 8,
    }
}

#[test]
fn field_type_codes() {
    assert_eq!(get_field_type(0), Some(BasicDbrType::DbrString));
    assert_eq!(get_field_type(1), Some(BasicDbrType::DbrShort));
    assert_eq!(get_field_type(2), Some(BasicDbrType::DbrFloat));
    assert_eq!(get_field_type(3), Some(BasicDbrType::DbrEnum));
    assert_eq!(get_field_type(4), Some(BasicDbrType::DbrChar));
    assert_eq!(get_field_type(5), Some(BasicDbrType::DbrLong));
    assert_eq!(get_field_type(6), Some(BasicDbrType::DbrDouble));
    for code in [-1i16, 7, 14, 20, 34, i16::MIN, i16::MAX] {
        assert_eq!(get_field_type(code), None);
    }
}

#[test]
fn requests_of_typed_shapes() {
    let request = |datatype: i64, count: u64| ReadRequest { datatype, count };
    assert_eq!(<DoubleBits as CaGetCore>::request(), request(6, 1));
    assert_eq!(<Vec<DoubleBits> as CaGetCore>::request(), request(6, 0));
    assert_eq!(<String as CaGetCore>::request(), request(0, 1));
    assert_eq!(<Vec<String> as CaGetCore>::request(), request(0, 0));
    assert_eq!(<CaEnum as CaGetCore>::request(), request(3, 1));
    assert_eq!(<u8 as CaGetCore>::request(), request(4, 1));
    assert_eq!(<i16 as CaGetCore>::request(), request(1, 1));
    assert_eq!(<i32 as CaGetCore>::request(), request(5, 1));
    assert_eq!(<FloatBits as CaGetCore>::request(), request(2, 1));
    assert_eq!(<(i32, StatusSeverity, UnixTime) as CaGetCore>::request(), request(19, 1));
    assert_eq!(<(Vec<u8>, StatusSeverity, UnixTime) as CaGetCore>::request(), request(18, 0));
    assert_eq!(<(String, StatusSeverity, UnixTime) as CaGetCore>::request(), request(14, 1));
    assert_eq!(
        <(String, StatusSeverity, CaCtrl<UnixTime>) as CaGetCore>::request(),
        request(14, 1)
    );
    assert_eq!(
        <(CaEnum, StatusSeverity, CaCtrl<Vec<String>>) as CaGetCore>::request(),
        request(31, 1)
    );
    assert_eq!(
        <(u8, StatusSeverity, CaCtrl<FixedCtrl<u8>>) as CaGetCore>::request(),
        request(32, 1)
    );
    assert_eq!(
        <(i16, StatusSeverity, CaCtrl<FixedCtrl<i16>>) as CaGetCore>::request(),
        request(29, 1)
    );
    assert_eq!(
        <(Vec<i32>, StatusSeverity, CaCtrl<FixedCtrl<i32>>) as CaGetCore>::request(),
        request(33, 0)
    );
    assert_eq!(
        <(FloatBits, StatusSeverity, CaCtrl<FloatCtrl<FloatBits>>) as CaGetCore>::request(),
        request(30, 1)
    );
    assert_eq!(
        <(Vec<DoubleBits>, StatusSeverity, CaCtrl<FloatCtrl<DoubleBits>>) as CaGetCore>::request(),
        request(34, 0)
    );
}

#[test]
fn requests_of_union_shapes_follow_the_channel() {
    let codes = [0i64, 3, 4, 1, 5, 2, 6];
    let ctrl_codes = [14i64, 31, 32, 29, 33, 30, 34];
    for (i, datatype) in ALL_TYPES.iter().enumerate() {
        assert_eq!(
            <CaUnion as CA>::request(*datatype),
            ReadRequest { datatype: codes[i], count: 1 }
        );
        assert_eq!(
            <CaUnionVec as CA>::request(*datatype),
            ReadRequest { datatype: codes[i], count: 0 }
        );
        assert_eq!(
            <(CaUnion, StatusSeverity, UnixTime) as CA>::request(*datatype),
            ReadRequest { datatype: codes[i] + 14, count: 1 }
        );
        assert_eq!(
            <(CaUnionVec, StatusSeverity, UnixTime) as CA>::request(*datatype),
            ReadRequest { datatype: codes[i] + 14, count: 0 }
        );
        assert_eq!(
            <(CaUnionCtrl, StatusSeverity) as CA>::request(*datatype),
            ReadRequest { datatype: ctrl_codes[i], count: 1 }
        );
        assert_eq!(
            <(CaUnionCtrlVec, StatusSeverity) as CA>::request(*datatype),
            ReadRequest { datatype: ctrl_codes[i], count: 0 }
        );
    }
}

#[test]
fn typed_request_ignores_the_type_of_the_channel() {
    for datatype in ALL_TYPES {
        assert_eq!(<i16 as CA>::request(datatype), ReadRequest { datatype: 1, count: 1 });
        assert_eq!(<i16 as CA>::from_response(LE, datatype, &[7, 0], 1), Some(7));
    }
}

#[test]
fn request_and_callback_of_a_layout() {
    assert_eq!(
        caget_request::<dbr_time_double, DoubleBits>(),
        ReadRequest { datatype: 20, count: 1 }
    );
    assert_eq!(
        caget_request::<dbr_time_double, Vec<DoubleBits>>(),
        ReadRequest { datatype: 20, count: 0 }
    );
    assert_eq!(<i16 as GetResult<dbr_short>>::count(), 1);
    assert_eq!(<Vec<i16> as GetResult<dbr_short>>::count(), 0);
    assert_eq!(<i16 as GetResult<dbr_short>>::get_result(LE, &[1, 0, 2, 0], 2), Some(1));
    assert_eq!(
        <Vec<i16> as GetResult<dbr_short>>::get_result(LE, &[1, 0, 2, 0], 2),
        Some(vec![1, 2])
    );
    let mut buf = vec![0u8; 32];
    put(&mut buf, 0, &1i16.to_le_bytes());
    put(&mut buf, 2, &2i16.to_le_bytes());
    put(&mut buf, 4, &10u32.to_le_bytes());
    put(&mut buf, 8, &20u32.to_le_bytes());
    put(&mut buf, 16, &1.5f64.to_le_bytes());
    put(&mut buf, 24, &2.5f64.to_le_bytes());
    let extra = (StatusSeverity { status: 1, severity: 2 }, UnixTime { secs: 631152010, nanos: 20 });
    assert_eq!(
        caget_callback::<dbr_time_double, DoubleBits>(LE, &buf, 2),
        Some((DoubleBits(1.5f64.to_bits()), extra))
    );
    assert_eq!(
        caget_callback::<dbr_time_double, Vec<DoubleBits>>(LE, &buf, 2),
        Some((vec![DoubleBits(1.5f64.to_bits()), DoubleBits(2.5f64.to_bits())], extra))
    );
    assert_eq!(caget_callback::<dbr_time_double, Vec<DoubleBits>>(LE, &buf, 3), None);
    assert_eq!(caget_callback::<dbr_time_double, Vec<DoubleBits>>(LE, &buf[..23], 0), None);
    assert_eq!(caget_callback::<dbr_time_double, DoubleBits>(LE, &buf[..23], 1), None);
}

#[test]
fn typed_shapes_from_a_response() {
    let mut buf = vec![0u8; 20];
    put(&mut buf, 0, &4i16.to_le_bytes());
    put(&mut buf, 2, &1i16.to_le_bytes());
    put(&mut buf, 4, &100u32.to_le_bytes());
    put(&mut buf, 8, &7u32.to_le_bytes());
    put(&mut buf, 12, &(-5i32).to_le_bytes());
    put(&mut buf, 16, &6i32.to_le_bytes());
    let status = StatusSeverity { status: 4, severity: 1 };
    let time = UnixTime { secs: 631152100, nanos: 7 };
    assert_eq!(
        <(i32, StatusSeverity, UnixTime) as CaGetCore>::from_response(LE, &buf, 2),
        Some((-5, status, time))
    );
    assert_eq!(
        <(Vec<i32>, StatusSeverity, UnixTime) as CaGetCore>::from_response(LE, &buf, 2),
        Some((vec![-5, 6], status, time))
    );
    assert_eq!(
        <(Vec<i32>, StatusSeverity, UnixTime) as CaGetCore>::from_response(LE, &buf, 3),
        None
    );
    assert_eq!(<Vec<i32> as CaGetCore>::from_response(LE, &buf[12..], 2), Some(vec![-5, 6]));
    assert_eq!(<i32 as CaGetCore>::from_response(LE, &buf[12..], 2), Some(-5));
    assert_eq!(<i32 as CaGetCore>::from_response(LE, &buf[..3], 1), None);

    let mut buf = vec![0u8; 32];
    put(&mut buf, 0, &4i16.to_le_bytes());
    put(&mut buf, 2, &1i16.to_le_bytes());
    put(&mut buf, 4, b"Hz\0\0\0\0\0\0");
    for i in 0..8usize {
        put(&mut buf, 12 + 2 * i, &(i as i16 - 4).to_le_bytes());
    }
    put(&mut buf, 28, &11i16.to_le_bytes());
    put(&mut buf, 30, &12i16.to_le_bytes());
    let limits = CtrlLimits {
        upper_disp_limit: -4i16,
        lower_disp_limit: -3,
        upper_alarm_limit: -2,
        upper_warning_limit: -1,
        lower_warning_limit: 0,
        lower_alarm_limit: 1,
        upper_ctrl_limit: 2,
        lower_ctrl_limit: 3,
    };
    assert_eq!(
        <(i16, StatusSeverity, CaCtrl<FixedCtrl<i16>>) as CaGetCore>::from_response(LE, &buf, 2),
        Some((11, status, CaCtrl(FixedCtrl { units: "Hz".to_string(), limits })))
    );
    assert_eq!(
        <(Vec<i16>, StatusSeverity, CaCtrl<FixedCtrl<i16>>) as CaGetCore>::from_response(
            LE, &buf, 2
        ),
        Some((vec![11, 12], status, CaCtrl(FixedCtrl { units: "Hz".to_string(), limits })))
    );
}

#[test]
fn zero_filled_buffer_decodes_to_zero() {
    for order in [ByteOrder::LittleEndian, ByteOrder::BigEndian] {
        let zero = |datatype: BasicDbrType| {
            <CaUnion as CA>::from_response(order, datatype, &vec![0u8; width(datatype)], 1)
        };
        assert_eq!(zero(BasicDbrType::DbrString), Some(CaUnion::CaString(String::new())));
        assert_eq!(zero(BasicDbrType::DbrEnum), Some(CaUnion::CaEnum(CaEnum(0))));
        assert_eq!(zero(BasicDbrType::DbrChar), Some(CaUnion::CaChar(0)));
        assert_eq!(zero(BasicDbrType::DbrShort), Some(CaUnion::CaShort(0)));
        assert_eq!(zero(BasicDbrType::DbrLong), Some(CaUnion::CaLong(0)));
        assert_eq!(zero(BasicDbrType::DbrFloat), Some(CaUnion::CaFloat(FloatBits(0))));
        assert_eq!(zero(BasicDbrType::DbrDouble), Some(CaUnion::CaDouble(DoubleBits(0))));
        assert_eq!(f32::from_bits(0), 0.0);
        assert_eq!(f64::from_bits(0), 0.0);
    }
}

#[test]
fn buffer_of_one_element_decodes_to_one_value() {
    for datatype in ALL_TYPES {
        let buf = vec![0u8; width(datatype)];
        let run = <CaUnionVec as CA>::from_response(LE, datatype, &buf, 1).unwrap();
        let len = match run {
            CaUnionVec::CaString(values) => values.len(),
            CaUnionVec::CaEnum(values) => values.len(),
            CaUnionVec::CaChar(values) => values.len(),
            CaUnionVec::CaShort(values) => values.len(),
            CaUnionVec::CaLong(values) => values.len(),
            CaUnionVec::CaFloat(values) => values.len(),
            CaUnionVec::CaDouble(values) => values.len(),
        };
        assert_eq!(len, 1);
        assert_eq!(<CaUnionVec as CA>::from_response(LE, datatype, &buf, 2), None);
        assert_eq!(<CaUnion as CA>::from_response(LE, datatype, &buf[1..], 1), None);
    }
}

fn elements(run: CaUnionVec) -> Vec<CaUnion> {
    match run {
        CaUnionVec::CaString(values) => values.into_iter().map(CaUnion::CaString).collect(),
        CaUnionVec::CaEnum(values) => values.into_iter().map(CaUnion::CaEnum).collect(),
        CaUnionVec::CaChar(values) => values.into_iter().map(CaUnion::CaChar).collect(),
        CaUnionVec::CaShort(values) => values.into_iter().map(CaUnion::CaShort).collect(),
        CaUnionVec::CaLong(values) => values.into_iter().map(CaUnion::CaLong).collect(),
        CaUnionVec::CaFloat(values) => values.into_iter().map(CaUnion::CaFloat).collect(),
        CaUnionVec::CaDouble(values) => values.into_iter().map(CaUnion::CaDouble).collect(),
    }
}

#[test]
fn vector_elements_equal_values_of_their_slices() {
    let count = 5usize;
    for order in [ByteOrder::LittleEndian, ByteOrder::BigEndian] {
        for datatype in ALL_TYPES {
            let w = width(datatype);
            let buf: Vec<u8> = (0..count * w).map(|i| (i * 37 % 251) as u8 % 127 + 1).collect();
            let run = <CaUnionVec as CA>::from_response(order, datatype, &buf, count).unwrap();
            let run = elements(run);
            assert_eq!(run.len(), count);
            for (i, element) in run.into_iter().enumerate() {
                let slice = &buf[i * w..(i + 1) * w];
                assert_eq!(<CaUnion as CA>::from_response(order, datatype, slice, 1), Some(element));
            }
        }
    }
}

#[test]
fn union_shapes_from_a_response() {
    let status = StatusSeverity { status: 0, severity: 0 };
    let time = UnixTime { secs: 631152000, nanos: 0 };
    let mut buf = vec![0u8; 32];
    put(&mut buf, 16, &3.25f64.to_le_bytes());
    put(&mut buf, 24, &4.5f64.to_le_bytes());
    assert_eq!(
        <(CaUnion, StatusSeverity, UnixTime) as CA>::from_response(
            LE,
            BasicDbrType::DbrDouble,
            &buf,
            2
        ),
        Some((CaUnion::CaDouble(DoubleBits(3.25f64.to_bits())), status, time))
    );
    assert_eq!(
        <(CaUnionVec, StatusSeverity, UnixTime) as CA>::from_response(
            LE,
            BasicDbrType::DbrDouble,
            &buf,
            2
        ),
        Some((
            CaUnionVec::CaDouble(vec![DoubleBits(3.25f64.to_bits()), DoubleBits(4.5f64.to_bits())]),
            status,
            time
        ))
    );
    let mut buf = vec![0u8; 52];
    put(&mut buf, 12, b"text");
    assert_eq!(
        <(CaUnionCtrl, StatusSeverity) as CA>::from_response(LE, BasicDbrType::DbrString, &buf, 1),
        Some((CaUnionCtrl::CaString("text".to_string(), time), status))
    );
    assert_eq!(
        <(CaUnionCtrlVec, StatusSeverity) as CA>::from_response(
            LE,
            BasicDbrType::DbrString,
            &buf,
            1
        ),
        Some((CaUnionCtrlVec::CaString(vec!["text".to_string()], time), status))
    );
    let mut buf = vec![0u8; 424];
    put(&mut buf, 4, &2i16.to_le_bytes());
    put(&mut buf, 6, b"Off");
    put(&mut buf, 32, b"On");
    put(&mut buf, 58, b"never");
    put(&mut buf, 422, &1u16.to_le_bytes());
    assert_eq!(
        <(CaUnionCtrl, StatusSeverity) as CA>::from_response(LE, BasicDbrType::DbrEnum, &buf, 1),
        Some((CaUnionCtrl::CaEnum(CaEnum(1), vec!["Off".to_string(), "On".to_string()]), status))
    );
    assert_eq!(
        <(CaUnionCtrl, StatusSeverity) as CA>::from_response(LE, BasicDbrType::DbrEnum, &buf[1..], 1),
        None
    );
}
