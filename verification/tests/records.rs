use epics_ca::byte_order::ByteOrder;
use epics_ca::db_access::dbr_type_code::{
    DBR_CHAR, DBR_CTRL_CHAR, DBR_CTRL_DOUBLE, DBR_CTRL_ENUM, DBR_CTRL_FLOAT, DBR_CTRL_LONG,
    DBR_CTRL_SHORT, DBR_DOUBLE, DBR_ENUM, DBR_FLOAT, DBR_LONG, DBR_SHORT, DBR_STRING,
    DBR_TIME_CHAR, DBR_TIME_DOUBLE, DBR_TIME_ENUM, DBR_TIME_FLOAT, DBR_TIME_LONG,
    DBR_TIME_SHORT, DBR_TIME_STRING,
};
use epics_ca::db_access::{
    dbr_char, dbr_ctrl_char, dbr_ctrl_double, dbr_ctrl_enum, dbr_ctrl_float, dbr_ctrl_long,
    dbr_ctrl_short, dbr_double, dbr_enum, dbr_float, dbr_long, dbr_short, dbr_string,
    dbr_time_char, dbr_time_double, dbr_time_enum, dbr_time_float, dbr_time_long,
    dbr_time_short, dbr_time_string, CtrlLimits, DoubleBits, EpicsTimeStamp, FloatBits,
    StatusSeverity, MAX_ENUM_STATES, MAX_ENUM_STRING_SIZE, MAX_STRING_SIZE, MAX_UNITS_SIZE,
};
use epics_ca::dbr::{CaEnum, Dbr, FixedCtrl, FloatCtrl, UnixTime};

const LE: ByteOrder = ByteOrder::LittleEndian;
const BE: ByteOrder = ByteOrder::BigEndian;

fn put(buf: &mut [u8], at: usize, bytes: &[u8]) {
    buf[at..at + bytes.len()].copy_from_slice(bytes);
}

/// A buffer of `len` bytes of filler with status 3, severity 2 at its front.
fn with_status(len: usize) -> Vec<u8> {
    let mut buf = vec![0xee; len];
    put(&mut buf, 0, &3i16.to_le_bytes());
    put(&mut buf, 2, &2i16.to_le_bytes());
    buf
}

/// The same with the stamp (1000 s, 5 ns) behind the status.
fn with_status_and_time(len: usize) -> Vec<u8> {
    let mut buf = with_status(len);
    put(&mut buf, 4, &1000u32.to_le_bytes());
    put(&mut buf, 8, &5u32.to_le_bytes());
    buf
}

const STATUS: StatusSeverity = StatusSeverity { status: 3, severity: 2 };
const TIME: UnixTime = UnixTime { secs: 631153000, nanos: 5 };

#[test]
fn layout_codes() {
    assert_eq!(
        [
            dbr_string::datatype(),
            dbr_short::datatype(),
            dbr_float::datatype(),
            dbr_enum::datatype(),
            dbr_char::datatype(),
            dbr_long::datatype(),
            dbr_double::datatype()
        ],
        [0, 1, 2, 3, 4, 5, 6]
    );
    assert_eq!(
        [
            dbr_time_string::datatype(),
            dbr_time_short::datatype(),
            dbr_time_float::datatype(),
            dbr_time_enum::datatype(),
            dbr_time_char::datatype(),
            dbr_time_long::datatype(),
            dbr_time_double::datatype()
        ],
        [14, 15, 16, 17, 18, 19, 20]
    );
    assert_eq!(
        [
            dbr_ctrl_short::datatype(),
            dbr_ctrl_float::datatype(),
            dbr_ctrl_enum::datatype(),
            dbr_ctrl_char::datatype(),
            dbr_ctrl_long::datatype(),
            dbr_ctrl_double::datatype()
        ],
        [29, 30, 31, 32, 33, 34]
    );
    assert_eq!(
        [DBR_STRING, DBR_SHORT, DBR_FLOAT, DBR_ENUM, DBR_CHAR, DBR_LONG, DBR_DOUBLE],
        [0, 1, 2, 3, 4, 5, 6]
    );
    assert_eq!(
        [
            DBR_TIME_STRING,
            DBR_TIME_SHORT,
            DBR_TIME_FLOAT,
            DBR_TIME_ENUM,
            DBR_TIME_CHAR,
            DBR_TIME_LONG,
            DBR_TIME_DOUBLE
        ],
        [14, 15, 16, 17, 18, 19, 20]
    );
    assert_eq!(
        [
            DBR_CTRL_SHORT,
            DBR_CTRL_FLOAT,
            DBR_CTRL_ENUM,
            DBR_CTRL_CHAR,
            DBR_CTRL_LONG,
            DBR_CTRL_DOUBLE
        ],
        [29, 30, 31, 32, 33, 34]
    );
    assert_eq!(
        [MAX_STRING_SIZE, MAX_UNITS_SIZE, MAX_ENUM_STRING_SIZE, MAX_ENUM_STATES],
        [40, 8, 26, 16]
    );
}

#[test]
fn bare_records() {
    let mut text = [0u8; 40];
    put(&mut text, 0, b"hello");
    let record = dbr_string::decode(LE, &text).unwrap();
    assert_eq!(record.value.0, text);
    assert_eq!(record.get_value(), "hello");
    assert_eq!(dbr_enum::decode(LE, &[2, 1]).unwrap().get_value(), CaEnum(0x0102));
    assert_eq!(dbr_enum::decode(BE, &[2, 1]).unwrap().get_value(), CaEnum(0x0201));
    assert_eq!(dbr_char::decode(LE, &[200]).unwrap().get_value(), 200);
    assert_eq!(dbr_short::decode(LE, &(-7i16).to_le_bytes()).unwrap().get_value(), -7);
    assert_eq!(dbr_long::decode(BE, &(-70000i32).to_be_bytes()).unwrap().get_value(), -70000);
    let single = dbr_float::decode(LE, &1.5f32.to_le_bytes()).unwrap().get_value();
    assert_eq!(single, FloatBits(1.5f32.to_bits()));
    assert_eq!(f32::from_bits(single.0), 1.5);
    let double = dbr_double::decode(BE, &(-2.75f64).to_be_bytes()).unwrap().get_value();
    assert_eq!(double, DoubleBits((-2.75f64).to_bits()));
    assert_eq!(f64::from_bits(double.0), -2.75);
    assert_eq!(dbr_short::decode(LE, &0i16.to_le_bytes()).unwrap().get_extra(), ());
}

#[test]
fn records_need_their_fixed_part() {
    assert!(dbr_string::decode(LE, &[0; 39]).is_none());
    assert!(dbr_string::decode(LE, &[0; 40]).is_some());
    assert!(dbr_enum::decode(LE, &[0; 1]).is_none());
    assert!(dbr_char::decode(LE, &[]).is_none());
    assert!(dbr_short::decode(LE, &[0; 1]).is_none());
    assert!(dbr_long::decode(LE, &[0; 3]).is_none());
    assert!(dbr_float::decode(LE, &[0; 3]).is_none());
    assert!(dbr_double::decode(LE, &[0; 7]).is_none());
    assert!(dbr_double::decode(LE, &[0; 8]).is_some());
    assert!(dbr_time_string::decode(LE, &[0; 51]).is_none());
    assert!(dbr_time_string::decode(LE, &[0; 52]).is_some());
    assert!(dbr_time_enum::decode(LE, &[0; 15]).is_none());
    assert!(dbr_time_enum::decode(LE, &[0; 16]).is_some());
    assert!(dbr_time_char::decode(LE, &[0; 15]).is_none());
    assert!(dbr_time_char::decode(LE, &[0; 16]).is_some());
    assert!(dbr_time_short::decode(LE, &[0; 15]).is_none());
    assert!(dbr_time_short::decode(LE, &[0; 16]).is_some());
    assert!(dbr_time_long::decode(LE, &[0; 15]).is_none());
    assert!(dbr_time_long::decode(LE, &[0; 16]).is_some());
    assert!(dbr_time_float::decode(LE, &[0; 15]).is_none());
    assert!(dbr_time_float::decode(LE, &[0; 16]).is_some());
    assert!(dbr_time_double::decode(LE, &[0; 23]).is_none());
    assert!(dbr_time_double::decode(LE, &[0; 24]).is_some());
    assert!(dbr_ctrl_enum::decode(LE, &[0; 423]).is_none());
    assert!(dbr_ctrl_enum::decode(LE, &[0; 424]).is_some());
    assert!(dbr_ctrl_char::decode(LE, &[0; 21]).is_none());
    assert!(dbr_ctrl_char::decode(LE, &[0; 22]).is_some());
    assert!(dbr_ctrl_short::decode(LE, &[0; 29]).is_none());
    assert!(dbr_ctrl_short::decode(LE, &[0; 30]).is_some());
    assert!(dbr_ctrl_long::decode(LE, &[0; 47]).is_none());
    assert!(dbr_ctrl_long::decode(LE, &[0; 48]).is_some());
    assert!(dbr_ctrl_float::decode(LE, &[0; 51]).is_none());
    assert!(dbr_ctrl_float::decode(LE, &[0; 52]).is_some());
    assert!(dbr_ctrl_double::decode(LE, &[0; 87]).is_none());
    assert!(dbr_ctrl_double::decode(LE, &[0; 88]).is_some());
}

#[test]
fn timed_records() {
    let mut buf = with_status_and_time(52);
    put(&mut buf, 12, &[0; 40]);
    put(&mut buf, 12, b"on");
    let record = dbr_time_string::decode(LE, &buf).unwrap();
    assert_eq!(record.status_severity, STATUS);
    assert_eq!(record.raw_time, EpicsTimeStamp { secs: 1000, nsec: 5 });
    assert_eq!(record.get_value(), "on");
    assert_eq!(record.get_extra(), (STATUS, TIME));

    let mut buf = with_status_and_time(16);
    put(&mut buf, 14, &9u16.to_le_bytes());
    let record = dbr_time_enum::decode(LE, &buf).unwrap();
    assert_eq!((record.get_value(), record.get_extra()), (CaEnum(9), (STATUS, TIME)));

    let mut buf = with_status_and_time(16);
    buf[15] = 77;
    let record = dbr_time_char::decode(LE, &buf).unwrap();
    assert_eq!((record.get_value(), record.get_extra()), (77, (STATUS, TIME)));

    let mut buf = with_status_and_time(16);
    put(&mut buf, 14, &(-300i16).to_le_bytes());
    let record = dbr_time_short::decode(LE, &buf).unwrap();
    assert_eq!((record.get_value(), record.get_extra()), (-300, (STATUS, TIME)));

    let mut buf = with_status_and_time(16);
    put(&mut buf, 12, &123456789i32.to_le_bytes());
    let record = dbr_time_long::decode(LE, &buf).unwrap();
    assert_eq!((record.get_value(), record.get_extra()), (123456789, (STATUS, TIME)));

    let mut buf = with_status_and_time(16);
    put(&mut buf, 12, &0.5f32.to_le_bytes());
    let record = dbr_time_float::decode(LE, &buf).unwrap();
    assert_eq!(f32::from_bits(record.get_value().0), 0.5);
    assert_eq!(record.get_extra(), (STATUS, TIME));

    let mut buf = with_status_and_time(24);
    put(&mut buf, 16, &3.25f64.to_le_bytes());
    let record = dbr_time_double::decode(LE, &buf).unwrap();
    assert_eq!(f64::from_bits(record.get_value().0), 3.25);
    assert_eq!(record.get_extra(), (STATUS, TIME));
}

#[test]
fn timed_record_in_big_endian() {
    let mut buf = vec![0xee; 24];
    put(&mut buf, 0, &(-1i16).to_be_bytes());
    put(&mut buf, 2, &258i16.to_be_bytes());
    put(&mut buf, 4, &0x01020304u32.to_be_bytes());
    put(&mut buf, 8, &999_999_999u32.to_be_bytes());
    put(&mut buf, 16, &3.25f64.to_be_bytes());
    let record = dbr_time_double::decode(BE, &buf).unwrap();
    assert_eq!(record.status_severity, StatusSeverity { status: -1, severity: 258 });
    assert_eq!(record.raw_time, EpicsTimeStamp { secs: 0x01020304, nsec: 999_999_999 });
    assert_eq!(record.value, DoubleBits(3.25f64.to_bits()));
    assert_eq!(
        record.get_extra().1,
        UnixTime { secs: 631152000 + 0x01020304, nanos: 999_999_999 }
    );
}

#[test]
fn control_records_of_integers() {
    let mut buf = with_status(22);
    put(&mut buf, 4, b"V\0\0\0\0\0\0\0");
    put(&mut buf, 12, &[8, 1, 7, 6, 3, 2, 9, 0]);
    buf[21] = 5;
    let record = dbr_ctrl_char::decode(LE, &buf).unwrap();
    let limits = CtrlLimits {
        upper_disp_limit: 8u8,
        lower_disp_limit: 1,
        upper_alarm_limit: 7,
        upper_warning_limit: 6,
        lower_warning_limit: 3,
        lower_alarm_limit: 2,
        upper_ctrl_limit: 9,
        lower_ctrl_limit: 0,
    };
    assert_eq!(record.get_value(), 5);
    assert_eq!(record.get_extra(), (STATUS, FixedCtrl { units: "V".to_string(), limits }));

    let mut buf = with_status(30);
    put(&mut buf, 4, b"counts\0\0");
    for (i, limit) in [80i16, -10, 70, 60, -3, -20, 90, -90].iter().enumerate() {
        put(&mut buf, 12 + 2 * i, &limit.to_le_bytes());
    }
    put(&mut buf, 28, &(-5i16).to_le_bytes());
    let record = dbr_ctrl_short::decode(LE, &buf).unwrap();
    let limits = CtrlLimits {
        upper_disp_limit: 80i16,
        lower_disp_limit: -10,
        upper_alarm_limit: 70,
        upper_warning_limit: 60,
        lower_warning_limit: -3,
        lower_alarm_limit: -20,
        upper_ctrl_limit: 90,
        lower_ctrl_limit: -90,
    };
    assert_eq!(record.get_value(), -5);
    assert_eq!(record.get_extra(), (STATUS, FixedCtrl { units: "counts".to_string(), limits }));

    let mut buf = with_status(48);
    put(&mut buf, 4, b"12345678");
    for (i, limit) in [800000i32, -1, 700000, 600000, -300000, -200000, 900000, -900000]
        .iter()
        .enumerate()
    {
        put(&mut buf, 12 + 4 * i, &limit.to_le_bytes());
    }
    put(&mut buf, 44, &1234567i32.to_le_bytes());
    let record = dbr_ctrl_long::decode(LE, &buf).unwrap();
    let limits = CtrlLimits {
        upper_disp_limit: 800000i32,
        lower_disp_limit: -1,
        upper_alarm_limit: 700000,
        upper_warning_limit: 600000,
        lower_warning_limit: -300000,
        lower_alarm_limit: -200000,
        upper_ctrl_limit: 900000,
        lower_ctrl_limit: -900000,
    };
    assert_eq!(record.get_value(), 1234567);
    assert_eq!(record.get_extra(), (STATUS, FixedCtrl { units: "12345678".to_string(), limits }));
}

#[test]
fn control_records_of_floats() {
    let values = [8.5f32, -1.5, 7.5, 6.5, -3.5, -2.5, 9.5, -9.5];
    let mut buf = with_status(52);
    put(&mut buf, 4, &3i16.to_le_bytes());
    put(&mut buf, 8, b"mA\0\0\0\0\0\0");
    for (i, limit) in values.iter().enumerate() {
        put(&mut buf, 16 + 4 * i, &limit.to_le_bytes());
    }
    put(&mut buf, 48, &0.25f32.to_le_bytes());
    let record = dbr_ctrl_float::decode(LE, &buf).unwrap();
    let limits = CtrlLimits {
        upper_disp_limit: FloatBits(8.5f32.to_bits()),
        lower_disp_limit: FloatBits((-1.5f32).to_bits()),
        upper_alarm_limit: FloatBits(7.5f32.to_bits()),
        upper_warning_limit: FloatBits(6.5f32.to_bits()),
        lower_warning_limit: FloatBits((-3.5f32).to_bits()),
        lower_alarm_limit: FloatBits((-2.5f32).to_bits()),
        upper_ctrl_limit: FloatBits(9.5f32.to_bits()),
        lower_ctrl_limit: FloatBits((-9.5f32).to_bits()),
    };
    assert_eq!(f32::from_bits(record.get_value().0), 0.25);
    assert_eq!(
        record.get_extra(),
        (STATUS, FloatCtrl { units: "mA".to_string(), precision: 3, limits })
    );

    let values = [8.5f64, -1.5, 7.5, 6.5, -3.5, -2.5, 9.5, -9.5];
    let mut buf = with_status(88);
    put(&mut buf, 4, &(-2i16).to_le_bytes());
    put(&mut buf, 8, b"degC\0\0\0\0");
    for (i, limit) in values.iter().enumerate() {
        put(&mut buf, 16 + 8 * i, &limit.to_le_bytes());
    }
    put(&mut buf, 80, &3.25f64.to_le_bytes());
    let record = dbr_ctrl_double::decode(LE, &buf).unwrap();
    let (status, ctrl) = record.get_extra();
    assert_eq!(f64::from_bits(record.get_value().0), 3.25);
    assert_eq!(status, STATUS);
    assert_eq!(ctrl.units, "degC");
    assert_eq!(ctrl.precision, -2);
    assert_eq!(f64::from_bits(ctrl.limits.upper_disp_limit.0), 8.5);
    assert_eq!(f64::from_bits(ctrl.limits.lower_disp_limit.0), -1.5);
    assert_eq!(f64::from_bits(ctrl.limits.upper_alarm_limit.0), 7.5);
    assert_eq!(f64::from_bits(ctrl.limits.upper_warning_limit.0), 6.5);
    assert_eq!(f64::from_bits(ctrl.limits.lower_warning_limit.0), -3.5);
    assert_eq!(f64::from_bits(ctrl.limits.lower_alarm_limit.0), -2.5);
    assert_eq!(f64::from_bits(ctrl.limits.upper_ctrl_limit.0), 9.5);
    assert_eq!(f64::from_bits(ctrl.limits.lower_ctrl_limit.0), -9.5);
}

/// The control record of an enumeration whose sixteen slots hold the labels
/// "state0" to "state15", with the given count, and with the value 2.
fn enum_control_record(enum_count: i16) -> Vec<u8> {
    let mut buf = with_status(424);
    put(&mut buf, 4, &enum_count.to_le_bytes());
    for slot in 0..16 {
        let label = format!("state{}", slot);
        put(&mut buf, 6 + 26 * slot, &[0; 26]);
        put(&mut buf, 6 + 26 * slot, label.as_bytes());
    }
    put(&mut buf, 422, &2u16.to_le_bytes());
    buf
}

#[test]
fn enumeration_control_record_returns_the_reported_labels() {
    let record = dbr_ctrl_enum::decode(LE, &enum_control_record(3)).unwrap();
    assert_eq!(record.enum_count, 3);
    assert_eq!(record.get_value(), CaEnum(2));
    assert_eq!(
        record.get_extra(),
        (STATUS, vec!["state0".to_string(), "state1".to_string(), "state2".to_string()])
    );
}

#[test]
fn enumeration_label_counts_at_the_edges() {
    let labels = |count: i16| {
        dbr_ctrl_enum::decode(LE, &enum_control_record(count)).unwrap().get_extra().1
    };
    assert_eq!(labels(0), Vec::<String>::new());
    assert_eq!(labels(1), vec!["state0".to_string()]);
    assert_eq!(labels(16).len(), 16);
    assert_eq!(labels(16)[15], "state15");
    assert_eq!(labels(17).len(), 16);
    assert_eq!(labels(i16::MAX).len(), 16);
    assert_eq!(labels(-1).len(), 16);
    assert_eq!(labels(i16::MIN).len(), 16);
}

#[test]
fn enumeration_label_that_fills_its_slot() {
    let mut buf = enum_control_record(2);
    put(&mut buf, 6 + 26, b"abcdefghijklmnopqrstuvwxyz");
    let labels = dbr_ctrl_enum::decode(LE, &buf).unwrap().get_extra().1;
    assert_eq!(labels, vec!["state0".to_string(), "abcdefghijklmnopqrstuvwxyz".to_string()]);
}

#[test]
fn runs_of_values() {
    let mut buf = with_status_and_time(14 + 6);
    for (i, value) in [5i16, -6, 7].iter().enumerate() {
        put(&mut buf, 14 + 2 * i, &value.to_le_bytes());
    }
    assert_eq!(dbr_time_short::get_value_vec(LE, &buf, 3), Some(vec![5, -6, 7]));
    assert_eq!(dbr_time_short::get_value_vec(LE, &buf, 2), Some(vec![5, -6]));
    assert_eq!(dbr_time_short::get_value_vec(LE, &buf, 0), Some(vec![]));
    assert_eq!(dbr_time_short::get_value_vec(LE, &buf, 4), None);
    assert_eq!(dbr_time_short::get_value_vec(LE, &buf[..13], 0), None);
    assert_eq!(dbr_time_short::get_value_vec(LE, &buf, usize::MAX), None);

    let mut texts = vec![0u8; 120];
    put(&mut texts, 0, b"one");
    put(&mut texts, 40, b"two");
    put(&mut texts, 80, b"three");
    assert_eq!(
        dbr_string::get_value_vec(LE, &texts, 3),
        Some(vec!["one".to_string(), "two".to_string(), "three".to_string()])
    );
    assert_eq!(dbr_string::get_value_vec(LE, &texts, 4), None);

    let bytes = [1u8, 2, 3, 4, 5, 6, 7, 8];
    assert_eq!(dbr_char::get_value_vec(LE, &bytes, 8), Some(bytes.to_vec()));
    assert_eq!(dbr_char::get_value_vec(LE, &bytes, 9), None);
    assert_eq!(dbr_enum::get_value_vec(BE, &bytes, 2), Some(vec![CaEnum(0x0102), CaEnum(0x0304)]));
    assert_eq!(dbr_long::get_value_vec(BE, &bytes, 2), Some(vec![0x01020304, 0x05060708]));
    assert_eq!(
        dbr_float::get_value_vec(BE, &bytes, 2),
        Some(vec![FloatBits(0x01020304), FloatBits(0x05060708)])
    );
    assert_eq!(
        dbr_double::get_value_vec(LE, &bytes, 1),
        Some(vec![DoubleBits(0x0807060504030201)])
    );
    assert_eq!(dbr_double::get_value_vec(LE, &bytes, 2), None);
}

#[test]
fn runs_of_values_behind_a_control_header() {
    let mut buf = with_status(80 + 16);
    put(&mut buf, 80, &1.0f64.to_le_bytes());
    put(&mut buf, 88, &(-1.0f64).to_le_bytes());
    let run = dbr_ctrl_double::get_value_vec(LE, &buf, 2).unwrap();
    assert_eq!(run.iter().map(|bits| f64::from_bits(bits.0)).collect::<Vec<f64>>(), vec![1.0, -1.0]);
    let mut buf = with_status(422 + 4);
    put(&mut buf, 422, &[1, 0, 2, 0]);
    assert_eq!(dbr_ctrl_enum::get_value_vec(LE, &buf, 2), Some(vec![CaEnum(1), CaEnum(2)]));
    let mut buf = with_status(21 + 2);
    put(&mut buf, 21, &[9, 8]);
    assert_eq!(dbr_ctrl_char::get_value_vec(LE, &buf, 2), Some(vec![9, 8]));
}
