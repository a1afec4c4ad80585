use epics_ca::byte_order::ByteOrder;

#[test]
fn little_endian_integers() {
    let buf = [0xaa, 0x01, 0x02, 0x03, 0x04, 0x05, 0x06, 0x07, 0x08];
    let order = ByteOrder::LittleEndian;
    assert_eq!(order.read_u16(&buf, 1), 0x0201);
    assert_eq!(order.read_u32(&buf, 1), 0x04030201);
    assert_eq!(order.read_u64(&buf, 1), 0x0807060504030201);
    assert_eq!(order.read_i16(&buf, 1), 0x0201);
    assert_eq!(order.read_i32(&buf, 1), 0x04030201);
}

#[test]
fn big_endian_integers() {
    let buf = [0xaa, 0x01, 0x02, 0x03, 0x04, 0x05, 0x06, 0x07, 0x08];
    let order = ByteOrder::BigEndian;
    assert_eq!(order.read_u16(&buf, 1), 0x0102);
    assert_eq!(order.read_u32(&buf, 1), 0x01020304);
    assert_eq!(order.read_u64(&buf, 1), 0x0102030405060708);
    assert_eq!(order.read_i16(&buf, 1), 0x0102);
    assert_eq!(order.read_i32(&buf, 1), 0x01020304);
}

#[test]
fn signed_integers_are_twos_complement() {
    for value in [i16::MIN, -2, -1, 0, 1, i16::MAX] {
        assert_eq!(ByteOrder::LittleEndian.read_i16(&value.to_le_bytes(), 0), value);
        assert_eq!(ByteOrder::BigEndian.read_i16(&value.to_be_bytes(), 0), value);
    }
    for value in [i32::MIN, -65023, -1, 0, 1, i32::MAX] {
        assert_eq!(ByteOrder::LittleEndian.read_i32(&value.to_le_bytes(), 0), value);
        assert_eq!(ByteOrder::BigEndian.read_i32(&value.to_be_bytes(), 0), value);
    }
}

#[test]
fn unsigned_extremes() {
    assert_eq!(ByteOrder::LittleEndian.read_u16(&[0xff, 0xff], 0), u16::MAX);
    assert_eq!(ByteOrder::BigEndian.read_u32(&[0xff; 4], 0), u32::MAX);
    assert_eq!(ByteOrder::LittleEndian.read_u64(&[0xff; 8], 0), u64::MAX);
    assert_eq!(ByteOrder::BigEndian.read_u64(&u64::MAX.to_be_bytes(), 0), u64::MAX);
    assert_eq!(ByteOrder::BigEndian.read_u64(&[0; 8], 0), 0);
}

#[test]
fn probe_tells_the_orders_apart() {
    assert_eq!(ByteOrder::from_probe(1), ByteOrder::LittleEndian);
    assert_eq!(ByteOrder::from_probe(256), ByteOrder::BigEndian);
}

#[test]
fn native_order_reads_what_the_machine_wrote() {
    let order = ByteOrder::native();
    assert_eq!(order.read_u16(&0x1234u16.to_ne_bytes(), 0), 0x1234);
    assert_eq!(order.read_i16(&(-2i16).to_ne_bytes(), 0), -2);
    assert_eq!(order.read_u32(&0x12345678u32.to_ne_bytes(), 0), 0x12345678);
    assert_eq!(order.read_i32(&(-3i32).to_ne_bytes(), 0), -3);
    assert_eq!(order.read_u64(&0x123456789abcdef0u64.to_ne_bytes(), 0), 0x123456789abcdef0);
    let expected = if u16::from_ne_bytes([1, 0]) == 1 {
        ByteOrder::LittleEndian
    } else {
        ByteOrder::BigEndian
    };
    assert_eq!(order, expected);
}
