use epics_ca::byte_order::ByteOrder;
use epics_ca::caget::{CaGetCore, ReadRequest, CA};
use epics_ca::callback::AsyncWaker;
use epics_ca::caunion::{BasicDbrType, CaUnion};
use epics_ca::cadef::CA_OP_CONN_UP;
use epics_ca::channel::Channel;
use epics_ca::db_access::DoubleBits;

#[test]
fn read_of_a_double_from_connect_to_value() {
    // The caller names the variable and asks for its link: not up yet.
    let mut channel: Channel<u32> = Channel::new("X");
    assert_eq!(channel.name, "X");
    assert_eq!(channel.wait_connect(1), None);
    // The bus reports the link up, with 64-bit floats, one element.
    assert_eq!(channel.on_connect(CA_OP_CONN_UP, 6, 1), vec![1]);
    // The released task asks again and is answered.
    let (datatype, count) = channel.wait_connect(1).unwrap();
    assert_eq!((datatype, count), (BasicDbrType::DbrDouble, 1));
    // It issues a scalar read and waits at the bridge.
    assert_eq!(<DoubleBits as CaGetCore>::request(), ReadRequest { datatype: 6, count: 1 });
    let mut bridge: AsyncWaker<DoubleBits, u32> = AsyncWaker::new();
    assert_eq!(bridge.wait_for(1), Ok(None));
    // The callback delivers eight bytes, which are decoded and deposited.
    let delivered = 3.25f64.to_ne_bytes();
    let value = <DoubleBits as CaGetCore>::from_response(ByteOrder::native(), &delivered, 1);
    assert_eq!(bridge.wake(value.unwrap()), Ok(Some(1)));
    // The released task takes the result.
    let result = bridge.wait_for(1).unwrap().unwrap();
    assert_eq!(f64::from_bits(result.0), 3.25);
}

#[test]
fn read_of_an_untyped_value_follows_the_channel() {
    let mut channel: Channel<u32> = Channel::new("X");
    assert_eq!(channel.on_connect(CA_OP_CONN_UP, 6, 1), Vec::<u32>::new());
    let (datatype, _count) = channel.wait_connect(1).unwrap();
    assert_eq!(<CaUnion as CA>::request(datatype), ReadRequest { datatype: 6, count: 1 });
    let mut bridge: AsyncWaker<CaUnion, u32> = AsyncWaker::new();
    // Here the callback comes before the task reaches the bridge.
    let delivered = 3.25f64.to_ne_bytes();
    let value = <CaUnion as CA>::from_response(ByteOrder::native(), datatype, &delivered, 1);
    assert_eq!(bridge.wake(value.unwrap()), Ok(None));
    match bridge.wait_for(1) {
        Ok(Some(CaUnion::CaDouble(bits))) => assert_eq!(f64::from_bits(bits.0), 3.25),
        other => panic!("unexpected answer {:?}", other),
    }
}
