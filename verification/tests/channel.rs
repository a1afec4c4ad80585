use epics_ca::caunion::BasicDbrType;
use epics_ca::cadef::{ca_preemptive_callback_select, CA_OP_CONN_DOWN, CA_OP_CONN_UP, ECA_NORMAL};
use epics_ca::channel::{
    connection_on, get_element_count, Channel, ChannelConnection, ChannelState,
};

#[test]
fn new_channel_is_unconnected() {
    let channel: Channel<u32> = Channel::new("SR-DI-DCCT-01:SIGNAL");
    assert_eq!(channel.name, "SR-DI-DCCT-01:SIGNAL");
    assert_eq!(channel.connection(), ChannelConnection::Unconnected);
    let state: ChannelState<u32> = ChannelState::new();
    assert_eq!(state.connection(), ChannelConnection::Unconnected);
}

#[test]
fn waiter_registered_before_link_up_is_released() {
    let mut channel: Channel<u32> = Channel::new("X");
    assert_eq!(channel.wait_connect(11), None);
    assert_eq!(channel.wait_connect(12), None);
    let released = channel.on_connect(CA_OP_CONN_UP, 6, 1);
    assert_eq!(released, vec![11, 12]);
    assert_eq!(channel.connection(), ChannelConnection::Connected(BasicDbrType::DbrDouble, 1));
    assert_eq!(channel.on_connect(CA_OP_CONN_UP, 6, 1), Vec::<u32>::new());
}

#[test]
fn waiter_registered_after_link_up_resolves_at_once() {
    let mut channel: Channel<u32> = Channel::new("X");
    assert_eq!(channel.on_connect(CA_OP_CONN_UP, 1, 100), Vec::<u32>::new());
    assert_eq!(channel.wait_connect(1), Some((BasicDbrType::DbrShort, 100)));
    assert_eq!(channel.wait_connect(2), Some((BasicDbrType::DbrShort, 100)));
    assert_eq!(channel.on_connect(CA_OP_CONN_DOWN, 1, 100), Vec::<u32>::new());
}

#[test]
fn link_down_after_link_up_disconnects_and_wakes_nobody() {
    let mut channel: Channel<u32> = Channel::new("X");
    channel.on_connect(CA_OP_CONN_UP, 0, 1);
    assert_eq!(channel.on_connect(CA_OP_CONN_DOWN, 0, 1), Vec::<u32>::new());
    assert_eq!(channel.connection(), ChannelConnection::Disconnected);
    assert_eq!(channel.wait_connect(3), None);
    assert_eq!(channel.on_connect(CA_OP_CONN_DOWN, 0, 1), Vec::<u32>::new());
    assert_eq!(channel.on_connect(CA_OP_CONN_UP, 5, 2), vec![3]);
    assert_eq!(channel.wait_connect(4), Some((BasicDbrType::DbrLong, 2)));
}

#[test]
fn link_up_without_type_or_count_is_disconnected() {
    let mut channel: Channel<u32> = Channel::new("X");
    assert_eq!(channel.wait_connect(1), None);
    assert_eq!(channel.on_connect(CA_OP_CONN_UP, 6, 0), Vec::<u32>::new());
    assert_eq!(channel.connection(), ChannelConnection::Disconnected);
    assert_eq!(channel.on_connect(CA_OP_CONN_UP, -1, 1), Vec::<u32>::new());
    assert_eq!(channel.connection(), ChannelConnection::Disconnected);
    assert_eq!(channel.on_connect(CA_OP_CONN_UP, 7, 1), Vec::<u32>::new());
    assert_eq!(channel.connection(), ChannelConnection::Disconnected);
    assert_eq!(channel.on_connect(CA_OP_CONN_UP, 3, 1), vec![1]);
    assert_eq!(channel.connection(), ChannelConnection::Connected(BasicDbrType::DbrEnum, 1));
}

#[test]
fn unknown_signal_is_disconnected() {
    assert_eq!(connection_on(0, 6, 1), ChannelConnection::Disconnected);
    assert_eq!(connection_on(8, 6, 1), ChannelConnection::Disconnected);
    assert_eq!(connection_on(-6, 6, 1), ChannelConnection::Disconnected);
    assert_eq!(connection_on(7, 6, 1), ChannelConnection::Disconnected);
    assert_eq!(
        connection_on(6, 6, 1),
        ChannelConnection::Connected(BasicDbrType::DbrDouble, 1)
    );
    assert_eq!(CA_OP_CONN_UP, 6);
    assert_eq!(CA_OP_CONN_DOWN, 7);
}

#[test]
fn element_count_of_zero_is_not_connected() {
    assert_eq!(get_element_count(0), None);
    assert_eq!(get_element_count(1), Some(1));
    assert_eq!(get_element_count(4096), Some(4096));
}

#[test]
fn state_machine_without_a_name() {
    let mut state: ChannelState<&str> = ChannelState::new();
    assert_eq!(state.wait_connect("a"), None);
    assert_eq!(state.on_connect(7, 0, 0), Vec::<&str>::new());
    assert_eq!(state.wait_connect("b"), None);
    assert_eq!(state.on_connect(6, 4, 3), vec!["a", "b"]);
    assert_eq!(state.wait_connect("c"), Some((BasicDbrType::DbrChar, 3)));
}

#[test]
fn numbers_of_the_native_interface() {
    assert_eq!(ECA_NORMAL, 1);
    assert_eq!(ca_preemptive_callback_select::ca_disable_preemptive_callback.code(), 0);
    assert_eq!(ca_preemptive_callback_select::ca_enable_preemptive_callback.code(), 1);
}
