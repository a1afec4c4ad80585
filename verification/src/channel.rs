//! The connection state of a channel, and the tasks that wait for it.
//!
//! The bus reports every change of a channel's reachability as an event. A
//! channel takes each event, and each task that asks whether it is connected,
//! in one step on its state: a task never sees a state between two events, and
//! an event never misses a task that has registered.

use vstd::prelude::*;
use crate::cadef::CA_OP_CONN_UP;
use crate::caunion::{BasicDbrType, field_type_of, get_field_type};

verus! {

/// What is known of a channel's link.
#[derive(Clone, Copy, Debug, PartialEq, Eq, Structural)]
pub enum ChannelConnection {
    /// No connection event has been seen yet.
    Unconnected,
    /// The link is down.
    Disconnected,
    /// The link is up; the type of the values and their number, which is not
    /// zero, are as the bus reported them when it came up.
    Connected(BasicDbrType, usize),
}

/// The number of elements that a reported count stands for. A count of zero
/// means that the channel is not really connected, and so does a count that
/// the machine's word cannot hold.
pub open spec fn element_count_of(count: u64) -> Option<usize> {
    if count == 0 || count > usize::MAX {
        None
    } else {
        Some(count as usize)
    }
}

/// The connection that an event leaves behind: connected where the signal is
/// "up" and both the type and the count that were read back are usable,
/// disconnected after every other event.
pub open spec fn connection_after(op: i64, field_type: i16, element_count: u64) -> ChannelConnection {
    if op == CA_OP_CONN_UP {
        match (field_type_of(field_type), element_count_of(element_count)) {
            (Some(datatype), Some(count)) => ChannelConnection::Connected(datatype, count),
            _ => ChannelConnection::Disconnected,
        }
    } else {
        ChannelConnection::Disconnected
    }
}

/// Reads the element count that the bus reports for a channel.
pub fn get_element_count(count: u64) -> (elements: Option<usize>)
    ensures
        elements == element_count_of(count),
        elements matches Some(n) ==> n > 0 && n == count,
{
    if count == 0 || count > usize::MAX as u64 {
        None
    } else {
        Some(count as usize)
    }
}

/// Decides what a connection event makes of a channel's link. `field_type`
/// and `element_count` are what the bus reports for the channel when the
/// event arrives; they count only where `op` is the "up" signal.
pub fn connection_on(op: i64, field_type: i16, element_count: u64) -> (connection:
    ChannelConnection)
    ensures
        connection == connection_after(op, field_type, element_count),
        connection !is Unconnected,
        connection matches ChannelConnection::Connected(_, count) ==> count > 0,
{
    if op == CA_OP_CONN_UP {
        match (get_field_type(field_type), get_element_count(element_count)) {
            (Some(datatype), Some(count)) => ChannelConnection::Connected(datatype, count),
            _ => ChannelConnection::Disconnected,
        }
    } else {
        ChannelConnection::Disconnected
    }
}

/// A channel's state as a value: its link, and the handles of the tasks that
/// wait for it to come up, in the order in which they came.
#[verifier::ext_equal]
pub struct ChannelModel<W> {
    pub connection: ChannelConnection,
    pub waiters: Seq<W>,
}

impl<W> ChannelModel<W> {
    /// What holds of every state that a channel can be in: tasks wait only
    /// while the link is not up, and a link that is up has elements.
    pub open spec fn wf(self) -> bool {
        self.connection matches ChannelConnection::Connected(_, count) ==> count > 0
            && self.waiters.len() == 0
    }

    /// The state of a channel that has just been created.
    pub open spec fn initial() -> ChannelModel<W> {
        ChannelModel { connection: ChannelConnection::Unconnected, waiters: Seq::empty() }
    }

    /// The state after a connection event.
    pub open spec fn after_event(self, op: i64, field_type: i16, element_count: u64) -> ChannelModel<
        W,
    > {
        let connection = connection_after(op, field_type, element_count);
        ChannelModel {
            connection,
            waiters: if connection is Connected {
                Seq::empty()
            } else {
                self.waiters
            },
        }
    }

    /// The handles of the tasks that a connection event releases.
    pub open spec fn released_by(self, op: i64, field_type: i16, element_count: u64) -> Seq<W> {
        if connection_after(op, field_type, element_count) is Connected {
            self.waiters
        } else {
            Seq::empty()
        }
    }

    /// The state after a task with handle `waker` has asked for the link.
    pub open spec fn after_wait(self, waker: W) -> ChannelModel<W> {
        if self.connection is Connected {
            self
        } else {
            ChannelModel { connection: self.connection, waiters: self.waiters.push(waker) }
        }
    }

    /// What a task that asks for the link is answered: type and count where
    /// it is up, nothing yet where it is not.
    pub open spec fn wait_answer(self) -> Option<(BasicDbrType, usize)> {
        match self.connection {
            ChannelConnection::Connected(datatype, count) => Some((datatype, count)),
            _ => None,
        }
    }
}

/// The link of a channel and the tasks that wait for it, each known by a
/// handle of type `W`.
pub struct ChannelState<W> {
    connection: ChannelConnection,
    wakers: Vec<W>,
}

impl<W> View for ChannelState<W> {
    type V = ChannelModel<W>;

    closed spec fn view(&self) -> ChannelModel<W> {
        ChannelModel { connection: self.connection, waiters: self.wakers@ }
    }
}

impl<W> ChannelState<W> {
    /// The state of a channel of which no event has been seen.
    pub fn new() -> (state: ChannelState<W>)
        ensures
            state@ == ChannelModel::<W>::initial(),
    {
        ChannelState { connection: ChannelConnection::Unconnected, wakers: Vec::new() }
    }

    /// What is known of the link.
    pub fn connection(&self) -> (connection: ChannelConnection)
        ensures
            connection == self@.connection,
    {
        self.connection
    }

    /// Takes a connection event.
    ///
    /// `op` is the event's signal; `field_type` and `element_count` are what
    /// the bus reports for the channel as the event arrives. Where the event
    /// connects the channel, the handles of all tasks that wait are handed
    /// back, in the order in which they came, for the caller to release them,
    /// and nobody waits any more. Any other event leaves the link down and
    /// the waiting tasks where they are.
    pub fn on_connect(&mut self, op: i64, field_type: i16, element_count: u64) -> (released: Vec<W>)
        ensures
            final(self)@ == old(self)@.after_event(op, field_type, element_count),
            released@ == old(self)@.released_by(op, field_type, element_count),
    {
        let connection = connection_on(op, field_type, element_count);
        let mut released: Vec<W> = Vec::new();
        match connection {
            ChannelConnection::Connected(_, _) => {
                std::mem::swap(&mut self.wakers, &mut released);
            },
            _ => {},
        }
        self.connection = connection;
        released
    }

    /// Asks for the link on behalf of the task with handle `waker`.
    ///
    /// Where the link is up the answer is there at once: the type and the
    /// count of the last connection event; the handle is not kept. Where it
    /// is not, the handle joins the tasks that wait, and the task is to
    /// suspend until a connection event releases it and then to ask again.
    pub fn wait_connect(&mut self, waker: W) -> (answer: Option<(BasicDbrType, usize)>)
        ensures
            answer == old(self)@.wait_answer(),
            final(self)@ == old(self)@.after_wait(waker),
    {
        match self.connection {
            ChannelConnection::Connected(datatype, count) => Some((datatype, count)),
            _ => {
                self.wakers.push(waker);
                None
            },
        }
    }
}

/// The binding to one named process variable.
pub struct Channel<W> {
    /// The name of the process variable.
    pub name: String,
    /// Its link and the tasks that wait for it.
    pub state: ChannelState<W>,
}

impl<W> View for Channel<W> {
    type V = ChannelModel<W>;

    open spec fn view(&self) -> ChannelModel<W> {
        self.state@
    }
}

impl<W> Channel<W> {
    /// A channel for the process variable `pv`, of which no connection event
    /// has been seen and for which nobody waits.
    pub fn new(pv: &str) -> (channel: Channel<W>)
        ensures
            channel.name@ == pv@,
            channel@ == ChannelModel::<W>::initial(),
    {
        Channel { name: pv.to_owned(), state: ChannelState::new() }
    }

    /// What is known of the link.
    pub fn connection(&self) -> (connection: ChannelConnection)
        ensures
            connection == self@.connection,
    {
        self.state.connection()
    }

    /// Takes a connection event, as [`ChannelState::on_connect`] does.
    pub fn on_connect(&mut self, op: i64, field_type: i16, element_count: u64) -> (released: Vec<W>)
        ensures
            final(self).name == old(self).name,
            final(self)@ == old(self)@.after_event(op, field_type, element_count),
            released@ == old(self)@.released_by(op, field_type, element_count),
    {
        self.state.on_connect(op, field_type, element_count)
    }

    /// Asks for the link on behalf of the task with handle `waker`, as
    /// [`ChannelState::wait_connect`] does.
    pub fn wait_connect(&mut self, waker: W) -> (answer: Option<(BasicDbrType, usize)>)
        ensures
            final(self).name == old(self).name,
            answer == old(self)@.wait_answer(),
            final(self)@ == old(self)@.after_wait(waker),
    {
        self.state.wait_connect(waker)
    }
}

/// Whether an event connects: its signal is "up", and the type and the count
/// that were read back are usable.
pub open spec fn connects(op: i64, field_type: i16, element_count: u64) -> bool {
    &&& op == CA_OP_CONN_UP
    &&& field_type_of(field_type) is Some
    &&& element_count_of(element_count) is Some
}

/// An event leaves the link up exactly where it connects, with the type and
/// the count that were read back; every other event leaves it down.
pub proof fn lemma_connection_after(op: i64, field_type: i16, element_count: u64)
    ensures
        connects(op, field_type, element_count) ==> connection_after(op, field_type, element_count)
            == ChannelConnection::Connected(
            field_type_of(field_type).unwrap(),
            element_count_of(element_count).unwrap(),
        ),
        !connects(op, field_type, element_count) ==> connection_after(op, field_type, element_count)
            == ChannelConnection::Disconnected,
{
}

/// Every state that a channel reaches is well-formed: the first one is, and
/// events and waiting tasks keep it so.
pub proof fn lemma_wf_is_kept<W>(
    state: ChannelModel<W>,
    op: i64,
    field_type: i16,
    element_count: u64,
    waker: W,
)
    ensures
        ChannelModel::<W>::initial().wf(),
        state.after_event(op, field_type, element_count).wf(),
        state.wf() ==> state.after_wait(waker).wf(),
{
}

/// A task that registered while the link was not up is released by the event
/// that connects, however many events that do not connect come in between.
pub proof fn lemma_waiter_is_released<W>(
    state: ChannelModel<W>,
    waker: W,
    op: i64,
    field_type: i16,
    element_count: u64,
)
    requires
        !(state.connection is Connected),
    ensures
        state.wait_answer() is None,
        state.after_wait(waker).waiters.contains(waker),
        !connects(op, field_type, element_count) ==> state.after_wait(waker).after_event(
            op,
            field_type,
            element_count,
        ).waiters == state.after_wait(waker).waiters,
        connects(op, field_type, element_count) ==> state.after_wait(waker).released_by(
            op,
            field_type,
            element_count,
        ).contains(waker),
        connects(op, field_type, element_count) ==> state.after_wait(waker).after_event(
            op,
            field_type,
            element_count,
        ).waiters.len() == 0,
{
    let queued = state.after_wait(waker);
    assert(queued.waiters[state.waiters.len() as int] == waker);
}

/// One connection event: its signal, and the field type and the element
/// count that the bus reports as it arrives.
pub type ConnectionEvent = (i64, i16, u64);

impl<W> ChannelModel<W> {
    /// The state after a run of connection events, in their order.
    pub open spec fn after_events(self, events: Seq<ConnectionEvent>) -> ChannelModel<W>
        decreases events.len(),
    {
        if events.len() == 0 {
            self
        } else {
            let last = events.last();
            self.after_events(events.drop_last()).after_event(last.0, last.1, last.2)
        }
    }
}

/// Events that do not connect, however many, leave the waiting tasks where
/// they are; the event that connects after them releases them all, in the
/// order in which they came.
pub proof fn lemma_waiters_stay_until_connect<W>(
    state: ChannelModel<W>,
    events: Seq<ConnectionEvent>,
    op: i64,
    field_type: i16,
    element_count: u64,
)
    requires
        forall|i: int|
            0 <= i < events.len() ==> !connects(
                (#[trigger] events[i]).0,
                events[i].1,
                events[i].2,
            ),
        connects(op, field_type, element_count),
    ensures
        state.after_events(events).waiters == state.waiters,
        events.len() > 0 ==> state.after_events(events).connection
            == ChannelConnection::Disconnected,
        state.after_events(events).released_by(op, field_type, element_count) == state.waiters,
    decreases events.len(),
{
    if events.len() > 0 {
        let earlier = events.drop_last();
        assert forall|i: int| 0 <= i < earlier.len() implies !connects(
            (#[trigger] earlier[i]).0,
            earlier[i].1,
            earlier[i].2,
        ) by {
            assert(earlier[i] == events[i]);
        }
        lemma_waiters_stay_until_connect(state, earlier, op, field_type, element_count);
        let last = events.last();
        assert(!connects(last.0, last.1, last.2));
    }
}

/// A task that asks while the link is up is answered at once, with the type
/// and the count of the link, and is not made to wait.
pub proof fn lemma_connected_answers_at_once<W>(state: ChannelModel<W>, waker: W)
    requires
        state.connection is Connected,
    ensures
        state.wait_answer() == Some((state.connection->0, state.connection->1)),
        state.after_wait(waker) == state,
{
}

/// An event that does not connect, such as "down" after "up", leaves the link
/// down, releases nobody, and leaves the waiting tasks where they are.
pub proof fn lemma_down_releases_nobody<W>(
    state: ChannelModel<W>,
    op: i64,
    field_type: i16,
    element_count: u64,
)
    requires
        !connects(op, field_type, element_count),
    ensures
        state.after_event(op, field_type, element_count).connection
            == ChannelConnection::Disconnected,
        state.released_by(op, field_type, element_count).len() == 0,
        state.after_event(op, field_type, element_count).waiters == state.waiters,
        state.after_event(op, field_type, element_count).wait_answer() is None,
{
}

} // verus!
