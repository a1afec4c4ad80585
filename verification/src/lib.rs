//! Client-side building blocks for reading process variables over a
//! control-system bus: the typed decoder for the bus's binary records, the
//! connection state of a channel, and the single-slot bridge that hands one
//! callback result to one waiting task.
//!
//! Everything here works on plain values. The bus itself, its callbacks and
//! the tasks that wait on them live with the caller, which feeds events into
//! the state machines of this crate and carries out what they answer.
//!
//! - [`byte_order`]: integers as they lie in a buffer.
//! - [`cadef`]: the numbers of the native client interface.
//! - [`db_access`]: the records of the bus, field by field.
//! - [`dbr`]: the readout of every record layout; text and time.
//! - [`caget`]: the shapes of result, the read that fetches each, and the
//!   reading of the response.
//! - [`caunion`]: results whose type follows the channel.
//! - [`channel`]: the connection state of a channel.
//! - [`callback`]: the bridge between a callback and the task that waits.

pub mod byte_order;
pub mod cadef;
pub mod caget;
pub mod callback;
pub mod caunion;
pub mod channel;
pub mod db_access;
pub mod dbr;
