use vstd::prelude::*;

use crate::waveform::Waveform;

verus! {

/// Number of control events the bus can hold before the (non-real-time)
/// producer blocks.
pub const CHANNEL_CAPACITY: usize = 100;

/// Frequency the controller starts out with, in millihertz.
pub const INITIAL_CONTROL_FREQ_MHZ: u32 = 1000;

/// A control change travelling from the non-real-time producer to a
/// real-time consumer. Frequencies are carried in millihertz.
#[derive(Copy, Clone, Debug, PartialEq, Eq, Structural)]
pub enum Event {
    Frequency(u32),
    Wave(Waveform),
}

#[verifier::external_type_specification]
#[verifier::external_body]
#[verifier::reject_recursive_types(T)]
pub struct ExSender<T>(crossbeam_channel::Sender<T>);

#[verifier::external_type_specification]
#[verifier::external_body]
#[verifier::reject_recursive_types(T)]
pub struct ExReceiver<T>(crossbeam_channel::Receiver<T>);

/// Relies on crossbeam_channel::bounded: a FIFO channel that holds at most
/// `cap` messages. `cap` is kept small enough that building the backing
/// array cannot fail.
#[verifier::external_body]
pub fn event_channel(cap: usize) -> (crossbeam_channel::Sender<Event>, crossbeam_channel::Receiver<Event>)
    requires
        cap <= 0x1000_0000,
{
    crossbeam_channel::bounded(cap)
}

/// Relies on crossbeam_channel::Sender::send: blocks while the channel is
/// full, and fails only when every receiver is gone, handing the
/// unsent event back.
#[verifier::external_body]
pub fn send_event(tx: &crossbeam_channel::Sender<Event>, e: Event) -> (r: Result<(), Event>)
    ensures
        (r matches Err(back) ==> back == e),
{
    tx.send(e).map_err(|err| err.0)
}

/// Relies on crossbeam_channel::Receiver::try_recv: returns the oldest
/// pending event without blocking, or nothing when the channel is empty
/// or disconnected.
#[verifier::external_body]
pub fn try_recv_event(rx: &crossbeam_channel::Receiver<Event>) -> (r: Option<Event>) {
    rx.try_recv().ok()
}

/// The non-real-time end of the control plane: the producer sends events
/// into `tx`; a real-time consumer drains `rx`.
pub struct Controller {
    pub tx: crossbeam_channel::Sender<Event>,
    pub rx: crossbeam_channel::Receiver<Event>,
    /// Bookkeeping frequency on the non-real-time side, in millihertz.
    /// Observation only: the phase generator owns the authoritative one.
    pub freq: u32,
}

impl Controller {
    /// A controller with a fresh bounded event bus.
    pub fn new() -> (c: Controller)
        ensures
            c.freq == INITIAL_CONTROL_FREQ_MHZ,
    {
        let (tx, rx) = event_channel(CHANNEL_CAPACITY);

        Controller { tx, rx, freq: INITIAL_CONTROL_FREQ_MHZ }
    }

    /// Send one event into the bus from the non-real-time side. Blocks
    /// while the bus is full; fails only when every receiver is gone,
    /// handing the event back.
    pub fn send(&self, e: Event) -> (r: Result<(), Event>)
        ensures
            (r matches Err(back) ==> back == e),
    {
        send_event(&self.tx, e)
    }
}

} // verus!
