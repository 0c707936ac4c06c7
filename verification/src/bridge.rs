//! The caller-facing bridge: the two directed channels shared with the
//! runtime host, and the caller-side lifecycle of the host thread.
//!
//! The caller half owns the request sender and the response receiver; the
//! host half owns the opposite endpoints and is handed to the embedding,
//! which runs the host loop on a dedicated thread. The bridge carries one
//! outstanding request at a time and never blocks the caller: receiving is
//! a non-blocking poll.
//!
//! The lifecycle bookkeeping decides, not performs, the thread work: the
//! embedding spawns the thread when `begin_start` permits it and joins the
//! thread exactly when `stop` says one is running.

use vstd::prelude::*;
use crate::protocol::{ServiceMessage, ServiceResponse};

verus! {

#[verifier::external_type_specification]
#[verifier::external_body]
#[verifier::reject_recursive_types(T)]
pub struct ExSender<T>(flume::Sender<T>);

#[verifier::external_type_specification]
#[verifier::external_body]
#[verifier::reject_recursive_types(T)]
pub struct ExReceiver<T>(flume::Receiver<T>);

/// Relies on flume::unbounded: returns the connected sender and receiver
/// of a new unbounded channel, on which sending never blocks.
#[verifier::external_body]
fn new_channel<T>() -> (flume::Sender<T>, flume::Receiver<T>) {
    flume::unbounded()
}

/// Relies on flume::Sender::send: on an unbounded channel it does not
/// block, and fails exactly when every receiver is gone, handing the
/// unsent message back inside the error.
#[verifier::external_body]
fn channel_send<T>(tx: &flume::Sender<T>, msg: T) -> (r: Result<(), T>)
    ensures
        r matches Err(m) ==> m == msg,
{
    tx.send(msg).map_err(|e| e.0)
}

/// Relies on flume::Receiver::try_recv: a non-blocking poll that yields a
/// queued value or nothing; which of the two depends on the other thread.
#[verifier::external_body]
fn channel_try_recv<T>(rx: &flume::Receiver<T>) -> (r: Option<T>) {
    rx.try_recv().ok()
}

/// Where the caller side stands with respect to the host thread.
#[derive(Clone, Copy, Debug, PartialEq, Eq, Structural)]
pub enum BridgeState {
    NotStarted,
    Running,
    Stopped,
}

/// The stop transition: leaves every state stopped once running, and says
/// whether a host thread is there to join. Stopping before any start, or
/// a second time, joins nothing.
pub open spec fn spec_stop_transition(s: BridgeState) -> (BridgeState, bool) {
    match s {
        BridgeState::Running => (BridgeState::Stopped, true),
        _ => (s, false),
    }
}

/// The start transition: permitted exactly once, from the initial state.
pub open spec fn spec_start_transition(s: BridgeState) -> (BridgeState, bool) {
    match s {
        BridgeState::NotStarted => (BridgeState::Running, true),
        _ => (s, false),
    }
}

/// The host-side channel endpoints, handed to the runtime thread.
pub struct PyBridgeAsync {
    pub rx: flume::Receiver<ServiceMessage>,
    pub tx: flume::Sender<ServiceResponse>,
}

impl PyBridgeAsync {
    /// Non-blocking poll for the next inbound request; returns nothing
    /// when the caller has not sent one yet.
    pub fn try_recv(&self) -> (r: Option<ServiceMessage>) {
        channel_try_recv(&self.rx)
    }

    /// Sends a response back to the caller. Fails only when the caller
    /// side is gone, handing the unsent response back.
    pub fn send(&self, response: ServiceResponse) -> (r: Result<(), ServiceResponse>)
        ensures
            r matches Err(m) ==> m == response,
    {
        channel_send(&self.tx, response)
    }
}

/// The caller-side half of the bridge.
pub struct PyBridge {
    to_async: flume::Sender<ServiceMessage>,
    from_async: flume::Receiver<ServiceResponse>,
    state: BridgeState,
}

impl View for PyBridge {
    type V = BridgeState;

    closed spec fn view(&self) -> BridgeState {
        self.state
    }
}

impl PyBridge {
    /// Creates the two halves of one bridge, sharing a request channel and
    /// a response channel.
    pub fn new() -> (r: (PyBridge, PyBridgeAsync))
        ensures
            r.0@ == BridgeState::NotStarted,
    {
        let (to_async, async_rx) = new_channel();
        let (async_tx, from_async) = new_channel();
        let sync_side = PyBridge { to_async, from_async, state: BridgeState::NotStarted };
        let async_side = PyBridgeAsync { rx: async_rx, tx: async_tx };
        (sync_side, async_side)
    }

    /// The caller-side lifecycle state.
    pub fn state(&self) -> (r: BridgeState)
        ensures
            r == self@,
    {
        self.state
    }

    /// Enqueues a request for the host. Fails only when the host side is
    /// gone, handing the unsent request back.
    pub fn send(&self, msg: ServiceMessage) -> (r: Result<(), ServiceMessage>)
        ensures
            r matches Err(m) ==> m == msg,
    {
        channel_send(&self.to_async, msg)
    }

    /// Non-blocking poll for the next response; returns nothing when no
    /// response is queued yet.
    pub fn try_recv(&self) -> (r: Option<ServiceResponse>) {
        channel_try_recv(&self.from_async)
    }

    /// Records that the host thread is being spawned. Permitted exactly
    /// once: a second start finds the bridge already running (or stopped)
    /// and is refused, so one bridge never drives two hosts.
    pub fn begin_start(&mut self) -> (ok: bool)
        ensures
            final(self)@ == spec_start_transition(old(self)@).0,
            ok == spec_start_transition(old(self)@).1,
    {
        match self.state {
            BridgeState::NotStarted => {
                self.state = BridgeState::Running;
                true
            },
            _ => false,
        }
    }

    /// Requests shutdown: sends the shutdown request best-effort (a dead
    /// host cannot receive it, which is fine) and says whether a running
    /// host thread remains to be joined. Idempotent: a second stop finds
    /// no thread and joins nothing.
    pub fn stop(&mut self) -> (must_join: bool)
        ensures
            final(self)@ == spec_stop_transition(old(self)@).0,
            must_join == spec_stop_transition(old(self)@).1,
    {
        let _ = self.send(ServiceMessage::Stop);
        match self.state {
            BridgeState::Running => {
                self.state = BridgeState::Stopped;
                true
            },
            _ => false,
        }
    }
}

} // verus!
