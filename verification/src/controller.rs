use vstd::prelude::*;
use crate::dispatch::dispatch;
use crate::dispatch::spec_body;
use crate::dispatch::spec_classify;
use crate::dispatch::spec_content_type;
use crate::dispatch::spec_relay_after;
use crate::dispatch::spec_status;
use crate::relay::RelayState;
use crate::response::Response;

verus! {

/// Where the control loop stands.
///
/// The order is fixed: join the network, wait for an address, then forever
/// accept one connection, read one request, answer it, and tear the
/// connection down — until a failed or empty read ends the service.
#[derive(Clone, Copy, Debug, PartialEq, Eq, Structural)]
pub enum Phase {
    /// Trying to associate with the wireless network.
    Joining,
    /// Associated; waiting for an address assignment.
    AwaitingAddress,
    /// Waiting to accept one inbound connection.
    Listening,
    /// A connection is open; one read is outstanding.
    Connected,
    /// A request was read; it must be answered next.
    Responding,
    /// The response is out; the connection must be torn down.
    Closing,
    /// The service has stopped accepting connections.
    Finished,
}

/// How the single read on a fresh connection came out.
#[derive(Clone, Copy, Debug, PartialEq, Eq, Structural)]
pub enum ReadOutcome {
    /// One or more bytes arrived; they are the whole request.
    Data,
    /// Zero bytes: the remote end closed at once.
    Closed,
    /// The transport reported an error.
    Failed,
}

/// The decision core of the device: the relay plus the phase of the
/// control loop.
///
/// Every transition is a method; the caller performs the matching outside
/// work (join attempt, address poll, accept, read, write, teardown) and
/// reports its outcome. The phase contracts force the fixed order
/// accept, read, dispatch, respond, close, and rule every other order out.
pub struct Controller {
    relay: RelayState,
    phase: Phase,
}

impl Controller {
    /// The phase of the control loop.
    pub closed spec fn phase(&self) -> Phase {
        self.phase
    }

    /// The relay state, `true` for ON.
    pub closed spec fn relay_on(&self) -> bool {
        self.relay.is_on()
    }

    /// A freshly booted device: relay OFF, not yet on the network.
    pub fn new() -> (c: Controller)
        ensures
            c.phase() == Phase::Joining,
            !c.relay_on(),
    {
        Controller { relay: RelayState::new(), phase: Phase::Joining }
    }

    /// Reads the phase back.
    pub fn current_phase(&self) -> (p: Phase)
        ensures
            p == self.phase(),
    {
        self.phase
    }

    /// Reads the relay back.
    pub fn relay_is_on(&self) -> (r: bool)
        ensures
            r == self.relay_on(),
    {
        self.relay.get()
    }

    /// Records the outcome of one association attempt. Failure means try
    /// again, without bound and without backoff; success moves on to the
    /// wait for an address, exactly once.
    pub fn join_attempted(&mut self, joined: bool)
        requires
            old(self).phase() == Phase::Joining,
        ensures
            final(self).phase() == if joined { Phase::AwaitingAddress } else { Phase::Joining },
            final(self).relay_on() == old(self).relay_on(),
    {
        if joined {
            self.phase = Phase::AwaitingAddress;
        }
    }

    /// Records one poll of the network layer. Until an address is
    /// assigned the caller polls again after a fixed delay; nothing else
    /// happens.
    pub fn address_checked(&mut self, configured: bool)
        requires
            old(self).phase() == Phase::AwaitingAddress,
        ensures
            final(self).phase() == if configured { Phase::Listening } else { Phase::AwaitingAddress },
            final(self).relay_on() == old(self).relay_on(),
    {
        if configured {
            self.phase = Phase::Listening;
        }
    }

    /// The level of the connection-state indicator: cleared while the
    /// device waits for a connection, set while one is being serviced.
    pub fn indicator_connected(&self) -> (on: bool)
        ensures
            on == (self.phase() == Phase::Connected || self.phase() == Phase::Responding
                || self.phase() == Phase::Closing),
    {
        match self.phase {
            Phase::Connected => true,
            Phase::Responding => true,
            Phase::Closing => true,
            _ => false,
        }
    }

    /// Records the outcome of one accept. An accept error is transient:
    /// the loop listens again rather than stopping.
    pub fn accept_finished(&mut self, accepted: bool)
        requires
            old(self).phase() == Phase::Listening,
        ensures
            final(self).phase() == if accepted { Phase::Connected } else { Phase::Listening },
            final(self).relay_on() == old(self).relay_on(),
    {
        if accepted {
            self.phase = Phase::Connected;
        } else {
            self.phase = Phase::Listening;
        }
    }

    /// Records the outcome of the single read on the open connection.
    /// Data moves on to the answer; an empty read (the remote closed at
    /// once) or a read error stops the whole service.
    pub fn read_finished(&mut self, outcome: ReadOutcome)
        requires
            old(self).phase() == Phase::Connected,
        ensures
            final(self).phase() == (match outcome {
                ReadOutcome::Data => Phase::Responding,
                ReadOutcome::Closed => Phase::Finished,
                ReadOutcome::Failed => Phase::Finished,
            }),
            final(self).relay_on() == old(self).relay_on(),
    {
        match outcome {
            ReadOutcome::Data => {
                self.phase = Phase::Responding;
            },
            ReadOutcome::Closed => {
                self.phase = Phase::Finished;
            },
            ReadOutcome::Failed => {
                self.phase = Phase::Finished;
            },
        }
    }

    /// Answers the request that was read: switches the relay as commanded
    /// and returns the canned response for the matched request line. The
    /// caller writes the rendered bytes out and then tears the connection
    /// down, whether or not the write succeeded.
    pub fn respond(&mut self, req: &[u8]) -> (r: Response)
        requires
            old(self).phase() == Phase::Responding,
        ensures
            final(self).phase() == Phase::Closing,
            final(self).relay_on() == spec_relay_after(old(self).relay_on(), spec_classify(req@)),
            r.status@ == spec_status(spec_classify(req@)),
            r.content_type@ == spec_content_type(spec_classify(req@)),
            r.body@ == spec_body(spec_classify(req@), final(self).relay_on()),
    {
        let r = dispatch(&mut self.relay, req);
        self.phase = Phase::Closing;
        r
    }

    /// Records that the connection was flushed and reset; the loop
    /// listens for the next connection.
    pub fn connection_closed(&mut self)
        requires
            old(self).phase() == Phase::Closing,
        ensures
            final(self).phase() == Phase::Listening,
            final(self).relay_on() == old(self).relay_on(),
    {
        self.phase = Phase::Listening;
    }
}

} // verus!
