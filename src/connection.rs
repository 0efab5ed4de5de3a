use vstd::prelude::*;

use crate::endpoint::Endpoint;
use crate::plan::{dial_steps, spec_dial_steps, Mode, SocketStep};

verus! {

/// Where a connection's original destination is learned.
#[derive(Clone, Copy, Debug, PartialEq, Eq, Structural)]
pub enum OriginSource {
    /// The `SO_ORIGINAL_DST` option of the accepted socket (REDIRECT mode).
    OriginalDst,
    /// The local address of the accepted socket (TPROXY mode).
    LocalAddr,
}

/// The lifecycle of one proxied connection; transitions are linear and any
/// failure leads straight to `Closed`.
#[derive(Clone, Copy, Debug, PartialEq, Eq, Structural)]
pub enum Phase {
    Accepted,
    Resolved,
    Dialing,
    Spliced,
    Closed,
}

/// What the driver of a connection reports back.
#[derive(Clone, Copy, Debug, PartialEq, Eq, Structural)]
pub enum Event {
    /// The original destination was read.
    OriginFound(Endpoint),
    /// The upstream socket was created.
    UpstreamCreated,
    /// The upstream socket was configured, bound and connected.
    UpstreamConnected,
    /// Both directions of the splice have ended.
    SpliceDone,
    /// An operation of the connection failed.
    Failed,
}

/// What the driver of a connection is to do next.
#[derive(Clone, Copy, Debug, PartialEq, Eq, Structural)]
pub enum Action {
    /// Read the original destination from the given source.
    Resolve(OriginSource),
    /// Open the upstream connection as `Connection::dial_plan` says.
    Dial,
    /// Go on with the rest of the dial plan.
    Continue,
    /// Copy bytes both ways, shutting down a peer's write side at end of stream.
    Splice,
    /// Close the sockets marked `true`; the connection is over.
    Release { downstream: bool, upstream: bool },
    /// Nothing is left to do.
    Nothing,
}

/// Where to read the original destination in a given mode.
pub open spec fn spec_origin_source(mode: Mode) -> OriginSource {
    match mode {
        Mode::Redir => OriginSource::OriginalDst,
        Mode::Tproxy => OriginSource::LocalAddr,
    }
}

/// The state of one proxied connection, owned by exactly one task.
#[derive(Clone, Copy, Debug, PartialEq, Eq, Structural)]
pub struct Connection {
    pub mode: Mode,
    pub phase: Phase,
    /// The downstream client's address.
    pub peer: Endpoint,
    /// The original destination, once resolved.
    pub origin: Option<Endpoint>,
    /// How many upstream sockets this connection has created.
    pub upstreams_opened: u8,
    pub downstream_open: bool,
    pub upstream_open: bool,
}

/// A freshly accepted connection from `peer`.
pub open spec fn spec_accept(mode: Mode, peer: Endpoint) -> Connection {
    Connection {
        mode,
        phase: Phase::Accepted,
        peer,
        origin: None,
        upstreams_opened: 0,
        downstream_open: true,
        upstream_open: false,
    }
}

/// The connection after a failure: every socket released.
pub open spec fn spec_closed(c: Connection) -> Connection {
    Connection { phase: Phase::Closed, downstream_open: false, upstream_open: false, ..c }
}

/// One transition: the next state and what the driver is to do.
pub open spec fn spec_step(c: Connection, e: Event) -> (Connection, Action) {
    match (c.phase, e) {
        (Phase::Closed, _) => (c, Action::Nothing),
        (Phase::Accepted, Event::OriginFound(ep)) => (
            Connection { phase: Phase::Resolved, origin: Some(ep), ..c },
            Action::Dial,
        ),
        (Phase::Resolved, Event::UpstreamCreated) => (
            Connection {
                phase: Phase::Dialing,
                upstream_open: true,
                upstreams_opened: (c.upstreams_opened + 1) as u8,
                ..c
            },
            Action::Continue,
        ),
        (Phase::Dialing, Event::UpstreamConnected) => (
            Connection { phase: Phase::Spliced, ..c },
            Action::Splice,
        ),
        _ => (
            spec_closed(c),
            Action::Release { downstream: c.downstream_open, upstream: c.upstream_open },
        ),
    }
}

/// The state after a sequence of events.
pub open spec fn spec_run(c: Connection, events: Seq<Event>) -> Connection
    decreases events.len(),
{
    if events.len() == 0 {
        c
    } else {
        spec_run(spec_step(c, events[0]).0, events.drop_first())
    }
}

impl Connection {
    /// The sockets held match the phase, and at most one upstream socket was
    /// ever created.
    pub open spec fn wf(self) -> bool {
        &&& self.upstreams_opened <= 1
        &&& match self.phase {
            Phase::Accepted => self.downstream_open && !self.upstream_open
                && self.upstreams_opened == 0 && self.origin is None,
            Phase::Resolved => self.downstream_open && !self.upstream_open
                && self.upstreams_opened == 0 && self.origin is Some,
            Phase::Dialing | Phase::Spliced => self.downstream_open && self.upstream_open
                && self.upstreams_opened == 1 && self.origin is Some,
            Phase::Closed => !self.downstream_open && !self.upstream_open,
        }
    }

    /// A connection just accepted from `peer`.
    pub fn accept(mode: Mode, peer: Endpoint) -> (r: Connection)
        ensures
            r == spec_accept(mode, peer),
            r.wf(),
    {
        Connection {
            mode,
            phase: Phase::Accepted,
            peer,
            origin: None,
            upstreams_opened: 0,
            downstream_open: true,
            upstream_open: false,
        }
    }

    /// The first thing to do with an accepted connection: learn its original
    /// destination.
    pub fn first_action(&self) -> (r: Action)
        ensures
            r == Action::Resolve(spec_origin_source(self.mode)),
    {
        match self.mode {
            Mode::Redir => Action::Resolve(OriginSource::OriginalDst),
            Mode::Tproxy => Action::Resolve(OriginSource::LocalAddr),
        }
    }

    /// How to open the upstream connection once the origin is known.
    pub fn dial_plan(&self) -> (r: Vec<SocketStep>)
        requires
            self.origin is Some,
        ensures
            r@ == spec_dial_steps(self.mode, self.peer, self.origin->0),
    {
        match self.origin {
            Some(origin) => dial_steps(self.mode, self.peer, origin),
            None => Vec::new(),
        }
    }

    /// Moves the connection on by one event and says what to do next.
    pub fn step(&mut self, e: Event) -> (r: Action)
        requires
            old(self).wf(),
        ensures
            (*final(self), r) == spec_step(*old(self), e),
            final(self).wf(),
    {
        let c = *self;
        let (next, action) = match (c.phase, e) {
            (Phase::Closed, _) => (c, Action::Nothing),
            (Phase::Accepted, Event::OriginFound(ep)) => (
                Connection { phase: Phase::Resolved, origin: Some(ep), ..c },
                Action::Dial,
            ),
            (Phase::Resolved, Event::UpstreamCreated) => (
                Connection {
                    phase: Phase::Dialing,
                    upstream_open: true,
                    upstreams_opened: c.upstreams_opened + 1,
                    ..c
                },
                Action::Continue,
            ),
            (Phase::Dialing, Event::UpstreamConnected) => (
                Connection { phase: Phase::Spliced, ..c },
                Action::Splice,
            ),
            _ => (
                Connection { phase: Phase::Closed, downstream_open: false, upstream_open: false, ..c },
                Action::Release { downstream: c.downstream_open, upstream: c.upstream_open },
            ),
        };
        *self = next;
        action
    }

    /// Whether the connection has ended.
    pub fn is_closed(&self) -> (r: bool)
        ensures
            r == (self.phase == Phase::Closed),
    {
        match self.phase {
            Phase::Closed => true,
            _ => false,
        }
    }
}

} // verus!
