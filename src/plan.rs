use vstd::prelude::*;

use crate::endpoint::{Endpoint, LOOPBACK_IP, UNSPECIFIED_IP};

verus! {

/// The port that the redirect rules aim intercepted flows at.
pub const LISTEN_PORT: u16 = 15006;

/// The backlog of the listening socket.
pub const LISTEN_BACKLOG: u32 = 65535;

/// The uid the proxy runs as in REDIRECT mode; the NAT rules exempt it.
pub const PROXY_UID: u32 = 1337;

/// The gid the proxy runs as in REDIRECT mode.
pub const PROXY_GID: u32 = 1337;

/// The firewall mark on upstream traffic in TPROXY mode; policy routing
/// matches it to return replies to the proxy.
pub const UPSTREAM_MARK: u32 = 0x539;

/// How intercepted flows reach the proxy.
#[derive(Clone, Copy, Debug, PartialEq, Eq, Structural)]
pub enum Mode {
    /// The NAT table's `REDIRECT` target rewrote the destination.
    Redir,
    /// The mangle table's `TPROXY` target delivered the flow unchanged.
    Tproxy,
}

/// One operation on the process or on a socket, in the order it is to be made.
#[derive(Clone, Copy, Debug, PartialEq, Eq, Structural)]
pub enum SocketStep {
    /// `setgid`.
    SetGid(u32),
    /// `setuid`.
    SetUid(u32),
    /// Create an IPv4 stream socket.
    Create,
    /// Enable `IP_TRANSPARENT`.
    SetTransparent,
    /// Set `SO_MARK`.
    SetMark(u32),
    /// Bind the socket to a local address.
    Bind(Endpoint),
    /// Listen with the given backlog.
    Listen(u32),
    /// Connect to a remote address.
    Connect(Endpoint),
}

/// The position a step takes among the others: identity changes first (group
/// before user), then socket creation, options, `bind`, and last `listen` or
/// `connect`.
pub open spec fn step_rank(s: SocketStep) -> int {
    match s {
        SocketStep::SetGid(_) => 0,
        SocketStep::SetUid(_) => 1,
        SocketStep::Create => 2,
        SocketStep::SetTransparent => 3,
        SocketStep::SetMark(_) => 3,
        SocketStep::Bind(_) => 4,
        SocketStep::Listen(_) => 5,
        SocketStep::Connect(_) => 5,
    }
}

/// Every step comes no later than those of higher rank.
pub open spec fn spec_in_order(s: Seq<SocketStep>) -> bool {
    forall|i: int, j: int| 0 <= i < j < s.len() ==> step_rank(s[i]) <= step_rank(s[j])
}

/// The address the listener binds: `0.0.0.0:15006`.
pub open spec fn spec_listen_addr() -> Endpoint {
    Endpoint { ip: UNSPECIFIED_IP, port: LISTEN_PORT }
}

/// What the process does before it accepts any connection.
pub open spec fn spec_startup_steps(mode: Mode) -> Seq<SocketStep> {
    match mode {
        Mode::Redir => seq![
            SocketStep::SetGid(PROXY_GID),
            SocketStep::SetUid(PROXY_UID),
            SocketStep::Create,
            SocketStep::Bind(spec_listen_addr()),
            SocketStep::Listen(LISTEN_BACKLOG),
        ],
        Mode::Tproxy => seq![
            SocketStep::Create,
            SocketStep::SetTransparent,
            SocketStep::Bind(spec_listen_addr()),
            SocketStep::Listen(LISTEN_BACKLOG),
        ],
    }
}

/// How the upstream connection of one proxied flow is opened.
///
/// `peer` is the downstream client, `origin` where it meant to connect. In
/// REDIRECT mode the socket binds `127.0.0.1:0` only where the origin is a
/// loopback address: a loopback source could not reach any other.
pub open spec fn spec_dial_steps(mode: Mode, peer: Endpoint, origin: Endpoint) -> Seq<SocketStep> {
    match mode {
        Mode::Redir => if origin.spec_is_loopback() {
            seq![
                SocketStep::Create,
                SocketStep::Bind(Endpoint { ip: LOOPBACK_IP, port: 0 }),
                SocketStep::Connect(origin),
            ]
        } else {
            seq![SocketStep::Create, SocketStep::Connect(origin)]
        },
        Mode::Tproxy => seq![
            SocketStep::Create,
            SocketStep::SetTransparent,
            SocketStep::SetMark(UPSTREAM_MARK),
            SocketStep::Bind(Endpoint { ip: peer.ip, port: 0 }),
            SocketStep::Connect(origin),
        ],
    }
}

/// The address the listener binds.
pub fn listen_addr() -> (r: Endpoint)
    ensures
        r == spec_listen_addr(),
{
    Endpoint { ip: UNSPECIFIED_IP, port: LISTEN_PORT }
}

/// The operations that set the process up, in order: in REDIRECT mode drop
/// to gid then uid 1337; then create the listener (transparent in TPROXY
/// mode), bind `0.0.0.0:15006` and listen with backlog 65535.
pub fn startup_steps(mode: Mode) -> (r: Vec<SocketStep>)
    ensures
        r@ == spec_startup_steps(mode),
{
    let mut v: Vec<SocketStep> = Vec::new();
    match mode {
        Mode::Redir => {
            v.push(SocketStep::SetGid(PROXY_GID));
            v.push(SocketStep::SetUid(PROXY_UID));
            v.push(SocketStep::Create);
        },
        Mode::Tproxy => {
            v.push(SocketStep::Create);
            v.push(SocketStep::SetTransparent);
        },
    }
    v.push(SocketStep::Bind(listen_addr()));
    v.push(SocketStep::Listen(LISTEN_BACKLOG));
    assert(v@ =~= spec_startup_steps(mode));
    v
}

/// The operations that open the upstream connection of a flow from `peer`
/// whose original destination is `origin`.
pub fn dial_steps(mode: Mode, peer: Endpoint, origin: Endpoint) -> (r: Vec<SocketStep>)
    ensures
        r@ == spec_dial_steps(mode, peer, origin),
{
    let mut v: Vec<SocketStep> = Vec::new();
    v.push(SocketStep::Create);
    match mode {
        Mode::Redir => {
            if origin.is_loopback() {
                v.push(SocketStep::Bind(Endpoint { ip: LOOPBACK_IP, port: 0 }));
            }
        },
        Mode::Tproxy => {
            v.push(SocketStep::SetTransparent);
            v.push(SocketStep::SetMark(UPSTREAM_MARK));
            v.push(SocketStep::Bind(Endpoint { ip: peer.ip, port: 0 }));
        },
    }
    v.push(SocketStep::Connect(origin));
    assert(v@ =~= spec_dial_steps(mode, peer, origin));
    v
}

} // verus!
