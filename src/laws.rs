use vstd::prelude::*;

use crate::connection::{
    spec_accept, spec_origin_source, spec_run, spec_step, Action, Connection, Event,
    OriginSource, Phase,
};
use crate::endpoint::Endpoint;
use crate::plan::{
    spec_dial_steps, spec_in_order, spec_startup_steps, step_rank, Mode, SocketStep, PROXY_GID,
    PROXY_UID, UPSTREAM_MARK,
};

verus! {

/// A transition keeps a well-formed connection well formed.
pub proof fn lemma_step_wf(c: Connection, e: Event)
    requires
        c.wf(),
    ensures
        spec_step(c, e).0.wf(),
{
}

/// Whatever events a connection sees, it creates at most one upstream socket,
/// and once closed it holds no socket.
pub proof fn lemma_upstream_sockets(mode: Mode, peer: Endpoint, events: Seq<Event>)
    ensures
        spec_run(spec_accept(mode, peer), events).wf(),
        spec_run(spec_accept(mode, peer), events).upstreams_opened <= 1,
        spec_run(spec_accept(mode, peer), events).phase == Phase::Closed ==> {
            let c = spec_run(spec_accept(mode, peer), events);
            !c.downstream_open && !c.upstream_open
        },
{
    lemma_run_wf(spec_accept(mode, peer), events);
}

/// Running any events from a well-formed connection leaves it well formed.
pub proof fn lemma_run_wf(c: Connection, events: Seq<Event>)
    requires
        c.wf(),
    ensures
        spec_run(c, events).wf(),
    decreases events.len(),
{
    if events.len() > 0 {
        lemma_step_wf(c, events[0]);
        lemma_run_wf(spec_step(c, events[0]).0, events.drop_first());
    }
}

/// When a live connection ends, the driver is told to release exactly the
/// sockets the connection holds.
pub proof fn lemma_release_held(c: Connection, e: Event)
    requires
        c.wf(),
        c.phase != Phase::Closed,
        spec_step(c, e).0.phase == Phase::Closed,
    ensures
        spec_step(c, e).1 == (Action::Release {
            downstream: c.downstream_open,
            upstream: c.upstream_open,
        }),
{
}

/// The steps that open an upstream connection, and those that start the
/// process, set options before `bind` and `bind` before `connect` or `listen`.
pub proof fn lemma_steps_in_order(mode: Mode, peer: Endpoint, origin: Endpoint)
    ensures
        spec_in_order(spec_dial_steps(mode, peer, origin)),
        spec_in_order(spec_startup_steps(mode)),
{
    let d = spec_dial_steps(mode, peer, origin);
    let s = spec_startup_steps(mode);
    assert forall|i: int, j: int| 0 <= i < j < d.len() implies step_rank(d[i]) <= step_rank(
        d[j],
    ) by {}
    assert forall|i: int, j: int| 0 <= i < j < s.len() implies step_rank(s[i]) <= step_rank(
        s[j],
    ) by {}
}

/// The upstream connection of a flow goes to the original destination that
/// was reported for it, and to nothing else.
pub proof fn lemma_upstream_destination(mode: Mode, peer: Endpoint, origin: Endpoint)
    ensures
        ({
            let c = spec_step(spec_accept(mode, peer), Event::OriginFound(origin)).0;
            let d = spec_dial_steps(c.mode, c.peer, c.origin->0);
            &&& c.origin == Some(origin)
            &&& d.last() == SocketStep::Connect(origin)
            &&& forall|i: int| 0 <= i < d.len() - 1 ==> !(d[i] is Connect)
        }),
{
}

/// In REDIRECT mode the original destination is read with `SO_ORIGINAL_DST`,
/// and the upstream connection goes to that address.
pub proof fn lemma_redir_destination(peer: Endpoint, original_dst: Endpoint)
    ensures
        spec_origin_source(Mode::Redir) == OriginSource::OriginalDst,
        spec_dial_steps(Mode::Redir, peer, original_dst).last() == SocketStep::Connect(
            original_dst,
        ),
{
}

/// In TPROXY mode the upstream connection goes to the accepted socket's
/// local address, from the downstream client's IP address.
pub proof fn lemma_tproxy_addresses(peer: Endpoint, local: Endpoint)
    ensures
        spec_origin_source(Mode::Tproxy) == OriginSource::LocalAddr,
        ({
            let d = spec_dial_steps(Mode::Tproxy, peer, local);
            &&& d.last() == SocketStep::Connect(local)
            &&& d.contains(SocketStep::Bind(Endpoint { ip: peer.ip, port: 0 }))
            &&& forall|i: int|
                0 <= i < d.len() && d[i] is Bind ==> d[i] == SocketStep::Bind(
                    Endpoint { ip: peer.ip, port: 0 },
                )
        }),
{
    let d = spec_dial_steps(Mode::Tproxy, peer, local);
    assert(d[3] == SocketStep::Bind(Endpoint { ip: peer.ip, port: 0 }));
}

/// In TPROXY mode every upstream socket is marked `0x539` before it is bound
/// and connected.
pub proof fn lemma_tproxy_mark(peer: Endpoint, origin: Endpoint)
    ensures
        ({
            let d = spec_dial_steps(Mode::Tproxy, peer, origin);
            exists|m: int|
                0 <= m < d.len() && #[trigger] d[m] == SocketStep::SetMark(UPSTREAM_MARK)
                    && forall|i: int|
                    0 <= i < d.len() && (d[i] is Bind || d[i] is Connect) ==> m < i
        }),
{
    let d = spec_dial_steps(Mode::Tproxy, peer, origin);
    assert(d[2] == SocketStep::SetMark(UPSTREAM_MARK));
}

/// In REDIRECT mode the process sets gid 1337, then uid 1337, before its first
/// `bind`; in TPROXY mode it changes no identity.
pub proof fn lemma_privilege_drop(mode: Mode)
    ensures
        mode == Mode::Redir ==> {
            let s = spec_startup_steps(mode);
            &&& s[0] == SocketStep::SetGid(PROXY_GID)
            &&& s[1] == SocketStep::SetUid(PROXY_UID)
            &&& forall|i: int| 0 <= i < s.len() && s[i] is Bind ==> 1 < i
        },
        mode == Mode::Tproxy ==> {
            let s = spec_startup_steps(mode);
            forall|i: int| 0 <= i < s.len() ==> !(s[i] is SetGid) && !(s[i] is SetUid)
        },
{
}

} // verus!
