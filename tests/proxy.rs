use sidecar_proxy::{
    dial_steps, listen_addr, startup_steps, Action, Connection, Endpoint, Event, Mode,
    OriginSource, Phase, SocketStep, LISTEN_BACKLOG, LISTEN_PORT, UPSTREAM_MARK,
};

fn ep(a: u8, b: u8, c: u8, d: u8, port: u16) -> Endpoint {
    Endpoint { ip: u32::from_be_bytes([a, b, c, d]), port }
}

#[test]
fn decodes_original_dst_in_network_order() {
    // 10.0.0.5:80 as the kernel writes it into a sockaddr_in
    let e = Endpoint::from_network_order([0x00, 0x50], [10, 0, 0, 5]);
    assert_eq!(e.port, 80);
    assert_eq!(e.ip, 0x0a00_0005);
    assert_eq!(e, ep(10, 0, 0, 5, 80));
}

#[test]
fn decode_is_not_host_order_passthrough() {
    let e = Endpoint::from_network_order([0x3a, 0x9e], [172, 100, 1, 2]);
    assert_eq!(e.port, 15006);
    assert_ne!(e.port, 0x9e3a);
    assert_eq!(e.octets(), [172, 100, 1, 2]);
}

#[test]
fn octets_round_trip() {
    let e = ep(255, 1, 128, 0, 65535);
    assert_eq!(e.octets(), [255, 1, 128, 0]);
    assert_eq!(Endpoint::from_network_order([0xff, 0xff], e.octets()), e);
}

#[test]
fn loopback_is_127_slash_8() {
    assert!(ep(127, 0, 0, 1, 80).is_loopback());
    assert!(ep(127, 255, 3, 9, 1).is_loopback());
    assert!(!ep(10, 0, 0, 5, 80).is_loopback());
    assert!(!ep(128, 0, 0, 1, 80).is_loopback());
}

#[test]
fn listener_address_and_backlog() {
    assert_eq!(listen_addr(), ep(0, 0, 0, 0, 15006));
    assert_eq!(LISTEN_PORT, 15006);
    assert_eq!(LISTEN_BACKLOG, 65535);
}

#[test]
fn redir_startup_drops_privileges_before_bind() {
    let s = startup_steps(Mode::Redir);
    assert_eq!(
        s,
        vec![
            SocketStep::SetGid(1337),
            SocketStep::SetUid(1337),
            SocketStep::Create,
            SocketStep::Bind(ep(0, 0, 0, 0, 15006)),
            SocketStep::Listen(65535),
        ]
    );
}

#[test]
fn tproxy_startup_is_transparent_and_keeps_identity() {
    let s = startup_steps(Mode::Tproxy);
    assert_eq!(
        s,
        vec![
            SocketStep::Create,
            SocketStep::SetTransparent,
            SocketStep::Bind(ep(0, 0, 0, 0, 15006)),
            SocketStep::Listen(65535),
        ]
    );
}

#[test]
fn redir_dial_to_remote_origin_has_no_source_bind() {
    let s = dial_steps(Mode::Redir, ep(10, 0, 0, 9, 40000), ep(10, 0, 0, 5, 80));
    assert_eq!(s, vec![SocketStep::Create, SocketStep::Connect(ep(10, 0, 0, 5, 80))]);
}

#[test]
fn redir_dial_to_loopback_origin_binds_loopback() {
    let s = dial_steps(Mode::Redir, ep(127, 0, 0, 1, 40000), ep(127, 0, 0, 1, 8080));
    assert_eq!(
        s,
        vec![
            SocketStep::Create,
            SocketStep::Bind(ep(127, 0, 0, 1, 0)),
            SocketStep::Connect(ep(127, 0, 0, 1, 8080)),
        ]
    );
}

#[test]
fn tproxy_dial_spoofs_client_and_marks() {
    let client = ep(172, 100, 36, 2, 51234);
    let origin = ep(172, 100, 1, 2, 8080);
    let s = dial_steps(Mode::Tproxy, client, origin);
    assert_eq!(
        s,
        vec![
            SocketStep::Create,
            SocketStep::SetTransparent,
            SocketStep::SetMark(0x539),
            SocketStep::Bind(ep(172, 100, 36, 2, 0)),
            SocketStep::Connect(origin),
        ]
    );
    assert_eq!(UPSTREAM_MARK, 1337);
}

#[test]
fn redir_connection_happy_path() {
    let mut c = Connection::accept(Mode::Redir, ep(10, 0, 0, 9, 40000));
    assert_eq!(c.first_action(), Action::Resolve(OriginSource::OriginalDst));
    let origin = Endpoint::from_network_order([0, 80], [10, 0, 0, 5]);
    assert_eq!(c.step(Event::OriginFound(origin)), Action::Dial);
    assert_eq!(c.phase, Phase::Resolved);
    assert_eq!(c.dial_plan().last(), Some(&SocketStep::Connect(ep(10, 0, 0, 5, 80))));
    assert_eq!(c.step(Event::UpstreamCreated), Action::Continue);
    assert_eq!(c.phase, Phase::Dialing);
    assert_eq!(c.step(Event::UpstreamConnected), Action::Splice);
    assert_eq!(c.phase, Phase::Spliced);
    assert_eq!(
        c.step(Event::SpliceDone),
        Action::Release { downstream: true, upstream: true }
    );
    assert!(c.is_closed());
    assert_eq!(c.upstreams_opened, 1);
    assert!(!c.downstream_open && !c.upstream_open);
}

#[test]
fn tproxy_connection_reads_local_address() {
    let mut c = Connection::accept(Mode::Tproxy, ep(172, 100, 36, 2, 51234));
    assert_eq!(c.first_action(), Action::Resolve(OriginSource::LocalAddr));
    assert_eq!(c.step(Event::OriginFound(ep(172, 100, 1, 2, 8080))), Action::Dial);
    assert_eq!(c.origin, Some(ep(172, 100, 1, 2, 8080)));
    assert_eq!(c.dial_plan()[3], SocketStep::Bind(ep(172, 100, 36, 2, 0)));
}

#[test]
fn failure_before_upstream_releases_downstream_only() {
    let mut c = Connection::accept(Mode::Redir, ep(10, 0, 0, 9, 40000));
    assert_eq!(c.step(Event::Failed), Action::Release { downstream: true, upstream: false });
    assert!(c.is_closed());
    assert_eq!(c.upstreams_opened, 0);
}

#[test]
fn refused_upstream_releases_both_sockets() {
    let mut c = Connection::accept(Mode::Redir, ep(10, 0, 0, 9, 40000));
    c.step(Event::OriginFound(ep(10, 0, 0, 5, 80)));
    c.step(Event::UpstreamCreated);
    assert_eq!(c.step(Event::Failed), Action::Release { downstream: true, upstream: true });
    assert!(c.is_closed());
    assert!(!c.downstream_open && !c.upstream_open);
    // a later connection is served independently
    let mut next = Connection::accept(Mode::Redir, ep(10, 0, 0, 9, 40001));
    assert_eq!(next.step(Event::OriginFound(ep(10, 0, 0, 5, 80))), Action::Dial);
}

#[test]
fn closed_connection_ignores_events() {
    let mut c = Connection::accept(Mode::Tproxy, ep(1, 2, 3, 4, 5));
    c.step(Event::Failed);
    let before = c;
    assert_eq!(c.step(Event::UpstreamCreated), Action::Nothing);
    assert_eq!(c.step(Event::Failed), Action::Nothing);
    assert_eq!(c, before);
}

#[test]
fn out_of_order_event_closes_connection() {
    let mut c = Connection::accept(Mode::Redir, ep(1, 2, 3, 4, 5));
    assert_eq!(
        c.step(Event::UpstreamConnected),
        Action::Release { downstream: true, upstream: false }
    );
    assert!(c.is_closed());
}

#[test]
fn second_upstream_creation_is_refused() {
    let mut c = Connection::accept(Mode::Tproxy, ep(1, 2, 3, 4, 5));
    c.step(Event::OriginFound(ep(9, 9, 9, 9, 9)));
    c.step(Event::UpstreamCreated);
    assert_eq!(
        c.step(Event::UpstreamCreated),
        Action::Release { downstream: true, upstream: true }
    );
    assert_eq!(c.upstreams_opened, 1);
}
