//! Decisions of a transparent TCP redirector for a service-mesh sidecar.
//!
//! The library says which socket operations are performed, in which order and
//! with which addresses, for the two deployment modes (NAT `REDIRECT` and
//! `TPROXY`), and tracks the lifecycle of each proxied connection. The
//! executable around it performs the system calls.

mod connection;
mod endpoint;
mod laws;
mod plan;

pub use endpoint::{be_u16, be_u32, Endpoint, LOOPBACK_IP, UNSPECIFIED_IP};
pub use plan::{
    dial_steps, listen_addr, spec_dial_steps, spec_in_order, spec_listen_addr, spec_startup_steps,
    startup_steps, step_rank, Mode, SocketStep, LISTEN_BACKLOG, LISTEN_PORT, PROXY_GID, PROXY_UID,
    UPSTREAM_MARK,
};
pub use connection::{
    spec_accept, spec_closed, spec_origin_source, spec_run, spec_step, Action, Connection, Event,
    OriginSource, Phase,
};
pub use laws::{
    lemma_privilege_drop, lemma_redir_destination, lemma_release_held, lemma_run_wf,
    lemma_step_wf, lemma_steps_in_order, lemma_tproxy_addresses, lemma_tproxy_mark,
    lemma_upstream_destination, lemma_upstream_sockets,
};
