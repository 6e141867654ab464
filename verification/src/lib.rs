//! A process-local WebSocket relay core: a connection registry, a
//! per-connection routing engine, and the session lifecycle that ties the
//! two together.
//!
//! Connections are named by opaque string identifiers. A session may rebind
//! the identifier it is known by, designate a routing target for its
//! subsequent frames, and deposit frames into other sessions' mailboxes
//! through the registry. Socket transport, timers and task scheduling live
//! outside this crate; everything that decides *where a frame goes* lives
//! here and is verified.
//!
//! Delivery policy: a frame deposited into a session's mailbox is relayed to
//! that session's own socket and to nobody else. Targeted traffic is
//! point-to-point; there is no implicit fan-out of received frames. A caller
//! that wants a broadcast builds it explicitly from
//! [`registry::Registry::snapshot_except`].

pub mod envelope;
pub mod frame;
pub mod laws;
pub mod mailbox;
pub mod registry;
pub mod session;
