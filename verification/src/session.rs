//! Connection sessions and the per-frame routing engine.
//!
//! One `Session` exists per accepted socket. It is created in the `Active`
//! phase with a fresh identifier, a fresh mailbox, and a registry binding;
//! its inbound dispatcher feeds every received frame to [`Session::dispatch`];
//! and whichever of its duties ends first, [`Session::teardown`] runs once
//! and removes the session's identifier from the registry.
//!
//! A frame deposited into a session's mailbox is relayed, in deposit order,
//! onto that session's own outbound writer: a targeted frame reaches its
//! target and nobody else.

use crate::envelope::{is_register_text, parse_envelope, register_id_of, target_of};
use crate::frame::{Frame, FrameModel, MAILBOX_CAPACITY};
use crate::mailbox::{clone_handle, deposit, open_mailbox};
use crate::registry::Registry;
use vstd::prelude::*;

verus! {

/// The lifecycle phase of a session.
#[derive(Debug, Clone, Copy, PartialEq, Eq, Structural)]
pub enum Phase {
    /// The socket is accepted but the session is not yet registered. A
    /// session lives in this phase only inside [`Session::connect`], which
    /// returns it already active.
    Connecting,
    /// All four duties run and frames are dispatched.
    Active,
    /// A duty has ended; the others are being cancelled.
    Closing,
    /// Teardown has run; the registry no longer holds this session's id.
    Closed,
}

/// One of the four concurrent duties of an active session. Termination of
/// any one of them ends the whole session.
#[derive(Debug, Clone, Copy, PartialEq, Eq, Structural)]
pub enum Duty {
    /// Drains the session's send queue to the socket.
    OutboundWriter,
    /// Enqueues a ping on a fixed period.
    Keepalive,
    /// Drains the session's mailbox onto its send queue.
    MailboxRelay,
    /// Reads frames from the socket and dispatches them.
    InboundDispatcher,
}

/// What dispatching one inbound frame did.
#[derive(Debug, Clone, Copy, PartialEq, Eq, Structural)]
pub enum RouteOutcome {
    /// A registration directive bound an identifier to this session.
    Registered,
    /// The frame was deposited into the mailbox whose session carries this
    /// token. Nothing else received it.
    Delivered { token: u64 },
    /// The frame named a target that no binding carries; it went nowhere.
    DroppedUnknownTarget,
    /// A binary frame arrived before any routing target was designated; it
    /// went nowhere. Callers may emit a diagnostic for this.
    DroppedNoTarget,
    /// A close frame arrived: the inbound dispatcher is done.
    SessionEnded,
    /// The frame carried no directive the router recognizes.
    Ignored,
}

/// The registry map after a session with token `token` dispatches `f`: only
/// a registration directive touches it.
pub open spec fn registry_after(reg: Map<Seq<char>, u64>, token: u64, f: FrameModel) -> Map<
    Seq<char>,
    u64,
> {
    match f {
        FrameModel::Text(s) => if is_register_text(s) {
            match register_id_of(s) {
                Some(bound) => reg.insert(bound, token),
                None => reg,
            }
        } else {
            reg
        },
        _ => reg,
    }
}

/// The session's routing target after dispatching `f`: a non-registration
/// text frame that names a target overwrites it; everything else keeps it.
pub open spec fn target_after(tgt: Option<Seq<char>>, f: FrameModel) -> Option<Seq<char>> {
    match f {
        FrameModel::Text(s) => if !is_register_text(s) && target_of(s) is Some {
            target_of(s)
        } else {
            tgt
        },
        _ => tgt,
    }
}

/// Where one frame goes, given the registry map and the session's current
/// routing target. At most one mailbox receives it.
pub open spec fn outcome_of(reg: Map<Seq<char>, u64>, tgt: Option<Seq<char>>, f: FrameModel)
    -> RouteOutcome {
    match f {
        FrameModel::Text(s) => if is_register_text(s) {
            if register_id_of(s) is Some {
                RouteOutcome::Registered
            } else {
                RouteOutcome::Ignored
            }
        } else {
            match target_of(s) {
                Some(g) => if reg.contains_key(g) {
                    RouteOutcome::Delivered { token: reg[g] }
                } else {
                    RouteOutcome::DroppedUnknownTarget
                },
                None => RouteOutcome::Ignored,
            }
        },
        FrameModel::Binary(_) => match tgt {
            Some(g) => if reg.contains_key(g) {
                RouteOutcome::Delivered { token: reg[g] }
            } else {
                RouteOutcome::DroppedUnknownTarget
            },
            None => RouteOutcome::DroppedNoTarget,
        },
        FrameModel::Close => RouteOutcome::SessionEnded,
        FrameModel::Ping => RouteOutcome::Ignored,
        FrameModel::Pong => RouteOutcome::Ignored,
    }
}

/// The session's phase after dispatching `f`: only a close frame moves it.
pub open spec fn phase_after(p: Phase, f: FrameModel) -> Phase {
    if f is Close {
        Phase::Closing
    } else {
        p
    }
}

/// The registry map after a session named `id` tears down, whichever duty
/// ended it.
pub open spec fn registry_after_close(reg: Map<Seq<char>, u64>, id: Seq<char>) -> Map<
    Seq<char>,
    u64,
> {
    reg.remove(id)
}

/// Relies on `uuid::Uuid::new_v4` and its hyphenated rendering: mints a
/// fresh random connection identifier. The value is random, so nothing is
/// promised of it.
#[verifier::external_body]
fn mint_connection_id() -> String {
    uuid::Uuid::new_v4().to_string()
}

/// The per-connection state: identifier, mailbox handle, routing target and
/// lifecycle phase. The routing target is owned by the session alone: only
/// its own dispatcher mutates it.
pub struct Session {
    /// The server-minted identifier this session unregisters on teardown.
    pub id: String,
    /// The token all of this session's shared handles carry in the model.
    pub token: u64,
    /// The sending half of this session's own mailbox.
    pub handle: tokio::sync::broadcast::Sender<Frame>,
    /// The identifier this session's binary frames are forwarded to.
    pub target: Option<String>,
    /// Where in its lifecycle the session stands.
    pub phase: Phase,
}

impl Session {
    /// Accepts one connection: mints a fresh identifier, opens the mailbox,
    /// and binds the identifier to it. Returns the active session and the
    /// receiving half of the mailbox, for the caller's relay duty.
    pub fn connect(registry: &mut Registry) -> (r: (
        Session,
        tokio::sync::broadcast::Receiver<Frame>,
    ))
        requires
            old(registry).wf(),
        ensures
            final(registry).wf(),
            final(registry)@ == old(registry)@.insert(r.0.id@, r.0.token),
            r.0.phase == Phase::Active,
            r.0.target is None,
    {
        let id = mint_connection_id();
        let (handle, receiver) = open_mailbox(MAILBOX_CAPACITY);
        let token = registry.mint_token();
        let own = clone_handle(&handle);
        let registered_id = id.clone();
        registry.register(registered_id, token, own);
        (Session { id, token, handle, target: None, phase: Phase::Active }, receiver)
    }

    /// Applies the router to one inbound frame.
    ///
    /// A text frame whose `type` field is `register` binds its
    /// `connectionId` to this session's mailbox and is not forwarded. Any
    /// other text frame that names a `target_id` overwrites this session's
    /// routing target and is deposited, whole, into the target's mailbox if
    /// the target is registered; otherwise it is silently dropped. A binary
    /// frame follows the stored routing target the same way. A close frame
    /// ends the session's dispatch phase. Everything else is ignored.
    pub fn dispatch(&mut self, registry: &mut Registry, frame: Frame) -> (r: RouteOutcome)
        requires
            old(self).phase == Phase::Active,
            old(registry).wf(),
        ensures
            final(registry).wf(),
            final(registry)@ == registry_after(old(registry)@, old(self).token, frame@),
            final(self).target.deep_view() == target_after(
                old(self).target.deep_view(),
                frame@,
            ),
            r == outcome_of(old(registry)@, old(self).target.deep_view(), frame@),
            final(self).phase == phase_after(old(self).phase, frame@),
            final(self).id == old(self).id,
            final(self).token == old(self).token,
            final(self).handle == old(self).handle,
            final(registry).next_token == old(registry).next_token,
    {
        match frame {
            Frame::Text(text) => {
                let env = parse_envelope(text.as_str());
                let is_reg = match &env.msg_type {
                    Some(t) => {
                        let register_word: String = "register".to_owned();
                        *t == register_word
                    },
                    None => false,
                };
                if is_reg {
                    match env.connection_id {
                        Some(bound) => {
                            let own = clone_handle(&self.handle);
                            registry.register(bound, self.token, own);
                            RouteOutcome::Registered
                        },
                        None => RouteOutcome::Ignored,
                    }
                } else {
                    match env.target_id {
                        Some(goal) => {
                            let outcome = match registry.lookup(&goal) {
                                Some((token, target_handle)) => {
                                    let _accepted = deposit(target_handle, Frame::Text(text));
                                    RouteOutcome::Delivered { token }
                                },
                                None => RouteOutcome::DroppedUnknownTarget,
                            };
                            self.target = Some(goal);
                            outcome
                        },
                        None => RouteOutcome::Ignored,
                    }
                }
            },
            Frame::Binary(payload) => {
                match &self.target {
                    Some(goal) => {
                        match registry.lookup(goal) {
                            Some((token, target_handle)) => {
                                let _accepted = deposit(target_handle, Frame::Binary(payload));
                                RouteOutcome::Delivered { token }
                            },
                            None => RouteOutcome::DroppedUnknownTarget,
                        }
                    },
                    None => RouteOutcome::DroppedNoTarget,
                }
            },
            Frame::Close => {
                self.phase = Phase::Closing;
                RouteOutcome::SessionEnded
            },
            Frame::Ping => RouteOutcome::Ignored,
            Frame::Pong => RouteOutcome::Ignored,
        }
    }

    /// Ends the session. Whichever duty ended first — writer, keepalive,
    /// relay or dispatcher — the effect on the registry is the same: this
    /// session's identifier is removed, every other binding is untouched.
    /// The removal runs exactly once: a second call finds the session closed
    /// and leaves the registry alone.
    pub fn teardown(&mut self, registry: &mut Registry, ended: Duty)
        requires
            old(registry).wf(),
        ensures
            final(registry).wf(),
            final(self).phase == Phase::Closed,
            final(registry)@ == if old(self).phase == Phase::Closed {
                old(registry)@
            } else {
                registry_after_close(old(registry)@, old(self).id@)
            },
            final(self).id == old(self).id,
            final(self).token == old(self).token,
            final(self).handle == old(self).handle,
            final(self).target == old(self).target,
            final(registry).next_token == old(registry).next_token,
    {
        match self.phase {
            Phase::Closed => {},
            _ => {
                registry.unregister(&self.id);
                self.phase = Phase::Closed;
            },
        }
    }
}

} // verus!
