//! The relay's routing guarantees, stated and proved over the models that
//! the registry's and session's contracts use.
//!
//! Each law quantifies over every registry map, routing target and frame the
//! contracts admit; the corresponding concrete behaviour follows because
//! `Registry`'s and `Session`'s `ensures` tie their results to exactly these
//! model functions.

use crate::envelope::{is_register_text, register_id_of, target_of};
use crate::frame::FrameModel;
use crate::session::{registry_after, registry_after_close, outcome_of, target_after, RouteOutcome};
use vstd::prelude::*;

verus! {

/// Law: registering the same identifier twice, from sessions with tokens
/// `t1` then `t2`, leaves the identifier resolving to the handle registered
/// last — and to nothing else.
pub proof fn lemma_registration_last_write_wins(
    reg: Map<Seq<char>, u64>,
    s1: Seq<char>,
    s2: Seq<char>,
    id: Seq<char>,
    t1: u64,
    t2: u64,
)
    requires
        is_register_text(s1),
        register_id_of(s1) == Some(id),
        is_register_text(s2),
        register_id_of(s2) == Some(id),
    ensures
        ({
            let after = registry_after(
                registry_after(reg, t1, FrameModel::Text(s1)),
                t2,
                FrameModel::Text(s2),
            );
            after.contains_key(id) && after[id] == t2
        }),
{
}

/// Law: a non-registration text frame addressed to a registered identifier
/// is deposited into exactly the mailbox the registry binds to that
/// identifier — the outcome names that one token and no other — and the
/// registry itself is left untouched by the send.
pub proof fn lemma_targeted_delivery(
    reg: Map<Seq<char>, u64>,
    tgt: Option<Seq<char>>,
    token: u64,
    s: Seq<char>,
    peer: Seq<char>,
)
    requires
        !is_register_text(s),
        target_of(s) == Some(peer),
        reg.contains_key(peer),
    ensures
        outcome_of(reg, tgt, FrameModel::Text(s)) == (RouteOutcome::Delivered {
            token: reg[peer],
        }),
        registry_after(reg, token, FrameModel::Text(s)) == reg,
{
}

/// Law: after a text frame names `peer` as the target, a subsequent binary
/// frame follows it — delivered to `peer`'s handle alone when `peer` is
/// registered. And when no target was ever designated, a binary frame is
/// dropped with a diagnostic outcome, not delivered.
pub proof fn lemma_binary_follows_target(
    reg: Map<Seq<char>, u64>,
    tgt0: Option<Seq<char>>,
    s: Seq<char>,
    peer: Seq<char>,
    payload: Seq<u8>,
)
    requires
        !is_register_text(s),
        target_of(s) == Some(peer),
    ensures
        target_after(tgt0, FrameModel::Text(s)) == Some(peer),
        reg.contains_key(peer) ==> outcome_of(
            reg,
            target_after(tgt0, FrameModel::Text(s)),
            FrameModel::Binary(payload),
        ) == (RouteOutcome::Delivered { token: reg[peer] }),
        outcome_of(reg, None::<Seq<char>>, FrameModel::Binary(payload))
            == RouteOutcome::DroppedNoTarget,
{
}

/// Law: once a session tears down, its identifier resolves to nothing, and a
/// frame addressed to it afterwards — text or binary — is dropped rather
/// than delivered.
pub proof fn lemma_unregister_on_close(
    reg: Map<Seq<char>, u64>,
    id: Seq<char>,
    tgt: Option<Seq<char>>,
    s: Seq<char>,
    payload: Seq<u8>,
)
    ensures
        !registry_after_close(reg, id).contains_key(id),
        (!is_register_text(s) && target_of(s) == Some(id)) ==> outcome_of(
            registry_after_close(reg, id),
            tgt,
            FrameModel::Text(s),
        ) == RouteOutcome::DroppedUnknownTarget,
        outcome_of(registry_after_close(reg, id), Some(id), FrameModel::Binary(payload))
            == RouteOutcome::DroppedUnknownTarget,
{
}

/// Law: a text frame addressed to an identifier no binding carries is a
/// no-op — nothing is delivered anywhere and the registry is unchanged.
pub proof fn lemma_unknown_target_no_op(
    reg: Map<Seq<char>, u64>,
    tgt: Option<Seq<char>>,
    token: u64,
    s: Seq<char>,
    absent_id: Seq<char>,
)
    requires
        !is_register_text(s),
        target_of(s) == Some(absent_id),
        !reg.contains_key(absent_id),
    ensures
        outcome_of(reg, tgt, FrameModel::Text(s)) == RouteOutcome::DroppedUnknownTarget,
        !(outcome_of(reg, tgt, FrameModel::Text(s)) is Delivered),
        registry_after(reg, token, FrameModel::Text(s)) == reg,
{
}

/// Law: teardown's effect on the registry does not depend on which duty
/// ended the session — in particular, a keepalive failure unregisters the
/// session exactly as cleanly as a socket close: its own identifier is gone
/// and every other binding survives with its handle intact.
pub proof fn lemma_teardown_leaves_others(reg: Map<Seq<char>, u64>, id: Seq<char>)
    ensures
        !registry_after_close(reg, id).contains_key(id),
        forall|k: Seq<char>|
            k != id ==> registry_after_close(reg, id).contains_key(k) == reg.contains_key(k),
        forall|k: Seq<char>|
            k != id && reg.contains_key(k) ==> registry_after_close(reg, id)[k] == reg[k],
{
}

} // verus!
