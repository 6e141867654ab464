//! End-to-end exercises of the relay core: registration, targeted routing,
//! binary follow-the-target, teardown, and the envelope parser, all through
//! real mailboxes.

use ws_relay::envelope::parse_envelope;
use ws_relay::frame::{keepalive_frame, Frame, KEEPALIVE_PERIOD_SECS};
use ws_relay::registry::Registry;
use ws_relay::session::{Duty, Phase, RouteOutcome, Session};

fn text(s: &str) -> Frame {
    Frame::Text(s.to_string())
}

fn register_frame(id: &str) -> Frame {
    text(&format!("{{\"type\":\"register\",\"connectionId\":\"{}\"}}", id))
}

fn target_frame(id: &str, body: &str) -> Frame {
    text(&format!("{{\"target_id\":\"{}\",\"body\":\"{}\"}}", id, body))
}

#[test]
fn parse_envelope_extracts_fields() {
    let e = parse_envelope("{\"type\":\"register\",\"connectionId\":\"alice\",\"target_id\":\"bob\"}");
    assert_eq!(e.msg_type.as_deref(), Some("register"));
    assert_eq!(e.connection_id.as_deref(), Some("alice"));
    assert_eq!(e.target_id.as_deref(), Some("bob"));
}

#[test]
fn parse_envelope_malformed_and_nonstring() {
    let e = parse_envelope("this is not an envelope");
    assert!(e.msg_type.is_none() && e.connection_id.is_none() && e.target_id.is_none());
    let e = parse_envelope("{\"type\":5,\"target_id\":[1,2]}");
    assert!(e.msg_type.is_none() && e.target_id.is_none());
    let e = parse_envelope("[\"type\",\"register\"]");
    assert!(e.msg_type.is_none());
}

#[test]
fn fresh_sessions_get_distinct_identifiers() {
    let mut reg = Registry::new();
    let (a, _rx_a) = Session::connect(&mut reg);
    let (b, _rx_b) = Session::connect(&mut reg);
    assert_ne!(a.id, b.id);
    assert_eq!(a.phase, Phase::Active);
    assert!(a.target.is_none());
}

#[test]
fn registration_last_write_wins() {
    let mut reg = Registry::new();
    let (mut a, mut rx_a) = Session::connect(&mut reg);
    let (mut b, mut rx_b) = Session::connect(&mut reg);
    let (mut c, _rx_c) = Session::connect(&mut reg);

    assert_eq!(a.dispatch(&mut reg, register_frame("shared")), RouteOutcome::Registered);
    assert_eq!(b.dispatch(&mut reg, register_frame("shared")), RouteOutcome::Registered);

    let frame = target_frame("shared", "hello");
    let outcome = c.dispatch(&mut reg, frame.clone());
    assert_eq!(outcome, RouteOutcome::Delivered { token: b.token });
    assert_eq!(rx_b.try_recv().unwrap(), frame);
    assert!(rx_a.try_recv().is_err());
}

#[test]
fn targeted_delivery_reaches_only_the_target() {
    let mut reg = Registry::new();
    let (mut a, mut rx_a) = Session::connect(&mut reg);
    let (mut b, mut rx_b) = Session::connect(&mut reg);
    let (mut c, mut rx_c) = Session::connect(&mut reg);

    assert_eq!(b.dispatch(&mut reg, register_frame("bob")), RouteOutcome::Registered);
    assert_eq!(c.dispatch(&mut reg, register_frame("carol")), RouteOutcome::Registered);

    let frame = target_frame("bob", "for bob only");
    let outcome = a.dispatch(&mut reg, frame.clone());
    assert_eq!(outcome, RouteOutcome::Delivered { token: b.token });
    assert_eq!(a.target.as_deref(), Some("bob"));
    assert_eq!(rx_b.try_recv().unwrap(), frame);
    assert!(rx_c.try_recv().is_err());
    assert!(rx_a.try_recv().is_err());
}

#[test]
fn deliveries_keep_deposit_order() {
    let mut reg = Registry::new();
    let (mut a, _rx_a) = Session::connect(&mut reg);
    let (mut b, mut rx_b) = Session::connect(&mut reg);
    assert_eq!(b.dispatch(&mut reg, register_frame("bob")), RouteOutcome::Registered);

    let first = target_frame("bob", "first");
    let second = target_frame("bob", "second");
    a.dispatch(&mut reg, first.clone());
    a.dispatch(&mut reg, second.clone());
    assert_eq!(rx_b.try_recv().unwrap(), first);
    assert_eq!(rx_b.try_recv().unwrap(), second);
    assert!(rx_b.try_recv().is_err());
}

#[test]
fn binary_follows_the_target() {
    let mut reg = Registry::new();
    let (mut a, _rx_a) = Session::connect(&mut reg);
    let (mut b, mut rx_b) = Session::connect(&mut reg);
    let (mut c, mut rx_c) = Session::connect(&mut reg);
    assert_eq!(b.dispatch(&mut reg, register_frame("bob")), RouteOutcome::Registered);
    assert_eq!(c.dispatch(&mut reg, register_frame("carol")), RouteOutcome::Registered);

    let setup = target_frame("bob", "setup");
    a.dispatch(&mut reg, setup.clone());
    assert_eq!(rx_b.try_recv().unwrap(), setup);

    let outcome = a.dispatch(&mut reg, Frame::Binary(vec![1, 2, 3]));
    assert_eq!(outcome, RouteOutcome::Delivered { token: b.token });
    assert_eq!(rx_b.try_recv().unwrap(), Frame::Binary(vec![1, 2, 3]));
    assert!(rx_c.try_recv().is_err());
}

#[test]
fn binary_without_target_is_dropped_with_diagnostic() {
    let mut reg = Registry::new();
    let (mut a, mut rx_a) = Session::connect(&mut reg);
    let (_b, mut rx_b) = Session::connect(&mut reg);
    let outcome = a.dispatch(&mut reg, Frame::Binary(vec![9]));
    assert_eq!(outcome, RouteOutcome::DroppedNoTarget);
    assert!(rx_a.try_recv().is_err());
    assert!(rx_b.try_recv().is_err());
}

#[test]
fn binary_to_unregistered_target_is_dropped() {
    let mut reg = Registry::new();
    let (mut a, _rx_a) = Session::connect(&mut reg);
    let (mut b, mut rx_b) = Session::connect(&mut reg);
    assert_eq!(b.dispatch(&mut reg, register_frame("bob")), RouteOutcome::Registered);
    a.dispatch(&mut reg, target_frame("bob", "setup"));
    let _ = rx_b.try_recv().unwrap();

    // Unbind "bob"; the stale stored target then drops the frame.
    reg.unregister(&"bob".to_string());
    assert!(reg.lookup(&"bob".to_string()).is_none());
    let outcome = a.dispatch(&mut reg, Frame::Binary(vec![7]));
    assert_eq!(outcome, RouteOutcome::DroppedUnknownTarget);
    assert!(rx_b.try_recv().is_err());
}

#[test]
fn unknown_target_is_a_no_op() {
    let mut reg = Registry::new();
    let (mut a, mut rx_a) = Session::connect(&mut reg);
    let (_b, mut rx_b) = Session::connect(&mut reg);
    let outcome = a.dispatch(&mut reg, target_frame("ghost", "anyone there"));
    assert_eq!(outcome, RouteOutcome::DroppedUnknownTarget);
    assert_eq!(a.target.as_deref(), Some("ghost"));
    assert!(rx_a.try_recv().is_err());
    assert!(rx_b.try_recv().is_err());
}

#[test]
fn register_without_connection_id_is_ignored() {
    let mut reg = Registry::new();
    let (mut a, _rx_a) = Session::connect(&mut reg);
    let (mut b, mut rx_b) = Session::connect(&mut reg);
    assert_eq!(b.dispatch(&mut reg, register_frame("bob")), RouteOutcome::Registered);

    // A register directive with no identifier binds nothing and forwards
    // nothing, even when a target_id rides along.
    let outcome = a.dispatch(
        &mut reg,
        text("{\"type\":\"register\",\"target_id\":\"bob\"}"),
    );
    assert_eq!(outcome, RouteOutcome::Ignored);
    assert!(a.target.is_none());
    assert!(rx_b.try_recv().is_err());
}

#[test]
fn malformed_text_is_ignored() {
    let mut reg = Registry::new();
    let (mut a, _rx_a) = Session::connect(&mut reg);
    assert_eq!(a.dispatch(&mut reg, text("{{{")), RouteOutcome::Ignored);
    assert_eq!(a.dispatch(&mut reg, text("{\"other\":1}")), RouteOutcome::Ignored);
}

#[test]
fn control_frames() {
    let mut reg = Registry::new();
    let (mut a, _rx_a) = Session::connect(&mut reg);
    assert_eq!(a.dispatch(&mut reg, Frame::Ping), RouteOutcome::Ignored);
    assert_eq!(a.dispatch(&mut reg, Frame::Pong), RouteOutcome::Ignored);
    assert_eq!(a.dispatch(&mut reg, Frame::Close), RouteOutcome::SessionEnded);
    assert_eq!(a.phase, Phase::Closing);
}

#[test]
fn unregister_on_close() {
    let mut reg = Registry::new();
    let (mut a, _rx_a) = Session::connect(&mut reg);
    let (mut b, mut rx_b) = Session::connect(&mut reg);
    let b_id = b.id.clone();

    let before = target_frame(&b_id, "still there");
    assert_eq!(
        a.dispatch(&mut reg, before.clone()),
        RouteOutcome::Delivered { token: b.token }
    );
    assert_eq!(rx_b.try_recv().unwrap(), before);

    b.teardown(&mut reg, Duty::InboundDispatcher);
    assert_eq!(b.phase, Phase::Closed);
    assert!(reg.lookup(&b_id).is_none());

    let after = target_frame(&b_id, "anyone home");
    assert_eq!(a.dispatch(&mut reg, after), RouteOutcome::DroppedUnknownTarget);
    assert!(rx_b.try_recv().is_err());

    // Teardown is idempotent: a second duty ending changes nothing.
    b.teardown(&mut reg, Duty::OutboundWriter);
    assert_eq!(b.phase, Phase::Closed);
}

#[test]
fn keepalive_emits_pings_and_fails_clean() {
    assert_eq!(keepalive_frame(), Frame::Ping);
    assert_eq!(KEEPALIVE_PERIOD_SECS, 30);

    // A keepalive failure ends the session through the same teardown as any
    // other duty: the identifier is gone, other bindings survive.
    let mut reg = Registry::new();
    let (mut a, _rx_a) = Session::connect(&mut reg);
    let (mut b, _rx_b) = Session::connect(&mut reg);
    assert_eq!(b.dispatch(&mut reg, register_frame("bob")), RouteOutcome::Registered);

    a.teardown(&mut reg, Duty::Keepalive);
    assert!(reg.lookup(&a.id).is_none());
    assert!(reg.lookup(&"bob".to_string()).is_some());
    assert!(reg.lookup(&b.id).is_some());
}

#[test]
fn registry_operations() {
    let mut reg = Registry::new();
    let (a, _rx_a) = Session::connect(&mut reg);
    let (b, _rx_b) = Session::connect(&mut reg);
    let (c, _rx_c) = Session::connect(&mut reg);

    let got = reg.lookup(&a.id).expect("a registered");
    assert_eq!(got.0, a.token);

    let snap = reg.snapshot_except(&b.id);
    let mut ids: Vec<&str> = snap.iter().map(|p| p.0.as_str()).collect();
    ids.sort();
    let mut expect: Vec<&str> = vec![a.id.as_str(), c.id.as_str()];
    expect.sort();
    assert_eq!(ids, expect);
    for (id, token) in &snap {
        let found = reg.lookup(id).expect("snapshot entry registered");
        assert_eq!(found.0, *token);
    }

    reg.unregister(&a.id);
    assert!(reg.lookup(&a.id).is_none());
    assert!(reg.lookup(&c.id).is_some());
    // Unregistering an absent identifier is a no-op.
    reg.unregister(&a.id);
    assert!(reg.lookup(&b.id).is_some());
}
