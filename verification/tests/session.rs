use ws_relay::ident::has_random_shape;
use ws_relay::session::Phase;
use ws_relay::session::WsConn;
use ws_relay::session::CLIENT_TIMEOUT;
use ws_relay::session::HEARTBEAT_INTERVAL;
use ws_relay::session::PROBE_TEXT;
use ws_relay::wire::Action;
use ws_relay::wire::CloseReason;
use ws_relay::wire::Message;
use ws_relay::wire::ProtocolError;

const ID: u128 = 0x1111;
const ROOM: u128 = 0x2222;

fn active() -> WsConn {
    WsConn::with_id(ID, ROOM, 1000)
}

fn unregister() -> Action {
    Action::Unregister { id: ID, room: ROOM }
}

#[test]
fn new_session_is_active() {
    let s = WsConn::with_id(7, 9, 100);
    assert_eq!(s.id(), 7);
    assert_eq!(s.room(), 9);
    assert_eq!(s.last_activity(), 100);
    assert_eq!(s.phase(), Phase::Active);
    assert!(s.unregister_due());
}

#[test]
fn new_draws_a_random_identifier() {
    let a = WsConn::new(ROOM, 5);
    let b = WsConn::new(ROOM, 5);
    assert!(has_random_shape(a.id()));
    assert!(has_random_shape(b.id()));
    assert_eq!((a.id() >> 76) & 0xf, 4);
    assert_eq!((a.id() >> 62) & 0x3, 2);
    assert_ne!(a.id(), b.id());
    assert_eq!(a.room(), ROOM);
    assert_eq!(a.last_activity(), 5);
    assert_eq!(a.phase(), Phase::Active);
    assert!(a.unregister_due());
}

#[test]
fn random_shape_is_version_and_variant() {
    assert!(has_random_shape(0x0000_0000_0000_4000_8000_0000_0000_0000));
    assert!(has_random_shape(0xffff_ffff_ffff_4fff_bfff_ffff_ffff_ffff));
    assert!(!has_random_shape(0));
    assert!(!has_random_shape(0x0000_0000_0000_1000_8000_0000_0000_0000));
    assert!(!has_random_shape(0x0000_0000_0000_4000_c000_0000_0000_0000));
}

#[test]
fn constants_are_those_of_the_heartbeat() {
    assert_eq!(HEARTBEAT_INTERVAL, 100);
    assert_eq!(CLIENT_TIMEOUT, 10);
    assert_eq!(PROBE_TEXT.chars().count(), 8);
    assert_eq!(
        PROBE_TEXT.as_bytes(),
        &[
            236, 132, 188, 236, 132, 156, 32, 237, 151, 172, 236, 138, 164, 32, 236, 178, 180,
            237, 129, 172
        ]
    );
}

#[test]
fn started_asks_for_heartbeat_and_registration() {
    let mut s = active();
    let actions = s.started();
    assert_eq!(
        actions,
        vec![Action::Heartbeat { every: 100 }, Action::Register { id: ID, room: ROOM }]
    );
    assert_eq!(s.phase(), Phase::Active);
    assert!(s.unregister_due());
}

#[test]
fn accepted_registration_changes_nothing() {
    let mut s = active();
    s.started();
    assert_eq!(s.register_result(true), vec![]);
    assert_eq!(s, active());
}

#[test]
fn refused_registration_ends_without_unregister() {
    let mut s = active();
    s.started();
    assert_eq!(s.register_result(false), vec![Action::Stop]);
    assert_eq!(s.phase(), Phase::ClosedByError);
    assert!(!s.unregister_due());
    assert_eq!(s.stopped(), vec![]);
    assert_eq!(s.phase(), Phase::ClosedByError);
}

#[test]
fn ping_is_answered_and_noted() {
    let mut s = active();
    let r = s.handle(Ok(Message::Ping(vec![1, 2, 3])), 1004);
    assert_eq!(r, Ok(vec![Action::Pong(vec![1, 2, 3])]));
    assert_eq!(s.last_activity(), 1004);
    assert_eq!(s.phase(), Phase::Active);
}

#[test]
fn pong_is_noted_only() {
    let mut s = active();
    let r = s.handle(Ok(Message::Pong(vec![9])), 1007);
    assert_eq!(r, Ok(vec![]));
    assert_eq!(s.last_activity(), 1007);
    assert_eq!(s.phase(), Phase::Active);
}

#[test]
fn binary_is_echoed() {
    let mut s = active();
    let r = s.handle(Ok(Message::Binary(vec![0, 255, 7])), 1009);
    assert_eq!(r, Ok(vec![Action::Binary(vec![0, 255, 7])]));
    assert_eq!(s, active());
}

#[test]
fn nop_does_nothing() {
    let mut s = active();
    assert_eq!(s.handle(Ok(Message::Nop), 2000), Ok(vec![]));
    assert_eq!(s, active());
}

#[test]
fn text_goes_to_the_room() {
    let mut s = active();
    let r = s.handle(Ok(Message::Text("hello".to_string())), 1001);
    assert_eq!(
        r,
        Ok(vec![Action::Broadcast { id: ID, room: ROOM, text: "hello".to_string() }])
    );
    assert_eq!(s, active());
}

#[test]
fn close_is_acknowledged_and_ends_the_session() {
    let reason = Some(CloseReason { code: 1000, description: Some("bye".to_string()) });
    let mut s = active();
    let r = s.handle(Ok(Message::Close(reason.clone())), 1002);
    assert_eq!(r, Ok(vec![Action::Close(reason), unregister(), Action::Stop]));
    assert_eq!(s.phase(), Phase::ClosedByPeer);
    assert!(!s.unregister_due());
    assert_eq!(s.last_activity(), 1000);
}

#[test]
fn close_without_reason() {
    let mut s = active();
    let r = s.handle(Ok(Message::Close(None)), 1002);
    assert_eq!(r, Ok(vec![Action::Close(None), unregister(), Action::Stop]));
    assert_eq!(s.phase(), Phase::ClosedByPeer);
}

#[test]
fn fragment_ends_the_session() {
    let mut s = active();
    let r = s.handle(Ok(Message::Continuation), 1002);
    assert_eq!(r, Ok(vec![unregister(), Action::Stop]));
    assert_eq!(s.phase(), Phase::ClosedByError);
    assert!(!s.unregister_due());
}

#[test]
fn transport_fault_is_returned_and_ends_the_session() {
    let mut s = active();
    let r = s.handle(Err(ProtocolError::InvalidOpcode(11)), 1002);
    assert_eq!(r, Err(ProtocolError::InvalidOpcode(11)));
    assert_eq!(s.phase(), Phase::ClosedByError);
    assert!(s.unregister_due());
    assert_eq!(s.stopped(), vec![unregister()]);
    assert!(!s.unregister_due());
    assert_eq!(s.stopped(), vec![]);
}

#[test]
fn every_fault_is_returned_as_it_came() {
    let faults = vec![
        ProtocolError::UnmaskedFrame,
        ProtocolError::MaskedFrame,
        ProtocolError::InvalidOpcode(3),
        ProtocolError::InvalidLength(126),
        ProtocolError::BadOpCode,
        ProtocolError::Overflow,
        ProtocolError::ContinuationNotStarted,
        ProtocolError::ContinuationStarted,
        ProtocolError::ContinuationFragment(9),
        ProtocolError::Io,
    ];
    for fault in faults {
        let mut s = active();
        assert_eq!(s.handle(Err(fault), 1), Err(fault));
        assert_eq!(s.phase(), Phase::ClosedByError);
        assert_eq!(s.handle(Err(fault), 2), Err(fault));
        assert_eq!(s.phase(), Phase::ClosedByError);
    }
}

#[test]
fn heartbeat_probes_a_live_peer() {
    let mut s = active();
    let actions = s.hb(1010);
    assert_eq!(
        actions,
        vec![Action::Text(PROBE_TEXT.to_string()), Action::Pong(b"PING".to_vec())]
    );
    assert_eq!(s, active());
}

#[test]
fn heartbeat_at_the_threshold_does_not_evict() {
    let mut s = active();
    let actions = s.hb(1000 + CLIENT_TIMEOUT);
    assert_eq!(actions.len(), 2);
    assert_eq!(s.phase(), Phase::Active);
}

#[test]
fn heartbeat_past_the_threshold_evicts() {
    let mut s = active();
    let actions = s.hb(1011);
    assert_eq!(
        actions,
        vec![Action::Text(PROBE_TEXT.to_string()), unregister(), Action::Stop]
    );
    assert_eq!(s.phase(), Phase::TimedOut);
    assert!(!s.unregister_due());
    assert_eq!(s.last_activity(), 1000);
}

#[test]
fn heartbeat_with_clock_behind_does_not_evict() {
    let mut s = active();
    let actions = s.hb(3);
    assert_eq!(
        actions,
        vec![Action::Text(PROBE_TEXT.to_string()), Action::Pong(vec![80, 73, 78, 71])]
    );
    assert_eq!(s.phase(), Phase::Active);
    let mut far = WsConn::with_id(ID, ROOM, u64::MAX);
    assert_eq!(far.hb(0).len(), 2);
    let mut zero = WsConn::with_id(ID, ROOM, 0);
    assert_eq!(zero.hb(u64::MAX).len(), 3);
    assert_eq!(zero.phase(), Phase::TimedOut);
}

#[test]
fn sign_of_life_postpones_eviction() {
    let mut s = active();
    assert_eq!(s.handle(Ok(Message::Pong(vec![])), 1100), Ok(vec![]));
    assert_eq!(s.hb(1110).len(), 2);
    assert_eq!(s.phase(), Phase::Active);
    assert_eq!(s.hb(1111).len(), 3);
    assert_eq!(s.phase(), Phase::TimedOut);
}

#[test]
fn silent_peer_is_evicted_without_close() {
    let mut s = active();
    s.started();
    s.register_result(true);
    let actions = s.hb(1000 + HEARTBEAT_INTERVAL);
    assert!(actions.contains(&unregister()));
    assert_eq!(actions.last(), Some(&Action::Stop));
    assert_eq!(s.phase(), Phase::TimedOut);
    assert_eq!(s.stopped(), vec![]);
}

#[test]
fn delivery_is_written_as_one_text_frame() {
    let mut s = active();
    assert_eq!(s.deliver("hello".to_string()), vec![Action::Text("hello".to_string())]);
    assert_eq!(s.deliver(String::new()), vec![Action::Text(String::new())]);
    assert_eq!(s, active());
}

#[test]
fn stopped_while_active_unregisters_once() {
    let mut s = active();
    s.started();
    assert_eq!(s.stopped(), vec![unregister()]);
    assert_eq!(s.phase(), Phase::ClosedByPeer);
    assert!(!s.unregister_due());
    assert_eq!(s.stopped(), vec![]);
    assert_eq!(s.phase(), Phase::ClosedByPeer);
}

#[test]
fn closed_session_ignores_everything() {
    let mut s = active();
    s.handle(Ok(Message::Close(None)), 1001).unwrap();
    let closed = s.clone();
    assert_eq!(s.started(), vec![]);
    assert_eq!(s.register_result(false), vec![]);
    assert_eq!(s.register_result(true), vec![]);
    assert_eq!(s.handle(Ok(Message::Ping(vec![1])), 5000), Ok(vec![]));
    assert_eq!(s.handle(Ok(Message::Pong(vec![1])), 5000), Ok(vec![]));
    assert_eq!(s.handle(Ok(Message::Binary(vec![1])), 5000), Ok(vec![]));
    assert_eq!(s.handle(Ok(Message::Text("x".to_string())), 5000), Ok(vec![]));
    assert_eq!(s.handle(Ok(Message::Close(None)), 5000), Ok(vec![]));
    assert_eq!(s.handle(Ok(Message::Continuation), 5000), Ok(vec![]));
    assert_eq!(s.handle(Ok(Message::Nop), 5000), Ok(vec![]));
    assert_eq!(s.hb(5000), vec![]);
    assert_eq!(s.deliver("late".to_string()), vec![]);
    assert_eq!(s.stopped(), vec![]);
    assert_eq!(s, closed);
    assert_eq!(s.phase(), Phase::ClosedByPeer);
}

#[test]
fn no_path_unregisters_twice() {
    let count = |actions: &Vec<Action>| {
        actions.iter().filter(|a| matches!(a, Action::Unregister { .. })).count()
    };
    let mut by_close = active();
    let mut n = count(&by_close.handle(Ok(Message::Close(None)), 1).unwrap());
    n += count(&by_close.hb(5000));
    n += count(&by_close.stopped());
    assert_eq!(n, 1);

    let mut by_timeout = active();
    let mut n = count(&by_timeout.hb(5000));
    n += count(&by_timeout.handle(Ok(Message::Close(None)), 5001).unwrap());
    n += count(&by_timeout.stopped());
    n += count(&by_timeout.stopped());
    assert_eq!(n, 1);

    let mut by_fault = active();
    assert!(by_fault.handle(Err(ProtocolError::Io), 1).is_err());
    let mut n = count(&by_fault.hb(5000));
    n += count(&by_fault.stopped());
    n += count(&by_fault.stopped());
    assert_eq!(n, 1);

    let mut by_fragment = active();
    let mut n = count(&by_fragment.handle(Ok(Message::Continuation), 1).unwrap());
    n += count(&by_fragment.stopped());
    assert_eq!(n, 1);

    let mut refused = active();
    let mut n = count(&refused.register_result(false));
    n += count(&refused.hb(5000));
    n += count(&refused.stopped());
    assert_eq!(n, 0);
}
