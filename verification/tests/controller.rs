use blehr::catalog::{build_catalog, register};
use blehr::identity::DeviceIdentity;
use blehr::scheduler::{tick, TickOutcome, SAMPLE_FLAGS, TICK_PERIOD_MS};
use blehr::session::{Effects, GapEvent, SchedulerCmd, Session, SessionState};

fn fresh_session() -> Session {
    let c = build_catalog();
    let reg = register(&c).unwrap();
    Session::new(&reg)
}

fn identity() -> DeviceIdentity {
    DeviceIdentity { addr_type: 0, addr: [0x0f, 0x22, 0x33, 0x44, 0x55, 0xaa] }
}

fn connect_and_subscribe(s: &mut Session, conn_handle: u16) {
    s.handle_event(GapEvent::Synced { identity: identity() });
    s.handle_event(GapEvent::Connect { status: 0, conn_handle });
    s.handle_event(GapEvent::Subscribe {
        attr_handle: s.hr_measurement_handle,
        cur_notify: true,
    });
}

fn emitted_bpm(o: TickOutcome) -> u8 {
    match o {
        TickOutcome::Emit(n) => {
            assert_eq!(n.payload.len(), 2);
            assert_eq!(n.payload[0], SAMPLE_FLAGS);
            n.payload[1]
        }
        TickOutcome::Stop => panic!("expected a notification"),
    }
}

#[test]
fn scheduler_period_is_one_second() {
    assert_eq!(TICK_PERIOD_MS, 1000);
}

#[test]
fn bpm_cycles_and_wraps_at_160() {
    let mut s = fresh_session();
    connect_and_subscribe(&mut s, 1);
    for k in 0..150u32 {
        let bpm = emitted_bpm(tick(&mut s));
        assert_eq!(u32::from(bpm), 90 + k % 70);
    }
}

#[test]
fn notify_exactly_while_subscribed() {
    let mut s = fresh_session();
    // Not connected: no notification.
    assert!(matches!(tick(&mut s), TickOutcome::Stop));
    connect_and_subscribe(&mut s, 4);
    assert!(matches!(tick(&mut s), TickOutcome::Emit(_)));
    assert!(matches!(tick(&mut s), TickOutcome::Emit(_)));
    // Toggling subscribe off stops emission at once, with no partial sample.
    let hr = s.hr_measurement_handle;
    let e = s.handle_event(GapEvent::Subscribe { attr_handle: hr, cur_notify: false });
    assert_eq!(e.scheduler, SchedulerCmd::Stop);
    assert!(matches!(tick(&mut s), TickOutcome::Stop));
    assert_eq!(s.bpm, 90);
    // Toggling it back on resumes from the base value.
    let e = s.handle_event(GapEvent::Subscribe { attr_handle: hr, cur_notify: true });
    assert_eq!(e.scheduler, SchedulerCmd::Arm);
    assert_eq!(emitted_bpm(tick(&mut s)), 90);
}

#[test]
fn subscribe_for_other_handle_leaves_scheduler_alone() {
    let mut s = fresh_session();
    connect_and_subscribe(&mut s, 4);
    let other = s.hr_measurement_handle + 1;
    let e = s.handle_event(GapEvent::Subscribe { attr_handle: other, cur_notify: false });
    assert_eq!(e, Effects { start_advertising: false, scheduler: SchedulerCmd::Unchanged });
    // The diagnostic notify flag moved, the subscription did not.
    assert!(!s.observed_notify);
    assert!(matches!(s.state, SessionState::Connected { subscribed: true, .. }));
    assert!(matches!(tick(&mut s), TickOutcome::Emit(_)));
}

#[test]
fn disconnect_returns_to_advertising_without_leaked_state() {
    let mut s = fresh_session();
    connect_and_subscribe(&mut s, 4);
    let _ = tick(&mut s);
    let e = s.handle_event(GapEvent::Disconnect { reason: 0x13 });
    assert_eq!(e, Effects { start_advertising: true, scheduler: SchedulerCmd::Stop });
    assert_eq!(s.state, SessionState::Advertising);
    // A later connect succeeds independently of the prior session's history:
    // the new session starts unsubscribed, whatever was subscribed before.
    s.handle_event(GapEvent::Connect { status: 0, conn_handle: 9 });
    assert_eq!(s.state, SessionState::Connected { conn_handle: 9, subscribed: false });
    assert!(matches!(tick(&mut s), TickOutcome::Stop));
}

#[test]
fn failed_connect_resumes_advertising() {
    let mut s = fresh_session();
    s.handle_event(GapEvent::Synced { identity: identity() });
    let e = s.handle_event(GapEvent::Connect { status: 14, conn_handle: 4 });
    assert_eq!(e, Effects { start_advertising: true, scheduler: SchedulerCmd::Unchanged });
    assert_eq!(s.state, SessionState::Advertising);
}

#[test]
fn advertising_complete_rearms_until_connected() {
    let mut s = fresh_session();
    let e = s.handle_event(GapEvent::Synced { identity: identity() });
    assert!(e.start_advertising);
    assert_eq!(s.state, SessionState::Advertising);
    let e = s.handle_event(GapEvent::AdvComplete);
    assert!(e.start_advertising);
    s.handle_event(GapEvent::Connect { status: 0, conn_handle: 2 });
    let e = s.handle_event(GapEvent::AdvComplete);
    assert!(!e.start_advertising);
}

#[test]
fn identity_resolves_once() {
    let mut s = fresh_session();
    s.handle_event(GapEvent::Synced { identity: identity() });
    assert_eq!(s.identity, Some(identity()));
    let other = DeviceIdentity { addr_type: 1, addr: [9, 9, 9, 9, 9, 9] };
    let e = s.handle_event(GapEvent::Synced { identity: other });
    assert_eq!(e, Effects { start_advertising: false, scheduler: SchedulerCmd::Unchanged });
    assert_eq!(s.identity, Some(identity()));
}

#[test]
fn mtu_and_unknown_events_are_ignored() {
    let mut s = fresh_session();
    connect_and_subscribe(&mut s, 4);
    let before = s;
    let e = s.handle_event(GapEvent::MtuUpdate { conn_handle: 4, mtu: 256 });
    assert_eq!(e, Effects { start_advertising: false, scheduler: SchedulerCmd::Unchanged });
    assert_eq!(s, before);
    let e = s.handle_event(GapEvent::Unknown { event_type: 77 });
    assert_eq!(e, Effects { start_advertising: false, scheduler: SchedulerCmd::Unchanged });
    assert_eq!(s, before);
}

#[test]
fn full_session_scenario() {
    // connect, subscribe, three ticks, unsubscribe, disconnect.
    let c = build_catalog();
    let reg = register(&c).unwrap();
    let mut s = Session::new(&reg);
    s.handle_event(GapEvent::Synced { identity: identity() });
    s.handle_event(GapEvent::Connect { status: 0, conn_handle: 7 });
    let e = s.handle_event(GapEvent::Subscribe {
        attr_handle: reg.hr_measurement_handle,
        cur_notify: true,
    });
    assert_eq!(e.scheduler, SchedulerCmd::Arm);
    let mut payloads = Vec::new();
    for _ in 0..3 {
        match tick(&mut s) {
            TickOutcome::Emit(n) => {
                assert_eq!(n.conn_handle, 7);
                assert_eq!(n.attr_handle, reg.hr_measurement_handle);
                payloads.push(n.payload);
            }
            TickOutcome::Stop => panic!("expected a notification"),
        }
    }
    assert_eq!(payloads, vec![vec![0x06, 90], vec![0x06, 91], vec![0x06, 92]]);
    // Unsubscribe: the next tick emits nothing and the bpm resets.
    s.handle_event(GapEvent::Subscribe {
        attr_handle: reg.hr_measurement_handle,
        cur_notify: false,
    });
    assert!(matches!(tick(&mut s), TickOutcome::Stop));
    assert_eq!(s.bpm, 90);
    // Disconnect: back to Advertising; the stale handle is held nowhere.
    s.handle_event(GapEvent::Disconnect { reason: 0x08 });
    assert_eq!(s.state, SessionState::Advertising);
    // A new connection's notifications go to the new handle only.
    s.handle_event(GapEvent::Connect { status: 0, conn_handle: 11 });
    s.handle_event(GapEvent::Subscribe {
        attr_handle: reg.hr_measurement_handle,
        cur_notify: true,
    });
    match tick(&mut s) {
        TickOutcome::Emit(n) => {
            assert_eq!(n.conn_handle, 11);
            assert_eq!(n.payload, vec![0x06, 90]);
        }
        TickOutcome::Stop => panic!("expected a notification"),
    }
}
