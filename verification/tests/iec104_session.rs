use bytes::Bytes;
use chrono::DateTime;
use ng_gateway_southward::clock::{max_utc, UtcTime};
use ng_gateway_southward::iec104::protocol::client::{ClientBuilder, ClientOption};
use ng_gateway_southward::iec104::protocol::error::Error;
use ng_gateway_southward::iec104::protocol::frame::apci::{
    new_iframe, new_sframe, new_uframe, ApciKind, U_STARTDT_ACTIVE, U_STARTDT_CONFIRM,
    U_STOPDT_ACTIVE, U_TESTFR_ACTIVE, U_TESTFR_CONFIRM,
};
use ng_gateway_southward::iec104::protocol::frame::asdu::{
    Asdu, Cause, CauseOfTransmission, Identifier, TypeID, VariableStruct,
};
use ng_gateway_southward::iec104::protocol::frame::cproc::{
    BitsString32CommandInfo, DoubleCommandInfo, SetPointCommandFloatInfo,
    SetPointCommandNormalInfo, SetPointCommandScaledInfo, SingleCommandInfo, StepCommandInfo,
};
use ng_gateway_southward::iec104::protocol::frame::Apdu;
use ng_gateway_southward::iec104::protocol::session::link::{
    Action, AfterSend, Connection, TickPhase,
};
use ng_gateway_southward::iec104::protocol::session::requests::{
    connect_error, connect_failed, connection_settled, ConnectFailure, Session,
};
use ng_gateway_southward::iec104::protocol::session::{
    ApplicationState, ApplicationStateCell, Priority, Request, SessionConfig, SessionEvent,
    SessionLifecycleState, SessionState,
};

fn moment(ms: i64) -> UtcTime {
    UtcTime { secs: 1_700_000_000 + ms / 1000, nanos: (ms % 1000) as u32 * 1_000_000 }
}

fn asdu(len: usize) -> Asdu {
    Asdu {
        identifier: Identifier {
            type_id: TypeID::C_SC_NA_1,
            variable_struct: VariableStruct::new(false, 1),
            cot: CauseOfTransmission::new(false, false, Cause::Activation),
            orig_addr: 0,
            common_addr: 1,
        },
        raw: Bytes::from(vec![0; len]),
    }
}

fn active(config: SessionConfig) -> Connection {
    let (mut c, first) = Connection::open(config, moment(0), moment(0));
    assert!(matches!(ApciKind::from(first.apci), ApciKind::U(u) if u.function == U_STARTDT_ACTIVE));
    let r = c.on_frame(new_uframe(U_STARTDT_CONFIRM), moment(1));
    assert!(matches!(r.action, Action::Enter(SessionLifecycleState::Active)));
    c
}

fn function_of(f: &Apdu) -> u8 {
    match ApciKind::from(f.apci) {
        ApciKind::U(u) => u.function,
        _ => panic!(),
    }
}

fn send(c: &mut Connection, len: usize, at: i64) {
    let r = c.on_request(Request::I(asdu(len), Priority::High), moment(at));
    assert!(matches!(r.action, Action::Send(_)));
    assert!(r.fatal);
    assert!(matches!(c.on_sent(r.after, moment(at)), Action::Nothing));
}

#[test]
fn last_moment_is_that_of_the_calendar() {
    let last = max_utc();
    let t = DateTime::from_timestamp(last.secs, last.nanos).unwrap();
    assert_eq!(t, DateTime::<chrono::Utc>::MAX_UTC);
    assert!(DateTime::from_timestamp(last.secs + 1, 0).is_none());
}

#[test]
fn default_settings() {
    let c = SessionConfig::default();
    assert_eq!(c.t1_ms, 15000);
    assert_eq!((c.k_window, c.w_threshold), (12, 8));
    let b = ClientBuilder::new()
        .t1(7)
        .window_k(3)
        .tcp_nodelay(false)
        .socket_addr("10.0.0.1:2404".to_string());
    let client = b.build();
    assert_eq!(client.options().socket_addr, "10.0.0.1:2404");
    let s = SessionConfig::from(client.options().clone());
    assert_eq!((s.t1_ms, s.k_window, s.tcp_nodelay), (7, 3, false));
    assert_eq!(s.t3_ms, c.t3_ms);
    assert_eq!(SessionConfig::from(ClientOption::new("x".to_string())), c);
}

#[test]
fn sequence_numbers_wrap() {
    assert_eq!(SessionState::seq_add(32767, 1), 0);
    assert_eq!(SessionState::seq_distance(32766, 1), 3);
    assert_eq!(SessionState::seq_distance(65535, 0), 1);
    assert!(SessionState::seq_in_range_inclusive(32766, 1, 0));
    assert!(!SessionState::seq_in_range_inclusive(32766, 1, 2));
    assert!(SessionState::seq_lte(1, 2));
}

#[test]
fn acknowledged_frames_leave_the_window() {
    let mut s = SessionState::new(moment(0));
    for seq in 0..4 {
        s.push_pending(seq, moment(0), 10);
        s.send_sn = SessionState::seq_add(s.send_sn, 1);
    }
    assert_eq!(s.inflight_count(), 4);
    assert_eq!(s.total_pending_bytes(), 40);
    assert!(!s.window_has_capacity(4));
    assert_eq!(s.window_available_slots(5), 1);
    assert!(s.update_send_ack(3));
    assert_eq!(s.pending.len(), 1);
    assert_eq!(s.total_pending_bytes(), 10);
    assert!(!s.update_send_ack(9));
    assert_eq!(s.clear_pending(), 1);
    assert_eq!(s.total_pending_bytes(), 0);
}

#[test]
fn overdue_frame_is_given_up() {
    let mut s = SessionState::new(moment(0));
    s.push_pending(0, moment(0), 20);
    s.send_sn = 1;
    assert_eq!(s.check_and_handle_t1_timeout(moment(14_999), 15_000), None);
    assert_eq!(s.total_pending_bytes(), 20);
    assert_eq!(s.check_and_handle_t1_timeout(moment(15_000), 15_000), Some(0));
    assert!(s.pending.is_empty());
    assert_eq!((s.ack_sendsn, s.total_pending_bytes()), (1, 0));
    assert_eq!(s.inflight_count(), 0);
    assert_eq!(s.consecutive_t1_timeouts, 1);
}

#[test]
fn received_frames_are_owed_an_acknowledgement() {
    let mut s = SessionState::new(moment(0));
    assert!(!s.should_send_s_ack(moment(0), 10_000, 8));
    for n in 0..8 {
        s.mark_unacked_receive(moment(0));
        assert!(s.advance_receive_seq(n));
    }
    assert!(!s.advance_receive_seq(3));
    assert!(s.should_send_s_ack(moment(1), 10_000, 8));
    assert!(!s.should_send_s_ack(moment(1), 10_000, 9));
    assert!(s.should_send_s_ack(moment(10_000), 10_000, 9));
    s.mark_s_ack_sent();
    assert!(!s.should_send_s_ack(moment(10_000), 10_000, 1));
}

#[test]
fn kept_item_is_flushed_when_old() {
    let mut s = SessionState::new(moment(0));
    assert!(!s.should_flush_low_prio(moment(5000), 2000));
    s.set_last_low_prio(asdu(4), moment(0));
    assert!(!s.should_flush_low_prio(moment(1999), 2000));
    assert!(s.should_flush_low_prio(moment(2000), 2000));
    assert_eq!(s.take_last_low_prio().unwrap().raw.len(), 4);
    assert!(s.take_last_low_prio().is_none());
}

#[test]
fn cell_holds_the_application_state() {
    let mut c = ApplicationStateCell::new(ApplicationState::Inactive);
    assert!(!c.is_active());
    c.store(ApplicationState::Active);
    assert!(c.is_active());
    assert_eq!(c.load(), ApplicationState::Active);
}

#[test]
fn asdus_wait_for_activation() {
    let off = Session { connected: false, lifecycle: SessionLifecycleState::Active };
    assert!(matches!(off.send_asdu(asdu(4)), Err(Error::ErrUseClosedConnection)));
    assert!(matches!(off.send_start_dt(), Err(Error::ErrUseClosedConnection)));
    let idle = Session { connected: true, lifecycle: SessionLifecycleState::Inactive };
    assert!(matches!(idle.send_asdu_low_priority(asdu(4)), Err(Error::ErrNotActive)));
    assert!(matches!(idle.send_stop_dt(), Ok(Request::U(u)) if u.function == U_STOPDT_ACTIVE));
    let on = Session { connected: true, lifecycle: SessionLifecycleState::Active };
    assert!(on.is_active() && on.is_connected());
    assert!(matches!(on.send_asdu(asdu(4)), Ok(Request::I(_, Priority::High))));
    assert!(matches!(on.send_asdu_low_priority(asdu(4)), Ok(Request::I(_, Priority::Low))));
    assert!(matches!(on.send_start_dt(), Ok(Request::U(u)) if u.function == U_STARTDT_ACTIVE));
}

#[test]
fn commands_go_through_an_active_session() {
    let on = Session { connected: true, lifecycle: SessionLifecycleState::Active };
    let cot = CauseOfTransmission::new(false, false, Cause::Activation);
    let single = SingleCommandInfo::new(7, true, false);
    match on.single_cmd(TypeID::C_SC_NA_1, cot, 1, single) {
        Ok(Request::I(a, Priority::High)) => {
            assert_eq!(&a.into_bytes()[..], &[45, 1, 6, 0, 1, 0, 7, 0, 0, 1][..]);
        }
        _ => panic!(),
    }
    let float = SetPointCommandFloatInfo::new(7, 1.5_f32.to_bits());
    match on.set_point_cmd_float(TypeID::C_SE_NC_1, cot, 1, float) {
        Ok(Request::I(a, Priority::High)) => {
            assert_eq!(a.get_set_point_float_cmd().unwrap().r, 1.5_f32.to_bits());
        }
        _ => panic!(),
    }
    assert!(matches!(
        on.double_cmd(TypeID::C_SC_NA_1, cot, 1, DoubleCommandInfo::new(7, 1, false)),
        Err(Error::ErrTypeIDNotMatch(TypeID::C_SC_NA_1))
    ));
    let spontaneous = CauseOfTransmission::new(false, false, Cause::Spontaneous);
    assert!(matches!(
        on.step_cmd(TypeID::C_RC_NA_1, spontaneous, 1, StepCommandInfo::new(7, 1, false)),
        Err(Error::ErrCmdCause(_))
    ));
    let idle = Session { connected: true, lifecycle: SessionLifecycleState::Inactive };
    assert!(matches!(
        idle.bits_string32_cmd(TypeID::C_BO_NA_1, cot, 1, BitsString32CommandInfo::new(7, 1)),
        Err(Error::ErrNotActive)
    ));
    let off = Session { connected: false, lifecycle: SessionLifecycleState::Active };
    assert!(matches!(
        off.set_point_cmd_normal(
            TypeID::C_SE_NA_1,
            cot,
            1,
            SetPointCommandNormalInfo::new(7, 1)
        ),
        Err(Error::ErrUseClosedConnection)
    ));
    assert!(matches!(
        on.set_point_cmd_scaled(
            TypeID::C_SE_NB_1,
            cot,
            1,
            SetPointCommandScaledInfo::new(7, 1)
        ),
        Ok(Request::I(_, Priority::High))
    ));
}

#[test]
fn failed_transports_are_named() {
    assert_eq!(
        connect_failed(ConnectFailure::Elapsed, 10000),
        SessionLifecycleState::Failed("connect timeout after 10000 ms".to_string())
    );
    assert_eq!(
        connect_failed(ConnectFailure::Refused("no route".to_string()), 1),
        SessionLifecycleState::Failed("connect failed: no route".to_string())
    );
    assert!(matches!(connect_error(ConnectFailure::Elapsed), Error::ErrConnectTimeout));
    assert!(matches!(connect_error(ConnectFailure::Refused("x".to_string())), Error::Io(_)));
    assert_eq!(connection_settled(&SessionLifecycleState::Connecting), None);
    assert_eq!(connection_settled(&SessionLifecycleState::Handshaking), Some(true));
    assert_eq!(connection_settled(&SessionLifecycleState::Closed), Some(false));
}

#[test]
fn backlog_follows_when_the_window_opens() {
    let mut c = active(SessionConfig { k_window: 2, ..SessionConfig::default() });
    send(&mut c, 4, 10);
    send(&mut c, 4, 10);
    // The window is full: the next one waits.
    let r = c.on_request(Request::I(asdu(4), Priority::High), moment(11));
    assert!(matches!(r.action, Action::Nothing));
    assert_eq!(c.hi_queue.len(), 1);
    let s = c.tick_step(TickPhase::Flush, moment(12));
    assert!(s.on_ok == TickPhase::T0);
    // One frame is acknowledged: one slot is free.
    let r = c.on_frame(new_sframe(1), moment(13));
    assert!(matches!(r.action, Action::Nothing));
    let s = c.tick_step(TickPhase::Flush, moment(14));
    assert!(s.on_ok == TickPhase::FlushNext { slots: 1 });
    let s = c.tick_step(s.on_ok, moment(14));
    match s.action {
        Action::Send(f) => match ApciKind::from(f.apci) {
            ApciKind::I(i) => assert_eq!(i.send_sn, 2),
            _ => panic!(),
        },
        _ => panic!(),
    }
    let s = c.tick_step(s.on_ok, moment(14));
    assert!(s.on_ok == TickPhase::FlushNext { slots: 0 });
    assert_eq!(c.hi_queue.len(), 0);
    assert_eq!(c.state.inflight_count(), 2);
}

#[test]
fn requests_are_dropped_for_a_reason() {
    // Not started.
    let (mut c, _) = Connection::open(SessionConfig::default(), moment(0), moment(0));
    let r = c.on_request(Request::I(asdu(4), Priority::High), moment(1));
    assert!(matches!(r.action, Action::Nothing));
    // Too large.
    let mut c = active(SessionConfig::default());
    let r = c.on_request(Request::I(asdu(250), Priority::High), moment(2));
    assert!(matches!(r.action, Action::Emit(SessionEvent::FrameTooLargeDrop)));
    // No window at all, and no backlog.
    let mut c = active(SessionConfig {
        k_window: 0,
        send_queue_capacity: 0,
        ..SessionConfig::default()
    });
    let r = c.on_request(Request::I(asdu(4), Priority::High), moment(2));
    assert!(matches!(r.action, Action::Emit(SessionEvent::WindowFullDrop)));
    let r = c.on_request(Request::I(asdu(4), Priority::Low), moment(2));
    assert!(matches!(r.action, Action::Emit(SessionEvent::WindowFullDrop)));
    // Low priority is merged where it is not discarded.
    let mut c = active(SessionConfig {
        k_window: 0,
        discard_low_priority_when_window_full: false,
        ..SessionConfig::default()
    });
    let r = c.on_request(Request::I(asdu(4), Priority::Low), moment(2));
    assert!(matches!(r.action, Action::Emit(SessionEvent::LowPriorityMerged)));
    let s = c.tick_step(TickPhase::LowPrio, moment(2002));
    assert!(matches!(s.action, Action::Requeue(_)));
    // The byte budget is spent.
    let mut c = active(SessionConfig { max_pending_asdu_bytes: 10, ..SessionConfig::default() });
    let r = c.on_request(Request::I(asdu(4), Priority::High), moment(2));
    assert!(matches!(r.action, Action::Emit(SessionEvent::MemoryBudgetDrop)));
}

#[test]
fn frames_are_delivered_in_sequence_only() {
    let mut c = active(SessionConfig::default());
    let r = c.on_frame(new_iframe(asdu(4), 0, 0), moment(2));
    assert!(matches!(r.action, Action::Deliver(_)));
    let r = c.on_frame(new_iframe(asdu(4), 5, 0), moment(3));
    assert!(matches!(r.action, Action::Close));
    assert_eq!(c.state.rcv_sn, 1);
    // An acknowledgement of what was never sent.
    let mut c = active(SessionConfig::default());
    let r = c.on_frame(new_sframe(7), moment(2));
    assert!(matches!(r.action, Action::Close));
}

#[test]
fn control_frames_are_answered() {
    let mut c = active(SessionConfig::default());
    let r = c.on_frame(new_uframe(U_TESTFR_ACTIVE), moment(2));
    match r.action {
        Action::Send(f) => assert_eq!(function_of(&f), U_TESTFR_CONFIRM),
        _ => panic!(),
    }
    let r = c.on_frame(new_uframe(U_STOPDT_ACTIVE), moment(2));
    assert!(r.after == AfterSend::BecomeInactive);
    let a = c.on_sent(r.after, moment(2));
    assert!(matches!(a, Action::Enter(SessionLifecycleState::Inactive)));
    assert_eq!(
        c.closing_states(),
        vec![SessionLifecycleState::Closing, SessionLifecycleState::Closed]
    );
}

#[test]
fn idle_connection_is_tested_and_left_without_answer() {
    let mut c = active(SessionConfig::default());
    let s = c.tick_step(TickPhase::T3, moment(10_000));
    assert!(s.on_ok == TickPhase::Ack);
    let s = c.tick_step(TickPhase::T3, moment(20_001));
    match s.action {
        Action::Send(f) => assert_eq!(function_of(&f), U_TESTFR_ACTIVE),
        _ => panic!(),
    }
    let _ = c.tick_step(s.on_ok, moment(20_001));
    let s = c.tick_step(TickPhase::T0, moment(25_000));
    assert!(s.on_ok == TickPhase::Done);
    let s = c.tick_step(TickPhase::T0, moment(30_001));
    assert!(s.on_ok == TickPhase::Leave);
    let s = c.tick_step(TickPhase::Leave, moment(30_001));
    assert!(matches!(s.action, Action::Close));
}

#[test]
fn missing_acknowledgement_is_reported() {
    let mut c = active(SessionConfig::default());
    send(&mut c, 4, 10);
    let s = c.tick_step(TickPhase::T1, moment(15_010));
    assert!(matches!(s.action, Action::Emit(SessionEvent::T1Timeout)));
    assert!(s.on_ok == TickPhase::T3);
}

fn around_the_wrap() -> SessionState {
    let mut s = SessionState::new(moment(0));
    s.send_sn = 32766;
    s.ack_sendsn = 32766;
    for seq in [32766, 32767, 0, 1] {
        s.push_pending(seq, moment(0), 10);
        s.send_sn = SessionState::seq_add(s.send_sn, 1);
    }
    s
}

#[test]
fn acknowledgement_across_the_wrap() {
    let mut s = around_the_wrap();
    assert_eq!((s.send_sn, s.inflight_count()), (2, 4));
    assert!(s.update_send_ack(0));
    let left: Vec<u16> = s.pending.iter().map(|p| p.seq).collect();
    assert_eq!(left, vec![0, 1]);
    assert_eq!((s.ack_sendsn, s.total_pending_bytes()), (0, 20));
    // The same number again acknowledges nothing more.
    assert!(s.update_send_ack(0));
    assert_eq!(s.pending.len(), 2);
    assert!(!s.update_send_ack(3));
    assert_eq!((s.ack_sendsn, s.pending.len()), (0, 2));
    assert!(s.update_send_ack(2));
    assert_eq!((s.pending.len(), s.total_pending_bytes()), (0, 0));
}

#[test]
fn frames_are_popped_up_to_a_number() {
    let mut s = around_the_wrap();
    assert_eq!(s.pop_pending_until(32767), 2);
    assert_eq!(s.pending[0].seq, 0);
    assert_eq!(s.total_pending_bytes(), 20);
    assert_eq!(s.pop_pending_until(1), 2);
    assert_eq!(s.pop_pending_until(1), 0);
    let mut s = SessionState::new(moment(0));
    for seq in [5, 7, 9] {
        s.push_pending(seq, moment(0), 10);
    }
    // No frame has the number: those that do not lie behind it leave.
    assert_eq!(s.pop_pending_until(3), 0);
    assert_eq!(s.pop_pending_until(8), 2);
    assert_eq!(s.pending[0].seq, 9);
}

#[test]
fn first_received_frame_starts_the_time_to_acknowledge() {
    let config = SessionConfig { t2_ms: 10_000, w_threshold: 8, ..SessionConfig::default() };
    let mut c = active(config);
    c.on_frame(new_iframe(asdu(4), 0, 0), moment(1_000));
    c.on_frame(new_iframe(asdu(4), 1, 0), moment(5_000));
    let s = c.tick_step(TickPhase::Ack, moment(10_999));
    assert!(matches!(s.action, Action::Nothing));
    let s = c.tick_step(TickPhase::Ack, moment(11_000));
    match s.action {
        Action::Send(f) => match ApciKind::from(f.apci) {
            ApciKind::S(x) => assert_eq!(x.rcv_sn, 2),
            _ => panic!(),
        },
        _ => panic!(),
    }
    // Acknowledged: the next frame starts the time anew.
    c.on_frame(new_iframe(asdu(4), 2, 0), moment(20_000));
    assert!(matches!(c.tick_step(TickPhase::Ack, moment(29_999)).action, Action::Nothing));
    assert!(matches!(c.tick_step(TickPhase::Ack, moment(30_000)).action, Action::Send(_)));
}

#[test]
fn frames_of_a_connection_are_numbered_on() {
    let mut c = active(SessionConfig { k_window: 3, ..SessionConfig::default() });
    c.state.send_sn = 32765;
    c.state.ack_sendsn = 32765;
    for n in 0..6u16 {
        let r = c.on_request(Request::I(asdu(4), Priority::High), moment(10));
        match &r.action {
            Action::Send(f) => match ApciKind::from(f.apci) {
                ApciKind::I(i) => assert_eq!(i.send_sn, (32765 + n) % 32768),
                _ => panic!(),
            },
            _ => panic!(),
        }
        c.on_sent(r.after, moment(10));
        assert!(c.state.inflight_count() <= 3);
        if n % 2 == 1 {
            c.on_frame(new_sframe((32765 + n + 1) % 32768), moment(11));
            assert_eq!(c.state.inflight_count(), 0);
        }
    }
}
