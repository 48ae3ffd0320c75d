use bytes::Bytes;
use ng_gateway_southward::gateway::{
    publications, AccessMode, ConnectionPolicy, DataPointType, DataType, DriverError, FailureKind,
    NGValue,
};
use ng_gateway_southward::iec104::connector::{
    build_session_config, classify_error, connect_error, invalid_address, socket_text, ConnectEnd,
};
use ng_gateway_southward::iec104::converter::{
    ActionModel, DeviceModel, Iec104Converter, InputModel, PointModel,
};
use ng_gateway_southward::iec104::driver::{
    action_answer, action_command, action_step, check_write, command_kind, write_command,
    ActionStep, CastValue, CommandKind,
};
use ng_gateway_southward::iec104::extract::{
    extract_values, extract_values_by_kind, RawValue,
};
use ng_gateway_southward::iec104::metadata::build_metadata;
use ng_gateway_southward::iec104::points::{
    build_mappings, devices_changed, pack_key, points_changed, CaSnapshot, Registry,
};
use ng_gateway_southward::iec104::protocol::frame::asdu::{
    Asdu, Cause, CauseOfTransmission, Identifier, InfoObjAddr, TypeID, VariableStruct,
};
use ng_gateway_southward::iec104::protocol::frame::mproc::{
    measured_value_scaled, single, step, MeasuredValueScaledInfo, SinglePointInfo,
    StepPositionInfo,
};
use ng_gateway_southward::iec104::protocol::frame::quality::{ObjectQDS, ObjectVTI};
use ng_gateway_southward::iec104::protocol::session::{
    SessionConfig, SessionEvent, SessionLifecycleState,
};
use ng_gateway_southward::iec104::session::{
    init_outcome, resolve_targets, run_plan, InterrogationTarget, RunTimers,
};
use ng_gateway_southward::iec104::supervisor::{
    build_refresh_actions, build_startup_actions, on_event, AfterAttempt, Attachment, Attempts,
    DropCounter, NextAttempt, Retry, SouthwardConnectionState, StartupAction,
};
use ng_gateway_southward::iec104::types::{
    Iec104ChannelConfig, Iec104Device, Iec104Parameter, Iec104Point,
};
use ng_gateway_southward::schema::{Node, UiValue};
use std::collections::HashMap;

fn device(id: i32, ca: u16) -> Iec104Device {
    Iec104Device {
        id,
        channel_id: 1,
        device_name: format!("dev{id}"),
        device_type: "rtu".to_string(),
        ca,
    }
}

fn point(id: i32, device_id: i32, ioa: u16, type_id: u8) -> Iec104Point {
    Iec104Point {
        id,
        device_id,
        name: format!("p{id}"),
        key: format!("k{id}"),
        kind: DataPointType::Telemetry,
        data_type: DataType::Boolean,
        access_mode: AccessMode::ReadWrite,
        scale: None,
        ioa,
        type_id,
    }
}

fn spontaneous() -> CauseOfTransmission {
    CauseOfTransmission::new(false, false, Cause::Spontaneous)
}

fn found(s: &CaSnapshot, ioa: u16, type_id: u8) -> Option<i32> {
    s.find(ioa, type_id).map(|m| m.point_id)
}

fn registry() -> Registry {
    let mut points: HashMap<i32, Vec<Iec104Point>> = HashMap::new();
    points.insert(1, vec![point(11, 1, 100, 1), point(12, 1, 101, 1)]);
    points.insert(2, vec![point(21, 2, 100, 1), point(22, 2, 200, 11)]);
    build_mappings(&vec![device(1, 7), device(2, 7), device(3, 8)], &points)
}

#[test]
fn keys_pack_type_above_address() {
    assert_eq!(pack_key(0x1234, 0x56), 0x0056_1234);
}

#[test]
fn first_device_keeps_a_shared_address() {
    let r = registry();
    let mut cas = r.addresses();
    cas.sort();
    assert_eq!(cas, vec![7, 8]);
    let s = r.get(7).unwrap();
    assert_eq!(found(&s, 100, 1), Some(11));
    assert_eq!(found(&s, 101, 1), Some(12));
    assert_eq!(found(&s, 200, 11), Some(22));
    assert_eq!(found(&s, 100, 3), None);
    assert_eq!(found(&r.get(8).unwrap(), 100, 1), None);
    assert!(r.get(9).is_none());
}

#[test]
fn points_follow_their_changes() {
    let mut r = registry();
    let d = device(1, 7);
    // Point 12 moves, point 13 comes, point 11 goes.
    let asked = points_changed(
        &mut r,
        &d,
        &vec![point(13, 1, 300, 1)],
        &vec![point(12, 1, 102, 1)],
        &vec![point(11, 1, 100, 1)],
    );
    assert!(asked);
    let s = r.get(7).unwrap();
    assert_eq!(found(&s, 300, 1), Some(13));
    assert_eq!(found(&s, 101, 1), None);
    assert_eq!(found(&s, 102, 1), Some(12));
    assert_eq!(found(&s, 100, 1), None);
    assert_eq!(found(&s, 200, 11), Some(22));
    // Removing alone asks for no interrogation, and leaves others alone.
    assert!(!points_changed(&mut r, &d, &vec![], &vec![], &vec![point(22, 1, 200, 11)]));
    assert_eq!(found(&r.get(7).unwrap(), 200, 11), Some(22));
    // An unknown address is opened.
    assert!(points_changed(&mut r, &device(5, 9), &vec![point(51, 5, 1, 1)], &vec![], &vec![]));
    assert_eq!(found(&r.get(9).unwrap(), 1, 1), Some(51));
}

#[test]
fn removed_devices_leave_nothing() {
    let mut r = registry();
    let cas = devices_changed(&mut r, &vec![device(4, 10)], &vec![device(3, 8)], &vec![device(1, 7)]);
    let mut sorted = cas.clone();
    sorted.sort();
    assert_eq!(sorted, vec![7, 8, 10]);
    let s = r.get(7).unwrap();
    assert_eq!(found(&s, 100, 1), None);
    assert_eq!(found(&s, 200, 11), Some(22));
    assert!(s.has_only(2));
    let cas = devices_changed(&mut r, &vec![], &vec![], &vec![device(2, 7), device(2, 7)]);
    assert_eq!(cas, vec![7]);
    assert!(r.get(7).is_none());
}

#[test]
fn sent_values_reach_their_points() {
    let r = registry();
    let s = r.get(7).unwrap();
    let infos = vec![
        SinglePointInfo::new_single(101, true),
        SinglePointInfo::new_single(555, true),
        SinglePointInfo::new_single(100, false),
    ];
    let a = single(false, spontaneous(), 7, infos).unwrap();
    assert!(a.has_defined_objects());
    let v = extract_values(&s, &a);
    assert_eq!(v.len(), 2);
    assert_eq!((v[0].meta.point_id, v[0].raw), (12, RawValue::Boolean(true)));
    assert_eq!((v[1].meta.point_id, v[1].raw), (11, RawValue::Boolean(false)));

    let qds = ObjectQDS { raw: 0 };
    let ioa = InfoObjAddr::new(0, 200);
    let a = measured_value_scaled(
        spontaneous(),
        7,
        vec![MeasuredValueScaledInfo { ioa, sva: -3, qds, time: None }],
    )
    .unwrap();
    let v = extract_values(&s, &a);
    assert_eq!((v[0].meta.point_id, v[0].raw), (22, RawValue::Scaled(-3)));

    // Nothing is configured for this type, and nothing can be read here.
    let a = step(
        false,
        spontaneous(),
        7,
        vec![StepPositionInfo { ioa, vti: ObjectVTI::new(false, 5), qds, time: None }],
    )
    .unwrap();
    assert!(extract_values(&s, &a).is_empty());
    let short = Asdu { raw: Bytes::from_static(&[1]), ..a };
    assert!(extract_values(&s, &short).is_empty());
}

#[test]
fn values_are_grouped_by_device_and_channel() {
    let mut points: HashMap<i32, Vec<Iec104Point>> = HashMap::new();
    let mut attribute = point(12, 1, 2, 1);
    attribute.kind = DataPointType::Attribute;
    points.insert(1, vec![point(11, 1, 1, 1), attribute]);
    points.insert(2, vec![point(21, 2, 3, 1)]);
    points.insert(3, vec![point(31, 3, 4, 1)]);
    let r = build_mappings(&vec![device(2, 7), device(1, 7), device(3, 7)], &points);
    let infos = (1..5).map(|i| SinglePointInfo::new_single(i, true)).collect();
    let a = single(false, spontaneous(), 7, infos).unwrap();
    let matched = extract_values(&r.get(7).unwrap(), &a);
    assert_eq!(matched.len(), 4);
    // The value of point 31 cannot be converted.
    let values = matched
        .into_iter()
        .map(|m| {
            let v = if m.meta.point_id == 31 { None } else { Some(NGValue::Boolean(true)) };
            (m, v)
        })
        .collect();
    let bufs = extract_values_by_kind(values);
    assert_eq!(bufs.len(), 2);
    assert_eq!((bufs[0].device_id, bufs[0].device_name.as_str()), (1, "dev1"));
    assert_eq!(bufs[0].telemetry[0].point_id, 11);
    assert_eq!(bufs[0].attributes[0].point_key, "k12");
    assert_eq!(bufs[1].telemetry[0].point_id, 21);
    let out = publications(bufs);
    let kinds: Vec<(i32, DataPointType)> = out.iter().map(|p| (p.device_id, p.kind)).collect();
    assert_eq!(
        kinds,
        vec![
            (1, DataPointType::Telemetry),
            (1, DataPointType::Attribute),
            (2, DataPointType::Telemetry),
        ]
    );
}

#[test]
fn writes_are_checked() {
    let mut p = point(1, 1, 5, 1);
    assert_eq!(check_write(&p, true, DataType::Boolean).unwrap(), TypeID::C_SC_NA_1);
    match check_write(&p, false, DataType::Int8) {
        Err(DriverError::ValidationError(t)) => {
            assert_eq!(t, "type mismatch: expected Boolean, got Int8")
        }
        _ => panic!(),
    }
    p.type_id = 15;
    match check_write(&p, true, DataType::Boolean) {
        Err(DriverError::ConfigurationError(t)) => {
            assert_eq!(t, "IEC104 point type M_IT_NA_1 is not supported for write_point")
        }
        _ => panic!(),
    }
    p.type_id = 0;
    match check_write(&p, true, DataType::Boolean) {
        Err(DriverError::ConfigurationError(t)) => assert_eq!(t, "Unknown IEC104 type id: 0"),
        _ => panic!(),
    }
    p.access_mode = AccessMode::Read;
    match check_write(&p, true, DataType::Boolean) {
        Err(DriverError::ValidationError(t)) => assert_eq!(t, "point is not writeable"),
        _ => panic!(),
    }
}

#[test]
fn written_values_are_sent_as_commands() {
    let a = write_command(TypeID::C_SC_NA_1, 3, 5, CastValue::Truth(Ok(true))).unwrap();
    assert_eq!(&a.clone().into_bytes()[..], &[45, 1, 6, 0, 3, 0, 5, 0, 0, 1][..]);
    assert!(a.get_single_cmd().unwrap().sco.scs());
    // With a time tag the present time is sent.
    let a = write_command(TypeID::C_SE_TB_1, 3, 5, CastValue::Short(Ok(-2))).unwrap();
    assert!(a.has_defined_command());
    let c = a.get_set_point_scaled_cmd().unwrap();
    assert_eq!(c.sva, -2);
    assert!(c.time.is_some());
    match write_command(TypeID::C_DC_NA_1, 3, 5, CastValue::Byte(Err("no".to_string()))) {
        Err(DriverError::ValidationError(t)) => assert_eq!(t, "double command expects u8: no"),
        _ => panic!(),
    }
    match action_command(TypeID::C_SE_NC_1, 3, 5, CastValue::Real(Err("no".to_string()))) {
        Err(DriverError::ConfigurationError(t)) => {
            assert_eq!(t, "Expected numeric value for set point command float: no")
        }
        _ => panic!(),
    }
    let a = action_command(TypeID::C_BO_NA_1, 3, 5, CastValue::Word(Ok(-1))).unwrap();
    assert_eq!(a.get_bits_string32_cmd().unwrap().bcr, -1);
    assert_eq!(command_kind(TypeID::C_RC_TA_1), Some(CommandKind::Step));
    assert_eq!(command_kind(TypeID::M_SP_NA_1), None);
}

#[test]
fn parameters_of_actions() {
    let c = Iec104ChannelConfig::for_host("h".to_string());
    let p = |type_id: u8| Iec104Parameter {
        name: "n".to_string(),
        key: "k".to_string(),
        data_type: DataType::Boolean,
        required: true,
        ioa: 1,
        type_id,
    };
    assert_eq!(action_step(&p(45), &c, 2).unwrap(), ActionStep::Command(TypeID::C_SC_NA_1));
    assert_eq!(
        action_step(&p(100), &c, 2).unwrap(),
        ActionStep::Interrogate(StartupAction::GeneralInterrogation { ca: 2, qoi: 20 })
    );
    assert_eq!(
        action_step(&p(101), &c, 2).unwrap(),
        ActionStep::Interrogate(StartupAction::CounterInterrogation { ca: 2, qcc: 5 })
    );
    match action_step(&p(1), &c, 2) {
        Err(DriverError::ConfigurationError(t)) => {
            assert_eq!(t, "Unsupported IEC104 write type: M_SP_NA_1")
        }
        _ => panic!(),
    }
    assert!(action_step(&p(0), &c, 2).is_err());
    assert_eq!(action_answer("open"), "Action 'open' executed");
}

#[test]
fn interrogations_follow_an_activation() {
    let mut c = Iec104ChannelConfig::for_host("h".to_string());
    let startup = build_startup_actions(&c, &vec![1, 2]);
    assert_eq!(
        startup,
        vec![
            StartupAction::CounterInterrogation { ca: 1, qcc: 5 },
            StartupAction::GeneralInterrogation { ca: 1, qoi: 20 },
            StartupAction::CounterInterrogation { ca: 2, qcc: 5 },
            StartupAction::GeneralInterrogation { ca: 2, qoi: 20 },
        ]
    );
    let a = startup[1].activation();
    assert_eq!(&a.into_bytes()[..], &[100, 1, 6, 0, 1, 0, 0, 0, 0, 20][..]);
    assert_eq!(resolve_targets(&startup, true).len(), 2);
    assert_eq!(
        resolve_targets(&startup, false)[1],
        InterrogationTarget::Counter { ca: 2, qcc: 5 }
    );
    let timers = RunTimers {
        periodic_gi_interval_secs: 60,
        periodic_ci_interval_secs: 0,
        data_silence_timeout_secs: 30,
    };
    let plan = run_plan(&startup, &c, &timers, 0);
    assert_eq!(plan.gi_interval_secs, Some(60));
    assert_eq!(plan.ci_interval_secs, None);
    assert_eq!(plan.silence_secs, Some(30));
    assert_eq!(plan.write_timeout_ms, 1);
    c.auto_startup_counter_interrogation = false;
    assert_eq!(
        build_refresh_actions(&c, &vec![1]),
        vec![StartupAction::GeneralInterrogation { ca: 1, qoi: 20 }]
    );
}

#[test]
fn startup_commands_are_repeated() {
    let mut r = Retry::new(6);
    let mut waits = Vec::new();
    loop {
        match r.next(false) {
            AfterAttempt::TryAgain(ms) => waits.push(ms),
            AfterAttempt::GiveUp(text) => {
                assert_eq!(text, "startup command exhausted retries");
                break;
            }
            AfterAttempt::Done => panic!(),
        }
    }
    assert_eq!(waits, vec![10, 20, 40, 80, 160, 200]);
    assert_eq!(Retry::new(1).next(true), AfterAttempt::Done);
}

#[test]
fn events_move_the_channel() {
    let e = on_event(SessionEvent::LifecycleChanged(SessionLifecycleState::Active));
    assert_eq!(e.attachment, Attachment::Attach);
    assert!(e.send_startup && !e.ended && e.healthy == Some(true));
    let e = on_event(SessionEvent::LifecycleChanged(SessionLifecycleState::Failed(
        "why".to_string(),
    )));
    assert!(e.ended);
    assert_eq!(e.state, Some(SouthwardConnectionState::Failed("why".to_string())));
    assert_eq!(e.last_error.as_deref(), Some("why"));
    let e = on_event(SessionEvent::LifecycleChanged(SessionLifecycleState::Closed));
    assert_eq!(e.last_error.as_deref(), Some("session closed"));
    let e = on_event(SessionEvent::LifecycleChanged(SessionLifecycleState::Closing));
    assert_eq!(e.attachment, Attachment::Detach);
    let e = on_event(SessionEvent::MemoryBudgetDrop);
    assert_eq!(e.counter, Some(DropCounter::MemoryBudgetDrops));
    assert_eq!(e.last_error.as_deref(), Some("memory budget exceeded: drop"));
    assert!(on_event(SessionEvent::LowPriorityMerged).counter.is_none());
}

#[test]
fn attempts_count_until_a_session_is_active() {
    let mut a = Attempts { count: 0 };
    assert_eq!(a.next(Some(500)), NextAttempt::After(500));
    assert_eq!(a.count, 1);
    assert!(!a.resets_backoff(false));
    assert_eq!(a.count, 1);
    assert!(a.resets_backoff(true));
    assert_eq!(a.count, 0);
    assert_eq!(
        a.next(None),
        NextAttempt::Never(SouthwardConnectionState::Failed("cancelled".to_string()))
    );
}

#[test]
fn session_must_become_active_in_time() {
    assert!(init_outcome(Some(true), 5).is_ok());
    assert!(matches!(init_outcome(None, 5), Err(DriverError::Timeout(5))));
    assert!(matches!(init_outcome(Some(false), 0), Err(DriverError::Timeout(1))));
}

#[test]
fn channel_settings_become_session_settings() {
    let c = Iec104ChannelConfig::for_host("10.0.0.1".to_string());
    assert_eq!(socket_text(&c), "10.0.0.1:2404");
    let policy =
        ConnectionPolicy { connect_timeout_ms: 10000, read_timeout_ms: 1, write_timeout_ms: 2 };
    assert_eq!(build_session_config(&c, &policy), SessionConfig::default());
    match invalid_address("bad") {
        DriverError::ConfigurationError(t) => assert_eq!(t, "Invalid socket address: bad"),
        _ => panic!(),
    }
    assert_eq!(classify_error(&DriverError::ServiceUnavailable), FailureKind::Retryable);
    assert_eq!(
        classify_error(&DriverError::ValidationError("x".to_string())),
        FailureKind::Fatal
    );
    assert!(matches!(connect_error(ConnectEnd::Cancelled), DriverError::ServiceUnavailable));
}

#[test]
fn models_are_converted() {
    let conv = Iec104Converter;
    let d = |driver_config| DeviceModel {
        id: 1,
        channel_id: 2,
        device_name: "d".to_string(),
        device_type: "t".to_string(),
        driver_config,
    };
    assert_eq!(conv.convert_runtime_device(d(Some(Some(65537)))).unwrap().ca, 1);
    match conv.convert_runtime_device(d(None)) {
        Err(DriverError::ConfigurationError(t)) => {
            assert_eq!(t, "Driver config is required for IEC104 device")
        }
        _ => panic!(),
    }
    match conv.convert_runtime_device(d(Some(None))) {
        Err(DriverError::ConfigurationError(t)) => {
            assert_eq!(t, "ca is required for IEC104 device")
        }
        _ => panic!(),
    }
    let p = |ioa, type_id| PointModel {
        id: 1,
        device_id: 2,
        name: "n".to_string(),
        key: "k".to_string(),
        kind: DataPointType::Telemetry,
        data_type: DataType::Int16,
        access_mode: AccessMode::Read,
        scale: None,
        ioa,
        type_id,
    };
    let got = conv.convert_runtime_point(p(Some(3), Some(257))).unwrap();
    assert_eq!((got.ioa, got.type_id), (3, 1));
    assert!(conv.convert_runtime_point(p(None, None)).is_err());
    match conv.convert_runtime_point(p(Some(3), None)) {
        Err(DriverError::ConfigurationError(t)) => {
            assert_eq!(t, "typeId is required for IEC104 point")
        }
        _ => panic!(),
    }
    let input = |ioa| InputModel {
        name: "n".to_string(),
        key: "k".to_string(),
        data_type: DataType::Boolean,
        required: false,
        ioa,
        type_id: Some(45),
    };
    let action = |inputs| ActionModel {
        id: 1,
        device_id: 2,
        name: "a".to_string(),
        command: "c".to_string(),
        inputs,
    };
    let got = conv.convert_runtime_action(action(vec![input(Some(1)), input(Some(2))])).unwrap();
    assert_eq!(got.input_parameters[1].ioa, 2);
    match conv.convert_runtime_action(action(vec![input(Some(1)), input(None)])) {
        Err(DriverError::ConfigurationError(t)) => {
            assert_eq!(t, "ioa is required for IEC104 input")
        }
        _ => panic!(),
    }
    assert!(conv.convert_runtime_channel(Err("x".to_string())).is_err());
}

#[test]
fn schema_offers_the_defaults() {
    let m = build_metadata();
    assert_eq!((m.channel.len(), m.device.len(), m.point.len(), m.action.len()), (3, 1, 2, 2));
    match &m.channel[1] {
        Node::Field(f) => {
            assert_eq!(f.path, "port");
            assert_eq!(f.default_value, Some(UiValue::Integer(2404)));
            assert_eq!(f.rules.unwrap().max.unwrap().0, 65535);
        }
        _ => panic!(),
    }
    match &m.channel[2] {
        Node::Group { id, fields, .. } => {
            assert_eq!(*id, "advanced");
            assert_eq!(fields.len(), 14);
            assert_eq!(fields[13].path, "startupQcc");
        }
        _ => panic!(),
    }
    match &m.point[1] {
        Node::Field(f) => {
            assert_eq!(f.items.len(), 25);
            assert_eq!(f.items[24].key, UiValue::Integer(37));
            assert_eq!(f.items[24].label.zh, "累计量带CP56Time2a时标");
        }
        _ => panic!(),
    }
    match &m.action[1] {
        Node::Field(f) => assert_eq!(f.items.len(), 14),
        _ => panic!(),
    }
}

#[test]
fn copied_snapshot_is_its_own() {
    let r = registry();
    let s = r.get(7).unwrap();
    let mut c = s.copy();
    c.remove_device(1);
    assert_eq!(found(&c, 101, 1), None);
    assert_eq!(found(&s, 101, 1), Some(12));
}

#[test]
fn unknown_common_address_is_no_snapshot() {
    let id = Identifier {
        type_id: TypeID::M_SP_NA_1,
        variable_struct: VariableStruct::new(false, 0),
        cot: spontaneous(),
        orig_addr: 0,
        common_addr: 99,
    };
    assert!(registry().get(id.common_addr).is_none());
}
