use bytes::{Bytes, BytesMut};
use chrono::{Datelike, Timelike, Utc};
use ng_gateway_southward::clock::CivilTime;
use ng_gateway_southward::iec104::protocol::codec::Codec;
use ng_gateway_southward::iec104::protocol::error::Error;
use ng_gateway_southward::iec104::protocol::frame::apci::{
    iframe_wire_size_for_asdu, new_iframe, new_sframe, new_uframe, seq_no_count, Apci, ApciKind,
    U_STARTDT_ACTIVE,
};
use ng_gateway_southward::iec104::protocol::frame::asdu::{
    Asdu, Cause, CauseOfTransmission, Identifier, InfoObjAddr, TypeID, VariableStruct,
    IDENTIFIER_SIZE,
};
use ng_gateway_southward::iec104::protocol::frame::cproc::{
    bits_string32_cmd, double_cmd, set_point_cmd_float, set_point_cmd_normal, set_point_cmd_scaled,
    single_cmd, step_cmd, BitsString32CommandInfo, DoubleCommandInfo, SetPointCommandFloatInfo,
    SetPointCommandNormalInfo, SetPointCommandScaledInfo, SingleCommandInfo, StepCommandInfo,
};
use ng_gateway_southward::iec104::protocol::frame::mproc::{
    bitstring, double_cp24time2a, double_cp56time2a, integrated_totals,
    integrated_totals_cp56time2a, measured_value_float, measured_value_float_cp24time2a,
    measured_value_float_cp56time2a, measured_value_normal, measured_value_normal_noquality,
    measured_value_scaled, packed_status_change, protection_event_td, single, single_cp56time2a,
    step, BinaryCounterReadingInfo, BitStringInfo, DoublePointInfo, MeasuredValueFloatInfo,
    MeasuredValueNormalInfo, MeasuredValueScaledInfo, ProtectionEventTdInfo, SinglePointInfo,
    StepPositionInfo,
};
use ng_gateway_southward::iec104::protocol::frame::msys::end_of_initialization;
use ng_gateway_southward::iec104::protocol::frame::quality::{
    ObjectBCR, ObjectCOI, ObjectDIQ, ObjectQDS, ObjectSEP, ObjectSIQ, ObjectVTI,
};
use ng_gateway_southward::iec104::protocol::frame::time::{
    cp16time2a_from_msec, cp24time2a, cp56time2a, within_hour,
};
use ng_gateway_southward::iec104::protocol::frame::Apdu;

const START_FRAME: u8 = 0x68;

fn at(year: i32, month: u32, day: u32, hour: u32, minute: u32, second: u32) -> CivilTime {
    CivilTime { year, month, day, hour, minute, second, milli: 0 }
}

fn asdu(type_id: TypeID, variable_struct: u8, raw: &[u8]) -> Asdu {
    Asdu {
        identifier: Identifier {
            type_id,
            variable_struct: VariableStruct::from_raw(variable_struct),
            cot: CauseOfTransmission::try_from(0).unwrap(),
            orig_addr: 0,
            common_addr: 0,
        },
        raw: Bytes::copy_from_slice(raw),
    }
}

fn activation() -> CauseOfTransmission {
    CauseOfTransmission::new(false, false, Cause::Activation)
}

fn spontaneous() -> CauseOfTransmission {
    CauseOfTransmission::new(false, false, Cause::Spontaneous)
}

#[test]
fn decode_iapci() {
    let mut codec = Codec;
    let mut buf = BytesMut::from(&[START_FRAME, 0x04, 0x02, 0x00, 0x03, 0x00][..]);
    let apdu = codec.decode(&mut buf).unwrap().unwrap();
    let apci_kind = apdu.apci.into();
    match apci_kind {
        ApciKind::I(apci) => {
            assert_eq!(apci.send_sn, 0x01);
            assert_eq!(apci.rcv_sn, 0x01);
        }
        _ => panic!(),
    }
}

#[test]
fn decode_sapci() {
    let mut codec = Codec;
    let mut buf = BytesMut::from(&[START_FRAME, 0x04, 0x01, 0x00, 0x02, 0x00][..]);
    let apdu = codec.decode(&mut buf).unwrap().unwrap();
    let apci_kind = apdu.apci.into();
    match apci_kind {
        ApciKind::S(apci) => {
            assert_eq!(apci.rcv_sn, 0x01);
        }
        _ => panic!(),
    }
}

#[test]
fn decode_uapci() {
    let mut codec = Codec;
    let mut buf = BytesMut::from(&[START_FRAME, 0x04, 0x07, 0x00, 0x00, 0x00][..]);
    let apdu = codec.decode(&mut buf).unwrap().unwrap();
    let apci_kind = apdu.apci.into();
    match apci_kind {
        ApciKind::U(apci) => {
            assert_eq!(apci.function, U_STARTDT_ACTIVE);
        }
        _ => panic!(),
    }
}

#[test]
fn encode_iapci() {
    let mut codec = Codec;
    let apdu = Apdu {
        apci: Apci {
            start: START_FRAME,
            apdu_length: 0x04 + IDENTIFIER_SIZE as u8 + 8,
            ctrl1: 0x02,
            ctrl2: 0x00,
            ctrl3: 0x03,
            ctrl4: 0x00,
        },
        asdu: Some(Asdu {
            identifier: Identifier {
                type_id: TypeID::M_SP_NA_1,
                variable_struct: VariableStruct::from_raw(0x02),
                cot: CauseOfTransmission::try_from(0x06).unwrap(),
                orig_addr: 0,
                common_addr: 0,
            },
            raw: Bytes::from_static(&[0x01, 0x00, 0x00, 0x11, 0x02, 0x00, 0x00, 0x10]),
        }),
    };
    let want = [
        START_FRAME,
        0x04 + IDENTIFIER_SIZE as u8 + 8,
        0x02,
        0x00,
        0x03,
        0x00,
        0x01,
        0x02,
        0x06,
        0x00,
        0x00,
        0x00,
        0x01,
        0x00,
        0x00,
        0x11,
        0x02,
        0x00,
        0x00,
        0x10,
    ];
    let mut buf = BytesMut::new();
    codec.encode(apdu, &mut buf).unwrap();
    assert_eq!(&buf[..], &want[..]);
}

#[test]
fn decode_and_encode_asdu() {
    let bytes = Bytes::from_static(&[0x01, 0x01, 0x06, 0x00, 0x80, 0x00, 0x00, 0x01, 0x02, 0x03]);
    let asdu = Asdu::try_from(bytes.clone()).unwrap();
    assert!(asdu.identifier.type_id == TypeID::M_SP_NA_1);
    assert_eq!(asdu.identifier.variable_struct.number(), 0x01);
    assert_eq!(asdu.identifier.cot.cause, Cause::Activation);
    assert_eq!(asdu.identifier.orig_addr, 0x00);
    assert_eq!(asdu.identifier.common_addr, 0x80);
    assert_eq!(asdu.raw, Bytes::from_static(&[0x00, 0x01, 0x02, 0x03]));

    let raw: Bytes = asdu.into_bytes();
    assert_eq!(bytes, raw);
}

#[test]
fn decode_singlepiont() {
    let info = |addr: u32, siq: u8, time: Option<CivilTime>| {
        SinglePointInfo::new(InfoObjAddr::from_raw(addr), ObjectSIQ { raw: siq }, time)
    };

    // M_SP_NA_1 seq = false Number = 2
    let a = asdu(
        TypeID::M_SP_NA_1,
        0x02,
        &[0x01, 0x00, 0x00, 0x11, 0x02, 0x00, 0x00, 0x10],
    );
    assert_eq!(
        a.get_single_point().unwrap(),
        vec![info(0x01, 0x11, None), info(0x02, 0x10, None)]
    );

    // M_SP_NA_1 seq = true Number = 2
    let a = asdu(TypeID::M_SP_NA_1, 0x82, &[0x01, 0x00, 0x00, 0x11, 0x10]);
    assert_eq!(
        a.get_single_point().unwrap(),
        vec![info(0x01, 0x11, None), info(0x02, 0x10, None)]
    );

    // M_SP_TB_1 CP56Time2a Number = 2
    let a = asdu(
        TypeID::M_SP_TB_1,
        0x02,
        &[
            0x01, 0x00, 0x00, 0x11, 0x01, 0x02, 0x03, 0x04, 0x65, 0x06, 0x13, 0x02, 0x00, 0x00,
            0x10, 0x01, 0x02, 0x03, 0x04, 0x65, 0x06, 0x13,
        ],
    );
    assert!(a.has_defined_objects());
    assert_eq!(
        a.get_single_point().unwrap(),
        vec![
            info(0x01, 0x11, Some(at(2019, 6, 5, 4, 3, 0))),
            info(0x02, 0x10, Some(at(2019, 6, 5, 4, 3, 0))),
        ]
    );

    // M_SP_TA_1 CP24Time2a  Number = 2
    let now_utc = Utc::now();
    let hour = now_utc.hour();
    let day = now_utc.day();
    let month = now_utc.month();
    let year = now_utc.year();
    let a = asdu(
        TypeID::M_SP_TA_1,
        0x02,
        &[
            0x01, 0x00, 0x00, 0x11, 0x01, 0x02, 0x03, 0x02, 0x00, 0x00, 0x10, 0x01, 0x02, 0x03,
        ],
    );
    assert!(a.has_defined_objects());
    assert_eq!(
        a.get_single_point().unwrap(),
        vec![
            info(0x01, 0x11, Some(at(year, month, day, hour, 3, 0))),
            info(0x02, 0x10, Some(at(year, month, day, hour, 3, 0))),
        ]
    );
}

#[test]
fn decode_measured_value_float() {
    let r1 = 100_f32.to_le_bytes();
    let r2 = 101_f32.to_le_bytes();
    let want = || {
        vec![
            MeasuredValueFloatInfo {
                ioa: InfoObjAddr::from_raw(0x01),
                r: 100_f32.to_bits(),
                qds: ObjectQDS::new(false, false, false, true, 0, false),
                time: None,
            },
            MeasuredValueFloatInfo {
                ioa: InfoObjAddr::from_raw(0x02),
                r: 101_f32.to_bits(),
                qds: ObjectQDS::new(false, false, false, true, 0, false),
                time: None,
            },
        ]
    };

    // M_ME_NC_1 seq = false Number = 2
    let a = asdu(
        TypeID::M_ME_NC_1,
        0x02,
        &[
            0x01, 0x00, 0x00, r1[0], r1[1], r1[2], r1[3], 0x10, 0x02, 0x00, 0x00, r2[0], r2[1],
            r2[2], r2[3], 0x10,
        ],
    );
    assert_eq!(a.get_measured_value_float().unwrap(), want());

    // M_ME_NC_1 seq = true Number = 2
    let a = asdu(
        TypeID::M_ME_NC_1,
        0x82,
        &[
            0x01, 0x00, 0x00, r1[0], r1[1], r1[2], r1[3], 0x10, r2[0], r2[1], r2[2], r2[3], 0x10,
        ],
    );
    assert_eq!(a.get_measured_value_float().unwrap(), want());
}

#[test]
fn test_single() {
    let infos = || {
        vec![
            SinglePointInfo::new(
                InfoObjAddr::from_raw(0x01),
                ObjectSIQ::new(false, false, false, true, 0, true),
                None,
            ),
            SinglePointInfo::new(
                InfoObjAddr::from_raw(0x02),
                ObjectSIQ::new(false, false, false, true, 0, false),
                None,
            ),
        ]
    };

    // invalid cause
    let cot = CauseOfTransmission::new(false, false, Cause::Unused);
    assert!(single(false, cot, 0x1234, vec![]).is_err());

    // M_SP_NA_1 seq = false Number = 2
    let cot = CauseOfTransmission::new(false, false, Cause::Background);
    let raw = single(false, cot, 0x1234, infos()).unwrap().into_bytes();
    let want_bytes = Bytes::from_static(&[
        0x01, 0x02, 0x02, 0x00, 0x34, 0x12, 0x01, 0x00, 0x00, 0x11, 0x02, 0x00, 0x00, 0x10,
    ]);
    assert_eq!(raw, want_bytes);

    // M_SP_NA_1 seq = true Number = 2
    let raw = single(true, cot, 0x1234, infos()).unwrap().into_bytes();
    let want_bytes = Bytes::from_static(&[
        0x01, 0x82, 0x02, 0x00, 0x34, 0x12, 0x01, 0x00, 0x00, 0x11, 0x10,
    ]);
    assert_eq!(raw, want_bytes);
}

#[test]
fn frames_are_read_back_with_their_numbers() {
    let mut codec = Codec;
    let a = asdu(TypeID::M_SP_NA_1, 0x01, &[0x01, 0x00, 0x00, 0x11]);
    assert_eq!(iframe_wire_size_for_asdu(&a), 16);
    let mut buf = BytesMut::new();
    codec.encode(new_iframe(a, 32767, 12345), &mut buf).unwrap();
    codec.encode(new_sframe(300), &mut buf).unwrap();
    codec.encode(new_uframe(U_STARTDT_ACTIVE), &mut buf).unwrap();
    let i = codec.decode(&mut buf).unwrap().unwrap();
    match ApciKind::from(i.apci) {
        ApciKind::I(x) => {
            assert_eq!(x.send_sn, 32767);
            assert_eq!(x.rcv_sn, 12345);
        }
        _ => panic!(),
    }
    assert_eq!(i.asdu.unwrap().raw, Bytes::from_static(&[0x01, 0x00, 0x00, 0x11]));
    let s = codec.decode(&mut buf).unwrap().unwrap();
    match ApciKind::from(s.apci) {
        ApciKind::S(x) => assert_eq!(x.rcv_sn, 300),
        _ => panic!(),
    }
    let u = codec.decode(&mut buf).unwrap().unwrap();
    match ApciKind::from(u.apci) {
        ApciKind::U(x) => assert_eq!(x.function, U_STARTDT_ACTIVE),
        _ => panic!(),
    }
    assert!(codec.decode(&mut buf).unwrap().is_none());
}

#[test]
fn half_a_frame_is_waited_for() {
    let mut codec = Codec;
    let mut buf = BytesMut::from(&[START_FRAME, 0x0e, 0x00][..]);
    assert!(codec.decode(&mut buf).unwrap().is_none());
    assert_eq!(buf.len(), 3);
}

#[test]
fn frames_have_a_text() {
    let a = asdu(TypeID::M_SP_NA_1, 0x01, &[0x01, 0x00, 0x00, 0xab]);
    assert_eq!(a.to_text(), "[01][01][00][00][00][00][0x01][0x00][0x00][0xAB]");
    let f = new_iframe(a, 1, 1);
    assert_eq!(
        f.to_text(),
        "[68][0E][02][00][02][00][01][01][00][00][00][00][0x01][0x00][0x00][0xAB]"
    );
    assert_eq!(new_sframe(1).to_text(), "[68][04][01][00][02][00]");
}

#[test]
fn asdu_errors() {
    assert_eq!(
        Asdu::try_from(Bytes::from_static(&[1, 1, 6])).unwrap_err(),
        "failed to fill whole buffer"
    );
    assert!(Asdu::try_from(Bytes::from_static(&[0, 1, 6, 0, 0, 0])).is_err());
    assert!(TypeID::try_from(0).is_err());
    assert!(matches!(TypeID::try_from(1), Ok(TypeID::M_SP_NA_1)));
    assert!(CauseOfTransmission::try_from(0x3f).is_err());
    let cot = CauseOfTransmission::try_from(0xc6).unwrap();
    assert!(cot.test && cot.positive);
    assert_eq!(cot.cause, Cause::Activation);
    assert_eq!(cot.raw(), 0xc6);
}

#[test]
fn mirrored_asdu_changes_its_cause_only() {
    let a = asdu(TypeID::C_SC_NA_1, 0x01, &[0x01, 0x00, 0x00, 0x01]);
    let m = a.mirror(Cause::ActivationCon);
    assert_eq!(m.identifier.cot.cause, Cause::ActivationCon);
    assert_eq!(m.identifier.type_id, TypeID::C_SC_NA_1);
    assert_eq!(m.raw, a.raw);
}

#[test]
fn getters_refuse_other_types_and_short_asdus() {
    let a = asdu(TypeID::M_DP_NA_1, 0x01, &[0x01, 0x00, 0x00, 0x01]);
    match a.get_single_point() {
        Err(Error::ErrTypeIDNotMatch(t)) => assert_eq!(t, TypeID::M_DP_NA_1),
        _ => panic!(),
    }
    let a = asdu(TypeID::M_SP_NA_1, 0x02, &[0x01, 0x00, 0x00, 0x01, 0x02]);
    match a.get_single_point() {
        Err(Error::Io(text)) => assert_eq!(text, "failed to fill whole buffer"),
        _ => panic!(),
    }
}

#[test]
fn impossible_moments_are_noticed() {
    // Hour 31 in the tag.
    let a = asdu(
        TypeID::M_SP_TB_1,
        0x01,
        &[0x01, 0x00, 0x00, 0x11, 0x01, 0x02, 0x03, 0x1f, 0x65, 0x06, 0x13],
    );
    assert!(!a.has_defined_objects());
    // The tag says that its time is invalid.
    let a = asdu(
        TypeID::M_SP_TB_1,
        0x01,
        &[0x01, 0x00, 0x00, 0x11, 0x01, 0x02, 0x83, 0x1f, 0x65, 0x06, 0x13],
    );
    assert!(a.has_defined_objects());
    assert_eq!(a.get_single_point().unwrap()[0].time, None);
    // A sequence that counts beyond the last address.
    let a = asdu(TypeID::M_SP_NA_1, 0x82, &[0xff, 0xff, 0x00, 0x11, 0x10]);
    assert!(!a.has_defined_objects());
}

#[test]
fn time_tags_of_a_moment() {
    // Sunday, 2024-12-01 23:59:58.250
    let t = CivilTime { milli: 250, ..at(2024, 12, 1, 23, 59, 58) };
    // Milliseconds of the minute, minute, hour, day with weekday, month, year.
    let ms: u16 = 58 * 1000;
    let tag = cp56time2a(t);
    assert_eq!(&tag[2..], &[59, 23, 1 | (7 << 5), 12, 24][..]);
    let got = u16::from_le_bytes([tag[0], tag[1]]);
    assert!(got >= ms && got < ms + 1000);
    assert_eq!(&cp24time2a(t)[2..], &[59][..]);
    assert_eq!(&cp16time2a_from_msec(0x1234)[..], &[0x34, 0x12][..]);
    let w = within_hour(t, 5, 6);
    assert_eq!((w.hour, w.minute, w.second), (23, 5, 6));
}

#[test]
fn sent_objects_are_read_back() {
    let ioa = InfoObjAddr::new(0, 7);
    let good = ObjectQDS::new(false, false, false, false, 0, false);
    let t = at(2024, 2, 29, 12, 30, 45);

    let v = vec![SinglePointInfo { ioa, siq: ObjectSIQ::new_with_value(true), time: Some(t) }];
    let a = single_cp56time2a(spontaneous(), 1, v.clone()).unwrap();
    assert_eq!(a.get_single_point().unwrap(), v);

    let v = vec![DoublePointInfo { ioa, diq: ObjectDIQ { raw: 2 }, time: Some(t) }];
    let a = double_cp24time2a(false, spontaneous(), 1, v).unwrap();
    let got = a.get_double_point().unwrap();
    assert_eq!(got[0].diq.spi(), 2);
    assert_eq!(got[0].time.unwrap().minute, 30);
    assert_eq!(got[0].time.unwrap().second, 45);

    let v = vec![StepPositionInfo { ioa, vti: ObjectVTI::new(true, 42), qds: good, time: None }];
    let a = step(false, spontaneous(), 1, v.clone()).unwrap();
    assert_eq!(a.get_step_position().unwrap(), v);

    let v = vec![MeasuredValueNormalInfo { ioa, nva: -32768, qds: Some(good), time: None }];
    let a = measured_value_normal(false, spontaneous(), 1, v.clone()).unwrap();
    assert_eq!(a.get_measured_value_normal().unwrap(), v);

    let v = vec![MeasuredValueScaledInfo { ioa, sva: -2, qds: good, time: None }];
    let a = measured_value_scaled(spontaneous(), 1, v.clone()).unwrap();
    assert_eq!(a.get_measured_value_scaled().unwrap(), v);

    let v = vec![MeasuredValueFloatInfo { ioa, r: 1.5_f32.to_bits(), qds: good, time: None }];
    let a = measured_value_float(false, spontaneous(), 1, v.clone()).unwrap();
    assert_eq!(a.get_measured_value_float().unwrap(), v);

    let bcr = ObjectBCR { invalid: false, ca: true, cy: false, seq: 9, value: -5 };
    let v = vec![BinaryCounterReadingInfo { ioa, bcr, time: None }];
    let a = integrated_totals(spontaneous(), 1, v.clone()).unwrap();
    assert_eq!(a.get_integrated_totals().unwrap(), v);

    let v = vec![BitStringInfo { ioa, bsi: 0xdead_beef, qds: good, time: None }];
    let a = bitstring(false, spontaneous(), 1, v.clone()).unwrap();
    assert_eq!(a.get_bit_string().unwrap(), v);
    let a = packed_status_change(spontaneous(), 1, v.clone()).unwrap();
    assert_eq!(a.get_packed_status_change().unwrap(), v);

    let sep = ObjectSEP { raw: 0x81 };
    let v = vec![ProtectionEventTdInfo { ioa, sep, elapsed_msec: 500, time: Some(t) }];
    let a = protection_event_td(spontaneous(), 1, v.clone()).unwrap();
    assert_eq!(a.get_protection_event_td().unwrap(), v);
}

#[test]
fn sent_commands_are_read_back() {
    let c = SingleCommandInfo::new(9, true, true);
    let a = single_cmd(TypeID::C_SC_NA_1, activation(), 3, c).unwrap();
    assert_eq!(&a.raw[..], &[9, 0, 0, 0x81][..]);
    assert_eq!(a.get_single_cmd().unwrap(), c);

    let c = DoubleCommandInfo::new(9, 6, false);
    let a = double_cmd(TypeID::C_DC_NA_1, activation(), 3, c).unwrap();
    assert_eq!(a.get_double_cmd().unwrap().dco.dcs(), 2);

    let a = step_cmd(TypeID::C_RC_NA_1, activation(), 3, StepCommandInfo::new(9, 1, false)).unwrap();
    assert_eq!(&a.raw[..], &[9, 0, 0, 1][..]);

    let c = SetPointCommandNormalInfo::new(9, -1);
    let a = set_point_cmd_normal(TypeID::C_SE_NA_1, activation(), 3, c).unwrap();
    assert_eq!(&a.raw[..], &[9, 0, 0, 0xff, 0xff, 0][..]);
    assert_eq!(a.get_set_point_normal_cmd().unwrap(), c);

    let c = SetPointCommandScaledInfo::new(9, 258);
    let a = set_point_cmd_scaled(TypeID::C_SE_NB_1, activation(), 3, c).unwrap();
    assert_eq!(a.get_set_point_scaled_cmd().unwrap(), c);

    let c = SetPointCommandFloatInfo::new(9, 2.5_f32.to_bits());
    let a = set_point_cmd_float(TypeID::C_SE_NC_1, activation(), 3, c).unwrap();
    assert_eq!(a.get_set_point_float_cmd().unwrap(), c);

    let mut c = BitsString32CommandInfo::new(9, -7);
    c.time = Some(at(2031, 1, 2, 3, 4, 5));
    let a = bits_string32_cmd(TypeID::C_BO_TA_1, activation(), 3, c).unwrap();
    assert!(a.has_defined_command());
    assert_eq!(a.get_bits_string32_cmd().unwrap(), c);
}

#[test]
fn commands_are_refused_for_cause_and_type() {
    let c = SingleCommandInfo::new(9, true, false);
    let cot = CauseOfTransmission::new(false, false, Cause::Spontaneous);
    match single_cmd(TypeID::C_SC_NA_1, cot, 3, c) {
        Err(Error::ErrCmdCause(x)) => assert_eq!(x, cot),
        _ => panic!(),
    }
    match single_cmd(TypeID::C_DC_NA_1, activation(), 3, c) {
        Err(Error::ErrTypeIDNotMatch(t)) => assert_eq!(t, TypeID::C_DC_NA_1),
        _ => panic!(),
    }
}

#[test]
fn end_of_initialization_is_read_back() {
    let ioa = InfoObjAddr::new(1, 2);
    let coi = ObjectCOI { raw: 0x82 };
    let cot = CauseOfTransmission::new(false, false, Cause::Initialized);
    let a = end_of_initialization(cot, 5, ioa, coi).unwrap();
    assert_eq!(a.get_end_of_initialization().unwrap(), (ioa, coi));
    assert!(matches!(
        end_of_initialization(spontaneous(), 5, ioa, coi),
        Err(Error::ErrCmdCause(_))
    ));
}

#[test]
fn types_map_to_commands() {
    assert_eq!(TypeID::M_SP_TB_1.map_to_command(), Some(TypeID::C_SC_TA_1));
    assert_eq!(TypeID::C_SE_NC_1.map_to_command(), Some(TypeID::C_SE_NC_1));
    assert_eq!(TypeID::M_IT_NA_1.map_to_command(), None);
    assert!(TypeID::C_BO_TA_1.needs_time());
    assert!(!TypeID::C_BO_NA_1.needs_time());
}

#[test]
fn number_of_outstanding_frames() {
    assert_eq!(seq_no_count(3, 10), 7);
    assert_eq!(seq_no_count(32760, 2), 10);
}

#[test]
fn error_texts() {
    assert_eq!(Error::ErrInvalidFrame.message(), "Invalid frame");
    assert_eq!(Error::ErrConnectTimeout.message(), "connect timeout");
    assert_eq!(Error::Io("x".to_string()).message(), "I/O error: x");
    assert_eq!(
        Error::ErrTypeIDNotMatch(TypeID::M_SP_NA_1).message(),
        "asdu: [type identifier: M_SP_NA_1] doesn't match call or time tag"
    );
    assert_eq!(Error::ErrSendRequestTimeout.message(), "send request timed out");
    assert_eq!(Error::ErrSendRequestCancelled.message(), "send request cancelled");
}

fn with_code(code: u8) -> CauseOfTransmission {
    CauseOfTransmission::try_from(code).unwrap()
}

/// The codes of the causes with which something can be sent.
fn accepted(send: impl Fn(CauseOfTransmission) -> Result<Asdu, Error>) -> Vec<u8> {
    let mut codes = Vec::new();
    for code in (1..=13).chain(20..=41).chain(44..=47) {
        let cot = with_code(code);
        match send(cot) {
            Ok(a) => {
                assert_eq!(a.identifier.cot, cot);
                codes.push(code);
            }
            Err(Error::ErrCmdCause(x)) => assert_eq!(x, cot),
            Err(_) => panic!(),
        }
    }
    codes
}

#[test]
fn measured_values_have_their_causes() {
    let ioa = InfoObjAddr::new(0, 7);
    let qds = ObjectQDS::new(false, false, false, false, 0, false);
    let time = Some(at(2024, 2, 29, 12, 30, 45));
    let measured: Vec<u8> = [1, 2, 3, 5].into_iter().chain(20..=36).collect();
    let normal = MeasuredValueNormalInfo { ioa, nva: 1, qds: Some(qds), time: None };
    let scaled = MeasuredValueScaledInfo { ioa, sva: 1, qds, time: None };
    let float = MeasuredValueFloatInfo { ioa, r: 0, qds, time };
    assert_eq!(accepted(|c| measured_value_normal(false, c, 1, vec![normal])), measured);
    assert_eq!(accepted(|c| measured_value_normal_noquality(c, 1, vec![normal])), measured);
    assert_eq!(accepted(|c| measured_value_scaled(c, 1, vec![scaled])), measured);
    assert_eq!(accepted(|c| measured_value_float(false, c, 1, vec![float])), measured);
    assert_eq!(accepted(|c| measured_value_float_cp24time2a(c, 1, vec![float])), vec![3, 5]);
    assert_eq!(accepted(|c| measured_value_float_cp56time2a(c, 1, vec![float])), vec![3, 5]);
    let a = measured_value_normal(false, with_code(1), 9, vec![normal, normal]).unwrap();
    assert_eq!(a.identifier.type_id, TypeID::M_ME_NA_1);
    assert_eq!((a.identifier.common_addr, a.identifier.orig_addr), (9, 0));
    assert_eq!(a.identifier.variable_struct.number(), 2);
}

#[test]
fn counted_totals_have_their_causes() {
    let ioa = InfoObjAddr::new(0, 7);
    let bcr = ObjectBCR { invalid: false, ca: true, cy: false, seq: 9, value: -5 };
    let v = BinaryCounterReadingInfo { ioa, bcr, time: Some(at(2024, 2, 29, 12, 30, 45)) };
    let counted = vec![3, 37, 38, 39, 40, 41];
    assert_eq!(accepted(|c| integrated_totals(c, 1, vec![v])), counted);
    assert_eq!(accepted(|c| integrated_totals_cp56time2a(c, 1, vec![v])), counted);
}

#[test]
fn commands_have_their_causes() {
    let c = SingleCommandInfo::new(1, true, false);
    assert_eq!(
        accepted(|cot| single_cmd(TypeID::C_SC_NA_1, cot, 1, c)),
        vec![6, 7, 8, 9, 10, 44, 45, 46, 47]
    );
    let end = CauseOfTransmission::new(false, false, Cause::ActivationTerm);
    let a = single_cmd(TypeID::C_SC_NA_1, end, 1, c).unwrap();
    let bytes = [0x2D, 0x01, 0x0A, 0x00, 0x01, 0x00, 0x01, 0x00, 0x00, 0x01];
    assert_eq!(&a.into_bytes()[..], &bytes[..]);
}

#[test]
fn timed_double_points_are_single_objects() {
    let time = Some(at(2024, 2, 29, 12, 30, 45));
    let v = |addr| DoublePointInfo {
        ioa: InfoObjAddr::new(0, addr),
        diq: ObjectDIQ { raw: 2 },
        time,
    };
    for a in [
        double_cp24time2a(true, spontaneous(), 1, vec![v(7), v(20)]).unwrap(),
        double_cp56time2a(true, spontaneous(), 1, vec![v(7), v(20)]).unwrap(),
    ] {
        assert!(!a.identifier.variable_struct.is_sequence());
        let got = a.get_double_point().unwrap();
        assert_eq!((got[0].ioa.addr, got[1].ioa.addr), (7, 20));
    }
}
