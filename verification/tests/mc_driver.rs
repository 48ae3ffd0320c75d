use bytes::Bytes;
use ng_gateway_southward::gateway::{
    check_data_type, write_outcome, write_timeout, AccessMode, ConnectionPolicy, DataPointType,
    DataType, DriverError, FailureKind, Metrics, NGValue, WriteEnd,
};
use ng_gateway_southward::mc::codec::{JsonScalar, McCodec};
use ng_gateway_southward::mc::collect::{
    begin_collect, finish_collect, merge_results, raw_reads, typed_items, usable_values,
    CollectItem, McReadItemTyped,
};
use ng_gateway_southward::mc::connector::{
    build_session_config, classify_error, init_outcome, invalid_address, run_outcome,
    socket_text, RunOutcome,
};
use ng_gateway_southward::mc::converter::{InputModel, McConverter, PointModel};
use ng_gateway_southward::mc::driver::{parsed_action_entries, parsed_point_entry};
use ng_gateway_southward::mc::factory::McDriverFactory;
use ng_gateway_southward::mc::handle::{
    action_entries, collection_group_key, point_entry, words_for_data_type, McSessionPool,
    ResolvedParameter, TypedPointReadSpec,
};
use ng_gateway_southward::mc::metadata::build_metadata;
use ng_gateway_southward::mc::protocol::frame::addr::McLogicalAddress;
use ng_gateway_southward::mc::protocol::merge::McReadItemRaw;
use ng_gateway_southward::mc::protocol::types::{McFrameVariant, McSeries};
use ng_gateway_southward::mc::types::{McAddress, McChannelConfig, McParameter, McPoint};
use ng_gateway_southward::schema::{Node, UiValue};

fn address(text: &str) -> McAddress {
    McAddress {
        raw: text.to_string(),
        logical: McLogicalAddress::try_parse(text).unwrap().ok(),
    }
}

fn point(id: i32, text: &str, data_type: DataType) -> McPoint {
    McPoint {
        id,
        device_id: 1,
        name: format!("n{id}"),
        key: format!("k{id}"),
        kind: DataPointType::Telemetry,
        data_type,
        access_mode: AccessMode::ReadWrite,
        unit: None,
        address: address(text),
        string_len_bytes: None,
    }
}

fn config() -> McChannelConfig {
    McChannelConfig {
        host: "h".to_string(),
        port: 5001,
        series: McSeries::QnA,
        max_points_per_batch: None,
        max_bytes_per_frame: None,
        concurrent_requests: None,
    }
}

fn text_of(e: DriverError) -> String {
    match e {
        DriverError::ConfigurationError(t)
        | DriverError::ValidationError(t)
        | DriverError::ExecutionError(t)
        | DriverError::SessionError(t) => t,
        DriverError::ServiceUnavailable | DriverError::Timeout(_) => panic!(),
    }
}

#[test]
fn numbers_are_encoded_and_decoded() {
    let cases = vec![
        (NGValue::Boolean(true), DataType::Boolean, vec![1]),
        (NGValue::Int8(-2), DataType::Int8, vec![0xFE]),
        (NGValue::Int16(-2), DataType::Int16, vec![0xFE, 0xFF]),
        (NGValue::UInt16(0x1234), DataType::UInt16, vec![0x34, 0x12]),
        (NGValue::Int32(-2), DataType::Int32, vec![0xFE, 0xFF, 0xFF, 0xFF]),
        (NGValue::Float32(1.5_f32.to_bits()), DataType::Float32, 1.5_f32.to_le_bytes().to_vec()),
        (NGValue::Float64(2.5_f64.to_bits()), DataType::Float64, 2.5_f64.to_le_bytes().to_vec()),
        (NGValue::Int64(-3), DataType::Int64, (-3_i64).to_le_bytes().to_vec()),
    ];
    for (v, t, want) in cases {
        let b = McCodec::encode_typed(t, &Ok(v.clone())).unwrap();
        assert_eq!(b, want);
        assert_eq!(format!("{:?}", McCodec::decode(t, &b).unwrap()), format!("{v:?}"));
    }
}

#[test]
fn texts_are_decoded_lossily() {
    let v = McCodec::decode(DataType::String, b"ab\0\0").unwrap();
    assert!(matches!(v, NGValue::String(s) if s == "ab\0\0"));
    let v = McCodec::decode(DataType::String, &[0x61, 0xFF]).unwrap();
    assert!(matches!(v, NGValue::String(s) if s == "a\u{fffd}"));
}

#[test]
fn json_values_are_encoded() {
    let j = JsonScalar {
        boolean: None,
        int: Some(-1),
        uint: None,
        float32: None,
        float64: None,
        text: None,
    };
    assert_eq!(McCodec::encode(DataType::Int16, &j).unwrap(), vec![0xFF, 0xFF]);
    assert_eq!(
        text_of(McCodec::encode(DataType::Boolean, &j).unwrap_err()),
        "MC encode: expected boolean JSON value for DataType::Boolean"
    );
    assert_eq!(
        text_of(McCodec::encode_typed(DataType::Int8, &Err("x".to_string())).unwrap_err()),
        "MC encode: expected i8: x"
    );
    assert!(McCodec::decode(DataType::Int32, &[1, 2]).is_err());
    assert_eq!(
        text_of(McCodec::decode(DataType::Timestamp, &[0; 8]).unwrap_err()),
        "MC decode: DataType::Timestamp is not supported yet"
    );
}

#[test]
fn sessions_are_picked_in_turn() {
    let mut pool = McSessionPool::new(vec!["a", "b"]);
    assert_eq!(pool.pick(), Some(&"a"));
    assert_eq!(pool.pick(), Some(&"b"));
    assert_eq!(pool.pick(), Some(&"a"));
    assert_eq!(pool.pick_by_index(3), Some(&"b"));
    assert_eq!(pool.pool_size(), 2);
    let mut empty: McSessionPool<u8> = McSessionPool::new(vec![]);
    assert_eq!(empty.pick(), None);
}

#[test]
fn channels_have_limits() {
    let mut c = config();
    let p = c.planner_config();
    assert_eq!((p.max_points_per_batch, p.max_bytes_per_frame), (480, 4096));
    assert_eq!(c.effective_pool_size(), 1);
    c.concurrent_requests = Some(4);
    c.max_points_per_batch = Some(0);
    assert_eq!(c.effective_pool_size(), 4);
    assert_eq!(c.planner_config().max_points_per_batch, 1);
    assert_eq!(collection_group_key(-1).1, u64::MAX);
    let policy =
        ConnectionPolicy { connect_timeout_ms: 1, read_timeout_ms: 2, write_timeout_ms: 3 };
    let s = build_session_config("h:1".to_string(), &c, &policy);
    assert_eq!((s.read_timeout_ms, s.max_concurrent_requests), (2, 4));
    assert_eq!(s.frame_variant, McFrameVariant::Frame3EBinary);
    assert_eq!(socket_text(&c), "h:5001");
    assert_eq!(text_of(invalid_address("x")), "Invalid socket address: x");
}

#[test]
fn words_of_values() {
    assert_eq!(words_for_data_type(DataType::Float64, None).unwrap(), 4);
    assert_eq!(words_for_data_type(DataType::String, Some(5)).unwrap(), 3);
    assert!(words_for_data_type(DataType::String, None).is_err());
}

#[test]
fn collection_is_shared_out() {
    assert_eq!(
        text_of(begin_collect(vec![], Some(1)).err().unwrap()),
        "collect_data called with empty items"
    );
    let item = |id: i32, points: Vec<McPoint>| CollectItem {
        device_id: id,
        device_name: format!("d{id}"),
        points,
    };
    let mut hidden = point(9, "D1", DataType::Int16);
    hidden.access_mode = AccessMode::Write;
    assert!(begin_collect(vec![item(1, vec![hidden])], Some(1)).unwrap().is_none());
    let points = || {
        vec![
            point(1, "D1", DataType::Int16),
            point(2, "W1", DataType::Int32),
            point(3, "D0", DataType::Int16),
        ]
    };
    let plan = begin_collect(vec![item(1, points())], Some(1)).unwrap().unwrap();
    assert_eq!(plan.groups.len(), 1);
    assert_eq!(plan.groups[0].len(), 3);
    let plan = begin_collect(vec![item(1, points())], Some(2)).unwrap().unwrap();
    assert_eq!(plan.groups.len(), 2);
    for g in &plan.groups {
        for s in g {
            assert_eq!(s.device_code, g[0].device_code);
        }
    }
    assert_eq!(plan.groups[0].len() + plan.groups[1].len(), 3);
    let wrong = vec![item(1, vec![point(1, "M1", DataType::Int16)])];
    assert_eq!(
        text_of(begin_collect(wrong, Some(1)).err().unwrap()),
        "MC bit device M only supports Boolean data type for point 'k1'"
    );
}

#[test]
fn results_of_a_pool_are_merged() {
    let one = |index| McReadItemTyped { index, end_code: 0, value: Some(NGValue::Boolean(true)) };
    let got = merge_results(vec![Ok(vec![one(0)]), Err("x".to_string())]).unwrap();
    assert_eq!(got.len(), 1);
    assert_eq!(
        text_of(merge_results(vec![Err("x".to_string()), Err("y".to_string())]).unwrap_err()),
        "All MC pool members failed"
    );
    assert_eq!(text_of(merge_results(vec![Err("x".to_string())]).unwrap_err()), "x");
    let bad = McReadItemTyped { index: 1, end_code: 7, value: None };
    let v = usable_values(vec![one(0), bad, one(5)], 2);
    assert_eq!(v.len(), 1);
    assert_eq!(v[0].0, 0);
}

#[test]
fn writes_become_entries() {
    let p = point(1, "D5", DataType::Int16);
    let e = point_entry(&p, DataType::Int16, Ok(vec![1, 2])).unwrap();
    assert_eq!((e.word_len, e.device_code), (1, 0xA8));
    assert_eq!(&e.data[..], &[1, 2][..]);
    let param = McParameter {
        name: "n".to_string(),
        key: "k".to_string(),
        data_type: DataType::Int16,
        required: true,
        address: address("D7"),
        string_len_bytes: None,
    };
    let r = ResolvedParameter { param, cast: Ok(NGValue::Int16(3)) };
    let e = action_entries("a", &vec![r]).unwrap();
    assert_eq!(&e[0].data[..], &[3, 0][..]);
    assert!(check_data_type(true, DataType::Int8, DataType::Int8).is_ok());
    assert_eq!(write_timeout(None, 0), 1);
    assert_eq!(write_timeout(Some(9), 5), 9);
    assert!(write_outcome(WriteEnd::Done, 1).is_ok());
    assert!(matches!(write_outcome(WriteEnd::Elapsed, 4), Err(DriverError::Timeout(4))));
    assert_eq!(text_of(write_outcome(WriteEnd::Failed("f".to_string()), 4).unwrap_err()), "f");
}

#[test]
fn models_become_points_and_parameters() {
    let conv = McConverter;
    let m = |address: Option<&str>| PointModel {
        id: 1,
        device_id: 7,
        name: "n".to_string(),
        key: "k".to_string(),
        kind: DataPointType::Attribute,
        data_type: DataType::String,
        access_mode: AccessMode::Read,
        unit: Some("bar".to_string()),
        address: address.map(|s| s.to_string()),
        string_len_bytes: Some(65546),
    };
    let p = conv.try_convert_runtime_point(m(Some("D3"))).unwrap().unwrap();
    assert_eq!(p.address.logical.unwrap().head, 3);
    assert_eq!(p.string_len_bytes, Some(10));
    assert_eq!((p.device_id, p.name.as_str(), p.unit.as_deref()), (7, "n", Some("bar")));
    let e = conv.try_convert_runtime_point(m(None)).unwrap().unwrap_err();
    assert_eq!(text_of(e), "Invalid MC address '': address is empty");
    assert!(McDriverFactory.convert_runtime_point(m(Some("tſ1"))).is_none());
    let i = InputModel {
        name: "n".to_string(),
        key: "k".to_string(),
        data_type: DataType::Boolean,
        required: true,
        address: Some("M".to_string()),
        string_len_bytes: None,
    };
    let e = conv.try_convert_runtime_action(vec![i]).unwrap().unwrap_err();
    assert_eq!(
        text_of(e),
        "Invalid MC address 'M' for action parameter 'n': missing head device number in address: M"
    );
    assert!(conv.convert_runtime_channel(Err("x".to_string())).is_err());
}

#[test]
fn attempts_end() {
    assert_eq!(classify_error(&DriverError::ServiceUnavailable), FailureKind::Retryable);
    assert!(init_outcome(&vec![true, true]).is_ok());
    assert_eq!(
        text_of(init_outcome(&vec![true, false]).unwrap_err()),
        "mc protocol session did not become Active"
    );
    assert!(matches!(run_outcome(true), RunOutcome::Disconnected));
    assert!(matches!(
        run_outcome(false),
        RunOutcome::ReconnectRequested("mc protocol session ended")
    ));
}

#[test]
fn requests_are_counted() {
    let mut m = Metrics::new();
    m.record(true, 100);
    m.record(true, 200);
    m.record(false, 5);
    assert_eq!((m.total, m.successful, m.failed, m.average_ms), (3, 2, 1, 110));
}

#[test]
fn schema_of_the_settings() {
    let m = build_metadata();
    assert_eq!((m.channel.len(), m.device.len(), m.point.len(), m.action.len()), (6, 0, 2, 1));
    match &m.channel[2] {
        Node::Field(f) => {
            assert_eq!(f.default_value, Some(UiValue::Text("qnA")));
            assert_eq!(f.items[3].label.zh, "iQ-R 系列");
        }
        _ => panic!(),
    }
}

#[test]
fn bytes_are_kept_as_they_are() {
    let v = McCodec::decode(DataType::Binary, &[1, 2, 3]).unwrap();
    assert!(matches!(v, NGValue::Binary(b) if b == Bytes::from_static(&[1, 2, 3])));
}

#[test]
fn collected_values_are_published_by_device() {
    let mut name = point(3, "D2", DataType::Int16);
    name.kind = DataPointType::Attribute;
    let items = vec![
        CollectItem {
            device_id: 7,
            device_name: "b".to_string(),
            points: vec![point(1, "D0", DataType::Int16), name],
        },
        CollectItem {
            device_id: 2,
            device_name: "a".to_string(),
            points: vec![point(2, "D1", DataType::Int16)],
        },
    ];
    let plan = begin_collect(items, Some(1)).unwrap().unwrap();
    let values = vec![
        (1, Some(NGValue::Int16(5))),
        (0, Some(NGValue::Int16(6))),
        (2, Some(NGValue::Int16(7))),
        (0, None),
        (9, Some(NGValue::Int16(8))),
    ];
    let out = finish_collect(&plan.devices, &plan.targets, values);
    let shape: Vec<(i32, &str, DataPointType, i32)> = out
        .iter()
        .map(|p| (p.device_id, p.device_name.as_str(), p.kind, p.values[0].point_id))
        .collect();
    assert_eq!(
        shape,
        vec![
            (2, "a", DataPointType::Telemetry, 2),
            (7, "b", DataPointType::Telemetry, 1),
            (7, "b", DataPointType::Attribute, 3),
        ]
    );
    assert!(matches!(out[1].values[0].value, NGValue::Int16(6)));
    assert!(out.iter().all(|p| p.values.len() == 1));
}

#[test]
fn writes_with_parsed_addresses() {
    let mut p = point(1, "D5", DataType::Int16);
    p.address.logical = None;
    let write = |p: &McPoint, valid| {
        parsed_point_entry(p, valid, DataType::Int16, Ok(vec![1, 2])).unwrap()
    };
    let e = write(&p, true).unwrap();
    assert_eq!((e.addr.head, e.word_len), (5, 1));
    assert_eq!(
        text_of(write(&p, false).unwrap_err()),
        "type mismatch: expected Int16, got Int16"
    );
    p.address.raw = "Q1".to_string();
    assert_eq!(
        text_of(write(&p, true).unwrap_err()),
        "Invalid MC address 'Q1': unknown MC device prefix in address: Q1"
    );
    p.address.raw = "tſ1".to_string();
    assert!(parsed_point_entry(&p, true, DataType::Int16, Ok(vec![])).is_none());
    p.access_mode = AccessMode::Read;
    assert_eq!(text_of(write(&p, true).unwrap_err()), "point is not writeable");

    let param = |raw: &str| ResolvedParameter {
        param: McParameter {
            name: "n".to_string(),
            key: "k".to_string(),
            data_type: DataType::Int16,
            required: false,
            address: McAddress { raw: raw.to_string(), logical: None },
            string_len_bytes: None,
        },
        cast: Ok(NGValue::Int16(3)),
    };
    let e = parsed_action_entries("a", &vec![param("D7"), param("W1")]).unwrap().unwrap();
    assert_eq!((e[0].addr.head, e[1].addr.head), (7, 1));
    let bad = vec![param("D7"), param("D"), param("tſ1")];
    assert_eq!(
        text_of(parsed_action_entries("a", &bad).unwrap().unwrap_err()),
        "Invalid MC address 'D' in action parameter: missing head device number in address: D"
    );
    assert!(parsed_action_entries("a", &vec![param("tſ1"), param("D")]).is_none());
}

#[test]
fn raw_items_become_typed_items() {
    let spec = |index: usize, data_type: DataType, text: &str| TypedPointReadSpec {
        index,
        data_type,
        addr: McLogicalAddress::try_parse(text).unwrap().unwrap(),
        word_len: 1,
        device_code: 0xA8,
    };
    let specs = vec![spec(4, DataType::Int16, "D1"), spec(2, DataType::Int32, "D2")];
    let reads = raw_reads(&specs);
    assert_eq!((reads[0].index, reads[0].addr.head), (0, 1));
    assert_eq!((reads[1].index, reads[1].addr.head), (1, 2));
    let raw = |index: usize, end_code: u16, payload: Option<&'static [u8]>| McReadItemRaw {
        index,
        end_code,
        payload: payload.map(Bytes::from_static),
    };
    let items = vec![
        raw(1, 0, Some(&[1, 2])),
        raw(9, 0, Some(&[1, 2])),
        raw(0, 0, Some(&[0xFE, 0xFF])),
        raw(0, 5, None),
    ];
    let typed = typed_items(&specs, &items);
    let seen: Vec<(usize, u16)> = typed.iter().map(|t| (t.index, t.end_code)).collect();
    assert_eq!(seen, vec![(2, 0), (4, 0), (4, 5)]);
    assert!(typed[0].value.is_none() && typed[2].value.is_none());
    assert!(matches!(typed[1].value, Some(NGValue::Int16(-2))));
}
