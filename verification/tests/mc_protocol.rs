use bytes::{Bytes, BytesMut};
use ng_gateway_southward::mc::protocol::codec::{
    decode_header_1e_ack, decode_header_3e_ack, decode_header_4e_ack, encode_header_1e_req, Codec,
    McCodecError, McStreamError,
};
use ng_gateway_southward::mc::protocol::error::{Error, RequestFailure};
use ng_gateway_southward::mc::protocol::frame::addr::McLogicalAddress;
use ng_gateway_southward::mc::protocol::frame::builder::{
    build_3e_req_header, build_device_batch_read_message, build_device_random_read_message,
};
use ng_gateway_southward::mc::protocol::frame::command::{McCommandCode, McCommandKind};
use ng_gateway_southward::mc::protocol::frame::device::{McDeviceType, McNotation};
use ng_gateway_southward::mc::protocol::frame::header::{
    McHeader, McHeader1EReq, McHeader3EAck, McHeaderAckCommon, McHeaderReqCommon,
};
use ng_gateway_southward::mc::protocol::frame::message::{McAppBody, McMessage};
use ng_gateway_southward::mc::protocol::frame::pdu::device_addr_len;
use ng_gateway_southward::mc::protocol::frame::route::{McRoute1E, McRoute3E4E};
use ng_gateway_southward::mc::protocol::planner::{
    merge_read_raw, plan_random_read_batches, plan_random_write_batches, plan_read_batches,
    plan_write_batches, try_plan_write_batches, PlannerConfig, PointReadSpec, RandomReadEntry,
    RandomWriteEntry, ReadBatchResult, WriteEntry,
};
use ng_gateway_southward::mc::protocol::session::bits::{
    decode_mc_bits, encode_mc_bits, plan_bit_read_batches, plan_bit_write_batches,
};
use ng_gateway_southward::mc::protocol::session::random_access::{
    multi_address_reads, multi_address_writes, MultiAddressReadSpec, MultiAddressWriteSpec,
    RandomReads, RandomWrites,
};
use ng_gateway_southward::mc::protocol::session::reads::PointReads;
use ng_gateway_southward::mc::protocol::session::state::{
    active_verdict, after_exchange, ExchangeEnd, SessionConfig, SessionEvent,
    SessionLifecycleState,
};
use ng_gateway_southward::mc::protocol::session::writes::PointWrites;
use ng_gateway_southward::mc::protocol::types::{McFrameVariant, McSeries};

fn addr(text: &str) -> McLogicalAddress {
    McLogicalAddress::try_parse(text).unwrap().unwrap()
}

fn refused(text: &str) -> String {
    McLogicalAddress::try_parse(text).unwrap().unwrap_err()
}

fn read(index: usize, text: &str, word_len: u16) -> PointReadSpec {
    let a = addr(text);
    PointReadSpec {
        index,
        addr: a,
        word_len,
        device_code: a.device.device_code_3e().unwrap_or(0),
    }
}

fn write(text: &str, word_len: u16, data: &[u8]) -> WriteEntry {
    let a = addr(text);
    WriteEntry {
        addr: a,
        word_len,
        device_code: a.device.device_code_3e().unwrap_or(0),
        data: Bytes::copy_from_slice(data),
    }
}

fn ack(end_code: u16, payload: &[u8]) -> McMessage {
    McMessage {
        header: McHeader::Ack3E(McHeader3EAck {
            common: McHeaderAckCommon { frame_variant: McFrameVariant::Frame3EBinary },
            sub_header: 0xD0,
            route: McRoute3E4E::default(),
            data_length: 2 + payload.len() as u16,
            end_code,
        }),
        body: Some(McAppBody::Raw(Bytes::copy_from_slice(payload))),
    }
}

fn sent(m: McMessage) -> Vec<u8> {
    let mut buf = BytesMut::new();
    Codec::default().encode(m, &mut buf);
    buf.to_vec()
}

#[test]
fn addresses_are_parsed() {
    let a = addr("  d20.2 ");
    assert_eq!((a.device, a.head, a.bit), (McDeviceType::D, 20, Some(2)));
    let a = addr("X10");
    assert_eq!((a.device, a.head, a.bit), (McDeviceType::X, 16, None));
    assert_eq!(addr("Y1A0").head, 0x1a0);
    assert_eq!(addr("LSTS7").device, McDeviceType::LSTS);
    assert_eq!(addr("ZR5").device, McDeviceType::ZR);
}

#[test]
fn wrong_addresses_are_explained() {
    assert_eq!(refused("   "), "address is empty");
    assert_eq!(refused("Q1"), "unknown MC device prefix in address: Q1");
    assert_eq!(refused("D"), "missing head device number in address: D");
    assert_eq!(
        refused("D1x"),
        "invalid head number '1x' in address 'D1x': invalid digit found in string"
    );
    assert_eq!(refused("D1."), "empty bit index in address: D1.");
    assert_eq!(
        refused("D1.300"),
        "invalid bit index '300' in address 'D1.300': number too large to fit in target type"
    );
    assert_eq!(refused("é1"), "unknown MC device prefix in address: é1");
    // In capitals the text starts with a symbol that ends inside of a character.
    assert!(McLogicalAddress::try_parse("tſ1").is_none());
}

#[test]
fn devices_know_their_nature() {
    assert!(McDeviceType::M.is_bit() && !McDeviceType::M.is_word());
    assert!(McDeviceType::D.is_word());
    assert!(McDeviceType::LZ.is_dword());
    assert_eq!(McDeviceType::X.notation(), McNotation::Hex);
    assert_eq!(McDeviceType::D.notation(), McNotation::Dec);
    assert_eq!(McDeviceType::D.symbol(), "D");
    assert_eq!(McDeviceType::D.device_code_3e(), Some(0xA8));
    assert_eq!(McDeviceType::M.device_code_3e(), Some(0x90));
}

#[test]
fn commands_have_codes() {
    let c = McCommandKind::DeviceAccessBatchReadUnits;
    assert_eq!(c.to_code(), McCommandCode::Code3E4E(0x0401));
    assert_eq!(McCommandKind::from_code(McCommandCode::Code3E4E(0x0401)), Some(c));
    assert_eq!(McCommandKind::from_code(McCommandCode::Code3E4E(0xffff)), None);
    assert_eq!(device_addr_len(McSeries::QL), 4);
    assert_eq!(device_addr_len(McSeries::IQR), 6);
}

#[test]
fn series_have_limits() {
    assert_eq!(McSeries::QnA.device_batch_in_word_points_max(), 480);
    assert_eq!(McSeries::QL.device_random_read_in_word_points_max(), 192);
    assert!(McSeries::A.uses_1e());
    assert_eq!(McFrameVariant::Frame4EBinary.sub_header(), 0x54);
}

#[test]
fn batch_read_goes_on_the_wire() {
    let m = build_device_batch_read_message(
        McSeries::QnA,
        McFrameVariant::Frame3EBinary,
        4000,
        100,
        2,
        0xA8,
    );
    assert_eq!(
        sent(m),
        vec![
            0x50, 0x00, 0x00, 0xFF, 0xFF, 0x03, 0x00, 0x0E, 0x00, 0x10, 0x00, 0x01, 0x04, 0x00,
            0x00, 100, 0, 0, 0, 2, 0, 0xA8, 0x00
        ]
    );
    assert_eq!(build_3e_req_header(McFrameVariant::Frame3EBinary, 10).common.monitoring_timer, 1);
}

#[test]
fn random_read_lists_its_addresses() {
    let m = build_device_random_read_message(
        McSeries::QL,
        McFrameVariant::Frame3EBinary,
        250,
        &[(1, 0xA8)],
        &[(0x10203, 0xA8)],
    );
    let b = sent(m);
    assert_eq!(
        &b[11..],
        &[0x03, 0x04, 0x00, 0x00, 1, 1, 1, 0, 0, 0xA8, 0x03, 0x02, 0x01, 0xA8][..]
    );
}

#[test]
fn request_header_of_the_short_frame() {
    let h = McHeader1EReq {
        common: McHeaderReqCommon { monitoring_timer: 0x0102 },
        sub_header: 1,
        route: McRoute1E::default_1e(),
    };
    assert_eq!(&encode_header_1e_req(&h)[..], &[1, 0xFF, 0x02, 0x01][..]);
}

#[test]
fn acknowledge_headers_are_decoded() {
    let b = [0xD0, 0, 0, 0xFF, 0xFF, 0x03, 0, 0x04, 0, 0x51, 0xC0];
    let h = decode_header_3e_ack(&b, McFrameVariant::Frame3EBinary).unwrap();
    assert_eq!((h.end_code, h.data_length, h.route.module_io_number), (0xC051, 4, 0x3FF));
    assert!(matches!(
        decode_header_3e_ack(&b[..5], McFrameVariant::Frame3EBinary),
        Err(McCodecError::BufferTooShort { actual: 5, .. })
    ));
    assert!(matches!(
        decode_header_3e_ack(&b, McFrameVariant::Frame4EBinary),
        Err(McCodecError::UnsupportedVariant(McFrameVariant::Frame4EBinary))
    ));
    let h = decode_header_1e_ack(&[0x81, 0x5B], McFrameVariant::Frame1EBinary).unwrap();
    assert_eq!((h.sub_header, h.end_code), (0x81, 0x5B));
    let b = [0xD4, 0, 7, 0, 0, 0, 0, 0xFF, 0xFF, 0x03, 0, 2, 0, 0, 0];
    let h = decode_header_4e_ack(&b, McFrameVariant::Frame4EBinary).unwrap();
    assert_eq!((h.serial_number, h.end_code), (7, 0));
}

#[test]
fn stream_is_cut_into_responses() {
    let codec = Codec::default();
    let whole = [0xD0, 0, 0, 0xFF, 0xFF, 0x03, 0, 0x04, 0, 0, 0, 0x34, 0x12, 0xD0];
    let mut buf = BytesMut::from(&whole[..12]);
    assert!(codec.decode(&mut buf).unwrap().is_none());
    let mut buf = BytesMut::from(&whole[..]);
    let m = codec.decode(&mut buf).unwrap().unwrap();
    assert!(matches!(m.body, Some(McAppBody::Raw(b)) if b[..] == [0x34, 0x12]));
    assert_eq!(&buf[..], &[0xD0][..]);
    let ascii = Codec { frame_variant: McFrameVariant::Frame3EAscii };
    assert!(matches!(ascii.decode(&mut buf), Err(McStreamError::Ascii)));
    let short = Codec { frame_variant: McFrameVariant::Frame1EBinary };
    assert!(matches!(short.decode(&mut buf), Err(McStreamError::Frame1E)));
}

#[test]
fn reads_are_batched_and_merged_back() {
    let cfg = PlannerConfig::new(4, 4096);
    let specs = vec![read(0, "D12", 1), read(1, "D10", 2), read(2, "D13", 2), read(3, "W0", 1)];
    let batches = plan_read_batches(&cfg, specs);
    let shape: Vec<(McDeviceType, u32, u16)> =
        batches.iter().map(|b| (b.device, b.head, b.points)).collect();
    assert_eq!(
        shape,
        vec![
            (McDeviceType::D, 10, 3),
            (McDeviceType::D, 13, 2),
            (McDeviceType::W, 0, 1),
        ]
    );
    let results = vec![
        ReadBatchResult {
            end_code: 0,
            payload: Some(Bytes::from_static(&[1, 2, 3, 4, 5, 6])),
        },
        ReadBatchResult { end_code: 0xC051, payload: Some(Bytes::new()) },
        ReadBatchResult { end_code: 0, payload: Some(Bytes::from_static(&[7])) },
    ];
    let items = merge_read_raw(&batches, &results);
    assert_eq!(items.len(), 4);
    assert_eq!(items[0].payload.as_deref(), Some(&[5, 6][..]));
    assert_eq!(items[1].payload.as_deref(), Some(&[1, 2, 3, 4][..]));
    assert_eq!(items[2].end_code, 0xC051);
    assert!(items[2].payload.is_none());
    assert!(items[3].payload.is_none());
}

#[test]
fn writes_are_batched() {
    let cfg = PlannerConfig::new(100, 4096);
    let batches = plan_write_batches(
        &cfg,
        vec![write("D2", 1, &[5, 6]), write("D0", 2, &[1, 2, 3, 4]), write("D9", 1, &[9, 9])],
    );
    assert_eq!(batches.len(), 2);
    assert_eq!((batches[0].head, batches[0].points), (0, 3));
    assert_eq!(&batches[0].data[..], &[1, 2, 3, 4, 5, 6][..]);
    assert_eq!((batches[1].head, batches[1].points), (9, 1));
    assert!(try_plan_write_batches(&cfg, vec![write("D0", 1, &[1, 2])]).is_some());
}

#[test]
fn random_access_is_windowed() {
    let entry = |index: usize| RandomReadEntry {
        index,
        addr: addr("D1"),
        device_code: 0xA8,
    };
    let words: Vec<RandomReadEntry> = (0..200).map(entry).collect();
    let batches = plan_random_read_batches(McSeries::QL, words, vec![entry(200)]);
    assert_eq!(batches.len(), 2);
    assert_eq!(batches[0].word_entries.len(), 192);
    assert_eq!(batches[1].word_entries.len(), 8);
    assert_eq!(batches[1].dword_entries.len(), 1);
    let w = RandomWriteEntry {
        addr: addr("D1"),
        device_code: 0xA8,
        word_len: 1,
        data: Bytes::from_static(&[1, 2]),
    };
    let batches = plan_random_write_batches(McSeries::QL, vec![w], vec![]);
    assert_eq!(batches.len(), 1);
}

#[test]
fn bits_are_nibbles() {
    assert_eq!(&encode_mc_bits(&[true, false, true])[..], &[0x10, 0x10][..]);
    assert_eq!(decode_mc_bits(&[0x11, 0x01], 3), vec![true, true, false]);
    let cfg = PlannerConfig::new(2, 4096);
    let b = plan_bit_read_batches(&cfg, vec![read(0, "M1", 1), read(1, "M0", 1), read(2, "M2", 1)])
        .unwrap();
    assert_eq!(b.len(), 2);
    assert_eq!((b[0].head, b[0].points), (0, 2));
    assert!(matches!(
        plan_bit_read_batches(&cfg, vec![read(0, "D1", 1)]),
        Err(Error::ProtocolViolation { .. })
    ));
}

#[test]
fn a_read_runs_through_words_and_bits() {
    let config = SessionConfig::default();
    let cfg = PlannerConfig::new(100, 4096);
    let mut r = PointReads::begin(&cfg, vec![read(0, "M5", 1), read(1, "D1", 1), read(2, "M6", 1)]);
    assert_eq!(r.total, 3);
    let m = r.request(&config).unwrap();
    assert_eq!(&sent(m)[15..], &[1, 0, 0, 0, 1, 0, 0xA8, 0][..]);
    r.accept(Ok(ack(0, &[0xAB, 0xCD]))).unwrap();
    let m = r.request(&config).unwrap();
    assert_eq!(&sent(m)[15..], &[5, 0, 0, 0, 2, 0, 0x90, 0][..]);
    r.accept(Ok(ack(0, &[0x01]))).unwrap();
    assert!(r.request(&config).is_none());
    let items = r.finish();
    assert_eq!(items[0].payload.as_deref(), Some(&[0][..]));
    assert_eq!(items[1].payload.as_deref(), Some(&[0xAB, 0xCD][..]));
    assert_eq!(items[2].payload.as_deref(), Some(&[1][..]));
}

#[test]
fn a_read_ends_with_a_failure() {
    let cfg = PlannerConfig::new(100, 4096);
    let mut r = PointReads::begin(&cfg, vec![read(0, "D1", 1)]);
    assert!(matches!(r.accept(Err(RequestFailure::TimedOut)), Err(Error::RequestTimeout)));
    assert!(matches!(
        r.accept(Err(RequestFailure::Io("gone".to_string()))),
        Err(Error::Io(t)) if t == "gone"
    ));
    let wrong = McMessage { body: None, ..ack(0, &[]) };
    assert!(matches!(
        r.accept(Ok(wrong)),
        Err(Error::ProtocolViolation {
            context: "unexpected MC response header for read_points_typed (word/dword)"
        })
    ));
}

#[test]
fn a_write_sends_words_then_bits() {
    let config = SessionConfig::default();
    let cfg = PlannerConfig::new(100, 4096);
    let mut w = PointWrites::begin(
        &config,
        &cfg,
        vec![write("M1", 1, &[1]), write("D1", 1, &[7, 8]), write("M2", 1, &[0])],
    )
    .unwrap();
    let m = w.request(&config, &cfg).unwrap().unwrap();
    assert_eq!(&sent(m)[11..], &[0x01, 0x14, 0, 0, 1, 0, 0, 0, 1, 0, 0xA8, 0, 7, 8][..]);
    assert!(w.accept(Ok(ack(0, &[]))).is_ok());
    let m = w.request(&config, &cfg).unwrap().unwrap();
    assert_eq!(&sent(m)[15..], &[1, 0, 0, 0, 2, 0, 0x90, 0, 0x10][..]);
    assert!(matches!(w.accept(Ok(ack(0xC051, &[]))), Err(Error::EndCode { code: 0xC051 })));
    assert!(w.request(&config, &cfg).unwrap().is_none());
    let mut w = PointWrites::begin(&config, &cfg, vec![write("M1", 1, &[])]).unwrap();
    assert!(matches!(
        w.request(&config, &cfg),
        Err(Error::Encode { context: "MC bit write entry has empty payload" })
    ));
}

#[test]
fn several_addresses_in_one_request() {
    let config = SessionConfig { series: McSeries::QL, ..SessionConfig::default() };
    let specs = [
        MultiAddressReadSpec { index: 0, addr: addr("D5") },
        MultiAddressReadSpec { index: 1, addr: addr("D9") },
    ];
    let entries = multi_address_reads(&specs).unwrap();
    let mut r = RandomReads::begin(&config, entries).unwrap();
    assert!(r.request(&config).is_some());
    r.accept(Ok(ack(0, &[1, 2, 3, 4]))).unwrap();
    assert!(r.request(&config).is_none());
    assert_eq!(r.items[1].payload.as_deref(), Some(&[3, 4][..]));
    let entries = multi_address_writes(vec![MultiAddressWriteSpec {
        addr: addr("D5"),
        data: Bytes::from_static(&[1, 2]),
    }])
    .unwrap();
    let mut w = RandomWrites::begin(&config, entries).unwrap();
    assert!(w.request(&config).is_some());
    assert!(w.accept(Ok(ack(0, &[]))).is_ok());
    assert!(w.request(&config).is_none());
}

#[test]
fn lifecycle_decides_on_activity() {
    assert_eq!(active_verdict(SessionLifecycleState::Active), Some(true));
    assert_eq!(active_verdict(SessionLifecycleState::Connecting), None);
    assert_eq!(active_verdict(SessionLifecycleState::Failed), Some(false));
    assert!(matches!(after_exchange(ExchangeEnd::Response), (true, None)));
    assert!(matches!(
        after_exchange(ExchangeEnd::Eof),
        (false, Some(SessionEvent::TransportError))
    ));
    assert!(matches!(
        after_exchange(ExchangeEnd::TimedOut),
        (false, Some(SessionEvent::TransportError))
    ));
}

fn all_devices() -> Vec<McDeviceType> {
    vec![
        McDeviceType::SM,
        McDeviceType::SD,
        McDeviceType::X,
        McDeviceType::Y,
        McDeviceType::M,
        McDeviceType::L,
        McDeviceType::F,
        McDeviceType::V,
        McDeviceType::B,
        McDeviceType::D,
        McDeviceType::W,
        McDeviceType::TS,
        McDeviceType::TC,
        McDeviceType::TN,
        McDeviceType::LTS,
        McDeviceType::LTC,
        McDeviceType::LTN,
        McDeviceType::STS,
        McDeviceType::STC,
        McDeviceType::STN,
        McDeviceType::LSTS,
        McDeviceType::LSTC,
        McDeviceType::LSTN,
        McDeviceType::CS,
        McDeviceType::CC,
        McDeviceType::CN,
        McDeviceType::LCS,
        McDeviceType::LCC,
        McDeviceType::LCN,
        McDeviceType::SB,
        McDeviceType::SW,
        McDeviceType::DX,
        McDeviceType::DY,
        McDeviceType::Z,
        McDeviceType::LZ,
        McDeviceType::R,
        McDeviceType::ZR,
        McDeviceType::RD,
    ]
}

#[test]
fn each_device_has_one_nature_and_its_own_code() {
    let mut codes = Vec::new();
    for d in all_devices() {
        let natures = d.is_bit() as u8 + d.is_word() as u8 + d.is_dword() as u8;
        assert_eq!(natures, 1, "{}", d.symbol());
        codes.push(d.device_code_3e().unwrap());
    }
    codes.sort();
    codes.dedup();
    assert_eq!(codes.len(), 38);
}

#[test]
fn longest_symbol_is_taken() {
    for d in all_devices() {
        let a = addr(&format!("{}1", d.symbol()));
        assert_eq!((a.device, a.head), (d, 1));
    }
}

#[test]
fn bits_survive_the_wire() {
    let bits = vec![true, false, false, true, true];
    assert_eq!(decode_mc_bits(&encode_mc_bits(&bits), 5), bits);
}

#[test]
fn batches_are_split_by_length_and_gap() {
    let cfg = PlannerConfig::new(3, 4096);
    let specs = vec![read(0, "D0", 2), read(1, "D2", 1), read(2, "D3", 1), read(3, "D9", 1)];
    let shape: Vec<(u32, u16)> =
        plan_read_batches(&cfg, specs).iter().map(|b| (b.head, b.points)).collect();
    assert_eq!(shape, vec![(0, 3), (3, 1), (9, 1)]);
    // Six bytes hold three words.
    let cfg = PlannerConfig::new(100, 6);
    let specs = vec![read(0, "D0", 2), read(1, "D2", 1), read(2, "D3", 1)];
    assert_eq!(plan_read_batches(&cfg, specs).len(), 2);
}

fn run(index: usize, device: McDeviceType, head: u32, word_len: u16) -> PointReadSpec {
    let addr = McLogicalAddress { device, head, bit: None };
    PointReadSpec { index, addr, word_len, device_code: device.device_code_3e().unwrap() }
}

#[test]
fn batches_hold_no_more_points_than_are_counted() {
    let cfg = PlannerConfig::new(65535, 65535);
    let specs = vec![run(0, McDeviceType::M, 0, 40000), run(1, McDeviceType::M, 40000, 40000)];
    let batches = plan_read_batches(&cfg, specs.clone());
    assert_eq!(batches.len(), 2);
    for (i, b) in batches.iter().enumerate() {
        assert_eq!((b.device, b.device_code), (McDeviceType::M, 0x90));
        assert_eq!((b.head, b.points), (40000 * i as u32, 40000));
        assert_eq!(b.entries.len(), 1);
        assert_eq!((b.entries[0].index, b.entries[0].offset_words), (i, 0));
        assert_eq!(b.entries[0].len_words, 40000);
    }
    let bits = plan_bit_read_batches(&cfg, specs).unwrap();
    assert_eq!(bits.iter().map(|b| b.points).collect::<Vec<u16>>(), vec![40000, 40000]);
    let entries = [0, 40000].into_iter().map(|head| WriteEntry {
        addr: McLogicalAddress { device: McDeviceType::M, head, bit: None },
        word_len: 40000,
        device_code: 0x90,
        data: Bytes::from(vec![1]),
    });
    let bits = plan_bit_write_batches(&cfg, entries.collect()).unwrap();
    assert_eq!(bits.iter().map(|b| b.head).collect::<Vec<u32>>(), vec![0, 40000]);
}

#[test]
fn batches_end_with_the_address_space() {
    let cfg = PlannerConfig::new(100, 4096);
    let last = u32::MAX;
    let specs = vec![
        run(0, McDeviceType::D, last - 1, 1),
        run(1, McDeviceType::D, last, 3),
        run(2, McDeviceType::D, last, 1),
    ];
    let shape: Vec<(u32, u16)> =
        plan_read_batches(&cfg, specs).iter().map(|b| (b.head, b.points)).collect();
    assert_eq!(shape, vec![(last - 1, 4), (last, 1)]);
}

#[test]
fn writes_go_where_reads_go() {
    let cfg = PlannerConfig::new(3, 4096);
    let runs = [("D2", 1, 7u8), ("W1", 2, 8), ("D0", 2, 9), ("D3", 1, 10)];
    let reads = runs.iter().enumerate().map(|(i, r)| read(i, r.0, r.1)).collect();
    let writes = runs
        .iter()
        .map(|r| write(r.0, r.1, &vec![r.2; 2 * r.1 as usize]))
        .collect();
    let reads = plan_read_batches(&cfg, reads);
    let writes = plan_write_batches(&cfg, writes);
    assert_eq!(reads.len(), writes.len());
    let mut all = Vec::new();
    for (r, w) in reads.iter().zip(&writes) {
        assert_eq!((r.device, r.device_code), (w.device, w.device_code));
        assert_eq!((r.head, r.points), (w.head, w.points));
        assert_eq!(w.data.len(), 2 * w.points as usize);
        all.extend_from_slice(&w.data);
    }
    assert_eq!(all, vec![9, 9, 9, 9, 7, 7, 10, 10, 8, 8, 8, 8]);
    // Data of another length than the points call for joins no batch.
    let odd = vec![write("D0", 1, &[1, 2]), write("D1", 1, &[3])];
    assert!(try_plan_write_batches(&cfg, odd).is_none());
}

#[test]
fn symbols_are_cut_off_the_front() {
    let cut = |text| McDeviceType::try_identify_by_prefix(text).unwrap();
    assert_eq!(cut(" D20"), Some((McDeviceType::D, "20")));
    assert_eq!(cut("D20 "), Some((McDeviceType::D, "20 ")));
    assert_eq!(cut("\u{3000}zr5.1\t"), Some((McDeviceType::ZR, "5.1\t")));
    assert_eq!(cut("D20\u{3000}"), Some((McDeviceType::D, "20\u{3000}")));
    assert_eq!(cut("LSTN5"), Some((McDeviceType::LSTN, "5")));
    assert_eq!(cut("ZR1a"), Some((McDeviceType::ZR, "1a")));
    assert_eq!(cut("D"), Some((McDeviceType::D, "")));
    assert_eq!(cut("   "), None);
    assert_eq!(cut("Q1"), None);
    assert_eq!(McDeviceType::identify_by_prefix("  w1F "), Some((McDeviceType::W, "1F ")));
    assert!(McDeviceType::try_identify_by_prefix("tſ1").is_none());
}

#[test]
fn written_addresses_are_read_back() {
    for d in all_devices() {
        for head in [0, 9, 10, 0xABCDE, u32::MAX] {
            let (digits, small) = match d.notation() {
                McNotation::Dec => (format!("{head}"), format!("00{head}")),
                McNotation::Hex => (format!("{head:X}"), format!("{head:x}")),
            };
            for bit in [None, Some(0), Some(255)] {
                let tail = bit.map_or(String::new(), |b: u8| format!(".{b}"));
                let a = McLogicalAddress { device: d, head, bit };
                assert_eq!(addr(&format!("{}{digits}{tail}", d.symbol())), a);
                let lower = d.symbol().to_lowercase();
                assert_eq!(addr(&format!("\u{2003}{lower}{small}{tail}\u{85} ")), a);
            }
        }
    }
}

#[test]
fn protocol_errors_have_a_text() {
    assert_eq!(Error::Io("x".to_string()).message(), "I/O error: x");
    assert_eq!(Error::RequestTimeout.message(), "request timeout");
    assert_eq!(Error::InvalidFrame.message(), "invalid frame");
    assert_eq!(Error::ProtocolViolation { context: "c" }.message(), "protocol violation: c");
    assert_eq!(Error::Encode { context: "c" }.message(), "encode error: c");
    assert_eq!(Error::Decode { context: "c" }.message(), "decode error: c");
    assert_eq!(Error::UnsupportedFeature { feature: "f" }.message(), "unsupported feature: f");
    assert_eq!(Error::EndCode { code: 0xC05A }.message(), "MC end_code error: 0xc05a");
    assert_eq!(Error::EndCode { code: 0x7 }.message(), "MC end_code error: 0x0007");
}
