//! The format on the wire in numbers: device and command codes, limits of the
//! series, and the bytes of headers and requests.

use super::super::codec::{
    ack_3e_of, ack_4e_of, ack_complete, ack_frame_len, ack_payload, message_bytes,
};
use super::super::types::{McFrameVariant, McSeries};
use super::addr::{
    is_written, lemma_symbol_is_upper, parsed, written_addresses_are_parsed, McLogicalAddress,
};
use super::builder::{req_header_3e, timer_units};
use super::command::{McCommandCode, McCommandKind};
use super::device::{McDeviceType, McNotation};
use super::header::{McHeader1EReq, McHeader3EReq, McHeader4EReq};
use super::message::{McAppBody, McMessage};
use super::pdu::{addrs_encoded, device_addr, writes_encoded, McPdu, McRequestBody};
use super::route::McRoute3E4E;
use crate::text::{digit_value, digits_value};
use crate::wire::{bytes_content, le_bytes, lemma_le2, lemma_le3, lemma_le4};
use bytes::Bytes;
use vstd::prelude::*;

verus! {

/// The binary device codes of 3E and 4E frames.
pub proof fn device_codes()
    ensures
        McDeviceType::SM.code_3e_spec() == 0x91,
        McDeviceType::SD.code_3e_spec() == 0xA9,
        McDeviceType::X.code_3e_spec() == 0x9C,
        McDeviceType::Y.code_3e_spec() == 0x9D,
        McDeviceType::M.code_3e_spec() == 0x90,
        McDeviceType::L.code_3e_spec() == 0x92,
        McDeviceType::F.code_3e_spec() == 0x93,
        McDeviceType::V.code_3e_spec() == 0x94,
        McDeviceType::B.code_3e_spec() == 0xA0,
        McDeviceType::D.code_3e_spec() == 0xA8,
        McDeviceType::W.code_3e_spec() == 0xB4,
        McDeviceType::TS.code_3e_spec() == 0xC1,
        McDeviceType::TC.code_3e_spec() == 0xC0,
        McDeviceType::TN.code_3e_spec() == 0xC2,
        McDeviceType::LTS.code_3e_spec() == 0x51,
        McDeviceType::LTC.code_3e_spec() == 0x50,
        McDeviceType::LTN.code_3e_spec() == 0x52,
        McDeviceType::STS.code_3e_spec() == 0xC7,
        McDeviceType::STC.code_3e_spec() == 0xC6,
        McDeviceType::STN.code_3e_spec() == 0xC8,
        McDeviceType::LSTS.code_3e_spec() == 0x59,
        McDeviceType::LSTC.code_3e_spec() == 0x58,
        McDeviceType::LSTN.code_3e_spec() == 0x5A,
        McDeviceType::CS.code_3e_spec() == 0xC4,
        McDeviceType::CC.code_3e_spec() == 0xC3,
        McDeviceType::CN.code_3e_spec() == 0xC5,
        McDeviceType::LCS.code_3e_spec() == 0x55,
        McDeviceType::LCC.code_3e_spec() == 0x54,
        McDeviceType::LCN.code_3e_spec() == 0x56,
        McDeviceType::SB.code_3e_spec() == 0xA1,
        McDeviceType::SW.code_3e_spec() == 0xB5,
        McDeviceType::DX.code_3e_spec() == 0xA2,
        McDeviceType::DY.code_3e_spec() == 0xA3,
        McDeviceType::Z.code_3e_spec() == 0xCC,
        McDeviceType::LZ.code_3e_spec() == 0x62,
        McDeviceType::R.code_3e_spec() == 0xAF,
        McDeviceType::ZR.code_3e_spec() == 0xB0,
        McDeviceType::RD.code_3e_spec() == 0x2C,
{
}

/// The symbols of the devices in textual addresses.
pub proof fn device_symbols()
    ensures
        McDeviceType::SM.symbol_spec() == seq!['S', 'M'],
        McDeviceType::SD.symbol_spec() == seq!['S', 'D'],
        McDeviceType::X.symbol_spec() == seq!['X'],
        McDeviceType::Y.symbol_spec() == seq!['Y'],
        McDeviceType::M.symbol_spec() == seq!['M'],
        McDeviceType::L.symbol_spec() == seq!['L'],
        McDeviceType::F.symbol_spec() == seq!['F'],
        McDeviceType::V.symbol_spec() == seq!['V'],
        McDeviceType::B.symbol_spec() == seq!['B'],
        McDeviceType::D.symbol_spec() == seq!['D'],
        McDeviceType::W.symbol_spec() == seq!['W'],
        McDeviceType::TS.symbol_spec() == seq!['T', 'S'],
        McDeviceType::TC.symbol_spec() == seq!['T', 'C'],
        McDeviceType::TN.symbol_spec() == seq!['T', 'N'],
        McDeviceType::LTS.symbol_spec() == seq!['L', 'T', 'S'],
        McDeviceType::LTC.symbol_spec() == seq!['L', 'T', 'C'],
        McDeviceType::LTN.symbol_spec() == seq!['L', 'T', 'N'],
        McDeviceType::STS.symbol_spec() == seq!['S', 'T', 'S'],
        McDeviceType::STC.symbol_spec() == seq!['S', 'T', 'C'],
        McDeviceType::STN.symbol_spec() == seq!['S', 'T', 'N'],
        McDeviceType::LSTS.symbol_spec() == seq!['L', 'S', 'T', 'S'],
        McDeviceType::LSTC.symbol_spec() == seq!['L', 'S', 'T', 'C'],
        McDeviceType::LSTN.symbol_spec() == seq!['L', 'S', 'T', 'N'],
        McDeviceType::CS.symbol_spec() == seq!['C', 'S'],
        McDeviceType::CC.symbol_spec() == seq!['C', 'C'],
        McDeviceType::CN.symbol_spec() == seq!['C', 'N'],
        McDeviceType::LCS.symbol_spec() == seq!['L', 'C', 'S'],
        McDeviceType::LCC.symbol_spec() == seq!['L', 'C', 'C'],
        McDeviceType::LCN.symbol_spec() == seq!['L', 'C', 'N'],
        McDeviceType::SB.symbol_spec() == seq!['S', 'B'],
        McDeviceType::SW.symbol_spec() == seq!['S', 'W'],
        McDeviceType::DX.symbol_spec() == seq!['D', 'X'],
        McDeviceType::DY.symbol_spec() == seq!['D', 'Y'],
        McDeviceType::Z.symbol_spec() == seq!['Z'],
        McDeviceType::LZ.symbol_spec() == seq!['L', 'Z'],
        McDeviceType::R.symbol_spec() == seq!['R'],
        McDeviceType::ZR.symbol_spec() == seq!['Z', 'R'],
        McDeviceType::RD.symbol_spec() == seq!['R', 'D'],
{
}

/// The devices that 1E frames know.
pub open spec fn known_to_1e(d: McDeviceType) -> bool {
    d is X || d is Y || d is M || d is L || d is F || d is B || d is D || d is W || d is TN || d
        is TC || d is TS || d is CN || d is CC || d is CS || d is R
}

/// A device code of 1E frames is the symbol in ASCII, the first letter in the
/// high byte and the second, or a blank, in the low byte.
pub proof fn code_of_1e_is_the_symbol(d: McDeviceType)
    ensures
        d.code_1e_spec() is Some <==> known_to_1e(d),
        d.code_1e_spec() matches Some(c) ==> {
            &&& c / 256 == d.symbol_spec()[0] as u32
            &&& c % 256 == if d.symbol_spec().len() == 2 {
                d.symbol_spec()[1] as u32
            } else {
                ' ' as u32
            }
        },
{
}

/// The devices whose numbers are read in base 16.
pub open spec fn numbered_in_hex(d: McDeviceType) -> bool {
    d is X || d is Y || d is B || d is W || d is SB || d is SW || d is DX || d is DY || d is ZR
}

/// Notation is hexadecimal for exactly X, Y, B, W, SB, SW, DX, DY and ZR.
pub proof fn hexadecimal_devices(d: McDeviceType)
    ensures
        d.notation_spec() == McNotation::Hex <==> numbered_in_hex(d),
        d.notation_spec() == McNotation::Dec <==> !numbered_in_hex(d),
{
}

/// The devices of 16-bit units and of 32-bit units; all others are bits.
pub proof fn device_units(d: McDeviceType)
    ensures
        d.word_spec() <==> (d is SD || d is D || d is W || d is TN || d is STN || d is CN || d is SW
            || d is Z || d is R || d is ZR || d is RD),
        d.dword_spec() <==> (d is LTN || d is LSTN || d is LCN || d is LZ),
        d.bit_spec() <==> !d.word_spec() && !d.dword_spec(),
        d.word_spec() ==> d.unit_spec() == 2,
        d.dword_spec() ==> d.unit_spec() == 4,
        d.bit_spec() ==> d.unit_spec() == 1,
{
}

/// Long timer contacts and coils and the long index register are not read in
/// batches of words; their current values are not written either.
pub proof fn devices_outside_batches(d: McDeviceType)
    ensures
        d.no_batch_read_spec() <==> (d is LTS || d is LTC || d is LSTS || d is LSTC || d is LZ),
        d.no_batch_write_spec() <==> (d.no_batch_read_spec() || d is LTN || d is LSTN),
{
}

/// The value of a hexadecimal digit in either case.
pub open spec fn digit_of(c: char) -> nat {
    if '0' <= c <= '9' {
        (c as u32 - 0x30) as nat
    } else if 'A' <= c <= 'F' {
        (c as u32 - 0x37) as nat
    } else {
        (c as u32 - 0x57) as nat
    }
}

/// The digits of decimal and of hexadecimal numbers.
pub open spec fn digit_in(c: char, base: nat) -> bool {
    '0' <= c <= '9' || base == 16 && ('A' <= c <= 'F' || 'a' <= c <= 'f')
}

/// The number that digits stand for: every further digit multiplies what
/// stands before it by the base.
pub open spec fn value_of(ds: Seq<char>, base: nat) -> nat
    decreases ds.len(),
{
    if ds.len() == 0 {
        0
    } else {
        base * value_of(ds.drop_last(), base) + digit_of(ds.last())
    }
}

/// The base in which the numbers of a device are read: 16 for X, Y, B, W, SB,
/// SW, DX, DY and ZR, 10 for every other device.
pub open spec fn base_of(d: McDeviceType) -> nat {
    if numbered_in_hex(d) {
        16
    } else {
        10
    }
}

/// The symbol of a device and digits behind it are the address of that device
/// with the number that the digits stand for in the base of the device; a dot
/// and decimal digits behind them are the bit.
pub proof fn digits_are_read_in_the_base_of_the_device(
    d: McDeviceType,
    head: Seq<char>,
    bit: Seq<char>,
)
    requires
        head.len() > 0,
        forall|i: int| 0 <= i < head.len() ==> digit_in(#[trigger] head[i], base_of(d)),
        value_of(head, base_of(d)) <= u32::MAX,
        bit.len() > 0,
        forall|i: int| 0 <= i < bit.len() ==> digit_in(#[trigger] bit[i], 10),
        value_of(bit, 10) <= u8::MAX,
    ensures
        parsed(d.symbol_spec() + head) == Ok::<McLogicalAddress, Seq<char>>(
            McLogicalAddress { device: d, head: value_of(head, base_of(d)) as u32, bit: None },
        ),
        parsed(d.symbol_spec() + head + seq!['.'] + bit) == Ok::<McLogicalAddress, Seq<char>>(
            McLogicalAddress {
                device: d,
                head: value_of(head, base_of(d)) as u32,
                bit: Some(value_of(bit, 10) as u8),
            },
        ),
{
    let h = value_of(head, base_of(d)) as u32;
    lemma_value_of(head, base_of(d));
    lemma_value_of(bit, 10);
    lemma_symbol_is_upper(d);
    let a = McLogicalAddress { device: d, head: h, bit: None };
    let s = d.symbol_spec() + head;
    assert(is_written(s, a, d.symbol_spec(), head, Seq::empty()));
    written_addresses_are_parsed(Seq::empty(), s, Seq::empty(), a);
    assert(Seq::<char>::empty() + s + Seq::<char>::empty() =~= s);
    let a2 = McLogicalAddress { device: d, head: h, bit: Some(value_of(bit, 10) as u8) };
    let s2 = d.symbol_spec() + head + seq!['.'] + bit;
    assert(is_written(s2, a2, d.symbol_spec(), head, bit));
    written_addresses_are_parsed(Seq::empty(), s2, Seq::empty(), a2);
    assert(Seq::<char>::empty() + s2 + Seq::<char>::empty() =~= s2);
}

proof fn lemma_value_of(ds: Seq<char>, base: nat)
    requires
        base == 10 || base == 16,
        forall|i: int| 0 <= i < ds.len() ==> digit_in(#[trigger] ds[i], base),
    ensures
        digits_value(ds, base as u32) == value_of(ds, base),
        forall|i: int| 0 <= i < ds.len() ==> digit_value(#[trigger] ds[i]) < base,
    decreases ds.len(),
{
    assert forall|i: int| 0 <= i < ds.len() implies digit_value(#[trigger] ds[i]) < base by {
        assert(digit_in(ds[i], base));
    }
    if ds.len() > 0 {
        let front = ds.drop_last();
        assert forall|i: int| 0 <= i < front.len() implies digit_in(#[trigger] front[i], base) by {
            assert(front[i] == ds[i]);
        }
        lemma_value_of(front, base);
        assert(digit_in(ds[ds.len() - 1], base));
    }
}

/// The command codes.
pub proof fn command_codes()
    ensures
        McCommandKind::DeviceAccessBatchReadBit1E.code_spec() == McCommandCode::Code1E(0x00),
        McCommandKind::DeviceAccessBatchReadWord1E.code_spec() == McCommandCode::Code1E(0x01),
        McCommandKind::DeviceAccessBatchWriteBit1E.code_spec() == McCommandCode::Code1E(0x02),
        McCommandKind::DeviceAccessBatchWriteWord1E.code_spec() == McCommandCode::Code1E(0x03),
        McCommandKind::DeviceAccessRandomWriteBit1E.code_spec() == McCommandCode::Code1E(0x04),
        McCommandKind::DeviceAccessRandomWriteWord1E.code_spec() == McCommandCode::Code1E(0x05),
        McCommandKind::DeviceAccessBatchReadUnits.code_spec() == McCommandCode::Code3E4E(0x0401),
        McCommandKind::DeviceAccessBatchWriteUnits.code_spec() == McCommandCode::Code3E4E(0x1401),
        McCommandKind::DeviceAccessRandomReadUnits.code_spec() == McCommandCode::Code3E4E(0x0403),
        McCommandKind::DeviceAccessRandomWriteUnits.code_spec() == McCommandCode::Code3E4E(0x1402),
        McCommandKind::DeviceAccessBatchReadMultipleBlocks.code_spec() == McCommandCode::Code3E4E(0x0406),
        McCommandKind::DeviceAccessBatchWriteMultipleBlocks.code_spec() == McCommandCode::Code3E4E(0x1406),
        McCommandKind::LabelAccessBatchReadArray.code_spec() == McCommandCode::Code3E4E(0x041A),
        McCommandKind::LabelAccessBatchWriteArray.code_spec() == McCommandCode::Code3E4E(0x141A),
        McCommandKind::LabelAccessRandomReadLabels.code_spec() == McCommandCode::Code3E4E(0x041C),
        McCommandKind::LabelAccessRandomWriteLabels.code_spec() == McCommandCode::Code3E4E(0x141B),
        McCommandKind::BufferMemoryBatchRead.code_spec() == McCommandCode::Code3E4E(0x0613),
        McCommandKind::BufferMemoryBatchWrite.code_spec() == McCommandCode::Code3E4E(0x1613),
        McCommandKind::BufferMemoryIFModuleBatchRead.code_spec() == McCommandCode::Code3E4E(0x0601),
        McCommandKind::BufferMemoryIFModuleBatchWrite.code_spec() == McCommandCode::Code3E4E(0x1601),
        McCommandKind::ModuleControlRemoteRun.code_spec() == McCommandCode::Code3E4E(0x1001),
        McCommandKind::ModuleControlRemoteStop.code_spec() == McCommandCode::Code3E4E(0x1002),
        McCommandKind::ModuleControlRemotePause.code_spec() == McCommandCode::Code3E4E(0x1003),
        McCommandKind::ModuleControlRemoteLatchClear.code_spec() == McCommandCode::Code3E4E(0x1005),
        McCommandKind::ModuleControlRemoteReset.code_spec() == McCommandCode::Code3E4E(0x1006),
        McCommandKind::ModuleControlReadCpuModelName.code_spec() == McCommandCode::Code3E4E(0x0101),
        McCommandKind::ModuleControlPasswordUnlock.code_spec() == McCommandCode::Code3E4E(0x1630),
        McCommandKind::ModuleControlPasswordLock.code_spec() == McCommandCode::Code3E4E(0x1631),
        McCommandKind::ModuleControlLoopbackTest.code_spec() == McCommandCode::Code3E4E(0x0619),
        McCommandKind::ModuleControlClearErrorInformation.code_spec() == McCommandCode::Code3E4E(0x1617),
{
}

/// The subcommand is 2 where an iQ-R is asked for batch or random device
/// access, else 0.
pub proof fn subcommands(k: McCommandKind, series: McSeries)
    ensures
        k.subcommand_spec(series) == 2 <==> (series is IQR && (k.code_spec()
            == McCommandCode::Code3E4E(0x0401) || k.code_spec() == McCommandCode::Code3E4E(0x1401)
            || k.code_spec() == McCommandCode::Code3E4E(0x0403) || k.code_spec()
            == McCommandCode::Code3E4E(0x1402))),
        k.subcommand_spec(series) == 2 || k.subcommand_spec(series) == 0,
{
}

/// The request sub-headers and the frame variants of the series.
pub proof fn frame_families()
    ensures
        McFrameVariant::Frame1EBinary.sub_header_spec() == 0,
        McFrameVariant::Frame3EBinary.sub_header_spec() == 0x50,
        McFrameVariant::Frame3EAscii.sub_header_spec() == 0x50,
        McFrameVariant::Frame4EBinary.sub_header_spec() == 0x54,
        McFrameVariant::Frame4EAscii.sub_header_spec() == 0x54,
        McSeries::A.frame_variant_spec() == McFrameVariant::Frame1EBinary,
        McSeries::QnA.frame_variant_spec() == McFrameVariant::Frame3EBinary,
        McSeries::QL.frame_variant_spec() == McFrameVariant::Frame3EBinary,
        McSeries::IQR.frame_variant_spec() == McFrameVariant::Frame3EBinary,
{
}

/// The limits of one request, series by series.
pub proof fn series_limits()
    ensures
        McSeries::A.batch_words_max() == 10,
        McSeries::QnA.batch_words_max() == 480,
        McSeries::QL.batch_words_max() == 960,
        McSeries::IQR.batch_words_max() == 960,
        McSeries::A.random_read_words_max() == 0,
        McSeries::QnA.random_read_words_max() == 96,
        McSeries::QL.random_read_words_max() == 192,
        McSeries::IQR.random_read_words_max() == 96,
        McSeries::A.random_write_words_max() == 10,
        McSeries::QnA.random_write_words_max() == 960,
        McSeries::QL.random_write_words_max() == 1920,
        McSeries::IQR.random_write_words_max() == 960,
        McSeries::A.random_write_bits_max() == 80,
        McSeries::QnA.random_write_bits_max() == 94,
        McSeries::QL.random_write_bits_max() == 188,
        McSeries::IQR.random_write_bits_max() == 94,
{
}

/// The monitoring timer counts whole quarters of a second that the timeout
/// holds, but never less than one nor more than 16 bits hold.
pub proof fn monitoring_timer_counts_quarters(timeout_ms: u32)
    ensures
        timer_units(timeout_ms) >= 1,
        250 <= timeout_ms < 0x10000 * 250 ==> timer_units(timeout_ms) * 250 <= timeout_ms < (
        timer_units(timeout_ms) + 1) * 250,
        timeout_ms < 250 ==> timer_units(timeout_ms) == 1,
        timeout_ms >= 0x10000 * 250 ==> timer_units(timeout_ms) == 0xFFFF,
{
}

/// Requests go to the CPU of the own station.
pub proof fn requests_take_the_default_route(frame_variant: McFrameVariant, timeout_ms: u32)
    ensures
        ({
            let h = req_header_3e(frame_variant, timeout_ms);
            &&& h.route.network_number == 0
            &&& h.route.pc_number == 0xFF
            &&& h.route.module_io_number == 0x3FF
            &&& h.route.station_number == 0
            &&& h.sub_header == frame_variant.sub_header_spec()
            &&& h.common.monitoring_timer == timer_units(timeout_ms)
        }),
{
}

/// The five bytes of a route.
pub proof fn route_bytes(r: McRoute3E4E)
    ensures
        r.encoded().len() == 5,
        r.encoded()[0] == r.network_number,
        r.encoded()[1] == r.pc_number,
        r.encoded()[2] + 256 * r.encoded()[3] == r.module_io_number,
        r.encoded()[4] == r.station_number,
{
    lemma_le2(r.module_io_number as nat);
}

/// The four bytes of a 1E request header.
pub proof fn header_bytes_1e(h: McHeader1EReq)
    ensures
        h.encoded().len() == 4,
        h.encoded()[0] == h.sub_header,
        h.encoded()[1] == h.route.pc_number,
        h.encoded()[2] + 256 * h.encoded()[3] == h.common.monitoring_timer,
{
    lemma_le2(h.common.monitoring_timer as nat);
}

/// The eleven bytes of a 3E request header.
pub proof fn header_bytes_3e(h: McHeader3EReq)
    ensures
        h.encoded().len() == 11,
        h.encoded()[0] + 256 * h.encoded()[1] == h.sub_header,
        h.encoded()[2] == h.route.network_number,
        h.encoded()[3] == h.route.pc_number,
        h.encoded()[4] + 256 * h.encoded()[5] == h.route.module_io_number,
        h.encoded()[6] == h.route.station_number,
        h.encoded()[7] + 256 * h.encoded()[8] == h.data_length,
        h.encoded()[9] + 256 * h.encoded()[10] == h.common.monitoring_timer,
{
    lemma_le2(h.sub_header as nat);
    lemma_le2(h.route.module_io_number as nat);
    lemma_le2(h.data_length as nat);
    lemma_le2(h.common.monitoring_timer as nat);
}

/// The fifteen bytes of a 4E request header.
pub proof fn header_bytes_4e(h: McHeader4EReq)
    ensures
        h.encoded().len() == 15,
        h.encoded()[0] + 256 * h.encoded()[1] == h.sub_header,
        h.encoded()[2] + 256 * h.encoded()[3] == h.serial_number,
        h.encoded()[4] + 256 * h.encoded()[5] == h.fixed_number,
        h.encoded()[6] == h.route.network_number,
        h.encoded()[7] == h.route.pc_number,
        h.encoded()[8] + 256 * h.encoded()[9] == h.route.module_io_number,
        h.encoded()[10] == h.route.station_number,
        h.encoded()[11] + 256 * h.encoded()[12] == h.data_length,
        h.encoded()[13] + 256 * h.encoded()[14] == h.common.monitoring_timer,
{
    lemma_le2(h.sub_header as nat);
    lemma_le2(h.serial_number as nat);
    lemma_le2(h.fixed_number as nat);
    lemma_le2(h.route.module_io_number as nat);
    lemma_le2(h.data_length as nat);
    lemma_le2(h.common.monitoring_timer as nat);
}

/// Where the fields of a 3E acknowledge stand: a frame is complete with its
/// eleven bytes of header and with nine bytes more than the length field
/// counts, and what follows the header is the payload.
pub proof fn ack_bytes_3e(b: Seq<u8>)
    requires
        b.len() >= 11,
    ensures
        ack_3e_of(b).sub_header == b[0] + 256 * b[1],
        ack_3e_of(b).route.network_number == b[2],
        ack_3e_of(b).route.pc_number == b[3],
        ack_3e_of(b).route.module_io_number == b[4] + 256 * b[5],
        ack_3e_of(b).route.station_number == b[6],
        ack_3e_of(b).data_length == b[7] + 256 * b[8],
        ack_3e_of(b).end_code == b[9] + 256 * b[10],
        ack_frame_len(McFrameVariant::Frame3EBinary, b) == 9 + b[7] + 256 * b[8],
        ack_complete(McFrameVariant::Frame3EBinary, b) <==> b.len() >= 9 + b[7] + 256 * b[8],
        b[7] + 256 * b[8] >= 2 && ack_complete(McFrameVariant::Frame3EBinary, b) ==> ack_payload(
            McFrameVariant::Frame3EBinary,
            b,
        ) == b.subrange(11, 9 + b[7] + 256 * b[8]),
{
    assert(b.subrange(11, 11) =~= Seq::empty());
}

/// Where the fields of a 4E acknowledge stand, as for 3E with a header of
/// fifteen bytes.
pub proof fn ack_bytes_4e(b: Seq<u8>)
    requires
        b.len() >= 15,
    ensures
        ack_4e_of(b).sub_header == b[0] + 256 * b[1],
        ack_4e_of(b).serial_number == b[2] + 256 * b[3],
        ack_4e_of(b).fixed_number == b[4] + 256 * b[5],
        ack_4e_of(b).route.network_number == b[6],
        ack_4e_of(b).route.pc_number == b[7],
        ack_4e_of(b).route.module_io_number == b[8] + 256 * b[9],
        ack_4e_of(b).route.station_number == b[10],
        ack_4e_of(b).data_length == b[11] + 256 * b[12],
        ack_4e_of(b).end_code == b[13] + 256 * b[14],
        ack_frame_len(McFrameVariant::Frame4EBinary, b) == 13 + b[11] + 256 * b[12],
        ack_complete(McFrameVariant::Frame4EBinary, b) <==> b.len() >= 13 + b[11] + 256 * b[12],
        b[11] + 256 * b[12] >= 2 && ack_complete(McFrameVariant::Frame4EBinary, b) ==> ack_payload(
            McFrameVariant::Frame4EBinary,
            b,
        ) == b.subrange(15, 13 + b[11] + 256 * b[12]),
{
    assert(b.subrange(15, 15) =~= Seq::empty());
}

/// A device address: QnA, Q and L series have the head number in three bytes
/// and the device code in one, iQ-R and A series in four and two bytes.
pub proof fn device_address_bytes(series: McSeries, head: u32, device_code: u16)
    ensures
        ({
            let b = device_addr(series, head, device_code);
            if series is QnA || series is QL {
                &&& b.len() == 4
                &&& b[0] + 256 * b[1] + 65536 * b[2] == head % 0x100_0000
                &&& b[3] == device_code % 256
            } else {
                &&& b.len() == 6
                &&& b[0] + 256 * b[1] + 65536 * b[2] + 0x100_0000 * b[3] == head
                &&& b[4] + 256 * b[5] == device_code
            }
        }),
{
    lemma_le3(head as nat);
    lemma_le4(head as nat);
    lemma_le2(device_code as nat);
    reveal_with_fuel(le_bytes, 2);
    assert(le_bytes(device_code as nat, 1) =~= seq![(device_code % 256) as u8]);
}

/// Bytes of one device address.
pub open spec fn address_width(series: McSeries) -> int {
    if series is QnA || series is QL {
        4
    } else {
        6
    }
}

/// Addresses of a random read stand end to end, each in its own place.
pub proof fn addresses_stand_end_to_end(series: McSeries, addrs: Seq<(u32, u16)>, n: int, i: int)
    requires
        0 <= i < n <= addrs.len(),
    ensures
        addrs_encoded(series, addrs, n).len() == n * address_width(series),
        addrs_encoded(series, addrs, n).subrange(
            i * address_width(series),
            i * address_width(series) + address_width(series),
        ) == device_addr(series, addrs[i].0, addrs[i].1),
    decreases n,
{
    let w = address_width(series);
    device_address_bytes(series, addrs[n - 1].0, addrs[n - 1].1);
    let front = addrs_encoded(series, addrs, n - 1);
    let last = device_addr(series, addrs[n - 1].0, addrs[n - 1].1);
    if n > 1 {
        addresses_stand_end_to_end(series, addrs, n - 1, if i < n - 1 {
            i
        } else {
            0
        });
    } else {
        assert(addrs_encoded(series, addrs, 0) =~= Seq::empty());
    }
    assert(front.len() == (n - 1) * w);
    assert(n * w == (n - 1) * w + w) by (nonlinear_arith);
    let all = addrs_encoded(series, addrs, n);
    if i < n - 1 {
        assert(i * w + w <= (n - 1) * w) by (nonlinear_arith)
            requires
                i < n - 1,
                w > 0,
        ;
        assert(0 <= i * w) by (nonlinear_arith)
            requires
                i >= 0,
                w > 0,
        ;
        assert(all.subrange(i * w, i * w + w) =~= front.subrange(i * w, i * w + w));
    } else {
        assert(all.subrange(i * w, i * w + w) =~= last);
    }
}

/// Items of a random write with data of one size stand end to end, each
/// address before its data.
pub proof fn items_stand_end_to_end(
    series: McSeries,
    items: Seq<(u32, u16, Bytes)>,
    size: int,
    n: int,
    i: int,
)
    requires
        0 <= i < n <= items.len(),
        size >= 0,
        forall|j: int| 0 <= j < items.len() ==> bytes_content((#[trigger] items[j]).2).len() == size,
    ensures
        ({
            let w = address_width(series) + size;
            &&& writes_encoded(series, items, n).len() == n * w
            &&& writes_encoded(series, items, n).subrange(i * w, i * w + w) == device_addr(
                series,
                items[i].0,
                items[i].1,
            ) + bytes_content(items[i].2)
        }),
    decreases n,
{
    let w = address_width(series) + size;
    device_address_bytes(series, items[n - 1].0, items[n - 1].1);
    let front = writes_encoded(series, items, n - 1);
    let last = device_addr(series, items[n - 1].0, items[n - 1].1) + bytes_content(items[n - 1].2);
    if n > 1 {
        items_stand_end_to_end(series, items, size, n - 1, if i < n - 1 {
            i
        } else {
            0
        });
    } else {
        assert(writes_encoded(series, items, 0) =~= Seq::empty());
        assert((n - 1) * w == 0) by (nonlinear_arith)
            requires
                n == 1,
        ;
    }
    assert(front.len() == (n - 1) * w);
    assert(n * w == (n - 1) * w + w) by (nonlinear_arith);
    let all = writes_encoded(series, items, n);
    assert(all =~= front + last);
    if i < n - 1 {
        assert(i * w + w <= (n - 1) * w) by (nonlinear_arith)
            requires
                i < n - 1,
                w > 0,
        ;
        assert(0 <= i * w) by (nonlinear_arith)
            requires
                i >= 0,
                w > 0,
        ;
        assert(all.subrange(i * w, i * w + w) =~= front.subrange(i * w, i * w + w));
    } else {
        assert(all.subrange(i * w, i * w + w) =~= last);
    }
}

/// A 3E or 4E request starts with command and subcommand, low byte first.
pub proof fn command_and_subcommand_bytes(pdu: McPdu)
    requires
        pdu.command.code_spec() is Code3E4E,
    ensures
        ({
            let b = pdu.command_bytes();
            &&& b.len() == 4
            &&& b[0] + 256 * b[1] == pdu.command.code_spec()->Code3E4E_0
            &&& b[2] + 256 * b[3] == pdu.command.subcommand_spec(pdu.series)
        }),
{
    lemma_le2(pdu.command.code_spec()->Code3E4E_0 as nat);
    lemma_le2(pdu.command.subcommand_spec(pdu.series) as nat);
}

proof fn lemma_batch(c: Seq<u8>, head: u32, points: u16, device_code: u16, data: Seq<u8>)
    requires
        c.len() == 4,
    ensures
        ({
            let b = c + le_bytes(head as nat, 4) + le_bytes(points as nat, 2) + le_bytes(
                device_code as nat,
                2,
            );
            &&& b.len() == 12
            &&& b.take(4) == c
            &&& b[4] + 256 * b[5] + 65536 * b[6] + 0x100_0000 * b[7] == head
            &&& b[8] + 256 * b[9] == points
            &&& b[10] + 256 * b[11] == device_code
            &&& (b + data).take(12) == b
            &&& (b + data).skip(12) == data
        }),
{
    lemma_le4(head as nat);
    lemma_le2(points as nat);
    lemma_le2(device_code as nat);
    let b = c + le_bytes(head as nat, 4) + le_bytes(points as nat, 2) + le_bytes(
        device_code as nat,
        2,
    );
    assert(b.take(4) =~= c);
    assert((b + data).take(12) =~= b);
    assert((b + data).skip(12) =~= data);
}

/// A batch request: command and subcommand, head number, count of units and
/// device code, low byte first; a write carries its data behind them.
pub proof fn batch_request_bytes(pdu: McPdu)
    requires
        pdu.command is DeviceAccessBatchReadUnits || pdu.command is DeviceAccessBatchWriteUnits,
        pdu.body is Request,
        pdu.body->Request_0 is DeviceAccessBatchReadUnits || pdu.body->Request_0
            is DeviceAccessBatchWriteUnits,
    ensures
        ({
            let b = pdu.encoded();
            let code: int = if pdu.command is DeviceAccessBatchReadUnits {
                0x0401
            } else {
                0x1401
            };
            let sub: int = if pdu.series is IQR {
                2
            } else {
                0
            };
            &&& b[0] + 256 * b[1] == code
            &&& b[2] + 256 * b[3] == sub
            &&& match pdu.body->Request_0 {
                McRequestBody::DeviceAccessBatchReadUnits { head, points, device_code } => {
                    &&& b.len() == 12
                    &&& b[4] + 256 * b[5] + 65536 * b[6] + 0x100_0000 * b[7] == head
                    &&& b[8] + 256 * b[9] == points
                    &&& b[10] + 256 * b[11] == device_code
                },
                McRequestBody::DeviceAccessBatchWriteUnits { head, points, device_code, data } => {
                    &&& b.len() == 12 + bytes_content(data).len()
                    &&& b[4] + 256 * b[5] + 65536 * b[6] + 0x100_0000 * b[7] == head
                    &&& b[8] + 256 * b[9] == points
                    &&& b[10] + 256 * b[11] == device_code
                    &&& b.skip(12) == bytes_content(data)
                },
                _ => true,
            }
        }),
{
    command_codes();
    command_and_subcommand_bytes(pdu);
    let c = pdu.command_bytes();
    let b = pdu.encoded();
    match pdu.body->Request_0 {
        McRequestBody::DeviceAccessBatchReadUnits { head, points, device_code } => {
            lemma_batch(c, head, points, device_code, Seq::empty());
            assert(b.take(4) == c);
        },
        McRequestBody::DeviceAccessBatchWriteUnits { head, points, device_code, data } => {
            lemma_batch(c, head, points, device_code, bytes_content(data));
            assert(b.take(12).take(4) == c);
        },
        _ => {},
    }
}

/// A random request: command and subcommand, the counts of words and of double
/// words in one byte each, at most 255, then the words and the double words.
pub proof fn random_request_bytes(pdu: McPdu)
    requires
        pdu.command is DeviceAccessRandomReadUnits || pdu.command is DeviceAccessRandomWriteUnits,
        pdu.body is Request,
        pdu.body->Request_0 is DeviceAccessRandomReadUnits || pdu.body->Request_0
            is DeviceAccessRandomWriteUnits,
    ensures
        ({
            let b = pdu.encoded();
            let code: int = if pdu.command is DeviceAccessRandomReadUnits {
                0x0403
            } else {
                0x1402
            };
            let sub: int = if pdu.series is IQR {
                2
            } else {
                0
            };
            &&& b[0] + 256 * b[1] == code
            &&& b[2] + 256 * b[3] == sub
            &&& match pdu.body->Request_0 {
                McRequestBody::DeviceAccessRandomReadUnits { word_addrs, dword_addrs } => {
                    &&& word_addrs@.len() <= 255 ==> b[4] == word_addrs@.len()
                    &&& word_addrs@.len() > 255 ==> b[4] == 255
                    &&& dword_addrs@.len() <= 255 ==> b[5] == dword_addrs@.len()
                    &&& dword_addrs@.len() > 255 ==> b[5] == 255
                    &&& b.skip(6) == addrs_encoded(pdu.series, word_addrs@, b[4] as int)
                        + addrs_encoded(pdu.series, dword_addrs@, b[5] as int)
                },
                McRequestBody::DeviceAccessRandomWriteUnits { word_items, dword_items } => {
                    &&& word_items@.len() <= 255 ==> b[4] == word_items@.len()
                    &&& word_items@.len() > 255 ==> b[4] == 255
                    &&& dword_items@.len() <= 255 ==> b[5] == dword_items@.len()
                    &&& dword_items@.len() > 255 ==> b[5] == 255
                    &&& b.skip(6) == writes_encoded(pdu.series, word_items@, b[4] as int)
                        + writes_encoded(pdu.series, dword_items@, b[5] as int)
                },
                _ => true,
            }
        }),
{
    command_codes();
    command_and_subcommand_bytes(pdu);
    let b = pdu.encoded();
    match pdu.body->Request_0 {
        McRequestBody::DeviceAccessRandomReadUnits { word_addrs, dword_addrs } => {
            assert(b.skip(6) =~= addrs_encoded(pdu.series, word_addrs@, b[4] as int)
                + addrs_encoded(pdu.series, dword_addrs@, b[5] as int));
        },
        McRequestBody::DeviceAccessRandomWriteUnits { word_items, dword_items } => {
            assert(b.skip(6) =~= writes_encoded(pdu.series, word_items@, b[4] as int)
                + writes_encoded(pdu.series, dword_items@, b[5] as int));
        },
        _ => {},
    }
}

/// A 3E request on the wire: the header of eleven bytes, with the length of
/// what follows the length field, and the body.
pub proof fn request_bytes_3e(m: McMessage)
    requires
        m.header is Req3E,
        m.body matches Some(McAppBody::Parsed(pdu)) && pdu.encoded().len() <= 0xFFFD,
    ensures
        ({
            let b = message_bytes(m);
            let h = m.header->Req3E_0;
            let pdu = m.body->Some_0->Parsed_0;
            &&& b.len() == 11 + pdu.encoded().len()
            &&& b[0] + 256 * b[1] == h.sub_header
            &&& b[2] == h.route.network_number
            &&& b[3] == h.route.pc_number
            &&& b[4] + 256 * b[5] == h.route.module_io_number
            &&& b[6] == h.route.station_number
            &&& b[7] + 256 * b[8] == b.len() - 9
            &&& b[9] + 256 * b[10] == h.common.monitoring_timer
            &&& b.skip(11) == pdu.encoded()
        }),
{
    let h = m.header->Req3E_0;
    let pdu = m.body->Some_0->Parsed_0;
    let sent = McHeader3EReq { data_length: (pdu.encoded().len() + 2) as u16, ..h };
    header_bytes_3e(sent);
    assert(message_bytes(m) == sent.encoded() + pdu.encoded());
    assert(message_bytes(m).skip(11) =~= pdu.encoded());
}

/// A 4E request on the wire: the header of fifteen bytes, with the length of
/// what follows the length field, and the body.
pub proof fn request_bytes_4e(m: McMessage)
    requires
        m.header is Req4E,
        m.body matches Some(McAppBody::Parsed(pdu)) && pdu.encoded().len() <= 0xFFFD,
    ensures
        ({
            let b = message_bytes(m);
            let h = m.header->Req4E_0;
            let pdu = m.body->Some_0->Parsed_0;
            &&& b.len() == 15 + pdu.encoded().len()
            &&& b[0] + 256 * b[1] == h.sub_header
            &&& b[2] + 256 * b[3] == h.serial_number
            &&& b[4] + 256 * b[5] == h.fixed_number
            &&& b[6] == h.route.network_number
            &&& b[7] == h.route.pc_number
            &&& b[8] + 256 * b[9] == h.route.module_io_number
            &&& b[10] == h.route.station_number
            &&& b[11] + 256 * b[12] == b.len() - 13
            &&& b[13] + 256 * b[14] == h.common.monitoring_timer
            &&& b.skip(15) == pdu.encoded()
        }),
{
    let h = m.header->Req4E_0;
    let pdu = m.body->Some_0->Parsed_0;
    let sent = McHeader4EReq { data_length: (pdu.encoded().len() + 2) as u16, ..h };
    header_bytes_4e(sent);
    assert(message_bytes(m) == sent.encoded() + pdu.encoded());
    assert(message_bytes(m).skip(15) =~= pdu.encoded());
}

} // verus!
