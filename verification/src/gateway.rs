//! The part of the gateway's data model that the drivers decide on.

use crate::text::{decimal, decimal_text, text3};
use bytes::Bytes;
use vstd::prelude::*;

verus! {

/// Data type of a point or parameter.
#[derive(Debug, Clone, Copy, PartialEq, Eq, Structural)]
pub enum DataType {
    Boolean,
    Int8,
    UInt8,
    Int16,
    UInt16,
    Int32,
    UInt32,
    Int64,
    UInt64,
    Float32,
    Float64,
    String,
    Binary,
    Timestamp,
}

impl DataType {
    /// Name of a data type.
    pub open spec fn name_spec(self) -> Seq<char> {
        match self {
            DataType::Boolean => "Boolean"@,
            DataType::Int8 => "Int8"@,
            DataType::UInt8 => "UInt8"@,
            DataType::Int16 => "Int16"@,
            DataType::UInt16 => "UInt16"@,
            DataType::Int32 => "Int32"@,
            DataType::UInt32 => "UInt32"@,
            DataType::Int64 => "Int64"@,
            DataType::UInt64 => "UInt64"@,
            DataType::Float32 => "Float32"@,
            DataType::Float64 => "Float64"@,
            DataType::String => "String"@,
            DataType::Binary => "Binary"@,
            DataType::Timestamp => "Timestamp"@,
        }
    }

    /// Name of a data type.
    pub fn name(&self) -> (r: &'static str)
        ensures
            r@ == self.name_spec(),
    {
        match self {
            DataType::Boolean => "Boolean",
            DataType::Int8 => "Int8",
            DataType::UInt8 => "UInt8",
            DataType::Int16 => "Int16",
            DataType::UInt16 => "UInt16",
            DataType::Int32 => "Int32",
            DataType::UInt32 => "UInt32",
            DataType::Int64 => "Int64",
            DataType::UInt64 => "UInt64",
            DataType::Float32 => "Float32",
            DataType::Float64 => "Float64",
            DataType::String => "String",
            DataType::Binary => "Binary",
            DataType::Timestamp => "Timestamp",
        }
    }
}

/// Who may access a point.
#[derive(Debug, Clone, Copy, PartialEq, Eq, Structural)]
pub enum AccessMode {
    Read,
    Write,
    ReadWrite,
}

impl AccessMode {
    /// Values may be read.
    pub open spec fn readable_spec(self) -> bool {
        self is Read || self is ReadWrite
    }

    /// Values may be written.
    pub open spec fn writeable_spec(self) -> bool {
        self is Write || self is ReadWrite
    }

    /// Values may be read.
    pub fn is_readable(&self) -> (r: bool)
        ensures
            r == self.readable_spec(),
    {
        matches!(self, AccessMode::Read | AccessMode::ReadWrite)
    }

    /// Values may be written.
    pub fn is_writeable(&self) -> (r: bool)
        ensures
            r == self.writeable_spec(),
    {
        matches!(self, AccessMode::Write | AccessMode::ReadWrite)
    }
}

/// Channel on which values of a point are published.
#[derive(Debug, Clone, Copy, PartialEq, Eq, Structural)]
pub enum DataPointType {
    Telemetry,
    Attribute,
}

/// A value of the gateway. Floating-point numbers are held as their IEEE 754
/// bit patterns.
#[derive(Debug, Clone)]
pub enum NGValue {
    Boolean(bool),
    Int8(i8),
    UInt8(u8),
    Int16(i16),
    UInt16(u16),
    Int32(i32),
    UInt32(u32),
    Int64(i64),
    UInt64(u64),
    Float32(u32),
    Float64(u64),
    String(String),
    Binary(Bytes),
    Timestamp(i64),
}

impl NGValue {
    /// Data type of a value.
    pub open spec fn type_spec(self) -> DataType {
        match self {
            NGValue::Boolean(_) => DataType::Boolean,
            NGValue::Int8(_) => DataType::Int8,
            NGValue::UInt8(_) => DataType::UInt8,
            NGValue::Int16(_) => DataType::Int16,
            NGValue::UInt16(_) => DataType::UInt16,
            NGValue::Int32(_) => DataType::Int32,
            NGValue::UInt32(_) => DataType::UInt32,
            NGValue::Int64(_) => DataType::Int64,
            NGValue::UInt64(_) => DataType::UInt64,
            NGValue::Float32(_) => DataType::Float32,
            NGValue::Float64(_) => DataType::Float64,
            NGValue::String(_) => DataType::String,
            NGValue::Binary(_) => DataType::Binary,
            NGValue::Timestamp(_) => DataType::Timestamp,
        }
    }

    /// Data type of a value.
    pub fn data_type(&self) -> (r: DataType)
        ensures
            r == self.type_spec(),
    {
        match self {
            NGValue::Boolean(_) => DataType::Boolean,
            NGValue::Int8(_) => DataType::Int8,
            NGValue::UInt8(_) => DataType::UInt8,
            NGValue::Int16(_) => DataType::Int16,
            NGValue::UInt16(_) => DataType::UInt16,
            NGValue::Int32(_) => DataType::Int32,
            NGValue::UInt32(_) => DataType::UInt32,
            NGValue::Int64(_) => DataType::Int64,
            NGValue::UInt64(_) => DataType::UInt64,
            NGValue::Float32(_) => DataType::Float32,
            NGValue::Float64(_) => DataType::Float64,
            NGValue::String(_) => DataType::String,
            NGValue::Binary(_) => DataType::Binary,
            NGValue::Timestamp(_) => DataType::Timestamp,
        }
    }
}

/// Error of a driver operation.
#[derive(Debug, Clone)]
pub enum DriverError {
    /// Configuration does not allow the operation.
    ConfigurationError(String),
    /// Arguments do not allow the operation.
    ValidationError(String),
    /// The operation failed.
    ExecutionError(String),
    /// No session is active.
    ServiceUnavailable,
    /// The session could not be established.
    SessionError(String),
    /// The operation did not finish in time (milliseconds).
    Timeout(u64),
}

/// A configuration error with this text.
pub open spec fn config_error(e: DriverError, text: Seq<char>) -> bool {
    e matches DriverError::ConfigurationError(s) && s@ == text
}

/// A validation error with this text.
pub open spec fn validation_error(e: DriverError, text: Seq<char>) -> bool {
    e matches DriverError::ValidationError(s) && s@ == text
}

/// An execution error with this text.
pub open spec fn execution_error(e: DriverError, text: Seq<char>) -> bool {
    e matches DriverError::ExecutionError(s) && s@ == text
}

/// Timeouts of a channel's connections in milliseconds.
#[derive(Debug, Clone, Copy, PartialEq, Eq, Structural)]
pub struct ConnectionPolicy {
    pub connect_timeout_ms: u64,
    pub read_timeout_ms: u64,
    pub write_timeout_ms: u64,
}

/// Whether a failed attempt is worth another one.
#[derive(Debug, Clone, Copy, PartialEq, Eq, Structural)]
pub enum FailureKind {
    Retryable,
    Fatal,
}

/// Request counters of a driver.
#[derive(Debug, Clone, Copy, PartialEq, Eq, Structural)]
pub struct Metrics {
    /// All requests.
    pub total: u64,
    /// Requests that succeeded.
    pub successful: u64,
    /// Requests that failed.
    pub failed: u64,
    /// Moving average of the response time in milliseconds.
    pub average_ms: u64,
}

/// A counter one further; the greatest count is followed by 0.
pub open spec fn counted(n: u64) -> u64 {
    if n == u64::MAX {
        0
    } else {
        (n + 1) as u64
    }
}

/// Nine times a number, at most what 64 bits hold.
pub open spec fn nine_times(n: u64) -> int {
    if n * 9 > u64::MAX {
        u64::MAX as int
    } else {
        n * 9
    }
}

/// The moving average after a response: the response time itself for the
/// first one, else nine parts old average and one part new time.
pub open spec fn moved_average(prev: u64, elapsed_ms: u64) -> u64 {
    if prev == 0 {
        elapsed_ms
    } else {
        ((nine_times(prev) + elapsed_ms) / 10) as u64
    }
}

/// The moving average after a response. A sum that 64 bits do not hold is
/// left out.
pub fn next_average(prev: u64, elapsed_ms: u64) -> (r: u64)
    requires
        prev != 0 ==> nine_times(prev) + elapsed_ms <= u64::MAX,
    ensures
        r == moved_average(prev, elapsed_ms),
{
    if prev == 0 {
        elapsed_ms
    } else {
        let nine: u64 = match prev.checked_mul(9) {
            Some(x) => x,
            None => u64::MAX,
        };
        (nine + elapsed_ms) / 10
    }
}

impl Metrics {
    /// Counters of a driver that has seen no request.
    pub fn new() -> (r: Self)
        ensures
            r == (Metrics { total: 0, successful: 0, failed: 0, average_ms: 0 }),
    {
        Metrics { total: 0, successful: 0, failed: 0, average_ms: 0 }
    }

    /// Count a request; the average moves with successful ones only.
    pub fn record(&mut self, success: bool, elapsed_ms: u64)
        requires
            success && old(self).average_ms != 0 ==> nine_times(old(self).average_ms) + elapsed_ms
                <= u64::MAX,
        ensures
            final(self).total == counted(old(self).total),
            final(self).successful == if success {
                counted(old(self).successful)
            } else {
                old(self).successful
            },
            final(self).failed == if success {
                old(self).failed
            } else {
                counted(old(self).failed)
            },
            final(self).average_ms == if success {
                moved_average(old(self).average_ms, elapsed_ms)
            } else {
                old(self).average_ms
            },
    {
        self.total = self.total.wrapping_add(1);
        if success {
            self.successful = self.successful.wrapping_add(1);
            self.average_ms = next_average(self.average_ms, elapsed_ms);
        } else {
            self.failed = self.failed.wrapping_add(1);
        }
    }
}

/// Every request is counted either as successful or as failed: where the
/// counters agree before a request and do not pass their maximum, they agree
/// after it.
pub proof fn counters_agree(before: Metrics, after: Metrics, success: bool)
    requires
        before.total == before.successful + before.failed,
        before.total < u64::MAX,
        after.total == counted(before.total),
        after.successful == if success {
            counted(before.successful)
        } else {
            before.successful
        },
        after.failed == if success {
            before.failed
        } else {
            counted(before.failed)
        },
    ensures
        after.total == after.successful + after.failed,
{
}

/// The moving average stays between the old average and the new time, up to
/// rounding down.
pub proof fn average_stays_between(prev: u64, elapsed_ms: u64)
    requires
        prev != 0,
        prev * 9 <= u64::MAX,
        nine_times(prev) + elapsed_ms <= u64::MAX,
    ensures
        prev <= elapsed_ms ==> prev <= moved_average(prev, elapsed_ms) <= elapsed_ms,
        elapsed_ms <= prev ==> elapsed_ms <= moved_average(prev, elapsed_ms) <= prev,
{
}

/// Host and port, as `host:port`.
pub fn address_text(host: &str, port: u16) -> (r: String)
    ensures
        r@ == host@ + ":"@ + decimal(port as nat),
{
    let port_text = decimal_text(port as u64);
    text3(host, ":", port_text.as_str())
}

/// The error for an address that is none.
pub fn invalid_address(why: &str) -> (r: DriverError)
    ensures
        config_error(r, "Invalid socket address: "@ + why@),
{
    let text = text3("Invalid socket address: ", why, "");
    proof {
        reveal_strlit("");
        assert(text@ =~= "Invalid socket address: "@ + why@);
    }
    DriverError::ConfigurationError(text)
}

/// Refuse a value whose data type is not valid for the point.
pub fn check_data_type(valid: bool, expected: DataType, got: DataType) -> (r: Result<
    (),
    DriverError,
>)
    ensures
        if valid {
            r is Ok
        } else {
            r matches Err(e) && validation_error(
                e,
                "type mismatch: expected "@ + expected.name_spec() + ", got "@ + got.name_spec(),
            )
        },
{
    if valid {
        Ok(())
    } else {
        let head = text3("type mismatch: expected ", expected.name(), ", got ");
        let e = text3(head.as_str(), got.name(), "");
        proof {
            reveal_strlit("");
            assert(e@ =~= "type mismatch: expected "@ + expected.name_spec() + ", got "@
                + got.name_spec());
        }
        Err(DriverError::ValidationError(e))
    }
}

/// How long a write may take: as asked for, else as the channel's policy
/// says; at least 1 ms.
pub open spec fn write_timeout_spec(timeout_ms: Option<u64>, policy_ms: u64) -> u64 {
    let ms = match timeout_ms {
        Some(t) => t,
        None => policy_ms,
    };
    if ms == 0 {
        1
    } else {
        ms
    }
}

/// How long a write may take.
pub fn write_timeout(timeout_ms: Option<u64>, policy_ms: u64) -> (r: u64)
    ensures
        r == write_timeout_spec(timeout_ms, policy_ms),
{
    let ms: u64 = match timeout_ms {
        Some(t) => t,
        None => policy_ms,
    };
    if ms == 0 {
        1
    } else {
        ms
    }
}

/// How a write ended.
pub enum WriteEnd {
    /// The device has acknowledged it.
    Done,
    /// It failed with this error.
    Failed(String),
    /// It took longer than it may.
    Elapsed,
}

/// The outcome of a write that could take `timeout_ms`.
pub fn write_outcome(end: WriteEnd, timeout_ms: u64) -> (r: Result<(), DriverError>)
    ensures
        match end {
            WriteEnd::Done => r is Ok,
            WriteEnd::Failed(text) => r matches Err(e) && execution_error(e, text@),
            WriteEnd::Elapsed => r == Err::<(), DriverError>(DriverError::Timeout(timeout_ms)),
        },
{
    match end {
        WriteEnd::Done => Ok(()),
        WriteEnd::Failed(text) => Err(DriverError::ExecutionError(text)),
        WriteEnd::Elapsed => Err(DriverError::Timeout(timeout_ms)),
    }
}

/// A value of a point.
#[derive(Debug, Clone)]
pub struct PointValue {
    pub point_id: i32,
    pub point_key: String,
    pub value: NGValue,
}

/// A value of a point with the device and the channel it is published on.
pub struct RoutedValue {
    pub device_id: i32,
    pub kind: DataPointType,
    pub value: PointValue,
}

/// The values of a device, by channel.
pub struct DeviceBuffers {
    pub device_id: i32,
    pub device_name: String,
    pub telemetry: Vec<PointValue>,
    pub attributes: Vec<PointValue>,
}

/// The values for a device on one channel, in the order in which they came.
pub open spec fn values_for(values: Seq<RoutedValue>, device_id: i32, kind: DataPointType) -> Seq<
    PointValue,
>
    decreases values.len(),
{
    if values.len() == 0 {
        Seq::empty()
    } else {
        let before = values_for(values.drop_last(), device_id, kind);
        let v = values.last();
        if v.device_id == device_id && v.kind == kind {
            before.push(v.value)
        } else {
            before
        }
    }
}

/// Where a device first occurs in a list.
pub open spec fn first_device(devices: Seq<(i32, String)>, device_id: i32) -> int
    decreases devices.len(),
{
    if devices.len() == 0 || devices[0].0 == device_id {
        0
    } else {
        1 + first_device(devices.skip(1), device_id)
    }
}

/// The device occurs in the list.
pub open spec fn has_device(devices: Seq<(i32, String)>, device_id: i32) -> bool {
    exists|i: int| 0 <= i < devices.len() && #[trigger] devices[i].0 == device_id
}

/// One buffer per device, in the order of device identifiers.
pub open spec fn sorted_by_device(bufs: Seq<DeviceBuffers>) -> bool {
    forall|i: int, j: int|
        0 <= i < j < bufs.len() ==> (#[trigger] bufs[i]).device_id < (#[trigger] bufs[j]).device_id
}

/// There is a buffer for the device.
pub open spec fn has_buffer(bufs: Seq<DeviceBuffers>, device_id: i32) -> bool {
    exists|j: int| 0 <= j < bufs.len() && (#[trigger] bufs[j]).device_id == device_id
}

pub proof fn lemma_first_device(devices: Seq<(i32, String)>, device_id: i32)
    ensures
        0 <= first_device(devices, device_id) <= devices.len(),
        first_device(devices, device_id) < devices.len() ==> devices[first_device(
            devices,
            device_id,
        )].0 == device_id,
        forall|k: int| 0 <= k < first_device(devices, device_id) ==> devices[k].0 != device_id,
    decreases devices.len(),
{
    if devices.len() > 0 && devices[0].0 != device_id {
        let rest = devices.skip(1);
        lemma_first_device(rest, device_id);
        assert forall|k: int| 0 <= k < first_device(devices, device_id) implies devices[k].0
            != device_id by {
            if k > 0 {
                assert(rest[k - 1] == devices[k]);
            }
        }
    }
}

/// Where the first occurrence is: the place whose device it is, with no
/// earlier one.
proof fn lemma_is_first(devices: Seq<(i32, String)>, device_id: i32, i: int)
    requires
        0 <= i < devices.len(),
        devices[i].0 == device_id,
        forall|k: int| 0 <= k < i ==> devices[k].0 != device_id,
    ensures
        first_device(devices, device_id) == i,
{
    lemma_first_device(devices, device_id);
}

/// Where the device's buffer is, or where it would be.
fn buffer_place(bufs: &Vec<DeviceBuffers>, device_id: i32) -> (r: usize)
    requires
        sorted_by_device(bufs@),
    ensures
        r <= bufs@.len(),
        forall|j: int| 0 <= j < r ==> (#[trigger] bufs@[j]).device_id < device_id,
        forall|j: int| r <= j < bufs@.len() ==> (#[trigger] bufs@[j]).device_id >= device_id,
{
    let mut lo: usize = 0;
    let mut hi: usize = bufs.len();
    while lo < hi
        invariant
            lo <= hi <= bufs.len(),
            sorted_by_device(bufs@),
            forall|j: int| 0 <= j < lo ==> (#[trigger] bufs@[j]).device_id < device_id,
            forall|j: int| hi <= j < bufs@.len() ==> (#[trigger] bufs@[j]).device_id >= device_id,
        decreases hi - lo,
    {
        let mid: usize = lo + (hi - lo) / 2;
        if bufs[mid].device_id < device_id {
            lo = mid + 1;
        } else {
            hi = mid;
        }
    }
    lo
}

/// An empty buffer for each device, in the order of device identifiers. A
/// device that is listed again keeps its first name.
pub fn open_buffers(devices: &Vec<(i32, String)>) -> (bufs: Vec<DeviceBuffers>)
    ensures
        sorted_by_device(bufs@),
        forall|d: i32| has_device(devices@, d) <==> #[trigger] has_buffer(bufs@, d),
        forall|j: int|
            0 <= j < bufs@.len() ==> {
                &&& (#[trigger] bufs@[j]).device_name@ == devices@[first_device(
                    devices@,
                    bufs@[j].device_id,
                )].1@
                &&& bufs@[j].telemetry@.len() == 0
                &&& bufs@[j].attributes@.len() == 0
            },
{
    let mut bufs: Vec<DeviceBuffers> = Vec::new();
    for i in 0..devices.len()
        invariant
            sorted_by_device(bufs@),
            bufs@.len() <= i,
            forall|j: int|
                0 <= j < bufs@.len() ==> {
                    &&& 0 <= first_device(devices@, (#[trigger] bufs@[j]).device_id) < i
                    &&& bufs@[j].device_name@ == devices@[first_device(
                        devices@,
                        bufs@[j].device_id,
                    )].1@
                    &&& bufs@[j].telemetry@.len() == 0
                    &&& bufs@[j].attributes@.len() == 0
                },
            forall|k: int| 0 <= k < i ==> has_buffer(bufs@, (#[trigger] devices@[k]).0),
    {
        let id: i32 = devices[i].0;
        let at: usize = buffer_place(&bufs, id);
        if at == bufs.len() || bufs[at].device_id != id {
            let ghost before = bufs@;
            proof {
                assert forall|k: int| 0 <= k < i implies devices@[k].0 != id by {
                    assert(has_buffer(before, devices@[k].0));
                    let j = choose|j: int|
                        0 <= j < before.len() && (#[trigger] before[j]).device_id == devices@[k].0;
                    if devices@[k].0 == id {
                        assert(j >= at);
                        if j > at {
                            assert(before[at as int].device_id < before[j].device_id);
                        }
                    }
                }
                lemma_is_first(devices@, id, i as int);
            }
            bufs.insert(
                at,
                DeviceBuffers {
                    device_id: id,
                    device_name: devices[i].1.clone(),
                    telemetry: Vec::new(),
                    attributes: Vec::new(),
                },
            );
            proof {
                assert forall|d: i32| has_buffer(before, d) implies #[trigger] has_buffer(
                    bufs@,
                    d,
                ) by {
                    let j = choose|j: int|
                        0 <= j < before.len() && (#[trigger] before[j]).device_id == d;
                    if j < at {
                        assert(bufs@[j] == before[j]);
                    } else {
                        assert(bufs@[j + 1] == before[j]);
                    }
                }
                assert(bufs@[at as int].device_id == id);
                assert forall|j: int| 0 <= j < bufs@.len() && j != at implies exists|q: int|
                    0 <= q < before.len() && #[trigger] bufs@[j] == before[q] by {
                    if j < at {
                        assert(bufs@[j] == before[j]);
                    } else {
                        assert(bufs@[j] == before[j - 1]);
                    }
                }
            }
        } else {
            assert(bufs@[at as int].device_id == id);
            assert(has_buffer(bufs@, id));
        }
    }
    proof {
        assert forall|d: i32| has_device(devices@, d) <==> #[trigger] has_buffer(bufs@, d) by {
            if has_device(devices@, d) {
                let k = choose|k: int| 0 <= k < devices@.len() && #[trigger] devices@[k].0 == d;
                assert(has_buffer(bufs@, devices@[k].0));
            }
            if has_buffer(bufs@, d) {
                let j = choose|j: int| 0 <= j < bufs@.len() && (#[trigger] bufs@[j]).device_id == d;
                lemma_first_device(devices@, d);
                assert(devices@[first_device(devices@, d)].0 == d);
            }
        }
    }
    bufs
}

/// Sort the values into the buffers of their devices, each channel in the
/// order in which the values came. Values of other devices are dropped.
pub fn fill_buffers(bufs: &mut Vec<DeviceBuffers>, values: Vec<RoutedValue>)
    requires
        sorted_by_device(old(bufs)@),
        forall|j: int|
            0 <= j < old(bufs)@.len() ==> (#[trigger] old(bufs)@[j]).telemetry@.len() == 0
                && old(bufs)@[j].attributes@.len() == 0,
    ensures
        final(bufs)@.len() == old(bufs)@.len(),
        forall|j: int|
            0 <= j < final(bufs)@.len() ==> {
                &&& (#[trigger] final(bufs)@[j]).device_id == old(bufs)@[j].device_id
                &&& final(bufs)@[j].device_name == old(bufs)@[j].device_name
                &&& final(bufs)@[j].telemetry@ == values_for(
                    values@,
                    final(bufs)@[j].device_id,
                    DataPointType::Telemetry,
                )
                &&& final(bufs)@[j].attributes@ == values_for(
                    values@,
                    final(bufs)@[j].device_id,
                    DataPointType::Attribute,
                )
            },
{
    let ghost b0 = bufs@;
    let ghost v0 = values@;
    for v in it: values
        invariant
            it.seq() == v0,
            bufs@.len() == b0.len(),
            sorted_by_device(b0),
            forall|j: int|
                0 <= j < bufs@.len() ==> {
                    &&& (#[trigger] bufs@[j]).device_id == b0[j].device_id
                    &&& bufs@[j].device_name == b0[j].device_name
                    &&& bufs@[j].telemetry@ == values_for(
                        v0.take(it.index()),
                        b0[j].device_id,
                        DataPointType::Telemetry,
                    )
                    &&& bufs@[j].attributes@ == values_for(
                        v0.take(it.index()),
                        b0[j].device_id,
                        DataPointType::Attribute,
                    )
                },
    {
        let ghost i = it.index();
        assert(v0.take(i + 1).drop_last() =~= v0.take(i));
        assert(v0.take(i + 1).last() == v);
        let at: usize = buffer_place(bufs, v.device_id);
        if at < bufs.len() && bufs[at].device_id == v.device_id {
            let ghost before = bufs@;
            assert forall|j: int| 0 <= j < before.len() && j != at implies (
            #[trigger] before[j]).device_id != v.device_id by {
                assert(before[at as int].device_id == b0[at as int].device_id);
                assert(b0[j].device_id == before[j].device_id);
            }
            match v.kind {
                DataPointType::Telemetry => {
                    bufs[at].telemetry.push(v.value);
                },
                DataPointType::Attribute => {
                    bufs[at].attributes.push(v.value);
                },
            }
        } else {
            assert forall|j: int| 0 <= j < bufs@.len() implies (#[trigger] bufs@[j]).device_id
                != v.device_id by {
                if j > at {
                    assert(b0[at as int].device_id < b0[j].device_id);
                    assert(bufs@[at as int].device_id == b0[at as int].device_id);
                }
            }
        }
    }
    assert(v0.take(v0.len() as int) =~= v0);
}

/// What is handed to the northward side.
pub struct Publication {
    pub device_id: i32,
    pub device_name: String,
    /// Channel on which the values are published.
    pub kind: DataPointType,
    pub values: Vec<PointValue>,
}

/// `Publication` as mathematical data.
pub struct PublicationData {
    pub device_id: i32,
    pub device_name: Seq<char>,
    pub kind: DataPointType,
    pub values: Seq<PointValue>,
}

impl View for Publication {
    type V = PublicationData;

    open spec fn view(&self) -> PublicationData {
        PublicationData {
            device_id: self.device_id,
            device_name: self.device_name@,
            kind: self.kind,
            values: self.values@,
        }
    }
}

/// The values of one channel of a device, if there are any.
pub open spec fn published(b: DeviceBuffers, kind: DataPointType) -> Seq<PublicationData> {
    let values = match kind {
        DataPointType::Telemetry => b.telemetry@,
        DataPointType::Attribute => b.attributes@,
    };
    if values.len() == 0 {
        Seq::empty()
    } else {
        seq![
            PublicationData { device_id: b.device_id, device_name: b.device_name@, kind, values },
        ]
    }
}

/// For each device its telemetry, then its attributes, where there are values.
pub open spec fn published_all(bufs: Seq<DeviceBuffers>) -> Seq<PublicationData>
    decreases bufs.len(),
{
    if bufs.len() == 0 {
        Seq::empty()
    } else {
        published_all(bufs.drop_last()) + published(bufs.last(), DataPointType::Telemetry)
            + published(bufs.last(), DataPointType::Attribute)
    }
}

/// Publications as mathematical data.
pub open spec fn publication_views(v: Seq<Publication>) -> Seq<PublicationData> {
    v.map_values(|x: Publication| x@)
}

/// For each device its telemetry, then its attributes, where there are values.
pub fn publications(bufs: Vec<DeviceBuffers>) -> (r: Vec<Publication>)
    ensures
        publication_views(r@) == published_all(bufs@),
{
    let ghost b0 = bufs@;
    let mut out: Vec<Publication> = Vec::new();
    for b in it: bufs
        invariant
            it.seq() == b0,
            publication_views(out@) == published_all(b0.take(it.index())),
    {
        let ghost i = it.index();
        assert(b0.take(i + 1).drop_last() =~= b0.take(i));
        assert(b0.take(i + 1).last() == b);
        let ghost o1 = out@;
        if b.telemetry.len() > 0 {
            let p = Publication {
                device_id: b.device_id,
                device_name: b.device_name.clone(),
                kind: DataPointType::Telemetry,
                values: b.telemetry,
            };
            out.push(p);
            assert(publication_views(out@) =~= publication_views(o1) + seq![p@]);
        }
        assert(publication_views(out@) =~= publication_views(o1) + published(
            b,
            DataPointType::Telemetry,
        ));
        let ghost o2 = out@;
        if b.attributes.len() > 0 {
            let p = Publication {
                device_id: b.device_id,
                device_name: b.device_name,
                kind: DataPointType::Attribute,
                values: b.attributes,
            };
            out.push(p);
            assert(publication_views(out@) =~= publication_views(o2) + seq![p@]);
        }
        assert(publication_views(out@) =~= publication_views(o2) + published(
            b,
            DataPointType::Attribute,
        ));
    }
    assert(b0.take(b0.len() as int) =~= b0);
    out
}

} // verus!
